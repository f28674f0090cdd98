//! Allocation of pages in the banks of memory that peripherals share with
//! the processor.
//!
//! A bank is a table with one entry per page: the owner of the page, or
//! nothing where the page is free.

use vstd::prelude::*;
use xous::MessageSender;

verus! {

/// Opaque declaration of the identity of a message's sender.
#[verifier::external_type_specification]
#[verifier::external_body]
pub struct ExMessageSender(MessageSender);

/// Bytes in one page of a bank.
pub const IFRAM_PAGE: usize = 4096;

/// Pages needed for `size` bytes.
pub open spec fn spec_pages_for(size: usize) -> int {
    if size % IFRAM_PAGE == 0 {
        size as int / IFRAM_PAGE as int
    } else {
        size as int / IFRAM_PAGE as int + 1
    }
}

/// The `count` pages from `start` lie in the table and are free.
pub open spec fn run_is_free(
    table: Seq<Option<MessageSender>>,
    start: int,
    count: int,
) -> bool {
    &&& 0 <= start
    &&& start + count <= table.len()
    &&& forall|i: int| start <= i < start + count ==> (#[trigger] table[i]).is_none()
}

/// The table with the `count` pages from `start` given to `owner`.
pub open spec fn with_run(
    table: Seq<Option<MessageSender>>,
    start: int,
    count: int,
    owner: Option<MessageSender>,
) -> Seq<Option<MessageSender>> {
    Seq::new(
        table.len(),
        |i: int|
            if start <= i < start + count {
                owner
            } else {
                table[i]
            },
    )
}

/// Pages needed for `size` bytes.
pub fn pages_for(size: usize) -> (pages: usize)
    ensures
        pages == spec_pages_for(size),
{
    let mut size_pages = size / IFRAM_PAGE;
    if size % IFRAM_PAGE != 0 {
        size_pages += 1;
    }
    size_pages
}

/// Gives `sender` the first run of free pages that holds `size` bytes and
/// returns the run's offset in the bank. Where no run is long enough, or
/// where nothing is asked for, the table stays as it is and the result is
/// `None`.
pub fn try_alloc(ifram_allocs: &mut Vec<Option<MessageSender>>, size: usize, sender: MessageSender) -> (offset:
    Option<usize>)
    requires
        old(ifram_allocs)@.len() * IFRAM_PAGE <= usize::MAX,
    ensures
        match offset {
            Some(bytes) => {
                &&& size > 0
                &&& bytes % IFRAM_PAGE == 0
                &&& run_is_free(
                    old(ifram_allocs)@,
                    bytes as int / IFRAM_PAGE as int,
                    spec_pages_for(size),
                )
                &&& forall|start: int|
                    0 <= start < bytes as int / IFRAM_PAGE as int ==> !run_is_free(
                        old(ifram_allocs)@,
                        start,
                        spec_pages_for(size),
                    )
                &&& final(ifram_allocs)@ == with_run(
                    old(ifram_allocs)@,
                    bytes as int / IFRAM_PAGE as int,
                    spec_pages_for(size),
                    Some(sender),
                )
            },
            None => {
                &&& size == 0 || forall|start: int|
                    !run_is_free(old(ifram_allocs)@, start, spec_pages_for(size))
                &&& final(ifram_allocs)@ == old(ifram_allocs)@
            },
        },
{
    let size_pages = pages_for(size);
    if size_pages == 0 {
        return None;
    }
    let total = ifram_allocs.len();
    // Start and length of the run of free pages that ends just before `index`.
    let mut free_start: usize = 0;
    let mut found_len: usize = 0;
    let mut index: usize = 0;
    while index < total && found_len < size_pages
        invariant
            total == ifram_allocs@.len(),
            ifram_allocs@ == old(ifram_allocs)@,
            size_pages == spec_pages_for(size),
            size_pages > 0,
            index <= total,
            found_len <= size_pages,
            free_start + found_len == index,
            run_is_free(ifram_allocs@, free_start as int, found_len as int),
            forall|start: int|
                0 <= start < free_start ==> !run_is_free(
                    ifram_allocs@,
                    start,
                    size_pages as int,
                ),
        decreases total - index,
    {
        if ifram_allocs[index].is_some() {
            proof {
                assert forall|start: int| 0 <= start < index + 1 implies !run_is_free(
                    ifram_allocs@,
                    start,
                    size_pages as int,
                ) by {
                    if start >= free_start && run_is_free(ifram_allocs@, start, size_pages as int) {
                        assert(ifram_allocs@[index as int].is_none());
                    }
                }
            }
            free_start = index + 1;
            found_len = 0;
        } else {
            found_len = found_len + 1;
        }
        index = index + 1;
    }
    if found_len < size_pages {
        proof {
            assert forall|start: int| !run_is_free(ifram_allocs@, start, size_pages as int) by {
                if run_is_free(ifram_allocs@, start, size_pages as int) {
                    assert(start >= free_start);
                    assert(start + size_pages <= total);
                }
            }
        }
        return None;
    }
    let mut i: usize = free_start;
    while i < free_start + found_len
        invariant
            total == ifram_allocs@.len() == old(ifram_allocs)@.len(),
            free_start <= i <= free_start + found_len <= total,
            forall|j: int|
                0 <= j < total ==> ifram_allocs@[j] == if free_start <= j < i {
                    Some(sender)
                } else {
                    old(ifram_allocs)@[j]
                },
        decreases free_start + found_len - i,
    {
        ifram_allocs[i] = Some(sender);
        i = i + 1;
    }
    assert(ifram_allocs@ =~= with_run(
        old(ifram_allocs)@,
        free_start as int,
        size_pages as int,
        Some(sender),
    ));
    assert(free_start * IFRAM_PAGE <= total * IFRAM_PAGE) by (nonlinear_arith)
        requires
            free_start <= total,
    ;
    // Offset relative to the start of the bank.
    Some(free_start * IFRAM_PAGE)
}

/// Frees the `pages` pages from `first`, whoever owned them.
pub fn release(ifram_allocs: &mut Vec<Option<MessageSender>>, first: usize, pages: usize)
    requires
        first + pages <= old(ifram_allocs)@.len(),
    ensures
        final(ifram_allocs)@ == with_run(old(ifram_allocs)@, first as int, pages as int, None),
{
    let total = ifram_allocs.len();
    let end = first + pages;
    let mut i: usize = first;
    while i < end
        invariant
            end == first + pages,
            ifram_allocs@.len() == old(ifram_allocs)@.len(),
            first <= i <= first + pages <= ifram_allocs@.len(),
            forall|j: int|
                0 <= j < ifram_allocs@.len() ==> ifram_allocs@[j] == if first <= j < i {
                    None
                } else {
                    old(ifram_allocs)@[j]
                },
        decreases end - i,
    {
        ifram_allocs[i] = None;
        i = i + 1;
    }
    assert(ifram_allocs@ =~= with_run(old(ifram_allocs)@, first as int, pages as int, None));
}

/// The bank that holds the physical address and the address's offset in
/// it; `None` for an address outside both banks.
pub open spec fn spec_bank_of(
    address: usize,
    base0: usize,
    base1: usize,
    length: usize,
) -> Option<(usize, usize)> {
    if base0 <= address < base0 + length {
        Some((0usize, (address - base0) as usize))
    } else if base1 <= address < base1 + length {
        Some((1usize, (address - base1) as usize))
    } else {
        None
    }
}

/// Finds the bank of a physical address. The banks start at `base0` and
/// `base1` and are `length` bytes long each.
pub fn bank_of(address: usize, base0: usize, base1: usize, length: usize) -> (found: Option<
    (usize, usize),
>)
    requires
        base0 + length <= usize::MAX,
        base1 + length <= usize::MAX,
    ensures
        found == spec_bank_of(address, base0, base1, length),
{
    if base0 <= address && address < base0 + length {
        Some((0, address - base0))
    } else if base1 <= address && address < base1 + length {
        Some((1, address - base1))
    } else {
        None
    }
}

/// Whether bank `bank` may serve a request for `requested`: the bank that
/// was asked for, or any bank where the request names neither.
pub fn bank_may_serve(bank: usize, requested: usize) -> (may: bool)
    ensures
        may == (bank == requested || requested > 1),
{
    bank == requested || requested > 1
}

} // verus!

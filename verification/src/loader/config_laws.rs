//! What holds of reading the argument block, beyond a single call.

use vstd::prelude::*;
use crate::loader::args::{
    declared_words,
    payload_words,
    TAG_HEADER_WORDS,
    TAG_INIE,
    TAG_INIF,
    TAG_XKRN,
};
use crate::loader::bootconfig::{
    apply_record,
    scan_records,
    spec_read_initial_config,
    BootError,
    BootView,
    Scan,
};

verus! {

/// Two passes agree on a value when they hold the same, or when the second
/// already holds what the first ends with.
spec fn settled<T>(first: T, second: T, end: T) -> bool {
    first == second || second == end
}

/// A second pass over the same records, started from values that the first
/// pass ends with, ends as the first did.
proof fn lemma_second_pass(
    words: Seq<u32>,
    offset: int,
    limit: int,
    first: Scan,
    second: Scan,
    end: Scan,
)
    requires
        scan_records(words, offset, limit, first) == Ok::<Scan, BootError>(end),
        first.kernel_seen == second.kernel_seen,
        first.init_seen == second.init_seen,
        settled(first.view.no_copy, second.view.no_copy, end.view.no_copy),
        settled(first.view.base_addr, second.view.base_addr, end.view.base_addr),
        settled(first.view.debug, second.view.debug, end.view.debug),
        settled(first.view.regions, second.view.regions, end.view.regions),
        first.view.sram_start == second.view.sram_start,
        first.view.sram_size == second.view.sram_size,
        first.view.args_base == second.view.args_base,
        first.view.args == second.view.args,
        first.view.init_size == second.view.init_size,
        first.view.extra_pages == second.view.extra_pages,
        first.view.init_process_count == second.view.init_process_count,
    ensures
        scan_records(words, offset, limit, second) == Ok::<Scan, BootError>(end),
    decreases limit - offset,
{
    if offset < limit {
        let next_first = apply_record(first, words, offset)->Ok_0;
        let next_second = apply_record(second, words, offset)->Ok_0;
        lemma_second_pass(
            words,
            offset + TAG_HEADER_WORDS + payload_words(words, offset),
            limit,
            next_first,
            next_second,
            end,
        );
    } else {
        assert(first.view =~= second.view);
    }
}

/// Reading is idempotent. Where a block was read with success, reading it
/// again into the configuration that came out succeeds and gives that
/// configuration again, the count of initial programs included.
pub proof fn lemma_reading_again_changes_nothing(view: BootView)
    requires
        spec_read_initial_config(view) is Ok,
    ensures
        ({
            let once = spec_read_initial_config(view)->Ok_0;
            spec_read_initial_config(once) == Ok::<BootView, BootError>(once)
        }),
{
    let words = view.args;
    let limit = declared_words(words);
    let first_record = TAG_HEADER_WORDS + payload_words(words, 0);
    let once = spec_read_initial_config(view)->Ok_0;
    let first = Scan {
        view: BootView {
            sram_start: words[4] as usize,
            sram_size: words[5] as usize,
            init_process_count: 0,
            ..view
        },
        kernel_seen: false,
        init_seen: false,
    };
    let end = scan_records(words, first_record, limit, first)->Ok_0;
    assert(once == end.view);
    lemma_pass_keeps_the_block(words, first_record, limit, first);
    let second = Scan {
        view: BootView {
            sram_start: words[4] as usize,
            sram_size: words[5] as usize,
            init_process_count: 0,
            ..once
        },
        kernel_seen: false,
        init_seen: false,
    };
    lemma_second_pass(words, first_record, limit, first, second, end);
}

/// A pass changes neither the block nor what was read from its header.
proof fn lemma_pass_keeps_the_block(words: Seq<u32>, offset: int, limit: int, scan: Scan)
    requires
        scan_records(words, offset, limit, scan) is Ok,
    ensures
        ({
            let end = scan_records(words, offset, limit, scan)->Ok_0;
            &&& end.view.args == scan.view.args
            &&& end.view.args_base == scan.view.args_base
            &&& end.view.sram_start == scan.view.sram_start
            &&& end.view.sram_size == scan.view.sram_size
            &&& end.view.init_size == scan.view.init_size
            &&& end.view.extra_pages == scan.view.extra_pages
            &&& end.view.init_process_count >= scan.view.init_process_count
        }),
    decreases limit - offset,
{
    if offset < limit {
        lemma_pass_keeps_the_block(
            words,
            offset + TAG_HEADER_WORDS + payload_words(words, offset),
            limit,
            apply_record(scan, words, offset)->Ok_0,
        );
    }
}

/// A pass that ends with a kernel description noted, or an initial program
/// counted, met a record of that name.
proof fn lemma_pass_meets_what_it_notes(words: Seq<u32>, offset: int, limit: int, scan: Scan)
    requires
        0 <= offset,
        scan_records(words, offset, limit, scan) is Ok,
    ensures
        ({
            let end = scan_records(words, offset, limit, scan)->Ok_0;
            &&& end.kernel_seen && !scan.kernel_seen ==> exists|at: int|
                offset <= at < limit && words[at] == TAG_XKRN
            &&& end.init_seen && !scan.init_seen ==> exists|at: int|
                offset <= at < limit && (words[at] == TAG_INIE || words[at] == TAG_INIF)
        }),
    decreases limit - offset,
{
    if offset < limit {
        let next = apply_record(scan, words, offset)->Ok_0;
        let after = offset + TAG_HEADER_WORDS + payload_words(words, offset);
        lemma_pass_meets_what_it_notes(words, after, limit, next);
        let end = scan_records(words, offset, limit, scan)->Ok_0;
        if end.kernel_seen && !scan.kernel_seen {
            if next.kernel_seen {
                assert(words[offset] == TAG_XKRN);
            } else {
                let at = choose|at: int| after <= at < limit && words[at] == TAG_XKRN;
                assert(offset <= at < limit && words[at] == TAG_XKRN);
            }
        }
        if end.init_seen && !scan.init_seen {
            if next.init_seen {
                assert(words[offset] == TAG_INIE || words[offset] == TAG_INIF);
            } else {
                let at = choose|at: int|
                    after <= at < limit && (words[at] == TAG_INIE || words[at] == TAG_INIF);
                assert(offset <= at < limit && (words[at] == TAG_INIE || words[at] == TAG_INIF));
            }
        }
    }
}

/// A block is read with success only if, after its header, it names a
/// kernel description and an initial program. A block that lacks either is
/// refused.
pub proof fn lemma_kernel_and_init_are_required(view: BootView)
    requires
        spec_read_initial_config(view) is Ok,
    ensures
        exists|at: int| 0 <= at < view.args.len() && view.args[at] == TAG_XKRN,
        exists|at: int|
            0 <= at < view.args.len() && (view.args[at] == TAG_INIE || view.args[at] == TAG_INIF),
{
    let words = view.args;
    let limit = declared_words(words);
    let first_record = TAG_HEADER_WORDS + payload_words(words, 0);
    let first = Scan {
        view: BootView {
            sram_start: words[4] as usize,
            sram_size: words[5] as usize,
            init_process_count: 0,
            ..view
        },
        kernel_seen: false,
        init_seen: false,
    };
    lemma_pass_meets_what_it_notes(words, first_record, limit, first);
    let k = choose|at: int| first_record <= at < limit && words[at] == TAG_XKRN;
    assert(0 <= k < words.len() && words[k] == TAG_XKRN);
    let i = choose|at: int|
        first_record <= at < limit && (words[at] == TAG_INIE || words[at] == TAG_INIF);
    assert(0 <= i < words.len() && (words[i] == TAG_INIE || words[i] == TAG_INIF));
}

} // verus!

//! Main memory as the loader treats it: what a cold start wipes and where
//! the suspend marker lies.

use vstd::prelude::*;
use crate::loader::bootconfig::{BootConfig, BootView};

verus! {

/// Process identifier as the page tracker stores it.
pub type XousPid = u8;

pub const PAGE_SIZE: usize = 4096;

/// Bytes of the signature block in front of the argument block.
pub const SIGBLOCK_SIZE: usize = 0x1000;

/// Entries of one page table.
pub const PAGE_TABLE_ENTRIES: usize = 1024;

/// Bytes at the top of main memory that hold the loader's own stack and
/// are never wiped.
pub const RESERVED_STACK_BYTES: usize = 8192;

/// Pages between the suspend marker and the top of main memory, the
/// marker's own page included.
pub const MARKER_PAGES_FROM_TOP: usize = 3;

/// One page table. An address is resolved through two of them: the top
/// level, then the lower level.
pub struct PageTable {
    pub entries: [usize; 1024],
}

/// Number of words at the start of main memory that a cold start wipes.
pub open spec fn wiped_words(cfg: BootView) -> int {
    (cfg.sram_size - RESERVED_STACK_BYTES) / 4
}

/// Address of the suspend marker, a fixed number of pages below the top of
/// main memory; `None` where main memory is too small or does not end
/// within the address space.
pub open spec fn spec_suspend_marker(cfg: BootView) -> Option<usize> {
    let address = cfg.sram_start + cfg.sram_size - PAGE_SIZE * MARKER_PAGES_FROM_TOP;
    if address < 0 || cfg.sram_start + cfg.sram_size > usize::MAX {
        None
    } else {
        Some(address as usize)
    }
}

/// Address of the suspend marker.
pub fn suspend_marker(cfg: &BootConfig) -> (address: Option<usize>)
    ensures
        address == spec_suspend_marker(cfg@),
{
    match cfg.sram_start.checked_add(cfg.sram_size) {
        Some(top) => top.checked_sub(PAGE_SIZE * MARKER_PAGES_FROM_TOP),
        None => None,
    }
}

/// Sets the words from `start` up to `end` to zero and leaves the others.
/// Where `start` lies at or behind `end`, nothing is written.
pub fn bzero(memory: &mut [u32], start: usize, end: usize)
    requires
        end <= old(memory)@.len(),
    ensures
        final(memory)@.len() == old(memory)@.len(),
        forall|i: int| start <= i < end ==> final(memory)@[i] == 0,
        forall|i: int|
            0 <= i < old(memory)@.len() && !(start <= i < end) ==> final(memory)@[i] == old(
                memory,
            )@[i],
        start >= end ==> final(memory)@ == old(memory)@,
{
    let mut at = start;
    while at < end
        invariant
            start <= at,
            start < end ==> at <= end,
            start >= end ==> at == start,
            end <= memory@.len(),
            memory@.len() == old(memory)@.len(),
            forall|i: int| start <= i < at ==> memory@[i] == 0,
            forall|i: int|
                0 <= i < memory@.len() && !(start <= i < at) ==> memory@[i] == old(memory)@[i],
        decreases end - at,
    {
        memory[at] = 0;
        at = at + 1;
    }
    assert(start >= end ==> memory@ =~= old(memory)@);
}

/// Wipes main memory on a cold start, so that nothing that battery-backed
/// memory kept from an earlier run survives. `ram` is main memory from its
/// base; the loader's stack at the top is left alone.
pub fn clear_ram(cfg: &BootConfig, ram: &mut [u32])
    requires
        cfg.sram_size >= RESERVED_STACK_BYTES,
        old(ram)@.len() >= wiped_words(cfg@),
    ensures
        final(ram)@.len() == old(ram)@.len(),
        forall|i: int| 0 <= i < wiped_words(cfg@) ==> final(ram)@[i] == 0,
        forall|i: int|
            wiped_words(cfg@) <= i < old(ram)@.len() ==> final(ram)@[i] == old(ram)@[i],
{
    bzero(ram, 0, (cfg.sram_size - RESERVED_STACK_BYTES) / 4);
}

} // verus!

//! The seven values with which the kernel is entered, their backup copy for
//! a later resume, and the root translation pointer that a resume patches.

use vstd::prelude::*;
use crate::loader::bootconfig::{BootConfig, BootView};

verus! {

/// Virtual address at which the kernel finds the loader's structures.
pub const KERNEL_ARGUMENT_OFFSET: usize = 0xffc0_0000;

/// Number of words in the backup copy.
pub const BACKUP_WORDS: usize = 7;

/// What the page table construction leaves for one program.
#[derive(Clone, Copy, Debug, PartialEq, Eq, Structural)]
pub struct InitialProcess {
    /// Root translation pointer.
    pub satp: usize,
    /// Address of the first instruction.
    pub entrypoint: usize,
    /// Initial stack pointer.
    pub sp: usize,
}

/// The values handed to the kernel at its first instruction.
#[derive(Clone, Copy, Debug, PartialEq, Eq, Structural)]
pub struct KernelEntry {
    /// Where the kernel finds the argument block.
    pub arg_offset: u32,
    /// Where the kernel finds the table of initial processes.
    pub ip_offset: u32,
    /// Where the kernel finds the page tracker.
    pub rpt_offset: u32,
    /// Root translation pointer.
    pub satp: u32,
    /// Address of the kernel's first instruction.
    pub entrypoint: u32,
    /// The kernel's stack pointer.
    pub sp: u32,
    /// Start with debugging enabled.
    pub debug: bool,
}

/// Where the address space identifier sits in a root translation pointer.
#[derive(Clone, Copy, Debug, PartialEq, Eq, Structural)]
pub struct RootPointerLayout {
    /// Position of the identifier's lowest bit.
    pub shift: u32,
    /// Mask of the identifier, before shifting.
    pub mask: u32,
}

impl RootPointerLayout {
    /// The identifier fits the pointer: shifted into place, none of its
    /// bits is lost.
    pub open spec fn spec_fits(self) -> bool {
        self.shift < 32 && (self.mask << self.shift) >> self.shift == self.mask
    }

    /// Whether the identifier fits a 32-bit pointer. A layout for which
    /// this fails cannot be used with `encode_root_pointer`.
    pub fn fits(&self) -> (fits: bool)
        ensures
            fits == self.spec_fits(),
    {
        self.shift < 32 && (self.mask << self.shift) >> self.shift == self.mask
    }
}

/// The layout of a 32-bit root translation pointer: nine identifier bits
/// above the 22 bits of the page number.
pub open spec fn spec_sv32() -> RootPointerLayout {
    RootPointerLayout { shift: 22, mask: 0x1ff }
}

/// The layout of a 32-bit root translation pointer.
pub fn sv32() -> (layout: RootPointerLayout)
    ensures
        layout == spec_sv32(),
{
    RootPointerLayout { shift: 22, mask: 0x1ff }
}

/// Start of the loader's structures at the top of main memory.
pub open spec fn structures_start(cfg: BootView) -> int {
    cfg.sram_start + cfg.sram_size - cfg.init_size
}

/// Main memory ends within the address space and holds the loader's
/// structures.
pub open spec fn memory_fits(cfg: BootView) -> bool {
    cfg.sram_start + cfg.sram_size <= usize::MAX && structures_start(cfg) >= 0
}

/// An address of the loader as the kernel sees it; `None` where it lies
/// below the loader's structures or does not fit a 32-bit word.
pub open spec fn spec_kernel_view(cfg: BootView, address: usize) -> Option<u32> {
    let offset = address - structures_start(cfg) + KERNEL_ARGUMENT_OFFSET;
    if !memory_fits(cfg) || address < structures_start(cfg) || offset > u32::MAX {
        None
    } else {
        Some(offset as u32)
    }
}

/// The entry values after a cold start, or `None` where one of them cannot
/// be formed.
pub open spec fn spec_kernel_entry(
    cfg: BootView,
    processes: usize,
    page_tracker: usize,
    kernel: InitialProcess,
) -> Option<KernelEntry> {
    match (
        spec_kernel_view(cfg, cfg.args_base),
        spec_kernel_view(cfg, processes),
        spec_kernel_view(cfg, page_tracker),
    ) {
        (Some(arg_offset), Some(ip_offset), Some(rpt_offset)) => if kernel.satp <= u32::MAX
            && kernel.entrypoint <= u32::MAX && kernel.sp <= u32::MAX {
            Some(
                KernelEntry {
                    arg_offset,
                    ip_offset,
                    rpt_offset,
                    satp: kernel.satp as u32,
                    entrypoint: kernel.entrypoint as u32,
                    sp: kernel.sp as u32,
                    debug: cfg.debug,
                },
            )
        } else {
            None
        },
        _ => None,
    }
}

/// The seven words of the backup copy.
pub open spec fn spec_backup(entry: KernelEntry) -> Seq<u32> {
    seq![
        entry.arg_offset,
        entry.ip_offset,
        entry.rpt_offset,
        entry.satp,
        entry.entrypoint,
        entry.sp,
        if entry.debug { 1u32 } else { 0u32 },
    ]
}

/// `satp` with the address space identifier replaced by `pid`.
pub open spec fn spec_encode_root_pointer(layout: RootPointerLayout, satp: u32, pid: u32) -> u32 {
    satp & !(layout.mask << layout.shift) | ((pid & layout.mask) << layout.shift)
}

/// The entry values of a resume: the backup copy, with the root translation
/// pointer made to name process `pid`.
pub open spec fn spec_restore(backup: Seq<u32>, pid: u32) -> KernelEntry {
    KernelEntry {
        arg_offset: backup[0],
        ip_offset: backup[1],
        rpt_offset: backup[2],
        satp: spec_encode_root_pointer(spec_sv32(), backup[3], pid),
        entrypoint: backup[4],
        sp: backup[5],
        debug: backup[6] != 0,
    }
}

fn narrow(value: usize) -> (word: Option<u32>)
    ensures
        word == if value <= u32::MAX {
            Some(value as u32)
        } else {
            None
        },
{
    if value <= 0xffff_ffff {
        Some(value as u32)
    } else {
        None
    }
}

/// Start of the loader's structures, where it can be formed.
fn structures_start_of(sram_start: usize, sram_size: usize, init_size: usize) -> (start: Option<
    usize,
>)
    ensures
        match start {
            Some(s) => s == sram_start + sram_size - init_size && sram_start + sram_size
                <= usize::MAX,
            None => sram_start + sram_size - init_size < 0 || sram_start + sram_size > usize::MAX,
        },
{
    match sram_start.checked_add(sram_size) {
        Some(top) => top.checked_sub(init_size),
        None => None,
    }
}

fn kernel_view(start: usize, address: usize) -> (word: Option<u32>)
    ensures
        word == if address < start || address - start + KERNEL_ARGUMENT_OFFSET > u32::MAX {
            None
        } else {
            Some((address - start + KERNEL_ARGUMENT_OFFSET) as u32)
        },
{
    if address < start {
        return None;
    }
    match (address - start).checked_add(KERNEL_ARGUMENT_OFFSET) {
        Some(offset) => narrow(offset),
        None => None,
    }
}

/// Computes the values with which the kernel is entered after a cold
/// start, from the configuration, the addresses of the process table and
/// of the page tracker, and what was built for the kernel's own process.
pub fn kernel_entry(
    cfg: &BootConfig,
    processes: usize,
    page_tracker: usize,
    kernel: &InitialProcess,
) -> (entry: Option<KernelEntry>)
    ensures
        entry == spec_kernel_entry(cfg@, processes, page_tracker, *kernel),
{
    let debug = cfg.debug;
    let start = match structures_start_of(cfg.sram_start, cfg.sram_size, cfg.init_size) {
        Some(start) => start,
        None => {
            return None;
        },
    };
    let arg_offset = match kernel_view(start, cfg.args.base) {
        Some(word) => word,
        None => {
            return None;
        },
    };
    let ip_offset = match kernel_view(start, processes) {
        Some(word) => word,
        None => {
            return None;
        },
    };
    let rpt_offset = match kernel_view(start, page_tracker) {
        Some(word) => word,
        None => {
            return None;
        },
    };
    match (narrow(kernel.satp), narrow(kernel.entrypoint), narrow(kernel.sp)) {
        (Some(satp), Some(entrypoint), Some(sp)) => Some(
            KernelEntry { arg_offset, ip_offset, rpt_offset, satp, entrypoint, sp, debug },
        ),
        _ => None,
    }
}

/// The backup copy of the entry values, kept for a resume.
pub fn backup_args(entry: &KernelEntry) -> (backup: [u32; 7])
    ensures
        backup@ == spec_backup(*entry),
{
    let backup: [u32; 7] = [
        entry.arg_offset,
        entry.ip_offset,
        entry.rpt_offset,
        entry.satp,
        entry.entrypoint,
        entry.sp,
        if entry.debug {
            1
        } else {
            0
        },
    ];
    assert(backup@ =~= spec_backup(*entry));
    backup
}

/// Replaces the address space identifier in `satp` by `pid`.
pub fn encode_root_pointer(layout: RootPointerLayout, satp: u32, pid: u32) -> (patched: u32)
    requires
        layout.spec_fits(),
    ensures
        patched == spec_encode_root_pointer(layout, satp, pid),
{
    satp & !(layout.mask << layout.shift) | ((pid & layout.mask) << layout.shift)
}

/// The entry values of a resume, from the backup copy and the id of the
/// process that manages suspend and resume.
pub fn restore_entry(backup: &[u32; 7], pid: u32) -> (entry: KernelEntry)
    ensures
        entry == spec_restore(backup@, pid),
{
    KernelEntry {
        arg_offset: backup[0],
        ip_offset: backup[1],
        rpt_offset: backup[2],
        satp: {
            proof {
                lemma_sv32_fits();
            }
            encode_root_pointer(sv32(), backup[3], pid)
        },
        entrypoint: backup[4],
        sp: backup[5],
        debug: backup[6] != 0,
    }
}

proof fn lemma_sv32_fits()
    by (bit_vector)
    ensures
        (0x1ffu32 << 22u32) >> 22u32 == 0x1ffu32,
{
}

proof fn lemma_sv32_patch(satp: u32, pid: u32)
    by (bit_vector)
    ensures
        (satp & !(0x1ffu32 << 22u32) | ((pid & 0x1ffu32) << 22u32)) & 0x803f_ffffu32 == satp
            & 0x803f_ffffu32,
        ((satp & !(0x1ffu32 << 22u32) | ((pid & 0x1ffu32) << 22u32)) >> 22u32) & 0x1ffu32 == pid
            & 0x1ffu32,
        satp & !(0x1ffu32 << 22u32) | ((pid & 0x1ffu32) << 22u32) == satp & 0x803f_ffffu32 | ((pid
            & 0x1ffu32) << 22u32),
{
}

/// Patching a 32-bit root translation pointer changes the address space
/// identifier and nothing else: the identifier becomes the low nine bits
/// of `pid`, the mode bit and the page number stay.
pub proof fn lemma_patch_changes_only_the_identifier(satp: u32, pid: u32)
    ensures
        spec_encode_root_pointer(spec_sv32(), satp, pid) & 0x803f_ffff == satp & 0x803f_ffff,
        (spec_encode_root_pointer(spec_sv32(), satp, pid) >> 22) & 0x1ff == pid & 0x1ff,
        spec_encode_root_pointer(spec_sv32(), satp, pid) == satp & 0x803f_ffff | ((pid & 0x1ff) << 22),
{
    lemma_sv32_patch(satp, pid);
}

/// A resume enters the kernel with the values that the cold start saved;
/// only the address space identifier in the root translation pointer is
/// new.
pub proof fn lemma_resume_restores_the_entry(entry: KernelEntry, pid: u32)
    ensures
        spec_restore(spec_backup(entry), pid) == (KernelEntry {
            satp: spec_encode_root_pointer(spec_sv32(), entry.satp, pid),
            ..entry
        }),
{
}

} // verus!

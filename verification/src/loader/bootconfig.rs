//! The boot configuration and how the argument block fills it.

use vstd::prelude::*;
use crate::loader::args::{
    declared_words,
    payload,
    payload_words,
    record_fits,
    KernelArgument,
    KernelArguments,
    RAM_SIZE_INDEX,
    RAM_START_INDEX,
    TAG_BFLG,
    TAG_HEADER_WORDS,
    TAG_INIE,
    TAG_INIF,
    TAG_MREX,
    TAG_XARG,
    TAG_XKRN,
    XARG_SIZE,
};

verus! {

/// Boot flag: do not copy programs to main memory.
pub const FLAG_NO_COPY: u32 = 1;

/// Boot flag: addresses of programs count from zero.
pub const FLAG_ABSOLUTE: u32 = 2;

/// Boot flag: start the kernel with debugging enabled.
pub const FLAG_DEBUG: u32 = 4;

/// Payload bytes of a kernel description: seven words.
pub const KERNEL_DESCRIPTION_SIZE: u32 = 28;

/// Least payload of an initial program's record, in bytes.
pub const MIN_INIT_SIZE: u32 = 4;

/// Payload words of one extra memory region.
pub const REGION_WORDS: usize = 4;

/// A memory region besides main memory.
#[derive(Clone, Copy, Debug, PartialEq, Eq, Structural)]
pub struct MemoryRegionExtra {
    pub start: u32,
    pub length: u32,
    pub name: u32,
    pub padding: u32,
}

/// Why an argument block is refused.
#[derive(Clone, Copy, Debug, PartialEq, Eq, Structural)]
pub enum BootError {
    /// The block declares more words than are there.
    Truncated,
    /// The block declares no words at all.
    MissingHeader,
    /// A record runs past the end of the block.
    TagOverrun,
    /// The first record is not `XArg`, or has the wrong size.
    BadHeader,
    /// A boot flags record without a flags word.
    EmptyBootFlags,
    /// A second kernel description.
    KernelTwice,
    /// A kernel description of the wrong size.
    BadKernelSize,
    /// An initial program's record that is too short.
    BadInitSize,
    /// No kernel description.
    NoKernel,
    /// No initial program.
    NoInit,
}

/// What the loader knows of the machine and of what it is to start.
pub struct BootConfig {
    /// Programs stay where they are instead of being copied.
    pub no_copy: bool,
    /// Address that program offsets count from.
    pub base_addr: usize,
    /// Start the kernel with debugging enabled.
    pub debug: bool,
    /// Base of main memory.
    pub sram_start: usize,
    /// Size of main memory in bytes.
    pub sram_size: usize,
    /// Memory regions besides main memory.
    pub regions: Vec<MemoryRegionExtra>,
    /// The argument block.
    pub args: KernelArguments,
    /// Bytes at the top of main memory taken by the loader's structures.
    pub init_size: usize,
    /// Pages handed out beyond those structures.
    pub extra_pages: usize,
    /// Number of initial programs.
    pub init_process_count: usize,
}

/// The configuration as plain values.
pub struct BootView {
    pub no_copy: bool,
    pub base_addr: usize,
    pub debug: bool,
    pub sram_start: usize,
    pub sram_size: usize,
    pub regions: Seq<MemoryRegionExtra>,
    pub args_base: usize,
    pub args: Seq<u32>,
    pub init_size: usize,
    pub extra_pages: usize,
    pub init_process_count: int,
}

impl View for BootConfig {
    type V = BootView;

    open spec fn view(&self) -> BootView {
        BootView {
            no_copy: self.no_copy,
            base_addr: self.base_addr,
            debug: self.debug,
            sram_start: self.sram_start,
            sram_size: self.sram_size,
            regions: self.regions@,
            args_base: self.args.base,
            args: self.args.words@,
            init_size: self.init_size,
            extra_pages: self.extra_pages,
            init_process_count: self.init_process_count as int,
        }
    }
}

impl BootConfig {
    /// The configuration before the argument block is read: nothing is
    /// set, and program offsets count from where the block lies.
    pub fn new(args: KernelArguments) -> (cfg: BootConfig)
        ensures
            cfg@ == (BootView {
                no_copy: false,
                base_addr: args.base,
                debug: false,
                sram_start: 0,
                sram_size: 0,
                regions: Seq::empty(),
                args_base: args.base,
                args: args.words@,
                init_size: 0,
                extra_pages: 0,
                init_process_count: 0,
            }),
    {
        BootConfig {
            no_copy: false,
            base_addr: args.base,
            debug: false,
            sram_start: 0,
            sram_size: 0,
            regions: Vec::new(),
            args,
            init_size: 0,
            extra_pages: 0,
            init_process_count: 0,
        }
    }
}

/// Progress of a pass over the records.
pub struct Scan {
    pub view: BootView,
    pub kernel_seen: bool,
    pub init_seen: bool,
}

/// The regions that a payload lists, four words each.
pub open spec fn spec_regions(data: Seq<u32>) -> Seq<MemoryRegionExtra> {
    Seq::new(
        (data.len() / REGION_WORDS as nat) as nat,
        |i: int|
            MemoryRegionExtra {
                start: data[4 * i],
                length: data[4 * i + 1],
                name: data[4 * i + 2],
                padding: data[4 * i + 3],
            },
    )
}

/// The configuration after a boot flags word.
pub open spec fn apply_flags(view: BootView, flags: u32) -> BootView {
    BootView {
        no_copy: view.no_copy || flags & FLAG_NO_COPY != 0,
        base_addr: if flags & FLAG_ABSOLUTE != 0 {
            0
        } else {
            view.base_addr
        },
        debug: view.debug || flags & FLAG_DEBUG != 0,
        ..view
    }
}

/// What the record at `offset` does to the pass: an extra regions record
/// replaces the regions, a boot flags record sets flags, a kernel
/// description is noted once, each initial program is counted; any other
/// record is skipped.
pub open spec fn apply_record(scan: Scan, words: Seq<u32>, offset: int) -> Result<Scan, BootError> {
    let name = words[offset];
    let count = payload_words(words, offset);
    let data = payload(words, offset);
    if name == TAG_MREX {
        Ok(Scan { view: BootView { regions: spec_regions(data), ..scan.view }, ..scan })
    } else if name == TAG_BFLG {
        if count == 0 {
            Err(BootError::EmptyBootFlags)
        } else {
            Ok(Scan { view: apply_flags(scan.view, data[0]), ..scan })
        }
    } else if name == TAG_XKRN {
        if scan.kernel_seen {
            Err(BootError::KernelTwice)
        } else if count * 4 != KERNEL_DESCRIPTION_SIZE {
            Err(BootError::BadKernelSize)
        } else {
            Ok(Scan { kernel_seen: true, ..scan })
        }
    } else if name == TAG_INIE || name == TAG_INIF {
        if count * 4 < MIN_INIT_SIZE {
            Err(BootError::BadInitSize)
        } else {
            Ok(
                Scan {
                    view: BootView {
                        init_process_count: scan.view.init_process_count + 1,
                        ..scan.view
                    },
                    init_seen: true,
                    ..scan
                },
            )
        }
    } else {
        Ok(scan)
    }
}

/// The pass over the records from `offset` to `limit`.
pub open spec fn scan_records(words: Seq<u32>, offset: int, limit: int, scan: Scan) -> Result<
    Scan,
    BootError,
>
    decreases limit - offset,
{
    if offset >= limit {
        Ok(scan)
    } else if offset < 0 || !record_fits(words, offset, limit) {
        Err(BootError::TagOverrun)
    } else {
        match apply_record(scan, words, offset) {
            Err(e) => Err(e),
            Ok(next) => scan_records(
                words,
                offset + TAG_HEADER_WORDS + payload_words(words, offset),
                limit,
                next,
            ),
        }
    }
}

/// The end of a pass: a kernel description and an initial program have to
/// have been seen.
pub open spec fn conclude(pass: Result<Scan, BootError>) -> Result<BootView, BootError> {
    match pass {
        Err(e) => Err(e),
        Ok(scan) => if !scan.kernel_seen {
            Err(BootError::NoKernel)
        } else if !scan.init_seen {
            Err(BootError::NoInit)
        } else {
            Ok(scan.view)
        },
    }
}

/// The configuration that the argument block in `view` leads to, or why the
/// block is refused.
///
/// The block has to hold the words it declares and start with an `XArg`
/// record of 20 bytes, which gives base and size of main memory. Of the
/// records after it, exactly one has to describe the kernel and at least
/// one an initial program. The count of initial programs is that of the
/// block, whatever the configuration held before.
pub open spec fn spec_read_initial_config(view: BootView) -> Result<BootView, BootError> {
    let words = view.args;
    let limit = declared_words(words);
    if limit > words.len() {
        Err(BootError::Truncated)
    } else if limit == 0 {
        Err(BootError::MissingHeader)
    } else if !record_fits(words, 0, limit) {
        Err(BootError::TagOverrun)
    } else if words[0] != TAG_XARG || payload_words(words, 0) * 4 != XARG_SIZE {
        Err(BootError::BadHeader)
    } else {
        let start = Scan {
            view: BootView {
                sram_start: words[RAM_START_INDEX as int] as usize,
                sram_size: words[RAM_SIZE_INDEX as int] as usize,
                init_process_count: 0,
                ..view
            },
            kernel_seen: false,
            init_seen: false,
        };
        conclude(scan_records(words, TAG_HEADER_WORDS + payload_words(words, 0), limit, start))
    }
}

/// Reads the regions that the payload of `tag` lists.
fn read_regions(args: &KernelArguments, tag: &KernelArgument) -> (regions: Vec<MemoryRegionExtra>)
    requires
        tag.start + tag.size / 4 <= args.words@.len(),
    ensures
        regions@ == spec_regions(
            args.words@.subrange(tag.start as int, tag.start + tag.size / 4),
        ),
{
    let count: usize = (tag.size / 4) as usize / REGION_WORDS;
    let total = args.words.len();
    let mut regions: Vec<MemoryRegionExtra> = Vec::new();
    let ghost data = args.words@.subrange(tag.start as int, tag.start + tag.size / 4);
    let mut i: usize = 0;
    while i < count
        invariant
            i <= count,
            count == (tag.size / 4) as usize / REGION_WORDS,
            tag.start + tag.size / 4 <= args.words@.len() == total,
            data == args.words@.subrange(tag.start as int, tag.start + tag.size / 4),
            regions@.len() == i,
            forall|j: int| 0 <= j < i ==> regions@[j] == spec_regions(data)[j],
        decreases count - i,
    {
        assert(4 * i + 4 <= tag.size / 4);
        let at = tag.start + REGION_WORDS * i;
        assert(data[4 * i] == args.words@[at as int]);
        assert(data[4 * i + 1] == args.words@[at + 1]);
        assert(data[4 * i + 2] == args.words@[at + 2]);
        assert(data[4 * i + 3] == args.words@[at + 3]);
        regions.push(
            MemoryRegionExtra {
                start: args.words[at],
                length: args.words[at + 1],
                name: args.words[at + 2],
                padding: args.words[at + 3],
            },
        );
        i = i + 1;
    }
    assert(regions@ =~= spec_regions(data));
    regions
}

/// Fills the configuration from its argument block.
///
/// On success the configuration holds what `spec_read_initial_config`
/// says; a block that is refused leaves it as it was. Reading the same
/// block again gives the same configuration.
pub fn read_initial_config(cfg: &mut BootConfig) -> (result: Result<(), BootError>)
    ensures
        match spec_read_initial_config(old(cfg)@) {
            Ok(view) => result is Ok && final(cfg)@ == view,
            Err(e) => result == Err::<(), BootError>(e) && final(cfg)@ == old(cfg)@,
        },
{
    let limit = cfg.args.declared_words();
    if limit > cfg.args.words.len() {
        return Err(BootError::Truncated);
    }
    if limit == 0 {
        return Err(BootError::MissingHeader);
    }
    let xarg = match cfg.args.record(0, limit) {
        Some(tag) => tag,
        None => {
            return Err(BootError::TagOverrun);
        },
    };
    if xarg.name != TAG_XARG || xarg.size != XARG_SIZE {
        return Err(BootError::BadHeader);
    }
    let sram_start = cfg.args.words[RAM_START_INDEX] as usize;
    let sram_size = cfg.args.words[RAM_SIZE_INDEX] as usize;
    let mut no_copy = cfg.no_copy;
    let mut base_addr = cfg.base_addr;
    let mut debug = cfg.debug;
    let mut regions: Option<Vec<MemoryRegionExtra>> = None;
    let mut init_process_count: usize = 0;
    let mut kernel_seen = false;
    let mut init_seen = false;
    let mut offset: usize = TAG_HEADER_WORDS + (XARG_SIZE / 4) as usize;

    let ghost words = cfg.args.words@;
    let ghost start = Scan {
        view: BootView { sram_start, sram_size, init_process_count: 0, ..cfg@ },
        kernel_seen: false,
        init_seen: false,
    };
    let ghost first = offset as int;
    let ghost mut scan = start;
    while offset < limit
        invariant
            *cfg == *old(cfg),
            words == cfg.args.words@,
            limit <= words.len(),
            first <= offset <= limit,
            spec_read_initial_config(old(cfg)@) == conclude(
                scan_records(words, first, limit as int, start),
            ),
            init_process_count <= offset,
            scan == (Scan {
                view: BootView {
                    no_copy,
                    base_addr,
                    debug,
                    sram_start,
                    sram_size,
                    regions: match regions {
                        Some(r) => r@,
                        None => cfg.regions@,
                    },
                    init_process_count: init_process_count as int,
                    ..cfg@
                },
                kernel_seen,
                init_seen,
            }),
            scan_records(words, first, limit as int, start) == scan_records(
                words,
                offset as int,
                limit as int,
                scan,
            ),
        decreases limit - offset,
    {
        let tag = match cfg.args.record(offset, limit) {
            Some(tag) => tag,
            None => {
                return Err(BootError::TagOverrun);
            },
        };
        let ghost data = payload(words, offset as int);
        assert(tag.size == payload_words(words, offset as int) * 4);
        assert(data =~= words.subrange(tag.start as int, tag.start + tag.size / 4));
        if tag.name == TAG_MREX {
            regions = Some(read_regions(&cfg.args, &tag));
        } else if tag.name == TAG_BFLG {
            if tag.size == 0 {
                return Err(BootError::EmptyBootFlags);
            }
            let boot_flags = cfg.args.words[tag.start];
            assert(boot_flags == data[0]);
            if boot_flags & FLAG_NO_COPY != 0 {
                no_copy = true;
            }
            if boot_flags & FLAG_ABSOLUTE != 0 {
                base_addr = 0;
            }
            if boot_flags & FLAG_DEBUG != 0 {
                debug = true;
            }
        } else if tag.name == TAG_XKRN {
            if kernel_seen {
                return Err(BootError::KernelTwice);
            }
            if tag.size != KERNEL_DESCRIPTION_SIZE {
                return Err(BootError::BadKernelSize);
            }
            kernel_seen = true;
        } else if tag.name == TAG_INIE || tag.name == TAG_INIF {
            if tag.size < MIN_INIT_SIZE {
                return Err(BootError::BadInitSize);
            }
            init_seen = true;
            init_process_count = init_process_count + 1;
        }
        proof {
            scan = apply_record(scan, words, offset as int).unwrap();
        }
        offset = tag.start + (tag.size / 4) as usize;
    }
    assert(scan_records(words, first, limit as int, start) == Ok::<Scan, BootError>(scan));
    if !kernel_seen {
        return Err(BootError::NoKernel);
    }
    if !init_seen {
        return Err(BootError::NoInit);
    }
    cfg.sram_start = sram_start;
    cfg.sram_size = sram_size;
    cfg.no_copy = no_copy;
    cfg.base_addr = base_addr;
    cfg.debug = debug;
    cfg.init_process_count = init_process_count;
    match regions {
        Some(r) => {
            cfg.regions = r;
        },
        None => {},
    }
    Ok(())
}

} // verus!

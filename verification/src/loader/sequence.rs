//! The order of a boot: which step follows which, and when the loader
//! stops for good.
//!
//! The loader's caller does the work on the machine: it checks the
//! signature, copies the argument block and the suspend marker, wipes
//! memory, builds page tables, programs the hardware and jumps. After each
//! piece of work it reports what came of it and is told the next. What the
//! loader decides by itself is decided here: the argument block is read
//! and the suspend marker judged in the step that receives their words.

use vstd::prelude::*;
use crate::loader::args::KernelArguments;
use crate::loader::bootconfig::{
    read_initial_config,
    spec_read_initial_config,
    BootConfig,
    BootError,
    BootView,
};
use crate::loader::entry::{
    kernel_entry,
    restore_entry,
    spec_kernel_entry,
    spec_restore,
    InitialProcess,
    KernelEntry,
};
use crate::loader::memory::SIGBLOCK_SIZE;
use crate::loader::resume::{marker_clean, read_marker, FORCED_INDEX, PID_INDEX, WORDS_PER_PAGE};

verus! {

/// Serial port that carries the kernel's own console.
pub const UART_KERNEL: u32 = 0;

/// Serial port that carries the log.
pub const UART_LOG: u32 = 1;

/// Samples of the entropy source that a resume throws away.
pub const RESUME_ENTROPY_DISCARD: u32 = 4;

/// One step of preparing the hardware for a resume.
#[derive(Clone, Copy, Debug, PartialEq, Eq, Structural)]
pub enum ResumeStep {
    /// Hold the power on, so that the machine cannot switch off before the
    /// resume is through.
    LatchPower,
    /// Read this many samples from the entropy source and throw them away,
    /// so that nothing stale is left in its pipeline.
    DiscardEntropy(u32),
    /// Let the kernel's serial port raise receive interrupts.
    EnableUartReceive,
    /// Mark the state of the suspend and resume hardware as a resume;
    /// `was_forced` sets the bit for a forced suspend beside it.
    MarkResume { was_forced: bool },
    /// Keep the tick timer paused until the kernel resumes it.
    PauseTicktimer,
    /// Let software raise the resume interrupt.
    EnableSoftInterrupt,
    /// Raise the resume interrupt, which the kernel finds pending.
    TriggerInterrupt,
}

/// The steps that prepare the hardware for a resume, in their order.
pub open spec fn spec_resume_steps(was_forced_suspend: bool) -> Seq<ResumeStep> {
    seq![
        ResumeStep::LatchPower,
        ResumeStep::DiscardEntropy(RESUME_ENTROPY_DISCARD),
        ResumeStep::EnableUartReceive,
        ResumeStep::MarkResume { was_forced: was_forced_suspend },
        ResumeStep::PauseTicktimer,
        ResumeStep::EnableSoftInterrupt,
        ResumeStep::TriggerInterrupt,
    ]
}

/// The steps that prepare the hardware for a resume. Power is latched
/// first; the interrupt is raised last.
pub fn resume_steps(was_forced_suspend: bool) -> (steps: [ResumeStep; 7])
    ensures
        steps@ == spec_resume_steps(was_forced_suspend),
{
    let steps = [
        ResumeStep::LatchPower,
        ResumeStep::DiscardEntropy(RESUME_ENTROPY_DISCARD),
        ResumeStep::EnableUartReceive,
        ResumeStep::MarkResume { was_forced: was_forced_suspend },
        ResumeStep::PauseTicktimer,
        ResumeStep::EnableSoftInterrupt,
        ResumeStep::TriggerInterrupt,
    ];
    assert(steps@ =~= spec_resume_steps(was_forced_suspend));
    steps
}

/// How the loader was built.
#[derive(Clone, Copy, Debug, PartialEq, Eq, Structural)]
pub struct BootOptions {
    /// The image's signature is checked before anything is read from it.
    pub secure_boot: bool,
    /// A clean suspend is resumed rather than started cold.
    pub resume: bool,
    /// A cold start wipes main memory. Off only where memory is simulated
    /// and starts out as zeros.
    pub clear_ram: bool,
    /// What was loaded is checked and printed before the kernel is
    /// entered. For debugging.
    pub check_load: bool,
}

/// How far the boot has come.
#[derive(Clone, Copy, Debug, PartialEq, Eq, Structural)]
pub enum BootStage {
    /// The signature is being checked.
    AwaitImage { signed_buffer: u32 },
    /// The argument block at `arg_buffer` is being read.
    AwaitConfig { arg_buffer: u32 },
    /// The suspend marker is being read.
    AwaitMarker,
    /// The suspend marker was judged and is being wiped.
    AwaitMarkerWipe { clean: bool, was_forced_suspend: bool, pid: u32 },
    /// Main memory is being wiped.
    AwaitClear,
    /// Page tables are being allocated.
    AwaitPhase1,
    /// Page tables are being filled.
    AwaitPhase2,
    /// What was loaded is being checked; `entry` is ready.
    AwaitLoadCheck { entry: KernelEntry },
    /// The hardware was prepared for a resume and the backup copy of the
    /// entry values is being read.
    AwaitBackup { pid: u32 },
    /// The kernel was entered.
    Entered,
    /// The loader has stopped for good.
    Halted,
}

/// Why the loader stopped.
#[derive(Clone, Copy, Debug, PartialEq, Eq, Structural)]
pub enum HaltReason {
    /// The signature over the image does not check.
    InvalidImage,
    /// The argument block would lie beyond the address space.
    ArgumentsOutOfReach,
    /// The argument block is refused.
    Arguments(BootError),
    /// The entry values of the kernel cannot be formed.
    NoEntry,
    /// The suspend marker is not one page long.
    MarkerSize,
    /// A report came that does not belong to the stage.
    OutOfTurn,
}

/// What the caller reports.
#[derive(Debug, PartialEq, Eq)]
pub enum BootEvent {
    /// The signature was checked.
    ImageChecked { valid: bool },
    /// The words of the argument block were read.
    ArgumentsRead { words: Vec<u32> },
    /// The suspend marker and the two seed words of the hardware were
    /// read.
    MarkerRead { marker: Vec<u32>, seed0: u32, seed1: u32 },
    /// The suspend marker was wiped.
    MarkerWiped,
    /// Main memory was wiped.
    RamCleared,
    /// Page tables were allocated.
    Phase1Done,
    /// Page tables were filled: the address of the process table, that of
    /// the page tracker, and what was built for the kernel's own process.
    Phase2Done { processes: usize, page_tracker: usize, kernel: InitialProcess },
    /// What was loaded was checked.
    LoadChecked,
    /// The backup copy of the entry values was read.
    BackupRead { backup: [u32; 7] },
}

/// What the caller is to do next.
#[derive(Clone, Copy, Debug, PartialEq, Eq)]
pub enum BootAction {
    /// Check the signature over the whole image at `signed_buffer`.
    ValidateImage { signed_buffer: u32 },
    /// Read the words of the argument block at `arg_buffer`.
    ReadArguments { arg_buffer: u32 },
    /// Read the page of the suspend marker and the seed words of the
    /// hardware.
    ReadMarker,
    /// Wipe the suspend marker, so that a resume that fails is not tried
    /// again.
    WipeMarker,
    /// Wipe main memory.
    ClearRam,
    /// Allocate page tables.
    Phase1,
    /// Fill page tables.
    Phase2,
    /// Check what was loaded for each initial program, and print it.
    CheckLoad,
    /// Carry out `resume_steps(was_forced_suspend)`, then read the backup
    /// copy of the entry values.
    PrepareResume { was_forced_suspend: bool },
    /// With `save_backup`, store the backup copy of `entry` for a later
    /// resume. Select serial port `uart` and enter the kernel.
    StartKernel { entry: KernelEntry, save_backup: bool, uart: u32, clean: bool },
    /// Stop for good.
    Halt { reason: HaltReason },
}

/// The first step of a cold start: the wipe of main memory, where the
/// loader is built to wipe.
pub open spec fn spec_cold_start(options: BootOptions) -> (BootStage, BootAction) {
    if options.clear_ram {
        (BootStage::AwaitClear, BootAction::ClearRam)
    } else {
        (BootStage::AwaitPhase1, BootAction::Phase1)
    }
}

/// The step that follows a checked signature, or the first step where no
/// signature is checked: the argument block lies one signature block into
/// the image.
pub open spec fn spec_read_arguments(signed_buffer: u32) -> (BootStage, BootAction) {
    if signed_buffer + SIGBLOCK_SIZE > u32::MAX {
        spec_halt(HaltReason::ArgumentsOutOfReach)
    } else {
        (
            BootStage::AwaitConfig { arg_buffer: (signed_buffer + SIGBLOCK_SIZE) as u32 },
            BootAction::ReadArguments { arg_buffer: (signed_buffer + SIGBLOCK_SIZE) as u32 },
        )
    }
}

/// The step that stops the loader.
pub open spec fn spec_halt(reason: HaltReason) -> (BootStage, BootAction) {
    (BootStage::Halted, BootAction::Halt { reason })
}

/// The configuration before the argument block at `arg_buffer` is read.
pub open spec fn spec_fresh_config(arg_buffer: u32, words: Seq<u32>) -> BootView {
    BootView {
        no_copy: false,
        base_addr: arg_buffer as usize,
        debug: false,
        sram_start: 0,
        sram_size: 0,
        regions: Seq::empty(),
        args_base: arg_buffer as usize,
        args: words,
        init_size: 0,
        extra_pages: 0,
        init_process_count: 0,
    }
}

/// The configuration after `event` at `stage`: a block of arguments that
/// is read with success gives a new configuration; nothing else changes
/// the configuration.
pub open spec fn spec_config_after(stage: BootStage, cfg: BootView, event: BootEvent) -> BootView {
    match (stage, event) {
        (
            BootStage::AwaitConfig { arg_buffer },
            BootEvent::ArgumentsRead { words },
        ) => match spec_read_initial_config(spec_fresh_config(arg_buffer, words@)) {
            Ok(read) => read,
            Err(_) => cfg,
        },
        _ => cfg,
    }
}

/// The step into the kernel after a cold start: the entry values are
/// saved for a later resume, and the serial port carries the log.
pub open spec fn spec_cold_entry(entry: KernelEntry) -> (BootStage, BootAction) {
    (
        BootStage::Entered,
        BootAction::StartKernel { entry, save_backup: true, uart: UART_LOG, clean: false },
    )
}

/// The first step of a boot.
pub open spec fn spec_rust_entry(options: BootOptions, signed_buffer: u32) -> (
    BootStage,
    BootAction,
) {
    if options.secure_boot {
        (BootStage::AwaitImage { signed_buffer }, BootAction::ValidateImage { signed_buffer })
    } else {
        spec_read_arguments(signed_buffer)
    }
}

/// The step that follows `event` at `stage`. A report that does not belong
/// to the stage stops the loader, and so does every failure; once stopped,
/// the loader stays stopped.
pub open spec fn spec_boot_sequence(
    stage: BootStage,
    options: BootOptions,
    cfg: BootView,
    event: BootEvent,
) -> (BootStage, BootAction) {
    match (stage, event) {
        (BootStage::AwaitImage { signed_buffer }, BootEvent::ImageChecked { valid }) => if valid {
            spec_read_arguments(signed_buffer)
        } else {
            spec_halt(HaltReason::InvalidImage)
        },
        (
            BootStage::AwaitConfig { arg_buffer },
            BootEvent::ArgumentsRead { words },
        ) => match spec_read_initial_config(spec_fresh_config(arg_buffer, words@)) {
            Err(e) => spec_halt(HaltReason::Arguments(e)),
            Ok(_) => if options.resume {
                (BootStage::AwaitMarker, BootAction::ReadMarker)
            } else {
                spec_cold_start(options)
            },
        },
        (
            BootStage::AwaitMarker,
            BootEvent::MarkerRead { marker, seed0, seed1 },
        ) => if marker@.len() != WORDS_PER_PAGE {
            spec_halt(HaltReason::MarkerSize)
        } else {
            (
                BootStage::AwaitMarkerWipe {
                    clean: marker_clean(marker@, seed0, seed1),
                    was_forced_suspend: marker@[FORCED_INDEX as int] != 0,
                    pid: marker@[PID_INDEX as int],
                },
                BootAction::WipeMarker,
            )
        },
        (
            BootStage::AwaitMarkerWipe { clean, was_forced_suspend, pid },
            BootEvent::MarkerWiped,
        ) => if clean {
            (
                BootStage::AwaitBackup { pid },
                BootAction::PrepareResume { was_forced_suspend },
            )
        } else {
            spec_cold_start(options)
        },
        (BootStage::AwaitClear, BootEvent::RamCleared) => (
            BootStage::AwaitPhase1,
            BootAction::Phase1,
        ),
        (BootStage::AwaitPhase1, BootEvent::Phase1Done) => (
            BootStage::AwaitPhase2,
            BootAction::Phase2,
        ),
        (
            BootStage::AwaitPhase2,
            BootEvent::Phase2Done { processes, page_tracker, kernel },
        ) => match spec_kernel_entry(cfg, processes, page_tracker, kernel) {
            Some(entry) => if options.check_load {
                (BootStage::AwaitLoadCheck { entry }, BootAction::CheckLoad)
            } else {
                spec_cold_entry(entry)
            },
            None => spec_halt(HaltReason::NoEntry),
        },
        (BootStage::AwaitLoadCheck { entry }, BootEvent::LoadChecked) => spec_cold_entry(entry),
        (BootStage::AwaitBackup { pid }, BootEvent::BackupRead { backup }) => (
            BootStage::Entered,
            BootAction::StartKernel {
                entry: spec_restore(backup@, pid),
                save_backup: false,
                uart: UART_KERNEL,
                clean: true,
            },
        ),
        _ => spec_halt(HaltReason::OutOfTurn),
    }
}

fn halt(reason: HaltReason) -> (step: (BootStage, BootAction))
    ensures
        step == spec_halt(reason),
{
    (BootStage::Halted, BootAction::Halt { reason })
}

fn read_arguments(signed_buffer: u32) -> (step: (BootStage, BootAction))
    ensures
        step == spec_read_arguments(signed_buffer),
{
    if signed_buffer > 0xffff_ffff - 0x1000 {
        halt(HaltReason::ArgumentsOutOfReach)
    } else {
        let arg_buffer = signed_buffer + 0x1000;
        (BootStage::AwaitConfig { arg_buffer }, BootAction::ReadArguments { arg_buffer })
    }
}

fn cold_start(options: &BootOptions) -> (step: (BootStage, BootAction))
    ensures
        step == spec_cold_start(*options),
{
    if options.clear_ram {
        (BootStage::AwaitClear, BootAction::ClearRam)
    } else {
        (BootStage::AwaitPhase1, BootAction::Phase1)
    }
}

fn cold_entry(entry: KernelEntry) -> (step: (BootStage, BootAction))
    ensures
        step == spec_cold_entry(entry),
{
    (
        BootStage::Entered,
        BootAction::StartKernel { entry, save_backup: true, uart: UART_LOG, clean: false },
    )
}

/// Entry point of the loader: the first step of a boot of the image at
/// `signed_buffer`. With secure boot the signature over the whole image,
/// argument block included, is checked before a byte of it is trusted.
pub fn rust_entry(options: &BootOptions, signed_buffer: u32) -> (step: (BootStage, BootAction))
    ensures
        step == spec_rust_entry(*options, signed_buffer),
{
    if options.secure_boot {
        (BootStage::AwaitImage { signed_buffer }, BootAction::ValidateImage { signed_buffer })
    } else {
        read_arguments(signed_buffer)
    }
}

/// The next step of the boot, given what the caller reports of the last.
///
/// The configuration is filled here, from the words of the argument
/// block, and nowhere else; a block that is refused leaves it as it was
/// and stops the loader.
pub fn boot_sequence(
    stage: BootStage,
    options: &BootOptions,
    cfg: &mut BootConfig,
    event: BootEvent,
) -> (step: (BootStage, BootAction))
    ensures
        step == spec_boot_sequence(stage, *options, old(cfg)@, event),
        final(cfg)@ == spec_config_after(stage, old(cfg)@, event),
{
    match (stage, event) {
        (BootStage::AwaitImage { signed_buffer }, BootEvent::ImageChecked { valid }) => {
            if valid {
                read_arguments(signed_buffer)
            } else {
                halt(HaltReason::InvalidImage)
            }
        },
        (BootStage::AwaitConfig { arg_buffer }, BootEvent::ArgumentsRead { words }) => {
            let mut read = BootConfig::new(KernelArguments::new(arg_buffer as usize, words));
            assert(read@ == spec_fresh_config(arg_buffer, words@));
            match read_initial_config(&mut read) {
                Err(e) => halt(HaltReason::Arguments(e)),
                Ok(()) => {
                    *cfg = read;
                    if options.resume {
                        (BootStage::AwaitMarker, BootAction::ReadMarker)
                    } else {
                        cold_start(options)
                    }
                },
            }
        },
        (BootStage::AwaitMarker, BootEvent::MarkerRead { marker, seed0, seed1 }) => {
            if marker.len() != WORDS_PER_PAGE {
                halt(HaltReason::MarkerSize)
            } else {
                let (clean, was_forced_suspend, pid) = read_marker(
                    marker.as_slice(),
                    seed0,
                    seed1,
                );
                (
                    BootStage::AwaitMarkerWipe { clean, was_forced_suspend, pid },
                    BootAction::WipeMarker,
                )
            }
        },
        (
            BootStage::AwaitMarkerWipe { clean, was_forced_suspend, pid },
            BootEvent::MarkerWiped,
        ) => {
            if clean {
                (BootStage::AwaitBackup { pid }, BootAction::PrepareResume { was_forced_suspend })
            } else {
                cold_start(options)
            }
        },
        (BootStage::AwaitClear, BootEvent::RamCleared) => (
            BootStage::AwaitPhase1,
            BootAction::Phase1,
        ),
        (BootStage::AwaitPhase1, BootEvent::Phase1Done) => (
            BootStage::AwaitPhase2,
            BootAction::Phase2,
        ),
        (BootStage::AwaitPhase2, BootEvent::Phase2Done { processes, page_tracker, kernel }) => {
            match kernel_entry(cfg, processes, page_tracker, &kernel) {
                Some(entry) => {
                    if options.check_load {
                        (BootStage::AwaitLoadCheck { entry }, BootAction::CheckLoad)
                    } else {
                        cold_entry(entry)
                    }
                },
                None => halt(HaltReason::NoEntry),
            }
        },
        (BootStage::AwaitLoadCheck { entry }, BootEvent::LoadChecked) => cold_entry(entry),
        (BootStage::AwaitBackup { pid }, BootEvent::BackupRead { backup }) => (
            BootStage::Entered,
            BootAction::StartKernel {
                entry: restore_entry(&backup, pid),
                save_backup: false,
                uart: UART_KERNEL,
                clean: true,
            },
        ),
        _ => halt(HaltReason::OutOfTurn),
    }
}

} // verus!

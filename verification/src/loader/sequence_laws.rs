//! What holds of every boot, whatever the caller reports.

use vstd::prelude::*;
use crate::loader::args::{TAG_INIE, TAG_INIF, TAG_XKRN};
use crate::loader::bootconfig::{spec_read_initial_config, BootView};
use crate::loader::config_laws::lemma_kernel_and_init_are_required;
use crate::loader::resume::{lemma_wiped_marker_is_not_clean, marker_clean, wiped, WORDS_PER_PAGE};
use crate::loader::sequence::{
    spec_boot_sequence,
    spec_cold_start,
    spec_config_after,
    spec_fresh_config,
    spec_rust_entry,
    BootAction,
    BootEvent,
    BootOptions,
    BootStage,
    HaltReason,
};

verus! {

/// The stage after the reports `events`, each met with the configuration
/// of its time in `cfgs`, starting at `stage`.
pub open spec fn stage_after(
    stage: BootStage,
    options: BootOptions,
    cfgs: Seq<BootView>,
    events: Seq<BootEvent>,
) -> BootStage
    decreases events.len(),
{
    if events.len() == 0 {
        stage
    } else {
        spec_boot_sequence(
            stage_after(stage, options, cfgs.drop_last(), events.drop_last()),
            options,
            cfgs.last(),
            events.last(),
        ).0
    }
}

/// The action that answers the last of `events`.
pub open spec fn last_action(
    stage: BootStage,
    options: BootOptions,
    cfgs: Seq<BootView>,
    events: Seq<BootEvent>,
) -> BootAction {
    spec_boot_sequence(
        stage_after(stage, options, cfgs.drop_last(), events.drop_last()),
        options,
        cfgs.last(),
        events.last(),
    ).1
}

/// An action that touches memory or builds on the image: anything but the
/// signature check and the halt.
pub open spec fn builds(action: BootAction) -> bool {
    !(action is Halt) && !(action is ValidateImage)
}

/// Once stopped, the loader stays stopped: whatever is reported, the
/// answer is to halt.
pub proof fn lemma_stopped_stays_stopped(
    options: BootOptions,
    cfgs: Seq<BootView>,
    events: Seq<BootEvent>,
)
    requires
        cfgs.len() == events.len(),
    ensures
        stage_after(BootStage::Halted, options, cfgs, events) == BootStage::Halted,
        events.len() > 0 ==> last_action(BootStage::Halted, options, cfgs, events) is Halt,
        forall|i: int|
            0 <= i < events.len() ==> spec_config_after(BootStage::Halted, cfgs[i], events[i])
                == cfgs[i],
    decreases events.len(),
{
    if events.len() > 0 {
        lemma_stopped_stays_stopped(options, cfgs.drop_last(), events.drop_last());
    }
}

/// Validation is all or nothing. With secure boot, an image whose
/// signature does not check is never read: the first answer and every
/// answer after it is to halt, so no argument is parsed, no memory wiped
/// and no page table built.
pub proof fn lemma_rejected_image_is_never_used(
    options: BootOptions,
    signed_buffer: u32,
    cfgs: Seq<BootView>,
    events: Seq<BootEvent>,
)
    requires
        options.secure_boot,
        cfgs.len() == events.len(),
        events.len() > 0,
        events[0] == (BootEvent::ImageChecked { valid: false }),
    ensures
        spec_rust_entry(options, signed_buffer).1 == (BootAction::ValidateImage { signed_buffer }),
        last_action(spec_rust_entry(options, signed_buffer).0, options, cfgs, events) is Halt,
        events.len() == 1 ==> last_action(
            spec_rust_entry(options, signed_buffer).0,
            options,
            cfgs,
            events,
        ) == (BootAction::Halt { reason: HaltReason::InvalidImage }),
        stage_after(spec_rust_entry(options, signed_buffer).0, options, cfgs, events)
            == BootStage::Halted,
    decreases events.len(),
{
    let start = spec_rust_entry(options, signed_buffer).0;
    if events.len() == 1 {
        assert(events.drop_last().len() == 0);
        assert(stage_after(start, options, cfgs.drop_last(), events.drop_last()) == start);
    } else {
        assert(events.drop_last()[0] == events[0]);
        lemma_rejected_image_is_never_used(
            options,
            signed_buffer,
            cfgs.drop_last(),
            events.drop_last(),
        );
    }
}

/// With secure boot, nothing is built before the signature has checked: in
/// a boot that reaches any step but the signature check and the halt, the
/// first report said that the image is valid.
pub proof fn lemma_building_needs_a_valid_image(
    options: BootOptions,
    signed_buffer: u32,
    cfgs: Seq<BootView>,
    events: Seq<BootEvent>,
)
    requires
        options.secure_boot,
        cfgs.len() == events.len(),
        events.len() > 0,
        builds(last_action(spec_rust_entry(options, signed_buffer).0, options, cfgs, events)),
    ensures
        events[0] == (BootEvent::ImageChecked { valid: true }),
{
    let start = spec_rust_entry(options, signed_buffer).0;
    if events[0] != (BootEvent::ImageChecked { valid: true }) {
        lemma_first_step_stops(options, signed_buffer, cfgs, events);
    }
}

/// After a first report other than a valid image, the loader is stopped.
proof fn lemma_first_step_stops(
    options: BootOptions,
    signed_buffer: u32,
    cfgs: Seq<BootView>,
    events: Seq<BootEvent>,
)
    requires
        options.secure_boot,
        cfgs.len() == events.len(),
        events.len() > 0,
        events[0] != (BootEvent::ImageChecked { valid: true }),
    ensures
        stage_after(spec_rust_entry(options, signed_buffer).0, options, cfgs, events)
            == BootStage::Halted,
        last_action(spec_rust_entry(options, signed_buffer).0, options, cfgs, events) is Halt,
    decreases events.len(),
{
    let start = spec_rust_entry(options, signed_buffer).0;
    if events.len() == 1 {
        assert(events.drop_last().len() == 0);
        assert(stage_after(start, options, cfgs.drop_last(), events.drop_last()) == start);
    } else {
        assert(events.drop_last()[0] == events[0]);
        lemma_first_step_stops(options, signed_buffer, cfgs.drop_last(), events.drop_last());
    }
}

/// An argument block that is refused stops the loader before any memory is
/// wiped and before any page table is built, and leaves the configuration
/// as it was.
pub proof fn lemma_refused_arguments_stop_the_boot(
    options: BootOptions,
    cfg: BootView,
    arg_buffer: u32,
    words: Vec<u32>,
)
    requires
        spec_read_initial_config(spec_fresh_config(arg_buffer, words@)) is Err,
    ensures
        ({
            let stage = BootStage::AwaitConfig { arg_buffer };
            let event = BootEvent::ArgumentsRead { words };
            &&& spec_boot_sequence(stage, options, cfg, event).0 == BootStage::Halted
            &&& spec_boot_sequence(stage, options, cfg, event).1 == (BootAction::Halt {
                reason: HaltReason::Arguments(
                    spec_read_initial_config(spec_fresh_config(arg_buffer, words@))->Err_0,
                ),
            })
            &&& spec_config_after(stage, cfg, event) == cfg
        }),
{
}

/// A block of arguments that names no kernel description, or no initial
/// program, stops the loader: the answer to it is to halt, never to wipe
/// memory or to build page tables.
pub proof fn lemma_arguments_need_kernel_and_init(
    options: BootOptions,
    cfg: BootView,
    arg_buffer: u32,
    words: Vec<u32>,
)
    requires
        (forall|at: int| 0 <= at < words@.len() ==> words@[at] != TAG_XKRN) || (forall|at: int|
            0 <= at < words@.len() ==> words@[at] != TAG_INIE && words@[at] != TAG_INIF),
    ensures
        spec_boot_sequence(
            BootStage::AwaitConfig { arg_buffer },
            options,
            cfg,
            BootEvent::ArgumentsRead { words },
        ).1 is Halt,
{
    let fresh = spec_fresh_config(arg_buffer, words@);
    if spec_read_initial_config(fresh) is Ok {
        lemma_kernel_and_init_are_required(fresh);
    }
}

/// Page tables are built on wiped memory. Where the loader is built to
/// wipe, the only step that asks for page tables to be allocated is the
/// one that follows the report of the wipe, and the stage of waiting for
/// that report is entered only by asking for the wipe.
pub proof fn lemma_page_tables_follow_the_wipe(
    stage: BootStage,
    options: BootOptions,
    cfg: BootView,
    event: BootEvent,
)
    requires
        options.clear_ram,
    ensures
        spec_boot_sequence(stage, options, cfg, event).1 is Phase1 ==> stage is AwaitClear && event
            is RamCleared,
        spec_boot_sequence(stage, options, cfg, event).0 is AwaitClear ==> spec_boot_sequence(
            stage,
            options,
            cfg,
            event,
        ).1 is ClearRam,
        spec_boot_sequence(stage, options, cfg, event).1 is ClearRam ==> !(stage
            is AwaitMarkerWipe && stage->clean),
{
}

/// The kernel is entered after a cold start only from the end of the page
/// table construction, directly or through the check of what was loaded.
pub proof fn lemma_cold_entry_follows_construction(
    stage: BootStage,
    options: BootOptions,
    cfg: BootView,
    event: BootEvent,
)
    ensures
        ({
            let step = spec_boot_sequence(stage, options, cfg, event);
            step.1 is StartKernel && !step.1->clean ==> (stage is AwaitPhase2 && event is Phase2Done
                && !options.check_load) || (stage is AwaitLoadCheck && event is LoadChecked)
        }),
{
}

/// A resume needs a clean marker, and the marker is wiped before the
/// resume begins. The only step that prepares a resume is the one that
/// follows the wipe of a marker that was read as clean; a marker that is
/// not clean leads to a cold start.
pub proof fn lemma_resume_needs_a_clean_marker(
    options: BootOptions,
    cfg: BootView,
    marker: Vec<u32>,
    seed0: u32,
    seed1: u32,
)
    requires
        marker@.len() == WORDS_PER_PAGE,
    ensures
        ({
            let read = spec_boot_sequence(
                BootStage::AwaitMarker,
                options,
                cfg,
                BootEvent::MarkerRead { marker, seed0, seed1 },
            );
            let next = spec_boot_sequence(read.0, options, cfg, BootEvent::MarkerWiped);
            &&& read.1 is WipeMarker
            &&& next.1 is PrepareResume <==> marker_clean(marker@, seed0, seed1)
            &&& !marker_clean(marker@, seed0, seed1) ==> next == spec_cold_start(options)
        }),
        forall|stage: BootStage, event: BootEvent|
            (#[trigger] spec_boot_sequence(stage, options, cfg, event)).1 is PrepareResume ==> (
            stage is AwaitMarkerWipe && stage->clean && event is MarkerWiped),
{
}

/// No replay. A marker that was wiped is never resumed from: whatever
/// the seeds, the boot that reads it starts cold.
pub proof fn lemma_wiped_marker_starts_cold(
    options: BootOptions,
    cfg: BootView,
    marker: Vec<u32>,
    seed0: u32,
    seed1: u32,
)
    requires
        marker@ == wiped(),
    ensures
        ({
            let read = spec_boot_sequence(
                BootStage::AwaitMarker,
                options,
                cfg,
                BootEvent::MarkerRead { marker, seed0, seed1 },
            );
            let next = spec_boot_sequence(read.0, options, cfg, BootEvent::MarkerWiped);
            !(next.1 is PrepareResume)
        }),
{
    lemma_wiped_marker_is_not_clean(seed0, seed1);
}

/// A clean suspend is resumed without wiping memory and without building
/// page tables: the steps after the marker's wipe are the preparation of
/// the hardware and the entry into the kernel with the saved values.
pub proof fn lemma_resume_skips_the_wipe(
    options: BootOptions,
    cfg: BootView,
    was_forced_suspend: bool,
    pid: u32,
    cfg2: BootView,
    backup: [u32; 7],
)
    ensures
        ({
            let first = spec_boot_sequence(
                BootStage::AwaitMarkerWipe { clean: true, was_forced_suspend, pid },
                options,
                cfg,
                BootEvent::MarkerWiped,
            );
            let second = spec_boot_sequence(
                first.0,
                options,
                cfg2,
                BootEvent::BackupRead { backup },
            );
            &&& first.1 is PrepareResume
            &&& first.1->PrepareResume_was_forced_suspend == was_forced_suspend
            &&& second.1 is StartKernel
            &&& second.1->clean
            &&& !second.1->save_backup
            &&& second.0 is Entered
        }),
{
}

} // verus!

//! What holds of the dispatcher over more than one call.

use vstd::prelude::*;
use crate::trap::dispatch::{
    page_outcome,
    spec_classify,
    trap_outcome,
    PanicCause,
    Thread,
    TrapAction,
    TrapFrame,
    SYSCALL_INSTRUCTION_BYTES,
};
use crate::trap::irq::TrapState;
use crate::trap::syscall::{spec_decode, syscall_decodes};

verus! {

/// A system call whose arguments do not decode is answered with "unhandled
/// system call", and apart from the program counter moving past the call
/// instruction nothing changes: not the thread's registers, not the
/// dispatcher's state. Repeating the call gives the same answer again.
pub proof fn lemma_undecodable_syscall_is_refused(
    state: TrapState,
    thread: Thread,
    frame: TrapFrame,
    state1: TrapState,
    thread1: Thread,
    action1: TrapAction,
    state2: TrapState,
    thread2: Thread,
    action2: TrapAction,
)
    requires
        spec_classify(frame) is Syscall,
        !syscall_decodes(frame.args@),
        trap_outcome(state, thread, frame, state1, thread1, action1),
        trap_outcome(state1, thread1, frame, state2, thread2, action2),
    ensures
        action1 == TrapAction::ReturnUnhandledSyscall,
        action2 == TrapAction::ReturnUnhandledSyscall,
        state1 == state,
        state2 == state,
        thread1.registers == thread.registers,
        thread2.registers == thread.registers,
        thread1.sepc == thread.sepc + SYSCALL_INSTRUCTION_BYTES,
        thread2.sepc == thread.sepc + 2 * SYSCALL_INSTRUCTION_BYTES,
{
}

/// The system call handler gets the request that the trap's argument words
/// decode to, for the process and thread that trapped, and is told
/// whether an interrupt service routine is running.
pub proof fn lemma_handler_gets_the_decoded_request(
    state: TrapState,
    thread: Thread,
    frame: TrapFrame,
    state1: TrapState,
    thread1: Thread,
    action: TrapAction,
)
    requires
        spec_classify(frame) is Syscall,
        syscall_decodes(frame.args@),
        trap_outcome(state, thread, frame, state1, thread1, action),
    ensures
        action == (TrapAction::HandleSyscall {
            pid: frame.pid,
            tid: frame.tid,
            in_irq: state.previous_pair.is_some(),
            call: spec_decode(frame.args@)->Some_0,
        }),
        state1 == state,
        thread1.registers == thread.registers,
        thread1.sepc == thread.sepc + SYSCALL_INSTRUCTION_BYTES,
{
}

/// A fault on a page that then gets backed ends in a plain resume of the
/// thread exactly as it trapped, so the faulting instruction runs again;
/// the fault reaches neither a handler nor the fatal path.
pub proof fn lemma_backed_page_fault_retries(
    state: TrapState,
    thread: Thread,
    frame: TrapFrame,
    state1: TrapState,
    thread1: Thread,
    action: TrapAction,
    next: TrapAction,
)
    requires
        spec_classify(frame) is DemandPage,
        trap_outcome(state, thread, frame, state1, thread1, action),
        action is EnsurePage,
        page_outcome(action->EnsurePage_fault, true, next),
    ensures
        action->EnsurePage_addr == frame.tval,
        state1 == state,
        thread1 == thread,
        next == (TrapAction::Resume { reset_switchto_caller: false }),
{
}

/// A trap that is no interrupt never records a return pair: where none is
/// recorded before it, none is recorded after it.
pub proof fn lemma_only_interrupts_record_a_pair(
    state: TrapState,
    thread: Thread,
    frame: TrapFrame,
    state1: TrapState,
    thread1: Thread,
    action: TrapAction,
)
    requires
        !(spec_classify(frame) is Interrupt),
        state.previous_pair.is_none(),
        trap_outcome(state, thread, frame, state1, thread1, action),
    ensures
        state1.previous_pair.is_none(),
{
}

/// An interrupt that arrives while a pair is recorded leaves the record as
/// it is: at most one pair is outstanding.
pub proof fn lemma_nested_interrupt_keeps_the_pair(
    state: TrapState,
    thread: Thread,
    frame: TrapFrame,
    state1: TrapState,
    thread1: Thread,
    action: TrapAction,
)
    requires
        spec_classify(frame) is Interrupt,
        state.previous_pair.is_some(),
        trap_outcome(state, thread, frame, state1, thread1, action),
    ensures
        state1.previous_pair == state.previous_pair,
{
}

/// The recorded pair is handed out once. After a return from an interrupt
/// service routine was processed, and through any traps after it that are
/// no interrupts, the next return from an interrupt service routine is
/// refused with a panic; no stale pair is handed out.
pub proof fn lemma_isr_pair_is_taken_once(
    states: Seq<TrapState>,
    threads: Seq<Thread>,
    frames: Seq<TrapFrame>,
    actions: Seq<TrapAction>,
)
    requires
        frames.len() >= 2,
        states.len() == frames.len() + 1,
        threads.len() == frames.len() + 1,
        actions.len() == frames.len(),
        forall|i: int|
            0 <= i < frames.len() ==> trap_outcome(
                states[i],
                threads[i],
                #[trigger] frames[i],
                states[i + 1],
                threads[i + 1],
                actions[i],
            ),
        spec_classify(frames[0]) is ReturnFromIsr,
        forall|i: int| 0 < i < frames.len() - 1 ==> !(spec_classify(#[trigger] frames[i]) is Interrupt),
        spec_classify(frames.last()) is ReturnFromIsr,
    ensures
        actions.last() == TrapAction::Panic(PanicCause::NoPreviousPair),
{
    let n = frames.len() as int;
    assert(trap_outcome(states[0], threads[0], frames[0], states[1], threads[1], actions[0]));
    lemma_no_pair_up_to(states, threads, frames, actions, n - 1);
    assert(trap_outcome(
        states[n - 1],
        threads[n - 1],
        frames[n - 1],
        states[n],
        threads[n],
        actions[n - 1],
    ));
}

proof fn lemma_no_pair_up_to(
    states: Seq<TrapState>,
    threads: Seq<Thread>,
    frames: Seq<TrapFrame>,
    actions: Seq<TrapAction>,
    k: int,
)
    requires
        1 <= k < frames.len(),
        states.len() == frames.len() + 1,
        threads.len() == frames.len() + 1,
        actions.len() == frames.len(),
        forall|i: int|
            0 <= i < frames.len() ==> trap_outcome(
                states[i],
                threads[i],
                #[trigger] frames[i],
                states[i + 1],
                threads[i + 1],
                actions[i],
            ),
        spec_classify(frames[0]) is ReturnFromIsr,
        forall|i: int| 0 < i < frames.len() - 1 ==> !(spec_classify(#[trigger] frames[i]) is Interrupt),
    ensures
        states[k].previous_pair.is_none(),
    decreases k,
{
    if k == 1 {
        assert(trap_outcome(states[0], threads[0], frames[0], states[1], threads[1], actions[0]));
    } else {
        lemma_no_pair_up_to(states, threads, frames, actions, k - 1);
        assert(!(spec_classify(frames[k - 1]) is Interrupt));
        assert(trap_outcome(
            states[k - 1],
            threads[k - 1],
            frames[k - 1],
            states[k],
            threads[k],
            actions[k - 1],
        ));
    }
}

} // verus!

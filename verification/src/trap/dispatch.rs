//! The trap dispatcher: what the kernel does on a system call, an exception
//! or an interrupt.
//!
//! The dispatcher decides; its caller acts. `trap_handler` looks at the
//! registers of one trap and returns the action to perform. Where the next
//! decision depends on how an action went, the caller reports back through
//! the function that the action names.

use vstd::prelude::*;
use xous::SysCall;
use crate::trap::exception::{
    generate_exception_args,
    spec_exception_args,
    spec_from_regs,
    spec_is_exception,
    RiscvException,
    INTERRUPT_BASE,
};
use crate::trap::irq::{Pid, Tid, TrapState};
use crate::trap::syscall::{decode, spec_decode};

verus! {

/// Program counter that a finished interrupt service routine returns to.
pub const RETURN_FROM_ISR: usize = 0xff80_2000;

/// Program counter that a finished thread returns to.
pub const EXIT_THREAD: usize = 0xff80_3000;

/// Program counter that a finished userspace exception handler returns to.
pub const RETURN_FROM_EXCEPTION_HANDLER: usize = 0xff80_4000;

/// The thread of each process that runs its exception handler.
pub const EXCEPTION_TID: Tid = 1;

/// Cause of an environment call from user mode.
pub const CAUSE_CALL_FROM_USER: usize = 8;

/// Cause of an environment call from supervisor mode.
pub const CAUSE_CALL_FROM_SUPERVISOR: usize = 9;

/// Cause of a store page fault.
pub const CAUSE_STORE_PAGE_FAULT: usize = 15;

/// Width of the environment call instruction in bytes.
pub const SYSCALL_INSTRUCTION_BYTES: usize = 4;

/// Saved register state of one thread.
#[derive(Clone, Copy, Debug, PartialEq, Eq)]
pub struct Thread {
    /// General purpose registers x1 to x31.
    pub registers: [usize; 31],
    /// Program counter at which the thread resumes.
    pub sepc: usize,
}

/// What the hardware and the scheduler report at trap entry.
#[derive(Clone, Copy, Debug, PartialEq, Eq)]
pub struct TrapFrame {
    /// Argument registers a0 to a7.
    pub args: [usize; 8],
    /// Trap cause register.
    pub cause: usize,
    /// Program counter of the trapping instruction.
    pub epc: usize,
    /// Trap value register: the faulting address or instruction word.
    pub tval: usize,
    /// True when the trap was taken from supervisor mode.
    pub supervisor: bool,
    /// The process that was running.
    pub pid: Pid,
    /// Its thread that was running.
    pub tid: Tid,
    /// Pending interrupt lines.
    pub irqs_pending: usize,
}

/// A fault together with who caused it.
#[derive(Clone, Copy, Debug, PartialEq, Eq, Structural)]
pub struct Fault {
    pub exception: RiscvException,
    pub pid: Pid,
    /// True when the fault happened in supervisor mode.
    pub supervisor: bool,
}

/// Entry point and stack of a registered userspace exception handler.
#[derive(Clone, Copy, Debug, PartialEq, Eq, Structural)]
pub struct ExceptionHandler {
    pub pc: usize,
    pub sp: usize,
}

/// The classes of trap.
#[derive(Clone, Copy, Debug, PartialEq, Eq, Structural)]
pub enum TrapKind {
    /// A store page fault in supervisor mode: the kernel stack is exhausted.
    KernelStackFault(RiscvException),
    /// An environment call.
    Syscall,
    /// A load or store to a page that may be backed on demand.
    DemandPage { exception: RiscvException, addr: usize },
    /// A userspace exception handler has returned.
    ReturnFromExceptionHandler,
    /// A thread has run to its end.
    ThreadExit,
    /// An interrupt service routine has returned.
    ReturnFromIsr,
    /// Any other exception.
    Exception(RiscvException),
    /// A hardware interrupt.
    Interrupt,
}

/// Conditions under which the dispatcher gives up.
#[derive(Clone, Copy, Debug, PartialEq, Eq, Structural)]
pub enum PanicCause {
    /// The kernel faulted on its own stack.
    KernelStack(RiscvException),
    /// An interrupt service routine returned though none was recorded.
    NoPreviousPair,
}

/// What the caller of the dispatcher has to do next.
#[derive(Debug, PartialEq)]
pub enum TrapAction {
    /// Report the cause and stop.
    Panic(PanicCause),
    /// Run the system call handler on `call`, the request that the
    /// argument words decode to, then report its response to
    /// `syscall_handled`. `in_irq` tells the handler whether an interrupt
    /// service routine is running.
    HandleSyscall { pid: Pid, tid: Tid, in_irq: bool, call: SysCall },
    /// Return the error "unhandled system call" to the current thread: its
    /// argument words hold no request.
    ReturnUnhandledSyscall,
    /// Write the handler's response into the current thread's registers and
    /// return to it.
    ReturnResponse,
    /// Resume the thread that is now current. With `reset_switchto_caller`,
    /// forget who last switched to it first.
    Resume { reset_switchto_caller: bool },
    /// Back `addr` with a page, then report to `page_ensured`.
    EnsurePage { addr: usize, fault: Fault },
    /// Let the process leave its exception handler, then report to
    /// `exception_handler_finished` with `pc_adjust`.
    FinishExceptionHandler { pid: Pid, pc_adjust: usize },
    /// Destroy the thread, then report to `thread_destroyed`.
    DestroyThread { pid: Pid, tid: Tid },
    /// Switch back to the interrupted process and thread, write `irq_mask`
    /// to the interrupt mask register and resume.
    ReturnFromIsr { pid: Pid, tid: Tid, irq_mask: usize },
    /// Look up the exception handler of the faulting process, then report
    /// to `exception_handler_found`.
    BeginExceptionHandler { fault: Fault, args: [usize; 3] },
    /// Set thread `tid` up to run at `pc` on stack `sp` with `args`,
    /// returning to `return_address`, and resume it.
    InvokeHandler { tid: Tid, pc: usize, sp: usize, return_address: usize, args: [usize; 3] },
    /// Report the fault and halt for good.
    Halt { fault: Fault },
    /// Report the fault, terminate the process, forget who last switched to
    /// it, and resume whoever is current then.
    TerminateProcess { fault: Fault },
    /// Hand the pending lines to the interrupt handlers and resume whoever
    /// is current then.
    HandleIrqs { pending: usize },
}

/// The class of the trap that `frame` describes.
pub open spec fn spec_classify(frame: TrapFrame) -> TrapKind {
    let exception = spec_from_regs(frame.cause, frame.epc, frame.tval);
    if frame.supervisor && frame.cause == CAUSE_STORE_PAGE_FAULT {
        TrapKind::KernelStackFault(exception)
    } else if frame.cause == CAUSE_CALL_FROM_SUPERVISOR || frame.cause == CAUSE_CALL_FROM_USER {
        TrapKind::Syscall
    } else if !spec_is_exception(frame.cause) {
        TrapKind::Interrupt
    } else {
        match exception {
            RiscvException::StorePageFault(_, addr) => TrapKind::DemandPage { exception, addr },
            RiscvException::LoadPageFault(_, addr) => TrapKind::DemandPage { exception, addr },
            RiscvException::InstructionPageFault(pc, _) => if pc == RETURN_FROM_EXCEPTION_HANDLER {
                TrapKind::ReturnFromExceptionHandler
            } else if pc == EXIT_THREAD {
                TrapKind::ThreadExit
            } else if pc == RETURN_FROM_ISR {
                TrapKind::ReturnFromIsr
            } else {
                TrapKind::Exception(exception)
            },
            _ => TrapKind::Exception(exception),
        }
    }
}

/// Classifies a trap. The marker addresses are compared here and nowhere
/// else.
pub fn classify(frame: &TrapFrame) -> (kind: TrapKind)
    ensures
        kind == spec_classify(*frame),
{
    let exception = RiscvException::from_regs(frame.cause, frame.epc, frame.tval);
    if frame.supervisor && frame.cause == CAUSE_STORE_PAGE_FAULT {
        return TrapKind::KernelStackFault(exception);
    }
    if frame.cause == CAUSE_CALL_FROM_SUPERVISOR || frame.cause == CAUSE_CALL_FROM_USER {
        return TrapKind::Syscall;
    }
    if frame.cause >= INTERRUPT_BASE {
        return TrapKind::Interrupt;
    }
    match exception {
        RiscvException::StorePageFault(_, addr) => TrapKind::DemandPage { exception, addr },
        RiscvException::LoadPageFault(_, addr) => TrapKind::DemandPage { exception, addr },
        RiscvException::InstructionPageFault(pc, _) => {
            if pc == RETURN_FROM_EXCEPTION_HANDLER {
                TrapKind::ReturnFromExceptionHandler
            } else if pc == EXIT_THREAD {
                TrapKind::ThreadExit
            } else if pc == RETURN_FROM_ISR {
                TrapKind::ReturnFromIsr
            } else {
                TrapKind::Exception(exception)
            }
        },
        _ => TrapKind::Exception(exception),
    }
}

/// End of the line for a fault that nobody handles: the whole system halts
/// when the kernel faulted, the process is terminated otherwise.
pub open spec fn spec_fatal(fault: Fault) -> TrapAction {
    if fault.supervisor {
        TrapAction::Halt { fault }
    } else {
        TrapAction::TerminateProcess { fault }
    }
}

/// First step for an exception that the dispatcher does not resolve itself.
pub open spec fn spec_unhandled(fault: Fault, action: TrapAction) -> bool {
    match spec_exception_args(fault.exception) {
        Some(words) => action matches TrapAction::BeginExceptionHandler { fault: f, args }
            && f == fault && args@ == words,
        None => action == spec_fatal(fault),
    }
}

/// The signed value of a register word in two's complement.
pub open spec fn signed_delta(word: usize) -> int {
    if word <= usize::MAX / 2 {
        word as int
    } else {
        word as int - (usize::MAX as int + 1)
    }
}

/// What `trap_handler` owes for each class of trap: the action, and what
/// becomes of the dispatcher's state and of the current thread.
pub open spec fn trap_outcome(
    before: TrapState,
    thread_before: Thread,
    frame: TrapFrame,
    after: TrapState,
    thread_after: Thread,
    action: TrapAction,
) -> bool {
    &&& after.sim_backing == before.sim_backing
    &&& thread_after.registers == thread_before.registers
    &&& match spec_classify(frame) {
        TrapKind::KernelStackFault(exception) => {
            &&& action == TrapAction::Panic(PanicCause::KernelStack(exception))
            &&& after == before
            &&& thread_after == thread_before
        },
        TrapKind::Syscall => {
            &&& after == before
            &&& thread_after.sepc == thread_before.sepc + SYSCALL_INSTRUCTION_BYTES
            &&& action == match spec_decode(frame.args@) {
                Some(call) => TrapAction::HandleSyscall {
                    pid: frame.pid,
                    tid: frame.tid,
                    in_irq: before.previous_pair.is_some(),
                    call,
                },
                None => TrapAction::ReturnUnhandledSyscall,
            }
        },
        TrapKind::DemandPage { exception, addr } => {
            &&& action == TrapAction::EnsurePage {
                addr,
                fault: Fault { exception, pid: frame.pid, supervisor: frame.supervisor },
            }
            &&& after == before
            &&& thread_after == thread_before
        },
        TrapKind::ReturnFromExceptionHandler => {
            &&& action == TrapAction::FinishExceptionHandler {
                pid: frame.pid,
                pc_adjust: frame.args[0],
            }
            &&& after == before
            &&& thread_after == thread_before
        },
        TrapKind::ThreadExit => {
            &&& action == TrapAction::DestroyThread { pid: frame.pid, tid: frame.tid }
            &&& after == before
            &&& thread_after == thread_before
        },
        TrapKind::ReturnFromIsr => {
            &&& after.previous_pair.is_none()
            &&& thread_after == thread_before
            &&& match before.previous_pair {
                Some((pid, tid)) => action == TrapAction::ReturnFromIsr {
                    pid,
                    tid,
                    irq_mask: before.sim_backing,
                },
                None => action == TrapAction::Panic(PanicCause::NoPreviousPair),
            }
        },
        TrapKind::Exception(exception) => {
            &&& spec_unhandled(
                Fault { exception, pid: frame.pid, supervisor: frame.supervisor },
                action,
            )
            &&& after == before
            &&& thread_after == thread_before
        },
        TrapKind::Interrupt => {
            &&& action == TrapAction::HandleIrqs { pending: frame.irqs_pending }
            &&& after.previous_pair == match before.previous_pair {
                Some(pair) => Some(pair),
                None => Some((frame.pid, frame.tid)),
            }
            &&& thread_after == thread_before
        },
    }
}

/// What `trap_handler` asks of its caller: on a system call the program
/// counter can be advanced past the call instruction.
pub open spec fn trap_ready(thread: Thread, frame: TrapFrame) -> bool {
    spec_classify(frame) is Syscall ==> thread.sepc + SYSCALL_INSTRUCTION_BYTES <= usize::MAX
}

/// Whether `trap_handler` can be called on this thread and frame.
pub fn can_dispatch(thread: &Thread, frame: &TrapFrame) -> (ready: bool)
    ensures
        ready == trap_ready(*thread, *frame),
{
    match classify(frame) {
        TrapKind::Syscall => {
            thread.sepc <= usize::MAX - SYSCALL_INSTRUCTION_BYTES
        },
        _ => true,
    }
}

fn fatal(fault: Fault) -> (action: TrapAction)
    ensures
        action == spec_fatal(fault),
{
    if fault.supervisor {
        TrapAction::Halt { fault }
    } else {
        TrapAction::TerminateProcess { fault }
    }
}

fn unhandled(fault: Fault) -> (action: TrapAction)
    ensures
        spec_unhandled(fault, action),
{
    match generate_exception_args(&fault.exception) {
        Some(args) => TrapAction::BeginExceptionHandler { fault, args },
        None => fatal(fault),
    }
}

/// Entry point of every trap. `thread` is the saved state of the thread
/// that trapped; `state` is what the dispatcher keeps between traps.
///
/// On a system call the saved program counter moves past the call
/// instruction before anything else happens, and nothing else of the thread
/// changes. Every other class leaves the thread as it is.
pub fn trap_handler(state: &mut TrapState, thread: &mut Thread, frame: &TrapFrame) -> (action:
    TrapAction)
    requires
        trap_ready(*old(thread), *frame),
    ensures
        trap_outcome(*old(state), *old(thread), *frame, *final(state), *final(thread), action),
{
    match classify(frame) {
        TrapKind::KernelStackFault(exception) => TrapAction::Panic(
            PanicCause::KernelStack(exception),
        ),
        TrapKind::Syscall => {
            thread.sepc = thread.sepc + SYSCALL_INSTRUCTION_BYTES;
            match decode(&frame.args) {
                Some(call) => TrapAction::HandleSyscall {
                    pid: frame.pid,
                    tid: frame.tid,
                    in_irq: state.previous_pair.is_some(),
                    call,
                },
                None => TrapAction::ReturnUnhandledSyscall,
            }
        },
        TrapKind::DemandPage { exception, addr } => TrapAction::EnsurePage {
            addr,
            fault: Fault { exception, pid: frame.pid, supervisor: frame.supervisor },
        },
        TrapKind::ReturnFromExceptionHandler => TrapAction::FinishExceptionHandler {
            pid: frame.pid,
            pc_adjust: frame.args[0],
        },
        TrapKind::ThreadExit => TrapAction::DestroyThread { pid: frame.pid, tid: frame.tid },
        TrapKind::ReturnFromIsr => {
            match state.previous_pair {
                Some((pid, tid)) => {
                    state.previous_pair = None;
                    TrapAction::ReturnFromIsr { pid, tid, irq_mask: state.sim_backing }
                },
                None => TrapAction::Panic(PanicCause::NoPreviousPair),
            }
        },
        TrapKind::Exception(exception) => unhandled(
            Fault { exception, pid: frame.pid, supervisor: frame.supervisor },
        ),
        TrapKind::Interrupt => {
            if state.previous_pair.is_none() {
                state.previous_pair = Some((frame.pid, frame.tid));
            }
            TrapAction::HandleIrqs { pending: frame.irqs_pending }
        },
    }
}

/// After the system call handler ran: a response that says "resume the
/// process" resumes the thread that is now current; any other response is
/// returned to the caller of the system call.
pub fn syscall_handled(resume_process: bool) -> (action: TrapAction)
    ensures
        action == (if resume_process {
            TrapAction::Resume { reset_switchto_caller: false }
        } else {
            TrapAction::ReturnResponse
        }),
{
    if resume_process {
        TrapAction::Resume { reset_switchto_caller: false }
    } else {
        TrapAction::ReturnResponse
    }
}

/// What `page_ensured` owes.
pub open spec fn page_outcome(fault: Fault, mapped: bool, action: TrapAction) -> bool {
    if mapped {
        action == (TrapAction::Resume { reset_switchto_caller: false })
    } else {
        spec_unhandled(fault, action)
    }
}

/// After the attempt to back a page: on success the thread resumes and runs
/// the faulting instruction again; on failure the fault is treated like any
/// other exception.
pub fn page_ensured(fault: Fault, mapped: bool) -> (action: TrapAction)
    ensures
        page_outcome(fault, mapped, action),
{
    if mapped {
        TrapAction::Resume { reset_switchto_caller: false }
    } else {
        unhandled(fault)
    }
}

/// After the look-up of the faulting process's exception handler: a
/// registered handler is invoked on the exception thread with the marker
/// address as its return address; without one the fault is fatal.
pub fn exception_handler_found(
    fault: Fault,
    args: [usize; 3],
    handler: Option<ExceptionHandler>,
) -> (action: TrapAction)
    ensures
        action == (match handler {
            Some(h) => TrapAction::InvokeHandler {
                tid: EXCEPTION_TID,
                pc: h.pc,
                sp: h.sp,
                return_address: RETURN_FROM_EXCEPTION_HANDLER,
                args,
            },
            None => spec_fatal(fault),
        }),
{
    match handler {
        Some(h) => TrapAction::InvokeHandler {
            tid: EXCEPTION_TID,
            pc: h.pc,
            sp: h.sp,
            return_address: RETURN_FROM_EXCEPTION_HANDLER,
            args,
        },
        None => fatal(fault),
    }
}

/// Whether a program counter can be moved by the signed amount in
/// `pc_adjust` without leaving the address space.
pub fn signed_delta_fits(sepc: usize, pc_adjust: usize) -> (fits: bool)
    ensures
        fits == (0 <= sepc + signed_delta(pc_adjust) <= usize::MAX),
{
    if pc_adjust <= usize::MAX / 2 {
        sepc <= usize::MAX - pc_adjust
    } else {
        sepc >= usize::MAX - pc_adjust + 1
    }
}

/// After the process left its exception handler: moves the program counter
/// of the thread that is current again by the signed amount that the
/// handler returned, and resumes it.
pub fn exception_handler_finished(thread: &mut Thread, pc_adjust: usize) -> (action: TrapAction)
    requires
        0 <= old(thread).sepc + signed_delta(pc_adjust) <= usize::MAX,
    ensures
        action == (TrapAction::Resume { reset_switchto_caller: false }),
        final(thread).sepc == old(thread).sepc + signed_delta(pc_adjust),
        final(thread).registers == old(thread).registers,
{
    if pc_adjust <= usize::MAX / 2 {
        thread.sepc = thread.sepc + pc_adjust;
    } else {
        let back: usize = usize::MAX - pc_adjust + 1;
        thread.sepc = thread.sepc - back;
    }
    TrapAction::Resume { reset_switchto_caller: false }
}

/// After a thread was destroyed: if another thread had to be picked, the
/// record of who last switched to the process is stale and is reset.
pub fn thread_destroyed(switched: bool) -> (action: TrapAction)
    ensures
        action == (TrapAction::Resume { reset_switchto_caller: switched }),
{
    TrapAction::Resume { reset_switchto_caller: switched }
}

} // verus!

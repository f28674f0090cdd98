//! The interrupt mask and the pair of process and thread that an interrupt
//! service routine returns to.
//!
//! The mask register itself is read and written by the caller; the functions
//! here say which value goes into it.

use vstd::prelude::*;

verus! {

/// Process identifier. Zero names no process.
pub type Pid = u8;

/// Thread identifier within a process.
pub type Tid = usize;

/// Opaque declaration of the system call interface's error type.
#[verifier::external_type_specification]
#[verifier::external_body]
pub struct ExXousError(xous::Error);

/// State that the trap dispatcher keeps from one trap to the next. It lives
/// in memory that a suspend keeps and that start-up does not zero.
pub struct TrapState {
    /// The interrupt mask as it was when interrupts were last disabled.
    pub sim_backing: usize,
    /// Who was running when the pending interrupt arrived.
    pub previous_pair: Option<(Pid, Tid)>,
}

/// Mask with only the bit of line `irq_no` set.
pub open spec fn irq_bit(irq_no: usize) -> usize {
    1usize << irq_no
}

impl TrapState {
    /// State at power-on: no saved mask, no interrupt pending.
    pub fn new() -> (state: TrapState)
        ensures
            state.sim_backing == 0,
            state.previous_pair.is_none(),
    {
        TrapState { sim_backing: 0, previous_pair: None }
    }
}

/// Disables external interrupts: remembers the current `mask` and returns the
/// value to write to the mask register, which is zero.
pub fn disable_all_irqs(state: &mut TrapState, mask: usize) -> (new_mask: usize)
    ensures
        new_mask == 0,
        final(state).sim_backing == mask,
        final(state).previous_pair == old(state).previous_pair,
{
    state.sim_backing = mask;
    0
}

/// Enables external interrupts again: returns the mask that
/// `disable_all_irqs` remembered, to be written to the mask register.
pub fn enable_all_irqs(state: &TrapState) -> (new_mask: usize)
    ensures
        new_mask == state.sim_backing,
{
    state.sim_backing
}

/// Mask register after line `irq_no` was enabled. A set bit unmasks its line.
pub fn enable_irq(mask: usize, irq_no: usize) -> (new_mask: usize)
    requires
        irq_no < usize::BITS,
    ensures
        new_mask == mask | irq_bit(irq_no),
{
    mask | (1usize << irq_no)
}

/// Mask register after line `irq_no` was disabled. Never fails.
pub fn disable_irq(mask: usize, irq_no: usize) -> (result: Result<usize, xous::Error>)
    requires
        irq_no < usize::BITS,
    ensures
        result matches Ok(new_mask) && new_mask == mask & !irq_bit(irq_no),
{
    Ok(mask & !(1usize << irq_no))
}

/// Records the process and thread to return to when the interrupt service
/// routine finishes, replacing any earlier record.
pub fn set_isr_return_pair(state: &mut TrapState, pid: Pid, tid: Tid)
    ensures
        final(state).previous_pair == Some((pid, tid)),
        final(state).sim_backing == old(state).sim_backing,
{
    state.previous_pair = Some((pid, tid));
}

/// Hands out the recorded pair and clears the record: a second call without
/// a new record returns `None`.
pub fn take_isr_return_pair(state: &mut TrapState) -> (pair: Option<(Pid, Tid)>)
    ensures
        pair == old(state).previous_pair,
        final(state).previous_pair.is_none(),
        final(state).sim_backing == old(state).sim_backing,
{
    let pair = state.previous_pair;
    state.previous_pair = None;
    pair
}

} // verus!

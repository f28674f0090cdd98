//! CPU exceptions as the trap registers report them.

use vstd::prelude::*;

verus! {

/// Lowest cause value that denotes an interrupt: the top bit of a 32-bit
/// cause register.
pub const INTERRUPT_BASE: usize = 0x8000_0000;

/// What the cause, exception program counter and trap value registers
/// describe. Interrupts carry the interrupted program counter, faults the
/// faulting program counter and the address or instruction word at fault.
#[derive(Clone, Copy, Debug, PartialEq, Eq, Structural)]
pub enum RiscvException {
    NoException,
    UserSoftwareInterrupt(usize),
    SupervisorSoftwareInterrupt(usize),
    MachineSoftwareInterrupt(usize),
    UserTimerInterrupt(usize),
    SupervisorTimerInterrupt(usize),
    MachineTimerInterrupt(usize),
    UserExternalInterrupt(usize),
    SupervisorExternalInterrupt(usize),
    MachineExternalInterrupt(usize),
    ReservedInterrupt(usize, usize),
    InstructionAddressMisaligned(usize, usize),
    InstructionAccessFault(usize, usize),
    IllegalInstruction(usize, usize),
    Breakpoint(usize),
    LoadAddressMisaligned(usize, usize),
    LoadAccessFault(usize, usize),
    StoreAddressMisaligned(usize, usize),
    StoreAccessFault(usize, usize),
    CallFromUMode(usize, usize),
    CallFromSMode(usize, usize),
    CallFromMMode(usize, usize),
    InstructionPageFault(usize, usize),
    LoadPageFault(usize, usize),
    StorePageFault(usize, usize),
    ReservedFault(usize, usize, usize),
}

/// The kinds of exception that a userspace handler can be told about.
#[derive(Clone, Copy, Debug, PartialEq, Eq, Structural)]
pub enum ExceptionKind {
    InstructionAddressMisaligned,
    InstructionAccessFault,
    IllegalInstruction,
    LoadAddressMisaligned,
    LoadAccessFault,
    StoreAddressMisaligned,
    StoreAccessFault,
    InstructionPageFault,
    LoadPageFault,
    StorePageFault,
}

/// True when `cause` denotes a synchronous exception, not an interrupt.
pub open spec fn spec_is_exception(cause: usize) -> bool {
    cause < INTERRUPT_BASE
}

/// The exception that the three trap registers describe.
pub open spec fn spec_from_regs(cause: usize, epc: usize, tval: usize) -> RiscvException {
    if epc == 0 && tval == 0 && cause == 0 {
        RiscvException::NoException
    } else if cause >= INTERRUPT_BASE {
        let code = cause - INTERRUPT_BASE;
        if code == 0 {
            RiscvException::UserSoftwareInterrupt(epc)
        } else if code == 1 {
            RiscvException::SupervisorSoftwareInterrupt(epc)
        } else if code == 3 {
            RiscvException::MachineSoftwareInterrupt(epc)
        } else if code == 4 {
            RiscvException::UserTimerInterrupt(epc)
        } else if code == 5 {
            RiscvException::SupervisorTimerInterrupt(epc)
        } else if code == 7 {
            RiscvException::MachineTimerInterrupt(epc)
        } else if code == 8 {
            RiscvException::UserExternalInterrupt(epc)
        } else if code == 9 {
            RiscvException::SupervisorExternalInterrupt(epc)
        } else if code == 11 {
            RiscvException::MachineExternalInterrupt(epc)
        } else {
            RiscvException::ReservedInterrupt(code as usize, epc)
        }
    } else if cause == 0 {
        RiscvException::InstructionAddressMisaligned(epc, tval)
    } else if cause == 1 {
        RiscvException::InstructionAccessFault(epc, tval)
    } else if cause == 2 {
        RiscvException::IllegalInstruction(epc, tval)
    } else if cause == 3 {
        RiscvException::Breakpoint(epc)
    } else if cause == 4 {
        RiscvException::LoadAddressMisaligned(epc, tval)
    } else if cause == 5 {
        RiscvException::LoadAccessFault(epc, tval)
    } else if cause == 6 {
        RiscvException::StoreAddressMisaligned(epc, tval)
    } else if cause == 7 {
        RiscvException::StoreAccessFault(epc, tval)
    } else if cause == 8 {
        RiscvException::CallFromUMode(epc, tval)
    } else if cause == 9 {
        RiscvException::CallFromSMode(epc, tval)
    } else if cause == 11 {
        RiscvException::CallFromMMode(epc, tval)
    } else if cause == 12 {
        RiscvException::InstructionPageFault(epc, tval)
    } else if cause == 13 {
        RiscvException::LoadPageFault(epc, tval)
    } else if cause == 15 {
        RiscvException::StorePageFault(epc, tval)
    } else {
        RiscvException::ReservedFault(cause, epc, tval)
    }
}

impl RiscvException {
    /// Decodes the cause, exception program counter and trap value
    /// registers.
    pub fn from_regs(cause: usize, epc: usize, tval: usize) -> (ex: RiscvException)
        ensures
            ex == spec_from_regs(cause, epc, tval),
    {
        if epc == 0 && tval == 0 && cause == 0 {
            return RiscvException::NoException;
        }
        if cause >= INTERRUPT_BASE {
            let code: usize = cause - INTERRUPT_BASE;
            return match code {
                0 => RiscvException::UserSoftwareInterrupt(epc),
                1 => RiscvException::SupervisorSoftwareInterrupt(epc),
                3 => RiscvException::MachineSoftwareInterrupt(epc),
                4 => RiscvException::UserTimerInterrupt(epc),
                5 => RiscvException::SupervisorTimerInterrupt(epc),
                7 => RiscvException::MachineTimerInterrupt(epc),
                8 => RiscvException::UserExternalInterrupt(epc),
                9 => RiscvException::SupervisorExternalInterrupt(epc),
                11 => RiscvException::MachineExternalInterrupt(epc),
                _ => RiscvException::ReservedInterrupt(code, epc),
            };
        }
        match cause {
            0 => RiscvException::InstructionAddressMisaligned(epc, tval),
            1 => RiscvException::InstructionAccessFault(epc, tval),
            2 => RiscvException::IllegalInstruction(epc, tval),
            3 => RiscvException::Breakpoint(epc),
            4 => RiscvException::LoadAddressMisaligned(epc, tval),
            5 => RiscvException::LoadAccessFault(epc, tval),
            6 => RiscvException::StoreAddressMisaligned(epc, tval),
            7 => RiscvException::StoreAccessFault(epc, tval),
            8 => RiscvException::CallFromUMode(epc, tval),
            9 => RiscvException::CallFromSMode(epc, tval),
            11 => RiscvException::CallFromMMode(epc, tval),
            12 => RiscvException::InstructionPageFault(epc, tval),
            13 => RiscvException::LoadPageFault(epc, tval),
            15 => RiscvException::StorePageFault(epc, tval),
            _ => RiscvException::ReservedFault(cause, epc, tval),
        }
    }

    /// The kind, program counter and address (or instruction word) of an
    /// exception that userspace can handle; `None` for every other value.
    pub open spec fn reportable(self) -> Option<(ExceptionKind, usize, usize)> {
        match self {
            RiscvException::InstructionAddressMisaligned(epc, addr) => Some(
                (ExceptionKind::InstructionAddressMisaligned, epc, addr),
            ),
            RiscvException::InstructionAccessFault(epc, addr) => Some(
                (ExceptionKind::InstructionAccessFault, epc, addr),
            ),
            RiscvException::IllegalInstruction(epc, instruction) => Some(
                (ExceptionKind::IllegalInstruction, epc, instruction),
            ),
            RiscvException::LoadAddressMisaligned(epc, addr) => Some(
                (ExceptionKind::LoadAddressMisaligned, epc, addr),
            ),
            RiscvException::LoadAccessFault(epc, addr) => Some(
                (ExceptionKind::LoadAccessFault, epc, addr),
            ),
            RiscvException::StoreAddressMisaligned(epc, addr) => Some(
                (ExceptionKind::StoreAddressMisaligned, epc, addr),
            ),
            RiscvException::StoreAccessFault(epc, addr) => Some(
                (ExceptionKind::StoreAccessFault, epc, addr),
            ),
            RiscvException::InstructionPageFault(epc, addr) => Some(
                (ExceptionKind::InstructionPageFault, epc, addr),
            ),
            RiscvException::LoadPageFault(epc, addr) => Some(
                (ExceptionKind::LoadPageFault, epc, addr),
            ),
            RiscvException::StorePageFault(epc, addr) => Some(
                (ExceptionKind::StorePageFault, epc, addr),
            ),
            _ => None,
        }
    }
}

/// The number by which the system call interface knows each kind of
/// exception.
pub open spec fn exception_code(kind: ExceptionKind) -> usize {
    match kind {
        ExceptionKind::InstructionAddressMisaligned => 0,
        ExceptionKind::InstructionAccessFault => 1,
        ExceptionKind::IllegalInstruction => 2,
        ExceptionKind::LoadAddressMisaligned => 3,
        ExceptionKind::LoadAccessFault => 4,
        ExceptionKind::StoreAddressMisaligned => 5,
        ExceptionKind::StoreAccessFault => 6,
        ExceptionKind::InstructionPageFault => 7,
        ExceptionKind::LoadPageFault => 8,
        ExceptionKind::StorePageFault => 9,
    }
}

/// Casts the variant of `xous::ExceptionType` that corresponds to `kind` to
/// `usize`. The contract claims the discriminants that the enum declares:
/// 0 to 9 in the order of its variants.
#[verifier::external_body]
fn exception_type_word(kind: ExceptionKind) -> (word: usize)
    ensures
        word == exception_code(kind),
{
    (match kind {
        ExceptionKind::InstructionAddressMisaligned => xous::ExceptionType::InstructionAddressMisaligned,
        ExceptionKind::InstructionAccessFault => xous::ExceptionType::InstructionAccessFault,
        ExceptionKind::IllegalInstruction => xous::ExceptionType::IllegalInstruction,
        ExceptionKind::LoadAddressMisaligned => xous::ExceptionType::LoadAddressMisaligned,
        ExceptionKind::LoadAccessFault => xous::ExceptionType::LoadAccessFault,
        ExceptionKind::StoreAddressMisaligned => xous::ExceptionType::StoreAddressMisaligned,
        ExceptionKind::StoreAccessFault => xous::ExceptionType::StoreAccessFault,
        ExceptionKind::InstructionPageFault => xous::ExceptionType::InstructionPageFault,
        ExceptionKind::LoadPageFault => xous::ExceptionType::LoadPageFault,
        ExceptionKind::StorePageFault => xous::ExceptionType::StorePageFault,
    }) as usize
}

/// The three words handed to a userspace exception handler.
pub open spec fn spec_exception_args(ex: RiscvException) -> Option<Seq<usize>> {
    match ex.reportable() {
        Some((kind, epc, addr)) => Some(seq![exception_code(kind), epc, addr]),
        None => None,
    }
}

/// Converts an exception into the argument list of a userspace exception
/// handler: the kind's number, the faulting program counter and the address
/// or instruction word. Exceptions that userspace cannot handle give `None`.
pub fn generate_exception_args(ex: &RiscvException) -> (args: Option<[usize; 3]>)
    ensures
        match args {
            Some(words) => spec_exception_args(*ex) == Some(words@),
            None => spec_exception_args(*ex).is_none(),
        },
{
    let (kind, epc, addr) = match *ex {
        RiscvException::InstructionAddressMisaligned(epc, addr) => (
            ExceptionKind::InstructionAddressMisaligned,
            epc,
            addr,
        ),
        RiscvException::InstructionAccessFault(epc, addr) => (
            ExceptionKind::InstructionAccessFault,
            epc,
            addr,
        ),
        RiscvException::IllegalInstruction(epc, instruction) => (
            ExceptionKind::IllegalInstruction,
            epc,
            instruction,
        ),
        RiscvException::LoadAddressMisaligned(epc, addr) => (
            ExceptionKind::LoadAddressMisaligned,
            epc,
            addr,
        ),
        RiscvException::LoadAccessFault(epc, addr) => (ExceptionKind::LoadAccessFault, epc, addr),
        RiscvException::StoreAddressMisaligned(epc, addr) => (
            ExceptionKind::StoreAddressMisaligned,
            epc,
            addr,
        ),
        RiscvException::StoreAccessFault(epc, addr) => (ExceptionKind::StoreAccessFault, epc, addr),
        RiscvException::InstructionPageFault(epc, addr) => (
            ExceptionKind::InstructionPageFault,
            epc,
            addr,
        ),
        RiscvException::LoadPageFault(epc, addr) => (ExceptionKind::LoadPageFault, epc, addr),
        RiscvException::StorePageFault(epc, addr) => (ExceptionKind::StorePageFault, epc, addr),
        _ => {
            return None;
        },
    };
    let words: [usize; 3] = [exception_type_word(kind), epc, addr];
    assert(words@ =~= seq![exception_code(kind), epc, addr]);
    Some(words)
}

} // verus!

//! The cause of a VM exit, decoded from the scause register.
use vstd::prelude::*;

verus! {

/// Exception code of an illegal instruction.
pub const EXC_ILLEGAL_INSTRUCTION: u64 = 2;

/// Exception code of an environment call from VS-mode (a hypervisor call).
pub const EXC_VIRTUAL_SUPERVISOR_ENV_CALL: u64 = 10;

/// Exception code of a guest-page fault on a load.
pub const EXC_LOAD_GUEST_PAGE_FAULT: u64 = 21;

/// Interrupt code of the supervisor timer interrupt.
pub const IRQ_SUPERVISOR_TIMER: u64 = 5;

/// Synchronous causes; those this core does not name keep their code.
#[derive(Clone, Copy, Debug, PartialEq, Eq, Structural)]
pub enum ExceptionKind {
    IllegalInstruction,
    VirtualSupervisorEnvCall,
    LoadGuestPageFault,
    Other(u64),
}

/// Asynchronous causes; those this core does not name keep their code.
#[derive(Clone, Copy, Debug, PartialEq, Eq, Structural)]
pub enum InterruptKind {
    SupervisorTimer,
    Other(u64),
}

/// Why control left the guest.
#[derive(Clone, Copy, Debug, PartialEq, Eq, Structural)]
pub enum TrapCause {
    Exception(ExceptionKind),
    Interrupt(InterruptKind),
}

pub open spec fn exception_of(code: u64) -> ExceptionKind {
    if code == EXC_ILLEGAL_INSTRUCTION {
        ExceptionKind::IllegalInstruction
    } else if code == EXC_VIRTUAL_SUPERVISOR_ENV_CALL {
        ExceptionKind::VirtualSupervisorEnvCall
    } else if code == EXC_LOAD_GUEST_PAGE_FAULT {
        ExceptionKind::LoadGuestPageFault
    } else {
        ExceptionKind::Other(code)
    }
}

pub open spec fn interrupt_of(code: u64) -> InterruptKind {
    if code == IRQ_SUPERVISOR_TIMER {
        InterruptKind::SupervisorTimer
    } else {
        InterruptKind::Other(code)
    }
}

/// The cause that an RV64 scause value records: bit 63 tells an interrupt
/// from an exception, the bits below hold the code.
pub open spec fn trap_cause_spec(scause: u64) -> TrapCause {
    let code = scause & 0x7fff_ffff_ffff_ffff;
    if scause >> 63u64 == 1 {
        TrapCause::Interrupt(interrupt_of(code))
    } else {
        TrapCause::Exception(exception_of(code))
    }
}

/// Relies on riscv's `Scause::from_bits` and `Scause::cause`: on RV64 the
/// interrupt flag is bit 63 and the code is bits 0..62.
#[verifier::external_body]
fn scause_fields(bits: u64) -> (r: (bool, u64))
    ensures
        r.0 == (bits >> 63u64 == 1),
        r.1 == bits & 0x7fff_ffff_ffff_ffff,
{
    match riscv::register::scause::Scause::from_bits(bits as usize).cause() {
        riscv::register::scause::Trap::Interrupt(c) => (true, c as u64),
        riscv::register::scause::Trap::Exception(c) => (false, c as u64),
    }
}

impl TrapCause {
    /// Decodes a raw scause value.
    pub fn from_scause(bits: u64) -> (r: TrapCause)
        ensures
            r == trap_cause_spec(bits),
    {
        let (is_interrupt, code) = scause_fields(bits);
        if is_interrupt {
            if code == IRQ_SUPERVISOR_TIMER {
                TrapCause::Interrupt(InterruptKind::SupervisorTimer)
            } else {
                TrapCause::Interrupt(InterruptKind::Other(code))
            }
        } else if code == EXC_ILLEGAL_INSTRUCTION {
            TrapCause::Exception(ExceptionKind::IllegalInstruction)
        } else if code == EXC_VIRTUAL_SUPERVISOR_ENV_CALL {
            TrapCause::Exception(ExceptionKind::VirtualSupervisorEnvCall)
        } else if code == EXC_LOAD_GUEST_PAGE_FAULT {
            TrapCause::Exception(ExceptionKind::LoadGuestPageFault)
        } else {
            TrapCause::Exception(ExceptionKind::Other(code))
        }
    }
}

} // verus!

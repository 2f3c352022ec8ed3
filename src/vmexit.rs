//! The VM-exit dispatcher: one decision per exit, and the run state that
//! decides whether the guest may be entered again.
use vstd::prelude::*;
use crate::context::VmCpuRegisters;
use crate::regs::GprIndex;
use crate::sbi::{decode_spec, DecodeFailure, SbiMessage};
use crate::trap::{ExceptionKind, InterruptKind, TrapCause};

verus! {

/// The one emulated instruction: `csrr a1, mhartid`, which the guest may not
/// execute itself.
pub const EMULATED_INSTRUCTION: u32 = 0xf140_25f3;

/// Identification value placed in a0 by the emulated instruction.
pub const EMULATED_A0: u64 = 0x6688;

/// Identification value placed in a1 by the emulated instruction.
pub const EMULATED_A1: u64 = 0x1234;

/// First reason value of a reset request that asks for a normal shutdown.
pub const SHUTDOWN_RESET_TYPE: u64 = 0x6688;

/// Second reason value of a reset request that asks for a normal shutdown.
pub const SHUTDOWN_REASON: u64 = 0x1234;

/// Width of every instruction the guest may trap on.
pub const INSTRUCTION_WIDTH: u64 = 4;

/// hvip.VSTIP: a timer interrupt is pending for the guest.
pub const HVIP_VSTIP: u64 = 1 << 6;

/// sie.STIE: the host's supervisor timer interrupt is enabled.
pub const SIE_STIE: u64 = 1 << 5;

/// The host control registers that exit handling writes, held as values:
/// whoever holds this handle is the one writer of those registers.
#[derive(Clone, Copy, Debug, PartialEq, Eq, Structural)]
pub struct ControlRegisters {
    pub hvip: u64,
    pub sie: u64,
}

/// What happens after an exit was handled.
#[derive(Clone, Copy, Debug, PartialEq, Eq, Structural)]
pub enum VmExitOutcome {
    /// Enter the guest again.
    Continue,
    /// The guest asked to shut down; it is never entered again.
    Shutdown,
}

/// Exits that end the run.
#[derive(Clone, Copy, Debug, PartialEq, Eq, Structural)]
pub enum VmExitError {
    /// A hypervisor call that does not decode to a request.
    CallDecodeFailure,
    /// An illegal instruction other than the emulated one.
    UnemulatedIllegalInstruction(u32),
    /// A cause that no branch handles.
    UnhandledTrapCause(TrapCause),
}

/// The outcome of a hypervisor call with argument registers `a` (a0 .. a7):
/// shutdown for a reset request with the shutdown reason pair, continue for
/// any other reset request, and an error where the registers do not decode.
pub open spec fn call_outcome(a: Seq<u64>) -> Result<VmExitOutcome, VmExitError> {
    match decode_spec(a) {
        Ok(SbiMessage::Reset { reset_type, reason }) => {
            if reset_type == SHUTDOWN_RESET_TYPE && reason == SHUTDOWN_REASON {
                Ok(VmExitOutcome::Shutdown)
            } else {
                Ok(VmExitOutcome::Continue)
            }
        },
        Err(_) => Err(VmExitError::CallDecodeFailure),
    }
}

/// The guest's resume address moved past the trapping instruction.
pub open spec fn skip_instruction(ctx: VmCpuRegisters) -> VmCpuRegisters {
    VmCpuRegisters {
        guest_regs: crate::context::GuestCpuState {
            sepc: (ctx.guest_regs.sepc + INSTRUCTION_WIDTH) as u64,
            ..ctx.guest_regs
        },
        ..ctx
    }
}

/// Whether the guest registers after an exit are those of the emulated
/// instruction applied to `old`.
pub open spec fn emulated(old: VmCpuRegisters, new: VmCpuRegisters) -> bool {
    &&& new.guest_regs.gprs@ == old.guest_regs.gprs@.update(10, EMULATED_A0).update(
        11,
        EMULATED_A1,
    )
    &&& new.guest_regs.sepc == (old.guest_regs.sepc + INSTRUCTION_WIDTH) as u64
    &&& new.guest_regs.sstatus == old.guest_regs.sstatus
    &&& new.guest_regs.hstatus == old.guest_regs.hstatus
    &&& new.host_regs == old.host_regs
}

/// The decision for one exit: the outcome, and how the guest registers and
/// the control registers change.
pub open spec fn exit_spec(
    old: VmCpuRegisters,
    old_csrs: ControlRegisters,
    new: VmCpuRegisters,
    new_csrs: ControlRegisters,
    cause: TrapCause,
    stval: u64,
    r: Result<VmExitOutcome, VmExitError>,
) -> bool {
    match cause {
        TrapCause::Exception(ExceptionKind::VirtualSupervisorEnvCall) => {
            &&& new == old
            &&& new_csrs == old_csrs
            &&& r == call_outcome(old.guest_regs.gprs.spec_a_regs())
        },
        TrapCause::Exception(ExceptionKind::IllegalInstruction) => {
            &&& new_csrs == old_csrs
            &&& if stval as u32 == EMULATED_INSTRUCTION {
                emulated(old, new) && r == Ok::<VmExitOutcome, VmExitError>(
                    VmExitOutcome::Continue,
                )
            } else {
                new == old && r == Err::<VmExitOutcome, VmExitError>(
                    VmExitError::UnemulatedIllegalInstruction(stval as u32),
                )
            }
        },
        TrapCause::Exception(ExceptionKind::LoadGuestPageFault) => {
            &&& new == skip_instruction(old)
            &&& new_csrs == old_csrs
            &&& r == Ok::<VmExitOutcome, VmExitError>(VmExitOutcome::Continue)
        },
        TrapCause::Interrupt(InterruptKind::SupervisorTimer) => {
            &&& new == old
            &&& new_csrs == ControlRegisters {
                hvip: old_csrs.hvip | HVIP_VSTIP,
                sie: old_csrs.sie & !SIE_STIE,
            }
            &&& r == Ok::<VmExitOutcome, VmExitError>(VmExitOutcome::Continue)
        },
        _ => {
            &&& new == old
            &&& new_csrs == old_csrs
            &&& r == Err::<VmExitOutcome, VmExitError>(VmExitError::UnhandledTrapCause(cause))
        },
    }
}

/// The address of the instruction after the one at `pc`, wrapping as the
/// hardware's program counter does.
fn next_pc(pc: u64) -> (r: u64)
    ensures
        r == (pc + INSTRUCTION_WIDTH) as u64,
{
    if pc <= u64::MAX - INSTRUCTION_WIDTH {
        pc + INSTRUCTION_WIDTH
    } else {
        assert((pc + 4) as u64 == pc - 0xffff_ffff_ffff_fffcu64) by (bit_vector)
            requires
                pc > 0xffff_ffff_ffff_fffbu64,
        ;
        pc - 0xffff_ffff_ffff_fffc
    }
}

/// Handles one VM exit of cause `cause`, with `stval` the trap value the
/// hardware recorded.
pub fn vmexit_handler(
    ctx: &mut VmCpuRegisters,
    csrs: &mut ControlRegisters,
    cause: TrapCause,
    stval: u64,
) -> (r: Result<VmExitOutcome, VmExitError>)
    ensures
        exit_spec(*old(ctx), *old(csrs), *final(ctx), *final(csrs), cause, stval, r),
{
    match cause {
        TrapCause::Exception(ExceptionKind::VirtualSupervisorEnvCall) => {
            let a = ctx.guest_regs.gprs.a_regs();
            let msg = SbiMessage::from_regs(&a);
            assert(msg == decode_spec(ctx.guest_regs.gprs.spec_a_regs()));
            match msg {
                Ok(SbiMessage::Reset { reset_type, reason }) => {
                    if reset_type == SHUTDOWN_RESET_TYPE && reason == SHUTDOWN_REASON {
                        Ok(VmExitOutcome::Shutdown)
                    } else {
                        Ok(VmExitOutcome::Continue)
                    }
                },
                Err(DecodeFailure) => Err(VmExitError::CallDecodeFailure),
            }
        },
        TrapCause::Exception(ExceptionKind::IllegalInstruction) => {
            let instr = #[verifier::truncate] (stval as u32);
            if instr == EMULATED_INSTRUCTION {
                ctx.guest_regs.gprs.set_reg(GprIndex::A0, EMULATED_A0);
                ctx.guest_regs.gprs.set_reg(GprIndex::A1, EMULATED_A1);
                ctx.guest_regs.sepc = next_pc(ctx.guest_regs.sepc);
                Ok(VmExitOutcome::Continue)
            } else {
                Err(VmExitError::UnemulatedIllegalInstruction(instr))
            }
        },
        TrapCause::Exception(ExceptionKind::LoadGuestPageFault) => {
            ctx.guest_regs.sepc = next_pc(ctx.guest_regs.sepc);
            Ok(VmExitOutcome::Continue)
        },
        TrapCause::Interrupt(InterruptKind::SupervisorTimer) => {
            csrs.hvip = csrs.hvip | HVIP_VSTIP;
            csrs.sie = csrs.sie & !SIE_STIE;
            Ok(VmExitOutcome::Continue)
        },
        _ => Err(VmExitError::UnhandledTrapCause(cause)),
    }
}

/// Where a run stands between exits.
#[derive(Clone, Copy, Debug, PartialEq, Eq, Structural)]
pub enum RunState {
    /// The last exit was resolved and the guest may be entered.
    Running,
    /// The guest shut down normally.
    Halted,
    /// An exit ended the run with an error.
    Aborted(VmExitError),
}

/// The run state that the result of an exit leads to.
pub open spec fn state_after(r: Result<VmExitOutcome, VmExitError>) -> RunState {
    match r {
        Ok(VmExitOutcome::Continue) => RunState::Running,
        Ok(VmExitOutcome::Shutdown) => RunState::Halted,
        Err(e) => RunState::Aborted(e),
    }
}

/// The single virtual machine: its registers, the control registers that exit
/// handling writes, and its run state.
pub struct Vm {
    pub ctx: VmCpuRegisters,
    pub csrs: ControlRegisters,
    pub state: RunState,
}

/// `new` is `old` after an exit of cause `cause` and trap value `stval` was
/// handled with result `r`.
pub open spec fn step_spec(old: Vm, new: Vm, cause: TrapCause, stval: u64, r: Result<VmExitOutcome, VmExitError>) -> bool {
    &&& old.state == RunState::Running
    &&& exit_spec(old.ctx, old.csrs, new.ctx, new.csrs, cause, stval, r)
    &&& new.state == state_after(r)
}

impl Vm {
    /// A machine ready for its first entry.
    pub fn new(ctx: VmCpuRegisters, csrs: ControlRegisters) -> (r: Vm)
        ensures
            r.ctx == ctx,
            r.csrs == csrs,
            r.state == RunState::Running,
    {
        Vm { ctx, csrs, state: RunState::Running }
    }

    /// Whether the guest may be entered now: only while the run goes on and
    /// the previous exit, if any, was resolved.
    pub fn may_enter(&self) -> (r: bool)
        ensures
            r == (self.state == RunState::Running),
    {
        match self.state {
            RunState::Running => true,
            _ => false,
        }
    }

    /// Resolves the exit that just happened and moves the run state on.
    pub fn handle_exit(&mut self, cause: TrapCause, stval: u64) -> (r: Result<VmExitOutcome, VmExitError>)
        requires
            old(self).state == RunState::Running,
        ensures
            step_spec(*old(self), *final(self), cause, stval, r),
    {
        let r = vmexit_handler(&mut self.ctx, &mut self.csrs, cause, stval);
        self.state = match r {
            Ok(VmExitOutcome::Continue) => RunState::Running,
            Ok(VmExitOutcome::Shutdown) => RunState::Halted,
            Err(e) => RunState::Aborted(e),
        };
        r
    }
}

/// An illegal-instruction exit on the emulated instruction puts the two
/// identification values in a0 and a1, moves the resume address on by one
/// instruction and continues.
pub proof fn lemma_emulated_instruction(
    old: VmCpuRegisters,
    old_csrs: ControlRegisters,
    new: VmCpuRegisters,
    new_csrs: ControlRegisters,
    stval: u64,
    r: Result<VmExitOutcome, VmExitError>,
)
    requires
        exit_spec(old, old_csrs, new, new_csrs, TrapCause::Exception(ExceptionKind::IllegalInstruction), stval, r),
        stval as u32 == EMULATED_INSTRUCTION,
    ensures
        new.guest_regs.gprs.spec_reg(GprIndex::A0) == EMULATED_A0,
        new.guest_regs.gprs.spec_reg(GprIndex::A1) == EMULATED_A1,
        old.guest_regs.sepc + 4 <= u64::MAX ==> new.guest_regs.sepc == old.guest_regs.sepc + 4,
        r == Ok::<VmExitOutcome, VmExitError>(VmExitOutcome::Continue),
{
}

/// An illegal-instruction exit on any other instruction ends the run and
/// leaves the resume address where it was.
pub proof fn lemma_other_instruction_aborts(
    old: VmCpuRegisters,
    old_csrs: ControlRegisters,
    new: VmCpuRegisters,
    new_csrs: ControlRegisters,
    stval: u64,
    r: Result<VmExitOutcome, VmExitError>,
)
    requires
        exit_spec(old, old_csrs, new, new_csrs, TrapCause::Exception(ExceptionKind::IllegalInstruction), stval, r),
        stval as u32 != EMULATED_INSTRUCTION,
    ensures
        r is Err,
        state_after(r) is Aborted,
        new.guest_regs.sepc == old.guest_regs.sepc,
{
}

/// A hypervisor call that decodes to a reset request with the shutdown reason
/// pair halts the machine, after which the guest is never entered again.
pub proof fn lemma_shutdown_request_halts(old: Vm, new: Vm, stval: u64, r: Result<VmExitOutcome, VmExitError>)
    requires
        step_spec(old, new, TrapCause::Exception(ExceptionKind::VirtualSupervisorEnvCall), stval, r),
        decode_spec(old.ctx.guest_regs.gprs.spec_a_regs()) == Ok::<SbiMessage, DecodeFailure>(
            SbiMessage::Reset { reset_type: SHUTDOWN_RESET_TYPE, reason: SHUTDOWN_REASON },
        ),
    ensures
        r == Ok::<VmExitOutcome, VmExitError>(VmExitOutcome::Shutdown),
        new.state == RunState::Halted,
        new.state != RunState::Running,
{
}

/// A supervisor timer interrupt marks the virtual timer interrupt pending for
/// the guest, disables the host's timer interrupt, leaves the resume address
/// alone and continues.
pub proof fn lemma_timer_forwarded(
    old: VmCpuRegisters,
    old_csrs: ControlRegisters,
    new: VmCpuRegisters,
    new_csrs: ControlRegisters,
    stval: u64,
    r: Result<VmExitOutcome, VmExitError>,
)
    requires
        exit_spec(old, old_csrs, new, new_csrs, TrapCause::Interrupt(InterruptKind::SupervisorTimer), stval, r),
    ensures
        new_csrs.hvip & HVIP_VSTIP == HVIP_VSTIP,
        new_csrs.sie & SIE_STIE == 0,
        new.guest_regs.sepc == old.guest_regs.sepc,
        r == Ok::<VmExitOutcome, VmExitError>(VmExitOutcome::Continue),
{
    let h = old_csrs.hvip;
    let e = old_csrs.sie;
    assert((h | HVIP_VSTIP) & HVIP_VSTIP == HVIP_VSTIP) by (bit_vector);
    assert((e & !SIE_STIE) & SIE_STIE == 0u64) by (bit_vector);
}

/// A guest that executes the emulated instruction and then issues a reset
/// request with the shutdown reason pair takes exactly two exits: the first
/// continues, the second halts, and no entry follows it.
pub proof fn lemma_emulate_then_shutdown(
    v0: Vm,
    v1: Vm,
    v2: Vm,
    v3: Vm,
    stval1: u64,
    stval2: u64,
    r1: Result<VmExitOutcome, VmExitError>,
    r2: Result<VmExitOutcome, VmExitError>,
)
    requires
        v0.state == RunState::Running,
        step_spec(v0, v1, TrapCause::Exception(ExceptionKind::IllegalInstruction), stval1, r1),
        stval1 as u32 == EMULATED_INSTRUCTION,
        // the guest runs on from v1 and traps again with the registers of v2
        v2.state == v1.state,
        v2.ctx.guest_regs.gprs.spec_a_regs() == crate::sbi::encode_spec(
            SbiMessage::Reset { reset_type: SHUTDOWN_RESET_TYPE, reason: SHUTDOWN_REASON },
        ),
        step_spec(v2, v3, TrapCause::Exception(ExceptionKind::VirtualSupervisorEnvCall), stval2, r2),
    ensures
        r1 == Ok::<VmExitOutcome, VmExitError>(VmExitOutcome::Continue),
        v1.state == RunState::Running,
        r2 == Ok::<VmExitOutcome, VmExitError>(VmExitOutcome::Shutdown),
        v3.state == RunState::Halted,
{
    crate::sbi::lemma_reset_round_trip(SHUTDOWN_RESET_TYPE, SHUTDOWN_REASON);
    lemma_shutdown_request_halts(v2, v3, stval2, r2);
}

} // verus!

use simple_hv::context::{prepare_guest_context, VmCpuRegisters, VM_ENTRY};
use simple_hv::regs::GprIndex;
use simple_hv::sbi::{DecodeFailure, SbiMessage, EID_SRST, FID_SYSTEM_RESET};
use simple_hv::stage2::hgatp_value;
use simple_hv::trap::{ExceptionKind, InterruptKind, TrapCause};
use simple_hv::vmexit::{
    vmexit_handler, ControlRegisters, RunState, Vm, VmExitError, VmExitOutcome,
};

fn guest_at(pc: u64) -> VmCpuRegisters {
    let mut ctx = VmCpuRegisters::new();
    ctx.guest_regs.sepc = pc;
    ctx
}

fn set_call(ctx: &mut VmCpuRegisters, eid: u64, fid: u64, a0: u64, a1: u64) {
    ctx.guest_regs.gprs.set_reg(GprIndex::A7, eid);
    ctx.guest_regs.gprs.set_reg(GprIndex::A6, fid);
    ctx.guest_regs.gprs.set_reg(GprIndex::A0, a0);
    ctx.guest_regs.gprs.set_reg(GprIndex::A1, a1);
}

fn no_csrs() -> ControlRegisters {
    ControlRegisters { hvip: 0, sie: 0 }
}

#[test]
fn reset_message_round_trip() {
    let msg = SbiMessage::Reset { reset_type: 0xdead, reason: 0xbeef };
    let regs = msg.to_regs();
    assert_eq!(regs, [0xdead, 0xbeef, 0, 0, 0, 0, FID_SYSTEM_RESET, EID_SRST]);
    assert_eq!(SbiMessage::from_regs(&regs), Ok(msg));
}

#[test]
fn unrecognized_call_fails_to_decode() {
    let base = [0u64, 0, 0, 0, 0, 0, 0, 0x10];
    assert_eq!(SbiMessage::from_regs(&base), Err(DecodeFailure));
    let wrong_fid = [0x6688u64, 0x1234, 0, 0, 0, 0, 1, EID_SRST];
    assert_eq!(SbiMessage::from_regs(&wrong_fid), Err(DecodeFailure));
}

#[test]
fn register_file_reads_back_writes() {
    let mut ctx = VmCpuRegisters::new();
    ctx.guest_regs.gprs.set_reg(GprIndex::A3, 77);
    assert_eq!(ctx.guest_regs.gprs.reg(GprIndex::A3), 77);
    assert_eq!(ctx.guest_regs.gprs.regs[13], 77);
    assert_eq!(ctx.guest_regs.gprs.a_regs(), [0, 0, 0, 77, 0, 0, 0, 0]);
}

#[test]
fn emulated_instruction_sets_ids_and_skips() {
    let mut ctx = guest_at(0x8020_0010);
    let mut csrs = no_csrs();
    let cause = TrapCause::Exception(ExceptionKind::IllegalInstruction);
    let r = vmexit_handler(&mut ctx, &mut csrs, cause, 0xf140_25f3);
    assert_eq!(r, Ok(VmExitOutcome::Continue));
    assert_eq!(ctx.guest_regs.gprs.reg(GprIndex::A0), 0x6688);
    assert_eq!(ctx.guest_regs.gprs.reg(GprIndex::A1), 0x1234);
    assert_eq!(ctx.guest_regs.sepc, 0x8020_0014);
    assert_eq!(csrs, no_csrs());
}

#[test]
fn emulated_instruction_uses_low_word_of_trap_value() {
    let mut ctx = guest_at(0x100);
    let mut csrs = no_csrs();
    let cause = TrapCause::Exception(ExceptionKind::IllegalInstruction);
    let r = vmexit_handler(&mut ctx, &mut csrs, cause, 0xffff_ffff_f140_25f3);
    assert_eq!(r, Ok(VmExitOutcome::Continue));
    assert_eq!(ctx.guest_regs.sepc, 0x104);
}

#[test]
fn other_illegal_instruction_aborts() {
    let mut ctx = guest_at(0x8020_0010);
    let mut csrs = no_csrs();
    let cause = TrapCause::Exception(ExceptionKind::IllegalInstruction);
    let r = vmexit_handler(&mut ctx, &mut csrs, cause, 0x1234_5678);
    assert_eq!(r, Err(VmExitError::UnemulatedIllegalInstruction(0x1234_5678)));
    assert_eq!(ctx.guest_regs.sepc, 0x8020_0010);
    assert_eq!(ctx.guest_regs.gprs.reg(GprIndex::A0), 0);
}

#[test]
fn shutdown_request_halts() {
    let mut vm = Vm::new(guest_at(0x8020_0040), no_csrs());
    set_call(&mut vm.ctx, EID_SRST, FID_SYSTEM_RESET, 0x6688, 0x1234);
    let cause = TrapCause::Exception(ExceptionKind::VirtualSupervisorEnvCall);
    assert_eq!(vm.handle_exit(cause, 0), Ok(VmExitOutcome::Shutdown));
    assert_eq!(vm.state, RunState::Halted);
    assert!(!vm.may_enter());
}

#[test]
fn other_reset_request_continues_in_place() {
    let mut ctx = guest_at(0x8020_0040);
    set_call(&mut ctx, EID_SRST, FID_SYSTEM_RESET, 0, 0);
    let mut csrs = no_csrs();
    let cause = TrapCause::Exception(ExceptionKind::VirtualSupervisorEnvCall);
    assert_eq!(vmexit_handler(&mut ctx, &mut csrs, cause, 0), Ok(VmExitOutcome::Continue));
    assert_eq!(ctx.guest_regs.sepc, 0x8020_0040);
}

#[test]
fn undecodable_call_aborts() {
    let mut vm = Vm::new(guest_at(0x8020_0040), no_csrs());
    set_call(&mut vm.ctx, 0x4442_434e, 0, 0x6688, 0x1234);
    let cause = TrapCause::Exception(ExceptionKind::VirtualSupervisorEnvCall);
    assert_eq!(vm.handle_exit(cause, 0), Err(VmExitError::CallDecodeFailure));
    assert_eq!(vm.state, RunState::Aborted(VmExitError::CallDecodeFailure));
    assert!(!vm.may_enter());
}

#[test]
fn load_guest_page_fault_skips_instruction() {
    let mut ctx = guest_at(0x8020_0100);
    let mut csrs = no_csrs();
    let cause = TrapCause::Exception(ExceptionKind::LoadGuestPageFault);
    assert_eq!(vmexit_handler(&mut ctx, &mut csrs, cause, 0x9000_0000), Ok(VmExitOutcome::Continue));
    assert_eq!(ctx.guest_regs.sepc, 0x8020_0104);
}

#[test]
fn timer_interrupt_is_forwarded() {
    let mut ctx = guest_at(0x8020_0200);
    let mut csrs = ControlRegisters { hvip: 0x4, sie: 0x222 };
    let cause = TrapCause::Interrupt(InterruptKind::SupervisorTimer);
    assert_eq!(vmexit_handler(&mut ctx, &mut csrs, cause, 0), Ok(VmExitOutcome::Continue));
    assert_eq!(csrs.hvip, 0x44);
    assert_eq!(csrs.sie, 0x202);
    assert_eq!(ctx.guest_regs.sepc, 0x8020_0200);
}

#[test]
fn unhandled_cause_aborts() {
    let mut ctx = guest_at(0x8020_0200);
    let mut csrs = no_csrs();
    let cause = TrapCause::Exception(ExceptionKind::Other(13));
    assert_eq!(
        vmexit_handler(&mut ctx, &mut csrs, cause, 0),
        Err(VmExitError::UnhandledTrapCause(cause))
    );
    let irq = TrapCause::Interrupt(InterruptKind::Other(9));
    assert_eq!(
        vmexit_handler(&mut ctx, &mut csrs, irq, 0),
        Err(VmExitError::UnhandledTrapCause(irq))
    );
}

#[test]
fn scause_values_decode() {
    assert_eq!(
        TrapCause::from_scause(0x8000_0000_0000_0005),
        TrapCause::Interrupt(InterruptKind::SupervisorTimer)
    );
    assert_eq!(
        TrapCause::from_scause(0x8000_0000_0000_0009),
        TrapCause::Interrupt(InterruptKind::Other(9))
    );
    assert_eq!(TrapCause::from_scause(2), TrapCause::Exception(ExceptionKind::IllegalInstruction));
    assert_eq!(
        TrapCause::from_scause(10),
        TrapCause::Exception(ExceptionKind::VirtualSupervisorEnvCall)
    );
    assert_eq!(TrapCause::from_scause(21), TrapCause::Exception(ExceptionKind::LoadGuestPageFault));
    assert_eq!(TrapCause::from_scause(5), TrapCause::Exception(ExceptionKind::Other(5)));
}

#[test]
fn guest_context_is_prepared() {
    let mut ctx = VmCpuRegisters::new();
    let h = prepare_guest_context(&mut ctx, 0x2_0000_0000, 0x2, VM_ENTRY);
    assert_eq!(h, 0x2_0000_0180);
    assert_eq!(ctx.guest_regs.hstatus, 0x2_0000_0180);
    assert_eq!(ctx.guest_regs.sstatus, 0x102);
    assert_eq!(ctx.guest_regs.sepc, 0x8020_0000);
}

#[test]
fn guest_sstatus_drops_undefined_bits() {
    let mut ctx = VmCpuRegisters::new();
    prepare_guest_context(&mut ctx, 0, 0x0001_0000_0000_0000, VM_ENTRY);
    assert_eq!(ctx.guest_regs.sstatus, 0x100);
}

#[test]
fn stage2_root_encoding() {
    assert_eq!(hgatp_value(0x8000_1000), 0x8000_0000_0008_0001);
    assert_eq!(hgatp_value(0), 0x8000_0000_0000_0000);
}

#[test]
fn emulate_then_shutdown_takes_two_exits() {
    let mut ctx = VmCpuRegisters::new();
    prepare_guest_context(&mut ctx, 0, 0, VM_ENTRY);
    let mut vm = Vm::new(ctx, no_csrs());
    let mut exits = 0;
    let mut outcomes = Vec::new();
    // The guest's program: the emulated read, then a reset call that passes
    // on the values it read.
    let script = [
        (TrapCause::Exception(ExceptionKind::IllegalInstruction), 0xf140_25f3u64),
        (TrapCause::Exception(ExceptionKind::VirtualSupervisorEnvCall), 0),
    ];
    while vm.may_enter() {
        let (cause, stval) = script[exits];
        exits += 1;
        let r = vm.handle_exit(cause, stval);
        outcomes.push(r);
        if r == Ok(VmExitOutcome::Continue) {
            vm.ctx.guest_regs.gprs.set_reg(GprIndex::A6, FID_SYSTEM_RESET);
            vm.ctx.guest_regs.gprs.set_reg(GprIndex::A7, EID_SRST);
        }
    }
    assert_eq!(exits, 2);
    assert_eq!(outcomes, vec![Ok(VmExitOutcome::Continue), Ok(VmExitOutcome::Shutdown)]);
    assert_eq!(vm.state, RunState::Halted);
    assert_eq!(vm.ctx.guest_regs.sepc, VM_ENTRY + 4);
}

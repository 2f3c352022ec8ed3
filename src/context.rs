//! Register and control-state snapshots kept across the host/guest boundary.
use vstd::prelude::*;
use crate::regs::GeneralRegisters;

verus! {

/// Guest physical address at which the guest kernel image is loaded.
pub const VM_ENTRY: u64 = 0x8020_0000;

/// hstatus.SPV: a trap return (`sret`) enters the guest (virtualisation on).
pub const HSTATUS_SPV: u64 = 1 << 7;

/// hstatus.SPVP: hypervisor loads and stores to guest memory run as supervisor.
pub const HSTATUS_SPVP: u64 = 1 << 8;

/// sstatus.SPP: the privilege that a trap return resumes at is supervisor.
pub const SSTATUS_SPP: u64 = 1 << 8;

/// The sstatus bits that are defined on RV64 (all others read as zero).
pub const SSTATUS_LEGAL_BITS: u64 = 0x8000_0003_000d_e762;

/// What the guest sees: its registers and the control state restored on entry.
#[derive(Clone, Copy, Debug, PartialEq, Eq)]
pub struct GuestCpuState {
    pub gprs: GeneralRegisters,
    pub sstatus: u64,
    pub hstatus: u64,
    /// Where the guest resumes on the next entry.
    pub sepc: u64,
}

/// The host registers saved while the guest runs.
#[derive(Clone, Copy, Debug, PartialEq, Eq)]
pub struct HostCpuState {
    pub gprs: GeneralRegisters,
    pub sstatus: u64,
    pub hstatus: u64,
}

/// The whole state handed to the world switch.
#[derive(Clone, Copy, Debug, PartialEq, Eq)]
pub struct VmCpuRegisters {
    pub host_regs: HostCpuState,
    pub guest_regs: GuestCpuState,
}

/// Relies on riscv's `Sstatus::from_bits`, `Sstatus::set_spp` and
/// `Sstatus::bits`: the value keeps the RV64 sstatus bits of `bits` and has SPP
/// set to supervisor.
#[verifier::external_body]
fn sstatus_with_supervisor_spp(bits: u64) -> (r: u64)
    ensures
        r == (bits & SSTATUS_LEGAL_BITS) | SSTATUS_SPP,
{
    let mut s = riscv::register::sstatus::Sstatus::from_bits(bits as usize);
    s.set_spp(riscv::register::sstatus::SPP::Supervisor);
    s.bits() as u64
}

impl VmCpuRegisters {
    /// Every register and every control field zero.
    pub fn new() -> (r: Self)
        ensures
            r.guest_regs.gprs@ == Seq::new(32, |i: int| 0u64),
            r.host_regs.gprs@ == Seq::new(32, |i: int| 0u64),
            r.guest_regs.sstatus == 0,
            r.guest_regs.hstatus == 0,
            r.guest_regs.sepc == 0,
            r.host_regs.sstatus == 0,
            r.host_regs.hstatus == 0,
    {
        VmCpuRegisters {
            host_regs: HostCpuState { gprs: GeneralRegisters::new(), sstatus: 0, hstatus: 0 },
            guest_regs: GuestCpuState {
                gprs: GeneralRegisters::new(),
                sstatus: 0,
                hstatus: 0,
                sepc: 0,
            },
        }
    }
}

/// Prepares the first entry into the guest, from the host's current hstatus
/// and sstatus: the guest's hstatus gets SPV and SPVP set, its sstatus gets SPP
/// set to supervisor, and it resumes at `entry`. Returns the hstatus value that
/// the host must also install in the real register.
pub fn prepare_guest_context(ctx: &mut VmCpuRegisters, hstatus: u64, sstatus: u64, entry: u64) -> (r: u64)
    ensures
        r == hstatus | HSTATUS_SPV | HSTATUS_SPVP,
        final(ctx).guest_regs.hstatus == r,
        final(ctx).guest_regs.sstatus == (sstatus & SSTATUS_LEGAL_BITS) | SSTATUS_SPP,
        final(ctx).guest_regs.sepc == entry,
        final(ctx).guest_regs.gprs == old(ctx).guest_regs.gprs,
        final(ctx).host_regs == old(ctx).host_regs,
{
    let h = hstatus | HSTATUS_SPV | HSTATUS_SPVP;
    ctx.guest_regs.hstatus = h;
    ctx.guest_regs.sstatus = sstatus_with_supervisor_spp(sstatus);
    ctx.guest_regs.sepc = entry;
    h
}

} // verus!

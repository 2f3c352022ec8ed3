//! The guest's general-purpose register file.
use vstd::prelude::*;

verus! {

/// Architectural names of the 32 general-purpose registers.
#[derive(Clone, Copy, Debug, PartialEq, Eq, Structural)]
pub enum GprIndex {
    Zero,
    RA,
    SP,
    GP,
    TP,
    T0,
    T1,
    T2,
    S0,
    S1,
    A0,
    A1,
    A2,
    A3,
    A4,
    A5,
    A6,
    A7,
    S2,
    S3,
    S4,
    S5,
    S6,
    S7,
    S8,
    S9,
    S10,
    S11,
    T3,
    T4,
    T5,
    T6,
}

/// Number of the register in the register file (x0 .. x31).
pub open spec fn gpr_num(i: GprIndex) -> nat {
    match i {
        GprIndex::Zero => 0,
        GprIndex::RA => 1,
        GprIndex::SP => 2,
        GprIndex::GP => 3,
        GprIndex::TP => 4,
        GprIndex::T0 => 5,
        GprIndex::T1 => 6,
        GprIndex::T2 => 7,
        GprIndex::S0 => 8,
        GprIndex::S1 => 9,
        GprIndex::A0 => 10,
        GprIndex::A1 => 11,
        GprIndex::A2 => 12,
        GprIndex::A3 => 13,
        GprIndex::A4 => 14,
        GprIndex::A5 => 15,
        GprIndex::A6 => 16,
        GprIndex::A7 => 17,
        GprIndex::S2 => 18,
        GprIndex::S3 => 19,
        GprIndex::S4 => 20,
        GprIndex::S5 => 21,
        GprIndex::S6 => 22,
        GprIndex::S7 => 23,
        GprIndex::S8 => 24,
        GprIndex::S9 => 25,
        GprIndex::S10 => 26,
        GprIndex::S11 => 27,
        GprIndex::T3 => 28,
        GprIndex::T4 => 29,
        GprIndex::T5 => 30,
        GprIndex::T6 => 31,
    }
}

impl GprIndex {
    /// The register's number in the register file.
    pub fn index(self) -> (r: usize)
        ensures
            r as nat == gpr_num(self),
            r < 32,
    {
        match self {
            GprIndex::Zero => 0,
            GprIndex::RA => 1,
            GprIndex::SP => 2,
            GprIndex::GP => 3,
            GprIndex::TP => 4,
            GprIndex::T0 => 5,
            GprIndex::T1 => 6,
            GprIndex::T2 => 7,
            GprIndex::S0 => 8,
            GprIndex::S1 => 9,
            GprIndex::A0 => 10,
            GprIndex::A1 => 11,
            GprIndex::A2 => 12,
            GprIndex::A3 => 13,
            GprIndex::A4 => 14,
            GprIndex::A5 => 15,
            GprIndex::A6 => 16,
            GprIndex::A7 => 17,
            GprIndex::S2 => 18,
            GprIndex::S3 => 19,
            GprIndex::S4 => 20,
            GprIndex::S5 => 21,
            GprIndex::S6 => 22,
            GprIndex::S7 => 23,
            GprIndex::S8 => 24,
            GprIndex::S9 => 25,
            GprIndex::S10 => 26,
            GprIndex::S11 => 27,
            GprIndex::T3 => 28,
            GprIndex::T4 => 29,
            GprIndex::T5 => 30,
            GprIndex::T6 => 31,
        }
    }
}

/// Snapshot of the 32 general-purpose registers, ordered by register number.
#[derive(Clone, Copy, Debug, PartialEq, Eq)]
pub struct GeneralRegisters {
    pub regs: [u64; 32],
}

impl View for GeneralRegisters {
    type V = Seq<u64>;

    open spec fn view(&self) -> Seq<u64> {
        self.regs@
    }
}

impl GeneralRegisters {
    /// Value of register `i` in the model.
    pub open spec fn spec_reg(&self, i: GprIndex) -> u64 {
        self@[gpr_num(i) as int]
    }

    /// The argument registers a0 .. a7, in order.
    pub open spec fn spec_a_regs(&self) -> Seq<u64> {
        self@.subrange(10, 18)
    }

    /// All registers zero.
    pub fn new() -> (r: Self)
        ensures
            r@ == Seq::new(32, |i: int| 0u64),
    {
        let r = GeneralRegisters { regs: [0u64; 32] };
        assert(r@ =~= Seq::new(32, |i: int| 0u64));
        r
    }

    /// Reads register `i`.
    pub fn reg(&self, i: GprIndex) -> (r: u64)
        ensures
            r == self.spec_reg(i),
    {
        let n = i.index();
        self.regs[n]
    }

    /// Writes `val` into register `i`; every other register keeps its value.
    pub fn set_reg(&mut self, i: GprIndex, val: u64)
        ensures
            final(self)@ == old(self)@.update(gpr_num(i) as int, val),
    {
        let n = i.index();
        self.regs[n] = val;
    }

    /// Copies out the argument registers a0 .. a7.
    pub fn a_regs(&self) -> (r: [u64; 8])
        ensures
            r@ == self.spec_a_regs(),
    {
        let r: [u64; 8] = [
            self.regs[10],
            self.regs[11],
            self.regs[12],
            self.regs[13],
            self.regs[14],
            self.regs[15],
            self.regs[16],
            self.regs[17],
        ];
        assert(r@ =~= self.spec_a_regs());
        r
    }
}

} // verus!

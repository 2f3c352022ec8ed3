//! Control core of a single-guest RISC-V hypervisor, with the early-boot
//! bump allocator and the small open-addressing hash map it is built with.
use vstd::prelude::*;

pub mod regs;
pub mod sbi;
pub mod context;
pub mod stage2;
pub mod trap;
pub mod vmexit;
pub mod bump;
pub mod hashmap;

verus! {

} // verus!

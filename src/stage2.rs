//! Second-stage (guest-physical to host-physical) translation root.
use vstd::prelude::*;

verus! {

/// hgatp.MODE value of the Sv39x4 translation scheme.
pub const HGATP_MODE_SV39X4: u64 = 8;

/// Size of a page, and so the granule of the root's physical page number.
pub const PAGE_SIZE_4K: u64 = 4096;

/// The hgatp value that installs the translation root at physical address
/// `root`: the mode in bits 60..63, the root's page number below, VMID zero.
pub open spec fn hgatp_spec(root: u64) -> int {
    HGATP_MODE_SV39X4 * 0x1000_0000_0000_0000 + root / PAGE_SIZE_4K
}

/// Encodes the stage-2 translation root for the hgatp register.
pub fn hgatp_value(root: u64) -> (r: u64)
    ensures
        r == hgatp_spec(root),
{
    let r = (HGATP_MODE_SV39X4 << 60u64) | (root >> 12u64);
    assert((8u64 << 60u64) | (root >> 12u64) == 0x8000_0000_0000_0000u64 + root / 4096)
        by (bit_vector);
    r
}

} // verus!

//! The guest-to-host call convention: extension id in a7, function id in a6,
//! arguments in a0 .. a5.
use vstd::prelude::*;

verus! {

/// Extension id of the system-reset extension ("SRST").
pub const EID_SRST: u64 = 0x5352_5354;

/// Function id of `system_reset` within the system-reset extension.
pub const FID_SYSTEM_RESET: u64 = 0;

/// A recognised hypervisor-call request.
#[derive(Clone, Copy, Debug, PartialEq, Eq, Structural)]
pub enum SbiMessage {
    /// System reset, with its two reason values (a0 and a1), uninterpreted.
    Reset { reset_type: u64, reason: u64 },
}

/// The call registers do not hold a request this core understands.
#[derive(Clone, Copy, Debug, PartialEq, Eq, Structural)]
pub struct DecodeFailure;

/// Whether an (extension, function) id pair names a request this core decodes.
pub open spec fn is_recognized(eid: u64, fid: u64) -> bool {
    eid == EID_SRST && fid == FID_SYSTEM_RESET
}

/// What decoding the argument registers a0 .. a7 yields.
pub open spec fn decode_spec(a: Seq<u64>) -> Result<SbiMessage, DecodeFailure>
    recommends
        a.len() == 8,
{
    if is_recognized(a[7], a[6]) {
        Ok(SbiMessage::Reset { reset_type: a[0], reason: a[1] })
    } else {
        Err(DecodeFailure)
    }
}

/// The argument registers a0 .. a7 that carry `msg`: the request's values in
/// a0 and a1, its function id in a6, its extension id in a7, zero elsewhere.
pub open spec fn encode_spec(msg: SbiMessage) -> Seq<u64> {
    match msg {
        SbiMessage::Reset { reset_type, reason } => seq![
            reset_type,
            reason,
            0u64,
            0u64,
            0u64,
            0u64,
            FID_SYSTEM_RESET,
            EID_SRST,
        ],
    }
}

impl SbiMessage {
    /// Decodes the argument registers a0 .. a7 (in that order).
    pub fn from_regs(a: &[u64; 8]) -> (r: Result<SbiMessage, DecodeFailure>)
        ensures
            r == decode_spec(a@),
    {
        if a[7] == EID_SRST && a[6] == FID_SYSTEM_RESET {
            Ok(SbiMessage::Reset { reset_type: a[0], reason: a[1] })
        } else {
            Err(DecodeFailure)
        }
    }

    /// The argument registers a0 .. a7 with which a guest issues this request.
    pub fn to_regs(&self) -> (r: [u64; 8])
        ensures
            r@ == encode_spec(*self),
    {
        match *self {
            SbiMessage::Reset { reset_type, reason } => {
                let r: [u64; 8] = [reset_type, reason, 0, 0, 0, 0, FID_SYSTEM_RESET, EID_SRST];
                assert(r@ =~= encode_spec(*self));
                r
            },
        }
    }
}

/// Decoding the registers of an encoded reset request gives back the request,
/// with both reason values unchanged.
pub proof fn lemma_reset_round_trip(reset_type: u64, reason: u64)
    ensures
        decode_spec(encode_spec(SbiMessage::Reset { reset_type, reason })) == Ok::<
            SbiMessage,
            DecodeFailure,
        >(SbiMessage::Reset { reset_type, reason }),
{
}

/// Registers whose extension and function ids are not a recognised pair never
/// decode to a request.
pub proof fn lemma_unrecognized_fails(a: Seq<u64>)
    requires
        a.len() == 8,
        !is_recognized(a[7], a[6]),
    ensures
        decode_spec(a) == Err::<SbiMessage, DecodeFailure>(DecodeFailure),
        !(decode_spec(a) is Ok),
{
}

} // verus!

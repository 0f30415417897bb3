//! HDR toggle — selector `0x06` opcode `0x01`.
//!
//! Wire bytes: `[0x01, 0x01, value]` with `value` `0x00` (off) or
//! `0x01` (on). Reflected at byte `0x06` of the status struct.

use vstd::prelude::*;

verus! {

/// Opcode byte for HDR commands.
pub const OPCODE: u8 = 0x01;

/// The 3-byte `SET_CUR` payload for HDR on or off.
pub open spec fn payload_spec(on: bool) -> Seq<u8> {
    seq![0x01u8, 0x01u8, if on { 1u8 } else { 0u8 }]
}

/// Build the 3-byte `SET_CUR` payload for HDR on/off.
pub fn payload(on: bool) -> (r: [u8; 3])
    ensures
        r@ == payload_spec(on),
{
    let value: u8 = if on { 1 } else { 0 };
    let r = [OPCODE, 0x01, value];
    assert(r@ =~= payload_spec(on));
    r
}

/// The HDR payloads: opcode `0x01`, length `0x01`, then `1` to switch
/// HDR on and `0` to switch it off.
pub proof fn lemma_hdr_payloads()
    ensures
        payload_spec(true) == seq![0x01u8, 0x01u8, 0x01u8],
        payload_spec(false) == seq![0x01u8, 0x01u8, 0x00u8],
{
    assert(payload_spec(true) =~= seq![0x01u8, 0x01u8, 0x01u8]);
    assert(payload_spec(false) =~= seq![0x01u8, 0x01u8, 0x00u8]);
}

} // verus!

//! Field of view — selector `0x06` opcode `0x04`.
//!
//! Wire bytes: `[0x04, 0x01, value]`, `0x01` Wide, `0x02` Normal,
//! `0x03` Narrow.

use vstd::prelude::*;

use crate::xu::enums::{fov_wire, FovMode};

verus! {

/// Opcode byte for FOV commands.
pub const OPCODE: u8 = 0x04;

/// The 3-byte `SET_CUR` payload for a field of view.
pub open spec fn payload_spec(mode: FovMode) -> Seq<u8> {
    seq![0x04u8, 0x01u8, fov_wire(mode)]
}

/// Build the 3-byte `SET_CUR` payload for FOV selection.
pub fn payload(mode: FovMode) -> (r: [u8; 3])
    ensures
        r@ == payload_spec(mode),
{
    let r = [OPCODE, 0x01, mode.to_wire()];
    assert(r@ =~= payload_spec(mode));
    r
}

/// The payloads of the three fields of view: opcode `0x04`, length
/// `0x01`, then `1` wide, `2` normal, `3` narrow.
pub proof fn lemma_fov_payloads()
    ensures
        payload_spec(FovMode::Wide) == seq![0x04u8, 0x01u8, 0x01u8],
        payload_spec(FovMode::Normal) == seq![0x04u8, 0x01u8, 0x02u8],
        payload_spec(FovMode::Narrow) == seq![0x04u8, 0x01u8, 0x03u8],
{
    assert(payload_spec(FovMode::Wide) =~= seq![0x04u8, 0x01u8, 0x01u8]);
    assert(payload_spec(FovMode::Normal) =~= seq![0x04u8, 0x01u8, 0x02u8]);
    assert(payload_spec(FovMode::Narrow) =~= seq![0x04u8, 0x01u8, 0x03u8]);
}

} // verus!

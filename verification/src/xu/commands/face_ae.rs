//! Face auto-exposure metering style — selector `0x06` opcode `0x03`.
//!
//! Wire bytes: `[0x03, 0x01, value]`, `0x00` Global and `0x01` Face.

use vstd::prelude::*;

use crate::xu::enums::{face_ae_wire, FaceAeMode};

verus! {

/// Opcode byte for face AE commands.
pub const OPCODE: u8 = 0x03;

/// The 3-byte `SET_CUR` payload for a metering style.
pub open spec fn payload_spec(mode: FaceAeMode) -> Seq<u8> {
    seq![0x03u8, 0x01u8, face_ae_wire(mode)]
}

/// Build the 3-byte `SET_CUR` payload for face AE selection.
pub fn payload(mode: FaceAeMode) -> (r: [u8; 3])
    ensures
        r@ == payload_spec(mode),
{
    let r = [OPCODE, 0x01, mode.to_wire()];
    assert(r@ =~= payload_spec(mode));
    r
}

/// The payloads of the two metering modes: opcode `0x03`, length
/// `0x01`, then `0` for global and `1` for face.
pub proof fn lemma_face_ae_payloads()
    ensures
        payload_spec(FaceAeMode::Global) == seq![0x03u8, 0x01u8, 0x00u8],
        payload_spec(FaceAeMode::Face) == seq![0x03u8, 0x01u8, 0x01u8],
{
    assert(payload_spec(FaceAeMode::Global) =~= seq![0x03u8, 0x01u8, 0x00u8]);
    assert(payload_spec(FaceAeMode::Face) =~= seq![0x03u8, 0x01u8, 0x01u8]);
}

} // verus!

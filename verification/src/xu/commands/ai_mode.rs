//! AI tracking mode — selector `0x06` opcode `0x16`.
//!
//! Wire bytes: `[0x16, 0x02, m, n]` with `(m, n)` from
//! [`AiMode::to_wire`](crate::xu::enums::AiMode::to_wire).

use vstd::prelude::*;

use crate::xu::enums::{ai_mode_wire, AiMode};

verus! {

/// Opcode byte for AI tracking mode commands.
pub const OPCODE: u8 = 0x16;

/// The 4-byte `SET_CUR` payload for an AI tracking mode.
pub open spec fn payload_spec(mode: AiMode) -> Seq<u8> {
    seq![0x16u8, 0x02u8, ai_mode_wire(mode).0, ai_mode_wire(mode).1]
}

/// Build the 4-byte `SET_CUR` payload for an AI tracking mode.
pub fn payload(mode: AiMode) -> (r: [u8; 4])
    ensures
        r@ == payload_spec(mode),
{
    let (m, n) = mode.to_wire();
    let r = [OPCODE, 0x02, m, n];
    assert(r@ =~= payload_spec(mode));
    r
}

/// The payload of each of the ten AI modes, as the vendor table has it:
/// opcode `0x16`, length `0x02`, then the mode's `(m, n)`.
pub proof fn lemma_ai_mode_payloads()
    ensures
        payload_spec(AiMode::NoTracking) == seq![0x16u8, 0x02u8, 0x00u8, 0x00u8],
        payload_spec(AiMode::NormalTracking) == seq![0x16u8, 0x02u8, 0x02u8, 0x00u8],
        payload_spec(AiMode::UpperBody) == seq![0x16u8, 0x02u8, 0x02u8, 0x01u8],
        payload_spec(AiMode::CloseUp) == seq![0x16u8, 0x02u8, 0x02u8, 0x02u8],
        payload_spec(AiMode::Headless) == seq![0x16u8, 0x02u8, 0x02u8, 0x03u8],
        payload_spec(AiMode::LowerBody) == seq![0x16u8, 0x02u8, 0x02u8, 0x04u8],
        payload_spec(AiMode::DeskMode) == seq![0x16u8, 0x02u8, 0x05u8, 0x00u8],
        payload_spec(AiMode::Whiteboard) == seq![0x16u8, 0x02u8, 0x04u8, 0x00u8],
        payload_spec(AiMode::Hand) == seq![0x16u8, 0x02u8, 0x03u8, 0x00u8],
        payload_spec(AiMode::Group) == seq![0x16u8, 0x02u8, 0x01u8, 0x00u8],
{
    assert(payload_spec(AiMode::NoTracking) =~= seq![0x16u8, 0x02u8, 0x00u8, 0x00u8]);
    assert(payload_spec(AiMode::NormalTracking) =~= seq![0x16u8, 0x02u8, 0x02u8, 0x00u8]);
    assert(payload_spec(AiMode::UpperBody) =~= seq![0x16u8, 0x02u8, 0x02u8, 0x01u8]);
    assert(payload_spec(AiMode::CloseUp) =~= seq![0x16u8, 0x02u8, 0x02u8, 0x02u8]);
    assert(payload_spec(AiMode::Headless) =~= seq![0x16u8, 0x02u8, 0x02u8, 0x03u8]);
    assert(payload_spec(AiMode::LowerBody) =~= seq![0x16u8, 0x02u8, 0x02u8, 0x04u8]);
    assert(payload_spec(AiMode::DeskMode) =~= seq![0x16u8, 0x02u8, 0x05u8, 0x00u8]);
    assert(payload_spec(AiMode::Whiteboard) =~= seq![0x16u8, 0x02u8, 0x04u8, 0x00u8]);
    assert(payload_spec(AiMode::Hand) =~= seq![0x16u8, 0x02u8, 0x03u8, 0x00u8]);
    assert(payload_spec(AiMode::Group) =~= seq![0x16u8, 0x02u8, 0x01u8, 0x00u8]);
}

} // verus!

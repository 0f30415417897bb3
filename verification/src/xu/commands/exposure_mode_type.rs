//! Exposure-mode toggle (Auto / Manual) — selector `0x02` 36-byte frame.

use vstd::prelude::*;

use crate::xu::command02::{appendix_bytes, build, frame_spec};
use crate::xu::enums::ExposureMode;

verus! {

/// `function_group` for exposure-mode frames.
pub const FUNCTION_GROUP: [u8; 6] = [0x0a, 0x02, 0x82, 0x29, 0x05, 0x00];

/// The 36-byte frame for an exposure mode: Auto sends sequence
/// `15 00`, checksum `a8 9e`, command `f9 27 01 32 00 00`; Manual sends
/// sequence `16 00`, checksum `58 91`, command `b2 af 02 04 00 00`.
pub open spec fn payload_spec(mode: ExposureMode) -> Seq<u8> {
    match mode {
        ExposureMode::Auto => frame_spec(
            FUNCTION_GROUP@,
            seq![0x15u8, 0x00u8],
            seq![0xa8u8, 0x9eu8],
            seq![0xf9u8, 0x27u8, 0x01u8, 0x32u8, 0x00u8, 0x00u8],
            appendix_bytes(None),
        ),
        ExposureMode::Manual => frame_spec(
            FUNCTION_GROUP@,
            seq![0x16u8, 0x00u8],
            seq![0x58u8, 0x91u8],
            seq![0xb2u8, 0xafu8, 0x02u8, 0x04u8, 0x00u8, 0x00u8],
            appendix_bytes(None),
        ),
    }
}

/// Build the 36-byte selector-0x02 frame for the given mode.
pub fn payload(mode: ExposureMode) -> (r: [u8; 36])
    ensures
        r@ == payload_spec(mode),
{
    let (seq, cks, cmd) = match mode {
        ExposureMode::Auto => ([0x15u8, 0x00], [0xa8u8, 0x9e], [0xf9u8, 0x27, 0x01, 0x32, 0x00, 0x00]),
        ExposureMode::Manual => (
            [0x16u8, 0x00],
            [0x58u8, 0x91],
            [0xb2u8, 0xaf, 0x02, 0x04, 0x00, 0x00],
        ),
    };
    let r = build(FUNCTION_GROUP, seq, cks, cmd, None);
    assert(r@ =~= payload_spec(mode));
    r
}

/// The two exposure frames are the captured ones byte for byte; auto
/// and manual differ, and neither carries an appendix.
pub proof fn lemma_exposure_frames()
    ensures
        payload_spec(ExposureMode::Auto) == seq![0xaau8, 0x25u8, 0x15u8, 0x00u8, 0x0cu8, 0x00u8, 0xa8u8, 0x9eu8, 0x0au8, 0x02u8, 0x82u8, 0x29u8, 0x05u8, 0x00u8, 0xf9u8, 0x27u8, 0x01u8, 0x32u8, 0x00u8, 0x00u8, 0x00u8, 0x00u8, 0x00u8, 0x00u8, 0x00u8, 0x00u8, 0x00u8, 0x00u8, 0x00u8, 0x00u8, 0x00u8, 0x00u8, 0x00u8, 0x00u8, 0x00u8, 0x00u8],
        payload_spec(ExposureMode::Manual) == seq![0xaau8, 0x25u8, 0x16u8, 0x00u8, 0x0cu8, 0x00u8, 0x58u8, 0x91u8, 0x0au8, 0x02u8, 0x82u8, 0x29u8, 0x05u8, 0x00u8, 0xb2u8, 0xafu8, 0x02u8, 0x04u8, 0x00u8, 0x00u8, 0x00u8, 0x00u8, 0x00u8, 0x00u8, 0x00u8, 0x00u8, 0x00u8, 0x00u8, 0x00u8, 0x00u8, 0x00u8, 0x00u8, 0x00u8, 0x00u8, 0x00u8, 0x00u8],
{
    assert(FUNCTION_GROUP@ =~= seq![0x0au8, 0x02u8, 0x82u8, 0x29u8, 0x05u8, 0x00u8]);
    assert(payload_spec(ExposureMode::Auto) =~= seq![0xaau8, 0x25u8, 0x15u8, 0x00u8, 0x0cu8, 0x00u8, 0xa8u8, 0x9eu8, 0x0au8, 0x02u8, 0x82u8, 0x29u8, 0x05u8, 0x00u8, 0xf9u8, 0x27u8, 0x01u8, 0x32u8, 0x00u8, 0x00u8, 0x00u8, 0x00u8, 0x00u8, 0x00u8, 0x00u8, 0x00u8, 0x00u8, 0x00u8, 0x00u8, 0x00u8, 0x00u8, 0x00u8, 0x00u8, 0x00u8, 0x00u8, 0x00u8]);
    assert(payload_spec(ExposureMode::Manual) =~= seq![0xaau8, 0x25u8, 0x16u8, 0x00u8, 0x0cu8, 0x00u8, 0x58u8, 0x91u8, 0x0au8, 0x02u8, 0x82u8, 0x29u8, 0x05u8, 0x00u8, 0xb2u8, 0xafu8, 0x02u8, 0x04u8, 0x00u8, 0x00u8, 0x00u8, 0x00u8, 0x00u8, 0x00u8, 0x00u8, 0x00u8, 0x00u8, 0x00u8, 0x00u8, 0x00u8, 0x00u8, 0x00u8, 0x00u8, 0x00u8, 0x00u8, 0x00u8]);
}

} // verus!

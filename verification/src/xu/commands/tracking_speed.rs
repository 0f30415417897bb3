//! Tracking speed — selector `0x02` 36-byte frame. Reflected at byte
//! `0x21` of the status struct.

use vstd::prelude::*;

use crate::xu::command02::{appendix_bytes, build, frame_spec};
use crate::xu::enums::TrackingSpeed;

verus! {

/// `function_group` for tracking-speed frames.
pub const FUNCTION_GROUP: [u8; 6] = [0x0a, 0x04, 0xc4, 0x0c, 0x01, 0x00];

/// The 36-byte frame for a tracking speed: Standard sends sequence
/// `20 00`, checksum `ab cb`, command `e6 3f 00 00 00 00`; Sport sends
/// sequence `21 00`, checksum `fa 0e`, command `67 fe 02 00 00 00`.
pub open spec fn payload_spec(speed: TrackingSpeed) -> Seq<u8> {
    match speed {
        TrackingSpeed::Standard => frame_spec(
            FUNCTION_GROUP@,
            seq![0x20u8, 0x00u8],
            seq![0xabu8, 0xcbu8],
            seq![0xe6u8, 0x3fu8, 0x00u8, 0x00u8, 0x00u8, 0x00u8],
            appendix_bytes(None),
        ),
        TrackingSpeed::Sport => frame_spec(
            FUNCTION_GROUP@,
            seq![0x21u8, 0x00u8],
            seq![0xfau8, 0x0eu8],
            seq![0x67u8, 0xfeu8, 0x02u8, 0x00u8, 0x00u8, 0x00u8],
            appendix_bytes(None),
        ),
    }
}

/// Build the 36-byte payload for the given tracking speed.
pub fn payload(speed: TrackingSpeed) -> (r: [u8; 36])
    ensures
        r@ == payload_spec(speed),
{
    let (seq, cks, cmd) = match speed {
        TrackingSpeed::Standard => (
            [0x20u8, 0x00],
            [0xabu8, 0xcb],
            [0xe6u8, 0x3f, 0x00, 0x00, 0x00, 0x00],
        ),
        TrackingSpeed::Sport => ([0x21u8, 0x00], [0xfau8, 0x0e], [0x67u8, 0xfe, 0x02, 0x00, 0x00, 0x00]),
    };
    let r = build(FUNCTION_GROUP, seq, cks, cmd, None);
    assert(r@ =~= payload_spec(speed));
    r
}

/// The standard and sport frames are the captured ones byte for byte:
/// the command's third byte is `0` for standard and `2` for sport, the
/// same byte the status reports.
pub proof fn lemma_tracking_speed_frames()
    ensures
        payload_spec(TrackingSpeed::Standard) == seq![0xaau8, 0x25u8, 0x20u8, 0x00u8, 0x0cu8, 0x00u8, 0xabu8, 0xcbu8, 0x0au8, 0x04u8, 0xc4u8, 0x0cu8, 0x01u8, 0x00u8, 0xe6u8, 0x3fu8, 0x00u8, 0x00u8, 0x00u8, 0x00u8, 0x00u8, 0x00u8, 0x00u8, 0x00u8, 0x00u8, 0x00u8, 0x00u8, 0x00u8, 0x00u8, 0x00u8, 0x00u8, 0x00u8, 0x00u8, 0x00u8, 0x00u8, 0x00u8],
        payload_spec(TrackingSpeed::Sport) == seq![0xaau8, 0x25u8, 0x21u8, 0x00u8, 0x0cu8, 0x00u8, 0xfau8, 0x0eu8, 0x0au8, 0x04u8, 0xc4u8, 0x0cu8, 0x01u8, 0x00u8, 0x67u8, 0xfeu8, 0x02u8, 0x00u8, 0x00u8, 0x00u8, 0x00u8, 0x00u8, 0x00u8, 0x00u8, 0x00u8, 0x00u8, 0x00u8, 0x00u8, 0x00u8, 0x00u8, 0x00u8, 0x00u8, 0x00u8, 0x00u8, 0x00u8, 0x00u8],
        payload_spec(TrackingSpeed::Standard)[16] == 0u8,
        payload_spec(TrackingSpeed::Sport)[16] == 2u8,
{
    assert(FUNCTION_GROUP@ =~= seq![0x0au8, 0x04u8, 0xc4u8, 0x0cu8, 0x01u8, 0x00u8]);
    assert(payload_spec(TrackingSpeed::Standard) =~= seq![0xaau8, 0x25u8, 0x20u8, 0x00u8, 0x0cu8, 0x00u8, 0xabu8, 0xcbu8, 0x0au8, 0x04u8, 0xc4u8, 0x0cu8, 0x01u8, 0x00u8, 0xe6u8, 0x3fu8, 0x00u8, 0x00u8, 0x00u8, 0x00u8, 0x00u8, 0x00u8, 0x00u8, 0x00u8, 0x00u8, 0x00u8, 0x00u8, 0x00u8, 0x00u8, 0x00u8, 0x00u8, 0x00u8, 0x00u8, 0x00u8, 0x00u8, 0x00u8]);
    assert(payload_spec(TrackingSpeed::Sport) =~= seq![0xaau8, 0x25u8, 0x21u8, 0x00u8, 0x0cu8, 0x00u8, 0xfau8, 0x0eu8, 0x0au8, 0x04u8, 0xc4u8, 0x0cu8, 0x01u8, 0x00u8, 0x67u8, 0xfeu8, 0x02u8, 0x00u8, 0x00u8, 0x00u8, 0x00u8, 0x00u8, 0x00u8, 0x00u8, 0x00u8, 0x00u8, 0x00u8, 0x00u8, 0x00u8, 0x00u8, 0x00u8, 0x00u8, 0x00u8, 0x00u8, 0x00u8, 0x00u8]);
}

} // verus!

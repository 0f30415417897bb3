//! Sleep / Wake toggle — selector `0x02` 36-byte frame. Reflected at
//! byte `0x02` of the status struct.

use vstd::prelude::*;

use crate::error::invalid_input_error;
use crate::xu::command02::{appendix_bytes, build, frame_spec};
use crate::xu::enums::SleepState;
use crate::xu::errors::XuError;

verus! {

/// `function_group` for sleep / wake frames.
pub const FUNCTION_GROUP: [u8; 6] = [0x0a, 0x02, 0xc2, 0xa0, 0x04, 0x00];

/// The 36-byte frame for Awake (sequence `a5 00`, checksum `5f ef`,
/// command `be 07 00 00 00 00`) or Sleep (sequence `42 00`, checksum
/// `ea 63`, command `bf fb 01 00 00 00`).
pub open spec fn payload_spec(state: SleepState) -> Seq<u8> {
    match state {
        SleepState::Sleep => frame_spec(
            FUNCTION_GROUP@,
            seq![0x42u8, 0x00u8],
            seq![0xeau8, 0x63u8],
            seq![0xbfu8, 0xfbu8, 0x01u8, 0x00u8, 0x00u8, 0x00u8],
            appendix_bytes(None),
        ),
        _ => frame_spec(
            FUNCTION_GROUP@,
            seq![0xa5u8, 0x00u8],
            seq![0x5fu8, 0xefu8],
            seq![0xbeu8, 0x07u8, 0x00u8, 0x00u8, 0x00u8, 0x00u8],
            appendix_bytes(None),
        ),
    }
}

/// Build the 36-byte payload for Awake / Sleep.
///
/// [`SleepState::Unknown`] is a read-only diagnostic value: it is
/// rejected with an `InvalidInput` [`XuError::Io`] rather than sent.
pub fn payload(state: SleepState) -> (r: Result<[u8; 36], XuError>)
    ensures
        r is Ok <==> state != SleepState::Unknown,
        r matches Ok(frame) ==> frame@ == payload_spec(state),
        r matches Err(e) ==> e is Io,
{
    let (seq, cks, cmd) = match state {
        SleepState::Awake => ([0xa5u8, 0x00], [0x5fu8, 0xef], [0xbeu8, 0x07, 0x00, 0x00, 0x00, 0x00]),
        SleepState::Sleep => ([0x42u8, 0x00], [0xeau8, 0x63], [0xbfu8, 0xfb, 0x01, 0x00, 0x00, 0x00]),
        SleepState::Unknown => {
            return Err(
                XuError::Io(
                    invalid_input_error(
                        "SleepState::Unknown cannot be sent — it is a read-only diagnostic value",
                    ),
                ),
            );
        },
    };
    let r = build(FUNCTION_GROUP, seq, cks, cmd, None);
    assert(r@ =~= payload_spec(state));
    Ok(r)
}

/// The sleep and wake frames are the captured ones byte for byte: the
/// command's third byte is `1` to sleep and `0` to wake.
pub proof fn lemma_sleep_frames()
    ensures
        payload_spec(SleepState::Sleep) == seq![0xaau8, 0x25u8, 0x42u8, 0x00u8, 0x0cu8, 0x00u8, 0xeau8, 0x63u8, 0x0au8, 0x02u8, 0xc2u8, 0xa0u8, 0x04u8, 0x00u8, 0xbfu8, 0xfbu8, 0x01u8, 0x00u8, 0x00u8, 0x00u8, 0x00u8, 0x00u8, 0x00u8, 0x00u8, 0x00u8, 0x00u8, 0x00u8, 0x00u8, 0x00u8, 0x00u8, 0x00u8, 0x00u8, 0x00u8, 0x00u8, 0x00u8, 0x00u8],
        payload_spec(SleepState::Awake) == seq![0xaau8, 0x25u8, 0xa5u8, 0x00u8, 0x0cu8, 0x00u8, 0x5fu8, 0xefu8, 0x0au8, 0x02u8, 0xc2u8, 0xa0u8, 0x04u8, 0x00u8, 0xbeu8, 0x07u8, 0x00u8, 0x00u8, 0x00u8, 0x00u8, 0x00u8, 0x00u8, 0x00u8, 0x00u8, 0x00u8, 0x00u8, 0x00u8, 0x00u8, 0x00u8, 0x00u8, 0x00u8, 0x00u8, 0x00u8, 0x00u8, 0x00u8, 0x00u8],
        payload_spec(SleepState::Sleep)[16] == 1u8,
        payload_spec(SleepState::Awake)[16] == 0u8,
{
    assert(FUNCTION_GROUP@ =~= seq![0x0au8, 0x02u8, 0xc2u8, 0xa0u8, 0x04u8, 0x00u8]);
    assert(payload_spec(SleepState::Sleep) =~= seq![0xaau8, 0x25u8, 0x42u8, 0x00u8, 0x0cu8, 0x00u8, 0xeau8, 0x63u8, 0x0au8, 0x02u8, 0xc2u8, 0xa0u8, 0x04u8, 0x00u8, 0xbfu8, 0xfbu8, 0x01u8, 0x00u8, 0x00u8, 0x00u8, 0x00u8, 0x00u8, 0x00u8, 0x00u8, 0x00u8, 0x00u8, 0x00u8, 0x00u8, 0x00u8, 0x00u8, 0x00u8, 0x00u8, 0x00u8, 0x00u8, 0x00u8, 0x00u8]);
    assert(payload_spec(SleepState::Awake) =~= seq![0xaau8, 0x25u8, 0xa5u8, 0x00u8, 0x0cu8, 0x00u8, 0x5fu8, 0xefu8, 0x0au8, 0x02u8, 0xc2u8, 0xa0u8, 0x04u8, 0x00u8, 0xbeu8, 0x07u8, 0x00u8, 0x00u8, 0x00u8, 0x00u8, 0x00u8, 0x00u8, 0x00u8, 0x00u8, 0x00u8, 0x00u8, 0x00u8, 0x00u8, 0x00u8, 0x00u8, 0x00u8, 0x00u8, 0x00u8, 0x00u8, 0x00u8, 0x00u8]);
}

} // verus!

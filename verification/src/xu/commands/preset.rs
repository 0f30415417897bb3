//! Preset position recall — selector `0x02` 36-byte frame.
//!
//! Three slots, 0-indexed. The 16-byte appendix is not zero: it is
//! [`PRESET_RECALL_APPENDIX`]; the camera rejects the recall otherwise.

use vstd::prelude::*;

use crate::xu::command02::{appendix_bytes, build, frame_spec, PRESET_RECALL_APPENDIX};
use crate::xu::errors::XuError;

verus! {

/// `function_group` for preset-recall frames.
pub const FUNCTION_GROUP: [u8; 6] = [0x0a, 0x04, 0xc4, 0x39, 0x14, 0x00];

/// The 36-byte recall frame for slot `index` (0, 1 or 2): slot 0 sends
/// sequence `20 00`, checksum `6b dc`, command `d6 fb 00 00 00 00`;
/// slot 1 sequence `1a 00`, checksum `4b 03`, command
/// `eb 2a 01 00 00 00`; slot 2 sequence `26 00`, checksum `8b c3`,
/// command `af 19 02 00 00 00`; all with the recall appendix.
pub open spec fn payload_spec(index: int) -> Seq<u8> {
    if index == 0 {
        frame_spec(
            FUNCTION_GROUP@,
            seq![0x20u8, 0x00u8],
            seq![0x6bu8, 0xdcu8],
            seq![0xd6u8, 0xfbu8, 0x00u8, 0x00u8, 0x00u8, 0x00u8],
            appendix_bytes(Some(PRESET_RECALL_APPENDIX)),
        )
    } else if index == 1 {
        frame_spec(
            FUNCTION_GROUP@,
            seq![0x1au8, 0x00u8],
            seq![0x4bu8, 0x03u8],
            seq![0xebu8, 0x2au8, 0x01u8, 0x00u8, 0x00u8, 0x00u8],
            appendix_bytes(Some(PRESET_RECALL_APPENDIX)),
        )
    } else {
        frame_spec(
            FUNCTION_GROUP@,
            seq![0x26u8, 0x00u8],
            seq![0x8bu8, 0xc3u8],
            seq![0xafu8, 0x19u8, 0x02u8, 0x00u8, 0x00u8, 0x00u8],
            appendix_bytes(Some(PRESET_RECALL_APPENDIX)),
        )
    }
}

/// Build the 36-byte payload to recall preset slot `index`.
///
/// Succeeds exactly for `index` in `0..=2`; any other index is
/// [`XuError::InvalidPresetIndex`] carrying it.
pub fn payload(index: i8) -> (r: Result<[u8; 36], XuError>)
    ensures
        r is Ok <==> 0 <= index <= 2,
        r matches Ok(frame) ==> frame@ == payload_spec(index as int),
        r matches Err(e) ==> e == XuError::InvalidPresetIndex(index),
{
    let (seq, cks, cmd) = match index {
        0 => ([0x20u8, 0x00], [0x6bu8, 0xdc], [0xd6u8, 0xfb, 0x00, 0x00, 0x00, 0x00]),
        1 => ([0x1au8, 0x00], [0x4bu8, 0x03], [0xebu8, 0x2a, 0x01, 0x00, 0x00, 0x00]),
        2 => ([0x26u8, 0x00], [0x8bu8, 0xc3], [0xafu8, 0x19, 0x02, 0x00, 0x00, 0x00]),
        other => {
            return Err(XuError::InvalidPresetIndex(other));
        },
    };
    let r = build(FUNCTION_GROUP, seq, cks, cmd, Some(PRESET_RECALL_APPENDIX));
    assert(r@ =~= payload_spec(index as int));
    Ok(r)
}

/// Every recall frame ends in the recall appendix (`00 00 80 3f` four
/// times), and the frames of the three slots are the captured ones byte
/// for byte.
pub proof fn lemma_recall_frames(index: int)
    requires
        0 <= index <= 2,
    ensures
        payload_spec(index).len() == 36,
        payload_spec(index).subrange(20, 36) == PRESET_RECALL_APPENDIX@,
        payload_spec(index).subrange(20, 36) == seq![0x00u8, 0x00u8, 0x80u8, 0x3fu8, 0x00u8, 0x00u8, 0x80u8, 0x3fu8, 0x00u8, 0x00u8, 0x80u8, 0x3fu8, 0x00u8, 0x00u8, 0x80u8, 0x3fu8],
        payload_spec(0) == seq![0xaau8, 0x25u8, 0x20u8, 0x00u8, 0x0cu8, 0x00u8, 0x6bu8, 0xdcu8, 0x0au8, 0x04u8, 0xc4u8, 0x39u8, 0x14u8, 0x00u8, 0xd6u8, 0xfbu8, 0x00u8, 0x00u8, 0x00u8, 0x00u8, 0x00u8, 0x00u8, 0x80u8, 0x3fu8, 0x00u8, 0x00u8, 0x80u8, 0x3fu8, 0x00u8, 0x00u8, 0x80u8, 0x3fu8, 0x00u8, 0x00u8, 0x80u8, 0x3fu8],
        payload_spec(1) == seq![0xaau8, 0x25u8, 0x1au8, 0x00u8, 0x0cu8, 0x00u8, 0x4bu8, 0x03u8, 0x0au8, 0x04u8, 0xc4u8, 0x39u8, 0x14u8, 0x00u8, 0xebu8, 0x2au8, 0x01u8, 0x00u8, 0x00u8, 0x00u8, 0x00u8, 0x00u8, 0x80u8, 0x3fu8, 0x00u8, 0x00u8, 0x80u8, 0x3fu8, 0x00u8, 0x00u8, 0x80u8, 0x3fu8, 0x00u8, 0x00u8, 0x80u8, 0x3fu8],
        payload_spec(2) == seq![0xaau8, 0x25u8, 0x26u8, 0x00u8, 0x0cu8, 0x00u8, 0x8bu8, 0xc3u8, 0x0au8, 0x04u8, 0xc4u8, 0x39u8, 0x14u8, 0x00u8, 0xafu8, 0x19u8, 0x02u8, 0x00u8, 0x00u8, 0x00u8, 0x00u8, 0x00u8, 0x80u8, 0x3fu8, 0x00u8, 0x00u8, 0x80u8, 0x3fu8, 0x00u8, 0x00u8, 0x80u8, 0x3fu8, 0x00u8, 0x00u8, 0x80u8, 0x3fu8],
{
    assert(PRESET_RECALL_APPENDIX@ =~= seq![0x00u8, 0x00u8, 0x80u8, 0x3fu8, 0x00u8, 0x00u8, 0x80u8, 0x3fu8, 0x00u8, 0x00u8, 0x80u8, 0x3fu8, 0x00u8, 0x00u8, 0x80u8, 0x3fu8]);
    assert(FUNCTION_GROUP@ =~= seq![0x0au8, 0x04u8, 0xc4u8, 0x39u8, 0x14u8, 0x00u8]);
    assert(payload_spec(0) =~= seq![0xaau8, 0x25u8, 0x20u8, 0x00u8, 0x0cu8, 0x00u8, 0x6bu8, 0xdcu8, 0x0au8, 0x04u8, 0xc4u8, 0x39u8, 0x14u8, 0x00u8, 0xd6u8, 0xfbu8, 0x00u8, 0x00u8, 0x00u8, 0x00u8, 0x00u8, 0x00u8, 0x80u8, 0x3fu8, 0x00u8, 0x00u8, 0x80u8, 0x3fu8, 0x00u8, 0x00u8, 0x80u8, 0x3fu8, 0x00u8, 0x00u8, 0x80u8, 0x3fu8]);
    assert(payload_spec(1) =~= seq![0xaau8, 0x25u8, 0x1au8, 0x00u8, 0x0cu8, 0x00u8, 0x4bu8, 0x03u8, 0x0au8, 0x04u8, 0xc4u8, 0x39u8, 0x14u8, 0x00u8, 0xebu8, 0x2au8, 0x01u8, 0x00u8, 0x00u8, 0x00u8, 0x00u8, 0x00u8, 0x80u8, 0x3fu8, 0x00u8, 0x00u8, 0x80u8, 0x3fu8, 0x00u8, 0x00u8, 0x80u8, 0x3fu8, 0x00u8, 0x00u8, 0x80u8, 0x3fu8]);
    assert(payload_spec(2) =~= seq![0xaau8, 0x25u8, 0x26u8, 0x00u8, 0x0cu8, 0x00u8, 0x8bu8, 0xc3u8, 0x0au8, 0x04u8, 0xc4u8, 0x39u8, 0x14u8, 0x00u8, 0xafu8, 0x19u8, 0x02u8, 0x00u8, 0x00u8, 0x00u8, 0x00u8, 0x00u8, 0x80u8, 0x3fu8, 0x00u8, 0x00u8, 0x80u8, 0x3fu8, 0x00u8, 0x00u8, 0x80u8, 0x3fu8, 0x00u8, 0x00u8, 0x80u8, 0x3fu8]);
    assert(payload_spec(index).subrange(20, 36) =~= seq![0x00u8, 0x00u8, 0x80u8, 0x3fu8, 0x00u8, 0x00u8, 0x80u8, 0x3fu8, 0x00u8, 0x00u8, 0x80u8, 0x3fu8, 0x00u8, 0x00u8, 0x80u8, 0x3fu8]);
}

} // verus!

//! On-device gesture control — selector `0x02` 36-byte frames.
//!
//! The `function_group` selects which gesture and the `command` carries
//! the on/off value in its third byte:
//!
//! ```text
//! function_group     gesture
//! 0a 04 c4 30 01 00  target selection
//! 0a 04 44 31 01 00  zoom
//! 0a 04 44 33 01 00  dynamic zoom
//! 0a 04 c4 33 01 00  dynamic zoom direction
//!
//! command            value
//! e6 3f 00 00 00 00  off
//! 27 ff 01 00 00 00  on
//! ```
//!
//! The sequence/checksum pairs are replayed verbatim from captured
//! frames; the firmware accepts a replayed pair repeatedly.

use vstd::prelude::*;

use crate::xu::command02::{appendix_bytes, build, frame_spec};

verus! {

/// Which on-device gesture to turn on or off.
///
/// [`Gesture::Zoom`] is the L-shaped hand pose that makes the camera
/// zoom in and out on its own.
#[derive(Debug, Clone, Copy, PartialEq, Eq, Structural)]
#[non_exhaustive]
pub enum Gesture {
    /// Target-selection gesture (pick who to track).
    TargetSelection,
    /// The L-shaped hand pose that zooms in and out.
    Zoom,
    /// The vendor's "dynamic zoom" switch.
    DynamicZoom,
    /// Direction of the dynamic zoom gesture.
    DynamicZoomDirection,
}

/// `command` bytes for the off value, shared by every gesture.
pub const COMMAND_OFF: [u8; 6] = [0xe6, 0x3f, 0x00, 0x00, 0x00, 0x00];

/// `command` bytes for the on value, shared by every gesture.
pub const COMMAND_ON: [u8; 6] = [0x27, 0xff, 0x01, 0x00, 0x00, 0x00];

/// The function group of each gesture.
pub open spec fn function_group_spec(g: Gesture) -> Seq<u8> {
    match g {
        Gesture::TargetSelection => seq![0x0au8, 0x04u8, 0xc4u8, 0x30u8, 0x01u8, 0x00u8],
        Gesture::Zoom => seq![0x0au8, 0x04u8, 0x44u8, 0x31u8, 0x01u8, 0x00u8],
        Gesture::DynamicZoom => seq![0x0au8, 0x04u8, 0x44u8, 0x33u8, 0x01u8, 0x00u8],
        Gesture::DynamicZoomDirection => seq![0x0au8, 0x04u8, 0xc4u8, 0x33u8, 0x01u8, 0x00u8],
    }
}

/// The captured `(sequence, checksum)` pair of each gesture and value.
pub open spec fn seq_and_checksum_spec(g: Gesture, on: bool) -> (Seq<u8>, Seq<u8>) {
    match (g, on) {
        (Gesture::TargetSelection, false) => (seq![0x08u8, 0x00u8], seq![0x2bu8, 0x5au8]),
        (Gesture::TargetSelection, true) => (seq![0x09u8, 0x00u8], seq![0x7au8, 0x9fu8]),
        (Gesture::Zoom, false) => (seq![0x0au8, 0x00u8], seq![0x2au8, 0x90u8]),
        (Gesture::Zoom, true) => (seq![0x0bu8, 0x00u8], seq![0x7bu8, 0x55u8]),
        (Gesture::DynamicZoom, false) => (seq![0x0cu8, 0x00u8], seq![0x4bu8, 0x4eu8]),
        (Gesture::DynamicZoom, true) => (seq![0x0du8, 0x00u8], seq![0x1au8, 0x8bu8]),
        (Gesture::DynamicZoomDirection, false) => (seq![0x0eu8, 0x00u8], seq![0x8bu8, 0x44u8]),
        (Gesture::DynamicZoomDirection, true) => (seq![0x0fu8, 0x00u8], seq![0xdau8, 0x81u8]),
    }
}

/// The 36-byte frame that turns `g` on or off.
pub open spec fn payload_spec(g: Gesture, on: bool) -> Seq<u8> {
    frame_spec(
        function_group_spec(g),
        seq_and_checksum_spec(g, on).0,
        seq_and_checksum_spec(g, on).1,
        if on { COMMAND_ON@ } else { COMMAND_OFF@ },
        appendix_bytes(None),
    )
}

impl Gesture {
    /// `function_group` bytes identifying this gesture on the wire.
    pub fn function_group(self) -> (r: [u8; 6])
        ensures
            r@ == function_group_spec(self),
    {
        let r = match self {
            Gesture::TargetSelection => [0x0au8, 0x04, 0xc4, 0x30, 0x01, 0x00],
            Gesture::Zoom => [0x0au8, 0x04, 0x44, 0x31, 0x01, 0x00],
            Gesture::DynamicZoom => [0x0au8, 0x04, 0x44, 0x33, 0x01, 0x00],
            Gesture::DynamicZoomDirection => [0x0au8, 0x04, 0xc4, 0x33, 0x01, 0x00],
        };
        assert(r@ =~= function_group_spec(self));
        r
    }

    /// Captured `(sequence, checksum)` for this gesture and value.
    pub fn seq_and_checksum(self, on: bool) -> (r: ([u8; 2], [u8; 2]))
        ensures
            r.0@ == seq_and_checksum_spec(self, on).0,
            r.1@ == seq_and_checksum_spec(self, on).1,
    {
        let r = match (self, on) {
            (Gesture::TargetSelection, false) => ([0x08u8, 0x00], [0x2bu8, 0x5a]),
            (Gesture::TargetSelection, true) => ([0x09u8, 0x00], [0x7au8, 0x9f]),
            (Gesture::Zoom, false) => ([0x0au8, 0x00], [0x2au8, 0x90]),
            (Gesture::Zoom, true) => ([0x0bu8, 0x00], [0x7bu8, 0x55]),
            (Gesture::DynamicZoom, false) => ([0x0cu8, 0x00], [0x4bu8, 0x4e]),
            (Gesture::DynamicZoom, true) => ([0x0du8, 0x00], [0x1au8, 0x8b]),
            (Gesture::DynamicZoomDirection, false) => ([0x0eu8, 0x00], [0x8bu8, 0x44]),
            (Gesture::DynamicZoomDirection, true) => ([0x0fu8, 0x00], [0xdau8, 0x81]),
        };
        assert(r.0@ =~= seq_and_checksum_spec(self, on).0);
        assert(r.1@ =~= seq_and_checksum_spec(self, on).1);
        r
    }
}

/// Build the 36-byte frame that turns `gesture` on or off.
pub fn payload(gesture: Gesture, on: bool) -> (r: [u8; 36])
    ensures
        r@ == payload_spec(gesture, on),
{
    let (seq, checksum) = gesture.seq_and_checksum(on);
    let command = if on {
        COMMAND_ON
    } else {
        COMMAND_OFF
    };
    build(gesture.function_group(), seq, checksum, command, None)
}

/// The on/off value is the third command byte (frame byte 16), and the
/// appendix stays zero.
pub proof fn lemma_value_in_third_command_byte(g: Gesture, on: bool)
    ensures
        payload_spec(g, on)[16] == (if on { 1u8 } else { 0u8 }),
        payload_spec(g, on).subrange(20, 36) == appendix_bytes(None),
{
    assert(payload_spec(g, on).subrange(20, 36) =~= appendix_bytes(None));
}

/// Distinct gestures have distinct function groups.
pub proof fn lemma_function_groups_distinct(a: Gesture, b: Gesture)
    requires
        a != b,
    ensures
        function_group_spec(a) != function_group_spec(b),
{
    if function_group_spec(a) == function_group_spec(b) {
        assert(function_group_spec(a)[2] == function_group_spec(b)[2]);
        assert(function_group_spec(a)[3] == function_group_spec(b)[3]);
    }
}

/// The eight gesture frames are the captured ones byte for byte.
pub proof fn lemma_gesture_frames()
    ensures
        payload_spec(Gesture::TargetSelection, false) == seq![0xaau8, 0x25u8, 0x08u8, 0x00u8, 0x0cu8, 0x00u8, 0x2bu8, 0x5au8, 0x0au8, 0x04u8, 0xc4u8, 0x30u8, 0x01u8, 0x00u8, 0xe6u8, 0x3fu8, 0x00u8, 0x00u8, 0x00u8, 0x00u8, 0x00u8, 0x00u8, 0x00u8, 0x00u8, 0x00u8, 0x00u8, 0x00u8, 0x00u8, 0x00u8, 0x00u8, 0x00u8, 0x00u8, 0x00u8, 0x00u8, 0x00u8, 0x00u8],
        payload_spec(Gesture::TargetSelection, true) == seq![0xaau8, 0x25u8, 0x09u8, 0x00u8, 0x0cu8, 0x00u8, 0x7au8, 0x9fu8, 0x0au8, 0x04u8, 0xc4u8, 0x30u8, 0x01u8, 0x00u8, 0x27u8, 0xffu8, 0x01u8, 0x00u8, 0x00u8, 0x00u8, 0x00u8, 0x00u8, 0x00u8, 0x00u8, 0x00u8, 0x00u8, 0x00u8, 0x00u8, 0x00u8, 0x00u8, 0x00u8, 0x00u8, 0x00u8, 0x00u8, 0x00u8, 0x00u8],
        payload_spec(Gesture::Zoom, false) == seq![0xaau8, 0x25u8, 0x0au8, 0x00u8, 0x0cu8, 0x00u8, 0x2au8, 0x90u8, 0x0au8, 0x04u8, 0x44u8, 0x31u8, 0x01u8, 0x00u8, 0xe6u8, 0x3fu8, 0x00u8, 0x00u8, 0x00u8, 0x00u8, 0x00u8, 0x00u8, 0x00u8, 0x00u8, 0x00u8, 0x00u8, 0x00u8, 0x00u8, 0x00u8, 0x00u8, 0x00u8, 0x00u8, 0x00u8, 0x00u8, 0x00u8, 0x00u8],
        payload_spec(Gesture::Zoom, true) == seq![0xaau8, 0x25u8, 0x0bu8, 0x00u8, 0x0cu8, 0x00u8, 0x7bu8, 0x55u8, 0x0au8, 0x04u8, 0x44u8, 0x31u8, 0x01u8, 0x00u8, 0x27u8, 0xffu8, 0x01u8, 0x00u8, 0x00u8, 0x00u8, 0x00u8, 0x00u8, 0x00u8, 0x00u8, 0x00u8, 0x00u8, 0x00u8, 0x00u8, 0x00u8, 0x00u8, 0x00u8, 0x00u8, 0x00u8, 0x00u8, 0x00u8, 0x00u8],
        payload_spec(Gesture::DynamicZoom, false) == seq![0xaau8, 0x25u8, 0x0cu8, 0x00u8, 0x0cu8, 0x00u8, 0x4bu8, 0x4eu8, 0x0au8, 0x04u8, 0x44u8, 0x33u8, 0x01u8, 0x00u8, 0xe6u8, 0x3fu8, 0x00u8, 0x00u8, 0x00u8, 0x00u8, 0x00u8, 0x00u8, 0x00u8, 0x00u8, 0x00u8, 0x00u8, 0x00u8, 0x00u8, 0x00u8, 0x00u8, 0x00u8, 0x00u8, 0x00u8, 0x00u8, 0x00u8, 0x00u8],
        payload_spec(Gesture::DynamicZoom, true) == seq![0xaau8, 0x25u8, 0x0du8, 0x00u8, 0x0cu8, 0x00u8, 0x1au8, 0x8bu8, 0x0au8, 0x04u8, 0x44u8, 0x33u8, 0x01u8, 0x00u8, 0x27u8, 0xffu8, 0x01u8, 0x00u8, 0x00u8, 0x00u8, 0x00u8, 0x00u8, 0x00u8, 0x00u8, 0x00u8, 0x00u8, 0x00u8, 0x00u8, 0x00u8, 0x00u8, 0x00u8, 0x00u8, 0x00u8, 0x00u8, 0x00u8, 0x00u8],
        payload_spec(Gesture::DynamicZoomDirection, false) == seq![0xaau8, 0x25u8, 0x0eu8, 0x00u8, 0x0cu8, 0x00u8, 0x8bu8, 0x44u8, 0x0au8, 0x04u8, 0xc4u8, 0x33u8, 0x01u8, 0x00u8, 0xe6u8, 0x3fu8, 0x00u8, 0x00u8, 0x00u8, 0x00u8, 0x00u8, 0x00u8, 0x00u8, 0x00u8, 0x00u8, 0x00u8, 0x00u8, 0x00u8, 0x00u8, 0x00u8, 0x00u8, 0x00u8, 0x00u8, 0x00u8, 0x00u8, 0x00u8],
        payload_spec(Gesture::DynamicZoomDirection, true) == seq![0xaau8, 0x25u8, 0x0fu8, 0x00u8, 0x0cu8, 0x00u8, 0xdau8, 0x81u8, 0x0au8, 0x04u8, 0xc4u8, 0x33u8, 0x01u8, 0x00u8, 0x27u8, 0xffu8, 0x01u8, 0x00u8, 0x00u8, 0x00u8, 0x00u8, 0x00u8, 0x00u8, 0x00u8, 0x00u8, 0x00u8, 0x00u8, 0x00u8, 0x00u8, 0x00u8, 0x00u8, 0x00u8, 0x00u8, 0x00u8, 0x00u8, 0x00u8],
{
    assert(COMMAND_ON@ =~= seq![0x27u8, 0xffu8, 0x01u8, 0x00u8, 0x00u8, 0x00u8]);
    assert(COMMAND_OFF@ =~= seq![0xe6u8, 0x3fu8, 0x00u8, 0x00u8, 0x00u8, 0x00u8]);
    assert(payload_spec(Gesture::TargetSelection, false) =~= seq![0xaau8, 0x25u8, 0x08u8, 0x00u8, 0x0cu8, 0x00u8, 0x2bu8, 0x5au8, 0x0au8, 0x04u8, 0xc4u8, 0x30u8, 0x01u8, 0x00u8, 0xe6u8, 0x3fu8, 0x00u8, 0x00u8, 0x00u8, 0x00u8, 0x00u8, 0x00u8, 0x00u8, 0x00u8, 0x00u8, 0x00u8, 0x00u8, 0x00u8, 0x00u8, 0x00u8, 0x00u8, 0x00u8, 0x00u8, 0x00u8, 0x00u8, 0x00u8]);
    assert(payload_spec(Gesture::TargetSelection, true) =~= seq![0xaau8, 0x25u8, 0x09u8, 0x00u8, 0x0cu8, 0x00u8, 0x7au8, 0x9fu8, 0x0au8, 0x04u8, 0xc4u8, 0x30u8, 0x01u8, 0x00u8, 0x27u8, 0xffu8, 0x01u8, 0x00u8, 0x00u8, 0x00u8, 0x00u8, 0x00u8, 0x00u8, 0x00u8, 0x00u8, 0x00u8, 0x00u8, 0x00u8, 0x00u8, 0x00u8, 0x00u8, 0x00u8, 0x00u8, 0x00u8, 0x00u8, 0x00u8]);
    assert(payload_spec(Gesture::Zoom, false) =~= seq![0xaau8, 0x25u8, 0x0au8, 0x00u8, 0x0cu8, 0x00u8, 0x2au8, 0x90u8, 0x0au8, 0x04u8, 0x44u8, 0x31u8, 0x01u8, 0x00u8, 0xe6u8, 0x3fu8, 0x00u8, 0x00u8, 0x00u8, 0x00u8, 0x00u8, 0x00u8, 0x00u8, 0x00u8, 0x00u8, 0x00u8, 0x00u8, 0x00u8, 0x00u8, 0x00u8, 0x00u8, 0x00u8, 0x00u8, 0x00u8, 0x00u8, 0x00u8]);
    assert(payload_spec(Gesture::Zoom, true) =~= seq![0xaau8, 0x25u8, 0x0bu8, 0x00u8, 0x0cu8, 0x00u8, 0x7bu8, 0x55u8, 0x0au8, 0x04u8, 0x44u8, 0x31u8, 0x01u8, 0x00u8, 0x27u8, 0xffu8, 0x01u8, 0x00u8, 0x00u8, 0x00u8, 0x00u8, 0x00u8, 0x00u8, 0x00u8, 0x00u8, 0x00u8, 0x00u8, 0x00u8, 0x00u8, 0x00u8, 0x00u8, 0x00u8, 0x00u8, 0x00u8, 0x00u8, 0x00u8]);
    assert(payload_spec(Gesture::DynamicZoom, false) =~= seq![0xaau8, 0x25u8, 0x0cu8, 0x00u8, 0x0cu8, 0x00u8, 0x4bu8, 0x4eu8, 0x0au8, 0x04u8, 0x44u8, 0x33u8, 0x01u8, 0x00u8, 0xe6u8, 0x3fu8, 0x00u8, 0x00u8, 0x00u8, 0x00u8, 0x00u8, 0x00u8, 0x00u8, 0x00u8, 0x00u8, 0x00u8, 0x00u8, 0x00u8, 0x00u8, 0x00u8, 0x00u8, 0x00u8, 0x00u8, 0x00u8, 0x00u8, 0x00u8]);
    assert(payload_spec(Gesture::DynamicZoom, true) =~= seq![0xaau8, 0x25u8, 0x0du8, 0x00u8, 0x0cu8, 0x00u8, 0x1au8, 0x8bu8, 0x0au8, 0x04u8, 0x44u8, 0x33u8, 0x01u8, 0x00u8, 0x27u8, 0xffu8, 0x01u8, 0x00u8, 0x00u8, 0x00u8, 0x00u8, 0x00u8, 0x00u8, 0x00u8, 0x00u8, 0x00u8, 0x00u8, 0x00u8, 0x00u8, 0x00u8, 0x00u8, 0x00u8, 0x00u8, 0x00u8, 0x00u8, 0x00u8]);
    assert(payload_spec(Gesture::DynamicZoomDirection, false) =~= seq![0xaau8, 0x25u8, 0x0eu8, 0x00u8, 0x0cu8, 0x00u8, 0x8bu8, 0x44u8, 0x0au8, 0x04u8, 0xc4u8, 0x33u8, 0x01u8, 0x00u8, 0xe6u8, 0x3fu8, 0x00u8, 0x00u8, 0x00u8, 0x00u8, 0x00u8, 0x00u8, 0x00u8, 0x00u8, 0x00u8, 0x00u8, 0x00u8, 0x00u8, 0x00u8, 0x00u8, 0x00u8, 0x00u8, 0x00u8, 0x00u8, 0x00u8, 0x00u8]);
    assert(payload_spec(Gesture::DynamicZoomDirection, true) =~= seq![0xaau8, 0x25u8, 0x0fu8, 0x00u8, 0x0cu8, 0x00u8, 0xdau8, 0x81u8, 0x0au8, 0x04u8, 0xc4u8, 0x33u8, 0x01u8, 0x00u8, 0x27u8, 0xffu8, 0x01u8, 0x00u8, 0x00u8, 0x00u8, 0x00u8, 0x00u8, 0x00u8, 0x00u8, 0x00u8, 0x00u8, 0x00u8, 0x00u8, 0x00u8, 0x00u8, 0x00u8, 0x00u8, 0x00u8, 0x00u8, 0x00u8, 0x00u8]);
}

} // verus!

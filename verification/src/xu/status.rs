//! 60-byte global status struct returned by `GET_CUR` on selector
//! `0x06`.
//!
//! Five bytes decode to known fields; the other 55 are kept verbatim in
//! [`Status::raw`] for diagnostics.

use vstd::prelude::*;

use crate::xu::enums::{
    ai_mode_decode, ai_mode_wire, sleep_decode, tracking_speed_decode, AiMode, EnumDecodeError, SleepState,
    TrackingSpeed,
};
use crate::xu::commands::{ai_mode, hdr, sleep, tracking_speed};
use crate::xu::errors::XuError;

verus! {

/// Total length of the status struct on selector `0x06` `GET_CUR`.
pub const STATUS_LEN: usize = 60;

/// Byte offset of the sleep state.
pub const STATUS_OFFSET_SLEEP: usize = 0x02;

/// Byte offset of the HDR flag.
pub const STATUS_OFFSET_HDR: usize = 0x06;

/// Byte offset of the AI mode `m` half.
pub const STATUS_OFFSET_AI_M: usize = 0x18;

/// Byte offset of the AI mode `n` half.
pub const STATUS_OFFSET_AI_N: usize = 0x1c;

/// Byte offset of the tracking speed.
pub const STATUS_OFFSET_TRACKING_SPEED: usize = 0x21;

/// Decoded snapshot of the camera's vendor-XU state.
#[derive(Debug, Clone, PartialEq, Eq)]
pub struct Status {
    /// Sleep / wake state (status byte `0x02`).
    pub sleep: SleepState,
    /// HDR enabled (status byte `0x06`; non-zero means on).
    pub hdr_on: bool,
    /// AI tracking mode (status bytes `0x18` and `0x1c`).
    pub ai_mode: AiMode,
    /// Tracking speed (status byte `0x21`).
    pub tracking_speed: TrackingSpeed,
    /// Full 60-byte payload as returned by the camera.
    pub raw: [u8; STATUS_LEN],
}

/// The AI-mode byte pair of a status payload.
pub open spec fn status_ai_pair(raw: [u8; 60]) -> (u8, u8) {
    (raw[0x18], raw[0x1c])
}

/// Whether `s` is the decoding of `raw`: each known field is the
/// decoding of its byte, and the payload is kept verbatim.
pub open spec fn decodes_to(raw: [u8; 60], s: Status) -> bool {
    &&& s.sleep == sleep_decode(raw[0x02])
    &&& s.hdr_on == (raw[0x06] != 0)
    &&& ai_mode_decode(status_ai_pair(raw)) == Ok::<AiMode, EnumDecodeError>(s.ai_mode)
    &&& s.tracking_speed == tracking_speed_decode(raw[0x21])
    &&& s.raw == raw
}

impl Status {
    /// Decode an already-captured 60-byte payload.
    ///
    /// Fails with [`XuError::Decode`] exactly when the AI-mode byte pair
    /// is not a known mode (both `(3, 0)` and `(6, 0)` decode as Hand).
    pub fn decode(raw: [u8; STATUS_LEN]) -> (r: Result<Status, XuError>)
        ensures
            r is Ok <==> ai_mode_decode(status_ai_pair(raw)) is Ok,
            r matches Ok(s) ==> decodes_to(raw, s),
            r matches Err(e) ==> e == XuError::Decode(ai_mode_decode(status_ai_pair(raw))->Err_0),
    {
        let sleep = SleepState::from_status_byte(raw[STATUS_OFFSET_SLEEP]);
        let hdr_on = raw[STATUS_OFFSET_HDR] != 0;
        let ai_mode = match AiMode::from_wire((raw[STATUS_OFFSET_AI_M], raw[STATUS_OFFSET_AI_N])) {
            Ok(m) => m,
            Err(e) => return Err(XuError::Decode(e)),
        };
        let tracking_speed = TrackingSpeed::from_status_byte(raw[STATUS_OFFSET_TRACKING_SPEED]);
        Ok(Status { sleep, hdr_on, ai_mode, tracking_speed, raw })
    }
}

/// Two payloads that agree on the five known bytes decode to statuses
/// that agree on every decoded field.
pub proof fn lemma_decode_reads_only_known_bytes(a: [u8; 60], b: [u8; 60], sa: Status, sb: Status)
    requires
        a[0x02] == b[0x02],
        a[0x06] == b[0x06],
        a[0x18] == b[0x18],
        a[0x1c] == b[0x1c],
        a[0x21] == b[0x21],
        decodes_to(a, sa),
        decodes_to(b, sb),
    ensures
        sa.sleep == sb.sleep,
        sa.hdr_on == sb.hdr_on,
        sa.ai_mode == sb.ai_mode,
        sa.tracking_speed == sb.tracking_speed,
{
}

/// What each command writes reads back through the status decoder as
/// the setting that was sent: the AI-mode `(m, n)` bytes of the
/// opcode payload, the HDR value byte, and the value byte (frame byte
/// 16) of the sleep and tracking-speed frames.
pub proof fn lemma_writes_read_back(
    mode: AiMode,
    on: bool,
    speed: TrackingSpeed,
    state: SleepState,
)
    requires
        state != SleepState::Unknown,
    ensures
        ai_mode_decode((ai_mode::payload_spec(mode)[2], ai_mode::payload_spec(mode)[3]))
            == Ok::<AiMode, EnumDecodeError>(mode),
        (hdr::payload_spec(on)[2] != 0) == on,
        tracking_speed_decode(tracking_speed::payload_spec(speed)[16]) == speed,
        sleep_decode(sleep::payload_spec(state)[16]) == state,
{
}

/// What a decoded status says, byte by byte: byte `0x02` is `0` when
/// awake and `1` when asleep (anything else is unknown), byte `0x06` is
/// non-zero exactly when HDR is on, bytes `0x18` and `0x1c` are the AI
/// mode's `(m, n)` tuple (hand mode also reads back as `(6, 0)`), byte
/// `0x21` is `2` exactly for the sport speed, and the 60 bytes are kept.
pub proof fn lemma_status_fields(raw: [u8; 60], s: Status)
    requires
        decodes_to(raw, s),
    ensures
        (s.sleep == SleepState::Awake) <==> raw[0x02] == 0,
        (s.sleep == SleepState::Sleep) <==> raw[0x02] == 1,
        s.hdr_on <==> raw[0x06] != 0,
        ai_mode_wire(s.ai_mode) == (raw[0x18], raw[0x1c]) || (raw[0x18] == 6 && raw[0x1c] == 0
            && s.ai_mode == AiMode::Hand),
        (s.tracking_speed == TrackingSpeed::Sport) <==> raw[0x21] == 2,
        s.raw == raw,
{
    crate::xu::enums::lemma_ai_mode_decode_then_encode(status_ai_pair(raw));
}

} // verus!

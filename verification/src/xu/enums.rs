//! Typed value enums for the XU command surface.
//!
//! Every enum carries its wire-level encoding, not a high-level UI
//! value. Each encoder is paired with a decoder; the laws at the end
//! of the file state how the two relate.

use vstd::prelude::*;

verus! {

/// AI tracking mode — selector `0x06` opcode `0x16` payload `(m, n)`.
///
/// The decoder accepts both `(3, 0)` and `(6, 0)` as [`AiMode::Hand`];
/// the encoder writes `(3, 0)`.
#[derive(Debug, Clone, Copy, PartialEq, Eq, Structural)]
pub enum AiMode {
    /// No AI tracking — the camera holds its last manual position.
    NoTracking,
    /// Track a single subject (default tracking).
    NormalTracking,
    /// Track and frame the subject's upper body.
    UpperBody,
    /// Close-up framing.
    CloseUp,
    /// Frame the subject without showing the head.
    Headless,
    /// Frame the lower body.
    LowerBody,
    /// Desk-mode framing.
    DeskMode,
    /// Whiteboard tracking.
    Whiteboard,
    /// Hand-tracking mode.
    Hand,
    /// Frame a group of subjects.
    Group,
}

/// The `(m, n)` tuple the camera expects for each AI mode.
pub open spec fn ai_mode_wire(mode: AiMode) -> (u8, u8) {
    match mode {
        AiMode::NoTracking => (0x00, 0x00),
        AiMode::NormalTracking => (0x02, 0x00),
        AiMode::UpperBody => (0x02, 0x01),
        AiMode::CloseUp => (0x02, 0x02),
        AiMode::Headless => (0x02, 0x03),
        AiMode::LowerBody => (0x02, 0x04),
        AiMode::DeskMode => (0x05, 0x00),
        AiMode::Whiteboard => (0x04, 0x00),
        AiMode::Hand => (0x03, 0x00),
        AiMode::Group => (0x01, 0x00),
    }
}

/// Decoding of an `(m, n)` tuple read back from the camera.
pub open spec fn ai_mode_decode(value: (u8, u8)) -> Result<AiMode, EnumDecodeError> {
    let (m, n) = value;
    if m == 0x00 && n == 0x00 {
        Ok(AiMode::NoTracking)
    } else if m == 0x02 && n == 0x00 {
        Ok(AiMode::NormalTracking)
    } else if m == 0x02 && n == 0x01 {
        Ok(AiMode::UpperBody)
    } else if m == 0x02 && n == 0x02 {
        Ok(AiMode::CloseUp)
    } else if m == 0x02 && n == 0x03 {
        Ok(AiMode::Headless)
    } else if m == 0x02 && n == 0x04 {
        Ok(AiMode::LowerBody)
    } else if m == 0x05 && n == 0x00 {
        Ok(AiMode::DeskMode)
    } else if m == 0x04 && n == 0x00 {
        Ok(AiMode::Whiteboard)
    } else if (m == 0x03 || m == 0x06) && n == 0x00 {
        Ok(AiMode::Hand)
    } else if m == 0x01 && n == 0x00 {
        Ok(AiMode::Group)
    } else {
        Err(EnumDecodeError::AiMode(m, n))
    }
}

impl AiMode {
    /// Wire-level `(m, n)` tuple for the selector-0x06 opcode-0x16
    /// payload (`[0x16, 0x02, m, n]`).
    pub fn to_wire(self) -> (r: (u8, u8))
        ensures
            r == ai_mode_wire(self),
    {
        match self {
            AiMode::NoTracking => (0x00, 0x00),
            AiMode::NormalTracking => (0x02, 0x00),
            AiMode::UpperBody => (0x02, 0x01),
            AiMode::CloseUp => (0x02, 0x02),
            AiMode::Headless => (0x02, 0x03),
            AiMode::LowerBody => (0x02, 0x04),
            AiMode::DeskMode => (0x05, 0x00),
            AiMode::Whiteboard => (0x04, 0x00),
            AiMode::Hand => (0x03, 0x00),
            AiMode::Group => (0x01, 0x00),
        }
    }

    /// Decode an `(m, n)` tuple; both `(3, 0)` and `(6, 0)` mean
    /// [`AiMode::Hand`], anything unmapped is an error.
    pub fn from_wire(value: (u8, u8)) -> (r: Result<AiMode, EnumDecodeError>)
        ensures
            r == ai_mode_decode(value),
    {
        let (m, n) = value;
        if m == 0x00 && n == 0x00 {
            Ok(AiMode::NoTracking)
        } else if m == 0x02 && n == 0x00 {
            Ok(AiMode::NormalTracking)
        } else if m == 0x02 && n == 0x01 {
            Ok(AiMode::UpperBody)
        } else if m == 0x02 && n == 0x02 {
            Ok(AiMode::CloseUp)
        } else if m == 0x02 && n == 0x03 {
            Ok(AiMode::Headless)
        } else if m == 0x02 && n == 0x04 {
            Ok(AiMode::LowerBody)
        } else if m == 0x05 && n == 0x00 {
            Ok(AiMode::DeskMode)
        } else if m == 0x04 && n == 0x00 {
            Ok(AiMode::Whiteboard)
        } else if (m == 0x03 || m == 0x06) && n == 0x00 {
            Ok(AiMode::Hand)
        } else if m == 0x01 && n == 0x00 {
            Ok(AiMode::Group)
        } else {
            Err(EnumDecodeError::AiMode(m, n))
        }
    }
}

impl TryFrom<(u8, u8)> for AiMode {
    type Error = EnumDecodeError;

    fn try_from(value: (u8, u8)) -> (r: Result<Self, Self::Error>) {
        AiMode::from_wire(value)
    }
}

impl vstd::std_specs::convert::TryFromSpecImpl<(u8, u8)> for AiMode {
    open spec fn obeys_try_from_spec() -> bool {
        true
    }

    open spec fn try_from_spec(v: (u8, u8)) -> Result<Self, Self::Error> {
        ai_mode_decode(v)
    }
}

/// Field of View — selector `0x06` opcode `0x04`.
#[derive(Debug, Clone, Copy, PartialEq, Eq, Structural)]
pub enum FovMode {
    /// Wide field of view (about 86 degrees).
    Wide,
    /// Normal field of view (about 78 degrees).
    Normal,
    /// Narrow field of view (about 65 degrees).
    Narrow,
}

/// Wire byte of each field-of-view setting.
pub open spec fn fov_wire(mode: FovMode) -> u8 {
    match mode {
        FovMode::Wide => 0x01,
        FovMode::Normal => 0x02,
        FovMode::Narrow => 0x03,
    }
}

/// Decoding of a field-of-view wire byte.
pub open spec fn fov_decode(value: u8) -> Result<FovMode, EnumDecodeError> {
    if value == 0x01 {
        Ok(FovMode::Wide)
    } else if value == 0x02 {
        Ok(FovMode::Normal)
    } else if value == 0x03 {
        Ok(FovMode::Narrow)
    } else {
        Err(EnumDecodeError::FovMode(value))
    }
}

impl FovMode {
    /// Wire byte for the selector-0x06 opcode-0x04 payload.
    pub fn to_wire(self) -> (r: u8)
        ensures
            r == fov_wire(self),
    {
        match self {
            FovMode::Wide => 0x01,
            FovMode::Normal => 0x02,
            FovMode::Narrow => 0x03,
        }
    }

    /// Decode a field-of-view wire byte.
    pub fn from_wire(value: u8) -> (r: Result<FovMode, EnumDecodeError>)
        ensures
            r == fov_decode(value),
    {
        if value == 0x01 {
            Ok(FovMode::Wide)
        } else if value == 0x02 {
            Ok(FovMode::Normal)
        } else if value == 0x03 {
            Ok(FovMode::Narrow)
        } else {
            Err(EnumDecodeError::FovMode(value))
        }
    }
}

impl TryFrom<u8> for FovMode {
    type Error = EnumDecodeError;

    fn try_from(value: u8) -> (r: Result<Self, Self::Error>) {
        FovMode::from_wire(value)
    }
}

impl vstd::std_specs::convert::TryFromSpecImpl<u8> for FovMode {
    open spec fn obeys_try_from_spec() -> bool {
        true
    }

    open spec fn try_from_spec(v: u8) -> Result<Self, Self::Error> {
        fov_decode(v)
    }
}

/// Auto-exposure metering style — selector `0x06` opcode `0x03`.
#[derive(Debug, Clone, Copy, PartialEq, Eq, Structural)]
pub enum FaceAeMode {
    /// Meter the whole frame.
    Global,
    /// Meter the tracked face.
    Face,
}

/// Wire byte of each metering style.
pub open spec fn face_ae_wire(mode: FaceAeMode) -> u8 {
    match mode {
        FaceAeMode::Global => 0x00,
        FaceAeMode::Face => 0x01,
    }
}

/// Decoding of a metering-style wire byte.
pub open spec fn face_ae_decode(value: u8) -> Result<FaceAeMode, EnumDecodeError> {
    if value == 0x00 {
        Ok(FaceAeMode::Global)
    } else if value == 0x01 {
        Ok(FaceAeMode::Face)
    } else {
        Err(EnumDecodeError::FaceAeMode(value))
    }
}

impl FaceAeMode {
    /// Wire byte for the selector-0x06 opcode-0x03 payload.
    pub fn to_wire(self) -> (r: u8)
        ensures
            r == face_ae_wire(self),
    {
        match self {
            FaceAeMode::Global => 0x00,
            FaceAeMode::Face => 0x01,
        }
    }

    /// Decode a metering-style wire byte.
    pub fn from_wire(value: u8) -> (r: Result<FaceAeMode, EnumDecodeError>)
        ensures
            r == face_ae_decode(value),
    {
        if value == 0x00 {
            Ok(FaceAeMode::Global)
        } else if value == 0x01 {
            Ok(FaceAeMode::Face)
        } else {
            Err(EnumDecodeError::FaceAeMode(value))
        }
    }
}

impl TryFrom<u8> for FaceAeMode {
    type Error = EnumDecodeError;

    fn try_from(value: u8) -> (r: Result<Self, Self::Error>) {
        FaceAeMode::from_wire(value)
    }
}

impl vstd::std_specs::convert::TryFromSpecImpl<u8> for FaceAeMode {
    open spec fn obeys_try_from_spec() -> bool {
        true
    }

    open spec fn try_from_spec(v: u8) -> Result<Self, Self::Error> {
        face_ae_decode(v)
    }
}

/// Exposure mode — selector `0x02` 36-byte frame.
#[derive(Debug, Clone, Copy, PartialEq, Eq, Structural)]
pub enum ExposureMode {
    /// Auto exposure — the camera meters.
    Auto,
    /// Manual exposure — exposure time is set through V4L2.
    Manual,
}

/// Sleep / Wake state — selector `0x02` frame, also status byte `0x02`.
#[derive(Debug, Clone, Copy, PartialEq, Eq, Structural)]
pub enum SleepState {
    /// Camera is awake and streaming.
    Awake,
    /// Camera is asleep.
    Sleep,
    /// Status byte held a value other than `0x00` or `0x01`.
    Unknown,
}

/// Decoding of the sleep status byte.
pub open spec fn sleep_decode(value: u8) -> SleepState {
    if value == 0x00 {
        SleepState::Awake
    } else if value == 0x01 {
        SleepState::Sleep
    } else {
        SleepState::Unknown
    }
}

impl SleepState {
    /// Decode the sleep status byte; every byte decodes.
    pub fn from_status_byte(value: u8) -> (r: SleepState)
        ensures
            r == sleep_decode(value),
    {
        if value == 0x00 {
            SleepState::Awake
        } else if value == 0x01 {
            SleepState::Sleep
        } else {
            SleepState::Unknown
        }
    }
}

impl From<u8> for SleepState {
    fn from(value: u8) -> (r: Self) {
        SleepState::from_status_byte(value)
    }
}

impl vstd::std_specs::convert::FromSpecImpl<u8> for SleepState {
    open spec fn obeys_from_spec() -> bool {
        true
    }

    open spec fn from_spec(v: u8) -> Self {
        sleep_decode(v)
    }
}

/// Tracking speed — selector `0x02` frame, also status byte `0x21`.
#[derive(Debug, Clone, Copy, PartialEq, Eq, Structural)]
pub enum TrackingSpeed {
    /// Smooth, low-acceleration tracking.
    Standard,
    /// Fast, high-acceleration tracking.
    Sport,
}

/// Decoding of the tracking-speed status byte: `0x02` is Sport, every
/// other byte (including the unmapped `0x01`) is Standard.
pub open spec fn tracking_speed_decode(byte: u8) -> TrackingSpeed {
    if byte == 0x02 {
        TrackingSpeed::Sport
    } else {
        TrackingSpeed::Standard
    }
}

impl TrackingSpeed {
    /// Default-to-Standard decode for status byte `0x21`.
    pub fn from_status_byte(byte: u8) -> (r: TrackingSpeed)
        ensures
            r == tracking_speed_decode(byte),
    {
        if byte == 0x02 {
            TrackingSpeed::Sport
        } else {
            TrackingSpeed::Standard
        }
    }
}

/// Per-enum decode failure: a status byte or `(m, n)` tuple did not
/// match any known variant.
#[derive(Debug, Clone, Copy, PartialEq, Eq, Structural)]
#[non_exhaustive]
pub enum EnumDecodeError {
    /// Bytes did not match any [`AiMode`] variant.
    AiMode(u8, u8),
    /// Byte did not match any [`FovMode`] variant.
    FovMode(u8),
    /// Byte did not match any [`FaceAeMode`] variant.
    FaceAeMode(u8),
}

/// Decoding the encoding of any AI mode gives that mode back.
pub proof fn lemma_ai_mode_round_trip(mode: AiMode)
    ensures
        ai_mode_decode(ai_mode_wire(mode)) == Ok::<AiMode, EnumDecodeError>(mode),
{
}

/// The Hand mode decodes from either `m` value, `3` or `6`.
pub proof fn lemma_ai_mode_hand_accepts_both()
    ensures
        ai_mode_decode((0x03, 0x00)) == Ok::<AiMode, EnumDecodeError>(AiMode::Hand),
        ai_mode_decode((0x06, 0x00)) == Ok::<AiMode, EnumDecodeError>(AiMode::Hand),
{
}

/// A decoded AI mode re-encodes to the bytes it came from, except that
/// the Hand mode read as `(6, 0)` re-encodes as `(3, 0)`.
pub proof fn lemma_ai_mode_decode_then_encode(value: (u8, u8))
    requires
        ai_mode_decode(value) is Ok,
    ensures
        value != (0x06u8, 0x00u8) ==> ai_mode_wire(ai_mode_decode(value)->Ok_0) == value,
        value == (0x06u8, 0x00u8) ==> ai_mode_wire(ai_mode_decode(value)->Ok_0) == (0x03u8, 0x00u8),
{
}

/// Decoding the encoding of any field-of-view setting gives it back,
/// and a byte that decodes re-encodes to itself.
pub proof fn lemma_fov_round_trip(mode: FovMode, byte: u8)
    ensures
        fov_decode(fov_wire(mode)) == Ok::<FovMode, EnumDecodeError>(mode),
        fov_decode(byte) is Ok ==> fov_wire(fov_decode(byte)->Ok_0) == byte,
{
}

/// Decoding the encoding of any metering style gives it back, and a
/// byte that decodes re-encodes to itself.
pub proof fn lemma_face_ae_round_trip(mode: FaceAeMode, byte: u8)
    ensures
        face_ae_decode(face_ae_wire(mode)) == Ok::<FaceAeMode, EnumDecodeError>(mode),
        face_ae_decode(byte) is Ok ==> face_ae_wire(face_ae_decode(byte)->Ok_0) == byte,
{
}

/// The vendor's AI-mode table: the `(m, n)` tuple each of the ten modes
/// is sent as.
pub proof fn lemma_ai_mode_vendor_table()
    ensures
        ai_mode_wire(AiMode::NoTracking) == (0x00u8, 0x00u8),
        ai_mode_wire(AiMode::NormalTracking) == (0x02u8, 0x00u8),
        ai_mode_wire(AiMode::UpperBody) == (0x02u8, 0x01u8),
        ai_mode_wire(AiMode::CloseUp) == (0x02u8, 0x02u8),
        ai_mode_wire(AiMode::Headless) == (0x02u8, 0x03u8),
        ai_mode_wire(AiMode::LowerBody) == (0x02u8, 0x04u8),
        ai_mode_wire(AiMode::DeskMode) == (0x05u8, 0x00u8),
        ai_mode_wire(AiMode::Whiteboard) == (0x04u8, 0x00u8),
        ai_mode_wire(AiMode::Hand) == (0x03u8, 0x00u8),
        ai_mode_wire(AiMode::Group) == (0x01u8, 0x00u8),
{
}

/// Reading an AI mode back: each tuple of the vendor table decodes to
/// its mode, `(6, 0)` decodes to hand mode as well, and any other tuple
/// is an error carrying that tuple.
pub proof fn lemma_ai_mode_decode_table(m: u8, n: u8)
    ensures
        ai_mode_decode((0x00, 0x00)) == Ok::<AiMode, EnumDecodeError>(AiMode::NoTracking),
        ai_mode_decode((0x02, 0x00)) == Ok::<AiMode, EnumDecodeError>(AiMode::NormalTracking),
        ai_mode_decode((0x02, 0x01)) == Ok::<AiMode, EnumDecodeError>(AiMode::UpperBody),
        ai_mode_decode((0x02, 0x02)) == Ok::<AiMode, EnumDecodeError>(AiMode::CloseUp),
        ai_mode_decode((0x02, 0x03)) == Ok::<AiMode, EnumDecodeError>(AiMode::Headless),
        ai_mode_decode((0x02, 0x04)) == Ok::<AiMode, EnumDecodeError>(AiMode::LowerBody),
        ai_mode_decode((0x05, 0x00)) == Ok::<AiMode, EnumDecodeError>(AiMode::DeskMode),
        ai_mode_decode((0x04, 0x00)) == Ok::<AiMode, EnumDecodeError>(AiMode::Whiteboard),
        ai_mode_decode((0x03, 0x00)) == Ok::<AiMode, EnumDecodeError>(AiMode::Hand),
        ai_mode_decode((0x06, 0x00)) == Ok::<AiMode, EnumDecodeError>(AiMode::Hand),
        ai_mode_decode((0x01, 0x00)) == Ok::<AiMode, EnumDecodeError>(AiMode::Group),
        !((n == 0 && m <= 6) || (m == 2 && n <= 4)) ==> ai_mode_decode((m, n)) == Err::<
            AiMode,
            EnumDecodeError,
        >(EnumDecodeError::AiMode(m, n)),
{
}

/// The vendor's field-of-view bytes: wide 86 degrees is `0x01`, normal
/// 78 degrees `0x02`, narrow 65 degrees `0x03`; reading back accepts
/// exactly those bytes and reports any other as an error carrying it.
pub proof fn lemma_fov_vendor_table(b: u8)
    ensures
        fov_wire(FovMode::Wide) == 0x01u8,
        fov_wire(FovMode::Normal) == 0x02u8,
        fov_wire(FovMode::Narrow) == 0x03u8,
        fov_decode(0x01) == Ok::<FovMode, EnumDecodeError>(FovMode::Wide),
        fov_decode(0x02) == Ok::<FovMode, EnumDecodeError>(FovMode::Normal),
        fov_decode(0x03) == Ok::<FovMode, EnumDecodeError>(FovMode::Narrow),
        !(1 <= b <= 3) ==> fov_decode(b) == Err::<FovMode, EnumDecodeError>(
            EnumDecodeError::FovMode(b),
        ),
{
}

/// The vendor's face auto-exposure bytes: global metering is `0x00`,
/// face-weighted `0x01`; any other byte reads back as an error
/// carrying it.
pub proof fn lemma_face_ae_vendor_table(b: u8)
    ensures
        face_ae_wire(FaceAeMode::Global) == 0x00u8,
        face_ae_wire(FaceAeMode::Face) == 0x01u8,
        face_ae_decode(0x00) == Ok::<FaceAeMode, EnumDecodeError>(FaceAeMode::Global),
        face_ae_decode(0x01) == Ok::<FaceAeMode, EnumDecodeError>(FaceAeMode::Face),
        b > 1 ==> face_ae_decode(b) == Err::<FaceAeMode, EnumDecodeError>(
            EnumDecodeError::FaceAeMode(b),
        ),
{
}

/// The status bytes of the sleep state and the tracking speed: `0x00`
/// is awake and `0x01` asleep, anything else unknown; `0x02` is the
/// sport speed and every other byte the standard one.
pub proof fn lemma_status_byte_tables(b: u8)
    ensures
        (sleep_decode(b) == SleepState::Awake) <==> b == 0x00,
        (sleep_decode(b) == SleepState::Sleep) <==> b == 0x01,
        (sleep_decode(b) == SleepState::Unknown) <==> b > 0x01,
        (tracking_speed_decode(b) == TrackingSpeed::Sport) <==> b == 0x02,
        (tracking_speed_decode(b) == TrackingSpeed::Standard) <==> b != 0x02,
{
}

} // verus!

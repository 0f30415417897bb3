use obsbot_core::xu::commands::{ai_mode, hdr, sleep, tracking_speed};
use obsbot_core::xu::enums::{AiMode, SleepState, TrackingSpeed};
use obsbot_core::xu::errors::XuError;
use obsbot_core::xu::status::{
    Status, STATUS_LEN, STATUS_OFFSET_AI_M, STATUS_OFFSET_AI_N, STATUS_OFFSET_HDR,
    STATUS_OFFSET_SLEEP, STATUS_OFFSET_TRACKING_SPEED,
};

const FIXTURE_AWAKE_HDR_UPPERBODY_SPORT: [u8; STATUS_LEN] = [
    0x27, 0x00, 0x00, 0x01, 0x42, 0x00, 0x01, 0x01, 0x01, 0x01, 0x88, 0xff, 0x00, 0x00, 0x01, 0x00,
    0x00, 0x03, 0x00, 0x00, 0x01, 0x00, 0x21, 0x00, 0x02, 0x01, 0x03, 0x00, 0x01, 0x00, 0x00, 0x1e,
    0x00, 0x02, 0x00, 0x00, 0x00, 0x00, 0x00, 0x00, 0x00, 0x00, 0x00, 0x00, 0x00, 0x00, 0x00, 0x00,
    0x00, 0x00, 0x00, 0x00, 0x00, 0x00, 0x00, 0x00, 0x00, 0x00, 0x00, 0x00,
];

#[test]
fn decodes_tiny4linux_fixture_vector() {
    let status = Status::decode(FIXTURE_AWAKE_HDR_UPPERBODY_SPORT).unwrap();
    assert_eq!(status.sleep, SleepState::Awake);
    assert!(status.hdr_on);
    assert_eq!(status.ai_mode, AiMode::UpperBody);
    assert_eq!(status.tracking_speed, TrackingSpeed::Sport);
    assert_eq!(status.raw, FIXTURE_AWAKE_HDR_UPPERBODY_SPORT);
}

#[test]
fn permissive_hdr_decode() {
    let mut buf = [0u8; STATUS_LEN];
    buf[STATUS_OFFSET_HDR] = 0x02;
    let status = Status::decode(buf).unwrap();
    assert!(status.hdr_on);
}

#[test]
fn unknown_ai_mode_tuple_fails_decode() {
    let mut buf = [0u8; STATUS_LEN];
    buf[STATUS_OFFSET_AI_M] = 0x77;
    buf[STATUS_OFFSET_AI_N] = 0x88;
    let err = Status::decode(buf).unwrap_err();
    assert!(matches!(err, XuError::Decode(_)));
}

#[test]
fn q4_hand_decodes_from_either_m_value() {
    let mut buf_m6 = [0u8; STATUS_LEN];
    buf_m6[STATUS_OFFSET_AI_M] = 0x06;
    buf_m6[STATUS_OFFSET_AI_N] = 0x00;
    assert_eq!(Status::decode(buf_m6).unwrap().ai_mode, AiMode::Hand);

    let mut buf_m3 = [0u8; STATUS_LEN];
    buf_m3[STATUS_OFFSET_AI_M] = 0x03;
    buf_m3[STATUS_OFFSET_AI_N] = 0x00;
    assert_eq!(Status::decode(buf_m3).unwrap().ai_mode, AiMode::Hand);
}

#[test]
fn offsets_match_protocol_md() {
    assert_eq!(STATUS_OFFSET_SLEEP, 0x02);
    assert_eq!(STATUS_OFFSET_HDR, 0x06);
    assert_eq!(STATUS_OFFSET_AI_M, 0x18);
    assert_eq!(STATUS_OFFSET_AI_N, 0x1c);
    assert_eq!(STATUS_OFFSET_TRACKING_SPEED, 0x21);
    assert_eq!(STATUS_LEN, 60);
}

#[test]
fn all_zero_status_decodes_to_defaults() {
    let status = Status::decode([0u8; STATUS_LEN]).unwrap();
    assert_eq!(status.sleep, SleepState::Awake);
    assert!(!status.hdr_on);
    assert_eq!(status.ai_mode, AiMode::NoTracking);
    assert_eq!(status.tracking_speed, TrackingSpeed::Standard);
}

#[test]
fn decode_failure_carries_the_tuple() {
    let mut buf = [0u8; STATUS_LEN];
    buf[STATUS_OFFSET_AI_M] = 0x02;
    buf[STATUS_OFFSET_AI_N] = 0x09;
    match Status::decode(buf) {
        Err(XuError::Decode(e)) => {
            assert_eq!(e, obsbot_core::xu::enums::EnumDecodeError::AiMode(0x02, 0x09))
        }
        other => panic!("unexpected {other:?}"),
    }
}

#[test]
fn unknown_sleep_byte_and_sport_byte_decode() {
    let mut buf = [0u8; STATUS_LEN];
    buf[STATUS_OFFSET_SLEEP] = 0x05;
    buf[STATUS_OFFSET_TRACKING_SPEED] = 0x02;
    let status = Status::decode(buf).unwrap();
    assert_eq!(status.sleep, SleepState::Unknown);
    assert_eq!(status.tracking_speed, TrackingSpeed::Sport);
}

#[test]
fn commanded_values_read_back_through_the_status() {
    for mode in [AiMode::UpperBody, AiMode::Hand, AiMode::Group] {
        let p = ai_mode::payload(mode);
        let mut buf = [0u8; STATUS_LEN];
        buf[STATUS_OFFSET_AI_M] = p[2];
        buf[STATUS_OFFSET_AI_N] = p[3];
        assert_eq!(Status::decode(buf).unwrap().ai_mode, mode);
    }
    for on in [false, true] {
        let mut buf = [0u8; STATUS_LEN];
        buf[STATUS_OFFSET_HDR] = hdr::payload(on)[2];
        assert_eq!(Status::decode(buf).unwrap().hdr_on, on);
    }
    for speed in [TrackingSpeed::Standard, TrackingSpeed::Sport] {
        let mut buf = [0u8; STATUS_LEN];
        buf[STATUS_OFFSET_TRACKING_SPEED] = tracking_speed::payload(speed)[16];
        assert_eq!(Status::decode(buf).unwrap().tracking_speed, speed);
    }
    for state in [SleepState::Awake, SleepState::Sleep] {
        let mut buf = [0u8; STATUS_LEN];
        buf[STATUS_OFFSET_SLEEP] = sleep::payload(state).unwrap()[16];
        assert_eq!(Status::decode(buf).unwrap().sleep, state);
    }
}

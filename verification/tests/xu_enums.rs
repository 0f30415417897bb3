use obsbot_core::xu::enums::{
    AiMode, EnumDecodeError, FaceAeMode, FovMode, SleepState, TrackingSpeed,
};

#[test]
fn ai_mode_round_trip_for_unambiguous_variants() {
    for mode in [
        AiMode::NoTracking,
        AiMode::NormalTracking,
        AiMode::UpperBody,
        AiMode::CloseUp,
        AiMode::Headless,
        AiMode::LowerBody,
        AiMode::DeskMode,
        AiMode::Whiteboard,
        AiMode::Group,
    ] {
        let wire = mode.to_wire();
        let decoded = AiMode::try_from(wire).expect("variant decodes");
        assert_eq!(mode, decoded, "round-trip for {mode:?} wire={wire:?}");
    }
}

#[test]
fn q4_hand_decoder_accepts_both_m3_and_m6() {
    assert_eq!(AiMode::try_from((0x03, 0x00)).unwrap(), AiMode::Hand);
    assert_eq!(AiMode::try_from((0x06, 0x00)).unwrap(), AiMode::Hand);
    assert_eq!(AiMode::Hand.to_wire(), (0x03, 0x00));
}

#[test]
fn ai_mode_unknown_tuple_errors() {
    let err = AiMode::try_from((0x77, 0x77)).unwrap_err();
    assert!(matches!(err, EnumDecodeError::AiMode(0x77, 0x77)));
}

#[test]
fn fov_mode_round_trip() {
    for mode in [FovMode::Wide, FovMode::Normal, FovMode::Narrow] {
        assert_eq!(FovMode::try_from(mode.to_wire()).unwrap(), mode);
    }
    assert!(FovMode::try_from(0x00).is_err());
    assert!(FovMode::try_from(0x04).is_err());
}

#[test]
fn face_ae_round_trip() {
    for mode in [FaceAeMode::Global, FaceAeMode::Face] {
        assert_eq!(FaceAeMode::try_from(mode.to_wire()).unwrap(), mode);
    }
    assert!(FaceAeMode::try_from(0x02).is_err());
}

#[test]
fn sleep_state_decode() {
    assert_eq!(SleepState::from(0x00), SleepState::Awake);
    assert_eq!(SleepState::from(0x01), SleepState::Sleep);
    assert_eq!(SleepState::from(0x99), SleepState::Unknown);
}

#[test]
fn tracking_speed_q6_gap_defaults_to_standard() {
    assert_eq!(
        TrackingSpeed::from_status_byte(0x00),
        TrackingSpeed::Standard
    );
    assert_eq!(TrackingSpeed::from_status_byte(0x02), TrackingSpeed::Sport);
    assert_eq!(
        TrackingSpeed::from_status_byte(0x01),
        TrackingSpeed::Standard
    );
    assert_eq!(
        TrackingSpeed::from_status_byte(0xff),
        TrackingSpeed::Standard
    );
}

#[test]
fn hand_round_trips_through_its_encoding() {
    // The encoder writes (3, 0) and the decoder maps it back to Hand.
    assert_eq!(AiMode::from_wire(AiMode::Hand.to_wire()), Ok(AiMode::Hand));
}

#[test]
fn every_ai_mode_tuple_is_distinct() {
    let all = [
        AiMode::NoTracking,
        AiMode::NormalTracking,
        AiMode::UpperBody,
        AiMode::CloseUp,
        AiMode::Headless,
        AiMode::LowerBody,
        AiMode::DeskMode,
        AiMode::Whiteboard,
        AiMode::Hand,
        AiMode::Group,
    ];
    for (i, a) in all.iter().enumerate() {
        for b in all.iter().skip(i + 1) {
            assert_ne!(a.to_wire(), b.to_wire());
        }
    }
}

#[test]
fn unknown_fov_and_face_ae_bytes_carry_the_byte() {
    assert_eq!(FovMode::try_from(0x09), Err(EnumDecodeError::FovMode(0x09)));
    assert_eq!(
        FaceAeMode::try_from(0x05),
        Err(EnumDecodeError::FaceAeMode(0x05))
    );
}

#[test]
fn exact_wire_bytes() {
    assert_eq!(FovMode::Wide.to_wire(), 0x01);
    assert_eq!(FovMode::Narrow.to_wire(), 0x03);
    assert_eq!(FaceAeMode::Face.to_wire(), 0x01);
    assert_eq!(AiMode::LowerBody.to_wire(), (0x02, 0x04));
    assert_eq!(AiMode::DeskMode.to_wire(), (0x05, 0x00));
    assert_eq!(AiMode::Whiteboard.to_wire(), (0x04, 0x00));
}

#[test]
fn decode_error_messages() {
    assert_eq!(
        EnumDecodeError::AiMode(0x77, 0x8).message(),
        "unknown AiMode tuple (m, n) = (0x77, 0x8)"
    );
    assert_eq!(
        EnumDecodeError::FovMode(0).message(),
        "unknown FovMode byte 0x0"
    );
    assert_eq!(
        EnumDecodeError::FaceAeMode(0xff).message(),
        "unknown FaceAeMode byte 0xff"
    );
}

use obsbot_core::xu::command02::{build, PRESET_RECALL_APPENDIX};
use obsbot_core::xu::commands::{
    ai_mode, exposure_mode_type, face_ae, fov, gesture, hdr, preset, sleep, tracking_speed,
};
use obsbot_core::xu::enums::{AiMode, ExposureMode, FaceAeMode, FovMode, SleepState, TrackingSpeed};
use obsbot_core::xu::errors::XuError;
use gesture::Gesture;

#[test]
fn zero_appendix_default_matches_explicit_zeros() {
    let with_default = build(
        [0x0a, 0x02, 0x82, 0x29, 0x05, 0x00],
        [0x15, 0x00],
        [0xa8, 0x9e],
        [0xf9, 0x27, 0x01, 0x32, 0x00, 0x00],
        None,
    );
    let with_explicit_zeros = build(
        [0x0a, 0x02, 0x82, 0x29, 0x05, 0x00],
        [0x15, 0x00],
        [0xa8, 0x9e],
        [0xf9, 0x27, 0x01, 0x32, 0x00, 0x00],
        Some([0u8; 16]),
    );
    assert_eq!(with_default, with_explicit_zeros);
}

#[test]
fn frame_leader_and_segment_size_are_fixed() {
    let f = build([0; 6], [0xab, 0xcd], [0xef, 0x01], [0; 6], None);
    assert_eq!(&f[0..2], &[0xaa, 0x25]);
    assert_eq!(&f[2..4], &[0xab, 0xcd]);
    assert_eq!(&f[4..6], &[0x0c, 0x00]);
    assert_eq!(&f[6..8], &[0xef, 0x01]);
}

#[test]
fn preset_recall_appendix_is_four_ones() {
    for chunk in PRESET_RECALL_APPENDIX.chunks(4) {
        let arr: [u8; 4] = chunk.try_into().unwrap();
        assert!((f32::from_le_bytes(arr) - 1.0).abs() < f32::EPSILON);
    }
    assert_eq!(
        PRESET_RECALL_APPENDIX,
        [
            0x00, 0x00, 0x80, 0x3f, 0x00, 0x00, 0x80, 0x3f, 0x00, 0x00, 0x80, 0x3f, 0x00, 0x00,
            0x80, 0x3f,
        ]
    );
}

#[test]
fn build_places_every_field() {
    let f = build(
        [1, 2, 3, 4, 5, 6],
        [7, 8],
        [9, 10],
        [11, 12, 13, 14, 15, 16],
        Some([17, 18, 19, 20, 21, 22, 23, 24, 25, 26, 27, 28, 29, 30, 31, 32]),
    );
    assert_eq!(
        f,
        [
            0xaa, 0x25, 7, 8, 0x0c, 0x00, 9, 10, 1, 2, 3, 4, 5, 6, 11, 12, 13, 14, 15, 16, 17, 18,
            19, 20, 21, 22, 23, 24, 25, 26, 27, 28, 29, 30, 31, 32,
        ]
    );
}

#[test]
fn payload_no_tracking() {
    assert_eq!(ai_mode::payload(AiMode::NoTracking), [0x16, 0x02, 0x00, 0x00]);
}

#[test]
fn payload_upper_body() {
    assert_eq!(ai_mode::payload(AiMode::UpperBody), [0x16, 0x02, 0x02, 0x01]);
}

#[test]
fn payload_group() {
    assert_eq!(ai_mode::payload(AiMode::Group), [0x16, 0x02, 0x01, 0x00]);
}

#[test]
fn q4_payload_hand_mirrors_cgevans_setter() {
    assert_eq!(ai_mode::payload(AiMode::Hand), [0x16, 0x02, 0x03, 0x00]);
}

const CGEVANS_AUTO_18B: [u8; 18] = [
    0xaa, 0x25, 0x15, 0x00, 0x0c, 0x00, 0xa8, 0x9e, 0x0a, 0x02, 0x82, 0x29, 0x05, 0x00, 0xf9, 0x27,
    0x01, 0x32,
];

const CGEVANS_MANUAL_18B: [u8; 18] = [
    0xaa, 0x25, 0x16, 0x00, 0x0c, 0x00, 0x58, 0x91, 0x0a, 0x02, 0x82, 0x29, 0x05, 0x00, 0xb2, 0xaf,
    0x02, 0x04,
];

#[test]
fn auto_payload_first_18_bytes_match_cgevans() {
    let frame = exposure_mode_type::payload(ExposureMode::Auto);
    assert_eq!(&frame[0..18], &CGEVANS_AUTO_18B);
    assert_eq!(&frame[18..20], &[0x00, 0x00]);
    assert_eq!(&frame[20..36], &[0u8; 16]);
}

#[test]
fn manual_payload_first_18_bytes_match_cgevans() {
    let frame = exposure_mode_type::payload(ExposureMode::Manual);
    assert_eq!(&frame[0..18], &CGEVANS_MANUAL_18B);
    assert_eq!(&frame[18..20], &[0x00, 0x00]);
    assert_eq!(&frame[20..36], &[0u8; 16]);
}

#[test]
fn payload_global() {
    assert_eq!(face_ae::payload(FaceAeMode::Global), [0x03, 0x01, 0x00]);
}

#[test]
fn payload_face() {
    assert_eq!(face_ae::payload(FaceAeMode::Face), [0x03, 0x01, 0x01]);
}

#[test]
fn payloads() {
    assert_eq!(fov::payload(FovMode::Wide), [0x04, 0x01, 0x01]);
    assert_eq!(fov::payload(FovMode::Normal), [0x04, 0x01, 0x02]);
    assert_eq!(fov::payload(FovMode::Narrow), [0x04, 0x01, 0x03]);
}

#[test]
fn frames_match_the_capture() {
    let cases: [(Gesture, bool, [u8; 20]); 8] = [
        (
            Gesture::TargetSelection,
            false,
            [
                0xaa, 0x25, 0x08, 0x00, 0x0c, 0x00, 0x2b, 0x5a, 0x0a, 0x04, 0xc4, 0x30, 0x01, 0x00,
                0xe6, 0x3f, 0x00, 0x00, 0x00, 0x00,
            ],
        ),
        (
            Gesture::TargetSelection,
            true,
            [
                0xaa, 0x25, 0x09, 0x00, 0x0c, 0x00, 0x7a, 0x9f, 0x0a, 0x04, 0xc4, 0x30, 0x01, 0x00,
                0x27, 0xff, 0x01, 0x00, 0x00, 0x00,
            ],
        ),
        (
            Gesture::Zoom,
            false,
            [
                0xaa, 0x25, 0x0a, 0x00, 0x0c, 0x00, 0x2a, 0x90, 0x0a, 0x04, 0x44, 0x31, 0x01, 0x00,
                0xe6, 0x3f, 0x00, 0x00, 0x00, 0x00,
            ],
        ),
        (
            Gesture::Zoom,
            true,
            [
                0xaa, 0x25, 0x0b, 0x00, 0x0c, 0x00, 0x7b, 0x55, 0x0a, 0x04, 0x44, 0x31, 0x01, 0x00,
                0x27, 0xff, 0x01, 0x00, 0x00, 0x00,
            ],
        ),
        (
            Gesture::DynamicZoom,
            false,
            [
                0xaa, 0x25, 0x0c, 0x00, 0x0c, 0x00, 0x4b, 0x4e, 0x0a, 0x04, 0x44, 0x33, 0x01, 0x00,
                0xe6, 0x3f, 0x00, 0x00, 0x00, 0x00,
            ],
        ),
        (
            Gesture::DynamicZoom,
            true,
            [
                0xaa, 0x25, 0x0d, 0x00, 0x0c, 0x00, 0x1a, 0x8b, 0x0a, 0x04, 0x44, 0x33, 0x01, 0x00,
                0x27, 0xff, 0x01, 0x00, 0x00, 0x00,
            ],
        ),
        (
            Gesture::DynamicZoomDirection,
            false,
            [
                0xaa, 0x25, 0x0e, 0x00, 0x0c, 0x00, 0x8b, 0x44, 0x0a, 0x04, 0xc4, 0x33, 0x01, 0x00,
                0xe6, 0x3f, 0x00, 0x00, 0x00, 0x00,
            ],
        ),
        (
            Gesture::DynamicZoomDirection,
            true,
            [
                0xaa, 0x25, 0x0f, 0x00, 0x0c, 0x00, 0xda, 0x81, 0x0a, 0x04, 0xc4, 0x33, 0x01, 0x00,
                0x27, 0xff, 0x01, 0x00, 0x00, 0x00,
            ],
        ),
    ];
    for (gesture, on, expected) in cases {
        let frame = gesture::payload(gesture, on);
        assert_eq!(
            &frame[..20],
            &expected[..],
            "frame for {gesture:?} on={on} does not match the capture",
        );
        assert_eq!(&frame[20..], &[0u8; 16], "appendix must stay zero");
    }
}

#[test]
fn the_value_lives_in_the_third_command_byte() {
    for g in [
        Gesture::TargetSelection,
        Gesture::Zoom,
        Gesture::DynamicZoom,
        Gesture::DynamicZoomDirection,
    ] {
        assert_eq!(gesture::payload(g, false)[16], 0x00);
        assert_eq!(gesture::payload(g, true)[16], 0x01);
    }
}

#[test]
fn each_gesture_has_its_own_function_group() {
    let groups = [
        Gesture::TargetSelection.function_group(),
        Gesture::Zoom.function_group(),
        Gesture::DynamicZoom.function_group(),
        Gesture::DynamicZoomDirection.function_group(),
    ];
    for (i, a) in groups.iter().enumerate() {
        for b in groups.iter().skip(i + 1) {
            assert_ne!(a, b, "two gestures share a function group");
        }
    }
}

#[test]
fn gesture_seq_and_checksum_pairs() {
    assert_eq!(
        Gesture::Zoom.seq_and_checksum(false),
        ([0x0a, 0x00], [0x2a, 0x90])
    );
    assert_eq!(
        Gesture::DynamicZoomDirection.seq_and_checksum(true),
        ([0x0f, 0x00], [0xda, 0x81])
    );
}

#[test]
fn payload_off() {
    assert_eq!(hdr::payload(false), [0x01, 0x01, 0x00]);
}

#[test]
fn payload_on() {
    assert_eq!(hdr::payload(true), [0x01, 0x01, 0x01]);
}

#[test]
fn payload_preset_1_matches_tiny4linux() {
    let frame = preset::payload(0).unwrap();
    assert_eq!(&frame[0..2], &[0xaa, 0x25]);
    assert_eq!(&frame[2..4], &[0x20, 0x00]);
    assert_eq!(&frame[6..8], &[0x6b, 0xdc]);
    assert_eq!(&frame[8..14], &[0x0a, 0x04, 0xc4, 0x39, 0x14, 0x00]);
    assert_eq!(&frame[14..20], &[0xd6, 0xfb, 0x00, 0x00, 0x00, 0x00]);
    assert_eq!(&frame[20..36], &PRESET_RECALL_APPENDIX);
}

#[test]
fn payload_preset_2_seq_and_cks() {
    let frame = preset::payload(1).unwrap();
    assert_eq!(&frame[2..4], &[0x1a, 0x00]);
    assert_eq!(&frame[6..8], &[0x4b, 0x03]);
    assert_eq!(&frame[14..20], &[0xeb, 0x2a, 0x01, 0x00, 0x00, 0x00]);
}

#[test]
fn payload_preset_3_seq_and_cks() {
    let frame = preset::payload(2).unwrap();
    assert_eq!(&frame[2..4], &[0x26, 0x00]);
    assert_eq!(&frame[6..8], &[0x8b, 0xc3]);
    assert_eq!(&frame[14..20], &[0xaf, 0x19, 0x02, 0x00, 0x00, 0x00]);
}

#[test]
fn negative_index_rejected() {
    let err = preset::payload(-1).unwrap_err();
    assert!(matches!(err, XuError::InvalidPresetIndex(-1)));
}

#[test]
fn index_3_rejected() {
    let err = preset::payload(3).unwrap_err();
    assert!(matches!(err, XuError::InvalidPresetIndex(3)));
}

#[test]
fn extreme_preset_indices_rejected() {
    assert!(matches!(
        preset::payload(i8::MIN).unwrap_err(),
        XuError::InvalidPresetIndex(-128)
    ));
    assert!(matches!(
        preset::payload(i8::MAX).unwrap_err(),
        XuError::InvalidPresetIndex(127)
    ));
}

#[test]
fn payload_awake_matches_tiny4linux() {
    let frame = sleep::payload(SleepState::Awake).unwrap();
    assert_eq!(
        frame,
        [
            0xaa, 0x25, 0xa5, 0x00, 0x0c, 0x00, 0x5f, 0xef, 0x0a, 0x02, 0xc2, 0xa0, 0x04, 0x00,
            0xbe, 0x07, 0x00, 0x00, 0x00, 0x00, 0x00, 0x00, 0x00, 0x00, 0x00, 0x00, 0x00, 0x00,
            0x00, 0x00, 0x00, 0x00, 0x00, 0x00, 0x00, 0x00,
        ]
    );
}

#[test]
fn payload_sleep_matches_tiny4linux() {
    let frame = sleep::payload(SleepState::Sleep).unwrap();
    assert_eq!(
        frame,
        [
            0xaa, 0x25, 0x42, 0x00, 0x0c, 0x00, 0xea, 0x63, 0x0a, 0x02, 0xc2, 0xa0, 0x04, 0x00,
            0xbf, 0xfb, 0x01, 0x00, 0x00, 0x00, 0x00, 0x00, 0x00, 0x00, 0x00, 0x00, 0x00, 0x00,
            0x00, 0x00, 0x00, 0x00, 0x00, 0x00, 0x00, 0x00,
        ]
    );
}

#[test]
fn payload_unknown_is_rejected() {
    let err = sleep::payload(SleepState::Unknown).unwrap_err();
    assert!(matches!(err, XuError::Io(_)));
}

#[test]
fn unknown_sleep_state_is_an_invalid_input_error() {
    match sleep::payload(SleepState::Unknown) {
        Err(XuError::Io(e)) => assert_eq!(e.kind(), std::io::ErrorKind::InvalidInput),
        other => panic!("unexpected {other:?}"),
    }
}

#[test]
fn payload_standard_matches_tiny4linux() {
    let frame = tracking_speed::payload(TrackingSpeed::Standard);
    assert_eq!(
        frame,
        [
            0xaa, 0x25, 0x20, 0x00, 0x0c, 0x00, 0xab, 0xcb, 0x0a, 0x04, 0xc4, 0x0c, 0x01, 0x00,
            0xe6, 0x3f, 0x00, 0x00, 0x00, 0x00, 0x00, 0x00, 0x00, 0x00, 0x00, 0x00, 0x00, 0x00,
            0x00, 0x00, 0x00, 0x00, 0x00, 0x00, 0x00, 0x00,
        ]
    );
}

#[test]
fn payload_sport_matches_tiny4linux() {
    let frame = tracking_speed::payload(TrackingSpeed::Sport);
    assert_eq!(
        frame,
        [
            0xaa, 0x25, 0x21, 0x00, 0x0c, 0x00, 0xfa, 0x0e, 0x0a, 0x04, 0xc4, 0x0c, 0x01, 0x00,
            0x67, 0xfe, 0x02, 0x00, 0x00, 0x00, 0x00, 0x00, 0x00, 0x00, 0x00, 0x00, 0x00, 0x00,
            0x00, 0x00, 0x00, 0x00, 0x00, 0x00, 0x00, 0x00,
        ]
    );
}

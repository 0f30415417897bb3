use obsbot_core::gui::controls_view::{
    clamp_i64_to_i32, control_section, replay_value, restore_plan, sanitize_integer, Section,
};
use obsbot_core::gui::ptz_pad::{
    axis_step, clamp_i32, find_bool, find_int, key_action, pad_ranges, CID_ZOOM_ABSOLUTE, next_position, restore_target,
    slider_action, watchdog_tick, IntRange, KeyAction, PadKey, SliderAction, CID_FOCUS_ABSOLUTE,
    CID_FOCUS_AUTOMATIC_CONTINUOUS, CID_PAN_ABSOLUTE, CID_TILT_ABSOLUTE, PAD_DIRECTIONS,
    PAN_TILT_STEP, PTZ_PAD_IDS,
};
use obsbot_core::gui::settings::{
    dict_key, key_control_name, persisted_value, saved_for_camera, KEY_SEP,
};
use obsbot_core::gui::window::{camera_key, camera_label, disconnected, reselect, selector_visible};
use obsbot_core::controls::classify;
use obsbot_core::{CameraInfo, ControlClass, ControlDescriptor, ControlKind, ControlValue};

const PAN_MIN: i64 = -468_000;
const PAN_MAX: i64 = 468_000;
const PAN_STEP: u64 = 3600;
const PAN_STEP_SIGNED: i64 = 3600;

#[test]
fn in_range_aligned_value_passes_through() {
    assert_eq!(
        sanitize_integer(18_000, PAN_MIN, PAN_MAX, PAN_STEP),
        Some(18_000)
    );
    assert_eq!(sanitize_integer(0, PAN_MIN, PAN_MAX, PAN_STEP), Some(0));
}

#[test]
fn out_of_range_is_clamped() {
    assert_eq!(
        sanitize_integer(2_000_000, PAN_MIN, PAN_MAX, PAN_STEP),
        Some(PAN_MAX)
    );
    assert_eq!(
        sanitize_integer(-2_000_000, PAN_MIN, PAN_MAX, PAN_STEP),
        Some(PAN_MIN)
    );
}

#[test]
fn misaligned_value_snaps_down_to_the_grid() {
    let got = sanitize_integer(18_500, PAN_MIN, PAN_MAX, PAN_STEP).unwrap();
    assert_eq!((got - PAN_MIN) % PAN_STEP_SIGNED, 0);
    assert!(got <= 18_500 && got > 18_500 - PAN_STEP_SIGNED);
}

#[test]
fn step_of_one_leaves_the_value_alone() {
    assert_eq!(sanitize_integer(37, 0, 100, 1), Some(37));
    assert_eq!(sanitize_integer(999, 0, 100, 1), Some(100));
}

#[test]
fn zero_step_is_treated_as_one() {
    assert_eq!(sanitize_integer(37, 0, 100, 0), Some(37));
}

#[test]
fn contradictory_descriptor_is_skipped() {
    assert_eq!(sanitize_integer(10, 100, 0, 1), None);
}

#[test]
fn result_always_lands_inside_the_advertised_range() {
    for v in [i64::MIN, -1, 0, 1, 12_345, i64::MAX] {
        let got = sanitize_integer(v, PAN_MIN, PAN_MAX, PAN_STEP).unwrap();
        assert!(
            (PAN_MIN..=PAN_MAX).contains(&got),
            "{v} produced {got}, outside [{PAN_MIN}, {PAN_MAX}]"
        );
    }
}

#[test]
fn grid_is_anchored_at_min_and_oversized_steps_count_as_one() {
    assert_eq!(sanitize_integer(10, 3, 20, 4), Some(7));
    assert_eq!(sanitize_integer(20, 3, 20, 4), Some(19));
    assert_eq!(sanitize_integer(5, 0, 10, u64::MAX), Some(5));
    // Sanitizing twice gives the same value.
    let once = sanitize_integer(18_500, PAN_MIN, PAN_MAX, PAN_STEP).unwrap();
    assert_eq!(sanitize_integer(once, PAN_MIN, PAN_MAX, PAN_STEP), Some(once));
}

const MIN: i64 = -468_000;
const MAX: i64 = 468_000;
const STEP: i64 = 18_000;

#[test]
fn steps_positive_and_negative() {
    assert_eq!(next_position(0, 1, STEP, MIN, MAX), STEP);
    assert_eq!(next_position(0, -1, STEP, MIN, MAX), -STEP);
    assert_eq!(next_position(STEP, 1, STEP, MIN, MAX), 2 * STEP);
}

#[test]
fn clamps_to_max() {
    assert_eq!(next_position(MAX - 1, 1, STEP, MIN, MAX), MAX);
    assert_eq!(next_position(MAX, 1, STEP, MIN, MAX), MAX);
}

#[test]
fn clamps_to_min() {
    assert_eq!(next_position(MIN + 1, -1, STEP, MIN, MAX), MIN);
    assert_eq!(next_position(MIN, -1, STEP, MIN, MAX), MIN);
}

#[test]
fn zero_sign_is_a_noop() {
    assert_eq!(next_position(1234, 0, STEP, MIN, MAX), 1234);
}

#[test]
fn pad_step_is_five_degrees() {
    assert_eq!(PAN_TILT_STEP, 18_000);
}

#[test]
fn released_lock_never_writes() {
    assert_eq!(restore_target(Some(40), None), None);
    assert_eq!(restore_target(Some(100), None), None);
}

#[test]
fn drifted_zoom_is_pulled_back_to_the_pinned_value() {
    assert_eq!(restore_target(Some(90), Some(40)), Some(40));
    assert_eq!(restore_target(Some(0), Some(40)), Some(40));
}

#[test]
fn zoom_already_at_the_pinned_value_writes_nothing() {
    assert_eq!(restore_target(Some(40), Some(40)), None);
    assert_eq!(restore_target(Some(0), Some(0)), None);
    assert_eq!(restore_target(Some(100), Some(100)), None);
}

#[test]
fn failed_read_writes_nothing() {
    assert_eq!(restore_target(None, Some(40)), None);
    assert_eq!(restore_target(None, None), None);
}

#[test]
fn dict_key_separates_serial_and_name() {
    let k = dict_key("Tiny2L:00:11:22", "Power Line Frequency");
    assert!(k.starts_with("Tiny2L:00:11:22\x1f"));
    let (serial, name) = k.split_once(KEY_SEP).unwrap();
    assert_eq!(serial, "Tiny2L:00:11:22");
    assert_eq!(name, "Power Line Frequency");
}

#[test]
fn keys_read_back_only_for_their_camera() {
    let k = dict_key("Tiny2L:00:11:22", "Brightness");
    assert_eq!(key_control_name(&k, "Tiny2L:00:11:22").as_deref(), Some("Brightness"));
    assert_eq!(key_control_name(&k, "Tiny2L:00:11"), None);
    assert_eq!(key_control_name(&k, "Tiny2L:00:11:22:33"), None);
    assert_eq!(key_control_name(&k, ""), None);
    assert_eq!(key_control_name(&dict_key("", "Hue"), "").as_deref(), Some("Hue"));
}

#[test]
fn persisted_values_saturate() {
    assert_eq!(persisted_value(ControlValue::Integer(75)), 75);
    assert_eq!(persisted_value(ControlValue::Integer(i64::MAX)), i32::MAX);
    assert_eq!(persisted_value(ControlValue::Integer(i64::MIN)), i32::MIN);
    assert_eq!(persisted_value(ControlValue::Boolean(true)), 1);
    assert_eq!(persisted_value(ControlValue::Boolean(false)), 0);
    assert_eq!(clamp_i64_to_i32(-5), -5);
    assert_eq!(clamp_i64_to_i32(1 << 40), i32::MAX);
}

fn cam(pid: u16, serial: Option<&str>, product: &str) -> CameraInfo {
    CameraInfo {
        vendor: "Remo".into(),
        product: product.into(),
        vid: 0x3564,
        pid,
        serial: serial.map(str::to_string),
        firmware: None,
        video_path: Some("/dev/video0".into()),
    }
}

#[test]
fn disconnected_cameras_are_those_gone_from_the_new_list() {
    let a = cam(0xfef9, None, "Lite");
    let b = cam(0xfef8, Some("S1"), "Regular 1");
    let c = cam(0xfef8, Some("S2"), "Regular 2");
    let prev = vec![a.clone(), b.clone(), c.clone()];
    assert_eq!(disconnected(&prev, &[b.clone()]), vec![0, 2]);
    assert_eq!(disconnected(&prev, &prev), Vec::<usize>::new());
    assert_eq!(disconnected(&prev, &[]), vec![0, 1, 2]);
    assert_eq!(camera_key(&b), (0x3564, 0xfef8, Some("S1".to_string())));
    assert_eq!(camera_label(&c), "Regular 2");
}

#[test]
fn arrow_keys_step_and_home_recenters() {
    assert_eq!(key_action(PadKey::Left, false), KeyAction::Step { dx: -1, dy: 0 });
    assert_eq!(key_action(PadKey::Right, false), KeyAction::Step { dx: 1, dy: 0 });
    assert_eq!(key_action(PadKey::Up, false), KeyAction::Step { dx: 0, dy: 1 });
    assert_eq!(key_action(PadKey::Down, false), KeyAction::Step { dx: 0, dy: -1 });
    assert_eq!(key_action(PadKey::Home, false), KeyAction::Recenter);
    assert_eq!(key_action(PadKey::Other, false), KeyAction::Pass);
    assert_eq!(key_action(PadKey::Left, true), KeyAction::Pass);
    assert_eq!(key_action(PadKey::Home, true), KeyAction::Pass);
}

#[test]
fn pad_directions_cover_the_eight_neighbours() {
    assert_eq!(PAD_DIRECTIONS.len(), 8);
    for (dx, dy) in PAD_DIRECTIONS {
        assert!((dx, dy) != (0, 0));
        assert!((-1..=1).contains(&dx) && (-1..=1).contains(&dy));
    }
}

#[test]
fn locked_slider_snaps_back_and_free_slider_writes() {
    assert_eq!(slider_action(Some(40), 90), SliderAction::SnapBack(40));
    assert_eq!(slider_action(None, 90), SliderAction::Write(90));
}

#[test]
fn watchdog_counts_ticks_and_drifts() {
    let released = watchdog_tick(None, Some(10), 5, 2);
    assert!(released.stop);
    assert_eq!((released.write, released.polls, released.drifts), (None, 5, 2));
    let drift = watchdog_tick(Some(40), Some(90), 28, 3);
    assert!(!drift.stop);
    assert_eq!((drift.write, drift.polls, drift.drifts, drift.log_alive), (Some(40), 29, 4, false));
    let steady = watchdog_tick(Some(40), Some(40), 29, 4);
    assert_eq!((steady.write, steady.polls, steady.drifts, steady.log_alive), (None, 30, 4, true));
    let unreadable = watchdog_tick(Some(40), None, 0, 0);
    assert_eq!((unreadable.write, unreadable.polls, unreadable.drifts), (None, 1, 0));
}

#[test]
fn controls_are_grouped_by_section() {
    for id in PTZ_PAD_IDS {
        assert_eq!(control_section(id, classify(id)), Section::Curated);
    }
    assert_eq!(control_section(0x0098_090c, classify(0x0098_090c)), Section::Curated);
    assert_eq!(control_section(0x009a_0901, classify(0x009a_0901)), Section::Curated);
    assert_eq!(control_section(0x0098_0900, classify(0x0098_0900)), Section::User);
    assert_eq!(control_section(0x009a_0910, classify(0x009a_0910)), Section::Camera);
    assert_eq!(control_section(0x0099_0001, classify(0x0099_0001)), Section::Other);
}

#[test]
fn persisted_values_are_replayed_inside_the_envelope() {
    let pan = ControlKind::Integer { current: 0, min: PAN_MIN, max: PAN_MAX, step: PAN_STEP, default: 0 };
    assert_eq!(replay_value(&pan, 2_000_000), Some(ControlValue::Integer(PAN_MAX)));
    assert_eq!(replay_value(&pan, 18_500), Some(ControlValue::Integer(18_000)));
    let broken = ControlKind::Integer { current: 0, min: 10, max: 0, step: 1, default: 0 };
    assert_eq!(replay_value(&broken, 5), None);
    let toggle = ControlKind::Boolean { current: false, default: false };
    assert_eq!(replay_value(&toggle, 7), Some(ControlValue::Boolean(true)));
    assert_eq!(replay_value(&toggle, 0), Some(ControlValue::Boolean(false)));
    let menu = ControlKind::Menu { current_label: "50 Hz".into(), options: vec!["50 Hz".into()] };
    assert_eq!(replay_value(&menu, 1), None);
    assert_eq!(replay_value(&ControlKind::Other("Button".into()), 1), None);
}

#[test]
fn selection_follows_the_camera_across_a_hotplug() {
    let a = cam(0xfef9, None, "Lite");
    let b = cam(0xfef8, Some("S1"), "Regular 1");
    let c = cam(0xfef8, Some("S2"), "Regular 2");
    assert_eq!(reselect(&[a.clone(), b.clone()], 1, &[c.clone(), a.clone(), b.clone()]), 2);
    assert_eq!(reselect(&[a.clone(), b.clone()], 1, &[c.clone(), a.clone()]), 0);
    assert_eq!(reselect(&[], 0, &[a.clone()]), 0);
    assert_eq!(reselect(&[a.clone()], 0, &[]), 0);
    assert!(!selector_visible(1));
    assert!(selector_visible(2));
}

fn descriptor(id: u32, kind: ControlKind) -> ControlDescriptor {
    ControlDescriptor { id, name: format!("control {id:#x}"), class: ControlClass::Camera, kind }
}

fn pad_controls() -> Vec<ControlDescriptor> {
    vec![
        descriptor(
            CID_PAN_ABSOLUTE,
            ControlKind::Integer { current: 7200, min: PAN_MIN, max: PAN_MAX, step: 3600, default: 0 },
        ),
        descriptor(
            CID_FOCUS_AUTOMATIC_CONTINUOUS,
            ControlKind::Boolean { current: true, default: false },
        ),
        descriptor(
            CID_TILT_ABSOLUTE,
            ControlKind::Integer { current: -3600, min: -324_000, max: 324_000, step: 3600, default: 0 },
        ),
        descriptor(
            CID_PAN_ABSOLUTE,
            ControlKind::Integer { current: 1, min: 0, max: 2, step: 1, default: 0 },
        ),
    ]
}

#[test]
fn find_int_snapshots_the_first_matching_integer_control() {
    let controls = pad_controls();
    assert_eq!(
        find_int(&controls, CID_PAN_ABSOLUTE),
        Some(IntRange { current: 7200, min: PAN_MIN, max: PAN_MAX, step: 3600 })
    );
    assert_eq!(
        find_int(&controls, CID_TILT_ABSOLUTE),
        Some(IntRange { current: -3600, min: -324_000, max: 324_000, step: 3600 })
    );
    // Wrong shape and absent IDs give nothing.
    assert_eq!(find_int(&controls, CID_FOCUS_AUTOMATIC_CONTINUOUS), None);
    assert_eq!(find_int(&controls, CID_FOCUS_ABSOLUTE), None);
    assert_eq!(find_int(&[], CID_PAN_ABSOLUTE), None);
}

#[test]
fn find_bool_reads_the_first_matching_boolean_control() {
    let controls = pad_controls();
    assert_eq!(find_bool(&controls, CID_FOCUS_AUTOMATIC_CONTINUOUS), Some(true));
    assert_eq!(find_bool(&controls, CID_PAN_ABSOLUTE), None);
    assert_eq!(find_bool(&controls, CID_FOCUS_ABSOLUTE), None);
}

#[test]
fn clamp_i32_saturates_at_both_ends() {
    assert_eq!(clamp_i32(5), 5);
    assert_eq!(clamp_i32(-5), -5);
    assert_eq!(clamp_i32(i64::MAX), i32::MAX);
    assert_eq!(clamp_i32(i64::MIN), i32::MIN);
    assert_eq!(clamp_i32(i64::from(i32::MAX) + 1), i32::MAX);
    assert_eq!(clamp_i32(i64::from(i32::MIN) - 1), i32::MIN);
}

#[test]
fn axis_step_moves_one_step_from_a_fresh_read() {
    assert_eq!(axis_step(1, Some(0), PAN_MIN, PAN_MAX), Some(PAN_TILT_STEP));
    assert_eq!(axis_step(-1, Some(0), PAN_MIN, PAN_MAX), Some(-PAN_TILT_STEP));
    // Clamped at the range edge.
    assert_eq!(axis_step(1, Some(PAN_MAX - 1), PAN_MIN, PAN_MAX), Some(PAN_MAX));
}

#[test]
fn axis_step_skips_a_zero_sign_or_a_failed_read() {
    assert_eq!(axis_step(0, Some(100), PAN_MIN, PAN_MAX), None);
    assert_eq!(axis_step(1, None, PAN_MIN, PAN_MAX), None);
    assert_eq!(axis_step(-1, None, PAN_MIN, PAN_MAX), None);
}

#[test]
fn full_width_range_still_snaps_onto_the_grid() {
    assert_eq!(sanitize_integer(0, i64::MIN, i64::MAX, 2), Some(0));
    assert_eq!(sanitize_integer(i64::MAX, i64::MIN, i64::MAX, 2), Some(i64::MAX - 1));
    assert_eq!(sanitize_integer(i64::MIN, i64::MIN, i64::MAX, 2), Some(i64::MIN));
    assert_eq!(sanitize_integer(5, i64::MIN, i64::MAX, 3), Some(4));
    assert_eq!(sanitize_integer(-7, i64::MIN, i64::MAX, u64::MAX), Some(-7));
}

#[test]
fn full_width_integer_control_replays_a_snapped_value() {
    let kind = ControlKind::Integer { current: 0, min: i64::MIN, max: i64::MAX, step: 2, default: 0 };
    assert_eq!(replay_value(&kind, 7), Some(ControlValue::Integer(6)));
    assert_eq!(replay_value(&kind, -7), Some(ControlValue::Integer(-8)));
}

#[test]
fn pad_is_built_only_with_integer_pan_tilt_and_zoom() {
    let mut controls = pad_controls();
    // No zoom yet: no pad.
    assert_eq!(pad_ranges(&controls), None);
    controls.push(descriptor(
        CID_ZOOM_ABSOLUTE,
        ControlKind::Integer { current: 100, min: 100, max: 400, step: 1, default: 100 },
    ));
    assert_eq!(
        pad_ranges(&controls),
        Some((
            IntRange { current: 7200, min: PAN_MIN, max: PAN_MAX, step: 3600 },
            IntRange { current: -3600, min: -324_000, max: 324_000, step: 3600 },
            IntRange { current: 100, min: 100, max: 400, step: 1 },
        ))
    );
    // A boolean zoom does not count.
    let mut bool_zoom = pad_controls();
    bool_zoom.push(descriptor(CID_ZOOM_ABSOLUTE, ControlKind::Boolean { current: true, default: true }));
    assert_eq!(pad_ranges(&bool_zoom), None);
}

#[test]
fn saved_for_camera_keeps_only_this_cameras_entries() {
    let stored = vec![
        (dict_key("ABC", "Brightness"), 10),
        (dict_key("XYZ", "Brightness"), 99),
        (dict_key("ABC", "Pan, Absolute"), -3600),
        ("ABC".to_string(), 5),
        (dict_key("ABCD", "Contrast"), 7),
    ];
    assert_eq!(
        saved_for_camera(&stored, "ABC"),
        vec![("Brightness".to_string(), 10), ("Pan, Absolute".to_string(), -3600)]
    );
    assert_eq!(saved_for_camera(&stored, "none"), vec![]);
}

#[test]
fn restore_plan_replays_saved_values_in_control_order() {
    let controls = vec![
        ControlDescriptor {
            id: 0x0098_0900,
            name: "Brightness".to_string(),
            class: ControlClass::User,
            kind: ControlKind::Integer { current: 0, min: 0, max: 100, step: 5, default: 50 },
        },
        ControlDescriptor {
            id: 0x0098_090c,
            name: "White Balance, Automatic".to_string(),
            class: ControlClass::User,
            kind: ControlKind::Boolean { current: false, default: true },
        },
        ControlDescriptor {
            id: 0x0098_0918,
            name: "Power Line Frequency".to_string(),
            class: ControlClass::User,
            kind: ControlKind::Menu { current_label: "50 Hz".to_string(), options: vec![] },
        },
        ControlDescriptor {
            id: 0x0098_0901,
            name: "Contrast".to_string(),
            class: ControlClass::User,
            kind: ControlKind::Integer { current: 0, min: 10, max: 0, step: 1, default: 0 },
        },
    ];
    let saved = vec![
        ("White Balance, Automatic".to_string(), 1),
        ("Brightness".to_string(), 203),
        ("Power Line Frequency".to_string(), 1),
        ("Contrast".to_string(), 5),
        ("Brightness".to_string(), 0),
    ];
    assert_eq!(
        restore_plan(&controls, &saved),
        Some(vec![
            (0x0098_0900, ControlValue::Integer(100)),
            (0x0098_090c, ControlValue::Boolean(true)),
        ])
    );
    assert_eq!(restore_plan(&controls, &vec![]), None);
    assert_eq!(restore_plan(&controls, &vec![("Hue".to_string(), 3)]), Some(vec![]));
}

use obsbot_core::gui::ai_effects_view::{
    ai_mode_at, ai_mode_selection, fov_at, tracking_speed_at, tracking_speed_selection,
};
use obsbot_core::gui::controls_view::{body_page, visible_tabs, BodyPage, Tab};
use obsbot_core::gui::settings::{write_follow_up, WriteFollowUp};
use obsbot_core::xu::enums::{AiMode, FovMode, SleepState, TrackingSpeed};
use obsbot_core::xu::status::{Status, STATUS_LEN};
use obsbot_core::ControlValue;

fn status(ai_mode: AiMode, tracking_speed: TrackingSpeed) -> Status {
    Status { sleep: SleepState::Awake, hdr_on: false, ai_mode, tracking_speed, raw: [0; STATUS_LEN] }
}

#[test]
fn ai_mode_dropdown_lists_every_mode_once_in_menu_order() {
    let order = [
        AiMode::NoTracking,
        AiMode::NormalTracking,
        AiMode::UpperBody,
        AiMode::CloseUp,
        AiMode::Headless,
        AiMode::LowerBody,
        AiMode::Group,
        AiMode::DeskMode,
        AiMode::Whiteboard,
        AiMode::Hand,
    ];
    for (i, mode) in order.iter().enumerate() {
        let idx = u32::try_from(i).unwrap();
        assert_eq!(ai_mode_at(idx), Some(*mode));
        let s = status(*mode, TrackingSpeed::Standard);
        assert_eq!(ai_mode_selection(Some(&s)), idx);
    }
    assert_eq!(ai_mode_at(10), None);
    assert_eq!(ai_mode_at(u32::MAX), None);
    assert_eq!(ai_mode_selection(None), 0);
}

#[test]
fn fov_dropdown_is_wide_normal_narrow() {
    assert_eq!(fov_at(0), Some(FovMode::Wide));
    assert_eq!(fov_at(1), Some(FovMode::Normal));
    assert_eq!(fov_at(2), Some(FovMode::Narrow));
    assert_eq!(fov_at(3), None);
}

#[test]
fn tracking_speed_dropdown_follows_the_status() {
    assert_eq!(tracking_speed_at(0), Some(TrackingSpeed::Standard));
    assert_eq!(tracking_speed_at(1), Some(TrackingSpeed::Sport));
    assert_eq!(tracking_speed_at(2), None);
    let sport = status(AiMode::Group, TrackingSpeed::Sport);
    assert_eq!(tracking_speed_selection(Some(&sport)), 1);
    let standard = status(AiMode::Group, TrackingSpeed::Standard);
    assert_eq!(tracking_speed_selection(Some(&standard)), 0);
    assert_eq!(tracking_speed_selection(None), 0);
}

#[test]
fn body_page_covers_each_failure_before_the_controls() {
    assert_eq!(body_page(false, Some(12)), BodyPage::NoVideoNode);
    assert_eq!(body_page(false, None), BodyPage::NoVideoNode);
    assert_eq!(body_page(true, None), BodyPage::ReadFailed);
    assert_eq!(body_page(true, Some(0)), BodyPage::NoControls);
    assert_eq!(body_page(true, Some(12)), BodyPage::Controls);
}

#[test]
fn tabs_keep_their_order_and_skip_empty_ones() {
    assert_eq!(visible_tabs(1, 3, 1, 2), vec![Tab::Main, Tab::Image, Tab::Move, Tab::Presets]);
    assert_eq!(visible_tabs(0, 3, 0, 1), vec![Tab::Image, Tab::Presets]);
    assert_eq!(visible_tabs(0, 0, 0, 0), vec![]);
    assert_eq!(visible_tabs(0, 0, 1, 0), vec![Tab::Move]);
}

#[test]
fn a_failed_write_is_reported_and_nothing_else() {
    assert_eq!(
        write_follow_up(ControlValue::Boolean(true), false, true),
        WriteFollowUp { report_error: true, refresh: false, save: None }
    );
}

#[test]
fn a_successful_write_refreshes_after_a_boolean_and_saves_with_a_serial() {
    assert_eq!(
        write_follow_up(ControlValue::Boolean(true), true, true),
        WriteFollowUp { report_error: false, refresh: true, save: Some(1) }
    );
    assert_eq!(
        write_follow_up(ControlValue::Integer(i64::MAX), true, true),
        WriteFollowUp { report_error: false, refresh: false, save: Some(i32::MAX) }
    );
    assert_eq!(
        write_follow_up(ControlValue::Integer(-40), true, false),
        WriteFollowUp { report_error: false, refresh: false, save: None }
    );
}

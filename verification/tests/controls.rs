use obsbot_core::controls::{
    build_kind, classify, describe, is_listed, ControlDescription, ControlType, MenuItem,
};
use obsbot_core::{ControlClass, ControlKind};

#[test]
fn classify_user_class_id() {
    assert_eq!(classify(0x0098_0900), ControlClass::User);
    assert_eq!(classify(0x0098_0001), ControlClass::User);
}

#[test]
fn classify_camera_class_id() {
    assert_eq!(classify(0x009A_0908), ControlClass::Camera);
    assert_eq!(classify(0x009A_0001), ControlClass::Camera);
}

#[test]
fn classify_unknown_class_id() {
    assert_eq!(classify(0x0099_0123), ControlClass::Other(0x0099_0000));
}

fn description(typ: ControlType) -> ControlDescription {
    ControlDescription {
        id: 0x0098_0900,
        typ,
        name: "Brightness".into(),
        minimum: -64,
        maximum: 64,
        step: 1,
        default: 5,
        disabled: false,
        write_only: false,
        items: None,
    }
}

#[test]
fn integer_control_takes_the_read_value_or_the_default() {
    let d = description(ControlType::Integer);
    assert_eq!(
        build_kind(&d, Some(12)),
        ControlKind::Integer { current: 12, min: -64, max: 64, step: 1, default: 5 }
    );
    assert_eq!(
        build_kind(&d, None),
        ControlKind::Integer { current: 5, min: -64, max: 64, step: 1, default: 5 }
    );
    assert_eq!(
        build_kind(&description(ControlType::Integer64), None),
        ControlKind::Integer { current: 5, min: -64, max: 64, step: 1, default: 5 }
    );
}

#[test]
fn boolean_control_is_nonzero() {
    let d = description(ControlType::Boolean);
    assert_eq!(
        build_kind(&d, Some(0)),
        ControlKind::Boolean { current: false, default: true }
    );
    assert_eq!(
        build_kind(&d, None),
        ControlKind::Boolean { current: true, default: true }
    );
}

#[test]
fn menu_control_labels_the_selected_item() {
    let mut d = description(ControlType::Menu);
    d.items = Some(vec![
        (0, MenuItem::Name("Disabled".into())),
        (1, MenuItem::Name("50 Hz".into())),
        (2, MenuItem::Name("60 Hz".into())),
    ]);
    assert_eq!(
        build_kind(&d, Some(1)),
        ControlKind::Menu {
            current_label: "50 Hz".into(),
            options: vec!["Disabled".into(), "50 Hz".into(), "60 Hz".into()],
        }
    );
    // An index with no matching item is shown as the number itself.
    assert_eq!(
        build_kind(&d, Some(-7)),
        ControlKind::Menu {
            current_label: "-7".into(),
            options: vec!["Disabled".into(), "50 Hz".into(), "60 Hz".into()],
        }
    );
}

#[test]
fn integer_menu_items_render_their_values() {
    let mut d = description(ControlType::IntegerMenu);
    d.items = Some(vec![(3, MenuItem::Value(-1200)), (4, MenuItem::Value(30))]);
    assert_eq!(
        build_kind(&d, Some(3)),
        ControlKind::Menu { current_label: "-1200".into(), options: vec!["-1200".into(), "30".into()] }
    );
    let mut none = description(ControlType::Menu);
    none.items = None;
    assert_eq!(
        build_kind(&none, None),
        ControlKind::Menu { current_label: "5".into(), options: vec![] }
    );
}

#[test]
fn other_types_carry_their_name() {
    assert_eq!(build_kind(&description(ControlType::Button), None), ControlKind::Other("Button".into()));
    assert_eq!(build_kind(&description(ControlType::String), Some(1)), ControlKind::Other("String".into()));
    assert_eq!(build_kind(&description(ControlType::Area), None), ControlKind::Other("Area".into()));
}

#[test]
fn class_markers_disabled_and_write_only_controls_are_skipped() {
    assert!(is_listed(&description(ControlType::Integer)));
    assert!(!is_listed(&description(ControlType::CtrlClass)));
    let mut d = description(ControlType::Integer);
    d.disabled = true;
    assert!(!is_listed(&d));
    let mut w = description(ControlType::Boolean);
    w.write_only = true;
    assert!(!is_listed(&w));
}

#[test]
fn describe_reshapes_one_control() {
    let mut d = description(ControlType::Integer);
    d.id = 0x009A_0908;
    d.name = "Pan, Absolute".into();
    let c = describe(&d, Some(3600));
    assert_eq!(c.id, 0x009A_0908);
    assert_eq!(c.name, "Pan, Absolute");
    assert_eq!(c.class, ControlClass::Camera);
    assert_eq!(
        c.kind,
        ControlKind::Integer { current: 3600, min: -64, max: 64, step: 1, default: 5 }
    );
}

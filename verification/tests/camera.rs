use obsbot_core::{
    AntiFlicker, AutoFramingMode, Camera, CameraInfo, Capabilities, Error, ExposureMode, Fov,
};

struct DummyCamera;

impl Camera for DummyCamera {
    fn info(&self) -> CameraInfo {
        CameraInfo {
            vendor: "Test Vendor".into(),
            product: "Dummy".into(),
            vid: 0,
            pid: 0,
            serial: None,
            firmware: None,
            video_path: None,
        }
    }

    fn capabilities(&self) -> Capabilities {
        Capabilities::default()
    }
}

#[test]
fn default_methods_return_unsupported() {
    let cam = DummyCamera;
    assert!(matches!(cam.brightness(), Err(Error::Unsupported)));
    assert!(matches!(cam.set_pan(0), Err(Error::Unsupported)));
    assert!(matches!(cam.hdr_enabled(), Err(Error::Unsupported)));
    assert!(matches!(cam.fov(), Err(Error::Unsupported)));
}

#[test]
fn capabilities_default_is_nothing_supported() {
    let caps = Capabilities::default();
    assert!(!caps.pan);
    assert!(!caps.hdr);
    assert!(!caps.auto_framing);
}

#[test]
fn info_round_trips() {
    let cam = DummyCamera;
    let info = cam.info();
    assert_eq!(info.vid, 0);
    assert_eq!(info.product, "Dummy");
    assert!(info.serial.is_none());
}

#[test]
fn every_default_setter_and_getter_is_unsupported() {
    let cam = DummyCamera;
    assert!(matches!(cam.set_exposure_mode(ExposureMode::Manual), Err(Error::Unsupported)));
    assert!(matches!(cam.exposure_mode(), Err(Error::Unsupported)));
    assert!(matches!(cam.set_anti_flicker(AntiFlicker::Hz50), Err(Error::Unsupported)));
    assert!(matches!(cam.set_fov(Fov::Wide), Err(Error::Unsupported)));
    assert!(matches!(cam.set_auto_framing(AutoFramingMode::Group), Err(Error::Unsupported)));
    assert!(matches!(cam.white_balance_temperature(), Err(Error::Unsupported)));
    assert!(matches!(cam.set_gesture_control(true), Err(Error::Unsupported)));
    assert!(matches!(cam.zoom(), Err(Error::Unsupported)));
    assert!(matches!(cam.tilt_speed(), Err(Error::Unsupported)));
}

#[test]
fn default_capabilities_expose_nothing_at_all() {
    let c = Capabilities::default();
    let all = [
        c.pan, c.tilt, c.zoom, c.pan_speed, c.tilt_speed, c.brightness, c.contrast, c.saturation,
        c.hue, c.sharpness, c.gamma, c.backlight_compensation, c.gain, c.white_balance_auto,
        c.white_balance_manual, c.exposure_auto, c.exposure_manual, c.focus_auto, c.focus_manual,
        c.anti_flicker, c.hdr, c.fov_mode, c.auto_framing, c.face_auto_exposure,
        c.face_auto_focus, c.gesture_control,
    ];
    assert!(all.iter().all(|b| !b));
}

#[test]
fn error_messages_read_as_documented() {
    assert_eq!(
        Error::Unsupported.message(),
        "feature not supported by the connected camera or its backend"
    );
    assert_eq!(
        Error::OutOfRange { value: -5, min: 0, max: 100 }.message(),
        "value -5 is outside the allowed range [0, 100]"
    );
    assert_eq!(
        Error::OutOfRange { value: i64::MIN, min: i64::MIN, max: i64::MAX }.message(),
        "value -9223372036854775808 is outside the allowed range \
         [-9223372036854775808, 9223372036854775807]"
    );
    assert_eq!(Error::Busy("/dev/video0".to_string()).message(), "device \"/dev/video0\" is busy");
    assert_eq!(Error::Disconnected.message(), "device disappeared");
}

#[test]
fn io_error_message_is_the_operating_system_text() {
    let e = Error::from(std::io::Error::new(std::io::ErrorKind::NotFound, "no such node"));
    assert!(matches!(e, Error::Io(_)));
    assert_eq!(e.message(), "no such node");
}

#[test]
fn busy_message_quotes_the_path_as_a_path() {
    for p in ["/dev/video0", "/dev/it's \"here\"", "/dev/tab\there"] {
        assert_eq!(
            Error::Busy(p.to_string()).message(),
            format!("device {:?} is busy", std::path::PathBuf::from(p))
        );
    }
}

use obsbot_core::cli::render;
use obsbot_core::CameraInfo;

fn tiny2_lite() -> CameraInfo {
    CameraInfo {
        vendor: "Remo Tech Co., Ltd.".into(),
        product: "OBSBOT Tiny 2 Lite".into(),
        vid: 0x3564,
        pid: 0xfef9,
        serial: None,
        firmware: Some("0510".into()),
        video_path: Some("/dev/video0".into()),
    }
}

fn tiny2_regular() -> CameraInfo {
    CameraInfo {
        vendor: "Remo Tech Co., Ltd.".into(),
        product: "OBSBOT Tiny 2".into(),
        vid: 0x3564,
        pid: 0xfef8,
        serial: Some("ABCDEF123456".into()),
        firmware: Some("0400".into()),
        video_path: Some("/dev/video2".into()),
    }
}

#[test]
fn render_zero_cameras() {
    assert_eq!(render(&[]), "No OBSBOT cameras detected.\n");
}

#[test]
fn render_one_camera_missing_serial() {
    let out = render(&[tiny2_lite()]);
    assert!(out.starts_with("1 camera detected:\n\n"));
    assert!(out.contains("[1] OBSBOT Tiny 2 Lite\n"));
    assert!(out.contains("    USB ID:   3564:fef9\n"));
    assert!(out.contains("    Serial:   (not advertised)\n"));
    assert!(out.contains("    Firmware: 0510\n"));
    assert!(out.contains("    Video:    /dev/video0\n"));
}

#[test]
fn render_two_cameras_indexed_and_pluralised() {
    let out = render(&[tiny2_lite(), tiny2_regular()]);
    assert!(out.starts_with("2 cameras detected:\n\n"));
    assert!(out.contains("[1] OBSBOT Tiny 2 Lite\n"));
    assert!(out.contains("[2] OBSBOT Tiny 2\n"));
    assert!(out.contains("    Serial:   ABCDEF123456\n"));
    assert!(out.contains("\n\n[2] "));
}

#[test]
fn render_full_stanza_exactly() {
    let out = render(&[tiny2_lite()]);
    assert_eq!(
        out,
        "1 camera detected:\n\n[1] OBSBOT Tiny 2 Lite\n    Vendor:   Remo Tech Co., Ltd.\n    USB ID:   3564:fef9\n    Serial:   (not advertised)\n    Firmware: 0510\n    Video:    /dev/video0\n"
    );
}

#[test]
fn render_pads_ids_and_falls_back_for_missing_fields() {
    let cam = CameraInfo {
        vendor: String::new(),
        product: "X".into(),
        vid: 0x12,
        pid: 0xa,
        serial: None,
        firmware: None,
        video_path: None,
    };
    let out = render(&[cam.clone(), cam.clone(), cam.clone(), cam.clone(), cam.clone(), cam.clone(), cam.clone(), cam.clone(), cam.clone(), cam.clone(), cam]);
    assert!(out.starts_with("11 cameras detected:\n\n"));
    assert!(out.contains("    USB ID:   0012:000a\n"));
    assert!(out.contains("    Firmware: (unknown)\n"));
    assert!(out.contains("    Video:    (none)\n"));
    assert!(out.contains("[11] X\n"));
    assert!(out.ends_with("(none)\n"));
    assert!(!out.ends_with("\n\n"));
}

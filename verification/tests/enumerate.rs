use obsbot_core::enumerate::{
    cameras_from_entries, collect_one, is_tiny_2_family, parse_hex_u16, SysfsVideoEntry,
};
use obsbot_core::{TINY2_FAMILY, VID_OBSBOT};

/// The entries a sysfs tree holds for one USB device with the given
/// video nodes and attribute files (values end in a newline, as sysfs
/// writes them).
fn mock_entries(
    port: &str,
    videos: &[&str],
    vid_hex: &str,
    pid_hex: &str,
    attrs: &[(&str, &str)],
) -> Vec<SysfsVideoEntry> {
    let attr = |name: &str| {
        attrs
            .iter()
            .find(|(k, _)| *k == name)
            .map(|(_, v)| format!("{v}\n"))
    };
    videos
        .iter()
        .map(|v| SysfsVideoEntry {
            usb_device: format!("/sys/devices/usb1/{port}"),
            video_name: (*v).to_string(),
            id_vendor: Some(format!("{vid_hex}\n")),
            id_product: Some(format!("{pid_hex}\n")),
            manufacturer: attr("manufacturer"),
            product: attr("product"),
            serial: attr("serial"),
            bcd_device: attr("bcdDevice"),
        })
        .collect()
}

#[test]
fn detects_tiny2_lite_with_dual_video_nodes() {
    let entries = mock_entries(
        "1-7",
        &["video0", "video1"],
        "3564",
        "fef9",
        &[
            ("manufacturer", "Remo Tech Co., Ltd."),
            ("product", "OBSBOT Tiny 2 Lite"),
            ("bcdDevice", "0510"),
        ],
    );

    let cams = cameras_from_entries(&entries);
    assert_eq!(cams.len(), 1, "two video nodes must dedup to one camera");

    let cam = &cams[0];
    assert_eq!(cam.vid, 0x3564);
    assert_eq!(cam.pid, 0xfef9);
    assert_eq!(cam.vendor, "Remo Tech Co., Ltd.");
    assert_eq!(cam.product, "OBSBOT Tiny 2 Lite");
    assert_eq!(cam.firmware.as_deref(), Some("0510"));
    assert!(cam.serial.is_none());
    assert_eq!(cam.video_path.as_deref(), Some("/dev/video0"));
}

#[test]
fn detects_regular_tiny2() {
    let entries = mock_entries(
        "1-3",
        &["video2"],
        "3564",
        "fef8",
        &[
            ("manufacturer", "Remo Tech Co., Ltd."),
            ("product", "OBSBOT Tiny 2"),
            ("bcdDevice", "0400"),
            ("serial", "ABCDEF123456"),
        ],
    );

    let cams = cameras_from_entries(&entries);
    assert_eq!(cams.len(), 1);

    let cam = &cams[0];
    assert_eq!(cam.vid, 0x3564);
    assert_eq!(cam.pid, 0xfef8);
    assert_eq!(cam.serial.as_deref(), Some("ABCDEF123456"));
    assert_eq!(cam.video_path.as_deref(), Some("/dev/video2"));
}

#[test]
fn rejects_non_obsbot_camera() {
    let entries = mock_entries(
        "1-4",
        &["video0"],
        "046d",
        "0892",
        &[
            ("manufacturer", "Logitech"),
            ("product", "HD Webcam"),
            ("bcdDevice", "0010"),
        ],
    );

    assert!(cameras_from_entries(&entries).is_empty());
}

#[test]
fn missing_root_returns_empty() {
    assert!(cameras_from_entries(&Vec::new()).is_empty());
}

#[test]
fn parses_known_hex() {
    assert_eq!(parse_hex_u16("3564"), Some(0x3564));
    assert_eq!(parse_hex_u16("fef9\n"), Some(0xfef9));
    assert_eq!(parse_hex_u16("zzzz"), None);
}

#[test]
fn hex_parsing_follows_from_str_radix() {
    for s in ["", "+", "-1", "10000", "12 34", "0x12", "ＦＦ", "fffff"] {
        assert_eq!(parse_hex_u16(s), u16::from_str_radix(s.trim(), 16).ok(), "{s:?}");
    }
    for s in ["+ff", " \t00FFff \n", "0", "000000000000000abc", "FFFF", "\u{3000}1a\u{85}"] {
        assert_eq!(parse_hex_u16(s), u16::from_str_radix(s.trim(), 16).ok(), "{s:?}");
        assert!(parse_hex_u16(s).is_some());
    }
}

#[test]
fn family_membership() {
    assert!(is_tiny_2_family(VID_OBSBOT, 0xfef8));
    assert!(is_tiny_2_family(0x3564, 0xfef9));
    assert!(!is_tiny_2_family(0x3564, 0xfefa));
    assert!(!is_tiny_2_family(0x046d, 0xfef9));
    assert!(TINY2_FAMILY.contains(&(0x3564, 0xfef9)));
}

#[test]
fn first_sorting_node_wins_in_any_order_and_devices_keep_first_appearance() {
    let lite = mock_entries("1-7", &["video3", "video1", "video2"], "3564", "fef9", &[("product", "Lite")]);
    let regular = mock_entries("1-3", &["video0"], "3564", "fef8", &[("product", "Regular")]);
    let mut entries = vec![lite[0].clone()];
    entries.push(regular[0].clone());
    entries.push(lite[1].clone());
    entries.push(lite[2].clone());
    let cams = cameras_from_entries(&entries);
    assert_eq!(cams.len(), 2);
    assert_eq!(cams[0].product, "Lite");
    assert_eq!(cams[0].video_path.as_deref(), Some("/dev/video1"));
    assert_eq!(cams[1].product, "Regular");
    assert_eq!(cams[1].video_path.as_deref(), Some("/dev/video0"));
    // Missing descriptor strings read as empty / absent.
    assert_eq!(cams[0].vendor, "");
    assert!(cams[0].firmware.is_none());
}

#[test]
fn unparsable_ids_are_skipped() {
    let mut e = mock_entries("1-1", &["video0"], "3564", "fef9", &[])[0].clone();
    e.id_product = None;
    assert!(collect_one(&e).is_none());
    e.id_product = Some("fefz".into());
    assert!(collect_one(&e).is_none());
}

#[test]
fn capture_path_is_the_one_that_sorts_first_as_text() {
    let entries = mock_entries("1-7", &["video2", "video10"], "3564", "fef9", &[]);
    let cams = cameras_from_entries(&entries);
    assert_eq!(cams.len(), 1);
    assert_eq!(cams[0].video_path.as_deref(), Some("/dev/video10"));
}

use obsbot_core::error::Error;
use obsbot_core::xu::enums::EnumDecodeError;
use obsbot_core::xu::errors::XuError;
use obsbot_core::xu::transport::{
    check_get_cur_len, query_size, selector_len_from_reply, set_cur_buffer, uvc, BUNIT_ID,
    SELECTOR_FRAME, SELECTOR_OPCODE,
};
use obsbot_core::xu::v4l2_ptz::{
    V4L2_CID_PAN_ABSOLUTE, V4L2_CID_PAN_RELATIVE, V4L2_CID_TILT_ABSOLUTE,
    V4L2_CID_TILT_RELATIVE, V4L2_CID_ZOOM_ABSOLUTE, V4L2_CID_ZOOM_RELATIVE,
};

#[test]
fn cid_values_match_kernel_header() {
    assert_eq!(V4L2_CID_PAN_ABSOLUTE, 0x009A_0908);
    assert_eq!(V4L2_CID_TILT_ABSOLUTE, 0x009A_0909);
    assert_eq!(V4L2_CID_PAN_RELATIVE, 0x009A_090A);
    assert_eq!(V4L2_CID_TILT_RELATIVE, 0x009A_090B);
    assert_eq!(V4L2_CID_ZOOM_ABSOLUTE, 0x009A_090D);
    assert_eq!(V4L2_CID_ZOOM_RELATIVE, 0x009A_090E);
}

#[test]
fn addressing_constants() {
    assert_eq!(BUNIT_ID, 0x02);
    assert_eq!(SELECTOR_OPCODE, 0x06);
    assert_eq!(SELECTOR_FRAME, 0x02);
    assert_eq!(uvc::SET_CUR, 0x01);
    assert_eq!(uvc::GET_CUR, 0x81);
    assert_eq!(uvc::GET_LEN, 0x85);
}

#[test]
fn short_payload_is_zero_padded_to_the_selector_length() {
    let buf = set_cur_buffer(BUNIT_ID, SELECTOR_OPCODE, &[0x01, 0x01, 0x01], 60).unwrap();
    assert_eq!(buf.len(), 60);
    assert_eq!(&buf[..3], &[0x01, 0x01, 0x01]);
    assert!(buf[3..].iter().all(|b| *b == 0));
}

#[test]
fn exact_length_payload_is_sent_unchanged() {
    let payload = [7u8; 36];
    let buf = set_cur_buffer(BUNIT_ID, SELECTOR_FRAME, &payload, 36).unwrap();
    assert_eq!(buf, payload.to_vec());
}

#[test]
fn oversized_payload_is_a_length_mismatch() {
    let err = set_cur_buffer(BUNIT_ID, SELECTOR_FRAME, &[0u8; 61], 60).unwrap_err();
    match err {
        XuError::LengthMismatch { unit, selector, payload_len, selector_len } => {
            assert_eq!((unit, selector, payload_len, selector_len), (0x02, 0x02, 61, 60));
        }
        other => panic!("unexpected {other:?}"),
    }
}

#[test]
fn get_cur_buffer_must_match_exactly() {
    assert!(check_get_cur_len(BUNIT_ID, SELECTOR_OPCODE, 60, 60).is_ok());
    assert!(matches!(
        check_get_cur_len(BUNIT_ID, SELECTOR_OPCODE, 59, 60),
        Err(XuError::LengthMismatch { payload_len: 59, selector_len: 60, .. })
    ));
    assert!(check_get_cur_len(BUNIT_ID, SELECTOR_OPCODE, 61, 60).is_err());
}

#[test]
fn get_len_reply_is_little_endian() {
    assert_eq!(selector_len_from_reply([0x3c, 0x00]), 60);
    assert_eq!(selector_len_from_reply([0x00, 0x01]), 256);
    assert_eq!(selector_len_from_reply([0xff, 0xff]), 0xffff);
}

#[test]
fn query_size_fits_sixteen_bits() {
    assert_eq!(query_size(60).unwrap(), 60);
    assert_eq!(query_size(0xffff).unwrap(), 0xffff);
    match query_size(0x1_0000) {
        Err(XuError::Io(e)) => {
            assert_eq!(e.kind(), std::io::ErrorKind::InvalidInput);
            assert_eq!(e.to_string(), "xu_query payload too large: 65536 bytes");
        }
        other => panic!("unexpected {other:?}"),
    }
}

#[test]
fn xu_error_messages() {
    let e = XuError::LengthMismatch { unit: 2, selector: 6, payload_len: 61, selector_len: 60 };
    assert_eq!(
        e.message(),
        "UVC payload too large on unit 0x2, selector 0x6: payload is 61 bytes but the selector only accepts 60 bytes"
    );
    assert_eq!(
        XuError::Decode(EnumDecodeError::FovMode(0x04)).message(),
        "XU status decode failed: unknown FovMode byte 0x4"
    );
    assert_eq!(
        XuError::InvalidPresetIndex(-1).message(),
        "preset index out of range (must be 0..=2, got -1)"
    );
    assert_eq!(
        XuError::InvalidPresetIndex(3).message(),
        "preset index out of range (must be 0..=2, got 3)"
    );
}

#[test]
fn xu_errors_convert_to_io_errors() {
    let io = std::io::Error::new(std::io::ErrorKind::NotFound, "gone");
    match XuError::Io(io).into_error() {
        Error::Io(e) => {
            assert_eq!(e.kind(), std::io::ErrorKind::NotFound);
            assert_eq!(e.to_string(), "gone");
        }
        other => panic!("unexpected {other:?}"),
    }
    match XuError::InvalidPresetIndex(5).into_error() {
        Error::Io(e) => {
            assert_eq!(e.kind(), std::io::ErrorKind::Other);
            assert_eq!(e.to_string(), "preset index out of range (must be 0..=2, got 5)");
        }
        other => panic!("unexpected {other:?}"),
    }
}

#[test]
fn io_errors_convert_into_xu_and_crate_errors() {
    let xu: XuError = std::io::Error::other("x").into();
    assert!(matches!(xu, XuError::Io(_)));
    let e: Error = std::io::Error::other("y").into();
    assert!(matches!(e, Error::Io(_)));
    let d: XuError = EnumDecodeError::FaceAeMode(9).into();
    assert!(matches!(d, XuError::Decode(EnumDecodeError::FaceAeMode(9))));
}

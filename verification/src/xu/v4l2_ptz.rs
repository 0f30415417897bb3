//! V4L2 standard Pan / Tilt / Zoom control IDs used by the Tiny 2
//! family (`linux/v4l2-controls.h`, `V4L2_CID_CAMERA_CLASS_BASE +
//! offset`). These live on the camera's input terminal, not the XU.

use vstd::prelude::*;

verus! {

/// `V4L2_CID_CAMERA_CLASS_BASE`.
pub const V4L2_CID_CAMERA_CLASS_BASE: u32 = 0x009A_0900;

/// Pan, absolute (degrees times 3600).
pub const V4L2_CID_PAN_ABSOLUTE: u32 = V4L2_CID_CAMERA_CLASS_BASE + 0x08;

/// Tilt, absolute (degrees times 3600).
pub const V4L2_CID_TILT_ABSOLUTE: u32 = V4L2_CID_CAMERA_CLASS_BASE + 0x09;

/// Pan, relative (-1, 0, +1).
pub const V4L2_CID_PAN_RELATIVE: u32 = V4L2_CID_CAMERA_CLASS_BASE + 0x0A;

/// Tilt, relative (-1, 0, +1).
pub const V4L2_CID_TILT_RELATIVE: u32 = V4L2_CID_CAMERA_CLASS_BASE + 0x0B;

/// Zoom, absolute (device-relative units).
pub const V4L2_CID_ZOOM_ABSOLUTE: u32 = V4L2_CID_CAMERA_CLASS_BASE + 0x0D;

/// Zoom, relative (-1, 0, +1).
pub const V4L2_CID_ZOOM_RELATIVE: u32 = V4L2_CID_CAMERA_CLASS_BASE + 0x0E;

} // verus!

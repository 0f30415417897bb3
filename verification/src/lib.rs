//! Verified core of an OBSBOT Tiny 2 family camera controller: the
//! vendor UVC Extension Unit (XU) wire encodings, the status decoder,
//! camera discovery bookkeeping, V4L2 control reshaping and the pure
//! rules behind the control panel.

pub mod camera;
pub mod cli;
pub mod controls;
pub mod enumerate;
pub mod error;
pub mod gui;
pub mod text;
pub mod xu;

pub use camera::{
    AntiFlicker, AutoFramingMode, Camera, CameraInfo, Capabilities, ExposureMode, Fov,
};
pub use controls::{ControlClass, ControlDescriptor, ControlKind, ControlValue};
pub use enumerate::{TINY2_FAMILY, VID_OBSBOT};
pub use error::{Error, Result};

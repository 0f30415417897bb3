//! The [`Camera`] trait and the value types the GUI and CLI consume.
//!
//! Default trait methods return [`Error::Unsupported`], so a backend only
//! overrides what it actually implements.

use vstd::prelude::*;

use crate::error::{Error, Result};

verus! {

/// Identifying metadata for a connected camera.
#[derive(Debug, Clone, PartialEq, Eq)]
pub struct CameraInfo {
    /// Vendor name string (e.g. `"Remo Tech Co., Ltd."`).
    pub vendor: String,
    /// Product name string as reported by the device.
    pub product: String,
    /// USB vendor ID.
    pub vid: u16,
    /// USB product ID.
    pub pid: u16,
    /// USB `iSerial` string, if the device advertises one (the Tiny 2
    /// Lite on firmware 5.10 does not).
    pub serial: Option<String>,
    /// Firmware version string, if known.
    pub firmware: Option<String>,
    /// Primary V4L2 capture device path (e.g. `/dev/video0`), if
    /// discovered.
    pub video_path: Option<String>,
}

/// The value of an optional string, as characters.
pub open spec fn opt_text(s: Option<String>) -> Option<Seq<char>> {
    match s {
        Some(t) => Some(t@),
        None => None,
    }
}

/// [`CameraInfo`] with each string taken as its characters.
pub struct CameraInfoView {
    /// Vendor name.
    pub vendor: Seq<char>,
    /// Product name.
    pub product: Seq<char>,
    /// USB vendor ID.
    pub vid: u16,
    /// USB product ID.
    pub pid: u16,
    /// USB serial, if advertised.
    pub serial: Option<Seq<char>>,
    /// Firmware version, if known.
    pub firmware: Option<Seq<char>>,
    /// Primary capture device path, if discovered.
    pub video_path: Option<Seq<char>>,
}

impl View for CameraInfo {
    type V = CameraInfoView;

    open spec fn view(&self) -> CameraInfoView {
        CameraInfoView {
            vendor: self.vendor@,
            product: self.product@,
            vid: self.vid,
            pid: self.pid,
            serial: opt_text(self.serial),
            firmware: opt_text(self.firmware),
            video_path: opt_text(self.video_path),
        }
    }
}

/// Which optional features the connected device exposes.
#[derive(Debug, Clone, Copy, PartialEq, Eq)]
#[non_exhaustive]
pub struct Capabilities {
    /// Pan (absolute) supported.
    pub pan: bool,
    /// Tilt (absolute) supported.
    pub tilt: bool,
    /// Zoom (absolute) supported.
    pub zoom: bool,
    /// Pan speed (signed velocity) supported.
    pub pan_speed: bool,
    /// Tilt speed (signed velocity) supported.
    pub tilt_speed: bool,
    /// Brightness slider.
    pub brightness: bool,
    /// Contrast slider.
    pub contrast: bool,
    /// Saturation slider.
    pub saturation: bool,
    /// Hue slider.
    pub hue: bool,
    /// Sharpness slider.
    pub sharpness: bool,
    /// Gamma slider.
    pub gamma: bool,
    /// Backlight compensation.
    pub backlight_compensation: bool,
    /// Gain slider.
    pub gain: bool,
    /// Auto white balance toggle.
    pub white_balance_auto: bool,
    /// Manual white balance temperature supported.
    pub white_balance_manual: bool,
    /// Auto exposure mode menu.
    pub exposure_auto: bool,
    /// Manual exposure time supported.
    pub exposure_manual: bool,
    /// Continuous autofocus toggle.
    pub focus_auto: bool,
    /// Manual focus position supported.
    pub focus_manual: bool,
    /// Anti-flicker menu.
    pub anti_flicker: bool,
    /// HDR toggle.
    pub hdr: bool,
    /// Field-of-view discrete selector.
    pub fov_mode: bool,
    /// Auto-framing mode selector.
    pub auto_framing: bool,
    /// Face-priority auto-exposure toggle.
    pub face_auto_exposure: bool,
    /// Face-priority auto-focus toggle.
    pub face_auto_focus: bool,
    /// Gesture-control toggle.
    pub gesture_control: bool,
}

/// No feature is supported.
pub open spec fn capabilities_none(c: Capabilities) -> bool {
    &&& !c.pan
    &&& !c.tilt
    &&& !c.zoom
    &&& !c.pan_speed
    &&& !c.tilt_speed
    &&& !c.brightness
    &&& !c.contrast
    &&& !c.saturation
    &&& !c.hue
    &&& !c.sharpness
    &&& !c.gamma
    &&& !c.backlight_compensation
    &&& !c.gain
    &&& !c.white_balance_auto
    &&& !c.white_balance_manual
    &&& !c.exposure_auto
    &&& !c.exposure_manual
    &&& !c.focus_auto
    &&& !c.focus_manual
    &&& !c.anti_flicker
    &&& !c.hdr
    &&& !c.fov_mode
    &&& !c.auto_framing
    &&& !c.face_auto_exposure
    &&& !c.face_auto_focus
    &&& !c.gesture_control
}

impl Default for Capabilities {
    /// Nothing supported.
    fn default() -> (c: Self)
        ensures
            capabilities_none(c),
    {
        Capabilities {
            pan: false,
            tilt: false,
            zoom: false,
            pan_speed: false,
            tilt_speed: false,
            brightness: false,
            contrast: false,
            saturation: false,
            hue: false,
            sharpness: false,
            gamma: false,
            backlight_compensation: false,
            gain: false,
            white_balance_auto: false,
            white_balance_manual: false,
            exposure_auto: false,
            exposure_manual: false,
            focus_auto: false,
            focus_manual: false,
            anti_flicker: false,
            hdr: false,
            fov_mode: false,
            auto_framing: false,
            face_auto_exposure: false,
            face_auto_focus: false,
            gesture_control: false,
        }
    }
}

/// Anti-flicker frequency setting.
#[derive(Debug, Clone, Copy, PartialEq, Eq, Structural)]
#[non_exhaustive]
pub enum AntiFlicker {
    /// Anti-flicker disabled.
    Disabled,
    /// 50 Hz mains.
    Hz50,
    /// 60 Hz mains.
    Hz60,
}

/// Auto-exposure mode.
#[derive(Debug, Clone, Copy, PartialEq, Eq, Structural)]
#[non_exhaustive]
pub enum ExposureMode {
    /// Auto-exposure.
    Auto,
    /// Manual exposure.
    Manual,
    /// Aperture-priority auto-exposure.
    AperturePriority,
}

/// Field-of-view discrete setting.
#[derive(Debug, Clone, Copy, PartialEq, Eq, Structural)]
#[non_exhaustive]
pub enum Fov {
    /// Widest FOV the device supports.
    Wide,
    /// Mid FOV.
    Medium,
    /// Narrowest FOV the device supports.
    Narrow,
}

/// Auto-framing mode.
#[derive(Debug, Clone, Copy, PartialEq, Eq, Structural)]
#[non_exhaustive]
pub enum AutoFramingMode {
    /// Auto-framing disabled.
    Off,
    /// Track a single subject.
    Single,
    /// Frame a group of people.
    Group,
    /// Track the subject's upper body.
    UpperBody,
}

/// A connected camera and the operations the GUI/CLI can perform on it.
///
/// Every method but [`Camera::info`] and [`Camera::capabilities`] has a
/// default that returns [`Error::Unsupported`]; backends override only
/// what they implement.
pub trait Camera: Send + Sync {
    /// Static identification info.
    fn info(&self) -> CameraInfo;

    /// Which controls this device exposes.
    fn capabilities(&self) -> Capabilities;

    /// Current brightness in the device-advertised range.
    fn brightness(&self) -> (r: Result<i32>)
        default_ensures
            r matches Err(Error::Unsupported),
    {
        Err(Error::Unsupported)
    }

    /// Set brightness.
    fn set_brightness(&self, _value: i32) -> (r: Result<()>)
        default_ensures
            r matches Err(Error::Unsupported),
    {
        Err(Error::Unsupported)
    }

    /// Current contrast.
    fn contrast(&self) -> (r: Result<i32>)
        default_ensures
            r matches Err(Error::Unsupported),
    {
        Err(Error::Unsupported)
    }

    /// Set contrast.
    fn set_contrast(&self, _value: i32) -> (r: Result<()>)
        default_ensures
            r matches Err(Error::Unsupported),
    {
        Err(Error::Unsupported)
    }

    /// Current saturation.
    fn saturation(&self) -> (r: Result<i32>)
        default_ensures
            r matches Err(Error::Unsupported),
    {
        Err(Error::Unsupported)
    }

    /// Set saturation.
    fn set_saturation(&self, _value: i32) -> (r: Result<()>)
        default_ensures
            r matches Err(Error::Unsupported),
    {
        Err(Error::Unsupported)
    }

    /// Current hue.
    fn hue(&self) -> (r: Result<i32>)
        default_ensures
            r matches Err(Error::Unsupported),
    {
        Err(Error::Unsupported)
    }

    /// Set hue.
    fn set_hue(&self, _value: i32) -> (r: Result<()>)
        default_ensures
            r matches Err(Error::Unsupported),
    {
        Err(Error::Unsupported)
    }

    /// Current sharpness.
    fn sharpness(&self) -> (r: Result<i32>)
        default_ensures
            r matches Err(Error::Unsupported),
    {
        Err(Error::Unsupported)
    }

    /// Set sharpness.
    fn set_sharpness(&self, _value: i32) -> (r: Result<()>)
        default_ensures
            r matches Err(Error::Unsupported),
    {
        Err(Error::Unsupported)
    }

    /// Current gamma (typically vendor-XU-only on the Tiny 2 family).
    fn gamma(&self) -> (r: Result<i32>)
        default_ensures
            r matches Err(Error::Unsupported),
    {
        Err(Error::Unsupported)
    }

    /// Set gamma.
    fn set_gamma(&self, _value: i32) -> (r: Result<()>)
        default_ensures
            r matches Err(Error::Unsupported),
    {
        Err(Error::Unsupported)
    }

    /// Current backlight-compensation value.
    fn backlight_compensation(&self) -> (r: Result<i32>)
        default_ensures
            r matches Err(Error::Unsupported),
    {
        Err(Error::Unsupported)
    }

    /// Set backlight-compensation value.
    fn set_backlight_compensation(&self, _value: i32) -> (r: Result<()>)
        default_ensures
            r matches Err(Error::Unsupported),
    {
        Err(Error::Unsupported)
    }

    /// Current sensor gain.
    fn gain(&self) -> (r: Result<i32>)
        default_ensures
            r matches Err(Error::Unsupported),
    {
        Err(Error::Unsupported)
    }

    /// Set sensor gain.
    fn set_gain(&self, _value: i32) -> (r: Result<()>)
        default_ensures
            r matches Err(Error::Unsupported),
    {
        Err(Error::Unsupported)
    }

    /// Whether auto white-balance is engaged.
    fn white_balance_auto(&self) -> (r: Result<bool>)
        default_ensures
            r matches Err(Error::Unsupported),
    {
        Err(Error::Unsupported)
    }

    /// Engage or release auto white-balance.
    fn set_white_balance_auto(&self, _on: bool) -> (r: Result<()>)
        default_ensures
            r matches Err(Error::Unsupported),
    {
        Err(Error::Unsupported)
    }

    /// Manual white-balance colour temperature, in Kelvin.
    fn white_balance_temperature(&self) -> (r: Result<i32>)
        default_ensures
            r matches Err(Error::Unsupported),
    {
        Err(Error::Unsupported)
    }

    /// Set manual white-balance colour temperature, in Kelvin.
    fn set_white_balance_temperature(&self, _kelvin: i32) -> (r: Result<()>)
        default_ensures
            r matches Err(Error::Unsupported),
    {
        Err(Error::Unsupported)
    }

    /// Current auto-exposure mode.
    fn exposure_mode(&self) -> (r: Result<ExposureMode>)
        default_ensures
            r matches Err(Error::Unsupported),
    {
        Err(Error::Unsupported)
    }

    /// Set auto-exposure mode.
    fn set_exposure_mode(&self, _mode: ExposureMode) -> (r: Result<()>)
        default_ensures
            r matches Err(Error::Unsupported),
    {
        Err(Error::Unsupported)
    }

    /// Manual exposure time, in the device's native units.
    fn exposure_time(&self) -> (r: Result<i32>)
        default_ensures
            r matches Err(Error::Unsupported),
    {
        Err(Error::Unsupported)
    }

    /// Set manual exposure time.
    fn set_exposure_time(&self, _value: i32) -> (r: Result<()>)
        default_ensures
            r matches Err(Error::Unsupported),
    {
        Err(Error::Unsupported)
    }

    /// Whether continuous autofocus is engaged.
    fn focus_auto(&self) -> (r: Result<bool>)
        default_ensures
            r matches Err(Error::Unsupported),
    {
        Err(Error::Unsupported)
    }

    /// Engage or release continuous autofocus.
    fn set_focus_auto(&self, _on: bool) -> (r: Result<()>)
        default_ensures
            r matches Err(Error::Unsupported),
    {
        Err(Error::Unsupported)
    }

    /// Manual focus position.
    fn focus(&self) -> (r: Result<i32>)
        default_ensures
            r matches Err(Error::Unsupported),
    {
        Err(Error::Unsupported)
    }

    /// Set manual focus position.
    fn set_focus(&self, _value: i32) -> (r: Result<()>)
        default_ensures
            r matches Err(Error::Unsupported),
    {
        Err(Error::Unsupported)
    }

    /// Anti-flicker setting.
    fn anti_flicker(&self) -> (r: Result<AntiFlicker>)
        default_ensures
            r matches Err(Error::Unsupported),
    {
        Err(Error::Unsupported)
    }

    /// Set anti-flicker setting.
    fn set_anti_flicker(&self, _v: AntiFlicker) -> (r: Result<()>)
        default_ensures
            r matches Err(Error::Unsupported),
    {
        Err(Error::Unsupported)
    }

    /// Current pan (degrees times 3600).
    fn pan(&self) -> (r: Result<i32>)
        default_ensures
            r matches Err(Error::Unsupported),
    {
        Err(Error::Unsupported)
    }

    /// Set pan.
    fn set_pan(&self, _value: i32) -> (r: Result<()>)
        default_ensures
            r matches Err(Error::Unsupported),
    {
        Err(Error::Unsupported)
    }

    /// Current tilt (degrees times 3600).
    fn tilt(&self) -> (r: Result<i32>)
        default_ensures
            r matches Err(Error::Unsupported),
    {
        Err(Error::Unsupported)
    }

    /// Set tilt.
    fn set_tilt(&self, _value: i32) -> (r: Result<()>)
        default_ensures
            r matches Err(Error::Unsupported),
    {
        Err(Error::Unsupported)
    }

    /// Current zoom (device-relative units).
    fn zoom(&self) -> (r: Result<i32>)
        default_ensures
            r matches Err(Error::Unsupported),
    {
        Err(Error::Unsupported)
    }

    /// Set zoom.
    fn set_zoom(&self, _value: i32) -> (r: Result<()>)
        default_ensures
            r matches Err(Error::Unsupported),
    {
        Err(Error::Unsupported)
    }

    /// Current pan velocity (signed).
    fn pan_speed(&self) -> (r: Result<i32>)
        default_ensures
            r matches Err(Error::Unsupported),
    {
        Err(Error::Unsupported)
    }

    /// Set pan velocity.
    fn set_pan_speed(&self, _value: i32) -> (r: Result<()>)
        default_ensures
            r matches Err(Error::Unsupported),
    {
        Err(Error::Unsupported)
    }

    /// Current tilt velocity (signed).
    fn tilt_speed(&self) -> (r: Result<i32>)
        default_ensures
            r matches Err(Error::Unsupported),
    {
        Err(Error::Unsupported)
    }

    /// Set tilt velocity.
    fn set_tilt_speed(&self, _value: i32) -> (r: Result<()>)
        default_ensures
            r matches Err(Error::Unsupported),
    {
        Err(Error::Unsupported)
    }

    /// Whether HDR is enabled.
    fn hdr_enabled(&self) -> (r: Result<bool>)
        default_ensures
            r matches Err(Error::Unsupported),
    {
        Err(Error::Unsupported)
    }

    /// Toggle HDR.
    fn set_hdr_enabled(&self, _on: bool) -> (r: Result<()>)
        default_ensures
            r matches Err(Error::Unsupported),
    {
        Err(Error::Unsupported)
    }

    /// Current field-of-view setting.
    fn fov(&self) -> (r: Result<Fov>)
        default_ensures
            r matches Err(Error::Unsupported),
    {
        Err(Error::Unsupported)
    }

    /// Set field-of-view setting.
    fn set_fov(&self, _fov: Fov) -> (r: Result<()>)
        default_ensures
            r matches Err(Error::Unsupported),
    {
        Err(Error::Unsupported)
    }

    /// Current auto-framing mode.
    fn auto_framing(&self) -> (r: Result<AutoFramingMode>)
        default_ensures
            r matches Err(Error::Unsupported),
    {
        Err(Error::Unsupported)
    }

    /// Set auto-framing mode.
    fn set_auto_framing(&self, _mode: AutoFramingMode) -> (r: Result<()>)
        default_ensures
            r matches Err(Error::Unsupported),
    {
        Err(Error::Unsupported)
    }

    /// Whether face-priority auto-exposure is engaged.
    fn face_auto_exposure(&self) -> (r: Result<bool>)
        default_ensures
            r matches Err(Error::Unsupported),
    {
        Err(Error::Unsupported)
    }

    /// Engage face-priority auto-exposure.
    fn set_face_auto_exposure(&self, _on: bool) -> (r: Result<()>)
        default_ensures
            r matches Err(Error::Unsupported),
    {
        Err(Error::Unsupported)
    }

    /// Whether face-priority auto-focus is engaged.
    fn face_auto_focus(&self) -> (r: Result<bool>)
        default_ensures
            r matches Err(Error::Unsupported),
    {
        Err(Error::Unsupported)
    }

    /// Engage face-priority auto-focus.
    fn set_face_auto_focus(&self, _on: bool) -> (r: Result<()>)
        default_ensures
            r matches Err(Error::Unsupported),
    {
        Err(Error::Unsupported)
    }

    /// Whether gesture control is engaged.
    fn gesture_control(&self) -> (r: Result<bool>)
        default_ensures
            r matches Err(Error::Unsupported),
    {
        Err(Error::Unsupported)
    }

    /// Engage gesture control.
    fn set_gesture_control(&self, _on: bool) -> (r: Result<()>)
        default_ensures
            r matches Err(Error::Unsupported),
    {
        Err(Error::Unsupported)
    }
}

} // verus!

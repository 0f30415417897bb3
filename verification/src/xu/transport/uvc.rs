//! UVC class-specific request codes (USB Video Class 1.5 §4.2.1).

use vstd::prelude::*;

verus! {

/// Write the current setting (host to device).
pub const SET_CUR: u8 = 0x01;

/// Read the current setting (device to host).
pub const GET_CUR: u8 = 0x81;

/// Read the minimum value.
pub const GET_MIN: u8 = 0x82;

/// Read the maximum value.
pub const GET_MAX: u8 = 0x83;

/// Read the resolution (smallest step).
pub const GET_RES: u8 = 0x84;

/// Read the payload length the device expects on this selector.
pub const GET_LEN: u8 = 0x85;

/// Read the capability info bitmap.
pub const GET_INFO: u8 = 0x86;

/// Read the default value.
pub const GET_DEF: u8 = 0x87;

} // verus!

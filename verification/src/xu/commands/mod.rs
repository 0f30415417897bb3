//! Per-opcode and per-frame payload builders.
//!
//! Selector-0x06 opcodes live in [`hdr`], [`face_ae`], [`fov`] and
//! [`ai_mode`]; selector-0x02 36-byte frames in [`exposure_mode_type`],
//! [`sleep`], [`tracking_speed`], [`preset`] and [`gesture`].

pub mod ai_mode;
pub mod exposure_mode_type;
pub mod face_ae;
pub mod fov;
pub mod gesture;
pub mod hdr;
pub mod preset;
pub mod sleep;
pub mod tracking_speed;

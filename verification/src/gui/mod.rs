//! The rules behind the control panel: restoring persisted control
//! values, stepping pan / tilt, the zoom lock, the keys settings are
//! stored under, the AI dropdowns, the page and tab layout decisions,
//! and hot-plug bookkeeping. The widgets themselves are built by the
//! program around the library.

pub mod ai_effects_view;
pub mod controls_view;
pub mod ptz_pad;
pub mod settings;
pub mod window;

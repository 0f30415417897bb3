//! UVC Extension Unit (XU) command surface for the OBSBOT Tiny 2 family.
//!
//! The vendor surface sits on `bUnitID = 0x02` and is multiplexed across
//! two selectors: `0x06` carries opcode-multiplexed `[op, len, payload]`
//! writes and returns the 60-byte status struct, `0x02` carries
//! structured 36-byte frames.

pub mod enums;
pub mod command02;
pub mod errors;
pub mod status;
pub mod commands;
pub mod transport;
pub mod v4l2_ptz;

pub use enums::{AiMode, ExposureMode, FaceAeMode, FovMode, SleepState, TrackingSpeed};
pub use errors::XuError;
pub use status::{Status, STATUS_LEN};
pub use transport::{BUNIT_ID, SELECTOR_FRAME, SELECTOR_OPCODE};

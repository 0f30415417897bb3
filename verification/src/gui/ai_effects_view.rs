//! The dropdowns of the "AI & Effects" group: the order their entries
//! are listed in, which entry a read-back status selects, and which mode
//! a selected entry writes.

use vstd::prelude::*;

use crate::xu::{AiMode, FovMode, Status, TrackingSpeed};

verus! {

/// The AI mode listed at dropdown position `i`: the order the vendor's
/// own application presents, then by frequency of use.
pub open spec fn ai_mode_at_spec(i: int) -> Option<AiMode> {
    if i == 0 {
        Some(AiMode::NoTracking)
    } else if i == 1 {
        Some(AiMode::NormalTracking)
    } else if i == 2 {
        Some(AiMode::UpperBody)
    } else if i == 3 {
        Some(AiMode::CloseUp)
    } else if i == 4 {
        Some(AiMode::Headless)
    } else if i == 5 {
        Some(AiMode::LowerBody)
    } else if i == 6 {
        Some(AiMode::Group)
    } else if i == 7 {
        Some(AiMode::DeskMode)
    } else if i == 8 {
        Some(AiMode::Whiteboard)
    } else if i == 9 {
        Some(AiMode::Hand)
    } else {
        None
    }
}

/// The dropdown position of an AI mode.
pub open spec fn ai_mode_index_spec(mode: AiMode) -> u32 {
    match mode {
        AiMode::NoTracking => 0,
        AiMode::NormalTracking => 1,
        AiMode::UpperBody => 2,
        AiMode::CloseUp => 3,
        AiMode::Headless => 4,
        AiMode::LowerBody => 5,
        AiMode::Group => 6,
        AiMode::DeskMode => 7,
        AiMode::Whiteboard => 8,
        AiMode::Hand => 9,
    }
}

/// The AI mode a selected dropdown entry writes, `None` past the end.
pub fn ai_mode_at(idx: u32) -> (r: Option<AiMode>)
    ensures
        r == ai_mode_at_spec(idx as int),
{
    match idx {
        0 => Some(AiMode::NoTracking),
        1 => Some(AiMode::NormalTracking),
        2 => Some(AiMode::UpperBody),
        3 => Some(AiMode::CloseUp),
        4 => Some(AiMode::Headless),
        5 => Some(AiMode::LowerBody),
        6 => Some(AiMode::Group),
        7 => Some(AiMode::DeskMode),
        8 => Some(AiMode::Whiteboard),
        9 => Some(AiMode::Hand),
        _ => None,
    }
}

/// The AI-mode entry selected when the page opens: the read-back
/// status's mode, or the first entry when no status was read.
pub fn ai_mode_selection(baseline: Option<&Status>) -> (r: u32)
    ensures
        r == match baseline {
            Some(s) => ai_mode_index_spec(s.ai_mode),
            None => 0,
        },
{
    match baseline {
        Some(s) => match s.ai_mode {
            AiMode::NoTracking => 0,
            AiMode::NormalTracking => 1,
            AiMode::UpperBody => 2,
            AiMode::CloseUp => 3,
            AiMode::Headless => 4,
            AiMode::LowerBody => 5,
            AiMode::Group => 6,
            AiMode::DeskMode => 7,
            AiMode::Whiteboard => 8,
            AiMode::Hand => 9,
        },
        None => 0,
    }
}

/// Every AI mode is listed exactly once: the entry at a mode's position
/// is that mode, and the position of the mode at an entry is that entry.
pub proof fn lemma_ai_mode_order_is_a_bijection(mode: AiMode, i: int)
    ensures
        ai_mode_at_spec(ai_mode_index_spec(mode) as int) == Some(mode),
        0 <= i < 10 ==> (ai_mode_at_spec(i) matches Some(m) && ai_mode_index_spec(m) == i),
        !(0 <= i < 10) ==> ai_mode_at_spec(i) is None,
{
}

/// The field of view listed at dropdown position `i`.
pub open spec fn fov_at_spec(i: int) -> Option<FovMode> {
    if i == 0 {
        Some(FovMode::Wide)
    } else if i == 1 {
        Some(FovMode::Normal)
    } else if i == 2 {
        Some(FovMode::Narrow)
    } else {
        None
    }
}

/// The field of view a selected dropdown entry writes, `None` past the
/// end. The status does not report the field of view, so the dropdown
/// always opens on its first entry.
pub fn fov_at(idx: u32) -> (r: Option<FovMode>)
    ensures
        r == fov_at_spec(idx as int),
{
    match idx {
        0 => Some(FovMode::Wide),
        1 => Some(FovMode::Normal),
        2 => Some(FovMode::Narrow),
        _ => None,
    }
}

/// The tracking speed listed at dropdown position `i`.
pub open spec fn tracking_speed_at_spec(i: int) -> Option<TrackingSpeed> {
    if i == 0 {
        Some(TrackingSpeed::Standard)
    } else if i == 1 {
        Some(TrackingSpeed::Sport)
    } else {
        None
    }
}

/// The dropdown position of a tracking speed.
pub open spec fn tracking_speed_index_spec(speed: TrackingSpeed) -> u32 {
    match speed {
        TrackingSpeed::Standard => 0,
        TrackingSpeed::Sport => 1,
    }
}

/// The tracking speed a selected dropdown entry writes, `None` past the
/// end.
pub fn tracking_speed_at(idx: u32) -> (r: Option<TrackingSpeed>)
    ensures
        r == tracking_speed_at_spec(idx as int),
{
    match idx {
        0 => Some(TrackingSpeed::Standard),
        1 => Some(TrackingSpeed::Sport),
        _ => None,
    }
}

/// The tracking-speed entry selected when the page opens: the read-back
/// status's speed, or the first entry when no status was read.
pub fn tracking_speed_selection(baseline: Option<&Status>) -> (r: u32)
    ensures
        r == match baseline {
            Some(s) => tracking_speed_index_spec(s.tracking_speed),
            None => 0,
        },
{
    match baseline {
        Some(s) => match s.tracking_speed {
            TrackingSpeed::Standard => 0,
            TrackingSpeed::Sport => 1,
        },
        None => 0,
    }
}

/// Every tracking speed is listed exactly once, and the dropdown entry
/// a status selects writes that status's speed back.
pub proof fn lemma_tracking_speed_order_is_a_bijection(speed: TrackingSpeed, i: int)
    ensures
        tracking_speed_at_spec(tracking_speed_index_spec(speed) as int) == Some(speed),
        0 <= i < 2 ==> (tracking_speed_at_spec(i) matches Some(t) && tracking_speed_index_spec(t)
            == i),
        !(0 <= i < 2) ==> tracking_speed_at_spec(i) is None,
{
}

/// The dropdown entries, top to bottom: AI mode lists no tracking,
/// normal tracking, upper body, close-up, headless, lower body, group,
/// desk mode, whiteboard, hand; field of view lists wide, normal,
/// narrow; tracking speed lists standard, sport.
pub proof fn lemma_dropdown_entries()
    ensures
        ai_mode_at_spec(0) == Some(AiMode::NoTracking),
        ai_mode_at_spec(1) == Some(AiMode::NormalTracking),
        ai_mode_at_spec(2) == Some(AiMode::UpperBody),
        ai_mode_at_spec(3) == Some(AiMode::CloseUp),
        ai_mode_at_spec(4) == Some(AiMode::Headless),
        ai_mode_at_spec(5) == Some(AiMode::LowerBody),
        ai_mode_at_spec(6) == Some(AiMode::Group),
        ai_mode_at_spec(7) == Some(AiMode::DeskMode),
        ai_mode_at_spec(8) == Some(AiMode::Whiteboard),
        ai_mode_at_spec(9) == Some(AiMode::Hand),
        fov_at_spec(0) == Some(FovMode::Wide),
        fov_at_spec(1) == Some(FovMode::Normal),
        fov_at_spec(2) == Some(FovMode::Narrow),
        forall|i: int| !(0 <= i < 3) ==> #[trigger] fov_at_spec(i) is None,
        tracking_speed_at_spec(0) == Some(TrackingSpeed::Standard),
        tracking_speed_at_spec(1) == Some(TrackingSpeed::Sport),
{
}

} // verus!

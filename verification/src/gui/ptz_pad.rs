//! Stepping rules of the PTZ pad, the control lookups it starts from and
//! the zoom lock watchdog decision.

use vstd::prelude::*;

use crate::controls::{ControlDescriptor, ControlKind};
use crate::gui::controls_view::{clamp_i64_to_i32, clamp_spec, saturate_i32};

verus! {

/// `V4L2_CID_PAN_ABSOLUTE`.
pub const CID_PAN_ABSOLUTE: u32 = 0x009a_0908;

/// `V4L2_CID_TILT_ABSOLUTE`.
pub const CID_TILT_ABSOLUTE: u32 = 0x009a_0909;

/// `V4L2_CID_FOCUS_ABSOLUTE`.
pub const CID_FOCUS_ABSOLUTE: u32 = 0x009a_090a;

/// `V4L2_CID_FOCUS_AUTO`.
pub const CID_FOCUS_AUTOMATIC_CONTINUOUS: u32 = 0x009a_090c;

/// `V4L2_CID_ZOOM_ABSOLUTE`.
pub const CID_ZOOM_ABSOLUTE: u32 = 0x009a_090d;

/// `V4L2_CID_ZOOM_CONTINUOUS`.
pub const CID_ZOOM_CONTINUOUS: u32 = 0x009a_090f;

/// `V4L2_CID_PAN_SPEED`.
pub const CID_PAN_SPEED: u32 = 0x009a_0920;

/// `V4L2_CID_TILT_SPEED`.
pub const CID_TILT_SPEED: u32 = 0x009a_0921;

/// Control IDs the PTZ pad (and the focus group) consume, so the generic
/// per-class render leaves them out.
pub const PTZ_PAD_IDS: [u32; 8] = [
    CID_PAN_ABSOLUTE,
    CID_TILT_ABSOLUTE,
    CID_FOCUS_ABSOLUTE,
    CID_FOCUS_AUTOMATIC_CONTINUOUS,
    CID_ZOOM_ABSOLUTE,
    CID_ZOOM_CONTINUOUS,
    CID_PAN_SPEED,
    CID_TILT_SPEED,
];

/// The eight directional pad buttons and the `(pan, tilt)` sign each
/// steps by (north tilts up).
pub const PAD_DIRECTIONS: [(i64, i64); 8] = [
    (0, 1),
    (0, -1),
    (1, 0),
    (-1, 0),
    (1, 1),
    (-1, 1),
    (1, -1),
    (-1, -1),
];

/// Watchdog ticks between two liveness lines in the zoom-lock log.
pub const ZOOM_LOCK_LOG_EVERY: u32 = 30;

/// V4L2 pan/tilt units per degree.
pub const UNITS_PER_DEGREE: i64 = 3600;

/// Step size per directional click or key press, in degrees.
pub const PAN_TILT_STEP_DEGREES: i64 = 5;

/// Step size per directional click or key press, in V4L2 units.
pub const PAN_TILT_STEP: i64 = PAN_TILT_STEP_DEGREES * UNITS_PER_DEGREE;

/// Whether one step from `current` stays within `i64` arithmetic and
/// the range is well formed.
pub open spec fn step_fits(current: int, sign: int, step: int, min: int, max: int) -> bool {
    &&& min <= max
    &&& i64::MIN <= sign * step <= i64::MAX
    &&& i64::MIN <= current + sign * step <= i64::MAX
}

/// `current + sign * step`, clamped to `[min, max]`.
pub fn next_position(current: i64, sign: i64, step: i64, min: i64, max: i64) -> (r: i64)
    requires
        step_fits(current as int, sign as int, step as int, min as int, max as int),
    ensures
        r == clamp_spec(current + sign * step, min as int, max as int),
{
    let target = current + sign * step;
    if target < min {
        min
    } else if target > max {
        max
    } else {
        target
    }
}

/// A step always lands inside the range, and a zero sign leaves an
/// in-range position where it is.
pub proof fn lemma_step_in_range(current: int, sign: int, step: int, min: int, max: int)
    requires
        min <= max,
    ensures
        min <= clamp_spec(current + sign * step, min, max) <= max,
        sign == 0 && min <= current <= max ==> clamp_spec(current + sign * step, min, max)
            == current,
{
    if sign == 0 {
        assert(sign * step == 0);
    }
}

/// What the zoom-lock watchdog must write: the pinned value, but only
/// while the lock is engaged, the current zoom was read, and the device
/// has drifted away from the pinned value.
pub open spec fn restore_spec(current: Option<i64>, pinned: Option<i64>) -> Option<i64> {
    match (current, pinned) {
        (Some(c), Some(p)) => if c != p {
            Some(p)
        } else {
            None
        },
        _ => None,
    }
}

/// Decide what the zoom-lock watchdog must write, if anything.
pub fn restore_target(current: Option<i64>, pinned: Option<i64>) -> (r: Option<i64>)
    ensures
        r == restore_spec(current, pinned),
{
    let pinned = match pinned {
        Some(p) => p,
        None => return None,
    };
    let current = match current {
        Some(c) => c,
        None => return None,
    };
    if current != pinned {
        Some(pinned)
    } else {
        None
    }
}

/// After the watchdog writes its target, the next decision on that
/// reading writes nothing: the lock converges in one write.
pub proof fn lemma_restore_converges(current: Option<i64>, pinned: Option<i64>)
    ensures
        restore_spec(current, pinned) matches Some(t) ==> restore_spec(Some(t), pinned) is None,
        restore_spec(current, pinned) matches Some(t) ==> pinned == Some(t),
{
}

/// One axis of a directional step. A zero sign leaves the axis alone.
/// The step is taken from a freshly read position: when that read failed
/// the move is skipped, since a stale absolute target could swing the
/// gimbal far. Otherwise the target is one [`PAN_TILT_STEP`] away,
/// clamped to the axis range.
pub open spec fn axis_step_spec(sign: i64, current: Option<i64>, min: i64, max: i64) -> Option<i64> {
    if sign == 0 {
        None
    } else {
        match current {
            Some(c) => Some(clamp_spec(c + sign * PAN_TILT_STEP, min as int, max as int) as i64),
            None => None,
        }
    }
}

/// Decide the write for one axis of a directional step, if any.
pub fn axis_step(sign: i64, current: Option<i64>, min: i64, max: i64) -> (r: Option<i64>)
    requires
        sign != 0 && current is Some ==> step_fits(
            current->0 as int,
            sign as int,
            PAN_TILT_STEP as int,
            min as int,
            max as int,
        ),
    ensures
        r == axis_step_spec(sign, current, min, max),
{
    if sign == 0 {
        return None;
    }
    match current {
        Some(c) => Some(next_position(c, sign, PAN_TILT_STEP, min, max)),
        None => None,
    }
}

/// Read-once snapshot of an integer control's value and range.
#[derive(Debug, Clone, Copy, PartialEq, Eq, Structural)]
pub struct IntRange {
    /// Current value.
    pub current: i64,
    /// Inclusive minimum.
    pub min: i64,
    /// Inclusive maximum.
    pub max: i64,
    /// Step between valid values.
    pub step: u64,
}

/// The first control in `controls` whose ID is `id`.
pub open spec fn first_with_id(controls: Seq<ControlDescriptor>, id: u32) -> Option<ControlDescriptor>
    decreases controls.len(),
{
    if controls.len() == 0 {
        None
    } else if controls[0].id == id {
        Some(controls[0])
    } else {
        first_with_id(controls.drop_first(), id)
    }
}

/// The range of the first control with ID `id`, when it is an integer
/// control.
pub open spec fn find_int_spec(controls: Seq<ControlDescriptor>, id: u32) -> Option<IntRange> {
    match first_with_id(controls, id) {
        Some(d) => match d.kind {
            ControlKind::Integer { current, min, max, step, .. } => Some(
                IntRange { current, min, max, step },
            ),
            _ => None,
        },
        None => None,
    }
}

/// The value of the first control with ID `id`, when it is a boolean
/// control.
pub open spec fn find_bool_spec(controls: Seq<ControlDescriptor>, id: u32) -> Option<bool> {
    match first_with_id(controls, id) {
        Some(d) => match d.kind {
            ControlKind::Boolean { current, .. } => Some(current),
            _ => None,
        },
        None => None,
    }
}

/// Position of the first control with ID `id`.
fn position_with_id(controls: &[ControlDescriptor], id: u32) -> (r: Option<usize>)
    ensures
        match r {
            Some(i) => i < controls@.len() && first_with_id(controls@, id) == Some(controls@[i as int]),
            None => first_with_id(controls@, id) is None,
        },
{
    let mut i: usize = 0;
    assert(controls@.skip(0) =~= controls@);
    while i < controls.len()
        invariant
            i <= controls@.len(),
            first_with_id(controls@, id) == first_with_id(controls@.skip(i as int), id),
        decreases controls@.len() - i,
    {
        assert(controls@.skip(i as int)[0] == controls@[i as int]);
        if controls[i].id == id {
            return Some(i);
        }
        assert(controls@.skip(i as int).drop_first() =~= controls@.skip(i + 1));
        i = i + 1;
    }
    None
}

/// Look up an integer control by V4L2 ID and snapshot its range.
pub fn find_int(controls: &[ControlDescriptor], id: u32) -> (r: Option<IntRange>)
    ensures
        r == find_int_spec(controls@, id),
{
    match position_with_id(controls, id) {
        Some(i) => match &controls[i].kind {
            ControlKind::Integer { current, min, max, step, .. } => Some(
                IntRange { current: *current, min: *min, max: *max, step: *step },
            ),
            _ => None,
        },
        None => None,
    }
}

/// Look up a boolean control by V4L2 ID and read its value.
pub fn find_bool(controls: &[ControlDescriptor], id: u32) -> (r: Option<bool>)
    ensures
        r == find_bool_spec(controls@, id),
{
    match position_with_id(controls, id) {
        Some(i) => match &controls[i].kind {
            ControlKind::Boolean { current, .. } => Some(*current),
            _ => None,
        },
        None => None,
    }
}

/// The pan, tilt and zoom ranges the PTZ pad is built from; the pad is
/// built only when all three are integer controls.
pub open spec fn pad_ranges_spec(controls: Seq<ControlDescriptor>) -> Option<(IntRange, IntRange, IntRange)> {
    match (
        find_int_spec(controls, CID_PAN_ABSOLUTE),
        find_int_spec(controls, CID_TILT_ABSOLUTE),
        find_int_spec(controls, CID_ZOOM_ABSOLUTE),
    ) {
        (Some(pan), Some(tilt), Some(zoom)) => Some((pan, tilt, zoom)),
        _ => None,
    }
}

/// Snapshot the pan, tilt and zoom ranges, or `None` when the camera
/// lacks any of them as an integer control (then there is no pad).
pub fn pad_ranges(controls: &[ControlDescriptor]) -> (r: Option<(IntRange, IntRange, IntRange)>)
    ensures
        r == pad_ranges_spec(controls@),
{
    let pan = match find_int(controls, CID_PAN_ABSOLUTE) {
        Some(p) => p,
        None => return None,
    };
    let tilt = match find_int(controls, CID_TILT_ABSOLUTE) {
        Some(t) => t,
        None => return None,
    };
    let zoom = match find_int(controls, CID_ZOOM_ABSOLUTE) {
        Some(z) => z,
        None => return None,
    };
    Some((pan, tilt, zoom))
}

/// Saturating-clamp an `i64` to `i32` (V4L2 standard control values
/// are 32-bit).
pub fn clamp_i32(v: i64) -> (r: i32)
    ensures
        r == saturate_i32(v as int),
{
    clamp_i64_to_i32(v)
}

/// A key that reached the PTZ key handler (the keypad variants map to
/// the same keys).
#[derive(Debug, Clone, Copy, PartialEq, Eq, Structural)]
pub enum PadKey {
    /// Left arrow.
    Left,
    /// Right arrow.
    Right,
    /// Up arrow.
    Up,
    /// Down arrow.
    Down,
    /// Home.
    Home,
    /// Any other key.
    Other,
}

/// What the PTZ key handler does with a key press.
#[derive(Debug, Clone, Copy, PartialEq, Eq, Structural)]
pub enum KeyAction {
    /// Let the key propagate (unmapped key, or an application shortcut).
    Pass,
    /// One step on each non-zero axis, then stop propagation.
    Step {
        /// Pan sign.
        dx: i64,
        /// Tilt sign.
        dy: i64,
    },
    /// Write pan = tilt = 0, then stop propagation.
    Recenter,
}

/// The key mapping of the PTZ pad: Left / Right pan, Up / Down tilt (Up
/// looks up), Home recenters; any key with Ctrl, Alt or Super held is
/// left to the application's shortcuts.
pub open spec fn key_action_spec(key: PadKey, modifier_held: bool) -> KeyAction {
    if modifier_held {
        KeyAction::Pass
    } else {
        match key {
            PadKey::Left => KeyAction::Step { dx: -1i64, dy: 0i64 },
            PadKey::Right => KeyAction::Step { dx: 1i64, dy: 0i64 },
            PadKey::Up => KeyAction::Step { dx: 0i64, dy: 1i64 },
            PadKey::Down => KeyAction::Step { dx: 0i64, dy: -1i64 },
            PadKey::Home => KeyAction::Recenter,
            PadKey::Other => KeyAction::Pass,
        }
    }
}

/// Decide what a key press on the controls page does to the PTZ.
pub fn key_action(key: PadKey, modifier_held: bool) -> (r: KeyAction)
    ensures
        r == key_action_spec(key, modifier_held),
{
    if modifier_held {
        return KeyAction::Pass;
    }
    match key {
        PadKey::Left => KeyAction::Step { dx: -1, dy: 0 },
        PadKey::Right => KeyAction::Step { dx: 1, dy: 0 },
        PadKey::Up => KeyAction::Step { dx: 0, dy: 1 },
        PadKey::Down => KeyAction::Step { dx: 0, dy: -1 },
        PadKey::Home => KeyAction::Recenter,
        PadKey::Other => KeyAction::Pass,
    }
}

/// What the zoom slider does when its value changes.
#[derive(Debug, Clone, Copy, PartialEq, Eq, Structural)]
pub enum SliderAction {
    /// The lock is engaged: move the handle back to the pinned value and
    /// write nothing.
    SnapBack(i64),
    /// Write the new value to `zoom_absolute`.
    Write(i64),
}

/// Decide what a zoom slider change does: while the lock pins a value
/// the slider is inert and snaps back; otherwise the value is written.
pub fn slider_action(pinned: Option<i64>, value: i64) -> (r: SliderAction)
    ensures
        r == (match pinned {
            Some(p) => SliderAction::SnapBack(p),
            None => SliderAction::Write(value),
        }),
{
    match pinned {
        Some(p) => SliderAction::SnapBack(p),
        None => SliderAction::Write(value),
    }
}

/// The outcome of one zoom-lock watchdog tick.
#[derive(Debug, Clone, Copy, PartialEq, Eq, Structural)]
pub struct WatchdogTick {
    /// The lock was released: the watchdog stops and does nothing else.
    pub stop: bool,
    /// Value to write back to `zoom_absolute`, if the device drifted.
    pub write: Option<i64>,
    /// Ticks since the lock was engaged, after this one.
    pub polls: u32,
    /// Drifts corrected since the lock was engaged, after this one.
    pub drifts: u32,
    /// Whether this tick logs a liveness line.
    pub log_alive: bool,
}

/// One watchdog tick: a released lock stops the watchdog; otherwise the
/// tick is counted, a drift (per [`restore_target`]) is written back and
/// counted, and every thirtieth tick logs a liveness line.
pub open spec fn watchdog_spec(pinned: Option<i64>, current: Option<i64>, polls: u32, drifts: u32) -> WatchdogTick {
    match pinned {
        None => WatchdogTick { stop: true, write: None, polls, drifts, log_alive: false },
        Some(_) => {
            let write = restore_spec(current, pinned);
            WatchdogTick {
                stop: false,
                write,
                polls: (polls + 1) as u32,
                drifts: if write is Some {
                    (drifts + 1) as u32
                } else {
                    drifts
                },
                log_alive: (polls + 1) % 30 == 0,
            }
        },
    }
}

/// Decide one tick of the zoom-lock watchdog.
pub fn watchdog_tick(pinned: Option<i64>, current: Option<i64>, polls: u32, drifts: u32) -> (r: WatchdogTick)
    requires
        polls < u32::MAX,
        drifts < u32::MAX,
    ensures
        r == watchdog_spec(pinned, current, polls, drifts),
{
    if pinned.is_none() {
        return WatchdogTick { stop: true, write: None, polls, drifts, log_alive: false };
    }
    let write = restore_target(current, pinned);
    let polls = polls + 1;
    let drifts = if write.is_some() {
        drifts + 1
    } else {
        drifts
    };
    WatchdogTick { stop: false, write, polls, drifts, log_alive: polls % ZOOM_LOCK_LOG_EVERY == 0 }
}

/// A step moves by exactly `sign * step` when that stays inside the
/// range, and otherwise stops at the bound it would cross; it never
/// leaves the range.
pub proof fn lemma_step_lands(current: int, sign: int, step: int, min: int, max: int)
    requires
        min <= max,
    ensures
        ({
            let r = clamp_spec(current + sign * step, min, max);
            &&& min <= r <= max
            &&& min <= current + sign * step <= max ==> r == current + sign * step
            &&& current + sign * step > max ==> r == max
            &&& current + sign * step < min ==> r == min
        }),
{
}

/// One axis of a directional step writes nothing for a zero sign or a
/// failed read, and otherwise writes the position one [`PAN_TILT_STEP`]
/// (5 degrees, 18000 units) away in the sign's direction, stopped at the
/// range's bounds.
pub proof fn lemma_axis_step(sign: i64, current: Option<i64>, min: i64, max: i64)
    requires
        min <= max,
    ensures
        PAN_TILT_STEP == 18000,
        axis_step_spec(sign, current, min, max) is None <==> (sign == 0 || current is None),
        axis_step_spec(sign, current, min, max) matches Some(t) ==> min <= t <= max,
        sign != 0 && current is Some && min <= current->0 + sign * 18000 <= max
            ==> axis_step_spec(sign, current, min, max) == Some((current->0 + sign * 18000) as i64),
{
}

/// The zoom-lock watchdog writes exactly when the lock pins a value, the
/// zoom was read, and it differs from the pinned value; what it writes
/// is the pinned value.
pub proof fn lemma_restore_writes_pinned(current: Option<i64>, pinned: Option<i64>)
    ensures
        restore_spec(current, pinned) is Some <==> (pinned is Some && current is Some
            && current != pinned),
        restore_spec(current, pinned) matches Some(t) ==> pinned == Some(t),
{
}

/// The PTZ keys: Left pans by -1 and Right by +1, Up tilts by +1 and
/// Down by -1, Home recenters, and no key acts while Ctrl, Alt or Super
/// is held or when it is not one of these.
pub proof fn lemma_key_map(key: PadKey, modifier_held: bool)
    ensures
        modifier_held ==> key_action_spec(key, modifier_held) == KeyAction::Pass,
        key_action_spec(PadKey::Left, false) == (KeyAction::Step { dx: -1i64, dy: 0 }),
        key_action_spec(PadKey::Right, false) == (KeyAction::Step { dx: 1, dy: 0 }),
        key_action_spec(PadKey::Up, false) == (KeyAction::Step { dx: 0, dy: 1 }),
        key_action_spec(PadKey::Down, false) == (KeyAction::Step { dx: 0, dy: -1i64 }),
        key_action_spec(PadKey::Home, false) == KeyAction::Recenter,
        key_action_spec(PadKey::Other, false) == KeyAction::Pass,
{
}

/// One watchdog tick: a released lock stops the watchdog and leaves the
/// counters as they were; an engaged lock counts the tick, writes the
/// pinned value back exactly when a read zoom drifted from it, counts
/// that write as a drift, and logs on every thirtieth tick.
pub proof fn lemma_watchdog_tick(pinned: Option<i64>, current: Option<i64>, polls: u32, drifts: u32)
    requires
        polls < u32::MAX,
        drifts < u32::MAX,
    ensures
        ({
            let t = watchdog_spec(pinned, current, polls, drifts);
            &&& t.stop <==> pinned is None
            &&& pinned is None ==> t.write is None && t.polls == polls && t.drifts == drifts
                && !t.log_alive
            &&& pinned is Some ==> t.polls == polls + 1
            &&& pinned is Some ==> (t.write is Some <==> (current is Some && current != pinned))
            &&& t.write matches Some(w) ==> pinned == Some(w)
            &&& pinned is Some ==> t.drifts == drifts + (if t.write is Some {
                1int
            } else {
                0int
            })
            &&& pinned is Some ==> (t.log_alive <==> (polls + 1) % 30 == 0)
        }),
{
}

proof fn lemma_first_with_id(controls: Seq<ControlDescriptor>, id: u32)
    ensures
        first_with_id(controls, id) is None <==> forall|j: int|
            0 <= j < controls.len() ==> #[trigger] controls[j].id != id,
        first_with_id(controls, id) matches Some(d) ==> exists|i: int|
            0 <= i < controls.len() && controls[i] == d && d.id == id && forall|j: int|
                0 <= j < i ==> #[trigger] controls[j].id != id,
    decreases controls.len(),
{
    if controls.len() > 0 {
        let rest = controls.drop_first();
        lemma_first_with_id(rest, id);
        if controls[0].id == id {
            assert(controls[0].id == id);
        } else {
            assert forall|j: int| 0 <= j < rest.len() implies rest[j] == controls[j + 1] by {}
            if first_with_id(rest, id) is None {
                assert forall|j: int| 0 <= j < controls.len() implies #[trigger] controls[j].id
                    != id by {
                    if j > 0 {
                        assert(controls[j] == rest[j - 1]);
                    }
                }
            } else {
                let d = first_with_id(rest, id)->Some_0;
                let i = choose|i: int|
                    0 <= i < rest.len() && rest[i] == d && d.id == id && forall|j: int|
                        0 <= j < i ==> #[trigger] rest[j].id != id;
                assert(controls[i + 1] == d);
                assert forall|j: int| 0 <= j < i + 1 implies #[trigger] controls[j].id != id by {
                    if j > 0 {
                        assert(controls[j] == rest[j - 1]);
                    }
                }
            }
        }
    }
}

/// Looking up a control by ID finds the first control with that ID: an
/// integer control gives its current value, range and step, a boolean
/// control its value; a control of another shape, or no control with
/// the ID, gives nothing.
pub proof fn lemma_lookup(controls: Seq<ControlDescriptor>, id: u32)
    ensures
        (forall|j: int| 0 <= j < controls.len() ==> #[trigger] controls[j].id != id) ==> (
        find_int_spec(controls, id) is None && find_bool_spec(controls, id) is None),
        forall|i: int|
            #![trigger controls[i]]
            0 <= i < controls.len() && controls[i].id == id && (forall|j: int|
                0 <= j < i ==> #[trigger] controls[j].id != id) ==> (match controls[i].kind {
                ControlKind::Integer { current, min, max, step, .. } => find_int_spec(controls, id)
                    == Some(IntRange { current, min, max, step }) && find_bool_spec(controls, id)
                    is None,
                ControlKind::Boolean { current, .. } => find_bool_spec(controls, id) == Some(
                    current,
                ) && find_int_spec(controls, id) is None,
                _ => find_int_spec(controls, id) is None && find_bool_spec(controls, id) is None,
            }),
{
    lemma_first_with_id(controls, id);
    assert forall|i: int|
        #![trigger controls[i]]
        0 <= i < controls.len() && controls[i].id == id && (forall|j: int|
            0 <= j < i ==> #[trigger] controls[j].id != id) implies first_with_id(controls, id)
        == Some(controls[i]) by {
        let d = first_with_id(controls, id)->Some_0;
        let k = choose|k: int|
            0 <= k < controls.len() && controls[k] == d && d.id == id && forall|j: int|
                0 <= j < k ==> #[trigger] controls[j].id != id;
        if k < i {
            assert(controls[k].id != id);
        }
        if i < k {
            assert(controls[i].id != id);
        }
    }
}

/// The PTZ pad is built exactly when pan, tilt and zoom all look up as
/// integer controls, from their three ranges.
pub proof fn lemma_pad_needs_pan_tilt_zoom(controls: Seq<ControlDescriptor>)
    ensures
        pad_ranges_spec(controls) is Some <==> (find_int_spec(controls, 0x009a_0908)
            is Some && find_int_spec(controls, 0x009a_0909) is Some && find_int_spec(
            controls,
            0x009a_090d,
        ) is Some),
        pad_ranges_spec(controls) matches Some(r) ==> r == (
            find_int_spec(controls, 0x009a_0908)->Some_0,
            find_int_spec(controls, 0x009a_0909)->Some_0,
            find_int_spec(controls, 0x009a_090d)->Some_0,
        ),
{
}

} // verus!

//! Value rules of the controls page.

use vstd::prelude::*;

use crate::controls::{ControlClass, ControlKind, ControlValue};
use crate::controls::ControlDescriptor;
use crate::gui::ptz_pad::PTZ_PAD_IDS;
use crate::text::str_eq;

verus! {

/// `v` clamped to `[min, max]`.
pub open spec fn clamp_spec(v: int, min: int, max: int) -> int {
    if v < min {
        min
    } else if v > max {
        max
    } else {
        v
    }
}

/// The grid step actually used for a driver-advertised `step`: a step
/// of zero, or one that does not fit `i64`, counts as one.
pub open spec fn effective_step(step: u64) -> int {
    if step == 0 || step > i64::MAX {
        1
    } else {
        step as int
    }
}

/// Bring `value` inside `[min, max]` and down onto the `step` grid
/// anchored at `min`; `None` for a descriptor with `min > max`.
pub open spec fn sanitize_spec(value: int, min: int, max: int, step: u64) -> Option<int> {
    if min > max {
        None
    } else {
        let clamped = clamp_spec(value, min, max);
        let s = effective_step(step);
        if s == 1 {
            Some(clamped)
        } else {
            Some(min + ((clamped - min) / s) * s)
        }
    }
}

/// Bring a persisted integer back inside the envelope the driver
/// advertises: clamp to `[min, max]` and snap down to the `step` grid
/// anchored at `min`. Returns `None` for a descriptor that contradicts
/// itself (`min > max`). The offset from `min` is taken in `i128`, so
/// every consistent descriptor, however wide, gets a value.
pub fn sanitize_integer(value: i64, min: i64, max: i64, step: u64) -> (r: Option<i64>)
    ensures
        match r {
            Some(v) => sanitize_spec(value as int, min as int, max as int, step) == Some(v as int),
            None => sanitize_spec(value as int, min as int, max as int, step) is None,
        },
{
    if min > max {
        return None;
    }
    let clamped = if value < min {
        min
    } else if value > max {
        max
    } else {
        value
    };
    let s: i64 = if step == 0 || step > 0x7fff_ffff_ffff_ffffu64 {
        1
    } else {
        step as i64
    };
    if s == 1 {
        return Some(clamped);
    }
    let wide_min = min as i128;
    let wide_step = s as i128;
    let offset: i128 = clamped as i128 - wide_min;
    let q: i128 = offset / wide_step;
    assert(0 <= q * wide_step <= offset) by (nonlinear_arith)
        requires
            offset >= 0,
            wide_step > 1,
            q == offset / wide_step,
    ;
    let aligned: i128 = wide_min + q * wide_step;
    proof {
        lemma_sanitize_in_range_on_grid(value as int, min as int, max as int, step);
    }
    Some(aligned as i64)
}

/// The sanitized value lies in `[min, max]`, sits on the grid anchored
/// at `min`, and is the largest grid point not above the clamped value.
pub proof fn lemma_sanitize_in_range_on_grid(value: int, min: int, max: int, step: u64)
    requires
        min <= max,
    ensures
        ({
            let r = sanitize_spec(value, min, max, step)->Some_0;
            let c = clamp_spec(value, min, max);
            let s = effective_step(step);
            &&& min <= r <= max
            &&& (r - min) % s == 0
            &&& r <= c < r + s
        }),
{
    let c = clamp_spec(value, min, max);
    let s = effective_step(step);
    let q = (c - min) / s;
    assert(0 <= q * s <= c - min < q * s + s && (q * s) % s == 0) by (nonlinear_arith)
        requires
            c - min >= 0,
            s >= 1,
            q == (c - min) / s,
    ;
}

/// Sanitizing an already sanitized value changes nothing.
pub proof fn lemma_sanitize_idempotent(value: int, min: int, max: int, step: u64)
    requires
        min <= max,
    ensures
        sanitize_spec(sanitize_spec(value, min, max, step)->Some_0, min, max, step)
            == sanitize_spec(value, min, max, step),
{
    lemma_sanitize_in_range_on_grid(value, min, max, step);
    let r = sanitize_spec(value, min, max, step)->Some_0;
    let s = effective_step(step);
    let k = (r - min) / s;
    assert((r - min) / s * s == r - min) by (nonlinear_arith)
        requires
            (r - min) % s == 0,
            s >= 1,
            r - min >= 0,
    ;
}

/// The value to replay for a persisted `stored` integer: an integer
/// control gets it sanitized into its advertised envelope (skipped when
/// the envelope contradicts itself), a boolean control gets `stored !=
/// 0`, and any other control is skipped.
pub open spec fn replay_spec(kind: ControlKind, stored: i32) -> Option<ControlValue> {
    match kind {
        ControlKind::Integer { min, max, step, .. } => match sanitize_spec(
            stored as int,
            min as int,
            max as int,
            step,
        ) {
            Some(v) => Some(ControlValue::Integer(v as i64)),
            None => None,
        },
        ControlKind::Boolean { .. } => Some(ControlValue::Boolean(stored != 0)),
        _ => None,
    }
}

/// Decide what to write back for a persisted value when a camera's page
/// opens. Persisted values are untrusted input (any process in the
/// session can write them), so integers are brought back inside the
/// envelope the driver advertises now.
pub fn replay_value(kind: &ControlKind, stored: i32) -> (r: Option<ControlValue>)
    ensures
        r == replay_spec(*kind, stored),
{
    match kind {
        ControlKind::Integer { min, max, step, .. } => match sanitize_integer(
            stored as i64,
            *min,
            *max,
            *step,
        ) {
            Some(v) => Some(ControlValue::Integer(v)),
            None => None,
        },
        ControlKind::Boolean { .. } => Some(ControlValue::Boolean(stored != 0)),
        _ => None,
    }
}

/// The value saved under control name `name`: the first entry with
/// that name.
pub open spec fn saved_lookup(saved: Seq<(String, i32)>, name: Seq<char>) -> Option<i32>
    decreases saved.len(),
{
    if saved.len() == 0 {
        None
    } else if saved[0].0@ == name {
        Some(saved[0].1)
    } else {
        saved_lookup(saved.drop_first(), name)
    }
}

/// The writes that replay a camera's saved values, in control order:
/// each control with a saved value under its name gets that value as
/// [`replay_spec`] shapes it, and is skipped when that gives nothing.
pub open spec fn restore_spec(controls: Seq<ControlDescriptor>, saved: Seq<(String, i32)>) -> Seq<(u32, ControlValue)>
    decreases controls.len(),
{
    if controls.len() == 0 {
        Seq::empty()
    } else {
        let prev = restore_spec(controls.drop_last(), saved);
        let c = controls.last();
        match saved_lookup(saved, c.name@) {
            Some(stored) => match replay_spec(c.kind, stored) {
                Some(v) => prev.push((c.id, v)),
                None => prev,
            },
            None => prev,
        }
    }
}

/// The value saved under `name`, if any.
fn lookup_saved(saved: &Vec<(String, i32)>, name: &str) -> (r: Option<i32>)
    ensures
        r == saved_lookup(saved@, name@),
{
    let mut i: usize = 0;
    assert(saved@.skip(0) =~= saved@);
    while i < saved.len()
        invariant
            i <= saved@.len(),
            saved_lookup(saved@, name@) == saved_lookup(saved@.skip(i as int), name@),
        decreases saved@.len() - i,
    {
        assert(saved@.skip(i as int)[0] == saved@[i as int]);
        if str_eq(saved[i].0.as_str(), name) {
            return Some(saved[i].1);
        }
        assert(saved@.skip(i as int).drop_first() =~= saved@.skip(i + 1));
        i = i + 1;
    }
    None
}

/// Plan the writes that replay a camera's saved values (its entries of
/// the settings store, keyed by control name) when its page opens.
/// `None` when nothing is saved, so the page keeps its first read.
pub fn restore_plan(controls: &[ControlDescriptor], saved: &Vec<(String, i32)>) -> (r: Option<
    Vec<(u32, ControlValue)>,
>)
    ensures
        r is None <==> saved@.len() == 0,
        r matches Some(w) ==> w@ == restore_spec(controls@, saved@),
{
    if saved.len() == 0 {
        return None;
    }
    let mut out: Vec<(u32, ControlValue)> = Vec::new();
    let mut i: usize = 0;
    while i < controls.len()
        invariant
            i <= controls@.len(),
            out@ == restore_spec(controls@.take(i as int), saved@),
        decreases controls@.len() - i,
    {
        assert(controls@.take(i + 1).drop_last() =~= controls@.take(i as int));
        assert(controls@.take(i + 1).last() == controls@[i as int]);
        let c = &controls[i];
        match lookup_saved(saved, c.name.as_str()) {
            Some(stored) => match replay_value(&c.kind, stored) {
                Some(v) => {
                    out.push((c.id, v));
                },
                None => {},
            },
            None => {},
        }
        i = i + 1;
    }
    assert(controls@.take(controls@.len() as int) =~= controls@);
    Some(out)
}

/// Saturate an `i64` into the `i32` range.
pub open spec fn saturate_i32(v: int) -> i32 {
    if v > i32::MAX {
        i32::MAX
    } else if v < i32::MIN {
        i32::MIN
    } else {
        v as i32
    }
}

/// Saturating-clamp an `i64` to `i32`.
pub fn clamp_i64_to_i32(v: i64) -> (r: i32)
    ensures
        r == saturate_i32(v as int),
{
    if v > 0x7fff_ffffi64 {
        i32::MAX
    } else if v < -0x8000_0000i64 {
        i32::MIN
    } else {
        v as i32
    }
}

/// `V4L2_CID_AUTO_WHITE_BALANCE`.
pub const CID_WHITE_BALANCE_AUTOMATIC: u32 = 0x0098_090c;

/// `V4L2_CID_RED_BALANCE`.
pub const CID_RED_BALANCE: u32 = 0x0098_090e;

/// `V4L2_CID_BLUE_BALANCE`.
pub const CID_BLUE_BALANCE: u32 = 0x0098_090f;

/// `V4L2_CID_WHITE_BALANCE_TEMPERATURE`.
pub const CID_WHITE_BALANCE_TEMPERATURE: u32 = 0x0098_091a;

/// Control IDs claimed by the white-balance group.
pub const WB_GROUP_IDS: [u32; 4] = [
    CID_WHITE_BALANCE_AUTOMATIC,
    CID_WHITE_BALANCE_TEMPERATURE,
    CID_RED_BALANCE,
    CID_BLUE_BALANCE,
];

/// `V4L2_CID_EXPOSURE_AUTO`.
pub const CID_AUTO_EXPOSURE: u32 = 0x009a_0901;

/// `V4L2_CID_EXPOSURE_ABSOLUTE`.
pub const CID_EXPOSURE_TIME_ABSOLUTE: u32 = 0x009a_0902;

/// Control IDs claimed by the exposure group.
pub const EXPOSURE_GROUP_IDS: [u32; 2] = [CID_AUTO_EXPOSURE, CID_EXPOSURE_TIME_ABSOLUTE];

/// Where a control is shown on the controls page.
#[derive(Debug, Clone, Copy, PartialEq, Eq, Structural)]
pub enum Section {
    /// A curated group (PTZ pad, focus, white balance, exposure) shows
    /// it; the generic render skips it.
    Curated,
    /// The generic "User Controls" group, on the Image tab.
    User,
    /// The generic "Camera Controls" group, on the Presets tab.
    Camera,
    /// The generic "Other" group, on the Presets tab.
    Other,
}

/// Whether a control ID is claimed by a curated group.
pub open spec fn curated(id: u32) -> bool {
    PTZ_PAD_IDS@.contains(id) || WB_GROUP_IDS@.contains(id) || EXPOSURE_GROUP_IDS@.contains(id)
}

/// The section of a control with ID `id` and class `class`: curated IDs
/// go to their groups, the rest are grouped by their class.
pub open spec fn section_spec(id: u32, class: ControlClass) -> Section {
    if curated(id) {
        Section::Curated
    } else {
        match class {
            ControlClass::User => Section::User,
            ControlClass::Camera => Section::Camera,
            ControlClass::Other(_) => Section::Other,
        }
    }
}

/// Whether `id` occurs in `ids`.
fn contains_id(ids: &[u32], id: u32) -> (r: bool)
    ensures
        r == ids@.contains(id),
{
    let mut i: usize = 0;
    while i < ids.len()
        invariant
            i <= ids@.len(),
            forall|j: int| 0 <= j < i ==> ids@[j] != id,
        decreases ids@.len() - i,
    {
        if ids[i] == id {
            assert(ids@[i as int] == id);
            return true;
        }
        i = i + 1;
    }
    false
}

/// The section the controls page shows a control in.
pub fn control_section(id: u32, class: ControlClass) -> (r: Section)
    ensures
        r == section_spec(id, class),
{
    let ptz = PTZ_PAD_IDS;
    let wb = WB_GROUP_IDS;
    let exposure = EXPOSURE_GROUP_IDS;
    if contains_id(&ptz, id) || contains_id(&wb, id) || contains_id(&exposure, id) {
        return Section::Curated;
    }
    match class {
        ControlClass::User => Section::User,
        ControlClass::Camera => Section::Camera,
        ControlClass::Other(_) => Section::Other,
    }
}

/// The curated groups claim exactly the IDs of the PTZ pad, the
/// white-balance group and the exposure group, whatever class the
/// control has: pan, tilt, focus, autofocus, zoom, continuous zoom,
/// pan speed and tilt speed; automatic white balance, its temperature,
/// red and blue balance; auto exposure and exposure time. Every other
/// control goes to the generic group of its class.
pub proof fn lemma_curated_sections(id: u32, class: ControlClass)
    ensures
        (section_spec(id, class) == Section::Curated) <==> (PTZ_PAD_IDS@.contains(id)
            || WB_GROUP_IDS@.contains(id) || EXPOSURE_GROUP_IDS@.contains(id)),
        (section_spec(id, class) == Section::Curated) <==> (id == 0x009a_0908u32 || id
            == 0x009a_0909u32 || id == 0x009a_090au32 || id == 0x009a_090cu32 || id
            == 0x009a_090du32 || id == 0x009a_090fu32 || id == 0x009a_0920u32 || id
            == 0x009a_0921u32 || id == 0x0098_090cu32 || id == 0x0098_091au32 || id
            == 0x0098_090eu32 || id == 0x0098_090fu32 || id == 0x009a_0901u32 || id
            == 0x009a_0902u32),
        section_spec(id, class) != Section::Curated ==> section_spec(id, class) == match class {
            ControlClass::User => Section::User,
            ControlClass::Camera => Section::Camera,
            ControlClass::Other(_) => Section::Other,
        },
{
    let ptz = seq![
        0x009a_0908u32,
        0x009a_0909u32,
        0x009a_090au32,
        0x009a_090cu32,
        0x009a_090du32,
        0x009a_090fu32,
        0x009a_0920u32,
        0x009a_0921u32,
    ];
    let wb = seq![0x0098_090cu32, 0x0098_091au32, 0x0098_090eu32, 0x0098_090fu32];
    let exposure = seq![0x009a_0901u32, 0x009a_0902u32];
    assert(PTZ_PAD_IDS@ =~= ptz);
    assert(WB_GROUP_IDS@ =~= wb);
    assert(EXPOSURE_GROUP_IDS@ =~= exposure);
    assert(ptz.contains(id) <==> (id == ptz[0] || id == ptz[1] || id == ptz[2] || id == ptz[3]
        || id == ptz[4] || id == ptz[5] || id == ptz[6] || id == ptz[7]));
    assert(wb.contains(id) <==> (id == wb[0] || id == wb[1] || id == wb[2] || id == wb[3]));
    assert(exposure.contains(id) <==> (id == exposure[0] || id == exposure[1]));
}

/// What the body of a camera's controls page shows.
#[derive(Debug, Clone, Copy, PartialEq, Eq, Structural)]
pub enum BodyPage {
    /// The camera has no `/dev/videoN` path.
    NoVideoNode,
    /// The control read failed.
    ReadFailed,
    /// The driver returned an empty control list.
    NoControls,
    /// The controls, after replaying saved values.
    Controls,
}

/// Choose the body of a camera's page from whether it has a video node
/// and the outcome of the control read: the number of controls read, or
/// `None` when the read failed.
pub fn body_page(has_video_path: bool, read: Option<usize>) -> (r: BodyPage)
    ensures
        !has_video_path ==> r == BodyPage::NoVideoNode,
        has_video_path && read is None ==> r == BodyPage::ReadFailed,
        has_video_path && read == Some(0usize) ==> r == BodyPage::NoControls,
        has_video_path && (read matches Some(n) && n > 0) ==> r == BodyPage::Controls,
{
    if !has_video_path {
        return BodyPage::NoVideoNode;
    }
    match read {
        None => BodyPage::ReadFailed,
        Some(0) => BodyPage::NoControls,
        Some(_) => BodyPage::Controls,
    }
}

/// A tab of the controls page.
#[derive(Debug, Clone, Copy, PartialEq, Eq, Structural)]
pub enum Tab {
    /// AI & effects, focus and HDR; the landing tab.
    Main,
    /// White balance, exposure and the generic user controls.
    Image,
    /// The PTZ pad.
    Move,
    /// Presets and the remaining camera and other controls.
    Presets,
}

/// `seq![tab]` when the tab holds at least one group, else nothing.
pub open spec fn tab_if(tab: Tab, groups: usize) -> Seq<Tab> {
    if groups > 0 {
        seq![tab]
    } else {
        Seq::empty()
    }
}

/// The tabs shown, in order Main, Image, Move, Presets, each only when it
/// holds at least one group.
pub open spec fn tabs_spec(main: usize, image: usize, moves: usize, presets: usize) -> Seq<Tab> {
    tab_if(Tab::Main, main) + tab_if(Tab::Image, image) + tab_if(Tab::Move, moves) + tab_if(
        Tab::Presets,
        presets,
    )
}

/// The tabs the controls page shows, given how many groups each holds;
/// the first one shown is the default.
pub fn visible_tabs(main: usize, image: usize, moves: usize, presets: usize) -> (r: Vec<Tab>)
    ensures
        r@ == tabs_spec(main, image, moves, presets),
{
    let mut out: Vec<Tab> = Vec::new();
    if main > 0 {
        out.push(Tab::Main);
    }
    let ghost a = out@;
    assert(a =~= tab_if(Tab::Main, main));
    if image > 0 {
        out.push(Tab::Image);
    }
    let ghost b = out@;
    assert(b =~= a + tab_if(Tab::Image, image));
    if moves > 0 {
        out.push(Tab::Move);
    }
    let ghost c = out@;
    assert(c =~= b + tab_if(Tab::Move, moves));
    if presets > 0 {
        out.push(Tab::Presets);
    }
    assert(out@ =~= c + tab_if(Tab::Presets, presets));
    out
}

/// The tabs shown are Main, Image, Move and Presets in that order, each
/// exactly when it holds a group, each at most once; the first one shown
/// is the landing tab.
pub proof fn lemma_tab_order(main: usize, image: usize, moves: usize, presets: usize)
    ensures
        ({
            let t = tabs_spec(main, image, moves, presets);
            let rank = |tab: Tab|
                match tab {
                    Tab::Main => 0int,
                    Tab::Image => 1int,
                    Tab::Move => 2int,
                    Tab::Presets => 3int,
                };
            &&& t.contains(Tab::Main) <==> main > 0
            &&& t.contains(Tab::Image) <==> image > 0
            &&& t.contains(Tab::Move) <==> moves > 0
            &&& t.contains(Tab::Presets) <==> presets > 0
            &&& forall|a: int, b: int| 0 <= a < b < t.len() ==> rank(t[a]) < rank(t[b])
            &&& main > 0 ==> t[0] == Tab::Main
            &&& main == 0 && image > 0 ==> t[0] == Tab::Image
        }),
{
    let t = tabs_spec(main, image, moves, presets);
    let a = tab_if(Tab::Main, main);
    let b = tab_if(Tab::Image, image);
    let c = tab_if(Tab::Move, moves);
    let d = tab_if(Tab::Presets, presets);
    assert(t == a + b + c + d);
    assert(t.contains(Tab::Main) ==> main > 0);
    assert(main > 0 ==> t[0] == Tab::Main);
    if image > 0 {
        assert(t[a.len() as int] == Tab::Image);
    }
    if moves > 0 {
        assert(t[(a.len() + b.len()) as int] == Tab::Move);
    }
    if presets > 0 {
        assert(t[(a.len() + b.len() + c.len()) as int] == Tab::Presets);
    }
}

/// The grid step in use is the advertised one, except that a step of
/// zero or one past `i64::MAX` counts as one; and clamping keeps a value
/// inside the range and leaves an in-range value alone.
pub proof fn lemma_step_and_clamp(step: u64, v: int, min: int, max: int)
    ensures
        (step == 0 || step > i64::MAX) ==> effective_step(step) == 1,
        (1 <= step <= i64::MAX) ==> effective_step(step) == step,
        min <= max ==> min <= clamp_spec(v, min, max) <= max,
        min <= v <= max ==> clamp_spec(v, min, max) == v,
        v < min ==> clamp_spec(v, min, max) == min,
        v > max && min <= max ==> clamp_spec(v, min, max) == max,
{
}

/// Replaying a saved value: an integer control gets the saved value
/// brought into its range and down onto its step grid (nothing when its
/// range is empty), a boolean control is switched on exactly for a
/// non-zero saved value, and no other control gets anything.
pub proof fn lemma_replay(kind: ControlKind, stored: i32)
    ensures
        kind matches ControlKind::Integer { min, max, .. } ==> (replay_spec(kind, stored) is None
            <==> min > max),
        kind matches ControlKind::Integer { min, max, step, .. } ==> (min <= max ==> (
        replay_spec(kind, stored) matches Some(ControlValue::Integer(v)) && min <= v <= max && (v
            - min) % effective_step(step) == 0 && v <= clamp_spec(stored as int, min as int, max as int)
            < v + effective_step(step))),
        kind matches ControlKind::Boolean { .. } ==> replay_spec(kind, stored) == Some(
            ControlValue::Boolean(stored != 0),
        ),
        !(kind is Integer || kind is Boolean) ==> replay_spec(kind, stored) is None,
{
    if let ControlKind::Integer { min, max, step, .. } = kind {
        if min <= max {
            lemma_sanitize_in_range_on_grid(stored as int, min as int, max as int, step);
        }
    }
}

proof fn lemma_saved_lookup_witness(saved: Seq<(String, i32)>, name: Seq<char>)
    ensures
        saved_lookup(saved, name) is None <==> forall|j: int|
            0 <= j < saved.len() ==> (#[trigger] saved[j]).0@ != name,
        saved_lookup(saved, name) matches Some(v) ==> exists|i: int|
            0 <= i < saved.len() && saved[i].0@ == name && saved[i].1 == v && forall|j: int|
                0 <= j < i ==> (#[trigger] saved[j]).0@ != name,
    decreases saved.len(),
{
    if saved.len() > 0 {
        let rest = saved.drop_first();
        lemma_saved_lookup_witness(rest, name);
        if saved[0].0@ != name {
            assert forall|j: int| 0 <= j < rest.len() implies rest[j] == saved[j + 1] by {}
            if saved_lookup(rest, name) is None {
                assert forall|j: int| 0 <= j < saved.len() implies (#[trigger] saved[j]).0@
                    != name by {
                    if j > 0 {
                        assert(saved[j] == rest[j - 1]);
                    }
                }
            } else {
                let v = saved_lookup(rest, name)->Some_0;
                let i = choose|i: int|
                    0 <= i < rest.len() && rest[i].0@ == name && rest[i].1 == v && forall|j: int|
                        0 <= j < i ==> (#[trigger] rest[j]).0@ != name;
                assert(saved[i + 1] == rest[i]);
                assert forall|j: int| 0 <= j < i + 1 implies (#[trigger] saved[j]).0@ != name by {
                    if j > 0 {
                        assert(saved[j] == rest[j - 1]);
                    }
                }
            }
        }
    }
}

/// The value saved under a control name is that of the first entry
/// with the name, and there is none when no entry has it.
pub proof fn lemma_saved_lookup(saved: Seq<(String, i32)>, name: Seq<char>)
    ensures
        saved_lookup(saved, name) is None <==> forall|j: int|
            0 <= j < saved.len() ==> (#[trigger] saved[j]).0@ != name,
        forall|i: int|
            #![trigger saved[i]]
            0 <= i < saved.len() && saved[i].0@ == name && (forall|j: int|
                0 <= j < i ==> (#[trigger] saved[j]).0@ != name) ==> saved_lookup(saved, name)
                == Some(saved[i].1),
{
    lemma_saved_lookup_witness(saved, name);
    assert forall|i: int|
        #![trigger saved[i]]
        0 <= i < saved.len() && saved[i].0@ == name && (forall|j: int|
            0 <= j < i ==> (#[trigger] saved[j]).0@ != name) implies saved_lookup(saved, name)
        == Some(saved[i].1) by {
        let v = saved_lookup(saved, name)->Some_0;
        let k = choose|k: int|
            0 <= k < saved.len() && saved[k].0@ == name && saved[k].1 == v && forall|j: int|
                0 <= j < k ==> (#[trigger] saved[j]).0@ != name;
        if k < i {
            assert(saved[k].0@ != name);
        }
        if i < k {
            assert(saved[i].0@ != name);
        }
    }
}

/// Replaying saved values writes, for each control in order, the value
/// saved under its name (the first entry with that name) as
/// [`replay_spec`] shapes it, and nothing for a control without a saved
/// value or whose replay gives nothing: every write belongs to such a
/// control, and every such control gets its write.
pub proof fn lemma_restore(controls: Seq<ControlDescriptor>, saved: Seq<(String, i32)>)
    ensures
        restore_spec(controls, saved).len() <= controls.len(),
        forall|k: int|
            0 <= k < restore_spec(controls, saved).len() ==> exists|i: int|
                0 <= i < controls.len() && (#[trigger] restore_spec(controls, saved)[k]).0
                    == controls[i].id && saved_lookup(saved, controls[i].name@) is Some
                    && replay_spec(controls[i].kind, saved_lookup(saved, controls[i].name@)->Some_0)
                    == Some(restore_spec(controls, saved)[k].1),
        forall|i: int|
            0 <= i < controls.len() && saved_lookup(saved, (#[trigger] controls[i]).name@) is Some
                && replay_spec(controls[i].kind, saved_lookup(saved, controls[i].name@)->Some_0)
                is Some ==> restore_spec(controls, saved).contains(
                (
                    controls[i].id,
                    replay_spec(
                        controls[i].kind,
                        saved_lookup(saved, controls[i].name@)->Some_0,
                    )->Some_0,
                ),
            ),
    decreases controls.len(),
{
    if controls.len() > 0 {
        let prev = controls.drop_last();
        lemma_restore(prev, saved);
        let r = restore_spec(controls, saved);
        let pr = restore_spec(prev, saved);
        let c = controls.last();
        assert forall|j: int| 0 <= j < prev.len() implies prev[j] == controls[j] by {}
        assert forall|k: int|
            0 <= k < r.len() implies exists|i: int|
                0 <= i < controls.len() && (#[trigger] r[k]).0 == controls[i].id && saved_lookup(
                    saved,
                    controls[i].name@,
                ) is Some && replay_spec(
                    controls[i].kind,
                    saved_lookup(saved, controls[i].name@)->Some_0,
                ) == Some(r[k].1) by {
            if k < pr.len() {
                assert(r[k] == pr[k]);
                let i = choose|i: int|
                    0 <= i < prev.len() && pr[k].0 == prev[i].id && saved_lookup(
                        saved,
                        prev[i].name@,
                    ) is Some && replay_spec(
                        prev[i].kind,
                        saved_lookup(saved, prev[i].name@)->Some_0,
                    ) == Some(pr[k].1);
                assert(controls[i] == prev[i]);
            } else {
                assert(controls[controls.len() - 1] == c);
            }
        }
        assert forall|i: int|
            0 <= i < controls.len() && saved_lookup(saved, (#[trigger] controls[i]).name@) is Some
                && replay_spec(controls[i].kind, saved_lookup(saved, controls[i].name@)->Some_0)
                is Some implies r.contains(
            (
                controls[i].id,
                replay_spec(controls[i].kind, saved_lookup(saved, controls[i].name@)->Some_0)->Some_0,
            ),
        ) by {
            let w = (
                controls[i].id,
                replay_spec(controls[i].kind, saved_lookup(saved, controls[i].name@)->Some_0)->Some_0,
            );
            if i < prev.len() {
                assert(prev[i] == controls[i]);
                assert(pr.contains(w));
                let k = choose|k: int| 0 <= k < pr.len() && pr[k] == w;
                assert(r[k] == pr[k]);
            } else {
                assert(controls[i] == c);
                assert(r[r.len() - 1] == w);
            }
        }
    }
}

} // verus!

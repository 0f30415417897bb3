//! Keys and values of the per-camera settings store.
//!
//! Every saved control value lives in one dictionary keyed by the
//! camera serial and the control name joined by the ASCII unit
//! separator, which occurs in neither.

use vstd::prelude::*;

use crate::controls::ControlValue;
use crate::gui::controls_view::saturate_i32;
use crate::text::{push_char, push_str};

verus! {

/// ASCII unit separator, the in-key separator.
pub const KEY_SEP: char = '\x1f';

/// The settings key of one control of one camera.
pub open spec fn dict_key_spec(serial: Seq<char>, control_name: Seq<char>) -> Seq<char> {
    serial + seq!['\x1f'] + control_name
}

/// The key prefix shared by every control of one camera.
pub open spec fn key_prefix(serial: Seq<char>) -> Seq<char> {
    serial.push('\x1f')
}

/// The control name a key holds for `serial`, if the key belongs to it.
pub open spec fn key_name_spec(key: Seq<char>, serial: Seq<char>) -> Option<Seq<char>> {
    let p = key_prefix(serial);
    if key.len() >= p.len() && key.take(p.len() as int) == p {
        Some(key.skip(p.len() as int))
    } else {
        None
    }
}

/// Build the settings key of a control of a camera.
pub fn dict_key(serial: &str, control_name: &str) -> (r: String)
    ensures
        r@ == dict_key_spec(serial@, control_name@),
{
    let mut out = String::new();
    push_str(&mut out, serial);
    push_char(&mut out, KEY_SEP);
    push_str(&mut out, control_name);
    assert(out@ =~= dict_key_spec(serial@, control_name@));
    out
}

/// The control name stored under `key` for the camera `serial`, or
/// `None` when the key belongs to another camera.
pub fn key_control_name(key: &str, serial: &str) -> (r: Option<String>)
    ensures
        match r {
            Some(n) => key_name_spec(key@, serial@) == Some(n@),
            None => key_name_spec(key@, serial@) is None,
        },
{
    let klen = key.unicode_len();
    let slen = serial.unicode_len();
    let ghost p = key_prefix(serial@);
    if klen <= slen {
        return None;
    }
    let mut i: usize = 0;
    while i < slen
        invariant
            klen == key@.len(),
            slen == serial@.len(),
            slen < klen,
            i <= slen,
            p == key_prefix(serial@),
            forall|j: int| 0 <= j < i ==> key@[j] == p[j],
        decreases slen - i,
    {
        if key.get_char(i) != serial.get_char(i) {
            assert(key@.take(p.len() as int)[i as int] != p[i as int]);
            return None;
        }
        i = i + 1;
    }
    if key.get_char(slen) != KEY_SEP {
        assert(key@.take(p.len() as int)[slen as int] != p[slen as int]);
        return None;
    }
    assert(key@.take(p.len() as int) =~= p);
    let rest = key.substring_char(slen + 1, klen);
    assert(rest@ =~= key@.skip(p.len() as int));
    Some(String::from_str(rest))
}

/// Reading a key back for the camera it was written for gives the
/// control name that was written.
pub proof fn lemma_key_round_trip(serial: Seq<char>, control_name: Seq<char>)
    ensures
        key_name_spec(dict_key_spec(serial, control_name), serial) == Some(control_name),
{
    let k = dict_key_spec(serial, control_name);
    assert(k.take(key_prefix(serial).len() as int) =~= key_prefix(serial));
    assert(k.skip(key_prefix(serial).len() as int) =~= control_name);
}

/// A key written for one camera is never read back for another, as long
/// as neither serial holds the separator.
pub proof fn lemma_keys_do_not_cross(serial: Seq<char>, other: Seq<char>, control_name: Seq<char>)
    requires
        serial != other,
        !serial.contains('\x1f'),
        !other.contains('\x1f'),
    ensures
        key_name_spec(dict_key_spec(serial, control_name), other) is None,
{
    let k = dict_key_spec(serial, control_name);
    let p = key_prefix(other);
    if k.len() >= p.len() && k.take(p.len() as int) == p {
        if other.len() < serial.len() {
            assert(k[other.len() as int] == serial[other.len() as int]);
            assert(p[other.len() as int] == '\x1f');
            assert(k.take(p.len() as int)[other.len() as int] == p[other.len() as int]);
        } else if other.len() == serial.len() {
            assert forall|j: int| 0 <= j < serial.len() implies serial[j] == other[j] by {
                assert(k.take(p.len() as int)[j] == p[j]);
            }
            assert(serial =~= other);
        } else {
            assert(k[serial.len() as int] == '\x1f');
            assert(k.take(p.len() as int)[serial.len() as int] == p[serial.len() as int]);
            assert(p[serial.len() as int] == other[serial.len() as int]);
        }
    }
}

/// The saved values of one camera, in store order: every stored entry
/// whose key belongs to `serial`, with the control name the key holds.
pub open spec fn camera_entries_spec(stored: Seq<(String, i32)>, serial: Seq<char>) -> Seq<(Seq<char>, i32)>
    decreases stored.len(),
{
    if stored.len() == 0 {
        Seq::empty()
    } else {
        let prev = camera_entries_spec(stored.drop_last(), serial);
        match key_name_spec(stored.last().0@, serial) {
            Some(name) => prev.push((name, stored.last().1)),
            None => prev,
        }
    }
}

/// The entries of the settings dictionary that belong to the camera
/// `serial`, keyed by control name alone.
pub fn saved_for_camera(stored: &Vec<(String, i32)>, serial: &str) -> (r: Vec<(String, i32)>)
    ensures
        r@.map_values(|e: (String, i32)| (e.0@, e.1)) == camera_entries_spec(stored@, serial@),
{
    let mut out: Vec<(String, i32)> = Vec::new();
    let mut i: usize = 0;
    while i < stored.len()
        invariant
            i <= stored@.len(),
            out@.map_values(|e: (String, i32)| (e.0@, e.1)) == camera_entries_spec(
                stored@.take(i as int),
                serial@,
            ),
        decreases stored@.len() - i,
    {
        assert(stored@.take(i + 1).drop_last() =~= stored@.take(i as int));
        assert(stored@.take(i + 1).last() == stored@[i as int]);
        let ghost before = out@;
        match key_control_name(stored[i].0.as_str(), serial) {
            Some(name) => {
                out.push((name, stored[i].1));
                assert(out@.map_values(|e: (String, i32)| (e.0@, e.1)) =~= before.map_values(
                    |e: (String, i32)| (e.0@, e.1),
                ).push((out@.last().0@, stored[i as int].1)));
            },
            None => {},
        }
        i = i + 1;
    }
    assert(stored@.take(stored@.len() as int) =~= stored@);
    out
}

/// The integer a control write is persisted as: integers saturated to
/// the `i32` range, booleans as `0` / `1`.
pub open spec fn persisted_spec(value: ControlValue) -> i32 {
    match value {
        ControlValue::Integer(v) => saturate_i32(v as int),
        ControlValue::Boolean(b) => if b {
            1
        } else {
            0
        },
    }
}

/// The integer a control write is persisted as.
pub fn persisted_value(value: ControlValue) -> (r: i32)
    ensures
        r == persisted_spec(value),
{
    match value {
        ControlValue::Integer(v) => crate::gui::controls_view::clamp_i64_to_i32(v),
        ControlValue::Boolean(b) => if b {
            1
        } else {
            0
        },
    }
}

/// What follows a control write.
#[derive(Debug, Clone, Copy, PartialEq, Eq, Structural)]
pub struct WriteFollowUp {
    /// The write failed: report it, and do nothing else.
    pub report_error: bool,
    /// Re-read the controls to refresh which ones are active: only a
    /// boolean write can gate other controls.
    pub refresh: bool,
    /// The value to persist, when the write succeeded and the camera has
    /// a serial to key it by.
    pub save: Option<i32>,
}

/// What follows writing `value`: a failed write is reported and nothing
/// else happens; a successful one refreshes the other controls after a
/// boolean write, and is persisted (see [`persisted_spec`]) when the
/// camera has a serial.
pub open spec fn write_follow_up_spec(value: ControlValue, write_ok: bool, has_serial: bool) -> WriteFollowUp {
    if !write_ok {
        WriteFollowUp { report_error: true, refresh: false, save: None }
    } else {
        WriteFollowUp {
            report_error: false,
            refresh: value is Boolean,
            save: if has_serial {
                Some(persisted_spec(value))
            } else {
                None
            },
        }
    }
}

/// Decide what follows a control write.
pub fn write_follow_up(value: ControlValue, write_ok: bool, has_serial: bool) -> (r: WriteFollowUp)
    ensures
        r == write_follow_up_spec(value, write_ok, has_serial),
{
    if !write_ok {
        return WriteFollowUp { report_error: true, refresh: false, save: None };
    }
    let refresh = matches!(value, ControlValue::Boolean(_));
    let save = if has_serial {
        Some(persisted_value(value))
    } else {
        None
    };
    WriteFollowUp { report_error: false, refresh, save }
}

/// After a control write: a failed write is reported, and then neither
/// refreshes nor saves. A successful write is not reported; it refreshes
/// the other controls exactly when the value is a boolean, whether or
/// not the camera has a serial, and it saves exactly when there is a
/// serial. What is saved is the written integer when it fits `i32`,
/// the nearest `i32` bound when it does not, and `1` / `0` for a
/// boolean.
pub proof fn lemma_write_follow_up(value: ControlValue, write_ok: bool, has_serial: bool)
    ensures
        ({
            let f = write_follow_up_spec(value, write_ok, has_serial);
            &&& f.report_error == !write_ok
            &&& !write_ok ==> !f.refresh && f.save is None
            &&& write_ok ==> (f.refresh <==> value is Boolean)
            &&& write_ok ==> (f.save is Some <==> has_serial)
            &&& f.refresh == write_follow_up_spec(value, write_ok, !has_serial).refresh
            &&& (f.save matches Some(saved) ==> match value {
                ControlValue::Boolean(b) => saved == (if b {
                    1i32
                } else {
                    0i32
                }),
                ControlValue::Integer(v) => if v > i32::MAX {
                    saved == i32::MAX
                } else if v < i32::MIN {
                    saved == i32::MIN
                } else {
                    saved as int == v as int
                },
            })
        }),
{
}

/// A settings key belongs to the camera `serial` and names the control
/// `name` exactly when it is the serial, the unit separator `0x1f`,
/// then the name.
pub proof fn lemma_key_names(key: Seq<char>, serial: Seq<char>, name: Seq<char>)
    ensures
        key_name_spec(key, serial) == Some(name) <==> key == serial + seq!['\x1f'] + name,
        dict_key_spec(serial, name) == serial + seq!['\x1f'] + name,
        KEY_SEP == '\x1f',
{
    let p = key_prefix(serial);
    assert(p =~= serial + seq!['\x1f']);
    if key == serial + seq!['\x1f'] + name {
        assert(key.take(p.len() as int) =~= p);
        assert(key.skip(p.len() as int) =~= name);
    }
    if key_name_spec(key, serial) == Some(name) {
        assert(key =~= key.take(p.len() as int) + key.skip(p.len() as int));
    }
}

/// A camera's saved values are exactly the stored entries whose key
/// names a control of that camera, with the control name taken from the
/// key, in store order.
pub proof fn lemma_camera_entries(stored: Seq<(String, i32)>, serial: Seq<char>)
    ensures
        forall|k: int|
            0 <= k < camera_entries_spec(stored, serial).len() ==> exists|j: int|
                0 <= j < stored.len() && stored[j].0@ == serial + seq!['\x1f'] + (
                #[trigger] camera_entries_spec(stored, serial)[k]).0 && stored[j].1
                    == camera_entries_spec(stored, serial)[k].1,
        camera_entries_spec(stored, serial).len() <= stored.len(),
        forall|j: int|
            0 <= j < stored.len() && key_name_spec(#[trigger] stored[j].0@, serial) is Some
                ==> camera_entries_spec(stored, serial).contains(
                (key_name_spec(stored[j].0@, serial)->Some_0, stored[j].1),
            ),
    decreases stored.len(),
{
    if stored.len() > 0 {
        let prev = stored.drop_last();
        lemma_camera_entries(prev, serial);
        let e = stored.last();
        let r = camera_entries_spec(stored, serial);
        let pr = camera_entries_spec(prev, serial);
        assert forall|j: int| 0 <= j < prev.len() implies prev[j] == stored[j] by {}
        assert forall|k: int|
            0 <= k < r.len() implies exists|j: int|
                0 <= j < stored.len() && stored[j].0@ == serial + seq!['\x1f'] + (#[trigger] r[k]).0
                    && stored[j].1 == r[k].1 by {
            if k < pr.len() {
                assert(r[k] == pr[k]);
                let j = choose|j: int|
                    0 <= j < prev.len() && prev[j].0@ == serial + seq!['\x1f'] + pr[k].0
                        && prev[j].1 == pr[k].1;
                assert(stored[j] == prev[j]);
            } else {
                lemma_key_names(e.0@, serial, r[k].0);
                assert(stored[stored.len() - 1] == e);
            }
        }
        assert forall|j: int|
            0 <= j < stored.len() && key_name_spec(#[trigger] stored[j].0@, serial) is Some
                implies r.contains((key_name_spec(stored[j].0@, serial)->Some_0, stored[j].1)) by {
            let n = key_name_spec(stored[j].0@, serial)->Some_0;
            if j < prev.len() {
                assert(prev[j] == stored[j]);
                assert(pr.contains((n, stored[j].1)));
                let k = choose|k: int| 0 <= k < pr.len() && pr[k] == (n, stored[j].1);
                if key_name_spec(e.0@, serial) is Some {
                    assert(r[k] == pr[k]);
                }
            } else {
                assert(stored[j] == e);
                assert(r[r.len() - 1] == (n, stored[j].1));
            }
        }
    }
}

} // verus!

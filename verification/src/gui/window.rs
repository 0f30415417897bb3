//! Hot-plug bookkeeping of the main window.

use vstd::prelude::*;

use crate::camera::{opt_text, CameraInfo};
use crate::text::str_eq;

verus! {

/// Stable identity of a camera for hot-plug matching: USB ids plus the
/// serial when the device advertises one.
pub open spec fn key_spec(cam: CameraInfo) -> (u16, u16, Option<Seq<char>>) {
    (cam.vid, cam.pid, opt_text(cam.serial))
}

/// Stable identity of a camera for hot-plug matching.
pub fn camera_key(cam: &CameraInfo) -> (r: (u16, u16, Option<String>))
    ensures
        r.0 == cam.vid,
        r.1 == cam.pid,
        opt_text(r.2) == opt_text(cam.serial),
{
    let serial = match &cam.serial {
        Some(s) => Some(s.clone()),
        None => None,
    };
    (cam.vid, cam.pid, serial)
}

/// Display label of a camera in the selector: its product name.
pub fn camera_label(cam: &CameraInfo) -> (r: String)
    ensures
        r@ == cam.product@,
{
    cam.product.clone()
}

/// Whether two cameras have the same identity.
fn same_key(a: &CameraInfo, b: &CameraInfo) -> (r: bool)
    ensures
        r == (key_spec(*a) == key_spec(*b)),
{
    if a.vid != b.vid || a.pid != b.pid {
        return false;
    }
    match (&a.serial, &b.serial) {
        (Some(x), Some(y)) => str_eq(x.as_str(), y.as_str()),
        (None, None) => true,
        _ => false,
    }
}

/// Whether some camera of `cams` has the identity of `cam`.
pub open spec fn present_in(cams: Seq<CameraInfo>, cam: CameraInfo) -> bool {
    exists|j: int| 0 <= j < cams.len() && key_spec(#[trigger] cams[j]) == key_spec(cam)
}

/// Whether `cam` is still present in `latest`.
fn is_present(latest: &[CameraInfo], cam: &CameraInfo) -> (r: bool)
    ensures
        r == present_in(latest@, *cam),
{
    let mut j: usize = 0;
    while j < latest.len()
        invariant
            j <= latest@.len(),
            forall|k: int| 0 <= k < j ==> key_spec(#[trigger] latest@[k]) != key_spec(*cam),
        decreases latest@.len() - j,
    {
        if same_key(&latest[j], cam) {
            return true;
        }
        j = j + 1;
    }
    false
}

/// Positions of the cameras of `prev` whose identity is absent from
/// `latest`, in order.
pub open spec fn removed_indices(prev: Seq<CameraInfo>, latest: Seq<CameraInfo>) -> Seq<int>
    decreases prev.len(),
{
    if prev.len() == 0 {
        Seq::empty()
    } else {
        let rest = removed_indices(prev.drop_last(), latest);
        if present_in(latest, prev.last()) {
            rest
        } else {
            rest.push(prev.len() - 1)
        }
    }
}

/// The positions in `prev` of the cameras that disappeared between two
/// enumerations (the ones to announce as disconnected), in order.
pub fn disconnected(prev: &[CameraInfo], latest: &[CameraInfo]) -> (r: Vec<usize>)
    ensures
        r@.map_values(|i: usize| i as int) == removed_indices(prev@, latest@),
{
    let mut out: Vec<usize> = Vec::new();
    let mut i: usize = 0;
    while i < prev.len()
        invariant
            i <= prev@.len(),
            out@.map_values(|k: usize| k as int) == removed_indices(prev@.take(i as int), latest@),
        decreases prev@.len() - i,
    {
        assert(prev@.take(i + 1).drop_last() =~= prev@.take(i as int));
        assert(prev@.take(i + 1).last() == prev@[i as int]);
        if !is_present(latest, &prev[i]) {
            out.push(i);
            assert(out@.map_values(|k: usize| k as int) =~= removed_indices(
                prev@.take(i as int),
                latest@,
            ).push(i as int));
        }
        i = i + 1;
    }
    assert(prev@.take(prev@.len() as int) =~= prev@);
    out
}

/// Position of the first camera of `cams` with the given identity.
pub open spec fn position_of(cams: Seq<CameraInfo>, key: (u16, u16, Option<Seq<char>>)) -> Option<int>
    decreases cams.len(),
{
    if cams.len() == 0 {
        None
    } else if position_of(cams.drop_last(), key) is Some {
        position_of(cams.drop_last(), key)
    } else if key_spec(cams.last()) == key {
        Some(cams.len() - 1)
    } else {
        None
    }
}

/// The camera to keep mounted after a re-enumeration: the previously
/// selected camera, found again by identity, or the first one when it is
/// gone (or nothing was selected).
pub open spec fn reselect_spec(prev: Seq<CameraInfo>, selected: int, latest: Seq<CameraInfo>) -> int {
    if 0 <= selected < prev.len() {
        match position_of(latest, key_spec(prev[selected])) {
            Some(k) => k,
            None => 0,
        }
    } else {
        0
    }
}

proof fn lemma_position_first(cams: Seq<CameraInfo>, key: (u16, u16, Option<Seq<char>>), i: int)
    requires
        0 <= i < cams.len(),
        key_spec(cams[i]) == key,
        forall|j: int| 0 <= j < i ==> key_spec(#[trigger] cams[j]) != key,
    ensures
        position_of(cams, key) == Some(i),
    decreases cams.len(),
{
    if i < cams.len() - 1 {
        lemma_position_first(cams.drop_last(), key, i);
    } else {
        lemma_position_none(cams.drop_last(), key);
    }
}

proof fn lemma_position_none(cams: Seq<CameraInfo>, key: (u16, u16, Option<Seq<char>>))
    requires
        forall|j: int| 0 <= j < cams.len() ==> key_spec(#[trigger] cams[j]) != key,
    ensures
        position_of(cams, key) is None,
    decreases cams.len(),
{
    if cams.len() > 0 {
        lemma_position_none(cams.drop_last(), key);
    }
}

/// Which camera to mount after the hot-plug poll saw a new enumeration.
pub fn reselect(prev: &[CameraInfo], selected: usize, latest: &[CameraInfo]) -> (r: usize)
    ensures
        r == reselect_spec(prev@, selected as int, latest@),
{
    if selected >= prev.len() {
        return 0;
    }
    let cur = &prev[selected];
    let ghost key = key_spec(*cur);
    let mut j: usize = 0;
    while j < latest.len()
        invariant
            j <= latest@.len(),
            selected < prev@.len(),
            *cur == prev@[selected as int],
            key == key_spec(*cur),
            forall|k: int| 0 <= k < j ==> key_spec(#[trigger] latest@[k]) != key,
        decreases latest@.len() - j,
    {
        if same_key(&latest[j], cur) {
            proof {
                lemma_position_first(latest@, key, j as int);
            }
            return j;
        }
        j = j + 1;
    }
    proof {
        lemma_position_none(latest@, key);
    }
    0
}

/// The camera selector is shown only when there is a choice to make.
pub fn selector_visible(count: usize) -> (r: bool)
    ensures
        r == (count > 1),
{
    count > 1
}

/// Two cameras have the same identity exactly when their USB vendor and
/// product IDs agree and either both advertise the same serial or
/// neither advertises one.
pub proof fn lemma_identity(a: CameraInfo, b: CameraInfo)
    ensures
        (key_spec(a) == key_spec(b)) <==> (a.vid == b.vid && a.pid == b.pid && match (
            a.serial,
            b.serial,
        ) {
            (Some(x), Some(y)) => x@ == y@,
            (None, None) => true,
            _ => false,
        }),
{
}

proof fn lemma_position_found(cams: Seq<CameraInfo>, key: (u16, u16, Option<Seq<char>>))
    ensures
        position_of(cams, key) matches Some(k) ==> 0 <= k < cams.len() && key_spec(cams[k]) == key
            && forall|j: int| 0 <= j < k ==> key_spec(#[trigger] cams[j]) != key,
        position_of(cams, key) is None ==> forall|j: int|
            0 <= j < cams.len() ==> key_spec(#[trigger] cams[j]) != key,
    decreases cams.len(),
{
    if cams.len() > 0 {
        lemma_position_found(cams.drop_last(), key);
        assert forall|j: int| 0 <= j < cams.len() - 1 implies cams.drop_last()[j] == cams[j] by {}
    }
}

/// After a re-enumeration the page stays on the camera that was selected
/// when a camera with its identity is still there (the first such one),
/// and otherwise falls back to the first camera.
pub proof fn lemma_reselect(prev: Seq<CameraInfo>, selected: int, latest: Seq<CameraInfo>)
    ensures
        ({
            let r = reselect_spec(prev, selected, latest);
            &&& (0 <= selected < prev.len() && present_in(latest, prev[selected])) ==> (0 <= r
                < latest.len() && key_spec(latest[r]) == key_spec(prev[selected]) && forall|j: int|
                0 <= j < r ==> key_spec(#[trigger] latest[j]) != key_spec(prev[selected]))
            &&& !(0 <= selected < prev.len() && present_in(latest, prev[selected])) ==> r == 0
        }),
{
    if 0 <= selected < prev.len() {
        lemma_position_found(latest, key_spec(prev[selected]));
    }
}

/// The cameras announced as disconnected are exactly those of the
/// previous enumeration whose identity is absent from the new one, each
/// once, in their previous order.
pub proof fn lemma_disconnected(prev: Seq<CameraInfo>, latest: Seq<CameraInfo>)
    ensures
        forall|i: int|
            #![trigger removed_indices(prev, latest).contains(i)]
            removed_indices(prev, latest).contains(i) <==> (0 <= i < prev.len() && !present_in(
                latest,
                prev[i],
            )),
        forall|a: int, b: int|
            0 <= a < b < removed_indices(prev, latest).len() ==> removed_indices(prev, latest)[a]
                < removed_indices(prev, latest)[b],
    decreases prev.len(),
{
    if prev.len() > 0 {
        let rest = removed_indices(prev.drop_last(), latest);
        lemma_disconnected(prev.drop_last(), latest);
        assert forall|i: int|
            #![trigger removed_indices(prev, latest).contains(i)]
            removed_indices(prev, latest).contains(i) <==> (0 <= i < prev.len() && !present_in(
                latest,
                prev[i],
            )) by {
            if 0 <= i < prev.len() - 1 {
                assert(prev.drop_last()[i] == prev[i]);
            }
            if rest.contains(i) {
                assert(rest.contains(i));
            }
            if !present_in(latest, prev.last()) {
                let full = rest.push(prev.len() - 1);
                assert(full[full.len() - 1] == prev.len() - 1);
                if full.contains(i) {
                    let k = choose|k: int| 0 <= k < full.len() && full[k] == i;
                    if k < rest.len() {
                        assert(rest[k] == i);
                        assert(rest.contains(i));
                    }
                }
                if rest.contains(i) {
                    let k = choose|k: int| 0 <= k < rest.len() && rest[k] == i;
                    assert(full[k] == i);
                }
            }
        }
        assert forall|a: int, b: int|
            0 <= a < b < removed_indices(prev, latest).len() implies removed_indices(prev, latest)[a]
                < removed_indices(prev, latest)[b] by {
            if !present_in(latest, prev.last()) && b == rest.len() {
                assert(rest.contains(rest[a]));
            }
        }
    }
}

} // verus!

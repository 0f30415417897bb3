//! Discovery bookkeeping for connected OBSBOT cameras.
//!
//! The program walks `/sys/class/video4linux/*`, resolves each entry's
//! parent USB device and reads its descriptor attributes into a
//! [`SysfsVideoEntry`]. This module decides which entries are Tiny 2
//! family cameras and merges the entries of one USB device (a unit
//! advertises a capture node and a metadata node) into a single
//! [`CameraInfo`], in order of first appearance, keeping as the capture
//! path the node path that sorts first as text (so `/dev/video0` over
//! `/dev/video1`, but also `/dev/video10` over `/dev/video2`).

use vstd::prelude::*;

use crate::camera::{CameraInfo, CameraInfoView};
use crate::text::{
    lemma_seq_less_irreflexive, lemma_seq_less_transitive, push_str, seq_less, str_eq, str_less,
    trim, trim_whitespace,
};

verus! {

/// Remo Tech Co., Ltd. — the USB-IF vendor entity OBSBOT ships under.
pub const VID_OBSBOT: u16 = 0x3564;

/// `(VID, PID)` pairs recognised as the OBSBOT Tiny 2 family: the
/// regular Tiny 2 and the Tiny 2 Lite.
pub const TINY2_FAMILY: [(u16, u16); 2] = [(VID_OBSBOT, 0xfef8), (VID_OBSBOT, 0xfef9)];

/// Whether `(vid, pid)` is a Tiny 2 family unit.
pub open spec fn in_family(vid: u16, pid: u16) -> bool {
    vid == 0x3564 && (pid == 0xfef8 || pid == 0xfef9)
}

/// Returns `true` if `(vid, pid)` is an OBSBOT Tiny 2 family unit.
pub fn is_tiny_2_family(vid: u16, pid: u16) -> (r: bool)
    ensures
        r == in_family(vid, pid),
{
    let mut i: usize = 0;
    while i < 2
        invariant
            i <= 2,
            forall|k: int| 0 <= k < i ==> !(TINY2_FAMILY[k].0 == vid && TINY2_FAMILY[k].1 == pid),
        decreases 2 - i,
    {
        if TINY2_FAMILY[i].0 == vid && TINY2_FAMILY[i].1 == pid {
            return true;
        }
        i = i + 1;
    }
    false
}

/// The value of a hex digit character, if it is one.
pub open spec fn hex_value(c: char) -> Option<nat> {
    let v = c as u32;
    if 0x30 <= v <= 0x39 {
        Some((v - 0x30) as nat)
    } else if 0x61 <= v <= 0x66 {
        Some((v - 0x61 + 10) as nat)
    } else if 0x41 <= v <= 0x46 {
        Some((v - 0x41 + 10) as nat)
    } else {
        None
    }
}

/// The value of a sequence of hex digits, if every character is one.
pub open spec fn digits_value(s: Seq<char>) -> Option<nat>
    decreases s.len(),
{
    if s.len() == 0 {
        Some(0)
    } else {
        match (digits_value(s.drop_last()), hex_value(s.last())) {
            (Some(high), Some(low)) => Some(high * 16 + low),
            _ => None,
        }
    }
}

/// What `u16::from_str_radix(s, 16)` accepts: an optional leading `+`
/// followed by at least one hex digit, with a value that fits 16 bits.
pub open spec fn parse_hex_spec(s: Seq<char>) -> Option<u16> {
    if s.len() == 0 {
        None
    } else if s[0] == '+' && s.len() == 1 {
        None
    } else {
        let digits = if s[0] == '+' {
            s.drop_first()
        } else {
            s
        };
        match digits_value(digits) {
            Some(v) => if v <= 0xffff {
                Some(v as u16)
            } else {
                None
            },
            None => None,
        }
    }
}

/// The value of a hex digit character.
fn hex_digit_value(c: char) -> (r: Option<u32>)
    ensures
        r matches Some(d) ==> hex_value(c) == Some(d as nat) && d < 16,
        r is None ==> hex_value(c) is None,
{
    let v = c as u32;
    if 0x30 <= v && v <= 0x39 {
        Some(v - 0x30)
    } else if 0x61 <= v && v <= 0x66 {
        Some(v - 0x61 + 10)
    } else if 0x41 <= v && v <= 0x46 {
        Some(v - 0x41 + 10)
    } else {
        None
    }
}

/// Parse a hex string (`"3564"` to `0x3564`), ignoring surrounding
/// whitespace, as `u16::from_str_radix(s.trim(), 16)` does.
pub fn parse_hex_u16(s: &str) -> (r: Option<u16>)
    ensures
        r == parse_hex_spec(trim(s@)),
{
    let t = trim_whitespace(s);
    let ts = t.as_str();
    let n = ts.unicode_len();
    if n == 0 {
        return None;
    }
    let first = ts.get_char(0);
    assert(t@[0] == first);
    if first == '+' && n == 1 {
        return None;
    }
    let start: usize = if first == '+' {
        1
    } else {
        0
    };
    let ghost digits = if first == '+' {
        t@.drop_first()
    } else {
        t@
    };
    assert(digits =~= t@.skip(start as int));
    let mut acc: u32 = 0;
    let mut overflow = false;
    let mut i: usize = start;
    assert(digits.take(0) =~= Seq::<char>::empty());
    while i < n
        invariant
            n == t@.len(),
            ts@ == t@,
            t@ == trim(s@),
            n > 0,
            t@[0] == first,
            !(first == '+' && n == 1),
            start == (if first == '+' { 1usize } else { 0usize }),
            digits == (if first == '+' { t@.drop_first() } else { t@ }),
            start <= i <= n,
            digits == t@.skip(start as int),
            digits_value(digits.take(i - start)) is Some,
            !overflow ==> digits_value(digits.take(i - start)) == Some(acc as nat) && acc <= 0xffff,
            overflow ==> digits_value(digits.take(i - start))->Some_0 > 0xffff,
        decreases n - i,
    {
        let c = ts.get_char(i);
        let ghost prev = digits.take(i - start);
        let ghost next = digits.take(i + 1 - start);
        assert(next.drop_last() =~= prev);
        assert(digits[i - start] == t@[i as int]);
        assert(next.last() == c);
        match hex_digit_value(c) {
            None => {
                assert(digits_value(next) is None);
                proof {
                    lemma_digits_none_extends(digits, (i + 1 - start) as int);
                }
                assert(parse_hex_spec(t@) is None);
                return None;
            },
            Some(d) => {
                if !overflow {
                    let v = acc * 16 + d;
                    if v > 0xffff {
                        overflow = true;
                    } else {
                        acc = v;
                    }
                }
            },
        }
        i = i + 1;
    }
    assert(digits.take(n - start) =~= digits);
    if overflow {
        None
    } else {
        Some(acc as u16)
    }
}

/// Once a prefix holds a non-digit, the whole sequence has no value.
proof fn lemma_digits_none_extends(s: Seq<char>, k: int)
    requires
        0 <= k <= s.len(),
        digits_value(s.take(k)) is None,
    ensures
        digits_value(s) is None,
    decreases s.len() - k,
{
    if k < s.len() {
        assert(s.take(k + 1).drop_last() =~= s.take(k));
        lemma_digits_none_extends(s, k + 1);
    } else {
        assert(s.take(k) =~= s);
    }
}

/// One `/sys/class/video4linux/<name>` entry: the canonical path of its
/// parent USB device and the raw contents of that device's attribute
/// files (`None` for a missing or unreadable file).
#[derive(Debug, Clone, PartialEq, Eq)]
pub struct SysfsVideoEntry {
    /// Canonical path of the parent USB device directory.
    pub usb_device: String,
    /// Name of the video node (e.g. `video0`).
    pub video_name: String,
    /// Raw `idVendor` attribute.
    pub id_vendor: Option<String>,
    /// Raw `idProduct` attribute.
    pub id_product: Option<String>,
    /// Raw `manufacturer` attribute.
    pub manufacturer: Option<String>,
    /// Raw `product` attribute.
    pub product: Option<String>,
    /// Raw `serial` attribute.
    pub serial: Option<String>,
    /// Raw `bcdDevice` attribute.
    pub bcd_device: Option<String>,
}

/// A sysfs attribute after trimming, as read back.
pub open spec fn attr_text(raw: Option<String>) -> Option<Seq<char>> {
    match raw {
        Some(s) => Some(trim(s@)),
        None => None,
    }
}

/// A parsed hex attribute, `None` when absent or not a valid id.
pub open spec fn attr_id(raw: Option<String>) -> Option<u16> {
    match raw {
        Some(s) => parse_hex_spec(trim(trim(s@))),
        None => None,
    }
}

/// `/dev/` followed by the node name.
pub open spec fn dev_path(name: Seq<char>) -> Seq<char> {
    "/dev/"@ + name
}

/// The camera an entry describes, if it is a Tiny 2 family device.
pub open spec fn entry_camera(e: SysfsVideoEntry) -> Option<CameraInfoView> {
    match (attr_id(e.id_vendor), attr_id(e.id_product)) {
        (Some(vid), Some(pid)) => if in_family(vid, pid) {
            Some(
                CameraInfoView {
                    vendor: match attr_text(e.manufacturer) {
                        Some(t) => t,
                        None => Seq::empty(),
                    },
                    product: match attr_text(e.product) {
                        Some(t) => t,
                        None => Seq::empty(),
                    },
                    vid,
                    pid,
                    serial: attr_text(e.serial),
                    firmware: attr_text(e.bcd_device),
                    video_path: Some(dev_path(e.video_name@)),
                },
            )
        } else {
            None
        },
        _ => None,
    }
}

/// Read one trimmed attribute.
fn read_attr(raw: &Option<String>) -> (r: Option<String>)
    ensures
        match r {
            Some(t) => attr_text(*raw) == Some(t@),
            None => attr_text(*raw) is None,
        },
{
    match raw {
        Some(s) => Some(trim_whitespace(s.as_str())),
        None => None,
    }
}

/// Parse one hex id attribute.
fn read_id(raw: &Option<String>) -> (r: Option<u16>)
    ensures
        r == attr_id(*raw),
{
    match raw {
        Some(s) => {
            let t = trim_whitespace(s.as_str());
            parse_hex_u16(t.as_str())
        },
        None => None,
    }
}

/// Resolve one entry to the camera it describes, or `None` when it is
/// not a Tiny 2 family device (or its ids do not parse).
pub fn collect_one(e: &SysfsVideoEntry) -> (r: Option<CameraInfo>)
    ensures
        match r {
            Some(c) => entry_camera(*e) == Some(c@),
            None => entry_camera(*e) is None,
        },
{
    let vid = match read_id(&e.id_vendor) {
        Some(v) => v,
        None => return None,
    };
    let pid = match read_id(&e.id_product) {
        Some(p) => p,
        None => return None,
    };
    if !is_tiny_2_family(vid, pid) {
        return None;
    }
    let vendor = match read_attr(&e.manufacturer) {
        Some(t) => t,
        None => String::new(),
    };
    let product = match read_attr(&e.product) {
        Some(t) => t,
        None => String::new(),
    };
    let serial = read_attr(&e.serial);
    let firmware = read_attr(&e.bcd_device);
    let mut path = String::new();
    push_str(&mut path, "/dev/");
    push_str(&mut path, e.video_name.as_str());
    let info = CameraInfo {
        vendor,
        product,
        vid,
        pid,
        serial,
        firmware,
        video_path: Some(path),
    };
    assert(info@ == entry_camera(*e)->Some_0);
    Some(info)
}

/// Position of the first pair keyed by `device`, if any.
pub open spec fn find_device(acc: Seq<(Seq<char>, CameraInfoView)>, device: Seq<char>) -> Option<int> {
    find_device_in(merged_keys(acc), device)
}

/// Whether `new_path` should replace a camera's current capture path:
/// it does when there is none, or when it sorts before the current one.
pub open spec fn prefers(current: Option<Seq<char>>, new_path: Seq<char>) -> bool {
    match current {
        None => true,
        Some(p) => seq_less(new_path, p),
    }
}

/// Fold one entry into the per-device list.
pub open spec fn merge_step(
    acc: Seq<(Seq<char>, CameraInfoView)>,
    e: SysfsVideoEntry,
) -> Seq<(Seq<char>, CameraInfoView)> {
    match entry_camera(e) {
        None => acc,
        Some(cam) => match find_device(acc, e.usb_device@) {
            Some(k) => {
                let existing = acc[k].1;
                let node = dev_path(e.video_name@);
                if prefers(existing.video_path, node) {
                    acc.update(k, (acc[k].0, CameraInfoView { video_path: Some(node), ..existing }))
                } else {
                    acc
                }
            },
            None => acc.push((e.usb_device@, cam)),
        },
    }
}

/// The per-device list after folding every entry in order.
pub open spec fn merge_all(entries: Seq<SysfsVideoEntry>) -> Seq<(Seq<char>, CameraInfoView)>
    decreases entries.len(),
{
    if entries.len() == 0 {
        Seq::empty()
    } else {
        merge_step(merge_all(entries.drop_last()), entries.last())
    }
}

/// The cameras the entries describe, one per USB device, in order of
/// first appearance.
pub open spec fn cameras_spec(entries: Seq<SysfsVideoEntry>) -> Seq<CameraInfoView> {
    merge_all(entries).map_values(|p: (Seq<char>, CameraInfoView)| p.1)
}

/// Find the camera of `device` among those collected so far.
fn find_index(devices: &Vec<String>, device: &str) -> (r: Option<usize>)
    ensures
        r matches Some(k) ==> k < devices@.len(),
        match r {
            Some(k) => find_device_in(keys_of(devices@), device@) == Some(k as int),
            None => find_device_in(keys_of(devices@), device@) is None,
        },
{
    let ghost keys = keys_of(devices@);
    let mut i: usize = 0;
    while i < devices.len()
        invariant
            i <= devices@.len(),
            keys == keys_of(devices@),
            forall|j: int| 0 <= j < i ==> keys[j] != device@,
        decreases devices@.len() - i,
    {
        if str_eq(devices[i].as_str(), device) {
            proof {
                lemma_find_first(keys, device@, i as int);
            }
            return Some(i);
        }
        i = i + 1;
    }
    proof {
        lemma_find_none(keys, device@);
    }
    None
}

/// The characters of each string.
pub open spec fn keys_of(devices: Seq<String>) -> Seq<Seq<char>> {
    devices.map_values(|d: String| d@)
}

/// A copy of an optional string.
fn clone_opt(s: &Option<String>) -> (r: Option<String>)
    ensures
        r == *s,
{
    match s {
        Some(t) => Some(t.clone()),
        None => None,
    }
}

/// A copy of a camera record.
fn clone_info(c: &CameraInfo) -> (r: CameraInfo)
    ensures
        r == *c,
{
    CameraInfo {
        vendor: c.vendor.clone(),
        product: c.product.clone(),
        vid: c.vid,
        pid: c.pid,
        serial: clone_opt(&c.serial),
        firmware: clone_opt(&c.firmware),
        video_path: clone_opt(&c.video_path),
    }
}

/// Whether the per-device list matches the collected devices and
/// cameras position by position.
pub open spec fn tracks(
    acc: Seq<(Seq<char>, CameraInfoView)>,
    devices: Seq<String>,
    cams: Seq<CameraInfo>,
) -> bool {
    &&& acc.len() == devices.len()
    &&& acc.len() == cams.len()
    &&& forall|j: int|
        #![trigger acc[j]]
        0 <= j < acc.len() ==> acc[j].0 == devices[j]@ && acc[j].1 == cams[j]@
}

/// Merge the sysfs entries into one camera per USB device.
///
/// Entries that are not Tiny 2 family devices are skipped; the cameras
/// come out in order of first appearance of their device; a device seen
/// again only contributes its node path, which replaces the capture
/// path when it sorts lower.
pub fn cameras_from_entries(entries: &Vec<SysfsVideoEntry>) -> (r: Vec<CameraInfo>)
    ensures
        r@.map_values(|c: CameraInfo| c@) == cameras_spec(entries@),
{
    let mut devices: Vec<String> = Vec::new();
    let mut cams: Vec<CameraInfo> = Vec::new();
    let mut i: usize = 0;
    while i < entries.len()
        invariant
            i <= entries@.len(),
            tracks(merge_all(entries@.take(i as int)), devices@, cams@),
        decreases entries@.len() - i,
    {
        let e = &entries[i];
        let ghost acc = merge_all(entries@.take(i as int));
        assert(entries@.take(i + 1).drop_last() =~= entries@.take(i as int));
        assert(entries@.take(i + 1).last() == *e);
        assert(merged_keys(acc) =~= keys_of(devices@));
        match collect_one(e) {
            None => {},
            Some(info) => {
                match find_index(&devices, e.usb_device.as_str()) {
                    Some(k) => {
                        let mut node = String::new();
                        push_str(&mut node, "/dev/");
                        push_str(&mut node, e.video_name.as_str());
                        assert(node@ =~= dev_path(e.video_name@));
                        assert(acc[k as int].1 == cams@[k as int]@);
                        let replace = match &cams[k].video_path {
                            None => true,
                            Some(p) => str_less(node.as_str(), p.as_str()),
                        };
                        assert(replace == prefers(acc[k as int].1.video_path, node@));
                        if replace {
                            let mut updated = clone_info(&cams[k]);
                            updated.video_path = Some(node);
                            assert(updated@ == (CameraInfoView {
                                video_path: Some(dev_path(e.video_name@)),
                                ..acc[k as int].1
                            }));
                            cams.set(k, updated);
                        }
                    },
                    None => {
                        devices.push(e.usb_device.clone());
                        cams.push(info);
                    },
                }
            },
        }
        let ghost next = merge_all(entries@.take(i + 1));
        assert(next == merge_step(acc, *e));
        assert(tracks(next, devices@, cams@)) by {
            lemma_find_bounds(keys_of(devices@), e.usb_device@);
        }
        i = i + 1;
    }
    assert(entries@.take(entries@.len() as int) =~= entries@);
    let ghost merged = merge_all(entries@.take(i as int));
    assert(merged == merge_all(entries@));
    assert forall|j: int| 0 <= j < cams@.len() implies cams@.map_values(|c: CameraInfo| c@)[j]
        == cameras_spec(entries@)[j] by {
        assert(merged[j].1 == cams@[j]@);
    }
    assert(cams@.map_values(|c: CameraInfo| c@) =~= cameras_spec(entries@));
    cams
}

/// Position of the first key equal to `device`, if any.
pub open spec fn find_device_in(keys: Seq<Seq<char>>, device: Seq<char>) -> Option<int>
    decreases keys.len(),
{
    if keys.len() == 0 {
        None
    } else if find_device_in(keys.drop_last(), device) is Some {
        find_device_in(keys.drop_last(), device)
    } else if keys.last() == device {
        Some(keys.len() - 1)
    } else {
        None
    }
}

proof fn lemma_find_bounds(keys: Seq<Seq<char>>, device: Seq<char>)
    ensures
        find_device_in(keys, device) matches Some(k) ==> 0 <= k < keys.len() && keys[k] == device,
    decreases keys.len(),
{
    if keys.len() > 0 {
        lemma_find_bounds(keys.drop_last(), device);
    }
}

proof fn lemma_find_first(keys: Seq<Seq<char>>, device: Seq<char>, i: int)
    requires
        0 <= i < keys.len(),
        keys[i] == device,
        forall|j: int| 0 <= j < i ==> keys[j] != device,
    ensures
        find_device_in(keys, device) == Some(i),
    decreases keys.len(),
{
    if i < keys.len() - 1 {
        lemma_find_first(keys.drop_last(), device, i);
    } else {
        lemma_find_none(keys.drop_last(), device);
    }
}

proof fn lemma_find_none(keys: Seq<Seq<char>>, device: Seq<char>)
    requires
        forall|j: int| 0 <= j < keys.len() ==> keys[j] != device,
    ensures
        find_device_in(keys, device) is None,
    decreases keys.len(),
{
    if keys.len() > 0 {
        lemma_find_none(keys.drop_last(), device);
    }
}

/// Keys of the per-device list.
pub open spec fn merged_keys(m: Seq<(Seq<char>, CameraInfoView)>) -> Seq<Seq<char>> {
    m.map_values(|p: (Seq<char>, CameraInfoView)| p.0)
}

/// Each device appears once in the per-device list.
pub open spec fn inv_unique(m: Seq<(Seq<char>, CameraInfoView)>) -> bool {
    forall|j: int, k: int| 0 <= j < k < m.len() ==> #[trigger] m[j].0 != #[trigger] m[k].0
}

/// The capture path of list entry `j` is the node of a family entry of
/// its device.
pub open spec fn sourced_at(
    entries: Seq<SysfsVideoEntry>,
    m: Seq<(Seq<char>, CameraInfoView)>,
    j: int,
) -> bool {
    exists|i: int|
        0 <= i < entries.len() && entry_camera(#[trigger] entries[i]) is Some
            && entries[i].usb_device@ == m[j].0 && m[j].1.video_path == Some(
            dev_path(entries[i].video_name@),
        )
}

/// Every capture path in the list is one of its device's nodes.
pub open spec fn inv_sourced(entries: Seq<SysfsVideoEntry>, m: Seq<(Seq<char>, CameraInfoView)>) -> bool {
    forall|j: int| 0 <= j < m.len() ==> #[trigger] sourced_at(entries, m, j)
}

/// The entry's device is in the list with a capture path, and the
/// entry's node does not sort before that path.
pub open spec fn sorts_first_ok(m: Seq<(Seq<char>, CameraInfoView)>, e: SysfsVideoEntry) -> bool {
    match find_device(m, e.usb_device@) {
        Some(j) => m[j].1.video_path is Some && !seq_less(
            dev_path(e.video_name@),
            m[j].1.video_path->Some_0,
        ),
        None => false,
    }
}

/// Every family entry's device is listed with a path no node of it
/// sorts before.
pub open spec fn inv_sorts_first(entries: Seq<SysfsVideoEntry>, m: Seq<(Seq<char>, CameraInfoView)>) -> bool {
    forall|i: int|
        0 <= i < entries.len() && entry_camera(#[trigger] entries[i]) is Some ==> sorts_first_ok(
            m,
            entries[i],
        )
}

/// The per-device list holds each device once, each camera's capture
/// path is one of its device's nodes, and no node of the device sorts
/// before it.
pub open spec fn merge_invariant(entries: Seq<SysfsVideoEntry>, m: Seq<(Seq<char>, CameraInfoView)>) -> bool {
    &&& inv_unique(m)
    &&& inv_sourced(entries, m)
    &&& inv_sorts_first(entries, m)
}

proof fn lemma_find_none_all(keys: Seq<Seq<char>>, device: Seq<char>)
    requires
        find_device_in(keys, device) is None,
    ensures
        forall|j: int| 0 <= j < keys.len() ==> keys[j] != device,
    decreases keys.len(),
{
    if keys.len() > 0 {
        lemma_find_none_all(keys.drop_last(), device);
        assert forall|j: int| 0 <= j < keys.len() implies keys[j] != device by {
            if j < keys.len() - 1 {
                assert(keys.drop_last()[j] == keys[j]);
            }
        }
    }
}

/// A list entry that keeps its path stays sourced when an entry is
/// appended.
proof fn lemma_sourced_extend(
    prev: Seq<SysfsVideoEntry>,
    e: SysfsVideoEntry,
    m: Seq<(Seq<char>, CameraInfoView)>,
    m2: Seq<(Seq<char>, CameraInfoView)>,
    j: int,
)
    requires
        sourced_at(prev, m, j),
        m2[j] == m[j],
    ensures
        sourced_at(prev.push(e), m2, j),
{
    let i = choose|i: int|
        0 <= i < prev.len() && entry_camera(#[trigger] prev[i]) is Some && prev[i].usb_device@
            == m[j].0 && m[j].1.video_path == Some(dev_path(prev[i].video_name@));
    assert(prev.push(e)[i] == prev[i]);
}

/// A non-family entry leaves the list, and the invariant, unchanged.
proof fn lemma_step_skip(prev: Seq<SysfsVideoEntry>, e: SysfsVideoEntry, m: Seq<(Seq<char>, CameraInfoView)>)
    requires
        merge_invariant(prev, m),
        entry_camera(e) is None,
    ensures
        merge_invariant(prev.push(e), merge_step(m, e)),
{
    let entries = prev.push(e);
    assert forall|j: int| 0 <= j < m.len() implies #[trigger] sourced_at(entries, m, j) by {
        lemma_sourced_extend(prev, e, m, m, j);
    }
    assert forall|i: int|
        0 <= i < entries.len() && entry_camera(#[trigger] entries[i]) is Some implies sorts_first_ok(
        m,
        entries[i],
    ) by {
        assert(i < prev.len());
        assert(entries[i] == prev[i]);
    }
}

/// Another node of an already listed device keeps the invariant.
proof fn lemma_step_update(prev: Seq<SysfsVideoEntry>, e: SysfsVideoEntry, m: Seq<(Seq<char>, CameraInfoView)>)
    requires
        merge_invariant(prev, m),
        entry_camera(e) is Some,
        find_device(m, e.usb_device@) is Some,
    ensures
        merge_invariant(prev.push(e), merge_step(m, e)),
{
    let entries = prev.push(e);
    let m2 = merge_step(m, e);
    let k = find_device(m, e.usb_device@)->Some_0;
    lemma_find_bounds(merged_keys(m), e.usb_device@);
    let existing = m[k].1;
    let node = dev_path(e.video_name@);
    lemma_seq_less_irreflexive(node);
    let replaced = prefers(existing.video_path, node);
    assert(merged_keys(m2) =~= merged_keys(m));
    assert(m2.len() == m.len());
    assert forall|j: int, l: int| 0 <= j < l < m2.len() implies #[trigger] m2[j].0
        != #[trigger] m2[l].0 by {
        assert(merged_keys(m2)[j] == merged_keys(m)[j]);
        assert(merged_keys(m2)[l] == merged_keys(m)[l]);
    }
    assert forall|j: int| 0 <= j < m2.len() implies #[trigger] sourced_at(entries, m2, j) by {
        if j == k && replaced {
            assert(entries[prev.len() as int] == e);
            assert(merged_keys(m)[k] == e.usb_device@);
        } else {
            lemma_sourced_extend(prev, e, m, m2, j);
        }
    }
    assert forall|i: int|
        0 <= i < entries.len() && entry_camera(#[trigger] entries[i]) is Some implies sorts_first_ok(
        m2,
        entries[i],
    ) by {
        if i < prev.len() {
            assert(entries[i] == prev[i]);
            assert(sorts_first_ok(m, prev[i]));
            let j = find_device(m, prev[i].usb_device@)->Some_0;
            lemma_find_bounds(merged_keys(m), prev[i].usb_device@);
            if j == k && replaced {
                let old_path = existing.video_path->Some_0;
                if existing.video_path is Some && seq_less(dev_path(prev[i].video_name@), node) {
                    lemma_seq_less_transitive(dev_path(prev[i].video_name@), node, old_path);
                }
                assert(m2[k].1.video_path == Some(node));
            } else {
                assert(m2[j] == m[j]);
            }
        } else {
            assert(entries[i] == e);
            assert(sourced_at(prev, m, k));
            if !replaced {
                assert(m2[k] == m[k]);
            }
        }
    }
}

/// The first node of a new device appends it with that node as path.
proof fn lemma_step_push(prev: Seq<SysfsVideoEntry>, e: SysfsVideoEntry, m: Seq<(Seq<char>, CameraInfoView)>)
    requires
        merge_invariant(prev, m),
        entry_camera(e) is Some,
        find_device(m, e.usb_device@) is None,
    ensures
        merge_invariant(prev.push(e), merge_step(m, e)),
{
    let entries = prev.push(e);
    let cam = entry_camera(e)->Some_0;
    let m2 = merge_step(m, e);
    let node = dev_path(e.video_name@);
    lemma_seq_less_irreflexive(node);
    lemma_find_none_all(merged_keys(m), e.usb_device@);
    assert(m2 == m.push((e.usb_device@, cam)));
    assert(merged_keys(m2).drop_last() =~= merged_keys(m));
    assert(merged_keys(m2).last() == e.usb_device@);
    assert forall|j: int, l: int| 0 <= j < l < m2.len() implies #[trigger] m2[j].0
        != #[trigger] m2[l].0 by {
        if l == m.len() {
            assert(merged_keys(m)[j] == m[j].0);
        }
    }
    assert forall|j: int| 0 <= j < m2.len() implies #[trigger] sourced_at(entries, m2, j) by {
        if j == m.len() {
            assert(entries[prev.len() as int] == e);
        } else {
            lemma_sourced_extend(prev, e, m, m2, j);
        }
    }
    assert forall|i: int|
        0 <= i < entries.len() && entry_camera(#[trigger] entries[i]) is Some implies sorts_first_ok(
        m2,
        entries[i],
    ) by {
        if i < prev.len() {
            assert(entries[i] == prev[i]);
            assert(sorts_first_ok(m, prev[i]));
            let d = prev[i].usb_device@;
            let j = find_device(m, d)->Some_0;
            lemma_find_bounds(merged_keys(m), d);
            assert(find_device_in(merged_keys(m2), d) == find_device_in(merged_keys(m), d));
            assert(m2[j] == m[j]);
        } else {
            assert(entries[i] == e);
            assert(find_device_in(merged_keys(m2), e.usb_device@) == Some(m.len() as int));
        }
    }
}

/// The merge keeps each USB device once, and each camera's capture path
/// is one of its device's nodes that no other node of the device sorts
/// before, comparing the paths as text.
pub proof fn lemma_merge_one_camera_per_device_first_sorted_path(entries: Seq<SysfsVideoEntry>)
    ensures
        merge_invariant(entries, merge_all(entries)),
    decreases entries.len(),
{
    if entries.len() == 0 {
        return;
    }
    let prev = entries.drop_last();
    let e = entries.last();
    lemma_merge_one_camera_per_device_first_sorted_path(prev);
    assert(prev.push(e) =~= entries);
    let m = merge_all(prev);
    if entry_camera(e) is None {
        lemma_step_skip(prev, e, m);
    } else if find_device(m, e.usb_device@) is Some {
        lemma_step_update(prev, e, m);
    } else {
        lemma_step_push(prev, e, m);
    }
}

/// Entry `i` is the first entry of list position `p`'s device, that
/// camera's details (all but its capture path) are the ones entry `i`
/// describes, and no entry up to `i` belongs to a device listed later.
pub open spec fn first_entry_at(
    entries: Seq<SysfsVideoEntry>,
    m: Seq<(Seq<char>, CameraInfoView)>,
    p: int,
    i: int,
) -> bool {
    &&& 0 <= i < entries.len()
    &&& entry_camera(entries[i]) is Some
    &&& entries[i].usb_device@ == m[p].0
    &&& forall|j: int|
        0 <= j < i && entry_camera(#[trigger] entries[j]) is Some ==> entries[j].usb_device@
            != m[p].0
    &&& (CameraInfoView { video_path: m[p].1.video_path, ..entry_camera(entries[i])->Some_0 })
        == m[p].1
    &&& forall|q: int, j: int|
        p < q < m.len() && 0 <= j <= i && entry_camera(#[trigger] entries[j]) is Some
            ==> entries[j].usb_device@ != #[trigger] m[q].0
}

/// List position `p` comes from the first entry of its device, in the
/// sense of [`first_entry_at`].
pub open spec fn from_first_entry(
    entries: Seq<SysfsVideoEntry>,
    m: Seq<(Seq<char>, CameraInfoView)>,
    p: int,
) -> bool {
    exists|i: int| #[trigger] first_entry_at(entries, m, p, i)
}

/// Every camera of the merge comes from the first entry of its device:
/// its vendor, product, IDs, serial and firmware are those that entry
/// describes, and the cameras are listed in the order their devices
/// first appear.
pub proof fn lemma_merge_first_appearance(entries: Seq<SysfsVideoEntry>)
    ensures
        forall|p: int|
            0 <= p < merge_all(entries).len() ==> #[trigger] from_first_entry(
                entries,
                merge_all(entries),
                p,
            ),
    decreases entries.len(),
{
    if entries.len() == 0 {
        return;
    }
    let prev = entries.drop_last();
    let e = entries.last();
    lemma_merge_first_appearance(prev);
    lemma_merge_one_camera_per_device_first_sorted_path(prev);
    assert(prev.push(e) =~= entries);
    let m = merge_all(prev);
    let m2 = merge_all(entries);
    assert(m2 == merge_step(m, e));
    assert forall|j: int| 0 <= j < prev.len() implies entries[j] == prev[j] by {}
    if entry_camera(e) is None {
        assert forall|p: int| 0 <= p < m2.len() implies #[trigger] from_first_entry(
            entries,
            m2,
            p,
        ) by {
            assert(from_first_entry(prev, m, p));
                let i = choose|i: int| #[trigger] first_entry_at(prev, m, p, i);
            assert(first_entry_at(entries, m2, p, i));
        }
    } else if find_device(m, e.usb_device@) is Some {
        let k = find_device(m, e.usb_device@)->Some_0;
        lemma_find_bounds(merged_keys(m), e.usb_device@);
        assert(m2.len() == m.len());
        assert forall|p: int| 0 <= p < m2.len() implies m2[p].0 == m[p].0 && (CameraInfoView {
            video_path: m2[p].1.video_path,
            ..m[p].1
        }) == m2[p].1 by {}
        assert forall|p: int| 0 <= p < m2.len() implies #[trigger] from_first_entry(
            entries,
            m2,
            p,
        ) by {
            assert(from_first_entry(prev, m, p));
                let i = choose|i: int| #[trigger] first_entry_at(prev, m, p, i);
            assert forall|q: int, j: int|
                p < q < m2.len() && 0 <= j <= i && entry_camera(#[trigger] entries[j]) is Some
                    implies entries[j].usb_device@ != #[trigger] m2[q].0 by {
                assert(m2[q].0 == m[q].0);
                assert(entries[j] == prev[j]);
            }
            assert(first_entry_at(entries, m2, p, i));
        }
    } else {
        let cam = entry_camera(e)->Some_0;
        lemma_find_none_all(merged_keys(m), e.usb_device@);
        assert(m2 == m.push((e.usb_device@, cam)));
        // No earlier family entry belongs to the new device.
        assert forall|j: int|
            0 <= j < prev.len() && entry_camera(#[trigger] prev[j]) is Some implies prev[j].usb_device@
            != e.usb_device@ by {
            assert(sorts_first_ok(m, prev[j]));
            let d = prev[j].usb_device@;
            lemma_find_bounds(merged_keys(m), d);
            let t = find_device(m, d)->Some_0;
            assert(merged_keys(m)[t] == d);
        }
        assert forall|p: int| 0 <= p < m2.len() implies #[trigger] from_first_entry(
            entries,
            m2,
            p,
        ) by {
            if p < m.len() {
                assert(from_first_entry(prev, m, p));
                let i = choose|i: int| #[trigger] first_entry_at(prev, m, p, i);
                assert(m2[p] == m[p]);
                assert forall|q: int, j: int|
                    p < q < m2.len() && 0 <= j <= i && entry_camera(#[trigger] entries[j]) is Some
                        implies entries[j].usb_device@ != #[trigger] m2[q].0 by {
                    assert(entries[j] == prev[j]);
                    if q < m.len() {
                        assert(m2[q] == m[q]);
                    }
                }
                assert(first_entry_at(entries, m2, p, prev.len() as int) || first_entry_at(
                    entries,
                    m2,
                    p,
                    i,
                ));
            } else {
                let i = prev.len() as int;
                assert(entries[i] == e);
                assert forall|j: int|
                    0 <= j < i && entry_camera(#[trigger] entries[j]) is Some implies entries[j].usb_device@
                    != m2[p].0 by {
                    assert(entries[j] == prev[j]);
                }
                assert(first_entry_at(entries, m2, p, i));
            }
        }
    }
}

/// The Tiny 2 family is exactly the OBSBOT vendor ID `0x3564` with
/// product ID `0xfef8` (Tiny 2) or `0xfef9` (Tiny 2 Lite), the two pairs
/// of [`TINY2_FAMILY`].
pub proof fn lemma_family(vid: u16, pid: u16)
    ensures
        in_family(vid, pid) <==> ((vid, pid) == (0x3564u16, 0xfef8u16) || (vid, pid) == (
            0x3564u16,
            0xfef9u16,
        )),
        in_family(vid, pid) <==> TINY2_FAMILY@.contains((vid, pid)),
        VID_OBSBOT == 0x3564,
{
    assert(TINY2_FAMILY@ =~= seq![(0x3564u16, 0xfef8u16), (0x3564u16, 0xfef9u16)]);
    if in_family(vid, pid) {
        if pid == 0xfef8 {
            assert(TINY2_FAMILY@[0] == (vid, pid));
        } else {
            assert(TINY2_FAMILY@[1] == (vid, pid));
        }
    }
}

/// Hex digits are `0`-`9`, `a`-`f` and `A`-`F` with their usual values;
/// no other character is one.
pub proof fn lemma_hex_digits(c: char)
    ensures
        hex_value('0') == Some(0nat),
        hex_value('1') == Some(1nat),
        hex_value('2') == Some(2nat),
        hex_value('3') == Some(3nat),
        hex_value('4') == Some(4nat),
        hex_value('5') == Some(5nat),
        hex_value('6') == Some(6nat),
        hex_value('7') == Some(7nat),
        hex_value('8') == Some(8nat),
        hex_value('9') == Some(9nat),
        hex_value('a') == Some(10nat),
        hex_value('b') == Some(11nat),
        hex_value('c') == Some(12nat),
        hex_value('d') == Some(13nat),
        hex_value('e') == Some(14nat),
        hex_value('f') == Some(15nat),
        hex_value('A') == Some(10nat),
        hex_value('B') == Some(11nat),
        hex_value('C') == Some(12nat),
        hex_value('D') == Some(13nat),
        hex_value('E') == Some(14nat),
        hex_value('F') == Some(15nat),
        hex_value(c) is Some <==> (('0' <= c && c <= '9') || ('a' <= c && c <= 'f') || ('A' <= c
            && c <= 'F')),
{
}

/// A hex attribute of up to four digits, with or without a leading `+`,
/// reads as the number those digits spell; an empty one, a lone `+`, or
/// one with any other character does not read.
pub proof fn lemma_parse_hex(a: char, b: char, c: char, d: char)
    ensures
        hex_value(a) is Some && hex_value(b) is Some && hex_value(c) is Some && hex_value(d) is Some
            ==> parse_hex_spec(seq![a, b, c, d]) == Some(
            (hex_value(a)->Some_0 * 4096 + hex_value(b)->Some_0 * 256 + hex_value(c)->Some_0 * 16
                + hex_value(d)->Some_0) as u16,
        ) && parse_hex_spec(seq!['+', a, b, c, d]) == parse_hex_spec(seq![a, b, c, d]),
        a != '+' && (hex_value(a) is None || hex_value(b) is None) ==> parse_hex_spec(seq![a, b])
            is None,
        parse_hex_spec(Seq::empty()) is None,
        parse_hex_spec(seq!['+']) is None,
{
    let s = seq![a, b, c, d];
    assert(s.drop_last() =~= seq![a, b, c]);
    assert(seq![a, b, c].drop_last() =~= seq![a, b]);
    assert(seq![a, b].drop_last() =~= seq![a]);
    assert(seq![a].drop_last() =~= Seq::<char>::empty());
    assert(seq!['+', a, b, c, d].drop_first() =~= s);
    if hex_value(a) is None {
        assert(seq![a].last() == a);
        assert(digits_value(seq![a]) is None);
    }
    if hex_value(a) is Some && hex_value(b) is Some && hex_value(c) is Some && hex_value(d) is Some {
        let x = hex_value(a)->Some_0;
        let y = hex_value(b)->Some_0;
        let z = hex_value(c)->Some_0;
        let w = hex_value(d)->Some_0;
        assert(x < 16 && y < 16 && z < 16 && w < 16);
        assert(digits_value(Seq::<char>::empty()) == Some(0nat));
        assert(seq![a].last() == a);
        assert(digits_value(seq![a]) == Some(x));
        assert(digits_value(seq![a, b]) == Some(x * 16 + y));
        assert(digits_value(seq![a, b, c]) == Some((x * 16 + y) * 16 + z));
        assert(digits_value(s) == Some(((x * 16 + y) * 16 + z) * 16 + w));
        assert(s[0] != '+');
        assert(x * 4096 + y * 256 + z * 16 + w <= 0xffff) by (nonlinear_arith)
            requires
                x < 16,
                y < 16,
                z < 16,
                w < 16,
        ;
        assert(((x * 16 + y) * 16 + z) * 16 + w == x * 4096 + y * 256 + z * 16 + w) by (
        nonlinear_arith);
    }
}

/// A sysfs entry is a camera exactly when its trimmed `idVendor` and
/// `idProduct` attributes read as a Tiny 2 family pair; the camera then
/// carries those IDs, the trimmed manufacturer and product (empty when
/// absent), the trimmed serial and firmware when present, and
/// `/dev/<node>` as its capture path.
pub proof fn lemma_entry_camera(e: SysfsVideoEntry)
    ensures
        entry_camera(e) is Some <==> (attr_id(e.id_vendor) is Some && attr_id(e.id_product) is Some
            && in_family(attr_id(e.id_vendor)->Some_0, attr_id(e.id_product)->Some_0)),
        entry_camera(e) matches Some(c) ==> ({
            &&& c.vid == attr_id(e.id_vendor)->Some_0
            &&& c.pid == attr_id(e.id_product)->Some_0
            &&& c.vendor == (match e.manufacturer {
                Some(t) => trim(t@),
                None => Seq::empty(),
            })
            &&& c.product == (match e.product {
                Some(t) => trim(t@),
                None => Seq::empty(),
            })
            &&& c.serial == (match e.serial {
                Some(t) => Some(trim(t@)),
                None => None,
            })
            &&& c.firmware == (match e.bcd_device {
                Some(t) => Some(trim(t@)),
                None => None,
            })
            &&& c.video_path == Some(seq!['/', 'd', 'e', 'v', '/'] + e.video_name@)
        }),
{
    reveal_strlit("/dev/");
}

} // verus!

//! Output of the command-line `list` subcommand.

use vstd::prelude::*;

use crate::camera::{CameraInfo, CameraInfoView};
use crate::text::{decimal, hex_padded, push_decimal, push_hex_padded, push_str};

verus! {

/// An optional text, or `fallback` when absent.
pub open spec fn text_or(s: Option<Seq<char>>, fallback: Seq<char>) -> Seq<char> {
    match s {
        Some(t) => t,
        None => fallback,
    }
}

/// The header line for `n` cameras, singular for one.
pub open spec fn header_text(n: nat) -> Seq<char> {
    if n == 1 {
        "1 camera detected:\n\n"@
    } else {
        decimal(n) + " cameras detected:\n\n"@
    }
}

/// One labelled line: the label, the value and a newline.
pub open spec fn field_line(label: Seq<char>, value: Seq<char>) -> Seq<char> {
    label + value + "\n"@
}

/// The title line of the camera at position `idx` (shown 1-based).
pub open spec fn title_line(idx: nat, product: Seq<char>) -> Seq<char> {
    "["@ + decimal(idx + 1) + "] "@ + product + "\n"@
}

/// The USB id line: vendor and product id as four lower-case hex digits.
pub open spec fn usb_line(vid: u16, pid: u16) -> Seq<char> {
    "    USB ID:   "@ + hex_padded(vid as nat, 4) + ":"@ + hex_padded(pid as nat, 4) + "\n"@
}

/// The indexed stanza of the camera at position `idx`; every stanza but
/// the last is followed by a blank line.
pub open spec fn stanza_text(idx: nat, cam: CameraInfoView, last: bool) -> Seq<char> {
    title_line(idx, cam.product) + field_line("    Vendor:   "@, cam.vendor) + usb_line(
        cam.vid,
        cam.pid,
    ) + field_line("    Serial:   "@, text_or(cam.serial, "(not advertised)"@)) + field_line(
        "    Firmware: "@,
        text_or(cam.firmware, "(unknown)"@),
    ) + field_line("    Video:    "@, text_or(cam.video_path, "(none)"@)) + (if last {
        Seq::<char>::empty()
    } else {
        "\n"@
    })
}

/// The stanzas of the first `k` cameras.
pub open spec fn stanzas(cams: Seq<CameraInfoView>, k: nat) -> Seq<char>
    decreases k,
{
    if k == 0 {
        Seq::empty()
    } else {
        stanzas(cams, (k - 1) as nat) + stanza_text((k - 1) as nat, cams[k - 1], k == cams.len())
    }
}

/// The full `list` output for the given cameras.
pub open spec fn render_spec(cams: Seq<CameraInfoView>) -> Seq<char> {
    if cams.len() == 0 {
        "No OBSBOT cameras detected.\n"@
    } else {
        header_text(cams.len()) + stanzas(cams, cams.len())
    }
}

/// The characters of an optional string.
pub open spec fn opt_chars(s: Option<String>) -> Option<Seq<char>> {
    match s {
        Some(t) => Some(t@),
        None => None,
    }
}

/// Append a labelled line whose value is an optional string, or
/// `fallback` when absent.
fn push_opt_line(out: &mut String, label: &str, s: &Option<String>, fallback: &str)
    ensures
        final(out)@ == old(out)@ + field_line(label@, text_or(opt_chars(*s), fallback@)),
{
    push_str(out, label);
    match s {
        Some(t) => push_str(out, t.as_str()),
        None => push_str(out, fallback),
    }
    push_str(out, "\n");
    assert(out@ =~= old(out)@ + field_line(label@, text_or(opt_chars(*s), fallback@)));
}

/// Append a labelled line.
fn push_line(out: &mut String, label: &str, value: &str)
    ensures
        final(out)@ == old(out)@ + field_line(label@, value@),
{
    push_str(out, label);
    push_str(out, value);
    push_str(out, "\n");
    assert(out@ =~= old(out)@ + field_line(label@, value@));
}

/// Append the title line.
fn push_title(out: &mut String, idx: usize, product: &str)
    requires
        idx < usize::MAX,
    ensures
        final(out)@ == old(out)@ + title_line(idx as nat, product@),
{
    push_str(out, "[");
    push_decimal(out, (idx + 1) as u64);
    push_str(out, "] ");
    push_str(out, product);
    push_str(out, "\n");
    assert(out@ =~= old(out)@ + title_line(idx as nat, product@));
}

/// Append the USB id line.
fn push_usb_line(out: &mut String, vid: u16, pid: u16)
    ensures
        final(out)@ == old(out)@ + usb_line(vid, pid),
{
    push_str(out, "    USB ID:   ");
    push_hex_padded(out, vid as u64, 4);
    push_str(out, ":");
    push_hex_padded(out, pid as u64, 4);
    push_str(out, "\n");
    assert(out@ =~= old(out)@ + usb_line(vid, pid));
}

/// Append the stanza of one camera.
fn push_stanza(out: &mut String, idx: usize, cam: &CameraInfo, last: bool)
    requires
        idx < usize::MAX,
    ensures
        final(out)@ == old(out)@ + stanza_text(idx as nat, cam@, last),
{
    push_title(out, idx, cam.product.as_str());
    push_line(out, "    Vendor:   ", cam.vendor.as_str());
    push_usb_line(out, cam.vid, cam.pid);
    push_opt_line(out, "    Serial:   ", &cam.serial, "(not advertised)");
    push_opt_line(out, "    Firmware: ", &cam.firmware, "(unknown)");
    push_opt_line(out, "    Video:    ", &cam.video_path, "(none)");
    if !last {
        push_str(out, "\n");
    }
    assert(out@ =~= old(out)@ + stanza_text(idx as nat, cam@, last));
}

/// Render the `list` subcommand's output.
pub fn render(cameras: &[CameraInfo]) -> (r: String)
    ensures
        r@ == render_spec(cameras@.map_values(|c: CameraInfo| c@)),
{
    let ghost cams = cameras@.map_values(|c: CameraInfo| c@);
    let mut out = String::new();
    if cameras.len() == 0 {
        push_str(&mut out, "No OBSBOT cameras detected.\n");
        assert(out@ =~= render_spec(cams));
        return out;
    }
    if cameras.len() == 1 {
        push_str(&mut out, "1 camera detected:\n\n");
    } else {
        push_decimal(&mut out, cameras.len() as u64);
        push_str(&mut out, " cameras detected:\n\n");
    }
    assert(out@ =~= header_text(cams.len()));
    let n = cameras.len();
    let mut idx: usize = 0;
    while idx < n
        invariant
            n == cameras@.len(),
            cams == cameras@.map_values(|c: CameraInfo| c@),
            idx <= n,
            out@ == header_text(cams.len()) + stanzas(cams, idx as nat),
        decreases n - idx,
    {
        let ghost before = out@;
        push_stanza(&mut out, idx, &cameras[idx], idx + 1 == n);
        assert(cams[idx as int] == cameras@[idx as int]@);
        assert(out@ =~= header_text(cams.len()) + stanzas(cams, (idx + 1) as nat));
        idx = idx + 1;
    }
    out
}

} // verus!

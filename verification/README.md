# obsbot-core

A library for controlling OBSBOT Tiny 2 family webcams on Linux, written
in Verus: its behaviour is stated in `requires` / `ensures` contracts and
proved.

## Layout

- `src/` — the verified library.
  - `xu/` — the vendor UVC Extension Unit: the 36-byte command frame, the
    per-command payloads, the enum wire encodings, the 60-byte status
    decoder and the transport's length rules.
  - `enumerate.rs` — which sysfs video entries are Tiny 2 family cameras,
    and how the entries of one USB device merge into one camera.
  - `controls.rs` — which V4L2 controls are listed and how each is
    reshaped for display.
  - `cli.rs` — the text of the `list` command.
  - `gui/` — the rules behind the control panel: restoring saved values,
    PTZ stepping and the zoom lock, settings keys, dropdown order, page
    and tab choice, hot-plug bookkeeping.
  - `camera.rs`, `error.rs`, `text.rs` — the camera trait and its types,
    errors, and the text rendering the contracts are stated over.
- `tests/` — tests run against the compiled library.
- `app/` — the command-line program and the device I/O around the
  library: the sysfs walk, the `UVCIOC_CTRL_QUERY` ioctl, and V4L2
  control reads and writes.

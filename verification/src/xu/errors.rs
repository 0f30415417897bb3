//! Errors raised by the XU transport rules, the per-command payload
//! builders and the status decoder.

use vstd::prelude::*;

use crate::error::{other_io_error, Error};
use crate::text::{
    hex_prefixed, push_decimal, push_hex_prefixed, push_signed_decimal, push_str, decimal,
    signed_decimal,
};
use crate::xu::enums::EnumDecodeError;

verus! {

/// Errors raised by the XU transport and the per-command helpers.
#[derive(Debug)]
#[non_exhaustive]
pub enum XuError {
    /// Underlying I/O error from opening the device node or from the
    /// `UVCIOC_CTRL_QUERY` ioctl.
    Io(std::io::Error),
    /// The caller's payload is larger than (or, for reads, differs from)
    /// the length the selector declares.
    LengthMismatch {
        /// The XU unit the length was queried for.
        unit: u8,
        /// The XU selector the length was queried for.
        selector: u8,
        /// Caller-supplied payload length, in bytes.
        payload_len: usize,
        /// Length the device reported via `UVC_GET_LEN`, in bytes.
        selector_len: u16,
    },
    /// A status byte did not decode to a known enum variant.
    Decode(EnumDecodeError),
    /// A preset index is outside the camera's three-slot range.
    InvalidPresetIndex(i8),
}

impl From<std::io::Error> for XuError {
    fn from(e: std::io::Error) -> (r: Self) {
        XuError::Io(e)
    }
}

impl vstd::std_specs::convert::FromSpecImpl<std::io::Error> for XuError {
    open spec fn obeys_from_spec() -> bool {
        true
    }

    open spec fn from_spec(e: std::io::Error) -> Self {
        XuError::Io(e)
    }
}

impl From<EnumDecodeError> for XuError {
    fn from(e: EnumDecodeError) -> (r: Self) {
        XuError::Decode(e)
    }
}

impl vstd::std_specs::convert::FromSpecImpl<EnumDecodeError> for XuError {
    open spec fn obeys_from_spec() -> bool {
        true
    }

    open spec fn from_spec(e: EnumDecodeError) -> Self {
        XuError::Decode(e)
    }
}

/// The human-readable description of a decode failure.
pub open spec fn decode_error_text(e: EnumDecodeError) -> Seq<char> {
    match e {
        EnumDecodeError::AiMode(m, n) => "unknown AiMode tuple (m, n) = ("@ + hex_prefixed(
            m as nat,
        ) + ", "@ + hex_prefixed(n as nat) + ")"@,
        EnumDecodeError::FovMode(b) => "unknown FovMode byte "@ + hex_prefixed(b as nat),
        EnumDecodeError::FaceAeMode(b) => "unknown FaceAeMode byte "@ + hex_prefixed(b as nat),
    }
}

/// The human-readable description of every XU error but an I/O one
/// (whose text is the operating system's).
pub open spec fn xu_error_text(e: XuError) -> Seq<char> {
    match e {
        XuError::LengthMismatch { unit, selector, payload_len, selector_len } =>
            "UVC payload too large on unit "@ + hex_prefixed(unit as nat) + ", selector "@
                + hex_prefixed(selector as nat) + ": payload is "@ + decimal(payload_len as nat)
                + " bytes but the selector only accepts "@ + decimal(selector_len as nat)
                + " bytes"@,
        XuError::Decode(d) => "XU status decode failed: "@ + decode_error_text(d),
        XuError::InvalidPresetIndex(i) => "preset index out of range (must be 0..=2, got "@
            + signed_decimal(i as int) + ")"@,
        XuError::Io(_) => Seq::empty(),
    }
}

impl EnumDecodeError {
    /// Human-readable description of the failure.
    pub fn message(&self) -> (r: String)
        ensures
            r@ == decode_error_text(*self),
    {
        let mut out = String::new();
        match self {
            EnumDecodeError::AiMode(m, n) => {
                push_str(&mut out, "unknown AiMode tuple (m, n) = (");
                push_hex_prefixed(&mut out, *m as u64);
                push_str(&mut out, ", ");
                push_hex_prefixed(&mut out, *n as u64);
                push_str(&mut out, ")");
            },
            EnumDecodeError::FovMode(b) => {
                push_str(&mut out, "unknown FovMode byte ");
                push_hex_prefixed(&mut out, *b as u64);
            },
            EnumDecodeError::FaceAeMode(b) => {
                push_str(&mut out, "unknown FaceAeMode byte ");
                push_hex_prefixed(&mut out, *b as u64);
            },
        }
        assert(out@ =~= decode_error_text(*self));
        out
    }
}

impl XuError {
    /// Human-readable description of the error; for an I/O error, the
    /// text that the I/O error itself displays.
    pub fn message(&self) -> (r: String)
        ensures
            !(self is Io) ==> r@ == xu_error_text(*self),
            self matches XuError::Io(e) ==> vstd::string::to_string_from_display_ensures::<
                std::io::Error,
            >(&e, r),
    {
        let mut out = String::new();
        match self {
            XuError::Io(e) => {
                out = e.to_string();
            },
            XuError::LengthMismatch { unit, selector, payload_len, selector_len } => {
                push_str(&mut out, "UVC payload too large on unit ");
                push_hex_prefixed(&mut out, *unit as u64);
                push_str(&mut out, ", selector ");
                push_hex_prefixed(&mut out, *selector as u64);
                push_str(&mut out, ": payload is ");
                push_decimal(&mut out, *payload_len as u64);
                push_str(&mut out, " bytes but the selector only accepts ");
                push_decimal(&mut out, *selector_len as u64);
                push_str(&mut out, " bytes");
                assert(out@ =~= xu_error_text(*self));
            },
            XuError::Decode(d) => {
                push_str(&mut out, "XU status decode failed: ");
                let inner = d.message();
                push_str(&mut out, inner.as_str());
                assert(out@ =~= xu_error_text(*self));
            },
            XuError::InvalidPresetIndex(i) => {
                push_str(&mut out, "preset index out of range (must be 0..=2, got ");
                push_signed_decimal(&mut out, *i as i64);
                push_str(&mut out, ")");
                assert(out@ =~= xu_error_text(*self));
            },
        }
        out
    }

    /// Convert into the crate-wide [`Error`]: an I/O error passes through
    /// unchanged, every other error becomes an `Other` I/O error built
    /// from [`XuError::message`]. The contract leaves the text that I/O
    /// error displays unsaid: the standard library's documentation does
    /// not state what `Display` of `io::Error::other(msg)` shows.
    pub fn into_error(self) -> (r: Error)
        ensures
            self matches XuError::Io(e) ==> r == Error::Io(e),
            r is Io,
    {
        match self {
            XuError::Io(e) => Error::Io(e),
            other => {
                let msg = other.message();
                Error::Io(other_io_error(msg))
            },
        }
    }
}

} // verus!

//! Error and result types returned by [`Camera`](crate::camera::Camera)
//! backends.

use vstd::prelude::*;

use crate::text::{push_signed_decimal, push_str, signed_decimal};

verus! {

/// `std::io::Error` carried through the library as an opaque value.
#[verifier::external_type_specification]
#[verifier::external_body]
pub struct ExIoError(std::io::Error);

/// Result alias used throughout the crate.
pub type Result<T> = core::result::Result<T, Error>;

/// Errors returned by [`Camera`](crate::camera::Camera) implementations.
///
/// The default trait methods return [`Error::Unsupported`], so a backend
/// only overrides what it actually implements.
#[derive(Debug)]
#[non_exhaustive]
pub enum Error {
    /// The requested feature is not implemented by this backend or is not
    /// advertised by the connected device.
    Unsupported,
    /// The supplied value is outside the device-advertised range.
    OutOfRange {
        /// Value supplied by the caller.
        value: i64,
        /// Inclusive minimum advertised by the device.
        min: i64,
        /// Inclusive maximum advertised by the device.
        max: i64,
    },
    /// The device node (its path) is busy, typically opened elsewhere.
    Busy(String),
    /// The device disappeared between calls (e.g. unplugged).
    Disconnected,
    /// Underlying I/O error.
    Io(std::io::Error),
}

impl From<std::io::Error> for Error {
    fn from(e: std::io::Error) -> (r: Self) {
        Error::Io(e)
    }
}

impl vstd::std_specs::convert::FromSpecImpl<std::io::Error> for Error {
    open spec fn obeys_from_spec() -> bool {
        true
    }

    open spec fn from_spec(e: std::io::Error) -> Self {
        Error::Io(e)
    }
}

/// The text `{:?}` renders for a filesystem path spelled by `s`: quoted,
/// with the escapes `Path`'s `Debug` applies.
pub uninterp spec fn path_debug_quoted(s: Seq<char>) -> Seq<char>;

/// The `{:?}` rendering of the path spelled by `s`.
///
/// Trusted: formats `std::path::Path::new(s)` with `format!("{:?}")`
/// (the `Debug` impl of `Path`); the result is named by
/// [`path_debug_quoted`], a function of the characters of `s` alone.
#[verifier::external_body]
pub(crate) fn path_debug_text(s: &str) -> (r: String)
    ensures
        r@ == path_debug_quoted(s@),
{
    format!("{:?}", std::path::Path::new(s))
}

/// The human-readable description of every error but an I/O one (whose
/// text is the operating system's).
pub open spec fn error_text(e: Error) -> Seq<char> {
    match e {
        Error::Unsupported => "feature not supported by the connected camera or its backend"@,
        Error::OutOfRange { value, min, max } => "value "@ + signed_decimal(value as int)
            + " is outside the allowed range ["@ + signed_decimal(min as int) + ", "@
            + signed_decimal(max as int) + "]"@,
        Error::Busy(path) => "device "@ + path_debug_quoted(path@) + " is busy"@,
        Error::Disconnected => "device disappeared"@,
        Error::Io(_) => Seq::empty(),
    }
}

impl Error {
    /// Human-readable description of the error; for an I/O error, the
    /// text that the I/O error itself displays.
    pub fn message(&self) -> (r: String)
        ensures
            !(self is Io) ==> r@ == error_text(*self),
            self matches Error::Io(e) ==> vstd::string::to_string_from_display_ensures::<
                std::io::Error,
            >(&e, r),
    {
        let mut out = String::new();
        match self {
            Error::Unsupported => {
                push_str(&mut out, "feature not supported by the connected camera or its backend");
            },
            Error::OutOfRange { value, min, max } => {
                push_str(&mut out, "value ");
                push_signed_decimal(&mut out, *value);
                push_str(&mut out, " is outside the allowed range [");
                push_signed_decimal(&mut out, *min);
                push_str(&mut out, ", ");
                push_signed_decimal(&mut out, *max);
                push_str(&mut out, "]");
                assert(out@ =~= error_text(*self));
            },
            Error::Busy(path) => {
                push_str(&mut out, "device ");
                let quoted = path_debug_text(path.as_str());
                push_str(&mut out, quoted.as_str());
                push_str(&mut out, " is busy");
                assert(out@ =~= error_text(*self));
            },
            Error::Disconnected => {
                push_str(&mut out, "device disappeared");
            },
            Error::Io(e) => {
                out = e.to_string();
            },
        }
        out
    }
}

/// An `InvalidInput` I/O error carrying `msg`.
///
/// Trusted: calls `std::io::Error::new` with `ErrorKind::InvalidInput`.
/// Nothing is stated of the value it returns, which the library only
/// carries.
#[verifier::external_body]
pub(crate) fn invalid_input_error(msg: &str) -> (e: std::io::Error) {
    std::io::Error::new(std::io::ErrorKind::InvalidInput, msg)
}

/// An `Other` I/O error carrying `msg`.
///
/// Trusted: calls `std::io::Error::other`. Nothing is stated of the
/// value it returns, which the library only carries.
#[verifier::external_body]
pub(crate) fn other_io_error(msg: String) -> (e: std::io::Error) {
    std::io::Error::other(msg)
}

} // verus!

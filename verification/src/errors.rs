//! The error taxonomy: parse failures, service failures, and the wrapper
//! that callers of the whole flow see.

use vstd::prelude::*;

verus! {

/// A required key was absent from the QR text; the message names the field.
#[derive(Debug, PartialEq, Eq)]
pub struct ParseError(pub &'static str);

/// A failure reported by, or on the way to, the network-management service.
#[derive(Debug, PartialEq, Eq)]
pub enum ServiceError {
    /// The requested interface name has no bound device.
    UnknownInterface,
    /// The service refused an add or activate request; the detail is its wording.
    Rejected(String),
    /// The underlying channel failed; the detail is its wording.
    Transport(String),
}

/// Wrapper for known error cases.
#[derive(Debug, PartialEq)]
pub enum Error {
    ParseError(ParseError),
    Dbus(ServiceError),
}

impl From<ParseError> for Error {
    fn from(value: ParseError) -> (r: Self) {
        Error::ParseError(value)
    }
}

impl vstd::std_specs::convert::FromSpecImpl<ParseError> for Error {
    open spec fn obeys_from_spec() -> bool {
        true
    }

    open spec fn from_spec(value: ParseError) -> Self {
        Error::ParseError(value)
    }
}

} // verus!

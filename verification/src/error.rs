//! The errors of a connection to a device.

use vstd::prelude::*;

use crate::proto::parser::ParseError;

verus! {

/// Why a command or a connection failed.
#[derive(Debug)]
pub enum Error {
    /// The transport failed; the text is its own description of the failure.
    Transport(String),
    /// A frame from the device could not be decoded.
    Parse(ParseError),
    /// The device answered with an error.
    Device(String),
    /// No answer came in time.
    Timeout,
    /// The connection closed.
    Disconnected,
}

impl From<ParseError> for Error {
    fn from(e: ParseError) -> (r: Error) {
        Error::Parse(e)
    }
}

impl vstd::std_specs::convert::FromSpecImpl<ParseError> for Error {
    open spec fn obeys_from_spec() -> bool {
        true
    }

    open spec fn from_spec(v: ParseError) -> Error {
        Error::Parse(v)
    }
}

} // verus!

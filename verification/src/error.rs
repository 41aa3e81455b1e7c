//! The error type of the crate.
//!
//! Contract violations around the boundary — an unexpected null, a double
//! release, a use after release — are excluded structurally by the wrappers
//! and never surface here; this type carries the ordinary, recoverable
//! failures.

use vstd::prelude::*;

use crate::api::jsep::SdpParseError;
use crate::api::rtc_error::RtcError;

verus! {

/// A recoverable failure of a wrapped operation.
#[derive(Debug)]
pub enum Error {
    /// A failure described by a plain message.
    Message(String),
    /// A native call produced a null pointer where a value was owed; the
    /// text names the call.
    NullPointer(String),
    /// Text handed to the native side held an interior nul byte, at the
    /// given position.
    NulError(usize),
    /// Bytes from the native side were not valid UTF-8; decoding failed at
    /// the given position.
    Utf8Error(usize),
    /// A failure the native side described in its own error value.
    RtcError(RtcError),
    /// A session description could not be parsed.
    SdpParseError(SdpParseError),
    /// A session description could not be serialized.
    InvalidSdp,
    /// An ICE candidate could not be parsed or applied.
    InvalidIceCandidate,
    /// An index lay outside the collection it was applied to.
    OutOfIndex(usize),
}

impl Error {
    /// A short description of the failure.
    pub fn message(&self) -> (r: String)
        ensures
            self matches Error::Message(m) ==> r@ == m@,
    {
        match self {
            Error::Message(message) => message.clone(),
            Error::NullPointer(name) => {
                let mut s = name.clone();
                s.append(" returned a null pointer");
                s
            },
            Error::NulError(_) => "the text holds an interior nul byte".to_owned(),
            Error::Utf8Error(_) => "the bytes are not valid UTF-8".to_owned(),
            Error::RtcError(err) => {
                match err.message() {
                    Ok(message) => message,
                    Err(_) => "an RTCError was raised".to_owned(),
                }
            },
            Error::SdpParseError(err) => {
                let mut s = "SDP parse error: ".to_owned();
                match err.description() {
                    Ok(description) => {
                        s.append(description.as_str());
                    },
                    Err(_) => {},
                }
                s
            },
            Error::InvalidSdp => "the SDP is not valid".to_owned(),
            Error::InvalidIceCandidate => "the ICE candidate is not valid".to_owned(),
            Error::OutOfIndex(_) => "the index is out of range".to_owned(),
        }
    }
}

impl From<String> for Error {
    fn from(message: String) -> (r: Error) {
        Error::Message(message)
    }
}

impl vstd::std_specs::convert::FromSpecImpl<String> for Error {
    open spec fn obeys_from_spec() -> bool {
        true
    }

    open spec fn from_spec(message: String) -> Error {
        Error::Message(message)
    }
}

impl From<RtcError> for Error {
    fn from(err: RtcError) -> (r: Error) {
        Error::RtcError(err)
    }
}

impl vstd::std_specs::convert::FromSpecImpl<RtcError> for Error {
    open spec fn obeys_from_spec() -> bool {
        true
    }

    open spec fn from_spec(err: RtcError) -> Error {
        Error::RtcError(err)
    }
}

impl From<SdpParseError> for Error {
    fn from(err: SdpParseError) -> (r: Error) {
        Error::SdpParseError(err)
    }
}

impl vstd::std_specs::convert::FromSpecImpl<SdpParseError> for Error {
    open spec fn obeys_from_spec() -> bool {
        true
    }

    open spec fn from_spec(err: SdpParseError) -> Error {
        Error::SdpParseError(err)
    }
}

/// The result type of the wrapped operations.
pub type RtcResult<T> = Result<T, Error>;

} // verus!

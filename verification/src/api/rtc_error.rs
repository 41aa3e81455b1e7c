//! The model of `webrtc::RTCError`.

use vstd::prelude::*;

use crate::error::RtcResult;

verus! {

/// A native RTC error value: whether the operation succeeded, and the
/// message the native side attached.
#[derive(Debug)]
pub struct RtcError {
    succeeded: bool,
    text: String,
}

impl RtcError {
    /// An error value stating success, with no message.
    pub fn new_ok() -> (r: RtcError)
        ensures
            r.spec_ok(),
            r.spec_message() == Seq::<char>::empty(),
    {
        RtcError { succeeded: true, text: String::new() }
    }

    /// An error value describing a failure with the given message.
    pub fn new_error(message: &str) -> (r: RtcError)
        ensures
            !r.spec_ok(),
            r.spec_message() == message@,
    {
        RtcError { succeeded: false, text: message.to_owned() }
    }

    /// Whether the value states success.
    pub closed spec fn spec_ok(self) -> bool {
        self.succeeded
    }

    /// The attached message.
    pub closed spec fn spec_message(self) -> Seq<char> {
        self.text@
    }

    /// Whether the value states success.
    pub fn ok(&self) -> (r: bool)
        ensures
            r == self.spec_ok(),
    {
        self.succeeded
    }

    /// The attached message.
    pub fn message(&self) -> (r: RtcResult<String>)
        ensures
            r is Ok,
            r->Ok_0@ == self.spec_message(),
    {
        Ok(self.text.clone())
    }
}

} // verus!

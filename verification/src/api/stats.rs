//! The model of `webrtc::RTCStatsReport`.

use vstd::prelude::*;

use crate::NativePtr;
use crate::error::RtcResult;

verus! {

/// A statistics report: the JSON text the native side rendered.
pub struct RTCStatsReport {
    json_text: String,
}

impl RTCStatsReport {
    /// A report over the given JSON text.
    pub fn new(json: &str) -> (r: RTCStatsReport)
        ensures
            r.spec_json() == json@,
    {
        RTCStatsReport { json_text: json.to_owned() }
    }

    /// The JSON text of the report.
    pub closed spec fn spec_json(self) -> Seq<char> {
        self.json_text@
    }

    /// The JSON text of the report.
    pub fn to_json(&self) -> (r: RtcResult<String>)
        ensures
            r is Ok,
            r->Ok_0@ == self.spec_json(),
    {
        Ok(self.json_text.clone())
    }

    /// The reference-pointer address of the report; never null.
    pub fn as_refcounted_ptr(&self) -> (r: NativePtr)
        ensures
            r == (NativePtr { addr: 1 }),
    {
        NativePtr { addr: 1 }
    }
}

} // verus!

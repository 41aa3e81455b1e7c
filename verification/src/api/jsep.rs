//! Models of the JSEP types: session descriptions, their parse errors, and
//! ICE candidates.
//!
//! The native parser accepts far more than this model checks; the model
//! pins down a minimal well-formedness — a session description starts with
//! a `v=` line, a candidate string with `candidate:` — and each constructor
//! states exactly on which inputs it succeeds.

use vstd::prelude::*;
use vstd::string::StringSliceAdditionalSpecFns;

use crate::error::{Error, RtcResult};

verus! {

/// The description of an SDP parse failure: the offending line and a
/// human-readable description.
#[derive(Debug)]
pub struct SdpParseError {
    line_text: String,
    description_text: String,
}

impl SdpParseError {
    /// A parse error for the given line, with the given description.
    pub fn new(line: &str, description: &str) -> (r: SdpParseError)
        ensures
            r.spec_line() == line@,
            r.spec_description() == description@,
    {
        SdpParseError { line_text: line.to_owned(), description_text: description.to_owned() }
    }

    /// The offending line.
    pub closed spec fn spec_line(self) -> Seq<char> {
        self.line_text@
    }

    /// The attached description.
    pub closed spec fn spec_description(self) -> Seq<char> {
        self.description_text@
    }

    /// The offending line.
    pub fn line(&self) -> (r: RtcResult<String>)
        ensures
            r is Ok,
            r->Ok_0@ == self.spec_line(),
    {
        Ok(self.line_text.clone())
    }

    /// The attached description.
    pub fn description(&self) -> (r: RtcResult<String>)
        ensures
            r is Ok,
            r->Ok_0@ == self.spec_description(),
    {
        Ok(self.description_text.clone())
    }
}

/// The native tag of an offer description.
pub const SDP_TYPE_OFFER: i32 = 0;

/// The native tag of a provisional answer description.
pub const SDP_TYPE_PR_ANSWER: i32 = 1;

/// The native tag of an answer description.
pub const SDP_TYPE_ANSWER: i32 = 2;

/// The native tag of a rollback description.
pub const SDP_TYPE_ROLLBACK: i32 = 3;

/// The kind of a session description.
#[derive(Debug, Clone, Copy, PartialEq, Eq, Structural)]
pub enum SdpType {
    Offer,
    PrAnswer,
    Answer,
    Rollback,
    Unknown(i32),
}

impl SdpType {
    /// The kind with the given native tag; tags with no name are kept as
    /// they are.
    pub fn from_int(value: i32) -> (r: SdpType)
        ensures
            value == SDP_TYPE_OFFER ==> r == SdpType::Offer,
            value == SDP_TYPE_PR_ANSWER ==> r == SdpType::PrAnswer,
            value == SDP_TYPE_ANSWER ==> r == SdpType::Answer,
            value == SDP_TYPE_ROLLBACK ==> r == SdpType::Rollback,
            value != SDP_TYPE_OFFER && value != SDP_TYPE_PR_ANSWER && value != SDP_TYPE_ANSWER
                && value != SDP_TYPE_ROLLBACK ==> r == SdpType::Unknown(value),
    {
        if value == SDP_TYPE_OFFER {
            SdpType::Offer
        } else if value == SDP_TYPE_PR_ANSWER {
            SdpType::PrAnswer
        } else if value == SDP_TYPE_ANSWER {
            SdpType::Answer
        } else if value == SDP_TYPE_ROLLBACK {
            SdpType::Rollback
        } else {
            SdpType::Unknown(value)
        }
    }

    /// The native tag of this kind.
    pub fn to_int(&self) -> (r: i32)
        ensures
            self is Offer ==> r == SDP_TYPE_OFFER,
            self is PrAnswer ==> r == SDP_TYPE_PR_ANSWER,
            self is Answer ==> r == SDP_TYPE_ANSWER,
            self is Rollback ==> r == SDP_TYPE_ROLLBACK,
            self matches SdpType::Unknown(v) ==> r == v,
    {
        match self {
            SdpType::Offer => SDP_TYPE_OFFER,
            SdpType::PrAnswer => SDP_TYPE_PR_ANSWER,
            SdpType::Answer => SDP_TYPE_ANSWER,
            SdpType::Rollback => SDP_TYPE_ROLLBACK,
            SdpType::Unknown(v) => *v,
        }
    }
}

/// Whether a piece of text opens like a session description: with the
/// version line `v=`.
pub open spec fn sdp_text_ok(b: Seq<u8>) -> bool {
    b.len() >= 2 && b[0] == 118u8 && b[1] == 61u8
}

/// Whether a piece of text opens like a candidate attribute: with
/// `candidate:`.
pub open spec fn candidate_text_ok(b: Seq<u8>) -> bool {
    &&& b.len() >= 10
    &&& b[0] == 99u8
    &&& b[1] == 97u8
    &&& b[2] == 110u8
    &&& b[3] == 100u8
    &&& b[4] == 105u8
    &&& b[5] == 100u8
    &&& b[6] == 97u8
    &&& b[7] == 116u8
    &&& b[8] == 101u8
    &&& b[9] == 58u8
}

/// A session description: its kind and its SDP text.
pub struct SessionDescription {
    kind: SdpType,
    sdp: String,
}

impl SessionDescription {
    /// Parses a session description. Succeeds exactly when the text opens
    /// with the SDP version line; a rejected text gives the null-pointer
    /// error the native create call signals.
    pub fn new(sdp_type: SdpType, sdp: &str) -> (r: RtcResult<SessionDescription>)
        ensures
            sdp_text_ok(sdp.spec_bytes()) ==> (r matches Ok(d) && d.spec_sdp_type() == sdp_type
                && d.spec_sdp() == sdp@),
            !sdp_text_ok(sdp.spec_bytes()) ==> (r matches Err(Error::NullPointer(_))),
    {
        let b = sdp.as_bytes();
        if b.len() >= 2 && b[0] == 118u8 && b[1] == 61u8 {
            Ok(SessionDescription { kind: sdp_type, sdp: sdp.to_owned() })
        } else {
            Err(Error::NullPointer("webrtc_CreateSessionDescription".to_owned()))
        }
    }

    /// The kind of the description.
    pub closed spec fn spec_sdp_type(self) -> SdpType {
        self.kind
    }

    /// The SDP text of the description.
    pub closed spec fn spec_sdp(self) -> Seq<char> {
        self.sdp@
    }

    /// The kind of the description.
    pub fn sdp_type(&self) -> (r: SdpType)
        ensures
            r == self.spec_sdp_type(),
    {
        self.kind.clone()
    }

    /// The SDP text, serialized.
    pub fn to_string(&self) -> (r: RtcResult<String>)
        ensures
            r is Ok,
            r->Ok_0@ == self.spec_sdp(),
    {
        Ok(self.sdp.clone())
    }

    /// Forfeits ownership to a native consumer, handing the kind and the
    /// text over; this wrapper keeps no way to reach the description again.
    pub fn into_raw(self) -> (r: (SdpType, String))
        ensures
            r.0 == self.spec_sdp_type(),
            r.1@ == self.spec_sdp(),
    {
        (self.kind, self.sdp)
    }
}

/// An ICE candidate: its mid, its m-line index, and its attribute text.
pub struct IceCandidate {
    mid: String,
    mline_index: i32,
    candidate: String,
}

impl IceCandidate {
    /// Parses an ICE candidate. Succeeds exactly when the attribute text
    /// opens with `candidate:`; a rejected text gives the parse error the
    /// native create call signals.
    pub fn new(sdp_mid: &str, sdp_mline_index: i32, candidate: &str) -> (r: RtcResult<
        IceCandidate,
    >)
        ensures
            candidate_text_ok(candidate.spec_bytes()) ==> (r matches Ok(c) && c.spec_sdp_mid()
                == sdp_mid@ && c.spec_sdp_mline_index() == sdp_mline_index && c.spec_text()
                == candidate@),
            !candidate_text_ok(candidate.spec_bytes()) ==> (r matches Err(
                Error::SdpParseError(_),
            )),
    {
        let b = candidate.as_bytes();
        let ok = b.len() >= 10 && b[0] == 99u8 && b[1] == 97u8 && b[2] == 110u8 && b[3] == 100u8
            && b[4] == 105u8 && b[5] == 100u8 && b[6] == 97u8 && b[7] == 116u8 && b[8] == 101u8
            && b[9] == 58u8;
        if ok {
            Ok(
                IceCandidate {
                    mid: sdp_mid.to_owned(),
                    mline_index: sdp_mline_index,
                    candidate: candidate.to_owned(),
                },
            )
        } else {
            Err(
                Error::SdpParseError(
                    SdpParseError::new(candidate, "the text is not a candidate attribute"),
                ),
            )
        }
    }

    /// The mid of the m-section the candidate belongs to.
    pub closed spec fn spec_sdp_mid(self) -> Seq<char> {
        self.mid@
    }

    /// The index of the m-section the candidate belongs to.
    pub closed spec fn spec_sdp_mline_index(self) -> i32 {
        self.mline_index
    }

    /// The attribute text of the candidate.
    pub closed spec fn spec_text(self) -> Seq<char> {
        self.candidate@
    }

    /// A borrow-only view of the candidate.
    pub fn as_ref(&self) -> (r: IceCandidateRef<'_>)
        ensures
            r.spec_sdp_mid() == self.spec_sdp_mid(),
            r.spec_sdp_mline_index() == self.spec_sdp_mline_index(),
            r.spec_text() == self.spec_text(),
    {
        IceCandidateRef { target: self }
    }

    /// The native address of the candidate; never null.
    pub fn as_ptr(&self) -> (r: crate::NativePtr)
        ensures
            r == (crate::NativePtr { addr: 1 }),
    {
        crate::NativePtr { addr: 1 }
    }

    /// The mid of the m-section the candidate belongs to.
    pub fn sdp_mid(&self) -> (r: RtcResult<String>)
        ensures
            r is Ok,
            r->Ok_0@ == self.spec_sdp_mid(),
    {
        Ok(self.mid.clone())
    }

    /// The index of the m-section the candidate belongs to.
    pub fn sdp_mline_index(&self) -> (r: i32)
        ensures
            r == self.spec_sdp_mline_index(),
    {
        self.mline_index
    }

    /// The attribute text, serialized.
    pub fn to_string(&self) -> (r: RtcResult<String>)
        ensures
            r is Ok,
            r->Ok_0@ == self.spec_text(),
    {
        Ok(self.candidate.clone())
    }
}

/// A borrowed view of an ICE candidate, valid only within the borrow; the
/// shape in which candidates reach observer callbacks.
pub struct IceCandidateRef<'a> {
    target: &'a IceCandidate,
}

impl<'a> IceCandidateRef<'a> {
    /// Wraps a borrowed candidate.
    pub fn from_raw(target: &'a IceCandidate) -> (r: IceCandidateRef<'a>)
        ensures
            r.spec_sdp_mid() == target.spec_sdp_mid(),
            r.spec_sdp_mline_index() == target.spec_sdp_mline_index(),
            r.spec_text() == target.spec_text(),
    {
        IceCandidateRef { target }
    }

    /// The mid of the m-section the candidate belongs to.
    pub closed spec fn spec_sdp_mid(self) -> Seq<char> {
        self.target.spec_sdp_mid()
    }

    /// The index of the m-section the candidate belongs to.
    pub closed spec fn spec_sdp_mline_index(self) -> i32 {
        self.target.spec_sdp_mline_index()
    }

    /// The attribute text of the candidate.
    pub closed spec fn spec_text(self) -> Seq<char> {
        self.target.spec_text()
    }

    /// The native address of the viewed candidate; never null.
    pub fn as_ptr(&self) -> (r: crate::NativePtr)
        ensures
            r == (crate::NativePtr { addr: 1 }),
    {
        crate::NativePtr { addr: 1 }
    }

    /// The mid of the m-section the candidate belongs to.
    pub fn sdp_mid(&self) -> (r: RtcResult<String>)
        ensures
            r is Ok,
            r->Ok_0@ == self.spec_sdp_mid(),
    {
        self.target.sdp_mid()
    }

    /// The index of the m-section the candidate belongs to.
    pub fn sdp_mline_index(&self) -> (r: i32)
        ensures
            r == self.spec_sdp_mline_index(),
    {
        self.target.sdp_mline_index()
    }

    /// The attribute text, serialized.
    pub fn to_string(&self) -> (r: RtcResult<String>)
        ensures
            r is Ok,
            r->Ok_0@ == self.spec_text(),
    {
        self.target.to_string()
    }
}

} // verus!

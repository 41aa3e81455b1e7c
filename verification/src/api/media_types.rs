//! The model of `webrtc::MediaType`.

use vstd::prelude::*;

verus! {

/// The numeric tag of an audio media type on the native side.
pub const MEDIA_TYPE_AUDIO: i32 = 0;

/// The numeric tag of a video media type on the native side.
pub const MEDIA_TYPE_VIDEO: i32 = 1;

/// The kind of media a codec or track carries.
#[derive(Debug, Clone, Copy, PartialEq, Eq, Structural)]
pub enum MediaType {
    Audio,
    Video,
    Unknown(i32),
}

impl MediaType {
    /// The media type with the given native tag; tags with no name are kept
    /// as they are.
    pub fn from_int(v: i32) -> (r: MediaType)
        ensures
            v == MEDIA_TYPE_AUDIO ==> r == MediaType::Audio,
            v == MEDIA_TYPE_VIDEO ==> r == MediaType::Video,
            v != MEDIA_TYPE_AUDIO && v != MEDIA_TYPE_VIDEO ==> r == MediaType::Unknown(v),
    {
        if v == MEDIA_TYPE_AUDIO {
            MediaType::Audio
        } else if v == MEDIA_TYPE_VIDEO {
            MediaType::Video
        } else {
            MediaType::Unknown(v)
        }
    }

    /// The native tag of this media type.
    pub fn to_int(&self) -> (r: i32)
        ensures
            self is Audio ==> r == MEDIA_TYPE_AUDIO,
            self is Video ==> r == MEDIA_TYPE_VIDEO,
            self matches MediaType::Unknown(v) ==> r == v,
    {
        match self {
            MediaType::Audio => MEDIA_TYPE_AUDIO,
            MediaType::Video => MEDIA_TYPE_VIDEO,
            MediaType::Unknown(v) => *v,
        }
    }
}

} // verus!

//! Video sources, sinks and tracks.

use vstd::prelude::*;

use crate::NativePtr;
use crate::api::rtp::MediaStreamTrack;
use crate::api::video_codec_common::VideoFrame;
use crate::bundle::BundleLifecycle;

verus! {

/// What a sink asks of the source feeding it.
pub struct VideoSinkWants {
    rotation_applied: bool,
}

impl VideoSinkWants {
    /// Default wants.
    pub fn new() -> (r: VideoSinkWants)
        ensures
            !r.spec_rotation_applied(),
    {
        VideoSinkWants { rotation_applied: false }
    }

    /// Whether the source should apply rotation before delivery.
    pub closed spec fn spec_rotation_applied(self) -> bool {
        self.rotation_applied
    }

    /// The native address of the wants; never null.
    pub fn as_ptr(&self) -> (r: NativePtr)
        ensures
            r == (NativePtr { addr: 1 }),
    {
        NativePtr { addr: 1 }
    }
}

/// Collects the callbacks of a video sink before they are registered as a
/// bundle. The frame callback is mandatory; the discarded-frame callback
/// is optional.
pub struct VideoSinkBuilder<F, D> {
    on_frame: F,
    on_discarded_frame: Option<D>,
}

impl<F: FnMut(&VideoFrame)> VideoSinkBuilder<F, ()> {
    /// Starts a sink from its frame callback.
    pub fn new(on_frame: F) -> (r: VideoSinkBuilder<F, ()>)
        ensures
            !r.spec_has_on_discarded_frame(),
    {
        VideoSinkBuilder { on_frame, on_discarded_frame: None }
    }
}

impl<F, D> VideoSinkBuilder<F, D> {
    /// Whether a discarded-frame callback is collected.
    pub closed spec fn spec_has_on_discarded_frame(self) -> bool {
        self.on_discarded_frame is Some
    }

    /// Installs the discarded-frame callback.
    pub fn on_discarded_frame<G: FnMut()>(self, on_discarded_frame: G) -> (r: VideoSinkBuilder<
        F,
        G,
    >)
        ensures
            r.spec_has_on_discarded_frame(),
    {
        VideoSinkBuilder {
            on_frame: self.on_frame,
            on_discarded_frame: Some(on_discarded_frame),
        }
    }

    /// Finalizes the collection: allocates the bundle and its trampoline
    /// table and registers both with the native side.
    pub fn build(self) -> (r: VideoSink<F, D>)
        ensures
            r.spec_has_on_discarded_frame() == self.spec_has_on_discarded_frame(),
            !r.spec_freed(),
            r.spec_log().len() == 0,
            crate::bundle::lifecycle_wf(r.spec_lifecycle()),
    {
        VideoSink {
            on_frame: self.on_frame,
            on_discarded_frame: self.on_discarded_frame,
            lifecycle: BundleLifecycle::register(),
            log: Ghost(Seq::empty()),
        }
    }
}

/// One native call into a video sink, as the ghost call log records it:
/// the frame as handed to the slot.
pub enum VideoSinkCall {
    Frame { frame: VideoFrame },
    DiscardedFrame,
}

/// A registered video sink bundle.
pub struct VideoSink<F, D> {
    on_frame: F,
    on_discarded_frame: Option<D>,
    lifecycle: BundleLifecycle,
    log: Ghost<Seq<VideoSinkCall>>,
}

impl<F, D> VideoSink<F, D> {
    /// Whether a discarded-frame callback is installed.
    pub closed spec fn spec_has_on_discarded_frame(self) -> bool {
        self.on_discarded_frame is Some
    }

    /// The installed discarded-frame callback, for reasoning about
    /// dispatch.
    pub closed spec fn spec_on_discarded_frame(self) -> Option<D> {
        self.on_discarded_frame
    }

    /// Whether the teardown slot has freed this registration.
    pub closed spec fn spec_freed(self) -> bool {
        self.lifecycle.freed
    }

    /// The lifecycle of this registration.
    pub closed spec fn spec_lifecycle(self) -> BundleLifecycle {
        self.lifecycle
    }

    /// The installed frame callback, for reasoning about dispatch.
    pub closed spec fn spec_on_frame(self) -> F {
        self.on_frame
    }

    /// Every dispatch so far, in native call order.
    pub closed spec fn spec_log(self) -> Seq<VideoSinkCall> {
        self.log@
    }

    /// The native address of the sink; never null.
    pub fn as_ptr(&self) -> (r: NativePtr)
        ensures
            r == (NativePtr { addr: 1 }),
    {
        NativePtr { addr: 1 }
    }

    /// The reserved teardown slot: the one code path that frees this
    /// registration, effective exactly once.
    pub fn on_destroy(&mut self) -> (freed_now: bool)
        requires
            crate::bundle::lifecycle_wf(old(self).spec_lifecycle()),
        ensures
            freed_now == !old(self).spec_freed(),
            final(self).spec_freed(),
            final(self).spec_log() == old(self).spec_log(),
            crate::bundle::lifecycle_wf(final(self).spec_lifecycle()),
            final(self).spec_lifecycle().teardowns == 1,
    {
        self.lifecycle.on_destroy()
    }
}

impl<F: FnMut(&VideoFrame), D> VideoSink<F, D> {
    /// The frame trampoline: logs the frame as handed over and delivers
    /// it to the installed callback; a freed bundle is left untouched.
    pub fn dispatch_frame(&mut self, frame: &VideoFrame)
        requires
            forall|f: F, fr: &VideoFrame| f == old(self).spec_on_frame() ==> call_requires(
                f,
                (fr,),
            ),
        ensures
            final(self).spec_freed() == old(self).spec_freed(),
            final(self).spec_lifecycle() == old(self).spec_lifecycle(),
            final(self).spec_has_on_discarded_frame() == old(self).spec_has_on_discarded_frame(),
            old(self).spec_freed() ==> *final(self) == *old(self),
            !old(self).spec_freed() ==> final(self).spec_log() == old(self).spec_log().push(
                (VideoSinkCall::Frame { frame: *frame }),
            ),
    {
        if self.lifecycle.freed {
            return ;
        }
        proof {
            self.log@ = self.log@.push(VideoSinkCall::Frame { frame: *frame });
        }
        (self.on_frame)(frame);
    }
}

impl<F, D: FnMut()> VideoSink<F, D> {
    /// The discarded-frame trampoline: logs the call and invokes the
    /// installed callback; an absent slot does nothing, and a freed
    /// bundle is left untouched.
    pub fn dispatch_discarded_frame(&mut self)
        requires
            forall|f: D| old(self).spec_on_discarded_frame() == Some(f) ==> call_requires(f, ()),
        ensures
            final(self).spec_freed() == old(self).spec_freed(),
            final(self).spec_lifecycle() == old(self).spec_lifecycle(),
            final(self).spec_has_on_discarded_frame() == old(self).spec_has_on_discarded_frame(),
            old(self).spec_freed() ==> *final(self) == *old(self),
            !old(self).spec_freed() ==> final(self).spec_log() == old(self).spec_log().push(
                VideoSinkCall::DiscardedFrame,
            ),
    {
        if self.lifecycle.freed {
            return ;
        }
        proof {
            self.log@ = self.log@.push(VideoSinkCall::DiscardedFrame);
        }
        match &mut self.on_discarded_frame {
            Some(f) => {
                f();
            },
            None => {},
        }
    }
}

/// The result of adapting one incoming frame.
#[derive(Debug, Clone, Copy, PartialEq, Eq, Structural)]
pub struct AdaptedSize {
    pub adapted_width: i32,
    pub adapted_height: i32,
    pub crop_width: i32,
    pub crop_height: i32,
    pub crop_x: i32,
    pub crop_y: i32,
}

/// Whether an adaptation was applied, and the sizes it produced.
#[derive(Debug, Clone, Copy, PartialEq, Eq, Structural)]
pub struct AdaptFrameResult {
    pub applied: bool,
    pub size: AdaptedSize,
}

/// A video source that adapts incoming frames to what its sinks want. The
/// model applies no downscaling: every frame passes through unchanged, and
/// every delivered frame is recorded.
pub struct AdaptedVideoTrackSource {
    frame_count: u64,
    frames: Ghost<Seq<VideoFrame>>,
}

impl AdaptedVideoTrackSource {
    /// A fresh source with no frames delivered.
    pub fn new() -> (r: AdaptedVideoTrackSource)
        ensures
            r.spec_frame_count() == 0,
            r.spec_frames().len() == 0,
    {
        AdaptedVideoTrackSource { frame_count: 0, frames: Ghost(Seq::empty()) }
    }

    /// How many frames were delivered.
    pub closed spec fn spec_frame_count(self) -> u64 {
        self.frame_count
    }

    /// Every frame delivered, in order.
    pub closed spec fn spec_frames(self) -> Seq<VideoFrame> {
        self.frames@
    }

    /// Adapts one incoming frame: without downscaling, the frame is
    /// applied unchanged and uncropped.
    pub fn adapt_frame(&mut self, width: i32, height: i32, timestamp_us: i64) -> (r:
        AdaptFrameResult)
        ensures
            *final(self) == *old(self),
            r == (AdaptFrameResult {
                applied: true,
                size: (AdaptedSize {
                    adapted_width: width,
                    adapted_height: height,
                    crop_width: width,
                    crop_height: height,
                    crop_x: 0,
                    crop_y: 0,
                }),
            }),
    {
        AdaptFrameResult {
            applied: true,
            size: AdaptedSize {
                adapted_width: width,
                adapted_height: height,
                crop_width: width,
                crop_height: height,
                crop_x: 0,
                crop_y: 0,
            },
        }
    }

    /// Delivers one frame to the source.
    pub fn on_frame(&mut self, frame: &VideoFrame)
        requires
            old(self).spec_frame_count() < u64::MAX,
        ensures
            final(self).spec_frame_count() == old(self).spec_frame_count() + 1,
            final(self).spec_frames() == old(self).spec_frames().push(*frame),
    {
        self.frame_count = self.frame_count + 1;
        proof {
            self.frames@ = self.frames@.push(*frame);
        }
    }

    /// How many frames were delivered, for inspection.
    pub fn frame_count(&self) -> (r: u64)
        ensures
            r == self.spec_frame_count(),
    {
        self.frame_count
    }

    /// The source viewed as a plain video track source: one more shared
    /// owner of the same native object.
    pub fn cast_to_video_track_source(&self) -> (r: VideoTrackSource)
        ensures
            r.allocated(),
    {
        VideoTrackSource { created: true }
    }
}

/// A video track source handle.
pub struct VideoTrackSource {
    created: bool,
}

impl VideoTrackSource {
    /// Whether the source is allocated; it stays allocated for the value's
    /// whole lifetime.
    pub closed spec fn allocated(self) -> bool {
        self.created
    }

    /// The payload address of the source; never null.
    pub fn as_ptr(&self) -> (r: NativePtr)
        ensures
            r == (NativePtr { addr: 1 }),
    {
        NativePtr { addr: 1 }
    }

    /// The reference-pointer address of the source; never null.
    pub fn as_refcounted_ptr(&self) -> (r: NativePtr)
        ensures
            r == (NativePtr { addr: 1 }),
    {
        NativePtr { addr: 1 }
    }
}

/// A video track: its id, and how many sinks are attached.
pub struct VideoTrack {
    track_id: String,
    sink_count: u64,
}

impl VideoTrack {
    /// A track with the given id and no sinks.
    pub fn new(id: &str) -> (r: VideoTrack)
        ensures
            r.spec_id() == id@,
            r.spec_sink_count() == 0,
    {
        VideoTrack { track_id: id.to_owned(), sink_count: 0 }
    }

    /// The id of the track.
    pub closed spec fn spec_id(self) -> Seq<char> {
        self.track_id@
    }

    /// How many sinks are attached.
    pub closed spec fn spec_sink_count(self) -> u64 {
        self.sink_count
    }

    /// The payload address of the track; never null.
    pub fn as_ptr(&self) -> (r: NativePtr)
        ensures
            r == (NativePtr { addr: 1 }),
    {
        NativePtr { addr: 1 }
    }

    /// The reference-pointer address of the track; never null.
    pub fn as_refcounted_ptr(&self) -> (r: NativePtr)
        ensures
            r == (NativePtr { addr: 1 }),
    {
        NativePtr { addr: 1 }
    }

    /// The track viewed as a media stream track: one more shared owner.
    pub fn cast_to_media_stream_track(&self) -> (r: MediaStreamTrack)
        ensures
            r.spec_kind() == "video"@,
            r.spec_id() == self.spec_id(),
    {
        MediaStreamTrack::new("video", self.track_id.as_str())
    }

    /// Attaches a sink. The model gives sinks no identity, so it counts
    /// attach operations: re-attaching a sink to update its wants raises
    /// the count again, where the native side updates in place.
    pub fn add_or_update_sink<F, D>(&mut self, sink: &VideoSink<F, D>, wants: &VideoSinkWants)
        requires
            old(self).spec_sink_count() < u64::MAX,
        ensures
            final(self).spec_sink_count() == old(self).spec_sink_count() + 1,
            final(self).spec_id() == old(self).spec_id(),
    {
        self.sink_count = self.sink_count + 1;
    }

    /// Detaches a sink.
    pub fn remove_sink<F, D>(&mut self, sink: &VideoSink<F, D>)
        ensures
            old(self).spec_sink_count() > 0 ==> final(self).spec_sink_count() == old(
                self,
            ).spec_sink_count() - 1,
            old(self).spec_sink_count() == 0 ==> final(self).spec_sink_count() == 0,
            final(self).spec_id() == old(self).spec_id(),
    {
        if self.sink_count > 0 {
            self.sink_count = self.sink_count - 1;
        }
    }

    /// One more shared owner of the same track.
    pub fn clone_track(&self) -> (r: VideoTrack)
        ensures
            r.spec_id() == self.spec_id(),
            r.spec_sink_count() == self.spec_sink_count(),
    {
        VideoTrack { track_id: self.track_id.clone(), sink_count: self.sink_count }
    }
}

} // verus!

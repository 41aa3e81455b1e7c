//! The video decoder callback bridge, the decoding counterpart of the
//! encoder bundle: optional slots, neutral defaults for the absent ones, a
//! ghost log of every dispatch, and a reserved teardown slot that alone
//! frees the registration.

use vstd::prelude::*;

use crate::NativePtr;
use crate::api::environment::{Environment, EnvironmentRef};
use crate::api::video_codec_common::{
    EncodedImage, EncodedImageRef, SdpVideoFormat, SdpVideoFormatRef, VideoCodecType,
};
use crate::bundle::BundleLifecycle;
use crate::error::RtcResult;

verus! {

/// What a decoder reports about itself.
pub struct VideoDecoderDecoderInfo {
    implementation_name: String,
    is_hardware_accelerated: bool,
}

impl VideoDecoderDecoderInfo {
    /// The default report: an empty implementation name, not hardware
    /// accelerated.
    pub fn new() -> (r: VideoDecoderDecoderInfo)
        ensures
            r.spec_implementation_name() == Seq::<char>::empty(),
            !r.spec_is_hardware_accelerated(),
    {
        VideoDecoderDecoderInfo {
            implementation_name: String::new(),
            is_hardware_accelerated: false,
        }
    }

    /// The reported implementation name.
    pub closed spec fn spec_implementation_name(self) -> Seq<char> {
        self.implementation_name@
    }

    /// Whether hardware acceleration is reported.
    pub closed spec fn spec_is_hardware_accelerated(self) -> bool {
        self.is_hardware_accelerated
    }

    /// The reported implementation name.
    pub fn implementation_name(&self) -> (r: RtcResult<String>)
        ensures
            r is Ok,
            r->Ok_0@ == self.spec_implementation_name(),
    {
        Ok(self.implementation_name.clone())
    }

    /// Sets the reported implementation name.
    pub fn set_implementation_name(&mut self, name: &str)
        ensures
            final(self).spec_implementation_name() == name@,
            final(self).spec_is_hardware_accelerated() == old(self).spec_is_hardware_accelerated(),
    {
        self.implementation_name = name.to_owned();
    }

    /// Whether hardware acceleration is reported.
    pub fn is_hardware_accelerated(&self) -> (r: bool)
        ensures
            r == self.spec_is_hardware_accelerated(),
    {
        self.is_hardware_accelerated
    }

    /// Sets whether hardware acceleration is reported.
    pub fn set_is_hardware_accelerated(&mut self, value: bool)
        ensures
            final(self).spec_is_hardware_accelerated() == value,
            final(self).spec_implementation_name() == old(self).spec_implementation_name(),
    {
        self.is_hardware_accelerated = value;
    }

    /// Forfeits ownership to the native consumer of the report.
    pub fn into_raw(self) -> (r: NativePtr)
        ensures
            r == (NativePtr { addr: 1 }),
    {
        NativePtr { addr: 1 }
    }
}

/// The settings a native decoder is configured with.
#[derive(Clone, Copy, Debug, PartialEq, Eq, Structural)]
pub struct VideoDecoderSettings {
    pub number_of_cores: i32,
    pub codec_type: VideoCodecType,
    pub buffer_pool_size: Option<i32>,
    pub max_render_resolution_width: i32,
    pub max_render_resolution_height: i32,
}

impl VideoDecoderSettings {
    /// The settings the native layer passes when none are given: one core,
    /// the generic codec, no pool size, a zero render resolution.
    pub fn unspecified() -> (r: VideoDecoderSettings)
        ensures
            r == (VideoDecoderSettings {
                number_of_cores: 1,
                codec_type: VideoCodecType::Generic,
                buffer_pool_size: None,
                max_render_resolution_width: 0,
                max_render_resolution_height: 0,
            }),
    {
        VideoDecoderSettings {
            number_of_cores: 1,
            codec_type: VideoCodecType::Generic,
            buffer_pool_size: None,
            max_render_resolution_width: 0,
            max_render_resolution_height: 0,
        }
    }
}

/// A borrowed view of decoder settings, the shape in which they reach the
/// configure slot.
pub struct VideoDecoderSettingsRef<'a> {
    target: &'a VideoDecoderSettings,
}

impl<'a> VideoDecoderSettingsRef<'a> {
    /// Wraps borrowed settings.
    pub fn from_raw(target: &'a VideoDecoderSettings) -> (r: VideoDecoderSettingsRef<'a>)
        ensures
            r.spec_settings() == *target,
    {
        VideoDecoderSettingsRef { target }
    }

    /// The viewed settings.
    pub closed spec fn spec_settings(self) -> VideoDecoderSettings {
        *self.target
    }

    /// The number of cores the decoder may use.
    pub fn number_of_cores(&self) -> (r: i32)
        ensures
            r == self.spec_settings().number_of_cores,
    {
        self.target.number_of_cores
    }

    /// The codec being decoded.
    pub fn codec_type(&self) -> (r: VideoCodecType)
        ensures
            r == self.spec_settings().codec_type,
    {
        self.target.codec_type
    }

    /// The buffer pool size, when one is set.
    pub fn buffer_pool_size(&self) -> (r: Option<i32>)
        ensures
            r == self.spec_settings().buffer_pool_size,
    {
        self.target.buffer_pool_size
    }

    /// The maximum render width.
    pub fn max_render_resolution_width(&self) -> (r: i32)
        ensures
            r == self.spec_settings().max_render_resolution_width,
    {
        self.target.max_render_resolution_width
    }

    /// The maximum render height.
    pub fn max_render_resolution_height(&self) -> (r: i32)
        ensures
            r == self.spec_settings().max_render_resolution_height,
    {
        self.target.max_render_resolution_height
    }
}

/// The sink a decoder delivers decoded images through, as a non-owning
/// view; the model records only that it was handed over.
pub struct VideoDecoderDecodedImageCallbackRef {
    registered: bool,
}

impl VideoDecoderDecodedImageCallbackRef {
    /// A view of a registered sink.
    pub fn new() -> (r: VideoDecoderDecodedImageCallbackRef)
        ensures
            r.spec_registered(),
    {
        VideoDecoderDecodedImageCallbackRef { registered: true }
    }

    /// Whether the view names a registered sink.
    pub closed spec fn spec_registered(self) -> bool {
        self.registered
    }
}

/// The callbacks a video decoder is built from. Every slot is optional: a
/// bundle marks the slots it fills, and dispatch serves the neutral
/// default for the rest.
pub trait VideoDecoderCallbacks: Sized {
    /// Configures the decoder.
    fn configure(&mut self, settings: &VideoDecoderSettingsRef<'_>) -> bool {
        true
    }

    /// Decodes one image.
    fn decode(&mut self, input_image: Option<&EncodedImageRef<'_>>, render_time_ms: i64) -> i32 {
        0
    }

    /// Told whether a decode-complete sink is now registered.
    fn register_decode_complete_callback(&mut self, registered: bool) -> i32 {
        0
    }

    /// Releases decoder resources.
    fn release(&mut self) -> i32 {
        0
    }

    /// Reports what the decoder is.
    fn get_decoder_info(&mut self) -> VideoDecoderDecoderInfo {
        VideoDecoderDecoderInfo::new()
    }
}

/// Which decoder slots a bundle fills.
#[derive(Clone, Copy, Debug, PartialEq, Eq, Structural, Default)]
pub struct VideoDecoderSlots {
    pub configure: bool,
    pub decode: bool,
    pub register_decode_complete_callback: bool,
    pub release: bool,
    pub get_decoder_info: bool,
}

impl VideoDecoderSlots {
    /// No slot filled.
    pub fn none() -> (r: VideoDecoderSlots)
        ensures
            r == (VideoDecoderSlots {
                configure: false,
                decode: false,
                register_decode_complete_callback: false,
                release: false,
                get_decoder_info: false,
            }),
    {
        VideoDecoderSlots {
            configure: false,
            decode: false,
            register_decode_complete_callback: false,
            release: false,
            get_decoder_info: false,
        }
    }
}

/// One native call into a video decoder, as the ghost call log records it.
pub enum VideoDecoderCall {
    Configure { settings: VideoDecoderSettings },
    Decode { input_image: Option<EncodedImage>, render_time_ms: i64 },
    RegisterDecodeCompleteCallback { registered: bool },
    Release,
    GetDecoderInfo,
}

/// A video decoder implemented by a callback bundle.
pub struct VideoDecoder<C: VideoDecoderCallbacks> {
    callbacks: C,
    slots: VideoDecoderSlots,
    lifecycle: BundleLifecycle,
    log: Ghost<Seq<VideoDecoderCall>>,
}

impl<C: VideoDecoderCallbacks> VideoDecoder<C> {
    /// The held callbacks.
    pub closed spec fn spec_callbacks(self) -> C {
        self.callbacks
    }

    /// Which slots the bundle fills.
    pub closed spec fn spec_slots(self) -> VideoDecoderSlots {
        self.slots
    }

    /// Whether the teardown slot has freed this registration.
    pub closed spec fn spec_freed(self) -> bool {
        self.lifecycle.freed
    }

    /// The lifecycle of this registration.
    pub closed spec fn spec_lifecycle(self) -> BundleLifecycle {
        self.lifecycle
    }

    /// Every dispatch so far, in native call order.
    pub closed spec fn spec_log(self) -> Seq<VideoDecoderCall> {
        self.log@
    }

    /// Registers a decoder bundle: the callbacks, with the slots they
    /// fill.
    pub fn new_with_callbacks(callbacks: C, slots: VideoDecoderSlots) -> (r: VideoDecoder<C>)
        ensures
            r.spec_callbacks() == callbacks,
            r.spec_slots() == slots,
            !r.spec_freed(),
            r.spec_log().len() == 0,
            crate::bundle::lifecycle_wf(r.spec_lifecycle()),
    {
        VideoDecoder {
            callbacks,
            slots,
            lifecycle: BundleLifecycle::register(),
            log: Ghost(Seq::empty()),
        }
    }

    /// The native address of the decoder; never null.
    pub fn as_ptr(&self) -> (r: NativePtr)
        ensures
            r == (NativePtr { addr: 1 }),
    {
        NativePtr { addr: 1 }
    }

    /// Forfeits ownership to a native consumer.
    pub fn into_raw(self) -> (r: NativePtr)
        ensures
            r == (NativePtr { addr: 1 }),
    {
        NativePtr { addr: 1 }
    }

    /// The configure trampoline. The native side passes no explicit
    /// settings here, so the callback observes the unspecified settings.
    pub fn configure(&mut self) -> (r: bool)
        ensures
            old(self).spec_freed() ==> *final(self) == *old(self) && r,
            !old(self).spec_freed() ==> final(self).spec_log() == old(self).spec_log().push(
                (VideoDecoderCall::Configure {
                    settings: (VideoDecoderSettings {
                        number_of_cores: 1,
                        codec_type: VideoCodecType::Generic,
                        buffer_pool_size: None,
                        max_render_resolution_width: 0,
                        max_render_resolution_height: 0,
                    }),
                }),
            ),
            final(self).spec_freed() == old(self).spec_freed(),
            final(self).spec_slots() == old(self).spec_slots(),
            final(self).spec_lifecycle() == old(self).spec_lifecycle(),
            !old(self).spec_freed() && !old(self).spec_slots().configure ==> r && final(self).spec_callbacks() == old(self).spec_callbacks(),
    {
        if self.lifecycle.freed {
            return true;
        }
        let settings = VideoDecoderSettings::unspecified();
        proof {
            self.log@ = self.log@.push(VideoDecoderCall::Configure { settings });
        }
        if self.slots.configure {
            let settings_ref = VideoDecoderSettingsRef::from_raw(&settings);
            self.callbacks.configure(&settings_ref)
        } else {
            true
        }
    }

    /// The decode trampoline: logs the input image and render time exactly
    /// as handed over, then dispatches the slot.
    pub fn decode(&mut self, input_image: Option<EncodedImageRef<'_>>, render_time_ms: i64) -> (r:
        i32)
        ensures
            old(self).spec_freed() ==> *final(self) == *old(self) && r == 0,
            !old(self).spec_freed() ==> final(self).spec_log() == old(self).spec_log().push(
                (VideoDecoderCall::Decode {
                    input_image: match input_image {
                        Some(v) => Some(v.spec_image()),
                        None => None,
                    },
                    render_time_ms,
                }),
            ),
            final(self).spec_freed() == old(self).spec_freed(),
            final(self).spec_slots() == old(self).spec_slots(),
            final(self).spec_lifecycle() == old(self).spec_lifecycle(),
            !old(self).spec_freed() && !old(self).spec_slots().decode ==> r == 0 && final(self).spec_callbacks() == old(self).spec_callbacks(),
    {
        if self.lifecycle.freed {
            return 0;
        }
        proof {
            self.log@ = self.log@.push(
                VideoDecoderCall::Decode {
                    input_image: match &input_image {
                        Some(v) => Some(v.spec_image()),
                        None => None,
                    },
                    render_time_ms,
                },
            );
        }
        if self.slots.decode {
            match &input_image {
                Some(v) => self.callbacks.decode(Some(v), render_time_ms),
                None => self.callbacks.decode(None, render_time_ms),
            }
        } else {
            0
        }
    }

    /// The register trampoline: tells the callback whether a sink is now
    /// registered.
    pub fn register_decode_complete_callback(&mut self, registered: bool) -> (r: i32)
        ensures
            old(self).spec_freed() ==> *final(self) == *old(self) && r == 0,
            !old(self).spec_freed() ==> final(self).spec_log() == old(self).spec_log().push(
                (VideoDecoderCall::RegisterDecodeCompleteCallback { registered }),
            ),
            final(self).spec_freed() == old(self).spec_freed(),
            final(self).spec_slots() == old(self).spec_slots(),
            final(self).spec_lifecycle() == old(self).spec_lifecycle(),
            !old(self).spec_freed() && !old(self).spec_slots().register_decode_complete_callback
                ==> r == 0 && final(self).spec_callbacks() == old(self).spec_callbacks(),
    {
        if self.lifecycle.freed {
            return 0;
        }
        proof {
            self.log@ = self.log@.push(
                VideoDecoderCall::RegisterDecodeCompleteCallback { registered },
            );
        }
        if self.slots.register_decode_complete_callback {
            self.callbacks.register_decode_complete_callback(registered)
        } else {
            0
        }
    }

    /// The release trampoline.
    pub fn release(&mut self) -> (r: i32)
        ensures
            old(self).spec_freed() ==> *final(self) == *old(self) && r == 0,
            !old(self).spec_freed() ==> final(self).spec_log() == old(self).spec_log().push(
                VideoDecoderCall::Release,
            ),
            final(self).spec_freed() == old(self).spec_freed(),
            final(self).spec_slots() == old(self).spec_slots(),
            final(self).spec_lifecycle() == old(self).spec_lifecycle(),
            !old(self).spec_freed() && !old(self).spec_slots().release ==> r == 0 && final(self).spec_callbacks() == old(self).spec_callbacks(),
    {
        if self.lifecycle.freed {
            return 0;
        }
        proof {
            self.log@ = self.log@.push(VideoDecoderCall::Release);
        }
        if self.slots.release {
            self.callbacks.release()
        } else {
            0
        }
    }

    /// The info trampoline.
    pub fn get_decoder_info(&mut self) -> (r: VideoDecoderDecoderInfo)
        ensures
            old(self).spec_freed() ==> *final(self) == *old(self) && r.spec_implementation_name()
                == Seq::<char>::empty() && !r.spec_is_hardware_accelerated(),
            !old(self).spec_freed() ==> final(self).spec_log() == old(self).spec_log().push(
                VideoDecoderCall::GetDecoderInfo,
            ),
            final(self).spec_freed() == old(self).spec_freed(),
            final(self).spec_slots() == old(self).spec_slots(),
            final(self).spec_lifecycle() == old(self).spec_lifecycle(),
            !old(self).spec_freed() && !old(self).spec_slots().get_decoder_info ==> final(self).spec_callbacks() == old(self).spec_callbacks() && r.spec_implementation_name()
                == Seq::<char>::empty() && !r.spec_is_hardware_accelerated(),
    {
        if self.lifecycle.freed {
            return VideoDecoderDecoderInfo::new();
        }
        proof {
            self.log@ = self.log@.push(VideoDecoderCall::GetDecoderInfo);
        }
        if self.slots.get_decoder_info {
            self.callbacks.get_decoder_info()
        } else {
            VideoDecoderDecoderInfo::new()
        }
    }

    /// The reserved teardown slot: the one code path that frees this
    /// registration, effective exactly once.
    pub fn on_destroy(&mut self) -> (freed_now: bool)
        requires
            crate::bundle::lifecycle_wf(old(self).spec_lifecycle()),
        ensures
            freed_now == !old(self).spec_freed(),
            final(self).spec_freed(),
            final(self).spec_log() == old(self).spec_log(),
            final(self).spec_callbacks() == old(self).spec_callbacks(),
            crate::bundle::lifecycle_wf(final(self).spec_lifecycle()),
            final(self).spec_lifecycle().teardowns == 1,
    {
        self.lifecycle.on_destroy()
    }
}

/// The callbacks a video decoder factory is built from.
pub trait VideoDecoderFactoryCallbacks: Sized {
    /// The callback type of the decoders this factory creates.
    type Decoder: VideoDecoderCallbacks;

    /// The formats the factory supports.
    fn get_supported_formats(&mut self) -> Vec<SdpVideoFormat> {
        Vec::new()
    }

    /// Creates a decoder for a format, or declines.
    fn create(
        &mut self,
        env: &EnvironmentRef<'_>,
        format: &SdpVideoFormatRef<'_>,
    ) -> Option<VideoDecoder<Self::Decoder>> {
        None
    }
}

/// Which factory slots a bundle fills.
#[derive(Clone, Copy, Debug, PartialEq, Eq, Structural, Default)]
pub struct VideoDecoderFactorySlots {
    pub get_supported_formats: bool,
    pub create: bool,
}

impl VideoDecoderFactorySlots {
    /// No slot filled.
    pub fn none() -> (r: VideoDecoderFactorySlots)
        ensures
            r == (VideoDecoderFactorySlots { get_supported_formats: false, create: false }),
    {
        VideoDecoderFactorySlots { get_supported_formats: false, create: false }
    }
}

/// One native call into a video decoder factory, as the ghost call log
/// records it.
pub enum VideoDecoderFactoryCall {
    GetSupportedFormats,
    Create { format_name: Seq<char> },
}

/// A video decoder factory implemented by a callback bundle.
pub struct VideoDecoderFactory<F: VideoDecoderFactoryCallbacks> {
    callbacks: F,
    slots: VideoDecoderFactorySlots,
    lifecycle: BundleLifecycle,
    log: Ghost<Seq<VideoDecoderFactoryCall>>,
}

/// The callbacks behind the builtin decoder factory: it accepts every
/// format and hands out a decoder with no slots filled.
pub struct BuiltinVideoDecoderFactoryCallbacks;

/// The callbacks of a decoder the builtin factory creates: none.
pub struct BuiltinVideoDecoderCallbacks;

impl VideoDecoderCallbacks for BuiltinVideoDecoderCallbacks {

}

impl VideoDecoderFactoryCallbacks for BuiltinVideoDecoderFactoryCallbacks {
    type Decoder = BuiltinVideoDecoderCallbacks;

    fn create(
        &mut self,
        env: &EnvironmentRef<'_>,
        format: &SdpVideoFormatRef<'_>,
    ) -> Option<VideoDecoder<BuiltinVideoDecoderCallbacks>> {
        Some(
            VideoDecoder::new_with_callbacks(
                BuiltinVideoDecoderCallbacks,
                VideoDecoderSlots::none(),
            ),
        )
    }
}

impl VideoDecoderFactory<BuiltinVideoDecoderFactoryCallbacks> {
    /// The builtin decoder factory.
    pub fn builtin() -> (r: VideoDecoderFactory<BuiltinVideoDecoderFactoryCallbacks>)
        ensures
            !r.spec_freed(),
            r.spec_log().len() == 0,
    {
        VideoDecoderFactory {
            callbacks: BuiltinVideoDecoderFactoryCallbacks,
            slots: VideoDecoderFactorySlots { get_supported_formats: false, create: true },
            lifecycle: BundleLifecycle::register(),
            log: Ghost(Seq::empty()),
        }
    }
}

impl<F: VideoDecoderFactoryCallbacks> VideoDecoderFactory<F> {
    /// The held callbacks.
    pub closed spec fn spec_callbacks(self) -> F {
        self.callbacks
    }

    /// Which slots the bundle fills.
    pub closed spec fn spec_slots(self) -> VideoDecoderFactorySlots {
        self.slots
    }

    /// Whether the teardown slot has freed this registration.
    pub closed spec fn spec_freed(self) -> bool {
        self.lifecycle.freed
    }

    /// The lifecycle of this registration.
    pub closed spec fn spec_lifecycle(self) -> BundleLifecycle {
        self.lifecycle
    }

    /// Every dispatch so far, in native call order.
    pub closed spec fn spec_log(self) -> Seq<VideoDecoderFactoryCall> {
        self.log@
    }

    /// Registers a factory bundle: the callbacks, with the slots they
    /// fill.
    pub fn new_with_callbacks(callbacks: F, slots: VideoDecoderFactorySlots) -> (r:
        VideoDecoderFactory<F>)
        ensures
            r.spec_callbacks() == callbacks,
            r.spec_slots() == slots,
            !r.spec_freed(),
            r.spec_log().len() == 0,
            crate::bundle::lifecycle_wf(r.spec_lifecycle()),
    {
        VideoDecoderFactory {
            callbacks,
            slots,
            lifecycle: BundleLifecycle::register(),
            log: Ghost(Seq::empty()),
        }
    }

    /// The native address of the factory; never null.
    pub fn as_ptr(&self) -> (r: NativePtr)
        ensures
            r == (NativePtr { addr: 1 }),
    {
        NativePtr { addr: 1 }
    }

    /// Forfeits ownership to a native consumer.
    pub fn into_raw(self) -> (r: NativePtr)
        ensures
            r == (NativePtr { addr: 1 }),
    {
        NativePtr { addr: 1 }
    }

    /// The create trampoline, from owned arguments.
    pub fn create(&mut self, env: &Environment, format: &SdpVideoFormat) -> (r: Option<
        VideoDecoder<F::Decoder>,
    >)
        ensures
            old(self).spec_freed() ==> *final(self) == *old(self) && r is None,
            !old(self).spec_freed() ==> final(self).spec_log() == old(self).spec_log().push(
                (VideoDecoderFactoryCall::Create { format_name: format.spec_name() }),
            ),
            final(self).spec_freed() == old(self).spec_freed(),
            final(self).spec_slots() == old(self).spec_slots(),
            final(self).spec_lifecycle() == old(self).spec_lifecycle(),
            !old(self).spec_freed() && !old(self).spec_slots().create ==> r is None && final(self).spec_callbacks() == old(self).spec_callbacks(),
    {
        let env_ref = env.as_ref();
        let format_ref = format.as_ref();
        self.create_from_ref(env_ref, format_ref)
    }

    /// The create trampoline; an unfilled slot declines.
    pub fn create_from_ref(
        &mut self,
        env: EnvironmentRef<'_>,
        format: SdpVideoFormatRef<'_>,
    ) -> (r: Option<VideoDecoder<F::Decoder>>)
        ensures
            old(self).spec_freed() ==> *final(self) == *old(self) && r is None,
            !old(self).spec_freed() ==> final(self).spec_log() == old(self).spec_log().push(
                (VideoDecoderFactoryCall::Create { format_name: format.spec_name() }),
            ),
            final(self).spec_freed() == old(self).spec_freed(),
            final(self).spec_slots() == old(self).spec_slots(),
            final(self).spec_lifecycle() == old(self).spec_lifecycle(),
            !old(self).spec_freed() && !old(self).spec_slots().create ==> r is None && final(self).spec_callbacks() == old(self).spec_callbacks(),
    {
        if self.lifecycle.freed {
            return None;
        }
        proof {
            self.log@ = self.log@.push(
                VideoDecoderFactoryCall::Create { format_name: format.spec_name() },
            );
        }
        if self.slots.create {
            self.callbacks.create(&env, &format)
        } else {
            None
        }
    }

    /// The supported-formats trampoline; an unfilled slot reports no
    /// formats.
    pub fn get_supported_formats(&mut self) -> (r: Vec<SdpVideoFormat>)
        ensures
            old(self).spec_freed() ==> *final(self) == *old(self) && r@.len() == 0,
            !old(self).spec_freed() ==> final(self).spec_log() == old(self).spec_log().push(
                VideoDecoderFactoryCall::GetSupportedFormats,
            ),
            final(self).spec_freed() == old(self).spec_freed(),
            final(self).spec_slots() == old(self).spec_slots(),
            final(self).spec_lifecycle() == old(self).spec_lifecycle(),
            !old(self).spec_freed() && !old(self).spec_slots().get_supported_formats ==> r@.len()
                == 0 && final(self).spec_callbacks() == old(self).spec_callbacks(),
    {
        if self.lifecycle.freed {
            return Vec::new();
        }
        proof {
            self.log@ = self.log@.push(VideoDecoderFactoryCall::GetSupportedFormats);
        }
        if self.slots.get_supported_formats {
            self.callbacks.get_supported_formats()
        } else {
            Vec::new()
        }
    }

    /// The reserved teardown slot: the one code path that frees this
    /// registration, effective exactly once.
    pub fn on_destroy(&mut self) -> (freed_now: bool)
        requires
            crate::bundle::lifecycle_wf(old(self).spec_lifecycle()),
        ensures
            freed_now == !old(self).spec_freed(),
            final(self).spec_freed(),
            final(self).spec_log() == old(self).spec_log(),
            final(self).spec_callbacks() == old(self).spec_callbacks(),
            crate::bundle::lifecycle_wf(final(self).spec_lifecycle()),
            final(self).spec_lifecycle().teardowns == 1,
    {
        self.lifecycle.on_destroy()
    }
}

} // verus!

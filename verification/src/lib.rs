//! A verified ownership-and-callback bridging layer for a WebRTC-style
//! native object model.
//!
//! Native objects governed by intrusive reference counting or by exclusive
//! ownership are represented by an explicit, allocation-counting model of the
//! native heap, so that the ownership discipline of the wrappers — one
//! release per owner, exactly one destroy per unique object, teardown of a
//! callback registration through its dedicated slot and nowhere else — can be
//! stated and proved rather than trusted.

use vstd::prelude::*;

mod api;
mod bundle;
mod cxxstd;
mod error;
mod libyuv;
mod ref_count;
mod rtc_base;
mod unique;

pub use bundle::{
    BundleLifecycle, RegistrationLedger, freed_count, fresh_lifecycle, lemma_all_freed_count,
    lemma_freed_count_bounds, lemma_teardown_frees_once, lifecycle_wf,
    simulate_register_teardown, torn_down_lifecycle,
};
pub use api::environment::{Environment, EnvironmentRef};
pub use api::jsep::{
    IceCandidate, IceCandidateRef, SdpParseError, SdpType, SessionDescription, candidate_text_ok,
    sdp_text_ok,
};
pub use api::media_types::MediaType;
pub use api::audio::{
    AudioDecoderFactory, AudioDeviceModule, AudioDeviceModuleAudioLayer,
    AudioDeviceModuleCall, AudioDeviceModuleCallbacks, AudioDeviceModuleSlots,
    AudioDeviceModuleStats, AudioEncoderFactory, AudioProcessingBuilder, AudioTrack,
    AudioTrackSource, AudioTransport, AudioTransportCall, AudioTransportCallbacks,
    AudioTransportRef, AudioTransportSlots, BuiltinAudioDeviceModuleCallbacks, DEVICE_NAME_MAX,
    adm_frame, marshalled_name, no_adm_slots,
};
pub use api::data_channel::{
    DataChannel, DataChannelInit, DataChannelObserver, DataChannelObserverBuilder,
    DataChannelObserverCall, DataChannelState,
};
pub use api::peer_connection::{
    CreateSessionDescriptionObserver, DescriptionCompletion, IceServer, IceServerRef,
    IceServerVector, IceServerVectorRef, IceTransportsType, PeerConnection,
    PeerConnectionDependencies, PeerConnectionFactory, PeerConnectionFactoryDependencies,
    PeerConnectionFactoryOptions, PeerConnectionObserver, PeerConnectionObserverBuilder,
    PeerConnectionObserverCall, PeerConnectionOfferAnswerOptions,
    PeerConnectionRtcConfiguration, PeerConnectionState, SSL_PROTOCOL_DTLS_12,
    SessionDescriptionDelivery, SetLocalDescriptionObserver, SetRemoteDescriptionObserver,
    model_sdp_text, pc_observer_slots_equal,
};
pub use api::rtc_error::RtcError;
pub use api::rtc_event_log::RtcEventLogFactory;
pub use api::stats::RTCStatsReport;
pub use api::rtp::{
    RtpCodec, RtpCodecCapability, RtpCodecCapabilityRef, RtpCodecCapabilityVector,
    RtpCodecCapabilityVectorRef, RtpCodecRef, RtpCapabilities, RtpEncodingParameters,
    RtpEncodingParametersRef, RtpEncodingParametersVector, RtpParameters, RtpReceiver, RtpSender,
    RtpTransceiver, RtpTransceiverDirection, RtpTransceiverInit, DegradationPreference,
    MediaStreamTrack, Resolution, codec_others_equal,
};
pub use api::video::{
    AdaptFrameResult, AdaptedSize, AdaptedVideoTrackSource, VideoSink, VideoSinkBuilder,
    VideoSinkCall, VideoSinkWants, VideoTrack, VideoTrackSource,
};
pub use api::video_codec_common::{
    EncodedImage, EncodedImageBuffer, EncodedImageRef, I420Buffer, SdpVideoFormat,
    SdpVideoFormatRef, VideoCodec, VideoCodecRef, VideoCodecType, VideoFrame, VideoFrameRef,
    VideoFrameType, VideoFrameTypeVector, VideoFrameTypeVectorRef, chroma_dim, params_match,
    unchanged_but_data,
};
pub use cxxstd::{
    CxxString, CxxStringRef, MapEntry, MapStringString, MapStringStringIter, StringVector,
    StringVectorRef,
};
pub use api::video_decoder::{
    BuiltinVideoDecoderCallbacks, BuiltinVideoDecoderFactoryCallbacks, VideoDecoder,
    VideoDecoderCall, VideoDecoderCallbacks, VideoDecoderDecodedImageCallbackRef,
    VideoDecoderDecoderInfo, VideoDecoderFactory, VideoDecoderFactoryCall,
    VideoDecoderFactoryCallbacks, VideoDecoderFactorySlots, VideoDecoderSettings,
    VideoDecoderSettingsRef, VideoDecoderSlots,
};
pub use api::video_encoder::{
    BuiltinVideoEncoderCallbacks, BuiltinVideoEncoderFactoryCallbacks, CodecSpecificInfo,
    CodecSpecificInfoRef, H264PacketizationMode, VideoEncoder, VideoEncoderCall,
    VideoEncoderCallbacks, VideoEncoderEncodedImageCallback,
    VideoEncoderEncodedImageCallbackCall, VideoEncoderEncodedImageCallbackCallbacks,
    VideoEncoderEncodedImageCallbackResult, VideoEncoderEncodedImageCallbackResultError,
    VideoEncoderEncoderInfo, VideoEncoderFactory, VideoEncoderFactoryCall,
    VideoEncoderFactoryCallbacks, VideoEncoderFactorySlots, VideoEncoderRateControlParameters,
    VideoEncoderRateControlParametersRef, VideoEncoderSettings, VideoEncoderSettingsRef,
    VideoEncoderSlots,
};
pub use error::{Error, RtcResult};
pub use libyuv::{
    abgr_to_i420, argb_blue, argb_green, argb_red, chroma_sample_index, chroma_src_pixel,
    clamp_shift, i420_to_argb, nv12_to_i420, nv12_uv_byte, strided_byte, u_of, v_of, y_of,
    yuy2_to_i420, yuy2_uv_byte, yuy2_y_byte,
};
pub use rtc_base::logging as log;
pub use rtc_base::{
    Thread, TimestampAligner, random_bytes, random_string, rtc_log_format_file, thread_sleep_ms,
    time_millis,
};
pub use ref_count::{
    AdaptedVideoTrackSourceHandle, AudioDecoderFactoryHandle, AudioDeviceModuleHandle,
    AudioEncoderFactoryHandle, AudioTrackHandle, AudioTrackSourceHandle, DataChannelHandle,
    EncodedImageBufferHandle, I420BufferHandle, MediaStreamTrackHandle, PeerConnectionFactoryHandle,
    PeerConnectionHandle, RTCStatsReportHandle, RefCountArena, RefCountedHandle, RefSlot,
    RtpReceiverHandle, RtpSenderHandle, RtpTransceiverHandle, ScopedRef,
    SetLocalDescriptionObserverHandle, SetRemoteDescriptionObserverHandle, VideoTrackHandle,
    VideoTrackSourceHandle, fresh_slot, lemma_add_refs_counts,
    lemma_clones_balance, lemma_last_release_frees, slot_after_add_ref, slot_after_add_refs,
    slot_after_release, slot_after_releases, slot_wf,
};
pub use unique::{
    CxxStringHandle, RtcErrorHandle, SdpParseErrorHandle, SdpVideoFormatHandle,
    SessionDescriptionHandle, StringVectorHandle, ThreadHandle, TimestampAlignerHandle,
    UniqueArena, UniqueHandle, UniqueOwned, UniqueSlot, VideoDecoderUniqueHandle,
    VideoEncoderUniqueHandle, destroyed_unique_slot, fresh_unique_slot,
    lemma_exactly_one_destroy, unique_slot_wf,
};

verus! {

/// An opaque address handed across the modeled ABI boundary.
///
/// The address zero stands for a null pointer; every live object presents a
/// nonzero address.
#[derive(Clone, Copy, Debug, PartialEq, Eq, Structural)]
pub struct NativePtr {
    pub addr: u64,
}

impl NativePtr {
    /// The null address.
    pub fn null() -> (r: NativePtr)
        ensures
            r.addr == 0,
    {
        NativePtr { addr: 0 }
    }

    /// Whether this address is the null address.
    pub fn is_null(&self) -> (r: bool)
        ensures
            r == (self.addr == 0),
    {
        self.addr == 0
    }
}

} // verus!

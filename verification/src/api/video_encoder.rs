//! The video encoder callback bridge.
//!
//! A video encoder is implemented on this side of the boundary: a set of
//! callbacks is collected into a bundle, every absent slot is marked so that
//! dispatch serves its neutral default, and the bundle is registered with
//! the native side together with a trampoline table. Each native call into
//! the encoder dispatches through exactly one slot; the bundle's ghost call
//! log records every dispatch with the arguments as they were handed over,
//! so the count, the order and the reconstruction of arguments are part of
//! the verified contract. The reserved teardown slot is the only path that
//! frees the bundle; after it has run, no dispatch touches the callbacks
//! again.

use vstd::prelude::*;

use crate::NativePtr;
use crate::api::environment::EnvironmentRef;
use crate::api::video_codec_common::{
    EncodedImage, EncodedImageRef, SdpVideoFormat, SdpVideoFormatRef, VideoCodec, VideoCodecRef,
    VideoCodecType, VideoFrame, VideoFrameRef, VideoFrameType, VideoFrameTypeVectorRef,
};
use crate::bundle::BundleLifecycle;
use crate::error::RtcResult;

verus! {

/// What an encoder reports about itself.
pub struct VideoEncoderEncoderInfo {
    implementation_name: String,
    is_hardware_accelerated: bool,
}

impl VideoEncoderEncoderInfo {
    /// The default report: an empty implementation name, not hardware
    /// accelerated.
    pub fn new() -> (r: VideoEncoderEncoderInfo)
        ensures
            r.spec_implementation_name() == Seq::<char>::empty(),
            !r.spec_is_hardware_accelerated(),
    {
        VideoEncoderEncoderInfo {
            implementation_name: String::new(),
            is_hardware_accelerated: false,
        }
    }

    /// The reported implementation name.
    pub closed spec fn spec_implementation_name(self) -> Seq<char> {
        self.implementation_name@
    }

    /// Whether hardware acceleration is reported.
    pub closed spec fn spec_is_hardware_accelerated(self) -> bool {
        self.is_hardware_accelerated
    }

    /// The reported implementation name.
    pub fn implementation_name(&self) -> (r: RtcResult<String>)
        ensures
            r is Ok,
            r->Ok_0@ == self.spec_implementation_name(),
    {
        Ok(self.implementation_name.clone())
    }

    /// Sets the reported implementation name.
    pub fn set_implementation_name(&mut self, name: &str)
        ensures
            final(self).spec_implementation_name() == name@,
            final(self).spec_is_hardware_accelerated() == old(self).spec_is_hardware_accelerated(),
    {
        self.implementation_name = name.to_owned();
    }

    /// Whether hardware acceleration is reported.
    pub fn is_hardware_accelerated(&self) -> (r: bool)
        ensures
            r == self.spec_is_hardware_accelerated(),
    {
        self.is_hardware_accelerated
    }

    /// Sets whether hardware acceleration is reported.
    pub fn set_is_hardware_accelerated(&mut self, value: bool)
        ensures
            final(self).spec_is_hardware_accelerated() == value,
            final(self).spec_implementation_name() == old(self).spec_implementation_name(),
    {
        self.is_hardware_accelerated = value;
    }

    /// Forfeits ownership to the native consumer of the report.
    pub fn into_raw(self) -> (r: NativePtr)
        ensures
            r == (NativePtr { addr: 1 }),
    {
        NativePtr { addr: 1 }
    }
}

/// The settings a native encoder is initialized with, beside the codec.
#[derive(Clone, Copy, Debug, PartialEq, Eq, Structural)]
pub struct VideoEncoderSettings {
    pub number_of_cores: i32,
    pub max_payload_size: usize,
    pub loss_notification: bool,
    pub encoder_thread_limit: Option<i32>,
}

impl VideoEncoderSettings {
    /// The settings the native layer passes when none are given: one core,
    /// a payload size of 1200, no loss notification, no thread limit.
    pub fn unspecified() -> (r: VideoEncoderSettings)
        ensures
            r == (VideoEncoderSettings {
                number_of_cores: 1,
                max_payload_size: 1200,
                loss_notification: false,
                encoder_thread_limit: None,
            }),
    {
        VideoEncoderSettings {
            number_of_cores: 1,
            max_payload_size: 1200,
            loss_notification: false,
            encoder_thread_limit: None,
        }
    }
}

/// A borrowed view of encoder settings, the shape in which they reach the
/// init slot.
pub struct VideoEncoderSettingsRef<'a> {
    target: &'a VideoEncoderSettings,
}

impl<'a> VideoEncoderSettingsRef<'a> {
    /// Wraps borrowed settings.
    pub fn from_raw(target: &'a VideoEncoderSettings) -> (r: VideoEncoderSettingsRef<'a>)
        ensures
            r.spec_settings() == *target,
    {
        VideoEncoderSettingsRef { target }
    }

    /// The viewed settings.
    pub closed spec fn spec_settings(self) -> VideoEncoderSettings {
        *self.target
    }

    /// The number of cores the encoder may use.
    pub fn number_of_cores(&self) -> (r: i32)
        ensures
            r == self.spec_settings().number_of_cores,
    {
        self.target.number_of_cores
    }

    /// The maximum payload size.
    pub fn max_payload_size(&self) -> (r: usize)
        ensures
            r == self.spec_settings().max_payload_size,
    {
        self.target.max_payload_size
    }

    /// Whether loss notification is enabled.
    pub fn loss_notification(&self) -> (r: bool)
        ensures
            r == self.spec_settings().loss_notification,
    {
        self.target.loss_notification
    }

    /// The encoder thread limit, when one is set.
    pub fn encoder_thread_limit(&self) -> (r: Option<i32>)
        ensures
            r == self.spec_settings().encoder_thread_limit,
    {
        self.target.encoder_thread_limit
    }
}

/// The rate control parameters a native encoder is driven with. The
/// framerate is carried in whole frames per second.
#[derive(Clone, Copy, Debug, PartialEq, Eq, Structural)]
pub struct VideoEncoderRateControlParameters {
    pub framerate_fps: i64,
    pub target_bitrate_sum_bps: u32,
    pub bitrate_sum_bps: u32,
    pub bandwidth_allocation_bps: i64,
}

impl VideoEncoderRateControlParameters {
    /// The parameters the native layer passes when none are given.
    pub fn unspecified() -> (r: VideoEncoderRateControlParameters)
        ensures
            r == (VideoEncoderRateControlParameters {
                framerate_fps: 30,
                target_bitrate_sum_bps: 300000,
                bitrate_sum_bps: 250000,
                bandwidth_allocation_bps: 350000,
            }),
    {
        VideoEncoderRateControlParameters {
            framerate_fps: 30,
            target_bitrate_sum_bps: 300000,
            bitrate_sum_bps: 250000,
            bandwidth_allocation_bps: 350000,
        }
    }
}

/// A borrowed view of rate control parameters.
pub struct VideoEncoderRateControlParametersRef<'a> {
    target: &'a VideoEncoderRateControlParameters,
}

impl<'a> VideoEncoderRateControlParametersRef<'a> {
    /// Wraps borrowed parameters.
    pub fn from_raw(target: &'a VideoEncoderRateControlParameters) -> (r:
        VideoEncoderRateControlParametersRef<'a>)
        ensures
            r.spec_parameters() == *target,
    {
        VideoEncoderRateControlParametersRef { target }
    }

    /// The viewed parameters.
    pub closed spec fn spec_parameters(self) -> VideoEncoderRateControlParameters {
        *self.target
    }

    /// The framerate, in whole frames per second.
    pub fn framerate_fps(&self) -> (r: i64)
        ensures
            r == self.spec_parameters().framerate_fps,
    {
        self.target.framerate_fps
    }

    /// The target bitrate over all layers.
    pub fn target_bitrate_sum_bps(&self) -> (r: u32)
        ensures
            r == self.spec_parameters().target_bitrate_sum_bps,
    {
        self.target.target_bitrate_sum_bps
    }

    /// The current bitrate over all layers.
    pub fn bitrate_sum_bps(&self) -> (r: u32)
        ensures
            r == self.spec_parameters().bitrate_sum_bps,
    {
        self.target.bitrate_sum_bps
    }

    /// The bandwidth allocation.
    pub fn bandwidth_allocation_bps(&self) -> (r: i64)
        ensures
            r == self.spec_parameters().bandwidth_allocation_bps,
    {
        self.target.bandwidth_allocation_bps
    }
}

/// The native tag of a successful delivery.
pub const ENCODED_IMAGE_CALLBACK_OK: i32 = 0;

/// The native tag of a failed send.
pub const ENCODED_IMAGE_CALLBACK_ERROR_SEND_FAILED: i32 = 1;

/// The outcome tag of delivering an encoded image.
#[derive(Debug, Clone, Copy, PartialEq, Eq, Structural)]
pub enum VideoEncoderEncodedImageCallbackResultError {
    Success,
    ErrorSendFailed,
    Unknown(i32),
}

impl VideoEncoderEncodedImageCallbackResultError {
    /// The outcome with the given native tag.
    pub fn from_raw(value: i32) -> (r: VideoEncoderEncodedImageCallbackResultError)
        ensures
            value == ENCODED_IMAGE_CALLBACK_OK ==> r
                == VideoEncoderEncodedImageCallbackResultError::Success,
            value == ENCODED_IMAGE_CALLBACK_ERROR_SEND_FAILED ==> r
                == VideoEncoderEncodedImageCallbackResultError::ErrorSendFailed,
            value != ENCODED_IMAGE_CALLBACK_OK && value != ENCODED_IMAGE_CALLBACK_ERROR_SEND_FAILED
                ==> r == VideoEncoderEncodedImageCallbackResultError::Unknown(value),
    {
        if value == ENCODED_IMAGE_CALLBACK_OK {
            VideoEncoderEncodedImageCallbackResultError::Success
        } else if value == ENCODED_IMAGE_CALLBACK_ERROR_SEND_FAILED {
            VideoEncoderEncodedImageCallbackResultError::ErrorSendFailed
        } else {
            VideoEncoderEncodedImageCallbackResultError::Unknown(value)
        }
    }

    /// The native tag of this outcome.
    pub fn to_raw(&self) -> (r: i32)
        ensures
            self is Success ==> r == ENCODED_IMAGE_CALLBACK_OK,
            self is ErrorSendFailed ==> r == ENCODED_IMAGE_CALLBACK_ERROR_SEND_FAILED,
            self matches VideoEncoderEncodedImageCallbackResultError::Unknown(v) ==> r == v,
    {
        match self {
            VideoEncoderEncodedImageCallbackResultError::Success => ENCODED_IMAGE_CALLBACK_OK,
            VideoEncoderEncodedImageCallbackResultError::ErrorSendFailed => ENCODED_IMAGE_CALLBACK_ERROR_SEND_FAILED,
            VideoEncoderEncodedImageCallbackResultError::Unknown(v) => *v,
        }
    }
}

/// The result of delivering an encoded image to the registered sink.
#[derive(Clone, Copy, Debug, PartialEq, Eq, Structural)]
pub struct VideoEncoderEncodedImageCallbackResult {
    error: VideoEncoderEncodedImageCallbackResultError,
    frame_id: u32,
    drop_next_frame: bool,
}

impl VideoEncoderEncodedImageCallbackResult {
    /// A result carrying only an outcome tag.
    pub fn new(error: VideoEncoderEncodedImageCallbackResultError) -> (r:
        VideoEncoderEncodedImageCallbackResult)
        ensures
            r.spec_error() == error,
            r.spec_frame_id() == 0,
            !r.spec_drop_next_frame(),
    {
        VideoEncoderEncodedImageCallbackResult { error, frame_id: 0, drop_next_frame: false }
    }

    /// A result carrying an outcome tag and a frame id.
    pub fn new_with_frame_id(
        error: VideoEncoderEncodedImageCallbackResultError,
        frame_id: u32,
    ) -> (r: VideoEncoderEncodedImageCallbackResult)
        ensures
            r.spec_error() == error,
            r.spec_frame_id() == frame_id,
            !r.spec_drop_next_frame(),
    {
        VideoEncoderEncodedImageCallbackResult { error, frame_id, drop_next_frame: false }
    }

    /// The outcome tag.
    pub closed spec fn spec_error(self) -> VideoEncoderEncodedImageCallbackResultError {
        self.error
    }

    /// The frame id.
    pub closed spec fn spec_frame_id(self) -> u32 {
        self.frame_id
    }

    /// Whether the encoder should drop its next frame.
    pub closed spec fn spec_drop_next_frame(self) -> bool {
        self.drop_next_frame
    }

    /// The outcome tag.
    pub fn error(&self) -> (r: VideoEncoderEncodedImageCallbackResultError)
        ensures
            r == self.spec_error(),
    {
        self.error
    }

    /// Sets the outcome tag.
    pub fn set_error(&mut self, error: VideoEncoderEncodedImageCallbackResultError)
        ensures
            final(self).spec_error() == error,
            final(self).spec_frame_id() == old(self).spec_frame_id(),
            final(self).spec_drop_next_frame() == old(self).spec_drop_next_frame(),
    {
        self.error = error;
    }

    /// The frame id.
    pub fn frame_id(&self) -> (r: u32)
        ensures
            r == self.spec_frame_id(),
    {
        self.frame_id
    }

    /// Sets the frame id.
    pub fn set_frame_id(&mut self, frame_id: u32)
        ensures
            final(self).spec_frame_id() == frame_id,
            final(self).spec_error() == old(self).spec_error(),
            final(self).spec_drop_next_frame() == old(self).spec_drop_next_frame(),
    {
        self.frame_id = frame_id;
    }

    /// Whether the encoder should drop its next frame.
    pub fn drop_next_frame(&self) -> (r: bool)
        ensures
            r == self.spec_drop_next_frame(),
    {
        self.drop_next_frame
    }

    /// Sets whether the encoder should drop its next frame.
    pub fn set_drop_next_frame(&mut self, drop_next_frame: bool)
        ensures
            final(self).spec_drop_next_frame() == drop_next_frame,
            final(self).spec_error() == old(self).spec_error(),
            final(self).spec_frame_id() == old(self).spec_frame_id(),
    {
        self.drop_next_frame = drop_next_frame;
    }
}

/// The native tag of non-interleaved H.264 packetization.
pub const H264_PACKETIZATION_MODE_NON_INTERLEAVED: i32 = 0;

/// The native tag of single-NAL-unit H.264 packetization.
pub const H264_PACKETIZATION_MODE_SINGLE_NAL_UNIT: i32 = 1;

/// How H.264 output is packetized.
#[derive(Debug, Clone, Copy, PartialEq, Eq, Structural)]
pub enum H264PacketizationMode {
    NonInterleaved,
    SingleNalUnit,
    Unknown(i32),
}

impl H264PacketizationMode {
    /// The mode with the given native tag.
    pub fn from_raw(value: i32) -> (r: H264PacketizationMode)
        ensures
            value == H264_PACKETIZATION_MODE_NON_INTERLEAVED ==> r
                == H264PacketizationMode::NonInterleaved,
            value == H264_PACKETIZATION_MODE_SINGLE_NAL_UNIT ==> r
                == H264PacketizationMode::SingleNalUnit,
            value != H264_PACKETIZATION_MODE_NON_INTERLEAVED && value
                != H264_PACKETIZATION_MODE_SINGLE_NAL_UNIT ==> r == H264PacketizationMode::Unknown(
                value,
            ),
    {
        if value == H264_PACKETIZATION_MODE_NON_INTERLEAVED {
            H264PacketizationMode::NonInterleaved
        } else if value == H264_PACKETIZATION_MODE_SINGLE_NAL_UNIT {
            H264PacketizationMode::SingleNalUnit
        } else {
            H264PacketizationMode::Unknown(value)
        }
    }

    /// The native tag of this mode.
    pub fn to_raw(&self) -> (r: i32)
        ensures
            self is NonInterleaved ==> r == H264_PACKETIZATION_MODE_NON_INTERLEAVED,
            self is SingleNalUnit ==> r == H264_PACKETIZATION_MODE_SINGLE_NAL_UNIT,
            self matches H264PacketizationMode::Unknown(v) ==> r == v,
    {
        match self {
            H264PacketizationMode::NonInterleaved => H264_PACKETIZATION_MODE_NON_INTERLEAVED,
            H264PacketizationMode::SingleNalUnit => H264_PACKETIZATION_MODE_SINGLE_NAL_UNIT,
            H264PacketizationMode::Unknown(v) => *v,
        }
    }
}

/// The codec-specific side data attached to an encoded image.
#[derive(Clone, Copy, Debug, PartialEq, Eq, Structural)]
pub struct CodecSpecificInfo {
    pub codec_type: VideoCodecType,
    pub end_of_picture: bool,
    pub vp8_non_reference: bool,
    pub vp8_temporal_idx: i32,
    pub vp8_layer_sync: bool,
    pub vp8_key_idx: i32,
    pub vp9_temporal_idx: i32,
    pub vp9_inter_pic_predicted: bool,
    pub vp9_flexible_mode: bool,
    pub vp9_inter_layer_predicted: bool,
    pub h264_packetization_mode: H264PacketizationMode,
    pub h264_temporal_idx: i32,
    pub h264_base_layer_sync: bool,
    pub h264_idr_frame: bool,
}

impl CodecSpecificInfo {
    /// Side data as the native constructor leaves it: the generic codec
    /// with every flag cleared and every index zero.
    pub fn new() -> (r: CodecSpecificInfo)
        ensures
            r == CodecSpecificInfo::unspecified(),
    {
        CodecSpecificInfo {
            codec_type: VideoCodecType::Generic,
            end_of_picture: false,
            vp8_non_reference: false,
            vp8_temporal_idx: 0,
            vp8_layer_sync: false,
            vp8_key_idx: 0,
            vp9_temporal_idx: 0,
            vp9_inter_pic_predicted: false,
            vp9_flexible_mode: false,
            vp9_inter_layer_predicted: false,
            h264_packetization_mode: H264PacketizationMode::NonInterleaved,
            h264_temporal_idx: 0,
            h264_base_layer_sync: false,
            h264_idr_frame: false,
        }
    }

    /// The value of a fresh side-data block.
    pub open spec fn unspecified() -> CodecSpecificInfo {
        CodecSpecificInfo {
            codec_type: VideoCodecType::Generic,
            end_of_picture: false,
            vp8_non_reference: false,
            vp8_temporal_idx: 0,
            vp8_layer_sync: false,
            vp8_key_idx: 0,
            vp9_temporal_idx: 0,
            vp9_inter_pic_predicted: false,
            vp9_flexible_mode: false,
            vp9_inter_layer_predicted: false,
            h264_packetization_mode: H264PacketizationMode::NonInterleaved,
            h264_temporal_idx: 0,
            h264_base_layer_sync: false,
            h264_idr_frame: false,
        }
    }

    /// The codec the side data belongs to.
    pub fn codec_type(&self) -> (r: VideoCodecType)
        ensures
            r == self.codec_type,
    {
        self.codec_type
    }

    /// Sets the codec the side data belongs to.
    pub fn set_codec_type(&mut self, codec_type: VideoCodecType)
        ensures
            *final(self) == (CodecSpecificInfo { codec_type, ..*old(self) }),
    {
        self.codec_type = codec_type;
    }

    /// Whether this image ends its picture.
    pub fn end_of_picture(&self) -> (r: bool)
        ensures
            r == self.end_of_picture,
    {
        self.end_of_picture
    }

    /// Sets whether this image ends its picture.
    pub fn set_end_of_picture(&mut self, end_of_picture: bool)
        ensures
            *final(self) == (CodecSpecificInfo { end_of_picture, ..*old(self) }),
    {
        self.end_of_picture = end_of_picture;
    }

    /// The VP8 non-reference flag.
    pub fn vp8_non_reference(&self) -> (r: bool)
        ensures
            r == self.vp8_non_reference,
    {
        self.vp8_non_reference
    }

    /// Sets the VP8 non-reference flag.
    pub fn set_vp8_non_reference(&mut self, non_reference: bool)
        ensures
            *final(self) == (CodecSpecificInfo { vp8_non_reference: non_reference, ..*old(self) }),
    {
        self.vp8_non_reference = non_reference;
    }

    /// The VP8 temporal layer index.
    pub fn vp8_temporal_idx(&self) -> (r: i32)
        ensures
            r == self.vp8_temporal_idx,
    {
        self.vp8_temporal_idx
    }

    /// Sets the VP8 temporal layer index.
    pub fn set_vp8_temporal_idx(&mut self, temporal_idx: i32)
        ensures
            *final(self) == (CodecSpecificInfo { vp8_temporal_idx: temporal_idx, ..*old(self) }),
    {
        self.vp8_temporal_idx = temporal_idx;
    }

    /// The VP8 layer sync flag.
    pub fn vp8_layer_sync(&self) -> (r: bool)
        ensures
            r == self.vp8_layer_sync,
    {
        self.vp8_layer_sync
    }

    /// Sets the VP8 layer sync flag.
    pub fn set_vp8_layer_sync(&mut self, layer_sync: bool)
        ensures
            *final(self) == (CodecSpecificInfo { vp8_layer_sync: layer_sync, ..*old(self) }),
    {
        self.vp8_layer_sync = layer_sync;
    }

    /// The VP8 key frame index.
    pub fn vp8_key_idx(&self) -> (r: i32)
        ensures
            r == self.vp8_key_idx,
    {
        self.vp8_key_idx
    }

    /// Sets the VP8 key frame index.
    pub fn set_vp8_key_idx(&mut self, key_idx: i32)
        ensures
            *final(self) == (CodecSpecificInfo { vp8_key_idx: key_idx, ..*old(self) }),
    {
        self.vp8_key_idx = key_idx;
    }

    /// The VP9 temporal layer index.
    pub fn vp9_temporal_idx(&self) -> (r: i32)
        ensures
            r == self.vp9_temporal_idx,
    {
        self.vp9_temporal_idx
    }

    /// Sets the VP9 temporal layer index.
    pub fn set_vp9_temporal_idx(&mut self, temporal_idx: i32)
        ensures
            *final(self) == (CodecSpecificInfo { vp9_temporal_idx: temporal_idx, ..*old(self) }),
    {
        self.vp9_temporal_idx = temporal_idx;
    }

    /// The VP9 inter-picture prediction flag.
    pub fn vp9_inter_pic_predicted(&self) -> (r: bool)
        ensures
            r == self.vp9_inter_pic_predicted,
    {
        self.vp9_inter_pic_predicted
    }

    /// Sets the VP9 inter-picture prediction flag.
    pub fn set_vp9_inter_pic_predicted(&mut self, inter_pic_predicted: bool)
        ensures
            *final(self) == (CodecSpecificInfo {
                vp9_inter_pic_predicted: inter_pic_predicted,
                ..*old(self)
            }),
    {
        self.vp9_inter_pic_predicted = inter_pic_predicted;
    }

    /// The VP9 flexible mode flag.
    pub fn vp9_flexible_mode(&self) -> (r: bool)
        ensures
            r == self.vp9_flexible_mode,
    {
        self.vp9_flexible_mode
    }

    /// Sets the VP9 flexible mode flag.
    pub fn set_vp9_flexible_mode(&mut self, flexible_mode: bool)
        ensures
            *final(self) == (CodecSpecificInfo { vp9_flexible_mode: flexible_mode, ..*old(self) }),
    {
        self.vp9_flexible_mode = flexible_mode;
    }

    /// The VP9 inter-layer prediction flag.
    pub fn vp9_inter_layer_predicted(&self) -> (r: bool)
        ensures
            r == self.vp9_inter_layer_predicted,
    {
        self.vp9_inter_layer_predicted
    }

    /// Sets the VP9 inter-layer prediction flag.
    pub fn set_vp9_inter_layer_predicted(&mut self, inter_layer_predicted: bool)
        ensures
            *final(self) == (CodecSpecificInfo {
                vp9_inter_layer_predicted: inter_layer_predicted,
                ..*old(self)
            }),
    {
        self.vp9_inter_layer_predicted = inter_layer_predicted;
    }

    /// The H.264 packetization mode.
    pub fn h264_packetization_mode(&self) -> (r: H264PacketizationMode)
        ensures
            r == self.h264_packetization_mode,
    {
        self.h264_packetization_mode
    }

    /// Sets the H.264 packetization mode.
    pub fn set_h264_packetization_mode(&mut self, packetization_mode: H264PacketizationMode)
        ensures
            *final(self) == (CodecSpecificInfo {
                h264_packetization_mode: packetization_mode,
                ..*old(self)
            }),
    {
        self.h264_packetization_mode = packetization_mode;
    }

    /// The H.264 temporal layer index.
    pub fn h264_temporal_idx(&self) -> (r: i32)
        ensures
            r == self.h264_temporal_idx,
    {
        self.h264_temporal_idx
    }

    /// Sets the H.264 temporal layer index.
    pub fn set_h264_temporal_idx(&mut self, temporal_idx: i32)
        ensures
            *final(self) == (CodecSpecificInfo { h264_temporal_idx: temporal_idx, ..*old(self) }),
    {
        self.h264_temporal_idx = temporal_idx;
    }

    /// The H.264 base layer sync flag.
    pub fn h264_base_layer_sync(&self) -> (r: bool)
        ensures
            r == self.h264_base_layer_sync,
    {
        self.h264_base_layer_sync
    }

    /// Sets the H.264 base layer sync flag.
    pub fn set_h264_base_layer_sync(&mut self, base_layer_sync: bool)
        ensures
            *final(self) == (CodecSpecificInfo {
                h264_base_layer_sync: base_layer_sync,
                ..*old(self)
            }),
    {
        self.h264_base_layer_sync = base_layer_sync;
    }

    /// The H.264 IDR frame flag.
    pub fn h264_idr_frame(&self) -> (r: bool)
        ensures
            r == self.h264_idr_frame,
    {
        self.h264_idr_frame
    }

    /// Sets the H.264 IDR frame flag.
    pub fn set_h264_idr_frame(&mut self, idr_frame: bool)
        ensures
            *final(self) == (CodecSpecificInfo { h264_idr_frame: idr_frame, ..*old(self) }),
    {
        self.h264_idr_frame = idr_frame;
    }

    /// A borrow-only view of the side data.
    pub fn as_ref(&self) -> (r: CodecSpecificInfoRef<'_>)
        ensures
            r.spec_info() == *self,
    {
        CodecSpecificInfoRef { target: self }
    }
}

/// A borrowed view of codec-specific side data, the shape in which it
/// reaches callbacks.
pub struct CodecSpecificInfoRef<'a> {
    target: &'a CodecSpecificInfo,
}

impl<'a> CodecSpecificInfoRef<'a> {
    /// Wraps borrowed side data.
    pub fn from_raw(target: &'a CodecSpecificInfo) -> (r: CodecSpecificInfoRef<'a>)
        ensures
            r.spec_info() == *target,
    {
        CodecSpecificInfoRef { target }
    }

    /// The viewed side data.
    pub closed spec fn spec_info(self) -> CodecSpecificInfo {
        *self.target
    }

    /// The codec the side data belongs to.
    pub fn codec_type(&self) -> (r: VideoCodecType)
        ensures
            r == self.spec_info().codec_type,
    {
        self.target.codec_type
    }

    /// Whether this image ends its picture.
    pub fn end_of_picture(&self) -> (r: bool)
        ensures
            r == self.spec_info().end_of_picture,
    {
        self.target.end_of_picture
    }

    /// The H.264 packetization mode.
    pub fn h264_packetization_mode(&self) -> (r: H264PacketizationMode)
        ensures
            r == self.spec_info().h264_packetization_mode,
    {
        self.target.h264_packetization_mode
    }

    /// The H.264 temporal layer index.
    pub fn h264_temporal_idx(&self) -> (r: i32)
        ensures
            r == self.spec_info().h264_temporal_idx,
    {
        self.target.h264_temporal_idx
    }

    /// The H.264 base layer sync flag.
    pub fn h264_base_layer_sync(&self) -> (r: bool)
        ensures
            r == self.spec_info().h264_base_layer_sync,
    {
        self.target.h264_base_layer_sync
    }

    /// The H.264 IDR frame flag.
    pub fn h264_idr_frame(&self) -> (r: bool)
        ensures
            r == self.spec_info().h264_idr_frame,
    {
        self.target.h264_idr_frame
    }
}

/// The callbacks an encode-complete sink is built from. The one slot is
/// mandatory: a sink exists to receive images.
pub trait VideoEncoderEncodedImageCallbackCallbacks: Sized {
    /// Receives one encoded image, with its side data when present.
    fn on_encoded_image(
        &mut self,
        image: &EncodedImageRef<'_>,
        codec_specific_info: Option<&CodecSpecificInfoRef<'_>>,
    ) -> VideoEncoderEncodedImageCallbackResult;
}

/// One native call into an encode-complete sink, as the ghost call log
/// records it.
pub enum VideoEncoderEncodedImageCallbackCall {
    OnEncodedImage { image: EncodedImage, codec_specific_info: Option<CodecSpecificInfo> },
}

/// An encode-complete sink: the bundle the native side delivers encoded
/// images through.
pub struct VideoEncoderEncodedImageCallback<C: VideoEncoderEncodedImageCallbackCallbacks> {
    callbacks: C,
    lifecycle: BundleLifecycle,
    log: Ghost<Seq<VideoEncoderEncodedImageCallbackCall>>,
}

impl<C: VideoEncoderEncodedImageCallbackCallbacks> VideoEncoderEncodedImageCallback<C> {
    /// Whether the teardown slot has freed this registration.
    pub closed spec fn spec_freed(self) -> bool {
        self.lifecycle.freed
    }

    /// The lifecycle of this registration.
    pub closed spec fn spec_lifecycle(self) -> BundleLifecycle {
        self.lifecycle
    }

    /// Every dispatch so far, in native call order.
    pub closed spec fn spec_log(self) -> Seq<VideoEncoderEncodedImageCallbackCall> {
        self.log@
    }

    /// The held callbacks.
    pub closed spec fn spec_callbacks(self) -> C {
        self.callbacks
    }

    /// Registers a sink over the given callbacks.
    pub fn new_with_callbacks(callbacks: C) -> (r: VideoEncoderEncodedImageCallback<C>)
        ensures
            r.spec_callbacks() == callbacks,
            !r.spec_freed(),
            r.spec_log().len() == 0,
            crate::bundle::lifecycle_wf(r.spec_lifecycle()),
    {
        VideoEncoderEncodedImageCallback {
            callbacks,
            lifecycle: BundleLifecycle::register(),
            log: Ghost(Seq::empty()),
        }
    }

    /// The native address of the sink; never null.
    pub fn as_ptr(&self) -> (r: NativePtr)
        ensures
            r == (NativePtr { addr: 1 }),
    {
        NativePtr { addr: 1 }
    }

    /// The trampoline of the sink's one slot: delivers an image to the
    /// callback. After teardown no delivery reaches the callbacks and the
    /// default result is returned.
    pub fn on_encoded_image(
        &mut self,
        image: EncodedImageRef<'_>,
        codec_specific_info: Option<CodecSpecificInfoRef<'_>>,
    ) -> (r: VideoEncoderEncodedImageCallbackResult)
        ensures
            old(self).spec_freed() ==> *final(self) == *old(self) && r.spec_error()
                == VideoEncoderEncodedImageCallbackResultError::Success && r.spec_frame_id() == 0
                && !r.spec_drop_next_frame(),
            !old(self).spec_freed() ==> final(self).spec_log() == old(self).spec_log().push(
                (VideoEncoderEncodedImageCallbackCall::OnEncodedImage {
                    image: image.spec_image(),
                    codec_specific_info: match codec_specific_info {
                        Some(v) => Some(v.spec_info()),
                        None => None,
                    },
                }),
            ),
            final(self).spec_freed() == old(self).spec_freed(),
            final(self).spec_lifecycle() == old(self).spec_lifecycle(),
    {
        if self.lifecycle.freed {
            return VideoEncoderEncodedImageCallbackResult::new(
                VideoEncoderEncodedImageCallbackResultError::Success,
            );
        }
        proof {
            self.log@ = self.log@.push(
                VideoEncoderEncodedImageCallbackCall::OnEncodedImage {
                    image: image.spec_image(),
                    codec_specific_info: match &codec_specific_info {
                        Some(v) => Some(v.spec_info()),
                        None => None,
                    },
                },
            );
        }
        match codec_specific_info {
            Some(v) => self.callbacks.on_encoded_image(&image, Some(&v)),
            None => self.callbacks.on_encoded_image(&image, None),
        }
    }

    /// The reserved teardown slot: the one code path that frees this
    /// registration, effective exactly once.
    pub fn on_destroy(&mut self) -> (freed_now: bool)
        requires
            crate::bundle::lifecycle_wf(old(self).spec_lifecycle()),
        ensures
            freed_now == !old(self).spec_freed(),
            final(self).spec_freed(),
            final(self).spec_log() == old(self).spec_log(),
            final(self).spec_callbacks() == old(self).spec_callbacks(),
            crate::bundle::lifecycle_wf(final(self).spec_lifecycle()),
            final(self).spec_lifecycle().teardowns == 1,
    {
        self.lifecycle.on_destroy()
    }
}

} // verus!

verus! {

/// The callbacks a video encoder is built from. Every slot is optional:
/// a bundle marks the slots it fills, and dispatch serves the neutral
/// default for the rest.
pub trait VideoEncoderCallbacks: Sized {
    /// The encode-complete sink this encoder can have registered.
    type Sink;

    /// Initializes the encoder for a codec.
    fn init_encode(
        &mut self,
        codec: &VideoCodecRef<'_>,
        settings: &VideoEncoderSettingsRef<'_>,
    ) -> i32 {
        0
    }

    /// Encodes one frame; a registered sink is handed along for delivering
    /// output.
    fn encode(
        &mut self,
        frame: &VideoFrameRef<'_>,
        frame_types: Option<&VideoFrameTypeVectorRef<'_>>,
        sink: Option<&mut Self::Sink>,
    ) -> i32 {
        0
    }

    /// Told whether a sink is now registered.
    fn register_encode_complete_callback(&mut self, registered: bool) -> i32 {
        0
    }

    /// Releases encoder resources.
    fn release(&mut self) -> i32 {
        0
    }

    /// Applies new rate control parameters.
    fn set_rates(&mut self, parameters: &VideoEncoderRateControlParametersRef<'_>) {
    }

    /// Reports what the encoder is.
    fn get_encoder_info(&mut self) -> VideoEncoderEncoderInfo {
        VideoEncoderEncoderInfo::new()
    }
}

/// Which encoder slots a bundle fills; an unfilled slot is dispatched as
/// its neutral default.
#[derive(Clone, Copy, Debug, PartialEq, Eq, Structural, Default)]
pub struct VideoEncoderSlots {
    pub init_encode: bool,
    pub encode: bool,
    pub register_encode_complete_callback: bool,
    pub release: bool,
    pub set_rates: bool,
    pub get_encoder_info: bool,
}

impl VideoEncoderSlots {
    /// No slot filled.
    pub fn none() -> (r: VideoEncoderSlots)
        ensures
            r == (VideoEncoderSlots {
                init_encode: false,
                encode: false,
                register_encode_complete_callback: false,
                release: false,
                set_rates: false,
                get_encoder_info: false,
            }),
    {
        VideoEncoderSlots {
            init_encode: false,
            encode: false,
            register_encode_complete_callback: false,
            release: false,
            set_rates: false,
            get_encoder_info: false,
        }
    }
}

/// One native call into a video encoder, as the ghost call log records it.
pub enum VideoEncoderCall {
    InitEncode { codec: VideoCodec, settings: VideoEncoderSettings },
    Encode { frame: VideoFrame, frame_types: Option<Seq<VideoFrameType>> },
    RegisterEncodeCompleteCallback { registered: bool },
    Release,
    SetRates { parameters: VideoEncoderRateControlParameters },
    GetEncoderInfo,
}

/// A video encoder implemented by a callback bundle.
///
/// The bundle owns the callbacks, the registered encode-complete sink, its
/// lifecycle, and a ghost log of every dispatch in native call order.
pub struct VideoEncoder<C: VideoEncoderCallbacks> {
    callbacks: C,
    slots: VideoEncoderSlots,
    sink: Option<C::Sink>,
    lifecycle: BundleLifecycle,
    log: Ghost<Seq<VideoEncoderCall>>,
}

impl<C: VideoEncoderCallbacks> VideoEncoder<C> {
    /// The held callbacks.
    pub closed spec fn spec_callbacks(self) -> C {
        self.callbacks
    }

    /// Which slots the bundle fills.
    pub closed spec fn spec_slots(self) -> VideoEncoderSlots {
        self.slots
    }

    /// Whether a sink is registered.
    pub closed spec fn spec_has_sink(self) -> bool {
        self.sink is Some
    }

    /// Whether the teardown slot has freed this registration.
    pub closed spec fn spec_freed(self) -> bool {
        self.lifecycle.freed
    }

    /// The lifecycle of this registration.
    pub closed spec fn spec_lifecycle(self) -> BundleLifecycle {
        self.lifecycle
    }

    /// Every dispatch so far, in native call order.
    pub closed spec fn spec_log(self) -> Seq<VideoEncoderCall> {
        self.log@
    }

    /// Registers an encoder bundle: the callbacks, with the slots they
    /// fill. Absent slots dispatch as their neutral defaults.
    pub fn new_with_callbacks(callbacks: C, slots: VideoEncoderSlots) -> (r: VideoEncoder<C>)
        ensures
            r.spec_callbacks() == callbacks,
            r.spec_slots() == slots,
            !r.spec_has_sink(),
            !r.spec_freed(),
            r.spec_log().len() == 0,
            crate::bundle::lifecycle_wf(r.spec_lifecycle()),
    {
        VideoEncoder {
            callbacks,
            slots,
            sink: None,
            lifecycle: BundleLifecycle::register(),
            log: Ghost(Seq::empty()),
        }
    }

    /// The native address of the encoder; never null.
    pub fn as_ptr(&self) -> (r: NativePtr)
        ensures
            r == (NativePtr { addr: 1 }),
    {
        NativePtr { addr: 1 }
    }

    /// Forfeits ownership to a native consumer, such as a factory handing
    /// the encoder over.
    pub fn into_raw(self) -> (r: NativePtr)
        ensures
            r == (NativePtr { addr: 1 }),
    {
        NativePtr { addr: 1 }
    }

    /// The init trampoline. The native side passes no explicit settings
    /// here, so the callback observes the unspecified codec and settings;
    /// the log records exactly that.
    pub fn init_encode(&mut self) -> (r: i32)
        ensures
            old(self).spec_freed() ==> *final(self) == *old(self) && r == 0,
            !old(self).spec_freed() ==> final(self).spec_log() == old(self).spec_log().push(
                (VideoEncoderCall::InitEncode {
                    codec: (VideoCodec {
                        codec_type: VideoCodecType::Generic,
                        width: 0,
                        height: 0,
                        start_bitrate_kbps: 0,
                        max_bitrate_kbps: 0,
                        min_bitrate_kbps: 0,
                        max_framerate: 0,
                    }),
                    settings: (VideoEncoderSettings {
                        number_of_cores: 1,
                        max_payload_size: 1200,
                        loss_notification: false,
                        encoder_thread_limit: None,
                    }),
                }),
            ),
            final(self).spec_freed() == old(self).spec_freed(),
            final(self).spec_slots() == old(self).spec_slots(),
            final(self).spec_lifecycle() == old(self).spec_lifecycle(),
            !old(self).spec_freed() && !old(self).spec_slots().init_encode ==> r == 0
                && final(self).spec_callbacks() == old(self).spec_callbacks(),
    {
        if self.lifecycle.freed {
            return 0;
        }
        let codec = VideoCodec::unspecified();
        let settings = VideoEncoderSettings::unspecified();
        proof {
            self.log@ = self.log@.push(
                VideoEncoderCall::InitEncode { codec, settings },
            );
        }
        if self.slots.init_encode {
            let codec_ref = VideoCodecRef::from_raw(&codec);
            let settings_ref = VideoEncoderSettingsRef::from_raw(&settings);
            self.callbacks.init_encode(&codec_ref, &settings_ref)
        } else {
            0
        }
    }

    /// The encode trampoline for a frame without explicit frame types.
    pub fn encode(&mut self, frame: &VideoFrame) -> (r: i32)
        ensures
            old(self).spec_freed() ==> *final(self) == *old(self) && r == 0,
            !old(self).spec_freed() ==> final(self).spec_log() == old(self).spec_log().push(
                (VideoEncoderCall::Encode { frame: *frame, frame_types: None }),
            ),
            final(self).spec_freed() == old(self).spec_freed(),
            final(self).spec_slots() == old(self).spec_slots(),
            final(self).spec_lifecycle() == old(self).spec_lifecycle(),
            !old(self).spec_freed() && !old(self).spec_slots().encode ==> r == 0 && final(self).spec_callbacks() == old(self).spec_callbacks(),
    {
        self.encode_with_frame_types(frame, None)
    }

    /// The encode trampoline: wraps the frame and the requested frame
    /// types as borrowed views, dispatches the slot, and logs the call
    /// with the arguments exactly as they were handed over.
    pub fn encode_with_frame_types(
        &mut self,
        frame: &VideoFrame,
        frame_types: Option<VideoFrameTypeVectorRef<'_>>,
    ) -> (r: i32)
        ensures
            old(self).spec_freed() ==> *final(self) == *old(self) && r == 0,
            !old(self).spec_freed() ==> final(self).spec_log() == old(self).spec_log().push(
                (VideoEncoderCall::Encode {
                    frame: *frame,
                    frame_types: match frame_types {
                        Some(v) => Some(v@),
                        None => None,
                    },
                }),
            ),
            final(self).spec_freed() == old(self).spec_freed(),
            final(self).spec_slots() == old(self).spec_slots(),
            final(self).spec_lifecycle() == old(self).spec_lifecycle(),
            !old(self).spec_freed() && !old(self).spec_slots().encode ==> r == 0 && final(self).spec_callbacks() == old(self).spec_callbacks(),
    {
        if self.lifecycle.freed {
            return 0;
        }
        proof {
            self.log@ = self.log@.push(
                VideoEncoderCall::Encode {
                    frame: *frame,
                    frame_types: match &frame_types {
                        Some(v) => Some(v@),
                        None => None,
                    },
                },
            );
        }
        if self.slots.encode {
            let frame_ref = VideoFrameRef::from_raw(frame);
            match (&frame_types, &mut self.sink) {
                (Some(v), Some(s)) => self.callbacks.encode(&frame_ref, Some(v), Some(s)),
                (Some(v), None) => self.callbacks.encode(&frame_ref, Some(v), None),
                (None, Some(s)) => self.callbacks.encode(&frame_ref, None, Some(s)),
                (None, None) => self.callbacks.encode(&frame_ref, None, None),
            }
        } else {
            0
        }
    }

    /// The register trampoline: stores the sink — or clears it — and tells
    /// the callback whether one is now registered.
    pub fn register_encode_complete_callback(&mut self, callback: Option<C::Sink>) -> (r: i32)
        ensures
            old(self).spec_freed() ==> *final(self) == *old(self) && r == 0,
            !old(self).spec_freed() ==> final(self).spec_log() == old(self).spec_log().push(
                (VideoEncoderCall::RegisterEncodeCompleteCallback {
                    registered: callback is Some,
                }),
            ) && final(self).spec_has_sink() == (callback is Some),
            final(self).spec_freed() == old(self).spec_freed(),
            final(self).spec_slots() == old(self).spec_slots(),
            final(self).spec_lifecycle() == old(self).spec_lifecycle(),
            !old(self).spec_freed() && !old(self).spec_slots().register_encode_complete_callback
                ==> r == 0 && final(self).spec_callbacks() == old(self).spec_callbacks(),
    {
        if self.lifecycle.freed {
            return 0;
        }
        let registered = callback.is_some();
        self.sink = callback;
        proof {
            self.log@ = self.log@.push(
                VideoEncoderCall::RegisterEncodeCompleteCallback { registered },
            );
        }
        if self.slots.register_encode_complete_callback {
            self.callbacks.register_encode_complete_callback(registered)
        } else {
            0
        }
    }

    /// The release trampoline.
    pub fn release(&mut self) -> (r: i32)
        ensures
            old(self).spec_freed() ==> *final(self) == *old(self) && r == 0,
            !old(self).spec_freed() ==> final(self).spec_log() == old(self).spec_log().push(
                VideoEncoderCall::Release,
            ),
            final(self).spec_freed() == old(self).spec_freed(),
            final(self).spec_slots() == old(self).spec_slots(),
            final(self).spec_lifecycle() == old(self).spec_lifecycle(),
            !old(self).spec_freed() && !old(self).spec_slots().release ==> r == 0 && final(self).spec_callbacks() == old(self).spec_callbacks(),
    {
        if self.lifecycle.freed {
            return 0;
        }
        proof {
            self.log@ = self.log@.push(VideoEncoderCall::Release);
        }
        if self.slots.release {
            self.callbacks.release()
        } else {
            0
        }
    }

    /// The rate control trampoline. The native side passes no explicit
    /// parameters here, so the callback observes the unspecified
    /// parameters; the log records exactly that.
    pub fn set_rates(&mut self)
        ensures
            old(self).spec_freed() ==> *final(self) == *old(self),
            !old(self).spec_freed() ==> final(self).spec_log() == old(self).spec_log().push(
                (VideoEncoderCall::SetRates {
                    parameters: (VideoEncoderRateControlParameters {
                        framerate_fps: 30,
                        target_bitrate_sum_bps: 300000,
                        bitrate_sum_bps: 250000,
                        bandwidth_allocation_bps: 350000,
                    }),
                }),
            ),
            final(self).spec_freed() == old(self).spec_freed(),
            final(self).spec_slots() == old(self).spec_slots(),
            final(self).spec_lifecycle() == old(self).spec_lifecycle(),
            !old(self).spec_freed() && !old(self).spec_slots().set_rates ==> final(self).spec_callbacks() == old(self).spec_callbacks(),
    {
        if self.lifecycle.freed {
            return ;
        }
        let parameters = VideoEncoderRateControlParameters::unspecified();
        proof {
            self.log@ = self.log@.push(VideoEncoderCall::SetRates { parameters });
        }
        if self.slots.set_rates {
            let parameters_ref = VideoEncoderRateControlParametersRef::from_raw(&parameters);
            self.callbacks.set_rates(&parameters_ref);
        }
    }

    /// The info trampoline.
    pub fn get_encoder_info(&mut self) -> (r: VideoEncoderEncoderInfo)
        ensures
            old(self).spec_freed() ==> *final(self) == *old(self)
                && r.spec_implementation_name() == Seq::<char>::empty()
                && !r.spec_is_hardware_accelerated(),
            !old(self).spec_freed() ==> final(self).spec_log() == old(self).spec_log().push(
                VideoEncoderCall::GetEncoderInfo,
            ),
            final(self).spec_freed() == old(self).spec_freed(),
            final(self).spec_slots() == old(self).spec_slots(),
            final(self).spec_lifecycle() == old(self).spec_lifecycle(),
            !old(self).spec_freed() && !old(self).spec_slots().get_encoder_info ==> final(self).spec_callbacks() == old(self).spec_callbacks() && r.spec_implementation_name()
                == Seq::<char>::empty() && !r.spec_is_hardware_accelerated(),
    {
        if self.lifecycle.freed {
            return VideoEncoderEncoderInfo::new();
        }
        proof {
            self.log@ = self.log@.push(VideoEncoderCall::GetEncoderInfo);
        }
        if self.slots.get_encoder_info {
            self.callbacks.get_encoder_info()
        } else {
            VideoEncoderEncoderInfo::new()
        }
    }

    /// The reserved teardown slot: the one code path that frees this
    /// registration, effective exactly once. No later dispatch reaches the
    /// callbacks.
    pub fn on_destroy(&mut self) -> (freed_now: bool)
        requires
            crate::bundle::lifecycle_wf(old(self).spec_lifecycle()),
        ensures
            freed_now == !old(self).spec_freed(),
            final(self).spec_freed(),
            final(self).spec_log() == old(self).spec_log(),
            final(self).spec_callbacks() == old(self).spec_callbacks(),
            crate::bundle::lifecycle_wf(final(self).spec_lifecycle()),
            final(self).spec_lifecycle().teardowns == 1,
    {
        self.lifecycle.on_destroy()
    }
}

/// The callbacks a video encoder factory is built from.
pub trait VideoEncoderFactoryCallbacks: Sized {
    /// The callback type of the encoders this factory creates.
    type Encoder: VideoEncoderCallbacks;

    /// The formats the factory supports.
    fn get_supported_formats(&mut self) -> Vec<SdpVideoFormat> {
        Vec::new()
    }

    /// Creates an encoder for a format, or declines.
    fn create(
        &mut self,
        env: &EnvironmentRef<'_>,
        format: &SdpVideoFormatRef<'_>,
    ) -> Option<VideoEncoder<Self::Encoder>> {
        None
    }
}

/// Which factory slots a bundle fills.
#[derive(Clone, Copy, Debug, PartialEq, Eq, Structural, Default)]
pub struct VideoEncoderFactorySlots {
    pub get_supported_formats: bool,
    pub create: bool,
}

impl VideoEncoderFactorySlots {
    /// No slot filled.
    pub fn none() -> (r: VideoEncoderFactorySlots)
        ensures
            r == (VideoEncoderFactorySlots { get_supported_formats: false, create: false }),
    {
        VideoEncoderFactorySlots { get_supported_formats: false, create: false }
    }
}

/// One native call into a video encoder factory, as the ghost call log
/// records it.
pub enum VideoEncoderFactoryCall {
    GetSupportedFormats,
    Create { format_name: Seq<char> },
}

/// A video encoder factory implemented by a callback bundle.
pub struct VideoEncoderFactory<F: VideoEncoderFactoryCallbacks> {
    callbacks: F,
    slots: VideoEncoderFactorySlots,
    lifecycle: BundleLifecycle,
    log: Ghost<Seq<VideoEncoderFactoryCall>>,
}

/// The callbacks behind the builtin encoder factory: it accepts every
/// format and hands out an encoder with no slots filled, which serves
/// every call with its neutral default.
pub struct BuiltinVideoEncoderFactoryCallbacks;

/// The callbacks of an encoder the builtin factory creates: none.
pub struct BuiltinVideoEncoderCallbacks;

impl VideoEncoderCallbacks for BuiltinVideoEncoderCallbacks {
    type Sink = ();
}

impl VideoEncoderFactoryCallbacks for BuiltinVideoEncoderFactoryCallbacks {
    type Encoder = BuiltinVideoEncoderCallbacks;

    fn create(
        &mut self,
        env: &EnvironmentRef<'_>,
        format: &SdpVideoFormatRef<'_>,
    ) -> Option<VideoEncoder<BuiltinVideoEncoderCallbacks>> {
        Some(
            VideoEncoder::new_with_callbacks(
                BuiltinVideoEncoderCallbacks,
                VideoEncoderSlots::none(),
            ),
        )
    }
}

impl VideoEncoderFactory<BuiltinVideoEncoderFactoryCallbacks> {
    /// The builtin encoder factory.
    pub fn builtin() -> (r: VideoEncoderFactory<BuiltinVideoEncoderFactoryCallbacks>)
        ensures
            !r.spec_freed(),
            r.spec_log().len() == 0,
    {
        VideoEncoderFactory {
            callbacks: BuiltinVideoEncoderFactoryCallbacks,
            slots: VideoEncoderFactorySlots { get_supported_formats: false, create: true },
            lifecycle: BundleLifecycle::register(),
            log: Ghost(Seq::empty()),
        }
    }
}

impl<F: VideoEncoderFactoryCallbacks> VideoEncoderFactory<F> {
    /// The held callbacks.
    pub closed spec fn spec_callbacks(self) -> F {
        self.callbacks
    }

    /// Which slots the bundle fills.
    pub closed spec fn spec_slots(self) -> VideoEncoderFactorySlots {
        self.slots
    }

    /// Whether the teardown slot has freed this registration.
    pub closed spec fn spec_freed(self) -> bool {
        self.lifecycle.freed
    }

    /// The lifecycle of this registration.
    pub closed spec fn spec_lifecycle(self) -> BundleLifecycle {
        self.lifecycle
    }

    /// Every dispatch so far, in native call order.
    pub closed spec fn spec_log(self) -> Seq<VideoEncoderFactoryCall> {
        self.log@
    }

    /// Registers a factory bundle: the callbacks, with the slots they
    /// fill.
    pub fn new_with_callbacks(callbacks: F, slots: VideoEncoderFactorySlots) -> (r:
        VideoEncoderFactory<F>)
        ensures
            r.spec_callbacks() == callbacks,
            r.spec_slots() == slots,
            !r.spec_freed(),
            r.spec_log().len() == 0,
            crate::bundle::lifecycle_wf(r.spec_lifecycle()),
    {
        VideoEncoderFactory {
            callbacks,
            slots,
            lifecycle: BundleLifecycle::register(),
            log: Ghost(Seq::empty()),
        }
    }

    /// The native address of the factory; never null.
    pub fn as_ptr(&self) -> (r: NativePtr)
        ensures
            r == (NativePtr { addr: 1 }),
    {
        NativePtr { addr: 1 }
    }

    /// Forfeits ownership to a native consumer, such as the peer
    /// connection factory dependencies.
    pub fn into_raw(self) -> (r: NativePtr)
        ensures
            r == (NativePtr { addr: 1 }),
    {
        NativePtr { addr: 1 }
    }

    /// The create trampoline, from owned arguments.
    pub fn create(&mut self, env: &crate::api::environment::Environment, format: &SdpVideoFormat)
        -> (r: Option<VideoEncoder<F::Encoder>>)
        ensures
            old(self).spec_freed() ==> *final(self) == *old(self) && r is None,
            !old(self).spec_freed() ==> final(self).spec_log() == old(self).spec_log().push(
                (VideoEncoderFactoryCall::Create { format_name: format.spec_name() }),
            ),
            final(self).spec_freed() == old(self).spec_freed(),
            final(self).spec_slots() == old(self).spec_slots(),
            final(self).spec_lifecycle() == old(self).spec_lifecycle(),
            !old(self).spec_freed() && !old(self).spec_slots().create ==> r is None && final(self).spec_callbacks() == old(self).spec_callbacks(),
    {
        let env_ref = env.as_ref();
        let format_ref = format.as_ref();
        self.create_from_ref(env_ref, format_ref)
    }

    /// The create trampoline: wraps the environment and format as borrowed
    /// views and dispatches the slot; an unfilled slot declines.
    pub fn create_from_ref(
        &mut self,
        env: EnvironmentRef<'_>,
        format: SdpVideoFormatRef<'_>,
    ) -> (r: Option<VideoEncoder<F::Encoder>>)
        ensures
            old(self).spec_freed() ==> *final(self) == *old(self) && r is None,
            !old(self).spec_freed() ==> final(self).spec_log() == old(self).spec_log().push(
                (VideoEncoderFactoryCall::Create { format_name: format.spec_name() }),
            ),
            final(self).spec_freed() == old(self).spec_freed(),
            final(self).spec_slots() == old(self).spec_slots(),
            final(self).spec_lifecycle() == old(self).spec_lifecycle(),
            !old(self).spec_freed() && !old(self).spec_slots().create ==> r is None && final(self).spec_callbacks() == old(self).spec_callbacks(),
    {
        if self.lifecycle.freed {
            return None;
        }
        proof {
            self.log@ = self.log@.push(
                VideoEncoderFactoryCall::Create { format_name: format.spec_name() },
            );
        }
        if self.slots.create {
            self.callbacks.create(&env, &format)
        } else {
            None
        }
    }

    /// The supported-formats trampoline; an unfilled slot reports no
    /// formats.
    pub fn get_supported_formats(&mut self) -> (r: Vec<SdpVideoFormat>)
        ensures
            old(self).spec_freed() ==> *final(self) == *old(self) && r@.len() == 0,
            !old(self).spec_freed() ==> final(self).spec_log() == old(self).spec_log().push(
                VideoEncoderFactoryCall::GetSupportedFormats,
            ),
            final(self).spec_freed() == old(self).spec_freed(),
            final(self).spec_slots() == old(self).spec_slots(),
            final(self).spec_lifecycle() == old(self).spec_lifecycle(),
            !old(self).spec_freed() && !old(self).spec_slots().get_supported_formats ==> r@.len()
                == 0 && final(self).spec_callbacks() == old(self).spec_callbacks(),
    {
        if self.lifecycle.freed {
            return Vec::new();
        }
        proof {
            self.log@ = self.log@.push(VideoEncoderFactoryCall::GetSupportedFormats);
        }
        if self.slots.get_supported_formats {
            self.callbacks.get_supported_formats()
        } else {
            Vec::new()
        }
    }

    /// The reserved teardown slot: the one code path that frees this
    /// registration, effective exactly once.
    pub fn on_destroy(&mut self) -> (freed_now: bool)
        requires
            crate::bundle::lifecycle_wf(old(self).spec_lifecycle()),
        ensures
            freed_now == !old(self).spec_freed(),
            final(self).spec_freed(),
            final(self).spec_log() == old(self).spec_log(),
            final(self).spec_callbacks() == old(self).spec_callbacks(),
            crate::bundle::lifecycle_wf(final(self).spec_lifecycle()),
            final(self).spec_lifecycle().teardowns == 1,
    {
        self.lifecycle.on_destroy()
    }
}

} // verus!

use std::cell::RefCell;
use std::collections::HashMap;
use std::rc::Rc;

use webrtc_harness::{
    AdaptedVideoTrackSource, CodecSpecificInfo, CodecSpecificInfoRef, EncodedImage,
    EncodedImageBuffer, EncodedImageRef, Environment, H264PacketizationMode, I420Buffer,
    SdpVideoFormat, VideoCodecRef, VideoCodecType, VideoDecoder, VideoDecoderCallbacks,
    VideoDecoderDecoderInfo, VideoDecoderFactory, VideoDecoderFactoryCallbacks,
    VideoDecoderFactorySlots, VideoDecoderSettingsRef, VideoDecoderSlots, VideoEncoder,
    VideoEncoderCallbacks, VideoEncoderEncodedImageCallback,
    VideoEncoderEncodedImageCallbackCallbacks, VideoEncoderEncodedImageCallbackResult,
    VideoEncoderEncodedImageCallbackResultError, VideoEncoderFactory,
    VideoEncoderFactoryCallbacks, VideoEncoderFactorySlots,
    VideoEncoderRateControlParametersRef, VideoEncoderSettingsRef, VideoEncoderSlots, VideoFrame,
    VideoFrameRef, VideoFrameType, VideoFrameTypeVector, VideoFrameTypeVectorRef,
    SdpVideoFormatRef, EnvironmentRef, abgr_to_i420, i420_to_argb,
};

#[test]
fn sdp_video_format_with_parameters() {
    let mut fmt = SdpVideoFormat::new("VP8");
    {
        let params = fmt.parameters_mut();
        params.set("profile-id", "0");
        params.set("level", "3.1");
        assert_eq!(params.len(), 2);

        let mut found = HashMap::new();
        let mut it = params.iter();
        while let Some((k, v)) = it.next() {
            found.insert(k, v);
        }
        assert_eq!(found.get("profile-id").map(String::as_str), Some("0"));
        assert_eq!(found.get("level").map(String::as_str), Some("3.1"));
    }

    let mut other = SdpVideoFormat::new("VP8");
    {
        let params = other.parameters_mut();
        params.set("profile-id", "0");
        params.set("level", "3.1");
    }

    assert!(fmt.is_equal(&other));
}

#[test]
fn sdp_video_format_inequality_on_differing_parameters() {
    let mut fmt = SdpVideoFormat::new("VP8");
    fmt.parameters_mut().set("profile-id", "0");
    let mut other = SdpVideoFormat::new("VP8");
    other.parameters_mut().set("profile-id", "1");
    assert!(!fmt.is_equal(&other));
    let third = SdpVideoFormat::new("VP9");
    assert!(!SdpVideoFormat::new("VP8").is_equal(&third));
}

#[test]
fn i420_buffer_and_video_frame() {
    let mut buf = I420Buffer::new(4, 4);
    buf.fill_y(0x10);
    buf.fill_uv(0x80, 0x90);

    let frame = VideoFrame::from_i420(&buf, 12345);
    assert_eq!(frame.width(), 4);
    assert_eq!(frame.height(), 4);
    assert_eq!(frame.timestamp_us(), 12345);

    let copied = frame.buffer();
    assert_eq!(copied.y_data()[0], 0x10);
    assert_eq!(copied.u_data()[0], 0x80);
    assert_eq!(copied.v_data()[0], 0x90);
    assert_eq!(copied.y_data().len(), 16);
    assert_eq!(copied.u_data().len(), 4);
}

#[test]
fn abgr_to_i420_conversion() {
    let pixel = [0x20u8, 0x40, 0x80, 0xff];
    let mut src = Vec::new();
    for _ in 0..4 {
        src.extend_from_slice(&pixel);
    }
    let buf = abgr_to_i420(&src, 2, 2).expect("the conversion should succeed");
    assert!(buf.y_data().iter().all(|&v| v == buf.y_data()[0]));
    assert!(buf.u_data().iter().all(|&v| v == buf.u_data()[0]));
    assert!(buf.v_data().iter().all(|&v| v == buf.v_data()[0]));
}

#[test]
fn abgr_to_i420_rejects_short_input() {
    let src = [0u8; 7];
    assert!(abgr_to_i420(&src, 2, 2).is_none());
    assert!(abgr_to_i420(&src, 0, 2).is_none());
}

#[test]
fn yuv_formulas_hit_reference_values() {
    let white = [255u8, 255, 255, 255, 255, 255, 255, 255, 255, 255, 255, 255, 255, 255, 255,
        255];
    let buf = abgr_to_i420(&white, 2, 2).expect("the conversion should succeed");
    assert_eq!(buf.y_data()[0], 235);
    assert_eq!(buf.u_data()[0], 128);
    assert_eq!(buf.v_data()[0], 128);

    let black = [0u8; 16];
    let buf2 = abgr_to_i420(&black, 2, 2).expect("the conversion should succeed");
    assert_eq!(buf2.y_data()[0], 16);
    assert_eq!(buf2.u_data()[0], 128);
    assert_eq!(buf2.v_data()[0], 128);
}

#[test]
fn i420_to_argb_round_trips_extremes() {
    let mut buf = I420Buffer::new(2, 2);
    buf.fill_y(235);
    buf.fill_uv(128, 128);
    let out = i420_to_argb(&buf).expect("the conversion should succeed");
    assert_eq!(out.len(), 16);
    assert_eq!(out[0], 255);
    assert_eq!(out[1], 255);
    assert_eq!(out[2], 255);
    assert_eq!(out[3], 255);
}

#[test]
fn adapted_video_track_source() {
    let mut src = AdaptedVideoTrackSource::new();
    let adapted = src.adapt_frame(640, 480, 1_000_000);
    assert!(adapted.size.adapted_width >= 0);
    assert!(adapted.size.adapted_height >= 0);

    let buf = I420Buffer::new(2, 2);
    let frame = VideoFrame::from_i420(&buf, 2_000_000);
    src.on_frame(&frame);
    assert_eq!(src.frame_count(), 1);
}

struct CountingEncoder {
    encode_count: i32,
}

impl VideoEncoderCallbacks for CountingEncoder {
    type Sink = ();

    fn encode(
        &mut self,
        _frame: &VideoFrameRef<'_>,
        frame_types: Option<&VideoFrameTypeVectorRef<'_>>,
        _sink: Option<&mut ()>,
    ) -> i32 {
        let frame_types = frame_types.expect("the frame types should be handed over");
        assert_eq!(frame_types.len(), 2);
        assert_eq!(frame_types.get(0), Some(VideoFrameType::Key));
        assert_eq!(frame_types.get(1), Some(VideoFrameType::Delta));
        self.encode_count += 1;
        self.encode_count
    }
}

struct CreateOnceEncoderFactory {
    created: bool,
}

impl VideoEncoderFactoryCallbacks for CreateOnceEncoderFactory {
    type Encoder = CountingEncoder;

    fn create(
        &mut self,
        env: &EnvironmentRef<'_>,
        format: &SdpVideoFormatRef<'_>,
    ) -> Option<VideoEncoder<CountingEncoder>> {
        assert!(!env.as_ptr().is_null());
        assert_eq!(format.name().expect("the format name should convert"), "VP8");
        if self.created {
            return None;
        }
        self.created = true;
        Some(VideoEncoder::new_with_callbacks(
            CountingEncoder { encode_count: 0 },
            VideoEncoderSlots { encode: true, ..Default::default() },
        ))
    }
}

#[test]
fn custom_video_encoder_factory_create_and_encode_calls_callbacks() {
    let mut factory = VideoEncoderFactory::new_with_callbacks(
        CreateOnceEncoderFactory { created: false },
        VideoEncoderFactorySlots { create: true, ..Default::default() },
    );

    let env = Environment::new();
    let format = SdpVideoFormat::new("VP8");
    let mut encoder = factory.create(&env, &format).expect("the first create should succeed");

    let buffer = I420Buffer::new(2, 2);
    let frame = VideoFrame::from_i420(&buffer, 123);
    let mut frame_types = VideoFrameTypeVector::new(0);
    frame_types.push(VideoFrameType::Key);
    frame_types.push(VideoFrameType::Delta);

    assert_eq!(encoder.encode_with_frame_types(&frame, Some(frame_types.as_ref())), 1);
    assert_eq!(encoder.encode_with_frame_types(&frame, Some(frame_types.as_ref())), 2);
    assert!(factory.create(&env, &format).is_none(), "the second create should decline");
}

#[derive(Default)]
struct CallOrder {
    register_called: bool,
    encode_called: bool,
    on_encoded_image_called: bool,
    order: Vec<&'static str>,
}

struct DeliveringEncoder {
    state: Rc<RefCell<CallOrder>>,
}

struct RecordingSink {
    state: Rc<RefCell<CallOrder>>,
}

impl VideoEncoderEncodedImageCallbackCallbacks for RecordingSink {
    fn on_encoded_image(
        &mut self,
        image: &EncodedImageRef<'_>,
        codec_specific_info: Option<&CodecSpecificInfoRef<'_>>,
    ) -> VideoEncoderEncodedImageCallbackResult {
        let mut state = self.state.borrow_mut();
        state.on_encoded_image_called = true;
        state.order.push("on_encoded_image");
        assert!(image.encoded_data().is_none());
        assert!(codec_specific_info.is_none(), "no side data is expected");
        VideoEncoderEncodedImageCallbackResult::new(
            VideoEncoderEncodedImageCallbackResultError::Success,
        )
    }
}

impl VideoEncoderCallbacks for DeliveringEncoder {
    type Sink = VideoEncoderEncodedImageCallback<RecordingSink>;

    fn register_encode_complete_callback(&mut self, registered: bool) -> i32 {
        assert!(registered, "a sink should be registered");
        let mut state = self.state.borrow_mut();
        state.register_called = true;
        state.order.push("register");
        0
    }

    fn encode(
        &mut self,
        _frame: &VideoFrameRef<'_>,
        _frame_types: Option<&VideoFrameTypeVectorRef<'_>>,
        sink: Option<&mut VideoEncoderEncodedImageCallback<RecordingSink>>,
    ) -> i32 {
        {
            let mut state = self.state.borrow_mut();
            state.encode_called = true;
            state.order.push("encode");
        }
        let sink = sink.expect("the registered sink should be handed over");
        let image = EncodedImage::new();
        let result = sink.on_encoded_image(image.as_ref(), None);
        assert_eq!(result.error(), VideoEncoderEncodedImageCallbackResultError::Success);
        77
    }
}

#[test]
fn custom_video_encoder_register_and_encode_calls_encoded_image_callback() {
    let state = Rc::new(RefCell::new(CallOrder::default()));

    let mut encoder = VideoEncoder::new_with_callbacks(
        DeliveringEncoder { state: Rc::clone(&state) },
        VideoEncoderSlots {
            encode: true,
            register_encode_complete_callback: true,
            ..Default::default()
        },
    );

    let encoded_image_callback = VideoEncoderEncodedImageCallback::new_with_callbacks(
        RecordingSink { state: Rc::clone(&state) },
    );

    assert_eq!(encoder.register_encode_complete_callback(Some(encoded_image_callback)), 0);

    let buffer = I420Buffer::new(2, 2);
    let frame = VideoFrame::from_i420(&buffer, 123);
    assert_eq!(encoder.encode(&frame), 77);

    let state = state.borrow();
    assert!(state.register_called, "the register slot should have run");
    assert!(state.encode_called, "the encode slot should have run");
    assert!(state.on_encoded_image_called, "the sink should have run");
    assert_eq!(state.order, vec!["register", "encode", "on_encoded_image"]);
}

struct PayloadSink {
    state: Rc<RefCell<CallOrder>>,
}

impl VideoEncoderEncodedImageCallbackCallbacks for PayloadSink {
    fn on_encoded_image(
        &mut self,
        image: &EncodedImageRef<'_>,
        codec_specific_info: Option<&CodecSpecificInfoRef<'_>>,
    ) -> VideoEncoderEncodedImageCallbackResult {
        let mut state = self.state.borrow_mut();
        state.on_encoded_image_called = true;
        state.order.push("on_encoded_image");

        let encoded_data = image.encoded_data().expect("the payload should be set");
        assert_eq!(encoded_data.data(), [1, 2, 3, 4]);
        assert_eq!(encoded_data.data().len(), 4);
        assert_eq!(image.rtp_timestamp(), 12345);
        assert_eq!(image.encoded_width(), 640);
        assert_eq!(image.encoded_height(), 360);
        assert_eq!(image.frame_type(), VideoFrameType::Key);
        assert_eq!(image.qp(), 31);

        let codec_specific_info = codec_specific_info.expect("the side data should be set");
        assert_eq!(codec_specific_info.codec_type(), VideoCodecType::H264);
        assert!(codec_specific_info.end_of_picture());
        assert_eq!(
            codec_specific_info.h264_packetization_mode(),
            H264PacketizationMode::SingleNalUnit,
        );
        assert_eq!(codec_specific_info.h264_temporal_idx(), 2);
        assert!(codec_specific_info.h264_base_layer_sync());
        assert!(codec_specific_info.h264_idr_frame());
        VideoEncoderEncodedImageCallbackResult::new_with_frame_id(
            VideoEncoderEncodedImageCallbackResultError::Success,
            9999,
        )
    }
}

struct PayloadEncoder {
    state: Rc<RefCell<CallOrder>>,
}

impl VideoEncoderCallbacks for PayloadEncoder {
    type Sink = VideoEncoderEncodedImageCallback<PayloadSink>;

    fn register_encode_complete_callback(&mut self, registered: bool) -> i32 {
        assert!(registered);
        let mut state = self.state.borrow_mut();
        state.register_called = true;
        state.order.push("register");
        0
    }

    fn encode(
        &mut self,
        _frame: &VideoFrameRef<'_>,
        _frame_types: Option<&VideoFrameTypeVectorRef<'_>>,
        sink: Option<&mut VideoEncoderEncodedImageCallback<PayloadSink>>,
    ) -> i32 {
        {
            let mut state = self.state.borrow_mut();
            state.encode_called = true;
            state.order.push("encode");
        }
        let sink = sink.expect("the registered sink should be handed over");

        let buffer = EncodedImageBuffer::from_bytes(&[1, 2, 3, 4]);
        let mut image = EncodedImage::new();
        image.set_encoded_data(&buffer);
        image.set_rtp_timestamp(12345);
        image.set_encoded_width(640);
        image.set_encoded_height(360);
        image.set_frame_type(VideoFrameType::Key);
        image.set_qp(31);

        let mut codec_specific_info = CodecSpecificInfo::new();
        codec_specific_info.set_codec_type(VideoCodecType::H264);
        codec_specific_info.set_end_of_picture(true);
        codec_specific_info.set_h264_packetization_mode(H264PacketizationMode::SingleNalUnit);
        codec_specific_info.set_h264_temporal_idx(2);
        codec_specific_info.set_h264_base_layer_sync(true);
        codec_specific_info.set_h264_idr_frame(true);

        let result = sink.on_encoded_image(image.as_ref(), Some(codec_specific_info.as_ref()));
        assert_eq!(result.error(), VideoEncoderEncodedImageCallbackResultError::Success);
        assert_eq!(result.frame_id(), 9999);
        assert!(!result.drop_next_frame());
        88
    }
}

#[test]
fn custom_video_encoder_register_and_encode_calls_encoded_image_and_codec_specific_info() {
    let state = Rc::new(RefCell::new(CallOrder::default()));

    let mut encoder = VideoEncoder::new_with_callbacks(
        PayloadEncoder { state: Rc::clone(&state) },
        VideoEncoderSlots {
            encode: true,
            register_encode_complete_callback: true,
            ..Default::default()
        },
    );

    let encoded_image_callback = VideoEncoderEncodedImageCallback::new_with_callbacks(
        PayloadSink { state: Rc::clone(&state) },
    );

    assert_eq!(encoder.register_encode_complete_callback(Some(encoded_image_callback)), 0);

    let buffer = I420Buffer::new(2, 2);
    let frame = VideoFrame::from_i420(&buffer, 123);
    assert_eq!(encoder.encode(&frame), 88);

    let state = state.borrow();
    assert!(state.register_called, "the register slot should have run");
    assert!(state.encode_called, "the encode slot should have run");
    assert!(state.on_encoded_image_called, "the sink should have run");
    assert_eq!(state.order, vec!["register", "encode", "on_encoded_image"]);
}

struct CountingDecoder {
    decode_count: i32,
}

impl VideoDecoderCallbacks for CountingDecoder {
    fn decode(&mut self, input_image: Option<&EncodedImageRef<'_>>, render_time_ms: i64) -> i32 {
        assert!(input_image.is_none());
        assert_eq!(render_time_ms, 456);
        self.decode_count += 1;
        self.decode_count
    }
}

struct CreateOnceDecoderFactory {
    created: bool,
}

impl VideoDecoderFactoryCallbacks for CreateOnceDecoderFactory {
    type Decoder = CountingDecoder;

    fn create(
        &mut self,
        env: &EnvironmentRef<'_>,
        _format: &SdpVideoFormatRef<'_>,
    ) -> Option<VideoDecoder<CountingDecoder>> {
        assert!(!env.as_ptr().is_null());
        if self.created {
            return None;
        }
        self.created = true;
        Some(VideoDecoder::new_with_callbacks(
            CountingDecoder { decode_count: 0 },
            VideoDecoderSlots { decode: true, ..Default::default() },
        ))
    }
}

#[test]
fn custom_video_decoder_factory_create_and_decode_calls_callbacks() {
    let mut factory = VideoDecoderFactory::new_with_callbacks(
        CreateOnceDecoderFactory { created: false },
        VideoDecoderFactorySlots { create: true, ..Default::default() },
    );

    let env = Environment::new();
    let format = SdpVideoFormat::new("VP8");
    let mut decoder = factory.create(&env, &format).expect("the first create should succeed");

    assert_eq!(decoder.decode(None, 456), 1);
    assert_eq!(decoder.decode(None, 456), 2);
    assert!(factory.create(&env, &format).is_none(), "the second create should decline");
}

struct RateCheckingEncoder {
    set_rates_called: Rc<RefCell<bool>>,
}

impl VideoEncoderCallbacks for RateCheckingEncoder {
    type Sink = ();

    fn init_encode(
        &mut self,
        codec: &VideoCodecRef<'_>,
        settings: &VideoEncoderSettingsRef<'_>,
    ) -> i32 {
        assert_eq!(codec.codec_type(), VideoCodecType::Generic);
        assert_eq!(codec.width(), 0);
        assert_eq!(codec.height(), 0);
        assert_eq!(settings.number_of_cores(), 1);
        assert_eq!(settings.max_payload_size(), 1200);
        assert!(!settings.loss_notification());
        assert_eq!(settings.encoder_thread_limit(), None);
        123
    }

    fn set_rates(&mut self, parameters: &VideoEncoderRateControlParametersRef<'_>) {
        assert_eq!(parameters.framerate_fps(), 30);
        assert_eq!(parameters.target_bitrate_sum_bps(), 300_000);
        assert_eq!(parameters.bitrate_sum_bps(), 250_000);
        assert_eq!(parameters.bandwidth_allocation_bps(), 350_000);
        *self.set_rates_called.borrow_mut() = true;
    }
}

#[test]
fn custom_video_encoder_init_encode_and_set_rates_callbacks_getters() {
    let set_rates_called = Rc::new(RefCell::new(false));
    let mut encoder = VideoEncoder::new_with_callbacks(
        RateCheckingEncoder { set_rates_called: Rc::clone(&set_rates_called) },
        VideoEncoderSlots { init_encode: true, set_rates: true, ..Default::default() },
    );

    assert_eq!(encoder.init_encode(), 123);
    encoder.set_rates();
    assert!(*set_rates_called.borrow(), "the rate control slot should have run");
}

struct ConfigureCheckingDecoder;

impl VideoDecoderCallbacks for ConfigureCheckingDecoder {
    fn configure(&mut self, settings: &VideoDecoderSettingsRef<'_>) -> bool {
        assert_eq!(settings.number_of_cores(), 1);
        assert_eq!(settings.codec_type(), VideoCodecType::Generic);
        assert_eq!(settings.buffer_pool_size(), None);
        assert_eq!(settings.max_render_resolution_width(), 0);
        assert_eq!(settings.max_render_resolution_height(), 0);
        false
    }
}

#[test]
fn custom_video_decoder_configure_callback_getters() {
    let mut decoder = VideoDecoder::new_with_callbacks(
        ConfigureCheckingDecoder,
        VideoDecoderSlots { configure: true, ..Default::default() },
    );

    assert!(!decoder.configure());
}

struct NamedInfoDecoder {
    expected: String,
}

impl VideoDecoderCallbacks for NamedInfoDecoder {
    fn get_decoder_info(&mut self) -> VideoDecoderDecoderInfo {
        let mut info = VideoDecoderDecoderInfo::new();
        info.set_implementation_name(&self.expected);
        info.set_is_hardware_accelerated(false);
        info
    }
}

#[test]
fn custom_video_decoder_get_decoder_info_name_experiment() {
    let expected = "decoder-info-name-".repeat(128);
    let mut decoder = VideoDecoder::new_with_callbacks(
        NamedInfoDecoder { expected: expected.clone() },
        VideoDecoderSlots { get_decoder_info: true, ..Default::default() },
    );

    for _ in 0..100 {
        let info = decoder.get_decoder_info();
        assert_eq!(
            info.implementation_name().expect("the name should convert"),
            expected,
            "the reported implementation name should be stable",
        );
        assert!(!info.is_hardware_accelerated());
    }
}

struct AbsentSlots;

impl VideoEncoderCallbacks for AbsentSlots {
    type Sink = ();
}

#[test]
fn encoder_with_all_slots_absent_serves_every_default() {
    let mut encoder = VideoEncoder::new_with_callbacks(AbsentSlots, VideoEncoderSlots::none());
    let buffer = I420Buffer::new(2, 2);
    let frame = VideoFrame::from_i420(&buffer, 1);

    assert_eq!(encoder.init_encode(), 0);
    assert_eq!(encoder.encode(&frame), 0);
    assert_eq!(encoder.register_encode_complete_callback(None), 0);
    assert_eq!(encoder.release(), 0);
    encoder.set_rates();
    let info = encoder.get_encoder_info();
    assert_eq!(info.implementation_name().expect("the name should convert"), "");
    assert!(!info.is_hardware_accelerated());
}

struct StrictCounter {
    state: Rc<RefCell<(i32, bool)>>,
}

impl VideoEncoderCallbacks for StrictCounter {
    type Sink = ();

    fn encode(
        &mut self,
        _frame: &VideoFrameRef<'_>,
        _frame_types: Option<&VideoFrameTypeVectorRef<'_>>,
        _sink: Option<&mut ()>,
    ) -> i32 {
        let mut state = self.state.borrow_mut();
        assert!(!state.1, "a freed bundle must never reach its callbacks");
        state.0 += 1;
        state.0
    }
}

#[test]
fn counter_callback_then_teardown_makes_no_further_calls() {
    let state = Rc::new(RefCell::new((0, false)));
    let mut encoder = VideoEncoder::new_with_callbacks(
        StrictCounter { state: Rc::clone(&state) },
        VideoEncoderSlots { encode: true, ..Default::default() },
    );
    let buffer = I420Buffer::new(2, 2);
    let frame = VideoFrame::from_i420(&buffer, 1);

    assert_eq!(encoder.encode(&frame), 1);
    assert_eq!(encoder.encode(&frame), 2);
    assert_eq!(encoder.encode(&frame), 3);

    let freed_now = encoder.on_destroy();
    assert!(freed_now);
    state.borrow_mut().1 = true;

    assert_eq!(encoder.encode(&frame), 0);
    assert_eq!(encoder.init_encode(), 0);
    assert!(!encoder.on_destroy());
    assert_eq!(state.borrow().0, 3, "exactly three calls should have reached the callback");
}

#[test]
fn nv12_to_i420_copies_planes() {
    let src_y = [10u8, 11, 12, 13];
    let src_uv = [70u8, 80];
    let buf = webrtc_harness::nv12_to_i420(&src_y, 2, &src_uv, 2, 2, 2)
        .expect("the conversion should succeed");
    assert_eq!(buf.y_data(), [10, 11, 12, 13]);
    assert_eq!(buf.u_data(), [70]);
    assert_eq!(buf.v_data(), [80]);

    assert!(webrtc_harness::nv12_to_i420(&src_y, 1, &src_uv, 2, 2, 2).is_none());
    assert!(webrtc_harness::nv12_to_i420(&src_y[..3], 2, &src_uv, 2, 2, 2).is_none());
}

#[test]
fn yuy2_to_i420_unpacks_macropixels() {
    let src = [1u8, 50, 2, 60, 3, 51, 4, 61];
    let buf = webrtc_harness::yuy2_to_i420(&src, 4, 2, 2).expect("the conversion should succeed");
    assert_eq!(buf.y_data(), [1, 2, 3, 4]);
    assert_eq!(buf.u_data(), [50]);
    assert_eq!(buf.v_data(), [60]);

    assert!(webrtc_harness::yuy2_to_i420(&src, 3, 2, 2).is_none());
    assert!(webrtc_harness::yuy2_to_i420(&src[..7], 4, 2, 2).is_none());
}

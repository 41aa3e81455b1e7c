use webrtc_harness::{
    CxxString, DegradationPreference, IceServer, IceServerVector, IceTransportsType, MediaType,
    PeerConnectionOfferAnswerOptions, PeerConnectionRtcConfiguration, Resolution, RtpCodec,
    RtpCodecCapability, RtpCodecCapabilityVector, RtpEncodingParameters,
    RtpEncodingParametersVector, RtpParameters, RtpTransceiverDirection, RtpTransceiverInit,
};

#[test]
fn rtc_configuration_and_ice_server() {
    let mut config = PeerConnectionRtcConfiguration::new();
    config.set_type(IceTransportsType::Relay);
    let mut server = IceServer::new();
    server.set_username("user");
    server.set_password("pass");
    server.add_url("stun:192.0.2.1:3478");

    {
        let servers = config.servers();
        let len_before = servers.len();
        servers.push(&server);
        assert_eq!(servers.len(), len_before + 1);
    }

    let mut owned = IceServerVector::new(0);
    let len_before = owned.len();
    owned.push(&server);
    assert_eq!(owned.len(), len_before + 1);
    assert!(owned.get(0).is_some());
    assert!(owned.get(1).is_none());
}

#[test]
fn rtp_codec_capability_vector() {
    let mut cap = RtpCodecCapability::new();
    cap.set_kind(MediaType::Audio);
    cap.set_name("opus");
    cap.set_clock_rate(Some(48_000));
    {
        let params = cap.parameters();
        params.set("stereo", "1");
        let mut it = params.iter();
        let mut found = false;
        while let Some((k, v)) = it.next() {
            if k == "stereo" && v == "1" {
                found = true;
            }
        }
        assert!(found);
    }

    let mut vec = RtpCodecCapabilityVector::new(0);
    let len_before = vec.len();
    vec.push(&cap);
    assert_eq!(vec.len(), len_before + 1);
    vec.resize(2);
    let mut cap2 = RtpCodecCapability::new();
    cap2.set_kind(MediaType::Audio);
    cap2.set_name("PCMU");
    cap2.set_clock_rate(Some(8_000));
    assert!(vec.set(1, &cap2));
    assert_eq!(vec.len(), 2);
    let first = vec.get(0).expect("entry 0 should exist");
    let second = vec.get(1).expect("entry 1 should exist");
    assert_eq!(first.name().expect("the first name should convert"), "opus");
    assert_eq!(second.name().expect("the second name should convert"), "PCMU");
}

#[test]
fn rtp_encoding_parameters_and_transceiver_init() {
    let mut codec = RtpCodec::new();
    codec.set_kind(MediaType::Audio);
    codec.set_name("opus");
    codec.set_clock_rate(Some(48_000));
    codec.set_num_channels(Some(2));

    let mut enc = RtpEncodingParameters::new();
    enc.set_rid("f");
    enc.set_ssrc(Some(1234));
    enc.set_max_bitrate_bps(Some(1_500_000));
    enc.set_min_bitrate_bps(Some(100_000));
    enc.set_max_framerate(Some(30));
    enc.set_scale_resolution_down_by(Some(2));
    let mut resolution = Resolution::new();
    resolution.set_width(960);
    resolution.set_height(540);
    enc.set_scale_resolution_down_to(Some(&resolution));
    enc.set_active(false);
    enc.set_adaptive_ptime(true);
    enc.set_scalability_mode(Some("L1T3"));
    enc.set_codec(Some(&codec));
    assert_eq!(enc.rid().expect("the rid should convert"), "f");
    assert_eq!(enc.ssrc(), Some(1234));
    assert_eq!(enc.max_bitrate_bps(), Some(1_500_000));
    assert_eq!(enc.min_bitrate_bps(), Some(100_000));
    assert_eq!(enc.max_framerate(), Some(30));
    assert_eq!(enc.scale_resolution_down_by(), Some(2));
    let got_resolution = enc.scale_resolution_down_to().expect("the resolution should be set");
    assert_eq!(got_resolution.width(), 960);
    assert_eq!(got_resolution.height(), 540);
    assert!(!enc.active());
    assert!(enc.adaptive_ptime());
    assert_eq!(
        enc.scalability_mode().expect("the mode should be set").expect(
            "the mode should convert",
        ),
        "L1T3".to_string(),
    );
    {
        let enc_codec = enc.codec().expect("the codec should be set");
        assert_eq!(enc_codec.name().expect("the codec name should convert"), "opus");
        assert_eq!(enc_codec.clock_rate(), Some(48_000));
        assert_eq!(enc_codec.num_channels(), Some(2));
    }
    enc.set_scalability_mode(None);
    assert!(enc.scalability_mode().is_none());
    enc.set_codec(None);
    assert!(enc.codec().is_none());

    let mut vec = RtpEncodingParametersVector::new(0);
    vec.push(&enc);
    assert_eq!(vec.len(), 1);
    vec.resize(2);
    let mut enc2 = RtpEncodingParameters::new();
    enc2.set_rid("h");
    assert!(vec.set(1, &enc2));
    assert_eq!(vec.len(), 2);
    let cloned = vec.clone_self();
    assert_eq!(cloned.len(), vec.len());

    let mut init = RtpTransceiverInit::new();
    init.set_direction(RtpTransceiverDirection::SendOnly);
    init.set_send_encodings(&vec);
    let stream_ids = init.stream_ids();
    stream_ids.push(&CxxString::from_str("stream-1"));
    assert_eq!(stream_ids.len(), 1);

    let mut offer = PeerConnectionOfferAnswerOptions::new();
    offer.set_offer_to_receive_audio(1);
    offer.set_offer_to_receive_video(1);
    offer.set_voice_activity_detection(true);
    offer.set_ice_restart(false);
    offer.set_use_rtp_mux(true);
    offer.set_raw_packetization_for_video(false);
    offer.set_num_simulcast_layers(0);
    offer.set_use_obsolete_sctp_sdp(false);
    assert_eq!(offer.offer_to_receive_audio(), 1);
    assert_eq!(offer.offer_to_receive_video(), 1);
    assert!(offer.voice_activity_detection());
    assert!(offer.use_rtp_mux());
}

#[test]
fn rtp_parameters_round_trip() {
    let mut params = RtpParameters::new();
    params.set_transaction_id("tx-1");
    params.set_mid("video-0");
    assert_eq!(params.transaction_id().expect("the id should convert"), "tx-1");
    assert_eq!(params.mid().expect("the mid should convert"), "video-0");

    let mut enc = RtpEncodingParameters::new();
    enc.set_rid("r0");
    enc.set_max_bitrate_bps(Some(500_000));
    let mut encodings = RtpEncodingParametersVector::new(0);
    encodings.push(&enc);
    params.set_encodings(&encodings);

    let got = params.encodings();
    assert_eq!(got.len(), 1);
    let first = got.get(0).expect("the encoding should exist");
    assert_eq!(first.rid().expect("the rid should convert"), "r0");

    params.set_degradation_preference(Some(DegradationPreference::Balanced));
    assert_eq!(params.degradation_preference(), Some(DegradationPreference::Balanced));
    params.set_degradation_preference(None);
    assert_eq!(params.degradation_preference(), None);
}

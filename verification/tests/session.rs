use webrtc_harness::{
    Error, IceCandidate, MediaType, SdpType, SessionDescription, Thread, TimestampAligner,
    thread_sleep_ms,
};

#[test]
fn sdp_type_round_trip() {
    let offer = SdpType::Offer;
    let val = offer.to_int();
    let back = SdpType::from_int(val);
    assert_eq!(back, SdpType::Offer);
}

#[test]
fn media_type_constants() {
    assert_eq!(MediaType::from_int(MediaType::Audio.to_int()), MediaType::Audio);
    assert_eq!(MediaType::from_int(MediaType::Video.to_int()), MediaType::Video);
}

#[test]
fn session_description_to_string() {
    let sdp = "v=0\r\n\
                   o=- 0 0 IN IP4 127.0.0.1\r\n\
                   s=-\r\n\
                   t=0 0\r\n\
                   a=group:BUNDLE 0\r\n\
                   m=application 9 UDP/DTLS/SCTP webrtc-datachannel\r\n\
                   c=IN IP4 0.0.0.0\r\n\
                   a=mid:0\r\n\
                   a=sctp-port:5000\r\n\
                   a=max-message-size:262144\r\n";
    let desc = SessionDescription::new(SdpType::Offer, sdp)
        .expect("the session description should parse");
    assert_eq!(desc.sdp_type(), SdpType::Offer);
    let out = desc.to_string().expect("the SDP should serialize");
    assert!(out.contains("m=application"), "the SDP should keep the application m-section");
}

#[test]
fn session_description_rejects_text_without_version_line() {
    match SessionDescription::new(SdpType::Offer, "hello") {
        Err(Error::NullPointer(_)) => {},
        _ => panic!("text without a version line must be rejected"),
    }
}

#[test]
fn ice_candidate_round_trip_and_rejection() {
    let candidate = IceCandidate::new(
        "0",
        0,
        "candidate:1 1 udp 2122260223 192.0.2.1 54400 typ host",
    )
        .expect("the candidate should parse");
    assert_eq!(candidate.sdp_mid().expect("the mid should convert"), "0");
    assert_eq!(candidate.sdp_mline_index(), 0);
    assert!(
        candidate.to_string().expect("the text should serialize").starts_with("candidate:"),
    );

    match IceCandidate::new("0", 0, "not a candidate") {
        Err(Error::SdpParseError(e)) => {
            assert!(e.description().expect("the description should convert").len() > 0);
        },
        _ => panic!("text without the candidate prefix must be rejected"),
    }
}

#[test]
fn timestamp_aligner_translates() {
    let mut aligner = TimestampAligner::new();
    let base = aligner.translate(1_000_000, 2_000_000);
    let later = aligner.translate(2_000_000, 3_000_000);
    assert!(later >= base, "translated timestamps must not go backwards");
}

#[test]
fn timestamp_aligner_clips_monotonically() {
    let mut aligner = TimestampAligner::new();
    let first = aligner.translate(10, 5_000);
    assert_eq!(first, 5_000);
    let second = aligner.translate(20, 4_000);
    assert_eq!(second, 5_001);
    let third = aligner.translate(30, 9_000);
    assert_eq!(third, 9_000);
}

#[test]
fn thread_blocking_call_runs() {
    let mut thread = Thread::new();
    thread.start();
    let result = thread.blocking_call(|| 42);
    assert_eq!(result, 42);

    thread.blocking_call(|| {});
    thread.stop();
}

#[test]
fn thread_sleep_ms_runs() {
    thread_sleep_ms(1);
}

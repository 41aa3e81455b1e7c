use std::sync::Arc;
use std::sync::atomic::{AtomicUsize, Ordering};

use webrtc_harness::{
    AdaptedVideoTrackSource, AudioDecoderFactory, AudioDeviceModule, AudioDeviceModuleAudioLayer,
    AudioDeviceModuleCallbacks, AudioDeviceModuleSlots, AudioEncoderFactory,
    AudioProcessingBuilder, CreateSessionDescriptionObserver, CxxString, DataChannelInit,
    DataChannelState, Environment, MediaType, PeerConnection, PeerConnectionDependencies,
    PeerConnectionFactory, PeerConnectionFactoryDependencies, PeerConnectionFactoryOptions,
    PeerConnectionObserverBuilder, PeerConnectionRtcConfiguration, PeerConnectionState,
    RtcEventLogFactory, RtpTransceiverDirection, RtpTransceiverInit, SetLocalDescriptionObserver,
    SetRemoteDescriptionObserver, StringVector, Thread, VideoDecoderFactory, VideoEncoderFactory,
    SSL_PROTOCOL_DTLS_12,
};

#[test]
fn builtin_audio_factories_create() {
    let dec = AudioDecoderFactory::builtin();
    assert!(!dec.as_ptr().is_null());
    let enc = AudioEncoderFactory::builtin();
    assert!(!enc.as_ptr().is_null());

    let apb = AudioProcessingBuilder::new_builtin();
    assert!(!apb.as_ptr().is_null());

    let mut deps = PeerConnectionFactoryDependencies::new();
    let mut network = Thread::new();
    let mut worker = Thread::new();
    let mut signaling = Thread::new();
    network.start();
    worker.start();
    signaling.start();
    deps.set_network_thread(&network);
    deps.set_worker_thread(&worker);
    deps.set_signaling_thread(&signaling);
    deps.set_audio_encoder_factory(&enc);
    deps.set_audio_decoder_factory(&dec);
    deps.set_audio_processing_builder(apb);
    let env = Environment::new();
    let adm = AudioDeviceModule::new(&env, AudioDeviceModuleAudioLayer::Dummy)
        .expect("the device module should be created");
    deps.set_audio_device_module(&adm);
    deps.enable_media();
    assert!(!deps.as_ptr().is_null());
    drop(deps);
    network.stop();
    worker.stop();
    signaling.stop();
}

struct NamedDevices {
    name: String,
    guid: String,
}

impl AudioDeviceModuleCallbacks for NamedDevices {
    fn init(&mut self) -> i32 {
        0
    }

    fn recording_devices(&mut self) -> i16 {
        1
    }

    fn recording_device_name(&mut self, _index: u16) -> Option<(String, String)> {
        Some((self.name.clone(), self.guid.clone()))
    }
}

#[test]
fn audio_device_module_recording_device_name_roundtrip() {
    fn make_ascii_string(len: usize) -> String {
        (0..len).map(|i| (b'a' + (i % 26) as u8) as char).collect()
    }

    let lengths = [0usize, 1, 2, 3, 7, 31, 63, 64];
    for &len in &lengths {
        let name = make_ascii_string(len);
        let guid = make_ascii_string(64usize.saturating_sub(len));
        let expected_name = name.clone();
        let expected_guid = guid.clone();
        let mut adm = AudioDeviceModule::new_with_callbacks(
            NamedDevices { name, guid },
            AudioDeviceModuleSlots {
                init: true,
                recording_devices: true,
                recording_device_name: true,
                ..Default::default()
            },
        );
        adm.init().expect("the init slot should succeed");
        assert_eq!(adm.recording_devices(), 1);
        let (got_name, got_guid) = adm
            .recording_device_name(0)
            .expect("the device name should be reported");
        assert_eq!(got_name, expected_name);
        assert_eq!(got_guid, expected_guid);
    }
}

#[test]
fn peer_connection_factory_and_capabilities() {
    let dec = AudioDecoderFactory::builtin();
    let enc = AudioEncoderFactory::builtin();
    let apb = AudioProcessingBuilder::new_builtin();

    let mut deps = PeerConnectionFactoryDependencies::new();
    let mut network = Thread::new();
    let mut worker = Thread::new();
    let mut signaling = Thread::new();
    network.start();
    worker.start();
    signaling.start();
    deps.set_network_thread(&network);
    deps.set_worker_thread(&worker);
    deps.set_signaling_thread(&signaling);
    deps.set_audio_encoder_factory(&enc);
    deps.set_audio_decoder_factory(&dec);
    deps.set_audio_processing_builder(apb);
    let event_log = RtcEventLogFactory::new();
    deps.set_event_log_factory(event_log);
    let env = Environment::new();
    let adm = AudioDeviceModule::new(&env, AudioDeviceModuleAudioLayer::Dummy)
        .expect("the device module should be created");
    deps.set_audio_device_module(&adm);
    deps.enable_media();

    let mut factory = PeerConnectionFactory::create_modular(&mut deps)
        .expect("the factory should be created");
    let mut opts = PeerConnectionFactoryOptions::new();
    opts.set_disable_encryption(false);
    opts.set_ssl_max_version(SSL_PROTOCOL_DTLS_12);
    factory.set_options(&opts);

    let caps = factory.get_rtp_sender_capabilities(MediaType::Audio);
    assert!(caps.codec_len() >= 0);
    let codecs = caps.codecs();
    assert_eq!(codecs.len() as i32, caps.codec_len());
    if !codecs.is_empty() {
        let first = codecs.get(0).expect("the first codec should exist");
        assert!(first.name().is_ok());
    }

    drop(caps);
    drop(factory);
    drop(deps);
    network.stop();
    worker.stop();
    signaling.stop();
}

#[test]
fn rtp_sender_get_set_parameters() {
    let dec_audio = AudioDecoderFactory::builtin();
    let enc_audio = AudioEncoderFactory::builtin();
    let enc_video = VideoEncoderFactory::builtin();
    let dec_video = VideoDecoderFactory::builtin();
    let apb = AudioProcessingBuilder::new_builtin();

    let mut deps_factory = PeerConnectionFactoryDependencies::new();
    let mut network = Thread::new();
    let mut worker = Thread::new();
    let mut signaling = Thread::new();
    network.start();
    worker.start();
    signaling.start();
    deps_factory.set_network_thread(&network);
    deps_factory.set_worker_thread(&worker);
    deps_factory.set_signaling_thread(&signaling);
    deps_factory.set_audio_encoder_factory(&enc_audio);
    deps_factory.set_audio_decoder_factory(&dec_audio);
    deps_factory.set_video_encoder_factory(enc_video);
    deps_factory.set_video_decoder_factory(dec_video);
    deps_factory.set_audio_processing_builder(apb);
    let env = Environment::new();
    let adm = AudioDeviceModule::new(&env, AudioDeviceModuleAudioLayer::Dummy)
        .expect("the device module should be created");
    deps_factory.set_audio_device_module(&adm);
    deps_factory.enable_media();
    let factory = PeerConnectionFactory::create_modular(&mut deps_factory)
        .expect("the factory should be created");

    let source = AdaptedVideoTrackSource::new();
    let vts = source.cast_to_video_track_source();
    let track = factory
        .create_video_track(&vts, "video-track-1")
        .expect("the video track should be created");

    let mut pc_config = PeerConnectionRtcConfiguration::new();
    let observer = PeerConnectionObserverBuilder::new().build();
    let mut pc_deps = PeerConnectionDependencies::new(&observer);
    let mut pc = PeerConnection::create(&factory, &mut pc_config, &mut pc_deps)
        .expect("the peer connection should be created");

    let stream_track = track.cast_to_media_stream_track();
    let mut stream_ids = StringVector::new(0);
    stream_ids.push(&CxxString::from_str("stream-0"));
    let mut sender = pc
        .add_track(&stream_track, &stream_ids)
        .expect("the track should be added");

    let params = sender.get_parameters();
    sender.set_parameters(&params).expect("the parameters should apply");

    drop(sender);
    drop(stream_track);
    drop(pc);
    drop(track);
    drop(vts);
    drop(source);
    drop(pc_deps);
    drop(factory);
    drop(deps_factory);
    drop(adm);
    drop(env);
    network.stop();
    worker.stop();
    signaling.stop();
}

#[test]
fn peer_connection_create_and_transceiver() {
    let dec = AudioDecoderFactory::builtin();
    let enc = AudioEncoderFactory::builtin();
    let apb = AudioProcessingBuilder::new_builtin();
    let mut deps_factory = PeerConnectionFactoryDependencies::new();
    let mut network = Thread::new();
    let mut worker = Thread::new();
    let mut signaling = Thread::new();
    network.start();
    worker.start();
    signaling.start();
    deps_factory.set_network_thread(&network);
    deps_factory.set_worker_thread(&worker);
    deps_factory.set_signaling_thread(&signaling);
    deps_factory.set_audio_encoder_factory(&enc);
    deps_factory.set_audio_decoder_factory(&dec);
    deps_factory.set_audio_processing_builder(apb);
    let env = Environment::new();
    let adm = AudioDeviceModule::new(&env, AudioDeviceModuleAudioLayer::Dummy)
        .expect("the device module should be created");
    deps_factory.set_audio_device_module(&adm);
    deps_factory.enable_media();
    let factory = PeerConnectionFactory::create_modular(&mut deps_factory)
        .expect("the factory should be created");

    let mut pc_config = PeerConnectionRtcConfiguration::new();
    let observer = PeerConnectionObserverBuilder::new().build();
    let mut pc_deps = PeerConnectionDependencies::new(&observer);

    let pc = PeerConnection::create(&factory, &mut pc_config, &mut pc_deps)
        .expect("the peer connection should be created");
    assert!(!pc.as_ptr().is_null());

    drop(pc);
    drop(pc_deps);
    drop(factory);
    drop(deps_factory);
    network.stop();
    worker.stop();
    signaling.stop();
}

#[test]
fn video_track_and_transceiver_with_track() {
    let dec_audio = AudioDecoderFactory::builtin();
    let enc_audio = AudioEncoderFactory::builtin();
    let enc_video = VideoEncoderFactory::builtin();
    let dec_video = VideoDecoderFactory::builtin();
    let apb = AudioProcessingBuilder::new_builtin();

    let mut deps_factory = PeerConnectionFactoryDependencies::new();
    let mut network = Thread::new();
    let mut worker = Thread::new();
    let mut signaling = Thread::new();
    network.start();
    worker.start();
    signaling.start();
    deps_factory.set_network_thread(&network);
    deps_factory.set_worker_thread(&worker);
    deps_factory.set_signaling_thread(&signaling);
    deps_factory.set_audio_encoder_factory(&enc_audio);
    deps_factory.set_audio_decoder_factory(&dec_audio);
    deps_factory.set_video_encoder_factory(enc_video);
    deps_factory.set_video_decoder_factory(dec_video);
    deps_factory.set_audio_processing_builder(apb);
    let env = Environment::new();
    let adm = AudioDeviceModule::new(&env, AudioDeviceModuleAudioLayer::Dummy)
        .expect("the device module should be created");
    deps_factory.set_audio_device_module(&adm);
    deps_factory.enable_media();
    let factory = PeerConnectionFactory::create_modular(&mut deps_factory)
        .expect("the factory should be created");

    let mut source = AdaptedVideoTrackSource::new();
    let vts = source.cast_to_video_track_source();
    let track = factory
        .create_video_track(&vts, "video-track-0")
        .expect("the video track should be created");
    let buf = webrtc_harness::I420Buffer::new(2, 2);
    let frame = webrtc_harness::VideoFrame::from_i420(&buf, 1_000_000);
    source.on_frame(&frame);

    let mut pc_config = PeerConnectionRtcConfiguration::new();
    let observer = PeerConnectionObserverBuilder::new().build();
    let mut pc_deps = PeerConnectionDependencies::new(&observer);
    let mut pc = PeerConnection::create(&factory, &mut pc_config, &mut pc_deps)
        .expect("the peer connection should be created");

    let mut init = RtpTransceiverInit::new();
    init.set_direction(RtpTransceiverDirection::SendOnly);
    pc.add_transceiver_with_track(&track, &mut init)
        .expect("the transceiver should be added");

    drop(pc);
    drop(track);
    drop(vts);
    drop(source);
    drop(pc_deps);
    drop(factory);
    drop(deps_factory);
    drop(adm);
    drop(env);
    network.stop();
    worker.stop();
    signaling.stop();
}

#[test]
fn peer_connection_observer_and_dependencies() {
    let counter = Arc::new(AtomicUsize::new(0));
    let counter_cloned = Arc::clone(&counter);
    let mut observer = PeerConnectionObserverBuilder::new()
        .on_connection_change(move |state| {
            if matches!(state, PeerConnectionState::Connected) {
                counter_cloned.fetch_add(1, Ordering::SeqCst);
            }
        })
        .build();
    observer.dispatch_connection_change(PeerConnectionState::Connected);
    assert_eq!(counter.load(Ordering::SeqCst), 1);

    let observer2 = PeerConnectionObserverBuilder::new().build();
    let mut deps = PeerConnectionDependencies::new(&observer2);
    assert!(!deps.as_ptr().is_null());
    drop(deps);
}

#[test]
fn create_and_set_local_description_observers() {
    let _create_obs = CreateSessionDescriptionObserver::new(|_| {}, |_| {});
    let _set_local = SetLocalDescriptionObserver::new(|_| {});
    let _set_remote = SetRemoteDescriptionObserver::new(|_| {});
}

#[test]
fn peer_connection_offer_and_descriptions() {
    let dec = AudioDecoderFactory::builtin();
    let enc = AudioEncoderFactory::builtin();
    let mut deps_factory = PeerConnectionFactoryDependencies::new();
    deps_factory.set_audio_encoder_factory(&enc);
    deps_factory.set_audio_decoder_factory(&dec);
    let factory = PeerConnectionFactory::create_modular(&mut deps_factory)
        .expect("the factory should be created");
    let mut pc_config = PeerConnectionRtcConfiguration::new();
    let observer = PeerConnectionObserverBuilder::new().build();
    let mut pc_deps = PeerConnectionDependencies::new(&observer);
    let mut pc = PeerConnection::create(&factory, &mut pc_config, &mut pc_deps)
        .expect("the peer connection should be created");

    let offered = Arc::new(AtomicUsize::new(0));
    let offered_cloned = Arc::clone(&offered);
    let mut create_obs = CreateSessionDescriptionObserver::new(
        move |desc: webrtc_harness::SessionDescription| {
            assert_eq!(desc.sdp_type(), webrtc_harness::SdpType::Offer);
            let text = desc.to_string().expect("the SDP should serialize");
            assert!(text.starts_with("v="));
            offered_cloned.fetch_add(1, Ordering::SeqCst);
        },
        |_| {},
    );
    let mut options = webrtc_harness::PeerConnectionOfferAnswerOptions::new();
    pc.create_offer(&mut create_obs, &mut options);
    assert_eq!(offered.load(Ordering::SeqCst), 1);

    let completed = Arc::new(AtomicUsize::new(0));
    let completed_cloned = Arc::clone(&completed);
    let mut set_local = SetLocalDescriptionObserver::new(move |err: webrtc_harness::RtcError| {
        assert!(err.ok());
        completed_cloned.fetch_add(1, Ordering::SeqCst);
    });
    let desc = webrtc_harness::SessionDescription::new(webrtc_harness::SdpType::Offer, "v=0\r\n")
        .expect("the description should parse");
    pc.set_local_description(desc, &mut set_local);
    assert_eq!(completed.load(Ordering::SeqCst), 1);

    let mut init = DataChannelInit::new();
    init.set_ordered(true);
    let mut channel = pc
        .create_data_channel("chat", &mut init)
        .expect("the data channel should be created");
    assert_eq!(channel.label().expect("the label should convert"), "chat");
    assert_eq!(channel.state(), DataChannelState::Connecting);
    assert!(channel.send(&[1, 2, 3], true));
    channel.close();
    assert!(!channel.send(&[4], false));
}

#[test]
fn peer_connection_observer_dispatches_every_slot() {
    let changes = Arc::new(AtomicUsize::new(0));
    let tracks = Arc::new(AtomicUsize::new(0));
    let removed = Arc::new(AtomicUsize::new(0));
    let candidates = Arc::new(AtomicUsize::new(0));
    let channels = Arc::new(AtomicUsize::new(0));
    let c1 = Arc::clone(&changes);
    let c2 = Arc::clone(&tracks);
    let c3 = Arc::clone(&removed);
    let c4 = Arc::clone(&candidates);
    let c5 = Arc::clone(&channels);
    let mut observer = PeerConnectionObserverBuilder::new()
        .on_connection_change(move |_| {
            c1.fetch_add(1, Ordering::SeqCst);
        })
        .on_track(move |t: webrtc_harness::RtpTransceiver| {
            assert!(!t.as_ptr().is_null());
            c2.fetch_add(1, Ordering::SeqCst);
        })
        .on_remove_track(move |r: webrtc_harness::RtpReceiver| {
            let _ = r.track();
            c3.fetch_add(1, Ordering::SeqCst);
        })
        .on_ice_candidate(move |c: webrtc_harness::IceCandidate| {
            assert!(c.to_string().expect("the text should serialize").starts_with("candidate:"));
            c4.fetch_add(1, Ordering::SeqCst);
        })
        .on_data_channel(move |ch: webrtc_harness::DataChannel| {
            assert_eq!(ch.label().expect("the label should convert"), "events");
            c5.fetch_add(1, Ordering::SeqCst);
        })
        .build();

    observer.dispatch_connection_change(PeerConnectionState::Connecting);
    let track = webrtc_harness::MediaStreamTrack::new("video", "t0");
    observer.dispatch_track(webrtc_harness::RtpTransceiver::new(
        RtpTransceiverDirection::SendRecv,
        track.clone_track(),
    ));
    observer.dispatch_remove_track(webrtc_harness::RtpReceiver::new(track));
    let candidate = webrtc_harness::IceCandidate::new(
        "0",
        0,
        "candidate:1 1 udp 2122260223 192.0.2.1 54400 typ host",
    )
        .expect("the candidate should parse");
    observer.dispatch_ice_candidate(candidate);
    observer.dispatch_data_channel(webrtc_harness::DataChannel::new("events"));

    assert_eq!(changes.load(Ordering::SeqCst), 1);
    assert_eq!(tracks.load(Ordering::SeqCst), 1);
    assert_eq!(removed.load(Ordering::SeqCst), 1);
    assert_eq!(candidates.load(Ordering::SeqCst), 1);
    assert_eq!(channels.load(Ordering::SeqCst), 1);

    assert!(observer.on_destroy());
    observer.dispatch_connection_change(PeerConnectionState::Closed);
    assert_eq!(changes.load(Ordering::SeqCst), 1, "a freed bundle makes no further calls");
}

#[test]
fn data_channel_observer_dispatches_messages() {
    let states = Arc::new(AtomicUsize::new(0));
    let bytes_seen = Arc::new(AtomicUsize::new(0));
    let s1 = Arc::clone(&states);
    let s2 = Arc::clone(&bytes_seen);
    let mut observer = webrtc_harness::DataChannelObserverBuilder::new()
        .on_state_change(move || {
            s1.fetch_add(1, Ordering::SeqCst);
        })
        .on_message(move |data: &[u8], is_binary: bool| {
            assert!(is_binary);
            s2.fetch_add(data.len(), Ordering::SeqCst);
        })
        .build();

    observer.dispatch_state_change();
    observer.dispatch_message(&[1, 2, 3], true);
    observer.dispatch_message(&[4], true);
    assert_eq!(states.load(Ordering::SeqCst), 1);
    assert_eq!(bytes_seen.load(Ordering::SeqCst), 4);

    assert!(observer.on_destroy());
    observer.dispatch_message(&[5, 6], true);
    assert_eq!(bytes_seen.load(Ordering::SeqCst), 4, "a freed bundle makes no further calls");
}

struct LongNamedDevices;

impl AudioDeviceModuleCallbacks for LongNamedDevices {
    fn recording_device_name(&mut self, _index: u16) -> Option<(String, String)> {
        Some(("n".repeat(200), "g".repeat(127)))
    }
}

#[test]
fn device_names_truncate_at_the_marshalling_limit() {
    let mut adm = AudioDeviceModule::new_with_callbacks(
        LongNamedDevices,
        AudioDeviceModuleSlots { recording_device_name: true, ..Default::default() },
    );
    let (name, guid) = adm
        .recording_device_name(0)
        .expect("the device name should be reported");
    assert_eq!(name.len(), 127);
    assert_eq!(name, "n".repeat(127));
    assert_eq!(guid.len(), 127);
}

struct PlaybackAdm {
    playing: bool,
}

impl AudioDeviceModuleCallbacks for PlaybackAdm {
    fn terminate(&mut self) -> i32 {
        0
    }

    fn initialized(&mut self) -> bool {
        true
    }

    fn playout_devices(&mut self) -> i16 {
        2
    }

    fn playout_device_name(&mut self, index: u16) -> Option<(String, String)> {
        if index < 2 {
            Some((format!("speaker-{index}"), "guid".to_string()))
        } else {
            None
        }
    }

    fn set_playout_device(&mut self, index: u16) -> i32 {
        if index < 2 { 0 } else { -1 }
    }

    fn register_audio_callback(&mut self, registered: bool) -> i32 {
        assert!(registered);
        0
    }

    fn start_playout(&mut self) -> i32 {
        self.playing = true;
        0
    }

    fn stop_playout(&mut self) -> i32 {
        self.playing = false;
        0
    }

    fn playing(&mut self) -> bool {
        self.playing
    }

    fn start_recording(&mut self) -> i32 {
        0
    }

    fn stop_recording(&mut self) -> i32 {
        0
    }

    fn recording(&mut self) -> bool {
        false
    }
}

#[test]
fn audio_device_module_playout_round_trip() {
    let mut adm = AudioDeviceModule::new_with_callbacks(
        PlaybackAdm { playing: false },
        AudioDeviceModuleSlots {
            terminate: true,
            initialized: true,
            playout_devices: true,
            playout_device_name: true,
            set_playout_device: true,
            register_audio_callback: true,
            start_playout: true,
            stop_playout: true,
            playing: true,
            start_recording: true,
            stop_recording: true,
            recording: true,
            ..Default::default()
        },
    );
    assert!(adm.initialized());
    assert_eq!(adm.playout_devices(), 2);
    let (name, _) = adm.playout_device_name(1).expect("the device name should be reported");
    assert_eq!(name, "speaker-1");
    assert!(adm.playout_device_name(2).is_err());
    adm.set_playout_device(1).expect("the device should be selected");
    assert!(adm.set_playout_device(9).is_err());

    let transport = webrtc_harness::AudioTransport::new(
        EchoTransport,
        webrtc_harness::AudioTransportSlots {
            need_more_play_data: true,
            ..Default::default()
        },
    );
    assert_eq!(adm.register_audio_callback(Some(transport.as_ref())), 0);

    adm.start_playout().expect("playout should start");
    assert!(adm.playing());
    adm.stop_playout().expect("playout should stop");
    assert!(!adm.playing());
    adm.start_recording().expect("recording should start");
    adm.stop_recording().expect("recording should stop");
    assert!(!adm.recording());
    adm.terminate().expect("terminate should succeed");
    assert!(adm.get_stats().is_none());
}

struct EchoTransport;

impl webrtc_harness::AudioTransportCallbacks for EchoTransport {
    fn need_more_play_data(
        &mut self,
        n_samples: usize,
        n_bytes_per_sample: usize,
        _n_channels: usize,
        _samples_per_sec: u32,
        audio_samples: &mut Vec<u8>,
        n_samples_out: &mut usize,
    ) -> i32 {
        audio_samples.clear();
        audio_samples.resize(n_samples * n_bytes_per_sample, 7);
        *n_samples_out = n_samples;
        0
    }
}

#[test]
fn audio_transport_fills_play_data_through_its_trampoline() {
    let mut transport = webrtc_harness::AudioTransport::new(
        EchoTransport,
        webrtc_harness::AudioTransportSlots {
            need_more_play_data: true,
            ..Default::default()
        },
    );
    let mut buffer: Vec<u8> = Vec::new();
    let mut written: usize = 0;
    let ret = transport.need_more_play_data(4, 2, 1, 48_000, &mut buffer, &mut written);
    assert_eq!(ret, 0);
    assert_eq!(written, 4);
    assert_eq!(buffer, vec![7u8; 8]);

    let mut level: u32 = 3;
    let ret = transport.as_ref().recorded_data_is_available(
        &mut transport,
        &[1, 2],
        1,
        2,
        1,
        48_000,
        0,
        0,
        3,
        false,
        &mut level,
        None,
    );
    assert_eq!(ret, 0);
}

#[test]
fn description_observers_report_through_their_trampolines() {
    let succeeded = Arc::new(AtomicUsize::new(0));
    let failed = Arc::new(AtomicUsize::new(0));
    let s1 = Arc::clone(&succeeded);
    let s2 = Arc::clone(&failed);
    let mut observer = CreateSessionDescriptionObserver::new(
        move |_: webrtc_harness::SessionDescription| {
            s1.fetch_add(1, Ordering::SeqCst);
        },
        move |e: webrtc_harness::RtcError| {
            assert!(!e.ok());
            s2.fetch_add(1, Ordering::SeqCst);
        },
    );
    let desc = webrtc_harness::SessionDescription::new(webrtc_harness::SdpType::Offer, "v=0\r\n")
        .expect("the description should parse");
    observer.notify_success(desc);
    observer.notify_failure(webrtc_harness::RtcError::new_error("creation failed"));
    assert_eq!(succeeded.load(Ordering::SeqCst), 1);
    assert_eq!(failed.load(Ordering::SeqCst), 1);

    assert!(observer.on_destroy());
    observer.notify_failure(webrtc_harness::RtcError::new_error("late"));
    assert_eq!(failed.load(Ordering::SeqCst), 1, "a released observer makes no further calls");
}

#[test]
fn video_sink_dispatches_frames_until_teardown() {
    let frames = Arc::new(AtomicUsize::new(0));
    let discarded = Arc::new(AtomicUsize::new(0));
    let f1 = Arc::clone(&frames);
    let f2 = Arc::clone(&discarded);
    let mut sink = webrtc_harness::VideoSinkBuilder::new(move |frame: &webrtc_harness::VideoFrame| {
        assert_eq!(frame.width(), 2);
        f1.fetch_add(1, Ordering::SeqCst);
    })
        .on_discarded_frame(move || {
            f2.fetch_add(1, Ordering::SeqCst);
        })
        .build();

    let buf = webrtc_harness::I420Buffer::new(2, 2);
    let frame = webrtc_harness::VideoFrame::from_i420(&buf, 5);
    sink.dispatch_frame(&frame);
    sink.dispatch_frame(&frame);
    sink.dispatch_discarded_frame();
    assert_eq!(frames.load(Ordering::SeqCst), 2);
    assert_eq!(discarded.load(Ordering::SeqCst), 1);

    assert!(sink.on_destroy());
    sink.dispatch_frame(&frame);
    assert_eq!(frames.load(Ordering::SeqCst), 2, "a freed bundle makes no further calls");
}

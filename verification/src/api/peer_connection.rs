//! The peer connection factory, configuration, observers and the peer
//! connection itself.

use vstd::prelude::*;

use crate::NativePtr;
use crate::api::data_channel::{DataChannel, DataChannelInit};
use crate::api::jsep::{IceCandidate, IceCandidateRef, SdpType, SessionDescription};
use crate::api::media_types::MediaType;
use crate::api::rtc_error::RtcError;
use crate::api::rtp::{
    MediaStreamTrack, RtpCapabilities, RtpCodecCapability, RtpCodecCapabilityVector, RtpReceiver,
    RtpSender, RtpTransceiver, RtpTransceiverInit,
};
use crate::api::stats::RTCStatsReport;
use crate::api::video::{VideoTrack, VideoTrackSource};
use crate::api::audio::{AudioTrack, AudioTrackSource};
use crate::cxxstd::StringVector;
use crate::error::RtcResult;

verus! {

/// The native tag of DTLS 1.2 as a maximum SSL version.
pub const SSL_PROTOCOL_DTLS_12: i32 = 3;

/// What a peer connection factory is built from; the model records which
/// dependencies were supplied.
pub struct PeerConnectionFactoryDependencies {
    pub network_thread: bool,
    pub worker_thread: bool,
    pub signaling_thread: bool,
    pub audio_encoder_factory: bool,
    pub audio_decoder_factory: bool,
    pub audio_processing_builder: bool,
    pub event_log_factory: bool,
    pub video_encoder_factory: bool,
    pub video_decoder_factory: bool,
    pub audio_device_module: bool,
    pub media_enabled: bool,
}

impl PeerConnectionFactoryDependencies {
    /// No dependency supplied yet.
    pub fn new() -> (r: PeerConnectionFactoryDependencies)
        ensures
            !r.network_thread,
            !r.worker_thread,
            !r.signaling_thread,
            !r.audio_encoder_factory,
            !r.audio_decoder_factory,
            !r.audio_processing_builder,
            !r.event_log_factory,
            !r.video_encoder_factory,
            !r.video_decoder_factory,
            !r.audio_device_module,
            !r.media_enabled,
    {
        PeerConnectionFactoryDependencies {
            network_thread: false,
            worker_thread: false,
            signaling_thread: false,
            audio_encoder_factory: false,
            audio_decoder_factory: false,
            audio_processing_builder: false,
            event_log_factory: false,
            video_encoder_factory: false,
            video_decoder_factory: false,
            audio_device_module: false,
            media_enabled: false,
        }
    }

    /// Supplies the network thread.
    pub fn set_network_thread(&mut self, thread: &crate::rtc_base::Thread)
        ensures
            *final(self) == (PeerConnectionFactoryDependencies {
                network_thread: true,
                ..*old(self)
            }),
    {
        self.network_thread = true;
    }

    /// Supplies the worker thread.
    pub fn set_worker_thread(&mut self, thread: &crate::rtc_base::Thread)
        ensures
            *final(self) == (PeerConnectionFactoryDependencies {
                worker_thread: true,
                ..*old(self)
            }),
    {
        self.worker_thread = true;
    }

    /// Supplies the signaling thread.
    pub fn set_signaling_thread(&mut self, thread: &crate::rtc_base::Thread)
        ensures
            *final(self) == (PeerConnectionFactoryDependencies {
                signaling_thread: true,
                ..*old(self)
            }),
    {
        self.signaling_thread = true;
    }

    /// Supplies the audio encoder factory.
    pub fn set_audio_encoder_factory(&mut self, factory: &crate::api::audio::AudioEncoderFactory)
        ensures
            *final(self) == (PeerConnectionFactoryDependencies {
                audio_encoder_factory: true,
                ..*old(self)
            }),
    {
        self.audio_encoder_factory = true;
    }

    /// Supplies the audio decoder factory.
    pub fn set_audio_decoder_factory(&mut self, factory: &crate::api::audio::AudioDecoderFactory)
        ensures
            *final(self) == (PeerConnectionFactoryDependencies {
                audio_decoder_factory: true,
                ..*old(self)
            }),
    {
        self.audio_decoder_factory = true;
    }

    /// Consumes and supplies the audio processing builder.
    pub fn set_audio_processing_builder(
        &mut self,
        builder: crate::api::audio::AudioProcessingBuilder,
    )
        ensures
            *final(self) == (PeerConnectionFactoryDependencies {
                audio_processing_builder: true,
                ..*old(self)
            }),
    {
        let _ = builder.into_raw();
        self.audio_processing_builder = true;
    }

    /// Consumes and supplies the event log factory.
    pub fn set_event_log_factory(&mut self, factory: crate::api::rtc_event_log::RtcEventLogFactory)
        ensures
            *final(self) == (PeerConnectionFactoryDependencies {
                event_log_factory: true,
                ..*old(self)
            }),
    {
        let _ = factory.into_raw();
        self.event_log_factory = true;
    }

    /// Consumes and supplies a video encoder factory.
    pub fn set_video_encoder_factory<F: crate::api::video_encoder::VideoEncoderFactoryCallbacks>(
        &mut self,
        factory: crate::api::video_encoder::VideoEncoderFactory<F>,
    )
        ensures
            *final(self) == (PeerConnectionFactoryDependencies {
                video_encoder_factory: true,
                ..*old(self)
            }),
    {
        let _ = factory.into_raw();
        self.video_encoder_factory = true;
    }

    /// Consumes and supplies a video decoder factory.
    pub fn set_video_decoder_factory<F: crate::api::video_decoder::VideoDecoderFactoryCallbacks>(
        &mut self,
        factory: crate::api::video_decoder::VideoDecoderFactory<F>,
    )
        ensures
            *final(self) == (PeerConnectionFactoryDependencies {
                video_decoder_factory: true,
                ..*old(self)
            }),
    {
        let _ = factory.into_raw();
        self.video_decoder_factory = true;
    }

    /// Supplies the audio device module.
    pub fn set_audio_device_module<C: crate::api::audio::AudioDeviceModuleCallbacks>(
        &mut self,
        adm: &crate::api::audio::AudioDeviceModule<C>,
    )
        ensures
            *final(self) == (PeerConnectionFactoryDependencies {
                audio_device_module: true,
                ..*old(self)
            }),
    {
        self.audio_device_module = true;
    }

    /// Enables media over the supplied factories.
    pub fn enable_media(&mut self)
        ensures
            *final(self) == (PeerConnectionFactoryDependencies {
                media_enabled: true,
                ..*old(self)
            }),
    {
        self.media_enabled = true;
    }

    /// The native address of the dependencies; never null.
    pub fn as_ptr(&self) -> (r: NativePtr)
        ensures
            r == (NativePtr { addr: 1 }),
    {
        NativePtr { addr: 1 }
    }
}

/// Options applied to a peer connection factory.
pub struct PeerConnectionFactoryOptions {
    pub disable_encryption: bool,
    pub ssl_max_version: i32,
}

impl PeerConnectionFactoryOptions {
    /// Encryption on, no explicit SSL version cap.
    pub fn new() -> (r: PeerConnectionFactoryOptions)
        ensures
            !r.disable_encryption,
            r.ssl_max_version == 0,
    {
        PeerConnectionFactoryOptions { disable_encryption: false, ssl_max_version: 0 }
    }

    /// Sets whether encryption is disabled.
    pub fn set_disable_encryption(&mut self, disable: bool)
        ensures
            *final(self) == (PeerConnectionFactoryOptions {
                disable_encryption: disable,
                ..*old(self)
            }),
    {
        self.disable_encryption = disable;
    }

    /// Sets the maximum SSL version.
    pub fn set_ssl_max_version(&mut self, version: i32)
        ensures
            *final(self) == (PeerConnectionFactoryOptions {
                ssl_max_version: version,
                ..*old(self)
            }),
    {
        self.ssl_max_version = version;
    }

    /// The native address of the options; never null.
    pub fn as_ptr(&self) -> (r: NativePtr)
        ensures
            r == (NativePtr { addr: 1 }),
    {
        NativePtr { addr: 1 }
    }
}

/// A peer connection factory.
pub struct PeerConnectionFactory {
    disable_encryption: bool,
    ssl_max_version: i32,
}

impl PeerConnectionFactory {
    /// Builds a factory from the collected dependencies; the model always
    /// succeeds.
    pub fn create_modular(deps: &mut PeerConnectionFactoryDependencies) -> (r: RtcResult<
        PeerConnectionFactory,
    >)
        ensures
            r is Ok,
            !r->Ok_0.spec_disable_encryption(),
    {
        Ok(PeerConnectionFactory { disable_encryption: false, ssl_max_version: 0 })
    }

    /// Whether encryption is disabled.
    pub closed spec fn spec_disable_encryption(self) -> bool {
        self.disable_encryption
    }

    /// The applied maximum SSL version.
    pub closed spec fn spec_ssl_max_version(self) -> i32 {
        self.ssl_max_version
    }

    /// Applies the given options.
    pub fn set_options(&mut self, options: &PeerConnectionFactoryOptions)
        ensures
            final(self).spec_disable_encryption() == options.disable_encryption,
            final(self).spec_ssl_max_version() == options.ssl_max_version,
    {
        self.disable_encryption = options.disable_encryption;
        self.ssl_max_version = options.ssl_max_version;
    }

    /// The codec capabilities of the send direction: the builtin audio or
    /// video codec set.
    pub fn get_rtp_sender_capabilities(&self, media_type: MediaType) -> (r: RtpCapabilities)
        ensures
            media_type is Audio ==> r.spec_codecs().len() == 2,
            media_type is Video ==> r.spec_codecs().len() == 2,
            media_type matches MediaType::Unknown(_) ==> r.spec_codecs().len() == 0,
    {
        let mut codecs = RtpCodecCapabilityVector::new(0);
        match media_type {
            MediaType::Audio => {
                let mut opus = RtpCodecCapability::new();
                opus.set_kind(MediaType::Audio);
                opus.set_name("opus");
                opus.set_clock_rate(Some(48000));
                opus.set_num_channels(Some(2));
                codecs.push(&opus);
                let mut pcmu = RtpCodecCapability::new();
                pcmu.set_kind(MediaType::Audio);
                pcmu.set_name("PCMU");
                pcmu.set_clock_rate(Some(8000));
                pcmu.set_num_channels(Some(1));
                codecs.push(&pcmu);
            },
            MediaType::Video => {
                let mut vp8 = RtpCodecCapability::new();
                vp8.set_kind(MediaType::Video);
                vp8.set_name("VP8");
                vp8.set_clock_rate(Some(90000));
                codecs.push(&vp8);
                let mut vp9 = RtpCodecCapability::new();
                vp9.set_kind(MediaType::Video);
                vp9.set_name("VP9");
                vp9.set_clock_rate(Some(90000));
                codecs.push(&vp9);
            },
            MediaType::Unknown(_) => {},
        }
        RtpCapabilities::new(codecs)
    }

    /// Creates a video track over the given source.
    pub fn create_video_track(&self, source: &VideoTrackSource, id: &str) -> (r: RtcResult<
        VideoTrack,
    >)
        ensures
            r is Ok,
            r->Ok_0.spec_id() == id@,
    {
        Ok(VideoTrack::new(id))
    }

    /// Creates an audio source.
    pub fn create_audio_source(&self) -> (r: RtcResult<AudioTrackSource>)
        ensures
            r is Ok,
            r->Ok_0.allocated(),
    {
        Ok(AudioTrackSource::new())
    }

    /// Creates an audio track over the given source.
    pub fn create_audio_track(&self, source: &AudioTrackSource, id: &str) -> (r: RtcResult<
        AudioTrack,
    >)
        ensures
            r is Ok,
            r->Ok_0.spec_id() == id@,
    {
        Ok(AudioTrack::new(id))
    }

    /// The native address of the factory; never null.
    pub fn as_ptr(&self) -> (r: NativePtr)
        ensures
            r == (NativePtr { addr: 1 }),
    {
        NativePtr { addr: 1 }
    }
}

/// The native tag of gathering no candidates.
pub const ICE_TRANSPORTS_TYPE_NONE: i32 = 0;

/// The native tag of relay-only gathering.
pub const ICE_TRANSPORTS_TYPE_RELAY: i32 = 1;

/// The native tag of gathering without host candidates.
pub const ICE_TRANSPORTS_TYPE_NO_HOST: i32 = 2;

/// The native tag of gathering every candidate kind.
pub const ICE_TRANSPORTS_TYPE_ALL: i32 = 3;

/// Which ICE candidates are gathered.
#[derive(Debug, Clone, Copy, PartialEq, Eq, Structural)]
pub enum IceTransportsType {
    NoCandidates,
    Relay,
    NoHost,
    All,
    Unknown(i32),
}

impl IceTransportsType {
    /// The native tag of this gathering policy.
    pub fn to_int(self) -> (r: i32)
        ensures
            self is NoCandidates ==> r == ICE_TRANSPORTS_TYPE_NONE,
            self is Relay ==> r == ICE_TRANSPORTS_TYPE_RELAY,
            self is NoHost ==> r == ICE_TRANSPORTS_TYPE_NO_HOST,
            self is All ==> r == ICE_TRANSPORTS_TYPE_ALL,
            self matches IceTransportsType::Unknown(v) ==> r == v,
    {
        match self {
            IceTransportsType::NoCandidates => ICE_TRANSPORTS_TYPE_NONE,
            IceTransportsType::Relay => ICE_TRANSPORTS_TYPE_RELAY,
            IceTransportsType::NoHost => ICE_TRANSPORTS_TYPE_NO_HOST,
            IceTransportsType::All => ICE_TRANSPORTS_TYPE_ALL,
            IceTransportsType::Unknown(v) => v,
        }
    }
}

/// One ICE server entry: its urls and credentials.
pub struct IceServer {
    urls: Vec<String>,
    username: String,
    password: String,
}

impl IceServer {
    /// An empty entry.
    pub fn new() -> (r: IceServer)
        ensures
            r.spec_urls().len() == 0,
            r.spec_username() == Seq::<char>::empty(),
            r.spec_password() == Seq::<char>::empty(),
    {
        IceServer { urls: Vec::new(), username: String::new(), password: String::new() }
    }

    /// The server urls.
    pub closed spec fn spec_urls(self) -> Seq<Seq<char>> {
        self.urls.deep_view()
    }

    /// The username.
    pub closed spec fn spec_username(self) -> Seq<char> {
        self.username@
    }

    /// The password.
    pub closed spec fn spec_password(self) -> Seq<char> {
        self.password@
    }

    /// Appends one url.
    pub fn add_url(&mut self, url: &str)
        ensures
            final(self).spec_urls() == old(self).spec_urls().push(url@),
            final(self).spec_username() == old(self).spec_username(),
            final(self).spec_password() == old(self).spec_password(),
    {
        self.urls.push(url.to_owned());
        proof {
            assert(final(self).spec_urls() =~= old(self).spec_urls().push(url@));
        }
    }

    /// Sets the username.
    pub fn set_username(&mut self, username: &str)
        ensures
            final(self).spec_username() == username@,
            final(self).spec_urls() == old(self).spec_urls(),
            final(self).spec_password() == old(self).spec_password(),
    {
        self.username = username.to_owned();
    }

    /// Sets the password.
    pub fn set_password(&mut self, password: &str)
        ensures
            final(self).spec_password() == password@,
            final(self).spec_urls() == old(self).spec_urls(),
            final(self).spec_username() == old(self).spec_username(),
    {
        self.password = password.to_owned();
    }

    /// A borrow-only view of the entry.
    pub fn as_ref(&self) -> (r: IceServerRef<'_>)
        ensures
            r.spec_urls() == self.spec_urls(),
            r.spec_username() == self.spec_username(),
            r.spec_password() == self.spec_password(),
    {
        IceServerRef { target: self }
    }

    /// The native address of the entry; never null.
    pub fn as_ptr(&self) -> (r: NativePtr)
        ensures
            r == (NativePtr { addr: 1 }),
    {
        NativePtr { addr: 1 }
    }

    /// A deep copy of the entry.
    pub fn clone_server(&self) -> (r: IceServer)
        ensures
            r.spec_urls() == self.spec_urls(),
            r.spec_username() == self.spec_username(),
            r.spec_password() == self.spec_password(),
    {
        let mut urls: Vec<String> = Vec::new();
        let mut i: usize = 0;
        while i < self.urls.len()
            invariant
                urls@.len() == i,
                i <= self.urls@.len(),
                forall|j: int| 0 <= j < i ==> (#[trigger] urls@[j])@ == self.urls@[j]@,
            decreases self.urls@.len() - i,
        {
            urls.push(self.urls[i].clone());
            i = i + 1;
        }
        let r = IceServer {
            urls,
            username: self.username.clone(),
            password: self.password.clone(),
        };
        proof {
            assert(r.spec_urls() =~= self.spec_urls());
        }
        r
    }
}

/// A borrowed view of an ICE server entry.
pub struct IceServerRef<'a> {
    target: &'a IceServer,
}

impl<'a> IceServerRef<'a> {
    /// Wraps a borrowed entry.
    pub fn from_raw(target: &'a IceServer) -> (r: IceServerRef<'a>)
        ensures
            r.spec_urls() == target.spec_urls(),
            r.spec_username() == target.spec_username(),
            r.spec_password() == target.spec_password(),
    {
        IceServerRef { target }
    }

    /// The urls of the viewed entry.
    pub closed spec fn spec_urls(self) -> Seq<Seq<char>> {
        self.target.spec_urls()
    }

    /// The username of the viewed entry.
    pub closed spec fn spec_username(self) -> Seq<char> {
        self.target.spec_username()
    }

    /// The password of the viewed entry.
    pub closed spec fn spec_password(self) -> Seq<char> {
        self.target.spec_password()
    }

    /// The native address of the entry; never null.
    pub fn as_ptr(&self) -> (r: NativePtr)
        ensures
            r == (NativePtr { addr: 1 }),
    {
        NativePtr { addr: 1 }
    }
}

/// An owned vector of ICE server entries.
pub struct IceServerVector {
    items: Vec<IceServer>,
}

impl IceServerVector {
    /// The held entries, by their usernames.
    pub closed spec fn spec_len(self) -> nat {
        self.items@.len()
    }

    /// A vector of `size` empty entries; a negative size gives an empty
    /// vector.
    pub fn new(size: i32) -> (r: IceServerVector)
        ensures
            size >= 0 ==> r.spec_len() == size,
            size < 0 ==> r.spec_len() == 0,
    {
        let n: usize = if size > 0 {
            size as usize
        } else {
            0
        };
        let mut items: Vec<IceServer> = Vec::new();
        let mut i: usize = 0;
        while i < n
            invariant
                items@.len() == i,
                i <= n,
            decreases n - i,
        {
            items.push(IceServer::new());
            i = i + 1;
        }
        IceServerVector { items }
    }

    /// The number of entries.
    pub fn len(&self) -> (r: usize)
        ensures
            r == self.spec_len(),
    {
        self.items.len()
    }

    /// Whether there are no entries.
    pub fn is_empty(&self) -> (r: bool)
        ensures
            r == (self.spec_len() == 0),
    {
        self.items.len() == 0
    }

    /// A borrowed view of the entry at `index`, when it is within range.
    pub fn get(&self, index: usize) -> (r: Option<IceServerRef<'_>>)
        ensures
            index < self.spec_len() ==> r is Some,
            index >= self.spec_len() ==> r is None,
    {
        if index < self.items.len() {
            Some(IceServerRef { target: &self.items[index] })
        } else {
            None
        }
    }

    /// Appends a deep copy of the given entry.
    pub fn push(&mut self, server: &IceServer)
        ensures
            final(self).spec_len() == old(self).spec_len() + 1,
    {
        self.items.push(server.clone_server());
    }

    /// The native address of the vector; never null.
    pub fn as_ptr(&self) -> (r: NativePtr)
        ensures
            r == (NativePtr { addr: 1 }),
    {
        NativePtr { addr: 1 }
    }

    /// A borrow-only view of the vector.
    pub fn as_ref(&self) -> (r: IceServerVectorRef<'_>)
        ensures
            r.spec_len() == self.spec_len(),
    {
        IceServerVectorRef { target: self }
    }
}

/// A borrowed view of an ICE server vector.
pub struct IceServerVectorRef<'a> {
    target: &'a IceServerVector,
}

impl<'a> IceServerVectorRef<'a> {
    /// Wraps a borrowed vector.
    pub fn from_raw(target: &'a IceServerVector) -> (r: IceServerVectorRef<'a>)
        ensures
            r.spec_len() == target.spec_len(),
    {
        IceServerVectorRef { target }
    }

    /// The number of entries of the viewed vector.
    pub closed spec fn spec_len(self) -> nat {
        self.target.spec_len()
    }

    /// The number of entries.
    pub fn len(&self) -> (r: usize)
        ensures
            r == self.spec_len(),
    {
        self.target.len()
    }

    /// Whether there are no entries.
    pub fn is_empty(&self) -> (r: bool)
        ensures
            r == (self.spec_len() == 0),
    {
        self.target.is_empty()
    }

    /// A borrowed view of the entry at `index`, when it is within range.
    pub fn get(&self, index: usize) -> (r: Option<IceServerRef<'a>>)
        ensures
            index < self.spec_len() ==> r is Some,
            index >= self.spec_len() ==> r is None,
    {
        self.target.get(index)
    }
}

/// The configuration a peer connection is created with.
pub struct PeerConnectionRtcConfiguration {
    ice_type: IceTransportsType,
    servers: IceServerVector,
}

impl PeerConnectionRtcConfiguration {
    /// Every candidate kind, no servers.
    pub fn new() -> (r: PeerConnectionRtcConfiguration)
        ensures
            r.spec_ice_type() == IceTransportsType::All,
            r.spec_server_len() == 0,
    {
        PeerConnectionRtcConfiguration {
            ice_type: IceTransportsType::All,
            servers: IceServerVector::new(0),
        }
    }

    /// The gathering policy.
    pub closed spec fn spec_ice_type(self) -> IceTransportsType {
        self.ice_type
    }

    /// The number of configured servers.
    pub closed spec fn spec_server_len(self) -> nat {
        self.servers.spec_len()
    }

    /// Sets the gathering policy.
    pub fn set_type(&mut self, ice_type: IceTransportsType)
        ensures
            final(self).spec_ice_type() == ice_type,
            final(self).spec_server_len() == old(self).spec_server_len(),
    {
        self.ice_type = ice_type;
    }

    /// The configured servers, for reading and updating in place.
    pub fn servers(&mut self) -> (r: &mut IceServerVector)
        ensures
            r.spec_len() == old(self).spec_server_len(),
            final(self).spec_server_len() == final(r).spec_len(),
            final(self).spec_ice_type() == old(self).spec_ice_type(),
    {
        &mut self.servers
    }

    /// The native address of the configuration; never null.
    pub fn as_ptr(&self) -> (r: NativePtr)
        ensures
            r == (NativePtr { addr: 1 }),
    {
        NativePtr { addr: 1 }
    }
}

/// The options an offer or answer is created with.
pub struct PeerConnectionOfferAnswerOptions {
    pub offer_to_receive_video: i32,
    pub offer_to_receive_audio: i32,
    pub voice_activity_detection: bool,
    pub ice_restart: bool,
    pub use_rtp_mux: bool,
    pub raw_packetization_for_video: bool,
    pub num_simulcast_layers: i32,
    pub use_obsolete_sctp_sdp: bool,
}

impl PeerConnectionOfferAnswerOptions {
    /// The native defaults.
    pub fn new() -> (r: PeerConnectionOfferAnswerOptions)
        ensures
            r.offer_to_receive_video == -1,
            r.offer_to_receive_audio == -1,
            r.voice_activity_detection,
            !r.ice_restart,
            r.use_rtp_mux,
            !r.raw_packetization_for_video,
            r.num_simulcast_layers == 1,
            !r.use_obsolete_sctp_sdp,
    {
        PeerConnectionOfferAnswerOptions {
            offer_to_receive_video: -1,
            offer_to_receive_audio: -1,
            voice_activity_detection: true,
            ice_restart: false,
            use_rtp_mux: true,
            raw_packetization_for_video: false,
            num_simulcast_layers: 1,
            use_obsolete_sctp_sdp: false,
        }
    }

    /// How many video receive slots are offered.
    pub fn offer_to_receive_video(&self) -> (r: i32)
        ensures
            r == self.offer_to_receive_video,
    {
        self.offer_to_receive_video
    }

    /// Sets how many video receive slots are offered.
    pub fn set_offer_to_receive_video(&mut self, value: i32)
        ensures
            *final(self) == (PeerConnectionOfferAnswerOptions {
                offer_to_receive_video: value,
                ..*old(self)
            }),
    {
        self.offer_to_receive_video = value;
    }

    /// How many audio receive slots are offered.
    pub fn offer_to_receive_audio(&self) -> (r: i32)
        ensures
            r == self.offer_to_receive_audio,
    {
        self.offer_to_receive_audio
    }

    /// Sets how many audio receive slots are offered.
    pub fn set_offer_to_receive_audio(&mut self, value: i32)
        ensures
            *final(self) == (PeerConnectionOfferAnswerOptions {
                offer_to_receive_audio: value,
                ..*old(self)
            }),
    {
        self.offer_to_receive_audio = value;
    }

    /// Whether voice activity detection is enabled.
    pub fn voice_activity_detection(&self) -> (r: bool)
        ensures
            r == self.voice_activity_detection,
    {
        self.voice_activity_detection
    }

    /// Sets whether voice activity detection is enabled.
    pub fn set_voice_activity_detection(&mut self, enable: bool)
        ensures
            *final(self) == (PeerConnectionOfferAnswerOptions {
                voice_activity_detection: enable,
                ..*old(self)
            }),
    {
        self.voice_activity_detection = enable;
    }

    /// Whether an ICE restart is requested.
    pub fn ice_restart(&self) -> (r: bool)
        ensures
            r == self.ice_restart,
    {
        self.ice_restart
    }

    /// Sets whether an ICE restart is requested.
    pub fn set_ice_restart(&mut self, enable: bool)
        ensures
            *final(self) == (PeerConnectionOfferAnswerOptions { ice_restart: enable, ..*old(self) }),
    {
        self.ice_restart = enable;
    }

    /// Whether RTP multiplexing is used.
    pub fn use_rtp_mux(&self) -> (r: bool)
        ensures
            r == self.use_rtp_mux,
    {
        self.use_rtp_mux
    }

    /// Sets whether RTP multiplexing is used.
    pub fn set_use_rtp_mux(&mut self, enable: bool)
        ensures
            *final(self) == (PeerConnectionOfferAnswerOptions { use_rtp_mux: enable, ..*old(self) }),
    {
        self.use_rtp_mux = enable;
    }

    /// Whether raw packetization is used for video.
    pub fn raw_packetization_for_video(&self) -> (r: bool)
        ensures
            r == self.raw_packetization_for_video,
    {
        self.raw_packetization_for_video
    }

    /// Sets whether raw packetization is used for video.
    pub fn set_raw_packetization_for_video(&mut self, enable: bool)
        ensures
            *final(self) == (PeerConnectionOfferAnswerOptions {
                raw_packetization_for_video: enable,
                ..*old(self)
            }),
    {
        self.raw_packetization_for_video = enable;
    }

    /// The number of simulcast layers.
    pub fn num_simulcast_layers(&self) -> (r: i32)
        ensures
            r == self.num_simulcast_layers,
    {
        self.num_simulcast_layers
    }

    /// Sets the number of simulcast layers.
    pub fn set_num_simulcast_layers(&mut self, num: i32)
        ensures
            *final(self) == (PeerConnectionOfferAnswerOptions {
                num_simulcast_layers: num,
                ..*old(self)
            }),
    {
        self.num_simulcast_layers = num;
    }

    /// Whether the obsolete SCTP SDP shape is used.
    pub fn use_obsolete_sctp_sdp(&self) -> (r: bool)
        ensures
            r == self.use_obsolete_sctp_sdp,
    {
        self.use_obsolete_sctp_sdp
    }

    /// Sets whether the obsolete SCTP SDP shape is used.
    pub fn set_use_obsolete_sctp_sdp(&mut self, enable: bool)
        ensures
            *final(self) == (PeerConnectionOfferAnswerOptions {
                use_obsolete_sctp_sdp: enable,
                ..*old(self)
            }),
    {
        self.use_obsolete_sctp_sdp = enable;
    }

    /// The native address of the options; never null.
    pub fn as_ptr(&self) -> (r: NativePtr)
        ensures
            r == (NativePtr { addr: 1 }),
    {
        NativePtr { addr: 1 }
    }
}

/// The native tag of the new state.
pub const PEER_CONNECTION_STATE_NEW: i32 = 0;

/// The native tag of the connecting state.
pub const PEER_CONNECTION_STATE_CONNECTING: i32 = 1;

/// The native tag of the connected state.
pub const PEER_CONNECTION_STATE_CONNECTED: i32 = 2;

/// The native tag of the disconnected state.
pub const PEER_CONNECTION_STATE_DISCONNECTED: i32 = 3;

/// The native tag of the failed state.
pub const PEER_CONNECTION_STATE_FAILED: i32 = 4;

/// The native tag of the closed state.
pub const PEER_CONNECTION_STATE_CLOSED: i32 = 5;

/// The connection state of a peer connection.
#[derive(Debug, Clone, Copy, PartialEq, Eq, Structural)]
pub enum PeerConnectionState {
    New,
    Connecting,
    Connected,
    Disconnected,
    Failed,
    Closed,
    Unknown(i32),
}

impl PeerConnectionState {
    /// The state with the given native tag.
    pub fn from_int(v: i32) -> (r: PeerConnectionState)
        ensures
            v == PEER_CONNECTION_STATE_NEW ==> r == PeerConnectionState::New,
            v == PEER_CONNECTION_STATE_CONNECTING ==> r == PeerConnectionState::Connecting,
            v == PEER_CONNECTION_STATE_CONNECTED ==> r == PeerConnectionState::Connected,
            v == PEER_CONNECTION_STATE_DISCONNECTED ==> r == PeerConnectionState::Disconnected,
            v == PEER_CONNECTION_STATE_FAILED ==> r == PeerConnectionState::Failed,
            v == PEER_CONNECTION_STATE_CLOSED ==> r == PeerConnectionState::Closed,
            v != PEER_CONNECTION_STATE_NEW && v != PEER_CONNECTION_STATE_CONNECTING && v
                != PEER_CONNECTION_STATE_CONNECTED && v != PEER_CONNECTION_STATE_DISCONNECTED
                && v != PEER_CONNECTION_STATE_FAILED && v != PEER_CONNECTION_STATE_CLOSED ==> r
                == PeerConnectionState::Unknown(v),
    {
        if v == PEER_CONNECTION_STATE_NEW {
            PeerConnectionState::New
        } else if v == PEER_CONNECTION_STATE_CONNECTING {
            PeerConnectionState::Connecting
        } else if v == PEER_CONNECTION_STATE_CONNECTED {
            PeerConnectionState::Connected
        } else if v == PEER_CONNECTION_STATE_DISCONNECTED {
            PeerConnectionState::Disconnected
        } else if v == PEER_CONNECTION_STATE_FAILED {
            PeerConnectionState::Failed
        } else if v == PEER_CONNECTION_STATE_CLOSED {
            PeerConnectionState::Closed
        } else {
            PeerConnectionState::Unknown(v)
        }
    }

    /// The native tag of this state.
    pub fn to_int(self) -> (r: i32)
        ensures
            self is New ==> r == PEER_CONNECTION_STATE_NEW,
            self is Connecting ==> r == PEER_CONNECTION_STATE_CONNECTING,
            self is Connected ==> r == PEER_CONNECTION_STATE_CONNECTED,
            self is Disconnected ==> r == PEER_CONNECTION_STATE_DISCONNECTED,
            self is Failed ==> r == PEER_CONNECTION_STATE_FAILED,
            self is Closed ==> r == PEER_CONNECTION_STATE_CLOSED,
            self matches PeerConnectionState::Unknown(v) ==> r == v,
    {
        match self {
            PeerConnectionState::New => PEER_CONNECTION_STATE_NEW,
            PeerConnectionState::Connecting => PEER_CONNECTION_STATE_CONNECTING,
            PeerConnectionState::Connected => PEER_CONNECTION_STATE_CONNECTED,
            PeerConnectionState::Disconnected => PEER_CONNECTION_STATE_DISCONNECTED,
            PeerConnectionState::Failed => PEER_CONNECTION_STATE_FAILED,
            PeerConnectionState::Closed => PEER_CONNECTION_STATE_CLOSED,
            PeerConnectionState::Unknown(v) => v,
        }
    }
}


/// Collects the optional observer callbacks for a peer connection before
/// they are registered as a bundle.
pub struct PeerConnectionObserverBuilder<F1, F2, F3, F4, F5> {
    on_connection_change: Option<F1>,
    on_track: Option<F2>,
    on_remove_track: Option<F3>,
    on_ice_candidate: Option<F4>,
    on_data_channel: Option<F5>,
}

impl PeerConnectionObserverBuilder<(), (), (), (), ()> {
    /// No callbacks yet.
    pub fn new() -> (r: PeerConnectionObserverBuilder<(), (), (), (), ()>)
        ensures
            !r.spec_has_on_connection_change(),
            !r.spec_has_on_track(),
            !r.spec_has_on_remove_track(),
            !r.spec_has_on_ice_candidate(),
            !r.spec_has_on_data_channel(),
    {
        PeerConnectionObserverBuilder {
            on_connection_change: None,
            on_track: None,
            on_remove_track: None,
            on_ice_candidate: None,
            on_data_channel: None,
        }
    }
}

impl<F1, F2, F3, F4, F5> PeerConnectionObserverBuilder<F1, F2, F3, F4, F5> {
    /// Whether a connection-change callback is collected.
    pub closed spec fn spec_has_on_connection_change(self) -> bool {
        self.on_connection_change is Some
    }

    /// Whether a track callback is collected.
    pub closed spec fn spec_has_on_track(self) -> bool {
        self.on_track is Some
    }

    /// Whether a remove-track callback is collected.
    pub closed spec fn spec_has_on_remove_track(self) -> bool {
        self.on_remove_track is Some
    }

    /// Whether a candidate callback is collected.
    pub closed spec fn spec_has_on_ice_candidate(self) -> bool {
        self.on_ice_candidate is Some
    }

    /// Whether a data-channel callback is collected.
    pub closed spec fn spec_has_on_data_channel(self) -> bool {
        self.on_data_channel is Some
    }

    /// Installs the connection-change callback.
    pub fn on_connection_change<G: FnMut(PeerConnectionState)>(self, g: G) -> (r:
        PeerConnectionObserverBuilder<G, F2, F3, F4, F5>)
        ensures
            r.spec_has_on_connection_change(),
            r.spec_has_on_track() == self.spec_has_on_track(),
            r.spec_has_on_remove_track() == self.spec_has_on_remove_track(),
            r.spec_has_on_ice_candidate() == self.spec_has_on_ice_candidate(),
            r.spec_has_on_data_channel() == self.spec_has_on_data_channel(),
    {
        PeerConnectionObserverBuilder {
            on_connection_change: Some(g),
            on_track: self.on_track,
            on_remove_track: self.on_remove_track,
            on_ice_candidate: self.on_ice_candidate,
            on_data_channel: self.on_data_channel,
        }
    }

    /// Installs the track callback.
    pub fn on_track<G: FnMut(RtpTransceiver)>(self, g: G) -> (r: PeerConnectionObserverBuilder<
        F1,
        G,
        F3,
        F4,
        F5,
    >)
        ensures
            r.spec_has_on_track(),
            r.spec_has_on_connection_change() == self.spec_has_on_connection_change(),
            r.spec_has_on_remove_track() == self.spec_has_on_remove_track(),
            r.spec_has_on_ice_candidate() == self.spec_has_on_ice_candidate(),
            r.spec_has_on_data_channel() == self.spec_has_on_data_channel(),
    {
        PeerConnectionObserverBuilder {
            on_connection_change: self.on_connection_change,
            on_track: Some(g),
            on_remove_track: self.on_remove_track,
            on_ice_candidate: self.on_ice_candidate,
            on_data_channel: self.on_data_channel,
        }
    }

    /// Installs the remove-track callback.
    pub fn on_remove_track<G: FnMut(RtpReceiver)>(self, g: G) -> (r:
        PeerConnectionObserverBuilder<F1, F2, G, F4, F5>)
        ensures
            r.spec_has_on_remove_track(),
            r.spec_has_on_connection_change() == self.spec_has_on_connection_change(),
            r.spec_has_on_track() == self.spec_has_on_track(),
            r.spec_has_on_ice_candidate() == self.spec_has_on_ice_candidate(),
            r.spec_has_on_data_channel() == self.spec_has_on_data_channel(),
    {
        PeerConnectionObserverBuilder {
            on_connection_change: self.on_connection_change,
            on_track: self.on_track,
            on_remove_track: Some(g),
            on_ice_candidate: self.on_ice_candidate,
            on_data_channel: self.on_data_channel,
        }
    }

    /// Installs the candidate callback; the candidate is handed over as
    /// an owned value.
    pub fn on_ice_candidate<G: FnMut(IceCandidate)>(self, g: G) -> (r:
        PeerConnectionObserverBuilder<F1, F2, F3, G, F5>)
        ensures
            r.spec_has_on_ice_candidate(),
            r.spec_has_on_connection_change() == self.spec_has_on_connection_change(),
            r.spec_has_on_track() == self.spec_has_on_track(),
            r.spec_has_on_remove_track() == self.spec_has_on_remove_track(),
            r.spec_has_on_data_channel() == self.spec_has_on_data_channel(),
    {
        PeerConnectionObserverBuilder {
            on_connection_change: self.on_connection_change,
            on_track: self.on_track,
            on_remove_track: self.on_remove_track,
            on_ice_candidate: Some(g),
            on_data_channel: self.on_data_channel,
        }
    }

    /// Installs the data-channel callback.
    pub fn on_data_channel<G: FnMut(DataChannel)>(self, g: G) -> (r:
        PeerConnectionObserverBuilder<F1, F2, F3, F4, G>)
        ensures
            r.spec_has_on_data_channel(),
            r.spec_has_on_connection_change() == self.spec_has_on_connection_change(),
            r.spec_has_on_track() == self.spec_has_on_track(),
            r.spec_has_on_remove_track() == self.spec_has_on_remove_track(),
            r.spec_has_on_ice_candidate() == self.spec_has_on_ice_candidate(),
    {
        PeerConnectionObserverBuilder {
            on_connection_change: self.on_connection_change,
            on_track: self.on_track,
            on_remove_track: self.on_remove_track,
            on_ice_candidate: self.on_ice_candidate,
            on_data_channel: Some(g),
        }
    }

    /// Finalizes the collection: allocates the bundle and its trampoline
    /// table and registers both with the native side. Each table slot is
    /// populated exactly when its callback was collected.
    pub fn build(self) -> (r: PeerConnectionObserver<F1, F2, F3, F4, F5>)
        ensures
            r.spec_has_on_connection_change() == self.spec_has_on_connection_change(),
            r.spec_has_on_track() == self.spec_has_on_track(),
            r.spec_has_on_remove_track() == self.spec_has_on_remove_track(),
            r.spec_has_on_ice_candidate() == self.spec_has_on_ice_candidate(),
            r.spec_has_on_data_channel() == self.spec_has_on_data_channel(),
            !r.spec_freed(),
            r.spec_log().len() == 0,
            crate::bundle::lifecycle_wf(r.spec_lifecycle()),
    {
        PeerConnectionObserver {
            on_connection_change: self.on_connection_change,
            on_track: self.on_track,
            on_remove_track: self.on_remove_track,
            on_ice_candidate: self.on_ice_candidate,
            on_data_channel: self.on_data_channel,
            lifecycle: crate::bundle::BundleLifecycle::register(),
            log: Ghost(Seq::empty()),
        }
    }
}

/// One native call into a peer connection observer, as the ghost call log
/// records it: the event values as handed to the slot.
pub enum PeerConnectionObserverCall {
    ConnectionChange { state: PeerConnectionState },
    Track { track_id: Seq<char> },
    RemoveTrack { track_id: Seq<char> },
    Candidate { text: Seq<char> },
    Channel { label: Seq<char> },
}

/// A registered peer connection observer bundle.
pub struct PeerConnectionObserver<F1, F2, F3, F4, F5> {
    on_connection_change: Option<F1>,
    on_track: Option<F2>,
    on_remove_track: Option<F3>,
    on_ice_candidate: Option<F4>,
    on_data_channel: Option<F5>,
    lifecycle: crate::bundle::BundleLifecycle,
    log: Ghost<Seq<PeerConnectionObserverCall>>,
}

/// Whether two observer states agree on slot presence.
pub open spec fn pc_observer_slots_equal<F1, F2, F3, F4, F5>(
    a: PeerConnectionObserver<F1, F2, F3, F4, F5>,
    b: PeerConnectionObserver<F1, F2, F3, F4, F5>,
) -> bool {
    &&& a.spec_has_on_connection_change() == b.spec_has_on_connection_change()
    &&& a.spec_has_on_track() == b.spec_has_on_track()
    &&& a.spec_has_on_remove_track() == b.spec_has_on_remove_track()
    &&& a.spec_has_on_ice_candidate() == b.spec_has_on_ice_candidate()
    &&& a.spec_has_on_data_channel() == b.spec_has_on_data_channel()
}

impl<F1, F2, F3, F4, F5> PeerConnectionObserver<F1, F2, F3, F4, F5> {
    /// Whether a connection-change callback is installed.
    pub closed spec fn spec_has_on_connection_change(self) -> bool {
        self.on_connection_change is Some
    }

    /// Whether a track callback is installed.
    pub closed spec fn spec_has_on_track(self) -> bool {
        self.on_track is Some
    }

    /// Whether a remove-track callback is installed.
    pub closed spec fn spec_has_on_remove_track(self) -> bool {
        self.on_remove_track is Some
    }

    /// Whether a candidate callback is installed.
    pub closed spec fn spec_has_on_ice_candidate(self) -> bool {
        self.on_ice_candidate is Some
    }

    /// Whether a data-channel callback is installed.
    pub closed spec fn spec_has_on_data_channel(self) -> bool {
        self.on_data_channel is Some
    }

    /// The installed connection-change callback, for reasoning about
    /// dispatch.
    pub closed spec fn spec_on_connection_change(self) -> Option<F1> {
        self.on_connection_change
    }

    /// The installed track callback, for reasoning about dispatch.
    pub closed spec fn spec_on_track(self) -> Option<F2> {
        self.on_track
    }

    /// The installed remove-track callback, for reasoning about dispatch.
    pub closed spec fn spec_on_remove_track(self) -> Option<F3> {
        self.on_remove_track
    }

    /// The installed candidate callback, for reasoning about dispatch.
    pub closed spec fn spec_on_ice_candidate(self) -> Option<F4> {
        self.on_ice_candidate
    }

    /// The installed data-channel callback, for reasoning about dispatch.
    pub closed spec fn spec_on_data_channel(self) -> Option<F5> {
        self.on_data_channel
    }

    /// Whether the teardown slot has freed this registration.
    pub closed spec fn spec_freed(self) -> bool {
        self.lifecycle.freed
    }

    /// The lifecycle of this registration.
    pub closed spec fn spec_lifecycle(self) -> crate::bundle::BundleLifecycle {
        self.lifecycle
    }

    /// Every dispatch so far, in native call order.
    pub closed spec fn spec_log(self) -> Seq<PeerConnectionObserverCall> {
        self.log@
    }

    /// The native address of the observer; never null.
    pub fn as_ptr(&self) -> (r: NativePtr)
        ensures
            r == (NativePtr { addr: 1 }),
    {
        NativePtr { addr: 1 }
    }

    /// The reserved teardown slot: the one code path that frees this
    /// registration, effective exactly once.
    pub fn on_destroy(&mut self) -> (freed_now: bool)
        requires
            crate::bundle::lifecycle_wf(old(self).spec_lifecycle()),
        ensures
            freed_now == !old(self).spec_freed(),
            final(self).spec_freed(),
            final(self).spec_log() == old(self).spec_log(),
            pc_observer_slots_equal(*old(self), *final(self)),
            crate::bundle::lifecycle_wf(final(self).spec_lifecycle()),
            final(self).spec_lifecycle().teardowns == 1,
    {
        self.lifecycle.on_destroy()
    }
}

impl<F1: FnMut(PeerConnectionState), F2, F3, F4, F5> PeerConnectionObserver<
    F1,
    F2,
    F3,
    F4,
    F5,
> {
    /// The connection-change trampoline: logs the state as handed over
    /// and invokes the installed callback; an absent slot does nothing,
    /// and a freed bundle is left untouched. Tests drive it directly.
    pub fn dispatch_connection_change(&mut self, state: PeerConnectionState)
        requires
            forall|f: F1, s: PeerConnectionState|
                old(self).spec_on_connection_change() == Some(f) ==> call_requires(f, (s,)),
        ensures
            final(self).spec_freed() == old(self).spec_freed(),
            final(self).spec_lifecycle() == old(self).spec_lifecycle(),
            pc_observer_slots_equal(*old(self), *final(self)),
            old(self).spec_freed() ==> *final(self) == *old(self),
            !old(self).spec_freed() ==> final(self).spec_log() == old(self).spec_log().push(
                (PeerConnectionObserverCall::ConnectionChange { state }),
            ),
    {
        if self.lifecycle.freed {
            return ;
        }
        proof {
            self.log@ = self.log@.push(PeerConnectionObserverCall::ConnectionChange { state });
        }
        match &mut self.on_connection_change {
            Some(f) => {
                f(state);
            },
            None => {},
        }
    }
}

impl<F1, F2: FnMut(RtpTransceiver), F3, F4, F5> PeerConnectionObserver<F1, F2, F3, F4, F5> {
    /// The track trampoline: logs the delivered transceiver's track and
    /// hands the transceiver to the installed callback; an absent slot
    /// drops it, and a freed bundle is left untouched.
    pub fn dispatch_track(&mut self, transceiver: RtpTransceiver)
        requires
            forall|f: F2, t: RtpTransceiver|
                old(self).spec_on_track() == Some(f) ==> call_requires(f, (t,)),
        ensures
            final(self).spec_freed() == old(self).spec_freed(),
            final(self).spec_lifecycle() == old(self).spec_lifecycle(),
            pc_observer_slots_equal(*old(self), *final(self)),
            old(self).spec_freed() ==> *final(self) == *old(self),
            !old(self).spec_freed() ==> final(self).spec_log() == old(self).spec_log().push(
                (PeerConnectionObserverCall::Track { track_id: transceiver.spec_track_id() }),
            ),
    {
        if self.lifecycle.freed {
            return ;
        }
        proof {
            self.log@ = self.log@.push(
                PeerConnectionObserverCall::Track { track_id: transceiver.spec_track_id() },
            );
        }
        match &mut self.on_track {
            Some(f) => {
                f(transceiver);
            },
            None => {},
        }
    }
}

impl<F1, F2, F3: FnMut(RtpReceiver), F4, F5> PeerConnectionObserver<F1, F2, F3, F4, F5> {
    /// The remove-track trampoline: logs the receiver's track and hands
    /// the receiver to the installed callback.
    pub fn dispatch_remove_track(&mut self, receiver: RtpReceiver)
        requires
            forall|f: F3, t: RtpReceiver| old(self).spec_on_remove_track() == Some(f) ==> call_requires(
                f,
                (t,),
            ),
        ensures
            final(self).spec_freed() == old(self).spec_freed(),
            final(self).spec_lifecycle() == old(self).spec_lifecycle(),
            pc_observer_slots_equal(*old(self), *final(self)),
            old(self).spec_freed() ==> *final(self) == *old(self),
            !old(self).spec_freed() ==> final(self).spec_log() == old(self).spec_log().push(
                (PeerConnectionObserverCall::RemoveTrack { track_id: receiver.spec_track_id() }),
            ),
    {
        if self.lifecycle.freed {
            return ;
        }
        proof {
            self.log@ = self.log@.push(
                PeerConnectionObserverCall::RemoveTrack { track_id: receiver.spec_track_id() },
            );
        }
        match &mut self.on_remove_track {
            Some(f) => {
                f(receiver);
            },
            None => {},
        }
    }
}

impl<F1, F2, F3, F4: FnMut(IceCandidate), F5> PeerConnectionObserver<F1, F2, F3, F4, F5> {
    /// The candidate trampoline: logs the candidate's text and hands the
    /// candidate to the installed callback.
    pub fn dispatch_ice_candidate(&mut self, candidate: IceCandidate)
        requires
            forall|f: F4, c: IceCandidate| old(self).spec_on_ice_candidate() == Some(f)
                ==> call_requires(f, (c,)),
        ensures
            final(self).spec_freed() == old(self).spec_freed(),
            final(self).spec_lifecycle() == old(self).spec_lifecycle(),
            pc_observer_slots_equal(*old(self), *final(self)),
            old(self).spec_freed() ==> *final(self) == *old(self),
            !old(self).spec_freed() ==> final(self).spec_log() == old(self).spec_log().push(
                (PeerConnectionObserverCall::Candidate { text: candidate.spec_text() }),
            ),
    {
        if self.lifecycle.freed {
            return ;
        }
        proof {
            self.log@ = self.log@.push(
                PeerConnectionObserverCall::Candidate { text: candidate.spec_text() },
            );
        }
        match &mut self.on_ice_candidate {
            Some(f) => {
                f(candidate);
            },
            None => {},
        }
    }
}

impl<F1, F2, F3, F4, F5: FnMut(DataChannel)> PeerConnectionObserver<F1, F2, F3, F4, F5> {
    /// The data-channel trampoline: logs the channel's label and hands
    /// the channel to the installed callback.
    pub fn dispatch_data_channel(&mut self, channel: DataChannel)
        requires
            forall|f: F5, c: DataChannel| old(self).spec_on_data_channel() == Some(f) ==> call_requires(
                f,
                (c,),
            ),
        ensures
            final(self).spec_freed() == old(self).spec_freed(),
            final(self).spec_lifecycle() == old(self).spec_lifecycle(),
            pc_observer_slots_equal(*old(self), *final(self)),
            old(self).spec_freed() ==> *final(self) == *old(self),
            !old(self).spec_freed() ==> final(self).spec_log() == old(self).spec_log().push(
                (PeerConnectionObserverCall::Channel { label: channel.spec_label() }),
            ),
    {
        if self.lifecycle.freed {
            return ;
        }
        proof {
            self.log@ = self.log@.push(
                PeerConnectionObserverCall::Channel { label: channel.spec_label() },
            );
        }
        match &mut self.on_data_channel {
            Some(f) => {
                f(channel);
            },
            None => {},
        }
    }
}

/// What a peer connection is created from: the observer registration.
pub struct PeerConnectionDependencies {
    observer_registered: bool,
}

impl PeerConnectionDependencies {
    /// Dependencies over a registered observer.
    pub fn new<F1, F2, F3, F4, F5>(observer: &PeerConnectionObserver<F1, F2, F3, F4, F5>) -> (r:
        PeerConnectionDependencies)
        ensures
            r.spec_observer_registered(),
    {
        PeerConnectionDependencies { observer_registered: true }
    }

    /// Whether an observer is registered.
    pub closed spec fn spec_observer_registered(self) -> bool {
        self.observer_registered
    }

    /// The native address of the dependencies; never null.
    pub fn as_ptr(&mut self) -> (r: NativePtr)
        ensures
            r == (NativePtr { addr: 1 }),
            *final(self) == *old(self),
    {
        NativePtr { addr: 1 }
    }
}

/// One delivery through a session-description observer, as the ghost call
/// log records it.
pub enum SessionDescriptionDelivery {
    Succeeded { kind: SdpType, sdp: Seq<char> },
    Failed { message: Seq<char> },
}

/// An observer for one create-offer or create-answer call: its success and
/// failure callbacks, both mandatory. The observer is refcounted on the
/// native side; construction takes its one reference and the teardown
/// releases it.
pub struct CreateSessionDescriptionObserver<S, F> {
    on_success: S,
    on_failure: F,
    lifecycle: crate::bundle::BundleLifecycle,
    log: Ghost<Seq<SessionDescriptionDelivery>>,
}

impl<S: FnMut(SessionDescription), F: FnMut(RtcError)> CreateSessionDescriptionObserver<S, F> {
    /// An observer over the two callbacks, holding one reference.
    pub fn new(on_success: S, on_failure: F) -> (r: CreateSessionDescriptionObserver<S, F>)
        ensures
            r.spec_on_success() == on_success,
            r.spec_on_failure() == on_failure,
            !r.spec_freed(),
            r.spec_log().len() == 0,
            crate::bundle::lifecycle_wf(r.spec_lifecycle()),
    {
        CreateSessionDescriptionObserver {
            on_success,
            on_failure,
            lifecycle: crate::bundle::BundleLifecycle::register(),
            log: Ghost(Seq::empty()),
        }
    }

    /// The success callback, for reasoning about dispatch.
    pub closed spec fn spec_on_success(self) -> S {
        self.on_success
    }

    /// The failure callback, for reasoning about dispatch.
    pub closed spec fn spec_on_failure(self) -> F {
        self.on_failure
    }

    /// Whether the teardown has released this observer's reference.
    pub closed spec fn spec_freed(self) -> bool {
        self.lifecycle.freed
    }

    /// The lifecycle of this observer's one reference.
    pub closed spec fn spec_lifecycle(self) -> crate::bundle::BundleLifecycle {
        self.lifecycle
    }

    /// Every delivery so far, in call order.
    pub closed spec fn spec_log(self) -> Seq<SessionDescriptionDelivery> {
        self.log@
    }

    /// The native address of the observer; never null.
    pub fn as_ptr(&self) -> (r: NativePtr)
        ensures
            r == (NativePtr { addr: 1 }),
    {
        NativePtr { addr: 1 }
    }

    /// The success trampoline: logs the created description as handed
    /// over and delivers it to the success callback; a released observer
    /// is left untouched.
    pub fn notify_success(&mut self, desc: SessionDescription)
        requires
            forall|f: S, d: SessionDescription|
                f == old(self).spec_on_success() ==> call_requires(f, (d,)),
        ensures
            final(self).spec_freed() == old(self).spec_freed(),
            final(self).spec_lifecycle() == old(self).spec_lifecycle(),
            old(self).spec_freed() ==> *final(self) == *old(self),
            !old(self).spec_freed() ==> final(self).spec_log() == old(self).spec_log().push(
                (SessionDescriptionDelivery::Succeeded {
                    kind: desc.spec_sdp_type(),
                    sdp: desc.spec_sdp(),
                }),
            ),
    {
        if self.lifecycle.freed {
            return ;
        }
        proof {
            self.log@ = self.log@.push(
                SessionDescriptionDelivery::Succeeded {
                    kind: desc.spec_sdp_type(),
                    sdp: desc.spec_sdp(),
                },
            );
        }
        (self.on_success)(desc);
    }

    /// The failure trampoline: logs the error as handed over and
    /// delivers it to the failure callback; a released observer is left
    /// untouched.
    pub fn notify_failure(&mut self, error: RtcError)
        requires
            forall|f: F, e: RtcError| f == old(self).spec_on_failure() ==> call_requires(
                f,
                (e,),
            ),
        ensures
            final(self).spec_freed() == old(self).spec_freed(),
            final(self).spec_lifecycle() == old(self).spec_lifecycle(),
            old(self).spec_freed() ==> *final(self) == *old(self),
            !old(self).spec_freed() ==> final(self).spec_log() == old(self).spec_log().push(
                (SessionDescriptionDelivery::Failed { message: error.spec_message() }),
            ),
    {
        if self.lifecycle.freed {
            return ;
        }
        proof {
            self.log@ = self.log@.push(
                SessionDescriptionDelivery::Failed { message: error.spec_message() },
            );
        }
        (self.on_failure)(error);
    }

    /// The teardown: releases the observer's one reference, exactly once.
    pub fn on_destroy(&mut self) -> (freed_now: bool)
        requires
            crate::bundle::lifecycle_wf(old(self).spec_lifecycle()),
        ensures
            freed_now == !old(self).spec_freed(),
            final(self).spec_freed(),
            final(self).spec_log() == old(self).spec_log(),
            crate::bundle::lifecycle_wf(final(self).spec_lifecycle()),
            final(self).spec_lifecycle().teardowns == 1,
    {
        self.lifecycle.on_destroy()
    }
}

/// One completion report through a set-description observer, as the ghost
/// call log records it.
pub enum DescriptionCompletion {
    Completed { ok: bool, message: Seq<char> },
}

/// An observer for one set-local-description call: its completion
/// callback, refcounted like its create counterpart.
pub struct SetLocalDescriptionObserver<F> {
    on_complete: F,
    lifecycle: crate::bundle::BundleLifecycle,
    log: Ghost<Seq<DescriptionCompletion>>,
}

impl<F: FnMut(RtcError)> SetLocalDescriptionObserver<F> {
    /// An observer over the completion callback, holding one reference.
    pub fn new(on_complete: F) -> (r: SetLocalDescriptionObserver<F>)
        ensures
            r.spec_on_complete() == on_complete,
            !r.spec_freed(),
            r.spec_log().len() == 0,
            crate::bundle::lifecycle_wf(r.spec_lifecycle()),
    {
        SetLocalDescriptionObserver {
            on_complete,
            lifecycle: crate::bundle::BundleLifecycle::register(),
            log: Ghost(Seq::empty()),
        }
    }

    /// The completion callback, for reasoning about dispatch.
    pub closed spec fn spec_on_complete(self) -> F {
        self.on_complete
    }

    /// Whether the teardown has released this observer's reference.
    pub closed spec fn spec_freed(self) -> bool {
        self.lifecycle.freed
    }

    /// The lifecycle of this observer's one reference.
    pub closed spec fn spec_lifecycle(self) -> crate::bundle::BundleLifecycle {
        self.lifecycle
    }

    /// Every completion report so far, in call order.
    pub closed spec fn spec_log(self) -> Seq<DescriptionCompletion> {
        self.log@
    }

    /// The payload address of the observer; never null.
    pub fn as_ptr(&self) -> (r: NativePtr)
        ensures
            r == (NativePtr { addr: 1 }),
    {
        NativePtr { addr: 1 }
    }

    /// The reference-pointer address of the observer; never null.
    pub fn as_refcounted_ptr(&self) -> (r: NativePtr)
        ensures
            r == (NativePtr { addr: 1 }),
    {
        NativePtr { addr: 1 }
    }

    /// The completion trampoline: logs the reported error as handed over
    /// and delivers it to the callback; a released observer is left
    /// untouched.
    pub fn notify_complete(&mut self, error: RtcError)
        requires
            forall|f: F, e: RtcError| f == old(self).spec_on_complete() ==> call_requires(
                f,
                (e,),
            ),
        ensures
            final(self).spec_freed() == old(self).spec_freed(),
            final(self).spec_lifecycle() == old(self).spec_lifecycle(),
            old(self).spec_freed() ==> *final(self) == *old(self),
            !old(self).spec_freed() ==> final(self).spec_log() == old(self).spec_log().push(
                (DescriptionCompletion::Completed {
                    ok: error.spec_ok(),
                    message: error.spec_message(),
                }),
            ),
    {
        if self.lifecycle.freed {
            return ;
        }
        proof {
            self.log@ = self.log@.push(
                DescriptionCompletion::Completed {
                    ok: error.spec_ok(),
                    message: error.spec_message(),
                },
            );
        }
        (self.on_complete)(error);
    }

    /// The teardown: releases the observer's one reference, exactly once.
    pub fn on_destroy(&mut self) -> (freed_now: bool)
        requires
            crate::bundle::lifecycle_wf(old(self).spec_lifecycle()),
        ensures
            freed_now == !old(self).spec_freed(),
            final(self).spec_freed(),
            final(self).spec_log() == old(self).spec_log(),
            crate::bundle::lifecycle_wf(final(self).spec_lifecycle()),
            final(self).spec_lifecycle().teardowns == 1,
    {
        self.lifecycle.on_destroy()
    }
}

/// An observer for one set-remote-description call: its completion
/// callback, refcounted like its create counterpart.
pub struct SetRemoteDescriptionObserver<F> {
    on_complete: F,
    lifecycle: crate::bundle::BundleLifecycle,
    log: Ghost<Seq<DescriptionCompletion>>,
}

impl<F: FnMut(RtcError)> SetRemoteDescriptionObserver<F> {
    /// An observer over the completion callback, holding one reference.
    pub fn new(on_complete: F) -> (r: SetRemoteDescriptionObserver<F>)
        ensures
            r.spec_on_complete() == on_complete,
            !r.spec_freed(),
            r.spec_log().len() == 0,
            crate::bundle::lifecycle_wf(r.spec_lifecycle()),
    {
        SetRemoteDescriptionObserver {
            on_complete,
            lifecycle: crate::bundle::BundleLifecycle::register(),
            log: Ghost(Seq::empty()),
        }
    }

    /// The completion callback, for reasoning about dispatch.
    pub closed spec fn spec_on_complete(self) -> F {
        self.on_complete
    }

    /// Whether the teardown has released this observer's reference.
    pub closed spec fn spec_freed(self) -> bool {
        self.lifecycle.freed
    }

    /// The lifecycle of this observer's one reference.
    pub closed spec fn spec_lifecycle(self) -> crate::bundle::BundleLifecycle {
        self.lifecycle
    }

    /// Every completion report so far, in call order.
    pub closed spec fn spec_log(self) -> Seq<DescriptionCompletion> {
        self.log@
    }

    /// The payload address of the observer; never null.
    pub fn as_ptr(&self) -> (r: NativePtr)
        ensures
            r == (NativePtr { addr: 1 }),
    {
        NativePtr { addr: 1 }
    }

    /// The reference-pointer address of the observer; never null.
    pub fn as_refcounted_ptr(&self) -> (r: NativePtr)
        ensures
            r == (NativePtr { addr: 1 }),
    {
        NativePtr { addr: 1 }
    }

    /// The completion trampoline: logs the reported error as handed over
    /// and delivers it to the callback; a released observer is left
    /// untouched.
    pub fn notify_complete(&mut self, error: RtcError)
        requires
            forall|f: F, e: RtcError| f == old(self).spec_on_complete() ==> call_requires(
                f,
                (e,),
            ),
        ensures
            final(self).spec_freed() == old(self).spec_freed(),
            final(self).spec_lifecycle() == old(self).spec_lifecycle(),
            old(self).spec_freed() ==> *final(self) == *old(self),
            !old(self).spec_freed() ==> final(self).spec_log() == old(self).spec_log().push(
                (DescriptionCompletion::Completed {
                    ok: error.spec_ok(),
                    message: error.spec_message(),
                }),
            ),
    {
        if self.lifecycle.freed {
            return ;
        }
        proof {
            self.log@ = self.log@.push(
                DescriptionCompletion::Completed {
                    ok: error.spec_ok(),
                    message: error.spec_message(),
                },
            );
        }
        (self.on_complete)(error);
    }

    /// The teardown: releases the observer's one reference, exactly once.
    pub fn on_destroy(&mut self) -> (freed_now: bool)
        requires
            crate::bundle::lifecycle_wf(old(self).spec_lifecycle()),
        ensures
            freed_now == !old(self).spec_freed(),
            final(self).spec_freed(),
            final(self).spec_log() == old(self).spec_log(),
            crate::bundle::lifecycle_wf(final(self).spec_lifecycle()),
            final(self).spec_lifecycle().teardowns == 1,
    {
        self.lifecycle.on_destroy()
    }
}

/// The SDP text of the minimal description the model offers: its version
/// line.
pub open spec fn model_sdp_text() -> Seq<char> {
    "v=0\r\n"@
}

/// A peer connection: its signaling state as far as the model keeps it.
pub struct PeerConnection {
    local_description: Option<(SdpType, String)>,
    remote_description: Option<(SdpType, String)>,
    transceiver_count: u64,
    sender_count: u64,
    data_channel_count: u64,
}

impl PeerConnection {
    /// Creates a peer connection; the model always succeeds.
    pub fn create(
        factory: &PeerConnectionFactory,
        config: &mut PeerConnectionRtcConfiguration,
        deps: &mut PeerConnectionDependencies,
    ) -> (r: RtcResult<PeerConnection>)
        ensures
            r is Ok,
            r->Ok_0.spec_local_description() is None,
            r->Ok_0.spec_remote_description() is None,
            r->Ok_0.spec_transceiver_count() == 0,
            r->Ok_0.spec_sender_count() == 0,
            r->Ok_0.spec_data_channel_count() == 0,
    {
        Ok(
            PeerConnection {
                local_description: None,
                remote_description: None,
                transceiver_count: 0,
                sender_count: 0,
                data_channel_count: 0,
            },
        )
    }

    /// The applied local description, when one is set.
    pub closed spec fn spec_local_description(self) -> Option<(SdpType, Seq<char>)> {
        match self.local_description {
            Some((t, s)) => Some((t, s@)),
            None => None,
        }
    }

    /// The applied remote description, when one is set.
    pub closed spec fn spec_remote_description(self) -> Option<(SdpType, Seq<char>)> {
        match self.remote_description {
            Some((t, s)) => Some((t, s@)),
            None => None,
        }
    }

    /// How many transceivers were added.
    pub closed spec fn spec_transceiver_count(self) -> u64 {
        self.transceiver_count
    }

    /// How many senders were added.
    pub closed spec fn spec_sender_count(self) -> u64 {
        self.sender_count
    }

    /// How many data channels were created.
    pub closed spec fn spec_data_channel_count(self) -> u64 {
        self.data_channel_count
    }

    /// Creates an offer over the current state and delivers exactly one
    /// offer description with the model's SDP text to the observer's
    /// success callback.
    pub fn create_offer<S: FnMut(SessionDescription), F: FnMut(RtcError)>(
        &self,
        observer: &mut CreateSessionDescriptionObserver<S, F>,
        options: &mut PeerConnectionOfferAnswerOptions,
    )
        requires
            forall|f: S, d: SessionDescription|
                f == old(observer).spec_on_success() ==> call_requires(f, (d,)),
        ensures
            final(observer).spec_freed() == old(observer).spec_freed(),
            old(observer).spec_freed() ==> *final(observer) == *old(observer),
            !old(observer).spec_freed() ==> final(observer).spec_log() == old(
                observer,
            ).spec_log().push(
                (SessionDescriptionDelivery::Succeeded {
                    kind: SdpType::Offer,
                    sdp: model_sdp_text(),
                }),
            ),
    {
        let sdp = model_sdp();
        match SessionDescription::new(SdpType::Offer, sdp.as_str()) {
            Ok(desc) => observer.notify_success(desc),
            Err(_) => {
                proof {
                    assert(false);
                }
            },
        }
    }

    /// Creates an answer over the current state and delivers exactly one
    /// answer description with the model's SDP text to the observer's
    /// success callback.
    pub fn create_answer<S: FnMut(SessionDescription), F: FnMut(RtcError)>(
        &self,
        observer: &mut CreateSessionDescriptionObserver<S, F>,
        options: &mut PeerConnectionOfferAnswerOptions,
    )
        requires
            forall|f: S, d: SessionDescription|
                f == old(observer).spec_on_success() ==> call_requires(f, (d,)),
        ensures
            final(observer).spec_freed() == old(observer).spec_freed(),
            old(observer).spec_freed() ==> *final(observer) == *old(observer),
            !old(observer).spec_freed() ==> final(observer).spec_log() == old(
                observer,
            ).spec_log().push(
                (SessionDescriptionDelivery::Succeeded {
                    kind: SdpType::Answer,
                    sdp: model_sdp_text(),
                }),
            ),
    {
        let sdp = model_sdp();
        match SessionDescription::new(SdpType::Answer, sdp.as_str()) {
            Ok(desc) => observer.notify_success(desc),
            Err(_) => {
                proof {
                    assert(false);
                }
            },
        }
    }

    /// Applies a local description and reports a successful completion to
    /// the observer, exactly once.
    pub fn set_local_description<F: FnMut(RtcError)>(
        &mut self,
        desc: SessionDescription,
        observer: &mut SetLocalDescriptionObserver<F>,
    )
        requires
            forall|f: F, e: RtcError| f == old(observer).spec_on_complete() ==> call_requires(
                f,
                (e,),
            ),
        ensures
            final(self).spec_local_description() == Some(
                (desc.spec_sdp_type(), desc.spec_sdp()),
            ),
            final(self).spec_remote_description() == old(self).spec_remote_description(),
            final(self).spec_transceiver_count() == old(self).spec_transceiver_count(),
            final(self).spec_sender_count() == old(self).spec_sender_count(),
            final(self).spec_data_channel_count() == old(self).spec_data_channel_count(),
            final(observer).spec_freed() == old(observer).spec_freed(),
            old(observer).spec_freed() ==> *final(observer) == *old(observer),
            !old(observer).spec_freed() ==> final(observer).spec_log() == old(
                observer,
            ).spec_log().push(
                (DescriptionCompletion::Completed { ok: true, message: Seq::empty() }),
            ),
    {
        let raw = desc.into_raw();
        self.local_description = Some(raw);
        observer.notify_complete(RtcError::new_ok());
    }

    /// Applies a remote description and reports a successful completion
    /// to the observer, exactly once.
    pub fn set_remote_description<F: FnMut(RtcError)>(
        &mut self,
        desc: SessionDescription,
        observer: &mut SetRemoteDescriptionObserver<F>,
    )
        requires
            forall|f: F, e: RtcError| f == old(observer).spec_on_complete() ==> call_requires(
                f,
                (e,),
            ),
        ensures
            final(self).spec_remote_description() == Some(
                (desc.spec_sdp_type(), desc.spec_sdp()),
            ),
            final(self).spec_local_description() == old(self).spec_local_description(),
            final(self).spec_transceiver_count() == old(self).spec_transceiver_count(),
            final(self).spec_sender_count() == old(self).spec_sender_count(),
            final(self).spec_data_channel_count() == old(self).spec_data_channel_count(),
            final(observer).spec_freed() == old(observer).spec_freed(),
            old(observer).spec_freed() ==> *final(observer) == *old(observer),
            !old(observer).spec_freed() ==> final(observer).spec_log() == old(
                observer,
            ).spec_log().push(
                (DescriptionCompletion::Completed { ok: true, message: Seq::empty() }),
            ),
    {
        let raw = desc.into_raw();
        self.remote_description = Some(raw);
        observer.notify_complete(RtcError::new_ok());
    }

    /// Applies an ICE candidate; a candidate value is already parsed, so
    /// the model always succeeds.
    pub fn add_ice_candidate(&self, candidate: &IceCandidate) -> (r: RtcResult<()>)
        ensures
            r is Ok,
    {
        Ok(())
    }

    /// Applies a new configuration; the model always succeeds.
    pub fn set_configuration(&self, config: &mut PeerConnectionRtcConfiguration) -> (r: RtcResult<
        (),
    >)
        ensures
            r is Ok,
    {
        Ok(())
    }

    /// Creates a data channel with the given label.
    pub fn create_data_channel(&mut self, label: &str, init: &mut DataChannelInit) -> (r:
        RtcResult<DataChannel>)
        requires
            old(self).spec_data_channel_count() < u64::MAX,
        ensures
            r is Ok,
            r->Ok_0.spec_label() == label@,
            final(self).spec_data_channel_count() == old(self).spec_data_channel_count() + 1,
            final(self).spec_local_description() == old(self).spec_local_description(),
            final(self).spec_remote_description() == old(self).spec_remote_description(),
            final(self).spec_transceiver_count() == old(self).spec_transceiver_count(),
            final(self).spec_sender_count() == old(self).spec_sender_count(),
    {
        self.data_channel_count = self.data_channel_count + 1;
        Ok(DataChannel::new(label))
    }

    /// Adds a transceiver of the given media kind.
    pub fn add_transceiver(&mut self, media_type: MediaType, init: &mut RtpTransceiverInit) -> (r:
        RtcResult<RtpTransceiver>)
        requires
            old(self).spec_transceiver_count() < u64::MAX,
        ensures
            r is Ok,
            r->Ok_0.spec_direction() == old(init).spec_direction(),
            final(self).spec_transceiver_count() == old(self).spec_transceiver_count() + 1,
            final(self).spec_local_description() == old(self).spec_local_description(),
            final(self).spec_remote_description() == old(self).spec_remote_description(),
            final(self).spec_sender_count() == old(self).spec_sender_count(),
            final(self).spec_data_channel_count() == old(self).spec_data_channel_count(),
    {
        self.transceiver_count = self.transceiver_count + 1;
        let kind = match media_type {
            MediaType::Audio => "audio",
            MediaType::Video => "video",
            MediaType::Unknown(_) => "unknown",
        };
        let track = MediaStreamTrack::new(kind, "");
        Ok(RtpTransceiver::new(init.direction(), track))
    }

    /// Adds a transceiver sending the given video track.
    pub fn add_transceiver_with_track(
        &mut self,
        track: &VideoTrack,
        init: &mut RtpTransceiverInit,
    ) -> (r: RtcResult<RtpTransceiver>)
        requires
            old(self).spec_transceiver_count() < u64::MAX,
        ensures
            r is Ok,
            r->Ok_0.spec_direction() == old(init).spec_direction(),
            final(self).spec_transceiver_count() == old(self).spec_transceiver_count() + 1,
            final(self).spec_local_description() == old(self).spec_local_description(),
            final(self).spec_remote_description() == old(self).spec_remote_description(),
            final(self).spec_sender_count() == old(self).spec_sender_count(),
            final(self).spec_data_channel_count() == old(self).spec_data_channel_count(),
    {
        self.transceiver_count = self.transceiver_count + 1;
        let stream_track = track.cast_to_media_stream_track();
        Ok(RtpTransceiver::new(init.direction(), stream_track))
    }

    /// Adds the given track and returns its sender.
    pub fn add_track(&mut self, track: &MediaStreamTrack, stream_ids: &StringVector) -> (r:
        RtcResult<RtpSender>)
        requires
            old(self).spec_sender_count() < u64::MAX,
        ensures
            r is Ok,
            final(self).spec_sender_count() == old(self).spec_sender_count() + 1,
            final(self).spec_local_description() == old(self).spec_local_description(),
            final(self).spec_remote_description() == old(self).spec_remote_description(),
            final(self).spec_transceiver_count() == old(self).spec_transceiver_count(),
            final(self).spec_data_channel_count() == old(self).spec_data_channel_count(),
    {
        self.sender_count = self.sender_count + 1;
        Ok(RtpSender::new())
    }

    /// Collects statistics and delivers the model's empty report to the
    /// callback, exactly once: the callback's postcondition holds of a
    /// report carrying the empty JSON list.
    pub fn get_stats<F: FnOnce(RTCStatsReport)>(&self, on_stats: F)
        requires
            forall|rep: RTCStatsReport| call_requires(on_stats, (rep,)),
        ensures
            exists|rep: RTCStatsReport|
                rep.spec_json() == "[]"@ && #[trigger] call_ensures(on_stats, (rep,), ()),
    {
        let report = RTCStatsReport::new("[]");
        let ghost rep = report;
        on_stats(report);
        proof {
            assert(rep.spec_json() == "[]"@ && call_ensures(on_stats, (rep,), ()));
        }
    }

    /// The native address of the connection; never null.
    pub fn as_ptr(&self) -> (r: NativePtr)
        ensures
            r == (NativePtr { addr: 1 }),
    {
        NativePtr { addr: 1 }
    }
}

/// The minimal session description the model offers: the version line.
fn model_sdp() -> (r: String)
    ensures
        r@ == model_sdp_text(),
        crate::api::jsep::sdp_text_ok(vstd::utf8::encode_utf8(r@)),
{
    let s = "v=0\r\n".to_owned();
    proof {
        reveal_strlit("v=0\r\n");
        assert(s@.len() == 5);
        assert(vstd::utf8::is_ascii_chars(s@)) by {
            assert(s@[0] == 'v' && s@[1] == '=' && s@[2] == '0' && s@[3] == '\r' && s@[4]
                == '\n');
            assert forall|i: int| 0 <= i < s@.len() implies '\0' <= #[trigger] s@[i]
                <= '\u{7f}' by {
                if i == 0 {
                } else if i == 1 {
                } else if i == 2 {
                } else if i == 3 {
                } else {
                    assert(i == 4);
                }
            }
        }
        vstd::utf8::is_ascii_chars_encode_utf8(s@);
        assert(vstd::utf8::encode_utf8(s@)[0] == 'v' as u8);
        assert(vstd::utf8::encode_utf8(s@)[1] == '=' as u8);
    }
    s
}

} // verus!

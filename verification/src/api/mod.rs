pub mod environment;
pub mod video;
pub mod video_codec_common;
pub mod video_decoder;
pub mod video_encoder;
pub mod jsep;
pub mod media_types;
pub mod audio;
pub mod peer_connection;
pub mod data_channel;
pub mod rtc_error;
pub mod rtc_event_log;
pub mod stats;
pub mod rtp;

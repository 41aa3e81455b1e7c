pub mod crypto_random;
pub mod logging;
pub mod thread;
pub mod time_utils;
pub mod timestamp_aligner;

pub use crypto_random::{random_bytes, random_string};
pub use logging::rtc_log_format_file;
pub use thread::{Thread, thread_sleep_ms};
pub use time_utils::time_millis;
pub use timestamp_aligner::TimestampAligner;

//! Logging configuration and output.
//!
//! The model keeps no log sink: configuration and messages are accepted,
//! validated, and dropped, which is all a caller can observe of a logger
//! whose output goes to the debug console.

use vstd::prelude::*;
use vstd::string::StrSliceExecFns;

verus! {

/// The native tag of verbose logging.
pub const LOG_SEVERITY_VERBOSE: i32 = 0;

/// The native tag of info logging.
pub const LOG_SEVERITY_INFO: i32 = 1;

/// The native tag of warning logging.
pub const LOG_SEVERITY_WARNING: i32 = 2;

/// The native tag of error logging.
pub const LOG_SEVERITY_ERROR: i32 = 3;

/// The native tag of disabled logging.
pub const LOG_SEVERITY_NONE: i32 = 4;

/// The severity of a log line.
#[derive(Debug, Clone, Copy, PartialEq, Eq, Structural)]
pub enum Severity {
    Verbose,
    Info,
    Warning,
    Error,
    Off,
    Raw(i32),
}

impl Severity {
    /// The native tag of this severity.
    pub fn to_int(self) -> (r: i32)
        ensures
            self is Verbose ==> r == LOG_SEVERITY_VERBOSE,
            self is Info ==> r == LOG_SEVERITY_INFO,
            self is Warning ==> r == LOG_SEVERITY_WARNING,
            self is Error ==> r == LOG_SEVERITY_ERROR,
            self is Off ==> r == LOG_SEVERITY_NONE,
            self matches Severity::Raw(v) ==> r == v,
    {
        match self {
            Severity::Verbose => LOG_SEVERITY_VERBOSE,
            Severity::Info => LOG_SEVERITY_INFO,
            Severity::Warning => LOG_SEVERITY_WARNING,
            Severity::Error => LOG_SEVERITY_ERROR,
            Severity::Off => LOG_SEVERITY_NONE,
            Severity::Raw(v) => v,
        }
    }
}

/// Routes log output at or above the given severity to the debug sink.
pub fn log_to_debug(severity: Severity) {
    let _ = severity.to_int();
}

/// Enables timestamps on log lines.
pub fn enable_timestamps() {
}

/// Enables thread names on log lines.
pub fn enable_threads() {
}

/// Emits one log line.
pub fn print(severity: Severity, file: &str, line: i32, message: &str) {
    let _ = severity.to_int();
}

/// Where the file name of a path starts: one past the last separator.
pub open spec fn basename_start(s: Seq<char>, k: int) -> int
    decreases k,
{
    if k <= 0 {
        0
    } else if s[k - 1] == '/' {
        k
    } else {
        basename_start(s, k - 1)
    }
}

/// The log tag of a source file: the crate name, two colons, and the
/// file's base name.
pub fn rtc_log_format_file(crate_name: &str, file: &str) -> (r: String)
    ensures
        r@ == crate_name@ + "::"@ + file@.skip(basename_start(file@, file@.len() as int)),
{
    let n = file.unicode_len();
    let mut i: usize = 0;
    let mut cut: usize = 0;
    while i < n
        invariant
            n == file@.len(),
            0 <= i <= n,
            0 <= cut <= i,
            cut == basename_start(file@, i as int),
        decreases n - i,
    {
        if file.get_char(i) == '/' {
            cut = i + 1;
        }
        i = i + 1;
    }
    let suffix = file.substring_char(cut, n);
    let mut out = crate_name.to_owned();
    out.append("::");
    out.append(suffix);
    proof {
        assert(file@.subrange(cut as int, n as int) =~= file@.skip(
            basename_start(file@, file@.len() as int),
        ));
    }
    out
}

} // verus!

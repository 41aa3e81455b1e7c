//! The model of `webrtc::TimestampAligner`: translated timestamps follow
//! the system clock and never go backwards.

use vstd::prelude::*;

verus! {

/// What one translation yields: the system time, clipped so that it
/// strictly exceeds the previous translation; the increment saturates at
/// the largest representable time.
pub open spec fn aligned_timestamp(prev: Option<i64>, now_us: i64) -> i64 {
    match prev {
        None => now_us,
        Some(p) => {
            let bumped = if p == i64::MAX {
                i64::MAX
            } else {
                (p + 1) as i64
            };
            if now_us >= bumped {
                now_us
            } else {
                bumped
            }
        },
    }
}

/// Aligns capture timestamps with the system clock, monotonically.
pub struct TimestampAligner {
    prev: Option<i64>,
}

impl TimestampAligner {
    /// An aligner with no translation done yet.
    pub fn new() -> (r: TimestampAligner)
        ensures
            r.spec_prev() is None,
    {
        TimestampAligner { prev: None }
    }

    /// The previous translation, when one was made.
    pub closed spec fn spec_prev(self) -> Option<i64> {
        self.prev
    }

    /// Translates a capture timestamp into the system clock: the system
    /// time, never at or below the previous translation.
    pub fn translate(&mut self, timestamp_us: i64, now_us: i64) -> (r: i64)
        ensures
            r == aligned_timestamp(old(self).spec_prev(), now_us),
            final(self).spec_prev() == Some(r),
            r >= now_us,
            old(self).spec_prev() matches Some(p) ==> (p == i64::MAX || r > p),
    {
        let r = match self.prev {
            None => now_us,
            Some(p) => {
                let bumped = if p == i64::MAX {
                    i64::MAX
                } else {
                    p + 1
                };
                if now_us >= bumped {
                    now_us
                } else {
                    bumped
                }
            },
        };
        self.prev = Some(r);
        r
    }
}

} // verus!

//! Wall-clock time.

use vstd::prelude::*;

verus! {

/// The milliseconds of wall-clock time since the Unix epoch, capped at
/// the largest representable value.
///
/// Relies on std::time::SystemTime: `now` reads the system clock, and
/// `duration_since` the span from the epoch. Of a clock reading nothing
/// more is promised than its sign.
#[verifier::external_body]
pub fn time_millis() -> (r: i64)
    ensures
        r >= 0,
{
    match std::time::SystemTime::now().duration_since(std::time::UNIX_EPOCH) {
        Ok(d) => {
            let ms = d.as_millis();
            if ms > i64::MAX as u128 {
                i64::MAX
            } else {
                ms as i64
            }
        },
        Err(_) => 0,
    }
}

} // verus!

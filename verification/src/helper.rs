//! The clock and the text of a timestamp.

use std::time::{Duration, UNIX_EPOCH};
use time::format_description::well_known::Rfc3339;
use time::OffsetDateTime;
use vstd::prelude::*;

verus! {

/// The text of the UTC date and time that lies `unix` seconds after the Unix
/// epoch, in the form of RFC 3339 (`1970-01-01T00:00:00Z` for 0), as the
/// `time` crate writes it; `None` where that crate has no such text for the
/// time.
pub uninterp spec fn rfc3339_utc(unix: i64) -> Option<Seq<char>>;

/// The time since the Unix epoch by the system clock: `SystemTime::elapsed`
/// of `UNIX_EPOCH`. `None` where the clock stands before the epoch.
#[verifier::external_body]
fn since_epoch() -> Option<Duration> {
    UNIX_EPOCH.elapsed().ok()
}

/// `Duration::as_secs`: the whole seconds of a duration.
pub assume_specification[ Duration::as_secs ](duration: &Duration) -> u64;

/// Seconds since the Unix epoch by the system clock, 0 where the clock
/// stands before the epoch. Which number it is goes by the clock; it is
/// never negative.
pub(crate) fn now() -> (r: i64)
    ensures
        0 <= r,
{
    match since_epoch() {
        Some(elapsed) => {
            let secs: u64 = elapsed.as_secs();
            if secs <= 0x7fff_ffff_ffff_ffff {
                secs as i64
            } else {
                i64::MAX
            }
        },
        None => 0,
    }
}

/// The RFC 3339 text of a Unix timestamp in UTC, `None` where it has none.
///
/// Calls `time::OffsetDateTime::from_unix_timestamp` and formats the result
/// with `time::format_description::well_known::Rfc3339`. Both are functions
/// of the argument alone; an error of either gives `None`.
#[verifier::external_body]
pub fn format_unix_timestamp(unix: i64) -> (r: Option<String>)
    ensures
        r is Some <==> rfc3339_utc(unix) is Some,
        r is Some ==> r->Some_0@ == rfc3339_utc(unix)->Some_0,
{
    match OffsetDateTime::from_unix_timestamp(unix) {
        Ok(time) => time.format(&Rfc3339).ok(),
        Err(_) => None,
    }
}

} // verus!

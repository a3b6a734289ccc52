//! Wall-clock time as Discord expects it: milliseconds since the Unix epoch.

use vstd::prelude::*;
use core::time::Duration;
use std::time::{SystemTime, UNIX_EPOCH};

verus! {

#[verifier::external_type_specification]
#[verifier::external_body]
pub struct ExSystemTime(SystemTime);

/// `SystemTime::now`: the current wall-clock time. Nothing is stated of it.
#[verifier::external_body]
fn system_time_now() -> SystemTime {
    SystemTime::now()
}

/// `SystemTime::duration_since(UNIX_EPOCH)`: how long after the epoch `t`
/// lies, or `None` where it lies before. Nothing is stated of the value.
#[verifier::external_body]
fn since_unix_epoch(t: &SystemTime) -> Option<Duration> {
    t.duration_since(UNIX_EPOCH).ok()
}

/// The whole milliseconds of a duration (what `Duration::as_millis` gives).
pub uninterp spec fn duration_whole_millis(d: Duration) -> u128;

/// `Duration::as_millis`: the whole milliseconds of `d`, a function of `d`
/// alone. A `Duration` is opaque here, so its value is only named.
#[verifier::external_body]
fn duration_millis(d: &Duration) -> (r: u128)
    ensures
        r == duration_whole_millis(*d),
{
    d.as_millis()
}

/// A count of milliseconds as an `i64`, saturating at `i64::MAX`.
pub fn timestamp_from_millis(ms: u128) -> (r: i64)
    ensures
        r == (if ms <= i64::MAX as u128 { ms as int } else { i64::MAX as int }),
{
    if ms <= i64::MAX as u128 {
        ms as i64
    } else {
        i64::MAX
    }
}

/// The timestamp Discord is given for a clock reading: `None` stands for a
/// clock before the epoch and gives 0; otherwise the milliseconds since the
/// epoch, saturating at `i64::MAX`.
pub fn timestamp_since_epoch(ms: Option<u128>) -> (r: i64)
    ensures
        r == match ms {
            None => 0,
            Some(m) => if m <= i64::MAX as u128 { m as int } else { i64::MAX as int },
        },
        ms matches Some(m) ==> r == saturated_millis(m),
{
    match ms {
        None => 0,
        Some(m) => timestamp_from_millis(m),
    }
}

/// The current time in milliseconds since the Unix epoch; zero where the
/// clock stands before the epoch, `i64::MAX` where it is beyond range.
pub fn time() -> (r: i64)
    ensures
        r >= 0,
        r == 0 || exists|d: Duration| r == saturated_millis(#[trigger] duration_whole_millis(d)),
{
    let now = system_time_now();
    let ms = match since_unix_epoch(&now) {
        Some(d) => {
            let m = duration_millis(&d);
            assert(saturated_millis(duration_whole_millis(d)) == saturated_millis(m));
            Some(m)
        },
        None => None,
    };
    timestamp_since_epoch(ms)
}

/// Whole milliseconds as a timestamp: unchanged where they fit an `i64`,
/// `i64::MAX` beyond.
pub open spec fn saturated_millis(m: u128) -> int {
    if m <= i64::MAX as u128 {
        m as int
    } else {
        i64::MAX as int
    }
}

/// A clock reading that fits is passed on as the same number of
/// milliseconds; readings keep their order; a clock before the epoch gives
/// the earliest timestamp, 0.
pub proof fn lemma_timestamp_keeps_millis(m: u128, n: u128)
    ensures
        m <= i64::MAX as u128 ==> saturated_millis(m) == m,
        m <= n ==> saturated_millis(m) <= saturated_millis(n),
        0 <= saturated_millis(m) <= i64::MAX,
{
}

} // verus!

use vstd::prelude::*;

use std::time::{Duration, Instant, SystemTime, SystemTimeError};

verus! {

/// `Duration` is `Copy`; its `clone` hands back the same value.
pub assume_specification[ <Duration as Clone>::clone ](d: &Duration) -> (res: Duration)
    ensures
        res == *d,
;

/// The whole nanoseconds a `Duration` spans, as `Duration::as_nanos` reports them.
pub uninterp spec fn duration_nanos(d: Duration) -> u128;

/// `Duration::from_millis` builds a duration of exactly the given milliseconds.
pub assume_specification[ Duration::from_millis ](millis: u64) -> (d: Duration)
    ensures
        duration_nanos(d) == millis * 1_000_000,
;

/// `Duration::from_micros` builds a duration of exactly the given microseconds.
pub assume_specification[ Duration::from_micros ](micros: u64) -> (d: Duration)
    ensures
        duration_nanos(d) == micros * 1_000,
;

#[verifier::external_type_specification]
#[verifier::external_body]
pub struct ExInstant(Instant);

/// `Instant::now` reads the monotonic clock; nothing is stated of the reading.
pub assume_specification[ Instant::now ]() -> Instant;

/// `Instant::elapsed` measures the time since the instant; it depends on the clock, so
/// nothing is stated of the result.
pub assume_specification[ Instant::elapsed ](instant: &Instant) -> Duration;

/// `Duration::as_nanos` gives the whole duration in nanoseconds; a duration holds at
/// most `u64::MAX` seconds and under a second of nanoseconds, which bounds the count.
pub assume_specification[ Duration::as_nanos ](d: &Duration) -> (n: u128)
    ensures
        n == duration_nanos(*d),
        n < 18446744073709551616000000000u128,
;

/// `Instant::duration_since` measures between two clock readings, saturating at zero;
/// nothing is stated of the result.
pub assume_specification[ Instant::duration_since ](later: &Instant, earlier: Instant) -> Duration;

#[verifier::external_type_specification]
#[verifier::external_body]
pub struct ExSystemTime(SystemTime);

#[verifier::external_type_specification]
#[verifier::external_body]
pub struct ExSystemTimeError(SystemTimeError);

/// `SystemTime::now` reads the wall clock; nothing is stated of the reading.
pub assume_specification[ SystemTime::now ]() -> SystemTime;

/// The time from the Unix epoch to `t`, through `SystemTime::duration_since`; `None`
/// when `t` lies before the epoch. Depends on the clock, so nothing is stated.
#[verifier::external_body]
pub(crate) fn since_unix_epoch(t: SystemTime) -> Option<Duration> {
    match t.duration_since(std::time::UNIX_EPOCH) {
        Ok(d) => Some(d),
        Err(_) => None,
    }
}

/// A `u128` count as `u64`, zero when it does not fit.
pub fn u64_or_zero(n: u128) -> (r: u64)
    ensures
        r == if n <= u64::MAX {
            n as u64
        } else {
            0
        },
{
    if n <= u64::MAX as u128 {
        n as u64
    } else {
        0
    }
}

/// The whole nanoseconds a duration spans, as a `u64` count; zero past `u64`.
pub open spec fn whole_ns(d: Duration) -> u64 {
    if duration_nanos(d) <= u64::MAX {
        duration_nanos(d) as u64
    } else {
        0
    }
}

/// The nanosecond count of a reading of the time since the Unix epoch: the whole
/// nanoseconds elapsed, zero for a time before the epoch or past `u64`.
pub open spec fn epoch_ns_reading(since: Option<Duration>) -> u64 {
    match since {
        Some(d) => whole_ns(d),
        None => 0,
    }
}

/// A reading counts nanoseconds: a time `n` nanoseconds after the epoch (within `u64`)
/// reads `n`, a time `m` whole milliseconds after it reads `m * 1_000_000`, and two
/// readings differ by exactly the nanoseconds between them.
pub proof fn lemma_epoch_reading_counts_nanoseconds(a: Duration, b: Duration, m: u64)
    ensures
        duration_nanos(a) <= u64::MAX ==> epoch_ns_reading(Some(a)) == duration_nanos(a),
        duration_nanos(a) == m * 1_000_000 && m * 1_000_000 <= u64::MAX ==> epoch_ns_reading(
            Some(a),
        ) == m * 1_000_000,
        duration_nanos(a) <= u64::MAX && duration_nanos(b) <= u64::MAX ==> epoch_ns_reading(
            Some(b),
        ) - epoch_ns_reading(Some(a)) == duration_nanos(b) - duration_nanos(a),
        epoch_ns_reading(None) == 0,
{
}

/// Nanoseconds since `start`, zero when the count overflows `u64`.
pub fn elapsed_ns(start: &Instant) -> (ns: u64)
    ensures
        exists|d: Duration| ns == #[trigger] whole_ns(d),
{
    let d = start.elapsed();
    let ns = u64_or_zero(d.as_nanos());
    assert(ns == whole_ns(d));
    ns
}

/// The wall-clock time in nanoseconds since the Unix epoch; zero before the epoch or
/// past `u64`. The reading itself comes from the clock.
pub fn unix_time_ns() -> (ns: u64)
    ensures
        exists|since: Option<Duration>| ns == #[trigger] epoch_ns_reading(since),
{
    let since = since_unix_epoch(SystemTime::now());
    let ns = match since {
        Some(d) => u64_or_zero(d.as_nanos()),
        None => 0,
    };
    assert(ns == epoch_ns_reading(since));
    ns
}

} // verus!

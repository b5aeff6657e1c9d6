//! Readings of the system and monotonic clocks, in whole milliseconds.
//! Each reading is whatever the clock says: nothing is promised of it.

use vstd::prelude::*;

verus! {

#[verifier::external_type_specification]
#[verifier::external_body]
pub struct ExInstant(std::time::Instant);

#[verifier::external_type_specification]
#[verifier::external_body]
pub struct ExSystemTime(std::time::SystemTime);

/// Calls `std::time::Instant::now`.
#[verifier::external_body]
pub(crate) fn instant_now() -> std::time::Instant {
    std::time::Instant::now()
}

/// Calls `Instant::elapsed` on `start`.
#[verifier::external_body]
pub(crate) fn elapsed_since(start: &std::time::Instant) -> core::time::Duration {
    start.elapsed()
}

/// Calls `std::time::SystemTime::now`.
#[verifier::external_body]
pub(crate) fn system_now() -> std::time::SystemTime {
    std::time::SystemTime::now()
}

/// Calls `SystemTime::duration_since(UNIX_EPOCH)` on `t`; `None` for a time
/// before the epoch.
#[verifier::external_body]
pub(crate) fn since_unix_epoch(t: &std::time::SystemTime) -> Option<core::time::Duration> {
    t.duration_since(std::time::UNIX_EPOCH).ok()
}

/// Calls `Duration::as_millis` on `d`.
#[verifier::external_body]
pub(crate) fn duration_millis(d: &core::time::Duration) -> u128 {
    d.as_millis()
}

/// Calls `Duration::as_nanos` on `d`.
#[verifier::external_body]
pub(crate) fn duration_nanos(d: &core::time::Duration) -> u128 {
    d.as_nanos()
}

/// A millisecond reading of the system clock as an `i64`: zero for a clock
/// before the epoch (`None`), saturated at `i64::MAX`.
pub open spec fn epoch_millis_of(reading: Option<u128>) -> i64 {
    match reading {
        Some(ms) => if ms > i64::MAX { i64::MAX } else { ms as i64 },
        None => 0,
    }
}

/// Turns a millisecond reading since the epoch into an `i64`, as
/// [`now_millis`] does with the clock's reading.
pub fn epoch_millis(reading: Option<u128>) -> (ms: i64)
    ensures
        ms == epoch_millis_of(reading),
{
    match reading {
        Some(ms) => {
            if ms > i64::MAX as u128 {
                i64::MAX
            } else {
                ms as i64
            }
        },
        None => 0,
    }
}

/// Milliseconds since the Unix epoch by the system clock: zero when the
/// clock reads before the epoch, saturated at `i64::MAX`. The reading itself
/// is whatever the clock says; the conversion is [`epoch_millis`].
pub fn now_millis() -> (ms: i64)
    ensures
        ms >= 0,
{
    let now = system_now();
    let reading = match since_unix_epoch(&now) {
        Some(d) => Some(duration_millis(&d)),
        None => None,
    };
    epoch_millis(reading)
}

/// An elapsed nanosecond count as a `u64`, saturated at `u64::MAX`.
pub open spec fn elapsed_nanos_of(ns: u128) -> u64 {
    if ns > u64::MAX { u64::MAX } else { ns as u64 }
}

/// Turns an elapsed nanosecond count into a `u64`, as [`nanos_since`] does
/// with the monotonic clock's reading.
pub fn elapsed_nanos(ns: u128) -> (r: u64)
    ensures
        r == elapsed_nanos_of(ns),
{
    if ns > u64::MAX as u128 {
        u64::MAX
    } else {
        ns as u64
    }
}

/// Nanoseconds elapsed on the monotonic clock since `start`, saturated at
/// `u64::MAX` (some 584 years). The reading is whatever the clock says, so
/// nothing is stated of it; the conversion is [`elapsed_nanos`].
pub fn nanos_since(start: &std::time::Instant) -> u64 {
    let d = elapsed_since(start);
    elapsed_nanos(duration_nanos(&d))
}

} // verus!

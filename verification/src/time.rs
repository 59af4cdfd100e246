//! Durations and the wall clock, as the protocol logic reads them.
use core::time::Duration;
use std::time::SystemTime;
use vstd::prelude::*;

verus! {

#[verifier::external_type_specification]
#[verifier::external_body]
pub struct ExSystemTime(std::time::SystemTime);

/// The duration that `Duration::from_millis` builds from a count of milliseconds.
pub uninterp spec fn spec_duration_from_millis(ms: u64) -> Duration;

/// What `Duration::as_millis` returns: the whole milliseconds in a duration.
pub uninterp spec fn spec_duration_as_millis(d: Duration) -> u128;

/// What `Duration::as_nanos` returns: the whole nanoseconds in a duration.
pub uninterp spec fn spec_duration_as_nanos(d: Duration) -> u128;

/// What `Duration::subsec_nanos` returns: the nanoseconds past the whole second.
pub uninterp spec fn spec_duration_subsec_nanos(d: Duration) -> u32;

/// What `SystemTime::duration_since(UNIX_EPOCH)` gives for a time: the time
/// elapsed since the epoch, or `None` for a time before it.
pub uninterp spec fn spec_since_unix_epoch(t: SystemTime) -> Option<Duration>;

/// Calls `Duration::from_millis`; as its documentation says, the duration
/// holds exactly `ms` whole milliseconds.
#[verifier::external_body]
pub(crate) fn duration_from_millis(ms: u64) -> (d: Duration)
    ensures
        d == spec_duration_from_millis(ms),
        spec_duration_as_millis(d) == ms as u128,
{
    Duration::from_millis(ms)
}

/// Calls `Duration::as_millis`.
#[verifier::external_body]
pub(crate) fn duration_as_millis(d: &Duration) -> (ms: u128)
    ensures
        ms == spec_duration_as_millis(*d),
{
    d.as_millis()
}

/// Calls `Duration::as_nanos`.
#[verifier::external_body]
pub(crate) fn duration_as_nanos(d: &Duration) -> (ns: u128)
    ensures
        ns == spec_duration_as_nanos(*d),
{
    d.as_nanos()
}

/// Calls `Duration::subsec_nanos`; as documented, the result is below one second.
#[verifier::external_body]
pub(crate) fn duration_subsec_nanos(d: &Duration) -> (ns: u32)
    ensures
        ns == spec_duration_subsec_nanos(*d),
        ns < 1_000_000_000,
{
    d.subsec_nanos()
}

/// Calls `SystemTime::now`; nothing is claimed of the clock's reading.
#[verifier::external_body]
pub(crate) fn system_time_now() -> (t: SystemTime) {
    SystemTime::now()
}

/// Calls `SystemTime::duration_since` with `UNIX_EPOCH`.
#[verifier::external_body]
pub(crate) fn since_unix_epoch(t: &SystemTime) -> (d: Option<Duration>)
    ensures
        d == spec_since_unix_epoch(*t),
{
    t.duration_since(std::time::UNIX_EPOCH).ok()
}

/// A count of `u128` units, saturated to `u64`.
pub open spec fn spec_saturate_u64(x: u128) -> u64 {
    if x > u64::MAX as u128 {
        u64::MAX
    } else {
        x as u64
    }
}

/// Saturates a `u128` count to `u64`.
pub(crate) fn saturate_u64(x: u128) -> (res: u64)
    ensures
        res == spec_saturate_u64(x),
{
    if x > u64::MAX as u128 {
        u64::MAX
    } else {
        x as u64
    }
}

/// The whole milliseconds of a duration, saturated to `u64`.
pub open spec fn spec_clamp_duration_ms(d: Duration) -> u64 {
    spec_saturate_u64(spec_duration_as_millis(d))
}

/// The whole milliseconds of a duration, saturated to `u64`.
pub fn clamp_duration_ms(d: &Duration) -> (ms: u64)
    ensures
        ms == spec_clamp_duration_ms(*d),
{
    saturate_u64(duration_as_millis(d))
}

/// Nanoseconds from the Unix epoch to a time, saturated to `u64` (0 for a
/// time before the epoch).
pub open spec fn spec_unix_nanos_at(t: SystemTime) -> u64 {
    match spec_since_unix_epoch(t) {
        Some(d) => spec_saturate_u64(spec_duration_as_nanos(d)),
        None => 0,
    }
}

/// Milliseconds from the Unix epoch to a time, saturated to `u64` (0 for a
/// time before the epoch).
pub open spec fn spec_unix_millis_at(t: SystemTime) -> u64 {
    match spec_since_unix_epoch(t) {
        Some(d) => spec_clamp_duration_ms(d),
        None => 0,
    }
}

/// Nanoseconds since the Unix epoch on the wall clock, saturated to `u64`
/// (0 when the clock reads a time before the epoch). Which time the clock
/// reads is the clock's; the result is that reading's count.
pub fn unix_time_nanos() -> (ns: u64)
    ensures
        exists|t: SystemTime| ns == #[trigger] spec_unix_nanos_at(t),
{
    let t = system_time_now();
    let ns = match since_unix_epoch(&t) {
        Some(d) => saturate_u64(duration_as_nanos(&d)),
        None => 0,
    };
    assert(ns == spec_unix_nanos_at(t));
    ns
}

/// Milliseconds since the Unix epoch on the wall clock, saturated to `u64`
/// (0 when the clock reads a time before the epoch). Which time the clock
/// reads is the clock's; the result is that reading's count.
pub fn unix_time_millis() -> (ms: u64)
    ensures
        exists|t: SystemTime| ms == #[trigger] spec_unix_millis_at(t),
{
    let t = system_time_now();
    let ms = match since_unix_epoch(&t) {
        Some(d) => clamp_duration_ms(&d),
        None => 0,
    };
    assert(ms == spec_unix_millis_at(t));
    ms
}

} // verus!

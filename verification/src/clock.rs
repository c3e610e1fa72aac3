//! Wall-clock readings in whole milliseconds.

use std::time::Duration;
use std::time::SystemTime;
use std::time::SystemTimeError;
use vstd::prelude::*;

verus! {

/// A point in time or a length of time, in milliseconds.
pub type TimeMs = i128;

/// Latest instant that a schedule holds: 2^62 ms after the epoch that its
/// instants are counted from.
pub const MAX_INSTANT_MS: TimeMs = 0x4000_0000_0000_0000;

/// Longest duration of one task that a schedule holds: 2^31 - 1 ms, a little
/// under 25 days. With it the squared deviations of as many tasks as a `Vec`
/// can index still add up within `TimeMs`.
pub const MAX_DURATION_MS: TimeMs = 0x7FFF_FFFF;

/// The square of `MAX_DURATION_MS`: no squared deviation of a duration from a
/// mean duration is larger.
pub const MAX_SQUARED_DEVIATION: TimeMs = 0x3FFF_FFFF_0000_0001;

/// Why an observation could not be completed.
#[derive(Clone, Copy, Debug, PartialEq, Eq, Structural)]
pub enum EngineError {
    /// The clock gave no reading, or one outside the range a schedule holds.
    TimingUnavailable,
    /// The calibration workload never ran for a full second before the cycle
    /// count left the range of `usize`.
    CalibrationOverflow,
}

/// `std::time::SystemTime`, an opaque reading of the system clock.
#[verifier::external_type_specification]
#[verifier::external_body]
pub struct ExSystemTime(SystemTime);

/// `std::time::SystemTimeError`, returned when one reading lies before another.
#[verifier::external_type_specification]
#[verifier::external_body]
pub struct ExSystemTimeError(SystemTimeError);

/// `SystemTime::now` reads the system clock. Nothing is claimed of the reading.
pub assume_specification[ SystemTime::now ]() -> (watch: SystemTime);

/// `SystemTime::elapsed` gives the time since `watch` was read, or an error
/// when the clock has gone backwards since. Nothing is claimed of either.
pub assume_specification[ SystemTime::elapsed ](watch: &SystemTime) -> (elapsed: Result<
    Duration,
    SystemTimeError,
>);

/// The time from the Unix epoch to the reading `watch`; `None` where `watch`
/// lies before the epoch.
pub uninterp spec fn time_since_epoch(watch: SystemTime) -> Option<Duration>;

/// The number of whole milliseconds in `duration`.
pub uninterp spec fn whole_millis(duration: Duration) -> nat;

/// `Duration::as_millis` gives the whole milliseconds in a duration. Their
/// number is given a name and not spelled out.
pub assume_specification[ Duration::as_millis ](duration: &Duration) -> (millis: u128)
    ensures
        millis == whole_millis(*duration),
;

/// `SystemTime::duration_since`, taken from the Unix epoch: the time from the
/// epoch to `watch`, or an error when `watch` lies before the epoch. The time
/// is given a name and not spelled out; nothing is claimed of the error.
#[verifier::external_body]
fn since_epoch(watch: &SystemTime) -> (elapsed: Result<Duration, SystemTimeError>)
    ensures
        elapsed matches Ok(d) ==> time_since_epoch(*watch) == Some(d),
        elapsed is Err ==> time_since_epoch(*watch) is None,
{
    watch.duration_since(SystemTime::UNIX_EPOCH)
}

/// The instant that lies `millis` milliseconds after the epoch.
///
/// Fails with `TimingUnavailable` when that is later than `MAX_INSTANT_MS`.
pub fn instant_from_millis(millis: u128) -> (instant: Result<TimeMs, EngineError>)
    ensures
        millis <= MAX_INSTANT_MS ==> (instant matches Ok(t) && t == millis),
        millis > MAX_INSTANT_MS ==> instant == Err::<TimeMs, EngineError>(
            EngineError::TimingUnavailable,
        ),
{
    if millis <= MAX_INSTANT_MS as u128 {
        Ok(millis as TimeMs)
    } else {
        Err(EngineError::TimingUnavailable)
    }
}

/// The duration of `millis` milliseconds.
///
/// Fails with `TimingUnavailable` when that is longer than `MAX_DURATION_MS`.
pub fn duration_from_millis(millis: u128) -> (duration: Result<TimeMs, EngineError>)
    ensures
        millis <= MAX_DURATION_MS ==> (duration matches Ok(d) && d == millis),
        millis > MAX_DURATION_MS ==> duration == Err::<TimeMs, EngineError>(
            EngineError::TimingUnavailable,
        ),
{
    if millis <= MAX_DURATION_MS as u128 {
        Ok(millis as TimeMs)
    } else {
        Err(EngineError::TimingUnavailable)
    }
}

/// Milliseconds from the Unix epoch to `watch`.
///
/// Fails with `TimingUnavailable` when `watch` lies before the epoch or further
/// from it than `MAX_INSTANT_MS`.
pub fn now_ms(watch: &SystemTime) -> (instant: Result<TimeMs, EngineError>)
    ensures
        match time_since_epoch(*watch) {
            Some(elapsed) => if whole_millis(elapsed) <= MAX_INSTANT_MS {
                instant matches Ok(t) && t == whole_millis(elapsed)
            } else {
                instant == Err::<TimeMs, EngineError>(EngineError::TimingUnavailable)
            },
            None => instant == Err::<TimeMs, EngineError>(EngineError::TimingUnavailable),
        },
        instant matches Ok(t) ==> 0 <= t <= MAX_INSTANT_MS,
        instant matches Err(e) ==> e == EngineError::TimingUnavailable,
{
    match since_epoch(watch) {
        Ok(elapsed) => instant_from_millis(elapsed.as_millis()),
        Err(_) => Err(EngineError::TimingUnavailable),
    }
}

/// Milliseconds that have passed since `watch` was read.
///
/// Fails with `TimingUnavailable` when the clock has gone backwards since, or
/// when more than `MAX_DURATION_MS` have passed.
pub fn duration_ms(watch: &SystemTime) -> (duration: Result<TimeMs, EngineError>)
    ensures
        duration matches Ok(d) ==> 0 <= d <= MAX_DURATION_MS,
        duration matches Err(e) ==> e == EngineError::TimingUnavailable,
{
    match watch.elapsed() {
        Ok(elapsed) => duration_from_millis(elapsed.as_millis()),
        Err(_) => Err(EngineError::TimingUnavailable),
    }
}

} // verus!

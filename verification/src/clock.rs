use std::time::{Duration, SystemTime, SystemTimeError, UNIX_EPOCH};
use vstd::prelude::*;

verus! {

/// `std::time::SystemTime`, a reading of the system clock.
#[verifier::external_type_specification]
#[verifier::external_body]
pub struct ExSystemTime(SystemTime);

/// `std::time::SystemTimeError`, what `SystemTime::duration_since` gives when
/// the earlier time is in fact the later one.
#[verifier::external_type_specification]
#[verifier::external_body]
pub struct ExSystemTimeError(SystemTimeError);

/// Calls `SystemTime::now`. Nothing is claimed of the reading.
#[verifier::external_body]
fn system_time_now() -> (reading: SystemTime) {
    SystemTime::now()
}

/// Calls `SystemTime::duration_since` with `UNIX_EPOCH` as the earlier time.
/// Nothing is claimed of the result: it is an error when the reading lies
/// before the epoch.
#[verifier::external_body]
fn duration_since_epoch(reading: &SystemTime) -> (elapsed: Result<Duration, SystemTimeError>) {
    reading.duration_since(UNIX_EPOCH)
}

/// What `now` makes of the clock's answer: the duration where there is one,
/// and `None` where the clock stands before the epoch.
pub fn elapsed_or_none(answer: Result<Duration, SystemTimeError>) -> (elapsed: Option<Duration>)
    ensures
        elapsed == match answer {
            Ok(duration) => Some(duration),
            Err(_) => None,
        },
{
    match answer {
        Ok(duration) => Some(duration),
        Err(_) => None,
    }
}

/// The time that has passed since the Unix epoch by the system clock, or
/// `None` when the clock stands before the epoch. Nothing is known of the
/// time that is read.
pub fn now() -> (elapsed: Option<Duration>) {
    let reading = system_time_now();
    elapsed_or_none(duration_since_epoch(&reading))
}

/// Whether the next cycle is due: more than one millisecond has passed since
/// the last one. Both times are in milliseconds, by a clock that has not
/// gone back between them.
pub fn cycle_due(last_cycle_time: u128, current_time: u128) -> (due: bool)
    requires
        last_cycle_time <= current_time,
    ensures
        due == (current_time - last_cycle_time > 1),
{
    current_time - last_cycle_time > 1
}

} // verus!

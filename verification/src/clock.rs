//! The wall clock, as the engine reads it.

use std::time::{Duration, SystemTime, SystemTimeError, UNIX_EPOCH};
use vstd::prelude::*;

verus! {

/// `std::time::SystemTime`: a reading of the system clock. Nothing is known
/// of what a value holds.
#[verifier::external_type_specification]
#[verifier::external_body]
pub struct ExSystemTime(std::time::SystemTime);

/// `std::time::SystemTimeError`: what `SystemTime::duration_since` returns
/// when the second reading is the later one.
#[verifier::external_type_specification]
#[verifier::external_body]
pub struct ExSystemTimeError(std::time::SystemTimeError);

/// `SystemTime::now` reads the system clock. Nothing is claimed of the
/// reading: it differs from call to call.
pub assume_specification[ SystemTime::now ]() -> (reading: SystemTime)
;

/// `SystemTime::duration_since`, with `std::time::UNIX_EPOCH` as the earlier
/// time: the time from the epoch to `reading`, or an error when `reading` lies
/// before the epoch. Nothing more is claimed.
#[verifier::external_body]
fn since_unix_epoch(reading: &SystemTime) -> (elapsed: Result<Duration, SystemTimeError>) {
    reading.duration_since(UNIX_EPOCH)
}

/// `Duration::as_secs` gives the whole seconds of a duration. Nothing is
/// claimed of the number, since nothing is known of the duration.
pub assume_specification[ Duration::as_secs ](this: &Duration) -> (secs: u64)
;

/// Whole seconds since the Unix epoch by the system clock: what
/// [`seconds_or_epoch`] counts for the reading. The number is the clock's.
pub fn unix_time_secs() -> (now: u64) {
    let reading = SystemTime::now();
    let since_epoch = match since_unix_epoch(&reading) {
        Ok(elapsed) => Some(elapsed.as_secs()),
        Err(_) => None,
    };
    seconds_or_epoch(since_epoch)
}

/// The time that the engine counts for a reading of the clock. `since_epoch`
/// holds the whole seconds from the Unix epoch to the reading, and is absent
/// for a reading that lies before the epoch: such a reading counts as the
/// epoch itself.
pub fn seconds_or_epoch(since_epoch: Option<u64>) -> (now: u64)
    ensures
        now == match since_epoch {
            Some(secs) => secs,
            None => 0,
        },
{
    match since_epoch {
        Some(secs) => secs,
        None => 0,
    }
}

} // verus!

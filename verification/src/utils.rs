//! The clock.

use vstd::prelude::*;
use std::time::{Duration, SystemTime, SystemTimeError, UNIX_EPOCH};

verus! {

/// `std::time::SystemTime`, carried from the clock to the subtraction.
#[verifier::external_type_specification]
#[verifier::external_body]
pub struct ExSystemTime(std::time::SystemTime);

/// `std::time::SystemTimeError`, which a clock set before 1970 gives.
#[verifier::external_type_specification]
#[verifier::external_body]
pub struct ExSystemTimeError(std::time::SystemTimeError);

/// `SystemTime::now` reads the system clock; nothing is claimed of what it reads.
pub assume_specification[ std::time::SystemTime::now ]() -> (now: SystemTime);

/// `Duration::as_millis` counts the whole milliseconds of a span: the count is named, no more.
pub assume_specification[ std::time::Duration::as_millis ](span: &Duration) -> (millis: u128) ensures millis == duration_millis(*span);

/// Calls `SystemTime::duration_since` with `UNIX_EPOCH`, which fails where
/// the time lies before 1970. Nothing is claimed of the result.
#[verifier::external_body]
fn since_epoch(now: &SystemTime) -> (r: Result<Duration, SystemTimeError>) {
    now.duration_since(UNIX_EPOCH)
}

/// The milliseconds since the Unix epoch by the system clock; `None` where
/// the clock stands before the epoch.
pub fn get_timestamp() -> (r: Option<u128>)
    ensures
        exists|elapsed: Result<Duration, SystemTimeError>| r == timestamp_of(elapsed),
{
    let now = SystemTime::now();
    timestamp_from(since_epoch(&now))
}

/// The whole milliseconds that a span of time holds, as `Duration::as_millis`
/// counts them.
pub uninterp spec fn duration_millis(span: Duration) -> u128;

/// The timestamp for what the clock's distance from the Unix epoch came to:
/// its whole milliseconds, and none where the clock stands before the epoch.
pub open spec fn timestamp_of(elapsed: Result<Duration, SystemTimeError>) -> Option<u128> {
    match elapsed {
        Ok(span) => Some(duration_millis(span)),
        Err(_) => None,
    }
}

/// Turns the clock's distance from the Unix epoch into a timestamp.
pub fn timestamp_from(elapsed: Result<Duration, SystemTimeError>) -> (r: Option<u128>)
    ensures
        r == timestamp_of(elapsed),
{
    match elapsed {
        Ok(span) => Some(span.as_millis()),
        Err(_) => None,
    }
}

} // verus!

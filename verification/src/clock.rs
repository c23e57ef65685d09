//! Reading the system clock as milliseconds since the generator's epoch.

use vstd::prelude::*;
use std::time::{Duration, SystemTime, SystemTimeError, UNIX_EPOCH};
use crate::layout::MAX_TIMESTAMP;

verus! {

/// The generator's epoch, 2020-01-01T00:00:00Z, in milliseconds since the
/// Unix epoch.
pub const TIMESTAMP_OFFSET: u128 = 1577836800000;

/// `std::time::SystemTime`: a reading of the system clock, carried through
/// as it is.
#[verifier::external_type_specification]
#[verifier::external_body]
pub struct ExSystemTime(std::time::SystemTime);

/// `std::time::SystemTimeError`: what `SystemTime::duration_since` fails
/// with, carried through as it is.
#[verifier::external_type_specification]
#[verifier::external_body]
pub struct ExSystemTimeError(std::time::SystemTimeError);

/// `SystemTime::now`: the system clock's reading. Nothing is claimed of it.
#[verifier::external_body]
pub(crate) fn system_time_now() -> SystemTime {
    SystemTime::now()
}

/// `SystemTime::duration_since`, from the Unix epoch to `time`; an error when
/// `time` lies before the Unix epoch. Nothing is claimed of the result.
#[verifier::external_body]
pub(crate) fn since_unix_epoch(time: &SystemTime) -> Result<Duration, SystemTimeError> {
    time.duration_since(UNIX_EPOCH)
}

/// `Duration::as_millis`: the whole milliseconds of a duration. Nothing is
/// claimed of the result.
#[verifier::external_body]
pub(crate) fn whole_millis(duration: &Duration) -> u128 {
    duration.as_millis()
}

/// The timestamp that stands for a clock reading given in milliseconds since
/// the Unix epoch: the milliseconds elapsed since the generator's epoch, none
/// if the reading lies before it, and no more than a timestamp can hold.
pub open spec fn timestamp_at(unix_millis: nat) -> nat {
    if unix_millis <= TIMESTAMP_OFFSET {
        0
    } else if unix_millis - TIMESTAMP_OFFSET >= MAX_TIMESTAMP {
        MAX_TIMESTAMP as nat
    } else {
        (unix_millis - TIMESTAMP_OFFSET) as nat
    }
}

/// Turns milliseconds since the Unix epoch into a timestamp.
pub fn timestamp_from_unix_millis(unix_millis: u128) -> (timestamp: u128)
    ensures
        timestamp == timestamp_at(unix_millis as nat),
        timestamp <= MAX_TIMESTAMP,
{
    if unix_millis <= TIMESTAMP_OFFSET {
        0
    } else if unix_millis - TIMESTAMP_OFFSET >= MAX_TIMESTAMP {
        MAX_TIMESTAMP
    } else {
        unix_millis - TIMESTAMP_OFFSET
    }
}

} // verus!

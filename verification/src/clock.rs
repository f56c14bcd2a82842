//! The wall clock, in whole seconds since the Unix epoch.

use vstd::prelude::*;

verus! {

/// Reads the system clock through `std::time::SystemTime::elapsed` on
/// `UNIX_EPOCH`: the whole seconds that have passed since the epoch, or
/// `None` where the clock is set before it. Nothing is claimed of the value:
/// the clock may stand still or be set back between two calls.
#[verifier::external_body]
fn seconds_since_epoch() -> (seconds: Option<u64>) {
    match std::time::UNIX_EPOCH.elapsed() {
        Ok(elapsed) => Some(elapsed.as_secs()),
        Err(_) => None,
    }
}

/// The current time in seconds since the Unix epoch. A clock that is set
/// before the epoch reads as zero.
pub fn unix_time() -> (now: u64) {
    time_of_reading(seconds_since_epoch())
}

/// The time that a reading of the clock stands for: the seconds it
/// counted, or zero where the clock was set before the epoch.
pub open spec fn spec_time_of_reading(reading: Option<u64>) -> u64 {
    match reading {
        Some(seconds) => seconds,
        None => 0,
    }
}

/// The time that a reading of the clock stands for: the seconds it
/// counted, or zero where the clock was set before the epoch.
#[verifier::when_used_as_spec(spec_time_of_reading)]
pub fn time_of_reading(reading: Option<u64>) -> (now: u64)
    ensures
        now == spec_time_of_reading(reading),
{
    match reading {
        Some(seconds) => seconds,
        None => 0,
    }
}

} // verus!

//! The moment of validation, read from the system clock.

use vstd::prelude::*;
use std::time::{Duration, SystemTime, UNIX_EPOCH};

verus! {

#[verifier::external_type_specification]
#[verifier::external_body]
pub struct ExSystemTime(SystemTime);

/// `SystemTime::now` reads the system clock. Nothing is claimed of what it
/// reads.
pub assume_specification[ SystemTime::now ]() -> (moment: SystemTime);

/// `Duration::as_secs` gives the whole seconds of a duration. Nothing is
/// claimed of the number.
pub assume_specification[ Duration::as_secs ](duration: &Duration) -> (seconds: u64);

/// Measures `moment` from the Unix epoch with `SystemTime::duration_since`;
/// `None` where the moment lies before the epoch. Nothing is claimed of the
/// result.
#[verifier::external_body]
fn since_unix_epoch(moment: &SystemTime) -> Option<Duration> {
    moment.duration_since(UNIX_EPOCH).ok()
}

/// The system clock's time in seconds since the Unix epoch; 0 where the clock
/// stands before the epoch.
pub(crate) fn unix_time() -> u64 {
    let moment = SystemTime::now();
    match since_unix_epoch(&moment) {
        Some(duration) => duration.as_secs(),
        None => 0,
    }
}

} // verus!

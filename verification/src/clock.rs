//! The wall clock, in milliseconds since the Unix epoch.

use std::time::{Duration, SystemTime};
use vstd::prelude::*;

verus! {

/// `std::time::SystemTime`, a point of the system clock. Nothing is known
/// of what one holds.
#[verifier::external_type_specification]
#[verifier::external_body]
pub struct ExSystemTime(SystemTime);

/// `SystemTime::now` reads the system clock; nothing is promised of what it
/// returns.
pub assume_specification[ SystemTime::now ]() -> (now: SystemTime)
;

/// `Duration::as_millis` gives the whole milliseconds of a duration;
/// nothing is stated of them here.
pub assume_specification[ Duration::as_millis ](duration: &Duration) -> (millis: u128)
;

/// The time from the Unix epoch to `time`, from `SystemTime::duration_since`
/// with `UNIX_EPOCH`; `None` where it reports that `time` lies before the
/// epoch.
#[verifier::external_body]
fn since_epoch(time: &SystemTime) -> (elapsed: Option<Duration>) {
    match time.duration_since(std::time::UNIX_EPOCH) {
        Ok(elapsed) => Some(elapsed),
        Err(_) => None,
    }
}

/// The wall clock in milliseconds since the Unix epoch, or `None` when the
/// clock stands before the epoch.
pub fn now_millis() -> (millis: Option<u128>) {
    let now = SystemTime::now();
    match since_epoch(&now) {
        Some(elapsed) => Some(elapsed.as_millis()),
        None => None,
    }
}

} // verus!

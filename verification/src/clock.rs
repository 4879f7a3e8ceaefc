use vstd::prelude::*;
use std::time::{Duration, SystemTime, SystemTimeError, UNIX_EPOCH};

verus! {

/// A point in time as the system clock reports it; opaque to the verifier.
#[verifier::external_type_specification]
#[verifier::external_body]
pub struct ExSystemTime(SystemTime);

/// The error of a clock that stands before the earlier of two points.
#[verifier::external_type_specification]
#[verifier::external_body]
pub struct ExSystemTimeError(SystemTimeError);

/// `SystemTime::now` reads the system clock. Nothing is claimed of the
/// value: it differs from call to call.
pub assume_specification[ SystemTime::now ]() -> (t: SystemTime);

/// `SystemTime::duration_since` gives the time elapsed since an earlier
/// point, or an error if that point is in fact later. Nothing is claimed of
/// the value.
pub assume_specification[ SystemTime::duration_since ](
    t: &SystemTime,
    earlier: SystemTime,
) -> (r: Result<Duration, SystemTimeError>);

/// `Duration::as_millis` gives the whole milliseconds of a duration. Nothing
/// is claimed of the value.
pub assume_specification[ Duration::as_millis ](d: &Duration) -> (ms: u128);

/// The constant `std::time::UNIX_EPOCH`, the point from which timestamps are
/// counted. Nothing is claimed of it.
#[verifier::external_body]
fn unix_epoch() -> (t: SystemTime) {
    UNIX_EPOCH
}

/// The current time in milliseconds since the Unix epoch, or zero if the
/// system clock stands before the epoch.
pub fn timestamp_now_ms() -> u128 {
    match SystemTime::now().duration_since(unix_epoch()) {
        Ok(elapsed) => elapsed.as_millis(),
        Err(_) => 0,
    }
}

} // verus!

//! The wall clock, as far as the library needs it.

use vstd::prelude::*;

verus! {

/// `std::time::SystemTime`, a point in time as the system clock measures it.
/// Nothing is known of what a value holds.
#[verifier::external_type_specification]
#[verifier::external_body]
pub struct ExSystemTime(std::time::SystemTime);

/// `std::time::SystemTimeError`, which `SystemTime::duration_since` gives
/// when the second point in time is later than the first.
#[verifier::external_type_specification]
#[verifier::external_body]
pub struct ExSystemTimeError(std::time::SystemTimeError);

/// `SystemTime::now` reads the system clock. Nothing is claimed of the
/// reading: two calls may give any two points in time.
pub assume_specification[ std::time::SystemTime::now ]() -> std::time::SystemTime;

/// `SystemTime::duration_since` gives the time that has passed from
/// `earlier` to `time`, or an error if `earlier` is the later of the two.
/// Nothing is claimed of which it gives.
pub assume_specification[ std::time::SystemTime::duration_since ](
    time: &std::time::SystemTime,
    earlier: std::time::SystemTime,
) -> Result<std::time::Duration, std::time::SystemTimeError>;

/// `Duration::as_millis` gives the whole milliseconds in a duration.
/// Nothing is claimed of the number.
pub assume_specification[ std::time::Duration::as_millis ](duration: &std::time::Duration) -> u128;

/// The constant `std::time::UNIX_EPOCH`: the start of 1970 in UTC.
#[verifier::external_body]
fn unix_epoch() -> std::time::SystemTime {
    std::time::UNIX_EPOCH
}

/// The present time as a header carries it. The system clock is read, and
/// [`timestamp_from_millis`] turns the reading into the timestamp; of the
/// reading itself nothing is known, so nothing is said of the result.
pub(crate) fn timestamp_now() -> u64 {
    let now = std::time::SystemTime::now();
    let elapsed = match now.duration_since(unix_epoch()) {
        Ok(elapsed) => Some(elapsed.as_millis()),
        Err(_) => None,
    };
    timestamp_from_millis(elapsed)
}

/// The timestamp that stands for a clock reading. The reading is the whole
/// milliseconds that have passed since the Unix epoch, or nothing where the
/// clock stands before the epoch. Of the milliseconds the low 64 bits are
/// kept; a clock before the epoch reads as zero.
pub open spec fn timestamp_of(elapsed: Option<u128>) -> u64 {
    match elapsed {
        Some(millis) => (millis % 0x1_0000_0000_0000_0000) as u64,
        None => 0,
    }
}

/// Turns a clock reading into the timestamp that a header carries: the low
/// 64 bits of the milliseconds since the Unix epoch, and zero where the
/// clock stands before the epoch.
pub fn timestamp_from_millis(elapsed: Option<u128>) -> (timestamp: u64)
    ensures
        timestamp == timestamp_of(elapsed),
{
    match elapsed {
        Some(millis) => (millis % 0x1_0000_0000_0000_0000) as u64,
        None => 0,
    }
}

} // verus!

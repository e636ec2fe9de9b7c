//! The wall clock, in seconds since the Unix epoch.

use vstd::prelude::*;

verus! {

/// The first second that names a date: the first of year -262143 of the
/// proleptic Gregorian calendar.
pub const FIRST_SECOND: i64 = -8334601228800;

/// The last second that names a date: the last of year 262142.
pub const LAST_SECOND: i64 = 8210266876799;

/// Whether this many seconds since the Unix epoch name a date and time:
/// the dates run from the first day of year -262143 to the last day of
/// year 262142.
pub open spec fn names_a_date(seconds: i64) -> bool {
    FIRST_SECOND <= seconds <= LAST_SECOND
}

/// The current time in seconds since the Unix epoch, from
/// `chrono::Utc::now`. Nothing is claimed of the value.
#[verifier::external_body]
pub fn get_current_time() -> i64 {
    chrono::Utc::now().timestamp()
}

/// Asks `chrono::DateTime::from_timestamp` whether the seconds name a date
/// and time. The contract claims that they do within the years that
/// `chrono` has dates for, -262143 to 262142, and nowhere else.
#[verifier::external_body]
pub(crate) fn timestamp_exists(seconds: i64) -> (exists: bool)
    ensures
        exists == names_a_date(seconds),
{
    chrono::DateTime::<chrono::Utc>::from_timestamp(seconds, 0).is_some()
}

} // verus!

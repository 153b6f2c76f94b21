//! Instants as seconds since the Unix epoch.

use vstd::prelude::*;

verus! {

/// The first second of the year -9999, UTC: the least instant that can be told.
pub const MIN_TIMESTAMP: i64 = -377_705_116_800;

/// The last second of the year 9999, UTC: the greatest instant that can be told.
pub const MAX_TIMESTAMP: i64 = 253_402_300_799;

/// Whether `seconds` after the Unix epoch is an instant that can be told as a UTC date
/// and time.
pub open spec fn is_instant(seconds: i64) -> bool {
    MIN_TIMESTAMP <= seconds <= MAX_TIMESTAMP
}

/// Whether `seconds` converts to a UTC date and time.
///
/// Wraps `time::OffsetDateTime::from_unix_timestamp`, which accepts exactly the seconds
/// from midnight of the first day of the year -9999 to the last second of the year 9999
/// and refuses every other number.
#[verifier::external_body]
pub(crate) fn converts_to_instant(seconds: i64) -> (ok: bool)
    ensures
        ok == is_instant(seconds),
{
    time::OffsetDateTime::from_unix_timestamp(seconds).is_ok()
}

/// The present instant.
///
/// Wraps `time::OffsetDateTime::now_utc` and hands its value out in seconds, by
/// `unix_timestamp`. Which instant comes back is up to the clock; being a date and time of
/// that type, it lies in the range of the instants that can be told.
#[verifier::external_body]
pub(crate) fn now_utc() -> (seconds: i64)
    ensures
        is_instant(seconds),
{
    time::OffsetDateTime::now_utc().unix_timestamp()
}

} // verus!

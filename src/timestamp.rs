//! Timestamps of migration records.
use vstd::prelude::*;

verus! {

/// The latest timestamp a record may carry, in milliseconds since the Unix
/// epoch: later than the end of year 262142, the last year that
/// `chrono::DateTime<Utc>` can hold.
pub const MAX_TIMESTAMP_MILLIS: i64 = 10_000_000_000_000_000;

/// A timestamp of a record: milliseconds since the Unix epoch, neither before
/// the epoch nor after [`MAX_TIMESTAMP_MILLIS`]. The difference of two of
/// them always fits an `i64`.
pub open spec fn is_timestamp(t: i64) -> bool {
    0 <= t <= MAX_TIMESTAMP_MILLIS
}

/// Whether `t` is a timestamp that a run can stamp its records with. A clock
/// reading is checked with this before it is handed to a run.
pub fn is_valid_timestamp(t: i64) -> (r: bool)
    ensures
        r == is_timestamp(t),
{
    0 <= t && t <= MAX_TIMESTAMP_MILLIS
}

} // verus!

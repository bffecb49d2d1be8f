//! Wall-clock instants as plain values.

use vstd::prelude::*;

verus! {

/// An instant in UTC: whole seconds since the Unix epoch and the nanoseconds
/// within that second.
#[derive(Clone, Copy, Debug, PartialEq, Eq, Structural)]
pub struct Timestamp {
    pub secs: i64,
    pub nanos: u32,
}

/// Reads the system clock through `chrono::Utc::now` and splits the instant
/// with `DateTime::timestamp` and `DateTime::timestamp_subsec_nanos`.
/// Nothing is claimed of the value: it depends on when the call is made.
/// `Utc::now` panics where the system clock stands before the Unix epoch.
#[verifier::external_body]
pub(crate) fn now() -> (t: Timestamp) {
    let t = chrono::Utc::now();
    Timestamp { secs: t.timestamp(), nanos: t.timestamp_subsec_nanos() }
}

/// The whole seconds that chrono counts from one instant to another, each
/// given as seconds since the epoch and nanoseconds within the second;
/// `None` where chrono cannot represent one of the two.
pub uninterp spec fn whole_seconds_between(
    start_secs: i64,
    start_nanos: u32,
    end_secs: i64,
    end_nanos: u32,
) -> Option<i64>;

/// Builds both instants with `chrono::DateTime::from_timestamp`, subtracts
/// them and takes `TimeDelta::num_seconds` of the difference. The result is
/// a function of the four numbers alone and is known by its name only.
#[verifier::external_body]
pub(crate) fn seconds_between(start: Timestamp, end: Timestamp) -> (r: Option<i64>)
    ensures
        r == whole_seconds_between(start.secs, start.nanos, end.secs, end.nanos),
{
    let a = chrono::DateTime::from_timestamp(start.secs, start.nanos)?;
    let b = chrono::DateTime::from_timestamp(end.secs, end.nanos)?;
    Some((b - a).num_seconds())
}

} // verus!

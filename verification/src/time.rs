//! A plain timestamp: seconds since the Unix epoch plus subsecond
//! nanoseconds, the shape the task events carry on the wire.

use vstd::prelude::*;

verus! {

/// A UTC instant as carried in task events and wait responses.
#[derive(Clone, Copy, Debug, PartialEq, Eq, Structural)]
pub struct Timestamp {
    pub seconds: i64,
    pub nanos: u32,
}

/// Relies on chrono::Utc::now, chrono::DateTime::timestamp and
/// chrono::DateTime::timestamp_subsec_nanos for the current UTC instant.
/// The result depends on the clock, so only the documented bound on the
/// subsecond part is promised: it stays below two seconds' worth of
/// nanoseconds (the excess past one second encodes a leap second).
#[verifier::external_body]
pub fn now_utc() -> (t: Timestamp)
    ensures
        t.nanos < 2_000_000_000,
{
    let now = chrono::Utc::now();
    Timestamp { seconds: now.timestamp(), nanos: now.timestamp_subsec_nanos() }
}

} // verus!

//! UTC instants as seconds and nanoseconds since the Unix epoch.
use vstd::prelude::*;

verus! {

/// Earliest second `chrono::DateTime<Utc>` represents (year -262143).
pub const MIN_UTC_SECS: i64 = -8334601315200;

/// Latest second `chrono::DateTime<Utc>` represents (year 262142).
pub const MAX_UTC_SECS: i64 = 8210266876799;

/// A UTC instant.
#[derive(Debug, Clone, Copy, PartialEq, Eq, PartialOrd, Ord)]
pub struct Timestamp {
    /// Whole seconds since 1970-01-01T00:00:00Z.
    pub secs: i64,
    /// Sub-second nanoseconds.
    pub nanos: u32,
}

/// A representable instant.
pub open spec fn timestamp_wf(t: Timestamp) -> bool {
    MIN_UTC_SECS <= t.secs <= MAX_UTC_SECS && t.nanos < 1_000_000_000
}

} // verus!

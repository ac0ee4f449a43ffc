//! Creation times of records.

use vstd::prelude::*;

verus! {

/// A point in time, counted as chrono counts it: whole seconds since the Unix
/// epoch and the nanoseconds past that second. Two timestamps compare by
/// `secs` first and by `nanos` second, which is the order of the instants
/// they stand for.
#[derive(Clone, Copy, Debug, PartialEq, Eq, PartialOrd, Ord, Hash, Structural)]
pub struct Timestamp {
    pub secs: i64,
    pub nanos: u32,
}

/// One more than the largest count of nanoseconds within a second.
pub const NANOS_PER_SEC: u32 = 1_000_000_000;

impl Timestamp {
    /// True when the nanoseconds are less than one second, that is when the
    /// value is not written in the form chrono keeps for a leap second.
    pub open spec fn is_plain(self) -> bool {
        self.nanos < NANOS_PER_SEC
    }
}

/// Reads the clock with `chrono::Utc::now` and keeps the reading as the pair
/// that `DateTime::timestamp` and `DateTime::timestamp_subsec_nanos` give.
///
/// Trusted: chrono builds the reading from a `std::time::Duration` since the
/// epoch, whose sub-second part is below one second, so the reading is never
/// in leap-second form. Nothing else is claimed of it. chrono stops the
/// program if the system clock stands before the epoch.
#[verifier::external_body]
pub(crate) fn now() -> (t: Timestamp)
    ensures
        t.is_plain(),
{
    let reading = chrono::Utc::now();
    Timestamp { secs: reading.timestamp(), nanos: reading.timestamp_subsec_nanos() }
}

} // verus!

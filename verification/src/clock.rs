//! Points in time as plain integers, and the wall clock that produces them.

use vstd::prelude::*;

verus! {

/// Nanoseconds in one second.
pub const NANOS_PER_SECOND: u32 = 1_000_000_000;

/// A point in time: whole seconds since the Unix epoch plus a nanosecond part.
#[derive(Clone, Copy, Debug, PartialEq, Eq, Structural)]
pub struct Timestamp {
    pub secs: i64,
    pub nanos: u32,
}

impl Timestamp {
    /// The instant as a single count of nanoseconds since the Unix epoch.
    pub open spec fn nanos_since_epoch(self) -> int {
        self.secs * 1_000_000_000 + self.nanos
    }

    /// Nanoseconds from `earlier` to `self`; negative when `self` comes first.
    pub open spec fn nanos_since(self, earlier: Timestamp) -> int {
        self.nanos_since_epoch() - earlier.nanos_since_epoch()
    }

    /// Whether at least `seconds` whole seconds lie between `earlier` and `self`.
    pub open spec fn spec_has_elapsed(self, earlier: Timestamp, seconds: u32) -> bool {
        self.nanos_since(earlier) >= seconds * 1_000_000_000
    }

    pub fn new(secs: i64, nanos: u32) -> (t: Timestamp)
        ensures
            t.secs == secs,
            t.nanos == nanos,
    {
        Timestamp { secs, nanos }
    }

    /// Whether at least `seconds` whole seconds have passed since `earlier`.
    pub fn has_elapsed(&self, earlier: &Timestamp, seconds: u32) -> (due: bool)
        ensures
            due == self.spec_has_elapsed(*earlier, seconds),
    {
        let whole: i128 = self.secs as i128 - earlier.secs as i128;
        let part: i128 = self.nanos as i128 - earlier.nanos as i128;
        let gap: i128 = whole * 1_000_000_000 + part;
        gap >= seconds as i128 * 1_000_000_000
    }
}

/// Reads the wall clock through `chrono::Utc::now` and hands the reading back
/// as seconds and nanoseconds (`DateTime::timestamp`,
/// `DateTime::timestamp_subsec_nanos`). Nothing is claimed of the value: it
/// depends on when the call is made. The call panics on a machine whose clock
/// stands before 1970.
#[verifier::external_body]
pub(crate) fn utc_now() -> (now: Timestamp)
{
    let now = chrono::Utc::now();
    Timestamp { secs: now.timestamp(), nanos: now.timestamp_subsec_nanos() }
}

/// `std::time::Instant`, a reading of the monotonic clock.
#[verifier::external_type_specification]
#[verifier::external_body]
pub struct ExInstant(std::time::Instant);

/// `Instant::now`. Nothing is claimed of the reading.
#[verifier::external_body]
pub(crate) fn monotonic_now() -> (now: std::time::Instant)
{
    std::time::Instant::now()
}

/// `Instant::elapsed`: the time that has passed since `start`. Nothing is
/// claimed of it: it depends on when the call is made.
#[verifier::external_body]
pub(crate) fn elapsed_since(start: &std::time::Instant) -> (passed: std::time::Duration)
{
    start.elapsed()
}

/// `Duration::as_secs`: the whole seconds in `span`.
#[verifier::external_body]
pub(crate) fn whole_seconds(span: &std::time::Duration) -> (seconds: u64)
{
    span.as_secs()
}

} // verus!

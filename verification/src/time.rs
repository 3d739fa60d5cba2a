//! Instants on the UTC time line, the wall clock, and the stopwatch that
//! measures how long a dispatch took.

use vstd::prelude::*;
use crate::text::optional_text;

verus! {

/// An instant on the UTC time line: the whole seconds since
/// 1970-01-01 00:00:00 UTC and the nanoseconds past that second.
///
/// Instants are ordered by the seconds first and by the nanoseconds second.
#[derive(Clone, Copy, Debug, PartialEq, Eq, Structural)]
pub struct Timestamp {
    /// Whole seconds since the epoch; negative before it.
    pub secs: i64,
    /// Nanoseconds past the whole second.
    pub nanos: u32,
}

impl Timestamp {
    /// Whether this instant lies strictly after `other`.
    pub open spec fn later_than(self, other: Timestamp) -> bool {
        self.secs > other.secs || (self.secs == other.secs && self.nanos > other.nanos)
    }

    /// Whether this instant lies strictly after `other`.
    pub fn is_after(&self, other: &Timestamp) -> (later: bool)
        ensures
            later == self.later_than(*other),
    {
        self.secs > other.secs || (self.secs == other.secs && self.nanos > other.nanos)
    }
}

/// The instant ordering is a strict total order: no instant is after itself,
/// of two different instants exactly one is after the other, and "after"
/// carries over a chain of three.
pub proof fn law_instants_are_strictly_ordered(a: Timestamp, b: Timestamp, c: Timestamp)
    ensures
        !a.later_than(a),
        a != b ==> (a.later_than(b) <==> !b.later_than(a)),
        a.later_than(b) && b.later_than(c) ==> a.later_than(c),
{
}

/// What `chrono` prints for the UTC date and time at `secs` seconds and
/// `nanos` nanoseconds past the epoch, or `None` where `chrono` has no date
/// and time for that instant.
pub uninterp spec fn utc_text(secs: int, nanos: int) -> Option<Seq<char>>;

/// Reads the wall clock with `chrono::Utc::now` and keeps the seconds and
/// nanoseconds of the reading. Nothing is claimed of the instant read.
/// `chrono` panics where the system clock stands before the epoch.
#[verifier::external_body]
pub(crate) fn now() -> Timestamp {
    let reading = chrono::Utc::now();
    Timestamp { secs: reading.timestamp(), nanos: reading.timestamp_subsec_nanos() }
}

/// Prints an instant the way `chrono` displays a `DateTime<Utc>`. The instant
/// is first turned into a `DateTime<Utc>` with `DateTime::from_timestamp`,
/// which has no value for instants outside its calendar or with two billion
/// nanoseconds or more; the text is then the one `Display` writes. Both depend
/// on the seconds and nanoseconds alone, so the result is named by
/// [`utc_text`].
#[verifier::external_body]
pub(crate) fn render_utc(instant: &Timestamp) -> (text: Option<String>)
    ensures
        optional_text(text) == utc_text(instant.secs as int, instant.nanos as int),
{
    chrono::DateTime::from_timestamp(instant.secs, instant.nanos).map(|t| t.to_string())
}

/// `std::time::Instant`, a reading of the monotonic clock.
#[verifier::external_type_specification]
#[verifier::external_body]
pub struct ExInstant(std::time::Instant);

/// `std::time::Instant::now` reads the monotonic clock. Nothing is claimed of
/// the reading.
pub assume_specification[ std::time::Instant::now ]() -> std::time::Instant;

/// `std::time::Instant::elapsed` measures the time since the reading was
/// taken. Nothing is claimed of the measure.
pub assume_specification[ std::time::Instant::elapsed ](
    start: &std::time::Instant,
) -> std::time::Duration;

/// `std::time::Duration::as_millis` counts the whole milliseconds of a
/// duration. Nothing is claimed of the count.
pub assume_specification[ std::time::Duration::as_millis ](
    duration: &std::time::Duration,
) -> u128;

/// The whole milliseconds that have passed since `start`, reduced to 64 bits.
pub(crate) fn elapsed_millis(start: &std::time::Instant) -> u64 {
    let millis: u128 = start.elapsed().as_millis();
    #[verifier::truncate]
    (millis as u64)
}

} // verus!

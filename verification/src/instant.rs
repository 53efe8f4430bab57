//! Points on the timeline, counted in nanoseconds from the Unix epoch.

use vstd::prelude::*;

verus! {

/// Nanoseconds in one second.
pub const NANOS_PER_SECOND: u32 = 1_000_000_000;

/// Nanoseconds in one day of 86 400 seconds.
pub const NANOS_PER_DAY: u64 = 86_400_000_000_000;

/// A point in time: whole seconds since the Unix epoch and the nanoseconds past that second.
///
/// Every pair of field values is an instant. Two pairs name the same instant when their
/// views agree, so a reading whose `subsec_nanos` is a full second or more (a leap second
/// on some clocks) counts as the start of the following second.
#[derive(Clone, Copy, Debug, PartialEq, Eq, Structural)]
pub struct Instant {
    pub secs: i64,
    pub subsec_nanos: u32,
}

impl View for Instant {
    type V = int;

    /// The instant as a count of nanoseconds since the Unix epoch.
    open spec fn view(&self) -> int {
        self.secs * NANOS_PER_SECOND + self.subsec_nanos
    }
}

impl Instant {
    /// The instant `secs` seconds and `subsec_nanos` nanoseconds after the Unix epoch.
    pub fn new(secs: i64, subsec_nanos: u32) -> (t: Instant)
        ensures
            t == (Instant { secs, subsec_nanos }),
    {
        Instant { secs, subsec_nanos }
    }

    /// The count of nanoseconds since the Unix epoch, which always fits in 128 bits.
    pub fn nanos(&self) -> (n: i128)
        ensures
            n == self@,
    {
        let secs: i128 = self.secs as i128;
        let nanos_per_second: i128 = NANOS_PER_SECOND as i128;
        let subsec_nanos: i128 = self.subsec_nanos as i128;
        secs * nanos_per_second + subsec_nanos
    }

    /// The current reading of the system clock, in UTC.
    ///
    /// Which instant comes back is not known in advance; it is never before the epoch and
    /// its nanosecond part is always less than a second.
    pub fn now() -> (t: Instant)
        ensures
            0 <= t.secs,
            t.subsec_nanos < NANOS_PER_SECOND,
    {
        read_utc_clock()
    }
}

/// Reads the clock with `chrono::Utc::now` and takes the reading apart with
/// `DateTime::timestamp` and `DateTime::timestamp_subsec_nanos`.
///
/// Trusted, not proved: chrono builds the reading from the time elapsed since the epoch, so
/// the seconds are not negative and the nanoseconds stay below one second. chrono panics if
/// the system clock is set before 1970.
#[verifier::external_body]
fn read_utc_clock() -> (t: Instant)
    ensures
        0 <= t.secs,
        t.subsec_nanos < NANOS_PER_SECOND,
{
    let reading = chrono::Utc::now();
    Instant { secs: reading.timestamp(), subsec_nanos: reading.timestamp_subsec_nanos() }
}

} // verus!

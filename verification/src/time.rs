//! Points in time, the clock, and the rule that says when a delay has passed.

use vstd::prelude::*;

verus! {

/// Nanoseconds in one second.
pub const NANOS_PER_SECOND: i128 = 1_000_000_000;

/// Nanoseconds in one millisecond.
pub const NANOS_PER_MILLI: i128 = 1_000_000;

/// A point in time, counted in nanoseconds from the Unix epoch.
#[derive(Clone, Copy, Debug, PartialEq, Eq, Structural)]
pub struct Timestamp {
    pub nanos: i128,
}

impl View for Timestamp {
    type V = int;

    /// The number of nanoseconds between the Unix epoch and this point.
    open spec fn view(&self) -> int {
        self.nanos as int
    }
}

/// Whether `delay_seconds` seconds have passed at `now` since `received_at`:
/// the point `now - delay_seconds` lies strictly after `received_at`.
pub open spec fn delay_elapsed(received_at: Timestamp, now: Timestamp, delay_seconds: int) -> bool {
    received_at@ < now@ - delay_seconds * NANOS_PER_SECOND
}

/// The nanoseconds between the epoch and the point `secs` seconds and
/// `subsec_nanos` nanoseconds after it.
pub open spec fn nanos_of_parts(secs: i64, subsec_nanos: u32) -> int {
    secs * NANOS_PER_SECOND + subsec_nanos
}

/// Reads the system clock through `chrono::Local::now` and hands back the
/// reading as whole seconds since the Unix epoch (`DateTime::timestamp`) and
/// the nanoseconds past that second (`DateTime::timestamp_subsec_nanos`).
/// Nothing is claimed of the reading: it is whatever the clock says, and two
/// readings need not agree. `chrono` panics where the system clock is set
/// to a time before the epoch.
#[verifier::external_body]
fn read_clock() -> (reading: (i64, u32)) {
    let now = chrono::Local::now();
    (now.timestamp(), now.timestamp_subsec_nanos())
}

impl Timestamp {
    /// The point `secs` seconds and `subsec_nanos` nanoseconds after the epoch.
    pub fn from_parts(secs: i64, subsec_nanos: u32) -> (t: Timestamp)
        ensures
            t@ == secs * NANOS_PER_SECOND + subsec_nanos,
    {
        Timestamp { nanos: (secs as i128) * NANOS_PER_SECOND + (subsec_nanos as i128) }
    }

    /// The point `millis` milliseconds after the epoch.
    pub fn from_millis(millis: i64) -> (t: Timestamp)
        ensures
            t@ == millis * NANOS_PER_MILLI,
    {
        Timestamp { nanos: (millis as i128) * NANOS_PER_MILLI }
    }

    /// The current time, as the system clock reports it: the point that
    /// the clock's reading of seconds and nanoseconds names. Which reading
    /// that is, is the clock's to say.
    pub(crate) fn now() -> (t: Timestamp)
        ensures
            exists|secs: i64, subsec_nanos: u32| t@ == #[trigger] nanos_of_parts(secs, subsec_nanos),
    {
        let reading = read_clock();
        let t = Timestamp::from_parts(reading.0, reading.1);
        assert(t@ == nanos_of_parts(reading.0, reading.1));
        t
    }

    /// Whether this point lies strictly before `other`.
    pub fn is_before(self, other: Timestamp) -> (before: bool)
        ensures
            before == (self@ < other@),
    {
        self.nanos < other.nanos
    }

    /// Whether a delay of `delay_seconds` seconds, counted from this point,
    /// has passed at `now`. Every `i64` delay is answered, a negative one too:
    /// the arithmetic is exact.
    pub fn delay_elapsed_at(self, now: Timestamp, delay_seconds: i64) -> (due: bool)
        ensures
            due == delay_elapsed(self, now, delay_seconds as int),
    {
        let span: i128 = (delay_seconds as i128) * NANOS_PER_SECOND;
        match now.nanos.checked_sub(span) {
            Some(due_time) => self.nanos < due_time,
            // `now - span` is out of range: below every timestamp when the
            // delay is positive, above every timestamp when it is negative.
            None => span < 0,
        }
    }
}

} // verus!

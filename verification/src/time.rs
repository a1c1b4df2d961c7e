//! Monotonic time as plain numbers.

use vstd::prelude::*;

verus! {

/// Nanoseconds in one second.
pub const NANOS_PER_SECOND: u128 = 1_000_000_000;

/// A bound on what a clock can report: 2^96 nanoseconds, which no span made
/// of 64-bit seconds and 32-bit nanoseconds can reach.
pub const MAX_READING: u128 = 0x1_0000_0000_0000_0000_0000_0000;

/// A point on the monotonic time line, in nanoseconds since the clock's origin.
#[derive(Clone, Copy, Debug, PartialEq, Eq, PartialOrd, Ord, Hash, Structural)]
pub struct Instant {
    pub nanos: u128,
}

impl Instant {
    /// Whether a clock can report this instant.
    pub open spec fn is_reading(self) -> bool {
        self.nanos <= MAX_READING
    }

    /// The instant `seconds` whole seconds after this one.
    pub open spec fn plus_seconds(self, seconds: u64) -> Instant {
        Instant { nanos: (self.nanos + seconds * NANOS_PER_SECOND) as u128 }
    }

    /// The instant that lies a span of `seconds` whole seconds and `nanos`
    /// nanoseconds after the clock's origin.
    pub open spec fn of_span(seconds: u64, nanos: u32) -> Instant {
        Instant { nanos: (seconds * NANOS_PER_SECOND + nanos) as u128 }
    }

    /// The instant that lies a span of `seconds` whole seconds and `nanos`
    /// nanoseconds after the clock's origin.  Every such instant is one a
    /// clock can report.
    pub fn from_span(seconds: u64, nanos: u32) -> (r: Instant)
        ensures
            r == Instant::of_span(seconds, nanos),
            r.nanos == seconds * NANOS_PER_SECOND + nanos,
            r.is_reading(),
    {
        let whole: u128 = (seconds as u128) * NANOS_PER_SECOND;
        Instant { nanos: whole + (nanos as u128) }
    }

    /// The instant that many nanoseconds after the clock's origin.
    pub fn from_nanos(nanos: u128) -> (r: Instant)
        ensures
            r.nanos == nanos,
    {
        Instant { nanos }
    }

    /// The nanoseconds between the clock's origin and this instant.
    pub fn as_nanos(&self) -> (r: u128)
        ensures
            r == self.nanos,
    {
        self.nanos
    }

    /// The instant `seconds` whole seconds after this one.
    pub fn after_seconds(&self, seconds: u64) -> (r: Instant)
        requires
            self.is_reading(),
        ensures
            r == self.plus_seconds(seconds),
            r.nanos == self.nanos + seconds * NANOS_PER_SECOND,
    {
        let span: u128 = (seconds as u128) * NANOS_PER_SECOND;
        Instant { nanos: self.nanos + span }
    }
}

/// The standard library's monotonic instant; carried around, never inspected.
#[verifier::external_type_specification]
#[verifier::external_body]
pub struct ExStdInstant(std::time::Instant);

/// `std::time::Instant::now`: some reading of the system's monotonic clock.
/// Nothing is claimed of the value.
#[verifier::external_body]
fn std_now() -> (r: std::time::Instant) {
    std::time::Instant::now()
}

/// `std::time::Instant::elapsed`: the time that has passed since `origin`.
/// Nothing is claimed of the value.
#[verifier::external_body]
fn std_elapsed(origin: &std::time::Instant) -> (r: std::time::Duration) {
    origin.elapsed()
}

/// `std::time::Duration::as_secs`: the whole seconds of a span.
/// Nothing is claimed beyond the result's type.
#[verifier::external_body]
fn whole_seconds(span: &std::time::Duration) -> (r: u64) {
    span.as_secs()
}

/// `std::time::Duration::subsec_nanos`: the fractional part of a span in
/// nanoseconds. Nothing is claimed beyond the result's type.
#[verifier::external_body]
fn fractional_nanos(span: &std::time::Duration) -> (r: u32) {
    span.subsec_nanos()
}

/// The system's monotonic clock, read relative to the moment the clock
/// value was made.
#[derive(Debug)]
pub struct Clock {
    origin: std::time::Instant,
}

impl Clock {
    /// A clock whose origin is the moment of this call.
    pub fn new() -> Clock {
        Clock { origin: std_now() }
    }

    /// The time that has passed since this clock was made.  Two calls may
    /// return different readings; every reading is one a clock can report.
    /// What the reading is for a given span is `Instant::from_span`'s to say.
    pub fn now(&self) -> (r: Instant)
        ensures
            r.is_reading(),
    {
        let span = std_elapsed(&self.origin);
        let seconds: u64 = whole_seconds(&span);
        let nanos: u32 = fractional_nanos(&span);
        Instant::from_span(seconds, nanos)
    }
}

} // verus!

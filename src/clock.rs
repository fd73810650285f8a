use vstd::prelude::*;
use std::time::{Duration, Instant};

verus! {

/// std's `Instant`, held opaquely as the moment a session starts.
#[verifier::external_type_specification]
#[verifier::external_body]
pub struct ExInstant(std::time::Instant);

/// Relies on `Instant::now`: a reading of the monotonic clock; nothing is
/// assumed of its value.
pub assume_specification[ std::time::Instant::now ]() -> std::time::Instant;

/// Relies on `Instant::elapsed`: the time since the instant; nothing is
/// assumed of its value.
pub assume_specification[ std::time::Instant::elapsed ](i: &std::time::Instant) -> core::time::Duration;

/// Relies on `Duration::as_micros`: the whole microseconds of a duration;
/// nothing is assumed of its value.
pub assume_specification[ core::time::Duration::as_micros ](d: &core::time::Duration) -> u128;

/// A reading in microseconds, saturated to `u64`.
pub open spec fn clamped_reading(reading: int) -> int {
    if reading > u64::MAX {
        u64::MAX as int
    } else {
        reading
    }
}

/// Measures the session's time, in microseconds since its start.
///
/// Readings that would run backwards are held at the latest one, so the time
/// since start never decreases and the time since the last tick is never
/// negative.
#[derive(Clone, Copy, Debug)]
pub struct GameClock {
    start: Instant,
    since_start: u64,
    since_last: u64,
}

impl GameClock {
    /// Microseconds from the session's start to the last tick.
    pub closed spec fn total(self) -> u64 {
        self.since_start
    }

    /// Microseconds between the last two ticks.
    pub closed spec fn frame(self) -> u64 {
        self.since_last
    }

    /// A clock whose session starts now.
    pub fn new() -> (r: GameClock)
        ensures
            r.total() == 0,
            r.frame() == 0,
    {
        GameClock { start: Instant::now(), since_start: 0, since_last: 0 }
    }

    /// Takes a reading of the time since start, in microseconds, and returns
    /// (time since the last tick, time since start).
    pub fn record(&mut self, reading: u128) -> (r: (u64, u64))
        ensures
            final(self).total() == if clamped_reading(reading as int) > old(self).total() {
                clamped_reading(reading as int)
            } else {
                old(self).total() as int
            },
            final(self).frame() == final(self).total() - old(self).total(),
            r == (final(self).frame(), final(self).total()),
    {
        let now: u64 = if reading > u64::MAX as u128 {
            u64::MAX
        } else {
            reading as u64
        };
        if now > self.since_start {
            self.since_last = now - self.since_start;
            self.since_start = now;
        } else {
            self.since_last = 0;
        }
        (self.since_last, self.since_start)
    }

    /// Reads the clock once; returns (time since the last tick, time since
    /// start), both in microseconds.
    pub fn tick(&mut self) -> (r: (u64, u64))
        ensures
            final(self).total() >= old(self).total(),
            final(self).frame() == final(self).total() - old(self).total(),
            r == (final(self).frame(), final(self).total()),
    {
        let elapsed: Duration = self.start.elapsed();
        let reading = elapsed.as_micros();
        self.record(reading)
    }

    pub fn elapsed_since_last(&self) -> (r: u64)
        ensures
            r == self.frame(),
    {
        self.since_last
    }

    pub fn elapsed_since_start(&self) -> (r: u64)
        ensures
            r == self.total(),
    {
        self.since_start
    }
}

} // verus!

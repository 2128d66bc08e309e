//! The clock readings that a session keeps.
//!
//! Time is a count of nanoseconds on a monotonic clock. The library never
//! reads the clock: the caller reads it once at the top of every tick and
//! hands the reading in.

use vstd::prelude::*;

verus! {

/// Nanoseconds in a millisecond.
pub const NANOS_PER_MILLI: u64 = 1_000_000;

/// The tick length that a session starts with, one millisecond, so that a
/// frame rate can be shown before the first tick has been measured.
pub const FIRST_DELTA: u64 = NANOS_PER_MILLI;

/// Time from `earlier` to `later`, and zero where `later` lies before
/// `earlier`.
pub open spec fn gap(earlier: u64, later: u64) -> u64 {
    if later >= earlier {
        (later - earlier) as u64
    } else {
        0
    }
}

/// The timing fields of a session.
#[derive(Debug, Clone, Copy, PartialEq, Eq, Structural)]
pub struct Timing {
    /// The clock reading of the latest tick.
    pub now: u64,
    /// The clock reading at which the session started.
    pub started_at: u64,
    /// Time between the latest tick and the one before it.
    pub delta_time: u64,
    /// Time from the session's start to the latest tick.
    pub elapsed: u64,
}

impl Timing {
    /// The timing of a session that starts at `now`.
    pub open spec fn fresh(now: u64) -> Timing {
        Timing { now, started_at: now, delta_time: FIRST_DELTA, elapsed: 0 }
    }

    /// The timing after a tick at `now`.
    pub open spec fn advanced(self, now: u64) -> Timing {
        Timing {
            now,
            started_at: self.started_at,
            delta_time: gap(self.now, now),
            elapsed: gap(self.started_at, now),
        }
    }

    /// Starts the timing of a session at `now`.
    pub fn new(now: u64) -> (timing: Timing)
        ensures
            timing == Timing::fresh(now),
    {
        Timing { now, started_at: now, delta_time: FIRST_DELTA, elapsed: 0 }
    }

    /// Records a tick at `now`: the tick length is measured from the tick
    /// before, the elapsed time from the session's start.
    pub fn advance(&mut self, now: u64)
        ensures
            *final(self) == old(self).advanced(now),
    {
        self.delta_time = now.saturating_sub(self.now);
        self.elapsed = now.saturating_sub(self.started_at);
        self.now = now;
    }
}

/// On a clock that never runs backwards the elapsed time is the distance
/// from the session's start to the latest tick, it never shrinks, and the
/// tick lengths add up to it.
pub proof fn lemma_elapsed_since_start(timing: Timing, now: u64)
    requires
        timing.started_at <= timing.now <= now,
        timing.elapsed == timing.now - timing.started_at,
    ensures
        timing.advanced(now).started_at == timing.started_at,
        timing.advanced(now).elapsed == now - timing.started_at,
        timing.advanced(now).elapsed == timing.elapsed + timing.advanced(now).delta_time,
        timing.advanced(now).elapsed >= timing.elapsed,
{
}

} // verus!

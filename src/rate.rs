use vstd::prelude::*;

verus! {

/// Smallest elapsed time, in milliseconds, that a rate is ever divided by.
pub const ELAPSED_FLOOR_MS: u64 = 250;

/// The elapsed time actually used as a divisor: never below the floor.
pub open spec fn floored_ms(elapsed_ms: u64) -> u64 {
    if elapsed_ms < ELAPSED_FLOOR_MS {
        ELAPSED_FLOOR_MS
    } else {
        elapsed_ms
    }
}

/// `current - prior`, clamped at zero when the counter went backwards.
pub open spec fn clamped_delta(current: u64, prior: u64) -> u64 {
    if current >= prior {
        (current - prior) as u64
    } else {
        0
    }
}

/// A per-second rate held exactly: `bytes` transferred over `elapsed_ms` milliseconds.
#[derive(Clone, Copy, Debug, PartialEq, Eq, Structural)]
pub struct Rate {
    pub bytes: u64,
    pub elapsed_ms: u64,
}

impl Rate {
    /// A rate's divisor is never below the floor.
    pub open spec fn wf(self) -> bool {
        self.elapsed_ms >= ELAPSED_FLOOR_MS
    }

    /// Bytes per second, rounded down.
    pub open spec fn per_second(self) -> int {
        (self.bytes as int * 1000) / (self.elapsed_ms as int)
    }

    /// Nothing transferred over the floor interval.
    pub open spec fn zero_spec() -> Rate {
        Rate { bytes: 0, elapsed_ms: ELAPSED_FLOOR_MS }
    }

    /// The rate of nothing transferred.
    pub fn zero() -> (r: Rate)
        ensures
            r.wf(),
            r == Rate::zero_spec(),
    {
        Rate { bytes: 0, elapsed_ms: ELAPSED_FLOOR_MS }
    }

    /// Whole bytes per second, rounded down.
    pub fn bytes_per_sec(&self) -> (r: u128)
        requires
            self.wf(),
        ensures
            r as int == self.per_second(),
    {
        let num: u128 = (self.bytes as u128) * 1000;
        num / (self.elapsed_ms as u128)
    }
}

/// The divisor for a rate: `elapsed_ms`, raised to the floor when smaller.
pub fn floor_elapsed(elapsed_ms: u64) -> (r: u64)
    ensures
        r == floored_ms(elapsed_ms),
        r >= ELAPSED_FLOOR_MS,
{
    if elapsed_ms < ELAPSED_FLOOR_MS {
        ELAPSED_FLOOR_MS
    } else {
        elapsed_ms
    }
}

/// Turns two samples of a cumulative counter into a rate. A counter that went
/// backwards gives a zero rate; the elapsed time is floored.
pub fn delta_rate(current: u64, prior: u64, elapsed_ms: u64) -> (r: Rate)
    ensures
        r.wf(),
        r.bytes == clamped_delta(current, prior),
        r.elapsed_ms == floored_ms(elapsed_ms),
{
    Rate { bytes: current.saturating_sub(prior), elapsed_ms: floor_elapsed(elapsed_ms) }
}

} // verus!

//! Timeout budget.
//!
//! A multi-step operation (discovery across several services, a status-wait
//! loop) receives one total time allowance. The budget is queried with the
//! current clock reading immediately before each sub-operation and yields the
//! time still remaining, `max(0, total - elapsed)`: never negative, never
//! above the total, and non-increasing as the clock advances. The caller owns
//! the clock; the budget itself is pure arithmetic.

use vstd::prelude::*;

verus! {

/// A start instant and a total allowance, in milliseconds.
#[derive(Clone, Copy, Debug)]
pub struct Budget {
    start_ms: u64,
    total_ms: u64,
}

/// What is left of a budget of `total` started at `start`, read at `now`:
/// `max(0, total - (now - start))`, with a clock reading before the start
/// treated as no time elapsed.
pub open spec fn spec_remaining(total: int, start: int, now: int) -> int {
    if now <= start {
        total
    } else if now - start >= total {
        0
    } else {
        total - (now - start)
    }
}

impl Budget {
    /// The instant the budget was started at, in milliseconds.
    pub closed spec fn start_time(&self) -> int {
        self.start_ms as int
    }

    /// The total allowance, in milliseconds.
    pub closed spec fn total(&self) -> int {
        self.total_ms as int
    }

    /// Starts a budget of `total_ms` at clock reading `now_ms`.
    pub fn start(total_ms: u64, now_ms: u64) -> (b: Budget)
        ensures
            b.total() == total_ms,
            b.start_time() == now_ms,
    {
        Budget { start_ms: now_ms, total_ms }
    }

    /// The time still remaining at clock reading `now_ms`.
    pub fn remaining(&self, now_ms: u64) -> (r: u64)
        ensures
            r == spec_remaining(self.total(), self.start_time(), now_ms as int),
    {
        if now_ms <= self.start_ms {
            self.total_ms
        } else {
            let elapsed = now_ms - self.start_ms;
            if elapsed >= self.total_ms {
                0
            } else {
                self.total_ms - elapsed
            }
        }
    }

    /// Whether nothing remains: the next sub-operation must fail fast
    /// instead of blocking.
    pub fn exhausted(&self, now_ms: u64) -> (r: bool)
        ensures
            r <==> spec_remaining(self.total(), self.start_time(), now_ms as int) == 0,
    {
        self.remaining(now_ms) == 0
    }
}

/// The remaining time never exceeds the total allowance and is never
/// negative, whatever the clock reads.
pub proof fn lemma_remaining_bounded(total: int, start: int, now: int)
    requires
        total >= 0,
    ensures
        0 <= spec_remaining(total, start, now) <= total,
{
}

/// The remaining time is non-increasing as the clock advances, so a sequence
/// of sub-operations each bounded by the then-remaining time never exceeds
/// the total allowance.
pub proof fn lemma_remaining_monotonic(total: int, start: int, now1: int, now2: int)
    requires
        total >= 0,
        now1 <= now2,
    ensures
        spec_remaining(total, start, now2) <= spec_remaining(total, start, now1),
{
}

} // verus!

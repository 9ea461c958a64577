//! Minimum spacing between consecutive engine invocations.
//!
//! Time is a count of nanoseconds on a monotonic clock whose origin the
//! caller chooses; the limiter only ever compares two readings of it.

use vstd::prelude::*;

verus! {

/// The least time, in nanoseconds, between the starts of two engine invocations.
pub const MIN_SEARCH_INTERVAL_NANOS: u64 = 100_000_000;

/// Time elapsed between `last` and `now`; zero when the clock reads earlier than `last`.
pub open spec fn elapsed_since(last: u64, now: u64) -> int {
    if now >= last {
        now - last
    } else {
        0
    }
}

/// How long a caller arriving at `now` has to wait, given the start of the
/// previous invocation. `None` means no wait at all.
pub open spec fn throttle_wait(last: Option<u64>, now: u64) -> Option<u64> {
    match last {
        Some(l) if elapsed_since(l, now) < MIN_SEARCH_INTERVAL_NANOS => Some(
            (MIN_SEARCH_INTERVAL_NANOS - elapsed_since(l, now)) as u64,
        ),
        _ => None,
    }
}

/// The wait as a plain number of nanoseconds.
pub open spec fn wait_nanos(wait: Option<u64>) -> int {
    match wait {
        Some(w) => w as int,
        None => 0,
    }
}

/// Remembers when the engine was last invoked.
pub struct RateLimiter {
    pub last_invocation: Option<u64>,
}

impl RateLimiter {
    /// A limiter that has seen no invocation yet.
    pub fn new() -> (limiter: Self)
        ensures
            limiter.last_invocation is None,
    {
        RateLimiter { last_invocation: None }
    }

    /// The time the caller must stay suspended before it may go on, if any.
    /// The result is never `Some(0)` and never more than the minimum interval.
    pub fn throttle(&self, now: u64) -> (wait: Option<u64>)
        ensures
            wait == throttle_wait(self.last_invocation, now),
            wait matches Some(w) ==> 0 < w <= MIN_SEARCH_INTERVAL_NANOS,
    {
        match self.last_invocation {
            Some(last) => {
                let elapsed: u64 = if now >= last {
                    now - last
                } else {
                    0
                };
                if elapsed < MIN_SEARCH_INTERVAL_NANOS {
                    Some(MIN_SEARCH_INTERVAL_NANOS - elapsed)
                } else {
                    None
                }
            },
            None => None,
        }
    }

    /// Notes that an invocation starts at `now`.
    pub fn record_invocation(&mut self, now: u64)
        ensures
            final(self).last_invocation == Some(now),
    {
        self.last_invocation = Some(now);
    }
}

/// A run of consecutive calls: call `i` arrives at `arrivals[i]`, not before
/// the previous invocation started, and starts its own invocation at
/// `starts[i]`, not before the wait it was given has passed.
pub open spec fn paced_run(arrivals: Seq<u64>, starts: Seq<u64>) -> bool {
    &&& arrivals.len() == starts.len()
    &&& forall|i: int|
        0 <= i < starts.len() ==> #[trigger] starts[i] >= arrivals[i] + wait_nanos(
            throttle_wait(previous_start(starts, i), arrivals[i]),
        )
    &&& forall|i: int| 0 < i < starts.len() ==> #[trigger] arrivals[i] >= starts[i - 1]
}

/// What the limiter remembers when call `i` arrives.
pub open spec fn previous_start(starts: Seq<u64>, i: int) -> Option<u64> {
    if 0 < i <= starts.len() {
        Some(starts[i - 1])
    } else {
        None
    }
}

/// In any run of consecutive calls that each honour the wait handed to them,
/// two successive invocations start at least the minimum interval apart.
pub proof fn lemma_invocation_spacing(arrivals: Seq<u64>, starts: Seq<u64>)
    requires
        paced_run(arrivals, starts),
    ensures
        forall|i: int|
            0 < i < starts.len() ==> #[trigger] starts[i] - starts[i - 1]
                >= MIN_SEARCH_INTERVAL_NANOS,
{
    assert forall|i: int| 0 < i < starts.len() implies #[trigger] starts[i] - starts[i - 1]
        >= MIN_SEARCH_INTERVAL_NANOS by {
        assert(arrivals[i] >= starts[i - 1]);
        assert(starts[i] >= arrivals[i] + wait_nanos(
            throttle_wait(previous_start(starts, i), arrivals[i]),
        ));
    }
}

/// Using the limiter as intended keeps the spacing: after waiting what
/// `throttle` asked for, the next recorded invocation lies a full interval
/// after the one the limiter remembered.
pub proof fn lemma_wait_then_record(limiter: RateLimiter, now: u64, start: u64)
    requires
        limiter.last_invocation matches Some(last) && last <= now,
        start >= now + wait_nanos(throttle_wait(limiter.last_invocation, now)),
    ensures
        start - limiter.last_invocation->0 >= MIN_SEARCH_INTERVAL_NANOS,
{
}

} // verus!

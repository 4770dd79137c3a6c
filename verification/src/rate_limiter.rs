//! The limiter of requests to the generation service: at most one per minimum
//! interval.
//!
//! Time is a count of milliseconds on a monotonic clock that the driver keeps.
//! The library never reads a clock: each operation is told what time it is.

use vstd::prelude::*;

verus! {

/// The minimum delay of a limiter made by `Default`.
pub const DEFAULT_MIN_DELAY_MS: u64 = 1000;

/// Allows a request when none was made yet, or when the last one lies at least
/// `min_delay_ms` back.
#[derive(Debug, Clone, Copy)]
pub struct RateLimiter {
    /// When the last request was made, if any was.
    pub last_request: Option<u64>,
    pub min_delay_ms: u64,
}

/// The time that has passed from `last` to `now`. A clock that went backwards
/// counts as no time passed.
pub open spec fn elapsed_ms(last: u64, now: u64) -> nat {
    if now >= last {
        (now - last) as nat
    } else {
        0
    }
}

impl RateLimiter {
    /// Whether a request may be made at `now_ms`.
    pub open spec fn permits(self, now_ms: u64) -> bool {
        match self.last_request {
            None => true,
            Some(last) => elapsed_ms(last, now_ms) >= self.min_delay_ms,
        }
    }

    /// The limiter after a request made at `now_ms`.
    pub open spec fn marked(self, now_ms: u64) -> RateLimiter {
        RateLimiter { last_request: Some(now_ms), min_delay_ms: self.min_delay_ms }
    }

    /// A limiter on which no request has been made.
    pub fn new(min_delay_ms: u64) -> (limiter: RateLimiter)
        ensures
            limiter == (RateLimiter { last_request: None, min_delay_ms }),
    {
        RateLimiter { last_request: None, min_delay_ms }
    }

    /// Whether a request may be made at `now_ms`. Changes nothing.
    pub fn can_make_request(&self, now_ms: u64) -> (allowed: bool)
        ensures
            allowed == self.permits(now_ms),
    {
        match self.last_request {
            None => true,
            Some(last) => {
                let elapsed = if now_ms >= last {
                    now_ms - last
                } else {
                    0
                };
                elapsed >= self.min_delay_ms
            },
        }
    }

    /// Records that a request is made at `now_ms`.
    pub fn mark_request_made(&mut self, now_ms: u64)
        ensures
            *final(self) == old(self).marked(now_ms),
    {
        self.last_request = Some(now_ms);
    }
}

impl Default for RateLimiter {
    fn default() -> (limiter: RateLimiter)
        ensures
            limiter == (RateLimiter { last_request: None, min_delay_ms: DEFAULT_MIN_DELAY_MS }),
    {
        RateLimiter::new(DEFAULT_MIN_DELAY_MS)
    }
}

/// A limiter permits a request before any was made. Right after a request it
/// permits none, unless its minimum delay is zero. Once the minimum delay has
/// passed since the last request it permits one again.
pub proof fn lemma_limiter_cycle(limiter: RateLimiter, requested_at: u64, now_ms: u64)
    ensures
        limiter.last_request is None ==> limiter.permits(now_ms),
        limiter.min_delay_ms > 0 ==> !limiter.marked(requested_at).permits(requested_at),
        now_ms >= requested_at && now_ms - requested_at >= limiter.min_delay_ms
            ==> limiter.marked(requested_at).permits(now_ms),
        now_ms >= requested_at && now_ms - requested_at < limiter.min_delay_ms
            ==> !limiter.marked(requested_at).permits(now_ms),
{
}

/// Two requests that the limiter lets pass in turn lie at least the minimum
/// delay apart.
pub proof fn lemma_requests_spaced(limiter: RateLimiter, first_at: u64, second_at: u64)
    requires
        limiter.marked(first_at).permits(second_at),
        second_at >= first_at,
    ensures
        second_at - first_at >= limiter.min_delay_ms,
{
}

} // verus!

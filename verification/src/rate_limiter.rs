//! Token-bucket rate limiting with a coarse full-refill-per-window policy.

use vstd::prelude::*;

verus! {

/// Rate limiting configuration: a request quota per time window.
#[derive(Debug, Clone)]
pub struct RateLimitConfig {
    /// Maximum number of requests per time window
    pub max_requests: u32,
    /// Time window in seconds
    pub window_secs: u64,
}

/// A token-bucket rate limiter.
///
/// The refill is lazy and coarse: on `acquire`, if a full window has elapsed
/// since the last refill, the pool is restored to its configured capacity in
/// one step and the refill timestamp is reset. Permit availability therefore
/// has a sawtooth shape aligned to window boundaries, not a steady trickle.
/// `release` returns a permit after a completed operation, so capacity is not
/// permanently lost on failed-but-attempted calls; a release landing after a
/// refill can push the pool above its configured capacity, exactly as a
/// semaphore-backed pool would.
#[derive(Debug, Clone, Copy, PartialEq, Eq, Structural)]
pub struct TokenBucketRateLimiter {
    /// Configured pool capacity.
    pub max_requests: u32,
    /// Window length in seconds.
    pub window_secs: u64,
    /// Permits currently available.
    pub available: u32,
    /// Time (in seconds) of the last full refill.
    pub last_refill: u64,
}

/// A full window has elapsed since the last refill.
pub open spec fn refill_due(s: TokenBucketRateLimiter, now: u64) -> bool {
    now as int >= s.last_refill as int + s.window_secs as int
}

/// The state and grant decision produced by one `acquire` call at time `now`.
pub open spec fn spec_acquire(s: TokenBucketRateLimiter, now: u64) -> (TokenBucketRateLimiter, bool) {
    let pool: u32 = if refill_due(s, now) {
        s.max_requests
    } else {
        s.available
    };
    let refill: u64 = if refill_due(s, now) {
        now
    } else {
        s.last_refill
    };
    if pool > 0 {
        (
            TokenBucketRateLimiter {
                available: (pool - 1) as u32,
                last_refill: refill,
                ..s
            },
            true,
        )
    } else {
        (TokenBucketRateLimiter { available: pool, last_refill: refill, ..s }, false)
    }
}

/// The states and grant decisions of a sequence of `acquire` calls.
pub open spec fn spec_acquire_all(s: TokenBucketRateLimiter, times: Seq<u64>) -> (
    TokenBucketRateLimiter,
    Seq<bool>,
)
    decreases times.len(),
{
    if times.len() == 0 {
        (s, Seq::empty())
    } else {
        let (s1, granted) = spec_acquire(s, times[0]);
        let (s2, rest) = spec_acquire_all(s1, times.skip(1));
        (s2, seq![granted] + rest)
    }
}

impl TokenBucketRateLimiter {
    /// Create a new token bucket rate limiter with a full pool.
    pub fn new(config: &RateLimitConfig, now: u64) -> (s: Self)
        ensures
            s.max_requests == config.max_requests,
            s.window_secs == config.window_secs,
            s.available == config.max_requests,
            s.last_refill == now,
    {
        Self {
            max_requests: config.max_requests,
            window_secs: config.window_secs,
            available: config.max_requests,
            last_refill: now,
        }
    }

    /// Try to consume one permit at time `now`, refilling the pool first when
    /// a full window has elapsed. Returns false when no permit is available;
    /// exhaustion is not an error and the caller must defer or skip.
    pub fn acquire(&mut self, now: u64) -> (granted: bool)
        ensures
            (*final(self), granted) == spec_acquire(*old(self), now),
            final(self).max_requests == old(self).max_requests,
            final(self).window_secs == old(self).window_secs,
            granted == (if refill_due(*old(self), now) {
                old(self).max_requests > 0
            } else {
                old(self).available > 0
            }),
    {
        if now >= self.last_refill && now - self.last_refill >= self.window_secs {
            self.available = self.max_requests;
            self.last_refill = now;
        }
        if self.available > 0 {
            self.available = self.available - 1;
            true
        } else {
            false
        }
    }

    /// Return one permit to the pool after a completed operation. The pool
    /// saturates at the integer limit rather than wrapping.
    pub fn release(&mut self)
        ensures
            final(self).available == if old(self).available < u32::MAX {
                (old(self).available + 1) as u32
            } else {
                old(self).available
            },
            final(self).max_requests == old(self).max_requests,
            final(self).window_secs == old(self).window_secs,
            final(self).last_refill == old(self).last_refill,
    {
        if self.available < u32::MAX {
            self.available = self.available + 1;
        }
    }
}

/// Rate limiting as its users see it: ask for a permit before an outbound
/// call, and return it when the call is over.
pub trait RateLimiter {
    /// Acquire permission to make a request at time `now`.
    fn acquire(&mut self, now: u64) -> bool;

    /// Release a request slot.
    fn release(&mut self);
}

impl RateLimiter for TokenBucketRateLimiter {
    /// Acquire permission to make a request at time `now`.
    fn acquire(&mut self, now: u64) -> (granted: bool)
        ensures
            (*final(self), granted) == spec_acquire(*old(self), now),
    {
        TokenBucketRateLimiter::acquire(self, now)
    }

    /// Release a request slot.
    fn release(&mut self)
        ensures
            final(self).available == if old(self).available < u32::MAX {
                (old(self).available + 1) as u32
            } else {
                old(self).available
            },
    {
        TokenBucketRateLimiter::release(self)
    }
}

/// After `k` acquires all made strictly within the window that started at the
/// last refill, a full pool has lost exactly `k` permits and the refill
/// timestamp has not moved.
proof fn lemma_acquire_run(s: TokenBucketRateLimiter, times: Seq<u64>)
    requires
        s.available <= s.max_requests,
        times.len() <= s.available,
        forall|i: int|
            0 <= i < times.len() ==> (times[i] as int) < s.last_refill as int + s.window_secs as int,
    ensures
        spec_acquire_all(s, times).0.available == s.available - times.len(),
        spec_acquire_all(s, times).0.last_refill == s.last_refill,
        spec_acquire_all(s, times).0.window_secs == s.window_secs,
        spec_acquire_all(s, times).0.max_requests == s.max_requests,
        spec_acquire_all(s, times).1.len() == times.len(),
        forall|i: int| 0 <= i < times.len() ==> spec_acquire_all(s, times).1[i] == true,
    decreases times.len(),
{
    if times.len() > 0 {
        let (s1, granted) = spec_acquire(s, times[0]);
        lemma_acquire_run(s1, times.skip(1));
        assert forall|i: int| 0 <= i < times.len() implies spec_acquire_all(s, times).1[i]
            == true by {
            if i > 0 {
                assert(spec_acquire_all(s1, times.skip(1)).1[i - 1] == true);
            }
        }
    }
}

/// Law: a limiter whose pool is full grants exactly `max_requests` acquires
/// within one window and refuses the request after that; `acquire` within the
/// same window never grants more.
pub proof fn lemma_rate_limiter_exhaustion(s: TokenBucketRateLimiter, times: Seq<u64>)
    requires
        s.available == s.max_requests,
        times.len() == s.max_requests as int + 1,
        forall|i: int|
            0 <= i < times.len() ==> (times[i] as int) < s.last_refill as int + s.window_secs as int,
    ensures
        forall|i: int| 0 <= i < s.max_requests as int ==> spec_acquire_all(s, times).1[i] == true,
        spec_acquire_all(s, times).1[s.max_requests as int] == false,
{
    let m: int = s.max_requests as int;
    let head: Seq<u64> = times.take(m);
    let tail: Seq<u64> = times.skip(m);
    lemma_acquire_run(s, head);
    lemma_acquire_all_split(s, head, tail);
    assert(head + tail =~= times);
    let s1: TokenBucketRateLimiter = spec_acquire_all(s, head).0;
    let grants1: Seq<bool> = spec_acquire_all(s, head).1;
    let grants2: Seq<bool> = spec_acquire_all(s1, tail).1;
    assert(s1.available == 0);
    assert(tail[0] == times[m]);
    assert(!refill_due(s1, tail[0]));
    assert(spec_acquire(s1, tail[0]).1 == false);
    assert(grants2[0] == false);
    assert(spec_acquire_all(s, times).1 == grants1 + grants2);
    assert((grants1 + grants2)[m] == grants2[0]);
    assert forall|i: int| 0 <= i < m implies spec_acquire_all(s, times).1[i] == true by {
        assert((grants1 + grants2)[i] == grants1[i]);
        assert(grants1[i] == true);
    }
}

/// Law: once a full window has elapsed since the last refill, the next
/// acquire on a limiter with a nonzero quota is granted again.
pub proof fn lemma_rate_limiter_refill(s: TokenBucketRateLimiter, now: u64)
    requires
        s.max_requests > 0,
        now as int >= s.last_refill as int + s.window_secs as int,
    ensures
        spec_acquire(s, now).1 == true,
        spec_acquire(s, now).0.available == s.max_requests - 1,
        spec_acquire(s, now).0.last_refill == now,
{
}

/// Running `spec_acquire_all` over a concatenation chains the two runs.
proof fn lemma_acquire_all_split(s: TokenBucketRateLimiter, a: Seq<u64>, b: Seq<u64>)
    ensures
        spec_acquire_all(s, a + b).0 == spec_acquire_all(spec_acquire_all(s, a).0, b).0,
        spec_acquire_all(s, a + b).1 == spec_acquire_all(s, a).1 + spec_acquire_all(
            spec_acquire_all(s, a).0,
            b,
        ).1,
    decreases a.len(),
{
    if a.len() == 0 {
        assert(a + b =~= b);
        assert(spec_acquire_all(s, a).1 + spec_acquire_all(spec_acquire_all(s, a).0, b).1
            =~= spec_acquire_all(s, b).1);
    } else {
        let (s1, granted) = spec_acquire(s, a[0]);
        assert((a + b).skip(1) =~= a.skip(1) + b);
        lemma_acquire_all_split(s1, a.skip(1), b);
        assert(spec_acquire_all(s, a + b).1 =~= spec_acquire_all(s, a).1 + spec_acquire_all(
            spec_acquire_all(s, a).0,
            b,
        ).1);
    }
}

} // verus!

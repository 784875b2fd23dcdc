use fariba_ddns::rate_limiter::{RateLimitConfig, TokenBucketRateLimiter};

fn limiter(max_requests: u32, window_secs: u64, now: u64) -> TokenBucketRateLimiter {
    TokenBucketRateLimiter::new(&RateLimitConfig { max_requests, window_secs }, now)
}

#[test]
fn acquire_grants_up_to_quota_then_refuses() {
    let mut rl = limiter(3, 3600, 1000);
    assert!(rl.acquire(1001));
    assert!(rl.acquire(1002));
    assert!(rl.acquire(1003));
    // The fourth request within the same window is refused.
    assert!(!rl.acquire(1004));
    assert!(!rl.acquire(4599));
}

#[test]
fn acquire_grants_again_after_window_elapses() {
    let mut rl = limiter(1, 60, 1000);
    assert!(rl.acquire(1000));
    assert!(!rl.acquire(1059));
    // One full window after the last refill, the pool is restored.
    assert!(rl.acquire(1060));
    assert!(!rl.acquire(1061));
}

#[test]
fn refill_is_full_and_coarse_not_a_trickle() {
    let mut rl = limiter(2, 100, 0);
    assert!(rl.acquire(0));
    assert!(rl.acquire(50));
    assert!(!rl.acquire(99));
    // At the window boundary the whole pool comes back at once.
    assert!(rl.acquire(100));
    assert!(rl.acquire(101));
    assert!(!rl.acquire(102));
}

#[test]
fn release_returns_capacity() {
    let mut rl = limiter(1, 3600, 0);
    assert!(rl.acquire(1));
    assert!(!rl.acquire(2));
    rl.release();
    assert!(rl.acquire(3));
}

#[test]
fn zero_quota_never_grants() {
    let mut rl = limiter(0, 60, 0);
    assert!(!rl.acquire(0));
    assert!(!rl.acquire(1000));
}

#[test]
fn clock_stepping_backwards_does_not_refill() {
    let mut rl = limiter(1, 60, 1000);
    assert!(rl.acquire(1000));
    assert!(!rl.acquire(10));
}

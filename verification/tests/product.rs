use boldtrace::rate_limit::RateLimiter;

#[test]
fn allows_up_to_max_attempts_then_blocks() {
    let mut limiter = RateLimiter::default();
    let window = 60_000_000_000;
    for _ in 0..3 {
        assert!(limiter.check("a@b.com", 3, window));
    }
    assert!(!limiter.check("a@b.com", 3, window));
}

#[test]
fn keys_are_independent() {
    let mut limiter = RateLimiter::default();
    let window = 60_000_000_000;
    assert!(limiter.check("a@b.com", 1, window));
    assert!(limiter.check("c@d.com", 1, window));
    assert!(!limiter.check("a@b.com", 1, window));
}

#[test]
fn expired_attempts_are_forgotten() {
    let mut limiter = RateLimiter::default();
    assert!(limiter.check_at("k", 1, 1_000, 0));
    assert!(!limiter.check_at("k", 1, 1_000, 1_000));
    assert!(limiter.check_at("k", 1, 1_000, 1_001));
}

#[test]
fn window_is_kept_to_the_nanosecond() {
    let mut limiter = RateLimiter::default();
    let window = 60_000_000_000;
    assert!(limiter.check_at("k", 1, window, 5));
    assert!(!limiter.check_at("k", 1, window, 5 + window));
    assert!(limiter.check_at("k", 1, window, 5 + window + 1));
}

use sentri::rate_limit::{
    create_dns_query_limiter, create_microsoft_api_limiter, AcquireOutcome, RateLimiter,
};

#[test]
fn token_bucket_grants_until_empty_then_waits() {
    let mut limiter = RateLimiter::new(5, 1000, 3);

    // The bucket starts full: five grants at time zero.
    for _ in 0..5 {
        assert_eq!(limiter.try_acquire(0), AcquireOutcome::Granted);
        assert!(limiter.tokens <= limiter.capacity);
    }

    // The sixth caller is told to wait out the rest of the period.
    assert_eq!(limiter.try_acquire(0), AcquireOutcome::WaitMs(1000));
    assert_eq!(limiter.try_acquire(400), AcquireOutcome::WaitMs(600));

    // After a whole period the bucket refills to capacity.
    assert_eq!(limiter.try_acquire(1000), AcquireOutcome::Granted);
    assert_eq!(limiter.tokens, 4);
    assert!(limiter.tokens <= limiter.capacity);
}

#[test]
fn token_bucket_multi_period_catch_up_keeps_fraction() {
    let mut limiter = RateLimiter::new(2, 100, 1);
    assert_eq!(limiter.try_acquire(0), AcquireOutcome::Granted);
    assert_eq!(limiter.try_acquire(0), AcquireOutcome::Granted);

    // 250 ms later: two whole periods have passed and 50 ms of the next.
    // The bucket refills (capped at capacity) and the period start moves
    // to 200, keeping the 50 ms of progress.
    assert_eq!(limiter.try_acquire(250), AcquireOutcome::Granted);
    assert_eq!(limiter.last_refill_ms, 200);
    assert_eq!(limiter.tokens, 1);
    assert!(limiter.tokens <= limiter.capacity);
}

#[test]
fn concurrency_permits_are_capped_and_returned() {
    let mut limiter = RateLimiter::new(100, 1000, 2);

    assert!(limiter.try_acquire_permit());
    assert!(limiter.try_acquire_permit());
    assert_eq!(limiter.outstanding_permits, 2);

    // The third acquisition is refused while two are outstanding.
    assert!(!limiter.try_acquire_permit());
    assert_eq!(limiter.outstanding_permits, 2);

    // Returning one permit lets the next caller in.
    limiter.release_permit();
    assert!(limiter.try_acquire_permit());
    assert_eq!(limiter.outstanding_permits, 2);
}

#[test]
fn update_config_tops_up_tokens_and_adds_permits() {
    let mut limiter = RateLimiter::new(2, 500, 3);
    assert_eq!(limiter.try_acquire(0), AcquireOutcome::Granted);
    assert_eq!(limiter.try_acquire(0), AcquireOutcome::Granted);
    assert_eq!(limiter.tokens, 0);

    limiter.update_config(5, 500, 5, 40);

    // Half the capacity increase, at least one token, never above the new
    // rate; permits only grow; the period restarts at the given time.
    assert_eq!(limiter.tokens, 1);
    assert_eq!(limiter.last_refill_ms, 40);
    assert_eq!(limiter.available_permits, 5);
    assert_eq!(limiter.try_acquire(40), AcquireOutcome::Granted);
}

#[test]
fn preset_limiters_match_their_documented_settings() {
    let ms = create_microsoft_api_limiter();
    assert_eq!(ms.capacity, 60);
    assert_eq!(ms.refill_time_ms, 60000);
    assert_eq!(ms.available_permits, 10);

    let dns = create_dns_query_limiter();
    assert_eq!(dns.capacity, 100);
    assert_eq!(dns.refill_time_ms, 60000);
    assert_eq!(dns.available_permits, 20);
}

#[test]
fn update_config_never_reduces_tokens() {
    // A full bucket of 10 keeps all its tokens when the rate drops to 5.
    let mut limiter = RateLimiter::new(10, 500, 3);
    assert_eq!(limiter.tokens, 10);
    limiter.update_config(5, 500, 3, 25);
    assert_eq!(limiter.tokens, 10);
    assert_eq!(limiter.last_refill_ms, 25);

    // A bucket below the new rate is topped up, never past the rate.
    let mut low = RateLimiter::new(4, 500, 3);
    for _ in 0..4 {
        assert_eq!(low.try_acquire(0), AcquireOutcome::Granted);
    }
    low.update_config(12, 500, 3, 30);
    assert_eq!(low.tokens, 4); // half of the increase from 4 to 12
}

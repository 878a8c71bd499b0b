use openmusicplayer::musicbrainz::limiter::{Admission, RateLimiter, RATE_LIMIT_INTERVAL};

#[test]
fn test_rate_limiter() {
    let mut limiter = RateLimiter::new();
    let start: u64 = 5_000;

    // First request should be immediate
    assert_eq!(limiter.acquire(start), Admission::Granted);

    // Second request should wait
    let mut now = start;
    match limiter.acquire(now) {
        Admission::Wait(wait) => now += wait,
        Admission::Granted => panic!("the second request went through at once"),
    }
    assert_eq!(limiter.acquire(now), Admission::Granted);

    let elapsed = now - start;
    assert!(elapsed >= RATE_LIMIT_INTERVAL);
}

#[test]
fn default_interval_is_one_second() {
    assert_eq!(RATE_LIMIT_INTERVAL, 1_000_000_000);
    assert_eq!(RateLimiter::new().interval(), 1_000_000_000);
    assert_eq!(RateLimiter::new().last_request(), None);
}

#[test]
fn idle_limiter_grants_without_wait() {
    let mut fresh = RateLimiter::with_interval(100);
    assert_eq!(fresh.wait_time(0), 0);
    assert_eq!(fresh.acquire(0), Admission::Granted);
    assert_eq!(fresh.last_request(), Some(0));

    // Exactly one interval later the limiter is idle again.
    assert_eq!(fresh.wait_time(100), 0);
    assert_eq!(fresh.acquire(100), Admission::Granted);
    assert_eq!(fresh.last_request(), Some(100));
}

#[test]
fn busy_limiter_says_how_long_is_left() {
    let mut limiter = RateLimiter::with_interval(100);
    assert_eq!(limiter.acquire(1_000), Admission::Granted);
    assert_eq!(limiter.acquire(1_000), Admission::Wait(100));
    assert_eq!(limiter.acquire(1_001), Admission::Wait(99));
    assert_eq!(limiter.acquire(1_099), Admission::Wait(1));
    // A refusal leaves the cursor where it was.
    assert_eq!(limiter.last_request(), Some(1_000));
    assert_eq!(limiter.acquire(1_100), Admission::Granted);
    assert_eq!(limiter.last_request(), Some(1_100));
}

#[test]
fn burst_is_spread_over_intervals() {
    let interval: u64 = 250;
    let callers = 8;
    let mut limiter = RateLimiter::with_interval(interval);
    let mut now: u64 = 10_000;
    let mut grants = Vec::new();
    for _ in 0..callers {
        // All callers arrive together; each waits as long as it is told.
        loop {
            match limiter.acquire(now) {
                Admission::Granted => {
                    grants.push(now);
                    break;
                }
                Admission::Wait(wait) => now += wait,
            }
        }
    }
    assert_eq!(grants.len(), callers);
    assert!(grants[callers - 1] - grants[0] >= (callers as u64 - 1) * interval);
    for pair in grants.windows(2) {
        assert!(pair[1] - pair[0] >= interval);
    }
    assert_eq!(grants[callers - 1], 10_000 + 7 * 250);
}

#[test]
fn long_pause_gives_no_credit() {
    let mut limiter = RateLimiter::with_interval(100);
    assert_eq!(limiter.acquire(0), Admission::Granted);
    // Ten intervals of silence buy one request, not ten.
    assert_eq!(limiter.acquire(1_000), Admission::Granted);
    assert_eq!(limiter.acquire(1_000), Admission::Wait(100));
    assert_eq!(limiter.acquire(1_050), Admission::Wait(50));
}

#[test]
fn clock_reading_before_the_cursor_counts_as_no_time() {
    let mut limiter = RateLimiter::with_interval(100);
    assert_eq!(limiter.acquire(500), Admission::Granted);
    assert_eq!(limiter.wait_time(400), 100);
    assert_eq!(limiter.acquire(400), Admission::Wait(100));
    assert_eq!(limiter.last_request(), Some(500));
}

#[test]
fn wait_time_does_not_move_the_cursor() {
    let mut limiter = RateLimiter::with_interval(1_000);
    assert_eq!(limiter.acquire(u64::MAX - 10), Admission::Granted);
    assert_eq!(limiter.wait_time(u64::MAX), 990);
    assert_eq!(limiter.wait_time(u64::MAX), 990);
    assert_eq!(limiter.last_request(), Some(u64::MAX - 10));
}

#[test]
fn limiter_without_spacing_always_grants() {
    let mut limiter = RateLimiter::with_interval(0);
    assert_eq!(limiter.acquire(7), Admission::Granted);
    assert_eq!(limiter.acquire(7), Admission::Granted);
}

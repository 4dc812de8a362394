use rust_iss::rate_limit::{
    client_key, RateLimiter, RATE_LIMIT_MAX_REQUESTS, RATE_LIMIT_WINDOW_NANOS,
    RATE_LIMIT_WINDOW_SECS,
};

const SECOND: u64 = 1_000_000_000;

#[test]
fn window_constants_agree() {
    assert_eq!(RATE_LIMIT_MAX_REQUESTS, 100);
    assert_eq!(RATE_LIMIT_WINDOW_SECS, 60);
    assert_eq!(RATE_LIMIT_WINDOW_NANOS, RATE_LIMIT_WINDOW_SECS * SECOND);
}

#[test]
fn hundred_requests_pass_and_the_next_is_refused() {
    let mut limiter = RateLimiter::new();
    for i in 0..100u64 {
        assert!(limiter.check("10.0.0.1", i).is_ok(), "request {}", i + 1);
    }
    match limiter.check("10.0.0.1", 100) {
        Err(e) => {
            assert_eq!(e.code, "RATE_LIMIT_EXCEEDED");
            assert_eq!(e.message, "Rate limit exceeded: 100 requests per 60 seconds");
        }
        Ok(_) => panic!("the 101st request is over the limit"),
    }
    assert!(limiter.check("10.0.0.1", 101).is_err());
    assert_eq!(limiter.len(), 1);
}

#[test]
fn clients_are_counted_apart() {
    let mut limiter = RateLimiter::new();
    for _ in 0..100 {
        assert!(limiter.check("a", 5).is_ok());
    }
    assert!(limiter.check("a", 5).is_err());
    assert!(limiter.check("b", 5).is_ok());
    assert!(limiter.check("A", 5).is_ok());
    assert_eq!(limiter.len(), 3);
}

#[test]
fn window_closes_sixty_seconds_after_it_opened() {
    let mut limiter = RateLimiter::new();
    let start = 10 * SECOND;
    for _ in 0..100 {
        assert!(limiter.check("a", start).is_ok());
    }
    assert!(limiter.check("a", start + 60 * SECOND - 1).is_err());
    assert!(limiter.check("a", start + 60 * SECOND).is_ok());
    for _ in 0..99 {
        assert!(limiter.check("a", start + 61 * SECOND).is_ok());
    }
    assert!(limiter.check("a", start + 61 * SECOND).is_err());
}

#[test]
fn window_does_not_slide_with_later_requests() {
    let mut limiter = RateLimiter::new();
    assert!(limiter.check("a", 0).is_ok());
    for i in 1..100u64 {
        assert!(limiter.check("a", 59 * SECOND + i).is_ok());
    }
    assert!(limiter.check("a", 59 * SECOND + 500).is_err());
    assert!(limiter.check("a", 60 * SECOND).is_ok());
}

#[test]
fn closed_windows_of_other_clients_are_dropped() {
    let mut limiter = RateLimiter::new();
    assert!(limiter.check("a", 0).is_ok());
    assert!(limiter.check("b", 30 * SECOND).is_ok());
    assert!(limiter.check("c", 59 * SECOND).is_ok());
    assert_eq!(limiter.len(), 3);
    assert!(limiter.check("c", 60 * SECOND).is_ok());
    assert_eq!(limiter.len(), 2);
    assert!(limiter.check("d", 95 * SECOND).is_ok());
    assert_eq!(limiter.len(), 2);
    assert!(limiter.check("d", 200 * SECOND).is_ok());
    assert_eq!(limiter.len(), 1);
}

#[test]
fn clock_that_runs_backwards_keeps_the_window_open() {
    let mut limiter = RateLimiter::new();
    for _ in 0..100 {
        assert!(limiter.check("a", 100 * SECOND).is_ok());
    }
    assert!(limiter.check("a", 50 * SECOND).is_err());
    assert!(limiter.check("a", 0).is_err());
    assert!(limiter.check("a", u64::MAX).is_ok());
}

#[test]
fn client_is_named_by_the_first_address_given() {
    assert_eq!(client_key(Some("1.1.1.1"), Some("2.2.2.2")), "1.1.1.1");
    assert_eq!(client_key(Some("1.1.1.1"), None), "1.1.1.1");
    assert_eq!(client_key(None, Some("2.2.2.2")), "2.2.2.2");
    assert_eq!(client_key(None, None), "unknown");
    assert_eq!(client_key(Some(""), Some("2.2.2.2")), "");
}

use web_project::rate_limiter::{
    keeps_entry, LoginAttempt, RateLimiter, RateLimiterConfig, CLEANUP_THRESHOLD,
};

// 192.168.1.1 as an IPv4-mapped address.
const IP: u128 = 0xffff_c0a8_0101;

#[test]
fn test_rate_limiter() {
    let mut limiter = RateLimiter::new();
    let ip = IP;
    let now = 1_000;

    // It should not be blocked at first.
    assert!(!limiter.is_blocked(ip, now));

    // Record failed attempts.
    for _ in 0..4 {
        assert!(!limiter.record_failed_attempt(ip, now));
    }

    // The 5th attempt should block.
    assert!(limiter.record_failed_attempt(ip, now));
    assert!(limiter.is_blocked(ip, now));
}

#[test]
fn test_block_expires_after_five_minutes() {
    let mut limiter = RateLimiter::new();
    for _ in 0..5 {
        limiter.record_failed_attempt(IP, 10_000);
    }
    assert_eq!(
        limiter.attempt(IP),
        Some(LoginAttempt { attempts: 5, first_attempt: 10_000, blocked_until: Some(310_000) })
    );
    assert!(limiter.is_blocked(IP, 309_999));
    assert!(!limiter.is_blocked(IP, 310_000));
    assert_eq!(limiter.get_block_remaining(IP, 10_000), Some(300));
    assert_eq!(limiter.get_block_remaining(IP, 10_001), Some(299));
    assert_eq!(limiter.get_block_remaining(IP, 309_999), Some(0));
    assert_eq!(limiter.get_block_remaining(IP, 310_000), None);
    assert_eq!(limiter.check_block_status(IP, 250_000), (true, Some(60)));
    assert_eq!(limiter.check_block_status(IP, 400_000), (false, None));
    assert_eq!(limiter.check_block_status(IP + 1, 250_000), (false, None));
    // While blocked, further failures change nothing.
    assert!(limiter.record_failed_attempt(IP, 100_000));
    assert_eq!(limiter.attempt(IP).unwrap().blocked_until, Some(310_000));
    assert_eq!(limiter.get_remaining_attempts(IP), 0);
    // After the block the count starts anew.
    assert!(!limiter.record_failed_attempt(IP, 310_000));
    assert_eq!(
        limiter.attempt(IP),
        Some(LoginAttempt { attempts: 1, first_attempt: 310_000, blocked_until: None })
    );
    assert_eq!(limiter.get_remaining_attempts(IP), 4);
}

#[test]
fn test_attempts_are_counted_within_a_window() {
    let mut limiter = RateLimiter::new();
    assert_eq!(limiter.get_remaining_attempts(IP), 5);
    assert!(!limiter.record_failed_attempt(IP, 0));
    assert!(!limiter.record_failed_attempt(IP, 30_000));
    assert!(!limiter.record_failed_attempt(IP, 60_000));
    assert_eq!(limiter.attempt(IP).unwrap().attempts, 3);
    assert_eq!(limiter.get_remaining_attempts(IP), 2);
    // More than a minute after the first attempt the window starts anew.
    assert!(!limiter.record_failed_attempt(IP, 60_001));
    assert_eq!(
        limiter.attempt(IP),
        Some(LoginAttempt { attempts: 1, first_attempt: 60_001, blocked_until: None })
    );
    // A clock reading before the first attempt counts as no time passed.
    assert!(!limiter.record_failed_attempt(IP, 5));
    assert_eq!(limiter.attempt(IP).unwrap().attempts, 2);
}

#[test]
fn test_success_clears_the_record() {
    let mut limiter = RateLimiter::new();
    limiter.record_failed_attempt(IP, 0);
    limiter.record_failed_attempt(IP + 1, 0);
    assert_eq!(limiter.len(), 2);
    limiter.record_success(IP);
    assert_eq!(limiter.attempt(IP), None);
    assert!(limiter.attempt(IP + 1).is_some());
    assert_eq!(limiter.len(), 1);
    limiter.record_success(IP);
    assert_eq!(limiter.len(), 1);
    assert_eq!(limiter.get_remaining_attempts(IP), 5);
}

#[test]
fn test_cleanup_keeps_recent_and_blocked_records() {
    let mut limiter = RateLimiter::new();
    limiter.record_failed_attempt(1, 0); // old, not blocked
    limiter.record_failed_attempt(2, 500_000); // recent
    for _ in 0..5 {
        limiter.record_failed_attempt(3, 400_000); // blocked until 700_000
    }
    for _ in 0..5 {
        limiter.record_failed_attempt(4, 0); // block expired at 300_000
    }
    limiter.cleanup_old_entries(600_000);
    assert!(limiter.attempt(1).is_none());
    assert!(limiter.attempt(2).is_some());
    assert!(limiter.attempt(3).is_some());
    assert!(limiter.attempt(4).is_none());
    assert_eq!(limiter.len(), 2);
    let config = RateLimiterConfig::default();
    let fresh = LoginAttempt { attempts: 1, first_attempt: 0, blocked_until: None };
    assert!(keeps_entry(&fresh, 599_999, &config));
    assert!(!keeps_entry(&fresh, 600_000, &config));
    let blocked = LoginAttempt { attempts: 5, first_attempt: 0, blocked_until: Some(10) };
    assert!(keeps_entry(&blocked, 9, &config));
    assert!(!keeps_entry(&blocked, 10, &config));
}

#[test]
fn test_maybe_cleanup_waits_for_the_threshold() {
    let mut limiter = RateLimiter::new();
    for ip in 0..CLEANUP_THRESHOLD as u128 {
        limiter.record_failed_attempt(ip, 0);
    }
    assert_eq!(limiter.len(), 1000);
    assert!(!limiter.maybe_cleanup(10_000_000));
    assert_eq!(limiter.len(), 1000);
    limiter.record_failed_attempt(5000, 9_999_000);
    assert!(limiter.maybe_cleanup(10_000_000));
    assert_eq!(limiter.len(), 1);
    assert!(limiter.attempt(5000).is_some());
}

#[test]
fn test_limiter_parameters() {
    let mut limiter = RateLimiter::default();
    assert_eq!(
        limiter.config(),
        RateLimiterConfig { max_attempts: 5, block_duration_secs: 300, attempt_window_secs: 60 }
    );
    limiter.record_failed_attempt(IP, 0);
    limiter.update_config(RateLimiterConfig {
        max_attempts: 2,
        block_duration_secs: 10,
        attempt_window_secs: 1,
    });
    assert_eq!(limiter.get_remaining_attempts(IP), 1);
    assert!(limiter.record_failed_attempt(IP, 500));
    assert_eq!(limiter.attempt(IP).unwrap().blocked_until, Some(10_500));
    // Times near the end of the clock do not wrap around.
    assert!(limiter.record_failed_attempt(7, u64::MAX - 5) == false);
    assert!(limiter.record_failed_attempt(7, u64::MAX - 5));
    assert_eq!(limiter.attempt(7).unwrap().blocked_until, Some(u64::MAX));
}

use mcp_monitor::admission::{origin_allowed, AdmissionDecision, WebSocketRateLimiter};

#[test]
fn test_rate_limit_two_per_minute() {
    // Limit 2 per 60-second window: three rapid attempts from one address
    // yield allowed, allowed, rate-limited.
    let mut limiter = WebSocketRateLimiter::with_limits(2, 60_000);

    let first = limiter.check_rate_limit("10.0.0.1", 0);
    let second = limiter.check_rate_limit("10.0.0.1", 10);
    let third = limiter.check_rate_limit("10.0.0.1", 20);

    assert_eq!(vec![first, second, third], vec![true, true, false]);
}

#[test]
fn test_rate_limit_window_elapses() {
    // K+1 attempts within the window for limit K: the first K are admitted,
    // the next is rejected, and after the window has elapsed an attempt is
    // admitted again.
    let mut limiter = WebSocketRateLimiter::with_limits(3, 60_000);

    assert!(limiter.check_rate_limit("10.0.0.2", 0));
    assert!(limiter.check_rate_limit("10.0.0.2", 100));
    assert!(limiter.check_rate_limit("10.0.0.2", 200));
    assert!(!limiter.check_rate_limit("10.0.0.2", 300));

    // 60 s after the last recorded attempt, everything has left the window.
    assert!(limiter.check_rate_limit("10.0.0.2", 60_300));
}

#[test]
fn test_rate_limit_per_address() {
    let mut limiter = WebSocketRateLimiter::with_limits(1, 60_000);

    assert!(limiter.check_rate_limit("10.0.0.3", 0));
    assert!(!limiter.check_rate_limit("10.0.0.3", 1));
    // A different address has its own window.
    assert!(limiter.check_rate_limit("10.0.0.4", 2));
}

#[test]
fn test_cleanup_forgets_stale_addresses() {
    let mut limiter = WebSocketRateLimiter::with_limits(2, 60_000);

    assert!(limiter.check_rate_limit("10.0.0.5", 0));
    assert!(limiter.check_rate_limit("10.0.0.5", 1));
    assert!(!limiter.check_rate_limit("10.0.0.5", 2));

    limiter.cleanup(70_000);

    // The swept entry no longer counts against the address.
    assert!(limiter.check_rate_limit("10.0.0.5", 70_001));
}

#[test]
fn test_websocket_origin_validation_production() {
    let allowed = vec![
        "http://localhost:8080".to_string(),
        "http://127.0.0.1:8080".to_string(),
    ];

    assert!(origin_allowed(
        &Some("http://localhost:8080".to_string()),
        &allowed,
        false
    ));
    assert!(!origin_allowed(
        &Some("http://malicious.com".to_string()),
        &allowed,
        false
    ));
}

#[test]
fn test_websocket_origin_validation_development() {
    let allowed = vec!["http://localhost:8080".to_string()];

    // Permissive (development) configuration accepts every origin.
    assert!(origin_allowed(
        &Some("http://anywhere.example".to_string()),
        &allowed,
        true
    ));
    assert!(origin_allowed(&None, &allowed, true));
}

#[test]
fn test_websocket_no_origin_header() {
    let allowed = vec!["http://localhost:8080".to_string()];

    assert!(!origin_allowed(&None, &allowed, false));
}

#[test]
fn test_websocket_multiple_allowed_origins() {
    let allowed = vec![
        "http://localhost:8080".to_string(),
        "http://localhost:3000".to_string(),
        "https://dashboard.example.com".to_string(),
    ];

    assert!(origin_allowed(
        &Some("http://localhost:3000".to_string()),
        &allowed,
        false
    ));
    assert!(origin_allowed(
        &Some("https://dashboard.example.com".to_string()),
        &allowed,
        false
    ));
    assert!(!origin_allowed(
        &Some("https://other.example.com".to_string()),
        &allowed,
        false
    ));
}

#[test]
fn test_websocket_origin_case_sensitivity() {
    let allowed = vec!["http://localhost:8080".to_string()];

    assert!(!origin_allowed(
        &Some("HTTP://LOCALHOST:8080".to_string()),
        &allowed,
        false
    ));
}

#[test]
fn test_admit_connection_decisions() {
    let allowed = vec!["http://localhost:8080".to_string()];

    // Origin on the list, under the limit: allowed.
    let mut limiter = WebSocketRateLimiter::with_limits(1, 60_000);
    let decision = limiter.admit_connection(
        "10.1.0.1",
        &Some("http://localhost:8080".to_string()),
        &allowed,
        false,
        0,
    );
    assert_eq!(decision, AdmissionDecision::Allowed);

    // Second attempt within the window: rate-limited.
    let decision = limiter.admit_connection(
        "10.1.0.1",
        &Some("http://localhost:8080".to_string()),
        &allowed,
        false,
        1,
    );
    assert_eq!(decision, AdmissionDecision::RateLimited);

    // Fresh address with an origin off the list: rejected for its origin.
    let decision = limiter.admit_connection(
        "10.1.0.2",
        &Some("http://evil.example".to_string()),
        &allowed,
        false,
        2,
    );
    assert_eq!(decision, AdmissionDecision::OriginRejected);

    // The rate limit is checked before the origin, so an exhausted address
    // is reported as rate-limited even with a bad origin.
    let decision = limiter.admit_connection(
        "10.1.0.1",
        &Some("http://evil.example".to_string()),
        &allowed,
        false,
        3,
    );
    assert_eq!(decision, AdmissionDecision::RateLimited);
}

#[test]
fn test_default_limiter_bounds() {
    // Ten connections per address per minute.
    let mut limiter = WebSocketRateLimiter::new();
    for i in 0..10 {
        assert!(limiter.check_rate_limit("10.2.0.1", i));
    }
    assert!(!limiter.check_rate_limit("10.2.0.1", 10));
}

use rate_limiter::bucket::{Bucket, RateLimitConfig};
use rate_limiter::engine::{
    AdmissionError, HeartBeatRequest, HeartBeatResponse, Outcome, PingRequest, RateLimitRequest,
    RateLimitResponse, RateLimiterService,
};
use rate_limiter::store::BucketStore;

fn service() -> RateLimiterService {
    RateLimiterService::new(RateLimitConfig::new(10, 60_000))
}

fn req(id: &str, tokens: i32) -> RateLimitRequest {
    RateLimitRequest { id: id.to_string(), tokens_requested: tokens }
}

#[test]
fn ten_unit_requests_then_exhausted_then_window_resets() {
    let mut s = service();
    for i in 0..10u64 {
        let d = s.decide(&req("u1", 1), i * 100).unwrap();
        assert_eq!(d.outcome, Outcome::Allowed);
        assert_eq!(d.remaining, 9 - i as i32);
    }
    let d = s.decide(&req("u1", 1), 1_000).unwrap();
    assert_eq!(d.outcome, Outcome::ResourceExhausted);
    assert_eq!(d.remaining, 0);
    let d = s.decide(&req("u1", 1), 60_000).unwrap();
    assert_eq!(d.outcome, Outcome::Allowed);
    assert_eq!(d.remaining, 9);
}

#[test]
fn request_above_capacity_is_denied_without_partial_debit() {
    let mut s = service();
    let d = s.decide(&req("u2", 15), 0).unwrap();
    assert_eq!(d.outcome, Outcome::ResourceExhausted);
    assert_eq!(d.tokens, 15);
    assert_eq!(d.remaining, 10);
    let d = s.decide(&req("u2", 10), 1).unwrap();
    assert_eq!(d.outcome, Outcome::Allowed);
    assert_eq!(d.remaining, 0);
}

#[test]
fn zero_or_negative_tokens_count_as_one() {
    let mut s = service();
    let d = s.decide(&req("n", 0), 0).unwrap();
    assert_eq!(d.tokens, 1);
    assert_eq!(d.remaining, 9);
    let d = s.decide(&req("n", -5), 0).unwrap();
    assert_eq!(d.tokens, 1);
    assert_eq!(d.remaining, 8);
    let d = s.decide(&req("n", 1), 0).unwrap();
    assert_eq!(d.remaining, 7);
    assert_eq!(s.validate_and_normalize_request(&req("n", i32::MIN)), Ok(1));
    assert_eq!(s.validate_and_normalize_request(&req("n", 7)), Ok(7));
}

#[test]
fn empty_identifier_is_invalid_whatever_the_count() {
    let mut s = service();
    for t in [i32::MIN, -1, 0, 1, 5, 100, i32::MAX] {
        assert_eq!(s.decide(&req("", t), 0), Err(AdmissionError::InvalidArgument));
        assert_eq!(
            s.validate_and_normalize_request(&req("", t)),
            Err(AdmissionError::InvalidArgument)
        );
    }
}

#[test]
fn long_idle_identifier_gets_exactly_one_refill() {
    let mut s = service();
    for _ in 0..10 {
        s.decide(&req("idle", 1), 0).unwrap();
    }
    assert_eq!(s.decide(&req("idle", 1), 59_999).unwrap().outcome, Outcome::ResourceExhausted);
    // ten windows later the bucket holds the capacity, not ten times it
    let d = s.decide(&req("idle", 11), 600_000).unwrap();
    assert_eq!(d.outcome, Outcome::ResourceExhausted);
    assert_eq!(d.remaining, 10);
    let d = s.decide(&req("idle", 10), 600_001).unwrap();
    assert_eq!(d.outcome, Outcome::Allowed);
    assert_eq!(d.remaining, 0);
}

#[test]
fn identifiers_do_not_share_buckets() {
    let mut s = service();
    for _ in 0..10 {
        s.decide(&req("a", 1), 0).unwrap();
    }
    assert_eq!(s.decide(&req("a", 1), 0).unwrap().outcome, Outcome::ResourceExhausted);
    let d = s.decide(&req("b", 1), 0).unwrap();
    assert_eq!(d.outcome, Outcome::Allowed);
    assert_eq!(d.remaining, 9);
    assert_eq!(s.decide(&req("a", 1), 0).unwrap().remaining, 0);
}

#[test]
fn heart_beat_leaves_rate_limit_state_alone() {
    let mut s = service();
    let hb = HeartBeatRequest {};
    for i in 0..10i32 {
        assert_eq!(s.heart_beat(&hb), HeartBeatResponse {});
        let d = s.decide(&req("h", 1), 0).unwrap();
        assert_eq!(s.heart_beat(&hb), HeartBeatResponse {});
        assert_eq!(d.remaining, 9 - i);
    }
    assert_eq!(s.heart_beat(&hb), HeartBeatResponse {});
    assert_eq!(s.decide(&req("h", 1), 0).unwrap().outcome, Outcome::ResourceExhausted);
}

#[test]
fn many_unit_requests_in_one_window_allow_at_most_capacity() {
    let mut s = service();
    let allowed = (0..25u64)
        .filter(|i| s.decide(&req("burst", 1), *i).unwrap().is_allowed())
        .count();
    assert_eq!(allowed, 10);
}

#[test]
fn live_clock_decisions_debit_the_bucket() {
    let mut s = service();
    let d = s.check_rate_limit(&req("live", 3)).unwrap();
    assert_eq!(d.outcome, Outcome::Allowed);
    assert_eq!(d.id, "live");
    assert_eq!(d.remaining, 7);
    let d = s.check_rate_limit(&req("live", 3)).unwrap();
    assert_eq!(d.remaining, 4);
    assert_eq!(s.check_rate_limit(&req("", 3)), Err(AdmissionError::InvalidArgument));
}

#[test]
fn default_service_grants_ten_per_minute() {
    let mut s = RateLimiterService::default();
    assert_eq!(s.config(), RateLimitConfig::standard());
    assert_eq!(s.config().capacity, 10);
    assert_eq!(s.config().window, 60_000);
    assert_eq!(s.decide(&req("d", 10), 0).unwrap().remaining, 0);
    assert_eq!(s.decide(&req("d", 1), 59_999).unwrap().outcome, Outcome::ResourceExhausted);
    assert_eq!(s.decide(&req("d", 1), 60_000).unwrap().remaining, 9);
}

#[test]
fn success_response_status() {
    assert_eq!(RateLimitResponse::success().status, "success");
}

#[test]
fn test_ping_request() {
    let s = service();
    let r = s.ping(&PingRequest { message: "Hello from gRPC test!".to_string() });
    assert_eq!(r.status, "success");
    assert!(r.message.contains("Pong"));
    assert_eq!(r.message, "Pong: Hello from gRPC test!");
}

#[test]
fn bucket_debit_and_reset() {
    let cfg = RateLimitConfig::new(10, 60_000);
    let mut b = Bucket::fresh(5, cfg);
    assert_eq!(b, Bucket { tokens: 10, last_refill: 5 });
    assert!(b.try_debit(4, 10, cfg));
    assert_eq!(b, Bucket { tokens: 6, last_refill: 5 });
    assert!(!b.try_debit(7, 60_004, cfg));
    assert_eq!(b, Bucket { tokens: 6, last_refill: 5 });
    assert!(b.try_debit(7, 60_005, cfg));
    assert_eq!(b, Bucket { tokens: 3, last_refill: 60_005 });
    // a clock reading before the last refill counts as no time elapsed
    assert!(b.try_debit(0, 0, cfg));
    assert_eq!(b, Bucket { tokens: 3, last_refill: 60_005 });
}

#[test]
fn store_reports_bucket_before_and_after() {
    let mut store = BucketStore::new(RateLimitConfig::new(3, 1_000));
    let id = "k".to_string();
    let d = store.try_debit(&id, 2, 100);
    assert!(d.allowed);
    assert_eq!(d.before, Bucket { tokens: 3, last_refill: 100 });
    assert_eq!(d.after, Bucket { tokens: 1, last_refill: 100 });
    let d = store.try_debit(&id, 2, 200);
    assert!(!d.allowed);
    assert_eq!(d.before, Bucket { tokens: 1, last_refill: 100 });
    assert_eq!(d.after, d.before);
    let d = store.try_debit(&id, 2, 1_100);
    assert!(d.allowed);
    assert_eq!(d.after, Bucket { tokens: 1, last_refill: 1_100 });
    assert_eq!(store.config().capacity, 3);
}

#[test]
fn heart_beat_and_ping_between_debits_change_nothing() {
    let mut s = service();
    assert_eq!(s.decide(&req("p", 4), 0).unwrap().remaining, 6);
    s.heart_beat(&HeartBeatRequest {});
    s.ping(&PingRequest { message: "p".to_string() });
    assert_eq!(s.decide(&req("p", 4), 0).unwrap().remaining, 2);
}

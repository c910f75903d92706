use b2_uploader::retry::{
    ConstantRetryStrategy, DefaultRetryStrategy, DynamicRetryStrategy, RetryStrategy,
};
use b2_uploader::throttle::Throttle;

#[test]
fn throttle_counts_within_window() {
    let mut t = Throttle::per_second(1000, 0);
    let a = t.advance_by(400, 100);
    assert_eq!(a.wait_ms, 0);
    assert_eq!(a.remaining, 600);
    let a = t.advance_by(600, 200);
    assert_eq!(a.wait_ms, 0);
    assert_eq!(a.remaining, 0);
}

#[test]
fn throttle_resets_when_window_elapses() {
    let mut t = Throttle::per_second(1000, 0);
    t.advance_by(1000, 100);
    // the window ends at 1000; a later advance starts a fresh window
    let a = t.advance_by(300, 1200);
    assert_eq!(a.wait_ms, 0);
    assert_eq!(a.remaining, 700);
}

#[test]
fn exhausted_throttle_asks_for_the_rest_of_the_window() {
    let mut t = Throttle::per_second(1000, 0);
    t.advance_by(1000, 100);
    // the budget is spent; the next advance waits out the window
    let a = t.advance_by(250, 600);
    assert_eq!(a.wait_ms, 400);
    assert_eq!(a.remaining, 750);
}

#[test]
fn wait_if_exhausted_reports_remaining_window() {
    let mut t = Throttle::new(10, 500, 0);
    assert_eq!(t.wait_if_exhausted(100), 0);
    t.advance_by(10, 100);
    assert_eq!(t.wait_if_exhausted(200), 300);
    // once the window has elapsed there is nothing to wait for
    assert_eq!(t.wait_if_exhausted(600), 0);
}

#[test]
fn remaining_accounts_for_window_and_count() {
    let mut t = Throttle::per_minute(50, 0);
    assert_eq!(t.remaining(10), 50);
    t.advance_by(20, 10);
    assert_eq!(t.remaining(20), 30);
    assert_eq!(t.remaining(60_000), 50);
}

#[test]
fn renewed_throttle_starts_a_fresh_window() {
    let mut t = Throttle::per_second(10, 0);
    t.advance_by(10, 1);
    let fresh = t.renewed(5);
    assert_eq!(fresh.remaining(5), 10);
}

#[test]
fn default_retry_is_dynamic_with_five_attempts() {
    let policy = RetryStrategy::default();
    assert_eq!(policy.count(), 5);
    // five thirds of a second per attempt number, in milliseconds
    assert_eq!(policy.wait(2), 2 * 5000 / 3);
    assert_eq!(policy.wait(3), 5000);
}

#[test]
fn constant_retry_returns_its_pair() {
    let policy = RetryStrategy::Constant(ConstantRetryStrategy { count: 7, wait_ms: 250 });
    assert_eq!(policy.count(), 7);
    assert_eq!(policy.wait(1), 250);
    assert_eq!(policy.wait(6), 250);
    let d = ConstantRetryStrategy::default();
    assert_eq!(d.count, 3);
    assert_eq!(d.wait_ms, 1000);
}

#[test]
fn dynamic_policy_wait_grows_with_attempt_number() {
    let d = DefaultRetryStrategy;
    assert_eq!(d.retry_count(), 5);
    assert!(d.wait_time(3) > d.wait_time(2));
}

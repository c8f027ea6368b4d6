use echo_service::echo_request::EchoRequest;
use echo_service::resolve::{resolve, MAX_DELAY_MILLIS};

fn query(status: Option<i32>, timeout: Option<i64>, delay: Option<i64>) -> EchoRequest {
    EchoRequest { status, timeout, delay }
}

#[test]
fn timeout_below_cap_passes_through() {
    let r = resolve(&query(None, Some(5000), None));
    assert_eq!(r.delay_millis, 5000);
}

#[test]
fn timeout_at_cap_passes_through() {
    let r = resolve(&query(None, Some(120000), None));
    assert_eq!(r.delay_millis, 120000);
}

#[test]
fn timeout_above_cap_is_clamped() {
    let r = resolve(&query(None, Some(120001), None));
    assert_eq!(r.delay_millis, MAX_DELAY_MILLIS);
    let r = resolve(&query(None, Some(i64::MAX), None));
    assert_eq!(r.delay_millis, 120000);
}

#[test]
fn negative_timeout_is_zero() {
    let r = resolve(&query(None, Some(-1), None));
    assert_eq!(r.delay_millis, 0);
    let r = resolve(&query(None, Some(i64::MIN), None));
    assert_eq!(r.delay_millis, 0);
}

#[test]
fn timeout_wins_over_delay() {
    let r = resolve(&query(None, Some(7), Some(9999)));
    assert_eq!(r.delay_millis, 7);
    let r = resolve(&query(None, Some(-2), Some(50)));
    assert_eq!(r.delay_millis, 0);
}

#[test]
fn delay_used_when_timeout_absent() {
    let r = resolve(&query(None, None, Some(100)));
    assert_eq!(r.delay_millis, 100);
    let r = resolve(&query(None, None, Some(-40)));
    assert_eq!(r.delay_millis, 0);
    let r = resolve(&query(None, None, Some(200000)));
    assert_eq!(r.delay_millis, 120000);
}

#[test]
fn absent_parameters_give_defaults() {
    let r = resolve(&query(None, None, None));
    assert_eq!(r.delay_millis, 0);
    assert_eq!(r.http_status, 200);
}

#[test]
fn status_passes_through_unvalidated() {
    let r = resolve(&query(Some(404), None, None));
    assert_eq!(r.http_status, 404);
    let r = resolve(&query(Some(-7), None, None));
    assert_eq!(r.http_status, -7);
    let r = resolve(&query(Some(99999), None, None));
    assert_eq!(r.http_status, 99999);
}

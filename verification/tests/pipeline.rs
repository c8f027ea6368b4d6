use echo_service::echo_request::EchoRequest;
use echo_service::response::{
    complete_request, compose_echo, error_response, health, route_of, EchoError, EchoMethod,
    InboundRequest, Route,
};

fn plain_request(method: EchoMethod, query: EchoRequest) -> InboundRequest {
    InboundRequest {
        method,
        query,
        request_id: None,
        real_ip: None,
        forwarded_for: None,
        user_agent: None,
        content_type: None,
        peer_addr: String::from("192.1.1.1"),
        body: Vec::new(),
    }
}

fn no_query() -> EchoRequest {
    EchoRequest { status: None, timeout: None, delay: None }
}

#[test]
fn test_health() {
    let response = health();

    assert!(response == 200);
}

#[test]
fn test_app_healthz() {
    let req = plain_request(EchoMethod::Get, no_query());

    let response = complete_request(&req, route_of("/healthz"), 0).unwrap();

    assert_eq!(response.status, 200);
    assert!(response.response_time.is_none());
}

#[test]
fn test_app_200() {
    let req = plain_request(EchoMethod::Get, no_query());

    let response = complete_request(&req, route_of("/"), 0).unwrap();

    assert_eq!(response.status, 200);
}

#[test]
fn test_app_404() {
    let mut req = plain_request(
        EchoMethod::Get,
        EchoRequest { status: Some(404), timeout: None, delay: None },
    );
    req.user_agent = Some(String::from("unittests/0.0"));

    let response = complete_request(&req, route_of("/"), 0).unwrap();

    assert_eq!(response.status, 404);
    assert_eq!(response.user_agent.unwrap(), "unittests/0.0");
}

#[test]
fn test_app_delay() {
    let req = plain_request(
        EchoMethod::Get,
        EchoRequest { status: None, timeout: None, delay: Some(100) },
    );
    let resolved = echo_service::resolve::resolve(&req.query);
    assert_eq!(resolved.delay_millis, 100);

    let response = complete_request(&req, route_of("/"), resolved.delay_millis + 3).unwrap();

    let latency = response.response_time.unwrap().parse::<i32>().unwrap();
    assert!(latency >= 100);
}

#[test]
fn unknown_path_is_not_found() {
    assert_eq!(route_of("/swagger"), Route::NotFound);
    let req = plain_request(EchoMethod::Get, no_query());

    let response = complete_request(&req, Route::NotFound, 1).unwrap();

    assert_eq!(response.status, 404);
    assert!(response.body.is_empty());
    assert!(response.request_id.is_some());
    assert_eq!(response.response_time.unwrap(), "1");
}

#[test]
fn routes_dispatch_by_path() {
    assert_eq!(route_of("/"), Route::Echo);
    assert_eq!(route_of("/healthz"), Route::Healthz);
    assert_eq!(route_of("/health"), Route::NotFound);
}

#[test]
fn echo_reports_client_context() {
    let mut req = plain_request(EchoMethod::Get, no_query());
    req.forwarded_for = Some(String::from("10.0.0.9"));
    req.user_agent = Some(String::from("curl/8.0.1"));

    let response = complete_request(&req, Route::Echo, 0).unwrap();

    assert_eq!(response.client_ip.unwrap(), "10.0.0.9");
    assert_eq!(response.user_agent.unwrap(), "curl/8.0.1");
    assert!(response.content_type.is_none());
    assert!(response.body.is_empty());
}

#[test]
fn real_ip_wins_over_forwarded_for() {
    let mut req = plain_request(EchoMethod::Get, no_query());
    req.real_ip = Some(String::from("203.0.113.7"));
    req.forwarded_for = Some(String::from("10.0.0.9"));

    let response = complete_request(&req, Route::Echo, 0).unwrap();

    assert_eq!(response.client_ip.unwrap(), "203.0.113.7");
}

#[test]
fn peer_address_is_the_fallback() {
    let req = plain_request(EchoMethod::Get, no_query());

    let response = complete_request(&req, Route::Echo, 0).unwrap();

    assert_eq!(response.client_ip.unwrap(), "192.1.1.1");
}

#[test]
fn inbound_request_id_propagates_through_pipeline() {
    let mut req = plain_request(EchoMethod::Get, no_query());
    req.request_id = Some(String::from("req-7f3a"));

    let response = complete_request(&req, Route::Echo, 0).unwrap();

    assert_eq!(response.request_id.unwrap(), "req-7f3a");
}

#[test]
fn post_echoes_body_with_default_content_type() {
    let mut req = plain_request(EchoMethod::Post, no_query());
    req.body = b"hello echo".to_vec();

    let response = complete_request(&req, Route::Echo, 0).unwrap();

    assert_eq!(response.status, 200);
    assert_eq!(response.body, b"hello echo".to_vec());
    assert_eq!(response.content_type.unwrap(), "text/plain");
}

#[test]
fn put_echoes_inbound_content_type() {
    let mut req = plain_request(EchoMethod::Put, no_query());
    req.content_type = Some(String::from("application/json"));
    req.body = b"{}".to_vec();

    let response = complete_request(&req, Route::Echo, 0).unwrap();

    assert_eq!(response.content_type.unwrap(), "application/json");
    assert_eq!(response.body, b"{}".to_vec());
}

#[test]
fn response_time_reports_measured_millis() {
    let req = plain_request(EchoMethod::Get, no_query());

    let response = complete_request(&req, Route::Echo, 150).unwrap();

    assert_eq!(response.response_time.unwrap(), "150");
}

#[test]
fn out_of_range_status_is_rejected() {
    let req = plain_request(
        EchoMethod::Get,
        EchoRequest { status: Some(99), timeout: None, delay: None },
    );
    let err = complete_request(&req, Route::Echo, 0).unwrap_err();
    assert_eq!(err, EchoError::InvalidStatus);

    let req = plain_request(
        EchoMethod::Get,
        EchoRequest { status: Some(1000), timeout: None, delay: None },
    );
    let err = complete_request(&req, Route::Echo, 0).unwrap_err();
    assert_eq!(err, EchoError::InvalidStatus);
}

#[test]
fn illegal_header_value_is_rejected() {
    let mut req = plain_request(EchoMethod::Get, no_query());
    req.user_agent = Some(String::from("agent\u{7}"));

    let err = compose_echo(&req).unwrap_err();
    assert_eq!(err, EchoError::IllegalHeaderValue);
}

#[test]
fn error_becomes_recoverable_server_error() {
    let req = plain_request(EchoMethod::Get, no_query());

    let response = error_response(&req, EchoError::IllegalHeaderValue, 4);

    assert_eq!(response.status, 500);
    assert_eq!(response.body, b"illegal header value".to_vec());
    assert_eq!(response.response_time.unwrap(), "4");
    assert!(response.request_id.is_some());
}

#[test]
fn healthz_ignores_query_and_elapsed() {
    let req = plain_request(
        EchoMethod::Get,
        EchoRequest { status: Some(503), timeout: Some(50), delay: None },
    );

    let response = complete_request(&req, Route::Healthz, 9999).unwrap();

    assert_eq!(response.status, 200);
    assert!(response.response_time.is_none());
    assert!(response.request_id.is_none());
    assert!(response.body.is_empty());
}

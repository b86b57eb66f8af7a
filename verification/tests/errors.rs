use oxidegate::error::{decimal_string, status_line, GatewayError};

#[test]
fn backend_status_maps_to_502_backend_error() {
    let e = GatewayError::BackendStatus { status: 500, body: "upstream boom".to_string() };
    assert_eq!(e.parts(), (502, "backend_error"));
    assert_eq!(e.message(), "backend returned 500 Internal Server Error: upstream boom");
}

#[test]
fn backend_unreachable_maps_to_502_backend_unreachable() {
    let e = GatewayError::BackendUnreachable("connection refused".to_string());
    assert_eq!(e.parts(), (502, "backend_unreachable"));
    assert_eq!(e.message(), "Could not reach backend: connection refused");
}

#[test]
fn queue_full_maps_to_429() {
    let e = GatewayError::QueueFull;
    assert_eq!(e.parts(), (429, "429_queue_full"));
    assert_eq!(e.message(), "Queue full, try again");
}

#[test]
fn scheduler_gone_maps_to_500() {
    let e = GatewayError::SchedulerGone;
    assert_eq!(e.parts(), (500, "scheduler_gone"));
    assert_eq!(e.message(), "Scheduler crashed or shut down");
}

#[test]
fn status_lines_follow_the_http_crate() {
    assert_eq!(status_line(404), "404 Not Found");
    assert_eq!(status_line(502), "502 Bad Gateway");
    assert_eq!(status_line(429), "429 Too Many Requests");
    assert_eq!(status_line(299), "299 <unknown status code>");
    assert_eq!(status_line(42), "42 <unknown status code>");
    assert_eq!(status_line(1000), "1000 <unknown status code>");
}

#[test]
fn status_line_matches_display_of_status_code() {
    for code in [100u16, 200, 201, 204, 301, 400, 401, 418, 500, 503, 599, 999] {
        let shown = axum::http::StatusCode::from_u16(code).unwrap().to_string();
        assert_eq!(status_line(code), shown);
    }
}

#[test]
fn decimal_strings() {
    assert_eq!(decimal_string(0), "0");
    assert_eq!(decimal_string(7), "7");
    assert_eq!(decimal_string(10), "10");
    assert_eq!(decimal_string(404), "404");
    assert_eq!(decimal_string(65535), "65535");
}

#[test]
fn unknown_status_in_error_message() {
    let e = GatewayError::BackendStatus { status: 299, body: String::new() };
    assert_eq!(e.message(), "backend returned 299 <unknown status code>: ");
}

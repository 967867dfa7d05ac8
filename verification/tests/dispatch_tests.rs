use httpc::dispatch::{marshal_response, validate_request, TransportResult};
use httpc::method::Method;
use httpc::response::{c_safe_text, make_error_response, HttpHeaderItem, ERROR_STATUS};

#[test]
fn validation_accepts_bodyless_methods_with_or_without_body() {
    for name in ["GET", "HEAD", "OPTIONS", "DELETE"] {
        assert!(validate_request(name, true).is_ok());
        assert!(validate_request(name, false).is_ok());
    }
}

#[test]
fn validation_accepts_body_methods_with_body() {
    assert!(matches!(validate_request("POST", true), Ok(Method::Post)));
    assert!(matches!(validate_request("PUT", true), Ok(Method::Put)));
    assert!(matches!(validate_request("PATCH", true), Ok(Method::Patch)));
}

#[test]
fn validation_rejects_body_methods_without_body() {
    for (name, expected) in [
        ("POST", "POST requires body"),
        ("PUT", "PUT requires body"),
        ("PATCH", "PATCH requires body"),
    ] {
        let resp = validate_request(name, false).err().expect("must be rejected");
        assert_eq!(resp.status, ERROR_STATUS);
        assert_eq!(resp.body, expected);
        assert!(resp.body.contains("requires body"));
        assert!(resp.content_type.is_none());
        assert!(resp.headers.is_none());
    }
}

#[test]
fn validation_rejects_unsupported_methods() {
    for name in ["TRACE", "  trace  ", "FETCH", ""] {
        let resp = validate_request(name, true).err().expect("must be rejected");
        assert_eq!(resp.status, ERROR_STATUS);
        assert_eq!(resp.body, "unsupported HTTP method");
        assert!(resp.body.contains("unsupported"));
        assert!(resp.content_type.is_none());
        assert!(resp.headers.is_none());
    }
}

#[test]
fn validation_matches_trimmed_lower_case_names() {
    assert!(matches!(validate_request("  get  ", false), Ok(Method::Get)));
    assert!(matches!(validate_request("\tpost ", true), Ok(Method::Post)));
}

#[test]
fn unicode_whitespace_around_body_method_still_requires_body() {
    let resp = validate_request("\u{a0}post", false).err().expect("must be rejected");
    assert_eq!(resp.status, ERROR_STATUS);
    assert_eq!(resp.body, "POST requires body");
}

#[test]
fn diagnostic_text_without_nul_crosses_unchanged() {
    assert_eq!(c_safe_text(String::from("request error: boom")), "request error: boom");
    assert_eq!(c_safe_text(String::new()), "");
}

#[test]
fn diagnostic_text_with_interior_nul_becomes_generic_message() {
    assert_eq!(c_safe_text(String::from("bad\0text")), "unknown error");
    assert_eq!(c_safe_text(String::from("\0")), "unknown error");
}

#[test]
fn marshaled_success_keeps_status_headers_and_body() {
    let outcome = TransportResult::Success {
        status: 200,
        content_type: Some(String::from("text/plain")),
        headers: vec![HttpHeaderItem {
            key: String::from("X-Test"),
            value: String::from("1"),
        }],
        body: String::from("hello"),
    };
    let resp = marshal_response(outcome);
    assert_eq!(resp.status, 200);
    assert_eq!(resp.body, "hello");
    assert_eq!(resp.content_type.as_deref(), Some("text/plain"));
    let headers = resp.headers.expect("success carries a header set");
    assert_eq!(headers.items.len(), 1);
    assert_eq!(headers.items[0].key, "X-Test");
    assert_eq!(headers.items[0].value, "1");
}

#[test]
fn marshaled_success_without_content_type_carries_empty_text() {
    let outcome = TransportResult::Success {
        status: 204,
        content_type: None,
        headers: Vec::new(),
        body: String::new(),
    };
    let resp = marshal_response(outcome);
    assert_eq!(resp.status, 204);
    assert_eq!(resp.body, "");
    assert_eq!(resp.content_type.as_deref(), Some(""));
    assert_eq!(resp.headers.expect("present even when empty").items.len(), 0);
}

#[test]
fn marshaled_error_statuses_stay_ordinary_responses() {
    let outcome = TransportResult::Success {
        status: 404,
        content_type: Some(String::from("text/html")),
        headers: Vec::new(),
        body: String::from("not found"),
    };
    let resp = marshal_response(outcome);
    assert_eq!(resp.status, 404);
    assert_ne!(resp.status, ERROR_STATUS);
    assert_eq!(resp.body, "not found");
}

#[test]
fn transport_failure_becomes_sentinel_with_request_error_prefix() {
    let resp = marshal_response(TransportResult::RequestFailed {
        detail: String::from("connection refused"),
    });
    assert_eq!(resp.status, ERROR_STATUS);
    assert_eq!(resp.body, "request error: connection refused");
    assert!(resp.content_type.is_none());
    assert!(resp.headers.is_none());
}

#[test]
fn body_read_failure_becomes_sentinel_with_read_body_prefix() {
    let resp = marshal_response(TransportResult::BodyReadFailed {
        detail: String::from("invalid utf-8"),
    });
    assert_eq!(resp.status, ERROR_STATUS);
    assert_eq!(resp.body, "read body error: invalid utf-8");
    assert!(resp.content_type.is_none());
    assert!(resp.headers.is_none());
}

#[test]
fn error_constructor_builds_the_uniform_error_shape() {
    let resp = make_error_response("null pointer argument");
    assert_eq!(resp.status, ERROR_STATUS);
    assert_eq!(resp.body, "null pointer argument");
    assert!(resp.content_type.is_none());
    assert!(resp.headers.is_none());
}

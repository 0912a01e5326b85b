use mexc_rs::response::{classify_envelope, decode_envelope, internal_error, ErrorCode};

#[test]
fn success_envelope_yields_payload() {
    let body = r#"{"code":0,"data":{"id":"abc"}}"#;
    let data = decode_envelope(200, body).unwrap();
    assert_eq!(data, serde_json::from_str::<serde_json::Value>(r#"{"id":"abc"}"#).unwrap());
}

#[test]
fn success_envelope_without_code_yields_payload() {
    let data = decode_envelope(200, r#"{"data":[1,2]}"#).unwrap();
    assert_eq!(data, serde_json::from_str::<serde_json::Value>("[1,2]").unwrap());
}

#[test]
fn business_error_on_success_status() {
    let e = decode_envelope(200, r#"{"code":700002,"msg":"Signature for this request is not valid."}"#)
        .unwrap_err();
    assert_eq!(e.raw_code, 700002);
    assert_eq!(e.code, ErrorCode::AuthenticationFailed);
    assert_eq!(e.msg, "Signature for this request is not valid.");
}

#[test]
fn business_error_without_message() {
    let e = decode_envelope(200, r#"{"code":730002,"data":null}"#).unwrap_err();
    assert_eq!(e.code, ErrorCode::InvalidParameter);
    assert_eq!(e.msg, "");
}

#[test]
fn error_body_on_failure_status() {
    let e = decode_envelope(400, r#"{"code":429,"msg":"Too many requests"}"#).unwrap_err();
    assert_eq!(e.raw_code, 429);
    assert_eq!(e.code, ErrorCode::RateLimited);
    assert_eq!(e.msg, "Too many requests");
}

#[test]
fn non_json_failure_is_internal_error() {
    let e = decode_envelope(500, "<html>oops</html>").unwrap_err();
    assert_eq!(e.raw_code, 999);
    assert_eq!(e.code, ErrorCode::InternalError);
    assert_eq!(e.msg, "HTTP 500 Internal Server Error, body: <html>oops</html>");
}

#[test]
fn failure_status_with_other_json_is_internal_error() {
    let e = decode_envelope(503, r#"{"error":"down"}"#).unwrap_err();
    assert_eq!(e.code, ErrorCode::InternalError);
    assert_eq!(e.msg, r#"HTTP 503 Service Unavailable, body: {"error":"down"}"#);
}

#[test]
fn non_json_success_is_internal_error() {
    let e = decode_envelope(200, "not json").unwrap_err();
    assert_eq!(e.raw_code, 999);
    assert_eq!(e.msg, "HTTP 200 OK, body: not json");
}

#[test]
fn success_without_data_is_internal_error() {
    let e = decode_envelope(200, r#"{"code":0}"#).unwrap_err();
    assert_eq!(e.code, ErrorCode::InternalError);
}

#[test]
fn classify_from_members() {
    let v = serde_json::from_str::<serde_json::Value>("true").unwrap();
    assert_eq!(classify_envelope(204, "", Some(0), None, Some(v.clone())).unwrap(), v);
    let e = classify_envelope(404, "x", Some(7), None, Some(v.clone())).unwrap_err();
    assert_eq!(e.code, ErrorCode::InternalError);
    assert_eq!(e.msg, "HTTP 404 Not Found, body: x");
    let e = classify_envelope(404, "x", Some(401), Some("no".to_string()), None).unwrap_err();
    assert_eq!((e.raw_code, e.code, e.msg.as_str()), (401, ErrorCode::AuthenticationFailed, "no"));
}

#[test]
fn error_code_kinds() {
    assert_eq!(ErrorCode::from_raw(429), ErrorCode::RateLimited);
    assert_eq!(ErrorCode::from_raw(510), ErrorCode::RateLimited);
    assert_eq!(ErrorCode::from_raw(700003), ErrorCode::AuthenticationFailed);
    assert_eq!(ErrorCode::from_raw(700005), ErrorCode::InvalidParameter);
    assert_eq!(ErrorCode::from_raw(500), ErrorCode::InternalError);
    assert_eq!(ErrorCode::from_raw(999), ErrorCode::InternalError);
    assert_eq!(ErrorCode::from_raw(12345), ErrorCode::Unknown);
    assert_eq!(ErrorCode::from_raw(0), ErrorCode::Unknown);
}

#[test]
fn internal_error_message() {
    let e = internal_error(502, "");
    assert_eq!((e.raw_code, e.code, e.msg.as_str()), (999, ErrorCode::InternalError, "HTTP 502 Bad Gateway, body: "));
}

#[test]
fn internal_error_for_status_without_reason_phrase() {
    let e = internal_error(599, "b");
    assert_eq!(e.msg, "HTTP 599 <unknown status code>, body: b");
    let e = internal_error(42, "b");
    assert_eq!(e.msg, "HTTP 42 <unknown status code>, body: b");
}

#[test]
fn reqwest_style_server_error_message() {
    let e = decode_envelope(500, "Internal Server Error").unwrap_err();
    assert_eq!(e.msg, "HTTP 500 Internal Server Error, body: Internal Server Error");
}

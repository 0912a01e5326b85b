//! Response decoding: the exchange wraps a success payload as
//! `{code: 0, data: ...}` and reports a failure as `{code, msg}`. Every
//! response ends as exactly one of a payload or a classified error.
use vstd::prelude::*;
use vstd::string::StringExecFns;
use crate::encode::{decimal_nat, push_char, push_decimal_u64};
use crate::query::opt_view;

verus! {

/// serde_json's JSON value, carried through unopened.
#[verifier::external_type_specification]
#[verifier::external_body]
pub struct ExJsonValue(serde_json::Value);

/// Raw code given to an error that the library synthesizes itself.
pub const SYNTHESIZED_ERROR_CODE: i64 = 999;

/// Semantic kind of an exchange error code.
#[derive(Clone, Copy, Debug, PartialEq, Eq, Structural)]
pub enum ErrorCode {
    RateLimited,
    InvalidParameter,
    AuthenticationFailed,
    InternalError,
    Unknown,
}

/// The kind of each raw code.
pub open spec fn code_kind(raw: i64) -> ErrorCode {
    if raw == 429 || raw == 510 {
        ErrorCode::RateLimited
    } else if raw == 400 || raw == 401 || raw == 403 || raw == 602 || raw == 10072
        || raw == 700001 || raw == 700002 || raw == 700003 || raw == 700006 || raw == 700007 {
        ErrorCode::AuthenticationFailed
    } else if raw == 700004 || raw == 700005 || raw == 700008 || raw == 730001 || raw == 730002
        || raw == 33333 {
        ErrorCode::InvalidParameter
    } else if raw == 500 || raw == 503 || raw == 504 || raw == 44444
        || raw == SYNTHESIZED_ERROR_CODE {
        ErrorCode::InternalError
    } else {
        ErrorCode::Unknown
    }
}

impl ErrorCode {
    /// The kind of the raw code `raw`.
    pub fn from_raw(raw: i64) -> (r: ErrorCode)
        ensures
            r == code_kind(raw),
    {
        if raw == 429 || raw == 510 {
            ErrorCode::RateLimited
        } else if raw == 400 || raw == 401 || raw == 403 || raw == 602 || raw == 10072
            || raw == 700001 || raw == 700002 || raw == 700003 || raw == 700006 || raw == 700007 {
            ErrorCode::AuthenticationFailed
        } else if raw == 700004 || raw == 700005 || raw == 700008 || raw == 730001 || raw
            == 730002 || raw == 33333 {
            ErrorCode::InvalidParameter
        } else if raw == 500 || raw == 503 || raw == 504 || raw == 44444 || raw
            == SYNTHESIZED_ERROR_CODE {
            ErrorCode::InternalError
        } else {
            ErrorCode::Unknown
        }
    }
}

/// An error the exchange reported, or one synthesized from a response that
/// could not be decoded.
#[derive(Clone, Debug)]
pub struct ErrorResponse {
    pub raw_code: i64,
    pub code: ErrorCode,
    pub msg: String,
}

/// Whether an HTTP status reports success (2xx).
pub open spec fn is_success(status: u16) -> bool {
    200 <= status <= 299
}

/// The canonical reason phrase of an HTTP status code, if it has one.
pub uninterp spec fn reason_phrase_of(status: u16) -> Option<Seq<char>>;

/// Relies on http's `StatusCode::from_u16`, which accepts the codes
/// 100 to 999, and `StatusCode::canonical_reason`, the reason phrase of a
/// code (`Internal Server Error` for 500), if it has one.
#[verifier::external_body]
fn reason_phrase(status: u16) -> (r: Option<String>)
    ensures
        opt_view(r) == reason_phrase_of(status),
{
    match http::StatusCode::from_u16(status) {
        Ok(code) => code.canonical_reason().map(str::to_string),
        Err(_) => None,
    }
}

/// A status as HTTP displays it: the code, a space and the reason phrase.
pub open spec fn status_text(status: u16) -> Seq<char> {
    decimal_nat(status as nat) + seq![' '] + match reason_phrase_of(status) {
        Some(p) => p,
        None => "<unknown status code>"@,
    }
}

/// Message of a synthesized error: the status and the raw body.
pub open spec fn internal_error_msg(status: u16, body: Seq<char>) -> Seq<char> {
    "HTTP "@ + status_text(status) + ", body: "@ + body
}

/// Whether `e` is the error synthesized for `status` and `body`.
pub open spec fn is_internal_error(e: ErrorResponse, status: u16, body: Seq<char>) -> bool {
    &&& e.raw_code == SYNTHESIZED_ERROR_CODE
    &&& e.code == ErrorCode::InternalError
    &&& e.msg@ == internal_error_msg(status, body)
}

/// Whether `e` is the business error with raw code `raw` and message `msg`.
pub open spec fn is_business_error(e: ErrorResponse, raw: i64, msg: Seq<char>) -> bool {
    &&& e.raw_code == raw
    &&& e.code == code_kind(raw)
    &&& e.msg@ == msg
}

/// What a response comes to, given the members its body was found to have:
/// `code` and `msg` where they are an integer and a string, `data` where present.
/// - failure status: the error `{code, msg}` when both stand, else the
///   synthesized error;
/// - success status: a non-zero `code` is a business error (message empty
///   when absent); else `data` is the payload, and without it the
///   synthesized error.
pub open spec fn envelope_outcome(
    status: u16,
    body: Seq<char>,
    code: Option<i64>,
    msg: Option<Seq<char>>,
    data: Option<serde_json::Value>,
    r: Result<serde_json::Value, ErrorResponse>,
) -> bool {
    if !is_success(status) {
        match (code, msg) {
            (Some(c), Some(m)) => r matches Err(e) && is_business_error(e, c, m),
            _ => r matches Err(e) && is_internal_error(e, status, body),
        }
    } else {
        match code {
            Some(c) if c != 0 => r matches Err(e) && is_business_error(
                e,
                c,
                match msg {
                    Some(m) => m,
                    None => Seq::<char>::empty(),
                },
            ),
            _ => match data {
                Some(d) => r == Ok::<serde_json::Value, ErrorResponse>(d),
                None => r matches Err(e) && is_internal_error(e, status, body),
            },
        }
    }
}

/// The error synthesized for a response that could not be decoded.
pub fn internal_error(status: u16, body: &str) -> (e: ErrorResponse)
    ensures
        is_internal_error(e, status, body@),
{
    let mut msg = String::from_str("HTTP ");
    push_decimal_u64(&mut msg, status as u64);
    push_char(&mut msg, ' ');
    match reason_phrase(status) {
        Some(p) => msg.append(p.as_str()),
        None => msg.append("<unknown status code>"),
    }
    msg.append(", body: ");
    msg.append(body);
    assert(msg@ =~= internal_error_msg(status, body@));
    ErrorResponse { raw_code: SYNTHESIZED_ERROR_CODE, code: ErrorCode::InternalError, msg }
}

fn business_error(raw: i64, msg: String) -> (e: ErrorResponse)
    ensures
        is_business_error(e, raw, msg@),
{
    ErrorResponse { raw_code: raw, code: ErrorCode::from_raw(raw), msg }
}

/// Decides a response from the members found in its body (see `envelope_outcome`).
pub fn classify_envelope(
    status: u16,
    body: &str,
    code: Option<i64>,
    msg: Option<String>,
    data: Option<serde_json::Value>,
) -> (r: Result<serde_json::Value, ErrorResponse>)
    ensures
        envelope_outcome(status, body@, code, opt_view(msg), data, r),
{
    if status < 200 || status > 299 {
        match (code, msg) {
            (Some(c), Some(m)) => Err(business_error(c, m)),
            _ => Err(internal_error(status, body)),
        }
    } else {
        match code {
            Some(c) if c != 0 => {
                let m = match msg {
                    Some(m) => m,
                    None => String::new(),
                };
                Err(business_error(c, m))
            },
            _ => match data {
                Some(d) => Ok(d),
                None => Err(internal_error(status, body)),
            },
        }
    }
}

/// Whether serde_json parses the text as a JSON value.
pub uninterp spec fn parses_as_json(text: Seq<char>) -> bool;

/// The member `code` of the JSON text, when it is an integer that fits `i64`.
pub uninterp spec fn json_code_of(text: Seq<char>) -> Option<i64>;

/// The member `msg` of the JSON text, when it is a string.
pub uninterp spec fn json_msg_of(text: Seq<char>) -> Option<Seq<char>>;

/// Whether the JSON text has a member `data`.
pub uninterp spec fn json_has_data(text: Seq<char>) -> bool;

/// Relies on `serde_json::from_str::<serde_json::Value>`, which succeeds
/// exactly on the texts it parses as JSON, and on `Value::get`, `as_i64` and
/// `as_str`, which read the members `code` (an integer that fits `i64`),
/// `msg` (a string) and `data` of an object.
#[verifier::external_body]
fn parse_envelope(text: &str) -> (r: Option<(Option<i64>, Option<String>, Option<serde_json::Value>)>)
    ensures
        r is Some == parses_as_json(text@),
        r matches Some(m) ==> m.0 == json_code_of(text@),
        r matches Some(m) ==> opt_view(m.1) == json_msg_of(text@),
        r matches Some(m) ==> (m.2 is Some) == json_has_data(text@),
{
    let v = serde_json::from_str::<serde_json::Value>(text).ok()?;
    let code = v.get("code").and_then(serde_json::Value::as_i64);
    let msg = v.get("msg").and_then(serde_json::Value::as_str).map(str::to_string);
    let data = v.get("data").cloned();
    Some((code, msg, data))
}

/// Decodes a response from its HTTP status and raw body. A body that is not
/// JSON gives the synthesized error; otherwise the outcome is that of
/// `classify_envelope` on the members `code`, `msg` and `data` of the body.
pub fn decode_envelope(status: u16, body: &str) -> (r: Result<serde_json::Value, ErrorResponse>)
    ensures
        !parses_as_json(body@) ==> (r matches Err(e) && is_internal_error(e, status, body@)),
        r is Ok ==> is_success(status) && parses_as_json(body@),
        parses_as_json(body@) ==> exists|data: Option<serde_json::Value>|
            (data is Some) == json_has_data(body@) && #[trigger] envelope_outcome(
                status,
                body@,
                json_code_of(body@),
                json_msg_of(body@),
                data,
                r,
            ),
{
    match parse_envelope(body) {
        None => Err(internal_error(status, body)),
        Some((code, msg, data)) => {
            let ghost d = data;
            let r = classify_envelope(status, body, code, msg, data);
            assert(envelope_outcome(status, body@, json_code_of(body@), json_msg_of(body@), d, r));
            r
        },
    }
}

} // verus!

//! The request description handed to the transport, the raw outcome it hands
//! back, and the verified interpretation of that outcome.

use vstd::prelude::*;
use crate::TodoistUser;
use crate::err::TodoistAPIError;
use crate::json::JsonValue;
use crate::transport::{fresh_request_id, parse_json_text, spec_parsed_json};

verus! {

/// The HTTP method of a request this crate makes.
#[derive(Debug, Clone, Copy, PartialEq, Eq, Structural)]
pub enum Method {
    Get,
    Post,
    Delete,
}

/// One HTTP request, fully described by plain values: the transport adds
/// nothing but the wire encoding.
pub struct HttpRequest {
    pub method: Method,
    pub url: String,
    pub headers: Vec<(String, String)>,
    pub query: Vec<(String, String)>,
    pub body: Option<String>,
}

/// What one HTTP exchange produced: either no response at all, or a response
/// with its status code and body text.
#[derive(Debug)]
pub enum TransportOutcome {
    /// The exchange itself did not complete; holds the transport's
    /// description of the failure.
    Failure(String),
    /// A response was received: its status code and its body text.
    Response(u16, String),
}

/// The `Content-Type: application/json` header for calls with a JSON body.
pub(crate) fn content_type_json() -> (r: (String, String))
    ensures
        r.0@ == "Content-Type"@,
        r.1@ == "application/json"@,
{
    ("Content-Type".to_owned(), "application/json".to_owned())
}

/// Whether `headers` is exactly the bearer-authorization header for `token`:
/// what every read or delete request of this crate carries.
pub open spec fn spec_headers_auth(headers: Seq<(String, String)>, token: Seq<char>) -> bool {
    &&& headers.len() == 1
    &&& headers[0].0@ == "Authorization"@
    &&& headers[0].1@ == "Bearer "@ + token
}

/// Whether `headers` is exactly: the bearer-authorization header for
/// `token`, the JSON content-type header, and a 36-character idempotency
/// request ID — what every request of this crate with a JSON body carries.
pub open spec fn spec_headers_auth_json_id(
    headers: Seq<(String, String)>,
    token: Seq<char>,
) -> bool {
    &&& headers.len() == 3
    &&& headers[0].0@ == "Authorization"@
    &&& headers[0].1@ == "Bearer "@ + token
    &&& headers[1].0@ == "Content-Type"@
    &&& headers[1].1@ == "application/json"@
    &&& headers[2].0@ == "X-Request-Id"@
    &&& headers[2].1@.len() == 36
}

/// The header list for a read or delete request: bearer authorization only.
pub(crate) fn auth_headers(user: &TodoistUser) -> (r: Vec<(String, String)>)
    ensures
        spec_headers_auth(r@, user.token_view()),
{
    vec![user.auth_header()]
}

/// The header list for a request with a JSON body: bearer authorization,
/// JSON content type, and a fresh idempotency request ID so the service can
/// deduplicate retried writes.
pub(crate) fn json_body_headers(user: &TodoistUser) -> (r: Vec<(String, String)>)
    ensures
        spec_headers_auth_json_id(r@, user.token_view()),
{
    vec![
        user.auth_header(),
        content_type_json(),
        ("X-Request-Id".to_owned(), fresh_request_id()),
    ]
}

/// Whether a status code counts as success for calls expecting a body.
pub open spec fn spec_is_success_code(code: u16) -> bool {
    200 <= code < 300
}

/// Interpret the outcome of a call that expects a JSON body on success.
///
/// A transport failure becomes `TransportError`; a non-2xx response becomes
/// `UnsuccessfulStatus` carrying the status code and the body text verbatim;
/// a 2xx response is parsed as JSON, yielding `Ok` with exactly the parsed
/// value when the body parses ([`spec_parsed_json`]) and
/// `ResponseDeserializationError` when it does not.
pub fn get_from_reqwest_response(outcome: TransportOutcome) -> (r: Result<
    JsonValue,
    TodoistAPIError,
>)
    ensures
        match outcome {
            TransportOutcome::Failure(d) => r matches Err(TodoistAPIError::TransportError(e))
                && e == d,
            TransportOutcome::Response(code, body) => {
                if spec_is_success_code(code) {
                    match spec_parsed_json(body@) {
                        Some(v) => r == Ok::<JsonValue, TodoistAPIError>(v),
                        None => r matches Err(
                            TodoistAPIError::ResponseDeserializationError(_),
                        ),
                    }
                } else {
                    r matches Err(TodoistAPIError::UnsuccessfulStatus(c, b)) && c == code && b
                        == body
                }
            },
        },
{
    match outcome {
        TransportOutcome::Failure(detail) => Err(TodoistAPIError::TransportError(detail)),
        TransportOutcome::Response(code, body) => {
            if 200 <= code && code < 300 {
                match parse_json_text(body.as_str()) {
                    Ok(v) => Ok(v),
                    Err(e) => Err(TodoistAPIError::ResponseDeserializationError(e)),
                }
            } else {
                Err(TodoistAPIError::UnsuccessfulStatus(code, body))
            }
        },
    }
}

/// Interpret the outcome of a call that expects a bodiless `204 No Content`
/// on success (delete, close, reopen, rename, remove).
///
/// A transport failure becomes `TransportError`; any status other than 204
/// becomes `UnsuccessfulStatus` carrying the status code and the body text
/// verbatim; a 204 response is success with no value.
pub fn get_204_from_reqwest_response(outcome: TransportOutcome) -> (r: Result<
    (),
    TodoistAPIError,
>)
    ensures
        match outcome {
            TransportOutcome::Failure(d) => r matches Err(TodoistAPIError::TransportError(e))
                && e == d,
            TransportOutcome::Response(code, body) => {
                if code == 204 {
                    r is Ok
                } else {
                    r matches Err(TodoistAPIError::UnsuccessfulStatus(c, b)) && c == code && b
                        == body
                }
            },
        },
{
    match outcome {
        TransportOutcome::Failure(detail) => Err(TodoistAPIError::TransportError(detail)),
        TransportOutcome::Response(code, body) => {
            if code == 204 {
                Ok(())
            } else {
                Err(TodoistAPIError::UnsuccessfulStatus(code, body))
            }
        },
    }
}

} // verus!

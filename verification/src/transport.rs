//! The trusted boundary: the HTTP transport (reqwest), the JSON text parser
//! (serde_json) and the request-ID source (uuid), each behind a small wrapper
//! whose contract Verus believes, plus the verified translation of a parsed
//! document into this crate's own [`JsonValue`] model.
//!
//! The parse is a deterministic function of the body text alone, so its
//! result carries the name [`spec_parsed_json`], and the response
//! interpreter's contract is stated over that name.

use vstd::prelude::*;
use crate::general::{HttpRequest, Method, TransportOutcome};
use crate::json::JsonValue;

verus! {

#[verifier::external_type_specification]
#[verifier::external_body]
pub struct ExValue(serde_json::Value);

#[verifier::external_type_specification]
#[verifier::external_body]
pub struct ExResponse(reqwest::blocking::Response);

#[verifier::external_type_specification]
#[verifier::external_body]
pub struct ExReqwestError(reqwest::Error);

/// Relies on reqwest's `Response::status` and `Response::text`: the status
/// code and the body text of a received response, or the failure met while
/// sending the request or reading the body.
#[verifier::external_body]
fn read_outcome(r: Result<reqwest::blocking::Response, reqwest::Error>) -> TransportOutcome {
    match r {
        Ok(resp) => {
            let status = resp.status().as_u16();
            match resp.text() {
                Ok(t) => TransportOutcome::Response(status, t),
                Err(e) => TransportOutcome::Failure(e.to_string()),
            }
        },
        Err(e) => TransportOutcome::Failure(e.to_string()),
    }
}

/// Relies on reqwest's blocking client: performs exactly one HTTP exchange as
/// `req` describes (method, URL, headers, query parameters, body) and reports
/// either the response's status code and body text or the transport failure.
/// A client that cannot be set up is reported as a failure, not a panic.
/// Nothing is promised of the outcome: the network decides it.
#[verifier::external_body]
pub(crate) fn send_request(req: &HttpRequest) -> TransportOutcome {
    let client = match reqwest::blocking::Client::builder().build() { Ok(c) => c, Err(e) => return TransportOutcome::Failure(e.to_string()) };
    let mut b = match req.method {
        Method::Get => client.get(&req.url),
        Method::Post => client.post(&req.url),
        Method::Delete => client.delete(&req.url),
    };
    for (k, v) in req.headers.iter() { b = b.header(k.as_str(), v.as_str()); }
    b = b.query(&req.query);
    if let Some(body) = &req.body { b = b.body(body.clone()); }
    read_outcome(b.send())
}

/// Relies on uuid's `Uuid::new_v4` and its `Display` form: a fresh random
/// UUID rendered in the 36-character hyphenated format. The value is random,
/// so nothing but its length is promised.
#[verifier::external_body]
pub(crate) fn fresh_request_id() -> (r: String)
    ensures
        r@.len() == 36,
{
    uuid::Uuid::new_v4().to_string()
}

/// Relies on serde_json's `Value::is_null`.
#[verifier::external_body]
fn value_is_null(v: &serde_json::Value) -> bool {
    v.is_null()
}

/// Relies on serde_json's `Value::as_bool`.
#[verifier::external_body]
fn value_as_bool(v: &serde_json::Value) -> Option<bool> {
    v.as_bool()
}

/// Relies on serde_json's `Value::as_i64`.
#[verifier::external_body]
fn value_as_i64(v: &serde_json::Value) -> Option<i64> {
    v.as_i64()
}

/// Relies on serde_json's `Value::as_str`, copying the borrowed text out.
#[verifier::external_body]
fn value_as_string(v: &serde_json::Value) -> Option<String> {
    v.as_str().map(|s| s.to_string())
}

/// Relies on serde_json's `Value::as_array`, cloning the elements out.
#[verifier::external_body]
fn value_as_array(v: &serde_json::Value) -> Option<Vec<serde_json::Value>> {
    v.as_array().cloned()
}

/// Relies on serde_json's `Value::as_object` and `Map::iter`: the object's
/// key/value pairs in the order the map yields them, cloned out.
#[verifier::external_body]
fn value_object_pairs(v: &serde_json::Value) -> Option<Vec<(String, serde_json::Value)>> {
    v.as_object().map(|m| m.iter().map(|(k, x)| (k.clone(), x.clone())).collect())
}

/// Relies on serde_json's `Value::is_number` and its `Display` form: a
/// number rendered back to text. The rendering is serde_json's shortest
/// form, not necessarily the input token (`1.50` comes back as `1.5`).
#[verifier::external_body]
fn value_number_text(v: &serde_json::Value) -> Option<String> {
    if v.is_number() {
        Some(v.to_string())
    } else {
        None
    }
}

/// Translate a parsed `serde_json::Value` into this crate's model, giving up
/// (with `None`) on documents nested deeper than `depth`. Numbers that fit in
/// `i64` become `Int`; any other number is carried as text, in serde_json's
/// rendering of it.
#[verifier::loop_isolation(false)]
fn value_to_json(v: &serde_json::Value, depth: u32) -> Option<JsonValue>
    decreases depth,
{
    if depth == 0 {
        return None;
    }
    if value_is_null(v) {
        return Some(JsonValue::Null);
    }
    if let Some(b) = value_as_bool(v) {
        return Some(JsonValue::Bool(b));
    }
    if let Some(i) = value_as_i64(v) {
        return Some(JsonValue::Int(i));
    }
    if let Some(t) = value_number_text(v) {
        return Some(JsonValue::NumText(t));
    }
    if let Some(s) = value_as_string(v) {
        return Some(JsonValue::Str(s));
    }
    if let Some(arr) = value_as_array(v) {
        let mut elems: Vec<JsonValue> = Vec::new();
        let n = arr.len();
        let mut i: usize = 0;
        while i < n
            decreases n - i,
        {
            match value_to_json(&arr[i], depth - 1) {
                Some(j) => elems.push(j),
                None => {
                    return None;
                },
            }
            i += 1;
        }
        return Some(JsonValue::Array(elems));
    }
    if let Some(pairs) = value_object_pairs(v) {
        let mut members: Vec<(String, JsonValue)> = Vec::new();
        let n = pairs.len();
        let mut i: usize = 0;
        while i < n
            decreases n - i,
        {
            match value_to_json(&pairs[i].1, depth - 1) {
                Some(j) => {
                    let key = pairs[i].0.clone();
                    members.push((key, j));
                },
                None => {
                    return None;
                },
            }
            i += 1;
        }
        return Some(JsonValue::Object(members));
    }
    None
}

/// The [`JsonValue`] that [`parse_json_text`] reads from the text `s`, or
/// `None` where it rejects the text. It is a name, not a definition: serde
/// json decides what parses, and with this crate's configuration (objects
/// backed by an ordered map, numbers read greedily) the result depends on
/// the text alone, in every process and on every machine.
pub uninterp spec fn spec_parsed_json(s: Seq<char>) -> Option<JsonValue>;

/// Parse JSON text into this crate's model, reporting a description of the
/// failure when the text is not JSON (or is nested beyond serde_json's
/// recursion limit).
///
/// Relies on serde_json's `from_str::<Value>`, a deterministic function of
/// the text, followed by [`value_to_json`], which tells the parsed value's
/// variants apart one by one; the composite result is named
/// [`spec_parsed_json`].
#[verifier::external_body]
pub(crate) fn parse_json_text(s: &str) -> (r: Result<JsonValue, String>)
    ensures
        r matches Ok(v) ==> spec_parsed_json(s@) == Some(v),
        r is Err ==> spec_parsed_json(s@) is None,
{
    match serde_json::from_str::<serde_json::Value>(s) {
        Ok(v) => match value_to_json(&v, 128) {
            Some(j) => Ok(j),
            None => Err("unsupported JSON value".to_owned()),
        },
        Err(e) => Err(e.to_string()),
    }
}

} // verus!

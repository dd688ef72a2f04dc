use rustodoist_rest2::err::TodoistAPIError;
use rustodoist_rest2::general::{
    TransportOutcome, get_204_from_reqwest_response, get_from_reqwest_response,
};
use rustodoist_rest2::json::{JsonValue, field_i64};
use rustodoist_rest2::projects::project_from_json;

#[test]
fn transport_failure_becomes_transport_error() {
    let outcome = TransportOutcome::Failure("connection refused".to_string());
    match get_from_reqwest_response(outcome) {
        Err(TodoistAPIError::TransportError(d)) => assert_eq!(d, "connection refused"),
        _ => panic!("expected a transport error"),
    }
}

#[test]
fn unsuccessful_status_keeps_code_and_body() {
    let outcome = TransportOutcome::Response(404, "not found".to_string());
    match get_from_reqwest_response(outcome) {
        Err(TodoistAPIError::UnsuccessfulStatus(404, body)) => assert_eq!(body, "not found"),
        _ => panic!("expected an unsuccessful-status error"),
    }
}

#[test]
fn server_error_status_keeps_code_and_body() {
    let outcome = TransportOutcome::Response(500, "oops".to_string());
    match get_from_reqwest_response(outcome) {
        Err(TodoistAPIError::UnsuccessfulStatus(500, body)) => assert_eq!(body, "oops"),
        _ => panic!("expected an unsuccessful-status error"),
    }
}

#[test]
fn malformed_json_becomes_deserialization_error() {
    let outcome = TransportOutcome::Response(200, "{not json".to_string());
    match get_from_reqwest_response(outcome) {
        Err(TodoistAPIError::ResponseDeserializationError(_)) => {}
        _ => panic!("expected a deserialization error"),
    }
}

#[test]
fn success_with_json_body_parses() {
    let outcome = TransportOutcome::Response(200, "{\"n\": 3}".to_string());
    let v = get_from_reqwest_response(outcome).expect("should parse");
    assert_eq!(field_i64(&v, "n"), Some(3));
}

#[test]
fn missing_required_field_becomes_deserialization_error() {
    // A project object without its required `name` field.
    let body = "{\"id\": \"1\", \"color\": \"red\", \"parent_id\": null, \"order\": 1, \
                \"comment_count\": 0, \"is_shared\": false, \"is_favorite\": false, \
                \"is_inbox_project\": false, \"view_style\": \"list\", \"url\": \"u\"}";
    let outcome = TransportOutcome::Response(200, body.to_string());
    let v = get_from_reqwest_response(outcome).expect("valid JSON should parse");
    match project_from_json(&v) {
        Err(TodoistAPIError::ResponseDeserializationError(_)) => {}
        _ => panic!("expected a deserialization error for the missing name"),
    }
}

#[test]
fn no_content_success_returns_unit() {
    let outcome = TransportOutcome::Response(204, "".to_string());
    assert!(get_204_from_reqwest_response(outcome).is_ok());
}

#[test]
fn no_content_call_rejects_other_statuses() {
    let outcome = TransportOutcome::Response(200, "body".to_string());
    match get_204_from_reqwest_response(outcome) {
        Err(TodoistAPIError::UnsuccessfulStatus(200, body)) => assert_eq!(body, "body"),
        _ => panic!("expected an unsuccessful-status error"),
    }
    let outcome = TransportOutcome::Failure("timed out".to_string());
    match get_204_from_reqwest_response(outcome) {
        Err(TodoistAPIError::TransportError(d)) => assert_eq!(d, "timed out"),
        _ => panic!("expected a transport error"),
    }
}

#[test]
fn numbers_beyond_i64_survive_as_tokens() {
    let outcome = TransportOutcome::Response(200, "[18446744073709551615, 2.5]".to_string());
    let v = get_from_reqwest_response(outcome).expect("should parse");
    match v {
        JsonValue::Array(elems) => {
            assert_eq!(elems.len(), 2);
            assert!(matches!(&elems[0], JsonValue::NumText(_)));
            assert!(matches!(&elems[1], JsonValue::NumText(_)));
        }
        _ => panic!("expected an array"),
    }
}

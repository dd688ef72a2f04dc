use rustodoist_rest2::color::Color;
use rustodoist_rest2::err::TodoistAPIError;
use rustodoist_rest2::general::{TransportOutcome, get_from_reqwest_response};
use rustodoist_rest2::json::to_json_text;
use rustodoist_rest2::labels::{
    NewLabel, UpdateLabel, label_from_json, labels_from_json, remove_shared_label_body,
    rename_shared_label_body, shared_labels_from_json,
};

#[test]
fn new_label_with_only_name_serializes_to_exactly_the_name_key() {
    let l = NewLabel { name: "Food".to_string(), order: None, color: None, is_favorite: None };
    assert_eq!(to_json_text(&l.to_json()), "{\"name\":\"Food\"}");
}

#[test]
fn new_label_name_is_escaped_in_the_body() {
    let l = NewLabel { name: "a\"b".to_string(), order: None, color: None, is_favorite: None };
    assert_eq!(to_json_text(&l.to_json()), "{\"name\":\"a\\\"b\"}");
}

#[test]
fn created_label_echo_decodes_unchanged() {
    // The request body carries only the name; the service echoes a full
    // label object, which must decode into exactly the echoed fields.
    let l = NewLabel { name: "Food".to_string(), order: None, color: None, is_favorite: None };
    assert_eq!(to_json_text(&l.to_json()), "{\"name\":\"Food\"}");
    let echo = "{\"id\": \"2156154810\", \"name\": \"Food\", \"color\": \"charcoal\", \
                \"order\": 1, \"is_favorite\": false}";
    let outcome = TransportOutcome::Response(200, echo.to_string());
    let v = get_from_reqwest_response(outcome).expect("should parse");
    let label = label_from_json(&v).expect("should decode");
    assert_eq!(label.id, "2156154810");
    assert_eq!(label.name, "Food");
    assert_eq!(label.color, Color::Charcoal);
    assert_eq!(label.order, 1);
    assert!(!label.is_favorite);
}

#[test]
fn new_label_body_keeps_set_fields_in_order() {
    let l = NewLabel {
        name: "Urgent".to_string(),
        order: Some(2),
        color: Some(Color::Red),
        is_favorite: Some(true),
    };
    assert_eq!(
        to_json_text(&l.to_json()),
        "{\"name\":\"Urgent\",\"order\":2,\"color\":\"red\",\"is_favorite\":true}"
    );
}

#[test]
fn update_label_body_omits_unset_fields() {
    let l = UpdateLabel {
        name: None,
        order: Some(-3),
        color: Some(Color::SkyBlue),
        is_favorite: None,
    };
    assert_eq!(to_json_text(&l.to_json()), "{\"order\":-3,\"color\":\"sky_blue\"}");
}

#[test]
fn label_list_decodes_in_order() {
    let body = "[{\"id\": \"1\", \"name\": \"A\", \"color\": \"red\", \"order\": 1, \
                \"is_favorite\": false}, {\"id\": \"2\", \"name\": \"B\", \"color\": \"teal\", \
                \"order\": 2, \"is_favorite\": true}]";
    let outcome = TransportOutcome::Response(200, body.to_string());
    let v = get_from_reqwest_response(outcome).expect("should parse");
    let labels = labels_from_json(&v).expect("should decode");
    assert_eq!(labels.len(), 2);
    assert_eq!(labels[0].name, "A");
    assert_eq!(labels[1].name, "B");
    assert_eq!(labels[1].color, Color::Teal);
}

#[test]
fn shared_labels_decode_as_bare_strings() {
    let outcome = TransportOutcome::Response(200, "[\"Food\", \"Vacation\"]".to_string());
    let v = get_from_reqwest_response(outcome).expect("should parse");
    let names = shared_labels_from_json(&v).expect("should decode");
    assert_eq!(names, vec!["Food".to_string(), "Vacation".to_string()]);
}

#[test]
fn shared_label_list_of_objects_is_a_hard_error() {
    let outcome = TransportOutcome::Response(200, "[{}]".to_string());
    let v = get_from_reqwest_response(outcome).expect("should parse");
    assert!(matches!(
        shared_labels_from_json(&v),
        Err(TodoistAPIError::ResponseDeserializationError(_))
    ));
}

#[test]
fn shared_label_bodies_have_the_documented_keys() {
    assert_eq!(
        to_json_text(&rename_shared_label_body("old", "new")),
        "{\"old_name\":\"old\",\"new_name\":\"new\"}"
    );
    assert_eq!(to_json_text(&remove_shared_label_body("gone")), "{\"name\":\"gone\"}");
}

use rustodoist_rest2::err::TodoistAPIError;
use rustodoist_rest2::general::{TransportOutcome, get_from_reqwest_response};
use rustodoist_rest2::json::to_json_text;
use rustodoist_rest2::sections::{
    NewSection, section_from_json, sections_from_json, update_section_body,
};

#[test]
fn section_decodes() {
    let body = "{\"id\": \"7025\", \"project_id\": \"2203306141\", \"order\": 1, \
                \"name\": \"Groceries\"}";
    let outcome = TransportOutcome::Response(200, body.to_string());
    let v = get_from_reqwest_response(outcome).expect("should parse");
    let s = section_from_json(&v).expect("should decode");
    assert_eq!(s.id, "7025");
    assert_eq!(s.project_id, "2203306141");
    assert_eq!(s.order, 1);
    assert_eq!(s.name, "Groceries");
}

#[test]
fn section_list_decodes_in_order() {
    let body = "[{\"id\": \"1\", \"project_id\": \"p\", \"order\": 1, \"name\": \"A\"}, \
                {\"id\": \"2\", \"project_id\": \"p\", \"order\": 2, \"name\": \"B\"}]";
    let outcome = TransportOutcome::Response(200, body.to_string());
    let v = get_from_reqwest_response(outcome).expect("should parse");
    let sections = sections_from_json(&v).expect("should decode");
    assert_eq!(sections.len(), 2);
    assert_eq!(sections[0].name, "A");
    assert_eq!(sections[1].name, "B");
}

#[test]
fn section_missing_order_is_a_hard_error() {
    let body = "{\"id\": \"1\", \"project_id\": \"p\", \"name\": \"A\"}";
    let outcome = TransportOutcome::Response(200, body.to_string());
    let v = get_from_reqwest_response(outcome).expect("should parse");
    assert!(matches!(
        section_from_json(&v),
        Err(TodoistAPIError::ResponseDeserializationError(_))
    ));
}

#[test]
fn new_section_body_omits_unset_order() {
    let s = NewSection { name: "Groceries".to_string(), project_id: "p1".to_string(), order: None };
    assert_eq!(
        to_json_text(&s.to_json()),
        "{\"name\":\"Groceries\",\"project_id\":\"p1\"}"
    );
    let with_order = NewSection {
        name: "Groceries".to_string(),
        project_id: "p1".to_string(),
        order: Some(5),
    };
    assert_eq!(
        to_json_text(&with_order.to_json()),
        "{\"name\":\"Groceries\",\"project_id\":\"p1\",\"order\":5}"
    );
}

#[test]
fn section_rename_body_has_exactly_the_name_key() {
    assert_eq!(to_json_text(&update_section_body("Renamed")), "{\"name\":\"Renamed\"}");
}

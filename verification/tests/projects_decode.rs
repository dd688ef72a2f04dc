use rustodoist_rest2::color::Color;
use rustodoist_rest2::err::TodoistAPIError;
use rustodoist_rest2::general::{TransportOutcome, get_from_reqwest_response};
use rustodoist_rest2::json::to_json_text;
use rustodoist_rest2::projects::{
    NewProject, Project, UpdateProject, ViewStyle, project_from_json, projects_from_json,
};

fn project_json(id: &str, name: &str, color: &str, favorite: bool) -> String {
    format!(
        "{{\"id\": \"{}\", \"name\": \"{}\", \"color\": \"{}\", \"parent_id\": null, \
         \"order\": 1, \"comment_count\": 10, \"is_shared\": false, \"is_favorite\": {}, \
         \"is_inbox_project\": false, \"view_style\": \"list\", \
         \"url\": \"https://todoist.com/showProject?id={}\"}}",
        id, name, color, favorite, id
    )
}

#[test]
fn project_list_round_trips_through_interpreter() {
    let body = format!(
        "[{}, {}]",
        project_json("220474322", "Inbox", "grey", false),
        project_json("220474323", "Shopping", "berry_red", true)
    );
    let outcome = TransportOutcome::Response(200, body);
    let v = get_from_reqwest_response(outcome).expect("should parse");
    let projects = projects_from_json(&v).expect("should decode");
    assert_eq!(projects.len(), 2);
    let p0: &Project = &projects[0];
    assert_eq!(p0.id, "220474322");
    assert_eq!(p0.name, "Inbox");
    assert_eq!(p0.color, Color::Grey);
    assert_eq!(p0.parent_id, None);
    assert_eq!(p0.order, 1);
    assert_eq!(p0.comment_count, 10);
    assert!(!p0.is_shared);
    assert!(!p0.is_favorite);
    assert!(!p0.is_inbox_project);
    assert_eq!(p0.view_style, ViewStyle::List);
    assert_eq!(p0.url, "https://todoist.com/showProject?id=220474322");
    let p1: &Project = &projects[1];
    assert_eq!(p1.id, "220474323");
    assert_eq!(p1.name, "Shopping");
    assert_eq!(p1.color, Color::BerryRed);
    assert!(p1.is_favorite);
}

#[test]
fn project_with_parent_id_decodes() {
    let body = "{\"id\": \"2\", \"name\": \"Sub\", \"color\": \"blue\", \
                \"parent_id\": \"1\", \"order\": 3, \"comment_count\": 0, \
                \"is_shared\": true, \"is_favorite\": false, \"is_inbox_project\": false, \
                \"view_style\": \"board\", \"url\": \"u\"}";
    let outcome = TransportOutcome::Response(200, body.to_string());
    let v = get_from_reqwest_response(outcome).expect("should parse");
    let p = project_from_json(&v).expect("should decode");
    assert_eq!(p.parent_id, Some("1".to_string()));
    assert_eq!(p.view_style, ViewStyle::Board);
    assert!(p.is_shared);
}

#[test]
fn unknown_color_is_a_hard_error() {
    let body = project_json("1", "P", "ultraviolet", false);
    let outcome = TransportOutcome::Response(200, body);
    let v = get_from_reqwest_response(outcome).expect("should parse");
    assert!(matches!(
        project_from_json(&v),
        Err(TodoistAPIError::ResponseDeserializationError(_))
    ));
}

#[test]
fn unknown_view_style_is_a_hard_error() {
    let body = project_json("1", "P", "red", false).replace("\"list\"", "\"grid\"");
    let outcome = TransportOutcome::Response(200, body);
    let v = get_from_reqwest_response(outcome).expect("should parse");
    assert!(matches!(
        project_from_json(&v),
        Err(TodoistAPIError::ResponseDeserializationError(_))
    ));
}

#[test]
fn non_array_project_list_is_a_hard_error() {
    let outcome = TransportOutcome::Response(200, "{}".to_string());
    let v = get_from_reqwest_response(outcome).expect("should parse");
    assert!(matches!(
        projects_from_json(&v),
        Err(TodoistAPIError::ResponseDeserializationError(_))
    ));
}

#[test]
fn new_project_body_omits_unset_fields() {
    let p = NewProject {
        name: "Make Todoist Integration".to_string(),
        parent_id: None,
        color: Some(Color::Magenta),
        is_favorite: None,
        view_style: Some(ViewStyle::Board),
    };
    assert_eq!(
        to_json_text(&p.to_json()),
        "{\"name\":\"Make Todoist Integration\",\"color\":\"magenta\",\"view_style\":\"board\"}"
    );
    let minimal = NewProject {
        name: "Bare".to_string(),
        parent_id: None,
        color: None,
        is_favorite: None,
        view_style: None,
    };
    assert_eq!(to_json_text(&minimal.to_json()), "{\"name\":\"Bare\"}");
}

#[test]
fn update_project_body_omits_unset_fields() {
    let p = UpdateProject { name: None, color: None, is_favorite: Some(true), view_style: None };
    assert_eq!(to_json_text(&p.to_json()), "{\"is_favorite\":true}");
    let empty = UpdateProject { name: None, color: None, is_favorite: None, view_style: None };
    assert_eq!(to_json_text(&empty.to_json()), "{}");
}

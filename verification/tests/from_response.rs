use rustodoist_rest2::color::Color;
use rustodoist_rest2::comments::comment_from_response;
use rustodoist_rest2::err::TodoistAPIError;
use rustodoist_rest2::general::TransportOutcome;
use rustodoist_rest2::labels::{label_from_response, shared_labels_from_response};
use rustodoist_rest2::projects::{ViewStyle, project_from_response, projects_from_response};
use rustodoist_rest2::sections::sections_from_response;
use rustodoist_rest2::tasks::tasks_from_response;

fn project_json(id: &str, name: &str) -> String {
    format!(
        "{{\"id\": \"{}\", \"name\": \"{}\", \"color\": \"blue\", \"parent_id\": null, \
         \"order\": 1, \"comment_count\": 0, \"is_shared\": false, \"is_favorite\": false, \
         \"is_inbox_project\": false, \"view_style\": \"list\", \"url\": \"u\"}}",
        id, name
    )
}

#[test]
fn project_response_transport_failure() {
    let r = project_from_response(TransportOutcome::Failure("no route".to_string()));
    match r {
        Err(TodoistAPIError::TransportError(d)) => assert_eq!(d, "no route"),
        _ => panic!("expected a transport error"),
    }
}

#[test]
fn project_response_unsuccessful_status() {
    let r = project_from_response(TransportOutcome::Response(404, "not found".to_string()));
    match r {
        Err(TodoistAPIError::UnsuccessfulStatus(404, b)) => assert_eq!(b, "not found"),
        _ => panic!("expected an unsuccessful-status error"),
    }
}

#[test]
fn project_response_unparseable_body() {
    let r = project_from_response(TransportOutcome::Response(200, "}{".to_string()));
    assert!(matches!(r, Err(TodoistAPIError::ResponseDeserializationError(_))));
}

#[test]
fn project_response_wrong_shape() {
    let body = project_json("1", "P").replace("\"name\": \"P\", ", "");
    let r = project_from_response(TransportOutcome::Response(200, body));
    assert!(matches!(r, Err(TodoistAPIError::ResponseDeserializationError(_))));
}

#[test]
fn project_response_success_carries_the_decoded_project() {
    let r = project_from_response(TransportOutcome::Response(200, project_json("9", "Work")));
    let p = r.expect("should decode");
    assert_eq!(p.id, "9");
    assert_eq!(p.name, "Work");
    assert_eq!(p.color, Color::Blue);
    assert_eq!(p.view_style, ViewStyle::List);
}

#[test]
fn project_list_response_end_to_end() {
    let body = format!("[{}, {}]", project_json("1", "Inbox"), project_json("2", "Errands"));
    let list = projects_from_response(TransportOutcome::Response(200, body))
        .expect("should decode");
    assert_eq!(list.len(), 2);
    assert_eq!(list[0].name, "Inbox");
    assert_eq!(list[1].name, "Errands");
}

#[test]
fn label_response_end_to_end() {
    let body = "{\"id\": \"5\", \"name\": \"Food\", \"color\": \"teal\", \"order\": 3, \
                \"is_favorite\": true}";
    let l = label_from_response(TransportOutcome::Response(200, body.to_string()))
        .expect("should decode");
    assert_eq!(l.name, "Food");
    assert!(l.is_favorite);
}

#[test]
fn shared_labels_response_end_to_end() {
    let r = shared_labels_from_response(TransportOutcome::Response(
        200,
        "[\"Home\", \"Work\"]".to_string(),
    ));
    assert_eq!(r.expect("should decode"), vec!["Home".to_string(), "Work".to_string()]);
}

#[test]
fn sections_response_rejects_a_non_array() {
    let r = sections_from_response(TransportOutcome::Response(200, "3".to_string()));
    assert!(matches!(r, Err(TodoistAPIError::ResponseDeserializationError(_))));
}

#[test]
fn tasks_response_end_to_end() {
    let body = "[{\"id\": \"1\", \"project_id\": \"p\", \"section_id\": null, \
                \"content\": \"c\", \"description\": \"\", \"is_completed\": false, \
                \"labels\": [], \"parent_id\": null, \"order\": 1, \"priority\": 1, \
                \"due\": null, \"url\": \"u\", \"comment_count\": 0, \"created_at\": \"t\", \
                \"creator_id\": \"0\", \"assignee_id\": null, \"assigner_id\": null, \
                \"duration\": null}]";
    let tasks = tasks_from_response(TransportOutcome::Response(200, body.to_string()))
        .expect("should decode");
    assert_eq!(tasks.len(), 1);
    assert_eq!(tasks[0].content, "c");
}

#[test]
fn comment_response_end_to_end() {
    let body = "{\"id\": \"c1\", \"task_id\": null, \"project_id\": \"p1\", \
                \"posted_at\": \"t\", \"content\": \"hi\", \"attachment\": null}";
    let c = comment_from_response(TransportOutcome::Response(200, body.to_string()))
        .expect("should decode");
    assert_eq!(c.project_id, Some("p1".to_string()));
    assert_eq!(c.content, "hi");
}

use rustodoist_rest2::TodoistUser;
use rustodoist_rest2::color::Color;
use rustodoist_rest2::comments::update_comment_content_request;
use rustodoist_rest2::general::{HttpRequest, Method, TransportOutcome};
use rustodoist_rest2::labels::{
    NewLabel, get_all_shared_labels_request, new_label_request, rename_shared_label_request,
};
use rustodoist_rest2::projects::{
    NewProject, UpdateProject, delete_project_by_id_request, get_projects_request,
    new_project_request, update_project_request,
};
use rustodoist_rest2::sections::get_all_sections_in_project_request;
use rustodoist_rest2::tasks::{
    NewTask, TaskCriterion, Task, close_task_by_id_request, get_active_tasks_request,
    new_task_request, tasks_from_response_filtered,
};

fn user() -> TodoistUser {
    TodoistUser::new("sometoken")
}

fn assert_auth_only(req: &HttpRequest) {
    assert_eq!(req.headers.len(), 1);
    assert_eq!(req.headers[0].0, "Authorization");
    assert_eq!(req.headers[0].1, "Bearer sometoken");
}

fn assert_auth_json_id(req: &HttpRequest) {
    assert_eq!(req.headers.len(), 3);
    assert_eq!(req.headers[0].0, "Authorization");
    assert_eq!(req.headers[0].1, "Bearer sometoken");
    assert_eq!(req.headers[1].0, "Content-Type");
    assert_eq!(req.headers[1].1, "application/json");
    assert_eq!(req.headers[2].0, "X-Request-Id");
    assert_eq!(req.headers[2].1.len(), 36);
}

#[test]
fn list_projects_request_is_a_bare_authorized_get() {
    let req = get_projects_request(&user());
    assert_eq!(req.method, Method::Get);
    assert_eq!(req.url, "https://api.todoist.com/rest/v2/projects");
    assert_auth_only(&req);
    assert!(req.query.is_empty());
    assert!(req.body.is_none());
}

#[test]
fn delete_project_request_addresses_the_project_url() {
    let req = delete_project_by_id_request(&user(), "220474322");
    assert_eq!(req.method, Method::Delete);
    assert_eq!(req.url, "https://api.todoist.com/rest/v2/projects/220474322");
    assert_auth_only(&req);
    assert!(req.body.is_none());
}

#[test]
fn create_project_request_posts_the_encoded_body() {
    let p = NewProject {
        name: "Make Todoist Integration".to_string(),
        parent_id: None,
        color: Some(Color::Magenta),
        is_favorite: None,
        view_style: None,
    };
    let req = new_project_request(&user(), &p);
    assert_eq!(req.method, Method::Post);
    assert_eq!(req.url, "https://api.todoist.com/rest/v2/projects");
    assert_auth_json_id(&req);
    assert_eq!(
        req.body.as_deref(),
        Some("{\"name\":\"Make Todoist Integration\",\"color\":\"magenta\"}")
    );
}

#[test]
fn update_project_request_posts_to_the_project_url() {
    let p = UpdateProject { name: None, color: None, is_favorite: None, view_style: None };
    let req = update_project_request(&user(), &p, "9");
    assert_eq!(req.method, Method::Post);
    assert_eq!(req.url, "https://api.todoist.com/rest/v2/projects/9");
    assert_auth_json_id(&req);
    assert_eq!(req.body.as_deref(), Some("{}"));
}

#[test]
fn create_label_request_sends_exactly_the_name_body() {
    let l = NewLabel { name: "Food".to_string(), order: None, color: None, is_favorite: None };
    let req = new_label_request(&user(), &l);
    assert_eq!(req.method, Method::Post);
    assert_eq!(req.url, "https://api.todoist.com/rest/v2/labels");
    assert_auth_json_id(&req);
    assert_eq!(req.body.as_deref(), Some("{\"name\":\"Food\"}"));
}

#[test]
fn shared_label_requests_carry_their_documented_query_and_body() {
    let req = get_all_shared_labels_request(&user());
    assert_eq!(req.method, Method::Get);
    assert_eq!(req.url, "https://api.todoist.com/rest/v2/labels/shared");
    assert_eq!(req.query, vec![("omit_personal".to_string(), "false".to_string())]);
    let req = rename_shared_label_request(&user(), "old", "new");
    assert_eq!(req.url, "https://api.todoist.com/rest/v2/labels/shared/rename");
    assert_eq!(req.body.as_deref(), Some("{\"old_name\":\"old\",\"new_name\":\"new\"}"));
}

#[test]
fn sections_in_project_request_carries_the_project_query() {
    let req = get_all_sections_in_project_request(&user(), "p77");
    assert_eq!(req.method, Method::Get);
    assert_eq!(req.url, "https://api.todoist.com/rest/v2/sections");
    assert_eq!(req.query, vec![("project_id".to_string(), "p77".to_string())]);
}

#[test]
fn task_query_carries_exactly_the_filter_parameters() {
    let req = get_active_tasks_request(&user(), None, None);
    assert!(req.query.is_empty());
    let req = get_active_tasks_request(&user(), Some("today"), None);
    assert_eq!(req.query, vec![("filter".to_string(), "today".to_string())]);
    let req = get_active_tasks_request(&user(), Some("hoy"), Some("es"));
    assert_eq!(
        req.query,
        vec![("filter".to_string(), "hoy".to_string()), ("lang".to_string(), "es".to_string())]
    );
    // a language tag travels only beside a filter
    let req = get_active_tasks_request(&user(), None, Some("es"));
    assert!(req.query.is_empty());
}

#[test]
fn close_task_request_posts_to_the_close_url_without_a_body() {
    let req = close_task_by_id_request(&user(), "7");
    assert_eq!(req.method, Method::Post);
    assert_eq!(req.url, "https://api.todoist.com/rest/v2/tasks/7/close");
    assert_auth_only(&req);
    assert!(req.body.is_none());
}

#[test]
fn create_task_request_posts_the_encoded_body() {
    let mut t = NewTask::new("Buy milk");
    t.priority = Some(4);
    let req = new_task_request(&user(), &t);
    assert_eq!(req.method, Method::Post);
    assert_eq!(req.url, "https://api.todoist.com/rest/v2/tasks");
    assert_auth_json_id(&req);
    assert_eq!(req.body.as_deref(), Some("{\"content\":\"Buy milk\",\"priority\":4}"));
}

#[test]
fn update_comment_request_posts_the_content_body_with_a_request_id() {
    let req = update_comment_content_request(&user(), "c9", "Hello again");
    assert_eq!(req.method, Method::Post);
    assert_eq!(req.url, "https://api.todoist.com/rest/v2/comments/c9");
    assert_auth_json_id(&req);
    assert_eq!(req.body.as_deref(), Some("{\"content\":\"Hello again\"}"));
}

#[test]
fn request_ids_are_fresh_per_call() {
    let a = new_label_request(
        &user(),
        &NewLabel { name: "A".to_string(), order: None, color: None, is_favorite: None },
    );
    let b = new_label_request(
        &user(),
        &NewLabel { name: "A".to_string(), order: None, color: None, is_favorite: None },
    );
    assert_ne!(a.headers[2].1, b.headers[2].1);
}

fn task_json(id: &str, labels: &str) -> String {
    format!(
        "{{\"id\": \"{}\", \"project_id\": \"p\", \"section_id\": null, \"content\": \"c\", \
         \"description\": \"\", \"is_completed\": false, \"labels\": {}, \"parent_id\": null, \
         \"order\": 1, \"priority\": 1, \"due\": null, \"url\": \"u\", \"comment_count\": 0, \
         \"created_at\": \"t\", \"creator_id\": \"0\", \"assignee_id\": null, \
         \"assigner_id\": null, \"duration\": null}}",
        id, labels
    )
}

#[test]
fn filtered_task_interpretation_keeps_exactly_the_matching_subset() {
    let body = format!(
        "[{}, {}, {}]",
        task_json("1", "[\"urgent\"]"),
        task_json("2", "[]"),
        task_json("3", "[\"urgent\", \"home\"]")
    );
    let outcome = TransportOutcome::Response(200, body);
    let tasks = tasks_from_response_filtered(outcome, TaskCriterion::ByLabel("urgent"))
        .expect("should decode");
    let ids: Vec<&str> = tasks.iter().map(|t: &Task| t.id.as_str()).collect();
    assert_eq!(ids, vec!["1", "3"]);
}

#[test]
fn filtered_task_interpretation_keeps_the_error_taxonomy() {
    let r = tasks_from_response_filtered(
        TransportOutcome::Response(403, "forbidden".to_string()),
        TaskCriterion::All,
    );
    match r {
        Err(rustodoist_rest2::err::TodoistAPIError::UnsuccessfulStatus(403, b)) => {
            assert_eq!(b, "forbidden")
        }
        _ => panic!("expected an unsuccessful-status error"),
    }
}

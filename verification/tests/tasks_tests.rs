use rustodoist_rest2::err::TodoistAPIError;
use rustodoist_rest2::general::{TransportOutcome, get_from_reqwest_response};
use rustodoist_rest2::json::to_json_text;
use rustodoist_rest2::tasks::{
    DurationUnit, NewDuration, NewDue, NewTask, Task, UpdateTask, filter_tasks_by_ids,
    filter_tasks_by_label, filter_tasks_by_project, filter_tasks_by_section, task_from_json,
    tasks_from_json,
};

fn plain_task(id: &str, project_id: &str, section_id: Option<&str>, labels: Vec<&str>) -> Task {
    Task {
        id: id.to_string(),
        project_id: project_id.to_string(),
        section_id: section_id.map(|s| s.to_string()),
        content: format!("task {}", id),
        description: String::new(),
        is_completed: false,
        labels: labels.into_iter().map(|l| l.to_string()).collect(),
        parent_id: None,
        order: 1,
        priority: 1,
        due: None,
        url: String::new(),
        comment_count: 0,
        created_at: "2019-12-11T22:36:50.000000Z".to_string(),
        creator_id: "0".to_string(),
        assignee_id: None,
        assigner_id: None,
        duration: None,
    }
}

#[test]
fn filtering_by_label_keeps_exactly_the_tasks_carrying_it() {
    let tasks = vec![
        plain_task("1", "p1", None, vec!["urgent", "home"]),
        plain_task("2", "p1", None, vec!["home"]),
        plain_task("3", "p2", None, vec!["urgent"]),
        plain_task("4", "p2", None, vec![]),
        plain_task("5", "p3", None, vec!["urgently"]),
    ];
    let filtered = filter_tasks_by_label(tasks, "urgent");
    let ids: Vec<&str> = filtered.iter().map(|t| t.id.as_str()).collect();
    assert_eq!(ids, vec!["1", "3"]);
}

#[test]
fn filtering_by_project_uses_exact_string_equality() {
    let tasks = vec![
        plain_task("1", "p1", None, vec![]),
        plain_task("2", "p10", None, vec![]),
        plain_task("3", "p1", None, vec![]),
    ];
    let filtered = filter_tasks_by_project(tasks, "p1");
    let ids: Vec<&str> = filtered.iter().map(|t| t.id.as_str()).collect();
    assert_eq!(ids, vec!["1", "3"]);
}

#[test]
fn filtering_by_section_skips_tasks_without_one() {
    let tasks = vec![
        plain_task("1", "p1", Some("s1"), vec![]),
        plain_task("2", "p1", None, vec![]),
        plain_task("3", "p1", Some("s2"), vec![]),
    ];
    let filtered = filter_tasks_by_section(tasks, "s1");
    let ids: Vec<&str> = filtered.iter().map(|t| t.id.as_str()).collect();
    assert_eq!(ids, vec!["1"]);
}

#[test]
fn filtering_by_ids_keeps_listed_tasks_in_order() {
    let tasks = vec![
        plain_task("1", "p1", None, vec![]),
        plain_task("2", "p1", None, vec![]),
        plain_task("3", "p1", None, vec![]),
    ];
    let wanted = vec!["3", "1"];
    let filtered = filter_tasks_by_ids(tasks, &wanted);
    let ids: Vec<&str> = filtered.iter().map(|t| t.id.as_str()).collect();
    assert_eq!(ids, vec!["1", "3"]);
}

#[test]
fn new_task_with_only_content_serializes_to_exactly_the_content_key() {
    let t = NewTask::new("Buy milk");
    assert_eq!(to_json_text(&t.to_json()), "{\"content\":\"Buy milk\"}");
}

#[test]
fn due_string_with_language_serializes_both_keys() {
    let mut t = NewTask::new("x");
    t.due = Some(NewDue::String {
        due_string: "mañana".to_string(),
        due_lang: Some("es".to_string()),
    });
    assert_eq!(
        to_json_text(&t.to_json()),
        "{\"content\":\"x\",\"due_string\":\"mañana\",\"due_lang\":\"es\"}"
    );
}

#[test]
fn due_string_without_language_serializes_one_key() {
    let mut t = NewTask::new("x");
    t.due = Some(NewDue::String { due_string: "tomorrow".to_string(), due_lang: None });
    assert_eq!(
        to_json_text(&t.to_json()),
        "{\"content\":\"x\",\"due_string\":\"tomorrow\"}"
    );
}

#[test]
fn due_date_serializes_only_the_date_key() {
    let mut t = NewTask::new("x");
    t.due = Some(NewDue::Date { due_date: "2024-01-31".to_string() });
    assert_eq!(
        to_json_text(&t.to_json()),
        "{\"content\":\"x\",\"due_date\":\"2024-01-31\"}"
    );
}

#[test]
fn due_datetime_serializes_only_the_datetime_key() {
    let mut t = NewTask::new("x");
    t.due = Some(NewDue::Datetime { due_datetime: "2024-01-31T12:00:00Z".to_string() });
    assert_eq!(
        to_json_text(&t.to_json()),
        "{\"content\":\"x\",\"due_datetime\":\"2024-01-31T12:00:00Z\"}"
    );
}

#[test]
fn duration_flattens_into_two_keys() {
    let mut t = NewTask::new("x");
    t.duration = Some(NewDuration { duration: 45, duration_unit: DurationUnit::Minutes });
    assert_eq!(
        to_json_text(&t.to_json()),
        "{\"content\":\"x\",\"duration\":45,\"duration_unit\":\"minutes\"}"
    );
}

#[test]
fn new_task_body_keeps_field_order() {
    let mut t = NewTask::new("Call mom");
    t.project_id = Some("p9".to_string());
    t.labels = Some(vec!["family".to_string(), "phone".to_string()]);
    t.priority = Some(4);
    assert_eq!(
        to_json_text(&t.to_json()),
        "{\"content\":\"Call mom\",\"project_id\":\"p9\",\"labels\":[\"family\",\"phone\"],\"priority\":4}"
    );
}

#[test]
fn update_task_body_omits_unset_fields() {
    let t = UpdateTask {
        content: None,
        description: Some("new text".to_string()),
        labels: None,
        priority: Some(2),
        due: Some(NewDue::Date { due_date: "2025-05-05".to_string() }),
        assignee_id: None,
        duration: None,
    };
    assert_eq!(
        to_json_text(&t.to_json()),
        "{\"description\":\"new text\",\"priority\":2,\"due_date\":\"2025-05-05\"}"
    );
}

fn full_task_json() -> String {
    "{\"id\": \"2995104339\", \"project_id\": \"2203306141\", \"section_id\": \"7025\", \
     \"content\": \"Buy Milk\", \"description\": \"From the store\", \"is_completed\": false, \
     \"labels\": [\"Food\", \"Shopping\"], \"parent_id\": \"2995104589\", \"order\": 1, \
     \"priority\": 1, \"due\": {\"string\": \"tomorrow at 12\", \"date\": \"2016-09-01\", \
     \"is_recurring\": false, \"datetime\": \"2016-09-01T12:00:00.000000Z\", \
     \"timezone\": \"Europe/Moscow\"}, \"url\": \"https://todoist.com/showTask?id=2995104339\", \
     \"comment_count\": 10, \"created_at\": \"2019-12-11T22:36:50.000000Z\", \
     \"creator_id\": \"2671355\", \"assignee_id\": \"2671362\", \"assigner_id\": \"2671355\", \
     \"duration\": {\"amount\": 15, \"unit\": \"minute\"}}"
        .to_string()
}

#[test]
fn full_task_decodes_with_nested_due_and_duration() {
    let outcome = TransportOutcome::Response(200, full_task_json());
    let v = get_from_reqwest_response(outcome).expect("should parse");
    let t = task_from_json(&v).expect("should decode");
    assert_eq!(t.id, "2995104339");
    assert_eq!(t.project_id, "2203306141");
    assert_eq!(t.section_id, Some("7025".to_string()));
    assert_eq!(t.labels, vec!["Food".to_string(), "Shopping".to_string()]);
    assert_eq!(t.priority, 1);
    let due = t.due.expect("due should be present");
    assert_eq!(due.string, "tomorrow at 12");
    assert_eq!(due.date, "2016-09-01");
    assert!(!due.is_recurring);
    assert_eq!(due.datetime, Some("2016-09-01T12:00:00.000000Z".to_string()));
    assert_eq!(due.timezone, Some("Europe/Moscow".to_string()));
    let duration = t.duration.expect("duration should be present");
    assert_eq!(duration.amount, 15);
    assert_eq!(duration.unit, "minute");
}

#[test]
fn task_with_null_optionals_decodes() {
    let body = full_task_json()
        .replace("\"7025\"", "null")
        .replace("\"2995104589\"", "null")
        .replace("\"2671362\"", "null");
    let body = {
        // strip the due and duration objects down to null
        let start = body.find("\"due\":").unwrap();
        let end = body.find("\"url\"").unwrap();
        format!("{}\"due\": null, {}", &body[..start], &body[end..])
    };
    let outcome = TransportOutcome::Response(200, body);
    let v = get_from_reqwest_response(outcome).expect("should parse");
    let t = task_from_json(&v).expect("should decode");
    assert_eq!(t.section_id, None);
    assert_eq!(t.parent_id, None);
    assert_eq!(t.assignee_id, None);
    assert!(t.due.is_none());
}

#[test]
fn task_with_bad_priority_is_a_hard_error() {
    let body = full_task_json().replace("\"priority\": 1", "\"priority\": 300");
    let outcome = TransportOutcome::Response(200, body);
    let v = get_from_reqwest_response(outcome).expect("should parse");
    assert!(matches!(
        task_from_json(&v),
        Err(TodoistAPIError::ResponseDeserializationError(_))
    ));
}

#[test]
fn task_list_decodes_in_order() {
    let body = format!("[{}]", full_task_json());
    let outcome = TransportOutcome::Response(200, body);
    let v = get_from_reqwest_response(outcome).expect("should parse");
    let tasks = tasks_from_json(&v).expect("should decode");
    assert_eq!(tasks.len(), 1);
    assert_eq!(tasks[0].content, "Buy Milk");
}

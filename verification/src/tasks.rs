//! Tasks: the read model with its nested due date and duration, the write
//! models for creating and updating a task, the request functions, and the
//! client-side task filters.

use vstd::prelude::*;
use crate::TodoistUser;
use crate::err::{TodoistAPIError, bad_shape};
use crate::general::{
    HttpRequest,
    Method,
    TransportOutcome,
    auth_headers,
    get_204_from_reqwest_response,
    get_from_reqwest_response,
    json_body_headers,
    spec_headers_auth,
    spec_headers_auth_json_id,
    spec_is_success_code,
};
use crate::json::{
    JsonValue,
    spec_field_bool,
    spec_field_i32,
    spec_field_opt_string,
    spec_field_string,
    spec_field_string_list,
    spec_field_u32,
    spec_field_u8,
    spec_json_text,
    spec_obj_lookup,
    spec_pairs_keys,
    field_bool,
    field_i32,
    field_opt_string,
    field_string,
    field_string_list,
    field_u32,
    field_u8,
    lemma_filter_push,
    obj_lookup,
    strings_to_json_values,
    to_json_text,
};
use crate::strutil::str_eq;
use crate::transport::{send_request, spec_parsed_json};

verus! {

/// The duration of a task, as returned by the service: an amount of
/// "minute" or "day" units.
#[derive(Debug)]
pub struct Duration {
    pub amount: u32,
    pub unit: String,
}

/// Whether `v` has the shape of a duration object.
pub open spec fn spec_duration_shape(v: JsonValue) -> bool {
    &&& spec_field_u32(v, "amount"@) is Some
    &&& spec_field_string(v, "unit"@) is Some
}

/// Whether the decoded duration `d` carries exactly the fields of `v`.
pub open spec fn spec_duration_matches(v: JsonValue, d: Duration) -> bool {
    &&& spec_field_u32(v, "amount"@) == Some(d.amount)
    &&& spec_field_string(v, "unit"@) == Some(d.unit@)
}

/// Decode one duration object.
pub fn duration_from_json(v: &JsonValue) -> (r: Result<Duration, TodoistAPIError>)
    ensures
        r is Ok <==> spec_duration_shape(*v),
        r matches Ok(d) ==> spec_duration_matches(*v, d),
        r matches Err(e) ==> e is ResponseDeserializationError,
{
    let amount = match field_u32(v, "amount") {
        Some(x) => x,
        None => {
            return Err(bad_shape("duration"));
        },
    };
    let unit = match field_string(v, "unit") {
        Some(x) => x,
        None => {
            return Err(bad_shape("duration"));
        },
    };
    Ok(Duration { amount, unit })
}

/// The due date of a task, as returned by the service.
#[derive(Debug)]
pub struct Due {
    /// The string form of the due date, as entered by a user.
    pub string: String,
    /// A date in the format `YYYY-MM-DD`, corrected to the user's timezone.
    pub date: String,
    /// Whether the task recurs.
    pub is_recurring: bool,
    /// Only returned if an exact due time is set, in RFC 3339 format.
    pub datetime: Option<String>,
    /// Only returned if an exact due time is set: an IANA timezone name or a
    /// UTC offset.
    pub timezone: Option<String>,
}

/// Whether `v` has the shape of a due-date object.
pub open spec fn spec_due_shape(v: JsonValue) -> bool {
    &&& spec_field_string(v, "string"@) is Some
    &&& spec_field_string(v, "date"@) is Some
    &&& spec_field_bool(v, "is_recurring"@) is Some
    &&& spec_field_opt_string(v, "datetime"@) is Some
    &&& spec_field_opt_string(v, "timezone"@) is Some
}

/// Whether the decoded due date `d` carries exactly the fields of `v`.
pub open spec fn spec_due_matches(v: JsonValue, d: Due) -> bool {
    &&& spec_field_string(v, "string"@) == Some(d.string@)
    &&& spec_field_string(v, "date"@) == Some(d.date@)
    &&& spec_field_bool(v, "is_recurring"@) == Some(d.is_recurring)
    &&& match d.datetime {
        Some(x) => spec_field_opt_string(v, "datetime"@) == Some(Some(x@)),
        None => spec_field_opt_string(v, "datetime"@) == Some(None::<Seq<char>>),
    }
    &&& match d.timezone {
        Some(x) => spec_field_opt_string(v, "timezone"@) == Some(Some(x@)),
        None => spec_field_opt_string(v, "timezone"@) == Some(None::<Seq<char>>),
    }
}

/// Decode one due-date object.
pub fn due_from_json(v: &JsonValue) -> (r: Result<Due, TodoistAPIError>)
    ensures
        r is Ok <==> spec_due_shape(*v),
        r matches Ok(d) ==> spec_due_matches(*v, d),
        r matches Err(e) ==> e is ResponseDeserializationError,
{
    let string = match field_string(v, "string") {
        Some(x) => x,
        None => {
            return Err(bad_shape("due date"));
        },
    };
    let date = match field_string(v, "date") {
        Some(x) => x,
        None => {
            return Err(bad_shape("due date"));
        },
    };
    let is_recurring = match field_bool(v, "is_recurring") {
        Some(x) => x,
        None => {
            return Err(bad_shape("due date"));
        },
    };
    let datetime = match field_opt_string(v, "datetime") {
        Some(x) => x,
        None => {
            return Err(bad_shape("due date"));
        },
    };
    let timezone = match field_opt_string(v, "timezone") {
        Some(x) => x,
        None => {
            return Err(bad_shape("due date"));
        },
    };
    Ok(Due { string, date, is_recurring, datetime, timezone })
}

/// A task, as returned by the service.
#[derive(Debug)]
pub struct Task {
    pub id: String,
    pub project_id: String,
    pub section_id: Option<String>,
    pub content: String,
    pub description: String,
    pub is_completed: bool,
    pub labels: Vec<String>,
    pub parent_id: Option<String>,
    pub order: i32,
    pub priority: u8,
    pub due: Option<Due>,
    pub url: String,
    pub comment_count: u32,
    pub created_at: String,
    pub creator_id: String,
    pub assignee_id: Option<String>,
    pub assigner_id: Option<String>,
    pub duration: Option<Duration>,
}

/// Whether the task's `due` field is absent, null, or of due-date shape.
pub open spec fn spec_task_due_field_ok(v: JsonValue) -> bool {
    match spec_obj_lookup(v, "due"@) {
        None => true,
        Some(JsonValue::Null) => true,
        Some(o) => spec_due_shape(o),
    }
}

/// Whether the task's `duration` field is absent, null, or of duration
/// shape.
pub open spec fn spec_task_duration_field_ok(v: JsonValue) -> bool {
    match spec_obj_lookup(v, "duration"@) {
        None => true,
        Some(JsonValue::Null) => true,
        Some(o) => spec_duration_shape(o),
    }
}

/// Whether `v` has the shape of a task object.
pub open spec fn spec_task_shape(v: JsonValue) -> bool {
    &&& spec_field_string(v, "id"@) is Some
    &&& spec_field_string(v, "project_id"@) is Some
    &&& spec_field_opt_string(v, "section_id"@) is Some
    &&& spec_field_string(v, "content"@) is Some
    &&& spec_field_string(v, "description"@) is Some
    &&& spec_field_bool(v, "is_completed"@) is Some
    &&& spec_field_string_list(v, "labels"@) is Some
    &&& spec_field_opt_string(v, "parent_id"@) is Some
    &&& spec_field_i32(v, "order"@) is Some
    &&& spec_field_u8(v, "priority"@) is Some
    &&& spec_task_due_field_ok(v)
    &&& spec_field_string(v, "url"@) is Some
    &&& spec_field_u32(v, "comment_count"@) is Some
    &&& spec_field_string(v, "created_at"@) is Some
    &&& spec_field_string(v, "creator_id"@) is Some
    &&& spec_field_opt_string(v, "assignee_id"@) is Some
    &&& spec_field_opt_string(v, "assigner_id"@) is Some
    &&& spec_task_duration_field_ok(v)
}

/// Whether the decoded task `t` carries exactly the fields of `v`.
pub open spec fn spec_task_matches(v: JsonValue, t: Task) -> bool {
    &&& spec_field_string(v, "id"@) == Some(t.id@)
    &&& spec_field_string(v, "project_id"@) == Some(t.project_id@)
    &&& match t.section_id {
        Some(x) => spec_field_opt_string(v, "section_id"@) == Some(Some(x@)),
        None => spec_field_opt_string(v, "section_id"@) == Some(None::<Seq<char>>),
    }
    &&& spec_field_string(v, "content"@) == Some(t.content@)
    &&& spec_field_string(v, "description"@) == Some(t.description@)
    &&& spec_field_bool(v, "is_completed"@) == Some(t.is_completed)
    &&& (spec_field_string_list(v, "labels"@) matches Some(ls) && ls.len() == t.labels@.len() && (
    forall|k: int| 0 <= k < ls.len() ==> t.labels@[k]@ == ls[k]))
    &&& match t.parent_id {
        Some(x) => spec_field_opt_string(v, "parent_id"@) == Some(Some(x@)),
        None => spec_field_opt_string(v, "parent_id"@) == Some(None::<Seq<char>>),
    }
    &&& spec_field_i32(v, "order"@) == Some(t.order)
    &&& spec_field_u8(v, "priority"@) == Some(t.priority)
    &&& match t.due {
        Some(d) => (spec_obj_lookup(v, "due"@) matches Some(o) && spec_due_matches(o, d)),
        None => (spec_obj_lookup(v, "due"@) is None || spec_obj_lookup(v, "due"@) == Some(
            JsonValue::Null,
        )),
    }
    &&& spec_field_string(v, "url"@) == Some(t.url@)
    &&& spec_field_u32(v, "comment_count"@) == Some(t.comment_count)
    &&& spec_field_string(v, "created_at"@) == Some(t.created_at@)
    &&& spec_field_string(v, "creator_id"@) == Some(t.creator_id@)
    &&& match t.assignee_id {
        Some(x) => spec_field_opt_string(v, "assignee_id"@) == Some(Some(x@)),
        None => spec_field_opt_string(v, "assignee_id"@) == Some(None::<Seq<char>>),
    }
    &&& match t.assigner_id {
        Some(x) => spec_field_opt_string(v, "assigner_id"@) == Some(Some(x@)),
        None => spec_field_opt_string(v, "assigner_id"@) == Some(None::<Seq<char>>),
    }
    &&& match t.duration {
        Some(d) => (spec_obj_lookup(v, "duration"@) matches Some(o) && spec_duration_matches(o, d)),
        None => (spec_obj_lookup(v, "duration"@) is None || spec_obj_lookup(v, "duration"@) == Some(
            JsonValue::Null,
        )),
    }
}

/// Decode one task object; succeeds exactly on values of task shape.
pub fn task_from_json(v: &JsonValue) -> (r: Result<Task, TodoistAPIError>)
    ensures
        r is Ok <==> spec_task_shape(*v),
        r matches Ok(t) ==> spec_task_matches(*v, t),
        r matches Err(e) ==> e is ResponseDeserializationError,
{
    let id = match field_string(v, "id") {
        Some(x) => x,
        None => {
            return Err(bad_shape("task"));
        },
    };
    let project_id = match field_string(v, "project_id") {
        Some(x) => x,
        None => {
            return Err(bad_shape("task"));
        },
    };
    let section_id = match field_opt_string(v, "section_id") {
        Some(x) => x,
        None => {
            return Err(bad_shape("task"));
        },
    };
    let content = match field_string(v, "content") {
        Some(x) => x,
        None => {
            return Err(bad_shape("task"));
        },
    };
    let description = match field_string(v, "description") {
        Some(x) => x,
        None => {
            return Err(bad_shape("task"));
        },
    };
    let is_completed = match field_bool(v, "is_completed") {
        Some(x) => x,
        None => {
            return Err(bad_shape("task"));
        },
    };
    let labels = match field_string_list(v, "labels") {
        Some(x) => x,
        None => {
            return Err(bad_shape("task"));
        },
    };
    let parent_id = match field_opt_string(v, "parent_id") {
        Some(x) => x,
        None => {
            return Err(bad_shape("task"));
        },
    };
    let order = match field_i32(v, "order") {
        Some(x) => x,
        None => {
            return Err(bad_shape("task"));
        },
    };
    let priority = match field_u8(v, "priority") {
        Some(x) => x,
        None => {
            return Err(bad_shape("task"));
        },
    };
    let due = match obj_lookup(v, "due") {
        None => None,
        Some(JsonValue::Null) => None,
        Some(o) => match due_from_json(o) {
            Ok(d) => Some(d),
            Err(e) => {
                return Err(e);
            },
        },
    };
    let url = match field_string(v, "url") {
        Some(x) => x,
        None => {
            return Err(bad_shape("task"));
        },
    };
    let comment_count = match field_u32(v, "comment_count") {
        Some(x) => x,
        None => {
            return Err(bad_shape("task"));
        },
    };
    let created_at = match field_string(v, "created_at") {
        Some(x) => x,
        None => {
            return Err(bad_shape("task"));
        },
    };
    let creator_id = match field_string(v, "creator_id") {
        Some(x) => x,
        None => {
            return Err(bad_shape("task"));
        },
    };
    let assignee_id = match field_opt_string(v, "assignee_id") {
        Some(x) => x,
        None => {
            return Err(bad_shape("task"));
        },
    };
    let assigner_id = match field_opt_string(v, "assigner_id") {
        Some(x) => x,
        None => {
            return Err(bad_shape("task"));
        },
    };
    let duration = match obj_lookup(v, "duration") {
        None => None,
        Some(JsonValue::Null) => None,
        Some(o) => match duration_from_json(o) {
            Ok(d) => Some(d),
            Err(e) => {
                return Err(e);
            },
        },
    };
    Ok(
        Task {
            id,
            project_id,
            section_id,
            content,
            description,
            is_completed,
            labels,
            parent_id,
            order,
            priority,
            due,
            url,
            comment_count,
            created_at,
            creator_id,
            assignee_id,
            assigner_id,
            duration,
        },
    )
}

/// Whether `v` is an array of task-shaped objects.
pub open spec fn spec_task_list_shape(v: JsonValue) -> bool {
    v matches JsonValue::Array(elems) && (forall|i: int|
        0 <= i < elems@.len() ==> spec_task_shape(#[trigger] elems@[i]))
}

/// Decode an array of task objects; succeeds exactly on arrays whose every
/// element has task shape, and decodes them in order.
#[verifier::loop_isolation(false)]
pub fn tasks_from_json(v: &JsonValue) -> (r: Result<Vec<Task>, TodoistAPIError>)
    ensures
        r is Ok <==> spec_task_list_shape(*v),
        r matches Ok(list) ==> (*v matches JsonValue::Array(elems) && list@.len() == elems@.len()
            && (forall|i: int|
            0 <= i < elems@.len() ==> spec_task_matches(#[trigger] elems@[i], #[trigger] list@[i]))),
        r matches Err(e) ==> e is ResponseDeserializationError,
{
    match v {
        JsonValue::Array(elems) => {
            let n = elems.len();
            let mut out: Vec<Task> = Vec::new();
            let mut i: usize = 0;
            while i < n
                invariant
                    i <= n,
                    out@.len() == i,
                    forall|k: int| 0 <= k < i ==> spec_task_shape(#[trigger] elems@[k]),
                    forall|k: int|
                        0 <= k < i ==> spec_task_matches(#[trigger] elems@[k], #[trigger] out@[k]),
                decreases n - i,
            {
                match task_from_json(&elems[i]) {
                    Ok(t) => out.push(t),
                    Err(e) => {
                        return Err(e);
                    },
                }
                i += 1;
            }
            Ok(out)
        },
        _ => Err(bad_shape("task list")),
    }
}

/// Interpret a whole exchange for a call that returns one task: the
/// transport, status and parse rules of [`get_from_reqwest_response`], then
/// the exact decode of [`task_from_json`].
pub fn task_from_response(outcome: TransportOutcome) -> (r: Result<Task, TodoistAPIError>)
    ensures
        match outcome {
            TransportOutcome::Failure(d) => r matches Err(TodoistAPIError::TransportError(e))
                && e == d,
            TransportOutcome::Response(code, body) => {
                if spec_is_success_code(code) {
                    match spec_parsed_json(body@) {
                        Some(v) => {
                            if spec_task_shape(v) {
                                r matches Ok(x) && spec_task_matches(v, x)
                            } else {
                                r matches Err(e) && e is ResponseDeserializationError
                            }
                        },
                        None => r matches Err(e) && e is ResponseDeserializationError,
                    }
                } else {
                    r matches Err(TodoistAPIError::UnsuccessfulStatus(c, b)) && c == code && b
                        == body
                }
            },
        },
{
    match get_from_reqwest_response(outcome) {
        Ok(v) => task_from_json(&v),
        Err(e) => Err(e),
    }
}

/// Interpret a whole exchange for a call that returns a task list: the
/// transport, status and parse rules of [`get_from_reqwest_response`], then
/// the exact decode of [`tasks_from_json`].
pub fn tasks_from_response(outcome: TransportOutcome) -> (r: Result<Vec<Task>, TodoistAPIError>)
    ensures
        match outcome {
            TransportOutcome::Failure(d) => r matches Err(TodoistAPIError::TransportError(e))
                && e == d,
            TransportOutcome::Response(code, body) => {
                if spec_is_success_code(code) {
                    match spec_parsed_json(body@) {
                        Some(v) => {
                            if spec_task_list_shape(v) {
                                r matches Ok(list) && (v matches JsonValue::Array(elems)
                                    && list@.len() == elems@.len() && (forall|i: int|
                                    0 <= i < elems@.len() ==> spec_task_matches(
                                        #[trigger] elems@[i],
                                        #[trigger] list@[i],
                                    )))
                            } else {
                                r matches Err(e) && e is ResponseDeserializationError
                            }
                        },
                        None => r matches Err(e) && e is ResponseDeserializationError,
                    }
                } else {
                    r matches Err(TodoistAPIError::UnsuccessfulStatus(c, b)) && c == code && b
                        == body
                }
            },
        },
{
    match get_from_reqwest_response(outcome) {
        Ok(v) => tasks_from_json(&v),
        Err(e) => Err(e),
    }
}

// ---------------------------------------------------------------------------
// Client-side filtering
// ---------------------------------------------------------------------------

/// Whether the task carries the label `label`, by exact string equality.
pub open spec fn spec_task_has_label(t: Task, label: Seq<char>) -> bool {
    exists|k: int| 0 <= k < t.labels@.len() && t.labels@[k]@ == label
}

/// The predicate "task carries `label`", for filtering.
pub open spec fn spec_has_label_pred(label: Seq<char>) -> spec_fn(Task) -> bool {
    |t: Task| spec_task_has_label(t, label)
}

/// The predicate "task belongs to project `project_id`", for filtering.
pub open spec fn spec_in_project_pred(project_id: Seq<char>) -> spec_fn(Task) -> bool {
    |t: Task| t.project_id@ == project_id
}

/// The predicate "task belongs to section `section_id`", for filtering.
pub open spec fn spec_in_section_pred(section_id: Seq<char>) -> spec_fn(Task) -> bool {
    |t: Task| t.section_id matches Some(s) && s@ == section_id
}

/// The predicate "task's ID is one of `ids`", for filtering.
pub open spec fn spec_id_in_pred(ids: Seq<Seq<char>>) -> spec_fn(Task) -> bool {
    |t: Task| ids.contains(t.id@)
}

/// Whether the task carries the given label, by exact string equality.
#[verifier::loop_isolation(false)]
pub fn task_has_label(t: &Task, label: &str) -> (r: bool)
    ensures
        r == spec_task_has_label(*t, label@),
{
    let n = t.labels.len();
    let mut i: usize = 0;
    while i < n
        invariant
            i <= n,
            forall|k: int| 0 <= k < i ==> t.labels@[k]@ != label@,
        decreases n - i,
    {
        if str_eq(t.labels[i].as_str(), label) {
            return true;
        }
        i += 1;
    }
    false
}

/// Keep exactly the tasks whose label list contains `label` (exact string
/// equality), in their original order.
#[verifier::loop_isolation(false)]
pub fn filter_tasks_by_label(tasks: Vec<Task>, label: &str) -> (r: Vec<Task>)
    ensures
        r@ == tasks@.filter(spec_has_label_pred(label@)),
{
    let ghost pred = spec_has_label_pred(label@);
    let ghost orig = tasks@;
    let mut rem = tasks;
    let mut out: Vec<Task> = Vec::new();
    let ghost mut processed: Seq<Task> = Seq::empty();
    proof {
        assert(processed.filter(pred) =~= Seq::<Task>::empty());
    }
    while rem.len() > 0
        invariant
            orig == processed + rem@,
            out@ == processed.filter(pred),
        decreases rem.len(),
    {
        let t = rem.remove(0);
        let keep = task_has_label(&t, label);
        proof {
            lemma_filter_push(processed, t, pred);
            assert(processed.push(t) =~= processed + seq![t]);
            assert((processed + seq![t]) + rem@ =~= orig);
        }
        if keep {
            out.push(t);
        }
        proof {
            processed = processed + seq![t];
        }
    }
    proof {
        assert(orig =~= processed);
    }
    out
}

/// Keep exactly the tasks that belong to the given project, in order.
#[verifier::loop_isolation(false)]
pub fn filter_tasks_by_project(tasks: Vec<Task>, project_id: &str) -> (r: Vec<Task>)
    ensures
        r@ == tasks@.filter(spec_in_project_pred(project_id@)),
{
    let ghost pred = spec_in_project_pred(project_id@);
    let ghost orig = tasks@;
    let mut rem = tasks;
    let mut out: Vec<Task> = Vec::new();
    let ghost mut processed: Seq<Task> = Seq::empty();
    proof {
        assert(processed.filter(pred) =~= Seq::<Task>::empty());
    }
    while rem.len() > 0
        invariant
            orig == processed + rem@,
            out@ == processed.filter(pred),
        decreases rem.len(),
    {
        let t = rem.remove(0);
        let keep = str_eq(t.project_id.as_str(), project_id);
        proof {
            lemma_filter_push(processed, t, pred);
            assert(processed.push(t) =~= processed + seq![t]);
            assert((processed + seq![t]) + rem@ =~= orig);
        }
        if keep {
            out.push(t);
        }
        proof {
            processed = processed + seq![t];
        }
    }
    proof {
        assert(orig =~= processed);
    }
    out
}

/// Keep exactly the tasks that belong to the given section, in order.
#[verifier::loop_isolation(false)]
pub fn filter_tasks_by_section(tasks: Vec<Task>, section_id: &str) -> (r: Vec<Task>)
    ensures
        r@ == tasks@.filter(spec_in_section_pred(section_id@)),
{
    let ghost pred = spec_in_section_pred(section_id@);
    let ghost orig = tasks@;
    let mut rem = tasks;
    let mut out: Vec<Task> = Vec::new();
    let ghost mut processed: Seq<Task> = Seq::empty();
    proof {
        assert(processed.filter(pred) =~= Seq::<Task>::empty());
    }
    while rem.len() > 0
        invariant
            orig == processed + rem@,
            out@ == processed.filter(pred),
        decreases rem.len(),
    {
        let t = rem.remove(0);
        let keep = match &t.section_id {
            Some(s) => str_eq(s.as_str(), section_id),
            None => false,
        };
        proof {
            lemma_filter_push(processed, t, pred);
            assert(processed.push(t) =~= processed + seq![t]);
            assert((processed + seq![t]) + rem@ =~= orig);
        }
        if keep {
            out.push(t);
        }
        proof {
            processed = processed + seq![t];
        }
    }
    proof {
        assert(orig =~= processed);
    }
    out
}

/// The character sequences of a list of ID strings, in order.
pub open spec fn spec_id_views(ids: Seq<&str>) -> Seq<Seq<char>> {
    Seq::new(ids.len(), |i: int| ids[i]@)
}

/// Whether `id` is one of `ids`, by exact string equality.
#[verifier::loop_isolation(false)]
fn id_in_list(id: &str, ids: &Vec<&str>) -> (r: bool)
    ensures
        r == spec_id_views(ids@).contains(id@),
{
    let n = ids.len();
    let mut i: usize = 0;
    while i < n
        invariant
            i <= n,
            forall|k: int| 0 <= k < i ==> ids@[k]@ != id@,
        decreases n - i,
    {
        if str_eq(ids[i], id) {
            assert(spec_id_views(ids@)[i as int] == id@);
            return true;
        }
        i += 1;
    }
    assert(forall|k: int| 0 <= k < ids@.len() ==> spec_id_views(ids@)[k] != id@);
    false
}

/// Keep exactly the tasks whose ID is in `ids`, in order.
#[verifier::loop_isolation(false)]
pub fn filter_tasks_by_ids(tasks: Vec<Task>, ids: &Vec<&str>) -> (r: Vec<Task>)
    ensures
        r@ == tasks@.filter(spec_id_in_pred(spec_id_views(ids@))),
{
    let ghost pred = spec_id_in_pred(spec_id_views(ids@));
    let ghost orig = tasks@;
    let mut rem = tasks;
    let mut out: Vec<Task> = Vec::new();
    let ghost mut processed: Seq<Task> = Seq::empty();
    proof {
        assert(processed.filter(pred) =~= Seq::<Task>::empty());
    }
    while rem.len() > 0
        invariant
            orig == processed + rem@,
            out@ == processed.filter(pred),
        decreases rem.len(),
    {
        let t = rem.remove(0);
        let keep = id_in_list(t.id.as_str(), ids);
        proof {
            lemma_filter_push(processed, t, pred);
            assert(processed.push(t) =~= processed + seq![t]);
            assert((processed + seq![t]) + rem@ =~= orig);
        }
        if keep {
            out.push(t);
        }
        proof {
            processed = processed + seq![t];
        }
    }
    proof {
        assert(orig =~= processed);
    }
    out
}

// ---------------------------------------------------------------------------
// Write models
// ---------------------------------------------------------------------------

/// The unit of a new task's duration: the API allows "days" or "minutes".
#[derive(Debug, Clone, Copy, PartialEq, Eq, Structural)]
pub enum DurationUnit {
    Days,
    Minutes,
}

/// The canonical API string for each duration unit.
pub open spec fn spec_duration_unit_str(u: DurationUnit) -> Seq<char> {
    match u {
        DurationUnit::Days => "days"@,
        DurationUnit::Minutes => "minutes"@,
    }
}

/// The duration unit denoted by an API string, or `None` for an unrecognized
/// string.
pub open spec fn spec_duration_unit_from_str(s: Seq<char>) -> Option<DurationUnit> {
    if s == "days"@ {
        Some(DurationUnit::Days)
    } else if s == "minutes"@ {
        Some(DurationUnit::Minutes)
    } else {
        None
    }
}

impl DurationUnit {
    /// Convert the duration unit to its API string.
    pub fn to_str(&self) -> (r: &str)
        ensures
            r@ == spec_duration_unit_str(*self),
    {
        match self {
            DurationUnit::Days => "days",
            DurationUnit::Minutes => "minutes",
        }
    }

    /// Convert an API string into a duration unit; an unrecognized string
    /// yields `None`, never a default.
    pub fn from_str(s: &str) -> (r: Option<DurationUnit>)
        ensures
            r == spec_duration_unit_from_str(s@),
    {
        if str_eq(s, "days") {
            Some(DurationUnit::Days)
        } else if str_eq(s, "minutes") {
            Some(DurationUnit::Minutes)
        } else {
            None
        }
    }
}

/// Law: converting any duration unit to its API string and back recovers the
/// same unit.
pub proof fn lemma_duration_unit_round_trip(u: DurationUnit)
    ensures
        spec_duration_unit_from_str(spec_duration_unit_str(u)) == Some(u),
{
    reveal_strlit("days");
    reveal_strlit("minutes");
    assert("days"@.len() == 4);
    assert("minutes"@.len() == 7);
}

/// The due date of a new or updated task. The service accepts exactly one
/// of: a natural-language string (with an optional language tag), a
/// `YYYY-MM-DD` date, or an RFC 3339 datetime. The choice serializes without
/// a tag of its own, flattened into the surrounding request body.
#[derive(Debug)]
pub enum NewDue {
    String { due_string: String, due_lang: Option<String> },
    Date { due_date: String },
    Datetime { due_datetime: String },
}

/// The exact ordered keys a due-date choice contributes to a request body:
/// one of `due_string` (with `due_lang` exactly when a language is set),
/// `due_date`, or `due_datetime`.
pub open spec fn spec_new_due_keys(d: NewDue) -> Seq<Seq<char>> {
    match d {
        NewDue::String { due_lang, .. } => seq!["due_string"@] + (if due_lang is Some {
            seq!["due_lang"@]
        } else {
            Seq::<Seq<char>>::empty()
        }),
        NewDue::Date { .. } => seq!["due_date"@],
        NewDue::Datetime { .. } => seq!["due_datetime"@],
    }
}

/// What each due-date member of a request body holds, by its key.
pub open spec fn spec_new_due_member_ok(d: NewDue, pair: (String, JsonValue)) -> bool {
    &&& pair.0@ == "due_string"@ ==> (d matches NewDue::String { due_string, .. } && pair.1
        == JsonValue::Str(due_string))
    &&& pair.0@ == "due_lang"@ ==> (d matches NewDue::String { due_lang: Some(l), .. } && pair.1
        == JsonValue::Str(l))
    &&& pair.0@ == "due_date"@ ==> (d matches NewDue::Date { due_date } && pair.1 == JsonValue::Str(
        due_date,
    ))
    &&& pair.0@ == "due_datetime"@ ==> (d matches NewDue::Datetime { due_datetime } && pair.1
        == JsonValue::Str(due_datetime))
}

proof fn lemma_due_keys_distinct()
    ensures
        "due_string"@ != "due_lang"@,
        "due_string"@ != "due_date"@,
        "due_string"@ != "due_datetime"@,
        "due_lang"@ != "due_date"@,
        "due_lang"@ != "due_datetime"@,
        "due_date"@ != "due_datetime"@,
{
    reveal_strlit("due_string");
    reveal_strlit("due_lang");
    reveal_strlit("due_date");
    reveal_strlit("due_datetime");
    assert("due_string"@.len() == 10);
    assert("due_lang"@.len() == 8);
    assert("due_date"@.len() == 8);
    assert("due_datetime"@.len() == 12);
    assert("due_lang"@[4] == 'l');
    assert("due_date"@[4] == 'd');
}

/// Law: the due-date choice contributes exactly one of the three shapes
/// `{due_string[, due_lang]}`, `{due_date}` or `{due_datetime}` — never keys
/// of more than one shape, and `due_lang` only beside `due_string`.
pub proof fn lemma_new_due_exclusive(d: NewDue)
    ensures
        spec_new_due_keys(d).contains("due_string"@) ==> !spec_new_due_keys(d).contains("due_date"@)
            && !spec_new_due_keys(d).contains("due_datetime"@),
        spec_new_due_keys(d).contains("due_date"@) ==> !spec_new_due_keys(d).contains(
            "due_string"@,
        ) && !spec_new_due_keys(d).contains("due_datetime"@) && !spec_new_due_keys(d).contains(
            "due_lang"@,
        ),
        spec_new_due_keys(d).contains("due_datetime"@) ==> !spec_new_due_keys(d).contains(
            "due_string"@,
        ) && !spec_new_due_keys(d).contains("due_date"@) && !spec_new_due_keys(d).contains(
            "due_lang"@,
        ),
        spec_new_due_keys(d).contains("due_lang"@) ==> spec_new_due_keys(d).contains(
            "due_string"@,
        ),
        spec_new_due_keys(d).contains("due_string"@) || spec_new_due_keys(d).contains("due_date"@)
            || spec_new_due_keys(d).contains("due_datetime"@),
{
    lemma_due_keys_distinct();
    let ks = spec_new_due_keys(d);
    match d {
        NewDue::String { due_lang, .. } => {
            assert(ks[0] == "due_string"@);
            if due_lang is Some {
                assert(ks.len() == 2 && ks[1] == "due_lang"@);
                assert(forall|i: int| 0 <= i < ks.len() ==> ks[i] == "due_string"@ || ks[i] == "due_lang"@);
            } else {
                assert(ks.len() == 1);
                assert(forall|i: int| 0 <= i < ks.len() ==> ks[i] == "due_string"@);
            }
        },
        NewDue::Date { .. } => {
            assert(ks.len() == 1 && ks[0] == "due_date"@);
            assert(forall|i: int| 0 <= i < ks.len() ==> ks[i] == "due_date"@);
        },
        NewDue::Datetime { .. } => {
            assert(ks.len() == 1 && ks[0] == "due_datetime"@);
            assert(forall|i: int| 0 <= i < ks.len() ==> ks[i] == "due_datetime"@);
        },
    }
}

/// Every key a due-date choice contributes is one of the four due keys.
proof fn lemma_new_due_keys_are_due_keys(d: NewDue)
    ensures
        forall|j: int|
            0 <= j < spec_new_due_keys(d).len() ==> ((#[trigger] spec_new_due_keys(d)[j])
                == "due_string"@ || spec_new_due_keys(d)[j] == "due_lang"@ || spec_new_due_keys(d)[j]
                == "due_date"@ || spec_new_due_keys(d)[j] == "due_datetime"@),
{
    match d {
        NewDue::String { due_lang, .. } => {
            assert(spec_new_due_keys(d)[0] == "due_string"@);
            if due_lang is Some {
                assert(spec_new_due_keys(d)[1] == "due_lang"@);
            }
        },
        NewDue::Date { .. } => {
            assert(spec_new_due_keys(d)[0] == "due_date"@);
        },
        NewDue::Datetime { .. } => {
            assert(spec_new_due_keys(d)[0] == "due_datetime"@);
        },
    }
}

/// Build the members a due-date choice contributes to a request body.
fn new_due_pairs(d: &NewDue) -> (r: Vec<(String, JsonValue)>)
    ensures
        spec_pairs_keys(r@) == spec_new_due_keys(*d),
        forall|i: int| 0 <= i < r@.len() ==> spec_new_due_member_ok(*d, #[trigger] r@[i]),
{
    proof {
        lemma_due_keys_distinct();
    }
    let mut pairs: Vec<(String, JsonValue)> = Vec::new();
    match d {
        NewDue::String { due_string, due_lang } => {
            pairs.push(("due_string".to_owned(), JsonValue::Str(due_string.clone())));
            if let Some(l) = due_lang {
                pairs.push(("due_lang".to_owned(), JsonValue::Str(l.clone())));
            }
        },
        NewDue::Date { due_date } => {
            pairs.push(("due_date".to_owned(), JsonValue::Str(due_date.clone())));
        },
        NewDue::Datetime { due_datetime } => {
            pairs.push(("due_datetime".to_owned(), JsonValue::Str(due_datetime.clone())));
        },
    }
    assert(spec_pairs_keys(pairs@) =~= spec_new_due_keys(*d));
    pairs
}

/// The duration of a new or updated task: an amount of days or minutes.
/// Serializes without a tag of its own, flattened into the surrounding
/// request body as `duration` and `duration_unit`.
#[derive(Debug)]
pub struct NewDuration {
    pub duration: u32,
    pub duration_unit: DurationUnit,
}

/// The exact ordered keys a duration contributes to a request body.
pub open spec fn spec_new_duration_keys() -> Seq<Seq<char>> {
    seq!["duration"@, "duration_unit"@]
}

/// What each duration member of a request body holds, by its key.
pub open spec fn spec_new_duration_member_ok(d: NewDuration, pair: (String, JsonValue)) -> bool {
    &&& pair.0@ == "duration"@ ==> pair.1 == JsonValue::Int(d.duration as i64)
    &&& pair.0@ == "duration_unit"@ ==> (pair.1 matches JsonValue::Str(s) && s@
        == spec_duration_unit_str(d.duration_unit))
}

/// A new task to be created. Only `content` is required; every other field
/// left unset is omitted from the request body and the service applies its
/// default.
#[derive(Debug)]
pub struct NewTask {
    pub content: String,
    pub description: Option<String>,
    pub project_id: Option<String>,
    pub section_id: Option<String>,
    pub parent_id: Option<String>,
    pub order: Option<i32>,
    pub labels: Option<Vec<String>>,
    pub priority: Option<u8>,
    pub due: Option<NewDue>,
    pub assignee_id: Option<String>,
    pub duration: Option<NewDuration>,
}

/// The exact ordered keys of a new-task request body: `content` always, each
/// optional key exactly when its field is set, the due-date and duration
/// choices flattened in place.
pub open spec fn spec_new_task_keys(t: NewTask) -> Seq<Seq<char>> {
    seq!["content"@] + (if t.description is Some {
        seq!["description"@]
    } else {
        Seq::<Seq<char>>::empty()
    }) + (if t.project_id is Some {
        seq!["project_id"@]
    } else {
        Seq::<Seq<char>>::empty()
    }) + (if t.section_id is Some {
        seq!["section_id"@]
    } else {
        Seq::<Seq<char>>::empty()
    }) + (if t.parent_id is Some {
        seq!["parent_id"@]
    } else {
        Seq::<Seq<char>>::empty()
    }) + (if t.order is Some {
        seq!["order"@]
    } else {
        Seq::<Seq<char>>::empty()
    }) + (if t.labels is Some {
        seq!["labels"@]
    } else {
        Seq::<Seq<char>>::empty()
    }) + (if t.priority is Some {
        seq!["priority"@]
    } else {
        Seq::<Seq<char>>::empty()
    }) + (match t.due {
        Some(d) => spec_new_due_keys(d),
        None => Seq::<Seq<char>>::empty(),
    }) + (if t.assignee_id is Some {
        seq!["assignee_id"@]
    } else {
        Seq::<Seq<char>>::empty()
    }) + (if t.duration is Some {
        spec_new_duration_keys()
    } else {
        Seq::<Seq<char>>::empty()
    })
}

/// What each member of a new-task request body holds, by its key.
pub open spec fn spec_new_task_member_ok(t: NewTask, pair: (String, JsonValue)) -> bool {
    &&& pair.0@ == "content"@ ==> pair.1 == JsonValue::Str(t.content)
    &&& pair.0@ == "description"@ ==> (t.description matches Some(x) && pair.1 == JsonValue::Str(x))
    &&& pair.0@ == "project_id"@ ==> (t.project_id matches Some(x) && pair.1 == JsonValue::Str(x))
    &&& pair.0@ == "section_id"@ ==> (t.section_id matches Some(x) && pair.1 == JsonValue::Str(x))
    &&& pair.0@ == "parent_id"@ ==> (t.parent_id matches Some(x) && pair.1 == JsonValue::Str(x))
    &&& pair.0@ == "order"@ ==> (t.order matches Some(o) && pair.1 == JsonValue::Int(o as i64))
    &&& pair.0@ == "labels"@ ==> (t.labels matches Some(ls) && pair.1 matches JsonValue::Array(
        elems,
    ) && elems@.len() == ls@.len() && (forall|k: int|
        0 <= k < ls@.len() ==> elems@[k] == JsonValue::Str(ls@[k])))
    &&& pair.0@ == "priority"@ ==> (t.priority matches Some(p) && pair.1 == JsonValue::Int(
        p as i64,
    ))
    &&& (pair.0@ == "due_string"@ || pair.0@ == "due_lang"@ || pair.0@ == "due_date"@ || pair.0@
        == "due_datetime"@) ==> (t.due matches Some(d) && spec_new_due_member_ok(d, pair))
    &&& pair.0@ == "assignee_id"@ ==> (t.assignee_id matches Some(x) && pair.1 == JsonValue::Str(x))
    &&& (pair.0@ == "duration"@ || pair.0@ == "duration_unit"@) ==> (t.duration matches Some(d)
        && spec_new_duration_member_ok(d, pair))
}

proof fn lemma_task_keys_distinct()
    ensures
        "content"@.len() == 7,
        "description"@.len() == 11,
        "project_id"@.len() == 10,
        "section_id"@.len() == 10,
        "parent_id"@.len() == 9,
        "order"@.len() == 5,
        "labels"@.len() == 6,
        "priority"@.len() == 8,
        "due_string"@.len() == 10,
        "due_lang"@.len() == 8,
        "due_date"@.len() == 8,
        "due_datetime"@.len() == 12,
        "assignee_id"@.len() == 11,
        "duration"@.len() == 8,
        "duration_unit"@.len() == 13,
        "project_id"@[0] == 'p',
        "section_id"@[0] == 's',
        "due_string"@[0] == 'd',
        "priority"@[0] == 'p',
        "due_lang"@[0] == 'd',
        "due_date"@[0] == 'd',
        "duration"@[0] == 'd',
        "due_lang"@[2] == 'e',
        "due_date"@[2] == 'e',
        "duration"@[2] == 'r',
        "due_lang"@[4] == 'l',
        "due_date"@[4] == 'd',
        "description"@[0] == 'd',
        "assignee_id"@[0] == 'a',
{
    reveal_strlit("content");
    reveal_strlit("description");
    reveal_strlit("project_id");
    reveal_strlit("section_id");
    reveal_strlit("parent_id");
    reveal_strlit("order");
    reveal_strlit("labels");
    reveal_strlit("priority");
    reveal_strlit("due_string");
    reveal_strlit("due_lang");
    reveal_strlit("due_date");
    reveal_strlit("due_datetime");
    reveal_strlit("assignee_id");
    reveal_strlit("duration");
    reveal_strlit("duration_unit");
}

/// The keys contributed by the first group of new-task fields.
pub open spec fn spec_new_task_keys_base(t: NewTask) -> Seq<Seq<char>> {
    seq!["content"@] + (if t.description is Some {
        seq!["description"@]
    } else {
        Seq::<Seq<char>>::empty()
    }) + (if t.project_id is Some {
        seq!["project_id"@]
    } else {
        Seq::<Seq<char>>::empty()
    }) + (if t.section_id is Some {
        seq!["section_id"@]
    } else {
        Seq::<Seq<char>>::empty()
    }) + (if t.parent_id is Some {
        seq!["parent_id"@]
    } else {
        Seq::<Seq<char>>::empty()
    }) + (if t.order is Some {
        seq!["order"@]
    } else {
        Seq::<Seq<char>>::empty()
    }) + (if t.labels is Some {
        seq!["labels"@]
    } else {
        Seq::<Seq<char>>::empty()
    }) + (if t.priority is Some {
        seq!["priority"@]
    } else {
        Seq::<Seq<char>>::empty()
    })
}

/// The keys contributed by the remaining new-task fields.
pub open spec fn spec_new_task_keys_rest(t: NewTask) -> Seq<Seq<char>> {
    (match t.due {
        Some(d) => spec_new_due_keys(d),
        None => Seq::<Seq<char>>::empty(),
    }) + (if t.assignee_id is Some {
        seq!["assignee_id"@]
    } else {
        Seq::<Seq<char>>::empty()
    }) + (if t.duration is Some {
        spec_new_duration_keys()
    } else {
        Seq::<Seq<char>>::empty()
    })
}

/// Build the members for the first group of new-task fields.
#[verifier::rlimit(60)]
#[verifier::spinoff_prover]
fn new_task_pairs_base(t: &NewTask) -> (r: Vec<(String, JsonValue)>)
    ensures
        spec_pairs_keys(r@) == spec_new_task_keys_base(*t),
        forall|i: int| 0 <= i < r@.len() ==> spec_new_task_member_ok(*t, #[trigger] r@[i]),
{
    proof {
        lemma_task_keys_distinct();
    }
    let mut pairs: Vec<(String, JsonValue)> = Vec::new();
    pairs.push(("content".to_owned(), JsonValue::Str(t.content.clone())));
    if let Some(x) = &t.description {
        pairs.push(("description".to_owned(), JsonValue::Str(x.clone())));
    }
    if let Some(x) = &t.project_id {
        pairs.push(("project_id".to_owned(), JsonValue::Str(x.clone())));
    }
    if let Some(x) = &t.section_id {
        pairs.push(("section_id".to_owned(), JsonValue::Str(x.clone())));
    }
    if let Some(x) = &t.parent_id {
        pairs.push(("parent_id".to_owned(), JsonValue::Str(x.clone())));
    }
    if let Some(o) = &t.order {
        pairs.push(("order".to_owned(), JsonValue::Int(*o as i64)));
    }
    if let Some(ls) = &t.labels {
        pairs.push(("labels".to_owned(), JsonValue::Array(strings_to_json_values(ls))));
    }
    if let Some(p) = &t.priority {
        pairs.push(("priority".to_owned(), JsonValue::Int(*p as i64)));
    }
    assert(spec_pairs_keys(pairs@) =~= spec_new_task_keys_base(*t));
    pairs
}

/// Build the members for the remaining new-task fields.
#[verifier::rlimit(60)]
#[verifier::spinoff_prover]
fn new_task_pairs_rest(t: &NewTask) -> (r: Vec<(String, JsonValue)>)
    ensures
        spec_pairs_keys(r@) == spec_new_task_keys_rest(*t),
        forall|i: int| 0 <= i < r@.len() ==> spec_new_task_member_ok(*t, #[trigger] r@[i]),
{
    proof {
        lemma_task_keys_distinct();
    }
    let mut pairs: Vec<(String, JsonValue)> = Vec::new();
    let ghost before = pairs@;
    let ghost mut dp: Seq<(String, JsonValue)> = Seq::empty();
    if let Some(d) = &t.due {
        let mut due_pairs = new_due_pairs(d);
        proof {
            dp = due_pairs@;
            lemma_new_due_keys_are_due_keys(*d);
        }
        pairs.append(&mut due_pairs);
    }
    proof {
        match &t.due {
            Some(d) => {
                assert(pairs@ == before + dp);
                assert(spec_pairs_keys(dp) == spec_new_due_keys(*d));
                assert forall|i: int|
                    0 <= i < pairs@.len() implies spec_new_task_member_ok(
                    *t,
                    #[trigger] pairs@[i],
                ) by {
                    if i < before.len() {
                        assert(pairs@[i] == before[i]);
                        assert(spec_new_task_member_ok(*t, before[i]));
                    } else {
                        let j = i - before.len();
                        assert(pairs@[i] == dp[j]);
                        assert(dp[j].0@ == spec_pairs_keys(dp)[j]);
                        assert(spec_new_due_member_ok(*d, dp[j]));
                    }
                }
            },
            None => {},
        }
    }
    if let Some(x) = &t.assignee_id {
        pairs.push(("assignee_id".to_owned(), JsonValue::Str(x.clone())));
    }
    if let Some(d) = &t.duration {
        pairs.push(("duration".to_owned(), JsonValue::Int(d.duration as i64)));
        pairs.push(
            ("duration_unit".to_owned(), JsonValue::Str(d.duration_unit.to_str().to_owned())),
        );
    }
    assert(spec_pairs_keys(pairs@) =~= spec_new_task_keys_rest(*t));
    pairs
}

#[verifier::rlimit(60)]
#[verifier::spinoff_prover]
proof fn lemma_new_task_base_keys_iff(t: NewTask)
    ensures
        spec_new_task_keys_base(t).contains("content"@),
        spec_new_task_keys_base(t).contains("description"@) <==> t.description is Some,
        spec_new_task_keys_base(t).contains("project_id"@) <==> t.project_id is Some,
        spec_new_task_keys_base(t).contains("section_id"@) <==> t.section_id is Some,
        spec_new_task_keys_base(t).contains("parent_id"@) <==> t.parent_id is Some,
        spec_new_task_keys_base(t).contains("order"@) <==> t.order is Some,
        spec_new_task_keys_base(t).contains("labels"@) <==> t.labels is Some,
        spec_new_task_keys_base(t).contains("priority"@) <==> t.priority is Some,
{
    broadcast use vstd::seq_lib::lemma_seq_concat_contains_all_elements;

    lemma_task_keys_distinct();
    assert(seq!["content"@][0] == "content"@);
    assert(seq!["description"@][0] == "description"@);
    assert(seq!["project_id"@][0] == "project_id"@);
    assert(seq!["section_id"@][0] == "section_id"@);
    assert(seq!["parent_id"@][0] == "parent_id"@);
    assert(seq!["order"@][0] == "order"@);
    assert(seq!["labels"@][0] == "labels"@);
    assert(seq!["priority"@][0] == "priority"@);
}

#[verifier::rlimit(60)]
#[verifier::spinoff_prover]
proof fn lemma_new_task_base_keys_classified(t: NewTask)
    ensures
        forall|j: int|
            0 <= j < spec_new_task_keys_base(t).len() ==> ((#[trigger] spec_new_task_keys_base(
                t,
            )[j]) == "content"@ || spec_new_task_keys_base(t)[j] == "description"@
                || spec_new_task_keys_base(t)[j] == "project_id"@ || spec_new_task_keys_base(t)[j]
                == "section_id"@ || spec_new_task_keys_base(t)[j] == "parent_id"@
                || spec_new_task_keys_base(t)[j] == "order"@ || spec_new_task_keys_base(t)[j]
                == "labels"@ || spec_new_task_keys_base(t)[j] == "priority"@),
{
    assert(seq!["content"@][0] == "content"@);
    assert(seq!["description"@][0] == "description"@);
    assert(seq!["project_id"@][0] == "project_id"@);
    assert(seq!["section_id"@][0] == "section_id"@);
    assert(seq!["parent_id"@][0] == "parent_id"@);
    assert(seq!["order"@][0] == "order"@);
    assert(seq!["labels"@][0] == "labels"@);
    assert(seq!["priority"@][0] == "priority"@);
}

#[verifier::rlimit(60)]
#[verifier::spinoff_prover]
proof fn lemma_new_task_rest_keys_iff(t: NewTask)
    ensures
        spec_new_task_keys_rest(t).contains("assignee_id"@) <==> t.assignee_id is Some,
        spec_new_task_keys_rest(t).contains("duration"@) <==> t.duration is Some,
        spec_new_task_keys_rest(t).contains("duration_unit"@) <==> t.duration is Some,
        t.due is None ==> !spec_new_task_keys_rest(t).contains("due_string"@)
            && !spec_new_task_keys_rest(t).contains("due_lang"@) && !spec_new_task_keys_rest(
            t,
        ).contains("due_date"@) && !spec_new_task_keys_rest(t).contains("due_datetime"@),
{
    broadcast use vstd::seq_lib::lemma_seq_concat_contains_all_elements;

    lemma_task_keys_distinct();
    assert(seq!["assignee_id"@][0] == "assignee_id"@);
    assert(spec_new_duration_keys()[0] == "duration"@);
    assert(spec_new_duration_keys()[1] == "duration_unit"@);
    match t.due {
        Some(d) => lemma_new_due_keys_are_due_keys(d),
        None => {},
    }
}

#[verifier::rlimit(60)]
#[verifier::spinoff_prover]
proof fn lemma_new_task_rest_keys_classified(t: NewTask)
    ensures
        forall|j: int|
            0 <= j < spec_new_task_keys_rest(t).len() ==> ((#[trigger] spec_new_task_keys_rest(
                t,
            )[j]) == "due_string"@ || spec_new_task_keys_rest(t)[j] == "due_lang"@
                || spec_new_task_keys_rest(t)[j] == "due_date"@ || spec_new_task_keys_rest(t)[j]
                == "due_datetime"@ || spec_new_task_keys_rest(t)[j] == "assignee_id"@
                || spec_new_task_keys_rest(t)[j] == "duration"@ || spec_new_task_keys_rest(t)[j]
                == "duration_unit"@),
{
    assert(seq!["assignee_id"@][0] == "assignee_id"@);
    assert(spec_new_duration_keys()[0] == "duration"@);
    assert(spec_new_duration_keys()[1] == "duration_unit"@);
    match t.due {
        Some(d) => lemma_new_due_keys_are_due_keys(d),
        None => {},
    }
}

#[verifier::rlimit(60)]
#[verifier::spinoff_prover]
proof fn lemma_new_task_keys_split(t: NewTask)
    ensures
        spec_new_task_keys(t) == spec_new_task_keys_base(t) + spec_new_task_keys_rest(t),
{
    assert(spec_new_task_keys(t) =~= spec_new_task_keys_base(t) + spec_new_task_keys_rest(t));
}

/// Law: a new-task request body holds the `content` key always, each
/// optional key exactly when its field is set, due-date keys only when a due
/// date is set, and both duration keys exactly when a duration is set — a
/// field left unset is omitted, never emitted as null.
#[verifier::rlimit(100)]
#[verifier::spinoff_prover]
pub proof fn lemma_new_task_omits_unset(t: NewTask)
    ensures
        spec_new_task_keys(t).contains("content"@),
        spec_new_task_keys(t).contains("description"@) <==> t.description is Some,
        spec_new_task_keys(t).contains("project_id"@) <==> t.project_id is Some,
        spec_new_task_keys(t).contains("section_id"@) <==> t.section_id is Some,
        spec_new_task_keys(t).contains("parent_id"@) <==> t.parent_id is Some,
        spec_new_task_keys(t).contains("order"@) <==> t.order is Some,
        spec_new_task_keys(t).contains("labels"@) <==> t.labels is Some,
        spec_new_task_keys(t).contains("priority"@) <==> t.priority is Some,
        spec_new_task_keys(t).contains("assignee_id"@) <==> t.assignee_id is Some,
        t.due is None ==> !spec_new_task_keys(t).contains("due_string"@)
            && !spec_new_task_keys(t).contains("due_lang"@) && !spec_new_task_keys(t).contains(
            "due_date"@,
        ) && !spec_new_task_keys(t).contains("due_datetime"@),
        spec_new_task_keys(t).contains("duration"@) <==> t.duration is Some,
        spec_new_task_keys(t).contains("duration_unit"@) <==> t.duration is Some,
{
    broadcast use vstd::seq_lib::lemma_seq_concat_contains_all_elements;

    lemma_task_keys_distinct();
    lemma_new_task_keys_split(t);
    lemma_new_task_base_keys_iff(t);
    lemma_new_task_base_keys_classified(t);
    lemma_new_task_rest_keys_iff(t);
    lemma_new_task_rest_keys_classified(t);
}

/// Law: a creation payload with only the content set serializes to a body
/// whose keys are exactly `content`.
pub proof fn lemma_new_task_minimal_keys(t: NewTask)
    requires
        t.description is None,
        t.project_id is None,
        t.section_id is None,
        t.parent_id is None,
        t.order is None,
        t.labels is None,
        t.priority is None,
        t.due is None,
        t.assignee_id is None,
        t.duration is None,
    ensures
        spec_new_task_keys(t) == seq!["content"@],
{
    assert(spec_new_task_keys(t) =~= seq!["content"@]);
}

/// Whether `v` is the encoded request body of `t`: an object whose ordered
/// keys are exactly [`spec_new_task_keys`] and whose every member holds its
/// field's value ([`spec_new_task_member_ok`]).
pub open spec fn spec_new_task_encoding(t: NewTask, v: JsonValue) -> bool {
    v matches JsonValue::Object(pairs) && spec_pairs_keys(pairs@) == spec_new_task_keys(t) && (
    forall|i: int| 0 <= i < pairs@.len() ==> spec_new_task_member_ok(t, #[trigger] pairs@[i]))
}

impl NewTask {
    /// Create a new task with the given content and all other fields unset.
    pub fn new(content: &str) -> (t: NewTask)
        ensures
            t.content@ == content@,
            t.description is None,
            t.project_id is None,
            t.section_id is None,
            t.parent_id is None,
            t.order is None,
            t.labels is None,
            t.priority is None,
            t.due is None,
            t.assignee_id is None,
            t.duration is None,
    {
        NewTask {
            content: content.to_owned(),
            description: None,
            project_id: None,
            section_id: None,
            parent_id: None,
            order: None,
            labels: None,
            priority: None,
            due: None,
            assignee_id: None,
            duration: None,
        }
    }

    /// Build the request body: one member per set field, in a fixed order,
    /// the due-date and duration choices flattened in place, and nothing
    /// emitted for a field left unset.
    #[verifier::rlimit(100)]
    #[verifier::spinoff_prover]
    pub fn to_json(&self) -> (r: JsonValue)
        ensures
            spec_new_task_encoding(*self, r),
    {
        let mut pairs = new_task_pairs_base(self);
        let ghost base = pairs@;
        let mut rest = new_task_pairs_rest(self);
        let ghost rp = rest@;
        pairs.append(&mut rest);
        proof {
            assert(pairs@ == base + rp);
            assert(spec_pairs_keys(pairs@) =~= spec_pairs_keys(base) + spec_pairs_keys(rp));
            lemma_new_task_keys_split(*self);
            assert forall|i: int|
                0 <= i < pairs@.len() implies spec_new_task_member_ok(
                *self,
                #[trigger] pairs@[i],
            ) by {
                if i < base.len() {
                    assert(pairs@[i] == base[i]);
                } else {
                    assert(pairs@[i] == rp[i - base.len()]);
                }
            }
        }
        JsonValue::Object(pairs)
    }

    /// Upload this new task to the API. Returns the full task as the service
    /// echoes it.
    pub fn upload(&self, user: &TodoistUser) -> (r: Result<Task, TodoistAPIError>)
        ensures
            r matches Err(e) ==> !(e is RequestSerializationError),
    {
        let req = new_task_request(user, self);
        let outcome = send_request(&req);
        task_from_response(outcome)
    }
}

/// An update to an existing task. Any field left unset is omitted from the
/// request body and stays unchanged.
#[derive(Debug)]
pub struct UpdateTask {
    pub content: Option<String>,
    pub description: Option<String>,
    pub labels: Option<Vec<String>>,
    pub priority: Option<u8>,
    pub due: Option<NewDue>,
    pub assignee_id: Option<String>,
    pub duration: Option<NewDuration>,
}

/// The exact ordered keys of an update-task request body: each key exactly
/// when its field is set, the due-date and duration choices flattened in
/// place.
pub open spec fn spec_update_task_keys(t: UpdateTask) -> Seq<Seq<char>> {
    (if t.content is Some {
        seq!["content"@]
    } else {
        Seq::<Seq<char>>::empty()
    }) + (if t.description is Some {
        seq!["description"@]
    } else {
        Seq::<Seq<char>>::empty()
    }) + (if t.labels is Some {
        seq!["labels"@]
    } else {
        Seq::<Seq<char>>::empty()
    }) + (if t.priority is Some {
        seq!["priority"@]
    } else {
        Seq::<Seq<char>>::empty()
    }) + (match t.due {
        Some(d) => spec_new_due_keys(d),
        None => Seq::<Seq<char>>::empty(),
    }) + (if t.assignee_id is Some {
        seq!["assignee_id"@]
    } else {
        Seq::<Seq<char>>::empty()
    }) + (if t.duration is Some {
        spec_new_duration_keys()
    } else {
        Seq::<Seq<char>>::empty()
    })
}

/// What each member of an update-task request body holds, by its key.
pub open spec fn spec_update_task_member_ok(t: UpdateTask, pair: (String, JsonValue)) -> bool {
    &&& pair.0@ == "content"@ ==> (t.content matches Some(x) && pair.1 == JsonValue::Str(x))
    &&& pair.0@ == "description"@ ==> (t.description matches Some(x) && pair.1 == JsonValue::Str(x))
    &&& pair.0@ == "labels"@ ==> (t.labels matches Some(ls) && pair.1 matches JsonValue::Array(
        elems,
    ) && elems@.len() == ls@.len() && (forall|k: int|
        0 <= k < ls@.len() ==> elems@[k] == JsonValue::Str(ls@[k])))
    &&& pair.0@ == "priority"@ ==> (t.priority matches Some(p) && pair.1 == JsonValue::Int(
        p as i64,
    ))
    &&& (pair.0@ == "due_string"@ || pair.0@ == "due_lang"@ || pair.0@ == "due_date"@ || pair.0@
        == "due_datetime"@) ==> (t.due matches Some(d) && spec_new_due_member_ok(d, pair))
    &&& pair.0@ == "assignee_id"@ ==> (t.assignee_id matches Some(x) && pair.1 == JsonValue::Str(x))
    &&& (pair.0@ == "duration"@ || pair.0@ == "duration_unit"@) ==> (t.duration matches Some(d)
        && spec_new_duration_member_ok(d, pair))
}

/// The keys contributed by the first group of update-task fields.
pub open spec fn spec_update_task_keys_base(t: UpdateTask) -> Seq<Seq<char>> {
    (if t.content is Some {
        seq!["content"@]
    } else {
        Seq::<Seq<char>>::empty()
    }) + (if t.description is Some {
        seq!["description"@]
    } else {
        Seq::<Seq<char>>::empty()
    }) + (if t.labels is Some {
        seq!["labels"@]
    } else {
        Seq::<Seq<char>>::empty()
    }) + (if t.priority is Some {
        seq!["priority"@]
    } else {
        Seq::<Seq<char>>::empty()
    })
}

/// The keys contributed by the remaining update-task fields.
pub open spec fn spec_update_task_keys_rest(t: UpdateTask) -> Seq<Seq<char>> {
    (match t.due {
        Some(d) => spec_new_due_keys(d),
        None => Seq::<Seq<char>>::empty(),
    }) + (if t.assignee_id is Some {
        seq!["assignee_id"@]
    } else {
        Seq::<Seq<char>>::empty()
    }) + (if t.duration is Some {
        spec_new_duration_keys()
    } else {
        Seq::<Seq<char>>::empty()
    })
}

/// Build the members for the first group of update-task fields.
fn update_task_pairs_base(t: &UpdateTask) -> (r: Vec<(String, JsonValue)>)
    ensures
        spec_pairs_keys(r@) == spec_update_task_keys_base(*t),
        forall|i: int| 0 <= i < r@.len() ==> spec_update_task_member_ok(*t, #[trigger] r@[i]),
{
    proof {
        lemma_task_keys_distinct();
    }
    let mut pairs: Vec<(String, JsonValue)> = Vec::new();
    if let Some(x) = &t.content {
        pairs.push(("content".to_owned(), JsonValue::Str(x.clone())));
    }
    if let Some(x) = &t.description {
        pairs.push(("description".to_owned(), JsonValue::Str(x.clone())));
    }
    if let Some(ls) = &t.labels {
        pairs.push(("labels".to_owned(), JsonValue::Array(strings_to_json_values(ls))));
    }
    if let Some(p) = &t.priority {
        pairs.push(("priority".to_owned(), JsonValue::Int(*p as i64)));
    }
    assert(spec_pairs_keys(pairs@) =~= spec_update_task_keys_base(*t));
    pairs
}

/// Build the members for the remaining update-task fields.
fn update_task_pairs_rest(t: &UpdateTask) -> (r: Vec<(String, JsonValue)>)
    ensures
        spec_pairs_keys(r@) == spec_update_task_keys_rest(*t),
        forall|i: int| 0 <= i < r@.len() ==> spec_update_task_member_ok(*t, #[trigger] r@[i]),
{
    proof {
        lemma_task_keys_distinct();
    }
    let mut pairs: Vec<(String, JsonValue)> = Vec::new();
    let ghost mut dp: Seq<(String, JsonValue)> = Seq::empty();
    if let Some(d) = &t.due {
        let mut due_pairs = new_due_pairs(d);
        proof {
            dp = due_pairs@;
            lemma_new_due_keys_are_due_keys(*d);
        }
        pairs.append(&mut due_pairs);
    }
    proof {
        match &t.due {
            Some(d) => {
                assert(pairs@ == dp);
                assert(spec_pairs_keys(dp) == spec_new_due_keys(*d));
                assert forall|i: int|
                    0 <= i < pairs@.len() implies spec_update_task_member_ok(
                    *t,
                    #[trigger] pairs@[i],
                ) by {
                    assert(pairs@[i] == dp[i]);
                    assert(dp[i].0@ == spec_pairs_keys(dp)[i]);
                    assert(spec_new_due_member_ok(*d, dp[i]));
                }
            },
            None => {},
        }
    }
    if let Some(x) = &t.assignee_id {
        pairs.push(("assignee_id".to_owned(), JsonValue::Str(x.clone())));
    }
    if let Some(d) = &t.duration {
        pairs.push(("duration".to_owned(), JsonValue::Int(d.duration as i64)));
        pairs.push(
            ("duration_unit".to_owned(), JsonValue::Str(d.duration_unit.to_str().to_owned())),
        );
    }
    assert(spec_pairs_keys(pairs@) =~= spec_update_task_keys_rest(*t));
    pairs
}
/// Law: an update-task request body holds each key exactly when its field is
/// set, due-date keys only when a due date is set, and both duration keys
/// exactly when a duration is set — a field left unset is omitted, never
/// emitted as null, so the service leaves it unchanged.
#[verifier::rlimit(100)]
#[verifier::spinoff_prover]
pub proof fn lemma_update_task_omits_unset(t: UpdateTask)
    ensures
        spec_update_task_keys(t).contains("content"@) <==> t.content is Some,
        spec_update_task_keys(t).contains("description"@) <==> t.description is Some,
        spec_update_task_keys(t).contains("labels"@) <==> t.labels is Some,
        spec_update_task_keys(t).contains("priority"@) <==> t.priority is Some,
        spec_update_task_keys(t).contains("assignee_id"@) <==> t.assignee_id is Some,
        t.due is None ==> !spec_update_task_keys(t).contains("due_string"@)
            && !spec_update_task_keys(t).contains("due_lang"@) && !spec_update_task_keys(
            t,
        ).contains("due_date"@) && !spec_update_task_keys(t).contains("due_datetime"@),
        spec_update_task_keys(t).contains("duration"@) <==> t.duration is Some,
        spec_update_task_keys(t).contains("duration_unit"@) <==> t.duration is Some,
{
    broadcast use vstd::seq_lib::lemma_seq_concat_contains_all_elements;

    lemma_task_keys_distinct();
    assert(seq!["content"@][0] == "content"@);
    assert(seq!["description"@][0] == "description"@);
    assert(seq!["labels"@][0] == "labels"@);
    assert(seq!["priority"@][0] == "priority"@);
    assert(seq!["assignee_id"@][0] == "assignee_id"@);
    assert(spec_new_duration_keys()[0] == "duration"@);
    assert(spec_new_duration_keys()[1] == "duration_unit"@);
    match t.due {
        Some(d) => lemma_new_due_keys_are_due_keys(d),
        None => {},
    }
}

/// Whether `v` is the encoded request body of `t`: an object whose ordered
/// keys are exactly [`spec_update_task_keys`] and whose every member holds
/// its field's value ([`spec_update_task_member_ok`]).
pub open spec fn spec_update_task_encoding(t: UpdateTask, v: JsonValue) -> bool {
    v matches JsonValue::Object(pairs) && spec_pairs_keys(pairs@) == spec_update_task_keys(t) && (
    forall|i: int| 0 <= i < pairs@.len() ==> spec_update_task_member_ok(t, #[trigger] pairs@[i]))
}

impl UpdateTask {
    /// Build the request body: one member per set field, in a fixed order,
    /// the due-date and duration choices flattened in place, and nothing
    /// emitted for a field left unset.
    #[verifier::rlimit(100)]
    #[verifier::spinoff_prover]
    pub fn to_json(&self) -> (r: JsonValue)
        ensures
            spec_update_task_encoding(*self, r),
    {
        let mut pairs = update_task_pairs_base(self);
        let ghost base = pairs@;
        let mut rest = update_task_pairs_rest(self);
        let ghost rp = rest@;
        pairs.append(&mut rest);
        proof {
            assert(pairs@ == base + rp);
            assert(spec_pairs_keys(pairs@) =~= spec_pairs_keys(base) + spec_pairs_keys(rp));
            assert(spec_update_task_keys(*self) =~= spec_update_task_keys_base(*self)
                + spec_update_task_keys_rest(*self));
            assert forall|i: int|
                0 <= i < pairs@.len() implies spec_update_task_member_ok(
                *self,
                #[trigger] pairs@[i],
            ) by {
                if i < base.len() {
                    assert(pairs@[i] == base[i]);
                } else {
                    assert(pairs@[i] == rp[i - base.len()]);
                }
            }
        }
        JsonValue::Object(pairs)
    }

    /// Upload the changes in this struct to the task with the given ID.
    /// Returns the full task as the service echoes it.
    pub fn upload(&self, user: &TodoistUser, task_id: &str) -> (r: Result<Task, TodoistAPIError>)
        ensures
            r matches Err(e) ==> !(e is RequestSerializationError),
    {
        let req = update_task_request(user, self, task_id);
        let outcome = send_request(&req);
        task_from_response(outcome)
    }
}

/// The client-side criterion applied to a downloaded task list. After a
/// server-side text filter the API's order of precedence is: IDs, then
/// label, then project, then section; at most one applies per call.
pub enum TaskCriterion<'a> {
    /// Keep every task.
    All,
    /// Keep the tasks whose ID is one of the given list.
    ByIds(Vec<&'a str>),
    /// Keep the tasks carrying the given label.
    ByLabel(&'a str),
    /// Keep the tasks in the given project.
    ByProject(&'a str),
    /// Keep the tasks in the given section.
    BySection(&'a str),
}

/// The subsequence of `tasks` that the criterion keeps, in order.
pub open spec fn spec_apply_task_criterion(c: TaskCriterion, tasks: Seq<Task>) -> Seq<Task> {
    match c {
        TaskCriterion::All => tasks,
        TaskCriterion::ByIds(ids) => tasks.filter(spec_id_in_pred(spec_id_views(ids@))),
        TaskCriterion::ByLabel(l) => tasks.filter(spec_has_label_pred(l@)),
        TaskCriterion::ByProject(p) => tasks.filter(spec_in_project_pred(p@)),
        TaskCriterion::BySection(s) => tasks.filter(spec_in_section_pred(s@)),
    }
}

/// Apply a criterion to a task list, keeping exactly the matching tasks in
/// their original order.
pub fn apply_task_criterion(tasks: Vec<Task>, criterion: TaskCriterion) -> (r: Vec<Task>)
    ensures
        r@ == spec_apply_task_criterion(criterion, tasks@),
{
    match criterion {
        TaskCriterion::All => tasks,
        TaskCriterion::ByIds(ids) => filter_tasks_by_ids(tasks, &ids),
        TaskCriterion::ByLabel(l) => filter_tasks_by_label(tasks, l),
        TaskCriterion::ByProject(p) => filter_tasks_by_project(tasks, p),
        TaskCriterion::BySection(s) => filter_tasks_by_section(tasks, s),
    }
}

/// Interpret a whole exchange for a call that returns a task list and then
/// selects from it client-side: the transport, status and parse rules of
/// [`get_from_reqwest_response`], the exact decode of [`tasks_from_json`],
/// and exactly the criterion's subsequence of the decoded list.
pub fn tasks_from_response_filtered<'a>(
    outcome: TransportOutcome,
    criterion: TaskCriterion<'a>,
) -> (r: Result<Vec<Task>, TodoistAPIError>)
    ensures
        match outcome {
            TransportOutcome::Failure(d) => r matches Err(TodoistAPIError::TransportError(e))
                && e == d,
            TransportOutcome::Response(code, body) => {
                if spec_is_success_code(code) {
                    match spec_parsed_json(body@) {
                        Some(v) => {
                            if spec_task_list_shape(v) {
                                r matches Ok(list) && (v matches JsonValue::Array(elems) && (
                                exists|full: Seq<Task>|
                                    #![trigger spec_apply_task_criterion(criterion, full)]
                                    {
                                        &&& full.len() == elems@.len()
                                        &&& (forall|i: int|
                                            0 <= i < full.len() ==> spec_task_matches(
                                                #[trigger] elems@[i],
                                                full[i],
                                            ))
                                        &&& list@ == spec_apply_task_criterion(criterion, full)
                                    }))
                            } else {
                                r matches Err(e) && e is ResponseDeserializationError
                            }
                        },
                        None => r matches Err(e) && e is ResponseDeserializationError,
                    }
                } else {
                    r matches Err(TodoistAPIError::UnsuccessfulStatus(c, b)) && c == code && b
                        == body
                }
            },
        },
{
    match tasks_from_response(outcome) {
        Ok(tasks) => {
            let ghost full = tasks@;
            let filtered = apply_task_criterion(tasks, criterion);
            proof {
                assert(filtered@ == spec_apply_task_criterion(criterion, full));
            }
            Ok(filtered)
        },
        Err(e) => Err(e),
    }
}

// ---------------------------------------------------------------------------
// Request functions
// ---------------------------------------------------------------------------

/// Build the list-active-tasks request: one GET of the tasks endpoint with
/// bearer authorization; a text filter (and its language tag, only beside a
/// filter) travels as the only query parameters.
pub fn get_active_tasks_request(
    user: &TodoistUser,
    filter: Option<&str>,
    lang: Option<&str>,
) -> (r: HttpRequest)
    ensures
        r.method == Method::Get,
        r.url@ == "https://api.todoist.com/rest/v2/tasks"@,
        spec_headers_auth(r.headers@, user.token_view()),
        r.body is None,
        match filter {
            Some(f) => match lang {
                Some(l) => r.query@.len() == 2 && r.query@[0].0@ == "filter"@ && r.query@[0].1@
                    == f@ && r.query@[1].0@ == "lang"@ && r.query@[1].1@ == l@,
                None => r.query@.len() == 1 && r.query@[0].0@ == "filter"@ && r.query@[0].1@ == f@,
            },
            None => r.query@.len() == 0,
        },
{
    let mut query: Vec<(String, String)> = Vec::new();
    if let Some(f) = filter {
        query.push(("filter".to_owned(), f.to_owned()));
        if let Some(l) = lang {
            query.push(("lang".to_owned(), l.to_owned()));
        }
    }
    HttpRequest {
        method: Method::Get,
        url: "https://api.todoist.com/rest/v2/tasks".to_owned(),
        headers: auth_headers(user),
        query,
        body: None,
    }
}

/// Build the get-task-by-ID request: one GET of the task's own URL with
/// bearer authorization and nothing else.
pub fn get_individual_task_by_id_request(user: &TodoistUser, id: &str) -> (r: HttpRequest)
    ensures
        r.method == Method::Get,
        r.url@ == "https://api.todoist.com/rest/v2/tasks/"@ + id@,
        spec_headers_auth(r.headers@, user.token_view()),
        r.query@.len() == 0,
        r.body is None,
{
    let mut url = "https://api.todoist.com/rest/v2/tasks/".to_owned();
    url.append(id);
    HttpRequest { method: Method::Get, url, headers: auth_headers(user), query: Vec::new(), body: None }
}

/// Build the close-task request: one bodiless POST to the task's close URL
/// with bearer authorization and nothing else.
pub fn close_task_by_id_request(user: &TodoistUser, id: &str) -> (r: HttpRequest)
    ensures
        r.method == Method::Post,
        r.url@ == "https://api.todoist.com/rest/v2/tasks/"@ + id@ + "/close"@,
        spec_headers_auth(r.headers@, user.token_view()),
        r.query@.len() == 0,
        r.body is None,
{
    let mut url = "https://api.todoist.com/rest/v2/tasks/".to_owned();
    url.append(id);
    url.append("/close");
    HttpRequest { method: Method::Post, url, headers: auth_headers(user), query: Vec::new(), body: None }
}

/// Build the reopen-task request: one bodiless POST to the task's reopen URL
/// with bearer authorization and nothing else.
pub fn reopen_task_by_id_request(user: &TodoistUser, id: &str) -> (r: HttpRequest)
    ensures
        r.method == Method::Post,
        r.url@ == "https://api.todoist.com/rest/v2/tasks/"@ + id@ + "/reopen"@,
        spec_headers_auth(r.headers@, user.token_view()),
        r.query@.len() == 0,
        r.body is None,
{
    let mut url = "https://api.todoist.com/rest/v2/tasks/".to_owned();
    url.append(id);
    url.append("/reopen");
    HttpRequest { method: Method::Post, url, headers: auth_headers(user), query: Vec::new(), body: None }
}

/// Build the create-task request: one POST to the tasks endpoint with bearer
/// authorization, JSON content type and a fresh request ID, whose body is
/// exactly the serialized encoding of `t`.
pub fn new_task_request(user: &TodoistUser, t: &NewTask) -> (r: HttpRequest)
    ensures
        r.method == Method::Post,
        r.url@ == "https://api.todoist.com/rest/v2/tasks"@,
        spec_headers_auth_json_id(r.headers@, user.token_view()),
        r.query@.len() == 0,
        r.body matches Some(b) && (exists|v: JsonValue|
            spec_new_task_encoding(*t, v) && b@ == #[trigger] spec_json_text(v)),
{
    let v = t.to_json();
    let body = to_json_text(&v);
    HttpRequest {
        method: Method::Post,
        url: "https://api.todoist.com/rest/v2/tasks".to_owned(),
        headers: json_body_headers(user),
        query: Vec::new(),
        body: Some(body),
    }
}

/// Build the update-task request: one POST to the task's own URL with bearer
/// authorization, JSON content type and a fresh request ID, whose body is
/// exactly the serialized encoding of `t`.
pub fn update_task_request(user: &TodoistUser, t: &UpdateTask, task_id: &str) -> (r: HttpRequest)
    ensures
        r.method == Method::Post,
        r.url@ == "https://api.todoist.com/rest/v2/tasks/"@ + task_id@,
        spec_headers_auth_json_id(r.headers@, user.token_view()),
        r.query@.len() == 0,
        r.body matches Some(b) && (exists|v: JsonValue|
            spec_update_task_encoding(*t, v) && b@ == #[trigger] spec_json_text(v)),
{
    let v = t.to_json();
    let body = to_json_text(&v);
    let mut url = "https://api.todoist.com/rest/v2/tasks/".to_owned();
    url.append(task_id);
    HttpRequest { method: Method::Post, url, headers: json_body_headers(user), query: Vec::new(), body: Some(body) }
}

/// Fetch active tasks. A text filter (with its optional language) is passed
/// to the service as query parameters; the remaining criteria are applied
/// client-side to the downloaded list through
/// [`tasks_from_response_filtered`], in the API's order of precedence:
/// filter, then IDs, then label, then project, then section.
fn get_active_tasks_pure(
    user: &TodoistUser,
    filter: Option<&str>,
    lang: Option<&str>,
    ids: Option<Vec<&str>>,
    label: Option<&str>,
    project_id: Option<&str>,
    section_id: Option<&str>,
) -> (r: Result<Vec<Task>, TodoistAPIError>)
    ensures
        r matches Err(e) ==> !(e is RequestSerializationError),
{
    let has_filter = filter.is_some();
    let req = get_active_tasks_request(user, filter, lang);
    let outcome = send_request(&req);
    let criterion = if has_filter {
        TaskCriterion::All
    } else if let Some(id_list) = ids {
        TaskCriterion::ByIds(id_list)
    } else if let Some(l) = label {
        TaskCriterion::ByLabel(l)
    } else if let Some(p) = project_id {
        TaskCriterion::ByProject(p)
    } else if let Some(s) = section_id {
        TaskCriterion::BySection(s)
    } else {
        TaskCriterion::All
    };
    tasks_from_response_filtered(outcome, criterion)
}

/// Get all the user's active tasks which match the given text filter, in
/// English.
pub fn get_active_tasks_filtered(user: &TodoistUser, filter: &str) -> (r: Result<
    Vec<Task>,
    TodoistAPIError,
>)
    ensures
        r matches Err(e) ==> !(e is RequestSerializationError),
{
    get_active_tasks_pure(user, Some(filter), None, None, None, None, None)
}

/// Get all the user's active tasks which match the given text filter,
/// written in the given IETF language tag.
pub fn get_active_tasks_filtered_non_english(
    user: &TodoistUser,
    filter: &str,
    lang: &str,
) -> (r: Result<Vec<Task>, TodoistAPIError>)
    ensures
        r matches Err(e) ==> !(e is RequestSerializationError),
{
    get_active_tasks_pure(user, Some(filter), Some(lang), None, None, None, None)
}

/// Get all the active tasks with an ID in this list.
pub fn get_active_tasks_by_id(user: &TodoistUser, ids: Vec<&str>) -> (r: Result<
    Vec<Task>,
    TodoistAPIError,
>)
    ensures
        r matches Err(e) ==> !(e is RequestSerializationError),
{
    let req = get_active_tasks_request(user, None, None);
    let outcome = send_request(&req);
    tasks_from_response_filtered(outcome, TaskCriterion::ByIds(ids))
}

/// Get all the user's active tasks which are in the given project.
pub fn get_active_tasks_by_project(user: &TodoistUser, project_id: &str) -> (r: Result<
    Vec<Task>,
    TodoistAPIError,
>)
    ensures
        r matches Err(e) ==> !(e is RequestSerializationError),
{
    let req = get_active_tasks_request(user, None, None);
    let outcome = send_request(&req);
    tasks_from_response_filtered(outcome, TaskCriterion::ByProject(project_id))
}

/// Get all the user's active tasks which are in the given section.
pub fn get_active_tasks_by_section(user: &TodoistUser, section_id: &str) -> (r: Result<
    Vec<Task>,
    TodoistAPIError,
>)
    ensures
        r matches Err(e) ==> !(e is RequestSerializationError),
{
    let req = get_active_tasks_request(user, None, None);
    let outcome = send_request(&req);
    tasks_from_response_filtered(outcome, TaskCriterion::BySection(section_id))
}

/// Get all the user's active tasks which carry the given label.
pub fn get_active_tasks_by_label(user: &TodoistUser, label: &str) -> (r: Result<
    Vec<Task>,
    TodoistAPIError,
>)
    ensures
        r matches Err(e) ==> !(e is RequestSerializationError),
{
    let req = get_active_tasks_request(user, None, None);
    let outcome = send_request(&req);
    tasks_from_response_filtered(outcome, TaskCriterion::ByLabel(label))
}

/// Get all the user's active tasks.
pub fn get_all_active_tasks(user: &TodoistUser) -> (r: Result<Vec<Task>, TodoistAPIError>)
    ensures
        r matches Err(e) ==> !(e is RequestSerializationError),
{
    get_active_tasks_pure(user, None, None, None, None, None, None)
}

/// Get the individual task with the given ID.
pub fn get_individual_task_by_id(user: &TodoistUser, id: &str) -> (r: Result<
    Task,
    TodoistAPIError,
>)
    ensures
        r matches Err(e) ==> !(e is RequestSerializationError),
{
    let req = get_individual_task_by_id_request(user, id);
    let outcome = send_request(&req);
    task_from_response(outcome)
}

/// Mark a task as complete.
pub fn close_task_by_id(user: &TodoistUser, id: &str) -> (r: Result<(), TodoistAPIError>)
    ensures
        r matches Err(e) ==> !(e is RequestSerializationError),
{
    let req = close_task_by_id_request(user, id);
    let outcome = send_request(&req);
    get_204_from_reqwest_response(outcome)
}

/// Reopen a closed task.
pub fn reopen_task_by_id(user: &TodoistUser, id: &str) -> (r: Result<(), TodoistAPIError>)
    ensures
        r matches Err(e) ==> !(e is RequestSerializationError),
{
    let req = reopen_task_by_id_request(user, id);
    let outcome = send_request(&req);
    get_204_from_reqwest_response(outcome)
}

} // verus!



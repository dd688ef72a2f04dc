//! Comments can be added to tasks or projects. A comment downloaded from the
//! service may carry an attachment, whose three shapes (basic, image, audio)
//! are told apart only by which keys are present.

use vstd::prelude::*;
use crate::TodoistUser;
use crate::err::{TodoistAPIError, bad_shape};
use crate::general::{
    HttpRequest,
    Method,
    TransportOutcome,
    auth_headers,
    get_204_from_reqwest_response,
    get_from_reqwest_response,
    json_body_headers,
    spec_headers_auth,
    spec_headers_auth_json_id,
    spec_is_success_code,
};
use crate::json::{
    JsonValue,
    spec_field_i32,
    spec_field_opt_string,
    spec_field_string,
    spec_field_u64,
    spec_json_text,
    spec_obj_lookup,
    spec_obj_has_key,
    spec_single_string_member,
    field_i32,
    field_opt_string,
    field_string,
    field_u64,
    obj_lookup,
    to_json_text,
};
use crate::strutil::str_eq;
use crate::transport::{send_request, spec_parsed_json};

verus! {

/// The upload state of an attachment.
#[derive(Debug, Clone, Copy, PartialEq, Eq, Structural)]
pub enum UploadState {
    Pending,
    Completed,
}

/// The canonical API string for each upload state.
pub open spec fn spec_upload_state_str(u: UploadState) -> Seq<char> {
    match u {
        UploadState::Pending => "pending"@,
        UploadState::Completed => "completed"@,
    }
}

/// The upload state denoted by an API string, or `None` for an unrecognized
/// string.
pub open spec fn spec_upload_state_from_str(s: Seq<char>) -> Option<UploadState> {
    if s == "pending"@ {
        Some(UploadState::Pending)
    } else if s == "completed"@ {
        Some(UploadState::Completed)
    } else {
        None
    }
}

impl UploadState {
    /// Convert the upload state to its API string.
    pub fn to_str(&self) -> (r: &str)
        ensures
            r@ == spec_upload_state_str(*self),
    {
        match self {
            UploadState::Pending => "pending",
            UploadState::Completed => "completed",
        }
    }

    /// Convert an API string into an upload state; an unrecognized string
    /// yields `None`, never a default.
    pub fn from_str(s: &str) -> (r: Option<UploadState>)
        ensures
            r == spec_upload_state_from_str(s@),
    {
        if str_eq(s, "pending") {
            Some(UploadState::Pending)
        } else if str_eq(s, "completed") {
            Some(UploadState::Completed)
        } else {
            None
        }
    }
}

/// Law: converting any upload state to its API string and back recovers the
/// same state.
pub proof fn lemma_upload_state_round_trip(u: UploadState)
    ensures
        spec_upload_state_from_str(spec_upload_state_str(u)) == Some(u),
{
    reveal_strlit("pending");
    reveal_strlit("completed");
    assert("pending"@.len() == 7);
    assert("completed"@.len() == 9);
}

/// An image thumbnail: its URL, width and height.
pub type Thumbnail = (String, u32, u32);

/// The shape-dependent part of an attachment, told apart by which keys the
/// attachment object carries: three thumbnails for an image, a file duration
/// for audio, nothing extra for a basic file.
#[derive(Debug)]
pub enum AttachmentType {
    Basic,
    Image { tn_l: Thumbnail, tn_m: Thumbnail, tn_s: Thumbnail },
    Audio { file_duration: i32 },
}

impl Default for AttachmentType {
    /// An attachment with no image or audio keys is a basic file.
    fn default() -> (r: AttachmentType)
        ensures
            r is Basic,
    {
        AttachmentType::Basic
    }
}

/// An attachment to a comment, as returned by the service. The REST API can
/// return attachments but offers no way to upload new ones.
#[derive(Debug)]
pub struct Attachment {
    pub file_name: String,
    pub file_size: u64,
    pub file_type: String,
    pub file_url: String,
    pub upload_state: Option<UploadState>,
    pub attachment_type: AttachmentType,
}

/// Whether `v` is a JSON array of the thumbnail shape: URL, width, height.
pub open spec fn spec_thumbnail_shape(v: JsonValue) -> bool {
    v matches JsonValue::Array(elems) && elems@.len() == 3 && elems@[0] is Str
        && (elems@[1] matches JsonValue::Int(w) && 0 <= w <= u32::MAX) && (elems@[2] matches
    JsonValue::Int(h) && 0 <= h <= u32::MAX)
}

/// Whether the decoded thumbnail `t` carries exactly the fields of `v`.
pub open spec fn spec_thumbnail_matches(v: JsonValue, t: Thumbnail) -> bool {
    &&& v matches JsonValue::Array(elems)
    &&& elems@.len() == 3
    &&& elems@[0] == JsonValue::Str(t.0)
    &&& elems@[1] == JsonValue::Int(t.1 as i64)
    &&& elems@[2] == JsonValue::Int(t.2 as i64)
}

/// Decode one thumbnail array.
fn thumbnail_from_json(v: &JsonValue) -> (r: Option<Thumbnail>)
    ensures
        r is Some <==> spec_thumbnail_shape(*v),
        r matches Some(t) ==> spec_thumbnail_matches(*v, t),
{
    match v {
        JsonValue::Array(elems) => {
            if elems.len() != 3 {
                return None;
            }
            let url = match &elems[0] {
                JsonValue::Str(s) => s.clone(),
                _ => {
                    return None;
                },
            };
            let w = match &elems[1] {
                JsonValue::Int(i) => {
                    if 0 <= *i && *i <= u32::MAX as i64 {
                        *i as u32
                    } else {
                        return None;
                    }
                },
                _ => {
                    return None;
                },
            };
            let h = match &elems[2] {
                JsonValue::Int(i) => {
                    if 0 <= *i && *i <= u32::MAX as i64 {
                        *i as u32
                    } else {
                        return None;
                    }
                },
                _ => {
                    return None;
                },
            };
            Some((url, w, h))
        },
        _ => None,
    }
}

/// Whether `v` carries all three image-thumbnail keys.
pub open spec fn spec_attachment_is_image(v: JsonValue) -> bool {
    spec_obj_has_key(v, "tn_l"@) && spec_obj_has_key(v, "tn_m"@) && spec_obj_has_key(v, "tn_s"@)
}

/// Whether `v` carries the audio key (and is not an image).
pub open spec fn spec_attachment_is_audio(v: JsonValue) -> bool {
    !spec_attachment_is_image(v) && spec_obj_has_key(v, "file_duration"@)
}

/// Whether the shape-dependent part of an attachment object is well-formed:
/// an image's three thumbnails each of thumbnail shape, an audio file's
/// duration an integer, and nothing demanded of a basic file.
pub open spec fn spec_attachment_type_shape(v: JsonValue) -> bool {
    if spec_attachment_is_image(v) {
        &&& (spec_obj_lookup(v, "tn_l"@) matches Some(t) && spec_thumbnail_shape(t))
        &&& (spec_obj_lookup(v, "tn_m"@) matches Some(t) && spec_thumbnail_shape(t))
        &&& (spec_obj_lookup(v, "tn_s"@) matches Some(t) && spec_thumbnail_shape(t))
    } else if spec_attachment_is_audio(v) {
        spec_field_i32(v, "file_duration"@) is Some
    } else {
        true
    }
}

/// Whether the decoded shape-dependent part `a` carries exactly what the
/// present keys of `v` dictate.
pub open spec fn spec_attachment_type_matches(v: JsonValue, a: AttachmentType) -> bool {
    if spec_attachment_is_image(v) {
        &&& a matches AttachmentType::Image { tn_l, tn_m, tn_s }
        &&& (spec_obj_lookup(v, "tn_l"@) matches Some(t) && spec_thumbnail_matches(t, tn_l))
        &&& (spec_obj_lookup(v, "tn_m"@) matches Some(t) && spec_thumbnail_matches(t, tn_m))
        &&& (spec_obj_lookup(v, "tn_s"@) matches Some(t) && spec_thumbnail_matches(t, tn_s))
    } else if spec_attachment_is_audio(v) {
        a matches AttachmentType::Audio { file_duration } && spec_field_i32(v, "file_duration"@)
            == Some(file_duration)
    } else {
        a is Basic
    }
}

/// Whether the optional upload-state field is absent, null, or a recognized
/// state string.
pub open spec fn spec_upload_state_field_ok(v: JsonValue) -> bool {
    match spec_obj_lookup(v, "upload_state"@) {
        None => true,
        Some(JsonValue::Null) => true,
        Some(JsonValue::Str(s)) => spec_upload_state_from_str(s@) is Some,
        Some(_) => false,
    }
}

/// Whether `v` has the shape of an attachment object.
pub open spec fn spec_attachment_shape(v: JsonValue) -> bool {
    &&& spec_field_string(v, "file_name"@) is Some
    &&& spec_field_u64(v, "file_size"@) is Some
    &&& spec_field_string(v, "file_type"@) is Some
    &&& spec_field_string(v, "file_url"@) is Some
    &&& spec_upload_state_field_ok(v)
    &&& spec_attachment_type_shape(v)
}

/// Whether the decoded attachment `a` carries exactly the fields of `v`.
pub open spec fn spec_attachment_matches(v: JsonValue, a: Attachment) -> bool {
    &&& spec_field_string(v, "file_name"@) == Some(a.file_name@)
    &&& spec_field_u64(v, "file_size"@) == Some(a.file_size)
    &&& spec_field_string(v, "file_type"@) == Some(a.file_type@)
    &&& spec_field_string(v, "file_url"@) == Some(a.file_url@)
    &&& match a.upload_state {
        Some(u) => (spec_obj_lookup(v, "upload_state"@) matches Some(JsonValue::Str(s))
            && spec_upload_state_from_str(s@) == Some(u)),
        None => (spec_obj_lookup(v, "upload_state"@) is None || spec_obj_lookup(
            v,
            "upload_state"@,
        ) == Some(JsonValue::Null)),
    }
    &&& spec_attachment_type_matches(v, a.attachment_type)
}

/// Decode one attachment object; succeeds exactly on values of attachment
/// shape, dispatching the shape-dependent part on which keys are present.
pub fn attachment_from_json(v: &JsonValue) -> (r: Result<Attachment, TodoistAPIError>)
    ensures
        r is Ok <==> spec_attachment_shape(*v),
        r matches Ok(a) ==> spec_attachment_matches(*v, a),
        r matches Err(e) ==> e is ResponseDeserializationError,
{
    let file_name = match field_string(v, "file_name") {
        Some(x) => x,
        None => {
            return Err(bad_shape("attachment"));
        },
    };
    let file_size = match field_u64(v, "file_size") {
        Some(x) => x,
        None => {
            return Err(bad_shape("attachment"));
        },
    };
    let file_type = match field_string(v, "file_type") {
        Some(x) => x,
        None => {
            return Err(bad_shape("attachment"));
        },
    };
    let file_url = match field_string(v, "file_url") {
        Some(x) => x,
        None => {
            return Err(bad_shape("attachment"));
        },
    };
    let upload_state = match obj_lookup(v, "upload_state") {
        None => None,
        Some(JsonValue::Null) => None,
        Some(JsonValue::Str(s)) => match UploadState::from_str(s.as_str()) {
            Some(u) => Some(u),
            None => {
                return Err(bad_shape("attachment"));
            },
        },
        Some(_) => {
            return Err(bad_shape("attachment"));
        },
    };
    let tn_l = obj_lookup(v, "tn_l");
    let tn_m = obj_lookup(v, "tn_m");
    let tn_s = obj_lookup(v, "tn_s");
    let attachment_type = if tn_l.is_some() && tn_m.is_some() && tn_s.is_some() {
        let l = match thumbnail_from_json(tn_l.unwrap()) {
            Some(t) => t,
            None => {
                return Err(bad_shape("attachment"));
            },
        };
        let m = match thumbnail_from_json(tn_m.unwrap()) {
            Some(t) => t,
            None => {
                return Err(bad_shape("attachment"));
            },
        };
        let s = match thumbnail_from_json(tn_s.unwrap()) {
            Some(t) => t,
            None => {
                return Err(bad_shape("attachment"));
            },
        };
        AttachmentType::Image { tn_l: l, tn_m: m, tn_s: s }
    } else {
        match obj_lookup(v, "file_duration") {
            Some(_) => match field_i32(v, "file_duration") {
                Some(d) => AttachmentType::Audio { file_duration: d },
                None => {
                    return Err(bad_shape("attachment"));
                },
            },
            None => AttachmentType::Basic,
        }
    };
    Ok(Attachment { file_name, file_size, file_type, file_url, upload_state, attachment_type })
}

/// A comment on a task or on a project, as returned by the service. Exactly
/// one of `task_id` and `project_id` is set by the service; the crate keeps
/// both optional, as the service presents them.
#[derive(Debug)]
pub struct Comment {
    pub id: String,
    pub task_id: Option<String>,
    pub project_id: Option<String>,
    pub posted_at: String,
    pub content: String,
    pub attachment: Option<Attachment>,
}

/// Whether the optional attachment field is absent, null, or of attachment
/// shape.
pub open spec fn spec_comment_attachment_field_ok(v: JsonValue) -> bool {
    match spec_obj_lookup(v, "attachment"@) {
        None => true,
        Some(JsonValue::Null) => true,
        Some(o) => spec_attachment_shape(o),
    }
}

/// Whether `v` has the shape of a comment object.
pub open spec fn spec_comment_shape(v: JsonValue) -> bool {
    &&& spec_field_string(v, "id"@) is Some
    &&& spec_field_opt_string(v, "task_id"@) is Some
    &&& spec_field_opt_string(v, "project_id"@) is Some
    &&& spec_field_string(v, "posted_at"@) is Some
    &&& spec_field_string(v, "content"@) is Some
    &&& spec_comment_attachment_field_ok(v)
}

/// Whether the decoded comment `c` carries exactly the fields of `v`.
pub open spec fn spec_comment_matches(v: JsonValue, c: Comment) -> bool {
    &&& spec_field_string(v, "id"@) == Some(c.id@)
    &&& match c.task_id {
        Some(x) => spec_field_opt_string(v, "task_id"@) == Some(Some(x@)),
        None => spec_field_opt_string(v, "task_id"@) == Some(None::<Seq<char>>),
    }
    &&& match c.project_id {
        Some(x) => spec_field_opt_string(v, "project_id"@) == Some(Some(x@)),
        None => spec_field_opt_string(v, "project_id"@) == Some(None::<Seq<char>>),
    }
    &&& spec_field_string(v, "posted_at"@) == Some(c.posted_at@)
    &&& spec_field_string(v, "content"@) == Some(c.content@)
    &&& match c.attachment {
        Some(a) => (spec_obj_lookup(v, "attachment"@) matches Some(o) && spec_attachment_matches(
            o,
            a,
        )),
        None => (spec_obj_lookup(v, "attachment"@) is None || spec_obj_lookup(v, "attachment"@)
            == Some(JsonValue::Null)),
    }
}

/// Decode one comment object; succeeds exactly on values of comment shape.
pub fn comment_from_json(v: &JsonValue) -> (r: Result<Comment, TodoistAPIError>)
    ensures
        r is Ok <==> spec_comment_shape(*v),
        r matches Ok(c) ==> spec_comment_matches(*v, c),
        r matches Err(e) ==> e is ResponseDeserializationError,
{
    let id = match field_string(v, "id") {
        Some(x) => x,
        None => {
            return Err(bad_shape("comment"));
        },
    };
    let task_id = match field_opt_string(v, "task_id") {
        Some(x) => x,
        None => {
            return Err(bad_shape("comment"));
        },
    };
    let project_id = match field_opt_string(v, "project_id") {
        Some(x) => x,
        None => {
            return Err(bad_shape("comment"));
        },
    };
    let posted_at = match field_string(v, "posted_at") {
        Some(x) => x,
        None => {
            return Err(bad_shape("comment"));
        },
    };
    let content = match field_string(v, "content") {
        Some(x) => x,
        None => {
            return Err(bad_shape("comment"));
        },
    };
    let attachment = match obj_lookup(v, "attachment") {
        None => None,
        Some(JsonValue::Null) => None,
        Some(o) => match attachment_from_json(o) {
            Ok(a) => Some(a),
            Err(e) => {
                return Err(e);
            },
        },
    };
    Ok(Comment { id, task_id, project_id, posted_at, content, attachment })
}

/// Whether `v` is an array of comment-shaped objects.
pub open spec fn spec_comment_list_shape(v: JsonValue) -> bool {
    v matches JsonValue::Array(elems) && (forall|i: int|
        0 <= i < elems@.len() ==> spec_comment_shape(#[trigger] elems@[i]))
}

/// Decode an array of comment objects; succeeds exactly on arrays whose
/// every element has comment shape, and decodes them in order.
#[verifier::loop_isolation(false)]
pub fn comments_from_json(v: &JsonValue) -> (r: Result<Vec<Comment>, TodoistAPIError>)
    ensures
        r is Ok <==> spec_comment_list_shape(*v),
        r matches Ok(list) ==> (*v matches JsonValue::Array(elems) && list@.len() == elems@.len()
            && (forall|i: int|
            0 <= i < elems@.len() ==> spec_comment_matches(
                #[trigger] elems@[i],
                #[trigger] list@[i],
            ))),
        r matches Err(e) ==> e is ResponseDeserializationError,
{
    match v {
        JsonValue::Array(elems) => {
            let n = elems.len();
            let mut out: Vec<Comment> = Vec::new();
            let mut i: usize = 0;
            while i < n
                invariant
                    i <= n,
                    out@.len() == i,
                    forall|k: int| 0 <= k < i ==> spec_comment_shape(#[trigger] elems@[k]),
                    forall|k: int|
                        0 <= k < i ==> spec_comment_matches(
                            #[trigger] elems@[k],
                            #[trigger] out@[k],
                        ),
                decreases n - i,
            {
                match comment_from_json(&elems[i]) {
                    Ok(c) => out.push(c),
                    Err(e) => {
                        return Err(e);
                    },
                }
                i += 1;
            }
            Ok(out)
        },
        _ => Err(bad_shape("comment list")),
    }
}

/// Interpret a whole exchange for a call that returns one comment: the
/// transport, status and parse rules of [`get_from_reqwest_response`], then
/// the exact decode of [`comment_from_json`].
pub fn comment_from_response(outcome: TransportOutcome) -> (r: Result<Comment, TodoistAPIError>)
    ensures
        match outcome {
            TransportOutcome::Failure(d) => r matches Err(TodoistAPIError::TransportError(e))
                && e == d,
            TransportOutcome::Response(code, body) => {
                if spec_is_success_code(code) {
                    match spec_parsed_json(body@) {
                        Some(v) => {
                            if spec_comment_shape(v) {
                                r matches Ok(x) && spec_comment_matches(v, x)
                            } else {
                                r matches Err(e) && e is ResponseDeserializationError
                            }
                        },
                        None => r matches Err(e) && e is ResponseDeserializationError,
                    }
                } else {
                    r matches Err(TodoistAPIError::UnsuccessfulStatus(c, b)) && c == code && b
                        == body
                }
            },
        },
{
    match get_from_reqwest_response(outcome) {
        Ok(v) => comment_from_json(&v),
        Err(e) => Err(e),
    }
}

/// Interpret a whole exchange for a call that returns a comment list: the
/// transport, status and parse rules of [`get_from_reqwest_response`], then
/// the exact decode of [`comments_from_json`].
pub fn comments_from_response(outcome: TransportOutcome) -> (r: Result<Vec<Comment>, TodoistAPIError>)
    ensures
        match outcome {
            TransportOutcome::Failure(d) => r matches Err(TodoistAPIError::TransportError(e))
                && e == d,
            TransportOutcome::Response(code, body) => {
                if spec_is_success_code(code) {
                    match spec_parsed_json(body@) {
                        Some(v) => {
                            if spec_comment_list_shape(v) {
                                r matches Ok(list) && (v matches JsonValue::Array(elems)
                                    && list@.len() == elems@.len() && (forall|i: int|
                                    0 <= i < elems@.len() ==> spec_comment_matches(
                                        #[trigger] elems@[i],
                                        #[trigger] list@[i],
                                    )))
                            } else {
                                r matches Err(e) && e is ResponseDeserializationError
                            }
                        },
                        None => r matches Err(e) && e is ResponseDeserializationError,
                    }
                } else {
                    r matches Err(TodoistAPIError::UnsuccessfulStatus(c, b)) && c == code && b
                        == body
                }
            },
        },
{
    match get_from_reqwest_response(outcome) {
        Ok(v) => comments_from_json(&v),
        Err(e) => Err(e),
    }
}


/// Build the list-comments-in-project request: one GET of the comments
/// endpoint with bearer authorization and the project carried as the single
/// `project_id` query parameter.
pub fn get_comments_in_project_request(user: &TodoistUser, project_id: &str) -> (r: HttpRequest)
    ensures
        r.method == Method::Get,
        r.url@ == "https://api.todoist.com/rest/v2/comments"@,
        spec_headers_auth(r.headers@, user.token_view()),
        r.query@.len() == 1 && r.query@[0].0@ == "project_id"@ && r.query@[0].1@ == project_id@,
        r.body is None,
{
    HttpRequest {
        method: Method::Get,
        url: "https://api.todoist.com/rest/v2/comments".to_owned(),
        headers: auth_headers(user),
        query: vec![("project_id".to_owned(), project_id.to_owned())],
        body: None,
    }
}

/// Build the list-comments-in-task request: one GET of the comments
/// endpoint with bearer authorization and the task carried as the single
/// `task_id` query parameter.
pub fn get_comments_in_task_request(user: &TodoistUser, task_id: &str) -> (r: HttpRequest)
    ensures
        r.method == Method::Get,
        r.url@ == "https://api.todoist.com/rest/v2/comments"@,
        spec_headers_auth(r.headers@, user.token_view()),
        r.query@.len() == 1 && r.query@[0].0@ == "task_id"@ && r.query@[0].1@ == task_id@,
        r.body is None,
{
    HttpRequest {
        method: Method::Get,
        url: "https://api.todoist.com/rest/v2/comments".to_owned(),
        headers: auth_headers(user),
        query: vec![("task_id".to_owned(), task_id.to_owned())],
        body: None,
    }
}

/// Build the get-comment-by-ID request: one GET of the comment's own URL
/// with bearer authorization and nothing else.
pub fn get_comment_by_id_request(user: &TodoistUser, comment_id: &str) -> (r: HttpRequest)
    ensures
        r.method == Method::Get,
        r.url@ == "https://api.todoist.com/rest/v2/comments/"@ + comment_id@,
        spec_headers_auth(r.headers@, user.token_view()),
        r.query@.len() == 0,
        r.body is None,
{
    let mut url = "https://api.todoist.com/rest/v2/comments/".to_owned();
    url.append(comment_id);
    HttpRequest { method: Method::Get, url, headers: auth_headers(user), query: Vec::new(), body: None }
}

/// Build the delete-comment request: one DELETE of the comment's own URL
/// with bearer authorization and nothing else.
pub fn delete_comment_by_id_request(user: &TodoistUser, comment_id: &str) -> (r: HttpRequest)
    ensures
        r.method == Method::Delete,
        r.url@ == "https://api.todoist.com/rest/v2/comments/"@ + comment_id@,
        spec_headers_auth(r.headers@, user.token_view()),
        r.query@.len() == 0,
        r.body is None,
{
    let mut url = "https://api.todoist.com/rest/v2/comments/".to_owned();
    url.append(comment_id);
    HttpRequest { method: Method::Delete, url, headers: auth_headers(user), query: Vec::new(), body: None }
}

/// Build the update-comment request: one POST to the comment's own URL with
/// bearer authorization, JSON content type and a fresh request ID, whose
/// body is exactly the serialized `{content}` object.
pub fn update_comment_content_request(user: &TodoistUser, comment_id: &str, new_content: &str) -> (
    r: HttpRequest)
    ensures
        r.method == Method::Post,
        r.url@ == "https://api.todoist.com/rest/v2/comments/"@ + comment_id@,
        spec_headers_auth_json_id(r.headers@, user.token_view()),
        r.query@.len() == 0,
        r.body matches Some(b) && (exists|v: JsonValue|
            spec_single_string_member(v, "content"@, new_content@) && b@
                == #[trigger] spec_json_text(v)),
{
    let v = update_comment_body(new_content);
    let body = to_json_text(&v);
    let mut url = "https://api.todoist.com/rest/v2/comments/".to_owned();
    url.append(comment_id);
    HttpRequest { method: Method::Post, url, headers: json_body_headers(user), query: Vec::new(), body: Some(body) }
}

/// Get all the comments attached to the given project.
pub fn get_comments_in_project(user: &TodoistUser, project_id: &str) -> (r: Result<
    Vec<Comment>,
    TodoistAPIError,
>)
    ensures
        r matches Err(e) ==> !(e is RequestSerializationError),
{
    let req = get_comments_in_project_request(user, project_id);
    let outcome = send_request(&req);
    comments_from_response(outcome)
}

/// Get all the comments attached to the given task.
pub fn get_comments_in_task(user: &TodoistUser, task_id: &str) -> (r: Result<
    Vec<Comment>,
    TodoistAPIError,
>)
    ensures
        r matches Err(e) ==> !(e is RequestSerializationError),
{
    let req = get_comments_in_task_request(user, task_id);
    let outcome = send_request(&req);
    comments_from_response(outcome)
}

/// Get a single comment by its ID.
pub fn get_comment_by_id(user: &TodoistUser, comment_id: &str) -> (r: Result<
    Comment,
    TodoistAPIError,
>)
    ensures
        r matches Err(e) ==> !(e is RequestSerializationError),
{
    let req = get_comment_by_id_request(user, comment_id);
    let outcome = send_request(&req);
    comment_from_response(outcome)
}

/// Delete the comment with the given ID.
pub fn delete_comment_by_id(user: &TodoistUser, comment_id: &str) -> (r: Result<
    (),
    TodoistAPIError,
>)
    ensures
        r matches Err(e) ==> !(e is RequestSerializationError),
{
    let req = delete_comment_by_id_request(user, comment_id);
    let outcome = send_request(&req);
    get_204_from_reqwest_response(outcome)
}

/// Build the body of a comment-content update: exactly the key `content`.
pub fn update_comment_body(new_content: &str) -> (r: JsonValue)
    ensures
        spec_single_string_member(r, "content"@, new_content@),
{
    let mut pairs: Vec<(String, JsonValue)> = Vec::new();
    pairs.push(("content".to_owned(), JsonValue::Str(new_content.to_owned())));
    JsonValue::Object(pairs)
}

/// Update the text of the specified comment: the only change the service
/// allows after creation. Carries a fresh idempotency request ID so the
/// service can deduplicate retried writes.
pub fn update_comment_content(user: &TodoistUser, comment_id: &str, new_content: &str) -> (r:
    Result<Comment, TodoistAPIError>)
    ensures
        r matches Err(e) ==> !(e is RequestSerializationError),
{
    let req = update_comment_content_request(user, comment_id, new_content);
    let outcome = send_request(&req);
    comment_from_response(outcome)
}

} // verus!

//! Projects: the read model returned by the service, the write models for
//! creating and updating a project, and the request functions.

use vstd::prelude::*;
use crate::TodoistUser;
use crate::color::{Color, spec_color_str, spec_color_from_str};
use crate::err::{TodoistAPIError, bad_shape};
use crate::general::{
    HttpRequest,
    Method,
    TransportOutcome,
    auth_headers,
    get_204_from_reqwest_response,
    get_from_reqwest_response,
    json_body_headers,
    spec_headers_auth,
    spec_headers_auth_json_id,
    spec_is_success_code,
};
use crate::json::{
    JsonValue,
    spec_field_bool,
    spec_field_i32,
    spec_field_opt_string,
    spec_field_string,
    spec_json_text,
    spec_pairs_keys,
    field_bool,
    field_i32,
    field_opt_string,
    field_string,
    to_json_text,
};
use crate::strutil::str_eq;
use crate::transport::{send_request, spec_parsed_json};

verus! {

/// A project's view style: a plain list, or a board of sections as columns.
#[derive(Debug, Clone, Copy, PartialEq, Eq, Structural)]
pub enum ViewStyle {
    /// The "list" view, the default.
    List,
    /// The "board" view, displaying sections as Kanban columns.
    Board,
}

/// The canonical API string for each view style.
pub open spec fn spec_view_style_str(v: ViewStyle) -> Seq<char> {
    match v {
        ViewStyle::List => "list"@,
        ViewStyle::Board => "board"@,
    }
}

/// The view style denoted by an API string, or `None` for an unrecognized
/// string.
pub open spec fn spec_view_style_from_str(s: Seq<char>) -> Option<ViewStyle> {
    if s == "list"@ {
        Some(ViewStyle::List)
    } else if s == "board"@ {
        Some(ViewStyle::Board)
    } else {
        None
    }
}

impl ViewStyle {
    /// Convert the view style to its API string.
    pub fn to_str(&self) -> (r: &str)
        ensures
            r@ == spec_view_style_str(*self),
    {
        match self {
            ViewStyle::List => "list",
            ViewStyle::Board => "board",
        }
    }

    /// Convert an API string into a view style; an unrecognized string yields
    /// `None`, never a default.
    pub fn from_str(s: &str) -> (r: Option<ViewStyle>)
        ensures
            r == spec_view_style_from_str(s@),
    {
        if str_eq(s, "list") {
            Some(ViewStyle::List)
        } else if str_eq(s, "board") {
            Some(ViewStyle::Board)
        } else {
            None
        }
    }
}

/// Law: converting any view style to its API string and back recovers the
/// same view style.
pub proof fn lemma_view_style_round_trip(v: ViewStyle)
    ensures
        spec_view_style_from_str(spec_view_style_str(v)) == Some(v),
{
    reveal_strlit("list");
    reveal_strlit("board");
    assert("list"@.len() == 4);
    assert("board"@.len() == 5);
}

/// A Todoist project, as returned by the service. Never constructed by the
/// caller: instances come only from decoding a response.
#[derive(Debug)]
pub struct Project {
    pub id: String,
    pub name: String,
    pub color: Color,
    pub parent_id: Option<String>,
    pub order: i32,
    pub comment_count: i32,
    pub is_shared: bool,
    pub is_favorite: bool,
    pub is_inbox_project: bool,
    pub view_style: ViewStyle,
    pub url: String,
}

/// Whether `v` has the shape of a project object: every required field
/// present with its type, enum strings recognized, optional fields absent,
/// null or typed.
pub open spec fn spec_project_shape(v: JsonValue) -> bool {
    &&& spec_field_string(v, "id"@) is Some
    &&& spec_field_string(v, "name"@) is Some
    &&& (spec_field_string(v, "color"@) matches Some(c) && spec_color_from_str(c) is Some)
    &&& spec_field_opt_string(v, "parent_id"@) is Some
    &&& spec_field_i32(v, "order"@) is Some
    &&& spec_field_i32(v, "comment_count"@) is Some
    &&& spec_field_bool(v, "is_shared"@) is Some
    &&& spec_field_bool(v, "is_favorite"@) is Some
    &&& spec_field_bool(v, "is_inbox_project"@) is Some
    &&& (spec_field_string(v, "view_style"@) matches Some(s) && spec_view_style_from_str(s)
        is Some)
    &&& spec_field_string(v, "url"@) is Some
}

/// Whether the decoded project `p` carries exactly the fields of `v`.
pub open spec fn spec_project_matches(v: JsonValue, p: Project) -> bool {
    &&& spec_field_string(v, "id"@) == Some(p.id@)
    &&& spec_field_string(v, "name"@) == Some(p.name@)
    &&& (spec_field_string(v, "color"@) matches Some(c) && spec_color_from_str(c) == Some(p.color))
    &&& match p.parent_id {
        Some(pid) => spec_field_opt_string(v, "parent_id"@) == Some(Some(pid@)),
        None => spec_field_opt_string(v, "parent_id"@) == Some(None::<Seq<char>>),
    }
    &&& spec_field_i32(v, "order"@) == Some(p.order)
    &&& spec_field_i32(v, "comment_count"@) == Some(p.comment_count)
    &&& spec_field_bool(v, "is_shared"@) == Some(p.is_shared)
    &&& spec_field_bool(v, "is_favorite"@) == Some(p.is_favorite)
    &&& spec_field_bool(v, "is_inbox_project"@) == Some(p.is_inbox_project)
    &&& (spec_field_string(v, "view_style"@) matches Some(s) && spec_view_style_from_str(s)
        == Some(p.view_style))
    &&& spec_field_string(v, "url"@) == Some(p.url@)
}

/// Decode one project object; succeeds exactly on values of project shape.
pub fn project_from_json(v: &JsonValue) -> (r: Result<Project, TodoistAPIError>)
    ensures
        r is Ok <==> spec_project_shape(*v),
        r matches Ok(p) ==> spec_project_matches(*v, p),
        r matches Err(e) ==> e is ResponseDeserializationError,
{
    let id = match field_string(v, "id") {
        Some(x) => x,
        None => {
            return Err(bad_shape("project"));
        },
    };
    let name = match field_string(v, "name") {
        Some(x) => x,
        None => {
            return Err(bad_shape("project"));
        },
    };
    let color = match field_string(v, "color") {
        Some(x) => match Color::from_str(x.as_str()) {
            Some(c) => c,
            None => {
                return Err(bad_shape("project"));
            },
        },
        None => {
            return Err(bad_shape("project"));
        },
    };
    let parent_id = match field_opt_string(v, "parent_id") {
        Some(x) => x,
        None => {
            return Err(bad_shape("project"));
        },
    };
    let order = match field_i32(v, "order") {
        Some(x) => x,
        None => {
            return Err(bad_shape("project"));
        },
    };
    let comment_count = match field_i32(v, "comment_count") {
        Some(x) => x,
        None => {
            return Err(bad_shape("project"));
        },
    };
    let is_shared = match field_bool(v, "is_shared") {
        Some(x) => x,
        None => {
            return Err(bad_shape("project"));
        },
    };
    let is_favorite = match field_bool(v, "is_favorite") {
        Some(x) => x,
        None => {
            return Err(bad_shape("project"));
        },
    };
    let is_inbox_project = match field_bool(v, "is_inbox_project") {
        Some(x) => x,
        None => {
            return Err(bad_shape("project"));
        },
    };
    let view_style = match field_string(v, "view_style") {
        Some(x) => match ViewStyle::from_str(x.as_str()) {
            Some(w) => w,
            None => {
                return Err(bad_shape("project"));
            },
        },
        None => {
            return Err(bad_shape("project"));
        },
    };
    let url = match field_string(v, "url") {
        Some(x) => x,
        None => {
            return Err(bad_shape("project"));
        },
    };
    Ok(
        Project {
            id,
            name,
            color,
            parent_id,
            order,
            comment_count,
            is_shared,
            is_favorite,
            is_inbox_project,
            view_style,
            url,
        },
    )
}

/// Whether `v` is an array of project-shaped objects.
pub open spec fn spec_project_list_shape(v: JsonValue) -> bool {
    v matches JsonValue::Array(elems) && (forall|i: int|
        0 <= i < elems@.len() ==> spec_project_shape(#[trigger] elems@[i]))
}

/// Decode an array of project objects; succeeds exactly on arrays whose
/// every element has project shape, and decodes them in order.
#[verifier::loop_isolation(false)]
pub fn projects_from_json(v: &JsonValue) -> (r: Result<Vec<Project>, TodoistAPIError>)
    ensures
        r is Ok <==> spec_project_list_shape(*v),
        r matches Ok(list) ==> (*v matches JsonValue::Array(elems) && list@.len() == elems@.len()
            && (forall|i: int|
            0 <= i < elems@.len() ==> spec_project_matches(
                #[trigger] elems@[i],
                #[trigger] list@[i],
            ))),
        r matches Err(e) ==> e is ResponseDeserializationError,
{
    match v {
        JsonValue::Array(elems) => {
            let n = elems.len();
            let mut out: Vec<Project> = Vec::new();
            let mut i: usize = 0;
            while i < n
                invariant
                    i <= n,
                    out@.len() == i,
                    forall|k: int| 0 <= k < i ==> spec_project_shape(#[trigger] elems@[k]),
                    forall|k: int|
                        0 <= k < i ==> spec_project_matches(
                            #[trigger] elems@[k],
                            #[trigger] out@[k],
                        ),
                decreases n - i,
            {
                match project_from_json(&elems[i]) {
                    Ok(p) => out.push(p),
                    Err(e) => {
                        return Err(e);
                    },
                }
                i += 1;
            }
            Ok(out)
        },
        _ => Err(bad_shape("project list")),
    }
}

/// Interpret a whole exchange for a call that returns one project: the
/// transport, status and parse rules of [`get_from_reqwest_response`], then
/// the exact decode of [`project_from_json`]. On a success status whose
/// body parses to a value of project shape the result is `Ok` with exactly
/// that project; a body that does not parse, or parses to another shape, is
/// a deserialization error.
pub fn project_from_response(outcome: TransportOutcome) -> (r: Result<Project, TodoistAPIError>)
    ensures
        match outcome {
            TransportOutcome::Failure(d) => r matches Err(TodoistAPIError::TransportError(e))
                && e == d,
            TransportOutcome::Response(code, body) => {
                if spec_is_success_code(code) {
                    match spec_parsed_json(body@) {
                        Some(v) => {
                            if spec_project_shape(v) {
                                r matches Ok(p) && spec_project_matches(v, p)
                            } else {
                                r matches Err(e) && e is ResponseDeserializationError
                            }
                        },
                        None => r matches Err(e) && e is ResponseDeserializationError,
                    }
                } else {
                    r matches Err(TodoistAPIError::UnsuccessfulStatus(c, b)) && c == code && b
                        == body
                }
            },
        },
{
    match get_from_reqwest_response(outcome) {
        Ok(v) => project_from_json(&v),
        Err(e) => Err(e),
    }
}

/// Interpret a whole exchange for a call that returns a project list, with
/// the same rules element by element.
pub fn projects_from_response(outcome: TransportOutcome) -> (r: Result<
    Vec<Project>,
    TodoistAPIError,
>)
    ensures
        match outcome {
            TransportOutcome::Failure(d) => r matches Err(TodoistAPIError::TransportError(e))
                && e == d,
            TransportOutcome::Response(code, body) => {
                if spec_is_success_code(code) {
                    match spec_parsed_json(body@) {
                        Some(v) => {
                            if spec_project_list_shape(v) {
                                r matches Ok(list) && (v matches JsonValue::Array(elems)
                                    && list@.len() == elems@.len() && (forall|i: int|
                                    0 <= i < elems@.len() ==> spec_project_matches(
                                        #[trigger] elems@[i],
                                        #[trigger] list@[i],
                                    )))
                            } else {
                                r matches Err(e) && e is ResponseDeserializationError
                            }
                        },
                        None => r matches Err(e) && e is ResponseDeserializationError,
                    }
                } else {
                    r matches Err(TodoistAPIError::UnsuccessfulStatus(c, b)) && c == code && b
                        == body
                }
            },
        },
{
    match get_from_reqwest_response(outcome) {
        Ok(v) => projects_from_json(&v),
        Err(e) => Err(e),
    }
}

/// A new project to be created: only the name is required; a field left
/// unset is omitted from the request body and the service applies its
/// default.
#[derive(Debug)]
pub struct NewProject {
    /// The only required field is the name of the project.
    pub name: String,
    /// The ID of the parent project. If unset, this will be a top-level
    /// project.
    pub parent_id: Option<String>,
    /// The colour of the project.
    pub color: Option<Color>,
    /// Whether the project is a favourite.
    pub is_favorite: Option<bool>,
    /// The view style of the project.
    pub view_style: Option<ViewStyle>,
}

/// The exact ordered keys of a new-project request body: `name` always, each
/// optional key exactly when its field is set.
pub open spec fn spec_new_project_keys(p: NewProject) -> Seq<Seq<char>> {
    seq!["name"@] + (if p.parent_id is Some {
        seq!["parent_id"@]
    } else {
        Seq::<Seq<char>>::empty()
    }) + (if p.color is Some {
        seq!["color"@]
    } else {
        Seq::<Seq<char>>::empty()
    }) + (if p.is_favorite is Some {
        seq!["is_favorite"@]
    } else {
        Seq::<Seq<char>>::empty()
    }) + (if p.view_style is Some {
        seq!["view_style"@]
    } else {
        Seq::<Seq<char>>::empty()
    })
}

/// What each member of a new-project request body holds, by its key.
pub open spec fn spec_new_project_member_ok(p: NewProject, pair: (String, JsonValue)) -> bool {
    &&& pair.0@ == "name"@ ==> pair.1 == JsonValue::Str(p.name)
    &&& pair.0@ == "parent_id"@ ==> (p.parent_id matches Some(x) && pair.1 == JsonValue::Str(x))
    &&& pair.0@ == "color"@ ==> (p.color matches Some(c) && pair.1 matches JsonValue::Str(s) && s@
        == spec_color_str(c))
    &&& pair.0@ == "is_favorite"@ ==> (p.is_favorite matches Some(b) && pair.1 == JsonValue::Bool(
        b,
    ))
    &&& pair.0@ == "view_style"@ ==> (p.view_style matches Some(w) && pair.1 matches
        JsonValue::Str(s) && s@ == spec_view_style_str(w))
}

/// Law: a new-project request body holds the `name` key always, and each
/// optional key exactly when its field is set — a field left unset is
/// omitted, never emitted as null.
pub proof fn lemma_new_project_omits_unset(p: NewProject)
    ensures
        spec_new_project_keys(p).contains("name"@),
        spec_new_project_keys(p).contains("parent_id"@) <==> p.parent_id is Some,
        spec_new_project_keys(p).contains("color"@) <==> p.color is Some,
        spec_new_project_keys(p).contains("is_favorite"@) <==> p.is_favorite is Some,
        spec_new_project_keys(p).contains("view_style"@) <==> p.view_style is Some,
{
    reveal_strlit("name");
    reveal_strlit("parent_id");
    reveal_strlit("color");
    reveal_strlit("is_favorite");
    reveal_strlit("view_style");
    assert("name"@.len() == 4);
    assert("parent_id"@.len() == 9);
    assert("color"@.len() == 5);
    assert("is_favorite"@.len() == 11);
    assert("view_style"@.len() == 10);
    let ks = spec_new_project_keys(p);
    assert(ks[0] == "name"@);
    assert(forall|i: int|
        0 <= i < ks.len() ==> (#[trigger] ks[i]) == "name"@ || ks[i] == "parent_id"@ || ks[i]
            == "color"@ || ks[i] == "is_favorite"@ || ks[i] == "view_style"@);
    if p.parent_id is Some {
        assert(ks[1] == "parent_id"@);
    }
    if p.color is Some {
        assert(ks[if p.parent_id is Some {
            2int
        } else {
            1int
        }] == "color"@);
    }
    if p.is_favorite is Some {
        assert(ks[ks.len() - (if p.view_style is Some {
            2int
        } else {
            1int
        })] == "is_favorite"@);
    }
    if p.view_style is Some {
        assert(ks[ks.len() - 1] == "view_style"@);
    }
}

/// Law: a creation payload with only the name set serializes to a body whose
/// keys are exactly `name`.
pub proof fn lemma_new_project_minimal_keys(p: NewProject)
    requires
        p.parent_id is None,
        p.color is None,
        p.is_favorite is None,
        p.view_style is None,
    ensures
        spec_new_project_keys(p) == seq!["name"@],
{
    assert(spec_new_project_keys(p) =~= seq!["name"@]);
}

/// Whether `v` is the encoded request body of `p`: an object whose ordered
/// keys are exactly [`spec_new_project_keys`] and whose every member holds
/// its field's value ([`spec_new_project_member_ok`]).
pub open spec fn spec_new_project_encoding(p: NewProject, v: JsonValue) -> bool {
    v matches JsonValue::Object(pairs) && spec_pairs_keys(pairs@) == spec_new_project_keys(p) && (
    forall|i: int| 0 <= i < pairs@.len() ==> spec_new_project_member_ok(p, #[trigger] pairs@[i]))
}

impl NewProject {
    /// Build the request body: one member per set field, in a fixed order,
    /// with nothing emitted for a field left unset.
    pub fn to_json(&self) -> (r: JsonValue)
        ensures
            spec_new_project_encoding(*self, r),
    {
        proof {
            reveal_strlit("name");
            reveal_strlit("parent_id");
            reveal_strlit("color");
            reveal_strlit("is_favorite");
            reveal_strlit("view_style");
            assert("name"@.len() == 4);
            assert("parent_id"@.len() == 9);
            assert("color"@.len() == 5);
            assert("is_favorite"@.len() == 11);
            assert("view_style"@.len() == 10);
        }
        let mut pairs: Vec<(String, JsonValue)> = Vec::new();
        pairs.push(("name".to_owned(), JsonValue::Str(self.name.clone())));
        if let Some(x) = &self.parent_id {
            pairs.push(("parent_id".to_owned(), JsonValue::Str(x.clone())));
        }
        if let Some(c) = &self.color {
            pairs.push(("color".to_owned(), JsonValue::Str(c.to_str().to_owned())));
        }
        if let Some(b) = &self.is_favorite {
            pairs.push(("is_favorite".to_owned(), JsonValue::Bool(*b)));
        }
        if let Some(w) = &self.view_style {
            pairs.push(("view_style".to_owned(), JsonValue::Str(w.to_str().to_owned())));
        }
        assert(spec_pairs_keys(pairs@) =~= spec_new_project_keys(*self));
        JsonValue::Object(pairs)
    }

    /// Upload a new project with these attributes to the Todoist API.
    ///
    /// If successful, returns the full project as the service echoes it.
    pub fn upload(&self, user: &TodoistUser) -> (r: Result<Project, TodoistAPIError>)
        ensures
            r matches Err(e) ==> !(e is RequestSerializationError),
    {
        let req = new_project_request(user, self);
        let outcome = send_request(&req);
        project_from_response(outcome)
    }
}

/// An update to an existing project. Any field left unset is omitted from
/// the request body and stays unchanged; the project's parent cannot be
/// changed after creation.
#[derive(Debug)]
pub struct UpdateProject {
    /// The name of the project.
    pub name: Option<String>,
    /// The colour of the project.
    pub color: Option<Color>,
    /// Whether the project is a favourite.
    pub is_favorite: Option<bool>,
    /// The view style of the project.
    pub view_style: Option<ViewStyle>,
}

/// The exact ordered keys of an update-project request body: each key
/// exactly when its field is set.
pub open spec fn spec_update_project_keys(p: UpdateProject) -> Seq<Seq<char>> {
    (if p.name is Some {
        seq!["name"@]
    } else {
        Seq::<Seq<char>>::empty()
    }) + (if p.color is Some {
        seq!["color"@]
    } else {
        Seq::<Seq<char>>::empty()
    }) + (if p.is_favorite is Some {
        seq!["is_favorite"@]
    } else {
        Seq::<Seq<char>>::empty()
    }) + (if p.view_style is Some {
        seq!["view_style"@]
    } else {
        Seq::<Seq<char>>::empty()
    })
}

/// What each member of an update-project request body holds, by its key.
pub open spec fn spec_update_project_member_ok(p: UpdateProject, pair: (String, JsonValue)) -> bool {
    &&& pair.0@ == "name"@ ==> (p.name matches Some(x) && pair.1 == JsonValue::Str(x))
    &&& pair.0@ == "color"@ ==> (p.color matches Some(c) && pair.1 matches JsonValue::Str(s) && s@
        == spec_color_str(c))
    &&& pair.0@ == "is_favorite"@ ==> (p.is_favorite matches Some(b) && pair.1 == JsonValue::Bool(
        b,
    ))
    &&& pair.0@ == "view_style"@ ==> (p.view_style matches Some(w) && pair.1 matches
        JsonValue::Str(s) && s@ == spec_view_style_str(w))
}

/// Law: an update-project request body holds each key exactly when its field
/// is set — a field left unset is omitted, never emitted as null.
pub proof fn lemma_update_project_omits_unset(p: UpdateProject)
    ensures
        spec_update_project_keys(p).contains("name"@) <==> p.name is Some,
        spec_update_project_keys(p).contains("color"@) <==> p.color is Some,
        spec_update_project_keys(p).contains("is_favorite"@) <==> p.is_favorite is Some,
        spec_update_project_keys(p).contains("view_style"@) <==> p.view_style is Some,
{
    broadcast use vstd::seq_lib::lemma_seq_concat_contains_all_elements;

    reveal_strlit("name");
    reveal_strlit("color");
    reveal_strlit("is_favorite");
    reveal_strlit("view_style");
    assert("name"@.len() == 4);
    assert("color"@.len() == 5);
    assert("is_favorite"@.len() == 11);
    assert("view_style"@.len() == 10);
    assert(seq!["name"@][0] == "name"@);
    assert(seq!["color"@][0] == "color"@);
    assert(seq!["is_favorite"@][0] == "is_favorite"@);
    assert(seq!["view_style"@][0] == "view_style"@);
}

/// Whether `v` is the encoded request body of `p`: an object whose ordered
/// keys are exactly [`spec_update_project_keys`] and whose every member
/// holds its field's value ([`spec_update_project_member_ok`]).
pub open spec fn spec_update_project_encoding(p: UpdateProject, v: JsonValue) -> bool {
    v matches JsonValue::Object(pairs) && spec_pairs_keys(pairs@) == spec_update_project_keys(p)
        && (forall|i: int|
        0 <= i < pairs@.len() ==> spec_update_project_member_ok(p, #[trigger] pairs@[i]))
}

impl UpdateProject {
    /// Build the request body: one member per set field, in a fixed order,
    /// with nothing emitted for a field left unset.
    pub fn to_json(&self) -> (r: JsonValue)
        ensures
            spec_update_project_encoding(*self, r),
    {
        proof {
            reveal_strlit("name");
            reveal_strlit("color");
            reveal_strlit("is_favorite");
            reveal_strlit("view_style");
            assert("name"@.len() == 4);
            assert("color"@.len() == 5);
            assert("is_favorite"@.len() == 11);
            assert("view_style"@.len() == 10);
        }
        let mut pairs: Vec<(String, JsonValue)> = Vec::new();
        if let Some(x) = &self.name {
            pairs.push(("name".to_owned(), JsonValue::Str(x.clone())));
        }
        if let Some(c) = &self.color {
            pairs.push(("color".to_owned(), JsonValue::Str(c.to_str().to_owned())));
        }
        if let Some(b) = &self.is_favorite {
            pairs.push(("is_favorite".to_owned(), JsonValue::Bool(*b)));
        }
        if let Some(w) = &self.view_style {
            pairs.push(("view_style".to_owned(), JsonValue::Str(w.to_str().to_owned())));
        }
        assert(spec_pairs_keys(pairs@) =~= spec_update_project_keys(*self));
        JsonValue::Object(pairs)
    }

    /// Upload these changes to the project with the given ID.
    ///
    /// If successful, returns the full project as the service echoes it.
    pub fn upload(&self, user: &TodoistUser, id: &str) -> (r: Result<Project, TodoistAPIError>)
        ensures
            r matches Err(e) ==> !(e is RequestSerializationError),
    {
        let req = update_project_request(user, self, id);
        let outcome = send_request(&req);
        project_from_response(outcome)
    }
}


/// Build the list-projects request: one GET of the projects endpoint with
/// bearer authorization and nothing else.
pub fn get_projects_request(user: &TodoistUser) -> (r: HttpRequest)
    ensures
        r.method == Method::Get,
        r.url@ == "https://api.todoist.com/rest/v2/projects"@,
        spec_headers_auth(r.headers@, user.token_view()),
        r.query@.len() == 0,
        r.body is None,
{
    HttpRequest {
        method: Method::Get,
        url: "https://api.todoist.com/rest/v2/projects".to_owned(),
        headers: auth_headers(user),
        query: Vec::new(),
        body: None,
    }
}

/// Build the get-project-by-ID request: one GET of the project's own URL
/// with bearer authorization and nothing else.
pub fn get_project_by_id_request(user: &TodoistUser, id: &str) -> (r: HttpRequest)
    ensures
        r.method == Method::Get,
        r.url@ == "https://api.todoist.com/rest/v2/projects/"@ + id@,
        spec_headers_auth(r.headers@, user.token_view()),
        r.query@.len() == 0,
        r.body is None,
{
    let mut url = "https://api.todoist.com/rest/v2/projects/".to_owned();
    url.append(id);
    HttpRequest { method: Method::Get, url, headers: auth_headers(user), query: Vec::new(), body: None }
}

/// Build the delete-project request: one DELETE of the project's own URL
/// with bearer authorization and nothing else.
pub fn delete_project_by_id_request(user: &TodoistUser, id: &str) -> (r: HttpRequest)
    ensures
        r.method == Method::Delete,
        r.url@ == "https://api.todoist.com/rest/v2/projects/"@ + id@,
        spec_headers_auth(r.headers@, user.token_view()),
        r.query@.len() == 0,
        r.body is None,
{
    let mut url = "https://api.todoist.com/rest/v2/projects/".to_owned();
    url.append(id);
    HttpRequest { method: Method::Delete, url, headers: auth_headers(user), query: Vec::new(), body: None }
}

/// Build the create-project request: one POST to the projects endpoint with
/// bearer authorization, JSON content type and a fresh request ID, whose
/// body is exactly the serialized encoding of `p`.
pub fn new_project_request(user: &TodoistUser, p: &NewProject) -> (r: HttpRequest)
    ensures
        r.method == Method::Post,
        r.url@ == "https://api.todoist.com/rest/v2/projects"@,
        spec_headers_auth_json_id(r.headers@, user.token_view()),
        r.query@.len() == 0,
        r.body matches Some(b) && (exists|v: JsonValue|
            spec_new_project_encoding(*p, v) && b@ == #[trigger] spec_json_text(v)),
{
    let v = p.to_json();
    let body = to_json_text(&v);
    HttpRequest {
        method: Method::Post,
        url: "https://api.todoist.com/rest/v2/projects".to_owned(),
        headers: json_body_headers(user),
        query: Vec::new(),
        body: Some(body),
    }
}

/// Build the update-project request: one POST to the project's own URL with
/// bearer authorization, JSON content type and a fresh request ID, whose
/// body is exactly the serialized encoding of `p`.
pub fn update_project_request(user: &TodoistUser, p: &UpdateProject, id: &str) -> (r: HttpRequest)
    ensures
        r.method == Method::Post,
        r.url@ == "https://api.todoist.com/rest/v2/projects/"@ + id@,
        spec_headers_auth_json_id(r.headers@, user.token_view()),
        r.query@.len() == 0,
        r.body matches Some(b) && (exists|v: JsonValue|
            spec_update_project_encoding(*p, v) && b@ == #[trigger] spec_json_text(v)),
{
    let v = p.to_json();
    let body = to_json_text(&v);
    let mut url = "https://api.todoist.com/rest/v2/projects/".to_owned();
    url.append(id);
    HttpRequest { method: Method::Post, url, headers: json_body_headers(user), query: Vec::new(), body: Some(body) }
}

/// Return a list of all the user's projects.
pub fn get_projects(user: &TodoistUser) -> (r: Result<Vec<Project>, TodoistAPIError>)
    ensures
        r matches Err(e) ==> !(e is RequestSerializationError),
{
    let req = get_projects_request(user);
    let outcome = send_request(&req);
    projects_from_response(outcome)
}

/// Return a single project from its ID.
pub fn get_project_by_id(user: &TodoistUser, id: &str) -> (r: Result<Project, TodoistAPIError>)
    ensures
        r matches Err(e) ==> !(e is RequestSerializationError),
{
    let req = get_project_by_id_request(user, id);
    let outcome = send_request(&req);
    project_from_response(outcome)
}

/// Delete the project with the given ID. Returns `Ok(())` if successful.
pub fn delete_project_by_id(user: &TodoistUser, id: &str) -> (r: Result<(), TodoistAPIError>)
    ensures
        r matches Err(e) ==> !(e is RequestSerializationError),
{
    let req = delete_project_by_id_request(user, id);
    let outcome = send_request(&req);
    get_204_from_reqwest_response(outcome)
}

} // verus!

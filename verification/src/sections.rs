//! Sections live within projects. Only a name, a project ID and an order
//! fully describe one; after creation only the name can be changed.

use vstd::prelude::*;
use crate::TodoistUser;
use crate::err::{TodoistAPIError, bad_shape};
use crate::general::{
    HttpRequest,
    Method,
    TransportOutcome,
    auth_headers,
    get_204_from_reqwest_response,
    get_from_reqwest_response,
    json_body_headers,
    spec_headers_auth,
    spec_headers_auth_json_id,
    spec_is_success_code,
};
use crate::json::{
    JsonValue,
    spec_field_i32,
    spec_field_string,
    spec_json_text,
    spec_pairs_keys,
    spec_single_string_member,
    field_i32,
    field_string,
    to_json_text,
};
use crate::transport::{send_request, spec_parsed_json};

verus! {

/// A section, as returned by the service.
#[derive(Debug)]
pub struct Section {
    pub id: String,
    pub project_id: String,
    pub order: i32,
    pub name: String,
}

/// Whether `v` has the shape of a section object.
pub open spec fn spec_section_shape(v: JsonValue) -> bool {
    &&& spec_field_string(v, "id"@) is Some
    &&& spec_field_string(v, "project_id"@) is Some
    &&& spec_field_i32(v, "order"@) is Some
    &&& spec_field_string(v, "name"@) is Some
}

/// Whether the decoded section `s` carries exactly the fields of `v`.
pub open spec fn spec_section_matches(v: JsonValue, s: Section) -> bool {
    &&& spec_field_string(v, "id"@) == Some(s.id@)
    &&& spec_field_string(v, "project_id"@) == Some(s.project_id@)
    &&& spec_field_i32(v, "order"@) == Some(s.order)
    &&& spec_field_string(v, "name"@) == Some(s.name@)
}

/// Decode one section object; succeeds exactly on values of section shape.
pub fn section_from_json(v: &JsonValue) -> (r: Result<Section, TodoistAPIError>)
    ensures
        r is Ok <==> spec_section_shape(*v),
        r matches Ok(s) ==> spec_section_matches(*v, s),
        r matches Err(e) ==> e is ResponseDeserializationError,
{
    let id = match field_string(v, "id") {
        Some(x) => x,
        None => {
            return Err(bad_shape("section"));
        },
    };
    let project_id = match field_string(v, "project_id") {
        Some(x) => x,
        None => {
            return Err(bad_shape("section"));
        },
    };
    let order = match field_i32(v, "order") {
        Some(x) => x,
        None => {
            return Err(bad_shape("section"));
        },
    };
    let name = match field_string(v, "name") {
        Some(x) => x,
        None => {
            return Err(bad_shape("section"));
        },
    };
    Ok(Section { id, project_id, order, name })
}

/// Whether `v` is an array of section-shaped objects.
pub open spec fn spec_section_list_shape(v: JsonValue) -> bool {
    v matches JsonValue::Array(elems) && (forall|i: int|
        0 <= i < elems@.len() ==> spec_section_shape(#[trigger] elems@[i]))
}

/// Decode an array of section objects; succeeds exactly on arrays whose
/// every element has section shape, and decodes them in order.
#[verifier::loop_isolation(false)]
pub fn sections_from_json(v: &JsonValue) -> (r: Result<Vec<Section>, TodoistAPIError>)
    ensures
        r is Ok <==> spec_section_list_shape(*v),
        r matches Ok(list) ==> (*v matches JsonValue::Array(elems) && list@.len() == elems@.len()
            && (forall|i: int|
            0 <= i < elems@.len() ==> spec_section_matches(
                #[trigger] elems@[i],
                #[trigger] list@[i],
            ))),
        r matches Err(e) ==> e is ResponseDeserializationError,
{
    match v {
        JsonValue::Array(elems) => {
            let n = elems.len();
            let mut out: Vec<Section> = Vec::new();
            let mut i: usize = 0;
            while i < n
                invariant
                    i <= n,
                    out@.len() == i,
                    forall|k: int| 0 <= k < i ==> spec_section_shape(#[trigger] elems@[k]),
                    forall|k: int|
                        0 <= k < i ==> spec_section_matches(
                            #[trigger] elems@[k],
                            #[trigger] out@[k],
                        ),
                decreases n - i,
            {
                match section_from_json(&elems[i]) {
                    Ok(s) => out.push(s),
                    Err(e) => {
                        return Err(e);
                    },
                }
                i += 1;
            }
            Ok(out)
        },
        _ => Err(bad_shape("section list")),
    }
}

/// Interpret a whole exchange for a call that returns one section: the
/// transport, status and parse rules of [`get_from_reqwest_response`], then
/// the exact decode of [`section_from_json`].
pub fn section_from_response(outcome: TransportOutcome) -> (r: Result<Section, TodoistAPIError>)
    ensures
        match outcome {
            TransportOutcome::Failure(d) => r matches Err(TodoistAPIError::TransportError(e))
                && e == d,
            TransportOutcome::Response(code, body) => {
                if spec_is_success_code(code) {
                    match spec_parsed_json(body@) {
                        Some(v) => {
                            if spec_section_shape(v) {
                                r matches Ok(x) && spec_section_matches(v, x)
                            } else {
                                r matches Err(e) && e is ResponseDeserializationError
                            }
                        },
                        None => r matches Err(e) && e is ResponseDeserializationError,
                    }
                } else {
                    r matches Err(TodoistAPIError::UnsuccessfulStatus(c, b)) && c == code && b
                        == body
                }
            },
        },
{
    match get_from_reqwest_response(outcome) {
        Ok(v) => section_from_json(&v),
        Err(e) => Err(e),
    }
}

/// Interpret a whole exchange for a call that returns a section list: the
/// transport, status and parse rules of [`get_from_reqwest_response`], then
/// the exact decode of [`sections_from_json`].
pub fn sections_from_response(outcome: TransportOutcome) -> (r: Result<Vec<Section>, TodoistAPIError>)
    ensures
        match outcome {
            TransportOutcome::Failure(d) => r matches Err(TodoistAPIError::TransportError(e))
                && e == d,
            TransportOutcome::Response(code, body) => {
                if spec_is_success_code(code) {
                    match spec_parsed_json(body@) {
                        Some(v) => {
                            if spec_section_list_shape(v) {
                                r matches Ok(list) && (v matches JsonValue::Array(elems)
                                    && list@.len() == elems@.len() && (forall|i: int|
                                    0 <= i < elems@.len() ==> spec_section_matches(
                                        #[trigger] elems@[i],
                                        #[trigger] list@[i],
                                    )))
                            } else {
                                r matches Err(e) && e is ResponseDeserializationError
                            }
                        },
                        None => r matches Err(e) && e is ResponseDeserializationError,
                    }
                } else {
                    r matches Err(TodoistAPIError::UnsuccessfulStatus(c, b)) && c == code && b
                        == body
                }
            },
        },
{
    match get_from_reqwest_response(outcome) {
        Ok(v) => sections_from_json(&v),
        Err(e) => Err(e),
    }
}

/// A new section to be created: a name and the project it lives in are
/// required; with no order given the service appends the section at the
/// bottom of the project.
#[derive(Debug)]
pub struct NewSection {
    /// The name of the section.
    pub name: String,
    /// The project the section belongs to.
    pub project_id: String,
    /// The section's position among its project's sections.
    pub order: Option<i32>,
}

/// The exact ordered keys of a new-section request body: `name` and
/// `project_id` always, `order` exactly when set.
pub open spec fn spec_new_section_keys(s: NewSection) -> Seq<Seq<char>> {
    seq!["name"@, "project_id"@] + (if s.order is Some {
        seq!["order"@]
    } else {
        Seq::<Seq<char>>::empty()
    })
}

/// What each member of a new-section request body holds, by its key.
pub open spec fn spec_new_section_member_ok(s: NewSection, pair: (String, JsonValue)) -> bool {
    &&& pair.0@ == "name"@ ==> pair.1 == JsonValue::Str(s.name)
    &&& pair.0@ == "project_id"@ ==> pair.1 == JsonValue::Str(s.project_id)
    &&& pair.0@ == "order"@ ==> (s.order matches Some(o) && pair.1 == JsonValue::Int(o as i64))
}

/// Whether `v` is the encoded request body of `s`: an object whose ordered
/// keys are exactly [`spec_new_section_keys`] and whose every member holds
/// its field's value ([`spec_new_section_member_ok`]).
pub open spec fn spec_new_section_encoding(s: NewSection, v: JsonValue) -> bool {
    v matches JsonValue::Object(pairs) && spec_pairs_keys(pairs@) == spec_new_section_keys(s) && (
    forall|i: int| 0 <= i < pairs@.len() ==> spec_new_section_member_ok(s, #[trigger] pairs@[i]))
}

/// Law: a new-section request body holds the `name` and `project_id` keys
/// always, and the `order` key exactly when that field is set — a field left
/// unset is omitted, never emitted as null.
pub proof fn lemma_new_section_omits_unset(s: NewSection)
    ensures
        spec_new_section_keys(s).contains("name"@),
        spec_new_section_keys(s).contains("project_id"@),
        spec_new_section_keys(s).contains("order"@) <==> s.order is Some,
{
    broadcast use vstd::seq_lib::lemma_seq_concat_contains_all_elements;

    reveal_strlit("name");
    reveal_strlit("project_id");
    reveal_strlit("order");
    assert("name"@.len() == 4);
    assert("project_id"@.len() == 10);
    assert("order"@.len() == 5);
    assert(seq!["name"@, "project_id"@][0] == "name"@);
    assert(seq!["name"@, "project_id"@][1] == "project_id"@);
    assert(seq!["order"@][0] == "order"@);
}

impl NewSection {
    /// Build the request body: one member per set field, in a fixed order,
    /// with nothing emitted for a field left unset.
    pub fn to_json(&self) -> (r: JsonValue)
        ensures
            spec_new_section_encoding(*self, r),
    {
        proof {
            reveal_strlit("name");
            reveal_strlit("project_id");
            reveal_strlit("order");
            assert("name"@.len() == 4);
            assert("project_id"@.len() == 10);
            assert("order"@.len() == 5);
        }
        let mut pairs: Vec<(String, JsonValue)> = Vec::new();
        pairs.push(("name".to_owned(), JsonValue::Str(self.name.clone())));
        pairs.push(("project_id".to_owned(), JsonValue::Str(self.project_id.clone())));
        if let Some(o) = &self.order {
            pairs.push(("order".to_owned(), JsonValue::Int(*o as i64)));
        }
        assert(spec_pairs_keys(pairs@) =~= spec_new_section_keys(*self));
        JsonValue::Object(pairs)
    }

    /// Upload the new section to the Todoist API. Returns the full section
    /// as the service echoes it.
    pub fn upload(&self, user: &TodoistUser) -> (r: Result<Section, TodoistAPIError>)
        ensures
            r matches Err(e) ==> !(e is RequestSerializationError),
    {
        let req = new_section_request(user, self);
        let outcome = send_request(&req);
        section_from_response(outcome)
    }
}


/// Build the list-sections request: one GET of the sections endpoint with
/// bearer authorization and nothing else.
pub fn get_all_sections_request(user: &TodoistUser) -> (r: HttpRequest)
    ensures
        r.method == Method::Get,
        r.url@ == "https://api.todoist.com/rest/v2/sections"@,
        spec_headers_auth(r.headers@, user.token_view()),
        r.query@.len() == 0,
        r.body is None,
{
    HttpRequest {
        method: Method::Get,
        url: "https://api.todoist.com/rest/v2/sections".to_owned(),
        headers: auth_headers(user),
        query: Vec::new(),
        body: None,
    }
}

/// Build the list-sections-in-project request: one GET of the sections
/// endpoint with bearer authorization and the project carried as the single
/// `project_id` query parameter.
pub fn get_all_sections_in_project_request(user: &TodoistUser, project_id: &str) -> (r:
    HttpRequest)
    ensures
        r.method == Method::Get,
        r.url@ == "https://api.todoist.com/rest/v2/sections"@,
        spec_headers_auth(r.headers@, user.token_view()),
        r.query@.len() == 1 && r.query@[0].0@ == "project_id"@ && r.query@[0].1@ == project_id@,
        r.body is None,
{
    HttpRequest {
        method: Method::Get,
        url: "https://api.todoist.com/rest/v2/sections".to_owned(),
        headers: auth_headers(user),
        query: vec![("project_id".to_owned(), project_id.to_owned())],
        body: None,
    }
}

/// Build the get-section-by-ID request: one GET of the section's own URL
/// with bearer authorization and nothing else.
pub fn get_section_by_id_request(user: &TodoistUser, id: &str) -> (r: HttpRequest)
    ensures
        r.method == Method::Get,
        r.url@ == "https://api.todoist.com/rest/v2/sections/"@ + id@,
        spec_headers_auth(r.headers@, user.token_view()),
        r.query@.len() == 0,
        r.body is None,
{
    let mut url = "https://api.todoist.com/rest/v2/sections/".to_owned();
    url.append(id);
    HttpRequest { method: Method::Get, url, headers: auth_headers(user), query: Vec::new(), body: None }
}

/// Build the delete-section request: one DELETE of the section's own URL
/// with bearer authorization and nothing else.
pub fn delete_section_by_id_request(user: &TodoistUser, id: &str) -> (r: HttpRequest)
    ensures
        r.method == Method::Delete,
        r.url@ == "https://api.todoist.com/rest/v2/sections/"@ + id@,
        spec_headers_auth(r.headers@, user.token_view()),
        r.query@.len() == 0,
        r.body is None,
{
    let mut url = "https://api.todoist.com/rest/v2/sections/".to_owned();
    url.append(id);
    HttpRequest { method: Method::Delete, url, headers: auth_headers(user), query: Vec::new(), body: None }
}

/// Build the create-section request: one POST to the sections endpoint with
/// bearer authorization, JSON content type and a fresh request ID, whose
/// body is exactly the serialized encoding of `s`.
pub fn new_section_request(user: &TodoistUser, s: &NewSection) -> (r: HttpRequest)
    ensures
        r.method == Method::Post,
        r.url@ == "https://api.todoist.com/rest/v2/sections"@,
        spec_headers_auth_json_id(r.headers@, user.token_view()),
        r.query@.len() == 0,
        r.body matches Some(b) && (exists|v: JsonValue|
            spec_new_section_encoding(*s, v) && b@ == #[trigger] spec_json_text(v)),
{
    let v = s.to_json();
    let body = to_json_text(&v);
    HttpRequest {
        method: Method::Post,
        url: "https://api.todoist.com/rest/v2/sections".to_owned(),
        headers: json_body_headers(user),
        query: Vec::new(),
        body: Some(body),
    }
}

/// Build the rename-section request: one POST to the section's own URL with
/// bearer authorization, JSON content type and a fresh request ID, whose
/// body is exactly the serialized `{name}` object.
pub fn update_section_request(user: &TodoistUser, id: &str, new_name: &str) -> (r: HttpRequest)
    ensures
        r.method == Method::Post,
        r.url@ == "https://api.todoist.com/rest/v2/sections/"@ + id@,
        spec_headers_auth_json_id(r.headers@, user.token_view()),
        r.query@.len() == 0,
        r.body matches Some(b) && (exists|v: JsonValue|
            spec_single_string_member(v, "name"@, new_name@) && b@
                == #[trigger] spec_json_text(v)),
{
    let v = update_section_body(new_name);
    let body = to_json_text(&v);
    let mut url = "https://api.todoist.com/rest/v2/sections/".to_owned();
    url.append(id);
    HttpRequest { method: Method::Post, url, headers: json_body_headers(user), query: Vec::new(), body: Some(body) }
}

/// Return a list of all sections in every project.
pub fn get_all_sections(user: &TodoistUser) -> (r: Result<Vec<Section>, TodoistAPIError>)
    ensures
        r matches Err(e) ==> !(e is RequestSerializationError),
{
    let req = get_all_sections_request(user);
    let outcome = send_request(&req);
    sections_from_response(outcome)
}

/// Return a list of all sections in the given project.
pub fn get_all_sections_in_project(user: &TodoistUser, project_id: &str) -> (r: Result<
    Vec<Section>,
    TodoistAPIError,
>)
    ensures
        r matches Err(e) ==> !(e is RequestSerializationError),
{
    let req = get_all_sections_in_project_request(user, project_id);
    let outcome = send_request(&req);
    sections_from_response(outcome)
}

/// Get an individual section by its ID.
pub fn get_section_by_id(user: &TodoistUser, id: &str) -> (r: Result<Section, TodoistAPIError>)
    ensures
        r matches Err(e) ==> !(e is RequestSerializationError),
{
    let req = get_section_by_id_request(user, id);
    let outcome = send_request(&req);
    section_from_response(outcome)
}

/// Delete the section with the given ID.
pub fn delete_section_by_id(user: &TodoistUser, id: &str) -> (r: Result<(), TodoistAPIError>)
    ensures
        r matches Err(e) ==> !(e is RequestSerializationError),
{
    let req = delete_section_by_id_request(user, id);
    let outcome = send_request(&req);
    get_204_from_reqwest_response(outcome)
}

/// Build the body of a section rename: exactly the key `name`.
pub fn update_section_body(new_name: &str) -> (r: JsonValue)
    ensures
        spec_single_string_member(r, "name"@, new_name@),
{
    let mut pairs: Vec<(String, JsonValue)> = Vec::new();
    pairs.push(("name".to_owned(), JsonValue::Str(new_name.to_owned())));
    JsonValue::Object(pairs)
}

/// Change the section's name: the only update the service allows on a
/// section. Returns the full section as the service echoes it.
pub fn update_section(user: &TodoistUser, id: &str, new_name: &str) -> (r: Result<
    Section,
    TodoistAPIError,
>)
    ensures
        r matches Err(e) ==> !(e is RequestSerializationError),
{
    let req = update_section_request(user, id, new_name);
    let outcome = send_request(&req);
    section_from_response(outcome)
}

} // verus!

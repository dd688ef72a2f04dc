//! Labels: the personal-label read model, the write models for creating and
//! updating a label, and the request functions, including the shared-label
//! operations that work on bare strings.

use vstd::prelude::*;
use crate::TodoistUser;
use crate::color::{Color, spec_color_str, spec_color_from_str};
use crate::err::{TodoistAPIError, bad_shape};
use crate::general::{
    HttpRequest,
    Method,
    TransportOutcome,
    auth_headers,
    get_204_from_reqwest_response,
    get_from_reqwest_response,
    json_body_headers,
    spec_headers_auth,
    spec_headers_auth_json_id,
    spec_is_success_code,
};
use crate::json::{
    JsonValue,
    spec_field_bool,
    spec_field_i32,
    spec_field_string,
    spec_json_text,
    spec_pairs_keys,
    spec_single_string_member,
    spec_string_list,
    spec_string_list_shape,
    field_bool,
    field_i32,
    field_string,
    json_string_list,
    to_json_text,
};
use crate::transport::{send_request, spec_parsed_json};

verus! {

/// A personal label, as returned by the service.
#[derive(Debug)]
pub struct Label {
    pub id: String,
    pub name: String,
    pub color: Color,
    pub order: i32,
    pub is_favorite: bool,
}

/// Whether `v` has the shape of a label object.
pub open spec fn spec_label_shape(v: JsonValue) -> bool {
    &&& spec_field_string(v, "id"@) is Some
    &&& spec_field_string(v, "name"@) is Some
    &&& (spec_field_string(v, "color"@) matches Some(c) && spec_color_from_str(c) is Some)
    &&& spec_field_i32(v, "order"@) is Some
    &&& spec_field_bool(v, "is_favorite"@) is Some
}

/// Whether the decoded label `l` carries exactly the fields of `v`.
pub open spec fn spec_label_matches(v: JsonValue, l: Label) -> bool {
    &&& spec_field_string(v, "id"@) == Some(l.id@)
    &&& spec_field_string(v, "name"@) == Some(l.name@)
    &&& (spec_field_string(v, "color"@) matches Some(c) && spec_color_from_str(c) == Some(l.color))
    &&& spec_field_i32(v, "order"@) == Some(l.order)
    &&& spec_field_bool(v, "is_favorite"@) == Some(l.is_favorite)
}

/// Decode one label object; succeeds exactly on values of label shape.
pub fn label_from_json(v: &JsonValue) -> (r: Result<Label, TodoistAPIError>)
    ensures
        r is Ok <==> spec_label_shape(*v),
        r matches Ok(l) ==> spec_label_matches(*v, l),
        r matches Err(e) ==> e is ResponseDeserializationError,
{
    let id = match field_string(v, "id") {
        Some(x) => x,
        None => {
            return Err(bad_shape("label"));
        },
    };
    let name = match field_string(v, "name") {
        Some(x) => x,
        None => {
            return Err(bad_shape("label"));
        },
    };
    let color = match field_string(v, "color") {
        Some(x) => match Color::from_str(x.as_str()) {
            Some(c) => c,
            None => {
                return Err(bad_shape("label"));
            },
        },
        None => {
            return Err(bad_shape("label"));
        },
    };
    let order = match field_i32(v, "order") {
        Some(x) => x,
        None => {
            return Err(bad_shape("label"));
        },
    };
    let is_favorite = match field_bool(v, "is_favorite") {
        Some(x) => x,
        None => {
            return Err(bad_shape("label"));
        },
    };
    Ok(Label { id, name, color, order, is_favorite })
}

/// Whether `v` is an array of label-shaped objects.
pub open spec fn spec_label_list_shape(v: JsonValue) -> bool {
    v matches JsonValue::Array(elems) && (forall|i: int|
        0 <= i < elems@.len() ==> spec_label_shape(#[trigger] elems@[i]))
}

/// Decode an array of label objects; succeeds exactly on arrays whose every
/// element has label shape, and decodes them in order.
#[verifier::loop_isolation(false)]
pub fn labels_from_json(v: &JsonValue) -> (r: Result<Vec<Label>, TodoistAPIError>)
    ensures
        r is Ok <==> spec_label_list_shape(*v),
        r matches Ok(list) ==> (*v matches JsonValue::Array(elems) && list@.len() == elems@.len()
            && (forall|i: int|
            0 <= i < elems@.len() ==> spec_label_matches(
                #[trigger] elems@[i],
                #[trigger] list@[i],
            ))),
        r matches Err(e) ==> e is ResponseDeserializationError,
{
    match v {
        JsonValue::Array(elems) => {
            let n = elems.len();
            let mut out: Vec<Label> = Vec::new();
            let mut i: usize = 0;
            while i < n
                invariant
                    i <= n,
                    out@.len() == i,
                    forall|k: int| 0 <= k < i ==> spec_label_shape(#[trigger] elems@[k]),
                    forall|k: int|
                        0 <= k < i ==> spec_label_matches(#[trigger] elems@[k], #[trigger] out@[k]),
                decreases n - i,
            {
                match label_from_json(&elems[i]) {
                    Ok(l) => out.push(l),
                    Err(e) => {
                        return Err(e);
                    },
                }
                i += 1;
            }
            Ok(out)
        },
        _ => Err(bad_shape("label list")),
    }
}

/// Interpret a whole exchange for a call that returns one label: the
/// transport, status and parse rules of [`get_from_reqwest_response`], then
/// the exact decode of [`label_from_json`].
pub fn label_from_response(outcome: TransportOutcome) -> (r: Result<Label, TodoistAPIError>)
    ensures
        match outcome {
            TransportOutcome::Failure(d) => r matches Err(TodoistAPIError::TransportError(e))
                && e == d,
            TransportOutcome::Response(code, body) => {
                if spec_is_success_code(code) {
                    match spec_parsed_json(body@) {
                        Some(v) => {
                            if spec_label_shape(v) {
                                r matches Ok(x) && spec_label_matches(v, x)
                            } else {
                                r matches Err(e) && e is ResponseDeserializationError
                            }
                        },
                        None => r matches Err(e) && e is ResponseDeserializationError,
                    }
                } else {
                    r matches Err(TodoistAPIError::UnsuccessfulStatus(c, b)) && c == code && b
                        == body
                }
            },
        },
{
    match get_from_reqwest_response(outcome) {
        Ok(v) => label_from_json(&v),
        Err(e) => Err(e),
    }
}

/// Interpret a whole exchange for a call that returns a label list: the
/// transport, status and parse rules of [`get_from_reqwest_response`], then
/// the exact decode of [`labels_from_json`].
pub fn labels_from_response(outcome: TransportOutcome) -> (r: Result<Vec<Label>, TodoistAPIError>)
    ensures
        match outcome {
            TransportOutcome::Failure(d) => r matches Err(TodoistAPIError::TransportError(e))
                && e == d,
            TransportOutcome::Response(code, body) => {
                if spec_is_success_code(code) {
                    match spec_parsed_json(body@) {
                        Some(v) => {
                            if spec_label_list_shape(v) {
                                r matches Ok(list) && (v matches JsonValue::Array(elems)
                                    && list@.len() == elems@.len() && (forall|i: int|
                                    0 <= i < elems@.len() ==> spec_label_matches(
                                        #[trigger] elems@[i],
                                        #[trigger] list@[i],
                                    )))
                            } else {
                                r matches Err(e) && e is ResponseDeserializationError
                            }
                        },
                        None => r matches Err(e) && e is ResponseDeserializationError,
                    }
                } else {
                    r matches Err(TodoistAPIError::UnsuccessfulStatus(c, b)) && c == code && b
                        == body
                }
            },
        },
{
    match get_from_reqwest_response(outcome) {
        Ok(v) => labels_from_json(&v),
        Err(e) => Err(e),
    }
}

/// Interpret a whole exchange for a call that returns the shared-label list of bare strings: the
/// transport, status and parse rules of [`get_from_reqwest_response`], then
/// the exact decode of [`shared_labels_from_json`].
pub fn shared_labels_from_response(outcome: TransportOutcome) -> (r: Result<Vec<String>, TodoistAPIError>)
    ensures
        match outcome {
            TransportOutcome::Failure(d) => r matches Err(TodoistAPIError::TransportError(e))
                && e == d,
            TransportOutcome::Response(code, body) => {
                if spec_is_success_code(code) {
                    match spec_parsed_json(body@) {
                        Some(v) => {
                            if spec_string_list_shape(v) {
                                r matches Ok(list) && list@.len() == spec_string_list(v).len()
                                    && (forall|i: int|
                                    0 <= i < list@.len() ==> list@[i]@ == spec_string_list(v)[i])
                            } else {
                                r matches Err(e) && e is ResponseDeserializationError
                            }
                        },
                        None => r matches Err(e) && e is ResponseDeserializationError,
                    }
                } else {
                    r matches Err(TodoistAPIError::UnsuccessfulStatus(c, b)) && c == code && b
                        == body
                }
            },
        },
{
    match get_from_reqwest_response(outcome) {
        Ok(v) => shared_labels_from_json(&v),
        Err(e) => Err(e),
    }
}

/// A new label to be created: only the name is required; a field left unset
/// is omitted from the request body and the service applies its default.
#[derive(Debug)]
pub struct NewLabel {
    /// The only required field is the name of the label.
    pub name: String,
    /// The label's position in the label list.
    pub order: Option<i32>,
    /// The colour of the label.
    pub color: Option<Color>,
    /// Whether the label is a favourite.
    pub is_favorite: Option<bool>,
}

/// The exact ordered keys of a new-label request body: `name` always, each
/// optional key exactly when its field is set.
pub open spec fn spec_new_label_keys(l: NewLabel) -> Seq<Seq<char>> {
    seq!["name"@] + (if l.order is Some {
        seq!["order"@]
    } else {
        Seq::<Seq<char>>::empty()
    }) + (if l.color is Some {
        seq!["color"@]
    } else {
        Seq::<Seq<char>>::empty()
    }) + (if l.is_favorite is Some {
        seq!["is_favorite"@]
    } else {
        Seq::<Seq<char>>::empty()
    })
}

/// What each member of a new-label request body holds, by its key.
pub open spec fn spec_new_label_member_ok(l: NewLabel, pair: (String, JsonValue)) -> bool {
    &&& pair.0@ == "name"@ ==> pair.1 == JsonValue::Str(l.name)
    &&& pair.0@ == "order"@ ==> (l.order matches Some(o) && pair.1 == JsonValue::Int(o as i64))
    &&& pair.0@ == "color"@ ==> (l.color matches Some(c) && pair.1 matches JsonValue::Str(s) && s@
        == spec_color_str(c))
    &&& pair.0@ == "is_favorite"@ ==> (l.is_favorite matches Some(b) && pair.1 == JsonValue::Bool(
        b,
    ))
}

proof fn lemma_label_keys_distinct()
    ensures
        "name"@ != "order"@,
        "name"@ != "color"@,
        "name"@ != "is_favorite"@,
        "order"@ != "color"@,
        "order"@ != "is_favorite"@,
        "color"@ != "is_favorite"@,
{
    reveal_strlit("name");
    reveal_strlit("order");
    reveal_strlit("color");
    reveal_strlit("is_favorite");
    assert("name"@.len() == 4);
    assert("order"@.len() == 5);
    assert("color"@.len() == 5);
    assert("is_favorite"@.len() == 11);
    assert("order"@[0] == 'o');
    assert("color"@[0] == 'c');
}

/// Law: a new-label request body holds the `name` key always, and each
/// optional key exactly when its field is set — a field left unset is
/// omitted, never emitted as null.
pub proof fn lemma_new_label_omits_unset(l: NewLabel)
    ensures
        spec_new_label_keys(l).contains("name"@),
        spec_new_label_keys(l).contains("order"@) <==> l.order is Some,
        spec_new_label_keys(l).contains("color"@) <==> l.color is Some,
        spec_new_label_keys(l).contains("is_favorite"@) <==> l.is_favorite is Some,
{
    broadcast use vstd::seq_lib::lemma_seq_concat_contains_all_elements;

    lemma_label_keys_distinct();
    assert(seq!["name"@][0] == "name"@);
    assert(seq!["order"@][0] == "order"@);
    assert(seq!["color"@][0] == "color"@);
    assert(seq!["is_favorite"@][0] == "is_favorite"@);
}

/// Law: a creation payload with only the name set serializes to a body whose
/// keys are exactly `name`.
pub proof fn lemma_new_label_minimal_keys(l: NewLabel)
    requires
        l.order is None,
        l.color is None,
        l.is_favorite is None,
    ensures
        spec_new_label_keys(l) == seq!["name"@],
{
    assert(spec_new_label_keys(l) =~= seq!["name"@]);
}

/// Law: the request body built for a label with only a name set serializes
/// to exactly `{"name":"<value>"}` — the name key, the escaped name text,
/// and nothing else.
pub proof fn lemma_new_label_minimal_body_text(l: NewLabel, v: JsonValue)
    requires
        l.order is None,
        l.color is None,
        l.is_favorite is None,
        spec_new_label_encoding(l, v),
    ensures
        crate::json::spec_json_text(v) == "{\"name\":\""@ + crate::json::spec_escape(l.name@)
            + "\"}"@,
{
    lemma_new_label_minimal_keys(l);
    reveal_strlit("name");
    reveal_strlit("{\"name\":\"");
    reveal_strlit("\"}");
    assert("name"@.len() == 4);
    assert("{\"name\":\""@.len() == 9);
    assert("\"}"@.len() == 2);
    let pairs = v->Object_0;
    assert(crate::json::spec_pairs_keys(pairs@).len() == 1);
    assert(pairs@[0].0@ == crate::json::spec_pairs_keys(pairs@)[0]);
    assert(pairs@[0].0@ == "name"@);
    assert(spec_new_label_member_ok(l, pairs@[0]));
    assert(pairs@[0].1 == JsonValue::Str(l.name));
    assert(forall|i: int| 0 <= i < "name"@.len() ==> crate::json::spec_plain_char(
        #[trigger] "name"@[i],
    ));
    crate::json::lemma_escape_plain("name"@);
    assert(crate::json::spec_json_text(v) == seq!['{'] + crate::json::spec_json_members(pairs@, 0)
        + seq!['}']);
    assert(crate::json::spec_json_members(pairs@, 0) == seq!['"'] + "name"@ + seq!['"', ':']
        + crate::json::spec_json_text(JsonValue::Str(l.name)));
    assert(crate::json::spec_json_text(JsonValue::Str(l.name)) == seq!['"']
        + crate::json::spec_escape(l.name@) + seq!['"']);
    assert(crate::json::spec_json_text(v) =~= "{\"name\":\""@ + crate::json::spec_escape(l.name@)
        + "\"}"@);
}

/// Whether `v` is the encoded request body of `l`: an object whose ordered
/// keys are exactly [`spec_new_label_keys`] and whose every member holds its
/// field's value ([`spec_new_label_member_ok`]).
pub open spec fn spec_new_label_encoding(l: NewLabel, v: JsonValue) -> bool {
    v matches JsonValue::Object(pairs) && spec_pairs_keys(pairs@) == spec_new_label_keys(l) && (
    forall|i: int| 0 <= i < pairs@.len() ==> spec_new_label_member_ok(l, #[trigger] pairs@[i]))
}

impl NewLabel {
    /// Build the request body: one member per set field, in a fixed order,
    /// with nothing emitted for a field left unset.
    pub fn to_json(&self) -> (r: JsonValue)
        ensures
            spec_new_label_encoding(*self, r),
    {
        proof {
            lemma_label_keys_distinct();
        }
        let mut pairs: Vec<(String, JsonValue)> = Vec::new();
        pairs.push(("name".to_owned(), JsonValue::Str(self.name.clone())));
        if let Some(o) = &self.order {
            pairs.push(("order".to_owned(), JsonValue::Int(*o as i64)));
        }
        if let Some(c) = &self.color {
            pairs.push(("color".to_owned(), JsonValue::Str(c.to_str().to_owned())));
        }
        if let Some(b) = &self.is_favorite {
            pairs.push(("is_favorite".to_owned(), JsonValue::Bool(*b)));
        }
        assert(spec_pairs_keys(pairs@) =~= spec_new_label_keys(*self));
        JsonValue::Object(pairs)
    }

    /// Upload the label to the Todoist API. Returns the full label as the
    /// service echoes it.
    pub fn upload(&self, user: &TodoistUser) -> (r: Result<Label, TodoistAPIError>)
        ensures
            r matches Err(e) ==> !(e is RequestSerializationError),
    {
        let req = new_label_request(user, self);
        let outcome = send_request(&req);
        label_from_response(outcome)
    }
}

/// An update to an existing label. Any field left unset is omitted from the
/// request body and stays unchanged.
#[derive(Debug)]
pub struct UpdateLabel {
    /// The name of the label.
    pub name: Option<String>,
    /// The label's position in the label list.
    pub order: Option<i32>,
    /// The colour of the label.
    pub color: Option<Color>,
    /// Whether the label is a favourite.
    pub is_favorite: Option<bool>,
}

/// The exact ordered keys of an update-label request body: each key exactly
/// when its field is set.
pub open spec fn spec_update_label_keys(l: UpdateLabel) -> Seq<Seq<char>> {
    (if l.name is Some {
        seq!["name"@]
    } else {
        Seq::<Seq<char>>::empty()
    }) + (if l.order is Some {
        seq!["order"@]
    } else {
        Seq::<Seq<char>>::empty()
    }) + (if l.color is Some {
        seq!["color"@]
    } else {
        Seq::<Seq<char>>::empty()
    }) + (if l.is_favorite is Some {
        seq!["is_favorite"@]
    } else {
        Seq::<Seq<char>>::empty()
    })
}

/// What each member of an update-label request body holds, by its key.
pub open spec fn spec_update_label_member_ok(l: UpdateLabel, pair: (String, JsonValue)) -> bool {
    &&& pair.0@ == "name"@ ==> (l.name matches Some(x) && pair.1 == JsonValue::Str(x))
    &&& pair.0@ == "order"@ ==> (l.order matches Some(o) && pair.1 == JsonValue::Int(o as i64))
    &&& pair.0@ == "color"@ ==> (l.color matches Some(c) && pair.1 matches JsonValue::Str(s) && s@
        == spec_color_str(c))
    &&& pair.0@ == "is_favorite"@ ==> (l.is_favorite matches Some(b) && pair.1 == JsonValue::Bool(
        b,
    ))
}

/// Law: an update-label request body holds each key exactly when its field
/// is set — a field left unset is omitted, never emitted as null.
pub proof fn lemma_update_label_omits_unset(l: UpdateLabel)
    ensures
        spec_update_label_keys(l).contains("name"@) <==> l.name is Some,
        spec_update_label_keys(l).contains("order"@) <==> l.order is Some,
        spec_update_label_keys(l).contains("color"@) <==> l.color is Some,
        spec_update_label_keys(l).contains("is_favorite"@) <==> l.is_favorite is Some,
{
    broadcast use vstd::seq_lib::lemma_seq_concat_contains_all_elements;

    lemma_label_keys_distinct();
    assert(seq!["name"@][0] == "name"@);
    assert(seq!["order"@][0] == "order"@);
    assert(seq!["color"@][0] == "color"@);
    assert(seq!["is_favorite"@][0] == "is_favorite"@);
}

/// Whether `v` is the encoded request body of `l`: an object whose ordered
/// keys are exactly [`spec_update_label_keys`] and whose every member holds
/// its field's value ([`spec_update_label_member_ok`]).
pub open spec fn spec_update_label_encoding(l: UpdateLabel, v: JsonValue) -> bool {
    v matches JsonValue::Object(pairs) && spec_pairs_keys(pairs@) == spec_update_label_keys(l) && (
    forall|i: int| 0 <= i < pairs@.len() ==> spec_update_label_member_ok(l, #[trigger] pairs@[i]))
}

impl UpdateLabel {
    /// Build the request body: one member per set field, in a fixed order,
    /// with nothing emitted for a field left unset.
    pub fn to_json(&self) -> (r: JsonValue)
        ensures
            spec_update_label_encoding(*self, r),
    {
        proof {
            lemma_label_keys_distinct();
        }
        let mut pairs: Vec<(String, JsonValue)> = Vec::new();
        if let Some(x) = &self.name {
            pairs.push(("name".to_owned(), JsonValue::Str(x.clone())));
        }
        if let Some(o) = &self.order {
            pairs.push(("order".to_owned(), JsonValue::Int(*o as i64)));
        }
        if let Some(c) = &self.color {
            pairs.push(("color".to_owned(), JsonValue::Str(c.to_str().to_owned())));
        }
        if let Some(b) = &self.is_favorite {
            pairs.push(("is_favorite".to_owned(), JsonValue::Bool(*b)));
        }
        assert(spec_pairs_keys(pairs@) =~= spec_update_label_keys(*self));
        JsonValue::Object(pairs)
    }

    /// Update the label with the given ID. Returns the full label as the
    /// service echoes it.
    pub fn update(&self, user: &TodoistUser, id: &str) -> (r: Result<Label, TodoistAPIError>)
        ensures
            r matches Err(e) ==> !(e is RequestSerializationError),
    {
        let req = update_label_request(user, self, id);
        let outcome = send_request(&req);
        label_from_response(outcome)
    }
}


/// Build the list-personal-labels request: one GET of the labels endpoint
/// with bearer authorization and nothing else.
pub fn get_all_personal_labels_request(user: &TodoistUser) -> (r: HttpRequest)
    ensures
        r.method == Method::Get,
        r.url@ == "https://api.todoist.com/rest/v2/labels"@,
        spec_headers_auth(r.headers@, user.token_view()),
        r.query@.len() == 0,
        r.body is None,
{
    HttpRequest {
        method: Method::Get,
        url: "https://api.todoist.com/rest/v2/labels".to_owned(),
        headers: auth_headers(user),
        query: Vec::new(),
        body: None,
    }
}

/// Build the get-label-by-ID request: one GET of the label's own URL with
/// bearer authorization and nothing else.
pub fn get_label_by_id_request(user: &TodoistUser, id: &str) -> (r: HttpRequest)
    ensures
        r.method == Method::Get,
        r.url@ == "https://api.todoist.com/rest/v2/labels/"@ + id@,
        spec_headers_auth(r.headers@, user.token_view()),
        r.query@.len() == 0,
        r.body is None,
{
    let mut url = "https://api.todoist.com/rest/v2/labels/".to_owned();
    url.append(id);
    HttpRequest { method: Method::Get, url, headers: auth_headers(user), query: Vec::new(), body: None }
}

/// Build the delete-label request: one DELETE of the label's own URL with
/// bearer authorization and nothing else.
pub fn delete_label_by_id_request(user: &TodoistUser, id: &str) -> (r: HttpRequest)
    ensures
        r.method == Method::Delete,
        r.url@ == "https://api.todoist.com/rest/v2/labels/"@ + id@,
        spec_headers_auth(r.headers@, user.token_view()),
        r.query@.len() == 0,
        r.body is None,
{
    let mut url = "https://api.todoist.com/rest/v2/labels/".to_owned();
    url.append(id);
    HttpRequest { method: Method::Delete, url, headers: auth_headers(user), query: Vec::new(), body: None }
}

/// Build the create-label request: one POST to the labels endpoint with
/// bearer authorization, JSON content type and a fresh request ID, whose
/// body is exactly the serialized encoding of `l`.
pub fn new_label_request(user: &TodoistUser, l: &NewLabel) -> (r: HttpRequest)
    ensures
        r.method == Method::Post,
        r.url@ == "https://api.todoist.com/rest/v2/labels"@,
        spec_headers_auth_json_id(r.headers@, user.token_view()),
        r.query@.len() == 0,
        r.body matches Some(b) && (exists|v: JsonValue|
            spec_new_label_encoding(*l, v) && b@ == #[trigger] spec_json_text(v)),
{
    let v = l.to_json();
    let body = to_json_text(&v);
    HttpRequest {
        method: Method::Post,
        url: "https://api.todoist.com/rest/v2/labels".to_owned(),
        headers: json_body_headers(user),
        query: Vec::new(),
        body: Some(body),
    }
}

/// Build the update-label request: one POST to the label's own URL with
/// bearer authorization, JSON content type and a fresh request ID, whose
/// body is exactly the serialized encoding of `l`.
pub fn update_label_request(user: &TodoistUser, l: &UpdateLabel, id: &str) -> (r: HttpRequest)
    ensures
        r.method == Method::Post,
        r.url@ == "https://api.todoist.com/rest/v2/labels/"@ + id@,
        spec_headers_auth_json_id(r.headers@, user.token_view()),
        r.query@.len() == 0,
        r.body matches Some(b) && (exists|v: JsonValue|
            spec_update_label_encoding(*l, v) && b@ == #[trigger] spec_json_text(v)),
{
    let v = l.to_json();
    let body = to_json_text(&v);
    let mut url = "https://api.todoist.com/rest/v2/labels/".to_owned();
    url.append(id);
    HttpRequest { method: Method::Post, url, headers: json_body_headers(user), query: Vec::new(), body: Some(body) }
}

/// Build the list-shared-labels request: one GET of the shared-labels
/// endpoint with bearer authorization, asking the service not to omit
/// personal labels.
pub fn get_all_shared_labels_request(user: &TodoistUser) -> (r: HttpRequest)
    ensures
        r.method == Method::Get,
        r.url@ == "https://api.todoist.com/rest/v2/labels/shared"@,
        spec_headers_auth(r.headers@, user.token_view()),
        r.query@.len() == 1 && r.query@[0].0@ == "omit_personal"@ && r.query@[0].1@ == "false"@,
        r.body is None,
{
    HttpRequest {
        method: Method::Get,
        url: "https://api.todoist.com/rest/v2/labels/shared".to_owned(),
        headers: auth_headers(user),
        query: vec![("omit_personal".to_owned(), "false".to_owned())],
        body: None,
    }
}

/// Build the shared-label rename request: one POST to the rename endpoint
/// with bearer authorization, JSON content type and a fresh request ID,
/// whose body is exactly the serialized `{old_name, new_name}` object.
pub fn rename_shared_label_request(user: &TodoistUser, old_name: &str, new_name: &str) -> (r:
    HttpRequest)
    ensures
        r.method == Method::Post,
        r.url@ == "https://api.todoist.com/rest/v2/labels/shared/rename"@,
        spec_headers_auth_json_id(r.headers@, user.token_view()),
        r.query@.len() == 0,
        r.body matches Some(b) && (exists|v: JsonValue|
            spec_rename_shared_label_encoding(old_name@, new_name@, v) && b@
                == #[trigger] spec_json_text(v)),
{
    let v = rename_shared_label_body(old_name, new_name);
    let body = to_json_text(&v);
    HttpRequest {
        method: Method::Post,
        url: "https://api.todoist.com/rest/v2/labels/shared/rename".to_owned(),
        headers: json_body_headers(user),
        query: Vec::new(),
        body: Some(body),
    }
}

/// Build the shared-label removal request: one POST to the remove endpoint
/// with bearer authorization, JSON content type and a fresh request ID,
/// whose body is exactly the serialized `{name}` object.
pub fn remove_shared_label_request(user: &TodoistUser, name: &str) -> (r: HttpRequest)
    ensures
        r.method == Method::Post,
        r.url@ == "https://api.todoist.com/rest/v2/labels/shared/remove"@,
        spec_headers_auth_json_id(r.headers@, user.token_view()),
        r.query@.len() == 0,
        r.body matches Some(b) && (exists|v: JsonValue|
            spec_single_string_member(v, "name"@, name@) && b@ == #[trigger] spec_json_text(v)),
{
    let v = remove_shared_label_body(name);
    let body = to_json_text(&v);
    HttpRequest {
        method: Method::Post,
        url: "https://api.todoist.com/rest/v2/labels/shared/remove".to_owned(),
        headers: json_body_headers(user),
        query: Vec::new(),
        body: Some(body),
    }
}

/// Get a list of all the user's personal labels.
pub fn get_all_personal_labels(user: &TodoistUser) -> (r: Result<Vec<Label>, TodoistAPIError>)
    ensures
        r matches Err(e) ==> !(e is RequestSerializationError),
{
    let req = get_all_personal_labels_request(user);
    let outcome = send_request(&req);
    labels_from_response(outcome)
}

/// Get an individual label by its ID.
pub fn get_label_by_id(user: &TodoistUser, id: &str) -> (r: Result<Label, TodoistAPIError>)
    ensures
        r matches Err(e) ==> !(e is RequestSerializationError),
{
    let req = get_label_by_id_request(user, id);
    let outcome = send_request(&req);
    label_from_response(outcome)
}

/// Delete the label with the given ID.
pub fn delete_label_by_id(user: &TodoistUser, id: &str) -> (r: Result<(), TodoistAPIError>)
    ensures
        r matches Err(e) ==> !(e is RequestSerializationError),
{
    let req = delete_label_by_id_request(user, id);
    let outcome = send_request(&req);
    get_204_from_reqwest_response(outcome)
}

/// Decode the shared-label list: an array of bare strings.
pub fn shared_labels_from_json(v: &JsonValue) -> (r: Result<Vec<String>, TodoistAPIError>)
    ensures
        r is Ok <==> spec_string_list_shape(*v),
        r matches Ok(list) ==> list@.len() == spec_string_list(*v).len() && (forall|i: int|
            0 <= i < list@.len() ==> list@[i]@ == spec_string_list(*v)[i]),
        r matches Err(e) ==> e is ResponseDeserializationError,
{
    match json_string_list(v) {
        Some(list) => Ok(list),
        None => Err(bad_shape("shared label list")),
    }
}

/// Get a list of all the user's shared labels, as bare strings.
pub fn get_all_shared_labels(user: &TodoistUser) -> (r: Result<Vec<String>, TodoistAPIError>)
    ensures
        r matches Err(e) ==> !(e is RequestSerializationError),
{
    let req = get_all_shared_labels_request(user);
    let outcome = send_request(&req);
    shared_labels_from_response(outcome)
}

/// Whether `v` is the body of a shared-label rename: exactly the two keys
/// `old_name` and `new_name`, holding the two names.
pub open spec fn spec_rename_shared_label_encoding(
    old_name: Seq<char>,
    new_name: Seq<char>,
    v: JsonValue,
) -> bool {
    v matches JsonValue::Object(pairs) && pairs@.len() == 2 && pairs@[0].0@ == "old_name"@ && (
    pairs@[0].1 matches JsonValue::Str(s) && s@ == old_name) && pairs@[1].0@ == "new_name"@ && (
    pairs@[1].1 matches JsonValue::Str(s) && s@ == new_name)
}

/// Build the body of a shared-label rename: exactly the two keys
/// `old_name` and `new_name`.
pub fn rename_shared_label_body(old_name: &str, new_name: &str) -> (r: JsonValue)
    ensures
        spec_rename_shared_label_encoding(old_name@, new_name@, r),
{
    let mut pairs: Vec<(String, JsonValue)> = Vec::new();
    pairs.push(("old_name".to_owned(), JsonValue::Str(old_name.to_owned())));
    pairs.push(("new_name".to_owned(), JsonValue::Str(new_name.to_owned())));
    JsonValue::Object(pairs)
}

/// Rename a shared label everywhere it appears.
pub fn rename_shared_label(user: &TodoistUser, old_name: &str, new_name: &str) -> (r: Result<
    (),
    TodoistAPIError,
>)
    ensures
        r matches Err(e) ==> !(e is RequestSerializationError),
{
    let req = rename_shared_label_request(user, old_name, new_name);
    let outcome = send_request(&req);
    get_204_from_reqwest_response(outcome)
}

/// Build the body of a shared-label removal: exactly the key `name`.
pub fn remove_shared_label_body(name: &str) -> (r: JsonValue)
    ensures
        spec_single_string_member(r, "name"@, name@),
{
    let mut pairs: Vec<(String, JsonValue)> = Vec::new();
    pairs.push(("name".to_owned(), JsonValue::Str(name.to_owned())));
    JsonValue::Object(pairs)
}

/// Remove a shared label from all tasks to which it is applied.
pub fn remove_shared_label(user: &TodoistUser, name: &str) -> (r: Result<(), TodoistAPIError>)
    ensures
        r matches Err(e) ==> !(e is RequestSerializationError),
{
    let req = remove_shared_label_request(user, name);
    let outcome = send_request(&req);
    get_204_from_reqwest_response(outcome)
}

} // verus!

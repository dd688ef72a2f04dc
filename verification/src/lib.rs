//! Typed client for the Todoist REST v2 API.
//!
//! A caller authenticates with a bearer token held in a [`TodoistUser`] and
//! performs create/read/update/delete operations on five resource kinds:
//! projects, sections, tasks, labels and comments.
//!
//! The crate builds each HTTP request itself (URL, headers, JSON body), hands
//! it to a blocking HTTP transport, and interprets the raw outcome into a
//! typed result or a [`err::TodoistAPIError`].

use vstd::prelude::*;

pub mod err;
pub mod color;
pub mod strutil;
pub mod json;
pub mod general;
pub mod transport;
pub mod projects;
pub mod labels;
pub mod sections;
pub mod tasks;
pub mod comments;

verus! {

/// Represents a Todoist user, holding the user's API token.
///
/// A reference to a `TodoistUser` is passed to every function which makes an
/// API request, so that the request can be authenticated.
pub struct TodoistUser {
    pub(crate) token: String,
}

impl TodoistUser {
    /// The character sequence of the held API token.
    pub closed spec fn token_view(&self) -> Seq<char> {
        self.token@
    }

    /// Create a new `TodoistUser` from an API token.
    pub fn new(api_token: &str) -> (user: TodoistUser)
        ensures
            user.token_view() == api_token@,
    {
        TodoistUser { token: api_token.to_owned() }
    }

    /// The `Authorization: Bearer <token>` header for this user's requests.
    pub(crate) fn auth_header(&self) -> (r: (String, String))
        ensures
            r.0@ == "Authorization"@,
            r.1@ == "Bearer "@ + self.token_view(),
    {
        let mut value = "Bearer ".to_owned();
        value.append(self.token.as_str());
        ("Authorization".to_owned(), value)
    }
}

} // verus!

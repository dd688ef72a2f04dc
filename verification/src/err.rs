//! The error taxonomy returned by this crate's request functions.

use vstd::prelude::*;

verus! {

/// Holds the different kinds of things that can go wrong when making API
/// requests. The four kinds are mutually exclusive and each carries a
/// diagnostic payload; no kind is retried or recovered internally.
#[derive(Debug)]
pub enum TodoistAPIError {
    /// The HTTP exchange itself did not complete: no response was obtained.
    /// Holds a description of the transport failure.
    TransportError(String),

    /// A response was received but its status code signals failure.
    /// Holds the status code and the text of the response body verbatim.
    UnsuccessfulStatus(u16, String),

    /// The status code indicated success, but the body did not match the
    /// expected read-model shape. Holds a description of the mismatch.
    ResponseDeserializationError(String),

    /// A write-model could not be turned into a request body. Holds a
    /// description of the failure.
    RequestSerializationError(String),
}

/// The deserialization error reported when a response body, though valid
/// JSON, does not have the shape of the named entity.
pub(crate) fn bad_shape(entity: &str) -> (e: TodoistAPIError)
    ensures
        e is ResponseDeserializationError,
{
    let mut msg = "response body does not have the expected shape: ".to_owned();
    msg.append(entity);
    TodoistAPIError::ResponseDeserializationError(msg)
}

} // verus!

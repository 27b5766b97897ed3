//! Server errors and the HTTP responses they turn into.

use vstd::prelude::*;
use vstd::string::StringExecFns;
use crate::num::{dec_of, dec_string};

verus! {

broadcast use vstd::string::group_string_axioms;

/// Server error types. Errors raised by the database layer or by JSON
/// decoding are carried as their messages.
#[derive(Debug)]
pub enum ServerError {
    /// A database operation failed.
    Db(String),
    /// The thread (or other resource) was not found.
    NotFound(String),
    /// The stored version differs from the one the client expected.
    Conflict { expected: u64, actual: u64 },
    /// The request payload is invalid.
    BadRequest(String),
    /// Something failed inside the server.
    Internal(String),
    /// The JSON payload could not be decoded.
    Serialization(String),
    /// The caller is not authenticated.
    Unauthorized(String),
    /// The caller may not do this.
    Forbidden(String),
    /// A needed service cannot take the request now.
    ServiceUnavailable(String),
    /// An upstream service did not answer in time.
    UpstreamTimeout(String),
    /// An upstream service failed.
    UpstreamError(String),
}

/// Error response body.
#[derive(Debug)]
pub struct ErrorResponse {
    pub error: String,
    pub message: String,
    pub server_version: Option<u64>,
    pub client_version: Option<u64>,
}

/// The status, error code and message of the response for an error, and
/// whether it carries the two versions of a conflict.
pub open spec fn response_of(e: ServerError) -> (u16, Seq<char>, Seq<char>) {
    match e {
        ServerError::Db(_) => (500, "database_error"@, "A database error occurred"@),
        ServerError::NotFound(id) => (404, "not_found"@, "Thread not found: "@ + id@),
        ServerError::Conflict { expected, actual } => (
            409,
            "conflict"@,
            "Version conflict: expected "@ + dec_of(expected as nat) + ", got "@ + dec_of(actual as nat),
        ),
        ServerError::BadRequest(m) => (400, "bad_request"@, m@),
        ServerError::Internal(_) => (500, "internal_error"@, "An internal error occurred"@),
        ServerError::Serialization(e) => (400, "serialization_error"@, "Invalid JSON: "@ + e@),
        ServerError::Unauthorized(m) => (401, "unauthorized"@, m@),
        ServerError::Forbidden(m) => (403, "forbidden"@, m@),
        ServerError::ServiceUnavailable(m) => (503, "service_unavailable"@, m@),
        ServerError::UpstreamTimeout(m) => (504, "upstream_timeout"@, m@),
        ServerError::UpstreamError(m) => (502, "upstream_error"@, m@),
    }
}

impl ServerError {
    /// The HTTP status and body that the error is answered with. Internal
    /// and database errors do not reveal their cause; a conflict reports the
    /// stored version as the server's and the expected one as the client's.
    pub fn to_response(self) -> (r: (u16, ErrorResponse))
        ensures
            r.0 == response_of(self).0,
            r.1.error@ == response_of(self).1,
            r.1.message@ == response_of(self).2,
            self matches ServerError::Conflict { expected, actual } ==> r.1.server_version == Some(expected)
                && r.1.client_version == Some(actual),
            !(self is Conflict) ==> r.1.server_version is None && r.1.client_version is None,
    {
        match self {
            ServerError::Db(_) => (500, plain("database_error", "A database error occurred".to_string())),
            ServerError::NotFound(id) => (404, plain("not_found", "Thread not found: ".to_string().concat(id.as_str()))),
            ServerError::Conflict { expected, actual } => {
                let msg = "Version conflict: expected ".to_string().concat(dec_string(expected).as_str()).concat(
                    ", got ",
                ).concat(dec_string(actual).as_str());
                (
                    409,
                    ErrorResponse {
                        error: "conflict".to_string(),
                        message: msg,
                        server_version: Some(expected),
                        client_version: Some(actual),
                    },
                )
            },
            ServerError::BadRequest(m) => (400, plain("bad_request", m)),
            ServerError::Internal(_) => (500, plain("internal_error", "An internal error occurred".to_string())),
            ServerError::Serialization(e) => (400, plain("serialization_error", "Invalid JSON: ".to_string().concat(e.as_str()))),
            ServerError::Unauthorized(m) => (401, plain("unauthorized", m)),
            ServerError::Forbidden(m) => (403, plain("forbidden", m)),
            ServerError::ServiceUnavailable(m) => (503, plain("service_unavailable", m)),
            ServerError::UpstreamTimeout(m) => (504, plain("upstream_timeout", m)),
            ServerError::UpstreamError(m) => (502, plain("upstream_error", m)),
        }
    }
}

/// An error body without versions.
pub fn plain(error: &str, message: String) -> (r: ErrorResponse)
    ensures
        r.error@ == error@,
        r.message@ == message@,
        r.server_version is None && r.client_version is None,
{
    ErrorResponse { error: error.to_string(), message, server_version: None, client_version: None }
}

/// Internal and database failures are answered alike whatever their cause:
/// nothing of the cause reaches the client.
pub proof fn lemma_failures_hide_their_cause(a: String, b: String)
    ensures
        response_of(ServerError::Internal(a)) == response_of(ServerError::Internal(b)),
        response_of(ServerError::Db(a)) == response_of(ServerError::Db(b)),
{
}

} // verus!

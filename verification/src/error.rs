//! The errors that the API answers with, and the response each becomes.
use vstd::prelude::*;

use crate::bindings::status_line;
use crate::responses::ErrorResponse;

verus! {

/// Everything that can go wrong while serving a request.
///
/// Errors that come from outside libraries carry their rendered message.
#[derive(Debug)]
pub enum ArsaError {
    SerdeError(String),
    DatabaseError(String),
    /// A request body that could not be read: the status and text the rejection carries.
    JsonRejection { status: u16, body: String },
    BollardError(String),
    NotFound,
    BadRequest,
    /// An internal failure; the detail is kept for the log, not sent to the client.
    UnknownError(String),
    Unauthorized,
    IOError(String),
    FSExtra(String),
}

/// The HTTP status that an error is answered with.
pub open spec fn spec_error_status(e: ArsaError) -> u16 {
    match e {
        ArsaError::JsonRejection { status, .. } => status,
        ArsaError::NotFound => 404,
        ArsaError::BadRequest => 400,
        ArsaError::Unauthorized => 401,
        _ => 500,
    }
}

/// The message of the JSON error body that an error is answered with.
pub open spec fn spec_error_message(e: ArsaError) -> Seq<char> {
    match e {
        ArsaError::JsonRejection { body, .. } => body@,
        ArsaError::DatabaseError(m) => m@,
        ArsaError::SerdeError(m) => m@,
        ArsaError::BollardError(m) => m@,
        ArsaError::IOError(m) => m@,
        ArsaError::FSExtra(m) => m@,
        ArsaError::NotFound => "404 Not Found"@,
        ArsaError::UnknownError(_) => "500 Internal Server Error"@,
        ArsaError::Unauthorized => "401 Unauthorized"@,
        ArsaError::BadRequest => "Bad Request"@,
    }
}

/// The text of a status line that `status_line` is known to render.
fn known_status_line(code: u16) -> (r: String)
    requires
        code == 401 || code == 404 || code == 500,
    ensures
        code == 401 ==> r@ == "401 Unauthorized"@,
        code == 404 ==> r@ == "404 Not Found"@,
        code == 500 ==> r@ == "500 Internal Server Error"@,
{
    match status_line(code) {
        Some(s) => s,
        None => String::new(),
    }
}

/// Whether the response to an error carries the error itself, for the layers that log it:
/// every error does but a rejected request body.
pub open spec fn spec_attaches_error(e: ArsaError) -> bool {
    !(e is JsonRejection)
}

impl ArsaError {
    /// Whether the response to this error carries the error itself.
    pub fn attaches_error(&self) -> (r: bool)
        ensures
            r == spec_attaches_error(*self),
    {
        match self {
            ArsaError::JsonRejection { .. } => false,
            _ => true,
        }
    }

    /// The status code and the JSON body of the response that answers this error.
    pub fn response_parts(&self) -> (r: (u16, ErrorResponse))
        ensures
            r.0 == spec_error_status(*self),
            r.1.message@ == spec_error_message(*self),
    {
        match self {
            ArsaError::JsonRejection { status, body } => (
                *status,
                ErrorResponse { message: body.clone() },
            ),
            ArsaError::DatabaseError(m) => (500, ErrorResponse { message: m.clone() }),
            ArsaError::SerdeError(m) => (500, ErrorResponse { message: m.clone() }),
            ArsaError::BollardError(m) => (500, ErrorResponse { message: m.clone() }),
            ArsaError::IOError(m) => (500, ErrorResponse { message: m.clone() }),
            ArsaError::FSExtra(m) => (500, ErrorResponse { message: m.clone() }),
            ArsaError::NotFound => (404, ErrorResponse { message: known_status_line(404) }),
            ArsaError::UnknownError(_) => (
                500,
                ErrorResponse { message: known_status_line(500) },
            ),
            ArsaError::Unauthorized => (401, ErrorResponse { message: known_status_line(401) }),
            ArsaError::BadRequest => {
                let m = "Bad Request";
                (400, ErrorResponse { message: m.to_owned() })
            },
        }
    }
}

} // verus!

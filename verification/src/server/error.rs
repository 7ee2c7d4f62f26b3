//! What can go wrong in the server, and the text of each failure.

use vstd::prelude::*;
use vstd::string::*;
use crate::server::method::Method;
use crate::text::joined;

verus! {

#[verifier::external_type_specification]
#[verifier::external_body]
pub struct ExInsertError(matchit::InsertError);

/// The text that a rejected pattern's error displays.
pub uninterp spec fn insert_error_text(error: matchit::InsertError) -> Seq<char>;

/// `InsertError`'s `Display`, through `to_string`: the text of the error.
#[verifier::external_body]
pub(crate) fn insert_error_to_string(error: &matchit::InsertError) -> (text: String)
    ensures
        text@ == insert_error_text(*error),
{
    error.to_string()
}

/// A failure of the server.
///
/// `InvalidPath` and `RouteOccupied` answer a registration and never reach a
/// running server. `NotFound` and `MethodNotAllowed` arise per request and
/// are answered with a response. The others end the accept loop or one
/// connection.
#[derive(Debug)]
pub enum Error {
    InitFailed(String),
    ServeExited(String),
    ConnectionError(String),
    NotFound,
    MethodNotAllowed,
    InvalidPath { path: String, error: matchit::InsertError },
    RouteOccupied { path: String, method: Method },
}

/// The text that describes `error`.
pub open spec fn error_text(error: Error) -> Seq<char> {
    match error {
        Error::InitFailed(reason) => "failed to init server: "@ + reason@,
        Error::ServeExited(reason) => "server unexpectedly exited from serving: "@ + reason@,
        Error::ConnectionError(reason) => "unexpected error occurred with connection: "@ + reason@,
        Error::NotFound => "404 Not Found"@,
        Error::MethodNotAllowed => "405 Method Not Allowed"@,
        Error::InvalidPath { path, error } => "invalid path, unable to register: "@ + path@ + ": "@
            + insert_error_text(error),
        Error::RouteOccupied { path, method } => "route "@ + path@
            + " is already occupied for method "@ + method@,
    }
}

impl Error {
    /// The text that describes the error.
    pub fn message(&self) -> (text: String)
        ensures
            text@ == error_text(*self),
    {
        match self {
            Error::InitFailed(reason) => joined("failed to init server: ", reason.as_str()),
            Error::ServeExited(reason) => joined(
                "server unexpectedly exited from serving: ",
                reason.as_str(),
            ),
            Error::ConnectionError(reason) => joined(
                "unexpected error occurred with connection: ",
                reason.as_str(),
            ),
            Error::NotFound => String::from_str("404 Not Found"),
            Error::MethodNotAllowed => String::from_str("405 Method Not Allowed"),
            Error::InvalidPath { path, error } => {
                let reason = insert_error_to_string(error);
                let mut text = joined("invalid path, unable to register: ", path.as_str());
                text.append(": ");
                text.append(reason.as_str());
                text
            },
            Error::RouteOccupied { path, method } => {
                let mut text = joined("route ", path.as_str());
                text.append(" is already occupied for method ");
                text.append(method.as_str());
                text
            },
        }
    }
}

} // verus!

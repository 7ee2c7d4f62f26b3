//! The extractor of a body that holds JSON.

use vstd::prelude::*;
use vstd::string::*;
use crate::frontend::extras::json::{json_read, read_json, Json};
use crate::frontend::request::FromRequest;
use crate::frontend::response::error::InternalError;
use crate::server::request::{body_collected, Request, RequestView};

verus! {

/// The body of a request, read as JSON.
pub struct JsonBody<T>(pub T);

impl<T> JsonBody<T> {
    /// Wraps the value.
    pub fn from(data: T) -> (body: Self)
        ensures
            body.0 == data,
    {
        JsonBody(data)
    }
}

impl FromRequest for JsonBody<serde_json::Value> {
    type Rejection = InternalError<String>;

    open spec fn takes_request() -> bool {
        false
    }

    /// Reads the body as JSON and leaves the request without a body. A
    /// body that could not be collected, or whose bytes are no JSON, gives
    /// a rejection that answers with an internal error and the text of
    /// the failure.
    open spec fn extraction(
        before: RequestView,
        outcome: Result<Self, InternalError<String>>,
        after: RequestView,
    ) -> bool {
        &&& after == (RequestView { body: None, body_failure: None, ..before })
        &&& match outcome {
            Ok(body) => json_read(body_collected(before)) == Ok::<serde_json::Value, Seq<char>>(
                body.0,
            ),
            Err(rejection) => json_read(body_collected(before)) == Err::<
                serde_json::Value,
                Seq<char>,
            >(rejection.0@),
        }
    }

    fn consumes_request() -> (consumes: bool) {
        false
    }

    fn from_request(request: &mut Request) -> (outcome: Result<Self, InternalError<String>>) {
        match read_json(request.take_collected()) {
            Ok(json) => Ok(JsonBody(json.0)),
            Err(text) => Err(InternalError(text)),
        }
    }
}

impl FromRequest for Json<serde_json::Value> {
    type Rejection = InternalError<String>;

    open spec fn takes_request() -> bool {
        false
    }

    /// Reads the body as JSON and leaves the request without a body. A
    /// body that could not be collected, or whose bytes are no JSON, gives
    /// a rejection that answers with an internal error and the text of
    /// the failure.
    open spec fn extraction(
        before: RequestView,
        outcome: Result<Self, InternalError<String>>,
        after: RequestView,
    ) -> bool {
        &&& after == (RequestView { body: None, body_failure: None, ..before })
        &&& match outcome {
            Ok(json) => json_read(body_collected(before)) == Ok::<serde_json::Value, Seq<char>>(
                json.0,
            ),
            Err(rejection) => json_read(body_collected(before)) == Err::<
                serde_json::Value,
                Seq<char>,
            >(rejection.0@),
        }
    }

    fn consumes_request() -> (consumes: bool) {
        false
    }

    fn from_request(request: &mut Request) -> (outcome: Result<Self, InternalError<String>>) {
        match read_json(request.take_collected()) {
            Ok(json) => Ok(json),
            Err(text) => Err(InternalError(text)),
        }
    }
}

} // verus!

//! JSON, as a body that is read and as a body that is written.

use vstd::prelude::*;
use vstd::string::*;
use crate::frontend::response::error::{failed_with, with_content_type, InternalError};
use crate::frontend::response::{Footprint, ResponsePart, Weight};
use crate::server::request::collected_view;
use crate::server::response::{Response, ResponseView};
use crate::server::wire::{content_type, header_value_from_static, json_mime};
use crate::text::joined;

verus! {

#[verifier::external_type_specification]
#[verifier::external_body]
pub struct ExJsonValue(serde_json::Value);

/// The bytes that `value` is written as, or the text of the error where
/// it cannot be written.
pub uninterp spec fn json_encoded(value: serde_json::Value) -> Result<Seq<u8>, Seq<char>>;

/// The value that `bytes` are read as, or the text of the error where
/// they are no JSON.
pub uninterp spec fn json_decoded(bytes: Seq<u8>) -> Result<serde_json::Value, Seq<char>>;

/// `serde_json::to_vec` on a JSON value: the bytes it is written as, or
/// the text that its error displays.
#[verifier::external_body]
pub(crate) fn json_to_vec(value: &serde_json::Value) -> (encoded: Result<Vec<u8>, String>)
    ensures
        match encoded {
            Ok(bytes) => json_encoded(*value) == (Ok::<Seq<u8>, Seq<char>>(bytes@)),
            Err(text) => json_encoded(*value) == (Err::<Seq<u8>, Seq<char>>(text@)),
        },
{
    match serde_json::to_vec(value) {
        Ok(bytes) => Ok(bytes),
        Err(error) => Err(error.to_string()),
    }
}

/// `serde_json::from_slice` for a JSON value: the value that the bytes
/// are read as, or the text that its error displays.
#[verifier::external_body]
pub(crate) fn json_from_slice(bytes: &[u8]) -> (decoded: Result<serde_json::Value, String>)
    ensures
        match decoded {
            Ok(value) => json_decoded(bytes@) == (Ok::<serde_json::Value, Seq<char>>(value)),
            Err(text) => json_decoded(bytes@) == (Err::<serde_json::Value, Seq<char>>(text@)),
        },
{
    match serde_json::from_slice(bytes) {
        Ok(value) => Ok(value),
        Err(error) => Err(error.to_string()),
    }
}

/// A value that travels as JSON: read from the body of a request, or
/// written as the body of a response.
pub struct Json<T>(pub T);

impl<T> Json<T> {
    /// Wraps the value.
    pub fn from(data: T) -> (json: Self)
        ensures
            json.0 == data,
    {
        Json(data)
    }
}

/// The response `before` with `bytes` as its body and JSON as the type of
/// the body.
pub open spec fn json_written(bytes: Seq<u8>, before: ResponseView) -> ResponseView {
    ResponseView { body: Some(bytes), ..with_content_type(before, "application/json"@) }
}

/// What writing a value as JSON makes of the response `before`, given how
/// the value was encoded: the body and its type, or the answer to an
/// internal error with the text of the failure.
pub open spec fn json_applied(encoded: Result<Seq<u8>, Seq<char>>, before: ResponseView) -> ResponseView {
    match encoded {
        Ok(bytes) => json_written(bytes, before),
        Err(text) => failed_with(text, before),
    }
}

/// The part that an encoding gives: the header that names JSON as the
/// type of the body with the bytes as the body, or an internal error with
/// the text of the failure.
pub fn as_response_part(encoded: Result<Vec<u8>, String>) -> (part: Result<
    ((http::HeaderName, http::HeaderValue), Vec<u8>),
    InternalError<String>,
>)
    ensures
        part.footprint() == Footprint::adding(1),
        forall|before: ResponseView| #[trigger]
            part.applied(before) == json_applied(
                match encoded {
                    Ok(bytes) => Ok(bytes@),
                    Err(text) => Err(text@),
                },
                before,
            ),
{
    match encoded {
        Ok(bytes) => {
            let mime = json_mime();
            proof {
                reveal_strlit("application/json");
            }
            let part = Ok(((content_type(), header_value_from_static(mime)), bytes));
            assert forall|before: ResponseView| #[trigger]
                part.applied(before) == json_written(bytes@, before) by {
            }
            part
        },
        Err(text) => Err(InternalError(text)),
    }
}

impl ResponsePart for Json<serde_json::Value> {
    open spec fn footprint(&self) -> Footprint {
        Footprint::adding(1)
    }

    /// Sets the body to the value written as JSON, and the header
    /// `content-type` to JSON; a value that cannot be written gives the
    /// answer to an internal error.
    open spec fn applied(&self, before: ResponseView) -> ResponseView {
        json_applied(json_encoded(self.0), before)
    }

    fn weight(&self) -> (weight: Weight) {
        Weight::adding(1)
    }

    fn apply(self, response: &mut Response) {
        as_response_part(json_to_vec(&self.0)).apply(response);
    }
}

/// What reading the collected body of a request as JSON gives: the value,
/// or the text that the request is rejected with.
pub open spec fn json_read(collected: Result<Seq<u8>, Seq<char>>) -> Result<
    serde_json::Value,
    Seq<char>,
> {
    match collected {
        Err(reason) => Err("failed to collect body: "@ + reason),
        Ok(bytes) => match json_decoded(bytes) {
            Ok(value) => Ok(value),
            Err(reason) => Err("failed to deserialize data: "@ + reason),
        },
    }
}

/// The text that rejects a request whose body could not be collected.
pub fn collection_failed(reason: &str) -> (text: String)
    ensures
        text@ == "failed to collect body: "@ + reason@,
{
    joined("failed to collect body: ", reason)
}

/// The text that rejects a request whose body is not the JSON asked for.
pub fn decoding_failed(reason: &str) -> (text: String)
    ensures
        text@ == "failed to deserialize data: "@ + reason@,
{
    joined("failed to deserialize data: ", reason)
}

/// Reads the collected body of a request as JSON. `collected` holds the
/// bytes of the body, or the text of the error that ended its collection.
pub fn read_json(collected: Result<Vec<u8>, String>) -> (read: Result<Json<serde_json::Value>, String>)
    ensures
        match read {
            Ok(json) => json_read(collected_view(collected)) == Ok::<serde_json::Value, Seq<char>>(
                json.0,
            ),
            Err(text) => json_read(collected_view(collected)) == Err::<serde_json::Value, Seq<char>>(
                text@,
            ),
        },
{
    match collected {
        Err(reason) => Err(collection_failed(reason.as_str())),
        Ok(bytes) => match json_from_slice(bytes.as_slice()) {
            Ok(value) => Ok(Json(value)),
            Err(reason) => Err(decoding_failed(reason.as_str())),
        },
    }
}

} // verus!

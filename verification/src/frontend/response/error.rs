//! The part that answers with an internal error.

use vstd::prelude::*;
use vstd::string::*;
use crate::frontend::response::{Footprint, ResponsePart, Weight};
use crate::server::response::{Body, Response, ResponseView, StatusCode};
use crate::server::wire::{
    content_type, header_value_from_static, headers_insert, plain_text_mime,
};

verus! {

/// The bytes of a text made of ASCII.
pub open spec fn ascii_bytes(text: Seq<char>) -> Seq<u8> {
    text.map_values(|c: char| c as u8)
}

/// The response `before` with the one value `value` under `content-type`.
pub open spec fn with_content_type(before: ResponseView, value: Seq<char>) -> ResponseView {
    ResponseView {
        headers: before.headers.insert("content-type"@, seq![ascii_bytes(value)]),
        ..before
    }
}

/// The response `before` turned into the answer to an internal error with
/// the text `text`: status 500, plain text as the type of the body, and
/// the text as the body.
pub open spec fn failed_with(text: Seq<char>, before: ResponseView) -> ResponseView {
    ResponseView {
        status: 500,
        body: Some(vstd::utf8::encode_utf8(text)),
        ..with_content_type(before, "text/plain; charset=utf-8"@)
    }
}

/// Sets the header `content-type` of `response` to plain text in UTF-8.
pub(crate) fn set_plain_text(response: &mut Response)
    requires
        old(response).header_lines() + 1 <= crate::server::wire::MAX_HEADER_LINES,
    ensures
        final(response)@ == with_content_type(old(response)@, "text/plain; charset=utf-8"@),
        final(response).header_lines() <= old(response).header_lines() + 1,
{
    let mime = plain_text_mime();
    proof {
        reveal_strlit("text/plain; charset=utf-8");
    }
    headers_insert(&mut response.headers, content_type(), header_value_from_static(mime));
}

/// An error that is answered with status 500 and its text as the body.
#[derive(Debug)]
pub struct InternalError<E>(pub E);

impl<E> InternalError<E> {
    /// The internal error for `error`.
    pub fn from(error: E) -> (internal: Self)
        ensures
            internal.0 == error,
    {
        InternalError(error)
    }
}

impl ResponsePart for InternalError<String> {
    open spec fn footprint(&self) -> Footprint {
        Footprint::adding(1)
    }

    /// Sets the status to 500, the header `content-type` to plain text,
    /// and the body to the text of the error.
    open spec fn applied(&self, before: ResponseView) -> ResponseView {
        failed_with(self.0@, before)
    }

    fn weight(&self) -> (weight: Weight) {
        Weight::adding(1)
    }

    fn apply(self, response: &mut Response) {
        response.status = StatusCode::internal_server_error();
        set_plain_text(response);
        response.body = Body::from_text(self.0.as_str());
    }
}

} // verus!

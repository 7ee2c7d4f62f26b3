//! A whole response that carries JSON.

use vstd::prelude::*;
use vstd::string::*;
use crate::frontend::extras::json::{json_encoded, json_to_vec};
use crate::server::request::collected_view;
use crate::frontend::response::error::ascii_bytes;
use crate::server::response::{Body, Response, ResponseView, StatusCode};
use crate::server::wire::{
    content_type, extension_count, extensions_new, header_value_from_static, headers_insert,
    headers_new, json_mime, plain_text_mime,
};

verus! {

/// A value that is answered as JSON, in a response of its own.
pub struct JsonResponse<T>(pub T);

/// The headers that carry `mime` as the type of the body, and nothing
/// else.
pub open spec fn typed_as(mime: Seq<char>) -> Map<Seq<char>, Seq<Seq<u8>>> {
    Map::<Seq<char>, Seq<Seq<u8>>>::empty().insert("content-type"@, seq![ascii_bytes(mime)])
}

/// The response that answers with a value as JSON, given how the value
/// was encoded: status 200 and the bytes as JSON, or status 500 and the
/// text of the failure as plain text.
pub open spec fn json_answer(encoded: Result<Seq<u8>, Seq<char>>, response: ResponseView) -> bool {
    &&& extension_count(response.extensions) == 0
    &&& match encoded {
        Ok(bytes) => {
            &&& response.status == 200
            &&& response.headers == typed_as("application/json"@)
            &&& response.body == Some(bytes)
        },
        Err(text) => {
            &&& response.status == 500
            &&& response.headers == typed_as("text/plain; charset=utf-8"@)
            &&& response.body == Some(vstd::utf8::encode_utf8(text))
        },
    }
}

/// Builds the response for an encoding: the bytes of a value written as
/// JSON, or the text of the error that kept it from being written.
pub fn json_response(encoded: Result<Vec<u8>, String>) -> (response: Response)
    ensures
        json_answer(collected_view(encoded), response@),
        response.header_lines() <= 1,
{
    let mut headers = headers_new();
    match encoded {
        Ok(bytes) => {
            let mime = json_mime();
            proof {
                reveal_strlit("application/json");
            }
            headers_insert(&mut headers, content_type(), header_value_from_static(mime));
            Response {
                status: StatusCode::ok(),
                headers,
                extensions: extensions_new(),
                body: Body::from_bytes(bytes),
            }
        },
        Err(text) => {
            let mime = plain_text_mime();
            proof {
                reveal_strlit("text/plain; charset=utf-8");
            }
            headers_insert(&mut headers, content_type(), header_value_from_static(mime));
            Response {
                status: StatusCode::internal_server_error(),
                headers,
                extensions: extensions_new(),
                body: Body::from_text(text.as_str()),
            }
        },
    }
}

impl JsonResponse<serde_json::Value> {
    /// The response that answers with the value as JSON.
    pub fn into_response(self) -> (response: Response)
        ensures
            json_answer(json_encoded(self.0), response@),
            response.header_lines() <= 1,
    {
        json_response(json_to_vec(&self.0))
    }
}

} // verus!

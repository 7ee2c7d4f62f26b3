//! The response that a request is answered with.

use vstd::prelude::*;
use vstd::string::*;
use crate::server::wire::{
    extension_count, extensions_new, header_count, header_fields, headers_new,
};

verus! {

/// The status of a response: a number of three digits.
#[derive(Clone, Copy, PartialEq, Eq, Structural, Debug)]
pub struct StatusCode {
    code: u16,
}

/// A number that is no status: below 100 or above 999.
#[derive(Clone, Copy, Debug)]
pub struct InvalidStatusCode {}

impl View for StatusCode {
    type V = u16;

    closed spec fn view(&self) -> u16 {
        self.code
    }
}

impl StatusCode {
    #[verifier::type_invariant]
    spec fn three_digits(self) -> bool {
        100 <= self.code < 1000
    }

    /// The status with the number `code`.
    pub fn from_u16(code: u16) -> (status: Result<StatusCode, InvalidStatusCode>)
        ensures
            match status {
                Ok(status) => 100 <= code < 1000 && status@ == code,
                Err(_) => !(100 <= code < 1000),
            },
    {
        if 100 <= code && code < 1000 {
            Ok(StatusCode { code })
        } else {
            Err(InvalidStatusCode {  })
        }
    }

    /// The number of the status.
    pub fn as_u16(&self) -> (code: u16)
        ensures
            code == self@,
            100 <= code < 1000,
    {
        proof {
            use_type_invariant(self);
        }
        self.code
    }

    /// 200 OK
    pub fn ok() -> (status: StatusCode)
        ensures
            status@ == 200,
    {
        StatusCode { code: 200 }
    }

    /// 201 Created
    pub fn created() -> (status: StatusCode)
        ensures
            status@ == 201,
    {
        StatusCode { code: 201 }
    }

    /// 400 Bad Request
    pub fn bad_request() -> (status: StatusCode)
        ensures
            status@ == 400,
    {
        StatusCode { code: 400 }
    }

    /// 404 Not Found
    pub fn not_found() -> (status: StatusCode)
        ensures
            status@ == 404,
    {
        StatusCode { code: 404 }
    }

    /// 405 Method Not Allowed
    pub fn method_not_allowed() -> (status: StatusCode)
        ensures
            status@ == 405,
    {
        StatusCode { code: 405 }
    }

    /// 429 Too Many Requests
    pub fn too_many_requests() -> (status: StatusCode)
        ensures
            status@ == 429,
    {
        StatusCode { code: 429 }
    }

    /// 500 Internal Server Error
    pub fn internal_server_error() -> (status: StatusCode)
        ensures
            status@ == 500,
    {
        StatusCode { code: 500 }
    }
}

/// The body of a response: one buffer of bytes, handed out once.
#[derive(Debug)]
pub struct Body {
    data: Option<Vec<u8>>,
}

impl View for Body {
    type V = Option<Seq<u8>>;

    /// The bytes that are still to be handed out.
    closed spec fn view(&self) -> Option<Seq<u8>> {
        match self.data {
            Some(bytes) => Some(bytes@),
            None => None,
        }
    }
}

impl Body {
    /// A body of no bytes.
    pub fn empty() -> (body: Body)
        ensures
            body@ == Some(Seq::<u8>::empty()),
    {
        Body { data: Some(Vec::new()) }
    }

    /// The body made of `bytes`.
    pub fn from_bytes(bytes: Vec<u8>) -> (body: Body)
        ensures
            body@ == Some(bytes@),
    {
        Body { data: Some(bytes) }
    }

    /// The body made of the bytes of `text`.
    pub fn from_text(text: &str) -> (body: Body)
        ensures
            body@ == Some(text.spec_bytes()),
    {
        Body { data: Some(text.as_bytes_vec()) }
    }

    /// Hands out the bytes of the body. Nothing is left to hand out after.
    pub fn take_frame(&mut self) -> (frame: Option<Vec<u8>>)
        ensures
            final(self)@ is None,
            match frame {
                Some(bytes) => old(self)@ == Some(bytes@),
                None => old(self)@ is None,
            },
    {
        self.data.take()
    }

    /// A copy of the body.
    pub fn duplicate(&self) -> (copy: Body)
        ensures
            copy@ == self@,
    {
        match &self.data {
            Some(bytes) => {
                let mut copy: Vec<u8> = Vec::new();
                let mut i: usize = 0;
                while i < bytes.len()
                    invariant
                        i <= bytes.len(),
                        copy@ == bytes@.take(i as int),
                    decreases bytes.len() - i,
                {
                    copy.push(bytes[i]);
                    assert(copy@ =~= bytes@.take(i + 1));
                    i += 1;
                }
                assert(copy@ =~= bytes@);
                Body { data: Some(copy) }
            },
            None => Body { data: None },
        }
    }
}

/// What a response is, as plain values.
#[verifier::ext_equal]
pub struct ResponseView {
    pub status: u16,
    /// Under each header name, in lower case, its values in order.
    pub headers: Map<Seq<char>, Seq<Seq<u8>>>,
    pub extensions: http::Extensions,
    pub body: Option<Seq<u8>>,
}

/// The answer to a request.
pub struct Response {
    pub status: StatusCode,
    pub headers: http::HeaderMap<http::HeaderValue>,
    pub extensions: http::Extensions,
    pub body: Body,
}

impl View for Response {
    type V = ResponseView;

    open spec fn view(&self) -> ResponseView {
        ResponseView {
            status: self.status@,
            headers: header_fields(self.headers),
            extensions: self.extensions,
            body: self.body@,
        }
    }
}

impl Response {
    /// The response with status 200, no headers, no extensions, and `body`.
    pub fn new(body: Body) -> (response: Response)
        ensures
            response@.status == 200,
            response@.headers == Map::<Seq<char>, Seq<Seq<u8>>>::empty(),
            extension_count(response@.extensions) == 0,
            response@.body == body@,
            response.header_lines() == 0,
    {
        Response {
            status: StatusCode::ok(),
            headers: headers_new(),
            extensions: extensions_new(),
            body,
        }
    }

    /// How many header values the response carries.
    pub open spec fn header_lines(&self) -> nat {
        header_count(self.headers)
    }
}

} // verus!

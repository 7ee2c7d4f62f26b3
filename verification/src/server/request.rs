//! The request that a handler is called with.

use vstd::prelude::*;
use vstd::string::*;
use crate::server::method::Method;
use crate::server::params::Params;
use crate::server::response::Body;
use crate::server::wire::{extension_count, extensions_new, header_fields, headers_new};

verus! {

/// What a request is, as plain values.
#[verifier::ext_equal]
pub struct RequestView {
    pub method: Seq<char>,
    pub path: Seq<char>,
    pub headers: http::HeaderMap<http::HeaderValue>,
    pub extensions: http::Extensions,
    /// The bytes of the body, until they are read.
    pub body: Option<Seq<u8>>,
    /// Why the body could not be collected, where it could not, until the
    /// body is read.
    pub body_failure: Option<Seq<char>>,
    /// What the captures of the pattern hold, until they are moved out.
    pub params: Seq<(Seq<char>, Seq<char>)>,
    /// Whether the request was handed over as a whole. Nothing may be read
    /// from a request after that.
    pub taken: bool,
}

/// A request on its way through extractors to a handler.
///
/// An extractor moves out the part it is after and leaves the rest. The
/// request as a whole can be handed over once, and only by the extractor
/// that runs last.
pub struct Request {
    method: Method,
    path: String,
    headers: http::HeaderMap<http::HeaderValue>,
    extensions: http::Extensions,
    body: Body,
    body_failure: Option<String>,
    params: Params,
    taken: bool,
}

impl View for Request {
    type V = RequestView;

    closed spec fn view(&self) -> RequestView {
        RequestView {
            method: self.method@,
            path: self.path@,
            headers: self.headers,
            extensions: self.extensions,
            body: self.body@,
            body_failure: match self.body_failure {
                Some(reason) => Some(reason@),
                None => None,
            },
            params: self.params@,
            taken: self.taken,
        }
    }
}

/// What is left of a request that was handed over as a whole.
pub open spec fn spent(request: RequestView) -> bool {
    &&& request.taken
    &&& request.method == Seq::<char>::empty()
    &&& request.path == Seq::<char>::empty()
    &&& header_fields(request.headers) == Map::<Seq<char>, Seq<Seq<u8>>>::empty()
    &&& extension_count(request.extensions) == 0
    &&& request.body is None
    &&& request.body_failure is None
    &&& request.params == Seq::<(Seq<char>, Seq<char>)>::empty()
}

/// What collecting the body of `request` came to: its bytes, none for a
/// body that was read before, or the reason why it could not be collected.
pub open spec fn body_collected(request: RequestView) -> Result<Seq<u8>, Seq<char>> {
    match request.body_failure {
        Some(reason) => Err(reason),
        None => match request.body {
            Some(bytes) => Ok(bytes),
            None => Ok(Seq::empty()),
        },
    }
}

/// The bytes or the text that `collected` holds.
pub open spec fn collected_view(collected: Result<Vec<u8>, String>) -> Result<Seq<u8>, Seq<char>> {
    match collected {
        Ok(bytes) => Ok(bytes@),
        Err(text) => Err(text@),
    }
}

impl Request {
    /// The request for `method` at `path`, as it came in: no captures yet.
    pub fn new(
        method: Method,
        path: String,
        headers: http::HeaderMap<http::HeaderValue>,
        extensions: http::Extensions,
        body: Body,
    ) -> (request: Request)
        ensures
            request@ == (RequestView {
                method: method@,
                path: path@,
                headers: headers,
                extensions: extensions,
                body: body@,
                body_failure: None,
                params: Seq::empty(),
                taken: false,
            }),
    {
        Request {
            method,
            path,
            headers,
            extensions,
            body,
            body_failure: None,
            params: Params::new(),
            taken: false,
        }
    }

    /// Gives the request its body, once the bytes are collected.
    pub fn with_body(self, body: Body) -> (request: Request)
        requires
            !self@.taken,
        ensures
            request@ == (RequestView { body: body@, body_failure: None, ..self@ }),
    {
        let mut request = self;
        request.body = body;
        request.body_failure = None;
        request
    }

    /// Marks the body as one that could not be collected, for the reason
    /// given. The extractor that reads the body rejects the request for
    /// it.
    pub fn with_body_failure(self, reason: String) -> (request: Request)
        requires
            !self@.taken,
        ensures
            request@ == (RequestView { body: None, body_failure: Some(reason@), ..self@ }),
    {
        let mut request = self;
        request.body.take_frame();
        request.body_failure = Some(reason);
        request
    }

    /// Whether the request was handed over as a whole.
    pub fn is_taken(&self) -> (taken: bool)
        ensures
            taken == self@.taken,
    {
        self.taken
    }

    /// The method of the request.
    pub fn method(&self) -> (method: &Method)
        requires
            !self@.taken,
        ensures
            method@ == self@.method,
    {
        &self.method
    }

    /// The path of the request.
    pub fn path(&self) -> (path: &str)
        requires
            !self@.taken,
        ensures
            path@ == self@.path,
    {
        self.path.as_str()
    }

    /// The headers of the request.
    pub fn headers(&self) -> (headers: &http::HeaderMap<http::HeaderValue>)
        requires
            !self@.taken,
        ensures
            *headers == self@.headers,
    {
        &self.headers
    }

    /// The extensions of the request.
    pub fn extensions(&self) -> (extensions: &http::Extensions)
        requires
            !self@.taken,
        ensures
            *extensions == self@.extensions,
    {
        &self.extensions
    }

    /// What the captures of the pattern hold.
    pub fn params(&self) -> (params: &Params)
        requires
            !self@.taken,
        ensures
            params@ == self@.params,
    {
        &self.params
    }

    /// Gives the request the captures of the pattern that answered to its
    /// path.
    pub fn with_params(self, params: Params) -> (request: Request)
        requires
            !self@.taken,
        ensures
            request@ == (RequestView { params: params@, ..self@ }),
    {
        let mut request = self;
        request.params = params;
        request
    }

    /// Puts `headers` in place of the headers of the request and returns
    /// those it had.
    pub fn replace_headers(&mut self, headers: http::HeaderMap<http::HeaderValue>) -> (had:
        http::HeaderMap<http::HeaderValue>)
        requires
            !old(self)@.taken,
        ensures
            had == old(self)@.headers,
            final(self)@ == (RequestView { headers: headers, ..old(self)@ }),
    {
        let mut had = headers;
        core::mem::swap(&mut self.headers, &mut had);
        had
    }

    /// Moves the headers out and leaves none behind.
    pub fn take_headers(&mut self) -> (headers: http::HeaderMap<http::HeaderValue>)
        requires
            !old(self)@.taken,
        ensures
            headers == old(self)@.headers,
            header_fields(final(self)@.headers) == Map::<Seq<char>, Seq<Seq<u8>>>::empty(),
            final(self)@ == (RequestView { headers: final(self)@.headers, ..old(self)@ }),
    {
        self.replace_headers(headers_new())
    }

    /// Moves the extensions out and leaves none behind.
    pub fn take_extensions(&mut self) -> (extensions: http::Extensions)
        requires
            !old(self)@.taken,
        ensures
            extensions == old(self)@.extensions,
            extension_count(final(self)@.extensions) == 0,
            final(self)@ == (RequestView { extensions: final(self)@.extensions, ..old(self)@ }),
    {
        let mut extensions = extensions_new();
        core::mem::swap(&mut self.extensions, &mut extensions);
        extensions
    }

    /// Moves the captures out and leaves none behind.
    pub fn take_params(&mut self) -> (params: Params)
        requires
            !old(self)@.taken,
        ensures
            params@ == old(self)@.params,
            final(self)@ == (RequestView { params: Seq::empty(), ..old(self)@ }),
    {
        self.params.take()
    }

    /// Moves the bytes of the body out. A body that was read before gives
    /// no bytes.
    pub fn take_body(&mut self) -> (bytes: Vec<u8>)
        requires
            !old(self)@.taken,
        ensures
            bytes@ == match old(self)@.body {
                Some(bytes) => bytes,
                None => Seq::<u8>::empty(),
            },
            final(self)@ == (RequestView { body: None, ..old(self)@ }),
    {
        match self.body.take_frame() {
            Some(bytes) => bytes,
            None => Vec::new(),
        }
    }

    /// Moves out what collecting the body came to: its bytes, or the
    /// reason why it could not be collected. A body that was read before
    /// gives no bytes.
    pub fn take_collected(&mut self) -> (collected: Result<Vec<u8>, String>)
        requires
            !old(self)@.taken,
        ensures
            collected_view(collected) == body_collected(old(self)@),
            final(self)@ == (RequestView { body: None, body_failure: None, ..old(self)@ }),
    {
        let bytes = match self.body.take_frame() {
            Some(bytes) => bytes,
            None => Vec::new(),
        };
        match self.body_failure.take() {
            Some(reason) => Err(reason),
            None => Ok(bytes),
        }
    }

    /// Hands the request over as a whole. What stays behind is spent:
    /// nothing may be read from it.
    pub fn take(&mut self) -> (whole: Request)
        requires
            !old(self)@.taken,
        ensures
            whole@ == old(self)@,
            spent(final(self)@),
    {
        let mut whole = Request {
            method: Method::new(""),
            path: String::new(),
            headers: headers_new(),
            extensions: extensions_new(),
            body: Body::from_bytes(Vec::new()),
            body_failure: None,
            params: Params::new(),
            taken: true,
        };
        whole.body.take_frame();
        proof {
            reveal_strlit("");
        }
        assert(whole@.method =~= Seq::<char>::empty());
        core::mem::swap(self, &mut whole);
        whole
    }
}

} // verus!

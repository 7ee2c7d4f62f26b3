//! Extractors: the typed arguments that a handler takes out of a request.

pub mod json;
pub mod path;

pub use crate::server::request::Request;

use vstd::prelude::*;
use vstd::string::*;
use crate::frontend::response::ResponsePart;
use crate::server::request::{spent, RequestView};
use crate::server::wire::{extension_count, header_fields};

verus! {

/// A value that is taken out of a request on its way to a handler.
///
/// The extractors of a handler run in the order of its arguments. Each
/// moves its part out of the request; a rejection ends the run and is
/// applied to the response in place of what the handler would return.
pub trait FromRequest: Sized {
    /// What the request is answered with where the value cannot be had.
    type Rejection: ResponsePart;

    /// Whether the extractor hands the request over as a whole. Such an
    /// extractor can only run last.
    spec fn takes_request() -> bool;

    /// What extraction gives: `outcome` and the request `after` are what
    /// the extractor makes of the request `before`.
    spec fn extraction(
        before: RequestView,
        outcome: Result<Self, Self::Rejection>,
        after: RequestView,
    ) -> bool;

    /// Whether the extractor hands the request over as a whole.
    fn consumes_request() -> (consumes: bool)
        ensures
            consumes == Self::takes_request(),
    ;

    /// Takes the value out of `request`. A rejection is one that can build
    /// a response: a fresh response has room for the header values that
    /// it adds.
    fn from_request(request: &mut Request) -> (outcome: Result<Self, Self::Rejection>)
        requires
            !old(request)@.taken,
        ensures
            Self::extraction(old(request)@, outcome, final(request)@),
            final(request)@.taken ==> Self::takes_request(),
            outcome matches Err(rejection) ==> rejection.footprint().admits(0),
    ;
}

/// The headers of a request.
pub struct Headers(pub http::HeaderMap<http::HeaderValue>);

/// The extensions of a request.
pub struct RequestExtensions(pub http::Extensions);

/// `after` is `before` with its headers moved out.
pub open spec fn without_headers(before: RequestView, after: RequestView) -> bool {
    &&& header_fields(after.headers) == Map::<Seq<char>, Seq<Seq<u8>>>::empty()
    &&& after == (RequestView { headers: after.headers, ..before })
}

/// `after` is `before` with its extensions moved out.
pub open spec fn without_extensions(before: RequestView, after: RequestView) -> bool {
    &&& extension_count(after.extensions) == 0
    &&& after == (RequestView { extensions: after.extensions, ..before })
}

impl FromRequest for http::HeaderMap<http::HeaderValue> {
    type Rejection = ();

    open spec fn takes_request() -> bool {
        false
    }

    /// Moves the headers out of the request and leaves none behind.
    open spec fn extraction(
        before: RequestView,
        outcome: Result<Self, ()>,
        after: RequestView,
    ) -> bool {
        &&& outcome == Ok::<Self, ()>(before.headers)
        &&& without_headers(before, after)
    }

    fn consumes_request() -> (consumes: bool) {
        false
    }

    fn from_request(request: &mut Request) -> (outcome: Result<Self, ()>) {
        Ok(request.take_headers())
    }
}

impl FromRequest for Headers {
    type Rejection = ();

    open spec fn takes_request() -> bool {
        false
    }

    /// Moves the headers out of the request and leaves none behind.
    open spec fn extraction(
        before: RequestView,
        outcome: Result<Self, ()>,
        after: RequestView,
    ) -> bool {
        &&& outcome == Ok::<Self, ()>(Headers(before.headers))
        &&& without_headers(before, after)
    }

    fn consumes_request() -> (consumes: bool) {
        false
    }

    fn from_request(request: &mut Request) -> (outcome: Result<Self, ()>) {
        Ok(Headers(request.take_headers()))
    }
}

impl FromRequest for http::Extensions {
    type Rejection = ();

    open spec fn takes_request() -> bool {
        false
    }

    /// Moves the extensions out of the request and leaves none behind.
    open spec fn extraction(
        before: RequestView,
        outcome: Result<Self, ()>,
        after: RequestView,
    ) -> bool {
        &&& outcome == Ok::<Self, ()>(before.extensions)
        &&& without_extensions(before, after)
    }

    fn consumes_request() -> (consumes: bool) {
        false
    }

    fn from_request(request: &mut Request) -> (outcome: Result<Self, ()>) {
        Ok(request.take_extensions())
    }
}

impl FromRequest for RequestExtensions {
    type Rejection = ();

    open spec fn takes_request() -> bool {
        false
    }

    /// Moves the extensions out of the request and leaves none behind.
    open spec fn extraction(
        before: RequestView,
        outcome: Result<Self, ()>,
        after: RequestView,
    ) -> bool {
        &&& outcome == Ok::<Self, ()>(RequestExtensions(before.extensions))
        &&& without_extensions(before, after)
    }

    fn consumes_request() -> (consumes: bool) {
        false
    }

    fn from_request(request: &mut Request) -> (outcome: Result<Self, ()>) {
        Ok(RequestExtensions(request.take_extensions()))
    }
}

impl FromRequest for Request {
    type Rejection = ();

    open spec fn takes_request() -> bool {
        true
    }

    /// Hands the request over as a whole and leaves a spent one behind.
    open spec fn extraction(
        before: RequestView,
        outcome: Result<Self, ()>,
        after: RequestView,
    ) -> bool {
        &&& outcome matches Ok(whole)
        &&& whole@ == before
        &&& spent(after)
    }

    fn consumes_request() -> (consumes: bool) {
        true
    }

    fn from_request(request: &mut Request) -> (outcome: Result<Self, ()>) {
        Ok(request.take())
    }
}

} // verus!

//! The extractor of what the captures of a pattern hold.

use vstd::prelude::*;
use crate::frontend::request::FromRequest;
use crate::server::params::Params;
use crate::server::request::{Request, RequestView};

verus! {

/// What the captures of the pattern hold for the request: each name with
/// its text. Extraction moves them out of the request, so a second
/// extraction finds none.
pub struct Path(pub Params);

impl FromRequest for Path {
    type Rejection = ();

    open spec fn takes_request() -> bool {
        false
    }

    /// Moves the captures out of the request and leaves none behind.
    open spec fn extraction(
        before: RequestView,
        outcome: Result<Self, ()>,
        after: RequestView,
    ) -> bool {
        &&& outcome matches Ok(path)
        &&& path.0@ == before.params
        &&& after == (RequestView { params: Seq::empty(), ..before })
    }

    fn consumes_request() -> (consumes: bool) {
        false
    }

    fn from_request(request: &mut Request) -> (outcome: Result<Self, ()>) {
        Ok(Path(request.take_params()))
    }
}

/// The first extraction yields what the captures hold, a second one
/// yields nothing: the captures were moved out.
pub proof fn captures_are_extracted_once(
    before: RequestView,
    first: Result<Path, ()>,
    mid: RequestView,
    second: Result<Path, ()>,
    after: RequestView,
)
    requires
        <Path as FromRequest>::extraction(before, first, mid),
        <Path as FromRequest>::extraction(mid, second, after),
    ensures
        first matches Ok(path) && path.0@ == before.params,
        second matches Ok(path) && path.0@.len() == 0,
{
}

} // verus!

//! Handlers: the functions that answer requests, and the protocol that
//! turns a request into their arguments and their result into a response.

use std::marker::PhantomData;
use vstd::prelude::*;
use crate::frontend::request::FromRequest;
use crate::frontend::response::{answered, fresh, respond, ResponsePart};
use crate::server::request::{Request, RequestView};
use crate::server::response::{Response, ResponseView};

verus! {

/// A handler given as a function, with the types of its arguments and of
/// what it returns.
pub struct HandlerFn<F, Fut, Resp, Args> {
    pub func: F,
    pub phantom: PhantomData<(Fut, Resp, Args)>,
}

impl<F, Fut, Resp, Args> HandlerFn<F, Fut, Resp, Args> {
    /// Wraps the function.
    pub fn new(func: F) -> (handler: Self)
        ensures
            handler.func == func,
    {
        HandlerFn { func, phantom: PhantomData }
    }
}

impl<F, Fut, Resp: ResponsePart, Args: Arguments> HandlerFn<F, Fut, Resp, Args> {
    /// Whether the arguments of the function can be extracted: no
    /// extractor but the last hands the request over as a whole.
    pub fn is_admissible(&self) -> (admissible: bool)
        ensures
            admissible == Args::admissible(),
    {
        Args::admitted()
    }

    /// Extracts the arguments of the function from `request`, in their
    /// order. The first rejection ends the extraction and gives the
    /// response to answer with.
    pub fn arguments(&self, request: &mut Request) -> (outcome: Result<Args, Response>)
        requires
            !old(request)@.taken,
            Args::admissible(),
        ensures
            Args::extraction(old(request)@, outcome, final(request)@),
    {
        Args::extract(request)
    }

    /// The response that what the function returned builds. A fresh
    /// response has room for the header values that it adds.
    pub fn response(&self, parts: Resp) -> (response: Response)
        requires
            parts.footprint().admits(0),
        ensures
            answered(parts, response@),
    {
        respond(parts)
    }
}

/// A handler given as a function that takes extractors only.
pub struct Handler<F, Fut, Resp, Args> {
    pub func: F,
    pub phantom: PhantomData<(Fut, Resp, Args)>,
}

impl<F, Fut, Resp, Args> Handler<F, Fut, Resp, Args> {
    /// Wraps the function.
    pub fn new(func: F) -> (handler: Self)
        ensures
            handler.func == func,
    {
        Handler { func, phantom: PhantomData }
    }
}

impl<F, Fut, Resp: ResponsePart, Args: Arguments> Handler<F, Fut, Resp, Args> {
    /// Extracts the arguments of the function from `request`, in their
    /// order. The first rejection ends the extraction and gives the
    /// response to answer with.
    pub fn arguments(&self, request: &mut Request) -> (outcome: Result<Args, Response>)
        requires
            !old(request)@.taken,
            Args::admissible(),
        ensures
            Args::extraction(old(request)@, outcome, final(request)@),
    {
        Args::extract(request)
    }

    /// The response that what the function returned builds. A fresh
    /// response has room for the header values that it adds.
    pub fn response(&self, parts: Resp) -> (response: Response)
        requires
            parts.footprint().admits(0),
        ensures
            answered(parts, response@),
    {
        respond(parts)
    }
}

/// The arguments of a handler: a tuple of extractors.
pub trait Arguments: Sized {
    /// No extractor but the last hands the request over as a whole.
    spec fn admissible() -> bool;

    /// Whether the last extractor hands the request over as a whole.
    spec fn takes_request() -> bool;

    /// What extraction gives: `outcome` and the request `after` are what
    /// the extractors, run in their order, make of the request `before`.
    spec fn extraction(before: RequestView, outcome: Result<Self, Response>, after: RequestView) -> bool;

    /// Whether no extractor but the last hands the request over as a
    /// whole.
    fn admitted() -> (admitted: bool)
        ensures
            admitted == Self::admissible(),
    ;

    /// Whether the last extractor hands the request over as a whole.
    fn consumes_request() -> (consumes: bool)
        ensures
            consumes == Self::takes_request(),
    ;

    /// Runs the extractors on `request` in their order. The first
    /// rejection ends the run; it is applied to a fresh response, which is
    /// returned in place of the arguments.
    fn extract(request: &mut Request) -> (outcome: Result<Self, Response>)
        requires
            !old(request)@.taken,
            Self::admissible(),
        ensures
            Self::extraction(old(request)@, outcome, final(request)@),
            final(request)@.taken ==> Self::takes_request(),
    ;
}

/// Two extractors are admissible as the arguments of a handler exactly
/// where the first does not hand the request over as a whole: only the
/// extractor that runs last may do so. Two extractors that each take the
/// whole request are never admissible.
pub proof fn only_the_last_may_take_the_request<A: FromRequest, B: FromRequest>()
    ensures
        <(A, B) as Arguments>::admissible() <==> !A::takes_request(),
        A::takes_request() && B::takes_request() ==> !<(A, B) as Arguments>::admissible(),
{
}

/// Three extractors are admissible as the arguments of a handler
/// exactly where none but the last hands the request over as a whole.
pub proof fn only_the_last_of_three_may_take_the_request<A: FromRequest, B: FromRequest, C: FromRequest>()
    ensures
        <(A, B, C) as Arguments>::admissible() <==> !(A::takes_request() || B::takes_request()),
{
}

/// Four extractors are admissible as the arguments of a handler
/// exactly where none but the last hands the request over as a whole.
pub proof fn only_the_last_of_four_may_take_the_request<A: FromRequest, B: FromRequest, C: FromRequest, D: FromRequest>()
    ensures
        <(A, B, C, D) as Arguments>::admissible() <==> !(A::takes_request() || B::takes_request() || C::takes_request()),
{
}

/// Five extractors are admissible as the arguments of a handler
/// exactly where none but the last hands the request over as a whole.
pub proof fn only_the_last_of_five_may_take_the_request<A: FromRequest, B: FromRequest, C: FromRequest, D: FromRequest, E: FromRequest>()
    ensures
        <(A, B, C, D, E) as Arguments>::admissible() <==> !(A::takes_request() || B::takes_request() || C::takes_request() || D::takes_request()),
{
}

/// Six extractors are admissible as the arguments of a handler
/// exactly where none but the last hands the request over as a whole.
pub proof fn only_the_last_of_six_may_take_the_request<A: FromRequest, B: FromRequest, C: FromRequest, D: FromRequest, E: FromRequest, F: FromRequest>()
    ensures
        <(A, B, C, D, E, F) as Arguments>::admissible() <==> !(A::takes_request() || B::takes_request() || C::takes_request() || D::takes_request() || E::takes_request()),
{
}

/// Seven extractors are admissible as the arguments of a handler
/// exactly where none but the last hands the request over as a whole.
pub proof fn only_the_last_of_seven_may_take_the_request<A: FromRequest, B: FromRequest, C: FromRequest, D: FromRequest, E: FromRequest, F: FromRequest, G: FromRequest>()
    ensures
        <(A, B, C, D, E, F, G) as Arguments>::admissible() <==> !(A::takes_request() || B::takes_request() || C::takes_request() || D::takes_request() || E::takes_request() || F::takes_request()),
{
}

/// Eight extractors are admissible as the arguments of a handler
/// exactly where none but the last hands the request over as a whole.
pub proof fn only_the_last_of_eight_may_take_the_request<A: FromRequest, B: FromRequest, C: FromRequest, D: FromRequest, E: FromRequest, F: FromRequest, G: FromRequest, H: FromRequest>()
    ensures
        <(A, B, C, D, E, F, G, H) as Arguments>::admissible() <==> !(A::takes_request() || B::takes_request() || C::takes_request() || D::takes_request() || E::takes_request() || F::takes_request() || G::takes_request()),
{
}

/// Nine extractors are admissible as the arguments of a handler
/// exactly where none but the last hands the request over as a whole.
pub proof fn only_the_last_of_nine_may_take_the_request<A: FromRequest, B: FromRequest, C: FromRequest, D: FromRequest, E: FromRequest, F: FromRequest, G: FromRequest, H: FromRequest, I: FromRequest>()
    ensures
        <(A, B, C, D, E, F, G, H, I) as Arguments>::admissible() <==> !(A::takes_request() || B::takes_request() || C::takes_request() || D::takes_request() || E::takes_request() || F::takes_request() || G::takes_request() || H::takes_request()),
{
}

/// Ten extractors are admissible as the arguments of a handler
/// exactly where none but the last hands the request over as a whole.
pub proof fn only_the_last_of_ten_may_take_the_request<A: FromRequest, B: FromRequest, C: FromRequest, D: FromRequest, E: FromRequest, F: FromRequest, G: FromRequest, H: FromRequest, I: FromRequest, J: FromRequest>()
    ensures
        <(A, B, C, D, E, F, G, H, I, J) as Arguments>::admissible() <==> !(A::takes_request() || B::takes_request() || C::takes_request() || D::takes_request() || E::takes_request() || F::takes_request() || G::takes_request() || H::takes_request() || I::takes_request()),
{
}

/// Eleven extractors are admissible as the arguments of a handler
/// exactly where none but the last hands the request over as a whole.
pub proof fn only_the_last_of_eleven_may_take_the_request<A: FromRequest, B: FromRequest, C: FromRequest, D: FromRequest, E: FromRequest, F: FromRequest, G: FromRequest, H: FromRequest, I: FromRequest, J: FromRequest, K: FromRequest>()
    ensures
        <(A, B, C, D, E, F, G, H, I, J, K) as Arguments>::admissible() <==> !(A::takes_request() || B::takes_request() || C::takes_request() || D::takes_request() || E::takes_request() || F::takes_request() || G::takes_request() || H::takes_request() || I::takes_request() || J::takes_request()),
{
}

/// Twelve extractors are admissible as the arguments of a handler
/// exactly where none but the last hands the request over as a whole.
pub proof fn only_the_last_of_twelve_may_take_the_request<A: FromRequest, B: FromRequest, C: FromRequest, D: FromRequest, E: FromRequest, F: FromRequest, G: FromRequest, H: FromRequest, I: FromRequest, J: FromRequest, K: FromRequest, L: FromRequest>()
    ensures
        <(A, B, C, D, E, F, G, H, I, J, K, L) as Arguments>::admissible() <==> !(A::takes_request() || B::takes_request() || C::takes_request() || D::takes_request() || E::takes_request() || F::takes_request() || G::takes_request() || H::takes_request() || I::takes_request() || J::takes_request() || K::takes_request()),
{
}

/// The request that stays behind after it was handed over as a whole is
/// taken: no extractor can run on it.
pub proof fn request_is_handed_over_once(
    before: RequestView,
    outcome: Result<Request, ()>,
    after: RequestView,
)
    requires
        <Request as FromRequest>::extraction(before, outcome, after),
    ensures
        after.taken,
        !<(Request, Request) as Arguments>::admissible(),
{
}

/// The response that a handler's pair of parts builds is the second part
/// applied to the first part applied to a fresh response.
pub proof fn pair_builds_on_fresh_response<A: ResponsePart, B: ResponsePart>(
    first: A,
    second: B,
    response: ResponseView,
)
    requires
        answered((first, second), response),
    ensures
        exists|start: ResponseView|
            fresh(start) && response == second.applied(#[trigger] first.applied(start)),
{
    let start = choose|start: ResponseView|
        fresh(start) && #[trigger] (first, second).applied(start) == response;
    assert(response == second.applied(first.applied(start)));
}

/// One more extractor after those of `P`: `head` and `mid` are what the
/// extractors of `P` make of `before`; where they give arguments, `last`
/// and `after` are what the extractor `L` makes of `mid`, and `outcome`
/// holds those arguments with the value of `L`, or the response that the
/// rejection of `L` builds. A rejection among `P` is the outcome as it is.
pub open spec fn followed<P: Arguments, L: FromRequest>(
    before: RequestView,
    head: Result<P, Response>,
    mid: RequestView,
    last: Result<L, L::Rejection>,
    outcome: Result<(P, L), Response>,
    after: RequestView,
) -> bool {
    &&& P::extraction(before, head, mid)
    &&& match head {
        Err(response) => outcome == Err::<(P, L), Response>(response) && after == mid,
        Ok(arguments) => {
            &&& L::extraction(mid, last, after)
            &&& match last {
                Ok(value) => outcome == Ok::<(P, L), Response>((arguments, value)),
                Err(rejection) => outcome matches Err(response) && answered(rejection, response@),
            }
        },
    }
}

impl Arguments for () {
    open spec fn admissible() -> bool {
        true
    }

    open spec fn takes_request() -> bool {
        false
    }

    /// Leaves the request as it is.
    open spec fn extraction(before: RequestView, outcome: Result<(), Response>, after: RequestView) -> bool {
        outcome is Ok && after == before
    }

    fn admitted() -> (admitted: bool) {
        true
    }

    fn consumes_request() -> (consumes: bool) {
        false
    }

    fn extract(request: &mut Request) -> (outcome: Result<(), Response>) {
        Ok(())
    }
}

impl<A: FromRequest> Arguments for (A,) {
    open spec fn admissible() -> bool {
        <() as Arguments>::admissible() && !<() as Arguments>::takes_request()
    }

    open spec fn takes_request() -> bool {
        A::takes_request()
    }

    /// Runs the one extractor in its order.
    open spec fn extraction(before: RequestView, outcome: Result<Self, Response>, after: RequestView) -> bool {
        exists|
            head: Result<(), Response>,
            mid: RequestView,
            last: Result<A, A::Rejection>,
            grouped: Result<((), A), Response>,
        |
            #[trigger] followed::<(), A>(before, head, mid, last, grouped, after) && outcome
                == match grouped {
                Ok(paired) => Ok::<Self, Response>((paired.1,)),
                Err(response) => Err::<Self, Response>(response),
            }
    }

    fn admitted() -> (admitted: bool) {
        <() as Arguments>::admitted() && !<() as Arguments>::consumes_request()
    }

    fn consumes_request() -> (consumes: bool) {
        A::consumes_request()
    }

    fn extract(request: &mut Request) -> (outcome: Result<Self, Response>) {
        let ghost before = request@;
        let head = <() as Arguments>::extract(request);
        let ghost mid = request@;
        let ghost held = head;
        let arguments = match head {
            Ok(arguments) => arguments,
            Err(response) => {
                assert(followed::<(), A>(
                    before,
                    held,
                    mid,
                    arbitrary(),
                    Err::<((), A), Response>(response),
                    mid,
                ));
                return Err(response);
            },
        };
        let last = A::from_request(request);
        let ghost found = last;
        match last {
            Ok(value) => {
                assert(followed::<(), A>(
                    before,
                    held,
                    mid,
                    found,
                    Ok::<((), A), Response>((arguments, value)),
                    request@,
                ));
                Ok((value,))
            },
            Err(rejection) => {
                let response = respond(rejection);
                assert(followed::<(), A>(
                    before,
                    held,
                    mid,
                    found,
                    Err::<((), A), Response>(response),
                    request@,
                ));
                Err(response)
            },
        }
    }
}

impl<A: FromRequest, B: FromRequest> Arguments for (A, B) {
    open spec fn admissible() -> bool {
        <(A,) as Arguments>::admissible() && !<(A,) as Arguments>::takes_request()
    }

    open spec fn takes_request() -> bool {
        B::takes_request()
    }

    /// Runs the two extractors in their order.
    open spec fn extraction(before: RequestView, outcome: Result<Self, Response>, after: RequestView) -> bool {
        exists|
            head: Result<(A,), Response>,
            mid: RequestView,
            last: Result<B, B::Rejection>,
            grouped: Result<((A,), B), Response>,
        |
            #[trigger] followed::<(A,), B>(before, head, mid, last, grouped, after) && outcome
                == match grouped {
                Ok(paired) => Ok::<Self, Response>((paired.0.0, paired.1)),
                Err(response) => Err::<Self, Response>(response),
            }
    }

    fn admitted() -> (admitted: bool) {
        <(A,) as Arguments>::admitted() && !<(A,) as Arguments>::consumes_request()
    }

    fn consumes_request() -> (consumes: bool) {
        B::consumes_request()
    }

    fn extract(request: &mut Request) -> (outcome: Result<Self, Response>) {
        let ghost before = request@;
        let head = <(A,) as Arguments>::extract(request);
        let ghost mid = request@;
        let ghost held = head;
        let arguments = match head {
            Ok(arguments) => arguments,
            Err(response) => {
                assert(followed::<(A,), B>(
                    before,
                    held,
                    mid,
                    arbitrary(),
                    Err::<((A,), B), Response>(response),
                    mid,
                ));
                return Err(response);
            },
        };
        let last = B::from_request(request);
        let ghost found = last;
        match last {
            Ok(value) => {
                assert(followed::<(A,), B>(
                    before,
                    held,
                    mid,
                    found,
                    Ok::<((A,), B), Response>((arguments, value)),
                    request@,
                ));
                Ok((arguments.0, value))
            },
            Err(rejection) => {
                let response = respond(rejection);
                assert(followed::<(A,), B>(
                    before,
                    held,
                    mid,
                    found,
                    Err::<((A,), B), Response>(response),
                    request@,
                ));
                Err(response)
            },
        }
    }
}

impl<A: FromRequest, B: FromRequest, C: FromRequest> Arguments for (A, B, C) {
    open spec fn admissible() -> bool {
        <(A, B) as Arguments>::admissible() && !<(A, B) as Arguments>::takes_request()
    }

    open spec fn takes_request() -> bool {
        C::takes_request()
    }

    /// Runs the three extractors in their order.
    open spec fn extraction(before: RequestView, outcome: Result<Self, Response>, after: RequestView) -> bool {
        exists|
            head: Result<(A, B), Response>,
            mid: RequestView,
            last: Result<C, C::Rejection>,
            grouped: Result<((A, B), C), Response>,
        |
            #[trigger] followed::<(A, B), C>(before, head, mid, last, grouped, after) && outcome
                == match grouped {
                Ok(paired) => Ok::<Self, Response>((paired.0.0, paired.0.1, paired.1)),
                Err(response) => Err::<Self, Response>(response),
            }
    }

    fn admitted() -> (admitted: bool) {
        <(A, B) as Arguments>::admitted() && !<(A, B) as Arguments>::consumes_request()
    }

    fn consumes_request() -> (consumes: bool) {
        C::consumes_request()
    }

    fn extract(request: &mut Request) -> (outcome: Result<Self, Response>) {
        let ghost before = request@;
        let head = <(A, B) as Arguments>::extract(request);
        let ghost mid = request@;
        let ghost held = head;
        let arguments = match head {
            Ok(arguments) => arguments,
            Err(response) => {
                assert(followed::<(A, B), C>(
                    before,
                    held,
                    mid,
                    arbitrary(),
                    Err::<((A, B), C), Response>(response),
                    mid,
                ));
                return Err(response);
            },
        };
        let last = C::from_request(request);
        let ghost found = last;
        match last {
            Ok(value) => {
                assert(followed::<(A, B), C>(
                    before,
                    held,
                    mid,
                    found,
                    Ok::<((A, B), C), Response>((arguments, value)),
                    request@,
                ));
                Ok((arguments.0, arguments.1, value))
            },
            Err(rejection) => {
                let response = respond(rejection);
                assert(followed::<(A, B), C>(
                    before,
                    held,
                    mid,
                    found,
                    Err::<((A, B), C), Response>(response),
                    request@,
                ));
                Err(response)
            },
        }
    }
}

impl<A: FromRequest, B: FromRequest, C: FromRequest, D: FromRequest> Arguments for (A, B, C, D) {
    open spec fn admissible() -> bool {
        <(A, B, C) as Arguments>::admissible() && !<(A, B, C) as Arguments>::takes_request()
    }

    open spec fn takes_request() -> bool {
        D::takes_request()
    }

    /// Runs the four extractors in their order.
    open spec fn extraction(before: RequestView, outcome: Result<Self, Response>, after: RequestView) -> bool {
        exists|
            head: Result<(A, B, C), Response>,
            mid: RequestView,
            last: Result<D, D::Rejection>,
            grouped: Result<((A, B, C), D), Response>,
        |
            #[trigger] followed::<(A, B, C), D>(before, head, mid, last, grouped, after) && outcome
                == match grouped {
                Ok(paired) => Ok::<Self, Response>((paired.0.0, paired.0.1, paired.0.2, paired.1)),
                Err(response) => Err::<Self, Response>(response),
            }
    }

    fn admitted() -> (admitted: bool) {
        <(A, B, C) as Arguments>::admitted() && !<(A, B, C) as Arguments>::consumes_request()
    }

    fn consumes_request() -> (consumes: bool) {
        D::consumes_request()
    }

    fn extract(request: &mut Request) -> (outcome: Result<Self, Response>) {
        let ghost before = request@;
        let head = <(A, B, C) as Arguments>::extract(request);
        let ghost mid = request@;
        let ghost held = head;
        let arguments = match head {
            Ok(arguments) => arguments,
            Err(response) => {
                assert(followed::<(A, B, C), D>(
                    before,
                    held,
                    mid,
                    arbitrary(),
                    Err::<((A, B, C), D), Response>(response),
                    mid,
                ));
                return Err(response);
            },
        };
        let last = D::from_request(request);
        let ghost found = last;
        match last {
            Ok(value) => {
                assert(followed::<(A, B, C), D>(
                    before,
                    held,
                    mid,
                    found,
                    Ok::<((A, B, C), D), Response>((arguments, value)),
                    request@,
                ));
                Ok((arguments.0, arguments.1, arguments.2, value))
            },
            Err(rejection) => {
                let response = respond(rejection);
                assert(followed::<(A, B, C), D>(
                    before,
                    held,
                    mid,
                    found,
                    Err::<((A, B, C), D), Response>(response),
                    request@,
                ));
                Err(response)
            },
        }
    }
}

impl<A: FromRequest, B: FromRequest, C: FromRequest, D: FromRequest, E: FromRequest> Arguments for (A, B, C, D, E) {
    open spec fn admissible() -> bool {
        <(A, B, C, D) as Arguments>::admissible() && !<(A, B, C, D) as Arguments>::takes_request()
    }

    open spec fn takes_request() -> bool {
        E::takes_request()
    }

    /// Runs the five extractors in their order.
    open spec fn extraction(before: RequestView, outcome: Result<Self, Response>, after: RequestView) -> bool {
        exists|
            head: Result<(A, B, C, D), Response>,
            mid: RequestView,
            last: Result<E, E::Rejection>,
            grouped: Result<((A, B, C, D), E), Response>,
        |
            #[trigger] followed::<(A, B, C, D), E>(before, head, mid, last, grouped, after) && outcome
                == match grouped {
                Ok(paired) => Ok::<Self, Response>((paired.0.0, paired.0.1, paired.0.2, paired.0.3, paired.1)),
                Err(response) => Err::<Self, Response>(response),
            }
    }

    fn admitted() -> (admitted: bool) {
        <(A, B, C, D) as Arguments>::admitted() && !<(A, B, C, D) as Arguments>::consumes_request()
    }

    fn consumes_request() -> (consumes: bool) {
        E::consumes_request()
    }

    fn extract(request: &mut Request) -> (outcome: Result<Self, Response>) {
        let ghost before = request@;
        let head = <(A, B, C, D) as Arguments>::extract(request);
        let ghost mid = request@;
        let ghost held = head;
        let arguments = match head {
            Ok(arguments) => arguments,
            Err(response) => {
                assert(followed::<(A, B, C, D), E>(
                    before,
                    held,
                    mid,
                    arbitrary(),
                    Err::<((A, B, C, D), E), Response>(response),
                    mid,
                ));
                return Err(response);
            },
        };
        let last = E::from_request(request);
        let ghost found = last;
        match last {
            Ok(value) => {
                assert(followed::<(A, B, C, D), E>(
                    before,
                    held,
                    mid,
                    found,
                    Ok::<((A, B, C, D), E), Response>((arguments, value)),
                    request@,
                ));
                Ok((arguments.0, arguments.1, arguments.2, arguments.3, value))
            },
            Err(rejection) => {
                let response = respond(rejection);
                assert(followed::<(A, B, C, D), E>(
                    before,
                    held,
                    mid,
                    found,
                    Err::<((A, B, C, D), E), Response>(response),
                    request@,
                ));
                Err(response)
            },
        }
    }
}

impl<A: FromRequest, B: FromRequest, C: FromRequest, D: FromRequest, E: FromRequest, F: FromRequest> Arguments for (A, B, C, D, E, F) {
    open spec fn admissible() -> bool {
        <(A, B, C, D, E) as Arguments>::admissible() && !<(A, B, C, D, E) as Arguments>::takes_request()
    }

    open spec fn takes_request() -> bool {
        F::takes_request()
    }

    /// Runs the six extractors in their order.
    open spec fn extraction(before: RequestView, outcome: Result<Self, Response>, after: RequestView) -> bool {
        exists|
            head: Result<(A, B, C, D, E), Response>,
            mid: RequestView,
            last: Result<F, F::Rejection>,
            grouped: Result<((A, B, C, D, E), F), Response>,
        |
            #[trigger] followed::<(A, B, C, D, E), F>(before, head, mid, last, grouped, after) && outcome
                == match grouped {
                Ok(paired) => Ok::<Self, Response>((paired.0.0, paired.0.1, paired.0.2, paired.0.3, paired.0.4, paired.1)),
                Err(response) => Err::<Self, Response>(response),
            }
    }

    fn admitted() -> (admitted: bool) {
        <(A, B, C, D, E) as Arguments>::admitted() && !<(A, B, C, D, E) as Arguments>::consumes_request()
    }

    fn consumes_request() -> (consumes: bool) {
        F::consumes_request()
    }

    fn extract(request: &mut Request) -> (outcome: Result<Self, Response>) {
        let ghost before = request@;
        let head = <(A, B, C, D, E) as Arguments>::extract(request);
        let ghost mid = request@;
        let ghost held = head;
        let arguments = match head {
            Ok(arguments) => arguments,
            Err(response) => {
                assert(followed::<(A, B, C, D, E), F>(
                    before,
                    held,
                    mid,
                    arbitrary(),
                    Err::<((A, B, C, D, E), F), Response>(response),
                    mid,
                ));
                return Err(response);
            },
        };
        let last = F::from_request(request);
        let ghost found = last;
        match last {
            Ok(value) => {
                assert(followed::<(A, B, C, D, E), F>(
                    before,
                    held,
                    mid,
                    found,
                    Ok::<((A, B, C, D, E), F), Response>((arguments, value)),
                    request@,
                ));
                Ok((arguments.0, arguments.1, arguments.2, arguments.3, arguments.4, value))
            },
            Err(rejection) => {
                let response = respond(rejection);
                assert(followed::<(A, B, C, D, E), F>(
                    before,
                    held,
                    mid,
                    found,
                    Err::<((A, B, C, D, E), F), Response>(response),
                    request@,
                ));
                Err(response)
            },
        }
    }
}

impl<A: FromRequest, B: FromRequest, C: FromRequest, D: FromRequest, E: FromRequest, F: FromRequest, G: FromRequest> Arguments for (A, B, C, D, E, F, G) {
    open spec fn admissible() -> bool {
        <(A, B, C, D, E, F) as Arguments>::admissible() && !<(A, B, C, D, E, F) as Arguments>::takes_request()
    }

    open spec fn takes_request() -> bool {
        G::takes_request()
    }

    /// Runs the seven extractors in their order.
    open spec fn extraction(before: RequestView, outcome: Result<Self, Response>, after: RequestView) -> bool {
        exists|
            head: Result<(A, B, C, D, E, F), Response>,
            mid: RequestView,
            last: Result<G, G::Rejection>,
            grouped: Result<((A, B, C, D, E, F), G), Response>,
        |
            #[trigger] followed::<(A, B, C, D, E, F), G>(before, head, mid, last, grouped, after) && outcome
                == match grouped {
                Ok(paired) => Ok::<Self, Response>((paired.0.0, paired.0.1, paired.0.2, paired.0.3, paired.0.4, paired.0.5, paired.1)),
                Err(response) => Err::<Self, Response>(response),
            }
    }

    fn admitted() -> (admitted: bool) {
        <(A, B, C, D, E, F) as Arguments>::admitted() && !<(A, B, C, D, E, F) as Arguments>::consumes_request()
    }

    fn consumes_request() -> (consumes: bool) {
        G::consumes_request()
    }

    fn extract(request: &mut Request) -> (outcome: Result<Self, Response>) {
        let ghost before = request@;
        let head = <(A, B, C, D, E, F) as Arguments>::extract(request);
        let ghost mid = request@;
        let ghost held = head;
        let arguments = match head {
            Ok(arguments) => arguments,
            Err(response) => {
                assert(followed::<(A, B, C, D, E, F), G>(
                    before,
                    held,
                    mid,
                    arbitrary(),
                    Err::<((A, B, C, D, E, F), G), Response>(response),
                    mid,
                ));
                return Err(response);
            },
        };
        let last = G::from_request(request);
        let ghost found = last;
        match last {
            Ok(value) => {
                assert(followed::<(A, B, C, D, E, F), G>(
                    before,
                    held,
                    mid,
                    found,
                    Ok::<((A, B, C, D, E, F), G), Response>((arguments, value)),
                    request@,
                ));
                Ok((arguments.0, arguments.1, arguments.2, arguments.3, arguments.4, arguments.5, value))
            },
            Err(rejection) => {
                let response = respond(rejection);
                assert(followed::<(A, B, C, D, E, F), G>(
                    before,
                    held,
                    mid,
                    found,
                    Err::<((A, B, C, D, E, F), G), Response>(response),
                    request@,
                ));
                Err(response)
            },
        }
    }
}

impl<A: FromRequest, B: FromRequest, C: FromRequest, D: FromRequest, E: FromRequest, F: FromRequest, G: FromRequest, H: FromRequest> Arguments for (A, B, C, D, E, F, G, H) {
    open spec fn admissible() -> bool {
        <(A, B, C, D, E, F, G) as Arguments>::admissible() && !<(A, B, C, D, E, F, G) as Arguments>::takes_request()
    }

    open spec fn takes_request() -> bool {
        H::takes_request()
    }

    /// Runs the eight extractors in their order.
    open spec fn extraction(before: RequestView, outcome: Result<Self, Response>, after: RequestView) -> bool {
        exists|
            head: Result<(A, B, C, D, E, F, G), Response>,
            mid: RequestView,
            last: Result<H, H::Rejection>,
            grouped: Result<((A, B, C, D, E, F, G), H), Response>,
        |
            #[trigger] followed::<(A, B, C, D, E, F, G), H>(before, head, mid, last, grouped, after) && outcome
                == match grouped {
                Ok(paired) => Ok::<Self, Response>((paired.0.0, paired.0.1, paired.0.2, paired.0.3, paired.0.4, paired.0.5, paired.0.6, paired.1)),
                Err(response) => Err::<Self, Response>(response),
            }
    }

    fn admitted() -> (admitted: bool) {
        <(A, B, C, D, E, F, G) as Arguments>::admitted() && !<(A, B, C, D, E, F, G) as Arguments>::consumes_request()
    }

    fn consumes_request() -> (consumes: bool) {
        H::consumes_request()
    }

    fn extract(request: &mut Request) -> (outcome: Result<Self, Response>) {
        let ghost before = request@;
        let head = <(A, B, C, D, E, F, G) as Arguments>::extract(request);
        let ghost mid = request@;
        let ghost held = head;
        let arguments = match head {
            Ok(arguments) => arguments,
            Err(response) => {
                assert(followed::<(A, B, C, D, E, F, G), H>(
                    before,
                    held,
                    mid,
                    arbitrary(),
                    Err::<((A, B, C, D, E, F, G), H), Response>(response),
                    mid,
                ));
                return Err(response);
            },
        };
        let last = H::from_request(request);
        let ghost found = last;
        match last {
            Ok(value) => {
                assert(followed::<(A, B, C, D, E, F, G), H>(
                    before,
                    held,
                    mid,
                    found,
                    Ok::<((A, B, C, D, E, F, G), H), Response>((arguments, value)),
                    request@,
                ));
                Ok((arguments.0, arguments.1, arguments.2, arguments.3, arguments.4, arguments.5, arguments.6, value))
            },
            Err(rejection) => {
                let response = respond(rejection);
                assert(followed::<(A, B, C, D, E, F, G), H>(
                    before,
                    held,
                    mid,
                    found,
                    Err::<((A, B, C, D, E, F, G), H), Response>(response),
                    request@,
                ));
                Err(response)
            },
        }
    }
}

impl<A: FromRequest, B: FromRequest, C: FromRequest, D: FromRequest, E: FromRequest, F: FromRequest, G: FromRequest, H: FromRequest, I: FromRequest> Arguments for (A, B, C, D, E, F, G, H, I) {
    open spec fn admissible() -> bool {
        <(A, B, C, D, E, F, G, H) as Arguments>::admissible() && !<(A, B, C, D, E, F, G, H) as Arguments>::takes_request()
    }

    open spec fn takes_request() -> bool {
        I::takes_request()
    }

    /// Runs the nine extractors in their order.
    open spec fn extraction(before: RequestView, outcome: Result<Self, Response>, after: RequestView) -> bool {
        exists|
            head: Result<(A, B, C, D, E, F, G, H), Response>,
            mid: RequestView,
            last: Result<I, I::Rejection>,
            grouped: Result<((A, B, C, D, E, F, G, H), I), Response>,
        |
            #[trigger] followed::<(A, B, C, D, E, F, G, H), I>(before, head, mid, last, grouped, after) && outcome
                == match grouped {
                Ok(paired) => Ok::<Self, Response>((paired.0.0, paired.0.1, paired.0.2, paired.0.3, paired.0.4, paired.0.5, paired.0.6, paired.0.7, paired.1)),
                Err(response) => Err::<Self, Response>(response),
            }
    }

    fn admitted() -> (admitted: bool) {
        <(A, B, C, D, E, F, G, H) as Arguments>::admitted() && !<(A, B, C, D, E, F, G, H) as Arguments>::consumes_request()
    }

    fn consumes_request() -> (consumes: bool) {
        I::consumes_request()
    }

    fn extract(request: &mut Request) -> (outcome: Result<Self, Response>) {
        let ghost before = request@;
        let head = <(A, B, C, D, E, F, G, H) as Arguments>::extract(request);
        let ghost mid = request@;
        let ghost held = head;
        let arguments = match head {
            Ok(arguments) => arguments,
            Err(response) => {
                assert(followed::<(A, B, C, D, E, F, G, H), I>(
                    before,
                    held,
                    mid,
                    arbitrary(),
                    Err::<((A, B, C, D, E, F, G, H), I), Response>(response),
                    mid,
                ));
                return Err(response);
            },
        };
        let last = I::from_request(request);
        let ghost found = last;
        match last {
            Ok(value) => {
                assert(followed::<(A, B, C, D, E, F, G, H), I>(
                    before,
                    held,
                    mid,
                    found,
                    Ok::<((A, B, C, D, E, F, G, H), I), Response>((arguments, value)),
                    request@,
                ));
                Ok((arguments.0, arguments.1, arguments.2, arguments.3, arguments.4, arguments.5, arguments.6, arguments.7, value))
            },
            Err(rejection) => {
                let response = respond(rejection);
                assert(followed::<(A, B, C, D, E, F, G, H), I>(
                    before,
                    held,
                    mid,
                    found,
                    Err::<((A, B, C, D, E, F, G, H), I), Response>(response),
                    request@,
                ));
                Err(response)
            },
        }
    }
}

impl<A: FromRequest, B: FromRequest, C: FromRequest, D: FromRequest, E: FromRequest, F: FromRequest, G: FromRequest, H: FromRequest, I: FromRequest, J: FromRequest> Arguments for (A, B, C, D, E, F, G, H, I, J) {
    open spec fn admissible() -> bool {
        <(A, B, C, D, E, F, G, H, I) as Arguments>::admissible() && !<(A, B, C, D, E, F, G, H, I) as Arguments>::takes_request()
    }

    open spec fn takes_request() -> bool {
        J::takes_request()
    }

    /// Runs the ten extractors in their order.
    open spec fn extraction(before: RequestView, outcome: Result<Self, Response>, after: RequestView) -> bool {
        exists|
            head: Result<(A, B, C, D, E, F, G, H, I), Response>,
            mid: RequestView,
            last: Result<J, J::Rejection>,
            grouped: Result<((A, B, C, D, E, F, G, H, I), J), Response>,
        |
            #[trigger] followed::<(A, B, C, D, E, F, G, H, I), J>(before, head, mid, last, grouped, after) && outcome
                == match grouped {
                Ok(paired) => Ok::<Self, Response>((paired.0.0, paired.0.1, paired.0.2, paired.0.3, paired.0.4, paired.0.5, paired.0.6, paired.0.7, paired.0.8, paired.1)),
                Err(response) => Err::<Self, Response>(response),
            }
    }

    fn admitted() -> (admitted: bool) {
        <(A, B, C, D, E, F, G, H, I) as Arguments>::admitted() && !<(A, B, C, D, E, F, G, H, I) as Arguments>::consumes_request()
    }

    fn consumes_request() -> (consumes: bool) {
        J::consumes_request()
    }

    fn extract(request: &mut Request) -> (outcome: Result<Self, Response>) {
        let ghost before = request@;
        let head = <(A, B, C, D, E, F, G, H, I) as Arguments>::extract(request);
        let ghost mid = request@;
        let ghost held = head;
        let arguments = match head {
            Ok(arguments) => arguments,
            Err(response) => {
                assert(followed::<(A, B, C, D, E, F, G, H, I), J>(
                    before,
                    held,
                    mid,
                    arbitrary(),
                    Err::<((A, B, C, D, E, F, G, H, I), J), Response>(response),
                    mid,
                ));
                return Err(response);
            },
        };
        let last = J::from_request(request);
        let ghost found = last;
        match last {
            Ok(value) => {
                assert(followed::<(A, B, C, D, E, F, G, H, I), J>(
                    before,
                    held,
                    mid,
                    found,
                    Ok::<((A, B, C, D, E, F, G, H, I), J), Response>((arguments, value)),
                    request@,
                ));
                Ok((arguments.0, arguments.1, arguments.2, arguments.3, arguments.4, arguments.5, arguments.6, arguments.7, arguments.8, value))
            },
            Err(rejection) => {
                let response = respond(rejection);
                assert(followed::<(A, B, C, D, E, F, G, H, I), J>(
                    before,
                    held,
                    mid,
                    found,
                    Err::<((A, B, C, D, E, F, G, H, I), J), Response>(response),
                    request@,
                ));
                Err(response)
            },
        }
    }
}

impl<A: FromRequest, B: FromRequest, C: FromRequest, D: FromRequest, E: FromRequest, F: FromRequest, G: FromRequest, H: FromRequest, I: FromRequest, J: FromRequest, K: FromRequest> Arguments for (A, B, C, D, E, F, G, H, I, J, K) {
    open spec fn admissible() -> bool {
        <(A, B, C, D, E, F, G, H, I, J) as Arguments>::admissible() && !<(A, B, C, D, E, F, G, H, I, J) as Arguments>::takes_request()
    }

    open spec fn takes_request() -> bool {
        K::takes_request()
    }

    /// Runs the eleven extractors in their order.
    open spec fn extraction(before: RequestView, outcome: Result<Self, Response>, after: RequestView) -> bool {
        exists|
            head: Result<(A, B, C, D, E, F, G, H, I, J), Response>,
            mid: RequestView,
            last: Result<K, K::Rejection>,
            grouped: Result<((A, B, C, D, E, F, G, H, I, J), K), Response>,
        |
            #[trigger] followed::<(A, B, C, D, E, F, G, H, I, J), K>(before, head, mid, last, grouped, after) && outcome
                == match grouped {
                Ok(paired) => Ok::<Self, Response>((paired.0.0, paired.0.1, paired.0.2, paired.0.3, paired.0.4, paired.0.5, paired.0.6, paired.0.7, paired.0.8, paired.0.9, paired.1)),
                Err(response) => Err::<Self, Response>(response),
            }
    }

    fn admitted() -> (admitted: bool) {
        <(A, B, C, D, E, F, G, H, I, J) as Arguments>::admitted() && !<(A, B, C, D, E, F, G, H, I, J) as Arguments>::consumes_request()
    }

    fn consumes_request() -> (consumes: bool) {
        K::consumes_request()
    }

    fn extract(request: &mut Request) -> (outcome: Result<Self, Response>) {
        let ghost before = request@;
        let head = <(A, B, C, D, E, F, G, H, I, J) as Arguments>::extract(request);
        let ghost mid = request@;
        let ghost held = head;
        let arguments = match head {
            Ok(arguments) => arguments,
            Err(response) => {
                assert(followed::<(A, B, C, D, E, F, G, H, I, J), K>(
                    before,
                    held,
                    mid,
                    arbitrary(),
                    Err::<((A, B, C, D, E, F, G, H, I, J), K), Response>(response),
                    mid,
                ));
                return Err(response);
            },
        };
        let last = K::from_request(request);
        let ghost found = last;
        match last {
            Ok(value) => {
                assert(followed::<(A, B, C, D, E, F, G, H, I, J), K>(
                    before,
                    held,
                    mid,
                    found,
                    Ok::<((A, B, C, D, E, F, G, H, I, J), K), Response>((arguments, value)),
                    request@,
                ));
                Ok((arguments.0, arguments.1, arguments.2, arguments.3, arguments.4, arguments.5, arguments.6, arguments.7, arguments.8, arguments.9, value))
            },
            Err(rejection) => {
                let response = respond(rejection);
                assert(followed::<(A, B, C, D, E, F, G, H, I, J), K>(
                    before,
                    held,
                    mid,
                    found,
                    Err::<((A, B, C, D, E, F, G, H, I, J), K), Response>(response),
                    request@,
                ));
                Err(response)
            },
        }
    }
}

impl<A: FromRequest, B: FromRequest, C: FromRequest, D: FromRequest, E: FromRequest, F: FromRequest, G: FromRequest, H: FromRequest, I: FromRequest, J: FromRequest, K: FromRequest, L: FromRequest> Arguments for (A, B, C, D, E, F, G, H, I, J, K, L) {
    open spec fn admissible() -> bool {
        <(A, B, C, D, E, F, G, H, I, J, K) as Arguments>::admissible() && !<(A, B, C, D, E, F, G, H, I, J, K) as Arguments>::takes_request()
    }

    open spec fn takes_request() -> bool {
        L::takes_request()
    }

    /// Runs the twelve extractors in their order.
    open spec fn extraction(before: RequestView, outcome: Result<Self, Response>, after: RequestView) -> bool {
        exists|
            head: Result<(A, B, C, D, E, F, G, H, I, J, K), Response>,
            mid: RequestView,
            last: Result<L, L::Rejection>,
            grouped: Result<((A, B, C, D, E, F, G, H, I, J, K), L), Response>,
        |
            #[trigger] followed::<(A, B, C, D, E, F, G, H, I, J, K), L>(before, head, mid, last, grouped, after) && outcome
                == match grouped {
                Ok(paired) => Ok::<Self, Response>((paired.0.0, paired.0.1, paired.0.2, paired.0.3, paired.0.4, paired.0.5, paired.0.6, paired.0.7, paired.0.8, paired.0.9, paired.0.10, paired.1)),
                Err(response) => Err::<Self, Response>(response),
            }
    }

    fn admitted() -> (admitted: bool) {
        <(A, B, C, D, E, F, G, H, I, J, K) as Arguments>::admitted() && !<(A, B, C, D, E, F, G, H, I, J, K) as Arguments>::consumes_request()
    }

    fn consumes_request() -> (consumes: bool) {
        L::consumes_request()
    }

    fn extract(request: &mut Request) -> (outcome: Result<Self, Response>) {
        let ghost before = request@;
        let head = <(A, B, C, D, E, F, G, H, I, J, K) as Arguments>::extract(request);
        let ghost mid = request@;
        let ghost held = head;
        let arguments = match head {
            Ok(arguments) => arguments,
            Err(response) => {
                assert(followed::<(A, B, C, D, E, F, G, H, I, J, K), L>(
                    before,
                    held,
                    mid,
                    arbitrary(),
                    Err::<((A, B, C, D, E, F, G, H, I, J, K), L), Response>(response),
                    mid,
                ));
                return Err(response);
            },
        };
        let last = L::from_request(request);
        let ghost found = last;
        match last {
            Ok(value) => {
                assert(followed::<(A, B, C, D, E, F, G, H, I, J, K), L>(
                    before,
                    held,
                    mid,
                    found,
                    Ok::<((A, B, C, D, E, F, G, H, I, J, K), L), Response>((arguments, value)),
                    request@,
                ));
                Ok((arguments.0, arguments.1, arguments.2, arguments.3, arguments.4, arguments.5, arguments.6, arguments.7, arguments.8, arguments.9, arguments.10, value))
            },
            Err(rejection) => {
                let response = respond(rejection);
                assert(followed::<(A, B, C, D, E, F, G, H, I, J, K), L>(
                    before,
                    held,
                    mid,
                    found,
                    Err::<((A, B, C, D, E, F, G, H, I, J, K), L), Response>(response),
                    request@,
                ));
                Err(response)
            },
        }
    }
}

} // verus!

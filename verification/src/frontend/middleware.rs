//! Middleware and the chains it forms around a handler.

use std::marker::PhantomData;
use std::rc::Rc;
use vstd::prelude::*;
use crate::frontend::handler::Arguments;
use crate::frontend::response::{answered, respond, ResponsePart};
use crate::server::request::Request;
use crate::server::response::Response;

verus! {

/// `Rc::clone`: a second handle to the value that `handle` points to.
#[verifier::external_body]
pub(crate) fn share<T>(handle: &Rc<T>) -> (copy: Rc<T>)
    ensures
        copy == *handle,
{
    Rc::clone(handle)
}

/// A middleware given as a function, with the types of its arguments and of
/// what it returns.
pub struct MiddlewareFn<F, Fut, Resp, Args> {
    pub func: F,
    pub phantom: PhantomData<(Fut, Resp, Args)>,
}

impl<F, Fut, Resp, Args> MiddlewareFn<F, Fut, Resp, Args> {
    /// Wraps the function.
    pub fn new(func: F) -> (middleware: Self)
        ensures
            middleware.func == func,
    {
        MiddlewareFn { func, phantom: PhantomData }
    }
}

impl<F, Fut, Resp: ResponsePart, Args: Arguments> MiddlewareFn<F, Fut, Resp, Args> {
    /// Whether the arguments of the function can be extracted: no
    /// extractor but the last hands the request over as a whole.
    pub fn is_admissible(&self) -> (admissible: bool)
        ensures
            admissible == Args::admissible(),
    {
        Args::admitted()
    }

    /// Extracts the arguments of the function that come before the rest of
    /// the chain, in their order. The first rejection ends the extraction
    /// and gives the response to answer with.
    pub fn arguments(&self, request: &mut Request) -> (outcome: Result<Args, Response>)
        requires
            !old(request)@.taken,
            Args::admissible(),
        ensures
            Args::extraction(old(request)@, outcome, final(request)@),
    {
        Args::extract(request)
    }

    /// The response that what the function returned builds. A fresh
    /// response has room for the header values that it adds.
    pub fn response(&self, parts: Resp) -> (response: Response)
        requires
            parts.footprint().admits(0),
        ensures
            answered(parts, response@),
    {
        respond(parts)
    }
}

/// A middleware that several routes share.
///
/// The default one holds no middleware of its own and hands every request
/// straight to what comes next.
pub struct SharedMiddleware<M> {
    inner: Option<Rc<M>>,
}

impl<M> View for SharedMiddleware<M> {
    type V = Option<M>;

    /// The middleware that is shared, or `None` for the one that passes
    /// requests through.
    closed spec fn view(&self) -> Option<M> {
        match self.inner {
            Some(handle) => Some(*handle),
            None => None,
        }
    }
}

impl<M> SharedMiddleware<M> {
    /// Makes `middleware` shareable.
    pub fn new(middleware: M) -> (shared: Self)
        ensures
            shared@ == Some(middleware),
    {
        SharedMiddleware { inner: Some(Rc::new(middleware)) }
    }

    /// The middleware to run, or `None` where requests pass through.
    pub fn as_middleware(&self) -> (middleware: Option<&M>)
        ensures
            middleware == match self@ {
                Some(m) => Some(&m),
                None => None,
            },
    {
        match &self.inner {
            Some(handle) => Some(&**handle),
            None => None,
        }
    }

    /// A second handle to the same middleware.
    pub fn share(&self) -> (copy: Self)
        ensures
            copy@ == self@,
    {
        match &self.inner {
            Some(handle) => SharedMiddleware { inner: Some(share(handle)) },
            None => SharedMiddleware { inner: None },
        }
    }

    /// Puts the middleware around `next`: it becomes the outermost layer
    /// and sees a request before every layer that `next` already has.
    pub fn wrap<H>(self, next: Next<H, M>) -> (wrapped: Next<H, M>)
        ensures
            wrapped@.layers == seq![self@] + next@.layers,
            wrapped@.handler == next@.handler,
    {
        let mut wrapped = next;
        wrapped.layers.insert(0, self);
        wrapped
    }
}

impl<M> Default for SharedMiddleware<M> {
    /// The middleware that hands every request to what comes next.
    fn default() -> (shared: Self)
        ensures
            shared@ is None,
    {
        SharedMiddleware { inner: None }
    }
}

/// What a chain is made of: its layers, outermost first, and the handler
/// that they surround.
pub struct Chain<H, M> {
    pub layers: Seq<Option<M>>,
    pub handler: H,
}

/// The rest of a chain: what a middleware calls to let a request go on.
pub struct Next<H, M> {
    layers: Vec<SharedMiddleware<M>>,
    handler: Rc<H>,
}

impl<H, M> View for Next<H, M> {
    type V = Chain<H, M>;

    closed spec fn view(&self) -> Chain<H, M> {
        Chain { layers: self.layers@.map_values(|layer: SharedMiddleware<M>| layer@), handler: *self.handler }
    }
}

/// What to run for a request that has reached some depth of a chain.
pub enum Step<'a, H, M> {
    /// Run the middleware, and let it go on at depth `then`.
    Through { middleware: &'a M, then: usize },
    /// Run the handler: no layer is left.
    Handle { handler: &'a H },
}

/// The depth of the first layer at or below `depth` that holds a
/// middleware, or the number of layers if none does.
pub open spec fn next_layer<M>(layers: Seq<Option<M>>, depth: int) -> int
    decreases layers.len() - depth,
{
    if 0 <= depth < layers.len() && layers[depth] is None {
        next_layer(layers, depth + 1)
    } else {
        depth
    }
}

/// A request passes the middleware of a chain from the outermost layer
/// inwards: with two layers that each hold a middleware, the first runs at
/// depth 0, the second at depth 1, and the handler after both.
pub proof fn layers_run_outermost_first<M>(first: M, second: M)
    ensures
        next_layer(seq![Some(first), Some(second)], 0) == 0,
        next_layer(seq![Some(first), Some(second)], 1) == 1,
        next_layer(seq![Some(first), Some(second)], 2) == 2,
{
}

/// A layer that passes requests through is skipped on the way in.
pub proof fn pass_through_layers_are_skipped<M>(layers: Seq<Option<M>>, depth: int)
    requires
        0 <= depth < layers.len(),
        layers[depth] is None,
    ensures
        next_layer(layers, depth) == next_layer(layers, depth + 1),
{
}

impl<H, M> Next<H, M> {
    /// The chain of a bare handler.
    pub fn new(handler: H) -> (next: Self)
        ensures
            next@.layers == Seq::<Option<M>>::empty(),
            next@.handler == handler,
    {
        let next = Next { layers: Vec::new(), handler: Rc::new(handler) };
        next
    }

    /// The number of layers around the handler.
    pub fn depth(&self) -> (depth: usize)
        ensures
            depth == self@.layers.len(),
    {
        self.layers.len()
    }

    /// The handler at the end of the chain.
    pub fn handler(&self) -> (handler: &H)
        ensures
            *handler == self@.handler,
    {
        &*self.handler
    }

    /// A second handle to the same chain.
    pub fn share(&self) -> (copy: Self)
        ensures
            copy@ == self@,
    {
        let mut layers: Vec<SharedMiddleware<M>> = Vec::new();
        let mut i: usize = 0;
        while i < self.layers.len()
            invariant
                i <= self.layers.len(),
                layers.len() == i,
                forall|j: int| 0 <= j < i ==> (#[trigger] layers[j])@ == self.layers[j]@,
            decreases self.layers.len() - i,
        {
            layers.push(self.layers[i].share());
            i += 1;
        }
        let copy = Next { layers, handler: share(&self.handler) };
        assert(copy@.layers =~= self@.layers);
        copy
    }

    /// What a request at `depth` runs next: the first middleware at or
    /// below that depth, or the handler when only pass-through layers are
    /// left.
    pub fn step(&self, depth: usize) -> (step: Step<'_, H, M>)
        requires
            depth <= self@.layers.len(),
        ensures
            match step {
                Step::Through { middleware, then } => {
                    let at = next_layer(self@.layers, depth as int);
                    &&& at < self@.layers.len()
                    &&& self@.layers[at] == Some(*middleware)
                    &&& then == at + 1
                },
                Step::Handle { handler } => {
                    &&& next_layer(self@.layers, depth as int) == self@.layers.len()
                    &&& *handler == self@.handler
                },
            },
    {
        let mut at: usize = depth;
        while at < self.layers.len()
            invariant
                depth <= at <= self.layers.len(),
                next_layer(self@.layers, depth as int) == next_layer(self@.layers, at as int),
            decreases self.layers.len() - at,
        {
            match self.layers[at].as_middleware() {
                Some(middleware) => {
                    return Step::Through { middleware, then: at + 1 };
                },
                None => {
                    at += 1;
                },
            }
        }
        Step::Handle { handler: &*self.handler }
    }
}

} // verus!

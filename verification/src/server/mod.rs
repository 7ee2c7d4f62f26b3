//! The server: its configuration, its routing table and the decisions of
//! its accept and serve loops.

pub mod config;
pub mod error;
pub mod method;
pub mod params;
pub mod request;
pub mod response;
pub mod route;
pub mod serve;
pub mod table;
pub mod wire;

pub use crate::server::config::{BindParams, ServerConfig};
pub use crate::server::error::Error;
pub use crate::server::method::Method;
pub use crate::server::params::Params;
pub use crate::server::request::Request;
pub use crate::server::response::{Body, Response, StatusCode};
pub use crate::server::route::Route;
pub use crate::server::serve::{error_with_causes, ServerFiber, ServerProcessor};

use vstd::prelude::*;
use vstd::string::*;
use crate::frontend::middleware::{Chain, Next};
use crate::server::config::{name_of, server_name};
use crate::server::table::{
    insert_refusal, literal, route_found, router_at, router_insert, router_new, routes,
    within_brace_limit, Found,
};
use crate::utils::SmallMap;

verus! {

/// An HTTP server before it starts: what it is called, where it will
/// listen, and which chain answers to which pattern and method.
///
/// `H` is the type of its handlers and `M` the type of its middleware.
pub struct Server<H, M> {
    cfg: ServerConfig,
    name: String,
    /// The matcher: it holds the number of each pattern but the empty one.
    router: matchit::Router<usize>,
    /// The number of the empty pattern, once it is registered: the matcher
    /// cannot keep it beside others.
    bare: Option<usize>,
    /// The patterns, each at its number.
    patterns: Vec<String>,
    /// For each pattern, at its number, the entry number of each method.
    buckets: Vec<SmallMap>,
    /// The chains, each at its entry number.
    entries: Vec<Next<H, M>>,
}

/// What is to be returned for the registration of a new pattern `path`,
/// once the matcher has taken or refused the pattern.
pub fn registration_outcome(path: String, inserted: Result<(), matchit::InsertError>) -> (outcome:
    Result<(), Error>)
    ensures
        match inserted {
            Ok(()) => outcome is Ok,
            Err(refusal) => outcome == Err::<(), Error>(
                Error::InvalidPath { path: path, error: refusal },
            ),
        },
{
    match inserted {
        Ok(()) => Ok(()),
        Err(refusal) => Err(Error::InvalidPath { path, error: refusal }),
    }
}

/// Picks the entry for `method` out of what the matcher found for a path,
/// given the table of each pattern at its number: `NotFound` where no
/// pattern answered, `MethodNotAllowed` where the pattern that answered
/// has no entry for the method.
pub fn select_entry(found: Option<Found>, buckets: &Vec<SmallMap>, method: &Method) -> (selected:
    Result<(usize, Params), Error>)
    requires
        found matches Some(hit) ==> hit.number < buckets.len(),
    ensures
        match found {
            None => selected == Err::<(usize, Params), Error>(Error::NotFound),
            Some(hit) => if buckets[hit.number as int]@.contains_key(method@) {
                &&& selected matches Ok((index, params))
                &&& index == buckets[hit.number as int]@[method@]
                &&& params@ == hit.params.deep_view()
            } else {
                selected == Err::<(usize, Params), Error>(Error::MethodNotAllowed)
            },
        },
{
    match found {
        None => Err(Error::NotFound),
        Some(hit) => match buckets[hit.number].get(method) {
            Some(index) => Ok((index, Params::from_pairs(hit.params))),
            None => Err(Error::MethodNotAllowed),
        },
    }
}

/// What a server answers with: the patterns it knows, and the chain for each
/// pattern and method that one was registered for.
#[verifier::ext_equal]
pub struct Table<H, M> {
    pub patterns: Set<Seq<char>>,
    pub chains: Map<(Seq<char>, Seq<char>), Chain<H, M>>,
}

impl<H, M> Table<H, M> {
    /// The table that knows nothing.
    pub open spec fn empty() -> Self {
        Table { patterns: Set::empty(), chains: Map::empty() }
    }

    /// The chain for `method` at the pattern written `pattern`.
    pub open spec fn chain_at(self, pattern: Seq<char>, method: Seq<char>) -> Option<Chain<H, M>> {
        if self.chains.contains_key((pattern, method)) {
            Some(self.chains[(pattern, method)])
        } else {
            None
        }
    }

    /// The table with `chain` for `method` at `pattern`.
    pub open spec fn with(self, pattern: Seq<char>, method: Seq<char>, chain: Chain<H, M>) -> Self {
        Table {
            patterns: self.patterns.insert(pattern),
            chains: self.chains.insert((pattern, method), chain),
        }
    }
}

impl<H, M> View for Server<H, M> {
    type V = Table<H, M>;

    closed spec fn view(&self) -> Table<H, M> {
        Table {
            patterns: Set::new(|pattern: Seq<char>| self.holds(pattern)),
            chains: Map::new(
                |key: (Seq<char>, Seq<char>)|
                    self.holds(key.0) && self.bucket_of(key.0).contains_key(key.1),
                |key: (Seq<char>, Seq<char>)| self.entries[self.bucket_of(key.0)[key.1] as int]@,
            ),
        }
    }
}

impl<H, M> Server<H, M> {
    /// The pattern written `pattern` is registered.
    spec fn holds(&self, pattern: Seq<char>) -> bool {
        if pattern.len() == 0 {
            self.bare is Some
        } else {
            routes(self.router).contains_key(pattern)
        }
    }

    /// The number of the pattern written `pattern`.
    spec fn number_at(&self, pattern: Seq<char>) -> usize {
        if pattern.len() == 0 {
            self.bare->0
        } else {
            routes(self.router)[pattern]
        }
    }

    /// The entry number of each method at the pattern written `pattern`.
    spec fn bucket_of(&self, pattern: Seq<char>) -> Map<Seq<char>, usize> {
        self.buckets[self.number_at(pattern) as int]@
    }

    /// The matcher holds each pattern but the empty one under its number
    /// and nothing else, every pattern has its table of methods, and every
    /// entry number in such a table belongs to a chain.
    pub closed spec fn wf(&self) -> bool {
        &&& self.buckets.len() == self.patterns.len()
        &&& !routes(self.router).contains_key(Seq::<char>::empty())
        &&& self.bare matches Some(number) ==> number < self.patterns.len()
            && self.patterns[number as int]@.len() == 0
        &&& forall|i: int|
            0 <= i < self.patterns.len() ==> self.holds(#[trigger] self.patterns[i]@)
                && self.number_at(self.patterns[i]@) == i
        &&& forall|pattern: Seq<char>| #[trigger]
            routes(self.router).contains_key(pattern) ==> routes(self.router)[pattern]
                < self.patterns.len() && self.patterns[routes(self.router)[pattern] as int]@
                == pattern
        &&& forall|i: int, method: Seq<char>|
            0 <= i < self.buckets.len() && self.buckets[i]@.contains_key(method) ==> (
            #[trigger] self.buckets[i]@[method]) < self.entries.len()
    }

    /// The name that the server goes by.
    pub closed spec fn label(&self) -> Seq<char> {
        self.name@
    }

    /// The configuration that the server was made with.
    pub closed spec fn settings(&self) -> ServerConfig {
        self.cfg
    }

    /// What the matcher of the server answers to the storing of `pattern`:
    /// its refusal, or `None` where it takes the pattern. The empty
    /// pattern is never handed to the matcher, and never refused.
    pub closed spec fn refusal_of(&self, pattern: Seq<char>) -> Option<matchit::InsertError> {
        if pattern.len() == 0 {
            None
        } else {
            insert_refusal(self.router, pattern)
        }
    }

    /// What the matcher of the server finds for `path`: the pattern that
    /// answers, with the name and the text of each capture in the order
    /// of the pattern; `None` where no pattern answers. To the empty path
    /// the empty pattern answers, where it is registered, and no other.
    pub closed spec fn matched(&self, path: Seq<char>) -> Option<
        (Seq<char>, Seq<(Seq<char>, Seq<char>)>),
    > {
        if path.len() == 0 {
            if self.bare is Some {
                Some((path, Seq::<(Seq<char>, Seq<char>)>::empty()))
            } else {
                None
            }
        } else {
            match route_found(self.router, path) {
                Some((number, captures)) => if number < self.patterns.len() {
                    Some((self.patterns[number as int]@, captures))
                } else {
                    None
                },
                None => None,
            }
        }
    }

    /// A server with the configuration `cfg` and no routes.
    pub fn new(cfg: ServerConfig) -> (server: Self)
        ensures
            server.wf(),
            server.settings() == cfg,
            server.label() == server_name(cfg),
            server@ == Table::<H, M>::empty(),
    {
        let name = name_of(&cfg);
        let server = Server {
            cfg,
            name,
            router: router_new(),
            bare: None,
            patterns: Vec::new(),
            buckets: Vec::new(),
            entries: Vec::new(),
        };
        assert(server@ =~= Table::<H, M>::empty());
        server
    }

    /// The name that the server goes by: the one it was configured with,
    /// or one made of its host and port.
    pub fn name(&self) -> (name: &str)
        ensures
            name@ == self.label(),
    {
        self.name.as_str()
    }

    /// The configuration that the server was made with.
    pub fn config(&self) -> (cfg: &ServerConfig)
        ensures
            *cfg == self.settings(),
    {
        &self.cfg
    }

    /// The number of the pattern written as `path`.
    fn number_of(&self, path: &String) -> (number: Option<usize>)
        requires
            self.wf(),
        ensures
            match number {
                Some(i) => i < self.patterns.len() && self.patterns[i as int]@ == path@
                    && self.holds(path@) && self.number_at(path@) == i,
                None => !self.holds(path@),
            },
    {
        let mut i: usize = 0;
        while i < self.patterns.len()
            invariant
                i <= self.patterns.len(),
                self.wf(),
                forall|j: int| 0 <= j < i ==> (#[trigger] self.patterns[j])@ != path@,
            decreases self.patterns.len() - i,
        {
            if self.patterns[i] == *path {
                return Some(i);
            }
            i += 1;
        }
        proof {
            if let Some(number) = self.bare {
                if path@.len() == 0 {
                    assert(self.patterns[number as int]@ =~= path@);
                }
            }
        }
        None
    }

    /// Registers `handler` for the method of `route` at its pattern.
    ///
    /// The route is refused with `RouteOccupied` where its pattern has a
    /// chain for its method already, and with `InvalidPath` where its
    /// pattern is new and the matcher refuses it. A refusal leaves the
    /// server as it was. The pattern may hold no more opening braces than
    /// the matcher has names for captures.
    pub fn route(&mut self, route: Route, handler: H) -> (outcome: Result<&mut Self, Error>)
        requires
            old(self).wf(),
            within_brace_limit(route.path@),
        ensures
            match outcome {
                Ok(server) => *final(self) == *final(server) && settled(
                    *old(self),
                    route.path@,
                    route.method@,
                    Next::<H, M>::chain_of(handler),
                    *server,
                    None,
                ),
                Err(refusal) => settled(
                    *old(self),
                    route.path@,
                    route.method@,
                    Next::<H, M>::chain_of(handler),
                    *final(self),
                    Some(refusal),
                ),
            },
    {
        self.mount(route, Next::new(handler))
    }

    /// Registers the chain `entry` for the method of `route` at its
    /// pattern, as `route` does for a bare handler.
    pub fn mount(&mut self, route: Route, entry: Next<H, M>) -> (outcome: Result<&mut Self, Error>)
        requires
            old(self).wf(),
            within_brace_limit(route.path@),
        ensures
            match outcome {
                Ok(server) => *final(self) == *final(server) && settled(
                    *old(self),
                    route.path@,
                    route.method@,
                    entry@,
                    *server,
                    None,
                ),
                Err(refusal) => settled(
                    *old(self),
                    route.path@,
                    route.method@,
                    entry@,
                    *final(self),
                    Some(refusal),
                ),
            },
    {
        let ghost pattern = route.path@;
        let ghost method = route.method@;
        let index: usize = self.entries.len();
        match self.number_of(&route.path) {
            Some(number) => {
                if self.buckets[number].get(&route.method).is_some() {
                    return Err(Error::RouteOccupied { path: route.path, method: route.method });
                }
                self.entries.push(entry);
                let mut bucket = SmallMap::new();
                core::mem::swap(&mut self.buckets[number], &mut bucket);
                bucket.insert(route.method, index);
                core::mem::swap(&mut self.buckets[number], &mut bucket);
                proof {
                    let wanted = old(self)@.with(pattern, method, entry@);
                    assert forall|other: Seq<char>| #[trigger]
                        self.holds(other) && other != pattern implies self.number_at(other)
                        != number by {
                        empty_texts_are_one(other, pattern);
                    }
                    assert(self@.patterns =~= wanted.patterns);
                    assert(self@.chains =~= wanted.chains);
                }
                Ok(self)
            },
            None => {
                let number: usize = self.patterns.len();
                let inserted = if route.path.as_str().is_empty() {
                    self.bare = Some(number);
                    Ok(())
                } else {
                    router_insert(&mut self.router, route.path.as_str(), number)
                };
                if inserted.is_ok() {
                    let mut bucket = SmallMap::new();
                    bucket.insert(route.method, index);
                    self.patterns.push(route.path.clone());
                    self.buckets.push(bucket);
                    self.entries.push(entry);
                    proof {
                        let wanted = old(self)@.with(pattern, method, entry@);
                        assert forall|other: Seq<char>| #[trigger]
                            self.holds(other) == (old(self).holds(other) || other == pattern) && (
                            old(self).holds(other) ==> self.number_at(other) == old(
                                self,
                            ).number_at(other)) by {
                            empty_texts_are_one(other, pattern);
                        }
                        assert(self.number_at(pattern) == number);
                        assert(self@.patterns =~= wanted.patterns);
                        assert(self@.chains =~= wanted.chains);
                    }
                } else {
                    assert(self@ =~= old(self)@);
                }
                match registration_outcome(route.path, inserted) {
                    Ok(()) => Ok(self),
                    Err(refusal) => Err(refusal),
                }
            },
        }
    }

    /// Registers `handler` for `GET` at `path`.
    pub fn get(&mut self, path: &str, handler: H) -> (outcome: Result<&mut Self, Error>)
        requires
            old(self).wf(),
            within_brace_limit(path@),
        ensures
            match outcome {
                Ok(server) => *final(self) == *final(server) && settled(
                    *old(self),
                    path@,
                    "GET"@,
                    Next::<H, M>::chain_of(handler),
                    *server,
                    None,
                ),
                Err(refusal) => settled(
                    *old(self),
                    path@,
                    "GET"@,
                    Next::<H, M>::chain_of(handler),
                    *final(self),
                    Some(refusal),
                ),
            },
    {
        self.route(Route::new(path, Method::get()), handler)
    }

    /// Registers `handler` for `POST` at `path`.
    pub fn post(&mut self, path: &str, handler: H) -> (outcome: Result<&mut Self, Error>)
        requires
            old(self).wf(),
            within_brace_limit(path@),
        ensures
            match outcome {
                Ok(server) => *final(self) == *final(server) && settled(
                    *old(self),
                    path@,
                    "POST"@,
                    Next::<H, M>::chain_of(handler),
                    *server,
                    None,
                ),
                Err(refusal) => settled(
                    *old(self),
                    path@,
                    "POST"@,
                    Next::<H, M>::chain_of(handler),
                    *final(self),
                    Some(refusal),
                ),
            },
    {
        self.route(Route::new(path, Method::post()), handler)
    }

    /// Registers `handler` for `PUT` at `path`.
    pub fn put(&mut self, path: &str, handler: H) -> (outcome: Result<&mut Self, Error>)
        requires
            old(self).wf(),
            within_brace_limit(path@),
        ensures
            match outcome {
                Ok(server) => *final(self) == *final(server) && settled(
                    *old(self),
                    path@,
                    "PUT"@,
                    Next::<H, M>::chain_of(handler),
                    *server,
                    None,
                ),
                Err(refusal) => settled(
                    *old(self),
                    path@,
                    "PUT"@,
                    Next::<H, M>::chain_of(handler),
                    *final(self),
                    Some(refusal),
                ),
            },
    {
        self.route(Route::new(path, Method::put()), handler)
    }

    /// Registers `handler` for `PATCH` at `path`.
    pub fn patch(&mut self, path: &str, handler: H) -> (outcome: Result<&mut Self, Error>)
        requires
            old(self).wf(),
            within_brace_limit(path@),
        ensures
            match outcome {
                Ok(server) => *final(self) == *final(server) && settled(
                    *old(self),
                    path@,
                    "PATCH"@,
                    Next::<H, M>::chain_of(handler),
                    *server,
                    None,
                ),
                Err(refusal) => settled(
                    *old(self),
                    path@,
                    "PATCH"@,
                    Next::<H, M>::chain_of(handler),
                    *final(self),
                    Some(refusal),
                ),
            },
    {
        self.route(Route::new(path, Method::patch()), handler)
    }

    /// Registers `handler` for `DELETE` at `path`.
    pub fn delete(&mut self, path: &str, handler: H) -> (outcome: Result<&mut Self, Error>)
        requires
            old(self).wf(),
            within_brace_limit(path@),
        ensures
            match outcome {
                Ok(server) => *final(self) == *final(server) && settled(
                    *old(self),
                    path@,
                    "DELETE"@,
                    Next::<H, M>::chain_of(handler),
                    *server,
                    None,
                ),
                Err(refusal) => settled(
                    *old(self),
                    path@,
                    "DELETE"@,
                    Next::<H, M>::chain_of(handler),
                    *final(self),
                    Some(refusal),
                ),
            },
    {
        self.route(Route::new(path, Method::delete()), handler)
    }

    /// Registers `handler` for `CONNECT` at `path`.
    pub fn connect(&mut self, path: &str, handler: H) -> (outcome: Result<&mut Self, Error>)
        requires
            old(self).wf(),
            within_brace_limit(path@),
        ensures
            match outcome {
                Ok(server) => *final(self) == *final(server) && settled(
                    *old(self),
                    path@,
                    "CONNECT"@,
                    Next::<H, M>::chain_of(handler),
                    *server,
                    None,
                ),
                Err(refusal) => settled(
                    *old(self),
                    path@,
                    "CONNECT"@,
                    Next::<H, M>::chain_of(handler),
                    *final(self),
                    Some(refusal),
                ),
            },
    {
        self.route(Route::new(path, Method::connect()), handler)
    }

    /// Registers `handler` for `HEAD` at `path`.
    pub fn head(&mut self, path: &str, handler: H) -> (outcome: Result<&mut Self, Error>)
        requires
            old(self).wf(),
            within_brace_limit(path@),
        ensures
            match outcome {
                Ok(server) => *final(self) == *final(server) && settled(
                    *old(self),
                    path@,
                    "HEAD"@,
                    Next::<H, M>::chain_of(handler),
                    *server,
                    None,
                ),
                Err(refusal) => settled(
                    *old(self),
                    path@,
                    "HEAD"@,
                    Next::<H, M>::chain_of(handler),
                    *final(self),
                    Some(refusal),
                ),
            },
    {
        self.route(Route::new(path, Method::head()), handler)
    }

    /// Registers `handler` for `OPTIONS` at `path`.
    pub fn options(&mut self, path: &str, handler: H) -> (outcome: Result<&mut Self, Error>)
        requires
            old(self).wf(),
            within_brace_limit(path@),
        ensures
            match outcome {
                Ok(server) => *final(self) == *final(server) && settled(
                    *old(self),
                    path@,
                    "OPTIONS"@,
                    Next::<H, M>::chain_of(handler),
                    *server,
                    None,
                ),
                Err(refusal) => settled(
                    *old(self),
                    path@,
                    "OPTIONS"@,
                    Next::<H, M>::chain_of(handler),
                    *final(self),
                    Some(refusal),
                ),
            },
    {
        self.route(Route::new(path, Method::options()), handler)
    }

    /// Registers `handler` for `TRACE` at `path`.
    pub fn trace(&mut self, path: &str, handler: H) -> (outcome: Result<&mut Self, Error>)
        requires
            old(self).wf(),
            within_brace_limit(path@),
        ensures
            match outcome {
                Ok(server) => *final(self) == *final(server) && settled(
                    *old(self),
                    path@,
                    "TRACE"@,
                    Next::<H, M>::chain_of(handler),
                    *server,
                    None,
                ),
                Err(refusal) => settled(
                    *old(self),
                    path@,
                    "TRACE"@,
                    Next::<H, M>::chain_of(handler),
                    *final(self),
                    Some(refusal),
                ),
            },
    {
        self.route(Route::new(path, Method::trace()), handler)
    }

    /// Finds the chain that answers to `method` at `path`, and what the
    /// captures of its pattern hold.
    pub fn resolve(&self, path: &str, method: &Method) -> (resolved: Result<
        (&Next<H, M>, Params),
        Error,
    >)
        requires
            self.wf(),
        ensures
            resolution(self@, self.matched(path@), path@, method@, resolved),
    {
        let found = if path.is_empty() {
            match self.bare {
                Some(number) => Some(Found { number, params: Vec::new() }),
                None => None,
            }
        } else {
            router_at(&self.router, path)
        };
        proof {
            if found is Some && path@.len() > 0 {
                let number = found->0.number;
                let pattern = choose|pattern: Seq<char>|
                    routes(self.router).contains_key(pattern) && #[trigger] routes(
                        self.router,
                    )[pattern] == number;
                assert(self.patterns[number as int]@ == pattern);
            }
        }
        match select_entry(found, &self.buckets, method) {
            Ok((index, params)) => {
                proof {
                    if self@.patterns.contains(path@) && literal(path@) {
                        assert(params@ =~= Seq::<(Seq<char>, Seq<char>)>::empty());
                    }
                }
                Ok((&self.entries[index], params))
            },
            Err(error) => Err(error),
        }
    }
}

/// Two texts without a letter are one text.
proof fn empty_texts_are_one(a: Seq<char>, b: Seq<char>)
    ensures
        a.len() == 0 && b.len() == 0 ==> a == b,
{
    if a.len() == 0 && b.len() == 0 {
        assert(a =~= b);
    }
}

impl<H, M> Next<H, M> {
    /// The chain of a bare handler: no layers around `handler`.
    pub open spec fn chain_of(handler: H) -> Chain<H, M> {
        Chain { layers: Seq::<Option<M>>::empty(), handler: handler }
    }
}

/// What one registration does: `after` and `refusal` are what registering
/// the chain `entry` for `method` at `pattern` makes of the table
/// `before`, where `matcher` is what the matcher answers to the storing of
/// the pattern.
///
/// A pattern and method that have a chain already are refused as
/// occupied. A method that is free at a pattern of the table is
/// registered. A new pattern is registered where the matcher takes it,
/// and refused as invalid with the refusal of the matcher where not. A
/// refusal leaves the table as it was.
pub open spec fn registration<H, M>(
    before: Table<H, M>,
    matcher: Option<matchit::InsertError>,
    pattern: Seq<char>,
    method: Seq<char>,
    entry: Chain<H, M>,
    after: Table<H, M>,
    refusal: Option<Error>,
) -> bool {
    if before.chain_at(pattern, method) is Some {
        &&& after == before
        &&& refusal matches Some(Error::RouteOccupied { path, method: taken })
        &&& path@ == pattern
        &&& taken@ == method
    } else if before.patterns.contains(pattern) || matcher is None {
        &&& after == before.with(pattern, method, entry)
        &&& refusal is None
    } else {
        &&& after == before
        &&& refusal matches Some(Error::InvalidPath { path, error })
        &&& path@ == pattern
        &&& Some(error) == matcher
    }
}

/// What a call that registers leaves behind: the server `after`, well
/// formed, named and configured as `before`, with the table that
/// `registration` describes.
pub open spec fn settled<H, M>(
    before: Server<H, M>,
    pattern: Seq<char>,
    method: Seq<char>,
    entry: Chain<H, M>,
    after: Server<H, M>,
    refusal: Option<Error>,
) -> bool {
    &&& kept(before, after)
    &&& registration(before@, before.refusal_of(pattern), pattern, method, entry, after@, refusal)
}

/// `after` is well formed, and named and configured as `before`.
pub open spec fn kept<H, M>(before: Server<H, M>, after: Server<H, M>) -> bool {
    &&& after.wf()
    &&& after.label() == before.label()
    &&& after.settings() == before.settings()
}

/// What resolving gives: `resolved` is the answer of the table for
/// `method` at `path`, where `matched` is what the matcher finds for the
/// path.
///
/// The pattern that answers to the path decides. A pattern without braces
/// answers to the path that is written like it.
pub open spec fn resolution<H, M>(
    table: Table<H, M>,
    matched: Option<(Seq<char>, Seq<(Seq<char>, Seq<char>)>)>,
    path: Seq<char>,
    method: Seq<char>,
    resolved: Result<(&Next<H, M>, Params), Error>,
) -> bool {
    &&& match matched {
        None => resolved == Err::<(&Next<H, M>, Params), Error>(Error::NotFound),
        Some((pattern, captures)) => {
            &&& table.patterns.contains(pattern)
            &&& answer(table, pattern, captures, method, resolved)
        },
    }
    &&& table.patterns.contains(path) && literal(path) ==> answer(
        table,
        path,
        Seq::<(Seq<char>, Seq<char>)>::empty(),
        method,
        resolved,
    )
}

/// `resolved` is what the table holds for `method` at the pattern written
/// `pattern`, with `captures` for what the pattern captured.
pub open spec fn answer<H, M>(
    table: Table<H, M>,
    pattern: Seq<char>,
    captures: Seq<(Seq<char>, Seq<char>)>,
    method: Seq<char>,
    resolved: Result<(&Next<H, M>, Params), Error>,
) -> bool {
    match table.chain_at(pattern, method) {
        None => resolved == Err::<(&Next<H, M>, Params), Error>(Error::MethodNotAllowed),
        Some(chain) => {
            &&& resolved matches Ok((next, params))
            &&& next@ == chain
            &&& params@ == captures
        },
    }
}

/// The empty pattern is never refused by the matcher: it is registered
/// wherever its method is free. To the empty path it alone answers, once
/// it is registered.
pub proof fn empty_pattern_is_its_own<H, M>(server: Server<H, M>)
    requires
        server.wf(),
    ensures
        server.refusal_of(Seq::<char>::empty()) is None,
        server.matched(Seq::<char>::empty()) == if server@.patterns.contains(
            Seq::<char>::empty(),
        ) {
            Some((Seq::<char>::empty(), Seq::<(Seq<char>, Seq<char>)>::empty()))
        } else {
            None
        },
{
}

/// A chain that was registered is the one that the table holds for its
/// pattern and method, and a second registration for the same pattern and
/// method is refused as occupied and leaves the table as it was: the
/// first chain stays, and so does every other.
pub proof fn registered_chain_is_held<H, M>(
    before: Table<H, M>,
    matcher: Option<matchit::InsertError>,
    pattern: Seq<char>,
    method: Seq<char>,
    entry: Chain<H, M>,
    after: Table<H, M>,
    again: Chain<H, M>,
    matcher_again: Option<matchit::InsertError>,
    later: Table<H, M>,
    refusal: Option<Error>,
)
    requires
        registration(before, matcher, pattern, method, entry, after, None),
        registration(after, matcher_again, pattern, method, again, later, refusal),
    ensures
        after.chain_at(pattern, method) == Some(entry),
        refusal matches Some(Error::RouteOccupied { .. }),
        later == after,
{
}

/// A registration leaves every other pattern and method as it was.
pub proof fn registration_keeps_the_rest<H, M>(
    before: Table<H, M>,
    matcher: Option<matchit::InsertError>,
    pattern: Seq<char>,
    method: Seq<char>,
    entry: Chain<H, M>,
    after: Table<H, M>,
    refusal: Option<Error>,
    other_pattern: Seq<char>,
    other_method: Seq<char>,
)
    requires
        registration(before, matcher, pattern, method, entry, after, refusal),
        other_pattern != pattern || other_method != method,
    ensures
        after.chain_at(other_pattern, other_method) == before.chain_at(other_pattern, other_method),
{
}

/// A registration succeeds exactly where the pattern and method are free
/// and the pattern is one of the table or one that the matcher takes.
pub proof fn registration_succeeds_when_owed<H, M>(
    before: Table<H, M>,
    matcher: Option<matchit::InsertError>,
    pattern: Seq<char>,
    method: Seq<char>,
    entry: Chain<H, M>,
    after: Table<H, M>,
    refusal: Option<Error>,
)
    requires
        registration(before, matcher, pattern, method, entry, after, refusal),
    ensures
        refusal is None <==> before.chain_at(pattern, method) is None && (before.patterns.contains(
            pattern,
        ) || matcher is None),
        refusal is None ==> after.chain_at(pattern, method) == Some(entry),
        refusal is Some ==> after == before,
{
}

/// A chain registered at a pattern without braces answers to the path that
/// is written like the pattern, for the method it was registered for.
pub proof fn literal_route_resolves<H, M>(
    before: Table<H, M>,
    matcher: Option<matchit::InsertError>,
    pattern: Seq<char>,
    method: Seq<char>,
    entry: Chain<H, M>,
    after: Table<H, M>,
    matched: Option<(Seq<char>, Seq<(Seq<char>, Seq<char>)>)>,
    resolved: Result<(&Next<H, M>, Params), Error>,
)
    requires
        registration(before, matcher, pattern, method, entry, after, None),
        literal(pattern),
        resolution(after, matched, pattern, method, resolved),
    ensures
        resolved matches Ok((next, params)) && next@ == entry && params@.len() == 0,
{
    assert(after.patterns.contains(pattern));
    assert(after.chain_at(pattern, method) == Some(entry));
}

} // verus!

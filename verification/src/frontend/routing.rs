//! Route groups and the path arithmetic that nests them.

use vstd::prelude::*;
use vstd::string::*;
use crate::frontend::middleware::{Chain, Next, SharedMiddleware};
use crate::server::error::Error;
use crate::server::method::Method;
use crate::server::route::Route;
use crate::server::table::{fits_brace_limit, within_brace_limit};
use crate::server::{kept, settled, Server, Table};

verus! {

/// `s` without the slashes that it ends with.
pub open spec fn without_trailing_slashes(s: Seq<char>) -> Seq<char>
    decreases s.len(),
{
    if s.len() > 0 && s.last() == '/' {
        without_trailing_slashes(s.drop_last())
    } else {
        s
    }
}

/// `s` without the slashes that it begins with.
pub open spec fn without_leading_slashes(s: Seq<char>) -> Seq<char>
    decreases s.len(),
{
    if s.len() > 0 && s[0] == '/' {
        without_leading_slashes(s.drop_first())
    } else {
        s
    }
}

/// The path of a route `b` nested under the base path `a`: the two with
/// one slash between them, whatever slashes they bring to the join.
pub open spec fn joined_path(a: Seq<char>, b: Seq<char>) -> Seq<char> {
    without_trailing_slashes(a) + seq!['/'] + without_leading_slashes(b)
}

/// The number of characters that `s` has before the slashes it ends with.
fn trimmed_end(s: &str) -> (end: usize)
    ensures
        end <= s@.len(),
        without_trailing_slashes(s@) == s@.take(end as int),
{
    let len: usize = s.unicode_len();
    let mut end: usize = len;
    let mut more: bool = end > 0;
    assert(s@.take(len as int) =~= s@);
    while more
        invariant
            end <= len,
            len == s@.len(),
            more ==> end > 0,
            !more ==> without_trailing_slashes(s@.take(end as int)) == s@.take(end as int),
            without_trailing_slashes(s@) == without_trailing_slashes(s@.take(end as int)),
        decreases end + if more { 1nat } else { 0nat },
    {
        if s.get_char(end - 1) == '/' {
            assert(s@.take(end as int).drop_last() =~= s@.take(end - 1));
            end -= 1;
            more = end > 0;
        } else {
            more = false;
        }
    }
    end
}

/// The number of slashes that `s` begins with.
fn trimmed_start(s: &str) -> (start: usize)
    ensures
        start <= s@.len(),
        without_leading_slashes(s@) == s@.skip(start as int),
{
    let len: usize = s.unicode_len();
    let mut start: usize = 0;
    let mut more: bool = len > 0;
    assert(s@.skip(0) =~= s@);
    while more
        invariant
            start <= len,
            len == s@.len(),
            more ==> start < len,
            !more ==> without_leading_slashes(s@.skip(start as int)) == s@.skip(start as int),
            without_leading_slashes(s@) == without_leading_slashes(s@.skip(start as int)),
        decreases len - start + if more { 1nat } else { 0nat },
    {
        if s.get_char(start) == '/' {
            assert(s@.skip(start as int).drop_first() =~= s@.skip(start + 1));
            start += 1;
            more = start < len;
        } else {
            more = false;
        }
    }
    start
}

/// Joins a base path and a route path with exactly one `/` between them.
pub fn concat_path(a: &str, b: &str) -> (joined: String)
    ensures
        joined@ == joined_path(a@, b@),
{
    let head: &str = a.substring_char(0, trimmed_end(a));
    let tail: &str = b.substring_char(trimmed_start(b), b.unicode_len());
    proof {
        reveal_strlit("/");
        assert(a@.subrange(0, head@.len() as int) =~= a@.take(head@.len() as int));
        assert(b@.subrange(b@.len() - tail@.len(), b@.len() as int) =~= b@.skip(
            b@.len() - tail@.len(),
        ));
    }
    let mut joined = String::from_str(head);
    joined.append("/");
    joined.append(tail);
    joined
}

/// No two slashes of `path` stand side by side.
pub open spec fn single_slashes(path: Seq<char>) -> bool {
    forall|i: int| 0 <= i < path.len() - 1 ==> !(path[i] == '/' && #[trigger] path[i + 1] == '/')
}

/// What is left of `s` without the slashes it ends with is the front of
/// `s` and ends with no slash.
pub proof fn trailing_slashes_are_cut(s: Seq<char>)
    ensures
        without_trailing_slashes(s).len() <= s.len(),
        without_trailing_slashes(s) == s.take(without_trailing_slashes(s).len() as int),
        without_trailing_slashes(s).len() > 0 ==> without_trailing_slashes(s).last() != '/',
    decreases s.len(),
{
    if s.len() > 0 && s.last() == '/' {
        trailing_slashes_are_cut(s.drop_last());
        let kept = without_trailing_slashes(s);
        assert(s.drop_last().take(kept.len() as int) =~= s.take(kept.len() as int));
    } else {
        assert(s.take(s.len() as int) =~= s);
    }
}

/// What is left of `s` without the slashes it begins with is the back of
/// `s` and begins with no slash.
pub proof fn leading_slashes_are_cut(s: Seq<char>)
    ensures
        without_leading_slashes(s).len() <= s.len(),
        without_leading_slashes(s) == s.skip(s.len() - without_leading_slashes(s).len()),
        without_leading_slashes(s).len() > 0 ==> without_leading_slashes(s)[0] != '/',
    decreases s.len(),
{
    if s.len() > 0 && s[0] == '/' {
        leading_slashes_are_cut(s.drop_first());
        let kept = without_leading_slashes(s);
        assert(s.drop_first().skip(s.len() - 1 - kept.len()) =~= s.skip(s.len() - kept.len()));
    } else {
        assert(s.skip(0) =~= s);
    }
}

/// Exactly one slash stands where two paths are joined: the character
/// before it, if there is one, is no slash, and neither is the character
/// after it.
pub proof fn one_slash_at_the_join(a: Seq<char>, b: Seq<char>)
    ensures
        ({
            let joined = joined_path(a, b);
            let at = without_trailing_slashes(a).len() as int;
            &&& at < joined.len()
            &&& joined[at] == '/'
            &&& at > 0 ==> joined[at - 1] != '/'
            &&& at + 1 < joined.len() ==> joined[at + 1] != '/'
        }),
{
    trailing_slashes_are_cut(a);
    leading_slashes_are_cut(b);
    let head = without_trailing_slashes(a);
    let tail = without_leading_slashes(b);
    let joined = joined_path(a, b);
    let at = head.len() as int;
    if at > 0 {
        assert(joined[at - 1] == head.last());
    }
    if at + 1 < joined.len() {
        assert(joined[at + 1] == tail[0]);
    }
}

/// Joining two paths whose slashes stand alone gives a path whose slashes
/// stand alone.
pub proof fn joined_path_keeps_slashes_single(a: Seq<char>, b: Seq<char>)
    requires
        single_slashes(a),
        single_slashes(b),
    ensures
        single_slashes(joined_path(a, b)),
{
    trailing_slashes_are_cut(a);
    leading_slashes_are_cut(b);
    one_slash_at_the_join(a, b);
    let head = without_trailing_slashes(a);
    let tail = without_leading_slashes(b);
    let joined = joined_path(a, b);
    let at = head.len() as int;
    let cut = b.len() - tail.len();
    assert forall|i: int| 0 <= i < joined.len() - 1 implies !(joined[i] == '/' && #[trigger] joined[i
        + 1] == '/') by {
        if i + 1 < at {
            assert(joined[i] == a[i] && joined[i + 1] == a[i + 1]);
        } else if i > at {
            let j = i - at - 1;
            assert(joined[i] == tail[j] && joined[i + 1] == tail[j + 1]);
            assert(tail[j] == b[cut + j] && tail[j + 1] == b[cut + j + 1]);
        }
    }
}

/// A path joined to the empty base path begins with a slash.
pub proof fn empty_base_gives_leading_slash(b: Seq<char>)
    ensures
        joined_path(Seq::empty(), b)[0] == '/',
{
}

/// A route of a group: where it is mounted, and the chain that answers.
pub struct Mounted<H, M> {
    pub path: Seq<char>,
    pub method: Seq<char>,
    pub chain: Chain<H, M>,
}

/// What a group is made of.
#[verifier::ext_equal]
pub struct Grouping<H, M> {
    /// The path that every route of the group lies under.
    pub base_path: Seq<char>,
    /// The middleware of the group, in the order it was added.
    pub layers: Seq<Option<M>>,
    /// The routes of the group, in the order they were added.
    pub routes: Seq<Mounted<H, M>>,
}

impl<H, M> Grouping<H, M> {
    /// A group without a base path, middleware or routes.
    pub open spec fn empty() -> Self {
        Grouping { base_path: Seq::empty(), layers: Seq::empty(), routes: Seq::empty() }
    }

    /// The route `inner` of the group as it is seen from outside the
    /// group: under the base path, and inside the middleware of the group.
    pub open spec fn lifted(self, inner: Mounted<H, M>) -> Mounted<H, M> {
        Mounted {
            path: joined_path(self.base_path, inner.path),
            method: inner.method,
            chain: Chain { layers: self.layers + inner.chain.layers, handler: inner.chain.handler },
        }
    }

    /// The routes of the group as they are seen from outside the group.
    pub open spec fn flattened(self) -> Seq<Mounted<H, M>> {
        self.routes.map_values(|inner: Mounted<H, M>| self.lifted(inner))
    }
}

struct InnerRoute<H, M> {
    route: Route,
    handler: Next<H, M>,
}

impl<H, M> InnerRoute<H, M> {
    spec fn mounted(self) -> Mounted<H, M> {
        Mounted { path: self.route.path@, method: self.route.method@, chain: self.handler@ }
    }
}

/// Routes under a shared base path and inside a shared stack of
/// middleware. Groups nest: the middleware of the outer group runs outside
/// that of the inner one.
pub struct Group<H, M> {
    base_path: String,
    middlewares: Vec<SharedMiddleware<M>>,
    routes: Vec<InnerRoute<H, M>>,
}

impl<H, M> View for Group<H, M> {
    type V = Grouping<H, M>;

    closed spec fn view(&self) -> Grouping<H, M> {
        Grouping {
            base_path: self.base_path@,
            layers: self.middlewares@.map_values(|layer: SharedMiddleware<M>| layer@),
            routes: self.routes@.map_values(|inner: InnerRoute<H, M>| inner.mounted()),
        }
    }
}

impl<H, M> Group<H, M> {
    /// A group without a base path, middleware or routes.
    pub fn new() -> (group: Self)
        ensures
            group@ == Grouping::<H, M>::empty(),
    {
        let group = Group { base_path: String::new(), middlewares: Vec::new(), routes: Vec::new() };
        assert(group@ =~= Grouping::<H, M>::empty());
        group
    }

    /// Sets the base path, in place of the one set before.
    pub fn path(&mut self, path: &str) -> (group: &mut Self)
        ensures
            group@ == (Grouping { base_path: path@, ..old(self)@ }),
            *final(self) == *final(group),
    {
        self.base_path = String::from_str(path);
        self
    }

    /// Adds `middleware` inside the middleware that the group has already.
    pub fn middleware(&mut self, middleware: SharedMiddleware<M>) -> (group: &mut Self)
        ensures
            group@ == (Grouping { layers: old(self)@.layers.push(middleware@), ..old(self)@ }),
            *final(self) == *final(group),
    {
        self.middlewares.push(middleware);
        self
    }

    /// Adds a route that `handler` answers.
    pub fn route(&mut self, route: Route, handler: H) -> (group: &mut Self)
        ensures
            group@ == old(self)@.plus(route.path@, route.method@, handler),
            *final(self) == *final(group),
    {
        self.routes.push(InnerRoute { route, handler: Next::new(handler) });
        self
    }

    /// Puts the middleware of the group around `handler`, the one added
    /// first outermost.
    pub fn apply_middlewares(&self, handler: Next<H, M>) -> (wrapped: Next<H, M>)
        ensures
            wrapped@.layers == self@.layers + handler@.layers,
            wrapped@.handler == handler@.handler,
    {
        let mut stack = handler;
        let mut i: usize = self.middlewares.len();
        while i > 0
            invariant
                i <= self.middlewares.len(),
                stack@.layers == self@.layers.skip(i as int) + handler@.layers,
                stack@.handler == handler@.handler,
            decreases i,
        {
            i -= 1;
            stack = self.middlewares[i].share().wrap(stack);
        }
        stack
    }

    /// Moves the group out and leaves an empty one behind.
    pub fn take(&mut self) -> (taken: Self)
        ensures
            taken@ == old(self)@,
            final(self)@ == Grouping::<H, M>::empty(),
    {
        let mut taken = Group::new();
        core::mem::swap(self, &mut taken);
        taken
    }

    /// Moves the routes of `group` into this group and leaves `group`
    /// empty. Each route comes under the base path of `group` and inside
    /// its middleware.
    pub fn group(&mut self, group: &mut Group<H, M>) -> (outcome: Result<&mut Self, Error>)
        ensures
            final(group)@ == Grouping::<H, M>::empty(),
            match outcome {
                Ok(parent) => {
                    &&& parent@ == (Grouping {
                        routes: old(self)@.routes + old(group)@.flattened(),
                        ..old(self)@
                    })
                    &&& *final(self) == *final(parent)
                },
                Err(_) => false,
            },
    {
        let mut child = group.take();
        let mut inner_routes: Vec<InnerRoute<H, M>> = Vec::new();
        core::mem::swap(&mut child.routes, &mut inner_routes);
        let ghost inner = old(group)@;
        let mut i: usize = 0;
        let n: usize = inner_routes.len();
        // The routes leave the back of the list, so the list is turned first.
        let mut pending = reversed(inner_routes);
        while i < n
            invariant
                i <= n,
                n == inner.routes.len(),
                pending.len() == n - i,
                forall|j: int|
                    0 <= j < pending.len() ==> (#[trigger] pending[j]).mounted() == inner.routes[n
                        - 1 - j],
                child.base_path@ == inner.base_path,
                child.middlewares@.map_values(|layer: SharedMiddleware<M>| layer@) == inner.layers,
                self@ == (Grouping {
                    routes: old(self)@.routes + inner.flattened().take(i as int),
                    ..old(self)@
                }),
            decreases n - i,
        {
            let mut route = pending.pop().unwrap();
            route.route.path = concat_path(child.base_path.as_str(), route.route.path.as_str());
            route.handler = child.apply_middlewares(route.handler);
            let ghost so_far = self@.routes;
            self.routes.push(route);
            assert(self@.routes =~= old(self)@.routes + inner.flattened().take(i + 1)) by {
                assert(self@.routes =~= so_far.push(route.mounted()));
                assert(inner.flattened().take(i + 1) =~= inner.flattened().take(i as int).push(
                    inner.lifted(inner.routes[i as int]),
                ));
            }
            i += 1;
        }
        Ok(self)
    }

    /// Adds a route for `GET` at `path`.
    pub fn get(&mut self, path: &str, handler: H) -> (group: &mut Self)
        ensures
            group@ == old(self)@.plus(path@, "GET"@, handler),
            *final(self) == *final(group),
    {
        self.route(Route::new(path, Method::get()), handler)
    }

    /// Adds a route for `POST` at `path`.
    pub fn post(&mut self, path: &str, handler: H) -> (group: &mut Self)
        ensures
            group@ == old(self)@.plus(path@, "POST"@, handler),
            *final(self) == *final(group),
    {
        self.route(Route::new(path, Method::post()), handler)
    }

    /// Adds a route for `PUT` at `path`.
    pub fn put(&mut self, path: &str, handler: H) -> (group: &mut Self)
        ensures
            group@ == old(self)@.plus(path@, "PUT"@, handler),
            *final(self) == *final(group),
    {
        self.route(Route::new(path, Method::put()), handler)
    }

    /// Adds a route for `PATCH` at `path`.
    pub fn patch(&mut self, path: &str, handler: H) -> (group: &mut Self)
        ensures
            group@ == old(self)@.plus(path@, "PATCH"@, handler),
            *final(self) == *final(group),
    {
        self.route(Route::new(path, Method::patch()), handler)
    }

    /// Adds a route for `DELETE` at `path`.
    pub fn delete(&mut self, path: &str, handler: H) -> (group: &mut Self)
        ensures
            group@ == old(self)@.plus(path@, "DELETE"@, handler),
            *final(self) == *final(group),
    {
        self.route(Route::new(path, Method::delete()), handler)
    }

    /// Adds a route for `CONNECT` at `path`.
    pub fn connect(&mut self, path: &str, handler: H) -> (group: &mut Self)
        ensures
            group@ == old(self)@.plus(path@, "CONNECT"@, handler),
            *final(self) == *final(group),
    {
        self.route(Route::new(path, Method::connect()), handler)
    }

    /// Adds a route for `HEAD` at `path`.
    pub fn head(&mut self, path: &str, handler: H) -> (group: &mut Self)
        ensures
            group@ == old(self)@.plus(path@, "HEAD"@, handler),
            *final(self) == *final(group),
    {
        self.route(Route::new(path, Method::head()), handler)
    }

    /// Adds a route for `OPTIONS` at `path`.
    pub fn options(&mut self, path: &str, handler: H) -> (group: &mut Self)
        ensures
            group@ == old(self)@.plus(path@, "OPTIONS"@, handler),
            *final(self) == *final(group),
    {
        self.route(Route::new(path, Method::options()), handler)
    }

    /// Adds a route for `TRACE` at `path`.
    pub fn trace(&mut self, path: &str, handler: H) -> (group: &mut Self)
        ensures
            group@ == old(self)@.plus(path@, "TRACE"@, handler),
            *final(self) == *final(group),
    {
        self.route(Route::new(path, Method::trace()), handler)
    }
}

impl<H, M> Grouping<H, M> {
    /// The group with one more route, which `handler` answers.
    pub open spec fn plus(self, path: Seq<char>, method: Seq<char>, handler: H) -> Self {
        Grouping {
            routes: self.routes.push(
                Mounted { path: path, method: method, chain: Next::<H, M>::chain_of(handler) },
            ),
            ..self
        }
    }
}

/// The table with a chain for each of `items`, the later ones over the
/// earlier ones.
pub open spec fn mounted_all<H, M>(table: Table<H, M>, items: Seq<Mounted<H, M>>) -> Table<H, M>
    decreases items.len(),
{
    if items.len() == 0 {
        table
    } else {
        mounted_all(table, items.drop_last()).with(
            items.last().path,
            items.last().method,
            items.last().chain,
        )
    }
}

/// `after` is what registering `item` makes of the server `before`, with
/// `refusal` for what the registration answers.
pub open spec fn registered<H, M>(
    before: Server<H, M>,
    item: Mounted<H, M>,
    after: Server<H, M>,
    refusal: Option<Error>,
) -> bool {
    settled(before, item.path, item.method, item.chain, after, refusal)
}

/// `after` is what registering every one of `items` in turn, none of them
/// refused, makes of the server `before`.
pub open spec fn all_registered<H, M>(
    before: Server<H, M>,
    items: Seq<Mounted<H, M>>,
    after: Server<H, M>,
) -> bool
    decreases items.len(),
{
    if items.len() == 0 {
        after == before
    } else {
        exists|mid: Server<H, M>|
            all_registered(before, items.drop_last(), mid) && #[trigger] registered(
                mid,
                items.last(),
                after,
                None,
            )
    }
}

/// Registering `items` in turn went well up to the item at `at`, which
/// left the server `mid`; the item at `at` was refused with `refusal` and
/// left the server `after`.
pub open spec fn stopped_at<H, M>(
    before: Server<H, M>,
    items: Seq<Mounted<H, M>>,
    at: int,
    mid: Server<H, M>,
    after: Server<H, M>,
    refusal: Error,
) -> bool {
    &&& 0 <= at < items.len()
    &&& all_registered(before, items.take(at), mid)
    &&& registered(mid, items[at], after, Some(refusal))
}

/// Where every one of `items` was registered, the server is well formed,
/// named and configured as before, and its table holds a chain for each
/// item.
pub proof fn registered_items_are_held<H, M>(
    before: Server<H, M>,
    items: Seq<Mounted<H, M>>,
    after: Server<H, M>,
)
    requires
        before.wf(),
        all_registered(before, items, after),
    ensures
        kept(before, after),
        after@ == mounted_all(before@, items),
    decreases items.len(),
{
    if items.len() > 0 {
        let mid = choose|mid: Server<H, M>|
            all_registered(before, items.drop_last(), mid) && #[trigger] registered(
                mid,
                items.last(),
                after,
                None,
            );
        registered_items_are_held(before, items.drop_last(), mid);
    }
}

/// Where the registration of `items` ended with a refusal, the items
/// before the refused one stay registered, and nothing else has changed:
/// the refusal left the table as it was.
pub proof fn earlier_routes_stay_registered<H, M>(
    before: Server<H, M>,
    items: Seq<Mounted<H, M>>,
    at: int,
    mid: Server<H, M>,
    after: Server<H, M>,
    refusal: Error,
)
    requires
        before.wf(),
        stopped_at(before, items, at, mid, after, refusal),
    ensures
        kept(before, after),
        after@ == mounted_all(before@, items.take(at)),
        refusal is RouteOccupied || refusal is InvalidPath,
{
    registered_items_are_held(before, items.take(at), mid);
}

impl<H, M> Grouping<H, M> {
    /// Every route of the group, seen from outside, has a path with no
    /// more opening braces than a pattern may hold.
    pub open spec fn mountable(self) -> bool {
        forall|i: int|
            0 <= i < self.routes.len() ==> within_brace_limit(
                #[trigger] joined_path(self.base_path, self.routes[i].path),
            )
    }
}

impl<H, M> Group<H, M> {
    /// Whether every route of the group, seen from outside, has a path
    /// with no more opening braces than a pattern may hold.
    pub fn is_mountable(&self) -> (mountable: bool)
        ensures
            mountable == self@.mountable(),
    {
        let mut i: usize = 0;
        while i < self.routes.len()
            invariant
                i <= self.routes.len(),
                forall|j: int|
                    0 <= j < i ==> within_brace_limit(
                        #[trigger] joined_path(self@.base_path, self@.routes[j].path),
                    ),
            decreases self.routes.len() - i,
        {
            let path = concat_path(self.base_path.as_str(), self.routes[i].route.path.as_str());
            assert(path@ == joined_path(self@.base_path, self@.routes[i as int].path));
            if !fits_brace_limit(path.as_str()) {
                return false;
            }
            i += 1;
        }
        true
    }
}

impl<H, M> Server<H, M> {
    /// Registers the routes of `group` in the order they were added, each
    /// under the base path of the group and inside its middleware, and
    /// leaves `group` empty. The first refusal ends the registration; the
    /// routes before it stay registered.
    pub fn group(&mut self, group: &mut Group<H, M>) -> (outcome: Result<&mut Self, Error>)
        requires
            old(self).wf(),
            old(group)@.mountable(),
        ensures
            final(group)@ == Grouping::<H, M>::empty(),
            match outcome {
                Ok(server) => {
                    &&& *final(self) == *final(server)
                    &&& all_registered(*old(self), old(group)@.flattened(), *server)
                },
                Err(refusal) => exists|at: int, mid: Server<H, M>| #[trigger]
                    stopped_at(
                        *old(self),
                        old(group)@.flattened(),
                        at,
                        mid,
                        *final(self),
                        refusal,
                    ),
            },
    {
        let mut child = group.take();
        let mut inner_routes: Vec<InnerRoute<H, M>> = Vec::new();
        core::mem::swap(&mut child.routes, &mut inner_routes);
        let ghost inner = old(group)@;
        let ghost items = inner.flattened();
        let mut i: usize = 0;
        let n: usize = inner_routes.len();
        // The routes leave the back of the list, so the list is turned first.
        let mut pending = reversed(inner_routes);
        assert(items.take(0) =~= Seq::<Mounted<H, M>>::empty());
        while i < n
            invariant
                i <= n,
                n == inner.routes.len(),
                inner == old(group)@,
                items == inner.flattened(),
                inner.mountable(),
                old(self).wf(),
                pending.len() == n - i,
                forall|j: int|
                    0 <= j < pending.len() ==> (#[trigger] pending[j]).mounted() == inner.routes[n
                        - 1 - j],
                child.base_path@ == inner.base_path,
                child.middlewares@.map_values(|layer: SharedMiddleware<M>| layer@) == inner.layers,
                group@ == Grouping::<H, M>::empty(),
                self.wf(),
                all_registered(*old(self), items.take(i as int), *self),
            decreases n - i,
        {
            let inner_route = pending.pop().unwrap();
            let path = concat_path(child.base_path.as_str(), inner_route.route.path.as_str());
            let route = Route { path, method: inner_route.route.method };
            let entry = child.apply_middlewares(inner_route.handler);
            assert(route.path@ == joined_path(inner.base_path, inner.routes[i as int].path));
            assert(items[i as int] == (Mounted {
                path: route.path@,
                method: route.method@,
                chain: entry@,
            }));
            let ghost mid = *self;
            let refused = match self.mount(route, entry) {
                Ok(_) => None,
                Err(refusal) => Some(refusal),
            };
            if let Some(refusal) = refused {
                assert(stopped_at(*old(self), items, i as int, mid, *self, refusal));
                return Err(refusal);
            }
            proof {
                let longer = items.take(i + 1);
                assert(longer.drop_last() =~= items.take(i as int));
                assert(all_registered(*old(self), longer.drop_last(), mid) && registered(
                    mid,
                    longer.last(),
                    *self,
                    None,
                ));
            }
            i += 1;
        }
        assert(items.take(n as int) =~= items);
        Ok(self)
    }
}

/// Seen from outside its group, a route lies under the base path of the
/// group, and its chain has the middleware of the group around it: the
/// middleware added first is the outermost layer, and the layers of the
/// route itself come after the last of the group.
pub proof fn group_middleware_wraps_in_order<H, M>(group: Grouping<H, M>, at: int)
    requires
        0 <= at < group.routes.len(),
    ensures
        group.flattened()[at].path == joined_path(group.base_path, group.routes[at].path),
        group.flattened()[at].method == group.routes[at].method,
        group.flattened()[at].chain.handler == group.routes[at].chain.handler,
        group.flattened()[at].chain.layers == group.layers + group.routes[at].chain.layers,
{
}

/// Where groups nest, the middleware of the outer group wraps that of the
/// inner group, which wraps the handler.
pub proof fn outer_group_wraps_inner<H, M>(outer: Grouping<H, M>, inner: Grouping<H, M>, at: int)
    requires
        0 <= at < inner.routes.len(),
    ensures
        outer.lifted(inner.flattened()[at]).chain.layers == outer.layers + inner.layers
            + inner.routes[at].chain.layers,
        outer.lifted(inner.flattened()[at]).chain.handler == inner.routes[at].chain.handler,
        outer.lifted(inner.flattened()[at]).path == joined_path(
            outer.base_path,
            joined_path(inner.base_path, inner.routes[at].path),
        ),
{
    assert(outer.layers + (inner.layers + inner.routes[at].chain.layers) =~= outer.layers
        + inner.layers + inner.routes[at].chain.layers);
}

impl<H, M> Default for Group<H, M> {
    /// A group without a base path, middleware or routes.
    fn default() -> (group: Self)
        ensures
            group@ == Grouping::<H, M>::empty(),
    {
        Group::new()
    }
}

/// The items of `list` in the opposite order.
fn reversed<T>(list: Vec<T>) -> (turned: Vec<T>)
    ensures
        turned@ == list@.reverse(),
{
    let mut rest = list;
    let mut turned: Vec<T> = Vec::new();
    while rest.len() > 0
        invariant
            turned.len() + rest.len() == list.len(),
            forall|j: int| 0 <= j < rest.len() ==> rest[j] == list[j],
            forall|j: int| 0 <= j < turned.len() ==> turned[j] == list[list.len() - 1 - j],
        decreases rest.len(),
    {
        let item = rest.pop().unwrap();
        turned.push(item);
    }
    turned
}

} // verus!

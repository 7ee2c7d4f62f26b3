//! What a handler is registered under.

use vstd::prelude::*;
use vstd::string::*;
use crate::server::method::Method;

verus! {

/// A path pattern and the method that it answers to.
///
/// A pattern is made of literal segments and of captures written
/// `{name}`.
#[derive(Debug)]
pub struct Route {
    pub path: String,
    pub method: Method,
}

impl Route {
    /// The route of `method` at `path`.
    pub fn new(path: &str, method: Method) -> (route: Route)
        ensures
            route.path@ == path@,
            route.method == method,
    {
        Route { path: String::from_str(path), method }
    }

    /// The same route at another path.
    pub fn path(self, path: &str) -> (route: Route)
        ensures
            route.path@ == path@,
            route.method == self.method,
    {
        let mut route = self;
        route.path = String::from_str(path);
        route
    }

    /// The same route for another method.
    pub fn method(self, method: Method) -> (route: Route)
        ensures
            route.path == self.path,
            route.method == method,
    {
        let mut route = self;
        route.method = method;
        route
    }

    /// A copy of the route.
    pub fn duplicate(&self) -> (route: Route)
        ensures
            route.path@ == self.path@,
            route.method@ == self.method@,
    {
        Route { path: self.path.clone(), method: self.method.duplicate() }
    }
}

impl Default for Route {
    /// `GET` at the empty path.
    fn default() -> (route: Route)
        ensures
            route.path@ == Seq::<char>::empty(),
            route.method@ == "GET"@,
    {
        Route { path: String::new(), method: Method::get() }
    }
}

} // verus!

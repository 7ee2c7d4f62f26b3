//! The request method a route is registered under.

use vstd::prelude::*;
use vstd::string::*;

verus! {

/// An HTTP request method, held as its token.
///
/// Two methods are the same method exactly when their tokens are equal, so
/// extension methods of any length are keys like the standard ones.
#[derive(Debug)]
pub struct Method {
    token: String,
}

impl View for Method {
    type V = Seq<char>;

    closed spec fn view(&self) -> Seq<char> {
        self.token@
    }
}

impl Method {
    /// The method with the given token.
    pub fn new(token: &str) -> (method: Method)
        ensures
            method@ == token@,
    {
        Method { token: String::from_str(token) }
    }

    /// `GET`
    pub fn get() -> (method: Method)
        ensures
            method@ == "GET"@,
    {
        Method::new("GET")
    }

    /// `POST`
    pub fn post() -> (method: Method)
        ensures
            method@ == "POST"@,
    {
        Method::new("POST")
    }

    /// `PUT`
    pub fn put() -> (method: Method)
        ensures
            method@ == "PUT"@,
    {
        Method::new("PUT")
    }

    /// `PATCH`
    pub fn patch() -> (method: Method)
        ensures
            method@ == "PATCH"@,
    {
        Method::new("PATCH")
    }

    /// `DELETE`
    pub fn delete() -> (method: Method)
        ensures
            method@ == "DELETE"@,
    {
        Method::new("DELETE")
    }

    /// `CONNECT`
    pub fn connect() -> (method: Method)
        ensures
            method@ == "CONNECT"@,
    {
        Method::new("CONNECT")
    }

    /// `HEAD`
    pub fn head() -> (method: Method)
        ensures
            method@ == "HEAD"@,
    {
        Method::new("HEAD")
    }

    /// `OPTIONS`
    pub fn options() -> (method: Method)
        ensures
            method@ == "OPTIONS"@,
    {
        Method::new("OPTIONS")
    }

    /// `TRACE`
    pub fn trace() -> (method: Method)
        ensures
            method@ == "TRACE"@,
    {
        Method::new("TRACE")
    }

    /// The token of the method.
    pub fn as_str(&self) -> (token: &str)
        ensures
            token@ == self@,
    {
        self.token.as_str()
    }

    /// Whether `self` and `other` are the same method.
    pub fn same(&self, other: &Method) -> (same: bool)
        ensures
            same == (self@ == other@),
    {
        self.token == other.token
    }

    /// A copy of the method.
    pub fn duplicate(&self) -> (copy: Method)
        ensures
            copy@ == self@,
    {
        Method { token: self.token.clone() }
    }
}

impl Default for Method {
    /// `GET`, the method of a route that names none.
    fn default() -> (method: Method)
        ensures
            method@ == "GET"@,
    {
        Method::get()
    }
}

} // verus!

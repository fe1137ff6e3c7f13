//! The incoming-request descriptor the router reads.

use vstd::prelude::*;
use crate::method::Method;

verus! {

/// What the router reads of an incoming HTTP request: its path and its
/// method token. The surrounding server owns everything else (headers,
/// body, transport).
pub struct Request {
    pub method: Method,
    pub path: String,
}

impl Request {
    /// Builds a request descriptor from a method token and a path string.
    pub fn new(method: Method, path: String) -> (result: Request)
        ensures
            result.method == method,
            result.path@ == path@,
    {
        Request { method, path }
    }

    /// The request path.
    pub fn path(&self) -> (result: &str)
        ensures
            result@ == self.path@,
    {
        self.path.as_str()
    }

    /// The request's HTTP method token.
    pub fn method(&self) -> (result: Method)
        ensures
            result == self.method,
    {
        self.method
    }
}

} // verus!

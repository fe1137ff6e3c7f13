//! Fluent construction of routes: method and pattern first, handler last.

use core::marker::PhantomData;
use vstd::prelude::*;
use crate::method::Method;
use crate::path::{pattern_valid, Path, PatternError};
use crate::route::Route;

verus! {

/// A partially-built route: method and pattern are set, the handler is
/// still missing. [`RouteBuilder::using`] attaches the handler and yields
/// the finished [`Route`]; this is the only way to obtain one, so a route
/// can never exist without a handler.
///
/// An invalid pattern is caught here, at construction time: `using`
/// demands a builder whose pattern compiled, and [`RouteBuilder::try_using`]
/// surfaces the failure as a [`PatternError`] instead.
pub struct RouteBuilder<H> {
    method: Method,
    path: Result<Path, PatternError>,
    handler: PhantomData<H>,
}

impl<H> RouteBuilder<H> {
    /// The method the finished route will be registered for.
    pub closed spec fn method_spec(&self) -> Method {
        self.method
    }

    /// Whether the pattern compiled into a path matcher.
    pub closed spec fn pattern_ok(&self) -> bool {
        self.path is Ok
    }

    /// The pattern the finished route will match paths against.
    pub closed spec fn pattern_spec(&self) -> Seq<char> {
        self.path->Ok_0@
    }

    /// Starts a route for the given method, compiling the path pattern.
    pub fn new(method: Method, pattern: &str) -> (result: RouteBuilder<H>)
        ensures
            result.method_spec() == method,
            result.pattern_ok() <==> pattern_valid(pattern@),
            result.pattern_ok() ==> result.pattern_spec() == pattern@,
    {
        RouteBuilder { method, path: Path::new(pattern), handler: PhantomData }
    }

    /// Whether the pattern of this builder compiled, that is, whether
    /// `using` may be called on it.
    pub fn valid(&self) -> (result: bool)
        ensures
            result == self.pattern_ok(),
    {
        self.path.is_ok()
    }

    /// Completes the building process by taking the handler to process
    /// the request.
    ///
    /// Returns the created route.
    pub fn using(self, handler: H) -> (result: Route<H>)
        requires
            self.pattern_ok(),
        ensures
            result.method == self.method_spec(),
            result.path@ == self.pattern_spec(),
            result.handler == handler,
    {
        match self.path {
            Ok(path) => Route { method: self.method, path, handler },
            Err(_) => vstd::pervasive::unreached(),
        }
    }

    /// Like [`RouteBuilder::using`], but surfaces an invalid pattern as a
    /// [`PatternError`] instead of demanding a valid one.
    pub fn try_using(self, handler: H) -> (result: Result<Route<H>, PatternError>)
        ensures
            self.pattern_ok() ==> (result matches Ok(route) && route.method == self.method_spec()
                && route.path@ == self.pattern_spec() && route.handler == handler),
            !self.pattern_ok() ==> result is Err,
    {
        match self.path {
            Ok(path) => Ok(Route { method: self.method, path, handler }),
            Err(error) => Err(error),
        }
    }
}

} // verus!

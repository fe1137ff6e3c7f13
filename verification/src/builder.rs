//! Accumulates routes in registration order and freezes them into a router.

use vstd::prelude::*;
use crate::route::Route;
use crate::Router;

verus! {

/// An ordered, growable sequence of routes. The order of `add` calls is
/// preserved and is the authoritative tie-break order of the finished
/// router: among routes matching one request, the first added wins.
pub struct RouterBuilder<H> {
    routes: Vec<Route<H>>,
}

impl<H> View for RouterBuilder<H> {
    type V = Seq<Route<H>>;

    closed spec fn view(&self) -> Seq<Route<H>> {
        self.routes@
    }
}

impl<H> RouterBuilder<H> {
    /// A builder with no routes.
    pub fn new() -> (result: RouterBuilder<H>)
        ensures
            result@ == Seq::<Route<H>>::empty(),
    {
        RouterBuilder { routes: Vec::new() }
    }

    /// Appends a route, after all routes added so far, and returns the
    /// builder for chaining.
    pub fn add(self, route: Route<H>) -> (result: RouterBuilder<H>)
        ensures
            result@ == self@.push(route),
    {
        let mut routes = self.routes;
        routes.push(route);
        RouterBuilder { routes }
    }

    /// Freezes the routes added so far into an immutable router.
    /// Construction never fails: pattern-compile failures have already
    /// surfaced when each route was built.
    pub fn build(self) -> (result: Router<H>)
        ensures
            result@ == self@,
    {
        Router { routes: self.routes }
    }
}

} // verus!

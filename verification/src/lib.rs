//! A request-routing layer for an HTTP server.
//!
//! Routes bind an HTTP method and a path pattern to a handler. A
//! [`Router`] holds routes in registration order and resolves an incoming
//! request to the handler of the first route whose pattern matches the
//! request path and whose method equals the request method.
//!
//! Path matching is unanchored: a pattern matches a path when it matches
//! anywhere inside it, so `"/foo/.*?"` matches `/foo/bar`. Because of
//! this, overlapping patterns are common, and registration order is the
//! documented conflict policy: the first added route wins.

pub mod builder;
pub mod handlers;
pub mod method;
pub mod path;
pub mod request;
pub mod response;
pub mod route;

use vstd::prelude::*;
use crate::handlers::is_plaintext_response;
use crate::path::path_matches;

pub use crate::builder::RouterBuilder;
pub use crate::method::Method;
pub use crate::path::Path;
pub use crate::path::PatternError;
pub use crate::request::Request;
pub use crate::response::ContentType;
pub use crate::response::Response;
pub use crate::route::builder::RouteBuilder;
pub use crate::route::Route;

verus! {

/// Why a lookup failed: no route's pattern matched the request path at
/// all, or some did but none of them was registered for the request's
/// method.
#[derive(Clone, Copy, Debug, PartialEq, Eq, Structural)]
pub enum LookupError {
    NotFound,
    MethodNotAllowed,
}

/// The subsequence of `routes`, in order, whose pattern matches `path`.
/// The request method plays no part here.
pub open spec fn matching_routes<H>(routes: Seq<Route<H>>, path: Seq<char>) -> Seq<Route<H>> {
    routes.filter(|route: Route<H>| path_matches(route.path@, path))
}

/// The routes a sequence of route references points at, in order.
pub open spec fn deref_routes<H>(routes: Seq<&Route<H>>) -> Seq<Route<H>> {
    routes.map_values(|route: &Route<H>| *route)
}

/// The first route of `routes` registered for `method`, if any.
pub open spec fn first_with_method<H>(routes: Seq<Route<H>>, method: Method) -> Option<Route<H>>
    decreases routes.len(),
{
    if routes.len() == 0 {
        None
    } else if routes.first().method == method {
        Some(routes.first())
    } else {
        first_with_method(routes.drop_first(), method)
    }
}

/// What a lookup of (`method`, `path`) over `routes` resolves to: the
/// routes are filtered on path first, then the first of those registered
/// for `method` wins; an empty filter result is `NotFound`, a non-empty
/// one without the method is `MethodNotAllowed`.
pub open spec fn lookup<H>(routes: Seq<Route<H>>, method: Method, path: Seq<char>) -> Result<
    Route<H>,
    LookupError,
> {
    let matching = matching_routes(routes, path);
    if matching.len() == 0 {
        Err(LookupError::NotFound)
    } else {
        match first_with_method(matching, method) {
            Some(route) => Ok(route),
            None => Err(LookupError::MethodNotAllowed),
        }
    }
}

/// This is the one. The router.
///
/// It holds the registered routes in registration order, immutable after
/// [`RouterBuilder::build`], and resolves requests against them.
pub struct Router<H> {
    pub(crate) routes: Vec<Route<H>>,
}

impl<H> View for Router<H> {
    type V = Seq<Route<H>>;

    closed spec fn view(&self) -> Seq<Route<H>> {
        self.routes@
    }
}

impl<H> Router<H> {
    /// Returns the routes that match the given path, in registration
    /// order, regardless of their method.
    pub fn find_matching_routes(&self, request_path: &str) -> (result: Vec<&Route<H>>)
        ensures
            deref_routes(result@) == matching_routes(self@, request_path@),
    {
        let mut result: Vec<&Route<H>> = Vec::new();
        let mut i: usize = 0;
        let n = self.routes.len();
        while i < n
            invariant
                i <= n == self.routes@.len(),
                deref_routes(result@) == matching_routes(self@.take(i as int), request_path@),
            decreases n - i,
        {
            let route = &self.routes[i];
            let matched = route.path.matches(request_path);
            proof {
                assert(self@.take(i as int + 1) =~= self@.take(i as int).push(self@[i as int]));
                lemma_matching_routes_append(self@.take(i as int), self@[i as int], request_path@);
            }
            if matched {
                let ghost prev = result@;
                result.push(route);
                proof {
                    assert(deref_routes(result@) =~= deref_routes(prev).push(self@[i as int]));
                }
            }
            i += 1;
        }
        proof {
            assert(self@.take(n as int) =~= self@);
        }
        result
    }

    /// Finds the handler for the given request.
    ///
    /// The request path is matched against the registered routes first;
    /// if no pattern matches, the lookup fails with `NotFound`. Among the
    /// matching routes, the first one registered for the request's method
    /// wins; if there is none, the lookup fails with `MethodNotAllowed`.
    pub fn find_handler(&self, request: &Request) -> (result: Result<&H, LookupError>)
        ensures
            match result {
                Ok(handler) => (lookup(self@, request.method, request.path@) matches Ok(route)
                    && *handler == route.handler),
                Err(error) => lookup(self@, request.method, request.path@) == Err::<
                    Route<H>,
                    LookupError,
                >(error),
            },
    {
        let matching = self.find_matching_routes(request.path());
        if matching.len() == 0 {
            proof {
                assert(matching_routes(self@, request.path@).len() == 0);
            }
            Err(LookupError::NotFound)
        } else {
            match self.find_for_method(&matching, &request.method) {
                Some(handler) => Ok(handler),
                None => Err(LookupError::MethodNotAllowed),
            }
        }
    }

    /// Finds the handler for the given request, falling back to the
    /// default handlers of [`handlers`] when the lookup fails.
    ///
    /// On success the chosen route's handler comes back; on `NotFound`
    /// and `MethodNotAllowed` the response of the default "404" or "405"
    /// handler does, since those handlers ignore the request payload.
    pub fn find_handler_with_defaults(&self, request: &Request) -> (result: Result<&H, Response>)
        ensures
            match lookup(self@, request.method, request.path@) {
                Ok(route) => (result matches Ok(handler) && *handler == route.handler),
                Err(LookupError::NotFound) => (result matches Err(response)
                    && is_plaintext_response(response, 404, "page not found"@)),
                Err(LookupError::MethodNotAllowed) => (result matches Err(response)
                    && is_plaintext_response(response, 405, "method not supported"@)),
            },
    {
        match self.find_handler(request) {
            Ok(handler) => Ok(handler),
            Err(LookupError::NotFound) => Err(handlers::default_404_handler(request)),
            Err(LookupError::MethodNotAllowed) => Err(
                handlers::method_not_supported_handler(request),
            ),
        }
    }

    /// The first route of `routes` whose method equals `method`, if any.
    fn find_for_method<'a>(
        &self,
        routes: &Vec<&'a Route<H>>,
        method: &Method,
    ) -> (result: Option<&'a H>)
        ensures
            match result {
                Some(handler) => (first_with_method(deref_routes(routes@), *method) matches Some(
                    route,
                ) && *handler == route.handler),
                None => first_with_method(deref_routes(routes@), *method) is None,
            },
    {
        let ghost all = deref_routes(routes@);
        proof {
            assert(all.skip(0) =~= all);
        }
        let mut i: usize = 0;
        let n = routes.len();
        while i < n
            invariant
                i <= n == routes@.len(),
                all == deref_routes(routes@),
                first_with_method(all.skip(i as int), *method) == first_with_method(all, *method),
            decreases n - i,
        {
            let route: &Route<H> = routes[i];
            proof {
                assert(all.skip(i as int).first() == all[i as int]);
            }
            if route.method == *method {
                return Some(&route.handler);
            }
            proof {
                assert(all.skip(i as int).drop_first() =~= all.skip(i as int + 1));
            }
            i += 1;
        }
        proof {
            assert(all.skip(n as int) =~= Seq::<Route<H>>::empty());
        }
        None
    }
}

/// Route `i` of `routes` fully matches a request for `path` with
/// `method`: its pattern matches the path and its method is the
/// request's.
pub open spec fn full_match_at<H>(
    routes: Seq<Route<H>>,
    method: Method,
    path: Seq<char>,
    i: int,
) -> bool {
    &&& 0 <= i < routes.len()
    &&& path_matches(routes[i].path@, path)
    &&& routes[i].method == method
}

/// A lookup fails with `NotFound` exactly when no registered route's
/// pattern matches the request path.
pub proof fn lemma_not_found_iff<H>(routes: Seq<Route<H>>, method: Method, path: Seq<char>)
    ensures
        lookup(routes, method, path) == Err::<Route<H>, LookupError>(LookupError::NotFound) <==> (
        forall|i: int| 0 <= i < routes.len() ==> !path_matches(routes[i].path@, path)),
{
    lemma_matching_routes_empty_iff(routes, path);
}

/// A lookup fails with `MethodNotAllowed` exactly when at least one
/// route's pattern matches the request path but no route fully matches
/// the request.
pub proof fn lemma_method_not_allowed_iff<H>(routes: Seq<Route<H>>, method: Method, path: Seq<char>)
    ensures
        lookup(routes, method, path) == Err::<Route<H>, LookupError>(LookupError::MethodNotAllowed)
            <==> ((exists|i: int|
            0 <= i < routes.len() && path_matches(routes[i].path@, path)) && (forall|i: int|
            !full_match_at(routes, method, path, i))),
{
    lemma_matching_routes_empty_iff(routes, path);
    lemma_first_with_method_none_iff(matching_routes(routes, path), method);
    lemma_no_method_in_matching_iff(routes, method, path);
}

/// First-registered-route-wins: when route `i` fully matches the request
/// and no earlier route does, the lookup resolves to route `i`.
pub proof fn lemma_first_match_wins<H>(
    routes: Seq<Route<H>>,
    method: Method,
    path: Seq<char>,
    i: int,
)
    requires
        full_match_at(routes, method, path, i),
        forall|j: int| 0 <= j < i ==> !full_match_at(routes, method, path, j),
    ensures
        lookup(routes, method, path) == Ok::<Route<H>, LookupError>(routes[i]),
{
    lemma_first_with_method_of_matching(routes, method, path, i);
}

/// Lookup is idempotent: `find_handler` does not change the router, and
/// its postcondition determines the result from the router's routes and
/// the request alone, so any two results of it for one router and one
/// request carry the same outcome.
pub proof fn lemma_find_handler_idempotent<H>(
    routes: Seq<Route<H>>,
    method: Method,
    path: Seq<char>,
    first: Result<H, LookupError>,
    second: Result<H, LookupError>,
)
    requires
        (first matches Ok(handler) ==> lookup(routes, method, path) matches Ok(route)
            && handler == route.handler),
        (first matches Err(error) ==> lookup(routes, method, path) == Err::<Route<H>, LookupError>(
            error,
        )),
        (second matches Ok(handler) ==> lookup(routes, method, path) matches Ok(route)
            && handler == route.handler),
        (second matches Err(error) ==> lookup(routes, method, path) == Err::<Route<H>, LookupError>(
            error,
        )),
    ensures
        first == second,
{
}

/// Every route of the path-filtered list earned its place: its pattern
/// matches the path. The filter never reads the method.
pub proof fn lemma_matching_routes_sound<H>(routes: Seq<Route<H>>, path: Seq<char>, j: int)
    requires
        0 <= j < matching_routes(routes, path).len(),
    ensures
        path_matches(matching_routes(routes, path)[j].path@, path),
{
    broadcast use vstd::seq_lib::group_filter_ensures;

}

/// Every route whose pattern matches the path appears in the
/// path-filtered list, whatever its method.
pub proof fn lemma_matching_routes_complete<H>(routes: Seq<Route<H>>, path: Seq<char>, i: int)
    requires
        0 <= i < routes.len(),
        path_matches(routes[i].path@, path),
    ensures
        matching_routes(routes, path).contains(routes[i]),
{
    broadcast use vstd::seq_lib::group_filter_ensures;

}

/// Registering one more route never disturbs the path filter's order:
/// the filtered list of the longer route list is the filtered list of
/// the shorter one, extended by the new route exactly when its pattern
/// matches the path.
pub proof fn lemma_matching_routes_append<H>(
    routes: Seq<Route<H>>,
    route: Route<H>,
    path: Seq<char>,
)
    ensures
        matching_routes(routes.push(route), path) == (if path_matches(route.path@, path) {
            matching_routes(routes, path).push(route)
        } else {
            matching_routes(routes, path)
        }),
{
    reveal(Seq::filter);
    assert(routes.push(route).drop_last() =~= routes);
    assert(routes.push(route).last() == route);
}

/// The path-filtered route list is empty exactly when no route's pattern
/// matches the path.
proof fn lemma_matching_routes_empty_iff<H>(routes: Seq<Route<H>>, path: Seq<char>)
    ensures
        matching_routes(routes, path).len() == 0 <==> (forall|i: int|
            0 <= i < routes.len() ==> !path_matches(routes[i].path@, path)),
    decreases routes.len(),
{
    reveal(Seq::filter);
    if routes.len() > 0 {
        let rest = routes.drop_last();
        lemma_matching_routes_empty_iff(rest, path);
        assert(forall|i: int| 0 <= i < rest.len() ==> rest[i] == routes[i]);
        assert(routes.last() == routes[routes.len() - 1]);
    }
}

/// `first_with_method` finds nothing exactly when no route of the list
/// is registered for the method.
proof fn lemma_first_with_method_none_iff<H>(routes: Seq<Route<H>>, method: Method)
    ensures
        first_with_method(routes, method) is None <==> (forall|j: int|
            0 <= j < routes.len() ==> routes[j].method != method),
    decreases routes.len(),
{
    if routes.len() > 0 {
        let rest = routes.drop_first();
        lemma_first_with_method_none_iff(rest, method);
        if first_with_method(routes, method) is None {
            assert forall|j: int| 0 <= j < routes.len() implies routes[j].method != method by {
                if j == 0 {
                    assert(routes[0] == routes.first());
                } else {
                    assert(rest[j - 1] == routes[j]);
                }
            }
        } else {
            if routes.first().method == method {
                assert(routes[0].method == method);
            } else {
                let j = choose|j: int| 0 <= j < rest.len() && rest[j].method == method;
                assert(routes[j + 1] == rest[j]);
            }
        }
    }
}

/// No route of the path-filtered list carries the method exactly when no
/// route of the route list fully matches the request.
proof fn lemma_no_method_in_matching_iff<H>(routes: Seq<Route<H>>, method: Method, path: Seq<char>)
    ensures
        (forall|j: int|
            0 <= j < matching_routes(routes, path).len() ==> matching_routes(routes, path)[j].method
                != method) <==> (forall|i: int| !full_match_at(routes, method, path, i)),
    decreases routes.len(),
{
    reveal(Seq::filter);
    let matching = matching_routes(routes, path);
    if routes.len() == 0 {
        assert(matching.len() == 0);
    } else {
        let last = routes.len() - 1;
        let rest = routes.drop_last();
        lemma_no_method_in_matching_iff(rest, method, path);
        let matching_rest = matching_routes(rest, path);
        assert(routes.last() == routes[last]);
        let pushed = path_matches(routes[last].path@, path);
        if pushed {
            assert(matching == matching_rest.push(routes[last]));
        } else {
            assert(matching == matching_rest);
        }
        if (forall|j: int| 0 <= j < matching.len() ==> matching[j].method != method) {
            assert forall|j: int|
                0 <= j < matching_rest.len() implies matching_rest[j].method != method by {
                assert(matching[j] == matching_rest[j]);
            }
            assert forall|i: int| !full_match_at(routes, method, path, i) by {
                if 0 <= i < routes.len() && path_matches(routes[i].path@, path) {
                    if i == last {
                        assert(matching[matching.len() - 1] == routes[last]);
                    } else {
                        assert(rest[i] == routes[i]);
                        assert(!full_match_at(rest, method, path, i));
                    }
                }
            }
        } else {
            let j = choose|j: int| 0 <= j < matching.len() && matching[j].method == method;
            if pushed && j == matching.len() - 1 {
                assert(matching[j] == routes[last]);
                assert(full_match_at(routes, method, path, last));
            } else {
                assert(matching[j] == matching_rest[j]);
                assert(!(forall|j2: int|
                    0 <= j2 < matching_rest.len() ==> matching_rest[j2].method != method));
                let i = choose|i: int| full_match_at(rest, method, path, i);
                assert(rest[i] == routes[i]);
                assert(full_match_at(routes, method, path, i));
            }
        }
    }
}

/// Appending a route does not change which route `first_with_method`
/// finds, unless nothing was found so far and the new route carries the
/// method.
proof fn lemma_first_with_method_push<H>(routes: Seq<Route<H>>, method: Method, route: Route<H>)
    ensures
        first_with_method(routes.push(route), method) == (
        if first_with_method(routes, method) is Some {
            first_with_method(routes, method)
        } else if route.method == method {
            Some(route)
        } else {
            None::<Route<H>>
        }),
    decreases routes.len(),
{
    let pushed = routes.push(route);
    assert(pushed.len() == routes.len() + 1);
    if routes.len() == 0 {
        assert(pushed.first() == route);
        assert(pushed.drop_first() =~= Seq::<Route<H>>::empty());
        if route.method != method {
            assert(first_with_method(pushed.drop_first(), method) is None);
        }
    } else {
        lemma_first_with_method_push(routes.drop_first(), method, route);
        assert(pushed.first() == routes.first());
        assert(pushed.drop_first() =~= routes.drop_first().push(route));
    }
}

/// When route `i` is the first full match of the request, it is the
/// route that method disambiguation of the path-filtered list finds.
proof fn lemma_first_with_method_of_matching<H>(
    routes: Seq<Route<H>>,
    method: Method,
    path: Seq<char>,
    i: int,
)
    requires
        full_match_at(routes, method, path, i),
        forall|j: int| 0 <= j < i ==> !full_match_at(routes, method, path, j),
    ensures
        first_with_method(matching_routes(routes, path), method) == Some(routes[i]),
        matching_routes(routes, path).len() > 0,
    decreases routes.len(),
{
    reveal(Seq::filter);
    let last = routes.len() - 1;
    let rest = routes.drop_last();
    assert(routes.last() == routes[last]);
    let matching = matching_routes(routes, path);
    let matching_rest = matching_routes(rest, path);
    if i == last {
        assert forall|j: int| !full_match_at(rest, method, path, j) by {
            if 0 <= j < rest.len() {
                assert(rest[j] == routes[j]);
                assert(!full_match_at(routes, method, path, j));
            }
        }
        lemma_no_method_in_matching_iff(rest, method, path);
        lemma_first_with_method_none_iff(matching_rest, method);
        assert(matching == matching_rest.push(routes[i]));
        lemma_first_with_method_push(matching_rest, method, routes[i]);
    } else {
        assert(rest[i] == routes[i]);
        assert(full_match_at(rest, method, path, i));
        assert forall|j: int| 0 <= j < i implies !full_match_at(rest, method, path, j) by {
            assert(rest[j] == routes[j]);
            assert(!full_match_at(routes, method, path, j));
        }
        lemma_first_with_method_of_matching(rest, method, path, i);
        if path_matches(routes.last().path@, path) {
            assert(matching == matching_rest.push(routes.last()));
            lemma_first_with_method_push(matching_rest, method, routes.last());
        } else {
            assert(matching == matching_rest);
        }
    }
}

} // verus!

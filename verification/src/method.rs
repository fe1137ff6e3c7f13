//! The HTTP method tokens a route can be registered for.

use vstd::prelude::*;

verus! {

/// An HTTP method token.
///
/// Routes are disambiguated on this token after path matching: among the
/// routes whose pattern matches the request path, the first one whose
/// method equals the request's method wins.
#[derive(Clone, Copy, Debug, PartialEq, Eq, Structural)]
pub enum Method {
    Options,
    Get,
    Post,
    Put,
    Delete,
    Head,
    Trace,
    Patch,
}

} // verus!

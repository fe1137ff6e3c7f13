//! A route: one (method, path pattern, handler) binding.

pub mod builder;

use vstd::prelude::*;
use crate::method::Method;
use crate::path::Path;
use crate::route::builder::RouteBuilder;

verus! {

/// One registered route: requests whose path matches `path` and whose
/// method equals `method` are handled by `handler`.
///
/// A route is built once, through [`RouteBuilder::using`], and is immutable
/// thereafter. The handler type `H` is chosen by the application; the
/// router only stores and hands out handlers, it never invokes them.
pub struct Route<H> {
    pub method: Method,
    pub path: Path,
    pub handler: H,
}

impl<H> Route<H> {
    /// Starts a route for the given method and path pattern.
    pub fn from(method: Method, pattern: &str) -> (result: RouteBuilder<H>)
        ensures
            result.method_spec() == method,
            result.pattern_ok() <==> crate::path::pattern_valid(pattern@),
            result.pattern_ok() ==> result.pattern_spec() == pattern@,
    {
        RouteBuilder::new(method, pattern)
    }

    /// Starts an OPTIONS route for the given path pattern.
    pub fn options(pattern: &str) -> (result: RouteBuilder<H>)
        ensures
            result.method_spec() == Method::Options,
            result.pattern_ok() <==> crate::path::pattern_valid(pattern@),
            result.pattern_ok() ==> result.pattern_spec() == pattern@,
    {
        RouteBuilder::new(Method::Options, pattern)
    }

    /// Starts a GET route for the given path pattern.
    pub fn get(pattern: &str) -> (result: RouteBuilder<H>)
        ensures
            result.method_spec() == Method::Get,
            result.pattern_ok() <==> crate::path::pattern_valid(pattern@),
            result.pattern_ok() ==> result.pattern_spec() == pattern@,
    {
        RouteBuilder::new(Method::Get, pattern)
    }

    /// Starts a POST route for the given path pattern.
    pub fn post(pattern: &str) -> (result: RouteBuilder<H>)
        ensures
            result.method_spec() == Method::Post,
            result.pattern_ok() <==> crate::path::pattern_valid(pattern@),
            result.pattern_ok() ==> result.pattern_spec() == pattern@,
    {
        RouteBuilder::new(Method::Post, pattern)
    }

    /// Starts a PUT route for the given path pattern.
    pub fn put(pattern: &str) -> (result: RouteBuilder<H>)
        ensures
            result.method_spec() == Method::Put,
            result.pattern_ok() <==> crate::path::pattern_valid(pattern@),
            result.pattern_ok() ==> result.pattern_spec() == pattern@,
    {
        RouteBuilder::new(Method::Put, pattern)
    }

    /// Starts a DELETE route for the given path pattern.
    pub fn delete(pattern: &str) -> (result: RouteBuilder<H>)
        ensures
            result.method_spec() == Method::Delete,
            result.pattern_ok() <==> crate::path::pattern_valid(pattern@),
            result.pattern_ok() ==> result.pattern_spec() == pattern@,
    {
        RouteBuilder::new(Method::Delete, pattern)
    }

    /// Starts a HEAD route for the given path pattern.
    pub fn head(pattern: &str) -> (result: RouteBuilder<H>)
        ensures
            result.method_spec() == Method::Head,
            result.pattern_ok() <==> crate::path::pattern_valid(pattern@),
            result.pattern_ok() ==> result.pattern_spec() == pattern@,
    {
        RouteBuilder::new(Method::Head, pattern)
    }

    /// Starts a TRACE route for the given path pattern.
    pub fn trace(pattern: &str) -> (result: RouteBuilder<H>)
        ensures
            result.method_spec() == Method::Trace,
            result.pattern_ok() <==> crate::path::pattern_valid(pattern@),
            result.pattern_ok() ==> result.pattern_spec() == pattern@,
    {
        RouteBuilder::new(Method::Trace, pattern)
    }

    /// Starts a PATCH route for the given path pattern.
    pub fn patch(pattern: &str) -> (result: RouteBuilder<H>)
        ensures
            result.method_spec() == Method::Patch,
            result.pattern_ok() <==> crate::path::pattern_valid(pattern@),
            result.pattern_ok() ==> result.pattern_spec() == pattern@,
    {
        RouteBuilder::new(Method::Patch, pattern)
    }
}

} // verus!

//! Tracing of incoming HTTP requests served by axum: the layer's
//! configuration, which requests are traced, and the span name of a request.
use vstd::prelude::*;

use crate::span::{attrs_view, concat, owned, str_attr, Attribute, AttributeModel};
use crate::text::{spec_trim, trim};

verus! {

/// The layer that traces the requests of an axum service.
///
/// `M` reads the matched route of a request, and `F` decides from the request
/// path whether it is traced (every request is, without a filter).
#[derive(Debug, Clone)]
pub struct OtelAxumLayer<M, F> {
    matched_path_as_str: M,
    filter: Option<F>,
    inject_context: bool,
}

/// The service that an [`OtelAxumLayer`] wraps around `inner`.
#[derive(Debug, Clone)]
pub struct OtelAxumService<S, M, F> {
    /// The wrapped service.
    pub inner: S,
    /// Reads the matched route of a request.
    pub matched_path_as_str: M,
    /// Decides from the request path whether a request is traced.
    pub filter: Option<F>,
    /// Whether the trace context is injected into response headers.
    pub inject_context: bool,
}

impl<M, F> OtelAxumLayer<M, F> {
    /// The route reader.
    pub closed spec fn spec_matched_path_as_str(self) -> M {
        self.matched_path_as_str
    }

    /// The filter, where one is set.
    pub closed spec fn spec_filter(self) -> Option<F> {
        self.filter
    }

    /// Whether the trace context is injected into response headers.
    pub closed spec fn spec_inject_context(self) -> bool {
        self.inject_context
    }

    /// A layer that traces every request, reads routes with
    /// `matched_path_as_str`, and does not inject the trace context into
    /// responses.
    pub fn new(matched_path_as_str: M) -> (r: Self)
        ensures
            r.spec_matched_path_as_str() == matched_path_as_str,
            r.spec_filter() is None,
            !r.spec_inject_context(),
    {
        OtelAxumLayer { matched_path_as_str, filter: None, inject_context: false }
    }

    /// The same layer, tracing only the requests whose path `filter` accepts.
    pub fn filter(self, filter: F) -> (r: Self)
        ensures
            r.spec_matched_path_as_str() == self.spec_matched_path_as_str(),
            r.spec_filter() == Some(filter),
            r.spec_inject_context() == self.spec_inject_context(),
    {
        OtelAxumLayer {
            matched_path_as_str: self.matched_path_as_str,
            filter: Some(filter),
            inject_context: self.inject_context,
        }
    }

    /// The same layer, injecting the trace context into responses or not.
    pub fn inject_context(self, inject_context: bool) -> (r: Self)
        ensures
            r.spec_matched_path_as_str() == self.spec_matched_path_as_str(),
            r.spec_filter() == self.spec_filter(),
            r.spec_inject_context() == inject_context,
    {
        OtelAxumLayer {
            matched_path_as_str: self.matched_path_as_str,
            filter: self.filter,
            inject_context,
        }
    }

    /// The service that traces the requests of `inner` as this layer says.
    pub fn layer<S>(&self, inner: S) -> (r: OtelAxumService<S, M, F>)
        where M: Copy, F: Copy
        ensures
            r.inner == inner,
            r.matched_path_as_str == self.spec_matched_path_as_str(),
            r.filter == self.spec_filter(),
            r.inject_context == self.spec_inject_context(),
    {
        let filter = match &self.filter {
            Some(f) => Some(*f),
            None => None,
        };
        OtelAxumService {
            inner,
            matched_path_as_str: self.matched_path_as_str,
            filter,
            inject_context: self.inject_context,
        }
    }
}

impl<S, M, F> OtelAxumService<S, M, F> {
    /// Whether the request with path `path` is traced: always without a
    /// filter, and as the filter answers otherwise.
    pub fn traces(&self, path: &str) -> (r: bool)
        where F: Fn(&str) -> bool
        requires
            self.filter matches Some(f) ==> f.requires((path,)),
        ensures
            self.filter is None ==> r,
            self.filter matches Some(f) ==> f.ensures((path,), r),
    {
        match &self.filter {
            None => true,
            Some(f) => f(path),
        }
    }
}

/// The name of the span of a request with method `method` on the route
/// `route`: `"{method} {route}"` without surrounding whitespace.
pub open spec fn spec_server_span_name(method: Seq<char>, route: Seq<char>) -> Seq<char> {
    spec_trim(method + " "@ + route)
}

/// The name of the span of a request with method `method` on the matched
/// route `route` (empty when no route matched).
pub fn server_span_name(method: &str, route: &str) -> (r: String)
    ensures
        r@ == spec_server_span_name(method@, route@),
{
    let a = concat(method, " ");
    let b = concat(a.as_str(), route);
    owned(trim(b.as_str()))
}

/// The attributes recorded on the span of a traced request on `route`.
pub open spec fn server_route_attrs(route: Seq<char>) -> Seq<AttributeModel> {
    seq![str_attr("http.route"@, route)]
}

/// The attributes recorded on the span of a traced request on `route`:
/// the matched route as `http.route`.
pub fn server_route_attributes(route: &str) -> (r: Vec<Attribute>)
    ensures
        attrs_view(r@) == server_route_attrs(route@),
{
    let mut r: Vec<Attribute> = Vec::new();
    r.push(Attribute::string("http.route", owned(route)));
    assert(attrs_view(r@) =~= server_route_attrs(route@));
    r
}

} // verus!

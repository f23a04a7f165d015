//! Instrumentation of reqwest request builders that borrow their parent
//! context.
use vstd::prelude::*;

use crate::otel::parent_context;

verus! {

/// A reqwest request builder whose request is traced when sent, under an
/// optional borrowed parent context.
pub struct InstrumentedRequestBuilder<'a> {
    inner: reqwest::RequestBuilder,
    context: Option<&'a opentelemetry::Context>,
}

impl<'a> InstrumentedRequestBuilder<'a> {
    /// The wrapped builder.
    pub closed spec fn spec_inner(self) -> reqwest::RequestBuilder {
        self.inner
    }

    /// The parent context; the current span's context when `None`.
    pub closed spec fn spec_context(self) -> Option<&'a opentelemetry::Context> {
        self.context
    }

    /// Wraps `inner`, with no explicit parent context.
    pub fn new(inner: reqwest::RequestBuilder) -> (r: Self)
        ensures
            r.spec_inner() == inner,
            r.spec_context() is None,
    {
        InstrumentedRequestBuilder { inner, context: None }
    }

    /// Sets the parent context of the request span.
    pub fn context(self, context: &'a opentelemetry::Context) -> (r: Self)
        ensures
            r.spec_inner() == self.spec_inner(),
            r.spec_context() == Some(context),
    {
        InstrumentedRequestBuilder { inner: self.inner, context: Some(context) }
    }

    /// Sets or clears the parent context of the request span.
    pub fn set_context(self, context: Option<&'a opentelemetry::Context>) -> (r: Self)
        ensures
            r.spec_inner() == self.spec_inner(),
            r.spec_context() == context,
    {
        InstrumentedRequestBuilder { inner: self.inner, context }
    }

    /// The wrapped builder and the parent context, for sending.
    pub fn into_parts(self) -> (r: (reqwest::RequestBuilder, Option<&'a opentelemetry::Context>))
        ensures
            r.0 == self.spec_inner(),
            r.1 == self.spec_context(),
    {
        (self.inner, self.context)
    }

    /// The wrapped builder and the parent context of the request span: a
    /// copy of the explicit context where one was set, the current span's
    /// context otherwise.
    pub fn into_send_parts(self) -> (r: (reqwest::RequestBuilder, opentelemetry::Context))
        ensures
            r.0 == self.spec_inner(),
            self.spec_context() matches Some(c) ==> r.1 == *c,
    {
        let parent = parent_context(self.context);
        (self.inner, parent)
    }
}

/// Turning a reqwest request builder into one whose request is traced.
pub trait ReqwestBuilderInstrument<'a>: Sized {
    /// The instrumented builder.
    fn instrument(self) -> InstrumentedRequestBuilder<'a>;
}

impl<'a> ReqwestBuilderInstrument<'a> for reqwest::RequestBuilder {
    fn instrument(self) -> (r: InstrumentedRequestBuilder<'a>)
        ensures
            r.spec_inner() == self,
            r.spec_context() is None,
    {
        InstrumentedRequestBuilder::new(self)
    }
}

} // verus!

//! Span descriptions for AWS SDK fluent builders: the span of each request
//! from what the request sets, and the attributes recorded from its response.
use vstd::prelude::*;

use crate::middleware::aws::AwsSpanBuilder;

pub mod appconfigdata;
pub mod dynamodb;
pub mod firehose;
pub mod s3;
pub mod sagemaker_runtime;
pub mod secretsmanager;
pub mod sns;
pub mod ssm;
pub mod utils;

verus! {

/// A request builder that knows the span of the request it builds.
pub trait AwsBuilderInstrument<'a>: Sized {
    /// The span of the request.
    fn build_aws_span(&self) -> AwsSpanBuilder<'a>;

    /// The builder together with the span of its request.
    fn instrument(self) -> (r: InstrumentedFluentBuilder<'a, Self>)
        ensures
            r.spec_inner() == self,
    {
        let span = self.build_aws_span();
        InstrumentedFluentBuilder::new(self, span)
    }
}

/// A request builder together with the span its request is sent under.
pub struct InstrumentedFluentBuilder<'a, T> {
    inner: T,
    span: AwsSpanBuilder<'a>,
}

impl<'a, T> InstrumentedFluentBuilder<'a, T> {
    /// The wrapped builder.
    pub closed spec fn spec_inner(self) -> T {
        self.inner
    }

    /// The span of the request.
    pub closed spec fn spec_span(self) -> AwsSpanBuilder<'a> {
        self.span
    }

    /// `inner` with the span `span`.
    pub fn new(inner: T, span: AwsSpanBuilder<'a>) -> (r: Self)
        ensures
            r.spec_inner() == inner,
            r.spec_span() == span,
    {
        InstrumentedFluentBuilder { inner, span }
    }

    /// Sets the parent context of the span.
    pub fn context(self, context: &'a opentelemetry::Context) -> (r: Self)
        ensures
            r.spec_inner() == self.spec_inner(),
            r.spec_span().kind == self.spec_span().kind,
            r.spec_span().name == self.spec_span().name,
            r.spec_span().attributes == self.spec_span().attributes,
            r.spec_span().context == Some(context),
    {
        InstrumentedFluentBuilder { inner: self.inner, span: self.span.context(context) }
    }

    /// Sets or clears the parent context of the span.
    pub fn set_context(self, context: Option<&'a opentelemetry::Context>) -> (r: Self)
        ensures
            r.spec_inner() == self.spec_inner(),
            r.spec_span().kind == self.spec_span().kind,
            r.spec_span().name == self.spec_span().name,
            r.spec_span().attributes == self.spec_span().attributes,
            r.spec_span().context == context,
    {
        InstrumentedFluentBuilder { inner: self.inner, span: self.span.set_context(context) }
    }

    /// The builder and the span, for sending.
    pub fn into_parts(self) -> (r: (T, AwsSpanBuilder<'a>))
        ensures
            r.0 == self.spec_inner(),
            r.1 == self.spec_span(),
    {
        (self.inner, self.span)
    }
}

} // verus!

//! The OpenTelemetry context that spans are started under.
use vstd::prelude::*;

use tracing_opentelemetry::OpenTelemetrySpanExt;

verus! {

/// `opentelemetry::Context`, carried through unchanged as the parent of spans.
#[verifier::external_type_specification]
#[verifier::external_body]
pub struct ExContext(opentelemetry::Context);

/// Calls `<opentelemetry::Context as Clone>::clone`. `Context` derives
/// `Clone`; its fields are reference-counted, so the copy shares them with the
/// context it copies. The contract states that the copy equals the context.
#[verifier::external_body]
pub(crate) fn clone_context(c: &opentelemetry::Context) -> (r: opentelemetry::Context)
    ensures
        r == *c,
{
    c.clone()
}

/// Calls `tracing_opentelemetry::OpenTelemetrySpanExt::context` on
/// `tracing::Span::current()`: the OpenTelemetry context of the current
/// `tracing` span. It depends on the thread's current span, so nothing is
/// stated of it.
#[verifier::external_body]
pub(crate) fn current_context() -> (r: opentelemetry::Context) {
    tracing::Span::current().context()
}

/// The parent context of a request span: a copy of `explicit` where one is
/// given, whatever span is current; the context of the current `tracing`
/// span otherwise.
pub fn parent_context(explicit: Option<&opentelemetry::Context>) -> (r: opentelemetry::Context)
    ensures
        explicit matches Some(c) ==> r == *c,
{
    match explicit {
        Some(c) => clone_context(c),
        None => current_context(),
    }
}

} // verus!

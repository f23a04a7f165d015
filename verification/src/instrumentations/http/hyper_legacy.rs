//! Instrumentation of `hyper_util`'s legacy client: the instrumented client,
//! the parent context of its request spans, and the classification of its
//! errors.
use vstd::prelude::*;

use std::error::Error as _;

use crate::instrumentations::http::hyper_conn::{hyper_error_type, spec_hyper_error_kind, spec_hyper_flags};
use crate::otel::{clone_context, parent_context};

verus! {

/// `hyper_util::client::legacy::Error`, carried through opaque.
#[verifier::external_type_specification]
#[verifier::external_body]
pub struct ExLegacyError(hyper_util::client::legacy::Error);

/// `hyper_util::client::legacy::Client`, carried through opaque.
#[verifier::external_type_specification]
#[verifier::external_body]
#[verifier::reject_recursive_types(C)]
#[verifier::reject_recursive_types(B)]
pub struct ExLegacyClient<C, B>(hyper_util::client::legacy::Client<C, B>);

/// What `hyper_util::client::legacy::Error::is_connect` answers for an
/// error: whether it came from connecting.
pub uninterp spec fn spec_legacy_is_connect(e: hyper_util::client::legacy::Error) -> bool;

/// `hyper_util::client::legacy::Error::is_connect`: its answer depends on the
/// error alone (it reads the error's kind); the contract names it
/// `spec_legacy_is_connect`.
pub assume_specification[hyper_util::client::legacy::Error::is_connect](
    e: &hyper_util::client::legacy::Error,
) -> (r: bool)
    ensures
        r == spec_legacy_is_connect(*e),
;

/// The hyper error that caused a legacy client error, where there is one: what
/// `source()` and `downcast_ref::<hyper::Error>()` give.
pub uninterp spec fn spec_legacy_hyper_source(e: hyper_util::client::legacy::Error) -> Option<hyper::Error>;

/// Calls `std::error::Error::source` on `error` and `downcast_ref` to
/// `hyper::Error` on the source: the hyper error that caused it, where there
/// is one. The source is a field of the error, so the answer depends on the
/// error alone; the contract names it `spec_legacy_hyper_source`.
#[verifier::external_body]
fn hyper_source(error: &hyper_util::client::legacy::Error) -> (r: Option<&hyper::Error>)
    ensures
        match r {
            Some(h) => spec_legacy_hyper_source(*error) == Some(*h),
            None => spec_legacy_hyper_source(*error) is None,
        },
{
    error.source().and_then(|source| source.downcast_ref::<hyper::Error>())
}

/// The `error.type` of the legacy client error `e`.
pub open spec fn spec_legacy_error_type(e: hyper_util::client::legacy::Error) -> Seq<char> {
    spec_legacy_error_kind(
        spec_legacy_is_connect(e),
        match spec_legacy_hyper_source(e) {
            Some(h) => Some(spec_hyper_error_kind(spec_hyper_flags(h))),
            None => None,
        },
    )
}

/// The `error.type` of a legacy client error: `connect` for a connect error,
/// else the kind of the hyper error that caused it, else `_OTHER`.
pub open spec fn spec_legacy_error_kind(connect: bool, hyper_kind: Option<Seq<char>>) -> Seq<char> {
    if connect {
        "connect"@
    } else {
        match hyper_kind {
            Some(k) => k,
            None => "_OTHER"@,
        }
    }
}

/// The `error.type` of a legacy client error that is a connect error or not
/// (`connect`) and was caused by a hyper error of kind `hyper_kind`, if any.
pub fn legacy_error_kind(connect: bool, hyper_kind: Option<&'static str>) -> (r: &'static str)
    ensures
        r@ == spec_legacy_error_kind(connect, match hyper_kind {
            Some(k) => Some(k@),
            None => None,
        }),
{
    if connect {
        "connect"
    } else {
        match hyper_kind {
            Some(k) => k,
            None => "_OTHER",
        }
    }
}

/// The `error.type` of `error`: `connect`, the kind of the hyper error under
/// it, or `_OTHER`.
pub fn hyper_legacy_error_type(error: &hyper_util::client::legacy::Error) -> (r: &'static str)
    ensures
        r@ == spec_legacy_error_type(*error),
{
    let connect = error.is_connect();
    let hyper_kind = if connect {
        None
    } else {
        match hyper_source(error) {
            Some(h) => Some(hyper_error_type(h)),
            None => None,
        }
    };
    legacy_error_kind(connect, hyper_kind)
}

/// A legacy hyper client whose requests are traced, under an optional
/// parent context.
#[verifier::reject_recursive_types(C)]
#[verifier::reject_recursive_types(B)]
pub struct InstrumentedLegacyClient<C, B> {
    inner: hyper_util::client::legacy::Client<C, B>,
    context: Option<opentelemetry::Context>,
}

impl<C, B> InstrumentedLegacyClient<C, B> {
    /// The wrapped client.
    pub closed spec fn spec_inner(self) -> hyper_util::client::legacy::Client<C, B> {
        self.inner
    }

    /// The parent context of the request spans; the current span's context
    /// when `None`.
    pub closed spec fn spec_context(self) -> Option<opentelemetry::Context> {
        self.context
    }

    /// Wraps `inner`, with no explicit parent context.
    pub fn new(inner: hyper_util::client::legacy::Client<C, B>) -> (r: Self)
        ensures
            r.spec_inner() == inner,
            r.spec_context() is None,
    {
        InstrumentedLegacyClient { inner, context: None }
    }

    /// Sets the parent context of the request spans to a copy of `context`.
    pub fn context(self, context: &opentelemetry::Context) -> (r: Self)
        ensures
            r.spec_inner() == self.spec_inner(),
            r.spec_context() == Some(*context),
    {
        InstrumentedLegacyClient { inner: self.inner, context: Some(clone_context(context)) }
    }

    /// Sets or clears the parent context of the request spans.
    pub fn set_context(self, context: Option<&opentelemetry::Context>) -> (r: Self)
        ensures
            r.spec_inner() == self.spec_inner(),
            match context {
                Some(c) => r.spec_context() == Some(*c),
                None => r.spec_context() is None,
            },
    {
        let context = match context {
            Some(c) => Some(clone_context(c)),
            None => None,
        };
        InstrumentedLegacyClient { inner: self.inner, context }
    }

    /// The parent context of the next request span: the explicit context
    /// where one was set, the current span's context otherwise.
    pub fn request_parent(&self) -> (r: opentelemetry::Context)
        ensures
            self.spec_context() matches Some(c) ==> r == c,
    {
        match &self.context {
            Some(c) => parent_context(Some(c)),
            None => parent_context(None),
        }
    }

    /// The wrapped client, to send a request through.
    pub fn inner(&self) -> (r: &hyper_util::client::legacy::Client<C, B>)
        ensures
            *r == self.spec_inner(),
    {
        &self.inner
    }

    /// The wrapped client.
    pub fn into_inner(self) -> (r: hyper_util::client::legacy::Client<C, B>)
        ensures
            r == self.spec_inner(),
    {
        self.inner
    }
}

/// Turning a legacy hyper client into one whose requests are traced.
pub trait HyperLegacyClientInstrument<C, B>: Sized {
    /// The instrumented client.
    fn instrument(self) -> InstrumentedLegacyClient<C, B>;
}

impl<C, B> HyperLegacyClientInstrument<C, B> for hyper_util::client::legacy::Client<C, B> {
    fn instrument(self) -> (r: InstrumentedLegacyClient<C, B>)
        ensures
            r.spec_inner() == self,
            r.spec_context() is None,
    {
        InstrumentedLegacyClient::new(self)
    }
}

} // verus!

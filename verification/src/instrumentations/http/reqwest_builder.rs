//! Instrumentation of reqwest request builders: the instrumented builder and
//! the classification of reqwest's errors.
use vstd::prelude::*;

use crate::otel::{clone_context, parent_context};

verus! {

/// `reqwest::Error`, carried through opaque.
#[verifier::external_type_specification]
#[verifier::external_body]
pub struct ExReqwestError(reqwest::Error);

/// `reqwest::RequestBuilder`, carried through opaque.
#[verifier::external_type_specification]
#[verifier::external_body]
pub struct ExRequestBuilder(reqwest::RequestBuilder);

/// What `reqwest::Error::is_timeout` answers for an error: whether the error came from a timeout.
pub uninterp spec fn spec_reqwest_is_timeout(e: reqwest::Error) -> bool;

/// `reqwest::Error::is_timeout`: its answer depends on the error alone (the source
/// reads the error's own fields); the contract names it `spec_reqwest_is_timeout`.
pub assume_specification[reqwest::Error::is_timeout](e: &reqwest::Error) -> (r: bool)
    ensures
        r == spec_reqwest_is_timeout(*e),
;

/// What `reqwest::Error::is_connect` answers for an error: whether connecting failed.
pub uninterp spec fn spec_reqwest_is_connect(e: reqwest::Error) -> bool;

/// `reqwest::Error::is_connect`: its answer depends on the error alone (the source
/// reads the error's own fields); the contract names it `spec_reqwest_is_connect`.
pub assume_specification[reqwest::Error::is_connect](e: &reqwest::Error) -> (r: bool)
    ensures
        r == spec_reqwest_is_connect(*e),
;

/// What `reqwest::Error::is_redirect` answers for an error: whether following a redirect failed.
pub uninterp spec fn spec_reqwest_is_redirect(e: reqwest::Error) -> bool;

/// `reqwest::Error::is_redirect`: its answer depends on the error alone (the source
/// reads the error's own fields); the contract names it `spec_reqwest_is_redirect`.
pub assume_specification[reqwest::Error::is_redirect](e: &reqwest::Error) -> (r: bool)
    ensures
        r == spec_reqwest_is_redirect(*e),
;

/// What `reqwest::Error::is_request` answers for an error: whether sending the request failed.
pub uninterp spec fn spec_reqwest_is_request(e: reqwest::Error) -> bool;

/// `reqwest::Error::is_request`: its answer depends on the error alone (the source
/// reads the error's own fields); the contract names it `spec_reqwest_is_request`.
pub assume_specification[reqwest::Error::is_request](e: &reqwest::Error) -> (r: bool)
    ensures
        r == spec_reqwest_is_request(*e),
;

/// What `reqwest::Error::is_body` answers for an error: whether the error concerns a body.
pub uninterp spec fn spec_reqwest_is_body(e: reqwest::Error) -> bool;

/// `reqwest::Error::is_body`: its answer depends on the error alone (the source
/// reads the error's own fields); the contract names it `spec_reqwest_is_body`.
pub assume_specification[reqwest::Error::is_body](e: &reqwest::Error) -> (r: bool)
    ensures
        r == spec_reqwest_is_body(*e),
;

/// What `reqwest::Error::is_decode` answers for an error: whether decoding the response failed.
pub uninterp spec fn spec_reqwest_is_decode(e: reqwest::Error) -> bool;

/// `reqwest::Error::is_decode`: its answer depends on the error alone (the source
/// reads the error's own fields); the contract names it `spec_reqwest_is_decode`.
pub assume_specification[reqwest::Error::is_decode](e: &reqwest::Error) -> (r: bool)
    ensures
        r == spec_reqwest_is_decode(*e),
;

/// What `reqwest::Error::is_builder` answers for an error: whether building the request failed.
pub uninterp spec fn spec_reqwest_is_builder(e: reqwest::Error) -> bool;

/// `reqwest::Error::is_builder`: its answer depends on the error alone (the source
/// reads the error's own fields); the contract names it `spec_reqwest_is_builder`.
pub assume_specification[reqwest::Error::is_builder](e: &reqwest::Error) -> (r: bool)
    ensures
        r == spec_reqwest_is_builder(*e),
;

/// What a reqwest error says of itself, one flag per kind of failure.
#[derive(Debug, Clone, Copy, PartialEq, Eq, Structural)]
pub struct ReqwestErrorFlags {
    /// A timeout.
    pub timeout: bool,
    /// A failed connection.
    pub connect: bool,
    /// A failed redirect.
    pub redirect: bool,
    /// A failed request.
    pub request: bool,
    /// A body error.
    pub body: bool,
    /// A decoding error.
    pub decode: bool,
    /// A builder error.
    pub builder: bool,
}

/// The `error.type` of a reqwest error: the first flag that is set, in the
/// order of the fields, or `_OTHER` where none is.
pub open spec fn spec_reqwest_error_kind(f: ReqwestErrorFlags) -> Seq<char> {
    if f.timeout {
        "timeout"@
    } else if f.connect {
        "connect"@
    } else if f.redirect {
        "redirect"@
    } else if f.request {
        "request"@
    } else if f.body {
        "body"@
    } else if f.decode {
        "decode"@
    } else if f.builder {
        "builder"@
    } else {
        "_OTHER"@
    }
}

/// The `error.type` of a reqwest error with the flags `f`.
pub fn reqwest_error_kind(f: &ReqwestErrorFlags) -> (r: &'static str)
    ensures
        r@ == spec_reqwest_error_kind(*f),
{
    if f.timeout {
        "timeout"
    } else if f.connect {
        "connect"
    } else if f.redirect {
        "redirect"
    } else if f.request {
        "request"
    } else if f.body {
        "body"
    } else if f.decode {
        "decode"
    } else if f.builder {
        "builder"
    } else {
        "_OTHER"
    }
}

/// The flags that reqwest reports for `e`.
pub open spec fn spec_reqwest_flags(e: reqwest::Error) -> ReqwestErrorFlags {
    ReqwestErrorFlags {
        timeout: spec_reqwest_is_timeout(e),
        connect: spec_reqwest_is_connect(e),
        redirect: spec_reqwest_is_redirect(e),
        request: spec_reqwest_is_request(e),
        body: spec_reqwest_is_body(e),
        decode: spec_reqwest_is_decode(e),
        builder: spec_reqwest_is_builder(e),
    }
}

/// The flags of `error`, as reqwest reports them.
pub fn reqwest_error_flags(error: &reqwest::Error) -> (r: ReqwestErrorFlags)
    ensures
        r == spec_reqwest_flags(*error),
{
    ReqwestErrorFlags {
        timeout: error.is_timeout(),
        connect: error.is_connect(),
        redirect: error.is_redirect(),
        request: error.is_request(),
        body: error.is_body(),
        decode: error.is_decode(),
        builder: error.is_builder(),
    }
}

/// The `error.type` of `error`: its kind for the flags reqwest reports.
pub fn reqwest_error_type(error: &reqwest::Error) -> (r: &'static str)
    ensures
        r@ == spec_reqwest_error_kind(spec_reqwest_flags(*error)),
{
    let flags = reqwest_error_flags(error);
    reqwest_error_kind(&flags)
}

/// A reqwest request builder whose request is traced when sent, under an
/// optional parent context.
pub struct InstrumentedRequestBuilder {
    inner: reqwest::RequestBuilder,
    context: Option<opentelemetry::Context>,
}

impl InstrumentedRequestBuilder {
    /// The wrapped builder.
    pub closed spec fn spec_inner(self) -> reqwest::RequestBuilder {
        self.inner
    }

    /// The parent context of the request span; the current span's context
    /// when `None`.
    pub closed spec fn spec_context(self) -> Option<opentelemetry::Context> {
        self.context
    }

    /// Wraps `inner`, with no explicit parent context.
    pub fn new(inner: reqwest::RequestBuilder) -> (r: Self)
        ensures
            r.spec_inner() == inner,
            r.spec_context() is None,
    {
        InstrumentedRequestBuilder { inner, context: None }
    }

    /// Sets the parent context of the request span to a copy of `context`.
    pub fn context(self, context: &opentelemetry::Context) -> (r: Self)
        ensures
            r.spec_inner() == self.spec_inner(),
            r.spec_context() == Some(*context),
    {
        InstrumentedRequestBuilder { inner: self.inner, context: Some(clone_context(context)) }
    }

    /// Sets or clears the parent context of the request span.
    pub fn set_context(self, context: Option<&opentelemetry::Context>) -> (r: Self)
        ensures
            r.spec_inner() == self.spec_inner(),
            match context {
                Some(c) => r.spec_context() == Some(*c),
                None => r.spec_context() is None,
            },
    {
        let context = match context {
            Some(c) => Some(clone_context(c)),
            None => None,
        };
        InstrumentedRequestBuilder { inner: self.inner, context }
    }

    /// The wrapped builder and the parent context, for sending.
    pub fn into_parts(self) -> (r: (reqwest::RequestBuilder, Option<opentelemetry::Context>))
        ensures
            r.0 == self.spec_inner(),
            r.1 == self.spec_context(),
    {
        (self.inner, self.context)
    }

    /// The wrapped builder and the parent context of the request span: the
    /// explicit context where one was set, the current span's context
    /// otherwise.
    pub fn into_send_parts(self) -> (r: (reqwest::RequestBuilder, opentelemetry::Context))
        ensures
            r.0 == self.spec_inner(),
            self.spec_context() matches Some(c) ==> r.1 == c,
    {
        let parent = match &self.context {
            Some(c) => parent_context(Some(c)),
            None => parent_context(None),
        };
        (self.inner, parent)
    }
}

/// Turning a reqwest request builder into one whose request is traced.
pub trait ReqwestBuilderInstrument: Sized {
    /// The instrumented builder.
    fn instrument(self) -> InstrumentedRequestBuilder;
}

impl ReqwestBuilderInstrument for reqwest::RequestBuilder {
    fn instrument(self) -> (r: InstrumentedRequestBuilder)
        ensures
            r.spec_inner() == self,
            r.spec_context() is None,
    {
        InstrumentedRequestBuilder::new(self)
    }
}

} // verus!

//! Instrumentation of hyper connections: the instrumented sender and the
//! classification of hyper's errors.
use vstd::prelude::*;

use crate::otel::{clone_context, parent_context};

verus! {

/// `hyper::Error`, carried through opaque.
#[verifier::external_type_specification]
#[verifier::external_body]
pub struct ExHyperError(hyper::Error);

/// `hyper::client::conn::http1::SendRequest`, carried through opaque.
#[verifier::external_type_specification]
#[verifier::external_body]
#[verifier::reject_recursive_types(B)]
pub struct ExHttp1SendRequest<B>(hyper::client::conn::http1::SendRequest<B>);

/// `hyper::client::conn::http2::SendRequest`, carried through opaque.
#[verifier::external_type_specification]
#[verifier::external_body]
#[verifier::reject_recursive_types(B)]
pub struct ExHttp2SendRequest<B>(hyper::client::conn::http2::SendRequest<B>);

/// What `hyper::Error::is_timeout` answers for an error: whether the error came from a timeout.
pub uninterp spec fn spec_hyper_is_timeout(e: hyper::Error) -> bool;

/// `hyper::Error::is_timeout`: its answer depends on the error alone (the source
/// reads the error's own fields); the contract names it `spec_hyper_is_timeout`.
pub assume_specification[hyper::Error::is_timeout](e: &hyper::Error) -> (r: bool)
    ensures
        r == spec_hyper_is_timeout(*e),
;

/// What `hyper::Error::is_closed` answers for an error: whether a sender's connection was closed.
pub uninterp spec fn spec_hyper_is_closed(e: hyper::Error) -> bool;

/// `hyper::Error::is_closed`: its answer depends on the error alone (the source
/// reads the error's own fields); the contract names it `spec_hyper_is_closed`.
pub assume_specification[hyper::Error::is_closed](e: &hyper::Error) -> (r: bool)
    ensures
        r == spec_hyper_is_closed(*e),
;

/// What `hyper::Error::is_canceled` answers for an error: whether the request was canceled.
pub uninterp spec fn spec_hyper_is_canceled(e: hyper::Error) -> bool;

/// `hyper::Error::is_canceled`: its answer depends on the error alone (the source
/// reads the error's own fields); the contract names it `spec_hyper_is_canceled`.
pub assume_specification[hyper::Error::is_canceled](e: &hyper::Error) -> (r: bool)
    ensures
        r == spec_hyper_is_canceled(*e),
;

/// What `hyper::Error::is_parse_status` answers for an error: whether an invalid status code was parsed.
pub uninterp spec fn spec_hyper_is_parse_status(e: hyper::Error) -> bool;

/// `hyper::Error::is_parse_status`: its answer depends on the error alone (the source
/// reads the error's own fields); the contract names it `spec_hyper_is_parse_status`.
pub assume_specification[hyper::Error::is_parse_status](e: &hyper::Error) -> (r: bool)
    ensures
        r == spec_hyper_is_parse_status(*e),
;

/// What `hyper::Error::is_parse` answers for an error: whether a message failed to parse.
pub uninterp spec fn spec_hyper_is_parse(e: hyper::Error) -> bool;

/// `hyper::Error::is_parse`: its answer depends on the error alone (the source
/// reads the error's own fields); the contract names it `spec_hyper_is_parse`.
pub assume_specification[hyper::Error::is_parse](e: &hyper::Error) -> (r: bool)
    ensures
        r == spec_hyper_is_parse(*e),
;

/// What `hyper::Error::is_incomplete_message` answers for an error: whether the connection closed before a message completed.
pub uninterp spec fn spec_hyper_is_incomplete_message(e: hyper::Error) -> bool;

/// `hyper::Error::is_incomplete_message`: its answer depends on the error alone (the source
/// reads the error's own fields); the contract names it `spec_hyper_is_incomplete_message`.
pub assume_specification[hyper::Error::is_incomplete_message](e: &hyper::Error) -> (r: bool)
    ensures
        r == spec_hyper_is_incomplete_message(*e),
;

/// What `hyper::Error::is_body_write_aborted` answers for an error: whether the body write was aborted.
pub uninterp spec fn spec_hyper_is_body_write_aborted(e: hyper::Error) -> bool;

/// `hyper::Error::is_body_write_aborted`: its answer depends on the error alone (the source
/// reads the error's own fields); the contract names it `spec_hyper_is_body_write_aborted`.
pub assume_specification[hyper::Error::is_body_write_aborted](e: &hyper::Error) -> (r: bool)
    ensures
        r == spec_hyper_is_body_write_aborted(*e),
;

/// What `hyper::Error::is_shutdown` answers for an error: whether shutting the connection down failed.
pub uninterp spec fn spec_hyper_is_shutdown(e: hyper::Error) -> bool;

/// `hyper::Error::is_shutdown`: its answer depends on the error alone (the source
/// reads the error's own fields); the contract names it `spec_hyper_is_shutdown`.
pub assume_specification[hyper::Error::is_shutdown](e: &hyper::Error) -> (r: bool)
    ensures
        r == spec_hyper_is_shutdown(*e),
;

/// What `hyper::Error::is_user` answers for an error: whether the error was caused by the user.
pub uninterp spec fn spec_hyper_is_user(e: hyper::Error) -> bool;

/// `hyper::Error::is_user`: its answer depends on the error alone (the source
/// reads the error's own fields); the contract names it `spec_hyper_is_user`.
pub assume_specification[hyper::Error::is_user](e: &hyper::Error) -> (r: bool)
    ensures
        r == spec_hyper_is_user(*e),
;

/// What a hyper error says of itself, one flag per kind of failure.
#[derive(Debug, Clone, Copy, PartialEq, Eq, Structural)]
pub struct HyperErrorFlags {
    /// A timeout.
    pub timeout: bool,
    /// The connection was closed.
    pub closed: bool,
    /// The request was canceled.
    pub canceled: bool,
    /// An invalid status code.
    pub parse_status: bool,
    /// A message that failed to parse.
    pub parse: bool,
    /// An incomplete message.
    pub incomplete_message: bool,
    /// An aborted body write.
    pub body_write_aborted: bool,
    /// A failed shutdown.
    pub shutdown: bool,
    /// A user error.
    pub user: bool,
}

/// The `error.type` of a hyper error: the first flag that is set, in the
/// order of the fields, or `_OTHER` where none is.
pub open spec fn spec_hyper_error_kind(f: HyperErrorFlags) -> Seq<char> {
    if f.timeout {
        "timeout"@
    } else if f.closed {
        "closed"@
    } else if f.canceled {
        "canceled"@
    } else if f.parse_status {
        "parse_status"@
    } else if f.parse {
        "parse"@
    } else if f.incomplete_message {
        "incomplete_message"@
    } else if f.body_write_aborted {
        "body_write_aborted"@
    } else if f.shutdown {
        "shutdown"@
    } else if f.user {
        "user"@
    } else {
        "_OTHER"@
    }
}

/// The `error.type` of a hyper error with the flags `f`.
pub fn hyper_error_kind(f: &HyperErrorFlags) -> (r: &'static str)
    ensures
        r@ == spec_hyper_error_kind(*f),
{
    if f.timeout {
        "timeout"
    } else if f.closed {
        "closed"
    } else if f.canceled {
        "canceled"
    } else if f.parse_status {
        "parse_status"
    } else if f.parse {
        "parse"
    } else if f.incomplete_message {
        "incomplete_message"
    } else if f.body_write_aborted {
        "body_write_aborted"
    } else if f.shutdown {
        "shutdown"
    } else if f.user {
        "user"
    } else {
        "_OTHER"
    }
}

/// The flags that hyper reports for `e`.
pub open spec fn spec_hyper_flags(e: hyper::Error) -> HyperErrorFlags {
    HyperErrorFlags {
        timeout: spec_hyper_is_timeout(e),
        closed: spec_hyper_is_closed(e),
        canceled: spec_hyper_is_canceled(e),
        parse_status: spec_hyper_is_parse_status(e),
        parse: spec_hyper_is_parse(e),
        incomplete_message: spec_hyper_is_incomplete_message(e),
        body_write_aborted: spec_hyper_is_body_write_aborted(e),
        shutdown: spec_hyper_is_shutdown(e),
        user: spec_hyper_is_user(e),
    }
}

/// The flags of `error`, as hyper reports them.
pub fn hyper_error_flags(error: &hyper::Error) -> (r: HyperErrorFlags)
    ensures
        r == spec_hyper_flags(*error),
{
    HyperErrorFlags {
        timeout: error.is_timeout(),
        closed: error.is_closed(),
        canceled: error.is_canceled(),
        parse_status: error.is_parse_status(),
        parse: error.is_parse(),
        incomplete_message: error.is_incomplete_message(),
        body_write_aborted: error.is_body_write_aborted(),
        shutdown: error.is_shutdown(),
        user: error.is_user(),
    }
}

/// The `error.type` of `error`: its kind for the flags hyper reports.
pub fn hyper_error_type(error: &hyper::Error) -> (r: &'static str)
    ensures
        r@ == spec_hyper_error_kind(spec_hyper_flags(*error)),
{
    let flags = hyper_error_flags(error);
    hyper_error_kind(&flags)
}

/// A hyper request sender whose requests are traced, under an optional
/// parent context.
pub struct InstrumentedSendRequest<S> {
    inner: S,
    context: Option<opentelemetry::Context>,
}

impl<S> InstrumentedSendRequest<S> {
    /// The wrapped sender.
    pub closed spec fn spec_inner(self) -> S {
        self.inner
    }

    /// The parent context of the request spans; the current span's context
    /// when `None`.
    pub closed spec fn spec_context(self) -> Option<opentelemetry::Context> {
        self.context
    }

    /// Wraps `inner`, with no explicit parent context.
    pub fn new(inner: S) -> (r: Self)
        ensures
            r.spec_inner() == inner,
            r.spec_context() is None,
    {
        InstrumentedSendRequest { inner, context: None }
    }

    /// Sets the parent context of the request spans to a copy of `context`.
    pub fn context(self, context: &opentelemetry::Context) -> (r: Self)
        ensures
            r.spec_inner() == self.spec_inner(),
            r.spec_context() == Some(*context),
    {
        InstrumentedSendRequest { inner: self.inner, context: Some(clone_context(context)) }
    }

    /// Sets or clears the parent context of the request spans.
    pub fn set_context(self, context: Option<&opentelemetry::Context>) -> (r: Self)
        ensures
            r.spec_inner() == self.spec_inner(),
            match context {
                Some(c) => r.spec_context() == Some(*c),
                None => r.spec_context() is None,
            },
    {
        let context = match context {
            Some(c) => Some(clone_context(c)),
            None => None,
        };
        InstrumentedSendRequest { inner: self.inner, context }
    }

    /// The parent context of the request spans.
    pub fn parent_context(&self) -> (r: Option<&opentelemetry::Context>)
        ensures
            match self.spec_context() {
                Some(c) => r == Some(&c),
                None => r is None,
            },
    {
        match &self.context {
            Some(c) => Some(c),
            None => None,
        }
    }

    /// The parent context of the next request span: the explicit context
    /// where one was set, the current span's context otherwise.
    pub fn request_parent(&self) -> (r: opentelemetry::Context)
        ensures
            self.spec_context() matches Some(c) ==> r == c,
    {
        let explicit = self.parent_context();
        parent_context(explicit)
    }

    /// The wrapped sender, to send a request through.
    pub fn inner_mut(&mut self) -> (r: &mut S)
        ensures
            *r == old(self).spec_inner(),
            final(self).spec_inner() == *final(r),
            final(self).spec_context() == old(self).spec_context(),
    {
        &mut self.inner
    }

    /// The wrapped sender.
    pub fn into_inner(self) -> (r: S)
        ensures
            r == self.spec_inner(),
    {
        self.inner
    }
}

/// Turning a hyper sender into one whose requests are traced.
pub trait HyperSendRequestInstrument: Sized {
    /// The instrumented sender.
    fn instrument(self) -> InstrumentedSendRequest<Self>;
}

impl<B> HyperSendRequestInstrument for hyper::client::conn::http1::SendRequest<B> {
    fn instrument(self) -> (r: InstrumentedSendRequest<Self>)
        ensures
            r.spec_inner() == self,
            r.spec_context() is None,
    {
        InstrumentedSendRequest::new(self)
    }
}

impl<B> HyperSendRequestInstrument for hyper::client::conn::http2::SendRequest<B> {
    fn instrument(self) -> (r: InstrumentedSendRequest<Self>)
        ensures
            r.spec_inner() == self,
            r.spec_context() is None,
    {
        InstrumentedSendRequest::new(self)
    }
}

} // verus!

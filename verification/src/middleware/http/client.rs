//! The span of an outgoing HTTP request as the request-based client
//! middleware records it: named after the method, with the parts of the
//! request URI, and ending in an error status on server errors only.
use vstd::prelude::*;

use crate::instrumentations::http::client::{http_flavor, peer_view, spec_http_flavor, HttpVersion, SpanEnd};
use crate::semconv;
use crate::span::{
    attrs_view, concat, i64_attr, opt_attr, opt_i64_attr, opt_string, owned, push_opt_string,
    str_attr, Attribute, AttributeModel, SpanKind, SpanStatus, StatusModel,
};
use crate::text::{decimal, spec_decimal};

verus! {

/// The host of a request URI as the `server.address` value.
pub fn server_address(host: Option<&str>) -> (r: Option<String>)
    ensures
        match host {
            Some(h) => r matches Some(a) && a@ == h@,
            None => r is None,
        },
{
    match host {
        Some(h) => Some(owned(h)),
        None => None,
    }
}

/// What the span records of an outgoing request.
pub struct RequestParts {
    /// The method, as the request spells it.
    pub method: String,
    /// The URI scheme, where there is one.
    pub scheme: Option<String>,
    /// The URI host, where there is one.
    pub host: Option<String>,
    /// The URI port, where there is one.
    pub port: Option<u16>,
    /// The URI path (possibly empty).
    pub path: String,
    /// The whole URI as text (possibly empty).
    pub full_url: String,
    /// The URI query, where there is one.
    pub query: Option<String>,
    /// The `user-agent` header, where it is present and valid text.
    pub user_agent: Option<String>,
}

/// The view of an optional port as an attribute value.
pub open spec fn port_value(port: Option<u16>) -> Option<i64> {
    match port {
        Some(p) => Some(p as i64),
        None => None,
    }
}

/// A string attribute under `key` when `value` is not empty.
pub open spec fn nonempty_attr(key: Seq<char>, value: Seq<char>) -> Seq<AttributeModel> {
    if value.len() > 0 {
        seq![str_attr(key, value)]
    } else {
        Seq::empty()
    }
}

/// The attributes of the span of a request, in this order: the method, the
/// scheme, the server address, the server port, the path and the full URL
/// (each when not empty), the query and the user agent, each where present.
pub open spec fn request_parts_attrs(p: RequestParts) -> Seq<AttributeModel> {
    seq![str_attr(semconv::HTTP_REQUEST_METHOD@, p.method@)] + opt_attr(
        semconv::URL_SCHEME@,
        opt_string(p.scheme),
    ) + opt_attr(semconv::SERVER_ADDRESS@, opt_string(p.host)) + opt_i64_attr(
        semconv::SERVER_PORT@,
        port_value(p.port),
    ) + nonempty_attr(semconv::URL_PATH@, p.path@) + nonempty_attr(semconv::URL_FULL@, p.full_url@)
        + opt_attr(semconv::URL_QUERY@, opt_string(p.query)) + opt_attr(
        semconv::USER_AGENT_ORIGINAL@,
        opt_string(p.user_agent),
    )
}

fn push_nonempty(attrs: &mut Vec<Attribute>, key: &str, value: &String)
    ensures
        attrs_view(final(attrs)@) == attrs_view(old(attrs)@) + nonempty_attr(key@, value@),
{
    let ghost before = attrs_view(attrs@);
    if value.unicode_len() > 0 {
        attrs.push(Attribute::string(key, value.clone()));
    }
    assert(attrs_view(attrs@) =~= before + nonempty_attr(key@, value@));
}

/// The name, attributes and parent context of the span of an outgoing
/// request.
pub struct HttpClientSpanBuilder<'a> {
    /// The span name: the request method.
    pub span_name: String,
    /// The span kind: always a client span.
    pub span_kind: SpanKind,
    /// The span attributes, in order.
    pub attributes: Vec<Attribute>,
    /// The parent context; the current span's context when `None`.
    pub context: Option<&'a opentelemetry::Context>,
}

impl<'a> HttpClientSpanBuilder<'a> {
    /// The span of the request described by `parts`, with no parent context.
    pub fn from_request(parts: &RequestParts) -> (r: Self)
        ensures
            r.span_name@ == parts.method@,
            r.span_kind == SpanKind::Client,
            attrs_view(r.attributes@) == request_parts_attrs(*parts),
            r.context is None,
    {
        let mut attributes: Vec<Attribute> = Vec::new();
        attributes.push(Attribute::string(semconv::HTTP_REQUEST_METHOD, parts.method.clone()));
        push_opt_string(&mut attributes, semconv::URL_SCHEME, &parts.scheme);
        let host: Option<&str> = match &parts.host {
            Some(h) => Some(h.as_str()),
            None => None,
        };
        let address = server_address(host);
        push_opt_string(&mut attributes, semconv::SERVER_ADDRESS, &address);
        let ghost mid = attrs_view(attributes@);
        match parts.port {
            Some(p) => {
                attributes.push(Attribute::i64(semconv::SERVER_PORT, p as i64));
            },
            None => {},
        }
        assert(attrs_view(attributes@) =~= mid + opt_i64_attr(semconv::SERVER_PORT@, port_value(parts.port)));
        push_nonempty(&mut attributes, semconv::URL_PATH, &parts.path);
        push_nonempty(&mut attributes, semconv::URL_FULL, &parts.full_url);
        push_opt_string(&mut attributes, semconv::URL_QUERY, &parts.query);
        push_opt_string(&mut attributes, semconv::USER_AGENT_ORIGINAL, &parts.user_agent);
        assert(attrs_view(attributes@) =~= request_parts_attrs(*parts));
        HttpClientSpanBuilder {
            span_name: parts.method.clone(),
            span_kind: SpanKind::Client,
            attributes,
            context: None,
        }
    }

    /// Sets or clears the parent context of the span.
    pub fn set_context(self, context: Option<&'a opentelemetry::Context>) -> (r: Self)
        ensures
            r.span_name == self.span_name,
            r.span_kind == self.span_kind,
            r.attributes == self.attributes,
            r.context == context,
    {
        HttpClientSpanBuilder {
            span_name: self.span_name,
            span_kind: self.span_kind,
            attributes: self.attributes,
            context,
        }
    }
}

/// The canonical reason phrase of the status code `code` as `http` knows it,
/// or `None` for a code without one.
pub uninterp spec fn spec_canonical_reason(code: u16) -> Option<Seq<char>>;

/// Calls `http::StatusCode::canonical_reason` on the status code `code`
/// (built with `StatusCode::from_u16`, which accepts `100..=999`). The
/// contract names the reason phrase `spec_canonical_reason(code)`; `http`'s
/// table of reasons is not restated.
#[verifier::external_body]
fn canonical_reason(code: u16) -> (r: Option<&'static str>)
    requires
        100 <= code <= 999,
    ensures
        match r {
            Some(s) => spec_canonical_reason(code) == Some(s@),
            None => spec_canonical_reason(code) is None,
        },
{
    match http::StatusCode::from_u16(code) {
        Ok(status) => status.canonical_reason(),
        Err(_) => None,
    }
}

/// The text of the status code `code`, as `http::StatusCode` displays it:
/// the code, a space, and the reason phrase (or `<unknown status code>`).
pub open spec fn spec_status_text(code: u16) -> Seq<char> {
    spec_decimal(code as nat) + " "@ + match spec_canonical_reason(code) {
        Some(reason) => reason,
        None => "<unknown status code>"@,
    }
}

/// The text of the status code `code`.
pub fn status_text(code: u16) -> (r: String)
    requires
        100 <= code <= 999,
    ensures
        r@ == spec_status_text(code),
{
    let mut r = decimal(code as u64);
    r.append(" ");
    match canonical_reason(code) {
        Some(reason) => r.append(reason),
        None => r.append("<unknown status code>"),
    }
    r
}

/// Whether a status code is a server error (`500..=599`).
pub open spec fn is_server_error(status: u16) -> bool {
    500 <= status < 600
}

/// The attributes recorded from a response: the status code, the protocol
/// version and, where known, the peer's address and port.
pub open spec fn response_parts_attrs(status: u16, version: HttpVersion, peer: Option<(Seq<char>, u16)>) -> Seq<AttributeModel> {
    seq![
        i64_attr(semconv::HTTP_RESPONSE_STATUS_CODE@, status as i64),
        str_attr(semconv::NETWORK_PROTOCOL_VERSION@, spec_http_flavor(version)),
    ] + match peer {
        Some((address, port)) => seq![
            str_attr(semconv::NETWORK_PEER_ADDRESS@, address),
            i64_attr(semconv::NETWORK_PEER_PORT@, port as i64),
        ],
        None => Seq::empty(),
    }
}

/// How the span ends on a response with status `status` (a valid code,
/// `100..=999`): the response attributes, and an error status with the
/// status text exactly for server errors.
pub fn end_response_parts(status: u16, version: HttpVersion, peer: Option<(String, u16)>) -> (r: SpanEnd)
    requires
        100 <= status <= 999,
    ensures
        attrs_view(r.attributes@) == response_parts_attrs(status, version, peer_view(peer)),
        is_server_error(status) ==> r.status@ == StatusModel::Error(spec_status_text(status)),
        !is_server_error(status) ==> r.status@ == StatusModel::Unset,
        500 <= status <= 599 ==> r.status@ == StatusModel::Error(spec_status_text(status)),
        !(500 <= status <= 599) ==> r.status@ == StatusModel::Unset,
        !r.record_error,
{
    let ghost pv = peer_view(peer);
    let mut attributes: Vec<Attribute> = Vec::new();
    attributes.push(Attribute::i64(semconv::HTTP_RESPONSE_STATUS_CODE, status as i64));
    attributes.push(Attribute::string(semconv::NETWORK_PROTOCOL_VERSION, http_flavor(version)));
    match peer {
        Some((address, port)) => {
            attributes.push(Attribute::string(semconv::NETWORK_PEER_ADDRESS, address));
            attributes.push(Attribute::i64(semconv::NETWORK_PEER_PORT, port as i64));
        },
        None => {},
    }
    assert(attrs_view(attributes@) =~= response_parts_attrs(status, version, pv));
    let span_status = if 500 <= status && status < 600 {
        SpanStatus::Error(status_text(status))
    } else {
        SpanStatus::Unset
    };
    SpanEnd { attributes, status: span_status, record_error: false }
}

/// How the span ends when the request fails with an error of type
/// `error_type` and text `message`: the type as `error.type`, an error
/// status with the text, and the error recorded on the span.
pub fn end_error(error_type: &str, message: String) -> (r: SpanEnd)
    ensures
        attrs_view(r.attributes@) == seq![str_attr(semconv::ERROR_TYPE@, error_type@)],
        r.status@ == StatusModel::Error(message@),
        r.record_error,
{
    crate::instrumentations::http::client::end_error(error_type, message)
}

} // verus!

//! The span of an outgoing HTTP request: its name and attributes from the
//! request, and what its end records from the response or the error.
use vstd::prelude::*;

use crate::semconv;
use crate::span::{
    concat,
    attrs_view, i64_attr, opt_attr, opt_i64_attr, opt_str, opt_string, owned, push_opt,
    push_opt_i64, push_opt_string, str_attr, Attribute, AttributeModel, SpanStatus, StatusModel,
};
use crate::text::{decimal, spec_decimal, str_eq};

verus! {

/// The method value recorded for a method outside the well-known set.
pub const OTHER_HTTP_METHOD: &'static str = "_OTHER";

/// The span name of a request with a method outside the well-known set.
pub const HTTP_SPAN_NAME: &'static str = "HTTP";

/// Whether `m` is one of the well-known HTTP methods.
pub open spec fn is_known_method(m: Seq<char>) -> bool {
    m == "CONNECT"@ || m == "DELETE"@ || m == "GET"@ || m == "HEAD"@ || m == "OPTIONS"@ || m
        == "PATCH"@ || m == "POST"@ || m == "PUT"@ || m == "TRACE"@
}

/// The `http.request.method` value of a request: the method itself when it
/// is well known, `_OTHER` otherwise.
pub open spec fn spec_semantic_method(m: Seq<char>) -> Seq<char> {
    if is_known_method(m) {
        m
    } else {
        OTHER_HTTP_METHOD@
    }
}

/// The `http.request.method` value of the request method `method`.
pub fn semantic_method(method: &str) -> (r: &'static str)
    ensures
        r@ == spec_semantic_method(method@),
{
    if str_eq(method, "CONNECT") {
        "CONNECT"
    } else if str_eq(method, "DELETE") {
        "DELETE"
    } else if str_eq(method, "GET") {
        "GET"
    } else if str_eq(method, "HEAD") {
        "HEAD"
    } else if str_eq(method, "OPTIONS") {
        "OPTIONS"
    } else if str_eq(method, "PATCH") {
        "PATCH"
    } else if str_eq(method, "POST") {
        "POST"
    } else if str_eq(method, "PUT") {
        "PUT"
    } else if str_eq(method, "TRACE") {
        "TRACE"
    } else {
        OTHER_HTTP_METHOD
    }
}

/// The parts of a request URL that the span records, each where the URL
/// has it.
pub struct UrlParts {
    /// The whole URL.
    pub full_url: Option<String>,
    /// The path.
    pub path: Option<String>,
    /// The host.
    pub host: Option<String>,
    /// The scheme.
    pub scheme: Option<String>,
    /// The port.
    pub port: Option<i64>,
    /// The query.
    pub query: Option<String>,
}

/// The parts of a request URL, as values.
pub struct UrlView {
    /// The whole URL.
    pub full_url: Option<Seq<char>>,
    /// The path.
    pub path: Option<Seq<char>>,
    /// The host.
    pub host: Option<Seq<char>>,
    /// The scheme.
    pub scheme: Option<Seq<char>>,
    /// The port.
    pub port: Option<i64>,
    /// The query.
    pub query: Option<Seq<char>>,
}

/// The view of URL parts.
pub open spec fn url_view(u: UrlParts) -> UrlView {
    UrlView {
        full_url: opt_string(u.full_url),
        path: opt_string(u.path),
        host: opt_string(u.host),
        scheme: opt_string(u.scheme),
        port: u.port,
        query: opt_string(u.query),
    }
}

/// The path and query of a URL as a request target writes them: the path,
/// then `?` and the query where there is one.
pub open spec fn spec_path_and_query(u: UrlView) -> Seq<char> {
    let path = match u.path {
        Some(p) => p,
        None => Seq::empty(),
    };
    match u.query {
        Some(q) => path + "?"@ + q,
        None => path,
    }
}

/// Where the request URL has no host (an origin-form target such as
/// `/ok?ready=true`) and the `Host` header `host` reads as an authority with
/// host `authority.0` and port `authority.1`, the URL recorded is
/// `//<host><path>?<query>`, with the server address and port taken from the
/// header; otherwise the URL parts are recorded as they are.
pub open spec fn spec_effective_url(
    u: UrlView,
    host: Option<Seq<char>>,
    authority: Option<(Seq<char>, Option<u16>)>,
) -> UrlView {
    match (u.host, host, authority) {
        (None, Some(h), Some((a, p))) => UrlView {
            full_url: Some("//"@ + h + spec_path_and_query(u)),
            path: u.path,
            host: Some(a),
            scheme: u.scheme,
            port: match p {
                Some(x) => Some(x as i64),
                None => None,
            },
            query: u.query,
        },
        _ => u,
    }
}

/// The attributes of the span of a request with method `method`, user agent
/// `user_agent` and URL parts `url`, in this order: the method (well known or
/// `_OTHER`), the full URL, the path, the server address, the scheme, the
/// server port, the query, the original method (when it is not well known)
/// and the user agent, each of the latter where it is present.
pub open spec fn request_attrs(method: Seq<char>, user_agent: Option<Seq<char>>, url: UrlView) -> Seq<AttributeModel> {
    seq![str_attr(semconv::HTTP_REQUEST_METHOD@, spec_semantic_method(method))] + opt_attr(
        semconv::URL_FULL@,
        url.full_url,
    ) + opt_attr(semconv::URL_PATH@, url.path) + opt_attr(
        semconv::SERVER_ADDRESS@,
        url.host,
    ) + opt_attr(semconv::URL_SCHEME@, url.scheme) + opt_i64_attr(
        semconv::SERVER_PORT@,
        url.port,
    ) + opt_attr(semconv::URL_QUERY@, url.query) + opt_attr(
        semconv::HTTP_REQUEST_METHOD_ORIGINAL@,
        if is_known_method(method) {
            None
        } else {
            Some(method)
        },
    ) + opt_attr(semconv::USER_AGENT_ORIGINAL@, user_agent)
}

/// What `http::uri::Authority` makes of `s`: its host and port where `s`
/// parses as an authority.
pub uninterp spec fn spec_authority_parts(s: Seq<char>) -> Option<(Seq<char>, Option<u16>)>;

/// Parses `s` as an `http::uri::Authority` (its `FromStr`) and reads its
/// `host()` and `port_u16()`. The contract only names the outcome: the host
/// and port where `s` parses, `None` where the parse fails.
#[verifier::external_body]
pub(crate) fn authority_parts(s: &str) -> (r: Option<(String, Option<u16>)>)
    ensures
        match r {
            Some((h, p)) => spec_authority_parts(s@) == Some((h@, p)),
            None => spec_authority_parts(s@) is None,
        },
{
    match s.parse::<http::uri::Authority>() {
        Ok(a) => Some((a.host().to_owned(), a.port_u16())),
        Err(_) => None,
    }
}

/// The view of a parsed authority.
pub open spec fn authority_view(a: Option<(String, Option<u16>)>) -> Option<(Seq<char>, Option<u16>)> {
    match a {
        Some((h, p)) => Some((h@, p)),
        None => None,
    }
}

fn opt_string_clone(o: &Option<String>) -> (r: Option<String>)
    ensures
        opt_string(r) == opt_string(*o),
{
    match o {
        Some(s) => Some(owned(s.as_str())),
        None => None,
    }
}

/// The URL parts that a request with URL parts `url` and `Host` header
/// `host` records, where `authority` is what that header reads as (see
/// [`spec_effective_url`]).
pub fn effective_url(
    url: &UrlParts,
    host: Option<&str>,
    authority: Option<(String, Option<u16>)>,
) -> (r: UrlParts)
    ensures
        url_view(r) == spec_effective_url(url_view(*url), opt_str(host), authority_view(authority)),
{
    match (&url.host, host, authority) {
        (None, Some(h), Some((a, p))) => {
            let path: &str = match &url.path {
                Some(p) => p.as_str(),
                None => "",
            };
            let pq = match &url.query {
                Some(q) => {
                    let with_mark = concat(path, "?");
                    concat(with_mark.as_str(), q.as_str())
                },
                None => owned(path),
            };
            proof {
                reveal_strlit("");
            }
            assert(pq@ == spec_path_and_query(url_view(*url)));
            let start = concat("//", h);
            let full = concat(start.as_str(), pq.as_str());
            let port: Option<i64> = match p {
                Some(x) => Some(x as i64),
                None => None,
            };
            let r = UrlParts {
                full_url: Some(full),
                path: opt_string_clone(&url.path),
                host: Some(a),
                scheme: opt_string_clone(&url.scheme),
                port,
                query: opt_string_clone(&url.query),
            };
            r
        },
        _ => UrlParts {
            full_url: opt_string_clone(&url.full_url),
            path: opt_string_clone(&url.path),
            host: opt_string_clone(&url.host),
            scheme: opt_string_clone(&url.scheme),
            port: url.port,
            query: opt_string_clone(&url.query),
        },
    }
}

/// The URL parts that a request with URL parts `url` and `Host` header
/// `host` records: those of the URL, or, for a URL without a host, those
/// that the header gives (see [`spec_effective_url`]).
pub open spec fn spec_request_url(url: UrlView, host: Option<Seq<char>>) -> UrlView {
    spec_effective_url(
        url,
        host,
        match (url.host, host) {
            (None, Some(h)) => spec_authority_parts(h),
            _ => None,
        },
    )
}

/// The name of the span of a request with method `method`: the method when it
/// is well known, `HTTP` otherwise.
pub open spec fn request_span_name(method: Seq<char>) -> Seq<char> {
    if is_known_method(method) {
        method
    } else {
        HTTP_SPAN_NAME@
    }
}

/// The name and attributes of the span of an outgoing request.
pub struct HttpClientSpanBuilder {
    /// The span attributes, in order.
    pub attributes: Vec<Attribute>,
    /// The span name.
    pub span_name: &'static str,
}

impl HttpClientSpanBuilder {
    /// The span of a request with method `method`, user agent `user_agent`
    /// (the `user-agent` header, where it is present and valid text), `Host`
    /// header `host` (likewise) and URL parts `url`; a URL without a host
    /// takes its host, port and full form from the `Host` header.
    pub fn from_parts(method: &str, user_agent: Option<&str>, host: Option<&str>, url: &UrlParts) -> (r: Self)
        ensures
            r.span_name@ == request_span_name(method@),
            attrs_view(r.attributes@) == request_attrs(
                method@,
                opt_str(user_agent),
                spec_request_url(url_view(*url), opt_str(host)),
            ),
    {
        let authority = match (&url.host, host) {
            (None, Some(h)) => authority_parts(h),
            _ => None,
        };
        let url = effective_url(url, host, authority);
        Self::from_url(method, user_agent, &url)
    }

    /// The span of a request with method `method`, user agent `user_agent`
    /// and the URL parts `url` that it records.
    fn from_url(method: &str, user_agent: Option<&str>, url: &UrlParts) -> (r: Self)
        ensures
            r.span_name@ == request_span_name(method@),
            attrs_view(r.attributes@) == request_attrs(method@, opt_str(user_agent), url_view(*url)),
    {
        let semantic = semantic_method(method);
        proof {
            reveal_strlit("_OTHER");
            reveal_strlit("CONNECT");
            reveal_strlit("DELETE");
            reveal_strlit("GET");
            reveal_strlit("HEAD");
            reveal_strlit("OPTIONS");
            reveal_strlit("PATCH");
            reveal_strlit("POST");
            reveal_strlit("PUT");
            reveal_strlit("TRACE");
            assert(OTHER_HTTP_METHOD@ == "_OTHER"@);
            assert(OTHER_HTTP_METHOD@.len() == 6);
            assert(OTHER_HTTP_METHOD@[0] == '_');
            assert("CONNECT"@[0] != '_' && "DELETE"@[0] != '_' && "GET"@[0] != '_' && "HEAD"@[0]
                != '_' && "OPTIONS"@[0] != '_' && "PATCH"@[0] != '_' && "POST"@[0] != '_'
                && "PUT"@[0] != '_' && "TRACE"@[0] != '_');
        }
        let other = str_eq(semantic, OTHER_HTTP_METHOD);
        assert(other == !is_known_method(method@));
        let span_name = if other {
            HTTP_SPAN_NAME
        } else {
            semantic
        };
        let original: Option<&str> = if other {
            Some(method)
        } else {
            None
        };
        let mut attributes: Vec<Attribute> = Vec::new();
        attributes.push(Attribute::string(semconv::HTTP_REQUEST_METHOD, owned(semantic)));
        push_opt_string(&mut attributes, semconv::URL_FULL, &url.full_url);
        push_opt_string(&mut attributes, semconv::URL_PATH, &url.path);
        push_opt_string(&mut attributes, semconv::SERVER_ADDRESS, &url.host);
        push_opt_string(&mut attributes, semconv::URL_SCHEME, &url.scheme);
        push_opt_i64(&mut attributes, semconv::SERVER_PORT, url.port);
        push_opt_string(&mut attributes, semconv::URL_QUERY, &url.query);
        push_opt(&mut attributes, semconv::HTTP_REQUEST_METHOD_ORIGINAL, original);
        push_opt(&mut attributes, semconv::USER_AGENT_ORIGINAL, user_agent);
        assert(attrs_view(attributes@) =~= request_attrs(method@, opt_str(user_agent), url_view(*url)));
        HttpClientSpanBuilder { attributes, span_name }
    }
}

/// The HTTP protocol version of a response.
#[derive(Debug, Clone, Copy, PartialEq, Eq, Structural)]
pub enum HttpVersion {
    /// HTTP/0.9
    Http09,
    /// HTTP/1.0
    Http10,
    /// HTTP/1.1
    Http11,
    /// HTTP/2
    Http2,
    /// HTTP/3
    Http3,
}

/// The `network.protocol.version` value of a version.
pub open spec fn spec_http_flavor(v: HttpVersion) -> Seq<char> {
    match v {
        HttpVersion::Http09 => "0.9"@,
        HttpVersion::Http10 => "1.0"@,
        HttpVersion::Http11 => "1.1"@,
        HttpVersion::Http2 => "2.0"@,
        HttpVersion::Http3 => "3.0"@,
    }
}

/// Calls `tracing_opentelemetry_instrumentation_sdk::http::http_flavor` on
/// the `http::Version` constant that `v` stands for. Its source maps the five
/// versions to `"0.9"`, `"1.0"`, `"1.1"`, `"2.0"` and `"3.0"`, which the
/// contract states.
#[verifier::external_body]
pub(crate) fn http_flavor(v: HttpVersion) -> (r: String)
    ensures
        r@ == spec_http_flavor(v),
{
    let version = match v {
        HttpVersion::Http09 => http::Version::HTTP_09,
        HttpVersion::Http10 => http::Version::HTTP_10,
        HttpVersion::Http11 => http::Version::HTTP_11,
        HttpVersion::Http2 => http::Version::HTTP_2,
        HttpVersion::Http3 => http::Version::HTTP_3,
    };
    tracing_opentelemetry_instrumentation_sdk::http::http_flavor(version).into_owned()
}

/// Whether a status code is a client or a server error (`400..=599`).
pub open spec fn is_error_status(status: u16) -> bool {
    400 <= status < 600
}

/// What the span of a request records when it ends.
pub struct SpanEnd {
    /// The attributes added at the end, in order.
    pub attributes: Vec<Attribute>,
    /// The status the span ends with.
    pub status: SpanStatus,
    /// Whether the error is recorded as an event of the span.
    pub record_error: bool,
}

/// The attributes recorded from a response with status `status`, protocol
/// version `version` and, where known, the peer's address and port: the
/// status code, the protocol version, the peer, and for an error status the
/// status code again as the error type.
pub open spec fn response_attrs(status: u16, version: HttpVersion, peer: Option<(Seq<char>, u16)>) -> Seq<AttributeModel> {
    seq![
        i64_attr(semconv::HTTP_RESPONSE_STATUS_CODE@, status as i64),
        str_attr(semconv::NETWORK_PROTOCOL_VERSION@, spec_http_flavor(version)),
    ] + match peer {
        Some((address, port)) => seq![
            str_attr(semconv::NETWORK_PEER_ADDRESS@, address),
            i64_attr(semconv::NETWORK_PEER_PORT@, port as i64),
        ],
        None => Seq::empty(),
    } + if is_error_status(status) {
        seq![str_attr(semconv::ERROR_TYPE@, spec_decimal(status as nat))]
    } else {
        Seq::empty()
    }
}

/// The view of the peer of a response.
pub open spec fn peer_view(peer: Option<(String, u16)>) -> Option<(Seq<char>, u16)> {
    match peer {
        Some((a, p)) => Some((a@, p)),
        None => None,
    }
}

/// How the span of a request ends when a response arrives: the response
/// attributes, and an error status (with an empty description) exactly for
/// client and server error codes.
pub fn end_response(status: u16, version: HttpVersion, peer: Option<(String, u16)>) -> (r: SpanEnd)
    ensures
        attrs_view(r.attributes@) == response_attrs(status, version, peer_view(peer)),
        is_error_status(status) ==> r.status@ == StatusModel::Error(Seq::empty()),
        !is_error_status(status) ==> r.status@ == StatusModel::Unset,
        400 <= status <= 599 ==> r.status@ == StatusModel::Error(Seq::empty()),
        !(400 <= status <= 599) ==> r.status@ == StatusModel::Unset,
        !r.record_error,
{
    let ghost pv = peer_view(peer);
    let mut attributes: Vec<Attribute> = Vec::new();
    attributes.push(Attribute::i64(semconv::HTTP_RESPONSE_STATUS_CODE, status as i64));
    attributes.push(Attribute::string(semconv::NETWORK_PROTOCOL_VERSION, http_flavor(version)));
    match peer {
        Some((address, port)) => {
            attributes.push(Attribute::string(semconv::NETWORK_PEER_ADDRESS, address));
            attributes.push(Attribute::i64(semconv::NETWORK_PEER_PORT, port as i64));
        },
        None => {},
    }
    let error = 400 <= status && status < 600;
    let status_value = if error {
        attributes.push(Attribute::string(semconv::ERROR_TYPE, decimal(status as u64)));
        proof {
            reveal_strlit("");
            assert(""@ =~= Seq::<char>::empty());
        }
        SpanStatus::Error(owned(""))
    } else {
        SpanStatus::Unset
    };
    assert(attrs_view(attributes@) =~= response_attrs(status, version, pv));
    SpanEnd { attributes, status: status_value, record_error: false }
}

/// The methods that a request span records as they are: exactly the nine
/// standard methods `CONNECT`, `DELETE`, `GET`, `HEAD`, `OPTIONS`, `PATCH`,
/// `POST`, `PUT` and `TRACE`; the span is named after them. Any other method
/// is recorded as `_OTHER` and names the span `HTTP`.
pub proof fn lemma_standard_methods(m: Seq<char>)
    ensures
        (m == "CONNECT"@ || m == "DELETE"@ || m == "GET"@ || m == "HEAD"@ || m == "OPTIONS"@
            || m == "PATCH"@ || m == "POST"@ || m == "PUT"@ || m == "TRACE"@) ==> spec_semantic_method(m)
            == m && request_span_name(m) == m,
        !(m == "CONNECT"@ || m == "DELETE"@ || m == "GET"@ || m == "HEAD"@ || m == "OPTIONS"@
            || m == "PATCH"@ || m == "POST"@ || m == "PUT"@ || m == "TRACE"@) ==> spec_semantic_method(m)
            == "_OTHER"@ && request_span_name(m) == "HTTP"@,
{
}

/// The protocol versions recorded as `network.protocol.version`: `0.9`,
/// `1.0`, `1.1`, `2.0` and `3.0`, one per version, so that distinct versions
/// are never reported alike.
pub proof fn lemma_protocol_versions(a: HttpVersion, b: HttpVersion)
    ensures
        a == HttpVersion::Http09 ==> spec_http_flavor(a) == "0.9"@,
        a == HttpVersion::Http10 ==> spec_http_flavor(a) == "1.0"@,
        a == HttpVersion::Http11 ==> spec_http_flavor(a) == "1.1"@,
        a == HttpVersion::Http2 ==> spec_http_flavor(a) == "2.0"@,
        a == HttpVersion::Http3 ==> spec_http_flavor(a) == "3.0"@,
        a != b ==> spec_http_flavor(a) != spec_http_flavor(b),
{
    reveal_strlit("0.9");
    reveal_strlit("1.0");
    reveal_strlit("1.1");
    reveal_strlit("2.0");
    reveal_strlit("3.0");
    if a != b {
        let x = spec_http_flavor(a);
        let y = spec_http_flavor(b);
        assert(x[0] != y[0] || x[2] != y[2]);
    }
}

/// A response is an error exactly when its status code is a client error
/// (`400..=499`) or a server error (`500..=599`); the attributes recorded then
/// end with `error.type` set to the code in decimal, and otherwise hold only
/// the status code, the protocol version and the peer.
pub proof fn lemma_error_responses(status: u16, version: HttpVersion, peer: Option<(Seq<char>, u16)>)
    ensures
        is_error_status(status) <==> (400 <= status && status <= 599),
        400 <= status <= 599 ==> response_attrs(status, version, peer).last() == str_attr(
            semconv::ERROR_TYPE@,
            spec_decimal(status as nat),
        ),
        response_attrs(status, version, peer)[0] == i64_attr(
            semconv::HTTP_RESPONSE_STATUS_CODE@,
            status as i64,
        ),
        response_attrs(status, version, peer)[1].key == semconv::NETWORK_PROTOCOL_VERSION@,
        peer is Some ==> response_attrs(status, version, peer)[2] == str_attr(
            semconv::NETWORK_PEER_ADDRESS@,
            (peer->0).0,
        ) && response_attrs(status, version, peer)[3] == i64_attr(
            semconv::NETWORK_PEER_PORT@,
            (peer->0).1 as i64,
        ),
        response_attrs(status, version, peer).len() == 2 + (if peer is Some {
            2int
        } else {
            0int
        }) + (if 400 <= status <= 599 {
            1int
        } else {
            0int
        }),
{
}

/// How the span of a request ends when the request fails: the error type as
/// `error.type`, an error status with the error's text, and the error
/// recorded on the span.
pub fn end_error(error_type: &str, message: String) -> (r: SpanEnd)
    ensures
        attrs_view(r.attributes@) == seq![str_attr(semconv::ERROR_TYPE@, error_type@)],
        r.status@ == StatusModel::Error(message@),
        r.record_error,
{
    let mut attributes: Vec<Attribute> = Vec::new();
    attributes.push(Attribute::string(semconv::ERROR_TYPE, owned(error_type)));
    assert(attrs_view(attributes@) =~= seq![str_attr(semconv::ERROR_TYPE@, error_type@)]);
    SpanEnd { attributes, status: SpanStatus::Error(message), record_error: true }
}

} // verus!

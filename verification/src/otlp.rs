//! Configuration of the OTLP span exporter, read from the values of the
//! `OTEL_*` environment variables.
//!
//! The environment is read by the caller; the functions here decide what the
//! values mean.
use vstd::prelude::*;

use crate::span::{concat, owned};
use crate::text::{
    debug_str, find_char, find_str, lemma_find_char, parse_u64, spec_debug_text, spec_find_char,
    spec_find_str, spec_lowercase, spec_parse_u64, spec_split_char, split_char, str_eq,
    to_lowercase, IntErrorKind,
};

pub use crate::filter::read_tracing_level_from_env as read_otel_log_level_from_env;

verus! {

/// The wire protocol of the OTLP exporter.
#[derive(Debug, Clone, Copy, PartialEq, Eq, Structural)]
pub enum Protocol {
    /// gRPC.
    Grpc,
    /// Protobuf over HTTP.
    HttpBinary,
    /// JSON over HTTP.
    HttpJson,
}

/// The exporter settings read from the environment.
#[derive(Debug)]
pub struct ExportConfig {
    /// The collector's endpoint, if one is configured.
    pub endpoint: Option<String>,
    /// The wire protocol.
    pub protocol: Protocol,
    /// The export timeout in milliseconds, if one is configured.
    pub timeout: Option<u64>,
}

/// Error types that can occur during OpenTelemetry tracer initialization.
#[derive(Debug)]
pub enum InitTracerError {
    /// An unsupported protocol was specified in environment variables.
    UnsupportedEnvProtocol(String),
    /// An invalid timeout value was provided in environment variables.
    InvalidEnvTimeout(String, IntErrorKind),
}

/// Model of an [`ExportConfig`].
pub struct ExportConfigModel {
    /// The endpoint.
    pub endpoint: Option<Seq<char>>,
    /// The protocol.
    pub protocol: Protocol,
    /// The timeout in milliseconds.
    pub timeout: Option<u64>,
}

/// Model of an [`InitTracerError`].
pub enum InitTracerErrorModel {
    /// The protocol named in the environment.
    UnsupportedEnvProtocol(Seq<char>),
    /// The timeout text and why it could not be read.
    InvalidEnvTimeout(Seq<char>, IntErrorKind),
}

impl View for ExportConfig {
    type V = ExportConfigModel;

    open spec fn view(&self) -> ExportConfigModel {
        ExportConfigModel {
            endpoint: opt_view(self.endpoint),
            protocol: self.protocol,
            timeout: self.timeout,
        }
    }
}

impl View for InitTracerError {
    type V = InitTracerErrorModel;

    open spec fn view(&self) -> InitTracerErrorModel {
        match self {
            InitTracerError::UnsupportedEnvProtocol(p) => InitTracerErrorModel::UnsupportedEnvProtocol(p@),
            InitTracerError::InvalidEnvTimeout(t, k) => InitTracerErrorModel::InvalidEnvTimeout(t@, *k),
        }
    }
}

/// The view of an optional string.
pub open spec fn opt_view(s: Option<String>) -> Option<Seq<char>> {
    match s {
        Some(s) => Some(s@),
        None => None,
    }
}

/// The view of an optional string slice.
pub open spec fn opt_str_view(s: Option<&str>) -> Option<Seq<char>> {
    match s {
        Some(s) => Some(s@),
        None => None,
    }
}

/// The protocol that the environment selects, or the unsupported name it gives.
pub open spec fn spec_protocol(
    maybe_protocol: Option<Seq<char>>,
    maybe_endpoint: Option<Seq<char>>,
) -> Result<Protocol, Seq<char>> {
    match maybe_protocol {
        Some(p) => if p == "grpc"@ {
            Ok(Protocol::Grpc)
        } else if p == "http"@ || p == "http/protobuf"@ {
            Ok(Protocol::HttpBinary)
        } else {
            Err(p)
        },
        None => match maybe_endpoint {
            Some(e) if spec_find_str(e, ":4317"@) is Some => Ok(Protocol::Grpc),
            _ => Ok(Protocol::HttpBinary),
        },
    }
}

/// The exporter settings that the environment values select, or why they are invalid.
pub open spec fn spec_infer_export_config(
    maybe_protocol: Option<Seq<char>>,
    maybe_endpoint: Option<Seq<char>>,
    maybe_timeout: Option<Seq<char>>,
) -> Result<ExportConfigModel, InitTracerErrorModel> {
    match spec_protocol(maybe_protocol, maybe_endpoint) {
        Err(p) => Err(InitTracerErrorModel::UnsupportedEnvProtocol(p)),
        Ok(protocol) => match maybe_timeout {
            Some(t) => match spec_parse_u64(t) {
                Err(k) => Err(InitTracerErrorModel::InvalidEnvTimeout(t, k)),
                Ok(ms) => Ok(ExportConfigModel { endpoint: maybe_endpoint, protocol, timeout: Some(ms) }),
            },
            None => Ok(ExportConfigModel { endpoint: maybe_endpoint, protocol, timeout: None }),
        },
    }
}

fn owned_opt(s: Option<&str>) -> (r: Option<String>)
    ensures
        opt_view(r) == opt_str_view(s),
{
    match s {
        Some(s) => Some(owned(s)),
        None => None,
    }
}

/// Reads the exporter settings from the values of the protocol, endpoint and
/// timeout variables. With no protocol given, an endpoint on port 4317 selects
/// gRPC and anything else protobuf over HTTP; the timeout is in milliseconds.
pub fn infer_export_config(
    maybe_protocol: Option<&str>,
    maybe_endpoint: Option<&str>,
    maybe_timeout: Option<&str>,
) -> (r: Result<ExportConfig, InitTracerError>)
    ensures
        match (r, spec_infer_export_config(
            opt_str_view(maybe_protocol),
            opt_str_view(maybe_endpoint),
            opt_str_view(maybe_timeout),
        )) {
            (Ok(c), Ok(m)) => c@ == m,
            (Err(e), Err(m)) => e@ == m,
            _ => false,
        },
{
    proof {
        reveal_strlit("grpc");
        reveal_strlit("http");
        reveal_strlit("http/protobuf");
    }
    let protocol = match maybe_protocol {
        Some(p) => {
            if str_eq(p, "grpc") {
                Protocol::Grpc
            } else if str_eq(p, "http") || str_eq(p, "http/protobuf") {
                Protocol::HttpBinary
            } else {
                return Err(InitTracerError::UnsupportedEnvProtocol(owned(p)));
            }
        },
        None => match maybe_endpoint {
            Some(e) => if find_str(e, ":4317").is_some() {
                Protocol::Grpc
            } else {
                Protocol::HttpBinary
            },
            None => Protocol::HttpBinary,
        },
    };
    let timeout = match maybe_timeout {
        Some(t) => match parse_u64(t) {
            Ok(ms) => Some(ms),
            Err(k) => {
                return Err(InitTracerError::InvalidEnvTimeout(owned(t), k));
            },
        },
        None => None,
    };
    Ok(ExportConfig { endpoint: owned_opt(maybe_endpoint), protocol, timeout })
}

impl InitTracerError {
    /// The error's message: `unsupported protocol "<name>" form env`, or
    /// `invalid timeout "<text>" form env: <reason>`.
    pub fn message(&self) -> (r: String)
        ensures
            r@ == match self@ {
                InitTracerErrorModel::UnsupportedEnvProtocol(p) => "unsupported protocol "@
                    + spec_debug_text(p) + " form env"@,
                InitTracerErrorModel::InvalidEnvTimeout(t, k) => "invalid timeout "@
                    + spec_debug_text(t) + " form env: "@ + k.spec_message(),
            },
    {
        match self {
            InitTracerError::UnsupportedEnvProtocol(p) => {
                let q = debug_str(p.as_str());
                let a = concat("unsupported protocol ", q.as_str());
                concat(a.as_str(), " form env")
            },
            InitTracerError::InvalidEnvTimeout(t, k) => {
                let q = debug_str(t.as_str());
                let a = concat("invalid timeout ", q.as_str());
                let b = concat(a.as_str(), " form env: ");
                concat(b.as_str(), k.message())
            },
        }
    }
}

/// The `key=value` pairs of a header list: each piece between commas that
/// holds `=` gives the text before its first `=` and the text after it.
pub open spec fn spec_header_pairs(pieces: Seq<Seq<char>>) -> Seq<(Seq<char>, Seq<char>)>
    decreases pieces.len(),
{
    if pieces.len() == 0 {
        seq![]
    } else {
        let rest = spec_header_pairs(pieces.drop_first());
        match spec_find_char(pieces[0], '=') {
            Some(i) => seq![(pieces[0].take(i as int), pieces[0].skip(i + 1 as int))] + rest,
            None => rest,
        }
    }
}

/// The headers of the text `k1=v1,k2=v2,...`.
pub open spec fn spec_parse_headers(val: Seq<char>) -> Seq<(Seq<char>, Seq<char>)> {
    spec_header_pairs(spec_split_char(val, ','))
}

/// The views of a list of string pairs.
pub open spec fn pairs_view(v: Seq<(String, String)>) -> Seq<(Seq<char>, Seq<char>)> {
    v.map_values(|p: (String, String)| (p.0@, p.1@))
}

/// Turns a string of "k1=v1,k2=v2,..." into a list of (key, value) tuples;
/// pieces without `=` are skipped.
pub fn parse_headers(val: &str) -> (r: Vec<(String, String)>)
    ensures
        pairs_view(r@) == spec_parse_headers(val@),
{
    let pieces = split_char(val, ',');
    let ghost pv = pieces@.map_values(|w: &str| w@);
    let mut r: Vec<(String, String)> = Vec::new();
    let mut i: usize = 0;
    assert(pv.skip(0) =~= pv);
    while i < pieces.len()
        invariant
            i <= pieces@.len(),
            pv == pieces@.map_values(|w: &str| w@),
            spec_header_pairs(pv) == pairs_view(r@) + spec_header_pairs(pv.skip(i as int)),
        decreases pieces.len() - i,
    {
        let piece = pieces[i];
        let ghost tail = pv.skip(i + 1 as int);
        assert(pv.skip(i as int).drop_first() =~= tail);
        assert(pv.skip(i as int)[0] == piece@);
        let ghost before = pairs_view(r@);
        match find_char(piece, '=') {
            Some(k) => {
                proof {
                    lemma_find_char(piece@, '=');
                }
                let n = piece.unicode_len();
                let key = owned(piece.substring_char(0, k));
                let value = owned(piece.substring_char(k + 1, n));
                assert(key@ =~= piece@.take(k as int));
                assert(value@ =~= piece@.skip(k + 1 as int));
                r.push((key, value));
                assert(pairs_view(r@) =~= before.push((key@, value@)));
                assert(before.push((key@, value@)) + spec_header_pairs(tail) =~= before + (seq![
                    (key@, value@),
                ] + spec_header_pairs(tail)));
            },
            None => {},
        }
        i = i + 1;
    }
    assert(pv.skip(pieces.len() as int) =~= Seq::<Seq<char>>::empty());
    assert(pairs_view(r@) + Seq::<(Seq<char>, Seq<char>)>::empty() =~= pairs_view(r@));
    r
}

/// Adds the headers `pairs` to `acc` as a map does: a key already present gets
/// the new value in place, a new key goes to the end.
pub open spec fn spec_insert_headers(
    acc: Seq<(Seq<char>, Seq<char>)>,
    pairs: Seq<(Seq<char>, Seq<char>)>,
) -> Seq<(Seq<char>, Seq<char>)>
    decreases pairs.len(),
{
    if pairs.len() == 0 {
        acc
    } else {
        let (k, v) = pairs[0];
        let next = match spec_key_index(acc, k) {
            Some(j) => acc.update(j, (k, v)),
            None => acc.push((k, v)),
        };
        spec_insert_headers(next, pairs.drop_first())
    }
}

/// The position of the first pair of `acc` with key `k`.
pub open spec fn spec_key_index(acc: Seq<(Seq<char>, Seq<char>)>, k: Seq<char>) -> Option<int>
    decreases acc.len(),
{
    if acc.len() == 0 {
        None
    } else if acc[0].0 == k {
        Some(0)
    } else {
        match spec_key_index(acc.drop_first(), k) {
            Some(j) => Some(j + 1),
            None => None,
        }
    }
}

/// `spec_key_index` finds the first pair with the key.
pub proof fn lemma_key_index(acc: Seq<(Seq<char>, Seq<char>)>, k: Seq<char>)
    ensures
        spec_key_index(acc, k) matches Some(j) ==> 0 <= j < acc.len() && acc[j].0 == k && forall|
            m: int,
        | 0 <= m < j ==> acc[m].0 != k,
        spec_key_index(acc, k) is None ==> forall|m: int| 0 <= m < acc.len() ==> acc[m].0 != k,
    decreases acc.len(),
{
    if acc.len() > 0 && acc[0].0 != k {
        lemma_key_index(acc.drop_first(), k);
        assert forall|m: int| 1 <= m < acc.len() implies acc[m] == acc.drop_first()[m - 1] by {}
    }
}

/// Characterisation of `spec_key_index` by the first position that holds the key.
pub proof fn lemma_key_index_at(acc: Seq<(Seq<char>, Seq<char>)>, k: Seq<char>, j: int)
    requires
        0 <= j <= acc.len(),
        forall|m: int| 0 <= m < j ==> acc[m].0 != k,
        j == acc.len() || acc[j].0 == k,
    ensures
        j < acc.len() ==> spec_key_index(acc, k) == Some(j),
        j == acc.len() ==> spec_key_index(acc, k) is None,
    decreases j,
{
    if j > 0 {
        let t = acc.drop_first();
        assert forall|m: int| 0 <= m < j - 1 implies t[m].0 != k by {
            assert(t[m] == acc[m + 1]);
        }
        if j < acc.len() {
            assert(t[j - 1] == acc[j]);
        }
        lemma_key_index_at(t, k, j - 1);
    }
}

/// Adds the header `(k, v)` to `headers` as a map insertion does.
fn insert_header(headers: &mut Vec<(String, String)>, k: String, v: String)
    ensures
        pairs_view(final(headers)@) == match spec_key_index(pairs_view(old(headers)@), k@) {
            Some(j) => pairs_view(old(headers)@).update(j, (k@, v@)),
            None => pairs_view(old(headers)@).push((k@, v@)),
        },
{
    let ghost acc = pairs_view(headers@);
    let n = headers.len();
    let mut j: usize = 0;
    while j < n && !(headers[j].0 == k)
        invariant
            n == headers@.len(),
            acc == pairs_view(headers@),
            j <= n,
            forall|m: int| 0 <= m < j ==> acc[m].0 != k@,
        decreases n - j,
    {
        assert(acc[j as int].0 == headers@[j as int].0@);
        j = j + 1;
    }
    if j < n {
        assert(acc[j as int].0 == headers@[j as int].0@);
    }
    proof {
        lemma_key_index_at(acc, k@, j as int);
    }
    if j < n {
        let ghost kv = k@;
        let ghost vv = v@;
        headers.set(j, (k, v));
        assert(pairs_view(headers@) =~= acc.update(j as int, (kv, vv)));
    } else {
        let ghost kv = k@;
        let ghost vv = v@;
        headers.push((k, v));
        assert(pairs_view(headers@) =~= acc.push((kv, vv)));
    }
}

/// Adds the headers `pairs` to `headers` as successive map insertions do.
fn insert_headers(headers: &mut Vec<(String, String)>, pairs: &Vec<(String, String)>)
    ensures
        pairs_view(final(headers)@) == spec_insert_headers(
            pairs_view(old(headers)@),
            pairs_view(pairs@),
        ),
{
    let ghost pv = pairs_view(pairs@);
    let ghost start = pairs_view(headers@);
    let mut i: usize = 0;
    assert(pv.skip(0) =~= pv);
    while i < pairs.len()
        invariant
            i <= pairs@.len(),
            pv == pairs_view(pairs@),
            spec_insert_headers(start, pv) == spec_insert_headers(
                pairs_view(headers@),
                pv.skip(i as int),
            ),
        decreases pairs@.len() - i,
    {
        let ghost rest = pv.skip(i as int);
        let k = owned(pairs[i].0.as_str());
        let v = owned(pairs[i].1.as_str());
        assert(rest[0] == (k@, v@));
        assert(rest.drop_first() =~= pv.skip(i + 1 as int));
        insert_header(headers, k, v);
        i = i + 1;
    }
    assert(pv.skip(i as int) =~= Seq::<(Seq<char>, Seq<char>)>::empty());
}

/// The headers to send with every export: those of `OTEL_EXPORTER_OTLP_HEADERS`
/// (`general`), then those of `OTEL_EXPORTER_OTLP_TRACES_HEADERS` (`traces`),
/// each key once, a later value replacing an earlier one.
pub fn read_headers_from_env(general: Option<&str>, traces: Option<&str>) -> (r: Vec<(String, String)>)
    ensures
        pairs_view(r@) == spec_insert_headers(
            spec_insert_headers(seq![], spec_parse_headers(opt_or_empty(opt_str_view(general)))),
            spec_parse_headers(opt_or_empty(opt_str_view(traces))),
        ),
{
    proof {
        reveal_strlit("");
        assert(""@ =~= Seq::<char>::empty());
    }
    let mut headers: Vec<(String, String)> = Vec::new();
    assert(pairs_view(headers@) =~= seq![]);
    let g = match general {
        Some(g) => g,
        None => "",
    };
    insert_headers(&mut headers, &parse_headers(g));
    let t = match traces {
        Some(t) => t,
        None => "",
    };
    insert_headers(&mut headers, &parse_headers(t));
    headers
}

/// The text of an optional value, empty when there is none.
pub open spec fn opt_or_empty(s: Option<Seq<char>>) -> Seq<char> {
    match s {
        Some(s) => s,
        None => Seq::empty(),
    }
}

/// The value that `headers` holds for key `k`: that of its first pair with the key.
pub open spec fn spec_lookup(headers: Seq<(Seq<char>, Seq<char>)>, k: Seq<char>) -> Option<
    Seq<char>,
> {
    match spec_key_index(headers, k) {
        Some(j) => Some(headers[j].1),
        None => None,
    }
}

/// The value of the last pair of `pairs` with key `k`.
pub open spec fn spec_last_value(pairs: Seq<(Seq<char>, Seq<char>)>, k: Seq<char>) -> Option<
    Seq<char>,
>
    decreases pairs.len(),
{
    if pairs.len() == 0 {
        None
    } else {
        match spec_last_value(pairs.drop_first(), k) {
            Some(v) => Some(v),
            None => if pairs[0].0 == k {
                Some(pairs[0].1)
            } else {
                None
            },
        }
    }
}

proof fn lemma_insert_one_lookup(
    acc: Seq<(Seq<char>, Seq<char>)>,
    k0: Seq<char>,
    v0: Seq<char>,
    k: Seq<char>,
)
    ensures
        ({
            let next = match spec_key_index(acc, k0) {
                Some(j) => acc.update(j, (k0, v0)),
                None => acc.push((k0, v0)),
            };
            spec_lookup(next, k) == if k0 == k {
                Some(v0)
            } else {
                spec_lookup(acc, k)
            }
        }),
{
    lemma_key_index(acc, k0);
    lemma_key_index(acc, k);
    match spec_key_index(acc, k0) {
        Some(j) => {
            let next = acc.update(j, (k0, v0));
            if k0 == k {
                lemma_key_index_at(next, k, j);
            } else {
                match spec_key_index(acc, k) {
                    Some(j2) => {
                        lemma_key_index_at(next, k, j2);
                    },
                    None => {
                        lemma_key_index_at(next, k, next.len() as int);
                    },
                }
            }
        },
        None => {
            let next = acc.push((k0, v0));
            if k0 == k {
                lemma_key_index_at(next, k, acc.len() as int);
            } else {
                match spec_key_index(acc, k) {
                    Some(j2) => {
                        lemma_key_index_at(next, k, j2);
                    },
                    None => {
                        lemma_key_index_at(next, k, next.len() as int);
                    },
                }
            }
        },
    }
}

/// Inserting headers leaves each key with the value of its last insertion, and
/// the keys not inserted as they were.
pub proof fn lemma_insert_headers_lookup(
    acc: Seq<(Seq<char>, Seq<char>)>,
    pairs: Seq<(Seq<char>, Seq<char>)>,
    k: Seq<char>,
)
    ensures
        spec_lookup(spec_insert_headers(acc, pairs), k) == match spec_last_value(pairs, k) {
            Some(v) => Some(v),
            None => spec_lookup(acc, k),
        },
    decreases pairs.len(),
{
    if pairs.len() > 0 {
        let (k0, v0) = pairs[0];
        let next = match spec_key_index(acc, k0) {
            Some(j) => acc.update(j, (k0, v0)),
            None => acc.push((k0, v0)),
        };
        lemma_insert_one_lookup(acc, k0, v0, k);
        lemma_insert_headers_lookup(next, pairs.drop_first(), k);
    }
}

/// Among the exporter headers, one set in `OTEL_EXPORTER_OTLP_TRACES_HEADERS`
/// (`traces`) takes the value given there last; any other keeps the value given
/// last in `OTEL_EXPORTER_OTLP_HEADERS` (`general`).
pub proof fn lemma_traces_headers_override(
    general: Option<Seq<char>>,
    traces: Option<Seq<char>>,
    k: Seq<char>,
)
    ensures
        spec_lookup(
            spec_insert_headers(
                spec_insert_headers(seq![], spec_parse_headers(opt_or_empty(general))),
                spec_parse_headers(opt_or_empty(traces)),
            ),
            k,
        ) == match spec_last_value(spec_parse_headers(opt_or_empty(traces)), k) {
            Some(v) => Some(v),
            None => spec_last_value(spec_parse_headers(opt_or_empty(general)), k),
        },
{
    let g = spec_parse_headers(opt_or_empty(general));
    let t = spec_parse_headers(opt_or_empty(traces));
    lemma_insert_headers_lookup(spec_insert_headers(seq![], g), t, k);
    lemma_insert_headers_lookup(seq![], g, k);
}

/// The endpoint, protocol and timeout settings as `(protocol, endpoint, timeout)`:
/// each the value of its `OTEL_EXPORTER_OTLP_TRACES_*` variable when that is
/// set, else the value of its `OTEL_EXPORTER_OTLP_*` variable.
pub fn read_export_config_from_env(
    traces_endpoint: Option<String>,
    endpoint: Option<String>,
    traces_protocol: Option<String>,
    protocol: Option<String>,
    traces_timeout: Option<String>,
    timeout: Option<String>,
) -> (r: (Option<String>, Option<String>, Option<String>))
    ensures
        r.0 == (if traces_protocol is Some { traces_protocol } else { protocol }),
        r.1 == (if traces_endpoint is Some { traces_endpoint } else { endpoint }),
        r.2 == (if traces_timeout is Some { traces_timeout } else { timeout }),
{
    let maybe_endpoint = if traces_endpoint.is_some() {
        traces_endpoint
    } else {
        endpoint
    };
    let maybe_protocol = if traces_protocol.is_some() {
        traces_protocol
    } else {
        protocol
    };
    let maybe_timeout = if traces_timeout.is_some() {
        traces_timeout
    } else {
        timeout
    };
    (maybe_protocol, maybe_endpoint, maybe_timeout)
}

/// The sampler that `OTEL_TRACES_SAMPLER` selects. The ratio of the ratio-based
/// samplers comes from `OTEL_TRACES_SAMPLER_ARG`.
#[derive(Debug, Clone, Copy, PartialEq, Eq, Structural)]
pub enum SamplerKind {
    /// Samples every trace.
    AlwaysOn,
    /// Samples no trace.
    AlwaysOff,
    /// Samples a ratio of the traces.
    TraceIdRatioBased,
    /// Follows the parent's decision, sampling root spans.
    ParentBasedAlwaysOn,
    /// Follows the parent's decision, sampling no root span.
    ParentBasedAlwaysOff,
    /// Follows the parent's decision, sampling a ratio of root spans.
    ParentBasedTraceIdRatioBased,
}

/// The sampler that the (lower-case) sampler name selects, and the name under
/// which the choice is reported: unknown names fall back to
/// `parentbased_always_on`.
pub open spec fn spec_sampler(name: Seq<char>) -> (SamplerKind, Seq<char>) {
    if name == "always_on"@ {
        (SamplerKind::AlwaysOn, name)
    } else if name == "always_off"@ {
        (SamplerKind::AlwaysOff, name)
    } else if name == "traceidratio"@ {
        (SamplerKind::TraceIdRatioBased, name)
    } else if name == "parentbased_always_on"@ {
        (SamplerKind::ParentBasedAlwaysOn, name)
    } else if name == "parentbased_always_off"@ {
        (SamplerKind::ParentBasedAlwaysOff, name)
    } else if name == "parentbased_traceidratio"@ {
        (SamplerKind::ParentBasedTraceIdRatioBased, name)
    } else {
        (SamplerKind::ParentBasedAlwaysOn, "parentbased_always_on"@)
    }
}

/// Each documented sampler name selects the sampler of that name and is
/// reported as given: `always_on`, `always_off`, `traceidratio`,
/// `parentbased_always_on`, `parentbased_always_off`,
/// `parentbased_traceidratio`. Any other name selects the parent-based
/// always-on sampler and is reported as `parentbased_always_on`.
pub proof fn lemma_sampler_names(name: Seq<char>)
    ensures
        name == "always_on"@ ==> spec_sampler(name) == (SamplerKind::AlwaysOn, "always_on"@),
        name == "always_off"@ ==> spec_sampler(name) == (SamplerKind::AlwaysOff, "always_off"@),
        name == "traceidratio"@ ==> spec_sampler(name) == (
            SamplerKind::TraceIdRatioBased,
            "traceidratio"@,
        ),
        name == "parentbased_always_on"@ ==> spec_sampler(name) == (
            SamplerKind::ParentBasedAlwaysOn,
            "parentbased_always_on"@,
        ),
        name == "parentbased_always_off"@ ==> spec_sampler(name) == (
            SamplerKind::ParentBasedAlwaysOff,
            "parentbased_always_off"@,
        ),
        name == "parentbased_traceidratio"@ ==> spec_sampler(name) == (
            SamplerKind::ParentBasedTraceIdRatioBased,
            "parentbased_traceidratio"@,
        ),
        !(name == "always_on"@ || name == "always_off"@ || name == "traceidratio"@ || name
            == "parentbased_always_on"@ || name == "parentbased_always_off"@ || name
            == "parentbased_traceidratio"@) ==> spec_sampler(name) == (
            SamplerKind::ParentBasedAlwaysOn,
            "parentbased_always_on"@,
        ),
{
    reveal_strlit("always_on");
    reveal_strlit("always_off");
    reveal_strlit("traceidratio");
    reveal_strlit("parentbased_always_on");
    reveal_strlit("parentbased_always_off");
    reveal_strlit("parentbased_traceidratio");
    assert("always_on"@.len() == 9);
    assert("always_off"@.len() == 10);
    assert("traceidratio"@.len() == 12);
    assert("parentbased_always_on"@.len() == 21);
    assert("parentbased_always_off"@.len() == 22);
    assert("parentbased_traceidratio"@.len() == 24);
}

/// The sampler name: the value of `OTEL_TRACES_SAMPLER` in lower case, empty
/// when the variable is unset.
pub fn sampler_name(value: Option<&str>) -> (r: String)
    ensures
        value matches Some(v) ==> r@ == spec_lowercase(v@),
        value is None ==> r@ == Seq::<char>::empty(),
{
    match value {
        Some(v) => to_lowercase(v),
        None => String::new(),
    }
}

/// The sampler that the lower-case sampler `name` selects, with the name under
/// which the choice is reported. `jaeger_remote` and `xray` are not supported.
pub fn sampler_from_name(name: &str) -> (r: (SamplerKind, String))
    requires
        name@ != "jaeger_remote"@,
        name@ != "xray"@,
    ensures
        r.0 == spec_sampler(name@).0,
        r.1@ == spec_sampler(name@).1,
{
    if str_eq(name, "always_on") {
        (SamplerKind::AlwaysOn, owned(name))
    } else if str_eq(name, "always_off") {
        (SamplerKind::AlwaysOff, owned(name))
    } else if str_eq(name, "traceidratio") {
        (SamplerKind::TraceIdRatioBased, owned(name))
    } else if str_eq(name, "parentbased_always_on") {
        (SamplerKind::ParentBasedAlwaysOn, owned(name))
    } else if str_eq(name, "parentbased_always_off") {
        (SamplerKind::ParentBasedAlwaysOff, owned(name))
    } else if str_eq(name, "parentbased_traceidratio") {
        (SamplerKind::ParentBasedTraceIdRatioBased, owned(name))
    } else {
        (SamplerKind::ParentBasedAlwaysOn, owned("parentbased_always_on"))
    }
}

} // verus!

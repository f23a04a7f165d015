//! Trace-context propagation through HTTP headers: writing a propagator's
//! fields into a header map.
use vstd::prelude::*;
use vstd::utf8::{char_u32_cast, encode_scalar, encode_utf8};

verus! {

/// `http::HeaderMap`, the header map of a request or a response.
#[verifier::external_type_specification]
#[verifier::external_body]
#[verifier::reject_recursive_types(T)]
pub struct ExHeaderMap<T>(http::HeaderMap<T>);

/// `http::HeaderValue`, the value of a header, carried through opaque.
#[verifier::external_type_specification]
#[verifier::external_body]
pub struct ExHeaderValue(http::HeaderValue);

/// The number of header names below which a header map never fails to take
/// a new one.
pub const MAX_HEADER_NAMES: usize = 6554;

/// What a header map holds: for each header name (in lower case), its values
/// as bytes, in order.
pub uninterp spec fn header_entries(m: http::HeaderMap) -> Map<Seq<char>, Seq<Seq<u8>>>;

/// The header name that `http::HeaderName::from_bytes` makes of `key` (the
/// key in lower case), or `None` where it refuses `key`.
pub uninterp spec fn spec_header_name(key: Seq<char>) -> Option<Seq<char>>;

/// Whether `http::HeaderValue::from_str` accepts `v`: each of its bytes is a
/// tab, or neither a control byte below a space nor DEL (characters beyond
/// ASCII encode to bytes that qualify).
pub open spec fn spec_header_value_ok(v: Seq<char>) -> bool {
    forall|i: int| 0 <= i < v.len() ==> v[i] == '\t' || (v[i] as u32 >= 32 && v[i] as u32 != 127)
}

/// Calls `http::HeaderName::from_bytes` on the bytes of `key` and tells
/// whether it succeeds. The contract ties the answer to the named parse.
#[verifier::external_body]
fn header_name_valid(key: &str) -> (r: bool)
    ensures
        r == spec_header_name(key@) is Some,
{
    http::header::HeaderName::from_bytes(key.as_bytes()).is_ok()
}

/// Calls `http::HeaderMap::insert` with the header name made of `key` and the
/// header value made of `value` (both accepted, as `requires` says). As the
/// documentation of `insert` says, the name's earlier values are replaced by
/// this one and the other names are left as they were. `insert` panics when
/// the map would outgrow its maximum size. With at most 6553 names present
/// the source never needs to: a map whose largest index table (32768 slots)
/// is in use grows again only once it holds a fifth of that many names
/// (6554), and smaller tables always have room to double.
#[verifier::external_body]
fn insert_header(map: &mut http::HeaderMap, key: &str, value: &str)
    requires
        header_entries(*old(map)).dom().len() < MAX_HEADER_NAMES,
        spec_header_name(key@) is Some,
        spec_header_value_ok(value@),
    ensures
        header_entries(*final(map)) == header_entries(*old(map)).insert(
            spec_header_name(key@)->0,
            seq![encode_utf8(value@)],
        ),
{
    if let (Ok(name), Ok(val)) = (
        http::header::HeaderName::from_bytes(key.as_bytes()),
        http::header::HeaderValue::from_str(value),
    ) {
        map.insert(name, val);
    }
}

/// The contents of a map with no headers.
pub open spec fn no_headers() -> Map<Seq<char>, Seq<Seq<u8>>> {
    Map::empty()
}

/// Calls `http::HeaderMap::new`, which, as its documentation says, creates an
/// empty map.
#[verifier::external_body]
fn header_map_new() -> (r: http::HeaderMap)
    ensures
        header_entries(r) == no_headers(),
{
    http::HeaderMap::new()
}

/// Calls `http::HeaderMap::keys_len`, which, as its documentation says,
/// returns the number of keys (distinct names) stored in the map.
#[verifier::external_body]
fn header_keys_len(map: &http::HeaderMap) -> (r: usize)
    ensures
        r == header_entries(*map).dom().len(),
{
    map.keys_len()
}

/// An empty header map.
pub fn empty_header_map() -> (r: http::HeaderMap)
    ensures
        header_entries(r) == no_headers(),
{
    header_map_new()
}

/// The number of distinct header names in `map`.
pub fn header_name_count(map: &http::HeaderMap) -> (r: usize)
    ensures
        r == header_entries(*map).dom().len(),
{
    header_keys_len(map)
}

/// Whether `v` is a valid header value.
pub fn header_value_ok(v: &str) -> (r: bool)
    ensures
        r == spec_header_value_ok(v@),
{
    let n = v.unicode_len();
    let mut i: usize = 0;
    while i < n
        invariant
            n == v@.len(),
            i <= n,
            forall|k: int| 0 <= k < i ==> v@[k] == '\t' || (v@[k] as u32 >= 32 && v@[k] as u32 != 127),
        decreases n - i,
    {
        let c = v.get_char(i);
        if !(c == '\t' || (c as u32 >= 32 && c as u32 != 127)) {
            return false;
        }
        i = i + 1;
    }
    true
}

/// Writes propagation fields into a header map.
pub struct HeaderInjector<'a>(pub &'a mut http::HeaderMap);

impl<'a> HeaderInjector<'a> {
    /// Sets the header `key` to `value`, replacing its earlier values; does
    /// nothing where `key` is not a valid header name or `value` not a valid
    /// header value.
    pub fn set(&mut self, key: &str, value: String)
        requires
            header_entries(*old(self).0).dom().len() < MAX_HEADER_NAMES,
        ensures
            (spec_header_name(key@) is Some && spec_header_value_ok(value@)) ==> header_entries(
                *final(self).0,
            ) == header_entries(*old(self).0).insert(
                spec_header_name(key@)->0,
                seq![encode_utf8(value@)],
            ),
            !(spec_header_name(key@) is Some && spec_header_value_ok(value@)) ==> header_entries(
                *final(self).0,
            ) == header_entries(*old(self).0),
    {
        if header_name_valid(key) && header_value_ok(value.as_str()) {
            insert_header(self.0, key, value.as_str());
        }
    }
}

/// The texts of a list of string slices.
pub open spec fn str_views(v: Seq<&str>) -> Seq<Seq<char>> {
    v.map_values(|k: &str| k@)
}

/// Whether every byte of `b` is visible ASCII or a tab (what
/// `http::HeaderValue::to_str` accepts).
pub open spec fn visible_ascii(b: Seq<u8>) -> bool {
    forall|i: int| 0 <= i < b.len() ==> b[i] == 9 || (32 <= b[i] < 127)
}

/// The text of visible-ASCII bytes.
pub open spec fn ascii_text(b: Seq<u8>) -> Seq<char> {
    b.map_values(|x: u8| (x as u32) as char)
}

/// The text of the first value of the header `key` in a map holding
/// `entries`, where the key is a valid name, the header is present, and its
/// first value is visible ASCII.
pub open spec fn spec_header_text(entries: Map<Seq<char>, Seq<Seq<u8>>>, key: Seq<char>) -> Option<Seq<char>> {
    match spec_header_name(key) {
        Some(n) => if entries.contains_key(n) && entries[n].len() > 0 && visible_ascii(entries[n][0]) {
            Some(ascii_text(entries[n][0]))
        } else {
            None
        },
        None => None,
    }
}

/// Calls `http::HeaderMap::get` with `key`, then `HeaderValue::to_str` on
/// the value found. The map looks `key` up under the name that
/// `HeaderName::from_bytes` makes of it and returns the first value; `to_str`
/// succeeds on visible ASCII (and tabs) only.
#[verifier::external_body]
fn header_text<'m>(map: &'m http::HeaderMap, key: &str) -> (r: Option<&'m str>)
    ensures
        match r {
            Some(t) => spec_header_text(header_entries(*map), key@) == Some(t@),
            None => spec_header_text(header_entries(*map), key@) is None,
        },
{
    match map.get(key) {
        Some(value) => value.to_str().ok(),
        None => None,
    }
}

/// Calls `http::HeaderMap::keys` and collects the names as text: each name
/// of the map once, in the map's order.
#[verifier::external_body]
fn header_keys<'m>(map: &'m http::HeaderMap) -> (r: Vec<&'m str>)
    ensures
        forall|n: Seq<char>| #[trigger] str_views(r@).contains(n) <==> header_entries(
            *map,
        ).contains_key(n),
        forall|i: int, j: int|
            0 <= i < j < r@.len() ==> (#[trigger] r@[i])@ != (#[trigger] r@[j])@,
{
    map.keys().map(http::HeaderName::as_str).collect()
}

/// Whether `v` is visible ASCII text (tabs included).
pub open spec fn visible_ascii_text(v: Seq<char>) -> bool {
    forall|i: int| 0 <= i < v.len() ==> v[i] == '\t' || (32 <= v[i] as u32 && (v[i] as u32) < 127)
}

proof fn lemma_ascii_roundtrip(v: Seq<char>)
    requires
        visible_ascii_text(v),
    ensures
        visible_ascii(encode_utf8(v)),
        ascii_text(encode_utf8(v)) == v,
    decreases v.len(),
{
    if v.len() > 0 {
        let rest = v.drop_first();
        assert(visible_ascii_text(rest)) by {
            assert forall|i: int| 0 <= i < rest.len() implies rest[i] == '\t' || (32 <= rest[i] as u32
                && (rest[i] as u32) < 127) by {
                assert(rest[i] == v[i + 1]);
            }
        }
        lemma_ascii_roundtrip(rest);
        let c = v[0] as u32;
        assert(c <= 0x7F);
        assert((c & 0x7F) == c) by (bit_vector)
            requires
                c <= 0x7F,
        ;
        let tail = encode_utf8(rest);
        let b = encode_utf8(v);
        assert(encode_scalar(c) =~= seq![c as u8]);
        assert(b =~= seq![c as u8] + tail);
        assert forall|i: int| 0 <= i < b.len() implies b[i] == 9 || (32 <= b[i] < 127) by {
            if i > 0 {
                assert(b[i] == tail[i - 1]);
            }
        }
        assert((c as u8) as u32 == c);
        char_u32_cast(v[0], c);
        assert((((c as u8) as u32) as char) == v[0]);
        assert forall|i: int| 0 <= i < v.len() implies ascii_text(b)[i] == v[i] by {
            if i > 0 {
                assert(b[i] == tail[i - 1]);
                assert(ascii_text(tail)[i - 1] == rest[i - 1]);
            }
        }
        assert(ascii_text(b) =~= v);
    }
}

/// What is written is read back: after `HeaderInjector::set` writes the
/// visible-ASCII text `value` under the valid header key `key`,
/// `HeaderExtractor::get` with the same key gives `value`, whatever the map
/// held before.
pub proof fn lemma_set_then_get(entries: Map<Seq<char>, Seq<Seq<u8>>>, key: Seq<char>, value: Seq<char>)
    requires
        spec_header_name(key) is Some,
        visible_ascii_text(value),
    ensures
        spec_header_value_ok(value),
        spec_header_text(
            entries.insert(spec_header_name(key)->0, seq![encode_utf8(value)]),
            key,
        ) == Some(value),
{
    lemma_ascii_roundtrip(value);
}

/// Reads propagation fields from a header map.
pub struct HeaderExtractor<'a>(pub &'a http::HeaderMap);

impl<'a> HeaderExtractor<'a> {
    /// The first value of the header `key`, where it is present and visible
    /// ASCII text.
    pub fn get(&self, key: &str) -> (r: Option<&'a str>)
        ensures
            match r {
                Some(t) => spec_header_text(header_entries(*self.0), key@) == Some(t@),
                None => spec_header_text(header_entries(*self.0), key@) is None,
            },
    {
        header_text(self.0, key)
    }

    /// The names of the headers, each once.
    pub fn keys(&self) -> (r: Vec<&'a str>)
        ensures
            forall|n: Seq<char>| #[trigger] str_views(r@).contains(n)
                <==> header_entries(*self.0).contains_key(n),
            forall|i: int, j: int|
                0 <= i < j < r@.len() ==> (#[trigger] r@[i])@ != (#[trigger] r@[j])@,
    {
        header_keys(self.0)
    }
}

} // verus!

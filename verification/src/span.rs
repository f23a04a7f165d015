//! Plain-value description of the spans this crate records: their kind and
//! their key-value attributes.
//!
//! The tracing back end turns these values into its own span builders; the
//! decisions about which attributes a span carries are taken here.
use vstd::prelude::*;
use vstd::string::*;

verus! {

/// The role of a span in a trace (OpenTelemetry `SpanKind`).
#[derive(Debug, Clone, Copy, PartialEq, Eq, Structural)]
pub enum SpanKind {
    /// An outbound request to a remote service.
    Client,
    /// The handling of an inbound request.
    Server,
    /// The creation or sending of a message.
    Producer,
    /// The receipt or processing of a message.
    Consumer,
    /// An operation inside the application.
    Internal,
}

/// The status a span ends with (OpenTelemetry `Status`).
#[derive(Debug, Clone)]
pub enum SpanStatus {
    /// No status was set.
    Unset,
    /// The operation succeeded.
    Success,
    /// The operation failed, with a description.
    Error(String),
}

/// Mathematical model of a [`SpanStatus`].
pub enum StatusModel {
    /// No status.
    Unset,
    /// Success.
    Success,
    /// Failure with a description.
    Error(Seq<char>),
}

impl View for SpanStatus {
    type V = StatusModel;

    open spec fn view(&self) -> StatusModel {
        match self {
            SpanStatus::Unset => StatusModel::Unset,
            SpanStatus::Success => StatusModel::Success,
            SpanStatus::Error(d) => StatusModel::Error(d@),
        }
    }
}

/// The value of an attribute.
#[derive(Debug, Clone)]
pub enum AttributeValue {
    /// A boolean.
    Bool(bool),
    /// A signed integer.
    I64(i64),
    /// A string.
    String(String),
    /// A list of strings.
    StringArray(Vec<String>),
}

/// Mathematical model of an [`AttributeValue`].
pub enum ValueModel {
    /// A boolean.
    Bool(bool),
    /// A signed integer.
    I64(i64),
    /// A string.
    Str(Seq<char>),
    /// A list of strings.
    StrArray(Seq<Seq<char>>),
}

/// The views of a list of strings.
pub open spec fn strings_view(v: Seq<String>) -> Seq<Seq<char>> {
    v.map_values(|s: String| s@)
}

impl View for AttributeValue {
    type V = ValueModel;

    open spec fn view(&self) -> ValueModel {
        match self {
            AttributeValue::Bool(b) => ValueModel::Bool(*b),
            AttributeValue::I64(i) => ValueModel::I64(*i),
            AttributeValue::String(s) => ValueModel::Str(s@),
            AttributeValue::StringArray(v) => ValueModel::StrArray(strings_view(v@)),
        }
    }
}

/// A key-value attribute of a span.
#[derive(Debug, Clone)]
pub struct Attribute {
    /// The attribute's key.
    pub key: String,
    /// The attribute's value.
    pub value: AttributeValue,
}

/// Mathematical model of an [`Attribute`].
pub struct AttributeModel {
    /// The key.
    pub key: Seq<char>,
    /// The value.
    pub value: ValueModel,
}

impl View for Attribute {
    type V = AttributeModel;

    open spec fn view(&self) -> AttributeModel {
        AttributeModel { key: self.key@, value: self.value@ }
    }
}

/// The views of a list of attributes.
pub open spec fn attrs_view(v: Seq<Attribute>) -> Seq<AttributeModel> {
    v.map_values(|a: Attribute| a@)
}

/// A string attribute.
pub open spec fn str_attr(key: Seq<char>, value: Seq<char>) -> AttributeModel {
    AttributeModel { key, value: ValueModel::Str(value) }
}

/// A boolean attribute.
pub open spec fn bool_attr(key: Seq<char>, value: bool) -> AttributeModel {
    AttributeModel { key, value: ValueModel::Bool(value) }
}

/// An integer attribute.
pub open spec fn i64_attr(key: Seq<char>, value: i64) -> AttributeModel {
    AttributeModel { key, value: ValueModel::I64(value) }
}

/// A string-list attribute.
pub open spec fn array_attr(key: Seq<char>, value: Seq<Seq<char>>) -> AttributeModel {
    AttributeModel { key, value: ValueModel::StrArray(value) }
}

/// An owned copy of `s`.
pub fn owned(s: &str) -> (r: String)
    ensures
        r@ == s@,
{
    String::from_str(s)
}

/// Concatenation of `a` and `b`.
pub fn concat(a: &str, b: &str) -> (r: String)
    ensures
        r@ == a@ + b@,
{
    let mut r = String::from_str(a);
    r.append(b);
    r
}

/// A copy of the string list `v`.
pub fn clone_strings(v: &Vec<String>) -> (r: Vec<String>)
    ensures
        strings_view(r@) == strings_view(v@),
{
    let mut r: Vec<String> = Vec::new();
    let mut i: usize = 0;
    while i < v.len()
        invariant
            i <= v.len(),
            r@.len() == i,
            strings_view(r@) == strings_view(v@).take(i as int),
        decreases v.len() - i,
    {
        let s = v[i].clone();
        assert(s@ == v@[i as int]@);
        let ghost before = r@;
        r.push(s);
        assert(r@ == before.push(s));
        assert forall|k: int| 0 <= k < i + 1 implies #[trigger] strings_view(r@)[k]
            == strings_view(v@).take(i + 1)[k] by {
            if k < i {
                assert(strings_view(before)[k] == strings_view(v@).take(i as int)[k]);
                assert(r@[k] == before[k]);
            } else {
                assert(r@[k] == s);
            }
        }
        assert(strings_view(r@) =~= strings_view(v@).take(i + 1));
        i = i + 1;
    }
    assert(strings_view(v@).take(v.len() as int) =~= strings_view(v@));
    r
}

/// The view of an optional string.
pub open spec fn opt_str(o: Option<&str>) -> Option<Seq<char>> {
    match o {
        Some(s) => Some(s@),
        None => None,
    }
}

/// The view of an optional owned string.
pub open spec fn opt_string(o: Option<String>) -> Option<Seq<char>> {
    match o {
        Some(s) => Some(s@),
        None => None,
    }
}

/// An integer attribute under `key` when `value` is present, nothing otherwise.
pub open spec fn opt_i64_attr(key: Seq<char>, value: Option<i64>) -> Seq<AttributeModel> {
    match value {
        Some(v) => seq![i64_attr(key, v)],
        None => Seq::empty(),
    }
}

/// A string attribute under `key` when `value` is present, nothing otherwise.
pub open spec fn opt_attr(key: Seq<char>, value: Option<Seq<char>>) -> Seq<AttributeModel> {
    match value {
        Some(v) => seq![str_attr(key, v)],
        None => Seq::empty(),
    }
}

/// Appends a string attribute under `key` when `value` is present.
pub fn push_opt(attrs: &mut Vec<Attribute>, key: &str, value: Option<&str>)
    ensures
        attrs_view(final(attrs)@) == attrs_view(old(attrs)@) + opt_attr(key@, opt_str(value)),
{
    let ghost before = attrs_view(attrs@);
    match value {
        Some(v) => {
            attrs.push(Attribute::string(key, owned(v)));
            assert(attrs_view(attrs@) =~= before + opt_attr(key@, opt_str(value)));
        },
        None => {
            assert(attrs_view(attrs@) =~= before + opt_attr(key@, opt_str(value)));
        },
    }
}

/// Appends a copy of `value` under `key` when it is present.
pub fn push_opt_string(attrs: &mut Vec<Attribute>, key: &str, value: &Option<String>)
    ensures
        attrs_view(final(attrs)@) == attrs_view(old(attrs)@) + opt_attr(key@, opt_string(*value)),
{
    let ghost before = attrs_view(attrs@);
    match value {
        Some(v) => {
            attrs.push(Attribute::string(key, v.clone()));
        },
        None => {},
    }
    assert(attrs_view(attrs@) =~= before + opt_attr(key@, opt_string(*value)));
}

/// Appends an integer attribute under `key` when `value` is present.
pub fn push_opt_i64(attrs: &mut Vec<Attribute>, key: &str, value: Option<i64>)
    ensures
        attrs_view(final(attrs)@) == attrs_view(old(attrs)@) + opt_i64_attr(key@, value),
{
    let ghost before = attrs_view(attrs@);
    match value {
        Some(v) => {
            attrs.push(Attribute::i64(key, v));
        },
        None => {},
    }
    assert(attrs_view(attrs@) =~= before + opt_i64_attr(key@, value));
}

/// A boolean attribute under `key` when `value` is present, nothing otherwise.
pub open spec fn opt_bool_attr(key: Seq<char>, value: Option<bool>) -> Seq<AttributeModel> {
    match value {
        Some(v) => seq![bool_attr(key, v)],
        None => Seq::empty(),
    }
}

/// An integer attribute under `key` holding the count `n`, when `n` fits in
/// an `i64`; nothing otherwise.
pub open spec fn count_attr(key: Seq<char>, n: usize) -> Seq<AttributeModel> {
    if n <= i64::MAX {
        seq![i64_attr(key, n as i64)]
    } else {
        Seq::empty()
    }
}

/// A count attribute under `key` when the count is present.
pub open spec fn opt_count_attr(key: Seq<char>, n: Option<usize>) -> Seq<AttributeModel> {
    match n {
        Some(c) => count_attr(key, c),
        None => Seq::empty(),
    }
}

/// The view of an optional `i32` as an attribute value.
pub open spec fn widen(v: Option<i32>) -> Option<i64> {
    match v {
        Some(x) => Some(x as i64),
        None => None,
    }
}

/// The string, or the empty string when there is none.
pub open spec fn or_empty(o: Option<Seq<char>>) -> Seq<char> {
    match o {
        Some(s) => s,
        None => Seq::empty(),
    }
}

/// The string, or the empty string when there is none.
pub fn unwrap_or_empty(o: Option<&str>) -> (r: &str)
    ensures
        r@ == or_empty(opt_str(o)),
{
    match o {
        Some(s) => s,
        None => {
            proof {
                reveal_strlit("");
                assert(""@ =~= Seq::<char>::empty());
            }
            ""
        },
    }
}

/// Appends a boolean attribute under `key` when `value` is present.
pub fn push_opt_bool(attrs: &mut Vec<Attribute>, key: &str, value: Option<bool>)
    ensures
        attrs_view(final(attrs)@) == attrs_view(old(attrs)@) + opt_bool_attr(key@, value),
{
    let ghost before = attrs_view(attrs@);
    match value {
        Some(v) => {
            attrs.push(Attribute::bool(key, v));
        },
        None => {},
    }
    assert(attrs_view(attrs@) =~= before + opt_bool_attr(key@, value));
}

/// Appends an integer attribute under `key` when the `i32` `value` is present.
pub fn push_opt_i32(attrs: &mut Vec<Attribute>, key: &str, value: Option<i32>)
    ensures
        attrs_view(final(attrs)@) == attrs_view(old(attrs)@) + opt_i64_attr(key@, widen(value)),
{
    let wide: Option<i64> = match value {
        Some(v) => Some(v as i64),
        None => None,
    };
    push_opt_i64(attrs, key, wide);
}

/// Appends the count `n` under `key` when it fits in an `i64`.
pub fn push_count(attrs: &mut Vec<Attribute>, key: &str, n: usize)
    ensures
        attrs_view(final(attrs)@) == attrs_view(old(attrs)@) + count_attr(key@, n),
{
    let ghost before = attrs_view(attrs@);
    if n as u128 <= i64::MAX as u128 {
        attrs.push(Attribute::i64(key, n as i64));
    }
    assert(attrs_view(attrs@) =~= before + count_attr(key@, n));
}

/// Appends the count `n` under `key` when it is present and fits in an `i64`.
pub fn push_opt_count(attrs: &mut Vec<Attribute>, key: &str, n: Option<usize>)
    ensures
        attrs_view(final(attrs)@) == attrs_view(old(attrs)@) + opt_count_attr(key@, n),
{
    match n {
        Some(c) => push_count(attrs, key, c),
        None => {
            assert(attrs_view(attrs@) =~= attrs_view(attrs@) + opt_count_attr(key@, n));
        },
    }
}

/// A string-list attribute under `key` when `value` is present.
pub open spec fn opt_array_attr(key: Seq<char>, value: Option<Seq<Seq<char>>>) -> Seq<AttributeModel> {
    match value {
        Some(v) => seq![array_attr(key, v)],
        None => Seq::empty(),
    }
}

/// The view of an optional string list.
pub open spec fn opt_strings(value: Option<Vec<String>>) -> Option<Seq<Seq<char>>> {
    match value {
        Some(v) => Some(strings_view(v@)),
        None => None,
    }
}

/// Appends a string-list attribute under `key` when `value` is present.
pub fn push_opt_strings(attrs: &mut Vec<Attribute>, key: &str, value: Option<Vec<String>>)
    ensures
        attrs_view(final(attrs)@) == attrs_view(old(attrs)@) + opt_array_attr(key@, opt_strings(value)),
{
    let ghost before = attrs_view(attrs@);
    let ghost vv = opt_strings(value);
    match value {
        Some(v) => {
            attrs.push(Attribute::array(key, v));
        },
        None => {},
    }
    assert(attrs_view(attrs@) =~= before + opt_array_attr(key@, vv));
}

/// A list holding one copy of `s`.
pub fn one_string(s: &str) -> (r: Vec<String>)
    ensures
        strings_view(r@) == seq![s@],
{
    let mut r: Vec<String> = Vec::new();
    r.push(owned(s));
    assert(strings_view(r@) =~= seq![s@]);
    r
}

/// An empty list of strings.
pub fn no_strings() -> (r: Vec<String>)
    ensures
        strings_view(r@) == Seq::<Seq<char>>::empty(),
{
    let r: Vec<String> = Vec::new();
    assert(strings_view(r@) =~= Seq::<Seq<char>>::empty());
    r
}

impl Attribute {
    /// A string attribute.
    pub fn string(key: &str, value: String) -> (r: Attribute)
        ensures
            r@ == str_attr(key@, value@),
    {
        Attribute { key: owned(key), value: AttributeValue::String(value) }
    }

    /// A boolean attribute.
    pub fn bool(key: &str, value: bool) -> (r: Attribute)
        ensures
            r@ == bool_attr(key@, value),
    {
        Attribute { key: owned(key), value: AttributeValue::Bool(value) }
    }

    /// An integer attribute.
    pub fn i64(key: &str, value: i64) -> (r: Attribute)
        ensures
            r@ == i64_attr(key@, value),
    {
        Attribute { key: owned(key), value: AttributeValue::I64(value) }
    }

    /// A string-list attribute.
    pub fn array(key: &str, value: Vec<String>) -> (r: Attribute)
        ensures
            r@ == array_attr(key@, strings_view(value@)),
    {
        Attribute { key: owned(key), value: AttributeValue::StringArray(value) }
    }
}

} // verus!

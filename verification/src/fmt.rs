//! The JSON event format: what it writes for each span of an event's scope.
use vstd::prelude::*;

use crate::span::owned;
use crate::text::str_eq;

verus! {

/// The JSON format of log events: a timestamp, the level, the event's
/// fields, the target, the spans in scope, and the trace and span ids.
pub struct JsonFormat;

/// The formatted fields of a span, as the formatter finds them.
pub enum SpanFields {
    /// The span has no formatted fields.
    Missing,
    /// The fields, read as a JSON object of strings, in the order read.
    Parsed(Vec<(String, String)>),
    /// The fields could not be read as such an object.
    Unparsed {
        /// The fields as formatted.
        raw: String,
        /// The description of the parse error.
        error: String,
    },
}

/// The view of a list of string pairs.
pub open spec fn pairs_view(v: Seq<(String, String)>) -> Seq<(Seq<char>, Seq<char>)> {
    v.map_values(|p: (String, String)| (p.0@, p.1@))
}

/// The entries written for the parsed fields `pairs` of a span named `name`:
/// every field but `name`, in order, and the name the span ends up with (the
/// value of its last `name` field, or `name`).
pub open spec fn parsed_entries(pairs: Seq<(Seq<char>, Seq<char>)>, name: Seq<char>) -> (Seq<(Seq<char>, Seq<char>)>, Seq<char>)
    decreases pairs.len(),
{
    if pairs.len() == 0 {
        (Seq::empty(), name)
    } else {
        let (k, v) = pairs[0];
        let (rest, n) = parsed_entries(pairs.drop_first(), if k == "name"@ { v } else { name });
        (if k == "name"@ { rest } else { seq![(k, v)] + rest }, n)
    }
}

/// The entries written for a span named `name` with fields `fields`: the
/// fields (or, where they cannot be read, the raw fields and the error), then
/// the span's name.
pub open spec fn spec_span_entries(name: Seq<char>, fields: SpanFields) -> Seq<(Seq<char>, Seq<char>)> {
    match fields {
        SpanFields::Missing => seq![("name"@, name)],
        SpanFields::Parsed(pairs) => {
            let (entries, n) = parsed_entries(pairs_view(pairs@), name);
            entries.push(("name"@, n))
        },
        SpanFields::Unparsed { raw, error } => seq![
            ("raw_fields"@, raw@),
            ("fields_error"@, error@),
            ("name"@, name),
        ],
    }
}

proof fn lemma_parsed_entries_split(pairs: Seq<(Seq<char>, Seq<char>)>, i: int, name: Seq<char>)
    requires
        0 <= i < pairs.len(),
    ensures
        ({
            let (front, n1) = parsed_entries(pairs.take(i), name);
            let (k, v) = pairs[i];
            let (whole, n) = parsed_entries(pairs.take(i + 1), name);
            &&& n == (if k == "name"@ { v } else { n1 })
            &&& whole == (if k == "name"@ { front } else { front.push((k, v)) })
        }),
    decreases i,
{
    if i > 0 {
        let (k0, v0) = pairs[0];
        let name1 = if k0 == "name"@ { v0 } else { name };
        let tail = pairs.drop_first();
        lemma_parsed_entries_split(tail, i - 1, name1);
        assert(pairs.take(i).drop_first() =~= tail.take(i - 1));
        assert(pairs.take(i + 1).drop_first() =~= tail.take(i));
        assert(tail[i - 1] == pairs[i]);
        assert(pairs.take(i)[0] == pairs[0]);
        assert(pairs.take(i + 1)[0] == pairs[0]);
        assert(pairs.take(i).len() > 0);
        let (front_t, _) = parsed_entries(tail.take(i - 1), name1);
        let (k, v) = pairs[i];
        if k0 != "name"@ {
            assert(seq![(k0, v0)] + front_t.push((k, v)) =~= (seq![(k0, v0)] + front_t).push((k, v)));
        }
    } else {
        assert(pairs.take(0) =~= Seq::<(Seq<char>, Seq<char>)>::empty());
        assert(pairs.take(1).drop_first() =~= Seq::<(Seq<char>, Seq<char>)>::empty());
        assert(pairs.take(1)[0] == pairs[0]);
        let (k, v) = pairs[0];
        let nm = if k == "name"@ { v } else { name };
        assert(parsed_entries(Seq::<(Seq<char>, Seq<char>)>::empty(), nm) == (Seq::<(Seq<char>, Seq<char>)>::empty(), nm));
        if k != "name"@ {
            assert(seq![(k, v)] + Seq::<(Seq<char>, Seq<char>)>::empty() =~= Seq::<(Seq<char>, Seq<char>)>::empty().push((k, v)));
        }
    }
}

/// Whether the keys of `p` are distinct.
pub open spec fn spec_distinct_keys(p: Seq<(Seq<char>, Seq<char>)>) -> bool {
    forall|i: int, j: int| 0 <= i < j < p.len() ==> #[trigger] p[i].0 != #[trigger] p[j].0
}

/// The map from each key of `p` to its value (the last one, where a key
/// repeats).
pub open spec fn pairs_map(p: Seq<(Seq<char>, Seq<char>)>) -> Map<Seq<char>, Seq<char>>
    decreases p.len(),
{
    if p.len() == 0 {
        Map::empty()
    } else {
        pairs_map(p.drop_last()).insert(p.last().0, p.last().1)
    }
}

/// What `serde_json::from_str::<HashMap<&str, &str>>` makes of `s`: the
/// object's keys and (unescaped, borrowed) string values where `s` is a JSON
/// object of strings that it can read, `None` where it fails.
pub uninterp spec fn spec_json_string_object(s: Seq<char>) -> Option<Map<Seq<char>, Seq<char>>>;

/// Calls `serde_json::from_str::<HashMap<&str, &str>>` on `s` and hands the
/// map's entries out as owned pairs (in the map's iteration order, which is
/// left open), or the `Debug` text of the error. The contract names the map:
/// on success the pairs hold distinct keys (they come from one `HashMap`) and
/// make up exactly the named map; on failure the name is `None`. The error
/// text is not stated.
#[verifier::external_body]
fn parse_json_string_object(s: &str) -> (r: Result<Vec<(String, String)>, String>)
    ensures
        match r {
            Ok(p) => spec_distinct_keys(pairs_view(p@)) && spec_json_string_object(s@) == Some(
                pairs_map(pairs_view(p@)),
            ),
            Err(_) => spec_json_string_object(s@) is None,
        },
{
    match serde_json::from_str::<std::collections::HashMap<&str, &str>>(s) {
        Ok(data) => Ok(data.into_iter().map(|(k, v)| (k.to_owned(), v.to_owned())).collect()),
        Err(err) => Err(format!("{err:?}")),
    }
}

/// The formatted fields `raw` of a span, given what reading them as a JSON
/// object of strings gave (`parsed`): the pairs read, or the raw text with
/// the error.
pub fn fields_from_parse(raw: &str, parsed: Result<Vec<(String, String)>, String>) -> (r: SpanFields)
    ensures
        match parsed {
            Ok(p) => r == SpanFields::Parsed(p),
            Err(e) => r matches SpanFields::Unparsed { raw: t, error } && t@ == raw@ && error == e,
        },
{
    match parsed {
        Ok(p) => SpanFields::Parsed(p),
        Err(e) => SpanFields::Unparsed { raw: owned(raw), error: e },
    }
}

/// The fields of a span whose formatted fields are `raw` (`None` when it has
/// none): missing, read as a JSON object of strings, or kept raw where they
/// cannot be read so.
pub fn span_fields(raw: Option<&str>) -> (r: SpanFields)
    ensures
        raw is None <==> r is Missing,
        r matches SpanFields::Parsed(p) ==> raw matches Some(s) && spec_distinct_keys(
            pairs_view(p@),
        ) && spec_json_string_object(s@) == Some(pairs_map(pairs_view(p@))),
        r matches SpanFields::Unparsed { raw: t, .. } ==> raw matches Some(s) && t@ == s@
            && spec_json_string_object(s@) is None,
{
    match raw {
        None => SpanFields::Missing,
        Some(s) => {
            let parsed = parse_json_string_object(s);
            fields_from_parse(s, parsed)
        },
    }
}

impl JsonFormat {
    /// The entries written for a span named `name` with formatted fields
    /// `fields`.
    pub fn span_entries(name: &str, fields: SpanFields) -> (r: Vec<(String, String)>)
        ensures
            pairs_view(r@) == spec_span_entries(name@, fields),
    {
        let ghost f = fields;
        let mut out: Vec<(String, String)> = Vec::new();
        match fields {
            SpanFields::Missing => {
                out.push((owned("name"), owned(name)));
                assert(pairs_view(out@) =~= spec_span_entries(name@, f));
            },
            SpanFields::Parsed(pairs) => {
                let ghost pv = pairs_view(pairs@);
                let mut current = owned(name);
                let mut i: usize = 0;
                assert(pv.take(0) =~= Seq::<(Seq<char>, Seq<char>)>::empty());
                while i < pairs.len()
                    invariant
                        i <= pairs.len(),
                        pv == pairs_view(pairs@),
                        pv.len() == pairs@.len(),
                        (pairs_view(out@), current@) == parsed_entries(pv.take(i as int), name@),
                    decreases pairs.len() - i,
                {
                    proof {
                        lemma_parsed_entries_split(pv, i as int, name@);
                    }
                    let (k, v) = &pairs[i];
                    assert(pv[i as int] == (k@, v@));
                    let ghost before = pairs_view(out@);
                    if str_eq(k.as_str(), "name") {
                        current = v.clone();
                    } else {
                        out.push((k.clone(), v.clone()));
                        assert(pairs_view(out@) =~= before.push((k@, v@)));
                    }
                    i = i + 1;
                }
                assert(pv.take(pairs.len() as int) =~= pv);
                let ghost before = pairs_view(out@);
                out.push((owned("name"), current));
                assert(pairs_view(out@) =~= before.push(("name"@, parsed_entries(pv, name@).1)));
            },
            SpanFields::Unparsed { raw, error } => {
                out.push((owned("raw_fields"), raw));
                out.push((owned("fields_error"), error));
                out.push((owned("name"), owned(name)));
                assert(pairs_view(out@) =~= spec_span_entries(name@, f));
            },
        }
        out
    }
}

} // verus!

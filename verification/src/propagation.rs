//! Which context propagation formats are used, read from `OTEL_PROPAGATORS`.
//!
//! The propagators themselves are built by the tracing back end from the
//! kinds chosen here.
use vstd::prelude::*;

use crate::span::{concat, owned, strings_view};
use crate::text::{
    debug_str, spec_debug_text, spec_lowercase, spec_split_char, spec_trim, split_char, str_eq,
    to_lowercase, trim,
};

verus! {

/// A propagator that injects nothing and extracts the context it is given.
#[derive(Debug, Clone, Copy, PartialEq, Eq, Structural)]
pub struct NonePropagator;

impl NonePropagator {
    /// The header fields it reads and writes: none.
    pub fn fields(&self) -> (r: Vec<String>)
        ensures
            r@.len() == 0,
    {
        Vec::new()
    }
}

/// A context propagation format.
#[derive(Debug, Clone, Copy, PartialEq, Eq, Structural)]
pub enum PropagatorKind {
    /// W3C Trace Context.
    TraceContext,
    /// W3C Baggage.
    Baggage,
    /// No propagation ([`NonePropagator`]).
    NoPropagation,
    /// B3 in a single header.
    B3Single,
    /// B3 in multiple headers.
    B3Multi,
    /// B3 in a single header and in multiple headers.
    B3SingleAndMulti,
    /// AWS X-Ray.
    Xray,
}

/// The propagators of a split propagator: contexts are extracted with each of
/// `extract` in turn and injected with `inject`.
#[derive(Debug, Clone)]
pub struct PropagatorConfig {
    /// The propagators tried when extracting.
    pub extract: Vec<PropagatorKind>,
    /// The propagator used when injecting.
    pub inject: PropagatorKind,
}

/// A name in `OTEL_PROPAGATORS` that names no supported format.
#[derive(Debug, Clone)]
pub struct UnsupportedPropagator {
    /// The name, trimmed.
    pub name: String,
}

impl UnsupportedPropagator {
    /// `unsupported propagator form env OTEL_PROPAGATORS: "<name>"`.
    pub fn message(&self) -> (r: String)
        ensures
            r@ == "unsupported propagator form env OTEL_PROPAGATORS: "@ + spec_debug_text(
                self.name@,
            ),
    {
        let q = debug_str(self.name.as_str());
        concat("unsupported propagator form env OTEL_PROPAGATORS: ", q.as_str())
    }
}

/// The format that the (trimmed) name `v` names.
pub open spec fn spec_propagator_kind(v: Seq<char>) -> Option<PropagatorKind> {
    if v == "tracecontext"@ {
        Some(PropagatorKind::TraceContext)
    } else if v == "baggage"@ {
        Some(PropagatorKind::Baggage)
    } else if v == "none"@ {
        Some(PropagatorKind::NoPropagation)
    } else if v == "b3"@ {
        Some(PropagatorKind::B3Single)
    } else if v == "b3multi"@ {
        Some(PropagatorKind::B3Multi)
    } else if v == "xray"@ {
        Some(PropagatorKind::Xray)
    } else {
        None
    }
}

/// The supported propagator names, each naming its own format:
/// `tracecontext` (W3C Trace Context), `baggage` (W3C Baggage), `none`, `b3`
/// (single header), `b3multi` (multiple headers) and `xray` (AWS X-Ray); no
/// other name is supported.
pub proof fn lemma_propagator_names(v: Seq<char>)
    ensures
        v == "tracecontext"@ ==> spec_propagator_kind(v) == Some(PropagatorKind::TraceContext),
        v == "baggage"@ ==> spec_propagator_kind(v) == Some(PropagatorKind::Baggage),
        v == "none"@ ==> spec_propagator_kind(v) == Some(PropagatorKind::NoPropagation),
        v == "b3"@ ==> spec_propagator_kind(v) == Some(PropagatorKind::B3Single),
        v == "b3multi"@ ==> spec_propagator_kind(v) == Some(PropagatorKind::B3Multi),
        v == "xray"@ ==> spec_propagator_kind(v) == Some(PropagatorKind::Xray),
        !(v == "tracecontext"@ || v == "baggage"@ || v == "none"@ || v == "b3"@ || v == "b3multi"@
            || v == "xray"@) ==> spec_propagator_kind(v) is None,
{
    reveal_strlit("tracecontext");
    reveal_strlit("baggage");
    reveal_strlit("none");
    reveal_strlit("b3");
    reveal_strlit("b3multi");
    reveal_strlit("xray");
    assert("tracecontext"@.len() == 12);
    assert("baggage"@.len() == 7);
    assert("none"@.len() == 4);
    assert("b3"@.len() == 2);
    assert("b3multi"@.len() == 7);
    assert("xray"@.len() == 4);
    assert("baggage"@[0] != "b3multi"@[0] || "baggage"@[1] != "b3multi"@[1]);
    assert("none"@[0] != "xray"@[0]);
}

/// The format named by `v` (surrounding whitespace ignored): `tracecontext`,
/// `baggage`, `none`, `b3`, `b3multi` or `xray`.
pub fn propagator_from_string(v: &str) -> (r: Result<PropagatorKind, UnsupportedPropagator>)
    ensures
        r matches Ok(k) ==> spec_propagator_kind(spec_trim(v@)) == Some(k),
        r matches Err(e) ==> spec_propagator_kind(spec_trim(v@)) is None && e.name@ == spec_trim(
            v@,
        ),
{
    let t = trim(v);
    if str_eq(t, "tracecontext") {
        Ok(PropagatorKind::TraceContext)
    } else if str_eq(t, "baggage") {
        Ok(PropagatorKind::Baggage)
    } else if str_eq(t, "none") {
        Ok(PropagatorKind::NoPropagation)
    } else if str_eq(t, "b3") {
        Ok(PropagatorKind::B3Single)
    } else if str_eq(t, "b3multi") {
        Ok(PropagatorKind::B3Multi)
    } else if str_eq(t, "xray") {
        Ok(PropagatorKind::Xray)
    } else {
        Err(UnsupportedPropagator { name: owned(t) })
    }
}

/// The names listed in `OTEL_PROPAGATORS`: the pieces between commas, trimmed
/// and in lower case (ASCII lower case for an ASCII piece), the empty ones
/// left out.
pub open spec fn spec_propagator_names(pieces: Seq<Seq<char>>) -> Seq<Seq<char>>
    decreases pieces.len(),
{
    if pieces.len() == 0 {
        seq![]
    } else {
        let n = spec_lowercase(spec_trim(pieces[0]));
        let rest = spec_propagator_names(pieces.drop_first());
        if n.len() == 0 {
            rest
        } else {
            seq![n] + rest
        }
    }
}

/// The formats that `names` name, or the first name that names none.
pub open spec fn spec_propagator_kinds(names: Seq<Seq<char>>) -> Result<
    Seq<PropagatorKind>,
    Seq<char>,
>
    decreases names.len(),
{
    if names.len() == 0 {
        Ok(seq![])
    } else {
        match spec_propagator_kind(spec_trim(names[0])) {
            None => Err(spec_trim(names[0])),
            Some(k) => match spec_propagator_kinds(names.drop_first()) {
                Ok(ks) => Ok(seq![k] + ks),
                Err(e) => Err(e),
            },
        }
    }
}

/// The default propagators: extraction by Trace Context then B3 (single and
/// multiple headers), injection by Trace Context.
pub fn default_propagators() -> (r: PropagatorConfig)
    ensures
        r.extract@ == seq![PropagatorKind::TraceContext, PropagatorKind::B3SingleAndMulti],
        r.inject == PropagatorKind::TraceContext,
{
    let mut extract = Vec::new();
    extract.push(PropagatorKind::TraceContext);
    extract.push(PropagatorKind::B3SingleAndMulti);
    assert(extract@ =~= seq![PropagatorKind::TraceContext, PropagatorKind::B3SingleAndMulti]);
    PropagatorConfig { extract, inject: PropagatorKind::TraceContext }
}

/// The propagators that the value of `OTEL_PROPAGATORS` selects (`None` when
/// the variable is unset): the defaults when unset; otherwise extraction by
/// every format listed, in order, and injection by the first one (by none when
/// the list is empty). An unknown name is an error.
pub open spec fn spec_propagators_from_env(value: Option<Seq<char>>) -> Result<
    (Seq<PropagatorKind>, PropagatorKind),
    Seq<char>,
> {
    match value {
        None => Ok(
            (seq![PropagatorKind::TraceContext, PropagatorKind::B3SingleAndMulti], PropagatorKind::TraceContext),
        ),
        Some(v) => {
            let names = spec_propagator_names(spec_split_char(v, ','));
            match spec_propagator_kinds(names) {
                Err(e) => Err(e),
                Ok(ks) => Ok(
                    (ks, if ks.len() == 0 {
                        PropagatorKind::NoPropagation
                    } else {
                        ks[0]
                    }),
                ),
            }
        },
    }
}

/// Reads the propagators from the value of `OTEL_PROPAGATORS` (see
/// [`spec_propagators_from_env`]).
pub fn propagators_from_env(value: Option<&str>) -> (r: Result<
    PropagatorConfig,
    UnsupportedPropagator,
>)
    ensures
        match (r, spec_propagators_from_env(
            match value {
                Some(v) => Some(v@),
                None => None,
            },
        )) {
            (Ok(c), Ok((ks, k))) => c.extract@ == ks && c.inject == k,
            (Err(e), Err(n)) => e.name@ == n,
            _ => false,
        },
{
    let v = match value {
        Some(v) => v,
        None => {
            return Ok(default_propagators());
        },
    };
    let pieces = split_char(v, ',');
    let ghost pv = pieces@.map_values(|w: &str| w@);
    // The listed names, trimmed and in lower case.
    let mut names: Vec<String> = Vec::new();
    let mut i: usize = 0;
    assert(pv.skip(0) =~= pv);
    while i < pieces.len()
        invariant
            i <= pieces@.len(),
            pv == pieces@.map_values(|w: &str| w@),
            spec_propagator_names(pv) == strings_view(names@) + spec_propagator_names(
                pv.skip(i as int),
            ),
        decreases pieces.len() - i,
    {
        let ghost rest = pv.skip(i as int);
        assert(rest[0] == pieces@[i as int]@);
        assert(rest.drop_first() =~= pv.skip(i + 1 as int));
        let n = to_lowercase(trim(pieces[i]));
        let ghost before = strings_view(names@);
        if n.as_str().unicode_len() > 0 {
            let ghost nv = n@;
            names.push(n);
            assert(strings_view(names@) =~= before.push(nv));
            assert(before.push(nv) + spec_propagator_names(pv.skip(i + 1 as int)) =~= before + (
            seq![nv] + spec_propagator_names(pv.skip(i + 1 as int))));
        }
        i = i + 1;
    }
    assert(pv.skip(pieces.len() as int) =~= Seq::<Seq<char>>::empty());
    assert(strings_view(names@) + Seq::<Seq<char>>::empty() =~= strings_view(names@));
    let ghost nv = strings_view(names@);
    // Their formats.
    let mut kinds: Vec<PropagatorKind> = Vec::new();
    let mut j: usize = 0;
    assert(nv.skip(0) =~= nv);
    while j < names.len()
        invariant
            j <= names@.len(),
            nv == strings_view(names@),
            nv == spec_propagator_names(spec_split_char(v@, ',')),
            value == Some(v),
            spec_propagator_kinds(nv) == match spec_propagator_kinds(nv.skip(j as int)) {
                Ok(ks) => Ok(kinds@ + ks),
                Err(e) => Err(e),
            },
        decreases names.len() - j,
    {
        let ghost rest = nv.skip(j as int);
        assert(rest[0] == names@[j as int]@);
        assert(rest.drop_first() =~= nv.skip(j + 1 as int));
        match propagator_from_string(names[j].as_str()) {
            Ok(k) => {
                let ghost before = kinds@;
                kinds.push(k);
                assert(kinds@ =~= before.push(k));
                assert(forall|ks: Seq<PropagatorKind>| #[trigger] (before.push(k) + ks) =~= before
                    + (seq![k] + ks));
            },
            Err(e) => {
                return Err(e);
            },
        }
        j = j + 1;
    }
    assert(nv.skip(names.len() as int) =~= Seq::<Seq<char>>::empty());
    assert(kinds@ + Seq::<PropagatorKind>::empty() =~= kinds@);
    let inject = if kinds.len() == 0 {
        PropagatorKind::NoPropagation
    } else {
        kinds[0]
    };
    Ok(PropagatorConfig { extract: kinds, inject })
}

/// Lexicographic order of strings by code point, the order of `str`'s `Ord`.
pub open spec fn spec_lex_lt(a: Seq<char>, b: Seq<char>) -> bool
    decreases a.len(),
{
    if a.len() == 0 {
        b.len() > 0
    } else if b.len() == 0 {
        false
    } else if a[0] != b[0] {
        a[0] < b[0]
    } else {
        spec_lex_lt(a.drop_first(), b.drop_first())
    }
}

/// `spec_lex_lt` is a strict total order: exactly one of `a < b`, `a == b`, `b < a`.
pub proof fn lemma_lex_total(a: Seq<char>, b: Seq<char>)
    ensures
        a == b || spec_lex_lt(a, b) || spec_lex_lt(b, a),
        !(spec_lex_lt(a, b) && spec_lex_lt(b, a)),
        !spec_lex_lt(a, a),
    decreases a.len(),
{
    if a.len() > 0 && b.len() > 0 && a[0] == b[0] {
        lemma_lex_total(a.drop_first(), b.drop_first());
        if a.drop_first() == b.drop_first() {
            assert(a =~= b) by {
                assert forall|i: int| 0 <= i < a.len() implies a[i] == b[i] by {
                    if i > 0 {
                        assert(a[i] == a.drop_first()[i - 1]);
                        assert(b[i] == b.drop_first()[i - 1]);
                    }
                }
            }
        }
    }
    if a.len() > 0 {
        lemma_lex_total(a.drop_first(), a.drop_first());
    }
    if a.len() == 0 && b.len() == 0 {
        assert(a =~= b);
    }
}

/// `spec_lex_lt` is transitive.
pub proof fn lemma_lex_trans(a: Seq<char>, b: Seq<char>, c: Seq<char>)
    requires
        spec_lex_lt(a, b),
        spec_lex_lt(b, c),
    ensures
        spec_lex_lt(a, c),
    decreases a.len(),
{
    if a.len() > 0 && a[0] == b[0] && b[0] == c[0] {
        lemma_lex_trans(a.drop_first(), b.drop_first(), c.drop_first());
    }
}

/// Whether `a` comes before `b` in the order of `str`.
pub fn str_lt(a: &str, b: &str) -> (r: bool)
    ensures
        r == spec_lex_lt(a@, b@),
{
    let n = a.unicode_len();
    let m = b.unicode_len();
    let mut i: usize = 0;
    assert(a@.skip(0) =~= a@);
    assert(b@.skip(0) =~= b@);
    while i < n && i < m
        invariant
            n == a@.len(),
            m == b@.len(),
            i <= n,
            i <= m,
            spec_lex_lt(a@, b@) == spec_lex_lt(a@.skip(i as int), b@.skip(i as int)),
        decreases n - i,
    {
        let x = a.get_char(i);
        let y = b.get_char(i);
        assert(a@.skip(i as int)[0] == x);
        assert(b@.skip(i as int)[0] == y);
        if x != y {
            return x < y;
        }
        assert(a@.skip(i as int).drop_first() =~= a@.skip(i + 1));
        assert(b@.skip(i as int).drop_first() =~= b@.skip(i + 1));
        i = i + 1;
    }
    i == n && i < m
}

/// Whether the strings `s` are in strictly increasing order (so none repeats).
pub open spec fn spec_strictly_sorted(s: Seq<Seq<char>>) -> bool {
    forall|i: int, j: int| 0 <= i < j < s.len() ==> spec_lex_lt(#[trigger] s[i], #[trigger] s[j])
}

/// Adds `x` to the strictly sorted list `r`, keeping it strictly sorted.
fn insert_sorted(r: &mut Vec<String>, x: &str)
    requires
        spec_strictly_sorted(strings_view(old(r)@)),
    ensures
        spec_strictly_sorted(strings_view(final(r)@)),
        forall|y: Seq<char>| #[trigger] strings_view(final(r)@).contains(y) <==> (strings_view(
            old(r)@,
        ).contains(y) || y == x@),
{
    let ghost old_v = strings_view(r@);
    let n = r.len();
    let mut p: usize = 0;
    while p < n && str_lt(r[p].as_str(), x)
        invariant
            n == r@.len(),
            old_v == strings_view(r@),
            p <= n,
            forall|i: int| 0 <= i < p ==> spec_lex_lt(#[trigger] old_v[i], x@),
        decreases n - p,
    {
        assert(old_v[p as int] == r@[p as int]@);
        p = p + 1;
    }
    if p < n {
        assert(old_v[p as int] == r@[p as int]@);
        if str_eq(r[p].as_str(), x) {
            assert(old_v.contains(x@)) by {
                assert(old_v[p as int] == x@);
            }
            return;
        }
        proof {
            lemma_lex_total(old_v[p as int], x@);
        }
    }
    let ghost xv = x@;
    r.insert(p, owned(x));
    let ghost new_v = strings_view(r@);
    assert(new_v =~= old_v.insert(p as int, xv));
    assert forall|i: int, j: int| 0 <= i < j < new_v.len() implies spec_lex_lt(
        #[trigger] new_v[i],
        #[trigger] new_v[j],
    ) by {
        if j < p {
        } else if j == p {
        } else if i < p {
            if j - 1 == p as int {
                lemma_lex_trans(old_v[i], xv, old_v[p as int]);
            } else {
                lemma_lex_trans(old_v[i], xv, old_v[p as int]);
                lemma_lex_trans(old_v[i], old_v[p as int], old_v[j - 1]);
            }
        } else if i == p {
            if j - 1 > p {
                lemma_lex_trans(xv, old_v[p as int], old_v[j - 1]);
            }
        } else {
        }
    }
    assert forall|y: Seq<char>| #[trigger] new_v.contains(y) <==> (old_v.contains(y) || y == xv) by {
        if new_v.contains(y) {
            let k = choose|k: int| 0 <= k < new_v.len() && #[trigger] new_v[k] == y;
            if k < p {
                assert(old_v[k] == y);
            } else if k > p {
                assert(old_v[k - 1] == y);
            }
        }
        if old_v.contains(y) {
            let k = choose|k: int| 0 <= k < old_v.len() && #[trigger] old_v[k] == y;
            if k < p {
                assert(new_v[k] == y);
            } else {
                assert(new_v[k + 1] == y);
            }
        }
        if y == xv {
            assert(new_v[p as int] == y);
        }
    }
}

/// The header fields of a split propagator: those of its extracting and of its
/// injecting propagators, each once, in the order of `str`.
pub fn merge_fields(extract: &Vec<String>, inject: &Vec<String>) -> (r: Vec<String>)
    ensures
        spec_strictly_sorted(strings_view(r@)),
        forall|y: Seq<char>| #[trigger] strings_view(r@).contains(y) <==> (strings_view(
            extract@,
        ).contains(y) || strings_view(inject@).contains(y)),
{
    let mut r: Vec<String> = Vec::new();
    let ghost ev = strings_view(extract@);
    let ghost iv = strings_view(inject@);
    let mut i: usize = 0;
    while i < extract.len()
        invariant
            i <= extract@.len(),
            ev == strings_view(extract@),
            spec_strictly_sorted(strings_view(r@)),
            forall|y: Seq<char>| #[trigger] strings_view(r@).contains(y) <==> ev.take(
                i as int,
            ).contains(y),
        decreases extract@.len() - i,
    {
        insert_sorted(&mut r, extract[i].as_str());
        assert forall|y: Seq<char>| #[trigger] ev.take(i + 1).contains(y) <==> (ev.take(
            i as int,
        ).contains(y) || y == extract@[i as int]@) by {
            if ev.take(i + 1).contains(y) {
                let k = choose|k: int| 0 <= k < i + 1 && #[trigger] ev.take(i + 1)[k] == y;
                if k < i {
                    assert(ev.take(i as int)[k] == y);
                }
            }
            if ev.take(i as int).contains(y) {
                let k = choose|k: int| 0 <= k < i && #[trigger] ev.take(i as int)[k] == y;
                assert(ev.take(i + 1)[k] == y);
            }
            if y == extract@[i as int]@ {
                assert(ev.take(i + 1)[i as int] == y);
            }
        }
        i = i + 1;
    }
    assert(ev.take(extract.len() as int) =~= ev);
    let mut j: usize = 0;
    while j < inject.len()
        invariant
            j <= inject@.len(),
            ev == strings_view(extract@),
            iv == strings_view(inject@),
            spec_strictly_sorted(strings_view(r@)),
            forall|y: Seq<char>| #[trigger] strings_view(r@).contains(y) <==> (ev.contains(y)
                || iv.take(j as int).contains(y)),
        decreases inject@.len() - j,
    {
        insert_sorted(&mut r, inject[j].as_str());
        assert forall|y: Seq<char>| #[trigger] iv.take(j + 1).contains(y) <==> (iv.take(
            j as int,
        ).contains(y) || y == inject@[j as int]@) by {
            if iv.take(j + 1).contains(y) {
                let k = choose|k: int| 0 <= k < j + 1 && #[trigger] iv.take(j + 1)[k] == y;
                if k < j {
                    assert(iv.take(j as int)[k] == y);
                }
            }
            if iv.take(j as int).contains(y) {
                let k = choose|k: int| 0 <= k < j && #[trigger] iv.take(j as int)[k] == y;
                assert(iv.take(j + 1)[k] == y);
            }
            if y == inject@[j as int]@ {
                assert(iv.take(j + 1)[j as int] == y);
            }
        }
        j = j + 1;
    }
    assert(iv.take(inject.len() as int) =~= iv);
    r
}

} // verus!

//! Table references read out of PartiQL statements.
use vstd::prelude::*;

use crate::span::{owned, str_attr, Attribute};
use crate::text::{
    eq_ignore_ascii_case, find_str, lemma_find_str, spec_eq_ignore_ascii_case, spec_find_str,
    spec_words, split_whitespace,
};

verus! {

/// Represents a parsed table reference from a PartiQL statement.
pub struct TableReference<'a> {
    /// The table's name.
    pub name: &'a str,
    /// The index named after the table, if any.
    pub index_name: Option<&'a str>,
}

/// Mathematical model of a [`TableReference`].
pub struct TableReferenceModel {
    /// The table's name.
    pub name: Seq<char>,
    /// The index's name, if any.
    pub index_name: Option<Seq<char>>,
}

impl<'a> View for TableReference<'a> {
    type V = TableReferenceModel;

    open spec fn view(&self) -> TableReferenceModel {
        TableReferenceModel {
            name: self.name@,
            index_name: match self.index_name {
                Some(s) => Some(s@),
                None => None,
            },
        }
    }
}

/// The attribute key under which the index name is recorded.
pub open spec fn index_name_key() -> Seq<char> {
    "aws.dynamodb.index_name"@
}

/// The clause that must precede the table name in a statement that starts
/// with `first`: `Some(None)` when the table follows directly, `None` when
/// `first` starts no statement this parser knows.
pub open spec fn spec_next_clause(first: Seq<char>) -> Option<Option<Seq<char>>> {
    if spec_eq_ignore_ascii_case(first, "SELECT"@) {
        Some(Some("FROM"@))
    } else if spec_eq_ignore_ascii_case(first, "DELETE"@) {
        Some(Some("FROM"@))
    } else if spec_eq_ignore_ascii_case(first, "INSERT"@) {
        Some(Some("INTO"@))
    } else if spec_eq_ignore_ascii_case(first, "UPDATE"@) {
        Some(None)
    } else {
        None
    }
}

/// The first position at or after `from` of a word equal to `clause` without case.
pub open spec fn spec_find_word(w: Seq<Seq<char>>, clause: Seq<char>, from: int) -> Option<int>
    decreases w.len() - from,
{
    if from < 0 || from >= w.len() {
        None
    } else if spec_eq_ignore_ascii_case(w[from], clause) {
        Some(from)
    } else {
        spec_find_word(w, clause, from + 1)
    }
}

/// The separator between a table name and an index name: `"."`.
pub open spec fn index_separator() -> Seq<char> {
    "\".\""@
}

/// The table reference that the identifier `id` names: `"table"."index"`,
/// `"table"`, or a bare table name.
pub open spec fn spec_table_identifier(id: Seq<char>) -> TableReferenceModel {
    if id.len() >= 2 && id[0] == '"' && id.last() == '"' {
        let inner = id.subrange(1, id.len() - 1);
        match spec_find_str(inner, index_separator()) {
            None => TableReferenceModel { name: inner, index_name: None },
            Some(i) => {
                let rest = inner.skip(i + 3 as int);
                TableReferenceModel {
                    name: inner.take(i as int),
                    index_name: Some(
                        match spec_find_str(rest, index_separator()) {
                            None => rest,
                            Some(j) => rest.take(j as int),
                        },
                    ),
                }
            },
        }
    } else {
        TableReferenceModel { name: id, index_name: None }
    }
}

/// The table reference of the statement `s`, if it names one.
pub open spec fn spec_parse_statement(s: Seq<char>) -> Option<TableReferenceModel> {
    let w = spec_words(s);
    if w.len() == 0 {
        None
    } else {
        match spec_next_clause(w[0]) {
            None => None,
            Some(clause) => {
                let table: Option<int> = match clause {
                    None => Some(1),
                    Some(c) => match spec_find_word(w, c, 1) {
                        Some(k) => Some(k + 1),
                        None => None,
                    },
                };
                match table {
                    Some(t) => if t < w.len() {
                        Some(spec_table_identifier(w[t]))
                    } else {
                        None
                    },
                    None => None,
                }
            },
        }
    }
}

proof fn lemma_find_word(w: Seq<Seq<char>>, clause: Seq<char>, from: int)
    requires
        0 <= from,
    ensures
        match spec_find_word(w, clause, from) {
            Some(j) => from <= j < w.len() && spec_eq_ignore_ascii_case(w[j], clause) && forall|k: int|
                from <= k < j ==> !spec_eq_ignore_ascii_case(#[trigger] w[k], clause),
            None => forall|k: int|
                from <= k < w.len() ==> !spec_eq_ignore_ascii_case(#[trigger] w[k], clause),
        },
    decreases w.len() - from,
{
    if from < w.len() && !spec_eq_ignore_ascii_case(w[from], clause) {
        lemma_find_word(w, clause, from + 1);
    }
}

/// Whether `j` is the first position after the leading word of `w` that holds
/// `clause` (compared without ASCII case).
pub open spec fn spec_first_clause_at(w: Seq<Seq<char>>, clause: Seq<char>, j: int) -> bool {
    &&& 1 <= j < w.len()
    &&& spec_eq_ignore_ascii_case(w[j], clause)
    &&& forall|k: int| 1 <= k < j ==> !spec_eq_ignore_ascii_case(#[trigger] w[k], clause)
}

/// When a statement names a table, with `w` its whitespace-separated words:
/// an `UPDATE` statement names the table in its second word, if it has one;
/// a `SELECT` or `DELETE` (clause `FROM`) or `INSERT` (clause `INTO`)
/// statement names it in the word after the first occurrence of its clause,
/// if there is such a word; no other statement names one. Keywords are
/// compared without ASCII case.
pub proof fn lemma_parse_statement_cases(s: Seq<char>)
    ensures
        ({
            let w = spec_words(s);
            &&& (w.len() == 0 || spec_next_clause(w[0]) is None) ==> spec_parse_statement(s) is None
            &&& (w.len() > 0 && spec_next_clause(w[0]) == Some(None::<Seq<char>>))
                ==> spec_parse_statement(s) == if w.len() >= 2 {
                Some(spec_table_identifier(w[1]))
            } else {
                None
            }
            &&& forall|c: Seq<char>, j: int|
                w.len() > 0 && spec_next_clause(w[0]) == Some(Some(c)) && #[trigger] spec_first_clause_at(
                    w,
                    c,
                    j,
                ) ==> spec_parse_statement(s) == if j + 1 < w.len() {
                    Some(spec_table_identifier(w[j + 1]))
                } else {
                    None
                }
            &&& forall|c: Seq<char>|
                w.len() > 0 && #[trigger] spec_next_clause(w[0]) == Some(Some(c)) && (forall|k: int|
                    1 <= k < w.len() ==> !spec_eq_ignore_ascii_case(#[trigger] w[k], c))
                    ==> spec_parse_statement(s) is None
        }),
{
    let w = spec_words(s);
    if w.len() > 0 {
        match spec_next_clause(w[0]) {
            Some(Some(c)) => {
                lemma_find_word(w, c, 1);
                assert forall|j: int| #[trigger] spec_first_clause_at(w, c, j) implies spec_find_word(
                    w,
                    c,
                    1,
                ) == Some(j) by {
                    match spec_find_word(w, c, 1) {
                        Some(m) => {
                            if m < j {
                                assert(!spec_eq_ignore_ascii_case(w[m], c));
                            } else if j < m {
                                assert(!spec_eq_ignore_ascii_case(w[j], c));
                            }
                        },
                        None => {
                            assert(!spec_eq_ignore_ascii_case(w[j], c));
                        },
                    }
                }
                assert forall|c2: Seq<char>|
                    #[trigger] spec_next_clause(w[0]) == Some(Some(c2)) && (forall|k: int|
                        1 <= k < w.len() ==> !spec_eq_ignore_ascii_case(#[trigger] w[k], c2))
                        implies spec_parse_statement(s) is None by {
                    match spec_find_word(w, c, 1) {
                        Some(m) => {
                            assert(!spec_eq_ignore_ascii_case(w[m], c));
                        },
                        None => {},
                    }
                }
            },
            _ => {},
        }
    }
}

/// The table reference of `s`, or the empty one when `s` names none.
pub open spec fn spec_table_reference_from(s: Seq<char>) -> TableReferenceModel {
    match spec_parse_statement(s) {
        Some(t) => t,
        None => TableReferenceModel { name: Seq::empty(), index_name: None },
    }
}

impl<'a> TableReference<'a> {
    /// A reference to table `name`, through index `index_name` if given.
    pub fn new(name: &'a str, index_name: Option<&'a str>) -> (r: Self)
        ensures
            r.name == name,
            r.index_name == index_name,
    {
        Self { name, index_name }
    }

    /// The index name as a span attribute, if there is one.
    pub fn index_name(&self) -> (r: Option<Attribute>)
        ensures
            self.index_name is None ==> r is None,
            self.index_name matches Some(n) ==> r matches Some(a) && a@ == str_attr(
                index_name_key(),
                n@,
            ),
    {
        match self.index_name {
            Some(n) => Some(Attribute::string("aws.dynamodb.index_name", owned(n))),
            None => None,
        }
    }

    /// The table reference of a PartiQL statement; the empty reference when the
    /// statement names no table.
    pub fn from_statement(value: &'a str) -> (r: Self)
        ensures
            r@ == spec_table_reference_from(value@),
    {
        proof {
            reveal_strlit("");
            assert(""@ =~= Seq::<char>::empty());
        }
        match parse_partiql_statement(value) {
            Some(t) => t,
            None => Self { name: "", index_name: None },
        }
    }
}

impl<'a> Default for TableReference<'a> {
    /// The empty table reference.
    fn default() -> (r: Self)
        ensures
            r.name@ == Seq::<char>::empty(),
            r.index_name is None,
    {
        proof {
            reveal_strlit("");
            assert(""@ =~= Seq::<char>::empty());
        }
        Self { name: "", index_name: None }
    }
}

impl<'a> From<&'a str> for TableReference<'a> {
    /// The table reference of a PartiQL statement (see [`TableReference::from_statement`]):
    /// the empty reference when the statement names no table.
    fn from(value: &'a str) -> (r: Self)
        ensures
            r@ == spec_table_reference_from(value@),
    {
        Self::from_statement(value)
    }
}

impl<'a> vstd::std_specs::convert::FromSpecImpl<&'a str> for TableReference<'a> {
    /// The conversion is stated by the `ensures` of `from` over the view, as a
    /// reference into the statement has no spec value of its own.
    open spec fn obeys_from_spec() -> bool {
        false
    }

    open spec fn from_spec(v: &'a str) -> Self {
        arbitrary()
    }
}

/// The clause that must precede the table name in a statement starting with `first`.
fn next_clause(first: &str) -> (r: Option<Option<&'static str>>)
    ensures
        r matches Some(Some(c)) ==> spec_next_clause(first@) == Some(Some(c@)),
        r matches Some(None) ==> spec_next_clause(first@) == Some(None::<Seq<char>>),
        r is None ==> spec_next_clause(first@) is None,
{
    if eq_ignore_ascii_case(first, "SELECT") {
        Some(Some("FROM"))
    } else if eq_ignore_ascii_case(first, "DELETE") {
        Some(Some("FROM"))
    } else if eq_ignore_ascii_case(first, "INSERT") {
        Some(Some("INTO"))
    } else if eq_ignore_ascii_case(first, "UPDATE") {
        Some(None)
    } else {
        None
    }
}

/// Extracts table name and optional index name from PartiQL statements.
pub fn parse_partiql_statement(statement: &str) -> (r: Option<TableReference<'_>>)
    ensures
        r matches Some(t) ==> spec_parse_statement(statement@) == Some(t@),
        r is None ==> spec_parse_statement(statement@) is None,
{
    let tokens = split_whitespace(statement);
    let ghost w = tokens@.map_values(|t: &str| t@);
    assert(w.len() == tokens@.len());
    if tokens.len() == 0 {
        return None;
    }
    assert(w[0] == tokens@[0]@);
    let clause = match next_clause(tokens[0]) {
        Some(c) => c,
        None => {
            return None;
        },
    };
    let mut t: usize = 1;
    if let Some(c) = clause {
        let mut k: usize = 1;
        while k < tokens.len() && !eq_ignore_ascii_case(tokens[k], c)
            invariant
                1 <= k <= tokens@.len(),
                w == tokens@.map_values(|t: &str| t@),
                spec_find_word(w, c@, 1) == spec_find_word(w, c@, k as int),
            decreases tokens@.len() - k,
        {
            assert(w[k as int] == tokens@[k as int]@);
            k = k + 1;
        }
        if k == tokens.len() {
            return None;
        }
        assert(w[k as int] == tokens@[k as int]@);
        t = k + 1;
    }
    if t >= tokens.len() {
        return None;
    }
    assert(w[t as int] == tokens@[t as int]@);
    Some(parse_table_identifier(tokens[t]))
}

/// Parses a table identifier that may include an index (e.g., "table"."index").
pub fn parse_table_identifier(id: &str) -> (r: TableReference<'_>)
    ensures
        r@ == spec_table_identifier(id@),
{
    let n = id.unicode_len();
    if n >= 2 && id.get_char(0) == '"' && id.get_char(n - 1) == '"' {
        let inner = id.substring_char(1, n - 1);
        let m = inner.unicode_len();
        proof {
            reveal_strlit("\".\"");
        }
        match find_str(inner, "\".\"") {
            None => TableReference::new(inner, None),
            Some(i) => {
                proof {
                    lemma_find_str(inner@, index_separator());
                }
                let name = inner.substring_char(0, i);
                let rest = inner.substring_char(i + 3, m);
                assert(rest@ =~= inner@.skip(i + 3));
                assert(name@ =~= inner@.take(i as int));
                let index = match find_str(rest, "\".\"") {
                    None => rest,
                    Some(j) => {
                        proof {
                            lemma_find_str(rest@, index_separator());
                        }
                        let x = rest.substring_char(0, j);
                        assert(x@ =~= rest@.take(j as int));
                        x
                    },
                };
                TableReference::new(name, Some(index))
            },
        }
    } else {
        TableReference::new(id, None)
    }
}

} // verus!

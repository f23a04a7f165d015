//! Character and string helpers shared by the parsers of this crate.
//!
//! Strings are modelled by their view, a `Seq<char>`; every function here is
//! stated over that view.
use vstd::prelude::*;

verus! {

/// Unicode `White_Space` property (the set that `char::is_whitespace` tests).
pub open spec fn spec_is_whitespace(c: char) -> bool {
    let v = c as u32;
    ||| (0x09 <= v && v <= 0x0d)
    ||| v == 0x20
    ||| v == 0x85
    ||| v == 0xa0
    ||| v == 0x1680
    ||| (0x2000 <= v && v <= 0x200a)
    ||| v == 0x2028
    ||| v == 0x2029
    ||| v == 0x202f
    ||| v == 0x205f
    ||| v == 0x3000
}

/// Whether `c` has the Unicode `White_Space` property.
pub fn is_whitespace(c: char) -> (r: bool)
    ensures
        r == spec_is_whitespace(c),
{
    let v = c as u32;
    (0x09 <= v && v <= 0x0d) || v == 0x20 || v == 0x85 || v == 0xa0 || v == 0x1680 || (0x2000
        <= v && v <= 0x200a) || v == 0x2028 || v == 0x2029 || v == 0x202f || v == 0x205f || v
        == 0x3000
}

/// The code point of `c` with ASCII upper-case letters mapped to lower case.
pub open spec fn spec_lower_code(c: char) -> u32 {
    let v = c as u32;
    if 0x41 <= v && v <= 0x5a {
        (v + 0x20) as u32
    } else {
        v
    }
}

/// ASCII case-insensitive equality, as `str::eq_ignore_ascii_case` defines it.
pub open spec fn spec_eq_ignore_ascii_case(a: Seq<char>, b: Seq<char>) -> bool {
    &&& a.len() == b.len()
    &&& forall|i: int| 0 <= i < a.len() ==> spec_lower_code(#[trigger] a[i]) == spec_lower_code(b[i])
}

fn lower_code(c: char) -> (r: u32)
    ensures
        r == spec_lower_code(c),
{
    let v = c as u32;
    if 0x41 <= v && v <= 0x5a {
        v + 0x20
    } else {
        v
    }
}

/// Whether `a` and `b` are equal when ASCII letters are compared without case.
pub fn eq_ignore_ascii_case(a: &str, b: &str) -> (r: bool)
    ensures
        r == spec_eq_ignore_ascii_case(a@, b@),
{
    let n = a.unicode_len();
    if n != b.unicode_len() {
        return false;
    }
    let mut i: usize = 0;
    while i < n
        invariant
            n == a@.len(),
            n == b@.len(),
            i <= n,
            forall|k: int| 0 <= k < i ==> spec_lower_code(#[trigger] a@[k]) == spec_lower_code(
                b@[k],
            ),
        decreases n - i,
    {
        if lower_code(a.get_char(i)) != lower_code(b.get_char(i)) {
            return false;
        }
        i = i + 1;
    }
    true
}

/// `s` without its leading whitespace.
pub open spec fn spec_trim_start(s: Seq<char>) -> Seq<char>
    decreases s.len(),
{
    if s.len() > 0 && spec_is_whitespace(s[0]) {
        spec_trim_start(s.drop_first())
    } else {
        s
    }
}

/// `s` without its trailing whitespace.
pub open spec fn spec_trim_end(s: Seq<char>) -> Seq<char>
    decreases s.len(),
{
    if s.len() > 0 && spec_is_whitespace(s.last()) {
        spec_trim_end(s.drop_last())
    } else {
        s
    }
}

/// `s` without leading and trailing whitespace (`str::trim`).
pub open spec fn spec_trim(s: Seq<char>) -> Seq<char> {
    spec_trim_end(spec_trim_start(s))
}

/// Returns `s` without leading and trailing whitespace.
pub fn trim(s: &str) -> (r: &str)
    ensures
        r@ == spec_trim(s@),
{
    let n = s.unicode_len();
    let mut i: usize = 0;
    assert(s@.skip(0) =~= s@);
    while i < n && is_whitespace(s.get_char(i))
        invariant
            n == s@.len(),
            i <= n,
            spec_trim_start(s@) == spec_trim_start(s@.skip(i as int)),
        decreases n - i,
    {
        assert(s@.skip(i as int).drop_first() =~= s@.skip(i + 1));
        i = i + 1;
    }
    assert(spec_trim_start(s@) == s@.subrange(i as int, n as int)) by {
        assert(s@.skip(i as int) =~= s@.subrange(i as int, n as int));
    }
    let mut j: usize = n;
    while j > i && is_whitespace(s.get_char(j - 1))
        invariant
            n == s@.len(),
            i <= j <= n,
            spec_trim_start(s@) == s@.subrange(i as int, n as int),
            spec_trim(s@) == spec_trim_end(s@.subrange(i as int, j as int)),
        decreases j - i,
    {
        assert(s@.subrange(i as int, j as int).drop_last() =~= s@.subrange(i as int, j - 1));
        j = j - 1;
    }
    s.substring_char(i, j)
}

/// Position of the first whitespace character of `s`, or its length.
pub open spec fn spec_first_whitespace(s: Seq<char>) -> nat
    decreases s.len(),
{
    if s.len() == 0 {
        0
    } else if spec_is_whitespace(s[0]) {
        0
    } else {
        1 + spec_first_whitespace(s.drop_first())
    }
}

/// `spec_first_whitespace` lies within `s`.
pub proof fn lemma_first_whitespace_bound(s: Seq<char>)
    ensures
        spec_first_whitespace(s) <= s.len(),
        s.len() > 0 && !spec_is_whitespace(s[0]) ==> spec_first_whitespace(s) >= 1,
    decreases s.len(),
{
    if s.len() > 0 && !spec_is_whitespace(s[0]) {
        lemma_first_whitespace_bound(s.drop_first());
    }
}

/// `spec_first_whitespace` is the end of the leading run of non-whitespace.
proof fn lemma_first_whitespace_at(s: Seq<char>, k: int)
    requires
        0 <= k <= s.len(),
        forall|m: int| 0 <= m < k ==> !spec_is_whitespace(#[trigger] s[m]),
        k == s.len() || spec_is_whitespace(s[k]),
    ensures
        spec_first_whitespace(s) == k,
    decreases k,
{
    if k > 0 {
        assert(!spec_is_whitespace(s[0]));
        let t = s.drop_first();
        assert forall|m: int| 0 <= m < k - 1 implies !spec_is_whitespace(#[trigger] t[m]) by {
            assert(t[m] == s[m + 1]);
        }
        if k < s.len() {
            assert(t[k - 1] == s[k]);
        }
        lemma_first_whitespace_at(t, k - 1);
    }
}

/// The whitespace-separated words of `s` (`str::split_whitespace`).
pub open spec fn spec_words(s: Seq<char>) -> Seq<Seq<char>>
    decreases s.len(),
{
    if s.len() == 0 {
        seq![]
    } else if spec_is_whitespace(s[0]) {
        spec_words(s.drop_first())
    } else {
        let k = spec_first_whitespace(s);
        proof {
            lemma_first_whitespace_bound(s);
        }
        seq![s.take(k as int)] + spec_words(s.skip(k as int))
    }
}

/// Splits `s` into its whitespace-separated words.
pub fn split_whitespace(s: &str) -> (r: Vec<&str>)
    ensures
        r@.map_values(|w: &str| w@) == spec_words(s@),
{
    let n = s.unicode_len();
    let mut r: Vec<&str> = Vec::new();
    let mut i: usize = 0;
    assert(s@.skip(0) =~= s@);
    while i < n
        invariant
            n == s@.len(),
            i <= n,
            spec_words(s@) == r@.map_values(|w: &str| w@) + spec_words(s@.skip(i as int)),
        decreases n - i,
    {
        let ghost rest = s@.skip(i as int);
        if is_whitespace(s.get_char(i)) {
            assert(rest.drop_first() =~= s@.skip(i + 1));
            i = i + 1;
        } else {
            let mut j: usize = i + 1;
            while j < n && !is_whitespace(s.get_char(j))
                invariant
                    n == s@.len(),
                    i < j <= n,
                    forall|m: int| i <= m < j ==> !spec_is_whitespace(#[trigger] s@[m]),
                decreases n - j,
            {
                j = j + 1;
            }
            proof {
                assert forall|m: int| 0 <= m < j - i implies !spec_is_whitespace(
                    #[trigger] rest[m],
                ) by {
                    assert(rest[m] == s@[i + m]);
                }
                if j < n {
                    assert(rest[j - i] == s@[j as int]);
                }
                lemma_first_whitespace_at(rest, j - i);
                assert(rest.take(j - i) =~= s@.subrange(i as int, j as int));
                assert(rest.skip(j - i) =~= s@.skip(j as int));
            }
            let w = s.substring_char(i, j);
            let ghost before = r@.map_values(|w: &str| w@);
            r.push(w);
            assert(r@.map_values(|w: &str| w@) =~= before.push(w@));
            assert(before.push(w@) + spec_words(s@.skip(j as int)) =~= before + (seq![w@]
                + spec_words(s@.skip(j as int))));
            i = j;
        }
    }
    assert(s@.skip(n as int) =~= Seq::<char>::empty());
    assert(r@.map_values(|w: &str| w@) + Seq::<Seq<char>>::empty() =~= r@.map_values(
        |w: &str| w@,
    ));
    r
}

/// Position of the first occurrence of `c` in `s`.
pub open spec fn spec_find_char(s: Seq<char>, c: char) -> Option<nat>
    decreases s.len(),
{
    if s.len() == 0 {
        None
    } else if s[0] == c {
        Some(0)
    } else {
        match spec_find_char(s.drop_first(), c) {
            Some(i) => Some(i + 1),
            None => None,
        }
    }
}

/// `spec_find_char` finds the first occurrence, and only an occurrence.
pub proof fn lemma_find_char(s: Seq<char>, c: char)
    ensures
        spec_find_char(s, c) matches Some(i) ==> i < s.len() && s[i as int] == c && forall|m: int|
            0 <= m < i ==> s[m] != c,
        spec_find_char(s, c) is None ==> forall|m: int| 0 <= m < s.len() ==> s[m] != c,
    decreases s.len(),
{
    if s.len() > 0 && s[0] != c {
        lemma_find_char(s.drop_first(), c);
        assert forall|m: int| 1 <= m < s.len() implies s[m] == s.drop_first()[m - 1] by {}
    }
}

/// Characterisation of `spec_find_char` by the first position that holds `c`.
pub proof fn lemma_find_char_at(s: Seq<char>, c: char, k: int)
    requires
        0 <= k <= s.len(),
        forall|m: int| 0 <= m < k ==> s[m] != c,
        k == s.len() || s[k] == c,
    ensures
        k < s.len() ==> spec_find_char(s, c) == Some(k as nat),
        k == s.len() ==> spec_find_char(s, c) is None,
    decreases k,
{
    if k > 0 {
        let t = s.drop_first();
        assert forall|m: int| 0 <= m < k - 1 implies t[m] != c by {
            assert(t[m] == s[m + 1]);
        }
        if k < s.len() {
            assert(t[k - 1] == s[k]);
        }
        lemma_find_char_at(t, c, k - 1);
    }
}

/// First index `j >= from` with `s[j] == c`, or the length of `s`.
fn scan_char(s: &str, n: usize, from: usize, c: char) -> (j: usize)
    requires
        n == s@.len(),
        from <= n,
    ensures
        from <= j <= n,
        forall|m: int| from <= m < j ==> s@[m] != c,
        j < n ==> s@[j as int] == c,
{
    let mut j = from;
    while j < n && s.get_char(j) != c
        invariant
            n == s@.len(),
            from <= j <= n,
            forall|m: int| from <= m < j ==> s@[m] != c,
        decreases n - j,
    {
        j = j + 1;
    }
    j
}

/// Position of the first occurrence of `c` in `s`, if any.
pub fn find_char(s: &str, c: char) -> (r: Option<usize>)
    ensures
        r matches Some(i) ==> spec_find_char(s@, c) == Some(i as nat),
        r is None ==> spec_find_char(s@, c) is None,
{
    let n = s.unicode_len();
    let j = scan_char(s, n, 0, c);
    proof {
        lemma_find_char_at(s@, c, j as int);
    }
    if j < n {
        Some(j)
    } else {
        None
    }
}

/// The pieces of `s` between occurrences of `c` (`str::split` with a `char`).
pub open spec fn spec_split_char(s: Seq<char>, c: char) -> Seq<Seq<char>>
    decreases s.len(),
{
    match spec_find_char(s, c) {
        None => seq![s],
        Some(i) => {
            proof {
                lemma_find_char(s, c);
            }
            seq![s.take(i as int)] + spec_split_char(s.skip(i + 1 as int), c)
        },
    }
}

/// Splits `s` at every occurrence of `c`.
pub fn split_char(s: &str, c: char) -> (r: Vec<&str>)
    ensures
        r@.map_values(|w: &str| w@) == spec_split_char(s@, c),
{
    let n = s.unicode_len();
    let mut r: Vec<&str> = Vec::new();
    let mut i: usize = 0;
    assert(s@.skip(0) =~= s@);
    loop
        invariant
            n == s@.len(),
            i <= n,
            spec_split_char(s@, c) == r@.map_values(|w: &str| w@) + spec_split_char(
                s@.skip(i as int),
                c,
            ),
        decreases n - i,
    {
        let ghost rest = s@.skip(i as int);
        let j = scan_char(s, n, i, c);
        proof {
            assert forall|m: int| 0 <= m < j - i implies rest[m] != c by {
                assert(rest[m] == s@[i + m]);
            }
            if j < n {
                assert(rest[j - i] == s@[j as int]);
            }
            lemma_find_char_at(rest, c, j - i);
            assert(rest.take(j - i) =~= s@.subrange(i as int, j as int));
        }
        let w = s.substring_char(i, j);
        let ghost before = r@.map_values(|w: &str| w@);
        r.push(w);
        assert(r@.map_values(|w: &str| w@) =~= before.push(w@));
        if j == n {
            assert(rest.take(j - i) =~= rest);
            assert(before + seq![w@] =~= before.push(w@));
            return r;
        }
        assert(rest.skip(j - i + 1) =~= s@.skip(j + 1));
        assert(before.push(w@) + spec_split_char(s@.skip(j + 1), c) =~= before + (seq![w@]
            + spec_split_char(s@.skip(j + 1), c)));
        i = j + 1;
    }
}

/// Position of the first occurrence of `p` in `s`, if any.
pub open spec fn spec_find_str(s: Seq<char>, p: Seq<char>) -> Option<nat>
    decreases s.len(),
{
    if s.len() < p.len() {
        None
    } else if s.take(p.len() as int) == p {
        Some(0)
    } else if s.len() == 0 {
        None
    } else {
        match spec_find_str(s.drop_first(), p) {
            Some(i) => Some(i + 1),
            None => None,
        }
    }
}

/// `spec_find_str` finds an occurrence that lies within `s`.
pub proof fn lemma_find_str(s: Seq<char>, p: Seq<char>)
    ensures
        spec_find_str(s, p) matches Some(i) ==> i + p.len() <= s.len(),
    decreases s.len(),
{
    if s.len() >= p.len() && s.take(p.len() as int) != p && s.len() > 0 {
        lemma_find_str(s.drop_first(), p);
    }
}

/// Whether `p` occurs in `s` at position `i`.
fn occurs_at(s: &str, n: usize, p: &str, m: usize, i: usize) -> (r: bool)
    requires
        n == s@.len(),
        m == p@.len(),
        i + m <= n,
    ensures
        r == (s@.subrange(i as int, i + m) == p@),
{
    let mut k: usize = 0;
    while k < m
        invariant
            n == s@.len(),
            m == p@.len(),
            i + m <= n,
            k <= m,
            forall|t: int| 0 <= t < k ==> s@[i + t] == p@[t],
        decreases m - k,
    {
        if s.get_char(i + k) != p.get_char(k) {
            assert(s@.subrange(i as int, i + m)[k as int] != p@[k as int]);
            return false;
        }
        k = k + 1;
    }
    assert(s@.subrange(i as int, i + m) =~= p@);
    true
}

/// Position of the first occurrence of `p` in `s`, if any.
pub fn find_str(s: &str, p: &str) -> (r: Option<usize>)
    ensures
        r matches Some(i) ==> spec_find_str(s@, p@) == Some(i as nat),
        r is None ==> spec_find_str(s@, p@) is None,
{
    let n = s.unicode_len();
    let m = p.unicode_len();
    if m == 0 {
        assert(s@.take(0) =~= p@);
        return Some(0);
    }
    let mut i: usize = 0;
    assert(s@.skip(0) =~= s@);
    while m <= n - i
        invariant
            n == s@.len(),
            m == p@.len(),
            m > 0,
            i <= n,
            spec_find_str(s@, p@) == match spec_find_str(s@.skip(i as int), p@) {
                Some(k) => Some((k + i) as nat),
                None => None::<nat>,
            },
        decreases n - i,
    {
        let ghost rest = s@.skip(i as int);
        assert(rest.take(m as int) =~= s@.subrange(i as int, i + m));
        if occurs_at(s, n, p, m, i) {
            return Some(i);
        }
        assert(rest.drop_first() =~= s@.skip(i + 1));
        i = i + 1;
    }
    None
}

/// Why a decimal integer could not be read (`core::num::IntErrorKind`).
#[derive(Debug, Clone, Copy, PartialEq, Eq, Structural)]
pub enum IntErrorKind {
    /// The text is empty.
    Empty,
    /// The text holds a character that is not a decimal digit.
    InvalidDigit,
    /// The value does not fit in the integer type.
    PosOverflow,
}

impl IntErrorKind {
    /// The message that std prints for this kind of error.
    pub fn message(&self) -> (r: &'static str)
        ensures
            r@ == self.spec_message(),
    {
        match self {
            IntErrorKind::Empty => "cannot parse integer from empty string",
            IntErrorKind::InvalidDigit => "invalid digit found in string",
            IntErrorKind::PosOverflow => "number too large to fit in target type",
        }
    }

    /// The message of `message`.
    pub open spec fn spec_message(&self) -> Seq<char> {
        match self {
            IntErrorKind::Empty => "cannot parse integer from empty string"@,
            IntErrorKind::InvalidDigit => "invalid digit found in string"@,
            IntErrorKind::PosOverflow => "number too large to fit in target type"@,
        }
    }
}

/// What `str::to_lowercase` returns for `s`: the Unicode lower-case mapping,
/// which takes the Unicode tables to state.
pub uninterp spec fn spec_to_lowercase(s: Seq<char>) -> Seq<char>;

/// Whether every character of `s` is ASCII.
pub open spec fn spec_is_ascii(s: Seq<char>) -> bool {
    forall|i: int| 0 <= i < s.len() ==> (#[trigger] s[i] as u32) < 0x80
}

/// `s` with its ASCII upper-case letters mapped to lower case.
pub open spec fn spec_ascii_lowercase(s: Seq<char>) -> Seq<char> {
    Seq::new(s.len(), |i: int| spec_lower_code(s[i]) as char)
}

/// What `str::to_lowercase` returns for `s`, as far as it is stated: the
/// ASCII lower case of an ASCII string, the named Unicode mapping otherwise.
pub open spec fn spec_lowercase(s: Seq<char>) -> Seq<char> {
    if spec_is_ascii(s) {
        spec_ascii_lowercase(s)
    } else {
        spec_to_lowercase(s)
    }
}

/// Calls `str::to_lowercase`. The contract names the result; of an ASCII
/// string it also states that the result is its ASCII lower case (the
/// Unicode lower-case mapping sends `A`..`Z` to `a`..`z` and keeps every other
/// ASCII character); the mapping of other characters is not restated.
#[verifier::external_body]
pub(crate) fn to_lowercase(s: &str) -> (r: String)
    ensures
        r@ == spec_to_lowercase(s@),
        spec_is_ascii(s@) ==> r@ == spec_ascii_lowercase(s@),
{
    s.to_lowercase()
}

/// What `format!("{:?}", s)` writes for the string `s`: `s` in double quotes
/// with `char::escape_debug` applied to its characters.
pub uninterp spec fn spec_debug_str(s: Seq<char>) -> Seq<char>;

/// Whether `s` is printable ASCII (space to `~`) with neither a double quote
/// nor a backslash: the characters that `Debug` writes as they are.
pub open spec fn spec_plain_ascii(s: Seq<char>) -> bool {
    forall|i: int|
        0 <= i < s.len() ==> 0x20 <= (#[trigger] s[i] as u32) < 0x7f && s[i] != '"' && s[i] != '\\'
}

/// What the `Debug` formatting writes for `s`, as far as it is stated: plain
/// ASCII text between double quotes, the named result otherwise.
pub open spec fn spec_debug_text(s: Seq<char>) -> Seq<char> {
    if spec_plain_ascii(s) {
        "\""@ + s + "\""@
    } else {
        spec_debug_str(s)
    }
}

/// Calls the `Debug` formatting of `str`. The contract names the result; of
/// printable ASCII text without a double quote or a backslash it also states
/// that the text is written as it is between double quotes (`char::escape_debug` leaves such
/// characters alone). Other escapes are not restated.
#[verifier::external_body]
pub(crate) fn debug_str(s: &str) -> (r: String)
    ensures
        r@ == spec_debug_str(s@),
        spec_plain_ascii(s@) ==> r@ == "\""@ + s@ + "\""@,
{
    format!("{:?}", s)
}

/// Whether `a` and `b` hold the same characters.
pub fn str_eq(a: &str, b: &str) -> (r: bool)
    ensures
        r == (a@ == b@),
{
    let n = a.unicode_len();
    if n != b.unicode_len() {
        return false;
    }
    let mut i: usize = 0;
    while i < n
        invariant
            n == a@.len(),
            n == b@.len(),
            i <= n,
            forall|k: int| 0 <= k < i ==> a@[k] == b@[k],
        decreases n - i,
    {
        if a.get_char(i) != b.get_char(i) {
            return false;
        }
        i = i + 1;
    }
    assert(a@ =~= b@);
    true
}

/// Whether `c` is an ASCII decimal digit.
pub open spec fn spec_is_digit(c: char) -> bool {
    '0' <= c && c <= '9'
}

/// Value of the ASCII decimal digit `c`.
pub open spec fn spec_digit_value(c: char) -> int {
    (c as u32) - ('0' as u32)
}

/// Reads the digits `d` after the value `acc`, left to right, as std does for `u64`.
pub open spec fn spec_parse_digits(acc: int, d: Seq<char>) -> Result<u64, IntErrorKind>
    decreases d.len(),
{
    if d.len() == 0 {
        Ok(acc as u64)
    } else if !spec_is_digit(d[0]) {
        Err(IntErrorKind::InvalidDigit)
    } else if acc * 10 + spec_digit_value(d[0]) > u64::MAX {
        Err(IntErrorKind::PosOverflow)
    } else {
        spec_parse_digits(acc * 10 + spec_digit_value(d[0]), d.drop_first())
    }
}

/// The result of `<u64 as FromStr>::from_str` on `s`.
pub open spec fn spec_parse_u64(s: Seq<char>) -> Result<u64, IntErrorKind> {
    if s.len() == 0 {
        Err(IntErrorKind::Empty)
    } else if s[0] == '+' {
        if s.len() == 1 {
            Err(IntErrorKind::InvalidDigit)
        } else {
            spec_parse_digits(0, s.drop_first())
        }
    } else if s[0] == '-' && s.len() == 1 {
        Err(IntErrorKind::InvalidDigit)
    } else {
        spec_parse_digits(0, s)
    }
}

/// Reads `s` as a decimal `u64` the way `str::parse::<u64>` does.
pub fn parse_u64(s: &str) -> (r: Result<u64, IntErrorKind>)
    ensures
        r == spec_parse_u64(s@),
{
    let n = s.unicode_len();
    if n == 0 {
        return Err(IntErrorKind::Empty);
    }
    let first = s.get_char(0);
    if (first == '+' || first == '-') && n == 1 {
        return Err(IntErrorKind::InvalidDigit);
    }
    let start: usize = if first == '+' {
        1
    } else {
        0
    };
    let ghost digits = s@.skip(start as int);
    assert(start == 1 ==> digits =~= s@.drop_first());
    assert(start == 0 ==> digits =~= s@);
    assert(spec_parse_u64(s@) == spec_parse_digits(0, digits));
    let mut acc: u64 = 0;
    let mut i: usize = start;
    while i < n
        invariant
            n == s@.len(),
            start <= i <= n,
            digits == s@.skip(start as int),
            spec_parse_u64(s@) == spec_parse_digits(0, digits),
            spec_parse_digits(0, digits) == spec_parse_digits(acc as int, s@.skip(i as int)),
        decreases n - i,
    {
        let c = s.get_char(i);
        let ghost rest = s@.skip(i as int);
        assert(rest[0] == c);
        if !('0' <= c && c <= '9') {
            return Err(IntErrorKind::InvalidDigit);
        }
        let d: u64 = (c as u32 - '0' as u32) as u64;
        let next = match acc.checked_mul(10) {
            Some(v) => match v.checked_add(d) {
                Some(w) => w,
                None => {
                    return Err(IntErrorKind::PosOverflow);
                },
            },
            None => {
                return Err(IntErrorKind::PosOverflow);
            },
        };
        assert(rest.drop_first() =~= s@.skip(i + 1));
        acc = next;
        i = i + 1;
    }
    assert(s@.skip(n as int) =~= Seq::<char>::empty());
    Ok(acc)
}


/// The decimal digit of `d < 10`.
pub open spec fn spec_digit_char(d: nat) -> char {
    if d == 0 { '0' } else if d == 1 { '1' } else if d == 2 { '2' } else if d == 3 { '3' }
    else if d == 4 { '4' } else if d == 5 { '5' } else if d == 6 { '6' } else if d == 7 { '7' }
    else if d == 8 { '8' } else { '9' }
}

/// The decimal representation of `n`, without leading zeros
/// (what `to_string` gives for an unsigned integer).
pub open spec fn spec_decimal(n: nat) -> Seq<char>
    decreases n,
{
    if n < 10 {
        seq![spec_digit_char(n)]
    } else {
        spec_decimal(n / 10).push(spec_digit_char(n % 10))
    }
}

fn digit_str(d: u64) -> (r: &'static str)
    requires
        d < 10,
    ensures
        r@ == seq![spec_digit_char(d as nat)],
{
    proof {
        reveal_strlit("0");
        reveal_strlit("1");
        reveal_strlit("2");
        reveal_strlit("3");
        reveal_strlit("4");
        reveal_strlit("5");
        reveal_strlit("6");
        reveal_strlit("7");
        reveal_strlit("8");
        reveal_strlit("9");
    }
    if d == 0 { "0" } else if d == 1 { "1" } else if d == 2 { "2" } else if d == 3 { "3" }
    else if d == 4 { "4" } else if d == 5 { "5" } else if d == 6 { "6" } else if d == 7 { "7" }
    else if d == 8 { "8" } else { "9" }
}

/// The decimal representation of `n`.
pub fn decimal(n: u64) -> (r: String)
    ensures
        r@ == spec_decimal(n as nat),
    decreases n,
{
    if n < 10 {
        String::from_str(digit_str(n))
    } else {
        let mut r = decimal(n / 10);
        let d = digit_str(n % 10);
        r.append(d);
        assert(r@ =~= spec_decimal((n / 10) as nat).push(spec_digit_char((n % 10) as nat)));
        r
    }
}

} // verus!

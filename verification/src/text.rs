//! Character-sequence helpers shared by the parsers, the classifiers and the
//! emitters.
//!
//! Every string is modelled by its sequence of Unicode scalar values. The
//! executable helpers work on `Vec<char>`; `chars_of` and `string_of` move
//! between that form and `str` / `String`.

use vstd::prelude::*;
use vstd::string::*;

verus! {

// ---------------------------------------------------------------------------
// Character classes
// ---------------------------------------------------------------------------

/// Whether a character has the Unicode `Alphabetic` property.
pub uninterp spec fn unicode_alphabetic(c: char) -> bool;

/// Whether a character has one of the Unicode general categories for
/// numbers.
pub uninterp spec fn unicode_numeric(c: char) -> bool;

/// Whether a character has the Unicode `White_Space` property.
pub uninterp spec fn unicode_whitespace(c: char) -> bool;

/// The Unicode lowercase form of a string.
pub uninterp spec fn unicode_lowercase(s: Seq<char>) -> Seq<char>;

/// Whether a character is in the ASCII range.
pub open spec fn is_ascii(c: char) -> bool {
    (c as u32) < 128
}

/// Whether a character is one of `A`-`Z`, `a`-`z`.
pub open spec fn is_ascii_letter(c: char) -> bool {
    ('a' <= c && c <= 'z') || ('A' <= c && c <= 'Z')
}

/// Whether a character is one of `0`-`9`.
pub open spec fn is_ascii_digit(c: char) -> bool {
    '0' <= c && c <= '9'
}

/// Whether a character is a space or one of the five ASCII controls from
/// tab to carriage return.
pub open spec fn is_ascii_space(c: char) -> bool {
    c == ' ' || ('\t' <= c && c <= '\r')
}

/// The lowercase form of an ASCII character: `A`-`Z` become `a`-`z`.
pub open spec fn ascii_lower(c: char) -> char {
    if 'A' <= c && c <= 'Z' {
        ((c as u32) + 32) as char
    } else {
        c
    }
}

/// Whether every character of a string is in the ASCII range.
pub open spec fn all_ascii(s: Seq<char>) -> bool {
    forall|i: int| 0 <= i < s.len() ==> is_ascii(#[trigger] s[i])
}

/// Whether a character is alphabetic: within ASCII the letters, beyond
/// ASCII whatever Unicode says.
pub open spec fn alphabetic(c: char) -> bool {
    if is_ascii(c) {
        is_ascii_letter(c)
    } else {
        unicode_alphabetic(c)
    }
}

/// Whether a character is numeric: within ASCII the digits, beyond ASCII
/// whatever Unicode says.
pub open spec fn numeric(c: char) -> bool {
    if is_ascii(c) {
        is_ascii_digit(c)
    } else {
        unicode_numeric(c)
    }
}

/// Alphabetic or numeric.
pub open spec fn alphanumeric(c: char) -> bool {
    alphabetic(c) || numeric(c)
}

/// Whether a character is white space: within ASCII the space and the
/// controls from tab to carriage return, beyond ASCII whatever Unicode
/// says.
pub open spec fn whitespace(c: char) -> bool {
    if is_ascii(c) {
        is_ascii_space(c)
    } else {
        unicode_whitespace(c)
    }
}

/// The lowercase form of a string: character by character where all of it
/// is ASCII, and whatever Unicode says where it is not.
pub open spec fn lowercase(s: Seq<char>) -> Seq<char> {
    if all_ascii(s) {
        s.map_values(|c: char| ascii_lower(c))
    } else {
        unicode_lowercase(s)
    }
}

/// `char::is_alphabetic`. Trusted: its answer is a function of the
/// character. Nothing is claimed of which characters it accepts.
#[verifier::external_body]
fn unicode_is_alphabetic(c: char) -> (b: bool)
    ensures
        b == unicode_alphabetic(c),
{
    c.is_alphabetic()
}

/// `char::is_numeric`. Trusted: its answer is a function of the character.
/// Nothing is claimed of which characters it accepts.
#[verifier::external_body]
fn unicode_is_numeric(c: char) -> (b: bool)
    ensures
        b == unicode_numeric(c),
{
    c.is_numeric()
}

/// `char::is_whitespace`. Trusted: its answer is a function of the
/// character. Nothing is claimed of which characters it accepts.
#[verifier::external_body]
fn unicode_is_whitespace(c: char) -> (b: bool)
    ensures
        b == unicode_whitespace(c),
{
    c.is_whitespace()
}

/// `str::to_lowercase`. Trusted: its answer is a function of the
/// characters. Nothing is claimed of what it holds.
#[verifier::external_body]
fn unicode_to_lowercase(s: &str) -> (r: String)
    ensures
        r@ == unicode_lowercase(s@),
{
    s.to_lowercase()
}

/// `String::push`. Trusted: appends the one character.
#[verifier::external_body]
pub(crate) fn push_char(s: &mut String, c: char)
    ensures
        final(s)@ == old(s)@.push(c),
{
    s.push(c)
}

/// Whether a character is in the ASCII range.
pub fn in_ascii(c: char) -> (b: bool)
    ensures
        b == is_ascii(c),
{
    c <= '\x7f'
}

/// Whether a character is alphabetic.
pub fn is_alphabetic(c: char) -> (b: bool)
    ensures
        b == alphabetic(c),
{
    if in_ascii(c) {
        ('a' <= c && c <= 'z') || ('A' <= c && c <= 'Z')
    } else {
        unicode_is_alphabetic(c)
    }
}

/// Whether a character is numeric.
pub fn is_numeric(c: char) -> (b: bool)
    ensures
        b == numeric(c),
{
    if in_ascii(c) {
        '0' <= c && c <= '9'
    } else {
        unicode_is_numeric(c)
    }
}

/// Whether a character is white space.
pub fn is_whitespace(c: char) -> (b: bool)
    ensures
        b == whitespace(c),
{
    if in_ascii(c) {
        c == ' ' || ('\t' <= c && c <= '\r')
    } else {
        unicode_is_whitespace(c)
    }
}

/// Whether a character is alphabetic or numeric.
pub fn is_alphanumeric(c: char) -> (b: bool)
    ensures
        b == alphanumeric(c),
{
    is_alphabetic(c) || is_numeric(c)
}

// ---------------------------------------------------------------------------
// Conversions
// ---------------------------------------------------------------------------

/// The characters of `s`.
pub fn chars_of(s: &str) -> (v: Vec<char>)
    ensures
        v@ == s@,
{
    let mut v: Vec<char> = Vec::new();
    for c in it: s.chars()
        invariant
            it.seq() == s@,
            v@ == s@.take(it.index() as int),
    {
        assert(s@.take(it.index() + 1) =~= s@.take(it.index() as int).push(c));
        v.push(c);
    }
    assert(s@.take(s@.len() as int) =~= s@);
    v
}

/// The string made of the characters of `v`.
pub fn string_of(v: &Vec<char>) -> (s: String)
    ensures
        s@ == v@,
{
    let mut s = String::new();
    let mut i: usize = 0;
    while i < v.len()
        invariant
            i <= v.len(),
            s@ == v@.take(i as int),
        decreases v.len() - i,
    {
        assert(v@.take(i + 1) =~= v@.take(i as int).push(v@[i as int]));
        push_char(&mut s, v[i]);
        i += 1;
    }
    assert(v@.take(v@.len() as int) =~= v@);
    s
}

/// The lowercase form of a string.
pub fn to_lowercase(s: &str) -> (r: String)
    ensures
        r@ == lowercase(s@),
{
    let chars = chars_of(s);
    let mut lower: Vec<char> = Vec::new();
    let mut i: usize = 0;
    while i < chars.len()
        invariant
            i <= chars.len(),
            chars@ == s@,
            all_ascii(chars@.take(i as int)),
            lower@ == chars@.take(i as int).map_values(|c: char| ascii_lower(c)),
        decreases chars.len() - i,
    {
        let c = chars[i];
        if !in_ascii(c) {
            assert(!all_ascii(s@));
            return unicode_to_lowercase(s);
        }
        let l = if 'A' <= c && c <= 'Z' {
            ((c as u8) + 32) as char
        } else {
            c
        };
        assert(l == ascii_lower(c));
        assert(chars@.take(i + 1) =~= chars@.take(i as int).push(c));
        assert(chars@.take(i + 1).map_values(|c: char| ascii_lower(c)) =~= chars@.take(
            i as int,
        ).map_values(|c: char| ascii_lower(c)).push(l));
        lower.push(l);
        i += 1;
    }
    assert(chars@.take(chars.len() as int) =~= chars@);
    string_of(&lower)
}

/// Appends `s` to `out`.
pub fn put(out: &mut String, s: &str)
    ensures
        final(out)@ == old(out)@ + s@,
{
    out.append(s);
}

// ---------------------------------------------------------------------------
// Equality, prefixes, suffixes, substrings
// ---------------------------------------------------------------------------

/// Whether two character sequences are the same.
pub fn seq_eq(a: &Vec<char>, b: &Vec<char>) -> (r: bool)
    ensures
        r == (a@ == b@),
{
    if a.len() != b.len() {
        return false;
    }
    let mut i: usize = 0;
    while i < a.len()
        invariant
            i <= a.len(),
            a.len() == b.len(),
            forall|k: int| 0 <= k < i ==> a@[k] == b@[k],
        decreases a.len() - i,
    {
        if a[i] != b[i] {
            return false;
        }
        i += 1;
    }
    assert(a@ =~= b@);
    true
}

/// Whether two strings hold the same characters.
pub fn str_eq(a: &str, b: &str) -> (r: bool)
    ensures
        r == (a@ == b@),
{
    let x = chars_of(a);
    let y = chars_of(b);
    seq_eq(&x, &y)
}

/// Whether `s` holds `p` at offset `at`.
pub open spec fn holds_at(s: Seq<char>, p: Seq<char>, at: int) -> bool {
    0 <= at && at + p.len() <= s.len() && s.subrange(at, at + p.len()) == p
}

/// Whether `s` starts with `p`.
pub open spec fn is_prefix(p: Seq<char>, s: Seq<char>) -> bool {
    holds_at(s, p, 0)
}

/// Whether `s` ends with `p`.
pub open spec fn is_suffix(p: Seq<char>, s: Seq<char>) -> bool {
    holds_at(s, p, s.len() - p.len())
}

/// Whether `p` occurs somewhere in `s`.
pub open spec fn has_sub(s: Seq<char>, p: Seq<char>) -> bool {
    exists|at: int| #[trigger] holds_at(s, p, at)
}

/// Whether `s` holds `p` at offset `at`.
pub fn matches_at(s: &Vec<char>, p: &Vec<char>, at: usize) -> (b: bool)
    ensures
        b == holds_at(s@, p@, at as int),
{
    if at > s.len() || p.len() > s.len() - at {
        return false;
    }
    let mut i: usize = 0;
    while i < p.len()
        invariant
            i <= p.len(),
            at + p.len() <= s.len(),
            forall|k: int| 0 <= k < i ==> s@[at + k] == p@[k],
        decreases p.len() - i,
    {
        if s[at + i] != p[i] {
            assert(s@.subrange(at as int, at + p@.len())[i as int] == s@[at + i]);
            return false;
        }
        i += 1;
    }
    assert(s@.subrange(at as int, at + p@.len()) =~= p@);
    true
}

/// Whether `s` starts with `p`.
pub fn starts_with(s: &Vec<char>, p: &Vec<char>) -> (b: bool)
    ensures
        b == is_prefix(p@, s@),
{
    matches_at(s, p, 0)
}

/// Whether `s` ends with `p`.
pub fn ends_with(s: &Vec<char>, p: &Vec<char>) -> (b: bool)
    ensures
        b == is_suffix(p@, s@),
{
    if p.len() > s.len() {
        return false;
    }
    matches_at(s, p, s.len() - p.len())
}

/// Whether `p` occurs somewhere in `s`.
pub fn contains_sub(s: &Vec<char>, p: &Vec<char>) -> (b: bool)
    ensures
        b == has_sub(s@, p@),
{
    if p.len() > s.len() {
        assert(forall|at: int| !#[trigger] holds_at(s@, p@, at));
        return false;
    }
    let last: usize = s.len() - p.len();
    let mut i: usize = 0;
    loop
        invariant
            i <= last,
            last == s.len() - p.len(),
            forall|at: int| 0 <= at < i ==> !#[trigger] holds_at(s@, p@, at),
        decreases last - i,
    {
        if matches_at(s, p, i) {
            return true;
        }
        if i == last {
            assert(forall|at: int| !#[trigger] holds_at(s@, p@, at));
            return false;
        }
        i += 1;
    }
}

/// Whether `c` occurs in `s`.
pub fn contains_char(s: &Vec<char>, c: char) -> (b: bool)
    ensures
        b == s@.contains(c),
{
    let mut i: usize = 0;
    while i < s.len()
        invariant
            i <= s.len(),
            forall|k: int| 0 <= k < i ==> s@[k] != c,
        decreases s.len() - i,
    {
        if s[i] == c {
            return true;
        }
        i += 1;
    }
    false
}

// ---------------------------------------------------------------------------
// Slicing
// ---------------------------------------------------------------------------

/// The characters of `s` from `from` up to `to`.
pub fn slice_of(s: &Vec<char>, from: usize, to: usize) -> (r: Vec<char>)
    requires
        from <= to <= s.len(),
    ensures
        r@ == s@.subrange(from as int, to as int),
{
    let mut r: Vec<char> = Vec::new();
    let mut i: usize = from;
    while i < to
        invariant
            from <= i <= to <= s.len(),
            r@ == s@.subrange(from as int, i as int),
        decreases to - i,
    {
        assert(s@.subrange(from as int, i + 1) =~= s@.subrange(from as int, i as int).push(
            s@[i as int],
        ));
        r.push(s[i]);
        i += 1;
    }
    r
}

/// The position of the first `c` in `s`, if there is one.
pub open spec fn first_index(s: Seq<char>, c: char) -> Option<int>
    decreases s.len(),
{
    if s.len() == 0 {
        None
    } else if s[0] == c {
        Some(0)
    } else {
        match first_index(s.drop_first(), c) {
            Some(i) => Some(i + 1),
            None => None,
        }
    }
}

/// The first index of a character is where it stands first; without an
/// index the character stands nowhere.
pub proof fn lemma_first_index(s: Seq<char>, c: char)
    ensures
        match first_index(s, c) {
            Some(i) => 0 <= i < s.len() && s[i] == c && forall|k: int| 0 <= k < i ==> s[k] != c,
            None => forall|k: int| 0 <= k < s.len() ==> s[k] != c,
        },
    decreases s.len(),
{
    if s.len() > 0 && s[0] != c {
        lemma_first_index(s.drop_first(), c);
        match first_index(s.drop_first(), c) {
            Some(i) => {
                assert(forall|k: int| 1 <= k < i + 1 ==> s[k] == s.drop_first()[k - 1]);
            },
            None => {
                assert(forall|k: int| 1 <= k < s.len() ==> s[k] == s.drop_first()[k - 1]);
            },
        }
    }
}

/// A position that holds the character, with none before it, is its first
/// index.
pub proof fn lemma_first_index_is(s: Seq<char>, c: char, i: int)
    requires
        0 <= i < s.len(),
        s[i] == c,
        forall|k: int| 0 <= k < i ==> s[k] != c,
    ensures
        first_index(s, c) == Some(i),
{
    lemma_first_index(s, c);
}

/// A character that stands nowhere has no first index.
pub proof fn lemma_first_index_none(s: Seq<char>, c: char)
    requires
        forall|k: int| 0 <= k < s.len() ==> s[k] != c,
    ensures
        first_index(s, c) == None::<int>,
{
    lemma_first_index(s, c);
}

/// The position of the first `c` in `s`.
pub fn find_char(s: &Vec<char>, c: char) -> (r: Option<usize>)
    ensures
        r is Some == first_index(s@, c) is Some,
        r is Some ==> r->0 as int == first_index(s@, c)->0 && r->0 < s.len(),
{
    let mut i: usize = 0;
    while i < s.len()
        invariant
            i <= s.len(),
            forall|k: int| 0 <= k < i ==> s@[k] != c,
        decreases s.len() - i,
    {
        if s[i] == c {
            proof {
                lemma_first_index_is(s@, c, i as int);
            }
            return Some(i);
        }
        i += 1;
    }
    proof {
        lemma_first_index_none(s@, c);
    }
    None
}

/// How many characters of `s` come after its last `c`: all of them when
/// `s` holds no `c`.
pub open spec fn tail_len(s: Seq<char>, c: char) -> nat
    decreases s.len(),
{
    if s.len() == 0 {
        0
    } else if s.last() == c {
        0
    } else {
        tail_len(s.drop_last(), c) + 1
    }
}

/// The tail holds no `c`, and a `c` stands right before it unless the tail
/// is all of `s`.
pub proof fn lemma_tail_len(s: Seq<char>, c: char)
    ensures
        tail_len(s, c) <= s.len(),
        forall|k: int| s.len() - tail_len(s, c) <= k < s.len() ==> s[k] != c,
        tail_len(s, c) < s.len() ==> s[s.len() - tail_len(s, c) - 1] == c,
    decreases s.len(),
{
    if s.len() > 0 && s.last() != c {
        lemma_tail_len(s.drop_last(), c);
        assert(forall|k: int| 0 <= k < s.len() - 1 ==> s.drop_last()[k] == s[k]);
    }
}

/// What follows the last `c` in `s`; all of `s` when it holds no `c`.
pub open spec fn after_last(s: Seq<char>, c: char) -> Seq<char> {
    s.subrange(s.len() - tail_len(s, c), s.len() as int)
}

/// What follows the last `c` in `s`; all of `s` when it holds no `c`.
pub fn after_last_of(s: &Vec<char>, c: char) -> (r: Vec<char>)
    ensures
        r@ == after_last(s@, c),
{
    let mut start: usize = s.len();
    proof {
        lemma_tail_len(s@, c);
    }
    while start > 0 && s[start - 1] != c
        invariant
            start <= s.len(),
            tail_len(s@, c) <= s.len(),
            s.len() - start <= tail_len(s@, c),
            forall|k: int| start <= k < s.len() ==> s@[k] != c,
            forall|k: int| s.len() - tail_len(s@, c) <= k < s.len() ==> s@[k] != c,
            tail_len(s@, c) < s.len() ==> s@[s.len() - tail_len(s@, c) - 1] == c,
        decreases start,
    {
        proof {
            if s.len() - start == tail_len(s@, c) {
                assert(s@[start - 1] == c);
            }
        }
        start -= 1;
    }
    slice_of(s, start, s.len())
}

/// How many leading characters of `s` are `c`.
pub open spec fn lead_len(s: Seq<char>, c: char) -> nat
    decreases s.len(),
{
    if s.len() == 0 {
        0
    } else if s[0] != c {
        0
    } else {
        lead_len(s.drop_first(), c) + 1
    }
}

/// The leading run holds only `c`, and what follows it is not `c`.
pub proof fn lemma_lead_len(s: Seq<char>, c: char)
    ensures
        lead_len(s, c) <= s.len(),
        forall|k: int| 0 <= k < lead_len(s, c) ==> s[k] == c,
        lead_len(s, c) < s.len() ==> s[lead_len(s, c) as int] != c,
    decreases s.len(),
{
    if s.len() > 0 && s[0] == c {
        lemma_lead_len(s.drop_first(), c);
        assert(forall|k: int| 1 <= k < s.len() ==> s[k] == s.drop_first()[k - 1]);
    }
}

/// `s` without its leading run of `c`.
pub open spec fn skip_leading(s: Seq<char>, c: char) -> Seq<char> {
    s.subrange(lead_len(s, c) as int, s.len() as int)
}

/// `s` without its leading run of `c`.
pub fn skip_leading_of(s: &Vec<char>, c: char) -> (r: Vec<char>)
    ensures
        r@ == skip_leading(s@, c),
{
    let mut i: usize = 0;
    proof {
        lemma_lead_len(s@, c);
    }
    while i < s.len() && s[i] == c
        invariant
            i <= s.len(),
            i <= lead_len(s@, c) <= s.len(),
            forall|k: int| 0 <= k < lead_len(s@, c) ==> s@[k] == c,
            lead_len(s@, c) < s.len() ==> s@[lead_len(s@, c) as int] != c,
        decreases s.len() - i,
    {
        i += 1;
    }
    slice_of(s, i, s.len())
}

// ---------------------------------------------------------------------------
// Trimming
// ---------------------------------------------------------------------------

/// How many leading characters of `s` are white space.
pub open spec fn lead_space(s: Seq<char>) -> nat
    decreases s.len(),
{
    if s.len() == 0 {
        0
    } else if !whitespace(s[0]) {
        0
    } else {
        lead_space(s.drop_first()) + 1
    }
}

/// How many trailing characters of `s` are white space.
pub open spec fn trail_space(s: Seq<char>) -> nat
    decreases s.len(),
{
    if s.len() == 0 {
        0
    } else if !whitespace(s.last()) {
        0
    } else {
        trail_space(s.drop_last()) + 1
    }
}

/// The leading white space is white space, and what follows it is none.
pub proof fn lemma_lead_space(s: Seq<char>)
    ensures
        lead_space(s) <= s.len(),
        forall|k: int| 0 <= k < lead_space(s) ==> whitespace(s[k]),
        lead_space(s) < s.len() ==> !whitespace(s[lead_space(s) as int]),
    decreases s.len(),
{
    if s.len() > 0 && whitespace(s[0]) {
        lemma_lead_space(s.drop_first());
        assert(forall|k: int| 1 <= k < s.len() ==> s[k] == s.drop_first()[k - 1]);
    }
}

/// The trailing white space is white space, and what stands before it is
/// none.
pub proof fn lemma_trail_space(s: Seq<char>)
    ensures
        trail_space(s) <= s.len(),
        forall|k: int| s.len() - trail_space(s) <= k < s.len() ==> whitespace(s[k]),
        trail_space(s) < s.len() ==> !whitespace(s[s.len() - trail_space(s) - 1]),
    decreases s.len(),
{
    if s.len() > 0 && whitespace(s.last()) {
        lemma_trail_space(s.drop_last());
        assert(forall|k: int| 0 <= k < s.len() - 1 ==> s.drop_last()[k] == s[k]);
    }
}

/// `s` without its leading and trailing white space.
pub open spec fn trimmed(s: Seq<char>) -> Seq<char> {
    let rest = s.subrange(lead_space(s) as int, s.len() as int);
    rest.subrange(0, rest.len() - trail_space(rest))
}

/// A trimmed string neither starts nor ends with white space.
pub proof fn lemma_trimmed_edges(s: Seq<char>)
    ensures
        trimmed(s).len() > 0 ==> !whitespace(trimmed(s)[0]) && !whitespace(
            trimmed(s).last(),
        ),
{
    lemma_lead_space(s);
    let rest = s.subrange(lead_space(s) as int, s.len() as int);
    lemma_trail_space(rest);
}

/// Trimming leaves a string without white space at its ends as it is.
pub proof fn lemma_trimmed_fixed(s: Seq<char>)
    requires
        s.len() > 0 ==> !whitespace(s[0]) && !whitespace(s.last()),
    ensures
        trimmed(s) == s,
{
    let rest = s.subrange(lead_space(s) as int, s.len() as int);
    assert(rest =~= s);
    assert(trimmed(s) =~= s);
}

/// Trimming twice is trimming once.
pub proof fn lemma_trimmed_idempotent(s: Seq<char>)
    ensures
        trimmed(trimmed(s)) == trimmed(s),
{
    lemma_trimmed_edges(s);
    lemma_trimmed_fixed(trimmed(s));
}

/// `s` without its leading and trailing white space.
pub fn trim(s: &Vec<char>) -> (r: Vec<char>)
    ensures
        r@ == trimmed(s@),
{
    let mut i: usize = 0;
    proof {
        lemma_lead_space(s@);
    }
    while i < s.len() && is_whitespace(s[i])
        invariant
            i <= s.len(),
            i <= lead_space(s@) <= s.len(),
            forall|k: int| 0 <= k < lead_space(s@) ==> whitespace(s@[k]),
            lead_space(s@) < s.len() ==> !whitespace(s@[lead_space(s@) as int]),
        decreases s.len() - i,
    {
        i += 1;
    }
    let ghost rest = s@.subrange(i as int, s.len() as int);
    proof {
        lemma_trail_space(rest);
    }
    let mut j: usize = s.len();
    while j > i && is_whitespace(s[j - 1])
        invariant
            i <= j <= s.len(),
            rest == s@.subrange(i as int, s.len() as int),
            s.len() - j <= trail_space(rest) <= rest.len(),
            forall|k: int|
                rest.len() - trail_space(rest) <= k < rest.len() ==> whitespace(rest[k]),
            trail_space(rest) < rest.len() ==> !whitespace(
                rest[rest.len() - trail_space(rest) - 1],
            ),
        decreases j,
    {
        proof {
            if s.len() - j == trail_space(rest) {
                assert(rest[rest.len() - trail_space(rest) - 1] == s@[j - 1]);
            }
        }
        j -= 1;
    }
    proof {
        if j > i {
            assert(!whitespace(s@[j - 1]));
            if s.len() - j < trail_space(rest) {
                assert(rest[j - i - 1] == s@[j - 1]);
            }
        }
        assert(s@.subrange(i as int, j as int) =~= rest.subrange(0, rest.len() - trail_space(rest)));
    }
    slice_of(s, i, j)
}

// ---------------------------------------------------------------------------
// Order
// ---------------------------------------------------------------------------

/// Whether `a` comes strictly before `b` when strings are ordered character
/// by character, a proper prefix first.
pub open spec fn lex_lt(a: Seq<char>, b: Seq<char>) -> bool
    decreases a.len(),
{
    if b.len() == 0 {
        false
    } else if a.len() == 0 {
        true
    } else if a[0] != b[0] {
        a[0] < b[0]
    } else {
        lex_lt(a.drop_first(), b.drop_first())
    }
}

/// Whether `a` comes strictly before `b`.
pub fn lex_less(a: &Vec<char>, b: &Vec<char>) -> (r: bool)
    ensures
        r == lex_lt(a@, b@),
{
    let mut i: usize = 0;
    assert(a@.skip(0) =~= a@ && b@.skip(0) =~= b@);
    while i < a.len() && i < b.len() && a[i] == b[i]
        invariant
            i <= a.len(),
            i <= b.len(),
            lex_lt(a@, b@) == lex_lt(a@.skip(i as int), b@.skip(i as int)),
        decreases a.len() - i,
    {
        proof {
            let x = a@.skip(i as int);
            let y = b@.skip(i as int);
            assert(x[0] == y[0]);
            assert(x.drop_first() =~= a@.skip(i + 1));
            assert(y.drop_first() =~= b@.skip(i + 1));
        }
        i += 1;
    }
    proof {
        let x = a@.skip(i as int);
        let y = b@.skip(i as int);
        if i < a.len() && i < b.len() {
            assert(x[0] == a@[i as int] && y[0] == b@[i as int]);
        }
    }
    if i >= b.len() {
        false
    } else if i >= a.len() {
        true
    } else {
        a[i] < b[i]
    }
}

/// No string comes before itself.
pub proof fn lemma_lex_irreflexive(a: Seq<char>)
    ensures
        !lex_lt(a, a),
    decreases a.len(),
{
    if a.len() > 0 {
        lemma_lex_irreflexive(a.drop_first());
    }
}

/// Of two different strings one comes before the other.
pub proof fn lemma_lex_total(a: Seq<char>, b: Seq<char>)
    ensures
        a == b || lex_lt(a, b) || lex_lt(b, a),
    decreases a.len(),
{
    if a.len() > 0 && b.len() > 0 && a[0] == b[0] {
        lemma_lex_total(a.drop_first(), b.drop_first());
        if a.drop_first() == b.drop_first() {
            assert(a =~= seq![a[0]] + a.drop_first());
            assert(b =~= seq![b[0]] + b.drop_first());
        }
    } else if a.len() == 0 && b.len() == 0 {
        assert(a =~= b);
    }
}

/// Never both ways.
pub proof fn lemma_lex_asymmetric(a: Seq<char>, b: Seq<char>)
    ensures
        !(lex_lt(a, b) && lex_lt(b, a)),
    decreases a.len(),
{
    if a.len() > 0 && b.len() > 0 && a[0] == b[0] {
        lemma_lex_asymmetric(a.drop_first(), b.drop_first());
    }
}

/// Before is transitive.
pub proof fn lemma_lex_transitive(a: Seq<char>, b: Seq<char>, c: Seq<char>)
    requires
        lex_lt(a, b),
        lex_lt(b, c),
    ensures
        lex_lt(a, c),
    decreases a.len(),
{
    if a.len() > 0 && b.len() > 0 && c.len() > 0 && a[0] == b[0] && b[0] == c[0] {
        lemma_lex_transitive(a.drop_first(), b.drop_first(), c.drop_first());
    }
}

/// `s` without every trailing repetition of `suffix`.
pub open spec fn without_suffix(s: Seq<char>, suffix: Seq<char>) -> Seq<char>
    decreases s.len(),
{
    if suffix.len() > 0 && is_suffix(suffix, s) {
        without_suffix(s.subrange(0, s.len() - suffix.len()), suffix)
    } else {
        s
    }
}

/// `s` without every trailing repetition of `suffix`.
pub fn strip_suffix(s: &Vec<char>, suffix: &Vec<char>) -> (r: Vec<char>)
    ensures
        r@ == without_suffix(s@, suffix@),
{
    let mut end: usize = s.len();
    if suffix.len() == 0 {
        assert(s@.subrange(0, s.len() as int) =~= s@);
        return slice_of(s, 0, end);
    }
    assert(s@.subrange(0, end as int) =~= s@);
    loop
        invariant
            end <= s.len(),
            suffix.len() > 0,
            without_suffix(s@, suffix@) == without_suffix(s@.subrange(0, end as int), suffix@),
        decreases end,
    {
        let head = slice_of(s, 0, end);
        if !ends_with(&head, suffix) {
            return head;
        }
        assert(head@.subrange(0, head@.len() - suffix@.len()) =~= s@.subrange(
            0,
            end - suffix@.len(),
        ));
        end = end - suffix.len();
    }
}

} // verus!

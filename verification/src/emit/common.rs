//! Pieces that the emitters share: identifiers, library ids and sorted
//! lists of names.

use crate::parser::pcb::strings_view;
use crate::text::{
    alphanumeric, chars_of, find_char, first_index, is_alphanumeric, is_ascii, is_ascii_digit,
    is_ascii_letter, is_numeric, lemma_first_index, lemma_lex_asymmetric, lemma_lex_irreflexive,
    lemma_lex_total, lemma_lex_transitive, lex_less, lex_lt, lowercase, numeric, push_char,
    slice_of, str_eq, string_of, to_lowercase,
};
use vstd::prelude::*;

verus! {

// ---------------------------------------------------------------------------
// Identifiers
// ---------------------------------------------------------------------------

/// What one character of a name becomes in an identifier: itself where it
/// is alphanumeric or an underscore, with an underscore before it where it
/// is a digit that would come first; an underscore otherwise.
pub open spec fn sanitize_char(c: char, first: bool) -> Seq<char> {
    if alphanumeric(c) || c == '_' {
        if first && numeric(c) {
            seq!['_', c]
        } else {
            seq![c]
        }
    } else {
        seq!['_']
    }
}

/// The identifier characters of the first `n` characters of a name.
pub open spec fn sanitize_body(name: Seq<char>, n: int) -> Seq<char>
    decreases n,
{
    if n <= 0 {
        Seq::empty()
    } else {
        sanitize_body(name, n - 1) + sanitize_char(name[n - 1], n == 1)
    }
}

/// Whether a lowercased identifier is a reserved word.
pub open spec fn is_reserved(word: Seq<char>) -> bool {
    word == "and"@ || word == "or"@ || word == "not"@ || word == "if"@ || word == "else"@ || word
        == "for"@ || word == "in"@ || word == "true"@ || word == "false"@ || word == "none"@
}

/// The identifier that stands for a name: its characters sanitized one by
/// one, an underscore behind a reserved word, and `net` for the name that
/// leaves nothing.
pub open spec fn sanitized(name: Seq<char>) -> Seq<char> {
    let body = sanitize_body(name, name.len() as int);
    let word = if is_reserved(lowercase(body)) {
        body.push('_')
    } else {
        body
    };
    if word.len() == 0 {
        "net"@
    } else {
        word
    }
}

fn reserved(word: &str) -> (b: bool)
    ensures
        b == is_reserved(word@),
{
    str_eq(word, "and") || str_eq(word, "or") || str_eq(word, "not") || str_eq(word, "if")
        || str_eq(word, "else") || str_eq(word, "for") || str_eq(word, "in") || str_eq(
        word,
        "true",
    ) || str_eq(word, "false") || str_eq(word, "none")
}

/// The identifier that stands for a name.
pub fn sanitize_name(name: &str) -> (r: String)
    ensures
        r@ == sanitized(name@),
{
    let chars = chars_of(name);
    let mut result = String::new();
    let mut i: usize = 0;
    while i < chars.len()
        invariant
            i <= chars.len(),
            chars@ == name@,
            result@ == sanitize_body(name@, i as int),
        decreases chars.len() - i,
    {
        let ch = chars[i];
        let ghost before = result@;
        if is_alphanumeric(ch) || ch == '_' {
            if i == 0 && is_numeric(ch) {
                push_char(&mut result, '_');
            }
            push_char(&mut result, ch);
        } else {
            push_char(&mut result, '_');
        }
        assert(result@ =~= before + sanitize_char(ch, i == 0));
        i += 1;
    }
    let lower = to_lowercase(result.as_str());
    if reserved(lower.as_str()) {
        push_char(&mut result, '_');
    }
    if result.as_str().unicode_len() == 0 {
        "net".to_owned()
    } else {
        result
    }
}

/// Whether a character may stand in an identifier.
pub open spec fn is_identifier_char(c: char) -> bool {
    is_ascii_letter(c) || is_ascii_digit(c) || c == '_'
}

/// Whether a text is an identifier: a letter or an underscore, then
/// letters, digits and underscores.
pub open spec fn is_identifier(s: Seq<char>) -> bool {
    s.len() > 0 && (is_ascii_letter(s[0]) || s[0] == '_') && forall|i: int|
        0 <= i < s.len() ==> is_identifier_char(#[trigger] s[i])
}

proof fn lemma_sanitize_body(name: Seq<char>, n: int)
    requires
        0 <= n <= name.len(),
        forall|i: int| 0 <= i < name.len() && alphanumeric(#[trigger] name[i]) ==> is_ascii(name[i]),
    ensures
        n > 0 ==> sanitize_body(name, n).len() > 0 && (is_ascii_letter(sanitize_body(name, n)[0])
            || sanitize_body(name, n)[0] == '_'),
        forall|i: int|
            0 <= i < sanitize_body(name, n).len() ==> is_identifier_char(
                #[trigger] sanitize_body(name, n)[i],
            ),
    decreases n,
{
    if n > 0 {
        lemma_sanitize_body(name, n - 1);
        let c = name[n - 1];
        let prev = sanitize_body(name, n - 1);
        let piece = sanitize_char(c, n == 1);
        assert(alphanumeric(c) ==> is_ascii(c));
        assert(forall|i: int| 0 <= i < piece.len() ==> is_identifier_char(#[trigger] piece[i]));
        assert(piece.len() > 0);
        if n == 1 {
            assert(prev =~= Seq::empty());
            assert(is_ascii_letter(piece[0]) || piece[0] == '_');
        }
        assert forall|i: int| 0 <= i < (prev + piece).len() implies is_identifier_char(
            #[trigger] (prev + piece)[i],
        ) by {
            if i >= prev.len() {
                assert((prev + piece)[i] == piece[i - prev.len()]);
            }
        }
    }
}

/// A sanitized name is an identifier, whatever the name, as long as the
/// name holds no alphanumeric character beyond ASCII: such a character is
/// kept as it is.
pub proof fn lemma_sanitized_is_identifier(name: Seq<char>)
    requires
        forall|i: int| 0 <= i < name.len() && alphanumeric(#[trigger] name[i]) ==> is_ascii(name[i]),
    ensures
        is_identifier(sanitized(name)),
{
    lemma_sanitize_body(name, name.len() as int);
    reveal_strlit("net");
    let body = sanitize_body(name, name.len() as int);
    if is_reserved(lowercase(body)) {
        assert forall|i: int| 0 <= i < body.push('_').len() implies is_identifier_char(
            #[trigger] body.push('_')[i],
        ) by {
            if i < body.len() {
                assert(body.push('_')[i] == body[i]);
            }
        }
        if body.len() > 0 {
            assert(body.push('_')[0] == body[0]);
        }
    }
}

// ---------------------------------------------------------------------------
// Library ids
// ---------------------------------------------------------------------------

/// The library of a library id: what stands before its first colon, and
/// nothing where it holds no colon.
pub open spec fn library_of(lib_id: Seq<char>) -> Seq<char> {
    match first_index(lib_id, ':') {
        Some(i) => lib_id.subrange(0, i),
        None => Seq::empty(),
    }
}

/// The part name of a library id: what stands behind its first colon, and
/// all of it where it holds no colon.
pub open spec fn part_of(lib_id: Seq<char>) -> Seq<char> {
    match first_index(lib_id, ':') {
        Some(i) => lib_id.subrange(i + 1, lib_id.len() as int),
        None => lib_id,
    }
}

/// Splits a library id at its first colon into library and part name:
/// "Device:R" gives "Device" and "R", "NoColon" gives "" and "NoColon".
pub fn split_lib_id(lib_id: &str) -> (r: (String, String))
    ensures
        r.0@ == library_of(lib_id@),
        r.1@ == part_of(lib_id@),
{
    let chars = chars_of(lib_id);
    proof {
        lemma_first_index(chars@, ':');
    }
    match find_char(&chars, ':') {
        Some(i) => (
            string_of(&slice_of(&chars, 0, i)),
            string_of(&slice_of(&chars, i + 1, chars.len())),
        ),
        None => (String::new(), string_of(&chars)),
    }
}

// ---------------------------------------------------------------------------
// Sorted names
// ---------------------------------------------------------------------------

/// A sorted list with `x` put in its place; the same list where it holds
/// `x` already.
pub open spec fn sorted_insert(s: Seq<Seq<char>>, x: Seq<char>) -> Seq<Seq<char>>
    decreases s.len(),
{
    if s.len() == 0 {
        seq![x]
    } else if lex_lt(x, s.last()) {
        sorted_insert(s.drop_last(), x).push(s.last())
    } else if s.last() == x {
        s
    } else {
        s.push(x)
    }
}

/// Whether each string comes strictly before the next.
pub open spec fn strictly_sorted(s: Seq<Seq<char>>) -> bool {
    forall|i: int, j: int| 0 <= i < j < s.len() ==> lex_lt(#[trigger] s[i], #[trigger] s[j])
}

proof fn lemma_sorted_insert_at(s: Seq<Seq<char>>, x: Seq<char>, at: int)
    requires
        0 <= at <= s.len(),
        forall|k: int| at <= k < s.len() ==> lex_lt(x, #[trigger] s[k]),
        at > 0 ==> !lex_lt(x, s[at - 1]),
    ensures
        sorted_insert(s, x) == if at > 0 && s[at - 1] == x {
            s
        } else {
            s.insert(at, x)
        },
    decreases s.len(),
{
    if s.len() == 0 {
        assert(seq![x] =~= s.insert(0, x));
    } else if at == s.len() {
        if s.last() != x {
            assert(s.push(x) =~= s.insert(at, x));
        }
    } else {
        let head = s.drop_last();
        assert(lex_lt(x, s[s.len() - 1]));
        assert forall|k: int| at <= k < head.len() implies lex_lt(x, #[trigger] head[k]) by {
            assert(head[k] == s[k]);
        }
        if at > 0 {
            assert(head[at - 1] == s[at - 1]);
        }
        lemma_sorted_insert_at(head, x, at);
        if at > 0 && s[at - 1] == x {
            assert(head.push(s.last()) =~= s);
        } else {
            assert(head.insert(at, x).push(s.last()) =~= s.insert(at, x));
        }
    }
}

/// Putting a string in its place keeps a sorted list sorted, and the list
/// then holds that string and what it held before, nothing else.
pub proof fn lemma_sorted_insert(s: Seq<Seq<char>>, x: Seq<char>)
    requires
        strictly_sorted(s),
    ensures
        strictly_sorted(sorted_insert(s, x)),
        forall|y: Seq<char>|
            #[trigger] sorted_insert(s, x).contains(y) <==> (y == x || s.contains(y)),
    decreases s.len(),
{
    let r = sorted_insert(s, x);
    if s.len() == 0 {
        assert(r[0] == x);
        assert forall|y: Seq<char>| r.contains(y) <==> (y == x || s.contains(y)) by {}
    } else if lex_lt(x, s.last()) {
        let head = s.drop_last();
        assert forall|i: int, j: int| 0 <= i < j < head.len() implies lex_lt(
            #[trigger] head[i],
            #[trigger] head[j],
        ) by {
            assert(head[i] == s[i] && head[j] == s[j]);
        }
        lemma_sorted_insert(head, x);
        let mid = sorted_insert(head, x);
        assert(r == mid.push(s.last()));
        assert forall|i: int, j: int| 0 <= i < j < r.len() implies lex_lt(
            #[trigger] r[i],
            #[trigger] r[j],
        ) by {
            if j < mid.len() {
                assert(r[i] == mid[i] && r[j] == mid[j]);
            } else {
                assert(r[i] == mid[i]);
                assert(mid.contains(mid[i]));
                if mid[i] == x {
                } else {
                    assert(head.contains(mid[i]));
                    let k = choose|k: int| 0 <= k < head.len() && head[k] == mid[i];
                    assert(s[k] == head[k]);
                    assert(lex_lt(s[k], s[s.len() - 1]));
                }
            }
        }
        assert forall|y: Seq<char>| r.contains(y) <==> (y == x || s.contains(y)) by {
            if r.contains(y) {
                let k = choose|k: int| 0 <= k < r.len() && r[k] == y;
                if k < mid.len() {
                    assert(mid[k] == y);
                    assert(mid.contains(y));
                    if head.contains(y) {
                        let m = choose|m: int| 0 <= m < head.len() && head[m] == y;
                        assert(s[m] == y);
                    }
                } else {
                    assert(s[s.len() - 1] == y);
                }
            }
            if y == x {
                assert(mid.contains(x));
                let k = choose|k: int| 0 <= k < mid.len() && mid[k] == x;
                assert(r[k] == x);
            }
            if s.contains(y) {
                let k = choose|k: int| 0 <= k < s.len() && s[k] == y;
                if k < head.len() {
                    assert(head[k] == y);
                    assert(head.contains(y));
                    assert(mid.contains(y));
                    let m = choose|m: int| 0 <= m < mid.len() && mid[m] == y;
                    assert(r[m] == y);
                } else {
                    assert(r[r.len() - 1] == y);
                }
            }
        }
    } else if s.last() == x {
        assert forall|y: Seq<char>| r.contains(y) <==> (y == x || s.contains(y)) by {
            if y == x {
                assert(s[s.len() - 1] == x);
            }
        }
    } else {
        lemma_lex_total(x, s.last());
        assert(lex_lt(s.last(), x));
        assert forall|i: int, j: int| 0 <= i < j < r.len() implies lex_lt(
            #[trigger] r[i],
            #[trigger] r[j],
        ) by {
            if j < s.len() {
                assert(r[i] == s[i] && r[j] == s[j]);
            } else {
                assert(r[i] == s[i]);
                if i < s.len() - 1 {
                    assert(lex_lt(s[i], s[s.len() - 1]));
                    lemma_lex_transitive(s[i], s.last(), x);
                }
            }
        }
        assert forall|y: Seq<char>| r.contains(y) <==> (y == x || s.contains(y)) by {
            if r.contains(y) {
                let k = choose|k: int| 0 <= k < r.len() && r[k] == y;
                if k < s.len() {
                    assert(s[k] == y);
                }
            }
            if y == x {
                assert(r[r.len() - 1] == x);
            }
            if s.contains(y) {
                let k = choose|k: int| 0 <= k < s.len() && s[k] == y;
                assert(r[k] == y);
            }
        }
    }
}

/// Puts a name in its place in a sorted list, unless the list holds it.
pub fn insert_sorted(list: &mut Vec<String>, item: String)
    ensures
        strings_view(final(list)@) == sorted_insert(strings_view(old(list)@), item@),
{
    let ghost before = strings_view(list@);
    let x = chars_of(item.as_str());
    let mut at: usize = list.len();
    while at > 0 && lex_less(&x, &chars_of(list[at - 1].as_str()))
        invariant
            at <= list.len(),
            list@ == old(list)@,
            before == strings_view(list@),
            x@ == item@,
            forall|k: int| at <= k < before.len() ==> lex_lt(x@, #[trigger] before[k]),
        decreases at,
    {
        assert(before[at - 1] == list@[at - 1]@);
        at -= 1;
    }
    proof {
        if at > 0 {
            assert(before[at - 1] == list@[at - 1]@);
        }
        lemma_sorted_insert_at(before, item@, at as int);
    }
    if at > 0 && str_eq(list[at - 1].as_str(), item.as_str()) {
        return ;
    }
    list.insert(at, item);
    assert(strings_view(list@) =~= before.insert(at as int, item@));
}

/// The first `n` names sorted, each once.
pub open spec fn sorted_upto(names: Seq<Seq<char>>, n: int) -> Seq<Seq<char>>
    decreases n,
{
    if n <= 0 {
        Seq::empty()
    } else {
        sorted_insert(sorted_upto(names, n - 1), names[n - 1])
    }
}

/// The names sorted, each once.
pub open spec fn sorted_names(names: Seq<Seq<char>>) -> Seq<Seq<char>> {
    sorted_upto(names, names.len() as int)
}

/// The sorted names are sorted, each stands once, and they are the names
/// given: none is missing and none is added.
pub proof fn lemma_sorted_upto(names: Seq<Seq<char>>, n: int)
    requires
        0 <= n <= names.len(),
    ensures
        strictly_sorted(sorted_upto(names, n)),
        forall|y: Seq<char>|
            #[trigger] sorted_upto(names, n).contains(y) <==> names.take(n).contains(y),
    decreases n,
{
    let cur = names.take(n);
    if n > 0 {
        lemma_sorted_upto(names, n - 1);
        let before = sorted_upto(names, n - 1);
        let prev = names.take(n - 1);
        let x = names[n - 1];
        lemma_sorted_insert(before, x);
        assert forall|y: Seq<char>| #[trigger]
            sorted_upto(names, n).contains(y) <==> cur.contains(y) by {
            if cur.contains(y) {
                let k = choose|k: int| 0 <= k < cur.len() && cur[k] == y;
                if k < n - 1 {
                    assert(prev[k] == y);
                    assert(prev.contains(y));
                }
            }
            if sorted_upto(names, n).contains(y) {
                if y == x {
                    assert(cur[n - 1] == y);
                } else {
                    assert(before.contains(y));
                    assert(prev.contains(y));
                    let k = choose|k: int| 0 <= k < prev.len() && prev[k] == y;
                    assert(cur[k] == y);
                }
            }
        }
    } else {
        assert forall|y: Seq<char>| #[trigger]
            sorted_upto(names, n).contains(y) <==> cur.contains(y) by {}
    }
}

/// Two sorted lists that hold the same strings are the same list.
pub proof fn lemma_sorted_same(a: Seq<Seq<char>>, b: Seq<Seq<char>>)
    requires
        strictly_sorted(a),
        strictly_sorted(b),
        forall|y: Seq<char>| a.contains(y) <==> b.contains(y),
    ensures
        a == b,
    decreases a.len(),
{
    if a.len() == 0 {
        if b.len() > 0 {
            assert(b.contains(b[0]));
            assert(a.contains(b[0]));
        }
        assert(a =~= b);
    } else {
        assert(a.contains(a.last()));
        assert(b.contains(a.last()));
        let j = choose|j: int| 0 <= j < b.len() && b[j] == a.last();
        assert(b.contains(b.last()));
        assert(a.contains(b.last()));
        let i = choose|i: int| 0 <= i < a.len() && a[i] == b.last();
        if i < a.len() - 1 {
            assert(lex_lt(a[i], a[a.len() - 1]));
            if j < b.len() - 1 {
                assert(lex_lt(b[j], b[b.len() - 1]));
                lemma_lex_asymmetric(a[i], b[j]);
            } else {
                lemma_lex_irreflexive(a[i]);
            }
        }
        assert(a.last() == b.last());
        let a0 = a.drop_last();
        let b0 = b.drop_last();
        assert forall|p: int, q: int| 0 <= p < q < a0.len() implies lex_lt(
            #[trigger] a0[p],
            #[trigger] a0[q],
        ) by {
            assert(a0[p] == a[p] && a0[q] == a[q]);
        }
        assert forall|p: int, q: int| 0 <= p < q < b0.len() implies lex_lt(
            #[trigger] b0[p],
            #[trigger] b0[q],
        ) by {
            assert(b0[p] == b[p] && b0[q] == b[q]);
        }
        assert forall|y: Seq<char>| a0.contains(y) <==> b0.contains(y) by {
            if a0.contains(y) {
                let p = choose|p: int| 0 <= p < a0.len() && a0[p] == y;
                assert(a[p] == y);
                assert(lex_lt(a[p], a[a.len() - 1]));
                assert(a.contains(y));
                assert(b.contains(y));
                let q = choose|q: int| 0 <= q < b.len() && b[q] == y;
                if q == b.len() - 1 {
                    lemma_lex_irreflexive(y);
                }
                assert(b0[q] == y);
            }
            if b0.contains(y) {
                let q = choose|q: int| 0 <= q < b0.len() && b0[q] == y;
                assert(b[q] == y);
                assert(lex_lt(b[q], b[b.len() - 1]));
                assert(b.contains(y));
                assert(a.contains(y));
                let p = choose|p: int| 0 <= p < a.len() && a[p] == y;
                if p == a.len() - 1 {
                    lemma_lex_irreflexive(y);
                }
                assert(a0[p] == y);
            }
        }
        lemma_sorted_same(a0, b0);
        assert(a =~= a0.push(a.last()));
        assert(b =~= b0.push(b.last()));
    }
}

/// Sorting leaves a sorted list as it is.
pub proof fn lemma_sorted_fixed(names: Seq<Seq<char>>)
    requires
        strictly_sorted(names),
    ensures
        sorted_names(names) == names,
{
    lemma_sorted_upto(names, names.len() as int);
    assert(names.take(names.len() as int) =~= names);
    lemma_sorted_same(sorted_names(names), names);
}

/// The names sorted, each once.
pub fn sort_names(names: &Vec<String>) -> (sorted: Vec<String>)
    ensures
        strings_view(sorted@) == sorted_names(strings_view(names@)),
{
    let ghost nv = strings_view(names@);
    let mut sorted: Vec<String> = Vec::new();
    assert(strings_view(sorted@) =~= sorted_upto(nv, 0));
    let mut i: usize = 0;
    while i < names.len()
        invariant
            i <= names.len(),
            nv == strings_view(names@),
            strings_view(sorted@) == sorted_upto(nv, i as int),
        decreases names.len() - i,
    {
        assert(nv[i as int] == names@[i as int]@);
        insert_sorted(&mut sorted, names[i].clone());
        i += 1;
    }
    sorted
}

} // verus!

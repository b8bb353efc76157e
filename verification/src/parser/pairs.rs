//! Keyed lists: the entries in the order in which their keys first came,
//! each key once, a later value replacing an earlier one.

use crate::text::str_eq;
use vstd::prelude::*;

verus! {

/// The content of a keyed list of strings.
pub type Pairs = Seq<(Seq<char>, Seq<char>)>;

/// The content of a list of string pairs.
pub open spec fn pairs_view(v: Seq<(String, String)>) -> Pairs {
    v.map_values(|e: (String, String)| (e.0@, e.1@))
}

/// Where `key` stands in `s`; `s.len()` where it does not.
pub open spec fn key_index(s: Pairs, key: Seq<char>) -> int
    decreases s.len(),
{
    if s.len() == 0 {
        0
    } else if s[0].0 == key {
        0
    } else {
        key_index(s.drop_first(), key) + 1
    }
}

/// The index of a key is the first position at which the key stands.
pub proof fn lemma_key_index(s: Pairs, key: Seq<char>)
    ensures
        0 <= key_index(s, key) <= s.len(),
        forall|k: int| 0 <= k < key_index(s, key) ==> s[k].0 != key,
        key_index(s, key) < s.len() ==> s[key_index(s, key)].0 == key,
    decreases s.len(),
{
    if s.len() > 0 && s[0].0 != key {
        lemma_key_index(s.drop_first(), key);
        assert(forall|k: int| 1 <= k < s.len() ==> s[k] == s.drop_first()[k - 1]);
    }
}

/// `s` with `key` bound to `value`: in place where the key is present, at
/// the end where it is not.
pub open spec fn inserted(s: Pairs, key: Seq<char>, value: Seq<char>) -> Pairs {
    if key_index(s, key) < s.len() {
        s.update(key_index(s, key), (key, value))
    } else {
        s.push((key, value))
    }
}

/// The value bound to `key`.
pub open spec fn bound(s: Pairs, key: Seq<char>) -> Option<Seq<char>> {
    if key_index(s, key) < s.len() {
        Some(s[key_index(s, key)].1)
    } else {
        None
    }
}

/// Whether every key stands once.
pub open spec fn keys_distinct(s: Pairs) -> bool {
    forall|i: int, j: int| 0 <= i < j < s.len() ==> s[i].0 != s[j].0
}

/// The first position at which `key` stands is its index.
pub proof fn lemma_key_index_is(s: Pairs, key: Seq<char>, at: int)
    requires
        0 <= at <= s.len(),
        forall|k: int| 0 <= k < at ==> s[k].0 != key,
        at < s.len() ==> s[at].0 == key,
    ensures
        key_index(s, key) == at,
{
    lemma_key_index(s, key);
    let found = key_index(s, key);
    if found < at {
        assert(s[found].0 != key);
    } else if found > at {
        assert(s[at].0 != key);
    }
}

/// Binding a key keeps the keys distinct and makes the key bound to the
/// value; every other key keeps its value.
pub proof fn lemma_inserted(s: Pairs, key: Seq<char>, value: Seq<char>)
    requires
        keys_distinct(s),
    ensures
        keys_distinct(inserted(s, key, value)),
        bound(inserted(s, key, value), key) == Some(value),
        forall|other: Seq<char>|
            other != key ==> bound(inserted(s, key, value), other) == bound(s, other),
{
    lemma_key_index(s, key);
    let t = inserted(s, key, value);
    let at = key_index(s, key);
    assert forall|k: int| 0 <= k < at implies t[k].0 != key by {
        assert(t[k] == s[k]);
    }
    lemma_key_index_is(t, key, at);
    assert forall|other: Seq<char>| other != key implies bound(t, other) == bound(s, other) by {
        lemma_key_index(s, other);
        let old_at = key_index(s, other);
        assert forall|k: int| 0 <= k < old_at && k < t.len() implies t[k].0 != other by {
            if k != at {
                assert(t[k] == s[k]);
            }
        }
        if old_at < s.len() {
            assert(old_at != at);
            assert(t[old_at] == s[old_at]);
            lemma_key_index_is(t, other, old_at);
        } else {
            lemma_key_index_is(t, other, t.len() as int);
        }
    }
    assert forall|i: int, j: int| 0 <= i < j < t.len() implies t[i].0 != t[j].0 by {
        if at < s.len() {
            if i != at && j != at {
                assert(t[i] == s[i] && t[j] == s[j]);
            } else if i == at {
                assert(t[j] == s[j]);
                assert(s[at].0 != s[j].0);
            } else {
                assert(t[i] == s[i]);
                assert(s[i].0 != s[at].0);
            }
        } else {
            if j < s.len() {
                assert(t[i] == s[i] && t[j] == s[j]);
            } else {
                assert(t[i] == s[i]);
            }
        }
    }
}

/// Binds `key` to `value`: in place where the list holds the key, at the end
/// where it does not.
pub fn insert_pair(list: &mut Vec<(String, String)>, key: String, value: String)
    ensures
        pairs_view(final(list)@) == inserted(pairs_view(old(list)@), key@, value@),
{
    let ghost before = pairs_view(list@);
    proof {
        lemma_key_index(before, key@);
    }
    let mut i: usize = 0;
    while i < list.len()
        invariant
            i <= list.len(),
            list@ == old(list)@,
            before == pairs_view(list@),
            forall|k: int| 0 <= k < i ==> before[k].0 != key@,
            0 <= key_index(before, key@) <= before.len(),
            forall|k: int| 0 <= k < key_index(before, key@) ==> before[k].0 != key@,
            key_index(before, key@) < before.len() ==> before[key_index(before, key@)].0 == key@,
        decreases list.len() - i,
    {
        let same = str_eq(list[i].0.as_str(), key.as_str());
        assert(before[i as int].0 == list@[i as int].0@);
        if same {
            assert(key_index(before, key@) == i);
            list[i] = (key, value);
            assert(pairs_view(list@) =~= inserted(before, key@, value@));
            return ;
        }
        i += 1;
    }
    list.push((key, value));
    assert(pairs_view(list@) =~= inserted(before, key@, value@));
}

} // verus!

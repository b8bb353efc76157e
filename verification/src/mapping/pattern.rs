//! Regular-expression tests, made by the `regex` crate.

use vstd::prelude::*;

verus! {

/// Whether the regular expression `pattern` finds a match in `text`; none
/// where `pattern` is no valid expression.
pub uninterp spec fn regex_matches(pattern: Seq<char>, text: Seq<char>) -> Option<bool>;

/// The capture groups of the leftmost match of `pattern` in `text`: group 0
/// is the whole match, and a group that took no part is none. None where
/// there is no match or `pattern` is no valid expression.
pub uninterp spec fn regex_groups(pattern: Seq<char>, text: Seq<char>) -> Option<
    Seq<Option<Seq<char>>>,
>;

/// The content of capture groups.
pub open spec fn groups_view(groups: Option<Vec<Option<String>>>) -> Option<
    Seq<Option<Seq<char>>>,
> {
    match groups {
        Some(v) => Some(
            v@.map_values(
                |g: Option<String>|
                    match g {
                        Some(s) => Some(s@),
                        None => None,
                    },
            ),
        ),
        None => None,
    }
}

/// `Regex::new` and `Regex::is_match`. Trusted: the answer depends on the
/// pattern and the text alone. Nothing is claimed of what matches.
#[verifier::external_body]
pub(crate) fn is_match(pattern: &str, text: &str) -> (r: Option<bool>)
    ensures
        r == regex_matches(pattern@, text@),
{
    match regex::Regex::new(pattern) {
        Ok(re) => Some(re.is_match(text)),
        Err(_) => None,
    }
}

/// `Regex::new` and `Regex::captures`. Trusted: the groups depend on the
/// pattern and the text alone. Nothing is claimed of what they hold.
#[verifier::external_body]
pub(crate) fn captures(pattern: &str, text: &str) -> (r: Option<Vec<Option<String>>>)
    ensures
        groups_view(r) == regex_groups(pattern@, text@),
{
    match regex::Regex::new(pattern) {
        Ok(re) => re.captures(text).map(
            |caps| caps.iter().map(|m| m.map(|m| m.as_str().to_string())).collect(),
        ),
        Err(_) => None,
    }
}

/// Whether `text` matches one of `patterns`.
pub open spec fn any_matches(patterns: Seq<Seq<char>>, text: Seq<char>) -> bool {
    exists|i: int| 0 <= i < patterns.len() && #[trigger] regex_matches(patterns[i], text) == Some(true)
}

/// The content of a list of patterns.
pub open spec fn patterns_view(v: Seq<&'static str>) -> Seq<Seq<char>> {
    v.map_values(|p: &'static str| p@)
}

/// Whether `text` matches one of `patterns`.
pub(crate) fn matches_any(patterns: &Vec<&'static str>, text: &str) -> (b: bool)
    ensures
        b == any_matches(patterns_view(patterns@), text@),
{
    let mut i: usize = 0;
    while i < patterns.len()
        invariant
            i <= patterns.len(),
            forall|k: int|
                0 <= k < i ==> #[trigger] regex_matches(patterns_view(patterns@)[k], text@) != Some(
                    true,
                ),
        decreases patterns.len() - i,
    {
        let hit = is_match(patterns[i], text);
        assert(patterns_view(patterns@)[i as int] == patterns@[i as int]@);
        if hit == Some(true) {
            return true;
        }
        i += 1;
    }
    false
}

} // verus!

//! Component values in canonical units.

use crate::mapping::pattern::{captures, groups_view, is_match, regex_groups, regex_matches};
use crate::text::{
    alphabetic, chars_of, contains_char, contains_sub, ends_with, has_sub, is_alphabetic,
    is_suffix, lowercase, put, str_eq, string_of, to_lowercase, trim, trimmed,
};
use vstd::prelude::*;

verus! {

/// What kind of value a component carries.
#[derive(Clone, Copy, Debug, PartialEq, Eq, Structural)]
pub enum ComponentType {
    Resistor,
    Capacitor,
    Inductor,
    Other,
}

/// Shorthand resistances: "4k7", "10k", "1M".
pub const RESISTOR_SHORTHAND: &'static str = "(?i)^(\\d+)([kKmM])(\\d*)(?:\\s*[oO]hm)?s?$";

/// Resistances with a unit: "10kOhm", "4.7kohm".
pub const RESISTOR_EXPLICIT: &'static str =
    "(?i)^(\\d+(?:\\.\\d+)?)\\s*([kmg\u{3bc}u]?)\\s*[oO]hm";

/// Bare numbers: "100", "4.7".
pub const RESISTOR_PLAIN: &'static str = "^(\\d+(?:\\.\\d+)?)$";

/// Shorthand capacitances: "100n", "10u", "1p".
pub const CAPACITOR_SHORTHAND: &'static str = "(?i)^(\\d+(?:\\.\\d+)?)\\s*([pnu\u{3bc}m])[fF]?$";

/// Capacitances with a unit: "100nF", "10uF".
pub const CAPACITOR_EXPLICIT: &'static str = "(?i)^(\\d+(?:\\.\\d+)?)\\s*([pnu\u{3bc}m])[fF]";

/// Shorthand inductances: "100n", "10u", "1m".
pub const INDUCTOR_SHORTHAND: &'static str = "(?i)^(\\d+(?:\\.\\d+)?)\\s*([pnu\u{3bc}m])[hH]?$";

// ---------------------------------------------------------------------------
// Kinds
// ---------------------------------------------------------------------------

/// Whether a lowercased library id names the device class whose letter is
/// `letter` or whose word is `word`: ":r_", ":r " or a final ":r", or the
/// word anywhere.
pub open spec fn names_class(lower: Seq<char>, letter: char, word: Seq<char>) -> bool {
    has_sub(lower, seq![':', letter, '_']) || has_sub(lower, seq![':', letter, ' ']) || is_suffix(
        seq![':', letter],
        lower,
    ) || has_sub(lower, word)
}

/// The kind of value that the symbol with library id `lib_id` carries.
pub open spec fn kind_of(lib_id: Seq<char>) -> ComponentType {
    let lower = lowercase(lib_id);
    if names_class(lower, 'r', "resistor"@) {
        ComponentType::Resistor
    } else if names_class(lower, 'c', "capacitor"@) {
        ComponentType::Capacitor
    } else if names_class(lower, 'l', "inductor"@) {
        ComponentType::Inductor
    } else {
        ComponentType::Other
    }
}

fn class_named(lower: &Vec<char>, letter: char, word: &str) -> (b: bool)
    ensures
        b == names_class(lower@, letter, word@),
{
    let a = vec![':', letter, '_'];
    let b = vec![':', letter, ' '];
    let c = vec![':', letter];
    assert(a@ =~= seq![':', letter, '_']);
    assert(b@ =~= seq![':', letter, ' ']);
    assert(c@ =~= seq![':', letter]);
    let w = chars_of(word);
    contains_sub(lower, &a) || contains_sub(lower, &b) || ends_with(lower, &c) || contains_sub(
        lower,
        &w,
    )
}

impl ComponentType {
    /// The kind of value that the symbol with library id `lib_id` carries.
    pub fn from_lib_id(lib_id: &str) -> (kind: ComponentType)
        ensures
            kind == kind_of(lib_id@),
    {
        let lowered = to_lowercase(lib_id);
        let lower = chars_of(lowered.as_str());
        if class_named(&lower, 'r', "resistor") {
            ComponentType::Resistor
        } else if class_named(&lower, 'c', "capacitor") {
            ComponentType::Capacitor
        } else if class_named(&lower, 'l', "inductor") {
            ComponentType::Inductor
        } else {
            ComponentType::Other
        }
    }
}

// ---------------------------------------------------------------------------
// Part numbers
// ---------------------------------------------------------------------------

/// How many characters of `s` are alphabetic.
pub open spec fn count_alphabetic(s: Seq<char>) -> nat
    decreases s.len(),
{
    if s.len() == 0 {
        0
    } else {
        count_alphabetic(s.drop_last()) + if alphabetic(s.last()) {
            1nat
        } else {
            0nat
        }
    }
}

/// Whether a value reads as a manufacturer part number: it holds a hyphen
/// and is longer than 4 characters, or it is longer than 8 characters and
/// more than 3 of them are alphabetic.
pub open spec fn mpn_like(value: Seq<char>) -> bool {
    (value.contains('-') && value.len() > 4) || (value.len() > 8 && count_alphabetic(value) > 3)
}

fn mpn_chars(value: &Vec<char>) -> (b: bool)
    ensures
        b == mpn_like(value@),
{
    if contains_char(value, '-') && value.len() > 4 {
        return true;
    }
    if value.len() <= 8 {
        return false;
    }
    let mut count: usize = 0;
    let mut i: usize = 0;
    while i < value.len()
        invariant
            i <= value.len(),
            count == count_alphabetic(value@.take(i as int)),
            count <= i,
        decreases value.len() - i,
    {
        assert(value@.take(i + 1).drop_last() =~= value@.take(i as int));
        if is_alphabetic(value[i]) {
            count += 1;
        }
        i += 1;
    }
    assert(value@.take(value.len() as int) =~= value@);
    count > 3
}

/// Whether a value reads as a manufacturer part number rather than as an
/// engineering value.
pub fn looks_like_mpn(value: &str) -> (b: bool)
    ensures
        b == mpn_like(value@),
{
    let chars = chars_of(value);
    mpn_chars(&chars)
}

// ---------------------------------------------------------------------------
// Capture groups
// ---------------------------------------------------------------------------

/// The text of group `i`, or `fallback` where the group is missing or took
/// no part in the match.
pub open spec fn group_text(groups: Seq<Option<Seq<char>>>, i: int, fallback: Seq<char>) -> Seq<
    char,
> {
    if 0 <= i < groups.len() && groups[i] is Some {
        groups[i]->0
    } else {
        fallback
    }
}

fn group_or(groups: &Vec<Option<String>>, i: usize, fallback: &str) -> (r: String)
    ensures
        r@ == group_text(groups_view(Some(*groups))->0, i as int, fallback@),
{
    if i < groups.len() {
        match &groups[i] {
            Some(s) => s.clone(),
            None => fallback.to_owned(),
        }
    } else {
        fallback.to_owned()
    }
}

// ---------------------------------------------------------------------------
// Resistors
// ---------------------------------------------------------------------------

/// The multiplier of a shorthand resistance: "k" stays, "m" in either case
/// is mega.
pub open spec fn shorthand_prefix(multiplier: Seq<char>) -> Seq<char> {
    let lower = lowercase(multiplier);
    if lower == "k"@ {
        "k"@
    } else if lower == "m"@ {
        "M"@
    } else {
        Seq::empty()
    }
}

/// The multiplier of a resistance with a unit.
pub open spec fn unit_prefix(prefix: Seq<char>) -> Seq<char> {
    let lower = lowercase(prefix);
    if lower == "k"@ {
        "k"@
    } else if lower == "m"@ {
        "M"@
    } else if lower == "g"@ {
        "G"@
    } else if lower == "\u{3bc}"@ || lower == "u"@ {
        "u"@
    } else {
        Seq::empty()
    }
}

/// The canonical text of a shorthand resistance from its groups: whole
/// part, multiplier, decimals.
pub open spec fn shorthand_ohms(groups: Seq<Option<Seq<char>>>) -> Seq<char> {
    let whole = group_text(groups, 1, "0"@);
    let prefix = shorthand_prefix(group_text(groups, 2, Seq::empty()));
    let decimal = group_text(groups, 3, Seq::empty());
    if decimal.len() == 0 {
        whole + prefix + "ohm"@
    } else {
        whole + "."@ + decimal + prefix + "ohm"@
    }
}

/// The canonical text of a resistance with a unit from its groups: number,
/// multiplier.
pub open spec fn unit_ohms(groups: Seq<Option<Seq<char>>>) -> Seq<char> {
    group_text(groups, 1, "0"@) + unit_prefix(group_text(groups, 2, Seq::empty())) + "ohm"@
}

/// The canonical text of a resistance, given what the three patterns found
/// in it. The shorthand form comes first, then the form with a unit, then
/// the bare number, which is taken as ohms; a value that none of them
/// matches stays as it is.
pub open spec fn resistor_from(
    value: Seq<char>,
    shorthand: Option<Seq<Option<Seq<char>>>>,
    explicit: Option<Seq<Option<Seq<char>>>>,
    plain: Option<bool>,
) -> Seq<char> {
    match shorthand {
        Some(groups) => shorthand_ohms(groups),
        None => match explicit {
            Some(groups) => unit_ohms(groups),
            None => if plain == Some(true) {
                value + "ohm"@
            } else {
                value
            },
        },
    }
}

/// The canonical text of a resistance.
pub open spec fn resistor_text(value: Seq<char>) -> Seq<char> {
    resistor_from(
        value,
        regex_groups(RESISTOR_SHORTHAND@, value),
        regex_groups(RESISTOR_EXPLICIT@, value),
        regex_matches(RESISTOR_PLAIN@, value),
    )
}

fn shorthand_prefix_of(multiplier: &str) -> (r: &'static str)
    ensures
        r@ == shorthand_prefix(multiplier@),
{
    let lower = to_lowercase(multiplier);
    if str_eq(lower.as_str(), "k") {
        "k"
    } else if str_eq(lower.as_str(), "m") {
        "M"
    } else {
        proof {
            reveal_strlit("");
        }
        assert(""@ =~= Seq::<char>::empty());
        ""
    }
}

fn unit_prefix_of(prefix: &str) -> (r: &'static str)
    ensures
        r@ == unit_prefix(prefix@),
{
    let lower = to_lowercase(prefix);
    if str_eq(lower.as_str(), "k") {
        "k"
    } else if str_eq(lower.as_str(), "m") {
        "M"
    } else if str_eq(lower.as_str(), "g") {
        "G"
    } else if str_eq(lower.as_str(), "\u{3bc}") || str_eq(lower.as_str(), "u") {
        "u"
    } else {
        proof {
            reveal_strlit("");
        }
        assert(""@ =~= Seq::<char>::empty());
        ""
    }
}

/// The canonical text of a resistance from its value and from what the
/// three patterns found in it.
pub fn resistor_from_matches(
    value: &str,
    shorthand: Option<Vec<Option<String>>>,
    explicit: Option<Vec<Option<String>>>,
    plain: Option<bool>,
) -> (r: String)
    ensures
        r@ == resistor_from(value@, groups_view(shorthand), groups_view(explicit), plain),
{
    proof {
        reveal_strlit("");
    }
    assert(""@ =~= Seq::<char>::empty());
    let mut out = String::new();
    match shorthand {
        Some(groups) => {
            let whole = group_or(&groups, 1, "0");
            let multiplier = group_or(&groups, 2, "");
            let decimal = group_or(&groups, 3, "");
            let prefix = shorthand_prefix_of(multiplier.as_str());
            put(&mut out, whole.as_str());
            if decimal.as_str().unicode_len() > 0 {
                put(&mut out, ".");
                put(&mut out, decimal.as_str());
            }
            put(&mut out, prefix);
            put(&mut out, "ohm");
            assert(out@ =~= shorthand_ohms(groups_view(Some(groups))->0));
        },
        None => match explicit {
            Some(groups) => {
                let number = group_or(&groups, 1, "0");
                let prefix = unit_prefix_of(group_or(&groups, 2, "").as_str());
                put(&mut out, number.as_str());
                put(&mut out, prefix);
                put(&mut out, "ohm");
                assert(out@ =~= unit_ohms(groups_view(Some(groups))->0));
            },
            None => {
                put(&mut out, value);
                if plain == Some(true) {
                    put(&mut out, "ohm");
                    assert(out@ =~= value@ + "ohm"@);
                } else {
                    assert(out@ =~= value@);
                }
            },
        },
    }
    out
}

/// The canonical text of a resistance.
pub fn normalize_resistor_value(value: &str) -> (r: String)
    ensures
        r@ == resistor_text(value@),
{
    let shorthand = captures(RESISTOR_SHORTHAND, value);
    if shorthand.is_some() {
        return resistor_from_matches(value, shorthand, None, None);
    }
    let explicit = captures(RESISTOR_EXPLICIT, value);
    if explicit.is_some() {
        return resistor_from_matches(value, None, explicit, None);
    }
    let plain = is_match(RESISTOR_PLAIN, value);
    resistor_from_matches(value, None, None, plain)
}

// ---------------------------------------------------------------------------
// Capacitors and inductors
// ---------------------------------------------------------------------------

/// The metric prefix of a capacitance or an inductance: pico, nano, micro
/// (written "u" or with the Greek letter) or milli.
pub open spec fn metric_prefix(prefix: Seq<char>) -> Seq<char> {
    let lower = lowercase(prefix);
    if lower == "p"@ {
        "p"@
    } else if lower == "n"@ {
        "n"@
    } else if lower == "u"@ || lower == "\u{3bc}"@ {
        "u"@
    } else if lower == "m"@ {
        "m"@
    } else {
        Seq::empty()
    }
}

/// The canonical text of a prefixed value from its groups: number, prefix;
/// then the unit letter.
pub open spec fn prefixed(groups: Seq<Option<Seq<char>>>, unit: Seq<char>) -> Seq<char> {
    group_text(groups, 1, "0"@) + metric_prefix(group_text(groups, 2, Seq::empty())) + unit
}

/// The canonical text of a capacitance, given what the two patterns found
/// in it: the shorthand form first, then the form with a unit; a value that
/// neither matches stays as it is.
pub open spec fn capacitor_from(
    value: Seq<char>,
    shorthand: Option<Seq<Option<Seq<char>>>>,
    explicit: Option<Seq<Option<Seq<char>>>>,
) -> Seq<char> {
    match shorthand {
        Some(groups) => prefixed(groups, "F"@),
        None => match explicit {
            Some(groups) => prefixed(groups, "F"@),
            None => value,
        },
    }
}

/// The canonical text of a capacitance.
pub open spec fn capacitor_text(value: Seq<char>) -> Seq<char> {
    capacitor_from(
        value,
        regex_groups(CAPACITOR_SHORTHAND@, value),
        regex_groups(CAPACITOR_EXPLICIT@, value),
    )
}

/// The canonical text of an inductance, given what the pattern found in it;
/// a value that it does not match stays as it is.
pub open spec fn inductor_from(value: Seq<char>, shorthand: Option<Seq<Option<Seq<char>>>>) -> Seq<
    char,
> {
    match shorthand {
        Some(groups) => prefixed(groups, "H"@),
        None => value,
    }
}

/// The canonical text of an inductance.
pub open spec fn inductor_text(value: Seq<char>) -> Seq<char> {
    inductor_from(value, regex_groups(INDUCTOR_SHORTHAND@, value))
}

fn metric_prefix_of(prefix: &str) -> (r: &'static str)
    ensures
        r@ == metric_prefix(prefix@),
{
    let lower = to_lowercase(prefix);
    if str_eq(lower.as_str(), "p") {
        "p"
    } else if str_eq(lower.as_str(), "n") {
        "n"
    } else if str_eq(lower.as_str(), "u") || str_eq(lower.as_str(), "\u{3bc}") {
        "u"
    } else if str_eq(lower.as_str(), "m") {
        "m"
    } else {
        proof {
            reveal_strlit("");
        }
        assert(""@ =~= Seq::<char>::empty());
        ""
    }
}

fn prefixed_text(groups: &Vec<Option<String>>, unit: &str) -> (r: String)
    ensures
        r@ == prefixed(groups_view(Some(*groups))->0, unit@),
{
    proof {
        reveal_strlit("");
    }
    assert(""@ =~= Seq::<char>::empty());
    let number = group_or(groups, 1, "0");
    let prefix = metric_prefix_of(group_or(groups, 2, "").as_str());
    let mut out = String::new();
    put(&mut out, number.as_str());
    put(&mut out, prefix);
    put(&mut out, unit);
    assert(out@ =~= prefixed(groups_view(Some(*groups))->0, unit@));
    out
}

/// The canonical text of a capacitance from its value and from what the two
/// patterns found in it.
pub fn capacitor_from_matches(
    value: &str,
    shorthand: Option<Vec<Option<String>>>,
    explicit: Option<Vec<Option<String>>>,
) -> (r: String)
    ensures
        r@ == capacitor_from(value@, groups_view(shorthand), groups_view(explicit)),
{
    match shorthand {
        Some(groups) => prefixed_text(&groups, "F"),
        None => match explicit {
            Some(groups) => prefixed_text(&groups, "F"),
            None => value.to_owned(),
        },
    }
}

/// The canonical text of a capacitance.
pub fn normalize_capacitor_value(value: &str) -> (r: String)
    ensures
        r@ == capacitor_text(value@),
{
    let shorthand = captures(CAPACITOR_SHORTHAND, value);
    if shorthand.is_some() {
        return capacitor_from_matches(value, shorthand, None);
    }
    let explicit = captures(CAPACITOR_EXPLICIT, value);
    capacitor_from_matches(value, None, explicit)
}

/// The canonical text of an inductance from its value and from what the
/// pattern found in it.
pub fn inductor_from_matches(value: &str, shorthand: Option<Vec<Option<String>>>) -> (r: String)
    ensures
        r@ == inductor_from(value@, groups_view(shorthand)),
{
    match shorthand {
        Some(groups) => prefixed_text(&groups, "H"),
        None => value.to_owned(),
    }
}

/// The canonical text of an inductance.
pub fn normalize_inductor_value(value: &str) -> (r: String)
    ensures
        r@ == inductor_text(value@),
{
    let shorthand = captures(INDUCTOR_SHORTHAND, value);
    inductor_from_matches(value, shorthand)
}

// ---------------------------------------------------------------------------
// Values
// ---------------------------------------------------------------------------

/// What the rules of a kind make of a value: its canonical text where a
/// pattern of the kind recognises it, and the value as it is where none
/// does. The kind `Other` has no rules.
pub open spec fn kind_text(value: Seq<char>, kind: ComponentType) -> Seq<char> {
    match kind {
        ComponentType::Resistor => resistor_text(value),
        ComponentType::Capacitor => capacitor_text(value),
        ComponentType::Inductor => inductor_text(value),
        ComponentType::Other => value,
    }
}

/// What one pass makes of a value of that kind: the value itself,
/// unchanged, where the kind is `Other` or the value reads as a part
/// number; and else what the rules of its kind make of the value without
/// the white space around it.
pub open spec fn normalized_once(value: Seq<char>, kind: ComponentType) -> Seq<char> {
    if kind == ComponentType::Other || mpn_like(value) {
        value
    } else {
        kind_text(trimmed(value), kind)
    }
}

/// The canonical text of a value of that kind: what one pass makes of it,
/// where that text is canonical, which is to say that a second pass leaves
/// it as it is; and the value itself, unchanged, where it is not.
pub open spec fn normalized(value: Seq<char>, kind: ComponentType) -> Seq<char> {
    let text = normalized_once(value, kind);
    if normalized_once(text, kind) == text {
        text
    } else {
        value
    }
}

fn normalize_once(value: &str, component_type: ComponentType) -> (r: String)
    ensures
        r@ == normalized_once(value@, component_type),
{
    if component_type == ComponentType::Other {
        return value.to_owned();
    }
    let chars = chars_of(value);
    if mpn_chars(&chars) {
        return value.to_owned();
    }
    let v = string_of(&trim(&chars));
    match component_type {
        ComponentType::Resistor => normalize_resistor_value(v.as_str()),
        ComponentType::Capacitor => normalize_capacitor_value(v.as_str()),
        ComponentType::Inductor => normalize_inductor_value(v.as_str()),
        ComponentType::Other => v,
    }
}

/// Brings a value into canonical units: "4k7" on a resistor becomes
/// "4.7kohm", "100n" on a capacitor "100nF". A value of the kind `Other`
/// and a part number come back unchanged. White space around a value goes
/// before the rules of its kind are applied. The text that the rules give
/// is returned only where it is canonical: where the rules would change it
/// once more, the value comes back unchanged.
pub fn normalize_value(value: &str, component_type: ComponentType) -> (r: String)
    ensures
        r@ == normalized(value@, component_type),
{
    let text = normalize_once(value, component_type);
    let again = normalize_once(text.as_str(), component_type);
    if str_eq(again.as_str(), text.as_str()) {
        text
    } else {
        value.to_owned()
    }
}

/// Normalizing is idempotent: a second pass returns what the first
/// returned, for every value and every kind.
pub proof fn lemma_normalize_idempotent(value: Seq<char>, kind: ComponentType)
    ensures
        normalized(normalized(value, kind), kind) == normalized(value, kind),
{
}

/// A value of the kind `Other` and a part number pass through unchanged.
pub proof fn lemma_normalize_passes_through(value: Seq<char>, kind: ComponentType)
    requires
        kind == ComponentType::Other || mpn_like(value),
    ensures
        normalized(value, kind) == value,
{
}

/// Where the rules of the kind give a canonical text, that text is
/// returned: the value is then normalized in one pass.
pub proof fn lemma_normalize_canonical(value: Seq<char>, kind: ComponentType)
    requires
        normalized_once(normalized_once(value, kind), kind) == normalized_once(value, kind),
    ensures
        normalized(value, kind) == normalized_once(value, kind),
{
}

} // verus!

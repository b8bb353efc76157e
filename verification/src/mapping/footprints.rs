//! Footprint name to package and to component kind.

use crate::mapping::pattern::{captures, groups_view, patterns_view, regex_groups};
use crate::parser::pairs::Pairs;
use crate::text::{
    after_last, after_last_of, alphabetic, chars_of, contains_sub, has_sub, is_alphabetic,
    is_prefix, lowercase, seq_eq, slice_of, starts_with, string_of, to_lowercase,
};
use vstd::prelude::*;

verus! {

// ---------------------------------------------------------------------------
// Packages
// ---------------------------------------------------------------------------

/// The package patterns, in the order in which they are tried. Group 1 of
/// each is the package.
pub open spec fn package_patterns() -> Seq<Seq<char>> {
    seq![
        "^[RCL]_(\\d{4})_\\d+Metric"@,
        "^LED_(\\d{4})_\\d+Metric"@,
        "^L_(\\d{4})_\\d+Metric"@,
        "^Crystal_SMD_(\\d{4})-\\d+Pin"@,
        "^D_(\\d{4})$"@,
        "^D_(SOD-\\d+)"@,
        "^(SOT-\\d+)"@,
        "^(QFN-\\d+|DFN-\\d+)"@,
        "^(SOIC-\\d+)"@,
        "^(TSSOP-\\d+)"@,
    ]
}

fn package_list() -> (v: Vec<&'static str>)
    ensures
        patterns_view(v@) == package_patterns(),
{
    let v = vec![
        "^[RCL]_(\\d{4})_\\d+Metric",
        "^LED_(\\d{4})_\\d+Metric",
        "^L_(\\d{4})_\\d+Metric",
        "^Crystal_SMD_(\\d{4})-\\d+Pin",
        "^D_(\\d{4})$",
        "^D_(SOD-\\d+)",
        "^(SOT-\\d+)",
        "^(QFN-\\d+|DFN-\\d+)",
        "^(SOIC-\\d+)",
        "^(TSSOP-\\d+)",
    ];
    assert(patterns_view(v@) =~= package_patterns());
    v
}

/// The package that one pattern found: group 1 of its match.
pub open spec fn captured_package(groups: Option<Seq<Option<Seq<char>>>>) -> Option<Seq<char>> {
    match groups {
        Some(g) => if g.len() > 1 {
            g[1]
        } else {
            None
        },
        None => None,
    }
}

/// The package that the first pattern from `from` on finds in `name`.
pub open spec fn first_package(patterns: Seq<Seq<char>>, name: Seq<char>, from: int) -> Option<
    Seq<char>,
>
    decreases patterns.len() - from,
{
    if from < 0 || from >= patterns.len() {
        None
    } else {
        match captured_package(regex_groups(patterns[from], name)) {
            Some(package) => Some(package),
            None => first_package(patterns, name, from + 1),
        }
    }
}

/// The footprint name without its library: what follows the last colon.
pub open spec fn bare_name(footprint: Seq<char>) -> Seq<char> {
    after_last(footprint, ':')
}

/// The package of a footprint: what the first package pattern that matches
/// its bare name captures; none where no pattern matches.
pub open spec fn package_of(footprint: Seq<char>) -> Option<Seq<char>> {
    first_package(package_patterns(), bare_name(footprint), 0)
}

/// The package in the capture groups of one pattern.
pub fn package_from_groups(groups: Option<Vec<Option<String>>>) -> (r: Option<String>)
    ensures
        match r {
            Some(p) => captured_package(groups_view(groups)) == Some(p@),
            None => captured_package(groups_view(groups)) is None,
        },
{
    match groups {
        Some(g) => {
            if g.len() > 1 {
                match &g[1] {
                    Some(p) => Some(p.clone()),
                    None => None,
                }
            } else {
                None
            }
        },
        None => None,
    }
}

/// The package size that a footprint name carries:
/// "Resistor_SMD:R_0402_1005Metric" gives "0402"; a name that no pattern
/// matches gives none.
pub fn extract_package(footprint: &str) -> (r: Option<String>)
    ensures
        match r {
            Some(p) => package_of(footprint@) == Some(p@),
            None => package_of(footprint@) is None,
        },
{
    let chars = chars_of(footprint);
    let name = string_of(&after_last_of(&chars, ':'));
    let patterns = package_list();
    let mut i: usize = 0;
    while i < patterns.len()
        invariant
            i <= patterns.len(),
            patterns_view(patterns@) == package_patterns(),
            name@ == bare_name(footprint@),
            package_of(footprint@) == first_package(package_patterns(), name@, i as int),
        decreases patterns.len() - i,
    {
        assert(patterns_view(patterns@)[i as int] == patterns@[i as int]@);
        let found = package_from_groups(captures(patterns[i], name.as_str()));
        if found.is_some() {
            return found;
        }
        i += 1;
    }
    None
}

/// Whether a footprint name reads as surface mount: lowercased, it holds
/// "smd" or "metric".
pub open spec fn smd_named(footprint: Seq<char>) -> bool {
    let lower = lowercase(footprint);
    has_sub(lower, "smd"@) || has_sub(lower, "metric"@) || has_sub(lower, "_smd"@)
}

/// Whether a footprint name reads as surface mount.
pub fn is_smd_footprint(footprint: &str) -> (b: bool)
    ensures
        b == smd_named(footprint@),
{
    let lower = chars_of(to_lowercase(footprint).as_str());
    contains_sub(&lower, &chars_of("smd")) || contains_sub(&lower, &chars_of("metric"))
        || contains_sub(&lower, &chars_of("_smd"))
}

// ---------------------------------------------------------------------------
// Component kinds
// ---------------------------------------------------------------------------

/// The kind of component that a footprint stands for.
#[derive(Clone, Copy, Debug, PartialEq, Eq, Structural)]
pub enum FootprintComponentType {
    Resistor,
    Capacitor,
    Inductor,
    Led,
    Diode,
    Transistor,
    Crystal,
    Connector,
    Unknown,
}

/// The module that instantiates a kind; none for the kinds without one.
pub open spec fn module_file_of(kind: FootprintComponentType) -> Option<Seq<char>> {
    match kind {
        FootprintComponentType::Resistor => Some("@stdlib/generics/Resistor.zen"@),
        FootprintComponentType::Capacitor => Some("@stdlib/generics/Capacitor.zen"@),
        FootprintComponentType::Inductor => Some("@stdlib/generics/Inductor.zen"@),
        FootprintComponentType::Led => Some("@stdlib/generics/Led.zen"@),
        FootprintComponentType::Diode => Some("@stdlib/generics/Diode.zen"@),
        FootprintComponentType::Crystal => Some("@stdlib/generics/Crystal.zen"@),
        _ => None,
    }
}

/// The name under which a kind is instantiated; none for the kinds without
/// a module.
pub open spec fn module_name_of(kind: FootprintComponentType) -> Option<Seq<char>> {
    match kind {
        FootprintComponentType::Resistor => Some("Resistor"@),
        FootprintComponentType::Capacitor => Some("Capacitor"@),
        FootprintComponentType::Inductor => Some("Inductor"@),
        FootprintComponentType::Led => Some("Led"@),
        FootprintComponentType::Diode => Some("Diode"@),
        FootprintComponentType::Crystal => Some("Crystal"@),
        _ => None,
    }
}

/// The pin names of a kind by pad number; empty for the kinds without a
/// module.
pub open spec fn pin_map_of(kind: FootprintComponentType) -> Pairs {
    match kind {
        FootprintComponentType::Resistor => seq![("1"@, "P1"@), ("2"@, "P2"@)],
        FootprintComponentType::Capacitor => seq![("1"@, "P1"@), ("2"@, "P2"@)],
        FootprintComponentType::Inductor => seq![("1"@, "P1"@), ("2"@, "P2"@)],
        FootprintComponentType::Led => seq![("1"@, "K"@), ("2"@, "A"@)],
        FootprintComponentType::Diode => seq![("1"@, "K"@), ("2"@, "A"@)],
        FootprintComponentType::Crystal => seq![("1"@, "P1"@), ("2"@, "P2"@)],
        _ => Seq::empty(),
    }
}

/// The content of a table of constant string pairs.
pub open spec fn table_view(v: Seq<(&'static str, &'static str)>) -> Pairs {
    v.map_values(|e: (&'static str, &'static str)| (e.0@, e.1@))
}

impl FootprintComponentType {
    /// The module that instantiates this kind.
    pub fn module_file(&self) -> (r: Option<&'static str>)
        ensures
            match r {
                Some(p) => module_file_of(*self) == Some(p@),
                None => module_file_of(*self) is None,
            },
    {
        match self {
            FootprintComponentType::Resistor => Some("@stdlib/generics/Resistor.zen"),
            FootprintComponentType::Capacitor => Some("@stdlib/generics/Capacitor.zen"),
            FootprintComponentType::Inductor => Some("@stdlib/generics/Inductor.zen"),
            FootprintComponentType::Led => Some("@stdlib/generics/Led.zen"),
            FootprintComponentType::Diode => Some("@stdlib/generics/Diode.zen"),
            FootprintComponentType::Crystal => Some("@stdlib/generics/Crystal.zen"),
            _ => None,
        }
    }

    /// The name under which this kind is instantiated.
    pub fn module_name(&self) -> (r: Option<&'static str>)
        ensures
            match r {
                Some(n) => module_name_of(*self) == Some(n@),
                None => module_name_of(*self) is None,
            },
    {
        match self {
            FootprintComponentType::Resistor => Some("Resistor"),
            FootprintComponentType::Capacitor => Some("Capacitor"),
            FootprintComponentType::Inductor => Some("Inductor"),
            FootprintComponentType::Led => Some("Led"),
            FootprintComponentType::Diode => Some("Diode"),
            FootprintComponentType::Crystal => Some("Crystal"),
            _ => None,
        }
    }

    /// The pin names of this kind by pad number.
    pub fn pin_map(&self) -> (r: Vec<(&'static str, &'static str)>)
        ensures
            table_view(r@) == pin_map_of(*self),
    {
        let r = match self {
            FootprintComponentType::Resistor => vec![("1", "P1"), ("2", "P2")],
            FootprintComponentType::Capacitor => vec![("1", "P1"), ("2", "P2")],
            FootprintComponentType::Inductor => vec![("1", "P1"), ("2", "P2")],
            FootprintComponentType::Led => vec![("1", "K"), ("2", "A")],
            FootprintComponentType::Diode => vec![("1", "K"), ("2", "A")],
            FootprintComponentType::Crystal => vec![("1", "P1"), ("2", "P2")],
            _ => Vec::new(),
        };
        assert(table_view(r@) =~= pin_map_of(*self));
        r
    }
}

/// The kind that a footprint name stands for. The tests run in a fixed
/// order on the bare name and on its lowercase form; the first that holds
/// decides.
pub open spec fn kind_of_footprint(footprint: Seq<char>) -> FootprintComponentType {
    let name = bare_name(footprint);
    let lower = lowercase(name);
    if is_prefix("R_"@, name) || has_sub(lower, "resistor"@) {
        FootprintComponentType::Resistor
    } else if is_prefix("C_"@, name) || has_sub(lower, "capacitor"@) {
        FootprintComponentType::Capacitor
    } else if is_prefix("L_"@, name) || has_sub(lower, "inductor"@) {
        FootprintComponentType::Inductor
    } else if is_prefix("LED_"@, name) || has_sub(lower, "led"@) {
        FootprintComponentType::Led
    } else if is_prefix("D_"@, name) || has_sub(lower, "diode"@) {
        FootprintComponentType::Diode
    } else if has_sub(lower, "crystal"@) {
        FootprintComponentType::Crystal
    } else if has_sub(lower, "conn"@) || has_sub(lower, "pin_header"@) || has_sub(
        lower,
        "pin_socket"@,
    ) {
        FootprintComponentType::Connector
    } else {
        FootprintComponentType::Unknown
    }
}

/// The kind of component that a footprint name stands for.
pub fn infer_component_type(footprint: &str) -> (kind: FootprintComponentType)
    ensures
        kind == kind_of_footprint(footprint@),
{
    let chars = chars_of(footprint);
    let name = after_last_of(&chars, ':');
    let lower = chars_of(to_lowercase(string_of(&name).as_str()).as_str());
    if starts_with(&name, &chars_of("R_")) || contains_sub(&lower, &chars_of("resistor")) {
        FootprintComponentType::Resistor
    } else if starts_with(&name, &chars_of("C_")) || contains_sub(&lower, &chars_of("capacitor")) {
        FootprintComponentType::Capacitor
    } else if starts_with(&name, &chars_of("L_")) || contains_sub(&lower, &chars_of("inductor")) {
        FootprintComponentType::Inductor
    } else if starts_with(&name, &chars_of("LED_")) || contains_sub(&lower, &chars_of("led")) {
        FootprintComponentType::Led
    } else if starts_with(&name, &chars_of("D_")) || contains_sub(&lower, &chars_of("diode")) {
        FootprintComponentType::Diode
    } else if contains_sub(&lower, &chars_of("crystal")) {
        FootprintComponentType::Crystal
    } else if contains_sub(&lower, &chars_of("conn")) || contains_sub(
        &lower,
        &chars_of("pin_header"),
    ) || contains_sub(&lower, &chars_of("pin_socket")) {
        FootprintComponentType::Connector
    } else {
        FootprintComponentType::Unknown
    }
}

/// How many leading characters of `s` are alphabetic.
pub open spec fn letters_len(s: Seq<char>) -> nat
    decreases s.len(),
{
    if s.len() == 0 {
        0
    } else if !alphabetic(s[0]) {
        0
    } else {
        letters_len(s.drop_first()) + 1
    }
}

/// The leading letters are letters, and what follows them is none.
pub proof fn lemma_letters_len(s: Seq<char>)
    ensures
        letters_len(s) <= s.len(),
        forall|k: int| 0 <= k < letters_len(s) ==> alphabetic(s[k]),
        letters_len(s) < s.len() ==> !alphabetic(s[letters_len(s) as int]),
    decreases s.len(),
{
    if s.len() > 0 && alphabetic(s[0]) {
        lemma_letters_len(s.drop_first());
        assert(forall|k: int| 1 <= k < s.len() ==> s[k] == s.drop_first()[k - 1]);
    }
}

/// The letters that a reference designator starts with: "R" of "R12".
pub open spec fn designator_letters(reference: Seq<char>) -> Seq<char> {
    reference.subrange(0, letters_len(reference) as int)
}

/// The kind that the letters of a reference designator stand for.
pub open spec fn kind_of_reference(reference: Seq<char>) -> FootprintComponentType {
    let letters = designator_letters(reference);
    if letters == "R"@ {
        FootprintComponentType::Resistor
    } else if letters == "C"@ {
        FootprintComponentType::Capacitor
    } else if letters == "L"@ {
        FootprintComponentType::Inductor
    } else if letters == "D"@ {
        FootprintComponentType::Diode
    } else if letters == "Q"@ {
        FootprintComponentType::Transistor
    } else if letters == "Y"@ || letters == "X"@ {
        FootprintComponentType::Crystal
    } else if letters == "J"@ || letters == "P"@ {
        FootprintComponentType::Connector
    } else {
        FootprintComponentType::Unknown
    }
}

/// The kind of component that a reference designator stands for.
pub fn infer_type_from_reference(reference: &str) -> (kind: FootprintComponentType)
    ensures
        kind == kind_of_reference(reference@),
{
    let chars = chars_of(reference);
    let mut n: usize = 0;
    proof {
        lemma_letters_len(chars@);
    }
    while n < chars.len() && is_alphabetic(chars[n])
        invariant
            n <= chars.len(),
            n <= letters_len(chars@) <= chars.len(),
            forall|k: int| 0 <= k < letters_len(chars@) ==> alphabetic(chars@[k]),
            letters_len(chars@) < chars.len() ==> !alphabetic(chars@[letters_len(chars@) as int]),
        decreases chars.len() - n,
    {
        n += 1;
    }
    let letters = slice_of(&chars, 0, n);
    if seq_eq(&letters, &chars_of("R")) {
        FootprintComponentType::Resistor
    } else if seq_eq(&letters, &chars_of("C")) {
        FootprintComponentType::Capacitor
    } else if seq_eq(&letters, &chars_of("L")) {
        FootprintComponentType::Inductor
    } else if seq_eq(&letters, &chars_of("D")) {
        FootprintComponentType::Diode
    } else if seq_eq(&letters, &chars_of("Q")) {
        FootprintComponentType::Transistor
    } else if seq_eq(&letters, &chars_of("Y")) || seq_eq(&letters, &chars_of("X")) {
        FootprintComponentType::Crystal
    } else if seq_eq(&letters, &chars_of("J")) || seq_eq(&letters, &chars_of("P")) {
        FootprintComponentType::Connector
    } else {
        FootprintComponentType::Unknown
    }
}

/// The kind from both signals: that of the footprint name where it is
/// known, else that of the reference designator.
pub open spec fn kind_of_both(footprint: Seq<char>, reference: Seq<char>) -> FootprintComponentType {
    if kind_of_footprint(footprint) != FootprintComponentType::Unknown {
        kind_of_footprint(footprint)
    } else {
        kind_of_reference(reference)
    }
}

/// The kind of component from the footprint name, with the reference
/// designator as the second signal.
pub fn infer_component_type_combined(footprint: &str, reference: &str) -> (kind:
    FootprintComponentType)
    ensures
        kind == kind_of_both(footprint@, reference@),
{
    let from_footprint = infer_component_type(footprint);
    if from_footprint != FootprintComponentType::Unknown {
        return from_footprint;
    }
    infer_type_from_reference(reference)
}

} // verus!

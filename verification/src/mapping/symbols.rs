//! Library id to generic-part template.

use crate::mapping::footprints::table_view;
use crate::parser::pairs::Pairs;
use crate::text::{chars_of, is_prefix, seq_eq, starts_with};
use vstd::prelude::*;

verus! {

/// A generic-part template: the module that stands for a family of library
/// symbols.
#[derive(Clone, Debug)]
pub struct GenericInfo {
    /// Module file, such as "@stdlib/generics/Resistor.zen".
    pub module_file: &'static str,
    /// Name under which the module is instantiated, such as "Resistor".
    pub module_name: &'static str,
    /// Pin names by pin number.
    pub pin_map: Vec<(&'static str, &'static str)>,
    /// Constructor arguments that the template fixes.
    pub flags: Vec<(&'static str, &'static str)>,
}

/// The content of a template.
pub struct GenericInfoView {
    pub module_file: Seq<char>,
    pub module_name: Seq<char>,
    pub pin_map: Pairs,
    pub flags: Pairs,
}

impl View for GenericInfo {
    type V = GenericInfoView;

    open spec fn view(&self) -> GenericInfoView {
        GenericInfoView {
            module_file: self.module_file@,
            module_name: self.module_name@,
            pin_map: table_view(self.pin_map@),
            flags: table_view(self.flags@),
        }
    }
}

/// How a rule recognises a library id.
#[derive(Clone, Debug)]
pub enum SymbolPattern {
    /// The whole library id.
    Exact(&'static str),
    /// The start of the library id.
    Prefix(&'static str),
}

/// The content of a pattern.
pub enum SymbolPatternView {
    Exact(Seq<char>),
    Prefix(Seq<char>),
}

impl View for SymbolPattern {
    type V = SymbolPatternView;

    open spec fn view(&self) -> SymbolPatternView {
        match self {
            SymbolPattern::Exact(s) => SymbolPatternView::Exact(s@),
            SymbolPattern::Prefix(s) => SymbolPatternView::Prefix(s@),
        }
    }
}

/// Whether a pattern recognises a library id.
pub open spec fn pattern_matches(pattern: SymbolPatternView, lib_id: Seq<char>) -> bool {
    match pattern {
        SymbolPatternView::Exact(s) => lib_id == s,
        SymbolPatternView::Prefix(s) => is_prefix(s, lib_id),
    }
}

impl SymbolPattern {
    /// Whether the pattern recognises a library id.
    pub fn matches(&self, lib_id: &str) -> (b: bool)
        ensures
            b == pattern_matches(self@, lib_id@),
    {
        let id = chars_of(lib_id);
        match self {
            SymbolPattern::Exact(s) => seq_eq(&id, &chars_of(s)),
            SymbolPattern::Prefix(s) => starts_with(&id, &chars_of(s)),
        }
    }
}

/// The number of rules.
pub const RULE_COUNT: usize = 25;

/// A template from its parts.
pub open spec fn template(
    module_file: Seq<char>,
    module_name: Seq<char>,
    pin_map: Pairs,
    flags: Pairs,
) -> GenericInfoView {
    GenericInfoView { module_file, module_name, pin_map, flags }
}

/// The rules, by rank. The rank is the priority: of the rules that recognise
/// a library id, the one of lowest rank decides. The order matters because a
/// prefix rule recognises whatever a longer prefix or an exact rule does.
pub open spec fn symbol_rule(rank: int) -> (SymbolPatternView, GenericInfoView) {
    if rank == 0 {
        (
            SymbolPatternView::Exact("Device:R"@),
            template(
                "@stdlib/generics/Resistor.zen"@,
                "Resistor"@,
                seq![("1"@, "P1"@), ("2"@, "P2"@)],
                Seq::empty(),
            ),
        )
    } else if rank == 1 {
        (
            SymbolPatternView::Exact("Device:R_Small"@),
            template(
                "@stdlib/generics/Resistor.zen"@,
                "Resistor"@,
                seq![("1"@, "P1"@), ("2"@, "P2"@)],
                Seq::empty(),
            ),
        )
    } else if rank == 2 {
        (
            SymbolPatternView::Exact("Device:C"@),
            template(
                "@stdlib/generics/Capacitor.zen"@,
                "Capacitor"@,
                seq![("1"@, "P1"@), ("2"@, "P2"@)],
                Seq::empty(),
            ),
        )
    } else if rank == 3 {
        (
            SymbolPatternView::Exact("Device:C_Small"@),
            template(
                "@stdlib/generics/Capacitor.zen"@,
                "Capacitor"@,
                seq![("1"@, "P1"@), ("2"@, "P2"@)],
                Seq::empty(),
            ),
        )
    } else if rank == 4 {
        (
            SymbolPatternView::Exact("Device:C_Polarized"@),
            template(
                "@stdlib/generics/Capacitor.zen"@,
                "Capacitor"@,
                seq![("1"@, "P1"@), ("2"@, "P2"@)],
                seq![("polarized"@, "true"@)],
            ),
        )
    } else if rank == 5 {
        (
            SymbolPatternView::Exact("Device:C_Polarized_Small"@),
            template(
                "@stdlib/generics/Capacitor.zen"@,
                "Capacitor"@,
                seq![("1"@, "P1"@), ("2"@, "P2"@)],
                seq![("polarized"@, "true"@)],
            ),
        )
    } else if rank == 6 {
        (
            SymbolPatternView::Exact("Device:L"@),
            template(
                "@stdlib/generics/Inductor.zen"@,
                "Inductor"@,
                seq![("1"@, "P1"@), ("2"@, "P2"@)],
                Seq::empty(),
            ),
        )
    } else if rank == 7 {
        (
            SymbolPatternView::Exact("Device:L_Small"@),
            template(
                "@stdlib/generics/Inductor.zen"@,
                "Inductor"@,
                seq![("1"@, "P1"@), ("2"@, "P2"@)],
                Seq::empty(),
            ),
        )
    } else if rank == 8 {
        (
            SymbolPatternView::Exact("Device:D"@),
            template(
                "@stdlib/generics/Diode.zen"@,
                "Diode"@,
                seq![("1"@, "K"@), ("2"@, "A"@)],
                Seq::empty(),
            ),
        )
    } else if rank == 9 {
        (
            SymbolPatternView::Exact("Device:D_Small"@),
            template(
                "@stdlib/generics/Diode.zen"@,
                "Diode"@,
                seq![("1"@, "K"@), ("2"@, "A"@)],
                Seq::empty(),
            ),
        )
    } else if rank == 10 {
        (
            SymbolPatternView::Exact("Device:D_Zener"@),
            template(
                "@stdlib/generics/Diode.zen"@,
                "Diode"@,
                seq![("1"@, "K"@), ("2"@, "A"@)],
                seq![("diode_type"@, "\"zener\""@)],
            ),
        )
    } else if rank == 11 {
        (
            SymbolPatternView::Exact("Device:D_Schottky"@),
            template(
                "@stdlib/generics/Diode.zen"@,
                "Diode"@,
                seq![("1"@, "K"@), ("2"@, "A"@)],
                seq![("diode_type"@, "\"schottky\""@)],
            ),
        )
    } else if rank == 12 {
        (
            SymbolPatternView::Exact("Device:LED"@),
            template(
                "@stdlib/generics/Led.zen"@,
                "Led"@,
                seq![("1"@, "K"@), ("2"@, "A"@)],
                Seq::empty(),
            ),
        )
    } else if rank == 13 {
        (
            SymbolPatternView::Exact("Device:LED_Small"@),
            template(
                "@stdlib/generics/Led.zen"@,
                "Led"@,
                seq![("1"@, "K"@), ("2"@, "A"@)],
                Seq::empty(),
            ),
        )
    } else if rank == 14 {
        (
            SymbolPatternView::Exact("Device:Ferrite_Bead"@),
            template(
                "@stdlib/generics/FerriteBead.zen"@,
                "FerriteBead"@,
                seq![("1"@, "P1"@), ("2"@, "P2"@)],
                Seq::empty(),
            ),
        )
    } else if rank == 15 {
        (
            SymbolPatternView::Exact("Device:Ferrite_Bead_Small"@),
            template(
                "@stdlib/generics/FerriteBead.zen"@,
                "FerriteBead"@,
                seq![("1"@, "P1"@), ("2"@, "P2"@)],
                Seq::empty(),
            ),
        )
    } else if rank == 16 {
        (
            SymbolPatternView::Exact("Device:Crystal"@),
            template(
                "@stdlib/generics/Crystal.zen"@,
                "Crystal"@,
                seq![("1"@, "P1"@), ("2"@, "P2"@)],
                Seq::empty(),
            ),
        )
    } else if rank == 17 {
        (
            SymbolPatternView::Exact("Device:Crystal_Small"@),
            template(
                "@stdlib/generics/Crystal.zen"@,
                "Crystal"@,
                seq![("1"@, "P1"@), ("2"@, "P2"@)],
                Seq::empty(),
            ),
        )
    } else if rank == 18 {
        (
            SymbolPatternView::Exact("Device:Crystal_GND24"@),
            template(
                "@stdlib/generics/Crystal.zen"@,
                "Crystal"@,
                seq![("1"@, "P1"@), ("3"@, "P2"@), ("2"@, "GND"@), ("4"@, "GND"@)],
                Seq::empty(),
            ),
        )
    } else if rank == 19 {
        (
            SymbolPatternView::Prefix("Device:Thermistor"@),
            template(
                "@stdlib/generics/Thermistor.zen"@,
                "Thermistor"@,
                seq![("1"@, "P1"@), ("2"@, "P2"@)],
                Seq::empty(),
            ),
        )
    } else if rank == 20 {
        (
            SymbolPatternView::Prefix("Device:Q_NPN"@),
            template(
                "@stdlib/generics/Bjt.zen"@,
                "Bjt"@,
                seq![("1"@, "B"@), ("2"@, "C"@), ("3"@, "E"@)],
                seq![("polarity"@, "\"NPN\""@)],
            ),
        )
    } else if rank == 21 {
        (
            SymbolPatternView::Prefix("Device:Q_PNP"@),
            template(
                "@stdlib/generics/Bjt.zen"@,
                "Bjt"@,
                seq![("1"@, "B"@), ("2"@, "C"@), ("3"@, "E"@)],
                seq![("polarity"@, "\"PNP\""@)],
            ),
        )
    } else if rank == 22 {
        (
            SymbolPatternView::Prefix("Device:Q_NMOS"@),
            template(
                "@stdlib/generics/Mosfet.zen"@,
                "Mosfet"@,
                seq![("1"@, "G"@), ("2"@, "D"@), ("3"@, "S"@)],
                seq![("channel"@, "\"N\""@)],
            ),
        )
    } else if rank == 23 {
        (
            SymbolPatternView::Prefix("Device:Q_PMOS"@),
            template(
                "@stdlib/generics/Mosfet.zen"@,
                "Mosfet"@,
                seq![("1"@, "G"@), ("2"@, "D"@), ("3"@, "S"@)],
                seq![("channel"@, "\"P\""@)],
            ),
        )
    } else {
        (
            SymbolPatternView::Prefix("Connector:TestPoint"@),
            template(
                "@stdlib/generics/TestPoint.zen"@,
                "TestPoint"@,
                seq![("1"@, "P1"@)],
                Seq::empty(),
            ),
        )
    }
}

fn make(
    module_file: &'static str,
    module_name: &'static str,
    pin_map: Vec<(&'static str, &'static str)>,
    flags: Vec<(&'static str, &'static str)>,
) -> (info: GenericInfo)
    ensures
        info@ == template(module_file@, module_name@, table_view(pin_map@), table_view(flags@)),
{
    GenericInfo { module_file, module_name, pin_map, flags }
}

fn pins_two() -> (v: Vec<(&'static str, &'static str)>)
    ensures
        table_view(v@) == seq![("1"@, "P1"@), ("2"@, "P2"@)],
{
    let v: Vec<(&'static str, &'static str)> = vec![("1", "P1"), ("2", "P2")];
    assert(table_view(v@) =~= seq![("1"@, "P1"@), ("2"@, "P2"@)]);
    v
}

fn pins_diode() -> (v: Vec<(&'static str, &'static str)>)
    ensures
        table_view(v@) == seq![("1"@, "K"@), ("2"@, "A"@)],
{
    let v: Vec<(&'static str, &'static str)> = vec![("1", "K"), ("2", "A")];
    assert(table_view(v@) =~= seq![("1"@, "K"@), ("2"@, "A"@)]);
    v
}

fn pins_crystal4() -> (v: Vec<(&'static str, &'static str)>)
    ensures
        table_view(v@) == seq![("1"@, "P1"@), ("3"@, "P2"@), ("2"@, "GND"@), ("4"@, "GND"@)],
{
    let v: Vec<(&'static str, &'static str)> = vec![("1", "P1"), ("3", "P2"), ("2", "GND"), ("4", "GND")];
    assert(table_view(v@) =~= seq![("1"@, "P1"@), ("3"@, "P2"@), ("2"@, "GND"@), ("4"@, "GND"@)]);
    v
}

fn pins_bjt() -> (v: Vec<(&'static str, &'static str)>)
    ensures
        table_view(v@) == seq![("1"@, "B"@), ("2"@, "C"@), ("3"@, "E"@)],
{
    let v: Vec<(&'static str, &'static str)> = vec![("1", "B"), ("2", "C"), ("3", "E")];
    assert(table_view(v@) =~= seq![("1"@, "B"@), ("2"@, "C"@), ("3"@, "E"@)]);
    v
}

fn pins_mosfet() -> (v: Vec<(&'static str, &'static str)>)
    ensures
        table_view(v@) == seq![("1"@, "G"@), ("2"@, "D"@), ("3"@, "S"@)],
{
    let v: Vec<(&'static str, &'static str)> = vec![("1", "G"), ("2", "D"), ("3", "S")];
    assert(table_view(v@) =~= seq![("1"@, "G"@), ("2"@, "D"@), ("3"@, "S"@)]);
    v
}

fn pins_one() -> (v: Vec<(&'static str, &'static str)>)
    ensures
        table_view(v@) == seq![("1"@, "P1"@)],
{
    let v: Vec<(&'static str, &'static str)> = vec![("1", "P1")];
    assert(table_view(v@) =~= seq![("1"@, "P1"@)]);
    v
}

fn flags_none() -> (v: Vec<(&'static str, &'static str)>)
    ensures
        table_view(v@) == Seq::<(Seq<char>, Seq<char>)>::empty(),
{
    let v: Vec<(&'static str, &'static str)> = Vec::new();
    assert(table_view(v@) =~= Seq::<(Seq<char>, Seq<char>)>::empty());
    v
}

fn flags_polarized() -> (v: Vec<(&'static str, &'static str)>)
    ensures
        table_view(v@) == seq![("polarized"@, "true"@)],
{
    let v: Vec<(&'static str, &'static str)> = vec![("polarized", "true")];
    assert(table_view(v@) =~= seq![("polarized"@, "true"@)]);
    v
}

fn flags_zener() -> (v: Vec<(&'static str, &'static str)>)
    ensures
        table_view(v@) == seq![("diode_type"@, "\"zener\""@)],
{
    let v: Vec<(&'static str, &'static str)> = vec![("diode_type", "\"zener\"")];
    assert(table_view(v@) =~= seq![("diode_type"@, "\"zener\""@)]);
    v
}

fn flags_schottky() -> (v: Vec<(&'static str, &'static str)>)
    ensures
        table_view(v@) == seq![("diode_type"@, "\"schottky\""@)],
{
    let v: Vec<(&'static str, &'static str)> = vec![("diode_type", "\"schottky\"")];
    assert(table_view(v@) =~= seq![("diode_type"@, "\"schottky\""@)]);
    v
}

fn flags_npn() -> (v: Vec<(&'static str, &'static str)>)
    ensures
        table_view(v@) == seq![("polarity"@, "\"NPN\""@)],
{
    let v: Vec<(&'static str, &'static str)> = vec![("polarity", "\"NPN\"")];
    assert(table_view(v@) =~= seq![("polarity"@, "\"NPN\""@)]);
    v
}

fn flags_pnp() -> (v: Vec<(&'static str, &'static str)>)
    ensures
        table_view(v@) == seq![("polarity"@, "\"PNP\""@)],
{
    let v: Vec<(&'static str, &'static str)> = vec![("polarity", "\"PNP\"")];
    assert(table_view(v@) =~= seq![("polarity"@, "\"PNP\""@)]);
    v
}

fn flags_nmos() -> (v: Vec<(&'static str, &'static str)>)
    ensures
        table_view(v@) == seq![("channel"@, "\"N\""@)],
{
    let v: Vec<(&'static str, &'static str)> = vec![("channel", "\"N\"")];
    assert(table_view(v@) =~= seq![("channel"@, "\"N\""@)]);
    v
}

fn flags_pmos() -> (v: Vec<(&'static str, &'static str)>)
    ensures
        table_view(v@) == seq![("channel"@, "\"P\""@)],
{
    let v: Vec<(&'static str, &'static str)> = vec![("channel", "\"P\"")];
    assert(table_view(v@) =~= seq![("channel"@, "\"P\""@)]);
    v
}

/// The rule of that rank.
pub fn rule(rank: usize) -> (r: (SymbolPattern, GenericInfo))
    requires
        rank < RULE_COUNT,
    ensures
        (r.0@, r.1@) == symbol_rule(rank as int),
{
    if rank == 0 {
        (
            SymbolPattern::Exact("Device:R"),
            make("@stdlib/generics/Resistor.zen", "Resistor", pins_two(), flags_none()),
        )
    } else if rank == 1 {
        (
            SymbolPattern::Exact("Device:R_Small"),
            make("@stdlib/generics/Resistor.zen", "Resistor", pins_two(), flags_none()),
        )
    } else if rank == 2 {
        (
            SymbolPattern::Exact("Device:C"),
            make("@stdlib/generics/Capacitor.zen", "Capacitor", pins_two(), flags_none()),
        )
    } else if rank == 3 {
        (
            SymbolPattern::Exact("Device:C_Small"),
            make("@stdlib/generics/Capacitor.zen", "Capacitor", pins_two(), flags_none()),
        )
    } else if rank == 4 {
        (
            SymbolPattern::Exact("Device:C_Polarized"),
            make("@stdlib/generics/Capacitor.zen", "Capacitor", pins_two(), flags_polarized()),
        )
    } else if rank == 5 {
        (
            SymbolPattern::Exact("Device:C_Polarized_Small"),
            make("@stdlib/generics/Capacitor.zen", "Capacitor", pins_two(), flags_polarized()),
        )
    } else if rank == 6 {
        (
            SymbolPattern::Exact("Device:L"),
            make("@stdlib/generics/Inductor.zen", "Inductor", pins_two(), flags_none()),
        )
    } else if rank == 7 {
        (
            SymbolPattern::Exact("Device:L_Small"),
            make("@stdlib/generics/Inductor.zen", "Inductor", pins_two(), flags_none()),
        )
    } else if rank == 8 {
        (
            SymbolPattern::Exact("Device:D"),
            make("@stdlib/generics/Diode.zen", "Diode", pins_diode(), flags_none()),
        )
    } else if rank == 9 {
        (
            SymbolPattern::Exact("Device:D_Small"),
            make("@stdlib/generics/Diode.zen", "Diode", pins_diode(), flags_none()),
        )
    } else if rank == 10 {
        (
            SymbolPattern::Exact("Device:D_Zener"),
            make("@stdlib/generics/Diode.zen", "Diode", pins_diode(), flags_zener()),
        )
    } else if rank == 11 {
        (
            SymbolPattern::Exact("Device:D_Schottky"),
            make("@stdlib/generics/Diode.zen", "Diode", pins_diode(), flags_schottky()),
        )
    } else if rank == 12 {
        (
            SymbolPattern::Exact("Device:LED"),
            make("@stdlib/generics/Led.zen", "Led", pins_diode(), flags_none()),
        )
    } else if rank == 13 {
        (
            SymbolPattern::Exact("Device:LED_Small"),
            make("@stdlib/generics/Led.zen", "Led", pins_diode(), flags_none()),
        )
    } else if rank == 14 {
        (
            SymbolPattern::Exact("Device:Ferrite_Bead"),
            make("@stdlib/generics/FerriteBead.zen", "FerriteBead", pins_two(), flags_none()),
        )
    } else if rank == 15 {
        (
            SymbolPattern::Exact("Device:Ferrite_Bead_Small"),
            make("@stdlib/generics/FerriteBead.zen", "FerriteBead", pins_two(), flags_none()),
        )
    } else if rank == 16 {
        (
            SymbolPattern::Exact("Device:Crystal"),
            make("@stdlib/generics/Crystal.zen", "Crystal", pins_two(), flags_none()),
        )
    } else if rank == 17 {
        (
            SymbolPattern::Exact("Device:Crystal_Small"),
            make("@stdlib/generics/Crystal.zen", "Crystal", pins_two(), flags_none()),
        )
    } else if rank == 18 {
        (
            SymbolPattern::Exact("Device:Crystal_GND24"),
            make("@stdlib/generics/Crystal.zen", "Crystal", pins_crystal4(), flags_none()),
        )
    } else if rank == 19 {
        (
            SymbolPattern::Prefix("Device:Thermistor"),
            make("@stdlib/generics/Thermistor.zen", "Thermistor", pins_two(), flags_none()),
        )
    } else if rank == 20 {
        (
            SymbolPattern::Prefix("Device:Q_NPN"),
            make("@stdlib/generics/Bjt.zen", "Bjt", pins_bjt(), flags_npn()),
        )
    } else if rank == 21 {
        (
            SymbolPattern::Prefix("Device:Q_PNP"),
            make("@stdlib/generics/Bjt.zen", "Bjt", pins_bjt(), flags_pnp()),
        )
    } else if rank == 22 {
        (
            SymbolPattern::Prefix("Device:Q_NMOS"),
            make("@stdlib/generics/Mosfet.zen", "Mosfet", pins_mosfet(), flags_nmos()),
        )
    } else if rank == 23 {
        (
            SymbolPattern::Prefix("Device:Q_PMOS"),
            make("@stdlib/generics/Mosfet.zen", "Mosfet", pins_mosfet(), flags_pmos()),
        )
    } else {
        (
            SymbolPattern::Prefix("Connector:TestPoint"),
            make("@stdlib/generics/TestPoint.zen", "TestPoint", pins_one(), flags_none()),
        )
    }
}

/// The rank of the first rule from `from` on that recognises `lib_id`.
pub open spec fn first_rule(lib_id: Seq<char>, from: int) -> Option<int>
    decreases RULE_COUNT - from,
{
    if from < 0 || from >= RULE_COUNT {
        None
    } else if pattern_matches(symbol_rule(from).0, lib_id) {
        Some(from)
    } else {
        first_rule(lib_id, from + 1)
    }
}

/// The template of a library id: that of the first rule, in rank order,
/// that recognises it; none where no rule does.
pub open spec fn template_of(lib_id: Seq<char>) -> Option<GenericInfoView> {
    match first_rule(lib_id, 0) {
        Some(rank) => Some(symbol_rule(rank).1),
        None => None,
    }
}

/// The first rule that recognises a library id has the lowest rank of all
/// that do.
pub proof fn lemma_first_rule(lib_id: Seq<char>, from: int)
    requires
        0 <= from,
    ensures
        match first_rule(lib_id, from) {
            Some(rank) => from <= rank < RULE_COUNT && pattern_matches(symbol_rule(rank).0, lib_id)
                && forall|k: int| from <= k < rank ==> !pattern_matches(symbol_rule(k).0, lib_id),
            None => forall|k: int|
                from <= k < RULE_COUNT ==> !pattern_matches(symbol_rule(k).0, lib_id),
        },
    decreases RULE_COUNT - from,
{
    if from < RULE_COUNT && !pattern_matches(symbol_rule(from).0, lib_id) {
        lemma_first_rule(lib_id, from + 1);
    }
}

/// The generic-part template of a library id. None means unmapped: the
/// symbol has no template and is emitted as a generic component.
pub fn map_symbol(lib_id: &str) -> (r: Option<GenericInfo>)
    ensures
        match r {
            Some(info) => template_of(lib_id@) == Some(info@),
            None => template_of(lib_id@) is None,
        },
{
    let mut rank: usize = 0;
    while rank < RULE_COUNT
        invariant
            rank <= RULE_COUNT,
            first_rule(lib_id@, 0) == first_rule(lib_id@, rank as int),
        decreases RULE_COUNT - rank,
    {
        let (pattern, info) = rule(rank);
        if pattern.matches(lib_id) {
            return Some(info);
        }
        rank += 1;
    }
    None
}

/// The pin names of a library id by pin number: those of its template,
/// none where it is unmapped.
pub open spec fn pin_map_of_symbol(lib_id: Seq<char>) -> Pairs {
    match template_of(lib_id) {
        Some(info) => info.pin_map,
        None => Seq::empty(),
    }
}

/// The pin names of a library id by pin number.
pub fn get_pin_map(lib_id: &str) -> (r: Vec<(&'static str, &'static str)>)
    ensures
        table_view(r@) == pin_map_of_symbol(lib_id@),
{
    match map_symbol(lib_id) {
        Some(info) => info.pin_map,
        None => {
            let r: Vec<(&'static str, &'static str)> = Vec::new();
            assert(table_view(r@) =~= Seq::<(Seq<char>, Seq<char>)>::empty());
            r
        },
    }
}

} // verus!

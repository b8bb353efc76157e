//! Reader for schematic documents.

use crate::parser::pairs::{insert_pair, inserted, keys_distinct, lemma_inserted, pairs_view, Pairs};
use crate::parser::sexpr::{
    bare_word_at, get_position, get_word, has_tag, is_word, low_u32, origin, origin_position,
    position_of, string_value, tagged, text_at, to_u32, word_at, FormatError, Position, Sexpr,
};
use crate::text::str_eq;
use vstd::prelude::*;

verus! {

/// A pin of a library symbol.
#[derive(Clone, Debug)]
pub struct LibPin {
    /// Pin number, such as "1".
    pub number: String,
    /// Pin name.
    pub name: String,
    /// Electrical kind, such as "passive".
    pub pin_type: String,
}

/// The content of a library pin.
pub struct LibPinView {
    pub number: Seq<char>,
    pub name: Seq<char>,
    pub pin_type: Seq<char>,
}

impl View for LibPin {
    type V = LibPinView;

    open spec fn view(&self) -> LibPinView {
        LibPinView { number: self.number@, name: self.name@, pin_type: self.pin_type@ }
    }
}

/// A library symbol definition.
#[derive(Clone, Debug)]
pub struct LibSymbol {
    /// Symbol name, such as "Device:R".
    pub name: String,
    /// Properties by key.
    pub properties: Vec<(String, String)>,
    /// Pin definitions, in document order.
    pub pins: Vec<LibPin>,
}

/// The content of a library symbol.
pub struct LibSymbolView {
    pub name: Seq<char>,
    pub properties: Pairs,
    pub pins: Seq<LibPinView>,
}

impl View for LibSymbol {
    type V = LibSymbolView;

    open spec fn view(&self) -> LibSymbolView {
        LibSymbolView {
            name: self.name@,
            properties: pairs_view(self.properties@),
            pins: pins_view(self.pins@),
        }
    }
}

/// A symbol placed in the schematic.
#[derive(Clone, Debug)]
pub struct SchematicSymbol {
    /// Instance identifier.
    pub uuid: String,
    /// Library reference, "Library:Name".
    pub lib_id: String,
    /// Position: x, y, rotation.
    pub at: Position,
    /// Reference designator, such as "R1".
    pub reference: String,
    /// Value, such as "10k".
    pub value: String,
    /// Footprint name.
    pub footprint: String,
    /// Do not populate.
    pub dnp: bool,
    /// Left out of the bill of materials.
    pub exclude_from_bom: bool,
    /// Left off the board.
    pub exclude_from_board: bool,
    /// Pin instance identifiers by pin number.
    pub pins: Vec<(String, String)>,
    /// All properties by key.
    pub properties: Vec<(String, String)>,
}

/// The content of a placed symbol.
pub struct SchematicSymbolView {
    pub uuid: Seq<char>,
    pub lib_id: Seq<char>,
    pub at: Position,
    pub reference: Seq<char>,
    pub value: Seq<char>,
    pub footprint: Seq<char>,
    pub dnp: bool,
    pub exclude_from_bom: bool,
    pub exclude_from_board: bool,
    pub pins: Pairs,
    pub properties: Pairs,
}

impl View for SchematicSymbol {
    type V = SchematicSymbolView;

    open spec fn view(&self) -> SchematicSymbolView {
        SchematicSymbolView {
            uuid: self.uuid@,
            lib_id: self.lib_id@,
            at: self.at,
            reference: self.reference@,
            value: self.value@,
            footprint: self.footprint@,
            dnp: self.dnp,
            exclude_from_bom: self.exclude_from_bom,
            exclude_from_board: self.exclude_from_board,
            pins: pairs_view(self.pins@),
            properties: pairs_view(self.properties@),
        }
    }
}

/// A parsed schematic.
#[derive(Clone, Debug)]
pub struct KicadSchematic {
    /// Format version.
    pub version: u32,
    /// Document identifier.
    pub uuid: String,
    /// Library symbols, each name once.
    pub lib_symbols: Vec<LibSymbol>,
    /// Placed symbols, in document order.
    pub symbols: Vec<SchematicSymbol>,
}

/// The content of a schematic.
pub struct KicadSchematicView {
    pub version: u32,
    pub uuid: Seq<char>,
    pub lib_symbols: Seq<LibSymbolView>,
    pub symbols: Seq<SchematicSymbolView>,
}

impl View for KicadSchematic {
    type V = KicadSchematicView;

    open spec fn view(&self) -> KicadSchematicView {
        KicadSchematicView {
            version: self.version,
            uuid: self.uuid@,
            lib_symbols: lib_symbols_view(self.lib_symbols@),
            symbols: symbols_view(self.symbols@),
        }
    }
}

impl LibSymbolView {
    /// Whether the symbol is well formed: no property key stands twice.
    pub open spec fn wf(self) -> bool {
        keys_distinct(self.properties)
    }
}

impl SchematicSymbolView {
    /// Whether the symbol is well formed: no property key and no pin
    /// number stands twice.
    pub open spec fn wf(self) -> bool {
        keys_distinct(self.properties) && keys_distinct(self.pins)
    }
}

/// Whether every symbol name stands once, and every symbol is well formed.
pub open spec fn table_wf(table: Seq<LibSymbolView>) -> bool {
    (forall|i: int, j: int| 0 <= i < j < table.len() ==> table[i].name != table[j].name)
        && forall|i: int| 0 <= i < table.len() ==> (#[trigger] table[i]).wf()
}

impl KicadSchematicView {
    /// Whether the schematic is well formed: no library symbol name stands
    /// twice, and every symbol is well formed.
    pub open spec fn wf(self) -> bool {
        table_wf(self.lib_symbols) && forall|i: int|
            0 <= i < self.symbols.len() ==> (#[trigger] self.symbols[i]).wf()
    }
}

/// The content of a list of library pins.
pub open spec fn pins_view(v: Seq<LibPin>) -> Seq<LibPinView> {
    v.map_values(|p: LibPin| p@)
}

/// The content of a table of library symbols.
pub open spec fn lib_symbols_view(v: Seq<LibSymbol>) -> Seq<LibSymbolView> {
    v.map_values(|s: LibSymbol| s@)
}

/// The content of a list of placed symbols.
pub open spec fn symbols_view(v: Seq<SchematicSymbol>) -> Seq<SchematicSymbolView> {
    v.map_values(|s: SchematicSymbol| s@)
}

// ---------------------------------------------------------------------------
// Placed symbols
// ---------------------------------------------------------------------------

/// A placed symbol before any of its children is read.
pub open spec fn symbol_start() -> SchematicSymbolView {
    SchematicSymbolView {
        uuid: Seq::empty(),
        lib_id: Seq::empty(),
        at: origin(),
        reference: Seq::empty(),
        value: Seq::empty(),
        footprint: Seq::empty(),
        dnp: false,
        exclude_from_bom: false,
        exclude_from_board: false,
        pins: Seq::empty(),
        properties: Seq::empty(),
    }
}

/// What a `(property "key" value)` child does to a placed symbol: the
/// property is recorded, and the three named ones also fill their field.
pub open spec fn symbol_property(s: SchematicSymbolView, items: Seq<Sexpr>) -> SchematicSymbolView {
    if items.len() > 2 && items[1].str_text() is Some {
        let key = items[1].str_text()->0;
        let value = items[2].text();
        let t = SchematicSymbolView { properties: inserted(s.properties, key, value), ..s };
        if key == "Reference"@ {
            SchematicSymbolView { reference: value, ..t }
        } else if key == "Value"@ {
            SchematicSymbolView { value: value, ..t }
        } else if key == "Footprint"@ {
            SchematicSymbolView { footprint: value, ..t }
        } else {
            t
        }
    } else {
        s
    }
}

/// What a `(pin "number" (uuid id))` child does to a placed symbol.
pub open spec fn symbol_pin(s: SchematicSymbolView, items: Seq<Sexpr>) -> SchematicSymbolView {
    if items.len() > 2 && items[1].str_text() is Some && items[2].items() is Some && tagged(
        items[2].items()->0,
        "uuid"@,
    ) && items[2].items()->0.len() > 1 {
        SchematicSymbolView {
            pins: inserted(s.pins, items[1].str_text()->0, items[2].items()->0[1].text()),
            ..s
        }
    } else {
        s
    }
}

/// What one child does to a placed symbol. A child that is no list, or whose
/// first word is none of those below, changes nothing.
pub open spec fn symbol_step(s: SchematicSymbolView, child: Sexpr) -> SchematicSymbolView {
    match child.items() {
        None => s,
        Some(items) => {
            if tagged(items, "lib_id"@) {
                if items.len() > 1 {
                    SchematicSymbolView { lib_id: items[1].text(), ..s }
                } else {
                    s
                }
            } else if tagged(items, "uuid"@) {
                if items.len() > 1 {
                    SchematicSymbolView { uuid: items[1].text(), ..s }
                } else {
                    s
                }
            } else if tagged(items, "at"@) {
                SchematicSymbolView {
                    at: position_of(items),
                    ..s
                }
            } else if tagged(items, "dnp"@) {
                SchematicSymbolView { dnp: word_at(items, 1, "yes"@), ..s }
            } else if tagged(items, "in_bom"@) {
                SchematicSymbolView { exclude_from_bom: word_at(items, 1, "no"@), ..s }
            } else if tagged(items, "on_board"@) {
                SchematicSymbolView { exclude_from_board: word_at(items, 1, "no"@), ..s }
            } else if tagged(items, "property"@) {
                symbol_property(s, items)
            } else if tagged(items, "pin"@) {
                symbol_pin(s, items)
            } else {
                s
            }
        },
    }
}

/// The placed symbol after the children `list[1..n]` were read in order.
pub open spec fn symbol_upto(list: Seq<Sexpr>, n: int) -> SchematicSymbolView
    decreases n,
{
    if n <= 1 {
        symbol_start()
    } else {
        symbol_step(symbol_upto(list, n - 1), list[n - 1])
    }
}

/// The placed symbol that a `(symbol ...)` list describes.
pub open spec fn symbol_of(list: Seq<Sexpr>) -> SchematicSymbolView {
    symbol_upto(list, list.len() as int)
}

/// One more child leaves a well-formed symbol well formed.
pub proof fn lemma_symbol_step_wf(s: SchematicSymbolView, child: Sexpr)
    requires
        s.wf(),
    ensures
        symbol_step(s, child).wf(),
{
    match child.items() {
        Some(items) => {
            if items.len() > 2 && items[1].str_text() is Some {
                lemma_inserted(s.properties, items[1].str_text()->0, items[2].text());
                if items[2].items() is Some && items[2].items()->0.len() > 1 {
                    lemma_inserted(s.pins, items[1].str_text()->0, items[2].items()->0[1].text());
                }
            }
        },
        None => {},
    }
}

/// Whatever the children, the symbol read from them is well formed.
pub proof fn lemma_symbol_upto_wf(list: Seq<Sexpr>, n: int)
    ensures
        symbol_upto(list, n).wf(),
    decreases n,
{
    if n > 1 {
        lemma_symbol_upto_wf(list, n - 1);
        lemma_symbol_step_wf(symbol_upto(list, n - 1), list[n - 1]);
    }
}

fn apply_symbol_property(symbol: &mut SchematicSymbol, items: &Vec<Sexpr>)
    ensures
        final(symbol)@ == symbol_property(old(symbol)@, items@),
{
    if items.len() > 2 {
        if let Some(key) = items[1].as_str() {
            let value = string_value(&items[2]);
            insert_pair(&mut symbol.properties, key.to_owned(), value.clone());
            if str_eq(key, "Reference") {
                symbol.reference = value;
            } else if str_eq(key, "Value") {
                symbol.value = value;
            } else if str_eq(key, "Footprint") {
                symbol.footprint = value;
            }
        }
    }
}

fn apply_symbol_pin(symbol: &mut SchematicSymbol, items: &Vec<Sexpr>)
    ensures
        final(symbol)@ == symbol_pin(old(symbol)@, items@),
{
    if items.len() > 2 {
        if let Some(pin_num) = items[1].as_str() {
            if let Some(uuid_list) = items[2].as_list() {
                if has_tag(uuid_list, "uuid") && uuid_list.len() > 1 {
                    insert_pair(
                        &mut symbol.pins,
                        pin_num.to_owned(),
                        string_value(&uuid_list[1]),
                    );
                }
            }
        }
    }
}

/// Reads a placed symbol from the items of its `(symbol ...)` list.
pub fn parse_schematic_symbol(list: &Vec<Sexpr>) -> (symbol: SchematicSymbol)
    ensures
        symbol@ == symbol_of(list@),
        symbol@.wf(),
{
    proof {
        lemma_symbol_upto_wf(list@, list.len() as int);
    }
    let mut symbol = SchematicSymbol {
        uuid: String::new(),
        lib_id: String::new(),
        at: origin_position(),
        reference: String::new(),
        value: String::new(),
        footprint: String::new(),
        dnp: false,
        exclude_from_bom: false,
        exclude_from_board: false,
        pins: Vec::new(),
        properties: Vec::new(),
    };
    assert(symbol@.pins =~= Seq::empty() && symbol@.properties =~= Seq::empty());
    let mut i: usize = 1;
    while i < list.len()
        invariant
            1 <= i,
            symbol@ == symbol_upto(list@, if i <= list.len() { i as int } else { list.len() as int }),
        decreases list.len() - i,
    {
        if let Some(items) = list[i].as_list() {
            if has_tag(items, "lib_id") {
                if items.len() > 1 {
                    symbol.lib_id = string_value(&items[1]);
                }
            } else if has_tag(items, "uuid") {
                if items.len() > 1 {
                    symbol.uuid = string_value(&items[1]);
                }
            } else if has_tag(items, "at") {
                symbol.at = get_position(items);
            } else if has_tag(items, "dnp") {
                symbol.dnp = is_word(items, 1, "yes");
            } else if has_tag(items, "in_bom") {
                symbol.exclude_from_bom = is_word(items, 1, "no");
            } else if has_tag(items, "on_board") {
                symbol.exclude_from_board = is_word(items, 1, "no");
            } else if has_tag(items, "property") {
                apply_symbol_property(&mut symbol, items);
            } else if has_tag(items, "pin") {
                apply_symbol_pin(&mut symbol, items);
            }
        }
        i += 1;
    }
    symbol
}

// ---------------------------------------------------------------------------
// Library symbols
// ---------------------------------------------------------------------------

/// What one child of a `(pin ...)` list does to the pin: `(name x)` and
/// `(number x)` fill their field, anything else changes nothing.
pub open spec fn pin_step(p: LibPinView, child: Sexpr) -> LibPinView {
    match child.items() {
        None => p,
        Some(sub) => {
            if tagged(sub, "name"@) {
                if sub.len() > 1 {
                    LibPinView { name: sub[1].text(), ..p }
                } else {
                    p
                }
            } else if tagged(sub, "number"@) {
                if sub.len() > 1 {
                    LibPinView { number: sub[1].text(), ..p }
                } else {
                    p
                }
            } else {
                p
            }
        },
    }
}

/// The electrical kind of a `(pin kind ...)` list: its second item where
/// that is a bare word, empty otherwise.
pub open spec fn pin_kind(items: Seq<Sexpr>) -> Seq<char> {
    bare_word_at(items, 1)
}

/// The pin after the children `items[2..n]` were read in order.
pub open spec fn pin_upto(items: Seq<Sexpr>, n: int) -> LibPinView
    decreases n,
{
    if n <= 2 {
        LibPinView { number: Seq::empty(), name: Seq::empty(), pin_type: pin_kind(items) }
    } else {
        pin_step(pin_upto(items, n - 1), items[n - 1])
    }
}

/// The pin that a `(pin ...)` list describes.
pub open spec fn pin_of(items: Seq<Sexpr>) -> LibPinView {
    pin_upto(items, items.len() as int)
}

/// What one item of a symbol unit does to the pins gathered so far: a
/// `(pin ...)` list with a number adds its pin.
pub open spec fn pins_step(pins: Seq<LibPinView>, child: Sexpr) -> Seq<LibPinView> {
    match child.items() {
        None => pins,
        Some(items) => {
            if tagged(items, "pin"@) && pin_of(items).number.len() > 0 {
                pins.push(pin_of(items))
            } else {
                pins
            }
        },
    }
}

/// The pins after the items `list[0..n]` were read in order.
pub open spec fn pins_upto(list: Seq<Sexpr>, n: int, start: Seq<LibPinView>) -> Seq<LibPinView>
    decreases n,
{
    if n <= 0 {
        start
    } else {
        pins_step(pins_upto(list, n - 1, start), list[n - 1])
    }
}

fn parse_pin(items: &Vec<Sexpr>) -> (pin: LibPin)
    ensures
        pin@ == pin_of(items@),
{
    let mut pin = LibPin {
        number: String::new(),
        name: String::new(),
        pin_type: get_word(items, 1),
    };
    let mut i: usize = 2;
    while i < items.len()
        invariant
            2 <= i,
            pin@ == pin_upto(items@, if i <= items.len() { i as int } else { items.len() as int }),
        decreases items.len() - i,
    {
        if let Some(sub) = items[i].as_list() {
            if has_tag(sub, "name") {
                if sub.len() > 1 {
                    pin.name = string_value(&sub[1]);
                }
            } else if has_tag(sub, "number") {
                if sub.len() > 1 {
                    pin.number = string_value(&sub[1]);
                }
            }
        }
        i += 1;
    }
    pin
}

/// Gathers the pins of one symbol unit: every `(pin ...)` item that names a
/// pin number, in order, after the pins already in `pins`.
pub fn parse_pins_from_symbol(list: &Vec<Sexpr>, pins: &mut Vec<LibPin>)
    ensures
        pins_view(final(pins)@) == pins_upto(list@, list.len() as int, pins_view(old(pins)@)),
{
    let mut i: usize = 0;
    while i < list.len()
        invariant
            i <= list.len(),
            pins_view(pins@) == pins_upto(list@, i as int, pins_view(old(pins)@)),
        decreases list.len() - i,
    {
        if let Some(items) = list[i].as_list() {
            if has_tag(items, "pin") {
                let pin = parse_pin(items);
                if pin.number.as_str().unicode_len() > 0 {
                    let ghost before = pins_view(pins@);
                    pins.push(pin);
                    assert(pins_view(pins@) =~= before.push(pin_of(items@)));
                }
            }
        }
        i += 1;
    }
}

/// A library symbol of that name before any of its children is read.
pub open spec fn lib_symbol_start(name: Seq<char>) -> LibSymbolView {
    LibSymbolView { name, properties: Seq::empty(), pins: Seq::empty() }
}

/// What one child of a library symbol does to it: a property is recorded,
/// a nested symbol unit adds its pins.
pub open spec fn lib_symbol_step(s: LibSymbolView, child: Sexpr) -> LibSymbolView {
    match child.items() {
        None => s,
        Some(sub) => {
            if tagged(sub, "property"@) {
                if sub.len() > 2 && sub[1].str_text() is Some {
                    LibSymbolView {
                        properties: inserted(s.properties, sub[1].str_text()->0, sub[2].text()),
                        ..s
                    }
                } else {
                    s
                }
            } else if tagged(sub, "symbol"@) {
                LibSymbolView { pins: pins_upto(sub, sub.len() as int, s.pins), ..s }
            } else {
                s
            }
        },
    }
}

/// The library symbol after the children `items[2..n]` were read in order.
pub open spec fn lib_symbol_upto(items: Seq<Sexpr>, n: int) -> LibSymbolView
    decreases n,
{
    if n <= 2 {
        lib_symbol_start(text_at(items, 1))
    } else {
        lib_symbol_step(lib_symbol_upto(items, n - 1), items[n - 1])
    }
}

/// Whether a list defines a library symbol: `(symbol name ...)` with the
/// name a string or a bare word.
pub open spec fn is_lib_symbol(items: Seq<Sexpr>) -> bool {
    tagged(items, "symbol"@) && items.len() > 1 && (items[1].str_text() is Some
        || items[1].sym_text() is Some)
}

/// The library symbol that a `(symbol name ...)` list describes.
pub open spec fn lib_symbol_of(items: Seq<Sexpr>) -> LibSymbolView {
    lib_symbol_upto(items, items.len() as int)
}

/// Where a symbol named `name` stands in `table`; `table.len()` where none
/// does.
pub open spec fn name_index(table: Seq<LibSymbolView>, name: Seq<char>) -> int
    decreases table.len(),
{
    if table.len() == 0 {
        0
    } else if table[0].name == name {
        0
    } else {
        name_index(table.drop_first(), name) + 1
    }
}

/// The index of a name is the first position at which it stands.
pub proof fn lemma_name_index(table: Seq<LibSymbolView>, name: Seq<char>)
    ensures
        0 <= name_index(table, name) <= table.len(),
        forall|k: int| 0 <= k < name_index(table, name) ==> table[k].name != name,
        name_index(table, name) < table.len() ==> table[name_index(table, name)].name == name,
    decreases table.len(),
{
    if table.len() > 0 && table[0].name != name {
        lemma_name_index(table.drop_first(), name);
        assert(forall|k: int| 1 <= k < table.len() ==> table[k] == table.drop_first()[k - 1]);
    }
}

/// `table` with `symbol` filed under its name: in place of an earlier
/// symbol of that name, at the end where there is none.
pub open spec fn filed(table: Seq<LibSymbolView>, symbol: LibSymbolView) -> Seq<LibSymbolView> {
    if name_index(table, symbol.name) < table.len() {
        table.update(name_index(table, symbol.name), symbol)
    } else {
        table.push(symbol)
    }
}

/// What one child of `(lib_symbols ...)` does to the table.
pub open spec fn lib_symbols_step(table: Seq<LibSymbolView>, child: Sexpr) -> Seq<LibSymbolView> {
    match child.items() {
        None => table,
        Some(items) => {
            if is_lib_symbol(items) {
                filed(table, lib_symbol_of(items))
            } else {
                table
            }
        },
    }
}

/// The table after the children `list[1..n]` were read in order.
pub open spec fn lib_symbols_upto(list: Seq<Sexpr>, n: int) -> Seq<LibSymbolView>
    decreases n,
{
    if n <= 1 {
        Seq::empty()
    } else {
        lib_symbols_step(lib_symbols_upto(list, n - 1), list[n - 1])
    }
}

/// The table that a `(lib_symbols ...)` list describes.
pub open spec fn lib_symbols_of(list: Seq<Sexpr>) -> Seq<LibSymbolView> {
    lib_symbols_upto(list, list.len() as int)
}

/// Whatever the children, the library symbol read from them is well
/// formed.
pub proof fn lemma_lib_symbol_upto_wf(items: Seq<Sexpr>, n: int)
    ensures
        lib_symbol_upto(items, n).wf(),
    decreases n,
{
    if n > 2 {
        lemma_lib_symbol_upto_wf(items, n - 1);
        let s = lib_symbol_upto(items, n - 1);
        match items[n - 1].items() {
            Some(sub) => {
                if sub.len() > 2 && sub[1].str_text() is Some {
                    lemma_inserted(s.properties, sub[1].str_text()->0, sub[2].text());
                }
            },
            None => {},
        }
    }
}

/// Filing a well-formed symbol keeps the table well formed.
pub proof fn lemma_filed(table: Seq<LibSymbolView>, symbol: LibSymbolView)
    requires
        table_wf(table),
        symbol.wf(),
    ensures
        table_wf(filed(table, symbol)),
{
    lemma_name_index(table, symbol.name);
    let at = name_index(table, symbol.name);
    let t = filed(table, symbol);
    assert forall|i: int, j: int| 0 <= i < j < t.len() implies t[i].name != t[j].name by {
        if at < table.len() {
            if i != at && j != at {
                assert(t[i] == table[i] && t[j] == table[j]);
            } else if i == at {
                assert(t[j] == table[j]);
                assert(table[at].name != table[j].name);
            } else {
                assert(t[i] == table[i]);
                assert(table[i].name != table[at].name);
            }
        } else {
            if j < table.len() {
                assert(t[i] == table[i] && t[j] == table[j]);
            } else {
                assert(t[i] == table[i]);
            }
        }
    }
    assert forall|i: int| 0 <= i < t.len() implies (#[trigger] t[i]).wf() by {
        if at < table.len() {
            if i != at {
                assert(t[i] == table[i]);
            }
        } else {
            if i < table.len() {
                assert(t[i] == table[i]);
            }
        }
    }
}

/// Whatever the children, the table read from them is well formed.
pub proof fn lemma_lib_symbols_upto_wf(list: Seq<Sexpr>, n: int)
    ensures
        table_wf(lib_symbols_upto(list, n)),
    decreases n,
{
    if n > 1 {
        lemma_lib_symbols_upto_wf(list, n - 1);
        match list[n - 1].items() {
            Some(items) => {
                if is_lib_symbol(items) {
                    lemma_lib_symbol_upto_wf(items, items.len() as int);
                    lemma_filed(lib_symbols_upto(list, n - 1), lib_symbol_of(items));
                }
            },
            None => {},
        }
    }
}

/// Whatever the children, the schematic read from them is well formed.
pub proof fn lemma_schematic_upto_wf(list: Seq<Sexpr>, n: int)
    ensures
        schematic_upto(list, n).wf(),
    decreases n,
{
    if n > 1 {
        lemma_schematic_upto_wf(list, n - 1);
        let s = schematic_upto(list, n - 1);
        match list[n - 1].items() {
            Some(items) => {
                lemma_lib_symbols_upto_wf(items, items.len() as int);
                lemma_symbol_upto_wf(items, items.len() as int);
                let t = schematic_step(s, list[n - 1]);
                assert forall|i: int| 0 <= i < t.symbols.len() implies (#[trigger] t.symbols[i]).wf() by {
                    if i < s.symbols.len() {
                        assert(t.symbols[i] == s.symbols[i]);
                    }
                }
            },
            None => {},
        }
    }
}

fn parse_lib_symbol(items: &Vec<Sexpr>) -> (symbol: LibSymbol)
    requires
        items.len() > 1,
    ensures
        symbol@ == lib_symbol_of(items@),
{
    let mut symbol = LibSymbol {
        name: string_value(&items[1]),
        properties: Vec::new(),
        pins: Vec::new(),
    };
    assert(symbol@.properties =~= Seq::empty() && symbol@.pins =~= Seq::empty());
    let mut i: usize = 2;
    while i < items.len()
        invariant
            2 <= i,
            items.len() > 1,
            symbol@ == lib_symbol_upto(
                items@,
                if i <= items.len() { i as int } else { items.len() as int },
            ),
        decreases items.len() - i,
    {
        if let Some(sub) = items[i].as_list() {
            if has_tag(sub, "property") {
                if sub.len() > 2 {
                    if let Some(key) = sub[1].as_str() {
                        insert_pair(&mut symbol.properties, key.to_owned(), string_value(&sub[2]));
                    }
                }
            } else if has_tag(sub, "symbol") {
                parse_pins_from_symbol(sub, &mut symbol.pins);
            }
        }
        i += 1;
    }
    symbol
}

fn file_lib_symbol(table: &mut Vec<LibSymbol>, symbol: LibSymbol)
    ensures
        lib_symbols_view(final(table)@) == filed(lib_symbols_view(old(table)@), symbol@),
{
    let ghost before = lib_symbols_view(table@);
    proof {
        lemma_name_index(before, symbol.name@);
    }
    let mut i: usize = 0;
    while i < table.len()
        invariant
            i <= table.len(),
            table@ == old(table)@,
            before == lib_symbols_view(table@),
            forall|k: int| 0 <= k < i ==> before[k].name != symbol.name@,
            0 <= name_index(before, symbol.name@) <= before.len(),
            forall|k: int| 0 <= k < name_index(before, symbol.name@) ==> before[k].name != symbol.name@,
            name_index(before, symbol.name@) < before.len() ==> before[name_index(
                before,
                symbol.name@,
            )].name == symbol.name@,
        decreases table.len() - i,
    {
        let same = str_eq(table[i].name.as_str(), symbol.name.as_str());
        assert(before[i as int].name == table@[i as int].name@);
        if same {
            assert(name_index(before, symbol.name@) == i);
            let ghost filed_view = filed(before, symbol@);
            table[i] = symbol;
            assert(lib_symbols_view(table@) =~= filed_view);
            return ;
        }
        i += 1;
    }
    let ghost filed_view = filed(before, symbol@);
    table.push(symbol);
    assert(lib_symbols_view(table@) =~= filed_view);
}

/// Reads the library symbols from the items of a `(lib_symbols ...)` list.
pub fn parse_lib_symbols(list: &Vec<Sexpr>) -> (table: Vec<LibSymbol>)
    ensures
        lib_symbols_view(table@) == lib_symbols_of(list@),
        table_wf(lib_symbols_view(table@)),
{
    proof {
        lemma_lib_symbols_upto_wf(list@, list.len() as int);
    }
    let mut table: Vec<LibSymbol> = Vec::new();
    assert(lib_symbols_view(table@) =~= Seq::empty());
    let mut i: usize = 1;
    while i < list.len()
        invariant
            1 <= i,
            lib_symbols_view(table@) == lib_symbols_upto(
                list@,
                if i <= list.len() { i as int } else { list.len() as int },
            ),
        decreases list.len() - i,
    {
        if let Some(items) = list[i].as_list() {
            if has_tag(items, "symbol") && items.len() > 1 {
                let named = match &items[1] {
                    Sexpr::Str(_) => true,
                    Sexpr::Symbol(_) => true,
                    _ => false,
                };
                if named {
                    let symbol = parse_lib_symbol(items);
                    file_lib_symbol(&mut table, symbol);
                }
            }
        }
        i += 1;
    }
    table
}

// ---------------------------------------------------------------------------
// The document
// ---------------------------------------------------------------------------

/// A schematic before any of its children is read.
pub open spec fn schematic_start() -> KicadSchematicView {
    KicadSchematicView {
        version: 0,
        uuid: Seq::empty(),
        lib_symbols: Seq::empty(),
        symbols: Seq::empty(),
    }
}

/// What one child of the root does to the schematic. A later
/// `(lib_symbols ...)` replaces the table of an earlier one; every
/// `(symbol ...)` adds a placed symbol.
pub open spec fn schematic_step(s: KicadSchematicView, child: Sexpr) -> KicadSchematicView {
    match child.items() {
        None => s,
        Some(items) => {
            if tagged(items, "version"@) {
                if items.len() > 1 {
                    KicadSchematicView {
                        version: match items[1].int_value() {
                            Some(v) => low_u32(v),
                            None => 0,
                        },
                        ..s
                    }
                } else {
                    s
                }
            } else if tagged(items, "uuid"@) {
                if items.len() > 1 {
                    KicadSchematicView { uuid: items[1].text(), ..s }
                } else {
                    s
                }
            } else if tagged(items, "lib_symbols"@) {
                KicadSchematicView { lib_symbols: lib_symbols_of(items), ..s }
            } else if tagged(items, "symbol"@) {
                KicadSchematicView { symbols: s.symbols.push(symbol_of(items)), ..s }
            } else {
                s
            }
        },
    }
}

/// The schematic after the children `list[1..n]` were read in order.
pub open spec fn schematic_upto(list: Seq<Sexpr>, n: int) -> KicadSchematicView
    decreases n,
{
    if n <= 1 {
        schematic_start()
    } else {
        schematic_step(schematic_upto(list, n - 1), list[n - 1])
    }
}

/// What reading a tree as a schematic gives: the schematic that the
/// children of a `(kicad_sch ...)` root describe, and an error for any other
/// root.
pub open spec fn schematic_of(root: Sexpr) -> Result<KicadSchematicView, FormatError> {
    match root.items() {
        None => Err(FormatError::RootNotList),
        Some(list) => {
            if tagged(list, "kicad_sch"@) {
                Ok(schematic_upto(list, list.len() as int))
            } else {
                Err(FormatError::RootMismatch)
            }
        },
    }
}

impl Default for KicadSchematic {
    /// The schematic of a document without children.
    fn default() -> (schematic: KicadSchematic)
        ensures
            schematic@ == schematic_start(),
    {
        let schematic = KicadSchematic {
            version: 0,
            uuid: String::new(),
            lib_symbols: Vec::new(),
            symbols: Vec::new(),
        };
        assert(schematic@.lib_symbols =~= Seq::empty() && schematic@.symbols =~= Seq::empty());
        schematic
    }
}

impl KicadSchematic {
    /// Reads a schematic from its document tree. Fails only on the root:
    /// when it is no list, or does not start with the word `kicad_sch`.
    /// Below the root, whatever is missing or malformed leaves its field
    /// empty or zero; a library symbol without name and a library pin
    /// without number are left out.
    pub fn from_sexpr(root: &Sexpr) -> (r: Result<KicadSchematic, FormatError>)
        ensures
            match r {
                Ok(schematic) => schematic_of(*root) == Ok::<KicadSchematicView, FormatError>(
                    schematic@,
                ) && schematic@.wf(),
                Err(e) => schematic_of(*root) == Err::<KicadSchematicView, FormatError>(e),
            },
    {
        let list = match root.as_list() {
            Some(list) => list,
            None => {
                return Err(FormatError::RootNotList);
            },
        };
        if !has_tag(list, "kicad_sch") {
            return Err(FormatError::RootMismatch);
        }
        proof {
            lemma_schematic_upto_wf(list@, list.len() as int);
        }
        let mut schematic = KicadSchematic::default();
        let mut i: usize = 1;
        while i < list.len()
            invariant
                1 <= i,
                schematic@ == schematic_upto(
                    list@,
                    if i <= list.len() { i as int } else { list.len() as int },
                ),
            decreases list.len() - i,
        {
            if let Some(items) = list[i].as_list() {
                if has_tag(items, "version") {
                    if items.len() > 1 {
                        schematic.version = match items[1].as_int() {
                            Some(v) => to_u32(v),
                            None => 0,
                        };
                    }
                } else if has_tag(items, "uuid") {
                    if items.len() > 1 {
                        schematic.uuid = string_value(&items[1]);
                    }
                } else if has_tag(items, "lib_symbols") {
                    schematic.lib_symbols = parse_lib_symbols(items);
                } else if has_tag(items, "symbol") {
                    let symbol = parse_schematic_symbol(items);
                    let ghost before = schematic@.symbols;
                    schematic.symbols.push(symbol);
                    assert(schematic@.symbols =~= before.push(symbol_of(items@)));
                }
            }
            i += 1;
        }
        Ok(schematic)
    }
}

} // verus!

//! Reader for board layout documents.

use crate::parser::pairs::{insert_pair, inserted, keys_distinct, lemma_inserted, pairs_view, Pairs};
use crate::parser::sexpr::{
    bare_word_at, get_position, get_word, has_tag, low_u32, origin, origin_position, position_of,
    string_at, string_value, tagged, text_at, to_u32, FormatError, Number, Position, Sexpr,
};
use crate::text::str_eq;
use vstd::prelude::*;

verus! {

/// A board layer.
#[derive(Clone, Debug)]
pub struct Layer {
    /// Layer number.
    pub number: u32,
    /// Layer name, such as "F.Cu".
    pub name: String,
    /// Layer kind, such as "signal".
    pub layer_type: String,
}

/// The content of a layer.
pub struct LayerView {
    pub number: u32,
    pub name: Seq<char>,
    pub layer_type: Seq<char>,
}

impl View for Layer {
    type V = LayerView;

    open spec fn view(&self) -> LayerView {
        LayerView { number: self.number, name: self.name@, layer_type: self.layer_type@ }
    }
}

/// A pad of a footprint.
#[derive(Clone, Debug)]
pub struct Pad {
    /// Pad number or name, such as "1" or "A1".
    pub number: String,
    /// Pad technology, such as "smd".
    pub pad_type: String,
    /// Pad shape, such as "rect".
    pub shape: String,
    /// Position relative to the footprint: x, y, rotation.
    pub at: Position,
    /// Net number.
    pub net_id: u32,
    /// Net name.
    pub net_name: String,
}

/// The content of a pad.
pub struct PadView {
    pub number: Seq<char>,
    pub pad_type: Seq<char>,
    pub shape: Seq<char>,
    pub at: Position,
    pub net_id: u32,
    pub net_name: Seq<char>,
}

impl View for Pad {
    type V = PadView;

    open spec fn view(&self) -> PadView {
        PadView {
            number: self.number@,
            pad_type: self.pad_type@,
            shape: self.shape@,
            at: self.at,
            net_id: self.net_id,
            net_name: self.net_name@,
        }
    }
}

/// A footprint placed on the board.
#[derive(Clone, Debug)]
pub struct Footprint {
    /// Instance identifier.
    pub uuid: String,
    /// Footprint name, such as "Resistor_SMD:R_0402_1005Metric".
    pub footprint: String,
    /// Layer, such as "F.Cu".
    pub layer: String,
    /// Position: x, y, rotation.
    pub at: Position,
    /// Path to the schematic symbol: a separator, then its identifier.
    pub path: String,
    /// Reference designator.
    pub reference: String,
    /// Value.
    pub value: String,
    /// Attributes, such as "smd" or "dnp".
    pub attrs: Vec<String>,
    /// Pads, in document order.
    pub pads: Vec<Pad>,
    /// All properties by key.
    pub properties: Vec<(String, String)>,
}

/// The content of a footprint.
pub struct FootprintView {
    pub uuid: Seq<char>,
    pub footprint: Seq<char>,
    pub layer: Seq<char>,
    pub at: Position,
    pub path: Seq<char>,
    pub reference: Seq<char>,
    pub value: Seq<char>,
    pub attrs: Seq<Seq<char>>,
    pub pads: Seq<PadView>,
    pub properties: Pairs,
}

impl View for Footprint {
    type V = FootprintView;

    open spec fn view(&self) -> FootprintView {
        FootprintView {
            uuid: self.uuid@,
            footprint: self.footprint@,
            layer: self.layer@,
            at: self.at,
            path: self.path@,
            reference: self.reference@,
            value: self.value@,
            attrs: strings_view(self.attrs@),
            pads: pads_view(self.pads@),
            properties: pairs_view(self.properties@),
        }
    }
}

/// A parsed board layout.
#[derive(Clone, Debug)]
pub struct KicadPcb {
    /// Format version.
    pub version: u32,
    /// Board thickness in millimetres.
    pub thickness: Number,
    /// Layers, in document order.
    pub layers: Vec<Layer>,
    /// Net names by net number, each number once.
    pub nets: Vec<(u32, String)>,
    /// Footprints, in document order.
    pub footprints: Vec<Footprint>,
}

/// The content of a layout.
pub struct KicadPcbView {
    pub version: u32,
    pub thickness: Number,
    pub layers: Seq<LayerView>,
    pub nets: Seq<(u32, Seq<char>)>,
    pub footprints: Seq<FootprintView>,
}

impl View for KicadPcb {
    type V = KicadPcbView;

    open spec fn view(&self) -> KicadPcbView {
        KicadPcbView {
            version: self.version,
            thickness: self.thickness,
            layers: layers_view(self.layers@),
            nets: nets_view(self.nets@),
            footprints: footprints_view(self.footprints@),
        }
    }
}

/// The content of a list of strings.
pub open spec fn strings_view(v: Seq<String>) -> Seq<Seq<char>> {
    v.map_values(|s: String| s@)
}

/// The content of a list of pads.
pub open spec fn pads_view(v: Seq<Pad>) -> Seq<PadView> {
    v.map_values(|p: Pad| p@)
}

/// The content of a list of layers.
pub open spec fn layers_view(v: Seq<Layer>) -> Seq<LayerView> {
    v.map_values(|l: Layer| l@)
}

/// The content of a net table.
pub open spec fn nets_view(v: Seq<(u32, String)>) -> Seq<(u32, Seq<char>)> {
    v.map_values(|e: (u32, String)| (e.0, e.1@))
}

/// The content of a list of footprints.
pub open spec fn footprints_view(v: Seq<Footprint>) -> Seq<FootprintView> {
    v.map_values(|f: Footprint| f@)
}

impl FootprintView {
    /// Whether the footprint is well formed: no property key stands twice.
    pub open spec fn wf(self) -> bool {
        keys_distinct(self.properties)
    }
}

/// Whether every net number stands once.
pub open spec fn ids_distinct(nets: Seq<(u32, Seq<char>)>) -> bool {
    forall|i: int, j: int| 0 <= i < j < nets.len() ==> nets[i].0 != nets[j].0
}

impl KicadPcbView {
    /// Whether the layout is well formed: no net number stands twice, and
    /// every footprint is well formed.
    pub open spec fn wf(self) -> bool {
        ids_distinct(self.nets) && forall|i: int|
            0 <= i < self.footprints.len() ==> (#[trigger] self.footprints[i]).wf()
    }
}

impl Footprint {
    /// Whether the footprint carries the attribute `dnp`.
    pub fn is_dnp(&self) -> (b: bool)
        ensures
            b == self@.attrs.contains("dnp"@),
    {
        has_attr(&self.attrs, "dnp")
    }

    /// Whether the footprint carries the attribute `exclude_from_bom`.
    pub fn is_exclude_from_bom(&self) -> (b: bool)
        ensures
            b == self@.attrs.contains("exclude_from_bom"@),
    {
        has_attr(&self.attrs, "exclude_from_bom")
    }

    /// Whether the footprint carries the attribute `smd`.
    pub fn is_smd(&self) -> (b: bool)
        ensures
            b == self@.attrs.contains("smd"@),
    {
        has_attr(&self.attrs, "smd")
    }
}

fn has_attr(attrs: &Vec<String>, name: &str) -> (b: bool)
    ensures
        b == strings_view(attrs@).contains(name@),
{
    let mut i: usize = 0;
    while i < attrs.len()
        invariant
            i <= attrs.len(),
            forall|k: int| 0 <= k < i ==> strings_view(attrs@)[k] != name@,
        decreases attrs.len() - i,
    {
        if str_eq(attrs[i].as_str(), name) {
            assert(strings_view(attrs@)[i as int] == name@);
            return true;
        }
        i += 1;
    }
    false
}

// ---------------------------------------------------------------------------
// Pads
// ---------------------------------------------------------------------------

/// The low 32 bits of the integer at `index`; zero where there is none.
pub open spec fn u32_at(items: Seq<Sexpr>, index: int) -> u32 {
    if 0 <= index < items.len() && items[index].int_value() is Some {
        low_u32(items[index].int_value()->0)
    } else {
        0
    }
}

/// A pad before any of its children is read.
pub open spec fn pad_start(list: Seq<Sexpr>) -> PadView {
    PadView {
        number: text_at(list, 1),
        pad_type: bare_word_at(list, 2),
        shape: bare_word_at(list, 3),
        at: origin(),
        net_id: 0,
        net_name: Seq::empty(),
    }
}

/// What one child does to a pad: `(at x y r)` places it, `(net id name)`
/// connects it.
pub open spec fn pad_step(p: PadView, child: Sexpr) -> PadView {
    match child.items() {
        None => p,
        Some(items) => {
            if tagged(items, "at"@) {
                PadView { at: position_of(items), ..p }
            } else if tagged(items, "net"@) {
                PadView { net_id: u32_at(items, 1), net_name: text_at(items, 2), ..p }
            } else {
                p
            }
        },
    }
}

/// The pad after the children `list[4..n]` were read in order.
pub open spec fn pad_upto(list: Seq<Sexpr>, n: int) -> PadView
    decreases n,
{
    if n <= 4 {
        pad_start(list)
    } else {
        pad_step(pad_upto(list, n - 1), list[n - 1])
    }
}

/// The pad that a `(pad number kind shape ...)` list describes; none where
/// the list has no number.
pub open spec fn pad_of(list: Seq<Sexpr>) -> Option<PadView> {
    if list.len() > 1 {
        Some(pad_upto(list, list.len() as int))
    } else {
        None
    }
}

fn get_u32(items: &Vec<Sexpr>, index: usize) -> (r: u32)
    ensures
        r == u32_at(items@, index as int),
{
    if index < items.len() {
        match items[index].as_int() {
            Some(v) => to_u32(v),
            None => 0,
        }
    } else {
        0
    }
}

/// Reads a pad from the items of its `(pad ...)` list.
pub fn parse_pad(list: &Vec<Sexpr>) -> (r: Option<Pad>)
    ensures
        match r {
            Some(pad) => pad_of(list@) == Some(pad@),
            None => pad_of(list@) is None,
        },
{
    if list.len() < 2 {
        return None;
    }
    let mut pad = Pad {
        number: string_value(&list[1]),
        pad_type: get_word(list, 2),
        shape: get_word(list, 3),
        at: origin_position(),
        net_id: 0,
        net_name: String::new(),
    };
    let mut i: usize = 4;
    while i < list.len()
        invariant
            4 <= i,
            list.len() > 1,
            pad@ == pad_upto(list@, if i <= list.len() { i as int } else { list.len() as int }),
        decreases list.len() - i,
    {
        if let Some(items) = list[i].as_list() {
            if has_tag(items, "at") {
                pad.at = get_position(items);
            } else if has_tag(items, "net") {
                pad.net_id = get_u32(items, 1);
                pad.net_name = string_at(items, 2);
            }
        }
        i += 1;
    }
    Some(pad)
}

// ---------------------------------------------------------------------------
// Footprints
// ---------------------------------------------------------------------------

/// A footprint of that name before any of its children is read.
pub open spec fn footprint_start(name: Seq<char>) -> FootprintView {
    FootprintView {
        uuid: Seq::empty(),
        footprint: name,
        layer: Seq::empty(),
        at: origin(),
        path: Seq::empty(),
        reference: Seq::empty(),
        value: Seq::empty(),
        attrs: Seq::empty(),
        pads: Seq::empty(),
        properties: Seq::empty(),
    }
}

/// What a `(property "key" value)` child does to a footprint.
pub open spec fn footprint_property(f: FootprintView, items: Seq<Sexpr>) -> FootprintView {
    if items.len() > 2 && items[1].str_text() is Some {
        let key = items[1].str_text()->0;
        let value = items[2].text();
        let g = FootprintView { properties: inserted(f.properties, key, value), ..f };
        if key == "Reference"@ {
            FootprintView { reference: value, ..g }
        } else if key == "Value"@ {
            FootprintView { value: value, ..g }
        } else {
            g
        }
    } else {
        f
    }
}

/// The attributes after the items `items[1..n]` of an `(attr ...)` list were
/// read: every bare word is added.
pub open spec fn attrs_upto(items: Seq<Sexpr>, n: int, start: Seq<Seq<char>>) -> Seq<Seq<char>>
    decreases n,
{
    if n <= 1 {
        start
    } else {
        let before = attrs_upto(items, n - 1, start);
        match items[n - 1].sym_text() {
            Some(word) => before.push(word),
            None => before,
        }
    }
}

/// What one child does to a footprint.
pub open spec fn footprint_step(f: FootprintView, child: Sexpr) -> FootprintView {
    match child.items() {
        None => f,
        Some(items) => {
            if tagged(items, "uuid"@) {
                FootprintView { uuid: text_at(items, 1), ..f }
            } else if tagged(items, "layer"@) {
                FootprintView { layer: text_at(items, 1), ..f }
            } else if tagged(items, "at"@) {
                FootprintView {
                    at: position_of(items),
                    ..f
                }
            } else if tagged(items, "path"@) {
                FootprintView { path: text_at(items, 1), ..f }
            } else if tagged(items, "property"@) {
                footprint_property(f, items)
            } else if tagged(items, "attr"@) {
                FootprintView { attrs: attrs_upto(items, items.len() as int, f.attrs), ..f }
            } else if tagged(items, "pad"@) {
                match pad_of(items) {
                    Some(pad) => FootprintView { pads: f.pads.push(pad), ..f },
                    None => f,
                }
            } else {
                f
            }
        },
    }
}

/// The footprint after the children `list[2..n]` were read in order.
pub open spec fn footprint_upto(list: Seq<Sexpr>, n: int) -> FootprintView
    decreases n,
{
    if n <= 2 {
        footprint_start(text_at(list, 1))
    } else {
        footprint_step(footprint_upto(list, n - 1), list[n - 1])
    }
}

/// The footprint that a `(footprint name ...)` list describes; none where
/// the list has no name.
pub open spec fn footprint_of(list: Seq<Sexpr>) -> Option<FootprintView> {
    if list.len() > 1 {
        Some(footprint_upto(list, list.len() as int))
    } else {
        None
    }
}

fn apply_footprint_property(fp: &mut Footprint, items: &Vec<Sexpr>)
    ensures
        final(fp)@ == footprint_property(old(fp)@, items@),
{
    if items.len() > 2 {
        if let Some(key) = items[1].as_str() {
            let value = string_value(&items[2]);
            insert_pair(&mut fp.properties, key.to_owned(), value.clone());
            if str_eq(key, "Reference") {
                fp.reference = value;
            } else if str_eq(key, "Value") {
                fp.value = value;
            }
        }
    }
}

fn push_attrs(attrs: &mut Vec<String>, items: &Vec<Sexpr>)
    ensures
        strings_view(final(attrs)@) == attrs_upto(
            items@,
            items.len() as int,
            strings_view(old(attrs)@),
        ),
{
    let mut i: usize = 1;
    while i < items.len()
        invariant
            1 <= i,
            strings_view(attrs@) == attrs_upto(
                items@,
                if i <= items.len() { i as int } else { items.len() as int },
                strings_view(old(attrs)@),
            ),
        decreases items.len() - i,
    {
        if let Some(word) = items[i].as_sym() {
            let ghost before = strings_view(attrs@);
            attrs.push(word.to_owned());
            assert(strings_view(attrs@) =~= before.push(word@));
        }
        i += 1;
    }
}

/// One more child leaves a well-formed footprint well formed.
pub proof fn lemma_footprint_step_wf(f: FootprintView, child: Sexpr)
    requires
        f.wf(),
    ensures
        footprint_step(f, child).wf(),
{
    match child.items() {
        Some(items) => {
            if items.len() > 2 && items[1].str_text() is Some {
                lemma_inserted(f.properties, items[1].str_text()->0, items[2].text());
            }
        },
        None => {},
    }
}

/// Whatever the children, the footprint read from them is well formed.
pub proof fn lemma_footprint_upto_wf(list: Seq<Sexpr>, n: int)
    ensures
        footprint_upto(list, n).wf(),
    decreases n,
{
    if n > 2 {
        lemma_footprint_upto_wf(list, n - 1);
        lemma_footprint_step_wf(footprint_upto(list, n - 1), list[n - 1]);
    }
}

/// Reads a footprint from the items of its `(footprint ...)` list.
pub fn parse_footprint(list: &Vec<Sexpr>) -> (r: Option<Footprint>)
    ensures
        match r {
            Some(fp) => footprint_of(list@) == Some(fp@) && fp@.wf(),
            None => footprint_of(list@) is None,
        },
{
    if list.len() < 2 {
        return None;
    }
    proof {
        lemma_footprint_upto_wf(list@, list.len() as int);
    }
    let mut fp = Footprint {
        uuid: String::new(),
        footprint: string_value(&list[1]),
        layer: String::new(),
        at: origin_position(),
        path: String::new(),
        reference: String::new(),
        value: String::new(),
        attrs: Vec::new(),
        pads: Vec::new(),
        properties: Vec::new(),
    };
    assert(fp@.attrs =~= Seq::empty() && fp@.pads =~= Seq::empty() && fp@.properties
        =~= Seq::empty());
    let mut i: usize = 2;
    while i < list.len()
        invariant
            2 <= i,
            list.len() > 1,
            fp@ == footprint_upto(list@, if i <= list.len() { i as int } else { list.len() as int }),
        decreases list.len() - i,
    {
        if let Some(items) = list[i].as_list() {
            if has_tag(items, "uuid") {
                fp.uuid = string_at(items, 1);
            } else if has_tag(items, "layer") {
                fp.layer = string_at(items, 1);
            } else if has_tag(items, "at") {
                fp.at = get_position(items);
            } else if has_tag(items, "path") {
                fp.path = string_at(items, 1);
            } else if has_tag(items, "property") {
                apply_footprint_property(&mut fp, items);
            } else if has_tag(items, "attr") {
                push_attrs(&mut fp.attrs, items);
            } else if has_tag(items, "pad") {
                if let Some(pad) = parse_pad(items) {
                    let ghost before = fp@.pads;
                    let ghost added = pad@;
                    fp.pads.push(pad);
                    assert(fp@.pads =~= before.push(added));
                }
            }
        }
        i += 1;
    }
    Some(fp)
}

// ---------------------------------------------------------------------------
// Board settings and layers
// ---------------------------------------------------------------------------

/// The thickness that the children `list[from..]` of a `(general ...)` list
/// give: that of the first `(thickness x)` among them, and zero where that
/// one holds no number or where there is none.
pub open spec fn thickness_from(list: Seq<Sexpr>, from: int) -> Number
    decreases list.len() - from,
{
    if from < 0 || from >= list.len() {
        Number::zero()
    } else if list[from].items() is Some && tagged(list[from].items()->0, "thickness"@) {
        let items = list[from].items()->0;
        if items.len() > 1 && items[1].number_value() is Some {
            items[1].number_value()->0
        } else {
            Number::zero()
        }
    } else {
        thickness_from(list, from + 1)
    }
}

/// Reads the board thickness from the items of a `(general ...)` list.
pub fn parse_general(list: &Vec<Sexpr>) -> (thickness: Number)
    ensures
        thickness == thickness_from(list@, 1),
{
    let mut i: usize = 1;
    while i < list.len()
        invariant
            1 <= i,
            thickness_from(list@, 1) == thickness_from(list@, i as int),
        decreases list.len() - i,
    {
        if let Some(items) = list[i].as_list() {
            if has_tag(items, "thickness") {
                if items.len() > 1 {
                    if let Some(n) = items[1].as_number() {
                        return n;
                    }
                }
                return Number::Int(0);
            }
        }
        i += 1;
    }
    Number::Int(0)
}

/// What one child of `(layers ...)` does to the layers read so far: a list
/// that starts with an integer adds a layer.
pub open spec fn layers_step(layers: Seq<LayerView>, child: Sexpr) -> Seq<LayerView> {
    match child.items() {
        None => layers,
        Some(items) => {
            if items.len() > 0 && items[0].int_value() is Some {
                layers.push(
                    LayerView {
                        number: low_u32(items[0].int_value()->0),
                        name: text_at(items, 1),
                        layer_type: bare_word_at(items, 2),
                    },
                )
            } else {
                layers
            }
        },
    }
}

/// The layers after the children `list[1..n]` were read in order.
pub open spec fn layers_upto(list: Seq<Sexpr>, n: int) -> Seq<LayerView>
    decreases n,
{
    if n <= 1 {
        Seq::empty()
    } else {
        layers_step(layers_upto(list, n - 1), list[n - 1])
    }
}

/// The layers that a `(layers ...)` list describes.
pub open spec fn layers_of(list: Seq<Sexpr>) -> Seq<LayerView> {
    layers_upto(list, list.len() as int)
}

/// Reads the layer table from the items of a `(layers ...)` list.
pub fn parse_layers(list: &Vec<Sexpr>) -> (layers: Vec<Layer>)
    ensures
        layers_view(layers@) == layers_of(list@),
{
    let mut layers: Vec<Layer> = Vec::new();
    assert(layers_view(layers@) =~= Seq::empty());
    let mut i: usize = 1;
    while i < list.len()
        invariant
            1 <= i,
            layers_view(layers@) == layers_upto(
                list@,
                if i <= list.len() { i as int } else { list.len() as int },
            ),
        decreases list.len() - i,
    {
        if let Some(items) = list[i].as_list() {
            if items.len() > 0 {
                if let Some(num) = items[0].as_int() {
                    let layer = Layer {
                        number: to_u32(num),
                        name: string_at(items, 1),
                        layer_type: get_word(items, 2),
                    };
                    let ghost before = layers_view(layers@);
                    let ghost added = layer@;
                    layers.push(layer);
                    assert(layers_view(layers@) =~= before.push(added));
                }
            }
        }
        i += 1;
    }
    layers
}

// ---------------------------------------------------------------------------
// Nets
// ---------------------------------------------------------------------------

/// Where net number `id` stands in `nets`; `nets.len()` where it does not.
pub open spec fn net_index(nets: Seq<(u32, Seq<char>)>, id: u32) -> int
    decreases nets.len(),
{
    if nets.len() == 0 {
        0
    } else if nets[0].0 == id {
        0
    } else {
        net_index(nets.drop_first(), id) + 1
    }
}

/// The index of a net number is the first position at which it stands.
pub proof fn lemma_net_index(nets: Seq<(u32, Seq<char>)>, id: u32)
    ensures
        0 <= net_index(nets, id) <= nets.len(),
        forall|k: int| 0 <= k < net_index(nets, id) ==> nets[k].0 != id,
        net_index(nets, id) < nets.len() ==> nets[net_index(nets, id)].0 == id,
    decreases nets.len(),
{
    if nets.len() > 0 && nets[0].0 != id {
        lemma_net_index(nets.drop_first(), id);
        assert(forall|k: int| 1 <= k < nets.len() ==> nets[k] == nets.drop_first()[k - 1]);
    }
}

/// `nets` with number `id` named `name`: in place where the number is
/// present, at the end where it is not.
pub open spec fn net_named(nets: Seq<(u32, Seq<char>)>, id: u32, name: Seq<char>) -> Seq<
    (u32, Seq<char>),
> {
    if net_index(nets, id) < nets.len() {
        nets.update(net_index(nets, id), (id, name))
    } else {
        nets.push((id, name))
    }
}

/// Naming a net number keeps the numbers distinct.
pub proof fn lemma_net_named(nets: Seq<(u32, Seq<char>)>, id: u32, name: Seq<char>)
    requires
        ids_distinct(nets),
    ensures
        ids_distinct(net_named(nets, id, name)),
{
    lemma_net_index(nets, id);
    let at = net_index(nets, id);
    let t = net_named(nets, id, name);
    assert forall|i: int, j: int| 0 <= i < j < t.len() implies t[i].0 != t[j].0 by {
        if at < nets.len() {
            if i != at && j != at {
                assert(t[i] == nets[i] && t[j] == nets[j]);
            } else if i == at {
                assert(t[j] == nets[j]);
                assert(nets[at].0 != nets[j].0);
            } else {
                assert(t[i] == nets[i]);
                assert(nets[i].0 != nets[at].0);
            }
        } else {
            if j < nets.len() {
                assert(t[i] == nets[i] && t[j] == nets[j]);
            } else {
                assert(t[i] == nets[i]);
            }
        }
    }
}

/// Names net number `id`, replacing an earlier name of that number.
pub fn insert_net(nets: &mut Vec<(u32, String)>, id: u32, name: String)
    ensures
        nets_view(final(nets)@) == net_named(nets_view(old(nets)@), id, name@),
{
    let ghost before = nets_view(nets@);
    proof {
        lemma_net_index(before, id);
    }
    let mut i: usize = 0;
    while i < nets.len()
        invariant
            i <= nets.len(),
            nets@ == old(nets)@,
            before == nets_view(nets@),
            forall|k: int| 0 <= k < i ==> before[k].0 != id,
            0 <= net_index(before, id) <= before.len(),
            forall|k: int| 0 <= k < net_index(before, id) ==> before[k].0 != id,
            net_index(before, id) < before.len() ==> before[net_index(before, id)].0 == id,
        decreases nets.len() - i,
    {
        assert(before[i as int].0 == nets@[i as int].0);
        if nets[i].0 == id {
            assert(net_index(before, id) == i);
            nets[i] = (id, name);
            assert(nets_view(nets@) =~= net_named(before, id, name@));
            return ;
        }
        i += 1;
    }
    nets.push((id, name));
    assert(nets_view(nets@) =~= net_named(before, id, name@));
}

// ---------------------------------------------------------------------------
// The document
// ---------------------------------------------------------------------------

/// A layout before any of its children is read.
pub open spec fn pcb_start() -> KicadPcbView {
    KicadPcbView {
        version: 0,
        thickness: Number::zero(),
        layers: Seq::empty(),
        nets: Seq::empty(),
        footprints: Seq::empty(),
    }
}

/// What one child of the root does to the layout.
pub open spec fn pcb_step(p: KicadPcbView, child: Sexpr) -> KicadPcbView {
    match child.items() {
        None => p,
        Some(items) => {
            if tagged(items, "version"@) {
                if items.len() > 1 {
                    KicadPcbView { version: u32_at(items, 1), ..p }
                } else {
                    p
                }
            } else if tagged(items, "general"@) {
                KicadPcbView { thickness: thickness_from(items, 1), ..p }
            } else if tagged(items, "layers"@) {
                KicadPcbView { layers: layers_of(items), ..p }
            } else if tagged(items, "net"@) {
                if items.len() > 2 && items[1].int_value() is Some {
                    KicadPcbView {
                        nets: net_named(p.nets, u32_at(items, 1), items[2].text()),
                        ..p
                    }
                } else {
                    p
                }
            } else if tagged(items, "footprint"@) {
                match footprint_of(items) {
                    Some(fp) => KicadPcbView { footprints: p.footprints.push(fp), ..p },
                    None => p,
                }
            } else {
                p
            }
        },
    }
}

/// The layout after the children `list[1..n]` were read in order.
pub open spec fn pcb_upto(list: Seq<Sexpr>, n: int) -> KicadPcbView
    decreases n,
{
    if n <= 1 {
        pcb_start()
    } else {
        pcb_step(pcb_upto(list, n - 1), list[n - 1])
    }
}

/// One more child leaves a well-formed layout well formed.
pub proof fn lemma_pcb_step_wf(p: KicadPcbView, child: Sexpr)
    requires
        p.wf(),
    ensures
        pcb_step(p, child).wf(),
{
    match child.items() {
        Some(items) => {
            if items.len() > 2 && items[1].int_value() is Some {
                lemma_net_named(p.nets, u32_at(items, 1), items[2].text());
            }
            lemma_footprint_upto_wf(items, items.len() as int);
            let q = pcb_step(p, child);
            assert forall|i: int| 0 <= i < q.footprints.len() implies (#[trigger] q.footprints[i]).wf() by {
                if i < p.footprints.len() {
                    assert(q.footprints[i] == p.footprints[i]);
                }
            }
        },
        None => {},
    }
}

/// Whatever the children, the layout read from them is well formed.
pub proof fn lemma_pcb_upto_wf(list: Seq<Sexpr>, n: int)
    ensures
        pcb_upto(list, n).wf(),
    decreases n,
{
    if n > 1 {
        lemma_pcb_upto_wf(list, n - 1);
        lemma_pcb_step_wf(pcb_upto(list, n - 1), list[n - 1]);
    }
}

/// What reading a tree as a layout gives: the layout that the children of a
/// `(kicad_pcb ...)` root describe, and an error for any other root.
pub open spec fn pcb_of(root: Sexpr) -> Result<KicadPcbView, FormatError> {
    match root.items() {
        None => Err(FormatError::RootNotList),
        Some(list) => {
            if tagged(list, "kicad_pcb"@) {
                Ok(pcb_upto(list, list.len() as int))
            } else {
                Err(FormatError::RootMismatch)
            }
        },
    }
}

impl Default for KicadPcb {
    /// The layout of a document without children.
    fn default() -> (pcb: KicadPcb)
        ensures
            pcb@ == pcb_start(),
    {
        let pcb = KicadPcb {
            version: 0,
            thickness: Number::Int(0),
            layers: Vec::new(),
            nets: Vec::new(),
            footprints: Vec::new(),
        };
        assert(pcb@.layers =~= Seq::empty() && pcb@.nets =~= Seq::empty() && pcb@.footprints
            =~= Seq::empty());
        pcb
    }
}

impl KicadPcb {
    /// Reads a layout from its document tree. Fails only on the root: when
    /// it is no list, or does not start with the word `kicad_pcb`. Below the
    /// root, whatever is missing or malformed leaves its field empty or
    /// zero; a footprint without name and a pad without number are left
    /// out.
    pub fn from_sexpr(root: &Sexpr) -> (r: Result<KicadPcb, FormatError>)
        ensures
            match r {
                Ok(pcb) => pcb_of(*root) == Ok::<KicadPcbView, FormatError>(pcb@) && pcb@.wf(),
                Err(e) => pcb_of(*root) == Err::<KicadPcbView, FormatError>(e),
            },
    {
        let list = match root.as_list() {
            Some(list) => list,
            None => {
                return Err(FormatError::RootNotList);
            },
        };
        if !has_tag(list, "kicad_pcb") {
            return Err(FormatError::RootMismatch);
        }
        proof {
            lemma_pcb_upto_wf(list@, list.len() as int);
        }
        let mut pcb = KicadPcb::default();
        let mut i: usize = 1;
        while i < list.len()
            invariant
                1 <= i,
                pcb@ == pcb_upto(list@, if i <= list.len() { i as int } else { list.len() as int }),
            decreases list.len() - i,
        {
            if let Some(items) = list[i].as_list() {
                if has_tag(items, "version") {
                    if items.len() > 1 {
                        pcb.version = get_u32(items, 1);
                    }
                } else if has_tag(items, "general") {
                    pcb.thickness = parse_general(items);
                } else if has_tag(items, "layers") {
                    pcb.layers = parse_layers(items);
                } else if has_tag(items, "net") {
                    if items.len() > 2 {
                        if let Some(id) = items[1].as_int() {
                            insert_net(&mut pcb.nets, to_u32(id), string_value(&items[2]));
                        }
                    }
                } else if has_tag(items, "footprint") {
                    if let Some(fp) = parse_footprint(items) {
                        let ghost before = pcb@.footprints;
                        let ghost added = fp@;
                        pcb.footprints.push(fp);
                        assert(pcb@.footprints =~= before.push(added));
                    }
                }
            }
            i += 1;
        }
        Ok(pcb)
    }
}

} // verus!

//! What the emitters gather from a project before they write: the declared
//! nets, the modules in use, the footprint of each symbol and the pin
//! assignments of its pads.

use crate::emit::common::{
    insert_sorted, lemma_sorted_insert, lemma_sorted_same, sanitize_name, sanitized, sorted_insert,
    strictly_sorted,
};
use crate::mapping::footprints::{
    infer_component_type_combined, kind_of_both, module_file_of, table_view,
};
use crate::mapping::nets::{
    infer_net_type, is_unconnected, is_unconnected_name, net_type_of, NetType,
};
use crate::mapping::symbols::{map_symbol, template_of};
use crate::parser::pairs::Pairs;
use crate::parser::pcb::{
    footprints_view, nets_view, pads_view, strings_view, Footprint, FootprintView, KicadPcb,
    KicadPcbView, Pad, PadView,
};
use crate::parser::schematic::{symbols_view, SchematicSymbol, SchematicSymbolView};
use crate::project::{KicadProject, KicadProjectView};
use crate::text::{chars_of, put, seq_eq, skip_leading, skip_leading_of, str_eq};
use vstd::prelude::*;

verus! {

// ---------------------------------------------------------------------------
// Declared nets
// ---------------------------------------------------------------------------

/// The names of the first `n` nets of a layout that are declared: the
/// connected ones, sorted, each once.
pub open spec fn net_names_upto(nets: Seq<(u32, Seq<char>)>, n: int) -> Seq<Seq<char>>
    decreases n,
{
    if n <= 0 {
        Seq::empty()
    } else if is_unconnected(nets[n - 1].1) {
        net_names_upto(nets, n - 1)
    } else {
        sorted_insert(net_names_upto(nets, n - 1), nets[n - 1].1)
    }
}

/// Each name with its role.
pub open spec fn with_roles(names: Seq<Seq<char>>) -> Seq<(Seq<char>, NetType)> {
    names.map_values(|name: Seq<char>| (name, net_type_of(name)))
}

/// The nets that a project declares, in the order of their declaration:
/// the connected nets of its layout, sorted by name, each with its role. A
/// project without layout declares none.
pub open spec fn declared_nets(project: KicadProjectView) -> Seq<(Seq<char>, NetType)> {
    match project.pcb {
        Some(pcb) => with_roles(net_names_upto(pcb.nets, pcb.nets.len() as int)),
        None => Seq::empty(),
    }
}

/// The content of a list of nets with their roles.
pub open spec fn roles_view(v: Seq<(String, NetType)>) -> Seq<(Seq<char>, NetType)> {
    v.map_values(|e: (String, NetType)| (e.0@, e.1))
}

/// The nets that a project declares.
pub fn collect_nets(project: &KicadProject) -> (nets: Vec<(String, NetType)>)
    ensures
        roles_view(nets@) == declared_nets(project@),
{
    let mut nets: Vec<(String, NetType)> = Vec::new();
    let pcb = match &project.pcb {
        Some(pcb) => pcb,
        None => {
            assert(roles_view(nets@) =~= Seq::empty());
            return nets;
        },
    };
    let mut names: Vec<String> = Vec::new();
    assert(strings_view(names@) =~= Seq::empty());
    let mut i: usize = 0;
    while i < pcb.nets.len()
        invariant
            i <= pcb.nets.len(),
            strings_view(names@) == net_names_upto(nets_view(pcb.nets@), i as int),
        decreases pcb.nets.len() - i,
    {
        assert(nets_view(pcb.nets@)[i as int].1 == pcb.nets@[i as int].1@);
        if !is_unconnected_name(pcb.nets[i].1.as_str()) {
            insert_sorted(&mut names, pcb.nets[i].1.clone());
        }
        i += 1;
    }
    let mut k: usize = 0;
    assert(roles_view(nets@) =~= with_roles(strings_view(names@).take(0)));
    while k < names.len()
        invariant
            k <= names.len(),
            roles_view(nets@) == with_roles(strings_view(names@).take(k as int)),
        decreases names.len() - k,
    {
        let role = infer_net_type(names[k].as_str());
        let ghost before = roles_view(nets@);
        nets.push((names[k].clone(), role));
        assert(strings_view(names@)[k as int] == names@[k as int]@);
        assert(roles_view(nets@) =~= before.push((names@[k as int]@, net_type_of(names@[k as int]@))));
        assert(with_roles(strings_view(names@).take(k + 1)) =~= with_roles(
            strings_view(names@).take(k as int),
        ).push((names@[k as int]@, net_type_of(names@[k as int]@))));
        k += 1;
    }
    assert(strings_view(names@).take(names.len() as int) =~= strings_view(names@));
    nets
}

/// Whether some net has that role.
pub open spec fn has_role(nets: Seq<(Seq<char>, NetType)>, role: NetType) -> bool {
    exists|i: int| 0 <= i < nets.len() && (#[trigger] nets[i]).1 == role
}

/// Whether some net has that role.
pub fn any_role(nets: &Vec<(String, NetType)>, role: NetType) -> (b: bool)
    ensures
        b == has_role(roles_view(nets@), role),
{
    let mut i: usize = 0;
    while i < nets.len()
        invariant
            i <= nets.len(),
            forall|k: int| 0 <= k < i ==> (#[trigger] roles_view(nets@)[k]).1 != role,
        decreases nets.len() - i,
    {
        if nets[i].1 == role {
            assert(roles_view(nets@)[i as int].1 == role);
            return true;
        }
        i += 1;
    }
    false
}

// ---------------------------------------------------------------------------
// Modules in use
// ---------------------------------------------------------------------------

/// The module files of the templates of the first `n` symbols, sorted, each
/// once.
pub open spec fn symbol_modules_upto(symbols: Seq<SchematicSymbolView>, n: int) -> Seq<Seq<char>>
    decreases n,
{
    if n <= 0 {
        Seq::empty()
    } else {
        match template_of(symbols[n - 1].lib_id) {
            Some(info) => sorted_insert(symbol_modules_upto(symbols, n - 1), info.module_file),
            None => symbol_modules_upto(symbols, n - 1),
        }
    }
}

/// The module files of the kinds of the first `n` footprints, sorted, each
/// once.
pub open spec fn footprint_modules_upto(footprints: Seq<FootprintView>, n: int) -> Seq<Seq<char>>
    decreases n,
{
    if n <= 0 {
        Seq::empty()
    } else {
        match module_file_of(kind_of_both(footprints[n - 1].footprint, footprints[n - 1].reference)) {
            Some(file) => sorted_insert(footprint_modules_upto(footprints, n - 1), file),
            None => footprint_modules_upto(footprints, n - 1),
        }
    }
}

/// The module files that the symbols of a schematic use.
pub open spec fn schematic_modules(project: KicadProjectView) -> Seq<Seq<char>> {
    match project.schematic {
        Some(schematic) => symbol_modules_upto(schematic.symbols, schematic.symbols.len() as int),
        None => Seq::empty(),
    }
}

/// The module files that a project uses: those of its symbols where it has
/// a schematic, else those of its footprints.
pub open spec fn used_modules(project: KicadProjectView) -> Seq<Seq<char>> {
    match project.schematic {
        Some(schematic) => symbol_modules_upto(schematic.symbols, schematic.symbols.len() as int),
        None => match project.pcb {
            Some(pcb) => footprint_modules_upto(pcb.footprints, pcb.footprints.len() as int),
            None => Seq::empty(),
        },
    }
}

fn symbol_modules(symbols: &Vec<SchematicSymbol>) -> (modules: Vec<String>)
    ensures
        strings_view(modules@) == symbol_modules_upto(symbols_view(symbols@), symbols.len() as int),
{
    let mut modules: Vec<String> = Vec::new();
    assert(strings_view(modules@) =~= Seq::empty());
    let mut i: usize = 0;
    while i < symbols.len()
        invariant
            i <= symbols.len(),
            strings_view(modules@) == symbol_modules_upto(symbols_view(symbols@), i as int),
        decreases symbols.len() - i,
    {
        assert(symbols_view(symbols@)[i as int] == symbols@[i as int]@);
        if let Some(info) = map_symbol(symbols[i].lib_id.as_str()) {
            insert_sorted(&mut modules, info.module_file.to_owned());
        }
        i += 1;
    }
    modules
}

/// The module files that the symbols of the schematic use; none without a
/// schematic.
pub fn collect_schematic_modules(project: &KicadProject) -> (modules: Vec<String>)
    ensures
        strings_view(modules@) == schematic_modules(project@),
{
    match &project.schematic {
        Some(schematic) => symbol_modules(&schematic.symbols),
        None => {
            let modules: Vec<String> = Vec::new();
            assert(strings_view(modules@) =~= Seq::empty());
            modules
        },
    }
}

/// The module files that a project uses.
pub fn collect_used_modules(project: &KicadProject) -> (modules: Vec<String>)
    ensures
        strings_view(modules@) == used_modules(project@),
{
    if let Some(schematic) = &project.schematic {
        return symbol_modules(&schematic.symbols);
    }
    let mut modules: Vec<String> = Vec::new();
    assert(strings_view(modules@) =~= Seq::empty());
    if let Some(pcb) = &project.pcb {
        let mut i: usize = 0;
        while i < pcb.footprints.len()
            invariant
                i <= pcb.footprints.len(),
                strings_view(modules@) == footprint_modules_upto(
                    footprints_view(pcb.footprints@),
                    i as int,
                ),
            decreases pcb.footprints.len() - i,
        {
            assert(footprints_view(pcb.footprints@)[i as int] == pcb.footprints@[i as int]@);
            let kind = infer_component_type_combined(
                pcb.footprints[i].footprint.as_str(),
                pcb.footprints[i].reference.as_str(),
            );
            if let Some(file) = kind.module_file() {
                insert_sorted(&mut modules, file.to_owned());
            }
            i += 1;
        }
    }
    modules
}

// ---------------------------------------------------------------------------
// The footprint of a symbol
// ---------------------------------------------------------------------------

/// Whether a footprint belongs to the symbol with identifier `uuid`: its
/// path, without the separators it starts with, is that identifier.
pub open spec fn joins(footprint: FootprintView, uuid: Seq<char>) -> bool {
    skip_leading(footprint.path, '/') == uuid
}

/// The position of the last of the first `n` footprints that belongs to
/// the symbol.
pub open spec fn footprint_index(footprints: Seq<FootprintView>, uuid: Seq<char>, n: int) -> Option<
    int,
>
    decreases n,
{
    if n <= 0 {
        None
    } else if joins(footprints[n - 1], uuid) {
        Some(n - 1)
    } else {
        footprint_index(footprints, uuid, n - 1)
    }
}

/// The footprint of a symbol in a layout: the one whose path leads to the
/// symbol, the last of them where several do. None without a layout or
/// without such a footprint.
pub open spec fn footprint_for(pcb: Option<KicadPcbView>, uuid: Seq<char>) -> Option<FootprintView> {
    match pcb {
        Some(p) => match footprint_index(p.footprints, uuid, p.footprints.len() as int) {
            Some(i) => Some(p.footprints[i]),
            None => None,
        },
        None => None,
    }
}

/// The view of an optional layout.
pub open spec fn pcb_view(pcb: Option<&KicadPcb>) -> Option<KicadPcbView> {
    match pcb {
        Some(p) => Some(p@),
        None => None,
    }
}

/// The footprint of the symbol with identifier `uuid`.
pub fn find_footprint<'a>(pcb: Option<&'a KicadPcb>, uuid: &str) -> (r: Option<&'a Footprint>)
    ensures
        match r {
            Some(fp) => footprint_for(pcb_view(pcb), uuid@) == Some(fp@),
            None => footprint_for(pcb_view(pcb), uuid@) is None,
        },
{
    let p = match pcb {
        Some(p) => p,
        None => {
            return None;
        },
    };
    let id = chars_of(uuid);
    let ghost fps = footprints_view(p.footprints@);
    let mut i: usize = p.footprints.len();
    while i > 0
        invariant
            i <= p.footprints.len(),
            pcb == Some(p),
            fps == footprints_view(p.footprints@),
            id@ == uuid@,
            footprint_index(fps, uuid@, fps.len() as int) == footprint_index(fps, uuid@, i as int),
        decreases i,
    {
        assert(fps[i - 1] == p.footprints@[i - 1]@);
        let trimmed = skip_leading_of(&chars_of(p.footprints[i - 1].path.as_str()), '/');
        if seq_eq(&trimmed, &id) {
            assert(joins(fps[i - 1], uuid@));
            assert(footprint_index(fps, uuid@, i as int) == Some(i - 1));
            assert(pcb_view(pcb) == Some(p@));
            assert(p@.footprints == fps);
            return Some(&p.footprints[i - 1]);
        }
        i -= 1;
    }
    None
}

// ---------------------------------------------------------------------------
// Pin assignments
// ---------------------------------------------------------------------------

/// The name bound to `number` among the first `n` entries of a pin table:
/// that of the last entry for the number.
pub open spec fn pin_lookup(table: Pairs, number: Seq<char>, n: int) -> Option<Seq<char>>
    decreases n,
{
    if n <= 0 {
        None
    } else if table[n - 1].0 == number {
        Some(table[n - 1].1)
    } else {
        pin_lookup(table, number, n - 1)
    }
}

/// The pin that a pad assigns: the name that the table binds to its
/// number, and the number itself where the table binds none.
pub open spec fn pin_name(table: Pairs, number: Seq<char>) -> Seq<char> {
    match pin_lookup(table, number, table.len() as int) {
        Some(name) => name,
        None => number,
    }
}

/// The pin that a pad with that number assigns.
pub fn pin_name_of(table: &Vec<(&'static str, &'static str)>, number: &str) -> (r: String)
    ensures
        r@ == pin_name(table_view(table@), number@),
{
    let ghost t = table_view(table@);
    let mut i: usize = table.len();
    while i > 0
        invariant
            i <= table.len(),
            t == table_view(table@),
            pin_lookup(t, number@, t.len() as int) == pin_lookup(t, number@, i as int),
        decreases i,
    {
        assert(t[i - 1] == (table@[i - 1].0@, table@[i - 1].1@));
        if str_eq(table[i - 1].0, number) {
            return table[i - 1].1.to_owned();
        }
        i -= 1;
    }
    number.to_owned()
}

/// Whether a pad is connected to a declared net.
pub open spec fn is_connected(pad: PadView) -> bool {
    !is_unconnected(pad.net_name)
}

/// The assignment that a connected pad gives: four spaces, the pin, the
/// separator, the identifier of the net, a comma.
pub open spec fn pin_line(pad: PadView, table: Pairs, separator: Seq<char>) -> Seq<char> {
    "    "@ + pin_name(table, pad.number) + separator + sanitized(pad.net_name) + ",\n"@
}

/// The assignments of the first `n` pads: one line for each connected pad,
/// in pad order.
pub open spec fn pin_lines(pads: Seq<PadView>, table: Pairs, separator: Seq<char>, n: int) -> Seq<
    char,
>
    decreases n,
{
    if n <= 0 {
        Seq::empty()
    } else if is_connected(pads[n - 1]) {
        pin_lines(pads, table, separator, n - 1) + pin_line(pads[n - 1], table, separator)
    } else {
        pin_lines(pads, table, separator, n - 1)
    }
}

/// The pin assignments of a footprint.
pub open spec fn pin_text(pads: Seq<PadView>, table: Pairs, separator: Seq<char>) -> Seq<char> {
    pin_lines(pads, table, separator, pads.len() as int)
}

/// Writes the pin assignments of the pads.
pub fn emit_pin_lines(
    out: &mut String,
    pads: &Vec<Pad>,
    table: &Vec<(&'static str, &'static str)>,
    separator: &str,
)
    ensures
        final(out)@ == old(out)@ + pin_text(pads_view(pads@), table_view(table@), separator@),
{
    let ghost start = out@;
    let ghost pv = pads_view(pads@);
    let ghost tv = table_view(table@);
    let mut i: usize = 0;
    assert(out@ =~= start + pin_lines(pv, tv, separator@, 0));
    while i < pads.len()
        invariant
            i <= pads.len(),
            pv == pads_view(pads@),
            tv == table_view(table@),
            out@ == start + pin_lines(pv, tv, separator@, i as int),
        decreases pads.len() - i,
    {
        assert(pv[i as int] == pads@[i as int]@);
        if !is_unconnected_name(pads[i].net_name.as_str()) {
            let pin = pin_name_of(table, pads[i].number.as_str());
            let net = sanitize_name(pads[i].net_name.as_str());
            let ghost before = out@;
            put(out, "    ");
            put(out, pin.as_str());
            put(out, separator);
            put(out, net.as_str());
            put(out, ",\n");
            assert(out@ =~= before + pin_line(pv[i as int], tv, separator@));
            assert(out@ =~= start + pin_lines(pv, tv, separator@, i + 1));
        }
        i += 1;
    }
}

/// The entry that a connected pad gives in a pin dictionary: eight spaces,
/// the quoted pad number, a colon, the identifier of the net, a comma.
pub open spec fn dict_line(pad: PadView) -> Seq<char> {
    "        \""@ + pad.number + "\": "@ + sanitized(pad.net_name) + ",\n"@
}

/// The dictionary entries of the first `n` pads.
pub open spec fn dict_lines(pads: Seq<PadView>, n: int) -> Seq<char>
    decreases n,
{
    if n <= 0 {
        Seq::empty()
    } else if is_connected(pads[n - 1]) {
        dict_lines(pads, n - 1) + dict_line(pads[n - 1])
    } else {
        dict_lines(pads, n - 1)
    }
}

/// The pin dictionary of a footprint: the opening line, one entry for each
/// connected pad, the closing line; nothing at all where no pad is
/// connected.
pub open spec fn pin_dict(pads: Seq<PadView>, opening: Seq<char>) -> Seq<char> {
    let lines = dict_lines(pads, pads.len() as int);
    if lines.len() > 0 {
        opening + lines + "    },\n"@
    } else {
        Seq::empty()
    }
}

/// Writes the pin dictionary of the pads.
pub fn emit_pin_dict(out: &mut String, pads: &Vec<Pad>, opening: &str)
    ensures
        final(out)@ == old(out)@ + pin_dict(pads_view(pads@), opening@),
{
    let ghost pv = pads_view(pads@);
    let mut lines = String::new();
    let mut i: usize = 0;
    assert(lines@ =~= dict_lines(pv, 0));
    while i < pads.len()
        invariant
            i <= pads.len(),
            pv == pads_view(pads@),
            lines@ == dict_lines(pv, i as int),
        decreases pads.len() - i,
    {
        assert(pv[i as int] == pads@[i as int]@);
        if !is_unconnected_name(pads[i].net_name.as_str()) {
            let net = sanitize_name(pads[i].net_name.as_str());
            let ghost before = lines@;
            put(&mut lines, "        \"");
            put(&mut lines, pads[i].number.as_str());
            put(&mut lines, "\": ");
            put(&mut lines, net.as_str());
            put(&mut lines, ",\n");
            assert(lines@ =~= before + dict_line(pv[i as int]));
        }
        i += 1;
    }
    if lines.as_str().unicode_len() > 0 {
        let ghost before = out@;
        put(out, opening);
        put(out, lines.as_str());
        put(out, "    },\n");
        assert(out@ =~= before + (opening@ + lines@ + "    },\n"@));
    } else {
        assert(out@ =~= out@ + Seq::<char>::empty());
    }
}

/// What a connected pad gives in a pin comment: its number, an arrow, the
/// name of its net.
pub open spec fn arrow(pad: PadView) -> Seq<char> {
    pad.number + "->"@ + pad.net_name
}

/// The pin comment entries of the first `n` pads, a comma and a space
/// between one and the next.
pub open spec fn arrows(pads: Seq<PadView>, n: int) -> Seq<char>
    decreases n,
{
    if n <= 0 {
        Seq::empty()
    } else if is_connected(pads[n - 1]) {
        let before = arrows(pads, n - 1);
        if before.len() > 0 {
            before + ", "@ + arrow(pads[n - 1])
        } else {
            arrow(pads[n - 1])
        }
    } else {
        arrows(pads, n - 1)
    }
}

/// The pin comment of a footprint: one line that lists its connected pads
/// with their nets; nothing where no pad is connected.
pub open spec fn pin_comment(pads: Seq<PadView>) -> Seq<char> {
    let list = arrows(pads, pads.len() as int);
    if list.len() > 0 {
        "# Pins: "@ + list + "\n"@
    } else {
        Seq::empty()
    }
}

/// Writes the pin comment of the pads.
pub fn emit_pin_comment(out: &mut String, pads: &Vec<Pad>)
    ensures
        final(out)@ == old(out)@ + pin_comment(pads_view(pads@)),
{
    let ghost pv = pads_view(pads@);
    let mut list = String::new();
    let mut i: usize = 0;
    assert(list@ =~= arrows(pv, 0));
    while i < pads.len()
        invariant
            i <= pads.len(),
            pv == pads_view(pads@),
            list@ == arrows(pv, i as int),
        decreases pads.len() - i,
    {
        assert(pv[i as int] == pads@[i as int]@);
        if !is_unconnected_name(pads[i].net_name.as_str()) {
            let ghost before = list@;
            if list.as_str().unicode_len() > 0 {
                put(&mut list, ", ");
            }
            put(&mut list, pads[i].number.as_str());
            put(&mut list, "->");
            put(&mut list, pads[i].net_name.as_str());
            assert(list@ =~= if before.len() > 0 {
                before + ", "@ + arrow(pv[i as int])
            } else {
                arrow(pv[i as int])
            });
        }
        i += 1;
    }
    if list.as_str().unicode_len() > 0 {
        let ghost before = out@;
        put(out, "# Pins: ");
        put(out, list.as_str());
        put(out, "\n");
        assert(out@ =~= before + ("# Pins: "@ + list@ + "\n"@));
    } else {
        assert(out@ =~= out@ + Seq::<char>::empty());
    }
}

// ---------------------------------------------------------------------------
// Order and determinism
// ---------------------------------------------------------------------------

/// Whether `name` is the name of a connected net among the first `n` nets.
pub open spec fn names_connected_net(nets: Seq<(u32, Seq<char>)>, n: int, name: Seq<char>) -> bool {
    !is_unconnected(name) && exists|k: int| 0 <= k < n && k < nets.len() && (#[trigger] nets[k]).1 == name
}

/// The declared names are sorted, each stands once, and they are the
/// names of the connected nets: no empty name and no name of an
/// unconnected pad is ever declared, and no connected net is left out.
pub proof fn lemma_declared_names(nets: Seq<(u32, Seq<char>)>, n: int)
    requires
        0 <= n <= nets.len(),
    ensures
        strictly_sorted(net_names_upto(nets, n)),
        forall|name: Seq<char>|
            #[trigger] net_names_upto(nets, n).contains(name) <==> names_connected_net(nets, n, name),
    decreases n,
{
    if n > 0 {
        lemma_declared_names(nets, n - 1);
        let before = net_names_upto(nets, n - 1);
        let x = nets[n - 1].1;
        if !is_unconnected(x) {
            lemma_sorted_insert(before, x);
        }
        assert forall|name: Seq<char>| #[trigger]
            net_names_upto(nets, n).contains(name) <==> names_connected_net(nets, n, name) by {
            if names_connected_net(nets, n, name) {
                let k = choose|k: int| 0 <= k < n && k < nets.len() && (#[trigger] nets[k]).1 == name;
                if k < n - 1 {
                    assert(names_connected_net(nets, n - 1, name));
                }
            }
            if net_names_upto(nets, n).contains(name) {
                if !is_unconnected(x) && name == x {
                    assert(nets[n - 1].1 == name);
                } else {
                    assert(before.contains(name));
                    assert(names_connected_net(nets, n - 1, name));
                    let k = choose|k: int|
                        0 <= k < n - 1 && k < nets.len() && (#[trigger] nets[k]).1 == name;
                    assert(nets[k].1 == name);
                }
            }
        }
    } else {
        assert forall|name: Seq<char>| #[trigger]
            net_names_upto(nets, n).contains(name) <==> names_connected_net(nets, n, name) by {}
    }
}

/// The declared nets do not depend on the order in which a layout lists
/// its nets: two layouts with the same connected net names declare the
/// same nets in the same order.
pub proof fn lemma_net_order_is_irrelevant(first: Seq<(u32, Seq<char>)>, second: Seq<(u32, Seq<char>)>)
    requires
        forall|name: Seq<char>|
            names_connected_net(first, first.len() as int, name) <==> names_connected_net(
                second,
                second.len() as int,
                name,
            ),
    ensures
        net_names_upto(first, first.len() as int) == net_names_upto(second, second.len() as int),
{
    lemma_declared_names(first, first.len() as int);
    lemma_declared_names(second, second.len() as int);
    let a = net_names_upto(first, first.len() as int);
    let b = net_names_upto(second, second.len() as int);
    assert forall|y: Seq<char>| a.contains(y) <==> b.contains(y) by {
        assert(a.contains(y) <==> names_connected_net(first, first.len() as int, y));
        assert(b.contains(y) <==> names_connected_net(second, second.len() as int, y));
    }
    lemma_sorted_same(a, b);
}

/// The modules in use are sorted, each stands once.
pub proof fn lemma_symbol_modules_sorted(symbols: Seq<SchematicSymbolView>, n: int)
    requires
        0 <= n <= symbols.len(),
    ensures
        strictly_sorted(symbol_modules_upto(symbols, n)),
    decreases n,
{
    if n > 0 {
        lemma_symbol_modules_sorted(symbols, n - 1);
        match template_of(symbols[n - 1].lib_id) {
            Some(info) => {
                lemma_sorted_insert(symbol_modules_upto(symbols, n - 1), info.module_file);
            },
            None => {},
        }
    }
}

/// The modules of footprints are sorted, each stands once.
pub proof fn lemma_footprint_modules_sorted(footprints: Seq<FootprintView>, n: int)
    requires
        0 <= n <= footprints.len(),
    ensures
        strictly_sorted(footprint_modules_upto(footprints, n)),
    decreases n,
{
    if n > 0 {
        lemma_footprint_modules_sorted(footprints, n - 1);
        match module_file_of(kind_of_both(footprints[n - 1].footprint, footprints[n - 1].reference)) {
            Some(file) => {
                lemma_sorted_insert(footprint_modules_upto(footprints, n - 1), file);
            },
            None => {},
        }
    }
}

/// The modules that a project uses are sorted, each stands once.
pub proof fn lemma_used_modules_sorted(project: KicadProjectView)
    ensures
        strictly_sorted(used_modules(project)),
        strictly_sorted(schematic_modules(project)),
{
    match project.schematic {
        Some(schematic) => {
            lemma_symbol_modules_sorted(schematic.symbols, schematic.symbols.len() as int);
        },
        None => {
            match project.pcb {
                Some(pcb) => {
                    lemma_footprint_modules_sorted(pcb.footprints, pcb.footprints.len() as int);
                },
                None => {},
            }
        },
    }
}

/// The nets that a project declares are sorted by name, each name once.
pub proof fn lemma_declared_nets_sorted(project: KicadProjectView)
    ensures
        strictly_sorted(declared_nets(project).map_values(|e: (Seq<char>, NetType)| e.0)),
{
    match project.pcb {
        Some(pcb) => {
            lemma_declared_names(pcb.nets, pcb.nets.len() as int);
            let names = net_names_upto(pcb.nets, pcb.nets.len() as int);
            assert(declared_nets(project).map_values(|e: (Seq<char>, NetType)| e.0) =~= names);
        },
        None => {},
    }
}

/// A pad without net, or with the net of an unconnected pad, assigns no
/// pin and stands in no pin dictionary and in no pin comment.
pub proof fn lemma_unconnected_pad_is_skipped(
    pads: Seq<PadView>,
    table: Pairs,
    separator: Seq<char>,
    n: int,
)
    requires
        0 < n <= pads.len(),
        is_unconnected(pads[n - 1].net_name),
    ensures
        pin_lines(pads, table, separator, n) == pin_lines(pads, table, separator, n - 1),
        dict_lines(pads, n) == dict_lines(pads, n - 1),
        arrows(pads, n) == arrows(pads, n - 1),
{
}

/// A symbol is joined to no footprint where the layout holds none whose
/// path leads to it.
pub proof fn lemma_no_footprint(pcb: KicadPcbView, uuid: Seq<char>, n: int)
    requires
        0 <= n <= pcb.footprints.len(),
        forall|i: int| 0 <= i < n ==> !joins(#[trigger] pcb.footprints[i], uuid),
    ensures
        footprint_index(pcb.footprints, uuid, n) is None,
    decreases n,
{
    if n > 0 {
        lemma_no_footprint(pcb, uuid, n - 1);
    }
}

} // verus!

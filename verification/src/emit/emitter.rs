//! The emitter: generic parts for the symbols that have a template, a
//! generic component for the others.

use crate::emit::blocks::{
    aliases_text, arranged, block_text, board_text, connections, emit_block, emit_board_block,
    emit_fallback, emit_flag_lines, emit_header_block, emit_imports_block, emit_module_aliases,
    emit_net_declarations, emit_package_line, emit_populate_lines, emit_quoted_line, fallback_text,
    flags_text, footprint_view, header_text, imports_text, lemma_arranged_fixed, nets_text,
    package_line, populate_lines, quoted_line,
};
use crate::emit::collect::{
    collect_nets, collect_used_modules, declared_nets, emit_pin_comment, emit_pin_lines,
    find_footprint, footprint_for, lemma_declared_nets_sorted, lemma_used_modules_sorted, pcb_view,
    pin_comment, pin_text, roles_view, used_modules,
};
use crate::emit::common::{lemma_sorted_fixed, sorted_names};
use crate::emit::mode::OutputMode;
use crate::mapping::footprints::{
    infer_component_type_combined, kind_of_both, module_name_of, pin_map_of, table_view,
    FootprintComponentType,
};
use crate::mapping::nets::NetType;
use crate::mapping::symbols::{map_symbol, template_of, GenericInfoView};
use crate::mapping::values::{
    kind_of, looks_like_mpn, mpn_like, normalize_value, normalized, ComponentType,
};
use crate::parser::pairs::Pairs;
use crate::parser::pcb::{footprints_view, Footprint, FootprintView, KicadPcb, KicadPcbView};
use crate::parser::schematic::{
    symbols_view, KicadSchematic, KicadSchematicView, SchematicSymbol, SchematicSymbolView,
};
use crate::project::{KicadProject, KicadProjectView};
use crate::text::put;
use vstd::prelude::*;

verus! {

// ---------------------------------------------------------------------------
// Header, imports, board
// ---------------------------------------------------------------------------

/// The header of the output for the project of that name.
pub open spec fn zen_header(name: Seq<char>) -> Seq<char> {
    header_text(name, "# Import with: pcb import kicad <path>"@)
}

/// Writes the header.
pub fn emit_header(out: &mut String, name: &str)
    ensures
        final(out)@ == old(out)@ + zen_header(name@),
{
    emit_header_block(out, name, "# Import with: pcb import kicad <path>");
}

/// Writes the imports: the board, and the power and ground interfaces that
/// the nets need.
pub fn emit_imports(out: &mut String, nets: &Vec<(String, NetType)>)
    ensures
        final(out)@ == old(out)@ + imports_text(roles_view(nets@), true),
{
    emit_imports_block(out, nets, true);
}

/// Writes the board block: the board `<name>-imported`, four layers, the
/// layout under `layout/<name>-imported`.
pub fn emit_board(out: &mut String, name: &str)
    ensures
        final(out)@ == old(out)@ + board_text(name@, "-imported"@),
{
    emit_board_block(out, name, "-imported");
}

// ---------------------------------------------------------------------------
// Symbols with a template
// ---------------------------------------------------------------------------

/// The value argument of a symbol: its value in canonical units. Left out
/// where the symbol has no value, where its kind carries none, and where
/// the value reads as a part number.
pub open spec fn value_line(value: Seq<char>, lib_id: Seq<char>) -> Seq<char> {
    if value.len() > 0 && kind_of(lib_id) != ComponentType::Other && !mpn_like(value) {
        quoted_line("value"@, normalized(value, kind_of(lib_id)), " = "@)
    } else {
        Seq::empty()
    }
}

/// The value and package arguments of a symbol.
pub open spec fn value_and_package(value: Seq<char>, footprint: Seq<char>, lib_id: Seq<char>) -> Seq<
    char,
> {
    value_line(value, lib_id) + package_line(footprint, " = "@)
}

/// Writes the value and package arguments of a symbol.
pub fn emit_value_and_package(out: &mut String, value: &str, footprint: &str, lib_id: &str)
    ensures
        final(out)@ == old(out)@ + value_and_package(value@, footprint@, lib_id@),
{
    let ghost start = out@;
    let kind = ComponentType::from_lib_id(lib_id);
    if value.unicode_len() > 0 && kind != ComponentType::Other && !looks_like_mpn(value) {
        let text = normalize_value(value, kind);
        emit_quoted_line(out, "value", text.as_str(), " = ");
    }
    emit_package_line(out, footprint, " = ");
    assert(out@ =~= start + value_and_package(value@, footprint@, lib_id@));
}

/// The pin table of an optional table: empty where there is none.
pub open spec fn table_or_empty(pin_map: Option<&Vec<(&'static str, &'static str)>>) -> Pairs {
    match pin_map {
        Some(table) => table_view(table@),
        None => Seq::empty(),
    }
}

/// Writes the pin assignments of a symbol: for each connected pad of its
/// footprint the pin, named by the table where the table names it and by
/// the pad number where not, and the identifier of the net.
pub fn emit_pin_connections(
    out: &mut String,
    footprint: Option<&Footprint>,
    pin_map: Option<&Vec<(&'static str, &'static str)>>,
)
    ensures
        final(out)@ == old(out)@ + connections(
            footprint_view(footprint),
            table_or_empty(pin_map),
            " = "@,
        ),
{
    let fp = match footprint {
        Some(fp) => fp,
        None => {
            assert(out@ =~= out@ + Seq::<char>::empty());
            return ;
        },
    };
    match pin_map {
        Some(table) => {
            emit_pin_lines(out, &fp.pads, table, " = ");
        },
        None => {
            let table: Vec<(&'static str, &'static str)> = Vec::new();
            assert(table_view(table@) =~= Seq::empty());
            emit_pin_lines(out, &fp.pads, &table, " = ");
        },
    }
}

/// Writes a component block: the module, the name argument, the body that
/// the caller made, the closing bracket and an empty line.
pub fn emit_generic_component(out: &mut String, name: &str, module: &str, body: &str)
    ensures
        final(out)@ == old(out)@ + block_text(module@, name@, body@, " = "@),
{
    emit_block(out, module, name, body, " = ");
}

/// The arguments of a symbol with a template, after its name: value and
/// package, the flags of the template, the populate flags, the pin
/// assignments.
pub open spec fn mapped_body(
    symbol: SchematicSymbolView,
    info: GenericInfoView,
    footprint: Option<FootprintView>,
) -> Seq<char> {
    value_and_package(symbol.value, symbol.footprint, symbol.lib_id) + flags_text(
        info.flags,
        " = "@,
    ) + populate_lines(symbol.dnp, symbol.exclude_from_bom, " = "@) + connections(
        footprint,
        info.pin_map,
        " = "@,
    )
}

/// What one symbol becomes: the block of its template where it has one,
/// and else the generic component. Its footprint is the one that the
/// layout joins to it.
pub open spec fn symbol_text(symbol: SchematicSymbolView, pcb: Option<KicadPcbView>) -> Seq<char> {
    let footprint = footprint_for(pcb, symbol.uuid);
    match template_of(symbol.lib_id) {
        Some(info) => block_text(
            info.module_name,
            symbol.reference,
            mapped_body(symbol, info, footprint),
            " = "@,
        ),
        None => fallback_text(symbol, footprint, " = "@),
    }
}

/// A symbol with a template and without footprint keeps all its arguments
/// but the pin assignments, of which it has none.
pub proof fn lemma_symbol_without_footprint(
    symbol: SchematicSymbolView,
    info: GenericInfoView,
    pcb: Option<KicadPcbView>,
)
    requires
        template_of(symbol.lib_id) == Some(info),
        footprint_for(pcb, symbol.uuid) is None,
    ensures
        symbol_text(symbol, pcb) == block_text(
            info.module_name,
            symbol.reference,
            value_and_package(symbol.value, symbol.footprint, symbol.lib_id) + flags_text(
                info.flags,
                " = "@,
            ) + populate_lines(symbol.dnp, symbol.exclude_from_bom, " = "@),
            " = "@,
        ),
{
    let body = value_and_package(symbol.value, symbol.footprint, symbol.lib_id) + flags_text(
        info.flags,
        " = "@,
    ) + populate_lines(symbol.dnp, symbol.exclude_from_bom, " = "@);
    assert(mapped_body(symbol, info, None) =~= body);
}

/// Writes what an unmapped symbol becomes: a comment that names its
/// library id, and a generic component with the library id split in two,
/// the footprint, the value, the populate flags and the nets of the pads.
pub fn emit_unknown_component(
    out: &mut String,
    symbol: &SchematicSymbol,
    footprint: Option<&Footprint>,
)
    ensures
        final(out)@ == old(out)@ + fallback_text(symbol@, footprint_view(footprint), " = "@),
{
    emit_fallback(out, symbol, footprint, " = ");
}

/// Writes what one symbol becomes.
pub fn emit_symbol(out: &mut String, symbol: &SchematicSymbol, pcb: Option<&KicadPcb>)
    ensures
        final(out)@ == old(out)@ + symbol_text(symbol@, pcb_view(pcb)),
{
    let footprint = find_footprint(pcb, symbol.uuid.as_str());
    match map_symbol(symbol.lib_id.as_str()) {
        Some(info) => {
            let mut body = String::new();
            emit_value_and_package(
                &mut body,
                symbol.value.as_str(),
                symbol.footprint.as_str(),
                symbol.lib_id.as_str(),
            );
            emit_flag_lines(&mut body, &info.flags, " = ");
            emit_populate_lines(&mut body, symbol.dnp, symbol.exclude_from_bom, " = ");
            emit_pin_connections(&mut body, footprint, Some(&info.pin_map));
            assert(body@ =~= mapped_body(symbol@, info@, footprint_view(footprint)));
            emit_generic_component(out, symbol.reference.as_str(), info.module_name, body.as_str());
        },
        None => {
            emit_unknown_component(out, symbol, footprint);
        },
    }
}

/// What the first `n` symbols become, in order.
pub open spec fn symbols_text(symbols: Seq<SchematicSymbolView>, pcb: Option<KicadPcbView>, n: int) -> Seq<
    char,
>
    decreases n,
{
    if n <= 0 {
        Seq::empty()
    } else {
        symbols_text(symbols, pcb, n - 1) + symbol_text(symbols[n - 1], pcb)
    }
}

/// The components of a schematic: a comment, then one block for each
/// symbol, in the order of the schematic.
pub open spec fn schematic_components(schematic: KicadSchematicView, pcb: Option<KicadPcbView>) -> Seq<
    char,
> {
    "# Components\n"@ + symbols_text(schematic.symbols, pcb, schematic.symbols.len() as int)
}

/// Writes the components of a schematic.
pub fn emit_components_from_schematic(
    out: &mut String,
    schematic: &KicadSchematic,
    pcb: Option<&KicadPcb>,
)
    ensures
        final(out)@ == old(out)@ + schematic_components(schematic@, pcb_view(pcb)),
{
    let ghost start = out@;
    let ghost sv = symbols_view(schematic.symbols@);
    let ghost pv = pcb_view(pcb);
    put(out, "# Components\n");
    let mut i: usize = 0;
    assert(out@ =~= start + "# Components\n"@ + symbols_text(sv, pv, 0));
    while i < schematic.symbols.len()
        invariant
            i <= schematic.symbols.len(),
            sv == symbols_view(schematic.symbols@),
            pv == pcb_view(pcb),
            out@ == start + "# Components\n"@ + symbols_text(sv, pv, i as int),
        decreases schematic.symbols.len() - i,
    {
        assert(sv[i as int] == schematic.symbols@[i as int]@);
        emit_symbol(out, &schematic.symbols[i], pcb);
        assert(out@ =~= start + "# Components\n"@ + symbols_text(sv, pv, i + 1));
        i += 1;
    }
    assert(out@ =~= start + schematic_components(schematic@, pv));
}

// ---------------------------------------------------------------------------
// Footprints, for a project without schematic
// ---------------------------------------------------------------------------

/// The value argument of a footprint: its value as it is. Left out where
/// the footprint has no value and where the value reads as a part number.
pub open spec fn raw_value_line(value: Seq<char>) -> Seq<char> {
    if value.len() > 0 && !mpn_like(value) {
        quoted_line("value"@, value, " = "@)
    } else {
        Seq::empty()
    }
}

/// The argument that a kind needs beside the common ones: a colour for a
/// light-emitting diode.
pub open spec fn kind_line(kind: FootprintComponentType) -> Seq<char> {
    if kind == FootprintComponentType::Led {
        quoted_line("color"@, "red"@, " = "@)
    } else {
        Seq::empty()
    }
}

/// The arguments of a footprint of a known kind, after its name: package,
/// value, what the kind needs, the pin assignments.
pub open spec fn footprint_body(footprint: FootprintView, kind: FootprintComponentType) -> Seq<char> {
    package_line(footprint.footprint, " = "@) + raw_value_line(footprint.value) + kind_line(kind)
        + pin_text(footprint.pads, pin_map_of(kind), " = "@)
}

/// The block of a footprint of a known kind.
pub open spec fn footprint_block(
    footprint: FootprintView,
    module: Seq<char>,
    kind: FootprintComponentType,
) -> Seq<char> {
    block_text(module, footprint.reference, footprint_body(footprint, kind), " = "@)
}

/// What a footprint of unknown kind becomes: comments that keep its name,
/// reference, value and pad nets, and an empty line.
pub open spec fn footprint_comment(footprint: FootprintView) -> Seq<char> {
    "# TODO: Unknown footprint '"@ + footprint.footprint + "' - manual conversion needed\n"@
        + "# Reference: "@ + footprint.reference + ", Value: "@ + footprint.value + "\n"@
        + pin_comment(footprint.pads) + "\n"@
}

/// What one footprint becomes: the block of its kind where the kind has a
/// module, and else the comments. The kind is read from the footprint name,
/// with the reference designator as the second signal.
pub open spec fn footprint_text(footprint: FootprintView) -> Seq<char> {
    let kind = kind_of_both(footprint.footprint, footprint.reference);
    match module_name_of(kind) {
        Some(module) => footprint_block(footprint, module, kind),
        None => footprint_comment(footprint),
    }
}

/// Writes the block of a footprint of a known kind.
pub fn emit_pcb_generic_component(
    out: &mut String,
    fp: &Footprint,
    module: &str,
    comp_type: &FootprintComponentType,
)
    ensures
        final(out)@ == old(out)@ + footprint_block(fp@, module@, *comp_type),
{
    let mut body = String::new();
    emit_package_line(&mut body, fp.footprint.as_str(), " = ");
    if fp.value.as_str().unicode_len() > 0 && !looks_like_mpn(fp.value.as_str()) {
        emit_quoted_line(&mut body, "value", fp.value.as_str(), " = ");
    }
    if *comp_type == FootprintComponentType::Led {
        emit_quoted_line(&mut body, "color", "red", " = ");
    }
    emit_pin_lines(&mut body, &fp.pads, &comp_type.pin_map(), " = ");
    assert(body@ =~= footprint_body(fp@, *comp_type));
    emit_block(out, module, fp.reference.as_str(), body.as_str(), " = ");
}

/// Writes what a footprint of unknown kind becomes.
pub fn emit_pcb_unknown_component(out: &mut String, fp: &Footprint)
    ensures
        final(out)@ == old(out)@ + footprint_comment(fp@),
{
    let ghost start = out@;
    put(out, "# TODO: Unknown footprint '");
    put(out, fp.footprint.as_str());
    put(out, "' - manual conversion needed\n");
    put(out, "# Reference: ");
    put(out, fp.reference.as_str());
    put(out, ", Value: ");
    put(out, fp.value.as_str());
    put(out, "\n");
    emit_pin_comment(out, &fp.pads);
    put(out, "\n");
    assert(out@ =~= start + footprint_comment(fp@));
}

/// What the first `n` footprints become, in order.
pub open spec fn footprints_text(footprints: Seq<FootprintView>, n: int) -> Seq<char>
    decreases n,
{
    if n <= 0 {
        Seq::empty()
    } else {
        footprints_text(footprints, n - 1) + footprint_text(footprints[n - 1])
    }
}

/// The components of a layout: a comment, then one block for each
/// footprint, in the order of the layout.
pub open spec fn pcb_components(pcb: KicadPcbView) -> Seq<char> {
    "# Components (from PCB footprints)\n"@ + footprints_text(
        pcb.footprints,
        pcb.footprints.len() as int,
    )
}

/// Writes the components of a layout.
pub fn emit_components_from_pcb(out: &mut String, pcb: &KicadPcb)
    ensures
        final(out)@ == old(out)@ + pcb_components(pcb@),
{
    let ghost start = out@;
    let ghost fv = footprints_view(pcb.footprints@);
    put(out, "# Components (from PCB footprints)\n");
    let mut i: usize = 0;
    assert(out@ =~= start + "# Components (from PCB footprints)\n"@ + footprints_text(fv, 0));
    while i < pcb.footprints.len()
        invariant
            i <= pcb.footprints.len(),
            fv == footprints_view(pcb.footprints@),
            out@ == start + "# Components (from PCB footprints)\n"@ + footprints_text(fv, i as int),
        decreases pcb.footprints.len() - i,
    {
        assert(fv[i as int] == pcb.footprints@[i as int]@);
        let fp = &pcb.footprints[i];
        let kind = infer_component_type_combined(fp.footprint.as_str(), fp.reference.as_str());
        match kind.module_name() {
            Some(module) => {
                emit_pcb_generic_component(out, fp, module, &kind);
            },
            None => {
                emit_pcb_unknown_component(out, fp);
            },
        }
        assert(out@ =~= start + "# Components (from PCB footprints)\n"@ + footprints_text(
            fv,
            i + 1,
        ));
        i += 1;
    }
    assert(out@ =~= start + pcb_components(pcb@));
}

// ---------------------------------------------------------------------------
// The output
// ---------------------------------------------------------------------------

/// The components of a project: those of its schematic where it has one,
/// else those of its layout, and nothing where it has neither.
pub open spec fn components_text(project: KicadProjectView) -> Seq<char> {
    match project.schematic {
        Some(schematic) => schematic_components(schematic, project.pcb),
        None => match project.pcb {
            Some(pcb) => pcb_components(pcb),
            None => Seq::empty(),
        },
    }
}

/// The output for a project, in this order: header, imports, module
/// aliases sorted by module file, net declarations sorted by net name,
/// components, board.
pub open spec fn zen_text(project: KicadProjectView) -> Seq<char> {
    zen_header(project.name) + imports_text(declared_nets(project), true) + aliases_text(
        used_modules(project),
    ) + nets_text(declared_nets(project)) + components_text(project) + board_text(
        project.name,
        "-imported"@,
    )
}

/// The Zener source text for a project. The text depends on what the
/// project holds and on nothing else; the mode does not change it.
pub fn emit_zen(project: &KicadProject, mode: OutputMode) -> (out: String)
    ensures
        out@ == zen_text(project@),
{
    let mut out = String::new();
    emit_header(&mut out, project.name.as_str());
    let nets = collect_nets(project);
    let modules = collect_used_modules(project);
    emit_imports(&mut out, &nets);
    emit_module_aliases(&mut out, &modules);
    emit_net_declarations(&mut out, &nets);
    let ghost before = out@;
    if let Some(schematic) = &project.schematic {
        let pcb: Option<&KicadPcb> = match &project.pcb {
            Some(p) => Some(p),
            None => None,
        };
        assert(pcb_view(pcb) == project@.pcb);
        emit_components_from_schematic(&mut out, schematic, pcb);
    } else if let Some(pcb) = &project.pcb {
        emit_components_from_pcb(&mut out, pcb);
    }
    assert(out@ =~= before + components_text(project@));
    emit_board(&mut out, project.name.as_str());
    assert(out@ =~= zen_text(project@));
    out
}

/// The nets and the modules of a project are written as they are
/// collected: sorted, each once. The net declarations of the output are
/// the declared nets of the project in their order, and its module aliases
/// are the modules in use in theirs.
pub proof fn lemma_output_order(project: KicadProjectView)
    ensures
        arranged(declared_nets(project)) == declared_nets(project),
        sorted_names(used_modules(project)) == used_modules(project),
{
    lemma_declared_nets_sorted(project);
    lemma_arranged_fixed(declared_nets(project));
    lemma_used_modules_sorted(project);
    lemma_sorted_fixed(used_modules(project));
}

/// Two projects that hold the same give the same text, character for
/// character.
pub proof fn lemma_emit_deterministic(first: KicadProject, second: KicadProject)
    requires
        first@ == second@,
    ensures
        zen_text(first@) == zen_text(second@),
{
}

} // verus!

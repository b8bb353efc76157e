//! The idiomatic emitter: generic parts in the compact style, without a
//! board block.

use crate::emit::blocks::{
    aliases_text, block_text, connections, emit_block, emit_fallback, emit_flag_lines,
    emit_header_block, emit_imports_block, emit_module_aliases, emit_net_declarations,
    emit_package_line, emit_populate_lines, emit_quoted_line, fallback_text, flags_text,
    footprint_view, header_text, imports_text, nets_text, package_line, populate_lines,
    quoted_line,
};
use crate::emit::collect::{
    collect_nets, collect_schematic_modules, declared_nets, emit_pin_lines, find_footprint,
    footprint_for, pcb_view, roles_view, schematic_modules,
};
use crate::mapping::nets::NetType;
use crate::mapping::symbols::{map_symbol, template_of, GenericInfo, GenericInfoView};
use crate::mapping::values::{
    kind_of, looks_like_mpn, mpn_like, normalize_value, normalized, ComponentType,
};
use crate::parser::pcb::{Footprint, FootprintView, KicadPcb, KicadPcbView};
use crate::parser::schematic::{symbols_view, SchematicSymbol, SchematicSymbolView};
use crate::project::{KicadProject, KicadProjectView};
use crate::text::{put, str_eq};
use vstd::prelude::*;

verus! {

/// Writes the imports: the power and ground interfaces that the nets need.
pub fn emit_imports(out: &mut String, nets: &Vec<(String, NetType)>)
    ensures
        final(out)@ == old(out)@ + imports_text(roles_view(nets@), false),
{
    emit_imports_block(out, nets, false);
}

/// The value argument of a symbol: its value in canonical units. Left out
/// where the symbol has no value, where its kind carries none, and where
/// the value is a part number that the rules leave as it is.
pub open spec fn compact_value_line(value: Seq<char>, lib_id: Seq<char>) -> Seq<char> {
    let kind = kind_of(lib_id);
    if value.len() > 0 && kind != ComponentType::Other && (normalized(value, kind) != value
        || !mpn_like(value)) {
        quoted_line("value"@, normalized(value, kind), "="@)
    } else {
        Seq::empty()
    }
}

/// The arguments of a symbol with a template, after its name: value,
/// package, the flags of the template, the populate flags, the pin
/// assignments.
pub open spec fn compact_body(
    symbol: SchematicSymbolView,
    info: GenericInfoView,
    footprint: Option<FootprintView>,
) -> Seq<char> {
    compact_value_line(symbol.value, symbol.lib_id) + package_line(symbol.footprint, "="@)
        + flags_text(info.flags, "="@) + populate_lines(symbol.dnp, symbol.exclude_from_bom, "="@)
        + connections(footprint, info.pin_map, "="@)
}

/// The block of a symbol with a template.
pub open spec fn compact_component(
    symbol: SchematicSymbolView,
    info: GenericInfoView,
    footprint: Option<FootprintView>,
) -> Seq<char> {
    block_text(info.module_name, symbol.reference, compact_body(symbol, info, footprint), "="@)
}

/// Writes the block of a symbol with a template.
pub fn emit_component_idiomatic(
    out: &mut String,
    symbol: &SchematicSymbol,
    info: &GenericInfo,
    footprint: Option<&Footprint>,
)
    ensures
        final(out)@ == old(out)@ + compact_component(symbol@, info@, footprint_view(footprint)),
{
    let mut body = String::new();
    let kind = ComponentType::from_lib_id(symbol.lib_id.as_str());
    if symbol.value.as_str().unicode_len() > 0 && kind != ComponentType::Other {
        let text = normalize_value(symbol.value.as_str(), kind);
        if !str_eq(text.as_str(), symbol.value.as_str()) || !looks_like_mpn(
            symbol.value.as_str(),
        ) {
            emit_quoted_line(&mut body, "value", text.as_str(), "=");
        }
    }
    assert(body@ =~= compact_value_line(symbol@.value, symbol@.lib_id));
    emit_package_line(&mut body, symbol.footprint.as_str(), "=");
    emit_flag_lines(&mut body, &info.flags, "=");
    emit_populate_lines(&mut body, symbol.dnp, symbol.exclude_from_bom, "=");
    match footprint {
        Some(fp) => {
            emit_pin_lines(&mut body, &fp.pads, &info.pin_map, "=");
        },
        None => {},
    }
    assert(body@ =~= compact_body(symbol@, info@, footprint_view(footprint)));
    emit_block(out, info.module_name, symbol.reference.as_str(), body.as_str(), "=");
}

/// Writes what an unmapped symbol becomes: a comment that names its
/// library id, and a generic component with the library id split in two,
/// the footprint, the value, the populate flags and the nets of the pads.
pub fn emit_component_fallback(
    out: &mut String,
    symbol: &SchematicSymbol,
    footprint: Option<&Footprint>,
)
    ensures
        final(out)@ == old(out)@ + fallback_text(symbol@, footprint_view(footprint), "="@),
{
    emit_fallback(out, symbol, footprint, "=");
}

/// What one symbol becomes.
pub open spec fn compact_symbol(symbol: SchematicSymbolView, pcb: Option<KicadPcbView>) -> Seq<char> {
    let footprint = footprint_for(pcb, symbol.uuid);
    match template_of(symbol.lib_id) {
        Some(info) => compact_component(symbol, info, footprint),
        None => fallback_text(symbol, footprint, "="@),
    }
}

/// What the first `n` symbols become, in order.
pub open spec fn compact_symbols(
    symbols: Seq<SchematicSymbolView>,
    pcb: Option<KicadPcbView>,
    n: int,
) -> Seq<char>
    decreases n,
{
    if n <= 0 {
        Seq::empty()
    } else {
        compact_symbols(symbols, pcb, n - 1) + compact_symbol(symbols[n - 1], pcb)
    }
}

/// The components of a project: a comment and one block for each symbol
/// of its schematic; nothing without a schematic.
pub open spec fn compact_components(project: KicadProjectView) -> Seq<char> {
    match project.schematic {
        Some(schematic) => "# Components\n"@ + compact_symbols(
            schematic.symbols,
            project.pcb,
            schematic.symbols.len() as int,
        ),
        None => Seq::empty(),
    }
}

/// Writes the components of a project.
pub fn emit_components_idiomatic(out: &mut String, project: &KicadProject)
    ensures
        final(out)@ == old(out)@ + compact_components(project@),
{
    let ghost start = out@;
    let schematic = match &project.schematic {
        Some(s) => s,
        None => {
            assert(out@ =~= start + compact_components(project@));
            return ;
        },
    };
    let pcb: Option<&KicadPcb> = match &project.pcb {
        Some(p) => Some(p),
        None => None,
    };
    let ghost sv = symbols_view(schematic.symbols@);
    let ghost pv = project@.pcb;
    assert(pcb_view(pcb) == pv);
    put(out, "# Components\n");
    let mut i: usize = 0;
    assert(out@ =~= start + "# Components\n"@ + compact_symbols(sv, pv, 0));
    while i < schematic.symbols.len()
        invariant
            i <= schematic.symbols.len(),
            sv == symbols_view(schematic.symbols@),
            pv == pcb_view(pcb),
            out@ == start + "# Components\n"@ + compact_symbols(sv, pv, i as int),
        decreases schematic.symbols.len() - i,
    {
        assert(sv[i as int] == schematic.symbols@[i as int]@);
        let symbol = &schematic.symbols[i];
        let footprint = find_footprint(pcb, symbol.uuid.as_str());
        match map_symbol(symbol.lib_id.as_str()) {
            Some(info) => {
                emit_component_idiomatic(out, symbol, &info, footprint);
            },
            None => {
                emit_component_fallback(out, symbol, footprint);
            },
        }
        assert(out@ =~= start + "# Components\n"@ + compact_symbols(sv, pv, i + 1));
        i += 1;
    }
    assert(out@ =~= start + compact_components(project@));
}

/// The idiomatic output for a project, in this order: header, imports,
/// module aliases sorted by module file, net declarations sorted by net
/// name, components.
pub open spec fn idiomatic_text(project: KicadProjectView) -> Seq<char> {
    header_text(project.name, "# Mode: idiomatic (uses stdlib generics)"@) + imports_text(
        declared_nets(project),
        false,
    ) + aliases_text(schematic_modules(project)) + nets_text(declared_nets(project))
        + compact_components(project)
}

/// The Zener source text for a project in the compact style.
pub fn emit_idiomatic(project: &KicadProject) -> (out: String)
    ensures
        out@ == idiomatic_text(project@),
{
    let mut out = String::new();
    emit_header_block(&mut out, project.name.as_str(), "# Mode: idiomatic (uses stdlib generics)");
    let nets = collect_nets(project);
    let modules = collect_schematic_modules(project);
    emit_imports(&mut out, &nets);
    emit_module_aliases(&mut out, &modules);
    emit_net_declarations(&mut out, &nets);
    emit_components_idiomatic(&mut out, project);
    assert(out@ =~= idiomatic_text(project@));
    out
}

} // verus!

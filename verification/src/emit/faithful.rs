//! The faithful emitter: every symbol as a generic component that keeps
//! the library names of the design as they are.

use crate::emit::blocks::{
    block_text, board_text, emit_block, emit_board_block, emit_header_block, emit_imports_block,
    emit_net_declarations, emit_optional_line, emit_pins_argument, footprint_view, header_text,
    imports_text, nets_text, optional_line, pins_argument,
};
use crate::emit::collect::{collect_nets, declared_nets, find_footprint, footprint_for, pcb_view};
use crate::emit::common::{library_of, part_of, sanitize_name, sanitized, split_lib_id};
use crate::parser::pcb::{Footprint, FootprintView, KicadPcb, KicadPcbView};
use crate::parser::schematic::{symbols_view, SchematicSymbol, SchematicSymbolView};
use crate::project::{KicadProject, KicadProjectView};
use crate::text::put;
use vstd::prelude::*;

verus! {

/// The identifier that stands for a net name: every character that is not
/// alphanumeric or an underscore becomes an underscore, an underscore goes
/// before a digit that would come first and behind a reserved word, and the
/// name that leaves nothing becomes `net`.
pub fn sanitize_net_name(name: &str) -> (r: String)
    ensures
        r@ == sanitized(name@),
{
    sanitize_name(name)
}

/// The symbol argument: the symbol library file of the library, and the
/// part name.
pub open spec fn library_symbol_line(lib_id: Seq<char>) -> Seq<char> {
    "    symbol = Symbol(library = \"@kicad-symbols/"@ + library_of(lib_id)
        + ".kicad_sym\", name = \""@ + part_of(lib_id) + "\"),\n"@
}

/// The entries of the properties dictionary: the value where there is one,
/// and the populate flags that are set.
pub open spec fn property_lines(symbol: SchematicSymbolView) -> Seq<char> {
    (if symbol.value.len() > 0 {
        "        \"Value\": \""@ + symbol.value + "\",\n"@
    } else {
        Seq::empty()
    }) + (if symbol.dnp {
        "        \"dnp\": True,\n"@
    } else {
        Seq::empty()
    }) + (if symbol.exclude_from_bom {
        "        \"exclude_from_bom\": True,\n"@
    } else {
        Seq::empty()
    })
}

/// The properties argument; nothing where there is no entry.
pub open spec fn properties_argument(symbol: SchematicSymbolView) -> Seq<char> {
    let lines = property_lines(symbol);
    if lines.len() > 0 {
        "    properties = {\n"@ + lines + "    },\n"@
    } else {
        Seq::empty()
    }
}

/// The arguments of a component, after its name: symbol, footprint, the
/// nets of the pads by pad number, properties.
pub open spec fn faithful_body(symbol: SchematicSymbolView, footprint: Option<FootprintView>) -> Seq<
    char,
> {
    library_symbol_line(symbol.lib_id) + optional_line("footprint"@, symbol.footprint, " = "@)
        + pins_argument(footprint, " = "@) + properties_argument(symbol)
}

/// What one symbol becomes.
pub open spec fn faithful_component(
    symbol: SchematicSymbolView,
    footprint: Option<FootprintView>,
) -> Seq<char> {
    block_text("Component"@, symbol.reference, faithful_body(symbol, footprint), " = "@)
}

fn emit_properties(out: &mut String, symbol: &SchematicSymbol)
    ensures
        final(out)@ == old(out)@ + properties_argument(symbol@),
{
    let ghost start = out@;
    let mut lines = String::new();
    if symbol.value.as_str().unicode_len() > 0 {
        put(&mut lines, "        \"Value\": \"");
        put(&mut lines, symbol.value.as_str());
        put(&mut lines, "\",\n");
    }
    if symbol.dnp {
        put(&mut lines, "        \"dnp\": True,\n");
    }
    if symbol.exclude_from_bom {
        put(&mut lines, "        \"exclude_from_bom\": True,\n");
    }
    assert(lines@ =~= property_lines(symbol@));
    if lines.as_str().unicode_len() > 0 {
        put(out, "    properties = {\n");
        put(out, lines.as_str());
        put(out, "    },\n");
    }
    assert(out@ =~= start + properties_argument(symbol@));
}

/// Writes what one symbol becomes: a generic component with the symbol
/// library file and part name, the footprint, the nets of the pads of its
/// footprint, and its value and populate flags as properties.
pub fn emit_component_faithful(
    out: &mut String,
    symbol: &SchematicSymbol,
    footprint: Option<&Footprint>,
)
    ensures
        final(out)@ == old(out)@ + faithful_component(symbol@, footprint_view(footprint)),
{
    let mut body = String::new();
    let (library, part) = split_lib_id(symbol.lib_id.as_str());
    put(&mut body, "    symbol = Symbol(library = \"@kicad-symbols/");
    put(&mut body, library.as_str());
    put(&mut body, ".kicad_sym\", name = \"");
    put(&mut body, part.as_str());
    put(&mut body, "\"),\n");
    emit_optional_line(&mut body, "footprint", symbol.footprint.as_str(), " = ");
    emit_pins_argument(&mut body, footprint, " = ");
    emit_properties(&mut body, symbol);
    assert(body@ =~= faithful_body(symbol@, footprint_view(footprint)));
    emit_block(out, "Component", symbol.reference.as_str(), body.as_str(), " = ");
}

/// What the first `n` symbols become, in order.
pub open spec fn faithful_symbols(
    symbols: Seq<SchematicSymbolView>,
    pcb: Option<KicadPcbView>,
    n: int,
) -> Seq<char>
    decreases n,
{
    if n <= 0 {
        Seq::empty()
    } else {
        faithful_symbols(symbols, pcb, n - 1) + faithful_component(
            symbols[n - 1],
            footprint_for(pcb, symbols[n - 1].uuid),
        )
    }
}

/// The components of a project: a comment and one component for each
/// symbol of its schematic; nothing without a schematic.
pub open spec fn faithful_components(project: KicadProjectView) -> Seq<char> {
    match project.schematic {
        Some(schematic) => "# Components\n"@ + faithful_symbols(
            schematic.symbols,
            project.pcb,
            schematic.symbols.len() as int,
        ),
        None => Seq::empty(),
    }
}

/// Writes the components of a project.
pub fn emit_components_faithful(out: &mut String, project: &KicadProject)
    ensures
        final(out)@ == old(out)@ + faithful_components(project@),
{
    let ghost start = out@;
    let schematic = match &project.schematic {
        Some(s) => s,
        None => {
            assert(out@ =~= start + faithful_components(project@));
            return ;
        },
    };
    let pcb: Option<&KicadPcb> = match &project.pcb {
        Some(p) => Some(p),
        None => None,
    };
    let ghost sv = symbols_view(schematic.symbols@);
    let ghost pv = project@.pcb;
    assert(pcb_view(pcb) == pv);
    put(out, "# Components\n");
    let mut i: usize = 0;
    assert(out@ =~= start + "# Components\n"@ + faithful_symbols(sv, pv, 0));
    while i < schematic.symbols.len()
        invariant
            i <= schematic.symbols.len(),
            sv == symbols_view(schematic.symbols@),
            pv == pcb_view(pcb),
            out@ == start + "# Components\n"@ + faithful_symbols(sv, pv, i as int),
        decreases schematic.symbols.len() - i,
    {
        assert(sv[i as int] == schematic.symbols@[i as int]@);
        let symbol = &schematic.symbols[i];
        let footprint = find_footprint(pcb, symbol.uuid.as_str());
        emit_component_faithful(out, symbol, footprint);
        assert(out@ =~= start + "# Components\n"@ + faithful_symbols(sv, pv, i + 1));
        i += 1;
    }
    assert(out@ =~= start + faithful_components(project@));
}

/// The faithful output for a project, in this order: header, imports, net
/// declarations sorted by net name, components, board.
pub open spec fn faithful_text(project: KicadProjectView) -> Seq<char> {
    header_text(project.name, "# Mode: faithful (preserves exact KiCad data)"@) + imports_text(
        declared_nets(project),
        true,
    ) + nets_text(declared_nets(project)) + faithful_components(project) + board_text(
        project.name,
        Seq::empty(),
    )
}

/// The Zener source text for a project in which every symbol is a generic
/// component that keeps the library names of the design.
pub fn emit_faithful(project: &KicadProject) -> (out: String)
    ensures
        out@ == faithful_text(project@),
{
    proof {
        reveal_strlit("");
    }
    assert(""@ =~= Seq::<char>::empty());
    let mut out = String::new();
    emit_header_block(
        &mut out,
        project.name.as_str(),
        "# Mode: faithful (preserves exact KiCad data)",
    );
    let nets = collect_nets(project);
    emit_imports_block(&mut out, &nets, true);
    emit_net_declarations(&mut out, &nets);
    emit_components_faithful(&mut out, project);
    emit_board_block(&mut out, project.name.as_str(), "");
    assert(out@ =~= faithful_text(project@));
    out
}

} // verus!

//! The blocks of text that every output is made of.

use crate::emit::collect::{any_role, emit_pin_dict, has_role, pin_dict, pin_text, roles_view};
use crate::emit::common::{
    lemma_sorted_fixed, lemma_sorted_upto, library_of, part_of, sanitize_name, sanitized,
    sort_names, sorted_names, split_lib_id, strictly_sorted,
};
use crate::mapping::footprints::{extract_package, package_of, table_view};
use crate::mapping::nets::{constructor_of, net_type_constructor, NetType};
use crate::parser::pairs::Pairs;
use crate::parser::pcb::{strings_view, Footprint, FootprintView};
use crate::parser::schematic::{SchematicSymbol, SchematicSymbolView};
use crate::text::{
    after_last, after_last_of, chars_of, lemma_lex_irreflexive, lex_lt, put, str_eq, string_of,
    strip_suffix, without_suffix,
};
use vstd::prelude::*;

verus! {

// ---------------------------------------------------------------------------
// Header
// ---------------------------------------------------------------------------

/// The header: a comment that names the project, a second comment line, and
/// the workspace block.
pub open spec fn header_text(name: Seq<char>, second: Seq<char>) -> Seq<char> {
    "# Auto-generated from KiCad project: "@ + name + "\n"@ + second + "\n"@ + "\n"@
        + "# ```pcb\n"@ + "# [workspace]\n"@ + "# pcb-version = \"0.3\"\n"@ + "# ```\n"@ + "\n"@
}

/// Writes the header.
pub fn emit_header_block(out: &mut String, name: &str, second: &str)
    ensures
        final(out)@ == old(out)@ + header_text(name@, second@),
{
    let ghost start = out@;
    put(out, "# Auto-generated from KiCad project: ");
    put(out, name);
    put(out, "\n");
    put(out, second);
    put(out, "\n");
    put(out, "\n");
    put(out, "# ```pcb\n");
    put(out, "# [workspace]\n");
    put(out, "# pcb-version = \"0.3\"\n");
    put(out, "# ```\n");
    put(out, "\n");
    assert(out@ =~= start + header_text(name@, second@));
}

// ---------------------------------------------------------------------------
// Imports
// ---------------------------------------------------------------------------

/// The import of the power and ground interfaces: of those that some net
/// needs, and no line where no net needs either.
pub open spec fn interfaces_line(nets: Seq<(Seq<char>, NetType)>) -> Seq<char> {
    let power = has_role(nets, NetType::Power);
    let ground = has_role(nets, NetType::Ground);
    if power && ground {
        "load(\"@stdlib/interfaces.zen\", \"Power\", \"Ground\")\n"@
    } else if power {
        "load(\"@stdlib/interfaces.zen\", \"Power\")\n"@
    } else if ground {
        "load(\"@stdlib/interfaces.zen\", \"Ground\")\n"@
    } else {
        Seq::empty()
    }
}

/// The imports: that of the board where `board` is set, that of the
/// interfaces in use, and an empty line.
pub open spec fn imports_text(nets: Seq<(Seq<char>, NetType)>, board: bool) -> Seq<char> {
    (if board {
        "load(\"@stdlib/board_config.zen\", \"Board\")\n"@
    } else {
        Seq::empty()
    }) + interfaces_line(nets) + "\n"@
}

/// Writes the imports.
pub fn emit_imports_block(out: &mut String, nets: &Vec<(String, NetType)>, board: bool)
    ensures
        final(out)@ == old(out)@ + imports_text(roles_view(nets@), board),
{
    let ghost start = out@;
    if board {
        put(out, "load(\"@stdlib/board_config.zen\", \"Board\")\n");
    }
    let power = any_role(nets, NetType::Power);
    let ground = any_role(nets, NetType::Ground);
    if power && ground {
        put(out, "load(\"@stdlib/interfaces.zen\", \"Power\", \"Ground\")\n");
    } else if power {
        put(out, "load(\"@stdlib/interfaces.zen\", \"Power\")\n");
    } else if ground {
        put(out, "load(\"@stdlib/interfaces.zen\", \"Ground\")\n");
    }
    put(out, "\n");
    assert(out@ =~= start + imports_text(roles_view(nets@), board));
}

// ---------------------------------------------------------------------------
// Module aliases
// ---------------------------------------------------------------------------

/// The alias of a module file: its last path segment without the extension
/// `.zen`.
pub open spec fn alias_name(file: Seq<char>) -> Seq<char> {
    without_suffix(after_last(file, '/'), ".zen"@)
}

/// The declaration of one module alias.
pub open spec fn alias_line(file: Seq<char>) -> Seq<char> {
    alias_name(file) + " = Module(\""@ + file + "\")\n"@
}

/// The declarations of the first `n` modules.
pub open spec fn alias_lines(modules: Seq<Seq<char>>, n: int) -> Seq<char>
    decreases n,
{
    if n <= 0 {
        Seq::empty()
    } else {
        alias_lines(modules, n - 1) + alias_line(modules[n - 1])
    }
}

/// The module aliases: one declaration for each module, sorted by module
/// file, each module once, and an empty line; nothing at all without
/// modules.
pub open spec fn aliases_text(modules: Seq<Seq<char>>) -> Seq<char> {
    let sorted = sorted_names(modules);
    if sorted.len() == 0 {
        Seq::empty()
    } else {
        alias_lines(sorted, sorted.len() as int) + "\n"@
    }
}

/// Writes the module aliases, sorted by module file, each module once, in
/// whatever order and however often the list holds them.
pub fn emit_module_aliases(out: &mut String, modules: &Vec<String>)
    ensures
        final(out)@ == old(out)@ + aliases_text(strings_view(modules@)),
{
    let ghost start = out@;
    let sorted = sort_names(modules);
    let ghost mv = strings_view(sorted@);
    if sorted.len() == 0 {
        assert(out@ =~= start + aliases_text(strings_view(modules@)));
        return ;
    }
    let mut i: usize = 0;
    assert(out@ =~= start + alias_lines(mv, 0));
    while i < sorted.len()
        invariant
            i <= sorted.len(),
            mv == strings_view(sorted@),
            out@ == start + alias_lines(mv, i as int),
        decreases sorted.len() - i,
    {
        assert(mv[i as int] == sorted@[i as int]@);
        let file = chars_of(sorted[i].as_str());
        let name = string_of(&strip_suffix(&after_last_of(&file, '/'), &chars_of(".zen")));
        let ghost before = out@;
        put(out, name.as_str());
        put(out, " = Module(\"");
        put(out, sorted[i].as_str());
        put(out, "\")\n");
        assert(out@ =~= before + alias_line(mv[i as int]));
        assert(out@ =~= start + alias_lines(mv, i + 1));
        i += 1;
    }
    put(out, "\n");
    assert(out@ =~= start + aliases_text(strings_view(modules@)));
}

// ---------------------------------------------------------------------------
// Net declarations
// ---------------------------------------------------------------------------

/// The declaration of one net: its identifier, the constructor of its
/// role, its name.
pub open spec fn net_line(name: Seq<char>, role: NetType) -> Seq<char> {
    sanitized(name) + " = "@ + constructor_of(role) + "(\""@ + name + "\")\n"@
}

/// The declarations of the first `n` nets.
pub open spec fn net_lines(nets: Seq<(Seq<char>, NetType)>, n: int) -> Seq<char>
    decreases n,
{
    if n <= 0 {
        Seq::empty()
    } else {
        net_lines(nets, n - 1) + net_line(nets[n - 1].0, nets[n - 1].1)
    }
}

/// The names of a list of nets.
pub open spec fn net_names(nets: Seq<(Seq<char>, NetType)>) -> Seq<Seq<char>> {
    nets.map_values(|e: (Seq<char>, NetType)| e.0)
}

/// The role that the first `n` entries of a list give a net: that of the
/// last entry of that name.
pub open spec fn role_in(nets: Seq<(Seq<char>, NetType)>, name: Seq<char>, n: int) -> NetType
    decreases n,
{
    if n <= 0 {
        NetType::Signal
    } else if nets[n - 1].0 == name {
        nets[n - 1].1
    } else {
        role_in(nets, name, n - 1)
    }
}

/// The nets in the order of their declaration: sorted by name, each name
/// once, with the role that the list gives it.
pub open spec fn arranged(nets: Seq<(Seq<char>, NetType)>) -> Seq<(Seq<char>, NetType)> {
    sorted_names(net_names(nets)).map_values(
        |name: Seq<char>| (name, role_in(nets, name, nets.len() as int)),
    )
}

/// The net declarations: a comment, one declaration for each net, sorted
/// by net name, each name once, and an empty line; nothing at all without
/// nets.
pub open spec fn nets_text(nets: Seq<(Seq<char>, NetType)>) -> Seq<char> {
    let sorted = arranged(nets);
    if sorted.len() == 0 {
        Seq::empty()
    } else {
        "# Nets\n"@ + net_lines(sorted, sorted.len() as int) + "\n"@
    }
}

/// A list whose names are sorted gives each of its nets the role that
/// stands beside its name.
pub proof fn lemma_role_in(nets: Seq<(Seq<char>, NetType)>, i: int, n: int)
    requires
        strictly_sorted(net_names(nets)),
        0 <= i < n <= nets.len(),
    ensures
        role_in(nets, nets[i].0, n) == nets[i].1,
    decreases n,
{
    if n - 1 != i {
        assert(net_names(nets)[i] == nets[i].0 && net_names(nets)[n - 1] == nets[n - 1].0);
        assert(lex_lt(net_names(nets)[i], net_names(nets)[n - 1]));
        lemma_lex_irreflexive(nets[i].0);
        lemma_role_in(nets, i, n - 1);
    }
}

/// A list whose names are sorted is declared as it stands.
pub proof fn lemma_arranged_fixed(nets: Seq<(Seq<char>, NetType)>)
    requires
        strictly_sorted(net_names(nets)),
    ensures
        arranged(nets) == nets,
{
    lemma_sorted_fixed(net_names(nets));
    assert forall|i: int| 0 <= i < nets.len() implies arranged(nets)[i] == nets[i] by {
        lemma_role_in(nets, i, nets.len() as int);
        assert(net_names(nets)[i] == nets[i].0);
    }
    assert(arranged(nets) =~= nets);
}

/// The declarations stand in strictly ascending order of the net names,
/// and every net of the list is declared.
pub proof fn lemma_arranged_sorted(nets: Seq<(Seq<char>, NetType)>)
    ensures
        strictly_sorted(net_names(arranged(nets))),
        forall|i: int|
            0 <= i < nets.len() ==> net_names(arranged(nets)).contains((#[trigger] nets[i]).0),
{
    let names = net_names(nets);
    lemma_sorted_upto(names, names.len() as int);
    assert(net_names(arranged(nets)) =~= sorted_names(names));
    assert(names.take(names.len() as int) =~= names);
    assert forall|i: int| 0 <= i < nets.len() implies net_names(arranged(nets)).contains(
        (#[trigger] nets[i]).0,
    ) by {
        assert(names[i] == nets[i].0);
        assert(names.contains(nets[i].0));
    }
}

fn role_of(nets: &Vec<(String, NetType)>, name: &str) -> (role: NetType)
    ensures
        role == role_in(roles_view(nets@), name@, nets.len() as int),
{
    let ghost nv = roles_view(nets@);
    let mut i: usize = nets.len();
    while i > 0
        invariant
            i <= nets.len(),
            nv == roles_view(nets@),
            role_in(nv, name@, nets.len() as int) == role_in(nv, name@, i as int),
        decreases i,
    {
        assert(nv[i - 1] == (nets@[i - 1].0@, nets@[i - 1].1));
        if str_eq(nets[i - 1].0.as_str(), name) {
            return nets[i - 1].1;
        }
        i -= 1;
    }
    NetType::Signal
}

/// Writes the net declarations, sorted by net name, each name once, in
/// whatever order the list holds the nets.
pub fn emit_net_declarations(out: &mut String, nets: &Vec<(String, NetType)>)
    ensures
        final(out)@ == old(out)@ + nets_text(roles_view(nets@)),
{
    let ghost start = out@;
    let ghost nv = roles_view(nets@);
    let mut names: Vec<String> = Vec::new();
    let mut k: usize = 0;
    while k < nets.len()
        invariant
            k <= nets.len(),
            nv == roles_view(nets@),
            strings_view(names@) == net_names(nv).take(k as int),
        decreases nets.len() - k,
    {
        let ghost before = strings_view(names@);
        names.push(nets[k].0.clone());
        assert(nv[k as int] == (nets@[k as int].0@, nets@[k as int].1));
        assert(strings_view(names@) =~= before.push(nets@[k as int].0@));
        assert(net_names(nv).take(k + 1) =~= net_names(nv).take(k as int).push(nv[k as int].0));
        k += 1;
    }
    assert(net_names(nv).take(nets.len() as int) =~= net_names(nv));
    let sorted = sort_names(&names);
    let ghost sv = arranged(nv);
    assert(sv.len() == sorted.len());
    if sorted.len() == 0 {
        assert(out@ =~= start + nets_text(nv));
        return ;
    }
    put(out, "# Nets\n");
    let mut i: usize = 0;
    assert(out@ =~= start + "# Nets\n"@ + net_lines(sv, 0));
    while i < sorted.len()
        invariant
            i <= sorted.len(),
            nv == roles_view(nets@),
            sv == arranged(nv),
            strings_view(sorted@) == sorted_names(net_names(nv)),
            out@ == start + "# Nets\n"@ + net_lines(sv, i as int),
        decreases sorted.len() - i,
    {
        assert(strings_view(sorted@)[i as int] == sorted@[i as int]@);
        let role = role_of(nets, sorted[i].as_str());
        assert(sv[i as int] == (sorted@[i as int]@, role));
        let var = sanitize_name(sorted[i].as_str());
        let ghost before = out@;
        put(out, var.as_str());
        put(out, " = ");
        put(out, net_type_constructor(&role));
        put(out, "(\"");
        put(out, sorted[i].as_str());
        put(out, "\")\n");
        assert(out@ =~= before + net_line(sv[i as int].0, sv[i as int].1));
        assert(out@ =~= start + "# Nets\n"@ + net_lines(sv, i + 1));
        i += 1;
    }
    put(out, "\n");
    assert(out@ =~= start + nets_text(nv));
}

// ---------------------------------------------------------------------------
// Board
// ---------------------------------------------------------------------------

/// The board block: the board named after the project, with four layers
/// and a layout path under `layout/`.
pub open spec fn board_text(name: Seq<char>, suffix: Seq<char>) -> Seq<char> {
    "# Board configuration\n"@ + "Board(\n"@ + "    name = \""@ + name + suffix + "\",\n"@
        + "    layers = 4,\n"@ + "    layout_path = \"layout/"@ + name + suffix + "\"\n"@ + ")\n"@
}

/// Writes the board block.
pub fn emit_board_block(out: &mut String, name: &str, suffix: &str)
    ensures
        final(out)@ == old(out)@ + board_text(name@, suffix@),
{
    let ghost start = out@;
    put(out, "# Board configuration\n");
    put(out, "Board(\n");
    put(out, "    name = \"");
    put(out, name);
    put(out, suffix);
    put(out, "\",\n");
    put(out, "    layers = 4,\n");
    put(out, "    layout_path = \"layout/");
    put(out, name);
    put(out, suffix);
    put(out, "\"\n");
    put(out, ")\n");
    assert(out@ =~= start + board_text(name@, suffix@));
}

// ---------------------------------------------------------------------------
// Lines of a component block
// ---------------------------------------------------------------------------

/// An argument with a quoted value: four spaces, the key, the assignment
/// sign, the value in quotes, a comma.
pub open spec fn quoted_line(key: Seq<char>, value: Seq<char>, assign: Seq<char>) -> Seq<char> {
    "    "@ + key + assign + "\""@ + value + "\",\n"@
}

/// An argument with a bare value.
pub open spec fn bare_line(key: Seq<char>, value: Seq<char>, assign: Seq<char>) -> Seq<char> {
    "    "@ + key + assign + value + ",\n"@
}

/// Writes an argument with a quoted value.
pub fn emit_quoted_line(out: &mut String, key: &str, value: &str, assign: &str)
    ensures
        final(out)@ == old(out)@ + quoted_line(key@, value@, assign@),
{
    let ghost start = out@;
    put(out, "    ");
    put(out, key);
    put(out, assign);
    put(out, "\"");
    put(out, value);
    put(out, "\",\n");
    assert(out@ =~= start + quoted_line(key@, value@, assign@));
}

/// Writes an argument with a bare value.
pub fn emit_bare_line(out: &mut String, key: &str, value: &str, assign: &str)
    ensures
        final(out)@ == old(out)@ + bare_line(key@, value@, assign@),
{
    let ghost start = out@;
    put(out, "    ");
    put(out, key);
    put(out, assign);
    put(out, value);
    put(out, ",\n");
    assert(out@ =~= start + bare_line(key@, value@, assign@));
}

/// The package argument of a footprint; nothing where the footprint has no
/// known package.
pub open spec fn package_line(footprint: Seq<char>, assign: Seq<char>) -> Seq<char> {
    match package_of(footprint) {
        Some(package) => quoted_line("package"@, package, assign),
        None => Seq::empty(),
    }
}

/// Writes the package argument of a footprint.
pub fn emit_package_line(out: &mut String, footprint: &str, assign: &str)
    ensures
        final(out)@ == old(out)@ + package_line(footprint@, assign@),
{
    match extract_package(footprint) {
        Some(package) => {
            emit_quoted_line(out, "package", package.as_str(), assign);
        },
        None => {
            assert(out@ =~= out@ + Seq::<char>::empty());
        },
    }
}

/// The arguments that the first `n` flags of a template fix.
pub open spec fn flag_lines(flags: Pairs, assign: Seq<char>, n: int) -> Seq<char>
    decreases n,
{
    if n <= 0 {
        Seq::empty()
    } else {
        flag_lines(flags, assign, n - 1) + bare_line(flags[n - 1].0, flags[n - 1].1, assign)
    }
}

/// The arguments that a template fixes.
pub open spec fn flags_text(flags: Pairs, assign: Seq<char>) -> Seq<char> {
    flag_lines(flags, assign, flags.len() as int)
}

/// Writes the arguments that a template fixes.
pub fn emit_flag_lines(out: &mut String, flags: &Vec<(&'static str, &'static str)>, assign: &str)
    ensures
        final(out)@ == old(out)@ + flags_text(table_view(flags@), assign@),
{
    let ghost start = out@;
    let ghost fv = table_view(flags@);
    let mut i: usize = 0;
    assert(out@ =~= start + flag_lines(fv, assign@, 0));
    while i < flags.len()
        invariant
            i <= flags.len(),
            fv == table_view(flags@),
            out@ == start + flag_lines(fv, assign@, i as int),
        decreases flags.len() - i,
    {
        assert(fv[i as int] == (flags@[i as int].0@, flags@[i as int].1@));
        let ghost before = out@;
        emit_bare_line(out, flags[i].0, flags[i].1, assign);
        assert(out@ =~= start + flag_lines(fv, assign@, i + 1));
        i += 1;
    }
}

/// The arguments for a part that is not populated or not in the bill of
/// materials.
pub open spec fn populate_lines(dnp: bool, exclude_from_bom: bool, assign: Seq<char>) -> Seq<char> {
    (if dnp {
        bare_line("dnp"@, "True"@, assign)
    } else {
        Seq::empty()
    }) + (if exclude_from_bom {
        bare_line("skip_bom"@, "True"@, assign)
    } else {
        Seq::empty()
    })
}

/// Writes the arguments for a part that is not populated or not in the bill
/// of materials.
pub fn emit_populate_lines(out: &mut String, dnp: bool, exclude_from_bom: bool, assign: &str)
    ensures
        final(out)@ == old(out)@ + populate_lines(dnp, exclude_from_bom, assign@),
{
    let ghost start = out@;
    if dnp {
        emit_bare_line(out, "dnp", "True", assign);
    }
    if exclude_from_bom {
        emit_bare_line(out, "skip_bom", "True", assign);
    }
    assert(out@ =~= start + populate_lines(dnp, exclude_from_bom, assign@));
}

/// The pin assignments of a symbol: those of the pads of its footprint, and
/// none for a symbol without footprint.
pub open spec fn connections(footprint: Option<FootprintView>, table: Pairs, assign: Seq<char>) -> Seq<
    char,
> {
    match footprint {
        Some(fp) => pin_text(fp.pads, table, assign),
        None => Seq::empty(),
    }
}

/// The view of an optional footprint.
pub open spec fn footprint_view(footprint: Option<&Footprint>) -> Option<FootprintView> {
    match footprint {
        Some(fp) => Some(fp@),
        None => None,
    }
}

/// A component block: the module, the name argument, the body, the closing
/// bracket and an empty line.
pub open spec fn block_text(module: Seq<char>, name: Seq<char>, body: Seq<char>, assign: Seq<char>) -> Seq<
    char,
> {
    module + "(\n"@ + quoted_line("name"@, name, assign) + body + ")\n"@ + "\n"@
}

/// Writes a component block.
pub fn emit_block(out: &mut String, module: &str, name: &str, body: &str, assign: &str)
    ensures
        final(out)@ == old(out)@ + block_text(module@, name@, body@, assign@),
{
    let ghost start = out@;
    put(out, module);
    put(out, "(\n");
    emit_quoted_line(out, "name", name, assign);
    put(out, body);
    put(out, ")\n");
    put(out, "\n");
    assert(out@ =~= start + block_text(module@, name@, body@, assign@));
}

// ---------------------------------------------------------------------------
// The generic component of an unmapped symbol
// ---------------------------------------------------------------------------

/// The symbol argument of a generic component: library and part name of
/// the library id.
pub open spec fn symbol_line(lib_id: Seq<char>, assign: Seq<char>) -> Seq<char> {
    "    symbol"@ + assign + "Symbol(library"@ + assign + "\""@ + library_of(lib_id) + "\", name"@
        + assign + "\""@ + part_of(lib_id) + "\"),\n"@
}

/// A quoted argument, left out where the value is empty.
pub open spec fn optional_line(key: Seq<char>, value: Seq<char>, assign: Seq<char>) -> Seq<char> {
    if value.len() > 0 {
        quoted_line(key, value, assign)
    } else {
        Seq::empty()
    }
}

/// The pin dictionary of a symbol: that of its footprint, and none for a
/// symbol without footprint.
pub open spec fn pins_argument(footprint: Option<FootprintView>, assign: Seq<char>) -> Seq<char> {
    match footprint {
        Some(fp) => pin_dict(fp.pads, "    pins"@ + assign + "{\n"@),
        None => Seq::empty(),
    }
}

/// The body of the generic component of an unmapped symbol: the library id
/// split in two, the footprint and the value as they are, the populate
/// flags, and the nets of the pads by pad number.
pub open spec fn fallback_body(
    symbol: SchematicSymbolView,
    footprint: Option<FootprintView>,
    assign: Seq<char>,
) -> Seq<char> {
    symbol_line(symbol.lib_id, assign) + optional_line("footprint"@, symbol.footprint, assign)
        + optional_line("value"@, symbol.value, assign) + populate_lines(
        symbol.dnp,
        symbol.exclude_from_bom,
        assign,
    ) + pins_argument(footprint, assign)
}

/// What an unmapped symbol becomes: a comment that names its library id,
/// and a generic component that keeps all it carries.
pub open spec fn fallback_text(
    symbol: SchematicSymbolView,
    footprint: Option<FootprintView>,
    assign: Seq<char>,
) -> Seq<char> {
    "# Unmapped symbol: "@ + symbol.lib_id + "\n"@ + block_text(
        "Component"@,
        symbol.reference,
        fallback_body(symbol, footprint, assign),
        assign,
    )
}

/// Writes a quoted argument, unless the value is empty.
pub fn emit_optional_line(out: &mut String, key: &str, value: &str, assign: &str)
    ensures
        final(out)@ == old(out)@ + optional_line(key@, value@, assign@),
{
    if value.unicode_len() > 0 {
        emit_quoted_line(out, key, value, assign);
    } else {
        assert(out@ =~= out@ + Seq::<char>::empty());
    }
}

/// Writes the symbol argument of a generic component.
pub fn emit_symbol_line(out: &mut String, lib_id: &str, assign: &str)
    ensures
        final(out)@ == old(out)@ + symbol_line(lib_id@, assign@),
{
    let ghost start = out@;
    let (library, part) = split_lib_id(lib_id);
    put(out, "    symbol");
    put(out, assign);
    put(out, "Symbol(library");
    put(out, assign);
    put(out, "\"");
    put(out, library.as_str());
    put(out, "\", name");
    put(out, assign);
    put(out, "\"");
    put(out, part.as_str());
    put(out, "\"),\n");
    assert(out@ =~= start + symbol_line(lib_id@, assign@));
}

/// Writes the pin dictionary of a symbol.
pub fn emit_pins_argument(out: &mut String, footprint: Option<&Footprint>, assign: &str)
    ensures
        final(out)@ == old(out)@ + pins_argument(footprint_view(footprint), assign@),
{
    match footprint {
        Some(fp) => {
            let mut opening = String::new();
            put(&mut opening, "    pins");
            put(&mut opening, assign);
            put(&mut opening, "{\n");
            assert(opening@ =~= "    pins"@ + assign@ + "{\n"@);
            emit_pin_dict(out, &fp.pads, opening.as_str());
        },
        None => {
            assert(out@ =~= out@ + Seq::<char>::empty());
        },
    }
}

/// Writes what an unmapped symbol becomes.
pub fn emit_fallback(
    out: &mut String,
    symbol: &SchematicSymbol,
    footprint: Option<&Footprint>,
    assign: &str,
)
    ensures
        final(out)@ == old(out)@ + fallback_text(symbol@, footprint_view(footprint), assign@),
{
    let ghost start = out@;
    let mut body = String::new();
    emit_symbol_line(&mut body, symbol.lib_id.as_str(), assign);
    emit_optional_line(&mut body, "footprint", symbol.footprint.as_str(), assign);
    emit_optional_line(&mut body, "value", symbol.value.as_str(), assign);
    emit_populate_lines(&mut body, symbol.dnp, symbol.exclude_from_bom, assign);
    emit_pins_argument(&mut body, footprint, assign);
    assert(body@ =~= fallback_body(symbol@, footprint_view(footprint), assign@));
    put(out, "# Unmapped symbol: ");
    put(out, symbol.lib_id.as_str());
    put(out, "\n");
    emit_block(out, "Component", symbol.reference.as_str(), body.as_str(), assign);
    assert(out@ =~= start + fallback_text(symbol@, footprint_view(footprint), assign@));
}

} // verus!

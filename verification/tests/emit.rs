use pcb_kicad2zen::emit::blocks::{
    emit_module_aliases, emit_net_declarations,
};
use pcb_kicad2zen::emit::collect::{collect_nets, collect_used_modules, find_footprint};
use pcb_kicad2zen::emit::common::{insert_sorted, sanitize_name, split_lib_id};
use pcb_kicad2zen::emit::emitter::{
    emit_board, emit_components_from_pcb, emit_generic_component, emit_header, emit_imports,
    emit_pin_connections, emit_symbol, emit_unknown_component, emit_value_and_package, emit_zen,
};
use pcb_kicad2zen::emit::faithful::{emit_component_faithful, emit_faithful, sanitize_net_name};
use pcb_kicad2zen::emit::idiomatic::{
    emit_component_fallback, emit_component_idiomatic, emit_idiomatic,
};
use pcb_kicad2zen::mapping::nets::NetType;
use pcb_kicad2zen::mapping::symbols::map_symbol;
use pcb_kicad2zen::mapping::values::looks_like_mpn;
use pcb_kicad2zen::parser::pcb::{Footprint, KicadPcb, Pad};
use pcb_kicad2zen::parser::schematic::{KicadSchematic, SchematicSymbol};
use pcb_kicad2zen::parser::sexpr::{Number, Position};
use pcb_kicad2zen::{KicadProject, OutputMode};

fn zero3() -> Position {
    Position { x: Number::Int(0), y: Number::Int(0), rotation: Number::Int(0) }
}

fn symbol(uuid: &str, lib_id: &str, reference: &str, value: &str, footprint: &str) -> SchematicSymbol {
    SchematicSymbol {
        uuid: uuid.to_string(),
        lib_id: lib_id.to_string(),
        at: zero3(),
        reference: reference.to_string(),
        value: value.to_string(),
        footprint: footprint.to_string(),
        dnp: false,
        exclude_from_bom: false,
        exclude_from_board: false,
        pins: Vec::new(),
        properties: Vec::new(),
    }
}

fn pad(number: &str, net_id: u32, net_name: &str) -> Pad {
    Pad {
        number: number.to_string(),
        pad_type: "smd".to_string(),
        shape: "rect".to_string(),
        at: zero3(),
        net_id,
        net_name: net_name.to_string(),
    }
}

fn footprint(path: &str, name: &str, reference: &str, value: &str, pads: Vec<Pad>) -> Footprint {
    Footprint {
        uuid: String::new(),
        footprint: name.to_string(),
        layer: "F.Cu".to_string(),
        at: zero3(),
        path: path.to_string(),
        reference: reference.to_string(),
        value: value.to_string(),
        attrs: Vec::new(),
        pads,
        properties: Vec::new(),
    }
}

fn schematic(symbols: Vec<SchematicSymbol>) -> KicadSchematic {
    KicadSchematic { version: 20250114, uuid: "doc".to_string(), lib_symbols: Vec::new(), symbols }
}

fn pcb(nets: Vec<(u32, &str)>, footprints: Vec<Footprint>) -> KicadPcb {
    KicadPcb {
        version: 20241229,
        thickness: Number::Int(0),
        layers: Vec::new(),
        nets: nets.into_iter().map(|(id, name)| (id, name.to_string())).collect(),
        footprints,
    }
}

fn demo() -> KicadProject {
    let r1 = symbol("u1", "Device:R", "R1", "4k7", "Resistor_SMD:R_0402_1005Metric");
    let mut u1 = symbol("u2", "MCU:Chip", "U1", "STM32", "Package:QFP");
    u1.exclude_from_bom = true;
    let fp = footprint(
        "/u1",
        "Resistor_SMD:R_0402_1005Metric",
        "R1",
        "4k7",
        vec![
            pad("1", 1, "+3V3"),
            pad("2", 2, "GND"),
            pad("3", 3, "unconnected-(R1-Pad3)"),
            pad("4", 0, ""),
        ],
    );
    KicadProject {
        name: "demo".to_string(),
        schematic: Some(schematic(vec![r1, u1])),
        pcb: Some(pcb(
            vec![(0, ""), (2, "GND"), (1, "+3V3"), (3, "unconnected-(R1-Pad3)"), (4, "SIG")],
            vec![fp],
        )),
        project: None,
    }
}

#[test]
fn test_sanitize_name() {
    assert_eq!(sanitize_name("VCC"), "VCC");
    assert_eq!(sanitize_name("GND"), "GND");
    assert_eq!(sanitize_name("+3V3"), "_3V3");
    assert_eq!(sanitize_name("USB_D+"), "USB_D_");
}

#[test]
fn emitter_test_looks_like_mpn() {
    assert!(looks_like_mpn("ERJ-2RKF1003X"));
    assert!(looks_like_mpn("GRM155R71C104KA88D"));
    assert!(!looks_like_mpn("10k"));
    assert!(!looks_like_mpn("100nF"));
}

#[test]
fn test_sanitize_net_name() {
    assert_eq!(sanitize_net_name("VCC"), "VCC");
    assert_eq!(sanitize_net_name("GND"), "GND");
    assert_eq!(sanitize_net_name("+3V3"), "_3V3");
    assert_eq!(sanitize_net_name("USB_D+"), "USB_D_");
    assert_eq!(sanitize_net_name("Net-(R1-Pad1)"), "Net__R1_Pad1_");
}

#[test]
fn test_split_lib_id() {
    assert_eq!(split_lib_id("Device:R"), ("Device".to_string(), "R".to_string()));
    assert_eq!(
        split_lib_id("Device:C_Polarized"),
        ("Device".to_string(), "C_Polarized".to_string())
    );
    assert_eq!(split_lib_id("NoColon"), ("".to_string(), "NoColon".to_string()));
}

#[test]
fn idiomatic_test_looks_like_mpn() {
    assert!(looks_like_mpn("ERJ-2RKF1003X"));
    assert!(looks_like_mpn("GRM155R71C104KA88D"));
    assert!(!looks_like_mpn("10k"));
    assert!(!looks_like_mpn("100nF"));
}

#[test]
fn split_at_the_first_colon_only() {
    assert_eq!(split_lib_id("a:b:c"), ("a".to_string(), "b:c".to_string()));
    assert_eq!(split_lib_id(":x"), ("".to_string(), "x".to_string()));
    assert_eq!(split_lib_id("x:"), ("x".to_string(), "".to_string()));
    assert_eq!(split_lib_id(""), ("".to_string(), "".to_string()));
}

fn is_identifier(s: &str) -> bool {
    let mut chars = s.chars();
    match chars.next() {
        Some(c) if c.is_ascii_alphabetic() || c == '_' => {}
        _ => return false,
    }
    chars.all(|c| c.is_ascii_alphanumeric() || c == '_')
}

#[test]
fn sanitized_names_are_identifiers() {
    let names = [
        "VCC", "+3V3", "3V3", "USB_D+", "Net-(R1-Pad1)", "", "-", "a b", "/sheet/net", "if",
        "For", "NONE", "true", "9", "_", "__x", "a.b.c", "1+1=2", "tab\there",
    ];
    for name in names {
        let id = sanitize_name(name);
        assert!(is_identifier(&id), "{:?} gave {:?}", name, id);
        assert_eq!(sanitize_name(name), id);
    }
}

#[test]
fn sanitize_edge_cases() {
    assert_eq!(sanitize_name(""), "net");
    assert_eq!(sanitize_name("3V3"), "_3V3");
    assert_eq!(sanitize_name("a1"), "a1");
    assert_eq!(sanitize_name("-"), "_");
    assert_eq!(sanitize_name("if"), "if_");
    assert_eq!(sanitize_name("For"), "For_");
    assert_eq!(sanitize_name("NONE"), "NONE_");
    assert_eq!(sanitize_name("and"), "and_");
    assert_eq!(sanitize_name("or"), "or_");
    assert_eq!(sanitize_name("not"), "not_");
    assert_eq!(sanitize_name("else"), "else_");
    assert_eq!(sanitize_name("in"), "in_");
    assert_eq!(sanitize_name("true"), "true_");
    assert_eq!(sanitize_name("false"), "false_");
    assert_eq!(sanitize_name("iff"), "iff");
    assert_eq!(sanitize_name("a b"), "a_b");
    assert_eq!(sanitize_name("_"), "_");
}

#[test]
fn sorted_insert_keeps_order_and_drops_repeats() {
    let mut list: Vec<String> = Vec::new();
    for name in ["m", "b", "z", "b", "a", "ab", "m", ""] {
        insert_sorted(&mut list, name.to_string());
    }
    assert_eq!(list, vec!["", "a", "ab", "b", "m", "z"]);
}

#[test]
fn declared_nets_are_sorted_and_connected() {
    let nets = collect_nets(&demo());
    assert_eq!(
        nets,
        vec![
            ("+3V3".to_string(), NetType::Power),
            ("GND".to_string(), NetType::Ground),
            ("SIG".to_string(), NetType::Signal),
        ]
    );
    let empty = KicadProject::new("x".to_string());
    assert!(collect_nets(&empty).is_empty());
}

#[test]
fn used_modules_are_sorted_and_distinct() {
    let project = KicadProject {
        name: "m".to_string(),
        schematic: Some(schematic(vec![
            symbol("1", "Device:R", "R1", "", ""),
            symbol("2", "Device:C", "C1", "", ""),
            symbol("3", "Device:R_Small", "R2", "", ""),
            symbol("4", "X:Y", "U1", "", ""),
        ])),
        pcb: None,
        project: None,
    };
    assert_eq!(
        collect_used_modules(&project),
        vec!["@stdlib/generics/Capacitor.zen", "@stdlib/generics/Resistor.zen"]
    );
    let from_layout = KicadProject {
        name: "m".to_string(),
        schematic: None,
        pcb: Some(pcb(
            vec![],
            vec![
                footprint("", "LED_SMD:LED_0603_1608Metric", "D1", "", vec![]),
                footprint("", "Custom:Thing", "R7", "", vec![]),
                footprint("", "Custom:Thing", "U7", "", vec![]),
            ],
        )),
        project: None,
    };
    assert_eq!(
        collect_used_modules(&from_layout),
        vec!["@stdlib/generics/Led.zen", "@stdlib/generics/Resistor.zen"]
    );
}

#[test]
fn footprint_join_strips_the_separators() {
    let layout = pcb(
        vec![],
        vec![
            footprint("/a", "F1", "R1", "", vec![]),
            footprint("//b", "F2", "R2", "", vec![]),
            footprint("c", "F3", "R3", "", vec![]),
            footprint("/a", "F4", "R4", "", vec![]),
            footprint("/x/a", "F5", "R5", "", vec![]),
        ],
    );
    assert_eq!(find_footprint(Some(&layout), "a").unwrap().footprint, "F4");
    assert_eq!(find_footprint(Some(&layout), "b").unwrap().footprint, "F2");
    assert_eq!(find_footprint(Some(&layout), "c").unwrap().footprint, "F3");
    assert_eq!(find_footprint(Some(&layout), "x/a").unwrap().footprint, "F5");
    assert!(find_footprint(Some(&layout), "d").is_none());
    assert!(find_footprint(Some(&layout), "/a").is_none());
    assert!(find_footprint(None, "a").is_none());
}

#[test]
fn header_imports_and_board() {
    let mut out = String::new();
    emit_header(&mut out, "demo");
    assert_eq!(
        out,
        "# Auto-generated from KiCad project: demo\n# Import with: pcb import kicad <path>\n\n# ```pcb\n# [workspace]\n# pcb-version = \"0.3\"\n# ```\n\n"
    );
    let mut out = String::from("x");
    emit_imports(&mut out, &vec![]);
    assert_eq!(out, "xload(\"@stdlib/board_config.zen\", \"Board\")\n\n");
    let mut out = String::new();
    emit_imports(&mut out, &vec![("A".to_string(), NetType::Ground)]);
    assert_eq!(
        out,
        "load(\"@stdlib/board_config.zen\", \"Board\")\nload(\"@stdlib/interfaces.zen\", \"Ground\")\n\n"
    );
    let mut out = String::new();
    emit_imports(&mut out, &vec![("A".to_string(), NetType::Signal), ("B".to_string(), NetType::Power)]);
    assert_eq!(
        out,
        "load(\"@stdlib/board_config.zen\", \"Board\")\nload(\"@stdlib/interfaces.zen\", \"Power\")\n\n"
    );
    let mut out = String::new();
    emit_board(&mut out, "demo");
    assert_eq!(
        out,
        "# Board configuration\nBoard(\n    name = \"demo-imported\",\n    layers = 4,\n    layout_path = \"layout/demo-imported\"\n)\n"
    );
}

#[test]
fn module_aliases_and_net_declarations() {
    let mut out = String::new();
    emit_module_aliases(&mut out, &vec![]);
    assert_eq!(out, "");
    emit_module_aliases(
        &mut out,
        &vec![
            "plain".to_string(),
            "@stdlib/generics/Resistor.zen".to_string(),
            "a/b.zen.zen".to_string(),
            "@stdlib/generics/Capacitor.zen".to_string(),
            "plain".to_string(),
        ],
    );
    assert_eq!(
        out,
        "Capacitor = Module(\"@stdlib/generics/Capacitor.zen\")\nResistor = Module(\"@stdlib/generics/Resistor.zen\")\nb = Module(\"a/b.zen.zen\")\nplain = Module(\"plain\")\n\n"
    );
    let mut out = String::new();
    emit_net_declarations(&mut out, &vec![]);
    assert_eq!(out, "");
    emit_net_declarations(
        &mut out,
        &vec![
            ("USB_D_P".to_string(), NetType::DiffPairP),
            ("GND".to_string(), NetType::Signal),
            ("Net-(R1-Pad1)".to_string(), NetType::Signal),
            ("+3V3".to_string(), NetType::Power),
            ("GND".to_string(), NetType::Ground),
        ],
    );
    assert_eq!(
        out,
        "# Nets\n_3V3 = Power(\"+3V3\")\nGND = Ground(\"GND\")\nNet__R1_Pad1_ = Net(\"Net-(R1-Pad1)\")\nUSB_D_P = Net(\"USB_D_P\")\n\n"
    );
}

#[test]
fn value_and_package_lines() {
    let mut out = String::new();
    emit_value_and_package(&mut out, "4k7", "Resistor_SMD:R_0402_1005Metric", "Device:R");
    assert_eq!(out, "    value = \"4.7kohm\",\n    package = \"0402\",\n");
    let mut out = String::new();
    emit_value_and_package(&mut out, "ERJ-2RKF1003X", "Resistor_SMD:R_0402_1005Metric", "Device:R");
    assert_eq!(out, "    package = \"0402\",\n");
    let mut out = String::new();
    emit_value_and_package(&mut out, "red", "Custom:MyFootprint", "Device:LED");
    assert_eq!(out, "");
    let mut out = String::new();
    emit_value_and_package(&mut out, "", "C_0603_1608Metric", "Device:C");
    assert_eq!(out, "    package = \"0603\",\n");
}

#[test]
fn pin_connections_skip_unconnected_pads() {
    let fp = footprint(
        "/u",
        "F",
        "Q1",
        "",
        vec![pad("1", 1, "BASE"), pad("2", 0, ""), pad("3", 3, "unconnected-(Q1-Pad3)"), pad("9", 4, "+5V")],
    );
    let table = vec![("1", "B"), ("2", "C"), ("3", "E")];
    let mut out = String::new();
    emit_pin_connections(&mut out, Some(&fp), Some(&table));
    assert_eq!(out, "    B = BASE,\n    9 = _5V,\n");
    let mut out = String::new();
    emit_pin_connections(&mut out, Some(&fp), None);
    assert_eq!(out, "    1 = BASE,\n    9 = _5V,\n");
    let mut out = String::new();
    emit_pin_connections(&mut out, None, Some(&table));
    assert_eq!(out, "");
}

#[test]
fn generic_component_block() {
    let mut out = String::new();
    emit_generic_component(&mut out, "R1", "Resistor", "    value = \"1ohm\",\n");
    assert_eq!(out, "Resistor(\n    name = \"R1\",\n    value = \"1ohm\",\n)\n\n");
}

#[test]
fn symbol_without_footprint_keeps_its_other_fields() {
    let mut c1 = symbol("nowhere", "Device:C_Polarized", "C1", "10u", "Capacitor_SMD:C_0805_2012Metric");
    c1.dnp = true;
    let layout = pcb(vec![(1, "VCC")], vec![footprint("/other", "F", "C9", "", vec![pad("1", 1, "VCC")])]);
    let mut out = String::new();
    emit_symbol(&mut out, &c1, Some(&layout));
    assert_eq!(
        out,
        "Capacitor(\n    name = \"C1\",\n    value = \"10uF\",\n    package = \"0805\",\n    polarized = true,\n    dnp = True,\n)\n\n"
    );
    let mut out = String::new();
    emit_symbol(&mut out, &c1, None);
    assert_eq!(
        out,
        "Capacitor(\n    name = \"C1\",\n    value = \"10uF\",\n    package = \"0805\",\n    polarized = true,\n    dnp = True,\n)\n\n"
    );
}

#[test]
fn unmapped_symbol_becomes_a_generic_component() {
    let mut u1 = symbol("u2", "MCU:Chip", "U1", "STM32", "Package:QFP");
    u1.dnp = true;
    u1.exclude_from_bom = true;
    let fp = footprint("/u2", "Package:QFP", "U1", "", vec![pad("1", 1, "+3V3"), pad("2", 0, ""), pad("A1", 2, "Net-(U1-A1)")]);
    let mut out = String::new();
    emit_unknown_component(&mut out, &u1, Some(&fp));
    assert_eq!(
        out,
        "# Unmapped symbol: MCU:Chip\nComponent(\n    name = \"U1\",\n    symbol = Symbol(library = \"MCU\", name = \"Chip\"),\n    footprint = \"Package:QFP\",\n    value = \"STM32\",\n    dnp = True,\n    skip_bom = True,\n    pins = {\n        \"1\": _3V3,\n        \"A1\": Net__U1_A1_,\n    },\n)\n\n"
    );
    let bare = symbol("u3", "NoColon", "X1", "", "");
    let mut out = String::new();
    emit_unknown_component(&mut out, &bare, None);
    assert_eq!(
        out,
        "# Unmapped symbol: NoColon\nComponent(\n    name = \"X1\",\n    symbol = Symbol(library = \"\", name = \"NoColon\"),\n)\n\n"
    );
    let mut out = String::new();
    emit_component_fallback(&mut out, &u1, Some(&fp));
    assert_eq!(
        out,
        "# Unmapped symbol: MCU:Chip\nComponent(\n    name=\"U1\",\n    symbol=Symbol(library=\"MCU\", name=\"Chip\"),\n    footprint=\"Package:QFP\",\n    value=\"STM32\",\n    dnp=True,\n    skip_bom=True,\n    pins={\n        \"1\": _3V3,\n        \"A1\": Net__U1_A1_,\n    },\n)\n\n"
    );
}

#[test]
fn whole_output_of_a_project() {
    let expected = "# Auto-generated from KiCad project: demo\n\
# Import with: pcb import kicad <path>\n\
\n\
# ```pcb\n\
# [workspace]\n\
# pcb-version = \"0.3\"\n\
# ```\n\
\n\
load(\"@stdlib/board_config.zen\", \"Board\")\n\
load(\"@stdlib/interfaces.zen\", \"Power\", \"Ground\")\n\
\n\
Resistor = Module(\"@stdlib/generics/Resistor.zen\")\n\
\n\
# Nets\n\
_3V3 = Power(\"+3V3\")\n\
GND = Ground(\"GND\")\n\
SIG = Net(\"SIG\")\n\
\n\
# Components\n\
Resistor(\n\
\x20   name = \"R1\",\n\
\x20   value = \"4.7kohm\",\n\
\x20   package = \"0402\",\n\
\x20   P1 = _3V3,\n\
\x20   P2 = GND,\n\
)\n\
\n\
# Unmapped symbol: MCU:Chip\n\
Component(\n\
\x20   name = \"U1\",\n\
\x20   symbol = Symbol(library = \"MCU\", name = \"Chip\"),\n\
\x20   footprint = \"Package:QFP\",\n\
\x20   value = \"STM32\",\n\
\x20   skip_bom = True,\n\
)\n\
\n\
# Board configuration\n\
Board(\n\
\x20   name = \"demo-imported\",\n\
\x20   layers = 4,\n\
\x20   layout_path = \"layout/demo-imported\"\n\
)\n";
    assert_eq!(emit_zen(&demo(), OutputMode::Idiomatic), expected);
    assert_eq!(emit_zen(&demo(), OutputMode::Faithful), expected);
    assert_eq!(demo().to_zen(OutputMode::default()), expected);
}

#[test]
fn same_project_gives_the_same_text() {
    let first = emit_zen(&demo(), OutputMode::Idiomatic);
    let second = emit_zen(&demo(), OutputMode::Idiomatic);
    assert_eq!(first, second);
    // The order in which the layout lists its nets does not show.
    let mut shuffled = demo();
    shuffled.pcb.as_mut().unwrap().nets.reverse();
    assert_eq!(emit_zen(&shuffled, OutputMode::Idiomatic), first);
}

#[test]
fn unconnected_nets_are_neither_declared_nor_assigned() {
    let text = emit_zen(&demo(), OutputMode::Idiomatic);
    assert!(!text.contains("unconnected"));
    assert!(!text.contains("    3 = "));
    assert!(!text.contains("    4 = "));
    assert!(text.contains("    P1 = _3V3,\n"));
}

#[test]
fn empty_project() {
    let project = KicadProject::new("none".to_string());
    assert_eq!(
        emit_zen(&project, OutputMode::Idiomatic),
        "# Auto-generated from KiCad project: none\n# Import with: pcb import kicad <path>\n\n# ```pcb\n# [workspace]\n# pcb-version = \"0.3\"\n# ```\n\nload(\"@stdlib/board_config.zen\", \"Board\")\n\n# Board configuration\nBoard(\n    name = \"none-imported\",\n    layers = 4,\n    layout_path = \"layout/none-imported\"\n)\n"
    );
}

#[test]
fn project_without_schematic_is_driven_by_its_footprints() {
    let layout = pcb(
        vec![(1, "VCC"), (2, "LED_K")],
        vec![
            footprint("", "LED_SMD:LED_0603_1608Metric", "D1", "RED", vec![pad("1", 2, "LED_K"), pad("2", 1, "VCC")]),
            footprint("", "Custom:Thing", "R7", "ERJ-2RKF1003X", vec![pad("1", 1, "VCC"), pad("2", 0, "")]),
            footprint("", "Custom:Thing", "U7", "chip", vec![pad("1", 1, "VCC"), pad("5", 2, "LED_K"), pad("6", 0, "unconnected-(U7-Pad6)")]),
            footprint("", "Custom:Other", "U8", "", vec![]),
        ],
    );
    let mut out = String::new();
    emit_components_from_pcb(&mut out, &layout);
    assert_eq!(
        out,
        "# Components (from PCB footprints)\n\
Led(\n    name = \"D1\",\n    package = \"0603\",\n    value = \"RED\",\n    color = \"red\",\n    K = LED_K,\n    A = VCC,\n)\n\n\
Resistor(\n    name = \"R7\",\n    P1 = VCC,\n)\n\n\
# TODO: Unknown footprint 'Custom:Thing' - manual conversion needed\n# Reference: U7, Value: chip\n# Pins: 1->VCC, 5->LED_K\n\n\
# TODO: Unknown footprint 'Custom:Other' - manual conversion needed\n# Reference: U8, Value: \n\n"
    );
    let project = KicadProject { name: "p".to_string(), schematic: None, pcb: Some(layout), project: None };
    let text = emit_zen(&project, OutputMode::Idiomatic);
    assert!(text.contains("Led = Module(\"@stdlib/generics/Led.zen\")\nResistor = Module(\"@stdlib/generics/Resistor.zen\")\n\n"));
    assert!(text.contains("# Nets\nLED_K = Net(\"LED_K\")\nVCC = Power(\"VCC\")\n\n# Components (from PCB footprints)\n"));
    assert!(text.ends_with("layout_path = \"layout/p-imported\"\n)\n"));
}

#[test]
fn faithful_output() {
    let mut r2 = symbol("u1", "Device:R", "R2", "10k", "Resistor_SMD:R_0402_1005Metric");
    r2.dnp = true;
    r2.exclude_from_bom = true;
    let fp = footprint("/u1", "F", "R2", "", vec![pad("1", 1, "+3V3"), pad("2", 0, "")]);
    let mut out = String::new();
    emit_component_faithful(&mut out, &r2, Some(&fp));
    assert_eq!(
        out,
        "Component(\n    name = \"R2\",\n    symbol = Symbol(library = \"@kicad-symbols/Device.kicad_sym\", name = \"R\"),\n    footprint = \"Resistor_SMD:R_0402_1005Metric\",\n    pins = {\n        \"1\": _3V3,\n    },\n    properties = {\n        \"Value\": \"10k\",\n        \"dnp\": True,\n        \"exclude_from_bom\": True,\n    },\n)\n\n"
    );
    let bare = symbol("u9", "NoColon", "X1", "", "");
    let mut out = String::new();
    emit_component_faithful(&mut out, &bare, None);
    assert_eq!(
        out,
        "Component(\n    name = \"X1\",\n    symbol = Symbol(library = \"@kicad-symbols/.kicad_sym\", name = \"NoColon\"),\n)\n\n"
    );
    let text = emit_faithful(&demo());
    assert!(text.starts_with("# Auto-generated from KiCad project: demo\n# Mode: faithful (preserves exact KiCad data)\n\n"));
    assert!(text.contains("load(\"@stdlib/board_config.zen\", \"Board\")\nload(\"@stdlib/interfaces.zen\", \"Power\", \"Ground\")\n\n# Nets\n"));
    assert!(text.contains("# Components\nComponent(\n    name = \"R1\",\n"));
    assert!(text.ends_with("# Board configuration\nBoard(\n    name = \"demo\",\n    layers = 4,\n    layout_path = \"layout/demo\"\n)\n"));
    let empty = KicadProject::new("e".to_string());
    assert!(!emit_faithful(&empty).contains("# Components"));
}

#[test]
fn idiomatic_output() {
    let mut r1 = symbol("u1", "Device:R", "R1", " ERJ-2RKF1003X ", "Resistor_SMD:R_0402_1005Metric");
    r1.exclude_from_bom = true;
    let info = map_symbol("Device:R").unwrap();
    let fp = footprint("/u1", "F", "R1", "", vec![pad("1", 1, "+3V3"), pad("2", 2, "GND"), pad("3", 3, "X")]);
    let mut out = String::new();
    emit_component_idiomatic(&mut out, &r1, &info, Some(&fp));
    assert_eq!(
        out,
        "Resistor(\n    name=\"R1\",\n    package=\"0402\",\n    skip_bom=True,\n    P1=_3V3,\n    P2=GND,\n    3=X,\n)\n\n"
    );
    let r2 = symbol("u1", "Device:R", "R2", "ERJ-2RKF1003X", "");
    let mut out = String::new();
    emit_component_idiomatic(&mut out, &r2, &info, None);
    assert_eq!(out, "Resistor(\n    name=\"R2\",\n)\n\n");
    let text = emit_idiomatic(&demo());
    assert_eq!(
        text,
        "# Auto-generated from KiCad project: demo\n# Mode: idiomatic (uses stdlib generics)\n\n# ```pcb\n# [workspace]\n# pcb-version = \"0.3\"\n# ```\n\nload(\"@stdlib/interfaces.zen\", \"Power\", \"Ground\")\n\nResistor = Module(\"@stdlib/generics/Resistor.zen\")\n\n# Nets\n_3V3 = Power(\"+3V3\")\nGND = Ground(\"GND\")\nSIG = Net(\"SIG\")\n\n# Components\nResistor(\n    name=\"R1\",\n    value=\"4.7kohm\",\n    package=\"0402\",\n    P1=_3V3,\n    P2=GND,\n)\n\n# Unmapped symbol: MCU:Chip\nComponent(\n    name=\"U1\",\n    symbol=Symbol(library=\"MCU\", name=\"Chip\"),\n    footprint=\"Package:QFP\",\n    value=\"STM32\",\n    skip_bom=True,\n)\n\n"
    );
}

#[test]
fn sanitize_keeps_letters_and_digits_of_any_script() {
    assert_eq!(sanitize_name("\u{e9}"), "\u{e9}");
    assert_eq!(sanitize_name("\u{661}a"), "_\u{661}a");
    assert_eq!(sanitize_name("a\u{661}"), "a\u{661}");
    assert_eq!(sanitize_name("a\u{a0}b"), "a_b");
    assert_eq!(sanitize_name("\u{2460}"), "_\u{2460}");
    assert_eq!(sanitize_name("IF\u{e9}"), "IF\u{e9}");
    assert_eq!(sanitize_name("\u{212a}"), "\u{212a}");
}

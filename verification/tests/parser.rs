use pcb_kicad2zen::parser::pairs::insert_pair;
use pcb_kicad2zen::parser::pcb::{
    insert_net, parse_footprint, parse_general, parse_layers, parse_pad, KicadPcb,
};
use pcb_kicad2zen::parser::project::{
    DesignRuleFields, DesignRules, KicadPro, NetClass, NetClassFields,
};
use pcb_kicad2zen::parser::schematic::{
    parse_lib_symbols, parse_pins_from_symbol, parse_schematic_symbol, KicadSchematic,
};
use pcb_kicad2zen::parser::sexpr::{FormatError, Number, Position, Sexpr};
use pcb_kicad2zen::project::{file_kind, FileKind};
use pcb_kicad2zen::{KicadProject, OutputMode};

fn sym(s: &str) -> Sexpr {
    Sexpr::Symbol(s.to_string())
}

fn st(s: &str) -> Sexpr {
    Sexpr::Str(s.to_string())
}

fn num(i: i64) -> Sexpr {
    Sexpr::Int(i)
}

fn dec(x: f64) -> Sexpr {
    Sexpr::Real(x.to_bits())
}

fn list(items: Vec<Sexpr>) -> Sexpr {
    Sexpr::List(items)
}

fn items(node: Sexpr) -> Vec<Sexpr> {
    match node {
        Sexpr::List(v) => v,
        _ => panic!("not a list"),
    }
}

fn number(n: Number) -> f64 {
    match n {
        Number::Int(i) => i as f64,
        Number::Real(bits) => f64::from_bits(bits),
    }
}

fn at(x: Number, y: Number, rotation: Number) -> Position {
    Position { x, y, rotation }
}

fn property(key: &str, value: &str) -> Sexpr {
    list(vec![sym("property"), st(key), st(value), list(vec![sym("at"), num(0), num(0), num(0)])])
}

fn resistor(uuid: &str, reference: &str, dnp: bool, in_bom: bool) -> Sexpr {
    list(vec![
        sym("symbol"),
        list(vec![sym("lib_id"), st("Device:R")]),
        list(vec![sym("at"), dec(95.25), dec(60.5), num(90)]),
        list(vec![sym("unit"), num(1)]),
        list(vec![sym("in_bom"), sym(if in_bom { "yes" } else { "no" })]),
        list(vec![sym("on_board"), sym("yes")]),
        list(vec![sym("dnp"), sym(if dnp { "yes" } else { "no" })]),
        list(vec![sym("uuid"), st(uuid)]),
        property("Reference", reference),
        property("Value", "ERJ-2RKF1003X"),
        property("Footprint", "Resistor_SMD:R_0402_1005Metric"),
        list(vec![sym("pin"), st("1"), list(vec![sym("uuid"), st("p1")])]),
        list(vec![sym("pin"), st("2"), list(vec![sym("uuid"), st("p2")])]),
    ])
}

fn schematic_tree() -> Sexpr {
    list(vec![
        sym("kicad_sch"),
        list(vec![sym("version"), num(20250114)]),
        list(vec![sym("generator"), st("eeschema")]),
        list(vec![sym("uuid"), st("doc-uuid")]),
        list(vec![
            sym("lib_symbols"),
            list(vec![
                sym("symbol"),
                st("Device:R"),
                list(vec![sym("property"), st("Reference"), st("R")]),
                list(vec![
                    sym("symbol"),
                    st("R_1_1"),
                    list(vec![
                        sym("pin"),
                        sym("passive"),
                        sym("line"),
                        list(vec![sym("name"), st("~")]),
                        list(vec![sym("number"), st("1")]),
                    ]),
                    list(vec![
                        sym("pin"),
                        sym("passive"),
                        sym("line"),
                        list(vec![sym("number"), st("2")]),
                        list(vec![sym("name"), st("~")]),
                    ]),
                ]),
            ]),
        ]),
        resistor("u1", "R1", false, true),
        resistor("u2", "R2", true, true),
        resistor("u3", "R3", false, false),
    ])
}

fn pcb_footprint(path: &str, reference: &str, attrs: &[&str]) -> Sexpr {
    let mut attr = vec![sym("attr")];
    for a in attrs {
        attr.push(sym(a));
    }
    list(vec![
        sym("footprint"),
        st("Resistor_SMD:R_0402_1005Metric"),
        list(vec![sym("layer"), st("F.Cu")]),
        list(vec![sym("uuid"), st("fp-uuid")]),
        list(vec![sym("at"), dec(100.0), dec(50.0)]),
        property("Reference", reference),
        property("Value", "ERJ-2RKF1003X"),
        list(vec![sym("path"), st(path)]),
        list(attr),
        list(vec![
            sym("pad"),
            st("1"),
            sym("smd"),
            sym("roundrect"),
            list(vec![sym("at"), dec(-0.51), num(0)]),
            list(vec![sym("net"), num(1), st("VCC")]),
        ]),
        list(vec![
            sym("pad"),
            st("2"),
            sym("smd"),
            sym("roundrect"),
            list(vec![sym("at"), dec(0.51), num(0)]),
            list(vec![sym("net"), num(2), st("GND")]),
        ]),
    ])
}

fn pcb_tree() -> Sexpr {
    list(vec![
        sym("kicad_pcb"),
        list(vec![sym("version"), num(20241229)]),
        list(vec![sym("general"), list(vec![sym("thickness"), dec(1.6)])]),
        list(vec![
            sym("layers"),
            list(vec![num(0), st("F.Cu"), sym("signal")]),
            list(vec![num(2), st("B.Cu"), sym("signal")]),
            list(vec![num(9), st("F.Adhes"), sym("user"), st("F.Adhesive")]),
        ]),
        list(vec![sym("net"), num(0), st("")]),
        list(vec![sym("net"), num(1), st("VCC")]),
        list(vec![sym("net"), num(2), st("GND")]),
        pcb_footprint("/u1", "R1", &["smd"]),
        pcb_footprint("/u2", "R2", &["smd", "dnp"]),
        pcb_footprint("/u3", "R3", &["smd", "exclude_from_bom"]),
    ])
}

#[test]
fn test_parse_schematic() {
    let schematic = KicadSchematic::from_sexpr(&schematic_tree()).unwrap();

    assert_eq!(schematic.version, 20250114);
    assert!(!schematic.uuid.is_empty());

    assert!(schematic.lib_symbols.iter().any(|s| s.name == "Device:R"));

    assert_eq!(schematic.symbols.len(), 3);

    let r1 = schematic.symbols.iter().find(|s| s.reference == "R1").unwrap();
    assert_eq!(r1.lib_id, "Device:R");
    assert_eq!(r1.value, "ERJ-2RKF1003X");
    assert_eq!(r1.footprint, "Resistor_SMD:R_0402_1005Metric");
    assert!(!r1.dnp);
    assert!(!r1.exclude_from_bom);

    let r2 = schematic.symbols.iter().find(|s| s.reference == "R2").unwrap();
    assert!(r2.dnp);

    let r3 = schematic.symbols.iter().find(|s| s.reference == "R3").unwrap();
    assert!(r3.exclude_from_bom);
}

#[test]
fn test_parse_pcb() {
    let pcb = KicadPcb::from_sexpr(&pcb_tree()).unwrap();

    assert_eq!(pcb.version, 20241229);
    assert!((number(pcb.thickness) - 1.6).abs() < 0.01);

    assert!(!pcb.layers.is_empty());
    assert!(pcb.layers.iter().any(|l| l.name == "F.Cu"));

    assert!(!pcb.nets.is_empty());

    assert_eq!(pcb.footprints.len(), 3);

    let r1 = pcb.footprints.iter().find(|f| f.reference == "R1").unwrap();
    assert_eq!(r1.footprint, "Resistor_SMD:R_0402_1005Metric");
    assert!(r1.is_smd());
    assert!(!r1.is_dnp());
    assert!(!r1.is_exclude_from_bom());
    assert_eq!(r1.pads.len(), 2);

    let r2 = pcb.footprints.iter().find(|f| f.reference == "R2").unwrap();
    assert!(r2.is_dnp());

    let r3 = pcb.footprints.iter().find(|f| f.reference == "R3").unwrap();
    assert!(r3.is_exclude_from_bom());

    let r1_pad1 = r1.pads.iter().find(|p| p.number == "1").unwrap();
    assert!(!r1_pad1.net_name.is_empty());
}

#[test]
fn test_parse_project() {
    let none = NetClassFields {
        track_width: None,
        clearance: None,
        via_diameter: None,
        via_drill: None,
        diff_pair_width: None,
        diff_pair_gap: None,
    };
    let pro = KicadPro::from_parts(vec![NetClass::from_fields(Some("Default".to_string()), none)], None);

    assert!(!pro.net_classes.is_empty());

    let default_class = pro.net_classes.iter().find(|c| c.name == "Default").unwrap();
    assert!((number(default_class.track_width) - 0.2).abs() < 0.01);
    assert!((number(default_class.clearance) - 0.2).abs() < 0.01);
    assert!((number(default_class.via_diameter) - 0.6).abs() < 0.01);
    assert!((number(default_class.via_drill) - 0.3).abs() < 0.01);
}

#[test]
fn test_emit_zen() {
    let project = KicadProject {
        name: "kicad-bom".to_string(),
        schematic: Some(KicadSchematic::from_sexpr(&schematic_tree()).unwrap()),
        pcb: Some(KicadPcb::from_sexpr(&pcb_tree()).unwrap()),
        project: None,
    };

    let output = project.to_zen(OutputMode::Idiomatic);

    assert!(output.contains("# Auto-generated from KiCad project"));
    assert!(output.contains("load(\"@stdlib/board_config.zen\", \"Board\")"));
    assert!(output.contains("Resistor = Module(\"@stdlib/generics/Resistor.zen\")"));
    assert!(output.contains("Resistor("));
    assert!(output.contains("name = \"R1\""));
    assert!(output.contains("name = \"R2\""));
    assert!(output.contains("name = \"R3\""));
    assert!(output.contains("package = \"0402\""));
    assert!(output.contains("Board("));
}

#[test]
fn wrong_roots_are_format_errors() {
    assert_eq!(KicadSchematic::from_sexpr(&sym("kicad_sch")).err(), Some(FormatError::RootNotList));
    assert_eq!(KicadSchematic::from_sexpr(&num(3)).err(), Some(FormatError::RootNotList));
    assert_eq!(KicadSchematic::from_sexpr(&list(vec![])).err(), Some(FormatError::RootMismatch));
    assert_eq!(KicadSchematic::from_sexpr(&pcb_tree()).err(), Some(FormatError::RootMismatch));
    assert_eq!(
        KicadSchematic::from_sexpr(&list(vec![st("kicad_sch")])).err(),
        Some(FormatError::RootMismatch)
    );
    assert_eq!(KicadPcb::from_sexpr(&st("kicad_pcb")).err(), Some(FormatError::RootNotList));
    assert_eq!(KicadPcb::from_sexpr(&schematic_tree()).err(), Some(FormatError::RootMismatch));
    assert_eq!(
        KicadPcb::from_sexpr(&list(vec![list(vec![sym("kicad_pcb")])])).err(),
        Some(FormatError::RootMismatch)
    );
}

#[test]
fn bare_roots_give_empty_documents() {
    let schematic = KicadSchematic::from_sexpr(&list(vec![sym("kicad_sch")])).unwrap();
    assert_eq!(schematic.version, 0);
    assert_eq!(schematic.uuid, "");
    assert!(schematic.lib_symbols.is_empty());
    assert!(schematic.symbols.is_empty());
    let pcb = KicadPcb::from_sexpr(&list(vec![sym("kicad_pcb")])).unwrap();
    assert_eq!(pcb.version, 0);
    assert_eq!(pcb.thickness, Number::Int(0));
    assert!(pcb.layers.is_empty());
    assert!(pcb.nets.is_empty());
    assert!(pcb.footprints.is_empty());
}

#[test]
fn placed_symbol_fields() {
    let symbol = parse_schematic_symbol(&items(resistor("u1", "R1", true, false)));
    assert_eq!(symbol.uuid, "u1");
    assert_eq!(symbol.lib_id, "Device:R");
    assert_eq!(symbol.at, at(Number::Real(95.25f64.to_bits()), Number::Real(60.5f64.to_bits()), Number::Int(90)));
    assert_eq!(symbol.reference, "R1");
    assert!(symbol.dnp);
    assert!(symbol.exclude_from_bom);
    assert!(!symbol.exclude_from_board);
    assert_eq!(
        symbol.pins,
        vec![("1".to_string(), "p1".to_string()), ("2".to_string(), "p2".to_string())]
    );
    assert_eq!(
        symbol.properties,
        vec![
            ("Reference".to_string(), "R1".to_string()),
            ("Value".to_string(), "ERJ-2RKF1003X".to_string()),
            ("Footprint".to_string(), "Resistor_SMD:R_0402_1005Metric".to_string()),
        ]
    );
}

#[test]
fn malformed_children_leave_defaults() {
    let symbol = parse_schematic_symbol(&vec![
        sym("symbol"),
        sym("stray"),
        num(7),
        list(vec![]),
        list(vec![st("lib_id"), st("quoted tag does not count")]),
        list(vec![sym("lib_id")]),
        list(vec![sym("uuid"), num(5)]),
        list(vec![sym("at"), st("x"), dec(2.5)]),
        list(vec![sym("dnp")]),
        list(vec![sym("in_bom"), st("no")]),
        list(vec![sym("on_board"), sym("no")]),
        list(vec![sym("property"), sym("Reference"), st("R1")]),
        list(vec![sym("property"), st("Value")]),
        list(vec![sym("property"), st("Other"), sym("word")]),
        list(vec![sym("property"), st("Other"), num(9)]),
        list(vec![sym("pin"), sym("1"), list(vec![sym("uuid"), st("p")])]),
        list(vec![sym("pin"), st("1"), list(vec![sym("id"), st("p")])]),
        list(vec![sym("pin"), st("1"), list(vec![sym("uuid")])]),
        list(vec![sym("pin"), st("1"), st("p")]),
        list(vec![sym("unknown"), st("x")]),
    ]);
    assert_eq!(symbol.lib_id, "");
    assert_eq!(symbol.uuid, "");
    assert_eq!(symbol.at, at(Number::Int(0), Number::Real(2.5f64.to_bits()), Number::Int(0)));
    assert!(!symbol.dnp);
    assert!(!symbol.exclude_from_bom);
    assert!(symbol.exclude_from_board);
    assert_eq!(symbol.reference, "");
    assert_eq!(symbol.value, "");
    assert!(symbol.pins.is_empty());
    assert_eq!(symbol.properties, vec![("Other".to_string(), "".to_string())]);
    let empty = parse_schematic_symbol(&vec![]);
    assert_eq!(empty.lib_id, "");
}

#[test]
fn later_children_win() {
    let symbol = parse_schematic_symbol(&vec![
        sym("symbol"),
        list(vec![sym("lib_id"), st("A:B")]),
        list(vec![sym("lib_id"), sym("C:D")]),
        list(vec![sym("dnp"), sym("yes")]),
        list(vec![sym("dnp"), sym("no")]),
        property("Value", "1k"),
        property("Value", "2k"),
        list(vec![sym("pin"), st("1"), list(vec![sym("uuid"), st("a")])]),
        list(vec![sym("pin"), st("2"), list(vec![sym("uuid"), st("b")])]),
        list(vec![sym("pin"), st("1"), list(vec![sym("uuid"), st("c")])]),
    ]);
    assert_eq!(symbol.lib_id, "C:D");
    assert!(!symbol.dnp);
    assert_eq!(symbol.value, "2k");
    assert_eq!(symbol.properties, vec![("Value".to_string(), "2k".to_string())]);
    assert_eq!(
        symbol.pins,
        vec![("1".to_string(), "c".to_string()), ("2".to_string(), "b".to_string())]
    );
}

#[test]
fn library_symbols_and_pins() {
    let tree = items(schematic_tree());
    let table = parse_lib_symbols(&items(match &tree[4] {
        Sexpr::List(v) => Sexpr::List(v.iter().map(copy).collect()),
        _ => panic!("not a list"),
    }));
    assert_eq!(table.len(), 1);
    assert_eq!(table[0].name, "Device:R");
    assert_eq!(table[0].properties, vec![("Reference".to_string(), "R".to_string())]);
    assert_eq!(table[0].pins.len(), 2);
    assert_eq!(table[0].pins[0].number, "1");
    assert_eq!(table[0].pins[0].name, "~");
    assert_eq!(table[0].pins[0].pin_type, "passive");
    assert_eq!(table[0].pins[1].number, "2");

    let mut pins = Vec::new();
    parse_pins_from_symbol(
        &vec![
            list(vec![sym("pin"), st("quoted"), list(vec![sym("number"), st("7")])]),
            // The second item is the kind, never a field.
            list(vec![sym("pin"), list(vec![sym("number"), st("8")])]),
            list(vec![sym("pin"), sym("input"), sym("line"), list(vec![sym("name"), st("no number")])]),
            list(vec![sym("pin"), sym("output"), sym("line"), list(vec![sym("number"), sym("A1")]), list(vec![sym("number")])]),
            sym("pin"),
        ],
        &mut pins,
    );
    assert_eq!(pins.len(), 2);
    assert_eq!(pins[0].number, "7");
    assert_eq!(pins[0].pin_type, "");
    assert_eq!(pins[1].number, "A1");
    assert_eq!(pins[1].pin_type, "output");

    let replaced = parse_lib_symbols(&vec![
        sym("lib_symbols"),
        list(vec![sym("symbol"), st("A"), list(vec![sym("property"), st("k"), st("1")])]),
        list(vec![sym("symbol"), sym("B")]),
        list(vec![sym("symbol"), st("A"), list(vec![sym("property"), st("k"), st("2")])]),
        list(vec![sym("symbol"), num(3)]),
        list(vec![sym("symbol")]),
        list(vec![sym("other"), st("C")]),
    ]);
    assert_eq!(replaced.len(), 2);
    assert_eq!(replaced[0].name, "A");
    assert_eq!(replaced[0].properties, vec![("k".to_string(), "2".to_string())]);
    assert_eq!(replaced[1].name, "B");
}

fn copy(node: &Sexpr) -> Sexpr {
    match node {
        Sexpr::Symbol(s) => Sexpr::Symbol(s.clone()),
        Sexpr::Str(s) => Sexpr::Str(s.clone()),
        Sexpr::Int(i) => Sexpr::Int(*i),
        Sexpr::Real(b) => Sexpr::Real(*b),
        Sexpr::List(v) => Sexpr::List(v.iter().map(copy).collect()),
    }
}

#[test]
fn pads_and_footprints() {
    assert!(parse_pad(&vec![sym("pad")]).is_none());
    assert!(parse_pad(&vec![]).is_none());
    let pad = parse_pad(&vec![sym("pad"), st("A1")]).unwrap();
    assert_eq!(pad.number, "A1");
    assert_eq!(pad.pad_type, "");
    assert_eq!(pad.shape, "");
    assert_eq!(pad.net_id, 0);
    assert_eq!(pad.net_name, "");
    let pad = parse_pad(&vec![
        sym("pad"),
        num(3),
        sym("thru_hole"),
        st("circle"),
        list(vec![sym("net"), num(5), st("early")]),
        list(vec![sym("at"), dec(1.5), num(2), num(90)]),
        list(vec![sym("net"), num(-1)]),
    ])
    .unwrap();
    assert_eq!(pad.number, "");
    assert_eq!(pad.pad_type, "thru_hole");
    assert_eq!(pad.shape, "");
    assert_eq!(pad.at, at(Number::Real(1.5f64.to_bits()), Number::Int(2), Number::Int(90)));
    assert_eq!(pad.net_id, u32::MAX);
    assert_eq!(pad.net_name, "");

    assert!(parse_footprint(&vec![sym("footprint")]).is_none());
    let fp = parse_footprint(&items(pcb_footprint("/u1", "R1", &["smd", "dnp"]))).unwrap();
    assert_eq!(fp.footprint, "Resistor_SMD:R_0402_1005Metric");
    assert_eq!(fp.layer, "F.Cu");
    assert_eq!(fp.uuid, "fp-uuid");
    assert_eq!(fp.path, "/u1");
    assert_eq!(fp.reference, "R1");
    assert_eq!(fp.value, "ERJ-2RKF1003X");
    assert_eq!(fp.attrs, vec!["smd", "dnp"]);
    assert_eq!(fp.at, at(Number::Real(100f64.to_bits()), Number::Real(50f64.to_bits()), Number::Int(0)));
    assert_eq!(fp.pads.len(), 2);
    assert_eq!(fp.pads[1].net_id, 2);
    assert_eq!(fp.pads[1].net_name, "GND");
    assert_eq!(fp.pads[1].shape, "roundrect");
    let fp = parse_footprint(&vec![
        sym("footprint"),
        sym("Bare"),
        list(vec![sym("uuid"), st("a")]),
        list(vec![sym("uuid")]),
        list(vec![sym("attr"), st("quoted"), sym("smd"), num(1), sym("smd")]),
        list(vec![sym("attr"), sym("dnp")]),
        list(vec![sym("pad")]),
    ])
    .unwrap();
    assert_eq!(fp.footprint, "Bare");
    assert_eq!(fp.uuid, "");
    assert_eq!(fp.attrs, vec!["smd", "smd", "dnp"]);
    assert!(fp.pads.is_empty());
    assert!(fp.is_smd() && fp.is_dnp() && !fp.is_exclude_from_bom());
}

#[test]
fn thickness_layers_and_nets() {
    assert_eq!(parse_general(&vec![sym("general")]), Number::Int(0));
    assert_eq!(number(parse_general(&vec![sym("general")])), 0.0);
    assert_eq!(
        parse_general(&vec![sym("general"), list(vec![sym("thickness"), dec(0.8)]), list(vec![sym("thickness"), dec(2.0)])]),
        Number::Real(0.8f64.to_bits())
    );
    assert_eq!(
        parse_general(&vec![sym("general"), list(vec![sym("thickness"), st("thin")]), list(vec![sym("thickness"), dec(2.0)])]),
        Number::Int(0)
    );
    assert_eq!(
        parse_general(&vec![sym("general"), list(vec![sym("other"), num(1)]), list(vec![sym("thickness"), num(2)])]),
        Number::Int(2)
    );
    // The first item of the list is its word, never a setting.
    assert_eq!(
        parse_general(&vec![list(vec![sym("thickness"), num(2)])]),
        Number::Int(0)
    );

    let layers = parse_layers(&vec![
        sym("layers"),
        list(vec![num(0), st("F.Cu"), sym("signal")]),
        list(vec![num(31)]),
        list(vec![st("x"), st("y")]),
        list(vec![num(-1), sym("Edge"), st("quoted")]),
        num(5),
    ]);
    assert_eq!(layers.len(), 3);
    assert_eq!((layers[0].number, layers[0].name.as_str(), layers[0].layer_type.as_str()), (0, "F.Cu", "signal"));
    assert_eq!((layers[1].number, layers[1].name.as_str(), layers[1].layer_type.as_str()), (31, "", ""));
    assert_eq!((layers[2].number, layers[2].name.as_str(), layers[2].layer_type.as_str()), (u32::MAX, "Edge", ""));

    let pcb = KicadPcb::from_sexpr(&list(vec![
        sym("kicad_pcb"),
        list(vec![sym("net"), num(1), st("A")]),
        list(vec![sym("net"), num(2), sym("B")]),
        list(vec![sym("net"), num(1), st("C")]),
        list(vec![sym("net"), st("3"), st("D")]),
        list(vec![sym("net"), num(4)]),
        list(vec![sym("general")]),
        list(vec![sym("version"), st("new")]),
    ]))
    .unwrap();
    assert_eq!(pcb.nets, vec![(1, "C".to_string()), (2, "B".to_string())]);
    assert_eq!(pcb.thickness, Number::Int(0));
    assert_eq!(pcb.version, 0);

    let mut nets = vec![(7, "x".to_string())];
    insert_net(&mut nets, 8, "y".to_string());
    insert_net(&mut nets, 7, "z".to_string());
    assert_eq!(nets, vec![(7, "z".to_string()), (8, "y".to_string())]);
}

#[test]
fn keyed_lists_replace_in_place() {
    let mut list: Vec<(String, String)> = Vec::new();
    insert_pair(&mut list, "a".to_string(), "1".to_string());
    insert_pair(&mut list, "b".to_string(), "2".to_string());
    insert_pair(&mut list, "a".to_string(), "3".to_string());
    assert_eq!(
        list,
        vec![("a".to_string(), "3".to_string()), ("b".to_string(), "2".to_string())]
    );
}

#[test]
fn version_keeps_the_low_32_bits() {
    let schematic = KicadSchematic::from_sexpr(&list(vec![
        sym("kicad_sch"),
        list(vec![sym("version"), num((1i64 << 32) + 5)]),
    ]))
    .unwrap();
    assert_eq!(schematic.version, 5);
    let schematic = KicadSchematic::from_sexpr(&list(vec![
        sym("kicad_sch"),
        list(vec![sym("version"), num(7)]),
        list(vec![sym("version"), dec(3.0)]),
    ]))
    .unwrap();
    assert_eq!(schematic.version, 0);
}

#[test]
fn settings_defaults() {
    let class = NetClass::default();
    assert_eq!(class.name, "Default");
    assert_eq!(number(class.track_width), 0.2);
    assert_eq!(number(class.clearance), 0.2);
    assert_eq!(number(class.via_diameter), 0.6);
    assert_eq!(number(class.via_drill), 0.3);
    assert_eq!(number(class.diff_pair_width), 0.2);
    assert_eq!(number(class.diff_pair_gap), 0.25);
    let class = NetClass::from_fields(
        Some("Power".to_string()),
        NetClassFields {
            track_width: Some(Number::Real(0.5f64.to_bits())),
            clearance: None,
            via_diameter: Some(Number::Int(1)),
            via_drill: None,
            diff_pair_width: None,
            diff_pair_gap: None,
        },
    );
    assert_eq!(class.name, "Power");
    assert_eq!(number(class.track_width), 0.5);
    assert_eq!(number(class.clearance), 0.2);
    assert_eq!(number(class.via_diameter), 1.0);
    assert_eq!(number(class.diff_pair_gap), 0.25);
    let rules = DesignRules::from_fields(DesignRuleFields {
        min_clearance: None,
        min_track_width: Some(Number::Real(0.15f64.to_bits())),
        min_via_diameter: None,
        min_via_drill: None,
        min_hole_clearance: None,
        min_copper_edge_clearance: None,
    });
    assert_eq!(number(rules.min_clearance), 0.0);
    assert_eq!(number(rules.min_track_width), 0.15);
    assert_eq!(number(rules.min_via_diameter), 0.5);
    assert_eq!(number(rules.min_via_drill), 0.0);
    assert_eq!(number(rules.min_hole_clearance), 0.25);
    assert_eq!(number(rules.min_copper_edge_clearance), 0.5);
    let pro = KicadPro::from_parts(Vec::new(), None);
    assert!(pro.net_classes.is_empty());
    assert_eq!(number(pro.design_rules.min_via_diameter), 0.0);
    assert_eq!(number(pro.design_rules.min_copper_edge_clearance), 0.0);
}

#[test]
fn file_kinds() {
    assert_eq!(file_kind("kicad_sch"), Some(FileKind::Schematic));
    assert_eq!(file_kind("kicad_pcb"), Some(FileKind::Pcb));
    assert_eq!(file_kind("kicad_pro"), Some(FileKind::Settings));
    assert_eq!(file_kind("kicad_prl"), None);
    assert_eq!(file_kind("KICAD_SCH"), None);
    assert_eq!(file_kind(""), None);
}

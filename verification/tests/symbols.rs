use pcb_kicad2zen::mapping::symbols::{get_pin_map, map_symbol, rule, SymbolPattern, RULE_COUNT};

#[test]
fn test_map_resistor() {
    let info = map_symbol("Device:R").unwrap();
    assert_eq!(info.module_name, "Resistor");
    assert_eq!(info.module_file, "@stdlib/generics/Resistor.zen");
    assert!(info.flags.is_empty());
}

#[test]
fn test_map_capacitor_polarized() {
    let info = map_symbol("Device:C_Polarized").unwrap();
    assert_eq!(info.module_name, "Capacitor");
    assert_eq!(info.flags, vec![("polarized", "true")]);
}

#[test]
fn test_map_bjt_npn() {
    let info = map_symbol("Device:Q_NPN_BCE").unwrap();
    assert_eq!(info.module_name, "Bjt");
    assert_eq!(info.flags, vec![("polarity", "\"NPN\"")]);
}

#[test]
fn test_map_mosfet_nmos() {
    let info = map_symbol("Device:Q_NMOS_GDS").unwrap();
    assert_eq!(info.module_name, "Mosfet");
    assert_eq!(info.flags, vec![("channel", "\"N\"")]);
}

#[test]
fn test_map_unknown() {
    assert!(map_symbol("SomeManufacturer:CustomPart").is_none());
}

#[test]
fn test_get_pin_map() {
    let pin_map = get_pin_map("Device:R");
    let get = |key: &str| pin_map.iter().find(|(k, _)| *k == key).map(|(_, v)| *v);
    assert_eq!(get("1"), Some("P1"));
    assert_eq!(get("2"), Some("P2"));
}

#[test]
fn resistor_template_pins_and_flags() {
    let info = map_symbol("Device:R").unwrap();
    assert_eq!(info.pin_map, vec![("1", "P1"), ("2", "P2")]);
    assert!(info.flags.is_empty());
    let info = map_symbol("Device:C_Polarized").unwrap();
    assert_eq!(info.module_file, "@stdlib/generics/Capacitor.zen");
    assert_eq!(info.pin_map, vec![("1", "P1"), ("2", "P2")]);
}

#[test]
fn exact_rules_need_the_whole_id() {
    assert!(map_symbol("Device:R_US").is_none());
    assert!(map_symbol("Device:Rx").is_none());
    assert!(map_symbol("device:r").is_none());
    assert!(map_symbol("").is_none());
    assert_eq!(map_symbol("Device:R_Small").unwrap().module_name, "Resistor");
    assert_eq!(map_symbol("Device:LED").unwrap().module_name, "Led");
    assert_eq!(map_symbol("Device:D").unwrap().module_name, "Diode");
}

#[test]
fn prefix_rules_take_what_follows() {
    assert_eq!(map_symbol("Device:Thermistor_NTC").unwrap().module_name, "Thermistor");
    assert_eq!(map_symbol("Device:Thermistor").unwrap().module_name, "Thermistor");
    assert_eq!(
        map_symbol("Device:Q_PNP_BCE").unwrap().flags,
        vec![("polarity", "\"PNP\"")]
    );
    assert_eq!(
        map_symbol("Device:Q_PMOS_GSD").unwrap().flags,
        vec![("channel", "\"P\"")]
    );
    assert_eq!(
        map_symbol("Connector:TestPoint_Probe").unwrap().pin_map,
        vec![("1", "P1")]
    );
    assert!(map_symbol("Device:Q_NJFET").is_none());
}

#[test]
fn templates_with_flags_and_special_pins() {
    assert_eq!(
        map_symbol("Device:D_Zener").unwrap().flags,
        vec![("diode_type", "\"zener\"")]
    );
    assert_eq!(
        map_symbol("Device:D_Schottky").unwrap().flags,
        vec![("diode_type", "\"schottky\"")]
    );
    assert_eq!(
        map_symbol("Device:Crystal_GND24").unwrap().pin_map,
        vec![("1", "P1"), ("3", "P2"), ("2", "GND"), ("4", "GND")]
    );
    assert_eq!(
        map_symbol("Device:Ferrite_Bead").unwrap().module_file,
        "@stdlib/generics/FerriteBead.zen"
    );
    assert_eq!(
        map_symbol("Device:Q_NPN_BCE").unwrap().pin_map,
        vec![("1", "B"), ("2", "C"), ("3", "E")]
    );
    assert_eq!(
        map_symbol("Device:Q_NMOS_GDS").unwrap().pin_map,
        vec![("1", "G"), ("2", "D"), ("3", "S")]
    );
}

#[test]
fn every_rule_maps_its_own_pattern() {
    assert_eq!(RULE_COUNT, 25);
    for rank in 0..RULE_COUNT {
        let (pattern, info) = rule(rank);
        let text = match &pattern {
            SymbolPattern::Exact(s) => *s,
            SymbolPattern::Prefix(s) => *s,
        };
        assert!(pattern.matches(text));
        let found = map_symbol(text).unwrap();
        assert_eq!(found.module_name, info.module_name);
        assert_eq!(found.module_file, format!("@stdlib/generics/{}.zen", info.module_name));
    }
}

#[test]
fn unmapped_symbol_has_no_pins() {
    assert!(get_pin_map("SomeManufacturer:CustomPart").is_empty());
}

use pcb_kicad2zen::mapping::values::{
    capacitor_from_matches, inductor_from_matches, looks_like_mpn, normalize_capacitor_value,
    normalize_inductor_value, normalize_resistor_value, normalize_value, resistor_from_matches,
    ComponentType,
};

#[test]
fn test_resistor_shorthand() {
    assert_eq!(normalize_value("10k", ComponentType::Resistor), "10kohm");
    assert_eq!(normalize_value("4k7", ComponentType::Resistor), "4.7kohm");
    assert_eq!(normalize_value("1M", ComponentType::Resistor), "1Mohm");
    assert_eq!(normalize_value("2M2", ComponentType::Resistor), "2.2Mohm");
    assert_eq!(normalize_value("100", ComponentType::Resistor), "100ohm");
}

#[test]
fn test_resistor_explicit() {
    assert_eq!(normalize_value("10kohm", ComponentType::Resistor), "10kohm");
    assert_eq!(normalize_value("4.7kOhm", ComponentType::Resistor), "4.7kohm");
    assert_eq!(normalize_value("1 Mohm", ComponentType::Resistor), "1Mohm");
}

#[test]
fn test_capacitor_shorthand() {
    assert_eq!(normalize_value("100n", ComponentType::Capacitor), "100nF");
    assert_eq!(normalize_value("10u", ComponentType::Capacitor), "10uF");
    assert_eq!(normalize_value("1p", ComponentType::Capacitor), "1pF");
    assert_eq!(normalize_value("4.7u", ComponentType::Capacitor), "4.7uF");
}

#[test]
fn test_capacitor_explicit() {
    assert_eq!(normalize_value("100nF", ComponentType::Capacitor), "100nF");
    assert_eq!(normalize_value("10uF", ComponentType::Capacitor), "10uF");
}

#[test]
fn test_inductor_shorthand() {
    assert_eq!(normalize_value("10u", ComponentType::Inductor), "10uH");
    assert_eq!(normalize_value("100n", ComponentType::Inductor), "100nH");
}

#[test]
fn test_mpn_passthrough() {
    assert_eq!(
        normalize_value("ERJ-2RKF1003X", ComponentType::Resistor),
        "ERJ-2RKF1003X"
    );
    assert_eq!(
        normalize_value("GRM155R71C104KA88D", ComponentType::Capacitor),
        "GRM155R71C104KA88D"
    );
}

#[test]
fn test_component_type_inference() {
    assert_eq!(ComponentType::from_lib_id("Device:R"), ComponentType::Resistor);
    assert_eq!(ComponentType::from_lib_id("Device:C"), ComponentType::Capacitor);
    assert_eq!(ComponentType::from_lib_id("Device:L"), ComponentType::Inductor);
    assert_eq!(ComponentType::from_lib_id("Device:LED"), ComponentType::Other);
}

#[test]
fn component_type_by_word_and_by_letter() {
    assert_eq!(ComponentType::from_lib_id("Device:R_Small"), ComponentType::Resistor);
    assert_eq!(ComponentType::from_lib_id("Lib:r x"), ComponentType::Resistor);
    assert_eq!(ComponentType::from_lib_id("My_Resistor_Lib:X"), ComponentType::Resistor);
    assert_eq!(ComponentType::from_lib_id("Device:C_Polarized"), ComponentType::Capacitor);
    assert_eq!(ComponentType::from_lib_id("X:CAPACITOR"), ComponentType::Capacitor);
    assert_eq!(ComponentType::from_lib_id("Device:L_Small"), ComponentType::Inductor);
    assert_eq!(ComponentType::from_lib_id("big inductor"), ComponentType::Inductor);
    assert_eq!(ComponentType::from_lib_id("Device:Crystal"), ComponentType::Other);
    assert_eq!(ComponentType::from_lib_id(""), ComponentType::Other);
}

#[test]
fn normalize_is_idempotent_on_examples() {
    let kinds = [
        ComponentType::Resistor,
        ComponentType::Capacitor,
        ComponentType::Inductor,
        ComponentType::Other,
    ];
    let values = [
        "4k7", "10k", "1M", "2M2", "100", "4.7", "10kOhm", "1 Mohm", "10 ohms", "100n", "10u",
        "1p", "4.7u", "100nF", "10uF", "1mH", "10uH", "ERJ-2RKF1003X", "GRM155R71C104KA88D",
        "  4k7  ", "", "abc", "10gohm", "123456k789", "10\u{3bc}F", "1k5ohm", "n/a",
    ];
    for kind in kinds {
        for value in values {
            let once = normalize_value(value, kind);
            let twice = normalize_value(&once, kind);
            assert_eq!(twice, once);
        }
    }
}

#[test]
fn other_kind_and_part_numbers_come_back_unchanged() {
    assert_eq!(normalize_value("  STM32F4  ", ComponentType::Other), "  STM32F4  ");
    assert_eq!(normalize_value(" 10k ", ComponentType::Other), " 10k ");
    assert_eq!(normalize_value("4k7", ComponentType::Other), "4k7");
    assert_eq!(normalize_value("", ComponentType::Other), "");
    assert_eq!(
        normalize_value(" ERJ-2RKF1003X ", ComponentType::Resistor),
        " ERJ-2RKF1003X "
    );
    assert_eq!(
        normalize_value("GRM155R71C104KA88D\n", ComponentType::Capacitor),
        "GRM155R71C104KA88D\n"
    );
    // White space goes before the rules of a kind are applied.
    assert_eq!(normalize_value(" 4k7 ", ComponentType::Resistor), "4.7kohm");
    assert_eq!(normalize_value("\t100n", ComponentType::Capacitor), "100nF");
    assert_eq!(normalize_value(" abc ", ComponentType::Inductor), "abc");
    assert_eq!(normalize_value(" \t\n", ComponentType::Resistor), "");
}

#[test]
fn unrecognised_values_stay() {
    assert_eq!(normalize_value("n/a", ComponentType::Resistor), "n/a");
    assert_eq!(normalize_value("big", ComponentType::Capacitor), "big");
    assert_eq!(normalize_value("10k", ComponentType::Inductor), "10k");
    assert_eq!(normalize_value("4.7", ComponentType::Resistor), "4.7ohm");
    assert_eq!(normalize_value("10gohm", ComponentType::Resistor), "10Gohm");
    assert_eq!(normalize_value("10uohm", ComponentType::Resistor), "10uohm");
    assert_eq!(normalize_value("10\u{3bc}F", ComponentType::Capacitor), "10uF");
    assert_eq!(normalize_value("1mH", ComponentType::Inductor), "1mH");
    assert_eq!(normalize_value("1 m", ComponentType::Resistor), "1 m");
    assert_eq!(normalize_value("1m", ComponentType::Resistor), "1Mohm");
}

#[test]
fn kind_functions_match_the_dispatch() {
    assert_eq!(normalize_resistor_value("4k7"), "4.7kohm");
    assert_eq!(normalize_capacitor_value("100n"), "100nF");
    assert_eq!(normalize_inductor_value("100n"), "100nH");
}

#[test]
fn part_number_heuristic() {
    // A hyphen and more than 4 characters.
    assert!(looks_like_mpn("AB-12"));
    assert!(!looks_like_mpn("A-12"));
    assert!(!looks_like_mpn("-"));
    // More than 8 characters and more than 3 letters.
    assert!(looks_like_mpn("ABCD12345"));
    assert!(!looks_like_mpn("ABC123456"));
    assert!(!looks_like_mpn("ABCD1234"));
    assert!(!looks_like_mpn(""));
    assert!(!looks_like_mpn("123456789"));
}

fn groups(items: &[Option<&str>]) -> Option<Vec<Option<String>>> {
    Some(items.iter().map(|g| g.map(|s| s.to_string())).collect())
}

#[test]
fn resistor_text_from_given_matches() {
    // Shorthand comes first, whatever the other two found.
    assert_eq!(
        resistor_from_matches(
            "x",
            groups(&[Some("4k7"), Some("4"), Some("k"), Some("7")]),
            groups(&[Some("9ohm"), Some("9"), Some("")]),
            Some(true)
        ),
        "4.7kohm"
    );
    assert_eq!(
        resistor_from_matches("x", groups(&[Some("1M"), Some("1"), Some("M"), Some("")]), None, None),
        "1Mohm"
    );
    // Groups that took no part fall back: whole part "0", no multiplier.
    assert_eq!(resistor_from_matches("x", groups(&[Some("?")]), None, None), "0ohm");
    assert_eq!(
        resistor_from_matches("x", groups(&[None, None, Some("q"), Some("5")]), None, None),
        "0.5ohm"
    );
    // Then the form with a unit.
    assert_eq!(
        resistor_from_matches("x", None, groups(&[Some("4.7Gohm"), Some("4.7"), Some("G")]), Some(true)),
        "4.7Gohm"
    );
    assert_eq!(
        resistor_from_matches("x", None, groups(&[Some("1uohm"), Some("1"), Some("\u{3bc}")]), None),
        "1uohm"
    );
    assert_eq!(
        resistor_from_matches("x", None, groups(&[Some("1zohm"), Some("1"), Some("z")]), None),
        "1ohm"
    );
    // Then the bare number.
    assert_eq!(resistor_from_matches("47", None, None, Some(true)), "47ohm");
    assert_eq!(resistor_from_matches("47", None, None, Some(false)), "47");
    assert_eq!(resistor_from_matches("47", None, None, None), "47");
}

#[test]
fn capacitor_and_inductor_text_from_given_matches() {
    assert_eq!(
        capacitor_from_matches("x", groups(&[Some("1n"), Some("1"), Some("N")]), None),
        "1nF"
    );
    assert_eq!(
        capacitor_from_matches("x", None, groups(&[Some("2uF"), Some("2"), Some("U")])),
        "2uF"
    );
    assert_eq!(
        capacitor_from_matches("x", groups(&[Some("3p"), Some("3"), Some("p")]),
            groups(&[Some("9mF"), Some("9"), Some("m")])),
        "3pF"
    );
    assert_eq!(capacitor_from_matches("x", groups(&[Some("?"), None, Some("?")]), None), "0F");
    assert_eq!(capacitor_from_matches("keep", None, None), "keep");
    assert_eq!(
        inductor_from_matches("x", groups(&[Some("4m"), Some("4"), Some("M")])),
        "4mH"
    );
    assert_eq!(inductor_from_matches("keep", None), "keep");
}

#[test]
fn characters_beyond_ascii() {
    // White space of any script is trimmed.
    assert_eq!(normalize_value("\u{a0}4k7\u{2003}", ComponentType::Resistor), "4.7kohm");
    assert_eq!(normalize_value("\u{3000}abc\t", ComponentType::Capacitor), "abc");
    // Letters of any script count as alphabetic.
    assert!(looks_like_mpn("\u{c4}\u{d6}\u{dc}\u{df}12345"));
    assert!(!looks_like_mpn("\u{c4}\u{d6}\u{dc}123456"));
    assert!(!looks_like_mpn("\u{2460}\u{2461}\u{2462}\u{2463}12345"));
    // Lowercasing follows Unicode.
    assert_eq!(ComponentType::from_lib_id("\u{dc}:RESISTOR"), ComponentType::Resistor);
    assert_eq!(ComponentType::from_lib_id("\u{dc}:C"), ComponentType::Capacitor);
    assert_eq!(ComponentType::from_lib_id("DEVICE:L_\u{dc}"), ComponentType::Inductor);
    // The Kelvin sign lowers to "k", the capital mu to the small one.
    assert_eq!(
        resistor_from_matches("x", groups(&[Some("1\u{212a}"), Some("1"), Some("\u{212a}"), Some("")]), None, None),
        "1kohm"
    );
    assert_eq!(
        capacitor_from_matches("x", groups(&[Some("1\u{39c}"), Some("1"), Some("\u{39c}")]), None),
        "1uF"
    );
}

fn small_values() -> Vec<String> {
    let alphabet = ['1', '7', '.', 'k', 'M', 'u', 'n', 'o', 'h', 'm', 'F', 'H', ' '];
    let mut values = vec![String::new()];
    let mut last = vec![String::new()];
    for _ in 0..2 {
        let mut next = Vec::new();
        for v in &last {
            for c in alphabet {
                let mut w = v.clone();
                w.push(c);
                next.push(w);
            }
        }
        values.extend(next.iter().cloned());
        last = next;
    }
    for tail in ["ohm", "Ohm", "ohms", " ohm", "kohm", "Mohm", "uF", "nF", "uH", "mH"] {
        for head in ["1", "47", "4.7", "4k7", "1 ", "0.1", "10k", "2M2", "1u", "1 n", "k", ""] {
            values.push(format!("{}{}", head, tail));
        }
    }
    values
}

#[test]
fn resistor_rules_give_canonical_text() {
    for v in small_values() {
        if looks_like_mpn(&v) {
            continue;
        }
        let once = normalize_resistor_value(v.trim());
        assert_eq!(normalize_value(&v, ComponentType::Resistor), once, "{:?}", v);
    }
}

#[test]
fn capacitor_rules_give_canonical_text() {
    for v in small_values() {
        if looks_like_mpn(&v) {
            continue;
        }
        let once = normalize_capacitor_value(v.trim());
        assert_eq!(normalize_value(&v, ComponentType::Capacitor), once, "{:?}", v);
    }
}

#[test]
fn inductor_rules_give_canonical_text() {
    for v in small_values() {
        if looks_like_mpn(&v) {
            continue;
        }
        let once = normalize_inductor_value(v.trim());
        assert_eq!(normalize_value(&v, ComponentType::Inductor), once, "{:?}", v);
    }
}

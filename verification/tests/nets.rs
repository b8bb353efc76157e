use pcb_kicad2zen::mapping::nets::{
    classify_net, infer_net_type, is_unconnected_name, net_type_constructor, NetType,
};

#[test]
fn test_power_nets() {
    assert_eq!(infer_net_type("VCC"), NetType::Power);
    assert_eq!(infer_net_type("VDD"), NetType::Power);
    assert_eq!(infer_net_type("VBAT"), NetType::Power);
    assert_eq!(infer_net_type("+3V3"), NetType::Power);
    assert_eq!(infer_net_type("+5V"), NetType::Power);
    assert_eq!(infer_net_type("+12V"), NetType::Power);
    assert_eq!(infer_net_type("3V3"), NetType::Power);
    assert_eq!(infer_net_type("5V"), NetType::Power);
    assert_eq!(infer_net_type("AVDD"), NetType::Power);
    assert_eq!(infer_net_type("DVDD"), NetType::Power);
    assert_eq!(infer_net_type("SENSOR_PWR"), NetType::Power);
}

#[test]
fn test_ground_nets() {
    assert_eq!(infer_net_type("GND"), NetType::Ground);
    assert_eq!(infer_net_type("VSS"), NetType::Ground);
    assert_eq!(infer_net_type("VEE"), NetType::Ground);
    assert_eq!(infer_net_type("DGND"), NetType::Ground);
    assert_eq!(infer_net_type("AGND"), NetType::Ground);
    assert_eq!(infer_net_type("PGND"), NetType::Ground);
    assert_eq!(infer_net_type("SENSOR_GND"), NetType::Ground);
    assert_eq!(infer_net_type("0V"), NetType::Ground);
}

#[test]
fn test_diffpair_nets() {
    assert_eq!(infer_net_type("USB_D_P"), NetType::DiffPairP);
    assert_eq!(infer_net_type("USB_D_N"), NetType::DiffPairN);
    assert_eq!(infer_net_type("ETH_TX_P"), NetType::DiffPairP);
    assert_eq!(infer_net_type("ETH_TX_N"), NetType::DiffPairN);
    assert_eq!(infer_net_type("USB_DP"), NetType::DiffPairP);
    assert_eq!(infer_net_type("USB_DN"), NetType::DiffPairN);
}

#[test]
fn test_signal_nets() {
    assert_eq!(infer_net_type("SPI_CLK"), NetType::Signal);
    assert_eq!(infer_net_type("I2C_SDA"), NetType::Signal);
    assert_eq!(infer_net_type("RESET"), NetType::Signal);
    assert_eq!(infer_net_type("LED_OUT"), NetType::Signal);
}

#[test]
fn test_unconnected_nets() {
    assert_eq!(infer_net_type("unconnected-(R1-Pad1)"), NetType::Signal);
    assert_eq!(infer_net_type(""), NetType::Signal);
}

#[test]
fn ground_rules_come_before_power_rules() {
    // Both rule sets match this name: it starts like a supply and ends
    // like a ground.
    assert_eq!(infer_net_type("VCC_GND"), NetType::Ground);
    assert_eq!(infer_net_type("PWR_GND"), NetType::Ground);
    assert_eq!(classify_net("X", true, true, true, true), NetType::Ground);
    assert_eq!(classify_net("X", false, true, true, true), NetType::Power);
    assert_eq!(classify_net("X", false, false, true, true), NetType::DiffPairP);
    assert_eq!(classify_net("X", false, false, false, true), NetType::DiffPairN);
    assert_eq!(classify_net("X", false, false, false, false), NetType::Signal);
}

#[test]
fn unconnected_names_are_signals_whatever_matches() {
    assert_eq!(classify_net("", true, true, true, true), NetType::Signal);
    assert_eq!(classify_net("unconnected-GND", true, false, false, false), NetType::Signal);
    assert_eq!(infer_net_type("unconnected-VCC"), NetType::Signal);
    assert!(is_unconnected_name(""));
    assert!(is_unconnected_name("unconnected-"));
    assert!(!is_unconnected_name("unconnected"));
    assert!(!is_unconnected_name("GND"));
}

#[test]
fn patterns_ignore_case() {
    assert_eq!(infer_net_type("gnd"), NetType::Ground);
    assert_eq!(infer_net_type("vcc_core"), NetType::Power);
    assert_eq!(infer_net_type("clk_pos"), NetType::DiffPairP);
    assert_eq!(infer_net_type("clk_neg"), NetType::DiffPairN);
    // A name that ends in a sign is half of a differential pair.
    assert_eq!(infer_net_type("USB_D+"), NetType::DiffPairP);
    assert_eq!(infer_net_type("USB_D-"), NetType::DiffPairN);
    assert_eq!(infer_net_type("CLK_+"), NetType::DiffPairP);
    assert_eq!(infer_net_type("CLK--"), NetType::DiffPairN);
    assert_eq!(infer_net_type("+"), NetType::DiffPairP);
    assert_eq!(infer_net_type("-"), NetType::DiffPairN);
    // Ground and power still come first.
    assert_eq!(infer_net_type("GND+"), NetType::Ground);
    assert_eq!(infer_net_type("VCC-"), NetType::Power);
    assert_eq!(infer_net_type("+5V"), NetType::Power);
    assert_eq!(infer_net_type("D+X"), NetType::Signal);
}

#[test]
fn constructors_by_role() {
    assert_eq!(net_type_constructor(&NetType::Power), "Power");
    assert_eq!(net_type_constructor(&NetType::Ground), "Ground");
    assert_eq!(net_type_constructor(&NetType::DiffPairP), "Net");
    assert_eq!(net_type_constructor(&NetType::DiffPairN), "Net");
    assert_eq!(net_type_constructor(&NetType::Signal), "Net");
}

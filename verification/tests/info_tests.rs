use pop_support::support_info::{
    compose_model_and_version, dmi_identity_paths, parse_pretty_name, SupportInfo,
};
use pop_support::vendor::Vendor;

#[test]
fn vendor_recognizes_system76() {
    let v = Vendor::guess_from(Some("System76\n"), None);
    assert_eq!(v, Some(Vendor::System76));
}

#[test]
fn vendor_recognizes_hp_with_known_board() {
    let v = Vendor::guess_from(Some(" HP \n"), Some("8A78\n"));
    assert_eq!(v, Some(Vendor::Hp));
}

#[test]
fn vendor_rejects_hp_with_other_board() {
    assert_eq!(Vendor::guess_from(Some("HP"), Some("1234")), None);
    assert_eq!(Vendor::guess_from(Some("HP"), None), None);
}

#[test]
fn vendor_rejects_unknown_strings() {
    assert_eq!(Vendor::guess_from(Some("Dell Inc."), Some("8A78")), None);
    assert_eq!(Vendor::guess_from(None, Some("8A78")), None);
}

#[test]
fn pretty_name_is_parsed_from_os_release() {
    let os_release = "NAME=\"Pop!_OS\"\nPRETTY_NAME=\"Pop!_OS 22.04 LTS\"\nVERSION_ID=\"22.04\"\n";
    assert_eq!(parse_pretty_name(os_release), "Pop!_OS 22.04 LTS");
}

#[test]
fn pretty_name_uses_first_match_only() {
    let os_release = "PRETTY_NAME=first\nPRETTY_NAME=second\n";
    assert_eq!(parse_pretty_name(os_release), "first");
}

#[test]
fn pretty_name_strips_one_quote_layer_and_trims() {
    assert_eq!(parse_pretty_name("PRETTY_NAME= \"Ubuntu\" \n"), "\"Ubuntu\"");
    assert_eq!(parse_pretty_name("PRETTY_NAME=\" spaced \"\n"), "spaced");
    assert_eq!(parse_pretty_name("PRETTY_NAME=\"half\n"), "half");
}

#[test]
fn pretty_name_missing_yields_empty() {
    assert_eq!(parse_pretty_name("NAME=x\nVERSION=y\n"), "");
    assert_eq!(parse_pretty_name(""), "");
}

#[test]
fn model_line_composes_vendor_product_and_version() {
    let line = compose_model_and_version(
        Some("System76\n"),
        Some("Oryx Pro\n"),
        Some("oryp10\n"),
    );
    assert_eq!(line, "System76 Oryx Pro (oryp10)");
}

#[test]
fn model_line_skips_product_equal_to_vendor() {
    let line = compose_model_and_version(Some("HP"), Some("HP\n"), Some("1.0"));
    assert_eq!(line, "HP (1.0)");
}

#[test]
fn model_line_skips_empty_parts() {
    assert_eq!(compose_model_and_version(Some("HP"), Some("  "), Some("")), "HP");
    assert_eq!(compose_model_and_version(None, Some("X"), Some("Y")), "");
}

#[test]
fn fetch_with_empty_environment_yields_empty_record() {
    let info = SupportInfo::from_sources(None, None, None, None, None, None, None);
    assert_eq!(info.vendor, None);
    assert_eq!(info.model_and_version, "");
    assert_eq!(info.serial_number, "");
    assert_eq!(info.operating_system, "");
    assert_eq!(info.kernel_version, "");
    assert_eq!(info.kernel_revision, "");
}

#[test]
fn fetch_fills_fields_from_sources() {
    let info = SupportInfo::from_sources(
        Some(Vendor::System76),
        Some("System76\n"),
        Some("Thelio\n"),
        Some("thelio-r2\n"),
        Some("PRETTY_NAME=\"Pop!_OS 22.04 LTS\"\n"),
        Some("6.5.4-76060504-generic\n"),
        Some("#202309191142 SMP PREEMPT_DYNAMIC\n"),
    );
    assert_eq!(info.vendor, Some(Vendor::System76));
    assert_eq!(info.model_and_version, "System76 Thelio (thelio-r2)");
    assert_eq!(info.operating_system, "Pop!_OS 22.04 LTS");
    assert_eq!(info.kernel_version, "6.5.4-76060504-generic");
    assert_eq!(info.kernel_revision, "#202309191142");
    assert_eq!(info.serial_number, "");
}

#[test]
fn dmi_paths_follow_vendor_recognition() {
    let (name, version) = dmi_identity_paths(Some(Vendor::System76));
    assert_eq!(name, "/sys/devices/virtual/dmi/id/product_name");
    assert_eq!(version, "/sys/devices/virtual/dmi/id/product_version");
    let (name, version) = dmi_identity_paths(None);
    assert_eq!(name, "/sys/devices/virtual/dmi/id/board_name");
    assert_eq!(version, "/sys/devices/virtual/dmi/id/board_version");
}

use stsbr::registry::{build_registry, source_for, ConfigErrorKind, ConfigSection, SourceSpec};
use stsbr::text::{join, parse_unsigned, push_decimal, trim_commas_of};

fn section(name: &str, module: Option<&str>, interface: Option<&str>, sink: Option<&str>) -> ConfigSection {
    ConfigSection {
        name: name.to_string(),
        module: module.map(|m| m.to_string()),
        interface: interface.map(|i| i.to_string()),
        sink: sink.map(|s| s.to_string()),
    }
}

#[test]
fn registry_reverses_file_order() {
    let sections = vec![
        section("clock", Some("date_time"), None, None),
        section("net", Some("network_interface"), Some("eno1"), None),
        section("vol", Some("volume"), None, Some("@DEFAULT_SINK@")),
        section("disk", Some("free_disk_space"), None, None),
        section("load", Some("system_load"), None, None),
        section("media", Some("media_player"), None, None),
    ];
    let specs = build_registry(&sections).unwrap();
    assert_eq!(specs.len(), 6);
    assert!(matches!(specs[0], SourceSpec::MediaPlayer));
    assert!(matches!(specs[1], SourceSpec::SystemLoad));
    assert!(matches!(specs[2], SourceSpec::FreeDiskSpace));
    assert!(matches!(&specs[3], SourceSpec::Volume(s) if s == "@DEFAULT_SINK@"));
    assert!(matches!(&specs[4], SourceSpec::NetworkInterface(i) if i == "eno1"));
    assert!(matches!(specs[5], SourceSpec::DateTime));
}

#[test]
fn registry_unknown_module_is_an_error() {
    let sections = vec![
        section("clock", Some("date_time"), None, None),
        section("odd", Some("weather"), None, None),
    ];
    let err = build_registry(&sections).unwrap_err();
    assert_eq!(err.section, "odd");
    assert_eq!(err.kind, ConfigErrorKind::UnknownModule);
}

#[test]
fn registry_missing_fields() {
    let e = source_for(&section("net", Some("network_interface"), None, None)).unwrap_err();
    assert_eq!(e.kind, ConfigErrorKind::MissingInterface);
    let e = source_for(&section("vol", Some("volume"), None, None)).unwrap_err();
    assert_eq!(e.kind, ConfigErrorKind::MissingSink);
    let e = source_for(&section("x", None, None, None)).unwrap_err();
    assert_eq!(e.kind, ConfigErrorKind::MissingModule);
}

#[test]
fn registry_first_error_in_display_order() {
    let sections = vec![
        section("a", Some("nope"), None, None),
        section("b", None, None, None),
    ];
    let err = build_registry(&sections).unwrap_err();
    assert_eq!(err.section, "b");
    assert_eq!(err.kind, ConfigErrorKind::MissingModule);
}

#[test]
fn registry_empty() {
    assert!(build_registry(&Vec::new()).unwrap().is_empty());
}

#[test]
fn decimal_numbers() {
    let mut s = String::from("n=");
    push_decimal(&mut s, 0);
    assert_eq!(s, "n=0");
    let mut t = String::new();
    push_decimal(&mut t, u128::MAX);
    assert_eq!(t, u128::MAX.to_string());
}

#[test]
fn unsigned_numbers() {
    assert_eq!(parse_unsigned("0"), Some(0));
    assert_eq!(parse_unsigned("007"), Some(7));
    assert_eq!(parse_unsigned("+7"), Some(7));
    assert_eq!(parse_unsigned("+"), None);
    assert_eq!(parse_unsigned(" 7"), None);
    assert_eq!(parse_unsigned("7 "), None);
    assert_eq!(parse_unsigned("1_0"), None);
    assert_eq!(parse_unsigned(&usize::MAX.to_string()), Some(usize::MAX));
}

#[test]
fn joined_and_trimmed() {
    assert_eq!(join(&vec!["a".to_string(), "b".to_string()], ", "), "a, b");
    assert_eq!(join(&vec!["a".to_string()], ", "), "a");
    assert_eq!(join(&vec![], ", "), "");
    assert_eq!(trim_commas_of(",,x,y,,"), "x,y");
}

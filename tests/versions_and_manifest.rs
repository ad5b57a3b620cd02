use std::str::FromStr;

use fuzzplan::manifest::{
    collect_targets, declared_target_names, is_fuzz_manifest, sort_names, Manifest, ManifestError, TomlValue,
};
use fuzzplan::rustc_version::{is_nightly, sanitizer_flag, RustVersion, VersionError};

#[test]
fn test_parsing_stable() {
    let version_string = "rustc 1.78.0 (9b00956e5 2024-04-29)";
    let result = RustVersion::from_str(version_string).unwrap();
    assert_eq!(result, RustVersion { major: 1, minor: 78 });
    assert!(!is_nightly(version_string, false))
}

#[test]
fn test_parsing_nightly() {
    let version_string = "rustc 1.81.0-nightly (d7f6ebace 2024-06-16)";
    let result = RustVersion::from_str(version_string).unwrap();
    assert_eq!(result, RustVersion { major: 1, minor: 81 });
    assert!(is_nightly(version_string, false))
}

#[test]
fn test_parsing_future_stable() {
    let version_string = "rustc 2.356.1 (deadfaced 2029-04-01)";
    let result = RustVersion::from_str(version_string).unwrap();
    assert_eq!(result, RustVersion { major: 2, minor: 356 });
    assert!(!is_nightly(version_string, false))
}

#[test]
fn version_errors_and_bootstrap() {
    assert_eq!(RustVersion::parse("cargo 1.2.3"), Err(VersionError::NoPrefix));
    assert_eq!(RustVersion::parse("rustc x.2"), Err(VersionError::BadMajor));
    assert_eq!(RustVersion::parse("rustc 1"), Err(VersionError::MissingMinor));
    assert_eq!(RustVersion::parse("rustc 1.y"), Err(VersionError::BadMinor));
    assert!(is_nightly("rustc 1.78.0 (x)", true));
}

#[test]
fn sanitizer_flag_by_release() {
    assert_eq!(sanitizer_flag(&RustVersion { major: 1, minor: 84 }), "-Zsanitizer");
    assert_eq!(sanitizer_flag(&RustVersion { major: 1, minor: 85 }), "-Csanitizer");
    assert!(RustVersion { major: 2, minor: 0 }.has_sanitizers_on_stable());
    assert!(!RustVersion { major: 1, minor: 78 }.has_sanitizers_on_stable());
}

fn table(entries: Vec<(&str, TomlValue)>) -> TomlValue {
    TomlValue::Table(entries.into_iter().map(|(k, v)| (String::from(k), v)).collect())
}

fn s(x: &str) -> TomlValue {
    TomlValue::Str(String::from(x))
}

#[test]
fn fuzz_manifest_marker_and_targets() {
    let m = table(vec![
        (
            "package",
            table(vec![
                ("name", s("p-fuzz")),
                ("metadata", table(vec![("cargo-fuzz", TomlValue::Boolean(true))])),
            ]),
        ),
        (
            "bin",
            TomlValue::Array(vec![
                table(vec![("name", s("b")), ("path", s("fuzz_targets/b.rs"))]),
                table(vec![("path", s("x.rs"))]),
                table(vec![("name", s("a"))]),
            ]),
        ),
    ]);
    assert!(is_fuzz_manifest(&m));
    assert_eq!(declared_target_names(&m), vec!["b", "a"]);
    assert_eq!(collect_targets(&m), vec!["a", "b"]);
    let plain = table(vec![("package", table(vec![("name", s("p"))]))]);
    assert!(!is_fuzz_manifest(&plain));
    assert!(declared_target_names(&plain).is_empty());
}

#[test]
fn manifest_name_and_edition() {
    let m = Manifest::from_value(&table(vec![(
        "package",
        table(vec![("name", s("proj")), ("edition", s("2021"))]),
    )]))
    .ok()
    .unwrap();
    assert_eq!(m.crate_name, "proj");
    assert_eq!(m.edition, Some(String::from("2021")));
    let bad = Manifest::from_value(&table(vec![("package", table(vec![("edition", s("2021"))]))]));
    assert!(matches!(bad, Err(ManifestError::MalformedName)));
    let bad = Manifest::from_value(&table(vec![(
        "package",
        table(vec![("name", s("p")), ("edition", TomlValue::Integer(2021))]),
    )]));
    assert!(matches!(bad, Err(ManifestError::MalformedEdition)));
}

#[test]
fn names_sort_ascending_with_duplicates() {
    let v = vec![String::from("c"), String::from("ab"), String::from("a"), String::from("c"), String::from("B")];
    assert_eq!(sort_names(v), vec!["B", "a", "ab", "c", "c"]);
    assert!(sort_names(vec![]).is_empty());
}

//! Dialect detection, version reconciliation and propagation, and the
//! loader's validation.

use solana_test_setup::error::SetupError;
use solana_test_setup::mutate::propagate_version;
use solana_test_setup::project_toml::{ProjectToml, is_correct_cargo_toml};
use solana_test_setup::reconcile::{
    check_if_is_anchor, reconcile_platform_versions, reconcile_plugin_version, version_of_entry,
};

fn parse(text: &str) -> toml_edit::DocumentMut {
    text.parse().unwrap()
}

#[test]
fn anchor_dependency_classifies_as_anchor_dialect() {
    let doc = parse("[dependencies]\nanchor-lang = \"0.24.2\"\n");
    assert!(check_if_is_anchor(&doc));
}

#[test]
fn missing_anchor_dependency_classifies_as_plain() {
    let doc = parse("[dependencies]\nserde = \"1.0\"\n");
    assert!(!check_if_is_anchor(&doc));
    let empty = parse("[package]\nname = \"demo\"\n");
    assert!(!check_if_is_anchor(&empty));
}

#[test]
fn explicit_override_beats_detection() {
    let anchor_text = "[package]\nname = \"demo\"\n\n[dependencies]\nanchor-lang = \"0.24.2\"\n";
    let plain_text = "[package]\nname = \"demo\"\n";
    let forced_plain = ProjectToml::new(anchor_text, String::from("Cargo.toml"), &Some(false)).unwrap();
    assert!(!forced_plain.is_anchor);
    let forced_anchor = ProjectToml::new(plain_text, String::from("Cargo.toml"), &Some(true)).unwrap();
    assert!(forced_anchor.is_anchor);
}

#[test]
fn plugin_version_read_from_scalar_form() {
    let doc = parse("[dependencies]\nanchor-lang = \"0.24.2\"\n");
    assert_eq!(
        reconcile_plugin_version(&doc).unwrap(),
        Some(String::from("0.24.2"))
    );
}

#[test]
fn plugin_version_read_from_table_form() {
    let doc = parse("[dependencies]\nanchor-lang = { version = \"0.24.2\", features = [\"init-if-needed\"] }\n");
    assert_eq!(
        reconcile_plugin_version(&doc).unwrap(),
        Some(String::from("0.24.2"))
    );
}

#[test]
fn plugin_version_absent_dependency_is_none() {
    let doc = parse("[dependencies]\nserde = \"1.0\"\n");
    assert_eq!(reconcile_plugin_version(&doc).unwrap(), None);
}

#[test]
fn plugin_version_unreadable_forms_are_an_error() {
    let no_version = parse("[dependencies]\nanchor-lang = { features = [\"x\"] }\n");
    assert_eq!(
        reconcile_plugin_version(&no_version),
        Err(SetupError::VersionFieldUnparseable)
    );
    let not_a_string = parse("[dependencies]\nanchor-lang = true\n");
    assert_eq!(
        reconcile_plugin_version(&not_a_string),
        Err(SetupError::VersionFieldUnparseable)
    );
    let numeric_version = parse("[dependencies]\nanchor-lang = { version = 3 }\n");
    assert_eq!(
        reconcile_plugin_version(&numeric_version),
        Err(SetupError::VersionFieldUnparseable)
    );
}

#[test]
fn platform_version_takes_first_name_in_priority_order() {
    let doc = parse("[dependencies]\nsolana-program = \"1.9\"\nsolana-sdk = { version = \"1.8\" }\n");
    let names = vec![String::from("solana-sdk"), String::from("solana-program")];
    assert_eq!(
        reconcile_platform_versions(&doc, "dependencies", &names),
        Some(String::from("1.8"))
    );
    let reversed = vec![String::from("solana-program"), String::from("solana-sdk")];
    assert_eq!(
        reconcile_platform_versions(&doc, "dependencies", &reversed),
        Some(String::from("1.9"))
    );
}

#[test]
fn platform_version_skips_absent_and_unreadable_names() {
    let doc = parse("[dependencies]\nbroken = { features = [] }\nsolana-sdk = \"1.8\"\n");
    let names = vec![
        String::from("missing"),
        String::from("broken"),
        String::from("solana-sdk"),
    ];
    assert_eq!(
        reconcile_platform_versions(&doc, "dependencies", &names),
        Some(String::from("1.8"))
    );
    let none = vec![String::from("missing")];
    assert_eq!(reconcile_platform_versions(&doc, "dependencies", &none), None);
}

#[test]
fn propagate_version_overwrites_both_declaration_forms() {
    let mut doc = parse(
        "[dependencies]\nsolana-program = \"1.0\"\nsolana-sdk = { version = \"2.0\", default-features = false }\nuntouched = \"3.0\"\n",
    );
    let keys = vec![
        String::from("solana-program"),
        String::from("solana-sdk"),
        String::from("absent"),
    ];
    propagate_version(&mut doc, "dependencies", &keys, "1.9");
    assert_eq!(
        version_of_entry(&doc, "dependencies", "solana-program").unwrap(),
        Some(String::from("1.9"))
    );
    assert_eq!(
        version_of_entry(&doc, "dependencies", "solana-sdk").unwrap(),
        Some(String::from("1.9"))
    );
    assert_eq!(
        version_of_entry(&doc, "dependencies", "untouched").unwrap(),
        Some(String::from("3.0"))
    );
    assert_eq!(version_of_entry(&doc, "dependencies", "absent").unwrap(), None);
    // The table form keeps its other fields.
    let rendered = doc.to_string();
    assert!(rendered.contains("default-features = false"));
}

#[test]
fn loader_rejects_malformed_text() {
    let err = ProjectToml::new("not = [ toml", String::from("Cargo.toml"), &None).unwrap_err();
    assert_eq!(err, SetupError::ManifestParseError);
}

#[test]
fn loader_rejects_workspace_container() {
    let err = ProjectToml::new(
        "[workspace]\nmembers = [\"a\", \"b\"]\n",
        String::from("Cargo.toml"),
        &None,
    )
    .unwrap_err();
    assert_eq!(err, SetupError::NotAPackageManifest);
}

#[test]
fn loader_accepts_package_or_library_identity() {
    assert!(ProjectToml::new("[package]\nname = \"a\"\n", String::from("Cargo.toml"), &None).is_ok());
    assert!(ProjectToml::new("[lib]\nname = \"a\"\n", String::from("Cargo.toml"), &None).is_ok());
    let package_doc = parse("[package]\nname = \"a\"\n");
    assert!(is_correct_cargo_toml(&package_doc));
    let workspace_doc = parse("[workspace]\nmembers = []\n");
    assert!(!is_correct_cargo_toml(&workspace_doc));
}

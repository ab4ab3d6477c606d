//! End-to-end behavior of the manifest pipeline on real TOML text.

use solana_test_setup::error::SetupError;
use solana_test_setup::mutate::FrameworkReference;
use solana_test_setup::project_toml::{ProjectToml, modify_project_toml};

const PLAIN_MANIFEST: &str = "[package]\nname = \"demo\"\nversion = \"0.1.0\"\n\n[dependencies]\nserde = \"1.0\"\n";

const ANCHOR_MANIFEST: &str = "[package]\nname = \"demo\"\nversion = \"0.1.0\"\n\n[dependencies]\nanchor-lang = \"0.24.2\"\n";

fn path_reference() -> FrameworkReference {
    FrameworkReference::PathAndVersion {
        path: String::from("./framework"),
        version: String::from("0.2.0"),
    }
}

fn git_reference() -> FrameworkReference {
    FrameworkReference::Git {
        url: String::from("https://example.invalid/framework"),
        branch: String::from("main"),
    }
}

fn run_pipeline(text: &str, reference: &FrameworkReference) -> String {
    let project = modify_project_toml(
        text,
        String::from("Cargo.toml"),
        &None,
        reference,
        "solana-test-framework",
        "test",
    )
    .unwrap();
    project.save_toml()
}

#[test]
fn round_trip_without_mutation_reproduces_text() {
    let text = "# a comment kept verbatim\n[package]\nname = \"demo\"   # trailing\nversion = \"0.1.0\"\n\n[dependencies]\nserde = { version = \"1.0\", default-features = false }\n";
    let project = ProjectToml::new(text, String::from("Cargo.toml"), &None).unwrap();
    assert_eq!(project.save_toml(), text);
}

#[test]
fn byte_order_mark_is_dropped_on_round_trip() {
    // The TOML lexer skips a leading byte-order mark, so it is the one part
    // of a well-formed input that saving does not reproduce.
    let text = "\u{feff}[package]\nname = \"demo\"\n";
    let project = ProjectToml::new(text, String::from("Cargo.toml"), &None).unwrap();
    assert_eq!(project.save_toml(), "[package]\nname = \"demo\"\n");
}

#[test]
fn plain_pipeline_adds_flag_and_path_dependency() {
    let out = run_pipeline(PLAIN_MANIFEST, &path_reference());

    let doc: toml_edit::DocumentMut = out.parse().unwrap();
    let flag = doc["features"]["test"].as_array().unwrap();
    assert_eq!(flag.len(), 0);
    let entry = &doc["dev-dependencies"]["solana-test-framework"];
    assert_eq!(entry["version"].as_str().unwrap(), "0.2.0");
    assert_eq!(entry["path"].as_str().unwrap(), "./framework");
    assert!(entry.get("git").is_none());
    assert!(entry.get("branch").is_none());
    assert!(entry.get("features").is_none());

    // Untouched sections come through byte-for-byte.
    assert!(out.contains("[package]\nname = \"demo\"\nversion = \"0.1.0\"\n"));
    assert!(out.contains("[dependencies]\nserde = \"1.0\"\n"));
}

#[test]
fn anchor_pipeline_adds_anchor_feature_token() {
    let out = run_pipeline(ANCHOR_MANIFEST, &path_reference());

    let doc: toml_edit::DocumentMut = out.parse().unwrap();
    let entry = &doc["dev-dependencies"]["solana-test-framework"];
    assert_eq!(entry["version"].as_str().unwrap(), "0.2.0");
    let features = entry["features"].as_array().unwrap();
    assert_eq!(features.len(), 1);
    assert_eq!(features.get(0).unwrap().as_str().unwrap(), "anchor");
}

#[test]
fn plain_pipeline_never_adds_anchor_feature_token() {
    let out = run_pipeline(PLAIN_MANIFEST, &git_reference());
    let doc: toml_edit::DocumentMut = out.parse().unwrap();
    let entry = &doc["dev-dependencies"]["solana-test-framework"];
    assert!(entry.get("features").is_none());
}

#[test]
fn switching_path_to_git_replaces_source_fields() {
    let once = run_pipeline(PLAIN_MANIFEST, &path_reference());
    let twice = run_pipeline(&once, &git_reference());

    let doc: toml_edit::DocumentMut = twice.parse().unwrap();
    let entry = &doc["dev-dependencies"]["solana-test-framework"];
    assert_eq!(
        entry["git"].as_str().unwrap(),
        "https://example.invalid/framework"
    );
    assert_eq!(entry["branch"].as_str().unwrap(), "main");
    assert!(entry.get("version").is_none());
    assert!(entry.get("path").is_none());
}

#[test]
fn switching_git_to_path_replaces_source_fields() {
    let once = run_pipeline(PLAIN_MANIFEST, &git_reference());
    let twice = run_pipeline(&once, &path_reference());

    let doc: toml_edit::DocumentMut = twice.parse().unwrap();
    let entry = &doc["dev-dependencies"]["solana-test-framework"];
    assert_eq!(entry["version"].as_str().unwrap(), "0.2.0");
    assert_eq!(entry["path"].as_str().unwrap(), "./framework");
    assert!(entry.get("git").is_none());
    assert!(entry.get("branch").is_none());
}

#[test]
fn switching_kinds_keeps_unrelated_entry_fields() {
    let text = "[package]\nname = \"demo\"\n\n[dev-dependencies]\nsolana-test-framework = { version = \"0.1.0\", default-features = false }\n";
    let out = run_pipeline(text, &git_reference());
    let doc: toml_edit::DocumentMut = out.parse().unwrap();
    let entry = &doc["dev-dependencies"]["solana-test-framework"];
    assert_eq!(entry["default-features"].as_bool().unwrap(), false);
    assert!(entry.get("version").is_none());
}

#[test]
fn pipeline_is_textually_idempotent() {
    let once = run_pipeline(ANCHOR_MANIFEST, &git_reference());
    let twice = run_pipeline(&once, &git_reference());
    assert_eq!(twice, once);
}

#[test]
fn feature_flag_added_twice_is_added_once() {
    let mut project = ProjectToml::new(PLAIN_MANIFEST, String::from("Cargo.toml"), &None).unwrap();
    project.add_test_bpf_feature().unwrap();
    let once = project.save_toml();
    project.add_test_bpf_feature().unwrap();
    let twice = project.save_toml();
    assert_eq!(twice, once);
    let doc: toml_edit::DocumentMut = once.parse().unwrap();
    assert_eq!(doc["features"]["test-bpf"].as_array().unwrap().len(), 0);
}

#[test]
fn existing_flag_value_is_never_overwritten() {
    let text = "[package]\nname = \"demo\"\n\n[features]\ntest-bpf = [\"extra\"]\n";
    let mut project = ProjectToml::new(text, String::from("Cargo.toml"), &None).unwrap();
    project.add_test_bpf_feature().unwrap();
    let out = project.save_toml();
    assert!(out.contains("test-bpf = [\"extra\"]"));
}

#[test]
fn method_writes_git_dependency_and_detects_anchor() {
    let mut project = ProjectToml::new(ANCHOR_MANIFEST, String::from("Cargo.toml"), &None).unwrap();
    assert!(project.is_anchor);
    project
        .add_framework_as_dev_dependency(
            "https://example.invalid/framework",
            "develop",
            "solana-test-framework",
        )
        .unwrap();
    let out = project.save_toml();
    let doc: toml_edit::DocumentMut = out.parse().unwrap();
    let entry = &doc["dev-dependencies"]["solana-test-framework"];
    assert_eq!(
        entry["git"].as_str().unwrap(),
        "https://example.invalid/framework"
    );
    assert_eq!(entry["branch"].as_str().unwrap(), "develop");
    let features = entry["features"].as_array().unwrap();
    assert_eq!(features.get(0).unwrap().as_str().unwrap(), "anchor");
}

#[test]
fn explicit_anchor_override_drives_the_pipeline() {
    // A plain manifest forced to anchor gets the token; an anchor manifest
    // forced to plain does not.
    let forced_anchor = modify_project_toml(
        PLAIN_MANIFEST,
        String::from("Cargo.toml"),
        &Some(true),
        &path_reference(),
        "solana-test-framework",
        "test",
    )
    .unwrap();
    let doc: toml_edit::DocumentMut = forced_anchor.save_toml().parse().unwrap();
    let features = doc["dev-dependencies"]["solana-test-framework"]["features"]
        .as_array()
        .unwrap();
    assert_eq!(features.get(0).unwrap().as_str().unwrap(), "anchor");

    let forced_plain = modify_project_toml(
        ANCHOR_MANIFEST,
        String::from("Cargo.toml"),
        &Some(false),
        &path_reference(),
        "solana-test-framework",
        "test",
    )
    .unwrap();
    let doc: toml_edit::DocumentMut = forced_plain.save_toml().parse().unwrap();
    let entry = &doc["dev-dependencies"]["solana-test-framework"];
    assert!(entry.get("features").is_none());
}

#[test]
fn pipeline_keeps_the_manifest_path() {
    let project = modify_project_toml(
        PLAIN_MANIFEST,
        String::from("/work/demo/Cargo.toml"),
        &None,
        &git_reference(),
        "solana-test-framework",
        "test",
    )
    .unwrap();
    assert_eq!(project.path, "/work/demo/Cargo.toml");
    assert!(!project.is_anchor);
}

#[test]
fn features_section_of_wrong_shape_is_a_structural_conflict() {
    let text = "features = \"nope\"\n\n[package]\nname = \"demo\"\n";
    let mut project = ProjectToml::new(text, String::from("Cargo.toml"), &None).unwrap();
    assert_eq!(
        project.add_test_bpf_feature(),
        Err(SetupError::StructuralConflict)
    );
    // The document is left as it was.
    assert_eq!(project.save_toml(), text);
}

#[test]
fn dev_dependency_section_of_wrong_shape_is_a_structural_conflict() {
    let text = "dev-dependencies = 5\n\n[package]\nname = \"demo\"\n";
    let err = modify_project_toml(
        text,
        String::from("Cargo.toml"),
        &None,
        &git_reference(),
        "solana-test-framework",
        "test",
    )
    .unwrap_err();
    assert_eq!(err, SetupError::StructuralConflict);
}

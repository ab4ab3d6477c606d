//! Directory discovery, fetch-outcome classification, and configuration
//! precedence.

use solana_test_setup::acquire::{classify_fetch_status, contains_fragment, locate};
use solana_test_setup::config::{InitCmd, SolanaTestSetupConfig, has_rs_extension};
use solana_test_setup::error::SetupError;

#[test]
fn locate_finds_directory_containing_fragment() {
    let names = vec![String::from("foo-bar-abc123"), String::from("unrelated")];
    assert_eq!(locate(&names, "foo-bar"), Ok(String::from("foo-bar-abc123")));
}

#[test]
fn locate_without_match_reports_missing_directory() {
    let names = vec![String::from("alpha"), String::from("beta")];
    assert_eq!(
        locate(&names, "foo-bar"),
        Err(SetupError::FrameworkDirectoryNotFound)
    );
    let empty: Vec<String> = vec![];
    assert_eq!(
        locate(&empty, "foo-bar"),
        Err(SetupError::FrameworkDirectoryNotFound)
    );
}

#[test]
fn locate_takes_first_match_in_listing_order() {
    let names = vec![
        String::from("unrelated"),
        String::from("a-foo-bar"),
        String::from("foo-bar-2"),
    ];
    assert_eq!(locate(&names, "foo-bar"), Ok(String::from("a-foo-bar")));
}

#[test]
fn fragment_containment_is_substring_matching() {
    assert!(contains_fragment("solana-test-framework-deadbeef", "test-framework"));
    assert!(contains_fragment("abc", ""));
    assert!(contains_fragment("abc", "abc"));
    assert!(!contains_fragment("abc", "abcd"));
    assert!(!contains_fragment("framework", "frame-work"));
}

#[test]
fn fetch_status_classification() {
    assert_eq!(classify_fetch_status(200), Ok(()));
    assert_eq!(classify_fetch_status(299), Ok(()));
    assert_eq!(classify_fetch_status(404), Err(SetupError::ResourceNotFound));
    assert_eq!(classify_fetch_status(300), Err(SetupError::TransferFailure));
    assert_eq!(classify_fetch_status(500), Err(SetupError::TransferFailure));
    assert_eq!(classify_fetch_status(0), Err(SetupError::TransferFailure));
}

#[test]
fn default_configuration_points_at_project_dir() {
    let config = SolanaTestSetupConfig::with_project_dir("/work/demo");
    assert_eq!(config.init.path, "/work/demo");
    assert_eq!(config.init.test_file_path, "/work/demo/tests/genereted_test.rs");
    assert_eq!(
        config.init.framework_repo_url,
        "https://github.com/lowprivuser/solana-test-framework"
    );
    assert_eq!(config.init.framework_name, "solana-test-framework");
    assert_eq!(config.init.framework_branch, "main");
    assert_eq!(config.init.is_anchor, None);
}

#[test]
fn command_line_flags_override_configuration() {
    let config = SolanaTestSetupConfig::with_project_dir("/work/demo");
    let cmd = InitCmd {
        path: Some(String::from("/work/other")),
        framework_repo_url: Some(String::from("https://example.invalid/fw")),
        test_file_path: Some(String::from("/work/other/tests/poc.rs")),
        is_anchor: Some(true),
    };
    let merged = cmd.override_config(config);
    assert_eq!(merged.init.path, "/work/other");
    assert_eq!(merged.init.framework_repo_url, "https://example.invalid/fw");
    assert_eq!(merged.init.test_file_path, "/work/other/tests/poc.rs");
    assert_eq!(merged.init.is_anchor, Some(true));
    assert_eq!(merged.init.framework_name, "solana-test-framework");
    assert_eq!(merged.init.framework_branch, "main");
}

#[test]
fn absent_flags_keep_configuration() {
    let config = SolanaTestSetupConfig::with_project_dir("/work/demo");
    let cmd = InitCmd { path: None, framework_repo_url: None, test_file_path: None, is_anchor: None };
    let merged = cmd.override_config(config);
    assert_eq!(merged.init.path, "/work/demo");
    assert_eq!(merged.init.test_file_path, "/work/demo/tests/genereted_test.rs");
    assert_eq!(merged.init.is_anchor, None);
}

#[test]
fn rust_source_extension_check() {
    assert!(has_rs_extension("tests/poc.rs"));
    assert!(has_rs_extension("a.rs"));
    assert!(has_rs_extension("archive.tar.rs"));
    assert!(!has_rs_extension("tests/poc.txt"));
    assert!(!has_rs_extension("rs"));
    assert!(!has_rs_extension(""));
    // A dotfile named just `.rs` has no extension, alone or in a directory.
    assert!(!has_rs_extension(".rs"));
    assert!(!has_rs_extension("tests/.rs"));
}

//! Configuration of one setup invocation, and the precedence rule that
//! merges explicit command-line flags over it.
//!
//! All paths here are plain runtime values handed in by the caller; nothing
//! is baked in at build time, and nothing here touches the filesystem. The
//! caller validates that a given project path exists and creates the test
//! file's parent directory; this module only decides what the effective
//! configuration is.

use vstd::prelude::*;

verus! {

/// The `init` section of the configuration.
pub struct InitSection {
    /// Path to the tested project.
    pub path: String,
    /// URL of the framework repository.
    pub framework_repo_url: String,
    /// Where the generated test boilerplate is written.
    pub test_file_path: String,
    /// The framework's dependency name.
    pub framework_name: String,
    /// The framework branch to depend on.
    pub framework_branch: String,
    /// Explicit dialect override; detection fills the gap when absent.
    pub is_anchor: Option<bool>,
}

/// The whole configuration of one invocation.
pub struct SolanaTestSetupConfig {
    /// The `init` section; there is no other.
    pub init: InitSection,
}

/// The command-line flags; each one, when given, takes precedence over the
/// configuration.
pub struct InitCmd {
    /// Path to the tested project.
    pub path: Option<String>,
    /// URL of the framework repository.
    pub framework_repo_url: Option<String>,
    /// Where to create the test file.
    pub test_file_path: Option<String>,
    /// Explicit dialect override.
    pub is_anchor: Option<bool>,
}

/// The name ends in the Rust source extension, with at least one character
/// of file stem before it: a file named just `.rs` is a dotfile with no
/// extension at all.
pub open spec fn spec_has_rs_extension(s: Seq<char>) -> bool {
    &&& s.len() >= 4
    &&& s.subrange(s.len() - 3, s.len() as int) == ".rs"@
    &&& s[s.len() - 4] != '/'
}

/// Whether a file name carries the Rust source extension; the generated
/// test file must.
pub fn has_rs_extension(s: &str) -> (r: bool)
    ensures
        r == spec_has_rs_extension(s@),
{
    let n = s.unicode_len();
    if n < 4 {
        return false;
    }
    let stem = s.get_char(n - 4);
    let c0 = s.get_char(n - 3);
    let c1 = s.get_char(n - 2);
    let c2 = s.get_char(n - 1);
    let matched = stem != '/' && c0 == '.' && c1 == 'r' && c2 == 's';
    proof {
        reveal_strlit(".rs");
        let tail = s@.subrange(s@.len() - 3, s@.len() as int);
        assert(tail.len() == 3);
        assert(tail[0] == c0 && tail[1] == c1 && tail[2] == c2);
        if c0 == '.' && c1 == 'r' && c2 == 's' {
            assert(tail =~= ".rs"@);
        } else {
            assert(tail != ".rs"@);
        }
    }
    matched
}

impl InitSection {
    /// The defaults for a run started in `current_dir`: the project is the
    /// current directory, the test boilerplate goes under its `tests`
    /// directory, the framework comes from its upstream repository's main
    /// branch, and the dialect is left to detection.
    pub fn with_project_dir(current_dir: &str) -> (r: InitSection)
        ensures
            r.path@ == current_dir@,
            r.test_file_path@ == current_dir@ + "/tests/genereted_test.rs"@,
            r.framework_repo_url@ == "https://github.com/lowprivuser/solana-test-framework"@,
            r.framework_name@ == "solana-test-framework"@,
            r.framework_branch@ == "main"@,
            r.is_anchor is None,
    {
        InitSection {
            path: String::from_str(current_dir),
            test_file_path: String::from_str(current_dir).concat("/tests/genereted_test.rs"),
            framework_repo_url: String::from_str(
                "https://github.com/lowprivuser/solana-test-framework",
            ),
            framework_name: String::from_str("solana-test-framework"),
            framework_branch: String::from_str("main"),
            is_anchor: None,
        }
    }
}

impl SolanaTestSetupConfig {
    /// The default configuration for a run started in `current_dir`.
    pub fn with_project_dir(current_dir: &str) -> (r: SolanaTestSetupConfig)
        ensures
            r.init.path@ == current_dir@,
            r.init.test_file_path@ == current_dir@ + "/tests/genereted_test.rs"@,
            r.init.framework_repo_url@ == "https://github.com/lowprivuser/solana-test-framework"@,
            r.init.framework_name@ == "solana-test-framework"@,
            r.init.framework_branch@ == "main"@,
            r.init.is_anchor is None,
    {
        SolanaTestSetupConfig { init: InitSection::with_project_dir(current_dir) }
    }
}

impl InitCmd {
    /// Merges the flags over `config`: every flag that was given wins, and
    /// everything else is kept. The caller must already have checked that a
    /// given test file name carries the Rust source extension, and that a
    /// given project path exists.
    pub fn override_config(&self, config: SolanaTestSetupConfig) -> (r: SolanaTestSetupConfig)
        requires
            (self.test_file_path matches Some(p) ==> spec_has_rs_extension(p@)),
        ensures
            r.init.path@ == (match self.path {
                Some(p) => p@,
                None => config.init.path@,
            }),
            r.init.framework_repo_url@ == (match self.framework_repo_url {
                Some(u) => u@,
                None => config.init.framework_repo_url@,
            }),
            r.init.test_file_path@ == (match self.test_file_path {
                Some(t) => t@,
                None => config.init.test_file_path@,
            }),
            r.init.is_anchor == (match self.is_anchor {
                Some(b) => Some(b),
                None => config.init.is_anchor,
            }),
            spec_has_rs_extension(r.init.test_file_path@) || self.test_file_path is None,
            r.init.framework_name@ == config.init.framework_name@,
            r.init.framework_branch@ == config.init.framework_branch@,
    {
        let mut merged = config;
        match &self.path {
            Some(p) => {
                merged.init.path = String::from_str(p.as_str());
            },
            None => (),
        }
        match &self.framework_repo_url {
            Some(u) => {
                merged.init.framework_repo_url = String::from_str(u.as_str());
            },
            None => (),
        }
        match &self.test_file_path {
            Some(t) => {
                merged.init.test_file_path = String::from_str(t.as_str());
            },
            None => (),
        }
        match self.is_anchor {
            Some(b) => {
                merged.init.is_anchor = Some(b);
            },
            None => (),
        }
        merged
    }
}

} // verus!

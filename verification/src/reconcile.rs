//! Project type detection and version reconciliation.
//!
//! The detector classifies a manifest as anchor-dialect or plain by looking
//! for the anchor plugin among its dependencies. The reconciler reads
//! version numbers already pinned by a manifest — in either declaration
//! style a dependency may use: a bare scalar (`name = "1.0"`) or a table
//! with a `version` key — so that a caller can align a second manifest with
//! them. An explicit override always takes precedence over a reconciled
//! value; reconciliation only fills gaps.

use vstd::prelude::*;

use crate::doc_edit::{doc_view, entry_exists, entry_field_str, entry_str};
use crate::error::SetupError;
use crate::model::{DocView, EntryVal, FieldVal, entry_of};

verus! {

/// The dependency entry that marks the anchor dialect.
pub open spec fn spec_is_anchor(v: DocView) -> bool {
    entry_of(v, "dependencies"@, "anchor-lang"@) is Some
}

/// What reading "the version, however declared" of one entry yields.
pub enum VersionRead {
    /// The entry does not exist.
    VAbsent,
    /// The entry is a bare scalar string, or a table with a string `version`
    /// field; this is that string.
    VFound(Seq<char>),
    /// The entry exists, but neither form yields a string.
    VUnreadable,
}

/// The version declared by entry `n` of section `s`, however declared.
pub open spec fn spec_version_of(v: DocView, s: Seq<char>, n: Seq<char>) -> VersionRead {
    match entry_of(v, s, n) {
        None => VersionRead::VAbsent,
        Some(EntryVal::EStr(x)) => VersionRead::VFound(x),
        Some(EntryVal::ETable(fm)) => if fm.contains_key("version"@) {
            match fm["version"@] {
                FieldVal::FStr(x) => VersionRead::VFound(x),
                _ => VersionRead::VUnreadable,
            }
        } else {
            VersionRead::VUnreadable
        },
        Some(_) => VersionRead::VUnreadable,
    }
}

/// The version of the first name in `names` whose entry in section `s`
/// yields a version string; names whose entries are absent or unreadable
/// are passed over.
pub open spec fn spec_first_version(v: DocView, s: Seq<char>, names: Seq<String>) -> Option<
    Seq<char>,
>
    decreases names.len(),
{
    if names.len() == 0 {
        None
    } else {
        match spec_version_of(v, s, names[0]@) {
            VersionRead::VFound(x) => Some(x),
            _ => spec_first_version(v, s, names.drop_first()),
        }
    }
}

/// Classifies the document: anchor dialect iff the anchor plugin is among
/// its dependencies, whatever shape that entry has.
pub fn check_if_is_anchor(d: &toml_edit::DocumentMut) -> (r: bool)
    ensures
        r == spec_is_anchor(doc_view(*d)),
{
    entry_exists(d, "dependencies", "anchor-lang")
}

/// Reads the version of entry `name` of section `sect`, accepting both
/// declaration styles: a bare scalar version string, or a table with a
/// string `version` field. Absence is not an error; an entry that exists
/// but yields no string in either form is.
pub fn version_of_entry(d: &toml_edit::DocumentMut, sect: &str, name: &str) -> (r: Result<
    Option<String>,
    SetupError,
>)
    ensures
        (match spec_version_of(doc_view(*d), sect@, name@) {
            VersionRead::VAbsent => r matches Ok(x) && x is None,
            VersionRead::VFound(s) => r matches Ok(x) && (x matches Some(ver) && ver@ == s),
            VersionRead::VUnreadable => r matches Err(e) && e == SetupError::VersionFieldUnparseable,
        }),
{
    if !entry_exists(d, sect, name) {
        return Ok(None);
    }
    match entry_str(d, sect, name) {
        Some(ver) => Ok(Some(ver)),
        None => match entry_field_str(d, sect, name, "version") {
            Some(ver) => Ok(Some(ver)),
            None => Err(SetupError::VersionFieldUnparseable),
        },
    }
}

/// The version the target manifest already pins for the anchor plugin, if
/// any, in either declaration style.
pub fn reconcile_plugin_version(d: &toml_edit::DocumentMut) -> (r: Result<
    Option<String>,
    SetupError,
>)
    ensures
        (match spec_version_of(doc_view(*d), "dependencies"@, "anchor-lang"@) {
            VersionRead::VAbsent => r matches Ok(x) && x is None,
            VersionRead::VFound(s) => r matches Ok(x) && (x matches Some(ver) && ver@ == s),
            VersionRead::VUnreadable => r matches Err(e) && e == SetupError::VersionFieldUnparseable,
        }),
{
    version_of_entry(d, "dependencies", "anchor-lang")
}

/// Scans `known_names` in order and returns the version of the first one
/// that yields a version string among the dependencies of `sect`. The order
/// of `known_names` establishes a deterministic priority; nothing is merged
/// across several matches.
pub fn reconcile_platform_versions(
    d: &toml_edit::DocumentMut,
    sect: &str,
    known_names: &Vec<String>,
) -> (r: Option<String>)
    ensures
        (match spec_first_version(doc_view(*d), sect@, known_names@) {
            Some(s) => r matches Some(ver) && ver@ == s,
            None => r is None,
        }),
{
    let mut i: usize = 0;
    proof {
        assert(known_names@.skip(0) =~= known_names@);
    }
    while i < known_names.len()
        invariant
            i <= known_names@.len(),
            spec_first_version(doc_view(*d), sect@, known_names@) == spec_first_version(
                doc_view(*d),
                sect@,
                known_names@.skip(i as int),
            ),
        decreases known_names@.len() - i,
    {
        let name = &known_names[i];
        match version_of_entry(d, sect, name.as_str()) {
            Ok(Some(ver)) => {
                proof {
                    assert(known_names@.skip(i as int)[0] == known_names@[i as int]);
                }
                return Some(ver);
            },
            _ => (),
        }
        proof {
            assert(known_names@.skip(i as int)[0] == known_names@[i as int]);
            assert(known_names@.skip(i as int).drop_first() =~= known_names@.skip(i + 1));
        }
        i = i + 1;
    }
    None
}

} // verus!

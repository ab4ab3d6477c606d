//! The project manifest: loading, validation, dialect detection, the fixed
//! edits, and serialization.
//!
//! Reading the manifest file from disk and writing it back are the caller's
//! I/O; this module takes the file's text, decides everything about it, and
//! returns the new text. A manifest is accepted only when it describes a
//! single buildable package — a workspace container that aggregates several
//! packages is rejected — and its dialect is taken from an explicit
//! override when one is given, else detected from its dependencies.

use vstd::prelude::*;

use crate::doc_edit::{
    doc_has_key, doc_text, doc_view, parse_document, parsed_view, render_document, section_text,
    source_section_text, spec_bom_free, toml_parses,
};
use crate::error::SetupError;
use crate::model::{DocView, FieldVal, entry_fields, sec_entries};
use crate::mutate::{
    FrameworkRefView, FrameworkReference, add_dependency, add_feature_flag, set_anchor_feature,
    spec_add_dependency, spec_add_feature_flag, spec_anchor_conflict, spec_dep_fields,
    spec_entry_base, spec_features_conflict, spec_sect_base, spec_sect_conflict,
    spec_set_anchor_feature,
};
use crate::reconcile::{check_if_is_anchor, spec_is_anchor};

verus! {

/// The document describes a single package: it has a package-identity
/// section or a library-identity section.
pub open spec fn spec_is_package(v: DocView) -> bool {
    v.contains_key("package"@) || v.contains_key("lib"@)
}

/// The dialect the pipeline works with: an explicit override when given,
/// else what detection on the document says.
pub open spec fn spec_dialect(v: DocView, is_anchor: Option<bool>) -> bool {
    match is_anchor {
        Some(b) => b,
        None => spec_is_anchor(v),
    }
}

/// A loaded, validated manifest, with the dialect resolved once at load.
#[derive(Debug)]
pub struct ProjectToml {
    /// The manifest document, formatting preserved.
    pub document: toml_edit::DocumentMut,
    /// Where the manifest came from and will be written back to.
    pub path: String,
    /// Whether the pipeline treats the package as anchor-dialect.
    pub is_anchor: bool,
}

/// Whether the document describes a single buildable package rather than a
/// multi-package workspace container.
pub fn is_correct_cargo_toml(d: &toml_edit::DocumentMut) -> (r: bool)
    ensures
        r == spec_is_package(doc_view(*d)),
{
    doc_has_key(d, "package") || doc_has_key(d, "lib")
}

impl ProjectToml {
    /// Parses and validates manifest text. Fails with `ManifestParseError`
    /// exactly on malformed text and with `NotAPackageManifest` exactly on
    /// a well-formed document that names neither a package nor a library;
    /// every other text loads. The dialect is the override when given, else
    /// the detector's answer.
    pub fn new(text: &str, path: String, is_anchor: &Option<bool>) -> (r: Result<
        ProjectToml,
        SetupError,
    >)
        ensures
            r is Ok <==> (toml_parses(text@) && spec_is_package(parsed_view(text@))),
            (r matches Err(e) ==> (e == SetupError::ManifestParseError <==> !toml_parses(text@))),
            (r matches Err(e) ==> (e == SetupError::NotAPackageManifest <==> (toml_parses(text@)
                && !spec_is_package(parsed_view(text@))))),
            (r matches Ok(pt) ==> ({
                &&& doc_view(pt.document) == parsed_view(text@)
                &&& spec_bom_free(text@) ==> doc_text(pt.document) == text@
                &&& forall|k: Seq<char>| #[trigger] section_text(pt.document, k)
                    == source_section_text(text@, k)
                &&& pt.path == path
                &&& pt.is_anchor == spec_dialect(parsed_view(text@), *is_anchor)
            })),
    {
        let document = match parse_document(text) {
            Some(d) => d,
            None => {
                return Err(SetupError::ManifestParseError);
            },
        };
        if !is_correct_cargo_toml(&document) {
            return Err(SetupError::NotAPackageManifest);
        }
        let anchor: bool = match is_anchor {
            Some(b) => *b,
            None => check_if_is_anchor(&document),
        };
        Ok(ProjectToml { document, path, is_anchor: anchor })
    }

    /// Adds the `test-bpf` feature flag, mapped to an empty list, creating
    /// the `features` section when absent. A flag that is already there —
    /// whatever its value — is never altered: the document is then left
    /// exactly as it was, to the byte, as it also is on a conflict; and no
    /// top-level entry other than `features` ever has its text moved.
    pub fn add_test_bpf_feature(&mut self) -> (r: Result<(), SetupError>)
        ensures
            doc_view(final(self).document) == spec_add_feature_flag(
                doc_view(old(self).document),
                "test-bpf"@,
            ),
            r is Ok <==> !spec_features_conflict(doc_view(old(self).document)),
            r matches Err(e) ==> e == SetupError::StructuralConflict,
            (match sec_entries(doc_view(old(self).document), "features"@) {
                Some(m) => m.contains_key("test-bpf"@),
                None => false,
            }) ==> final(self).document == old(self).document,
            r is Err ==> final(self).document == old(self).document,
            forall|k: Seq<char>|
                k != "features"@ ==> #[trigger] section_text(final(self).document, k)
                    == section_text(old(self).document, k),
            final(self).path == old(self).path,
            final(self).is_anchor == old(self).is_anchor,
    {
        add_feature_flag(&mut self.document, "test-bpf")
    }

    /// Writes the framework as a git-sourced dev-dependency and, for an
    /// anchor-dialect package, gives that entry the anchor feature token.
    pub fn add_framework_as_dev_dependency(
        &mut self,
        framework_url: &str,
        framework_branch: &str,
        framework_name: &str,
    ) -> (r: Result<(), SetupError>)
        ensures
            ({
                let v0 = doc_view(old(self).document);
                let v1 = spec_add_dependency(
                    v0,
                    "dev-dependencies"@,
                    framework_name@,
                    FrameworkRefView::GitRef { url: framework_url@, branch: framework_branch@ },
                );
                let v2 = spec_set_anchor_feature(
                    v1,
                    "dev-dependencies"@,
                    framework_name@,
                    old(self).is_anchor,
                );
                &&& r is Ok <==> (!spec_sect_conflict(v0, "dev-dependencies"@) && !(old(
                    self,
                ).is_anchor && spec_anchor_conflict(v1, "dev-dependencies"@, framework_name@)))
                &&& r is Ok ==> doc_view(final(self).document) == v2
                &&& r is Err ==> (final(self).document == old(self).document || doc_view(
                    final(self).document,
                ) == v1)
            }),
            r matches Err(e) ==> e == SetupError::StructuralConflict,
            forall|k: Seq<char>|
                k != "dev-dependencies"@ ==> #[trigger] section_text(final(self).document, k)
                    == section_text(old(self).document, k),
            final(self).path == old(self).path,
            final(self).is_anchor == old(self).is_anchor,
    {
        let reference = FrameworkReference::Git {
            url: String::from_str(framework_url),
            branch: String::from_str(framework_branch),
        };
        match add_dependency(&mut self.document, "dev-dependencies", framework_name, &reference) {
            Ok(()) => (),
            Err(e) => {
                return Err(e);
            },
        }
        set_anchor_feature(&mut self.document, "dev-dependencies", framework_name, self.is_anchor)
    }

    /// Serializes the document; untouched content keeps its original
    /// formatting, and the text written is itself a well-formed manifest
    /// denoting the same content, so loading it again is reasoned about.
    /// Writing the text to disk is the caller's I/O.
    pub fn save_toml(&self) -> (r: String)
        ensures
            r@ == doc_text(self.document),
            toml_parses(r@),
            parsed_view(r@) == doc_view(self.document),
    {
        render_document(&self.document)
    }
}

/// The one mutation the pipeline performs, as a transformation of the
/// document's logical content: add the feature flag, write the framework
/// dev-dependency, and give it the anchor token when the dialect asks for
/// it. On a structural conflict each step leaves the document unchanged.
pub open spec fn spec_modify(
    v: DocView,
    flag: Seq<char>,
    name: Seq<char>,
    fr: FrameworkRefView,
    anchor: bool,
) -> DocView {
    spec_set_anchor_feature(
        spec_add_dependency(spec_add_feature_flag(v, flag), "dev-dependencies"@, name, fr),
        "dev-dependencies"@,
        name,
        anchor,
    )
}

/// The whole manifest transformation, from text to mutated document: load
/// and validate, resolve the dialect, add the feature flag named
/// `feature_name`, write the framework dev-dependency from `framework`, and
/// give it the anchor token when the dialect asks for it. It succeeds
/// exactly on well-formed package manifests without a structural conflict,
/// and each error names its own cause and no other. Top-level entries other
/// than `features` and the dev-dependency section keep the text they had in
/// the input. The caller serializes the result with `save_toml` and owns
/// all file I/O.
pub fn modify_project_toml(
    text: &str,
    path: String,
    is_anchor: &Option<bool>,
    framework: &FrameworkReference,
    framework_name: &str,
    feature_name: &str,
) -> (r: Result<ProjectToml, SetupError>)
    ensures
        ({
            let vp = parsed_view(text@);
            let anchor = spec_dialect(vp, *is_anchor);
            let v1 = spec_add_feature_flag(vp, feature_name@);
            let v2 = spec_add_dependency(v1, "dev-dependencies"@, framework_name@, framework@);
            let v3 = spec_set_anchor_feature(v2, "dev-dependencies"@, framework_name@, anchor);
            let conflict = spec_features_conflict(vp) || spec_sect_conflict(
                v1,
                "dev-dependencies"@,
            ) || (anchor && spec_anchor_conflict(v2, "dev-dependencies"@, framework_name@));
            &&& (r is Ok <==> (toml_parses(text@) && spec_is_package(vp) && !conflict))
            &&& (r matches Err(e) ==> (e == SetupError::ManifestParseError <==> !toml_parses(
                text@,
            )))
            &&& (r matches Err(e) ==> (e == SetupError::NotAPackageManifest <==> (toml_parses(
                text@,
            ) && !spec_is_package(vp))))
            &&& (r matches Err(e) ==> (e == SetupError::StructuralConflict <==> (toml_parses(
                text@,
            ) && spec_is_package(vp) && conflict)))
            &&& (r matches Ok(pt) ==> ({
                &&& doc_view(pt.document) == v3
                &&& v3 == spec_modify(vp, feature_name@, framework_name@, framework@, anchor)
                &&& forall|k: Seq<char>|
                    k != "features"@ && k != "dev-dependencies"@ ==> #[trigger] section_text(
                        pt.document,
                        k,
                    ) == source_section_text(text@, k)
                &&& pt.path == path
                &&& pt.is_anchor == anchor
            }))
        }),
{
    let mut project = match ProjectToml::new(text, path, is_anchor) {
        Ok(p) => p,
        Err(e) => {
            return Err(e);
        },
    };
    match add_feature_flag(&mut project.document, feature_name) {
        Ok(()) => (),
        Err(e) => {
            return Err(e);
        },
    }
    match add_dependency(&mut project.document, "dev-dependencies", framework_name, framework) {
        Ok(()) => (),
        Err(e) => {
            return Err(e);
        },
    }
    match set_anchor_feature(
        &mut project.document,
        "dev-dependencies",
        framework_name,
        project.is_anchor,
    ) {
        Ok(()) => (),
        Err(e) => {
            return Err(e);
        },
    }
    Ok(project)
}

/// Law: a manifest content the pipeline just produced is again a content
/// the pipeline succeeds on. It still names its package or library, its
/// `features` section is table-like and already carries the flag, and the
/// dev-dependency section and entry have the shapes the edits expect — so
/// a caller that saves the result and runs the pipeline on the saved text
/// once more is owed success, and, by idempotence, the same content.
pub proof fn lemma_modify_succeeds_again(
    v: DocView,
    flag: Seq<char>,
    name: Seq<char>,
    fr: FrameworkRefView,
    anchor: bool,
)
    requires
        spec_is_package(v),
        !spec_features_conflict(v),
        !spec_sect_conflict(spec_add_feature_flag(v, flag), "dev-dependencies"@),
        !(anchor && spec_anchor_conflict(
            spec_add_dependency(
                spec_add_feature_flag(v, flag),
                "dev-dependencies"@,
                name,
                fr,
            ),
            "dev-dependencies"@,
            name,
        )),
    ensures
        ({
            let v3 = spec_modify(v, flag, name, fr, anchor);
            &&& spec_is_package(v3)
            &&& !spec_features_conflict(v3)
            &&& !spec_sect_conflict(spec_add_feature_flag(v3, flag), "dev-dependencies"@)
            &&& !(anchor && spec_anchor_conflict(
                spec_add_dependency(
                    spec_add_feature_flag(v3, flag),
                    "dev-dependencies"@,
                    name,
                    fr,
                ),
                "dev-dependencies"@,
                name,
            ))
        }),
{
    reveal_strlit("package");
    reveal_strlit("lib");
    reveal_strlit("features");
    reveal_strlit("dev-dependencies");
    assert("package"@.len() == 7 && "lib"@.len() == 3 && "features"@.len() == 8
        && "dev-dependencies"@.len() == 16);
    let dd = "dev-dependencies"@;
    let fs = "features"@;
    let v1 = spec_add_feature_flag(v, flag);
    let v2 = spec_add_dependency(v1, dd, name, fr);
    let v3 = spec_set_anchor_feature(v2, dd, name, anchor);
    assert(sec_entries(v3, fs) is Some && sec_entries(v3, fs)->0.contains_key(flag));
    assert(spec_add_feature_flag(v3, flag) == v3);
    assert(sec_entries(v3, dd) is Some);
    assert(entry_fields(v3, dd, name) is Some);
}

/// Law: the whole mutation applied twice yields the same document as
/// applied once. The second run finds the feature flag present and leaves
/// it, updates every source field of the dependency entry in place to the
/// value it already has, and re-grants the anchor token already granted;
/// where a structural conflict made a step leave the document unchanged,
/// the same conflict makes the second run leave it unchanged too.
pub proof fn lemma_modify_idempotent(
    v: DocView,
    flag: Seq<char>,
    name: Seq<char>,
    fr: FrameworkRefView,
    anchor: bool,
)
    ensures
        spec_modify(spec_modify(v, flag, name, fr, anchor), flag, name, fr, anchor) == spec_modify(
            v,
            flag,
            name,
            fr,
            anchor,
        ),
{
    reveal_strlit("features");
    reveal_strlit("dev-dependencies");
    reveal_strlit("git");
    reveal_strlit("branch");
    reveal_strlit("version");
    reveal_strlit("path");
    assert("features"@.len() == 8 && "dev-dependencies"@.len() == 16);
    assert("git"@.len() == 3 && "branch"@.len() == 6 && "version"@.len() == 7 && "path"@.len()
        == 4);
    let dd = "dev-dependencies"@;
    let fs = "features"@;
    let v1 = spec_add_feature_flag(v, flag);
    let v2 = spec_add_dependency(v1, dd, name, fr);
    let v3 = spec_set_anchor_feature(v2, dd, name, anchor);

    // The second run's flag step changes nothing: the dependency steps do
    // not touch the `features` section.
    assert(spec_add_feature_flag(v3, flag) == v3) by {
        if spec_features_conflict(v) {
            assert(v3.contains_key(fs) && v3[fs] == v[fs]);
        } else {
            assert(sec_entries(v3, fs) is Some && sec_entries(v3, fs)->0.contains_key(flag));
        }
    }

    // The second run's dependency step rewrites every source field to the
    // value it already has.
    let w2 = spec_add_dependency(v3, dd, name, fr);
    assert(w2 == v3) by {
        if spec_sect_conflict(v1, dd) {
            assert(v2 == v1 && v3 == v1);
            assert(spec_sect_conflict(v3, dd));
        } else {
            assert(entry_fields(v3, dd, name) is Some);
            let e3 = spec_entry_base(spec_sect_base(v3, dd), name);
            assert(spec_dep_fields(e3, fr) =~= e3);
            assert(w2 =~~= v3);
        }
    }

    // The second run's anchor step re-grants the token already granted.
    let w3 = spec_set_anchor_feature(v3, dd, name, anchor);
    assert(w3 == v3) by {
        if anchor {
            if spec_sect_conflict(v1, dd) {
                assert(v2 == v1 && v3 == v1);
                assert(spec_anchor_conflict(v3, dd, name));
            } else {
                assert(!spec_anchor_conflict(v2, dd, name));
                assert(!spec_anchor_conflict(v3, dd, name));
                let e3 = spec_entry_base(spec_sect_base(v3, dd), name);
                assert(e3.insert(fs, FieldVal::FArr(seq!["anchor"@])) =~= e3);
                assert(w3 =~~= v3);
            }
        }
    }
}

} // verus!

//! The manifest mutator: a fixed set of idempotent edits.
//!
//! Each operation is total over a well-formed document and fails only with
//! `StructuralConflict`, when an existing value at a target key has a shape
//! the edit cannot live with. On a conflict the document is left unchanged.
//!
//! The operations never duplicate what is already there: a feature flag
//! already present is kept as it is, and a dependency entry written twice
//! has its source fields updated in place. A dependency's source-identifying
//! fields (`git`/`branch` against `version`/`path`) are owned by the edit:
//! writing one kind removes the other kind's fields, so an entry can never
//! look git-sourced and path-sourced at once. All other fields of the entry
//! are left untouched.

use vstd::prelude::*;

use crate::doc_edit::{
    doc_has_key, doc_view, entry_exists, entry_is_table, entry_str, remove_entry_field,
    section_is_table, section_text, set_entry_empty_array, set_entry_empty_table,
    set_entry_field_singleton_array, set_entry_field_str, set_entry_str, set_root_table,
};
use crate::error::SetupError;
use crate::model::{
    DocView, EntryVal, FieldVal, SectionVal, entry_fields, entry_of, sec_entries, with_entry,
    with_field,
};

verus! {

/// How the acquired framework is to be depended upon: exactly one source
/// kind is active per invocation.
#[derive(Debug)]
pub enum FrameworkReference {
    /// Depend on a git repository at a branch.
    Git { url: String, branch: String },
    /// Depend on a local path, pinned to a version.
    PathAndVersion { path: String, version: String },
}

/// The logical content of a `FrameworkReference`: the same two kinds, over
/// character sequences.
pub enum FrameworkRefView {
    /// Depend on a git repository at a branch.
    GitRef { url: Seq<char>, branch: Seq<char> },
    /// Depend on a local path, pinned to a version.
    PathRef { path: Seq<char>, version: Seq<char> },
}

impl View for FrameworkReference {
    type V = FrameworkRefView;

    open spec fn view(&self) -> FrameworkRefView {
        match self {
            FrameworkReference::Git { url, branch } => FrameworkRefView::GitRef {
                url: url@,
                branch: branch@,
            },
            FrameworkReference::PathAndVersion { path, version } => FrameworkRefView::PathRef {
                path: path@,
                version: version@,
            },
        }
    }
}

/// A `features` section that exists but is not table-like: no flag can be
/// added to it.
pub open spec fn spec_features_conflict(v: DocView) -> bool {
    v.contains_key("features"@) && sec_entries(v, "features"@) is None
}

/// The document after `add_feature_flag`: a `features` section exists and
/// maps `name` to an empty list, unless `name` was already present — an
/// existing value for it, empty or not, is never altered.
pub open spec fn spec_add_feature_flag(v: DocView, name: Seq<char>) -> DocView {
    if spec_features_conflict(v) {
        v
    } else if !v.contains_key("features"@) {
        v.insert(
            "features"@,
            SectionVal::STable(Map::empty().insert(name, EntryVal::EArr(Seq::empty()))),
        )
    } else if sec_entries(v, "features"@)->0.contains_key(name) {
        v
    } else {
        with_entry(v, "features"@, name, EntryVal::EArr(Seq::empty()))
    }
}

/// A section that exists but is not table-like: no entry can be put in it.
pub open spec fn spec_sect_conflict(v: DocView, s: Seq<char>) -> bool {
    v.contains_key(s) && sec_entries(v, s) is None
}

/// The entries of section `s`, treating a missing section as empty.
pub open spec fn spec_sect_base(v: DocView, s: Seq<char>) -> Map<Seq<char>, EntryVal> {
    if v.contains_key(s) {
        sec_entries(v, s)->0
    } else {
        Map::empty()
    }
}

/// The fields the dependency entry starts from: its existing fields when it
/// is table-like, and nothing otherwise — a scalar entry is superseded by
/// the structured one being written.
pub open spec fn spec_entry_base(m: Map<Seq<char>, EntryVal>, n: Seq<char>) -> Map<
    Seq<char>,
    FieldVal,
> {
    if m.contains_key(n) {
        match m[n] {
            EntryVal::ETable(fm) => fm,
            _ => Map::empty(),
        }
    } else {
        Map::empty()
    }
}

/// The fields of a dependency entry after writing `fr` into it: the written
/// kind's fields are set, the other kind's fields are removed, and every
/// other field is kept.
pub open spec fn spec_dep_fields(e0: Map<Seq<char>, FieldVal>, fr: FrameworkRefView) -> Map<
    Seq<char>,
    FieldVal,
> {
    match fr {
        FrameworkRefView::GitRef { url, branch } => e0.remove("version"@).remove("path"@).insert(
            "git"@,
            FieldVal::FStr(url),
        ).insert("branch"@, FieldVal::FStr(branch)),
        FrameworkRefView::PathRef { path, version } => e0.remove("git"@).remove("branch"@).insert(
            "version"@,
            FieldVal::FStr(version),
        ).insert("path"@, FieldVal::FStr(path)),
    }
}

/// The document after `add_dependency`: section `s` exists, its entry `n`
/// is table-like, and that entry's fields are `spec_dep_fields` of what was
/// there before.
pub open spec fn spec_add_dependency(
    v: DocView,
    s: Seq<char>,
    n: Seq<char>,
    fr: FrameworkRefView,
) -> DocView {
    if spec_sect_conflict(v, s) {
        v
    } else {
        let m0 = spec_sect_base(v, s);
        v.insert(
            s,
            SectionVal::STable(
                m0.insert(n, EntryVal::ETable(spec_dep_fields(spec_entry_base(m0, n), fr))),
            ),
        )
    }
}

/// Ensures a table-like section `sect` exists, creating an empty one when
/// absent; reports the conflict when a non-table value sits at that key.
/// When nothing had to be created, and on a conflict, the document is left
/// exactly as it was; in every case no other top-level entry's text moves.
fn ensure_section(d: &mut toml_edit::DocumentMut, sect: &str) -> (r: Result<(), SetupError>)
    ensures
        r is Ok <==> !spec_sect_conflict(doc_view(*old(d)), sect@),
        r is Ok ==> doc_view(*final(d)) == (if doc_view(*old(d)).contains_key(sect@) {
            doc_view(*old(d))
        } else {
            doc_view(*old(d)).insert(sect@, SectionVal::STable(Map::empty()))
        }),
        doc_view(*old(d)).contains_key(sect@) ==> *final(d) == *old(d),
        r is Err ==> *final(d) == *old(d),
        r matches Err(e) ==> e == SetupError::StructuralConflict,
        forall|other: Seq<char>|
            other != sect@ ==> #[trigger] section_text(*final(d), other) == section_text(
                *old(d),
                other,
            ),
{
    if doc_has_key(d, sect) {
        if !section_is_table(d, sect) {
            return Err(SetupError::StructuralConflict);
        }
    } else {
        set_root_table(d, sect);
    }
    Ok(())
}

/// Adds the feature flag `name` to the `features` section, mapped to an
/// empty list of implied features; creates the section when absent. When
/// the flag is already there — whatever its value — and on a conflict, the
/// document is left exactly as it was, to the byte; in every case no
/// top-level entry other than `features` has its text moved.
pub fn add_feature_flag(d: &mut toml_edit::DocumentMut, name: &str) -> (r: Result<(), SetupError>)
    ensures
        doc_view(*final(d)) == spec_add_feature_flag(doc_view(*old(d)), name@),
        r is Ok <==> !spec_features_conflict(doc_view(*old(d))),
        r matches Err(e) ==> e == SetupError::StructuralConflict,
        (match sec_entries(doc_view(*old(d)), "features"@) {
            Some(m) => m.contains_key(name@),
            None => false,
        }) ==> *final(d) == *old(d),
        r is Err ==> *final(d) == *old(d),
        forall|other: Seq<char>|
            other != "features"@ ==> #[trigger] section_text(*final(d), other) == section_text(
                *old(d),
                other,
            ),
{
    let ghost v0 = doc_view(*d);
    if doc_has_key(d, "features") {
        if !section_is_table(d, "features") {
            return Err(SetupError::StructuralConflict);
        }
        if entry_exists(d, "features", name) {
            return Ok(());
        }
        set_entry_empty_array(d, "features", name);
        Ok(())
    } else {
        set_root_table(d, "features");
        set_entry_empty_array(d, "features", name);
        proof {
            assert(doc_view(*d) =~~= spec_add_feature_flag(v0, name@));
        }
        Ok(())
    }
}

/// Law: adding a feature flag twice yields the same document as adding it
/// once — the second application finds the flag present and changes nothing.
pub proof fn lemma_add_feature_flag_idempotent(v: DocView, name: Seq<char>)
    ensures
        spec_add_feature_flag(spec_add_feature_flag(v, name), name) == spec_add_feature_flag(
            v,
            name,
        ),
{
    let v1 = spec_add_feature_flag(v, name);
    if spec_features_conflict(v) {
    } else if !v.contains_key("features"@) {
        assert(sec_entries(v1, "features"@)->0.contains_key(name));
    } else if sec_entries(v, "features"@)->0.contains_key(name) {
    } else {
        assert(sec_entries(v1, "features"@)->0.contains_key(name));
    }
}

/// Writes the dependency `name` into section `sect` according to `fr`:
/// creates the section and the entry when absent, sets exactly the fields
/// implied by `fr`'s kind, removes the other kind's source-identifying
/// fields, and leaves every other pre-existing field of the entry as it is.
/// On a conflict the document is left exactly as it was, and in every case
/// no top-level entry other than `sect` has its text moved.
pub fn add_dependency(
    d: &mut toml_edit::DocumentMut,
    sect: &str,
    name: &str,
    fr: &FrameworkReference,
) -> (r: Result<(), SetupError>)
    ensures
        doc_view(*final(d)) == spec_add_dependency(doc_view(*old(d)), sect@, name@, fr@),
        r is Ok <==> !spec_sect_conflict(doc_view(*old(d)), sect@),
        r matches Err(e) ==> e == SetupError::StructuralConflict,
        r is Err ==> *final(d) == *old(d),
        forall|other: Seq<char>|
            other != sect@ ==> #[trigger] section_text(*final(d), other) == section_text(
                *old(d),
                other,
            ),
{
    let ghost v0 = doc_view(*d);
    match ensure_section(d, sect) {
        Ok(()) => (),
        Err(e) => {
            return Err(e);
        },
    }
    if !entry_is_table(d, sect, name) {
        set_entry_empty_table(d, sect, name);
    }
    match fr {
        FrameworkReference::Git { url, branch } => {
            remove_entry_field(d, sect, name, "version");
            remove_entry_field(d, sect, name, "path");
            set_entry_field_str(d, sect, name, "git", url.as_str());
            set_entry_field_str(d, sect, name, "branch", branch.as_str());
        },
        FrameworkReference::PathAndVersion { path, version } => {
            remove_entry_field(d, sect, name, "git");
            remove_entry_field(d, sect, name, "branch");
            set_entry_field_str(d, sect, name, "version", version.as_str());
            set_entry_field_str(d, sect, name, "path", path.as_str());
        },
    }
    proof {
        assert(doc_view(*d) =~~= spec_add_dependency(v0, sect@, name@, fr@));
    }
    Ok(())
}

/// An entry that exists but is not table-like: no feature list can be put
/// on it without discarding it, which this edit does not do.
pub open spec fn spec_anchor_conflict(v: DocView, s: Seq<char>, n: Seq<char>) -> bool {
    spec_sect_conflict(v, s) || (entry_of(v, s, n) is Some && entry_fields(v, s, n) is None)
}

/// The document after `set_anchor_feature`: unchanged when the target is
/// not anchor-dialect; otherwise entry `n` of section `s` exists and its
/// `features` field is the one-item list holding the anchor token.
pub open spec fn spec_set_anchor_feature(
    v: DocView,
    s: Seq<char>,
    n: Seq<char>,
    is_anchor: bool,
) -> DocView {
    if !is_anchor || spec_anchor_conflict(v, s, n) {
        v
    } else {
        let m0 = spec_sect_base(v, s);
        v.insert(
            s,
            SectionVal::STable(
                m0.insert(
                    n,
                    EntryVal::ETable(
                        spec_entry_base(m0, n).insert("features"@, FieldVal::FArr(seq!["anchor"@])),
                    ),
                ),
            ),
        )
    }
}

/// When the target package is anchor-dialect, gives entry `name` of section
/// `sect` a `features` field holding exactly the anchor support token,
/// creating section and entry when absent. When the target is plain, and on
/// a conflict, the document is left exactly as it was, to the byte; in
/// every case no top-level entry other than `sect` has its text moved. An
/// anchor feature entry left by an earlier run is not removed.
pub fn set_anchor_feature(
    d: &mut toml_edit::DocumentMut,
    sect: &str,
    name: &str,
    is_anchor: bool,
) -> (r: Result<(), SetupError>)
    ensures
        doc_view(*final(d)) == spec_set_anchor_feature(doc_view(*old(d)), sect@, name@, is_anchor),
        r is Ok <==> !(is_anchor && spec_anchor_conflict(doc_view(*old(d)), sect@, name@)),
        r matches Err(e) ==> e == SetupError::StructuralConflict,
        !is_anchor ==> *final(d) == *old(d),
        r is Err ==> *final(d) == *old(d),
        forall|other: Seq<char>|
            other != sect@ ==> #[trigger] section_text(*final(d), other) == section_text(
                *old(d),
                other,
            ),
{
    let ghost v0 = doc_view(*d);
    if !is_anchor {
        return Ok(());
    }
    match ensure_section(d, sect) {
        Ok(()) => (),
        Err(e) => {
            return Err(e);
        },
    }
    if entry_exists(d, sect, name) {
        if !entry_is_table(d, sect, name) {
            return Err(SetupError::StructuralConflict);
        }
    } else {
        set_entry_empty_table(d, sect, name);
    }
    set_entry_field_singleton_array(d, sect, name, "features", "anchor");
    proof {
        assert(doc_view(*d) =~~= spec_set_anchor_feature(v0, sect@, name@, is_anchor));
    }
    Ok(())
}

/// One step of version propagation: the version of entry `n`, however
/// declared, becomes `ver` — a scalar entry is replaced by the new scalar,
/// a table-like entry has its `version` field overwritten — and an entry
/// that is absent, or has no version to speak of, is left alone.
pub open spec fn spec_propagate_one(v: DocView, s: Seq<char>, n: Seq<char>, ver: Seq<char>) -> DocView {
    match entry_of(v, s, n) {
        Some(EntryVal::EStr(_)) => with_entry(v, s, n, EntryVal::EStr(ver)),
        Some(EntryVal::ETable(_)) => with_field(v, s, n, "version"@, FieldVal::FStr(ver)),
        _ => v,
    }
}

/// The document after overwriting, for each key of `keys` in order, the
/// version of that dependency with `ver`.
pub open spec fn spec_propagate_version(
    v: DocView,
    s: Seq<char>,
    keys: Seq<String>,
    ver: Seq<char>,
) -> DocView
    decreases keys.len(),
{
    if keys.len() == 0 {
        v
    } else {
        spec_propagate_version(spec_propagate_one(v, s, keys[0]@, ver), s, keys.drop_first(), ver)
    }
}

/// For each key of `keys` present as a dependency in section `sect`,
/// overwrites its version — in whichever declaration style the entry uses —
/// with `version`. Used to align the acquired package's own manifest with
/// the versions the target package already pins. No top-level entry other
/// than `sect` has its text moved.
pub fn propagate_version(
    d: &mut toml_edit::DocumentMut,
    sect: &str,
    keys: &Vec<String>,
    version: &str,
)
    ensures
        doc_view(*final(d)) == spec_propagate_version(doc_view(*old(d)), sect@, keys@, version@),
        forall|other: Seq<char>|
            other != sect@ ==> #[trigger] section_text(*final(d), other) == section_text(
                *old(d),
                other,
            ),
{
    let ghost v0 = doc_view(*d);
    let ghost d0 = *d;
    let mut i: usize = 0;
    proof {
        assert(keys@.skip(0) =~= keys@);
    }
    while i < keys.len()
        invariant
            i <= keys@.len(),
            spec_propagate_version(v0, sect@, keys@, version@) == spec_propagate_version(
                doc_view(*d),
                sect@,
                keys@.skip(i as int),
                version@,
            ),
            forall|other: Seq<char>|
                other != sect@ ==> #[trigger] section_text(*d, other) == section_text(d0, other),
        decreases keys@.len() - i,
    {
        let ghost v_before = doc_view(*d);
        let name = &keys[i];
        match entry_str(d, sect, name.as_str()) {
            Some(_) => {
                set_entry_str(d, sect, name.as_str(), version);
            },
            None => {
                if entry_is_table(d, sect, name.as_str()) {
                    set_entry_field_str(d, sect, name.as_str(), "version", version);
                }
            },
        }
        proof {
            assert(doc_view(*d) == spec_propagate_one(v_before, sect@, keys@[i as int]@, version@));
            assert(keys@.skip(i as int)[0] == keys@[i as int]);
            assert(keys@.skip(i as int).drop_first() =~= keys@.skip(i + 1));
        }
        i = i + 1;
    }
}

/// Law: a dependency written with a `git` reference carries `git` and
/// `branch`, and no `version` or `path` field — whatever source fields an
/// earlier run, of either kind, had left on the entry.
pub proof fn lemma_git_reference_has_no_path_fields(
    v: DocView,
    s: Seq<char>,
    n: Seq<char>,
    url: Seq<char>,
    branch: Seq<char>,
)
    requires
        !spec_sect_conflict(v, s),
    ensures
        ({
            let fm = entry_fields(
                spec_add_dependency(v, s, n, FrameworkRefView::GitRef { url, branch }),
                s,
                n,
            );
            &&& fm is Some
            &&& !fm->0.contains_key("version"@)
            &&& !fm->0.contains_key("path"@)
            &&& fm->0.contains_key("git"@) && fm->0["git"@] == FieldVal::FStr(url)
            &&& fm->0.contains_key("branch"@) && fm->0["branch"@] == FieldVal::FStr(branch)
        }),
{
    reveal_strlit("git");
    reveal_strlit("branch");
    reveal_strlit("version");
    reveal_strlit("path");
    assert("git"@.len() == 3 && "branch"@.len() == 6 && "version"@.len() == 7 && "path"@.len()
        == 4);
}

/// Law: a dependency written with a `path`-and-`version` reference carries
/// `version` and `path`, and no `git` or `branch` field — whatever source
/// fields an earlier run, of either kind, had left on the entry.
pub proof fn lemma_path_reference_has_no_git_fields(
    v: DocView,
    s: Seq<char>,
    n: Seq<char>,
    path: Seq<char>,
    version: Seq<char>,
)
    requires
        !spec_sect_conflict(v, s),
    ensures
        ({
            let fm = entry_fields(
                spec_add_dependency(v, s, n, FrameworkRefView::PathRef { path, version }),
                s,
                n,
            );
            &&& fm is Some
            &&& !fm->0.contains_key("git"@)
            &&& !fm->0.contains_key("branch"@)
            &&& fm->0.contains_key("version"@) && fm->0["version"@] == FieldVal::FStr(version)
            &&& fm->0.contains_key("path"@) && fm->0["path"@] == FieldVal::FStr(path)
        }),
{
    reveal_strlit("git");
    reveal_strlit("branch");
    reveal_strlit("version");
    reveal_strlit("path");
    assert("git"@.len() == 3 && "branch"@.len() == 6 && "version"@.len() == 7 && "path"@.len()
        == 4);
}

/// Law: writing the same dependency reference twice yields the same
/// document as writing it once — the second run updates every source field
/// in place to the value it already has.
pub proof fn lemma_add_dependency_idempotent(
    v: DocView,
    s: Seq<char>,
    n: Seq<char>,
    fr: FrameworkRefView,
)
    ensures
        spec_add_dependency(spec_add_dependency(v, s, n, fr), s, n, fr) == spec_add_dependency(
            v,
            s,
            n,
            fr,
        ),
{
    reveal_strlit("git");
    reveal_strlit("branch");
    reveal_strlit("version");
    reveal_strlit("path");
    assert("git"@.len() == 3 && "branch"@.len() == 6 && "version"@.len() == 7 && "path"@.len()
        == 4);
    let v1 = spec_add_dependency(v, s, n, fr);
    if !spec_sect_conflict(v, s) {
        let m1 = spec_sect_base(v1, s);
        let e1 = spec_entry_base(m1, n);
        assert(spec_dep_fields(e1, fr) =~= e1);
        assert(spec_add_dependency(v1, s, n, fr) =~~= v1);
    }
}

/// Law: granting the anchor feature twice yields the same document as
/// granting it once — the second run overwrites the feature list with the
/// value it already has.
pub proof fn lemma_set_anchor_feature_idempotent(
    v: DocView,
    s: Seq<char>,
    n: Seq<char>,
    is_anchor: bool,
)
    ensures
        spec_set_anchor_feature(spec_set_anchor_feature(v, s, n, is_anchor), s, n, is_anchor)
            == spec_set_anchor_feature(v, s, n, is_anchor),
{
    let v1 = spec_set_anchor_feature(v, s, n, is_anchor);
    if is_anchor && !spec_anchor_conflict(v, s, n) {
        let m1 = spec_sect_base(v1, s);
        let e1 = spec_entry_base(m1, n);
        assert(e1.insert("features"@, FieldVal::FArr(seq!["anchor"@])) =~= e1);
        assert(spec_set_anchor_feature(v1, s, n, is_anchor) =~~= v1);
    }
}

} // verus!

//! The logical view of a manifest document.
//!
//! A manifest is a tree of named sections; the pipeline only ever reads and
//! writes three levels of it: a top-level section, an entry inside a section,
//! and a field inside an entry. The view keeps exactly the shapes the logic
//! distinguishes — strings, arrays of strings, and table-like values — and
//! folds everything else into an opaque case. Key order and formatting are
//! carried by the underlying document, not by this view: the view decides
//! *what* each key maps to, never how it is laid out.

use vstd::prelude::*;

verus! {

/// A field inside a dependency entry, such as `version`, `path`, `git`,
/// `branch` or `features`.
#[verifier::ext_equal]
pub enum FieldVal {
    /// A string value.
    FStr(Seq<char>),
    /// An array whose items are all strings.
    FArr(Seq<Seq<char>>),
    /// Any other shape; the pipeline never reads inside it.
    FOther,
}

/// An entry inside a section: a dependency, or a feature flag.
#[verifier::ext_equal]
pub enum EntryVal {
    /// A bare scalar, e.g. a dependency declared as `name = "1.0"`.
    EStr(Seq<char>),
    /// An array whose items are all strings, e.g. a feature flag's list.
    EArr(Seq<Seq<char>>),
    /// A table-like entry, e.g. `name = { version = "1.0" }`.
    ETable(Map<Seq<char>, FieldVal>),
    /// Any other shape; the pipeline never reads inside it.
    EOther,
}

/// A top-level section of the manifest.
#[verifier::ext_equal]
pub enum SectionVal {
    /// A table-like section, mapping entry names to entry values.
    STable(Map<Seq<char>, EntryVal>),
    /// A top-level key of any other shape.
    SOther,
}

/// The whole document: top-level keys to section values.
pub type DocView = Map<Seq<char>, SectionVal>;

/// The entries of section `s`, when that section exists and is table-like.
pub open spec fn sec_entries(v: DocView, s: Seq<char>) -> Option<Map<Seq<char>, EntryVal>> {
    if v.contains_key(s) {
        match v[s] {
            SectionVal::STable(m) => Some(m),
            SectionVal::SOther => None,
        }
    } else {
        None
    }
}

/// The value of entry `n` of section `s`, when present.
pub open spec fn entry_of(v: DocView, s: Seq<char>, n: Seq<char>) -> Option<EntryVal> {
    match sec_entries(v, s) {
        Some(m) => if m.contains_key(n) {
            Some(m[n])
        } else {
            None
        },
        None => None,
    }
}

/// The fields of entry `n` of section `s`, when that entry is table-like.
pub open spec fn entry_fields(v: DocView, s: Seq<char>, n: Seq<char>) -> Option<
    Map<Seq<char>, FieldVal>,
> {
    match entry_of(v, s, n) {
        Some(EntryVal::ETable(fm)) => Some(fm),
        _ => None,
    }
}

/// The value of field `f` of entry `n` of section `s`, when present.
pub open spec fn field_of(v: DocView, s: Seq<char>, n: Seq<char>, f: Seq<char>) -> Option<
    FieldVal,
> {
    match entry_fields(v, s, n) {
        Some(fm) => if fm.contains_key(f) {
            Some(fm[f])
        } else {
            None
        },
        None => None,
    }
}

/// The document with entry `n` of section `s` set to `e`.
/// Meaningful when the section exists and is table-like.
pub open spec fn with_entry(v: DocView, s: Seq<char>, n: Seq<char>, e: EntryVal) -> DocView
    recommends
        sec_entries(v, s) is Some,
{
    v.insert(s, SectionVal::STable(sec_entries(v, s)->0.insert(n, e)))
}

/// The document with field `f` of entry `n` of section `s` set to `fv`.
/// Meaningful when that entry exists and is table-like.
pub open spec fn with_field(
    v: DocView,
    s: Seq<char>,
    n: Seq<char>,
    f: Seq<char>,
    fv: FieldVal,
) -> DocView
    recommends
        entry_fields(v, s, n) is Some,
{
    with_entry(v, s, n, EntryVal::ETable(entry_fields(v, s, n)->0.insert(f, fv)))
}

/// The document with field `f` removed from entry `n` of section `s`.
/// Meaningful when that entry exists and is table-like.
pub open spec fn without_field(v: DocView, s: Seq<char>, n: Seq<char>, f: Seq<char>) -> DocView
    recommends
        entry_fields(v, s, n) is Some,
{
    with_entry(v, s, n, EntryVal::ETable(entry_fields(v, s, n)->0.remove(f)))
}

} // verus!

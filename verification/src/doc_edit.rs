//! The trusted boundary around `toml_edit`.
//!
//! The manifest is held as a `toml_edit::DocumentMut`, so that comments,
//! whitespace and key order of everything the pipeline does not touch are
//! preserved on serialization. The document is opaque here: `doc_view` names
//! its logical content, and each wrapper below states — over that view — what
//! one `toml_edit` operation reads or changes. Everything that decides or
//! composes is verified elsewhere against these contracts.
//!
//! View conventions, shared by every contract in this file:
//! - a key is present in the view exactly when the document holds a real
//!   (non-placeholder) item for it;
//! - `STable`/`ETable` stand for any table-like value (a regular table or an
//!   inline table), since `toml_edit` lets both be indexed the same way;
//! - strings and arrays-of-strings are kept; every other shape is `*Other`.

use vstd::prelude::*;

use crate::model::{
    DocView, EntryVal, FieldVal, SectionVal, entry_fields, entry_of, field_of, sec_entries,
    with_entry, with_field, without_field,
};

verus! {

#[verifier::external_type_specification]
#[verifier::external_body]
pub struct ExDocumentMut(toml_edit::DocumentMut);

/// The logical content of a document: which keys it holds and what shape and
/// string content each has. Formatting and key order are not part of it.
pub uninterp spec fn doc_view(d: toml_edit::DocumentMut) -> DocView;

/// The text that the document serializes to, with all formatting.
pub uninterp spec fn doc_text(d: toml_edit::DocumentMut) -> Seq<char>;

/// Whether a text is well-formed TOML: parsing succeeds on it.
pub uninterp spec fn toml_parses(text: Seq<char>) -> bool;

/// The logical content denoted by a well-formed manifest text.
pub uninterp spec fn parsed_view(text: Seq<char>) -> DocView;

/// The text that one top-level entry of a document serializes to; edits of
/// one top-level entry leave every other entry's text as it was.
pub uninterp spec fn section_text(d: toml_edit::DocumentMut, key: Seq<char>) -> Seq<char>;

/// The serialized text that one top-level entry of a well-formed manifest
/// text parses to.
pub uninterp spec fn source_section_text(text: Seq<char>, key: Seq<char>) -> Seq<char>;

/// The text does not begin with a byte-order mark. The TOML lexer silently
/// skips a leading byte-order mark, so it is the one part of a well-formed
/// input that serialization does not reproduce.
pub open spec fn spec_bom_free(text: Seq<char>) -> bool {
    text.len() == 0 || text[0] != '\u{feff}'
}

/// Relies on `toml_edit::DocumentMut::from_str`: parsing succeeds exactly
/// on well-formed TOML and yields the document the text denotes, with each
/// top-level entry carrying its source text. `toml_edit` is
/// format-preserving: a parsed document serializes back to the exact input
/// text — except for a leading byte-order mark, which the lexer skips and
/// serialization therefore drops.
#[verifier::external_body]
pub(crate) fn parse_document(text: &str) -> (r: Option<toml_edit::DocumentMut>)
    ensures
        r is Some <==> toml_parses(text@),
        (match r {
            Some(d) => {
                &&& doc_view(d) == parsed_view(text@)
                &&& spec_bom_free(text@) ==> doc_text(d) == text@
                &&& forall|k: Seq<char>| #[trigger] section_text(d, k) == source_section_text(
                    text@,
                    k,
                )
            },
            None => true,
        }),
{
    match text.parse::<toml_edit::DocumentMut>() {
        Ok(d) => Some(d),
        Err(_) => None,
    }
}

/// Relies on `toml_edit::DocumentMut`'s `Display`: serializes the whole
/// document, reproducing the formatting of everything left unedited. What
/// it writes is itself well-formed TOML that denotes the same content: the
/// encoder quotes and escapes every key and string it emits.
#[verifier::external_body]
pub(crate) fn render_document(d: &toml_edit::DocumentMut) -> (r: String)
    ensures
        r@ == doc_text(*d),
        toml_parses(r@),
        parsed_view(r@) == doc_view(*d),
{
    d.to_string()
}

/// Relies on `toml_edit::Table::get` (through the document's root table):
/// a top-level key is found exactly when the document holds it.
#[verifier::external_body]
pub(crate) fn doc_has_key(d: &toml_edit::DocumentMut, key: &str) -> (r: bool)
    ensures
        r == doc_view(*d).contains_key(key@),
{
    d.get(key).is_some()
}

/// Relies on `toml_edit::Table::get` and `toml_edit::Item::is_table_like`:
/// whether a top-level key holds a table or an inline table.
#[verifier::external_body]
pub(crate) fn section_is_table(d: &toml_edit::DocumentMut, key: &str) -> (r: bool)
    ensures
        r == (sec_entries(doc_view(*d), key@) is Some),
{
    match d.get(key) {
        Some(item) => item.is_table_like(),
        None => false,
    }
}

/// Relies on `toml_edit::Table::get` and `toml_edit::Item::get`: an entry is
/// found exactly when its section is table-like and holds it.
#[verifier::external_body]
pub(crate) fn entry_exists(d: &toml_edit::DocumentMut, sect: &str, name: &str) -> (r: bool)
    ensures
        r == (entry_of(doc_view(*d), sect@, name@) is Some),
{
    match d.get(sect) {
        Some(section) => section.get(name).is_some(),
        None => false,
    }
}

/// Relies on `toml_edit::Item::get` and `toml_edit::Item::is_table_like`:
/// whether an entry holds a table or an inline table.
#[verifier::external_body]
pub(crate) fn entry_is_table(d: &toml_edit::DocumentMut, sect: &str, name: &str) -> (r: bool)
    ensures
        r == (entry_fields(doc_view(*d), sect@, name@) is Some),
{
    match d.get(sect) {
        Some(section) => match section.get(name) {
            Some(item) => item.is_table_like(),
            None => false,
        },
        None => false,
    }
}

/// Relies on `toml_edit::Item::as_str`: the string value of an entry that is
/// a bare scalar string, and nothing for any other shape.
#[verifier::external_body]
pub(crate) fn entry_str(d: &toml_edit::DocumentMut, sect: &str, name: &str) -> (r: Option<String>)
    ensures
        (match entry_of(doc_view(*d), sect@, name@) {
            Some(EntryVal::EStr(s)) => r matches Some(x) && x@ == s,
            _ => r is None,
        }),
{
    match d.get(sect) {
        Some(section) => match section.get(name) {
            Some(item) => match item.as_str() {
                Some(s) => Some(s.to_string()),
                None => None,
            },
            None => None,
        },
        None => None,
    }
}

/// Relies on `toml_edit::Item::get` and `toml_edit::Item::as_str`: the string
/// value of one field of a table-like entry, and nothing for any other shape.
#[verifier::external_body]
pub(crate) fn entry_field_str(
    d: &toml_edit::DocumentMut,
    sect: &str,
    name: &str,
    field: &str,
) -> (r: Option<String>)
    ensures
        (match field_of(doc_view(*d), sect@, name@, field@) {
            Some(FieldVal::FStr(s)) => r matches Some(x) && x@ == s,
            _ => r is None,
        }),
{
    match d.get(sect) {
        Some(section) => match section.get(name) {
            Some(entry) => match entry.get(field) {
                Some(f) => match f.as_str() {
                    Some(s) => Some(s.to_string()),
                    None => None,
                },
                None => None,
            },
            None => None,
        },
        None => None,
    }
}

/// Relies on `toml_edit`'s `IndexMut` on the root table and `table()`: sets a
/// top-level key to a fresh empty table, replacing whatever was there and
/// leaving every other top-level entry — its value and its text — as it was.
#[verifier::external_body]
pub(crate) fn set_root_table(d: &mut toml_edit::DocumentMut, key: &str)
    ensures
        doc_view(*final(d)) == doc_view(*old(d)).insert(
            key@,
            SectionVal::STable(Map::empty()),
        ),
        forall|other: Seq<char>|
            other != key@ ==> #[trigger] section_text(*final(d), other) == section_text(
                *old(d),
                other,
            ),
{
    d[key] = toml_edit::table();
}

/// Relies on `toml_edit`'s `IndexMut` and `value()`: sets an entry of a
/// table-like section to a string scalar, replacing whatever was there and
/// leaving every other top-level entry's text as it was.
#[verifier::external_body]
pub(crate) fn set_entry_str(d: &mut toml_edit::DocumentMut, sect: &str, name: &str, val: &str)
    requires
        sec_entries(doc_view(*old(d)), sect@) is Some,
    ensures
        doc_view(*final(d)) == with_entry(
            doc_view(*old(d)),
            sect@,
            name@,
            EntryVal::EStr(val@),
        ),
        forall|other: Seq<char>|
            other != sect@ ==> #[trigger] section_text(*final(d), other) == section_text(
                *old(d),
                other,
            ),
{
    d[sect][name] = toml_edit::value(val);
}

/// Relies on `toml_edit`'s `IndexMut`, `value()` and `Array::new`: sets an
/// entry of a table-like section to an empty array, replacing whatever was
/// there and leaving every other top-level entry's text as it was.
#[verifier::external_body]
pub(crate) fn set_entry_empty_array(d: &mut toml_edit::DocumentMut, sect: &str, name: &str)
    requires
        sec_entries(doc_view(*old(d)), sect@) is Some,
    ensures
        doc_view(*final(d)) == with_entry(
            doc_view(*old(d)),
            sect@,
            name@,
            EntryVal::EArr(Seq::empty()),
        ),
        forall|other: Seq<char>|
            other != sect@ ==> #[trigger] section_text(*final(d), other) == section_text(
                *old(d),
                other,
            ),
{
    d[sect][name] = toml_edit::value(toml_edit::Array::new());
}

/// Relies on `toml_edit`'s `IndexMut`, `value()` and `InlineTable::new`: sets
/// an entry of a table-like section to an empty inline table, replacing
/// whatever was there and leaving every other top-level entry's text as it
/// was.
#[verifier::external_body]
pub(crate) fn set_entry_empty_table(d: &mut toml_edit::DocumentMut, sect: &str, name: &str)
    requires
        sec_entries(doc_view(*old(d)), sect@) is Some,
    ensures
        doc_view(*final(d)) == with_entry(
            doc_view(*old(d)),
            sect@,
            name@,
            EntryVal::ETable(Map::empty()),
        ),
        forall|other: Seq<char>|
            other != sect@ ==> #[trigger] section_text(*final(d), other) == section_text(
                *old(d),
                other,
            ),
{
    d[sect][name] = toml_edit::value(toml_edit::InlineTable::new());
}

/// Relies on `toml_edit`'s `IndexMut` and `value()`: sets one field of a
/// table-like entry to a string, leaving the entry's other fields unchanged
/// and every other top-level entry's text as it was.
#[verifier::external_body]
pub(crate) fn set_entry_field_str(
    d: &mut toml_edit::DocumentMut,
    sect: &str,
    name: &str,
    field: &str,
    val: &str,
)
    requires
        entry_fields(doc_view(*old(d)), sect@, name@) is Some,
    ensures
        doc_view(*final(d)) == with_field(
            doc_view(*old(d)),
            sect@,
            name@,
            field@,
            FieldVal::FStr(val@),
        ),
        forall|other: Seq<char>|
            other != sect@ ==> #[trigger] section_text(*final(d), other) == section_text(
                *old(d),
                other,
            ),
{
    d[sect][name][field] = toml_edit::value(val);
}

/// Relies on `toml_edit`'s `IndexMut`, `value()` and `Array::push`: sets one
/// field of a table-like entry to a one-item string array, leaving the
/// entry's other fields unchanged and every other top-level entry's text as
/// it was.
#[verifier::external_body]
pub(crate) fn set_entry_field_singleton_array(
    d: &mut toml_edit::DocumentMut,
    sect: &str,
    name: &str,
    field: &str,
    item: &str,
)
    requires
        entry_fields(doc_view(*old(d)), sect@, name@) is Some,
    ensures
        doc_view(*final(d)) == with_field(
            doc_view(*old(d)),
            sect@,
            name@,
            field@,
            FieldVal::FArr(seq![item@]),
        ),
        forall|other: Seq<char>|
            other != sect@ ==> #[trigger] section_text(*final(d), other) == section_text(
                *old(d),
                other,
            ),
{
    let mut arr = toml_edit::Array::new();
    arr.push(item);
    d[sect][name][field] = toml_edit::value(arr);
}

/// Relies on `toml_edit::Item::as_table_like_mut` and `TableLike::remove`:
/// removes one field of a table-like entry, leaving its other fields
/// unchanged and every other top-level entry's text as it was.
#[verifier::external_body]
pub(crate) fn remove_entry_field(
    d: &mut toml_edit::DocumentMut,
    sect: &str,
    name: &str,
    field: &str,
)
    requires
        entry_fields(doc_view(*old(d)), sect@, name@) is Some,
    ensures
        doc_view(*final(d)) == without_field(doc_view(*old(d)), sect@, name@, field@),
        forall|other: Seq<char>|
            other != sect@ ==> #[trigger] section_text(*final(d), other) == section_text(
                *old(d),
                other,
            ),
{
    d[sect][name].as_table_like_mut().unwrap().remove(field);
}

} // verus!

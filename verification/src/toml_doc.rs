//! The TOML face of a metadata block, seen as pure functions of its text.
//!
//! Front matter is kept as formatted text; `toml_edit` parses it, reads
//! single fields and applies single-field patches while preserving every
//! other byte of formatting.  Each operation below is a thin trusted
//! wrapper around `toml_edit`, specified against uninterpreted functions
//! of the text: parsing is deterministic, so what a field of a given text
//! holds is a function of that text alone.
//!
//! Reads distinguish exactly what the processing rules need: a top-level
//! field that is absent, present as a string, or present as something
//! else; a nested string, boolean or array-of-maybe-strings under a
//! top-level table; and whether a top-level key could accept a nested
//! assignment at all (absent or table-like), since `toml_edit`'s index
//! operator panics otherwise.

use vstd::prelude::*;

verus! {

/// Whether the text parses as a TOML document.
pub uninterp spec fn toml_ok(t: Seq<char>) -> bool;

/// The top-level field `key` of the document `t`: `None` when absent,
/// `Some(None)` when present but not a string, `Some(Some(s))` when it is
/// the string `s`.
pub uninterp spec fn top_field_of(t: Seq<char>, key: Seq<char>) -> Option<Option<Seq<char>>>;

/// The top-level field `key` as a boolean: `None` when absent or not a
/// boolean.
pub uninterp spec fn top_bool_of(t: Seq<char>, key: Seq<char>) -> Option<bool>;

/// Whether the top-level key `key` is absent or holds a table-like value,
/// so that a nested field may be written beneath it.
pub uninterp spec fn top_table_ok(t: Seq<char>, key: Seq<char>) -> bool;

/// The string at `outer.key`: `None` when the path is absent or the value
/// is not a string.
pub uninterp spec fn nested_str_of(t: Seq<char>, outer: Seq<char>, key: Seq<char>) -> Option<
    Seq<char>,
>;

/// The boolean at `outer.key`: `None` when the path is absent or the
/// value is not a boolean.
pub uninterp spec fn nested_bool_of(t: Seq<char>, outer: Seq<char>, key: Seq<char>) -> Option<
    bool,
>;

/// The array at `outer.key`, each element as `Some(string)` or `None` for
/// a non-string element; `None` when the path is absent or the value is
/// not an array.
pub uninterp spec fn nested_array_of(t: Seq<char>, outer: Seq<char>, key: Seq<char>) -> Option<
    Seq<Option<Seq<char>>>,
>;

/// Relies on `str::parse::<toml_edit::DocumentMut>`: whether the text is
/// a valid TOML document.
#[verifier::external_body]
pub(crate) fn toml_check(text: &str) -> (r: bool)
    ensures
        r == toml_ok(text@),
{
    text.parse::<toml_edit::DocumentMut>().is_ok()
}

/// Relies on `toml_edit::Table::get` and `Item::as_str`: reads a
/// top-level field and tells a string value apart from any other.
#[verifier::external_body]
pub(crate) fn toml_top_field(text: &str, key: &str) -> (r: Option<Option<String>>)
    requires
        toml_ok(text@),
    ensures
        r.deep_view() == top_field_of(text@, key@),
{
    let doc = text.parse::<toml_edit::DocumentMut>().unwrap();
    match doc.get(key) {
        None => None,
        Some(item) => match item.as_str() {
            None => Some(None),
            Some(s) => Some(Some(s.to_owned())),
        },
    }
}

/// Relies on `toml_edit::Table::get` and `Item::as_bool`: reads a
/// top-level boolean field.
#[verifier::external_body]
pub(crate) fn toml_top_bool(text: &str, key: &str) -> (r: Option<bool>)
    requires
        toml_ok(text@),
    ensures
        r == top_bool_of(text@, key@),
{
    let doc = text.parse::<toml_edit::DocumentMut>().unwrap();
    match doc.get(key) {
        None => None,
        Some(item) => item.as_bool(),
    }
}

/// Relies on `toml_edit::Table::get` and `Item::is_table_like`: whether a
/// nested assignment under `key` would be accepted.
#[verifier::external_body]
pub(crate) fn toml_top_table_ok(text: &str, key: &str) -> (r: bool)
    requires
        toml_ok(text@),
    ensures
        r == top_table_ok(text@, key@),
{
    let doc = text.parse::<toml_edit::DocumentMut>().unwrap();
    match doc.get(key) {
        None => true,
        Some(item) => item.is_table_like(),
    }
}

/// Relies on `toml_edit::Table::get`, `Item::get` and `Item::as_str`:
/// reads the string at `outer.key`.
#[verifier::external_body]
pub(crate) fn toml_nested_str(text: &str, outer: &str, key: &str) -> (r: Option<String>)
    requires
        toml_ok(text@),
    ensures
        r.deep_view() == nested_str_of(text@, outer@, key@),
{
    let doc = text.parse::<toml_edit::DocumentMut>().unwrap();
    match doc.get(outer) {
        None => None,
        Some(o) => match o.get(key) {
            None => None,
            Some(item) => match item.as_str() {
                None => None,
                Some(s) => Some(s.to_owned()),
            },
        },
    }
}

/// Relies on `toml_edit::Table::get`, `Item::get` and `Item::as_bool`:
/// reads the boolean at `outer.key`.
#[verifier::external_body]
pub(crate) fn toml_nested_bool(text: &str, outer: &str, key: &str) -> (r: Option<bool>)
    requires
        toml_ok(text@),
    ensures
        r == nested_bool_of(text@, outer@, key@),
{
    let doc = text.parse::<toml_edit::DocumentMut>().unwrap();
    match doc.get(outer) {
        None => None,
        Some(o) => match o.get(key) {
            None => None,
            Some(item) => item.as_bool(),
        },
    }
}

/// Relies on `toml_edit::Item::as_array` and `Array::iter`: reads the
/// array at `outer.key`, each element converted to its string value or
/// `None`.
#[verifier::external_body]
pub(crate) fn toml_nested_array(text: &str, outer: &str, key: &str) -> (r: Option<
    Vec<Option<String>>,
>)
    requires
        toml_ok(text@),
    ensures
        r.deep_view() == nested_array_of(text@, outer@, key@),
{
    let doc = text.parse::<toml_edit::DocumentMut>().unwrap();
    let arr = match doc.get(outer) {
        None => None,
        Some(o) => match o.get(key) {
            None => None,
            Some(item) => item.as_array(),
        },
    };
    arr.map(|a| a.iter().map(|v| v.as_str().map(|s| s.to_owned())).collect())
}

/// Relies on `toml_edit`'s index operator and `DocumentMut::to_string`:
/// sets `outer.key` to the string `val`, touching no other field, and
/// re-encodes the document.  `toml_edit` preserves the formatting of
/// everything it does not touch, and its encoder emits a document that
/// parses back to the same fields.
#[verifier::external_body]
pub(crate) fn toml_set_nested_str(text: &str, outer: &str, key: &str, val: &str) -> (r: String)
    requires
        toml_ok(text@),
        top_table_ok(text@, outer@),
    ensures
        toml_ok(r@),
        nested_str_of(r@, outer@, key@) == Some(val@),
        nested_bool_of(r@, outer@, key@) == None::<bool>,
        nested_array_of(r@, outer@, key@) == None::<Seq<Option<Seq<char>>>>,
        forall|o: Seq<char>, k: Seq<char>|
            !(o == outer@ && k == key@) ==> nested_str_of(r@, o, k) == nested_str_of(text@, o, k)
                && nested_bool_of(r@, o, k) == nested_bool_of(text@, o, k) && nested_array_of(
                r@,
                o,
                k,
            ) == nested_array_of(text@, o, k),
        forall|k: Seq<char>|
            k != outer@ ==> top_field_of(r@, k) == top_field_of(text@, k) && top_bool_of(r@, k)
                == top_bool_of(text@, k) && top_table_ok(r@, k) == top_table_ok(text@, k),
        top_table_ok(r@, outer@),
{
    let mut doc = text.parse::<toml_edit::DocumentMut>().unwrap();
    doc[outer][key] = toml_edit::value(val);
    doc.to_string()
}

/// Relies on `toml_edit`'s index operator, `Array::push` and
/// `DocumentMut::to_string`: sets `outer.key` to a one-element array
/// holding `item`, touching no other field.
#[verifier::external_body]
pub(crate) fn toml_set_nested_singleton_array(text: &str, outer: &str, key: &str, item: &str) -> (r:
    String)
    requires
        toml_ok(text@),
        top_table_ok(text@, outer@),
    ensures
        toml_ok(r@),
        nested_array_of(r@, outer@, key@) == Some(seq![Some(item@)]),
        nested_str_of(r@, outer@, key@) == None::<Seq<char>>,
        nested_bool_of(r@, outer@, key@) == None::<bool>,
        forall|o: Seq<char>, k: Seq<char>|
            !(o == outer@ && k == key@) ==> nested_str_of(r@, o, k) == nested_str_of(text@, o, k)
                && nested_bool_of(r@, o, k) == nested_bool_of(text@, o, k) && nested_array_of(
                r@,
                o,
                k,
            ) == nested_array_of(text@, o, k),
        forall|k: Seq<char>|
            k != outer@ ==> top_field_of(r@, k) == top_field_of(text@, k) && top_bool_of(r@, k)
                == top_bool_of(text@, k) && top_table_ok(r@, k) == top_table_ok(text@, k),
        top_table_ok(r@, outer@),
{
    let mut doc = text.parse::<toml_edit::DocumentMut>().unwrap();
    let mut array = toml_edit::Array::new();
    array.push(item);
    doc[outer][key] = toml_edit::value(array);
    doc.to_string()
}

/// Relies on `toml_edit::Item::as_array_mut` and `Array::push`: appends
/// `item` to the existing array at `outer.key`, touching no other field.
#[verifier::external_body]
pub(crate) fn toml_push_nested_array(text: &str, outer: &str, key: &str, item: &str) -> (r: String)
    requires
        toml_ok(text@),
        nested_array_of(text@, outer@, key@) is Some,
    ensures
        toml_ok(r@),
        nested_array_of(r@, outer@, key@) == Some(
            nested_array_of(text@, outer@, key@)->Some_0.push(Some(item@)),
        ),
        nested_str_of(r@, outer@, key@) == None::<Seq<char>>,
        nested_bool_of(r@, outer@, key@) == None::<bool>,
        forall|o: Seq<char>, k: Seq<char>|
            !(o == outer@ && k == key@) ==> nested_str_of(r@, o, k) == nested_str_of(text@, o, k)
                && nested_bool_of(r@, o, k) == nested_bool_of(text@, o, k) && nested_array_of(
                r@,
                o,
                k,
            ) == nested_array_of(text@, o, k),
        forall|k: Seq<char>|
            k != outer@ ==> top_field_of(r@, k) == top_field_of(text@, k) && top_bool_of(r@, k)
                == top_bool_of(text@, k) && top_table_ok(r@, k) == top_table_ok(text@, k),
        top_table_ok(r@, outer@),
{
    let mut doc = text.parse::<toml_edit::DocumentMut>().unwrap();
    doc.get_mut(outer).unwrap().get_mut(key).unwrap().as_array_mut().unwrap().push(item);
    doc.to_string()
}

} // verus!

//! Reading the members of a document into typed fields.
//!
//! A field is overlaid from a document: where the document has no member
//! under the field's key, the field keeps the value it had; where it has
//! one, the member must have the field's type, and the field takes its
//! value. A member of another type is a mismatch, and nothing is read.
use crate::json::{Json, JsonView};
use vstd::prelude::*;

verus! {

/// Why a configuration could not be read.
#[derive(Debug, PartialEq, Eq, Clone, Copy)]
pub enum LoadError {
    /// The text is not a JSON document.
    Syntax,
    /// The document does not have the shape of the configuration: a value
    /// of another type stands where a typed field is read.
    Mismatch,
}

/// The view of an optional text.
pub open spec fn text_view(text: Option<String>) -> Option<Seq<char>> {
    match text {
        Some(s) => Some(s@),
        None => None,
    }
}

/// A field that takes any value: the member under `key`, else `kept`.
pub open spec fn open_member(doc: JsonView, key: Seq<char>, kept: JsonView) -> JsonView {
    match doc.member(key) {
        Some(found) => found,
        None => kept,
    }
}

/// A text field: the text of the string under `key`, `kept` where there is
/// no member, `None` where the member is not a string.
pub open spec fn text_member(doc: JsonView, key: Seq<char>, kept: Seq<char>) -> Option<Seq<char>> {
    match doc.member(key) {
        Some(found) => found.as_text(),
        None => Some(kept),
    }
}

/// A boolean field: the truth value under `key`, `kept` where there is no
/// member, `None` where the member is not a boolean.
pub open spec fn flag_member(doc: JsonView, key: Seq<char>, kept: bool) -> Option<bool> {
    match doc.member(key) {
        Some(found) => found.as_flag(),
        None => Some(kept),
    }
}

/// A text field that may be unset: unset by a null member, set by a string,
/// `kept` where there is no member, `None` for a member of any other type.
pub open spec fn optional_text_member(
    doc: JsonView,
    key: Seq<char>,
    kept: Option<Seq<char>>,
) -> Option<Option<Seq<char>>> {
    match doc.member(key) {
        Some(JsonView::Null) => Some(None),
        Some(found) => match found.as_text() {
            Some(s) => Some(Some(s)),
            None => None,
        },
        None => Some(kept),
    }
}

/// An integer field that may be unset: unset by a null member, set by a
/// number that is an integer, `kept` where there is no member, `None` for a
/// member of any other type and for a number that is no integer.
pub open spec fn optional_integer_member(
    doc: JsonView,
    key: Seq<char>,
    kept: Option<i128>,
) -> Option<Option<i128>> {
    match doc.member(key) {
        Some(JsonView::Null) => Some(None),
        Some(found) => match found.as_integer() {
            Some(i) => Some(Some(i)),
            None => None,
        },
        None => Some(kept),
    }
}

/// A list of open values: the items of the array under `key`, `kept` where
/// there is no member, `None` where the member is not an array.
pub open spec fn items_member(doc: JsonView, key: Seq<char>, kept: Seq<JsonView>) -> Option<
    Seq<JsonView>,
> {
    match doc.member(key) {
        Some(found) => found.as_items(),
        None => Some(kept),
    }
}

/// Reads a field that takes any value.
pub fn read_open(doc: &Json, key: &str, kept: Json) -> (r: Json)
    ensures
        r@ == open_member(doc@, key@, kept@),
{
    match doc.get(key) {
        Some(found) => found.clone(),
        None => kept,
    }
}

/// Reads a text field.
pub fn read_text(doc: &Json, key: &str, kept: String) -> (r: Result<String, LoadError>)
    ensures
        match text_member(doc@, key@, kept@) {
            Some(text) => r matches Ok(s) && s@ == text,
            None => r matches Err(LoadError::Mismatch),
        },
{
    match doc.get(key) {
        Some(found) => match found.as_text() {
            Some(s) => Ok(s.clone()),
            None => Err(LoadError::Mismatch),
        },
        None => Ok(kept),
    }
}

/// Reads a boolean field.
pub fn read_flag(doc: &Json, key: &str, kept: bool) -> (r: Result<bool, LoadError>)
    ensures
        match flag_member(doc@, key@, kept) {
            Some(flag) => r matches Ok(b) && b == flag,
            None => r matches Err(LoadError::Mismatch),
        },
{
    match doc.get(key) {
        Some(found) => match found.as_flag() {
            Some(b) => Ok(b),
            None => Err(LoadError::Mismatch),
        },
        None => Ok(kept),
    }
}

/// Reads a text field that may be unset.
pub fn read_optional_text(doc: &Json, key: &str, kept: Option<String>) -> (r: Result<
    Option<String>,
    LoadError,
>)
    ensures
        match optional_text_member(doc@, key@, text_view(kept)) {
            Some(text) => r matches Ok(s) && text_view(s) == text,
            None => r matches Err(LoadError::Mismatch),
        },
{
    match doc.get(key) {
        Some(found) => {
            if found.is_null() {
                Ok(None)
            } else {
                match found.as_text() {
                    Some(s) => Ok(Some(s.clone())),
                    None => Err(LoadError::Mismatch),
                }
            }
        },
        None => Ok(kept),
    }
}

/// Reads an integer field that may be unset.
pub fn read_optional_integer(doc: &Json, key: &str, kept: Option<i128>) -> (r: Result<
    Option<i128>,
    LoadError,
>)
    ensures
        match optional_integer_member(doc@, key@, kept) {
            Some(value) => r matches Ok(i) && i == value,
            None => r matches Err(LoadError::Mismatch),
        },
{
    match doc.get(key) {
        Some(found) => {
            if found.is_null() {
                Ok(None)
            } else {
                match found.as_integer() {
                    Some(i) => Ok(Some(i)),
                    None => Err(LoadError::Mismatch),
                }
            }
        },
        None => Ok(kept),
    }
}

} // verus!

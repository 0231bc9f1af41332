//! What this library takes on trust from `serde_json`.
//!
//! Nothing in this file is proved. Each item states, in terms of the
//! mathematical tree `JsonView`, what one type or function of `serde_json`
//! is or does; the rest of the library is verified against these statements.
//! They hold for `serde_json` built with its default features, where an
//! object is a map ordered by key.
use crate::json::JsonView;
use vstd::prelude::*;

verus! {

/// `serde_json::Value`, a parsed JSON value. Opaque here: what it holds is
/// only known through `value_tree`.
#[verifier::external_type_specification]
#[verifier::external_body]
pub struct ExValue(serde_json::Value);

/// `serde_json::Number`, a JSON number (an unsigned, signed or finite
/// floating-point value). Opaque here: the library carries numbers through
/// unchanged and reads only their integer value, through `number_integer`.
#[verifier::external_type_specification]
#[verifier::external_body]
pub struct ExNumber(serde_json::Number);

/// `serde_json::Error`, the reason a text was refused by the parser.
#[verifier::external_type_specification]
#[verifier::external_body]
pub struct ExError(serde_json::Error);

/// `serde_json::Map`, the map behind `Value::Object`. Opaque here: what it
/// holds is only known through `map_entries`.
#[verifier::external_type_specification]
#[verifier::external_body]
#[verifier::reject_recursive_types(K)]
#[verifier::reject_recursive_types(V)]
pub struct ExMap<K, V>(serde_json::Map<K, V>);

/// The tree that a `serde_json::Value` holds: its variant, and below it the
/// scalar, the items in order, or the members by key.
pub uninterp spec fn value_tree(v: serde_json::Value) -> JsonView;

/// The members that a `serde_json::Map` holds, by key.
pub uninterp spec fn map_entries(m: serde_json::Map<String, serde_json::Value>) -> Map<
    Seq<char>,
    JsonView,
>;

/// What `serde_json::Number::as_i128` returns: the number's value where it
/// is an integer, nothing where it is a floating-point number.
pub uninterp spec fn number_integer(n: serde_json::Number) -> Option<i128>;

/// What `serde_json::from_str` makes of a text when asked for a `Value`: the
/// tree of the value it returns, or nothing where it returns an error.
pub uninterp spec fn parsed(text: Seq<char>) -> Option<JsonView>;

/// The text that `serde_json::Value`'s `Display` writes for a value that
/// holds the given tree (the compact form).
pub uninterp spec fn printed(tree: JsonView) -> Seq<char>;

/// The views of the pairs that walking a `serde_json::Map` hands out.
pub open spec fn pair_trees(pairs: Seq<(&String, &serde_json::Value)>) -> Seq<
    (Seq<char>, JsonView),
> {
    Seq::new(pairs.len(), |i: int| (pairs[i].0@, value_tree(*pairs[i].1)))
}

/// `serde_json::Value::as_bool`: the boolean of a `Value::Bool`, `None` for
/// every other variant.
pub assume_specification[ serde_json::Value::as_bool ](v: &serde_json::Value) -> (r: Option<bool>)
    ensures
        match r {
            Some(b) => value_tree(*v) == JsonView::Bool(b),
            None => !(value_tree(*v) is Bool),
        },
;

/// `serde_json::Value::as_number`: the number of a `Value::Number`, `None`
/// for every other variant.
pub assume_specification<'a>[ serde_json::Value::as_number ](v: &'a serde_json::Value) -> (r:
    Option<&'a serde_json::Number>)
    ensures
        match r {
            Some(n) => value_tree(*v) == JsonView::Number(*n),
            None => !(value_tree(*v) is Number),
        },
;

/// `serde_json::Value::as_str`: the text of a `Value::String`, `None` for
/// every other variant.
pub assume_specification<'a>[ serde_json::Value::as_str ](v: &'a serde_json::Value) -> (r: Option<
    &'a str,
>)
    ensures
        match r {
            Some(s) => value_tree(*v) == JsonView::String(s@),
            None => !(value_tree(*v) is String),
        },
;

/// `serde_json::Value::as_array`: the vector of a `Value::Array`, whose
/// items hold the array's items in order; `None` for every other variant.
pub assume_specification<'a>[ serde_json::Value::as_array ](v: &'a serde_json::Value) -> (r:
    Option<&'a Vec<serde_json::Value>>)
    ensures
        match r {
            Some(items) => value_tree(*v) == JsonView::Array(
                Seq::new(items@.len(), |i: int| value_tree(items@[i])),
            ),
            None => !(value_tree(*v) is Array),
        },
;

/// `serde_json::Value::as_object`: the map of a `Value::Object`, `None` for
/// every other variant.
pub assume_specification<'a>[ serde_json::Value::as_object ](v: &'a serde_json::Value) -> (r:
    Option<&'a serde_json::Map<String, serde_json::Value>>)
    ensures
        match r {
            Some(m) => value_tree(*v) == JsonView::Object(map_entries(*m)),
            None => !(value_tree(*v) is Object),
        },
;

/// `serde_json::Number::as_i128`: names the result `number_integer`.
pub assume_specification[ serde_json::Number::as_i128 ](n: &serde_json::Number) -> (r: Option<
    i128,
>)
    ensures
        r == number_integer(*n),
;

/// `Clone` for `serde_json::Number`: the copy is the same number.
pub assume_specification[ <serde_json::Number as Clone>::clone ](n: &serde_json::Number) -> (r:
    serde_json::Number)
    ensures
        r == *n,
;

/// `serde_json::Map::new`: a map without members.
pub assume_specification[ serde_json::Map::<String, serde_json::Value>::new ]() -> (m:
    serde_json::Map<String, serde_json::Value>)
    ensures
        map_entries(m) == crate::json::fields_of(Seq::empty()),
;

/// `serde_json::Map::insert`: afterwards the key stands for the new value,
/// whether or not it stood for another before; no other member changes.
pub assume_specification[ serde_json::Map::<String, serde_json::Value>::insert ](
    m: &mut serde_json::Map<String, serde_json::Value>,
    k: String,
    v: serde_json::Value,
) -> (r: Option<serde_json::Value>)
    ensures
        map_entries(*final(m)) == map_entries(*old(m)).insert(k@, value_tree(v)),
;

/// `serde_json::Map::iter`, collected: one pair for each member, no key
/// twice, so that the pairs build the map that was walked.
#[verifier::external_body]
pub(crate) fn map_pairs<'a>(m: &'a serde_json::Map<String, serde_json::Value>) -> (r: Vec<
    (&'a String, &'a serde_json::Value),
>)
    ensures
        map_entries(*m) == crate::json::fields_of(pair_trees(r@)),
        forall|i: int, j: int| 0 <= i < j < r@.len() ==> r@[i].0@ != r@[j].0@,
{
    m.iter().collect()
}

/// `serde_json::from_str` at `serde_json::Value`: names the outcome `parsed`.
#[verifier::external_body]
pub(crate) fn parse_value(text: &str) -> (r: Result<serde_json::Value, serde_json::Error>)
    ensures
        match r {
            Ok(v) => parsed(text@) == Some(value_tree(v)),
            Err(_) => parsed(text@) is None,
        },
{
    serde_json::from_str::<serde_json::Value>(text)
}

/// `Display` for `serde_json::Value`, through `to_string`: names the text
/// `printed`. Writing a `Value` does not fail: its keys are strings and its
/// numbers are finite.
#[verifier::external_body]
pub(crate) fn print_value(v: &serde_json::Value) -> (r: String)
    ensures
        r@ == printed(value_tree(*v)),
{
    v.to_string()
}

/// The variant `serde_json::Value::Null`.
#[verifier::external_body]
pub(crate) fn null_value() -> (v: serde_json::Value)
    ensures
        value_tree(v) == JsonView::Null,
{
    serde_json::Value::Null
}

/// The variant `serde_json::Value::Bool`.
#[verifier::external_body]
pub(crate) fn bool_value(b: bool) -> (v: serde_json::Value)
    ensures
        value_tree(v) == JsonView::Bool(b),
{
    serde_json::Value::Bool(b)
}

/// The variant `serde_json::Value::Number`.
#[verifier::external_body]
pub(crate) fn number_value(n: serde_json::Number) -> (v: serde_json::Value)
    ensures
        value_tree(v) == JsonView::Number(n),
{
    serde_json::Value::Number(n)
}

/// The variant `serde_json::Value::String`.
#[verifier::external_body]
pub(crate) fn string_value(s: String) -> (v: serde_json::Value)
    ensures
        value_tree(v) == JsonView::String(s@),
{
    serde_json::Value::String(s)
}

/// The variant `serde_json::Value::Array`: the items in order.
#[verifier::external_body]
pub(crate) fn array_value(items: Vec<serde_json::Value>) -> (v: serde_json::Value)
    ensures
        value_tree(v) == JsonView::Array(Seq::new(items@.len(), |i: int| value_tree(items@[i]))),
{
    serde_json::Value::Array(items)
}

/// The variant `serde_json::Value::Object`: the members of the map.
#[verifier::external_body]
pub(crate) fn object_value(m: serde_json::Map<String, serde_json::Value>) -> (v: serde_json::Value)
    ensures
        value_tree(v) == JsonView::Object(map_entries(m)),
{
    serde_json::Value::Object(m)
}

} // verus!

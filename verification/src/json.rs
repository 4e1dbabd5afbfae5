//! Looking into JSON documents of unknown shape.

use vstd::prelude::*;

use crate::text::{i64_value, parse_i64, trimmed};

verus! {

/// A JSON value of the serde_json crate.
#[verifier::external_type_specification]
#[verifier::external_body]
pub struct ExValue(serde_json::Value);

/// What `serde_json::from_str` makes of a text, if it is a JSON document.
pub uninterp spec fn json_of_text(text: Seq<char>) -> Option<serde_json::Value>;

/// What `serde_json::from_slice` makes of bytes, if they are a JSON document.
pub uninterp spec fn json_of_bytes(bytes: Seq<u8>) -> Option<serde_json::Value>;

/// What `serde_json::Value::get` finds under a key.
pub uninterp spec fn json_member(
    value: serde_json::Value,
    key: Seq<char>,
) -> Option<serde_json::Value>;

/// What `serde_json::Value::as_str` gives: the text of a JSON string.
pub uninterp spec fn json_string(value: serde_json::Value) -> Option<Seq<char>>;

/// The notation of a JSON number, as `serde_json::Number` writes it.
pub uninterp spec fn json_number(value: serde_json::Value) -> Option<Seq<char>>;

/// What `serde_json::Value::as_i64` gives: a JSON integer that fits.
pub uninterp spec fn json_integer(value: serde_json::Value) -> Option<i64>;

/// Calls `serde_json::from_str` for a value of any shape; the JSON grammar is
/// left unsaid.
#[verifier::external_body]
pub(crate) fn parse_text(text: &str) -> (r: Option<serde_json::Value>)
    ensures
        r == json_of_text(text@),
{
    serde_json::from_str::<serde_json::Value>(text).ok()
}

/// Calls `serde_json::from_slice` for a value of any shape; the JSON grammar
/// is left unsaid.
#[verifier::external_body]
pub(crate) fn parse_bytes(bytes: &[u8]) -> (r: Option<serde_json::Value>)
    ensures
        r == json_of_bytes(bytes@),
{
    serde_json::from_slice::<serde_json::Value>(bytes).ok()
}

/// Calls `serde_json::Value::get` with a key: the member of that name, where
/// the value is an object that has one.
#[verifier::external_body]
pub(crate) fn member<'a>(value: &'a serde_json::Value, key: &str) -> (r: Option<
    &'a serde_json::Value,
>)
    ensures
        match r {
            Some(v) => json_member(*value, key@) == Some(*v),
            None => json_member(*value, key@) is None,
        },
{
    value.get(key)
}

/// Calls `serde_json::Value::as_str`: the text, where the value is a string.
#[verifier::external_body]
pub(crate) fn string_of<'a>(value: &'a serde_json::Value) -> (r: Option<&'a str>)
    ensures
        match r {
            Some(s) => json_string(*value) == Some(s@),
            None => json_string(*value) is None,
        },
{
    value.as_str()
}

/// Calls `serde_json::Number::to_string`: the notation, where the value is a
/// number. No value is a string and a number at once.
#[verifier::external_body]
pub(crate) fn number_of(value: &serde_json::Value) -> (r: Option<String>)
    ensures
        match r {
            Some(s) => json_number(*value) == Some(s@) && json_string(*value) is None,
            None => json_number(*value) is None,
        },
{
    match value.as_number() {
        Some(n) => Some(n.to_string()),
        None => None,
    }
}

/// Calls `serde_json::Value::as_i64`: the integer, where the value is one
/// that fits. Only numbers have one.
#[verifier::external_body]
pub(crate) fn integer_of(value: &serde_json::Value) -> (r: Option<i64>)
    ensures
        r == json_integer(*value),
        r is Some ==> json_number(*value) is Some,
{
    value.as_i64()
}

/// A JSON value, as far as it is a string or a number.
#[derive(Debug)]
pub enum Scalar {
    Text(String),
    Number { notation: String, integer: Option<i64> },
    Other,
}

/// The mathematical content of a scalar.
pub enum ScalarView {
    Text(Seq<char>),
    Number { notation: Seq<char>, integer: Option<i64> },
    Other,
}

impl View for Scalar {
    type V = ScalarView;

    open spec fn view(&self) -> ScalarView {
        match self {
            Scalar::Text(s) => ScalarView::Text(s@),
            Scalar::Number { notation, integer } => ScalarView::Number {
                notation: notation@,
                integer: *integer,
            },
            Scalar::Other => ScalarView::Other,
        }
    }
}

/// The scalar that a JSON value is.
pub open spec fn scalar_view(value: serde_json::Value) -> ScalarView {
    match json_string(value) {
        Some(s) => ScalarView::Text(s),
        None => match json_number(value) {
            Some(n) => ScalarView::Number { notation: n, integer: json_integer(value) },
            None => ScalarView::Other,
        },
    }
}

/// Reads a JSON value as a scalar.
pub fn scalar_of(value: &serde_json::Value) -> (r: Scalar)
    ensures
        r@ == scalar_view(*value),
{
    match string_of(value) {
        Some(s) => Scalar::Text(s.to_string()),
        None => match number_of(value) {
            Some(notation) => Scalar::Number { notation, integer: integer_of(value) },
            None => Scalar::Other,
        },
    }
}

/// The scalar under a key, if the value is an object that has that key.
pub open spec fn field_view(value: serde_json::Value, key: Seq<char>) -> Option<ScalarView> {
    match json_member(value, key) {
        Some(v) => Some(scalar_view(v)),
        None => None,
    }
}

/// The content of an optional scalar.
pub open spec fn opt_scalar(s: Option<Scalar>) -> Option<ScalarView> {
    match s {
        Some(s) => Some(s@),
        None => None,
    }
}

/// Reads the scalar under a key.
pub fn field(value: &serde_json::Value, key: &str) -> (r: Option<Scalar>)
    ensures
        opt_scalar(r) == field_view(*value, key@),
{
    match member(value, key) {
        Some(v) => Some(scalar_of(v)),
        None => None,
    }
}

/// The text under a key: a string only.
pub open spec fn text_field(value: serde_json::Value, key: Seq<char>) -> Option<Seq<char>> {
    match json_member(value, key) {
        Some(v) => json_string(v),
        None => None,
    }
}

/// The content of an optional text.
pub open spec fn opt_text(s: Option<String>) -> Option<Seq<char>> {
    match s {
        Some(s) => Some(s@),
        None => None,
    }
}

/// Reads the text under a key.
pub fn string_field(value: &serde_json::Value, key: &str) -> (r: Option<String>)
    ensures
        opt_text(r) == text_field(*value, key@),
{
    match member(value, key) {
        Some(v) => match string_of(v) {
            Some(s) => Some(s.to_string()),
            None => None,
        },
        None => None,
    }
}

/// The text of an identifier that a service sends as a string or as a number:
/// blank strings and other values count as absent.
pub open spec fn flexible_text(s: ScalarView) -> Option<Seq<char>> {
    match s {
        ScalarView::Text(t) => if trimmed(t).len() == 0 {
            None
        } else {
            Some(t)
        },
        ScalarView::Number { notation, .. } => Some(notation),
        ScalarView::Other => None,
    }
}

/// Reads an identifier that may be a string or a number as a text.
pub fn opt_string_or_number(scalar: Scalar) -> (r: Option<String>)
    ensures
        opt_text(r) == flexible_text(scalar@),
{
    match scalar {
        Scalar::Text(s) => {
            if s.as_str().trim().is_empty() {
                None
            } else {
                Some(s)
            }
        },
        Scalar::Number { notation, .. } => Some(notation),
        Scalar::Other => None,
    }
}

/// The integer that a service sends as a number or as its decimal notation.
pub open spec fn flexible_integer(s: ScalarView) -> Option<i64> {
    match s {
        ScalarView::Text(t) => i64_value(t),
        ScalarView::Number { integer, .. } => integer,
        ScalarView::Other => None,
    }
}

/// Reads an integer that may be a number or a string.
pub fn opt_i64_flexible(scalar: Scalar) -> (r: Option<i64>)
    ensures
        r == flexible_integer(scalar@),
{
    match scalar {
        Scalar::Text(s) => parse_i64(s.as_str()),
        Scalar::Number { integer, .. } => integer,
        Scalar::Other => None,
    }
}

/// Reads an optional JSON value as a text: strings that are not blank, and
/// numbers by their notation.
pub fn deserialize_opt_string_or_number(value: Option<&serde_json::Value>) -> (r: Option<String>)
    ensures
        opt_text(r) == match value {
            Some(v) => flexible_text(scalar_view(*v)),
            None => None,
        },
{
    match value {
        Some(v) => opt_string_or_number(scalar_of(v)),
        None => None,
    }
}

/// Reads an optional JSON value as an integer: integers that fit, and strings
/// in decimal notation.
pub fn deserialize_opt_i64_flexible(value: Option<&serde_json::Value>) -> (r: Option<i64>)
    ensures
        r == match value {
            Some(v) => flexible_integer(scalar_view(*v)),
            None => None,
        },
{
    match value {
        Some(v) => opt_i64_flexible(scalar_of(v)),
        None => None,
    }
}

} // verus!

//! The JSON documents the FortiGate monitor API returns, held as plain values.
//!
//! Parsing and serializing JSON text is done by `serde_json`; the document it
//! produces is carried into this library's own [`JsonValue`] so that the
//! normalizers can be stated and verified over it.

use vstd::prelude::*;
use crate::text::decimal;

use serde_json::Value as V;

verus! {

/// A JSON number as `serde_json` reports it.
#[derive(Debug, PartialEq, Eq)]
pub struct JsonNumber {
    /// `serde_json`'s rendering of the number (`Number`'s `Display`).
    pub text: String,
    /// `Number::as_u64`.
    pub as_u64: Option<u64>,
    /// `Number::as_i64`.
    pub as_i64: Option<i64>,
    /// The number read as a double and converted to `u64` the way `as`
    /// converts (truncating, saturating at the bounds).
    pub f64_as_u64: u64,
}

/// A JSON value. Object members keep the order `serde_json` gives them.
#[derive(Debug, PartialEq, Eq)]
pub enum JsonValue {
    Null,
    Bool(bool),
    Number(JsonNumber),
    Str(String),
    Array(Vec<JsonValue>),
    Object(Vec<(String, JsonValue)>),
}

/// The value stored under `key` in the members `m`, searching from `i`.
pub open spec fn member_from(m: Seq<(String, JsonValue)>, key: Seq<char>, i: nat) -> Option<
    JsonValue,
>
    decreases m.len() - i,
{
    if i >= m.len() {
        None
    } else if m[i as int].0@ == key {
        Some(m[i as int].1)
    } else {
        member_from(m, key, i + 1)
    }
}

/// `Value::get(key)`: the member `key` of an object; `None` for anything else.
pub open spec fn get(v: JsonValue, key: Seq<char>) -> Option<JsonValue> {
    match v {
        JsonValue::Object(m) => member_from(m@, key, 0),
        _ => None,
    }
}

/// `get` lifted over an optional value.
pub open spec fn get_in(v: Option<JsonValue>, key: Seq<char>) -> Option<JsonValue> {
    match v {
        Some(x) => get(x, key),
        None => None,
    }
}

/// `Value::as_str`.
pub open spec fn str_of(v: Option<JsonValue>) -> Option<Seq<char>> {
    match v {
        Some(JsonValue::Str(s)) => Some(s@),
        _ => None,
    }
}

/// `Value::as_u64`.
pub open spec fn u64_of(v: Option<JsonValue>) -> Option<u64> {
    match v {
        Some(JsonValue::Number(n)) => n.as_u64,
        _ => None,
    }
}

/// `Value::as_f64` converted with `as u64`.
pub open spec fn f64_u64_of(v: Option<JsonValue>) -> Option<u64> {
    match v {
        Some(JsonValue::Number(n)) => Some(n.f64_as_u64),
        _ => None,
    }
}

/// `Value::as_bool`.
pub open spec fn bool_of(v: Option<JsonValue>) -> Option<bool> {
    match v {
        Some(JsonValue::Bool(b)) => Some(b),
        _ => None,
    }
}

/// `Value::as_array`, or no elements when the value is not an array.
pub open spec fn elements_of(v: Option<JsonValue>) -> Seq<JsonValue> {
    match v {
        Some(JsonValue::Array(a)) => a@,
        _ => Seq::empty(),
    }
}

/// `Value::as_object`, or no members when the value is not an object.
pub open spec fn members_of(v: Option<JsonValue>) -> Seq<(String, JsonValue)> {
    match v {
        Some(JsonValue::Object(m)) => m@,
        _ => Seq::empty(),
    }
}

/// `str_of`, or the empty text.
pub open spec fn str_or_empty(v: Option<JsonValue>) -> Seq<char> {
    match str_of(v) {
        Some(s) => s,
        None => Seq::empty(),
    }
}

/// `u64_of`, or 0.
pub open spec fn u64_or_zero(v: Option<JsonValue>) -> u64 {
    match u64_of(v) {
        Some(n) => n,
        None => 0,
    }
}

/// An optional borrowed value, as a value.
pub open spec fn opt_val(o: Option<&JsonValue>) -> Option<JsonValue> {
    match o {
        Some(x) => Some(*x),
        None => None,
    }
}

/// An optional string, as its characters.
pub open spec fn opt_chars(o: Option<String>) -> Option<Seq<char>> {
    match o {
        Some(s) => Some(s@),
        None => None,
    }
}

/// The member `key` of `v` (`Value::get`).
pub fn json_get<'a>(v: &'a JsonValue, key: &str) -> (r: Option<&'a JsonValue>)
    ensures
        opt_val(r) == get(*v, key@),
{
    match v {
        JsonValue::Object(m) => {
            let k = key.to_owned();
            let mut i: usize = 0;
            while i < m.len()
                invariant
                    i <= m@.len(),
                    k@ == key@,
                    get(*v, key@) == member_from(m@, key@, 0),
                    member_from(m@, key@, 0) == member_from(m@, key@, i as nat),
                decreases m@.len() - i,
            {
                if m[i].0 == k {
                    assert(m@[i as int].0@ == key@);
                    assert(member_from(m@, key@, i as nat) == Some(m@[i as int].1));
                    return Some(&m[i].1);
                }
                i = i + 1;
            }
            None
        },
        _ => None,
    }
}

/// `get` on an optional value (`and_then(|x| x.get(key))`).
pub fn json_get_in<'a>(v: Option<&'a JsonValue>, key: &str) -> (r: Option<&'a JsonValue>)
    ensures
        opt_val(r) == get_in(opt_val(v), key@),
{
    match v {
        Some(x) => json_get(x, key),
        None => None,
    }
}

/// `as_str`, copied into a `String`.
pub fn json_str(v: Option<&JsonValue>) -> (r: Option<String>)
    ensures
        opt_chars(r) == str_of(opt_val(v)),
{
    match v {
        Some(JsonValue::Str(s)) => Some(s.clone()),
        _ => None,
    }
}

/// `as_str`, or the empty string (`unwrap_or("").to_string()`).
pub fn json_str_or_empty(v: Option<&JsonValue>) -> (r: String)
    ensures
        r@ == str_or_empty(opt_val(v)),
{
    match v {
        Some(JsonValue::Str(s)) => s.clone(),
        _ => String::new(),
    }
}

/// `as_u64`.
pub fn json_u64(v: Option<&JsonValue>) -> (r: Option<u64>)
    ensures
        r == u64_of(opt_val(v)),
{
    match v {
        Some(JsonValue::Number(n)) => n.as_u64,
        _ => None,
    }
}

/// `as_u64`, or 0.
pub fn json_u64_or_zero(v: Option<&JsonValue>) -> (r: u64)
    ensures
        r == u64_or_zero(opt_val(v)),
{
    match json_u64(v) {
        Some(n) => n,
        None => 0,
    }
}

/// `as_f64` converted with `as u64`.
pub fn json_f64_as_u64(v: Option<&JsonValue>) -> (r: Option<u64>)
    ensures
        r == f64_u64_of(opt_val(v)),
{
    match v {
        Some(JsonValue::Number(n)) => Some(n.f64_as_u64),
        _ => None,
    }
}

/// `as_bool`.
pub fn json_bool(v: Option<&JsonValue>) -> (r: Option<bool>)
    ensures
        r == bool_of(opt_val(v)),
{
    match v {
        Some(JsonValue::Bool(b)) => Some(*b),
        _ => None,
    }
}

/// The elements of an array value, if it is one.
pub fn json_array<'a>(v: Option<&'a JsonValue>) -> (r: Option<&'a Vec<JsonValue>>)
    ensures
        match r {
            Some(a) => opt_val(v) == Some(JsonValue::Array(*a)) && a@ == elements_of(opt_val(v)),
            None => elements_of(opt_val(v)).len() == 0,
        },
{
    match v {
        Some(JsonValue::Array(a)) => Some(a),
        _ => None,
    }
}

/// The members of an object value, if it is one.
pub fn json_object<'a>(v: Option<&'a JsonValue>) -> (r: Option<&'a Vec<(String, JsonValue)>>)
    ensures
        match r {
            Some(m) => m@ == members_of(opt_val(v)),
            None => members_of(opt_val(v)).len() == 0,
        },
{
    match v {
        Some(JsonValue::Object(m)) => Some(m),
        _ => None,
    }
}

/// `serde_json`'s document type, carried opaquely into the conversion below.
#[verifier::external_type_specification]
#[verifier::external_body]
pub struct ExSerdeJsonValue(serde_json::Value);

/// What `serde_json::from_str::<serde_json::Value>` makes of a text: the
/// document, or the text of its error. A function of the text alone.
pub uninterp spec fn serde_json_parse(text: Seq<char>) -> Result<JsonValue, Seq<char>>;

/// What `serde_json::Value`'s `Display` (compact JSON) prints for a document.
pub uninterp spec fn serde_json_text(v: JsonValue) -> Seq<char>;

/// The `u64` a number holds when its text is that integer's plain decimal
/// form; none for anything else.
pub open spec fn plain_integer(v: JsonValue) -> Option<u64> {
    match v {
        JsonValue::Number(n) => match n.as_u64 {
            Some(k) => if n.text@ == decimal(k as nat) {
                Some(k)
            } else {
                None
            },
            None => None,
        },
        _ => None,
    }
}

/// The compact JSON text of a document: the digits of a plain integer, else
/// what `serde_json` prints.
pub open spec fn json_text(v: JsonValue) -> Seq<char> {
    match plain_integer(v) {
        Some(k) => decimal(k as nat),
        None => serde_json_text(v),
    }
}

/// A parse result with its error as characters.
pub open spec fn parse_result_view(r: Result<JsonValue, String>) -> Result<JsonValue, Seq<char>> {
    match r {
        Ok(v) => Ok(v),
        Err(e) => Err(e@),
    }
}

/// Converts a `serde_json` document into a [`JsonValue`], node for node.
#[verifier::external_body]
fn from_serde(v: &serde_json::Value) -> JsonValue {
    match v {
        V::Null => JsonValue::Null,
        V::Bool(b) => JsonValue::Bool(*b),
        V::Number(n) => JsonValue::Number(JsonNumber { text: n.to_string(), as_u64: n.as_u64(), as_i64: n.as_i64(), f64_as_u64: n.as_f64().map_or(0, |f| f as u64) }),
        V::String(s) => JsonValue::Str(s.clone()),
        V::Array(a) => JsonValue::Array(a.iter().map(from_serde).collect()),
        V::Object(m) => JsonValue::Object(m.iter().map(|(k, x)| (k.clone(), from_serde(x))).collect()),
    }
}

/// Converts a [`JsonValue`] back into a `serde_json` document, node for node
/// (a number is rebuilt from its `serde_json` rendering).
#[verifier::external_body]
fn to_serde(v: &JsonValue) -> serde_json::Value {
    match v {
        JsonValue::Null => V::Null,
        JsonValue::Bool(b) => V::Bool(*b),
        JsonValue::Number(n) => n.text.parse::<serde_json::Number>().map_or(V::Null, V::Number),
        JsonValue::Str(s) => V::String(s.clone()),
        JsonValue::Array(a) => V::Array(a.iter().map(to_serde).collect()),
        JsonValue::Object(m) => V::Object(m.iter().map(|(k, x)| (k.clone(), to_serde(x))).collect()),
    }
}

/// `serde_json::from_str::<serde_json::Value>`: the result (document or error
/// text) is named by `serde_json_parse`, a function of the text alone.
#[verifier::external_body]
pub(crate) fn parse_json(text: &str) -> (r: Result<JsonValue, String>)
    ensures
        parse_result_view(r) == serde_json_parse(text@),
{
    match serde_json::from_str::<serde_json::Value>(text) {
        Ok(v) => Ok(from_serde(&v)),
        Err(e) => Err(e.to_string()),
    }
}

/// `serde_json::Value::to_string` (compact JSON): the result is named by
/// `serde_json_text`, a function of the document alone. A number whose own
/// text is the plain decimal form of a `u64` is rebuilt by `Number::from_str`
/// as that unsigned integer, which `Display` prints as those digits.
#[verifier::external_body]
pub(crate) fn json_to_string(v: &JsonValue) -> (r: String)
    ensures
        r@ == serde_json_text(*v),
        plain_integer(*v) matches Some(k) ==> r@ == decimal(k as nat),
{
    to_serde(v).to_string()
}

} // verus!

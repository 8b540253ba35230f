//! JSON values as `serde_json` holds them: a mathematical model of their
//! contents, and the contracts under which the library calls that crate.
//!
//! Nothing in this file is proved of `serde_json` itself. Every item that
//! carries a contract for it says so in its documentation; the rest of the
//! library is verified against these contracts.

use crate::errors::GenAiError;
use crate::errors::GenAiErrorView;
use serde_json::Number;
use serde_json::Value;
use vstd::prelude::*;

verus! {

/// What a JSON number is: an unsigned integer, a negative integer, or a
/// finite double, the last given by its IEEE-754 bit pattern.
pub enum NumberView {
    PosInt(u64),
    NegInt(i64),
    Float(u64),
}

/// What a JSON value is. The keys of an object are unordered and distinct.
pub enum JsonView {
    Null,
    Bool(bool),
    Number(NumberView),
    Str(Seq<char>),
    Array(Seq<JsonView>),
    Object(Map<Seq<char>, JsonView>),
}

/// `serde_json::Value`, a JSON value. The verifier does not look inside:
/// `value_json` names what it holds.
#[verifier::external_type_specification]
#[verifier::external_body]
pub struct ExValue(serde_json::Value);

/// `serde_json::Number`, a JSON number. The verifier does not look inside:
/// `number_view` names what it holds.
#[verifier::external_type_specification]
#[verifier::external_body]
pub struct ExNumber(serde_json::Number);

/// `serde_json::Map`, the entries of a JSON object. The verifier does not
/// look inside: `map_fields` names what it holds.
#[verifier::external_type_specification]
#[verifier::external_body]
#[verifier::reject_recursive_types(K)]
#[verifier::reject_recursive_types(V)]
pub struct ExMap<K, V>(serde_json::Map<K, V>);

/// `serde_json::Error`, a failure of the parser or the printer. The
/// verifier does not look inside: `error_text` names what it displays.
#[verifier::external_type_specification]
#[verifier::external_body]
pub struct ExError(serde_json::Error);

/// The JSON value that a `serde_json::Value` holds.
pub uninterp spec fn value_json(v: Value) -> JsonView;

/// The number that a `serde_json::Number` holds.
pub uninterp spec fn number_view(n: Number) -> NumberView;

/// The entries that a `serde_json::Map` holds, by key.
pub uninterp spec fn map_fields(m: serde_json::Map<String, Value>) -> Map<Seq<char>, JsonView>;

/// The text that `serde_json::Error` displays: its message with the line and
/// column at which parsing stopped.
pub uninterp spec fn error_text(e: serde_json::Error) -> String;

/// What `serde_json::from_str` makes of a text: the value it parses to, or
/// the text of the error it reports.
pub uninterp spec fn parsed(text: Seq<char>) -> Result<JsonView, Seq<char>>;

/// What `serde_json::to_string` prints for a value, or the text of the error
/// it reports.
pub uninterp spec fn printed(j: JsonView) -> Result<Seq<char>, Seq<char>>;

/// The entries of an object without fields.
pub open spec fn no_fields() -> Map<Seq<char>, JsonView> {
    Map::empty()
}

/// The JSON values that a sequence of `serde_json::Value` holds.
pub open spec fn values_json(s: Seq<Value>) -> Seq<JsonView> {
    s.map_values(|v: Value| value_json(v))
}

/// `Value::is_null` tells whether the value is `null`.
pub assume_specification[ serde_json::Value::is_null ](v: &Value) -> (r: bool)
    ensures
        r == (value_json(*v) is Null),
;

/// `Value::as_bool` returns the boolean that a `Value::Bool` holds, and
/// `None` for any other value.
pub assume_specification[ serde_json::Value::as_bool ](v: &Value) -> (r: Option<bool>)
    ensures
        r == match value_json(*v) {
            JsonView::Bool(b) => Some(b),
            _ => None::<bool>,
        },
;

/// `Value::as_u64` returns the integer of a number stored as an unsigned
/// integer, and `None` for a negative integer, a double or any other value.
pub assume_specification[ serde_json::Value::as_u64 ](v: &Value) -> (r: Option<u64>)
    ensures
        r == match value_json(*v) {
            JsonView::Number(NumberView::PosInt(u)) => Some(u),
            _ => None::<u64>,
        },
;

/// `Value::as_number` returns the number that a `Value::Number` holds, and
/// `None` for any other value.
pub assume_specification[ serde_json::Value::as_number ](v: &Value) -> (r: Option<&Number>)
    ensures
        match value_json(*v) {
            JsonView::Number(n) => r matches Some(x) && number_view(*x) == n,
            _ => r is None,
        },
;

/// `Value::as_str` returns the text that a `Value::String` holds, and
/// `None` for any other value.
pub assume_specification[ serde_json::Value::as_str ](v: &Value) -> (r: Option<&str>)
    ensures
        match value_json(*v) {
            JsonView::Str(s) => r matches Some(t) && t@ == s,
            _ => r is None,
        },
;

/// `Value::as_array` returns the elements that a `Value::Array` holds, in
/// order, and `None` for any other value.
pub assume_specification[ serde_json::Value::as_array ](v: &Value) -> (r: Option<&Vec<Value>>)
    ensures
        match value_json(*v) {
            JsonView::Array(items) => r matches Some(a) && values_json(a@) == items,
            _ => r is None,
        },
;

/// `Value::as_object` returns the map that a `Value::Object` holds, which
/// has finitely many entries, and `None` for any other value.
pub assume_specification[ serde_json::Value::as_object ](v: &Value) -> (r: Option<&serde_json::Map<String, Value>>)
    ensures
        match value_json(*v) {
            JsonView::Object(m) => r matches Some(o) && map_fields(*o) == m && map_fields(
                *o,
            ).dom().finite(),
            _ => r is None,
        },
;

/// Cloning a `serde_json::Value` gives a value with the same contents.
pub assume_specification[ <serde_json::Value as Clone>::clone ](v: &Value) -> (r: Value)
    ensures
        value_json(r) == value_json(*v),
;

/// Cloning a `serde_json::Number` gives the same number.
pub assume_specification[ <serde_json::Number as Clone>::clone ](n: &Number) -> (r: Number)
    ensures
        number_view(r) == number_view(*n),
;

/// `Map::new` makes a map without entries.
pub assume_specification[ serde_json::Map::<String, Value>::new ]() -> (r: serde_json::Map<String, Value>)
    ensures
        map_fields(r) == no_fields(),
;

/// `Map::insert` sets the entry of the key to the value, and returns the
/// value that the key had before, if it had one.
pub assume_specification[ serde_json::Map::<String, Value>::insert ](m: &mut serde_json::Map<String, Value>, k: String, v: Value) -> (r: Option<Value>)
    ensures
        map_fields(*final(m)) == map_fields(*old(m)).insert(k@, value_json(v)),
        match r {
            Some(w) => map_fields(*old(m)).contains_key(k@) && map_fields(*old(m))[k@]
                == value_json(w),
            None => !map_fields(*old(m)).contains_key(k@),
        },
;

/// `Map::len` returns the number of entries.
pub assume_specification[ serde_json::Map::<String, Value>::len ](m: &serde_json::Map<String, Value>) -> (r: usize)
    ensures
        r == map_fields(*m).dom().len(),
;

/// `Map::get` with a `&str` key returns the value of that key, and `None`
/// where the map has no such key.
#[verifier::external_body]
pub(crate) fn entry<'a>(m: &'a serde_json::Map<String, Value>, key: &str) -> (r: Option<&'a Value>)
    ensures
        match r {
            Some(x) => map_fields(*m).contains_key(key@) && value_json(*x) == map_fields(*m)[key@],
            None => !map_fields(*m).contains_key(key@),
        },
{
    m.get(key)
}

/// `Value::Bool` holds the boolean given.
#[verifier::external_body]
pub(crate) fn bool_value(b: bool) -> (r: Value)
    ensures
        value_json(r) == JsonView::Bool(b),
{
    Value::Bool(b)
}

/// `Value::Number` holds the number given.
#[verifier::external_body]
pub(crate) fn number_value(n: Number) -> (r: Value)
    ensures
        value_json(r) == JsonView::Number(number_view(n)),
{
    Value::Number(n)
}

/// `Value::from` of a `u64` is the number that stores it as an unsigned
/// integer.
#[verifier::external_body]
pub(crate) fn unsigned_value(u: u64) -> (r: Value)
    ensures
        value_json(r) == JsonView::Number(NumberView::PosInt(u)),
{
    Value::from(u)
}

/// `Value::String` holds the text given.
#[verifier::external_body]
pub(crate) fn string_value(s: String) -> (r: Value)
    ensures
        value_json(r) == JsonView::Str(s@),
{
    Value::String(s)
}

/// `Value::Array` holds the elements given, in order.
#[verifier::external_body]
pub(crate) fn array_value(items: Vec<Value>) -> (r: Value)
    ensures
        value_json(r) == JsonView::Array(values_json(items@)),
{
    Value::Array(items)
}

/// `Value::Object` holds the entries of the map given.
#[verifier::external_body]
pub(crate) fn object_value(m: serde_json::Map<String, Value>) -> (r: Value)
    ensures
        value_json(r) == JsonView::Object(map_fields(m)),
{
    Value::Object(m)
}

/// The `Display` text of a `serde_json::Error`.
#[verifier::external_body]
pub(crate) fn error_message(e: &serde_json::Error) -> (r: String)
    ensures
        r == error_text(*e),
{
    e.to_string()
}

/// `serde_json::from_str` for a `serde_json::Value`: the result depends on
/// the text alone.
#[verifier::external_body]
fn parse(text: &str) -> (r: Result<Value, serde_json::Error>)
    ensures
        match r {
            Ok(v) => parsed(text@) == Ok::<JsonView, Seq<char>>(value_json(v)),
            Err(e) => parsed(text@) == Err::<JsonView, Seq<char>>(error_text(e)@),
        },
{
    serde_json::from_str::<Value>(text)
}

/// `serde_json::to_string` of a `serde_json::Value`: the result depends on
/// the contents of the value alone.
#[verifier::external_body]
fn print(v: &Value) -> (r: Result<String, serde_json::Error>)
    ensures
        match r {
            Ok(s) => printed(value_json(*v)) == Ok::<Seq<char>, Seq<char>>(s@),
            Err(e) => printed(value_json(*v)) == Err::<Seq<char>, Seq<char>>(error_text(e)@),
        },
{
    serde_json::to_string(v)
}

/// Parses a JSON text. A text that is not JSON gives `JsonError` with the
/// parser's own diagnostic.
pub fn from_text(text: &str) -> (r: Result<Value, GenAiError>)
    ensures
        match parsed(text@) {
            Ok(j) => r matches Ok(v) && value_json(v) == j,
            Err(m) => r matches Err(e) && e@ == GenAiErrorView::JsonError(m),
        },
{
    match parse(text) {
        Ok(v) => Ok(v),
        Err(e) => Err(GenAiError::from(e)),
    }
}

/// Prints a value as compact JSON text. A failure of the printer gives
/// `JsonError` with its diagnostic.
pub fn to_text(v: &Value) -> (r: Result<String, GenAiError>)
    ensures
        match printed(value_json(*v)) {
            Ok(s) => r matches Ok(t) && t@ == s,
            Err(m) => r matches Err(e) && e@ == GenAiErrorView::JsonError(m),
        },
{
    match print(v) {
        Ok(s) => Ok(s),
        Err(e) => Err(GenAiError::from(e)),
    }
}

} // verus!

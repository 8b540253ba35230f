//! Reading the fields of a JSON object: what each reader accepts, and the
//! message with which it turns an entry down.

use crate::errors::GenAiError;
use crate::errors::GenAiErrorView;
use crate::json::entry;
use crate::json::map_fields;
use crate::json::number_view;
use crate::json::value_json;
use crate::json::values_json;
use crate::json::JsonView;
use crate::json::NumberView;
use crate::text::joined;
use serde_json::Number;
use serde_json::Value;
use vstd::prelude::*;
use vstd::string::*;

verus! {

/// The entries of a JSON object, by key.
pub type Fields = Map<Seq<char>, JsonView>;

/// What decoding gives: a value, or the message that says why there is none.
pub type Decoded<T> = Result<T, Seq<char>>;

/// The message for a value that is not an object.
pub open spec fn not_an_object() -> Seq<char> {
    "expected a JSON object"@
}

/// The message for a required field that the object does not have.
pub open spec fn missing(key: Seq<char>) -> Seq<char> {
    "missing field `"@ + key + "`"@
}

/// The message for a field whose value is not of the kind `what`.
pub open spec fn expected(key: Seq<char>, what: Seq<char>) -> Seq<char> {
    "field `"@ + key + "` must be "@ + what
}

/// Whether an executable result is the outcome that the model asks for: the
/// value with that view, or `JsonError` with that message.
pub open spec fn outcome<T: View>(r: Result<T, GenAiError>, want: Decoded<T::V>) -> bool {
    match want {
        Ok(x) => r matches Ok(y) && y@ == x,
        Err(m) => r matches Err(e) && e@ == GenAiErrorView::JsonError(m),
    }
}

/// The entries of an object; any other value has none.
pub open spec fn as_fields(j: JsonView) -> Decoded<Fields> {
    match j {
        JsonView::Object(m) => Ok(m),
        _ => Err(not_an_object()),
    }
}

/// The value of a required field.
pub open spec fn value_at(m: Fields, key: Seq<char>) -> Decoded<JsonView> {
    if m.contains_key(key) {
        Ok(m[key])
    } else {
        Err(missing(key))
    }
}

/// The value of an optional field: a field that is missing or `null` is
/// absent.
pub open spec fn opt_value_at(m: Fields, key: Seq<char>) -> Option<JsonView> {
    if m.contains_key(key) && !(m[key] is Null) {
        Some(m[key])
    } else {
        None
    }
}

/// The text of a value that must be a string.
pub open spec fn as_text(j: JsonView, key: Seq<char>) -> Decoded<Seq<char>> {
    match j {
        JsonView::Str(s) => Ok(s),
        _ => Err(expected(key, "a string"@)),
    }
}

/// The boolean of a value that must be one.
pub open spec fn as_flag(j: JsonView, key: Seq<char>) -> Decoded<bool> {
    match j {
        JsonView::Bool(b) => Ok(b),
        _ => Err(expected(key, "a boolean"@)),
    }
}

/// The integer of a value that must be an unsigned integer of 32 bits.
pub open spec fn as_u32(j: JsonView, key: Seq<char>) -> Decoded<u32> {
    match j {
        JsonView::Number(NumberView::PosInt(u)) if u <= u32::MAX => Ok(u as u32),
        _ => Err(expected(key, "an unsigned 32-bit integer"@)),
    }
}

/// The number of a value that must be a number of any kind.
pub open spec fn as_number(j: JsonView, key: Seq<char>) -> Decoded<NumberView> {
    match j {
        JsonView::Number(n) => Ok(n),
        _ => Err(expected(key, "a number"@)),
    }
}

/// The elements of a value that must be an array.
pub open spec fn as_items(j: JsonView, key: Seq<char>) -> Decoded<Seq<JsonView>> {
    match j {
        JsonView::Array(items) => Ok(items),
        _ => Err(expected(key, "an array"@)),
    }
}

/// A required string field.
pub open spec fn text_at(m: Fields, key: Seq<char>) -> Decoded<Seq<char>> {
    match value_at(m, key) {
        Ok(j) => as_text(j, key),
        Err(e) => Err(e),
    }
}

/// An optional string field.
pub open spec fn opt_text_at(m: Fields, key: Seq<char>) -> Decoded<Option<Seq<char>>> {
    match opt_value_at(m, key) {
        Some(j) => match as_text(j, key) {
            Ok(s) => Ok(Some(s)),
            Err(e) => Err(e),
        },
        None => Ok(None),
    }
}

/// An optional boolean field.
pub open spec fn opt_flag_at(m: Fields, key: Seq<char>) -> Decoded<Option<bool>> {
    match opt_value_at(m, key) {
        Some(j) => match as_flag(j, key) {
            Ok(b) => Ok(Some(b)),
            Err(e) => Err(e),
        },
        None => Ok(None),
    }
}

/// A required field that holds an unsigned integer of 32 bits.
pub open spec fn u32_at(m: Fields, key: Seq<char>) -> Decoded<u32> {
    match value_at(m, key) {
        Ok(j) => as_u32(j, key),
        Err(e) => Err(e),
    }
}

/// A required number field.
pub open spec fn number_at(m: Fields, key: Seq<char>) -> Decoded<NumberView> {
    match value_at(m, key) {
        Ok(j) => as_number(j, key),
        Err(e) => Err(e),
    }
}

/// An optional number field.
pub open spec fn opt_number_at(m: Fields, key: Seq<char>) -> Decoded<Option<NumberView>> {
    match opt_value_at(m, key) {
        Some(j) => match as_number(j, key) {
            Ok(n) => Ok(Some(n)),
            Err(e) => Err(e),
        },
        None => Ok(None),
    }
}

/// A required array field.
pub open spec fn items_at(m: Fields, key: Seq<char>) -> Decoded<Seq<JsonView>> {
    match value_at(m, key) {
        Ok(j) => as_items(j, key),
        Err(e) => Err(e),
    }
}

/// An optional array field.
pub open spec fn opt_items_at(m: Fields, key: Seq<char>) -> Decoded<Option<Seq<JsonView>>> {
    match opt_value_at(m, key) {
        Some(j) => match as_items(j, key) {
            Ok(items) => Ok(Some(items)),
            Err(e) => Err(e),
        },
        None => Ok(None),
    }
}

/// The entries with `key` set to the value, where there is one.
pub open spec fn put_optional(m: Fields, key: Seq<char>, value: Option<JsonView>) -> Fields {
    match value {
        Some(j) => m.insert(key, j),
        None => m,
    }
}

/// Whether the object has exactly one entry.
pub open spec fn single(m: Fields) -> bool {
    m.dom().finite() && m.dom().len() == 1
}

/// The object with the one entry given.
pub open spec fn only(key: Seq<char>, value: JsonView) -> Fields {
    Map::empty().insert(key, value)
}

/// An object made of one entry has exactly one entry: that one.
pub proof fn lemma_only(key: Seq<char>, value: JsonView)
    ensures
        single(only(key, value)),
        only(key, value).contains_key(key),
        only(key, value)[key] == value,
        forall|other: Seq<char>| other != key ==> !only(key, value).contains_key(other),
{
    assert(only(key, value).dom() =~= Set::empty().insert(key));
}

/// All the values of a sequence of outcomes, or the message of the first
/// that has none.
pub open spec fn collect<T>(rs: Seq<Decoded<T>>) -> Decoded<Seq<T>>
    decreases rs.len(),
{
    if rs.len() == 0 {
        Ok(Seq::empty())
    } else {
        match collect(rs.drop_last()) {
            Err(e) => Err(e),
            Ok(xs) => match rs.last() {
                Err(e) => Err(e),
                Ok(x) => Ok(xs.push(x)),
            },
        }
    }
}

/// A failure among the first `k` outcomes is the failure of the whole.
pub proof fn lemma_collect_fails<T>(rs: Seq<Decoded<T>>, k: int)
    requires
        0 <= k <= rs.len(),
        collect(rs.take(k)) is Err,
    ensures
        collect(rs) == collect(rs.take(k)),
    decreases rs.len() - k,
{
    if k < rs.len() {
        assert(rs.take(k + 1).drop_last() =~= rs.take(k));
        lemma_collect_fails(rs, k + 1);
    } else {
        assert(rs.take(k) =~= rs);
    }
}

/// Where every outcome has a value, the whole has them all, in order.
pub proof fn lemma_collect_all<T>(rs: Seq<Decoded<T>>, xs: Seq<T>)
    requires
        rs.len() == xs.len(),
        forall|i: int| 0 <= i < rs.len() ==> rs[i] == Ok::<T, Seq<char>>(xs[i]),
    ensures
        collect(rs) == Ok::<Seq<T>, Seq<char>>(xs),
    decreases rs.len(),
{
    if rs.len() == 0 {
        assert(xs =~= Seq::empty());
    } else {
        lemma_collect_all(rs.drop_last(), xs.drop_last());
        assert(xs.drop_last().push(xs.last()) =~= xs);
    }
}

/// Where the first `i` outcomes have the values `xs` and outcome `i` has
/// none, the whole fails with the message of outcome `i`.
pub proof fn lemma_collect_first_error<T>(rs: Seq<Decoded<T>>, xs: Seq<T>, i: int)
    requires
        0 <= i < rs.len(),
        xs.len() == i,
        forall|k: int| 0 <= k < i ==> rs[k] == Ok::<T, Seq<char>>(xs[k]),
        rs[i] is Err,
    ensures
        collect(rs) == Err::<Seq<T>, Seq<char>>(rs[i]->Err_0),
{
    lemma_collect_all(rs.take(i), xs);
    assert(rs.take(i + 1).drop_last() =~= rs.take(i));
    lemma_collect_fails(rs, i + 1);
}

/// The `JsonError` that carries `message`.
pub fn fault(message: String) -> (r: GenAiError)
    ensures
        r@ == GenAiErrorView::JsonError(message@),
{
    GenAiError::JsonError(message)
}

/// The `JsonError` for a required field that is missing.
pub fn missing_fault(key: &str) -> (r: GenAiError)
    ensures
        r@ == GenAiErrorView::JsonError(missing(key@)),
{
    fault(joined("missing field `", key).concat("`"))
}

/// The `JsonError` for a field whose value is not of the kind `what`.
pub fn expected_fault(key: &str, what: &str) -> (r: GenAiError)
    ensures
        r@ == GenAiErrorView::JsonError(expected(key@, what@)),
{
    fault(joined("field `", key).concat("` must be ").concat(what))
}

/// The entries of `v`, where it is an object.
pub fn fields_of(v: &Value) -> (r: Result<&serde_json::Map<String, Value>, GenAiError>)
    ensures
        match as_fields(value_json(*v)) {
            Ok(m) => r matches Ok(o) && map_fields(*o) == m && m.dom().finite(),
            Err(e) => r matches Err(x) && x@ == GenAiErrorView::JsonError(e),
        },
{
    match v.as_object() {
        Some(o) => Ok(o),
        None => Err(fault("expected a JSON object".to_owned())),
    }
}

/// The value of the required field `key`.
pub fn required<'a>(m: &'a serde_json::Map<String, Value>, key: &str) -> (r: Result<&'a Value, GenAiError>)
    ensures
        match value_at(map_fields(*m), key@) {
            Ok(j) => r matches Ok(v) && value_json(*v) == j,
            Err(e) => r matches Err(x) && x@ == GenAiErrorView::JsonError(e),
        },
{
    match entry(m, key) {
        Some(v) => Ok(v),
        None => Err(missing_fault(key)),
    }
}

/// The value of the optional field `key`.
pub fn optional<'a>(m: &'a serde_json::Map<String, Value>, key: &str) -> (r: Option<&'a Value>)
    ensures
        match opt_value_at(map_fields(*m), key@) {
            Some(j) => r matches Some(v) && value_json(*v) == j,
            None => r is None,
        },
{
    match entry(m, key) {
        Some(v) => if v.is_null() {
            None
        } else {
            Some(v)
        },
        None => None,
    }
}

/// The text of `v`, which the field `key` holds.
pub fn text_of(v: &Value, key: &str) -> (r: Result<String, GenAiError>)
    ensures
        outcome(r, as_text(value_json(*v), key@)),
{
    match v.as_str() {
        Some(s) => Ok(s.to_owned()),
        None => Err(expected_fault(key, "a string")),
    }
}

/// The boolean of `v`, which the field `key` holds.
pub fn flag_of(v: &Value, key: &str) -> (r: Result<bool, GenAiError>)
    ensures
        outcome(r, as_flag(value_json(*v), key@)),
{
    match v.as_bool() {
        Some(b) => Ok(b),
        None => Err(expected_fault(key, "a boolean")),
    }
}

/// The 32-bit unsigned integer of `v`, which the field `key` holds.
pub fn u32_of(v: &Value, key: &str) -> (r: Result<u32, GenAiError>)
    ensures
        outcome(r, as_u32(value_json(*v), key@)),
{
    match v.as_u64() {
        Some(u) => if u <= 0xffff_ffff {
            Ok(u as u32)
        } else {
            Err(expected_fault(key, "an unsigned 32-bit integer"))
        },
        None => Err(expected_fault(key, "an unsigned 32-bit integer")),
    }
}

/// The number of `v`, which the field `key` holds.
pub fn number_of(v: &Value, key: &str) -> (r: Result<Number, GenAiError>)
    ensures
        match as_number(value_json(*v), key@) {
            Ok(n) => r matches Ok(x) && number_view(x) == n,
            Err(e) => r matches Err(x) && x@ == GenAiErrorView::JsonError(e),
        },
{
    match v.as_number() {
        Some(n) => Ok(n.clone()),
        None => Err(expected_fault(key, "a number")),
    }
}

/// The elements of `v`, which the field `key` holds.
pub fn items_of<'a>(v: &'a Value, key: &str) -> (r: Result<&'a Vec<Value>, GenAiError>)
    ensures
        match as_items(value_json(*v), key@) {
            Ok(items) => r matches Ok(a) && values_json(a@) == items,
            Err(e) => r matches Err(x) && x@ == GenAiErrorView::JsonError(e),
        },
{
    match v.as_array() {
        Some(a) => Ok(a),
        None => Err(expected_fault(key, "an array")),
    }
}

/// Copies of the values of `items`, in order.
pub fn cloned_values(items: &Vec<Value>) -> (r: Vec<Value>)
    ensures
        values_json(r@) == values_json(items@),
{
    let mut out: Vec<Value> = Vec::new();
    let mut i: usize = 0;
    while i < items.len()
        invariant
            i <= items.len(),
            out.len() == i,
            forall|k: int| 0 <= k < i ==> value_json(out@[k]) == value_json(items@[k]),
        decreases items.len() - i,
    {
        out.push(items[i].clone());
        i += 1;
    }
    assert(values_json(out@) =~= values_json(items@));
    out
}

/// The required string field `key`.
pub fn read_text(m: &serde_json::Map<String, Value>, key: &str) -> (r: Result<String, GenAiError>)
    ensures
        outcome(r, text_at(map_fields(*m), key@)),
{
    text_of(required(m, key)?, key)
}

/// The optional string field `key`.
pub fn read_opt_text(m: &serde_json::Map<String, Value>, key: &str) -> (r: Result<Option<String>, GenAiError>)
    ensures
        match opt_text_at(map_fields(*m), key@) {
            Ok(Some(s)) => r matches Ok(Some(t)) && t@ == s,
            Ok(None) => r matches Ok(None),
            Err(e) => r matches Err(x) && x@ == GenAiErrorView::JsonError(e),
        },
{
    match optional(m, key) {
        Some(v) => Ok(Some(text_of(v, key)?)),
        None => Ok(None),
    }
}

/// The optional boolean field `key`.
pub fn read_opt_flag(m: &serde_json::Map<String, Value>, key: &str) -> (r: Result<Option<bool>, GenAiError>)
    ensures
        outcome(r, opt_flag_at(map_fields(*m), key@)),
{
    match optional(m, key) {
        Some(v) => Ok(Some(flag_of(v, key)?)),
        None => Ok(None),
    }
}

/// The required field `key` that holds an unsigned integer of 32 bits.
pub fn read_u32(m: &serde_json::Map<String, Value>, key: &str) -> (r: Result<u32, GenAiError>)
    ensures
        outcome(r, u32_at(map_fields(*m), key@)),
{
    u32_of(required(m, key)?, key)
}

/// The required number field `key`.
pub fn read_number(m: &serde_json::Map<String, Value>, key: &str) -> (r: Result<Number, GenAiError>)
    ensures
        match number_at(map_fields(*m), key@) {
            Ok(n) => r matches Ok(x) && number_view(x) == n,
            Err(e) => r matches Err(x) && x@ == GenAiErrorView::JsonError(e),
        },
{
    number_of(required(m, key)?, key)
}

/// The optional number field `key`.
pub fn read_opt_number(m: &serde_json::Map<String, Value>, key: &str) -> (r: Result<Option<Number>, GenAiError>)
    ensures
        match opt_number_at(map_fields(*m), key@) {
            Ok(Some(n)) => r matches Ok(Some(x)) && number_view(x) == n,
            Ok(None) => r matches Ok(None),
            Err(e) => r matches Err(x) && x@ == GenAiErrorView::JsonError(e),
        },
{
    match optional(m, key) {
        Some(v) => Ok(Some(number_of(v, key)?)),
        None => Ok(None),
    }
}

/// The elements of the required array field `key`.
pub fn read_items<'a>(m: &'a serde_json::Map<String, Value>, key: &str) -> (r: Result<&'a Vec<Value>, GenAiError>)
    ensures
        match items_at(map_fields(*m), key@) {
            Ok(items) => r matches Ok(a) && values_json(a@) == items,
            Err(e) => r matches Err(x) && x@ == GenAiErrorView::JsonError(e),
        },
{
    items_of(required(m, key)?, key)
}

/// Copies of the elements of the optional array field `key`.
pub fn read_opt_items(m: &serde_json::Map<String, Value>, key: &str) -> (r: Result<Option<Vec<Value>>, GenAiError>)
    ensures
        match opt_items_at(map_fields(*m), key@) {
            Ok(Some(items)) => r matches Ok(Some(a)) && values_json(a@) == items,
            Ok(None) => r matches Ok(None),
            Err(e) => r matches Err(x) && x@ == GenAiErrorView::JsonError(e),
        },
{
    match optional(m, key) {
        Some(v) => Ok(Some(cloned_values(items_of(v, key)?))),
        None => Ok(None),
    }
}

} // verus!

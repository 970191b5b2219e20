//! The mathematical model of a JSON value, and the calls into `serde_json`.
//!
//! Verus cannot look inside a `serde_json::Value`. Contracts speak of such a
//! value through [`json_model`], and the functions of this file that are
//! marked `external_body` state what `serde_json` does in terms of it. Their
//! contracts are believed, not proved.

use vstd::prelude::*;

verus! {

#[verifier::external_type_specification]
#[verifier::external_body]
pub struct ExValue(serde_json::Value);

#[verifier::external_type_specification]
#[verifier::external_body]
pub struct ExJsonError(serde_json::Error);

/// A JSON value as contracts see it.
pub enum Json {
    Null,
    Bool(bool),
    /// A number without fraction or exponent.
    Int(int),
    /// Any other number, by its digits.
    Decimal(Seq<char>),
    Text(Seq<char>),
    Array(Seq<Json>),
    Object(Map<Seq<char>, Json>),
}

/// What a `serde_json::Value` holds.
pub uninterp spec fn json_model(v: serde_json::Value) -> Json;

/// The models of a sequence of values, in order.
pub open spec fn json_models(items: Seq<serde_json::Value>) -> Seq<Json> {
    Seq::new(items.len(), |i: int| json_model(items[i]))
}

/// Whether no two entries of `es` have the same key.
pub open spec fn keys_distinct(es: Seq<(String, serde_json::Value)>) -> bool {
    forall|i: int, j: int|
        0 <= i < j < es.len() ==> (#[trigger] es[i]).0@ != (#[trigger] es[j]).0@
}

/// Whether some entry of `es` has the key `k`.
pub open spec fn has_key(es: Seq<(String, serde_json::Value)>, k: Seq<char>) -> bool {
    exists|i: int| 0 <= i < es.len() && (#[trigger] es[i]).0@ == k
}

/// The place of an entry of `es` with the key `k`.
pub open spec fn index_of(es: Seq<(String, serde_json::Value)>, k: Seq<char>) -> int {
    choose|i: int| 0 <= i < es.len() && (#[trigger] es[i]).0@ == k
}

/// The mapping that a list of entries with distinct keys stands for: each
/// key with the model of its value.
pub open spec fn entries_map(es: Seq<(String, serde_json::Value)>) -> Map<Seq<char>, Json> {
    Map::new(|k: Seq<char>| has_key(es, k), |k: Seq<char>| json_model(es[index_of(es, k)].1))
}

/// What `serde_json::from_slice` makes of a text: the model of the value
/// that it parses to, or `None` where it reports an error.
pub uninterp spec fn json_parse(bytes: Seq<u8>) -> Option<Json>;

/// `serde_json::Value::Null`.
#[verifier::external_body]
pub(crate) fn json_null() -> (r: serde_json::Value)
    ensures
        json_model(r) == Json::Null,
{
    serde_json::Value::Null
}

/// `serde_json::Value::Bool`: the value that holds `b`.
#[verifier::external_body]
pub(crate) fn json_bool(b: bool) -> (r: serde_json::Value)
    ensures
        json_model(r) == Json::Bool(b),
{
    serde_json::Value::Bool(b)
}

/// `From<i64> for serde_json::Value`: the number `n`, stored as an integer.
#[verifier::external_body]
pub(crate) fn json_int(n: i64) -> (r: serde_json::Value)
    ensures
        json_model(r) == Json::Int(n as int),
{
    serde_json::Value::from(n)
}

/// `From<&str> for serde_json::Value`: the string with the characters of `s`.
#[verifier::external_body]
pub(crate) fn json_text(s: &str) -> (r: serde_json::Value)
    ensures
        json_model(r) == Json::Text(s@),
{
    serde_json::Value::from(s)
}

/// `serde_json::Value::Array`: the array of `items`, in their order.
#[verifier::external_body]
pub(crate) fn json_array(items: Vec<serde_json::Value>) -> (r: serde_json::Value)
    ensures
        json_model(r) == Json::Array(json_models(items@)),
{
    serde_json::Value::Array(items)
}

/// `serde_json::Value::Object` over `FromIterator for serde_json::Map`: the
/// object with exactly the given entries. The keys are distinct, so no entry
/// replaces another.
#[verifier::external_body]
pub(crate) fn json_object(entries: Vec<(String, serde_json::Value)>) -> (r: serde_json::Value)
    requires
        keys_distinct(entries@),
    ensures
        json_model(r) == Json::Object(entries_map(entries@)),
{
    serde_json::Value::Object(entries.into_iter().collect())
}

/// `serde_json::Value::as_object` and `serde_json::Map::iter`: the entries of
/// an object, each copied, or `None` for a value that is no object. A map
/// holds a key once, so the keys that come out are distinct.
#[verifier::external_body]
pub(crate) fn json_members(v: &serde_json::Value) -> (r: Option<Vec<(String, serde_json::Value)>>)
    ensures
        match r {
            Some(es) => keys_distinct(es@) && json_model(*v) == Json::Object(entries_map(es@)),
            None => !(json_model(*v) is Object),
        },
{
    v.as_object().map(|m| m.iter().map(|(k, x)| (k.clone(), x.clone())).collect())
}

/// `serde_json::Value::as_str`: the characters of a string value, or `None`
/// for a value that is no string.
#[verifier::external_body]
pub(crate) fn json_text_of(v: &serde_json::Value) -> (r: Option<String>)
    ensures
        match r {
            Some(s) => json_model(*v) == Json::Text(s@),
            None => !(json_model(*v) is Text),
        },
{
    v.as_str().map(|s| s.to_owned())
}

/// `serde_json::from_slice` at `serde_json::Value`: parses a whole text. The
/// outcome depends on the bytes alone.
#[verifier::external_body]
pub(crate) fn parse_json(bytes: &[u8]) -> (r: Result<serde_json::Value, serde_json::Error>)
    ensures
        match r {
            Ok(v) => json_parse(bytes@) == Some(json_model(v)),
            Err(_) => json_parse(bytes@) is None,
        },
{
    serde_json::from_slice(bytes)
}

/// A type whose values have a JSON form.
pub trait IntoJson: Sized {
    /// The JSON form of `self`.
    spec fn json_spec(&self) -> Json;

    /// Builds the JSON form of `self`.
    fn into_json(self) -> (r: serde_json::Value)
        ensures
            json_model(r) == self.json_spec(),
    ;
}

impl IntoJson for bool {
    open spec fn json_spec(&self) -> Json {
        Json::Bool(*self)
    }

    fn into_json(self) -> (r: serde_json::Value) {
        json_bool(self)
    }
}

impl IntoJson for i32 {
    open spec fn json_spec(&self) -> Json {
        Json::Int(*self as int)
    }

    fn into_json(self) -> (r: serde_json::Value) {
        json_int(self as i64)
    }
}

impl IntoJson for u32 {
    open spec fn json_spec(&self) -> Json {
        Json::Int(*self as int)
    }

    fn into_json(self) -> (r: serde_json::Value) {
        json_int(self as i64)
    }
}

impl IntoJson for String {
    open spec fn json_spec(&self) -> Json {
        Json::Text(self@)
    }

    fn into_json(self) -> (r: serde_json::Value) {
        json_text(self.as_str())
    }
}

/// The JSON strings of a sequence of strings, in order.
pub open spec fn text_models(items: Seq<String>) -> Seq<Json> {
    Seq::new(items.len(), |i: int| Json::Text(items[i]@))
}

impl IntoJson for Vec<String> {
    open spec fn json_spec(&self) -> Json {
        Json::Array(text_models(self@))
    }

    fn into_json(self) -> (r: serde_json::Value) {
        let mut values: Vec<serde_json::Value> = Vec::new();
        let mut i: usize = 0;
        while i < self.len()
            invariant
                i <= self.len(),
                values.len() == i,
                forall|j: int| 0 <= j < i ==> json_model(#[trigger] values[j]) == Json::Text(self[j]@),
            decreases self.len() - i,
        {
            values.push(json_text(self[i].as_str()));
            i += 1;
        }
        assert(json_models(values@) =~= text_models(self@));
        json_array(values)
    }
}

impl IntoJson for serde_json::Value {
    open spec fn json_spec(&self) -> Json {
        json_model(*self)
    }

    fn into_json(self) -> (r: serde_json::Value) {
        self
    }
}

impl IntoJson for Vec<serde_json::Value> {
    open spec fn json_spec(&self) -> Json {
        Json::Array(json_models(self@))
    }

    fn into_json(self) -> (r: serde_json::Value) {
        json_array(self)
    }
}

} // verus!

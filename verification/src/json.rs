//! A JSON document model holding exactly what the exchange decoders read:
//! the shape of a decoded document, with numbers kept in the three forms a
//! JSON reader produces (non-negative integer, negative integer, finite
//! double as its IEEE-754 bit pattern), and the decoding of JSON text into it
//! by serde_json.

use serde_json::{Number, Value};
use vstd::prelude::*;

verus! {

#[verifier::external_type_specification]
#[verifier::external_body]
pub struct ExSerdeJsonValue(Value);

#[verifier::external_type_specification]
#[verifier::external_body]
pub struct ExSerdeJsonNumber(Number);

/// A JSON number.
#[derive(Debug, Clone, Copy)]
pub enum JsonNumber {
    /// A non-negative integer.
    PosInt(u64),
    /// A negative integer.
    NegInt(i64),
    /// Any other number: a finite double, as its bit pattern.
    Float(u64),
}

/// A JSON value. Object members keep their order; lookups find the first
/// member with the key (a decoded document holds each key once).
#[derive(Debug)]
pub enum JsonValue {
    Null,
    Bool(bool),
    Number(JsonNumber),
    Str(String),
    Array(Vec<JsonValue>),
    Object(Vec<(String, JsonValue)>),
}

/// The value of the first member named `key`, scanning `members` from the front.
pub open spec fn member_lookup(members: Seq<(String, JsonValue)>, key: Seq<char>) -> Option<JsonValue>
    decreases members.len(),
{
    if members.len() == 0 {
        None
    } else if members[0].0@ == key {
        Some(members[0].1)
    } else {
        member_lookup(members.drop_first(), key)
    }
}

/// `v.get(key)`: the member named `key` of an object, `None` for anything else.
pub open spec fn spec_get(v: JsonValue, key: Seq<char>) -> Option<JsonValue> {
    match v {
        JsonValue::Object(members) => member_lookup(members@, key),
        _ => None,
    }
}

/// The text of a string value.
pub open spec fn spec_as_str(v: JsonValue) -> Option<Seq<char>> {
    match v {
        JsonValue::Str(s) => Some(s@),
        _ => None,
    }
}

/// A non-negative integer value.
pub open spec fn spec_as_u64(v: JsonValue) -> Option<u64> {
    match v {
        JsonValue::Number(JsonNumber::PosInt(n)) => Some(n),
        _ => None,
    }
}

/// A boolean value.
pub open spec fn spec_as_bool(v: JsonValue) -> Option<bool> {
    match v {
        JsonValue::Bool(b) => Some(b),
        _ => None,
    }
}

/// The elements of an array value.
pub open spec fn spec_as_array(v: JsonValue) -> Option<Seq<JsonValue>> {
    match v {
        JsonValue::Array(items) => Some(items@),
        _ => None,
    }
}

/// The text of the string member `key` of `v`.
pub open spec fn str_member(v: JsonValue, key: Seq<char>) -> Option<Seq<char>> {
    match spec_get(v, key) {
        Some(m) => spec_as_str(m),
        None => None,
    }
}

/// The non-negative integer member `key` of `v`.
pub open spec fn u64_member(v: JsonValue, key: Seq<char>) -> Option<u64> {
    match spec_get(v, key) {
        Some(m) => spec_as_u64(m),
        None => None,
    }
}

/// The boolean member `key` of `v`.
pub open spec fn bool_member(v: JsonValue, key: Seq<char>) -> Option<bool> {
    match spec_get(v, key) {
        Some(m) => spec_as_bool(m),
        None => None,
    }
}

/// The elements of the array member `key` of `v`.
pub open spec fn array_member(v: JsonValue, key: Seq<char>) -> Option<Seq<JsonValue>> {
    match spec_get(v, key) {
        Some(m) => spec_as_array(m),
        None => None,
    }
}

impl JsonValue {
    /// The member named `key`, where `self` is an object that has one.
    pub fn get(&self, key: &str) -> (r: Option<&JsonValue>)
        ensures
            match r {
                Some(m) => spec_get(*self, key@) == Some(*m),
                None => spec_get(*self, key@) is None,
            },
    {
        match self {
            JsonValue::Object(members) => {
                let wanted = key.to_owned();
                let mut i: usize = 0;
                assert(members@.skip(0) == members@);
                while i < members.len()
                    invariant
                        0 <= i <= members@.len(),
                        wanted@ == key@,
                        spec_get(*self, key@) == member_lookup(members@, key@),
                        member_lookup(members@, key@) == member_lookup(members@.skip(i as int), key@),
                    decreases members@.len() - i,
                {
                    assert(members@.skip(i as int).drop_first() == members@.skip(i + 1));
                    assert(members@.skip(i as int)[0] == members@[i as int]);
                    if members[i].0 == wanted {
                        return Some(&members[i].1);
                    }
                    i = i + 1;
                }
                None
            },
            _ => None,
        }
    }

    /// The text of a string value.
    pub fn as_str(&self) -> (r: Option<&str>)
        ensures
            match r {
                Some(s) => spec_as_str(*self) == Some(s@),
                None => spec_as_str(*self) is None,
            },
    {
        match self {
            JsonValue::Str(s) => Some(s.as_str()),
            _ => None,
        }
    }

    /// A non-negative integer value.
    pub fn as_u64(&self) -> (r: Option<u64>)
        ensures
            r == spec_as_u64(*self),
    {
        match self {
            JsonValue::Number(JsonNumber::PosInt(n)) => Some(*n),
            _ => None,
        }
    }

    /// A boolean value.
    pub fn as_bool(&self) -> (r: Option<bool>)
        ensures
            r == spec_as_bool(*self),
    {
        match self {
            JsonValue::Bool(b) => Some(*b),
            _ => None,
        }
    }

    /// The elements of an array value.
    pub fn as_array(&self) -> (r: Option<&Vec<JsonValue>>)
        ensures
            match r {
                Some(items) => spec_as_array(*self) == Some(items@),
                None => spec_as_array(*self) is None,
            },
    {
        match self {
            JsonValue::Array(items) => Some(items),
            _ => None,
        }
    }
}

/// The document that JSON text decodes to, or `None` where the text is not
/// JSON (serde_json's `from_str` into its `Value`).
pub uninterp spec fn json_document(text: Seq<char>) -> Option<JsonValue>;

/// serde_json's `Number`, converted one for one in the form serde_json holds
/// it (`as_u64`, else `as_i64`, else the double's bits). Used by
/// `json_value_of` alone.
#[verifier::external_body]
fn json_number_of(n: &Number) -> JsonNumber {
    match (n.as_u64(), n.as_i64()) {
        (Some(u), _) => JsonNumber::PosInt(u),
        (None, Some(i)) => JsonNumber::NegInt(i),
        (None, None) => JsonNumber::Float(n.as_f64().map(|x| x.to_bits()).unwrap_or(0)),
    }
}

/// serde_json's `Value`, converted one for one, object members in the map's
/// order. Used by `parse_json` alone.
#[verifier::external_body]
fn json_value_of(v: &Value) -> JsonValue {
    match v {
        Value::Null => JsonValue::Null,
        Value::Bool(b) => JsonValue::Bool(*b),
        Value::Number(n) => JsonValue::Number(json_number_of(n)),
        Value::String(s) => JsonValue::Str(s.clone()),
        Value::Array(items) => JsonValue::Array(items.iter().map(json_value_of).collect()),
        Value::Object(members) => JsonValue::Object(
            members.iter().map(|(k, m)| (k.clone(), json_value_of(m))).collect(),
        ),
    }
}

/// serde_json's `from_str::<Value>`: decodes JSON text. The result is a
/// function of the text alone, named `json_document`; `None` where serde_json
/// refuses the text.
#[verifier::external_body]
pub fn parse_json(text: &str) -> (r: Option<JsonValue>)
    ensures
        r == json_document(text@),
{
    serde_json::from_str::<Value>(text).ok().map(|v| json_value_of(&v))
}

} // verus!

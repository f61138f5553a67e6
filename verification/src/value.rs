//! The document value model and its type discriminants.
//!
//! The host stores a JSON value tree behind a keyspace key; this module
//! models that tree as plain data. A float is carried only as its raw bit
//! pattern: this core never interprets numeric contents, it only reports
//! type discriminants and walks the tree structure.

use vstd::prelude::*;

verus! {

/// The dynamic type of a document value, as reported across the shared API.
///
/// `Err` is reserved for "introspection failed" (a null or stale handle);
/// it never describes a real JSON value.
#[derive(Clone, Copy, Debug, PartialEq, Eq, Structural)]
pub enum JSONType {
    String,
    Int,
    Float,
    Bool,
    Object,
    Array,
    Null,
    Error,
}

/// The stable wire encoding of each type discriminant. The numbering is part
/// of the published ABI and must never change once callers depend on it.
pub open spec fn spec_type_code(t: JSONType) -> int {
    match t {
        JSONType::String => 0,
        JSONType::Int => 1,
        JSONType::Float => 2,
        JSONType::Bool => 3,
        JSONType::Object => 4,
        JSONType::Array => 5,
        JSONType::Null => 6,
        JSONType::Error => 7,
    }
}

/// Encodes a type discriminant as its fixed small-integer wire value.
pub fn type_code(t: JSONType) -> (c: i32)
    ensures
        c == spec_type_code(t),
{
    match t {
        JSONType::String => 0,
        JSONType::Int => 1,
        JSONType::Float => 2,
        JSONType::Bool => 3,
        JSONType::Object => 4,
        JSONType::Array => 5,
        JSONType::Null => 6,
        JSONType::Error => 7,
    }
}

/// A JSON value tree, owned by the keyspace entry it is stored under.
///
/// Object members keep insertion order; a path step selects the first member
/// whose name matches. The `Float` variant holds the IEEE bit pattern of the
/// stored number: this core never reads it, it only reports the type.
pub enum JsonValue {
    String(String),
    Int(i64),
    Float(u64),
    Bool(bool),
    Object(Vec<(String, JsonValue)>),
    Array(Vec<JsonValue>),
    Null,
}

/// The type discriminant of a real document value. Never `Err`.
pub open spec fn spec_json_type(v: JsonValue) -> JSONType {
    match v {
        JsonValue::String(_) => JSONType::String,
        JsonValue::Int(_) => JSONType::Int,
        JsonValue::Float(_) => JSONType::Float,
        JsonValue::Bool(_) => JSONType::Bool,
        JsonValue::Object(_) => JSONType::Object,
        JsonValue::Array(_) => JSONType::Array,
        JsonValue::Null => JSONType::Null,
    }
}

/// Reports the dynamic type of a document value.
pub fn json_type(v: &JsonValue) -> (t: JSONType)
    ensures
        t == spec_json_type(*v),
{
    match v {
        JsonValue::String(_) => JSONType::String,
        JsonValue::Int(_) => JSONType::Int,
        JsonValue::Float(_) => JSONType::Float,
        JsonValue::Bool(_) => JSONType::Bool,
        JsonValue::Object(_) => JSONType::Object,
        JsonValue::Array(_) => JSONType::Array,
        JsonValue::Null => JSONType::Null,
    }
}

/// A real value's discriminant is never the error sentinel.
pub proof fn lemma_value_type_is_not_err(v: JsonValue)
    ensures
        spec_json_type(v) != JSONType::Error,
        0 <= spec_type_code(spec_json_type(v)) < 7,
{
}

} // verus!

//! A plain model of a JSON document: what the HTTP API sends and receives.
//! Turning it into text and back is left to a JSON library outside.

use vstd::prelude::*;

verus! {

/// A JSON number, kept as the JSON library keeps it: a non-negative
/// integer, a negative integer, or a finite number with a fraction, held
/// here by the bits of its IEEE 754 double.
#[derive(Debug, Clone, Copy, PartialEq)]
pub enum JsonNumber {
    PosInt(u64),
    /// Always below zero.
    NegInt(i64),
    Float(u64),
}

/// A JSON value.
#[derive(Debug, PartialEq)]
pub enum JsonValue {
    Null,
    Bool(bool),
    Number(JsonNumber),
    String(String),
    Array(Vec<JsonValue>),
    /// Members in order, each key at most once.
    Object(Vec<(String, JsonValue)>),
}

/// The boolean held, if the value is one.
pub open spec fn json_as_bool(v: JsonValue) -> Option<bool> {
    match v {
        JsonValue::Bool(b) => Some(b),
        _ => None,
    }
}

/// The integer held, if it is one that fits in an `i64`.
pub open spec fn json_as_i64(v: JsonValue) -> Option<i64> {
    match v {
        JsonValue::Number(JsonNumber::PosInt(n)) => if n <= i64::MAX {
            Some(n as i64)
        } else {
            None
        },
        JsonValue::Number(JsonNumber::NegInt(n)) => Some(n),
        _ => None,
    }
}

/// The integer held, if it is one that fits in a `u64`.
pub open spec fn json_as_u64(v: JsonValue) -> Option<u64> {
    match v {
        JsonValue::Number(JsonNumber::PosInt(n)) => Some(n),
        _ => None,
    }
}

/// `v` is the JSON string with text `s`.
pub open spec fn is_json_string(v: JsonValue, s: Seq<char>) -> bool {
    v matches JsonValue::String(t) && t@ == s
}

/// The number that JSON writes for the integer `v`.
pub open spec fn json_int(v: int) -> JsonNumber {
    if v < 0 {
        JsonNumber::NegInt(v as i64)
    } else {
        JsonNumber::PosInt(v as u64)
    }
}

impl JsonValue {
    /// The boolean held, if the value is one.
    pub fn as_bool(&self) -> (res: Option<bool>)
        ensures
            res == json_as_bool(*self),
    {
        match self {
            JsonValue::Bool(b) => Some(*b),
            _ => None,
        }
    }

    /// The integer held, if it is one that fits in an `i64`.
    pub fn as_i64(&self) -> (res: Option<i64>)
        ensures
            res == json_as_i64(*self),
    {
        match self {
            JsonValue::Number(JsonNumber::PosInt(n)) => {
                if *n <= 0x7fff_ffff_ffff_ffffu64 {
                    Some(*n as i64)
                } else {
                    None
                }
            },
            JsonValue::Number(JsonNumber::NegInt(n)) => Some(*n),
            _ => None,
        }
    }

    /// The integer held, if it is one that fits in a `u64`.
    pub fn as_u64(&self) -> (res: Option<u64>)
        ensures
            res == json_as_u64(*self),
    {
        match self {
            JsonValue::Number(JsonNumber::PosInt(n)) => Some(*n),
            _ => None,
        }
    }

    /// The text held, if the value is a string.
    pub fn as_str(&self) -> (res: Option<&str>)
        ensures
            match res {
                Some(s) => *self matches JsonValue::String(t) && s@ == t@,
                None => !(*self is String),
            },
    {
        match self {
            JsonValue::String(s) => Some(s.as_str()),
            _ => None,
        }
    }

    /// The JSON number for `v`.
    pub fn from_i32(v: i32) -> (res: JsonValue)
        ensures
            res == JsonValue::Number(json_int(v as int)),
    {
        if v < 0 {
            JsonValue::Number(JsonNumber::NegInt(v as i64))
        } else {
            JsonValue::Number(JsonNumber::PosInt(v as u64))
        }
    }
}

} // verus!

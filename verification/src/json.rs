//! A JSON value tree. Numbers carry either an exact integer or the IEEE-754
//! bit pattern of a floating-point value, so the tree itself stays free of
//! floating-point arithmetic; the serialization layer outside this crate
//! restores the float from its bits when it renders the tree.

use vstd::prelude::*;

verus! {

/// A JSON-compatible value.
#[derive(Debug, PartialEq)]
pub enum JsonValue {
    Null,
    Bool(bool),
    /// A JSON number holding an exact signed integer.
    Int(i64),
    /// A JSON number holding an exact unsigned integer.
    UInt(u64),
    /// A JSON number: the bits of an IEEE-754 single-precision float.
    Float32(u32),
    /// A JSON number: the bits of an IEEE-754 double-precision float.
    Float64(u64),
    Text(String),
    Array(Vec<JsonValue>),
    /// Key/value members in insertion order.
    Object(Vec<(String, JsonValue)>),
}

} // verus!

//! A JSON document as plain values.

use vstd::prelude::*;

verus! {

/// A JSON number as `serde_json` keeps it: a signed or unsigned integer, or a
/// finite double carried as its IEEE-754 bit pattern.
#[derive(Debug, Clone, Copy)]
pub enum JsonNumber {
    Signed(i64),
    Unsigned(u64),
    Float(u64),
}

/// A JSON value. An object keeps its members in order.
#[derive(Debug)]
pub enum JsonValue {
    Null,
    Bool(bool),
    Number(JsonNumber),
    String(String),
    Array(Vec<JsonValue>),
    Object(Vec<(String, JsonValue)>),
}

/// Whether the IEEE-754 double with bit pattern `bits` is finite (its exponent
/// field is not all ones).
pub open spec fn is_finite_double(bits: u64) -> bool {
    (bits >> 52u64) & 0x7ffu64 != 0x7ffu64
}

/// Whether the double with bit pattern `bits` is finite.
pub fn double_is_finite(bits: u64) -> (res: bool)
    ensures
        res == is_finite_double(bits),
{
    (bits >> 52u64) & 0x7ffu64 != 0x7ffu64
}

} // verus!

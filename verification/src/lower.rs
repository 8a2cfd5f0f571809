//! Lowering: [`Value`] to a required native type, partial.
//!
//! Each target type accepts exactly one tag. On that tag the payload is
//! unwrapped — narrowed with Rust's truncating `as` cast for the integer
//! widths, moved unchanged for everything else. On every other tag the
//! operation fails with a [`TypeError`] naming the expected and the found
//! kind. Narrowing is deliberately unchecked: an integer outside the
//! target's range wraps, it is never rejected, so the only failure a
//! lowering can produce is a tag mismatch.
use crate::error::{mismatch, TypeError};
use crate::value::{Cid, Kind, Value};
use std::collections::BTreeMap;
use vstd::prelude::*;

verus! {

/// Lowering into the unit type: absence and nothing else.
pub open spec fn lower_unit_spec(v: Value) -> Result<(), TypeError> {
    match v {
        Value::Absence => Ok(()),
        _ => Err(mismatch(Kind::Absence, v)),
    }
}

/// Lowering into a boolean.
pub open spec fn lower_bool_spec(v: Value) -> Result<bool, TypeError> {
    match v {
        Value::Boolean(b) => Ok(b),
        _ => Err(mismatch(Kind::Boolean, v)),
    }
}

/// Lowering into an 8-bit signed integer; the payload wraps.
pub open spec fn lower_i8_spec(v: Value) -> Result<i8, TypeError> {
    match v {
        Value::Integer(i) => Ok(i as i8),
        _ => Err(mismatch(Kind::Integer, v)),
    }
}

/// Lowering into a 16-bit signed integer; the payload wraps.
pub open spec fn lower_i16_spec(v: Value) -> Result<i16, TypeError> {
    match v {
        Value::Integer(i) => Ok(i as i16),
        _ => Err(mismatch(Kind::Integer, v)),
    }
}

/// Lowering into a 32-bit signed integer; the payload wraps.
pub open spec fn lower_i32_spec(v: Value) -> Result<i32, TypeError> {
    match v {
        Value::Integer(i) => Ok(i as i32),
        _ => Err(mismatch(Kind::Integer, v)),
    }
}

/// Lowering into a 64-bit signed integer; the payload wraps.
pub open spec fn lower_i64_spec(v: Value) -> Result<i64, TypeError> {
    match v {
        Value::Integer(i) => Ok(i as i64),
        _ => Err(mismatch(Kind::Integer, v)),
    }
}

/// Lowering into the wide integer type itself; the payload is unchanged.
pub open spec fn lower_i128_spec(v: Value) -> Result<i128, TypeError> {
    match v {
        Value::Integer(i) => Ok(i),
        _ => Err(mismatch(Kind::Integer, v)),
    }
}

/// Lowering into a word-sized signed integer; the payload wraps.
pub open spec fn lower_isize_spec(v: Value) -> Result<isize, TypeError> {
    match v {
        Value::Integer(i) => Ok(i as isize),
        _ => Err(mismatch(Kind::Integer, v)),
    }
}

/// Lowering into an 8-bit unsigned integer; the payload wraps.
pub open spec fn lower_u8_spec(v: Value) -> Result<u8, TypeError> {
    match v {
        Value::Integer(i) => Ok(i as u8),
        _ => Err(mismatch(Kind::Integer, v)),
    }
}

/// Lowering into a 16-bit unsigned integer; the payload wraps.
pub open spec fn lower_u16_spec(v: Value) -> Result<u16, TypeError> {
    match v {
        Value::Integer(i) => Ok(i as u16),
        _ => Err(mismatch(Kind::Integer, v)),
    }
}

/// Lowering into a 32-bit unsigned integer; the payload wraps.
pub open spec fn lower_u32_spec(v: Value) -> Result<u32, TypeError> {
    match v {
        Value::Integer(i) => Ok(i as u32),
        _ => Err(mismatch(Kind::Integer, v)),
    }
}

/// Lowering into a 64-bit unsigned integer; the payload wraps.
pub open spec fn lower_u64_spec(v: Value) -> Result<u64, TypeError> {
    match v {
        Value::Integer(i) => Ok(i as u64),
        _ => Err(mismatch(Kind::Integer, v)),
    }
}

/// Lowering into a 128-bit unsigned integer; a negative payload wraps.
pub open spec fn lower_u128_spec(v: Value) -> Result<u128, TypeError> {
    match v {
        Value::Integer(i) => Ok(i as u128),
        _ => Err(mismatch(Kind::Integer, v)),
    }
}

/// Lowering into a word-sized unsigned integer; the payload wraps.
pub open spec fn lower_usize_spec(v: Value) -> Result<usize, TypeError> {
    match v {
        Value::Integer(i) => Ok(i as usize),
        _ => Err(mismatch(Kind::Integer, v)),
    }
}

/// Lowering into the bit pattern of a 64-bit float.
pub open spec fn lower_float_bits_spec(v: Value) -> Result<u64, TypeError> {
    match v {
        Value::Float(bits) => Ok(bits),
        _ => Err(mismatch(Kind::Float, v)),
    }
}

/// Lowering into owned text; the payload moves out unchanged.
pub open spec fn lower_text_spec(v: Value) -> Result<String, TypeError> {
    match v {
        Value::Text(s) => Ok(s),
        _ => Err(mismatch(Kind::Text, v)),
    }
}

/// Lowering into an owned byte sequence; the payload moves out unchanged.
pub open spec fn lower_bytes_spec(v: Value) -> Result<Vec<u8>, TypeError> {
    match v {
        Value::Bytes(b) => Ok(b),
        _ => Err(mismatch(Kind::Bytes, v)),
    }
}

/// Lowering into an ordered sequence of values; the payload moves out
/// unchanged.
pub open spec fn lower_list_spec(v: Value) -> Result<Vec<Value>, TypeError> {
    match v {
        Value::List(l) => Ok(l),
        _ => Err(mismatch(Kind::List, v)),
    }
}

/// Lowering into a sorted map of values; the payload moves out unchanged.
pub open spec fn lower_map_spec(v: Value) -> Result<BTreeMap<String, Value>, TypeError> {
    match v {
        Value::SortedMap(m) => Ok(m),
        _ => Err(mismatch(Kind::SortedMap, v)),
    }
}

/// Lowering into a content identifier; the payload moves out unchanged.
pub open spec fn lower_link_spec(v: Value) -> Result<Cid, TypeError> {
    match v {
        Value::Link(c) => Ok(c),
        _ => Err(mismatch(Kind::Link, v)),
    }
}

impl Value {
    /// Lowers into the unit type; only absence succeeds.
    pub fn into_unit(self) -> (r: Result<(), TypeError>)
        ensures
            r == lower_unit_spec(self),
    {
        match self {
            Value::Absence => Ok(()),
            v => Err(TypeError::new(Kind::Absence, &v)),
        }
    }

    /// Lowers into a boolean.
    pub fn into_bool(self) -> (r: Result<bool, TypeError>)
        ensures
            r == lower_bool_spec(self),
    {
        match self {
            Value::Boolean(b) => Ok(b),
            v => Err(TypeError::new(Kind::Boolean, &v)),
        }
    }

    /// Lowers into an 8-bit signed integer, wrapping out-of-range payloads.
    pub fn into_i8(self) -> (r: Result<i8, TypeError>)
        ensures
            r == lower_i8_spec(self),
    {
        match self {
            Value::Integer(i) => Ok(#[verifier::truncate] (i as i8)),
            v => Err(TypeError::new(Kind::Integer, &v)),
        }
    }

    /// Lowers into a 16-bit signed integer, wrapping out-of-range payloads.
    pub fn into_i16(self) -> (r: Result<i16, TypeError>)
        ensures
            r == lower_i16_spec(self),
    {
        match self {
            Value::Integer(i) => Ok(#[verifier::truncate] (i as i16)),
            v => Err(TypeError::new(Kind::Integer, &v)),
        }
    }

    /// Lowers into a 32-bit signed integer, wrapping out-of-range payloads.
    pub fn into_i32(self) -> (r: Result<i32, TypeError>)
        ensures
            r == lower_i32_spec(self),
    {
        match self {
            Value::Integer(i) => Ok(#[verifier::truncate] (i as i32)),
            v => Err(TypeError::new(Kind::Integer, &v)),
        }
    }

    /// Lowers into a 64-bit signed integer, wrapping out-of-range payloads.
    pub fn into_i64(self) -> (r: Result<i64, TypeError>)
        ensures
            r == lower_i64_spec(self),
    {
        match self {
            Value::Integer(i) => Ok(#[verifier::truncate] (i as i64)),
            v => Err(TypeError::new(Kind::Integer, &v)),
        }
    }

    /// Lowers into the wide integer type itself; nothing is narrowed.
    pub fn into_i128(self) -> (r: Result<i128, TypeError>)
        ensures
            r == lower_i128_spec(self),
    {
        match self {
            Value::Integer(i) => Ok(i),
            v => Err(TypeError::new(Kind::Integer, &v)),
        }
    }

    /// Lowers into a word-sized signed integer, wrapping out-of-range
    /// payloads.
    pub fn into_isize(self) -> (r: Result<isize, TypeError>)
        ensures
            r == lower_isize_spec(self),
    {
        match self {
            Value::Integer(i) => Ok(#[verifier::truncate] (i as isize)),
            v => Err(TypeError::new(Kind::Integer, &v)),
        }
    }

    /// Lowers into an 8-bit unsigned integer, wrapping out-of-range
    /// payloads.
    pub fn into_u8(self) -> (r: Result<u8, TypeError>)
        ensures
            r == lower_u8_spec(self),
    {
        match self {
            Value::Integer(i) => Ok(#[verifier::truncate] (i as u8)),
            v => Err(TypeError::new(Kind::Integer, &v)),
        }
    }

    /// Lowers into a 16-bit unsigned integer, wrapping out-of-range
    /// payloads.
    pub fn into_u16(self) -> (r: Result<u16, TypeError>)
        ensures
            r == lower_u16_spec(self),
    {
        match self {
            Value::Integer(i) => Ok(#[verifier::truncate] (i as u16)),
            v => Err(TypeError::new(Kind::Integer, &v)),
        }
    }

    /// Lowers into a 32-bit unsigned integer, wrapping out-of-range
    /// payloads.
    pub fn into_u32(self) -> (r: Result<u32, TypeError>)
        ensures
            r == lower_u32_spec(self),
    {
        match self {
            Value::Integer(i) => Ok(#[verifier::truncate] (i as u32)),
            v => Err(TypeError::new(Kind::Integer, &v)),
        }
    }

    /// Lowers into a 64-bit unsigned integer, wrapping out-of-range
    /// payloads.
    pub fn into_u64(self) -> (r: Result<u64, TypeError>)
        ensures
            r == lower_u64_spec(self),
    {
        match self {
            Value::Integer(i) => Ok(#[verifier::truncate] (i as u64)),
            v => Err(TypeError::new(Kind::Integer, &v)),
        }
    }

    /// Lowers into a 128-bit unsigned integer; a negative payload wraps.
    pub fn into_u128(self) -> (r: Result<u128, TypeError>)
        ensures
            r == lower_u128_spec(self),
    {
        match self {
            Value::Integer(i) => Ok(#[verifier::truncate] (i as u128)),
            v => Err(TypeError::new(Kind::Integer, &v)),
        }
    }

    /// Lowers into a word-sized unsigned integer, wrapping out-of-range
    /// payloads.
    pub fn into_usize(self) -> (r: Result<usize, TypeError>)
        ensures
            r == lower_usize_spec(self),
    {
        match self {
            Value::Integer(i) => Ok(#[verifier::truncate] (i as usize)),
            v => Err(TypeError::new(Kind::Integer, &v)),
        }
    }

    /// Lowers into the bit pattern of a 64-bit float.
    pub fn into_float_bits(self) -> (r: Result<u64, TypeError>)
        ensures
            r == lower_float_bits_spec(self),
    {
        match self {
            Value::Float(bits) => Ok(bits),
            v => Err(TypeError::new(Kind::Float, &v)),
        }
    }

    /// Lowers into owned text.
    pub fn into_text(self) -> (r: Result<String, TypeError>)
        ensures
            r == lower_text_spec(self),
    {
        match self {
            Value::Text(s) => Ok(s),
            v => Err(TypeError::new(Kind::Text, &v)),
        }
    }

    /// Lowers into an owned byte sequence.
    pub fn into_bytes(self) -> (r: Result<Vec<u8>, TypeError>)
        ensures
            r == lower_bytes_spec(self),
    {
        match self {
            Value::Bytes(b) => Ok(b),
            v => Err(TypeError::new(Kind::Bytes, &v)),
        }
    }

    /// Lowers into an ordered sequence of values; the elements move out
    /// as they are.
    pub fn into_list(self) -> (r: Result<Vec<Value>, TypeError>)
        ensures
            r == lower_list_spec(self),
    {
        match self {
            Value::List(l) => Ok(l),
            v => Err(TypeError::new(Kind::List, &v)),
        }
    }

    /// Lowers into a sorted map of values; the entries move out as they
    /// are.
    pub fn into_map(self) -> (r: Result<BTreeMap<String, Value>, TypeError>)
        ensures
            r == lower_map_spec(self),
    {
        match self {
            Value::SortedMap(m) => Ok(m),
            v => Err(TypeError::new(Kind::SortedMap, &v)),
        }
    }

    /// Lowers into a content identifier.
    pub fn into_link(self) -> (r: Result<Cid, TypeError>)
        ensures
            r == lower_link_spec(self),
    {
        match self {
            Value::Link(c) => Ok(c),
            v => Err(TypeError::new(Kind::Link, &v)),
        }
    }
}

} // verus!

//! Lowering into optionals: [`Value`] to `Option` of a native type.
//!
//! Absence is a valid outcome here, not a mismatch: an absence tag lowers
//! to "no value" for every target type, the target's own tag lowers to
//! "value present" with the payload converted exactly as in the required
//! lowering, and every other tag fails with a [`TypeError`] whose expected
//! kind is the target's kind (never the absence kind). This is not
//! "lower, then wrap": that would reject absence instead of mapping it to
//! "no value".
use crate::error::{mismatch, TypeError};
use crate::value::{Cid, Kind, Value};
use std::collections::BTreeMap;
use vstd::prelude::*;

verus! {

/// Lowering into an optional boolean.
pub open spec fn lower_opt_bool_spec(v: Value) -> Result<Option<bool>, TypeError> {
    match v {
        Value::Absence => Ok(None),
        Value::Boolean(b) => Ok(Some(b)),
        _ => Err(mismatch(Kind::Boolean, v)),
    }
}

/// Lowering into an optional 8-bit signed integer; the payload wraps.
pub open spec fn lower_opt_i8_spec(v: Value) -> Result<Option<i8>, TypeError> {
    match v {
        Value::Absence => Ok(None),
        Value::Integer(i) => Ok(Some(i as i8)),
        _ => Err(mismatch(Kind::Integer, v)),
    }
}

/// Lowering into an optional 16-bit signed integer; the payload wraps.
pub open spec fn lower_opt_i16_spec(v: Value) -> Result<Option<i16>, TypeError> {
    match v {
        Value::Absence => Ok(None),
        Value::Integer(i) => Ok(Some(i as i16)),
        _ => Err(mismatch(Kind::Integer, v)),
    }
}

/// Lowering into an optional 32-bit signed integer; the payload wraps.
pub open spec fn lower_opt_i32_spec(v: Value) -> Result<Option<i32>, TypeError> {
    match v {
        Value::Absence => Ok(None),
        Value::Integer(i) => Ok(Some(i as i32)),
        _ => Err(mismatch(Kind::Integer, v)),
    }
}

/// Lowering into an optional 64-bit signed integer; the payload wraps.
pub open spec fn lower_opt_i64_spec(v: Value) -> Result<Option<i64>, TypeError> {
    match v {
        Value::Absence => Ok(None),
        Value::Integer(i) => Ok(Some(i as i64)),
        _ => Err(mismatch(Kind::Integer, v)),
    }
}

/// Lowering into an optional wide integer; the payload is unchanged.
pub open spec fn lower_opt_i128_spec(v: Value) -> Result<Option<i128>, TypeError> {
    match v {
        Value::Absence => Ok(None),
        Value::Integer(i) => Ok(Some(i)),
        _ => Err(mismatch(Kind::Integer, v)),
    }
}

/// Lowering into an optional word-sized signed integer; the payload wraps.
pub open spec fn lower_opt_isize_spec(v: Value) -> Result<Option<isize>, TypeError> {
    match v {
        Value::Absence => Ok(None),
        Value::Integer(i) => Ok(Some(i as isize)),
        _ => Err(mismatch(Kind::Integer, v)),
    }
}

/// Lowering into an optional 8-bit unsigned integer; the payload wraps.
pub open spec fn lower_opt_u8_spec(v: Value) -> Result<Option<u8>, TypeError> {
    match v {
        Value::Absence => Ok(None),
        Value::Integer(i) => Ok(Some(i as u8)),
        _ => Err(mismatch(Kind::Integer, v)),
    }
}

/// Lowering into an optional 16-bit unsigned integer; the payload wraps.
pub open spec fn lower_opt_u16_spec(v: Value) -> Result<Option<u16>, TypeError> {
    match v {
        Value::Absence => Ok(None),
        Value::Integer(i) => Ok(Some(i as u16)),
        _ => Err(mismatch(Kind::Integer, v)),
    }
}

/// Lowering into an optional 32-bit unsigned integer; the payload wraps.
pub open spec fn lower_opt_u32_spec(v: Value) -> Result<Option<u32>, TypeError> {
    match v {
        Value::Absence => Ok(None),
        Value::Integer(i) => Ok(Some(i as u32)),
        _ => Err(mismatch(Kind::Integer, v)),
    }
}

/// Lowering into an optional 64-bit unsigned integer; the payload wraps.
pub open spec fn lower_opt_u64_spec(v: Value) -> Result<Option<u64>, TypeError> {
    match v {
        Value::Absence => Ok(None),
        Value::Integer(i) => Ok(Some(i as u64)),
        _ => Err(mismatch(Kind::Integer, v)),
    }
}

/// Lowering into an optional 128-bit unsigned integer; a negative payload
/// wraps.
pub open spec fn lower_opt_u128_spec(v: Value) -> Result<Option<u128>, TypeError> {
    match v {
        Value::Absence => Ok(None),
        Value::Integer(i) => Ok(Some(i as u128)),
        _ => Err(mismatch(Kind::Integer, v)),
    }
}

/// Lowering into an optional word-sized unsigned integer; the payload
/// wraps.
pub open spec fn lower_opt_usize_spec(v: Value) -> Result<Option<usize>, TypeError> {
    match v {
        Value::Absence => Ok(None),
        Value::Integer(i) => Ok(Some(i as usize)),
        _ => Err(mismatch(Kind::Integer, v)),
    }
}

/// Lowering into an optional 64-bit float bit pattern.
pub open spec fn lower_opt_float_bits_spec(v: Value) -> Result<Option<u64>, TypeError> {
    match v {
        Value::Absence => Ok(None),
        Value::Float(bits) => Ok(Some(bits)),
        _ => Err(mismatch(Kind::Float, v)),
    }
}

/// Lowering into optional owned text.
pub open spec fn lower_opt_text_spec(v: Value) -> Result<Option<String>, TypeError> {
    match v {
        Value::Absence => Ok(None),
        Value::Text(s) => Ok(Some(s)),
        _ => Err(mismatch(Kind::Text, v)),
    }
}

/// Lowering into an optional owned byte sequence.
pub open spec fn lower_opt_bytes_spec(v: Value) -> Result<Option<Vec<u8>>, TypeError> {
    match v {
        Value::Absence => Ok(None),
        Value::Bytes(b) => Ok(Some(b)),
        _ => Err(mismatch(Kind::Bytes, v)),
    }
}

/// Lowering into an optional ordered sequence of values.
pub open spec fn lower_opt_list_spec(v: Value) -> Result<Option<Vec<Value>>, TypeError> {
    match v {
        Value::Absence => Ok(None),
        Value::List(l) => Ok(Some(l)),
        _ => Err(mismatch(Kind::List, v)),
    }
}

/// Lowering into an optional sorted map of values.
pub open spec fn lower_opt_map_spec(v: Value) -> Result<
    Option<BTreeMap<String, Value>>,
    TypeError,
> {
    match v {
        Value::Absence => Ok(None),
        Value::SortedMap(m) => Ok(Some(m)),
        _ => Err(mismatch(Kind::SortedMap, v)),
    }
}

/// Lowering into an optional content identifier.
pub open spec fn lower_opt_link_spec(v: Value) -> Result<Option<Cid>, TypeError> {
    match v {
        Value::Absence => Ok(None),
        Value::Link(c) => Ok(Some(c)),
        _ => Err(mismatch(Kind::Link, v)),
    }
}

impl Value {
    /// Lowers into an optional boolean; absence means "no value".
    pub fn into_opt_bool(self) -> (r: Result<Option<bool>, TypeError>)
        ensures
            r == lower_opt_bool_spec(self),
    {
        match self {
            Value::Absence => Ok(None),
            Value::Boolean(b) => Ok(Some(b)),
            v => Err(TypeError::new(Kind::Boolean, &v)),
        }
    }

    /// Lowers into an optional 8-bit signed integer; absence means "no
    /// value" and out-of-range payloads wrap.
    pub fn into_opt_i8(self) -> (r: Result<Option<i8>, TypeError>)
        ensures
            r == lower_opt_i8_spec(self),
    {
        match self {
            Value::Absence => Ok(None),
            Value::Integer(i) => Ok(Some(#[verifier::truncate] (i as i8))),
            v => Err(TypeError::new(Kind::Integer, &v)),
        }
    }

    /// Lowers into an optional 16-bit signed integer; absence means "no
    /// value" and out-of-range payloads wrap.
    pub fn into_opt_i16(self) -> (r: Result<Option<i16>, TypeError>)
        ensures
            r == lower_opt_i16_spec(self),
    {
        match self {
            Value::Absence => Ok(None),
            Value::Integer(i) => Ok(Some(#[verifier::truncate] (i as i16))),
            v => Err(TypeError::new(Kind::Integer, &v)),
        }
    }

    /// Lowers into an optional 32-bit signed integer; absence means "no
    /// value" and out-of-range payloads wrap.
    pub fn into_opt_i32(self) -> (r: Result<Option<i32>, TypeError>)
        ensures
            r == lower_opt_i32_spec(self),
    {
        match self {
            Value::Absence => Ok(None),
            Value::Integer(i) => Ok(Some(#[verifier::truncate] (i as i32))),
            v => Err(TypeError::new(Kind::Integer, &v)),
        }
    }

    /// Lowers into an optional 64-bit signed integer; absence means "no
    /// value" and out-of-range payloads wrap.
    pub fn into_opt_i64(self) -> (r: Result<Option<i64>, TypeError>)
        ensures
            r == lower_opt_i64_spec(self),
    {
        match self {
            Value::Absence => Ok(None),
            Value::Integer(i) => Ok(Some(#[verifier::truncate] (i as i64))),
            v => Err(TypeError::new(Kind::Integer, &v)),
        }
    }

    /// Lowers into an optional wide integer; absence means "no value".
    pub fn into_opt_i128(self) -> (r: Result<Option<i128>, TypeError>)
        ensures
            r == lower_opt_i128_spec(self),
    {
        match self {
            Value::Absence => Ok(None),
            Value::Integer(i) => Ok(Some(i)),
            v => Err(TypeError::new(Kind::Integer, &v)),
        }
    }

    /// Lowers into an optional word-sized signed integer; absence means
    /// "no value" and out-of-range payloads wrap.
    pub fn into_opt_isize(self) -> (r: Result<Option<isize>, TypeError>)
        ensures
            r == lower_opt_isize_spec(self),
    {
        match self {
            Value::Absence => Ok(None),
            Value::Integer(i) => Ok(Some(#[verifier::truncate] (i as isize))),
            v => Err(TypeError::new(Kind::Integer, &v)),
        }
    }

    /// Lowers into an optional 8-bit unsigned integer; absence means "no
    /// value" and out-of-range payloads wrap.
    pub fn into_opt_u8(self) -> (r: Result<Option<u8>, TypeError>)
        ensures
            r == lower_opt_u8_spec(self),
    {
        match self {
            Value::Absence => Ok(None),
            Value::Integer(i) => Ok(Some(#[verifier::truncate] (i as u8))),
            v => Err(TypeError::new(Kind::Integer, &v)),
        }
    }

    /// Lowers into an optional 16-bit unsigned integer; absence means "no
    /// value" and out-of-range payloads wrap.
    pub fn into_opt_u16(self) -> (r: Result<Option<u16>, TypeError>)
        ensures
            r == lower_opt_u16_spec(self),
    {
        match self {
            Value::Absence => Ok(None),
            Value::Integer(i) => Ok(Some(#[verifier::truncate] (i as u16))),
            v => Err(TypeError::new(Kind::Integer, &v)),
        }
    }

    /// Lowers into an optional 32-bit unsigned integer; absence means "no
    /// value" and out-of-range payloads wrap.
    pub fn into_opt_u32(self) -> (r: Result<Option<u32>, TypeError>)
        ensures
            r == lower_opt_u32_spec(self),
    {
        match self {
            Value::Absence => Ok(None),
            Value::Integer(i) => Ok(Some(#[verifier::truncate] (i as u32))),
            v => Err(TypeError::new(Kind::Integer, &v)),
        }
    }

    /// Lowers into an optional 64-bit unsigned integer; absence means "no
    /// value" and out-of-range payloads wrap.
    pub fn into_opt_u64(self) -> (r: Result<Option<u64>, TypeError>)
        ensures
            r == lower_opt_u64_spec(self),
    {
        match self {
            Value::Absence => Ok(None),
            Value::Integer(i) => Ok(Some(#[verifier::truncate] (i as u64))),
            v => Err(TypeError::new(Kind::Integer, &v)),
        }
    }

    /// Lowers into an optional 128-bit unsigned integer; absence means
    /// "no value" and a negative payload wraps.
    pub fn into_opt_u128(self) -> (r: Result<Option<u128>, TypeError>)
        ensures
            r == lower_opt_u128_spec(self),
    {
        match self {
            Value::Absence => Ok(None),
            Value::Integer(i) => Ok(Some(#[verifier::truncate] (i as u128))),
            v => Err(TypeError::new(Kind::Integer, &v)),
        }
    }

    /// Lowers into an optional word-sized unsigned integer; absence means
    /// "no value" and out-of-range payloads wrap.
    pub fn into_opt_usize(self) -> (r: Result<Option<usize>, TypeError>)
        ensures
            r == lower_opt_usize_spec(self),
    {
        match self {
            Value::Absence => Ok(None),
            Value::Integer(i) => Ok(Some(#[verifier::truncate] (i as usize))),
            v => Err(TypeError::new(Kind::Integer, &v)),
        }
    }

    /// Lowers into an optional 64-bit float bit pattern; absence means
    /// "no value".
    pub fn into_opt_float_bits(self) -> (r: Result<Option<u64>, TypeError>)
        ensures
            r == lower_opt_float_bits_spec(self),
    {
        match self {
            Value::Absence => Ok(None),
            Value::Float(bits) => Ok(Some(bits)),
            v => Err(TypeError::new(Kind::Float, &v)),
        }
    }

    /// Lowers into optional owned text; absence means "no value".
    pub fn into_opt_text(self) -> (r: Result<Option<String>, TypeError>)
        ensures
            r == lower_opt_text_spec(self),
    {
        match self {
            Value::Absence => Ok(None),
            Value::Text(s) => Ok(Some(s)),
            v => Err(TypeError::new(Kind::Text, &v)),
        }
    }

    /// Lowers into an optional owned byte sequence; absence means "no
    /// value".
    pub fn into_opt_bytes(self) -> (r: Result<Option<Vec<u8>>, TypeError>)
        ensures
            r == lower_opt_bytes_spec(self),
    {
        match self {
            Value::Absence => Ok(None),
            Value::Bytes(b) => Ok(Some(b)),
            v => Err(TypeError::new(Kind::Bytes, &v)),
        }
    }

    /// Lowers into an optional ordered sequence of values; absence means
    /// "no value".
    pub fn into_opt_list(self) -> (r: Result<Option<Vec<Value>>, TypeError>)
        ensures
            r == lower_opt_list_spec(self),
    {
        match self {
            Value::Absence => Ok(None),
            Value::List(l) => Ok(Some(l)),
            v => Err(TypeError::new(Kind::List, &v)),
        }
    }

    /// Lowers into an optional sorted map of values; absence means "no
    /// value".
    pub fn into_opt_map(self) -> (r: Result<Option<BTreeMap<String, Value>>, TypeError>)
        ensures
            r == lower_opt_map_spec(self),
    {
        match self {
            Value::Absence => Ok(None),
            Value::SortedMap(m) => Ok(Some(m)),
            v => Err(TypeError::new(Kind::SortedMap, &v)),
        }
    }

    /// Lowers into an optional content identifier; absence means "no
    /// value".
    pub fn into_opt_link(self) -> (r: Result<Option<Cid>, TypeError>)
        ensures
            r == lower_opt_link_spec(self),
    {
        match self {
            Value::Absence => Ok(None),
            Value::Link(c) => Ok(Some(c)),
            v => Err(TypeError::new(Kind::Link, &v)),
        }
    }
}

} // verus!

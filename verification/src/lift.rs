//! Lifting: native value to [`Value`], total and infallible.
//!
//! Every supported integer width widens onto the single wide `Integer`
//! representation; containers and scalars with a dedicated tag move in
//! unchanged; borrowed inputs are copied. Lifting never fails and never
//! loses information.
use crate::value::{Cid, Value};
use std::collections::BTreeMap;
use vstd::prelude::*;

verus! {

/// Lifting the unit value yields absence.
pub open spec fn lift_unit_spec(u: ()) -> Value {
    Value::Absence
}

/// Lifting a boolean wraps it unchanged.
pub open spec fn lift_bool_spec(b: bool) -> Value {
    Value::Boolean(b)
}

/// Lifting an 8-bit signed integer widens it.
pub open spec fn lift_i8_spec(i: i8) -> Value {
    Value::Integer(i as i128)
}

/// Lifting a 16-bit signed integer widens it.
pub open spec fn lift_i16_spec(i: i16) -> Value {
    Value::Integer(i as i128)
}

/// Lifting a 32-bit signed integer widens it.
pub open spec fn lift_i32_spec(i: i32) -> Value {
    Value::Integer(i as i128)
}

/// Lifting a 64-bit signed integer widens it.
pub open spec fn lift_i64_spec(i: i64) -> Value {
    Value::Integer(i as i128)
}

/// Lifting the wide integer type itself is the identity on the payload.
pub open spec fn lift_i128_spec(i: i128) -> Value {
    Value::Integer(i)
}

/// Lifting a word-sized signed integer widens it.
pub open spec fn lift_isize_spec(i: isize) -> Value {
    Value::Integer(i as i128)
}

/// Lifting an 8-bit unsigned integer widens it.
pub open spec fn lift_u8_spec(u: u8) -> Value {
    Value::Integer(u as i128)
}

/// Lifting a 16-bit unsigned integer widens it.
pub open spec fn lift_u16_spec(u: u16) -> Value {
    Value::Integer(u as i128)
}

/// Lifting a 32-bit unsigned integer widens it.
pub open spec fn lift_u32_spec(u: u32) -> Value {
    Value::Integer(u as i128)
}

/// Lifting a 64-bit unsigned integer widens it.
pub open spec fn lift_u64_spec(u: u64) -> Value {
    Value::Integer(u as i128)
}

/// Lifting a word-sized unsigned integer widens it.
pub open spec fn lift_usize_spec(u: usize) -> Value {
    Value::Integer(u as i128)
}

/// Lifting a 64-bit float bit pattern wraps it unchanged.
pub open spec fn lift_float_bits_spec(bits: u64) -> Value {
    Value::Float(bits)
}

/// Lifting owned text moves it in unchanged.
pub open spec fn lift_text_spec(s: String) -> Value {
    Value::Text(s)
}

/// Lifting an owned byte sequence moves it in unchanged.
pub open spec fn lift_bytes_spec(b: Vec<u8>) -> Value {
    Value::Bytes(b)
}

/// Lifting an ordered sequence of values moves it in unchanged.
pub open spec fn lift_list_spec(l: Vec<Value>) -> Value {
    Value::List(l)
}

/// Lifting a sorted map moves it in unchanged.
pub open spec fn lift_map_spec(m: BTreeMap<String, Value>) -> Value {
    Value::SortedMap(m)
}

/// Lifting an owned content identifier moves it in unchanged.
pub open spec fn lift_link_spec(c: Cid) -> Value {
    Value::Link(c)
}

impl Value {
    /// Lifts the unit value to absence.
    pub fn from_unit(u: ()) -> (v: Value)
        ensures
            v == lift_unit_spec(u),
    {
        Value::Absence
    }

    /// Lifts a boolean.
    pub fn from_bool(b: bool) -> (v: Value)
        ensures
            v == lift_bool_spec(b),
    {
        Value::Boolean(b)
    }

    /// Lifts an 8-bit signed integer by widening.
    pub fn from_i8(i: i8) -> (v: Value)
        ensures
            v == lift_i8_spec(i),
    {
        Value::Integer(i as i128)
    }

    /// Lifts a 16-bit signed integer by widening.
    pub fn from_i16(i: i16) -> (v: Value)
        ensures
            v == lift_i16_spec(i),
    {
        Value::Integer(i as i128)
    }

    /// Lifts a 32-bit signed integer by widening.
    pub fn from_i32(i: i32) -> (v: Value)
        ensures
            v == lift_i32_spec(i),
    {
        Value::Integer(i as i128)
    }

    /// Lifts a 64-bit signed integer by widening.
    pub fn from_i64(i: i64) -> (v: Value)
        ensures
            v == lift_i64_spec(i),
    {
        Value::Integer(i as i128)
    }

    /// Lifts the wide integer type itself; nothing changes.
    pub fn from_i128(i: i128) -> (v: Value)
        ensures
            v == lift_i128_spec(i),
    {
        Value::Integer(i)
    }

    /// Lifts a word-sized signed integer by widening.
    pub fn from_isize(i: isize) -> (v: Value)
        ensures
            v == lift_isize_spec(i),
    {
        Value::Integer(i as i128)
    }

    /// Lifts an 8-bit unsigned integer by widening.
    pub fn from_u8(u: u8) -> (v: Value)
        ensures
            v == lift_u8_spec(u),
    {
        Value::Integer(u as i128)
    }

    /// Lifts a 16-bit unsigned integer by widening.
    pub fn from_u16(u: u16) -> (v: Value)
        ensures
            v == lift_u16_spec(u),
    {
        Value::Integer(u as i128)
    }

    /// Lifts a 32-bit unsigned integer by widening.
    pub fn from_u32(u: u32) -> (v: Value)
        ensures
            v == lift_u32_spec(u),
    {
        Value::Integer(u as i128)
    }

    /// Lifts a 64-bit unsigned integer by widening.
    pub fn from_u64(u: u64) -> (v: Value)
        ensures
            v == lift_u64_spec(u),
    {
        Value::Integer(u as i128)
    }

    /// Lifts a word-sized unsigned integer by widening.
    pub fn from_usize(u: usize) -> (v: Value)
        ensures
            v == lift_usize_spec(u),
    {
        Value::Integer(u as i128)
    }

    /// Lifts the bit pattern of a 64-bit float.
    pub fn from_float_bits(bits: u64) -> (v: Value)
        ensures
            v == lift_float_bits_spec(bits),
    {
        Value::Float(bits)
    }

    /// Lifts owned text.
    pub fn from_text(s: String) -> (v: Value)
        ensures
            v == lift_text_spec(s),
    {
        Value::Text(s)
    }

    /// Lifts borrowed text by copying it.
    pub fn from_str(s: &str) -> (v: Value)
        ensures
            (v matches Value::Text(t) && t@ == s@),
    {
        Value::Text(s.to_owned())
    }

    /// Lifts an owned byte sequence.
    pub fn from_bytes(b: Vec<u8>) -> (v: Value)
        ensures
            v == lift_bytes_spec(b),
    {
        Value::Bytes(b)
    }

    /// Lifts a boxed byte slice by unboxing it into a growable buffer.
    pub fn from_boxed_bytes(b: Box<[u8]>) -> (v: Value)
        ensures
            (v matches Value::Bytes(d) && d@ == b@),
    {
        Value::Bytes(b.into_vec())
    }

    /// Lifts a borrowed byte slice by copying it.
    pub fn from_byte_slice(b: &[u8]) -> (v: Value)
        ensures
            (v matches Value::Bytes(d) && d@ == b@),
    {
        Value::Bytes(vstd::slice::slice_to_vec(b))
    }

    /// Lifts an ordered sequence of values; the elements move in as they
    /// are, with no per-element transformation.
    pub fn from_list(l: Vec<Value>) -> (v: Value)
        ensures
            v == lift_list_spec(l),
    {
        Value::List(l)
    }

    /// Lifts a sorted map of values; the entries move in as they are.
    pub fn from_map(m: BTreeMap<String, Value>) -> (v: Value)
        ensures
            v == lift_map_spec(m),
    {
        Value::SortedMap(m)
    }

    /// Lifts an owned content identifier.
    pub fn from_link(c: Cid) -> (v: Value)
        ensures
            v == lift_link_spec(c),
    {
        Value::Link(c)
    }

    /// Lifts a borrowed content identifier by cloning it.
    pub fn from_link_ref(c: &Cid) -> (v: Value)
        ensures
            (v matches Value::Link(d) && d@ == c@),
    {
        Value::Link(c.clone())
    }
}

} // verus!

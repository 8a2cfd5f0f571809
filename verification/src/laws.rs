//! The laws of the conversion contract, stated over the spec functions
//! that the executable conversions are proved against.
use crate::error::mismatch;
use crate::lift::{
    lift_bool_spec, lift_bytes_spec, lift_i128_spec, lift_i16_spec, lift_i32_spec, lift_i64_spec,
    lift_i8_spec, lift_link_spec, lift_list_spec, lift_map_spec, lift_text_spec, lift_u16_spec,
    lift_u32_spec, lift_u64_spec, lift_u8_spec, lift_unit_spec,
};
use crate::lower::{
    lower_bool_spec, lower_bytes_spec, lower_float_bits_spec, lower_i128_spec, lower_i16_spec,
    lower_i32_spec, lower_i64_spec, lower_i8_spec, lower_isize_spec, lower_link_spec,
    lower_list_spec, lower_map_spec, lower_text_spec, lower_u128_spec, lower_u16_spec,
    lower_u32_spec, lower_u64_spec, lower_u8_spec, lower_unit_spec, lower_usize_spec,
};
use crate::lower_opt::{
    lower_opt_bool_spec, lower_opt_bytes_spec, lower_opt_float_bits_spec, lower_opt_i128_spec,
    lower_opt_i16_spec, lower_opt_i32_spec, lower_opt_i64_spec, lower_opt_i8_spec,
    lower_opt_isize_spec, lower_opt_link_spec, lower_opt_list_spec, lower_opt_map_spec,
    lower_opt_text_spec, lower_opt_u128_spec, lower_opt_u16_spec, lower_opt_u32_spec,
    lower_opt_u64_spec, lower_opt_u8_spec, lower_opt_usize_spec,
};
use crate::value::{kind_of, Cid, Kind, Value};
use std::collections::BTreeMap;
use vstd::prelude::*;

verus! {

/// Lifting a native value with a dedicated tag and lowering it back into
/// the same type returns exactly the value that went in, for every value.
/// This holds for each type whose tag no narrower sibling shares: the
/// unit value, booleans, the wide integer itself, text, byte sequences,
/// ordered lists, sorted maps, and links.
pub proof fn lemma_exact_roundtrip(
    b: bool,
    i: i128,
    s: String,
    d: Vec<u8>,
    l: Vec<Value>,
    m: BTreeMap<String, Value>,
    c: Cid,
)
    ensures
        lower_unit_spec(lift_unit_spec(())) == Ok::<(), crate::error::TypeError>(()),
        lower_bool_spec(lift_bool_spec(b)) == Ok::<bool, crate::error::TypeError>(b),
        lower_i128_spec(lift_i128_spec(i)) == Ok::<i128, crate::error::TypeError>(i),
        lower_text_spec(lift_text_spec(s)) == Ok::<String, crate::error::TypeError>(s),
        lower_bytes_spec(lift_bytes_spec(d)) == Ok::<Vec<u8>, crate::error::TypeError>(d),
        lower_list_spec(lift_list_spec(l)) == Ok::<Vec<Value>, crate::error::TypeError>(l),
        lower_map_spec(lift_map_spec(m)) == Ok::<
            BTreeMap<String, Value>,
            crate::error::TypeError,
        >(m),
        lower_link_spec(lift_link_spec(c)) == Ok::<Cid, crate::error::TypeError>(c),
{
}

/// Lowering an integer value into any narrower width is lossy, never
/// failing: whatever the payload, the result is the truncating cast of
/// it, which is a fixed function of the payload alone — deterministic and
/// reproducible — and in particular the lowering always succeeds.
pub proof fn lemma_narrowing_is_total(i: i128)
    ensures
        lower_i8_spec(Value::Integer(i)) == Ok::<i8, crate::error::TypeError>(i as i8),
        lower_i16_spec(Value::Integer(i)) == Ok::<i16, crate::error::TypeError>(i as i16),
        lower_i32_spec(Value::Integer(i)) == Ok::<i32, crate::error::TypeError>(i as i32),
        lower_i64_spec(Value::Integer(i)) == Ok::<i64, crate::error::TypeError>(i as i64),
        lower_i128_spec(Value::Integer(i)) == Ok::<i128, crate::error::TypeError>(i),
        lower_isize_spec(Value::Integer(i)) == Ok::<isize, crate::error::TypeError>(i as isize),
        lower_u8_spec(Value::Integer(i)) == Ok::<u8, crate::error::TypeError>(i as u8),
        lower_u16_spec(Value::Integer(i)) == Ok::<u16, crate::error::TypeError>(i as u16),
        lower_u32_spec(Value::Integer(i)) == Ok::<u32, crate::error::TypeError>(i as u32),
        lower_u64_spec(Value::Integer(i)) == Ok::<u64, crate::error::TypeError>(i as u64),
        lower_u128_spec(Value::Integer(i)) == Ok::<u128, crate::error::TypeError>(i as u128),
        lower_usize_spec(Value::Integer(i)) == Ok::<usize, crate::error::TypeError>(i as usize),
{
}

/// A widened value narrows back without loss: widening any native integer
/// and lowering into the same width returns exactly the value that went
/// in.
pub proof fn lemma_integer_roundtrip(a: i8, b: i16, c: i32, d: i64, e: u8, f: u16, g: u32, h: u64)
    ensures
        lower_i8_spec(lift_i8_spec(a)) == Ok::<i8, crate::error::TypeError>(a),
        lower_i16_spec(lift_i16_spec(b)) == Ok::<i16, crate::error::TypeError>(b),
        lower_i32_spec(lift_i32_spec(c)) == Ok::<i32, crate::error::TypeError>(c),
        lower_i64_spec(lift_i64_spec(d)) == Ok::<i64, crate::error::TypeError>(d),
        lower_u8_spec(lift_u8_spec(e)) == Ok::<u8, crate::error::TypeError>(e),
        lower_u16_spec(lift_u16_spec(f)) == Ok::<u16, crate::error::TypeError>(f),
        lower_u32_spec(lift_u32_spec(g)) == Ok::<u32, crate::error::TypeError>(g),
        lower_u64_spec(lift_u64_spec(h)) == Ok::<u64, crate::error::TypeError>(h),
{
    assert((a as i128) as i8 == a) by (bit_vector);
    assert((b as i128) as i16 == b) by (bit_vector);
    assert((c as i128) as i32 == c) by (bit_vector);
    assert((d as i128) as i64 == d) by (bit_vector);
    assert((e as i128) as u8 == e) by (bit_vector);
    assert((f as i128) as u16 == f) by (bit_vector);
    assert((g as i128) as u32 == g) by (bit_vector);
    assert((h as i128) as u64 == h) by (bit_vector);
}

/// Lowering a value whose tag is not the one the target requires always
/// fails, and the diagnostic records the target's kind as expected and
/// the value's own kind as found — for every required target.
pub proof fn lemma_mismatch_diagnostic(v: Value)
    ensures
        kind_of(v) != Kind::Absence ==> lower_unit_spec(v) == Err::<(), _>(
            mismatch(Kind::Absence, v),
        ),
        kind_of(v) != Kind::Boolean ==> lower_bool_spec(v) == Err::<bool, _>(
            mismatch(Kind::Boolean, v),
        ),
        kind_of(v) != Kind::Integer ==> lower_i8_spec(v) == Err::<i8, _>(
            mismatch(Kind::Integer, v),
        ),
        kind_of(v) != Kind::Integer ==> lower_i16_spec(v) == Err::<i16, _>(
            mismatch(Kind::Integer, v),
        ),
        kind_of(v) != Kind::Integer ==> lower_i32_spec(v) == Err::<i32, _>(
            mismatch(Kind::Integer, v),
        ),
        kind_of(v) != Kind::Integer ==> lower_i64_spec(v) == Err::<i64, _>(
            mismatch(Kind::Integer, v),
        ),
        kind_of(v) != Kind::Integer ==> lower_i128_spec(v) == Err::<i128, _>(
            mismatch(Kind::Integer, v),
        ),
        kind_of(v) != Kind::Integer ==> lower_isize_spec(v) == Err::<isize, _>(
            mismatch(Kind::Integer, v),
        ),
        kind_of(v) != Kind::Integer ==> lower_u8_spec(v) == Err::<u8, _>(
            mismatch(Kind::Integer, v),
        ),
        kind_of(v) != Kind::Integer ==> lower_u16_spec(v) == Err::<u16, _>(
            mismatch(Kind::Integer, v),
        ),
        kind_of(v) != Kind::Integer ==> lower_u32_spec(v) == Err::<u32, _>(
            mismatch(Kind::Integer, v),
        ),
        kind_of(v) != Kind::Integer ==> lower_u64_spec(v) == Err::<u64, _>(
            mismatch(Kind::Integer, v),
        ),
        kind_of(v) != Kind::Integer ==> lower_u128_spec(v) == Err::<u128, _>(
            mismatch(Kind::Integer, v),
        ),
        kind_of(v) != Kind::Integer ==> lower_usize_spec(v) == Err::<usize, _>(
            mismatch(Kind::Integer, v),
        ),
        kind_of(v) != Kind::Float ==> lower_float_bits_spec(v) == Err::<u64, _>(
            mismatch(Kind::Float, v),
        ),
        kind_of(v) != Kind::Text ==> lower_text_spec(v) == Err::<String, _>(
            mismatch(Kind::Text, v),
        ),
        kind_of(v) != Kind::Bytes ==> lower_bytes_spec(v) == Err::<Vec<u8>, _>(
            mismatch(Kind::Bytes, v),
        ),
        kind_of(v) != Kind::List ==> lower_list_spec(v) == Err::<Vec<Value>, _>(
            mismatch(Kind::List, v),
        ),
        kind_of(v) != Kind::SortedMap ==> lower_map_spec(v) == Err::<BTreeMap<String, Value>, _>(
            mismatch(Kind::SortedMap, v),
        ),
        kind_of(v) != Kind::Link ==> lower_link_spec(v) == Err::<Cid, _>(mismatch(Kind::Link, v)),
{
}

/// Lowering a value into an optional target whose tag matches neither the
/// target's kind nor absence fails, and the diagnostic's expected kind is
/// the target's kind, never the absence kind.
pub proof fn lemma_opt_mismatch_diagnostic(v: Value)
    ensures
        kind_of(v) != Kind::Boolean && kind_of(v) != Kind::Absence ==> lower_opt_bool_spec(v)
            == Err::<Option<bool>, _>(mismatch(Kind::Boolean, v)),
        kind_of(v) != Kind::Integer && kind_of(v) != Kind::Absence ==> lower_opt_i8_spec(v)
            == Err::<Option<i8>, _>(mismatch(Kind::Integer, v)),
        kind_of(v) != Kind::Integer && kind_of(v) != Kind::Absence ==> lower_opt_i16_spec(v)
            == Err::<Option<i16>, _>(mismatch(Kind::Integer, v)),
        kind_of(v) != Kind::Integer && kind_of(v) != Kind::Absence ==> lower_opt_i32_spec(v)
            == Err::<Option<i32>, _>(mismatch(Kind::Integer, v)),
        kind_of(v) != Kind::Integer && kind_of(v) != Kind::Absence ==> lower_opt_i64_spec(v)
            == Err::<Option<i64>, _>(mismatch(Kind::Integer, v)),
        kind_of(v) != Kind::Integer && kind_of(v) != Kind::Absence ==> lower_opt_i128_spec(v)
            == Err::<Option<i128>, _>(mismatch(Kind::Integer, v)),
        kind_of(v) != Kind::Integer && kind_of(v) != Kind::Absence ==> lower_opt_isize_spec(v)
            == Err::<Option<isize>, _>(mismatch(Kind::Integer, v)),
        kind_of(v) != Kind::Integer && kind_of(v) != Kind::Absence ==> lower_opt_u8_spec(v)
            == Err::<Option<u8>, _>(mismatch(Kind::Integer, v)),
        kind_of(v) != Kind::Integer && kind_of(v) != Kind::Absence ==> lower_opt_u16_spec(v)
            == Err::<Option<u16>, _>(mismatch(Kind::Integer, v)),
        kind_of(v) != Kind::Integer && kind_of(v) != Kind::Absence ==> lower_opt_u32_spec(v)
            == Err::<Option<u32>, _>(mismatch(Kind::Integer, v)),
        kind_of(v) != Kind::Integer && kind_of(v) != Kind::Absence ==> lower_opt_u64_spec(v)
            == Err::<Option<u64>, _>(mismatch(Kind::Integer, v)),
        kind_of(v) != Kind::Integer && kind_of(v) != Kind::Absence ==> lower_opt_u128_spec(v)
            == Err::<Option<u128>, _>(mismatch(Kind::Integer, v)),
        kind_of(v) != Kind::Integer && kind_of(v) != Kind::Absence ==> lower_opt_usize_spec(v)
            == Err::<Option<usize>, _>(mismatch(Kind::Integer, v)),
        kind_of(v) != Kind::Float && kind_of(v) != Kind::Absence ==> lower_opt_float_bits_spec(v)
            == Err::<Option<u64>, _>(mismatch(Kind::Float, v)),
        kind_of(v) != Kind::Text && kind_of(v) != Kind::Absence ==> lower_opt_text_spec(v)
            == Err::<Option<String>, _>(mismatch(Kind::Text, v)),
        kind_of(v) != Kind::Bytes && kind_of(v) != Kind::Absence ==> lower_opt_bytes_spec(v)
            == Err::<Option<Vec<u8>>, _>(mismatch(Kind::Bytes, v)),
        kind_of(v) != Kind::List && kind_of(v) != Kind::Absence ==> lower_opt_list_spec(v)
            == Err::<Option<Vec<Value>>, _>(mismatch(Kind::List, v)),
        kind_of(v) != Kind::SortedMap && kind_of(v) != Kind::Absence ==> lower_opt_map_spec(v)
            == Err::<Option<BTreeMap<String, Value>>, _>(mismatch(Kind::SortedMap, v)),
        kind_of(v) != Kind::Link && kind_of(v) != Kind::Absence ==> lower_opt_link_spec(v)
            == Err::<Option<Cid>, _>(mismatch(Kind::Link, v)),
{
}

/// A required lowering succeeds exactly when the value's tag is the one
/// the target needs, and an optional lowering succeeds exactly when the
/// tag is the target's own or absence: no other condition — in
/// particular no range check — decides success.
pub proof fn lemma_lower_succeeds_iff_tag_matches(v: Value)
    ensures
        lower_unit_spec(v) is Ok <==> kind_of(v) == Kind::Absence,
        lower_bool_spec(v) is Ok <==> kind_of(v) == Kind::Boolean,
        lower_i8_spec(v) is Ok <==> kind_of(v) == Kind::Integer,
        lower_i16_spec(v) is Ok <==> kind_of(v) == Kind::Integer,
        lower_i32_spec(v) is Ok <==> kind_of(v) == Kind::Integer,
        lower_i64_spec(v) is Ok <==> kind_of(v) == Kind::Integer,
        lower_i128_spec(v) is Ok <==> kind_of(v) == Kind::Integer,
        lower_isize_spec(v) is Ok <==> kind_of(v) == Kind::Integer,
        lower_u8_spec(v) is Ok <==> kind_of(v) == Kind::Integer,
        lower_u16_spec(v) is Ok <==> kind_of(v) == Kind::Integer,
        lower_u32_spec(v) is Ok <==> kind_of(v) == Kind::Integer,
        lower_u64_spec(v) is Ok <==> kind_of(v) == Kind::Integer,
        lower_u128_spec(v) is Ok <==> kind_of(v) == Kind::Integer,
        lower_usize_spec(v) is Ok <==> kind_of(v) == Kind::Integer,
        lower_float_bits_spec(v) is Ok <==> kind_of(v) == Kind::Float,
        lower_text_spec(v) is Ok <==> kind_of(v) == Kind::Text,
        lower_bytes_spec(v) is Ok <==> kind_of(v) == Kind::Bytes,
        lower_list_spec(v) is Ok <==> kind_of(v) == Kind::List,
        lower_map_spec(v) is Ok <==> kind_of(v) == Kind::SortedMap,
        lower_link_spec(v) is Ok <==> kind_of(v) == Kind::Link,
        lower_opt_bool_spec(v) is Ok <==> kind_of(v) == Kind::Boolean || kind_of(v)
            == Kind::Absence,
        lower_opt_i128_spec(v) is Ok <==> kind_of(v) == Kind::Integer || kind_of(v)
            == Kind::Absence,
        lower_opt_u8_spec(v) is Ok <==> kind_of(v) == Kind::Integer || kind_of(v)
            == Kind::Absence,
        lower_opt_float_bits_spec(v) is Ok <==> kind_of(v) == Kind::Float || kind_of(v)
            == Kind::Absence,
        lower_opt_text_spec(v) is Ok <==> kind_of(v) == Kind::Text || kind_of(v)
            == Kind::Absence,
        lower_opt_bytes_spec(v) is Ok <==> kind_of(v) == Kind::Bytes || kind_of(v)
            == Kind::Absence,
        lower_opt_list_spec(v) is Ok <==> kind_of(v) == Kind::List || kind_of(v)
            == Kind::Absence,
        lower_opt_map_spec(v) is Ok <==> kind_of(v) == Kind::SortedMap || kind_of(v)
            == Kind::Absence,
        lower_opt_link_spec(v) is Ok <==> kind_of(v) == Kind::Link || kind_of(v)
            == Kind::Absence,
{
}

/// Lowering absence into an optional target never fails: for every
/// supported target type the result is "no value".
pub proof fn lemma_absence_lowers_to_none()
    ensures
        lower_opt_bool_spec(Value::Absence) == Ok::<Option<bool>, crate::error::TypeError>(None),
        lower_opt_i8_spec(Value::Absence) == Ok::<Option<i8>, crate::error::TypeError>(None),
        lower_opt_i16_spec(Value::Absence) == Ok::<Option<i16>, crate::error::TypeError>(None),
        lower_opt_i32_spec(Value::Absence) == Ok::<Option<i32>, crate::error::TypeError>(None),
        lower_opt_i64_spec(Value::Absence) == Ok::<Option<i64>, crate::error::TypeError>(None),
        lower_opt_i128_spec(Value::Absence) == Ok::<Option<i128>, crate::error::TypeError>(None),
        lower_opt_isize_spec(Value::Absence) == Ok::<Option<isize>, crate::error::TypeError>(None),
        lower_opt_u8_spec(Value::Absence) == Ok::<Option<u8>, crate::error::TypeError>(None),
        lower_opt_u16_spec(Value::Absence) == Ok::<Option<u16>, crate::error::TypeError>(None),
        lower_opt_u32_spec(Value::Absence) == Ok::<Option<u32>, crate::error::TypeError>(None),
        lower_opt_u64_spec(Value::Absence) == Ok::<Option<u64>, crate::error::TypeError>(None),
        lower_opt_u128_spec(Value::Absence) == Ok::<Option<u128>, crate::error::TypeError>(None),
        lower_opt_usize_spec(Value::Absence) == Ok::<Option<usize>, crate::error::TypeError>(None),
        lower_opt_float_bits_spec(Value::Absence) == Ok::<
            Option<u64>,
            crate::error::TypeError,
        >(None),
        lower_opt_text_spec(Value::Absence) == Ok::<Option<String>, crate::error::TypeError>(None),
        lower_opt_bytes_spec(Value::Absence) == Ok::<
            Option<Vec<u8>>,
            crate::error::TypeError,
        >(None),
        lower_opt_list_spec(Value::Absence) == Ok::<
            Option<Vec<Value>>,
            crate::error::TypeError,
        >(None),
        lower_opt_map_spec(Value::Absence) == Ok::<
            Option<BTreeMap<String, Value>>,
            crate::error::TypeError,
        >(None),
        lower_opt_link_spec(Value::Absence) == Ok::<Option<Cid>, crate::error::TypeError>(None),
{
}

/// Lowering into the unit target succeeds exactly on absence: absence
/// yields the unit value, and any other tag fails with the absence kind
/// expected and the value's own kind found.
pub proof fn lemma_unit_target(v: Value)
    ensures
        v == Value::Absence ==> lower_unit_spec(v) == Ok::<(), crate::error::TypeError>(()),
        v != Value::Absence ==> lower_unit_spec(v) == Err::<(), _>(mismatch(Kind::Absence, v)),
        lower_unit_spec(v) is Ok <==> v == Value::Absence,
{
}

/// Container identity: lifting an ordered sequence of values produces a
/// list of exactly those values in the same order, and lowering it back
/// returns exactly that sequence — the payload moves, it is never copied
/// or reordered.
pub proof fn lemma_container_identity(l: Vec<Value>)
    ensures
        lift_list_spec(l) == Value::List(l),
        lower_list_spec(Value::List(l)) == Ok::<Vec<Value>, crate::error::TypeError>(l),
{
}

} // verus!

//! Unchecked narrowing: out-of-range integer payloads wrap exactly as
//! Rust's `as` cast does, deterministically, and never fail.
use univalue::value::{Kind, Value};

#[test]
fn out_of_range_wraps_per_width() {
    assert_eq!(Value::from_i16(300).into_u8(), Ok(44));
    assert_eq!(Value::from_i128(256).into_u8(), Ok(0));
    assert_eq!(Value::from_i128(-1).into_u8(), Ok(255));
    assert_eq!(Value::from_i128(-1).into_u16(), Ok(u16::MAX));
    assert_eq!(Value::from_i128(-1).into_u32(), Ok(u32::MAX));
    assert_eq!(Value::from_i128(-1).into_u64(), Ok(u64::MAX));
    assert_eq!(Value::from_i128(-1).into_u128(), Ok(u128::MAX));
    assert_eq!(Value::from_i128(128).into_i8(), Ok(-128));
    assert_eq!(Value::from_i128(i128::MAX).into_i64(), Ok(-1));
    assert_eq!(Value::from_u64(u64::MAX).into_i32(), Ok(-1));
}

#[test]
fn wrapping_is_reproducible() {
    let first = Value::from_i128(1_000_000).into_u8();
    let second = Value::from_i128(1_000_000).into_u8();
    assert_eq!(first, second);
    assert_eq!(first, Ok((1_000_000u32 % 256) as u8));
}

#[test]
fn widening_lift_is_exact_per_width() {
    assert_eq!(Value::from_i8(i8::MIN), Value::Integer(-128));
    assert_eq!(Value::from_u8(u8::MAX), Value::Integer(255));
    assert_eq!(Value::from_u64(u64::MAX), Value::Integer(u64::MAX as i128));
    assert_eq!(Value::from_isize(-3), Value::Integer(-3));
    assert_eq!(Value::from_usize(3), Value::Integer(3));
}

#[test]
fn kind_projection_names_every_tag() {
    assert_eq!(Value::Absence.kind(), Kind::Absence);
    assert_eq!(Value::from_bool(true).kind(), Kind::Boolean);
    assert_eq!(Value::from_i128(0).kind(), Kind::Integer);
    assert_eq!(Value::from_float_bits(0).kind(), Kind::Float);
    assert_eq!(Value::from_str("").kind(), Kind::Text);
    assert_eq!(Value::from_bytes(vec![]).kind(), Kind::Bytes);
    assert_eq!(Value::from_list(vec![]).kind(), Kind::List);
    assert_eq!(Value::from_map(std::collections::BTreeMap::new()).kind(), Kind::SortedMap);
    assert_eq!(Value::from_link(univalue::value::Cid::new(vec![])).kind(), Kind::Link);
}

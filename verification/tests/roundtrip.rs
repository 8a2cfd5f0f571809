//! Round trips: lifting a native value and lowering it back returns the
//! value that went in, and borrowed inputs are copied faithfully.
use std::collections::BTreeMap;
use univalue::value::{Cid, Value};

#[test]
fn unit_round_trip() {
    assert_eq!(Value::from_unit(()), Value::Absence);
    assert_eq!(Value::from_unit(()).into_unit(), Ok(()));
}

#[test]
fn bool_round_trip() {
    assert_eq!(Value::from_bool(false).into_bool(), Ok(false));
    assert_eq!(Value::from_bool(true).into_bool(), Ok(true));
}

#[test]
fn signed_integer_round_trips() {
    assert_eq!(Value::from_i8(-7).into_i8(), Ok(-7));
    assert_eq!(Value::from_i16(-30_000).into_i16(), Ok(-30_000));
    assert_eq!(Value::from_i32(i32::MIN).into_i32(), Ok(i32::MIN));
    assert_eq!(Value::from_i64(i64::MAX).into_i64(), Ok(i64::MAX));
    assert_eq!(Value::from_i128(i128::MIN).into_i128(), Ok(i128::MIN));
    assert_eq!(Value::from_isize(-12).into_isize(), Ok(-12));
}

#[test]
fn unsigned_integer_round_trips() {
    assert_eq!(Value::from_u8(255).into_u8(), Ok(255));
    assert_eq!(Value::from_u16(u16::MAX).into_u16(), Ok(u16::MAX));
    assert_eq!(Value::from_u32(u32::MAX).into_u32(), Ok(u32::MAX));
    assert_eq!(Value::from_u64(u64::MAX).into_u64(), Ok(u64::MAX));
    assert_eq!(Value::from_usize(42).into_usize(), Ok(42));
}

#[test]
fn float_bits_round_trip() {
    let bits = 2.5f64.to_bits();
    assert_eq!(Value::from_float_bits(bits), Value::Float(bits));
    assert_eq!(Value::from_float_bits(bits).into_float_bits(), Ok(bits));
}

#[test]
fn text_round_trip() {
    let v = Value::from_text(String::from("hello"));
    assert_eq!(v, Value::Text(String::from("hello")));
    assert_eq!(v.into_text(), Ok(String::from("hello")));
    assert_eq!(Value::from_str("hello").into_text(), Ok(String::from("hello")));
}

#[test]
fn bytes_round_trips() {
    assert_eq!(Value::from_bytes(vec![1, 2, 3]).into_bytes(), Ok(vec![1, 2, 3]));
    let boxed: Box<[u8]> = vec![9, 8].into_boxed_slice();
    assert_eq!(Value::from_boxed_bytes(boxed).into_bytes(), Ok(vec![9, 8]));
    let slice: &[u8] = &[4, 5, 6];
    assert_eq!(Value::from_byte_slice(slice).into_bytes(), Ok(vec![4, 5, 6]));
    assert_eq!(Value::from_bytes(vec![]).into_bytes(), Ok(vec![]));
}

#[test]
fn list_round_trip_keeps_order_and_length() {
    let l = vec![Value::from_bool(true), Value::from_i128(2), Value::Absence];
    let v = Value::from_list(l);
    let back = v.into_list().unwrap();
    assert_eq!(back.len(), 3);
    assert_eq!(back[0], Value::Boolean(true));
    assert_eq!(back[1], Value::Integer(2));
    assert_eq!(back[2], Value::Absence);
}

#[test]
fn empty_list_round_trip() {
    assert_eq!(Value::from_list(vec![]).into_list(), Ok(vec![]));
}

#[test]
fn map_round_trip_keeps_entries() {
    let mut m = BTreeMap::new();
    m.insert(String::from("b"), Value::from_i128(2));
    m.insert(String::from("a"), Value::from_bool(false));
    let back = Value::from_map(m).into_map().unwrap();
    assert_eq!(back.len(), 2);
    assert_eq!(back.get("a"), Some(&Value::Boolean(false)));
    assert_eq!(back.get("b"), Some(&Value::Integer(2)));
    let keys: Vec<&String> = back.keys().collect();
    assert_eq!(keys, vec!["a", "b"]);
}

#[test]
fn link_round_trips() {
    let c = Cid::new(vec![0xaa, 0xbb]);
    assert_eq!(Value::from_link(c).into_link(), Ok(Cid::new(vec![0xaa, 0xbb])));
    let c2 = Cid::new(vec![1, 2, 3]);
    assert_eq!(Value::from_link_ref(&c2).into_link(), Ok(c2));
}

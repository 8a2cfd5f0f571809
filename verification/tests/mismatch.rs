//! Tag mismatches: every wrong tag fails, and the diagnostic names the
//! expected kind and the found kind.
use std::collections::BTreeMap;
use univalue::error::TypeError;
use univalue::value::{Cid, Kind, Value};

fn err(expected: Kind, found: Kind) -> TypeError {
    TypeError { expected, found }
}

#[test]
fn every_required_target_rejects_a_wrong_tag() {
    assert_eq!(Value::from_bool(true).into_unit(), Err(err(Kind::Absence, Kind::Boolean)));
    assert_eq!(Value::from_i128(0).into_bool(), Err(err(Kind::Boolean, Kind::Integer)));
    assert_eq!(Value::from_bool(true).into_i8(), Err(err(Kind::Integer, Kind::Boolean)));
    assert_eq!(Value::from_bool(true).into_i16(), Err(err(Kind::Integer, Kind::Boolean)));
    assert_eq!(Value::from_bool(true).into_i32(), Err(err(Kind::Integer, Kind::Boolean)));
    assert_eq!(Value::from_bool(true).into_i64(), Err(err(Kind::Integer, Kind::Boolean)));
    assert_eq!(Value::from_bool(true).into_i128(), Err(err(Kind::Integer, Kind::Boolean)));
    assert_eq!(Value::from_bool(true).into_isize(), Err(err(Kind::Integer, Kind::Boolean)));
    assert_eq!(Value::from_bool(true).into_u8(), Err(err(Kind::Integer, Kind::Boolean)));
    assert_eq!(Value::from_bool(true).into_u16(), Err(err(Kind::Integer, Kind::Boolean)));
    assert_eq!(Value::from_bool(true).into_u32(), Err(err(Kind::Integer, Kind::Boolean)));
    assert_eq!(Value::from_bool(true).into_u64(), Err(err(Kind::Integer, Kind::Boolean)));
    assert_eq!(Value::from_bool(true).into_u128(), Err(err(Kind::Integer, Kind::Boolean)));
    assert_eq!(Value::from_bool(true).into_usize(), Err(err(Kind::Integer, Kind::Boolean)));
    assert_eq!(Value::from_i128(1).into_float_bits(), Err(err(Kind::Float, Kind::Integer)));
    assert_eq!(Value::from_i128(1).into_text(), Err(err(Kind::Text, Kind::Integer)));
    assert_eq!(Value::from_i128(1).into_bytes(), Err(err(Kind::Bytes, Kind::Integer)));
    assert_eq!(Value::from_i128(1).into_list(), Err(err(Kind::List, Kind::Integer)));
    assert_eq!(Value::from_i128(1).into_map(), Err(err(Kind::SortedMap, Kind::Integer)));
    assert_eq!(Value::from_i128(1).into_link(), Err(err(Kind::Link, Kind::Integer)));
}

#[test]
fn every_found_kind_is_reported() {
    assert_eq!(Value::Absence.into_bool(), Err(err(Kind::Boolean, Kind::Absence)));
    assert_eq!(Value::from_bool(false).into_text(), Err(err(Kind::Text, Kind::Boolean)));
    assert_eq!(Value::from_i128(7).into_bool(), Err(err(Kind::Boolean, Kind::Integer)));
    assert_eq!(Value::from_float_bits(0).into_bool(), Err(err(Kind::Boolean, Kind::Float)));
    assert_eq!(Value::from_str("s").into_bool(), Err(err(Kind::Boolean, Kind::Text)));
    assert_eq!(Value::from_bytes(vec![1]).into_bool(), Err(err(Kind::Boolean, Kind::Bytes)));
    assert_eq!(Value::from_list(vec![]).into_bool(), Err(err(Kind::Boolean, Kind::List)));
    assert_eq!(
        Value::from_map(BTreeMap::new()).into_bool(),
        Err(err(Kind::Boolean, Kind::SortedMap))
    );
    assert_eq!(
        Value::from_link(Cid::new(vec![1])).into_bool(),
        Err(err(Kind::Boolean, Kind::Link))
    );
}

#[test]
fn unit_target_accepts_absence_alone() {
    assert_eq!(Value::Absence.into_unit(), Ok(()));
    assert_eq!(Value::from_i128(0).into_unit(), Err(err(Kind::Absence, Kind::Integer)));
    assert_eq!(Value::from_str("").into_unit(), Err(err(Kind::Absence, Kind::Text)));
    assert_eq!(Value::from_list(vec![]).into_unit(), Err(err(Kind::Absence, Kind::List)));
}

#[test]
fn diagnostic_is_inspectable() {
    let e = Value::from_bool(true).into_u8().unwrap_err();
    assert_eq!(e.expected, Kind::Integer);
    assert_eq!(e.found, Kind::Boolean);
    assert_eq!(TypeError::new(Kind::Integer, &Value::Boolean(true)), e);
}

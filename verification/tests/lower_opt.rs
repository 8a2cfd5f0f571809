//! Lowering into optionals: absence is "no value" for every target, a
//! matching tag is "value present", and only the remaining tags fail.
use std::collections::BTreeMap;
use univalue::error::TypeError;
use univalue::value::{Cid, Kind, Value};

#[test]
fn absence_lowers_to_none_for_every_target() {
    assert_eq!(Value::Absence.into_opt_bool(), Ok(None));
    assert_eq!(Value::Absence.into_opt_i8(), Ok(None));
    assert_eq!(Value::Absence.into_opt_i16(), Ok(None));
    assert_eq!(Value::Absence.into_opt_i32(), Ok(None));
    assert_eq!(Value::Absence.into_opt_i64(), Ok(None));
    assert_eq!(Value::Absence.into_opt_i128(), Ok(None));
    assert_eq!(Value::Absence.into_opt_isize(), Ok(None));
    assert_eq!(Value::Absence.into_opt_u8(), Ok(None));
    assert_eq!(Value::Absence.into_opt_u16(), Ok(None));
    assert_eq!(Value::Absence.into_opt_u32(), Ok(None));
    assert_eq!(Value::Absence.into_opt_u64(), Ok(None));
    assert_eq!(Value::Absence.into_opt_u128(), Ok(None));
    assert_eq!(Value::Absence.into_opt_usize(), Ok(None));
    assert_eq!(Value::Absence.into_opt_float_bits(), Ok(None));
    assert_eq!(Value::Absence.into_opt_text(), Ok(None));
    assert_eq!(Value::Absence.into_opt_bytes(), Ok(None));
    assert_eq!(Value::Absence.into_opt_list(), Ok(None));
    assert_eq!(Value::Absence.into_opt_map(), Ok(None));
    assert_eq!(Value::Absence.into_opt_link(), Ok(None));
}

#[test]
fn matching_tags_lower_to_some() {
    assert_eq!(Value::from_bool(true).into_opt_bool(), Ok(Some(true)));
    assert_eq!(Value::from_i128(-5).into_opt_i128(), Ok(Some(-5)));
    assert_eq!(Value::from_i8(-5).into_opt_i8(), Ok(Some(-5)));
    assert_eq!(Value::from_u64(11).into_opt_u64(), Ok(Some(11)));
    assert_eq!(Value::from_float_bits(99).into_opt_float_bits(), Ok(Some(99)));
    assert_eq!(Value::from_str("y").into_opt_text(), Ok(Some(String::from("y"))));
    assert_eq!(Value::from_bytes(vec![3]).into_opt_bytes(), Ok(Some(vec![3])));
    assert_eq!(Value::from_list(vec![]).into_opt_list(), Ok(Some(vec![])));
    let mut m = BTreeMap::new();
    m.insert(String::from("k"), Value::Absence);
    let back = Value::from_map(m).into_opt_map().unwrap().unwrap();
    assert_eq!(back.get("k"), Some(&Value::Absence));
    assert_eq!(
        Value::from_link(Cid::new(vec![7])).into_opt_link(),
        Ok(Some(Cid::new(vec![7])))
    );
}

#[test]
fn optional_narrowing_truncates_like_required_narrowing() {
    assert_eq!(Value::from_i16(300).into_opt_u8(), Ok(Some(44)));
    assert_eq!(Value::from_i128(-1).into_opt_u128(), Ok(Some(u128::MAX)));
}

#[test]
fn other_tags_fail_with_the_target_kind_expected() {
    let e = TypeError { expected: Kind::Boolean, found: Kind::Integer };
    assert_eq!(Value::from_i128(1).into_opt_bool(), Err(e));
    assert_eq!(
        Value::from_bool(true).into_opt_u8(),
        Err(TypeError { expected: Kind::Integer, found: Kind::Boolean })
    );
    assert_eq!(
        Value::from_bool(true).into_opt_link(),
        Err(TypeError { expected: Kind::Link, found: Kind::Boolean })
    );
    assert_eq!(
        Value::from_text(String::from("t")).into_opt_list(),
        Err(TypeError { expected: Kind::List, found: Kind::Text })
    );
    assert_eq!(
        Value::from_bytes(vec![]).into_opt_map(),
        Err(TypeError { expected: Kind::SortedMap, found: Kind::Bytes })
    );
    assert_eq!(
        Value::from_float_bits(0).into_opt_bytes(),
        Err(TypeError { expected: Kind::Bytes, found: Kind::Float })
    );
}

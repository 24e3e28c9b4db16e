//! Tests of the response coercion engine and the command classification.
use glide_core::command::{expected_type_for_cmd, Command};
use glide_core::convert::{convert_to_expected_type, TypeConversionError};
use glide_core::value::{ExpectedReturnType, RawValue};

fn bulk(s: &str) -> RawValue {
    RawValue::Bulk(s.as_bytes().to_vec())
}

fn cmd(parts: &[&str]) -> Command {
    Command { args: parts.iter().map(|p| p.as_bytes().to_vec()).collect() }
}

#[test]
fn hgetall_array_regroups_into_map() {
    let raw = RawValue::Array(vec![bulk("k1"), bulk("v1"), bulk("k2"), bulk("v2")]);
    let out = convert_to_expected_type(raw, Some(ExpectedReturnType::Mapping)).unwrap();
    assert_eq!(
        out,
        RawValue::Mapping(vec![(bulk("k1"), bulk("v1")), (bulk("k2"), bulk("v2"))])
    );
}

#[test]
fn mapping_nil_passes_through() {
    let out = convert_to_expected_type(RawValue::Nil, Some(ExpectedReturnType::Mapping)).unwrap();
    assert_eq!(out, RawValue::Nil);
}

#[test]
fn mapping_existing_map_passes_through() {
    let raw = RawValue::Mapping(vec![(bulk("k"), bulk("v"))]);
    let out = convert_to_expected_type(raw, Some(ExpectedReturnType::Mapping)).unwrap();
    assert_eq!(out, RawValue::Mapping(vec![(bulk("k"), bulk("v"))]));
}

#[test]
fn mapping_odd_array_fails() {
    let raw = RawValue::Array(vec![bulk("k1"), bulk("v1"), bulk("k2")]);
    let err = convert_to_expected_type(raw, Some(ExpectedReturnType::Mapping)).unwrap_err();
    assert_eq!(err, TypeConversionError::OddMapLength);
    assert!(err.message().contains("odd number of items"));
}

#[test]
fn mapping_empty_array_gives_empty_map() {
    let out =
        convert_to_expected_type(RawValue::Array(vec![]), Some(ExpectedReturnType::Mapping))
            .unwrap();
    assert_eq!(out, RawValue::Mapping(vec![]));
}

#[test]
fn mapping_wrong_shape_fails() {
    let err = convert_to_expected_type(RawValue::Int(3), Some(ExpectedReturnType::Mapping))
        .unwrap_err();
    assert_eq!(err, TypeConversionError::UnexpectedMapShape);
}

#[test]
fn no_expected_type_passes_through_unchanged() {
    let raw = RawValue::Array(vec![bulk("a"), RawValue::Int(7), RawValue::Nil]);
    let out = convert_to_expected_type(raw, None).unwrap();
    assert_eq!(out, RawValue::Array(vec![bulk("a"), RawValue::Int(7), RawValue::Nil]));
}

#[test]
fn expire_integer_becomes_boolean() {
    let out = convert_to_expected_type(RawValue::Int(1), Some(ExpectedReturnType::Boolean))
        .unwrap();
    assert_eq!(out, RawValue::Boolean(true));
    let out = convert_to_expected_type(RawValue::Int(0), Some(ExpectedReturnType::Boolean))
        .unwrap();
    assert_eq!(out, RawValue::Boolean(false));
}

#[test]
fn boolean_bulk_and_nil_forms() {
    let out = convert_to_expected_type(bulk("1"), Some(ExpectedReturnType::Boolean)).unwrap();
    assert_eq!(out, RawValue::Boolean(true));
    let out = convert_to_expected_type(bulk("0"), Some(ExpectedReturnType::Boolean)).unwrap();
    assert_eq!(out, RawValue::Boolean(false));
    let out = convert_to_expected_type(RawValue::Nil, Some(ExpectedReturnType::Boolean)).unwrap();
    assert_eq!(out, RawValue::Boolean(false));
    let out =
        convert_to_expected_type(RawValue::Boolean(true), Some(ExpectedReturnType::Boolean))
            .unwrap();
    assert_eq!(out, RawValue::Boolean(true));
    let err = convert_to_expected_type(bulk("yes"), Some(ExpectedReturnType::Boolean))
        .unwrap_err();
    assert_eq!(err, TypeConversionError::NotBoolean);
}

#[test]
fn incrbyfloat_bulk_becomes_double() {
    let out = convert_to_expected_type(bulk("3.0"), Some(ExpectedReturnType::Double)).unwrap();
    assert_eq!(out, RawValue::Double(3.0f64.to_bits()));
}

#[test]
fn double_from_integer_reply() {
    let out = convert_to_expected_type(RawValue::Int(2), Some(ExpectedReturnType::Double))
        .unwrap();
    assert_eq!(out, RawValue::Double(2.0f64.to_bits()));
}

#[test]
fn double_parse_failure_fails() {
    let err = convert_to_expected_type(bulk("abc"), Some(ExpectedReturnType::Double))
        .unwrap_err();
    assert_eq!(err, TypeConversionError::NotDouble);
    let err = convert_to_expected_type(RawValue::Nil, Some(ExpectedReturnType::Double))
        .unwrap_err();
    assert_eq!(err, TypeConversionError::NotDouble);
}

#[test]
fn double_reply_passes_through() {
    let bits = 1.5f64.to_bits();
    let out =
        convert_to_expected_type(RawValue::Double(bits), Some(ExpectedReturnType::Double))
            .unwrap();
    assert_eq!(out, RawValue::Double(bits));
}

#[test]
fn classification_follows_opcode() {
    assert_eq!(
        expected_type_for_cmd(&cmd(&["HGETALL", "key"])),
        Some(ExpectedReturnType::Mapping)
    );
    assert_eq!(expected_type_for_cmd(&cmd(&["XREAD"])), Some(ExpectedReturnType::Mapping));
    assert_eq!(
        expected_type_for_cmd(&cmd(&["INCRBYFLOAT", "key", "1.5"])),
        Some(ExpectedReturnType::Double)
    );
    assert_eq!(
        expected_type_for_cmd(&cmd(&["HINCRBYFLOAT", "k", "f", "1"])),
        Some(ExpectedReturnType::Double)
    );
    assert_eq!(
        expected_type_for_cmd(&cmd(&["HEXISTS", "k", "f"])),
        Some(ExpectedReturnType::Boolean)
    );
    assert_eq!(
        expected_type_for_cmd(&cmd(&["EXPIRE", "k", "10"])),
        Some(ExpectedReturnType::Boolean)
    );
    assert_eq!(
        expected_type_for_cmd(&cmd(&["EXPIREAT", "k", "1"])),
        Some(ExpectedReturnType::Boolean)
    );
    assert_eq!(
        expected_type_for_cmd(&cmd(&["PEXPIRE", "k", "1"])),
        Some(ExpectedReturnType::Boolean)
    );
    assert_eq!(
        expected_type_for_cmd(&cmd(&["PEXPIREAT", "k", "1"])),
        Some(ExpectedReturnType::Boolean)
    );
    assert_eq!(expected_type_for_cmd(&cmd(&["GET", "k"])), None);
    assert_eq!(expected_type_for_cmd(&cmd(&[])), None);
}

#[test]
fn classification_is_case_insensitive() {
    assert_eq!(
        expected_type_for_cmd(&cmd(&["hgetall", "key"])),
        Some(ExpectedReturnType::Mapping)
    );
    assert_eq!(
        expected_type_for_cmd(&cmd(&["Expire", "k", "10"])),
        Some(ExpectedReturnType::Boolean)
    );
}

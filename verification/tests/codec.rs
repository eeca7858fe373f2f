use python_resource::location::{ConcreteResourceLocation, OptionalResourceLocation};
use python_resource::values::{AttrValue, ValueError};

fn expect_str(v: AttrValue) -> String {
    match v {
        AttrValue::Str(s) => s,
        other => panic!("expected a string value, got {:?}", other),
    }
}

#[test]
fn decode_in_memory() {
    let loc = OptionalResourceLocation::try_from_str("in-memory").unwrap();
    assert!(matches!(
        loc.into_inner(),
        Some(ConcreteResourceLocation::InMemory)
    ));
}

#[test]
fn decode_filesystem_relative() {
    let loc = OptionalResourceLocation::try_from_str("filesystem-relative:lib").unwrap();
    match loc.into_inner() {
        Some(ConcreteResourceLocation::RelativePath(p)) => assert_eq!(p, "lib"),
        other => panic!("expected a relative path, got {:?}", other),
    }
}

#[test]
fn decode_filesystem_relative_empty_prefix() {
    let loc = OptionalResourceLocation::try_from_str("filesystem-relative:").unwrap();
    match loc.into_inner() {
        Some(ConcreteResourceLocation::RelativePath(p)) => assert_eq!(p, ""),
        other => panic!("expected a relative path, got {:?}", other),
    }
}

#[test]
fn decode_default_and_null_read_as_absent() {
    let loc = OptionalResourceLocation::try_from_str("default").unwrap();
    assert!(loc.into_inner().is_none());

    let loc = OptionalResourceLocation::try_from_value(&AttrValue::Null).unwrap();
    assert!(loc.into_inner().is_none());
}

#[test]
fn decode_is_case_sensitive_and_exact() {
    assert!(matches!(
        OptionalResourceLocation::try_from_str("Default"),
        Err(ValueError::DecodeError { .. })
    ));
    assert!(matches!(
        OptionalResourceLocation::try_from_str("in-memoryX"),
        Err(ValueError::DecodeError { .. })
    ));
    assert!(matches!(
        OptionalResourceLocation::try_from_str("memory"),
        Err(ValueError::DecodeError { .. })
    ));
    assert!(matches!(
        OptionalResourceLocation::try_from_str("filesystem-relative"),
        Err(ValueError::DecodeError { .. })
    ));
}

#[test]
fn decode_rejects_non_string_non_null() {
    assert!(matches!(
        OptionalResourceLocation::try_from_value(&AttrValue::Int(3)),
        Err(ValueError::DecodeError { .. })
    ));
    assert!(matches!(
        OptionalResourceLocation::try_from_value(&AttrValue::Bool(true)),
        Err(ValueError::DecodeError { .. })
    ));
}

#[test]
fn encode_decode_round_trip() {
    for text in ["in-memory", "filesystem-relative:lib", "filesystem-relative:"] {
        let loc = OptionalResourceLocation::try_from_str(text).unwrap();
        assert_eq!(expect_str(loc.to_attr_value()), text);
    }
}

#[test]
fn encode_absent_is_null() {
    let loc = OptionalResourceLocation::absent();
    assert!(matches!(loc.to_attr_value(), AttrValue::Null));
}

#[test]
fn decode_error_carries_offending_value() {
    match OptionalResourceLocation::try_from_str("nowhere") {
        Err(ValueError::DecodeError { value }) => {
            assert_eq!(expect_str(value), "nowhere");
        }
        other => panic!("expected a decode error, got {:?}", other),
    }
}

#[test]
fn from_concrete_encodes_the_location() {
    let loc = OptionalResourceLocation::from_concrete(ConcreteResourceLocation::InMemory);
    assert_eq!(expect_str(loc.to_attr_value()), "in-memory");

    let loc = OptionalResourceLocation::from_concrete(ConcreteResourceLocation::RelativePath(
        "pkg".to_string(),
    ));
    assert_eq!(expect_str(loc.to_attr_value()), "filesystem-relative:pkg");
}

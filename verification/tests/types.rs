use gguf_rs::{ByteOrder, GGMLType, MetadataTypeError, MetadataValue, MetadataValueType};
use gguf_rs::{Version, V1, V2, V3};
use std::convert::TryFrom;

#[test]
fn test_metadata_value_type_conversion() {
    assert!(matches!(MetadataValueType::try_from(0), Ok(MetadataValueType::Uint8)));
    assert!(matches!(MetadataValueType::try_from(6), Ok(MetadataValueType::Float32)));
    assert!(matches!(MetadataValueType::try_from(8), Ok(MetadataValueType::String)));
    assert!(MetadataValueType::try_from(100).is_err());
}

#[test]
fn test_ggml_type_conversion() {
    assert!(matches!(GGMLType::try_from(0), Ok(GGMLType::F32)));
    assert!(matches!(GGMLType::try_from(2), Ok(GGMLType::Q4_0)));
    assert!(GGMLType::try_from(100).is_err());
}

#[test]
fn test_byte_order_default() {
    let bo = ByteOrder::default();
    assert!(matches!(bo, ByteOrder::LE));
}

#[test]
fn test_metadata_value_type_all_variants() {
    assert!(matches!(MetadataValueType::try_from(0), Ok(MetadataValueType::Uint8)));
    assert!(matches!(MetadataValueType::try_from(1), Ok(MetadataValueType::Int8)));
    assert!(matches!(MetadataValueType::try_from(2), Ok(MetadataValueType::Uint16)));
    assert!(matches!(MetadataValueType::try_from(3), Ok(MetadataValueType::Int16)));
    assert!(matches!(MetadataValueType::try_from(4), Ok(MetadataValueType::Uint32)));
    assert!(matches!(MetadataValueType::try_from(5), Ok(MetadataValueType::Int32)));
    assert!(matches!(MetadataValueType::try_from(6), Ok(MetadataValueType::Float32)));
    assert!(matches!(MetadataValueType::try_from(7), Ok(MetadataValueType::Bool)));
    assert!(matches!(MetadataValueType::try_from(8), Ok(MetadataValueType::String)));
    assert!(matches!(MetadataValueType::try_from(9), Ok(MetadataValueType::Array)));
    assert!(matches!(MetadataValueType::try_from(10), Ok(MetadataValueType::Uint64)));
    assert!(matches!(MetadataValueType::try_from(11), Ok(MetadataValueType::Int64)));
    assert!(matches!(MetadataValueType::try_from(12), Ok(MetadataValueType::Float64)));
}

#[test]
fn test_ggml_type_all_valid_types() {
    assert!(matches!(GGMLType::try_from(1), Ok(GGMLType::F16)));
    assert!(matches!(GGMLType::try_from(3), Ok(GGMLType::Q4_1)));
    assert!(matches!(GGMLType::try_from(6), Ok(GGMLType::Q5_0)));
    assert!(matches!(GGMLType::try_from(7), Ok(GGMLType::Q5_1)));
    assert!(matches!(GGMLType::try_from(8), Ok(GGMLType::Q8_0)));
    assert!(matches!(GGMLType::try_from(10), Ok(GGMLType::Q2_K)));
    assert!(matches!(GGMLType::try_from(30), Ok(GGMLType::BF16)));
    assert!(matches!(GGMLType::try_from(39), Ok(GGMLType::MXFP4)));
}

#[test]
fn test_ggml_type_invalid() {
    assert!(GGMLType::try_from(100).is_err());
    assert!(GGMLType::try_from(255).is_err());
}

#[test]
fn test_byte_order_variants() {
    let le = ByteOrder::LE;
    let be = ByteOrder::BE;
    let _ = format!("{:?}", le);
    let _ = format!("{:?}", be);
}

#[test]
fn test_version_variants() {
    let v1 = Version::V1(V1::default());
    let v2 = Version::V2(V2::default());
    let v3 = Version::V3(V3::default());
    let _ = format!("{:?}", v1);
    let _ = format!("{:?}", v2);
    let _ = format!("{:?}", v3);
}

#[test]
fn retired_ggml_types_are_not_read() {
    assert!(matches!(GGMLType::try_from(4), Err(gguf_rs::error::Error::InvalidGGMLType(4))));
    assert!(matches!(GGMLType::try_from(5), Err(gguf_rs::error::Error::InvalidGGMLType(5))));
    assert!(matches!(GGMLType::try_from(42), Ok(GGMLType::Count)));
    assert!(matches!(GGMLType::try_from(43), Err(gguf_rs::error::Error::InvalidGGMLType(43))));
    assert!(matches!(MetadataValueType::try_from(13), Err(gguf_rs::error::Error::InvalidMetaValueType(13))));
}

#[test]
fn ggml_type_names() {
    assert_eq!(GGMLType::Q4_0.to_string(), "Q4_0");
    assert_eq!(GGMLType::Q4_2.to_string(), "Q4_2 (UNSUPPORTED)");
    assert_eq!(GGMLType::IQ4_NL_8_8.to_string(), "IQ4_NL_8_8 (UNSUPPORTED)");
    assert_eq!(GGMLType::Count.to_string(), "Count");
}

#[test]
fn metadata_value_conversions() {
    assert!(matches!(MetadataValue::from(7u8), MetadataValue::Uint8(7)));
    assert!(matches!(MetadataValue::from(-3i64), MetadataValue::Int64(-3)));
    assert!(matches!(MetadataValue::from(true), MetadataValue::Bool(true)));
    match MetadataValue::from("llama") {
        MetadataValue::String(s) => assert_eq!(s, "llama"),
        _ => panic!("expected a string"),
    }
    assert_eq!(u32::try_from(MetadataValue::Uint32(42)).unwrap(), 42);
    assert_eq!(u64::try_from(&MetadataValue::Uint64(9)).unwrap(), 9);
    let err: MetadataTypeError = u8::try_from(MetadataValue::Int8(-1)).unwrap_err();
    assert_eq!(err.expected, "Uint8");
    assert!(matches!(err.found, MetadataValue::Int8(-1)));
    let text = String::try_from(&MetadataValue::String("x".to_string())).unwrap();
    assert_eq!(text, "x");
    let arr = MetadataValue::Array(vec![MetadataValue::Uint8(1), MetadataValue::Uint8(2)]);
    let items = Vec::<MetadataValue>::try_from(&arr).unwrap();
    assert_eq!(items.len(), 2);
    let err = bool::try_from(&arr).unwrap_err();
    assert_eq!(err.expected, "Bool");
    assert!(matches!(err.found, MetadataValue::Array(ref v) if v.len() == 2));
}

#[test]
fn metadata_value_clone_is_deep() {
    let v = MetadataValue::Array(vec![MetadataValue::String("a".to_string()), MetadataValue::Float32(1.5f32.to_bits())]);
    let c = v.clone();
    match c {
        MetadataValue::Array(items) => {
            assert_eq!(items.len(), 2);
            assert!(matches!(&items[0], MetadataValue::String(s) if s == "a"));
            assert!(matches!(items[1], MetadataValue::Float32(b) if f32::from_bits(b) == 1.5));
        }
        _ => panic!("expected an array"),
    }
}

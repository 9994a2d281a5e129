use inference::api::element_type::{
    LAST_KNOWN_CODE, TYPE_BOOL, TYPE_FLOAT, TYPE_FLOAT8E5M2FNUZ, TYPE_INT64, TYPE_STRING,
};
use inference::api::ElementType;

const ALL: [ElementType; 21] = [
    ElementType::Undefined,
    ElementType::Float,
    ElementType::Uint8,
    ElementType::Int8,
    ElementType::Uint16,
    ElementType::Int16,
    ElementType::Int32,
    ElementType::Int64,
    ElementType::String,
    ElementType::Bool,
    ElementType::Float16,
    ElementType::Double,
    ElementType::Uint32,
    ElementType::Uint64,
    ElementType::Complex64,
    ElementType::Complex128,
    ElementType::Bfloat16,
    ElementType::Float8e4m3fn,
    ElementType::Float8e4m3fnuz,
    ElementType::Float8e5m2,
    ElementType::Float8e5m2fnuz,
];

#[test]
fn known_codes_read_as_their_types() {
    assert_eq!(ElementType::from(1u32), ElementType::Float);
    assert_eq!(ElementType::from(2u32), ElementType::Uint8);
    assert_eq!(ElementType::from(3u32), ElementType::Int8);
    assert_eq!(ElementType::from(4u32), ElementType::Uint16);
    assert_eq!(ElementType::from(5u32), ElementType::Int16);
    assert_eq!(ElementType::from(6u32), ElementType::Int32);
    assert_eq!(ElementType::from(7u32), ElementType::Int64);
    assert_eq!(ElementType::from(8u32), ElementType::String);
    assert_eq!(ElementType::from(9u32), ElementType::Bool);
    assert_eq!(ElementType::from(10u32), ElementType::Float16);
    assert_eq!(ElementType::from(11u32), ElementType::Double);
    assert_eq!(ElementType::from(12u32), ElementType::Uint32);
    assert_eq!(ElementType::from(13u32), ElementType::Uint64);
    assert_eq!(ElementType::from(14u32), ElementType::Complex64);
    assert_eq!(ElementType::from(15u32), ElementType::Complex128);
    assert_eq!(ElementType::from(16u32), ElementType::Bfloat16);
    assert_eq!(ElementType::from(17u32), ElementType::Float8e4m3fn);
    assert_eq!(ElementType::from(18u32), ElementType::Float8e4m3fnuz);
    assert_eq!(ElementType::from(19u32), ElementType::Float8e5m2);
    assert_eq!(ElementType::from(20u32), ElementType::Float8e5m2fnuz);
}

#[test]
fn named_codes_match_the_runtime_numbering() {
    assert_eq!(TYPE_FLOAT, 1);
    assert_eq!(TYPE_INT64, 7);
    assert_eq!(TYPE_STRING, 8);
    assert_eq!(TYPE_BOOL, 9);
    assert_eq!(TYPE_FLOAT8E5M2FNUZ, 20);
    assert_eq!(LAST_KNOWN_CODE, 20);
}

#[test]
fn zero_and_unknown_codes_read_as_undefined() {
    assert_eq!(ElementType::from(0u32), ElementType::Undefined);
    assert_eq!(ElementType::from(21u32), ElementType::Undefined);
    assert_eq!(ElementType::from(1000u32), ElementType::Undefined);
    assert_eq!(ElementType::from(u32::MAX), ElementType::Undefined);
}

#[test]
fn types_convert_to_their_codes() {
    assert_eq!(u32::from(ElementType::Undefined), 0);
    assert_eq!(u32::from(ElementType::Float), 1);
    assert_eq!(u32::from(ElementType::Int64), 7);
    let code: u32 = ElementType::Double.into();
    assert_eq!(code, 11);
    assert_eq!(u32::from(ElementType::Float8e5m2fnuz), 20);
}

#[test]
fn code_round_trip_for_every_type() {
    for (i, t) in ALL.iter().enumerate() {
        let code = u32::from(*t);
        assert_eq!(code as usize, i);
        assert_eq!(ElementType::from(code), *t);
    }
}

#[test]
fn type_round_trip_for_every_known_code() {
    for code in 0..=LAST_KNOWN_CODE {
        assert_eq!(u32::from(ElementType::from(code)), code);
    }
    for code in [21u32, 22, 99, u32::MAX] {
        assert_eq!(u32::from(ElementType::from(code)), 0);
    }
}

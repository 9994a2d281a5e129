//! Tensor element types, as ONNX Runtime numbers them.

use vstd::prelude::*;

verus! {

/// Runtime code of `ElementType::Float`.
pub const TYPE_FLOAT: u32 = 1;
/// Runtime code of `ElementType::Uint8`.
pub const TYPE_UINT8: u32 = 2;
/// Runtime code of `ElementType::Int8`.
pub const TYPE_INT8: u32 = 3;
/// Runtime code of `ElementType::Uint16`.
pub const TYPE_UINT16: u32 = 4;
/// Runtime code of `ElementType::Int16`.
pub const TYPE_INT16: u32 = 5;
/// Runtime code of `ElementType::Int32`.
pub const TYPE_INT32: u32 = 6;
/// Runtime code of `ElementType::Int64`.
pub const TYPE_INT64: u32 = 7;
/// Runtime code of `ElementType::String`.
pub const TYPE_STRING: u32 = 8;
/// Runtime code of `ElementType::Bool`.
pub const TYPE_BOOL: u32 = 9;
/// Runtime code of `ElementType::Float16`.
pub const TYPE_FLOAT16: u32 = 10;
/// Runtime code of `ElementType::Double`.
pub const TYPE_DOUBLE: u32 = 11;
/// Runtime code of `ElementType::Uint32`.
pub const TYPE_UINT32: u32 = 12;
/// Runtime code of `ElementType::Uint64`.
pub const TYPE_UINT64: u32 = 13;
/// Runtime code of `ElementType::Complex64`.
pub const TYPE_COMPLEX64: u32 = 14;
/// Runtime code of `ElementType::Complex128`.
pub const TYPE_COMPLEX128: u32 = 15;
/// Runtime code of `ElementType::Bfloat16`.
pub const TYPE_BFLOAT16: u32 = 16;
/// Runtime code of `ElementType::Float8e4m3fn`.
pub const TYPE_FLOAT8E4M3FN: u32 = 17;
/// Runtime code of `ElementType::Float8e4m3fnuz`.
pub const TYPE_FLOAT8E4M3FNUZ: u32 = 18;
/// Runtime code of `ElementType::Float8e5m2`.
pub const TYPE_FLOAT8E5M2: u32 = 19;
/// Runtime code of `ElementType::Float8e5m2fnuz`.
pub const TYPE_FLOAT8E5M2FNUZ: u32 = 20;

/// The element type of a tensor. Every code the runtime does not know
/// (and the code of "undefined" itself) reads as `Undefined`.
#[derive(Debug, Clone, Copy, PartialEq, Eq, Structural)]
pub enum ElementType {
    Undefined,
    Float,
    Uint8,
    Int8,
    Uint16,
    Int16,
    Int32,
    Int64,
    String,
    Bool,
    Float16,
    Double,
    Uint32,
    Uint64,
    Complex64,
    Complex128,
    Bfloat16,
    Float8e4m3fn,
    Float8e4m3fnuz,
    Float8e5m2,
    Float8e5m2fnuz,
}

/// The element type that a runtime code denotes.
pub open spec fn element_type_of_code(code: u32) -> ElementType {
    if code == TYPE_FLOAT {
        ElementType::Float
    } else if code == TYPE_UINT8 {
        ElementType::Uint8
    } else if code == TYPE_INT8 {
        ElementType::Int8
    } else if code == TYPE_UINT16 {
        ElementType::Uint16
    } else if code == TYPE_INT16 {
        ElementType::Int16
    } else if code == TYPE_INT32 {
        ElementType::Int32
    } else if code == TYPE_INT64 {
        ElementType::Int64
    } else if code == TYPE_STRING {
        ElementType::String
    } else if code == TYPE_BOOL {
        ElementType::Bool
    } else if code == TYPE_FLOAT16 {
        ElementType::Float16
    } else if code == TYPE_DOUBLE {
        ElementType::Double
    } else if code == TYPE_UINT32 {
        ElementType::Uint32
    } else if code == TYPE_UINT64 {
        ElementType::Uint64
    } else if code == TYPE_COMPLEX64 {
        ElementType::Complex64
    } else if code == TYPE_COMPLEX128 {
        ElementType::Complex128
    } else if code == TYPE_BFLOAT16 {
        ElementType::Bfloat16
    } else if code == TYPE_FLOAT8E4M3FN {
        ElementType::Float8e4m3fn
    } else if code == TYPE_FLOAT8E4M3FNUZ {
        ElementType::Float8e4m3fnuz
    } else if code == TYPE_FLOAT8E5M2 {
        ElementType::Float8e5m2
    } else if code == TYPE_FLOAT8E5M2FNUZ {
        ElementType::Float8e5m2fnuz
    } else {
        ElementType::Undefined
    }
}

impl From<u32> for ElementType {
    /// Reads a runtime element-type code; unknown codes give `Undefined`.
    fn from(value: u32) -> (ret: Self) {
        match value {
            TYPE_FLOAT => Self::Float,
            TYPE_UINT8 => Self::Uint8,
            TYPE_INT8 => Self::Int8,
            TYPE_UINT16 => Self::Uint16,
            TYPE_INT16 => Self::Int16,
            TYPE_INT32 => Self::Int32,
            TYPE_INT64 => Self::Int64,
            TYPE_STRING => Self::String,
            TYPE_BOOL => Self::Bool,
            TYPE_FLOAT16 => Self::Float16,
            TYPE_DOUBLE => Self::Double,
            TYPE_UINT32 => Self::Uint32,
            TYPE_UINT64 => Self::Uint64,
            TYPE_COMPLEX64 => Self::Complex64,
            TYPE_COMPLEX128 => Self::Complex128,
            TYPE_BFLOAT16 => Self::Bfloat16,
            TYPE_FLOAT8E4M3FN => Self::Float8e4m3fn,
            TYPE_FLOAT8E4M3FNUZ => Self::Float8e4m3fnuz,
            TYPE_FLOAT8E5M2 => Self::Float8e5m2,
            TYPE_FLOAT8E5M2FNUZ => Self::Float8e5m2fnuz,
            _ => Self::Undefined,
        }
    }
}

impl vstd::std_specs::convert::FromSpecImpl<u32> for ElementType {
    open spec fn obeys_from_spec() -> bool {
        true
    }

    open spec fn from_spec(value: u32) -> ElementType {
        element_type_of_code(value)
    }
}

/// The runtime code of an element type; `Undefined` has code 0.
pub open spec fn code_of_element_type(element_type: ElementType) -> u32 {
    match element_type {
        ElementType::Undefined => 0,
        ElementType::Float => TYPE_FLOAT,
        ElementType::Uint8 => TYPE_UINT8,
        ElementType::Int8 => TYPE_INT8,
        ElementType::Uint16 => TYPE_UINT16,
        ElementType::Int16 => TYPE_INT16,
        ElementType::Int32 => TYPE_INT32,
        ElementType::Int64 => TYPE_INT64,
        ElementType::String => TYPE_STRING,
        ElementType::Bool => TYPE_BOOL,
        ElementType::Float16 => TYPE_FLOAT16,
        ElementType::Double => TYPE_DOUBLE,
        ElementType::Uint32 => TYPE_UINT32,
        ElementType::Uint64 => TYPE_UINT64,
        ElementType::Complex64 => TYPE_COMPLEX64,
        ElementType::Complex128 => TYPE_COMPLEX128,
        ElementType::Bfloat16 => TYPE_BFLOAT16,
        ElementType::Float8e4m3fn => TYPE_FLOAT8E4M3FN,
        ElementType::Float8e4m3fnuz => TYPE_FLOAT8E4M3FNUZ,
        ElementType::Float8e5m2 => TYPE_FLOAT8E5M2,
        ElementType::Float8e5m2fnuz => TYPE_FLOAT8E5M2FNUZ,
    }
}

/// The largest code that names a defined element type.
pub const LAST_KNOWN_CODE: u32 = 20;

impl From<ElementType> for u32 {
    /// The runtime code of an element type, as handed to the runtime when a
    /// tensor is created.
    fn from(element_type: ElementType) -> (ret: u32) {
        match element_type {
            ElementType::Undefined => 0,
            ElementType::Float => TYPE_FLOAT,
            ElementType::Uint8 => TYPE_UINT8,
            ElementType::Int8 => TYPE_INT8,
            ElementType::Uint16 => TYPE_UINT16,
            ElementType::Int16 => TYPE_INT16,
            ElementType::Int32 => TYPE_INT32,
            ElementType::Int64 => TYPE_INT64,
            ElementType::String => TYPE_STRING,
            ElementType::Bool => TYPE_BOOL,
            ElementType::Float16 => TYPE_FLOAT16,
            ElementType::Double => TYPE_DOUBLE,
            ElementType::Uint32 => TYPE_UINT32,
            ElementType::Uint64 => TYPE_UINT64,
            ElementType::Complex64 => TYPE_COMPLEX64,
            ElementType::Complex128 => TYPE_COMPLEX128,
            ElementType::Bfloat16 => TYPE_BFLOAT16,
            ElementType::Float8e4m3fn => TYPE_FLOAT8E4M3FN,
            ElementType::Float8e4m3fnuz => TYPE_FLOAT8E4M3FNUZ,
            ElementType::Float8e5m2 => TYPE_FLOAT8E5M2,
            ElementType::Float8e5m2fnuz => TYPE_FLOAT8E5M2FNUZ,
        }
    }
}

impl vstd::std_specs::convert::FromSpecImpl<ElementType> for u32 {
    open spec fn obeys_from_spec() -> bool {
        true
    }

    open spec fn from_spec(element_type: ElementType) -> u32 {
        code_of_element_type(element_type)
    }
}

/// Reading back the code of an element type gives that element type again.
pub proof fn lemma_code_round_trip(element_type: ElementType)
    ensures
        element_type_of_code(code_of_element_type(element_type)) == element_type,
        code_of_element_type(element_type) <= LAST_KNOWN_CODE,
{
}

/// A code up to the last known one is the code of the element type it reads
/// as; every larger code reads as `Undefined`. Hence two codes up to the last
/// known one read as the same element type only if they are equal.
pub proof fn lemma_type_round_trip(code: u32)
    ensures
        code <= LAST_KNOWN_CODE ==> code_of_element_type(element_type_of_code(code)) == code,
        code > LAST_KNOWN_CODE ==> element_type_of_code(code) == ElementType::Undefined,
{
}

/// Distinct element types have distinct codes.
pub proof fn lemma_codes_distinct(a: ElementType, b: ElementType)
    ensures
        code_of_element_type(a) == code_of_element_type(b) ==> a == b,
{
    lemma_code_round_trip(a);
    lemma_code_round_trip(b);
}

} // verus!

//! Rules on numbers, operators and casts.

use crate::types::Type;
use vstd::prelude::*;

verus! {

/// The largest value of an integer type; zero for any other type.
pub open spec fn spec_integer_positive_maximum(ty: Type) -> u128 {
    match ty {
        Type::I8 => 0x7f,
        Type::I16 => 0x7fff,
        Type::I32 => 0x7fff_ffff,
        Type::I64 | Type::Isize => 0x7fff_ffff_ffff_ffff,
        Type::I128 => 0x7fff_ffff_ffff_ffff_ffff_ffff_ffff_ffff,
        Type::U8 => 0xff,
        Type::U16 => 0xffff,
        Type::U32 => 0xffff_ffff,
        Type::U64 | Type::Usize => 0xffff_ffff_ffff_ffff,
        Type::U128 => 0xffff_ffff_ffff_ffff_ffff_ffff_ffff_ffff,
        _ => 0,
    }
}

/// The largest value of an integer type; zero for any other type.
#[verifier::when_used_as_spec(spec_integer_positive_maximum)]
pub fn integer_positive_maximum(ty: Type) -> (maximum: u128)
    ensures
        maximum == spec_integer_positive_maximum(ty),
{
    let bits: u32 = match ty.integer_bits() {
        Some(bits) => bits,
        None => {
            return 0;
        },
    };
    assert((1u128 << 7) - 1 == 0x7f && (1u128 << 15) - 1 == 0x7fff && (1u128 << 31) - 1
        == 0x7fff_ffff && (1u128 << 63) - 1 == 0x7fff_ffff_ffff_ffff && (1u128 << 127) - 1
        == 0x7fff_ffff_ffff_ffff_ffff_ffff_ffff_ffff && (1u128 << 8) - 1 == 0xff && (1u128 << 16)
        - 1 == 0xffff && (1u128 << 32) - 1 == 0xffff_ffff && (1u128 << 64) - 1
        == 0xffff_ffff_ffff_ffff) by (bit_vector);
    if ty.is_signed_integer() {
        (1u128 << (bits - 1)) - 1
    } else if bits == 128 {
        u128::MAX
    } else {
        (1u128 << bits) - 1
    }
}

/// The magnitude of the smallest value of a signed integer type, which is one
/// more than its largest value; for an unsigned type, half its range. Zero for
/// any other type.
pub open spec fn spec_integer_minimum_magnitude(ty: Type) -> u128 {
    match ty {
        Type::I8 | Type::U8 => 0x80,
        Type::I16 | Type::U16 => 0x8000,
        Type::I32 | Type::U32 => 0x8000_0000,
        Type::I64 | Type::U64 | Type::Isize | Type::Usize => 0x8000_0000_0000_0000,
        Type::I128 | Type::U128 => 0x8000_0000_0000_0000_0000_0000_0000_0000,
        _ => 0,
    }
}

/// The magnitude of the smallest value of a signed integer type, which is one
/// more than its largest value; for an unsigned type, half its range. Zero for
/// any other type.
#[verifier::when_used_as_spec(spec_integer_minimum_magnitude)]
pub fn integer_minimum_magnitude(ty: Type) -> (magnitude: u128)
    ensures
        magnitude == spec_integer_minimum_magnitude(ty),
{
    let bits: u32 = match ty.integer_bits() {
        Some(bits) => bits,
        None => {
            return 0;
        },
    };
    assert(1u128 << 7 == 0x80 && 1u128 << 15 == 0x8000 && 1u128 << 31 == 0x8000_0000 && 1u128 << 63
        == 0x8000_0000_0000_0000 && 1u128 << 127 == 0x8000_0000_0000_0000_0000_0000_0000_0000)
        by (bit_vector);
    1u128 << (bits - 1)
}

/// A signed type reaches one further below zero than above it.
pub proof fn minimum_lies_one_beyond_maximum(ty: Type)
    requires
        ty.is_signed_integer(),
    ensures
        integer_minimum_magnitude(ty) == integer_positive_maximum(ty) + 1,
{
}

/// Whether values of the type can be compared by `==`.
#[verifier::allow_in_spec]
pub fn is_equality_type(ty: Type) -> bool
    returns
        (ty.is_numeric() || ty is Bool || ty is Char),
{
    ty.is_numeric() || matches!(ty, Type::Bool | Type::Char)
}

/// Whether values of the type can be compared by `<`.
#[verifier::allow_in_spec]
pub fn is_ordered_type(ty: Type) -> bool
    returns
        (ty.is_numeric() || ty is Char),
{
    ty.is_numeric() || ty == Type::Char
}

/// Whether a value of one type can be cast to another type.
pub open spec fn spec_is_valid_cast(source: Type, target: Type) -> bool {
    ||| source == target && source.has_runtime_value()
    ||| source.is_integer() && (target.is_integer() || target.is_float())
    ||| source.is_float() && (target.is_float() || (target.integer_bits() matches Some(bits)
        && bits <= 64))
    ||| source is Char && target.is_integer()
    ||| source.is_thin_pointer() && (target.is_thin_pointer() || target is Usize)
    ||| source is Usize && (target is RawPointer || target is Function)
}

/// Whether a value of one type can be cast to another type.
#[verifier::when_used_as_spec(spec_is_valid_cast)]
pub fn is_valid_cast(source: Type, target: Type) -> (valid: bool)
    ensures
        valid == spec_is_valid_cast(source, target),
{
    (source == target && source.has_runtime_value()) || (source.is_integer() && (
    target.is_integer() || target.is_float())) || (source.is_float() && (target.is_float()
        || match target.integer_bits() {
        Some(bits) => bits <= 64,
        None => false,
    })) || (source == Type::Char && target.is_integer()) || (source.is_thin_pointer()
        && target.is_thin_pointer()) || (source.is_thin_pointer() && target == Type::Usize) || (
    source == Type::Usize && matches!(target, Type::RawPointer(_) | Type::Function(_)))
}

/// The method that appends a value of the type to a string.
pub open spec fn spec_string_format_method(ty: Type) -> Option<&'static str> {
    match ty {
        Type::Str => Some("push_str"),
        Type::Bool => Some("push_bool"),
        Type::Char => Some("push_char"),
        Type::I8 => Some("push_i8"),
        Type::I16 => Some("push_i16"),
        Type::I32 => Some("push_i32"),
        Type::I64 => Some("push_i64"),
        Type::I128 => Some("push_i128"),
        Type::Isize => Some("push_isize"),
        Type::U8 => Some("push_u8"),
        Type::U16 => Some("push_u16"),
        Type::U32 => Some("push_u32"),
        Type::U64 => Some("push_u64"),
        Type::U128 => Some("push_u128"),
        Type::Usize => Some("push_usize"),
        Type::F32 => Some("push_f32"),
        Type::F64 => Some("push_f64"),
        _ => None,
    }
}

/// The method that appends a value of the type to a string.
#[verifier::when_used_as_spec(spec_string_format_method)]
pub fn string_format_method(ty: Type) -> (method: Option<&'static str>)
    ensures
        method == spec_string_format_method(ty),
{
    match ty {
        Type::Str => Some("push_str"),
        Type::Bool => Some("push_bool"),
        Type::Char => Some("push_char"),
        Type::I8 => Some("push_i8"),
        Type::I16 => Some("push_i16"),
        Type::I32 => Some("push_i32"),
        Type::I64 => Some("push_i64"),
        Type::I128 => Some("push_i128"),
        Type::Isize => Some("push_isize"),
        Type::U8 => Some("push_u8"),
        Type::U16 => Some("push_u16"),
        Type::U32 => Some("push_u32"),
        Type::U64 => Some("push_u64"),
        Type::U128 => Some("push_u128"),
        Type::Usize => Some("push_usize"),
        Type::F32 => Some("push_f32"),
        Type::F64 => Some("push_f64"),
        _ => None,
    }
}

} // verus!

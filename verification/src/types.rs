//! The types of the language.

use crate::list::{cons, List};
use crate::text::{number, same, words, Piece, Text};
use vstd::prelude::*;

verus! {

/// The position of a composite type among all definitions.
#[derive(Clone, Copy, PartialEq, Eq, Structural, Debug)]
pub struct TypeId(pub u32);

/// A type: a scalar, or the definition of a composite type.
#[derive(Clone, Copy, PartialEq, Eq, Structural, Debug)]
pub enum Type {
    I8,
    I16,
    I32,
    I64,
    I128,
    Isize,
    U8,
    U16,
    U32,
    U64,
    U128,
    Usize,
    F32,
    F64,
    Bool,
    Char,
    Str,
    CStr,
    Unit,
    Never,
    Struct(TypeId),
    Enum(TypeId),
    Tuple(TypeId),
    Array(TypeId),
    Reference(TypeId),
    RawPointer(TypeId),
    Slice(TypeId),
    Function(TypeId),
}

impl Type {
    #[verifier::allow_in_spec]
    pub fn is_signed_integer(self) -> bool
        returns
            (self is I8 || self is I16 || self is I32 || self is I64 || self is I128
                || self is Isize),
    {
        matches!(
            self,
            Type::I8 | Type::I16 | Type::I32 | Type::I64 | Type::I128 | Type::Isize
        )
    }

    #[verifier::allow_in_spec]
    pub fn is_unsigned_integer(self) -> bool
        returns
            (self is U8 || self is U16 || self is U32 || self is U64 || self is U128
                || self is Usize),
    {
        matches!(
            self,
            Type::U8 | Type::U16 | Type::U32 | Type::U64 | Type::U128 | Type::Usize
        )
    }

    #[verifier::allow_in_spec]
    pub fn is_integer(self) -> bool
        returns
            (self.is_signed_integer() || self.is_unsigned_integer()),
    {
        self.is_signed_integer() || self.is_unsigned_integer()
    }

    #[verifier::allow_in_spec]
    pub fn is_float(self) -> bool
        returns
            (self is F32 || self is F64),
    {
        matches!(self, Type::F32 | Type::F64)
    }

    #[verifier::allow_in_spec]
    pub fn is_numeric(self) -> bool
        returns
            (self.is_integer() || self.is_float()),
    {
        self.is_integer() || self.is_float()
    }

    /// Whether values of the type are one address wide.
    #[verifier::allow_in_spec]
    pub fn is_thin_pointer(self) -> bool
        returns
            (self is Reference || self is RawPointer || self is Function || self is CStr),
    {
        matches!(self, Type::Reference(_) | Type::RawPointer(_) | Type::Function(_) | Type::CStr)
    }

    /// Whether a value of the type can exist while a program runs.
    #[verifier::allow_in_spec]
    pub fn has_runtime_value(self) -> bool
        returns
            !(self is Never),
    {
        !matches!(self, Type::Never)
    }

    /// Whether a value of type `actual` can stand where this type is asked
    /// for: it is of the same type, or it never comes to be.
    #[verifier::allow_in_spec]
    pub fn accepts(self, actual: Type) -> bool
        returns
            (self == actual || actual is Never),
    {
        self == actual || matches!(actual, Type::Never)
    }

    /// The width of an integer type; addresses are 64 bits wide.
    pub open spec fn spec_integer_bits(self) -> Option<u32> {
        match self {
            Type::I8 | Type::U8 => Some(8),
            Type::I16 | Type::U16 => Some(16),
            Type::I32 | Type::U32 => Some(32),
            Type::I64 | Type::U64 | Type::Isize | Type::Usize => Some(64),
            Type::I128 | Type::U128 => Some(128),
            _ => None,
        }
    }

    /// The width of an integer type; addresses are 64 bits wide.
    #[verifier::when_used_as_spec(spec_integer_bits)]
    pub fn integer_bits(self) -> (bits: Option<u32>)
        ensures
            bits == self.spec_integer_bits(),
    {
        match self {
            Type::I8 | Type::U8 => Some(8),
            Type::I16 | Type::U16 => Some(16),
            Type::I32 | Type::U32 => Some(32),
            Type::I64 | Type::U64 | Type::Isize | Type::Usize => Some(64),
            Type::I128 | Type::U128 => Some(128),
            _ => None,
        }
    }

    /// The definition of a composite type.
    pub open spec fn spec_id(self) -> Option<TypeId> {
        match self {
            Type::Struct(id) => Some(id),
            Type::Enum(id) => Some(id),
            Type::Tuple(id) => Some(id),
            Type::Array(id) => Some(id),
            Type::Reference(id) => Some(id),
            Type::RawPointer(id) => Some(id),
            Type::Slice(id) => Some(id),
            Type::Function(id) => Some(id),
            _ => None,
        }
    }

    /// The definition of a composite type.
    #[verifier::when_used_as_spec(spec_id)]
    pub fn id(self) -> (id: Option<TypeId>)
        ensures
            id == self.spec_id(),
    {
        match self {
            Type::Struct(id) => Some(id),
            Type::Enum(id) => Some(id),
            Type::Tuple(id) => Some(id),
            Type::Array(id) => Some(id),
            Type::Reference(id) => Some(id),
            Type::RawPointer(id) => Some(id),
            Type::Slice(id) => Some(id),
            Type::Function(id) => Some(id),
            _ => None,
        }
    }

    /// The name of a scalar type, or the kind of a composite type with its
    /// number.
    pub open spec fn spec_text<'a>(self) -> Text<'a> {
        match self {
            Type::I8 => words("i8"),
            Type::I16 => words("i16"),
            Type::I32 => words("i32"),
            Type::I64 => words("i64"),
            Type::I128 => words("i128"),
            Type::Isize => words("isize"),
            Type::U8 => words("u8"),
            Type::U16 => words("u16"),
            Type::U32 => words("u32"),
            Type::U64 => words("u64"),
            Type::U128 => words("u128"),
            Type::Usize => words("usize"),
            Type::F32 => words("f32"),
            Type::F64 => words("f64"),
            Type::Bool => words("bool"),
            Type::Char => words("char"),
            Type::Str => words("str"),
            Type::CStr => words("cstr"),
            Type::Unit => words("()"),
            Type::Never => words("never"),
            Type::Struct(id) => cons(Piece::Words("struct#"), number(id.0 as u128)),
            Type::Enum(id) => cons(Piece::Words("enum#"), number(id.0 as u128)),
            Type::Tuple(id) => cons(Piece::Words("tuple#"), number(id.0 as u128)),
            Type::Array(id) => cons(Piece::Words("array#"), number(id.0 as u128)),
            Type::Reference(id) => cons(Piece::Words("reference#"), number(id.0 as u128)),
            Type::RawPointer(id) => cons(Piece::Words("pointer#"), number(id.0 as u128)),
            Type::Slice(id) => cons(Piece::Words("slice#"), number(id.0 as u128)),
            Type::Function(id) => cons(Piece::Words("fn#"), number(id.0 as u128)),
        }
    }

    /// The name of a scalar type, or the kind of a composite type with its
    /// number.
    #[verifier::when_used_as_spec(spec_text)]
    pub fn text<'a>(self) -> (text: Text<'a>)
        ensures
            text == self.spec_text(),
    {
        match self {
            Type::I8 => words("i8"),
            Type::I16 => words("i16"),
            Type::I32 => words("i32"),
            Type::I64 => words("i64"),
            Type::I128 => words("i128"),
            Type::Isize => words("isize"),
            Type::U8 => words("u8"),
            Type::U16 => words("u16"),
            Type::U32 => words("u32"),
            Type::U64 => words("u64"),
            Type::U128 => words("u128"),
            Type::Usize => words("usize"),
            Type::F32 => words("f32"),
            Type::F64 => words("f64"),
            Type::Bool => words("bool"),
            Type::Char => words("char"),
            Type::Str => words("str"),
            Type::CStr => words("cstr"),
            Type::Unit => words("()"),
            Type::Never => words("never"),
            Type::Struct(id) => cons(Piece::Words("struct#"), number(id.0 as u128)),
            Type::Enum(id) => cons(Piece::Words("enum#"), number(id.0 as u128)),
            Type::Tuple(id) => cons(Piece::Words("tuple#"), number(id.0 as u128)),
            Type::Array(id) => cons(Piece::Words("array#"), number(id.0 as u128)),
            Type::Reference(id) => cons(Piece::Words("reference#"), number(id.0 as u128)),
            Type::RawPointer(id) => cons(Piece::Words("pointer#"), number(id.0 as u128)),
            Type::Slice(id) => cons(Piece::Words("slice#"), number(id.0 as u128)),
            Type::Function(id) => cons(Piece::Words("fn#"), number(id.0 as u128)),
        }
    }
}

/// Whether two lists of types are the same.
pub fn same_types(left: &List<Type>, right: &List<Type>) -> (equal: bool)
    ensures
        equal == (*left == *right),
{
    let mut ahead: &List<Type> = left;
    let mut current_right: &List<Type> = right;
    loop
        invariant
            (*left == *right) == (*ahead == *current_right),
        decreases *ahead,
    {
        match ahead {
            List::Nil => {
                return current_right.is_empty();
            },
            List::Cons(first) => {
                match current_right {
                    List::Nil => {
                        return false;
                    },
                    List::Cons(second) => {
                        if !(first.head == second.head) {
                            return false;
                        }
                        current_right = &second.tail;
                        ahead = &first.tail;
                    },
                }
            },
        }
    }
}

/// What the C types of the target platform look like.
#[derive(Clone, Copy, PartialEq, Eq, Structural, Debug)]
pub struct Platform {
    /// Whether a plain C `char` is unsigned.
    pub char_is_unsigned: bool,
    /// Whether a C `long` has 32 bits; it has 64 bits otherwise.
    pub long_is_narrow: bool,
}

/// The type that a primitive name stands for.
pub open spec fn named_primitive(platform: Platform, name: Seq<char>) -> Option<Type> {
    if name == "i8"@ || name == "c_schar"@ {
        Some(Type::I8)
    } else if name == "i16"@ || name == "c_short"@ {
        Some(Type::I16)
    } else if name == "i32"@ || name == "c_int"@ {
        Some(Type::I32)
    } else if name == "i64"@ || name == "c_longlong"@ {
        Some(Type::I64)
    } else if name == "i128"@ {
        Some(Type::I128)
    } else if name == "isize"@ || name == "c_ptrdiff"@ {
        Some(Type::Isize)
    } else if name == "u8"@ || name == "c_uchar"@ {
        Some(Type::U8)
    } else if name == "u16"@ || name == "c_ushort"@ {
        Some(Type::U16)
    } else if name == "u32"@ || name == "c_uint"@ {
        Some(Type::U32)
    } else if name == "u64"@ || name == "c_ulonglong"@ {
        Some(Type::U64)
    } else if name == "u128"@ {
        Some(Type::U128)
    } else if name == "usize"@ || name == "c_size"@ {
        Some(Type::Usize)
    } else if name == "f32"@ || name == "c_float"@ {
        Some(Type::F32)
    } else if name == "f64"@ || name == "c_double"@ {
        Some(Type::F64)
    } else if name == "bool"@ {
        Some(Type::Bool)
    } else if name == "char"@ {
        Some(Type::Char)
    } else if name == "str"@ {
        Some(Type::Str)
    } else if name == "cstr"@ {
        Some(Type::CStr)
    } else if name == "c_char"@ {
        Some(if platform.char_is_unsigned { Type::U8 } else { Type::I8 })
    } else if name == "c_long"@ {
        Some(if platform.long_is_narrow { Type::I32 } else { Type::I64 })
    } else if name == "c_ulong"@ {
        Some(if platform.long_is_narrow { Type::U32 } else { Type::U64 })
    } else if name == "never"@ {
        Some(Type::Never)
    } else {
        None
    }
}

/// The type that a primitive name stands for.
pub fn primitive_type(platform: Platform, name: &str) -> (ty: Option<Type>)
    ensures
        ty == named_primitive(platform, name@),
{
    if same(name, "i8") || same(name, "c_schar") {
        Some(Type::I8)
    } else if same(name, "i16") || same(name, "c_short") {
        Some(Type::I16)
    } else if same(name, "i32") || same(name, "c_int") {
        Some(Type::I32)
    } else if same(name, "i64") || same(name, "c_longlong") {
        Some(Type::I64)
    } else if same(name, "i128") {
        Some(Type::I128)
    } else if same(name, "isize") || same(name, "c_ptrdiff") {
        Some(Type::Isize)
    } else if same(name, "u8") || same(name, "c_uchar") {
        Some(Type::U8)
    } else if same(name, "u16") || same(name, "c_ushort") {
        Some(Type::U16)
    } else if same(name, "u32") || same(name, "c_uint") {
        Some(Type::U32)
    } else if same(name, "u64") || same(name, "c_ulonglong") {
        Some(Type::U64)
    } else if same(name, "u128") {
        Some(Type::U128)
    } else if same(name, "usize") || same(name, "c_size") {
        Some(Type::Usize)
    } else if same(name, "f32") || same(name, "c_float") {
        Some(Type::F32)
    } else if same(name, "f64") || same(name, "c_double") {
        Some(Type::F64)
    } else if same(name, "bool") {
        Some(Type::Bool)
    } else if same(name, "char") {
        Some(Type::Char)
    } else if same(name, "str") {
        Some(Type::Str)
    } else if same(name, "cstr") {
        Some(Type::CStr)
    } else if same(name, "c_char") {
        Some(if platform.char_is_unsigned { Type::U8 } else { Type::I8 })
    } else if same(name, "c_long") {
        Some(if platform.long_is_narrow { Type::I32 } else { Type::I64 })
    } else if same(name, "c_ulong") {
        Some(if platform.long_is_narrow { Type::U32 } else { Type::U64 })
    } else if same(name, "never") {
        Some(Type::Never)
    } else {
        None
    }
}

} // verus!

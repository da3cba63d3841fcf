//! Which types can cross the boundary to C.

use crate::hir::{TypeDefinitionKind, TypeField, TypeRepresentation};
use crate::list::List;
use crate::registry::{TypeRegistry, Types, LIMIT};
use crate::types::Type;
use vstd::prelude::*;

verus! {

/// Whether a type is a struct in C representation.
pub open spec fn c_struct(types: Types, ty: Type) -> bool {
    match types.definition(ty) {
        Some(definition) => ty is Struct && definition.representation is C,
        None => false,
    }
}

/// Whether a type can be passed to C as a scalar, a pointer or a function.
pub open spec fn ffi_safe(types: Types, ty: Type, fuel: nat) -> bool
    decreases fuel, 0nat, List::<Type>::Nil,
{
    match ty {
        Type::RawPointer(_) => match types.shape(ty) {
            Some(TypeDefinitionKind::RawPointer { target, .. }) => target is Unit || (fuel > 0
                && ffi_safe(types, target, (fuel - 1) as nat)) || c_struct(types, target),
            _ => false,
        },
        Type::Function(_) => match types.function_shape(ty) {
            Some((parameters, return_type)) => fuel > 0 && all_ffi_safe(
                types,
                parameters,
                (fuel - 1) as nat,
            ) && ffi_safe_return(types, return_type, (fuel - 1) as nat),
            None => false,
        },
        _ => (ty.is_numeric() && !(ty is I128) && !(ty is U128)) || ty is Bool || ty is CStr,
    }
}

/// Whether all the types can be passed to C.
pub open spec fn all_ffi_safe(types: Types, list: List<Type>, fuel: nat) -> bool
    decreases fuel, 1nat, list,
{
    match list {
        List::Nil => true,
        List::Cons(node) => ffi_safe(types, node.head, fuel) && all_ffi_safe(
            types,
            node.tail,
            fuel,
        ),
    }
}

/// Whether a type can be passed to C by value, also as a struct.
pub open spec fn ffi_safe_value(types: Types, ty: Type, fuel: nat) -> bool
    decreases fuel, 5nat, List::<Type>::Nil,
{
    ffi_safe(types, ty, fuel) || ffi_safe_struct(types, ty, fuel)
}

/// Whether a type can be returned from C.
pub open spec fn ffi_safe_return(types: Types, ty: Type, fuel: nat) -> bool
    decreases fuel, 6nat, List::<Type>::Nil,
{
    ty is Unit || ffi_safe_value(types, ty, fuel)
}

/// Whether a type is a struct in C representation whose fields C knows.
pub open spec fn ffi_safe_struct(types: Types, ty: Type, fuel: nat) -> bool
    decreases fuel, 4nat, List::<Type>::Nil,
{
    match types.definition(ty) {
        Some(definition) => match definition.kind {
            TypeDefinitionKind::Struct { fields } => definition.representation is C && !(
            fields is Nil) && ffi_safe_fields(types, fields, fuel),
            _ => false,
        },
        None => false,
    }
}

/// Whether C knows all the fields.
pub open spec fn ffi_safe_fields(types: Types, fields: List<TypeField>, fuel: nat) -> bool
    decreases fuel, 3nat, fields,
{
    match fields {
        List::Nil => true,
        List::Cons(node) => ffi_safe_field(types, node.head.ty, fuel) && ffi_safe_fields(
            types,
            node.tail,
            fuel,
        ),
    }
}

/// Whether C knows a field: what can be passed to C, and structs and arrays
/// of that.
pub open spec fn ffi_safe_field(types: Types, ty: Type, fuel: nat) -> bool
    decreases fuel, 2nat, List::<Type>::Nil,
{
    ||| ffi_safe(types, ty, fuel)
    ||| match ty {
        Type::Struct(_) => fuel > 0 && ffi_safe_struct(types, ty, (fuel - 1) as nat),
        Type::Array(_) => match types.array_shape(ty) {
            Some((element, _)) => fuel > 0 && ffi_safe_field(types, element, (fuel - 1) as nat),
            None => false,
        },
        _ => false,
    }
}

impl<'a> Types<'a> {
    /// Whether values of the type may be handed to foreign code.
    #[verifier::opaque]
    pub open spec fn is_foreign_value(self, ty: Type) -> bool {
        ffi_safe_value(self, ty, LIMIT as nat)
    }

    /// Whether values of the type may come back from foreign code.
    #[verifier::opaque]
    pub open spec fn is_foreign_return(self, ty: Type) -> bool {
        ffi_safe_return(self, ty, LIMIT as nat)
    }
}

impl<'a> TypeRegistry<'a> {
    fn is_c_representation_struct(&self, ty: Type) -> (answer: bool)
        ensures
            answer == c_struct(self@, ty),
    {
        match self.definition(ty) {
            Some(definition) => matches!(ty, Type::Struct(_)) && definition.representation
                == TypeRepresentation::C,
            None => false,
        }
    }

    fn is_ffi_safe_type(&self, ty: Type, fuel: u32) -> (answer: bool)
        ensures
            answer == ffi_safe(self@, ty, fuel as nat),
        decreases fuel, 0nat, List::<Type>::Nil,
    {
        match ty {
            Type::RawPointer(_) => match self.shape(ty) {
                Some(TypeDefinitionKind::RawPointer { target, .. }) => target == Type::Unit || (fuel
                    > 0 && self.is_ffi_safe_type(target, fuel - 1))
                    || self.is_c_representation_struct(target),
                _ => false,
            },
            Type::Function(_) => match self.function_shape(ty) {
                Some((parameters, return_type)) => fuel > 0 && self.are_all_ffi_safe(
                    &parameters,
                    fuel - 1,
                ) && self.is_ffi_safe_return_within(return_type, fuel - 1),
                None => false,
            },
            _ => (ty.is_numeric() && !matches!(ty, Type::I128 | Type::U128)) || matches!(
                ty,
                Type::Bool | Type::CStr
            ),
        }
    }

    fn are_all_ffi_safe(&self, list: &List<Type>, fuel: u32) -> (answer: bool)
        ensures
            answer == all_ffi_safe(self@, *list, fuel as nat),
        decreases fuel, 1nat, *list,
    {
        let mut ahead: &List<Type> = list;
        loop
            invariant
                all_ffi_safe(self@, *list, fuel as nat) == all_ffi_safe(self@, *ahead, fuel as nat),
            decreases *ahead,
        {
            match ahead {
                List::Nil => {
                    return true;
                },
                List::Cons(node) => {
                    if !self.is_ffi_safe_type(node.head, fuel) {
                        return false;
                    }
                    ahead = &node.tail;
                },
            }
        }
    }

    fn is_ffi_safe_value_within(&self, ty: Type, fuel: u32) -> (answer: bool)
        ensures
            answer == ffi_safe_value(self@, ty, fuel as nat),
        decreases fuel, 5nat, List::<Type>::Nil,
    {
        self.is_ffi_safe_type(ty, fuel) || self.is_ffi_safe_c_struct(ty, fuel)
    }

    fn is_ffi_safe_return_within(&self, ty: Type, fuel: u32) -> (answer: bool)
        ensures
            answer == ffi_safe_return(self@, ty, fuel as nat),
        decreases fuel, 6nat, List::<Type>::Nil,
    {
        ty == Type::Unit || self.is_ffi_safe_value_within(ty, fuel)
    }

    fn is_ffi_safe_c_struct(&self, ty: Type, fuel: u32) -> (answer: bool)
        ensures
            answer == ffi_safe_struct(self@, ty, fuel as nat),
        decreases fuel, 4nat, List::<Type>::Nil,
    {
        match self.definition(ty) {
            Some(definition) => match &definition.kind {
                TypeDefinitionKind::Struct { fields } => definition.representation
                    == TypeRepresentation::C && !fields.is_empty() && self.are_ffi_safe_fields(
                    fields,
                    fuel,
                ),
                _ => false,
            },
            None => false,
        }
    }

    fn are_ffi_safe_fields(&self, fields: &List<TypeField<'a>>, fuel: u32) -> (answer: bool)
        ensures
            answer == ffi_safe_fields(self@, *fields, fuel as nat),
        decreases fuel, 3nat, *fields,
    {
        let mut ahead: &List<TypeField<'a>> = fields;
        loop
            invariant
                ffi_safe_fields(self@, *fields, fuel as nat) == ffi_safe_fields(
                    self@,
                    *ahead,
                    fuel as nat,
                ),
            decreases *ahead,
        {
            match ahead {
                List::Nil => {
                    return true;
                },
                List::Cons(node) => {
                    if !self.is_ffi_safe_c_field(node.head.ty, fuel) {
                        return false;
                    }
                    ahead = &node.tail;
                },
            }
        }
    }

    fn is_ffi_safe_c_field(&self, ty: Type, fuel: u32) -> (answer: bool)
        ensures
            answer == ffi_safe_field(self@, ty, fuel as nat),
        decreases fuel, 2nat, List::<Type>::Nil,
    {
        self.is_ffi_safe_type(ty, fuel) || match ty {
            Type::Struct(_) => fuel > 0 && self.is_ffi_safe_c_struct(ty, fuel - 1),
            Type::Array(_) => match self.array_shape(ty) {
                Some((element, _)) => fuel > 0 && self.is_ffi_safe_c_field(element, fuel - 1),
                None => false,
            },
            _ => false,
        }
    }

    /// Whether a type can be passed to C by value.
    pub fn is_ffi_safe_foreign_value(&self, ty: Type) -> (answer: bool)
        ensures
            answer == self@.is_foreign_value(ty),
    {
        reveal(Types::is_foreign_value);
        self.is_ffi_safe_value_within(ty, LIMIT)
    }

    /// Whether a type can be returned from C.
    pub fn is_ffi_safe_return_type(&self, ty: Type) -> (answer: bool)
        ensures
            answer == self@.is_foreign_return(ty),
    {
        reveal(Types::is_foreign_return);
        self.is_ffi_safe_return_within(ty, LIMIT)
    }
}

} // verus!

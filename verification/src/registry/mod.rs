//! All types of a compilation unit.
//!
//! The registry hands out one `Type` for each distinct composite type, keeps
//! the definitions behind them, and collects the problems that it meets.

use crate::ast::{
    EnumDeclaration, GenericParameter, StructDeclaration, TraitDeclaration, TypeName,
    WherePredicate,
};
use crate::generics::{same_values, Entry, Environment, GenericValue};
use crate::hir::{
    EnumVariant, EnumVariantFields, Expression, TypeDefinition, TypeDefinitionKind, TypeField,
    TypeRepresentation,
};
use crate::list::{cons, share, single, List};
use crate::span::{error, origin, Diagnostic, Span};
use crate::text::{same, words, Text};
use crate::types::{same_types, Platform, Type, TypeId};
use std::rc::Rc;
use vstd::prelude::*;

pub mod agreeing;
pub mod bounding;
pub mod capability;
pub mod foreign;
pub mod growth;
pub mod holding;
pub mod inference;
pub mod interning;
pub mod lowering;
pub mod naming;
pub mod reflection;
pub mod shaping;
pub mod storage;

verus! {

broadcast use {crate::registry::growth::group_grown, crate::span::group_kept};

/// How deep the registry follows types into one another before it gives up.
pub const LIMIT: u32 = u32::MAX;

/// What makes two unnamed composite types the same type.
pub enum StructuralType {
    Tuple(List<Type>),
    Array { element: Type, length: u64 },
    Reference { target: Type, mutable: bool },
    RawPointer { target: Type, mutable: bool },
    Slice { element: Type, mutable: bool },
    Function { parameters: List<Type>, return_type: Type },
    Option(Type),
    Result { success: Type, error: Type },
}

/// An unnamed composite type that has been registered.
pub struct StructuralEntry {
    pub key: StructuralType,
    pub ty: Type,
}

/// The enums that the language itself knows.
#[derive(Clone, Copy, PartialEq, Eq, Structural, Debug)]
pub enum IntrinsicType {
    Option { value: Type },
    Result { success: Type, error: Type },
}

/// An enum that the language itself knows.
pub struct IntrinsicEntry {
    pub ty: Type,
    pub intrinsic: IntrinsicType,
}

/// A generic struct or enum.
pub enum GenericTypeTemplate<'a> {
    Struct(Rc<StructDeclaration<'a>>),
    Enum(Rc<EnumDeclaration<'a>>),
}

/// A generic type with its arguments, and the type that they make.
pub struct GenericTypeInstance<'a> {
    pub base_name: &'a str,
    pub arguments: List<GenericValue>,
    pub ty: Type,
}

/// `impl Trait for Type`.
pub struct TraitImplementation<'a> {
    pub trait_name: &'a str,
    pub target: TypeName<'a>,
    pub parameters: List<GenericParameter<'a>>,
    pub where_predicates: List<WherePredicate<'a>>,
}

/// Where the values of a type lie: their size and alignment in bytes, and for
/// a struct or tuple the offset of each field.
pub struct TypeLayout {
    pub ty: Type,
    pub size: u32,
    pub align: u32,
    pub offsets: Option<List<u32>>,
}

/// All types of a compilation unit.
pub struct TypeRegistry<'a> {
    pub platform: Platform,
    pub layouts: List<TypeLayout>,
    pub problems: Vec<Diagnostic<'a>>,
    pub names: List<Entry<'a, Type>>,
    pub structural: List<StructuralEntry>,
    pub definitions: Vec<TypeDefinition<'a>>,
    pub chars: Option<Type>,
    pub intrinsics: List<IntrinsicEntry>,
    pub generic_templates: List<Entry<'a, GenericTypeTemplate<'a>>>,
    pub generic_instances: List<GenericTypeInstance<'a>>,
    pub traits: List<Entry<'a, Rc<TraitDeclaration<'a>>>>,
    pub trait_implementations: List<TraitImplementation<'a>>,
    pub constants: List<Entry<'a, Expression<'a>>>,
    pub constant_integers: List<Entry<'a, u64>>,
}

/// What a registry holds.
pub struct Types<'a> {
    pub platform: Platform,
    pub layouts: List<TypeLayout>,
    pub problems: Seq<Diagnostic<'a>>,
    pub names: List<Entry<'a, Type>>,
    pub structural: List<StructuralEntry>,
    pub definitions: Seq<TypeDefinition<'a>>,
    pub chars: Option<Type>,
    pub intrinsics: List<IntrinsicEntry>,
    pub generic_templates: List<Entry<'a, GenericTypeTemplate<'a>>>,
    pub generic_instances: List<GenericTypeInstance<'a>>,
    pub traits: List<Entry<'a, Rc<TraitDeclaration<'a>>>>,
    pub trait_implementations: List<TraitImplementation<'a>>,
    pub constants: List<Entry<'a, Expression<'a>>>,
    pub constant_integers: List<Entry<'a, u64>>,
}

impl<'a> View for TypeRegistry<'a> {
    type V = Types<'a>;

    open spec fn view(&self) -> Types<'a> {
        Types {
            platform: self.platform,
            layouts: self.layouts,
            problems: self.problems@,
            names: self.names,
            structural: self.structural,
            definitions: self.definitions@,
            chars: self.chars,
            intrinsics: self.intrinsics,
            generic_templates: self.generic_templates,
            generic_instances: self.generic_instances,
            traits: self.traits,
            trait_implementations: self.trait_implementations,
            constants: self.constants,
            constant_integers: self.constant_integers,
        }
    }
}

impl StructuralType {
    /// Whether two unnamed composite types are the same type.
    pub fn same(&self, other: &StructuralType) -> (equal: bool)
        ensures
            equal == (*self == *other),
    {
        match (self, other) {
            (StructuralType::Tuple(left), StructuralType::Tuple(right)) => same_types(left, right),
            (
                StructuralType::Array { element: left, length: left_length },
                StructuralType::Array { element: right, length: right_length },
            ) => *left == *right && *left_length == *right_length,
            (
                StructuralType::Reference { target: left, mutable: left_mutable },
                StructuralType::Reference { target: right, mutable: right_mutable },
            ) => *left == *right && *left_mutable == *right_mutable,
            (
                StructuralType::RawPointer { target: left, mutable: left_mutable },
                StructuralType::RawPointer { target: right, mutable: right_mutable },
            ) => *left == *right && *left_mutable == *right_mutable,
            (
                StructuralType::Slice { element: left, mutable: left_mutable },
                StructuralType::Slice { element: right, mutable: right_mutable },
            ) => *left == *right && *left_mutable == *right_mutable,
            (
                StructuralType::Function { parameters: left, return_type: left_return },
                StructuralType::Function { parameters: right, return_type: right_return },
            ) => *left_return == *right_return && same_types(left, right),
            (StructuralType::Option(left), StructuralType::Option(right)) => *left == *right,
            (
                StructuralType::Result { success: left, error: left_error },
                StructuralType::Result { success: right, error: right_error },
            ) => *left == *right && *left_error == *right_error,
            _ => false,
        }
    }
}

impl<'a> GenericTypeTemplate<'a> {
    pub fn share(&self) -> (shared: Self)
        ensures
            shared == *self,
    {
        match self {
            GenericTypeTemplate::Struct(declaration) => GenericTypeTemplate::Struct(
                share(declaration),
            ),
            GenericTypeTemplate::Enum(declaration) => GenericTypeTemplate::Enum(
                share(declaration),
            ),
        }
    }

    /// The generic parameters of the declaration.
    pub open spec fn parameter_list(self) -> List<GenericParameter<'a>> {
        match self {
            GenericTypeTemplate::Struct(declaration) => declaration.generic_parameters,
            GenericTypeTemplate::Enum(declaration) => declaration.generic_parameters,
        }
    }

    /// The generic parameters of the declaration.
    pub fn parameters(&self) -> (parameters: &List<GenericParameter<'a>>)
        ensures
            *parameters == self.parameter_list(),
    {
        match self {
            GenericTypeTemplate::Struct(declaration) => &declaration.generic_parameters,
            GenericTypeTemplate::Enum(declaration) => &declaration.generic_parameters,
        }
    }

    /// Where the declaration stands.
    pub open spec fn declared_at(self) -> Span {
        match self {
            GenericTypeTemplate::Struct(declaration) => declaration.span,
            GenericTypeTemplate::Enum(declaration) => declaration.span,
        }
    }

    /// Where the declaration stands.
    pub fn span(&self) -> (span: Span)
        ensures
            span == self.declared_at(),
    {
        match self {
            GenericTypeTemplate::Struct(declaration) => declaration.span,
            GenericTypeTemplate::Enum(declaration) => declaration.span,
        }
    }
}

/// The type registered for an unnamed composite type.
pub open spec fn registered(entries: List<StructuralEntry>, key: StructuralType) -> Option<Type>
    decreases entries,
{
    match entries {
        List::Nil => None,
        List::Cons(node) => if node.head.key == key {
            Some(node.head.ty)
        } else {
            registered(node.tail, key)
        },
    }
}

fn find_registered(entries: &List<StructuralEntry>, key: &StructuralType) -> (ty: Option<Type>)
    ensures
        ty == registered(*entries, *key),
{
    let mut ahead: &List<StructuralEntry> = entries;
    loop
        invariant
            registered(*entries, *key) == registered(*ahead, *key),
        decreases *ahead,
    {
        match ahead {
            List::Nil => {
                return None;
            },
            List::Cons(node) => {
                if node.head.key.same(key) {
                    return Some(node.head.ty);
                } else {
                    ahead = &node.tail;
                }
            },
        }
    }
}

/// What the language itself knows of a type.
pub open spec fn known_intrinsic(entries: List<IntrinsicEntry>, ty: Type) -> Option<IntrinsicType>
    decreases entries,
{
    match entries {
        List::Nil => None,
        List::Cons(node) => if node.head.ty == ty {
            Some(node.head.intrinsic)
        } else {
            known_intrinsic(node.tail, ty)
        },
    }
}

fn find_intrinsic(entries: &List<IntrinsicEntry>, ty: Type) -> (intrinsic: Option<IntrinsicType>)
    ensures
        intrinsic == known_intrinsic(*entries, ty),
{
    let mut ahead: &List<IntrinsicEntry> = entries;
    loop
        invariant
            known_intrinsic(*entries, ty) == known_intrinsic(*ahead, ty),
        decreases *ahead,
    {
        match ahead {
            List::Nil => {
                return None;
            },
            List::Cons(node) => {
                if node.head.ty == ty {
                    return Some(node.head.intrinsic);
                } else {
                    ahead = &node.tail;
                }
            },
        }
    }
}

/// The type that a generic type makes of its arguments, where it has been
/// asked for before.
pub open spec fn known_instance(
    instances: List<GenericTypeInstance>,
    name: Seq<char>,
    arguments: List<GenericValue>,
) -> Option<Type>
    decreases instances,
{
    match instances {
        List::Nil => None,
        List::Cons(node) => if node.head.base_name@ == name && node.head.arguments == arguments {
            Some(node.head.ty)
        } else {
            known_instance(node.tail, name, arguments)
        },
    }
}

/// The type that a generic type makes of its arguments, where it has been
/// asked for before.
pub fn find_instance(
    instances: &List<GenericTypeInstance>,
    name: &str,
    arguments: &List<GenericValue>,
) -> (ty: Option<Type>)
    ensures
        ty == known_instance(*instances, name@, *arguments),
{
    let mut ahead: &List<GenericTypeInstance> = instances;
    loop
        invariant
            known_instance(*instances, name@, *arguments) == known_instance(
                *ahead,
                name@,
                *arguments,
            ),
        decreases *ahead,
    {
        match ahead {
            List::Nil => {
                return None;
            },
            List::Cons(node) => {
                if same(node.head.base_name, name) && same_values(
                    &node.head.arguments,
                    arguments,
                ) {
                    return Some(node.head.ty);
                } else {
                    ahead = &node.tail;
                }
            },
        }
    }
}

/// The generic type and the arguments that a type was made of.
pub open spec fn instance_of<'a>(instances: List<GenericTypeInstance<'a>>, ty: Type) -> Option<
    (&'a str, List<GenericValue>),
>
    decreases instances,
{
    match instances {
        List::Nil => None,
        List::Cons(node) => if node.head.ty == ty {
            Some((node.head.base_name, node.head.arguments))
        } else {
            instance_of(node.tail, ty)
        },
    }
}

fn find_instance_of<'a>(instances: &List<GenericTypeInstance<'a>>, ty: Type) -> (instance: Option<
    (&'a str, List<GenericValue>),
>)
    ensures
        instance == instance_of(*instances, ty),
{
    let mut ahead: &List<GenericTypeInstance<'a>> = instances;
    loop
        invariant
            instance_of(*instances, ty) == instance_of(*ahead, ty),
        decreases *ahead,
    {
        match ahead {
            List::Nil => {
                return None;
            },
            List::Cons(node) => {
                if node.head.ty == ty {
                    return Some((node.head.base_name, node.head.arguments.share()));
                } else {
                    ahead = &node.tail;
                }
            },
        }
    }
}

/// The layout of a type.
pub open spec fn layout_of(layouts: List<TypeLayout>, ty: Type) -> Option<TypeLayout>
    decreases layouts,
{
    match layouts {
        List::Nil => None,
        List::Cons(node) => if node.head.ty == ty {
            Some(node.head)
        } else {
            layout_of(node.tail, ty)
        },
    }
}

/// The layout of a type.
pub fn find_layout(layouts: &List<TypeLayout>, ty: Type) -> (layout: Option<&TypeLayout>)
    ensures
        match layout {
            Some(layout) => layout_of(*layouts, ty) == Some(*layout),
            None => layout_of(*layouts, ty) is None,
        },
{
    let mut ahead: &List<TypeLayout> = layouts;
    loop
        invariant
            layout_of(*layouts, ty) == layout_of(*ahead, ty),
        decreases *ahead,
    {
        match ahead {
            List::Nil => {
                return None;
            },
            List::Cons(node) => {
                if node.head.ty == ty {
                    return Some(&node.head);
                }
                ahead = &node.tail;
            },
        }
    }
}

impl<'a> Types<'a> {
    /// The same types with one more problem.
    pub open spec fn report(self, problem: Diagnostic<'a>) -> Types<'a> {
        Types { problems: self.problems.push(problem), ..self }
    }

    /// The definition of a composite type.
    pub open spec fn definition(self, ty: Type) -> Option<TypeDefinition<'a>> {
        match ty.id() {
            Some(id) => if id.0 < self.definitions.len() {
                Some(self.definitions[id.0 as int])
            } else {
                None
            },
            None => None,
        }
    }

    /// The shape of a composite type.
    pub open spec fn shape(self, ty: Type) -> Option<TypeDefinitionKind<'a>> {
        match self.definition(ty) {
            Some(definition) => Some(definition.kind),
            None => None,
        }
    }

    /// What a reference or pointer leads to, whether that can be changed
    /// through it, and whether it is a raw pointer.
    pub open spec fn pointer_shape(self, ty: Type) -> Option<(Type, bool, bool)> {
        match self.shape(ty) {
            Some(TypeDefinitionKind::Reference { target, mutable }) => Some(
                (target, mutable, false),
            ),
            Some(TypeDefinitionKind::RawPointer { target, mutable }) => Some(
                (target, mutable, true),
            ),
            _ => None,
        }
    }

    /// The element of a slice, and whether it can be changed.
    pub open spec fn slice_shape(self, ty: Type) -> Option<(Type, bool)> {
        match self.shape(ty) {
            Some(TypeDefinitionKind::Slice { element, mutable }) => Some((element, mutable)),
            _ => None,
        }
    }

    /// The parameters and the result of a function type.
    pub open spec fn function_shape(self, ty: Type) -> Option<(List<Type>, Type)> {
        match self.shape(ty) {
            Some(TypeDefinitionKind::Function { parameters, return_type }) => Some(
                (parameters, return_type),
            ),
            _ => None,
        }
    }

    /// The elements of a tuple.
    pub open spec fn tuple_shape(self, ty: Type) -> Option<List<Type>> {
        match self.shape(ty) {
            Some(TypeDefinitionKind::Tuple { elements }) => Some(elements),
            _ => None,
        }
    }

    /// The element and the length of an array.
    pub open spec fn array_shape(self, ty: Type) -> Option<(Type, u64)> {
        match self.shape(ty) {
            Some(TypeDefinitionKind::Array { element, length }) => Some((element, length)),
            _ => None,
        }
    }

    /// The fields of a struct; none for any other type.
    pub open spec fn struct_fields(self, ty: Type) -> List<TypeField<'a>> {
        match self.shape(ty) {
            Some(TypeDefinitionKind::Struct { fields }) => fields,
            _ => List::Nil,
        }
    }

    /// What the language itself knows of a type.
    pub open spec fn intrinsic(self, ty: Type) -> Option<IntrinsicType> {
        known_intrinsic(self.intrinsics, ty)
    }

    /// The generic type and the arguments that a type was made of.
    pub open spec fn generic_instance(self, ty: Type) -> Option<(&'a str, List<GenericValue>)> {
        instance_of(self.generic_instances, ty)
    }

    /// The bindings outside of any generic declaration: the constants that are
    /// known to be non-negative integers.
    pub open spec fn base_environment(self) -> Environment<'a> {
        Environment {
            types: List::Nil,
            type_packs: List::Nil,
            constants: self.constant_integers,
        }
    }

    /// The next definition in line, and its position; none if there is no
    /// position left.
    pub open spec fn defined(
        self,
        name: Option<Text<'a>>,
        kind: TypeDefinitionKind<'a>,
        span: Span,
    ) -> (Types<'a>, Option<TypeId>) {
        if self.definitions.len() <= u32::MAX {
            let id = TypeId(self.definitions.len() as u32);
            (
                Types {
                    definitions: self.definitions.push(
                        TypeDefinition {
                            id,
                            name,
                            documentation: None,
                            kind,
                            representation: TypeRepresentation::Native,
                            alignment: None,
                            derives: List::Nil,
                            marker_traits: List::Nil,
                            must_use: false,
                            span,
                        },
                    ),
                    ..self
                },
                Some(id),
            )
        } else {
            (self, None)
        }
    }

    /// The types with another kind for one definition.
    pub open spec fn with_kind(self, id: TypeId, kind: TypeDefinitionKind<'a>) -> Types<'a> {
        if id.0 < self.definitions.len() {
            let definition = TypeDefinition { kind, ..self.definitions[id.0 as int] };
            Types { definitions: self.definitions.update(id.0 as int, definition), ..self }
        } else {
            self
        }
    }

    /// The type of an unnamed composite type: the registered one, or a new one
    /// under the constructor of its kind.
    pub open spec fn interned(
        self,
        key: StructuralType,
        name: Option<Text<'a>>,
        kind: TypeDefinitionKind<'a>,
        span: Span,
    ) -> (Types<'a>, Option<Type>) {
        match registered(self.structural, key) {
            Some(ty) => (self, Some(ty)),
            None => match self.defined(name, kind, span) {
                (more, Some(id)) => {
                    let ty = structural_type(key, id);
                    (
                        Types {
                            structural: cons(StructuralEntry { key, ty }, more.structural),
                            ..more
                        },
                        Some(ty),
                    )
                },
                (same, None) => (same.report(spec_too_many_types(span)), None),
            },
        }
    }

    /// The tuple of some elements.
    pub open spec fn tuple(self, elements: List<Type>, span: Span) -> (Types<'a>, Option<Type>) {
        self.interned(
            StructuralType::Tuple(elements),
            None,
            TypeDefinitionKind::Tuple { elements },
            span,
        )
    }

    /// The array of some length.
    pub open spec fn array(self, element: Type, length: u64, span: Span) -> (
        Types<'a>,
        Option<Type>,
    ) {
        self.interned(
            StructuralType::Array { element, length },
            None,
            TypeDefinitionKind::Array { element, length },
            span,
        )
    }

    /// The reference to a type.
    pub open spec fn reference(self, target: Type, mutable: bool, span: Span) -> (
        Types<'a>,
        Option<Type>,
    ) {
        self.interned(
            StructuralType::Reference { target, mutable },
            None,
            TypeDefinitionKind::Reference { target, mutable },
            span,
        )
    }

    /// The raw pointer to a type.
    pub open spec fn raw_pointer(self, target: Type, mutable: bool, span: Span) -> (
        Types<'a>,
        Option<Type>,
    ) {
        self.interned(
            StructuralType::RawPointer { target, mutable },
            None,
            TypeDefinitionKind::RawPointer { target, mutable },
            span,
        )
    }

    /// The slice of a type.
    pub open spec fn slice(self, element: Type, mutable: bool, span: Span) -> (
        Types<'a>,
        Option<Type>,
    ) {
        self.interned(
            StructuralType::Slice { element, mutable },
            None,
            TypeDefinitionKind::Slice { element, mutable },
            span,
        )
    }

    /// The type of functions from some parameters to a result.
    pub open spec fn function(self, parameters: List<Type>, return_type: Type, span: Span) -> (
        Types<'a>,
        Option<Type>,
    ) {
        self.interned(
            StructuralType::Function { parameters, return_type },
            None,
            TypeDefinitionKind::Function { parameters, return_type },
            span,
        )
    }

    /// `Option` of a type.
    pub open spec fn option(self, value: Type, span: Span) -> (Types<'a>, Option<Type>) {
        let (more, ty) = self.interned(
            StructuralType::Option(value),
            Some(words("Option")),
            option_kind(value, span),
            span,
        );
        if registered(self.structural, StructuralType::Option(value)) is None && ty is Some {
            (
                Types {
                    intrinsics: cons(
                        IntrinsicEntry { ty: ty->0, intrinsic: IntrinsicType::Option { value } },
                        more.intrinsics,
                    ),
                    ..more
                },
                ty,
            )
        } else {
            (more, ty)
        }
    }

    /// `Result` of two types.
    pub open spec fn result(self, success: Type, error: Type, span: Span) -> (
        Types<'a>,
        Option<Type>,
    ) {
        let (more, ty) = self.interned(
            StructuralType::Result { success, error },
            Some(words("Result")),
            result_kind(success, error, span),
            span,
        );
        if registered(self.structural, StructuralType::Result { success, error }) is None
            && ty is Some {
            (
                Types {
                    intrinsics: cons(
                        IntrinsicEntry {
                            ty: ty->0,
                            intrinsic: IntrinsicType::Result { success, error },
                        },
                        more.intrinsics,
                    ),
                    ..more
                },
                ty,
            )
        } else {
            (more, ty)
        }
    }

    /// Whether a type is the iterator over the characters of a string.
    pub open spec fn is_chars(self, ty: Type) -> bool {
        self.chars == Some(ty)
    }

    /// The type of the iterator over the characters of a string.
    pub open spec fn characters_iterator(self, span: Span) -> (Types<'a>, Option<Type>) {
        match self.chars {
            Some(ty) => (self, Some(ty)),
            None => match self.defined(Some(words("Chars")), chars_kind(span), origin()) {
                (more, Some(id)) => {
                    let ty = Type::Struct(id);
                    let definition = TypeDefinition {
                        must_use: true,
                        ..more.definitions[id.0 as int]
                    };
                    (
                        Types {
                            definitions: more.definitions.update(id.0 as int, definition),
                            chars: Some(ty),
                            ..more
                        },
                        Some(ty),
                    )
                },
                (same, None) => (same.report(spec_too_many_types(span)), None),
            },
        }
    }
}

/// The type behind a new definition, by what it was registered as.
pub open spec fn structural_type(key: StructuralType, id: TypeId) -> Type {
    match key {
        StructuralType::Tuple(_) => Type::Tuple(id),
        StructuralType::Array { .. } => Type::Array(id),
        StructuralType::Reference { .. } => Type::Reference(id),
        StructuralType::RawPointer { .. } => Type::RawPointer(id),
        StructuralType::Slice { .. } => Type::Slice(id),
        StructuralType::Function { .. } => Type::Function(id),
        StructuralType::Option(_) => Type::Enum(id),
        StructuralType::Result { .. } => Type::Enum(id),
    }
}

/// The variants of `Option`.
pub open spec fn option_kind<'a>(value: Type, span: Span) -> TypeDefinitionKind<'a> {
    TypeDefinitionKind::Enum {
        variants: cons(
            EnumVariant { name: "Some", fields: EnumVariantFields::Tuple(single(value)), span },
            single(EnumVariant { name: "None", fields: EnumVariantFields::Unit, span }),
        ),
    }
}

/// The variants of `Result`.
pub open spec fn result_kind<'a>(success: Type, error: Type, span: Span) -> TypeDefinitionKind<
    'a,
> {
    TypeDefinitionKind::Enum {
        variants: cons(
            EnumVariant { name: "Ok", fields: EnumVariantFields::Tuple(single(success)), span },
            single(
                EnumVariant { name: "Err", fields: EnumVariantFields::Tuple(single(error)), span },
            ),
        ),
    }
}

/// The fields of the iterator over the characters of a string.
pub open spec fn chars_kind<'a>(span: Span) -> TypeDefinitionKind<'a> {
    TypeDefinitionKind::Struct {
        fields: cons(
            TypeField { name: "source", is_public: false, ty: Type::Str, span },
            single(TypeField { name: "offset", is_public: false, ty: Type::Usize, span }),
        ),
    }
}

/// The problem of a unit with more types than can be numbered.
pub open spec fn spec_too_many_types<'a>(span: Span) -> Diagnostic<'a> {
    error("E3999", words("this compilation unit contains too many types"), span)
}

fn too_many_types<'a>(span: Span) -> (problem: Diagnostic<'a>)
    ensures
        problem == spec_too_many_types(span),
{
    error("E3999", words("this compilation unit contains too many types"), span)
}

impl<'a> TypeRegistry<'a> {
    /// A registry without types.
    pub fn new(platform: Platform, layouts: List<TypeLayout>) -> (registry: Self)
        ensures
            registry@ == (Types {
                platform,
                layouts,
                problems: Seq::empty(),
                names: List::Nil,
                structural: List::Nil,
                definitions: Seq::empty(),
                chars: None,
                intrinsics: List::Nil,
                generic_templates: List::Nil,
                generic_instances: List::Nil,
                traits: List::Nil,
                trait_implementations: List::Nil,
                constants: List::Nil,
                constant_integers: List::Nil,
            }),
    {
        TypeRegistry {
            platform,
            layouts,
            problems: Vec::new(),
            names: List::Nil,
            structural: List::Nil,
            definitions: Vec::new(),
            chars: None,
            intrinsics: List::Nil,
            generic_templates: List::Nil,
            generic_instances: List::Nil,
            traits: List::Nil,
            trait_implementations: List::Nil,
            constants: List::Nil,
            constant_integers: List::Nil,
        }
    }

    /// Adds a problem.
    pub fn report(&mut self, problem: Diagnostic<'a>)
        ensures
            final(self)@ == old(self)@.report(problem),
            old(self)@.grows_into(final(self)@),
    {
        reveal(Types::grows_into);
        self.problems.push(problem);
    }

    /// The definition of a composite type.
    pub fn definition(&self, ty: Type) -> (definition: Option<&TypeDefinition<'a>>)
        ensures
            match definition {
                Some(definition) => self@.definition(ty) == Some(*definition),
                None => self@.definition(ty) is None,
            },
    {
        match ty.id() {
            Some(id) => {
                let index: usize = id.0 as usize;
                if index < self.definitions.len() {
                    Some(&self.definitions[index])
                } else {
                    None
                }
            },
            None => None,
        }
    }

    /// The shape of a composite type.
    pub fn shape(&self, ty: Type) -> (shape: Option<TypeDefinitionKind<'a>>)
        ensures
            shape == self@.shape(ty),
    {
        match self.definition(ty) {
            Some(definition) => Some(definition.kind.share()),
            None => None,
        }
    }

    /// What a reference or pointer leads to, whether that can be changed
    /// through it, and whether it is a raw pointer.
    pub fn pointer_shape(&self, ty: Type) -> (shape: Option<(Type, bool, bool)>)
        ensures
            shape == self@.pointer_shape(ty),
    {
        match self.shape(ty) {
            Some(TypeDefinitionKind::Reference { target, mutable }) => Some(
                (target, mutable, false),
            ),
            Some(TypeDefinitionKind::RawPointer { target, mutable }) => Some(
                (target, mutable, true),
            ),
            _ => None,
        }
    }

    /// The element of a slice, and whether it can be changed.
    pub fn slice_shape(&self, ty: Type) -> (shape: Option<(Type, bool)>)
        ensures
            shape == self@.slice_shape(ty),
    {
        match self.shape(ty) {
            Some(TypeDefinitionKind::Slice { element, mutable }) => Some((element, mutable)),
            _ => None,
        }
    }

    /// The parameters and the result of a function type.
    pub fn function_shape(&self, ty: Type) -> (shape: Option<(List<Type>, Type)>)
        ensures
            shape == self@.function_shape(ty),
    {
        match self.shape(ty) {
            Some(TypeDefinitionKind::Function { parameters, return_type }) => Some(
                (parameters, return_type),
            ),
            _ => None,
        }
    }

    /// The elements of a tuple.
    pub fn tuple_shape(&self, ty: Type) -> (elements: Option<List<Type>>)
        ensures
            elements == self@.tuple_shape(ty),
    {
        match self.shape(ty) {
            Some(TypeDefinitionKind::Tuple { elements }) => Some(elements),
            _ => None,
        }
    }

    /// The element and the length of an array.
    pub fn array_shape(&self, ty: Type) -> (shape: Option<(Type, u64)>)
        ensures
            shape == self@.array_shape(ty),
    {
        match self.shape(ty) {
            Some(TypeDefinitionKind::Array { element, length }) => Some((element, length)),
            _ => None,
        }
    }

    /// The fields of a struct; none for any other type.
    pub fn struct_fields(&self, ty: Type) -> (fields: List<TypeField<'a>>)
        ensures
            fields == self@.struct_fields(ty),
    {
        match self.shape(ty) {
            Some(TypeDefinitionKind::Struct { fields }) => fields,
            _ => List::Nil,
        }
    }

    /// What the language itself knows of a type.
    pub fn intrinsic(&self, ty: Type) -> (intrinsic: Option<IntrinsicType>)
        ensures
            intrinsic == self@.intrinsic(ty),
    {
        find_intrinsic(&self.intrinsics, ty)
    }

    /// The generic type and the arguments that a type was made of.
    pub fn generic_instance(&self, ty: Type) -> (instance: Option<(&'a str, List<GenericValue>)>)
        ensures
            instance == self@.generic_instance(ty),
    {
        find_instance_of(&self.generic_instances, ty)
    }

    /// Whether a type is the iterator over the characters of a string.
    pub fn is_chars(&self, ty: Type) -> (answer: bool)
        ensures
            answer == self@.is_chars(ty),
    {
        match self.chars {
            Some(chars) => chars == ty,
            None => false,
        }
    }

    /// The bindings outside of any generic declaration.
    pub fn base_environment(&self) -> (environment: Environment<'a>)
        ensures
            environment == self@.base_environment(),
    {
        Environment {
            types: List::Nil,
            type_packs: List::Nil,
            constants: self.constant_integers.share(),
        }
    }

    /// Adds a definition.
    pub fn push_definition(
        &mut self,
        name: Option<Text<'a>>,
        kind: TypeDefinitionKind<'a>,
        span: Span,
    ) -> (id: Option<TypeId>)
        ensures
            (final(self)@, id) == old(self)@.defined(name, kind, span),
            old(self)@.grows_into(final(self)@),
    {
        reveal(Types::grows_into);
        if self.definitions.len() as u128 > u32::MAX as u128 {
            return None;
        }
        let id = TypeId(self.definitions.len() as u32);
        self.definitions.push(
            TypeDefinition {
                id,
                name,
                documentation: None,
                kind,
                representation: TypeRepresentation::Native,
                alignment: None,
                derives: List::Nil,
                marker_traits: List::Nil,
                must_use: false,
                span,
            },
        );
        Some(id)
    }

    /// Gives one definition another kind.
    pub fn set_kind(&mut self, id: TypeId, kind: TypeDefinitionKind<'a>)
        ensures
            final(self)@ == old(self)@.with_kind(id, kind),
            old(self)@.grows_into(final(self)@),
    {
        reveal(Types::grows_into);
        let index: usize = id.0 as usize;
        if index < self.definitions.len() {
            self.definitions[index].kind = kind;
            assert(self.definitions@ =~= old(self)@.with_kind(id, kind).definitions);
        }
    }

    /// The type registered for an unnamed composite type.
    pub fn find_structural(&self, key: &StructuralType) -> (ty: Option<Type>)
        ensures
            ty == registered(self@.structural, *key),
    {
        find_registered(&self.structural, key)
    }

    fn intern(
        &mut self,
        key: StructuralType,
        name: Option<Text<'a>>,
        kind: TypeDefinitionKind<'a>,
        span: Span,
    ) -> (ty: Option<Type>)
        ensures
            (final(self)@, ty) == old(self)@.interned(key, name, kind, span),
            old(self)@.grows_into(final(self)@),
    {
        reveal(Types::grows_into);
        if let Some(ty) = find_registered(&self.structural, &key) {
            return Some(ty);
        }
        let id = match self.push_definition(name, kind, span) {
            Some(id) => id,
            None => {
                self.report(too_many_types(span));
                return None;
            },
        };
        let ty = match &key {
            StructuralType::Tuple(_) => Type::Tuple(id),
            StructuralType::Array { .. } => Type::Array(id),
            StructuralType::Reference { .. } => Type::Reference(id),
            StructuralType::RawPointer { .. } => Type::RawPointer(id),
            StructuralType::Slice { .. } => Type::Slice(id),
            StructuralType::Function { .. } => Type::Function(id),
            StructuralType::Option(_) => Type::Enum(id),
            StructuralType::Result { .. } => Type::Enum(id),
        };
        self.structural = cons(StructuralEntry { key, ty }, self.structural.share());
        Some(ty)
    }

    /// The tuple of some elements.
    pub fn intern_tuple(&mut self, elements: List<Type>, span: Span) -> (ty: Option<Type>)
        ensures
            (final(self)@, ty) == old(self)@.tuple(elements, span),
            old(self)@.grows_into(final(self)@),
    {
        let key = StructuralType::Tuple(elements.share());
        self.intern(key, None, TypeDefinitionKind::Tuple { elements }, span)
    }

    /// The array of some length.
    pub fn intern_array(&mut self, element: Type, length: u64, span: Span) -> (ty: Option<Type>)
        ensures
            (final(self)@, ty) == old(self)@.array(element, length, span),
            old(self)@.grows_into(final(self)@),
    {
        self.intern(
            StructuralType::Array { element, length },
            None,
            TypeDefinitionKind::Array { element, length },
            span,
        )
    }

    /// The reference to a type.
    pub fn intern_reference(&mut self, target: Type, mutable: bool, span: Span) -> (ty: Option<
        Type,
    >)
        ensures
            (final(self)@, ty) == old(self)@.reference(target, mutable, span),
            old(self)@.grows_into(final(self)@),
    {
        self.intern(
            StructuralType::Reference { target, mutable },
            None,
            TypeDefinitionKind::Reference { target, mutable },
            span,
        )
    }

    /// The raw pointer to a type.
    pub fn intern_raw_pointer(&mut self, target: Type, mutable: bool, span: Span) -> (ty: Option<
        Type,
    >)
        ensures
            (final(self)@, ty) == old(self)@.raw_pointer(target, mutable, span),
            old(self)@.grows_into(final(self)@),
    {
        self.intern(
            StructuralType::RawPointer { target, mutable },
            None,
            TypeDefinitionKind::RawPointer { target, mutable },
            span,
        )
    }

    /// The slice of a type.
    pub fn intern_slice(&mut self, element: Type, mutable: bool, span: Span) -> (ty: Option<Type>)
        ensures
            (final(self)@, ty) == old(self)@.slice(element, mutable, span),
            old(self)@.grows_into(final(self)@),
    {
        self.intern(
            StructuralType::Slice { element, mutable },
            None,
            TypeDefinitionKind::Slice { element, mutable },
            span,
        )
    }

    /// The type of functions from some parameters to a result.
    pub fn intern_function(
        &mut self,
        parameters: List<Type>,
        return_type: Type,
        span: Span,
    ) -> (ty: Option<Type>)
        ensures
            (final(self)@, ty) == old(self)@.function(parameters, return_type, span),
            old(self)@.grows_into(final(self)@),
    {
        let key = StructuralType::Function { parameters: parameters.share(), return_type };
        self.intern(key, None, TypeDefinitionKind::Function { parameters, return_type }, span)
    }

    /// `Option` of a type.
    pub fn intern_option(&mut self, value: Type, span: Span) -> (ty: Option<Type>)
        ensures
            (final(self)@, ty) == old(self)@.option(value, span),
            old(self)@.grows_into(final(self)@),
    {
        reveal(Types::grows_into);
        let key = StructuralType::Option(value);
        if let Some(ty) = find_registered(&self.structural, &key) {
            return Some(ty);
        }
        let kind = TypeDefinitionKind::Enum {
            variants: cons(
                EnumVariant { name: "Some", fields: EnumVariantFields::Tuple(single(value)), span },
                single(EnumVariant { name: "None", fields: EnumVariantFields::Unit, span }),
            ),
        };
        let ty = self.intern(key, Some(words("Option")), kind, span);
        if let Some(ty) = ty {
            self.intrinsics =
            cons(
                IntrinsicEntry { ty, intrinsic: IntrinsicType::Option { value } },
                self.intrinsics.share(),
            );
        }
        ty
    }

    /// `Result` of two types.
    pub fn intern_result(&mut self, success: Type, error: Type, span: Span) -> (ty: Option<Type>)
        ensures
            (final(self)@, ty) == old(self)@.result(success, error, span),
            old(self)@.grows_into(final(self)@),
    {
        reveal(Types::grows_into);
        let key = StructuralType::Result { success, error };
        if let Some(ty) = find_registered(&self.structural, &key) {
            return Some(ty);
        }
        let kind = TypeDefinitionKind::Enum {
            variants: cons(
                EnumVariant { name: "Ok", fields: EnumVariantFields::Tuple(single(success)), span },
                single(
                    EnumVariant {
                        name: "Err",
                        fields: EnumVariantFields::Tuple(single(error)),
                        span,
                    },
                ),
            ),
        };
        let ty = self.intern(key, Some(words("Result")), kind, span);
        if let Some(ty) = ty {
            self.intrinsics =
            cons(
                IntrinsicEntry { ty, intrinsic: IntrinsicType::Result { success, error } },
                self.intrinsics.share(),
            );
        }
        ty
    }

    /// The type of the iterator over the characters of a string.
    pub fn intern_chars(&mut self, span: Span) -> (ty: Option<Type>)
        ensures
            (final(self)@, ty) == old(self)@.characters_iterator(span),
            old(self)@.grows_into(final(self)@),
    {
        reveal(Types::grows_into);
        if let Some(ty) = self.chars {
            return Some(ty);
        }
        let kind = TypeDefinitionKind::Struct {
            fields: cons(
                TypeField { name: "source", is_public: false, ty: Type::Str, span },
                single(TypeField { name: "offset", is_public: false, ty: Type::Usize, span }),
            ),
        };
        let id = match self.push_definition(Some(words("Chars")), kind, origin()) {
            Some(id) => id,
            None => {
                self.report(too_many_types(span));
                return None;
            },
        };
        let ty = Type::Struct(id);
        self.definitions[id.0 as usize].must_use = true;
        self.chars = Some(ty);
        Some(ty)
    }
}

/// Asking for an unnamed composite type again gives the same type and changes
/// nothing.
pub proof fn interning_is_idempotent(
    types: Types,
    key: StructuralType,
    name: Option<Text>,
    kind: TypeDefinitionKind,
    span: Span,
    again: Span,
)
    requires
        types.interned(key, name, kind, span).1 is Some,
    ensures
        ({
            let (more, ty) = types.interned(key, name, kind, span);
            more.interned(key, name, kind, again) == (more, ty)
        }),
{
}

/// Registering a type leaves older definitions as they are.
pub proof fn interning_keeps_definitions(
    types: Types,
    key: StructuralType,
    name: Option<Text>,
    kind: TypeDefinitionKind,
    span: Span,
    other: Type,
)
    requires
        types.definition(other) is Some,
    ensures
        types.interned(key, name, kind, span).0.definition(other) == types.definition(other),
{
}

/// A newly registered type has the shape that was asked for.
pub proof fn interned_types_have_their_shape(
    types: Types,
    key: StructuralType,
    name: Option<Text>,
    kind: TypeDefinitionKind,
    span: Span,
)
    requires
        registered(types.structural, key) is None,
        types.interned(key, name, kind, span).1 is Some,
    ensures
        ({
            let (more, ty) = types.interned(key, name, kind, span);
            more.shape(ty->0) == Some(kind)
        }),
{
}

} // verus!

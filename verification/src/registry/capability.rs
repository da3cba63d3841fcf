//! What values of a type can do: be copied, compared, hashed, shown, sent to
//! another thread, and so on.

use crate::ast::{
    lone_name, single_path_name, GenericArgument, GenericParameter, Path, TypeName, TypeNameKind,
    WherePredicate,
};
use crate::attributes::{contains_trait, derives_trait};
use crate::generics::{
    array_length, bound, evaluate_array_length_in, find, Environment, GenericValue,
};
use crate::hir::{
    typed, DerivedTrait, EnumVariant, EnumVariantFields, Expression, ExpressionKind,
    TypeDefinition, TypeDefinitionKind, TypeField, TypeRepresentation,
};
use crate::list::{append, cons, extend, prepend, prepended, prepended_if_any, single, List};
use crate::numbers::{is_equality_type, is_ordered_type};
use crate::registry::inference::inferred;
use crate::registry::{
    find_instance, find_layout, known_instance, layout_of, registered, StructuralType,
    TraitImplementation, TypeLayout, TypeRegistry, Types, LIMIT,
};
use crate::span::{advised, helped, kept, Diagnostic, Span};
use crate::text::{characters, is_listed, joined, listed, reads, same, words, words3, Piece, Text};
use crate::types::Type;
use crate::typing::{
    all_always_sound, all_always_sound_if_any, all_fit, all_sound, always_sound_if_any, sound, Scene,
};
use vstd::prelude::*;

verus! {

broadcast use {
    crate::list::pushed_comes_first,
    crate::registry::growth::group_grown,
    crate::span::group_kept,
    crate::typing::group_sound,
};

pub const STANDARD_STRING_TYPE: &'static str = "__module_3_std_6_string$String";

pub const STANDARD_VEC_TYPE: &'static str = "__module_3_std_11_collections$Vec";

pub const STANDARD_HASH_MAP_TYPE: &'static str = "__module_3_std_11_collections$HashMap";

pub const STANDARD_HASH_SET_TYPE: &'static str = "__module_3_std_11_collections$HashSet";

pub const STANDARD_RING_BUFFER_TYPE: &'static str = "__module_3_std_11_collections$RingBuffer";

/// How a value can be used from several threads.
#[derive(Clone, Copy, PartialEq, Eq, Structural, Debug)]
pub enum ThreadSafety {
    /// It can be handed to another thread.
    Send,
    /// It can be reached from another thread.
    Sync,
}

/// How many traits may stand on one another.
pub const TRAIT_DEPTH: u32 = 32;

/// How many types may lie inside one another.
pub const TYPE_DEPTH: u32 = 64;

/// Whether a type derives a trait.
pub open spec fn has_derived(types: Types, ty: Type, derived: DerivedTrait) -> bool {
    match types.definition(ty) {
        Some(definition) => derives_trait(definition.derives, derived),
        None => false,
    }
}

/// The name of a declared type, also behind references to it.
pub open spec fn nominal<'a>(types: Types<'a>, ty: Type, fuel: nat) -> Option<Text<'a>>
    decreases fuel,
{
    match types.pointer_shape(ty) {
        Some((target, _, false)) => if fuel == 0 {
            None
        } else {
            nominal(types, target, (fuel - 1) as nat)
        },
        _ => match types.definition(ty) {
            Some(definition) => definition.name,
            None => None,
        },
    }
}

/// Whether values of a type are copied rather than moved.
pub open spec fn copyable(types: Types, ty: Type, fuel: nat) -> bool
    decreases fuel, 0nat, List::<Type>::Nil,
{
    if fuel == 0 {
        false
    } else {
        ||| intrinsically_copyable(types, ty, (fuel - 1) as nat)
        ||| has_derived(types, ty, DerivedTrait::Copy)
        ||| implemented(
            types,
            types.trait_implementations,
            ty,
            "Copy"@,
            0,
            (fuel - 1) as nat,
        )
    }
}

/// Whether values of a type are copied by what the type is made of.
pub open spec fn intrinsically_copyable(types: Types, ty: Type, fuel: nat) -> bool
    decreases fuel, 4nat, List::<Type>::Nil,
{
    match ty {
        Type::Struct(_) => false,
        Type::Enum(_) => types.intrinsic(ty) is Some && match types.shape(ty) {
            Some(TypeDefinitionKind::Enum { variants }) => variants_copyable(
                types,
                variants,
                fuel,
            ),
            _ => false,
        },
        Type::Tuple(_) => match types.tuple_shape(ty) {
            Some(elements) => all_copyable(types, elements, fuel),
            None => false,
        },
        Type::Array(_) => match types.array_shape(ty) {
            Some((element, _)) => copyable(types, element, fuel),
            None => false,
        },
        Type::Reference(_) => match types.shape(ty) {
            Some(TypeDefinitionKind::Reference { mutable, .. }) => !mutable,
            _ => false,
        },
        Type::Slice(_) => match types.slice_shape(ty) {
            Some((_, mutable)) => !mutable,
            None => false,
        },
        _ => true,
    }
}

/// Whether values of all the types are copied.
pub open spec fn all_copyable(types: Types, list: List<Type>, fuel: nat) -> bool
    decreases fuel, 2nat, list,
{
    match list {
        List::Nil => true,
        List::Cons(node) => copyable(types, node.head, fuel) && all_copyable(
            types,
            node.tail,
            fuel,
        ),
    }
}

/// Whether values of all the fields are copied.
pub open spec fn fields_copyable(types: Types, fields: List<TypeField>, fuel: nat) -> bool
    decreases fuel, 2nat, fields,
{
    match fields {
        List::Nil => true,
        List::Cons(node) => copyable(types, node.head.ty, fuel) && fields_copyable(
            types,
            node.tail,
            fuel,
        ),
    }
}

/// Whether everything that the variants carry is copied.
pub open spec fn variants_copyable(types: Types, variants: List<EnumVariant>, fuel: nat) -> bool
    decreases fuel, 3nat, variants,
{
    match variants {
        List::Nil => true,
        List::Cons(node) => (match node.head.fields {
            EnumVariantFields::Unit => true,
            EnumVariantFields::Tuple(list) => all_copyable(types, list, fuel),
            EnumVariantFields::Struct(fields) => fields_copyable(types, fields, fuel),
        }) && variants_copyable(types, node.tail, fuel),
    }
}

/// Whether a type satisfies a trait that the language knows, where that
/// question has an answer of its own.
pub open spec fn builtin_satisfied(types: Types, ty: Type, name: Seq<char>, fuel: nat) -> bool
    decreases fuel, 5nat, List::<Type>::Nil,
{
    if name == "Copy"@ {
        intrinsically_copyable(types, ty, fuel) || has_derived(types, ty, DerivedTrait::Copy)
    } else if name == "Clone"@ {
        intrinsically_copyable(types, ty, fuel) || has_derived(types, ty, DerivedTrait::Clone)
    } else if name == "Debug"@ {
        debug_capable(types, ty, LIMIT as nat)
    } else if name == "Eq"@ {
        equality_capable(types, ty, LIMIT as nat)
    } else if name == "Ord"@ || name == "Ordered"@ {
        is_ordered_type(ty)
    } else if name == "Hash"@ {
        hash_capable(types, ty)
    } else if name == "Default"@ {
        default_capable(types, ty, LIMIT as nat)
    } else {
        false
    }
}

/// Whether a type satisfies a trait.
pub open spec fn satisfies(types: Types, ty: Type, name: Seq<char>, depth: nat, fuel: nat) -> bool
    decreases fuel, 0nat, List::<Type>::Nil,
{
    if depth > TRAIT_DEPTH || fuel == 0 {
        false
    } else if name == "Pod"@ {
        pod_capable(types, ty, LIMIT as nat)
    } else if name == "Send"@ {
        thread_safe(types, ty, ThreadSafety::Send, depth)
    } else if name == "Sync"@ {
        thread_safe(types, ty, ThreadSafety::Sync, depth)
    } else {
        ||| builtin_satisfied(types, ty, name, (fuel - 1) as nat)
        ||| marker_derived(types, ty, name, depth, (fuel - 1) as nat)
        ||| implemented(types, types.trait_implementations, ty, name, depth, (fuel - 1) as nat)
    }
}

/// Whether a type derives a marker trait whose supertraits it satisfies.
pub open spec fn marker_derived(
    types: Types,
    ty: Type,
    name: Seq<char>,
    depth: nat,
    fuel: nat,
) -> bool
    decreases fuel, 4nat, List::<Type>::Nil,
{
    match types.definition(ty) {
        Some(definition) if listed(definition.marker_traits, name) => match bound(
            types.traits,
            name,
        ) {
            Some(declaration) => declaration.generic_parameters is Nil && declaration.methods is Nil
                && all_satisfied(types, declaration.supertraits, ty, depth, fuel),
            None => false,
        },
        _ => false,
    }
}

/// Whether a type satisfies every trait that the paths name.
pub open spec fn all_satisfied(
    types: Types,
    bounds: List<Path>,
    ty: Type,
    depth: nat,
    fuel: nat,
) -> bool
    decreases fuel, 1nat, bounds,
{
    match bounds {
        List::Nil => true,
        List::Cons(node) => (match lone_name(node.head) {
            Some(name) => satisfies(types, ty, name@, depth + 1, fuel),
            None => false,
        }) && all_satisfied(types, node.tail, ty, depth, fuel),
    }
}

/// Whether what the parameters stand for satisfies their bounds.
pub open spec fn parameter_bounds_hold(
    types: Types,
    parameters: List<GenericParameter>,
    environment: Environment,
    depth: nat,
    fuel: nat,
) -> bool
    decreases fuel, 2nat, parameters,
{
    match parameters {
        List::Nil => true,
        List::Cons(node) => (match node.head {
            GenericParameter::Type { name, bounds, .. } => match bound(
                environment.types,
                name.name@,
            ) {
                Some(actual) => all_satisfied(types, bounds, actual, depth, fuel),
                None => false,
            },
            _ => true,
        }) && parameter_bounds_hold(types, node.tail, environment, depth, fuel),
    }
}

/// Whether the subjects of a `where` clause satisfy their bounds.
pub open spec fn predicates_hold<'a>(
    types: Types<'a>,
    predicates: List<WherePredicate<'a>>,
    environment: Environment<'a>,
    depth: nat,
    fuel: nat,
) -> bool
    decreases fuel, 2nat, predicates,
{
    match predicates {
        List::Nil => true,
        List::Cons(node) => (match existing(types, node.head.ty, environment) {
            Some(subject) => all_satisfied(types, node.head.bounds, subject, depth, fuel),
            None => false,
        }) && predicates_hold(types, node.tail, environment, depth, fuel),
    }
}

/// Whether one of the implementations makes a type satisfy a trait.
pub open spec fn implemented<'a>(
    types: Types<'a>,
    implementations: List<TraitImplementation<'a>>,
    ty: Type,
    name: Seq<char>,
    depth: nat,
    fuel: nat,
) -> bool
    decreases fuel, 4nat, implementations,
{
    match implementations {
        List::Nil => false,
        List::Cons(node) => {
            ||| implementation_applies(types, node.head, ty, name, depth, fuel)
            ||| implemented(types, node.tail, ty, name, depth, fuel)
        },
    }
}

/// Whether an implementation makes a type satisfy a trait: it is for that
/// trait and type, and its bounds and the supertraits hold.
pub open spec fn implementation_applies<'a>(
    types: Types<'a>,
    implementation: TraitImplementation<'a>,
    ty: Type,
    name: Seq<char>,
    depth: nat,
    fuel: nat,
) -> bool
    decreases fuel, 3nat, List::<Type>::Nil,
{
    let (environment, agrees) = inferred(
        types,
        implementation.target,
        ty,
        implementation.parameters,
        types.base_environment(),
    );
    &&& implementation.trait_name@ == name
    &&& agrees
    &&& parameter_bounds_hold(types, implementation.parameters, environment, depth, fuel)
    &&& match bound(types.traits, name) {
        Some(declaration) => all_satisfied(types, declaration.supertraits, ty, depth, fuel),
        None => true,
    }
    &&& predicates_hold(types, implementation.where_predicates, environment, depth, fuel)
}

/// The type that a written type stands for, if it is registered.
pub open spec fn existing<'a>(
    types: Types<'a>,
    written: TypeName<'a>,
    environment: Environment<'a>,
) -> Option<Type>
    decreases written, 0nat, List::<Type>::Nil,
{
    match *written.kind {
        TypeNameKind::Function { parameters, return_type } => match (
            all_existing(types, parameters, environment),
            existing(types, return_type, environment),
        ) {
            (Some(parameters), Some(return_type)) => registered(
                types.structural,
                StructuralType::Function { parameters, return_type },
            ),
            _ => None,
        },
        TypeNameKind::Path(path) => match lone_name(path) {
            Some(name) => types.named(environment, name@),
            None => None,
        },
        TypeNameKind::Generic { path, arguments } => match (
            lone_name(path),
            existing_values(types, arguments, environment),
        ) {
            (Some(name), Some(values)) => known_instance(types.generic_instances, name@, values),
            _ => None,
        },
        TypeNameKind::Unit => Some(Type::Unit),
        _ => None,
    }
}

/// The types that written types stand for, if all are registered.
pub open spec fn all_existing<'a>(
    types: Types<'a>,
    written: List<TypeName<'a>>,
    environment: Environment<'a>,
) -> Option<List<Type>>
    decreases written, 0nat, List::<Type>::Nil,
{
    match written {
        List::Nil => Some(List::Nil),
        List::Cons(node) => match (
            existing(types, node.head, environment),
            all_existing(types, node.tail, environment),
        ) {
            (Some(ty), Some(rest)) => Some(cons(ty, rest)),
            _ => None,
        },
    }
}

/// The values that generic arguments stand for, if all are registered.
pub open spec fn existing_values<'a>(
    types: Types<'a>,
    arguments: List<GenericArgument<'a>>,
    environment: Environment<'a>,
) -> Option<List<GenericValue>>
    decreases arguments, 0nat, List::<Type>::Nil,
{
    match arguments {
        List::Nil => Some(List::Nil),
        List::Cons(node) => {
            let first = match node.head {
                GenericArgument::Type(ty) => match constant_argument(ty, environment) {
                    Some(value) => Some(cons(GenericValue::Const(value), List::Nil)),
                    None => match existing(types, ty, environment) {
                        Some(ty) => Some(cons(GenericValue::Type(ty), List::Nil)),
                        None => None,
                    },
                },
                GenericArgument::Const(value) => match array_length(
                    Seq::empty(),
                    value,
                    environment.constants,
                ).1 {
                    Some(value) => Some(cons(GenericValue::Const(value), List::Nil)),
                    None => None,
                },
                GenericArgument::Pack { pack, template, .. } => match bound(
                    environment.type_packs,
                    pack.name@,
                ) {
                    Some(pack_types) => match template {
                        Some(template) => existing_templates(
                            types,
                            template,
                            pack.name,
                            pack_types,
                            environment,
                        ),
                        None => Some(type_values(pack_types)),
                    },
                    None => None,
                },
            };
            match (first, existing_values(types, node.tail, environment)) {
                (Some(first), Some(rest)) => Some(append(first, rest)),
                _ => None,
            }
        },
    }
}

/// What a template stands for with each type of a pack in turn.
pub open spec fn existing_templates<'a>(
    types: Types<'a>,
    template: TypeName<'a>,
    name: &'a str,
    pack_types: List<Type>,
    environment: Environment<'a>,
) -> Option<List<GenericValue>>
    decreases template, 1nat, pack_types,
{
    match pack_types {
        List::Nil => Some(List::Nil),
        List::Cons(node) => match (
            existing(types, template, environment.with_type(name, node.head)),
            existing_templates(types, template, name, node.tail, environment),
        ) {
            (Some(ty), Some(rest)) => Some(cons(GenericValue::Type(ty), rest)),
            _ => None,
        },
    }
}

/// The number that a generic argument stands for although it is written like
/// a type.
pub open spec fn constant_argument(written: TypeName, environment: Environment) -> Option<u64> {
    match *written.kind {
        TypeNameKind::Path(path) => match lone_name(path) {
            Some(name) => bound(environment.constants, name@),
            None => None,
        },
        _ => None,
    }
}

/// The number that a generic argument stands for although it is written like
/// a type.
pub fn find_constant_argument(written: &TypeName, environment: &Environment) -> (value: Option<u64>)
    ensures
        value == constant_argument(*written, *environment),
{
    match &*written.kind {
        TypeNameKind::Path(path) => match single_path_name(path) {
            Some(name) => match find(&environment.constants, name) {
                Some(value) => Some(*value),
                None => None,
            },
            None => None,
        },
        _ => None,
    }
}

/// Types as generic values.
pub open spec fn type_values(types: List<Type>) -> List<GenericValue>
    decreases types,
{
    match types {
        List::Nil => List::Nil,
        List::Cons(node) => cons(GenericValue::Type(node.head), type_values(node.tail)),
    }
}

/// Types as generic values.
pub fn as_type_values(types: &List<Type>) -> (values: List<GenericValue>)
    ensures
        values == type_values(*types),
{
    let mut ahead: &List<Type> = types;
    let mut done: Vec<GenericValue> = Vec::new();
    loop
        invariant
            type_values(*types) == prepended(done@, type_values(*ahead)),
        decreases *ahead,
    {
        match ahead {
            List::Nil => {
                return prepend(done, List::Nil);
            },
            List::Cons(node) => {
                done.push(GenericValue::Type(node.head));
                ahead = &node.tail;
            },
        }
    }
}

/// Whether values of a type can be used from several threads.
pub open spec fn thread_safe(types: Types, ty: Type, safety: ThreadSafety, depth: nat) -> bool
    decreases (if depth > TYPE_DEPTH { 0 } else { TYPE_DEPTH + 1 - depth }), 0nat, List::<Type>::Nil,
{
    if depth > TYPE_DEPTH {
        false
    } else if is_standard_string(types, ty) {
        true
    } else {
        match types.generic_instance(ty) {
            Some((base_name, arguments)) if is_standard_collection(base_name@) =>
            arguments_thread_safe(types, arguments, safety, depth + 1),
            _ => match ty {
                Type::RawPointer(_) => false,
                Type::Reference(_) => match types.shape(ty) {
                    Some(TypeDefinitionKind::Reference { target, mutable }) => thread_safe(
                        types,
                        target,
                        view_safety(mutable, safety),
                        depth + 1,
                    ),
                    _ => false,
                },
                Type::Slice(_) => match types.slice_shape(ty) {
                    Some((element, mutable)) => thread_safe(
                        types,
                        element,
                        view_safety(mutable, safety),
                        depth + 1,
                    ),
                    None => false,
                },
                Type::Struct(_) => match types.shape(ty) {
                    Some(TypeDefinitionKind::Struct { fields }) => fields_thread_safe(
                        types,
                        fields,
                        safety,
                        depth + 1,
                    ),
                    _ => false,
                },
                Type::Tuple(_) => match types.tuple_shape(ty) {
                    Some(elements) => all_thread_safe(types, elements, safety, depth + 1),
                    None => false,
                },
                Type::Array(_) => match types.array_shape(ty) {
                    Some((element, _)) => thread_safe(types, element, safety, depth + 1),
                    None => false,
                },
                Type::Enum(_) => match types.shape(ty) {
                    Some(TypeDefinitionKind::Enum { variants }) => variants_thread_safe(
                        types,
                        variants,
                        safety,
                        depth + 1,
                    ),
                    _ => false,
                },
                _ => true,
            },
        }
    }
}

/// What a view needs of what it leads to: only a mutable view that is handed
/// over needs that it can be handed over.
pub open spec fn view_safety(mutable: bool, safety: ThreadSafety) -> ThreadSafety {
    if mutable && safety is Send {
        ThreadSafety::Send
    } else {
        ThreadSafety::Sync
    }
}

/// Whether a type is the string of the standard library.
pub open spec fn is_standard_string(types: Types, ty: Type) -> bool {
    match nominal(types, ty, LIMIT as nat) {
        Some(name) => characters(name) == STANDARD_STRING_TYPE@,
        None => false,
    }
}

/// Whether a name is that of an owning collection of the standard library.
pub open spec fn is_standard_collection(name: Seq<char>) -> bool {
    name == STANDARD_VEC_TYPE@ || name == STANDARD_HASH_MAP_TYPE@ || name
        == STANDARD_HASH_SET_TYPE@ || name == STANDARD_RING_BUFFER_TYPE@
}

/// Whether values of all the types can be used from several threads.
pub open spec fn all_thread_safe(
    types: Types,
    list: List<Type>,
    safety: ThreadSafety,
    depth: nat,
) -> bool
    decreases (if depth > TYPE_DEPTH { 0 } else { TYPE_DEPTH + 1 - depth }), 1nat, list,
{
    match list {
        List::Nil => true,
        List::Cons(node) => thread_safe(types, node.head, safety, depth) && all_thread_safe(
            types,
            node.tail,
            safety,
            depth,
        ),
    }
}

/// Whether values of all the fields can be used from several threads.
pub open spec fn fields_thread_safe(
    types: Types,
    fields: List<TypeField>,
    safety: ThreadSafety,
    depth: nat,
) -> bool
    decreases (if depth > TYPE_DEPTH { 0 } else { TYPE_DEPTH + 1 - depth }), 1nat, fields,
{
    match fields {
        List::Nil => true,
        List::Cons(node) => thread_safe(types, node.head.ty, safety, depth) && fields_thread_safe(
            types,
            node.tail,
            safety,
            depth,
        ),
    }
}

/// Whether everything that the variants carry can be used from several
/// threads.
pub open spec fn variants_thread_safe(
    types: Types,
    variants: List<EnumVariant>,
    safety: ThreadSafety,
    depth: nat,
) -> bool
    decreases (if depth > TYPE_DEPTH { 0 } else { TYPE_DEPTH + 1 - depth }), 2nat, variants,
{
    match variants {
        List::Nil => true,
        List::Cons(node) => (match node.head.fields {
            EnumVariantFields::Unit => true,
            EnumVariantFields::Tuple(list) => all_thread_safe(types, list, safety, depth),
            EnumVariantFields::Struct(fields) => fields_thread_safe(types, fields, safety, depth),
        }) && variants_thread_safe(types, node.tail, safety, depth),
    }
}

/// Whether values of the types among generic arguments can be used from
/// several threads.
pub open spec fn arguments_thread_safe(
    types: Types,
    arguments: List<GenericValue>,
    safety: ThreadSafety,
    depth: nat,
) -> bool
    decreases (if depth > TYPE_DEPTH { 0 } else { TYPE_DEPTH + 1 - depth }), 1nat, arguments,
{
    match arguments {
        List::Nil => true,
        List::Cons(node) => (match node.head {
            GenericValue::Type(ty) => thread_safe(types, ty, safety, depth),
            GenericValue::Const(_) => true,
        }) && arguments_thread_safe(types, node.tail, safety, depth),
    }
}

/// Whether values of a type can be compared by `==`.
pub open spec fn equality_capable(types: Types, ty: Type, fuel: nat) -> bool
    decreases fuel, 0nat, List::<Type>::Nil,
{
    ||| is_equality_type(ty)
    ||| has_derived(types, ty, DerivedTrait::Eq)
    ||| match types.shape(ty) {
        Some(TypeDefinitionKind::Tuple { elements }) => fuel > 0 && all_equality_capable(
            types,
            elements,
            (fuel - 1) as nat,
        ),
        Some(TypeDefinitionKind::Array { element, .. }) => fuel > 0 && equality_capable(
            types,
            element,
            (fuel - 1) as nat,
        ),
        _ => false,
    }
}

/// Whether values of all the types can be compared by `==`.
pub open spec fn all_equality_capable(types: Types, list: List<Type>, fuel: nat) -> bool
    decreases fuel, 1nat, list,
{
    match list {
        List::Nil => true,
        List::Cons(node) => equality_capable(types, node.head, fuel) && all_equality_capable(
            types,
            node.tail,
            fuel,
        ),
    }
}

/// Whether values of a type can be hashed.
pub open spec fn hash_capable(types: Types, ty: Type) -> bool {
    has_derived(types, ty, DerivedTrait::Hash) || (is_equality_type(ty) && !ty.is_float())
}

/// Whether values of a type can be shown for debugging.
pub open spec fn debug_capable(types: Types, ty: Type, fuel: nat) -> bool
    decreases fuel, 0nat, List::<Type>::Nil,
{
    ||| is_equality_type(ty) || ty is Str || ty is CStr || ty is Unit || ty is RawPointer
        || ty is Reference || ty is Function
    ||| has_derived(types, ty, DerivedTrait::Debug)
    ||| match types.shape(ty) {
        Some(TypeDefinitionKind::Tuple { elements }) => fuel > 0 && all_debug_capable(
            types,
            elements,
            (fuel - 1) as nat,
        ),
        Some(TypeDefinitionKind::Array { element, .. }) => fuel > 0 && debug_capable(
            types,
            element,
            (fuel - 1) as nat,
        ),
        Some(TypeDefinitionKind::Slice { element, .. }) => fuel > 0 && debug_capable(
            types,
            element,
            (fuel - 1) as nat,
        ),
        _ => false,
    }
}

/// Whether values of all the types can be shown for debugging.
pub open spec fn all_debug_capable(types: Types, list: List<Type>, fuel: nat) -> bool
    decreases fuel, 1nat, list,
{
    match list {
        List::Nil => true,
        List::Cons(node) => debug_capable(types, node.head, fuel) && all_debug_capable(
            types,
            node.tail,
            fuel,
        ),
    }
}

/// Whether a type has a default value.
pub open spec fn default_capable(types: Types, ty: Type, fuel: nat) -> bool
    decreases fuel, 0nat, List::<Type>::Nil,
{
    ||| is_equality_type(ty) || ty is Str || ty is CStr || ty is Unit
    ||| has_derived(types, ty, DerivedTrait::Default)
    ||| match types.shape(ty) {
        Some(TypeDefinitionKind::Tuple { elements }) => fuel > 0 && all_default_capable(
            types,
            elements,
            (fuel - 1) as nat,
        ),
        Some(TypeDefinitionKind::Array { element, .. }) => fuel > 0 && default_capable(
            types,
            element,
            (fuel - 1) as nat,
        ),
        _ => false,
    }
}

/// Whether all the types have default values.
pub open spec fn all_default_capable(types: Types, list: List<Type>, fuel: nat) -> bool
    decreases fuel, 1nat, list,
{
    match list {
        List::Nil => true,
        List::Cons(node) => default_capable(types, node.head, fuel) && all_default_capable(
            types,
            node.tail,
            fuel,
        ),
    }
}

/// Whether values of a type are plain bytes.
pub open spec fn pod_capable(types: Types, ty: Type, fuel: nat) -> bool
    decreases fuel,
{
    ||| ty.is_numeric()
    ||| match ty {
        Type::Array(_) => match types.array_shape(ty) {
            Some((element, _)) => fuel > 0 && pod_capable(types, element, (fuel - 1) as nat),
            None => false,
        },
        Type::Struct(_) => has_derived(types, ty, DerivedTrait::Pod),
        _ => false,
    }
}

/// Whether fields at the given offsets lie one behind the other from `cursor`
/// to `size`.
pub open spec fn tightly_packed(
    layouts: List<TypeLayout>,
    fields: List<TypeField>,
    offsets: List<u32>,
    cursor: u32,
    size: u32,
) -> bool
    decreases fields,
{
    match (fields, offsets) {
        (List::Cons(field), List::Cons(offset)) => offset.head == cursor && match layout_of(
            layouts,
            field.head.ty,
        ) {
            Some(layout) => cursor + layout.size <= u32::MAX && tightly_packed(
                layouts,
                field.tail,
                offset.tail,
                (cursor + layout.size) as u32,
                size,
            ),
            None => false,
        },
        _ => cursor == size,
    }
}

/// Whether a type can derive `Pod`: it is a struct in C representation that is
/// copied, and holds plain bytes without any between them.
pub open spec fn pod_requirements(types: Types, ty: Type) -> bool {
    match types.definition(ty) {
        Some(definition) => definition.representation is C && has_derived(
            types,
            ty,
            DerivedTrait::Copy,
        ) && match definition.kind {
            TypeDefinitionKind::Struct { fields } => fields_satisfy(
                types,
                fields,
                DerivedTrait::Pod,
            ) && match layout_of(types.layouts, ty) {
                Some(layout) => match layout.offsets {
                    Some(offsets) => tightly_packed(
                        types.layouts,
                        fields,
                        offsets,
                        0,
                        layout.size,
                    ),
                    None => false,
                },
                None => false,
            },
            _ => false,
        },
        None => false,
    }
}

/// Whether a field may lie in a type that derives a trait.
pub open spec fn field_satisfies(types: Types, ty: Type, derived: DerivedTrait) -> bool {
    match derived {
        DerivedTrait::Copy => copyable(types, ty, LIMIT as nat),
        DerivedTrait::Clone => copyable(types, ty, LIMIT as nat),
        DerivedTrait::Debug => debug_capable(types, ty, LIMIT as nat),
        DerivedTrait::Eq => equality_capable(types, ty, LIMIT as nat),
        DerivedTrait::Hash => hash_capable(types, ty),
        DerivedTrait::Default => default_capable(types, ty, LIMIT as nat),
        DerivedTrait::Pod => pod_capable(types, ty, LIMIT as nat),
    }
}

/// Whether all the fields may lie in a type that derives a trait.
pub open spec fn fields_satisfy(
    types: Types,
    fields: List<TypeField>,
    derived: DerivedTrait,
) -> bool
    decreases fields,
{
    match fields {
        List::Nil => true,
        List::Cons(node) => field_satisfies(types, node.head.ty, derived) && fields_satisfy(
            types,
            node.tail,
            derived,
        ),
    }
}

/// Whether all the types may lie in a type that derives a trait.
pub open spec fn all_satisfy(types: Types, list: List<Type>, derived: DerivedTrait) -> bool
    decreases list,
{
    match list {
        List::Nil => true,
        List::Cons(node) => field_satisfies(types, node.head, derived) && all_satisfy(
            types,
            node.tail,
            derived,
        ),
    }
}

/// Whether what a variant carries may lie in a type that derives a trait.
pub open spec fn variant_satisfies(
    types: Types,
    variant: EnumVariant,
    derived: DerivedTrait,
) -> bool {
    match variant.fields {
        EnumVariantFields::Unit => true,
        EnumVariantFields::Tuple(list) => all_satisfy(types, list, derived),
        EnumVariantFields::Struct(fields) => fields_satisfy(types, fields, derived),
    }
}

/// Whether what all the variants carry may lie in a type that derives a trait.
pub open spec fn variants_satisfy(
    types: Types,
    variants: List<EnumVariant>,
    derived: DerivedTrait,
) -> bool
    decreases variants,
{
    match variants {
        List::Nil => true,
        List::Cons(node) => variant_satisfies(types, node.head, derived) && variants_satisfy(
            types,
            node.tail,
            derived,
        ),
    }
}

/// Whether a type may derive a trait. For `Default` only the first variant of
/// an enum counts.
pub open spec fn requirements_hold(types: Types, ty: Type, derived: DerivedTrait) -> bool {
    match types.shape(ty) {
        None => false,
        Some(kind) => if derived is Pod {
            pod_requirements(types, ty)
        } else {
            match kind {
                TypeDefinitionKind::Struct { fields } => fields_satisfy(types, fields, derived),
                TypeDefinitionKind::Enum { variants } => if derived is Default {
                    match variants {
                        List::Cons(node) => variant_satisfies(types, node.head, derived),
                        List::Nil => false,
                    }
                } else {
                    variants_satisfy(types, variants, derived)
                },
                _ => false,
            }
        },
    }
}

/// The name of a derivable trait.
pub open spec fn spec_trait_name(derived: DerivedTrait) -> &'static str {
    match derived {
        DerivedTrait::Copy => "Copy",
        DerivedTrait::Clone => "Clone",
        DerivedTrait::Debug => "Debug",
        DerivedTrait::Eq => "Eq",
        DerivedTrait::Hash => "Hash",
        DerivedTrait::Default => "Default",
        DerivedTrait::Pod => "Pod",
    }
}

/// The name of a derivable trait.
#[verifier::when_used_as_spec(spec_trait_name)]
pub fn trait_name(derived: DerivedTrait) -> (name: &'static str)
    ensures
        name == spec_trait_name(derived),
{
    match derived {
        DerivedTrait::Copy => "Copy",
        DerivedTrait::Clone => "Clone",
        DerivedTrait::Debug => "Debug",
        DerivedTrait::Eq => "Eq",
        DerivedTrait::Hash => "Hash",
        DerivedTrait::Default => "Default",
        DerivedTrait::Pod => "Pod",
    }
}

/// What deriving a trait asks for, in words.
pub open spec fn spec_trait_requirement(derived: DerivedTrait) -> &'static str {
    match derived {
        DerivedTrait::Copy => "every stored field must satisfy `Copy`",
        DerivedTrait::Clone => "every stored field must be allocation-free and satisfy `Copy`",
        DerivedTrait::Debug => "every stored field must satisfy `Debug`",
        DerivedTrait::Eq => "every stored field must satisfy `Eq`",
        DerivedTrait::Hash => "every stored field must satisfy `Hash`",
        DerivedTrait::Default =>
        "every struct field, or every field of the first enum variant, must satisfy `Default`",
        DerivedTrait::Pod =>
        "use `@repr(C)` on a padding-free struct whose fields all satisfy `Pod`",
    }
}

/// What deriving a trait asks for, in words.
#[verifier::when_used_as_spec(spec_trait_requirement)]
pub fn trait_requirement(derived: DerivedTrait) -> (requirement: &'static str)
    ensures
        requirement == spec_trait_requirement(derived),
{
    match derived {
        DerivedTrait::Copy => "every stored field must satisfy `Copy`",
        DerivedTrait::Clone => "every stored field must be allocation-free and satisfy `Copy`",
        DerivedTrait::Debug => "every stored field must satisfy `Debug`",
        DerivedTrait::Eq => "every stored field must satisfy `Eq`",
        DerivedTrait::Hash => "every stored field must satisfy `Hash`",
        DerivedTrait::Default =>
        "every struct field, or every field of the first enum variant, must satisfy `Default`",
        DerivedTrait::Pod =>
        "use `@repr(C)` on a padding-free struct whose fields all satisfy `Pod`",
    }
}

/// The name of a definition in messages.
pub open spec fn shown_name<'a>(definition: TypeDefinition<'a>) -> Text<'a> {
    match definition.name {
        Some(name) => name,
        None => words("this type"),
    }
}

/// The problems so far with those of derived traits whose requirements fail.
pub open spec fn derive_problems<'a>(
    problems: Seq<Diagnostic<'a>>,
    types: Types<'a>,
    ty: Type,
    definition: TypeDefinition<'a>,
    derives: List<DerivedTrait>,
) -> Seq<Diagnostic<'a>>
    decreases derives,
{
    match derives {
        List::Nil => problems,
        List::Cons(node) => derive_problems(
            if requirements_hold(types, ty, node.head) {
                problems
            } else {
                problems.push(
                    helped(
                        "E7006",
                        append(
                            words3("cannot derive `", trait_name(node.head), "` for `"),
                            append(shown_name(definition), words("`")),
                        ),
                        trait_requirement(node.head),
                        definition.span,
                    ),
                )
            },
            types,
            ty,
            definition,
            node.tail,
        ),
    }
}

/// The names of the traits that a type does not satisfy, quoted and separated
/// by commas.
pub open spec fn missing_traits<'a>(types: Types<'a>, ty: Type, supertraits: List<Path<'a>>) -> List<
    &'a str,
>
    decreases supertraits,
{
    match supertraits {
        List::Nil => List::Nil,
        List::Cons(node) => match lone_name(node.head) {
            Some(name) if !satisfies(types, ty, name@, 0, LIMIT as nat) => cons(
                name,
                missing_traits(types, ty, node.tail),
            ),
            _ => missing_traits(types, ty, node.tail),
        },
    }
}

/// Names in quotes, separated by commas.
pub open spec fn quoted_names<'a>(names: List<&'a str>) -> Text<'a>
    decreases names,
{
    match names {
        List::Nil => List::Nil,
        List::Cons(node) => if node.tail is Nil {
            words3("`", node.head, "`")
        } else {
            append(words3("`", node.head, "`, "), quoted_names(node.tail))
        },
    }
}

fn quote_names<'a>(names: &List<&'a str>) -> (text: Text<'a>)
    ensures
        text == quoted_names(*names),
{
    let mut ahead: &List<&'a str> = names;
    let mut done: Vec<Piece<'a>> = Vec::new();
    loop
        invariant
            quoted_names(*names) == prepended(done@, quoted_names(*ahead)),
        decreases *ahead,
    {
        match ahead {
            List::Nil => {
                return prepend(done, List::Nil);
            },
            List::Cons(node) => {
                if node.tail.is_empty() {
                    return prepend(done, words3("`", node.head, "`"));
                }
                extend(&mut done, &words3("`", node.head, "`, "));
                ahead = &node.tail;
            },
        }
    }
}

/// The problems so far with those of derived marker traits whose supertraits
/// are not satisfied.
pub open spec fn marker_problems<'a>(
    problems: Seq<Diagnostic<'a>>,
    types: Types<'a>,
    ty: Type,
    definition: TypeDefinition<'a>,
    markers: List<&'a str>,
) -> Seq<Diagnostic<'a>>
    decreases markers,
{
    match markers {
        List::Nil => problems,
        List::Cons(node) => marker_problems(
            match bound(types.traits, node.head@) {
                Some(declaration) if declaration.generic_parameters is Nil
                    && declaration.methods is Nil && !(missing_traits(
                    types,
                    ty,
                    declaration.supertraits,
                ) is Nil) => problems.push(
                    advised(
                        "E7006",
                        append(
                            words3("cannot derive `", node.head, "` for `"),
                            append(shown_name(definition), words("`")),
                        ),
                        cons(
                            Piece::Words("satisfy the marker trait requirements: "),
                            quoted_names(missing_traits(types, ty, declaration.supertraits)),
                        ),
                        definition.span,
                    ),
                ),
                _ => problems,
            },
            types,
            ty,
            definition,
            node.tail,
        ),
    }
}

proof fn lemma_derive_problems_follow<'a>(
    before: Seq<Diagnostic<'a>>,
    problems: Seq<Diagnostic<'a>>,
    types: Types<'a>,
    ty: Type,
    definition: TypeDefinition<'a>,
    derives: List<DerivedTrait>,
)
    ensures
        derive_problems(before + problems, types, ty, definition, derives) == before
            + derive_problems(problems, types, ty, definition, derives),
    decreases derives,
{
    if derives is Cons {
        let derived = derives.first();
        if requirements_hold(types, ty, derived) {
            lemma_derive_problems_follow(before, problems, types, ty, definition, derives.rest());
        } else {
            let problem = helped(
                "E7006",
                append(
                    words3("cannot derive `", trait_name(derived), "` for `"),
                    append(shown_name(definition), words("`")),
                ),
                trait_requirement(derived),
                definition.span,
            );
            assert((before + problems).push(problem) =~= before + problems.push(problem));
            lemma_derive_problems_follow(
                before,
                problems.push(problem),
                types,
                ty,
                definition,
                derives.rest(),
            );
        }
    }
}

proof fn lemma_marker_problems_follow<'a>(
    before: Seq<Diagnostic<'a>>,
    problems: Seq<Diagnostic<'a>>,
    types: Types<'a>,
    ty: Type,
    definition: TypeDefinition<'a>,
    markers: List<&'a str>,
)
    ensures
        marker_problems(before + problems, types, ty, definition, markers) == before
            + marker_problems(problems, types, ty, definition, markers),
    decreases markers,
{
    if markers is Cons {
        let marker = markers.first();
        let first = single(marker);
        let more = marker_problems(problems, types, ty, definition, first);
        reveal_with_fuel(marker_problems, 2);
        assert(marker_problems(before + problems, types, ty, definition, first) =~= before + more);
        lemma_marker_problems_follow(before, more, types, ty, definition, markers.rest());
    }
}

/// The types with the problems of what one type derives.
#[verifier::opaque]
pub open spec fn derives_checked<'a>(types: Types<'a>, ty: Type) -> Types<'a> {
    match types.definition(ty) {
        Some(definition) => Types {
            problems: marker_problems(
                derive_problems(types.problems, types, ty, definition, definition.derives),
                types,
                ty,
                definition,
                definition.marker_traits,
            ),
            ..types
        },
        None => types,
    }
}

/// A value several times over.
pub open spec fn repeated<'a>(value: Expression<'a>, count: nat) -> List<Expression<'a>>
    decreases count,
{
    if count == 0 {
        List::Nil
    } else {
        cons(value, repeated(value, (count - 1) as nat))
    }
}

fn repeat_value<'a>(value: &Expression<'a>, count: u64) -> (values: List<Expression<'a>>)
    ensures
        values == repeated(*value, count as nat),
        forall|scene: Scene| sound(*value, scene) ==> #[trigger] all_sound(values, scene),
        all_fit(values, value.ty),
{
    reveal(all_fit);
    let mut values: List<Expression<'a>> = List::Nil;
    let mut done: u64 = 0;
    while done < count
        invariant
            done <= count,
            values == repeated(*value, done as nat),
            all_fit(values, value.ty),
            forall|scene: Scene|
                sound(*value, scene) ==> #[trigger] all_sound(values, scene),
        decreases count - done,
    {
        reveal(all_fit);
        values = cons(value.share(), values);
        done = done + 1;
    }
    values
}

/// The default value of a type.
pub open spec fn default_value<'a>(types: Types<'a>, ty: Type, span: Span, depth: nat) -> Option<
    Expression<'a>,
>
    decreases (if depth > TYPE_DEPTH { 0 } else { TYPE_DEPTH + 1 - depth }), 0nat, List::<Type>::Nil,
{
    if depth > TYPE_DEPTH {
        None
    } else {
        match ty {
            Type::F32 => Some(typed(ExpressionKind::Float32(0), ty, span)),
            Type::F64 => Some(typed(ExpressionKind::Float64(0), ty, span)),
            Type::Bool => Some(typed(ExpressionKind::Boolean(false), ty, span)),
            Type::Char => Some(typed(ExpressionKind::Character('\0'), ty, span)),
            Type::Str => Some(typed(ExpressionKind::String(List::Nil), ty, span)),
            Type::CStr => Some(typed(ExpressionKind::CString(List::Nil), ty, span)),
            Type::Unit => Some(typed(ExpressionKind::Unit, ty, span)),
            Type::Never
            | Type::Reference(_)
            | Type::RawPointer(_)
            | Type::Slice(_)
            | Type::Function(_) => None,
            Type::Struct(_) => match types.shape(ty) {
                Some(TypeDefinitionKind::Struct { fields }) => match default_fields(
                    types,
                    fields,
                    span,
                    depth + 1,
                ) {
                    Some(values) => Some(typed(ExpressionKind::Struct(values), ty, span)),
                    None => None,
                },
                _ => None,
            },
            Type::Tuple(_) => match types.tuple_shape(ty) {
                Some(elements) => match default_values(types, elements, span, depth + 1) {
                    Some(values) => Some(typed(ExpressionKind::Tuple(values), ty, span)),
                    None => None,
                },
                None => None,
            },
            Type::Array(_) => match types.array_shape(ty) {
                Some((element, length)) => if length > usize::MAX {
                    None
                } else {
                    match default_value(types, element, span, depth + 1) {
                        Some(value) => Some(
                            typed(
                                ExpressionKind::Array(repeated(value, length as nat)),
                                ty,
                                span,
                            ),
                        ),
                        None => None,
                    }
                },
                None => None,
            },
            Type::Enum(_) => match types.shape(ty) {
                Some(TypeDefinitionKind::Enum { variants: List::Cons(node) }) => {
                    let fields = match node.head.fields {
                        EnumVariantFields::Unit => Some(List::Nil),
                        EnumVariantFields::Tuple(list) => default_values(
                            types,
                            list,
                            span,
                            depth + 1,
                        ),
                        EnumVariantFields::Struct(fields) => default_fields(
                            types,
                            fields,
                            span,
                            depth + 1,
                        ),
                    };
                    match fields {
                        Some(fields) => Some(
                            typed(ExpressionKind::Enum { variant: 0, fields }, ty, span),
                        ),
                        None => None,
                    }
                },
                _ => None,
            },
            _ => Some(typed(ExpressionKind::Integer(0), ty, span)),
        }
    }
}

/// The default values of several types.
pub open spec fn default_values<'a>(
    types: Types<'a>,
    list: List<Type>,
    span: Span,
    depth: nat,
) -> Option<List<Expression<'a>>>
    decreases (if depth > TYPE_DEPTH { 0 } else { TYPE_DEPTH + 1 - depth }), 1nat, list,
{
    match list {
        List::Nil => Some(List::Nil),
        List::Cons(node) => match (
            default_value(types, node.head, span, depth),
            default_values(types, node.tail, span, depth),
        ) {
            (Some(value), Some(rest)) => Some(cons(value, rest)),
            _ => None,
        },
    }
}

/// The default values of several fields.
pub open spec fn default_fields<'a>(
    types: Types<'a>,
    fields: List<TypeField<'a>>,
    span: Span,
    depth: nat,
) -> Option<List<Expression<'a>>>
    decreases (if depth > TYPE_DEPTH { 0 } else { TYPE_DEPTH + 1 - depth }), 1nat, fields,
{
    match fields {
        List::Nil => Some(List::Nil),
        List::Cons(node) => match (
            default_value(types, node.head.ty, span, depth),
            default_fields(types, node.tail, span, depth),
        ) {
            (Some(value), Some(rest)) => Some(cons(value, rest)),
            _ => None,
        },
    }
}

impl<'a> Types<'a> {
    /// The name of a declared type, looked up through references.
    #[verifier::opaque]
    pub open spec fn nominal_name(self, ty: Type) -> Option<Text<'a>> {
        nominal(self, ty, LIMIT as nat)
    }

    /// Whether values of the type are copied rather than moved.
    #[verifier::opaque]
    pub open spec fn is_copy(self, ty: Type) -> bool {
        copyable(self, ty, LIMIT as nat)
    }

    /// Whether the type satisfies a trait.
    #[verifier::opaque]
    pub open spec fn meets(self, ty: Type, name: Seq<char>) -> bool {
        satisfies(self, ty, name, 0, LIMIT as nat)
    }

    /// Whether values of the type can be compared for equality.
    #[verifier::opaque]
    pub open spec fn is_equality_capable(self, ty: Type) -> bool {
        equality_capable(self, ty, LIMIT as nat)
    }

    /// Whether values of the type can be hashed.
    #[verifier::opaque]
    pub open spec fn is_hash_capable(self, ty: Type) -> bool {
        hash_capable(self, ty)
    }

    /// Whether values of the type can be shown for debugging.
    #[verifier::opaque]
    pub open spec fn is_debug_capable(self, ty: Type) -> bool {
        debug_capable(self, ty, LIMIT as nat)
    }

    /// Whether the type has a default value.
    #[verifier::opaque]
    pub open spec fn is_default_capable(self, ty: Type) -> bool {
        default_capable(self, ty, LIMIT as nat)
    }

    /// Whether values of the type are plain data.
    #[verifier::opaque]
    pub open spec fn is_pod_capable(self, ty: Type) -> bool {
        pod_capable(self, ty, LIMIT as nat)
    }

    /// The default value of the type, written out.
    #[verifier::opaque]
    pub open spec fn default_expression(self, ty: Type, span: Span) -> Option<Expression<'a>> {
        default_value(self, ty, span, 0)
    }
}

impl<'a> TypeRegistry<'a> {
    /// Whether a type derives a trait.
    pub fn has_derived_trait(&self, ty: Type, derived: DerivedTrait) -> (answer: bool)
        ensures
            answer == has_derived(self@, ty, derived),
    {
        match self.definition(ty) {
            Some(definition) => contains_trait(&definition.derives, derived),
            None => false,
        }
    }

    fn find_nominal(&self, ty: Type, fuel: u32) -> (name: Option<Text<'a>>)
        ensures
            name == nominal(self@, ty, fuel as nat),
        decreases fuel,
    {
        if let Some((target, _, raw)) = self.pointer_shape(ty) {
            if !raw {
                if fuel == 0 {
                    return None;
                }
                return self.find_nominal(target, fuel - 1);
            }
        }
        match self.definition(ty) {
            Some(definition) => match &definition.name {
                Some(name) => Some(name.share()),
                None => None,
            },
            None => None,
        }
    }

    /// The name of a declared type, also behind references to it.
    pub fn nominal_name(&self, ty: Type) -> (name: Option<Text<'a>>)
        ensures
            name == self@.nominal_name(ty),
    {
        reveal(Types::nominal_name);
        self.find_nominal(ty, LIMIT)
    }

    /// Whether values of a type are copied rather than moved.
    pub fn is_copy(&self, ty: Type) -> (answer: bool)
        ensures
            answer == self@.is_copy(ty),
    {
        reveal(Types::is_copy);
        self.is_copy_within(ty, LIMIT)
    }

    fn is_copy_within(&self, ty: Type, fuel: u32) -> (answer: bool)
        ensures
            answer == copyable(self@, ty, fuel as nat),
        decreases fuel, 0nat, List::<Type>::Nil,
    {
        if fuel == 0 {
            return false;
        }
        self.is_intrinsically_copy(ty, fuel - 1) || self.has_derived_trait(ty, DerivedTrait::Copy)
            || self.has_trait_implementation(
            &self.trait_implementations,
            ty,
            "Copy",
            0,
            fuel - 1,
        )
    }

    fn is_intrinsically_copy(&self, ty: Type, fuel: u32) -> (answer: bool)
        ensures
            answer == intrinsically_copyable(self@, ty, fuel as nat),
        decreases fuel, 4nat, List::<Type>::Nil,
    {
        match ty {
            Type::Struct(_) => false,
            Type::Enum(_) => self.intrinsic(ty).is_some() && match self.shape(ty) {
                Some(TypeDefinitionKind::Enum { variants }) => self.variants_are_copy(
                    &variants,
                    fuel,
                ),
                _ => false,
            },
            Type::Tuple(_) => match self.tuple_shape(ty) {
                Some(elements) => self.all_are_copy(&elements, fuel),
                None => false,
            },
            Type::Array(_) => match self.array_shape(ty) {
                Some((element, _)) => self.is_copy_within(element, fuel),
                None => false,
            },
            Type::Reference(_) => match self.shape(ty) {
                Some(TypeDefinitionKind::Reference { mutable, .. }) => !mutable,
                _ => false,
            },
            Type::Slice(_) => match self.slice_shape(ty) {
                Some((_, mutable)) => !mutable,
                None => false,
            },
            _ => true,
        }
    }

    fn all_are_copy(&self, list: &List<Type>, fuel: u32) -> (answer: bool)
        ensures
            answer == all_copyable(self@, *list, fuel as nat),
        decreases fuel, 2nat, *list,
    {
        let mut ahead: &List<Type> = list;
        loop
            invariant
                all_copyable(self@, *list, fuel as nat) == all_copyable(self@, *ahead, fuel as nat),
            decreases *ahead,
        {
            match ahead {
                List::Nil => {
                    return true;
                },
                List::Cons(node) => {
                    if !self.is_copy_within(node.head, fuel) {
                        return false;
                    }
                    ahead = &node.tail;
                },
            }
        }
    }

    fn fields_are_copy(&self, fields: &List<TypeField<'a>>, fuel: u32) -> (answer: bool)
        ensures
            answer == fields_copyable(self@, *fields, fuel as nat),
        decreases fuel, 2nat, *fields,
    {
        let mut ahead: &List<TypeField<'a>> = fields;
        loop
            invariant
                fields_copyable(self@, *fields, fuel as nat) == fields_copyable(
                    self@,
                    *ahead,
                    fuel as nat,
                ),
            decreases *ahead,
        {
            match ahead {
                List::Nil => {
                    return true;
                },
                List::Cons(node) => {
                    if !self.is_copy_within(node.head.ty, fuel) {
                        return false;
                    }
                    ahead = &node.tail;
                },
            }
        }
    }

    fn variants_are_copy(&self, variants: &List<EnumVariant<'a>>, fuel: u32) -> (answer: bool)
        ensures
            answer == variants_copyable(self@, *variants, fuel as nat),
        decreases fuel, 3nat, *variants,
    {
        let mut ahead: &List<EnumVariant<'a>> = variants;
        loop
            invariant
                variants_copyable(self@, *variants, fuel as nat) == variants_copyable(
                    self@,
                    *ahead,
                    fuel as nat,
                ),
            decreases *ahead,
        {
            match ahead {
                List::Nil => {
                    return true;
                },
                List::Cons(node) => {
                    if !((match &node.head.fields {
                        EnumVariantFields::Unit => true,
                        EnumVariantFields::Tuple(list) => self.all_are_copy(list, fuel),
                        EnumVariantFields::Struct(fields) => self.fields_are_copy(fields, fuel),
                    })) {
                        return false;
                    }
                    ahead = &node.tail;
                },
            }
        }
    }

    /// Whether a type satisfies a trait.
    pub fn satisfies_trait(&self, ty: Type, name: &str) -> (answer: bool)
        ensures
            answer == self@.meets(ty, name@),
    {
        reveal(Types::meets);
        self.satisfies_trait_at_depth(ty, name, 0, LIMIT)
    }

    fn satisfies_builtin(&self, ty: Type, name: &str, fuel: u32) -> (answer: bool)
        ensures
            answer == builtin_satisfied(self@, ty, name@, fuel as nat),
        decreases fuel, 5nat, List::<Type>::Nil,
    {
        if same(name, "Copy") {
            self.is_intrinsically_copy(ty, fuel) || self.has_derived_trait(ty, DerivedTrait::Copy)
        } else if same(name, "Clone") {
            self.is_intrinsically_copy(ty, fuel) || self.has_derived_trait(ty, DerivedTrait::Clone)
        } else if same(name, "Debug") {
            self.is_debug_capable_within(ty, LIMIT)
        } else if same(name, "Eq") {
            self.is_equality_capable_within(ty, LIMIT)
        } else if same(name, "Ord") || same(name, "Ordered") {
            is_ordered_type(ty)
        } else if same(name, "Hash") {
            self.can_be_hashed(ty)
        } else if same(name, "Default") {
            self.is_default_capable_within(ty, LIMIT)
        } else {
            false
        }
    }

    fn satisfies_trait_at_depth(&self, ty: Type, name: &str, depth: u32, fuel: u32) -> (answer:
        bool)
        requires
            depth <= TRAIT_DEPTH + 1,
        ensures
            answer == satisfies(self@, ty, name@, depth as nat, fuel as nat),
        decreases fuel, 0nat, List::<Type>::Nil,
    {
        if depth > TRAIT_DEPTH || fuel == 0 {
            return false;
        }
        if same(name, "Pod") {
            self.is_pod_capable_within(ty, LIMIT)
        } else if same(name, "Send") {
            self.satisfies_thread_safety_at_depth(ty, ThreadSafety::Send, depth)
        } else if same(name, "Sync") {
            self.satisfies_thread_safety_at_depth(ty, ThreadSafety::Sync, depth)
        } else {
            self.satisfies_builtin(ty, name, fuel - 1) || self.has_derived_marker_trait(
                ty,
                name,
                depth,
                fuel - 1,
            ) || self.has_trait_implementation(
                &self.trait_implementations,
                ty,
                name,
                depth,
                fuel - 1,
            )
        }
    }

    fn has_derived_marker_trait(&self, ty: Type, name: &str, depth: u32, fuel: u32) -> (answer:
        bool)
        requires
            depth <= TRAIT_DEPTH,
        ensures
            answer == marker_derived(self@, ty, name@, depth as nat, fuel as nat),
        decreases fuel, 4nat, List::<Type>::Nil,
    {
        match self.definition(ty) {
            Some(definition) => is_listed(&definition.marker_traits, name) && match find(
                &self.traits,
                name,
            ) {
                Some(declaration) => declaration.generic_parameters.is_empty()
                    && declaration.methods.is_empty() && self.satisfies_all(
                    &declaration.supertraits,
                    ty,
                    depth,
                    fuel,
                ),
                None => false,
            },
            None => false,
        }
    }

    fn satisfies_all(&self, bounds: &List<Path<'a>>, ty: Type, depth: u32, fuel: u32) -> (answer:
        bool)
        requires
            depth <= TRAIT_DEPTH,
        ensures
            answer == all_satisfied(self@, *bounds, ty, depth as nat, fuel as nat),
        decreases fuel, 1nat, *bounds,
    {
        let mut ahead: &List<Path<'a>> = bounds;
        loop
            invariant
                depth <= TRAIT_DEPTH,
                all_satisfied(self@, *bounds, ty, depth as nat, fuel as nat) == all_satisfied(
                    self@,
                    *ahead,
                    ty,
                    depth as nat,
                    fuel as nat,
                ),
            decreases *ahead,
        {
            match ahead {
                List::Nil => {
                    return true;
                },
                List::Cons(node) => {
                    if !((match single_path_name(&node.head) {
                        Some(name) => self.satisfies_trait_at_depth(ty, name, depth + 1, fuel),
                        None => false,
                    })) {
                        return false;
                    }
                    ahead = &node.tail;
                },
            }
        }
    }

    fn bounds_of_parameters_hold(
        &self,
        parameters: &List<GenericParameter<'a>>,
        environment: &Environment<'a>,
        depth: u32,
        fuel: u32,
    ) -> (answer: bool)
        requires
            depth <= TRAIT_DEPTH,
        ensures
            answer == parameter_bounds_hold(
                self@,
                *parameters,
                *environment,
                depth as nat,
                fuel as nat,
            ),
        decreases fuel, 2nat, *parameters,
    {
        let mut ahead: &List<GenericParameter<'a>> = parameters;
        loop
            invariant
                depth <= TRAIT_DEPTH,
                parameter_bounds_hold(
                    self@,
                    *parameters,
                    *environment,
                    depth as nat,
                    fuel as nat,
                ) == parameter_bounds_hold(
                    self@,
                    *ahead,
                    *environment,
                    depth as nat,
                    fuel as nat,
                ),
            decreases *ahead,
        {
            match ahead {
                List::Nil => {
                    return true;
                },
                List::Cons(node) => {
                    if !((match &node.head {
                        GenericParameter::Type { name, bounds, .. } => match find(
                            &environment.types,
                            name.name,
                        ) {
                            Some(actual) => self.satisfies_all(bounds, *actual, depth, fuel),
                            None => false,
                        },
                        _ => true,
                    })) {
                        return false;
                    }
                    ahead = &node.tail;
                },
            }
        }
    }

    fn where_predicates_hold(
        &self,
        predicates: &List<WherePredicate<'a>>,
        environment: &Environment<'a>,
        depth: u32,
        fuel: u32,
    ) -> (answer: bool)
        requires
            depth <= TRAIT_DEPTH,
        ensures
            answer == predicates_hold(
                self@,
                *predicates,
                *environment,
                depth as nat,
                fuel as nat,
            ),
        decreases fuel, 2nat, *predicates,
    {
        let mut ahead: &List<WherePredicate<'a>> = predicates;
        loop
            invariant
                depth <= TRAIT_DEPTH,
                predicates_hold(
                    self@,
                    *predicates,
                    *environment,
                    depth as nat,
                    fuel as nat,
                ) == predicates_hold(
                    self@,
                    *ahead,
                    *environment,
                    depth as nat,
                    fuel as nat,
                ),
            decreases *ahead,
        {
            match ahead {
                List::Nil => {
                    return true;
                },
                List::Cons(node) => {
                    if !((match self.resolve_existing_type(&node.head.ty, environment) {
                        Some(subject) => self.satisfies_all(
                            &node.head.bounds,
                            subject,
                            depth,
                            fuel,
                        ),
                        None => false,
                    })) {
                        return false;
                    }
                    ahead = &node.tail;
                },
            }
        }
    }

    fn has_trait_implementation(
        &self,
        implementations: &List<TraitImplementation<'a>>,
        ty: Type,
        name: &str,
        depth: u32,
        fuel: u32,
    ) -> (answer: bool)
        requires
            depth <= TRAIT_DEPTH,
        ensures
            answer == implemented(
                self@,
                *implementations,
                ty,
                name@,
                depth as nat,
                fuel as nat,
            ),
        decreases fuel, 4nat, *implementations,
    {
        let mut ahead: &List<TraitImplementation<'a>> = implementations;
        loop
            invariant
                depth <= TRAIT_DEPTH,
                implemented(
                    self@,
                    *implementations,
                    ty,
                    name@,
                    depth as nat,
                    fuel as nat,
                ) == implemented(
                    self@,
                    *ahead,
                    ty,
                    name@,
                    depth as nat,
                    fuel as nat,
                ),
            decreases *ahead,
        {
            match ahead {
                List::Nil => {
                    return false;
                },
                List::Cons(node) => {
                    if self.does_implementation_apply(&node.head, ty, name, depth, fuel) {
                        return true;
                    }
                    ahead = &node.tail;
                },
            }
        }
    }

    fn does_implementation_apply(
        &self,
        implementation: &TraitImplementation<'a>,
        ty: Type,
        name: &str,
        depth: u32,
        fuel: u32,
    ) -> (answer: bool)
        requires
            depth <= TRAIT_DEPTH,
        ensures
            answer == implementation_applies(
                self@,
                *implementation,
                ty,
                name@,
                depth as nat,
                fuel as nat,
            ),
        decreases fuel, 3nat, List::<Type>::Nil,
    {
        if !same(implementation.trait_name, name) {
            return false;
        }
        let mut environment = self.base_environment();
        if !self.infer_type_pattern(
            &implementation.target,
            ty,
            &implementation.parameters,
            &mut environment,
        ) {
            return false;
        }
        self.bounds_of_parameters_hold(&implementation.parameters, &environment, depth, fuel)
            && match find(&self.traits, name) {
            Some(declaration) => self.satisfies_all(&declaration.supertraits, ty, depth, fuel),
            None => true,
        } && self.where_predicates_hold(&implementation.where_predicates, &environment, depth, fuel)
    }

    /// The type that a written type stands for, if it is registered.
    pub fn resolve_existing_type(
        &self,
        written: &TypeName<'a>,
        environment: &Environment<'a>,
    ) -> (ty: Option<Type>)
        ensures
            ty == existing(self@, *written, *environment),
        decreases *written, 0nat, List::<Type>::Nil,
    {
        match &*written.kind {
            TypeNameKind::Function { parameters, return_type } => match (
                self.resolve_existing_types(parameters, environment),
                self.resolve_existing_type(return_type, environment),
            ) {
                (Some(parameters), Some(return_type)) => self.find_structural(
                    &StructuralType::Function { parameters, return_type },
                ),
                _ => None,
            },
            TypeNameKind::Path(path) => match single_path_name(path) {
                Some(name) => self.find_named(environment, name),
                None => None,
            },
            TypeNameKind::Generic { path, arguments } => match (
                single_path_name(path),
                self.resolve_existing_values(arguments, environment),
            ) {
                (Some(name), Some(values)) => find_instance(
                    &self.generic_instances,
                    name,
                    &values,
                ),
                _ => None,
            },
            TypeNameKind::Unit => Some(Type::Unit),
            _ => None,
        }
    }

    fn resolve_existing_types(
        &self,
        written: &List<TypeName<'a>>,
        environment: &Environment<'a>,
    ) -> (types: Option<List<Type>>)
        ensures
            types == all_existing(self@, *written, *environment),
        decreases *written, 0nat, List::<Type>::Nil,
    {
        let mut ahead: &List<TypeName<'a>> = written;
        let mut done: Vec<Type> = Vec::new();
        loop
            invariant
                all_existing(self@, *written, *environment) == prepended_if_any(
                    done@,
                    all_existing(self@, *ahead, *environment),
                ),
                *ahead == *written || decreases_to!(*written => *ahead),
            decreases *ahead,
        {
            match ahead {
                List::Nil => {
                    return Some(prepend(done, List::Nil));
                },
                List::Cons(node) => {
                    match self.resolve_existing_type(&node.head, environment) {
                        Some(ty) => {
                            done.push(ty);
                            ahead = &node.tail;
                        },
                        _ => {
                            return None;
                        },
                    }
                },
            }
        }
    }

    fn resolve_existing_values(
        &self,
        arguments: &List<GenericArgument<'a>>,
        environment: &Environment<'a>,
    ) -> (values: Option<List<GenericValue>>)
        ensures
            values == existing_values(self@, *arguments, *environment),
        decreases *arguments, 0nat, List::<Type>::Nil,
    {
        let mut ahead: &List<GenericArgument<'a>> = arguments;
        let mut done: Vec<GenericValue> = Vec::new();
        loop
            invariant
                existing_values(self@, *arguments, *environment) == prepended_if_any(
                    done@,
                    existing_values(self@, *ahead, *environment),
                ),
                *ahead == *arguments || decreases_to!(*arguments => *ahead),
            decreases *ahead,
        {
            match ahead {
                List::Nil => {
                    return Some(prepend(done, List::Nil));
                },
                List::Cons(node) => {
                    let first = match &node.head {
                        GenericArgument::Type(ty) => match find_constant_argument(ty, environment) {
                            Some(value) => Some(cons(GenericValue::Const(value), List::Nil)),
                            None => match self.resolve_existing_type(ty, environment) {
                                Some(ty) => Some(cons(GenericValue::Type(ty), List::Nil)),
                                None => None,
                            },
                        },
                        GenericArgument::Const(value) => {
                            let mut ignored: Vec<Diagnostic> = Vec::new();
                            match evaluate_array_length_in(
                                value,
                                &environment.constants,
                                &mut ignored,
                            ) {
                                Some(value) => Some(cons(GenericValue::Const(value), List::Nil)),
                                None => None,
                            }
                        },
                        GenericArgument::Pack { pack, template, .. } => match find(
                            &environment.type_packs,
                            pack.name,
                        ) {
                            Some(pack_types) => match template {
                                Some(template) => self.resolve_existing_templates(
                                    template,
                                    pack.name,
                                    pack_types,
                                    environment,
                                ),
                                None => Some(as_type_values(pack_types)),
                            },
                            None => None,
                        },
                    };
                    match first {
                        Some(first) => {
                            extend(&mut done, &first);
                            ahead = &node.tail;
                        },
                        None => {
                            return None;
                        },
                    }
                },
            }
        }
    }

    fn resolve_existing_templates(
        &self,
        template: &TypeName<'a>,
        name: &'a str,
        pack_types: &List<Type>,
        environment: &Environment<'a>,
    ) -> (values: Option<List<GenericValue>>)
        ensures
            values == existing_templates(self@, *template, name, *pack_types, *environment),
        decreases *template, 1nat, *pack_types,
    {
        let mut ahead: &List<Type> = pack_types;
        let mut done: Vec<GenericValue> = Vec::new();
        loop
            invariant
                existing_templates(
                    self@,
                    *template,
                    name,
                    *pack_types,
                    *environment,
                ) == prepended_if_any(
                    done@,
                    existing_templates(self@, *template, name, *ahead, *environment),
                ),
            decreases *ahead,
        {
            match ahead {
                List::Nil => {
                    return Some(prepend(done, List::Nil));
                },
                List::Cons(node) => {
                    let inner = environment.and_type(name, node.head);
                    match self.resolve_existing_type(template, &inner) {
                        Some(ty) => {
                            done.push(GenericValue::Type(ty));
                            ahead = &node.tail;
                        },
                        _ => {
                            return None;
                        },
                    }
                },
            }
        }
    }

    fn is_string_of_standard_library(&self, ty: Type) -> (answer: bool)
        ensures
            answer == is_standard_string(self@, ty),
    {
        match self.find_nominal(ty, LIMIT) {
            Some(name) => reads(&name, STANDARD_STRING_TYPE),
            None => false,
        }
    }

    fn satisfies_thread_safety_at_depth(
        &self,
        ty: Type,
        safety: ThreadSafety,
        depth: u32,
    ) -> (answer: bool)
        requires
            depth <= TYPE_DEPTH + 1,
        ensures
            answer == thread_safe(self@, ty, safety, depth as nat),
        decreases TYPE_DEPTH + 1 - depth, 0nat, List::<Type>::Nil,
    {
        if depth > TYPE_DEPTH {
            return false;
        }
        if self.is_string_of_standard_library(ty) {
            return true;
        }
        if let Some((base_name, arguments)) = self.generic_instance(ty) {
            if same(base_name, STANDARD_VEC_TYPE) || same(base_name, STANDARD_HASH_MAP_TYPE)
                || same(base_name, STANDARD_HASH_SET_TYPE) || same(
                base_name,
                STANDARD_RING_BUFFER_TYPE,
            ) {
                return self.arguments_are_thread_safe(&arguments, safety, depth + 1);
            }
        }
        match ty {
            Type::RawPointer(_) => false,
            Type::Reference(_) => match self.shape(ty) {
                Some(TypeDefinitionKind::Reference { target, mutable }) => {
                    let required = if mutable && safety == ThreadSafety::Send {
                        ThreadSafety::Send
                    } else {
                        ThreadSafety::Sync
                    };
                    self.satisfies_thread_safety_at_depth(target, required, depth + 1)
                },
                _ => false,
            },
            Type::Slice(_) => match self.slice_shape(ty) {
                Some((element, mutable)) => {
                    let required = if mutable && safety == ThreadSafety::Send {
                        ThreadSafety::Send
                    } else {
                        ThreadSafety::Sync
                    };
                    self.satisfies_thread_safety_at_depth(element, required, depth + 1)
                },
                None => false,
            },
            Type::Struct(_) => match self.shape(ty) {
                Some(TypeDefinitionKind::Struct { fields }) => self.fields_are_thread_safe(
                    &fields,
                    safety,
                    depth + 1,
                ),
                _ => false,
            },
            Type::Tuple(_) => match self.tuple_shape(ty) {
                Some(elements) => self.all_are_thread_safe(&elements, safety, depth + 1),
                None => false,
            },
            Type::Array(_) => match self.array_shape(ty) {
                Some((element, _)) => self.satisfies_thread_safety_at_depth(
                    element,
                    safety,
                    depth + 1,
                ),
                None => false,
            },
            Type::Enum(_) => match self.shape(ty) {
                Some(TypeDefinitionKind::Enum { variants }) => self.variants_are_thread_safe(
                    &variants,
                    safety,
                    depth + 1,
                ),
                _ => false,
            },
            _ => true,
        }
    }

    fn all_are_thread_safe(&self, list: &List<Type>, safety: ThreadSafety, depth: u32) -> (answer:
        bool)
        requires
            depth <= TYPE_DEPTH + 1,
        ensures
            answer == all_thread_safe(self@, *list, safety, depth as nat),
        decreases TYPE_DEPTH + 1 - depth, 1nat, *list,
    {
        let mut ahead: &List<Type> = list;
        loop
            invariant
                depth <= TYPE_DEPTH + 1,
                all_thread_safe(self@, *list, safety, depth as nat) == all_thread_safe(
                    self@,
                    *ahead,
                    safety,
                    depth as nat,
                ),
            decreases *ahead,
        {
            match ahead {
                List::Nil => {
                    return true;
                },
                List::Cons(node) => {
                    if !self.satisfies_thread_safety_at_depth(node.head, safety, depth) {
                        return false;
                    }
                    ahead = &node.tail;
                },
            }
        }
    }

    fn fields_are_thread_safe(
        &self,
        fields: &List<TypeField<'a>>,
        safety: ThreadSafety,
        depth: u32,
    ) -> (answer: bool)
        requires
            depth <= TYPE_DEPTH + 1,
        ensures
            answer == fields_thread_safe(self@, *fields, safety, depth as nat),
        decreases TYPE_DEPTH + 1 - depth, 1nat, *fields,
    {
        let mut ahead: &List<TypeField<'a>> = fields;
        loop
            invariant
                depth <= TYPE_DEPTH + 1,
                fields_thread_safe(self@, *fields, safety, depth as nat) == fields_thread_safe(
                    self@,
                    *ahead,
                    safety,
                    depth as nat,
                ),
            decreases *ahead,
        {
            match ahead {
                List::Nil => {
                    return true;
                },
                List::Cons(node) => {
                    if !self.satisfies_thread_safety_at_depth(node.head.ty, safety, depth) {
                        return false;
                    }
                    ahead = &node.tail;
                },
            }
        }
    }

    fn variants_are_thread_safe(
        &self,
        variants: &List<EnumVariant<'a>>,
        safety: ThreadSafety,
        depth: u32,
    ) -> (answer: bool)
        requires
            depth <= TYPE_DEPTH + 1,
        ensures
            answer == variants_thread_safe(self@, *variants, safety, depth as nat),
        decreases TYPE_DEPTH + 1 - depth, 2nat, *variants,
    {
        let mut ahead: &List<EnumVariant<'a>> = variants;
        loop
            invariant
                depth <= TYPE_DEPTH + 1,
                variants_thread_safe(
                    self@,
                    *variants,
                    safety,
                    depth as nat,
                ) == variants_thread_safe(
                    self@,
                    *ahead,
                    safety,
                    depth as nat,
                ),
            decreases *ahead,
        {
            match ahead {
                List::Nil => {
                    return true;
                },
                List::Cons(node) => {
                    if !((match &node.head.fields {
                        EnumVariantFields::Unit => true,
                        EnumVariantFields::Tuple(list) => self.all_are_thread_safe(
                            list,
                            safety,
                            depth,
                        ),
                        EnumVariantFields::Struct(fields) => self.fields_are_thread_safe(
                            fields,
                            safety,
                            depth,
                        ),
                    })) {
                        return false;
                    }
                    ahead = &node.tail;
                },
            }
        }
    }

    fn arguments_are_thread_safe(
        &self,
        arguments: &List<GenericValue>,
        safety: ThreadSafety,
        depth: u32,
    ) -> (answer: bool)
        requires
            depth <= TYPE_DEPTH + 1,
        ensures
            answer == arguments_thread_safe(self@, *arguments, safety, depth as nat),
        decreases TYPE_DEPTH + 1 - depth, 1nat, *arguments,
    {
        let mut ahead: &List<GenericValue> = arguments;
        loop
            invariant
                depth <= TYPE_DEPTH + 1,
                arguments_thread_safe(
                    self@,
                    *arguments,
                    safety,
                    depth as nat,
                ) == arguments_thread_safe(
                    self@,
                    *ahead,
                    safety,
                    depth as nat,
                ),
            decreases *ahead,
        {
            match ahead {
                List::Nil => {
                    return true;
                },
                List::Cons(node) => {
                    if !((match node.head {
                        GenericValue::Type(ty) => self.satisfies_thread_safety_at_depth(
                            ty,
                            safety,
                            depth,
                        ),
                        GenericValue::Const(_) => true,
                    })) {
                        return false;
                    }
                    ahead = &node.tail;
                },
            }
        }
    }

    /// Whether values of a type can be compared by `==`.
    pub fn is_equality_capable(&self, ty: Type) -> (answer: bool)
        ensures
            answer == self@.is_equality_capable(ty),
    {
        reveal(Types::is_equality_capable);
        self.is_equality_capable_within(ty, LIMIT)
    }

    fn is_equality_capable_within(&self, ty: Type, fuel: u32) -> (answer: bool)
        ensures
            answer == equality_capable(self@, ty, fuel as nat),
        decreases fuel, 0nat, List::<Type>::Nil,
    {
        is_equality_type(ty) || self.has_derived_trait(ty, DerivedTrait::Eq) || match self.shape(
            ty,
        ) {
            Some(TypeDefinitionKind::Tuple { elements }) => fuel > 0
                && self.all_are_equality_capable(&elements, fuel - 1),
            Some(TypeDefinitionKind::Array { element, .. }) => fuel > 0
                && self.is_equality_capable_within(element, fuel - 1),
            _ => false,
        }
    }

    fn all_are_equality_capable(&self, list: &List<Type>, fuel: u32) -> (answer: bool)
        ensures
            answer == all_equality_capable(self@, *list, fuel as nat),
        decreases fuel, 1nat, *list,
    {
        let mut ahead: &List<Type> = list;
        loop
            invariant
                all_equality_capable(self@, *list, fuel as nat) == all_equality_capable(
                    self@,
                    *ahead,
                    fuel as nat,
                ),
            decreases *ahead,
        {
            match ahead {
                List::Nil => {
                    return true;
                },
                List::Cons(node) => {
                    if !self.is_equality_capable_within(node.head, fuel) {
                        return false;
                    }
                    ahead = &node.tail;
                },
            }
        }
    }

    /// Whether values of a type can be hashed.
    pub fn is_hash_capable(&self, ty: Type) -> (answer: bool)
        ensures
            answer == self@.is_hash_capable(ty),
    {
        reveal(Types::is_hash_capable);
        self.can_be_hashed(ty)
    }

    fn can_be_hashed(&self, ty: Type) -> (answer: bool)
        ensures
            answer == hash_capable(self@, ty),
    {
        self.has_derived_trait(ty, DerivedTrait::Hash) || (is_equality_type(ty) && !ty.is_float())
    }

    /// Whether values of a type can be shown for debugging.
    pub fn is_debug_capable(&self, ty: Type) -> (answer: bool)
        ensures
            answer == self@.is_debug_capable(ty),
    {
        reveal(Types::is_debug_capable);
        self.is_debug_capable_within(ty, LIMIT)
    }

    fn is_debug_capable_within(&self, ty: Type, fuel: u32) -> (answer: bool)
        ensures
            answer == debug_capable(self@, ty, fuel as nat),
        decreases fuel, 0nat, List::<Type>::Nil,
    {
        is_equality_type(ty) || matches!(
            ty,
            Type::Str
                | Type::CStr
                | Type::Unit
                | Type::RawPointer(_)
                | Type::Reference(_)
                | Type::Function(_)
        ) || self.has_derived_trait(ty, DerivedTrait::Debug) || match self.shape(ty) {
            Some(TypeDefinitionKind::Tuple { elements }) => fuel > 0 && self.all_are_debug_capable(
                &elements,
                fuel - 1,
            ),
            Some(TypeDefinitionKind::Array { element, .. }) => fuel > 0
                && self.is_debug_capable_within(element, fuel - 1),
            Some(TypeDefinitionKind::Slice { element, .. }) => fuel > 0
                && self.is_debug_capable_within(element, fuel - 1),
            _ => false,
        }
    }

    fn all_are_debug_capable(&self, list: &List<Type>, fuel: u32) -> (answer: bool)
        ensures
            answer == all_debug_capable(self@, *list, fuel as nat),
        decreases fuel, 1nat, *list,
    {
        let mut ahead: &List<Type> = list;
        loop
            invariant
                all_debug_capable(self@, *list, fuel as nat) == all_debug_capable(
                    self@,
                    *ahead,
                    fuel as nat,
                ),
            decreases *ahead,
        {
            match ahead {
                List::Nil => {
                    return true;
                },
                List::Cons(node) => {
                    if !self.is_debug_capable_within(node.head, fuel) {
                        return false;
                    }
                    ahead = &node.tail;
                },
            }
        }
    }

    /// Whether a type has a default value.
    pub fn is_default_capable(&self, ty: Type) -> (answer: bool)
        ensures
            answer == self@.is_default_capable(ty),
    {
        reveal(Types::is_default_capable);
        self.is_default_capable_within(ty, LIMIT)
    }

    fn is_default_capable_within(&self, ty: Type, fuel: u32) -> (answer: bool)
        ensures
            answer == default_capable(self@, ty, fuel as nat),
        decreases fuel, 0nat, List::<Type>::Nil,
    {
        is_equality_type(ty) || matches!(ty, Type::Str | Type::CStr | Type::Unit)
            || self.has_derived_trait(ty, DerivedTrait::Default) || match self.shape(ty) {
            Some(TypeDefinitionKind::Tuple { elements }) => fuel > 0
                && self.all_are_default_capable(&elements, fuel - 1),
            Some(TypeDefinitionKind::Array { element, .. }) => fuel > 0
                && self.is_default_capable_within(element, fuel - 1),
            _ => false,
        }
    }

    fn all_are_default_capable(&self, list: &List<Type>, fuel: u32) -> (answer: bool)
        ensures
            answer == all_default_capable(self@, *list, fuel as nat),
        decreases fuel, 1nat, *list,
    {
        let mut ahead: &List<Type> = list;
        loop
            invariant
                all_default_capable(self@, *list, fuel as nat) == all_default_capable(
                    self@,
                    *ahead,
                    fuel as nat,
                ),
            decreases *ahead,
        {
            match ahead {
                List::Nil => {
                    return true;
                },
                List::Cons(node) => {
                    if !self.is_default_capable_within(node.head, fuel) {
                        return false;
                    }
                    ahead = &node.tail;
                },
            }
        }
    }

    /// Whether values of a type are plain bytes.
    pub fn is_pod_capable(&self, ty: Type) -> (answer: bool)
        ensures
            answer == self@.is_pod_capable(ty),
    {
        reveal(Types::is_pod_capable);
        self.is_pod_capable_within(ty, LIMIT)
    }

    fn is_pod_capable_within(&self, ty: Type, fuel: u32) -> (answer: bool)
        ensures
            answer == pod_capable(self@, ty, fuel as nat),
        decreases fuel,
    {
        ty.is_numeric() || match ty {
            Type::Array(_) => match self.array_shape(ty) {
                Some((element, _)) => fuel > 0 && self.is_pod_capable_within(element, fuel - 1),
                None => false,
            },
            Type::Struct(_) => self.has_derived_trait(ty, DerivedTrait::Pod),
            _ => false,
        }
    }

    fn is_tightly_packed(
        &self,
        fields: &List<TypeField<'a>>,
        offsets: &List<u32>,
        cursor: u32,
        size: u32,
    ) -> (answer: bool)
        ensures
            answer == tightly_packed(self@.layouts, *fields, *offsets, cursor, size),
    {
        let mut ahead: &List<TypeField<'a>> = fields;
        let mut current_offsets: &List<u32> = offsets;
        let mut current_cursor: u32 = cursor;
        loop
            invariant
                tightly_packed(self@.layouts, *fields, *offsets, cursor, size) == tightly_packed(
                    self@.layouts,
                    *ahead,
                    *current_offsets,
                    current_cursor,
                    size,
                ),
            decreases *ahead,
        {
            match (ahead, current_offsets) {
                (List::Cons(field), List::Cons(offset)) => {
                    if offset.head != current_cursor {
                        return false;
                    }
                    match find_layout(&self.layouts, field.head.ty) {
                        Some(layout) => match current_cursor.checked_add(layout.size) {
                            Some(next) => {
                                current_cursor = next;
                                current_offsets = &offset.tail;
                                ahead = &field.tail;
                            },
                            None => {
                                return false;
                            },
                        },
                        None => {
                            return false;
                        },
                    }
                },
                _ => {
                    return current_cursor == size;
                },
            }
        }
    }

    /// Whether a type can derive `Pod`.
    pub fn pod_requirements_hold(&self, ty: Type) -> (answer: bool)
        ensures
            answer == pod_requirements(self@, ty),
    {
        let definition = match self.definition(ty) {
            Some(definition) => definition,
            None => {
                return false;
            },
        };
        if definition.representation != TypeRepresentation::C || !self.has_derived_trait(
            ty,
            DerivedTrait::Copy,
        ) {
            return false;
        }
        match &definition.kind {
            TypeDefinitionKind::Struct { fields } => {
                self.do_fields_satisfy(fields, DerivedTrait::Pod) && match find_layout(
                    &self.layouts,
                    ty,
                ) {
                    Some(layout) => match &layout.offsets {
                        Some(offsets) => self.is_tightly_packed(fields, offsets, 0, layout.size),
                        None => false,
                    },
                    None => false,
                }
            },
            _ => false,
        }
    }

    fn does_field_satisfy(&self, ty: Type, derived: DerivedTrait) -> (answer: bool)
        ensures
            answer == field_satisfies(self@, ty, derived),
    {
        match derived {
            DerivedTrait::Copy => self.is_copy_within(ty, LIMIT),
            DerivedTrait::Clone => self.is_copy_within(ty, LIMIT),
            DerivedTrait::Debug => self.is_debug_capable_within(ty, LIMIT),
            DerivedTrait::Eq => self.is_equality_capable_within(ty, LIMIT),
            DerivedTrait::Hash => self.can_be_hashed(ty),
            DerivedTrait::Default => self.is_default_capable_within(ty, LIMIT),
            DerivedTrait::Pod => self.is_pod_capable_within(ty, LIMIT),
        }
    }

    fn do_fields_satisfy(&self, fields: &List<TypeField<'a>>, derived: DerivedTrait) -> (answer:
        bool)
        ensures
            answer == fields_satisfy(self@, *fields, derived),
    {
        let mut ahead: &List<TypeField<'a>> = fields;
        loop
            invariant
                fields_satisfy(self@, *fields, derived) == fields_satisfy(self@, *ahead, derived),
            decreases *ahead,
        {
            match ahead {
                List::Nil => {
                    return true;
                },
                List::Cons(node) => {
                    if !self.does_field_satisfy(node.head.ty, derived) {
                        return false;
                    }
                    ahead = &node.tail;
                },
            }
        }
    }

    fn do_types_satisfy(&self, list: &List<Type>, derived: DerivedTrait) -> (answer: bool)
        ensures
            answer == all_satisfy(self@, *list, derived),
    {
        let mut ahead: &List<Type> = list;
        loop
            invariant
                all_satisfy(self@, *list, derived) == all_satisfy(self@, *ahead, derived),
            decreases *ahead,
        {
            match ahead {
                List::Nil => {
                    return true;
                },
                List::Cons(node) => {
                    if !self.does_field_satisfy(node.head, derived) {
                        return false;
                    }
                    ahead = &node.tail;
                },
            }
        }
    }

    fn variant_fields_satisfy(&self, variant: &EnumVariant<'a>, derived: DerivedTrait) -> (answer:
        bool)
        ensures
            answer == variant_satisfies(self@, *variant, derived),
    {
        match &variant.fields {
            EnumVariantFields::Unit => true,
            EnumVariantFields::Tuple(list) => self.do_types_satisfy(list, derived),
            EnumVariantFields::Struct(fields) => self.do_fields_satisfy(fields, derived),
        }
    }

    fn do_variants_satisfy(
        &self,
        variants: &List<EnumVariant<'a>>,
        derived: DerivedTrait,
    ) -> (answer: bool)
        ensures
            answer == variants_satisfy(self@, *variants, derived),
    {
        let mut ahead: &List<EnumVariant<'a>> = variants;
        loop
            invariant
                variants_satisfy(self@, *variants, derived) == variants_satisfy(
                    self@,
                    *ahead,
                    derived,
                ),
            decreases *ahead,
        {
            match ahead {
                List::Nil => {
                    return true;
                },
                List::Cons(node) => {
                    if !self.variant_fields_satisfy(&node.head, derived) {
                        return false;
                    }
                    ahead = &node.tail;
                },
            }
        }
    }

    /// Whether a type may derive a trait.
    pub fn derived_requirements_hold(&self, ty: Type, derived: DerivedTrait) -> (answer: bool)
        ensures
            answer == requirements_hold(self@, ty, derived),
    {
        let kind = match self.shape(ty) {
            Some(kind) => kind,
            None => {
                return false;
            },
        };
        if derived == DerivedTrait::Pod {
            return self.pod_requirements_hold(ty);
        }
        match &kind {
            TypeDefinitionKind::Struct { fields } => self.do_fields_satisfy(fields, derived),
            TypeDefinitionKind::Enum { variants } => if derived == DerivedTrait::Default {
                match variants {
                    List::Cons(node) => self.variant_fields_satisfy(&node.head, derived),
                    List::Nil => false,
                }
            } else {
                self.do_variants_satisfy(variants, derived)
            },
            _ => false,
        }
    }

    fn check_derives(
        &self,
        ty: Type,
        name: &Text<'a>,
        span: Span,
        derives: &List<DerivedTrait>,
        Ghost(definition): Ghost<TypeDefinition<'a>>,
        problems: &mut Vec<Diagnostic<'a>>,
    )
        requires
            *name == shown_name(definition),
            span == definition.span,
        ensures
            final(problems)@ == derive_problems(
                old(problems)@,
                self@,
                ty,
                definition,
                *derives,
            ),
            kept(old(problems)@, final(problems)@),
    {
        let mut ahead: &List<DerivedTrait> = derives;
        loop
            invariant
                *name == shown_name(definition),
                span == definition.span,
                derive_problems(
                    old(problems)@,
                    self@,
                    ty,
                    definition,
                    *derives,
                ) == derive_problems(
                    problems@,
                    self@,
                    ty,
                    definition,
                    *ahead,
                ),
                kept(old(problems)@, problems@),
            decreases *ahead,
        {
            match ahead {
                List::Nil => {
                    return ;
                },
                List::Cons(node) => {
                    if !self.derived_requirements_hold(ty, node.head) {
                        problems.push(
                            helped(
                                "E7006",
                                joined(
                                    &words3("cannot derive `", trait_name(node.head), "` for `"),
                                    joined(name, words("`")),
                                ),
                                trait_requirement(node.head),
                                span,
                            ),
                        );
                    }
                    ahead = &node.tail;
                },
            }
        }
    }

    fn find_missing_traits(&self, ty: Type, supertraits: &List<Path<'a>>) -> (missing: List<
        &'a str,
    >)
        ensures
            missing == missing_traits(self@, ty, *supertraits),
    {
        let mut ahead: &List<Path<'a>> = supertraits;
        let mut done: Vec<&'a str> = Vec::new();
        loop
            invariant
                missing_traits(self@, ty, *supertraits) == prepended(
                    done@,
                    missing_traits(self@, ty, *ahead),
                ),
            decreases *ahead,
        {
            match ahead {
                List::Nil => {
                    return prepend(done, List::Nil);
                },
                List::Cons(node) => {
                    if let Some(name) = single_path_name(&node.head) {
                        if !self.satisfies_trait_at_depth(ty, name, 0, LIMIT) {
                            done.push(name);
                        }
                    }
                    ahead = &node.tail;
                },
            }
        }
    }

    fn check_markers(
        &self,
        ty: Type,
        name: &Text<'a>,
        span: Span,
        markers: &List<&'a str>,
        Ghost(definition): Ghost<TypeDefinition<'a>>,
        problems: &mut Vec<Diagnostic<'a>>,
    )
        requires
            *name == shown_name(definition),
            span == definition.span,
        ensures
            final(problems)@ == marker_problems(
                old(problems)@,
                self@,
                ty,
                definition,
                *markers,
            ),
            kept(old(problems)@, final(problems)@),
    {
        let mut ahead: &List<&'a str> = markers;
        loop
            invariant
                *name == shown_name(definition),
                span == definition.span,
                marker_problems(
                    old(problems)@,
                    self@,
                    ty,
                    definition,
                    *markers,
                ) == marker_problems(
                    problems@,
                    self@,
                    ty,
                    definition,
                    *ahead,
                ),
                kept(old(problems)@, problems@),
            decreases *ahead,
        {
            match ahead {
                List::Nil => {
                    return ;
                },
                List::Cons(node) => {
                    if let Some(declaration) = find(&self.traits, node.head) {
                        if declaration.generic_parameters.is_empty() && declaration.methods.is_empty() {
                            let missing = self.find_missing_traits(ty, &declaration.supertraits);
                            if !missing.is_empty() {
                                problems.push(
                                    advised(
                                        "E7006",
                                        joined(
                                            &words3("cannot derive `", node.head, "` for `"),
                                            joined(name, words("`")),
                                        ),
                                        cons(
                                            Piece::Words("satisfy the marker trait requirements: "),
                                            quote_names(&missing),
                                        ),
                                        span,
                                    ),
                                );
                            }
                        }
                    }
                    ahead = &node.tail;
                },
            }
        }
    }

    /// Reports what a type derives but may not derive.
    pub fn validate_type_derives(&mut self, ty: Type)
        ensures
            final(self)@ == derives_checked(old(self)@, ty),
            old(self)@.grows_into(final(self)@),
    {
        reveal(Types::grows_into);
        reveal(derives_checked);
        let mut problems: Vec<Diagnostic<'a>> = Vec::new();
        match self.definition(ty) {
            None => {
                return;
            },
            Some(definition) => {
                let name = match &definition.name {
                    Some(name) => name.share(),
                    None => words("this type"),
                };
                let ghost shown = *definition;
                let span = definition.span;
                self.check_derives(
                    ty,
                    &name,
                    span,
                    &definition.derives,
                    Ghost(shown),
                    &mut problems,
                );
                self.check_markers(
                    ty,
                    &name,
                    span,
                    &definition.marker_traits,
                    Ghost(shown),
                    &mut problems,
                );
                proof {
                    let before = self@.problems;
                    let none = Seq::<Diagnostic<'a>>::empty();
                    assert(before + none =~= before);
                    lemma_derive_problems_follow(before, none, self@, ty, shown, shown.derives);
                    lemma_marker_problems_follow(
                        before,
                        derive_problems(none, self@, ty, shown, shown.derives),
                        self@,
                        ty,
                        shown,
                        shown.marker_traits,
                    );
                }
            },
        }
        self.problems.append(&mut problems);
        proof {
            reveal(kept);
            assert(old(self)@.problems.is_prefix_of(self@.problems));
        }
    }

    /// The default value of a type.
    pub fn default_expression(&self, ty: Type, span: Span) -> (value: Option<Expression<'a>>)
        ensures
            value == self@.default_expression(ty, span),
            always_sound_if_any(value),
    {
        reveal(Types::default_expression);
        self.default_expression_at_depth(ty, span, 0)
    }

    fn default_expression_at_depth(&self, ty: Type, span: Span, depth: u32) -> (value: Option<
        Expression<'a>,
    >)
        requires
            depth <= TYPE_DEPTH + 1,
        ensures
            value == default_value(self@, ty, span, depth as nat),
            always_sound_if_any(value),
        decreases TYPE_DEPTH + 1 - depth, 0nat, List::<Type>::Nil,
    {
        if depth > TYPE_DEPTH {
            return None;
        }
        match ty {
            Type::F32 => Some(typed(ExpressionKind::Float32(0), ty, span)),
            Type::F64 => Some(typed(ExpressionKind::Float64(0), ty, span)),
            Type::Bool => Some(typed(ExpressionKind::Boolean(false), ty, span)),
            Type::Char => Some(typed(ExpressionKind::Character('\0'), ty, span)),
            Type::Str => Some(typed(ExpressionKind::String(List::Nil), ty, span)),
            Type::CStr => Some(typed(ExpressionKind::CString(List::Nil), ty, span)),
            Type::Unit => Some(typed(ExpressionKind::Unit, ty, span)),
            Type::Never
            | Type::Reference(_)
            | Type::RawPointer(_)
            | Type::Slice(_)
            | Type::Function(_) => None,
            Type::Struct(_) => match self.shape(ty) {
                Some(TypeDefinitionKind::Struct { fields }) => match self.default_field_values(
                    &fields,
                    span,
                    depth + 1,
                ) {
                    Some(values) => Some(typed(ExpressionKind::Struct(values), ty, span)),
                    None => None,
                },
                _ => None,
            },
            Type::Tuple(_) => match self.tuple_shape(ty) {
                Some(elements) => match self.default_type_values(&elements, span, depth + 1) {
                    Some(values) => Some(typed(ExpressionKind::Tuple(values), ty, span)),
                    None => None,
                },
                None => None,
            },
            Type::Array(_) => match self.array_shape(ty) {
                Some((element, length)) => if length as u128 > usize::MAX as u128 {
                    None
                } else {
                    match self.default_expression_at_depth(element, span, depth + 1) {
                        Some(value) => Some(
                            typed(ExpressionKind::Array(repeat_value(&value, length)), ty, span),
                        ),
                        None => None,
                    }
                },
                None => None,
            },
            Type::Enum(_) => match self.shape(ty) {
                Some(TypeDefinitionKind::Enum { variants: List::Cons(node) }) => {
                    let fields = match &node.head.fields {
                        EnumVariantFields::Unit => Some(List::Nil),
                        EnumVariantFields::Tuple(list) => self.default_type_values(
                            list,
                            span,
                            depth + 1,
                        ),
                        EnumVariantFields::Struct(fields) => self.default_field_values(
                            fields,
                            span,
                            depth + 1,
                        ),
                    };
                    match fields {
                        Some(fields) => Some(
                            typed(ExpressionKind::Enum { variant: 0, fields }, ty, span),
                        ),
                        None => None,
                    }
                },
                _ => None,
            },
            _ => Some(typed(ExpressionKind::Integer(0), ty, span)),
        }
    }

    fn default_type_values(&self, list: &List<Type>, span: Span, depth: u32) -> (values: Option<
        List<Expression<'a>>,
    >)
        requires
            depth <= TYPE_DEPTH + 1,
        ensures
            values == default_values(self@, *list, span, depth as nat),
            all_always_sound_if_any(values),
        decreases TYPE_DEPTH + 1 - depth, 1nat, *list,
    {
        let mut ahead: &List<Type> = list;
        let mut done: Vec<Expression<'a>> = Vec::new();
        loop
            invariant
                depth <= TYPE_DEPTH + 1,
                default_values(self@, *list, span, depth as nat) == prepended_if_any(
                    done@,
                    default_values(self@, *ahead, span, depth as nat),
                ),
                all_always_sound(prepended(done@, List::Nil)),
            decreases *ahead,
        {
            match ahead {
                List::Nil => {
                    return Some(prepend(done, List::Nil));
                },
                List::Cons(node) => {
                    match self.default_expression_at_depth(node.head, span, depth) {
                        Some(value) => {
                            done.push(value);
                            ahead = &node.tail;
                        },
                        _ => {
                            return None;
                        },
                    }
                },
            }
        }
    }

    fn default_field_values(
        &self,
        fields: &List<TypeField<'a>>,
        span: Span,
        depth: u32,
    ) -> (values: Option<List<Expression<'a>>>)
        requires
            depth <= TYPE_DEPTH + 1,
        ensures
            values == default_fields(self@, *fields, span, depth as nat),
            all_always_sound_if_any(values),
        decreases TYPE_DEPTH + 1 - depth, 1nat, *fields,
    {
        let mut ahead: &List<TypeField<'a>> = fields;
        let mut done: Vec<Expression<'a>> = Vec::new();
        loop
            invariant
                depth <= TYPE_DEPTH + 1,
                default_fields(self@, *fields, span, depth as nat) == prepended_if_any(
                    done@,
                    default_fields(self@, *ahead, span, depth as nat),
                ),
                all_always_sound(prepended(done@, List::Nil)),
            decreases *ahead,
        {
            match ahead {
                List::Nil => {
                    return Some(prepend(done, List::Nil));
                },
                List::Cons(node) => {
                    match self.default_expression_at_depth(node.head.ty, span, depth) {
                        Some(value) => {
                            done.push(value);
                            ahead = &node.tail;
                        },
                        _ => {
                            return None;
                        },
                    }
                },
            }
        }
    }
}

} // verus!

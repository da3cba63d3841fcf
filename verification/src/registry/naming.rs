//! From written types to types.

use crate::ast::{
    lone_name, path_text, single_path_name, Attribute, EnumVariant as AstVariant,
    EnumVariantPayload, GenericArgument, GenericParameter, Path, StructField, TypeName,
    TypeNameKind, WherePredicate,
};
use crate::attributes::{
    alignment_request, annotated_with, derived_by, derived_marker_traits, derived_traits,
    has_identifier_attribute, has_marker_attribute, marked, markers_of_attributes,
    requested_alignment,
};
use crate::generics::{
    array_length, bound, evaluate_array_length_in, find, has_default, parameter_has_default,
    Environment, GenericValue,
};
use crate::hir::{
    EnumVariant, EnumVariantFields, TypeDefinition, TypeDefinitionKind, TypeField,
    TypeRepresentation,
};
use crate::list::{append, cons, extend, prepend, prepended, prepended_if_any, List};
use crate::registry::capability::{
    as_type_values, constant_argument, derives_checked, find_constant_argument,     type_values,
};
use crate::registry::{
    find_instance, known_instance, spec_too_many_types, GenericTypeInstance, GenericTypeTemplate,
    TypeRegistry, Types, LIMIT,
};
use crate::span::{error, helped, Diagnostic, Span};
use crate::syntax::{is_builtin_trait, names_builtin_trait};
use crate::text::{
    frame, framed, is_listed, joined, listed, number, same, words, words3, Piece, Text,
};
use crate::types::{Type, TypeId};
use vstd::prelude::*;

verus! {

broadcast use {
    crate::list::pushed_comes_first,
    crate::registry::growth::group_grown,
    crate::span::group_kept,
};

/// The problem of types that are nested beyond any limit.
pub open spec fn spec_nested_too_deeply<'a>(span: Span) -> Diagnostic<'a> {
    error("E3999", words("this type is nested too deeply"), span)
}

/// The problem of types that are nested beyond any limit.
#[verifier::when_used_as_spec(spec_nested_too_deeply)]
pub fn nested_too_deeply<'a>(span: Span) -> (problem: Diagnostic<'a>)
    ensures
        problem == spec_nested_too_deeply(span),
{
    error("E3999", words("this type is nested too deeply"), span)
}

/// The problem of a pack that is not declared.
pub open spec fn spec_unknown_pack<'a>(name: &'a str, span: Span) -> Diagnostic<'a> {
    helped(
        "E6020",
        words3("unknown type pack `", name, "`"),
        "declare the pack with `<...Types>`",
        span,
    )
}

/// The problem of a pack that is not declared.
#[verifier::when_used_as_spec(spec_unknown_pack)]
pub fn unknown_pack<'a>(name: &'a str, span: Span) -> (problem: Diagnostic<'a>)
    ensures
        problem == spec_unknown_pack(name, span),
{
    helped(
        "E6020",
        words3("unknown type pack `", name, "`"),
        "declare the pack with `<...Types>`",
        span,
    )
}

/// The problem of a scoped value that would be hidden.
pub open spec fn spec_scoped_storage_diagnostic<'a>(span: Span) -> Diagnostic<'a> {
    helped(
        "E3013",
        words("a scoped view cannot be hidden inside raw owning storage"),
        "store owned data or keep the scoped value in a directly borrowed aggregate",
        span,
    )
}

/// The problem of a scoped value that would be hidden.
#[verifier::when_used_as_spec(spec_scoped_storage_diagnostic)]
pub fn scoped_storage_diagnostic<'a>(span: Span) -> (problem: Diagnostic<'a>)
    ensures
        problem == spec_scoped_storage_diagnostic(span),
{
    helped(
        "E3013",
        words("a scoped view cannot be hidden inside raw owning storage"),
        "store owned data or keep the scoped value in a directly borrowed aggregate",
        span,
    )
}

/// The types with the problems of an array length, and its value.
#[verifier::opaque]
pub open spec fn length_resolved<'a>(
    types: Types<'a>,
    length: crate::ast::Expression<'a>,
    environment: Environment<'a>,
) -> (Types<'a>, Option<u64>) {
    let (problems, value) = array_length(types.problems, length, environment.constants);
    (Types { problems, ..types }, value)
}

/// The type that a written type stands for. Unnamed composite types and
/// instances of generic types are registered on the way.
pub open spec fn resolved<'a>(
    types: Types<'a>,
    written: TypeName<'a>,
    environment: Environment<'a>,
    fuel: nat,
) -> (Types<'a>, Option<Type>)
    decreases fuel, 0nat, List::<Type>::Nil,
{
    if fuel == 0 {
        (types.report(nested_too_deeply(written.span)), None)
    } else {
        kind_resolved(types, written, environment, (fuel - 1) as nat)
    }
}

/// The type that a written type stands for, by its form.
pub open spec fn kind_resolved<'a>(
    types: Types<'a>,
    written: TypeName<'a>,
    environment: Environment<'a>,
    fuel: nat,
) -> (Types<'a>, Option<Type>)
    decreases fuel, 11nat, List::<Type>::Nil,
{
    match *written.kind {
        TypeNameKind::Function { parameters, return_type } => {
            match sequence_resolved(types, parameters, environment, fuel) {
                (types, None) => (types, None),
                (types, Some(parameters)) => match resolved(
                    types,
                    return_type,
                    environment,
                    fuel,
                ) {
                    (types, None) => (types, None),
                    (types, Some(return_type)) => types.function(
                        parameters,
                        return_type,
                        written.span,
                    ),
                },
            }
        },
        TypeNameKind::Unit => (types, Some(Type::Unit)),
        TypeNameKind::Generic { path, arguments } => generic_resolved(
            types,
            path,
            arguments,
            environment,
            written.span,
            fuel,
        ),
        TypeNameKind::Tuple(elements) => match sequence_resolved(
            types,
            elements,
            environment,
            fuel,
        ) {
            (types, None) => (types, None),
            (types, Some(elements)) => types.tuple(elements, written.span),
        },
        TypeNameKind::PackExpansion { .. } => (
            types.report(
                helped(
                    "E6020",
                    words(
                        "a type pack can only expand inside a tuple, function type, or generic argument list",
                    ),
                    "wrap the expansion in a type list such as `(...Types)`",
                    written.span,
                ),
            ),
            None,
        ),
        TypeNameKind::Array { element, length } => match resolved(
            types,
            element,
            environment,
            fuel,
        ) {
            (types, None) => (types, None),
            (types, Some(element)) => match length_resolved(types, length, environment) {
                (types, None) => (types, None),
                (types, Some(length)) => types.array(element, length, written.span),
            },
        },
        TypeNameKind::Reference { mutable, target } => match *target.kind {
            TypeNameKind::Slice(element) => match resolved(types, element, environment, fuel) {
                (types, None) => (types, None),
                (types, Some(element)) => types.slice(element, mutable, written.span),
            },
            _ => match resolved(types, target, environment, fuel) {
                (types, None) => (types, None),
                (types, Some(target)) => types.reference(target, mutable, written.span),
            },
        },
        TypeNameKind::RawPointer { mutable, target } => match resolved(
            types,
            target,
            environment,
            fuel,
        ) {
            (types, None) => (types, None),
            (types, Some(target)) => types.raw_pointer(target, mutable, written.span),
        },
        TypeNameKind::Slice(_) => (
            types.report(
                helped(
                    "E3006",
                    words("slice types require a scoped reference in Reimer v0.1"),
                    "write `&[T]` or `&mut [T]` once references are enabled",
                    written.span,
                ),
            ),
            None,
        ),
        TypeNameKind::Path(path) => path_resolved(types, path, environment, written.span),
    }
}

/// The type of a path.
#[verifier::opaque]
pub open spec fn path_resolved<'a>(
    types: Types<'a>,
    path: Path<'a>,
    environment: Environment<'a>,
    span: Span,
) -> (Types<'a>, Option<Type>) {
    let ty = match lone_name(path) {
        Some(name) => types.named(environment, name@),
        None => None,
    };
    match ty {
        Some(ty) => (types, Some(ty)),
        None => {
            let is_template = match lone_name(path) {
                Some(name) => bound(types.generic_templates, name@) is Some,
                None => false,
            };
            let message = if is_template {
                framed(
                    "generic type `",
                    path_text(path.segments),
                    "` requires type or const arguments",
                )
            } else {
                framed("unknown type `", path_text(path.segments), "`")
            };
            (
                types.report(
                    helped(
                        "E3005",
                        message,
                        "declare the type or supply its generic arguments",
                        span,
                    ),
                ),
                None,
            )
        },
    }
}

/// The types that written types stand for, with packs expanded.
pub open spec fn sequence_resolved<'a>(
    types: Types<'a>,
    written: List<TypeName<'a>>,
    environment: Environment<'a>,
    fuel: nat,
) -> (Types<'a>, Option<List<Type>>)
    decreases fuel, 2nat, written,
{
    match written {
        List::Nil => (types, Some(List::Nil)),
        List::Cons(node) => {
            let (types, first) = match *node.head.kind {
                TypeNameKind::PackExpansion { pack, template } => match bound(
                    environment.type_packs,
                    pack.name@,
                ) {
                    None => (types.report(unknown_pack(pack.name, pack.span)), None),
                    Some(pack_types) => match template {
                        Some(template) => templates_resolved(
                            types,
                            template,
                            pack.name,
                            pack_types,
                            environment,
                            fuel,
                        ),
                        None => (types, Some(pack_types)),
                    },
                },
                _ => match resolved(types, node.head, environment, fuel) {
                    (types, Some(ty)) => (types, Some(cons(ty, List::Nil))),
                    (types, None) => (types, None),
                },
            };
            match first {
                None => (types, None),
                Some(first) => match sequence_resolved(types, node.tail, environment, fuel) {
                    (types, None) => (types, None),
                    (types, Some(rest)) => (types, Some(append(first, rest))),
                },
            }
        },
    }
}

/// What a template stands for with each type of a pack in turn.
pub open spec fn templates_resolved<'a>(
    types: Types<'a>,
    template: TypeName<'a>,
    name: &'a str,
    pack_types: List<Type>,
    environment: Environment<'a>,
    fuel: nat,
) -> (Types<'a>, Option<List<Type>>)
    decreases fuel, 1nat, pack_types,
{
    match pack_types {
        List::Nil => (types, Some(List::Nil)),
        List::Cons(node) => match resolved(
            types,
            template,
            environment.with_type(name, node.head),
            fuel,
        ) {
            (types, None) => (types, None),
            (types, Some(ty)) => match templates_resolved(
                types,
                template,
                name,
                node.tail,
                environment,
                fuel,
            ) {
                (types, None) => (types, None),
                (types, Some(rest)) => (types, Some(cons(ty, rest))),
            },
        },
    }
}

/// The one argument of `Option`.
pub open spec fn one_type_argument<'a>(arguments: List<GenericArgument<'a>>) -> Option<
    TypeName<'a>,
> {
    match arguments {
        List::Cons(node) => match node.head {
            GenericArgument::Type(ty) if node.tail is Nil => Some(ty),
            _ => None,
        },
        List::Nil => None,
    }
}

/// The two arguments of `Result`.
pub open spec fn two_type_arguments<'a>(arguments: List<GenericArgument<'a>>) -> Option<
    (TypeName<'a>, TypeName<'a>),
> {
    match arguments {
        List::Cons(first) => match (first.head, one_type_argument(first.tail)) {
            (GenericArgument::Type(success), Some(error)) => Some((success, error)),
            _ => None,
        },
        List::Nil => None,
    }
}

pub fn only_type_argument<'e, 'a>(arguments: &'e List<GenericArgument<'a>>) -> (ty: Option<
    &'e TypeName<'a>,
>)
    ensures
        match ty {
            Some(ty) => one_type_argument(*arguments) == Some(*ty),
            None => one_type_argument(*arguments) is None,
        },
{
    match arguments {
        List::Cons(node) => match &node.head {
            GenericArgument::Type(ty) => if node.tail.is_empty() {
                Some(ty)
            } else {
                None
            },
            _ => None,
        },
        List::Nil => None,
    }
}

fn pair_of_type_arguments<'e, 'a>(arguments: &'e List<GenericArgument<'a>>) -> (pair: Option<
    (&'e TypeName<'a>, &'e TypeName<'a>),
>)
    ensures
        match pair {
            Some((success, error)) => two_type_arguments(*arguments) == Some((*success, *error)),
            None => two_type_arguments(*arguments) is None,
        },
{
    match arguments {
        List::Cons(first) => match (&first.head, only_type_argument(&first.tail)) {
            (GenericArgument::Type(success), Some(error)) => Some((success, error)),
            _ => None,
        },
        List::Nil => None,
    }
}

/// The type of a path with generic arguments.
pub open spec fn generic_resolved<'a>(
    types: Types<'a>,
    path: Path<'a>,
    arguments: List<GenericArgument<'a>>,
    environment: Environment<'a>,
    span: Span,
    fuel: nat,
) -> (Types<'a>, Option<Type>)
    decreases fuel, 10nat, List::<Type>::Nil,
{
    match lone_name(path) {
        None => (
            types.report(
                error(
                    "E6003",
                    framed(
                        "generic type path `",
                        path_text(path.segments),
                        "` must resolve to one declared type",
                    ),
                    span,
                ),
            ),
            None,
        ),
        Some(name) => if name@ == "Option"@ && one_type_argument(arguments) is Some {
            match resolved(types, one_type_argument(arguments)->0, environment, fuel) {
                (types, None) => (types, None),
                (types, Some(value)) => types.option(value, span),
            }
        } else if name@ == "Result"@ && two_type_arguments(arguments) is Some {
            let (success, error) = two_type_arguments(arguments)->0;
            match resolved(types, success, environment, fuel) {
                (types, None) => (types, None),
                (types, Some(success)) => match resolved(types, error, environment, fuel) {
                    (types, None) => (types, None),
                    (types, Some(error)) => types.result(success, error, span),
                },
            }
        } else if name@ == "Option"@ || name@ == "Result"@ {
            (
                types.report(
                    error(
                        "E3007",
                        framed(
                            "invalid type argument count for `",
                            path_text(path.segments),
                            "`",
                        ),
                        span,
                    ),
                ),
                None,
            )
        } else {
            instantiated(types, name, arguments, environment, span, fuel)
        },
    }
}

/// The number of parameters that need an argument, or the largest
/// representable number if there are more.
#[verifier::opaque]
pub open spec fn required_count(parameters: List<GenericParameter>) -> u64
    decreases parameters,
{
    match parameters {
        List::Nil => 0,
        List::Cons(node) => {
            let rest = required_count(node.tail);
            if node.head is TypePack || has_default(node.head) || rest == u64::MAX {
                rest
            } else {
                (rest + 1) as u64
            }
        },
    }
}

fn count_required(parameters: &List<GenericParameter>) -> (count: u64)
    ensures
        count == required_count(*parameters),
{
    let mut ahead: &List<GenericParameter> = parameters;
    let mut count: u64 = 0;
    loop
        invariant
            required_count(*parameters) == count.saturating_add(required_count(*ahead)),
        decreases *ahead,
    {
        reveal(required_count);
        match ahead {
            List::Nil => {
                return count;
            },
            List::Cons(node) => {
                let is_pack = match &node.head {
                    GenericParameter::TypePack { .. } => true,
                    _ => false,
                };
                if !is_pack && !parameter_has_default(&node.head) {
                    count = count.saturating_add(1);
                }
                ahead = &node.tail;
            },
        }
    }
}

/// Whether a pack is among the parameters.
#[verifier::opaque]
pub open spec fn has_pack(parameters: List<GenericParameter>) -> bool
    decreases parameters,
{
    match parameters {
        List::Nil => false,
        List::Cons(node) => node.head is TypePack || has_pack(node.tail),
    }
}

fn contains_pack(parameters: &List<GenericParameter>) -> (answer: bool)
    ensures
        answer == has_pack(*parameters),
{
    let mut ahead: &List<GenericParameter> = parameters;
    loop
        invariant
            has_pack(*parameters) == has_pack(*ahead),
        decreases *ahead,
    {
        reveal(has_pack);
        match ahead {
            List::Nil => {
                return false;
            },
            List::Cons(node) => {
                if match &node.head {
                    GenericParameter::TypePack { .. } => true,
                    _ => false,
                } {
                    return true;
                }
                ahead = &node.tail;
            },
        }
    }
}

/// How many arguments a generic type takes, in words.
#[verifier::opaque]
pub open spec fn accepted_count<'a>(parameters: List<GenericParameter<'a>>) -> Text<'a> {
    if has_pack(parameters) {
        cons(Piece::Words("at least "), number(required_count(parameters) as u128))
    } else {
        cons(
            Piece::Words("between "),
            cons(
                Piece::Number(required_count(parameters) as u128),
                cons(Piece::Words(" and "), number(parameters.count() as u128)),
            ),
        )
    }
}

fn show_accepted_count<'a>(parameters: &List<GenericParameter<'a>>) -> (text: Text<'a>)
    ensures
        text == accepted_count(*parameters),
{
    reveal(accepted_count);
    if contains_pack(parameters) {
        cons(Piece::Words("at least "), number(count_required(parameters) as u128))
    } else {
        cons(
            Piece::Words("between "),
            cons(
                Piece::Number(count_required(parameters) as u128),
                cons(Piece::Words(" and "), number(parameters.count() as u128)),
            ),
        )
    }
}

/// The values of generic parameters and the bindings that they make, by the
/// arguments and then the defaults.
pub open spec fn arguments_bound<'a>(
    types: Types<'a>,
    parameters: List<GenericParameter<'a>>,
    arguments: List<GenericArgument<'a>>,
    outer: Environment<'a>,
    span: Span,
    fuel: nat,
) -> (Types<'a>, Option<(List<GenericValue>, Environment<'a>)>)
    decreases fuel, 7nat, List::<Type>::Nil,
{
    if arguments.count() < required_count(parameters) || (!has_pack(parameters)
        && arguments.count() > parameters.count()) {
        (
            types.report(
                error(
                    "E6003",
                    cons(
                        Piece::Words("generic type expects "),
                        append(
                            accepted_count(parameters),
                            cons(
                                Piece::Words(" argument(s), but "),
                                cons(
                                    Piece::Number(arguments.count() as u128),
                                    words(" were provided"),
                                ),
                            ),
                        ),
                    ),
                    span,
                ),
            ),
            None,
        )
    } else {
        match argument_values(types, arguments, outer, fuel) {
            (types, None) => (types, None),
            (types, Some(supplied)) => parameters_bound(
                types,
                parameters,
                supplied,
                outer,
                span,
                fuel,
            ),
        }
    }
}

/// The values of generic arguments, with packs expanded.
pub open spec fn argument_values<'a>(
    types: Types<'a>,
    arguments: List<GenericArgument<'a>>,
    environment: Environment<'a>,
    fuel: nat,
) -> (Types<'a>, Option<List<GenericValue>>)
    decreases fuel, 3nat, arguments,
{
    match arguments {
        List::Nil => (types, Some(List::Nil)),
        List::Cons(node) => {
            let (types, first) = match node.head {
                GenericArgument::Type(ty) => match constant_argument(ty, environment) {
                    Some(value) => (types, Some(cons(GenericValue::Const(value), List::Nil))),
                    None => match resolved(types, ty, environment, fuel) {
                        (types, Some(ty)) => (
                            types,
                            Some(cons(GenericValue::Type(ty), List::Nil)),
                        ),
                        (types, None) => (types, None),
                    },
                },
                GenericArgument::Const(value) => match length_resolved(types, value, environment) {
                    (types, Some(value)) => (
                        types,
                        Some(cons(GenericValue::Const(value), List::Nil)),
                    ),
                    (types, None) => (types, None),
                },
                GenericArgument::Pack { pack, template, .. } => match bound(
                    environment.type_packs,
                    pack.name@,
                ) {
                    None => (types.report(unknown_pack(pack.name, pack.span)), None),
                    Some(pack_types) => match template {
                        Some(template) => match templates_resolved(
                            types,
                            template,
                            pack.name,
                            pack_types,
                            environment,
                            fuel,
                        ) {
                            (types, Some(found)) => (types, Some(type_values(found))),
                            (types, None) => (types, None),
                        },
                        None => (types, Some(type_values(pack_types))),
                    },
                },
            };
            match first {
                None => (types, None),
                Some(first) => match argument_values(types, node.tail, environment, fuel) {
                    (types, None) => (types, None),
                    (types, Some(rest)) => (types, Some(append(first, rest))),
                },
            }
        },
    }
}

/// The types among values, if all of them are types.
#[verifier::opaque]
pub open spec fn only_types(values: List<GenericValue>) -> Option<List<Type>>
    decreases values,
{
    match values {
        List::Nil => Some(List::Nil),
        List::Cons(node) => match (node.head, only_types(node.tail)) {
            (GenericValue::Type(ty), Some(rest)) => Some(cons(ty, rest)),
            _ => None,
        },
    }
}

/// The types among values, if all of them are types.
pub fn collect_only_types(values: &List<GenericValue>) -> (types: Option<List<Type>>)
    ensures
        types == only_types(*values),
{
    let mut ahead: &List<GenericValue> = values;
    let mut done: Vec<Type> = Vec::new();
    loop
        invariant
            only_types(*values) == prepended_if_any(done@, only_types(*ahead)),
        decreases *ahead,
    {
        reveal(only_types);
        match ahead {
            List::Nil => {
                return Some(prepend(done, List::Nil));
            },
            List::Cons(node) => {
                match node.head {
                    GenericValue::Type(ty) => {
                        done.push(ty);
                        ahead = &node.tail;
                    },
                    _ => {
                        return None;
                    },
                }
            },
        }
    }
}

/// The values of generic parameters and the bindings that they make, by the
/// supplied values and then the defaults. A pack takes all values that are
/// left.
pub open spec fn parameters_bound<'a>(
    types: Types<'a>,
    parameters: List<GenericParameter<'a>>,
    supplied: List<GenericValue>,
    environment: Environment<'a>,
    span: Span,
    fuel: nat,
) -> (Types<'a>, Option<(List<GenericValue>, Environment<'a>)>)
    decreases fuel, 4nat, parameters,
{
    match parameters {
        List::Nil => (types, Some((List::Nil, environment))),
        List::Cons(node) => match node.head {
            GenericParameter::Type { name, default, .. } => {
                let (types, ty, supplied) = match supplied {
                    List::Cons(value) => match value.head {
                        GenericValue::Type(ty) => (types, Some(ty), value.tail),
                        GenericValue::Const(_) => (
                            types.report(
                                error(
                                    "E6003",
                                    words3(
                                        "type parameter `",
                                        name.name,
                                        "` received a const argument",
                                    ),
                                    span,
                                ),
                            ),
                            None,
                            supplied,
                        ),
                    },
                    List::Nil => match default {
                        Some(default) => {
                            let (types, ty) = resolved(types, default, environment, fuel);
                            (types, ty, supplied)
                        },
                        None => (types, None, supplied),
                    },
                };
                match ty {
                    None => (types, None),
                    Some(ty) => match parameters_bound(
                        types,
                        node.tail,
                        supplied,
                        environment.with_type(name.name, ty),
                        span,
                        fuel,
                    ) {
                        (types, Some((values, environment))) => (
                            types,
                            Some((cons(GenericValue::Type(ty), values), environment)),
                        ),
                        (types, None) => (types, None),
                    },
                }
            },
            GenericParameter::TypePack { name, .. } => match only_types(supplied) {
                None => (
                    types.report(
                        helped(
                            "E6020",
                            words3("type pack `", name.name, "` received a const argument"),
                            "type packs accept only type arguments",
                            span,
                        ),
                    ),
                    None,
                ),
                Some(pack_types) => match parameters_bound(
                    types,
                    node.tail,
                    List::Nil,
                    environment.with_pack(name.name, pack_types),
                    span,
                    fuel,
                ) {
                    (types, Some((values, environment))) => (
                        types,
                        Some((append(supplied, values), environment)),
                    ),
                    (types, None) => (types, None),
                },
            },
            GenericParameter::Const { name, default, .. } => {
                let (types, value, supplied) = match supplied {
                    List::Cons(first) => match first.head {
                        GenericValue::Const(value) => (types, Some(value), first.tail),
                        GenericValue::Type(_) => (
                            types.report(
                                error(
                                    "E6003",
                                    words3(
                                        "const parameter `",
                                        name.name,
                                        "` received a type argument",
                                    ),
                                    span,
                                ),
                            ),
                            None,
                            supplied,
                        ),
                    },
                    List::Nil => match default {
                        Some(default) => {
                            let (types, value) = length_resolved(types, default, environment);
                            (types, value, supplied)
                        },
                        None => (types, None, supplied),
                    },
                };
                match value {
                    None => (types, None),
                    Some(value) => match parameters_bound(
                        types,
                        node.tail,
                        supplied,
                        environment.with_constant(name.name, value),
                        span,
                        fuel,
                    ) {
                        (types, Some((values, environment))) => (
                            types,
                            Some((cons(GenericValue::Const(value), values), environment)),
                        ),
                        (types, None) => (types, None),
                    },
                }
            },
        },
    }
}

/// Whether a type satisfies one bound, and the types with the problem if it
/// does not.
#[verifier::opaque]
pub open spec fn bound_checked<'a>(
    types: Types<'a>,
    ty: Type,
    path: Path<'a>,
    span: Span,
) -> (Types<'a>, bool) {
    match lone_name(path) {
        None => (
            types.report(error("E6014", words("trait bound must resolve to one trait"), path.span)),
            false,
        ),
        Some(name) => if !names_builtin_trait(name@) && bound(types.traits, name@) is None {
            (
                types.report(
                    error("E6014", words3("unknown trait bound `", name, "`"), path.span),
                ),
                false,
            )
        } else if types.meets(ty, name@) {
            (types, true)
        } else {
            (
                types.report(
                    helped(
                        "E6014",
                        cons(
                            Piece::Words("type `"),
                            append(
                                ty.text(),
                                words3("` does not satisfy trait bound `", name, "`"),
                            ),
                        ),
                        "add a matching trait implementation or use a compatible type",
                        span,
                    ),
                ),
                false,
            )
        },
    }
}

/// Whether a type satisfies every bound, and the types with the problems.
#[verifier::opaque]
pub open spec fn type_bounds_checked<'a>(
    types: Types<'a>,
    ty: Type,
    bounds: List<Path<'a>>,
    span: Span,
) -> (Types<'a>, bool)
    decreases bounds,
{
    match bounds {
        List::Nil => (types, true),
        List::Cons(node) => {
            let (types, first) = bound_checked(types, ty, node.head, span);
            let (types, rest) = type_bounds_checked(types, ty, node.tail, span);
            (types, first && rest)
        },
    }
}

/// Whether all the types satisfy every bound, and the types with the problems.
#[verifier::opaque]
pub open spec fn pack_bounds_checked<'a>(
    types: Types<'a>,
    list: List<Type>,
    bounds: List<Path<'a>>,
    span: Span,
) -> (Types<'a>, bool)
    decreases list,
{
    match list {
        List::Nil => (types, true),
        List::Cons(node) => {
            let (types, first) = type_bounds_checked(types, node.head, bounds, span);
            let (types, rest) = pack_bounds_checked(types, node.tail, bounds, span);
            (types, first && rest)
        },
    }
}

/// Whether what the parameters stand for satisfies their bounds, and the types
/// with the problems.
#[verifier::opaque]
pub open spec fn parameter_bounds_checked<'a>(
    types: Types<'a>,
    parameters: List<GenericParameter<'a>>,
    environment: Environment<'a>,
    span: Span,
) -> (Types<'a>, bool)
    decreases parameters,
{
    match parameters {
        List::Nil => (types, true),
        List::Cons(node) => {
            let (types, first) = match node.head {
                GenericParameter::Type { name, bounds, .. } => match bound(
                    environment.types,
                    name.name@,
                ) {
                    Some(ty) => type_bounds_checked(types, ty, bounds, span),
                    None => (types, true),
                },
                GenericParameter::TypePack { name, bounds, .. } => match bound(
                    environment.type_packs,
                    name.name@,
                ) {
                    Some(list) => pack_bounds_checked(types, list, bounds, span),
                    None => (types, true),
                },
                GenericParameter::Const { .. } => (types, true),
            };
            let (types, rest) = parameter_bounds_checked(types, node.tail, environment, span);
            (types, first && rest)
        },
    }
}

/// Whether what a template stands for with each type of a pack satisfies every
/// bound, and the types with the problems.
pub open spec fn template_bounds_checked<'a>(
    types: Types<'a>,
    template: TypeName<'a>,
    name: &'a str,
    pack_types: List<Type>,
    bounds: List<Path<'a>>,
    environment: Environment<'a>,
    span: Span,
    fuel: nat,
) -> (Types<'a>, bool)
    decreases fuel, 1nat, pack_types,
{
    match pack_types {
        List::Nil => (types, true),
        List::Cons(node) => {
            let (types, first) = match resolved(
                types,
                template,
                environment.with_type(name, node.head),
                fuel,
            ) {
                (types, Some(ty)) => type_bounds_checked(types, ty, bounds, span),
                (types, None) => (types, false),
            };
            let (types, rest) = template_bounds_checked(
                types,
                template,
                name,
                node.tail,
                bounds,
                environment,
                span,
                fuel,
            );
            (types, first && rest)
        },
    }
}

/// Whether the subjects of a `where` clause satisfy their bounds, and the
/// types with the problems.
pub open spec fn predicates_checked<'a>(
    types: Types<'a>,
    predicates: List<WherePredicate<'a>>,
    environment: Environment<'a>,
    fuel: nat,
) -> (Types<'a>, bool)
    decreases fuel, 5nat, predicates,
{
    match predicates {
        List::Nil => (types, true),
        List::Cons(node) => {
            let predicate = node.head;
            let (types, first) = match *predicate.ty.kind {
                TypeNameKind::PackExpansion { pack, template } => match bound(
                    environment.type_packs,
                    pack.name@,
                ) {
                    None => (
                        types.report(
                            error(
                                "E6020",
                                words3("unknown type pack `", pack.name, "`"),
                                pack.span,
                            ),
                        ),
                        false,
                    ),
                    Some(pack_types) => match template {
                        Some(template) => template_bounds_checked(
                            types,
                            template,
                            pack.name,
                            pack_types,
                            predicate.bounds,
                            environment,
                            predicate.span,
                            fuel,
                        ),
                        None => pack_bounds_checked(
                            types,
                            pack_types,
                            predicate.bounds,
                            predicate.span,
                        ),
                    },
                },
                _ => match resolved(types, predicate.ty, environment, fuel) {
                    (types, Some(ty)) => type_bounds_checked(
                        types,
                        ty,
                        predicate.bounds,
                        predicate.span,
                    ),
                    (types, None) => (types, false),
                },
            };
            let (types, rest) = predicates_checked(types, node.tail, environment, fuel);
            (types, first && rest)
        },
    }
}

/// Whether the bounds of a generic declaration hold, and the types with the
/// problems.
pub open spec fn bounds_checked<'a>(
    types: Types<'a>,
    parameters: List<GenericParameter<'a>>,
    predicates: List<WherePredicate<'a>>,
    environment: Environment<'a>,
    span: Span,
    fuel: nat,
) -> (Types<'a>, bool)
    decreases fuel, 6nat, List::<Type>::Nil,
{
    let (types, first) = parameter_bounds_checked(types, parameters, environment, span);
    let (types, rest) = predicates_checked(types, predicates, environment, fuel);
    (types, first && rest)
}

/// The text of one generic value: the name of a declared type, else the type,
/// or the number.
pub open spec fn value_text<'a>(types: Types<'a>, value: GenericValue) -> Text<'a> {
    match value {
        GenericValue::Type(ty) => match types.definition(ty) {
            Some(definition) => match definition.name {
                Some(name) => name,
                None => ty.text(),
            },
            None => ty.text(),
        },
        GenericValue::Const(value) => number(value as u128),
    }
}

/// The texts of generic values, separated by commas.
#[verifier::opaque]
pub open spec fn values_text<'a>(types: Types<'a>, values: List<GenericValue>) -> Text<'a>
    decreases values,
{
    match values {
        List::Nil => List::Nil,
        List::Cons(node) => if node.tail is Nil {
            value_text(types, node.head)
        } else {
            append(
                value_text(types, node.head),
                cons(Piece::Words(", "), values_text(types, node.tail)),
            )
        },
    }
}

/// The name of a generic type with its arguments.
#[verifier::opaque]
pub open spec fn instance_name<'a>(
    types: Types<'a>,
    name: &'a str,
    values: List<GenericValue>,
) -> Text<'a> {
    cons(Piece::Words(name), framed("<", values_text(types, values), ">"))
}

/// Whether any of the values is a scoped type.
#[verifier::opaque]
pub open spec fn any_value_scoped(types: Types, values: List<GenericValue>) -> bool
    decreases values,
{
    match values {
        List::Nil => false,
        List::Cons(node) => (match node.head {
            GenericValue::Type(ty) => types.is_scoped(ty),
            GenericValue::Const(_) => false,
        }) || any_value_scoped(types, node.tail),
    }
}

/// The type, unless it hides a scoped type that went into it.
#[verifier::opaque]
pub open spec fn unhidden<'a>(
    types: Types<'a>,
    values: List<GenericValue>,
    ty: Type,
    span: Span,
) -> (Types<'a>, Option<Type>) {
    if any_value_scoped(types, values) && !types.is_scoped(ty) {
        (types.report(scoped_storage_diagnostic(span)), None)
    } else {
        (types, Some(ty))
    }
}

/// The types with an empty definition for an instance of a generic type, and
/// the new type.
#[verifier::opaque]
pub open spec fn reserved<'a>(
    types: Types<'a>,
    name: &'a str,
    template: GenericTypeTemplate<'a>,
    values: List<GenericValue>,
    span: Span,
) -> (Types<'a>, Option<(Type, TypeId)>) {
    let kind = match template {
        GenericTypeTemplate::Struct(_) => TypeDefinitionKind::Struct { fields: List::Nil },
        GenericTypeTemplate::Enum(_) => TypeDefinitionKind::Enum { variants: List::Nil },
    };
    match types.defined(
        Some(instance_name(types, name, values)),
        kind,
        template.declared_at(),
    ) {
        (types, None) => (types.report(spec_too_many_types(span)), None),
        (types, Some(id)) => {
            let ty = match template {
                GenericTypeTemplate::Struct(_) => Type::Struct(id),
                GenericTypeTemplate::Enum(_) => Type::Enum(id),
            };
            (
                Types {
                    generic_instances: cons(
                        GenericTypeInstance { base_name: name, arguments: values, ty },
                        types.generic_instances,
                    ),
                    ..types
                },
                Some((ty, id)),
            )
        },
    }
}

/// The annotations of a generic declaration.
pub open spec fn template_attributes<'a>(template: GenericTypeTemplate<'a>) -> List<
    Attribute<'a>,
> {
    match template {
        GenericTypeTemplate::Struct(declaration) => declaration.attributes,
        GenericTypeTemplate::Enum(declaration) => declaration.attributes,
    }
}

/// The `where` clause of a generic declaration.
pub open spec fn template_predicates<'a>(template: GenericTypeTemplate<'a>) -> List<
    WherePredicate<'a>,
> {
    match template {
        GenericTypeTemplate::Struct(declaration) => declaration.where_predicates,
        GenericTypeTemplate::Enum(declaration) => declaration.where_predicates,
    }
}

/// The representation that a generic declaration asks for.
pub open spec fn template_representation(template: GenericTypeTemplate) -> TypeRepresentation {
    match template {
        GenericTypeTemplate::Struct(declaration) => if annotated_with(
            declaration.attributes,
            "repr"@,
            "C"@,
        ) {
            TypeRepresentation::C
        } else {
            TypeRepresentation::Native
        },
        GenericTypeTemplate::Enum(_) => TypeRepresentation::Native,
    }
}

/// The types with a definition filled in.
#[verifier::opaque]
pub open spec fn filled<'a>(
    types: Types<'a>,
    id: TypeId,
    template: GenericTypeTemplate<'a>,
    kind: TypeDefinitionKind<'a>,
) -> Types<'a> {
    if id.0 < types.definitions.len() {
        let attributes = template_attributes(template);
        let definition = TypeDefinition {
            representation: template_representation(template),
            alignment: alignment_request(attributes),
            derives: derived_by(attributes),
            marker_traits: markers_of_attributes(List::Nil, attributes),
            must_use: marked(attributes, "must_use"@),
            kind,
            ..types.definitions[id.0 as int]
        };
        Types { definitions: types.definitions.update(id.0 as int, definition), ..types }
    } else {
        types
    }
}

/// The types with a new definition for a declaration, without fields or
/// variants yet, and its position; none if there is no position left.
#[verifier::opaque]
pub open spec fn declared<'a>(
    types: Types<'a>,
    name: Text<'a>,
    template: GenericTypeTemplate<'a>,
) -> (Types<'a>, Option<TypeId>) {
    let kind = empty_kind(template);
    match types.defined(Some(name), kind, template.declared_at()) {
        (types, None) => (types, None),
        (types, Some(id)) => (filled(types, id, template, kind), Some(id)),
    }
}

/// The kind of a declaration whose fields or variants are not known yet.
pub open spec fn empty_kind<'a>(template: GenericTypeTemplate<'a>) -> TypeDefinitionKind<'a> {
    match template {
        GenericTypeTemplate::Struct(_) => TypeDefinitionKind::Struct { fields: List::Nil },
        GenericTypeTemplate::Enum(_) => TypeDefinitionKind::Enum { variants: List::Nil },
    }
}

/// The types with the definition of a reserved instance completed, and the
/// type.
pub open spec fn completed<'a>(
    types: Types<'a>,
    ty: Type,
    id: TypeId,
    template: GenericTypeTemplate<'a>,
    values: List<GenericValue>,
    environment: Environment<'a>,
    span: Span,
    fuel: nat,
) -> (Types<'a>, Option<Type>)
    decreases fuel, 6nat, List::<Type>::Nil,
{
    let (types, kind) = match template {
        GenericTypeTemplate::Struct(declaration) => {
            let (types, fields) = fields_resolved(
                types,
                declaration.fields,
                environment,
                List::Nil,
                fuel,
            );
            (types, TypeDefinitionKind::Struct { fields })
        },
        GenericTypeTemplate::Enum(declaration) => {
            let (types, variants) = variants_resolved(
                types,
                declaration.variants,
                environment,
                List::Nil,
                fuel,
            );
            (types, TypeDefinitionKind::Enum { variants })
        },
    };
    unhidden(derives_checked(filled(types, id, template, kind), ty), values, ty, span)
}

/// The type that a generic type makes of the values of its parameters.
pub open spec fn instance_of<'a>(
    types: Types<'a>,
    name: &'a str,
    template: GenericTypeTemplate<'a>,
    values: List<GenericValue>,
    environment: Environment<'a>,
    span: Span,
    fuel: nat,
) -> (Types<'a>, Option<Type>)
    decreases fuel, 7nat, List::<Type>::Nil,
{
    match known_instance(types.generic_instances, name@, values) {
        Some(ty) => unhidden(types, values, ty, span),
        None => match reserved(types, name, template, values, span) {
            (types, None) => (types, None),
            (types, Some((ty, id))) => completed(
                types,
                ty,
                id,
                template,
                values,
                environment,
                span,
                fuel,
            ),
        },
    }
}

/// The type that a generic type makes of the values of its parameters, if
/// they satisfy the bounds.
pub open spec fn checked_instance<'a>(
    types: Types<'a>,
    name: &'a str,
    template: GenericTypeTemplate<'a>,
    values: List<GenericValue>,
    environment: Environment<'a>,
    span: Span,
    fuel: nat,
) -> (Types<'a>, Option<Type>)
    decreases fuel, 8nat, List::<Type>::Nil,
{
    match bounds_checked(
        types,
        template.parameter_list(),
        template_predicates(template),
        environment,
        span,
        fuel,
    ) {
        (types, false) => (types, None),
        (types, true) => instance_of(types, name, template, values, environment, span, fuel),
    }
}

/// The type that a generic type makes of its arguments. It is registered
/// before its fields are resolved, so that they may lead back to it.
pub open spec fn instantiated<'a>(
    types: Types<'a>,
    name: &'a str,
    arguments: List<GenericArgument<'a>>,
    outer: Environment<'a>,
    span: Span,
    fuel: nat,
) -> (Types<'a>, Option<Type>)
    decreases fuel, 9nat, List::<Type>::Nil,
{
    match bound(types.generic_templates, name@) {
        None => (
            types.report(
                helped(
                    "E6003",
                    words3("unknown generic type `", name, "`"),
                    "declare the generic struct or enum before using it",
                    span,
                ),
            ),
            None,
        ),
        Some(template) => match arguments_bound(
            types,
            template.parameter_list(),
            arguments,
            outer,
            span,
            fuel,
        ) {
            (types, None) => (types, None),
            (types, Some((values, environment))) => checked_instance(
                types,
                name,
                template,
                values,
                environment,
                span,
                fuel,
            ),
        },
    }
}

/// The fields of a declaration. Fields whose type cannot be resolved are left
/// out.
pub open spec fn fields_resolved<'a>(
    types: Types<'a>,
    fields: List<StructField<'a>>,
    environment: Environment<'a>,
    seen: List<&'a str>,
    fuel: nat,
) -> (Types<'a>, List<TypeField<'a>>)
    decreases fuel, 4nat, fields,
{
    match fields {
        List::Nil => (types, List::Nil),
        List::Cons(node) => {
            let field = node.head;
            let types = if listed(seen, field.name.name@) {
                types.report(
                    error(
                        "E3010",
                        words3("field `", field.name.name, "` is declared more than once"),
                        field.name.span,
                    ),
                )
            } else {
                types
            };
            let (types, ty) = resolved(types, field.ty, environment, fuel);
            let (types, rest) = fields_resolved(
                types,
                node.tail,
                environment,
                cons(field.name.name, seen),
                fuel,
            );
            match ty {
                Some(ty) => (
                    types,
                    cons(
                        TypeField {
                            name: field.name.name,
                            is_public: field.is_public,
                            ty,
                            span: field.span,
                        },
                        rest,
                    ),
                ),
                None => (types, rest),
            }
        },
    }
}

/// The types that can be resolved among written types.
pub open spec fn present_types<'a>(
    types: Types<'a>,
    written: List<TypeName<'a>>,
    environment: Environment<'a>,
    fuel: nat,
) -> (Types<'a>, List<Type>)
    decreases fuel, 3nat, written,
{
    match written {
        List::Nil => (types, List::Nil),
        List::Cons(node) => {
            let (types, ty) = resolved(types, node.head, environment, fuel);
            let (types, rest) = present_types(types, node.tail, environment, fuel);
            match ty {
                Some(ty) => (types, cons(ty, rest)),
                None => (types, rest),
            }
        },
    }
}

/// The variants of a declaration.
pub open spec fn variants_resolved<'a>(
    types: Types<'a>,
    variants: List<AstVariant<'a>>,
    environment: Environment<'a>,
    seen: List<&'a str>,
    fuel: nat,
) -> (Types<'a>, List<EnumVariant<'a>>)
    decreases fuel, 5nat, variants,
{
    match variants {
        List::Nil => (types, List::Nil),
        List::Cons(node) => {
            let variant = node.head;
            let types = if listed(seen, variant.name.name@) {
                types.report(
                    error(
                        "E3009",
                        words3(
                            "enum variant `",
                            variant.name.name,
                            "` is declared more than once",
                        ),
                        variant.name.span,
                    ),
                )
            } else {
                types
            };
            let (types, fields) = match variant.payload {
                EnumVariantPayload::Unit => (types, EnumVariantFields::Unit),
                EnumVariantPayload::Tuple(list) => {
                    let (types, list) = present_types(types, list, environment, fuel);
                    (types, EnumVariantFields::Tuple(list))
                },
                EnumVariantPayload::Struct(fields) => {
                    let (types, fields) = fields_resolved(
                        types,
                        fields,
                        environment,
                        List::Nil,
                        fuel,
                    );
                    (types, EnumVariantFields::Struct(fields))
                },
            };
            let (types, rest) = variants_resolved(
                types,
                node.tail,
                environment,
                cons(variant.name.name, seen),
                fuel,
            );
            (types, cons(EnumVariant { name: variant.name.name, fields, span: variant.span }, rest))
        },
    }
}

impl<'a> TypeRegistry<'a> {
    pub(crate) fn resolve_length(
        &mut self,
        length: &crate::ast::Expression<'a>,
        environment: &Environment<'a>,
    ) -> (value: Option<u64>)
        ensures
            (final(self)@, value) == length_resolved(old(self)@, *length, *environment),
            old(self)@.grows_into(final(self)@),
    {
        reveal(Types::grows_into);
        reveal(length_resolved);
        evaluate_array_length_in(length, &environment.constants, &mut self.problems)
    }

    /// The type that a written type stands for outside of any generic
    /// declaration.
    pub fn resolve_type_name(&mut self, written: &TypeName<'a>) -> (ty: Option<Type>)
        ensures
            (final(self)@, ty) == resolved(
                old(self)@,
                *written,
                old(self)@.base_environment(),
                LIMIT as nat,
            ),
            old(self)@.grows_into(final(self)@),
    {
        let environment = self.base_environment();
        self.resolve_within(written, &environment, LIMIT)
    }

    /// The type that a written type stands for.
    pub fn resolve_type_name_in(
        &mut self,
        written: &TypeName<'a>,
        environment: &Environment<'a>,
    ) -> (ty: Option<Type>)
        ensures
            (final(self)@, ty) == resolved(old(self)@, *written, *environment, LIMIT as nat),
            old(self)@.grows_into(final(self)@),
    {
        self.resolve_within(written, environment, LIMIT)
    }

    fn resolve_within(
        &mut self,
        written: &TypeName<'a>,
        environment: &Environment<'a>,
        fuel: u32,
    ) -> (ty: Option<Type>)
        ensures
            (final(self)@, ty) == resolved(old(self)@, *written, *environment, fuel as nat),
            old(self)@.grows_into(final(self)@),
        decreases fuel, 0nat, List::<Type>::Nil,
    {
        if fuel == 0 {
            self.report(nested_too_deeply(written.span));
            return None;
        }
        self.resolve_kind(written, environment, fuel - 1)
    }

    fn resolve_kind(
        &mut self,
        written: &TypeName<'a>,
        environment: &Environment<'a>,
        fuel: u32,
    ) -> (ty: Option<Type>)
        ensures
            (final(self)@, ty) == kind_resolved(old(self)@, *written, *environment, fuel as nat),
            old(self)@.grows_into(final(self)@),
        decreases fuel, 11nat, List::<Type>::Nil,
    {
        match &*written.kind {
            TypeNameKind::Function { parameters, return_type } => {
                let parameters = match self.resolve_type_sequence(parameters, environment, fuel) {
                    Some(parameters) => parameters,
                    None => {
                        return None;
                    },
                };
                let return_type = match self.resolve_within(return_type, environment, fuel) {
                    Some(return_type) => return_type,
                    None => {
                        return None;
                    },
                };
                self.intern_function(parameters, return_type, written.span)
            },
            TypeNameKind::Unit => Some(Type::Unit),
            TypeNameKind::Generic { path, arguments } => self.resolve_generic_type_name(
                path,
                arguments,
                environment,
                written.span,
                fuel,
            ),
            TypeNameKind::Tuple(elements) => match self.resolve_type_sequence(
                elements,
                environment,
                fuel,
            ) {
                Some(elements) => self.intern_tuple(elements, written.span),
                None => None,
            },
            TypeNameKind::PackExpansion { .. } => {
                self.report(
                    helped(
                        "E6020",
                        words(
                            "a type pack can only expand inside a tuple, function type, or generic argument list",
                        ),
                        "wrap the expansion in a type list such as `(...Types)`",
                        written.span,
                    ),
                );
                None
            },
            TypeNameKind::Array { element, length } => {
                let element = match self.resolve_within(element, environment, fuel) {
                    Some(element) => element,
                    None => {
                        return None;
                    },
                };
                match self.resolve_length(length, environment) {
                    Some(length) => self.intern_array(element, length, written.span),
                    None => None,
                }
            },
            TypeNameKind::Reference { mutable, target } => match &*target.kind {
                TypeNameKind::Slice(element) => match self.resolve_within(
                    element,
                    environment,
                    fuel,
                ) {
                    Some(element) => self.intern_slice(element, *mutable, written.span),
                    None => None,
                },
                _ => match self.resolve_within(target, environment, fuel) {
                    Some(target) => self.intern_reference(target, *mutable, written.span),
                    None => None,
                },
            },
            TypeNameKind::RawPointer { mutable, target } => match self.resolve_within(
                target,
                environment,
                fuel,
            ) {
                Some(target) => self.intern_raw_pointer(target, *mutable, written.span),
                None => None,
            },
            TypeNameKind::Slice(_) => {
                self.report(
                    helped(
                        "E3006",
                        words("slice types require a scoped reference in Reimer v0.1"),
                        "write `&[T]` or `&mut [T]` once references are enabled",
                        written.span,
                    ),
                );
                None
            },
            TypeNameKind::Path(path) => self.resolve_path(path, environment, written.span),
        }
    }

    fn resolve_path(
        &mut self,
        path: &Path<'a>,
        environment: &Environment<'a>,
        span: Span,
    ) -> (ty: Option<Type>)
        ensures
            (final(self)@, ty) == path_resolved(old(self)@, *path, *environment, span),
            old(self)@.grows_into(final(self)@),
    {
        reveal(path_resolved);
        let ty = match single_path_name(path) {
            Some(name) => self.find_named(environment, name),
            None => None,
        };
        if ty.is_some() {
            return ty;
        }
        let is_template = match single_path_name(path) {
            Some(name) => find(&self.generic_templates, name).is_some(),
            None => false,
        };
        let message = if is_template {
            frame("generic type `", &path.display(), "` requires type or const arguments")
        } else {
            frame("unknown type `", &path.display(), "`")
        };
        self.report(
            helped("E3005", message, "declare the type or supply its generic arguments", span),
        );
        None
    }

    fn resolve_type_sequence(
        &mut self,
        written: &List<TypeName<'a>>,
        environment: &Environment<'a>,
        fuel: u32,
    ) -> (types: Option<List<Type>>)
        ensures
            (final(self)@, types) == sequence_resolved(
                old(self)@,
                *written,
                *environment,
                fuel as nat,
            ),
            old(self)@.grows_into(final(self)@),
        decreases fuel, 2nat, *written,
    {
        let mut ahead: &List<TypeName<'a>> = written;
        let mut done: Vec<Type> = Vec::new();
        loop
            invariant
                sequence_resolved(old(self)@, *written, *environment, fuel as nat) == {
                    let (state, rest) = sequence_resolved(self@, *ahead, *environment, fuel as nat);
                    (state, prepended_if_any(done@, rest))
                },
                old(self)@.grows_into(self@),
            decreases *ahead,
        {
            match ahead {
                List::Nil => {
                    return Some(prepend(done, List::Nil));
                },
                List::Cons(node) => {
                    let first = match &*node.head.kind {
                        TypeNameKind::PackExpansion { pack, template } => match find(
                            &environment.type_packs,
                            pack.name,
                        ) {
                            None => {
                                self.report(unknown_pack(pack.name, pack.span));
                                None
                            },
                            Some(pack_types) => match template {
                                Some(template) => self.resolve_templates(
                                    template,
                                    pack.name,
                                    pack_types,
                                    environment,
                                    fuel,
                                ),
                                None => Some(pack_types.share()),
                            },
                        },
                        _ => match self.resolve_within(&node.head, environment, fuel) {
                            Some(ty) => Some(cons(ty, List::Nil)),
                            None => None,
                        },
                    };
                    match first {
                        None => {
                            return None;
                        },
                        Some(first) => {
                            extend(&mut done, &first);
                            ahead = &node.tail;
                        },
                    }
                },
            }
        }
    }

    fn resolve_templates(
        &mut self,
        template: &TypeName<'a>,
        name: &'a str,
        pack_types: &List<Type>,
        environment: &Environment<'a>,
        fuel: u32,
    ) -> (types: Option<List<Type>>)
        ensures
            (final(self)@, types) == templates_resolved(
                old(self)@,
                *template,
                name,
                *pack_types,
                *environment,
                fuel as nat,
            ),
            old(self)@.grows_into(final(self)@),
        decreases fuel, 1nat, *pack_types,
    {
        let mut ahead: &List<Type> = pack_types;
        let mut done: Vec<Type> = Vec::new();
        loop
            invariant
                templates_resolved(
                                old(self)@,
                                *template,
                                name,
                                *pack_types,
                                *environment,
                                fuel as nat,
                            ) == {
                    let (state, rest) = templates_resolved(
                                self@,
                                *template,
                                name,
                                *ahead,
                                *environment,
                                fuel as nat,
                            );
                    (state, prepended_if_any(done@, rest))
                },
                old(self)@.grows_into(self@),
            decreases *ahead,
        {
            match ahead {
                List::Nil => {
                    return Some(prepend(done, List::Nil));
                },
                List::Cons(node) => {
                    let inner = environment.and_type(name, node.head);
                    match self.resolve_within(template, &inner, fuel) {
                        None => {
                            return None;
                        },
                        Some(ty) => {
                            done.push(ty);
                            ahead = &node.tail;
                        },
                    }
                },
            }
        }
    }

    fn resolve_generic_type_name(
        &mut self,
        path: &Path<'a>,
        arguments: &List<GenericArgument<'a>>,
        environment: &Environment<'a>,
        span: Span,
        fuel: u32,
    ) -> (ty: Option<Type>)
        ensures
            (final(self)@, ty) == generic_resolved(
                old(self)@,
                *path,
                *arguments,
                *environment,
                span,
                fuel as nat,
            ),
            old(self)@.grows_into(final(self)@),
        decreases fuel, 10nat, List::<Type>::Nil,
    {
        let name = match single_path_name(path) {
            Some(name) => name,
            None => {
                self.report(
                    error(
                        "E6003",
                        frame(
                            "generic type path `",
                            &path.display(),
                            "` must resolve to one declared type",
                        ),
                        span,
                    ),
                );
                return None;
            },
        };
        if same(name, "Option") {
            if let Some(value) = only_type_argument(arguments) {
                return match self.resolve_within(value, environment, fuel) {
                    Some(value) => self.intern_option(value, span),
                    None => None,
                };
            }
        }
        if same(name, "Result") {
            if let Some((success, error)) = pair_of_type_arguments(arguments) {
                let success = match self.resolve_within(success, environment, fuel) {
                    Some(success) => success,
                    None => {
                        return None;
                    },
                };
                return match self.resolve_within(error, environment, fuel) {
                    Some(error) => self.intern_result(success, error, span),
                    None => None,
                };
            }
        }
        if same(name, "Option") || same(name, "Result") {
            self.report(
                error(
                    "E3007",
                    frame("invalid type argument count for `", &path.display(), "`"),
                    span,
                ),
            );
            return None;
        }
        self.instantiate_generic_type(name, arguments, environment, span, fuel)
    }

    fn instantiate_generic_type(
        &mut self,
        name: &'a str,
        arguments: &List<GenericArgument<'a>>,
        outer: &Environment<'a>,
        span: Span,
        fuel: u32,
    ) -> (ty: Option<Type>)
        ensures
            (final(self)@, ty) == instantiated(
                old(self)@,
                name,
                *arguments,
                *outer,
                span,
                fuel as nat,
            ),
            old(self)@.grows_into(final(self)@),
        decreases fuel, 9nat, List::<Type>::Nil,
    {
        let template = match find(&self.generic_templates, name) {
            Some(template) => template.share(),
            None => {
                self.report(
                    helped(
                        "E6003",
                        words3("unknown generic type `", name, "`"),
                        "declare the generic struct or enum before using it",
                        span,
                    ),
                );
                return None;
            },
        };
        match self.bind_within(template.parameters(), arguments, outer, span, fuel) {
            Some((values, environment)) => self.check_instance(
                name,
                &template,
                &values,
                &environment,
                span,
                fuel,
            ),
            None => None,
        }
    }

    fn check_instance(
        &mut self,
        name: &'a str,
        template: &GenericTypeTemplate<'a>,
        values: &List<GenericValue>,
        environment: &Environment<'a>,
        span: Span,
        fuel: u32,
    ) -> (ty: Option<Type>)
        ensures
            (final(self)@, ty) == checked_instance(
                old(self)@,
                name,
                *template,
                *values,
                *environment,
                span,
                fuel as nat,
            ),
            old(self)@.grows_into(final(self)@),
        decreases fuel, 8nat, List::<Type>::Nil,
    {
        let predicates = match template {
            GenericTypeTemplate::Struct(declaration) => declaration.where_predicates.share(),
            GenericTypeTemplate::Enum(declaration) => declaration.where_predicates.share(),
        };
        if !self.validate_bounds_within(
            template.parameters(),
            &predicates,
            environment,
            span,
            fuel,
        ) {
            return None;
        }
        self.make_instance(name, template, values, environment, span, fuel)
    }

    fn make_instance(
        &mut self,
        name: &'a str,
        template: &GenericTypeTemplate<'a>,
        values: &List<GenericValue>,
        environment: &Environment<'a>,
        span: Span,
        fuel: u32,
    ) -> (ty: Option<Type>)
        ensures
            (final(self)@, ty) == instance_of(
                old(self)@,
                name,
                *template,
                *values,
                *environment,
                span,
                fuel as nat,
            ),
            old(self)@.grows_into(final(self)@),
        decreases fuel, 7nat, List::<Type>::Nil,
    {
        if let Some(ty) = find_instance(&self.generic_instances, name, values) {
            return self.reject_hidden_scoped_storage(values, ty, span);
        }
        let (ty, id) = match self.reserve_generic_type(name, template, values, span) {
            Some(reserved) => reserved,
            None => {
                return None;
            },
        };
        self.complete_instance(ty, id, template, values, environment, span, fuel)
    }

    fn complete_instance(
        &mut self,
        ty: Type,
        id: TypeId,
        template: &GenericTypeTemplate<'a>,
        values: &List<GenericValue>,
        environment: &Environment<'a>,
        span: Span,
        fuel: u32,
    ) -> (result: Option<Type>)
        ensures
            (final(self)@, result) == completed(
                old(self)@,
                ty,
                id,
                *template,
                *values,
                *environment,
                span,
                fuel as nat,
            ),
            old(self)@.grows_into(final(self)@),
        decreases fuel, 6nat, List::<Type>::Nil,
    {
        let kind = match template {
            GenericTypeTemplate::Struct(declaration) => TypeDefinitionKind::Struct {
                fields: self.resolve_fields_within(
                    &declaration.fields,
                    environment,
                    List::Nil,
                    fuel,
                ),
            },
            GenericTypeTemplate::Enum(declaration) => TypeDefinitionKind::Enum {
                variants: self.resolve_variants_within(
                    &declaration.variants,
                    environment,
                    List::Nil,
                    fuel,
                ),
            },
        };
        self.fill_definition(id, template, kind);
        self.validate_type_derives(ty);
        self.reject_hidden_scoped_storage(values, ty, span)
    }

    fn fill_definition(
        &mut self,
        id: TypeId,
        template: &GenericTypeTemplate<'a>,
        kind: TypeDefinitionKind<'a>,
    )
        ensures
            final(self)@ == filled(old(self)@, id, *template, kind),
            old(self)@.grows_into(final(self)@),
    {
        reveal(Types::grows_into);
        reveal(filled);
        let (attributes, representation) = match template {
            GenericTypeTemplate::Struct(declaration) => (
                &declaration.attributes,
                if has_identifier_attribute(&declaration.attributes, "repr", "C") {
                    TypeRepresentation::C
                } else {
                    TypeRepresentation::Native
                },
            ),
            GenericTypeTemplate::Enum(declaration) => (
                &declaration.attributes,
                TypeRepresentation::Native,
            ),
        };
        let index: usize = id.0 as usize;
        if index < self.definitions.len() {
            self.definitions[index].representation = representation;
            self.definitions[index].alignment = requested_alignment(attributes);
            self.definitions[index].derives = derived_traits(attributes);
            self.definitions[index].marker_traits = derived_marker_traits(attributes);
            self.definitions[index].must_use = has_marker_attribute(attributes, "must_use");
            self.definitions[index].kind = kind;
            assert(self.definitions@ =~= filled(
                old(self)@,
                id,
                *template,
                kind,
            ).definitions);
        }
    }

    /// Adds a definition for a declaration, without fields or variants yet.
    pub fn declare(&mut self, name: Text<'a>, template: &GenericTypeTemplate<'a>) -> (id: Option<
        TypeId,
    >)
        ensures
            (final(self)@, id) == declared(old(self)@, name, *template),
            old(self)@.grows_into(final(self)@),
    {
        reveal(declared);
        let kind = match template {
            GenericTypeTemplate::Struct(_) => TypeDefinitionKind::Struct { fields: List::Nil },
            GenericTypeTemplate::Enum(_) => TypeDefinitionKind::Enum { variants: List::Nil },
        };
        match self.push_definition(Some(name), kind, template.span()) {
            None => None,
            Some(id) => {
                let kind = match template {
                    GenericTypeTemplate::Struct(_) => TypeDefinitionKind::Struct {
                        fields: List::Nil,
                    },
                    GenericTypeTemplate::Enum(_) => TypeDefinitionKind::Enum {
                        variants: List::Nil,
                    },
                };
                self.fill_definition(id, template, kind);
                Some(id)
            },
        }
    }

    fn reserve_generic_type(
        &mut self,
        name: &'a str,
        template: &GenericTypeTemplate<'a>,
        values: &List<GenericValue>,
        span: Span,
    ) -> (reservation: Option<(Type, TypeId)>)
        ensures
            (final(self)@, reservation) == reserved(old(self)@, name, *template, *values, span),
            old(self)@.grows_into(final(self)@),
    {
        reveal(Types::grows_into);
        reveal(reserved);
        let display_name = self.generic_type_display_name(name, values);
        let kind = match template {
            GenericTypeTemplate::Struct(_) => TypeDefinitionKind::Struct { fields: List::Nil },
            GenericTypeTemplate::Enum(_) => TypeDefinitionKind::Enum { variants: List::Nil },
        };
        let id = match self.push_definition(Some(display_name), kind, template.span()) {
            Some(id) => id,
            None => {
                self.report(
                    error("E3999", words("this compilation unit contains too many types"), span),
                );
                return None;
            },
        };
        let ty = match template {
            GenericTypeTemplate::Struct(_) => Type::Struct(id),
            GenericTypeTemplate::Enum(_) => Type::Enum(id),
        };
        self.generic_instances =
        cons(
            GenericTypeInstance { base_name: name, arguments: values.share(), ty },
            self.generic_instances.share(),
        );
        Some((ty, id))
    }

    fn is_any_value_scoped(&self, values: &List<GenericValue>) -> (answer: bool)
        ensures
            answer == any_value_scoped(self@, *values),
    {
        let mut ahead: &List<GenericValue> = values;
        loop
            invariant
                any_value_scoped(self@, *values) == any_value_scoped(self@, *ahead),
            decreases *ahead,
        {
            reveal(any_value_scoped);
            match ahead {
                List::Nil => {
                    return false;
                },
                List::Cons(node) => {
                    if match node.head {
                        GenericValue::Type(ty) => self.is_scoped(ty),
                        GenericValue::Const(_) => false,
                    } {
                        return true;
                    }
                    ahead = &node.tail;
                },
            }
        }
    }

    fn reject_hidden_scoped_storage(
        &mut self,
        values: &List<GenericValue>,
        ty: Type,
        span: Span,
    ) -> (kept: Option<Type>)
        ensures
            (final(self)@, kept) == unhidden(old(self)@, *values, ty, span),
            old(self)@.grows_into(final(self)@),
    {
        reveal(unhidden);
        if self.is_any_value_scoped(values) && !self.is_scoped(ty) {
            self.report(scoped_storage_diagnostic(span));
            None
        } else {
            Some(ty)
        }
    }

    fn show_value(&self, value: GenericValue) -> (text: Text<'a>)
        ensures
            text == value_text(self@, value),
    {
        match value {
            GenericValue::Type(ty) => match self.definition(ty) {
                Some(definition) => match &definition.name {
                    Some(name) => name.share(),
                    None => ty.text(),
                },
                None => ty.text(),
            },
            GenericValue::Const(value) => number(value as u128),
        }
    }

    fn show_values(&self, values: &List<GenericValue>) -> (text: Text<'a>)
        ensures
            text == values_text(self@, *values),
    {
        let mut ahead: &List<GenericValue> = values;
        let mut done: Vec<Piece<'a>> = Vec::new();
        loop
            invariant
                values_text(self@, *values) == prepended(done@, values_text(self@, *ahead)),
            decreases *ahead,
        {
            reveal(values_text);
            match ahead {
                List::Nil => {
                    return prepend(done, List::Nil);
                },
                List::Cons(node) => {
                    if node.tail.is_empty() {
                        return prepend(done, self.show_value(node.head));
                    }
                    extend(&mut done, &self.show_value(node.head));
                    done.push(Piece::Words(", "));
                    ahead = &node.tail;
                },
            }
        }
    }

    fn generic_type_display_name(&self, name: &'a str, values: &List<GenericValue>) -> (text:
        Text<'a>)
        ensures
            text == instance_name(self@, name, *values),
    {
        reveal(instance_name);
        cons(Piece::Words(name), frame("<", &self.show_values(values), ">"))
    }

    /// The values of generic parameters and the bindings that they make, by
    /// the arguments and then the defaults.
    pub fn bind_generic_arguments(
        &mut self,
        parameters: &List<GenericParameter<'a>>,
        arguments: &List<GenericArgument<'a>>,
        outer: &Environment<'a>,
        span: Span,
    ) -> (result: Option<(List<GenericValue>, Environment<'a>)>)
        ensures
            (final(self)@, result) == arguments_bound(
                old(self)@,
                *parameters,
                *arguments,
                *outer,
                span,
                LIMIT as nat,
            ),
            old(self)@.grows_into(final(self)@),
    {
        self.bind_within(parameters, arguments, outer, span, LIMIT)
    }

    fn bind_within(
        &mut self,
        parameters: &List<GenericParameter<'a>>,
        arguments: &List<GenericArgument<'a>>,
        outer: &Environment<'a>,
        span: Span,
        fuel: u32,
    ) -> (result: Option<(List<GenericValue>, Environment<'a>)>)
        ensures
            (final(self)@, result) == arguments_bound(
                old(self)@,
                *parameters,
                *arguments,
                *outer,
                span,
                fuel as nat,
            ),
            old(self)@.grows_into(final(self)@),
        decreases fuel, 7nat, List::<Type>::Nil,
    {
        let provided: u64 = arguments.count();
        if provided < count_required(parameters) || (!contains_pack(parameters) && provided
            > parameters.count()) {
            self.report(
                error(
                    "E6003",
                    cons(
                        Piece::Words("generic type expects "),
                        joined(
                            &show_accepted_count(parameters),
                            cons(
                                Piece::Words(" argument(s), but "),
                                cons(Piece::Number(provided as u128), words(" were provided")),
                            ),
                        ),
                    ),
                    span,
                ),
            );
            return None;
        }
        match self.resolve_generic_argument_values(arguments, outer, fuel) {
            None => None,
            Some(supplied) => self.bind_parameters(parameters, &supplied, outer, span, fuel),
        }
    }

    fn resolve_generic_argument_values(
        &mut self,
        arguments: &List<GenericArgument<'a>>,
        environment: &Environment<'a>,
        fuel: u32,
    ) -> (values: Option<List<GenericValue>>)
        ensures
            (final(self)@, values) == argument_values(
                old(self)@,
                *arguments,
                *environment,
                fuel as nat,
            ),
            old(self)@.grows_into(final(self)@),
        decreases fuel, 3nat, *arguments,
    {
        let mut ahead: &List<GenericArgument<'a>> = arguments;
        let mut done: Vec<GenericValue> = Vec::new();
        loop
            invariant
                argument_values(old(self)@, *arguments, *environment, fuel as nat) == {
                    let (state, rest) = argument_values(self@, *ahead, *environment, fuel as nat);
                    (state, prepended_if_any(done@, rest))
                },
                old(self)@.grows_into(self@),
            decreases *ahead,
        {
            match ahead {
                List::Nil => {
                    return Some(prepend(done, List::Nil));
                },
                List::Cons(node) => {
                    let first = match &node.head {
                        GenericArgument::Type(ty) => match find_constant_argument(ty, environment) {
                            Some(value) => Some(cons(GenericValue::Const(value), List::Nil)),
                            None => match self.resolve_within(ty, environment, fuel) {
                                Some(ty) => Some(cons(GenericValue::Type(ty), List::Nil)),
                                None => None,
                            },
                        },
                        GenericArgument::Const(value) => match self.resolve_length(
                            value,
                            environment,
                        ) {
                            Some(value) => Some(cons(GenericValue::Const(value), List::Nil)),
                            None => None,
                        },
                        GenericArgument::Pack { pack, template, .. } => match find(
                            &environment.type_packs,
                            pack.name,
                        ) {
                            None => {
                                self.report(unknown_pack(pack.name, pack.span));
                                None
                            },
                            Some(pack_types) => match template {
                                Some(template) => match self.resolve_templates(
                                    template,
                                    pack.name,
                                    pack_types,
                                    environment,
                                    fuel,
                                ) {
                                    Some(found) => Some(as_type_values(&found)),
                                    None => None,
                                },
                                None => Some(as_type_values(pack_types)),
                            },
                        },
                    };
                    match first {
                        None => {
                            return None;
                        },
                        Some(first) => {
                            extend(&mut done, &first);
                            ahead = &node.tail;
                        },
                    }
                },
            }
        }
    }

    /// The values of generic arguments, with packs expanded.
    pub fn resolve_argument_values(
        &mut self,
        arguments: &List<GenericArgument<'a>>,
        environment: &Environment<'a>,
    ) -> (values: Option<List<GenericValue>>)
        ensures
            (final(self)@, values) == argument_values(
                old(self)@,
                *arguments,
                *environment,
                LIMIT as nat,
            ),
            old(self)@.grows_into(final(self)@),
    {
        self.resolve_generic_argument_values(arguments, environment, LIMIT)
    }

    fn bind_parameters(
        &mut self,
        parameters: &List<GenericParameter<'a>>,
        supplied: &List<GenericValue>,
        environment: &Environment<'a>,
        span: Span,
        fuel: u32,
    ) -> (result: Option<(List<GenericValue>, Environment<'a>)>)
        ensures
            (final(self)@, result) == parameters_bound(
                old(self)@,
                *parameters,
                *supplied,
                *environment,
                span,
                fuel as nat,
            ),
            old(self)@.grows_into(final(self)@),
        decreases fuel, 4nat, *parameters,
    {
        let mut ahead: &List<GenericParameter<'a>> = parameters;
        let mut left: List<GenericValue> = supplied.share();
        let mut bindings: Environment<'a> = environment.share();
        let mut done: Vec<GenericValue> = Vec::new();
        loop
            invariant
                parameters_bound(
                    old(self)@,
                    *parameters,
                    *supplied,
                    *environment,
                    span,
                    fuel as nat,
                ) == {
                    let (state, rest) = parameters_bound(
                        self@,
                        *ahead,
                        left,
                        bindings,
                        span,
                        fuel as nat,
                    );
                    (
                        state,
                        match rest {
                            Some((values, last)) => Some((prepended(done@, values), last)),
                            None => None,
                        },
                    )
                },
                old(self)@.grows_into(self@),
            decreases *ahead,
        {
            match ahead {
                List::Nil => {
                    return Some((prepend(done, List::Nil), bindings));
                },
                List::Cons(node) => {
                    match &node.head {
                        GenericParameter::Type { name, default, .. } => {
                            let (ty, behind) = match &left {
                                List::Cons(value) => match value.head {
                                    GenericValue::Type(ty) => (Some(ty), value.tail.share()),
                                    GenericValue::Const(_) => {
                                        self.report(
                                            error(
                                                "E6003",
                                                words3(
                                                    "type parameter `",
                                                    name.name,
                                                    "` received a const argument",
                                                ),
                                                span,
                                            ),
                                        );
                                        (None, List::Nil)
                                    },
                                },
                                List::Nil => match default {
                                    Some(default) => (
                                        self.resolve_within(default, &bindings, fuel),
                                        List::Nil,
                                    ),
                                    None => (None, List::Nil),
                                },
                            };
                            match ty {
                                None => {
                                    return None;
                                },
                                Some(ty) => {
                                    done.push(GenericValue::Type(ty));
                                    bindings = bindings.and_type(name.name, ty);
                                    left = behind;
                                },
                            }
                        },
                        GenericParameter::TypePack { name, .. } => match collect_only_types(&left) {
                            None => {
                                self.report(
                                    helped(
                                        "E6020",
                                        words3(
                                            "type pack `",
                                            name.name,
                                            "` received a const argument",
                                        ),
                                        "type packs accept only type arguments",
                                        span,
                                    ),
                                );
                                return None;
                            },
                            Some(pack_types) => {
                                extend(&mut done, &left);
                                bindings = bindings.and_pack(name.name, pack_types);
                                left = List::Nil;
                            },
                        },
                        GenericParameter::Const { name, default, .. } => {
                            let (value, behind) = match &left {
                                List::Cons(first) => match first.head {
                                    GenericValue::Const(value) => (Some(value), first.tail.share()),
                                    GenericValue::Type(_) => {
                                        self.report(
                                            error(
                                                "E6003",
                                                words3(
                                                    "const parameter `",
                                                    name.name,
                                                    "` received a type argument",
                                                ),
                                                span,
                                            ),
                                        );
                                        (None, List::Nil)
                                    },
                                },
                                List::Nil => match default {
                                    Some(default) => (
                                        self.resolve_length(default, &bindings),
                                        List::Nil,
                                    ),
                                    None => (None, List::Nil),
                                },
                            };
                            match value {
                                None => {
                                    return None;
                                },
                                Some(value) => {
                                    done.push(GenericValue::Const(value));
                                    bindings = bindings.and_constant(name.name, value);
                                    left = behind;
                                },
                            }
                        },
                    }
                    ahead = &node.tail;
                },
            }
        }
    }

    fn validate_bound(&mut self, ty: Type, path: &Path<'a>, span: Span) -> (valid: bool)
        ensures
            (final(self)@, valid) == bound_checked(old(self)@, ty, *path, span),
            old(self)@.grows_into(final(self)@),
    {
        reveal(bound_checked);
        let name = match single_path_name(path) {
            Some(name) => name,
            None => {
                self.report(
                    error("E6014", words("trait bound must resolve to one trait"), path.span),
                );
                return false;
            },
        };
        if !is_builtin_trait(name) && find(&self.traits, name).is_none() {
            self.report(error("E6014", words3("unknown trait bound `", name, "`"), path.span));
            return false;
        }
        if self.satisfies_trait(ty, name) {
            return true;
        }
        self.report(
            helped(
                "E6014",
                cons(
                    Piece::Words("type `"),
                    joined(
                        &ty.text(),
                        words3("` does not satisfy trait bound `", name, "`"),
                    ),
                ),
                "add a matching trait implementation or use a compatible type",
                span,
            ),
        );
        false
    }

    fn validate_type_bounds(&mut self, ty: Type, bounds: &List<Path<'a>>, span: Span) -> (valid:
        bool)
        ensures
            (final(self)@, valid) == type_bounds_checked(old(self)@, ty, *bounds, span),
            old(self)@.grows_into(final(self)@),
    {
        let mut ahead: &List<Path<'a>> = bounds;
        let mut valid: bool = true;
        loop
            invariant
                type_bounds_checked(old(self)@, ty, *bounds, span) == {
                    let (state, rest) = type_bounds_checked(self@, ty, *ahead, span);
                    (state, valid && rest)
                },
                old(self)@.grows_into(self@),
            decreases *ahead,
        {
            reveal(type_bounds_checked);
            match ahead {
                List::Nil => {
                    return valid;
                },
                List::Cons(node) => {
                    let first = self.validate_bound(ty, &node.head, span);
                    valid = valid && first;
                    ahead = &node.tail;
                },
            }
        }
    }

    fn validate_pack_bounds(
        &mut self,
        list: &List<Type>,
        bounds: &List<Path<'a>>,
        span: Span,
    ) -> (valid: bool)
        ensures
            (final(self)@, valid) == pack_bounds_checked(old(self)@, *list, *bounds, span),
            old(self)@.grows_into(final(self)@),
    {
        let mut ahead: &List<Type> = list;
        let mut valid: bool = true;
        loop
            invariant
                pack_bounds_checked(old(self)@, *list, *bounds, span) == {
                    let (state, rest) = pack_bounds_checked(self@, *ahead, *bounds, span);
                    (state, valid && rest)
                },
                old(self)@.grows_into(self@),
            decreases *ahead,
        {
            reveal(pack_bounds_checked);
            match ahead {
                List::Nil => {
                    return valid;
                },
                List::Cons(node) => {
                    let first = self.validate_type_bounds(node.head, bounds, span);
                    valid = valid && first;
                    ahead = &node.tail;
                },
            }
        }
    }

    fn validate_parameter_bounds(
        &mut self,
        parameters: &List<GenericParameter<'a>>,
        environment: &Environment<'a>,
        span: Span,
    ) -> (valid: bool)
        ensures
            (final(self)@, valid) == parameter_bounds_checked(
                old(self)@,
                *parameters,
                *environment,
                span,
            ),
            old(self)@.grows_into(final(self)@),
    {
        let mut ahead: &List<GenericParameter<'a>> = parameters;
        let mut valid: bool = true;
        loop
            invariant
                parameter_bounds_checked(
                                old(self)@,
                                *parameters,
                                *environment,
                                span,
                            ) == {
                    let (state, rest) = parameter_bounds_checked(
                                self@,
                                *ahead,
                                *environment,
                                span,
                            );
                    (state, valid && rest)
                },
                old(self)@.grows_into(self@),
            decreases *ahead,
        {
            reveal(parameter_bounds_checked);
            match ahead {
                List::Nil => {
                    return valid;
                },
                List::Cons(node) => {
                    let first = match &node.head {
                        GenericParameter::Type { name, bounds, .. } => match find(
                            &environment.types,
                            name.name,
                        ) {
                            Some(ty) => self.validate_type_bounds(*ty, bounds, span),
                            None => true,
                        },
                        GenericParameter::TypePack { name, bounds, .. } => match find(
                            &environment.type_packs,
                            name.name,
                        ) {
                            Some(list) => self.validate_pack_bounds(list, bounds, span),
                            None => true,
                        },
                        GenericParameter::Const { .. } => true,
                    };
                    valid = valid && first;
                    ahead = &node.tail;
                },
            }
        }
    }

    fn validate_template_bounds(
        &mut self,
        template: &TypeName<'a>,
        name: &'a str,
        pack_types: &List<Type>,
        bounds: &List<Path<'a>>,
        environment: &Environment<'a>,
        span: Span,
        fuel: u32,
    ) -> (valid: bool)
        ensures
            (final(self)@, valid) == template_bounds_checked(
                old(self)@,
                *template,
                name,
                *pack_types,
                *bounds,
                *environment,
                span,
                fuel as nat,
            ),
            old(self)@.grows_into(final(self)@),
        decreases fuel, 1nat, *pack_types,
    {
        let mut ahead: &List<Type> = pack_types;
        let mut valid: bool = true;
        loop
            invariant
                template_bounds_checked(
                                old(self)@,
                                *template,
                                name,
                                *pack_types,
                                *bounds,
                                *environment,
                                span,
                                fuel as nat,
                            ) == {
                    let (state, rest) = template_bounds_checked(
                                self@,
                                *template,
                                name,
                                *ahead,
                                *bounds,
                                *environment,
                                span,
                                fuel as nat,
                            );
                    (state, valid && rest)
                },
                old(self)@.grows_into(self@),
            decreases *ahead,
        {
            match ahead {
                List::Nil => {
                    return valid;
                },
                List::Cons(node) => {
                    let inner = environment.and_type(name, node.head);
                    let first = match self.resolve_within(template, &inner, fuel) {
                        Some(ty) => self.validate_type_bounds(ty, bounds, span),
                        None => false,
                    };
                    valid = valid && first;
                    ahead = &node.tail;
                },
            }
        }
    }

    fn validate_predicates(
        &mut self,
        predicates: &List<WherePredicate<'a>>,
        environment: &Environment<'a>,
        fuel: u32,
    ) -> (valid: bool)
        ensures
            (final(self)@, valid) == predicates_checked(
                old(self)@,
                *predicates,
                *environment,
                fuel as nat,
            ),
            old(self)@.grows_into(final(self)@),
        decreases fuel, 5nat, *predicates,
    {
        let mut ahead: &List<WherePredicate<'a>> = predicates;
        let mut valid: bool = true;
        loop
            invariant
                predicates_checked(
                                old(self)@,
                                *predicates,
                                *environment,
                                fuel as nat,
                            ) == {
                    let (state, rest) = predicates_checked(
                                self@,
                                *ahead,
                                *environment,
                                fuel as nat,
                            );
                    (state, valid && rest)
                },
                old(self)@.grows_into(self@),
            decreases *ahead,
        {
            match ahead {
                List::Nil => {
                    return valid;
                },
                List::Cons(node) => {
                    let predicate = &node.head;
                    let first = match &*predicate.ty.kind {
                        TypeNameKind::PackExpansion { pack, template } => match find(
                            &environment.type_packs,
                            pack.name,
                        ) {
                            None => {
                                self.report(
                                    error(
                                        "E6020",
                                        words3("unknown type pack `", pack.name, "`"),
                                        pack.span,
                                    ),
                                );
                                false
                            },
                            Some(pack_types) => match template {
                                Some(template) => self.validate_template_bounds(
                                    template,
                                    pack.name,
                                    pack_types,
                                    &predicate.bounds,
                                    environment,
                                    predicate.span,
                                    fuel,
                                ),
                                None => self.validate_pack_bounds(
                                    pack_types,
                                    &predicate.bounds,
                                    predicate.span,
                                ),
                            },
                        },
                        _ => match self.resolve_within(&predicate.ty, environment, fuel) {
                            Some(ty) => self.validate_type_bounds(
                                ty,
                                &predicate.bounds,
                                predicate.span,
                            ),
                            None => false,
                        },
                    };
                    valid = valid && first;
                    ahead = &node.tail;
                },
            }
        }
    }

    fn validate_bounds_within(
        &mut self,
        parameters: &List<GenericParameter<'a>>,
        predicates: &List<WherePredicate<'a>>,
        environment: &Environment<'a>,
        span: Span,
        fuel: u32,
    ) -> (valid: bool)
        ensures
            (final(self)@, valid) == bounds_checked(
                old(self)@,
                *parameters,
                *predicates,
                *environment,
                span,
                fuel as nat,
            ),
            old(self)@.grows_into(final(self)@),
        decreases fuel, 6nat, List::<Type>::Nil,
    {
        let first = self.validate_parameter_bounds(parameters, environment, span);
        let rest = self.validate_predicates(predicates, environment, fuel);
        first && rest
    }

    /// Whether the bounds of a generic declaration hold. Those that do not are
    /// reported.
    pub fn validate_bounds(
        &mut self,
        parameters: &List<GenericParameter<'a>>,
        predicates: &List<WherePredicate<'a>>,
        environment: &Environment<'a>,
        span: Span,
    ) -> (valid: bool)
        ensures
            (final(self)@, valid) == bounds_checked(
                old(self)@,
                *parameters,
                *predicates,
                *environment,
                span,
                LIMIT as nat,
            ),
            old(self)@.grows_into(final(self)@),
    {
        self.validate_bounds_within(parameters, predicates, environment, span, LIMIT)
    }

    fn resolve_fields_within(
        &mut self,
        fields: &List<StructField<'a>>,
        environment: &Environment<'a>,
        seen: List<&'a str>,
        fuel: u32,
    ) -> (result: List<TypeField<'a>>)
        ensures
            (final(self)@, result) == fields_resolved(
                old(self)@,
                *fields,
                *environment,
                seen,
                fuel as nat,
            ),
            old(self)@.grows_into(final(self)@),
        decreases fuel, 4nat, *fields,
    {
        let mut ahead: &List<StructField<'a>> = fields;
        let mut current_seen: List<&'a str> = seen;
        let mut done: Vec<TypeField<'a>> = Vec::new();
        loop
            invariant
                fields_resolved(old(self)@, *fields, *environment, seen, fuel as nat) == {
                    let (state, rest) = fields_resolved(
                        self@,
                        *ahead,
                        *environment,
                        current_seen,
                        fuel as nat,
                    );
                    (state, prepended(done@, rest))
                },
                old(self)@.grows_into(self@),
            decreases *ahead,
        {
            match ahead {
                List::Nil => {
                    return prepend(done, List::Nil);
                },
                List::Cons(node) => {
                    let field = &node.head;
                    if is_listed(&current_seen, field.name.name) {
                        self.report(
                            error(
                                "E3010",
                                words3("field `", field.name.name, "` is declared more than once"),
                                field.name.span,
                            ),
                        );
                    }
                    match self.resolve_within(&field.ty, environment, fuel) {
                        Some(ty) => {
                            done.push(
                                TypeField {
                                    name: field.name.name,
                                    is_public: field.is_public,
                                    ty,
                                    span: field.span,
                                },
                            );
                        },
                        None => {
                        },
                    }
                    current_seen = cons(field.name.name, current_seen);
                    ahead = &node.tail;
                },
            }
        }
    }

    /// The fields of a declaration. Fields whose type cannot be resolved are
    /// left out.
    pub fn resolve_fields_in(
        &mut self,
        fields: &List<StructField<'a>>,
        environment: &Environment<'a>,
    ) -> (result: List<TypeField<'a>>)
        ensures
            (final(self)@, result) == fields_resolved(
                old(self)@,
                *fields,
                *environment,
                List::Nil,
                LIMIT as nat,
            ),
            old(self)@.grows_into(final(self)@),
    {
        self.resolve_fields_within(fields, environment, List::Nil, LIMIT)
    }

    fn resolve_present_types(
        &mut self,
        written: &List<TypeName<'a>>,
        environment: &Environment<'a>,
        fuel: u32,
    ) -> (result: List<Type>)
        ensures
            (final(self)@, result) == present_types(
                old(self)@,
                *written,
                *environment,
                fuel as nat,
            ),
            old(self)@.grows_into(final(self)@),
        decreases fuel, 3nat, *written,
    {
        let mut ahead: &List<TypeName<'a>> = written;
        let mut done: Vec<Type> = Vec::new();
        loop
            invariant
                present_types(old(self)@, *written, *environment, fuel as nat) == {
                    let (state, rest) = present_types(self@, *ahead, *environment, fuel as nat);
                    (state, prepended(done@, rest))
                },
                old(self)@.grows_into(self@),
            decreases *ahead,
        {
            match ahead {
                List::Nil => {
                    return prepend(done, List::Nil);
                },
                List::Cons(node) => {
                    match self.resolve_within(&node.head, environment, fuel) {
                        Some(ty) => {
                            done.push(ty);
                        },
                        None => {
                        },
                    }
                    ahead = &node.tail;
                },
            }
        }
    }

    fn resolve_variants_within(
        &mut self,
        variants: &List<AstVariant<'a>>,
        environment: &Environment<'a>,
        seen: List<&'a str>,
        fuel: u32,
    ) -> (result: List<EnumVariant<'a>>)
        ensures
            (final(self)@, result) == variants_resolved(
                old(self)@,
                *variants,
                *environment,
                seen,
                fuel as nat,
            ),
            old(self)@.grows_into(final(self)@),
        decreases fuel, 5nat, *variants,
    {
        let mut ahead: &List<AstVariant<'a>> = variants;
        let mut current_seen: List<&'a str> = seen;
        let mut done: Vec<EnumVariant<'a>> = Vec::new();
        loop
            invariant
                variants_resolved(
                                old(self)@,
                                *variants,
                                *environment,
                                seen,
                                fuel as nat,
                            ) == {
                    let (state, rest) = variants_resolved(
                                self@,
                                *ahead,
                                *environment,
                                current_seen,
                                fuel as nat,
                            );
                    (state, prepended(done@, rest))
                },
                old(self)@.grows_into(self@),
            decreases *ahead,
        {
            match ahead {
                List::Nil => {
                    return prepend(done, List::Nil);
                },
                List::Cons(node) => {
                    let variant = &node.head;
                    if is_listed(&current_seen, variant.name.name) {
                        self.report(
                            error(
                                "E3009",
                                words3(
                                    "enum variant `",
                                    variant.name.name,
                                    "` is declared more than once",
                                ),
                                variant.name.span,
                            ),
                        );
                    }
                    let fields = match &variant.payload {
                        EnumVariantPayload::Unit => EnumVariantFields::Unit,
                        EnumVariantPayload::Tuple(list) => EnumVariantFields::Tuple(
                            self.resolve_present_types(list, environment, fuel),
                        ),
                        EnumVariantPayload::Struct(fields) => EnumVariantFields::Struct(
                            self.resolve_fields_within(fields, environment, List::Nil, fuel),
                        ),
                    };
                    done.push(EnumVariant { name: variant.name.name, fields, span: variant.span });
                    current_seen = cons(variant.name.name, current_seen);
                    ahead = &node.tail;
                },
            }
        }
    }

    /// The variants of a declaration.
    pub fn resolve_variants_in(
        &mut self,
        variants: &List<AstVariant<'a>>,
        environment: &Environment<'a>,
    ) -> (result: List<EnumVariant<'a>>)
        ensures
            (final(self)@, result) == variants_resolved(
                old(self)@,
                *variants,
                *environment,
                List::Nil,
                LIMIT as nat,
            ),
            old(self)@.grows_into(final(self)@),
    {
        self.resolve_variants_within(variants, environment, List::Nil, LIMIT)
    }
}

} // verus!

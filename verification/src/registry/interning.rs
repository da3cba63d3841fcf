//! That a written type stands for one type, however often it is resolved.

use crate::ast::{
    lone_name, EnumVariant as AstVariant, EnumVariantPayload, Expression, ExpressionKind,
    GenericArgument, GenericParameter, Path, StructField, TypeName, TypeNameKind, WherePredicate,
};
use crate::generics::{array_length, bound, Entry, Environment, GenericValue};
use crate::hir::TypeDefinitionKind;
use crate::list::{cons, List};
use crate::registry::capability::{constant_argument, derives_checked, type_values};
use crate::registry::naming::{
    argument_values, arguments_bound, bound_checked, bounds_checked, checked_instance,
    completed, fields_resolved, filled, generic_resolved, instance_of, instantiated, kind_resolved,
    length_resolved, one_type_argument, only_types, pack_bounds_checked, parameter_bounds_checked,
    parameters_bound, path_resolved, predicates_checked, present_types, reserved, resolved,
    sequence_resolved, template_bounds_checked, template_predicates, templates_resolved,
    two_type_arguments, type_bounds_checked, unhidden, unknown_pack, variants_resolved,
};
use crate::registry::{
    known_instance, registered, GenericTypeTemplate, StructuralType, Types,
};
use crate::span::{error, Diagnostic, Span};
use crate::text::{listed, words3, Text};
use crate::types::{Type, TypeId};
use vstd::prelude::*;

verus! {

broadcast use crate::registry::growth::group_interned;

proof fn interning_keeps<'a>(
    types: Types<'a>,
    key: StructuralType,
    name: Option<Text<'a>>,
    kind: TypeDefinitionKind<'a>,
    span: Span,
)
    ensures
        types.keeps(types.interned(key, name, kind, span).0),
{
    reveal(Types::keeps);
}

proof fn option_keeps<'a>(types: Types<'a>, value: Type, span: Span)
    ensures
        types.keeps(types.option(value, span).0),
{
    reveal(Types::keeps);
}

proof fn result_keeps<'a>(types: Types<'a>, success: Type, error: Type, span: Span)
    ensures
        types.keeps(types.result(success, error, span).0),
{
    reveal(Types::keeps);
}

proof fn composite_keeps<'a>(types: Types<'a>, span: Span)
    ensures
        forall|elements: List<Type>| types.keeps(#[trigger] types.tuple(elements, span).0),
        forall|parameters: List<Type>, output: Type|
            types.keeps(#[trigger] types.function(parameters, output, span).0),
        forall|element: Type, length: u64|
            types.keeps(#[trigger] types.array(element, length, span).0),
        forall|target: Type, mutable: bool|
            types.keeps(#[trigger] types.reference(target, mutable, span).0),
        forall|target: Type, mutable: bool|
            types.keeps(#[trigger] types.raw_pointer(target, mutable, span).0),
        forall|element: Type, mutable: bool|
            types.keeps(#[trigger] types.slice(element, mutable, span).0),
{
    reveal(Types::keeps);
}

proof fn resolving_keeps<'a>(
    types: Types<'a>,
    written: TypeName<'a>,
    environment: Environment<'a>,
    fuel: nat,
)
    ensures
        types.keeps(resolved(types, written, environment, fuel).0),
    decreases fuel, 0nat, List::<Type>::Nil,
{
    if fuel > 0 {
        kind_keeps(types, written, environment, (fuel - 1) as nat);
    }
}

proof fn kind_keeps<'a>(
    types: Types<'a>,
    written: TypeName<'a>,
    environment: Environment<'a>,
    fuel: nat,
)
    ensures
        types.keeps(kind_resolved(types, written, environment, fuel).0),
    decreases fuel, 11nat, List::<Type>::Nil,
{
    reveal(length_resolved);
    reveal(path_resolved);
    match &*written.kind {
        TypeNameKind::Function { parameters, return_type } => {
            let (first, found) = sequence_resolved(types, *parameters, environment, fuel);
            sequence_keeps(types, *parameters, environment, fuel);
            let (second, output) = resolved(first, *return_type, environment, fuel);
            resolving_keeps(first, *return_type, environment, fuel);
            composite_keeps(second, written.span);
        },
        TypeNameKind::Generic { path, arguments } => {
            generic_keeps(types, *path, *arguments, environment, written.span, fuel);
        },
        TypeNameKind::Tuple(elements) => {
            sequence_keeps(types, *elements, environment, fuel);
            let first = sequence_resolved(types, *elements, environment, fuel).0;
            composite_keeps(first, written.span);
        },
        TypeNameKind::Array { element, length } => {
            resolving_keeps(types, *element, environment, fuel);
            let first = resolved(types, *element, environment, fuel).0;
            let second = length_resolved(first, *length, environment).0;
            assert(first.keeps(second));
            composite_keeps(second, written.span);
        },
        TypeNameKind::Reference { mutable, target } => match &*target.kind {
            TypeNameKind::Slice(element) => {
                resolving_keeps(types, *element, environment, fuel);
                composite_keeps(
                    resolved(types, *element, environment, fuel).0,
                    written.span,
                );
            },
            _ => {
                resolving_keeps(types, *target, environment, fuel);
                composite_keeps(resolved(types, *target, environment, fuel).0, written.span);
            },
        },
        TypeNameKind::RawPointer { mutable, target } => {
            resolving_keeps(types, *target, environment, fuel);
            composite_keeps(resolved(types, *target, environment, fuel).0, written.span);
        },
        _ => {},
    }
}

/// What the first of written types stands for.
spec fn sequence_head<'a>(
    types: Types<'a>,
    written: TypeName<'a>,
    environment: Environment<'a>,
    fuel: nat,
) -> (Types<'a>, Option<List<Type>>) {
    match *written.kind {
        TypeNameKind::PackExpansion { pack, template } => match bound(
            environment.type_packs,
            pack.name@,
        ) {
            None => (types.report(unknown_pack(pack.name, pack.span)), None),
            Some(pack_types) => match template {
                Some(template) => templates_resolved(
                    types,
                    template,
                    pack.name,
                    pack_types,
                    environment,
                    fuel,
                ),
                None => (types, Some(pack_types)),
            },
        },
        _ => match resolved(types, written, environment, fuel) {
            (types, Some(ty)) => (types, Some(cons(ty, List::Nil))),
            (types, None) => (types, None),
        },
    }
}

/// What the first of generic arguments stands for.
spec fn argument_head<'a>(
    types: Types<'a>,
    argument: GenericArgument<'a>,
    environment: Environment<'a>,
    fuel: nat,
) -> (Types<'a>, Option<List<GenericValue>>) {
    match argument {
        GenericArgument::Type(ty) => match constant_argument(ty, environment) {
            Some(value) => (types, Some(cons(GenericValue::Const(value), List::Nil))),
            None => match resolved(types, ty, environment, fuel) {
                (types, Some(ty)) => (types, Some(cons(GenericValue::Type(ty), List::Nil))),
                (types, None) => (types, None),
            },
        },
        GenericArgument::Const(value) => match length_resolved(types, value, environment) {
            (types, Some(value)) => (types, Some(cons(GenericValue::Const(value), List::Nil))),
            (types, None) => (types, None),
        },
        GenericArgument::Pack { pack, template, .. } => match bound(
            environment.type_packs,
            pack.name@,
        ) {
            None => (types.report(unknown_pack(pack.name, pack.span)), None),
            Some(pack_types) => match template {
                Some(template) => match templates_resolved(
                    types,
                    template,
                    pack.name,
                    pack_types,
                    environment,
                    fuel,
                ) {
                    (types, Some(found)) => (types, Some(type_values(found))),
                    (types, None) => (types, None),
                },
                None => (types, Some(type_values(pack_types))),
            },
        },
    }
}

/// What is bound to the first of generic parameters, and what is left for the
/// others.
pub open spec fn parameter_head<'a>(
    types: Types<'a>,
    parameter: GenericParameter<'a>,
    supplied: List<GenericValue>,
    environment: Environment<'a>,
    fuel: nat,
) -> (Types<'a>, List<GenericValue>, Environment<'a>) {
    match parameter {
        GenericParameter::Type { name, default, .. } => match supplied {
            List::Cons(value) => match value.head {
                GenericValue::Type(ty) => (
                    types,
                    value.tail,
                    environment.with_type(name.name, ty),
                ),
                GenericValue::Const(_) => (types, supplied, environment),
            },
            List::Nil => match default {
                Some(default) => {
                    let (types, ty) = resolved(types, default, environment, fuel);
                    (types, supplied, environment.with_type(name.name, ty->0))
                },
                None => (types, supplied, environment),
            },
        },
        GenericParameter::TypePack { name, .. } => (
            types,
            List::Nil,
            environment.with_pack(name.name, only_types(supplied)->0),
        ),
        GenericParameter::Const { name, default, .. } => match supplied {
            List::Cons(first) => match first.head {
                GenericValue::Const(value) => (
                    types,
                    first.tail,
                    environment.with_constant(name.name, value),
                ),
                GenericValue::Type(_) => (types, supplied, environment),
            },
            List::Nil => match default {
                Some(default) => {
                    let (types, value) = length_resolved(types, default, environment);
                    (types, supplied, environment.with_constant(name.name, value->0))
                },
                None => (types, supplied, environment),
            },
        },
    }
}

/// The types behind the first bound of a `where` clause.
spec fn predicate_head<'a>(
    types: Types<'a>,
    predicate: WherePredicate<'a>,
    environment: Environment<'a>,
    fuel: nat,
) -> Types<'a> {
    match *predicate.ty.kind {
        TypeNameKind::PackExpansion { pack, template } => match bound(
            environment.type_packs,
            pack.name@,
        ) {
            None => types.report(
                error("E6020", words3("unknown type pack `", pack.name, "`"), pack.span),
            ),
            Some(pack_types) => match template {
                Some(template) => template_bounds_checked(
                    types,
                    template,
                    pack.name,
                    pack_types,
                    predicate.bounds,
                    environment,
                    predicate.span,
                    fuel,
                ).0,
                None => pack_bounds_checked(
                    types,
                    pack_types,
                    predicate.bounds,
                    predicate.span,
                ).0,
            },
        },
        _ => match resolved(types, predicate.ty, environment, fuel) {
            (types, Some(ty)) => type_bounds_checked(
                types,
                ty,
                predicate.bounds,
                predicate.span,
            ).0,
            (types, None) => types,
        },
    }
}

/// The types behind the first field of a declaration.
spec fn field_head<'a>(
    types: Types<'a>,
    field: StructField<'a>,
    seen: List<&'a str>,
) -> Types<'a> {
    if listed(seen, field.name.name@) {
        types.report(
            error(
                "E3010",
                words3("field `", field.name.name, "` is declared more than once"),
                field.name.span,
            ),
        )
    } else {
        types
    }
}

/// The types before and behind the payload of the first variant.
spec fn variant_head<'a>(
    types: Types<'a>,
    variant: AstVariant<'a>,
    environment: Environment<'a>,
    seen: List<&'a str>,
    fuel: nat,
) -> (Types<'a>, Types<'a>) {
    let types = if listed(seen, variant.name.name@) {
        types.report(
            error(
                "E3009",
                words3("enum variant `", variant.name.name, "` is declared more than once"),
                variant.name.span,
            ),
        )
    } else {
        types
    };
    (
        types,
        match variant.payload {
            EnumVariantPayload::Unit => types,
            EnumVariantPayload::Tuple(list) => present_types(types, list, environment, fuel).0,
            EnumVariantPayload::Struct(fields) => fields_resolved(
                types,
                fields,
                environment,
                List::Nil,
                fuel,
            ).0,
        },
    )
}

proof fn sequence_keeps<'a>(
    types: Types<'a>,
    written: List<TypeName<'a>>,
    environment: Environment<'a>,
    fuel: nat,
)
    ensures
        types.keeps(sequence_resolved(types, written, environment, fuel).0),
    decreases fuel, 2nat, written,
{
    match &written {
        List::Nil => {},
        List::Cons(node) => {
            match &*node.head.kind {
                TypeNameKind::PackExpansion { pack, template } => match (
                    bound(environment.type_packs, pack.name@),
                    template,
                ) {
                    (Some(pack_types), Some(template)) => {
                        templates_keep(
                            types,
                            *template,
                            pack.name,
                            pack_types,
                            environment,
                            fuel,
                        );
                    },
                    _ => {},
                },
                _ => {
                    resolving_keeps(types, written.first(), environment, fuel);
                },
            }
            let next = sequence_head(types, written.first(), environment, fuel).0;
            assert(types.keeps(next));
            sequence_keeps(next, written.rest(), environment, fuel);
        },
    }
}

proof fn templates_keep<'a>(
    types: Types<'a>,
    template: TypeName<'a>,
    name: &'a str,
    pack_types: List<Type>,
    environment: Environment<'a>,
    fuel: nat,
)
    ensures
        types.keeps(
            templates_resolved(types, template, name, pack_types, environment, fuel).0,
        ),
    decreases fuel, 1nat, pack_types,
{
    match pack_types {
        List::Nil => {},
        List::Cons(_) => {
            let inner = environment.with_type(name, pack_types.first());
            resolving_keeps(types, template, inner, fuel);
            let next = resolved(types, template, inner, fuel).0;
            templates_keep(next, template, name, pack_types.rest(), environment, fuel);
        },
    }
}

proof fn generic_keeps<'a>(
    types: Types<'a>,
    path: Path<'a>,
    arguments: List<GenericArgument<'a>>,
    environment: Environment<'a>,
    span: Span,
    fuel: nat,
)
    ensures
        types.keeps(generic_resolved(types, path, arguments, environment, span, fuel).0),
    decreases fuel, 10nat, List::<Type>::Nil,
{
    if one_type_argument(arguments) is Some {
        let argument = one_type_argument(arguments)->0;
        resolving_keeps(types, argument, environment, fuel);
        let (next, value) = resolved(types, argument, environment, fuel);
        if value is Some {
            option_keeps(next, value->0, span);
        }
    }
    if two_type_arguments(arguments) is Some {
        let (success, error) = two_type_arguments(arguments)->0;
        resolving_keeps(types, success, environment, fuel);
        let (first, left) = resolved(types, success, environment, fuel);
        resolving_keeps(first, error, environment, fuel);
        let (second, right) = resolved(first, error, environment, fuel);
        if left is Some && right is Some {
            result_keeps(second, left->0, right->0, span);
        }
    }
    match lone_name(path) {
        Some(name) => {
            instantiating_keeps(types, name, arguments, environment, span, fuel);
        },
        None => {},
    }
}

proof fn arguments_keep<'a>(
    types: Types<'a>,
    arguments: List<GenericArgument<'a>>,
    environment: Environment<'a>,
    fuel: nat,
)
    ensures
        types.keeps(argument_values(types, arguments, environment, fuel).0),
    decreases fuel, 3nat, arguments,
{
    reveal(length_resolved);
    match &arguments {
        List::Nil => {},
        List::Cons(node) => {
            match &node.head {
                GenericArgument::Type(ty) => {
                    resolving_keeps(types, *ty, environment, fuel);
                },
                GenericArgument::Const(_) => {},
                GenericArgument::Pack { pack, template, .. } => match (
                    bound(environment.type_packs, pack.name@),
                    template,
                ) {
                    (Some(pack_types), Some(template)) => {
                        templates_keep(
                            types,
                            *template,
                            pack.name,
                            pack_types,
                            environment,
                            fuel,
                        );
                    },
                    _ => {},
                },
            }
            let next = argument_head(types, arguments.first(), environment, fuel).0;
            assert(types.keeps(next));
            arguments_keep(next, arguments.rest(), environment, fuel);
        },
    }
}

proof fn parameters_keep<'a>(
    types: Types<'a>,
    parameters: List<GenericParameter<'a>>,
    supplied: List<GenericValue>,
    environment: Environment<'a>,
    span: Span,
    fuel: nat,
)
    ensures
        types.keeps(
            parameters_bound(types, parameters, supplied, environment, span, fuel).0,
        ),
    decreases fuel, 4nat, parameters,
{
    reveal(length_resolved);
    match &parameters {
        List::Nil => {},
        List::Cons(node) => {
            match &node.head {
                GenericParameter::Type { default, .. } => match default {
                    Some(default) => {
                        resolving_keeps(types, *default, environment, fuel);
                    },
                    None => {},
                },
                _ => {},
            }
            let (next, left, inner) = parameter_head(
                types,
                parameters.first(),
                supplied,
                environment,
                fuel,
            );
            assert(types.keeps(next));
            parameters_keep(next, parameters.rest(), left, inner, span, fuel);
        },
    }
}

proof fn binding_keeps<'a>(
    types: Types<'a>,
    parameters: List<GenericParameter<'a>>,
    arguments: List<GenericArgument<'a>>,
    outer: Environment<'a>,
    span: Span,
    fuel: nat,
)
    ensures
        types.keeps(arguments_bound(types, parameters, arguments, outer, span, fuel).0),
    decreases fuel, 7nat, List::<Type>::Nil,
{
    arguments_keep(types, arguments, outer, fuel);
    let (next, supplied) = argument_values(types, arguments, outer, fuel);
    if supplied is Some {
        parameters_keep(next, parameters, supplied->0, outer, span, fuel);
    }
}

proof fn bound_keeps<'a>(types: Types<'a>, ty: Type, bounds: List<Path<'a>>, span: Span)
    ensures
        types.keeps(type_bounds_checked(types, ty, bounds, span).0),
    decreases bounds,
{
    reveal(type_bounds_checked);
    reveal(bound_checked);
    match bounds {
        List::Nil => {},
        List::Cons(_) => {
            let next = bound_checked(types, ty, bounds.first(), span).0;
            assert(types.keeps(next));
            bound_keeps(next, ty, bounds.rest(), span);
        },
    }
}

proof fn pack_keeps<'a>(types: Types<'a>, list: List<Type>, bounds: List<Path<'a>>, span: Span)
    ensures
        types.keeps(pack_bounds_checked(types, list, bounds, span).0),
    decreases list,
{
    reveal(pack_bounds_checked);
    match list {
        List::Nil => {},
        List::Cons(_) => {
            bound_keeps(types, list.first(), bounds, span);
            let next = type_bounds_checked(types, list.first(), bounds, span).0;
            pack_keeps(next, list.rest(), bounds, span);
        },
    }
}

proof fn parameter_bounds_keep<'a>(
    types: Types<'a>,
    parameters: List<GenericParameter<'a>>,
    environment: Environment<'a>,
    span: Span,
)
    ensures
        types.keeps(parameter_bounds_checked(types, parameters, environment, span).0),
    decreases parameters,
{
    reveal(parameter_bounds_checked);
    match &parameters {
        List::Nil => {},
        List::Cons(node) => {
            match &node.head {
                GenericParameter::Type { name, bounds, .. } => match bound(
                    environment.types,
                    name.name@,
                ) {
                    Some(ty) => {
                        bound_keeps(types, ty, *bounds, span);
                    },
                    None => {},
                },
                GenericParameter::TypePack { name, bounds, .. } => match bound(
                    environment.type_packs,
                    name.name@,
                ) {
                    Some(list) => {
                        pack_keeps(types, list, *bounds, span);
                    },
                    None => {},
                },
                GenericParameter::Const { .. } => {},
            }
            let next = match &node.head {
                GenericParameter::Type { name, bounds, .. } => match bound(
                    environment.types,
                    name.name@,
                ) {
                    Some(ty) => type_bounds_checked(types, ty, *bounds, span).0,
                    None => types,
                },
                GenericParameter::TypePack { name, bounds, .. } => match bound(
                    environment.type_packs,
                    name.name@,
                ) {
                    Some(list) => pack_bounds_checked(types, list, *bounds, span).0,
                    None => types,
                },
                GenericParameter::Const { .. } => types,
            };
            assert(types.keeps(next));
            parameter_bounds_keep(next, parameters.rest(), environment, span);
        },
    }
}

proof fn template_bounds_keep<'a>(
    types: Types<'a>,
    template: TypeName<'a>,
    name: &'a str,
    pack_types: List<Type>,
    bounds: List<Path<'a>>,
    environment: Environment<'a>,
    span: Span,
    fuel: nat,
)
    ensures
        types.keeps(
            template_bounds_checked(
                types,
                template,
                name,
                pack_types,
                bounds,
                environment,
                span,
                fuel,
            ).0,
        ),
    decreases fuel, 1nat, pack_types,
{
    match pack_types {
        List::Nil => {},
        List::Cons(_) => {
            let inner = environment.with_type(name, pack_types.first());
            resolving_keeps(types, template, inner, fuel);
            let (next, ty) = resolved(types, template, inner, fuel);
            let after = match ty {
                Some(ty) => {
                    bound_keeps(next, ty, bounds, span);
                    type_bounds_checked(next, ty, bounds, span).0
                },
                None => next,
            };
            template_bounds_keep(
                after,
                template,
                name,
                pack_types.rest(),
                bounds,
                environment,
                span,
                fuel,
            );
        },
    }
}

proof fn predicates_keep<'a>(
    types: Types<'a>,
    predicates: List<WherePredicate<'a>>,
    environment: Environment<'a>,
    fuel: nat,
)
    ensures
        types.keeps(predicates_checked(types, predicates, environment, fuel).0),
    decreases fuel, 5nat, predicates,
{
    match &predicates {
        List::Nil => {},
        List::Cons(node) => {
            let predicate = &node.head;
            match &*predicate.ty.kind {
                TypeNameKind::PackExpansion { pack, template } => match bound(
                    environment.type_packs,
                    pack.name@,
                ) {
                    None => {},
                    Some(pack_types) => match template {
                        Some(template) => {
                            template_bounds_keep(
                                types,
                                *template,
                                pack.name,
                                pack_types,
                                predicate.bounds,
                                environment,
                                predicate.span,
                                fuel,
                            );
                        },
                        None => {
                            pack_keeps(types, pack_types, predicate.bounds, predicate.span);
                        },
                    },
                },
                _ => {
                    resolving_keeps(types, predicate.ty, environment, fuel);
                    let (next, ty) = resolved(types, predicate.ty, environment, fuel);
                    if ty is Some {
                        bound_keeps(next, ty->0, predicate.bounds, predicate.span);
                    }
                },
            }
            let next = predicate_head(types, predicates.first(), environment, fuel);
            assert(types.keeps(next));
            predicates_keep(next, predicates.rest(), environment, fuel);
        },
    }
}

proof fn fields_keep<'a>(
    types: Types<'a>,
    fields: List<StructField<'a>>,
    environment: Environment<'a>,
    seen: List<&'a str>,
    fuel: nat,
)
    ensures
        types.keeps(fields_resolved(types, fields, environment, seen, fuel).0),
    decreases fuel, 4nat, fields,
{
    match &fields {
        List::Nil => {},
        List::Cons(node) => {
            let field = fields.first();
            let ready = field_head(types, field, seen);
            assert(types.keeps(ready));
            resolving_keeps(ready, field.ty, environment, fuel);
            let next = resolved(ready, field.ty, environment, fuel).0;
            let more = cons(field.name.name, seen);
            fields_keep(next, fields.rest(), environment, more, fuel);
        },
    }
}

proof fn present_keep<'a>(
    types: Types<'a>,
    written: List<TypeName<'a>>,
    environment: Environment<'a>,
    fuel: nat,
)
    ensures
        types.keeps(present_types(types, written, environment, fuel).0),
    decreases fuel, 3nat, written,
{
    match written {
        List::Nil => {},
        List::Cons(_) => {
            resolving_keeps(types, written.first(), environment, fuel);
            let next = resolved(types, written.first(), environment, fuel).0;
            present_keep(next, written.rest(), environment, fuel);
        },
    }
}

proof fn variants_keep<'a>(
    types: Types<'a>,
    variants: List<AstVariant<'a>>,
    environment: Environment<'a>,
    seen: List<&'a str>,
    fuel: nat,
)
    ensures
        types.keeps(variants_resolved(types, variants, environment, seen, fuel).0),
    decreases fuel, 5nat, variants,
{
    match &variants {
        List::Nil => {},
        List::Cons(node) => {
            let (ready, next) = variant_head(types, variants.first(), environment, seen, fuel);
            assert(types.keeps(ready));
            match &node.head.payload {
                EnumVariantPayload::Unit => {},
                EnumVariantPayload::Tuple(list) => {
                    present_keep(ready, *list, environment, fuel);
                },
                EnumVariantPayload::Struct(fields) => {
                    fields_keep(ready, *fields, environment, List::Nil, fuel);
                },
            }
            let more = cons(variants.first().name.name, seen);
            assert(types.keeps(next));
            variants_keep(next, variants.rest(), environment, more, fuel);
        },
    }
}

spec fn declared_fields<'a>(template: GenericTypeTemplate<'a>) -> List<StructField<'a>> {
    template->Struct_0.fields
}

spec fn declared_variants<'a>(template: GenericTypeTemplate<'a>) -> List<AstVariant<'a>> {
    template->Enum_0.variants
}

proof fn completing_keeps<'a>(
    types: Types<'a>,
    ty: Type,
    id: TypeId,
    template: GenericTypeTemplate<'a>,
    values: List<GenericValue>,
    environment: Environment<'a>,
    span: Span,
    fuel: nat,
)
    ensures
        types.keeps(completed(types, ty, id, template, values, environment, span, fuel).0),
    decreases fuel, 6nat, List::<Type>::Nil,
{
    reveal(filled);
    reveal(derives_checked);
    reveal(unhidden);
    match &template {
        GenericTypeTemplate::Struct(_) => {
            fields_keep(types, declared_fields(template), environment, List::Nil, fuel);
            let next = fields_resolved(
                types,
                declared_fields(template),
                environment,
                List::Nil,
                fuel,
            ).0;
            assert(next.keeps(
                completed(types, ty, id, template, values, environment, span, fuel).0,
            ));
        },
        GenericTypeTemplate::Enum(_) => {
            variants_keep(types, declared_variants(template), environment, List::Nil, fuel);
            let next = variants_resolved(
                types,
                declared_variants(template),
                environment,
                List::Nil,
                fuel,
            ).0;
            assert(next.keeps(
                completed(types, ty, id, template, values, environment, span, fuel).0,
            ));
        },
    }
}

proof fn instance_keeps<'a>(
    types: Types<'a>,
    name: &'a str,
    template: GenericTypeTemplate<'a>,
    values: List<GenericValue>,
    environment: Environment<'a>,
    span: Span,
    fuel: nat,
)
    ensures
        types.keeps(instance_of(types, name, template, values, environment, span, fuel).0),
        known_instance(types.generic_instances, name@, values) is None ==> ({
            let more = instance_of(types, name, template, values, environment, span, fuel).0;
            match reserved(types, name, template, values, span).1 {
                Some((ty, _)) => known_instance(more.generic_instances, name@, values) == Some(ty),
                None => true,
            }
        }),
    decreases fuel, 7nat, List::<Type>::Nil,
{
    reveal(unhidden);
    match known_instance(types.generic_instances, name@, values) {
        Some(_) => {},
        None => {
            let (next, found) = reserved(types, name, template, values, span);
            assert(types.keeps(next)) by {
                reveal(reserved);
                reveal(Types::keeps);
            }
            match found {
                Some((ty, id)) => {
                    assert(known_instance(next.generic_instances, name@, values) == Some(ty)) by {
                        reveal(reserved);
                    }
                    completing_keeps(next, ty, id, template, values, environment, span, fuel);
                    reveal(Types::keeps);
                },
                None => {},
            }
        },
    }
}

proof fn instantiating_keeps<'a>(
    types: Types<'a>,
    name: &'a str,
    arguments: List<GenericArgument<'a>>,
    outer: Environment<'a>,
    span: Span,
    fuel: nat,
)
    ensures
        types.keeps(instantiated(types, name, arguments, outer, span, fuel).0),
    decreases fuel, 9nat, List::<Type>::Nil,
{
    match bound(types.generic_templates, name@) {
        None => {},
        Some(template) => {
            let parameters = template.parameter_list();
            binding_keeps(types, parameters, arguments, outer, span, fuel);
            let (next, found) = arguments_bound(types, parameters, arguments, outer, span, fuel);
            if found is Some {
                let (values, environment) = found->0;
                let predicates = template_predicates(template);
                parameter_bounds_keep(next, parameters, environment, span);
                let after = parameter_bounds_checked(next, parameters, environment, span).0;
                predicates_keep(after, predicates, environment, fuel);
                let checked = bounds_checked(
                    next,
                    parameters,
                    predicates,
                    environment,
                    span,
                    fuel,
                ).0;
                assert(next.keeps(checked));
                instance_keeps(checked, name, template, values, environment, span, fuel);
            }
        },
    }
}

/// Resolving a written type touches nothing that is registered: whatever has a
/// type has the same type afterwards.
pub proof fn resolution_keeps_types<'a>(
    types: Types<'a>,
    written: TypeName<'a>,
    environment: Environment<'a>,
    fuel: nat,
)
    ensures
        types.keeps(resolved(types, written, environment, fuel).0),
{
    resolving_keeps(types, written, environment, fuel);
}

/// An instance of a generic type that has been made is found from now on:
/// asking for it again, for whatever reason, gives the same type and adds
/// neither a type nor a problem.
pub proof fn instances_of_types_are_shared<'a>(
    types: Types<'a>,
    name: &'a str,
    template: GenericTypeTemplate<'a>,
    values: List<GenericValue>,
    environment: Environment<'a>,
    span: Span,
    fuel: nat,
    again: Span,
    later_environment: Environment<'a>,
    later_fuel: nat,
)
    ensures
        ({
            let (more, ty) = instance_of(types, name, template, values, environment, span, fuel);
            ty is Some ==> instance_of(
                more,
                name,
                template,
                values,
                later_environment,
                again,
                later_fuel,
            ) == (more, ty)
        }),
{
    reveal(unhidden);
    instance_keeps(types, name, template, values, environment, span, fuel);
}

/// Whether a written type names no generic struct or enum.
pub open spec fn is_plain(written: TypeName) -> bool
    decreases written,
{
    match *written.kind {
        TypeNameKind::Function { parameters, return_type } => all_plain(parameters) && is_plain(
            return_type,
        ),
        TypeNameKind::Generic { path, arguments } => {
            &&& lone_name(path) is Some
            &&& lone_name(path)->0@ == "Option"@ || lone_name(path)->0@ == "Result"@
            &&& are_arguments_plain(arguments)
        },
        TypeNameKind::Tuple(elements) => all_plain(elements),
        TypeNameKind::PackExpansion { template, .. } => match template {
            Some(template) => is_plain(template),
            None => true,
        },
        TypeNameKind::Array { element, .. } => is_plain(element),
        TypeNameKind::Reference { target, .. } => is_plain(target),
        TypeNameKind::RawPointer { target, .. } => is_plain(target),
        TypeNameKind::Slice(element) => is_plain(element),
        _ => true,
    }
}

/// Whether written types name no generic struct or enum.
pub open spec fn all_plain(written: List<TypeName>) -> bool
    decreases written,
{
    match written {
        List::Nil => true,
        List::Cons(node) => is_plain(node.head) && all_plain(node.tail),
    }
}

/// Whether generic arguments name no generic struct or enum.
pub open spec fn are_arguments_plain(arguments: List<GenericArgument>) -> bool
    decreases arguments,
{
    match arguments {
        List::Nil => true,
        List::Cons(node) => are_arguments_plain(node.tail) && match node.head {
            GenericArgument::Type(ty) => is_plain(ty),
            GenericArgument::Const(_) => true,
            GenericArgument::Pack { template, .. } => match template {
                Some(template) => is_plain(template),
                None => true,
            },
        },
    }
}

/// Whether the instances of generic types that a written type names, itself or
/// in arguments and defaults, still stand.
pub open spec fn settled<'a>(
    types: Types<'a>,
    written: TypeName<'a>,
    environment: Environment<'a>,
    fuel: nat,
) -> bool
    decreases fuel, 0nat, List::<Type>::Nil,
{
    fuel > 0 ==> kind_settled(types, written, environment, (fuel - 1) as nat)
}

/// Whether the instances that a written type names still stand, by its form.
pub open spec fn kind_settled<'a>(
    types: Types<'a>,
    written: TypeName<'a>,
    environment: Environment<'a>,
    fuel: nat,
) -> bool
    decreases fuel, 11nat, List::<Type>::Nil,
{
    match *written.kind {
        TypeNameKind::Function { parameters, return_type } => sequence_settled(
            types,
            parameters,
            environment,
            fuel,
        ) && settled(types, return_type, environment, fuel),
        TypeNameKind::Generic { path, arguments } => generic_settled(
            types,
            path,
            arguments,
            environment,
            written.span,
            fuel,
        ),
        TypeNameKind::Tuple(elements) => sequence_settled(types, elements, environment, fuel),
        TypeNameKind::Array { element, .. } => settled(types, element, environment, fuel),
        TypeNameKind::Reference { target, .. } => match *target.kind {
            TypeNameKind::Slice(element) => settled(types, element, environment, fuel),
            _ => settled(types, target, environment, fuel),
        },
        TypeNameKind::RawPointer { target, .. } => settled(types, target, environment, fuel),
        _ => true,
    }
}

/// Whether the instances that written types name still stand.
pub open spec fn sequence_settled<'a>(
    types: Types<'a>,
    written: List<TypeName<'a>>,
    environment: Environment<'a>,
    fuel: nat,
) -> bool
    decreases fuel, 2nat, written,
{
    match written {
        List::Nil => true,
        List::Cons(node) => sequence_settled(types, node.tail, environment, fuel)
            && match *node.head.kind {
            TypeNameKind::PackExpansion { pack, template } => match (
                bound(environment.type_packs, pack.name@),
                template,
            ) {
                (Some(pack_types), Some(template)) => templates_settled(
                    types,
                    template,
                    pack.name,
                    pack_types,
                    environment,
                    fuel,
                ),
                _ => true,
            },
            _ => settled(types, node.head, environment, fuel),
        },
    }
}

/// Whether the instances that a template names still stand for each type of a
/// pack.
pub open spec fn templates_settled<'a>(
    types: Types<'a>,
    template: TypeName<'a>,
    name: &'a str,
    pack_types: List<Type>,
    environment: Environment<'a>,
    fuel: nat,
) -> bool
    decreases fuel, 1nat, pack_types,
{
    match pack_types {
        List::Nil => true,
        List::Cons(node) => settled(types, template, environment.with_type(name, node.head), fuel)
            && templates_settled(types, template, name, node.tail, environment, fuel),
    }
}

/// Whether a generic type with arguments still stands, and those that it names.
pub open spec fn generic_settled<'a>(
    types: Types<'a>,
    path: Path<'a>,
    arguments: List<GenericArgument<'a>>,
    environment: Environment<'a>,
    span: Span,
    fuel: nat,
) -> bool
    decreases fuel, 10nat, List::<Type>::Nil,
{
    match lone_name(path) {
        None => true,
        Some(name) => if name@ == "Option"@ && one_type_argument(arguments) is Some {
            settled(types, one_type_argument(arguments)->0, environment, fuel)
        } else if name@ == "Result"@ && two_type_arguments(arguments) is Some {
            let (success, error) = two_type_arguments(arguments)->0;
            settled(types, success, environment, fuel) && settled(types, error, environment, fuel)
        } else if name@ == "Option"@ || name@ == "Result"@ {
            true
        } else {
            instance_settled(types, name, arguments, environment, span, fuel)
        },
    }
}

/// Whether an instance still stands, and those that it names: its bounds still
/// hold, and it hides no scoped value.
pub open spec fn instance_settled<'a>(
    types: Types<'a>,
    name: &'a str,
    arguments: List<GenericArgument<'a>>,
    outer: Environment<'a>,
    span: Span,
    fuel: nat,
) -> bool
    decreases fuel, 9nat, List::<Type>::Nil,
{
    match bound(types.generic_templates, name@) {
        None => true,
        Some(template) => {
            let parameters = template.parameter_list();
            &&& arguments_settled(types, arguments, outer, fuel)
            &&& match argument_values(types, arguments, outer, fuel).1 {
                Some(supplied) => parameters_settled(types, parameters, supplied, outer, fuel),
                None => true,
            }
            &&& match arguments_bound(types, parameters, arguments, outer, span, fuel).1 {
                Some((values, environment)) => {
                    &&& bounds_checked(
                        types,
                        parameters,
                        template_predicates(template),
                        environment,
                        span,
                        fuel,
                    ) == (types, true)
                    &&& match known_instance(types.generic_instances, name@, values) {
                        Some(ty) => unhidden(types, values, ty, span).1 is Some,
                        None => true,
                    }
                },
                None => true,
            }
        },
    }
}

/// Whether the instances that generic arguments name still stand.
pub open spec fn arguments_settled<'a>(
    types: Types<'a>,
    arguments: List<GenericArgument<'a>>,
    environment: Environment<'a>,
    fuel: nat,
) -> bool
    decreases fuel, 3nat, arguments,
{
    match arguments {
        List::Nil => true,
        List::Cons(node) => arguments_settled(types, node.tail, environment, fuel)
            && match node.head {
            GenericArgument::Type(ty) => constant_argument(ty, environment) is Some || settled(
                types,
                ty,
                environment,
                fuel,
            ),
            GenericArgument::Const(_) => true,
            GenericArgument::Pack { pack, template, .. } => match (
                bound(environment.type_packs, pack.name@),
                template,
            ) {
                (Some(pack_types), Some(template)) => templates_settled(
                    types,
                    template,
                    pack.name,
                    pack_types,
                    environment,
                    fuel,
                ),
                _ => true,
            },
        },
    }
}

/// Whether the instances that the defaults of generic parameters name still
/// stand, as far as the defaults are used.
pub open spec fn parameters_settled<'a>(
    types: Types<'a>,
    parameters: List<GenericParameter<'a>>,
    supplied: List<GenericValue>,
    environment: Environment<'a>,
    fuel: nat,
) -> bool
    decreases fuel, 4nat, parameters,
{
    match parameters {
        List::Nil => true,
        List::Cons(node) => {
            let (_, left, inner) = parameter_head(types, node.head, supplied, environment, fuel);
            &&& parameters_settled(types, node.tail, left, inner, fuel)
            &&& match node.head {
                GenericParameter::Type { default: Some(default), .. } => supplied is Cons
                    || settled(types, default, environment, fuel),
                _ => true,
            }
        },
    }
}

proof fn lengths_are_stable<'a>(
    problems: Seq<Diagnostic<'a>>,
    length: Expression<'a>,
    constants: List<Entry<'a, u64>>,
    later: Seq<Diagnostic<'a>>,
)
    requires
        array_length(problems, length, constants).1 is Some,
    ensures
        array_length(later, length, constants) == (
            later,
            array_length(problems, length, constants).1,
        ),
        array_length(problems, length, constants).0 == problems,
    decreases length,
{
    match &*length.kind {
        ExpressionKind::Binary { left, right, .. } => {
            lengths_are_stable(problems, *left, constants, later);
            lengths_are_stable(problems, *right, constants, later);
        },
        _ => {},
    }
}

proof fn interned_types_are_stable<'a>(
    types: Types<'a>,
    key: StructuralType,
    name: Option<Text<'a>>,
    kind: TypeDefinitionKind<'a>,
    span: Span,
    later: Types<'a>,
)
    requires
        types.interned(key, name, kind, span).1 is Some,
        types.interned(key, name, kind, span).0.keeps(later),
    ensures
        types.keeps(later),
        later.interned(key, name, kind, span) == (later, types.interned(key, name, kind, span).1),
{
    interning_keeps(types, key, name, kind, span);
    let (more, ty) = types.interned(key, name, kind, span);
    assert(types.keeps(more));
    reveal(Types::keeps);
    assert(registered(more.structural, key) == ty);
}

proof fn types_are_stable<'a>(
    types: Types<'a>,
    written: TypeName<'a>,
    environment: Environment<'a>,
    fuel: nat,
    later: Types<'a>,
)
    requires
        settled(later, written, environment, fuel),
        resolved(types, written, environment, fuel).1 is Some,
        resolved(types, written, environment, fuel).0.keeps(later),
    ensures
        resolved(later, written, environment, fuel) == (
            later,
            resolved(types, written, environment, fuel).1,
        ),
    decreases fuel, 0nat, List::<Type>::Nil,
{
    kinds_are_stable(types, written, environment, (fuel - 1) as nat, later);
}

proof fn kinds_are_stable<'a>(
    types: Types<'a>,
    written: TypeName<'a>,
    environment: Environment<'a>,
    fuel: nat,
    later: Types<'a>,
)
    requires
        kind_settled(later, written, environment, fuel),
        kind_resolved(types, written, environment, fuel).1 is Some,
        kind_resolved(types, written, environment, fuel).0.keeps(later),
    ensures
        kind_resolved(later, written, environment, fuel) == (
            later,
            kind_resolved(types, written, environment, fuel).1,
        ),
    decreases fuel, 11nat, List::<Type>::Nil,
{
    let span = written.span;
    match &*written.kind {
        TypeNameKind::Function { parameters, return_type } => {
            let (first, found) = sequence_resolved(types, *parameters, environment, fuel);
            let (second, output) = resolved(first, *return_type, environment, fuel);
            resolving_keeps(first, *return_type, environment, fuel);
            assert(first.keeps(second));
            interned_types_are_stable(
                second,
                StructuralType::Function { parameters: found->0, return_type: output->0 },
                None,
                TypeDefinitionKind::Function { parameters: found->0, return_type: output->0 },
                span,
                later,
            );
            assert(first.keeps(later));
            sequences_are_stable(types, *parameters, environment, fuel, later);
            types_are_stable(first, *return_type, environment, fuel, later);
        },
        TypeNameKind::Generic { path, arguments } => {
            generics_are_stable(types, *path, *arguments, environment, span, fuel, later);
        },
        TypeNameKind::Tuple(elements) => {
            let (first, found) = sequence_resolved(types, *elements, environment, fuel);
            interned_types_are_stable(
                first,
                StructuralType::Tuple(found->0),
                None,
                TypeDefinitionKind::Tuple { elements: found->0 },
                span,
                later,
            );
            sequences_are_stable(types, *elements, environment, fuel, later);
        },
        TypeNameKind::Array { element, length } => {
            let (first, found) = resolved(types, *element, environment, fuel);
            reveal(length_resolved);
            let (second, length_found) = length_resolved(first, *length, environment);
            lengths_are_stable(
                first.problems,
                *length,
                environment.constants,
                later.problems,
            );
            let element_type = found->0;
            let value = length_found->0;
            interned_types_are_stable(
                second,
                StructuralType::Array { element: element_type, length: value },
                None,
                TypeDefinitionKind::Array { element: element_type, length: value },
                span,
                later,
            );
            types_are_stable(types, *element, environment, fuel, later);
        },
        TypeNameKind::Reference { mutable, target } => match &*target.kind {
            TypeNameKind::Slice(element) => {
                let (first, found) = resolved(types, *element, environment, fuel);
                interned_types_are_stable(
                    first,
                    StructuralType::Slice { element: found->0, mutable: *mutable },
                    None,
                    TypeDefinitionKind::Slice { element: found->0, mutable: *mutable },
                    span,
                    later,
                );
                types_are_stable(types, *element, environment, fuel, later);
            },
            _ => {
                let (first, found) = resolved(types, *target, environment, fuel);
                interned_types_are_stable(
                    first,
                    StructuralType::Reference { target: found->0, mutable: *mutable },
                    None,
                    TypeDefinitionKind::Reference { target: found->0, mutable: *mutable },
                    span,
                    later,
                );
                types_are_stable(types, *target, environment, fuel, later);
            },
        },
        TypeNameKind::RawPointer { mutable, target } => {
            let (first, found) = resolved(types, *target, environment, fuel);
            interned_types_are_stable(
                first,
                StructuralType::RawPointer { target: found->0, mutable: *mutable },
                None,
                TypeDefinitionKind::RawPointer { target: found->0, mutable: *mutable },
                span,
                later,
            );
            types_are_stable(types, *target, environment, fuel, later);
        },
        _ => {
            paths_are_stable(types, written, environment, fuel, later);
        },
    }
}

proof fn paths_are_stable<'a>(
    types: Types<'a>,
    written: TypeName<'a>,
    environment: Environment<'a>,
    fuel: nat,
    later: Types<'a>,
)
    requires
        *written.kind is Path || *written.kind is Unit || *written.kind is PackExpansion
            || *written.kind is Slice,
        kind_resolved(types, written, environment, fuel).1 is Some,
        kind_resolved(types, written, environment, fuel).0.keeps(later),
    ensures
        kind_resolved(later, written, environment, fuel) == (
            later,
            kind_resolved(types, written, environment, fuel).1,
        ),
{
    reveal(Types::keeps);
    reveal(path_resolved);
}

proof fn sequences_are_stable<'a>(
    types: Types<'a>,
    written: List<TypeName<'a>>,
    environment: Environment<'a>,
    fuel: nat,
    later: Types<'a>,
)
    requires
        sequence_settled(later, written, environment, fuel),
        sequence_resolved(types, written, environment, fuel).1 is Some,
        sequence_resolved(types, written, environment, fuel).0.keeps(later),
    ensures
        sequence_resolved(later, written, environment, fuel) == (
            later,
            sequence_resolved(types, written, environment, fuel).1,
        ),
    decreases fuel, 2nat, written,
{
    match &written {
        List::Nil => {},
        List::Cons(node) => {
            let next = sequence_head(types, written.first(), environment, fuel).0;
            sequence_keeps(next, written.rest(), environment, fuel);
            assert(sequence_resolved(types, written, environment, fuel).0 == sequence_resolved(
                next,
                written.rest(),
                environment,
                fuel,
            ).0);
            assert(next.keeps(later));
            match &*node.head.kind {
                TypeNameKind::PackExpansion { pack, template } => match (
                    bound(environment.type_packs, pack.name@),
                    template,
                ) {
                    (Some(pack_types), Some(template)) => {
                        templates_are_stable(
                            types,
                            *template,
                            pack.name,
                            pack_types,
                            environment,
                            fuel,
                            later,
                        );
                    },
                    _ => {},
                },
                _ => {
                    types_are_stable(types, written.first(), environment, fuel, later);
                },
            }
            sequences_are_stable(next, written.rest(), environment, fuel, later);
            assert(sequence_head(later, written.first(), environment, fuel) == (
                later,
                sequence_head(types, written.first(), environment, fuel).1,
            ));
        },
    }
}

proof fn templates_are_stable<'a>(
    types: Types<'a>,
    template: TypeName<'a>,
    name: &'a str,
    pack_types: List<Type>,
    environment: Environment<'a>,
    fuel: nat,
    later: Types<'a>,
)
    requires
        templates_settled(later, template, name, pack_types, environment, fuel),
        templates_resolved(types, template, name, pack_types, environment, fuel).1 is Some,
        templates_resolved(types, template, name, pack_types, environment, fuel).0.keeps(later),
    ensures
        templates_resolved(later, template, name, pack_types, environment, fuel) == (
            later,
            templates_resolved(types, template, name, pack_types, environment, fuel).1,
        ),
    decreases fuel, 1nat, pack_types,
{
    match pack_types {
        List::Nil => {},
        List::Cons(_) => {
            let inner = environment.with_type(name, pack_types.first());
            let next = resolved(types, template, inner, fuel).0;
            templates_keep(next, template, name, pack_types.rest(), environment, fuel);
            assert(next.keeps(later));
            types_are_stable(types, template, inner, fuel, later);
            templates_are_stable(
                next,
                template,
                name,
                pack_types.rest(),
                environment,
                fuel,
                later,
            );
        },
    }
}

proof fn generics_are_stable<'a>(
    types: Types<'a>,
    path: Path<'a>,
    arguments: List<GenericArgument<'a>>,
    environment: Environment<'a>,
    span: Span,
    fuel: nat,
    later: Types<'a>,
)
    requires
        generic_settled(later, path, arguments, environment, span, fuel),
        generic_resolved(types, path, arguments, environment, span, fuel).1 is Some,
        generic_resolved(types, path, arguments, environment, span, fuel).0.keeps(later),
    ensures
        generic_resolved(later, path, arguments, environment, span, fuel) == (
            later,
            generic_resolved(types, path, arguments, environment, span, fuel).1,
        ),
    decreases fuel, 10nat, List::<Type>::Nil,
{
    let name = lone_name(path)->0;
    if name@ == "Option"@ && one_type_argument(arguments) is Some {
        let argument = one_type_argument(arguments)->0;
        let (next, value) = resolved(types, argument, environment, fuel);
        option_keeps(next, value->0, span);
        assert(next.keeps(later));
        types_are_stable(types, argument, environment, fuel, later);
        assert(later.option(value->0, span) == (later, next.option(value->0, span).1)) by {
            reveal(Types::keeps);
        }
    } else if name@ == "Result"@ && two_type_arguments(arguments) is Some {
        let (success, error) = two_type_arguments(arguments)->0;
        let (first, left) = resolved(types, success, environment, fuel);
        resolving_keeps(first, error, environment, fuel);
        let (second, right) = resolved(first, error, environment, fuel);
        result_keeps(second, left->0, right->0, span);
        assert(second.keeps(later));
        assert(first.keeps(later));
        types_are_stable(types, success, environment, fuel, later);
        types_are_stable(first, error, environment, fuel, later);
        assert(later.result(left->0, right->0, span) == (
            later,
            second.result(left->0, right->0, span).1,
        )) by {
            reveal(Types::keeps);
        }
    } else {
        assert(generic_resolved(types, path, arguments, environment, span, fuel) == instantiated(
            types,
            name,
            arguments,
            environment,
            span,
            fuel,
        ));
        assert(generic_resolved(later, path, arguments, environment, span, fuel) == instantiated(
            later,
            name,
            arguments,
            environment,
            span,
            fuel,
        ));
        instances_are_stable(types, name, arguments, environment, span, fuel, later);
    }
}

proof fn instances_are_stable<'a>(
    types: Types<'a>,
    name: &'a str,
    arguments: List<GenericArgument<'a>>,
    environment: Environment<'a>,
    span: Span,
    fuel: nat,
    later: Types<'a>,
)
    requires
        instance_settled(later, name, arguments, environment, span, fuel),
        instantiated(types, name, arguments, environment, span, fuel).1 is Some,
        instantiated(types, name, arguments, environment, span, fuel).0.keeps(later),
    ensures
        instantiated(later, name, arguments, environment, span, fuel) == (
            later,
            instantiated(types, name, arguments, environment, span, fuel).1,
        ),
    decreases fuel, 9nat, List::<Type>::Nil,
{
    let (more, ty) = instantiated(types, name, arguments, environment, span, fuel);
    instantiating_keeps(types, name, arguments, environment, span, fuel);
    assert(types.keeps(later));
    assert(later.generic_templates == types.generic_templates) by {
        reveal(Types::keeps);
    }
    let template = bound(types.generic_templates, name@)->0;
    let parameters = template.parameter_list();
    let (next, found) = arguments_bound(types, parameters, arguments, environment, span, fuel);
    assert(found is Some);
    let (values, inner) = found->0;
    let predicates = template_predicates(template);
    parameter_bounds_keep(next, parameters, inner, span);
    let after = parameter_bounds_checked(next, parameters, inner, span).0;
    predicates_keep(after, predicates, inner, fuel);
    let checked = bounds_checked(next, parameters, predicates, inner, span, fuel).0;
    assert(next.keeps(checked));
    instance_keeps(checked, name, template, values, inner, span, fuel);
    assert(instance_of(checked, name, template, values, inner, span, fuel) == (more, ty));
    assert(checked.keeps(more));
    assert(checked.keeps(later));
    assert(next.keeps(later));
    bindings_are_stable(types, parameters, arguments, environment, span, fuel, later);
    made_instances_are_known(checked, name, template, values, inner, span, fuel);
    known_instances_stay(more, later, name@, values);
    assert(instance_of(later, name, template, values, inner, span, fuel) == (later, ty)) by {
        reveal(unhidden);
    }
    assert(checked_instance(later, name, template, values, inner, span, fuel) == (later, ty));
}

proof fn known_instances_stay<'a>(
    types: Types<'a>,
    later: Types<'a>,
    name: Seq<char>,
    values: List<GenericValue>,
)
    requires
        types.keeps(later),
        known_instance(types.generic_instances, name, values) is Some,
    ensures
        known_instance(later.generic_instances, name, values) == known_instance(
            types.generic_instances,
            name,
            values,
        ),
{
    reveal(Types::keeps);
}

proof fn reserved_instances_are_known<'a>(
    types: Types<'a>,
    name: &'a str,
    template: GenericTypeTemplate<'a>,
    values: List<GenericValue>,
    span: Span,
)
    requires
        reserved(types, name, template, values, span).1 is Some,
    ensures
        ({
            let (held, found) = reserved(types, name, template, values, span);
            let (ty, _) = found->0;
            known_instance(held.generic_instances, name@, values) == Some(ty)
        }),
{
    reveal(reserved);
}

/// An instance that has been made is known.
proof fn made_instances_are_known<'a>(
    types: Types<'a>,
    name: &'a str,
    template: GenericTypeTemplate<'a>,
    values: List<GenericValue>,
    environment: Environment<'a>,
    span: Span,
    fuel: nat,
)
    requires
        instance_of(types, name, template, values, environment, span, fuel).1 is Some,
    ensures
        ({
            let (more, ty) = instance_of(types, name, template, values, environment, span, fuel);
            known_instance(more.generic_instances, name@, values) == ty
        }),
{
    let (more, result) = instance_of(types, name, template, values, environment, span, fuel);
    match known_instance(types.generic_instances, name@, values) {
        Some(ty) => {
            reveal(unhidden);
            assert(more == types);
        },
        None => {
            let (held, found) = reserved(types, name, template, values, span);
            let (ty, id) = found->0;
            reserved_instances_are_known(types, name, template, values, span);
            completing_keeps(held, ty, id, template, values, environment, span, fuel);
            let ended = completed(held, ty, id, template, values, environment, span, fuel);
            assert(ended == (more, result));
            known_instances_stay(held, more, name@, values);
            assert(result == Some(ty)) by {
                completed_instance_is_given(
                    held,
                    ty,
                    id,
                    template,
                    values,
                    environment,
                    span,
                    fuel,
                );
            }
        },
    }
}

proof fn completed_instance_is_given<'a>(
    types: Types<'a>,
    ty: Type,
    id: TypeId,
    template: GenericTypeTemplate<'a>,
    values: List<GenericValue>,
    environment: Environment<'a>,
    span: Span,
    fuel: nat,
)
    ensures
        ({
            let result = completed(types, ty, id, template, values, environment, span, fuel).1;
            result is Some ==> result == Some(ty)
        }),
{
    reveal(unhidden);
}

proof fn bindings_are_stable<'a>(
    types: Types<'a>,
    parameters: List<GenericParameter<'a>>,
    arguments: List<GenericArgument<'a>>,
    outer: Environment<'a>,
    span: Span,
    fuel: nat,
    later: Types<'a>,
)
    requires
        arguments_settled(later, arguments, outer, fuel),
        match argument_values(later, arguments, outer, fuel).1 {
            Some(supplied) => parameters_settled(later, parameters, supplied, outer, fuel),
            None => true,
        },
        arguments_bound(types, parameters, arguments, outer, span, fuel).1 is Some,
        arguments_bound(types, parameters, arguments, outer, span, fuel).0.keeps(later),
    ensures
        arguments_bound(later, parameters, arguments, outer, span, fuel) == (
            later,
            arguments_bound(types, parameters, arguments, outer, span, fuel).1,
        ),
    decreases fuel, 7nat, List::<Type>::Nil,
{
    let (next, supplied) = argument_values(types, arguments, outer, fuel);
    assert(supplied is Some);
    let bound = parameters_bound(next, parameters, supplied->0, outer, span, fuel);
    assert(arguments_bound(types, parameters, arguments, outer, span, fuel) == bound);
    parameters_keep(next, parameters, supplied->0, outer, span, fuel);
    assert(next.keeps(later));
    arguments_are_stable(types, arguments, outer, fuel, later);
    parameters_are_stable(next, parameters, supplied->0, outer, span, fuel, later);
}

proof fn arguments_are_stable<'a>(
    types: Types<'a>,
    arguments: List<GenericArgument<'a>>,
    environment: Environment<'a>,
    fuel: nat,
    later: Types<'a>,
)
    requires
        arguments_settled(later, arguments, environment, fuel),
        argument_values(types, arguments, environment, fuel).1 is Some,
        argument_values(types, arguments, environment, fuel).0.keeps(later),
    ensures
        argument_values(later, arguments, environment, fuel) == (
            later,
            argument_values(types, arguments, environment, fuel).1,
        ),
    decreases fuel, 3nat, arguments,
{
    reveal(length_resolved);
    match &arguments {
        List::Nil => {},
        List::Cons(node) => {
            let next = argument_head(types, arguments.first(), environment, fuel).0;
            arguments_keep(next, arguments.rest(), environment, fuel);
            assert(argument_values(types, arguments, environment, fuel).0 == argument_values(
                next,
                arguments.rest(),
                environment,
                fuel,
            ).0);
            assert(next.keeps(later));
            match &node.head {
                GenericArgument::Type(ty) => {
                    if constant_argument(*ty, environment) is None {
                        types_are_stable(types, *ty, environment, fuel, later);
                    }
                },
                GenericArgument::Const(value) => {
                    lengths_are_stable(
                        types.problems,
                        *value,
                        environment.constants,
                        later.problems,
                    );
                },
                GenericArgument::Pack { pack, template, .. } => match (
                    bound(environment.type_packs, pack.name@),
                    template,
                ) {
                    (Some(pack_types), Some(template)) => {
                        templates_are_stable(
                            types,
                            *template,
                            pack.name,
                            pack_types,
                            environment,
                            fuel,
                            later,
                        );
                    },
                    _ => {},
                },
            }
            arguments_are_stable(next, arguments.rest(), environment, fuel, later);
            assert(argument_head(later, arguments.first(), environment, fuel) == (
                later,
                argument_head(types, arguments.first(), environment, fuel).1,
            ));
        },
    }
}

proof fn parameters_are_stable<'a>(
    types: Types<'a>,
    parameters: List<GenericParameter<'a>>,
    supplied: List<GenericValue>,
    environment: Environment<'a>,
    span: Span,
    fuel: nat,
    later: Types<'a>,
)
    requires
        parameters_settled(later, parameters, supplied, environment, fuel),
        parameters_bound(types, parameters, supplied, environment, span, fuel).1 is Some,
        parameters_bound(types, parameters, supplied, environment, span, fuel).0.keeps(later),
    ensures
        parameters_bound(later, parameters, supplied, environment, span, fuel) == (
            later,
            parameters_bound(types, parameters, supplied, environment, span, fuel).1,
        ),
    decreases fuel, 4nat, parameters,
{
    reveal(length_resolved);
    match &parameters {
        List::Nil => {},
        List::Cons(node) => {
            let (next, left, inner) = parameter_head(
                types,
                parameters.first(),
                supplied,
                environment,
                fuel,
            );
            parameters_keep(next, parameters.rest(), left, inner, span, fuel);
            assert(parameters_bound(types, parameters, supplied, environment, span, fuel).0
                == parameters_bound(next, parameters.rest(), left, inner, span, fuel).0);
            assert(next.keeps(later));
            match &node.head {
                GenericParameter::Type { default: Some(default), .. } => {
                    if supplied is Nil {
                        types_are_stable(types, *default, environment, fuel, later);
                    }
                },
                GenericParameter::Const { default: Some(default), .. } => {
                    if supplied is Nil {
                        lengths_are_stable(
                            types.problems,
                            *default,
                            environment.constants,
                            later.problems,
                        );
                    }
                },
                _ => {},
            }
            parameters_are_stable(next, parameters.rest(), left, inner, span, fuel, later);
        },
    }
}

proof fn plain_types_are_settled<'a>(
    types: Types<'a>,
    written: TypeName<'a>,
    environment: Environment<'a>,
    fuel: nat,
)
    requires
        is_plain(written),
    ensures
        settled(types, written, environment, fuel),
    decreases fuel, 0nat, List::<Type>::Nil,
{
    if fuel > 0 {
        let less = (fuel - 1) as nat;
        match &*written.kind {
            TypeNameKind::Function { parameters, return_type } => {
                plain_sequences_are_settled(types, *parameters, environment, less);
                plain_types_are_settled(types, *return_type, environment, less);
            },
            TypeNameKind::Generic { path, arguments } => {
                plain_arguments_are_settled(types, *arguments, environment, less);
                assert(generic_settled(
                    types,
                    *path,
                    *arguments,
                    environment,
                    written.span,
                    less,
                ));
            },
            TypeNameKind::Tuple(elements) => {
                plain_sequences_are_settled(types, *elements, environment, less);
            },
            TypeNameKind::Array { element, .. } => {
                plain_types_are_settled(types, *element, environment, less);
            },
            TypeNameKind::Reference { target, .. } => match &*target.kind {
                TypeNameKind::Slice(element) => {
                    assert(is_plain(*target));
                    plain_types_are_settled(types, *element, environment, less);
                },
                _ => {
                    plain_types_are_settled(types, *target, environment, less);
                },
            },
            TypeNameKind::RawPointer { target, .. } => {
                plain_types_are_settled(types, *target, environment, less);
            },
            _ => {},
        }
        assert(kind_settled(types, written, environment, less));
    }
}

proof fn plain_arguments_are_settled<'a>(
    types: Types<'a>,
    arguments: List<GenericArgument<'a>>,
    environment: Environment<'a>,
    fuel: nat,
)
    requires
        are_arguments_plain(arguments),
    ensures
        one_type_argument(arguments) is Some ==> settled(
            types,
            one_type_argument(arguments)->0,
            environment,
            fuel,
        ),
        two_type_arguments(arguments) is Some ==> ({
            let (success, error) = two_type_arguments(arguments)->0;
            settled(types, success, environment, fuel) && settled(types, error, environment, fuel)
        }),
    decreases fuel, 3nat, List::<Type>::Nil,
{
    reveal_with_fuel(are_arguments_plain, 3);
    if one_type_argument(arguments) is Some {
        plain_types_are_settled(types, one_type_argument(arguments)->0, environment, fuel);
    }
    if two_type_arguments(arguments) is Some {
        let (success, error) = two_type_arguments(arguments)->0;
        plain_types_are_settled(types, success, environment, fuel);
        plain_types_are_settled(types, error, environment, fuel);
    }
}

proof fn plain_sequences_are_settled<'a>(
    types: Types<'a>,
    written: List<TypeName<'a>>,
    environment: Environment<'a>,
    fuel: nat,
)
    requires
        all_plain(written),
    ensures
        sequence_settled(types, written, environment, fuel),
    decreases fuel, 2nat, written,
{
    match &written {
        List::Nil => {},
        List::Cons(node) => {
            plain_sequences_are_settled(types, written.rest(), environment, fuel);
            assert(is_plain(node.head));
            match &*node.head.kind {
                TypeNameKind::PackExpansion { pack, template } => match (
                    bound(environment.type_packs, pack.name@),
                    template,
                ) {
                    (Some(pack_types), Some(template)) => {
                        plain_templates_are_settled(
                            types,
                            *template,
                            pack.name,
                            pack_types,
                            environment,
                            fuel,
                        );
                    },
                    _ => {},
                },
                _ => {
                    plain_types_are_settled(types, written.first(), environment, fuel);
                },
            }
        },
    }
}

proof fn plain_templates_are_settled<'a>(
    types: Types<'a>,
    template: TypeName<'a>,
    name: &'a str,
    pack_types: List<Type>,
    environment: Environment<'a>,
    fuel: nat,
)
    requires
        is_plain(template),
    ensures
        templates_settled(types, template, name, pack_types, environment, fuel),
    decreases fuel, 1nat, pack_types,
{
    match pack_types {
        List::Nil => {},
        List::Cons(_) => {
            let inner = environment.with_type(name, pack_types.first());
            plain_types_are_settled(types, template, inner, fuel);
            plain_templates_are_settled(
                types,
                template,
                name,
                pack_types.rest(),
                environment,
                fuel,
            );
        },
    }
}

/// A written type stands for one type: where it has been resolved, and the
/// instances of generic types that it names, itself or in arguments and
/// defaults, still stand, resolving it again, at once or after other types,
/// gives the same type and adds neither a type nor a problem.
pub proof fn written_types_resolve_alike<'a>(
    types: Types<'a>,
    written: TypeName<'a>,
    environment: Environment<'a>,
    fuel: nat,
    later: Types<'a>,
)
    requires
        resolved(types, written, environment, fuel).1 is Some,
        resolved(types, written, environment, fuel).0.keeps(later),
        settled(later, written, environment, fuel),
    ensures
        resolved(later, written, environment, fuel) == (
            later,
            resolved(types, written, environment, fuel).1,
        ),
{
    types_are_stable(types, written, environment, fuel, later);
}

/// A written type without generic structs and enums stands for one type
/// unconditionally.
pub proof fn plain_types_resolve_alike<'a>(
    types: Types<'a>,
    written: TypeName<'a>,
    environment: Environment<'a>,
    fuel: nat,
    later: Types<'a>,
)
    requires
        is_plain(written),
        resolved(types, written, environment, fuel).1 is Some,
        resolved(types, written, environment, fuel).0.keeps(later),
    ensures
        resolved(later, written, environment, fuel) == (
            later,
            resolved(types, written, environment, fuel).1,
        ),
        ({
            let (more, ty) = resolved(types, written, environment, fuel);
            resolved(more, written, environment, fuel) == (more, ty)
        }),
{
    let more = resolved(types, written, environment, fuel).0;
    plain_types_are_settled(later, written, environment, fuel);
    plain_types_are_settled(more, written, environment, fuel);
    types_are_stable(types, written, environment, fuel, later);
    types_are_stable(types, written, environment, fuel, more);
}

} // verus!

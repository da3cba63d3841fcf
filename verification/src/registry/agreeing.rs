//! That inference is right: under the bindings that are found, a written type
//! stands for the type that it was held against.

use crate::ast::{
    lone_name, Expression, ExpressionKind, GenericArgument, GenericParameter, TypeName,
    TypeNameKind,
};
use crate::generics::{
    bound, const_bound, const_inferred, declares_const, declares_type, newest_entry_counts,
    pack_bound, type_bound, Environment, GenericValue,
};
use crate::list::List;
use crate::registry::inference::{
    argument_inferred, argument_pairs_inferred, arguments_inferred, expansions, inferred,
    pack_arguments, pairs_inferred, sequence_inferred,
};
use crate::registry::{IntrinsicType, Types};
use crate::types::Type;
use vstd::prelude::*;

verus! {

/// Whether bindings are still there among later ones, and only declared
/// parameters have been bound since.
pub open spec fn binds_on<'a>(
    before: Environment<'a>,
    after: Environment<'a>,
    parameters: List<GenericParameter<'a>>,
) -> bool {
    &&& forall|name: Seq<char>| #[trigger]
        bound(before.types, name) is Some ==> bound(after.types, name) == bound(before.types, name)
    &&& forall|name: Seq<char>|
        !declares_type(parameters, name) ==> #[trigger] bound(after.types, name) == bound(
            before.types,
            name,
        )
    &&& forall|name: Seq<char>| #[trigger]
        bound(before.type_packs, name) is Some ==> bound(after.type_packs, name) == bound(
            before.type_packs,
            name,
        )
    &&& forall|name: Seq<char>| #[trigger]
        bound(before.constants, name) is Some ==> bound(after.constants, name) == bound(
            before.constants,
            name,
        )
}

/// Whether a written type stands for an actual one under bindings of generic
/// parameters.
pub open spec fn agrees<'a>(
    types: Types<'a>,
    pattern: TypeName<'a>,
    actual: Type,
    parameters: List<GenericParameter<'a>>,
    environment: Environment<'a>,
) -> bool
    decreases pattern,
{
    match *pattern.kind {
        TypeNameKind::Unit => actual is Unit,
        TypeNameKind::Path(path) => match lone_name(path) {
            None => false,
            Some(name) => if declares_type(parameters, name@) {
                bound(environment.types, name@) == Some(actual)
            } else {
                types.named(environment, name@) == Some(actual)
            },
        },
        TypeNameKind::Function { parameters: patterns, return_type } => match types.function_shape(
            actual,
        ) {
            Some((inputs, output)) => are_as_many(patterns, inputs) && all_agree(
                types,
                patterns,
                inputs,
                parameters,
                environment,
            ) && agrees(types, return_type, output, parameters, environment),
            None => false,
        },
        TypeNameKind::Tuple(patterns) => match types.tuple_shape(actual) {
            Some(elements) => are_as_many(patterns, elements) && all_agree(
                types,
                patterns,
                elements,
                parameters,
                environment,
            ),
            None => false,
        },
        TypeNameKind::Array { element, length } => match types.array_shape(actual) {
            Some((actual_element, actual_length)) => agrees(
                types,
                element,
                actual_element,
                parameters,
                environment,
            ) && number_agrees(length, actual_length, parameters, environment),
            None => false,
        },
        TypeNameKind::Slice(element) => match types.slice_shape(actual) {
            Some((actual_element, _)) => agrees(
                types,
                element,
                actual_element,
                parameters,
                environment,
            ),
            None => false,
        },
        TypeNameKind::Reference { mutable, target } => match *target.kind {
            TypeNameKind::Slice(element) => match types.slice_shape(actual) {
                Some((actual_element, changeable)) => changeable == mutable && agrees(
                    types,
                    element,
                    actual_element,
                    parameters,
                    environment,
                ),
                None => false,
            },
            _ => match types.pointer_shape(actual) {
                Some((actual_target, changeable, raw)) => !raw && changeable == mutable && agrees(
                    types,
                    target,
                    actual_target,
                    parameters,
                    environment,
                ),
                None => false,
            },
        },
        TypeNameKind::RawPointer { mutable, target } => match types.pointer_shape(actual) {
            Some((actual_target, changeable, raw)) => raw && changeable == mutable && agrees(
                types,
                target,
                actual_target,
                parameters,
                environment,
            ),
            None => false,
        },
        TypeNameKind::Generic { path, arguments } => match lone_name(path) {
            None => false,
            Some(name) => if name@ == "Option"@ {
                match types.intrinsic(actual) {
                    Some(IntrinsicType::Option { value }) => arguments is Cons
                        && arguments.rest() is Nil && argument_agrees(
                        types,
                        arguments.first(),
                        GenericValue::Type(value),
                        parameters,
                        environment,
                    ),
                    _ => false,
                }
            } else if name@ == "Result"@ {
                match types.intrinsic(actual) {
                    Some(IntrinsicType::Result { success, error }) => arguments is Cons
                        && arguments.rest() is Cons && arguments.rest().rest() is Nil
                        && argument_agrees(
                        types,
                        arguments.first(),
                        GenericValue::Type(success),
                        parameters,
                        environment,
                    ) && argument_agrees(
                        types,
                        arguments.rest().first(),
                        GenericValue::Type(error),
                        parameters,
                        environment,
                    ),
                    _ => false,
                }
            } else {
                match types.generic_instance(actual) {
                    Some((base, values)) => base@ == name@ && (pack_arguments(arguments) == 0
                        ==> arguments.count() == values.count()) && arguments_agree(
                        types,
                        arguments,
                        values,
                        parameters,
                        environment,
                    ),
                    None => false,
                }
            },
        },
        TypeNameKind::PackExpansion { .. } => false,
    }
}

/// Whether there are as many written types as actual ones, unless one of them
/// stands for several.
pub open spec fn are_as_many(patterns: List<TypeName>, actual: List<Type>) -> bool {
    expansions(patterns) == 0 ==> patterns.count() == actual.count()
}

/// Whether written types stand for actual ones in order, up to the first that
/// stands for several.
pub open spec fn all_agree<'a>(
    types: Types<'a>,
    patterns: List<TypeName<'a>>,
    actual: List<Type>,
    parameters: List<GenericParameter<'a>>,
    environment: Environment<'a>,
) -> bool
    decreases patterns,
{
    match patterns {
        List::Nil => true,
        List::Cons(node) => match actual {
            List::Nil => true,
            List::Cons(first) => *node.head.kind is PackExpansion || (agrees(
                types,
                node.head,
                first.head,
                parameters,
                environment,
            ) && all_agree(types, node.tail, first.tail, parameters, environment)),
        },
    }
}

/// Whether generic arguments stand for actual ones in order, up to the first
/// that stands for several.
pub open spec fn arguments_agree<'a>(
    types: Types<'a>,
    arguments: List<GenericArgument<'a>>,
    actual: List<GenericValue>,
    parameters: List<GenericParameter<'a>>,
    environment: Environment<'a>,
) -> bool
    decreases arguments,
{
    match arguments {
        List::Nil => true,
        List::Cons(node) => match actual {
            List::Nil => true,
            List::Cons(first) => node.head is Pack || (argument_agrees(
                types,
                node.head,
                first.head,
                parameters,
                environment,
            ) && arguments_agree(types, node.tail, first.tail, parameters, environment)),
        },
    }
}

/// Whether a generic argument stands for an actual one.
pub open spec fn argument_agrees<'a>(
    types: Types<'a>,
    argument: GenericArgument<'a>,
    actual: GenericValue,
    parameters: List<GenericParameter<'a>>,
    environment: Environment<'a>,
) -> bool
    decreases argument,
{
    match argument {
        GenericArgument::Type(pattern) => match actual {
            GenericValue::Type(ty) => agrees(types, pattern, ty, parameters, environment),
            GenericValue::Const(number) => match *pattern.kind {
                TypeNameKind::Path(path) => lone_name(path) is Some && bound(
                    environment.constants,
                    lone_name(path)->0@,
                ) == Some(number),
                _ => false,
            },
        },
        GenericArgument::Const(pattern) => match actual {
            GenericValue::Const(number) => number_agrees(
                pattern,
                number,
                parameters,
                environment,
            ),
            GenericValue::Type(_) => false,
        },
        GenericArgument::Pack { .. } => false,
    }
}

/// Whether a parameter that is written for a number is bound to it.
pub open spec fn number_agrees<'a>(
    pattern: Expression<'a>,
    actual: u64,
    parameters: List<GenericParameter<'a>>,
    environment: Environment<'a>,
) -> bool {
    match *pattern.kind {
        ExpressionKind::Path(path) => lone_name(path) is Some && declares_const(
            parameters,
            lone_name(path)->0@,
        ) ==> bound(environment.constants, lone_name(path)->0@) == Some(actual),
        _ => true,
    }
}

proof fn bindings_add_up<'a>(
    first: Environment<'a>,
    second: Environment<'a>,
    third: Environment<'a>,
    parameters: List<GenericParameter<'a>>,
)
    requires
        binds_on(first, second, parameters),
        binds_on(second, third, parameters),
    ensures
        binds_on(first, third, parameters),
{
    assert forall|name: Seq<char>| #[trigger] bound(first.types, name) is Some implies bound(
        third.types,
        name,
    ) == bound(first.types, name) by {
        assert(bound(second.types, name) is Some);
    }
    assert forall|name: Seq<char>| !declares_type(parameters, name) implies #[trigger] bound(
        third.types,
        name,
    ) == bound(first.types, name) by {
        assert(bound(second.types, name) == bound(first.types, name));
    }
    assert forall|name: Seq<char>| #[trigger] bound(first.type_packs, name) is Some implies bound(
        third.type_packs,
        name,
    ) == bound(first.type_packs, name) by {
        assert(bound(second.type_packs, name) is Some);
    }
    assert forall|name: Seq<char>| #[trigger] bound(first.constants, name) is Some implies bound(
        third.constants,
        name,
    ) == bound(first.constants, name) by {
        assert(bound(second.constants, name) is Some);
    }
}

proof fn bound_type_is_added<'a>(
    environment: Environment<'a>,
    name: &'a str,
    ty: Type,
    parameters: List<GenericParameter<'a>>,
)
    requires
        declares_type(parameters, name@),
    ensures
        binds_on(environment, type_bound(environment, name, ty).0, parameters),
        type_bound(environment, name, ty).1 ==> bound(
            type_bound(environment, name, ty).0.types,
            name@,
        ) == Some(ty),
{
    assert forall|other: Seq<char>| #[trigger]
        bound(environment.with_type(name, ty).types, other) == (if name@ == other {
            Some(ty)
        } else {
            bound(environment.types, other)
        }) by {
        newest_entry_counts(name, ty, environment.types, other);
    }
}

proof fn bound_pack_is_added<'a>(
    environment: Environment<'a>,
    name: &'a str,
    pack: List<Type>,
    parameters: List<GenericParameter<'a>>,
)
    ensures
        binds_on(environment, pack_bound(environment, name, pack).0, parameters),
{
    assert forall|other: Seq<char>| #[trigger]
        bound(environment.with_pack(name, pack).type_packs, other) == (if name@ == other {
            Some(pack)
        } else {
            bound(environment.type_packs, other)
        }) by {
        newest_entry_counts(name, pack, environment.type_packs, other);
    }
}

proof fn bound_number_is_added<'a>(
    environment: Environment<'a>,
    name: &'a str,
    number: u64,
    parameters: List<GenericParameter<'a>>,
)
    ensures
        binds_on(environment, const_bound(environment, name, number).0, parameters),
        const_bound(environment, name, number).1 ==> bound(
            const_bound(environment, name, number).0.constants,
            name@,
        ) == Some(number),
{
    assert forall|other: Seq<char>| #[trigger]
        bound(environment.with_constant(name, number).constants, other) == (if name@ == other {
            Some(number)
        } else {
            bound(environment.constants, other)
        }) by {
        newest_entry_counts(name, number, environment.constants, other);
    }
}

proof fn number_is_inferred<'a>(
    pattern: Expression<'a>,
    actual: u64,
    parameters: List<GenericParameter<'a>>,
    environment: Environment<'a>,
)
    ensures
        ({
            let (after, found) = const_inferred(pattern, actual, parameters, environment);
            binds_on(environment, after, parameters) && (found ==> number_agrees(
                pattern,
                actual,
                parameters,
                after,
            ))
        }),
{
    match &*pattern.kind {
        ExpressionKind::Path(path) => {
            if let Some(name) = lone_name(*path) {
                bound_number_is_added(environment, name, actual, parameters);
            }
        },
        _ => {},
    }
}

spec fn inner(pattern: TypeName) -> TypeName {
    match *pattern.kind {
        TypeNameKind::Function { return_type, .. } => return_type,
        TypeNameKind::Array { element, .. } => element,
        TypeNameKind::Slice(element) => element,
        TypeNameKind::Reference { target, .. } => match *target.kind {
            TypeNameKind::Slice(element) => element,
            _ => target,
        },
        TypeNameKind::RawPointer { target, .. } => target,
        _ => pattern,
    }
}

spec fn is_expansion(pattern: TypeName) -> bool {
    *pattern.kind is PackExpansion
}

spec fn inners(pattern: TypeName) -> List<TypeName> {
    match *pattern.kind {
        TypeNameKind::Function { parameters, .. } => parameters,
        TypeNameKind::Tuple(elements) => elements,
        _ => List::Nil,
    }
}

spec fn arguments_of(pattern: TypeName) -> List<GenericArgument> {
    match *pattern.kind {
        TypeNameKind::Generic { arguments, .. } => arguments,
        _ => List::Nil,
    }
}

spec fn length_of(pattern: TypeName) -> Expression {
    match *pattern.kind {
        TypeNameKind::Array { length, .. } => length,
        _ => arbitrary(),
    }
}

spec fn name_of<'a>(pattern: TypeName<'a>) -> Option<&'a str> {
    match *pattern.kind {
        TypeNameKind::Generic { path, .. } => lone_name(path),
        TypeNameKind::Path(path) => lone_name(path),
        _ => None,
    }
}

/// What the inner type of a written type is held against.
spec fn inner_actual(types: Types, pattern: TypeName, actual: Type) -> Type {
    match *pattern.kind {
        TypeNameKind::Function { .. } => (types.function_shape(actual)->0).1,
        TypeNameKind::Array { .. } => (types.array_shape(actual)->0).0,
        TypeNameKind::Slice(_) => (types.slice_shape(actual)->0).0,
        TypeNameKind::Reference { target, .. } => match *target.kind {
            TypeNameKind::Slice(_) => (types.slice_shape(actual)->0).0,
            _ => (types.pointer_shape(actual)->0).0,
        },
        TypeNameKind::RawPointer { .. } => (types.pointer_shape(actual)->0).0,
        _ => actual,
    }
}

/// What the inner types of a written type are held against.
spec fn inner_actuals(types: Types, pattern: TypeName, actual: Type) -> List<Type> {
    match *pattern.kind {
        TypeNameKind::Function { .. } => (types.function_shape(actual)->0).0,
        TypeNameKind::Tuple(_) => types.tuple_shape(actual)->0,
        _ => List::Nil,
    }
}

/// What the arguments of a written type are held against.
spec fn values_of(types: Types, pattern: TypeName, actual: Type) -> List<GenericValue> {
    if name_of(pattern)->0@ == "Option"@ {
        crate::list::single(GenericValue::Type(types.intrinsic(actual)->0->value))
    } else if name_of(pattern)->0@ == "Result"@ {
        crate::list::cons(
            GenericValue::Type(types.intrinsic(actual)->0->success),
            crate::list::single(GenericValue::Type(types.intrinsic(actual)->0->error)),
        )
    } else {
        (types.generic_instance(actual)->0).1
    }
}

// What agrees goes on to agree.

proof fn agreement_lasts<'a>(
    types: Types<'a>,
    pattern: TypeName<'a>,
    actual: Type,
    parameters: List<GenericParameter<'a>>,
    before: Environment<'a>,
    after: Environment<'a>,
)
    requires
        agrees(types, pattern, actual, parameters, before),
        binds_on(before, after, parameters),
    ensures
        agrees(types, pattern, actual, parameters, after),
    decreases pattern,
{
    match &*pattern.kind {
        TypeNameKind::Function { .. } => {
            all_agreements_last(
                types,
                inners(pattern),
                inner_actuals(types, pattern, actual),
                parameters,
                before,
                after,
            );
            agreement_lasts(
                types,
                inner(pattern),
                inner_actual(types, pattern, actual),
                parameters,
                before,
                after,
            );
        },
        TypeNameKind::Tuple(_) => {
            all_agreements_last(
                types,
                inners(pattern),
                inner_actuals(types, pattern, actual),
                parameters,
                before,
                after,
            );
        },
        TypeNameKind::Array { .. }
        | TypeNameKind::Slice(_)
        | TypeNameKind::Reference { .. }
        | TypeNameKind::RawPointer { .. } => {
            agreement_lasts(
                types,
                inner(pattern),
                inner_actual(types, pattern, actual),
                parameters,
                before,
                after,
            );
        },
        TypeNameKind::Generic { .. } => {
            let arguments = arguments_of(pattern);
            let values = values_of(types, pattern, actual);
            if name_of(pattern)->0@ == "Option"@ {
                argument_agreement_lasts(
                    types,
                    arguments.first(),
                    values.first(),
                    parameters,
                    before,
                    after,
                );
            } else if name_of(pattern)->0@ == "Result"@ {
                argument_agreement_lasts(
                    types,
                    arguments.first(),
                    values.first(),
                    parameters,
                    before,
                    after,
                );
                argument_agreement_lasts(
                    types,
                    arguments.rest().first(),
                    values.rest().first(),
                    parameters,
                    before,
                    after,
                );
            } else {
                argument_agreements_last(types, arguments, values, parameters, before, after);
            }
        },
        _ => {},
    }
}

proof fn all_agreements_last<'a>(
    types: Types<'a>,
    patterns: List<TypeName<'a>>,
    actual: List<Type>,
    parameters: List<GenericParameter<'a>>,
    before: Environment<'a>,
    after: Environment<'a>,
)
    requires
        all_agree(types, patterns, actual, parameters, before),
        binds_on(before, after, parameters),
    ensures
        all_agree(types, patterns, actual, parameters, after),
    decreases patterns,
{
    if patterns is Cons && actual is Cons && !is_expansion(patterns.first()) {
        agreement_lasts(
            types,
            patterns.first(),
            actual.first(),
            parameters,
            before,
            after,
        );
        all_agreements_last(types, patterns.rest(), actual.rest(), parameters, before, after);
    }
}

proof fn argument_agreements_last<'a>(
    types: Types<'a>,
    arguments: List<GenericArgument<'a>>,
    actual: List<GenericValue>,
    parameters: List<GenericParameter<'a>>,
    before: Environment<'a>,
    after: Environment<'a>,
)
    requires
        arguments_agree(types, arguments, actual, parameters, before),
        binds_on(before, after, parameters),
    ensures
        arguments_agree(types, arguments, actual, parameters, after),
    decreases arguments,
{
    if arguments is Cons && actual is Cons && !(arguments.first() is Pack) {
        argument_agreement_lasts(
            types,
            arguments.first(),
            actual.first(),
            parameters,
            before,
            after,
        );
        argument_agreements_last(
            types,
            arguments.rest(),
            actual.rest(),
            parameters,
            before,
            after,
        );
    }
}

proof fn argument_agreement_lasts<'a>(
    types: Types<'a>,
    argument: GenericArgument<'a>,
    actual: GenericValue,
    parameters: List<GenericParameter<'a>>,
    before: Environment<'a>,
    after: Environment<'a>,
)
    requires
        argument_agrees(types, argument, actual, parameters, before),
        binds_on(before, after, parameters),
    ensures
        argument_agrees(types, argument, actual, parameters, after),
    decreases argument,
{
    if argument is Type && actual is Type {
        agreement_lasts(types, argument->Type_0, actual->Type_0, parameters, before, after);
    }
}

// What is inferred agrees.

/// Under the bindings that inference finds, a written type stands for the type
/// that it was held against. Bindings that were there before are kept, and only
/// declared parameters are bound.
pub proof fn what_is_inferred_agrees<'a>(
    types: Types<'a>,
    pattern: TypeName<'a>,
    actual: Type,
    parameters: List<GenericParameter<'a>>,
    environment: Environment<'a>,
)
    ensures
        ({
            let (after, found) = inferred(types, pattern, actual, parameters, environment);
            binds_on(environment, after, parameters) && (found ==> agrees(
                types,
                pattern,
                actual,
                parameters,
                after,
            ))
        }),
    decreases pattern, 0nat,
{
    match &*pattern.kind {
        TypeNameKind::Path(_) => {
            if let Some(name) = name_of(pattern) {
                if declares_type(parameters, name@) {
                    bound_type_is_added(environment, name, actual, parameters);
                }
            }
        },
        TypeNameKind::Function { .. } => {
            if types.function_shape(actual) is Some {
                let inputs = inner_actuals(types, pattern, actual);
                sequence_agrees(types, inners(pattern), inputs, parameters, environment);
                let (middle, found) = sequence_inferred(
                    types,
                    inners(pattern),
                    inputs,
                    parameters,
                    environment,
                );
                if found {
                    let output = inner_actual(types, pattern, actual);
                    what_is_inferred_agrees(types, inner(pattern), output, parameters, middle);
                    let (after, all) = inferred(types, inner(pattern), output, parameters, middle);
                    bindings_add_up(environment, middle, after, parameters);
                    if all {
                        all_agreements_last(
                            types,
                            inners(pattern),
                            inputs,
                            parameters,
                            middle,
                            after,
                        );
                    }
                }
            }
        },
        TypeNameKind::Tuple(_) => {
            if types.tuple_shape(actual) is Some {
                sequence_agrees(
                    types,
                    inners(pattern),
                    inner_actuals(types, pattern, actual),
                    parameters,
                    environment,
                );
            }
        },
        TypeNameKind::Array { .. } => {
            if let Some((element, length)) = types.array_shape(actual) {
                what_is_inferred_agrees(types, inner(pattern), element, parameters, environment);
                let (middle, found) = inferred(
                    types,
                    inner(pattern),
                    element,
                    parameters,
                    environment,
                );
                if found {
                    number_is_inferred(length_of(pattern), length, parameters, middle);
                    let (after, all) = const_inferred(
                        length_of(pattern),
                        length,
                        parameters,
                        middle,
                    );
                    bindings_add_up(environment, middle, after, parameters);
                    if all {
                        agreement_lasts(
                            types,
                            inner(pattern),
                            element,
                            parameters,
                            middle,
                            after,
                        );
                    }
                }
            }
        },
        TypeNameKind::Slice(_)
        | TypeNameKind::Reference { .. }
        | TypeNameKind::RawPointer { .. } => {
            what_is_inferred_agrees(
                types,
                inner(pattern),
                inner_actual(types, pattern, actual),
                parameters,
                environment,
            );
        },
        TypeNameKind::Generic { .. } => {
            generic_agrees(types, pattern, actual, parameters, environment);
        },
        _ => {},
    }
}

proof fn generic_agrees<'a>(
    types: Types<'a>,
    pattern: TypeName<'a>,
    actual: Type,
    parameters: List<GenericParameter<'a>>,
    environment: Environment<'a>,
)
    requires
        *pattern.kind is Generic,
    ensures
        ({
            let (after, found) = inferred(types, pattern, actual, parameters, environment);
            binds_on(environment, after, parameters) && (found ==> agrees(
                types,
                pattern,
                actual,
                parameters,
                after,
            ))
        }),
    decreases arguments_of(pattern), 2nat,
{
    let arguments = arguments_of(pattern);
    if let Some(name) = name_of(pattern) {
        if name@ == "Option"@ {
            if let Some(IntrinsicType::Option { value }) = types.intrinsic(actual) {
                if arguments is Cons && arguments.first() is Type && arguments.rest() is Nil {
                    let first = arguments.first()->Type_0;
                    what_is_inferred_agrees(types, first, value, parameters, environment);
                    let (after, found) = inferred(types, first, value, parameters, environment);
                    assert(inferred(types, pattern, actual, parameters, environment) == (
                        after,
                        found,
                    ));
                    assert(found ==> argument_agrees(
                        types,
                        arguments.first(),
                        GenericValue::Type(value),
                        parameters,
                        after,
                    ));
                }
            }
        } else if name@ == "Result"@ {
            if let Some(IntrinsicType::Result { success, error }) = types.intrinsic(actual) {
                if arguments is Cons && arguments.first() is Type && arguments.rest() is Cons
                    && arguments.rest().first() is Type && arguments.rest().rest() is Nil {
                    let first = arguments.first()->Type_0;
                    let second = arguments.rest().first()->Type_0;
                    what_is_inferred_agrees(types, first, success, parameters, environment);
                    let (middle, found) = inferred(types, first, success, parameters, environment);
                    if found {
                        what_is_inferred_agrees(types, second, error, parameters, middle);
                        let (after, all) = inferred(types, second, error, parameters, middle);
                        bindings_add_up(environment, middle, after, parameters);
                        if all {
                            agreement_lasts(types, first, success, parameters, middle, after);
                            assert(argument_agrees(
                                types,
                                arguments.first(),
                                GenericValue::Type(success),
                                parameters,
                                after,
                            ));
                            assert(argument_agrees(
                                types,
                                arguments.rest().first(),
                                GenericValue::Type(error),
                                parameters,
                                after,
                            ));
                        }
                    }
                }
            }
        } else if let Some((base, values)) = types.generic_instance(actual) {
            if base@ == name@ {
                arguments_are_inferred(types, arguments, values, parameters, environment);
            }
        }
    }
}

proof fn sequence_agrees<'a>(
    types: Types<'a>,
    patterns: List<TypeName<'a>>,
    actual: List<Type>,
    parameters: List<GenericParameter<'a>>,
    environment: Environment<'a>,
)
    ensures
        ({
            let (after, found) = sequence_inferred(
                types,
                patterns,
                actual,
                parameters,
                environment,
            );
            binds_on(environment, after, parameters) && (found ==> are_as_many(patterns, actual)
                && all_agree(types, patterns, actual, parameters, after))
        }),
    decreases patterns, 1nat,
{
    let count = expansions(patterns);
    if count == 0 && patterns.count() == actual.count() {
        pairs_agree(types, patterns, actual, 0, parameters, environment);
    } else if count == 1 && patterns.count() - 1 <= actual.count() {
        pairs_agree(
            types,
            patterns,
            actual,
            (actual.count() - (patterns.count() - 1)) as nat,
            parameters,
            environment,
        );
    }
}

proof fn pairs_agree<'a>(
    types: Types<'a>,
    patterns: List<TypeName<'a>>,
    actual: List<Type>,
    pack: nat,
    parameters: List<GenericParameter<'a>>,
    environment: Environment<'a>,
)
    ensures
        ({
            let (after, found) = pairs_inferred(
                types,
                patterns,
                actual,
                pack,
                parameters,
                environment,
            );
            binds_on(environment, after, parameters) && (found ==> all_agree(
                types,
                patterns,
                actual,
                parameters,
                after,
            ))
        }),
    decreases patterns, 0nat,
{
    if patterns is Cons {
        let first = patterns.first();
        match &*first.kind {
            TypeNameKind::PackExpansion { pack: name, template } => {
                let found = match template {
                    Some(template) => crate::registry::inference::templates_inferred(
                        types,
                        *template,
                        name.name@,
                        actual,
                        pack,
                        parameters,
                        environment,
                    ),
                    None => Some(crate::registry::inference::first_types(actual, pack)),
                };
                if let Some(found) = found {
                    bound_pack_is_added(environment, name.name, found, parameters);
                    let (middle, all) = pack_bound(environment, name.name, found);
                    if all {
                        let left = crate::registry::inference::skipped(actual, pack);
                        pairs_agree(types, patterns.rest(), left, pack, parameters, middle);
                        bindings_add_up(
                            environment,
                            middle,
                            pairs_inferred(
                                types,
                                patterns.rest(),
                                left,
                                pack,
                                parameters,
                                middle,
                            ).0,
                            parameters,
                        );
                    }
                }
            },
            _ => {
                if actual is Cons {
                    what_is_inferred_agrees(
                        types,
                        first,
                        actual.first(),
                        parameters,
                        environment,
                    );
                    let (middle, found) = inferred(
                        types,
                        first,
                        actual.first(),
                        parameters,
                        environment,
                    );
                    if found {
                        pairs_agree(
                            types,
                            patterns.rest(),
                            actual.rest(),
                            pack,
                            parameters,
                            middle,
                        );
                        let (after, all) = pairs_inferred(
                            types,
                            patterns.rest(),
                            actual.rest(),
                            pack,
                            parameters,
                            middle,
                        );
                        bindings_add_up(environment, middle, after, parameters);
                        if all {
                            agreement_lasts(
                                types,
                                first,
                                actual.first(),
                                parameters,
                                middle,
                                after,
                            );
                        }
                    }
                }
            },
        }
    }
}

proof fn arguments_are_inferred<'a>(
    types: Types<'a>,
    arguments: List<GenericArgument<'a>>,
    actual: List<GenericValue>,
    parameters: List<GenericParameter<'a>>,
    environment: Environment<'a>,
)
    ensures
        ({
            let (after, found) = arguments_inferred(
                types,
                arguments,
                actual,
                parameters,
                environment,
            );
            binds_on(environment, after, parameters) && (found ==> (pack_arguments(arguments) == 0
                ==> arguments.count() == actual.count()) && arguments_agree(
                types,
                arguments,
                actual,
                parameters,
                after,
            ))
        }),
    decreases arguments, 1nat,
{
    let count = pack_arguments(arguments);
    if count == 0 && arguments.count() == actual.count() {
        argument_pairs_agree(types, arguments, actual, 0, parameters, environment);
    } else if count == 1 && arguments.count() - 1 <= actual.count() {
        argument_pairs_agree(
            types,
            arguments,
            actual,
            (actual.count() - (arguments.count() - 1)) as nat,
            parameters,
            environment,
        );
    }
}

proof fn argument_pairs_agree<'a>(
    types: Types<'a>,
    arguments: List<GenericArgument<'a>>,
    actual: List<GenericValue>,
    pack: nat,
    parameters: List<GenericParameter<'a>>,
    environment: Environment<'a>,
)
    ensures
        ({
            let (after, found) = argument_pairs_inferred(
                types,
                arguments,
                actual,
                pack,
                parameters,
                environment,
            );
            binds_on(environment, after, parameters) && (found ==> arguments_agree(
                types,
                arguments,
                actual,
                parameters,
                after,
            ))
        }),
    decreases arguments, 0nat,
{
    if arguments is Cons {
        let first = arguments.first();
        match first {
            GenericArgument::Pack { pack: name, template, .. } => {
                let found = match crate::registry::inference::first_type_values(actual, pack) {
                    None => None,
                    Some(pack_types) => match template {
                        Some(template) => crate::registry::inference::templates_inferred(
                            types,
                            template,
                            name.name@,
                            pack_types,
                            pack,
                            parameters,
                            environment,
                        ),
                        None => Some(pack_types),
                    },
                };
                if let Some(found) = found {
                    bound_pack_is_added(environment, name.name, found, parameters);
                    let (middle, all) = pack_bound(environment, name.name, found);
                    if all {
                        let left = crate::registry::inference::skipped(actual, pack);
                        argument_pairs_agree(
                            types,
                            arguments.rest(),
                            left,
                            pack,
                            parameters,
                            middle,
                        );
                        bindings_add_up(
                            environment,
                            middle,
                            argument_pairs_inferred(
                                types,
                                arguments.rest(),
                                left,
                                pack,
                                parameters,
                                middle,
                            ).0,
                            parameters,
                        );
                    }
                }
            },
            _ => {
                if actual is Cons {
                    argument_is_inferred(types, first, actual.first(), parameters, environment);
                    let (middle, found) = argument_inferred(
                        types,
                        first,
                        actual.first(),
                        parameters,
                        environment,
                    );
                    if found {
                        argument_pairs_agree(
                            types,
                            arguments.rest(),
                            actual.rest(),
                            pack,
                            parameters,
                            middle,
                        );
                        let (after, all) = argument_pairs_inferred(
                            types,
                            arguments.rest(),
                            actual.rest(),
                            pack,
                            parameters,
                            middle,
                        );
                        bindings_add_up(environment, middle, after, parameters);
                        if all {
                            argument_agreement_lasts(
                                types,
                                first,
                                actual.first(),
                                parameters,
                                middle,
                                after,
                            );
                        }
                    }
                }
            },
        }
    }
}

proof fn argument_is_inferred<'a>(
    types: Types<'a>,
    argument: GenericArgument<'a>,
    actual: GenericValue,
    parameters: List<GenericParameter<'a>>,
    environment: Environment<'a>,
)
    ensures
        ({
            let (after, found) = argument_inferred(
                types,
                argument,
                actual,
                parameters,
                environment,
            );
            binds_on(environment, after, parameters) && (found ==> argument_agrees(
                types,
                argument,
                actual,
                parameters,
                after,
            ))
        }),
    decreases argument, 0nat,
{
    match (argument, actual) {
        (GenericArgument::Type(pattern), GenericValue::Type(ty)) => {
            what_is_inferred_agrees(types, pattern, ty, parameters, environment);
        },
        (GenericArgument::Const(pattern), GenericValue::Const(number)) => {
            number_is_inferred(pattern, number, parameters, environment);
        },
        (GenericArgument::Type(pattern), GenericValue::Const(number)) => {
            if let Some(name) = name_of(pattern) {
                bound_number_is_added(environment, name, number, parameters);
            }
        },
        _ => {},
    }
}

} // verus!

//! What it takes for the bounds of generic declarations to hold.

use crate::ast::{lone_name, GenericParameter, Path, TypeName, TypeNameKind, WherePredicate};
use crate::generics::{bound, Environment, GenericValue};
use crate::list::List;
use crate::registry::capability::{
    all_satisfied, builtin_satisfied, implementation_applies, implemented, marker_derived,
    satisfies,
};
use crate::registry::inference::inferred;
use crate::registry::naming::{
    bound_checked, bounds_checked, checked_instance, pack_bounds_checked,
    parameter_bounds_checked, predicates_checked, resolved, template_bounds_checked,
    template_predicates, type_bounds_checked,
};
use crate::registry::{GenericTypeTemplate, TraitImplementation, Types, LIMIT};
use crate::span::{error, Span};
use crate::syntax::names_builtin_trait;
use crate::text::{listed, words3};
use crate::types::Type;
use vstd::prelude::*;

verus! {

/// Whether a bound names a trait that there is, and a type meets it.
pub open spec fn meets_bound<'a>(types: Types<'a>, ty: Type, path: Path<'a>) -> bool {
    &&& path.segments@.len() == 1
    &&& {
        let name = path.segments@[0].name@;
        &&& names_builtin_trait(name) || bound(types.traits, name) is Some
        &&& types.meets(ty, name)
    }
}

/// Whether a type meets each of the bounds.
pub open spec fn meets_each<'a>(types: Types<'a>, ty: Type, bounds: List<Path<'a>>) -> bool {
    forall|i: int| 0 <= i < bounds@.len() ==> meets_bound(types, ty, #[trigger] bounds@[i])
}

/// Whether each of the types meets each of the bounds.
pub open spec fn pack_meets_each<'a>(
    types: Types<'a>,
    list: List<Type>,
    bounds: List<Path<'a>>,
) -> bool {
    forall|i: int| 0 <= i < list@.len() ==> meets_each(types, #[trigger] list@[i], bounds)
}

/// Whether what a parameter stands for meets the bounds of the parameter.
pub open spec fn parameter_is_met<'a>(
    types: Types<'a>,
    parameter: GenericParameter<'a>,
    environment: Environment<'a>,
) -> bool {
    match parameter {
        GenericParameter::Type { name, bounds, .. } => forall|ty: Type|
            bound(environment.types, name.name@) == Some(ty) ==> #[trigger] meets_each(
                types,
                ty,
                bounds,
            ),
        GenericParameter::TypePack { name, bounds, .. } => forall|list: List<Type>|
            bound(environment.type_packs, name.name@) == Some(list)
                ==> #[trigger] pack_meets_each(types, list, bounds),
        GenericParameter::Const { .. } => true,
    }
}

/// Whether what each parameter stands for meets the bounds of the parameter.
pub open spec fn parameters_are_met<'a>(
    types: Types<'a>,
    parameters: List<GenericParameter<'a>>,
    environment: Environment<'a>,
) -> bool {
    forall|i: int|
        0 <= i < parameters@.len() ==> parameter_is_met(
            types,
            #[trigger] parameters@[i],
            environment,
        )
}

/// Whether problems are all that tells types from earlier ones, and there is one
/// more at least if something failed.
pub open spec fn only_complains<'a>(before: Types<'a>, after: Types<'a>, valid: bool) -> bool {
    &&& after == (Types { problems: after.problems, ..before })
    &&& before.problems.is_prefix_of(after.problems)
    &&& valid ==> after == before
    &&& !valid ==> after.problems.len() > before.problems.len()
    &&& forall|i: int|
        before.problems.len() <= i < after.problems.len() ==> (
        #[trigger] after.problems[i]).code@ == "E6014"@
}

proof fn complaints_add_up<'a>(
    first: Types<'a>,
    second: Types<'a>,
    third: Types<'a>,
    one: bool,
    other: bool,
)
    requires
        only_complains(first, second, one),
        only_complains(second, third, other),
    ensures
        only_complains(first, third, one && other),
{
    assert forall|i: int| first.problems.len() <= i < third.problems.len() implies (
    #[trigger] third.problems[i]).code@ == "E6014"@ by {
        if i < second.problems.len() {
            assert(third.problems[i] == second.problems[i]);
        }
    }
}

proof fn one_bound_is_checked<'a>(types: Types<'a>, ty: Type, path: Path<'a>, span: Span)
    ensures
        bound_checked(types, ty, path, span).1 == meets_bound(types, ty, path),
        only_complains(
            types,
            bound_checked(types, ty, path, span).0,
            bound_checked(types, ty, path, span).1,
        ),
{
    reveal(bound_checked);
    let segments = path.segments;
    match segments {
        List::Nil => {},
        List::Cons(_) => {
            assert(segments@ =~= seq![segments.first()] + segments.rest()@);
            match segments.rest() {
                List::Nil => {},
                List::Cons(_) => {
                    assert(segments.rest()@ =~= seq![segments.rest().first()]
                        + segments.rest().rest()@);
                },
            }
        },
    }
}

/// A type passes the check of its bounds if and only if it meets every one of
/// them. Where it fails one, that is reported.
pub proof fn every_bound_is_checked<'a>(
    types: Types<'a>,
    ty: Type,
    bounds: List<Path<'a>>,
    span: Span,
)
    ensures
        type_bounds_checked(types, ty, bounds, span).1 == meets_each(types, ty, bounds),
        only_complains(
            types,
            type_bounds_checked(types, ty, bounds, span).0,
            type_bounds_checked(types, ty, bounds, span).1,
        ),
    decreases bounds,
{
    reveal(type_bounds_checked);
    match bounds {
        List::Nil => {},
        List::Cons(_) => {
            let (next, first) = bound_checked(types, ty, bounds.first(), span);
            let (after, rest) = type_bounds_checked(next, ty, bounds.rest(), span);
            one_bound_is_checked(types, ty, bounds.first(), span);
            every_bound_is_checked(next, ty, bounds.rest(), span);
            complaints_add_up(types, next, after, first, rest);
            assert(bounds@ =~= seq![bounds.first()] + bounds.rest()@);
            if meets_each(types, ty, bounds) {
                assert(bounds@[0] == bounds.first());
                assert forall|i: int| 0 <= i < bounds.rest()@.len() implies meets_bound(
                    types,
                    ty,
                    #[trigger] bounds.rest()@[i],
                ) by {
                    assert(bounds@[i + 1] == bounds.rest()@[i]);
                }
            }
        },
    }
}

/// The types of a pack pass the check of their bounds if and only if each of
/// them meets every bound. Where one fails, that is reported.
pub proof fn every_type_of_a_pack_is_checked<'a>(
    types: Types<'a>,
    list: List<Type>,
    bounds: List<Path<'a>>,
    span: Span,
)
    ensures
        pack_bounds_checked(types, list, bounds, span).1 == pack_meets_each(types, list, bounds),
        only_complains(
            types,
            pack_bounds_checked(types, list, bounds, span).0,
            pack_bounds_checked(types, list, bounds, span).1,
        ),
    decreases list,
{
    reveal(pack_bounds_checked);
    match list {
        List::Nil => {},
        List::Cons(_) => {
            let (next, first) = type_bounds_checked(types, list.first(), bounds, span);
            let (after, rest) = pack_bounds_checked(next, list.rest(), bounds, span);
            every_bound_is_checked(types, list.first(), bounds, span);
            every_type_of_a_pack_is_checked(next, list.rest(), bounds, span);
            complaints_add_up(types, next, after, first, rest);
            assert(list@ =~= seq![list.first()] + list.rest()@);
            if pack_meets_each(types, list, bounds) {
                assert(list@[0] == list.first());
                assert forall|i: int| 0 <= i < list.rest()@.len() implies meets_each(
                    types,
                    #[trigger] list.rest()@[i],
                    bounds,
                ) by {
                    assert(list@[i + 1] == list.rest()@[i]);
                }
            }
        },
    }
}

/// Parameters pass the check of their bounds if and only if what each of them
/// stands for meets every one of its bounds. Where one fails, that is reported.
pub proof fn every_parameter_is_checked<'a>(
    types: Types<'a>,
    parameters: List<GenericParameter<'a>>,
    environment: Environment<'a>,
    span: Span,
)
    ensures
        parameter_bounds_checked(types, parameters, environment, span).1 == parameters_are_met(
            types,
            parameters,
            environment,
        ),
        only_complains(
            types,
            parameter_bounds_checked(types, parameters, environment, span).0,
            parameter_bounds_checked(types, parameters, environment, span).1,
        ),
    decreases parameters,
{
    reveal(parameter_bounds_checked);
    match parameters {
        List::Nil => {},
        List::Cons(_) => {
            let head = parameters.first();
            let (next, first): (Types<'a>, bool) = match &head {
                GenericParameter::Type { name, bounds, .. } => {
                    match bound(environment.types, name.name@) {
                        Some(ty) => {
                            every_bound_is_checked(types, ty, *bounds, span);
                            type_bounds_checked(types, ty, *bounds, span)
                        },
                        None => (types, true),
                    }
                },
                GenericParameter::TypePack { name, bounds, .. } => {
                    match bound(environment.type_packs, name.name@) {
                        Some(list) => {
                            every_type_of_a_pack_is_checked(types, list, *bounds, span);
                            pack_bounds_checked(types, list, *bounds, span)
                        },
                        None => (types, true),
                    }
                },
                GenericParameter::Const { .. } => (types, true),
            };
            assert(first == parameter_is_met(types, head, environment));
            let (after, rest) = parameter_bounds_checked(
                next,
                parameters.rest(),
                environment,
                span,
            );
            every_parameter_is_checked(next, parameters.rest(), environment, span);
            complaints_add_up(types, next, after, first, rest);
            assert(parameters@ =~= seq![head] + parameters.rest()@);
            if parameters_are_met(types, parameters, environment) {
                assert(parameters@[0] == head);
                assert forall|i: int| 0 <= i < parameters.rest()@.len() implies parameter_is_met(
                    types,
                    #[trigger] parameters.rest()@[i],
                    environment,
                ) by {
                    assert(parameters@[i + 1] == parameters.rest()@[i]);
                }
            }
        },
    }
}

/// Whether the subject of a `where` predicate meets the bounds of the predicate.
/// The subjects of a pack meet them one by one.
pub open spec fn predicate_is_met<'a>(
    types: Types<'a>,
    predicate: WherePredicate<'a>,
    environment: Environment<'a>,
    fuel: nat,
) -> bool {
    match *predicate.ty.kind {
        TypeNameKind::PackExpansion { pack, template } => match bound(
            environment.type_packs,
            pack.name@,
        ) {
            None => false,
            Some(list) => match template {
                None => pack_meets_each(types, list, predicate.bounds),
                Some(template) => template_is_met(
                    types,
                    template,
                    pack.name,
                    list,
                    predicate.bounds,
                    environment,
                    fuel,
                ),
            },
        },
        _ => {
            let (next, subject) = resolved(types, predicate.ty, environment, fuel);
            subject is Some && meets_each(next, subject->0, predicate.bounds)
        },
    }
}

/// Whether what a template stands for meets the bounds with each type of a pack
/// in turn, where each is resolved in the state that the one before leaves.
pub open spec fn template_is_met_along<'a>(
    types: Types<'a>,
    template: TypeName<'a>,
    name: &'a str,
    list: List<Type>,
    bounds: List<Path<'a>>,
    environment: Environment<'a>,
    fuel: nat,
    states: Seq<Types<'a>>,
) -> bool {
    &&& states.len() == list@.len() + 1
    &&& states[0] == types
    &&& forall|i: int|
        0 <= i < list@.len() ==> {
            let (next, subject) = resolved(
                #[trigger] states[i],
                template,
                environment.with_type(name, list@[i]),
                fuel,
            );
            &&& subject is Some
            &&& meets_each(next, subject->0, bounds)
            &&& states[i + 1] == next
        }
}

/// Whether what a template stands for meets the bounds with each type of a pack.
pub open spec fn template_is_met<'a>(
    types: Types<'a>,
    template: TypeName<'a>,
    name: &'a str,
    list: List<Type>,
    bounds: List<Path<'a>>,
    environment: Environment<'a>,
    fuel: nat,
) -> bool {
    exists|states: Seq<Types<'a>>| #[trigger]
        template_is_met_along(types, template, name, list, bounds, environment, fuel, states)
}

/// Whether the subjects of `where` predicates meet their bounds, each in a state
/// that the ones before lead to.
pub open spec fn predicates_are_met_along<'a>(
    types: Types<'a>,
    predicates: List<WherePredicate<'a>>,
    environment: Environment<'a>,
    fuel: nat,
    states: Seq<Types<'a>>,
) -> bool {
    &&& states.len() == predicates@.len()
    &&& states.len() > 0 ==> states[0] == types
    &&& forall|i: int|
        0 <= i < predicates@.len() ==> predicate_is_met(
            #[trigger] states[i],
            predicates@[i],
            environment,
            fuel,
        )
}

/// Whether the subjects of `where` predicates meet their bounds.
pub open spec fn predicates_are_met<'a>(
    types: Types<'a>,
    predicates: List<WherePredicate<'a>>,
    environment: Environment<'a>,
    fuel: nat,
) -> bool {
    exists|states: Seq<Types<'a>>| #[trigger]
        predicates_are_met_along(types, predicates, environment, fuel, states)
}

proof fn template_is_checked<'a>(
    types: Types<'a>,
    template: TypeName<'a>,
    name: &'a str,
    list: List<Type>,
    bounds: List<Path<'a>>,
    environment: Environment<'a>,
    span: Span,
    fuel: nat,
)
    requires
        template_bounds_checked(types, template, name, list, bounds, environment, span, fuel).1,
    ensures
        template_is_met(types, template, name, list, bounds, environment, fuel),
    decreases list,
{
    match list {
        List::Nil => {
            let states = seq![types];
            assert(template_is_met_along(
                types,
                template,
                name,
                list,
                bounds,
                environment,
                fuel,
                states,
            ));
        },
        List::Cons(_) => {
            let inner = environment.with_type(name, list.first());
            let (next, subject) = resolved(types, template, inner, fuel);
            every_bound_is_checked(next, subject->0, bounds, span);
            let rest = list.rest();
            template_is_checked(next, template, name, rest, bounds, environment, span, fuel);
            let states = choose|states: Seq<Types<'a>>| #[trigger]
                template_is_met_along(
                    next,
                    template,
                    name,
                    rest,
                    bounds,
                    environment,
                    fuel,
                    states,
                );
            let all = seq![types] + states;
            assert(list@ =~= seq![list.first()] + rest@);
            assert forall|i: int| 0 <= i < list@.len() implies {
                let (later, subject) = resolved(
                    #[trigger] all[i],
                    template,
                    environment.with_type(name, list@[i]),
                    fuel,
                );
                &&& subject is Some
                &&& meets_each(later, subject->0, bounds)
                &&& all[i + 1] == later
            } by {
                if i > 0 {
                    assert(all[i] == states[i - 1]);
                    assert(list@[i] == rest@[i - 1]);
                    assert(all[i + 1] == states[i]);
                } else {
                    assert(all[1] == states[0]);
                }
            }
            assert(template_is_met_along(
                types,
                template,
                name,
                list,
                bounds,
                environment,
                fuel,
                all,
            ));
        },
    }
}

/// The check of one `where` predicate.
spec fn predicate_result<'a>(
    types: Types<'a>,
    predicate: WherePredicate<'a>,
    environment: Environment<'a>,
    fuel: nat,
) -> (Types<'a>, bool) {
    match *predicate.ty.kind {
        TypeNameKind::PackExpansion { pack, template } => match bound(
            environment.type_packs,
            pack.name@,
        ) {
            None => (
                types.report(
                    error("E6020", words3("unknown type pack `", pack.name, "`"), pack.span),
                ),
                false,
            ),
            Some(pack_types) => match template {
                Some(template) => template_bounds_checked(
                    types,
                    template,
                    pack.name,
                    pack_types,
                    predicate.bounds,
                    environment,
                    predicate.span,
                    fuel,
                ),
                None => pack_bounds_checked(types, pack_types, predicate.bounds, predicate.span),
            },
        },
        _ => match resolved(types, predicate.ty, environment, fuel) {
            (types, Some(ty)) => type_bounds_checked(types, ty, predicate.bounds, predicate.span),
            (types, None) => (types, false),
        },
    }
}

proof fn predicate_is_checked<'a>(
    types: Types<'a>,
    predicate: WherePredicate<'a>,
    environment: Environment<'a>,
    fuel: nat,
)
    requires
        predicate_result(types, predicate, environment, fuel).1,
    ensures
        predicate_is_met(types, predicate, environment, fuel),
{
    match &*predicate.ty.kind {
        TypeNameKind::PackExpansion { pack, template } => {
            let list = bound(environment.type_packs, pack.name@)->0;
            match template {
                Some(template) => {
                    template_is_checked(
                        types,
                        *template,
                        pack.name,
                        list,
                        predicate.bounds,
                        environment,
                        predicate.span,
                        fuel,
                    );
                },
                None => {
                    every_type_of_a_pack_is_checked(
                        types,
                        list,
                        predicate.bounds,
                        predicate.span,
                    );
                },
            }
        },
        _ => {
            let (next, subject) = resolved(types, predicate.ty, environment, fuel);
            every_bound_is_checked(next, subject->0, predicate.bounds, predicate.span);
        },
    }
}

/// Where the check of `where` predicates passes, the subject of each of them
/// meets every one of its bounds.
pub proof fn every_predicate_is_checked<'a>(
    types: Types<'a>,
    predicates: List<WherePredicate<'a>>,
    environment: Environment<'a>,
    fuel: nat,
)
    requires
        predicates_checked(types, predicates, environment, fuel).1,
    ensures
        predicates_are_met(types, predicates, environment, fuel),
    decreases predicates,
{
    match predicates {
        List::Nil => {
            let states = Seq::<Types<'a>>::empty();
            assert(predicates_are_met_along(types, predicates, environment, fuel, states));
        },
        List::Cons(_) => {
            let predicate = predicates.first();
            let rest = predicates.rest();
            let (next, first) = predicate_result(types, predicate, environment, fuel);
            assert(predicates_checked(types, predicates, environment, fuel).1 == (first
                && predicates_checked(next, rest, environment, fuel).1));
            predicate_is_checked(types, predicate, environment, fuel);
            every_predicate_is_checked(next, rest, environment, fuel);
            let states = choose|states: Seq<Types<'a>>| #[trigger]
                predicates_are_met_along(next, rest, environment, fuel, states);
            let all = seq![types] + states;
            assert(predicates@ =~= seq![predicate] + rest@);
            assert forall|i: int| 0 <= i < predicates@.len() implies predicate_is_met(
                #[trigger] all[i],
                predicates@[i],
                environment,
                fuel,
            ) by {
                if i > 0 {
                    assert(all[i] == states[i - 1]);
                    assert(predicates@[i] == rest@[i - 1]);
                }
            }
            assert(predicates_are_met_along(types, predicates, environment, fuel, all));
        },
    }
}

/// A generic declaration passes the check of its bounds only if what each
/// parameter stands for, each type of a pack, and the subject of each `where`
/// predicate meets every one of its bounds. Where what a parameter stands for
/// fails one, the declaration does not pass, and that is reported.
pub proof fn instances_meet_their_bounds<'a>(
    types: Types<'a>,
    parameters: List<GenericParameter<'a>>,
    predicates: List<WherePredicate<'a>>,
    environment: Environment<'a>,
    span: Span,
    fuel: nat,
)
    ensures
        ({
            let (after, valid) = bounds_checked(
                types,
                parameters,
                predicates,
                environment,
                span,
                fuel,
            );
            let checked = parameter_bounds_checked(types, parameters, environment, span).0;
            &&& valid ==> parameters_are_met(types, parameters, environment)
            &&& valid ==> predicates_are_met(types, predicates, environment, fuel)
            &&& !parameters_are_met(types, parameters, environment) ==> checked.problems.len()
                > types.problems.len()
            &&& parameters_are_met(types, parameters, environment) && predicates is Nil ==> (
            after,
            valid,
            ) == (types, true)
        }),
{
    every_parameter_is_checked(types, parameters, environment, span);
    let checked = parameter_bounds_checked(types, parameters, environment, span).0;
    if bounds_checked(types, parameters, predicates, environment, span, fuel).1 {
        every_predicate_is_checked(checked, predicates, environment, fuel);
    }
}

/// A generic type makes a type of the values of its parameters only if what each
/// parameter stands for, and the subject of each `where` predicate, meets every
/// one of its bounds.
pub proof fn instances_of_types_meet_their_bounds<'a>(
    types: Types<'a>,
    name: &'a str,
    template: GenericTypeTemplate<'a>,
    values: List<GenericValue>,
    environment: Environment<'a>,
    span: Span,
    fuel: nat,
)
    requires
        checked_instance(types, name, template, values, environment, span, fuel).1 is Some,
    ensures
        parameters_are_met(types, template.parameter_list(), environment),
        predicates_are_met(types, template_predicates(template), environment, fuel),
{
    instances_meet_their_bounds(
        types,
        template.parameter_list(),
        template_predicates(template),
        environment,
        span,
        fuel,
    );
}

// Traits.

/// Whether an implementation is one of a trait for a type.
pub open spec fn is_implementation<'a>(
    types: Types<'a>,
    implementation: TraitImplementation<'a>,
    ty: Type,
    name: Seq<char>,
) -> bool {
    &&& implementation.trait_name@ == name
    &&& inferred(
        types,
        implementation.target,
        ty,
        implementation.parameters,
        types.base_environment(),
    ).1
}

proof fn found_implementation<'a>(
    types: Types<'a>,
    implementations: List<TraitImplementation<'a>>,
    ty: Type,
    name: Seq<char>,
    depth: nat,
    fuel: nat,
)
    requires
        implemented(types, implementations, ty, name, depth, fuel),
    ensures
        exists|i: int|
            0 <= i < implementations@.len() && is_implementation(
                types,
                #[trigger] implementations@[i],
                ty,
                name,
            ),
        match bound(types.traits, name) {
            Some(declaration) => all_satisfied(types, declaration.supertraits, ty, depth, fuel),
            None => true,
        },
    decreases implementations,
{
    match implementations {
        List::Nil => {},
        List::Cons(_) => {
            let first = implementations.first();
            let rest = implementations.rest();
            assert(implementations@ =~= seq![first] + rest@);
            if implementation_applies(types, first, ty, name, depth, fuel) {
                assert(implementations@[0] == first);
            } else {
                found_implementation(types, rest, ty, name, depth, fuel);
                let i = choose|i: int|
                    0 <= i < rest@.len() && is_implementation(
                        types,
                        #[trigger] rest@[i],
                        ty,
                        name,
                    );
                assert(implementations@[i + 1] == rest@[i]);
            }
        },
    }
}

proof fn satisfied_one_by_one<'a>(
    types: Types<'a>,
    bounds: List<Path<'a>>,
    ty: Type,
    depth: nat,
    fuel: nat,
)
    requires
        all_satisfied(types, bounds, ty, depth, fuel),
    ensures
        forall|i: int|
            0 <= i < bounds@.len() ==> lone_name(#[trigger] bounds@[i]) is Some && satisfies(
                types,
                ty,
                lone_name(bounds@[i])->0@,
                depth + 1,
                fuel,
            ),
    decreases bounds,
{
    match bounds {
        List::Nil => {},
        List::Cons(_) => {
            assert(bounds@ =~= seq![bounds.first()] + bounds.rest()@);
            satisfied_one_by_one(types, bounds.rest(), ty, depth, fuel);
            assert forall|i: int| 0 <= i < bounds@.len() implies lone_name(
                #[trigger] bounds@[i],
            ) is Some && satisfies(types, ty, lone_name(bounds@[i])->0@, depth + 1, fuel) by {
                if i > 0 {
                    assert(bounds@[i] == bounds.rest()@[i - 1]);
                } else {
                    assert(bounds@[0] == bounds.first());
                    assert(satisfies(types, ty, lone_name(bounds.first())->0@, depth + 1, fuel));
                }
            }
        },
    }
}

/// The supertraits of a declared trait.
pub open spec fn supertraits_of<'a>(types: Types<'a>, name: Seq<char>) -> List<Path<'a>> {
    match bound(types.traits, name) {
        Some(declaration) => declaration.supertraits,
        None => List::Nil,
    }
}

proof fn supertraits_are_satisfied<'a>(types: Types<'a>, ty: Type, name: Seq<char>, fuel: nat)
    requires
        all_satisfied(types, supertraits_of(types, name), ty, 0, fuel),
    ensures
        forall|i: int|
            0 <= i < supertraits_of(types, name)@.len() ==> lone_name(
                #[trigger] supertraits_of(types, name)@[i],
            ) is Some && satisfies(
                types,
                ty,
                lone_name(supertraits_of(types, name)@[i])->0@,
                1,
                fuel,
            ),
{
    satisfied_one_by_one(types, supertraits_of(types, name), ty, 0, fuel);
}

/// A type meets a declared trait only if it derives the trait as a marker or
/// there is an implementation of the trait for the type, and only if it satisfies
/// each supertrait of the trait.
pub proof fn met_traits_are_implemented<'a>(types: Types<'a>, ty: Type, name: Seq<char>)
    requires
        types.meets(ty, name),
        !names_builtin_trait(name),
    ensures
        (types.definition(ty) is Some && listed(types.definition(ty)->0.marker_traits, name))
            || exists|i: int|
            0 <= i < types.trait_implementations@.len() && is_implementation(
                types,
                #[trigger] types.trait_implementations@[i],
                ty,
                name,
            ),
        forall|i: int|
            0 <= i < supertraits_of(types, name)@.len() ==> lone_name(
                #[trigger] supertraits_of(types, name)@[i],
            ) is Some && satisfies(
                types,
                ty,
                lone_name(supertraits_of(types, name)@[i])->0@,
                1,
                (LIMIT - 1) as nat,
            ),
{
    reveal(Types::meets);
    let fuel = (LIMIT - 1) as nat;
    assert(!builtin_satisfied(types, ty, name, fuel));
    if !marker_derived(types, ty, name, 0, fuel) {
        found_implementation(types, types.trait_implementations, ty, name, 0, fuel);
    }
    if bound(types.traits, name) is Some {
        supertraits_are_satisfied(types, ty, name, fuel);
    }
}

} // verus!

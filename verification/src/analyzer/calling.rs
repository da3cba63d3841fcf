//! What can be called is part of the program.

use crate::analyzer::declarations::Declaration;
use crate::analyzer::functions::{
    spec_by_number, spec_copy_function, spec_foreign_function, spec_foreign_functions,
    spec_foreign_parameters, spec_joined_functions, spec_oldest_first,
};
use crate::analyzer::growth::awaits;
use crate::analyzer::laws::functions_are_ordered;
use crate::analyzer::{PendingFunction, Signature, State};
use crate::ast::{self, Parameter};
use crate::generics::Environment;
use crate::hir::{self, ForeignFunction, Function};
use crate::list::{cons, List};
use crate::types::Type;
use vstd::prelude::*;

verus! {

/// Whether parameters have the types in turn.
pub open spec fn have_types(parameters: Seq<hir::Parameter>, types: Seq<Type>) -> bool {
    &&& parameters.len() == types.len()
    &&& forall|i: int| 0 <= i < parameters.len() ==> (#[trigger] parameters[i]).ty == types[i]
}

/// Whether a function is the one that callers know by a signature.
pub open spec fn is_signed(function: Function, signature: Signature) -> bool {
    &&& function.id == signature.id
    &&& function.return_type == signature.return_type
    &&& have_types(function.parameters@, signature.parameter_types@)
}

/// Whether a function of another language is the one that callers know by a
/// signature.
pub open spec fn is_foreign_signed(function: ForeignFunction, signature: Signature) -> bool {
    &&& function.id == signature.id
    &&& function.return_type == signature.return_type
    &&& have_types(function.parameters@, signature.parameter_types@)
}

/// Whether one of the functions is the one that callers know by a signature.
pub open spec fn provides(functions: Seq<Function>, signature: Signature) -> bool {
    exists|i: int| 0 <= i < functions.len() && is_signed(#[trigger] functions[i], signature)
}

/// Whether one of the functions of other languages is the one that callers know
/// by a signature.
pub open spec fn provides_foreign(functions: Seq<ForeignFunction>, signature: Signature) -> bool {
    exists|i: int| 0 <= i < functions.len() && is_foreign_signed(#[trigger] functions[i], signature)
}

/// The functions of a program, as callers know them.
pub open spec fn callees_of(
    functions: Seq<Function>,
    foreign_functions: Seq<ForeignFunction>,
) -> Set<Signature> {
    Set::new(
        |signature: Signature|
            provides(functions, signature) || provides_foreign(foreign_functions, signature),
    )
}

impl<'a> Declaration<'a> {
    /// What callers know of the function.
    pub open spec fn signature(self) -> Signature {
        match self {
            Declaration::Source { signature, .. } => signature,
            Declaration::Foreign { signature, .. } => signature,
        }
    }

    /// The parameters of the function.
    pub open spec fn parameters(self) -> List<Parameter<'a>> {
        match self {
            Declaration::Source { function, .. } => function.parameters,
            Declaration::Foreign { function, .. } => function.parameters,
        }
    }

    /// Whether the signature has a type for each parameter.
    pub open spec fn is_complete(self) -> bool {
        self.parameters()@.len() == self.signature().parameter_types@.len()
    }
}

impl<'a> State<'a> {
    /// A declared function with a body.
    pub open spec fn analyze_source(self, declaration: Declaration<'a>) -> (Self, Function<'a>) {
        let environment = self.types.base_environment();
        self.analyze_function(
            *declaration->Source_function,
            declaration->resolved_name,
            declaration.signature(),
            environment,
            declaration->resolved_name,
        )
    }

    /// An instance of a generic function.
    pub open spec fn analyze_instance(self, instance: PendingFunction<'a>) -> (
        Self,
        Function<'a>,
    ) {
        self.analyze_function(
            *instance.function,
            instance.resolved_name,
            instance.signature,
            instance.environment,
            instance.home,
        )
    }
}

/// Whether a signature is declared.
#[verifier::opaque]
pub open spec fn announces<'a>(
    declarations: List<Declaration<'a>>,
    signature: Signature,
) -> bool
    decreases declarations,
{
    match declarations {
        List::Nil => false,
        List::Cons(node) => (node.head.signature() == signature && node.head.is_complete())
            || announces(node.tail, signature),
    }
}

/// What is declared first is declared.
pub broadcast proof fn joined_announce<'a>(
    first: List<Declaration<'a>>,
    second: List<Declaration<'a>>,
    signature: Signature,
)
    ensures
        #[trigger] announces(crate::list::append(first, second), signature) == (announces(
            first,
            signature,
        ) || announces(second, signature)),
    decreases first,
{
    reveal(announces);
    match first {
        List::Nil => {},
        List::Cons(_) => {
            joined_announce(first.rest(), second, signature);
        },
    }
}

proof fn bound_have_types<'a>(
    state: State<'a>,
    parameters: List<Parameter<'a>>,
    types: List<Type>,
)
    requires
        parameters@.len() == types@.len(),
    ensures
        have_types(state.bind_parameters(parameters, types).1@, types@),
    decreases parameters,
{
    reveal(State::bind_parameters);
    reveal(State::bind_parameter);
    match parameters {
        List::Nil => {},
        List::Cons(_) => {
            assert(parameters@ =~= seq![parameters.first()] + parameters.rest()@);
            if types is Cons {
                assert(types@ =~= seq![types.first()] + types.rest()@);
                let (next, first) = state.bind_parameter(parameters.first(), types.first());
                let rest = next.bind_parameters(parameters.rest(), types.rest()).1;
                bound_have_types(next, parameters.rest(), types.rest());
                assert(state.bind_parameters(parameters, types).1 == cons(first, rest));
                assert(cons(first, rest)@ =~= seq![first] + rest@);
            }
        },
    }
}

proof fn foreign_have_types<'a>(
    parameters: List<Parameter<'a>>,
    types: List<Type>,
    position: u32,
)
    requires
        parameters@.len() == types@.len(),
    ensures
        have_types(spec_foreign_parameters(parameters, types, position)@, types@),
    decreases parameters,
{
    reveal(spec_foreign_parameters);
    match parameters {
        List::Nil => {},
        List::Cons(_) => {
            assert(parameters@ =~= seq![parameters.first()] + parameters.rest()@);
            if types is Cons {
                assert(types@ =~= seq![types.first()] + types.rest()@);
                let rest = spec_foreign_parameters(
                    parameters.rest(),
                    types.rest(),
                    position.saturating_add(1),
                );
                foreign_have_types(parameters.rest(), types.rest(), position.saturating_add(1));
                let all = spec_foreign_parameters(parameters, types, position);
                assert(all@ =~= seq![all.first()] + rest@);
            }
        },
    }
}

/// As many types are resolved as there are parameters of an instance.
pub proof fn instance_types_are_as_many<'a>(
    state: State<'a>,
    parameters: List<Parameter<'a>>,
    environment: Environment<'a>,
)
    ensures
        state.resolve_parameter_types(parameters, environment).1@.len() == parameters@.len(),
    decreases parameters,
{
    reveal(State::resolve_parameter_types);
    match parameters {
        List::Nil => {},
        List::Cons(_) => {
            let (next, first) = state.resolve_or_unit(parameters.first().ty, environment);
            instance_types_are_as_many(next, parameters.rest(), environment);
            let rest = next.resolve_parameter_types(parameters.rest(), environment).1;
            assert(cons(first, rest)@ =~= seq![first] + rest@);
            assert(parameters@ =~= seq![parameters.first()] + parameters.rest()@);
        },
    }
}

/// As many types are resolved as there are parameters of a declared function.
pub proof fn declared_types_are_as_many<'a>(state: State<'a>, parameters: List<Parameter<'a>>)
    ensures
        state.resolve_signature_types(parameters).1@.len() == parameters@.len(),
    decreases parameters,
{
    reveal(State::resolve_signature_types);
    match parameters {
        List::Nil => {},
        List::Cons(_) => {
            let next = state.resolve_type(parameters.first().ty).0;
            declared_types_are_as_many(next, parameters.rest());
            let rest = next.resolve_signature_types(parameters.rest()).1;
            let all = state.resolve_signature_types(parameters).1;
            assert(all@ =~= seq![all.first()] + rest@);
            assert(parameters@ =~= seq![parameters.first()] + parameters.rest()@);
        },
    }
}

/// More functions provide no less.
pub proof fn more_provide<'a>(first: Function<'a>, rest: List<Function<'a>>, signature: Signature)
    requires
        is_signed(first, signature) || provides(rest@, signature),
    ensures
        provides(cons(first, rest)@, signature),
{
    let all = cons(first, rest)@;
    assert(all =~= seq![first] + rest@);
    if is_signed(first, signature) {
        assert(all[0] == first);
    } else {
        let i = choose|i: int| 0 <= i < rest@.len() && is_signed(#[trigger] rest@[i], signature);
        assert(all[i + 1] == rest@[i]);
    }
}

/// Both in a row provide what one of them provides.
pub proof fn joined_provide<'a>(
    first: List<Function<'a>>,
    second: List<Function<'a>>,
    signature: Signature,
)
    requires
        provides(first@, signature) || provides(second@, signature),
    ensures
        provides(spec_joined_functions(first, second)@, signature),
    decreases first,
{
    reveal(spec_joined_functions);
    reveal(spec_copy_function);
    match first {
        List::Nil => {},
        List::Cons(_) => {
            assert(first@ =~= seq![first.first()] + first.rest()@);
            let rest = spec_joined_functions(first.rest(), second);
            if provides(first@, signature) {
                let i = choose|i: int|
                    0 <= i < first@.len() && is_signed(#[trigger] first@[i], signature);
                if i == 0 {
                    more_provide(first.first(), rest, signature);
                } else {
                    assert(first.rest()@[i - 1] == first@[i]);
                    joined_provide(first.rest(), second, signature);
                    more_provide(first.first(), rest, signature);
                }
            } else {
                joined_provide(first.rest(), second, signature);
                more_provide(first.first(), rest, signature);
            }
        },
    }
}

/// Functions provide the same in any order.
pub proof fn ordered_provide<'a>(functions: List<Function<'a>>, signature: Signature)
    requires
        provides(functions@, signature),
    ensures
        provides(spec_by_number(functions)@, signature),
{
    functions_are_ordered(functions);
    let i = choose|i: int|
        0 <= i < functions@.len() && is_signed(#[trigger] functions@[i], signature);
    let ordered = spec_by_number(functions)@;
    assert(functions@.contains(functions@[i]));
    assert(ordered.contains(functions@[i]));
    let at = ordered.index_of(functions@[i]);
    assert(is_signed(ordered[at], signature));
}

/// The functions that are declared are provided.
pub proof fn declared_are_provided<'a>(
    state: State<'a>,
    declarations: List<Declaration<'a>>,
    signature: Signature,
)
    requires
        announces(declarations, signature),
    ensures
        provides(state.analyze_sources(declarations).1@, signature) || provides_foreign(
            spec_foreign_functions(declarations)@,
            signature,
        ),
    decreases declarations,
{
    reveal(announces);
    reveal(State::analyze_sources);
    reveal(State::analyze_function);
    reveal(State::analyze_entered);
    reveal(spec_foreign_functions);
    reveal(spec_foreign_function);
    if declarations is Cons {
        let first = declarations.first();
        let rest = declarations.rest();
        let here = first.signature() == signature && first.is_complete();
        let sources = state.analyze_sources(declarations).1;
        let foreign = spec_foreign_functions(declarations);
        match first {
            Declaration::Source { .. } => {
                let name = first->resolved_name;
                let entered = state.enter_function(
                    first.signature(),
                    state.types.base_environment(),
                    name,
                );
                let (next, analyzed) = state.analyze_source(first);
                if here {
                    bound_have_types(entered, first.parameters(), signature.parameter_types);
                } else {
                    declared_are_provided(next, rest, signature);
                }
                if here || provides(next.analyze_sources(rest).1@, signature) {
                    more_provide(analyzed, next.analyze_sources(rest).1, signature);
                }
            },
            Declaration::Foreign { .. } => {
                let later = spec_foreign_functions(rest);
                assert(foreign@ =~= seq![foreign.first()] + later@);
                if here {
                    foreign_have_types(first.parameters(), signature.parameter_types, 0);
                    assert(foreign@[0] == foreign.first());
                } else {
                    declared_are_provided(state, rest, signature);
                    if provides_foreign(later@, signature) {
                        let i = choose|i: int|
                            0 <= i < later@.len() && is_foreign_signed(
                                #[trigger] later@[i],
                                signature,
                            );
                        assert(foreign@[i + 1] == later@[i]);
                    }
                }
            },
        }
    }
}

/// The instances that wait are provided.
pub proof fn awaited_are_provided<'a>(
    state: State<'a>,
    instances: List<PendingFunction<'a>>,
    signature: Signature,
)
    requires
        awaits(instances, signature),
    ensures
        provides(state.analyze_instances(instances).1@, signature),
    decreases instances,
{
    reveal(awaits);
    reveal(State::analyze_instances);
    reveal(State::analyze_function);
    reveal(State::analyze_entered);
    if instances is Cons {
        let first = instances.first();
        let entered = state.enter_function(first.signature, first.environment, first.home);
        let (next, analyzed) = state.analyze_instance(first);
        if first.signature == signature && first.is_complete() {
            bound_have_types(entered, first.parameters(), signature.parameter_types);
        } else {
            awaited_are_provided(next, instances.rest(), signature);
        }
        more_provide(analyzed, next.analyze_instances(instances.rest()).1, signature);
    }
}

/// The same instances wait in any order.
pub proof fn reversed_await<'a>(
    pending: List<PendingFunction<'a>>,
    behind: List<PendingFunction<'a>>,
    signature: Signature,
)
    ensures
        awaits(spec_oldest_first(pending, behind), signature) == (awaits(pending, signature)
            || awaits(behind, signature)),
    decreases pending,
{
    reveal(awaits);
    reveal(spec_oldest_first);
    match pending {
        List::Nil => {},
        List::Cons(_) => {
            let more = cons(pending.first(), behind);
            assert(awaits(more, signature) == ((pending.first().signature == signature
                && pending.first().is_complete()) || awaits(behind, signature)));
            reversed_await(pending.rest(), more, signature);
        },
    }
}

} // verus!

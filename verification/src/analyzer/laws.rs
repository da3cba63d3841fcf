//! What holds of checked programs as a whole.

use crate::analyzer::borrowing::{forgotten_is_lost, known_is_found};
use crate::analyzer::declarations::Declaration;
use crate::analyzer::expressions::spec_typed_operator;
use crate::analyzer::frame::{
    spec_copy_field, spec_find_binding, spec_find_field_move, spec_without_fields_of,
};
use crate::analyzer::functions::{
    are_typed, is_typed, spec_by_number, spec_copy_function, spec_foreign_function,
    spec_foreign_functions, spec_inserted, spec_joined_functions,
};
use crate::analyzer::instances::{
    spec_find_function_instance, spec_pack_lengths, spec_same_numbers,
};
use crate::analyzer::knowledge::spec_find_known;
use crate::analyzer::patterns::{spec_any_irrefutable, spec_covers_boolean};
use crate::analyzer::places::{
    spec_availability_for, spec_dereferenced_operand, spec_is_assignable, spec_root_path,
    spec_typed_assignment,
};
use crate::analyzer::sparing::Watch;
use crate::analyzer::{Binding, FieldMove, GenericFunctionTemplate, Signature, State, StaticSymbol};
use crate::ast::{self, lone_name, ImplDeclaration, Item, Program};
use crate::comptime::Initializer;
use crate::generics::{Entry, Environment, GenericValue};
use crate::hir::{
    irrefutable, Expression, ExpressionKind, ForeignFunction, Function, FunctionId, LocalId,
    MatchArm, Place, PlaceKind,
};
use crate::list::{append, append_concatenates, cons, List};
use crate::numbers::integer_positive_maximum;
use crate::registry::bounding::{
    instances_meet_their_bounds, parameters_are_met, predicates_are_met,
};
use crate::registry::{Types, LIMIT};
use crate::rendering::{parsed_outcome, parsed_update, typed_outcome, typed_update};
use crate::span::Span;
use crate::syntax::member;
use crate::text::{words, Text};
use crate::types::Type;
use std::rc::Rc;
use vstd::prelude::*;

verus! {

// Scopes.

/// A variable is found by its name where it has been declared, and no other
/// name is touched.
pub proof fn declared_is_found<'a>(state: State<'a>, name: &'a str, binding: Binding, asked: &str)
    requires
        state.frame.scopes is Cons,
    ensures
        state.declare(name, binding).lookup(asked) == if asked@ == name@ {
            Some(binding)
        } else {
            state.lookup(asked)
        },
{
    reveal(State::declare);
    reveal(State::lookup);
    reveal(spec_find_binding);
}

/// A new scope hides nothing.
pub proof fn new_scope_hides_nothing<'a>(state: State<'a>, asked: &str)
    ensures
        state.push_scope().lookup(asked) == state.lookup(asked),
{
    reveal(State::push_scope);
    reveal(State::lookup);
    reveal(spec_find_binding);
}

/// Where a scope ends, every name means what it meant before, whatever has been
/// declared inside.
pub proof fn ended_scope_is_forgotten<'a>(
    outside: State<'a>,
    inside: State<'a>,
    scope: List<Entry<'a, Binding>>,
)
    requires
        inside.frame.scopes == cons(scope, outside.frame.scopes),
    ensures
        inside.pop_scope().frame.scopes == outside.frame.scopes,
        forall|asked: &str| #[trigger]
            inside.pop_scope().lookup(asked) == outside.lookup(asked),
{
    reveal(State::pop_scope);
    reveal(State::end_deferred_uses);
    reveal(State::end_borrows);
    reveal(State::lookup);
}

// Moves.

/// The use of a variable whose value has been moved is reported.
pub proof fn moved_value_is_missed<'a>(
    state: State<'a>,
    binding: Binding,
    moved_at: Span,
    used_at: Span,
    include_partial_moves: bool,
)
    requires
        state.frame.defer_depth == 0,
        spec_find_known(state.frame.deferred_uses, binding.local) is None,
    ensures
        ({
            let moved = state.move_local(binding.local, moved_at);
            let used = moved.require_local_available(binding, used_at, include_partial_moves);
            &&& moved.types.problems == state.types.problems
            &&& used.types.problems.len() == state.types.problems.len() + 1
            &&& used.types.problems.last().code@ == "E3143"@
            &&& used.types.problems.last().span == used_at
        }),
{
    reveal(State::move_local);
    reveal(State::require_not_reserved_by_defer);
    reveal(State::require_local_available);
    reveal(State::report_moved);
    reveal(State::report);
    known_is_found(state.frame.moved_locals, binding.local, moved_at, binding.local);
}

/// A variable that is assigned to can be used again.
pub proof fn assigned_variable_is_available<'a>(
    state: State<'a>,
    binding: Binding,
    used_at: Span,
    include_partial_moves: bool,
)
    ensures
        ({
            let restored = state.restore_local(binding.local);
            restored.require_local_available(binding, used_at, include_partial_moves) == restored
        }),
{
    reveal(State::restore_local);
    reveal(State::require_local_available);
    forgotten_is_lost(state.frame.moved_locals, binding.local, binding.local);
    no_field_is_moved(state.frame.moved_fields, binding.local);
}

proof fn no_field_is_moved<'a>(moves: List<FieldMove<'a>>, local: LocalId)
    ensures
        spec_find_field_move(spec_without_fields_of(moves, local), local) is None,
    decreases moves,
{
    reveal(spec_find_field_move);
    reveal(spec_without_fields_of);
    reveal(spec_copy_field);
    match moves {
        List::Nil => {},
        List::Cons(_) => {
            no_field_is_moved(moves.rest(), local);
        },
    }
}

/// A variable that a deferred action reserves cannot be moved: the attempt is
/// reported and changes nothing else.
pub proof fn reserved_value_stays<'a>(state: State<'a>, local: LocalId, span: Span)
    requires
        state.frame.defer_depth == 0,
        spec_find_known(state.frame.deferred_uses, local) is Some,
    ensures
        ({
            let after = state.move_local(local, span);
            &&& after.frame == state.frame
            &&& after.types.problems.len() == state.types.problems.len() + 1
            &&& after.types.problems.last().code@ == "E3147"@
        }),
{
    reveal(State::move_local);
    reveal(State::require_not_reserved_by_defer);
    reveal(State::report);
}

// Assignments.

impl<'a> State<'a> {
    /// Whether an expression is the name of a local variable that can be assigned
    /// to: it is mutable and not borrowed.
    pub open spec fn names_mutable(self, target: ast::Expression<'a>, binding: Binding) -> bool {
        match *target.kind {
            ast::ExpressionKind::Path(path) => {
                &&& lone_name(path) is Some
                &&& self.static_of(lone_name(path)->0) is None
                &&& self.lookup(lone_name(path)->0) == Some(binding)
                &&& binding.mutable
                &&& !self.borrow_state(binding.local).mutable
                &&& self.borrow_state(binding.local).shared == 0
            },
            _ => false,
        }
    }
}

/// A variable that can be assigned to is its own place, and to find the place
/// changes nothing.
pub proof fn named_place_is_kept<'a>(
    state: State<'a>,
    operator: ast::AssignmentOperator,
    target: ast::Expression<'a>,
    binding: Binding,
    fuel: nat,
)
    requires
        state.names_mutable(target, binding),
    ensures
        ({
            let ready = state.set_availability(spec_availability_for(operator));
            let place = Place {
                kind: PlaceKind::Local(binding.local),
                ty: binding.ty,
                span: target.kind->Path_0.span,
            };
            &&& ready.analyze_place(target, fuel) == (ready, Some(place))
            &&& ready.set_availability(state.frame.place_availability) == state
            &&& state.require_mutable_place(target, fuel) == state
            &&& state.assigned_index(target) is None
        }),
{
    reveal(State::assigned_index);
    reveal(State::set_availability);
    reveal(State::analyze_path_place);
    reveal(State::lookup_path);
    reveal(State::lookup);
    reveal(spec_find_binding);
    reveal(spec_dereferenced_operand);
    reveal(State::is_indirectly_mutable);
    reveal(State::is_behind_mutable_reference);
    reveal(State::require_mutable_root);
    reveal(State::require_mutable_binding);
    reveal(spec_root_path);
}

proof fn named_place_is_found<'a>(
    state: State<'a>,
    operator: ast::AssignmentOperator,
    target: ast::Expression<'a>,
    binding: Binding,
    value: ast::Expression<'a>,
    span: Span,
    fuel: nat,
)
    requires
        state.names_mutable(target, binding),
    ensures
        ({
            let (valued, stored) = state.analyze_expression_expected(
                value,
                Some(binding.ty),
                fuel,
            );
            let place = Place {
                kind: PlaceKind::Local(binding.local),
                ty: binding.ty,
                span: target.kind->Path_0.span,
            };
            state.analyze_assignment(operator, target, value, span, fuel) == valued.assign(
                spec_typed_assignment(operator),
                place,
                target,
                stored,
                span,
            )
        }),
{
    named_place_is_kept(state, operator, target, binding, fuel);
}

/// A variable that has been moved can be assigned to, and can be used again then:
/// the assignment itself adds no problem to those of its value, its own value is
/// nothing, and the next use of the variable is not reported.
pub proof fn assignment_reinitializes<'a>(
    state: State<'a>,
    target: ast::Expression<'a>,
    binding: Binding,
    value: ast::Expression<'a>,
    span: Span,
    fuel: nat,
    used_at: Span,
    include_partial_moves: bool,
)
    requires
        state.names_mutable(target, binding),
        ({
            let (valued, stored) = state.analyze_expression_expected(
                value,
                Some(binding.ty),
                fuel,
            );
            &&& binding.ty.accepts(stored.ty)
            &&& spec_find_known(valued.frame.deferred_uses, binding.local) is None
        }),
    ensures
        ({
            let (valued, stored) = state.analyze_expression_expected(
                value,
                Some(binding.ty),
                fuel,
            );
            let (after, assignment) = state.analyze_assignment(
                ast::AssignmentOperator::Assign,
                target,
                value,
                span,
                fuel,
            );
            &&& after == valued.restore_local(binding.local)
            &&& after.types.problems == valued.types.problems
            &&& assignment.ty == Type::Unit
            &&& after.require_local_available(binding, used_at, include_partial_moves) == after
        }),
{
    let operator = ast::AssignmentOperator::Assign;
    named_place_is_found(state, operator, target, binding, value, span, fuel);
    let (valued, stored) = state.analyze_expression_expected(value, Some(binding.ty), fuel);
    reveal(State::assign);
    reveal(State::update_target);
    reveal(State::update_local);
    reveal(State::require_not_reserved_by_defer);
    reveal(State::require_type);
    reveal(State::restore_local);
    reveal(spec_typed_assignment);
    reveal(spec_is_assignable);
    assigned_variable_is_available(valued, binding, used_at, include_partial_moves);
}

/// A variable that has been moved, and still is when the value has been computed,
/// cannot be updated: the use is reported.
pub proof fn update_of_moved_is_reported<'a>(
    state: State<'a>,
    operator: ast::AssignmentOperator,
    target: ast::Expression<'a>,
    binding: Binding,
    value: ast::Expression<'a>,
    span: Span,
    fuel: nat,
)
    requires
        operator != ast::AssignmentOperator::Assign,
        state.names_mutable(target, binding),
        ({
            let (valued, stored) = state.analyze_expression_expected(
                value,
                Some(binding.ty),
                fuel,
            );
            &&& spec_find_known(valued.frame.moved_locals, binding.local) is Some
            &&& spec_find_known(valued.frame.deferred_uses, binding.local) is None
        }),
    ensures
        ({
            let valued = state.analyze_expression_expected(value, Some(binding.ty), fuel).0;
            let after = state.analyze_assignment(operator, target, value, span, fuel).0;
            &&& after.types.problems.len() > valued.types.problems.len()
            &&& after.types.problems[valued.types.problems.len() as int].code@ == "E3143"@
        }),
{
    named_place_is_found(state, operator, target, binding, value, span, fuel);
    reveal(State::assign);
    reveal(State::update_target);
    reveal(State::update_local);
    reveal(State::require_not_reserved_by_defer);
    reveal(State::require_local_available);
    reveal(State::report_moved);
    reveal(State::require_type);
    reveal(State::type_mismatch);
    reveal(State::invalid_operator);
    reveal(State::report);
    reveal(spec_typed_assignment);
}

/// The variable that an expression names.
pub open spec fn variable<'a>(target: ast::Expression<'a>, binding: Binding) -> Watch {
    Watch {
        name: match *target.kind {
            ast::ExpressionKind::Path(path) => match lone_name(path) {
                Some(name) => name@,
                None => Seq::empty(),
            },
            _ => Seq::empty(),
        },
        local: binding.local,
    }
}

impl<'a> State<'a> {
    /// Whether an expression is the one name of a local variable that can be
    /// assigned to, and that no deferred action needs.
    pub open spec fn names_free(self, target: ast::Expression<'a>, binding: Binding) -> bool {
        &&& self.names_mutable(target, binding)
        &&& self.is_apart(variable(target, binding))
        &&& spec_find_known(self.frame.deferred_uses, binding.local) is None
    }

    /// Whether no use of a variable is reported.
    pub open spec fn is_available(self, binding: Binding) -> bool {
        forall|at: Span, include_partial_moves: bool| #[trigger]
            self.require_local_available(binding, at, include_partial_moves) == self
    }

    /// What becomes of a variable that is assigned to. A plain assignment of a
    /// fitting value reports nothing itself, and the variable can be used
    /// afterwards, wherever it has been moved before. Any other assignment to a
    /// variable that has been moved is reported.
    pub open spec fn assigns(
        self,
        operator: ast::AssignmentOperator,
        binding: Binding,
        value: ast::Expression<'a>,
        fuel: nat,
        after: State<'a>,
        assignment: Expression<'a>,
    ) -> bool {
        let (valued, stored) = self.analyze_expression_expected(value, Some(binding.ty), fuel);
        if operator == ast::AssignmentOperator::Assign {
            binding.ty.accepts(stored.ty) ==> {
                &&& after == valued.restore_local(binding.local)
                &&& after.types.problems == valued.types.problems
                &&& assignment.ty == Type::Unit
                &&& after.is_available(binding)
            }
        } else {
            spec_find_known(self.frame.moved_locals, binding.local) is Some ==> {
                &&& after.types.problems.len() > valued.types.problems.len()
                &&& after.types.problems[valued.types.problems.len() as int].code@ == "E3143"@
            }
        }
    }
}

/// A variable that its value does not touch is treated as the assignment requires.
pub proof fn spared_variable_is_assigned<'a>(
    state: State<'a>,
    operator: ast::AssignmentOperator,
    target: ast::Expression<'a>,
    binding: Binding,
    value: ast::Expression<'a>,
    span: Span,
    fuel: nat,
)
    requires
        state.names_free(target, binding),
        state.spares(
            state.analyze_expression_expected(value, Some(binding.ty), fuel).0,
            variable(target, binding),
        ),
    ensures
        ({
            let (after, assignment) = state.analyze_assignment(operator, target, value, span, fuel);
            state.assigns(operator, binding, value, fuel, after, assignment)
        }),
{
    reveal(State::spares);
    let (valued, stored) = state.analyze_expression_expected(value, Some(binding.ty), fuel);
    let after = state.analyze_assignment(operator, target, value, span, fuel).0;
    if operator == ast::AssignmentOperator::Assign {
        if binding.ty.accepts(stored.ty) {
            assert forall|at: Span, include_partial_moves: bool| #[trigger]
                after.require_local_available(binding, at, include_partial_moves) == after by {
                assignment_reinitializes(
                    state,
                    target,
                    binding,
                    value,
                    span,
                    fuel,
                    at,
                    include_partial_moves,
                );
            }
            assignment_reinitializes(state, target, binding, value, span, fuel, span, true);
        }
    } else if spec_find_known(state.frame.moved_locals, binding.local) is Some {
        update_of_moved_is_reported(state, operator, target, binding, value, span, fuel);
    }
}

// Bounds.

/// A generic function gets values for its parameters only if what each parameter
/// stands for, and the subject of each `where` predicate, meets every one of its
/// bounds. Where what a parameter stands for fails one, that is reported.
pub proof fn completed_parameters_meet_their_bounds<'a>(
    state: State<'a>,
    parameters: List<ast::GenericParameter<'a>>,
    predicates: List<ast::WherePredicate<'a>>,
    environment: Environment<'a>,
    span: Span,
)
    ensures
        ({
            let (ready, (filled, values, complete)) = state.complete_parameters(
                parameters,
                environment,
                span,
            );
            let (after, completed) = state.complete_generic_environment(
                parameters,
                predicates,
                environment,
                span,
            );
            &&& match completed {
                Some((found, list)) => {
                    &&& complete
                    &&& found == filled
                    &&& list == values
                    &&& parameters_are_met(ready.types, parameters, found)
                    &&& predicates_are_met(ready.types, predicates, found, LIMIT as nat)
                },
                None => true,
            }
            &&& complete && predicates is Nil ==> (if parameters_are_met(
                ready.types,
                parameters,
                filled,
            ) {
                completed == Some((filled, values)) && after == ready
            } else {
                completed is None && after.types.problems.len() > ready.types.problems.len()
            })
        }),
{
    reveal(State::complete_generic_environment);
    reveal(State::validate_bounds);
    let (ready, (filled, _, _)) = state.complete_parameters(parameters, environment, span);
    instances_meet_their_bounds(
        ready.types,
        parameters,
        predicates,
        filled,
        span,
        LIMIT as nat,
    );
}

// Borrows.

/// A mutable borrow of a variable that is borrowed is reported, and so is any
/// borrow of a variable that is borrowed mutably.
pub proof fn conflicting_borrow_is_reported<'a>(
    state: State<'a>,
    operand: ast::Expression<'a>,
    mutable: bool,
    span: Span,
)
    requires
        state.root_binding(operand) is Some,
    ensures
        ({
            let borrowed = state.borrow_state(state.root_binding(operand)->0.local);
            let after = state.check_and_record_borrow(operand, mutable, span);
            if borrowed.mutable || (mutable && borrowed.shared > 0) {
                &&& after.frame == state.frame
                &&& after.types.problems.len() == state.types.problems.len() + 1
                &&& after.types.problems.last().code@ == "E3138"@
            } else {
                after.types == state.types
            }
        }),
{
    reveal(State::check_and_record_borrow);
    reveal(State::record_borrow);
    reveal(State::report);
}

// Types.

/// A value whose type is not the one that its place requires is reported, and
/// no other is.
pub proof fn mismatch_is_reported<'a>(
    state: State<'a>,
    expected: Type,
    actual: Type,
    span: Span,
    role: &'a str,
)
    ensures
        ({
            let after = state.require_type(expected, actual, span, role);
            if expected == actual || actual is Never {
                after == state
            } else {
                &&& after.frame == state.frame
                &&& after.types.problems.len() == state.types.problems.len() + 1
                &&& after.types.problems.last().code@ == "E3103"@
                &&& after.types.problems.last().span == span
            }
        }),
{
    reveal(State::require_type);
    reveal(State::type_mismatch);
    reveal(State::report);
}

/// An integer literal gets an integer type that has a place for it, or it is
/// reported.
pub proof fn literals_fit_their_types<'a>(
    state: State<'a>,
    value: u128,
    span: Span,
    expected: Option<Type>,
)
    ensures
        ({
            let (after, literal) = state.analyze_integer_literal(value, span, expected);
            &&& literal.ty.is_integer()
            &&& expected is Some && expected->0.is_integer() ==> literal.ty == expected->0
            &&& if value <= integer_positive_maximum(literal.ty) {
                after == state && *literal.kind == ExpressionKind::Integer(value)
            } else {
                &&& after.types.problems.len() == state.types.problems.len() + 1
                &&& after.types.problems.last().code@ == "E3104"@
            }
        }),
{
    reveal(State::analyze_integer_literal);
    reveal(State::report);
}

// Mutability.

/// An assignment through a reference or a pointer that is not mutable is
/// reported, and none through a mutable one.
pub proof fn immutable_pointee_is_not_assigned<'a>(state: State<'a>, ty: Type, span: Span)
    requires
        state.pointer_shape(ty) is Some,
    ensures
        ({
            let (_, mutable, _) = state.pointer_shape(ty).unwrap();
            let after = state.require_mutable_pointer(ty, span);
            if mutable {
                after == state
            } else {
                &&& after.types.problems.len() == state.types.problems.len() + 1
                &&& after.types.problems.last().code@ == "E3107"@
            }
        }),
{
    reveal(State::require_mutable_pointer);
    reveal(State::report);
}

/// An assignment to a static that is not mutable is reported, and none to a
/// mutable one.
pub proof fn immutable_static_is_not_assigned<'a>(
    state: State<'a>,
    value: StaticSymbol,
    name: &'a str,
    span: Span,
)
    ensures
        ({
            let after = state.require_mutable_static(value, name, span);
            if value.mutable {
                after == state
            } else {
                &&& after.types.problems.len() == state.types.problems.len() + 1
                &&& after.types.problems.last().code@ == "E3107"@
            }
        }),
{
    reveal(State::require_mutable_static);
    reveal(State::report);
}

/// An assignment to a variable that is not mutable or that is borrowed is
/// reported, and no other is.
pub proof fn immutable_variable_is_not_assigned<'a>(
    state: State<'a>,
    binding: Binding,
    name: &'a str,
    span: Span,
)
    ensures
        ({
            let borrowed = state.borrow_state(binding.local);
            let after = state.require_mutable_binding(binding, name, span);
            if binding.mutable && !borrowed.mutable && borrowed.shared == 0 {
                after == state
            } else {
                after.types.problems.len() > state.types.problems.len()
            }
        }),
{
    reveal(State::require_mutable_binding);
    reveal(State::report);
}

// Control flow.

/// A `break` or a `continue` outside of any loop is reported.
pub proof fn loops_are_left_from_inside<'a>(state: State<'a>, actual: Type, span: Span)
    requires
        state.innermost_loop() is None,
    ensures
        state.record_break_type(actual, span).types.problems.len() == state.types.problems.len()
            + 1,
        state.record_break_type(actual, span).types.problems.last().code@ == "E3109"@,
        state.frame.defer_depth == 0 ==> state.analyze_continue_statement(
            span,
        ).0.types.problems.last().code@ == "E3110"@,
{
    reveal(State::record_break_type);
    reveal(State::analyze_continue_statement);
    reveal(State::reject_deferred_control_flow);
    reveal(State::report);
}

/// What a raw pointer leads to is read inside of `unsafe` only.
pub proof fn raw_pointers_need_unsafe<'a>(state: State<'a>, pointer: Expression<'a>, span: Span)
    requires
        state.pointer_shape(pointer.ty) matches Some((_, _, raw)) && raw,
        state.frame.unsafe_depth == 0,
    ensures
        state.dereference(pointer, span).0.types.problems.len() > state.types.problems.len(),
{
    reveal(State::dereference);
    reveal(State::report);
}

// Patterns.

/// An arm without a guard that matches every value makes a `match` exhaustive,
/// wherever it stands.
pub proof fn catch_all_is_exhaustive<'a>(
    state: State<'a>,
    ty: Type,
    arms: List<MatchArm<'a>>,
    at: int,
)
    requires
        0 <= at < arms@.len(),
        arms@[at].guard is None,
        irrefutable(arms@[at].pattern),
    ensures
        state.match_is_exhaustive(ty, arms),
{
    reveal(State::match_is_exhaustive);
    catch_all_is_found(arms, at);
}

proof fn catch_all_is_found<'a>(arms: List<MatchArm<'a>>, at: int)
    requires
        0 <= at < arms@.len(),
        arms@[at].guard is None,
        irrefutable(arms@[at].pattern),
    ensures
        spec_any_irrefutable(arms),
    decreases arms,
{
    reveal(spec_any_irrefutable);
    match arms {
        List::Nil => {},
        List::Cons(_) => {
            assert(arms@ =~= seq![arms.first()] + arms.rest()@);
            if at > 0 {
                catch_all_is_found(arms.rest(), at - 1);
            }
        },
    }
}

/// A `match` without arms covers only the type that has no values.
pub proof fn empty_match_covers_nothing<'a>(state: State<'a>, ty: Type)
    requires
        !(ty is Never),
        !(ty is Enum),
    ensures
        !state.match_is_exhaustive(ty, List::Nil),
{
    reveal(State::match_is_exhaustive);
    reveal(spec_any_irrefutable);
    reveal(spec_covers_boolean);
}

// Instances of generic functions.

proof fn numbers_are_the_same(numbers: List<u64>)
    ensures
        spec_same_numbers(numbers, numbers),
    decreases numbers,
{
    reveal(spec_same_numbers);
    match numbers {
        List::Nil => {},
        List::Cons(_) => {
            numbers_are_the_same(numbers.rest());
        },
    }
}

/// A generic function has one instance for the same arguments: asking again
/// gives the same function and changes nothing.
pub proof fn instances_are_shared<'a>(
    state: State<'a>,
    template: GenericFunctionTemplate<'a>,
    values: List<GenericValue>,
    environment: Environment<'a>,
    first_at: Span,
    again_at: Span,
)
    ensures
        ({
            let (after, signature) = state.instantiate_generic_function(
                template,
                values,
                environment,
                first_at,
            );
            signature is Some ==> after.instantiate_generic_function(
                template,
                values,
                environment,
                again_at,
            ) == (after, signature)
        }),
{
    reveal(State::instantiate_generic_function);
    reveal(State::remember_instance);
    reveal(spec_find_function_instance);
    numbers_are_the_same(spec_pack_lengths(template.parameters, environment));
}

// The functions of a program.

/// Whether functions are in the order of their numbers.
pub open spec fn in_number_order(functions: Seq<Function>) -> bool {
    forall|i: int, j: int|
        0 <= i < j < functions.len() ==> (#[trigger] functions[i]).id.0 <= (
        #[trigger] functions[j]).id.0
}

proof fn insertion_keeps_order<'a>(function: Function<'a>, functions: List<Function<'a>>)
    requires
        in_number_order(functions@),
    ensures
        in_number_order(spec_inserted(function, functions)@),
        spec_inserted(function, functions)@.len() == functions@.len() + 1,
        forall|other: Function<'a>| #[trigger]
            spec_inserted(function, functions)@.contains(other) <==> (other == function
                || functions@.contains(other)),
    decreases functions,
{
    reveal(spec_inserted);
    reveal(spec_copy_function);
    let more = spec_inserted(function, functions);
    match functions {
        List::Nil => {
            assert(more@ =~= seq![function]);
            assert(more@[0] == function);
        },
        List::Cons(_) => {
            let first = functions.first();
            let rest = functions.rest();
            assert(functions@ =~= seq![first] + rest@);
            assert forall|i: int, j: int| 0 <= i < j < rest@.len() implies (
            #[trigger] rest@[i]).id.0 <= (#[trigger] rest@[j]).id.0 by {
                assert(functions@[i + 1] == rest@[i] && functions@[j + 1] == rest@[j]);
            }
            if function.id.0 <= first.id.0 {
                assert(more@ =~= seq![function] + functions@);
                assert forall|i: int, j: int| 0 <= i < j < more@.len() implies (
                #[trigger] more@[i]).id.0 <= (#[trigger] more@[j]).id.0 by {
                    assert(more@[j] == functions@[j - 1]);
                    assert(functions@[0] == first);
                    if i > 0 {
                        assert(more@[i] == functions@[i - 1]);
                    }
                }
                assert forall|other: Function<'a>|
                    more@.contains(other) <==> (other == function || functions@.contains(other)) by {
                    if more@.contains(other) {
                        let k = more@.index_of(other);
                        if k > 0 {
                            assert(functions@[k - 1] == other);
                        }
                    }
                    if functions@.contains(other) {
                        let k = functions@.index_of(other);
                        assert(more@[k + 1] == other);
                    }
                    assert(more@[0] == function);
                }
            } else {
                insertion_keeps_order(function, rest);
                let tail = spec_inserted(function, rest);
                assert(more@ =~= seq![first] + tail@);
                assert forall|i: int, j: int| 0 <= i < j < more@.len() implies (
                #[trigger] more@[i]).id.0 <= (#[trigger] more@[j]).id.0 by {
                    assert(more@[j] == tail@[j - 1]);
                    if i > 0 {
                        assert(more@[i] == tail@[i - 1]);
                    } else {
                        assert(tail@.contains(tail@[j - 1]));
                        if tail@[j - 1] != function {
                            let k = rest@.index_of(tail@[j - 1]);
                            assert(functions@[k + 1] == rest@[k]);
                            assert(functions@[0] == first);
                        }
                    }
                }
                assert forall|other: Function<'a>|
                    more@.contains(other) <==> (other == function || functions@.contains(other)) by {
                    if more@.contains(other) {
                        let k = more@.index_of(other);
                        if k > 0 {
                            assert(tail@[k - 1] == other);
                            assert(tail@.contains(other));
                            if other != function {
                                let m = rest@.index_of(other);
                                assert(functions@[m + 1] == other);
                            }
                        } else {
                            assert(functions@[0] == other);
                        }
                    }
                    if other == function {
                        assert(tail@.contains(other));
                        let k = tail@.index_of(other);
                        assert(more@[k + 1] == other);
                    }
                    if functions@.contains(other) {
                        let k = functions@.index_of(other);
                        if k > 0 {
                            assert(rest@[k - 1] == other);
                            assert(rest@.contains(other));
                            assert(tail@.contains(other));
                            let m = tail@.index_of(other);
                            assert(more@[m + 1] == other);
                        } else {
                            assert(more@[0] == other);
                        }
                    }
                }
            }
        },
    }
}

/// Functions are brought into the order of their numbers, and none of them is
/// lost or added.
pub proof fn functions_are_ordered<'a>(functions: List<Function<'a>>)
    ensures
        in_number_order(spec_by_number(functions)@),
        spec_by_number(functions)@.len() == functions@.len(),
        forall|function: Function<'a>| #[trigger]
            spec_by_number(functions)@.contains(function) <==> functions@.contains(function),
    decreases functions,
{
    reveal(spec_by_number);
    reveal(spec_copy_function);
    match functions {
        List::Nil => {},
        List::Cons(_) => {
            let first = functions.first();
            let rest = functions.rest();
            functions_are_ordered(rest);
            insertion_keeps_order(first, spec_by_number(rest));
            assert(functions@ =~= seq![first] + rest@);
            assert forall|function: Function<'a>| #[trigger]
                spec_by_number(functions)@.contains(function) <==> functions@.contains(
                    function,
                ) by {
                if functions@.contains(function) {
                    let k = functions@.index_of(function);
                    if k > 0 {
                        assert(rest@[k - 1] == function);
                        assert(rest@.contains(function));
                    }
                }
                if rest@.contains(function) {
                    let k = rest@.index_of(function);
                    assert(functions@[k + 1] == function);
                }
                assert(functions@[0] == first);
            }
        },
    }
}

/// Functions that are brought into order stay typed.
pub proof fn ordered_stay_typed<'a>(functions: List<Function<'a>>, callees: Set<Signature>)
    requires
        are_typed(functions@, callees),
    ensures
        are_typed(spec_by_number(functions)@, callees),
{
    functions_are_ordered(functions);
    let ordered = spec_by_number(functions)@;
    assert forall|i: int| 0 <= i < ordered.len() implies is_typed(
        #[trigger] ordered[i],
        callees,
    ) by {
        assert(ordered.contains(ordered[i]));
        assert(functions@.contains(ordered[i]));
        let at = functions@.index_of(ordered[i]);
        assert(is_typed(functions@[at], callees));
    }
}

impl<'a> Declaration<'a> {
    /// The number of a declared function.
    pub open spec fn number(self) -> u32 {
        match self {
            Declaration::Source { signature, .. } => signature.id.0,
            Declaration::Foreign { signature, .. } => signature.id.0,
        }
    }
}

/// Whether declared functions bear consecutive numbers.
pub open spec fn numbered_from<'a>(declarations: Seq<Declaration<'a>>, count: u64) -> bool {
    forall|i: int|
        0 <= i < declarations.len() ==> (#[trigger] declarations[i]).number() == count + i
}

/// Whether functions of other languages are in the order of their numbers.
pub open spec fn foreign_in_number_order(functions: Seq<ForeignFunction>) -> bool {
    forall|i: int, j: int|
        0 <= i < j < functions.len() ==> (#[trigger] functions[i]).id.0 < (
        #[trigger] functions[j]).id.0
}

/// Functions of other languages come in the order of their declarations, which
/// is that of their numbers.
pub proof fn foreign_functions_are_ordered<'a>(declarations: List<Declaration<'a>>, count: u64)
    requires
        numbered_from(declarations@, count),
        count + declarations@.len() <= u32::MAX + 1,
    ensures
        foreign_in_number_order(spec_foreign_functions(declarations)@),
        forall|i: int|
            0 <= i < spec_foreign_functions(declarations)@.len() ==> (
            #[trigger] spec_foreign_functions(declarations)@[i]).id.0 >= count,
    decreases declarations,
{
    reveal(spec_foreign_functions);
    reveal(spec_foreign_function);
    match declarations {
        List::Nil => {},
        List::Cons(_) => {
            let first = declarations.first();
            let rest = declarations.rest();
            let next = (count + 1) as u64;
            assert(declarations@ =~= seq![first] + rest@);
            assert(declarations@[0] == first);
            assert forall|i: int| 0 <= i < rest@.len() implies (#[trigger] rest@[i]).number() == next
                + i by {
                assert(declarations@[i + 1] == rest@[i]);
            }
            foreign_functions_are_ordered(rest, next);
            let later = spec_foreign_functions(rest);
            match first {
                Declaration::Foreign { .. } => {
                    let foreign = spec_foreign_functions(declarations).first();
                    let all = spec_foreign_functions(declarations)@;
                    assert(all =~= seq![foreign] + later@);
                    assert(foreign.id.0 == count);
                    assert forall|i: int, j: int| 0 <= i < j < all.len() implies (
                    #[trigger] all[i]).id.0 < (#[trigger] all[j]).id.0 by {
                        assert(all[j] == later@[j - 1]);
                        if i > 0 {
                            assert(all[i] == later@[i - 1]);
                        }
                    }
                    assert forall|i: int| 0 <= i < all.len() implies (#[trigger] all[i]).id.0
                        >= count by {
                        if i > 0 {
                            assert(all[i] == later@[i - 1]);
                        }
                    }
                },
                Declaration::Source { .. } => {},
            }
        },
    }
}

/// As many functions can be declared as there are numbers.
pub proof fn few_are_numbered<'a>(declarations: List<Declaration<'a>>, count: u64)
    requires
        numbered_from(declarations@, count),
    ensures
        declarations@.len() > 0 ==> count + declarations@.len() <= u32::MAX + 1,
        declarations.count() == declarations@.len(),
{
    if declarations@.len() > 0 {
        let last = declarations@.len() - 1;
        assert(declarations@[last].number() == count + last);
    }
    short_lists_are_counted(declarations);
}

proof fn short_lists_are_counted<T>(list: List<T>)
    requires
        list@.len() < u64::MAX,
    ensures
        list.count() == list@.len(),
    decreases list,
{
    match list {
        List::Nil => {},
        List::Cons(_) => {
            assert(list@ =~= seq![list.first()] + list.rest()@);
            short_lists_are_counted(list.rest());
        },
    }
}

proof fn joined_stay_numbered<'a>(
    first: List<Declaration<'a>>,
    second: List<Declaration<'a>>,
    count: u64,
)
    requires
        numbered_from(first@, count),
        numbered_from(second@, count.saturating_add(first.count())),
    ensures
        numbered_from(append(first, second)@, count),
{
    few_are_numbered(first, count);
    append_concatenates(first, second);
    let whole = append(first, second)@;
    assert forall|i: int| 0 <= i < whole.len() implies (#[trigger] whole[i]).number() == count
        + i by {
        if i < first@.len() {
            assert(whole[i] == first@[i]);
        } else {
            let k = i - first@.len();
            assert(whole[i] == second@[k]);
            assert(second@[k].number() == count.saturating_add(first.count()) + k);
            if first@.len() == 0 {
                assert(count.saturating_add(first.count()) == count);
            } else {
                assert(count.saturating_add(first.count()) == count + first@.len());
            }
        }
    }
}

proof fn source_is_numbered<'a>(
    state: State<'a>,
    function: Rc<ast::Function<'a>>,
    name: Text<'a>,
    is_public: bool,
    count: u64,
)
    ensures
        numbered_from(
            state.collect_source_declaration(function, name, is_public, count).1@,
            count,
        ),
{
    reveal(State::collect_source_declaration);
    reveal(State::build_signature);
    reveal_with_fuel(List::view, 2);
}

proof fn foreign_is_numbered<'a>(
    state: State<'a>,
    function: Rc<ast::ForeignFunction<'a>>,
    count: u64,
)
    ensures
        numbered_from(state.collect_foreign_declaration(function, count).1@, count),
{
    reveal(State::collect_foreign_declaration);
    reveal(State::build_signature);
    reveal_with_fuel(List::view, 2);
}

proof fn methods_are_numbered<'a>(
    state: State<'a>,
    owner: Text<'a>,
    implementation: ImplDeclaration<'a>,
    methods: List<Rc<ast::Function<'a>>>,
    count: u64,
)
    ensures
        numbered_from(
            state.collect_methods(owner, implementation, methods, count).1@,
            count,
        ),
    decreases methods,
{
    reveal(State::collect_methods);
    match methods {
        List::Nil => {},
        List::Cons(_) => {
            let method = methods.first();
            if method.is_comptime {
                methods_are_numbered(state, owner, implementation, methods.rest(), count);
            } else {
                let name = member(owner, method.name.name);
                let is_public = method.is_public || implementation.trait_type is Some;
                source_is_numbered(state, method, name, is_public, count);
                let (next, first) = state.collect_source_declaration(
                    method,
                    name,
                    is_public,
                    count,
                );
                let behind = count.saturating_add(first.count());
                methods_are_numbered(next, owner, implementation, methods.rest(), behind);
                let rest = next.collect_methods(owner, implementation, methods.rest(), behind).1;
                joined_stay_numbered(first, rest, count);
            }
        },
    }
}

proof fn declaration_is_numbered<'a>(state: State<'a>, item: Item<'a>, count: u64)
    ensures
        numbered_from(state.collect_declaration(item, count).1@, count),
{
    reveal(State::collect_declaration);
    match item {
        Item::Function(function) => {
            if !function.is_comptime {
                source_is_numbered(
                    state,
                    function,
                    words(function.name.name),
                    function.is_public,
                    count,
                );
            }
        },
        Item::ForeignFunction(function) => {
            foreign_is_numbered(state, function, count);
        },
        Item::Impl(implementation) => {
            let declared = *implementation;
            reveal(State::collect_impl_declarations);
            reveal(State::collect_concrete_implementation);
            let (next, target) = state.resolve_type(declared.target);
            if target is Some {
                let owner = next.owner_name(target->0);
                if owner is Some {
                    methods_are_numbered(next, owner->0, declared, declared.methods, count);
                }
            }
        },
        _ => {},
    }
}

/// The functions of a program bear consecutive numbers, in the order of their
/// declarations. No two of them share a number.
pub proof fn functions_are_numbered<'a>(state: State<'a>, items: List<Item<'a>>, count: u64)
    ensures
        numbered_from(state.collect_declarations(items, count).1@, count),
    decreases items,
{
    reveal(State::collect_declarations);
    match items {
        List::Nil => {},
        List::Cons(_) => {
            declaration_is_numbered(state, items.first(), count);
            let (next, first) = state.collect_declaration(items.first(), count);
            let behind = count.saturating_add(first.count());
            functions_are_numbered(next, items.rest(), behind);
            let rest = next.collect_declarations(items.rest(), behind).1;
            joined_stay_numbered(first, rest, count);
        },
    }
}

/// The numbers of the declared functions that have a body.
pub open spec fn source_numbers<'a>(declarations: List<Declaration<'a>>) -> List<FunctionId>
    decreases declarations,
{
    match declarations {
        List::Nil => List::Nil,
        List::Cons(node) => match node.head {
            Declaration::Source { signature, .. } => cons(
                signature.id,
                source_numbers(node.tail),
            ),
            Declaration::Foreign { .. } => source_numbers(node.tail),
        },
    }
}

/// The numbers of functions.
pub open spec fn function_numbers<'a>(functions: List<Function<'a>>) -> List<FunctionId>
    decreases functions,
{
    match functions {
        List::Nil => List::Nil,
        List::Cons(node) => cons(node.head.id, function_numbers(node.tail)),
    }
}

impl<'a> State<'a> {
    /// A declared function checked, if it has a body.
    pub open spec fn checked_declaration(
        self,
        declaration: Declaration<'a>,
    ) -> (Self, List<Function<'a>>) {
        match declaration {
            Declaration::Source { function, resolved_name, signature } => {
                let (after, checked) = self.analyze_function(
                    *function,
                    resolved_name,
                    signature,
                    self.types.base_environment(),
                    resolved_name,
                );
                (after, cons(checked, List::Nil))
            },
            Declaration::Foreign { .. } => (self, List::Nil),
        }
    }
}

/// Every declared function with a body is in the program, under the number of
/// its declaration.
pub proof fn declared_functions_are_checked<'a>(
    state: State<'a>,
    declarations: List<Declaration<'a>>,
)
    ensures
        function_numbers(state.analyze_sources(declarations).1) == source_numbers(declarations),
    decreases declarations,
{
    reveal(State::analyze_sources);
    reveal(State::analyze_function);
    reveal(State::analyze_entered);
    match declarations {
        List::Nil => {},
        List::Cons(_) => {
            let rest = declarations.rest();
            let (next, checked) = state.checked_declaration(declarations.first());
            declared_functions_are_checked(next, rest);
            if declarations.first() is Source {
                assert(state.analyze_sources(declarations).1 == cons(
                    checked.first(),
                    next.analyze_sources(rest).1,
                ));
            }
        },
    }
}

proof fn numbers_are_borne<'a>(
    declarations: List<Declaration<'a>>,
    functions: List<Function<'a>>,
    declared: Declaration<'a>,
) -> (function: Function<'a>)
    requires
        function_numbers(functions) == source_numbers(declarations),
        declarations@.contains(declared),
        declared is Source,
    ensures
        functions@.contains(function),
        function.id.0 == declared.number(),
    decreases declarations,
{
    let first = declarations.first();
    let rest = declarations.rest();
    assert(declarations@ =~= seq![first] + rest@);
    let at = declarations@.index_of(declared);
    if first is Source {
        assert(functions is Cons);
        assert(functions@ =~= seq![functions.first()] + functions.rest()@);
        if at == 0 {
            assert(functions@[0] == functions.first());
            functions.first()
        } else {
            assert(rest@[at - 1] == declared);
            let found = numbers_are_borne(rest, functions.rest(), declared);
            let place = functions.rest()@.index_of(found);
            assert(functions@[place + 1] == found);
            found
        }
    } else {
        assert(rest@[at - 1] == declared);
        numbers_are_borne(rest, functions, declared)
    }
}

proof fn joined_hold_both<'a>(
    first: List<Function<'a>>,
    second: List<Function<'a>>,
    function: Function<'a>,
)
    requires
        first@.contains(function),
    ensures
        spec_joined_functions(first, second)@.contains(function),
    decreases first,
{
    reveal(spec_joined_functions);
    reveal(spec_copy_function);
    assert(first@ =~= seq![first.first()] + first.rest()@);
    let joined = spec_joined_functions(first, second);
    assert(joined@ =~= seq![first.first()] + spec_joined_functions(first.rest(), second)@);
    let at = first@.index_of(function);
    if at == 0 {
        assert(joined@[0] == function);
    } else {
        assert(first.rest()@[at - 1] == function);
        joined_hold_both(first.rest(), second, function);
        let place = spec_joined_functions(first.rest(), second)@.index_of(function);
        assert(joined@[place + 1] == function);
    }
}

/// A checked program holds its functions in the order of their numbers, and
/// among them one for each declaration with a body.
pub proof fn checked_programs_are_whole<'a>(
    state: State<'a>,
    program: Program<'a>,
    initializers: List<Initializer<'a>>,
    require_entry: bool,
)
    ensures
        ({
            let declarations = state.collect_declarations(program.items, 0).1;
            let functions = state.complete(program, initializers, require_entry).1.functions;
            &&& in_number_order(functions@)
            &&& numbered_from(declarations@, 0)
            &&& forall|declared: Declaration<'a>| #[trigger]
                declarations@.contains(declared) && declared is Source
                    ==> exists|function: Function<'a>| #[trigger]
                    functions@.contains(function) && function.id.0 == declared.number()
        }),
{
    reveal(State::complete);
    reveal(State::analyze_declarations);
    let declarations = state.collect_declarations(program.items, 0).1;
    functions_are_numbered(state, program.items, 0);
    let ready = state.collected(program, initializers);
    let entered = if require_entry {
        ready.validate_entry().0
    } else {
        ready
    };
    let (after, sources) = entered.analyze_sources(declarations);
    let functions = entered.analyze_declarations(declarations).1;
    declared_functions_are_checked(entered, declarations);
    functions_are_ordered(functions);
    assert forall|declared: Declaration<'a>| #[trigger]
        declarations@.contains(declared) && declared is Source implies exists|
        function: Function<'a>,
    | #[trigger]
        spec_by_number(functions)@.contains(function) && function.id.0 == declared.number() by {
        let function = numbers_are_borne(declarations, sources, declared);
        joined_hold_both(sources, after.analyze_pending(LIMIT as nat).1, function);
        assert(functions@.contains(function));
        assert(spec_by_number(functions)@.contains(function));
    }
}

// Programs and libraries.

impl<'a> State<'a> {
    /// Whether there is a function that a program can start with.
    pub open spec fn can_start(self) -> bool {
        match self.signature_of(words("main")) {
            Some(main) => {
                &&& !main.requires_unsafe
                &&& main.parameter_types is Nil
                &&& main.return_type == Type::I32
            },
            None => false,
        }
    }

    /// The state in which the functions of a program are about to be checked.
    pub open spec fn collected(
        self,
        program: Program<'a>,
        initializers: List<Initializer<'a>>,
    ) -> Self {
        let (state, declarations) = self.collect_declarations(program.items, 0);
        let (state, statics) = state.collect_statics(program.items, initializers);
        state.number_instances(declarations.count())
    }
}

/// The function that a program starts with is right if and only if nothing is
/// reported about it.
pub proof fn right_entry_is_not_reported<'a>(state: State<'a>)
    ensures
        state.can_start() ==> state.validate_entry() == (
            state,
            Some(state.signature_of(words("main"))->0.id),
        ),
        !state.can_start() ==> state.validate_entry().0.types.problems.len()
            > state.types.problems.len(),
{
    reveal(State::validate_entry);
    reveal(State::check_entry);
    reveal(State::report);
}

/// A program that can start is checked as a library is: the two differ in the
/// function to start with and in nothing else.
pub proof fn programs_are_libraries<'a>(
    state: State<'a>,
    program: Program<'a>,
    initializers: List<Initializer<'a>>,
)
    requires
        state.collected(program, initializers).can_start(),
    ensures
        ({
            let (ran, run) = state.complete(program, initializers, true);
            let (used, library) = state.complete(program, initializers, false);
            &&& ran == used
            &&& run.functions == library.functions
            &&& run.foreign_functions == library.foreign_functions
            &&& run.statics == library.statics
            &&& run.entry is Some
            &&& library.entry is None
        }),
{
    reveal(State::complete);
    right_entry_is_not_reported(state.collected(program, initializers));
}

// Quiet attempts.

/// An attempt to resolve a type quietly reports nothing.
pub proof fn quiet_attempt_reports_nothing<'a>(state: State<'a>, written: ast::TypeName<'a>)
    ensures
        state.resolve_quietly(written).0.types.problems == state.types.problems,
        state.resolve_quietly(written).0.frame == state.frame,
        state.resolve_quietly(written).0.symbols == state.symbols,
{
    reveal(State::resolve_quietly);
    reveal(Types::resolved_quietly);
}

// Operators.

/// An operator of a typed program computes what the operator that it is made of
/// computes.
pub proof fn operators_keep_their_meaning(operator: ast::BinaryOperator)
    ensures
        forall|left: u128, right: u128| #[trigger]
            typed_outcome(spec_typed_operator(operator), left, right) == parsed_outcome(
                operator,
                left,
                right,
            ),
{
    reveal(spec_typed_operator);
}

/// Different operators stay different.
pub proof fn operators_stay_apart(first: ast::BinaryOperator, second: ast::BinaryOperator)
    ensures
        spec_typed_operator(first) == spec_typed_operator(second) ==> first == second,
{
    reveal(spec_typed_operator);
}

/// An assignment of a typed program stores what the assignment that it is made of
/// stores.
pub proof fn assignments_keep_their_meaning(operator: ast::AssignmentOperator)
    ensures
        forall|before: u128, value: u128| #[trigger]
            typed_update(spec_typed_assignment(operator), before, value) == parsed_update(
                operator,
                before,
                value,
            ),
{
    reveal(spec_typed_assignment);
}

/// Different assignments stay different.
pub proof fn assignments_stay_apart(
    first: ast::AssignmentOperator,
    second: ast::AssignmentOperator,
)
    ensures
        spec_typed_assignment(first) == spec_typed_assignment(second) ==> first == second,
{
    reveal(spec_typed_assignment);
}

/// A number in a program is the number that is written, and it is accepted
/// exactly where the type that is wanted has it.
pub proof fn integer_literals_keep_their_value<'a>(
    state: State<'a>,
    value: u128,
    span: Span,
    expected: Option<Type>,
)
    ensures
        ({
            let (after, analyzed) = state.analyze_integer_literal(value, span, expected);
            let ty = match expected {
                Some(wanted) if wanted.is_integer() => wanted,
                _ => Type::I32,
            };
            &&& analyzed.ty == ty
            &&& value <= integer_positive_maximum(ty) ==> after == state && *analyzed.kind
                == ExpressionKind::Integer(value)
            &&& value > integer_positive_maximum(ty) ==> after.types.problems.len()
                == state.types.problems.len() + 1
        }),
{
    reveal(State::analyze_integer_literal);
    reveal(State::report);
}

} // verus!

//! How borrows of one variable relate to each other.

use crate::analyzer::borrowing::{forgotten_is_lost, known_is_found};
use crate::analyzer::frame::spec_find_root;
use crate::analyzer::knowledge::{spec_find_known, spec_know, spec_release};
use crate::analyzer::statements::spec_keeps_borrow;
use crate::analyzer::{Binding, BorrowState, State};
use crate::ast;
use crate::hir::LocalId;
use crate::list::List;
use crate::span::Span;
use crate::syntax::{
    any_field_stores_borrow, any_stores_borrow, scoped_root_path, stores_borrow, view_root,
};
use crate::types::Type;
use vstd::prelude::*;

verus! {

/// A borrow that lasts conflicts with the next borrow of the same variable if
/// either of them is mutable, and with no other: the next one is reported.
pub proof fn lasting_borrows_conflict<'a>(
    state: State<'a>,
    first: ast::Expression<'a>,
    first_is_mutable: bool,
    first_span: Span,
    second: ast::Expression<'a>,
    second_is_mutable: bool,
    second_span: Span,
)
    requires
        state.frame.persistent_borrow,
        state.root_binding(first) is Some,
        state.borrow_state(state.root_binding(first)->0.local) == (BorrowState {
            shared: 0,
            mutable: false,
        }),
        ({
            let lent = state.check_and_record_borrow(first, first_is_mutable, first_span);
            lent.root_binding(second) is Some && lent.root_binding(second)->0.local
                == state.root_binding(first)->0.local
        }),
    ensures
        ({
            let lent = state.check_and_record_borrow(first, first_is_mutable, first_span);
            let after = lent.check_and_record_borrow(second, second_is_mutable, second_span);
            &&& lent.types == state.types
            &&& if first_is_mutable || second_is_mutable {
                after.types.problems.len() == lent.types.problems.len() + 1
            } else {
                after.types == lent.types
            }
        }),
{
    reveal(State::check_and_record_borrow);
    reveal(State::record_borrow);
    reveal(State::borrow_state);
    reveal(State::report);
    let local = state.root_binding(first)->0.local;
    let lent = if first_is_mutable {
        BorrowState { shared: 0, mutable: true }
    } else {
        BorrowState { shared: 1, mutable: false }
    };
    known_is_found(state.frame.borrow_states, local, lent, local);
}

/// Borrows of one variable leave other variables alone.
pub proof fn borrows_leave_others_alone<'a>(
    state: State<'a>,
    operand: ast::Expression<'a>,
    mutable: bool,
    span: Span,
    other: LocalId,
)
    requires
        match state.root_binding(operand) {
            Some(binding) => binding.local != other,
            None => true,
        },
    ensures
        state.check_and_record_borrow(operand, mutable, span).borrow_state(other)
            == state.borrow_state(other),
{
    reveal(State::check_and_record_borrow);
    reveal(State::record_borrow);
    reveal(State::borrow_state);
    reveal(State::report);
    if let Some(binding) = state.root_binding(operand) {
        let held = state.borrow_state(binding.local);
        let more = if mutable {
            BorrowState { shared: held.shared, mutable: true }
        } else {
            BorrowState { shared: held.shared.saturating_add(1), mutable: held.mutable }
        };
        known_is_found(state.frame.borrow_states, binding.local, more, other);
    }
}

/// A variable that is lent mutably cannot be read: reading it is reported.
pub proof fn lent_variables_are_not_read<'a>(state: State<'a>, binding: Binding, span: Span)
    requires
        state.borrow_state(binding.local).mutable,
    ensures
        state.types.problems.len() < state.analyze_local_path(
            binding,
            span,
        ).0.types.problems.len(),
{
    reveal(State::analyze_local_path);
    reveal(State::require_local_available);
    reveal(State::report_moved);
    reveal(State::report);
    reveal(State::borrow_state);
    reveal(State::use_local);
    reveal(State::record_deferred_use);
    reveal(State::reserve);
    reveal(State::move_unborrowed);
    reveal(State::require_not_reserved_by_defer);
}

/// A variable that is lent cannot be moved: moving it is reported.
pub proof fn lent_variables_are_not_moved<'a>(state: State<'a>, local: LocalId, span: Span)
    requires
        state.borrow_state(local) != (BorrowState { shared: 0, mutable: false }),
    ensures
        state.types.problems.len() < state.move_unborrowed(local, span).types.problems.len(),
{
    reveal(State::move_unborrowed);
    reveal(State::require_not_reserved_by_defer);
    reveal(State::report);
}

/// A borrow ends with the scope that it is taken in: what was lent before is
/// lent again, and nothing else.
pub proof fn borrows_end_with_their_scope<'a>(
    state: State<'a>,
    operand: ast::Expression<'a>,
    mutable: bool,
    span: Span,
    local: LocalId,
)
    requires
        state.frame.borrow_scopes is Cons,
        state.frame.borrow_scopes.first() is Nil,
        forall|asked: LocalId| state.borrow_state(asked).shared < u32::MAX,
    ensures
        state.check_and_record_borrow(operand, mutable, span).end_borrows().borrow_state(local)
            == state.borrow_state(local),
{
    reveal(State::check_and_record_borrow);
    reveal(State::record_borrow);
    reveal(State::borrow_state);
    reveal(State::end_borrows);
    reveal(State::report);
    reveal_with_fuel(spec_release, 3);
    if let Some(binding) = state.root_binding(operand) {
        let held = state.borrow_state(binding.local);
        let more = if mutable {
            BorrowState { shared: held.shared, mutable: true }
        } else {
            BorrowState { shared: (held.shared + 1) as u32, mutable: held.mutable }
        };
        let states = spec_know(state.frame.borrow_states, binding.local, more);
        known_is_found(state.frame.borrow_states, binding.local, more, binding.local);
        known_is_found(state.frame.borrow_states, binding.local, more, local);
        forgotten_is_lost(states, binding.local, local);
        known_is_found(states, binding.local, held, local);
    }
}

/// A value that holds references and starts from a variable refers, from then
/// on, to what that variable refers to.
pub proof fn roots_are_on_record<'a>(
    state: State<'a>,
    expression: ast::Expression<'a>,
    ty: Type,
    root: LocalId,
)
    requires
        state.types.is_scoped(ty),
        state.scoped_source_local(expression) == Some(root),
    ensures
        state.record_root(expression, ty).refers_to(expression, root),
{
    reveal(State::record_root);
    reveal(State::set_expression_root);
    reveal(State::expression_root);
    reveal(spec_find_root);
}

/// A new variable that holds references refers to what its value refers to.
pub proof fn variables_refer_to_what_their_value_refers_to<'a>(
    state: State<'a>,
    local: LocalId,
    ty: Type,
    source: ast::Expression<'a>,
)
    ensures
        ({
            let after = state.inherit_root(local, ty, source);
            match state.scoped_source_local(source) {
                Some(root) if state.types.is_scoped(ty) => spec_find_known(
                    after.frame.scoped_roots,
                    local,
                ) == Some(root),
                _ => after == state,
            }
        }),
        forall|other: LocalId|
            other != local ==> #[trigger] spec_find_known(
                state.inherit_root(local, ty, source).frame.scoped_roots,
                other,
            ) == spec_find_known(state.frame.scoped_roots, other),
{
    reveal(State::inherit_root);
    reveal(State::set_scoped_root);
    if let Some(root) = state.scoped_source_local(source) {
        assert forall|other: LocalId| #[trigger]
            spec_find_known(
                spec_know(state.frame.scoped_roots, local, root),
                other,
            ) == (if other == local {
                Some(root)
            } else {
                spec_find_known(state.frame.scoped_roots, other)
            }) by {
            known_is_found(state.frame.scoped_roots, local, root, other);
        }
    }
}

proof fn some_element_keeps_a_borrow(elements: List<ast::Expression>)
    ensures
        any_stores_borrow(elements) == exists|i: int|
            0 <= i < elements@.len() && stores_borrow(#[trigger] elements@[i]),
    decreases elements,
{
    if elements is Cons {
        some_element_keeps_a_borrow(elements.rest());
        assert(elements@ =~= seq![elements.first()] + elements.rest()@);
        assert(elements@[0] == elements.first());
        if any_stores_borrow(elements.rest()) {
            let i = choose|i: int|
                0 <= i < elements.rest()@.len() && stores_borrow(#[trigger] elements.rest()@[i]);
            assert(elements@[i + 1] == elements.rest()@[i]);
        }
        if exists|i: int| 0 <= i < elements@.len() && stores_borrow(#[trigger] elements@[i]) {
            let i = choose|i: int|
                0 <= i < elements@.len() && stores_borrow(#[trigger] elements@[i]);
            if i > 0 {
                assert(elements.rest()@[i - 1] == elements@[i]);
            }
        }
    }
}

proof fn some_field_keeps_a_borrow(fields: List<ast::FieldInitializer>)
    ensures
        any_field_stores_borrow(fields) == exists|i: int|
            0 <= i < fields@.len() && stores_borrow((#[trigger] fields@[i]).value),
    decreases fields,
{
    if fields is Cons {
        some_field_keeps_a_borrow(fields.rest());
        assert(fields@ =~= seq![fields.first()] + fields.rest()@);
        assert(fields@[0] == fields.first());
        if any_field_stores_borrow(fields.rest()) {
            let i = choose|i: int|
                0 <= i < fields.rest()@.len() && stores_borrow(
                    (#[trigger] fields.rest()@[i]).value,
                );
            assert(fields@[i + 1] == fields.rest()@[i]);
        }
        if exists|i: int| 0 <= i < fields@.len() && stores_borrow((#[trigger] fields@[i]).value) {
            let i = choose|i: int|
                0 <= i < fields@.len() && stores_borrow((#[trigger] fields@[i]).value);
            if i > 0 {
                assert(fields.rest()@[i - 1] == fields@[i]);
            }
        }
    }
}

/// A variable keeps a borrow exactly where its value is a borrow, or holds a
/// borrow in one of its parts.
pub proof fn aggregates_keep_the_borrows_of_their_parts(expression: ast::Expression)
    ensures
        spec_keeps_borrow(expression) == stores_borrow(expression),
        stores_borrow(expression) == (match *expression.kind {
            ast::ExpressionKind::Unary { operator, .. } => operator is Borrow || operator
                is BorrowMut,
            ast::ExpressionKind::Tuple(elements) => exists|i: int|
                0 <= i < elements@.len() && stores_borrow(#[trigger] elements@[i]),
            ast::ExpressionKind::ArrayList(elements) => exists|i: int|
                0 <= i < elements@.len() && stores_borrow(#[trigger] elements@[i]),
            ast::ExpressionKind::ArrayRepeat { value, length } => stores_borrow(value)
                || stores_borrow(length),
            ast::ExpressionKind::Struct { fields, .. } => exists|i: int|
                0 <= i < fields@.len() && stores_borrow((#[trigger] fields@[i]).value),
            ast::ExpressionKind::PackExpansion { template, .. } => stores_borrow(template),
            _ => false,
        }),
{
    reveal(spec_keeps_borrow);
    match &*expression.kind {
        ast::ExpressionKind::Tuple(elements) => some_element_keeps_a_borrow(*elements),
        ast::ExpressionKind::ArrayList(elements) => some_element_keeps_a_borrow(*elements),
        ast::ExpressionKind::Struct { fields, .. } => some_field_keeps_a_borrow(*fields),
        _ => {},
    }
}

/// What a function is called with first is what its result refers to; what a
/// method is called on is what its result refers to.
pub proof fn calls_refer_to_what_comes_first<'a>(
    expression: ast::Expression<'a>,
    call: ast::CallExpression<'a>,
)
    requires
        *expression.kind == ast::ExpressionKind::Call(call),
    ensures
        *call.callee.kind is Path && call.arguments is Cons ==> scoped_root_path(expression)
            == scoped_root_path(call.arguments.first()),
        match *call.callee.kind {
            ast::ExpressionKind::Field(field) => scoped_root_path(expression) == view_root(
                field.base,
            ) && view_root(expression) == view_root(field.base),
            _ => true,
        },
{
}

} // verus!

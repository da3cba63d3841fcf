//! That what is read has the type of what it is read from.

use crate::analyzer::State;
use crate::ast::FieldExpression;
use crate::hir::{Expression, ExpressionKind, Place};
use crate::span::Span;
use crate::types::Type;
use vstd::prelude::*;

verus! {

/// What a reference or a pointer leads to has the type that it points to.
/// Where a value is neither, that is reported.
pub proof fn targets_have_their_type<'a>(state: State<'a>, pointer: Expression<'a>, span: Span)
    ensures
        ({
            let (after, value) = state.dereference(pointer, span);
            match state.pointer_shape(pointer.ty) {
                Some((target, _, _)) => value.ty == target && *value.kind
                    == ExpressionKind::Dereference(pointer),
                None => after.types.problems.len() == state.types.problems.len() + 1,
            }
        }),
{
    reveal(State::dereference);
    reveal(State::report);
}

/// A field has the type that its position in the value has. Where there is no
/// such field, that is reported.
pub proof fn fields_have_their_type<'a>(
    state: State<'a>,
    base: Expression<'a>,
    field: FieldExpression<'a>,
)
    ensures
        ({
            let (after, value) = state.select_field(base, field);
            match state.selected_field(base.ty, field.field) {
                Some((position, ty, _)) => value.ty == ty && *value.kind
                    == (ExpressionKind::Field { base, field: position }),
                None => after.types.problems.len() == state.types.problems.len() + 1,
            }
        }),
{
    reveal(State::select_field);
    reveal(State::report);
}

/// A borrow of a place has the type of references to what the place holds,
/// unless a slice is made of it.
pub proof fn borrows_have_their_type<'a>(
    state: State<'a>,
    place: Place<'a>,
    mutable: bool,
    span: Span,
    expected: Option<Type>,
)
    requires
        state.borrowed_slice(place.ty, mutable, expected) is None,
        state.intern_reference(place.ty, mutable, span).1 is Some,
    ensures
        ({
            let value = state.borrow_place(place, mutable, span, expected).1;
            Some(value.ty) == state.intern_reference(place.ty, mutable, span).1
        }),
{
    reveal(State::borrow_place);
}

} // verus!

//! What has been moved, and what becomes of it where branches meet.

use crate::analyzer::borrowing::{forgotten_is_lost, known_is_found};
use crate::analyzer::expressions::{spec_joined_field_moves, spec_joined_known, Moves};
use crate::analyzer::frame::{
    spec_copy_field, spec_find_field_move, spec_find_overlap, spec_overlaps, spec_same_projection,
    spec_starts_with, spec_without_fields_of, spec_without_parts,
};
use crate::analyzer::knowledge::{spec_find_known, spec_forget};
use crate::analyzer::{
    Binding, FieldMove, FieldProjection, Known, MovedField, State,
};
use crate::ast;
use crate::hir::LocalId;
use crate::list::List;
use crate::span::Span;
use crate::types::Type;
use vstd::prelude::*;

verus! {

/// Whether two steps lead to the same part of a value.
pub open spec fn is_same_step(left: FieldProjection, right: FieldProjection) -> bool {
    match (left, right) {
        (FieldProjection::Named(left), FieldProjection::Named(right)) => left@ == right@,
        (FieldProjection::Tuple(left), FieldProjection::Tuple(right)) => left == right,
        _ => false,
    }
}

/// Whether a part of a value lies in another part of it, or is that part.
pub open spec fn lies_in(
    inner: List<FieldProjection>,
    outer: List<FieldProjection>,
) -> bool {
    &&& outer@.len() <= inner@.len()
    &&& forall|i: int| 0 <= i < outer@.len() ==> is_same_step(inner@[i], #[trigger] outer@[i])
}

/// Whether parts of variables have something in common.
pub open spec fn share_a_part(left: MovedField, right: MovedField) -> bool {
    &&& left.local == right.local
    &&& lies_in(left.projections, right.projections) || lies_in(
        right.projections,
        left.projections,
    )
}

/// Whether a variable has been moved as a whole.
pub open spec fn is_moved(moved: List<Known<Span>>, local: LocalId) -> bool {
    exists|i: int| 0 <= i < moved@.len() && (#[trigger] moved@[i]).local == local
}

/// Whether something has been moved that has a part in common with a place.
pub open spec fn is_part_moved(moves: List<FieldMove>, place: MovedField) -> bool {
    exists|i: int| 0 <= i < moves@.len() && share_a_part((#[trigger] moves@[i]).field, place)
}

/// Whether some part of a variable has been moved.
pub open spec fn is_some_part_moved(moves: List<FieldMove>, local: LocalId) -> bool {
    exists|i: int| 0 <= i < moves@.len() && (#[trigger] moves@[i]).field.local == local
}

impl<'a> State<'a> {
    /// Whether a place is no longer there, as a whole or in part.
    pub open spec fn is_gone(self, place: MovedField<'a>) -> bool {
        is_moved(self.frame.moved_locals, place.local) || is_part_moved(
            self.frame.moved_fields,
            place,
        )
    }

    /// Whether a later state has the problem of a moved value, and is the same but
    /// for that.
    pub open spec fn misses(self, later: State<'a>) -> bool {
        &&& later.frame == self.frame
        &&& later.types.problems.len() == self.types.problems.len() + 1
        &&& later.types.problems.drop_last() == self.types.problems
        &&& later.types.problems.last().code@ == "E3143"@
    }
}

proof fn moved_variables_are_known(moved: List<Known<Span>>, local: LocalId)
    ensures
        (spec_find_known(moved, local) is Some) == is_moved(moved, local),
    decreases moved,
{
    reveal(spec_find_known);
    match moved {
        List::Nil => {},
        List::Cons(_) => {
            let first = moved.first();
            let rest = moved.rest();
            assert(moved@ =~= seq![first] + rest@);
            moved_variables_are_known(rest, local);
            if first.local == local {
                assert(moved@[0].local == local);
            } else {
                if is_moved(moved, local) {
                    let i = choose|i: int|
                        0 <= i < moved@.len() && (#[trigger] moved@[i]).local == local;
                    assert(rest@[i - 1].local == local);
                }
                if is_moved(rest, local) {
                    let i = choose|i: int|
                        0 <= i < rest@.len() && (#[trigger] rest@[i]).local == local;
                    assert(moved@[i + 1].local == local);
                }
            }
        },
    }
}

proof fn steps_start_where_they_lie<'a>(
    steps: List<FieldProjection<'a>>,
    prefix: List<FieldProjection<'a>>,
)
    ensures
        spec_starts_with(steps, prefix) == lies_in(steps, prefix),
    decreases prefix,
{
    reveal(spec_starts_with);
    reveal(spec_same_projection);
    match prefix {
        List::Nil => {},
        List::Cons(_) => {
            assert(prefix@ =~= seq![prefix.first()] + prefix.rest()@);
            match steps {
                List::Nil => {},
                List::Cons(_) => {
                    assert(steps@ =~= seq![steps.first()] + steps.rest()@);
                    steps_start_where_they_lie(steps.rest(), prefix.rest());
                    if lies_in(steps, prefix) {
                        assert(is_same_step(steps@[0], prefix@[0]));
                        assert forall|i: int| 0 <= i < prefix.rest()@.len() implies is_same_step(
                            steps.rest()@[i],
                            #[trigger] prefix.rest()@[i],
                        ) by {
                            assert(is_same_step(steps@[i + 1], prefix@[i + 1]));
                        }
                    }
                    if spec_starts_with(steps, prefix) {
                        assert forall|i: int| 0 <= i < prefix@.len() implies is_same_step(
                            steps@[i],
                            #[trigger] prefix@[i],
                        ) by {
                            if i > 0 {
                                assert(is_same_step(
                                    steps.rest()@[i - 1],
                                    prefix.rest()@[i - 1],
                                ));
                            }
                        }
                    }
                },
            }
        },
    }
}

proof fn overlaps_share_a_part<'a>(moved: MovedField<'a>, place: MovedField<'a>)
    ensures
        spec_overlaps(moved, place, false) == share_a_part(moved, place),
        spec_overlaps(moved, place, true) == (moved.local == place.local && lies_in(
            place.projections,
            moved.projections,
        ) && !lies_in(moved.projections, place.projections)),
{
    reveal(spec_overlaps);
    steps_start_where_they_lie(place.projections, moved.projections);
    steps_start_where_they_lie(moved.projections, place.projections);
}

proof fn moved_parts_are_found<'a>(moves: List<FieldMove<'a>>, place: MovedField<'a>)
    ensures
        (spec_find_overlap(moves, place, false) is Some) == is_part_moved(moves, place),
    decreases moves,
{
    reveal(spec_find_overlap);
    match moves {
        List::Nil => {},
        List::Cons(_) => {
            let first = moves.first();
            let rest = moves.rest();
            assert(moves@ =~= seq![first] + rest@);
            overlaps_share_a_part(first.field, place);
            moved_parts_are_found(rest, place);
            if share_a_part(first.field, place) {
                assert(share_a_part(moves@[0].field, place));
            } else {
                if is_part_moved(moves, place) {
                    let i = choose|i: int|
                        0 <= i < moves@.len() && share_a_part(
                            (#[trigger] moves@[i]).field,
                            place,
                        );
                    assert(share_a_part(rest@[i - 1].field, place));
                }
                if is_part_moved(rest, place) {
                    let i = choose|i: int|
                        0 <= i < rest@.len() && share_a_part((#[trigger] rest@[i]).field, place);
                    assert(share_a_part(moves@[i + 1].field, place));
                }
            }
        },
    }
}

proof fn some_moved_part_is_found<'a>(moves: List<FieldMove<'a>>, local: LocalId)
    ensures
        (spec_find_field_move(moves, local) is Some) == is_some_part_moved(moves, local),
    decreases moves,
{
    reveal(spec_find_field_move);
    match moves {
        List::Nil => {},
        List::Cons(_) => {
            let first = moves.first();
            let rest = moves.rest();
            assert(moves@ =~= seq![first] + rest@);
            some_moved_part_is_found(rest, local);
            if first.field.local == local {
                assert(moves@[0].field.local == local);
            } else {
                if is_some_part_moved(moves, local) {
                    let i = choose|i: int|
                        0 <= i < moves@.len() && (#[trigger] moves@[i]).field.local == local;
                    assert(rest@[i - 1].field.local == local);
                }
                if is_some_part_moved(rest, local) {
                    let i = choose|i: int|
                        0 <= i < rest@.len() && (#[trigger] rest@[i]).field.local == local;
                    assert(moves@[i + 1].field.local == local);
                }
            }
        },
    }
}

// Uses.

/// The use of a part of a variable is reported if and only if the variable, the
/// part, something around it or something inside it has been moved.
pub proof fn missing_parts_are_reported<'a>(state: State<'a>, place: MovedField<'a>, span: Span)
    ensures
        ({
            let after = state.require_field_available(place, span, false);
            if state.is_gone(place) {
                state.misses(after)
            } else {
                after == state
            }
        }),
{
    reveal(State::require_field_available);
    reveal(State::report_moved);
    reveal(State::report);
    moved_variables_are_known(state.frame.moved_locals, place.local);
    moved_parts_are_found(state.frame.moved_fields, place);
    let after = state.require_field_available(place, span, false);
    if state.is_gone(place) {
        assert(after.types.problems.drop_last() =~= state.types.problems);
    }
}

/// The use of a variable is reported if and only if it has been moved, or a part
/// of it has been and the use needs all parts.
pub proof fn missing_variables_are_reported<'a>(
    state: State<'a>,
    binding: Binding,
    span: Span,
    include_partial_moves: bool,
)
    ensures
        ({
            let after = state.require_local_available(binding, span, include_partial_moves);
            if is_moved(state.frame.moved_locals, binding.local) || (include_partial_moves
                && is_some_part_moved(state.frame.moved_fields, binding.local)) {
                state.misses(after)
            } else {
                after == state
            }
        }),
{
    reveal(State::require_local_available);
    reveal(State::report_moved);
    reveal(State::report);
    moved_variables_are_known(state.frame.moved_locals, binding.local);
    some_moved_part_is_found(state.frame.moved_fields, binding.local);
    let after = state.require_local_available(binding, span, include_partial_moves);
    if after != state {
        assert(after.types.problems.drop_last() =~= state.types.problems);
    }
}

// Moves.

/// A part of a variable that is consumed is gone afterwards, with all that has a
/// part in common with it, unless its values are copied. What was gone before
/// stays gone.
pub proof fn consumed_parts_are_gone<'a>(
    state: State<'a>,
    place: MovedField<'a>,
    ty: Type,
    span: Span,
    other: MovedField<'a>,
)
    requires
        state.frame.defer_depth == 0,
        spec_find_known(state.frame.deferred_uses, place.local) is None,
    ensures
        ({
            let checked = state.require_field_available(place, span, false);
            let after = state.consume_field(place, ty, span);
            &&& after.types == checked.types
            &&& after.is_gone(other) == (state.is_gone(other) || (!checked.types.is_copy(ty)
                && share_a_part(place, other)))
        }),
{
    reveal(State::consume_field);
    reveal(State::require_not_reserved_by_defer);
    reveal(spec_copy_field);
    missing_parts_are_reported(state, place, span);
    let checked = state.require_field_available(place, span, false);
    let after = state.consume_field(place, ty, span);
    if !checked.types.is_copy(ty) {
        let moves = after.frame.moved_fields;
        let rest = state.frame.moved_fields;
        assert(moves@ =~= seq![moves.first()] + rest@);
        if share_a_part(place, other) {
            assert(share_a_part(moves@[0].field, other));
        }
        if is_part_moved(rest, other) {
            let i = choose|i: int|
                0 <= i < rest@.len() && share_a_part((#[trigger] rest@[i]).field, other);
            assert(share_a_part(moves@[i + 1].field, other));
        }
        if is_part_moved(moves, other) {
            let i = choose|i: int|
                0 <= i < moves@.len() && share_a_part((#[trigger] moves@[i]).field, other);
            if i > 0 {
                assert(share_a_part(rest@[i - 1].field, other));
            }
        }
    }
}

/// A variable that is moved is gone afterwards, and no other variable is.
pub proof fn moved_variables_are_gone<'a>(
    state: State<'a>,
    local: LocalId,
    span: Span,
    other: LocalId,
)
    requires
        state.frame.defer_depth == 0,
        spec_find_known(state.frame.deferred_uses, local) is None,
    ensures
        ({
            let after = state.move_local(local, span);
            &&& after.types == state.types
            &&& after.frame.moved_fields == state.frame.moved_fields
            &&& is_moved(after.frame.moved_locals, other) == (other == local || is_moved(
                state.frame.moved_locals,
                other,
            ))
        }),
{
    reveal(State::move_local);
    reveal(State::require_not_reserved_by_defer);
    known_is_found(state.frame.moved_locals, local, span, other);
    moved_variables_are_known(state.frame.moved_locals, other);
    moved_variables_are_known(state.move_local(local, span).frame.moved_locals, other);
}

proof fn restored_parts<'a>(moves: List<FieldMove<'a>>, place: MovedField<'a>, other: MovedField<'a>)
    ensures
        is_part_moved(spec_without_parts(moves, place), other) == exists|i: int|
            0 <= i < moves@.len() && share_a_part((#[trigger] moves@[i]).field, other) && !(
            moves@[i].field.local == place.local && lies_in(
                moves@[i].field.projections,
                place.projections,
            )),
    decreases moves,
{
    reveal(spec_without_parts);
    reveal(spec_copy_field);
    match moves {
        List::Nil => {},
        List::Cons(_) => {
            let first = moves.first();
            let rest = moves.rest();
            assert(moves@ =~= seq![first] + rest@);
            assert(moves@[0] == first);
            restored_parts(rest, place, other);
            steps_start_where_they_lie(first.field.projections, place.projections);
            let kept = spec_without_parts(moves, place);
            let later = spec_without_parts(rest, place);
            let inside = first.field.local == place.local && lies_in(
                first.field.projections,
                place.projections,
            );
            if !inside {
                assert(kept@ =~= seq![first] + later@);
                assert(kept@[0] == first);
                if is_part_moved(kept, other) {
                    let i = choose|i: int|
                        0 <= i < kept@.len() && share_a_part((#[trigger] kept@[i]).field, other);
                    if i > 0 {
                        assert(share_a_part(later@[i - 1].field, other));
                    }
                }
                if is_part_moved(later, other) {
                    let i = choose|i: int|
                        0 <= i < later@.len() && share_a_part((#[trigger] later@[i]).field, other);
                    assert(share_a_part(kept@[i + 1].field, other));
                }
            }
            if is_part_moved(later, other) {
                let i = choose|i: int|
                    0 <= i < rest@.len() && share_a_part((#[trigger] rest@[i]).field, other) && !(
                    rest@[i].field.local == place.local && lies_in(
                        rest@[i].field.projections,
                        place.projections,
                    ));
                assert(moves@[i + 1] == rest@[i]);
            }
            if exists|i: int|
                0 < i < moves@.len() && share_a_part((#[trigger] moves@[i]).field, other) && !(
                moves@[i].field.local == place.local && lies_in(
                    moves@[i].field.projections,
                    place.projections,
                )) {
                let i = choose|i: int|
                    0 < i < moves@.len() && share_a_part((#[trigger] moves@[i]).field, other) && !(
                    moves@[i].field.local == place.local && lies_in(
                        moves@[i].field.projections,
                        place.projections,
                    ));
                assert(rest@[i - 1] == moves@[i]);
            }
        },
    }
}

/// A part of a variable that is assigned to is there again with all that is
/// inside it; what has been moved elsewhere stays moved.
pub proof fn assigned_parts_are_there_again<'a>(
    state: State<'a>,
    place: MovedField<'a>,
    other: MovedField<'a>,
)
    ensures
        ({
            let after = state.restore_field(place);
            let moves = state.frame.moved_fields;
            &&& after.types == state.types
            &&& after.frame.moved_locals == state.frame.moved_locals
            &&& is_part_moved(after.frame.moved_fields, other) == exists|i: int|
                0 <= i < moves@.len() && share_a_part((#[trigger] moves@[i]).field, other) && !(
                moves@[i].field.local == place.local && lies_in(
                    moves@[i].field.projections,
                    place.projections,
                ))
        }),
{
    reveal(State::restore_field);
    restored_parts(state.frame.moved_fields, place, other);
}

proof fn other_fields_stay<'a>(moves: List<FieldMove<'a>>, local: LocalId, other: MovedField<'a>)
    ensures
        is_part_moved(spec_without_fields_of(moves, local), other) == (other.local != local
            && is_part_moved(moves, other)),
    decreases moves,
{
    reveal(spec_without_fields_of);
    reveal(spec_copy_field);
    match moves {
        List::Nil => {},
        List::Cons(_) => {
            let first = moves.first();
            let rest = moves.rest();
            let kept = spec_without_fields_of(moves, local);
            let later = spec_without_fields_of(rest, local);
            assert(moves@ =~= seq![first] + rest@);
            assert(moves@[0] == first);
            other_fields_stay(rest, local, other);
            if is_part_moved(rest, other) {
                let i = choose|i: int|
                    0 <= i < rest@.len() && share_a_part((#[trigger] rest@[i]).field, other);
                assert(moves@[i + 1] == rest@[i]);
            }
            if is_part_moved(moves, other) {
                let i = choose|i: int|
                    0 <= i < moves@.len() && share_a_part((#[trigger] moves@[i]).field, other);
                if i > 0 {
                    assert(rest@[i - 1] == moves@[i]);
                }
            }
            if first.field.local != local {
                assert(kept@ =~= seq![first] + later@);
                assert(kept@[0] == first);
                if is_part_moved(kept, other) {
                    let i = choose|i: int|
                        0 <= i < kept@.len() && share_a_part((#[trigger] kept@[i]).field, other);
                    if i > 0 {
                        assert(later@[i - 1] == kept@[i]);
                    }
                }
                if is_part_moved(later, other) {
                    let i = choose|i: int|
                        0 <= i < later@.len() && share_a_part((#[trigger] later@[i]).field, other);
                    assert(kept@[i + 1] == later@[i]);
                }
            }
        },
    }
}

/// A variable that is assigned to is there again with all its parts, and no other
/// variable is.
pub proof fn assigned_variables_are_there_again<'a>(
    state: State<'a>,
    local: LocalId,
    other: MovedField<'a>,
)
    ensures
        state.restore_local(local).types == state.types,
        state.restore_local(local).is_gone(other) == (other.local != local && state.is_gone(other)),
{
    reveal(State::restore_local);
    forgotten_is_lost(state.frame.moved_locals, local, other.local);
    moved_variables_are_known(state.frame.moved_locals, other.local);
    moved_variables_are_known(spec_forget(state.frame.moved_locals, local), other.local);
    other_fields_stay(state.frame.moved_fields, local, other);
}

// Branches.

proof fn joined_variables<'a>(first: List<Known<Span>>, second: List<Known<Span>>, local: LocalId)
    ensures
        is_moved(spec_joined_known(first, second), local) == (is_moved(first, local) || is_moved(
            second,
            local,
        )),
    decreases first,
{
    reveal(spec_joined_known);
    reveal(spec_find_known);
    moved_variables_are_known(first, local);
    moved_variables_are_known(spec_joined_known(first, second), local);
    match first {
        List::Nil => {},
        List::Cons(_) => {
            joined_variables(first.rest(), second, local);
            moved_variables_are_known(first.rest(), local);
            moved_variables_are_known(spec_joined_known(first.rest(), second), local);
        },
    }
}

proof fn joined_parts<'a>(
    first: List<FieldMove<'a>>,
    second: List<FieldMove<'a>>,
    place: MovedField<'a>,
)
    ensures
        is_part_moved(spec_joined_field_moves(first, second), place) == (is_part_moved(first, place)
            || is_part_moved(second, place)),
    decreases first,
{
    reveal(spec_joined_field_moves);
    reveal(spec_copy_field);
    reveal(spec_find_overlap);
    moved_parts_are_found(first, place);
    moved_parts_are_found(spec_joined_field_moves(first, second), place);
    match first {
        List::Nil => {},
        List::Cons(_) => {
            joined_parts(first.rest(), second, place);
            moved_parts_are_found(first.rest(), place);
            moved_parts_are_found(spec_joined_field_moves(first.rest(), second), place);
        },
    }
}

proof fn merged_moves<'a>(state: State<'a>, moves: Moves<'a>, place: MovedField<'a>)
    ensures
        state.merge_moves(moves).is_gone(place) == (state.is_gone(place) || is_moved(
            moves.locals,
            place.local,
        ) || is_part_moved(moves.fields, place)),
        state.merge_moves(moves).types == state.types,
{
    reveal(State::merge_moves);
    joined_variables(state.frame.moved_locals, moves.locals, place.local);
    joined_parts(state.frame.moved_fields, moves.fields, place);
}

/// Where the branches of an `if` meet, a place is gone if and only if it is gone
/// behind one of the branches. The branches start from the same moves, those
/// behind the condition.
pub proof fn branches_of_if_meet<'a>(
    state: State<'a>,
    condition: ast::Expression<'a>,
    then_branch: ast::Block<'a>,
    else_branch: Option<ast::Expression<'a>>,
    span: Span,
    expected: Option<Type>,
    fuel: nat,
    place: MovedField<'a>,
)
    ensures
        ({
            let (tested, test) = state.analyze_expression_expected(
                condition,
                Some(Type::Bool),
                fuel,
            );
            let forked = tested.require_type(
                Type::Bool,
                test.ty,
                condition.span,
                "if condition",
            );
            let first = forked.analyze_block(then_branch, expected, fuel).0;
            exists|again: State<'a>|
                {
                    let second = #[trigger] again.analyze_optional(
                        else_branch,
                        expected,
                        fuel,
                    ).0;
                    let after = state.analyze_if(
                        condition,
                        then_branch,
                        else_branch,
                        span,
                        expected,
                        fuel,
                    ).0;
                    &&& again.frame.moved_locals == forked.frame.moved_locals
                    &&& again.frame.moved_fields == forked.frame.moved_fields
                    &&& again.frame.scopes == first.frame.scopes
                    &&& again.types == first.types
                    &&& after.is_gone(place) == (first.is_gone(place) || second.is_gone(place))
                }
        }),
{
    reveal(State::current_moves);
    reveal(State::restore_moves);
    reveal(State::set_moves);
    let (tested, test) = state.analyze_expression_expected(condition, Some(Type::Bool), fuel);
    let forked = tested.require_type(Type::Bool, test.ty, condition.span, "if condition");
    let first = forked.analyze_block(then_branch, expected, fuel).0;
    let again = first.restore_moves(forked.current_moves());
    let second = again.analyze_optional(else_branch, expected, fuel).0;
    merged_moves(second, first.current_moves(), place);
    reveal(State::join_branches);
    reveal(State::unify_branch_types);
    reveal(State::require_type);
    reveal(State::type_mismatch);
    reveal(State::report);
    let joined = second.merge_moves(first.current_moves());
    let after = state.analyze_if(condition, then_branch, else_branch, span, expected, fuel).0;
    assert(after.frame == joined.frame);
    assert(after.is_gone(place) == (first.is_gone(place) || second.is_gone(place)));
}

impl<'a> State<'a> {
    /// The state in which an arm of a `match` is checked: with the moves from
    /// before all arms, and the type that the values of earlier arms agree on.
    pub open spec fn at_arm(
        self,
        arms: List<ast::MatchArm<'a>>,
        ty: Type,
        root: Option<LocalId>,
        expected: Option<Type>,
        before: Moves<'a>,
        result_type: Option<Type>,
        fuel: nat,
        position: nat,
    ) -> (State<'a>, Option<Type>)
        decreases position,
    {
        let start = self.restore_moves(before);
        if position == 0 || arms is Nil {
            (start, result_type)
        } else {
            let (behind, (_, next)) = start.analyze_arm(
                arms.first(),
                ty,
                root,
                expected,
                result_type,
                fuel,
            );
            behind.merge_moves(self.current_moves()).at_arm(
                arms.rest(),
                ty,
                root,
                expected,
                before,
                next,
                fuel,
                (position - 1) as nat,
            )
        }
    }

    /// The state behind an arm of a `match`.
    pub open spec fn behind_arm(
        self,
        arms: List<ast::MatchArm<'a>>,
        ty: Type,
        root: Option<LocalId>,
        expected: Option<Type>,
        before: Moves<'a>,
        result_type: Option<Type>,
        fuel: nat,
        position: nat,
    ) -> State<'a> {
        let (start, agreed) = self.at_arm(
            arms,
            ty,
            root,
            expected,
            before,
            result_type,
            fuel,
            position,
        );
        start.analyze_arm(arms@[position as int], ty, root, expected, agreed, fuel).0
    }
}

proof fn starts_with_moves<'a>(
    state: State<'a>,
    arms: List<ast::MatchArm<'a>>,
    ty: Type,
    root: Option<LocalId>,
    expected: Option<Type>,
    before: Moves<'a>,
    result_type: Option<Type>,
    fuel: nat,
    position: nat,
)
    ensures
        ({
            let start = state.at_arm(
                arms,
                ty,
                root,
                expected,
                before,
                result_type,
                fuel,
                position,
            ).0;
            start.frame.moved_locals == before.locals && start.frame.moved_fields == before.fields
        }),
    decreases position,
{
    reveal(State::restore_moves);
    reveal(State::set_moves);
    if position > 0 && arms is Cons {
        let start = state.restore_moves(before);
        let (behind, (_, next)) = start.analyze_arm(
            arms.first(),
            ty,
            root,
            expected,
            result_type,
            fuel,
        );
        starts_with_moves(
            behind.merge_moves(state.current_moves()),
            arms.rest(),
            ty,
            root,
            expected,
            before,
            next,
            fuel,
            (position - 1) as nat,
        );
    }
}

/// Where the arms of a `match` meet, a place is gone if it is gone behind one of
/// the arms, and if it was gone before them. Every arm starts from the moves from
/// before all arms.
pub proof fn arms_of_match_meet<'a>(
    state: State<'a>,
    arms: List<ast::MatchArm<'a>>,
    ty: Type,
    root: Option<LocalId>,
    expected: Option<Type>,
    before: Moves<'a>,
    result_type: Option<Type>,
    fuel: nat,
    position: nat,
    place: MovedField<'a>,
)
    ensures
        ({
            let after = state.analyze_arms(
                arms,
                ty,
                root,
                expected,
                before,
                result_type,
                fuel,
            ).0;
            let start = state.at_arm(
                arms,
                ty,
                root,
                expected,
                before,
                result_type,
                fuel,
                position,
            ).0;
            &&& state.is_gone(place) ==> after.is_gone(place)
            &&& position < arms@.len() && state.behind_arm(
                arms,
                ty,
                root,
                expected,
                before,
                result_type,
                fuel,
                position,
            ).is_gone(place) ==> after.is_gone(place)
            &&& start.frame.moved_locals == before.locals
            &&& start.frame.moved_fields == before.fields
        }),
    decreases arms,
{
    starts_with_moves(state, arms, ty, root, expected, before, result_type, fuel, position);
    match arms {
        List::Nil => {},
        List::Cons(_) => {
            reveal(State::current_moves);
            let start = state.restore_moves(before);
            let (behind, (_, next)) = start.analyze_arm(
                arms.first(),
                ty,
                root,
                expected,
                result_type,
                fuel,
            );
            let merged = behind.merge_moves(state.current_moves());
            merged_moves(behind, state.current_moves(), place);
            assert(arms@ =~= seq![arms.first()] + arms.rest()@);
            assert(arms@[0] == arms.first());
            let later = if position == 0 {
                0nat
            } else {
                (position - 1) as nat
            };
            arms_of_match_meet(
                merged,
                arms.rest(),
                ty,
                root,
                expected,
                before,
                next,
                fuel,
                later,
                place,
            );
            if 0 < position < arms@.len() {
                assert(arms@[position as int] == arms.rest()@[later as int]);
            }
        },
    }
}

} // verus!

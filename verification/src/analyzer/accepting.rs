//! What is accepted: a problem is reported exactly where something is wrong.

use crate::analyzer::expressions::spec_typed_operator;
use crate::analyzer::patterns::{
    spec_any_irrefutable, spec_covers_boolean, spec_covers_variant, spec_covers_variants,
};
use crate::analyzer::places::spec_is_assignable;
use crate::analyzer::{Signature, State};
use crate::ast;
use crate::hir::{
    all_irrefutable, irrefutable, AssignmentOperator, BinaryOperator, EnumVariant, Expression,
    ExpressionKind, ForIteration, MatchArm, PatternKind, UnaryOperator,
};
use crate::list::{counts_are_lengths, List};
use crate::numbers::{integer_minimum_magnitude, is_ordered_type, is_valid_cast};
use crate::registry::IntrinsicType;
use crate::rendering::{typed_outcome, typed_update};
use crate::span::Span;
use crate::text::Text;
use crate::types::Type;
use crate::typing::{agree, operator_applies, operator_result};
use vstd::prelude::*;

verus! {

// Operators.

/// Whether an operator compares for equality.
pub open spec fn is_equality(operator: BinaryOperator) -> bool {
    operator is Equal || operator is NotEqual
}

/// Whether an operator compares by order.
pub open spec fn is_ordering(operator: BinaryOperator) -> bool {
    operator is Less || operator is LessEqual || operator is Greater || operator is GreaterEqual
}

/// An operator is accepted exactly for the types that it is defined for: values
/// that can be told apart for `==` and `!=`, values that are ordered for the
/// other comparisons, and the numbers and truth values that it works on
/// otherwise. Its result has the type that such results have.
pub proof fn operators_are_accepted_where_they_apply<'a>(
    state: State<'a>,
    operator: BinaryOperator,
    ty: Type,
)
    ensures
        state.binary_result(operator, ty).1 == operator_result(operator, ty),
        state.binary_result(operator, ty).0 == (if is_equality(operator) {
            state.types.meets(ty, "Eq"@)
        } else if is_ordering(operator) {
            is_ordered_type(ty)
        } else {
            operator_applies(operator, ty)
        }),
{
    reveal(State::binary_result);
}

/// Operands are accepted exactly where they are of one type and the operator is
/// defined for it. Operands that are never there are accepted too.
pub proof fn operands_are_accepted_where_they_agree<'a>(
    state: State<'a>,
    operator: ast::BinaryOperator,
    left: Expression<'a>,
    right: Expression<'a>,
    right_span: Span,
    span: Span,
)
    ensures
        ({
            let (after, analyzed) = state.apply_binary(operator, left, right, right_span, span);
            let applied = spec_typed_operator(operator);
            &&& agree(left.ty, right.ty) && (left.ty is Never || state.binary_result(
                applied,
                left.ty,
            ).0) ==> after == state
            &&& !agree(left.ty, right.ty) ==> state.types.problems.len()
                < after.types.problems.len()
            &&& agree(left.ty, right.ty) && !(left.ty is Never) && !state.binary_result(
                applied,
                left.ty,
            ).0 ==> state.types.problems.len() < after.types.problems.len()
            &&& *analyzed.kind == (ExpressionKind::Binary { operator: applied, left, right })
            &&& analyzed.ty == operator_result(applied, left.ty)
        }),
{
    reveal(State::apply_binary);
    reveal(State::type_mismatch);
    reveal(State::invalid_operator);
    reveal(State::report);
    reveal(State::binary_result);
}

/// `-` is accepted exactly for signed integers and floating-point numbers, and
/// `!` for truth values and integers. The result has the type of the operand.
pub proof fn unary_operators_are_accepted_where_they_apply<'a>(
    state: State<'a>,
    operator: UnaryOperator,
    operand: Expression<'a>,
    span: Span,
)
    ensures
        ({
            let (after, analyzed) = state.apply_unary(operator, operand, span);
            let accepted = operand.ty is Never || (match operator {
                UnaryOperator::Negate => operand.ty.is_signed_integer() || operand.ty.is_float(),
                UnaryOperator::Not => operand.ty is Bool || operand.ty.is_integer(),
            });
            &&& accepted ==> after == state
            &&& !accepted ==> after.types.problems.len() == state.types.problems.len() + 1
            &&& *analyzed.kind == (ExpressionKind::Unary { operator, operand })
            &&& analyzed.ty == operand.ty
        }),
{
    reveal(State::apply_unary);
    reveal(State::invalid_operator);
    reveal(State::report);
}

/// The operator that a compound assignment applies.
pub open spec fn applied_operator(operator: AssignmentOperator) -> Option<BinaryOperator> {
    match operator {
        AssignmentOperator::Assign => None,
        AssignmentOperator::Add => Some(BinaryOperator::Add),
        AssignmentOperator::Subtract => Some(BinaryOperator::Subtract),
        AssignmentOperator::Multiply => Some(BinaryOperator::Multiply),
        AssignmentOperator::Divide => Some(BinaryOperator::Divide),
        AssignmentOperator::Remainder => Some(BinaryOperator::Remainder),
        AssignmentOperator::BitAnd => Some(BinaryOperator::BitAnd),
        AssignmentOperator::BitXor => Some(BinaryOperator::BitXor),
        AssignmentOperator::BitOr => Some(BinaryOperator::BitOr),
        AssignmentOperator::ShiftLeft => Some(BinaryOperator::ShiftLeft),
        AssignmentOperator::ShiftRight => Some(BinaryOperator::ShiftRight),
    }
}

/// A compound assignment stores what its operator makes of the variable and the
/// value, and is accepted for the types that the operator is defined for. A
/// plain assignment stores the value, and is accepted for every type.
pub proof fn assignments_apply_their_operator(operator: AssignmentOperator, ty: Type)
    ensures
        spec_is_assignable(operator, ty) == (match applied_operator(operator) {
            Some(applied) => operator_applies(applied, ty),
            None => true,
        }),
        forall|before: u128, value: u128| #[trigger]
            typed_update(operator, before, value) == (match applied_operator(operator) {
                Some(applied) => typed_outcome(applied, before, value)->Number_0,
                None => value as int,
            }),
{
    reveal(spec_is_assignable);
}

// Conversions.

/// A conversion is accepted exactly where it is defined, and one to a function
/// only in `unsafe`.
pub proof fn conversions_are_accepted_where_they_are_defined<'a>(
    state: State<'a>,
    source: Type,
    target: Type,
    span: Span,
)
    ensures
        ({
            let after = state.check_cast(source, target, span);
            let accepted = source is Never || (is_valid_cast(source, target) && (!(
            target is Function) || source == target || state.frame.unsafe_depth > 0));
            &&& accepted ==> after == state
            &&& !accepted ==> state.types.problems.len() < after.types.problems.len()
        }),
{
    reveal(State::check_cast);
    reveal(State::report);
}

/// A number can be converted to every other kind of number, a character to an
/// integer but not back, and truth values, strings and unit values to nothing
/// else.
pub proof fn numbers_can_be_converted(source: Type, target: Type)
    ensures
        source.is_integer() && (target.is_integer() || target.is_float()) ==> is_valid_cast(
            source,
            target,
        ),
        source.is_float() && target.is_float() ==> is_valid_cast(source, target),
        source is Char && target.is_integer() ==> is_valid_cast(source, target),
        is_valid_cast(source, target) && target is Char ==> source is Char,
        is_valid_cast(source, target) && source is Bool ==> target is Bool,
        is_valid_cast(source, target) && target is Bool ==> source is Bool,
        is_valid_cast(source, target) && source is Str ==> target is Str,
        is_valid_cast(source, target) && target is Str ==> source is Str,
{
}

// Failures, pointers, elements.

/// `?` gives what an `Option` or a `Result` holds, and is accepted exactly where
/// the function returns an `Option`, for an `Option`, or a `Result` of the same
/// failure, for a `Result`.
pub proof fn failures_are_passed_on_as_they_are<'a>(
    state: State<'a>,
    value: Expression<'a>,
    return_type: Type,
    span: Span,
)
    ensures
        ({
            let (after, analyzed) = state.propagate_failure(value, return_type, span);
            let accepted = match (
                state.types.intrinsic(value.ty),
                state.types.intrinsic(state.frame.signature.return_type),
            ) {
                (Some(IntrinsicType::Option { .. }), Some(IntrinsicType::Option { .. })) => true,
                (
                    Some(IntrinsicType::Result { error: failure, .. }),
                    Some(IntrinsicType::Result { error, .. }),
                ) => failure == error,
                _ => false,
            };
            &&& accepted ==> after == state
            &&& !accepted ==> after.types.problems.len() == state.types.problems.len() + 1
            &&& match state.types.intrinsic(value.ty) {
                Some(IntrinsicType::Option { value: held }) => analyzed.ty == held
                    && *analyzed.kind == (ExpressionKind::Try {
                    value,
                    success_variant: 0,
                    output_type: held,
                    failure_variant: 1,
                    failure_type: None,
                    return_type,
                }),
                Some(IntrinsicType::Result { success, error }) => analyzed.ty == success
                    && *analyzed.kind == (ExpressionKind::Try {
                    value,
                    success_variant: 0,
                    output_type: success,
                    failure_variant: 1,
                    failure_type: Some(error),
                    return_type,
                }),
                None => true,
            }
        }),
{
    reveal(State::propagate_failure);
    reveal(State::propagates);
    reveal(State::intrinsic);
    reveal(State::report);
}

/// What a reference or a pointer leads to has the type that it leads to. It is
/// accepted exactly where there is a reference or a pointer, where a raw pointer
/// is followed in `unsafe`, and where what is taken out is copied.
pub proof fn pointers_lead_to_their_target<'a>(
    state: State<'a>,
    pointer: Expression<'a>,
    span: Span,
)
    ensures
        ({
            let (after, analyzed) = state.dereference(pointer, span);
            match state.types.pointer_shape(pointer.ty) {
                Some((target, _, is_raw)) => {
                    let accepted = (!is_raw || state.frame.unsafe_depth > 0) && (
                    !state.frame.consuming_value || state.types.is_copy(target));
                    &&& *analyzed.kind == ExpressionKind::Dereference(pointer)
                    &&& analyzed.ty == target
                    &&& accepted ==> after == state
                    &&& is_raw && state.frame.unsafe_depth == 0 ==> state.types.problems.len()
                        < after.types.problems.len()
                    &&& (!is_raw || state.frame.unsafe_depth > 0) && !accepted
                        ==> state.types.problems.len() < after.types.problems.len()
                },
                None => state.types.problems.len() < after.types.problems.len(),
            }
        }),
{
    reveal(State::dereference);
    reveal(State::pointer_shape);
    reveal(State::report);
}

/// A loop goes over the elements of an array, of a slice or of an array behind a
/// reference, and over the characters of a string; over nothing else.
pub proof fn loops_go_over_elements<'a>(state: State<'a>, ty: Type)
    ensures
        match (state.types.array_shape(ty), state.types.slice_shape(ty)) {
            (Some((element, _)), _) => state.iteration_of(ty) == Some(
                (element, ForIteration::Indexed),
            ),
            (None, Some((element, _))) => state.iteration_of(ty) == Some(
                (element, ForIteration::Indexed),
            ),
            (None, None) => match state.iteration_of(ty) {
                Some((element, ForIteration::Indexed)) => match state.types.pointer_shape(ty) {
                    Some((target, _, _)) => match state.types.array_shape(target) {
                        Some((found, _)) => found == element,
                        None => false,
                    },
                    None => false,
                },
                Some((element, ForIteration::Chars)) => element is Char && state.types.is_chars(ty),
                None => !state.types.is_chars(ty),
            },
        },
{
    reveal(State::iteration_of);
    reveal(State::indexed_element);
}

/// A number behind a minus sign is accepted exactly where the type that is wanted
/// has it; the smallest one is written without its sign.
pub proof fn negated_literals_fit_their_type<'a>(
    state: State<'a>,
    operand: ast::Expression<'a>,
    span: Span,
    expected: Option<Type>,
    value: u128,
)
    requires
        *operand.kind == ast::ExpressionKind::Integer(value),
    ensures
        ({
            let (after, analyzed) = state.analyze_negated_literal(operand, span, expected);
            let ty = match expected {
                Some(wanted) if wanted.is_signed_integer() => wanted,
                _ => Type::I32,
            };
            let least = integer_minimum_magnitude(ty);
            &&& value < least ==> after == state && analyzed is None
            &&& value == least ==> after == state && analyzed is Some && *(analyzed->0).kind
                == ExpressionKind::Integer(least) && (analyzed->0).ty == ty
            &&& value > least ==> after.types.problems.len() == state.types.problems.len() + 1
        }),
{
    reveal(State::analyze_negated_literal);
    reveal(State::report);
}

/// An array is borrowed as a slice where a slice is wanted: of the same elements,
/// as long as the array, and not changeable unless the borrow is.
pub proof fn arrays_are_borrowed_as_slices<'a>(
    state: State<'a>,
    ty: Type,
    mutable: bool,
    expected: Option<Type>,
)
    ensures
        match state.borrowed_slice(ty, mutable, expected) {
            Some((slice, changeable, length, fits)) => {
                &&& expected == Some(slice)
                &&& state.types.slice_shape(slice) is Some
                &&& state.types.array_shape(ty) is Some
                &&& changeable == (state.types.slice_shape(slice)->0).1
                &&& length == (state.types.array_shape(ty)->0).1
                &&& fits <==> (state.types.slice_shape(slice)->0).0 == (state.types.array_shape(
                    ty,
                )->0).0 && (changeable ==> mutable)
            },
            None => match expected {
                Some(wanted) => state.types.slice_shape(wanted) is None || state.types.array_shape(
                    ty,
                ) is None,
                None => true,
            },
        },
{
    reveal(State::borrowed_slice);
}

// Arguments.

/// Whether values have the types that are asked for, one by one, as far as there
/// are both.
pub open spec fn have_types(values: Seq<Expression>, types: Seq<Type>) -> bool {
    forall|i: int|
        0 <= i < values.len() && i < types.len() ==> types[i].accepts((#[trigger] values[i]).ty)
}

proof fn wrong_types_are_reported<'a>(
    state: State<'a>,
    values: List<Expression<'a>>,
    types: List<Type>,
    role: &'a str,
)
    ensures
        ({
            let after = state.require_types(values, types, role);
            &&& have_types(values@, types@) ==> after == state
            &&& !have_types(values@, types@) ==> state.types.problems.len()
                < after.types.problems.len()
            &&& state.types.problems.len() <= after.types.problems.len()
        }),
    decreases values,
{
    reveal(State::require_types);
    reveal(State::require_type);
    reveal(State::type_mismatch);
    reveal(State::report);
    if values is Cons && types is Cons {
        let first = values.first();
        let told = state.require_type(types.first(), first.ty, first.span, role);
        wrong_types_are_reported(told, values.rest(), types.rest(), role);
        assert(values@ =~= seq![first] + values.rest()@);
        assert(types@ =~= seq![types.first()] + types.rest()@);
        assert(values@[0] == first && types@[0] == types.first());
        assert(have_types(values@, types@) == (types.first().accepts(first.ty) && have_types(
            values.rest()@,
            types.rest()@,
        ))) by {
            if have_types(values@, types@) {
                assert forall|i: int|
                    0 <= i < values.rest()@.len() && i < types.rest()@.len() implies types.rest()@[i].accepts(
                    (#[trigger] values.rest()@[i]).ty,
                ) by {
                    assert(values@[i + 1] == values.rest()@[i]);
                    assert(types@[i + 1] == types.rest()@[i]);
                }
            }
            if types.first().accepts(first.ty) && have_types(values.rest()@, types.rest()@) {
                assert forall|i: int|
                    0 <= i < values@.len() && i < types@.len() implies types@[i].accepts(
                    (#[trigger] values@[i]).ty,
                ) by {
                    if i > 0 {
                        assert(values@[i] == values.rest()@[i - 1]);
                        assert(types@[i] == types.rest()@[i - 1]);
                    }
                }
            }
        }
    }
}

/// The arguments of a call are accepted exactly where there are as many as
/// parameters, each of the type of its parameter.
pub proof fn arguments_are_accepted_where_they_fit<'a>(
    state: State<'a>,
    name: Text<'a>,
    span: Span,
    signature: Signature,
    arguments: List<Expression<'a>>,
)
    requires
        arguments@.len() < u64::MAX,
        signature.parameter_types@.len() < u64::MAX,
    ensures
        ({
            let after = state.validate_call_arguments(name, span, signature, arguments);
            let accepted = arguments@.len() == signature.parameter_types@.len() && have_types(
                arguments@,
                signature.parameter_types@,
            );
            &&& accepted ==> after == state
            &&& !accepted ==> state.types.problems.len() < after.types.problems.len()
        }),
{
    reveal(State::validate_call_arguments);
    reveal(State::report);
    counts_are_lengths(arguments);
    counts_are_lengths(signature.parameter_types);
    wrong_types_are_reported(state, arguments, signature.parameter_types, "function argument");
    wrong_types_are_reported(
        state.report(
            crate::span::error(
                "E3105",
                crate::analyzer::calls::spec_call_count(
                    name,
                    signature.parameter_types.count(),
                    arguments.count(),
                ),
                span,
            ),
        ),
        arguments,
        signature.parameter_types,
        "function argument",
    );
}

// Matches.

/// Whether an arm without a guard matches whatever comes.
pub open spec fn catches_all(arm: MatchArm) -> bool {
    arm.guard is None && irrefutable(arm.pattern)
}

/// Whether an arm without a guard is for a truth value.
pub open spec fn catches_truth(arm: MatchArm, truth: bool) -> bool {
    arm.guard is None && arm.pattern.kind == PatternKind::Boolean(truth)
}

/// Whether an arm without a guard is for a variant, whatever it carries.
pub open spec fn catches_variant(arm: MatchArm, position: u32) -> bool {
    arm.guard is None && arm.pattern.kind is Enum && arm.pattern.kind->variant == position
        && all_irrefutable(arm.pattern.kind->Enum_fields)
}

/// Whether an arm is for a variant.
pub open spec fn some_arm_catches(arms: Seq<MatchArm>, position: u32) -> bool {
    exists|i: int| 0 <= i < arms.len() && catches_variant(#[trigger] arms[i], position)
}

proof fn catch_all_is_found<'a>(arms: List<MatchArm<'a>>)
    ensures
        spec_any_irrefutable(arms) == exists|i: int|
            0 <= i < arms@.len() && catches_all(#[trigger] arms@[i]),
    decreases arms,
{
    reveal(spec_any_irrefutable);
    if arms is Cons {
        catch_all_is_found(arms.rest());
        assert(arms@ =~= seq![arms.first()] + arms.rest()@);
        assert(arms@[0] == arms.first());
        if spec_any_irrefutable(arms.rest()) {
            let i = choose|i: int|
                0 <= i < arms.rest()@.len() && catches_all(#[trigger] arms.rest()@[i]);
            assert(arms@[i + 1] == arms.rest()@[i]);
        }
        if exists|i: int| 0 <= i < arms@.len() && catches_all(#[trigger] arms@[i]) {
            let i = choose|i: int| 0 <= i < arms@.len() && catches_all(#[trigger] arms@[i]);
            if i > 0 {
                assert(arms.rest()@[i - 1] == arms@[i]);
            }
        }
    }
}

proof fn truth_is_found<'a>(arms: List<MatchArm<'a>>, truth: bool)
    ensures
        spec_covers_boolean(arms, truth) == exists|i: int|
            0 <= i < arms@.len() && catches_truth(#[trigger] arms@[i], truth),
    decreases arms,
{
    reveal(spec_covers_boolean);
    if arms is Cons {
        truth_is_found(arms.rest(), truth);
        assert(arms@ =~= seq![arms.first()] + arms.rest()@);
        assert(arms@[0] == arms.first());
        if spec_covers_boolean(arms.rest(), truth) {
            let i = choose|i: int|
                0 <= i < arms.rest()@.len() && catches_truth(#[trigger] arms.rest()@[i], truth);
            assert(arms@[i + 1] == arms.rest()@[i]);
        }
        if exists|i: int| 0 <= i < arms@.len() && catches_truth(#[trigger] arms@[i], truth) {
            let i = choose|i: int|
                0 <= i < arms@.len() && catches_truth(#[trigger] arms@[i], truth);
            if i > 0 {
                assert(arms.rest()@[i - 1] == arms@[i]);
            }
        }
    }
}

proof fn variant_is_caught<'a>(arms: List<MatchArm<'a>>, position: u32)
    ensures
        spec_covers_variant(arms, position) == some_arm_catches(arms@, position),
    decreases arms,
{
    reveal(spec_covers_variant);
    if arms is Cons {
        variant_is_caught(arms.rest(), position);
        assert(arms@ =~= seq![arms.first()] + arms.rest()@);
        assert(arms@[0] == arms.first());
        if some_arm_catches(arms.rest()@, position) {
            let i = choose|i: int|
                0 <= i < arms.rest()@.len() && catches_variant(
                    #[trigger] arms.rest()@[i],
                    position,
                );
            assert(arms@[i + 1] == arms.rest()@[i]);
        }
        if some_arm_catches(arms@, position) {
            let i = choose|i: int|
                0 <= i < arms@.len() && catches_variant(#[trigger] arms@[i], position);
            if i > 0 {
                assert(arms.rest()@[i - 1] == arms@[i]);
            }
        }
    }
}

proof fn variants_are_caught<'a>(
    arms: List<MatchArm<'a>>,
    variants: List<EnumVariant<'a>>,
    from: u32,
)
    requires
        from + variants@.len() <= u32::MAX,
    ensures
        spec_covers_variants(arms, variants, from) == forall|position: u32|
            from <= position < from + variants@.len() ==> #[trigger] some_arm_catches(
                arms@,
                position,
            ),
    decreases variants,
{
    reveal(spec_covers_variants);
    if variants is Cons {
        assert(variants@ =~= seq![variants.first()] + variants.rest()@);
        variant_is_caught(arms, from);
        variants_are_caught(arms, variants.rest(), from.saturating_add(1));
        if spec_covers_variants(arms, variants, from) {
            assert forall|position: u32|
                from <= position < from + variants@.len() implies #[trigger] some_arm_catches(
                arms@,
                position,
            ) by {}
        } else if forall|position: u32|
            from <= position < from + variants@.len() ==> #[trigger] some_arm_catches(
                arms@,
                position,
            ) {
            assert(some_arm_catches(arms@, from));
        }
    }
}

/// A `match` is accepted exactly where an arm without a guard catches whatever
/// comes, or where each truth value, or each variant with whatever it carries,
/// has an arm without a guard.
pub proof fn matches_are_accepted_where_they_are_covered<'a>(
    state: State<'a>,
    ty: Type,
    arms: List<MatchArm<'a>>,
    span: Span,
)
    requires
        match state.enum_variants(ty) {
            Some(variants) => variants@.len() <= u32::MAX,
            None => true,
        },
    ensures
        ({
            let after = state.validate_match_coverage(ty, arms, span);
            let covered = (exists|i: int| 0 <= i < arms@.len() && catches_all(#[trigger] arms@[i]))
                || match ty {
                Type::Never => true,
                Type::Bool => (exists|i: int|
                    0 <= i < arms@.len() && catches_truth(#[trigger] arms@[i], true)) && (exists|
                    i: int,
                |
                    0 <= i < arms@.len() && catches_truth(#[trigger] arms@[i], false)),
                Type::Enum(_) => match state.enum_variants(ty) {
                    Some(variants) => forall|position: u32|
                        position < variants@.len() ==> #[trigger] some_arm_catches(
                            arms@,
                            position,
                        ),
                    None => false,
                },
                _ => false,
            };
            &&& covered ==> after == state
            &&& !covered ==> after.types.problems.len() == state.types.problems.len() + 1
        }),
{
    reveal(State::validate_match_coverage);
    reveal(State::match_is_exhaustive);
    reveal(State::report);
    catch_all_is_found(arms);
    truth_is_found(arms, true);
    truth_is_found(arms, false);
    if let Some(variants) = state.enum_variants(ty) {
        variants_are_caught(arms, variants, 0);
    }
}

} // verus!

//! When typed expressions fit together.

use crate::analyzer::Signature;
use crate::generics::{bound, with, Entry};
use crate::hir::{
    typed, BinaryOperator, Block, Expression, ExpressionKind, FunctionId, MatchArm, Place,
    PlaceKind, Statement, TypeField, UnaryOperator,
};
use crate::list::{cons, prepended, pushed_comes_first, single, List};
use crate::numbers::{integer_minimum_magnitude, integer_positive_maximum, is_valid_cast};
use crate::span::Span;
use crate::types::Type;
use vstd::prelude::*;

verus! {

/// What the expressions of a function fit into: the type of what the function
/// returns, and the functions that can be called.
pub struct Scene {
    pub output: Type,
    pub callees: Set<Signature>,
}

/// Whether two values can be the operands of one operator.
pub open spec fn agree(left: Type, right: Type) -> bool {
    left == right || left is Never || right is Never
}

/// The type of what an operator makes of operands of a type.
pub open spec fn operator_result(operator: BinaryOperator, ty: Type) -> Type {
    match operator {
        BinaryOperator::Add
        | BinaryOperator::Subtract
        | BinaryOperator::Multiply
        | BinaryOperator::Divide
        | BinaryOperator::Remainder
        | BinaryOperator::BitAnd
        | BinaryOperator::BitXor
        | BinaryOperator::BitOr
        | BinaryOperator::ShiftLeft
        | BinaryOperator::ShiftRight => ty,
        _ => Type::Bool,
    }
}

/// Whether an operator is defined for operands of a type.
pub open spec fn operator_applies(operator: BinaryOperator, ty: Type) -> bool {
    match operator {
        BinaryOperator::Add
        | BinaryOperator::Subtract
        | BinaryOperator::Multiply
        | BinaryOperator::Divide => ty.is_numeric(),
        BinaryOperator::Remainder
        | BinaryOperator::BitAnd
        | BinaryOperator::BitXor
        | BinaryOperator::BitOr
        | BinaryOperator::ShiftLeft
        | BinaryOperator::ShiftRight => ty.is_integer(),
        BinaryOperator::And | BinaryOperator::Or => ty == Type::Bool,
        _ => true,
    }
}

/// Whether the values of the arms of a `match` can stand where a type is asked
/// for.
#[verifier::opaque]
pub open spec fn arms_yield(arms: List<MatchArm>, ty: Type) -> bool
    decreases arms,
{
    match arms {
        List::Nil => true,
        List::Cons(node) => ty.accepts(node.head.body.ty) && arms_yield(node.tail, ty),
    }
}

/// What has values of a type has values of every type that accepts it.
pub proof fn wider_types_are_yielded(arms: List<MatchArm>, ty: Type, wider: Type)
    requires
        arms_yield(arms, ty),
        wider.accepts(ty),
    ensures
        arms_yield(arms, wider),
    decreases arms,
{
    reveal(arms_yield);
    match arms {
        List::Nil => {},
        List::Cons(_) => {
            wider_types_are_yielded(arms.rest(), ty, wider);
        },
    }
}

/// Without arms there is no value.
pub broadcast proof fn no_arms_yield(arms: List<MatchArm>, ty: Type)
    requires
        arms is Nil,
    ensures
        #[trigger] arms_yield(arms, ty),
{
    reveal(arms_yield);
}

/// What it means for arms to have values of a type.
pub broadcast proof fn more_arms_yield<'a>(
    first: MatchArm<'a>,
    rest: List<MatchArm<'a>>,
    ty: Type,
)
    ensures
        #[trigger] arms_yield(cons(first, rest), ty) == (ty.accepts(first.body.ty) && arms_yield(
            rest,
            ty,
        )),
{
    reveal(arms_yield);
}

/// Whether values have the types in turn, as far as there are types.
#[verifier::opaque]
pub open spec fn each_fits(values: List<Expression>, types: List<Type>) -> bool
    decreases values,
{
    match (values, types) {
        (List::Cons(value), List::Cons(ty)) => ty.head.accepts(value.head.ty) && each_fits(
            value.tail,
            ty.tail,
        ),
        _ => true,
    }
}

/// Whether values have the types of declared fields, one for each field.
#[verifier::opaque]
pub open spec fn fields_fit(values: List<Expression>, declared: List<TypeField>) -> bool
    decreases values,
{
    match (values, declared) {
        (List::Cons(value), List::Cons(field)) => field.head.ty.accepts(value.head.ty)
            && fields_fit(value.tail, field.tail),
        (List::Nil, List::Nil) => true,
        _ => false,
    }
}

/// Whether all values have a type.
#[verifier::opaque]
pub open spec fn all_fit(values: List<Expression>, ty: Type) -> bool
    decreases values,
{
    match values {
        List::Nil => true,
        List::Cons(node) => ty.accepts(node.head.ty) && all_fit(node.tail, ty),
    }
}

/// Whether all of some values have a type, whatever values of the type come
/// behind them.
pub open spec fn front_fits(front: Seq<Expression>, ty: Type) -> bool {
    forall|rest: List<Expression>|
        all_fit(rest, ty) ==> #[trigger] all_fit(prepended(front, rest), ty)
}

/// One more value of a type comes behind values of the type.
pub proof fn pushed_front_fits<'a>(front: Seq<Expression<'a>>, last: Expression<'a>, ty: Type)
    requires
        front_fits(front, ty),
        ty.accepts(last.ty),
    ensures
        front_fits(front.push(last), ty),
{
    reveal(all_fit);
    assert forall|rest: List<Expression<'a>>| all_fit(rest, ty) implies #[trigger] all_fit(
        prepended(front.push(last), rest),
        ty,
    ) by {
        pushed_comes_first(front, last, rest);
        assert(all_fit(cons(last, rest), ty));
    }
}

/// Whether arguments are right for parameters of the types: as many, and of
/// these types.
pub open spec fn takes(types: List<Type>, arguments: List<Expression>) -> bool {
    arguments.count() == types.count() && each_fits(arguments, types)
}

/// Whether a function is called with arguments that are right for its
/// parameters, for a value of the type that it returns.
pub open spec fn calls(
    function: FunctionId,
    arguments: List<Expression>,
    ty: Type,
    signature: Signature,
) -> bool {
    &&& function == signature.id
    &&& ty == signature.return_type
    &&& takes(signature.parameter_types, arguments)
}

/// Whether an expression is a variant of an enum with fields of the types.
pub open spec fn carries(expression: Expression, types: List<Type>) -> bool {
    match *expression.kind {
        ExpressionKind::Enum { fields, .. } => each_fits(fields, types),
        _ => false,
    }
}

/// Whether an expression of a kind has a type that fits its parts.
pub open spec fn form_fits(kind: ExpressionKind, ty: Type, scene: Scene) -> bool {
    match kind {
        ExpressionKind::Call { function, arguments } => exists|signature: Signature| #[trigger]
            scene.callees.contains(signature) && calls(function, arguments, ty, signature),
        ExpressionKind::Array(values) => exists|element: Type| #[trigger] all_fit(values, element),
        ExpressionKind::Integer(value) => ty.is_integer() && (value <= integer_positive_maximum(ty)
            || (ty.is_signed_integer() && value == integer_minimum_magnitude(ty))),
        ExpressionKind::Float32(_) => ty == Type::F32,
        ExpressionKind::Float64(_) => ty == Type::F64,
        ExpressionKind::Boolean(_) => ty == Type::Bool,
        ExpressionKind::Character(_) => ty == Type::Char,
        ExpressionKind::String(_) => ty == Type::Str,
        ExpressionKind::CString(_) => ty == Type::CStr,
        ExpressionKind::Unit => ty == Type::Unit,
        ExpressionKind::Index { index, .. } => Type::Usize.accepts(index.ty),
        ExpressionKind::Unary { operator, operand } => {
            &&& ty == operand.ty
            &&& match operator {
                UnaryOperator::Negate => ty.is_signed_integer() || ty.is_float() || ty is Never,
                UnaryOperator::Not => ty == Type::Bool || ty.is_integer() || ty is Never,
            }
        },
        ExpressionKind::Binary { operator, left, right } => {
            &&& agree(left.ty, right.ty)
            &&& operator_applies(operator, left.ty) || left.ty is Never
            &&& ty == operator_result(operator, left.ty)
        },
        ExpressionKind::If { condition, then_branch, else_branch } => {
            &&& Type::Bool.accepts(condition.ty)
            &&& ty.accepts(then_branch.ty)
            &&& match else_branch {
                Some(other) => ty.accepts(other.ty),
                None => ty == Type::Unit,
            }
        },
        ExpressionKind::Match { arms, .. } => arms_yield(arms, ty),
        ExpressionKind::Block(block) => ty == block.ty,
        ExpressionKind::Assign { target, value, .. } => ty == Type::Unit && target.ty.accepts(
            value.ty,
        ),
        ExpressionKind::Cast { value, target } => ty == target && (value.ty is Never
            || is_valid_cast(value.ty, target)),
        ExpressionKind::Panic { message } => ty is Never && Type::Str.accepts(message.ty),
        ExpressionKind::Assert { condition, message, .. } => ty == Type::Unit && Type::Bool.accepts(
            condition.ty,
        ) && Type::Str.accepts(message.ty),
        ExpressionKind::Try { output_type, .. } => ty == output_type,
        ExpressionKind::IntegerAddition { left, right, .. } => left.ty.accepts(right.ty),
        ExpressionKind::StringData(value) => Type::Str.accepts(value.ty),
        ExpressionKind::StringLength(value) => ty == Type::Usize && Type::Str.accepts(value.ty),
        ExpressionKind::StringFromParts { length, .. } => ty == Type::Str && Type::Usize.accepts(
            length.ty,
        ),
        ExpressionKind::SliceLength(_) => ty == Type::Usize,
        ExpressionKind::SliceGet { index, .. } => Type::Usize.accepts(index.ty),
        ExpressionKind::SliceFromParts { length, .. } => Type::Usize.accepts(length.ty),
        ExpressionKind::TypeStride { .. } => ty == Type::Usize,
        ExpressionKind::HashValue { seed, .. } => ty == Type::U64 && Type::U64.accepts(seed.ty),
        ExpressionKind::AllocateBytes { allocator, length, .. } => Type::Usize.accepts(
            allocator.ty,
        ) && Type::Usize.accepts(length.ty),
        ExpressionKind::DeallocateBytes { allocator, length, .. } => ty == Type::Unit
            && Type::Usize.accepts(allocator.ty) && Type::Usize.accepts(length.ty),
        ExpressionKind::ThreadJoin { handle, .. } => Type::Usize.accepts(handle.ty),
        ExpressionKind::SynchronizationCreate { .. } => ty == Type::Usize,
        ExpressionKind::SynchronizationLoad { handle, value_type, .. } => ty == value_type
            && Type::Usize.accepts(handle.ty),
        ExpressionKind::SynchronizationReplace { handle, value, .. } => ty == value.ty
            && Type::Usize.accepts(handle.ty),
        ExpressionKind::ThreadLocalStore { handle, .. } => ty == Type::Unit && Type::Usize.accepts(
            handle.ty,
        ),
        ExpressionKind::ChannelCreate { capacity, .. } => ty == Type::Usize && Type::Usize.accepts(
            capacity.ty,
        ),
        ExpressionKind::ChannelSend { handle, .. } => Type::Usize.accepts(handle.ty),
        ExpressionKind::ChannelReceive { handle, .. } => Type::Usize.accepts(handle.ty),
        ExpressionKind::JobSubmit { pool, .. } => Type::Usize.accepts(pool.ty),
        ExpressionKind::JobWait { handle, .. } => Type::Usize.accepts(handle.ty),
        ExpressionKind::ParallelFor { pool, minimum_chunk, .. } => Type::Usize.accepts(pool.ty)
            && Type::Usize.accepts(minimum_chunk.ty),
        _ => true,
    }
}

/// Whether an expression fits together, with all its parts, in a function.
#[verifier::opaque]
pub open spec fn sound(expression: Expression, scene: Scene) -> bool
    decreases expression,
{
    form_fits(*expression.kind, expression.ty, scene) && parts_sound(*expression.kind, scene)
}

/// Whether the parts of an expression of a kind fit together.
pub open spec fn parts_sound(kind: ExpressionKind, scene: Scene) -> bool
    decreases kind,
{
    match kind {
        ExpressionKind::Tuple(values) => all_sound(values, scene),
        ExpressionKind::Array(values) => all_sound(values, scene),
        ExpressionKind::ArrayRepeat { value, .. } => sound(value, scene),
        ExpressionKind::Struct(values) => all_sound(values, scene),
        ExpressionKind::Enum { fields, .. } => all_sound(fields, scene),
        ExpressionKind::Field { base, .. } => sound(base, scene),
        ExpressionKind::Index { base, index } => sound(base, scene) && sound(index, scene),
        ExpressionKind::Unary { operand, .. } => sound(operand, scene),
        ExpressionKind::Binary { left, right, .. } => sound(left, scene) && sound(right, scene),
        ExpressionKind::Borrow { place, .. } => sound_place(place, scene),
        ExpressionKind::Dereference(pointer) => sound(pointer, scene),
        ExpressionKind::Call { arguments, .. } => all_sound(arguments, scene),
        ExpressionKind::IndirectCall { callee, arguments } => sound(callee, scene)
            && all_sound(arguments, scene),
        ExpressionKind::If { condition, then_branch, else_branch } => sound(condition, scene)
            && sound_block(then_branch, scene) && match else_branch {
            Some(other) => sound(other, scene),
            None => true,
        },
        ExpressionKind::Match { scrutinee, arms } => sound(scrutinee, scene)
            && sound_arms(arms, scene),
        ExpressionKind::Loop(body) => sound_block(body, scene),
        ExpressionKind::Block(block) => sound_block(block, scene),
        ExpressionKind::Assign { target, value, .. } => sound_place(target, scene)
            && sound(value, scene),
        ExpressionKind::Cast { value, .. } => sound(value, scene),
        ExpressionKind::Try { value, return_type, .. } => sound(value, scene)
            && return_type == scene.output,
        ExpressionKind::Panic { message } => sound(message, scene),
        ExpressionKind::Assert { condition, message, .. } => sound(condition, scene)
            && sound(message, scene),
        ExpressionKind::IntegerAddition { left, right, .. } => sound(left, scene)
            && sound(right, scene),
        ExpressionKind::StringBytes(value) => sound(value, scene),
        ExpressionKind::StringChars(value) => sound(value, scene),
        ExpressionKind::StringData(value) => sound(value, scene),
        ExpressionKind::StringLength(value) => sound(value, scene),
        ExpressionKind::StringFromParts { data, length } => sound(data, scene)
            && sound(length, scene),
        ExpressionKind::CharsNext { iterator } => sound_place(iterator, scene),
        ExpressionKind::FormatPush { calls, .. } => all_sound(calls, scene),
        ExpressionKind::SliceLength(value) => sound(value, scene),
        ExpressionKind::SliceGet { slice, index, .. } => sound(slice, scene)
            && sound(index, scene),
        ExpressionKind::SliceFromParts { data, length } => sound(data, scene)
            && sound(length, scene),
        ExpressionKind::HashValue { value, seed } => sound(value, scene) && sound(seed, scene),
        ExpressionKind::AllocateBytes { allocator, length, .. } => sound(allocator, scene)
            && sound(length, scene),
        ExpressionKind::DeallocateBytes { allocator, data, length } => sound(allocator, scene)
            && sound(data, scene) && sound(length, scene),
        ExpressionKind::ThreadSpawn { callback, argument, .. } => sound(callback, scene)
            && sound(argument, scene),
        ExpressionKind::ThreadScope { callback, argument, .. } => sound(callback, scene)
            && sound(argument, scene),
        ExpressionKind::ThreadJoin { handle, .. } => sound(handle, scene),
        ExpressionKind::SynchronizationCreate { value, .. } => sound(value, scene),
        ExpressionKind::SynchronizationLoad { handle, .. } => sound(handle, scene),
        ExpressionKind::SynchronizationReplace { handle, value, .. } => sound(handle, scene)
            && sound(value, scene),
        ExpressionKind::ThreadLocalStore { handle, value } => sound(handle, scene)
            && sound(value, scene),
        ExpressionKind::ChannelCreate { probe, capacity, .. } => sound(probe, scene)
            && sound(capacity, scene),
        ExpressionKind::ChannelSend { handle, value, .. } => sound(handle, scene)
            && sound(value, scene),
        ExpressionKind::ChannelReceive { handle, .. } => sound(handle, scene),
        ExpressionKind::JobSubmit { pool, callback, argument, .. } => sound(pool, scene)
            && sound(callback, scene) && sound(argument, scene),
        ExpressionKind::JobWait { handle, .. } => sound(handle, scene),
        ExpressionKind::ParallelFor { pool, slice, callback, minimum_chunk, .. } => sound(pool, scene)
            && sound(slice, scene) && sound(callback, scene) && sound(minimum_chunk, scene),
        _ => true,
    }
}

/// Whether expressions fit together.
#[verifier::opaque]
pub open spec fn all_sound(expressions: List<Expression>, scene: Scene) -> bool
    decreases expressions,
{
    match expressions {
        List::Nil => true,
        List::Cons(node) => sound(node.head, scene) && all_sound(node.tail, scene),
    }
}

/// Whether a place fits together.
#[verifier::opaque]
pub open spec fn sound_place(place: Place, scene: Scene) -> bool
    decreases place,
{
    match place.kind {
        PlaceKind::Field { base, .. } => sound(base, scene),
        PlaceKind::Index { base, index } => sound(base, scene) && sound(index, scene)
            && Type::Usize.accepts(index.ty),
        PlaceKind::Dereference { pointer } => sound(pointer, scene),
        _ => true,
    }
}

/// Whether a block fits together: its value is that of its last expression,
/// unless it is never left at its end.
#[verifier::opaque]
pub open spec fn sound_block(block: Block, scene: Scene) -> bool
    decreases block,
{
    sound_statements(block.statements, scene) && match block.tail {
        Some(tail) => sound(tail, scene) && (block.ty is Never || block.ty == tail.ty),
        None => block.ty is Never || block.ty == Type::Unit,
    }
}

/// Whether statements fit together.
#[verifier::opaque]
pub open spec fn sound_statements(statements: List<Statement>, scene: Scene) -> bool
    decreases statements,
{
    match statements {
        List::Nil => true,
        List::Cons(node) => sound_statement(node.head, scene)
            && sound_statements(node.tail, scene),
    }
}

/// Whether a statement fits together.
#[verifier::opaque]
pub open spec fn sound_statement(statement: Statement, scene: Scene) -> bool
    decreases statement,
{
    match statement {
        Statement::Let { ty, initializer, .. } => sound(initializer, scene)
            && ty.accepts(initializer.ty),
        Statement::Expression(value) => sound(value, scene),
        Statement::Defer { action, .. } => sound(action, scene) && Type::Unit.accepts(action.ty),
        Statement::Return { value, .. } => match value {
            Some(value) => sound(value, scene) && scene.output.accepts(value.ty),
            None => scene.output == Type::Unit,
        },
        Statement::While { condition, body, .. } => sound(condition, scene)
            && sound_block(body, scene) && Type::Bool.accepts(condition.ty),
        Statement::For { iterable, body, .. } => sound(iterable, scene)
            && sound_block(body, scene),
        Statement::Break { value, .. } => match value {
            Some(value) => sound(value, scene),
            None => true,
        },
        Statement::Continue(_) => true,
    }
}

/// Whether the arms of a `match` fit together.
#[verifier::opaque]
pub open spec fn sound_arms(arms: List<MatchArm>, scene: Scene) -> bool
    decreases arms,
{
    match arms {
        List::Nil => true,
        List::Cons(node) => sound_arm(node.head, scene) && sound_arms(node.tail, scene),
    }
}

/// Whether an arm of a `match` fits together.
#[verifier::opaque]
pub open spec fn sound_arm(arm: MatchArm, scene: Scene) -> bool
    decreases arm,
{
    sound(arm.body, scene) && match arm.guard {
        Some(guard) => sound(guard, scene) && Type::Bool.accepts(guard.ty),
        None => true,
    }
}

/// Whether an expression fits together, if there is one.
pub open spec fn sound_if_any(expression: Option<Expression>, scene: Scene) -> bool {
    match expression {
        Some(expression) => sound(expression, scene),
        None => true,
    }
}

/// Whether a place fits together, if there is one.
pub open spec fn sound_place_if_any(place: Option<Place>, scene: Scene) -> bool {
    match place {
        Some(place) => sound_place(place, scene),
        None => true,
    }
}

/// Whether expressions fit together, if there are any.
pub open spec fn all_sound_if_any(expressions: Option<List<Expression>>, scene: Scene) -> bool {
    match expressions {
        Some(expressions) => all_sound(expressions, scene),
        None => true,
    }
}

/// Whether an expression fits together in every function.
pub open spec fn always_sound(expression: Expression) -> bool {
    forall|scene: Scene| #[trigger] sound(expression, scene)
}

/// Whether an expression fits together in every function, if there is one.
pub open spec fn always_sound_if_any(expression: Option<Expression>) -> bool {
    match expression {
        Some(expression) => always_sound(expression),
        None => true,
    }
}

/// Whether expressions fit together in every function, if there are any.
pub open spec fn all_always_sound_if_any(expressions: Option<List<Expression>>) -> bool {
    match expressions {
        Some(expressions) => all_always_sound(expressions),
        None => true,
    }
}

/// Whether expressions fit together in every function.
pub open spec fn all_always_sound(expressions: List<Expression>) -> bool {
    forall|scene: Scene| #[trigger] all_sound(expressions, scene)
}

/// Whether the values of constants fit together.
#[verifier::opaque]
pub open spec fn sound_entries(entries: List<Entry<Expression>>) -> bool
    decreases entries,
{
    match entries {
        List::Nil => true,
        List::Cons(node) => always_sound(node.head.value) && sound_entries(node.tail),
    }
}

/// What it means for an expression to fit together.
pub broadcast proof fn sound_expression<'a>(
    kind: ExpressionKind<'a>,
    ty: Type,
    span: Span,
    scene: Scene,
)
    ensures
        #[trigger] sound(typed(kind, ty, span), scene) == (form_fits(kind, ty, scene)
            && parts_sound(kind, scene)),
{
    reveal(sound);
    reveal(all_sound);
    reveal(sound_place);
    reveal(sound_block);
    reveal(sound_arms);
}

/// A sound expression has sound parts.
pub proof fn sound_expression_has_sound_parts(expression: Expression)
    ensures
        forall|scene: Scene| #[trigger]
            sound(expression, scene) ==> form_fits(*expression.kind, expression.ty, scene)
                && parts_sound(*expression.kind, scene),
{
    reveal(sound);
    reveal(all_sound);
    reveal(sound_place);
    reveal(sound_block);
    reveal(sound_arms);
}

/// An expression fits together wherever it stands.
pub proof fn sound_anywhere(expression: Expression, span: Span)
    ensures
        forall|scene: Scene| #[trigger]
            sound(
                (Expression { kind: expression.kind, ty: expression.ty, span }),
                scene,
            ) == sound(expression, scene),
{
    reveal(sound);
    reveal(all_sound);
    reveal(sound_place);
    reveal(sound_block);
    reveal(sound_arms);
}

/// Sound expressions are sound one by one.
pub proof fn sound_expressions_split(expressions: List<Expression>)
    requires
        expressions is Cons,
    ensures
        forall|scene: Scene| #[trigger]
            all_sound(expressions, scene) == (sound(expressions.first(), scene) && all_sound(
                expressions.rest(),
                scene,
            )),
{
    reveal(all_sound);
    reveal(sound);
}

/// The value of a sound constant is sound.
pub proof fn sound_entry_is_found(entries: List<Entry<Expression>>, name: Seq<char>)
    requires
        sound_entries(entries),
        bound(entries, name) is Some,
    ensures
        always_sound(bound(entries, name)->0),
    decreases entries,
{
    reveal(sound_entries);
    if entries.first().name@ != name {
        sound_entry_is_found(entries.rest(), name);
    }
}

/// Constants stay sound with one more.
pub proof fn more_entries_are_sound<'a>(
    name: &'a str,
    value: Expression<'a>,
    entries: List<Entry<'a, Expression<'a>>>,
)
    requires
        always_sound(value),
        sound_entries(entries),
    ensures
        sound_entries(with(name, value, entries)),
{
    reveal(sound_entries);
}

/// No expressions fit together.
pub broadcast proof fn no_expressions_are_sound(expressions: List<Expression>, scene: Scene)
    requires
        expressions is Nil,
    ensures
        #[trigger] all_sound(expressions, scene),
{
    reveal(all_sound);
}

/// What it means for expressions to fit together.
pub broadcast proof fn more_expressions_are_sound<'a>(
    first: Expression<'a>,
    rest: List<Expression<'a>>,
    scene: Scene,
)
    ensures
        #[trigger] all_sound(cons(first, rest), scene) == (sound(first, scene)
            && all_sound(rest, scene)),
{
    reveal(all_sound);
    reveal(sound);
}

/// What it means for a place to fit together.
pub broadcast proof fn place_is_sound<'a>(kind: PlaceKind<'a>, ty: Type, span: Span, scene: Scene)
    ensures
        #[trigger] sound_place(Place { kind, ty, span }, scene) == (match kind {
            PlaceKind::Field { base, .. } => sound(base, scene),
            PlaceKind::Index { base, index } => sound(base, scene) && sound(index, scene)
                && Type::Usize.accepts(index.ty),
            PlaceKind::Dereference { pointer } => sound(pointer, scene),
            _ => true,
        }),
{
    reveal(sound_place);
    reveal(sound);
}

/// What it means for a block to fit together.
pub broadcast proof fn block_is_sound<'a>(
    statements: List<Statement<'a>>,
    tail: Option<Expression<'a>>,
    ty: Type,
    span: Span,
    scene: Scene,
)
    ensures
        #[trigger] sound_block(Block { statements, tail, ty, span }, scene) == (sound_statements(
            statements, scene) && sound_if_any(tail, scene) && (ty is Never || match tail {
            Some(tail) => ty == tail.ty,
            None => ty == Type::Unit,
        })),
{
    reveal(sound_block);
    reveal(sound_statements);
    reveal(sound);
}

/// No statements fit together.
pub broadcast proof fn no_statements_are_sound(statements: List<Statement>, scene: Scene)
    requires
        statements is Nil,
    ensures
        #[trigger] sound_statements(statements, scene),
{
    reveal(sound_statements);
}

/// What it means for statements to fit together.
pub broadcast proof fn more_statements_are_sound<'a>(
    first: Statement<'a>,
    rest: List<Statement<'a>>,
    scene: Scene,
)
    ensures
        #[trigger] sound_statements(cons(first, rest), scene) == (sound_statement(first, scene)
            && sound_statements(rest, scene)),
{
    reveal(sound_statements);
    reveal(sound_statement);
}

/// What it means for a statement to fit together.
pub open spec fn statement_fits(statement: Statement, scene: Scene) -> bool {
    match statement {
        Statement::Let { ty, initializer, .. } => sound(initializer, scene)
            && ty.accepts(initializer.ty),
        Statement::Expression(value) => sound(value, scene),
        Statement::Defer { action, .. } => sound(action, scene) && Type::Unit.accepts(action.ty),
        Statement::Return { value, .. } => match value {
            Some(value) => sound(value, scene) && scene.output.accepts(value.ty),
            None => scene.output == Type::Unit,
        },
        Statement::While { condition, body, .. } => sound(condition, scene)
            && sound_block(body, scene) && Type::Bool.accepts(condition.ty),
        Statement::For { iterable, body, .. } => sound(iterable, scene)
            && sound_block(body, scene),
        Statement::Break { value, .. } => sound_if_any(value, scene),
        Statement::Continue(_) => true,
    }
}

/// What it means for a statement to fit together.
pub broadcast proof fn statement_is_sound(statement: Statement, scene: Scene)
    ensures
        #[trigger] sound_statement(statement, scene) == statement_fits(statement, scene),
{
    reveal(sound_statement);
    reveal(sound_block);
    reveal(sound);
}

/// No arms fit together.
pub broadcast proof fn no_arms_are_sound(arms: List<MatchArm>, scene: Scene)
    requires
        arms is Nil,
    ensures
        #[trigger] sound_arms(arms, scene),
{
    reveal(sound_arms);
}

/// What it means for the arms of a `match` to fit together.
pub broadcast proof fn more_arms_are_sound<'a>(
    first: MatchArm<'a>,
    rest: List<MatchArm<'a>>,
    scene: Scene,
)
    ensures
        #[trigger] sound_arms(cons(first, rest), scene) == (sound_arm(first, scene)
            && sound_arms(rest, scene)),
{
    reveal(sound_arms);
    reveal(sound_arm);
}

/// What it means for an arm of a `match` to fit together.
pub broadcast proof fn arm_is_sound(arm: MatchArm, scene: Scene)
    ensures
        #[trigger] sound_arm(arm, scene) == (sound(arm.body, scene) && match arm.guard {
            Some(guard) => sound(guard, scene) && Type::Bool.accepts(guard.ty),
            None => true,
        }),
{
    reveal(sound_arm);
    reveal(sound);
}

proof fn pushed_expressions_split<'a>(
    front: Seq<Expression<'a>>,
    rest: List<Expression<'a>>,
    scene: Scene,
)
    ensures
        all_sound(prepended(front, rest), scene) == (all_sound(
            prepended(front, List::Nil),
            scene,
        ) && all_sound(rest, scene)),
    decreases front.len(),
{
    reveal(all_sound);
    if front.len() > 0 {
        let shorter = front.drop_last();
        pushed_expressions_split(shorter, cons(front.last(), rest), scene);
        pushed_expressions_split(shorter, single(front.last()), scene);
        more_expressions_are_sound(front.last(), rest, scene);
        more_expressions_are_sound(front.last(), List::Nil, scene);
    }
}

/// What it means for expressions with one more to fit together.
pub broadcast proof fn pushed_expressions<'a>(
    front: Seq<Expression<'a>>,
    last: Expression<'a>,
    scene: Scene,
)
    ensures
        #[trigger] all_sound(prepended(front.push(last), List::Nil), scene) == (all_sound(
            prepended(front, List::Nil),
            scene,
        ) && sound(last, scene)),
{
    reveal(all_sound);
    pushed_comes_first(front, last, List::Nil);
    pushed_expressions_split(front, single(last), scene);
    more_expressions_are_sound(last, List::Nil, scene);
}

proof fn pushed_statements_split<'a>(
    front: Seq<Statement<'a>>,
    rest: List<Statement<'a>>,
    scene: Scene,
)
    ensures
        sound_statements(prepended(front, rest), scene) == (sound_statements(
            prepended(front, List::Nil),
            scene,
        ) && sound_statements(rest, scene)),
    decreases front.len(),
{
    reveal(sound_statements);
    if front.len() > 0 {
        let shorter = front.drop_last();
        pushed_statements_split(shorter, cons(front.last(), rest), scene);
        pushed_statements_split(shorter, single(front.last()), scene);
        more_statements_are_sound(front.last(), rest, scene);
        more_statements_are_sound(front.last(), List::Nil, scene);
    }
}

/// What it means for statements with one more to fit together.
pub broadcast proof fn pushed_statements<'a>(
    front: Seq<Statement<'a>>,
    last: Statement<'a>,
    scene: Scene,
)
    ensures
        #[trigger] sound_statements(prepended(front.push(last), List::Nil), scene) == (sound_statements(
            prepended(front, List::Nil),
            scene,
        ) && sound_statement(last, scene)),
{
    reveal(sound_statements);
    pushed_comes_first(front, last, List::Nil);
    pushed_statements_split(front, single(last), scene);
    more_statements_are_sound(last, List::Nil, scene);
}

proof fn pushed_arms_split<'a>(
    front: Seq<MatchArm<'a>>,
    rest: List<MatchArm<'a>>,
    scene: Scene,
)
    ensures
        sound_arms(prepended(front, rest), scene) == (sound_arms(
            prepended(front, List::Nil),
            scene,
        ) && sound_arms(rest, scene)),
    decreases front.len(),
{
    reveal(sound_arms);
    if front.len() > 0 {
        let shorter = front.drop_last();
        pushed_arms_split(shorter, cons(front.last(), rest), scene);
        pushed_arms_split(shorter, single(front.last()), scene);
        more_arms_are_sound(front.last(), rest, scene);
        more_arms_are_sound(front.last(), List::Nil, scene);
    }
}

/// What it means for arms with one more to fit together.
pub broadcast proof fn pushed_arms<'a>(
    front: Seq<MatchArm<'a>>,
    last: MatchArm<'a>,
    scene: Scene,
)
    ensures
        #[trigger] sound_arms(prepended(front.push(last), List::Nil), scene) == (sound_arms(
            prepended(front, List::Nil),
            scene,
        ) && sound_arm(last, scene)),
{
    reveal(sound_arms);
    pushed_comes_first(front, last, List::Nil);
    pushed_arms_split(front, single(last), scene);
    more_arms_are_sound(last, List::Nil, scene);
}

proof fn pushed_arms_yield_split<'a>(
    front: Seq<MatchArm<'a>>,
    rest: List<MatchArm<'a>>,
    ty: Type,
)
    ensures
        arms_yield(prepended(front, rest), ty) == (arms_yield(
            prepended(front, List::Nil),
            ty,
        ) && arms_yield(rest, ty)),
    decreases front.len(),
{
    reveal(arms_yield);
    if front.len() > 0 {
        let shorter = front.drop_last();
        pushed_arms_yield_split(shorter, cons(front.last(), rest), ty);
        pushed_arms_yield_split(shorter, single(front.last()), ty);
        more_arms_yield(front.last(), rest, ty);
        more_arms_yield(front.last(), List::Nil, ty);
    }
}

/// What it means for arms with one more to have values of a type.
pub broadcast proof fn pushed_arms_yield<'a>(
    front: Seq<MatchArm<'a>>,
    last: MatchArm<'a>,
    ty: Type,
)
    ensures
        #[trigger] arms_yield(prepended(front.push(last), List::Nil), ty) == (arms_yield(
            prepended(front, List::Nil),
            ty,
        ) && ty.accepts(last.body.ty)),
{
    reveal(arms_yield);
    pushed_comes_first(front, last, List::Nil);
    pushed_arms_yield_split(front, single(last), ty);
    more_arms_yield(last, List::Nil, ty);
}

pub broadcast group group_sound {
    no_arms_yield,
    more_arms_yield,
    sound_expression,
    no_expressions_are_sound,
    more_expressions_are_sound,
    place_is_sound,
    block_is_sound,
    no_statements_are_sound,
    more_statements_are_sound,
    statement_is_sound,
    no_arms_are_sound,
    more_arms_are_sound,
    arm_is_sound,
    pushed_expressions,
    pushed_statements,
    pushed_arms,
    pushed_arms_yield,
}

} // verus!

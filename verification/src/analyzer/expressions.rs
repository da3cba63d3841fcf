//! Expressions.

use crate::analyzer::knowledge::spec_find_known;
use crate::analyzer::sparing::{watched, Watch};
use crate::mention::{
    any_mentions, arm_mentions, arms_mention, block_mentions, call_mentions, field_mentions,
    fragment_mentions, fragments_mention, index_mentions, initializers_mention, mentions,
    optional_mentions, pattern_mentions,
};
use crate::analyzer::{Analyzer, FieldMove, Frame, Known, LoopKind, PlaceAvailability, State};
use crate::analyzer::checks::{
    element_at, has_field, is_array_type, is_struct_type, is_tuple_type, spec_element_at,
    spec_has_field, spec_is_array_type, spec_is_struct_type, spec_is_tuple_type, spec_types_of,
    types_of,
};
use crate::analyzer::frame::{copy_field, spec_copy_field};
use crate::analyzer::patterns::{part_count, spec_part_count};
use crate::ast::{
    self, lone_name, path_pair, single_path_name, two_names, FieldExpression, FieldInitializer,
    FieldName, FormattedStringFragment, Identifier, IndexExpression, Path,
};
use crate::generics::{bound, find, Environment};
use crate::hir::{
    self, invalid_composite_expression, typed, BinaryOperator, EnumVariantFields, Expression,
    ExpressionKind, LocalId, MatchArm, TypeField, UnaryOperator,
};
use crate::list::{cons, counts_are_lengths, prepend, prepended, single, List};
use crate::numbers::{integer_minimum_magnitude, is_ordered_type};
use crate::rendering::{
    all_render, arm_renders, arms_render, base_renders, block_renders, computes_the_same,
    declared_fields_are_given, fields_render, form_renders, gives, optional_renders,
    pattern_renders, renders, renders_by_form, selects,
};
use crate::span::{advised, error, helped, Span};
use crate::text::{frame, framed, is_listed, listed, number, same, words, words3};
use crate::types::Type;
use crate::typing::{
    all_fit, all_sound, arms_yield, fields_fit, front_fits, operator_applies, operator_result,
    pushed_front_fits, sound, sound_arm, sound_arms, sound_block, sound_expressions_split,
    sound_if_any, sound_place, wider_types_are_yielded, Scene,
};
use std::rc::Rc;
use vstd::prelude::*;

verus! {

broadcast use {
    crate::analyzer::growth::group_led,
    crate::analyzer::numbering::group_numbered,
    crate::analyzer::sparing::group_spared,
    crate::list::pushed_comes_first,
    crate::registry::growth::group_grown,
    crate::rendering::group_rendered,
    crate::span::group_kept,
    crate::typing::group_sound,
};

/// What has been moved at some point.
pub struct Moves<'a> {
    pub locals: List<Known<Span>>,
    pub fields: List<FieldMove<'a>>,
}

/// A block as an expression.
#[verifier::opaque]
pub open spec fn spec_block_expression<'a>(block: hir::Block<'a>, span: Span) -> Expression<'a> {
    let ty = block.ty;
    typed(ExpressionKind::Block(block), ty, span)
}

/// A block as an expression.
pub(crate) fn block_expression<'a>(
    block: hir::Block<'a>,
    span: Span,
) -> (expression: Expression<'a>)
    ensures
        expression == spec_block_expression(block, span),
        forall|scene: Scene| sound_block(block, scene) ==> #[trigger] sound(expression, scene),
        forall|source: ast::Block<'a>|
            block_renders(source, block) ==> #[trigger] form_renders(
                ast::ExpressionKind::Block(source),
                expression,
            ) && form_renders(ast::ExpressionKind::Unsafe(source), expression),
{
    reveal(spec_block_expression);
    let ty = block.ty;
    typed(ExpressionKind::Block(block), ty, span)
}

/// The expected type at a position.
#[verifier::opaque]
pub open spec fn spec_expected_at(types: Option<List<Type>>, position: u64) -> Option<Type> {
    match types {
        Some(types) => spec_element_at(types, position),
        None => None,
    }
}

/// The expected type at a position.
pub(crate) fn expected_at(types: &Option<List<Type>>, position: u64) -> (ty: Option<Type>)
    ensures
        ty == spec_expected_at(*types, position),
{
    reveal(spec_expected_at);
    match types {
        Some(types) => element_at(types, position),
        None => None,
    }
}

/// Expressions and others behind them.
#[verifier::opaque]
pub open spec fn spec_joined_expressions<'a>(
    first: List<Expression<'a>>,
    rest: List<Expression<'a>>,
) -> List<Expression<'a>>
    decreases first,
{
    match first {
        List::Nil => rest,
        List::Cons(node) => cons(node.head, spec_joined_expressions(node.tail, rest)),
    }
}

proof fn joined_fit<'a>(first: List<Expression<'a>>, rest: List<Expression<'a>>, ty: Type)
    requires
        all_fit(first, ty),
        all_fit(rest, ty),
    ensures
        all_fit(spec_joined_expressions(first, rest), ty),
    decreases first,
{
    reveal(all_fit);
    reveal(spec_joined_expressions);
    match first {
        List::Nil => {},
        List::Cons(_) => {
            joined_fit(first.rest(), rest, ty);
        },
    }
}

/// Expressions come behind those that are done.
fn extend_expressions<'a>(done: &mut Vec<Expression<'a>>, list: &List<Expression<'a>>)
    ensures
        forall|rest: List<Expression<'a>>| #[trigger]
            prepended(final(done)@, rest) == prepended(
                old(done)@,
                spec_joined_expressions(*list, rest),
            ),
        forall|scene: Scene|
            all_sound(prepended(old(done)@, List::Nil), scene) && all_sound(*list, scene)
                ==> #[trigger] all_sound(prepended(final(done)@, List::Nil), scene),
{
    let mut ahead: &List<Expression<'a>> = list;
    loop
        invariant
            forall|rest: List<Expression<'a>>| #[trigger]
                prepended(done@, spec_joined_expressions(*ahead, rest)) == prepended(
                    old(done)@,
                    spec_joined_expressions(*list, rest),
                ),
            forall|scene: Scene|
                all_sound(prepended(old(done)@, List::Nil), scene) && all_sound(*list, scene)
                    ==> #[trigger] all_sound(prepended(done@, List::Nil), scene) && all_sound(
                    *ahead,
                    scene,
                ),
        decreases *ahead,
    {
        reveal(spec_joined_expressions);
        match ahead {
            List::Nil => {
                assert forall|rest: List<Expression<'a>>| #[trigger]
                    prepended(done@, rest) == prepended(
                        old(done)@,
                        spec_joined_expressions(*list, rest),
                    ) by {
                    assert(spec_joined_expressions(*ahead, rest) == rest);
                }
                return ;
            },
            List::Cons(node) => {
                let ghost before = done@;
                proof {
                    sound_expressions_split(*ahead);
                }
                done.push(node.head.share());
                proof {
                    assert forall|rest: List<Expression<'a>>| #[trigger]
                        prepended(done@, spec_joined_expressions(node.tail, rest)) == prepended(
                            old(done)@,
                            spec_joined_expressions(*list, rest),
                        ) by {
                        assert(spec_joined_expressions(*ahead, rest) == cons(
                            node.head,
                            spec_joined_expressions(node.tail, rest),
                        ));
                        assert(prepended(before, spec_joined_expressions(*ahead, rest))
                            == prepended(old(done)@, spec_joined_expressions(*list, rest)));
                    }
                    assert forall|scene: Scene|
                        all_sound(prepended(old(done)@, List::Nil), scene) && all_sound(
                            *list,
                            scene,
                        ) implies #[trigger] all_sound(prepended(done@, List::Nil), scene)
                        && all_sound(node.tail, scene) by {
                        assert(all_sound(prepended(before, List::Nil), scene));
                        assert(all_sound(*ahead, scene));
                    }
                }
                ahead = &node.tail;
            },
        }
    }
}

/// The initializer of a field: the last one of that name counts.
#[verifier::opaque]
pub open spec fn spec_find_initializer<'a>(
    initializers: List<FieldInitializer<'a>>,
    name: &str,
) -> Option<ast::Expression<'a>>
    decreases initializers,
{
    match initializers {
        List::Nil => None,
        List::Cons(node) => match spec_find_initializer(node.tail, name) {
            Some(value) => Some(value),
            None => if node.head.name.name@ == name@ {
                Some(node.head.value)
            } else {
                None
            },
        },
    }
}

/// The initializer of a field: the last one of that name counts.
pub(crate) fn find_initializer<'a>(
    initializers: &List<FieldInitializer<'a>>,
    name: &str,
) -> (value: Option<ast::Expression<'a>>)
    ensures
        value == spec_find_initializer(*initializers, name),
        forall|watch: Watch| #[trigger]
            watched(watch) && !initializers_mention(*initializers, watch.name) ==> match value {
                Some(found) => !mentions(found, watch.name),
                None => true,
            },
        forall|value_of: Expression<'a>|
            value is Some && renders(value->0, value_of) ==> #[trigger] gives(
                *initializers,
                name@,
                value_of,
            ),
{
    let mut ahead: &List<FieldInitializer<'a>> = initializers;
    let mut found: Option<ast::Expression<'a>> = None;
    loop
        invariant
            spec_find_initializer(*initializers, name) == match spec_find_initializer(
                *ahead,
                name,
            ) {
                Some(value) => Some(value),
                None => found,
            },
            forall|watch: Watch| #[trigger]
                watched(watch) && !initializers_mention(*initializers, watch.name)
                    ==> !initializers_mention(*ahead, watch.name) && match found {
                    Some(value) => !mentions(value, watch.name),
                    None => true,
                },
            forall|value_of: Expression<'a>| #[trigger]
                gives(*ahead, name@, value_of) ==> gives(*initializers, name@, value_of),
            forall|value_of: Expression<'a>|
                found is Some && renders(found->0, value_of) ==> #[trigger] gives(
                    *initializers,
                    name@,
                    value_of,
                ),
        decreases *ahead,
    {
        reveal(spec_find_initializer);
        reveal(gives);
        match ahead {
            List::Nil => {
                return found;
            },
            List::Cons(node) => {
                assert forall|value_of: Expression<'a>| #[trigger]
                    gives(node.tail, name@, value_of) implies gives(
                    *ahead,
                    name@,
                    value_of,
                ) by {}
                assert forall|value_of: Expression<'a>|
                    node.head.name.name@ == name@ && #[trigger] renders(
                        node.head.value,
                        value_of,
                    ) implies gives(*ahead, name@, value_of) by {}
                if same(node.head.name.name, name) {
                    found = Some(node.head.value.share());
                }
                ahead = &node.tail;
            },
        }
    }
}

/// The arguments of a method that stands for access by index.
#[verifier::opaque]
pub open spec fn spec_index_arguments<'a>(
    index: IndexExpression<'a>,
    value: Option<ast::Expression<'a>>,
) -> List<ast::Expression<'a>> {
    let indices = ast::Expression {
        kind: Rc::new(ast::ExpressionKind::ArrayList(index.indices)),
        span: index.span,
    };
    match value {
        Some(value) => cons(indices, single(value)),
        None => single(indices),
    }
}

/// The arguments of a method that stands for access by index.
pub(crate) fn index_arguments<'a>(
    index: &IndexExpression<'a>,
    value: &Option<ast::Expression<'a>>,
) -> (arguments: List<ast::Expression<'a>>)
    ensures
        arguments == spec_index_arguments(*index, *value),
{
    reveal(spec_index_arguments);
    let indices = ast::Expression {
        kind: Rc::new(ast::ExpressionKind::ArrayList(index.indices.share())),
        span: index.span,
    };
    match value {
        Some(value) => cons(indices, single(value.share())),
        None => single(indices),
    }
}

/// The method that stands for access by index.
#[verifier::opaque]
pub open spec fn spec_index_method<'a>(
    index: IndexExpression<'a>,
    method: &'a str,
) -> FieldExpression<'a> {
    FieldExpression {
        base: index.base,
        field: FieldName::Named(Identifier { name: method, span: index.span }),
        span: index.span,
    }
}

/// The method that stands for access by index.
pub(crate) fn index_method<'a>(
    index: &IndexExpression<'a>,
    method: &'a str,
) -> (field: FieldExpression<'a>)
    ensures
        field == spec_index_method(*index, method),
{
    reveal(spec_index_method);
    FieldExpression {
        base: index.base.share(),
        field: FieldName::Named(Identifier { name: method, span: index.span }),
        span: index.span,
    }
}

/// The call that stands for access by index.
#[verifier::opaque]
pub open spec fn spec_index_call<'a>(
    index: IndexExpression<'a>,
    method: &'a str,
    value: Option<ast::Expression<'a>>,
) -> ast::CallExpression<'a> {
    ast::CallExpression {
        callee: ast::Expression {
            kind: Rc::new(ast::ExpressionKind::Field(spec_index_method(index, method))),
            span: index.span,
        },
        generic_arguments: List::Nil,
        arguments: spec_index_arguments(index, value),
        span: index.span,
    }
}

proof fn index_calls_mention<'a>(
    index: IndexExpression<'a>,
    method: &'a str,
    value: Option<ast::Expression<'a>>,
    name: Seq<char>,
)
    requires
        !index_mentions(index, name),
        !optional_mentions(value, name),
    ensures
        !field_mentions(spec_index_method(index, method), name),
        !call_mentions(spec_index_call(index, method, value), name),
{
    reveal(spec_index_method);
    reveal(spec_index_arguments);
    reveal(spec_index_call);
    let field = spec_index_method(index, method);
    let call = spec_index_call(index, method, value);
    assert(field_mentions(field, name) == mentions(index.base, name));
    assert(mentions(call.callee, name) == field_mentions(field, name));
    let indices = call.arguments.first();
    assert(mentions(indices, name) == any_mentions(index.indices, name));
    let rest = call.arguments.rest();
    assert(any_mentions(call.arguments, name) == (mentions(indices, name) || any_mentions(
        rest,
        name,
    )));
    match value {
        Some(last) => {
            assert(any_mentions(rest, name) == (mentions(last, name) || any_mentions(
                rest.rest(),
                name,
            )));
        },
        None => {},
    }
}

/// The call that stands for access by index.
pub(crate) fn index_call<'a>(
    index: &IndexExpression<'a>,
    method: &'a str,
    value: &Option<ast::Expression<'a>>,
) -> (call: ast::CallExpression<'a>)
    ensures
        call == spec_index_call(*index, method, *value),
{
    reveal(spec_index_call);
    ast::CallExpression {
        callee: ast::Expression {
            kind: Rc::new(ast::ExpressionKind::Field(index_method(index, method))),
            span: index.span,
        },
        generic_arguments: List::Nil,
        arguments: index_arguments(index, value),
        span: index.span,
    }
}

/// Whether an operator combines truth values.
#[verifier::opaque]
pub open spec fn spec_is_logical(operator: ast::BinaryOperator) -> bool {
    operator == ast::BinaryOperator::And || operator == ast::BinaryOperator::Or
}

/// Whether an operator combines truth values.
pub(crate) fn is_logical(operator: ast::BinaryOperator) -> (answer: bool)
    ensures
        answer == spec_is_logical(operator),
{
    reveal(spec_is_logical);
    operator == ast::BinaryOperator::And || operator == ast::BinaryOperator::Or
}

/// The typed operator.
#[verifier::opaque]
pub open spec fn spec_typed_operator(operator: ast::BinaryOperator) -> BinaryOperator {
    match operator {
        ast::BinaryOperator::Add => BinaryOperator::Add,
        ast::BinaryOperator::Subtract => BinaryOperator::Subtract,
        ast::BinaryOperator::Multiply => BinaryOperator::Multiply,
        ast::BinaryOperator::Divide => BinaryOperator::Divide,
        ast::BinaryOperator::Remainder => BinaryOperator::Remainder,
        ast::BinaryOperator::BitAnd => BinaryOperator::BitAnd,
        ast::BinaryOperator::BitXor => BinaryOperator::BitXor,
        ast::BinaryOperator::BitOr => BinaryOperator::BitOr,
        ast::BinaryOperator::ShiftLeft => BinaryOperator::ShiftLeft,
        ast::BinaryOperator::ShiftRight => BinaryOperator::ShiftRight,
        ast::BinaryOperator::Equal => BinaryOperator::Equal,
        ast::BinaryOperator::NotEqual => BinaryOperator::NotEqual,
        ast::BinaryOperator::Less => BinaryOperator::Less,
        ast::BinaryOperator::LessEqual => BinaryOperator::LessEqual,
        ast::BinaryOperator::Greater => BinaryOperator::Greater,
        ast::BinaryOperator::GreaterEqual => BinaryOperator::GreaterEqual,
        ast::BinaryOperator::And => BinaryOperator::And,
        ast::BinaryOperator::Or => BinaryOperator::Or,
    }
}

/// The typed operator.
pub(crate) fn typed_operator(operator: ast::BinaryOperator) -> (typed_operator: BinaryOperator)
    ensures
        typed_operator == spec_typed_operator(operator),
        computes_the_same(operator, typed_operator),
{
    reveal(spec_typed_operator);
    reveal(computes_the_same);
    match operator {
        ast::BinaryOperator::Add => BinaryOperator::Add,
        ast::BinaryOperator::Subtract => BinaryOperator::Subtract,
        ast::BinaryOperator::Multiply => BinaryOperator::Multiply,
        ast::BinaryOperator::Divide => BinaryOperator::Divide,
        ast::BinaryOperator::Remainder => BinaryOperator::Remainder,
        ast::BinaryOperator::BitAnd => BinaryOperator::BitAnd,
        ast::BinaryOperator::BitXor => BinaryOperator::BitXor,
        ast::BinaryOperator::BitOr => BinaryOperator::BitOr,
        ast::BinaryOperator::ShiftLeft => BinaryOperator::ShiftLeft,
        ast::BinaryOperator::ShiftRight => BinaryOperator::ShiftRight,
        ast::BinaryOperator::Equal => BinaryOperator::Equal,
        ast::BinaryOperator::NotEqual => BinaryOperator::NotEqual,
        ast::BinaryOperator::Less => BinaryOperator::Less,
        ast::BinaryOperator::LessEqual => BinaryOperator::LessEqual,
        ast::BinaryOperator::Greater => BinaryOperator::Greater,
        ast::BinaryOperator::GreaterEqual => BinaryOperator::GreaterEqual,
        ast::BinaryOperator::And => BinaryOperator::And,
        ast::BinaryOperator::Or => BinaryOperator::Or,
    }
}

/// What is known from two branches: the first counts.
#[verifier::opaque]
pub open spec fn spec_joined_known(
    first: List<Known<Span>>,
    second: List<Known<Span>>,
) -> List<Known<Span>>
    decreases first,
{
    match first {
        List::Nil => second,
        List::Cons(node) => cons(
            Known { local: node.head.local, value: node.head.value },
            spec_joined_known(node.tail, second),
        ),
    }
}

proof fn joined_is_found(
    first: List<Known<Span>>,
    second: List<Known<Span>>,
    local: LocalId,
)
    ensures
        spec_find_known(spec_joined_known(first, second), local) == match spec_find_known(
            first,
            local,
        ) {
            Some(value) => Some(value),
            None => spec_find_known(second, local),
        },
    decreases first,
{
    reveal(spec_joined_known);
    reveal(spec_find_known);
    match first {
        List::Nil => {},
        List::Cons(_) => {
            joined_is_found(first.rest(), second, local);
        },
    }
}

/// What is known from two branches: the first counts.
pub(crate) fn joined_known(
    first: &List<Known<Span>>,
    second: List<Known<Span>>,
) -> (all: List<Known<Span>>)
    ensures
        all == spec_joined_known(*first, second),
{
    let mut ahead: &List<Known<Span>> = first;
    let mut done: Vec<Known<Span>> = Vec::new();
    loop
        invariant
            spec_joined_known(*first, second) == prepended(
                done@,
                spec_joined_known(*ahead, second),
            ),
        decreases *ahead,
    {
        reveal(spec_joined_known);
        match ahead {
            List::Nil => {
                return prepend(done, second);
            },
            List::Cons(node) => {
                done.push(Known { local: node.head.local, value: node.head.value });
                ahead = &node.tail;
            },
        }
    }
}

/// The moves of two branches.
#[verifier::opaque]
pub open spec fn spec_joined_field_moves<'a>(
    first: List<FieldMove<'a>>,
    second: List<FieldMove<'a>>,
) -> List<FieldMove<'a>>
    decreases first,
{
    match first {
        List::Nil => second,
        List::Cons(node) => cons(
            FieldMove { field: spec_copy_field(node.head.field), at: node.head.at },
            spec_joined_field_moves(node.tail, second),
        ),
    }
}

/// The moves of two branches.
pub(crate) fn joined_field_moves<'a>(
    first: &List<FieldMove<'a>>,
    second: List<FieldMove<'a>>,
) -> (all: List<FieldMove<'a>>)
    ensures
        all == spec_joined_field_moves(*first, second),
{
    let mut ahead: &List<FieldMove<'a>> = first;
    let mut done: Vec<FieldMove<'a>> = Vec::new();
    loop
        invariant
            spec_joined_field_moves(*first, second) == prepended(
                done@,
                spec_joined_field_moves(*ahead, second),
            ),
        decreases *ahead,
    {
        reveal(spec_joined_field_moves);
        match ahead {
            List::Nil => {
                return prepend(done, second);
            },
            List::Cons(node) => {
                done.push(FieldMove { field: copy_field(&node.head.field), at: node.head.at });
                ahead = &node.tail;
            },
        }
    }
}

/// Whether a type is that of earlier values and of one more value.
pub open spec fn is_joined(joined: Option<Type>, earlier: Option<Type>, ty: Type) -> bool {
    &&& joined is Some
    &&& joined->0.accepts(ty)
    &&& earlier is None || joined->0.accepts(earlier->0)
}

proof fn operators_are_typed<'a>(state: State<'a>, operator: BinaryOperator, ty: Type)
    ensures
        state.binary_result(operator, ty).0 ==> operator_applies(operator, ty),
        state.binary_result(operator, ty).1 == operator_result(operator, ty),
{
    reveal(State::binary_result);
}

impl<'a> State<'a> {
    /// An expression whose value should have a type.
    pub open spec fn analyze_expression_expected(
        self,
        expression: ast::Expression<'a>,
        expected: Option<Type>,
        fuel: nat,
    ) -> (Self, Expression<'a>)
        decreases fuel, 0nat, List::<Type>::Nil,
    {
        if fuel == 0 {
            let s = self.report(
                error("E3999", words("this expression is nested too deeply"), expression.span),
            );
            (s, invalid_composite_expression(expression.span))
        } else {
            self.analyze_rooted(expression, expected, (fuel - 1) as nat)
        }
    }

    /// An expression, with what its value refers to.
    pub open spec fn analyze_rooted(
        self,
        expression: ast::Expression<'a>,
        expected: Option<Type>,
        fuel: nat,
    ) -> (Self, Expression<'a>)
        decreases fuel, 18nat, List::<Type>::Nil,
    {
        let (s, analyzed) = self.analyze_form(expression, expected, fuel);
        let s = s.record_root(expression, analyzed.ty);
        (s, analyzed)
    }

    /// An expression whose value is only looked at.
    pub open spec fn analyze_expression_non_consuming(
        self,
        expression: ast::Expression<'a>,
        fuel: nat,
    ) -> (Self, Expression<'a>)
        decreases fuel, 1nat, List::<Type>::Nil,
    {
        let consuming = self.frame.consuming_value;
        let s = self.set_consuming(false);
        let (s, analyzed) = s.analyze_expression_expected(expression, None, fuel);
        let s = s.set_consuming(consuming);
        (s, analyzed)
    }

    /// An expression, by its form.
    pub open spec fn analyze_form(
        self,
        expression: ast::Expression<'a>,
        expected: Option<Type>,
        fuel: nat,
    ) -> (Self, Expression<'a>)
        decreases fuel, 17nat, List::<Type>::Nil,
    {
        match *expression.kind {
            ast::ExpressionKind::Integer(value) => self.analyze_integer_literal(
                value,
                expression.span,
                expected,
            ),
            ast::ExpressionKind::Float(literal) => self.analyze_float_literal(
                literal,
                expression.span,
                expected,
            ),
            ast::ExpressionKind::Character(value) => (
                self,
                typed(ExpressionKind::Character(value), Type::Char, expression.span),
            ),
            ast::ExpressionKind::String(value) => {
                let s = self.require_expected(
                    expected,
                    Type::Str,
                    expression.span,
                    "string literal",
                );
                (s, typed(ExpressionKind::String(words(value)), Type::Str, expression.span))
            },
            ast::ExpressionKind::CString(value) => {
                let s = self.require_expected(
                    expected,
                    Type::CStr,
                    expression.span,
                    "C string literal",
                );
                (s, typed(ExpressionKind::CString(words(value)), Type::CStr, expression.span))
            },
            ast::ExpressionKind::Boolean(value) => (
                self,
                typed(ExpressionKind::Boolean(value), Type::Bool, expression.span),
            ),
            ast::ExpressionKind::Unit => (
                self,
                typed(ExpressionKind::Unit, Type::Unit, expression.span),
            ),
            ast::ExpressionKind::Path(path) => self.analyze_path(path, expected),
            ast::ExpressionKind::Assignment { operator, target, value } => self.analyze_assignment(
                operator,
                target,
                value,
                expression.span,
                fuel,
            ),
            ast::ExpressionKind::Cast { value, target } => self.analyze_cast(
                value,
                target,
                expression.span,
                fuel,
            ),
            ast::ExpressionKind::Field(field) => self.analyze_field(field, fuel),
            ast::ExpressionKind::Index(index) => self.analyze_index(index, fuel),
            ast::ExpressionKind::Try(value) => self.analyze_try(value, expression.span, fuel),
            ast::ExpressionKind::Call(call) => self.analyze_call(call, expected, fuel),
            ast::ExpressionKind::Unary { operator, operand } => self.analyze_unary(
                operator,
                operand,
                expression.span,
                expected,
                fuel,
            ),
            ast::ExpressionKind::Binary { operator, left, right } => self.analyze_binary(
                operator,
                left,
                right,
                expression.span,
                expected,
                fuel,
            ),
            _ => self.analyze_composite_form(expression, expected, fuel),
        }
    }

    /// An aggregate or a control-flow expression, by its form.
    pub open spec fn analyze_composite_form(
        self,
        expression: ast::Expression<'a>,
        expected: Option<Type>,
        fuel: nat,
    ) -> (Self, Expression<'a>)
        decreases fuel, 6nat, List::<Type>::Nil,
    {
        match *expression.kind {
            ast::ExpressionKind::FormattedString(fragments) => self.reject_standalone_formatted_string(
                fragments,
                expression.span,
                fuel,
            ),
            ast::ExpressionKind::If { condition, then_branch, else_branch } => self.analyze_if(
                condition,
                then_branch,
                else_branch,
                expression.span,
                expected,
                fuel,
            ),
            ast::ExpressionKind::Match { scrutinee, arms } => self.analyze_match(
                scrutinee,
                arms,
                expression.span,
                expected,
                fuel,
            ),
            ast::ExpressionKind::Loop(body) => self.analyze_loop(
                body,
                expression.span,
                expected,
                fuel,
            ),
            ast::ExpressionKind::Unsafe(block) => {
                let s = self.enter_unsafe();
                let (s, block) = s.analyze_block(block, expected, fuel);
                let s = s.leave_unsafe();
                (s, spec_block_expression(block, expression.span))
            },
            ast::ExpressionKind::Block(block) => {
                let (s, block) = self.analyze_block(block, expected, fuel);
                (s, spec_block_expression(block, expression.span))
            },
            ast::ExpressionKind::Tuple(elements) => self.analyze_tuple(
                elements,
                expression.span,
                expected,
                fuel,
            ),
            ast::ExpressionKind::ArrayList(elements) => self.analyze_array_list(
                elements,
                expression.span,
                expected,
                fuel,
            ),
            ast::ExpressionKind::ArrayRepeat { value, length } => self.analyze_array_repeat(
                value,
                length,
                expression.span,
                expected,
                fuel,
            ),
            ast::ExpressionKind::Struct { path, fields } => self.analyze_struct(
                path,
                fields,
                expression.span,
                expected,
                fuel,
            ),
            _ => {
                let s = self.report(
                    helped(
                        "E6021",
                        words("a value pack can only expand directly inside a tuple or array"),
                        "place the expansion in `( ...Pack => expression, )` or `[...Pack => expression]`",
                        expression.span,
                    ),
                );
                (s, invalid_composite_expression(expression.span))
            },
        }
    }

    /// A formatted string needs a destination.
    pub open spec fn reject_standalone_formatted_string(
        self,
        fragments: List<FormattedStringFragment<'a>>,
        span: Span,
        fuel: nat,
    ) -> (Self, Expression<'a>)
        decreases fuel, 2nat, List::<Type>::Nil,
    {
        let s = self.analyze_fragments(fragments, fuel);
        let s = s.report(
            helped(
                "E3160",
                words("formatted string requires a formatting destination"),
                "append it with `string.push_format(f\"...\")`",
                span,
            ),
        );
        (s, invalid_composite_expression(span))
    }

    /// The values in a formatted string.
    pub open spec fn analyze_fragments(
        self,
        fragments: List<FormattedStringFragment<'a>>,
        fuel: nat,
    ) -> Self
        decreases fuel, 1nat, fragments,
    {
        match fragments {
            List::Nil => self,
            List::Cons(node) => {
                let s = match node.head {
                    FormattedStringFragment::Text(_, _) => self,
                    FormattedStringFragment::Display(expression) => {
                        let (s, _ignored) = self.analyze_expression_expected(
                            expression,
                            None,
                            fuel,
                        );
                        s
                    },
                    FormattedStringFragment::Debug(expression) => {
                        let (s, _ignored) = self.analyze_expression_expected(
                            expression,
                            None,
                            fuel,
                        );
                        s
                    },
                };
                let s = s.analyze_fragments(node.tail, fuel);
                s
            },
        }
    }

    /// Expressions in turn, for their problems alone.
    pub open spec fn analyze_discarded(
        self,
        expressions: List<ast::Expression<'a>>,
        fuel: nat,
    ) -> Self
        decreases fuel, 1nat, expressions,
    {
        match expressions {
            List::Nil => self,
            List::Cons(node) => {
                let (s, _ignored) = self.analyze_expression_expected(node.head, None, fuel);
                let s = s.analyze_discarded(node.tail, fuel);
                s
            },
        }
    }

    /// The types of a pack.
    #[verifier::opaque]
    pub open spec fn pack_types(self, name: &str) -> Option<List<Type>> {
        match bound(self.frame.environment.type_packs, name@) {
            Some(types) => Some(types),
            None => None,
        }
    }

    /// A parameter of the function stands for a type from now on.
    #[verifier::opaque]
    pub open spec fn bind_pack_type(self, name: &'a str, ty: Type) -> Self {
        let s = State {
            frame: Frame { environment: self.frame.environment.with_type(name, ty), ..self.frame },
            ..self
        };
        s
    }

    /// The same bindings of generic parameters.
    #[verifier::opaque]
    pub open spec fn current_environment(self) -> Environment<'a> {
        self.frame.environment
    }

    /// The elements of an expected tuple.
    #[verifier::opaque]
    pub open spec fn expected_elements(self, expected: Option<Type>) -> Option<List<Type>> {
        match expected {
            Some(expected) => self.types.tuple_shape(expected),
            None => None,
        }
    }

    /// A tuple.
    pub open spec fn analyze_tuple(
        self,
        elements: List<ast::Expression<'a>>,
        span: Span,
        expected: Option<Type>,
        fuel: nat,
    ) -> (Self, Expression<'a>)
        decreases fuel, 5nat, List::<Type>::Nil,
    {
        let expected_types = self.expected_elements(expected);
        let (s, values) = self.analyze_tuple_elements(elements, expected_types, 0, fuel);
        let (s, ty) = s.tuple_type(values, expected_types, expected, span);
        (s, typed(ExpressionKind::Tuple(values), ty, span))
    }

    /// The type of a tuple of values.
    #[verifier::opaque]
    pub open spec fn tuple_type(
        self,
        values: List<Expression<'a>>,
        expected_types: Option<List<Type>>,
        expected: Option<Type>,
        span: Span,
    ) -> (Self, Type) {
        let s = match expected_types {
            Some(types) => if types.count() != values.count() {
                let s = self.report(
                    error(
                        "E3115",
                        spec_part_count(
                            "tuple requires ",
                            types.count(),
                            " element(s), found ",
                            values.count(),
                        ),
                        span,
                    ),
                );
                s
            } else {
                self
            },
            None => self,
        };
        match expected {
            Some(expected) => if spec_is_tuple_type(expected) {
                (s, expected)
            } else {
                s.fresh_tuple_type(values, span)
            },
            None => s.fresh_tuple_type(values, span),
        }
    }

    /// The type that values make a tuple of.
    #[verifier::opaque]
    pub open spec fn fresh_tuple_type(
        self,
        values: List<Expression<'a>>,
        span: Span,
    ) -> (Self, Type) {
        match self.intern_tuple(spec_types_of(values), span) {
            (s, Some(ty)) => (s, ty),
            (s, None) => (s, Type::Unit),
        }
    }

    /// The elements of a tuple from a position on, with packs expanded.
    pub open spec fn analyze_tuple_elements(
        self,
        elements: List<ast::Expression<'a>>,
        expected: Option<List<Type>>,
        position: u64,
        fuel: nat,
    ) -> (Self, List<Expression<'a>>)
        decreases fuel, 4nat, elements,
    {
        match elements {
            List::Nil => (self, List::Nil),
            List::Cons(node) => {
                let (s, first) = self.analyze_tuple_element(node.head, expected, position, fuel);
                let (s, rest) = s.analyze_tuple_elements(
                    node.tail,
                    expected,
                    position.saturating_add(first.count()),
                    fuel,
                );
                (s, spec_joined_expressions(first, rest))
            },
        }
    }

    /// The values that an element of a tuple gives.
    pub open spec fn analyze_tuple_element(
        self,
        element: ast::Expression<'a>,
        expected: Option<List<Type>>,
        position: u64,
        fuel: nat,
    ) -> (Self, List<Expression<'a>>)
        decreases fuel, 3nat, List::<Type>::Nil,
    {
        match *element.kind {
            ast::ExpressionKind::PackExpansion { pack, template } => match self.pack_types(
                pack.name,
            ) {
                None => {
                    let s = self.report(
                        helped(
                            "E6021",
                            words3("unknown type pack `", pack.name, "`"),
                            "declare the pack with `<...Types>`",
                            pack.span,
                        ),
                    );
                    (s, List::Nil)
                },
                Some(types) => self.analyze_tuple_pack(
                    template,
                    pack.name,
                    types,
                    expected,
                    position,
                    fuel,
                ),
            },
            _ => {
                let (s, value) = self.analyze_expression_expected(
                    element,
                    spec_expected_at(expected, position),
                    fuel,
                );
                (s, single(value))
            },
        }
    }

    /// The values that a template gives for the types of a pack.
    pub open spec fn analyze_tuple_pack(
        self,
        template: ast::Expression<'a>,
        name: &'a str,
        types: List<Type>,
        expected: Option<List<Type>>,
        position: u64,
        fuel: nat,
    ) -> (Self, List<Expression<'a>>)
        decreases fuel, 2nat, types,
    {
        match types {
            List::Nil => (self, List::Nil),
            List::Cons(node) => {
                let (s, value) = self.analyze_template(
                    template,
                    name,
                    node.head,
                    spec_expected_at(expected, position),
                    fuel,
                );
                let (s, rest) = s.analyze_tuple_pack(
                    template,
                    name,
                    node.tail,
                    expected,
                    position.saturating_add(1),
                    fuel,
                );
                (s, cons(value, rest))
            },
        }
    }

    /// A template with one type of a pack.
    pub open spec fn analyze_template(
        self,
        template: ast::Expression<'a>,
        name: &'a str,
        ty: Type,
        expected: Option<Type>,
        fuel: nat,
    ) -> (Self, Expression<'a>)
        decreases fuel, 1nat, List::<Type>::Nil,
    {
        let environment = self.current_environment();
        let s = self.bind_pack_type(name, ty);
        let (s, value) = s.analyze_expression_expected(template, expected, fuel);
        let s = s.set_environment(environment);
        (s, value)
    }

    /// The element and the length of an expected array.
    #[verifier::opaque]
    pub open spec fn expected_array(self, expected: Option<Type>) -> Option<(Type, u64)> {
        match expected {
            Some(expected) => self.types.array_shape(expected),
            None => None,
        }
    }

    /// The type of an array.
    #[verifier::opaque]
    pub open spec fn array_type(
        self,
        expected: Option<Type>,
        element: Type,
        length: u64,
        span: Span,
    ) -> (Self, Type) {
        match expected {
            Some(expected) => if spec_is_array_type(expected) {
                (self, expected)
            } else {
                self.fresh_array_type(element, length, span)
            },
            None => self.fresh_array_type(element, length, span),
        }
    }

    /// The type of arrays of an element.
    #[verifier::opaque]
    pub open spec fn fresh_array_type(self, element: Type, length: u64, span: Span) -> (Self, Type) {
        match self.intern_array(element, length, span) {
            (s, Some(ty)) => (s, ty),
            (s, None) => (s, Type::Unit),
        }
    }

    /// An array of elements.
    pub open spec fn analyze_array_list(
        self,
        elements: List<ast::Expression<'a>>,
        span: Span,
        expected: Option<Type>,
        fuel: nat,
    ) -> (Self, Expression<'a>)
        decreases fuel, 5nat, List::<Type>::Nil,
    {
        let shape = self.expected_array(expected);
        let element = match shape {
            Some((element, _)) => Some(element),
            None => None,
        };
        let (s, (values, element)) = self.analyze_array_elements(elements, element, fuel);
        let (s, ty) = s.array_list_type(shape, element, values.count(), expected, span);
        (s, typed(ExpressionKind::Array(values), ty, span))
    }

    /// The type of an array of that many elements.
    #[verifier::opaque]
    pub open spec fn array_list_type(
        self,
        shape: Option<(Type, u64)>,
        element: Option<Type>,
        found: u64,
        expected: Option<Type>,
        span: Span,
    ) -> (Self, Type) {
        let s = match shape {
            Some((_, length)) => if length != found {
                let s = self.report(
                    error(
                        "E3116",
                        spec_part_count("array requires ", length, " element(s), found ", found),
                        span,
                    ),
                );
                s
            } else {
                self
            },
            None => self,
        };
        match element {
            None => {
                let s = s.report(
                    helped(
                        "E3117",
                        words("cannot infer the element type of an empty array"),
                        "add an explicit array type annotation",
                        span,
                    ),
                );
                (s, Type::Unit)
            },
            Some(element) => s.array_type(expected, element, found, span),
        }
    }

    /// The elements of an array, with packs expanded, and their type.
    pub open spec fn analyze_array_elements(
        self,
        elements: List<ast::Expression<'a>>,
        element_type: Option<Type>,
        fuel: nat,
    ) -> (Self, (List<Expression<'a>>, Option<Type>))
        decreases fuel, 4nat, elements,
    {
        match elements {
            List::Nil => (self, (List::Nil, element_type)),
            List::Cons(node) => {
                let (s, (first, element_type)) = self.analyze_array_element(
                    node.head,
                    element_type,
                    fuel,
                );
                let (s, (rest, element_type)) = s.analyze_array_elements(
                    node.tail,
                    element_type,
                    fuel,
                );
                (s, (spec_joined_expressions(first, rest), element_type))
            },
        }
    }

    /// The values that an element of an array gives, and their type.
    pub open spec fn analyze_array_element(
        self,
        element: ast::Expression<'a>,
        element_type: Option<Type>,
        fuel: nat,
    ) -> (Self, (List<Expression<'a>>, Option<Type>))
        decreases fuel, 3nat, List::<Type>::Nil,
    {
        match *element.kind {
            ast::ExpressionKind::PackExpansion { pack, template } => match self.pack_types(
                pack.name,
            ) {
                None => {
                    let s = self.report(
                        error("E6021", words3("unknown type pack `", pack.name, "`"), pack.span),
                    );
                    (s, (List::Nil, element_type))
                },
                Some(types) => self.analyze_array_pack(
                    template,
                    pack.name,
                    types,
                    element_type,
                    fuel,
                ),
            },
            _ => {
                let (s, value) = self.analyze_expression_expected(element, element_type, fuel);
                let (s, element_type) = s.join_element_type(element_type, value.ty, value.span);
                (s, (single(value), element_type))
            },
        }
    }

    /// The type of array elements, with one more element.
    #[verifier::opaque]
    pub open spec fn join_element_type(
        self,
        element_type: Option<Type>,
        actual: Type,
        span: Span,
    ) -> (Self, Option<Type>) {
        match element_type {
            Some(expected) => {
                let s = self.require_type(expected, actual, span, "array element");
                (s, element_type)
            },
            None => (self, Some(actual)),
        }
    }

    /// The values that a template gives for the types of a pack, and their type.
    pub open spec fn analyze_array_pack(
        self,
        template: ast::Expression<'a>,
        name: &'a str,
        types: List<Type>,
        element_type: Option<Type>,
        fuel: nat,
    ) -> (Self, (List<Expression<'a>>, Option<Type>))
        decreases fuel, 2nat, types,
    {
        match types {
            List::Nil => (self, (List::Nil, element_type)),
            List::Cons(node) => {
                let (s, value) = self.analyze_template(
                    template,
                    name,
                    node.head,
                    element_type,
                    fuel,
                );
                let (s, element_type) = s.join_element_type(element_type, value.ty, value.span);
                let (s, (rest, element_type)) = s.analyze_array_pack(
                    template,
                    name,
                    node.tail,
                    element_type,
                    fuel,
                );
                (s, (cons(value, rest), element_type))
            },
        }
    }

    /// An array of one repeated value.
    pub open spec fn analyze_array_repeat(
        self,
        value: ast::Expression<'a>,
        length: ast::Expression<'a>,
        span: Span,
        expected: Option<Type>,
        fuel: nat,
    ) -> (Self, Expression<'a>)
        decreases fuel, 1nat, List::<Type>::Nil,
    {
        let (s, length) = self.repeated_length(length);
        let shape = s.expected_array(expected);
        let s = s.require_repeated_length(shape, length, span);
        let element = match shape {
            Some((element, _)) => Some(element),
            None => None,
        };
        let (s, value) = s.analyze_expression_expected(value, element, fuel);
        let (s, ty) = s.repeated_type(element, value.ty, value.span, length, expected, span);
        (s, typed(ExpressionKind::ArrayRepeat { value, length }, ty, span))
    }

    /// How often a value is repeated.
    #[verifier::opaque]
    pub open spec fn repeated_length(self, length: ast::Expression<'a>) -> (Self, u64) {
        match self.array_length(length) {
            (s, Some(length)) => (s, length),
            (s, None) => (s, 0),
        }
    }

    /// A value must be repeated as often as is expected.
    #[verifier::opaque]
    pub open spec fn require_repeated_length(
        self,
        shape: Option<(Type, u64)>,
        length: u64,
        span: Span,
    ) -> Self {
        match shape {
            Some((_, expected)) => if expected != length {
                let s = self.report(
                    error(
                        "E3116",
                        spec_part_count(
                            "array requires ",
                            expected,
                            " element(s), found repeated length ",
                            length,
                        ),
                        span,
                    ),
                );
                s
            } else {
                self
            },
            None => self,
        }
    }

    /// The type of an array of one repeated value.
    #[verifier::opaque]
    pub open spec fn repeated_type(
        self,
        element: Option<Type>,
        actual: Type,
        value_span: Span,
        length: u64,
        expected: Option<Type>,
        span: Span,
    ) -> (Self, Type) {
        let s = self.require_expected(element, actual, value_span, "repeated array element");
        let s = if !s.types.meets(actual, "Copy"@) {
            let s = s.report(
                helped(
                    "E3164",
                    framed(
                        "repeated array element type `",
                        actual.text(),
                        "` does not satisfy `Copy`",
                    ),
                    "use an explicit element list or make the element type satisfy `Copy`",
                    value_span,
                ),
            );
            s
        } else {
            s
        };
        s.array_type(expected, actual, length, span)
    }

    /// The struct that a name stands for where a type is expected.
    #[verifier::opaque]
    pub open spec fn structure_type(self, name: &str, expected: Option<Type>) -> Option<Type> {
        let named = match self.named_type(name) {
            Some(ty) => if spec_is_struct_type(ty) {
                Some(ty)
            } else {
                None
            },
            None => None,
        };
        match named {
            Some(ty) => Some(ty),
            None => match expected {
                Some(expected) => if spec_is_struct_type(expected)
                    && self.is_instance_of(expected, name) {
                    Some(expected)
                } else {
                    None
                },
                None => None,
            },
        }
    }

    /// A struct, or a variant with named payload.
    pub open spec fn analyze_struct(
        self,
        path: Path<'a>,
        fields: List<FieldInitializer<'a>>,
        span: Span,
        expected: Option<Type>,
        fuel: nat,
    ) -> (Self, Expression<'a>)
        decreases fuel, 5nat, List::<Type>::Nil,
    {
        match lone_name(path) {
            Some(name) => match self.structure_type(name, expected) {
                None => {
                    let s = self.report(
                        error(
                            "E3118",
                            framed("`", path.display(), "` is not a struct type"),
                            path.span,
                        ),
                    );
                    (s, invalid_composite_expression(span))
                },
                Some(ty) => {
                    let declared = self.struct_fields(ty);
                    let s = self.reject_external_private_construction(ty, declared, path.span);
                    let (s, values) = s.analyze_named_fields(fields, declared, fuel);
                    (s, typed(ExpressionKind::Struct(values), ty, span))
                },
            },
            None => match two_names(path) {
                Some((owner, variant)) => self.analyze_variant_struct(
                    path,
                    owner,
                    variant,
                    fields,
                    span,
                    fuel,
                ),
                None => {
                    let s = self.report(
                        error(
                            "E3118",
                            words(
                                "aggregate construction requires a local type or enum variant path",
                            ),
                            path.span,
                        ),
                    );
                    (s, invalid_composite_expression(span))
                },
            },
        }
    }

    /// The position and the fields of a variant with named payload.
    #[verifier::opaque]
    pub open spec fn struct_variant(
        self,
        ty: Type,
        name: &str,
    ) -> Option<(u32, List<TypeField<'a>>)> {
        match self.enum_variant(ty, name) {
            Some((variant, EnumVariantFields::Struct(fields))) => Some((variant, fields)),
            _ => None,
        }
    }

    /// A variant with named payload.
    pub open spec fn analyze_variant_struct(
        self,
        path: Path<'a>,
        owner: Identifier<'a>,
        name: Identifier<'a>,
        fields: List<FieldInitializer<'a>>,
        span: Span,
        fuel: nat,
    ) -> (Self, Expression<'a>)
        decreases fuel, 4nat, List::<Type>::Nil,
    {
        match self.named_enum(owner.name) {
            None => {
                let s = self.report(
                    error("E3118", words3("`", owner.name, "` is not an enum type"), owner.span),
                );
                (s, invalid_composite_expression(span))
            },
            Some(ty) => match self.struct_variant(ty, name.name) {
                None => {
                    let s = self.report(
                        error(
                            "E3119",
                            framed("`", path.display(), "` is not a struct-like enum variant"),
                            path.span,
                        ),
                    );
                    (s, invalid_composite_expression(span))
                },
                Some((variant, declared)) => {
                    let s = self.reject_external_private_construction(ty, declared, path.span);
                    let (s, values) = s.analyze_named_fields(fields, declared, fuel);
                    (s, typed(ExpressionKind::Enum { variant, fields: values }, ty, span))
                },
            },
        }
    }

    /// Fields must be initialized once each.
    #[verifier::opaque]
    pub open spec fn check_repeated_initializers(
        self,
        initializers: List<FieldInitializer<'a>>,
        seen: List<&'a str>,
    ) -> Self
        decreases initializers,
    {
        match initializers {
            List::Nil => self,
            List::Cons(node) => {
                let s = if listed(seen, node.head.name.name@) {
                    let s = self.report(
                        error(
                            "E3120",
                            words3(
                                "field `",
                                node.head.name.name,
                                "` is initialized more than once",
                            ),
                            node.head.name.span,
                        ),
                    );
                    s
                } else {
                    self
                };
                let s = s.check_repeated_initializers(node.tail, cons(node.head.name.name, seen));
                s
            },
        }
    }

    /// Only declared fields can be initialized.
    #[verifier::opaque]
    pub open spec fn check_unknown_initializers(
        self,
        initializers: List<FieldInitializer<'a>>,
        declared: List<TypeField<'a>>,
    ) -> Self
        decreases initializers,
    {
        match initializers {
            List::Nil => self,
            List::Cons(node) => {
                let s = if !spec_has_field(declared, node.head.name.name) {
                    let s = self.report(
                        error(
                            "E3121",
                            words3("unknown field `", node.head.name.name, "`"),
                            node.head.name.span,
                        ),
                    );
                    s
                } else {
                    self
                };
                let s = s.check_unknown_initializers(node.tail, declared);
                s
            },
        }
    }

    /// The values of declared fields, in their order.
    pub open spec fn analyze_named_fields(
        self,
        initializers: List<FieldInitializer<'a>>,
        declared: List<TypeField<'a>>,
        fuel: nat,
    ) -> (Self, List<Expression<'a>>)
        decreases fuel, 3nat, List::<Type>::Nil,
    {
        let s = self.check_repeated_initializers(initializers, List::Nil);
        let s = s.check_unknown_initializers(initializers, declared);
        s.analyze_field_values(initializers, declared, fuel)
    }

    /// The values of declared fields.
    pub open spec fn analyze_field_values(
        self,
        initializers: List<FieldInitializer<'a>>,
        declared: List<TypeField<'a>>,
        fuel: nat,
    ) -> (Self, List<Expression<'a>>)
        decreases fuel, 2nat, declared,
    {
        match declared {
            List::Nil => (self, List::Nil),
            List::Cons(node) => {
                let (s, first) = self.analyze_field_value(initializers, node.head, fuel);
                let (s, rest) = s.analyze_field_values(initializers, node.tail, fuel);
                (s, cons(first, rest))
            },
        }
    }

    /// The value of a declared field.
    pub open spec fn analyze_field_value(
        self,
        initializers: List<FieldInitializer<'a>>,
        field: TypeField<'a>,
        fuel: nat,
    ) -> (Self, Expression<'a>)
        decreases fuel, 1nat, List::<Type>::Nil,
    {
        match spec_find_initializer(initializers, field.name) {
            None => {
                let s = self.report(
                    error(
                        "E3122",
                        words3("missing initializer for field `", field.name, "`"),
                        field.span,
                    ),
                );
                (s, typed(ExpressionKind::Unit, field.ty, field.span))
            },
            Some(initializer) => {
                let (s, value) = self.analyze_expression_expected(
                    initializer,
                    Some(field.ty),
                    fuel,
                );
                let s = s.require_type(field.ty, value.ty, value.span, "field initializer");
                (s, value)
            },
        }
    }

    /// A value, or what it refers to where it is a reference.
    #[verifier::opaque]
    pub open spec fn dereferenced(self, base: Expression<'a>, span: Span) -> Expression<'a> {
        match self.types.pointer_shape(base.ty) {
            Some((target, _, false)) => typed(ExpressionKind::Dereference(base), target, span),
            _ => base,
        }
    }

    /// Access to a field.
    pub open spec fn analyze_field(
        self,
        field: FieldExpression<'a>,
        fuel: nat,
    ) -> (Self, Expression<'a>)
        decreases fuel, 2nat, List::<Type>::Nil,
    {
        let s = self.enter_field_base();
        let (s, base) = s.analyze_expression_non_consuming(field.base, fuel);
        let s = s.leave_field_base();
        let base = s.dereferenced(base, field.base.span);
        s.select_field(base, field)
    }

    /// A field of a value.
    #[verifier::opaque]
    pub open spec fn select_field(
        self,
        base: Expression<'a>,
        field: FieldExpression<'a>,
    ) -> (Self, Expression<'a>) {
        match self.selected_field(base.ty, field.field) {
            None => {
                let s = self.report(
                    error("E3123", words("field does not exist on this value"), field.span),
                );
                (s, invalid_composite_expression(field.span))
            },
            Some((position, ty, is_public)) => {
                let s = if !is_public && self.type_is_external(base.ty) {
                    let s = self.report(
                        helped(
                            "E4005",
                            words("field is private to its defining module"),
                            "access it through a public method or function",
                            field.span,
                        ),
                    );
                    s
                } else {
                    self
                };
                let s = s.use_field(field, ty);
                (s, typed(ExpressionKind::Field { base, field: position }, ty, field.span))
            },
        }
    }

    /// A field is read or consumed, unless it is the base of another field.
    #[verifier::opaque]
    pub open spec fn use_field(self, field: FieldExpression<'a>, ty: Type) -> Self {
        if self.frame.field_base_depth == 0 {
            match self.moved_field_from_field(field) {
                None => self,
                Some(place) => if self.frame.consuming_value {
                    let s = self.consume_field(place, ty, field.span);
                    s
                } else {
                    let s = self.require_field_available(
                        place,
                        field.span,
                        self.frame.place_availability == PlaceAvailability::AllowReinitialization,
                    );
                    s
                },
            }
        } else {
            self
        }
    }

    /// Whether access by index goes through a method.
    #[verifier::opaque]
    pub open spec fn supports_index_method(self, base: ast::Expression<'a>, method: &'a str) -> bool {
        match self.place_expression_type(base) {
            Some(ty) => self.has_method(ty, method),
            None => false,
        }
    }

    /// Access by index.
    pub open spec fn analyze_index(
        self,
        index: IndexExpression<'a>,
        fuel: nat,
    ) -> (Self, Expression<'a>)
        decreases fuel, 16nat, List::<Type>::Nil,
    {
        if self.supports_index_method(index.base, "index") {
            self.analyze_index_method_call(index, "index", None, fuel)
        } else {
            let (s, base) = self.analyze_expression_non_consuming(index.base, fuel);
            match s.indexed_element(base.ty) {
                None => {
                    let s = s.report(
                        error(
                            "E3124",
                            words("indexing requires an array, array reference, or slice"),
                            index.base.span,
                        ),
                    );
                    (s, invalid_composite_expression(index.span))
                },
                Some(element) => s.analyze_element(base, element, index, fuel),
            }
        }
    }

    /// An element of an array or a slice.
    pub open spec fn analyze_element(
        self,
        base: Expression<'a>,
        element: Type,
        index: IndexExpression<'a>,
        fuel: nat,
    ) -> (Self, Expression<'a>)
        decreases fuel, 1nat, List::<Type>::Nil,
    {
        let s = self.require_one_index(index);
        match index.indices {
            List::Nil => (s, invalid_composite_expression(index.span)),
            List::Cons(node) => {
                let (s, position) = s.analyze_expression_expected(
                    node.head,
                    Some(Type::Usize),
                    fuel,
                );
                let s = s.require_type(Type::Usize, position.ty, position.span, "array index");
                let s = s.consume_element(index, element);
                (s, typed(ExpressionKind::Index { base, index: position }, element, index.span))
            },
        }
    }

    /// An array takes one index.
    #[verifier::opaque]
    pub open spec fn require_one_index(self, index: IndexExpression<'a>) -> Self {
        if index.indices.count() != 1 {
            let s = self.report(
                error("E3125", words("array indexing requires exactly one index"), index.span),
            );
            s
        } else {
            self
        }
    }

    /// An element is consumed.
    #[verifier::opaque]
    pub open spec fn consume_element(self, index: IndexExpression<'a>, element: Type) -> Self {
        if self.frame.consuming_value {
            let s = self.consume_expression_root(index.base, element, index.span);
            s
        } else {
            self
        }
    }

    /// Access by index through a method.
    pub open spec fn analyze_index_method_call(
        self,
        index: IndexExpression<'a>,
        method: &'a str,
        value: Option<ast::Expression<'a>>,
        fuel: nat,
    ) -> (Self, Expression<'a>)
        decreases fuel, 15nat, List::<Type>::Nil,
    {
        let call = spec_index_call(index, method, value);
        let field = spec_index_method(index, method);
        self.analyze_method_call(call, field, None, fuel)
    }

    /// An expression with a unary operator.
    pub open spec fn analyze_unary(
        self,
        operator: ast::UnaryOperator,
        operand: ast::Expression<'a>,
        span: Span,
        expected: Option<Type>,
        fuel: nat,
    ) -> (Self, Expression<'a>)
        decreases fuel, 5nat, List::<Type>::Nil,
    {
        match operator {
            ast::UnaryOperator::Borrow => self.analyze_borrow(false, operand, span, expected, fuel),
            ast::UnaryOperator::BorrowMut => self.analyze_borrow(
                true,
                operand,
                span,
                expected,
                fuel,
            ),
            ast::UnaryOperator::Dereference => self.analyze_dereference(operand, span, fuel),
            ast::UnaryOperator::Negate => match self.analyze_negated_literal(
                operand,
                span,
                expected,
            ) {
                (s, Some(literal)) => (s, literal),
                (s, None) => {
                    let (s, value) = s.analyze_expression_expected(operand, expected, fuel);
                    s.apply_unary(UnaryOperator::Negate, value, span)
                },
            },
            ast::UnaryOperator::Not => {
                let (s, value) = self.analyze_expression_expected(operand, expected, fuel);
                s.apply_unary(UnaryOperator::Not, value, span)
            },
        }
    }

    /// The negation of an integer literal at the edge of its type: the smallest
    /// value is written without a sign.
    #[verifier::opaque]
    pub open spec fn analyze_negated_literal(
        self,
        operand: ast::Expression<'a>,
        span: Span,
        expected: Option<Type>,
    ) -> (Self, Option<Expression<'a>>) {
        match *operand.kind {
            ast::ExpressionKind::Integer(value) => {
                let ty = match expected {
                    Some(expected) => if expected.is_signed_integer() {
                        expected
                    } else {
                        Type::I32
                    },
                    None => Type::I32,
                };
                let magnitude: u128 = integer_minimum_magnitude(ty);
                if value == magnitude {
                    (self, Some(typed(ExpressionKind::Integer(magnitude), ty, span)))
                } else if value > magnitude {
                    let s = self.report(
                        advised(
                            "E3104",
                            framed("negative integer literal does not fit in `", ty.text(), "`"),
                            framed("use a magnitude no greater than ", number(magnitude), ""),
                            span,
                        ),
                    );
                    (s, Some(typed(ExpressionKind::Integer(0), ty, span)))
                } else {
                    (self, None)
                }
            },
            _ => (self, None),
        }
    }

    /// A unary operator applied to a value.
    #[verifier::opaque]
    pub open spec fn apply_unary(
        self,
        operator: UnaryOperator,
        operand: Expression<'a>,
        span: Span,
    ) -> (Self, Expression<'a>) {
        let valid = match operator {
            UnaryOperator::Negate => operand.ty.is_signed_integer() || operand.ty.is_float(),
            UnaryOperator::Not => operand.ty == Type::Bool || operand.ty.is_integer(),
        };
        let s = if !valid && operand.ty != Type::Never {
            let s = self.invalid_operator("unary", operand.ty, span);
            s
        } else {
            self
        };
        let ty = operand.ty;
        (s, typed(ExpressionKind::Unary { operator, operand }, ty, span))
    }

    /// A borrow.
    pub open spec fn analyze_borrow(
        self,
        mutable: bool,
        operand: ast::Expression<'a>,
        span: Span,
        expected: Option<Type>,
        fuel: nat,
    ) -> (Self, Expression<'a>)
        decreases fuel, 4nat, List::<Type>::Nil,
    {
        match self.analyze_place(operand, fuel) {
            (s, None) => (s, invalid_composite_expression(span)),
            (s, Some(place)) => {
                let s = s.require_expression_root_available(operand, span);
                let s = s.require_borrowable(mutable, operand, fuel);
                let s = s.check_and_record_borrow(operand, mutable, span);
                s.borrow_place(place, mutable, span, expected)
            },
        }
    }

    /// What is borrowed mutably must be mutable.
    pub open spec fn require_borrowable(
        self,
        mutable: bool,
        operand: ast::Expression<'a>,
        fuel: nat,
    ) -> Self
        decreases fuel, 3nat, List::<Type>::Nil,
    {
        if mutable {
            let s = self.require_mutable_place(operand, fuel);
            s
        } else {
            self
        }
    }

    /// The slice that a borrowed array should become: its mutability and length,
    /// and whether the elements and the mutability fit.
    #[verifier::opaque]
    pub open spec fn borrowed_slice(
        self,
        ty: Type,
        mutable: bool,
        expected: Option<Type>,
    ) -> Option<(Type, bool, u64, bool)> {
        match expected {
            None => None,
            Some(expected) => match self.types.slice_shape(expected) {
                None => None,
                Some((element, slice_mutable)) => match self.types.array_shape(ty) {
                    None => None,
                    Some((actual, length)) => Some(
                        (
                            expected,
                            slice_mutable,
                            length,
                            element == actual && (mutable || !slice_mutable),
                        ),
                    ),
                },
            },
        }
    }

    /// A borrow of a place.
    #[verifier::opaque]
    pub open spec fn borrow_place(
        self,
        place: hir::Place<'a>,
        mutable: bool,
        span: Span,
        expected: Option<Type>,
    ) -> (Self, Expression<'a>) {
        match self.borrowed_slice(place.ty, mutable, expected) {
            Some((ty, slice_mutable, length, fits)) => {
                let s = if !fits {
                    let s = self.type_mismatch(ty, place.ty, span, "slice borrow");
                    s
                } else {
                    self
                };
                (
                    s,
                    typed(
                        ExpressionKind::Borrow {
                            place,
                            mutable: slice_mutable,
                            slice_length: Some(length),
                        },
                        ty,
                        span,
                    ),
                )
            },
            None => {
                let (s, interned) = self.intern_reference(place.ty, mutable, span);
                let ty = match interned {
                    Some(ty) => ty,
                    None => Type::Unit,
                };
                let s = s.require_expected(expected, ty, span, "borrow expression");
                (s, typed(ExpressionKind::Borrow { place, mutable, slice_length: None }, ty, span))
            },
        }
    }

    /// What a reference or a pointer leads to.
    pub open spec fn analyze_dereference(
        self,
        operand: ast::Expression<'a>,
        span: Span,
        fuel: nat,
    ) -> (Self, Expression<'a>)
        decreases fuel, 2nat, List::<Type>::Nil,
    {
        let (s, pointer) = self.analyze_expression_non_consuming(operand, fuel);
        s.dereference(pointer, span)
    }

    /// What a pointer leads to. A raw one must stand in `unsafe`.
    #[verifier::opaque]
    pub open spec fn dereference(
        self,
        pointer: Expression<'a>,
        span: Span,
    ) -> (Self, Expression<'a>) {
        match self.pointer_shape(pointer.ty) {
            None => {
                let s = self.report(
                    error("E3135", framed("cannot dereference `", pointer.ty.text(), "`"), span),
                );
                (s, invalid_composite_expression(span))
            },
            Some((target, _, is_raw)) => {
                let s = if is_raw && self.frame.unsafe_depth == 0 {
                    let s = self.report(
                        helped(
                            "E3136",
                            words("raw pointers can only be dereferenced inside `unsafe`"),
                            "wrap the operation in `unsafe { ... }`",
                            span,
                        ),
                    );
                    s
                } else {
                    self
                };
                let s = if s.frame.consuming_value && !s.types.is_copy(target) {
                    let s = s.report(
                        helped(
                            "E3144",
                            words("cannot move an owned value through a reference or raw pointer"),
                            "borrow the pointee or move its owning local instead",
                            span,
                        ),
                    );
                    s
                } else {
                    s
                };
                (s, typed(ExpressionKind::Dereference(pointer), target, span))
            },
        }
    }

    /// An expression with a binary operator.
    pub open spec fn analyze_binary(
        self,
        operator: ast::BinaryOperator,
        left: ast::Expression<'a>,
        right: ast::Expression<'a>,
        span: Span,
        expected: Option<Type>,
        fuel: nat,
    ) -> (Self, Expression<'a>)
        decreases fuel, 1nat, List::<Type>::Nil,
    {
        let preferred = if spec_is_logical(operator) {
            Some(Type::Bool)
        } else {
            expected
        };
        let (s, first) = self.analyze_expression_expected(left, preferred, fuel);
        let (s, second) = s.analyze_expression_expected(right, Some(first.ty), fuel);
        s.apply_binary(operator, first, second, right.span, span)
    }

    /// Whether an operator is defined for a type, and the type of its result.
    #[verifier::opaque]
    pub open spec fn binary_result(self, operator: BinaryOperator, ty: Type) -> (bool, Type) {
        match operator {
            BinaryOperator::Add => (ty.is_numeric(), ty),
            BinaryOperator::Subtract => (ty.is_numeric(), ty),
            BinaryOperator::Multiply => (ty.is_numeric(), ty),
            BinaryOperator::Divide => (ty.is_numeric(), ty),
            BinaryOperator::Remainder => (ty.is_integer(), ty),
            BinaryOperator::BitAnd => (ty.is_integer(), ty),
            BinaryOperator::BitXor => (ty.is_integer(), ty),
            BinaryOperator::BitOr => (ty.is_integer(), ty),
            BinaryOperator::ShiftLeft => (ty.is_integer(), ty),
            BinaryOperator::ShiftRight => (ty.is_integer(), ty),
            BinaryOperator::Equal => (self.types.meets(ty, "Eq"@), Type::Bool),
            BinaryOperator::NotEqual => (self.types.meets(ty, "Eq"@), Type::Bool),
            BinaryOperator::Less => (is_ordered_type(ty), Type::Bool),
            BinaryOperator::LessEqual => (is_ordered_type(ty), Type::Bool),
            BinaryOperator::Greater => (is_ordered_type(ty), Type::Bool),
            BinaryOperator::GreaterEqual => (is_ordered_type(ty), Type::Bool),
            BinaryOperator::And => (ty == Type::Bool, Type::Bool),
            BinaryOperator::Or => (ty == Type::Bool, Type::Bool),
        }
    }

    /// A binary operator applied to values.
    #[verifier::opaque]
    pub open spec fn apply_binary(
        self,
        operator: ast::BinaryOperator,
        left: Expression<'a>,
        right: Expression<'a>,
        right_span: Span,
        span: Span,
    ) -> (Self, Expression<'a>) {
        let s = if left.ty != right.ty && left.ty != Type::Never && right.ty != Type::Never {
            let s = self.type_mismatch(left.ty, right.ty, right_span, "binary operands");
            s
        } else {
            self
        };
        let operator = spec_typed_operator(operator);
        let (valid, ty) = s.binary_result(operator, left.ty);
        let s = if !valid && left.ty != Type::Never {
            let s = s.invalid_operator("binary", left.ty, span);
            s
        } else {
            s
        };
        (s, typed(ExpressionKind::Binary { operator, left, right }, ty, span))
    }

    /// The same moves, to go back to.
    #[verifier::opaque]
    pub open spec fn current_moves(self) -> Moves<'a> {
        Moves { locals: self.frame.moved_locals, fields: self.frame.moved_fields }
    }

    /// What had been moved is moved again, and nothing else.
    #[verifier::opaque]
    pub open spec fn restore_moves(self, moves: Moves<'a>) -> Self {
        let s = self.set_moves(moves.locals, moves.fields);
        s
    }

    /// What has been moved in one of two branches.
    #[verifier::opaque]
    pub open spec fn merge_moves(self, moves: Moves<'a>) -> Self {
        let s = State {
            frame: Frame {
                moved_locals: spec_joined_known(self.frame.moved_locals, moves.locals),
                ..self.frame
            },
            ..self
        };
        let s = State {
            frame: Frame {
                moved_fields: spec_joined_field_moves(s.frame.moved_fields, moves.fields),
                ..s.frame
            },
            ..s
        };
        s
    }

    /// An `if`.
    pub open spec fn analyze_if(
        self,
        condition: ast::Expression<'a>,
        then_branch: ast::Block<'a>,
        else_branch: Option<ast::Expression<'a>>,
        span: Span,
        expected: Option<Type>,
        fuel: nat,
    ) -> (Self, Expression<'a>)
        decreases fuel, 2nat, List::<Type>::Nil,
    {
        let (s, test) = self.analyze_expression_expected(condition, Some(Type::Bool), fuel);
        let s = s.require_type(Type::Bool, test.ty, condition.span, "if condition");
        let before = s.current_moves();
        let (s, first) = s.analyze_block(then_branch, expected, fuel);
        let after_first = s.current_moves();
        let s = s.restore_moves(before);
        let (s, second) = s.analyze_optional(else_branch, expected, fuel);
        let s = s.merge_moves(after_first);
        s.join_branches(test, first, second, span)
    }

    /// An `if` of its parts.
    #[verifier::opaque]
    pub open spec fn join_branches(
        self,
        condition: Expression<'a>,
        then_branch: hir::Block<'a>,
        else_branch: Option<Expression<'a>>,
        span: Span,
    ) -> (Self, Expression<'a>) {
        match else_branch {
            Some(other) => {
                let (s, ty) = self.unify_branch_types(then_branch.ty, other.ty, span);
                (
                    s,
                    typed(
                        ExpressionKind::If { condition, then_branch, else_branch: Some(other) },
                        ty,
                        span,
                    ),
                )
            },
            None => {
                let s = self.require_type(
                    Type::Unit,
                    then_branch.ty,
                    then_branch.span,
                    "`if` branch without `else`",
                );
                (
                    s,
                    typed(
                        ExpressionKind::If { condition, then_branch, else_branch: None },
                        Type::Unit,
                        span,
                    ),
                )
            },
        }
    }

    /// A `match`.
    pub open spec fn analyze_match(
        self,
        scrutinee: ast::Expression<'a>,
        arms: List<ast::MatchArm<'a>>,
        span: Span,
        expected: Option<Type>,
        fuel: nat,
    ) -> (Self, Expression<'a>)
        decreases fuel, 4nat, List::<Type>::Nil,
    {
        let root = self.scoped_source_local(scrutinee);
        let (s, value) = self.analyze_expression_expected(scrutinee, None, fuel);
        let before = s.current_moves();
        let (s, (analyzed_arms, result_type)) = s.analyze_arms(
            arms,
            value.ty,
            root,
            expected,
            before,
            None,
            fuel,
        );
        let s = s.validate_match_coverage(value.ty, analyzed_arms, span);
        let ty = match result_type {
            Some(ty) => ty,
            None => Type::Never,
        };
        (s, typed(ExpressionKind::Match { scrutinee: value, arms: analyzed_arms }, ty, span))
    }

    /// The arms of a `match`, each from the moves before all of them, and the type
    /// of their values.
    pub open spec fn analyze_arms(
        self,
        arms: List<ast::MatchArm<'a>>,
        ty: Type,
        root: Option<LocalId>,
        expected: Option<Type>,
        before: Moves<'a>,
        result_type: Option<Type>,
        fuel: nat,
    ) -> (Self, (List<MatchArm<'a>>, Option<Type>))
        decreases fuel, 3nat, arms,
    {
        match arms {
            List::Nil => (self, (List::Nil, result_type)),
            List::Cons(node) => {
                let after = self.current_moves();
                let s = self.restore_moves(before);
                let (s, (first, result_type)) = s.analyze_arm(
                    node.head,
                    ty,
                    root,
                    expected,
                    result_type,
                    fuel,
                );
                let s = s.merge_moves(after);
                let (s, (rest, result_type)) = s.analyze_arms(
                    node.tail,
                    ty,
                    root,
                    expected,
                    before,
                    result_type,
                    fuel,
                );
                (s, (cons(first, rest), result_type))
            },
        }
    }

    /// An arm of a `match`.
    pub open spec fn analyze_arm(
        self,
        arm: ast::MatchArm<'a>,
        ty: Type,
        root: Option<LocalId>,
        expected: Option<Type>,
        result_type: Option<Type>,
        fuel: nat,
    ) -> (Self, (MatchArm<'a>, Option<Type>))
        decreases fuel, 2nat, List::<Type>::Nil,
    {
        let s = self.push_scope();
        let (s, pattern) = s.analyze_arm_pattern(arm.pattern, ty, root);
        let (s, guard) = s.analyze_guard(arm.guard, fuel);
        let (s, body) = s.analyze_expression_expected(arm.body, expected, fuel);
        let (s, result_type) = s.join_result_type(result_type, body.ty, arm.span);
        let s = s.pop_scope();
        (s, (MatchArm { pattern, guard, body, span: arm.span }, result_type))
    }

    /// The pattern of an arm.
    #[verifier::opaque]
    pub open spec fn analyze_arm_pattern(
        self,
        pattern: ast::Pattern<'a>,
        ty: Type,
        root: Option<LocalId>,
    ) -> (Self, hir::Pattern<'a>) {
        let (s, analyzed) = self.analyze_pattern(pattern, ty);
        match root {
            Some(root) => {
                let s = s.record_pattern_scoped_roots(analyzed, root);
                (s, analyzed)
            },
            None => (s, analyzed),
        }
    }

    /// The guard of an arm.
    pub open spec fn analyze_guard(
        self,
        guard: Option<ast::Expression<'a>>,
        fuel: nat,
    ) -> (Self, Option<Expression<'a>>)
        decreases fuel, 1nat, List::<Type>::Nil,
    {
        match guard {
            None => (self, None),
            Some(guard) => {
                let (s, analyzed) = self.analyze_expression_expected(guard, Some(Type::Bool), fuel);
                let s = s.require_type(Type::Bool, analyzed.ty, analyzed.span, "match guard");
                (s, Some(analyzed))
            },
        }
    }

    /// The type of the values of arms, with one more arm.
    #[verifier::opaque]
    pub open spec fn join_result_type(
        self,
        result_type: Option<Type>,
        ty: Type,
        span: Span,
    ) -> (Self, Option<Type>) {
        match result_type {
            None => (self, Some(ty)),
            Some(previous) => {
                let (s, joined) = self.unify_branch_types(previous, ty, span);
                (s, Some(joined))
            },
        }
    }

    /// The type of the values that the innermost loop is left with.
    #[verifier::opaque]
    pub open spec fn loop_type(self) -> Type {
        match self.innermost_loop() {
            Some(context) => match context.break_type {
                Some(ty) => ty,
                None => Type::Never,
            },
            None => Type::Never,
        }
    }

    /// A `loop`.
    pub open spec fn analyze_loop(
        self,
        body: ast::Block<'a>,
        span: Span,
        expected: Option<Type>,
        fuel: nat,
    ) -> (Self, Expression<'a>)
        decreases fuel, 1nat, List::<Type>::Nil,
    {
        let s = self.push_loop(LoopKind::Expression, expected);
        let (s, body) = s.analyze_block(body, None, fuel);
        let ty = s.loop_type();
        let s = s.pop_loop();
        (s, typed(ExpressionKind::Loop(body), ty, span))
    }
}

impl<'a> Analyzer<'a> {
    /// An expression whose value should have a type.
    pub(crate) fn analyze_expression_expected(
        &mut self,
        expression: &ast::Expression<'a>,
        expected: Option<Type>,
        fuel: u32,
    ) -> (analyzed: Expression<'a>)
        ensures
            (final(self)@, analyzed) == old(self)@.analyze_expression_expected(
                *expression,
                expected,
                fuel as nat,
            ),
            old(self)@.leads_to(final(self)@),
            forall|watch: Watch| #[trigger]
                watched(watch) && old(self)@.is_apart(watch) && !mentions(*expression, watch.name)
                    ==> old(self)@.spares(final(self)@, watch),
            forall|scene: Scene| #[trigger]
                final(self)@.admits(scene) && old(self)@.prepared()
                    ==> final(self)@.troubled() || sound(analyzed, scene),
            final(self)@.troubled() || renders(*expression, analyzed),
        decreases fuel, 0nat, List::<Type>::Nil,
    {
        if fuel == 0 {
            self.report(
                error("E3999", words("this expression is nested too deeply"), expression.span),
            );
            return invalid_composite_expression(expression.span);
        }
        self.analyze_rooted(expression, expected, fuel - 1)
    }

    /// An expression, with what its value refers to.
    pub(crate) fn analyze_rooted(
        &mut self,
        expression: &ast::Expression<'a>,
        expected: Option<Type>,
        fuel: u32,
    ) -> (analyzed: Expression<'a>)
        ensures
            (final(self)@, analyzed) == old(self)@.analyze_rooted(
                *expression,
                expected,
                fuel as nat,
            ),
            old(self)@.leads_to(final(self)@),
            forall|watch: Watch| #[trigger]
                watched(watch) && old(self)@.is_apart(watch) && !mentions(*expression, watch.name)
                    ==> old(self)@.spares(final(self)@, watch),
            forall|scene: Scene| #[trigger]
                final(self)@.admits(scene) && old(self)@.prepared()
                    ==> final(self)@.troubled() || sound(analyzed, scene),
            final(self)@.troubled() || renders(*expression, analyzed),
        decreases fuel, 18nat, List::<Type>::Nil,
    {
        let analyzed = self.analyze_form(expression, expected, fuel);
        self.record_root(expression, analyzed.ty);
        analyzed
    }

    /// An expression whose value is only looked at.
    pub(crate) fn analyze_expression_non_consuming(
        &mut self,
        expression: &ast::Expression<'a>,
        fuel: u32,
    ) -> (analyzed: Expression<'a>)
        ensures
            (final(self)@, analyzed) == old(self)@.analyze_expression_non_consuming(
                *expression,
                fuel as nat,
            ),
            old(self)@.leads_to(final(self)@),
            forall|watch: Watch| #[trigger]
                watched(watch) && old(self)@.is_apart(watch) && !mentions(*expression, watch.name)
                    ==> old(self)@.spares(final(self)@, watch),
            forall|scene: Scene| #[trigger]
                final(self)@.admits(scene) && old(self)@.prepared()
                    ==> final(self)@.troubled() || sound(analyzed, scene),
            final(self)@.troubled() || renders(*expression, analyzed),
        decreases fuel, 1nat, List::<Type>::Nil,
    {
        let consuming = self.frame.consuming_value;
        self.set_consuming(false);
        let analyzed = self.analyze_expression_expected(expression, None, fuel);
        self.set_consuming(consuming);
        analyzed
    }

    /// An expression, by its form.
    pub(crate) fn analyze_form(
        &mut self,
        expression: &ast::Expression<'a>,
        expected: Option<Type>,
        fuel: u32,
    ) -> (analyzed: Expression<'a>)
        ensures
            (final(self)@, analyzed) == old(self)@.analyze_form(*expression, expected, fuel as nat),
            old(self)@.leads_to(final(self)@),
            forall|watch: Watch| #[trigger]
                watched(watch) && old(self)@.is_apart(watch) && !mentions(*expression, watch.name)
                    ==> old(self)@.spares(final(self)@, watch),
            forall|scene: Scene| #[trigger]
                final(self)@.admits(scene) && old(self)@.prepared()
                    ==> final(self)@.troubled() || sound(analyzed, scene),
            final(self)@.troubled() || renders(*expression, analyzed),
        decreases fuel, 17nat, List::<Type>::Nil,
    {
        let analyzed = match &*expression.kind {
            ast::ExpressionKind::Integer(value) => self.analyze_integer_literal(
                *value,
                expression.span,
                expected,
            ),
            ast::ExpressionKind::Float(literal) => self.analyze_float_literal(
                *literal,
                expression.span,
                expected,
            ),
            ast::ExpressionKind::Character(value) => typed(
                ExpressionKind::Character(*value),
                Type::Char,
                expression.span,
            ),
            ast::ExpressionKind::String(value) => {
                self.require_expected(expected, Type::Str, expression.span, "string literal");
                typed(ExpressionKind::String(words(value)), Type::Str, expression.span)
            },
            ast::ExpressionKind::CString(value) => {
                self.require_expected(expected, Type::CStr, expression.span, "C string literal");
                typed(ExpressionKind::CString(words(value)), Type::CStr, expression.span)
            },
            ast::ExpressionKind::Boolean(value) => typed(
                ExpressionKind::Boolean(*value),
                Type::Bool,
                expression.span,
            ),
            ast::ExpressionKind::Unit => typed(ExpressionKind::Unit, Type::Unit, expression.span),
            ast::ExpressionKind::Path(path) => self.analyze_path(path, expected),
            ast::ExpressionKind::Assignment { operator, target, value } => self.analyze_assignment(
                *operator,
                target,
                value,
                expression.span,
                fuel,
            ),
            ast::ExpressionKind::Cast { value, target } => self.analyze_cast(
                value,
                target,
                expression.span,
                fuel,
            ),
            ast::ExpressionKind::Field(field) => self.analyze_field(field, fuel),
            ast::ExpressionKind::Index(index) => self.analyze_index(index, fuel),
            ast::ExpressionKind::Try(value) => self.analyze_try(value, expression.span, fuel),
            ast::ExpressionKind::Call(call) => self.analyze_call(call, expected, fuel),
            ast::ExpressionKind::Unary { operator, operand } => self.analyze_unary(
                *operator,
                operand,
                expression.span,
                expected,
                fuel,
            ),
            ast::ExpressionKind::Binary { operator, left, right } => self.analyze_binary(
                *operator,
                left,
                right,
                expression.span,
                expected,
                fuel,
            ),
            _ => self.analyze_composite_form(expression, expected, fuel),
        };
        proof {
            renders_by_form(*expression, analyzed);
        }
        analyzed
    }

    /// An aggregate or a control-flow expression, by its form.
    pub(crate) fn analyze_composite_form(
        &mut self,
        expression: &ast::Expression<'a>,
        expected: Option<Type>,
        fuel: u32,
    ) -> (analyzed: Expression<'a>)
        ensures
            (final(self)@, analyzed) == old(self)@.analyze_composite_form(
                *expression,
                expected,
                fuel as nat,
            ),
            old(self)@.leads_to(final(self)@),
            forall|watch: Watch| #[trigger]
                watched(watch) && old(self)@.is_apart(watch) && !mentions(*expression, watch.name)
                    ==> old(self)@.spares(final(self)@, watch),
            forall|scene: Scene| #[trigger]
                final(self)@.admits(scene) && old(self)@.prepared()
                    ==> final(self)@.troubled() || sound(analyzed, scene),
            final(self)@.troubled() || form_renders(
                *expression.kind,
                analyzed,
            ),
        decreases fuel, 6nat, List::<Type>::Nil,
    {
        match &*expression.kind {
            ast::ExpressionKind::FormattedString(fragments) => self.reject_standalone_formatted_string(
                fragments,
                expression.span,
                fuel,
            ),
            ast::ExpressionKind::If { condition, then_branch, else_branch } => self.analyze_if(
                condition,
                then_branch,
                else_branch,
                expression.span,
                expected,
                fuel,
            ),
            ast::ExpressionKind::Match { scrutinee, arms } => self.analyze_match(
                scrutinee,
                arms,
                expression.span,
                expected,
                fuel,
            ),
            ast::ExpressionKind::Loop(body) => self.analyze_loop(
                body,
                expression.span,
                expected,
                fuel,
            ),
            ast::ExpressionKind::Unsafe(block) => {
                self.enter_unsafe();
                let body = self.analyze_block(block, expected, fuel);
                self.leave_unsafe();
                let analyzed = block_expression(body, expression.span);
                assert(block_renders(*block, body) ==> form_renders(
                    ast::ExpressionKind::Block(*block),
                    analyzed,
                ));
                analyzed
            },
            ast::ExpressionKind::Block(block) => {
                let body = self.analyze_block(block, expected, fuel);
                let analyzed = block_expression(body, expression.span);
                assert(block_renders(*block, body) ==> form_renders(
                    ast::ExpressionKind::Block(*block),
                    analyzed,
                ));
                analyzed
            },
            ast::ExpressionKind::Tuple(elements) => self.analyze_tuple(
                elements,
                expression.span,
                expected,
                fuel,
            ),
            ast::ExpressionKind::ArrayList(elements) => self.analyze_array_list(
                elements,
                expression.span,
                expected,
                fuel,
            ),
            ast::ExpressionKind::ArrayRepeat { value, length } => self.analyze_array_repeat(
                value,
                length,
                expression.span,
                expected,
                fuel,
            ),
            ast::ExpressionKind::Struct { path, fields } => self.analyze_struct(
                path,
                fields,
                expression.span,
                expected,
                fuel,
            ),
            _ => {
                self.report(
                    helped(
                        "E6021",
                        words("a value pack can only expand directly inside a tuple or array"),
                        "place the expansion in `( ...Pack => expression, )` or `[...Pack => expression]`",
                        expression.span,
                    ),
                );
                invalid_composite_expression(expression.span)
            },
        }
    }

    /// A formatted string needs a destination.
    pub(crate) fn reject_standalone_formatted_string(
        &mut self,
        fragments: &List<FormattedStringFragment<'a>>,
        span: Span,
        fuel: u32,
    ) -> (analyzed: Expression<'a>)
        ensures
            (final(self)@, analyzed) == old(self)@.reject_standalone_formatted_string(
                *fragments,
                span,
                fuel as nat,
            ),
            old(self)@.leads_to(final(self)@),
            forall|watch: Watch| #[trigger]
                watched(watch) && old(self)@.is_apart(watch)
                    && !fragments_mention(*fragments, watch.name)
                    ==> old(self)@.spares(final(self)@, watch),
            forall|scene: Scene| #[trigger]
                final(self)@.admits(scene) && old(self)@.prepared()
                    ==> final(self)@.troubled() || sound(analyzed, scene),
            final(self)@.troubled(),
        decreases fuel, 2nat, List::<Type>::Nil,
    {
        self.analyze_fragments(fragments, fuel);
        self.report(
            helped(
                "E3160",
                words("formatted string requires a formatting destination"),
                "append it with `string.push_format(f\"...\")`",
                span,
            ),
        );
        invalid_composite_expression(span)
    }

    /// The values in a formatted string.
    pub(crate) fn analyze_fragments(
        &mut self,
        fragments: &List<FormattedStringFragment<'a>>,
        fuel: u32,
    )
        ensures
            final(self)@ == old(self)@.analyze_fragments(*fragments, fuel as nat),
            old(self)@.leads_to(final(self)@),
            forall|watch: Watch| #[trigger]
                watched(watch) && old(self)@.is_apart(watch)
                    && !fragments_mention(*fragments, watch.name)
                    ==> old(self)@.spares(final(self)@, watch),
        decreases fuel, 1nat, *fragments,
    {
        let mut ahead: &List<FormattedStringFragment<'a>> = fragments;
        loop
            invariant
                old(self)@.analyze_fragments(*fragments, fuel as nat) == self@.analyze_fragments(
                    *ahead,
                    fuel as nat,
                ),
                old(self)@.leads_to(self@),
                forall|watch: Watch| #[trigger]
                    watched(watch) && old(self)@.is_apart(watch)
                        && !fragments_mention(*fragments, watch.name)
                        ==> old(self)@.spares(self@, watch),
                forall|watch: Watch| #[trigger]
                    watched(watch) && !fragments_mention(*fragments, watch.name)
                        ==> !fragments_mention(*ahead, watch.name),
            decreases *ahead,
        {
            match ahead {
                List::Nil => {
                    return ;
                },
                List::Cons(node) => {
                    assert forall|watch: Watch| #[trigger]
                        watched(watch) && !fragments_mention(
                            *ahead,
                            watch.name,
                        ) implies !fragment_mentions(node.head, watch.name) by {}
                    match &node.head {
                        FormattedStringFragment::Text(_, _) => {
                        },
                        FormattedStringFragment::Display(expression) => {
                            self.analyze_expression_expected(expression, None, fuel);
                        },
                        FormattedStringFragment::Debug(expression) => {
                            self.analyze_expression_expected(expression, None, fuel);
                        },
                    }
                    ahead = &node.tail;
                },
            }
        }
    }

    /// Expressions in turn, for their problems alone.
    pub(crate) fn analyze_discarded(&mut self, expressions: &List<ast::Expression<'a>>, fuel: u32)
        ensures
            final(self)@ == old(self)@.analyze_discarded(*expressions, fuel as nat),
            old(self)@.leads_to(final(self)@),
            forall|watch: Watch| #[trigger]
                watched(watch) && old(self)@.is_apart(watch)
                    && !any_mentions(*expressions, watch.name)
                    ==> old(self)@.spares(final(self)@, watch),
        decreases fuel, 1nat, *expressions,
    {
        let mut ahead: &List<ast::Expression<'a>> = expressions;
        loop
            invariant
                old(self)@.analyze_discarded(*expressions, fuel as nat) == self@.analyze_discarded(
                    *ahead,
                    fuel as nat,
                ),
                old(self)@.leads_to(self@),
                forall|watch: Watch| #[trigger]
                    watched(watch) && old(self)@.is_apart(watch)
                        && !any_mentions(*expressions, watch.name)
                        ==> old(self)@.spares(self@, watch),
                forall|watch: Watch| #[trigger]
                    watched(watch) && !any_mentions(*expressions, watch.name)
                        ==> !any_mentions(*ahead, watch.name),
            decreases *ahead,
        {
            match ahead {
                List::Nil => {
                    return ;
                },
                List::Cons(node) => {
                    self.analyze_expression_expected(&node.head, None, fuel);
                    ahead = &node.tail;
                },
            }
        }
    }

    /// The types of a pack.
    pub(crate) fn pack_types(&self, name: &str) -> (types: Option<List<Type>>)
        ensures
            types == self@.pack_types(name),
    {
        reveal(State::pack_types);
        match find(&self.frame.environment.type_packs, name) {
            Some(types) => Some(types.share()),
            None => None,
        }
    }

    /// A parameter of the function stands for a type from now on.
    pub(crate) fn bind_pack_type(&mut self, name: &'a str, ty: Type)
        ensures
            final(self)@ == old(self)@.bind_pack_type(name, ty),
            old(self)@.leads_to(final(self)@),
            old(self)@.stays(final(self)@),
    {
        reveal(State::bind_pack_type);
        reveal(State::leads_to);
        reveal(State::stays);
        self.frame.environment = self.frame.environment.and_type(name, ty);
    }

    /// The same bindings of generic parameters.
    pub(crate) fn current_environment(&self) -> (environment: Environment<'a>)
        ensures
            environment == self@.current_environment(),
    {
        reveal(State::current_environment);
        self.frame.environment.share()
    }

    /// The elements of an expected tuple.
    pub(crate) fn expected_elements(&self, expected: Option<Type>) -> (elements: Option<List<Type>>)
        ensures
            elements == self@.expected_elements(expected),
    {
        reveal(State::expected_elements);
        match expected {
            Some(expected) => self.types.tuple_shape(expected),
            None => None,
        }
    }

    /// A tuple.
    pub(crate) fn analyze_tuple(
        &mut self,
        elements: &List<ast::Expression<'a>>,
        span: Span,
        expected: Option<Type>,
        fuel: u32,
    ) -> (analyzed: Expression<'a>)
        ensures
            (final(self)@, analyzed) == old(self)@.analyze_tuple(
                *elements,
                span,
                expected,
                fuel as nat,
            ),
            old(self)@.leads_to(final(self)@),
            forall|watch: Watch| #[trigger]
                watched(watch) && old(self)@.is_apart(watch)
                    && !any_mentions(*elements, watch.name)
                    ==> old(self)@.spares(final(self)@, watch),
            forall|scene: Scene| #[trigger]
                final(self)@.admits(scene) && old(self)@.prepared()
                    ==> final(self)@.troubled() || sound(analyzed, scene),
            final(self)@.troubled() || form_renders(
                ast::ExpressionKind::Tuple(*elements),
                analyzed,
            ),
        decreases fuel, 5nat, List::<Type>::Nil,
    {
        let expected_types = self.expected_elements(expected);
        let values = self.analyze_tuple_elements(elements, &expected_types, 0, fuel);
        let ty = self.tuple_type(&values, &expected_types, expected, span);
        typed(ExpressionKind::Tuple(values), ty, span)
    }

    /// The type of a tuple of values.
    pub(crate) fn tuple_type(
        &mut self,
        values: &List<Expression<'a>>,
        expected_types: &Option<List<Type>>,
        expected: Option<Type>,
        span: Span,
    ) -> (ty: Type)
        ensures
            (final(self)@, ty) == old(self)@.tuple_type(*values, *expected_types, expected, span),
            old(self)@.leads_to(final(self)@),
            old(self)@.stays(final(self)@),
    {
        reveal(State::tuple_type);
        match expected_types {
            Some(types) => if types.count() != values.count() {
                self.report(
                    error(
                        "E3115",
                        part_count(
                            "tuple requires ",
                            types.count(),
                            " element(s), found ",
                            values.count(),
                        ),
                        span,
                    ),
                );
            },
            None => {
            },
        }
        match expected {
            Some(expected) => if is_tuple_type(expected) {
                expected
            } else {
                self.fresh_tuple_type(values, span)
            },
            None => self.fresh_tuple_type(values, span),
        }
    }

    /// The type that values make a tuple of.
    pub(crate) fn fresh_tuple_type(
        &mut self,
        values: &List<Expression<'a>>,
        span: Span,
    ) -> (ty: Type)
        ensures
            (final(self)@, ty) == old(self)@.fresh_tuple_type(*values, span),
            old(self)@.leads_to(final(self)@),
            old(self)@.stays(final(self)@),
    {
        reveal(State::fresh_tuple_type);
        match self.intern_tuple(types_of(values), span) {
            Some(ty) => ty,
            None => Type::Unit,
        }
    }

    /// The elements of a tuple from a position on, with packs expanded.
    pub(crate) fn analyze_tuple_elements(
        &mut self,
        elements: &List<ast::Expression<'a>>,
        expected: &Option<List<Type>>,
        position: u64,
        fuel: u32,
    ) -> (values: List<Expression<'a>>)
        ensures
            (final(self)@, values) == old(self)@.analyze_tuple_elements(
                *elements,
                *expected,
                position,
                fuel as nat,
            ),
            old(self)@.leads_to(final(self)@),
            forall|watch: Watch| #[trigger]
                watched(watch) && old(self)@.is_apart(watch)
                    && !any_mentions(*elements, watch.name)
                    ==> old(self)@.spares(final(self)@, watch),
            forall|scene: Scene| #[trigger]
                final(self)@.admits(scene) && old(self)@.prepared()
                    ==> final(self)@.troubled() || all_sound(values, scene),
            final(self)@.troubled() || all_render(*elements, values),
        decreases fuel, 4nat, *elements,
    {
        let mut ahead: &List<ast::Expression<'a>> = elements;
        let mut current_position: u64 = position;
        let mut done: Vec<Expression<'a>> = Vec::new();
        loop
            invariant
                old(self)@.analyze_tuple_elements(*elements, *expected, position, fuel as nat) == {
                    let (state, rest) = self@.analyze_tuple_elements(
                        *ahead,
                        *expected,
                        current_position,
                        fuel as nat,
                    );
                    (state, prepended(done@, rest))
                },
                old(self)@.leads_to(self@),
                forall|watch: Watch| #[trigger]
                    watched(watch) && old(self)@.is_apart(watch)
                        && !any_mentions(*elements, watch.name)
                        ==> old(self)@.spares(self@, watch),
                forall|watch: Watch| #[trigger]
                    watched(watch) && !any_mentions(*elements, watch.name)
                        ==> !any_mentions(*ahead, watch.name),
                forall|scene: Scene| #[trigger]
                    self@.admits(scene) && old(self)@.prepared()
                        ==> self@.troubled() || all_sound(
                        prepended(done@, List::Nil),
                        scene,
                    ),
                self@.troubled() || forall|rest: List<Expression<'a>>|
                    all_render(*ahead, rest) ==> all_render(*elements, #[trigger] prepended(done@, rest)),
            decreases *ahead,
        {
            match ahead {
                List::Nil => {
                    return prepend(done, List::Nil);
                },
                List::Cons(node) => {
                    let first = self.analyze_tuple_element(
                        &node.head,
                        expected,
                        current_position,
                        fuel,
                    );
                    current_position = current_position.saturating_add(first.count());
                    let ghost before = done@;
                    extend_expressions(&mut done, &first);
                    proof {
                        reveal_with_fuel(spec_joined_expressions, 3);
                        if !self@.troubled() {
                            assert forall|rest: List<Expression<'a>>|
                                all_render(node.tail, rest) implies all_render(
                                *elements,
                                #[trigger] prepended(done@, rest),
                            ) by {
                                assert(first == single(first.first()) ==> spec_joined_expressions(
                                    first,
                                    rest,
                                ) == cons(first.first(), rest));
                                assert(prepended(done@, rest) == prepended(
                                    before,
                                    spec_joined_expressions(first, rest),
                                ));
                            }
                        }
                    }
                    ahead = &node.tail;
                },
            }
        }
    }

    /// The values that an element of a tuple gives.
    pub(crate) fn analyze_tuple_element(
        &mut self,
        element: &ast::Expression<'a>,
        expected: &Option<List<Type>>,
        position: u64,
        fuel: u32,
    ) -> (values: List<Expression<'a>>)
        ensures
            (final(self)@, values) == old(self)@.analyze_tuple_element(
                *element,
                *expected,
                position,
                fuel as nat,
            ),
            old(self)@.leads_to(final(self)@),
            forall|watch: Watch| #[trigger]
                watched(watch) && old(self)@.is_apart(watch) && !mentions(*element, watch.name)
                    ==> old(self)@.spares(final(self)@, watch),
            forall|scene: Scene| #[trigger]
                final(self)@.admits(scene) && old(self)@.prepared()
                    ==> final(self)@.troubled() || all_sound(values, scene),
            final(self)@.troubled() || *element.kind is PackExpansion || (values == single(
                values.first(),
            ) && renders(*element, values.first())),
        decreases fuel, 3nat, List::<Type>::Nil,
    {
        match &*element.kind {
            ast::ExpressionKind::PackExpansion { pack, template } => match self.pack_types(
                pack.name,
            ) {
                None => {
                    self.report(
                        helped(
                            "E6021",
                            words3("unknown type pack `", pack.name, "`"),
                            "declare the pack with `<...Types>`",
                            pack.span,
                        ),
                    );
                    List::Nil
                },
                Some(types) => self.analyze_tuple_pack(
                    template,
                    pack.name,
                    &types,
                    expected,
                    position,
                    fuel,
                ),
            },
            _ => {
                let value = self.analyze_expression_expected(
                    element,
                    expected_at(expected, position),
                    fuel,
                );
                single(value)
            },
        }
    }

    /// The values that a template gives for the types of a pack.
    pub(crate) fn analyze_tuple_pack(
        &mut self,
        template: &ast::Expression<'a>,
        name: &'a str,
        types: &List<Type>,
        expected: &Option<List<Type>>,
        position: u64,
        fuel: u32,
    ) -> (values: List<Expression<'a>>)
        ensures
            (final(self)@, values) == old(self)@.analyze_tuple_pack(
                *template,
                name,
                *types,
                *expected,
                position,
                fuel as nat,
            ),
            old(self)@.leads_to(final(self)@),
            forall|watch: Watch| #[trigger]
                watched(watch) && old(self)@.is_apart(watch) && !mentions(*template, watch.name)
                    ==> old(self)@.spares(final(self)@, watch),
            forall|scene: Scene| #[trigger]
                final(self)@.admits(scene) && old(self)@.prepared()
                    ==> final(self)@.troubled() || all_sound(values, scene),
        decreases fuel, 2nat, *types,
    {
        let mut ahead: &List<Type> = types;
        let mut current_position: u64 = position;
        let mut done: Vec<Expression<'a>> = Vec::new();
        loop
            invariant
                old(self)@.analyze_tuple_pack(
                                *template,
                                name,
                                *types,
                                *expected,
                                position,
                                fuel as nat,
                            ) == {
                    let (state, rest) = self@.analyze_tuple_pack(
                                *template,
                                name,
                                *ahead,
                                *expected,
                                current_position,
                                fuel as nat,
                            );
                    (state, prepended(done@, rest))
                },
                old(self)@.leads_to(self@),
                forall|watch: Watch| #[trigger]
                    watched(watch) && old(self)@.is_apart(watch)
                        && !mentions(*template, watch.name)
                        ==> old(self)@.spares(self@, watch),
                forall|scene: Scene| #[trigger]
                    self@.admits(scene) && old(self)@.prepared()
                    ==> self@.troubled() || all_sound(prepended(done@, List::Nil), scene),
            decreases *ahead,
        {
            match ahead {
                List::Nil => {
                    return prepend(done, List::Nil);
                },
                List::Cons(node) => {
                    let value = self.analyze_template(
                        template,
                        name,
                        node.head,
                        expected_at(expected, current_position),
                        fuel,
                    );
                    done.push(value);
                    current_position = current_position.saturating_add(1);
                    ahead = &node.tail;
                },
            }
        }
    }

    /// A template with one type of a pack.
    pub(crate) fn analyze_template(
        &mut self,
        template: &ast::Expression<'a>,
        name: &'a str,
        ty: Type,
        expected: Option<Type>,
        fuel: u32,
    ) -> (value: Expression<'a>)
        ensures
            (final(self)@, value) == old(self)@.analyze_template(
                *template,
                name,
                ty,
                expected,
                fuel as nat,
            ),
            old(self)@.leads_to(final(self)@),
            forall|watch: Watch| #[trigger]
                watched(watch) && old(self)@.is_apart(watch) && !mentions(*template, watch.name)
                    ==> old(self)@.spares(final(self)@, watch),
            forall|scene: Scene| #[trigger]
                final(self)@.admits(scene) && old(self)@.prepared()
                    ==> final(self)@.troubled() || sound(value, scene),
        decreases fuel, 1nat, List::<Type>::Nil,
    {
        let environment = self.current_environment();
        self.bind_pack_type(name, ty);
        let value = self.analyze_expression_expected(template, expected, fuel);
        self.set_environment(environment);
        value
    }

    /// The element and the length of an expected array.
    pub(crate) fn expected_array(&self, expected: Option<Type>) -> (shape: Option<(Type, u64)>)
        ensures
            shape == self@.expected_array(expected),
    {
        reveal(State::expected_array);
        match expected {
            Some(expected) => self.types.array_shape(expected),
            None => None,
        }
    }

    /// The type of an array.
    pub(crate) fn array_type(
        &mut self,
        expected: Option<Type>,
        element: Type,
        length: u64,
        span: Span,
    ) -> (ty: Type)
        ensures
            (final(self)@, ty) == old(self)@.array_type(expected, element, length, span),
            old(self)@.leads_to(final(self)@),
            old(self)@.stays(final(self)@),
    {
        reveal(State::array_type);
        match expected {
            Some(expected) => if is_array_type(expected) {
                expected
            } else {
                self.fresh_array_type(element, length, span)
            },
            None => self.fresh_array_type(element, length, span),
        }
    }

    /// The type of arrays of an element.
    pub(crate) fn fresh_array_type(&mut self, element: Type, length: u64, span: Span) -> (ty: Type)
        ensures
            (final(self)@, ty) == old(self)@.fresh_array_type(element, length, span),
            old(self)@.leads_to(final(self)@),
            old(self)@.stays(final(self)@),
    {
        reveal(State::fresh_array_type);
        match self.intern_array(element, length, span) {
            Some(ty) => ty,
            None => Type::Unit,
        }
    }

    /// An array of elements.
    pub(crate) fn analyze_array_list(
        &mut self,
        elements: &List<ast::Expression<'a>>,
        span: Span,
        expected: Option<Type>,
        fuel: u32,
    ) -> (analyzed: Expression<'a>)
        ensures
            (final(self)@, analyzed) == old(self)@.analyze_array_list(
                *elements,
                span,
                expected,
                fuel as nat,
            ),
            old(self)@.leads_to(final(self)@),
            forall|watch: Watch| #[trigger]
                watched(watch) && old(self)@.is_apart(watch)
                    && !any_mentions(*elements, watch.name)
                    ==> old(self)@.spares(final(self)@, watch),
            forall|scene: Scene| #[trigger]
                final(self)@.admits(scene) && old(self)@.prepared()
                    ==> final(self)@.troubled() || sound(analyzed, scene),
            final(self)@.troubled() || form_renders(
                ast::ExpressionKind::ArrayList(*elements),
                analyzed,
            ),
        decreases fuel, 5nat, List::<Type>::Nil,
    {
        let shape = self.expected_array(expected);
        let element = match shape {
            Some((element, _)) => Some(element),
            None => None,
        };
        let (values, element) = self.analyze_array_elements(elements, element, fuel);
        proof {
            reveal(all_fit);
            if !self@.troubled() {
                let agreed = match element {
                    Some(ty) => ty,
                    None => Type::Unit,
                };
                assert(all_fit(values, agreed));
            }
        }
        let ty = self.array_list_type(shape, element, values.count(), expected, span);
        typed(ExpressionKind::Array(values), ty, span)
    }

    /// The type of an array of that many elements.
    pub(crate) fn array_list_type(
        &mut self,
        shape: Option<(Type, u64)>,
        element: Option<Type>,
        found: u64,
        expected: Option<Type>,
        span: Span,
    ) -> (ty: Type)
        ensures
            (final(self)@, ty) == old(self)@.array_list_type(shape, element, found, expected, span),
            old(self)@.leads_to(final(self)@),
            old(self)@.stays(final(self)@),
    {
        reveal(State::array_list_type);
        match shape {
            Some((_, length)) => if length != found {
                self.report(
                    error(
                        "E3116",
                        part_count("array requires ", length, " element(s), found ", found),
                        span,
                    ),
                );
            },
            None => {
            },
        }
        match element {
            None => {
                self.report(
                    helped(
                        "E3117",
                        words("cannot infer the element type of an empty array"),
                        "add an explicit array type annotation",
                        span,
                    ),
                );
                Type::Unit
            },
            Some(element) => self.array_type(expected, element, found, span),
        }
    }

    /// The elements of an array, with packs expanded, and their type.
    pub(crate) fn analyze_array_elements(
        &mut self,
        elements: &List<ast::Expression<'a>>,
        element_type: Option<Type>,
        fuel: u32,
    ) -> (values: (List<Expression<'a>>, Option<Type>))
        ensures
            (final(self)@, values) == old(self)@.analyze_array_elements(
                *elements,
                element_type,
                fuel as nat,
            ),
            old(self)@.leads_to(final(self)@),
            forall|watch: Watch| #[trigger]
                watched(watch) && old(self)@.is_apart(watch)
                    && !any_mentions(*elements, watch.name)
                    ==> old(self)@.spares(final(self)@, watch),
            forall|scene: Scene| #[trigger]
                final(self)@.admits(scene) && old(self)@.prepared()
                    ==> final(self)@.troubled() || all_sound(values.0, scene),
            final(self)@.troubled() || match values.1 {
                Some(ty) => all_fit(values.0, ty) && (element_type is None || element_type
                    == Some(ty)),
                None => values.0 is Nil && element_type is None,
            },
            final(self)@.troubled() || all_render(*elements, values.0),
        decreases fuel, 4nat, *elements,
    {
        let mut ahead: &List<ast::Expression<'a>> = elements;
        let mut agreed: Option<Type> = element_type;
        let mut done: Vec<Expression<'a>> = Vec::new();
        loop
            invariant
                old(self)@.analyze_array_elements(*elements, element_type, fuel as nat) == {
                    let (state, (rest, last)) = self@.analyze_array_elements(
                        *ahead,
                        agreed,
                        fuel as nat,
                    );
                    (state, (prepended(done@, rest), last))
                },
                old(self)@.leads_to(self@),
                forall|watch: Watch| #[trigger]
                    watched(watch) && old(self)@.is_apart(watch)
                        && !any_mentions(*elements, watch.name)
                        ==> old(self)@.spares(self@, watch),
                forall|watch: Watch| #[trigger]
                    watched(watch) && !any_mentions(*elements, watch.name)
                        ==> !any_mentions(*ahead, watch.name),
                forall|scene: Scene| #[trigger]
                    self@.admits(scene) && old(self)@.prepared()
                        ==> self@.troubled() || all_sound(
                        prepended(done@, List::Nil),
                        scene,
                    ),
                self@.troubled() || match agreed {
                    Some(ty) => front_fits(done@, ty) && (element_type is None || element_type
                        == Some(ty)),
                    None => element_type is None && forall|rest: List<Expression<'a>>| #[trigger]
                        prepended(done@, rest) == rest,
                },
                self@.troubled() || forall|rest: List<Expression<'a>>|
                    all_render(*ahead, rest) ==> all_render(*elements, #[trigger] prepended(done@, rest)),
            decreases *ahead,
        {
            reveal(all_fit);
            match ahead {
                List::Nil => {
                    return (prepend(done, List::Nil), agreed);
                },
                List::Cons(node) => {
                    let (first, next) = self.analyze_array_element(&node.head, agreed, fuel);
                    let ghost before = done@;
                    extend_expressions(&mut done, &first);
                    proof {
                        reveal_with_fuel(spec_joined_expressions, 3);
                        if !self@.troubled() {
                            assert forall|rest: List<Expression<'a>>|
                                all_render(node.tail, rest) implies all_render(
                                *elements,
                                #[trigger] prepended(done@, rest),
                            ) by {
                                assert(first == single(first.first()) ==> spec_joined_expressions(
                                    first,
                                    rest,
                                ) == cons(first.first(), rest));
                                assert(prepended(done@, rest) == prepended(
                                    before,
                                    spec_joined_expressions(first, rest),
                                ));
                            }
                        }
                        if !self@.troubled() && next is Some {
                            assert forall|rest: List<Expression<'a>>|
                                all_fit(rest, next->0) implies #[trigger] all_fit(
                                prepended(done@, rest),
                                next->0,
                            ) by {
                                joined_fit(first, rest, next->0);
                                assert(prepended(done@, rest) == prepended(
                                    before,
                                    spec_joined_expressions(first, rest),
                                ));
                            }
                        }
                    }
                    agreed = next;
                    ahead = &node.tail;
                },
            }
        }
    }

    /// The values that an element of an array gives, and their type.
    pub(crate) fn analyze_array_element(
        &mut self,
        element: &ast::Expression<'a>,
        element_type: Option<Type>,
        fuel: u32,
    ) -> (values: (List<Expression<'a>>, Option<Type>))
        ensures
            (final(self)@, values) == old(self)@.analyze_array_element(
                *element,
                element_type,
                fuel as nat,
            ),
            old(self)@.leads_to(final(self)@),
            forall|watch: Watch| #[trigger]
                watched(watch) && old(self)@.is_apart(watch) && !mentions(*element, watch.name)
                    ==> old(self)@.spares(final(self)@, watch),
            forall|scene: Scene| #[trigger]
                final(self)@.admits(scene) && old(self)@.prepared()
                    ==> final(self)@.troubled() || all_sound(values.0, scene),
            final(self)@.troubled() || match values.1 {
                Some(ty) => all_fit(values.0, ty) && (element_type is None || element_type
                    == Some(ty)),
                None => values.0 is Nil && element_type is None,
            },
            final(self)@.troubled() || *element.kind is PackExpansion || (values.0 == single(
                values.0.first(),
            ) && renders(*element, values.0.first())),
        decreases fuel, 3nat, List::<Type>::Nil,
    {
        reveal(all_fit);
        match &*element.kind {
            ast::ExpressionKind::PackExpansion { pack, template } => match self.pack_types(
                pack.name,
            ) {
                None => {
                    self.report(
                        error("E6021", words3("unknown type pack `", pack.name, "`"), pack.span),
                    );
                    (List::Nil, element_type)
                },
                Some(types) => self.analyze_array_pack(
                    template,
                    pack.name,
                    &types,
                    element_type,
                    fuel,
                ),
            },
            _ => {
                let value = self.analyze_expression_expected(element, element_type, fuel);
                let element_type = self.join_element_type(element_type, value.ty, value.span);
                proof {
                    assert(all_fit(List::<Expression<'a>>::Nil, value.ty));
                    if !self@.troubled() {
                        assert(all_fit(List::<Expression<'a>>::Nil, element_type->0));
                        assert(all_fit(single(value), element_type->0));
                    }
                }
                (single(value), element_type)
            },
        }
    }

    /// The type of array elements, with one more element.
    pub(crate) fn join_element_type(
        &mut self,
        element_type: Option<Type>,
        actual: Type,
        span: Span,
    ) -> (ty: Option<Type>)
        ensures
            (final(self)@, ty) == old(self)@.join_element_type(element_type, actual, span),
            old(self)@.leads_to(final(self)@),
            old(self)@.stays(final(self)@),
            final(self)@.troubled() || (ty is Some && ty->0.accepts(actual)),
            element_type is Some ==> ty == element_type,
    {
        reveal(State::join_element_type);
        match element_type {
            Some(expected) => {
                self.require_type(expected, actual, span, "array element");
                element_type
            },
            None => Some(actual),
        }
    }

    /// The values that a template gives for the types of a pack, and their type.
    pub(crate) fn analyze_array_pack(
        &mut self,
        template: &ast::Expression<'a>,
        name: &'a str,
        types: &List<Type>,
        element_type: Option<Type>,
        fuel: u32,
    ) -> (values: (List<Expression<'a>>, Option<Type>))
        ensures
            (final(self)@, values) == old(self)@.analyze_array_pack(
                *template,
                name,
                *types,
                element_type,
                fuel as nat,
            ),
            old(self)@.leads_to(final(self)@),
            forall|watch: Watch| #[trigger]
                watched(watch) && old(self)@.is_apart(watch) && !mentions(*template, watch.name)
                    ==> old(self)@.spares(final(self)@, watch),
            forall|scene: Scene| #[trigger]
                final(self)@.admits(scene) && old(self)@.prepared()
                    ==> final(self)@.troubled() || all_sound(values.0, scene),
            final(self)@.troubled() || match values.1 {
                Some(ty) => all_fit(values.0, ty) && (element_type is None || element_type
                    == Some(ty)),
                None => values.0 is Nil && element_type is None,
            },
        decreases fuel, 2nat, *types,
    {
        let mut ahead: &List<Type> = types;
        let mut agreed: Option<Type> = element_type;
        let mut done: Vec<Expression<'a>> = Vec::new();
        loop
            invariant
                old(self)@.analyze_array_pack(*template, name, *types, element_type, fuel as nat) == {
                    let (state, (rest, last)) = self@.analyze_array_pack(
                        *template,
                        name,
                        *ahead,
                        agreed,
                        fuel as nat,
                    );
                    (state, (prepended(done@, rest), last))
                },
                old(self)@.leads_to(self@),
                forall|watch: Watch| #[trigger]
                    watched(watch) && old(self)@.is_apart(watch)
                        && !mentions(*template, watch.name)
                        ==> old(self)@.spares(self@, watch),
                forall|scene: Scene| #[trigger]
                    self@.admits(scene) && old(self)@.prepared()
                        ==> self@.troubled() || all_sound(
                        prepended(done@, List::Nil),
                        scene,
                    ),
                self@.troubled() || match agreed {
                    Some(ty) => front_fits(done@, ty) && (element_type is None || element_type
                        == Some(ty)),
                    None => done@.len() == 0 && element_type is None,
                },
            decreases *ahead,
        {
            reveal(all_fit);
            match ahead {
                List::Nil => {
                    return (prepend(done, List::Nil), agreed);
                },
                List::Cons(node) => {
                    let value = self.analyze_template(template, name, node.head, agreed, fuel);
                    let next = self.join_element_type(agreed, value.ty, value.span);
                    proof {
                        if !self@.troubled() {
                            pushed_front_fits(done@, value, next->0);
                        }
                    }
                    agreed = next;
                    done.push(value);
                    ahead = &node.tail;
                },
            }
        }
    }

    /// An array of one repeated value.
    pub(crate) fn analyze_array_repeat(
        &mut self,
        value: &ast::Expression<'a>,
        length: &ast::Expression<'a>,
        span: Span,
        expected: Option<Type>,
        fuel: u32,
    ) -> (analyzed: Expression<'a>)
        ensures
            (final(self)@, analyzed) == old(self)@.analyze_array_repeat(
                *value,
                *length,
                span,
                expected,
                fuel as nat,
            ),
            old(self)@.leads_to(final(self)@),
            forall|watch: Watch| #[trigger]
                watched(watch) && old(self)@.is_apart(watch) && !mentions(*value, watch.name)
                    && !mentions(*length, watch.name)
                    ==> old(self)@.spares(final(self)@, watch),
            forall|scene: Scene| #[trigger]
                final(self)@.admits(scene) && old(self)@.prepared()
                    ==> final(self)@.troubled() || sound(analyzed, scene),
            final(self)@.troubled() || form_renders(
                ast::ExpressionKind::ArrayRepeat { value: *value, length: *length },
                analyzed,
            ),
        decreases fuel, 1nat, List::<Type>::Nil,
    {
        let length = self.repeated_length(length);
        let shape = self.expected_array(expected);
        self.require_repeated_length(shape, length, span);
        let element = match shape {
            Some((element, _)) => Some(element),
            None => None,
        };
        let value = self.analyze_expression_expected(value, element, fuel);
        let ty = self.repeated_type(element, value.ty, value.span, length, expected, span);
        typed(ExpressionKind::ArrayRepeat { value, length }, ty, span)
    }

    /// How often a value is repeated.
    pub(crate) fn repeated_length(&mut self, length: &ast::Expression<'a>) -> (value: u64)
        ensures
            (final(self)@, value) == old(self)@.repeated_length(*length),
            old(self)@.leads_to(final(self)@),
            old(self)@.stays(final(self)@),
    {
        reveal(State::repeated_length);
        match self.array_length(length) {
            Some(length) => length,
            None => 0,
        }
    }

    /// A value must be repeated as often as is expected.
    pub(crate) fn require_repeated_length(
        &mut self,
        shape: Option<(Type, u64)>,
        length: u64,
        span: Span,
    )
        ensures
            final(self)@ == old(self)@.require_repeated_length(shape, length, span),
            old(self)@.leads_to(final(self)@),
            old(self)@.stays(final(self)@),
    {
        reveal(State::require_repeated_length);
        match shape {
            Some((_, expected)) => if expected != length {
                self.report(
                    error(
                        "E3116",
                        part_count(
                            "array requires ",
                            expected,
                            " element(s), found repeated length ",
                            length,
                        ),
                        span,
                    ),
                );
            },
            None => {
            },
        }
    }

    /// The type of an array of one repeated value.
    pub(crate) fn repeated_type(
        &mut self,
        element: Option<Type>,
        actual: Type,
        value_span: Span,
        length: u64,
        expected: Option<Type>,
        span: Span,
    ) -> (ty: Type)
        ensures
            (final(self)@, ty) == old(self)@.repeated_type(
                element,
                actual,
                value_span,
                length,
                expected,
                span,
            ),
            old(self)@.leads_to(final(self)@),
            old(self)@.stays(final(self)@),
    {
        reveal(State::repeated_type);
        self.require_expected(element, actual, value_span, "repeated array element");
        if !self.types.satisfies_trait(actual, "Copy") {
            self.report(
                helped(
                    "E3164",
                    frame(
                        "repeated array element type `",
                        &actual.text(),
                        "` does not satisfy `Copy`",
                    ),
                    "use an explicit element list or make the element type satisfy `Copy`",
                    value_span,
                ),
            );
        }
        self.array_type(expected, actual, length, span)
    }

    /// The struct that a name stands for where a type is expected.
    pub(crate) fn structure_type(&self, name: &str, expected: Option<Type>) -> (ty: Option<Type>)
        ensures
            ty == self@.structure_type(name, expected),
    {
        reveal(State::structure_type);
        let named = match self.named_type(name) {
            Some(ty) => if is_struct_type(ty) {
                Some(ty)
            } else {
                None
            },
            None => None,
        };
        match named {
            Some(ty) => Some(ty),
            None => match expected {
                Some(expected) => if is_struct_type(expected)
                    && self.is_instance_of(expected, name) {
                    Some(expected)
                } else {
                    None
                },
                None => None,
            },
        }
    }

    /// A struct, or a variant with named payload.
    pub(crate) fn analyze_struct(
        &mut self,
        path: &Path<'a>,
        fields: &List<FieldInitializer<'a>>,
        span: Span,
        expected: Option<Type>,
        fuel: u32,
    ) -> (analyzed: Expression<'a>)
        ensures
            (final(self)@, analyzed) == old(self)@.analyze_struct(
                *path,
                *fields,
                span,
                expected,
                fuel as nat,
            ),
            old(self)@.leads_to(final(self)@),
            forall|watch: Watch| #[trigger]
                watched(watch) && old(self)@.is_apart(watch)
                    && !initializers_mention(*fields, watch.name)
                    ==> old(self)@.spares(final(self)@, watch),
            forall|scene: Scene| #[trigger]
                final(self)@.admits(scene) && old(self)@.prepared()
                    ==> final(self)@.troubled() || sound(analyzed, scene),
            final(self)@.troubled() || match *analyzed.kind {
                ExpressionKind::Struct(values) => fields_fit(
                    values,
                    old(self)@.struct_fields(analyzed.ty),
                ),
                _ => true,
            },
            final(self)@.troubled() || form_renders(
                ast::ExpressionKind::Struct { path: *path, fields: *fields },
                analyzed,
            ),
        decreases fuel, 5nat, List::<Type>::Nil,
    {
        match single_path_name(path) {
            Some(name) => match self.structure_type(name, expected) {
                None => {
                    self.report(
                        error(
                            "E3118",
                            frame("`", &path.display(), "` is not a struct type"),
                            path.span,
                        ),
                    );
                    invalid_composite_expression(span)
                },
                Some(ty) => {
                    let declared = self.struct_fields(ty);
                    self.reject_external_private_construction(ty, &declared, path.span);
                    let values = self.analyze_named_fields(fields, &declared, fuel);
                    proof {
                        if !self@.troubled() {
                            declared_fields_are_given(*fields, declared, values);
                        }
                    }
                    typed(ExpressionKind::Struct(values), ty, span)
                },
            },
            None => match path_pair(path) {
                Some((owner, variant)) => self.analyze_variant_struct(
                    path,
                    owner,
                    variant,
                    fields,
                    span,
                    fuel,
                ),
                None => {
                    self.report(
                        error(
                            "E3118",
                            words(
                                "aggregate construction requires a local type or enum variant path",
                            ),
                            path.span,
                        ),
                    );
                    invalid_composite_expression(span)
                },
            },
        }
    }

    /// The position and the fields of a variant with named payload.
    pub(crate) fn struct_variant(
        &self,
        ty: Type,
        name: &str,
    ) -> (variant: Option<(u32, List<TypeField<'a>>)>)
        ensures
            variant == self@.struct_variant(ty, name),
    {
        reveal(State::struct_variant);
        match self.enum_variant(ty, name) {
            Some((variant, EnumVariantFields::Struct(fields))) => Some((variant, fields)),
            _ => None,
        }
    }

    /// A variant with named payload.
    pub(crate) fn analyze_variant_struct(
        &mut self,
        path: &Path<'a>,
        owner: Identifier<'a>,
        name: Identifier<'a>,
        fields: &List<FieldInitializer<'a>>,
        span: Span,
        fuel: u32,
    ) -> (analyzed: Expression<'a>)
        ensures
            (final(self)@, analyzed) == old(self)@.analyze_variant_struct(
                *path,
                owner,
                name,
                *fields,
                span,
                fuel as nat,
            ),
            old(self)@.leads_to(final(self)@),
            forall|watch: Watch| #[trigger]
                watched(watch) && old(self)@.is_apart(watch)
                    && !initializers_mention(*fields, watch.name)
                    ==> old(self)@.spares(final(self)@, watch),
            forall|scene: Scene| #[trigger]
                final(self)@.admits(scene) && old(self)@.prepared()
                    ==> final(self)@.troubled() || sound(analyzed, scene),
            final(self)@.troubled() || match *analyzed.kind {
                ExpressionKind::Enum { variant, fields: values } => {
                    match old(self)@.struct_variant(analyzed.ty, name.name) {
                        Some((position, declared)) => position == variant && fields_fit(
                            values,
                            declared,
                        ),
                        None => false,
                    }
                },
                _ => false,
            },
            final(self)@.troubled() || form_renders(
                ast::ExpressionKind::Struct { path: *path, fields: *fields },
                analyzed,
            ),
        decreases fuel, 4nat, List::<Type>::Nil,
    {
        match self.named_enum(owner.name) {
            None => {
                self.report(
                    error("E3118", words3("`", owner.name, "` is not an enum type"), owner.span),
                );
                invalid_composite_expression(span)
            },
            Some(ty) => match self.struct_variant(ty, name.name) {
                None => {
                    self.report(
                        error(
                            "E3119",
                            frame("`", &path.display(), "` is not a struct-like enum variant"),
                            path.span,
                        ),
                    );
                    invalid_composite_expression(span)
                },
                Some((variant, declared)) => {
                    self.reject_external_private_construction(ty, &declared, path.span);
                    let values = self.analyze_named_fields(fields, &declared, fuel);
                    proof {
                        if !self@.troubled() {
                            declared_fields_are_given(*fields, declared, values);
                        }
                    }
                    typed(ExpressionKind::Enum { variant, fields: values }, ty, span)
                },
            },
        }
    }

    /// Fields must be initialized once each.
    pub(crate) fn check_repeated_initializers(
        &mut self,
        initializers: &List<FieldInitializer<'a>>,
        seen: List<&'a str>,
    )
        ensures
            final(self)@ == old(self)@.check_repeated_initializers(*initializers, seen),
            old(self)@.leads_to(final(self)@),
            old(self)@.stays(final(self)@),
    {
        let mut ahead: &List<FieldInitializer<'a>> = initializers;
        let mut current_seen: List<&'a str> = seen;
        loop
            invariant
                old(self)@.check_repeated_initializers(
                    *initializers,
                    seen,
                ) == self@.check_repeated_initializers(
                    *ahead,
                    current_seen,
                ),
                old(self)@.leads_to(self@),
                old(self)@.stays(self@),
            decreases *ahead,
        {
            reveal(State::check_repeated_initializers);
            match ahead {
                List::Nil => {
                    return ;
                },
                List::Cons(node) => {
                    if is_listed(&current_seen, node.head.name.name) {
                        self.report(
                            error(
                                "E3120",
                                words3(
                                    "field `",
                                    node.head.name.name,
                                    "` is initialized more than once",
                                ),
                                node.head.name.span,
                            ),
                        );
                    }
                    current_seen = cons(node.head.name.name, current_seen);
                    ahead = &node.tail;
                },
            }
        }
    }

    /// Only declared fields can be initialized.
    pub(crate) fn check_unknown_initializers(
        &mut self,
        initializers: &List<FieldInitializer<'a>>,
        declared: &List<TypeField<'a>>,
    )
        ensures
            final(self)@ == old(self)@.check_unknown_initializers(*initializers, *declared),
            old(self)@.leads_to(final(self)@),
            old(self)@.stays(final(self)@),
    {
        let mut ahead: &List<FieldInitializer<'a>> = initializers;
        loop
            invariant
                old(self)@.check_unknown_initializers(
                    *initializers,
                    *declared,
                ) == self@.check_unknown_initializers(
                    *ahead,
                    *declared,
                ),
                old(self)@.leads_to(self@),
                old(self)@.stays(self@),
            decreases *ahead,
        {
            reveal(State::check_unknown_initializers);
            match ahead {
                List::Nil => {
                    return ;
                },
                List::Cons(node) => {
                    if !has_field(declared, node.head.name.name) {
                        self.report(
                            error(
                                "E3121",
                                words3("unknown field `", node.head.name.name, "`"),
                                node.head.name.span,
                            ),
                        );
                    }
                    ahead = &node.tail;
                },
            }
        }
    }

    /// The values of declared fields, in their order.
    pub(crate) fn analyze_named_fields(
        &mut self,
        initializers: &List<FieldInitializer<'a>>,
        declared: &List<TypeField<'a>>,
        fuel: u32,
    ) -> (values: List<Expression<'a>>)
        ensures
            (final(self)@, values) == old(self)@.analyze_named_fields(
                *initializers,
                *declared,
                fuel as nat,
            ),
            old(self)@.leads_to(final(self)@),
            forall|watch: Watch| #[trigger]
                watched(watch) && old(self)@.is_apart(watch)
                    && !initializers_mention(*initializers, watch.name)
                    ==> old(self)@.spares(final(self)@, watch),
            forall|scene: Scene| #[trigger]
                final(self)@.admits(scene) && old(self)@.prepared()
                    ==> final(self)@.troubled() || all_sound(values, scene),
            final(self)@.troubled() || fields_fit(values, *declared),
            final(self)@.troubled() || fields_render(*initializers, *declared, values),
        decreases fuel, 3nat, List::<Type>::Nil,
    {
        self.check_repeated_initializers(initializers, List::Nil);
        self.check_unknown_initializers(initializers, declared);
        self.analyze_field_values(initializers, declared, fuel)
    }

    /// The values of declared fields.
    pub(crate) fn analyze_field_values(
        &mut self,
        initializers: &List<FieldInitializer<'a>>,
        declared: &List<TypeField<'a>>,
        fuel: u32,
    ) -> (values: List<Expression<'a>>)
        ensures
            (final(self)@, values) == old(self)@.analyze_field_values(
                *initializers,
                *declared,
                fuel as nat,
            ),
            old(self)@.leads_to(final(self)@),
            forall|watch: Watch| #[trigger]
                watched(watch) && old(self)@.is_apart(watch)
                    && !initializers_mention(*initializers, watch.name)
                    ==> old(self)@.spares(final(self)@, watch),
            forall|scene: Scene| #[trigger]
                final(self)@.admits(scene) && old(self)@.prepared()
                    ==> final(self)@.troubled() || all_sound(values, scene),
            final(self)@.troubled() || fields_fit(values, *declared),
            final(self)@.troubled() || fields_render(*initializers, *declared, values),
        decreases fuel, 2nat, *declared,
    {
        let mut ahead: &List<TypeField<'a>> = declared;
        let mut done: Vec<Expression<'a>> = Vec::new();
        loop
            invariant
                old(self)@.analyze_field_values(
                                *initializers,
                                *declared,
                                fuel as nat,
                            ) == {
                    let (state, rest) = self@.analyze_field_values(
                                *initializers,
                                *ahead,
                                fuel as nat,
                            );
                    (state, prepended(done@, rest))
                },
                old(self)@.leads_to(self@),
                forall|watch: Watch| #[trigger]
                    watched(watch) && old(self)@.is_apart(watch)
                        && !initializers_mention(*initializers, watch.name)
                        ==> old(self)@.spares(self@, watch),
                forall|scene: Scene| #[trigger]
                    self@.admits(scene) && old(self)@.prepared()
                    ==> self@.troubled() || all_sound(prepended(done@, List::Nil), scene),
                self@.troubled() || forall|rest: List<Expression<'a>>|
                    fields_fit(rest, *ahead) ==> #[trigger] fields_fit(
                        prepended(done@, rest),
                        *declared,
                    ),
                self@.troubled() || forall|rest: List<Expression<'a>>|
                    fields_render(*initializers, *ahead, rest) ==> fields_render(
                        *initializers,
                        *declared,
                        #[trigger] prepended(done@, rest),
                    ),
            decreases *ahead,
        {
            reveal(fields_fit);
            reveal(fields_render);
            match ahead {
                List::Nil => {
                    return prepend(done, List::Nil);
                },
                List::Cons(node) => {
                    let first = self.analyze_field_value(initializers, node.head, fuel);
                    let ghost before = done@;
                    done.push(first);
                    proof {
                        assert forall|rest: List<Expression<'a>>|
                            !self@.troubled() && fields_fit(rest, node.tail) implies #[trigger] fields_fit(
                            prepended(done@, rest),
                            *declared,
                        ) by {
                            assert(fields_fit(cons(first, rest), *ahead));
                            assert(prepended(done@, rest) == prepended(before, cons(first, rest)));
                        }
                    }
                    proof {
                        if !self@.troubled() {
                            assert forall|rest: List<Expression<'a>>|
                                fields_render(*initializers, node.tail, rest) implies fields_render(
                                *initializers,
                                *declared,
                                #[trigger] prepended(done@, rest),
                            ) by {
                                assert(fields_render(*initializers, *ahead, cons(first, rest)));
                                assert(prepended(done@, rest) == prepended(
                                    before,
                                    cons(first, rest),
                                ));
                            }
                        }
                    }
                    ahead = &node.tail;
                },
            }
        }
    }

    /// The value of a declared field.
    pub(crate) fn analyze_field_value(
        &mut self,
        initializers: &List<FieldInitializer<'a>>,
        field: TypeField<'a>,
        fuel: u32,
    ) -> (value: Expression<'a>)
        ensures
            (final(self)@, value) == old(self)@.analyze_field_value(
                *initializers,
                field,
                fuel as nat,
            ),
            old(self)@.leads_to(final(self)@),
            forall|watch: Watch| #[trigger]
                watched(watch) && old(self)@.is_apart(watch)
                    && !initializers_mention(*initializers, watch.name)
                    ==> old(self)@.spares(final(self)@, watch),
            forall|scene: Scene| #[trigger]
                final(self)@.admits(scene) && old(self)@.prepared()
                    ==> final(self)@.troubled() || sound(value, scene),
            final(self)@.troubled() || field.ty.accepts(value.ty),
            final(self)@.troubled() || gives(*initializers, field.name@, value),
        decreases fuel, 1nat, List::<Type>::Nil,
    {
        match find_initializer(initializers, field.name) {
            None => {
                self.report(
                    error(
                        "E3122",
                        words3("missing initializer for field `", field.name, "`"),
                        field.span,
                    ),
                );
                typed(ExpressionKind::Unit, field.ty, field.span)
            },
            Some(initializer) => {
                let value = self.analyze_expression_expected(&initializer, Some(field.ty), fuel);
                self.require_type(field.ty, value.ty, value.span, "field initializer");
                value
            },
        }
    }

    /// A value, or what it refers to where it is a reference.
    pub(crate) fn dereferenced(&self, base: Expression<'a>, span: Span) -> (value: Expression<'a>)
        ensures
            value == self@.dereferenced(base, span),
            forall|scene: Scene| #[trigger]
                self@.admits(scene) && self@.prepared() && sound(base, scene)
                    ==> sound(value, scene),
            forall|source: ast::Expression<'a>|
                renders(source, base) ==> #[trigger] base_renders(source, value),
    {
        reveal(State::dereferenced);
        proof {
            assert forall|source: ast::Expression<'a>| #[trigger] renders(source, base) implies form_renders(
                *source.kind,
                base,
            ) by {
                renders_by_form(source, base);
            }
        }
        match self.types.pointer_shape(base.ty) {
            Some((target, _, false)) => typed(ExpressionKind::Dereference(base), target, span),
            _ => base,
        }
    }

    /// Access to a field.
    pub(crate) fn analyze_field(
        &mut self,
        field: &FieldExpression<'a>,
        fuel: u32,
    ) -> (analyzed: Expression<'a>)
        ensures
            (final(self)@, analyzed) == old(self)@.analyze_field(*field, fuel as nat),
            old(self)@.leads_to(final(self)@),
            forall|watch: Watch| #[trigger]
                watched(watch) && old(self)@.is_apart(watch)
                    && !field_mentions(*field, watch.name)
                    ==> old(self)@.spares(final(self)@, watch),
            forall|scene: Scene| #[trigger]
                final(self)@.admits(scene) && old(self)@.prepared()
                    ==> final(self)@.troubled() || sound(analyzed, scene),
            final(self)@.troubled() || form_renders(
                ast::ExpressionKind::Field(*field),
                analyzed,
            ),
        decreases fuel, 2nat, List::<Type>::Nil,
    {
        self.enter_field_base();
        let base = self.analyze_expression_non_consuming(&field.base, fuel);
        self.leave_field_base();
        let base = self.dereferenced(base, field.base.span);
        self.select_field(base, field)
    }

    /// A field of a value.
    pub(crate) fn select_field(
        &mut self,
        base: Expression<'a>,
        field: &FieldExpression<'a>,
    ) -> (analyzed: Expression<'a>)
        ensures
            (final(self)@, analyzed) == old(self)@.select_field(base, *field),
            old(self)@.leads_to(final(self)@),
            forall|watch: Watch| #[trigger]
                watched(watch) && old(self)@.is_apart(watch)
                    && !field_mentions(*field, watch.name)
                    ==> old(self)@.spares(final(self)@, watch),
            forall|scene: Scene| #[trigger]
                final(self)@.admits(scene) && old(self)@.prepared() && sound(base, scene)
                    ==> final(self)@.troubled() || sound(analyzed, scene),
            base_renders(field.base, base) ==> final(self)@.troubled() || form_renders(
                ast::ExpressionKind::Field(*field),
                analyzed,
            ),
    {
        reveal(State::select_field);
        match self.selected_field(base.ty, &field.field) {
            None => {
                self.report(
                    error("E3123", words("field does not exist on this value"), field.span),
                );
                invalid_composite_expression(field.span)
            },
            Some((position, ty, is_public)) => {
                if !is_public && self.type_is_external(base.ty) {
                    self.report(
                        helped(
                            "E4005",
                            words("field is private to its defining module"),
                            "access it through a public method or function",
                            field.span,
                        ),
                    );
                }
                self.use_field(field, ty);
                typed(ExpressionKind::Field { base, field: position }, ty, field.span)
            },
        }
    }

    /// A field is read or consumed, unless it is the base of another field.
    pub(crate) fn use_field(&mut self, field: &FieldExpression<'a>, ty: Type)
        ensures
            final(self)@ == old(self)@.use_field(*field, ty),
            old(self)@.leads_to(final(self)@),
            forall|watch: Watch| #[trigger]
                watched(watch) && old(self)@.is_apart(watch)
                    && !field_mentions(*field, watch.name)
                    ==> old(self)@.spares(final(self)@, watch),
    {
        reveal(State::use_field);
        if self.frame.field_base_depth == 0 {
            match self.moved_field_from_field(field) {
                None => {
                },
                Some(place) => if self.frame.consuming_value {
                    self.consume_field(&place, ty, field.span);
                } else {
                    self.require_field_available(
                        &place,
                        field.span,
                        self.frame.place_availability == PlaceAvailability::AllowReinitialization,
                    );
                },
            }
        }
    }

    /// Whether access by index goes through a method.
    pub(crate) fn supports_index_method(
        &self,
        base: &ast::Expression<'a>,
        method: &'a str,
    ) -> (answer: bool)
        ensures
            answer == self@.supports_index_method(*base, method),
    {
        reveal(State::supports_index_method);
        match self.place_expression_type(base) {
            Some(ty) => self.has_method(ty, method),
            None => false,
        }
    }

    /// Access by index.
    pub(crate) fn analyze_index(
        &mut self,
        index: &IndexExpression<'a>,
        fuel: u32,
    ) -> (analyzed: Expression<'a>)
        ensures
            (final(self)@, analyzed) == old(self)@.analyze_index(*index, fuel as nat),
            old(self)@.leads_to(final(self)@),
            forall|watch: Watch| #[trigger]
                watched(watch) && old(self)@.is_apart(watch)
                    && !index_mentions(*index, watch.name)
                    ==> old(self)@.spares(final(self)@, watch),
            forall|scene: Scene| #[trigger]
                final(self)@.admits(scene) && old(self)@.prepared()
                    ==> final(self)@.troubled() || sound(analyzed, scene),
            final(self)@.troubled() || old(self)@.supports_index_method(index.base, "index")
                || selects(*index, analyzed),
        decreases fuel, 16nat, List::<Type>::Nil,
    {
        if self.supports_index_method(&index.base, "index") {
            return self.analyze_index_method_call(index, "index", &None, fuel);
        }
        let base = self.analyze_expression_non_consuming(&index.base, fuel);
        match self.indexed_element(base.ty) {
            None => {
                self.report(
                    error(
                        "E3124",
                        words("indexing requires an array, array reference, or slice"),
                        index.base.span,
                    ),
                );
                invalid_composite_expression(index.span)
            },
            Some(element) => self.analyze_element(base, element, index, fuel),
        }
    }

    /// An element of an array or a slice.
    pub(crate) fn analyze_element(
        &mut self,
        base: Expression<'a>,
        element: Type,
        index: &IndexExpression<'a>,
        fuel: u32,
    ) -> (analyzed: Expression<'a>)
        ensures
            (final(self)@, analyzed) == old(self)@.analyze_element(
                base,
                element,
                *index,
                fuel as nat,
            ),
            old(self)@.leads_to(final(self)@),
            forall|watch: Watch| #[trigger]
                watched(watch) && old(self)@.is_apart(watch)
                    && !index_mentions(*index, watch.name)
                    ==> old(self)@.spares(final(self)@, watch),
            forall|scene: Scene| #[trigger]
                final(self)@.admits(scene) && old(self)@.prepared() && sound(base, scene)
                    ==> final(self)@.troubled() || sound(analyzed, scene),
            renders(index.base, base) ==> final(self)@.troubled() || selects(*index, analyzed),
        decreases fuel, 1nat, List::<Type>::Nil,
    {
        self.require_one_index(index);
        match &index.indices {
            List::Nil => invalid_composite_expression(index.span),
            List::Cons(node) => {
                let position = self.analyze_expression_expected(
                    &node.head,
                    Some(Type::Usize),
                    fuel,
                );
                self.require_type(Type::Usize, position.ty, position.span, "array index");
                self.consume_element(index, element);
                typed(ExpressionKind::Index { base, index: position }, element, index.span)
            },
        }
    }

    /// An array takes one index.
    pub(crate) fn require_one_index(&mut self, index: &IndexExpression<'a>)
        ensures
            final(self)@ == old(self)@.require_one_index(*index),
            old(self)@.leads_to(final(self)@),
            old(self)@.stays(final(self)@),
            final(self)@.troubled() || (index.indices is Cons && index.indices.rest() is Nil),
    {
        reveal(State::require_one_index);
        proof {
            if index.indices is Cons {
                counts_are_lengths(index.indices.rest());
            }
        }
        if index.indices.count() != 1 {
            self.report(
                error("E3125", words("array indexing requires exactly one index"), index.span),
            );
        }
    }

    /// An element is consumed.
    pub(crate) fn consume_element(&mut self, index: &IndexExpression<'a>, element: Type)
        ensures
            final(self)@ == old(self)@.consume_element(*index, element),
            old(self)@.leads_to(final(self)@),
            forall|watch: Watch| #[trigger]
                watched(watch) && old(self)@.is_apart(watch)
                    && !index_mentions(*index, watch.name)
                    ==> old(self)@.spares(final(self)@, watch),
    {
        reveal(State::consume_element);
        if self.frame.consuming_value {
            self.consume_expression_root(&index.base, element, index.span);
        }
    }

    /// Access by index through a method.
    pub(crate) fn analyze_index_method_call(
        &mut self,
        index: &IndexExpression<'a>,
        method: &'a str,
        value: &Option<ast::Expression<'a>>,
        fuel: u32,
    ) -> (analyzed: Expression<'a>)
        ensures
            (final(self)@, analyzed) == old(self)@.analyze_index_method_call(
                *index,
                method,
                *value,
                fuel as nat,
            ),
            old(self)@.leads_to(final(self)@),
            forall|watch: Watch| #[trigger]
                watched(watch) && old(self)@.is_apart(watch)
                    && !index_mentions(*index, watch.name)
                    && !optional_mentions(*value, watch.name)
                    ==> old(self)@.spares(final(self)@, watch),
            forall|scene: Scene| #[trigger]
                final(self)@.admits(scene) && old(self)@.prepared()
                    ==> final(self)@.troubled() || sound(analyzed, scene),
        decreases fuel, 15nat, List::<Type>::Nil,
    {
        let call = index_call(index, method, value);
        let field = index_method(index, method);
        assert forall|watch: Watch| #[trigger]
            watched(watch) && !index_mentions(*index, watch.name) && !optional_mentions(
                *value,
                watch.name,
            ) implies !call_mentions(call, watch.name) && !field_mentions(field, watch.name) by {
            index_calls_mention(*index, method, *value, watch.name);
        }
        self.analyze_method_call(&call, &field, None, fuel)
    }

    /// An expression with a unary operator.
    pub(crate) fn analyze_unary(
        &mut self,
        operator: ast::UnaryOperator,
        operand: &ast::Expression<'a>,
        span: Span,
        expected: Option<Type>,
        fuel: u32,
    ) -> (analyzed: Expression<'a>)
        ensures
            (final(self)@, analyzed) == old(self)@.analyze_unary(
                operator,
                *operand,
                span,
                expected,
                fuel as nat,
            ),
            old(self)@.leads_to(final(self)@),
            forall|watch: Watch| #[trigger]
                watched(watch) && old(self)@.is_apart(watch) && !mentions(*operand, watch.name)
                    ==> old(self)@.spares(final(self)@, watch),
            forall|scene: Scene| #[trigger]
                final(self)@.admits(scene) && old(self)@.prepared()
                    ==> final(self)@.troubled() || sound(analyzed, scene),
            final(self)@.troubled() || form_renders(
                ast::ExpressionKind::Unary { operator, operand: *operand },
                analyzed,
            ),
        decreases fuel, 5nat, List::<Type>::Nil,
    {
        match operator {
            ast::UnaryOperator::Borrow => self.analyze_borrow(false, operand, span, expected, fuel),
            ast::UnaryOperator::BorrowMut => self.analyze_borrow(
                true,
                operand,
                span,
                expected,
                fuel,
            ),
            ast::UnaryOperator::Dereference => self.analyze_dereference(operand, span, fuel),
            ast::UnaryOperator::Negate => match self.analyze_negated_literal(
                operand,
                span,
                expected,
            ) {
                Some(literal) => literal,
                None => {
                    let value = self.analyze_expression_expected(operand, expected, fuel);
                    self.apply_unary(UnaryOperator::Negate, value, span)
                },
            },
            ast::UnaryOperator::Not => {
                let value = self.analyze_expression_expected(operand, expected, fuel);
                self.apply_unary(UnaryOperator::Not, value, span)
            },
        }
    }

    /// The negation of an integer literal at the edge of its type: the smallest
    /// value is written without a sign.
    pub(crate) fn analyze_negated_literal(
        &mut self,
        operand: &ast::Expression<'a>,
        span: Span,
        expected: Option<Type>,
    ) -> (analyzed: Option<Expression<'a>>)
        ensures
            (final(self)@, analyzed) == old(self)@.analyze_negated_literal(
                *operand,
                span,
                expected,
            ),
            old(self)@.leads_to(final(self)@),
            old(self)@.stays(final(self)@),
            forall|scene: Scene| #[trigger]
                final(self)@.admits(scene) && old(self)@.prepared()
                    ==> final(self)@.troubled() || sound_if_any(analyzed, scene),
            final(self)@.troubled() || match analyzed {
                Some(value) => form_renders(
                    ast::ExpressionKind::Unary {
                        operator: ast::UnaryOperator::Negate,
                        operand: *operand,
                    },
                    value,
                ),
                None => true,
            },
    {
        reveal(State::analyze_negated_literal);
        match &*operand.kind {
            ast::ExpressionKind::Integer(value) => {
                let ty = match expected {
                    Some(expected) => if expected.is_signed_integer() {
                        expected
                    } else {
                        Type::I32
                    },
                    None => Type::I32,
                };
                let magnitude: u128 = integer_minimum_magnitude(ty);
                if *value == magnitude {
                    Some(typed(ExpressionKind::Integer(magnitude), ty, span))
                } else if *value > magnitude {
                    self.report(
                        advised(
                            "E3104",
                            frame("negative integer literal does not fit in `", &ty.text(), "`"),
                            frame("use a magnitude no greater than ", &number(magnitude), ""),
                            span,
                        ),
                    );
                    Some(typed(ExpressionKind::Integer(0), ty, span))
                } else {
                    None
                }
            },
            _ => None,
        }
    }

    /// A unary operator applied to a value.
    pub(crate) fn apply_unary(
        &mut self,
        operator: UnaryOperator,
        operand: Expression<'a>,
        span: Span,
    ) -> (analyzed: Expression<'a>)
        ensures
            (final(self)@, analyzed) == old(self)@.apply_unary(operator, operand, span),
            old(self)@.leads_to(final(self)@),
            old(self)@.stays(final(self)@),
            forall|scene: Scene| #[trigger]
                final(self)@.admits(scene) && old(self)@.prepared() && sound(operand, scene)
                    ==> final(self)@.troubled() || sound(analyzed, scene),
            forall|source: ast::Expression<'a>, written: ast::UnaryOperator|
                renders(source, operand) && ((operator is Negate && written is Negate) || (operator is Not
                    && written is Not)) ==> #[trigger] form_renders(
                    ast::ExpressionKind::Unary { operator: written, operand: source },
                    analyzed,
                ),
    {
        reveal(State::apply_unary);
        let valid = match operator {
            UnaryOperator::Negate => operand.ty.is_signed_integer() || operand.ty.is_float(),
            UnaryOperator::Not => operand.ty == Type::Bool || operand.ty.is_integer(),
        };
        if !valid && operand.ty != Type::Never {
            self.invalid_operator("unary", operand.ty, span);
        }
        let ty = operand.ty;
        typed(ExpressionKind::Unary { operator, operand }, ty, span)
    }

    /// A borrow.
    pub(crate) fn analyze_borrow(
        &mut self,
        mutable: bool,
        operand: &ast::Expression<'a>,
        span: Span,
        expected: Option<Type>,
        fuel: u32,
    ) -> (analyzed: Expression<'a>)
        ensures
            (final(self)@, analyzed) == old(self)@.analyze_borrow(
                mutable,
                *operand,
                span,
                expected,
                fuel as nat,
            ),
            old(self)@.leads_to(final(self)@),
            forall|watch: Watch| #[trigger]
                watched(watch) && old(self)@.is_apart(watch) && !mentions(*operand, watch.name)
                    ==> old(self)@.spares(final(self)@, watch),
            forall|scene: Scene| #[trigger]
                final(self)@.admits(scene) && old(self)@.prepared()
                    ==> final(self)@.troubled() || sound(analyzed, scene),
            final(self)@.troubled() || form_renders(
                ast::ExpressionKind::Unary {
                    operator: if mutable {
                        ast::UnaryOperator::BorrowMut
                    } else {
                        ast::UnaryOperator::Borrow
                    },
                    operand: *operand,
                },
                analyzed,
            ),
        decreases fuel, 4nat, List::<Type>::Nil,
    {
        match self.analyze_place(operand, fuel) {
            None => invalid_composite_expression(span),
            Some(place) => {
                self.require_expression_root_available(operand, span);
                self.require_borrowable(mutable, operand, fuel);
                self.check_and_record_borrow(operand, mutable, span);
                self.borrow_place(place, mutable, span, expected)
            },
        }
    }

    /// What is borrowed mutably must be mutable.
    pub(crate) fn require_borrowable(
        &mut self,
        mutable: bool,
        operand: &ast::Expression<'a>,
        fuel: u32,
    )
        ensures
            final(self)@ == old(self)@.require_borrowable(mutable, *operand, fuel as nat),
            old(self)@.leads_to(final(self)@),
            forall|watch: Watch| #[trigger]
                watched(watch) && old(self)@.is_apart(watch) && !mentions(*operand, watch.name)
                    ==> old(self)@.spares(final(self)@, watch),
        decreases fuel, 3nat, List::<Type>::Nil,
    {
        if mutable {
            self.require_mutable_place(operand, fuel);
        }
    }

    /// The slice that a borrowed array should become: its mutability and length,
    /// and whether the elements and the mutability fit.
    pub(crate) fn borrowed_slice(
        &self,
        ty: Type,
        mutable: bool,
        expected: Option<Type>,
    ) -> (slice: Option<(Type, bool, u64, bool)>)
        ensures
            slice == self@.borrowed_slice(ty, mutable, expected),
    {
        reveal(State::borrowed_slice);
        match expected {
            None => None,
            Some(expected) => match self.types.slice_shape(expected) {
                None => None,
                Some((element, slice_mutable)) => match self.types.array_shape(ty) {
                    None => None,
                    Some((actual, length)) => Some(
                        (
                            expected,
                            slice_mutable,
                            length,
                            element == actual && (mutable || !slice_mutable),
                        ),
                    ),
                },
            },
        }
    }

    /// A borrow of a place.
    pub(crate) fn borrow_place(
        &mut self,
        place: hir::Place<'a>,
        mutable: bool,
        span: Span,
        expected: Option<Type>,
    ) -> (analyzed: Expression<'a>)
        ensures
            (final(self)@, analyzed) == old(self)@.borrow_place(place, mutable, span, expected),
            old(self)@.leads_to(final(self)@),
            old(self)@.stays(final(self)@),
            forall|scene: Scene| #[trigger]
                final(self)@.admits(scene) && old(self)@.prepared() && sound_place(place, scene)
                    ==> final(self)@.troubled() || sound(analyzed, scene),
            match *analyzed.kind {
                ExpressionKind::Borrow { place: borrowed, mutable: changeable, slice_length } => borrowed
                    == place && (slice_length is None ==> changeable == mutable) && (
                final(self)@.troubled() || (changeable ==> mutable)),
                _ => false,
            },
    {
        reveal(State::borrow_place);
        reveal(State::borrowed_slice);
        match self.borrowed_slice(place.ty, mutable, expected) {
            Some((ty, slice_mutable, length, fits)) => {
                if !fits {
                    self.type_mismatch(ty, place.ty, span, "slice borrow");
                }
                typed(
                    ExpressionKind::Borrow {
                        place,
                        mutable: slice_mutable,
                        slice_length: Some(length),
                    },
                    ty,
                    span,
                )
            },
            None => {
                let interned = self.intern_reference(place.ty, mutable, span);
                let ty = match interned {
                    Some(ty) => ty,
                    None => Type::Unit,
                };
                self.require_expected(expected, ty, span, "borrow expression");
                typed(ExpressionKind::Borrow { place, mutable, slice_length: None }, ty, span)
            },
        }
    }

    /// What a reference or a pointer leads to.
    pub(crate) fn analyze_dereference(
        &mut self,
        operand: &ast::Expression<'a>,
        span: Span,
        fuel: u32,
    ) -> (analyzed: Expression<'a>)
        ensures
            (final(self)@, analyzed) == old(self)@.analyze_dereference(*operand, span, fuel as nat),
            old(self)@.leads_to(final(self)@),
            forall|watch: Watch| #[trigger]
                watched(watch) && old(self)@.is_apart(watch) && !mentions(*operand, watch.name)
                    ==> old(self)@.spares(final(self)@, watch),
            forall|scene: Scene| #[trigger]
                final(self)@.admits(scene) && old(self)@.prepared()
                    ==> final(self)@.troubled() || sound(analyzed, scene),
            final(self)@.troubled() || form_renders(
                ast::ExpressionKind::Unary {
                    operator: ast::UnaryOperator::Dereference,
                    operand: *operand,
                },
                analyzed,
            ),
        decreases fuel, 2nat, List::<Type>::Nil,
    {
        let pointer = self.analyze_expression_non_consuming(operand, fuel);
        self.dereference(pointer, span)
    }

    /// What a pointer leads to. A raw one must stand in `unsafe`.
    pub(crate) fn dereference(
        &mut self,
        pointer: Expression<'a>,
        span: Span,
    ) -> (analyzed: Expression<'a>)
        ensures
            (final(self)@, analyzed) == old(self)@.dereference(pointer, span),
            old(self)@.leads_to(final(self)@),
            old(self)@.stays(final(self)@),
            forall|scene: Scene| #[trigger]
                final(self)@.admits(scene) && old(self)@.prepared() && sound(pointer, scene)
                    ==> final(self)@.troubled() || sound(analyzed, scene),
            final(self)@.troubled() || *analyzed.kind == ExpressionKind::Dereference(pointer),
    {
        reveal(State::dereference);
        match self.pointer_shape(pointer.ty) {
            None => {
                self.report(
                    error("E3135", frame("cannot dereference `", &pointer.ty.text(), "`"), span),
                );
                invalid_composite_expression(span)
            },
            Some((target, _, is_raw)) => {
                if is_raw && self.frame.unsafe_depth == 0 {
                    self.report(
                        helped(
                            "E3136",
                            words("raw pointers can only be dereferenced inside `unsafe`"),
                            "wrap the operation in `unsafe { ... }`",
                            span,
                        ),
                    );
                }
                if self.frame.consuming_value && !self.types.is_copy(target) {
                    self.report(
                        helped(
                            "E3144",
                            words("cannot move an owned value through a reference or raw pointer"),
                            "borrow the pointee or move its owning local instead",
                            span,
                        ),
                    );
                }
                typed(ExpressionKind::Dereference(pointer), target, span)
            },
        }
    }

    /// An expression with a binary operator.
    pub(crate) fn analyze_binary(
        &mut self,
        operator: ast::BinaryOperator,
        left: &ast::Expression<'a>,
        right: &ast::Expression<'a>,
        span: Span,
        expected: Option<Type>,
        fuel: u32,
    ) -> (analyzed: Expression<'a>)
        ensures
            (final(self)@, analyzed) == old(self)@.analyze_binary(
                operator,
                *left,
                *right,
                span,
                expected,
                fuel as nat,
            ),
            old(self)@.leads_to(final(self)@),
            forall|watch: Watch| #[trigger]
                watched(watch) && old(self)@.is_apart(watch) && !mentions(*left, watch.name)
                    && !mentions(*right, watch.name)
                    ==> old(self)@.spares(final(self)@, watch),
            forall|scene: Scene| #[trigger]
                final(self)@.admits(scene) && old(self)@.prepared()
                    ==> final(self)@.troubled() || sound(analyzed, scene),
            final(self)@.troubled() || form_renders(
                ast::ExpressionKind::Binary { operator, left: *left, right: *right },
                analyzed,
            ),
        decreases fuel, 1nat, List::<Type>::Nil,
    {
        let preferred = if is_logical(operator) {
            Some(Type::Bool)
        } else {
            expected
        };
        let first = self.analyze_expression_expected(left, preferred, fuel);
        let second = self.analyze_expression_expected(right, Some(first.ty), fuel);
        self.apply_binary(operator, first, second, right.span, span)
    }

    /// Whether an operator is defined for a type, and the type of its result.
    pub(crate) fn binary_result(&self, operator: BinaryOperator, ty: Type) -> (result: (bool, Type))
        ensures
            result == self@.binary_result(operator, ty),
    {
        reveal(State::binary_result);
        match operator {
            BinaryOperator::Add => (ty.is_numeric(), ty),
            BinaryOperator::Subtract => (ty.is_numeric(), ty),
            BinaryOperator::Multiply => (ty.is_numeric(), ty),
            BinaryOperator::Divide => (ty.is_numeric(), ty),
            BinaryOperator::Remainder => (ty.is_integer(), ty),
            BinaryOperator::BitAnd => (ty.is_integer(), ty),
            BinaryOperator::BitXor => (ty.is_integer(), ty),
            BinaryOperator::BitOr => (ty.is_integer(), ty),
            BinaryOperator::ShiftLeft => (ty.is_integer(), ty),
            BinaryOperator::ShiftRight => (ty.is_integer(), ty),
            BinaryOperator::Equal => (self.types.satisfies_trait(ty, "Eq"), Type::Bool),
            BinaryOperator::NotEqual => (self.types.satisfies_trait(ty, "Eq"), Type::Bool),
            BinaryOperator::Less => (is_ordered_type(ty), Type::Bool),
            BinaryOperator::LessEqual => (is_ordered_type(ty), Type::Bool),
            BinaryOperator::Greater => (is_ordered_type(ty), Type::Bool),
            BinaryOperator::GreaterEqual => (is_ordered_type(ty), Type::Bool),
            BinaryOperator::And => (ty == Type::Bool, Type::Bool),
            BinaryOperator::Or => (ty == Type::Bool, Type::Bool),
        }
    }

    /// A binary operator applied to values.
    pub(crate) fn apply_binary(
        &mut self,
        operator: ast::BinaryOperator,
        left: Expression<'a>,
        right: Expression<'a>,
        right_span: Span,
        span: Span,
    ) -> (analyzed: Expression<'a>)
        ensures
            (final(self)@, analyzed) == old(self)@.apply_binary(
                operator,
                left,
                right,
                right_span,
                span,
            ),
            old(self)@.leads_to(final(self)@),
            old(self)@.stays(final(self)@),
            forall|scene: Scene| #[trigger]
                final(self)@.admits(scene) && old(self)@.prepared() && sound(left, scene)
                    && sound(right, scene)
                    ==> final(self)@.troubled() || sound(analyzed, scene),
            forall|first: ast::Expression<'a>, second: ast::Expression<'a>|
                renders(first, left) && renders(second, right) ==> #[trigger] form_renders(
                    ast::ExpressionKind::Binary { operator, left: first, right: second },
                    analyzed,
                ),
    {
        reveal(State::apply_binary);
        if left.ty != right.ty && left.ty != Type::Never && right.ty != Type::Never {
            self.type_mismatch(left.ty, right.ty, right_span, "binary operands");
        }
        let operator = typed_operator(operator);
        proof {
            operators_are_typed(self@, operator, left.ty);
        }
        let (valid, ty) = self.binary_result(operator, left.ty);
        if !valid && left.ty != Type::Never {
            self.invalid_operator("binary", left.ty, span);
        }
        typed(ExpressionKind::Binary { operator, left, right }, ty, span)
    }

    /// The same moves, to go back to.
    pub(crate) fn current_moves(&self) -> (moves: Moves<'a>)
        ensures
            moves == self@.current_moves(),
            moves.locals == self@.frame.moved_locals,
    {
        reveal(State::current_moves);
        Moves { locals: self.frame.moved_locals.share(), fields: self.frame.moved_fields.share() }
    }

    /// What had been moved is moved again, and nothing else.
    pub(crate) fn restore_moves(&mut self, moves: &Moves<'a>)
        ensures
            final(self)@ == old(self)@.restore_moves(*moves),
            old(self)@.leads_to(final(self)@),
            old(self)@.takes_moves(moves.locals, final(self)@),
    {
        reveal(State::restore_moves);
        self.set_moves(moves.locals.share(), moves.fields.share());
    }

    /// What has been moved in one of two branches.
    pub(crate) fn merge_moves(&mut self, moves: &Moves<'a>)
        ensures
            final(self)@ == old(self)@.merge_moves(*moves),
            old(self)@.leads_to(final(self)@),
            old(self)@.adds_moves(moves.locals, final(self)@),
    {
        assert(self@.adds_moves(moves.locals, self@.merge_moves(*moves))) by {
            reveal(State::merge_moves);
            reveal(State::adds_moves);
            assert forall|local: LocalId| #[trigger]
                spec_find_known(
                    spec_joined_known(self.frame.moved_locals, moves.locals),
                    local,
                ) == match spec_find_known(self.frame.moved_locals, local) {
                    Some(value) => Some(value),
                    None => spec_find_known(moves.locals, local),
                } by {
                joined_is_found(self.frame.moved_locals, moves.locals, local);
            }
        }
        reveal(State::merge_moves);
        reveal(State::leads_to);
        self.frame.moved_locals = joined_known(&self.frame.moved_locals, moves.locals.share());
        self.frame.moved_fields = joined_field_moves(
            &self.frame.moved_fields,
            moves.fields.share(),
        );
    }

    /// An `if`.
    pub(crate) fn analyze_if(
        &mut self,
        condition: &ast::Expression<'a>,
        then_branch: &ast::Block<'a>,
        else_branch: &Option<ast::Expression<'a>>,
        span: Span,
        expected: Option<Type>,
        fuel: u32,
    ) -> (analyzed: Expression<'a>)
        ensures
            (final(self)@, analyzed) == old(self)@.analyze_if(
                *condition,
                *then_branch,
                *else_branch,
                span,
                expected,
                fuel as nat,
            ),
            old(self)@.leads_to(final(self)@),
            forall|watch: Watch| #[trigger]
                watched(watch) && old(self)@.is_apart(watch) && !mentions(*condition, watch.name)
                    && !block_mentions(*then_branch, watch.name)
                    && !optional_mentions(*else_branch, watch.name)
                    ==> old(self)@.spares(final(self)@, watch),
            forall|scene: Scene| #[trigger]
                final(self)@.admits(scene) && old(self)@.prepared()
                    ==> final(self)@.troubled() || sound(analyzed, scene),
            final(self)@.troubled() || form_renders(
                ast::ExpressionKind::If {
                    condition: *condition,
                    then_branch: *then_branch,
                    else_branch: *else_branch,
                },
                analyzed,
            ),
        decreases fuel, 2nat, List::<Type>::Nil,
    {
        let test = self.analyze_expression_expected(condition, Some(Type::Bool), fuel);
        self.require_type(Type::Bool, test.ty, condition.span, "if condition");
        let before = self.current_moves();
        let first = self.analyze_block(then_branch, expected, fuel);
        let after_first = self.current_moves();
        self.restore_moves(&before);
        let second = self.analyze_optional(else_branch, expected, fuel);
        self.merge_moves(&after_first);
        self.join_branches(test, first, second, span)
    }

    /// An `if` of its parts.
    pub(crate) fn join_branches(
        &mut self,
        condition: Expression<'a>,
        then_branch: hir::Block<'a>,
        else_branch: Option<Expression<'a>>,
        span: Span,
    ) -> (analyzed: Expression<'a>)
        ensures
            (final(self)@, analyzed) == old(self)@.join_branches(
                condition,
                then_branch,
                else_branch,
                span,
            ),
            old(self)@.leads_to(final(self)@),
            old(self)@.stays(final(self)@),
            forall|scene: Scene| #[trigger]
                final(self)@.admits(scene) && old(self)@.prepared() && sound(condition, scene)
                    && Type::Bool.accepts(condition.ty) && sound_block(then_branch, scene)
                    && sound_if_any(else_branch, scene)
                    ==> final(self)@.troubled() || sound(analyzed, scene),
            *analyzed.kind == (ExpressionKind::If { condition, then_branch, else_branch }),
    {
        reveal(State::join_branches);
        match else_branch {
            Some(other) => {
                let ty = self.unify_branch_types(then_branch.ty, other.ty, span);
                typed(
                    ExpressionKind::If { condition, then_branch, else_branch: Some(other) },
                    ty,
                    span,
                )
            },
            None => {
                self.require_type(
                    Type::Unit,
                    then_branch.ty,
                    then_branch.span,
                    "`if` branch without `else`",
                );
                typed(
                    ExpressionKind::If { condition, then_branch, else_branch: None },
                    Type::Unit,
                    span,
                )
            },
        }
    }

    /// A `match`.
    pub(crate) fn analyze_match(
        &mut self,
        scrutinee: &ast::Expression<'a>,
        arms: &List<ast::MatchArm<'a>>,
        span: Span,
        expected: Option<Type>,
        fuel: u32,
    ) -> (analyzed: Expression<'a>)
        ensures
            (final(self)@, analyzed) == old(self)@.analyze_match(
                *scrutinee,
                *arms,
                span,
                expected,
                fuel as nat,
            ),
            old(self)@.leads_to(final(self)@),
            forall|watch: Watch| #[trigger]
                watched(watch) && old(self)@.is_apart(watch) && !mentions(*scrutinee, watch.name)
                    && !arms_mention(*arms, watch.name)
                    ==> old(self)@.spares(final(self)@, watch),
            forall|scene: Scene| #[trigger]
                final(self)@.admits(scene) && old(self)@.prepared()
                    ==> final(self)@.troubled() || sound(analyzed, scene),
            final(self)@.troubled() || form_renders(
                ast::ExpressionKind::Match { scrutinee: *scrutinee, arms: *arms },
                analyzed,
            ),
        decreases fuel, 4nat, List::<Type>::Nil,
    {
        let root = self.scoped_source_local(scrutinee);
        let value = self.analyze_expression_expected(scrutinee, None, fuel);
        let before = self.current_moves();
        let (analyzed_arms, result_type) = self.analyze_arms(
            arms,
            value.ty,
            root,
            expected,
            &before,
            None,
            fuel,
        );
        self.validate_match_coverage(value.ty, &analyzed_arms, span);
        let ty = match result_type {
            Some(ty) => ty,
            None => Type::Never,
        };
        typed(ExpressionKind::Match { scrutinee: value, arms: analyzed_arms }, ty, span)
    }

    /// The arms of a `match`, each from the moves before all of them, and the type
    /// of their values.
    pub(crate) fn analyze_arms(
        &mut self,
        arms: &List<ast::MatchArm<'a>>,
        ty: Type,
        root: Option<LocalId>,
        expected: Option<Type>,
        before: &Moves<'a>,
        result_type: Option<Type>,
        fuel: u32,
    ) -> (analyzed: (List<MatchArm<'a>>, Option<Type>))
        ensures
            (final(self)@, analyzed) == old(self)@.analyze_arms(
                *arms,
                ty,
                root,
                expected,
                *before,
                result_type,
                fuel as nat,
            ),
            old(self)@.leads_to(final(self)@),
            forall|watch: Watch| #[trigger]
                watched(watch) && old(self)@.is_apart(watch) && !arms_mention(*arms, watch.name)
                    && spec_find_known(before.locals, watch.local) == spec_find_known(
                    old(self)@.frame.moved_locals,
                    watch.local,
                ) ==> old(self)@.spares(final(self)@, watch),
            forall|scene: Scene| #[trigger]
                final(self)@.admits(scene) && old(self)@.prepared()
                    ==> final(self)@.troubled() || sound_arms(analyzed.0, scene),
            final(self)@.troubled() || match analyzed.1 {
                Some(ty) => arms_yield(analyzed.0, ty) && (result_type is None || ty.accepts(
                    result_type->0,
                )),
                None => analyzed.0 is Nil && result_type is None,
            },
            final(self)@.troubled() || arms_render(*arms, analyzed.0),
        decreases fuel, 3nat, *arms,
    {
        let mut ahead: &List<ast::MatchArm<'a>> = arms;
        let mut agreed: Option<Type> = result_type;
        let mut done: Vec<MatchArm<'a>> = Vec::new();
        loop
            invariant
                old(self)@.analyze_arms(
                    *arms,
                    ty,
                    root,
                    expected,
                    *before,
                    result_type,
                    fuel as nat,
                ) == {
                    let (state, (rest, last)) = self@.analyze_arms(
                        *ahead,
                        ty,
                        root,
                        expected,
                        *before,
                        agreed,
                        fuel as nat,
                    );
                    (state, (prepended(done@, rest), last))
                },
                old(self)@.leads_to(self@),
                forall|watch: Watch| #[trigger]
                    watched(watch) && old(self)@.is_apart(watch)
                        && !arms_mention(*arms, watch.name) && spec_find_known(
                        before.locals,
                        watch.local,
                    ) == spec_find_known(old(self)@.frame.moved_locals, watch.local)
                        ==> old(self)@.spares(self@, watch),
                forall|watch: Watch| #[trigger]
                    watched(watch) && !arms_mention(*arms, watch.name)
                        ==> !arms_mention(*ahead, watch.name),
                forall|scene: Scene| #[trigger]
                    self@.admits(scene) && old(self)@.prepared()
                        ==> self@.troubled() || sound_arms(
                        prepended(done@, List::Nil),
                        scene,
                    ),
                self@.troubled() || match agreed {
                    Some(ty) => arms_yield(prepended(done@, List::Nil), ty) && (result_type is None
                        || ty.accepts(result_type->0)),
                    None => done@.len() == 0 && result_type is None,
                },
                self@.troubled() || forall|rest: List<MatchArm<'a>>|
                    arms_render(*ahead, rest) ==> arms_render(*arms, #[trigger] prepended(done@, rest)),
            decreases *ahead,
        {
            match ahead {
                List::Nil => {
                    return (prepend(done, List::Nil), agreed);
                },
                List::Cons(node) => {
                    let after = self.current_moves();
                    self.restore_moves(before);
                    let (first, next) = self.analyze_arm(
                        &node.head,
                        ty,
                        root,
                        expected,
                        agreed,
                        fuel,
                    );
                    proof {
                        if agreed is Some && next is Some && next->0.accepts(agreed->0) && arms_yield(
                            prepended(done@, List::Nil),
                            agreed->0,
                        ) {
                            wider_types_are_yielded(
                                prepended(done@, List::Nil),
                                agreed->0,
                                next->0,
                            );
                        }
                    }
                    self.merge_moves(&after);
                    done.push(first);
                    agreed = next;
                    ahead = &node.tail;
                },
            }
        }
    }

    /// An arm of a `match`.
    pub(crate) fn analyze_arm(
        &mut self,
        arm: &ast::MatchArm<'a>,
        ty: Type,
        root: Option<LocalId>,
        expected: Option<Type>,
        result_type: Option<Type>,
        fuel: u32,
    ) -> (analyzed: (MatchArm<'a>, Option<Type>))
        ensures
            (final(self)@, analyzed) == old(self)@.analyze_arm(
                *arm,
                ty,
                root,
                expected,
                result_type,
                fuel as nat,
            ),
            old(self)@.leads_to(final(self)@),
            forall|watch: Watch| #[trigger]
                watched(watch) && old(self)@.is_apart(watch) && !arm_mentions(*arm, watch.name)
                    ==> old(self)@.spares(final(self)@, watch),
            forall|scene: Scene| #[trigger]
                final(self)@.admits(scene) && old(self)@.prepared()
                    ==> final(self)@.troubled() || sound_arm(analyzed.0, scene),
            final(self)@.troubled() || is_joined(analyzed.1, result_type, analyzed.0.body.ty),
            final(self)@.troubled() || arm_renders(*arm, analyzed.0),
        decreases fuel, 2nat, List::<Type>::Nil,
    {
        self.push_scope();
        let pattern = self.analyze_arm_pattern(&arm.pattern, ty, root);
        let guard = self.analyze_guard(&arm.guard, fuel);
        let body = self.analyze_expression_expected(&arm.body, expected, fuel);
        let result_type = self.join_result_type(result_type, body.ty, arm.span);
        self.pop_scope();
        (MatchArm { pattern, guard, body, span: arm.span }, result_type)
    }

    /// The pattern of an arm.
    pub(crate) fn analyze_arm_pattern(
        &mut self,
        pattern: &ast::Pattern<'a>,
        ty: Type,
        root: Option<LocalId>,
    ) -> (analyzed: hir::Pattern<'a>)
        ensures
            (final(self)@, analyzed) == old(self)@.analyze_arm_pattern(*pattern, ty, root),
            old(self)@.leads_to(final(self)@),
            forall|watch: Watch| #[trigger]
                watched(watch) && old(self)@.is_apart(watch)
                    && !pattern_mentions(*pattern, watch.name)
                    ==> old(self)@.spares(final(self)@, watch),
            final(self)@.troubled() || pattern_renders(*pattern, analyzed),
    {
        reveal(State::analyze_arm_pattern);
        let analyzed = self.analyze_pattern(pattern, ty);
        match root {
            Some(root) => {
                self.record_pattern_scoped_roots(&analyzed, root);
                analyzed
            },
            None => analyzed,
        }
    }

    /// The guard of an arm.
    pub(crate) fn analyze_guard(
        &mut self,
        guard: &Option<ast::Expression<'a>>,
        fuel: u32,
    ) -> (analyzed: Option<Expression<'a>>)
        ensures
            (final(self)@, analyzed) == old(self)@.analyze_guard(*guard, fuel as nat),
            old(self)@.leads_to(final(self)@),
            forall|watch: Watch| #[trigger]
                watched(watch) && old(self)@.is_apart(watch)
                    && !optional_mentions(*guard, watch.name)
                    ==> old(self)@.spares(final(self)@, watch),
            forall|scene: Scene| #[trigger]
                final(self)@.admits(scene) && old(self)@.prepared()
                    ==> final(self)@.troubled() || sound_if_any(analyzed, scene),
            final(self)@.troubled() || match analyzed {
                Some(guard) => Type::Bool.accepts(guard.ty),
                None => true,
            },
            final(self)@.troubled() || optional_renders(*guard, analyzed),
        decreases fuel, 1nat, List::<Type>::Nil,
    {
        match guard {
            None => None,
            Some(guard) => {
                let analyzed = self.analyze_expression_expected(guard, Some(Type::Bool), fuel);
                self.require_type(Type::Bool, analyzed.ty, analyzed.span, "match guard");
                Some(analyzed)
            },
        }
    }

    /// The type of the values of arms, with one more arm.
    pub(crate) fn join_result_type(
        &mut self,
        result_type: Option<Type>,
        ty: Type,
        span: Span,
    ) -> (joined: Option<Type>)
        ensures
            (final(self)@, joined) == old(self)@.join_result_type(result_type, ty, span),
            old(self)@.leads_to(final(self)@),
            old(self)@.stays(final(self)@),
            final(self)@.troubled() || is_joined(joined, result_type, ty),
    {
        reveal(State::join_result_type);
        match result_type {
            None => Some(ty),
            Some(previous) => {
                let joined = self.unify_branch_types(previous, ty, span);
                Some(joined)
            },
        }
    }

    /// The type of the values that the innermost loop is left with.
    pub(crate) fn loop_type(&self) -> (ty: Type)
        ensures
            ty == self@.loop_type(),
    {
        reveal(State::loop_type);
        match self.innermost_loop() {
            Some(context) => match context.break_type {
                Some(ty) => ty,
                None => Type::Never,
            },
            None => Type::Never,
        }
    }

    /// A `loop`.
    pub(crate) fn analyze_loop(
        &mut self,
        body: &ast::Block<'a>,
        span: Span,
        expected: Option<Type>,
        fuel: u32,
    ) -> (analyzed: Expression<'a>)
        ensures
            (final(self)@, analyzed) == old(self)@.analyze_loop(*body, span, expected, fuel as nat),
            old(self)@.leads_to(final(self)@),
            forall|watch: Watch| #[trigger]
                watched(watch) && old(self)@.is_apart(watch) && !block_mentions(*body, watch.name)
                    ==> old(self)@.spares(final(self)@, watch),
            forall|scene: Scene| #[trigger]
                final(self)@.admits(scene) && old(self)@.prepared()
                    ==> final(self)@.troubled() || sound(analyzed, scene),
            final(self)@.troubled() || form_renders(
                ast::ExpressionKind::Loop(*body),
                analyzed,
            ),
        decreases fuel, 1nat, List::<Type>::Nil,
    {
        self.push_loop(LoopKind::Expression, expected);
        let body = self.analyze_block(body, None, fuel);
        let ty = self.loop_type();
        self.pop_loop();
        typed(ExpressionKind::Loop(body), ty, span)
    }
}

} // verus!

//! Calls of methods.

use crate::analyzer::sparing::{watched, Watch};
use crate::mention::{
    any_mentions, call_mentions, field_mentions, fragment_mentions, fragments_mention, mentions,
};
use crate::analyzer::{Analyzer, Borrow, GenericFunctionTemplate, Signature, State};
use crate::analyzer::calls::{first_type, rest_types, spec_first_type, spec_rest_types};
use crate::ast::{
    self, CallExpression, FieldExpression, FieldName, FormattedStringFragment, Identifier, Path,
    TypeName, TypeNameKind,
};
use crate::hir::{
    self, invalid_composite_expression, typed, Expression, ExpressionKind, IntegerAdditionMode,
};
use crate::list::{cons, prepend, prepended, prepended_if_any, single, List};
use crate::numbers::string_format_method;
use crate::registry::IntrinsicType;
use crate::registry::capability::STANDARD_STRING_TYPE;
use crate::registry::naming::{collect_only_types, only_types};
use crate::rendering::{all_render, receives, renders};
use crate::span::{advised, error, helped, Diagnostic, Span};
use crate::syntax::{member, member_symbol};
use crate::text::{characters, frame, framed, reads, same, words, words3, Piece, Text};
use crate::types::Type;
use crate::typing::{
    all_sound, all_sound_if_any, sound, sound_anywhere, sound_expressions_split, sound_if_any,
    sound_place, Scene,
};
use std::rc::Rc;
use vstd::prelude::*;

verus! {

broadcast use {
    crate::analyzer::growth::group_led,
    crate::analyzer::numbering::group_numbered,
    crate::analyzer::sparing::group_spared,
    crate::list::pushed_comes_first,
    crate::registry::growth::group_grown,
    crate::rendering::group_rendered,
    crate::span::group_kept,
    crate::typing::group_sound,
};

/// The trait of values that can be shown.
pub const STANDARD_DISPLAY_TRAIT: &'static str = "__module_3_std_6_string$Display";
/// The function that appends a value that can be shown.
pub const STANDARD_APPEND_DISPLAY: &'static str = "__module_3_std_6_string$append_display";
/// The trait of values that can be shown for debugging.
pub const STANDARD_DEBUG_TRAIT: &'static str = "__module_3_std_6_string$Debug";
/// The function that appends a value that can be shown for debugging.
pub const STANDARD_APPEND_DEBUG: &'static str = "__module_3_std_6_string$append_debug";

/// How a value is shown in a formatted string.
#[derive(Clone, Copy, PartialEq, Eq, Structural, Debug)]
pub enum FormattingMode {
    Display,
    Debug,
}

/// How a receiver becomes the first argument of a method.
#[derive(Clone, Copy, PartialEq, Eq, Structural, Debug)]
pub enum Adjustment {
    /// What the receiver refers to is borrowed.
    Reborrow { mutable: bool },
    /// The receiver is borrowed.
    Borrow { mutable: bool },
    Keep,
}

/// Whether a method borrows elements of a tuple by their types: whether the
/// first is borrowed mutably, and whether there may be several.
#[verifier::opaque]
pub open spec fn spec_tuple_access<'a>(method: &'a str) -> Option<(bool, bool)> {
    if method@ == "get_type"@ {
        Some((false, false))
    } else if method@ == "get_type_mut"@ {
        Some((true, false))
    } else if method@ == "split_type_mut"@ {
        Some((true, true))
    } else {
        None
    }
}

/// Whether a method borrows elements of a tuple by their types: whether the
/// first is borrowed mutably, and whether there may be several.
pub(crate) fn tuple_access<'a>(method: &'a str) -> (access: Option<(bool, bool)>)
    ensures
        access == spec_tuple_access(method),
{
    reveal(spec_tuple_access);
    if same(method, "get_type") {
        Some((false, false))
    } else if same(method, "get_type_mut") {
        Some((true, false))
    } else if same(method, "split_type_mut") {
        Some((true, true))
    } else {
        None
    }
}

/// The first of the expressions.
#[verifier::opaque]
pub open spec fn spec_first_expression<'a>(
    expressions: List<Expression<'a>>,
    span: Span,
) -> Expression<'a> {
    match expressions {
        List::Nil => invalid_composite_expression(span),
        List::Cons(node) => node.head,
    }
}

/// The first of the expressions.
pub(crate) fn first_expression<'a>(
    expressions: &List<Expression<'a>>,
    span: Span,
) -> (first: Expression<'a>)
    ensures
        first == spec_first_expression(*expressions, span),
        forall|scene: Scene| all_sound(*expressions, scene) ==> #[trigger] sound(first, scene),
{
    reveal(spec_first_expression);
    proof {
        if *expressions is Cons {
            sound_expressions_split(*expressions);
        }
    }
    match expressions {
        List::Nil => invalid_composite_expression(span),
        List::Cons(node) => node.head.share(),
    }
}

/// Whether a type is among others.
#[verifier::opaque]
pub open spec fn spec_holds_type(types: List<Type>, ty: Type) -> bool
    decreases types,
{
    match types {
        List::Nil => false,
        List::Cons(node) => node.head == ty || spec_holds_type(node.tail, ty),
    }
}

/// Whether a type is among others.
pub(crate) fn holds_type(types: &List<Type>, ty: Type) -> (answer: bool)
    ensures
        answer == spec_holds_type(*types, ty),
{
    let mut ahead: &List<Type> = types;
    loop
        invariant
            spec_holds_type(*types, ty) == spec_holds_type(*ahead, ty),
        decreases *ahead,
    {
        reveal(spec_holds_type);
        match ahead {
            List::Nil => {
                return false;
            },
            List::Cons(node) => {
                if node.head == ty {
                    return true;
                }
                ahead = &node.tail;
            },
        }
    }
}

/// The position of a type among others.
#[verifier::opaque]
pub open spec fn spec_position_of(types: List<Type>, ty: Type, position: u32) -> Option<u32>
    decreases types,
{
    match types {
        List::Nil => None,
        List::Cons(node) => if node.head == ty {
            Some(position)
        } else {
            spec_position_of(node.tail, ty, position.saturating_add(1))
        },
    }
}

/// The position of a type among others.
pub(crate) fn position_of(types: &List<Type>, ty: Type, position: u32) -> (found: Option<u32>)
    ensures
        found == spec_position_of(*types, ty, position),
{
    let mut ahead: &List<Type> = types;
    let mut current_position: u32 = position;
    loop
        invariant
            spec_position_of(*types, ty, position) == spec_position_of(
                *ahead,
                ty,
                current_position,
            ),
        decreases *ahead,
    {
        reveal(spec_position_of);
        match ahead {
            List::Nil => {
                return None;
            },
            List::Cons(node) => {
                if node.head == ty {
                    return Some(current_position);
                } else {
                    current_position = current_position.saturating_add(1);
                    ahead = &node.tail;
                }
            },
        }
    }
}

/// Whether a type occurs more than once.
#[verifier::opaque]
pub open spec fn spec_occurs_twice(types: List<Type>, ty: Type) -> bool
    decreases types,
{
    match types {
        List::Nil => false,
        List::Cons(node) => if node.head == ty {
            spec_holds_type(node.tail, ty)
        } else {
            spec_occurs_twice(node.tail, ty)
        },
    }
}

/// Whether a type occurs more than once.
pub(crate) fn occurs_twice(types: &List<Type>, ty: Type) -> (answer: bool)
    ensures
        answer == spec_occurs_twice(*types, ty),
{
    let mut ahead: &List<Type> = types;
    loop
        invariant
            spec_occurs_twice(*types, ty) == spec_occurs_twice(*ahead, ty),
        decreases *ahead,
    {
        reveal(spec_occurs_twice);
        match ahead {
            List::Nil => {
                return false;
            },
            List::Cons(node) => {
                if node.head == ty {
                    return holds_type(&node.tail, ty);
                } else {
                    ahead = &node.tail;
                }
            },
        }
    }
}

/// Whether a position is among others.
#[verifier::opaque]
pub open spec fn spec_holds_position(positions: List<u32>, position: u32) -> bool
    decreases positions,
{
    match positions {
        List::Nil => false,
        List::Cons(node) => node.head == position || spec_holds_position(node.tail, position),
    }
}

/// Whether a position is among others.
pub(crate) fn holds_position(positions: &List<u32>, position: u32) -> (answer: bool)
    ensures
        answer == spec_holds_position(*positions, position),
{
    let mut ahead: &List<u32> = positions;
    loop
        invariant
            spec_holds_position(*positions, position) == spec_holds_position(*ahead, position),
        decreases *ahead,
    {
        reveal(spec_holds_position);
        match ahead {
            List::Nil => {
                return false;
            },
            List::Cons(node) => {
                if node.head == position {
                    return true;
                }
                ahead = &node.tail;
            },
        }
    }
}

/// The element of a tuple at a position.
#[verifier::opaque]
pub open spec fn spec_tuple_element<'a>(
    field: FieldExpression<'a>,
    position: u32,
    span: Span,
) -> ast::Expression<'a> {
    ast::Expression {
        kind: Rc::new(
            ast::ExpressionKind::Field(
                FieldExpression {
                    base: field.base,
                    field: FieldName::TupleIndex { index: position, span },
                    span,
                },
            ),
        ),
        span,
    }
}

/// The element of a tuple at a position.
pub(crate) fn tuple_element<'a>(
    field: &FieldExpression<'a>,
    position: u32,
    span: Span,
) -> (element: ast::Expression<'a>)
    ensures
        element == spec_tuple_element(*field, position, span),
        forall|watch: Watch| #[trigger]
            watched(watch) ==> mentions(element, watch.name) == field_mentions(*field, watch.name),
{
    reveal(spec_tuple_element);
    assert forall|watch: Watch| #[trigger] watched(watch) implies mentions(
        spec_tuple_element(*field, position, span),
        watch.name,
    ) == field_mentions(*field, watch.name) by {
        let element = FieldExpression {
            base: field.base,
            field: FieldName::TupleIndex { index: position, span },
            span,
        };
        assert(field_mentions(element, watch.name) == mentions(field.base, watch.name));
    }
    ast::Expression {
        kind: Rc::new(
            ast::ExpressionKind::Field(
                FieldExpression {
                    base: field.base.share(),
                    field: FieldName::TupleIndex { index: position, span },
                    span,
                },
            ),
        ),
        span,
    }
}

/// The one formatted string among arguments, and where it stands.
#[verifier::opaque]
pub open spec fn spec_only_formatted_string<'a>(
    arguments: List<ast::Expression<'a>>,
) -> Option<(List<FormattedStringFragment<'a>>, Span)> {
    match arguments {
        List::Nil => None,
        List::Cons(node) => if node.tail.is_empty() {
            match *node.head.kind {
                ast::ExpressionKind::FormattedString(fragments) => Some(
                    (fragments, node.head.span),
                ),
                _ => None,
            }
        } else {
            None
        },
    }
}

/// The one formatted string among arguments, and where it stands.
pub(crate) fn only_formatted_string<'a>(
    arguments: &List<ast::Expression<'a>>,
) -> (formatted: Option<(List<FormattedStringFragment<'a>>, Span)>)
    ensures
        formatted == spec_only_formatted_string(*arguments),
        forall|watch: Watch| #[trigger]
            watched(watch) && !any_mentions(*arguments, watch.name) ==> match formatted {
                Some((fragments, _)) => !fragments_mention(fragments, watch.name),
                None => true,
            },
{
    reveal(spec_only_formatted_string);
    match arguments {
        List::Nil => None,
        List::Cons(node) => if node.tail.is_empty() {
            assert forall|watch: Watch| #[trigger]
                watched(watch) && !any_mentions(*arguments, watch.name) implies !mentions(
                node.head,
                watch.name,
            ) by {}
            match &*node.head.kind {
                ast::ExpressionKind::FormattedString(fragments) => Some(
                    (fragments.share(), node.head.span),
                ),
                _ => None,
            }
        } else {
            None
        },
    }
}

/// A string literal.
#[verifier::opaque]
pub open spec fn spec_string_literal<'a>(value: &'a str, span: Span) -> ast::Expression<'a> {
    ast::Expression { kind: Rc::new(ast::ExpressionKind::String(value)), span }
}

/// A string literal.
pub(crate) fn string_literal<'a>(value: &'a str, span: Span) -> (literal: ast::Expression<'a>)
    ensures
        literal == spec_string_literal(value, span),
        forall|watch: Watch| #[trigger] watched(watch) ==> !mentions(literal, watch.name),
{
    reveal(spec_string_literal);
    ast::Expression { kind: Rc::new(ast::ExpressionKind::String(value)), span }
}

/// Whether values of a type are appended as they are, and not by reference.
#[verifier::opaque]
pub open spec fn spec_is_plain_value(ty: Type) -> bool {
    ty == Type::Str || ty.is_numeric() || ty == Type::Bool || ty == Type::Char
}

/// Whether values of a type are appended as they are, and not by reference.
pub(crate) fn is_plain_value(ty: Type) -> (answer: bool)
    ensures
        answer == spec_is_plain_value(ty),
{
    reveal(spec_is_plain_value);
    ty == Type::Str || ty.is_numeric() || ty == Type::Bool || ty == Type::Char
}

/// The trait that a value must satisfy to be shown.
#[verifier::opaque]
pub open spec fn spec_formatting_trait<'a>(mode: FormattingMode) -> &'a str {
    match mode {
        FormattingMode::Display => STANDARD_DISPLAY_TRAIT,
        FormattingMode::Debug => STANDARD_DEBUG_TRAIT,
    }
}

/// The trait that a value must satisfy to be shown.
pub(crate) fn formatting_trait<'a>(mode: FormattingMode) -> (name: &'a str)
    ensures
        name == spec_formatting_trait(mode),
{
    reveal(spec_formatting_trait);
    match mode {
        FormattingMode::Display => STANDARD_DISPLAY_TRAIT,
        FormattingMode::Debug => STANDARD_DEBUG_TRAIT,
    }
}

/// The function that appends a value that can be shown.
#[verifier::opaque]
pub open spec fn spec_append_function<'a>(mode: FormattingMode) -> &'a str {
    match mode {
        FormattingMode::Display => STANDARD_APPEND_DISPLAY,
        FormattingMode::Debug => STANDARD_APPEND_DEBUG,
    }
}

/// The function that appends a value that can be shown.
pub(crate) fn append_function<'a>(mode: FormattingMode) -> (name: &'a str)
    ensures
        name == spec_append_function(mode),
{
    reveal(spec_append_function);
    match mode {
        FormattingMode::Display => STANDARD_APPEND_DISPLAY,
        FormattingMode::Debug => STANDARD_APPEND_DEBUG,
    }
}

/// An operand with a unary operator in front.
#[verifier::opaque]
pub open spec fn spec_prefixed<'a>(
    operator: ast::UnaryOperator,
    operand: ast::Expression<'a>,
) -> ast::Expression<'a> {
    ast::Expression {
        kind: Rc::new(ast::ExpressionKind::Unary { operator, operand }),
        span: operand.span,
    }
}

/// An operand with a unary operator in front.
pub(crate) fn prefixed<'a>(
    operator: ast::UnaryOperator,
    operand: &ast::Expression<'a>,
) -> (expression: ast::Expression<'a>)
    ensures
        expression == spec_prefixed(operator, *operand),
        forall|watch: Watch| #[trigger]
            watched(watch) ==> mentions(expression, watch.name) == mentions(*operand, watch.name),
{
    reveal(spec_prefixed);
    ast::Expression {
        kind: Rc::new(ast::ExpressionKind::Unary { operator, operand: operand.share() }),
        span: operand.span,
    }
}

/// The call of a function that appends a value to a string.
#[verifier::opaque]
pub open spec fn spec_append_call<'a>(
    field: FieldExpression<'a>,
    value: ast::Expression<'a>,
    function: &'a str,
) -> CallExpression<'a> {
    let span = Span { start: field.base.span.start, end: value.span.end };
    let path = Path { segments: single(Identifier { name: function, span }), span };
    CallExpression {
        callee: ast::Expression { kind: Rc::new(ast::ExpressionKind::Path(path)), span },
        generic_arguments: List::Nil,
        arguments: cons(
            spec_prefixed(ast::UnaryOperator::BorrowMut, field.base),
            single(spec_prefixed(ast::UnaryOperator::Borrow, value)),
        ),
        span,
    }
}

proof fn append_calls_mention<'a>(
    field: FieldExpression<'a>,
    value: ast::Expression<'a>,
    function: &'a str,
    name: Seq<char>,
)
    requires
        !field_mentions(field, name),
        !mentions(value, name),
        function@ != name,
    ensures
        !call_mentions(spec_append_call(field, value, function), name),
{
    reveal(spec_append_call);
    reveal(spec_prefixed);
    let call = spec_append_call(field, value, function);
    assert(!mentions(call.callee, name));
    let first = call.arguments.first();
    assert(mentions(first, name) == mentions(field.base, name));
    let rest = call.arguments.rest();
    assert(mentions(rest.first(), name) == mentions(value, name));
    assert(!any_mentions(rest.rest(), name));
    assert(any_mentions(rest, name) == (mentions(rest.first(), name) || any_mentions(
        rest.rest(),
        name,
    )));
    assert(any_mentions(call.arguments, name) == (mentions(first, name) || any_mentions(
        rest,
        name,
    )));
}

/// The call of a function that appends a value to a string.
pub(crate) fn append_call<'a>(
    field: &FieldExpression<'a>,
    value: &ast::Expression<'a>,
    function: &'a str,
) -> (call: CallExpression<'a>)
    ensures
        call == spec_append_call(*field, *value, function),
{
    reveal(spec_append_call);
    let span = Span { start: field.base.span.start, end: value.span.end };
    let path = Path { segments: single(Identifier { name: function, span }), span };
    CallExpression {
        callee: ast::Expression { kind: Rc::new(ast::ExpressionKind::Path(path)), span },
        generic_arguments: List::Nil,
        arguments: cons(
            prefixed(ast::UnaryOperator::BorrowMut, &field.base),
            single(prefixed(ast::UnaryOperator::Borrow, value)),
        ),
        span,
    }
}

/// How a method adds integers.
#[verifier::opaque]
pub open spec fn spec_addition_mode<'a>(method: &'a str) -> Option<IntegerAdditionMode> {
    if method@ == "wrapping_add"@ {
        Some(IntegerAdditionMode::Wrapping)
    } else if method@ == "checked_add"@ {
        Some(IntegerAdditionMode::Checked)
    } else if method@ == "saturating_add"@ {
        Some(IntegerAdditionMode::Saturating)
    } else {
        None
    }
}

/// How a method adds integers.
pub(crate) fn addition_mode<'a>(method: &'a str) -> (mode: Option<IntegerAdditionMode>)
    ensures
        mode == spec_addition_mode(method),
{
    reveal(spec_addition_mode);
    if same(method, "wrapping_add") {
        Some(IntegerAdditionMode::Wrapping)
    } else if same(method, "checked_add") {
        Some(IntegerAdditionMode::Checked)
    } else if same(method, "saturating_add") {
        Some(IntegerAdditionMode::Saturating)
    } else {
        None
    }
}

/// The problem of a call with too many or too few arguments.
#[verifier::opaque]
pub open spec fn spec_method_count<'a>(
    receiver: &'a str,
    method: &'a str,
    required: u64,
    found: u64,
) -> Text<'a> {
    cons(
        Piece::Words(receiver),
        cons(
            Piece::Words(" method `"),
            cons(
                Piece::Words(method),
                cons(
                    Piece::Words("` expects "),
                    cons(
                        Piece::Number(required as u128),
                        cons(
                            Piece::Words(" argument(s), but "),
                            cons(Piece::Number(found as u128), words(" were provided")),
                        ),
                    ),
                ),
            ),
        ),
    )
}

/// The problem of a call with too many or too few arguments.
pub(crate) fn method_count<'a>(
    receiver: &'a str,
    method: &'a str,
    required: u64,
    found: u64,
) -> (message: Text<'a>)
    ensures
        message == spec_method_count(receiver, method, required, found),
{
    reveal(spec_method_count);
    cons(
        Piece::Words(receiver),
        cons(
            Piece::Words(" method `"),
            cons(
                Piece::Words(method),
                cons(
                    Piece::Words("` expects "),
                    cons(
                        Piece::Number(required as u128),
                        cons(
                            Piece::Words(" argument(s), but "),
                            cons(Piece::Number(found as u128), words(" were provided")),
                        ),
                    ),
                ),
            ),
        ),
    )
}

/// Whether a method looks at a string as bytes, or else as characters.
#[verifier::opaque]
pub open spec fn spec_string_iteration<'a>(method: &'a str) -> Option<bool> {
    if method@ == "bytes"@ {
        Some(true)
    } else if method@ == "chars"@ {
        Some(false)
    } else {
        None
    }
}

/// Whether a method looks at a string as bytes, or else as characters.
pub(crate) fn string_iteration<'a>(method: &'a str) -> (bytes: Option<bool>)
    ensures
        bytes == spec_string_iteration(method),
{
    reveal(spec_string_iteration);
    if same(method, "bytes") {
        Some(true)
    } else if same(method, "chars") {
        Some(false)
    } else {
        None
    }
}

/// Whether a method borrows an element of a slice mutably.
#[verifier::opaque]
pub open spec fn spec_slice_access<'a>(method: &'a str) -> Option<bool> {
    if method@ == "get"@ {
        Some(false)
    } else if method@ == "get_mut"@ {
        Some(true)
    } else {
        None
    }
}

/// Whether a method borrows an element of a slice mutably.
pub(crate) fn slice_access<'a>(method: &'a str) -> (mutable: Option<bool>)
    ensures
        mutable == spec_slice_access(method),
{
    reveal(spec_slice_access);
    if same(method, "get") {
        Some(false)
    } else if same(method, "get_mut") {
        Some(true)
    } else {
        None
    }
}

/// The call of a generic method as a call of a function.
#[verifier::opaque]
pub open spec fn spec_generic_method_call<'a>(
    call: CallExpression<'a>,
    method: Identifier<'a>,
    receiver: ast::Expression<'a>,
) -> CallExpression<'a> {
    let path = Path { segments: single(method), span: method.span };
    CallExpression {
        callee: ast::Expression {
            kind: Rc::new(ast::ExpressionKind::Path(path)),
            span: method.span,
        },
        generic_arguments: call.generic_arguments,
        arguments: cons(receiver, call.arguments),
        span: call.span,
    }
}

/// The call of a generic method as a call of a function.
pub(crate) fn generic_method_call<'a>(
    call: &CallExpression<'a>,
    method: Identifier<'a>,
    receiver: ast::Expression<'a>,
) -> (function_call: CallExpression<'a>)
    ensures
        function_call == spec_generic_method_call(*call, method, receiver),
        forall|watch: Watch| #[trigger]
            watched(watch) ==> any_mentions(function_call.arguments, watch.name) == (mentions(
                receiver,
                watch.name,
            ) || any_mentions(call.arguments, watch.name)),
{
    reveal(spec_generic_method_call);
    let path = Path { segments: single(method), span: method.span };
    CallExpression {
        callee: ast::Expression {
            kind: Rc::new(ast::ExpressionKind::Path(path)),
            span: method.span,
        },
        generic_arguments: call.generic_arguments.share(),
        arguments: cons(receiver, call.arguments.share()),
        span: call.span,
    }
}

impl<'a> State<'a> {
    /// A problem of a call, whose arguments are still checked.
    pub open spec fn reject_call(
        self,
        problem: Diagnostic<'a>,
        call: CallExpression<'a>,
        fuel: nat,
    ) -> (Self, Expression<'a>)
        decreases fuel, 2nat, List::<Type>::Nil,
    {
        let s = self.report(problem);
        let s = s.analyze_discarded(call.arguments, fuel);
        (s, invalid_composite_expression(call.span))
    }

    /// A call of a method.
    pub open spec fn analyze_method_call(
        self,
        call: CallExpression<'a>,
        field: FieldExpression<'a>,
        expected: Option<Type>,
        fuel: nat,
    ) -> (Self, Expression<'a>)
        decreases fuel, 14nat, List::<Type>::Nil,
    {
        match field.field {
            FieldName::TupleIndex { .. } => (self, invalid_composite_expression(call.span)),
            FieldName::Named(method) => match self.analyze_builtin_method_call(
                call,
                field,
                method,
                expected,
                fuel,
            ) {
                (s, Some(value)) => (s, value),
                (s, None) => s.analyze_declared_method_call(call, field, method, expected, fuel),
            },
        }
    }

    /// A call of a method that a type declares.
    pub open spec fn analyze_declared_method_call(
        self,
        call: CallExpression<'a>,
        field: FieldExpression<'a>,
        method: Identifier<'a>,
        expected: Option<Type>,
        fuel: nat,
    ) -> (Self, Expression<'a>)
        decreases fuel, 8nat, List::<Type>::Nil,
    {
        let place_type = self.place_expression_type(field.base);
        let (s, receiver) = match place_type {
            Some(ty) => (self, Some(ty)),
            None => self.temporary_method_receiver_type(field.base),
        };
        match receiver {
            None => s.reject_call(
                helped(
                    "E6002",
                    words("cannot determine the method receiver type"),
                    "bind the value to a typed local before calling its method",
                    field.base.span,
                ),
                call,
                fuel,
            ),
            Some(receiver) => match s.types.nominal_name(receiver) {
                None => s.reject_call(
                    error(
                        "E6002",
                        framed("type `", receiver.text(), "` has no inherent methods"),
                        field.span,
                    ),
                    call,
                    fuel,
                ),
                Some(owner) => s.analyze_nominal_method_call(
                    call,
                    field,
                    method,
                    place_type.is_some(),
                    receiver,
                    owner,
                    expected,
                    fuel,
                ),
            },
        }
    }

    /// A call of a method of a named type.
    pub open spec fn analyze_nominal_method_call(
        self,
        call: CallExpression<'a>,
        field: FieldExpression<'a>,
        method: Identifier<'a>,
        is_place: bool,
        receiver: Type,
        owner: Text<'a>,
        expected: Option<Type>,
        fuel: nat,
    ) -> (Self, Expression<'a>)
        decreases fuel, 7nat, List::<Type>::Nil,
    {
        let name = member(owner, method.name);
        match self.signature_of(name) {
            Some(signature) => if !is_place && self.takes_pointer(signature) {
                self.reject_call(
                    helped(
                        "E6002",
                        words("borrowed method receiver must be an addressable value"),
                        "bind the value to a local before calling the borrowed method",
                        field.base.span,
                    ),
                    call,
                    fuel,
                )
            } else {
                self.analyze_resolved_method_call(
                    call,
                    field,
                    method,
                    receiver,
                    name,
                    signature,
                    fuel,
                )
            },
            None => match self.try_analyze_generic_method_call(
                call,
                field,
                method,
                receiver,
                name,
                expected,
                fuel,
            ) {
                (s, Some(value)) => (s, value),
                (s, None) => s.analyze_derived_clone(call, field, method, receiver, owner, fuel),
            },
        }
    }

    /// Whether the first parameter is a reference or a pointer.
    #[verifier::opaque]
    pub open spec fn takes_pointer(self, signature: Signature) -> bool {
        match signature.parameter_types {
            List::Nil => false,
            List::Cons(node) => self.types.pointer_shape(node.head).is_some(),
        }
    }

    /// A call of a derived `clone`.
    pub open spec fn analyze_derived_clone(
        self,
        call: CallExpression<'a>,
        field: FieldExpression<'a>,
        method: Identifier<'a>,
        receiver: Type,
        owner: Text<'a>,
        fuel: nat,
    ) -> (Self, Expression<'a>)
        decreases fuel, 3nat, List::<Type>::Nil,
    {
        if method.name@ == "clone"@ && self.types.meets(receiver, "Clone"@) {
            let s = self.validate_derived_clone_call(call);
            let s = s.analyze_discarded(call.arguments, fuel);
            let (s, copied) = s.analyze_expression_non_consuming(field.base, fuel);
            (s, Expression { kind: copied.kind, ty: copied.ty, span: call.span })
        } else {
            self.reject_call(
                error(
                    "E6002",
                    cons(
                        Piece::Words("method `"),
                        cons(
                            Piece::Words(method.name),
                            framed("` does not exist on `", owner, "`"),
                        ),
                    ),
                    method.span,
                ),
                call,
                fuel,
            )
        }
    }

    /// A derived `clone` takes no arguments.
    #[verifier::opaque]
    pub open spec fn validate_derived_clone_call(self, call: CallExpression<'a>) -> Self {
        if !call.arguments.is_empty() || !call.generic_arguments.is_empty() {
            let s = self.report(
                helped(
                    "E7007",
                    words("derived `clone` does not accept arguments"),
                    "write `value.clone()`",
                    call.span,
                ),
            );
            s
        } else {
            self
        }
    }

    /// A call of a method that the language itself knows.
    pub open spec fn analyze_builtin_method_call(
        self,
        call: CallExpression<'a>,
        field: FieldExpression<'a>,
        method: Identifier<'a>,
        expected: Option<Type>,
        fuel: nat,
    ) -> (Self, Option<Expression<'a>>)
        decreases fuel, 13nat, List::<Type>::Nil,
    {
        match self.analyze_tuple_type_access_method(call, field, method, expected, fuel) {
            (s, Some(value)) => (s, Some(value)),
            (s, None) => match s.analyze_format_push_method(call, field, method, fuel) {
                (s, Some(value)) => (s, Some(value)),
                (s, None) => s.analyze_primitive_method_call(call, field, method, expected, fuel),
            },
        }
    }

    /// A call of a method of a string, an iterator, an integer or a slice.
    pub open spec fn analyze_primitive_method_call(
        self,
        call: CallExpression<'a>,
        field: FieldExpression<'a>,
        method: Identifier<'a>,
        expected: Option<Type>,
        fuel: nat,
    ) -> (Self, Option<Expression<'a>>)
        decreases fuel, 4nat, List::<Type>::Nil,
    {
        match self.analyze_string_iteration_method(call, field, method, expected, fuel) {
            (s, Some(value)) => (s, Some(value)),
            (s, None) => match s.analyze_chars_next_method(call, field, method, expected, fuel) {
                (s, Some(value)) => (s, Some(value)),
                (s, None) => match s.analyze_integer_addition_method(
                    call,
                    field,
                    method,
                    expected,
                    fuel,
                ) {
                    (s, Some(value)) => (s, Some(value)),
                    (s, None) => s.analyze_slice_access_method(call, field, method, expected, fuel),
                },
            },
        }
    }

    /// The elements of the tuple that an expression names.
    #[verifier::opaque]
    pub open spec fn tuple_at(self, expression: ast::Expression<'a>) -> Option<List<Type>> {
        match self.place_expression_type(expression) {
            Some(ty) => self.types.tuple_shape(ty),
            None => None,
        }
    }

    /// Access to elements of a tuple by their types.
    pub open spec fn analyze_tuple_type_access_method(
        self,
        call: CallExpression<'a>,
        field: FieldExpression<'a>,
        method: Identifier<'a>,
        expected: Option<Type>,
        fuel: nat,
    ) -> (Self, Option<Expression<'a>>)
        decreases fuel, 6nat, List::<Type>::Nil,
    {
        if method.name@ == "assert_unique_types"@ {
            self.analyze_tuple_unique_types(call, field)
        } else {
            match spec_tuple_access(method.name) {
                None => (self, None),
                Some((mutable, several)) => match self.tuple_at(field.base) {
                    None => (self, None),
                    Some(elements) => {
                        let (s, value) = self.analyze_tuple_access(
                            call,
                            field,
                            method,
                            mutable,
                            several,
                            elements,
                            expected,
                            fuel,
                        );
                        (s, Some(value))
                    },
                },
            }
        }
    }

    /// Access to elements of a tuple.
    pub open spec fn analyze_tuple_access(
        self,
        call: CallExpression<'a>,
        field: FieldExpression<'a>,
        method: Identifier<'a>,
        mutable: bool,
        several: bool,
        elements: List<Type>,
        expected: Option<Type>,
        fuel: nat,
    ) -> (Self, Expression<'a>)
        decreases fuel, 5nat, List::<Type>::Nil,
    {
        if !call.arguments.is_empty() {
            let s = self.analyze_discarded(call.arguments, fuel);
            let s = s.report(
                advised(
                    "E6022",
                    words3("`", method.name, "` accepts only compile-time type arguments"),
                    words3("write `tuple.", method.name, "<Type>()`"),
                    call.span,
                ),
            );
            (s, invalid_composite_expression(call.span))
        } else {
            match self.select_requested(call, method, several, elements) {
                (s, None) => (s, invalid_composite_expression(call.span)),
                (s, Some(selected)) => s.borrow_selected(
                    call,
                    field,
                    mutable,
                    several,
                    selected,
                    expected,
                    fuel,
                ),
            }
        }
    }

    /// The positions of the requested elements of a tuple.
    #[verifier::opaque]
    pub open spec fn select_requested(
        self,
        call: CallExpression<'a>,
        method: Identifier<'a>,
        several: bool,
        elements: List<Type>,
    ) -> (Self, Option<List<u32>>) {
        match self.resolve_tuple_type_requests(call, method, several) {
            (s, None) => (s, None),
            (s, Some(requested)) => s.select_tuple_type_fields(
                elements,
                requested,
                List::Nil,
                call.span,
            ),
        }
    }

    /// The selected elements of a tuple are borrowed.
    pub open spec fn borrow_selected(
        self,
        call: CallExpression<'a>,
        field: FieldExpression<'a>,
        mutable: bool,
        several: bool,
        selected: List<u32>,
        expected: Option<Type>,
        fuel: nat,
    ) -> (Self, Expression<'a>)
        decreases fuel, 4nat, List::<Type>::Nil,
    {
        let s = self.require_expression_root_available(field.base, call.span);
        let s = s.require_borrowable(mutable, field.base, fuel);
        let s = s.check_and_record_borrow(field.base, mutable, call.span);
        match s.borrow_tuple_type_fields(field, selected, mutable, call.span, fuel) {
            (s, None) => (s, invalid_composite_expression(call.span)),
            (s, Some(borrowed)) => s.finish_tuple_access(borrowed, several, expected, call.span),
        }
    }

    /// The borrowed elements of a tuple: one, or a tuple of them.
    #[verifier::opaque]
    pub open spec fn finish_tuple_access(
        self,
        borrowed: List<Expression<'a>>,
        several: bool,
        expected: Option<Type>,
        span: Span,
    ) -> (Self, Expression<'a>) {
        if several {
            let (s, ty) = self.fresh_tuple_type(borrowed, span);
            let s = s.require_expected(expected, ty, span, "tuple type split");
            (s, typed(ExpressionKind::Tuple(borrowed), ty, span))
        } else {
            let value = spec_first_expression(borrowed, span);
            let s = self.require_expected(expected, value.ty, span, "tuple type access");
            (s, Expression { kind: value.kind, ty: value.ty, span })
        }
    }

    /// The elements of a tuple must have different types.
    #[verifier::opaque]
    pub open spec fn require_unique_types(
        self,
        elements: List<Type>,
        seen: List<Type>,
        span: Span,
    ) -> Self
        decreases elements,
    {
        match elements {
            List::Nil => self,
            List::Cons(node) => {
                let s = if spec_holds_type(seen, node.head) {
                    let s = self.report(
                        helped(
                            "E6022",
                            framed("tuple contains type `", node.head.text(), "` more than once"),
                            "heterogeneous type-addressable tuples require unique types",
                            span,
                        ),
                    );
                    s
                } else {
                    self
                };
                let s = s.require_unique_types(node.tail, cons(node.head, seen), span);
                s
            },
        }
    }

    /// A check that the elements of a tuple have different types.
    #[verifier::opaque]
    pub open spec fn analyze_tuple_unique_types(
        self,
        call: CallExpression<'a>,
        field: FieldExpression<'a>,
    ) -> (Self, Option<Expression<'a>>) {
        match self.tuple_at(field.base) {
            None => (self, None),
            Some(elements) => {
                let s = if !call.arguments.is_empty() || !call.generic_arguments.is_empty() {
                    let s = self.report(
                        helped(
                            "E6022",
                            words("`assert_unique_types` does not accept arguments"),
                            "write `tuple.assert_unique_types()`",
                            call.span,
                        ),
                    );
                    s
                } else {
                    self
                };
                let s = s.require_unique_types(elements, List::Nil, call.span);
                (s, Some(typed(ExpressionKind::Unit, Type::Unit, call.span)))
            },
        }
    }

    /// The types that are requested of a tuple.
    #[verifier::opaque]
    pub open spec fn resolve_tuple_type_requests(
        self,
        call: CallExpression<'a>,
        method: Identifier<'a>,
        several: bool,
    ) -> (Self, Option<List<Type>>) {
        match self.resolve_argument_values(call.generic_arguments) {
            (s, None) => (s, None),
            (s, Some(values)) => match only_types(values) {
                None => {
                    let s = s.report(
                        helped(
                            "E6022",
                            words("tuple type access accepts only type arguments"),
                            "remove const arguments from the method call",
                            call.span,
                        ),
                    );
                    (s, None)
                },
                Some(requested) => if requested.is_empty() || (!several && requested.count() != 1) {
                    let s = s.report(
                        helped(
                            "E6022",
                            if several {
                                words("`split_type_mut` requires at least one requested type")
                            } else {
                                words3("`", method.name, "` requires exactly one requested type")
                            },
                            "provide the requested tuple element types between `<` and `>`",
                            call.span,
                        ),
                    );
                    (s, None)
                } else {
                    (s, Some(requested))
                },
            },
        }
    }

    /// The positions of the requested types in a tuple, each of them once.
    #[verifier::opaque]
    pub open spec fn select_tuple_type_fields(
        self,
        elements: List<Type>,
        requested: List<Type>,
        selected: List<u32>,
        span: Span,
    ) -> (Self, Option<List<u32>>)
        decreases requested,
    {
        match requested {
            List::Nil => (self, Some(List::Nil)),
            List::Cons(node) => match self.select_tuple_type(elements, node.head, selected, span) {
                (s, None) => (s, None),
                (s, Some(position)) => match s.select_tuple_type_fields(
                    elements,
                    node.tail,
                    cons(position, selected),
                    span,
                ) {
                    (s, None) => (s, None),
                    (s, Some(rest)) => (s, Some(cons(position, rest))),
                },
            },
        }
    }

    /// The position of a requested type in a tuple.
    #[verifier::opaque]
    pub open spec fn select_tuple_type(
        self,
        elements: List<Type>,
        requested: Type,
        selected: List<u32>,
        span: Span,
    ) -> (Self, Option<u32>) {
        match spec_position_of(elements, requested, 0) {
            None => {
                let s = self.report(
                    helped(
                        "E6022",
                        framed("tuple does not contain `", requested.text(), "`"),
                        "each type-addressable tuple element must be unique",
                        span,
                    ),
                );
                (s, None)
            },
            Some(position) => if spec_occurs_twice(elements, requested) {
                let s = self.report(
                    helped(
                        "E6022",
                        framed("tuple contains `", requested.text(), "` more than once"),
                        "each type-addressable tuple element must be unique",
                        span,
                    ),
                );
                (s, None)
            } else if spec_holds_position(selected, position) {
                let s = self.report(
                    helped(
                        "E6022",
                        framed("type `", requested.text(), "` is requested more than once"),
                        "request each tuple element at most once",
                        span,
                    ),
                );
                (s, None)
            } else {
                (self, Some(position))
            },
        }
    }

    /// The elements of a tuple at the positions, borrowed. Only the first is
    /// borrowed mutably.
    pub open spec fn borrow_tuple_type_fields(
        self,
        field: FieldExpression<'a>,
        selected: List<u32>,
        mutable: bool,
        span: Span,
        fuel: nat,
    ) -> (Self, Option<List<Expression<'a>>>)
        decreases fuel, 3nat, selected,
    {
        match selected {
            List::Nil => (self, Some(List::Nil)),
            List::Cons(node) => {
                let element = spec_tuple_element(field, node.head, span);
                match self.analyze_place(element, fuel) {
                    (s, None) => (s, None),
                    (s, Some(place)) => {
                        let (s, first) = s.borrow_place(place, mutable, span, None);
                        match s.borrow_tuple_type_fields(field, node.tail, false, span, fuel) {
                            (s, None) => (s, None),
                            (s, Some(rest)) => (s, Some(cons(first, rest))),
                        }
                    },
                }
            },
        }
    }

    /// Whether a type is the string of the standard library.
    #[verifier::opaque]
    pub open spec fn is_string_type(self, ty: Type) -> bool {
        match self.types.nominal_name(ty) {
            Some(name) => characters(name) == STANDARD_STRING_TYPE@,
            None => false,
        }
    }

    /// The string that a method appends to: its type, and the signature of the
    /// method.
    #[verifier::opaque]
    pub open spec fn format_target(
        self,
        field: FieldExpression<'a>,
        method: &'a str,
    ) -> Option<(Type, Signature)> {
        if method@ == "push_format"@ {
            match self.place_expression_type(field.base) {
                None => None,
                Some(ty) => if self.is_string_type(ty) {
                    match self.signature_of(member(words(STANDARD_STRING_TYPE), "push_format")) {
                        Some(signature) => Some((ty, signature)),
                        None => None,
                    }
                } else {
                    None
                },
            }
        } else {
            None
        }
    }

    /// A formatted string that is appended to a string.
    pub open spec fn analyze_format_push_method(
        self,
        call: CallExpression<'a>,
        field: FieldExpression<'a>,
        method: Identifier<'a>,
        fuel: nat,
    ) -> (Self, Option<Expression<'a>>)
        decreases fuel, 12nat, List::<Type>::Nil,
    {
        match self.format_target(field, method.name) {
            None => (self, None),
            Some((receiver, signature)) => {
                let s = if !call.generic_arguments.is_empty() {
                    let s = self.report(
                        helped(
                            "E6004",
                            words("`push_format` does not accept generic arguments"),
                            "remove the arguments between `<` and `>`",
                            call.span,
                        ),
                    );
                    s
                } else {
                    self
                };
                let (s, value) = s.analyze_format_push(call, field, receiver, signature, fuel);
                (s, Some(value))
            },
        }
    }

    /// A formatted string that is appended to a string, part by part.
    pub open spec fn analyze_format_push(
        self,
        call: CallExpression<'a>,
        field: FieldExpression<'a>,
        receiver: Type,
        signature: Signature,
        fuel: nat,
    ) -> (Self, Expression<'a>)
        decreases fuel, 11nat, List::<Type>::Nil,
    {
        match spec_only_formatted_string(call.arguments) {
            None => {
                let s = self.analyze_discarded(call.arguments, fuel);
                let s = s.report(
                    helped(
                        "E3160",
                        words("`push_format` expects one `f\"...\"` expression"),
                        "write `string.push_format(f\"value: {value}\")`",
                        call.span,
                    ),
                );
                (s, invalid_composite_expression(call.span))
            },
            Some((fragments, span)) => {
                let (s, calls) = self.analyze_format_fragments(
                    fragments,
                    field,
                    receiver,
                    signature.return_type,
                    fuel,
                );
                let (s, calls) = s.require_one_push(
                    calls,
                    field,
                    receiver,
                    signature.return_type,
                    span,
                    fuel,
                );
                (
                    s,
                    typed(
                        ExpressionKind::FormatPush {
                            function: signature.id,
                            calls,
                            success_variant: s.success_variant(signature.return_type),
                        },
                        signature.return_type,
                        call.span,
                    ),
                )
            },
        }
    }

    /// The position of `Ok` in a result.
    #[verifier::opaque]
    pub open spec fn success_variant(self, ty: Type) -> u32 {
        match self.enum_variant(ty, "Ok") {
            Some((variant, _)) => variant,
            None => 0,
        }
    }

    /// Where nothing is appended, an empty string is.
    pub open spec fn require_one_push(
        self,
        calls: List<Expression<'a>>,
        field: FieldExpression<'a>,
        receiver: Type,
        result_type: Type,
        span: Span,
        fuel: nat,
    ) -> (Self, List<Expression<'a>>)
        decreases fuel, 8nat, List::<Type>::Nil,
    {
        if calls.is_empty() {
            let (s, call) = self.analyze_string_push_call(
                field,
                receiver,
                "push_str",
                spec_string_literal("", span),
                result_type,
                span,
                fuel,
            );
            (s, single(call))
        } else {
            (self, calls)
        }
    }

    /// The calls that append the parts of a formatted string.
    pub open spec fn analyze_format_fragments(
        self,
        fragments: List<FormattedStringFragment<'a>>,
        field: FieldExpression<'a>,
        receiver: Type,
        result_type: Type,
        fuel: nat,
    ) -> (Self, List<Expression<'a>>)
        decreases fuel, 10nat, fragments,
    {
        match fragments {
            List::Nil => (self, List::Nil),
            List::Cons(node) => {
                let (s, first) = self.analyze_format_fragment(
                    node.head,
                    field,
                    receiver,
                    result_type,
                    fuel,
                );
                let (s, rest) = s.analyze_format_fragments(
                    node.tail,
                    field,
                    receiver,
                    result_type,
                    fuel,
                );
                (
                    s,
                    match first {
                        Some(first) => cons(first, rest),
                        None => rest,
                    },
                )
            },
        }
    }

    /// The call that appends a part of a formatted string.
    pub open spec fn analyze_format_fragment(
        self,
        fragment: FormattedStringFragment<'a>,
        field: FieldExpression<'a>,
        receiver: Type,
        result_type: Type,
        fuel: nat,
    ) -> (Self, Option<Expression<'a>>)
        decreases fuel, 9nat, List::<Type>::Nil,
    {
        match fragment {
            FormattedStringFragment::Text(value, span) => {
                let (s, call) = self.analyze_string_push_call(
                    field,
                    receiver,
                    "push_str",
                    spec_string_literal(value, span),
                    result_type,
                    span,
                    fuel,
                );
                (s, Some(call))
            },
            FormattedStringFragment::Display(value) => self.analyze_formatted_value(
                field,
                receiver,
                value,
                result_type,
                FormattingMode::Display,
                fuel,
            ),
            FormattedStringFragment::Debug(value) => self.analyze_formatted_value(
                field,
                receiver,
                value,
                result_type,
                FormattingMode::Debug,
                fuel,
            ),
        }
    }

    /// The method that appends values of a type to a string.
    #[verifier::opaque]
    pub open spec fn format_method(self, ty: Type) -> Option<&'a str> {
        if self.is_string_type(ty) {
            Some("push_string")
        } else {
            string_format_method(ty)
        }
    }

    /// The call that appends a value in a formatted string.
    pub open spec fn analyze_formatted_value(
        self,
        field: FieldExpression<'a>,
        receiver: Type,
        value: ast::Expression<'a>,
        result_type: Type,
        mode: FormattingMode,
        fuel: nat,
    ) -> (Self, Option<Expression<'a>>)
        decreases fuel, 8nat, List::<Type>::Nil,
    {
        match self.place_expression_type(value) {
            Some(ty) => self.format_place(field, receiver, value, ty, result_type, mode, fuel),
            None => {
                let (s, analyzed) = self.analyze_expression_non_consuming(value, fuel);
                s.format_temporary(field, receiver, value, analyzed, result_type, mode, fuel)
            },
        }
    }

    /// The call that appends the value of a place.
    pub open spec fn format_place(
        self,
        field: FieldExpression<'a>,
        receiver: Type,
        value: ast::Expression<'a>,
        ty: Type,
        result_type: Type,
        mode: FormattingMode,
        fuel: nat,
    ) -> (Self, Option<Expression<'a>>)
        decreases fuel, 7nat, List::<Type>::Nil,
    {
        match self.format_method(ty) {
            Some(method) => {
                let (s, argument) = if spec_is_plain_value(ty) {
                    self.analyze_expression_expected(value, None, fuel)
                } else {
                    self.analyze_borrow(false, value, value.span, None, fuel)
                };
                let (s, call) = s.build_string_push_call(
                    field,
                    receiver,
                    method,
                    argument,
                    result_type,
                    value.span,
                    fuel,
                );
                (s, Some(call))
            },
            None => if self.types.meets(ty, spec_formatting_trait(mode)@) {
                let (s, call) = self.analyze_trait_append_call(
                    field,
                    value,
                    result_type,
                    spec_append_function(mode),
                    fuel,
                );
                (s, Some(call))
            } else {
                let s = self.reject_interpolation(ty, mode, value.span);
                (s, None)
            },
        }
    }

    /// The call that appends a value without a place.
    pub open spec fn format_temporary(
        self,
        field: FieldExpression<'a>,
        receiver: Type,
        value: ast::Expression<'a>,
        analyzed: Expression<'a>,
        result_type: Type,
        mode: FormattingMode,
        fuel: nat,
    ) -> (Self, Option<Expression<'a>>)
        decreases fuel, 7nat, List::<Type>::Nil,
    {
        match self.format_method(analyzed.ty) {
            Some(method) => {
                let (s, argument) = if spec_is_plain_value(analyzed.ty) {
                    (self, analyzed)
                } else {
                    self.analyze_borrow(false, value, value.span, None, fuel)
                };
                let (s, call) = s.build_string_push_call(
                    field,
                    receiver,
                    method,
                    argument,
                    result_type,
                    value.span,
                    fuel,
                );
                (s, Some(call))
            },
            None => {
                let s = self.reject_temporary_interpolation(analyzed.ty, mode, value.span);
                (s, None)
            },
        }
    }

    /// A value without a place that is not appended as it is.
    #[verifier::opaque]
    pub open spec fn reject_temporary_interpolation(
        self,
        ty: Type,
        mode: FormattingMode,
        span: Span,
    ) -> Self {
        if self.types.meets(ty, spec_formatting_trait(mode)@) {
            let s = self.report(
                helped(
                    "E3162",
                    words("formatted owned values must be bound before borrowing"),
                    "bind the value to a local, then interpolate that local",
                    span,
                ),
            );
            s
        } else {
            let s = self.reject_interpolation(ty, mode, span);
            s
        }
    }

    /// A value that cannot be shown.
    #[verifier::opaque]
    pub open spec fn reject_interpolation(self, ty: Type, mode: FormattingMode, span: Span) -> Self {
        let s = self.report(
            advised(
                "E3161",
                framed("type `", self.types.reflection_type_name(ty), "` cannot be interpolated"),
                words3(
                    "implement `std::fmt::",
                    match mode {
                        FormattingMode::Display => "Display",
                        FormattingMode::Debug => "Debug",
                    },
                    "` for this nominal type",
                ),
                span,
            ),
        );
        s
    }

    /// The call that appends a value to a string.
    pub open spec fn analyze_string_push_call(
        self,
        field: FieldExpression<'a>,
        receiver: Type,
        method: &'a str,
        value: ast::Expression<'a>,
        result_type: Type,
        span: Span,
        fuel: nat,
    ) -> (Self, Expression<'a>)
        decreases fuel, 7nat, List::<Type>::Nil,
    {
        let (s, analyzed) = self.analyze_expression_expected(value, None, fuel);
        s.build_string_push_call(field, receiver, method, analyzed, result_type, span, fuel)
    }

    /// The first parameter of a method of the standard string, and its signature.
    #[verifier::opaque]
    pub open spec fn string_method(self, method: &'a str) -> Option<Signature> {
        self.signature_of(member(words(STANDARD_STRING_TYPE), method))
    }

    /// The call of a method of the standard string.
    pub open spec fn build_string_push_call(
        self,
        field: FieldExpression<'a>,
        receiver: Type,
        method: &'a str,
        value: Expression<'a>,
        result_type: Type,
        span: Span,
        fuel: nat,
    ) -> (Self, Expression<'a>)
        decreases fuel, 6nat, List::<Type>::Nil,
    {
        match self.string_method(method) {
            None => {
                let s = self.report(
                    error(
                        "E3163",
                        words3("standard formatting method `", method, "` is unavailable"),
                        span,
                    ),
                );
                (s, invalid_composite_expression(span))
            },
            Some(signature) => match spec_first_type(signature.parameter_types) {
                None => (self, invalid_composite_expression(span)),
                Some(expected) => {
                    let (s, first) = self.analyze_method_receiver(
                        field.base,
                        receiver,
                        expected,
                        fuel,
                    );
                    s.finish_string_push(method, signature, first, value, result_type, span)
                },
            },
        }
    }

    /// The checked call of a method of the standard string.
    #[verifier::opaque]
    pub open spec fn finish_string_push(
        self,
        method: &'a str,
        signature: Signature,
        receiver: Expression<'a>,
        value: Expression<'a>,
        result_type: Type,
        span: Span,
    ) -> (Self, Expression<'a>) {
        let arguments = cons(receiver, single(value));
        let s = self.validate_call_arguments(
            member(words(STANDARD_STRING_TYPE), method),
            span,
            signature,
            arguments,
        );
        let s = s.require_type(result_type, signature.return_type, span, "format write");
        (
            s,
            typed(
                ExpressionKind::Call { function: signature.id, arguments },
                signature.return_type,
                span,
            ),
        )
    }

    /// The call of a function that appends a value to a string.
    pub open spec fn analyze_trait_append_call(
        self,
        field: FieldExpression<'a>,
        value: ast::Expression<'a>,
        result_type: Type,
        function: &'a str,
        fuel: nat,
    ) -> (Self, Expression<'a>)
        decreases fuel, 1nat, List::<Type>::Nil,
    {
        let call = spec_append_call(field, value, function);
        self.analyze_call_within(call, Some(result_type), fuel)
    }

    /// A method that the language itself knows takes no generic arguments, and
    /// that many arguments.
    #[verifier::opaque]
    pub open spec fn check_intrinsic_method(
        self,
        call: CallExpression<'a>,
        method: Identifier<'a>,
        receiver: &'a str,
        expected: u64,
    ) -> Self {
        let s = if !call.generic_arguments.is_empty() {
            let s = self.report(
                helped(
                    "E6004",
                    cons(
                        Piece::Words(receiver),
                        words3(" method `", method.name, "` is not generic"),
                    ),
                    "remove the arguments between `<` and `>`",
                    call.span,
                ),
            );
            s
        } else {
            self
        };
        if call.arguments.count() != expected {
            let s = s.report(
                error(
                    "E3105",
                    spec_method_count(receiver, method.name, expected, call.arguments.count()),
                    call.span,
                ),
            );
            s
        } else {
            s
        }
    }

    /// The type of the integers that a result is expected of.
    #[verifier::opaque]
    pub open spec fn expected_integer(
        self,
        mode: IntegerAdditionMode,
        expected: Option<Type>,
    ) -> Option<Type> {
        match expected {
            None => None,
            Some(expected) => match mode {
                IntegerAdditionMode::Checked => match self.types.intrinsic(expected) {
                    Some(IntrinsicType::Option { value }) => if value.is_integer() {
                        Some(value)
                    } else {
                        None
                    },
                    _ => None,
                },
                _ => if expected.is_integer() {
                    Some(expected)
                } else {
                    None
                },
            },
        }
    }

    /// A method that adds integers.
    pub open spec fn analyze_integer_addition_method(
        self,
        call: CallExpression<'a>,
        field: FieldExpression<'a>,
        method: Identifier<'a>,
        expected: Option<Type>,
        fuel: nat,
    ) -> (Self, Option<Expression<'a>>)
        decreases fuel, 3nat, List::<Type>::Nil,
    {
        match spec_addition_mode(method.name) {
            None => (self, None),
            Some(mode) => {
                let s = self.check_intrinsic_method(call, method, "integer", 1);
                let wanted = s.expected_integer(mode, expected);
                let (s, left) = s.analyze_expression_expected(field.base, wanted, fuel);
                let (s, right) = s.analyze_argument(call, 0, Some(left.ty), fuel);
                let s = s.analyze_extra(call, 1, fuel);
                let (s, value) = s.add_integers(mode, left, right, method, expected, call.span);
                (s, Some(value))
            },
        }
    }

    /// The type of a sum.
    #[verifier::opaque]
    pub open spec fn sum_type(self, mode: IntegerAdditionMode, ty: Type, span: Span) -> (Self, Type) {
        match mode {
            IntegerAdditionMode::Checked => match self.intern_option(ty, span) {
                (s, Some(ty)) => (s, ty),
                (s, None) => (s, Type::Unit),
            },
            _ => (self, ty),
        }
    }

    /// A sum of integers.
    #[verifier::opaque]
    pub open spec fn add_integers(
        self,
        mode: IntegerAdditionMode,
        left: Expression<'a>,
        right: Expression<'a>,
        method: Identifier<'a>,
        expected: Option<Type>,
        span: Span,
    ) -> (Self, Expression<'a>) {
        if !left.ty.is_integer() {
            let s = self.report(
                error(
                    "E6002",
                    cons(
                        Piece::Words("method `"),
                        cons(
                            Piece::Words(method.name),
                            framed("` does not exist on non-integer type `", left.ty.text(), "`"),
                        ),
                    ),
                    method.span,
                ),
            );
            (s, invalid_composite_expression(span))
        } else {
            let s = self.require_type(left.ty, right.ty, right.span, "integer method argument");
            let (s, ty) = s.sum_type(mode, left.ty, span);
            let s = s.require_expected(expected, ty, span, "integer method result");
            (s, typed(ExpressionKind::IntegerAddition { mode, left, right }, ty, span))
        }
    }

    /// Whether an expression is a string.
    #[verifier::opaque]
    pub open spec fn is_string_expression(self, expression: ast::Expression<'a>) -> bool {
        match *expression.kind {
            ast::ExpressionKind::String(_) => true,
            _ => match self.place_expression_type(expression) {
                Some(ty) => ty == Type::Str,
                None => false,
            },
        }
    }

    /// The type of the bytes or the characters of a string.
    #[verifier::opaque]
    pub open spec fn string_part_type(self, bytes: bool, span: Span) -> (Self, Type) {
        if bytes {
            match self.intern_slice(Type::U8, false, span) {
                (s, Some(ty)) => (s, ty),
                (s, None) => (s, Type::Unit),
            }
        } else {
            match self.intern_chars(span) {
                (s, Some(ty)) => (s, ty),
                (s, None) => (s, Type::Unit),
            }
        }
    }

    /// A borrow that lasts until the innermost scope ends.
    #[verifier::opaque]
    pub open spec fn record_lasting_borrow(
        self,
        operand: ast::Expression<'a>,
        mutable: bool,
        span: Span,
    ) -> Self {
        let persistent = self.frame.persistent_borrow;
        let s = self.set_persistent(true);
        let s = s.check_and_record_borrow(operand, mutable, span);
        let s = s.set_persistent(persistent);
        s
    }

    /// A method that looks at a string.
    pub open spec fn analyze_string_iteration_method(
        self,
        call: CallExpression<'a>,
        field: FieldExpression<'a>,
        method: Identifier<'a>,
        expected: Option<Type>,
        fuel: nat,
    ) -> (Self, Option<Expression<'a>>)
        decreases fuel, 2nat, List::<Type>::Nil,
    {
        match spec_string_iteration(method.name) {
            None => (self, None),
            Some(bytes) => if self.is_string_expression(field.base) {
                let s = self.check_intrinsic_method(call, method, "string", 0);
                let s = s.analyze_discarded(call.arguments, fuel);
                let s = s.require_expression_root_available(field.base, call.span);
                let (s, source) = s.analyze_expression_non_consuming(field.base, fuel);
                let (s, value) = s.look_at_string(source, bytes, field.base, expected, call.span);
                (s, Some(value))
            } else {
                (self, None)
            },
        }
    }

    /// The bytes or the characters of a string.
    #[verifier::opaque]
    pub open spec fn look_at_string(
        self,
        source: Expression<'a>,
        bytes: bool,
        operand: ast::Expression<'a>,
        expected: Option<Type>,
        span: Span,
    ) -> (Self, Expression<'a>) {
        let s = self.record_lasting_borrow(operand, false, span);
        let (s, ty) = s.string_part_type(bytes, span);
        let s = s.require_expected(expected, ty, span, "string method result");
        (
            s,
            if bytes {
                typed(ExpressionKind::StringBytes(source), ty, span)
            } else {
                typed(ExpressionKind::StringChars(source), ty, span)
            },
        )
    }

    /// Whether a method takes the next character of an iterator.
    #[verifier::opaque]
    pub open spec fn is_chars_next(self, field: FieldExpression<'a>, method: &'a str) -> bool {
        method@ == "next"@
            && (match self.place_expression_type(field.base) {
                Some(ty) => self.types.is_chars(ty),
                None => false,
            })
    }

    /// The next character of an iterator.
    pub open spec fn analyze_chars_next_method(
        self,
        call: CallExpression<'a>,
        field: FieldExpression<'a>,
        method: Identifier<'a>,
        expected: Option<Type>,
        fuel: nat,
    ) -> (Self, Option<Expression<'a>>)
        decreases fuel, 3nat, List::<Type>::Nil,
    {
        if !self.is_chars_next(field, method.name) {
            (self, None)
        } else {
            let s = self.check_intrinsic_method(call, method, "character iterator", 0);
            let s = s.analyze_discarded(call.arguments, fuel);
            let s = s.require_expression_root_available(field.base, call.span);
            let s = s.require_mutable_place(field.base, fuel);
            match s.analyze_place(field.base, fuel) {
                (s, None) => (s, None),
                (s, Some(iterator)) => {
                    let (s, value) = s.next_character(iterator, expected, call.span);
                    (s, Some(value))
                },
            }
        }
    }

    /// The next character of an iterator, if there is one.
    #[verifier::opaque]
    pub open spec fn next_character(
        self,
        iterator: hir::Place<'a>,
        expected: Option<Type>,
        span: Span,
    ) -> (Self, Expression<'a>) {
        let (s, interned) = self.intern_option(Type::Char, span);
        let ty = match interned {
            Some(ty) => ty,
            None => Type::Unit,
        };
        let s = s.require_expected(expected, ty, span, "iterator method result");
        (s, typed(ExpressionKind::CharsNext { iterator }, ty, span))
    }

    /// The element of the slice that an expression names, and whether it is
    /// mutable.
    #[verifier::opaque]
    pub open spec fn slice_at(self, expression: ast::Expression<'a>) -> Option<(Type, bool)> {
        match self.place_expression_type(expression) {
            Some(ty) => self.types.slice_shape(ty),
            None => None,
        }
    }

    /// A method that borrows an element of a slice.
    pub open spec fn analyze_slice_access_method(
        self,
        call: CallExpression<'a>,
        field: FieldExpression<'a>,
        method: Identifier<'a>,
        expected: Option<Type>,
        fuel: nat,
    ) -> (Self, Option<Expression<'a>>)
        decreases fuel, 3nat, List::<Type>::Nil,
    {
        match spec_slice_access(method.name) {
            None => (self, None),
            Some(mutable) => match self.slice_at(field.base) {
                None => (self, None),
                Some((element, slice_mutable)) => {
                    let s = self.check_slice_access(call, field, method, mutable, slice_mutable);
                    let (s, slice) = s.analyze_expression_non_consuming(field.base, fuel);
                    let s = s.record_lasting_borrow(field.base, mutable, call.span);
                    let (s, index) = s.analyze_argument(call, 0, Some(Type::Usize), fuel);
                    let s = s.analyze_extra(call, 1, fuel);
                    let (s, value) = s.borrow_element(
                        slice,
                        index,
                        element,
                        mutable,
                        expected,
                        call.span,
                    );
                    (s, Some(value))
                },
            },
        }
    }

    /// A mutable element needs a mutable slice.
    #[verifier::opaque]
    pub open spec fn check_slice_access(
        self,
        call: CallExpression<'a>,
        field: FieldExpression<'a>,
        method: Identifier<'a>,
        mutable: bool,
        slice_mutable: bool,
    ) -> Self {
        let s = self.check_intrinsic_method(call, method, "slice", 1);
        let s = if mutable && !slice_mutable {
            let s = s.report(
                helped(
                    "E3107",
                    words("`get_mut` requires a mutable slice"),
                    "borrow the source as `&mut [T]` before calling `get_mut`",
                    field.span,
                ),
            );
            s
        } else {
            s
        };
        let s = s.require_expression_root_available(field.base, call.span);
        s
    }

    /// A reference to an element of a slice, if there is one.
    #[verifier::opaque]
    pub open spec fn borrow_element(
        self,
        slice: Expression<'a>,
        index: Expression<'a>,
        element: Type,
        mutable: bool,
        expected: Option<Type>,
        span: Span,
    ) -> (Self, Expression<'a>) {
        let s = self.require_type(Type::Usize, index.ty, index.span, "slice index");
        let (s, interned) = s.intern_reference(element, mutable, span);
        let reference_type = match interned {
            Some(ty) => ty,
            None => Type::Unit,
        };
        let (s, wrapped) = s.intern_option(reference_type, span);
        let ty = match wrapped {
            Some(ty) => ty,
            None => Type::Unit,
        };
        let s = s.require_expected(expected, ty, span, "slice method result");
        (s, typed(ExpressionKind::SliceGet { slice, index, reference_type, mutable }, ty, span))
    }

    /// A call of a method that is not generic.
    pub open spec fn analyze_resolved_method_call(
        self,
        call: CallExpression<'a>,
        field: FieldExpression<'a>,
        method: Identifier<'a>,
        receiver: Type,
        name: Text<'a>,
        signature: Signature,
        fuel: nat,
    ) -> (Self, Expression<'a>)
        decreases fuel, 6nat, List::<Type>::Nil,
    {
        let s = self.check_resolved_method(call, method, receiver, signature);
        match spec_first_type(signature.parameter_types) {
            None => s.reject_call(
                helped(
                    "E6002",
                    framed("associated function `", name, "` has no `self` receiver"),
                    "call it with `Type::function(...)`",
                    method.span,
                ),
                call,
                fuel,
            ),
            Some(expected) => {
                let persistent = s.frame.persistent_borrow;
                let s = s.set_persistent(persistent || s.types.is_scoped(signature.return_type));
                let (s, first) = s.analyze_method_receiver(field.base, receiver, expected, fuel);
                let (s, rest) = s.analyze_arguments(
                    call.arguments,
                    spec_rest_types(signature.parameter_types),
                    fuel,
                );
                let s = s.set_persistent(persistent);
                let arguments = cons(first, rest);
                let s = s.validate_call_arguments(name, call.span, signature, arguments);
                (
                    s,
                    typed(
                        ExpressionKind::Call { function: signature.id, arguments },
                        signature.return_type,
                        call.span,
                    ),
                )
            },
        }
    }

    /// A method that is not generic takes no generic arguments, and must be
    /// visible.
    #[verifier::opaque]
    pub open spec fn check_resolved_method(
        self,
        call: CallExpression<'a>,
        method: Identifier<'a>,
        receiver: Type,
        signature: Signature,
    ) -> Self {
        let s = if !call.generic_arguments.is_empty() {
            let s = self.report(
                helped(
                    "E6004",
                    words3("method `", method.name, "` is not generic"),
                    "remove the arguments between `<` and `>`",
                    call.span,
                ),
            );
            s
        } else {
            self
        };
        let s = s.require_visible_method(method, receiver, signature.is_public);
        s
    }

    /// A method must be visible.
    #[verifier::opaque]
    pub open spec fn require_visible_method(
        self,
        method: Identifier<'a>,
        receiver: Type,
        is_public: bool,
    ) -> Self {
        if !is_public && self.type_is_external(receiver) {
            let s = self.report(
                helped(
                    "E4005",
                    words3("method `", method.name, "` is private to its defining module"),
                    "mark the method `pub` or expose a public wrapper",
                    method.span,
                ),
            );
            s
        } else {
            self
        }
    }

    /// A function of a type without receiver.
    #[verifier::opaque]
    pub open spec fn missing_receiver_diagnostic(
        self,
        name: Text<'a>,
        span: Span,
        add_help: bool,
    ) -> Self {
        if add_help {
            let s = self.report(
                helped(
                    "E6002",
                    framed("associated function `", name, "` has no `self` receiver"),
                    "call it with `Type::function(...)`",
                    span,
                ),
            );
            s
        } else {
            let s = self.report(
                error(
                    "E6002",
                    framed("associated function `", name, "` has no `self` receiver"),
                    span,
                ),
            );
            s
        }
    }

    /// The type of the receiver of a generic method.
    #[verifier::opaque]
    pub open spec fn receiver_type_name(
        self,
        template: GenericFunctionTemplate<'a>,
        name: Text<'a>,
        span: Span,
    ) -> (Self, Option<TypeName<'a>>) {
        match template.function.parameters {
            List::Nil => {
                let s = self.missing_receiver_diagnostic(name, span, false);
                (s, None)
            },
            List::Cons(node) => if node.head.name.name@ == "self"@ {
                (self, Some(node.head.ty))
            } else {
                let s = self.missing_receiver_diagnostic(name, span, true);
                (s, None)
            },
        }
    }

    /// The receiver of a generic method as its first argument.
    #[verifier::opaque]
    pub open spec fn generic_receiver(
        self,
        base: ast::Expression<'a>,
        written: TypeName<'a>,
        receiver: Type,
    ) -> ast::Expression<'a> {
        match *written.kind {
            TypeNameKind::Reference { mutable, .. } => match self.types.pointer_shape(receiver) {
                Some((_, actual_mutable, false)) => if actual_mutable && !mutable {
                    spec_prefixed(
                        ast::UnaryOperator::Borrow,
                        spec_prefixed(ast::UnaryOperator::Dereference, base),
                    )
                } else {
                    base
                },
                _ => spec_prefixed(
                    if mutable {
                        ast::UnaryOperator::BorrowMut
                    } else {
                        ast::UnaryOperator::Borrow
                    },
                    base,
                ),
            },
            _ => base,
        }
    }

    /// A call of a generic method.
    pub open spec fn try_analyze_generic_method_call(
        self,
        call: CallExpression<'a>,
        field: FieldExpression<'a>,
        method: Identifier<'a>,
        receiver: Type,
        resolved_name: Text<'a>,
        expected: Option<Type>,
        fuel: nat,
    ) -> (Self, Option<Expression<'a>>)
        decreases fuel, 4nat, List::<Type>::Nil,
    {
        match self.method_template(receiver, method.name, resolved_name) {
            None => (self, None),
            Some((name, template)) => {
                let s = self.require_visible_method(method, receiver, template.is_public);
                match s.receiver_type_name(template, name, method.span) {
                    (s, None) => (s, Some(invalid_composite_expression(call.span))),
                    (s, Some(written)) => {
                        let function_call = spec_generic_method_call(
                            call,
                            method,
                            s.generic_receiver(field.base, written, receiver),
                        );
                        let (s, value) = s.analyze_generic_function_call(
                            function_call,
                            name,
                            template,
                            expected,
                            fuel,
                        );
                        (s, Some(value))
                    },
                }
            },
        }
    }

    /// How a receiver becomes the first argument of a method.
    #[verifier::opaque]
    pub open spec fn adjustment(self, receiver: Type, expected: Type) -> Adjustment {
        match self.types.pointer_shape(expected) {
            Some((target, mutable, false)) => match self.types.pointer_shape(receiver) {
                Some((actual, true, false)) => if !mutable && target == actual {
                    Adjustment::Reborrow { mutable: false }
                } else if receiver == expected && mutable {
                    Adjustment::Reborrow { mutable: true }
                } else if target == receiver {
                    Adjustment::Borrow { mutable }
                } else {
                    Adjustment::Keep
                },
                _ => if receiver == expected && mutable {
                    Adjustment::Reborrow { mutable: true }
                } else if target == receiver {
                    Adjustment::Borrow { mutable }
                } else {
                    Adjustment::Keep
                },
            },
            _ => Adjustment::Keep,
        }
    }

    /// The receiver of a method as its first argument.
    pub open spec fn analyze_method_receiver(
        self,
        receiver: ast::Expression<'a>,
        receiver_type: Type,
        expected: Type,
        fuel: nat,
    ) -> (Self, Expression<'a>)
        decreases fuel, 5nat, List::<Type>::Nil,
    {
        match self.adjustment(receiver_type, expected) {
            Adjustment::Reborrow { mutable } => self.analyze_borrow(
                mutable,
                spec_prefixed(ast::UnaryOperator::Dereference, receiver),
                receiver.span,
                Some(expected),
                fuel,
            ),
            Adjustment::Borrow { mutable } => self.analyze_borrow(
                mutable,
                receiver,
                receiver.span,
                Some(expected),
                fuel,
            ),
            Adjustment::Keep => self.analyze_expression_expected(receiver, Some(expected), fuel),
        }
    }
}

impl<'a> Analyzer<'a> {
    /// A problem of a call, whose arguments are still checked.
    pub(crate) fn reject_call(
        &mut self,
        problem: Diagnostic<'a>,
        call: &CallExpression<'a>,
        fuel: u32,
    ) -> (analyzed: Expression<'a>)
        ensures
            (final(self)@, analyzed) == old(self)@.reject_call(problem, *call, fuel as nat),
            old(self)@.leads_to(final(self)@),
            forall|watch: Watch| #[trigger]
                watched(watch) && old(self)@.is_apart(watch) && !call_mentions(*call, watch.name)
                    ==> old(self)@.spares(final(self)@, watch),
            forall|scene: Scene| #[trigger]
                final(self)@.admits(scene) && old(self)@.prepared()
                    ==> final(self)@.troubled() || sound(analyzed, scene),
            final(self)@.troubled(),
        decreases fuel, 2nat, List::<Type>::Nil,
    {
        self.report(problem);
        self.analyze_discarded(&call.arguments, fuel);
        invalid_composite_expression(call.span)
    }

    /// A call of a method.
    pub(crate) fn analyze_method_call(
        &mut self,
        call: &CallExpression<'a>,
        field: &FieldExpression<'a>,
        expected: Option<Type>,
        fuel: u32,
    ) -> (analyzed: Expression<'a>)
        ensures
            (final(self)@, analyzed) == old(self)@.analyze_method_call(
                *call,
                *field,
                expected,
                fuel as nat,
            ),
            old(self)@.leads_to(final(self)@),
            forall|watch: Watch| #[trigger]
                watched(watch) && old(self)@.is_apart(watch) && !call_mentions(*call, watch.name)
                    && !field_mentions(*field, watch.name)
                    ==> old(self)@.spares(final(self)@, watch),
            forall|scene: Scene| #[trigger]
                final(self)@.admits(scene) && old(self)@.prepared()
                    ==> final(self)@.troubled() || sound(analyzed, scene),
        decreases fuel, 14nat, List::<Type>::Nil,
    {
        match &field.field {
            FieldName::TupleIndex { .. } => invalid_composite_expression(call.span),
            FieldName::Named(method) => match self.analyze_builtin_method_call(
                call,
                field,
                *method,
                expected,
                fuel,
            ) {
                Some(value) => value,
                None => self.analyze_declared_method_call(call, field, *method, expected, fuel),
            },
        }
    }

    /// A call of a method that a type declares.
    pub(crate) fn analyze_declared_method_call(
        &mut self,
        call: &CallExpression<'a>,
        field: &FieldExpression<'a>,
        method: Identifier<'a>,
        expected: Option<Type>,
        fuel: u32,
    ) -> (analyzed: Expression<'a>)
        ensures
            (final(self)@, analyzed) == old(self)@.analyze_declared_method_call(
                *call,
                *field,
                method,
                expected,
                fuel as nat,
            ),
            old(self)@.leads_to(final(self)@),
            forall|watch: Watch| #[trigger]
                watched(watch) && old(self)@.is_apart(watch) && !call_mentions(*call, watch.name)
                    && !field_mentions(*field, watch.name)
                    ==> old(self)@.spares(final(self)@, watch),
            forall|scene: Scene| #[trigger]
                final(self)@.admits(scene) && old(self)@.prepared()
                    ==> final(self)@.troubled() || sound(analyzed, scene),
        decreases fuel, 8nat, List::<Type>::Nil,
    {
        let place_type = self.place_expression_type(&field.base);
        let receiver = match place_type {
            Some(ty) => Some(ty),
            None => self.temporary_method_receiver_type(&field.base),
        };
        match receiver {
            None => self.reject_call(
                helped(
                    "E6002",
                    words("cannot determine the method receiver type"),
                    "bind the value to a typed local before calling its method",
                    field.base.span,
                ),
                call,
                fuel,
            ),
            Some(receiver) => match self.types.nominal_name(receiver) {
                None => self.reject_call(
                    error(
                        "E6002",
                        frame("type `", &receiver.text(), "` has no inherent methods"),
                        field.span,
                    ),
                    call,
                    fuel,
                ),
                Some(owner) => self.analyze_nominal_method_call(
                    call,
                    field,
                    method,
                    place_type.is_some(),
                    receiver,
                    &owner,
                    expected,
                    fuel,
                ),
            },
        }
    }

    /// A call of a method of a named type.
    pub(crate) fn analyze_nominal_method_call(
        &mut self,
        call: &CallExpression<'a>,
        field: &FieldExpression<'a>,
        method: Identifier<'a>,
        is_place: bool,
        receiver: Type,
        owner: &Text<'a>,
        expected: Option<Type>,
        fuel: u32,
    ) -> (analyzed: Expression<'a>)
        ensures
            (final(self)@, analyzed) == old(self)@.analyze_nominal_method_call(
                *call,
                *field,
                method,
                is_place,
                receiver,
                *owner,
                expected,
                fuel as nat,
            ),
            old(self)@.leads_to(final(self)@),
            forall|watch: Watch| #[trigger]
                watched(watch) && old(self)@.is_apart(watch) && !call_mentions(*call, watch.name)
                    && !field_mentions(*field, watch.name)
                    ==> old(self)@.spares(final(self)@, watch),
            forall|scene: Scene| #[trigger]
                final(self)@.admits(scene) && old(self)@.prepared()
                    ==> final(self)@.troubled() || sound(analyzed, scene),
        decreases fuel, 7nat, List::<Type>::Nil,
    {
        let name = member_symbol(owner, method.name);
        match self.signature_of(&name) {
            Some(signature) => if !is_place && self.takes_pointer(&signature) {
                self.reject_call(
                    helped(
                        "E6002",
                        words("borrowed method receiver must be an addressable value"),
                        "bind the value to a local before calling the borrowed method",
                        field.base.span,
                    ),
                    call,
                    fuel,
                )
            } else {
                self.analyze_resolved_method_call(
                    call,
                    field,
                    method,
                    receiver,
                    &name,
                    &signature,
                    fuel,
                )
            },
            None => match self.try_analyze_generic_method_call(
                call,
                field,
                method,
                receiver,
                &name,
                expected,
                fuel,
            ) {
                Some(value) => value,
                None => self.analyze_derived_clone(call, field, method, receiver, owner, fuel),
            },
        }
    }

    /// Whether the first parameter is a reference or a pointer.
    pub(crate) fn takes_pointer(&self, signature: &Signature) -> (answer: bool)
        ensures
            answer == self@.takes_pointer(*signature),
    {
        reveal(State::takes_pointer);
        match &signature.parameter_types {
            List::Nil => false,
            List::Cons(node) => self.types.pointer_shape(node.head).is_some(),
        }
    }

    /// A call of a derived `clone`.
    pub(crate) fn analyze_derived_clone(
        &mut self,
        call: &CallExpression<'a>,
        field: &FieldExpression<'a>,
        method: Identifier<'a>,
        receiver: Type,
        owner: &Text<'a>,
        fuel: u32,
    ) -> (analyzed: Expression<'a>)
        ensures
            (final(self)@, analyzed) == old(self)@.analyze_derived_clone(
                *call,
                *field,
                method,
                receiver,
                *owner,
                fuel as nat,
            ),
            old(self)@.leads_to(final(self)@),
            forall|watch: Watch| #[trigger]
                watched(watch) && old(self)@.is_apart(watch) && !call_mentions(*call, watch.name)
                    && !field_mentions(*field, watch.name)
                    ==> old(self)@.spares(final(self)@, watch),
            forall|scene: Scene| #[trigger]
                final(self)@.admits(scene) && old(self)@.prepared()
                    ==> final(self)@.troubled() || sound(analyzed, scene),
        decreases fuel, 3nat, List::<Type>::Nil,
    {
        if same(method.name, "clone") && self.types.satisfies_trait(receiver, "Clone") {
            self.validate_derived_clone_call(call);
            self.analyze_discarded(&call.arguments, fuel);
            let copied = self.analyze_expression_non_consuming(&field.base, fuel);
            proof {
                sound_anywhere(copied, call.span);
            }
            Expression { kind: copied.kind, ty: copied.ty, span: call.span }
        } else {
            self.reject_call(
                error(
                    "E6002",
                    cons(
                        Piece::Words("method `"),
                        cons(Piece::Words(method.name), frame("` does not exist on `", owner, "`")),
                    ),
                    method.span,
                ),
                call,
                fuel,
            )
        }
    }

    /// A derived `clone` takes no arguments.
    pub(crate) fn validate_derived_clone_call(&mut self, call: &CallExpression<'a>)
        ensures
            final(self)@ == old(self)@.validate_derived_clone_call(*call),
            old(self)@.leads_to(final(self)@),
            old(self)@.stays(final(self)@),
    {
        reveal(State::validate_derived_clone_call);
        if !call.arguments.is_empty() || !call.generic_arguments.is_empty() {
            self.report(
                helped(
                    "E7007",
                    words("derived `clone` does not accept arguments"),
                    "write `value.clone()`",
                    call.span,
                ),
            );
        }
    }

    /// A call of a method that the language itself knows.
    pub(crate) fn analyze_builtin_method_call(
        &mut self,
        call: &CallExpression<'a>,
        field: &FieldExpression<'a>,
        method: Identifier<'a>,
        expected: Option<Type>,
        fuel: u32,
    ) -> (analyzed: Option<Expression<'a>>)
        ensures
            (final(self)@, analyzed) == old(self)@.analyze_builtin_method_call(
                *call,
                *field,
                method,
                expected,
                fuel as nat,
            ),
            old(self)@.leads_to(final(self)@),
            forall|watch: Watch| #[trigger]
                watched(watch) && old(self)@.is_apart(watch) && !call_mentions(*call, watch.name)
                    && !field_mentions(*field, watch.name)
                    ==> old(self)@.spares(final(self)@, watch),
            forall|scene: Scene| #[trigger]
                final(self)@.admits(scene) && old(self)@.prepared()
                    ==> final(self)@.troubled() || sound_if_any(analyzed, scene),
        decreases fuel, 13nat, List::<Type>::Nil,
    {
        match self.analyze_tuple_type_access_method(call, field, method, expected, fuel) {
            Some(value) => Some(value),
            None => match self.analyze_format_push_method(call, field, method, fuel) {
                Some(value) => Some(value),
                None => self.analyze_primitive_method_call(call, field, method, expected, fuel),
            },
        }
    }

    /// A call of a method of a string, an iterator, an integer or a slice.
    pub(crate) fn analyze_primitive_method_call(
        &mut self,
        call: &CallExpression<'a>,
        field: &FieldExpression<'a>,
        method: Identifier<'a>,
        expected: Option<Type>,
        fuel: u32,
    ) -> (analyzed: Option<Expression<'a>>)
        ensures
            (final(self)@, analyzed) == old(self)@.analyze_primitive_method_call(
                *call,
                *field,
                method,
                expected,
                fuel as nat,
            ),
            old(self)@.leads_to(final(self)@),
            forall|watch: Watch| #[trigger]
                watched(watch) && old(self)@.is_apart(watch) && !call_mentions(*call, watch.name)
                    && !field_mentions(*field, watch.name)
                    ==> old(self)@.spares(final(self)@, watch),
            forall|scene: Scene| #[trigger]
                final(self)@.admits(scene) && old(self)@.prepared()
                    ==> final(self)@.troubled() || sound_if_any(analyzed, scene),
        decreases fuel, 4nat, List::<Type>::Nil,
    {
        match self.analyze_string_iteration_method(call, field, method, expected, fuel) {
            Some(value) => Some(value),
            None => match self.analyze_chars_next_method(call, field, method, expected, fuel) {
                Some(value) => Some(value),
                None => match self.analyze_integer_addition_method(
                    call,
                    field,
                    method,
                    expected,
                    fuel,
                ) {
                    Some(value) => Some(value),
                    None => self.analyze_slice_access_method(call, field, method, expected, fuel),
                },
            },
        }
    }

    /// The elements of the tuple that an expression names.
    pub(crate) fn tuple_at(
        &self,
        expression: &ast::Expression<'a>,
    ) -> (elements: Option<List<Type>>)
        ensures
            elements == self@.tuple_at(*expression),
    {
        reveal(State::tuple_at);
        match self.place_expression_type(expression) {
            Some(ty) => self.types.tuple_shape(ty),
            None => None,
        }
    }

    /// Access to elements of a tuple by their types.
    pub(crate) fn analyze_tuple_type_access_method(
        &mut self,
        call: &CallExpression<'a>,
        field: &FieldExpression<'a>,
        method: Identifier<'a>,
        expected: Option<Type>,
        fuel: u32,
    ) -> (analyzed: Option<Expression<'a>>)
        ensures
            (final(self)@, analyzed) == old(self)@.analyze_tuple_type_access_method(
                *call,
                *field,
                method,
                expected,
                fuel as nat,
            ),
            old(self)@.leads_to(final(self)@),
            forall|watch: Watch| #[trigger]
                watched(watch) && old(self)@.is_apart(watch) && !call_mentions(*call, watch.name)
                    && !field_mentions(*field, watch.name)
                    ==> old(self)@.spares(final(self)@, watch),
            forall|scene: Scene| #[trigger]
                final(self)@.admits(scene) && old(self)@.prepared()
                    ==> final(self)@.troubled() || sound_if_any(analyzed, scene),
        decreases fuel, 6nat, List::<Type>::Nil,
    {
        if same(method.name, "assert_unique_types") {
            return self.analyze_tuple_unique_types(call, field);
        }
        match tuple_access(method.name) {
            None => None,
            Some((mutable, several)) => match self.tuple_at(&field.base) {
                None => None,
                Some(elements) => {
                    let value = self.analyze_tuple_access(
                        call,
                        field,
                        method,
                        mutable,
                        several,
                        &elements,
                        expected,
                        fuel,
                    );
                    Some(value)
                },
            },
        }
    }

    /// Access to elements of a tuple.
    pub(crate) fn analyze_tuple_access(
        &mut self,
        call: &CallExpression<'a>,
        field: &FieldExpression<'a>,
        method: Identifier<'a>,
        mutable: bool,
        several: bool,
        elements: &List<Type>,
        expected: Option<Type>,
        fuel: u32,
    ) -> (analyzed: Expression<'a>)
        ensures
            (final(self)@, analyzed) == old(self)@.analyze_tuple_access(
                *call,
                *field,
                method,
                mutable,
                several,
                *elements,
                expected,
                fuel as nat,
            ),
            old(self)@.leads_to(final(self)@),
            forall|watch: Watch| #[trigger]
                watched(watch) && old(self)@.is_apart(watch) && !call_mentions(*call, watch.name)
                    && !field_mentions(*field, watch.name)
                    ==> old(self)@.spares(final(self)@, watch),
            forall|scene: Scene| #[trigger]
                final(self)@.admits(scene) && old(self)@.prepared()
                    ==> final(self)@.troubled() || sound(analyzed, scene),
        decreases fuel, 5nat, List::<Type>::Nil,
    {
        if !call.arguments.is_empty() {
            self.analyze_discarded(&call.arguments, fuel);
            self.report(
                advised(
                    "E6022",
                    words3("`", method.name, "` accepts only compile-time type arguments"),
                    words3("write `tuple.", method.name, "<Type>()`"),
                    call.span,
                ),
            );
            return invalid_composite_expression(call.span);
        }
        match self.select_requested(call, method, several, elements) {
            None => invalid_composite_expression(call.span),
            Some(selected) => self.borrow_selected(
                call,
                field,
                mutable,
                several,
                &selected,
                expected,
                fuel,
            ),
        }
    }

    /// The positions of the requested elements of a tuple.
    pub(crate) fn select_requested(
        &mut self,
        call: &CallExpression<'a>,
        method: Identifier<'a>,
        several: bool,
        elements: &List<Type>,
    ) -> (selected: Option<List<u32>>)
        ensures
            (final(self)@, selected) == old(self)@.select_requested(
                *call,
                method,
                several,
                *elements,
            ),
            old(self)@.leads_to(final(self)@),
            old(self)@.stays(final(self)@),
    {
        reveal(State::select_requested);
        match self.resolve_tuple_type_requests(call, method, several) {
            None => None,
            Some(requested) => self.select_tuple_type_fields(
                elements,
                &requested,
                List::Nil,
                call.span,
            ),
        }
    }

    /// The selected elements of a tuple are borrowed.
    pub(crate) fn borrow_selected(
        &mut self,
        call: &CallExpression<'a>,
        field: &FieldExpression<'a>,
        mutable: bool,
        several: bool,
        selected: &List<u32>,
        expected: Option<Type>,
        fuel: u32,
    ) -> (analyzed: Expression<'a>)
        ensures
            (final(self)@, analyzed) == old(self)@.borrow_selected(
                *call,
                *field,
                mutable,
                several,
                *selected,
                expected,
                fuel as nat,
            ),
            old(self)@.leads_to(final(self)@),
            forall|watch: Watch| #[trigger]
                watched(watch) && old(self)@.is_apart(watch) && !call_mentions(*call, watch.name)
                    && !field_mentions(*field, watch.name)
                    ==> old(self)@.spares(final(self)@, watch),
            forall|scene: Scene| #[trigger]
                final(self)@.admits(scene) && old(self)@.prepared()
                    ==> final(self)@.troubled() || sound(analyzed, scene),
        decreases fuel, 4nat, List::<Type>::Nil,
    {
        self.require_expression_root_available(&field.base, call.span);
        self.require_borrowable(mutable, &field.base, fuel);
        self.check_and_record_borrow(&field.base, mutable, call.span);
        match self.borrow_tuple_type_fields(field, selected, mutable, call.span, fuel) {
            None => invalid_composite_expression(call.span),
            Some(borrowed) => self.finish_tuple_access(borrowed, several, expected, call.span),
        }
    }

    /// The borrowed elements of a tuple: one, or a tuple of them.
    pub(crate) fn finish_tuple_access(
        &mut self,
        borrowed: List<Expression<'a>>,
        several: bool,
        expected: Option<Type>,
        span: Span,
    ) -> (analyzed: Expression<'a>)
        ensures
            (final(self)@, analyzed) == old(self)@.finish_tuple_access(
                borrowed,
                several,
                expected,
                span,
            ),
            old(self)@.leads_to(final(self)@),
            old(self)@.stays(final(self)@),
            forall|scene: Scene| #[trigger]
                final(self)@.admits(scene) && old(self)@.prepared() && all_sound(borrowed, scene)
                    ==> final(self)@.troubled() || sound(analyzed, scene),
    {
        reveal(State::finish_tuple_access);
        if several {
            let ty = self.fresh_tuple_type(&borrowed, span);
            self.require_expected(expected, ty, span, "tuple type split");
            typed(ExpressionKind::Tuple(borrowed), ty, span)
        } else {
            let value = first_expression(&borrowed, span);
            self.require_expected(expected, value.ty, span, "tuple type access");
            proof {
                sound_anywhere(value, span);
            }
            Expression { kind: value.kind, ty: value.ty, span }
        }
    }

    /// The elements of a tuple must have different types.
    pub(crate) fn require_unique_types(
        &mut self,
        elements: &List<Type>,
        seen: List<Type>,
        span: Span,
    )
        ensures
            final(self)@ == old(self)@.require_unique_types(*elements, seen, span),
            old(self)@.leads_to(final(self)@),
            old(self)@.stays(final(self)@),
    {
        let mut ahead: &List<Type> = elements;
        let mut current_seen: List<Type> = seen;
        loop
            invariant
                old(self)@.require_unique_types(
                    *elements,
                    seen,
                    span,
                ) == self@.require_unique_types(
                    *ahead,
                    current_seen,
                    span,
                ),
                old(self)@.leads_to(self@),
                old(self)@.stays(self@),
            decreases *ahead,
        {
            reveal(State::require_unique_types);
            match ahead {
                List::Nil => {
                    return ;
                },
                List::Cons(node) => {
                    if holds_type(&current_seen, node.head) {
                        self.report(
                            helped(
                                "E6022",
                                frame(
                                    "tuple contains type `",
                                    &node.head.text(),
                                    "` more than once",
                                ),
                                "heterogeneous type-addressable tuples require unique types",
                                span,
                            ),
                        );
                    }
                    current_seen = cons(node.head, current_seen);
                    ahead = &node.tail;
                },
            }
        }
    }

    /// A check that the elements of a tuple have different types.
    pub(crate) fn analyze_tuple_unique_types(
        &mut self,
        call: &CallExpression<'a>,
        field: &FieldExpression<'a>,
    ) -> (analyzed: Option<Expression<'a>>)
        ensures
            (final(self)@, analyzed) == old(self)@.analyze_tuple_unique_types(*call, *field),
            old(self)@.leads_to(final(self)@),
            old(self)@.stays(final(self)@),
            forall|scene: Scene| #[trigger]
                final(self)@.admits(scene) && old(self)@.prepared()
                    ==> final(self)@.troubled() || sound_if_any(analyzed, scene),
    {
        reveal(State::analyze_tuple_unique_types);
        match self.tuple_at(&field.base) {
            None => None,
            Some(elements) => {
                if !call.arguments.is_empty() || !call.generic_arguments.is_empty() {
                    self.report(
                        helped(
                            "E6022",
                            words("`assert_unique_types` does not accept arguments"),
                            "write `tuple.assert_unique_types()`",
                            call.span,
                        ),
                    );
                }
                self.require_unique_types(&elements, List::Nil, call.span);
                Some(typed(ExpressionKind::Unit, Type::Unit, call.span))
            },
        }
    }

    /// The types that are requested of a tuple.
    pub(crate) fn resolve_tuple_type_requests(
        &mut self,
        call: &CallExpression<'a>,
        method: Identifier<'a>,
        several: bool,
    ) -> (requested: Option<List<Type>>)
        ensures
            (final(self)@, requested) == old(self)@.resolve_tuple_type_requests(
                *call,
                method,
                several,
            ),
            old(self)@.leads_to(final(self)@),
            old(self)@.stays(final(self)@),
    {
        reveal(State::resolve_tuple_type_requests);
        match self.resolve_argument_values(&call.generic_arguments) {
            None => None,
            Some(values) => match collect_only_types(&values) {
                None => {
                    self.report(
                        helped(
                            "E6022",
                            words("tuple type access accepts only type arguments"),
                            "remove const arguments from the method call",
                            call.span,
                        ),
                    );
                    None
                },
                Some(requested) => if requested.is_empty() || (!several && requested.count() != 1) {
                    self.report(
                        helped(
                            "E6022",
                            if several {
                                words("`split_type_mut` requires at least one requested type")
                            } else {
                                words3("`", method.name, "` requires exactly one requested type")
                            },
                            "provide the requested tuple element types between `<` and `>`",
                            call.span,
                        ),
                    );
                    None
                } else {
                    Some(requested)
                },
            },
        }
    }

    /// The positions of the requested types in a tuple, each of them once.
    pub(crate) fn select_tuple_type_fields(
        &mut self,
        elements: &List<Type>,
        requested: &List<Type>,
        selected: List<u32>,
        span: Span,
    ) -> (positions: Option<List<u32>>)
        ensures
            (final(self)@, positions) == old(self)@.select_tuple_type_fields(
                *elements,
                *requested,
                selected,
                span,
            ),
            old(self)@.leads_to(final(self)@),
            old(self)@.stays(final(self)@),
    {
        let mut ahead: &List<Type> = requested;
        let mut current_selected: List<u32> = selected;
        let mut done: Vec<u32> = Vec::new();
        loop
            invariant
                old(self)@.select_tuple_type_fields(
                                *elements,
                                *requested,
                                selected,
                                span,
                            ) == {
                    let (state, rest) = self@.select_tuple_type_fields(
                                *elements,
                                *ahead,
                                current_selected,
                                span,
                            );
                    (state, prepended_if_any(done@, rest))
                },
                old(self)@.leads_to(self@),
                old(self)@.stays(self@),
            decreases *ahead,
        {
            reveal(State::select_tuple_type_fields);
            match ahead {
                List::Nil => {
                    return Some(prepend(done, List::Nil));
                },
                List::Cons(node) => {
                    match self.select_tuple_type(elements, node.head, &current_selected, span) {
                        None => {
                            return None;
                        },
                        Some(position) => {
                            done.push(position);
                            current_selected = cons(position, current_selected);
                            ahead = &node.tail;
                        },
                    }
                },
            }
        }
    }

    /// The position of a requested type in a tuple.
    pub(crate) fn select_tuple_type(
        &mut self,
        elements: &List<Type>,
        requested: Type,
        selected: &List<u32>,
        span: Span,
    ) -> (position: Option<u32>)
        ensures
            (final(self)@, position) == old(self)@.select_tuple_type(
                *elements,
                requested,
                *selected,
                span,
            ),
            old(self)@.leads_to(final(self)@),
            old(self)@.stays(final(self)@),
    {
        reveal(State::select_tuple_type);
        match position_of(elements, requested, 0) {
            None => {
                self.report(
                    helped(
                        "E6022",
                        frame("tuple does not contain `", &requested.text(), "`"),
                        "each type-addressable tuple element must be unique",
                        span,
                    ),
                );
                None
            },
            Some(position) => if occurs_twice(elements, requested) {
                self.report(
                    helped(
                        "E6022",
                        frame("tuple contains `", &requested.text(), "` more than once"),
                        "each type-addressable tuple element must be unique",
                        span,
                    ),
                );
                None
            } else if holds_position(selected, position) {
                self.report(
                    helped(
                        "E6022",
                        frame("type `", &requested.text(), "` is requested more than once"),
                        "request each tuple element at most once",
                        span,
                    ),
                );
                None
            } else {
                Some(position)
            },
        }
    }

    /// The elements of a tuple at the positions, borrowed. Only the first is
    /// borrowed mutably.
    pub(crate) fn borrow_tuple_type_fields(
        &mut self,
        field: &FieldExpression<'a>,
        selected: &List<u32>,
        mutable: bool,
        span: Span,
        fuel: u32,
    ) -> (borrowed: Option<List<Expression<'a>>>)
        ensures
            (final(self)@, borrowed) == old(self)@.borrow_tuple_type_fields(
                *field,
                *selected,
                mutable,
                span,
                fuel as nat,
            ),
            old(self)@.leads_to(final(self)@),
            forall|watch: Watch| #[trigger]
                watched(watch) && old(self)@.is_apart(watch)
                    && !field_mentions(*field, watch.name)
                    ==> old(self)@.spares(final(self)@, watch),
            forall|scene: Scene| #[trigger]
                final(self)@.admits(scene) && old(self)@.prepared()
                    ==> final(self)@.troubled() || all_sound_if_any(borrowed, scene),
        decreases fuel, 3nat, *selected,
    {
        let mut ahead: &List<u32> = selected;
        let mut current_mutable: bool = mutable;
        let mut done: Vec<Expression<'a>> = Vec::new();
        loop
            invariant
                old(self)@.borrow_tuple_type_fields(
                                *field,
                                *selected,
                                mutable,
                                span,
                                fuel as nat,
                            ) == {
                    let (state, rest) = self@.borrow_tuple_type_fields(
                                *field,
                                *ahead,
                                current_mutable,
                                span,
                                fuel as nat,
                            );
                    (state, prepended_if_any(done@, rest))
                },
                old(self)@.leads_to(self@),
                forall|watch: Watch| #[trigger]
                    watched(watch) && old(self)@.is_apart(watch)
                        && !field_mentions(*field, watch.name)
                        ==> old(self)@.spares(self@, watch),
                forall|scene: Scene| #[trigger]
                    self@.admits(scene) && old(self)@.prepared()
                    ==> self@.troubled() || all_sound(prepended(done@, List::Nil), scene),
            decreases *ahead,
        {
            match ahead {
                List::Nil => {
                    return Some(prepend(done, List::Nil));
                },
                List::Cons(node) => {
                    let element = tuple_element(field, node.head, span);
                    match self.analyze_place(&element, fuel) {
                        None => {
                            return None;
                        },
                        Some(place) => {
                            let first = self.borrow_place(place, current_mutable, span, None);
                            done.push(first);
                            current_mutable = false;
                            ahead = &node.tail;
                        },
                    }
                },
            }
        }
    }

    /// Whether a type is the string of the standard library.
    pub(crate) fn is_string_type(&self, ty: Type) -> (answer: bool)
        ensures
            answer == self@.is_string_type(ty),
    {
        reveal(State::is_string_type);
        match self.types.nominal_name(ty) {
            Some(name) => reads(&name, STANDARD_STRING_TYPE),
            None => false,
        }
    }

    /// The string that a method appends to: its type, and the signature of the
    /// method.
    pub(crate) fn format_target(
        &self,
        field: &FieldExpression<'a>,
        method: &'a str,
    ) -> (target: Option<(Type, Signature)>)
        ensures
            target == self@.format_target(*field, method),
    {
        reveal(State::format_target);
        if same(method, "push_format") {
            match self.place_expression_type(&field.base) {
                None => None,
                Some(ty) => if self.is_string_type(ty) {
                    match self.signature_of(
                        &member_symbol(&words(STANDARD_STRING_TYPE), "push_format"),
                    ) {
                        Some(signature) => Some((ty, signature)),
                        None => None,
                    }
                } else {
                    None
                },
            }
        } else {
            None
        }
    }

    /// A formatted string that is appended to a string.
    pub(crate) fn analyze_format_push_method(
        &mut self,
        call: &CallExpression<'a>,
        field: &FieldExpression<'a>,
        method: Identifier<'a>,
        fuel: u32,
    ) -> (analyzed: Option<Expression<'a>>)
        ensures
            (final(self)@, analyzed) == old(self)@.analyze_format_push_method(
                *call,
                *field,
                method,
                fuel as nat,
            ),
            old(self)@.leads_to(final(self)@),
            forall|watch: Watch| #[trigger]
                watched(watch) && old(self)@.is_apart(watch) && !call_mentions(*call, watch.name)
                    && !field_mentions(*field, watch.name)
                    ==> old(self)@.spares(final(self)@, watch),
            forall|scene: Scene| #[trigger]
                final(self)@.admits(scene) && old(self)@.prepared()
                    ==> final(self)@.troubled() || sound_if_any(analyzed, scene),
        decreases fuel, 12nat, List::<Type>::Nil,
    {
        match self.format_target(field, method.name) {
            None => None,
            Some((receiver, signature)) => {
                if !call.generic_arguments.is_empty() {
                    self.report(
                        helped(
                            "E6004",
                            words("`push_format` does not accept generic arguments"),
                            "remove the arguments between `<` and `>`",
                            call.span,
                        ),
                    );
                }
                let value = self.analyze_format_push(call, field, receiver, &signature, fuel);
                Some(value)
            },
        }
    }

    /// A formatted string that is appended to a string, part by part.
    pub(crate) fn analyze_format_push(
        &mut self,
        call: &CallExpression<'a>,
        field: &FieldExpression<'a>,
        receiver: Type,
        signature: &Signature,
        fuel: u32,
    ) -> (analyzed: Expression<'a>)
        ensures
            (final(self)@, analyzed) == old(self)@.analyze_format_push(
                *call,
                *field,
                receiver,
                *signature,
                fuel as nat,
            ),
            old(self)@.leads_to(final(self)@),
            forall|watch: Watch| #[trigger]
                watched(watch) && old(self)@.is_apart(watch) && !call_mentions(*call, watch.name)
                    && !field_mentions(*field, watch.name)
                    ==> old(self)@.spares(final(self)@, watch),
            forall|scene: Scene| #[trigger]
                final(self)@.admits(scene) && old(self)@.prepared()
                    ==> final(self)@.troubled() || sound(analyzed, scene),
        decreases fuel, 11nat, List::<Type>::Nil,
    {
        match only_formatted_string(&call.arguments) {
            None => {
                self.analyze_discarded(&call.arguments, fuel);
                self.report(
                    helped(
                        "E3160",
                        words("`push_format` expects one `f\"...\"` expression"),
                        "write `string.push_format(f\"value: {value}\")`",
                        call.span,
                    ),
                );
                invalid_composite_expression(call.span)
            },
            Some((fragments, span)) => {
                let calls = self.analyze_format_fragments(
                    &fragments,
                    field,
                    receiver,
                    signature.return_type,
                    fuel,
                );
                let calls = self.require_one_push(
                    calls,
                    field,
                    receiver,
                    signature.return_type,
                    span,
                    fuel,
                );
                typed(
                    ExpressionKind::FormatPush {
                        function: signature.id,
                        calls,
                        success_variant: self.success_variant(signature.return_type),
                    },
                    signature.return_type,
                    call.span,
                )
            },
        }
    }

    /// The position of `Ok` in a result.
    pub(crate) fn success_variant(&self, ty: Type) -> (variant: u32)
        ensures
            variant == self@.success_variant(ty),
    {
        reveal(State::success_variant);
        match self.enum_variant(ty, "Ok") {
            Some((variant, _)) => variant,
            None => 0,
        }
    }

    /// Where nothing is appended, an empty string is.
    pub(crate) fn require_one_push(
        &mut self,
        calls: List<Expression<'a>>,
        field: &FieldExpression<'a>,
        receiver: Type,
        result_type: Type,
        span: Span,
        fuel: u32,
    ) -> (all: List<Expression<'a>>)
        ensures
            (final(self)@, all) == old(self)@.require_one_push(
                calls,
                *field,
                receiver,
                result_type,
                span,
                fuel as nat,
            ),
            old(self)@.leads_to(final(self)@),
            forall|watch: Watch| #[trigger]
                watched(watch) && old(self)@.is_apart(watch)
                    && !field_mentions(*field, watch.name)
                    ==> old(self)@.spares(final(self)@, watch),
            forall|scene: Scene| #[trigger]
                final(self)@.admits(scene) && old(self)@.prepared() && all_sound(calls, scene)
                    ==> final(self)@.troubled() || all_sound(all, scene),
        decreases fuel, 8nat, List::<Type>::Nil,
    {
        if calls.is_empty() {
            let call = self.analyze_string_push_call(
                field,
                receiver,
                "push_str",
                &string_literal("", span),
                result_type,
                span,
                fuel,
            );
            single(call)
        } else {
            calls
        }
    }

    /// The calls that append the parts of a formatted string.
    pub(crate) fn analyze_format_fragments(
        &mut self,
        fragments: &List<FormattedStringFragment<'a>>,
        field: &FieldExpression<'a>,
        receiver: Type,
        result_type: Type,
        fuel: u32,
    ) -> (calls: List<Expression<'a>>)
        ensures
            (final(self)@, calls) == old(self)@.analyze_format_fragments(
                *fragments,
                *field,
                receiver,
                result_type,
                fuel as nat,
            ),
            old(self)@.leads_to(final(self)@),
            forall|watch: Watch| #[trigger]
                watched(watch) && old(self)@.is_apart(watch)
                    && !fragments_mention(*fragments, watch.name)
                    && !field_mentions(*field, watch.name)
                    ==> old(self)@.spares(final(self)@, watch),
            forall|scene: Scene| #[trigger]
                final(self)@.admits(scene) && old(self)@.prepared()
                    ==> final(self)@.troubled() || all_sound(calls, scene),
        decreases fuel, 10nat, *fragments,
    {
        let mut ahead: &List<FormattedStringFragment<'a>> = fragments;
        let mut done: Vec<Expression<'a>> = Vec::new();
        loop
            invariant
                old(self)@.analyze_format_fragments(
                    *fragments,
                    *field,
                    receiver,
                    result_type,
                    fuel as nat,
                ) == {
                    let (state, rest) = self@.analyze_format_fragments(
                        *ahead,
                        *field,
                        receiver,
                        result_type,
                        fuel as nat,
                    );
                    (state, prepended(done@, rest))
                },
                old(self)@.leads_to(self@),
                forall|watch: Watch| #[trigger]
                    watched(watch) && old(self)@.is_apart(watch)
                        && !fragments_mention(*fragments, watch.name)
                        && !field_mentions(*field, watch.name)
                        ==> old(self)@.spares(self@, watch),
                forall|watch: Watch| #[trigger]
                    watched(watch) && !fragments_mention(*fragments, watch.name)
                        ==> !fragments_mention(*ahead, watch.name),
                forall|scene: Scene| #[trigger]
                    self@.admits(scene) && old(self)@.prepared()
                        ==> self@.troubled() || all_sound(
                        prepended(done@, List::Nil),
                        scene,
                    ),
            decreases *ahead,
        {
            match ahead {
                List::Nil => {
                    return prepend(done, List::Nil);
                },
                List::Cons(node) => {
                    match self.analyze_format_fragment(
                        &node.head,
                        field,
                        receiver,
                        result_type,
                        fuel,
                    ) {
                        Some(first) => {
                            done.push(first);
                        },
                        None => {
                        },
                    }
                    ahead = &node.tail;
                },
            }
        }
    }

    /// The call that appends a part of a formatted string.
    pub(crate) fn analyze_format_fragment(
        &mut self,
        fragment: &FormattedStringFragment<'a>,
        field: &FieldExpression<'a>,
        receiver: Type,
        result_type: Type,
        fuel: u32,
    ) -> (call: Option<Expression<'a>>)
        ensures
            (final(self)@, call) == old(self)@.analyze_format_fragment(
                *fragment,
                *field,
                receiver,
                result_type,
                fuel as nat,
            ),
            old(self)@.leads_to(final(self)@),
            forall|watch: Watch| #[trigger]
                watched(watch) && old(self)@.is_apart(watch)
                    && !fragment_mentions(*fragment, watch.name)
                    && !field_mentions(*field, watch.name)
                    ==> old(self)@.spares(final(self)@, watch),
            forall|scene: Scene| #[trigger]
                final(self)@.admits(scene) && old(self)@.prepared()
                    ==> final(self)@.troubled() || sound_if_any(call, scene),
        decreases fuel, 9nat, List::<Type>::Nil,
    {
        assert forall|mode: FormattingMode| (#[trigger] spec_append_function(mode))@ == match mode {
            FormattingMode::Display => STANDARD_APPEND_DISPLAY@,
            FormattingMode::Debug => STANDARD_APPEND_DEBUG@,
        } by {
            reveal(spec_append_function);
        }
        match fragment {
            FormattedStringFragment::Text(value, span) => {
                let call = self.analyze_string_push_call(
                    field,
                    receiver,
                    "push_str",
                    &string_literal(value, *span),
                    result_type,
                    *span,
                    fuel,
                );
                Some(call)
            },
            FormattedStringFragment::Display(value) => self.analyze_formatted_value(
                field,
                receiver,
                value,
                result_type,
                FormattingMode::Display,
                fuel,
            ),
            FormattedStringFragment::Debug(value) => self.analyze_formatted_value(
                field,
                receiver,
                value,
                result_type,
                FormattingMode::Debug,
                fuel,
            ),
        }
    }

    /// The method that appends values of a type to a string.
    pub(crate) fn format_method(&self, ty: Type) -> (method: Option<&'a str>)
        ensures
            method == self@.format_method(ty),
    {
        reveal(State::format_method);
        if self.is_string_type(ty) {
            Some("push_string")
        } else {
            string_format_method(ty)
        }
    }

    /// The call that appends a value in a formatted string.
    pub(crate) fn analyze_formatted_value(
        &mut self,
        field: &FieldExpression<'a>,
        receiver: Type,
        value: &ast::Expression<'a>,
        result_type: Type,
        mode: FormattingMode,
        fuel: u32,
    ) -> (call: Option<Expression<'a>>)
        ensures
            (final(self)@, call) == old(self)@.analyze_formatted_value(
                *field,
                receiver,
                *value,
                result_type,
                mode,
                fuel as nat,
            ),
            old(self)@.leads_to(final(self)@),
            forall|watch: Watch| #[trigger]
                watched(watch) && old(self)@.is_apart(watch)
                    && !field_mentions(*field, watch.name) && !mentions(*value, watch.name)
                    && spec_append_function(mode)@ != watch.name
                    ==> old(self)@.spares(final(self)@, watch),
            forall|scene: Scene| #[trigger]
                final(self)@.admits(scene) && old(self)@.prepared()
                    ==> final(self)@.troubled() || sound_if_any(call, scene),
        decreases fuel, 8nat, List::<Type>::Nil,
    {
        match self.place_expression_type(value) {
            Some(ty) => self.format_place(field, receiver, value, ty, result_type, mode, fuel),
            None => {
                let analyzed = self.analyze_expression_non_consuming(value, fuel);
                self.format_temporary(field, receiver, value, analyzed, result_type, mode, fuel)
            },
        }
    }

    /// The call that appends the value of a place.
    pub(crate) fn format_place(
        &mut self,
        field: &FieldExpression<'a>,
        receiver: Type,
        value: &ast::Expression<'a>,
        ty: Type,
        result_type: Type,
        mode: FormattingMode,
        fuel: u32,
    ) -> (call: Option<Expression<'a>>)
        ensures
            (final(self)@, call) == old(self)@.format_place(
                *field,
                receiver,
                *value,
                ty,
                result_type,
                mode,
                fuel as nat,
            ),
            old(self)@.leads_to(final(self)@),
            forall|watch: Watch| #[trigger]
                watched(watch) && old(self)@.is_apart(watch)
                    && !field_mentions(*field, watch.name) && !mentions(*value, watch.name)
                    && spec_append_function(mode)@ != watch.name
                    ==> old(self)@.spares(final(self)@, watch),
            forall|scene: Scene| #[trigger]
                final(self)@.admits(scene) && old(self)@.prepared()
                    ==> final(self)@.troubled() || sound_if_any(call, scene),
        decreases fuel, 7nat, List::<Type>::Nil,
    {
        match self.format_method(ty) {
            Some(method) => {
                let argument = if is_plain_value(ty) {
                    self.analyze_expression_expected(value, None, fuel)
                } else {
                    self.analyze_borrow(false, value, value.span, None, fuel)
                };
                let call = self.build_string_push_call(
                    field,
                    receiver,
                    method,
                    argument,
                    result_type,
                    value.span,
                    fuel,
                );
                Some(call)
            },
            None => if self.types.satisfies_trait(ty, formatting_trait(mode)) {
                let call = self.analyze_trait_append_call(
                    field,
                    value,
                    result_type,
                    append_function(mode),
                    fuel,
                );
                Some(call)
            } else {
                self.reject_interpolation(ty, mode, value.span);
                None
            },
        }
    }

    /// The call that appends a value without a place.
    pub(crate) fn format_temporary(
        &mut self,
        field: &FieldExpression<'a>,
        receiver: Type,
        value: &ast::Expression<'a>,
        analyzed: Expression<'a>,
        result_type: Type,
        mode: FormattingMode,
        fuel: u32,
    ) -> (call: Option<Expression<'a>>)
        ensures
            (final(self)@, call) == old(self)@.format_temporary(
                *field,
                receiver,
                *value,
                analyzed,
                result_type,
                mode,
                fuel as nat,
            ),
            old(self)@.leads_to(final(self)@),
            forall|watch: Watch| #[trigger]
                watched(watch) && old(self)@.is_apart(watch)
                    && !field_mentions(*field, watch.name) && !mentions(*value, watch.name)
                    ==> old(self)@.spares(final(self)@, watch),
            forall|scene: Scene| #[trigger]
                final(self)@.admits(scene) && old(self)@.prepared() && sound(analyzed, scene)
                    ==> final(self)@.troubled() || sound_if_any(call, scene),
        decreases fuel, 7nat, List::<Type>::Nil,
    {
        match self.format_method(analyzed.ty) {
            Some(method) => {
                let argument = if is_plain_value(analyzed.ty) {
                    analyzed
                } else {
                    self.analyze_borrow(false, value, value.span, None, fuel)
                };
                let call = self.build_string_push_call(
                    field,
                    receiver,
                    method,
                    argument,
                    result_type,
                    value.span,
                    fuel,
                );
                Some(call)
            },
            None => {
                self.reject_temporary_interpolation(analyzed.ty, mode, value.span);
                None
            },
        }
    }

    /// A value without a place that is not appended as it is.
    pub(crate) fn reject_temporary_interpolation(
        &mut self,
        ty: Type,
        mode: FormattingMode,
        span: Span,
    )
        ensures
            final(self)@ == old(self)@.reject_temporary_interpolation(ty, mode, span),
            old(self)@.leads_to(final(self)@),
            old(self)@.stays(final(self)@),
    {
        reveal(State::reject_temporary_interpolation);
        if self.types.satisfies_trait(ty, formatting_trait(mode)) {
            self.report(
                helped(
                    "E3162",
                    words("formatted owned values must be bound before borrowing"),
                    "bind the value to a local, then interpolate that local",
                    span,
                ),
            );
        } else {
            self.reject_interpolation(ty, mode, span);
        }
    }

    /// A value that cannot be shown.
    pub(crate) fn reject_interpolation(&mut self, ty: Type, mode: FormattingMode, span: Span)
        ensures
            final(self)@ == old(self)@.reject_interpolation(ty, mode, span),
            old(self)@.leads_to(final(self)@),
            old(self)@.stays(final(self)@),
    {
        reveal(State::reject_interpolation);
        self.report(
            advised(
                "E3161",
                frame("type `", &self.types.reflection_type_name(ty), "` cannot be interpolated"),
                words3(
                    "implement `std::fmt::",
                    match mode {
                        FormattingMode::Display => "Display",
                        FormattingMode::Debug => "Debug",
                    },
                    "` for this nominal type",
                ),
                span,
            ),
        );
    }

    /// The call that appends a value to a string.
    pub(crate) fn analyze_string_push_call(
        &mut self,
        field: &FieldExpression<'a>,
        receiver: Type,
        method: &'a str,
        value: &ast::Expression<'a>,
        result_type: Type,
        span: Span,
        fuel: u32,
    ) -> (call: Expression<'a>)
        ensures
            (final(self)@, call) == old(self)@.analyze_string_push_call(
                *field,
                receiver,
                method,
                *value,
                result_type,
                span,
                fuel as nat,
            ),
            old(self)@.leads_to(final(self)@),
            forall|watch: Watch| #[trigger]
                watched(watch) && old(self)@.is_apart(watch)
                    && !field_mentions(*field, watch.name) && !mentions(*value, watch.name)
                    ==> old(self)@.spares(final(self)@, watch),
            forall|scene: Scene| #[trigger]
                final(self)@.admits(scene) && old(self)@.prepared()
                    ==> final(self)@.troubled() || sound(call, scene),
        decreases fuel, 7nat, List::<Type>::Nil,
    {
        let analyzed = self.analyze_expression_expected(value, None, fuel);
        self.build_string_push_call(field, receiver, method, analyzed, result_type, span, fuel)
    }

    /// The first parameter of a method of the standard string, and its signature.
    pub(crate) fn string_method(&self, method: &'a str) -> (signature: Option<Signature>)
        ensures
            signature == self@.string_method(method),
            signature is Some ==> self@.knows(signature->0),
    {
        reveal(State::string_method);
        self.signature_of(&member_symbol(&words(STANDARD_STRING_TYPE), method))
    }

    /// The call of a method of the standard string.
    pub(crate) fn build_string_push_call(
        &mut self,
        field: &FieldExpression<'a>,
        receiver: Type,
        method: &'a str,
        value: Expression<'a>,
        result_type: Type,
        span: Span,
        fuel: u32,
    ) -> (call: Expression<'a>)
        ensures
            (final(self)@, call) == old(self)@.build_string_push_call(
                *field,
                receiver,
                method,
                value,
                result_type,
                span,
                fuel as nat,
            ),
            old(self)@.leads_to(final(self)@),
            forall|watch: Watch| #[trigger]
                watched(watch) && old(self)@.is_apart(watch)
                    && !field_mentions(*field, watch.name)
                    ==> old(self)@.spares(final(self)@, watch),
            forall|scene: Scene| #[trigger]
                final(self)@.admits(scene) && old(self)@.prepared() && sound(value, scene)
                    ==> final(self)@.troubled() || sound(call, scene),
        decreases fuel, 6nat, List::<Type>::Nil,
    {
        match self.string_method(method) {
            None => {
                self.report(
                    error(
                        "E3163",
                        words3("standard formatting method `", method, "` is unavailable"),
                        span,
                    ),
                );
                invalid_composite_expression(span)
            },
            Some(signature) => match first_type(&signature.parameter_types) {
                None => invalid_composite_expression(span),
                Some(expected) => {
                    let first = self.analyze_method_receiver(&field.base, receiver, expected, fuel);
                    self.finish_string_push(method, &signature, first, value, result_type, span)
                },
            },
        }
    }

    /// The checked call of a method of the standard string.
    pub(crate) fn finish_string_push(
        &mut self,
        method: &'a str,
        signature: &Signature,
        receiver: Expression<'a>,
        value: Expression<'a>,
        result_type: Type,
        span: Span,
    ) -> (call: Expression<'a>)
        ensures
            (final(self)@, call) == old(self)@.finish_string_push(
                method,
                *signature,
                receiver,
                value,
                result_type,
                span,
            ),
            old(self)@.leads_to(final(self)@),
            old(self)@.stays(final(self)@),
            forall|scene: Scene| #[trigger]
                final(self)@.admits(scene) && old(self)@.prepared() && sound(receiver, scene)
                    && sound(value, scene) && scene.callees.contains(*signature)
                    ==> final(self)@.troubled() || sound(call, scene),
    {
        reveal(State::finish_string_push);
        let arguments = cons(receiver, single(value));
        self.validate_call_arguments(
            &member_symbol(&words(STANDARD_STRING_TYPE), method),
            span,
            signature,
            &arguments,
        );
        self.require_type(result_type, signature.return_type, span, "format write");
        typed(
            ExpressionKind::Call { function: signature.id, arguments },
            signature.return_type,
            span,
        )
    }

    /// The call of a function that appends a value to a string.
    pub(crate) fn analyze_trait_append_call(
        &mut self,
        field: &FieldExpression<'a>,
        value: &ast::Expression<'a>,
        result_type: Type,
        function: &'a str,
        fuel: u32,
    ) -> (analyzed: Expression<'a>)
        ensures
            (final(self)@, analyzed) == old(self)@.analyze_trait_append_call(
                *field,
                *value,
                result_type,
                function,
                fuel as nat,
            ),
            old(self)@.leads_to(final(self)@),
            forall|watch: Watch| #[trigger]
                watched(watch) && old(self)@.is_apart(watch)
                    && !field_mentions(*field, watch.name) && !mentions(*value, watch.name)
                    && function@ != watch.name
                    ==> old(self)@.spares(final(self)@, watch),
            forall|scene: Scene| #[trigger]
                final(self)@.admits(scene) && old(self)@.prepared()
                    ==> final(self)@.troubled() || sound(analyzed, scene),
        decreases fuel, 1nat, List::<Type>::Nil,
    {
        let call = append_call(field, value, function);
        assert forall|watch: Watch| #[trigger]
            watched(watch) && !field_mentions(*field, watch.name) && !mentions(*value, watch.name)
                && function@ != watch.name implies !call_mentions(call, watch.name) by {
            append_calls_mention(*field, *value, function, watch.name);
        }
        self.analyze_call_within(&call, Some(result_type), fuel)
    }

    /// A method that the language itself knows takes no generic arguments, and
    /// that many arguments.
    pub(crate) fn check_intrinsic_method(
        &mut self,
        call: &CallExpression<'a>,
        method: Identifier<'a>,
        receiver: &'a str,
        expected: u64,
    )
        ensures
            final(self)@ == old(self)@.check_intrinsic_method(*call, method, receiver, expected),
            old(self)@.leads_to(final(self)@),
            old(self)@.stays(final(self)@),
    {
        reveal(State::check_intrinsic_method);
        if !call.generic_arguments.is_empty() {
            self.report(
                helped(
                    "E6004",
                    cons(
                        Piece::Words(receiver),
                        words3(" method `", method.name, "` is not generic"),
                    ),
                    "remove the arguments between `<` and `>`",
                    call.span,
                ),
            );
        }
        if call.arguments.count() != expected {
            self.report(
                error(
                    "E3105",
                    method_count(receiver, method.name, expected, call.arguments.count()),
                    call.span,
                ),
            );
        }
    }

    /// The type of the integers that a result is expected of.
    pub(crate) fn expected_integer(
        &self,
        mode: IntegerAdditionMode,
        expected: Option<Type>,
    ) -> (ty: Option<Type>)
        ensures
            ty == self@.expected_integer(mode, expected),
    {
        reveal(State::expected_integer);
        match expected {
            None => None,
            Some(expected) => match mode {
                IntegerAdditionMode::Checked => match self.types.intrinsic(expected) {
                    Some(IntrinsicType::Option { value }) => if value.is_integer() {
                        Some(value)
                    } else {
                        None
                    },
                    _ => None,
                },
                _ => if expected.is_integer() {
                    Some(expected)
                } else {
                    None
                },
            },
        }
    }

    /// A method that adds integers.
    pub(crate) fn analyze_integer_addition_method(
        &mut self,
        call: &CallExpression<'a>,
        field: &FieldExpression<'a>,
        method: Identifier<'a>,
        expected: Option<Type>,
        fuel: u32,
    ) -> (analyzed: Option<Expression<'a>>)
        ensures
            (final(self)@, analyzed) == old(self)@.analyze_integer_addition_method(
                *call,
                *field,
                method,
                expected,
                fuel as nat,
            ),
            old(self)@.leads_to(final(self)@),
            forall|watch: Watch| #[trigger]
                watched(watch) && old(self)@.is_apart(watch) && !call_mentions(*call, watch.name)
                    && !field_mentions(*field, watch.name)
                    ==> old(self)@.spares(final(self)@, watch),
            forall|scene: Scene| #[trigger]
                final(self)@.admits(scene) && old(self)@.prepared()
                    ==> final(self)@.troubled() || sound_if_any(analyzed, scene),
            final(self)@.troubled() || match analyzed {
                Some(value) => match *value.kind {
                    ExpressionKind::IntegerAddition { left, right, .. } => renders(field.base, left) && (
                    call.arguments@.len() > 0 ==> renders(call.arguments@[0], right)),
                    _ => false,
                },
                None => true,
            },
        decreases fuel, 3nat, List::<Type>::Nil,
    {
        match addition_mode(method.name) {
            None => None,
            Some(mode) => {
                self.check_intrinsic_method(call, method, "integer", 1);
                let wanted = self.expected_integer(mode, expected);
                let left = self.analyze_expression_expected(&field.base, wanted, fuel);
                let right = self.analyze_argument(call, 0, Some(left.ty), fuel);
                self.analyze_extra(call, 1, fuel);
                let value = self.add_integers(mode, left, right, method, expected, call.span);
                Some(value)
            },
        }
    }

    /// The type of a sum.
    pub(crate) fn sum_type(
        &mut self,
        mode: IntegerAdditionMode,
        ty: Type,
        span: Span,
    ) -> (sum: Type)
        ensures
            (final(self)@, sum) == old(self)@.sum_type(mode, ty, span),
            old(self)@.leads_to(final(self)@),
            old(self)@.stays(final(self)@),
    {
        reveal(State::sum_type);
        match mode {
            IntegerAdditionMode::Checked => match self.intern_option(ty, span) {
                Some(ty) => ty,
                None => Type::Unit,
            },
            _ => ty,
        }
    }

    /// A sum of integers.
    pub(crate) fn add_integers(
        &mut self,
        mode: IntegerAdditionMode,
        left: Expression<'a>,
        right: Expression<'a>,
        method: Identifier<'a>,
        expected: Option<Type>,
        span: Span,
    ) -> (analyzed: Expression<'a>)
        ensures
            (final(self)@, analyzed) == old(self)@.add_integers(
                mode,
                left,
                right,
                method,
                expected,
                span,
            ),
            old(self)@.leads_to(final(self)@),
            old(self)@.stays(final(self)@),
            forall|scene: Scene| #[trigger]
                final(self)@.admits(scene) && old(self)@.prepared() && sound(left, scene)
                    && sound(right, scene)
                    ==> final(self)@.troubled() || sound(analyzed, scene),
            final(self)@.troubled() || *analyzed.kind == (ExpressionKind::IntegerAddition {
                mode,
                left,
                right,
            }),
    {
        reveal(State::add_integers);
        if !left.ty.is_integer() {
            self.report(
                error(
                    "E6002",
                    cons(
                        Piece::Words("method `"),
                        cons(
                            Piece::Words(method.name),
                            frame("` does not exist on non-integer type `", &left.ty.text(), "`"),
                        ),
                    ),
                    method.span,
                ),
            );
            return invalid_composite_expression(span);
        }
        self.require_type(left.ty, right.ty, right.span, "integer method argument");
        let ty = self.sum_type(mode, left.ty, span);
        self.require_expected(expected, ty, span, "integer method result");
        typed(ExpressionKind::IntegerAddition { mode, left, right }, ty, span)
    }

    /// Whether an expression is a string.
    pub(crate) fn is_string_expression(&self, expression: &ast::Expression<'a>) -> (answer: bool)
        ensures
            answer == self@.is_string_expression(*expression),
    {
        reveal(State::is_string_expression);
        match &*expression.kind {
            ast::ExpressionKind::String(_) => true,
            _ => match self.place_expression_type(expression) {
                Some(ty) => ty == Type::Str,
                None => false,
            },
        }
    }

    /// The type of the bytes or the characters of a string.
    pub(crate) fn string_part_type(&mut self, bytes: bool, span: Span) -> (ty: Type)
        ensures
            (final(self)@, ty) == old(self)@.string_part_type(bytes, span),
            old(self)@.leads_to(final(self)@),
            old(self)@.stays(final(self)@),
    {
        reveal(State::string_part_type);
        if bytes {
            match self.intern_slice(Type::U8, false, span) {
                Some(ty) => ty,
                None => Type::Unit,
            }
        } else {
            match self.intern_chars(span) {
                Some(ty) => ty,
                None => Type::Unit,
            }
        }
    }

    /// A borrow that lasts until the innermost scope ends.
    pub(crate) fn record_lasting_borrow(
        &mut self,
        operand: &ast::Expression<'a>,
        mutable: bool,
        span: Span,
    )
        ensures
            final(self)@ == old(self)@.record_lasting_borrow(*operand, mutable, span),
            old(self)@.leads_to(final(self)@),
            old(self)@.stays(final(self)@),
    {
        reveal(State::record_lasting_borrow);
        let persistent = self.frame.persistent_borrow;
        self.set_persistent(true);
        self.check_and_record_borrow(operand, mutable, span);
        self.set_persistent(persistent);
    }

    /// A method that looks at a string.
    pub(crate) fn analyze_string_iteration_method(
        &mut self,
        call: &CallExpression<'a>,
        field: &FieldExpression<'a>,
        method: Identifier<'a>,
        expected: Option<Type>,
        fuel: u32,
    ) -> (analyzed: Option<Expression<'a>>)
        ensures
            (final(self)@, analyzed) == old(self)@.analyze_string_iteration_method(
                *call,
                *field,
                method,
                expected,
                fuel as nat,
            ),
            old(self)@.leads_to(final(self)@),
            forall|watch: Watch| #[trigger]
                watched(watch) && old(self)@.is_apart(watch) && !call_mentions(*call, watch.name)
                    && !field_mentions(*field, watch.name)
                    ==> old(self)@.spares(final(self)@, watch),
            forall|scene: Scene| #[trigger]
                final(self)@.admits(scene) && old(self)@.prepared()
                    ==> final(self)@.troubled() || sound_if_any(analyzed, scene),
        decreases fuel, 2nat, List::<Type>::Nil,
    {
        match string_iteration(method.name) {
            None => None,
            Some(bytes) => if self.is_string_expression(&field.base) {
                self.check_intrinsic_method(call, method, "string", 0);
                self.analyze_discarded(&call.arguments, fuel);
                self.require_expression_root_available(&field.base, call.span);
                let source = self.analyze_expression_non_consuming(&field.base, fuel);
                let value = self.look_at_string(source, bytes, &field.base, expected, call.span);
                Some(value)
            } else {
                None
            },
        }
    }

    /// The bytes or the characters of a string.
    pub(crate) fn look_at_string(
        &mut self,
        source: Expression<'a>,
        bytes: bool,
        operand: &ast::Expression<'a>,
        expected: Option<Type>,
        span: Span,
    ) -> (analyzed: Expression<'a>)
        ensures
            (final(self)@, analyzed) == old(self)@.look_at_string(
                source,
                bytes,
                *operand,
                expected,
                span,
            ),
            old(self)@.leads_to(final(self)@),
            old(self)@.stays(final(self)@),
            forall|scene: Scene| #[trigger]
                final(self)@.admits(scene) && old(self)@.prepared() && sound(source, scene)
                    ==> final(self)@.troubled() || sound(analyzed, scene),
    {
        reveal(State::look_at_string);
        self.record_lasting_borrow(operand, false, span);
        let ty = self.string_part_type(bytes, span);
        self.require_expected(expected, ty, span, "string method result");
        if bytes {
            typed(ExpressionKind::StringBytes(source), ty, span)
        } else {
            typed(ExpressionKind::StringChars(source), ty, span)
        }
    }

    /// Whether a method takes the next character of an iterator.
    pub(crate) fn is_chars_next(
        &self,
        field: &FieldExpression<'a>,
        method: &'a str,
    ) -> (answer: bool)
        ensures
            answer == self@.is_chars_next(*field, method),
    {
        reveal(State::is_chars_next);
        same(method, "next")
            && (match self.place_expression_type(&field.base) {
                Some(ty) => self.types.is_chars(ty),
                None => false,
            })
    }

    /// The next character of an iterator.
    pub(crate) fn analyze_chars_next_method(
        &mut self,
        call: &CallExpression<'a>,
        field: &FieldExpression<'a>,
        method: Identifier<'a>,
        expected: Option<Type>,
        fuel: u32,
    ) -> (analyzed: Option<Expression<'a>>)
        ensures
            (final(self)@, analyzed) == old(self)@.analyze_chars_next_method(
                *call,
                *field,
                method,
                expected,
                fuel as nat,
            ),
            old(self)@.leads_to(final(self)@),
            forall|watch: Watch| #[trigger]
                watched(watch) && old(self)@.is_apart(watch) && !call_mentions(*call, watch.name)
                    && !field_mentions(*field, watch.name)
                    ==> old(self)@.spares(final(self)@, watch),
            forall|scene: Scene| #[trigger]
                final(self)@.admits(scene) && old(self)@.prepared()
                    ==> final(self)@.troubled() || sound_if_any(analyzed, scene),
        decreases fuel, 3nat, List::<Type>::Nil,
    {
        if !self.is_chars_next(field, method.name) {
            return None;
        }
        self.check_intrinsic_method(call, method, "character iterator", 0);
        self.analyze_discarded(&call.arguments, fuel);
        self.require_expression_root_available(&field.base, call.span);
        self.require_mutable_place(&field.base, fuel);
        match self.analyze_place(&field.base, fuel) {
            None => None,
            Some(iterator) => {
                let value = self.next_character(iterator, expected, call.span);
                Some(value)
            },
        }
    }

    /// The next character of an iterator, if there is one.
    pub(crate) fn next_character(
        &mut self,
        iterator: hir::Place<'a>,
        expected: Option<Type>,
        span: Span,
    ) -> (analyzed: Expression<'a>)
        ensures
            (final(self)@, analyzed) == old(self)@.next_character(iterator, expected, span),
            old(self)@.leads_to(final(self)@),
            old(self)@.stays(final(self)@),
            forall|scene: Scene| #[trigger]
                final(self)@.admits(scene) && old(self)@.prepared() && sound_place(iterator, scene)
                    ==> final(self)@.troubled() || sound(analyzed, scene),
    {
        reveal(State::next_character);
        let interned = self.intern_option(Type::Char, span);
        let ty = match interned {
            Some(ty) => ty,
            None => Type::Unit,
        };
        self.require_expected(expected, ty, span, "iterator method result");
        typed(ExpressionKind::CharsNext { iterator }, ty, span)
    }

    /// The element of the slice that an expression names, and whether it is
    /// mutable.
    pub(crate) fn slice_at(&self, expression: &ast::Expression<'a>) -> (shape: Option<(Type, bool)>)
        ensures
            shape == self@.slice_at(*expression),
    {
        reveal(State::slice_at);
        match self.place_expression_type(expression) {
            Some(ty) => self.types.slice_shape(ty),
            None => None,
        }
    }

    /// A method that borrows an element of a slice.
    pub(crate) fn analyze_slice_access_method(
        &mut self,
        call: &CallExpression<'a>,
        field: &FieldExpression<'a>,
        method: Identifier<'a>,
        expected: Option<Type>,
        fuel: u32,
    ) -> (analyzed: Option<Expression<'a>>)
        ensures
            (final(self)@, analyzed) == old(self)@.analyze_slice_access_method(
                *call,
                *field,
                method,
                expected,
                fuel as nat,
            ),
            old(self)@.leads_to(final(self)@),
            forall|watch: Watch| #[trigger]
                watched(watch) && old(self)@.is_apart(watch) && !call_mentions(*call, watch.name)
                    && !field_mentions(*field, watch.name)
                    ==> old(self)@.spares(final(self)@, watch),
            forall|scene: Scene| #[trigger]
                final(self)@.admits(scene) && old(self)@.prepared()
                    ==> final(self)@.troubled() || sound_if_any(analyzed, scene),
        decreases fuel, 3nat, List::<Type>::Nil,
    {
        match slice_access(method.name) {
            None => None,
            Some(mutable) => match self.slice_at(&field.base) {
                None => None,
                Some((element, slice_mutable)) => {
                    self.check_slice_access(call, field, method, mutable, slice_mutable);
                    let slice = self.analyze_expression_non_consuming(&field.base, fuel);
                    self.record_lasting_borrow(&field.base, mutable, call.span);
                    let index = self.analyze_argument(call, 0, Some(Type::Usize), fuel);
                    self.analyze_extra(call, 1, fuel);
                    let value = self.borrow_element(
                        slice,
                        index,
                        element,
                        mutable,
                        expected,
                        call.span,
                    );
                    Some(value)
                },
            },
        }
    }

    /// A mutable element needs a mutable slice.
    pub(crate) fn check_slice_access(
        &mut self,
        call: &CallExpression<'a>,
        field: &FieldExpression<'a>,
        method: Identifier<'a>,
        mutable: bool,
        slice_mutable: bool,
    )
        ensures
            final(self)@ == old(self)@.check_slice_access(
                *call,
                *field,
                method,
                mutable,
                slice_mutable,
            ),
            old(self)@.leads_to(final(self)@),
            old(self)@.stays(final(self)@),
    {
        reveal(State::check_slice_access);
        self.check_intrinsic_method(call, method, "slice", 1);
        if mutable && !slice_mutable {
            self.report(
                helped(
                    "E3107",
                    words("`get_mut` requires a mutable slice"),
                    "borrow the source as `&mut [T]` before calling `get_mut`",
                    field.span,
                ),
            );
        }
        self.require_expression_root_available(&field.base, call.span);
    }

    /// A reference to an element of a slice, if there is one.
    pub(crate) fn borrow_element(
        &mut self,
        slice: Expression<'a>,
        index: Expression<'a>,
        element: Type,
        mutable: bool,
        expected: Option<Type>,
        span: Span,
    ) -> (analyzed: Expression<'a>)
        ensures
            (final(self)@, analyzed) == old(self)@.borrow_element(
                slice,
                index,
                element,
                mutable,
                expected,
                span,
            ),
            old(self)@.leads_to(final(self)@),
            old(self)@.stays(final(self)@),
            forall|scene: Scene| #[trigger]
                final(self)@.admits(scene) && old(self)@.prepared() && sound(slice, scene)
                    && sound(index, scene)
                    ==> final(self)@.troubled() || sound(analyzed, scene),
            match *analyzed.kind {
                ExpressionKind::SliceGet { slice: whole, index: position, mutable: changeable, .. } => whole
                    == slice && position == index && changeable == mutable,
                _ => false,
            },
    {
        reveal(State::borrow_element);
        self.require_type(Type::Usize, index.ty, index.span, "slice index");
        let interned = self.intern_reference(element, mutable, span);
        let reference_type = match interned {
            Some(ty) => ty,
            None => Type::Unit,
        };
        let wrapped = self.intern_option(reference_type, span);
        let ty = match wrapped {
            Some(ty) => ty,
            None => Type::Unit,
        };
        self.require_expected(expected, ty, span, "slice method result");
        typed(ExpressionKind::SliceGet { slice, index, reference_type, mutable }, ty, span)
    }

    /// A call of a method that is not generic.
    pub(crate) fn analyze_resolved_method_call(
        &mut self,
        call: &CallExpression<'a>,
        field: &FieldExpression<'a>,
        method: Identifier<'a>,
        receiver: Type,
        name: &Text<'a>,
        signature: &Signature,
        fuel: u32,
    ) -> (analyzed: Expression<'a>)
        ensures
            (final(self)@, analyzed) == old(self)@.analyze_resolved_method_call(
                *call,
                *field,
                method,
                receiver,
                *name,
                *signature,
                fuel as nat,
            ),
            old(self)@.leads_to(final(self)@),
            forall|watch: Watch| #[trigger]
                watched(watch) && old(self)@.is_apart(watch) && !call_mentions(*call, watch.name)
                    && !field_mentions(*field, watch.name)
                    ==> old(self)@.spares(final(self)@, watch),
            forall|scene: Scene| #[trigger]
                final(self)@.admits(scene) && old(self)@.prepared() && scene.callees.contains(
                    *signature,
                ) ==> final(self)@.troubled() || sound(analyzed, scene),
            final(self)@.troubled() || match *analyzed.kind {
                ExpressionKind::Call { function, arguments } => function == signature.id
                    && arguments is Cons && receives(field.base, arguments.first()) && all_render(
                    call.arguments,
                    arguments.rest(),
                ),
                _ => false,
            },
        decreases fuel, 6nat, List::<Type>::Nil,
    {
        self.check_resolved_method(call, method, receiver, signature);
        match first_type(&signature.parameter_types) {
            None => self.reject_call(
                helped(
                    "E6002",
                    frame("associated function `", name, "` has no `self` receiver"),
                    "call it with `Type::function(...)`",
                    method.span,
                ),
                call,
                fuel,
            ),
            Some(expected) => {
                let persistent = self.frame.persistent_borrow;
                self.set_persistent(persistent || self.types.is_scoped(signature.return_type));
                let first = self.analyze_method_receiver(&field.base, receiver, expected, fuel);
                let rest = self.analyze_arguments(
                    &call.arguments,
                    &rest_types(&signature.parameter_types),
                    fuel,
                );
                self.set_persistent(persistent);
                let arguments = cons(first, rest);
                self.validate_call_arguments(name, call.span, signature, &arguments);
                typed(
                    ExpressionKind::Call { function: signature.id, arguments },
                    signature.return_type,
                    call.span,
                )
            },
        }
    }

    /// A method that is not generic takes no generic arguments, and must be
    /// visible.
    pub(crate) fn check_resolved_method(
        &mut self,
        call: &CallExpression<'a>,
        method: Identifier<'a>,
        receiver: Type,
        signature: &Signature,
    )
        ensures
            final(self)@ == old(self)@.check_resolved_method(*call, method, receiver, *signature),
            old(self)@.leads_to(final(self)@),
            old(self)@.stays(final(self)@),
    {
        reveal(State::check_resolved_method);
        if !call.generic_arguments.is_empty() {
            self.report(
                helped(
                    "E6004",
                    words3("method `", method.name, "` is not generic"),
                    "remove the arguments between `<` and `>`",
                    call.span,
                ),
            );
        }
        self.require_visible_method(method, receiver, signature.is_public);
    }

    /// A method must be visible.
    pub(crate) fn require_visible_method(
        &mut self,
        method: Identifier<'a>,
        receiver: Type,
        is_public: bool,
    )
        ensures
            final(self)@ == old(self)@.require_visible_method(method, receiver, is_public),
            old(self)@.leads_to(final(self)@),
            old(self)@.stays(final(self)@),
    {
        reveal(State::require_visible_method);
        if !is_public && self.type_is_external(receiver) {
            self.report(
                helped(
                    "E4005",
                    words3("method `", method.name, "` is private to its defining module"),
                    "mark the method `pub` or expose a public wrapper",
                    method.span,
                ),
            );
        }
    }

    /// A function of a type without receiver.
    pub(crate) fn missing_receiver_diagnostic(
        &mut self,
        name: &Text<'a>,
        span: Span,
        add_help: bool,
    )
        ensures
            final(self)@ == old(self)@.missing_receiver_diagnostic(*name, span, add_help),
            old(self)@.leads_to(final(self)@),
            old(self)@.stays(final(self)@),
    {
        reveal(State::missing_receiver_diagnostic);
        if add_help {
            self.report(
                helped(
                    "E6002",
                    frame("associated function `", name, "` has no `self` receiver"),
                    "call it with `Type::function(...)`",
                    span,
                ),
            );
        } else {
            self.report(
                error(
                    "E6002",
                    frame("associated function `", name, "` has no `self` receiver"),
                    span,
                ),
            );
        }
    }

    /// The type of the receiver of a generic method.
    pub(crate) fn receiver_type_name(
        &mut self,
        template: &GenericFunctionTemplate<'a>,
        name: &Text<'a>,
        span: Span,
    ) -> (written: Option<TypeName<'a>>)
        ensures
            (final(self)@, written) == old(self)@.receiver_type_name(*template, *name, span),
            old(self)@.leads_to(final(self)@),
            old(self)@.stays(final(self)@),
    {
        reveal(State::receiver_type_name);
        match &template.function.parameters {
            List::Nil => {
                self.missing_receiver_diagnostic(name, span, false);
                None
            },
            List::Cons(node) => if same(node.head.name.name, "self") {
                Some(node.head.ty.share())
            } else {
                self.missing_receiver_diagnostic(name, span, true);
                None
            },
        }
    }

    /// The receiver of a generic method as its first argument.
    pub(crate) fn generic_receiver(
        &self,
        base: &ast::Expression<'a>,
        written: &TypeName<'a>,
        receiver: Type,
    ) -> (argument: ast::Expression<'a>)
        ensures
            argument == self@.generic_receiver(*base, *written, receiver),
            forall|watch: Watch| #[trigger]
                watched(watch) ==> mentions(argument, watch.name) == mentions(*base, watch.name),
    {
        reveal(State::generic_receiver);
        match &*written.kind {
            TypeNameKind::Reference { mutable, .. } => match self.types.pointer_shape(receiver) {
                Some((_, actual_mutable, false)) => if actual_mutable && !*mutable {
                    prefixed(
                        ast::UnaryOperator::Borrow,
                        &prefixed(ast::UnaryOperator::Dereference, base),
                    )
                } else {
                    base.share()
                },
                _ => prefixed(
                    if *mutable {
                        ast::UnaryOperator::BorrowMut
                    } else {
                        ast::UnaryOperator::Borrow
                    },
                    base,
                ),
            },
            _ => base.share(),
        }
    }

    /// A call of a generic method.
    pub(crate) fn try_analyze_generic_method_call(
        &mut self,
        call: &CallExpression<'a>,
        field: &FieldExpression<'a>,
        method: Identifier<'a>,
        receiver: Type,
        resolved_name: &Text<'a>,
        expected: Option<Type>,
        fuel: u32,
    ) -> (analyzed: Option<Expression<'a>>)
        ensures
            (final(self)@, analyzed) == old(self)@.try_analyze_generic_method_call(
                *call,
                *field,
                method,
                receiver,
                *resolved_name,
                expected,
                fuel as nat,
            ),
            old(self)@.leads_to(final(self)@),
            forall|watch: Watch| #[trigger]
                watched(watch) && old(self)@.is_apart(watch) && !call_mentions(*call, watch.name)
                    && !field_mentions(*field, watch.name)
                    ==> old(self)@.spares(final(self)@, watch),
            forall|scene: Scene| #[trigger]
                final(self)@.admits(scene) && old(self)@.prepared()
                    ==> final(self)@.troubled() || sound_if_any(analyzed, scene),
        decreases fuel, 4nat, List::<Type>::Nil,
    {
        match self.method_template(receiver, method.name, resolved_name) {
            None => None,
            Some((name, template)) => {
                self.require_visible_method(method, receiver, template.is_public);
                match self.receiver_type_name(&template, &name, method.span) {
                    None => Some(invalid_composite_expression(call.span)),
                    Some(written) => {
                        let function_call = generic_method_call(
                            call,
                            method,
                            self.generic_receiver(&field.base, &written, receiver),
                        );
                        let value = self.analyze_generic_function_call(
                            &function_call,
                            &name,
                            &template,
                            expected,
                            fuel,
                        );
                        Some(value)
                    },
                }
            },
        }
    }

    /// How a receiver becomes the first argument of a method.
    pub(crate) fn adjustment(&self, receiver: Type, expected: Type) -> (adjustment: Adjustment)
        ensures
            adjustment == self@.adjustment(receiver, expected),
    {
        reveal(State::adjustment);
        match self.types.pointer_shape(expected) {
            Some((target, mutable, false)) => match self.types.pointer_shape(receiver) {
                Some((actual, true, false)) => if !mutable && target == actual {
                    Adjustment::Reborrow { mutable: false }
                } else if receiver == expected && mutable {
                    Adjustment::Reborrow { mutable: true }
                } else if target == receiver {
                    Adjustment::Borrow { mutable }
                } else {
                    Adjustment::Keep
                },
                _ => if receiver == expected && mutable {
                    Adjustment::Reborrow { mutable: true }
                } else if target == receiver {
                    Adjustment::Borrow { mutable }
                } else {
                    Adjustment::Keep
                },
            },
            _ => Adjustment::Keep,
        }
    }

    /// The receiver of a method as its first argument.
    pub(crate) fn analyze_method_receiver(
        &mut self,
        receiver: &ast::Expression<'a>,
        receiver_type: Type,
        expected: Type,
        fuel: u32,
    ) -> (value: Expression<'a>)
        ensures
            (final(self)@, value) == old(self)@.analyze_method_receiver(
                *receiver,
                receiver_type,
                expected,
                fuel as nat,
            ),
            old(self)@.leads_to(final(self)@),
            forall|watch: Watch| #[trigger]
                watched(watch) && old(self)@.is_apart(watch) && !mentions(*receiver, watch.name)
                    ==> old(self)@.spares(final(self)@, watch),
            forall|scene: Scene| #[trigger]
                final(self)@.admits(scene) && old(self)@.prepared()
                    ==> final(self)@.troubled() || sound(value, scene),
            final(self)@.troubled() || receives(*receiver, value),
        decreases fuel, 5nat, List::<Type>::Nil,
    {
        proof {
            reveal(spec_prefixed);
        }
        match self.adjustment(receiver_type, expected) {
            Adjustment::Reborrow { mutable } => self.analyze_borrow(
                mutable,
                &prefixed(ast::UnaryOperator::Dereference, receiver),
                receiver.span,
                Some(expected),
                fuel,
            ),
            Adjustment::Borrow { mutable } => self.analyze_borrow(
                mutable,
                receiver,
                receiver.span,
                Some(expected),
                fuel,
            ),
            Adjustment::Keep => self.analyze_expression_expected(receiver, Some(expected), fuel),
        }
    }
}

} // verus!

//! That a typed program says what the parsed program says: operators compute
//! the same, literals have the same value, and each part stands where the part
//! that it is made of stood.

use crate::ast;
use crate::hir;
use crate::list::{cons, List};
use crate::numbers::integer_minimum_magnitude;
use crate::text::words;
use crate::types::Type;
use vstd::prelude::*;

verus! {

// What operators compute.

/// What an operator makes of its operands.
pub enum Outcome {
    Number(int),
    Truth(bool),
}

/// What an operator of a parsed program makes of two numbers. A number other
/// than zero counts as true.
pub open spec fn parsed_outcome(
    operator: ast::BinaryOperator,
    left: u128,
    right: u128,
) -> Outcome {
    match operator {
        ast::BinaryOperator::Add => Outcome::Number(left + right),
        ast::BinaryOperator::Subtract => Outcome::Number(left - right),
        ast::BinaryOperator::Multiply => Outcome::Number(left * right),
        ast::BinaryOperator::Divide => Outcome::Number((left / right) as int),
        ast::BinaryOperator::Remainder => Outcome::Number((left % right) as int),
        ast::BinaryOperator::BitAnd => Outcome::Number((left & right) as int),
        ast::BinaryOperator::BitXor => Outcome::Number((left ^ right) as int),
        ast::BinaryOperator::BitOr => Outcome::Number((left | right) as int),
        ast::BinaryOperator::ShiftLeft => Outcome::Number((left << right) as int),
        ast::BinaryOperator::ShiftRight => Outcome::Number((left >> right) as int),
        ast::BinaryOperator::Equal => Outcome::Truth(left == right),
        ast::BinaryOperator::NotEqual => Outcome::Truth(left != right),
        ast::BinaryOperator::Less => Outcome::Truth(left < right),
        ast::BinaryOperator::LessEqual => Outcome::Truth(left <= right),
        ast::BinaryOperator::Greater => Outcome::Truth(left > right),
        ast::BinaryOperator::GreaterEqual => Outcome::Truth(left >= right),
        ast::BinaryOperator::And => Outcome::Truth(left != 0 && right != 0),
        ast::BinaryOperator::Or => Outcome::Truth(left != 0 || right != 0),
    }
}

/// What an operator of a typed program makes of two numbers. A number other
/// than zero counts as true.
pub open spec fn typed_outcome(
    operator: hir::BinaryOperator,
    left: u128,
    right: u128,
) -> Outcome {
    match operator {
        hir::BinaryOperator::Add => Outcome::Number(left + right),
        hir::BinaryOperator::Subtract => Outcome::Number(left - right),
        hir::BinaryOperator::Multiply => Outcome::Number(left * right),
        hir::BinaryOperator::Divide => Outcome::Number((left / right) as int),
        hir::BinaryOperator::Remainder => Outcome::Number((left % right) as int),
        hir::BinaryOperator::BitAnd => Outcome::Number((left & right) as int),
        hir::BinaryOperator::BitXor => Outcome::Number((left ^ right) as int),
        hir::BinaryOperator::BitOr => Outcome::Number((left | right) as int),
        hir::BinaryOperator::ShiftLeft => Outcome::Number((left << right) as int),
        hir::BinaryOperator::ShiftRight => Outcome::Number((left >> right) as int),
        hir::BinaryOperator::Equal => Outcome::Truth(left == right),
        hir::BinaryOperator::NotEqual => Outcome::Truth(left != right),
        hir::BinaryOperator::Less => Outcome::Truth(left < right),
        hir::BinaryOperator::LessEqual => Outcome::Truth(left <= right),
        hir::BinaryOperator::Greater => Outcome::Truth(left > right),
        hir::BinaryOperator::GreaterEqual => Outcome::Truth(left >= right),
        hir::BinaryOperator::And => Outcome::Truth(left != 0 && right != 0),
        hir::BinaryOperator::Or => Outcome::Truth(left != 0 || right != 0),
    }
}

/// What is in a variable of a parsed program behind an assignment: of what was
/// in it, and of the value on the right.
pub open spec fn parsed_update(
    operator: ast::AssignmentOperator,
    before: u128,
    value: u128,
) -> int {
    match operator {
        ast::AssignmentOperator::Assign => value as int,
        ast::AssignmentOperator::Add => before + value,
        ast::AssignmentOperator::Subtract => before - value,
        ast::AssignmentOperator::Multiply => before * value,
        ast::AssignmentOperator::Divide => (before / value) as int,
        ast::AssignmentOperator::Remainder => (before % value) as int,
        ast::AssignmentOperator::BitAnd => (before & value) as int,
        ast::AssignmentOperator::BitXor => (before ^ value) as int,
        ast::AssignmentOperator::BitOr => (before | value) as int,
        ast::AssignmentOperator::ShiftLeft => (before << value) as int,
        ast::AssignmentOperator::ShiftRight => (before >> value) as int,
    }
}

/// What is in a variable of a typed program behind an assignment.
pub open spec fn typed_update(
    operator: hir::AssignmentOperator,
    before: u128,
    value: u128,
) -> int {
    match operator {
        hir::AssignmentOperator::Assign => value as int,
        hir::AssignmentOperator::Add => before + value,
        hir::AssignmentOperator::Subtract => before - value,
        hir::AssignmentOperator::Multiply => before * value,
        hir::AssignmentOperator::Divide => (before / value) as int,
        hir::AssignmentOperator::Remainder => (before % value) as int,
        hir::AssignmentOperator::BitAnd => (before & value) as int,
        hir::AssignmentOperator::BitXor => (before ^ value) as int,
        hir::AssignmentOperator::BitOr => (before | value) as int,
        hir::AssignmentOperator::ShiftLeft => (before << value) as int,
        hir::AssignmentOperator::ShiftRight => (before >> value) as int,
    }
}

/// Whether an operator of a typed program computes what one of a parsed program
/// computes.
#[verifier::opaque]
pub open spec fn computes_the_same(
    parsed: ast::BinaryOperator,
    operator: hir::BinaryOperator,
) -> bool {
    forall|left: u128, right: u128|
        #[trigger] typed_outcome(operator, left, right) == parsed_outcome(parsed, left, right)
}

/// Whether an assignment of a typed program stores what one of a parsed program
/// stores.
#[verifier::opaque]
pub open spec fn stores_the_same(
    parsed: ast::AssignmentOperator,
    operator: hir::AssignmentOperator,
) -> bool {
    forall|before: u128, value: u128|
        #[trigger] typed_update(operator, before, value) == parsed_update(parsed, before, value)
}

/// Whether bits are those of a number in two's complement.
pub open spec fn stands_for(bits: u128, number: int) -> bool {
    bits as int == number || bits as int == number + 0x1_0000_0000_0000_0000_0000_0000_0000_0000
}

/// The number that a pattern is written with.
pub open spec fn written_number(value: u128, negative: bool) -> int {
    if negative {
        -(value as int)
    } else {
        value as int
    }
}

// Expressions.

/// Whether a typed expression says what a parsed one says.
#[verifier::opaque]
pub open spec fn renders(source: ast::Expression, value: hir::Expression) -> bool
    decreases source, 0nat,
{
    form_renders(*source.kind, value)
}

/// Whether a typed expression says what an expression of the given form says.
pub open spec fn form_renders(source: ast::ExpressionKind, value: hir::Expression) -> bool
    decreases source, 0nat,
{
    match source {
        ast::ExpressionKind::Integer(number) => *value.kind == hir::ExpressionKind::Integer(number),
        ast::ExpressionKind::Float(literal) => match *value.kind {
            hir::ExpressionKind::Float64(bits) => bits == literal.bits && value.ty != Type::F32,
            hir::ExpressionKind::Float32(bits) => literal.single == Some(bits)
                && value.ty == Type::F32,
            _ => false,
        },
        ast::ExpressionKind::Character(character) => *value.kind
            == hir::ExpressionKind::Character(character),
        ast::ExpressionKind::String(text) => *value.kind == hir::ExpressionKind::String(
            words(text),
        ),
        ast::ExpressionKind::CString(text) => *value.kind == hir::ExpressionKind::CString(
            words(text),
        ),
        ast::ExpressionKind::Boolean(truth) => *value.kind == hir::ExpressionKind::Boolean(truth),
        ast::ExpressionKind::Unit => *value.kind is Unit,
        ast::ExpressionKind::Tuple(elements) => match *value.kind {
            hir::ExpressionKind::Tuple(values) => all_render(elements, values),
            _ => false,
        },
        ast::ExpressionKind::ArrayList(elements) => match *value.kind {
            hir::ExpressionKind::Array(values) => all_render(elements, values),
            _ => false,
        },
        ast::ExpressionKind::ArrayRepeat { value: repeated, .. } => match *value.kind {
            hir::ExpressionKind::ArrayRepeat { value: element, .. } => renders(repeated, element),
            _ => false,
        },
        ast::ExpressionKind::Struct { fields, .. } => match *value.kind {
            hir::ExpressionKind::Struct(values) => all_given(fields, values),
            hir::ExpressionKind::Enum { fields: values, .. } => all_given(fields, values),
            _ => false,
        },
        ast::ExpressionKind::Unary { operator, operand } => match operator {
            ast::UnaryOperator::Negate => match *value.kind {
                hir::ExpressionKind::Unary { operator: applied, operand: inner } => applied
                    is Negate && renders(operand, inner),
                hir::ExpressionKind::Integer(magnitude) => match *operand.kind {
                    ast::ExpressionKind::Integer(number) => magnitude == number
                        && value.ty.is_signed_integer() && integer_minimum_magnitude(value.ty)
                        == magnitude,
                    _ => false,
                },
                _ => false,
            },
            ast::UnaryOperator::Not => match *value.kind {
                hir::ExpressionKind::Unary { operator: applied, operand: inner } => applied is Not
                    && renders(operand, inner),
                _ => false,
            },
            ast::UnaryOperator::Dereference => match *value.kind {
                hir::ExpressionKind::Dereference(pointer) => renders(operand, pointer),
                _ => false,
            },
            ast::UnaryOperator::Borrow | ast::UnaryOperator::BorrowMut => match *value.kind {
                hir::ExpressionKind::Borrow { place, mutable, slice_length } => place_renders(
                    *operand.kind,
                    place,
                ) && (mutable ==> operator is BorrowMut) && (slice_length is None ==> mutable
                    == (operator is BorrowMut)),
                _ => *operand.kind is Index,
            },
        },
        ast::ExpressionKind::Binary { operator, left, right } => match *value.kind {
            hir::ExpressionKind::Binary {
                operator: applied,
                left: first,
                right: second,
            } => computes_the_same(operator, applied) && renders(left, first) && renders(
                right,
                second,
            ),
            _ => false,
        },
        ast::ExpressionKind::Call(call) => match *call.callee.kind {
            ast::ExpressionKind::Path(_) => true,
            ast::ExpressionKind::Field(field) => field.field is Named || *value.kind is IndirectCall,
            _ => match *value.kind {
                hir::ExpressionKind::IndirectCall { callee, arguments } => renders(
                    call.callee,
                    callee,
                ) && all_render(call.arguments, arguments),
                _ => false,
            },
        },
        ast::ExpressionKind::If { condition, then_branch, else_branch } => match *value.kind {
            hir::ExpressionKind::If {
                condition: test,
                then_branch: first,
                else_branch: second,
            } => renders(condition, test) && block_renders(then_branch, first) && match (
                else_branch,
                second,
            ) {
                (Some(source), Some(value)) => renders(source, value),
                (None, None) => true,
                _ => false,
            },
            _ => false,
        },
        ast::ExpressionKind::Match { scrutinee, arms } => match *value.kind {
            hir::ExpressionKind::Match { scrutinee: subject, arms: typed_arms } => renders(
                scrutinee,
                subject,
            ) && arms_render(arms, typed_arms),
            _ => false,
        },
        ast::ExpressionKind::Loop(body) => match *value.kind {
            hir::ExpressionKind::Loop(block) => block_renders(body, block),
            _ => false,
        },
        ast::ExpressionKind::Unsafe(body) => match *value.kind {
            hir::ExpressionKind::Block(block) => block_renders(body, block),
            _ => false,
        },
        ast::ExpressionKind::Block(body) => match *value.kind {
            hir::ExpressionKind::Block(block) => block_renders(body, block),
            _ => false,
        },
        ast::ExpressionKind::Assignment { operator, target, value: assigned } => match *value.kind {
            hir::ExpressionKind::Assign { target: place, operator: applied, value: stored } =>
            *target.kind is Index || (stores_the_same(operator, applied) && place_renders(
                *target.kind,
                place,
            ) && renders(assigned, stored)),
            _ => *target.kind is Index,
        },
        ast::ExpressionKind::Cast { value: converted, .. } => match *value.kind {
            hir::ExpressionKind::Cast { value: inner, target } => target == value.ty && renders(
                converted,
                inner,
            ),
            _ => false,
        },
        ast::ExpressionKind::Field(field) => match *value.kind {
            hir::ExpressionKind::Field { base, .. } => base_renders(field.base, base),
            _ => false,
        },
        ast::ExpressionKind::Try(inner) => match *value.kind {
            hir::ExpressionKind::Try { value: tried, .. } => renders(inner, tried),
            _ => false,
        },
        ast::ExpressionKind::Path(_) => true,
        ast::ExpressionKind::Index(_) => true,
        ast::ExpressionKind::FormattedString(_) => false,
        ast::ExpressionKind::PackExpansion { .. } => false,
    }
}

/// Whether a typed expression says what a parsed one says, or what that one
/// refers to.
pub open spec fn base_renders(source: ast::Expression, value: hir::Expression) -> bool
    decreases source, 0nat,
{
    form_renders(*source.kind, value) || match *value.kind {
        hir::ExpressionKind::Dereference(pointer) => form_renders(*source.kind, pointer),
        _ => false,
    }
}

/// Whether typed expressions say one by one what parsed ones say, up to the
/// first that stands for several.
#[verifier::opaque]
pub open spec fn all_render(
    sources: List<ast::Expression>,
    values: List<hir::Expression>,
) -> bool
    decreases sources, 0nat,
{
    match sources {
        List::Nil => values is Nil,
        List::Cons(node) => *node.head.kind is PackExpansion || match values {
            List::Nil => false,
            List::Cons(typed_node) => renders(node.head, typed_node.head) && all_render(
                node.tail,
                typed_node.tail,
            ),
        },
    }
}

/// Whether each value says what is given to some field.
pub open spec fn all_given(
    sources: List<ast::FieldInitializer>,
    values: List<hir::Expression>,
) -> bool
    decreases sources, 1nat,
{
    forall|position: int|
        0 <= position < values@.len() ==> given(sources, #[trigger] values@[position])
}

/// Whether a value says what is given to some field.
#[verifier::opaque]
pub open spec fn given(sources: List<ast::FieldInitializer>, value: hir::Expression) -> bool
    decreases sources, 0nat,
{
    match sources {
        List::Nil => false,
        List::Cons(node) => renders(node.head.value, value) || given(node.tail, value),
    }
}

/// Whether a typed place is the one that an expression of the given form names.
pub open spec fn place_renders(source: ast::ExpressionKind, place: hir::Place) -> bool
    decreases source, 0nat,
{
    match source {
        ast::ExpressionKind::Path(_) => place.kind is Local || place.kind is Static,
        ast::ExpressionKind::Field(field) => match place.kind {
            hir::PlaceKind::Field { base, .. } => base_renders(field.base, base),
            _ => false,
        },
        ast::ExpressionKind::Index(_) => place.kind is Index,
        ast::ExpressionKind::Unary { operator, operand } => match place.kind {
            hir::PlaceKind::Dereference { pointer } => operator is Dereference && renders(
                operand,
                pointer,
            ),
            _ => false,
        },
        _ => false,
    }
}

/// Whether a typed block says what a parsed one says.
pub open spec fn block_renders(source: ast::Block, block: hir::Block) -> bool
    decreases source, 0nat,
{
    statements_render(source.statements, block.statements) && match (source.tail, block.tail) {
        (Some(source), Some(value)) => renders(source, value),
        (None, None) => true,
        _ => false,
    }
}

/// Whether typed statements say one by one what parsed ones say.
#[verifier::opaque]
pub open spec fn statements_render(
    sources: List<ast::Statement>,
    statements: List<hir::Statement>,
) -> bool
    decreases sources, 0nat,
{
    match sources {
        List::Nil => statements is Nil,
        List::Cons(node) => match statements {
            List::Nil => false,
            List::Cons(typed_node) => statement_renders(node.head, typed_node.head)
                && statements_render(node.tail, typed_node.tail),
        },
    }
}

/// Whether a typed statement says what a parsed one says.
pub open spec fn statement_renders(source: ast::Statement, statement: hir::Statement) -> bool
    decreases source, 0nat,
{
    match source {
        ast::Statement::Let { name, mutable, initializer, .. } => match statement {
            hir::Statement::Let { name: bound, mutable: changeable, initializer: value, .. } => name.name
                == bound && mutable == changeable && renders(initializer, value),
            _ => false,
        },
        ast::Statement::Expression(expression) => match statement {
            hir::Statement::Expression(value) => renders(expression, value),
            _ => false,
        },
        ast::Statement::Defer { action, .. } => match statement {
            hir::Statement::Defer { action: value, .. } => renders(action, value),
            _ => false,
        },
        ast::Statement::Return { value: source, .. } => match statement {
            hir::Statement::Return { value, .. } => match (source, value) {
                (Some(source), Some(value)) => renders(source, value),
                (None, None) => true,
                _ => false,
            },
            _ => false,
        },
        ast::Statement::While { condition, body, .. } => match statement {
            hir::Statement::While { condition: test, body: block, .. } => renders(condition, test)
                && block_renders(body, block),
            _ => false,
        },
        ast::Statement::For { pattern, iterable, body, .. } => match statement {
            hir::Statement::For {
                pattern: typed_pattern,
                iterable: value,
                body: block,
                ..
            } => pattern_renders(pattern, typed_pattern) && renders(iterable, value)
                && block_renders(body, block),
            _ => false,
        },
        ast::Statement::Break { value: source, .. } => match statement {
            hir::Statement::Break { value, .. } => match (source, value) {
                (Some(source), Some(value)) => renders(source, value),
                (None, None) => true,
                _ => false,
            },
            _ => false,
        },
        ast::Statement::Continue(_) => statement is Continue,
    }
}

/// Whether the arms of a typed `match` say one by one what parsed ones say.
#[verifier::opaque]
pub open spec fn arms_render(sources: List<ast::MatchArm>, arms: List<hir::MatchArm>) -> bool
    decreases sources, 0nat,
{
    match sources {
        List::Nil => arms is Nil,
        List::Cons(node) => match arms {
            List::Nil => false,
            List::Cons(typed_node) => arm_renders(node.head, typed_node.head) && arms_render(
                node.tail,
                typed_node.tail,
            ),
        },
    }
}

/// Whether an arm of a typed `match` says what a parsed one says.
pub open spec fn arm_renders(source: ast::MatchArm, arm: hir::MatchArm) -> bool
    decreases source, 0nat,
{
    pattern_renders(source.pattern, arm.pattern) && renders(source.body, arm.body) && match (
        source.guard,
        arm.guard,
    ) {
        (Some(source), Some(guard)) => renders(source, guard),
        (None, None) => true,
        _ => false,
    }
}

/// Whether a typed expression says what a parsed one says, where there is one.
pub open spec fn optional_renders(
    source: Option<ast::Expression>,
    value: Option<hir::Expression>,
) -> bool {
    match (source, value) {
        (Some(source), Some(value)) => renders(source, value),
        (None, None) => true,
        _ => false,
    }
}

/// Whether a typed expression selects the element that is asked for.
pub open spec fn selects(index: ast::IndexExpression, value: hir::Expression) -> bool {
    match *value.kind {
        hir::ExpressionKind::Index { base, index: position } => index.indices is Cons
            && index.indices.rest() is Nil && renders(index.base, base) && renders(
            index.indices.first(),
            position,
        ),
        _ => false,
    }
}

/// Whether a typed expression stores what is written into the place that is
/// written.
pub open spec fn stores(
    operator: ast::AssignmentOperator,
    target: ast::Expression,
    source: ast::Expression,
    value: hir::Expression,
) -> bool {
    match *value.kind {
        hir::ExpressionKind::Assign { target: place, operator: applied, value: stored } =>
        stores_the_same(operator, applied) && place_renders(*target.kind, place) && renders(
            source,
            stored,
        ),
        _ => *target.kind is Index,
    }
}

/// Whether a value is made of arguments that say what is passed to a call.
pub open spec fn passes(call: ast::CallExpression, value: hir::Expression) -> bool {
    match *value.kind {
        hir::ExpressionKind::Call { arguments, .. } => all_render(call.arguments, arguments),
        hir::ExpressionKind::Enum { fields, .. } => all_render(call.arguments, fields),
        hir::ExpressionKind::IndirectCall { callee, arguments } => renders(call.callee, callee)
            && all_render(call.arguments, arguments),
        hir::ExpressionKind::Panic { message } => call.arguments@.len() > 0 && renders(
            call.arguments@[0],
            message,
        ),
        hir::ExpressionKind::Assert { condition, message, .. } => call.arguments@.len() > 0
            && renders(call.arguments@[0], condition) && (call.arguments@.len() > 1 ==> renders(
            call.arguments@[1],
            message,
        )),
        _ => false,
    }
}

/// Whether a value is what a method is called on: what is written in front of the
/// dot, a borrow of it, or a borrow of what it refers to.
pub open spec fn receives(receiver: ast::Expression, value: hir::Expression) -> bool {
    renders(receiver, value) || match *value.kind {
        hir::ExpressionKind::Borrow { place, .. } => place_renders(*receiver.kind, place)
            || match place.kind {
            hir::PlaceKind::Dereference { pointer } => renders(receiver, pointer),
            _ => false,
        },
        _ => *receiver.kind is Index,
    }
}

/// Whether a value says what is given to the field of a name.
#[verifier::opaque]
pub open spec fn gives(
    sources: List<ast::FieldInitializer>,
    name: Seq<char>,
    value: hir::Expression,
) -> bool
    decreases sources,
{
    match sources {
        List::Nil => false,
        List::Cons(node) => (node.head.name.name@ == name && renders(node.head.value, value))
            || gives(node.tail, name, value),
    }
}

/// Whether each declared field has the value that is given to its name.
#[verifier::opaque]
pub open spec fn fields_render(
    sources: List<ast::FieldInitializer>,
    declared: List<hir::TypeField>,
    values: List<hir::Expression>,
) -> bool
    decreases declared,
{
    match declared {
        List::Nil => values is Nil,
        List::Cons(node) => match values {
            List::Nil => false,
            List::Cons(typed_node) => gives(sources, node.head.name@, typed_node.head)
                && fields_render(sources, node.tail, typed_node.tail),
        },
    }
}

// Patterns.

/// Whether a typed pattern says what a parsed one says.
#[verifier::opaque]
pub open spec fn pattern_renders(source: ast::Pattern, pattern: hir::Pattern) -> bool
    decreases source, 0nat,
{
    pattern_form_renders(*source.kind, pattern)
}

/// Whether a typed pattern says what a pattern of the given form says.
pub open spec fn pattern_form_renders(source: ast::PatternKind, pattern: hir::Pattern) -> bool
    decreases source, 0nat,
{
    match source {
        ast::PatternKind::Wildcard => pattern.kind is Wildcard,
        ast::PatternKind::Identifier { mutable, name } => match pattern.kind {
            hir::PatternKind::Binding { name: bound, mutable: changeable, .. } => bound
                == name.name && changeable == mutable,
            hir::PatternKind::Enum { fields, .. } => fields is Nil && !mutable,
            _ => false,
        },
        ast::PatternKind::Integer { value, negative } => match pattern.kind {
            hir::PatternKind::Integer(bits) => stands_for(bits, written_number(value, negative)),
            _ => false,
        },
        ast::PatternKind::Float(literal) => match pattern.kind {
            hir::PatternKind::Float32(bits) => bits == literal.single && pattern.ty == Type::F32,
            hir::PatternKind::Float64(bits) => bits == literal.bits && pattern.ty == Type::F64,
            _ => false,
        },
        ast::PatternKind::Character(character) => pattern.kind == hir::PatternKind::Character(
            character,
        ),
        ast::PatternKind::Boolean(truth) => pattern.kind == hir::PatternKind::Boolean(truth),
        ast::PatternKind::Tuple(elements) => match pattern.kind {
            hir::PatternKind::Tuple(patterns) => patterns_render(elements, patterns),
            _ => false,
        },
        ast::PatternKind::Path(path) => match pattern.kind {
            hir::PatternKind::Enum { fields, .. } => fields is Nil,
            _ => path.segments is Nil,
        },
        ast::PatternKind::EnumTuple { path, fields } => match pattern.kind {
            hir::PatternKind::Enum { fields: patterns, .. } => patterns_render(fields, patterns),
            _ => path.segments is Nil,
        },
        ast::PatternKind::EnumStruct { path, .. } => match pattern.kind {
            hir::PatternKind::Enum { .. } => true,
            _ => path.segments is Nil,
        },
    }
}

/// Whether typed patterns say one by one what parsed ones say.
#[verifier::opaque]
pub open spec fn patterns_render(
    sources: List<ast::Pattern>,
    patterns: List<hir::Pattern>,
) -> bool
    decreases sources, 0nat,
{
    match sources {
        List::Nil => patterns is Nil,
        List::Cons(node) => match patterns {
            List::Nil => false,
            List::Cons(typed_node) => pattern_renders(node.head, typed_node.head)
                && patterns_render(node.tail, typed_node.tail),
        },
    }
}

// How the relations are built up.

/// An expression says what its form says.
pub proof fn renders_by_form(source: ast::Expression, value: hir::Expression)
    ensures
        renders(source, value) == form_renders(*source.kind, value),
{
    reveal(renders);
    reveal(all_render);
    reveal(given);
    reveal(statements_render);
    reveal(arms_render);
}

/// No expressions say nothing.
pub broadcast proof fn nothing_renders(
    sources: List<ast::Expression>,
    values: List<hir::Expression>,
)
    requires
        sources is Nil,
    ensures
        #[trigger] all_render(sources, values) == (values is Nil),
{
    reveal(all_render);
}

/// What it means for one more expression to say what one more parsed one says.
pub broadcast proof fn more_render<'a>(
    sources: List<ast::Expression<'a>>,
    first: hir::Expression<'a>,
    rest: List<hir::Expression<'a>>,
)
    ensures
        match sources {
            List::Nil => true,
            List::Cons(node) => #[trigger] all_render(sources, cons(first, rest)) == (
            *node.head.kind is PackExpansion || (renders(node.head, first) && all_render(
                node.tail,
                rest,
            ))),
        },
{
    reveal(all_render);
    reveal(renders);
}

/// What stands for several expressions says them all.
pub broadcast proof fn packs_render<'a>(
    sources: List<ast::Expression<'a>>,
    values: List<hir::Expression<'a>>,
)
    requires
        match sources {
            List::Nil => false,
            List::Cons(node) => *node.head.kind is PackExpansion,
        },
    ensures
        #[trigger] all_render(sources, values),
{
    reveal(all_render);
}

/// What is given to a name is given.
proof fn what_is_given_to_a_name_is_given(
    sources: List<ast::FieldInitializer>,
    name: Seq<char>,
    value: hir::Expression,
)
    requires
        gives(sources, name, value),
    ensures
        given(sources, value),
    decreases sources,
{
    reveal(gives);
    reveal(given);
    reveal(renders);
    if !given(sources, value) {
        what_is_given_to_a_name_is_given(sources.rest(), name, value);
    }
}

/// Where each declared field has the value that is given to its name, each
/// value is given.
pub proof fn declared_fields_are_given(
    sources: List<ast::FieldInitializer>,
    declared: List<hir::TypeField>,
    values: List<hir::Expression>,
)
    requires
        fields_render(sources, declared, values),
    ensures
        all_given(sources, values),
    decreases declared,
{
    reveal(fields_render);
    reveal(given);
    if declared is Cons {
        declared_fields_are_given(sources, declared.rest(), values.rest());
        what_is_given_to_a_name_is_given(sources, declared.first().name@, values.first());
        assert(values@ =~= seq![values.first()] + values.rest()@);
        assert forall|position: int| 0 <= position < values@.len() implies given(
            sources,
            #[trigger] values@[position],
        ) by {
            if position > 0 {
                assert(values@[position] == values.rest()@[position - 1]);
            }
        }
    }
}

/// No statements say nothing.
pub broadcast proof fn no_statements_render(
    sources: List<ast::Statement>,
    statements: List<hir::Statement>,
)
    requires
        sources is Nil,
    ensures
        #[trigger] statements_render(sources, statements) == (statements is Nil),
{
    reveal(statements_render);
}

/// What it means for one more statement to say what one more parsed one says.
pub broadcast proof fn more_statements_render<'a>(
    sources: List<ast::Statement<'a>>,
    first: hir::Statement<'a>,
    rest: List<hir::Statement<'a>>,
)
    ensures
        match sources {
            List::Nil => true,
            List::Cons(node) => #[trigger] statements_render(sources, cons(first, rest)) == (
            statement_renders(node.head, first) && statements_render(node.tail, rest)),
        },
{
    reveal(statements_render);
    reveal(renders);
}

/// No arms say nothing.
pub broadcast proof fn no_arms_render(sources: List<ast::MatchArm>, arms: List<hir::MatchArm>)
    requires
        sources is Nil,
    ensures
        #[trigger] arms_render(sources, arms) == (arms is Nil),
{
    reveal(arms_render);
}

/// What it means for one more arm to say what one more parsed one says.
pub broadcast proof fn more_arms_render<'a>(
    sources: List<ast::MatchArm<'a>>,
    first: hir::MatchArm<'a>,
    rest: List<hir::MatchArm<'a>>,
)
    ensures
        match sources {
            List::Nil => true,
            List::Cons(node) => #[trigger] arms_render(sources, cons(first, rest)) == (arm_renders(
                node.head,
                first,
            ) && arms_render(node.tail, rest)),
        },
{
    reveal(arms_render);
    reveal(renders);
}

/// A pattern says what its form says.
pub proof fn pattern_renders_by_form(source: ast::Pattern, pattern: hir::Pattern)
    ensures
        pattern_renders(source, pattern) == pattern_form_renders(*source.kind, pattern),
{
    reveal(pattern_renders);
    reveal(patterns_render);
}

/// No patterns say nothing.
pub broadcast proof fn no_patterns_render(
    sources: List<ast::Pattern>,
    patterns: List<hir::Pattern>,
)
    requires
        sources is Nil,
    ensures
        #[trigger] patterns_render(sources, patterns) == (patterns is Nil),
{
    reveal(patterns_render);
}

/// What it means for one more pattern to say what one more parsed one says.
pub broadcast proof fn more_patterns_render<'a>(
    sources: List<ast::Pattern<'a>>,
    first: hir::Pattern<'a>,
    rest: List<hir::Pattern<'a>>,
)
    ensures
        match sources {
            List::Nil => true,
            List::Cons(node) => #[trigger] patterns_render(sources, cons(first, rest)) == (
            pattern_renders(node.head, first) && patterns_render(node.tail, rest)),
        },
{
    reveal(patterns_render);
    reveal(pattern_renders);
}

pub broadcast group group_rendered {
    nothing_renders,
    more_render,
    packs_render,
    no_statements_render,
    more_statements_render,
    no_arms_render,
    more_arms_render,
    no_patterns_render,
    more_patterns_render,
}

} // verus!

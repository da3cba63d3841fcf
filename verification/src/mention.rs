//! Which names occur in the parts of a program.

use crate::analyzer::methods::{STANDARD_APPEND_DEBUG, STANDARD_APPEND_DISPLAY};
use crate::ast::{
    lone_name, Block, CallExpression, Expression, ExpressionKind, FieldExpression,
    FieldInitializer, FormattedStringFragment, IndexExpression, MatchArm, Path, Pattern,
    PatternField, PatternKind, Statement,
};
use crate::list::List;
use vstd::prelude::*;

verus! {

/// Whether a path is a name.
pub open spec fn path_mentions(path: Path, name: Seq<char>) -> bool {
    match lone_name(path) {
        Some(found) => found@ == name,
        None => false,
    }
}

/// Whether a name occurs in an expression, to use or to declare a variable.
pub open spec fn mentions(expression: Expression, name: Seq<char>) -> bool
    decreases expression,
{
    match *expression.kind {
        ExpressionKind::Path(path) => path_mentions(path, name),
        ExpressionKind::FormattedString(fragments) => fragments_mention(fragments, name),
        ExpressionKind::Tuple(elements) => any_mentions(elements, name),
        ExpressionKind::PackExpansion { template, .. } => mentions(template, name),
        ExpressionKind::ArrayList(elements) => any_mentions(elements, name),
        ExpressionKind::ArrayRepeat { value, length } => mentions(value, name) || mentions(
            length,
            name,
        ),
        ExpressionKind::Struct { fields, .. } => initializers_mention(fields, name),
        ExpressionKind::Unary { operand, .. } => mentions(operand, name),
        ExpressionKind::Binary { left, right, .. } => mentions(left, name) || mentions(right, name),
        ExpressionKind::Call(call) => call_mentions(call, name),
        ExpressionKind::If { condition, then_branch, else_branch } => {
            ||| mentions(condition, name)
            ||| block_mentions(then_branch, name)
            ||| optional_mentions(else_branch, name)
        },
        ExpressionKind::Match { scrutinee, arms } => mentions(scrutinee, name) || arms_mention(
            arms,
            name,
        ),
        ExpressionKind::Loop(body) => block_mentions(body, name),
        ExpressionKind::Unsafe(body) => block_mentions(body, name),
        ExpressionKind::Block(body) => block_mentions(body, name),
        ExpressionKind::Assignment { target, value, .. } => mentions(target, name) || mentions(
            value,
            name,
        ),
        ExpressionKind::Cast { value, .. } => mentions(value, name),
        ExpressionKind::Field(field) => field_mentions(field, name),
        ExpressionKind::Index(index) => index_mentions(index, name),
        ExpressionKind::Try(value) => mentions(value, name),
        _ => false,
    }
}

/// Whether a name occurs in a call.
pub open spec fn call_mentions(call: CallExpression, name: Seq<char>) -> bool
    decreases call,
{
    mentions(call.callee, name) || any_mentions(call.arguments, name)
}

/// Whether a name occurs in front of a dot.
pub open spec fn field_mentions(field: FieldExpression, name: Seq<char>) -> bool
    decreases field,
{
    mentions(field.base, name)
}

/// Whether a name occurs in an access by index.
pub open spec fn index_mentions(index: IndexExpression, name: Seq<char>) -> bool
    decreases index,
{
    mentions(index.base, name) || any_mentions(index.indices, name)
}

/// Whether a name occurs in an expression, if there is one.
pub open spec fn optional_mentions(expression: Option<Expression>, name: Seq<char>) -> bool
    decreases expression,
{
    match expression {
        Some(expression) => mentions(expression, name),
        None => false,
    }
}

/// Whether a name occurs in one of the expressions.
pub open spec fn any_mentions(expressions: List<Expression>, name: Seq<char>) -> bool
    decreases expressions,
{
    match expressions {
        List::Nil => false,
        List::Cons(node) => mentions(node.head, name) || any_mentions(node.tail, name),
    }
}

/// Whether a name occurs in a part of a formatted string, or is that of the
/// function which appends the part.
pub open spec fn fragment_mentions(fragment: FormattedStringFragment, name: Seq<char>) -> bool
    decreases fragment,
{
    match fragment {
        FormattedStringFragment::Text(_, _) => false,
        FormattedStringFragment::Display(value) => mentions(value, name) || name
            == STANDARD_APPEND_DISPLAY@,
        FormattedStringFragment::Debug(value) => mentions(value, name) || name
            == STANDARD_APPEND_DEBUG@,
    }
}

/// Whether a name occurs in the parts of a formatted string.
pub open spec fn fragments_mention(
    fragments: List<FormattedStringFragment>,
    name: Seq<char>,
) -> bool
    decreases fragments,
{
    match fragments {
        List::Nil => false,
        List::Cons(node) => fragment_mentions(node.head, name) || fragments_mention(
            node.tail,
            name,
        ),
    }
}

/// Whether a name occurs in one of the values of fields.
pub open spec fn initializers_mention(fields: List<FieldInitializer>, name: Seq<char>) -> bool
    decreases fields,
{
    match fields {
        List::Nil => false,
        List::Cons(node) => mentions(node.head.value, name) || initializers_mention(
            node.tail,
            name,
        ),
    }
}

/// Whether a name occurs in an arm of a `match`.
pub open spec fn arm_mentions(arm: MatchArm, name: Seq<char>) -> bool
    decreases arm,
{
    ||| pattern_mentions(arm.pattern, name)
    ||| optional_mentions(arm.guard, name)
    ||| mentions(arm.body, name)
}

/// Whether a name occurs in one of the arms of a `match`.
pub open spec fn arms_mention(arms: List<MatchArm>, name: Seq<char>) -> bool
    decreases arms,
{
    match arms {
        List::Nil => false,
        List::Cons(node) => arm_mentions(node.head, name) || arms_mention(node.tail, name),
    }
}

/// Whether a name occurs in a block.
pub open spec fn block_mentions(block: Block, name: Seq<char>) -> bool
    decreases block,
{
    statements_mention(block.statements, name) || optional_mentions(block.tail, name)
}

/// Whether a name occurs in one of the statements.
pub open spec fn statements_mention(statements: List<Statement>, name: Seq<char>) -> bool
    decreases statements,
{
    match statements {
        List::Nil => false,
        List::Cons(node) => statement_mentions(node.head, name) || statements_mention(
            node.tail,
            name,
        ),
    }
}

/// Whether a name occurs in a statement.
pub open spec fn statement_mentions(statement: Statement, name: Seq<char>) -> bool
    decreases statement,
{
    match statement {
        Statement::Let { name: declared, initializer, .. } => declared.name@ == name || mentions(
            initializer,
            name,
        ),
        Statement::Expression(value) => mentions(value, name),
        Statement::Defer { action, .. } => mentions(action, name),
        Statement::Return { value, .. } => optional_mentions(value, name),
        Statement::While { condition, body, .. } => mentions(condition, name) || block_mentions(
            body,
            name,
        ),
        Statement::For { pattern, iterable, body, .. } => {
            ||| pattern_mentions(pattern, name)
            ||| mentions(iterable, name)
            ||| block_mentions(body, name)
        },
        Statement::Break { value, .. } => optional_mentions(value, name),
        Statement::Continue(_) => false,
    }
}

/// Whether a name occurs in a pattern.
pub open spec fn pattern_mentions(pattern: Pattern, name: Seq<char>) -> bool
    decreases pattern,
{
    match *pattern.kind {
        PatternKind::Identifier { name: declared, .. } => declared.name@ == name,
        PatternKind::Tuple(elements) => patterns_mention(elements, name),
        PatternKind::Path(path) => path_mentions(path, name),
        PatternKind::EnumTuple { fields, .. } => patterns_mention(fields, name),
        PatternKind::EnumStruct { fields, .. } => pattern_fields_mention(fields, name),
        _ => false,
    }
}

/// Whether a name occurs in one of the patterns.
pub open spec fn patterns_mention(patterns: List<Pattern>, name: Seq<char>) -> bool
    decreases patterns,
{
    match patterns {
        List::Nil => false,
        List::Cons(node) => pattern_mentions(node.head, name) || patterns_mention(node.tail, name),
    }
}

/// Whether a name occurs in one of the patterns of fields.
pub open spec fn pattern_fields_mention(fields: List<PatternField>, name: Seq<char>) -> bool
    decreases fields,
{
    match fields {
        List::Nil => false,
        List::Cons(node) => pattern_mentions(node.head.pattern, name) || pattern_fields_mention(
            node.tail,
            name,
        ),
    }
}

} // verus!

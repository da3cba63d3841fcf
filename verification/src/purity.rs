//! What code that runs during compilation may contain.

use crate::ast::{
    lone_name, path_pair, single_path_name, two_names, Block, CallExpression, Expression,
    ExpressionKind, FieldInitializer, FormattedStringFragment, Function, GenericArgument, MatchArm,
    Parameter, Path, Statement, TypeName, TypeNameKind, UnaryOperator,
};
use crate::list::List;
use crate::span::{helped, kept, Diagnostic, Span};
use crate::text::{is_listed, listed, same, words};
use vstd::prelude::*;

verus! {

broadcast use crate::span::group_kept;

/// The problem of something that compile-time code may not contain.
pub open spec fn spec_impure<'a>(message: &'a str, help: &'a str, span: Span) -> Diagnostic<'a> {
    helped("E7012", words(message), help, span)
}

/// The problem of something that compile-time code may not contain.
#[verifier::when_used_as_spec(spec_impure)]
pub fn impure<'a>(message: &'a str, help: &'a str, span: Span) -> (problem: Diagnostic<'a>)
    ensures
        problem == spec_impure(message, help, span),
{
    helped("E7012", words(message), help, span)
}

/// The problems so far with those of a type in compile-time code: it holds no
/// reference, pointer, slice or function.
pub open spec fn type_impurities<'a>(
    problems: Seq<Diagnostic<'a>>,
    written: TypeName<'a>,
) -> Seq<Diagnostic<'a>>
    decreases written,
{
    match *written.kind {
        TypeNameKind::Generic { arguments, .. } => argument_impurities(problems, arguments),
        TypeNameKind::PackExpansion { template, .. } => match template {
            Some(template) => type_impurities(problems, template),
            None => problems,
        },
        TypeNameKind::Tuple(elements) => types_impurities(problems, elements),
        TypeNameKind::Array { element, .. } => type_impurities(problems, element),
        TypeNameKind::Path(_) => problems,
        TypeNameKind::Unit => problems,
        _ => problems.push(
            impure(
                "references, pointers, slices, and function values are forbidden in `comptime fn` signatures",
                "pass deterministic owned scalar or aggregate values",
                written.span,
            ),
        ),
    }
}

/// The problems so far with those of several types.
pub open spec fn types_impurities<'a>(
    problems: Seq<Diagnostic<'a>>,
    types: List<TypeName<'a>>,
) -> Seq<Diagnostic<'a>>
    decreases types,
{
    match types {
        List::Nil => problems,
        List::Cons(node) => types_impurities(type_impurities(problems, node.head), node.tail),
    }
}

/// The problems so far with those of the types among generic arguments.
pub open spec fn argument_impurities<'a>(
    problems: Seq<Diagnostic<'a>>,
    arguments: List<GenericArgument<'a>>,
) -> Seq<Diagnostic<'a>>
    decreases arguments,
{
    match arguments {
        List::Nil => problems,
        List::Cons(node) => argument_impurities(
            match node.head {
                GenericArgument::Type(ty) => type_impurities(problems, ty),
                GenericArgument::Pack { template: Some(template), .. } => type_impurities(
                    problems,
                    template,
                ),
                _ => problems,
            },
            node.tail,
        ),
    }
}

fn validate_comptime_type<'a>(written: &TypeName<'a>, problems: &mut Vec<Diagnostic<'a>>)
    ensures
        final(problems)@ == type_impurities(old(problems)@, *written),
        kept(old(problems)@, final(problems)@),
    decreases *written,
{
    match &*written.kind {
        TypeNameKind::Generic { arguments, .. } => validate_comptime_arguments(
            arguments,
            problems,
        ),
        TypeNameKind::PackExpansion { template, .. } => {
            if let Some(template) = template {
                validate_comptime_type(template, problems);
            }
        },
        TypeNameKind::Tuple(elements) => validate_comptime_types(elements, problems),
        TypeNameKind::Array { element, .. } => validate_comptime_type(element, problems),
        TypeNameKind::Path(_) => {},
        TypeNameKind::Unit => {},
        _ => {
            problems.push(
                impure(
                    "references, pointers, slices, and function values are forbidden in `comptime fn` signatures",
                    "pass deterministic owned scalar or aggregate values",
                    written.span,
                ),
            );
        },
    }
}

fn validate_comptime_types<'a>(types: &List<TypeName<'a>>, problems: &mut Vec<Diagnostic<'a>>)
    ensures
        final(problems)@ == types_impurities(old(problems)@, *types),
        kept(old(problems)@, final(problems)@),
    decreases *types,
{
    let mut ahead: &List<TypeName<'a>> = types;
    loop
        invariant
            types_impurities(old(problems)@, *types) == types_impurities(problems@, *ahead),
            kept(old(problems)@, problems@),
            *ahead == *types || decreases_to!(*types => *ahead),
        decreases *ahead,
    {
        match ahead {
            List::Nil => {
                return ;
            },
            List::Cons(node) => {
                validate_comptime_type(&node.head, problems);
                ahead = &node.tail;
            },
        }
    }
}

fn validate_comptime_arguments<'a>(
    arguments: &List<GenericArgument<'a>>,
    problems: &mut Vec<Diagnostic<'a>>,
)
    ensures
        final(problems)@ == argument_impurities(old(problems)@, *arguments),
        kept(old(problems)@, final(problems)@),
    decreases *arguments,
{
    let mut ahead: &List<GenericArgument<'a>> = arguments;
    loop
        invariant
            argument_impurities(old(problems)@, *arguments) == argument_impurities(
                problems@,
                *ahead,
            ),
            kept(old(problems)@, problems@),
            *ahead == *arguments || decreases_to!(*arguments => *ahead),
        decreases *ahead,
    {
        match ahead {
            List::Nil => {
                return ;
            },
            List::Cons(node) => {
                match &node.head {
                    GenericArgument::Type(ty) => validate_comptime_type(ty, problems),
                    GenericArgument::Pack { template: Some(template), .. } => validate_comptime_type(
                        template,
                        problems,
                    ),
                    _ => {},
                }
                ahead = &node.tail;
            },
        }
    }
}

/// Whether compile-time code may call what a path refers to: a `comptime fn`
/// or an operation of the compile-time evaluator.
pub open spec fn may_call(path: Path, functions: List<&str>) -> bool {
    ||| match lone_name(path) {
        Some(name) => listed(functions, name@) || name@ == "assert"@ || name@ == "panic"@ || name@
            == "size_of"@ || name@ == "align_of"@ || name@ == "fields"@ || name@ == "variants"@,
        None => false,
    }
    ||| match two_names(path) {
        Some((namespace, name)) => namespace.name@ == "meta"@ && (name.name@ == "name"@
            || name.name@ == "fields"@ || name.name@ == "variants"@ || name.name@ == "traits"@),
        None => false,
    }
}

fn is_callable(path: &Path, functions: &List<&str>) -> (answer: bool)
    ensures
        answer == may_call(*path, *functions),
{
    let by_name = match single_path_name(path) {
        Some(name) => is_listed(functions, name) || same(name, "assert") || same(name, "panic")
            || same(name, "size_of") || same(name, "align_of") || same(name, "fields") || same(
            name,
            "variants",
        ),
        None => false,
    };
    by_name || match path_pair(path) {
        Some((namespace, name)) => same(namespace.name, "meta") && (same(name.name, "name") || same(
            name.name,
            "fields",
        ) || same(name.name, "variants") || same(name.name, "traits")),
        None => false,
    }
}

/// The problems so far with those of an expression in compile-time code.
pub open spec fn expression_impurities<'a>(
    problems: Seq<Diagnostic<'a>>,
    expression: Expression<'a>,
    functions: List<&'a str>,
) -> Seq<Diagnostic<'a>>
    decreases expression,
{
    match *expression.kind {
        ExpressionKind::Integer(_)
        | ExpressionKind::Float(_)
        | ExpressionKind::Character(_)
        | ExpressionKind::String(_)
        | ExpressionKind::CString(_)
        | ExpressionKind::Boolean(_)
        | ExpressionKind::Unit
        | ExpressionKind::Path(_) => problems,
        ExpressionKind::FormattedString(fragments) => fragment_impurities(
            problems.push(
                impure(
                    "formatted strings are not available during compile-time evaluation",
                    "format runtime text into an allocator-owned String",
                    expression.span,
                ),
            ),
            fragments,
            functions,
        ),
        ExpressionKind::Tuple(elements) => expressions_impurities(problems, elements, functions),
        ExpressionKind::PackExpansion { template, .. } => expression_impurities(
            problems,
            template,
            functions,
        ),
        ExpressionKind::ArrayList(elements) => expressions_impurities(
            problems,
            elements,
            functions,
        ),
        ExpressionKind::ArrayRepeat { value, length } => expression_impurities(
            expression_impurities(problems, value, functions),
            length,
            functions,
        ),
        ExpressionKind::Struct { fields, .. } => field_impurities(problems, fields, functions),
        ExpressionKind::Unary { operator, operand } => expression_impurities(
            if operator is Borrow || operator is BorrowMut || operator is Dereference {
                problems.push(
                    impure(
                        "references and pointer dereferences are forbidden during compile-time evaluation",
                        "use owned compile-time values",
                        expression.span,
                    ),
                )
            } else {
                problems
            },
            operand,
            functions,
        ),
        ExpressionKind::Binary { left, right, .. } => expression_impurities(
            expression_impurities(problems, left, functions),
            right,
            functions,
        ),
        ExpressionKind::Call(call) => {
            let problems = if call_is_allowed(call, functions) {
                problems
            } else {
                problems.push(
                    impure(
                        "only `comptime fn` and compile-time metadata intrinsics may be called here",
                        "move I/O, allocation, FFI, clocks, randomness, and threads to runtime code",
                        call.span,
                    ),
                )
            };
            expressions_impurities(
                const_argument_impurities(problems, call.generic_arguments, functions),
                call.arguments,
                functions,
            )
        },
        ExpressionKind::If { condition, then_branch, else_branch } => {
            let problems = block_impurities(
                expression_impurities(problems, condition, functions),
                then_branch,
                functions,
            );
            match else_branch {
                Some(alternative) => expression_impurities(problems, alternative, functions),
                None => problems,
            }
        },
        ExpressionKind::Match { scrutinee, arms } => arm_impurities(
            expression_impurities(problems, scrutinee, functions),
            arms,
            functions,
        ),
        ExpressionKind::Loop(body) => block_impurities(problems, body, functions),
        ExpressionKind::Unsafe(block) => block_impurities(
            problems.push(
                impure(
                    "`unsafe` is forbidden during compile-time evaluation",
                    "move native or raw-pointer work to runtime code",
                    block.span,
                ),
            ),
            block,
            functions,
        ),
        ExpressionKind::Block(block) => block_impurities(problems, block, functions),
        ExpressionKind::Assignment { target, value, .. } => expression_impurities(
            expression_impurities(problems, target, functions),
            value,
            functions,
        ),
        ExpressionKind::Cast { value, target } => type_impurities(
            expression_impurities(problems, value, functions),
            target,
        ),
        ExpressionKind::Field(field) => expression_impurities(problems, field.base, functions),
        ExpressionKind::Index(index) => expressions_impurities(
            expression_impurities(problems, index.base, functions),
            index.indices,
            functions,
        ),
        ExpressionKind::Try(value) => expression_impurities(
            problems.push(
                impure(
                    "`?` is not available during compile-time evaluation",
                    "match the value explicitly before entering `comptime`",
                    expression.span,
                ),
            ),
            value,
            functions,
        ),
    }
}

/// Whether compile-time code may make a call.
pub open spec fn call_is_allowed(call: CallExpression, functions: List<&str>) -> bool {
    match *call.callee.kind {
        ExpressionKind::Path(path) => may_call(path, functions),
        _ => false,
    }
}

/// The problems so far with those of several expressions.
pub open spec fn expressions_impurities<'a>(
    problems: Seq<Diagnostic<'a>>,
    expressions: List<Expression<'a>>,
    functions: List<&'a str>,
) -> Seq<Diagnostic<'a>>
    decreases expressions,
{
    match expressions {
        List::Nil => problems,
        List::Cons(node) => expressions_impurities(
            expression_impurities(problems, node.head, functions),
            node.tail,
            functions,
        ),
    }
}

/// The problems so far with those of the values in a formatted string.
pub open spec fn fragment_impurities<'a>(
    problems: Seq<Diagnostic<'a>>,
    fragments: List<FormattedStringFragment<'a>>,
    functions: List<&'a str>,
) -> Seq<Diagnostic<'a>>
    decreases fragments,
{
    match fragments {
        List::Nil => problems,
        List::Cons(node) => fragment_impurities(
            match node.head {
                FormattedStringFragment::Display(value) => expression_impurities(
                    problems,
                    value,
                    functions,
                ),
                FormattedStringFragment::Debug(value) => expression_impurities(
                    problems,
                    value,
                    functions,
                ),
                FormattedStringFragment::Text(..) => problems,
            },
            node.tail,
            functions,
        ),
    }
}

/// The problems so far with those of the field values.
pub open spec fn field_impurities<'a>(
    problems: Seq<Diagnostic<'a>>,
    fields: List<FieldInitializer<'a>>,
    functions: List<&'a str>,
) -> Seq<Diagnostic<'a>>
    decreases fields,
{
    match fields {
        List::Nil => problems,
        List::Cons(node) => field_impurities(
            expression_impurities(problems, node.head.value, functions),
            node.tail,
            functions,
        ),
    }
}

/// The problems so far with those of the numbers among generic arguments.
pub open spec fn const_argument_impurities<'a>(
    problems: Seq<Diagnostic<'a>>,
    arguments: List<GenericArgument<'a>>,
    functions: List<&'a str>,
) -> Seq<Diagnostic<'a>>
    decreases arguments,
{
    match arguments {
        List::Nil => problems,
        List::Cons(node) => const_argument_impurities(
            match node.head {
                GenericArgument::Const(value) => expression_impurities(problems, value, functions),
                _ => problems,
            },
            node.tail,
            functions,
        ),
    }
}

/// The problems so far with those of the arms of a `match`.
pub open spec fn arm_impurities<'a>(
    problems: Seq<Diagnostic<'a>>,
    arms: List<MatchArm<'a>>,
    functions: List<&'a str>,
) -> Seq<Diagnostic<'a>>
    decreases arms,
{
    match arms {
        List::Nil => problems,
        List::Cons(node) => {
            let problems = match node.head.guard {
                Some(guard) => expression_impurities(problems, guard, functions),
                None => problems,
            };
            arm_impurities(
                expression_impurities(problems, node.head.body, functions),
                node.tail,
                functions,
            )
        },
    }
}

/// The problems so far with those of a block in compile-time code.
pub open spec fn block_impurities<'a>(
    problems: Seq<Diagnostic<'a>>,
    block: Block<'a>,
    functions: List<&'a str>,
) -> Seq<Diagnostic<'a>>
    decreases block,
{
    let problems = statement_impurities(problems, block.statements, functions);
    match block.tail {
        Some(tail) => expression_impurities(problems, tail, functions),
        None => problems,
    }
}

/// The problems so far with those of one statement in compile-time code.
pub open spec fn one_statement_impurities<'a>(
    problems: Seq<Diagnostic<'a>>,
    statement: Statement<'a>,
    functions: List<&'a str>,
) -> Seq<Diagnostic<'a>>
    decreases statement,
{
    match statement {
        Statement::Let { initializer, .. } => expression_impurities(
            problems,
            initializer,
            functions,
        ),
        Statement::Expression(expression) => expression_impurities(
            problems,
            expression,
            functions,
        ),
        Statement::Return { value, .. } => match value {
            Some(value) => expression_impurities(problems, value, functions),
            None => problems,
        },
        Statement::While { condition, body, .. } => block_impurities(
            expression_impurities(problems, condition, functions),
            body,
            functions,
        ),
        Statement::For { iterable, body, .. } => block_impurities(
            expression_impurities(problems, iterable, functions),
            body,
            functions,
        ),
        Statement::Break { value, .. } => match value {
            Some(value) => expression_impurities(problems, value, functions),
            None => problems,
        },
        Statement::Defer { action, span } => expression_impurities(
            problems.push(
                impure(
                    "`defer` is not available during compile-time evaluation",
                    "keep compile-time cleanup explicit and pure",
                    span,
                ),
            ),
            action,
            functions,
        ),
        Statement::Continue(_) => problems,
    }
}

/// The problems so far with those of several statements.
pub open spec fn statement_impurities<'a>(
    problems: Seq<Diagnostic<'a>>,
    statements: List<Statement<'a>>,
    functions: List<&'a str>,
) -> Seq<Diagnostic<'a>>
    decreases statements,
{
    match statements {
        List::Nil => problems,
        List::Cons(node) => statement_impurities(
            one_statement_impurities(problems, node.head, functions),
            node.tail,
            functions,
        ),
    }
}

fn validate_comptime_call_target(call: &CallExpression, functions: &List<&str>) -> (answer: bool)
    ensures
        answer == call_is_allowed(*call, *functions),
{
    match &*call.callee.kind {
        ExpressionKind::Path(path) => is_callable(path, functions),
        _ => false,
    }
}

fn validate_comptime_expression<'a>(
    expression: &Expression<'a>,
    functions: &List<&'a str>,
    problems: &mut Vec<Diagnostic<'a>>,
)
    ensures
        final(problems)@ == expression_impurities(old(problems)@, *expression, *functions),
        kept(old(problems)@, final(problems)@),
    decreases *expression,
{
    match &*expression.kind {
        ExpressionKind::Integer(_)
        | ExpressionKind::Float(_)
        | ExpressionKind::Character(_)
        | ExpressionKind::String(_)
        | ExpressionKind::CString(_)
        | ExpressionKind::Boolean(_)
        | ExpressionKind::Unit
        | ExpressionKind::Path(_) => {},
        ExpressionKind::FormattedString(fragments) => {
            problems.push(
                impure(
                    "formatted strings are not available during compile-time evaluation",
                    "format runtime text into an allocator-owned String",
                    expression.span,
                ),
            );
            validate_comptime_formatted_string(fragments, functions, problems);
        },
        ExpressionKind::Tuple(elements) => validate_comptime_expressions(
            elements,
            functions,
            problems,
        ),
        ExpressionKind::PackExpansion { template, .. } => validate_comptime_expression(
            template,
            functions,
            problems,
        ),
        ExpressionKind::ArrayList(elements) => validate_comptime_expressions(
            elements,
            functions,
            problems,
        ),
        ExpressionKind::ArrayRepeat { value, length } => {
            validate_comptime_expression(value, functions, problems);
            validate_comptime_expression(length, functions, problems);
        },
        ExpressionKind::Struct { fields, .. } => validate_comptime_fields(
            fields,
            functions,
            problems,
        ),
        ExpressionKind::Unary { operator, operand } => {
            if matches!(
                operator,
                UnaryOperator::Borrow | UnaryOperator::BorrowMut | UnaryOperator::Dereference
            ) {
                problems.push(
                    impure(
                        "references and pointer dereferences are forbidden during compile-time evaluation",
                        "use owned compile-time values",
                        expression.span,
                    ),
                );
            }
            validate_comptime_expression(operand, functions, problems);
        },
        ExpressionKind::Binary { left, right, .. } => {
            validate_comptime_expression(left, functions, problems);
            validate_comptime_expression(right, functions, problems);
        },
        ExpressionKind::Call(call) => {
            if !validate_comptime_call_target(call, functions) {
                problems.push(
                    impure(
                        "only `comptime fn` and compile-time metadata intrinsics may be called here",
                        "move I/O, allocation, FFI, clocks, randomness, and threads to runtime code",
                        call.span,
                    ),
                );
            }
            validate_comptime_const_arguments(&call.generic_arguments, functions, problems);
            validate_comptime_expressions(&call.arguments, functions, problems);
        },
        ExpressionKind::If { condition, then_branch, else_branch } => {
            validate_comptime_expression(condition, functions, problems);
            validate_comptime_block(then_branch, functions, problems);
            if let Some(alternative) = else_branch {
                validate_comptime_expression(alternative, functions, problems);
            }
        },
        ExpressionKind::Match { scrutinee, arms } => {
            validate_comptime_expression(scrutinee, functions, problems);
            validate_comptime_arms(arms, functions, problems);
        },
        ExpressionKind::Loop(body) => validate_comptime_block(body, functions, problems),
        ExpressionKind::Unsafe(block) => {
            problems.push(
                impure(
                    "`unsafe` is forbidden during compile-time evaluation",
                    "move native or raw-pointer work to runtime code",
                    block.span,
                ),
            );
            validate_comptime_block(block, functions, problems);
        },
        ExpressionKind::Block(block) => validate_comptime_block(block, functions, problems),
        ExpressionKind::Assignment { target, value, .. } => {
            validate_comptime_expression(target, functions, problems);
            validate_comptime_expression(value, functions, problems);
        },
        ExpressionKind::Cast { value, target } => {
            validate_comptime_expression(value, functions, problems);
            validate_comptime_type(target, problems);
        },
        ExpressionKind::Field(field) => validate_comptime_expression(
            &field.base,
            functions,
            problems,
        ),
        ExpressionKind::Index(index) => {
            validate_comptime_expression(&index.base, functions, problems);
            validate_comptime_expressions(&index.indices, functions, problems);
        },
        ExpressionKind::Try(value) => {
            problems.push(
                impure(
                    "`?` is not available during compile-time evaluation",
                    "match the value explicitly before entering `comptime`",
                    expression.span,
                ),
            );
            validate_comptime_expression(value, functions, problems);
        },
    }
}

fn validate_comptime_expressions<'a>(
    expressions: &List<Expression<'a>>,
    functions: &List<&'a str>,
    problems: &mut Vec<Diagnostic<'a>>,
)
    ensures
        final(problems)@ == expressions_impurities(old(problems)@, *expressions, *functions),
        kept(old(problems)@, final(problems)@),
    decreases *expressions,
{
    let mut ahead: &List<Expression<'a>> = expressions;
    loop
        invariant
            expressions_impurities(
                old(problems)@,
                *expressions,
                *functions,
            ) == expressions_impurities(
                problems@,
                *ahead,
                *functions,
            ),
            kept(old(problems)@, problems@),
            *ahead == *expressions || decreases_to!(*expressions => *ahead),
        decreases *ahead,
    {
        match ahead {
            List::Nil => {
                return ;
            },
            List::Cons(node) => {
                validate_comptime_expression(&node.head, functions, problems);
                ahead = &node.tail;
            },
        }
    }
}

fn validate_comptime_formatted_string<'a>(
    fragments: &List<FormattedStringFragment<'a>>,
    functions: &List<&'a str>,
    problems: &mut Vec<Diagnostic<'a>>,
)
    ensures
        final(problems)@ == fragment_impurities(old(problems)@, *fragments, *functions),
        kept(old(problems)@, final(problems)@),
    decreases *fragments,
{
    let mut ahead: &List<FormattedStringFragment<'a>> = fragments;
    loop
        invariant
            fragment_impurities(old(problems)@, *fragments, *functions) == fragment_impurities(
                problems@,
                *ahead,
                *functions,
            ),
            kept(old(problems)@, problems@),
            *ahead == *fragments || decreases_to!(*fragments => *ahead),
        decreases *ahead,
    {
        match ahead {
            List::Nil => {
                return ;
            },
            List::Cons(node) => {
                match &node.head {
                    FormattedStringFragment::Display(value) => validate_comptime_expression(
                        value,
                        functions,
                        problems,
                    ),
                    FormattedStringFragment::Debug(value) => validate_comptime_expression(
                        value,
                        functions,
                        problems,
                    ),
                    FormattedStringFragment::Text(..) => {},
                }
                ahead = &node.tail;
            },
        }
    }
}

fn validate_comptime_fields<'a>(
    fields: &List<FieldInitializer<'a>>,
    functions: &List<&'a str>,
    problems: &mut Vec<Diagnostic<'a>>,
)
    ensures
        final(problems)@ == field_impurities(old(problems)@, *fields, *functions),
        kept(old(problems)@, final(problems)@),
    decreases *fields,
{
    let mut ahead: &List<FieldInitializer<'a>> = fields;
    loop
        invariant
            field_impurities(old(problems)@, *fields, *functions) == field_impurities(
                problems@,
                *ahead,
                *functions,
            ),
            kept(old(problems)@, problems@),
            *ahead == *fields || decreases_to!(*fields => *ahead),
        decreases *ahead,
    {
        match ahead {
            List::Nil => {
                return ;
            },
            List::Cons(node) => {
                validate_comptime_expression(&node.head.value, functions, problems);
                ahead = &node.tail;
            },
        }
    }
}

fn validate_comptime_const_arguments<'a>(
    arguments: &List<GenericArgument<'a>>,
    functions: &List<&'a str>,
    problems: &mut Vec<Diagnostic<'a>>,
)
    ensures
        final(problems)@ == const_argument_impurities(old(problems)@, *arguments, *functions),
        kept(old(problems)@, final(problems)@),
    decreases *arguments,
{
    let mut ahead: &List<GenericArgument<'a>> = arguments;
    loop
        invariant
            const_argument_impurities(
                old(problems)@,
                *arguments,
                *functions,
            ) == const_argument_impurities(
                problems@,
                *ahead,
                *functions,
            ),
            kept(old(problems)@, problems@),
            *ahead == *arguments || decreases_to!(*arguments => *ahead),
        decreases *ahead,
    {
        match ahead {
            List::Nil => {
                return ;
            },
            List::Cons(node) => {
                match &node.head {
                    GenericArgument::Const(value) => validate_comptime_expression(
                        value,
                        functions,
                        problems,
                    ),
                    _ => {},
                }
                ahead = &node.tail;
            },
        }
    }
}

fn validate_comptime_arms<'a>(
    arms: &List<MatchArm<'a>>,
    functions: &List<&'a str>,
    problems: &mut Vec<Diagnostic<'a>>,
)
    ensures
        final(problems)@ == arm_impurities(old(problems)@, *arms, *functions),
        kept(old(problems)@, final(problems)@),
    decreases *arms,
{
    let mut ahead: &List<MatchArm<'a>> = arms;
    loop
        invariant
            arm_impurities(old(problems)@, *arms, *functions) == arm_impurities(
                problems@,
                *ahead,
                *functions,
            ),
            kept(old(problems)@, problems@),
            *ahead == *arms || decreases_to!(*arms => *ahead),
        decreases *ahead,
    {
        match ahead {
            List::Nil => {
                return ;
            },
            List::Cons(node) => {
                if let Some(guard) = &node.head.guard {
                    validate_comptime_expression(guard, functions, problems);
                }
                validate_comptime_expression(&node.head.body, functions, problems);
                ahead = &node.tail;
            },
        }
    }
}

/// Reports what a block may not contain when it runs during compilation.
pub fn validate_comptime_block<'a>(
    block: &Block<'a>,
    functions: &List<&'a str>,
    problems: &mut Vec<Diagnostic<'a>>,
)
    ensures
        final(problems)@ == block_impurities(old(problems)@, *block, *functions),
        kept(old(problems)@, final(problems)@),
    decreases *block,
{
    validate_comptime_statements(&block.statements, functions, problems);
    if let Some(tail) = &block.tail {
        validate_comptime_expression(tail, functions, problems);
    }
}

fn validate_comptime_statements<'a>(
    statements: &List<Statement<'a>>,
    functions: &List<&'a str>,
    problems: &mut Vec<Diagnostic<'a>>,
)
    ensures
        final(problems)@ == statement_impurities(old(problems)@, *statements, *functions),
        kept(old(problems)@, final(problems)@),
    decreases *statements,
{
    let mut ahead: &List<Statement<'a>> = statements;
    loop
        invariant
            statement_impurities(old(problems)@, *statements, *functions) == statement_impurities(
                problems@,
                *ahead,
                *functions,
            ),
            kept(old(problems)@, problems@),
            *ahead == *statements || decreases_to!(*statements => *ahead),
        decreases *ahead,
    {
        match ahead {
            List::Nil => {
                return ;
            },
            List::Cons(node) => {
                validate_comptime_statement(&node.head, functions, problems);
                ahead = &node.tail;
            },
        }
    }
}

fn validate_comptime_statement<'a>(
    statement: &Statement<'a>,
    functions: &List<&'a str>,
    problems: &mut Vec<Diagnostic<'a>>,
)
    ensures
        final(problems)@ == one_statement_impurities(old(problems)@, *statement, *functions),
        kept(old(problems)@, final(problems)@),
    decreases *statement,
{
    match statement {
        Statement::Let { initializer, .. } => validate_comptime_expression(
            initializer,
            functions,
            problems,
        ),
        Statement::Expression(expression) => validate_comptime_expression(
            expression,
            functions,
            problems,
        ),
        Statement::Return { value, .. } => {
            if let Some(value) = value {
                validate_comptime_expression(value, functions, problems);
            }
        },
        Statement::While { condition, body, .. } => {
            validate_comptime_expression(condition, functions, problems);
            validate_comptime_block(body, functions, problems);
        },
        Statement::For { iterable, body, .. } => {
            validate_comptime_expression(iterable, functions, problems);
            validate_comptime_block(body, functions, problems);
        },
        Statement::Break { value, .. } => {
            if let Some(value) = value {
                validate_comptime_expression(value, functions, problems);
            }
        },
        Statement::Defer { action, span } => {
            problems.push(
                impure(
                    "`defer` is not available during compile-time evaluation",
                    "keep compile-time cleanup explicit and pure",
                    *span,
                ),
            );
            validate_comptime_expression(action, functions, problems);
        },
        Statement::Continue(_) => {},
    }
}

/// The problems so far with those of the parameter types.
pub open spec fn parameter_impurities<'a>(
    problems: Seq<Diagnostic<'a>>,
    parameters: List<Parameter<'a>>,
) -> Seq<Diagnostic<'a>>
    decreases parameters,
{
    match parameters {
        List::Nil => problems,
        List::Cons(node) => parameter_impurities(
            type_impurities(problems, node.head.ty),
            node.tail,
        ),
    }
}

fn validate_comptime_parameters<'a>(
    parameters: &List<Parameter<'a>>,
    problems: &mut Vec<Diagnostic<'a>>,
)
    ensures
        final(problems)@ == parameter_impurities(old(problems)@, *parameters),
        kept(old(problems)@, final(problems)@),
    decreases *parameters,
{
    let mut ahead: &List<Parameter<'a>> = parameters;
    loop
        invariant
            parameter_impurities(old(problems)@, *parameters) == parameter_impurities(
                problems@,
                *ahead,
            ),
            kept(old(problems)@, problems@),
            *ahead == *parameters || decreases_to!(*parameters => *ahead),
        decreases *ahead,
    {
        match ahead {
            List::Nil => {
                return ;
            },
            List::Cons(node) => {
                validate_comptime_type(&node.head.ty, problems);
                ahead = &node.tail;
            },
        }
    }
}

/// The problems so far with those of a `comptime fn`.
pub open spec fn function_impurities<'a>(
    problems: Seq<Diagnostic<'a>>,
    function: Function<'a>,
    functions: List<&'a str>,
) -> Seq<Diagnostic<'a>> {
    let problems = parameter_impurities(problems, function.parameters);
    let problems = match function.return_type {
        Some(ty) => type_impurities(problems, ty),
        None => problems,
    };
    block_impurities(problems, function.body, functions)
}

/// Reports what a `comptime fn` may not contain.
pub fn validate_comptime_function<'a>(
    function: &Function<'a>,
    functions: &List<&'a str>,
    problems: &mut Vec<Diagnostic<'a>>,
)
    ensures
        final(problems)@ == function_impurities(old(problems)@, *function, *functions),
        kept(old(problems)@, final(problems)@),
{
    validate_comptime_parameters(&function.parameters, problems);
    if let Some(ty) = &function.return_type {
        validate_comptime_type(ty, problems);
    }
    validate_comptime_block(&function.body, functions, problems);
}

} // verus!

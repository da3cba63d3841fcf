//! What can be read off a syntax tree without knowing any type.

use crate::ast::{
    lone_name, path_pair, path_text, single_path_name, two_names, BinaryOperator,
    Expression, ExpressionKind, FieldInitializer, GenericArgument, Path, TypeName, TypeNameKind,
    UnaryOperator,
};
use crate::hir::AssertionMode;
use crate::list::{append, cons, extend, prepend, prepended, List};
use crate::text::{joined, number, same, words, words2, words3, Piece, Text};
use vstd::prelude::*;
use vstd::string::*;

verus! {

broadcast use crate::list::pushed_comes_first;

/// The names of the traits that the language itself knows.
pub open spec fn names_builtin_trait(name: Seq<char>) -> bool {
    name == "Copy"@ || name == "Clone"@ || name == "Debug"@ || name == "Eq"@ || name == "Ord"@
        || name == "Ordered"@ || name == "Hash"@ || name == "Default"@ || name == "Send"@ || name
        == "Sync"@ || name == "Pod"@
}

/// Whether the language itself knows a trait of the name.
pub fn is_builtin_trait(name: &str) -> (answer: bool)
    ensures
        answer == names_builtin_trait(name@),
{
    same(name, "Copy") || same(name, "Clone") || same(name, "Debug") || same(name, "Eq") || same(
        name,
        "Ord",
    ) || same(name, "Ordered") || same(name, "Hash") || same(name, "Default") || same(name, "Send")
        || same(name, "Sync") || same(name, "Pod")
}

/// The first position from `at` on that holds a `$`, or the length.
pub open spec fn dollar_from(name: Seq<char>, at: int) -> int
    decreases name.len() - at,
{
    if at >= name.len() {
        name.len() as int
    } else if name[at] == '$' {
        at
    } else {
        dollar_from(name, at + 1)
    }
}

/// The module that a symbol is marked with: the part between a leading
/// `__module_` and the first `$` behind it.
pub open spec fn module_identity(name: Seq<char>) -> Option<Seq<char>> {
    let mark = "__module_"@;
    if name.len() >= mark.len() && name.take(mark.len() as int) == mark && dollar_from(
        name,
        mark.len() as int,
    ) < name.len() {
        Some(name.subrange(mark.len() as int, dollar_from(name, mark.len() as int)))
    } else {
        None
    }
}

/// The module that a symbol is marked with: the part between a leading
/// `__module_` and the first `$` behind it.
pub fn symbol_module_identity<'a>(name: &'a str) -> (module: Option<&'a str>)
    ensures
        match module {
            Some(module) => module_identity(name@) == Some(module@),
            None => module_identity(name@) is None,
        },
{
    let mark = "__module_";
    let skipped: usize = mark.unicode_len();
    let length: usize = name.unicode_len();
    if length < skipped {
        return None;
    }
    let start = name.substring_char(0, skipped);
    assert(start@ == name@.take(skipped as int));
    if !same(start, mark) {
        return None;
    }
    let mut at: usize = skipped;
    while at < length
        invariant
            skipped <= at <= length,
            length == name@.len(),
            skipped == "__module_"@.len(),
            name@.take(skipped as int) == "__module_"@,
            dollar_from(name@, at as int) == dollar_from(name@, skipped as int),
        decreases length - at,
    {
        if name.get_char(at) == '$' {
            return Some(name.substring_char(skipped, at));
        }
        at = at + 1;
    }
    None
}

/// Whether `assert` or `debug_assert` is meant.
pub open spec fn named_assertion(path: Path) -> Option<AssertionMode> {
    match lone_name(path) {
        Some(name) => if name@ == "assert"@ {
            Some(AssertionMode::Always)
        } else if name@ == "debug_assert"@ {
            Some(AssertionMode::Debug)
        } else {
            None
        },
        None => None,
    }
}

/// Whether `assert` or `debug_assert` is meant.
pub fn assertion_mode(path: &Path) -> (mode: Option<AssertionMode>)
    ensures
        mode == named_assertion(*path),
{
    match single_path_name(path) {
        Some(name) => if same(name, "assert") {
            Some(AssertionMode::Always)
        } else if same(name, "debug_assert") {
            Some(AssertionMode::Debug)
        } else {
            None
        },
        None => None,
    }
}

/// The symbol of a member: its owner and its name with `::` between them.
pub open spec fn member<'a>(owner: Text<'a>, name: &'a str) -> Text<'a> {
    append(owner, words2("::", name))
}

/// The symbol of a member: its owner and its name with `::` between them.
pub fn member_symbol<'a>(owner: &Text<'a>, name: &'a str) -> (symbol: Text<'a>)
    ensures
        symbol == member(*owner, name),
{
    joined(owner, words2("::", name))
}

/// The symbol that a path of one or two names refers to.
pub open spec fn function_symbol<'a>(path: Path<'a>) -> Option<Text<'a>> {
    match lone_name(path) {
        Some(name) => Some(words(name)),
        None => match two_names(path) {
            Some((owner, method)) => Some(words3(owner.name, "::", method.name)),
            None => None,
        },
    }
}

/// The symbol that a path of one or two names refers to.
pub fn function_path_name<'a>(path: &Path<'a>) -> (symbol: Option<Text<'a>>)
    ensures
        symbol == function_symbol(*path),
{
    match single_path_name(path) {
        Some(name) => Some(words(name)),
        None => match path_pair(path) {
            Some((owner, method)) => Some(words3(owner.name, "::", method.name)),
            None => None,
        },
    }
}

/// The name of the type or trait that a written type is built with.
pub open spec fn constructor_name<'a>(written: TypeName<'a>) -> Option<&'a str> {
    match *written.kind {
        TypeNameKind::Path(path) => lone_name(path),
        TypeNameKind::Generic { path, .. } => lone_name(path),
        _ => None,
    }
}

/// The name of the type or trait that a written type is built with.
pub fn type_constructor_name<'a>(written: &TypeName<'a>) -> (name: Option<&'a str>)
    ensures
        name == constructor_name(*written),
{
    match &*written.kind {
        TypeNameKind::Path(path) => single_path_name(path),
        TypeNameKind::Generic { path, .. } => single_path_name(path),
        _ => None,
    }
}

/// Whether a method of an implementation takes its receiver as the trait
/// wants it: by the same kind of reference, or by value on both sides.
pub open spec fn receivers_agree(
    required: Option<TypeNameKind>,
    provided: Option<TypeNameKind>,
) -> bool {
    match (required, provided) {
        (None, None) => true,
        (Some(required), Some(provided)) => match (required, provided) {
            (
                TypeNameKind::Reference { mutable: required, .. },
                TypeNameKind::Reference { mutable: provided, .. },
            ) => required == provided,
            (TypeNameKind::Reference { .. }, _) => false,
            (_, TypeNameKind::Reference { .. }) => false,
            _ => true,
        },
        _ => false,
    }
}

/// Whether a method of an implementation takes its receiver as the trait
/// wants it: by the same kind of reference, or by value on both sides.
pub fn receiver_shapes_match(
    required: Option<&TypeNameKind>,
    provided: Option<&TypeNameKind>,
) -> (answer: bool)
    ensures
        answer == receivers_agree(
            match required {
                Some(kind) => Some(*kind),
                None => None,
            },
            match provided {
                Some(kind) => Some(*kind),
                None => None,
            },
        ),
{
    match (required, provided) {
        (None, None) => true,
        (Some(required), Some(provided)) => match (required, provided) {
            (
                TypeNameKind::Reference { mutable: required, .. },
                TypeNameKind::Reference { mutable: provided, .. },
            ) => *required == *provided,
            (TypeNameKind::Reference { .. }, _) => false,
            (_, TypeNameKind::Reference { .. }) => false,
            _ => true,
        },
        _ => false,
    }
}

/// The path at the root of an assignment target.
pub open spec fn assignment_root<'a>(expression: Expression<'a>) -> Option<Path<'a>>
    decreases expression,
{
    match *expression.kind {
        ExpressionKind::Path(path) => Some(path),
        ExpressionKind::Field(field) => assignment_root(field.base),
        ExpressionKind::Index(index) => assignment_root(index.base),
        ExpressionKind::Call(call) => match *call.callee.kind {
            ExpressionKind::Field(field) => assignment_root(field.base),
            _ => None,
        },
        _ => None,
    }
}

/// The path at the root of an assignment target.
pub fn assignment_root_path<'a>(expression: &Expression<'a>) -> (path: Option<Path<'a>>)
    ensures
        path == assignment_root(*expression),
    decreases *expression,
{
    match &*expression.kind {
        ExpressionKind::Path(path) => Some(path.share()),
        ExpressionKind::Field(field) => assignment_root_path(&field.base),
        ExpressionKind::Index(index) => assignment_root_path(&index.base),
        ExpressionKind::Call(call) => match &*call.callee.kind {
            ExpressionKind::Field(field) => assignment_root_path(&field.base),
            _ => None,
        },
        _ => None,
    }
}

/// The path at the root of the storage that an expression views.
pub open spec fn view_root<'a>(expression: Expression<'a>) -> Option<Path<'a>>
    decreases expression,
{
    match *expression.kind {
        ExpressionKind::Path(path) => Some(path),
        ExpressionKind::Field(field) => view_root(field.base),
        ExpressionKind::Index(index) => view_root(index.base),
        ExpressionKind::Call(call) => match *call.callee.kind {
            ExpressionKind::Field(field) => view_root(field.base),
            _ => None,
        },
        ExpressionKind::Cast { value, .. } => view_root(value),
        _ => None,
    }
}

/// The path at the root of the storage that an expression views.
pub fn view_source_root_path<'a>(expression: &Expression<'a>) -> (path: Option<Path<'a>>)
    ensures
        path == view_root(*expression),
    decreases *expression,
{
    match &*expression.kind {
        ExpressionKind::Path(path) => Some(path.share()),
        ExpressionKind::Field(field) => view_source_root_path(&field.base),
        ExpressionKind::Index(index) => view_source_root_path(&index.base),
        ExpressionKind::Call(call) => match &*call.callee.kind {
            ExpressionKind::Field(field) => view_source_root_path(&field.base),
            _ => None,
        },
        ExpressionKind::Cast { value, .. } => view_source_root_path(value),
        _ => None,
    }
}

/// The path at the root of what a scoped value borrows from.
pub open spec fn scoped_root_path<'a>(expression: Expression<'a>) -> Option<Path<'a>>
    decreases expression,
{
    match *expression.kind {
        ExpressionKind::Unary { operator, operand } => if operator is Borrow
            || operator is BorrowMut {
            view_root(operand)
        } else {
            None
        },
        ExpressionKind::Path(path) => Some(path),
        ExpressionKind::Field(field) => view_root(field.base),
        ExpressionKind::Index(index) => view_root(index.base),
        ExpressionKind::Call(call) => match *call.callee.kind {
            ExpressionKind::Field(field) => view_root(field.base),
            ExpressionKind::Path(_) => match call.arguments {
                List::Cons(node) => scoped_root_path(node.head),
                List::Nil => None,
            },
            _ => None,
        },
        ExpressionKind::Cast { value, .. } => scoped_root_path(value),
        ExpressionKind::Unsafe(block) => match block.tail {
            Some(tail) => scoped_root_path(tail),
            None => None,
        },
        ExpressionKind::Block(block) => match block.tail {
            Some(tail) => scoped_root_path(tail),
            None => None,
        },
        ExpressionKind::Try(value) => scoped_root_path(value),
        ExpressionKind::Match { scrutinee, .. } => scoped_root_path(scrutinee),
        ExpressionKind::Struct { fields, .. } => first_field_root(fields),
        ExpressionKind::Tuple(elements) => first_scoped_root(elements),
        ExpressionKind::ArrayList(elements) => first_scoped_root(elements),
        ExpressionKind::ArrayRepeat { value, length } => match scoped_root_path(value) {
            Some(path) => Some(path),
            None => scoped_root_path(length),
        },
        _ => None,
    }
}

/// The first root among the expressions.
pub open spec fn first_scoped_root<'a>(expressions: List<Expression<'a>>) -> Option<Path<'a>>
    decreases expressions,
{
    match expressions {
        List::Nil => None,
        List::Cons(node) => match scoped_root_path(node.head) {
            Some(path) => Some(path),
            None => first_scoped_root(node.tail),
        },
    }
}

/// The first root among the field values.
pub open spec fn first_field_root<'a>(fields: List<FieldInitializer<'a>>) -> Option<Path<'a>>
    decreases fields,
{
    match fields {
        List::Nil => None,
        List::Cons(node) => match scoped_root_path(node.head.value) {
            Some(path) => Some(path),
            None => first_field_root(node.tail),
        },
    }
}

/// The path at the root of what a scoped value borrows from.
pub fn scoped_return_root<'a>(expression: &Expression<'a>) -> (path: Option<Path<'a>>)
    ensures
        path == scoped_root_path(*expression),
    decreases *expression,
{
    match &*expression.kind {
        ExpressionKind::Unary { operator, operand } => if matches!(
            operator,
            UnaryOperator::Borrow | UnaryOperator::BorrowMut
        ) {
            view_source_root_path(operand)
        } else {
            None
        },
        ExpressionKind::Path(path) => Some(path.share()),
        ExpressionKind::Field(field) => view_source_root_path(&field.base),
        ExpressionKind::Index(index) => view_source_root_path(&index.base),
        ExpressionKind::Call(call) => match &*call.callee.kind {
            ExpressionKind::Field(field) => view_source_root_path(&field.base),
            ExpressionKind::Path(_) => match &call.arguments {
                List::Cons(node) => scoped_return_root(&node.head),
                List::Nil => None,
            },
            _ => None,
        },
        ExpressionKind::Cast { value, .. } => scoped_return_root(value),
        ExpressionKind::Unsafe(block) => match &block.tail {
            Some(tail) => scoped_return_root(tail),
            None => None,
        },
        ExpressionKind::Block(block) => match &block.tail {
            Some(tail) => scoped_return_root(tail),
            None => None,
        },
        ExpressionKind::Try(value) => scoped_return_root(value),
        ExpressionKind::Match { scrutinee, .. } => scoped_return_root(scrutinee),
        ExpressionKind::Struct { fields, .. } => field_return_root(fields),
        ExpressionKind::Tuple(elements) => listed_return_root(elements),
        ExpressionKind::ArrayList(elements) => listed_return_root(elements),
        ExpressionKind::ArrayRepeat { value, length } => match scoped_return_root(value) {
            Some(path) => Some(path),
            None => scoped_return_root(length),
        },
        _ => None,
    }
}

fn listed_return_root<'a>(expressions: &List<Expression<'a>>) -> (path: Option<Path<'a>>)
    ensures
        path == first_scoped_root(*expressions),
    decreases *expressions,
{
    let mut ahead: &List<Expression<'a>> = expressions;
    loop
        invariant
            first_scoped_root(*expressions) == first_scoped_root(*ahead),
            *ahead == *expressions || decreases_to!(*expressions => *ahead),
        decreases *ahead,
    {
        match ahead {
            List::Nil => {
                return None;
            },
            List::Cons(node) => {
                match scoped_return_root(&node.head) {
                    Some(path) => {
                        return Some(path);
                    },
                    None => {
                        ahead = &node.tail;
                    },
                }
            },
        }
    }
}

fn field_return_root<'a>(fields: &List<FieldInitializer<'a>>) -> (path: Option<Path<'a>>)
    ensures
        path == first_field_root(*fields),
    decreases *fields,
{
    let mut ahead: &List<FieldInitializer<'a>> = fields;
    loop
        invariant
            first_field_root(*fields) == first_field_root(*ahead),
            *ahead == *fields || decreases_to!(*fields => *ahead),
        decreases *ahead,
    {
        match ahead {
            List::Nil => {
                return None;
            },
            List::Cons(node) => {
                match scoped_return_root(&node.head.value) {
                    Some(path) => {
                        return Some(path);
                    },
                    None => {
                        ahead = &node.tail;
                    },
                }
            },
        }
    }
}

/// Whether a borrow that an initializer takes lives on in the new binding.
pub open spec fn stores_borrow(expression: Expression) -> bool
    decreases expression,
{
    match *expression.kind {
        ExpressionKind::Unary { operator, .. } => operator is Borrow || operator is BorrowMut,
        ExpressionKind::Struct { fields, .. } => any_field_stores_borrow(fields),
        ExpressionKind::Tuple(elements) => any_stores_borrow(elements),
        ExpressionKind::PackExpansion { template, .. } => stores_borrow(template),
        ExpressionKind::ArrayList(elements) => any_stores_borrow(elements),
        ExpressionKind::ArrayRepeat { value, length } => stores_borrow(value) || stores_borrow(
            length,
        ),
        _ => false,
    }
}

/// Whether any of the expressions stores a borrow.
pub open spec fn any_stores_borrow(expressions: List<Expression>) -> bool
    decreases expressions,
{
    match expressions {
        List::Nil => false,
        List::Cons(node) => stores_borrow(node.head) || any_stores_borrow(node.tail),
    }
}

/// Whether any of the field values stores a borrow.
pub open spec fn any_field_stores_borrow(fields: List<FieldInitializer>) -> bool
    decreases fields,
{
    match fields {
        List::Nil => false,
        List::Cons(node) => stores_borrow(node.head.value) || any_field_stores_borrow(node.tail),
    }
}

/// Whether a borrow that an initializer takes lives on in the new binding.
pub fn initializer_stores_borrow(expression: &Expression) -> (answer: bool)
    ensures
        answer == stores_borrow(*expression),
    decreases *expression,
{
    match &*expression.kind {
        ExpressionKind::Unary { operator, .. } => matches!(
            operator,
            UnaryOperator::Borrow | UnaryOperator::BorrowMut
        ),
        ExpressionKind::Struct { fields, .. } => fields_store_borrow(fields),
        ExpressionKind::Tuple(elements) => elements_store_borrow(elements),
        ExpressionKind::PackExpansion { template, .. } => initializer_stores_borrow(template),
        ExpressionKind::ArrayList(elements) => elements_store_borrow(elements),
        ExpressionKind::ArrayRepeat { value, length } => initializer_stores_borrow(value)
            || initializer_stores_borrow(length),
        _ => false,
    }
}

fn elements_store_borrow(expressions: &List<Expression>) -> (answer: bool)
    ensures
        answer == any_stores_borrow(*expressions),
    decreases *expressions,
{
    let mut ahead: &List<Expression> = expressions;
    loop
        invariant
            any_stores_borrow(*expressions) == any_stores_borrow(*ahead),
            *ahead == *expressions || decreases_to!(*expressions => *ahead),
        decreases *ahead,
    {
        match ahead {
            List::Nil => {
                return false;
            },
            List::Cons(node) => {
                if initializer_stores_borrow(&node.head) {
                    return true;
                }
                ahead = &node.tail;
            },
        }
    }
}

fn fields_store_borrow(fields: &List<FieldInitializer>) -> (answer: bool)
    ensures
        answer == any_field_stores_borrow(*fields),
    decreases *fields,
{
    let mut ahead: &List<FieldInitializer> = fields;
    loop
        invariant
            any_field_stores_borrow(*fields) == any_field_stores_borrow(*ahead),
            *ahead == *fields || decreases_to!(*fields => *ahead),
        decreases *ahead,
    {
        match ahead {
            List::Nil => {
                return false;
            },
            List::Cons(node) => {
                if initializer_stores_borrow(&node.head.value) {
                    return true;
                }
                ahead = &node.tail;
            },
        }
    }
}

/// The name of a unary operator.
pub open spec fn spec_unary_name(operator: UnaryOperator) -> &'static str {
    match operator {
        UnaryOperator::Negate => "Negate",
        UnaryOperator::Not => "Not",
        UnaryOperator::Borrow => "Borrow",
        UnaryOperator::BorrowMut => "BorrowMut",
        UnaryOperator::Dereference => "Dereference",
    }
}

/// The name of a unary operator.
#[verifier::when_used_as_spec(spec_unary_name)]
pub fn unary_name(operator: UnaryOperator) -> (name: &'static str)
    ensures
        name == spec_unary_name(operator),
{
    match operator {
        UnaryOperator::Negate => "Negate",
        UnaryOperator::Not => "Not",
        UnaryOperator::Borrow => "Borrow",
        UnaryOperator::BorrowMut => "BorrowMut",
        UnaryOperator::Dereference => "Dereference",
    }
}

/// The name of a binary operator.
pub open spec fn spec_binary_name(operator: BinaryOperator) -> &'static str {
    match operator {
        BinaryOperator::Add => "Add",
        BinaryOperator::Subtract => "Subtract",
        BinaryOperator::Multiply => "Multiply",
        BinaryOperator::Divide => "Divide",
        BinaryOperator::Remainder => "Remainder",
        BinaryOperator::BitAnd => "BitAnd",
        BinaryOperator::BitXor => "BitXor",
        BinaryOperator::BitOr => "BitOr",
        BinaryOperator::ShiftLeft => "ShiftLeft",
        BinaryOperator::ShiftRight => "ShiftRight",
        BinaryOperator::Equal => "Equal",
        BinaryOperator::NotEqual => "NotEqual",
        BinaryOperator::Less => "Less",
        BinaryOperator::LessEqual => "LessEqual",
        BinaryOperator::Greater => "Greater",
        BinaryOperator::GreaterEqual => "GreaterEqual",
        BinaryOperator::And => "And",
        BinaryOperator::Or => "Or",
    }
}

/// The name of a binary operator.
#[verifier::when_used_as_spec(spec_binary_name)]
pub fn binary_name(operator: BinaryOperator) -> (name: &'static str)
    ensures
        name == spec_binary_name(operator),
{
    match operator {
        BinaryOperator::Add => "Add",
        BinaryOperator::Subtract => "Subtract",
        BinaryOperator::Multiply => "Multiply",
        BinaryOperator::Divide => "Divide",
        BinaryOperator::Remainder => "Remainder",
        BinaryOperator::BitAnd => "BitAnd",
        BinaryOperator::BitXor => "BitXor",
        BinaryOperator::BitOr => "BitOr",
        BinaryOperator::ShiftLeft => "ShiftLeft",
        BinaryOperator::ShiftRight => "ShiftRight",
        BinaryOperator::Equal => "Equal",
        BinaryOperator::NotEqual => "NotEqual",
        BinaryOperator::Less => "Less",
        BinaryOperator::LessEqual => "LessEqual",
        BinaryOperator::Greater => "Greater",
        BinaryOperator::GreaterEqual => "GreaterEqual",
        BinaryOperator::And => "And",
        BinaryOperator::Or => "Or",
    }
}

/// A written number as a key: equal keys are written alike.
pub open spec fn const_key<'a>(expression: Expression<'a>) -> Text<'a>
    decreases expression,
{
    match *expression.kind {
        ExpressionKind::Integer(value) => number(value),
        ExpressionKind::Path(path) => path_text(path.segments),
        ExpressionKind::Unary { operator, operand } => cons(
            Piece::Words(unary_name(operator)),
            const_key(operand),
        ),
        ExpressionKind::Binary { operator, left, right } => cons(
            Piece::Words("("),
            append(
                const_key(left),
                append(
                    words3(" ", binary_name(operator), " "),
                    append(const_key(right), words(")")),
                ),
            ),
        ),
        _ => words("<expression>"),
    }
}

/// A written number as a key: equal keys are written alike.
pub fn const_expression_key<'a>(expression: &Expression<'a>) -> (key: Text<'a>)
    ensures
        key == const_key(*expression),
    decreases *expression,
{
    match &*expression.kind {
        ExpressionKind::Integer(value) => number(*value),
        ExpressionKind::Path(path) => path.display(),
        ExpressionKind::Unary { operator, operand } => cons(
            Piece::Words(unary_name(*operator)),
            const_expression_key(operand),
        ),
        ExpressionKind::Binary { operator, left, right } => cons(
            Piece::Words("("),
            joined(
                &const_expression_key(left),
                joined(
                    &words3(" ", binary_name(*operator), " "),
                    joined(&const_expression_key(right), words(")")),
                ),
            ),
        ),
        _ => words("<expression>"),
    }
}

/// A written type as a key: equal keys are written alike.
pub open spec fn type_key<'a>(written: TypeName<'a>) -> Text<'a>
    decreases written,
{
    match *written.kind {
        TypeNameKind::Function { parameters, return_type } => cons(
            Piece::Words("fn("),
            append(type_keys(parameters), cons(Piece::Words(")->"), type_key(return_type))),
        ),
        TypeNameKind::Path(path) => path_text(path.segments),
        TypeNameKind::Generic { path, arguments } => append(
            path_text(path.segments),
            cons(Piece::Words("<"), append(argument_keys(arguments), words(">"))),
        ),
        TypeNameKind::Unit => words("()"),
        TypeNameKind::Tuple(elements) => cons(
            Piece::Words("("),
            append(type_keys(elements), words(")")),
        ),
        TypeNameKind::Array { element, length } => cons(
            Piece::Words("["),
            append(
                type_key(element),
                cons(Piece::Words(";"), append(const_key(length), words("]"))),
            ),
        ),
        TypeNameKind::Slice(element) => cons(
            Piece::Words("["),
            append(type_key(element), words("]")),
        ),
        TypeNameKind::Reference { mutable, target } => cons(
            Piece::Words(if mutable { "&mut " } else { "&" }),
            type_key(target),
        ),
        TypeNameKind::RawPointer { mutable, target } => cons(
            Piece::Words(if mutable { "*mut " } else { "*const " }),
            type_key(target),
        ),
        TypeNameKind::PackExpansion { pack, template } => match template {
            Some(template) => append(words3("...", pack.name, "=>"), type_key(template)),
            None => words2("...", pack.name),
        },
    }
}

/// The keys of written types, separated by commas.
pub open spec fn type_keys<'a>(types: List<TypeName<'a>>) -> Text<'a>
    decreases types,
{
    match types {
        List::Nil => List::Nil,
        List::Cons(node) => if node.tail is Nil {
            type_key(node.head)
        } else {
            append(type_key(node.head), cons(Piece::Words(","), type_keys(node.tail)))
        },
    }
}

/// The key of one generic argument.
pub open spec fn argument_key<'a>(argument: GenericArgument<'a>) -> Text<'a>
    decreases argument,
{
    match argument {
        GenericArgument::Type(ty) => type_key(ty),
        GenericArgument::Const(value) => const_key(value),
        GenericArgument::Pack { pack, template, .. } => match template {
            Some(template) => append(words3("...", pack.name, "=>"), type_key(template)),
            None => words2("...", pack.name),
        },
    }
}

/// The keys of generic arguments, separated by commas.
pub open spec fn argument_keys<'a>(arguments: List<GenericArgument<'a>>) -> Text<'a>
    decreases arguments,
{
    match arguments {
        List::Nil => List::Nil,
        List::Cons(node) => if node.tail is Nil {
            argument_key(node.head)
        } else {
            append(argument_key(node.head), cons(Piece::Words(","), argument_keys(node.tail)))
        },
    }
}

/// A written type as a key: equal keys are written alike.
pub fn type_pattern_key<'a>(written: &TypeName<'a>) -> (key: Text<'a>)
    ensures
        key == type_key(*written),
    decreases *written,
{
    match &*written.kind {
        TypeNameKind::Function { parameters, return_type } => cons(
            Piece::Words("fn("),
            joined(
                &type_pattern_keys(parameters),
                cons(Piece::Words(")->"), type_pattern_key(return_type)),
            ),
        ),
        TypeNameKind::Path(path) => path.display(),
        TypeNameKind::Generic { path, arguments } => joined(
            &path.display(),
            cons(Piece::Words("<"), joined(&argument_pattern_keys(arguments), words(">"))),
        ),
        TypeNameKind::Unit => words("()"),
        TypeNameKind::Tuple(elements) => cons(
            Piece::Words("("),
            joined(&type_pattern_keys(elements), words(")")),
        ),
        TypeNameKind::Array { element, length } => cons(
            Piece::Words("["),
            joined(
                &type_pattern_key(element),
                cons(Piece::Words(";"), joined(&const_expression_key(length), words("]"))),
            ),
        ),
        TypeNameKind::Slice(element) => cons(
            Piece::Words("["),
            joined(&type_pattern_key(element), words("]")),
        ),
        TypeNameKind::Reference { mutable, target } => cons(
            Piece::Words(if *mutable { "&mut " } else { "&" }),
            type_pattern_key(target),
        ),
        TypeNameKind::RawPointer { mutable, target } => cons(
            Piece::Words(if *mutable { "*mut " } else { "*const " }),
            type_pattern_key(target),
        ),
        TypeNameKind::PackExpansion { pack, template } => match template {
            Some(template) => joined(
                &words3("...", pack.name, "=>"),
                type_pattern_key(template),
            ),
            None => words2("...", pack.name),
        },
    }
}

fn type_pattern_keys<'a>(types: &List<TypeName<'a>>) -> (keys: Text<'a>)
    ensures
        keys == type_keys(*types),
    decreases *types,
{
    let mut ahead: &List<TypeName<'a>> = types;
    let mut done: Vec<Piece<'a>> = Vec::new();
    loop
        invariant
            type_keys(*types) == prepended(done@, type_keys(*ahead)),
            *ahead == *types || decreases_to!(*types => *ahead),
        decreases *ahead,
    {
        match ahead {
            List::Nil => {
                return prepend(done, List::Nil);
            },
            List::Cons(node) => {
                if node.tail.is_empty() {
                    return prepend(done, type_pattern_key(&node.head));
                }
                extend(&mut done, &type_pattern_key(&node.head));
                done.push(Piece::Words(","));
                ahead = &node.tail;
            },
        }
    }
}

fn argument_pattern_key<'a>(argument: &GenericArgument<'a>) -> (key: Text<'a>)
    ensures
        key == argument_key(*argument),
    decreases *argument,
{
    match argument {
        GenericArgument::Type(ty) => type_pattern_key(ty),
        GenericArgument::Const(value) => const_expression_key(value),
        GenericArgument::Pack { pack, template, .. } => match template {
            Some(template) => joined(
                &words3("...", pack.name, "=>"),
                type_pattern_key(template),
            ),
            None => words2("...", pack.name),
        },
    }
}

fn argument_pattern_keys<'a>(arguments: &List<GenericArgument<'a>>) -> (keys: Text<'a>)
    ensures
        keys == argument_keys(*arguments),
    decreases *arguments,
{
    let mut ahead: &List<GenericArgument<'a>> = arguments;
    let mut done: Vec<Piece<'a>> = Vec::new();
    loop
        invariant
            argument_keys(*arguments) == prepended(done@, argument_keys(*ahead)),
            *ahead == *arguments || decreases_to!(*arguments => *ahead),
        decreases *ahead,
    {
        match ahead {
            List::Nil => {
                return prepend(done, List::Nil);
            },
            List::Cons(node) => {
                if node.tail.is_empty() {
                    return prepend(done, argument_pattern_key(&node.head));
                }
                extend(&mut done, &argument_pattern_key(&node.head));
                done.push(Piece::Words(","));
                ahead = &node.tail;
            },
        }
    }
}

} // verus!

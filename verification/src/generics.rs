//! Generic parameters and what they are bound to.

use crate::ast::{
    lone_name, single_path_name, BinaryOperator, Expression, ExpressionKind, GenericArgument,
    GenericParameter, TypeName, TypeNameKind,
};
use crate::list::{cons, List};
use crate::span::{error, helped, kept, Diagnostic};
use crate::text::{is_listed, listed, same, words, words3};
use crate::types::{same_types, Type};
use vstd::prelude::*;

verus! {

broadcast use crate::span::group_kept;

/// A name and what it stands for.
pub struct Entry<'a, V> {
    pub name: &'a str,
    pub value: V,
}

/// What a name stands for: the first entry of that name counts.
pub open spec fn bound<V>(entries: List<Entry<V>>, name: Seq<char>) -> Option<V>
    decreases entries,
{
    match entries {
        List::Nil => None,
        List::Cons(node) => if node.head.name@ == name {
            Some(node.head.value)
        } else {
            bound(node.tail, name)
        },
    }
}

/// What a name stands for: the first entry of that name counts.
pub fn find<'e, 'a, V>(entries: &'e List<Entry<'a, V>>, name: &str) -> (value: Option<&'e V>)
    ensures
        match value {
            Some(value) => bound(*entries, name@) == Some(*value),
            None => bound(*entries, name@) is None,
        },
{
    let mut ahead: &'e List<Entry<'a, V>> = entries;
    loop
        invariant
            bound(*entries, name@) == bound(*ahead, name@),
        decreases *ahead,
    {
        match ahead {
            List::Nil => {
                return None;
            },
            List::Cons(node) => {
                if same(node.head.name, name) {
                    return Some(&node.head.value);
                }
                ahead = &node.tail;
            },
        }
    }
}

/// The entries with a new one in front.
pub open spec fn spec_with<'a, V>(
    name: &'a str,
    value: V,
    entries: List<Entry<'a, V>>,
) -> List<Entry<'a, V>> {
    cons(Entry { name, value }, entries)
}

/// The entries with a new one in front.
#[verifier::when_used_as_spec(spec_with)]
pub fn with<'a, V>(name: &'a str, value: V, entries: List<Entry<'a, V>>) -> (more: List<
    Entry<'a, V>,
>)
    ensures
        more == spec_with(name, value, entries),
{
    cons(Entry { name, value }, entries)
}

/// A new entry hides older entries of its name and no others.
pub proof fn newest_entry_counts<V>(
    name: &str,
    value: V,
    entries: List<Entry<V>>,
    other: Seq<char>,
)
    ensures
        bound(with(name, value, entries), other) == (if name@ == other {
            Some(value)
        } else {
            bound(entries, other)
        }),
{
}

/// The generic value of a parameter: a type or a number.
#[derive(Clone, Copy, PartialEq, Eq, Structural, Debug)]
pub enum GenericValue {
    Type(Type),
    Const(u64),
}

/// Whether two lists of generic values are the same.
pub fn same_values(left: &List<GenericValue>, right: &List<GenericValue>) -> (equal: bool)
    ensures
        equal == (*left == *right),
{
    let mut ahead: &List<GenericValue> = left;
    let mut current_right: &List<GenericValue> = right;
    loop
        invariant
            (*left == *right) == (*ahead == *current_right),
        decreases *ahead,
    {
        match ahead {
            List::Nil => {
                return current_right.is_empty();
            },
            List::Cons(first) => {
                match current_right {
                    List::Nil => {
                        return false;
                    },
                    List::Cons(second) => {
                        if !(first.head == second.head) {
                            return false;
                        }
                        current_right = &second.tail;
                        ahead = &first.tail;
                    },
                }
            },
        }
    }
}

/// What the generic names in scope stand for.
pub struct Environment<'a> {
    pub types: List<Entry<'a, Type>>,
    pub type_packs: List<Entry<'a, List<Type>>>,
    pub constants: List<Entry<'a, u64>>,
}

impl<'a> Environment<'a> {
    pub fn share(&self) -> (shared: Self)
        ensures
            shared == *self,
    {
        Environment {
            types: self.types.share(),
            type_packs: self.type_packs.share(),
            constants: self.constants.share(),
        }
    }

    /// The same bindings with one more type.
    pub open spec fn with_type(self, name: &'a str, ty: Type) -> Environment<'a> {
        Environment { types: with(name, ty, self.types), ..self }
    }

    /// The same bindings with one more type.
    pub fn and_type(&self, name: &'a str, ty: Type) -> (more: Environment<'a>)
        ensures
            more == self.with_type(name, ty),
    {
        Environment {
            types: with(name, ty, self.types.share()),
            type_packs: self.type_packs.share(),
            constants: self.constants.share(),
        }
    }

    /// The same bindings with one more pack of types.
    pub open spec fn with_pack(self, name: &'a str, types: List<Type>) -> Environment<'a> {
        Environment { type_packs: with(name, types, self.type_packs), ..self }
    }

    /// The same bindings with one more pack of types.
    pub fn and_pack(&self, name: &'a str, types: List<Type>) -> (more: Environment<'a>)
        ensures
            more == self.with_pack(name, types),
    {
        Environment {
            types: self.types.share(),
            type_packs: with(name, types, self.type_packs.share()),
            constants: self.constants.share(),
        }
    }

    /// The same bindings with one more number.
    pub open spec fn with_constant(self, name: &'a str, value: u64) -> Environment<'a> {
        Environment { constants: with(name, value, self.constants), ..self }
    }

    /// The same bindings with one more number.
    pub fn and_constant(&self, name: &'a str, value: u64) -> (more: Environment<'a>)
        ensures
            more == self.with_constant(name, value),
    {
        Environment {
            types: self.types.share(),
            type_packs: self.type_packs.share(),
            constants: with(name, value, self.constants.share()),
        }
    }
}

/// Whether the list declares a parameter of the name that stands for a type or
/// a pack of types.
pub open spec fn declares_type(parameters: List<GenericParameter>, name: Seq<char>) -> bool
    decreases parameters,
{
    match parameters {
        List::Nil => false,
        List::Cons(node) => (!(node.head is Const) && node.head.name().name@ == name)
            || declares_type(node.tail, name),
    }
}

/// Whether the list declares a parameter of the name that stands for a type or
/// a pack of types.
pub fn generic_type_parameter(parameters: &List<GenericParameter>, name: &str) -> (found: bool)
    ensures
        found == declares_type(*parameters, name@),
{
    let mut ahead: &List<GenericParameter> = parameters;
    loop
        invariant
            declares_type(*parameters, name@) == declares_type(*ahead, name@),
        decreases *ahead,
    {
        match ahead {
            List::Nil => {
                return false;
            },
            List::Cons(node) => {
                let of_types = match &node.head {
                    GenericParameter::Const { .. } => false,
                    _ => true,
                };
                if of_types && same(node.head.name().name, name) {
                    return true;
                }
                ahead = &node.tail;
            },
        }
    }
}

/// Whether the list declares a parameter of the name that stands for a number.
pub open spec fn declares_const(parameters: List<GenericParameter>, name: Seq<char>) -> bool
    decreases parameters,
{
    match parameters {
        List::Nil => false,
        List::Cons(node) => (node.head is Const && node.head.name().name@ == name)
            || declares_const(node.tail, name),
    }
}

/// Whether the list declares a parameter of the name that stands for a number.
pub fn generic_const_parameter(parameters: &List<GenericParameter>, name: &str) -> (found: bool)
    ensures
        found == declares_const(*parameters, name@),
{
    let mut ahead: &List<GenericParameter> = parameters;
    loop
        invariant
            declares_const(*parameters, name@) == declares_const(*ahead, name@),
        decreases *ahead,
    {
        match ahead {
            List::Nil => {
                return false;
            },
            List::Cons(node) => {
                let of_numbers = match &node.head {
                    GenericParameter::Const { .. } => true,
                    _ => false,
                };
                if of_numbers && same(node.head.name().name, name) {
                    return true;
                }
                ahead = &node.tail;
            },
        }
    }
}

/// Binds a name to a type. A name that is bound already keeps its type, and
/// the binding succeeds only if that is the same type.
pub open spec fn type_bound<'a>(
    environment: Environment<'a>,
    name: &'a str,
    ty: Type,
) -> (Environment<'a>, bool) {
    match bound(environment.types, name@) {
        Some(existing) => (environment, existing == ty),
        None => (environment.with_type(name, ty), true),
    }
}

/// Binds a name to a type. A name that is bound already keeps its type, and
/// the binding succeeds only if that is the same type.
pub fn bind_type_argument<'a>(environment: &mut Environment<'a>, name: &'a str, ty: Type) -> (
    agrees: bool)
    ensures
        (*final(environment), agrees) == type_bound(*old(environment), name, ty),
{
    let existing = match find(&environment.types, name) {
        Some(existing) => Some(*existing),
        None => None,
    };
    match existing {
        Some(existing) => existing == ty,
        None => {
            *environment = environment.and_type(name, ty);
            true
        },
    }
}

/// Binds a name to a pack of types, as `type_bound` binds a type.
pub open spec fn pack_bound<'a>(
    environment: Environment<'a>,
    name: &'a str,
    types: List<Type>,
) -> (Environment<'a>, bool) {
    match bound(environment.type_packs, name@) {
        Some(existing) => (environment, existing == types),
        None => (environment.with_pack(name, types), true),
    }
}

/// Binds a name to a pack of types. A name that is bound already keeps its
/// types, and the binding succeeds only if those are the same types.
pub fn bind_type_pack_argument<'a>(
    environment: &mut Environment<'a>,
    name: &'a str,
    types: List<Type>,
) -> (agrees: bool)
    ensures
        (*final(environment), agrees) == pack_bound(*old(environment), name, types),
{
    let existing = match find(&environment.type_packs, name) {
        Some(existing) => Some(existing.share()),
        None => None,
    };
    match existing {
        Some(existing) => same_types(&existing, &types),
        None => {
            *environment = environment.and_pack(name, types);
            true
        },
    }
}

/// Binds a name to a number, as `type_bound` binds a type.
pub open spec fn const_bound<'a>(
    environment: Environment<'a>,
    name: &'a str,
    value: u64,
) -> (Environment<'a>, bool) {
    match bound(environment.constants, name@) {
        Some(existing) => (environment, existing == value),
        None => (environment.with_constant(name, value), true),
    }
}

/// Binds a name to a number. A name that is bound already keeps its number,
/// and the binding succeeds only if that is the same number.
pub fn bind_const_argument<'a>(environment: &mut Environment<'a>, name: &'a str, value: u64) -> (
    agrees: bool)
    ensures
        (*final(environment), agrees) == const_bound(*old(environment), name, value),
{
    let existing = match find(&environment.constants, name) {
        Some(existing) => Some(*existing),
        None => None,
    };
    match existing {
        Some(existing) => existing == value,
        None => {
            *environment = environment.and_constant(name, value);
            true
        },
    }
}

/// The result of an operator on two array lengths, where there is one.
pub open spec fn length_operation(operator: BinaryOperator, left: u64, right: u64) -> Option<u64> {
    match operator {
        BinaryOperator::Add => if left + right <= u64::MAX {
            Some((left + right) as u64)
        } else {
            None
        },
        BinaryOperator::Subtract => if left >= right {
            Some((left - right) as u64)
        } else {
            None
        },
        BinaryOperator::Multiply => if left * right <= u64::MAX {
            Some((left * right) as u64)
        } else {
            None
        },
        BinaryOperator::Divide => if right != 0 {
            Some(left / right)
        } else {
            None
        },
        BinaryOperator::Remainder => if right != 0 {
            Some(left % right)
        } else {
            None
        },
        BinaryOperator::BitAnd => Some(left & right),
        BinaryOperator::BitXor => Some(left ^ right),
        BinaryOperator::BitOr => Some(left | right),
        BinaryOperator::ShiftLeft => if right < 64 {
            Some(left << right)
        } else {
            None
        },
        BinaryOperator::ShiftRight => if right < 64 {
            Some(left >> right)
        } else {
            None
        },
        _ => None,
    }
}

fn apply_length_operation(operator: BinaryOperator, left: u64, right: u64) -> (value: Option<u64>)
    ensures
        value == length_operation(operator, left, right),
{
    match operator {
        BinaryOperator::Add => left.checked_add(right),
        BinaryOperator::Subtract => left.checked_sub(right),
        BinaryOperator::Multiply => left.checked_mul(right),
        BinaryOperator::Divide => if right != 0 {
            Some(left / right)
        } else {
            None
        },
        BinaryOperator::Remainder => if right != 0 {
            Some(left % right)
        } else {
            None
        },
        BinaryOperator::BitAnd => Some(left & right),
        BinaryOperator::BitXor => Some(left ^ right),
        BinaryOperator::BitOr => Some(left | right),
        BinaryOperator::ShiftLeft => if right < 64 {
            Some(left << right)
        } else {
            None
        },
        BinaryOperator::ShiftRight => if right < 64 {
            Some(left >> right)
        } else {
            None
        },
        _ => None,
    }
}

/// The problem of a length that is no non-negative integer constant.
pub open spec fn spec_length_problem<'a>(expression: Expression<'a>) -> Diagnostic<'a> {
    helped(
        "E3011",
        words("array length must be a non-negative integer constant"),
        "use an integer literal, const parameter, or checked const arithmetic",
        expression.span,
    )
}

/// The value of an array length, and the problems so far with those of the
/// length behind them. A problem inside an operand is reported once, at the
/// operand.
pub open spec fn array_length<'a>(
    problems: Seq<Diagnostic<'a>>,
    expression: Expression<'a>,
    constants: List<Entry<'a, u64>>,
) -> (Seq<Diagnostic<'a>>, Option<u64>)
    decreases expression,
{
    match *expression.kind {
        ExpressionKind::Integer(value) if value <= u64::MAX => (problems, Some(value as u64)),
        ExpressionKind::Path(path) if lone_name(path) is Some && bound(
            constants,
            lone_name(path)->0@,
        ) is Some => (problems, bound(constants, lone_name(path)->0@)),
        ExpressionKind::Binary { operator, left, right } => {
            let (problems, left) = array_length(problems, left, constants);
            if left is None {
                (problems, None)
            } else {
                let (problems, right) = array_length(problems, right, constants);
                if right is None {
                    (problems, None)
                } else {
                    match length_operation(operator, left->0, right->0) {
                        Some(value) => (problems, Some(value)),
                        None => (problems.push(spec_length_problem(expression)), None),
                    }
                }
            }
        },
        _ => (problems.push(spec_length_problem(expression)), None),
    }
}

/// The value of an array length. Problems are added to `problems`.
pub fn evaluate_array_length_in<'a>(
    expression: &Expression<'a>,
    constants: &List<Entry<'a, u64>>,
    problems: &mut Vec<Diagnostic<'a>>,
) -> (length: Option<u64>)
    ensures
        (final(problems)@, length) == array_length(old(problems)@, *expression, *constants),
        kept(old(problems)@, final(problems)@),
    decreases *expression,
{
    let value: Option<u64> = match &*expression.kind {
        ExpressionKind::Integer(value) => if *value <= u64::MAX as u128 {
            Some(*value as u64)
        } else {
            None
        },
        ExpressionKind::Path(path) => match single_path_name(path) {
            Some(name) => match find(constants, name) {
                Some(value) => Some(*value),
                None => None,
            },
            None => None,
        },
        ExpressionKind::Binary { operator, left, right } => {
            let left: u64 = match evaluate_array_length_in(left, constants, problems) {
                Some(left) => left,
                None => {
                    return None;
                },
            };
            let right: u64 = match evaluate_array_length_in(right, constants, problems) {
                Some(right) => right,
                None => {
                    return None;
                },
            };
            apply_length_operation(*operator, left, right)
        },
        _ => None,
    };
    if value.is_none() {
        problems.push(
            helped(
                "E3011",
                words("array length must be a non-negative integer constant"),
                "use an integer literal, const parameter, or checked const arithmetic",
                expression.span,
            ),
        );
    }
    value
}

/// Holds a written number against an actual one: a const parameter is bound to
/// it, and anything else must evaluate to it.
pub open spec fn const_inferred<'a>(
    pattern: Expression<'a>,
    actual: u64,
    parameters: List<GenericParameter<'a>>,
    environment: Environment<'a>,
) -> (Environment<'a>, bool) {
    match *pattern.kind {
        ExpressionKind::Path(path) if lone_name(path) is Some && declares_const(
            parameters,
            lone_name(path)->0@,
        ) => const_bound(environment, lone_name(path)->0, actual),
        _ => (
            environment,
            array_length(Seq::empty(), pattern, environment.constants).1 == Some(actual),
        ),
    }
}

/// Holds a written number against an actual one: a const parameter is bound to
/// it, and anything else must evaluate to it.
pub fn infer_const_pattern<'a>(
    pattern: &Expression<'a>,
    actual: u64,
    parameters: &List<GenericParameter<'a>>,
    environment: &mut Environment<'a>,
) -> (agrees: bool)
    ensures
        (*final(environment), agrees) == const_inferred(
            *pattern,
            actual,
            *parameters,
            *old(environment),
        ),
{
    if let ExpressionKind::Path(path) = &*pattern.kind {
        if let Some(name) = single_path_name(path) {
            if generic_const_parameter(parameters, name) {
                return bind_const_argument(environment, name, actual);
            }
        }
    }
    let mut ignored: Vec<Diagnostic> = Vec::new();
    match evaluate_array_length_in(pattern, &environment.constants, &mut ignored) {
        Some(expected) => expected == actual,
        None => false,
    }
}

/// Whether every const parameter in a written number is bound.
pub open spec fn const_is_bound(
    expression: Expression,
    parameters: List<GenericParameter>,
    environment: Environment,
) -> bool
    decreases expression,
{
    match *expression.kind {
        ExpressionKind::Path(path) => match lone_name(path) {
            Some(name) => !declares_const(parameters, name@) || bound(
                environment.constants,
                name@,
            ) is Some,
            None => true,
        },
        ExpressionKind::Binary { left, right, .. } => const_is_bound(left, parameters, environment)
            && const_is_bound(right, parameters, environment),
        ExpressionKind::Integer(_) => true,
        _ => false,
    }
}

/// Whether every const parameter in a written number is bound.
pub fn const_pattern_is_bound(
    expression: &Expression,
    parameters: &List<GenericParameter>,
    environment: &Environment,
) -> (answer: bool)
    ensures
        answer == const_is_bound(*expression, *parameters, *environment),
    decreases *expression,
{
    match &*expression.kind {
        ExpressionKind::Path(path) => match single_path_name(path) {
            Some(name) => !generic_const_parameter(parameters, name) || find(
                &environment.constants,
                name,
            ).is_some(),
            None => true,
        },
        ExpressionKind::Binary { left, right, .. } => const_pattern_is_bound(
            left,
            parameters,
            environment,
        ) && const_pattern_is_bound(right, parameters, environment),
        ExpressionKind::Integer(_) => true,
        _ => false,
    }
}

/// Whether every generic parameter in a written type is bound.
pub open spec fn type_is_bound<'a>(
    pattern: TypeName<'a>,
    parameters: List<GenericParameter<'a>>,
    environment: Environment<'a>,
) -> bool
    decreases pattern,
{
    match *pattern.kind {
        TypeNameKind::Function { parameters: types, return_type } => types_are_bound(
            types,
            parameters,
            environment,
        ) && type_is_bound(return_type, parameters, environment),
        TypeNameKind::Path(path) => match lone_name(path) {
            Some(name) => !declares_type(parameters, name@) || bound(
                environment.types,
                name@,
            ) is Some,
            None => true,
        },
        TypeNameKind::Generic { arguments, .. } => arguments_are_bound(
            arguments,
            parameters,
            environment,
        ),
        TypeNameKind::PackExpansion { pack, template } => match bound(
            environment.type_packs,
            pack.name@,
        ) {
            Some(types) => match (template, types) {
                (Some(template), List::Cons(first)) => type_is_bound(
                    template,
                    parameters,
                    environment.with_type(pack.name, first.head),
                ),
                _ => true,
            },
            None => false,
        },
        TypeNameKind::Tuple(elements) => types_are_bound(elements, parameters, environment),
        TypeNameKind::Array { element, length } => type_is_bound(element, parameters, environment)
            && const_is_bound(length, parameters, environment),
        TypeNameKind::Slice(element) => type_is_bound(element, parameters, environment),
        TypeNameKind::Reference { target, .. } => type_is_bound(target, parameters, environment),
        TypeNameKind::RawPointer { target, .. } => type_is_bound(target, parameters, environment),
        TypeNameKind::Unit => true,
    }
}

/// Whether every generic parameter in the written types is bound.
pub open spec fn types_are_bound<'a>(
    patterns: List<TypeName<'a>>,
    parameters: List<GenericParameter<'a>>,
    environment: Environment<'a>,
) -> bool
    decreases patterns,
{
    match patterns {
        List::Nil => true,
        List::Cons(node) => type_is_bound(node.head, parameters, environment) && types_are_bound(
            node.tail,
            parameters,
            environment,
        ),
    }
}

/// Whether every generic parameter in one argument is bound.
pub open spec fn argument_is_bound<'a>(
    argument: GenericArgument<'a>,
    parameters: List<GenericParameter<'a>>,
    environment: Environment<'a>,
) -> bool
    decreases argument,
{
    match argument {
        GenericArgument::Type(ty) => match *ty.kind {
            TypeNameKind::Path(path) if lone_name(path) is Some && declares_const(
                parameters,
                lone_name(path)->0@,
            ) => bound(environment.constants, lone_name(path)->0@) is Some,
            _ => type_is_bound(ty, parameters, environment),
        },
        GenericArgument::Const(value) => const_is_bound(value, parameters, environment),
        GenericArgument::Pack { pack, template, .. } => match bound(
            environment.type_packs,
            pack.name@,
        ) {
            Some(types) => match (template, types) {
                (Some(template), List::Cons(first)) => type_is_bound(
                    template,
                    parameters,
                    environment.with_type(pack.name, first.head),
                ),
                _ => true,
            },
            None => false,
        },
    }
}

/// Whether every generic parameter in the arguments is bound.
pub open spec fn arguments_are_bound<'a>(
    arguments: List<GenericArgument<'a>>,
    parameters: List<GenericParameter<'a>>,
    environment: Environment<'a>,
) -> bool
    decreases arguments,
{
    match arguments {
        List::Nil => true,
        List::Cons(node) => argument_is_bound(node.head, parameters, environment)
            && arguments_are_bound(node.tail, parameters, environment),
    }
}

/// Whether every generic parameter in a written type is bound.
pub fn type_pattern_is_bound<'a>(
    pattern: &TypeName<'a>,
    parameters: &List<GenericParameter<'a>>,
    environment: &Environment<'a>,
) -> (answer: bool)
    ensures
        answer == type_is_bound(*pattern, *parameters, *environment),
    decreases *pattern,
{
    match &*pattern.kind {
        TypeNameKind::Function { parameters: types, return_type } => type_patterns_are_bound(
            types,
            parameters,
            environment,
        ) && type_pattern_is_bound(return_type, parameters, environment),
        TypeNameKind::Path(path) => match single_path_name(path) {
            Some(name) => !generic_type_parameter(parameters, name) || find(
                &environment.types,
                name,
            ).is_some(),
            None => true,
        },
        TypeNameKind::Generic { arguments, .. } => argument_patterns_are_bound(
            arguments,
            parameters,
            environment,
        ),
        TypeNameKind::PackExpansion { pack, template } => match find(
            &environment.type_packs,
            pack.name,
        ) {
            Some(types) => match (template, types) {
                (Some(template), List::Cons(first)) => {
                    let inner = environment.and_type(pack.name, first.head);
                    type_pattern_is_bound(template, parameters, &inner)
                },
                _ => true,
            },
            None => false,
        },
        TypeNameKind::Tuple(elements) => type_patterns_are_bound(elements, parameters, environment),
        TypeNameKind::Array { element, length } => type_pattern_is_bound(
            element,
            parameters,
            environment,
        ) && const_pattern_is_bound(length, parameters, environment),
        TypeNameKind::Slice(element) => type_pattern_is_bound(element, parameters, environment),
        TypeNameKind::Reference { target, .. } => type_pattern_is_bound(
            target,
            parameters,
            environment,
        ),
        TypeNameKind::RawPointer { target, .. } => type_pattern_is_bound(
            target,
            parameters,
            environment,
        ),
        TypeNameKind::Unit => true,
    }
}

fn type_patterns_are_bound<'a>(
    patterns: &List<TypeName<'a>>,
    parameters: &List<GenericParameter<'a>>,
    environment: &Environment<'a>,
) -> (answer: bool)
    ensures
        answer == types_are_bound(*patterns, *parameters, *environment),
    decreases *patterns,
{
    let mut ahead: &List<TypeName<'a>> = patterns;
    loop
        invariant
            types_are_bound(*patterns, *parameters, *environment) == types_are_bound(
                *ahead,
                *parameters,
                *environment,
            ),
            *ahead == *patterns || decreases_to!(*patterns => *ahead),
        decreases *ahead,
    {
        match ahead {
            List::Nil => {
                return true;
            },
            List::Cons(node) => {
                if !type_pattern_is_bound(&node.head, parameters, environment) {
                    return false;
                }
                ahead = &node.tail;
            },
        }
    }
}

fn argument_patterns_are_bound<'a>(
    arguments: &List<GenericArgument<'a>>,
    parameters: &List<GenericParameter<'a>>,
    environment: &Environment<'a>,
) -> (answer: bool)
    ensures
        answer == arguments_are_bound(*arguments, *parameters, *environment),
    decreases *arguments,
{
    let mut ahead: &List<GenericArgument<'a>> = arguments;
    loop
        invariant
            arguments_are_bound(*arguments, *parameters, *environment) == arguments_are_bound(
                *ahead,
                *parameters,
                *environment,
            ),
            *ahead == *arguments || decreases_to!(*arguments => *ahead),
        decreases *ahead,
    {
        match ahead {
            List::Nil => {
                return true;
            },
            List::Cons(node) => {
                if !argument_pattern_is_bound(&node.head, parameters, environment) {
                    return false;
                }
                ahead = &node.tail;
            },
        }
    }
}

fn argument_pattern_is_bound<'a>(
    argument: &GenericArgument<'a>,
    parameters: &List<GenericParameter<'a>>,
    environment: &Environment<'a>,
) -> (answer: bool)
    ensures
        answer == argument_is_bound(*argument, *parameters, *environment),
    decreases *argument,
{
    match argument {
        GenericArgument::Type(ty) => {
            if let TypeNameKind::Path(path) = &*ty.kind {
                if let Some(name) = single_path_name(path) {
                    if generic_const_parameter(parameters, name) {
                        return find(&environment.constants, name).is_some();
                    }
                }
            }
            type_pattern_is_bound(ty, parameters, environment)
        },
        GenericArgument::Const(value) => const_pattern_is_bound(value, parameters, environment),
        GenericArgument::Pack { pack, template, .. } => match find(
            &environment.type_packs,
            pack.name,
        ) {
            Some(types) => match (template, types) {
                (Some(template), List::Cons(first)) => {
                    let inner = environment.and_type(pack.name, first.head);
                    type_pattern_is_bound(template, parameters, &inner)
                },
                _ => true,
            },
            None => false,
        },
    }
}

/// Whether a parameter may be left out of an argument list.
pub open spec fn has_default(parameter: GenericParameter) -> bool {
    match parameter {
        GenericParameter::Type { default, .. } => default is Some,
        GenericParameter::Const { default, .. } => default is Some,
        GenericParameter::TypePack { .. } => false,
    }
}

/// Whether a parameter may be left out of an argument list.
pub fn parameter_has_default(parameter: &GenericParameter) -> (answer: bool)
    ensures
        answer == has_default(*parameter),
{
    match parameter {
        GenericParameter::Type { default, .. } => default.is_some(),
        GenericParameter::Const { default, .. } => default.is_some(),
        GenericParameter::TypePack { .. } => false,
    }
}

/// The problems so far with those of a parameter list behind them: names that
/// repeat, packs that are not last, and required parameters behind optional
/// ones.
pub open spec fn parameter_problems<'a>(
    problems: Seq<Diagnostic<'a>>,
    parameters: List<GenericParameter<'a>>,
    seen: List<&'a str>,
    saw_default: bool,
) -> Seq<Diagnostic<'a>>
    decreases parameters,
{
    match parameters {
        List::Nil => problems,
        List::Cons(node) => {
            let parameter = node.head;
            let name = parameter.name();
            let problems = if listed(seen, name.name@) {
                problems.push(
                    error(
                        "E6005",
                        words3("generic parameter `", name.name, "` is declared more than once"),
                        name.span,
                    ),
                )
            } else {
                problems
            };
            let problems = if parameter is TypePack && !(node.tail is Nil) {
                problems.push(
                    helped(
                        "E6020",
                        words("a type pack must be the final generic parameter"),
                        "move `<...Types>` to the end of the generic parameter list",
                        parameter.span(),
                    ),
                )
            } else {
                problems
            };
            let problems = if saw_default && !has_default(parameter) {
                problems.push(
                    helped(
                        "E6005",
                        words("required generic parameters cannot follow a defaulted parameter"),
                        "move required parameters before parameters with defaults",
                        parameter.span(),
                    ),
                )
            } else {
                problems
            };
            parameter_problems(
                problems,
                node.tail,
                cons(name.name, seen),
                saw_default || has_default(parameter),
            )
        },
    }
}

fn check_parameters<'a>(
    parameters: &List<GenericParameter<'a>>,
    seen: List<&'a str>,
    saw_default: bool,
    problems: &mut Vec<Diagnostic<'a>>,
)
    ensures
        final(problems)@ == parameter_problems(old(problems)@, *parameters, seen, saw_default),
        kept(old(problems)@, final(problems)@),
{
    let mut ahead: &List<GenericParameter<'a>> = parameters;
    let mut current_seen: List<&'a str> = seen;
    let mut current_saw_default: bool = saw_default;
    loop
        invariant
            parameter_problems(
                old(problems)@,
                *parameters,
                seen,
                saw_default,
            ) == parameter_problems(
                problems@,
                *ahead,
                current_seen,
                current_saw_default,
            ),
            kept(old(problems)@, problems@),
        decreases *ahead,
    {
        match ahead {
            List::Nil => {
                return ;
            },
            List::Cons(node) => {
                let parameter = &node.head;
                let name = parameter.name();
                if is_listed(&current_seen, name.name) {
                    problems.push(
                        error(
                            "E6005",
                            words3(
                                "generic parameter `",
                                name.name,
                                "` is declared more than once",
                            ),
                            name.span,
                        ),
                    );
                }
                let is_pack = match parameter {
                    GenericParameter::TypePack { .. } => true,
                    _ => false,
                };
                if is_pack && !node.tail.is_empty() {
                    problems.push(
                        helped(
                            "E6020",
                            words("a type pack must be the final generic parameter"),
                            "move `<...Types>` to the end of the generic parameter list",
                            parameter.span(),
                        ),
                    );
                }
                let has_default = parameter_has_default(parameter);
                if current_saw_default && !has_default {
                    problems.push(
                        helped(
                            "E6005",
                            words("required generic parameters cannot follow a defaulted parameter"),
                            "move required parameters before parameters with defaults",
                            parameter.span(),
                        ),
                    );
                }
                let next_seen: List<&'a str> = cons(name.name, current_seen);
                let next_saw_default: bool = current_saw_default || has_default;
                current_seen = next_seen;
                current_saw_default = next_saw_default;
                ahead = &node.tail;
            },
        }
    }
}

/// Reports names that repeat in a parameter list, packs that are not last, and
/// required parameters behind optional ones.
pub fn validate_generic_parameter_names<'a>(
    parameters: &List<GenericParameter<'a>>,
    problems: &mut Vec<Diagnostic<'a>>,
)
    ensures
        final(problems)@ == parameter_problems(old(problems)@, *parameters, List::Nil, false),
        kept(old(problems)@, final(problems)@),
{
    check_parameters(parameters, List::Nil, false, problems);
}

} // verus!

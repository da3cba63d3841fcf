//! Values that are known when a program is compiled.

use crate::generics::Entry;
use crate::list::List;
use crate::span::{Diagnostic, Span};
use crate::text::{same, Text};
use vstd::prelude::*;

verus! {

/// A value that is known when a program is compiled.
#[allow(inconsistent_fields)]
pub enum Value<'a> {
    Integer { negative: bool, magnitude: u128 },
    /// The bits of the value, and the bits of the nearest single-precision
    /// value where that is finite.
    Float { bits: u64, single: Option<u32> },
    Boolean(bool),
    Character(char),
    String(Text<'a>),
    Unit,
    Tuple(List<Value<'a>>),
    Array(List<Value<'a>>),
    Record(List<Property<'a>>),
}

/// A named part of a record.
pub struct Property<'a> {
    pub name: &'a str,
    pub value: Value<'a>,
}

/// A value that has been computed, and where.
pub struct Evaluated<'a> {
    pub value: Value<'a>,
    pub span: Span,
}

/// What has been computed for the initializer of a static: its value, if there
/// is one, and the problems that were met.
pub struct Initializer<'a> {
    pub value: Option<Evaluated<'a>>,
    pub problems: List<Diagnostic<'a>>,
}

/// What has been computed for a program at compile time.
pub struct Evaluation<'a> {
    /// The constants that are known without looking at any type.
    pub preliminary: List<Entry<'a, Evaluated<'a>>>,
    pub constants: List<Entry<'a, Evaluated<'a>>>,
    pub problems: List<Diagnostic<'a>>,
    /// What has been computed for each static, in the order of the
    /// declarations.
    pub statics: List<Initializer<'a>>,
}

/// What a value is, in words.
pub open spec fn spec_compiletime_value_kind<'a>(value: Value<'a>) -> &'static str {
    match value {
        Value::Integer { .. } => "an integer",
        Value::Float { .. } => "a floating-point value",
        Value::Boolean(_) => "a boolean",
        Value::Character(_) => "a character",
        Value::String(_) => "a string",
        Value::Unit => "the unit value",
        Value::Tuple(_) => "a tuple",
        Value::Array(_) => "an array",
        Value::Record(_) => "a record",
    }
}

/// What a value is, in words.
pub fn compiletime_value_kind<'a>(value: &Value<'a>) -> (kind: &'static str)
    ensures
        kind == spec_compiletime_value_kind(*value),
{
    match value {
        Value::Integer { .. } => "an integer",
        Value::Float { .. } => "a floating-point value",
        Value::Boolean(_) => "a boolean",
        Value::Character(_) => "a character",
        Value::String(_) => "a string",
        Value::Unit => "the unit value",
        Value::Tuple(_) => "a tuple",
        Value::Array(_) => "an array",
        Value::Record(_) => "a record",
    }
}

/// Whether a record has a part of that name.
pub open spec fn spec_has_property<'a>(properties: List<Property<'a>>, name: &str) -> bool
    decreases properties,
{
    match properties {
        List::Nil => false,
        List::Cons(node) => node.head.name@ == name@ || spec_has_property(node.tail, name),
    }
}

/// Whether a record has a part of that name.
pub fn has_property<'a>(properties: &List<Property<'a>>, name: &str) -> (answer: bool)
    ensures
        answer == spec_has_property(*properties, name),
{
    let mut ahead: &List<Property<'a>> = properties;
    loop
        invariant
            spec_has_property(*properties, name) == spec_has_property(*ahead, name),
        decreases *ahead,
    {
        match ahead {
            List::Nil => {
                return false;
            },
            List::Cons(node) => {
                if same(node.head.name, name) {
                    return true;
                }
                ahead = &node.tail;
            },
        }
    }
}

} // verus!

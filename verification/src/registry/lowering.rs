//! From values known at compile time to typed expressions.

use crate::comptime::{
    compiletime_value_kind, has_property, spec_compiletime_value_kind, spec_has_property,
    Property, Value,
};
use crate::hir::{
    typed, Expression, ExpressionKind, TypeDefinitionKind, TypeField, UnaryOperator,
};
use crate::list::{append, cons, prepend, prepended, prepended_if_any, List};
use crate::numbers::{integer_minimum_magnitude, integer_positive_maximum};
use crate::registry::naming::nested_too_deeply;
use crate::registry::{TypeRegistry, Types, LIMIT};
use crate::span::{helped, Diagnostic, Span};
use crate::text::{has_nul, holds_nul, joined, same, words2, Piece};
use crate::types::Type;
use crate::typing::{
    all_always_sound, all_always_sound_if_any, all_fit, always_sound_if_any, front_fits,
    pushed_front_fits,
};
use vstd::prelude::*;

verus! {

broadcast use {
    crate::list::pushed_comes_first,
    crate::registry::growth::group_grown,
    crate::span::group_kept,
    crate::typing::group_sound,
};

/// The problem of a constant whose value does not have its declared type.
pub open spec fn spec_compiletime_type_mismatch<'a>(
    expected: Type,
    actual: &'a str,
    span: Span,
) -> Diagnostic<'a> {
    helped(
        "E7011",
        cons(
            Piece::Words("constant declared as `"),
            append(expected.text(), words2("` produced ", actual)),
        ),
        "change the declared type or return a compatible compile-time value",
        span,
    )
}

pub(crate) fn compiletime_type_mismatch<'a>(
    expected: Type,
    actual: &'a str,
    span: Span,
) -> (problem: Diagnostic<'a>)
    ensures
        problem == spec_compiletime_type_mismatch(expected, actual, span),
{
    helped(
        "E7011",
        cons(
            Piece::Words("constant declared as `"),
            joined(&expected.text(), words2("` produced ", actual)),
        ),
        "change the declared type or return a compatible compile-time value",
        span,
    )
}

/// Whether a record has a part for every field.
pub open spec fn spec_covers_fields<'a>(
    properties: List<Property<'a>>,
    fields: List<TypeField<'a>>,
) -> bool
    decreases fields,
{
    match fields {
        List::Nil => true,
        List::Cons(node) => spec_has_property(properties, node.head.name)
            && spec_covers_fields(properties, node.tail),
    }
}

pub(crate) fn covers_fields<'a>(
    properties: &List<Property<'a>>,
    fields: &List<TypeField<'a>>,
) -> (answer: bool)
    ensures
        answer == spec_covers_fields(*properties, *fields),
{
    let mut ahead: &List<TypeField<'a>> = fields;
    loop
        invariant
            spec_covers_fields(*properties, *fields) == spec_covers_fields(*properties, *ahead),
        decreases *ahead,
    {
        match ahead {
            List::Nil => {
                return true;
            },
            List::Cons(node) => {
                if !has_property(properties, node.head.name) {
                    return false;
                }
                ahead = &node.tail;
            },
        }
    }
}

impl<'a> Types<'a> {
    /// The typed expression for a value of a declared type.
    #[verifier::opaque]
    pub open spec fn lower_compiletime_value(
        self,
        value: Value<'a>,
        ty: Type,
        span: Span,
    ) -> (Self, Option<Expression<'a>>) {
        self.lower_within(value, ty, span, LIMIT as nat)
    }

    /// The typed expression for a value, followed into it no deeper than `fuel`.
    pub open spec fn lower_within(
        self,
        value: Value<'a>,
        ty: Type,
        span: Span,
        fuel: nat,
    ) -> (Self, Option<Expression<'a>>)
        decreases fuel, 0nat, List::<Type>::Nil,
    {
        if fuel == 0 {
            let s = self.report(nested_too_deeply(span));
            (s, None)
        } else {
            self.lower_form(value, ty, span, (fuel - 1) as nat)
        }
    }

    /// The typed expression for a value, by its form.
    pub open spec fn lower_form(
        self,
        value: Value<'a>,
        ty: Type,
        span: Span,
        fuel: nat,
    ) -> (Self, Option<Expression<'a>>)
        decreases fuel, 4nat, List::<Type>::Nil,
    {
        match value {
            Value::Integer { negative, magnitude } => if ty.is_integer() {
                self.lower_compiletime_integer(negative, magnitude, ty, span)
            } else {
                self.reject_compiletime_value(value, ty, span)
            },
            Value::Float { bits, single } => match ty {
                Type::F64 => (self, Some(typed(ExpressionKind::Float64(bits), ty, span))),
                Type::F32 => match single {
                    Some(single) => (self, Some(typed(ExpressionKind::Float32(single), ty, span))),
                    None => {
                        let s = self.report(
                            spec_compiletime_type_mismatch(
                                ty,
                                "a floating-point value outside the `f32` range",
                                span,
                            ),
                        );
                        (s, None)
                    },
                },
                _ => self.reject_compiletime_value(value, ty, span),
            },
            Value::Boolean(value_known) => match ty {
                Type::Bool => (self, Some(typed(ExpressionKind::Boolean(value_known), ty, span))),
                _ => self.reject_compiletime_value(value, ty, span),
            },
            Value::Character(character) => match ty {
                Type::Char => (self, Some(typed(ExpressionKind::Character(character), ty, span))),
                _ => self.reject_compiletime_value(value, ty, span),
            },
            Value::String(text) => match ty {
                Type::Str => (self, Some(typed(ExpressionKind::String(text), ty, span))),
                Type::CStr => if holds_nul(text) {
                    self.reject_compiletime_value(value, ty, span)
                } else {
                    (self, Some(typed(ExpressionKind::CString(text), ty, span)))
                },
                _ => self.reject_compiletime_value(value, ty, span),
            },
            Value::Unit => match ty {
                Type::Unit => (self, Some(typed(ExpressionKind::Unit, ty, span))),
                _ => self.reject_compiletime_value(value, ty, span),
            },
            Value::Tuple(values) => match ty {
                Type::Tuple(_) => self.lower_compiletime_tuple(values, ty, span, fuel),
                _ => self.reject_compiletime_value(value, ty, span),
            },
            Value::Array(values) => match ty {
                Type::Array(_) => self.lower_compiletime_array(values, ty, span, fuel),
                _ => self.reject_compiletime_value(value, ty, span),
            },
            Value::Record(properties) => match ty {
                Type::Struct(_) => self.lower_compiletime_record(properties, ty, span, fuel),
                _ => self.reject_compiletime_value(value, ty, span),
            },
        }
    }

    /// The refusal of a value that does not have its declared type.
    #[verifier::opaque]
    pub open spec fn reject_compiletime_value(
        self,
        value: Value<'a>,
        ty: Type,
        span: Span,
    ) -> (Self, Option<Expression<'a>>) {
        let s = self.report(
            spec_compiletime_type_mismatch(ty, spec_compiletime_value_kind(value), span),
        );
        (s, None)
    }

    /// The typed expression for an integer of a declared type. The smallest value
    /// of a signed type is written without a sign.
    #[verifier::opaque]
    pub open spec fn lower_compiletime_integer(
        self,
        negative: bool,
        magnitude: u128,
        ty: Type,
        span: Span,
    ) -> (Self, Option<Expression<'a>>) {
        if negative && !ty.is_signed_integer() {
            let s = self.report(spec_compiletime_type_mismatch(ty, "a negative integer", span));
            (s, None)
        } else {
            let maximum: u128 = if negative {
                integer_minimum_magnitude(ty)
            } else {
                integer_positive_maximum(ty)
            };
            if magnitude > maximum {
                let s = self.report(
                    spec_compiletime_type_mismatch(ty, "an out-of-range integer", span),
                );
                (s, None)
            } else {
                let literal = typed(ExpressionKind::Integer(magnitude), ty, span);
                (
                    self,
                    if !negative || magnitude == integer_minimum_magnitude(ty) {
                        Some(literal)
                    } else {
                        Some(
                            typed(
                                ExpressionKind::Unary {
                                    operator: UnaryOperator::Negate,
                                    operand: literal,
                                },
                                ty,
                                span,
                            ),
                        )
                    },
                )
            }
        }
    }

    /// The typed expression for a tuple of a declared type.
    pub open spec fn lower_compiletime_tuple(
        self,
        values: List<Value<'a>>,
        ty: Type,
        span: Span,
        fuel: nat,
    ) -> (Self, Option<Expression<'a>>)
        decreases fuel, 2nat, List::<Type>::Nil,
    {
        match self.tuple_shape(ty) {
            None => (self, None),
            Some(elements) => if values.count() != elements.count() {
                let s = self.report(
                    spec_compiletime_type_mismatch(ty, "a tuple with a different arity", span),
                );
                (s, None)
            } else {
                match self.lower_pairs(values, elements, span, fuel) {
                    (s, None) => (s, None),
                    (s, Some(lowered)) => (
                        s,
                        Some(typed(ExpressionKind::Tuple(lowered), ty, span)),
                    ),
                }
            },
        }
    }

    /// The typed expressions for values with their types.
    pub open spec fn lower_pairs(
        self,
        values: List<Value<'a>>,
        elements: List<Type>,
        span: Span,
        fuel: nat,
    ) -> (Self, Option<List<Expression<'a>>>)
        decreases fuel, 1nat, values,
    {
        match values {
            List::Nil => (self, Some(List::Nil)),
            List::Cons(value) => match elements {
                List::Nil => (self, Some(List::Nil)),
                List::Cons(element) => match self.lower_within(
                    value.head,
                    element.head,
                    span,
                    fuel,
                ) {
                    (s, None) => (s, None),
                    (s, Some(first)) => match s.lower_pairs(value.tail, element.tail, span, fuel) {
                        (s, None) => (s, None),
                        (s, Some(rest)) => (s, Some(cons(first, rest))),
                    },
                },
            },
        }
    }

    /// The typed expression for an array of a declared type.
    pub open spec fn lower_compiletime_array(
        self,
        values: List<Value<'a>>,
        ty: Type,
        span: Span,
        fuel: nat,
    ) -> (Self, Option<Expression<'a>>)
        decreases fuel, 2nat, List::<Type>::Nil,
    {
        match self.array_shape(ty) {
            None => (self, None),
            Some((element, length)) => if values.count() != length {
                let s = self.report(
                    spec_compiletime_type_mismatch(ty, "an array with a different length", span),
                );
                (s, None)
            } else {
                match self.lower_elements(values, element, span, fuel) {
                    (s, None) => (s, None),
                    (s, Some(lowered)) => (
                        s,
                        Some(typed(ExpressionKind::Array(lowered), ty, span)),
                    ),
                }
            },
        }
    }

    /// The typed expressions for values of one type.
    pub open spec fn lower_elements(
        self,
        values: List<Value<'a>>,
        element: Type,
        span: Span,
        fuel: nat,
    ) -> (Self, Option<List<Expression<'a>>>)
        decreases fuel, 1nat, values,
    {
        match values {
            List::Nil => (self, Some(List::Nil)),
            List::Cons(value) => match self.lower_within(value.head, element, span, fuel) {
                (s, None) => (s, None),
                (s, Some(first)) => match s.lower_elements(value.tail, element, span, fuel) {
                    (s, None) => (s, None),
                    (s, Some(rest)) => (s, Some(cons(first, rest))),
                },
            },
        }
    }

    /// The typed expression for a record of a declared type.
    pub open spec fn lower_compiletime_record(
        self,
        properties: List<Property<'a>>,
        ty: Type,
        span: Span,
        fuel: nat,
    ) -> (Self, Option<Expression<'a>>)
        decreases fuel, 3nat, List::<Type>::Nil,
    {
        match self.shape(ty) {
            Some(TypeDefinitionKind::Struct { fields }) => if properties.count() != fields.count()
                || !spec_covers_fields(properties, fields) {
                let s = self.report(
                    spec_compiletime_type_mismatch(ty, "a record with different fields", span),
                );
                (s, None)
            } else {
                match self.lower_fields(properties, fields, span, fuel) {
                    (s, None) => (s, None),
                    (s, Some(lowered)) => (
                        s,
                        Some(typed(ExpressionKind::Struct(lowered), ty, span)),
                    ),
                }
            },
            _ => (self, None),
        }
    }

    /// The typed expressions for the parts of a record, in the order of the
    /// fields.
    pub open spec fn lower_fields(
        self,
        properties: List<Property<'a>>,
        fields: List<TypeField<'a>>,
        span: Span,
        fuel: nat,
    ) -> (Self, Option<List<Expression<'a>>>)
        decreases fuel, 2nat, fields,
    {
        match fields {
            List::Nil => (self, Some(List::Nil)),
            List::Cons(node) => match self.lower_property(
                properties,
                node.head.name,
                node.head.ty,
                span,
                fuel,
            ) {
                (s, None) => (s, None),
                (s, Some(first)) => match s.lower_fields(properties, node.tail, span, fuel) {
                    (s, None) => (s, None),
                    (s, Some(rest)) => (s, Some(cons(first, rest))),
                },
            },
        }
    }

    /// The typed expression for the named part of a record.
    pub open spec fn lower_property(
        self,
        properties: List<Property<'a>>,
        name: &'a str,
        ty: Type,
        span: Span,
        fuel: nat,
    ) -> (Self, Option<Expression<'a>>)
        decreases fuel, 1nat, properties,
    {
        match properties {
            List::Nil => (self, None),
            List::Cons(node) => if node.head.name@ == name@ {
                self.lower_within(node.head.value, ty, span, fuel)
            } else {
                self.lower_property(node.tail, name, ty, span, fuel)
            },
        }
    }
}

impl<'a> TypeRegistry<'a> {
    /// The typed expression for a value of a declared type.
    pub fn lower_compiletime_value(
        &mut self,
        value: &Value<'a>,
        ty: Type,
        span: Span,
    ) -> (lowered: Option<Expression<'a>>)
        ensures
            (final(self)@, lowered) == old(self)@.lower_compiletime_value(*value, ty, span),
            old(self)@.grows_into(final(self)@),
            always_sound_if_any(lowered),
            lowered is Some ==> lowered->0.ty == ty,
    {
        reveal(Types::lower_compiletime_value);
        self.lower_within(value, ty, span, LIMIT)
    }

    pub(crate) fn lower_within(
        &mut self,
        value: &Value<'a>,
        ty: Type,
        span: Span,
        fuel: u32,
    ) -> (lowered: Option<Expression<'a>>)
        ensures
            (final(self)@, lowered) == old(self)@.lower_within(*value, ty, span, fuel as nat),
            old(self)@.grows_into(final(self)@),
            always_sound_if_any(lowered),
            lowered is Some ==> lowered->0.ty == ty,
        decreases fuel, 0nat, List::<Type>::Nil,
    {
        if fuel == 0 {
            self.report(nested_too_deeply(span));
            return None;
        }
        self.lower_form(value, ty, span, fuel - 1)
    }

    pub(crate) fn lower_form(
        &mut self,
        value: &Value<'a>,
        ty: Type,
        span: Span,
        fuel: u32,
    ) -> (lowered: Option<Expression<'a>>)
        ensures
            (final(self)@, lowered) == old(self)@.lower_form(*value, ty, span, fuel as nat),
            old(self)@.grows_into(final(self)@),
            always_sound_if_any(lowered),
            lowered is Some ==> lowered->0.ty == ty,
        decreases fuel, 4nat, List::<Type>::Nil,
    {
        match value {
            Value::Integer { negative, magnitude } => if ty.is_integer() {
                self.lower_compiletime_integer(*negative, *magnitude, ty, span)
            } else {
                self.reject_compiletime_value(value, ty, span)
            },
            Value::Float { bits, single } => match ty {
                Type::F64 => Some(typed(ExpressionKind::Float64(*bits), ty, span)),
                Type::F32 => match single {
                    Some(single) => Some(typed(ExpressionKind::Float32(*single), ty, span)),
                    None => {
                        self.report(
                            compiletime_type_mismatch(
                                ty,
                                "a floating-point value outside the `f32` range",
                                span,
                            ),
                        );
                        None
                    },
                },
                _ => self.reject_compiletime_value(value, ty, span),
            },
            Value::Boolean(value_known) => match ty {
                Type::Bool => Some(typed(ExpressionKind::Boolean(*value_known), ty, span)),
                _ => self.reject_compiletime_value(value, ty, span),
            },
            Value::Character(character) => match ty {
                Type::Char => Some(typed(ExpressionKind::Character(*character), ty, span)),
                _ => self.reject_compiletime_value(value, ty, span),
            },
            Value::String(text) => match ty {
                Type::Str => Some(typed(ExpressionKind::String(text.share()), ty, span)),
                Type::CStr => if has_nul(text) {
                    self.reject_compiletime_value(value, ty, span)
                } else {
                    Some(typed(ExpressionKind::CString(text.share()), ty, span))
                },
                _ => self.reject_compiletime_value(value, ty, span),
            },
            Value::Unit => match ty {
                Type::Unit => Some(typed(ExpressionKind::Unit, ty, span)),
                _ => self.reject_compiletime_value(value, ty, span),
            },
            Value::Tuple(values) => match ty {
                Type::Tuple(_) => self.lower_compiletime_tuple(values, ty, span, fuel),
                _ => self.reject_compiletime_value(value, ty, span),
            },
            Value::Array(values) => match ty {
                Type::Array(_) => self.lower_compiletime_array(values, ty, span, fuel),
                _ => self.reject_compiletime_value(value, ty, span),
            },
            Value::Record(properties) => match ty {
                Type::Struct(_) => self.lower_compiletime_record(properties, ty, span, fuel),
                _ => self.reject_compiletime_value(value, ty, span),
            },
        }
    }

    pub(crate) fn reject_compiletime_value(
        &mut self,
        value: &Value<'a>,
        ty: Type,
        span: Span,
    ) -> (lowered: Option<Expression<'a>>)
        ensures
            (final(self)@, lowered) == old(self)@.reject_compiletime_value(*value, ty, span),
            old(self)@.grows_into(final(self)@),
            always_sound_if_any(lowered),
            lowered is Some ==> lowered->0.ty == ty,
    {
        reveal(Types::reject_compiletime_value);
        self.report(compiletime_type_mismatch(ty, compiletime_value_kind(value), span));
        None
    }

    pub(crate) fn lower_compiletime_integer(
        &mut self,
        negative: bool,
        magnitude: u128,
        ty: Type,
        span: Span,
    ) -> (lowered: Option<Expression<'a>>)
        requires
            ty.is_integer(),
        ensures
            (final(self)@, lowered) == old(self)@.lower_compiletime_integer(
                negative,
                magnitude,
                ty,
                span,
            ),
            old(self)@.grows_into(final(self)@),
            always_sound_if_any(lowered),
            lowered is Some ==> lowered->0.ty == ty,
    {
        reveal(Types::lower_compiletime_integer);
        if negative && !ty.is_signed_integer() {
            self.report(compiletime_type_mismatch(ty, "a negative integer", span));
            return None;
        }
        let maximum: u128 = if negative {
            integer_minimum_magnitude(ty)
        } else {
            integer_positive_maximum(ty)
        };
        if magnitude > maximum {
            self.report(compiletime_type_mismatch(ty, "an out-of-range integer", span));
            return None;
        }
        let literal = typed(ExpressionKind::Integer(magnitude), ty, span);
        if !negative || magnitude == integer_minimum_magnitude(ty) {
            Some(literal)
        } else {
            Some(
                typed(
                    ExpressionKind::Unary { operator: UnaryOperator::Negate, operand: literal },
                    ty,
                    span,
                ),
            )
        }
    }

    pub(crate) fn lower_compiletime_tuple(
        &mut self,
        values: &List<Value<'a>>,
        ty: Type,
        span: Span,
        fuel: u32,
    ) -> (lowered: Option<Expression<'a>>)
        ensures
            (final(self)@, lowered) == old(self)@.lower_compiletime_tuple(
                *values,
                ty,
                span,
                fuel as nat,
            ),
            old(self)@.grows_into(final(self)@),
            always_sound_if_any(lowered),
            lowered is Some ==> lowered->0.ty == ty,
        decreases fuel, 2nat, List::<Type>::Nil,
    {
        match self.tuple_shape(ty) {
            None => None,
            Some(elements) => if values.count() != elements.count() {
                self.report(compiletime_type_mismatch(ty, "a tuple with a different arity", span));
                None
            } else {
                match self.lower_pairs(values, &elements, span, fuel) {
                    None => None,
                    Some(lowered) => Some(typed(ExpressionKind::Tuple(lowered), ty, span)),
                }
            },
        }
    }

    pub(crate) fn lower_pairs(
        &mut self,
        values: &List<Value<'a>>,
        elements: &List<Type>,
        span: Span,
        fuel: u32,
    ) -> (lowered: Option<List<Expression<'a>>>)
        ensures
            (final(self)@, lowered) == old(self)@.lower_pairs(
                *values,
                *elements,
                span,
                fuel as nat,
            ),
            old(self)@.grows_into(final(self)@),
            all_always_sound_if_any(lowered),
        decreases fuel, 1nat, *values,
    {
        let mut ahead: &List<Value<'a>> = values;
        let mut current_elements: &List<Type> = elements;
        let mut done: Vec<Expression<'a>> = Vec::new();
        loop
            invariant
                old(self)@.lower_pairs(
                                *values,
                                *elements,
                                span,
                                fuel as nat,
                            ) == {
                    let (state, rest) = self@.lower_pairs(
                                *ahead,
                                *current_elements,
                                span,
                                fuel as nat,
                            );
                    (state, prepended_if_any(done@, rest))
                },
                old(self)@.grows_into(self@),
                all_always_sound(prepended(done@, List::Nil)),
            decreases *ahead,
        {
            match ahead {
                List::Nil => {
                    return Some(prepend(done, List::Nil));
                },
                List::Cons(value) => {
                    match current_elements {
                        List::Nil => {
                            return Some(prepend(done, List::Nil));
                        },
                        List::Cons(element) => {
                            match self.lower_within(
                                &value.head,
                                element.head,
                                span,
                                fuel,
                            ) {
                                None => {
                                    return None;
                                },
                                Some(first) => {
                                    done.push(first);
                                    current_elements = &element.tail;
                                    ahead = &value.tail;
                                },
                            }
                        },
                    }
                },
            }
        }
    }

    pub(crate) fn lower_compiletime_array(
        &mut self,
        values: &List<Value<'a>>,
        ty: Type,
        span: Span,
        fuel: u32,
    ) -> (lowered: Option<Expression<'a>>)
        ensures
            (final(self)@, lowered) == old(self)@.lower_compiletime_array(
                *values,
                ty,
                span,
                fuel as nat,
            ),
            old(self)@.grows_into(final(self)@),
            always_sound_if_any(lowered),
            lowered is Some ==> lowered->0.ty == ty,
        decreases fuel, 2nat, List::<Type>::Nil,
    {
        match self.array_shape(ty) {
            None => None,
            Some((element, length)) => if values.count() != length {
                self.report(
                    compiletime_type_mismatch(ty, "an array with a different length", span),
                );
                None
            } else {
                match self.lower_elements(values, element, span, fuel) {
                    None => None,
                    Some(lowered) => Some(typed(ExpressionKind::Array(lowered), ty, span)),
                }
            },
        }
    }

    pub(crate) fn lower_elements(
        &mut self,
        values: &List<Value<'a>>,
        element: Type,
        span: Span,
        fuel: u32,
    ) -> (lowered: Option<List<Expression<'a>>>)
        ensures
            (final(self)@, lowered) == old(self)@.lower_elements(
                *values,
                element,
                span,
                fuel as nat,
            ),
            old(self)@.grows_into(final(self)@),
            all_always_sound_if_any(lowered),
            lowered is Some ==> all_fit(lowered->0, element),
        decreases fuel, 1nat, *values,
    {
        let mut ahead: &List<Value<'a>> = values;
        let mut done: Vec<Expression<'a>> = Vec::new();
        loop
            invariant
                front_fits(done@, element),
                old(self)@.lower_elements(
                                *values,
                                element,
                                span,
                                fuel as nat,
                            ) == {
                    let (state, rest) = self@.lower_elements(
                                *ahead,
                                element,
                                span,
                                fuel as nat,
                            );
                    (state, prepended_if_any(done@, rest))
                },
                old(self)@.grows_into(self@),
                all_always_sound(prepended(done@, List::Nil)),
            decreases *ahead,
        {
            match ahead {
                List::Nil => {
                    assert(all_fit(List::<Expression<'a>>::Nil, element)) by {
                        reveal(all_fit);
                    }
                    return Some(prepend(done, List::Nil));
                },
                List::Cons(value) => {
                    match self.lower_within(&value.head, element, span, fuel) {
                        None => {
                            return None;
                        },
                        Some(first) => {
                            proof {
                                pushed_front_fits(done@, first, element);
                            }
                            done.push(first);
                            ahead = &value.tail;
                        },
                    }
                },
            }
        }
    }

    pub(crate) fn lower_compiletime_record(
        &mut self,
        properties: &List<Property<'a>>,
        ty: Type,
        span: Span,
        fuel: u32,
    ) -> (lowered: Option<Expression<'a>>)
        ensures
            (final(self)@, lowered) == old(self)@.lower_compiletime_record(
                *properties,
                ty,
                span,
                fuel as nat,
            ),
            old(self)@.grows_into(final(self)@),
            always_sound_if_any(lowered),
            lowered is Some ==> lowered->0.ty == ty,
        decreases fuel, 3nat, List::<Type>::Nil,
    {
        match self.shape(ty) {
            Some(TypeDefinitionKind::Struct { fields }) => if properties.count() != fields.count()
                || !covers_fields(properties, &fields) {
                self.report(compiletime_type_mismatch(ty, "a record with different fields", span));
                None
            } else {
                match self.lower_fields(properties, &fields, span, fuel) {
                    None => None,
                    Some(lowered) => Some(typed(ExpressionKind::Struct(lowered), ty, span)),
                }
            },
            _ => None,
        }
    }

    pub(crate) fn lower_fields(
        &mut self,
        properties: &List<Property<'a>>,
        fields: &List<TypeField<'a>>,
        span: Span,
        fuel: u32,
    ) -> (lowered: Option<List<Expression<'a>>>)
        ensures
            (final(self)@, lowered) == old(self)@.lower_fields(
                *properties,
                *fields,
                span,
                fuel as nat,
            ),
            old(self)@.grows_into(final(self)@),
            all_always_sound_if_any(lowered),
        decreases fuel, 2nat, *fields,
    {
        let mut ahead: &List<TypeField<'a>> = fields;
        let mut done: Vec<Expression<'a>> = Vec::new();
        loop
            invariant
                old(self)@.lower_fields(
                                *properties,
                                *fields,
                                span,
                                fuel as nat,
                            ) == {
                    let (state, rest) = self@.lower_fields(
                                *properties,
                                *ahead,
                                span,
                                fuel as nat,
                            );
                    (state, prepended_if_any(done@, rest))
                },
                old(self)@.grows_into(self@),
                all_always_sound(prepended(done@, List::Nil)),
            decreases *ahead,
        {
            match ahead {
                List::Nil => {
                    return Some(prepend(done, List::Nil));
                },
                List::Cons(node) => {
                    match self.lower_property(
                        properties,
                        node.head.name,
                        node.head.ty,
                        span,
                        fuel,
                    ) {
                        None => {
                            return None;
                        },
                        Some(first) => {
                            done.push(first);
                            ahead = &node.tail;
                        },
                    }
                },
            }
        }
    }

    pub(crate) fn lower_property(
        &mut self,
        properties: &List<Property<'a>>,
        name: &'a str,
        ty: Type,
        span: Span,
        fuel: u32,
    ) -> (lowered: Option<Expression<'a>>)
        ensures
            (final(self)@, lowered) == old(self)@.lower_property(
                *properties,
                name,
                ty,
                span,
                fuel as nat,
            ),
            old(self)@.grows_into(final(self)@),
            always_sound_if_any(lowered),
            lowered is Some ==> lowered->0.ty == ty,
        decreases fuel, 1nat, *properties,
    {
        let mut ahead: &List<Property<'a>> = properties;
        loop
            invariant
                old(self)@.lower_property(*properties, name, ty, span, fuel as nat)
                    == self@.lower_property(*ahead, name, ty, span, fuel as nat),
                old(self)@.grows_into(self@),
            decreases *ahead,
        {
            match ahead {
                List::Nil => {
                    return None;
                },
                List::Cons(node) => {
                    if same(node.head.name, name) {
                        return self.lower_within(&node.head.value, ty, span, fuel);
                    }
                    ahead = &node.tail;
                },
            }
        }
    }
}

} // verus!

//! Patterns, and whether they cover every value.

use crate::analyzer::sparing::{watched, Watch};
use crate::mention::{pattern_fields_mention, pattern_mentions, patterns_mention};
use crate::analyzer::{Analyzer, Binding, State};
use crate::analyzer::checks::{has_field, is_enum_type, spec_has_field, spec_is_enum_type};
use crate::ast::{self, path_pair, two_names, FloatPattern, Identifier, Path, PatternField};
use crate::hir::{
    all_irrefutable, irrefutable, pattern_is_irrefutable, patterns_are_irrefutable, EnumVariant,
    EnumVariantFields, LocalId, MatchArm, Pattern, PatternKind, TypeField,
};
use crate::list::{append, cons, prepend, prepended, List};
use crate::numbers::{integer_minimum_magnitude, integer_positive_maximum};
use crate::registry::LIMIT;
use crate::rendering::{
    pattern_form_renders, pattern_renders, pattern_renders_by_form, patterns_render, stands_for,
    written_number,
};
use crate::span::{error, helped, Span};
use crate::text::{
    characters, frame, framed, is_listed, joined, listed, number, reads, same, words, words3,
    Piece, Text,
};
use crate::types::Type;
use vstd::prelude::*;

verus! {

broadcast use {
    crate::analyzer::growth::group_led,
    crate::analyzer::numbering::group_numbered,
    crate::analyzer::sparing::group_spared,
    crate::list::pushed_comes_first,
    crate::registry::growth::group_grown,
    crate::rendering::group_rendered,
    crate::span::group_kept,
};

/// Whether an arm without a guard matches every value.
#[verifier::opaque]
pub open spec fn spec_any_irrefutable<'a>(arms: List<MatchArm<'a>>) -> bool
    decreases arms,
{
    match arms {
        List::Nil => false,
        List::Cons(node) => (node.head.guard.is_none() && irrefutable(node.head.pattern))
            || spec_any_irrefutable(node.tail),
    }
}

/// Whether an arm without a guard matches every value.
pub(crate) fn any_irrefutable<'a>(arms: &List<MatchArm<'a>>) -> (answer: bool)
    ensures
        answer == spec_any_irrefutable(*arms),
{
    let mut ahead: &List<MatchArm<'a>> = arms;
    loop
        invariant
            spec_any_irrefutable(*arms) == spec_any_irrefutable(*ahead),
        decreases *ahead,
    {
        reveal(spec_any_irrefutable);
        match ahead {
            List::Nil => {
                return false;
            },
            List::Cons(node) => {
                if node.head.guard.is_none() && pattern_is_irrefutable(&node.head.pattern) {
                    return true;
                }
                ahead = &node.tail;
            },
        }
    }
}

/// Whether an arm without a guard matches a truth value.
#[verifier::opaque]
pub open spec fn spec_covers_boolean<'a>(arms: List<MatchArm<'a>>, value: bool) -> bool
    decreases arms,
{
    match arms {
        List::Nil => false,
        List::Cons(node) => (
            node.head.guard.is_none()
                && (match node.head.pattern.kind {
                    PatternKind::Boolean(matched) => matched == value,
                    _ => false,
                })
        ) || spec_covers_boolean(node.tail, value),
    }
}

/// Whether an arm without a guard matches a truth value.
pub(crate) fn covers_boolean<'a>(arms: &List<MatchArm<'a>>, value: bool) -> (answer: bool)
    ensures
        answer == spec_covers_boolean(*arms, value),
{
    let mut ahead: &List<MatchArm<'a>> = arms;
    loop
        invariant
            spec_covers_boolean(*arms, value) == spec_covers_boolean(*ahead, value),
        decreases *ahead,
    {
        reveal(spec_covers_boolean);
        match ahead {
            List::Nil => {
                return false;
            },
            List::Cons(node) => {
                if node.head.guard.is_none()
                && (match &node.head.pattern.kind {
                    PatternKind::Boolean(matched) => *matched == value,
                    _ => false,
                }) {
                    return true;
                }
                ahead = &node.tail;
            },
        }
    }
}

/// Whether an arm without a guard matches every value of a variant.
#[verifier::opaque]
pub open spec fn spec_covers_variant<'a>(arms: List<MatchArm<'a>>, position: u32) -> bool
    decreases arms,
{
    match arms {
        List::Nil => false,
        List::Cons(node) => (
            node.head.guard.is_none()
                && (match node.head.pattern.kind {
                    PatternKind::Enum { variant, fields } => variant == position
                        && all_irrefutable(fields),
                    _ => false,
                })
        ) || spec_covers_variant(node.tail, position),
    }
}

/// Whether an arm without a guard matches every value of a variant.
pub(crate) fn covers_variant<'a>(arms: &List<MatchArm<'a>>, position: u32) -> (answer: bool)
    ensures
        answer == spec_covers_variant(*arms, position),
{
    let mut ahead: &List<MatchArm<'a>> = arms;
    loop
        invariant
            spec_covers_variant(*arms, position) == spec_covers_variant(*ahead, position),
        decreases *ahead,
    {
        reveal(spec_covers_variant);
        match ahead {
            List::Nil => {
                return false;
            },
            List::Cons(node) => {
                if node.head.guard.is_none()
                && (match &node.head.pattern.kind {
                    PatternKind::Enum { variant, fields } => *variant == position
                        && patterns_are_irrefutable(fields),
                    _ => false,
                }) {
                    return true;
                }
                ahead = &node.tail;
            },
        }
    }
}

/// Whether the arms match every value of all the variants.
#[verifier::opaque]
pub open spec fn spec_covers_variants<'a>(
    arms: List<MatchArm<'a>>,
    variants: List<EnumVariant<'a>>,
    position: u32,
) -> bool
    decreases variants,
{
    match variants {
        List::Nil => true,
        List::Cons(node) => spec_covers_variant(arms, position)
            && spec_covers_variants(arms, node.tail, position.saturating_add(1)),
    }
}

/// Whether the arms match every value of all the variants.
pub(crate) fn covers_variants<'a>(
    arms: &List<MatchArm<'a>>,
    variants: &List<EnumVariant<'a>>,
    position: u32,
) -> (answer: bool)
    ensures
        answer == spec_covers_variants(*arms, *variants, position),
{
    let mut ahead: &List<EnumVariant<'a>> = variants;
    let mut current_position: u32 = position;
    loop
        invariant
            spec_covers_variants(*arms, *variants, position) == spec_covers_variants(
                *arms,
                *ahead,
                current_position,
            ),
        decreases *ahead,
    {
        reveal(spec_covers_variants);
        match ahead {
            List::Nil => {
                return true;
            },
            List::Cons(node) => {
                if !covers_variant(arms, current_position) {
                    return false;
                }
                current_position = current_position.saturating_add(1);
                ahead = &node.tail;
            },
        }
    }
}

/// The message of a pattern with too many or too few parts.
#[verifier::opaque]
pub open spec fn spec_part_count<'a>(
    before: &'a str,
    required: u64,
    parts: &'a str,
    found: u64,
) -> Text<'a> {
    cons(
        Piece::Words(before),
        cons(Piece::Number(required as u128), cons(Piece::Words(parts), number(found as u128))),
    )
}

/// The message of a pattern with too many or too few parts.
pub(crate) fn part_count<'a>(
    before: &'a str,
    required: u64,
    parts: &'a str,
    found: u64,
) -> (message: Text<'a>)
    ensures
        message == spec_part_count(before, required, parts, found),
{
    reveal(spec_part_count);
    cons(
        Piece::Words(before),
        cons(Piece::Number(required as u128), cons(Piece::Words(parts), number(found as u128))),
    )
}

/// Whether a field of that name is declared and private.
#[verifier::opaque]
pub open spec fn spec_is_private_field<'a>(declared: List<TypeField<'a>>, name: &str) -> bool
    decreases declared,
{
    match declared {
        List::Nil => false,
        List::Cons(node) => (node.head.name@ == name@ && !node.head.is_public)
            || spec_is_private_field(node.tail, name),
    }
}

/// Whether a field of that name is declared and private.
pub(crate) fn is_private_field<'a>(declared: &List<TypeField<'a>>, name: &str) -> (answer: bool)
    ensures
        answer == spec_is_private_field(*declared, name),
{
    let mut ahead: &List<TypeField<'a>> = declared;
    loop
        invariant
            spec_is_private_field(*declared, name) == spec_is_private_field(*ahead, name),
        decreases *ahead,
    {
        reveal(spec_is_private_field);
        match ahead {
            List::Nil => {
                return false;
            },
            List::Cons(node) => {
                if same(node.head.name, name) && !node.head.is_public {
                    return true;
                }
                ahead = &node.tail;
            },
        }
    }
}

/// Whether any of the patterns names a private field.
#[verifier::opaque]
pub open spec fn spec_names_private_field<'a>(
    fields: List<PatternField<'a>>,
    declared: List<TypeField<'a>>,
) -> bool
    decreases fields,
{
    match fields {
        List::Nil => false,
        List::Cons(node) => spec_is_private_field(declared, node.head.name.name)
            || spec_names_private_field(node.tail, declared),
    }
}

/// Whether any of the patterns names a private field.
pub(crate) fn names_private_field<'a>(
    fields: &List<PatternField<'a>>,
    declared: &List<TypeField<'a>>,
) -> (answer: bool)
    ensures
        answer == spec_names_private_field(*fields, *declared),
{
    let mut ahead: &List<PatternField<'a>> = fields;
    loop
        invariant
            spec_names_private_field(*fields, *declared) == spec_names_private_field(
                *ahead,
                *declared,
            ),
        decreases *ahead,
    {
        reveal(spec_names_private_field);
        match ahead {
            List::Nil => {
                return false;
            },
            List::Cons(node) => {
                if is_private_field(declared, node.head.name.name) {
                    return true;
                }
                ahead = &node.tail;
            },
        }
    }
}

/// Whether there is a pattern for the field of that name.
#[verifier::opaque]
pub open spec fn spec_has_pattern<'a>(fields: List<PatternField<'a>>, name: &str) -> bool
    decreases fields,
{
    match fields {
        List::Nil => false,
        List::Cons(node) => node.head.name.name@ == name@ || spec_has_pattern(node.tail, name),
    }
}

/// Whether there is a pattern for the field of that name.
pub(crate) fn has_pattern<'a>(fields: &List<PatternField<'a>>, name: &str) -> (answer: bool)
    ensures
        answer == spec_has_pattern(*fields, name),
{
    let mut ahead: &List<PatternField<'a>> = fields;
    loop
        invariant
            spec_has_pattern(*fields, name) == spec_has_pattern(*ahead, name),
        decreases *ahead,
    {
        reveal(spec_has_pattern);
        match ahead {
            List::Nil => {
                return false;
            },
            List::Cons(node) => {
                if same(node.head.name.name, name) {
                    return true;
                }
                ahead = &node.tail;
            },
        }
    }
}

/// The last name of a path.
#[verifier::opaque]
pub open spec fn spec_last_segment<'a>(segments: List<Identifier<'a>>) -> Option<Identifier<'a>>
    decreases segments,
{
    match segments {
        List::Nil => None,
        List::Cons(node) => if node.tail.is_empty() {
            Some(node.head)
        } else {
            spec_last_segment(node.tail)
        },
    }
}

/// The last name of a path.
pub(crate) fn last_segment<'a>(segments: &List<Identifier<'a>>) -> (last: Option<Identifier<'a>>)
    ensures
        last == spec_last_segment(*segments),
        last is None ==> *segments is Nil,
{
    let mut ahead: &List<Identifier<'a>> = segments;
    loop
        invariant
            spec_last_segment(*segments) == spec_last_segment(*ahead),
            *ahead is Nil ==> *segments is Nil,
        decreases *ahead,
    {
        reveal(spec_last_segment);
        match ahead {
            List::Nil => {
                return None;
            },
            List::Cons(node) => {
                if node.tail.is_empty() {
                    return Some(node.head);
                } else {
                    ahead = &node.tail;
                }
            },
        }
    }
}

impl<'a> State<'a> {
    /// Whether the arms of a `match` cover every value of a type.
    #[verifier::opaque]
    pub open spec fn match_is_exhaustive(self, ty: Type, arms: List<MatchArm<'a>>) -> bool {
        spec_any_irrefutable(arms)
            || (match ty {
                Type::Never => true,
                Type::Bool => spec_covers_boolean(arms, false) && spec_covers_boolean(arms, true),
                Type::Enum(_) => match self.enum_variants(ty) {
                    Some(variants) => spec_covers_variants(arms, variants, 0),
                    None => false,
                },
                _ => false,
            })
    }

    /// The arms of a `match` must cover every value.
    #[verifier::opaque]
    pub open spec fn validate_match_coverage(
        self,
        ty: Type,
        arms: List<MatchArm<'a>>,
        span: Span,
    ) -> Self {
        if !self.match_is_exhaustive(ty, arms) {
            let s = self.report(
                helped(
                    "E3133",
                    framed("non-exhaustive match on `", ty.text(), "`"),
                    "add the missing cases or a final `_` arm",
                    span,
                ),
            );
            s
        } else {
            self
        }
    }

    /// The variables of a pattern refer to a local variable.
    #[verifier::opaque]
    pub open spec fn record_pattern_scoped_roots(self, pattern: Pattern<'a>, root: LocalId) -> Self
        decreases pattern,
    {
        match pattern.kind {
            PatternKind::Binding { local, .. } => if self.types.is_scoped(pattern.ty) {
                let s = self.set_scoped_root(local, root);
                s
            } else {
                self
            },
            PatternKind::Tuple(elements) => self.record_scoped_roots(elements, root),
            PatternKind::Enum { fields, .. } => self.record_scoped_roots(fields, root),
            _ => self,
        }
    }

    /// The variables of patterns refer to a local variable.
    #[verifier::opaque]
    pub open spec fn record_scoped_roots(self, patterns: List<Pattern<'a>>, root: LocalId) -> Self
        decreases patterns,
    {
        match patterns {
            List::Nil => self,
            List::Cons(node) => {
                let s = self.record_pattern_scoped_roots(node.head, root);
                let s = s.record_scoped_roots(node.tail, root);
                s
            },
        }
    }

    /// A pattern that is held against values of a type.
    #[verifier::opaque]
    pub open spec fn analyze_pattern(
        self,
        pattern: ast::Pattern<'a>,
        expected: Type,
    ) -> (Self, Pattern<'a>) {
        self.analyze_pattern_within(pattern, expected, LIMIT as nat)
    }

    /// A pattern, followed into it no deeper than `fuel`.
    pub open spec fn analyze_pattern_within(
        self,
        pattern: ast::Pattern<'a>,
        expected: Type,
        fuel: nat,
    ) -> (Self, Pattern<'a>)
        decreases fuel, 0nat, List::<Type>::Nil,
    {
        if fuel == 0 {
            let s = self.report(
                error("E3999", words("this pattern is nested too deeply"), pattern.span),
            );
            (s, Pattern { kind: PatternKind::Wildcard, ty: expected, span: pattern.span })
        } else {
            let (s, kind) = self.analyze_pattern_form(pattern, expected, (fuel - 1) as nat);
            (s, Pattern { kind, ty: expected, span: pattern.span })
        }
    }

    /// A pattern, by its form.
    pub open spec fn analyze_pattern_form(
        self,
        pattern: ast::Pattern<'a>,
        expected: Type,
        fuel: nat,
    ) -> (Self, PatternKind<'a>)
        decreases fuel, 4nat, List::<Type>::Nil,
    {
        match *pattern.kind {
            ast::PatternKind::Wildcard => (self, PatternKind::Wildcard),
            ast::PatternKind::Identifier { mutable, name } => self.analyze_identifier_pattern(
                mutable,
                name,
                expected,
            ),
            ast::PatternKind::Integer { value, negative } => self.analyze_pattern_integer(
                value,
                negative,
                expected,
                pattern.span,
            ),
            ast::PatternKind::Float(literal) => self.analyze_pattern_float(
                literal,
                expected,
                pattern.span,
            ),
            ast::PatternKind::Character(value) => {
                let s = self.require_type(Type::Char, expected, pattern.span, "character pattern");
                (s, PatternKind::Character(value))
            },
            ast::PatternKind::Boolean(value) => {
                let s = self.require_type(Type::Bool, expected, pattern.span, "boolean pattern");
                (s, PatternKind::Boolean(value))
            },
            ast::PatternKind::Tuple(elements) => self.analyze_tuple_pattern(
                elements,
                expected,
                pattern.span,
                fuel,
            ),
            ast::PatternKind::Path(path) => self.analyze_unit_variant_pattern(path, expected),
            ast::PatternKind::EnumTuple { path, fields } => self.analyze_enum_tuple_pattern(
                path,
                fields,
                expected,
                pattern.span,
                fuel,
            ),
            ast::PatternKind::EnumStruct { path, fields } => self.analyze_enum_struct_pattern(
                path,
                fields,
                expected,
                pattern.span,
                fuel,
            ),
        }
    }

    /// A name in a pattern: a variant without payload, or a new variable.
    #[verifier::opaque]
    pub open spec fn analyze_identifier_pattern(
        self,
        mutable: bool,
        name: Identifier<'a>,
        expected: Type,
    ) -> (Self, PatternKind<'a>) {
        let variant = if mutable {
            None
        } else {
            self.enum_variant(expected, name.name)
        };
        match variant {
            Some((variant, EnumVariantFields::Unit)) => (
                self,
                PatternKind::Enum { variant, fields: List::Nil },
            ),
            Some(_) => {
                let s = self.report(
                    helped(
                        "E3134",
                        words3("variant `", name.name, "` requires a payload pattern"),
                        "add positional patterns in parentheses",
                        name.span,
                    ),
                );
                (s, PatternKind::Wildcard)
            },
            None => self.bind_pattern_variable(mutable, name, expected),
        }
    }

    /// A variable that a pattern introduces.
    #[verifier::opaque]
    pub open spec fn bind_pattern_variable(
        self,
        mutable: bool,
        name: Identifier<'a>,
        expected: Type,
    ) -> (Self, PatternKind<'a>) {
        let (s, local) = self.new_local(name.span);
        let repeated = s.is_declared_here(name.name);
        let s = s.declare(name.name, Binding { local, ty: expected, mutable });
        let s = if repeated {
            let s = s.report(
                error(
                    "E3132",
                    words3("pattern binding `", name.name, "` is declared more than once"),
                    name.span,
                ),
            );
            s
        } else {
            s
        };
        (s, PatternKind::Binding { local, name: name.name, mutable })
    }

    /// An integer in a pattern, as the bits of its value.
    #[verifier::opaque]
    pub open spec fn analyze_pattern_integer(
        self,
        value: u128,
        negative: bool,
        expected: Type,
        span: Span,
    ) -> (Self, PatternKind<'a>) {
        if !expected.is_integer() || (negative && !expected.is_signed_integer()) {
            let s = self.report(
                error(
                    "E3134",
                    framed("integer pattern is not valid for `", expected.text(), "`"),
                    span,
                ),
            );
            (s, PatternKind::Integer(0))
        } else {
            let maximum: u128 = if negative {
                integer_minimum_magnitude(expected)
            } else {
                integer_positive_maximum(expected)
            };
            if value > maximum {
                let s = self.report(
                    error(
                        "E3104",
                        framed("integer pattern does not fit in `", expected.text(), "`"),
                        span,
                    ),
                );
                (s, PatternKind::Integer(0))
            } else {
                (
                    self,
                    if negative {
                        PatternKind::Integer(0u128.wrapping_sub(value))
                    } else {
                        PatternKind::Integer(value)
                    },
                )
            }
        }
    }

    /// A floating-point number in a pattern.
    #[verifier::opaque]
    pub open spec fn analyze_pattern_float(
        self,
        literal: FloatPattern,
        expected: Type,
        span: Span,
    ) -> (Self, PatternKind<'a>) {
        if !expected.is_float() {
            let s = self.report(
                error(
                    "E3134",
                    framed("floating-point pattern is not valid for `", expected.text(), "`"),
                    span,
                ),
            );
            (s, PatternKind::Float64(0))
        } else if expected == Type::F32 {
            let s = if !literal.single_is_finite {
                let s = self.report(
                    error("E3104", words("floating-point pattern does not fit in `f32`"), span),
                );
                s
            } else {
                self
            };
            (s, PatternKind::Float32(literal.single))
        } else {
            (self, PatternKind::Float64(literal.bits))
        }
    }

    /// A tuple pattern.
    pub open spec fn analyze_tuple_pattern(
        self,
        elements: List<ast::Pattern<'a>>,
        expected: Type,
        span: Span,
        fuel: nat,
    ) -> (Self, PatternKind<'a>)
        decreases fuel, 2nat, List::<Type>::Nil,
    {
        match self.tuple_elements(expected) {
            None => {
                let s = self.report(
                    error(
                        "E3134",
                        framed("tuple pattern is not valid for `", expected.text(), "`"),
                        span,
                    ),
                );
                (s, PatternKind::Tuple(List::Nil))
            },
            Some(types) => {
                let s = self.require_part_count(
                    types,
                    elements.count(),
                    "tuple pattern requires ",
                    " element(s), found ",
                    span,
                );
                let (s, patterns) = s.analyze_patterns(elements, types, fuel);
                (s, PatternKind::Tuple(patterns))
            },
        }
    }

    /// A pattern must have as many parts as the values that it is held against.
    #[verifier::opaque]
    pub open spec fn require_part_count(
        self,
        types: List<Type>,
        found: u64,
        before: &'a str,
        parts: &'a str,
        span: Span,
    ) -> Self {
        if types.count() != found {
            let s = self.report(
                error("E3134", spec_part_count(before, types.count(), parts, found), span),
            );
            s
        } else {
            self
        }
    }

    /// Patterns that are held against values of the types in turn.
    pub open spec fn analyze_patterns(
        self,
        patterns: List<ast::Pattern<'a>>,
        types: List<Type>,
        fuel: nat,
    ) -> (Self, List<Pattern<'a>>)
        decreases fuel, 1nat, patterns,
    {
        match patterns {
            List::Nil => (self, List::Nil),
            List::Cons(node) => match types {
                List::Nil => {
                    let (s, first) = self.analyze_pattern_within(node.head, Type::Unit, fuel);
                    let (s, rest) = s.analyze_patterns(node.tail, types, fuel);
                    (s, cons(first, rest))
                },
                List::Cons(ty) => {
                    let (s, first) = self.analyze_pattern_within(node.head, ty.head, fuel);
                    let (s, rest) = s.analyze_patterns(node.tail, ty.tail, fuel);
                    (s, cons(first, rest))
                },
            },
        }
    }

    /// A path in a pattern: a variant without payload.
    #[verifier::opaque]
    pub open spec fn analyze_unit_variant_pattern(
        self,
        path: Path<'a>,
        expected: Type,
    ) -> (Self, PatternKind<'a>) {
        match self.resolve_pattern_variant(expected, path) {
            (s, None) => (s, PatternKind::Wildcard),
            (s, Some((variant, fields))) => match fields {
                EnumVariantFields::Unit => (s, PatternKind::Enum { variant, fields: List::Nil }),
                _ => {
                    let s = s.report(
                        error(
                            "E3134",
                            framed("variant `", path.display(), "` requires a payload pattern"),
                            path.span,
                        ),
                    );
                    (s, PatternKind::Wildcard)
                },
            },
        }
    }

    /// A pattern for a variant with positional payload.
    pub open spec fn analyze_enum_tuple_pattern(
        self,
        path: Path<'a>,
        fields: List<ast::Pattern<'a>>,
        expected: Type,
        span: Span,
        fuel: nat,
    ) -> (Self, PatternKind<'a>)
        decreases fuel, 2nat, List::<Type>::Nil,
    {
        match self.resolve_pattern_variant(expected, path) {
            (s, None) => (s, PatternKind::Wildcard),
            (s, Some((variant, payload))) => match payload {
                EnumVariantFields::Tuple(types) => {
                    let s = s.require_part_count(
                        types,
                        fields.count(),
                        "variant pattern requires ",
                        " field(s), found ",
                        span,
                    );
                    let (s, patterns) = s.analyze_patterns(fields, types, fuel);
                    (s, PatternKind::Enum { variant, fields: patterns })
                },
                _ => {
                    let s = s.report(
                        error(
                            "E3134",
                            framed("variant `", path.display(), "` is not tuple-like"),
                            span,
                        ),
                    );
                    (s, PatternKind::Wildcard)
                },
            },
        }
    }

    /// A pattern for a variant with named payload.
    pub open spec fn analyze_enum_struct_pattern(
        self,
        path: Path<'a>,
        fields: List<PatternField<'a>>,
        expected: Type,
        span: Span,
        fuel: nat,
    ) -> (Self, PatternKind<'a>)
        decreases fuel, 3nat, List::<Type>::Nil,
    {
        match self.resolve_pattern_variant(expected, path) {
            (s, None) => (s, PatternKind::Wildcard),
            (s, Some((variant, payload))) => match payload {
                EnumVariantFields::Struct(declared) => {
                    let s = s.check_pattern_fields(fields, declared, expected, span);
                    let (s, patterns) = s.analyze_declared_patterns(declared, fields, span, fuel);
                    (s, PatternKind::Enum { variant, fields: patterns })
                },
                _ => {
                    let s = s.report(
                        error(
                            "E3134",
                            framed("variant `", path.display(), "` is not struct-like"),
                            span,
                        ),
                    );
                    (s, PatternKind::Wildcard)
                },
            },
        }
    }

    /// Patterns must name fields that are declared and can be seen, once each.
    #[verifier::opaque]
    pub open spec fn check_pattern_fields(
        self,
        fields: List<PatternField<'a>>,
        declared: List<TypeField<'a>>,
        expected: Type,
        span: Span,
    ) -> Self {
        let s = if self.type_is_external(expected) && spec_names_private_field(fields, declared) {
            let s = self.report(
                helped(
                    "E4005",
                    words("enum payload field is private to its defining module"),
                    "match the variant without naming private fields",
                    span,
                ),
            );
            s
        } else {
            self
        };
        let s = s.check_field_names(fields, declared, List::Nil);
        s
    }

    /// Patterns must name fields that are declared, once each.
    #[verifier::opaque]
    pub open spec fn check_field_names(
        self,
        fields: List<PatternField<'a>>,
        declared: List<TypeField<'a>>,
        seen: List<&'a str>,
    ) -> Self
        decreases fields,
    {
        match fields {
            List::Nil => self,
            List::Cons(node) => {
                let s = if listed(seen, node.head.name.name@) {
                    let s = self.report(
                        error(
                            "E3132",
                            words3(
                                "pattern field `",
                                node.head.name.name,
                                "` is specified more than once",
                            ),
                            node.head.span,
                        ),
                    );
                    s
                } else {
                    self
                };
                let s = if !spec_has_field(declared, node.head.name.name) {
                    let s = s.report(
                        error(
                            "E3121",
                            words3("variant has no field named `", node.head.name.name, "`"),
                            node.head.name.span,
                        ),
                    );
                    s
                } else {
                    s
                };
                let s = s.check_field_names(node.tail, declared, cons(node.head.name.name, seen));
                s
            },
        }
    }

    /// The patterns for the declared fields, in their order.
    pub open spec fn analyze_declared_patterns(
        self,
        declared: List<TypeField<'a>>,
        fields: List<PatternField<'a>>,
        span: Span,
        fuel: nat,
    ) -> (Self, List<Pattern<'a>>)
        decreases fuel, 2nat, declared,
    {
        match declared {
            List::Nil => (self, List::Nil),
            List::Cons(node) => {
                let (s, first) = self.analyze_field_pattern(fields, node.head, span, fuel);
                let (s, rest) = s.analyze_declared_patterns(node.tail, fields, span, fuel);
                (s, cons(first, rest))
            },
        }
    }

    /// The pattern for a declared field: the last one of that name counts.
    pub open spec fn analyze_field_pattern(
        self,
        fields: List<PatternField<'a>>,
        declared: TypeField<'a>,
        span: Span,
        fuel: nat,
    ) -> (Self, Pattern<'a>)
        decreases fuel, 1nat, fields,
    {
        match fields {
            List::Nil => {
                let s = self.report(
                    error("E3122", words3("missing pattern for field `", declared.name, "`"), span),
                );
                (s, Pattern { kind: PatternKind::Wildcard, ty: declared.ty, span })
            },
            List::Cons(node) => if node.head.name.name@ == declared.name@
                && !spec_has_pattern(node.tail, declared.name) {
                self.analyze_pattern_within(node.head.pattern, declared.ty, fuel)
            } else {
                self.analyze_field_pattern(node.tail, declared, span, fuel)
            },
        }
    }

    /// Whether a path of two names starts with the name of a type.
    #[verifier::opaque]
    pub open spec fn is_qualified_by(self, path: Path<'a>, ty: Type) -> bool {
        match two_names(path) {
            None => true,
            Some((owner, _)) => match self.types.definition(ty) {
                None => false,
                Some(definition) => match definition.name {
                    Some(name) => characters(name) == owner.name@,
                    None => false,
                },
            },
        }
    }

    /// The variant that a path in a pattern names.
    #[verifier::opaque]
    pub open spec fn resolve_pattern_variant(
        self,
        expected: Type,
        path: Path<'a>,
    ) -> (Self, Option<(u32, EnumVariantFields<'a>)>) {
        if !spec_is_enum_type(expected) {
            let s = self.report(
                error(
                    "E3134",
                    framed("enum pattern is not valid for `", expected.text(), "`"),
                    path.span,
                ),
            );
            (s, None)
        } else {
            match spec_last_segment(path.segments) {
                None => (self, None),
                Some(name) => if path.segments.count() > 2 {
                    let s = self.report(
                        error(
                            "E3134",
                            framed("invalid enum pattern path `", path.display(), "`"),
                            path.span,
                        ),
                    );
                    (s, None)
                } else if !self.is_qualified_by(path, expected) {
                    let s = self.report(
                        error(
                            "E3134",
                            cons(
                                Piece::Words("`"),
                                append(
                                    path.display(),
                                    framed("` is not a variant of `", expected.text(), "`"),
                                ),
                            ),
                            path.span,
                        ),
                    );
                    (s, None)
                } else {
                    match self.enum_variant(expected, name.name) {
                        Some(variant) => (self, Some(variant)),
                        None => {
                            let s = self.report(
                                error(
                                    "E3134",
                                    framed("enum variant `", path.display(), "` does not exist"),
                                    path.span,
                                ),
                            );
                            (s, None)
                        },
                    }
                },
            }
        }
    }
}

impl<'a> Analyzer<'a> {
    /// Whether the arms of a `match` cover every value of a type.
    pub(crate) fn match_is_exhaustive(&self, ty: Type, arms: &List<MatchArm<'a>>) -> (answer: bool)
        ensures
            answer == self@.match_is_exhaustive(ty, *arms),
    {
        reveal(State::match_is_exhaustive);
        any_irrefutable(arms)
            || (match ty {
                Type::Never => true,
                Type::Bool => covers_boolean(arms, false) && covers_boolean(arms, true),
                Type::Enum(_) => match self.enum_variants(ty) {
                    Some(variants) => covers_variants(arms, &variants, 0),
                    None => false,
                },
                _ => false,
            })
    }

    /// The arms of a `match` must cover every value.
    pub(crate) fn validate_match_coverage(
        &mut self,
        ty: Type,
        arms: &List<MatchArm<'a>>,
        span: Span,
    )
        ensures
            final(self)@ == old(self)@.validate_match_coverage(ty, *arms, span),
            old(self)@.leads_to(final(self)@),
            old(self)@.stays(final(self)@),
    {
        reveal(State::validate_match_coverage);
        if !self.match_is_exhaustive(ty, arms) {
            self.report(
                helped(
                    "E3133",
                    frame("non-exhaustive match on `", &ty.text(), "`"),
                    "add the missing cases or a final `_` arm",
                    span,
                ),
            );
        }
    }

    /// The variables of a pattern refer to a local variable.
    pub(crate) fn record_pattern_scoped_roots(&mut self, pattern: &Pattern<'a>, root: LocalId)
        ensures
            final(self)@ == old(self)@.record_pattern_scoped_roots(*pattern, root),
            old(self)@.leads_to(final(self)@),
            old(self)@.stays(final(self)@),
        decreases *pattern,
    {
        reveal(State::record_pattern_scoped_roots);
        reveal(State::record_scoped_roots);
        match &pattern.kind {
            PatternKind::Binding { local, .. } => if self.types.is_scoped(pattern.ty) {
                self.set_scoped_root(*local, root);
            },
            PatternKind::Tuple(elements) => self.record_scoped_roots(elements, root),
            PatternKind::Enum { fields, .. } => self.record_scoped_roots(fields, root),
            _ => {
            },
        }
    }

    /// The variables of patterns refer to a local variable.
    pub(crate) fn record_scoped_roots(&mut self, patterns: &List<Pattern<'a>>, root: LocalId)
        ensures
            final(self)@ == old(self)@.record_scoped_roots(*patterns, root),
            old(self)@.leads_to(final(self)@),
            old(self)@.stays(final(self)@),
        decreases *patterns,
    {
        let mut ahead: &List<Pattern<'a>> = patterns;
        loop
            invariant
                old(self)@.record_scoped_roots(*patterns, root) == self@.record_scoped_roots(
                    *ahead,
                    root,
                ),
                old(self)@.leads_to(self@),
                old(self)@.stays(self@),
                *ahead == *patterns || decreases_to!(*patterns => *ahead),
            decreases *ahead,
        {
            reveal(State::record_scoped_roots);
            reveal(State::record_pattern_scoped_roots);
            match ahead {
                List::Nil => {
                    return ;
                },
                List::Cons(node) => {
                    self.record_pattern_scoped_roots(&node.head, root);
                    ahead = &node.tail;
                },
            }
        }
    }

    /// A pattern that is held against values of a type.
    pub(crate) fn analyze_pattern(
        &mut self,
        pattern: &ast::Pattern<'a>,
        expected: Type,
    ) -> (analyzed: Pattern<'a>)
        ensures
            (final(self)@, analyzed) == old(self)@.analyze_pattern(*pattern, expected),
            old(self)@.leads_to(final(self)@),
            forall|watch: Watch| #[trigger]
                watched(watch) && old(self)@.is_apart(watch)
                    && !pattern_mentions(*pattern, watch.name)
                    ==> old(self)@.spares(final(self)@, watch),
            final(self)@.troubled() || pattern_renders(*pattern, analyzed),
    {
        reveal(State::analyze_pattern);
        self.analyze_pattern_within(pattern, expected, LIMIT)
    }

    /// A pattern, followed into it no deeper than `fuel`.
    pub(crate) fn analyze_pattern_within(
        &mut self,
        pattern: &ast::Pattern<'a>,
        expected: Type,
        fuel: u32,
    ) -> (analyzed: Pattern<'a>)
        ensures
            (final(self)@, analyzed) == old(self)@.analyze_pattern_within(
                *pattern,
                expected,
                fuel as nat,
            ),
            old(self)@.leads_to(final(self)@),
            forall|watch: Watch| #[trigger]
                watched(watch) && old(self)@.is_apart(watch)
                    && !pattern_mentions(*pattern, watch.name)
                    ==> old(self)@.spares(final(self)@, watch),
            final(self)@.troubled() || pattern_renders(*pattern, analyzed),
        decreases fuel, 0nat, List::<Type>::Nil,
    {
        if fuel == 0 {
            self.report(error("E3999", words("this pattern is nested too deeply"), pattern.span));
            return Pattern { kind: PatternKind::Wildcard, ty: expected, span: pattern.span };
        }
        let kind = self.analyze_pattern_form(pattern, expected, fuel - 1);
        let analyzed = Pattern { kind, ty: expected, span: pattern.span };
        proof {
            pattern_renders_by_form(*pattern, analyzed);
        }
        analyzed
    }

    /// A pattern, by its form.
    pub(crate) fn analyze_pattern_form(
        &mut self,
        pattern: &ast::Pattern<'a>,
        expected: Type,
        fuel: u32,
    ) -> (kind: PatternKind<'a>)
        ensures
            (final(self)@, kind) == old(self)@.analyze_pattern_form(
                *pattern,
                expected,
                fuel as nat,
            ),
            old(self)@.leads_to(final(self)@),
            forall|watch: Watch| #[trigger]
                watched(watch) && old(self)@.is_apart(watch)
                    && !pattern_mentions(*pattern, watch.name)
                    ==> old(self)@.spares(final(self)@, watch),
            forall|nowhere: Span|
                final(self)@.troubled() || #[trigger] pattern_form_renders(
                    *pattern.kind,
                    Pattern { kind, ty: expected, span: nowhere },
                ),
        decreases fuel, 4nat, List::<Type>::Nil,
    {
        match &*pattern.kind {
            ast::PatternKind::Wildcard => PatternKind::Wildcard,
            ast::PatternKind::Identifier { mutable, name } => self.analyze_identifier_pattern(
                *mutable,
                *name,
                expected,
            ),
            ast::PatternKind::Integer { value, negative } => self.analyze_pattern_integer(
                *value,
                *negative,
                expected,
                pattern.span,
            ),
            ast::PatternKind::Float(literal) => self.analyze_pattern_float(
                *literal,
                expected,
                pattern.span,
            ),
            ast::PatternKind::Character(value) => {
                self.require_type(Type::Char, expected, pattern.span, "character pattern");
                PatternKind::Character(*value)
            },
            ast::PatternKind::Boolean(value) => {
                self.require_type(Type::Bool, expected, pattern.span, "boolean pattern");
                PatternKind::Boolean(*value)
            },
            ast::PatternKind::Tuple(elements) => self.analyze_tuple_pattern(
                elements,
                expected,
                pattern.span,
                fuel,
            ),
            ast::PatternKind::Path(path) => self.analyze_unit_variant_pattern(path, expected),
            ast::PatternKind::EnumTuple { path, fields } => self.analyze_enum_tuple_pattern(
                path,
                fields,
                expected,
                pattern.span,
                fuel,
            ),
            ast::PatternKind::EnumStruct { path, fields } => self.analyze_enum_struct_pattern(
                path,
                fields,
                expected,
                pattern.span,
                fuel,
            ),
        }
    }

    /// A name in a pattern: a variant without payload, or a new variable.
    pub(crate) fn analyze_identifier_pattern(
        &mut self,
        mutable: bool,
        name: Identifier<'a>,
        expected: Type,
    ) -> (kind: PatternKind<'a>)
        ensures
            (final(self)@, kind) == old(self)@.analyze_identifier_pattern(mutable, name, expected),
            old(self)@.leads_to(final(self)@),
            forall|watch: Watch| #[trigger]
                watched(watch) && old(self)@.is_apart(watch) && name.name@ != watch.name
                    ==> old(self)@.spares(final(self)@, watch),
            forall|nowhere: Span|
                final(self)@.troubled() || #[trigger] pattern_form_renders(
                    ast::PatternKind::Identifier { mutable, name },
                    Pattern { kind, ty: expected, span: nowhere },
                ),
    {
        reveal(State::analyze_identifier_pattern);
        let variant = if mutable {
            None
        } else {
            self.enum_variant(expected, name.name)
        };
        match variant {
            Some((variant, EnumVariantFields::Unit)) => PatternKind::Enum {
                variant,
                fields: List::Nil,
            },
            Some(_) => {
                self.report(
                    helped(
                        "E3134",
                        words3("variant `", name.name, "` requires a payload pattern"),
                        "add positional patterns in parentheses",
                        name.span,
                    ),
                );
                PatternKind::Wildcard
            },
            None => self.bind_pattern_variable(mutable, name, expected),
        }
    }

    /// A variable that a pattern introduces.
    pub(crate) fn bind_pattern_variable(
        &mut self,
        mutable: bool,
        name: Identifier<'a>,
        expected: Type,
    ) -> (kind: PatternKind<'a>)
        ensures
            (final(self)@, kind) == old(self)@.bind_pattern_variable(mutable, name, expected),
            old(self)@.leads_to(final(self)@),
            forall|watch: Watch| #[trigger]
                watched(watch) && old(self)@.is_apart(watch) && name.name@ != watch.name
                    ==> old(self)@.spares(final(self)@, watch),
            match kind {
                PatternKind::Binding { name: bound, mutable: changeable, .. } => bound == name.name
                    && changeable == mutable,
                _ => false,
            },
    {
        reveal(State::bind_pattern_variable);
        let local = self.new_local(name.span);
        let repeated = self.is_declared_here(name.name);
        self.declare(name.name, Binding { local, ty: expected, mutable });
        if repeated {
            self.report(
                error(
                    "E3132",
                    words3("pattern binding `", name.name, "` is declared more than once"),
                    name.span,
                ),
            );
        }
        PatternKind::Binding { local, name: name.name, mutable }
    }

    /// An integer in a pattern, as the bits of its value.
    pub(crate) fn analyze_pattern_integer(
        &mut self,
        value: u128,
        negative: bool,
        expected: Type,
        span: Span,
    ) -> (kind: PatternKind<'a>)
        ensures
            (final(self)@, kind) == old(self)@.analyze_pattern_integer(
                value,
                negative,
                expected,
                span,
            ),
            old(self)@.leads_to(final(self)@),
            old(self)@.stays(final(self)@),
            final(self)@.troubled() || match kind {
                PatternKind::Integer(bits) => stands_for(bits, written_number(value, negative)),
                _ => false,
            },
    {
        reveal(State::analyze_pattern_integer);
        if !expected.is_integer() || (negative && !expected.is_signed_integer()) {
            self.report(
                error(
                    "E3134",
                    frame("integer pattern is not valid for `", &expected.text(), "`"),
                    span,
                ),
            );
            return PatternKind::Integer(0);
        }
        let maximum: u128 = if negative {
            integer_minimum_magnitude(expected)
        } else {
            integer_positive_maximum(expected)
        };
        if value > maximum {
            self.report(
                error(
                    "E3104",
                    frame("integer pattern does not fit in `", &expected.text(), "`"),
                    span,
                ),
            );
            return PatternKind::Integer(0);
        }
        if negative {
            PatternKind::Integer(0u128.wrapping_sub(value))
        } else {
            PatternKind::Integer(value)
        }
    }

    /// A floating-point number in a pattern.
    pub(crate) fn analyze_pattern_float(
        &mut self,
        literal: FloatPattern,
        expected: Type,
        span: Span,
    ) -> (kind: PatternKind<'a>)
        ensures
            (final(self)@, kind) == old(self)@.analyze_pattern_float(literal, expected, span),
            old(self)@.leads_to(final(self)@),
            old(self)@.stays(final(self)@),
            forall|nowhere: Span|
                final(self)@.troubled() || #[trigger] pattern_form_renders(
                    ast::PatternKind::Float(literal),
                    Pattern { kind, ty: expected, span: nowhere },
                ),
    {
        reveal(State::analyze_pattern_float);
        if !expected.is_float() {
            self.report(
                error(
                    "E3134",
                    frame("floating-point pattern is not valid for `", &expected.text(), "`"),
                    span,
                ),
            );
            return PatternKind::Float64(0);
        }
        if expected == Type::F32 {
            if !literal.single_is_finite {
                self.report(
                    error("E3104", words("floating-point pattern does not fit in `f32`"), span),
                );
            }
            PatternKind::Float32(literal.single)
        } else {
            PatternKind::Float64(literal.bits)
        }
    }

    /// A tuple pattern.
    pub(crate) fn analyze_tuple_pattern(
        &mut self,
        elements: &List<ast::Pattern<'a>>,
        expected: Type,
        span: Span,
        fuel: u32,
    ) -> (kind: PatternKind<'a>)
        ensures
            (final(self)@, kind) == old(self)@.analyze_tuple_pattern(
                *elements,
                expected,
                span,
                fuel as nat,
            ),
            old(self)@.leads_to(final(self)@),
            forall|watch: Watch| #[trigger]
                watched(watch) && old(self)@.is_apart(watch)
                    && !patterns_mention(*elements, watch.name)
                    ==> old(self)@.spares(final(self)@, watch),
            forall|nowhere: Span|
                final(self)@.troubled() || #[trigger] pattern_form_renders(
                    ast::PatternKind::Tuple(*elements),
                    Pattern { kind, ty: expected, span: nowhere },
                ),
        decreases fuel, 2nat, List::<Type>::Nil,
    {
        match self.tuple_elements(expected) {
            None => {
                self.report(
                    error(
                        "E3134",
                        frame("tuple pattern is not valid for `", &expected.text(), "`"),
                        span,
                    ),
                );
                PatternKind::Tuple(List::Nil)
            },
            Some(types) => {
                self.require_part_count(
                    &types,
                    elements.count(),
                    "tuple pattern requires ",
                    " element(s), found ",
                    span,
                );
                let patterns = self.analyze_patterns(elements, &types, fuel);
                PatternKind::Tuple(patterns)
            },
        }
    }

    /// A pattern must have as many parts as the values that it is held against.
    pub(crate) fn require_part_count(
        &mut self,
        types: &List<Type>,
        found: u64,
        before: &'a str,
        parts: &'a str,
        span: Span,
    )
        ensures
            final(self)@ == old(self)@.require_part_count(*types, found, before, parts, span),
            old(self)@.leads_to(final(self)@),
            old(self)@.stays(final(self)@),
    {
        reveal(State::require_part_count);
        if types.count() != found {
            self.report(error("E3134", part_count(before, types.count(), parts, found), span));
        }
    }

    /// Patterns that are held against values of the types in turn.
    pub(crate) fn analyze_patterns(
        &mut self,
        patterns: &List<ast::Pattern<'a>>,
        types: &List<Type>,
        fuel: u32,
    ) -> (analyzed: List<Pattern<'a>>)
        ensures
            (final(self)@, analyzed) == old(self)@.analyze_patterns(*patterns, *types, fuel as nat),
            old(self)@.leads_to(final(self)@),
            forall|watch: Watch| #[trigger]
                watched(watch) && old(self)@.is_apart(watch)
                    && !patterns_mention(*patterns, watch.name)
                    ==> old(self)@.spares(final(self)@, watch),
            final(self)@.troubled() || patterns_render(*patterns, analyzed),
        decreases fuel, 1nat, *patterns,
    {
        let mut ahead: &List<ast::Pattern<'a>> = patterns;
        let mut current_types: &List<Type> = types;
        let mut done: Vec<Pattern<'a>> = Vec::new();
        loop
            invariant
                old(self)@.analyze_patterns(*patterns, *types, fuel as nat) == {
                    let (state, rest) = self@.analyze_patterns(*ahead, *current_types, fuel as nat);
                    (state, prepended(done@, rest))
                },
                old(self)@.leads_to(self@),
                forall|watch: Watch| #[trigger]
                    watched(watch) && old(self)@.is_apart(watch)
                        && !patterns_mention(*patterns, watch.name)
                        ==> old(self)@.spares(self@, watch),
                forall|watch: Watch| #[trigger]
                    watched(watch) && !patterns_mention(*patterns, watch.name)
                        ==> !patterns_mention(*ahead, watch.name),
                self@.troubled() || forall|rest: List<Pattern<'a>>|
                    patterns_render(*ahead, rest) ==> patterns_render(
                        *patterns,
                        #[trigger] prepended(done@, rest),
                    ),
            decreases *ahead,
        {
            match ahead {
                List::Nil => {
                    return prepend(done, List::Nil);
                },
                List::Cons(node) => {
                    match current_types {
                        List::Nil => {
                            let first = self.analyze_pattern_within(&node.head, Type::Unit, fuel);
                            done.push(first);
                            ahead = &node.tail;
                        },
                        List::Cons(ty) => {
                            let first = self.analyze_pattern_within(&node.head, ty.head, fuel);
                            done.push(first);
                            current_types = &ty.tail;
                            ahead = &node.tail;
                        },
                    }
                },
            }
        }
    }

    /// A path in a pattern: a variant without payload.
    pub(crate) fn analyze_unit_variant_pattern(
        &mut self,
        path: &Path<'a>,
        expected: Type,
    ) -> (kind: PatternKind<'a>)
        ensures
            (final(self)@, kind) == old(self)@.analyze_unit_variant_pattern(*path, expected),
            old(self)@.leads_to(final(self)@),
            old(self)@.stays(final(self)@),
            forall|nowhere: Span|
                final(self)@.troubled() || #[trigger] pattern_form_renders(
                    ast::PatternKind::Path(*path),
                    Pattern { kind, ty: expected, span: nowhere },
                ),
    {
        reveal(State::analyze_unit_variant_pattern);
        match self.resolve_pattern_variant(expected, path) {
            None => PatternKind::Wildcard,
            Some((variant, fields)) => match fields {
                EnumVariantFields::Unit => PatternKind::Enum { variant, fields: List::Nil },
                _ => {
                    self.report(
                        error(
                            "E3134",
                            frame("variant `", &path.display(), "` requires a payload pattern"),
                            path.span,
                        ),
                    );
                    PatternKind::Wildcard
                },
            },
        }
    }

    /// A pattern for a variant with positional payload.
    pub(crate) fn analyze_enum_tuple_pattern(
        &mut self,
        path: &Path<'a>,
        fields: &List<ast::Pattern<'a>>,
        expected: Type,
        span: Span,
        fuel: u32,
    ) -> (kind: PatternKind<'a>)
        ensures
            (final(self)@, kind) == old(self)@.analyze_enum_tuple_pattern(
                *path,
                *fields,
                expected,
                span,
                fuel as nat,
            ),
            old(self)@.leads_to(final(self)@),
            forall|watch: Watch| #[trigger]
                watched(watch) && old(self)@.is_apart(watch)
                    && !patterns_mention(*fields, watch.name)
                    ==> old(self)@.spares(final(self)@, watch),
            forall|nowhere: Span|
                final(self)@.troubled() || #[trigger] pattern_form_renders(
                    ast::PatternKind::EnumTuple { path: *path, fields: *fields },
                    Pattern { kind, ty: expected, span: nowhere },
                ),
        decreases fuel, 2nat, List::<Type>::Nil,
    {
        match self.resolve_pattern_variant(expected, path) {
            None => PatternKind::Wildcard,
            Some((variant, payload)) => match payload {
                EnumVariantFields::Tuple(types) => {
                    self.require_part_count(
                        &types,
                        fields.count(),
                        "variant pattern requires ",
                        " field(s), found ",
                        span,
                    );
                    let patterns = self.analyze_patterns(fields, &types, fuel);
                    PatternKind::Enum { variant, fields: patterns }
                },
                _ => {
                    self.report(
                        error(
                            "E3134",
                            frame("variant `", &path.display(), "` is not tuple-like"),
                            span,
                        ),
                    );
                    PatternKind::Wildcard
                },
            },
        }
    }

    /// A pattern for a variant with named payload.
    pub(crate) fn analyze_enum_struct_pattern(
        &mut self,
        path: &Path<'a>,
        fields: &List<PatternField<'a>>,
        expected: Type,
        span: Span,
        fuel: u32,
    ) -> (kind: PatternKind<'a>)
        ensures
            (final(self)@, kind) == old(self)@.analyze_enum_struct_pattern(
                *path,
                *fields,
                expected,
                span,
                fuel as nat,
            ),
            old(self)@.leads_to(final(self)@),
            forall|watch: Watch| #[trigger]
                watched(watch) && old(self)@.is_apart(watch)
                    && !pattern_fields_mention(*fields, watch.name)
                    ==> old(self)@.spares(final(self)@, watch),
            forall|nowhere: Span|
                final(self)@.troubled() || #[trigger] pattern_form_renders(
                    ast::PatternKind::EnumStruct { path: *path, fields: *fields },
                    Pattern { kind, ty: expected, span: nowhere },
                ),
        decreases fuel, 3nat, List::<Type>::Nil,
    {
        match self.resolve_pattern_variant(expected, path) {
            None => PatternKind::Wildcard,
            Some((variant, payload)) => match payload {
                EnumVariantFields::Struct(declared) => {
                    self.check_pattern_fields(fields, &declared, expected, span);
                    let patterns = self.analyze_declared_patterns(&declared, fields, span, fuel);
                    PatternKind::Enum { variant, fields: patterns }
                },
                _ => {
                    self.report(
                        error(
                            "E3134",
                            frame("variant `", &path.display(), "` is not struct-like"),
                            span,
                        ),
                    );
                    PatternKind::Wildcard
                },
            },
        }
    }

    /// Patterns must name fields that are declared and can be seen, once each.
    pub(crate) fn check_pattern_fields(
        &mut self,
        fields: &List<PatternField<'a>>,
        declared: &List<TypeField<'a>>,
        expected: Type,
        span: Span,
    )
        ensures
            final(self)@ == old(self)@.check_pattern_fields(*fields, *declared, expected, span),
            old(self)@.leads_to(final(self)@),
            old(self)@.stays(final(self)@),
    {
        reveal(State::check_pattern_fields);
        if self.type_is_external(expected) && names_private_field(fields, declared) {
            self.report(
                helped(
                    "E4005",
                    words("enum payload field is private to its defining module"),
                    "match the variant without naming private fields",
                    span,
                ),
            );
        }
        self.check_field_names(fields, declared, List::Nil);
    }

    /// Patterns must name fields that are declared, once each.
    pub(crate) fn check_field_names(
        &mut self,
        fields: &List<PatternField<'a>>,
        declared: &List<TypeField<'a>>,
        seen: List<&'a str>,
    )
        ensures
            final(self)@ == old(self)@.check_field_names(*fields, *declared, seen),
            old(self)@.leads_to(final(self)@),
            old(self)@.stays(final(self)@),
    {
        let mut ahead: &List<PatternField<'a>> = fields;
        let mut current_seen: List<&'a str> = seen;
        loop
            invariant
                old(self)@.check_field_names(*fields, *declared, seen) == self@.check_field_names(
                    *ahead,
                    *declared,
                    current_seen,
                ),
                old(self)@.leads_to(self@),
                old(self)@.stays(self@),
            decreases *ahead,
        {
            reveal(State::check_field_names);
            match ahead {
                List::Nil => {
                    return ;
                },
                List::Cons(node) => {
                    if is_listed(&current_seen, node.head.name.name) {
                        self.report(
                            error(
                                "E3132",
                                words3(
                                    "pattern field `",
                                    node.head.name.name,
                                    "` is specified more than once",
                                ),
                                node.head.span,
                            ),
                        );
                    }
                    if !has_field(declared, node.head.name.name) {
                        self.report(
                            error(
                                "E3121",
                                words3("variant has no field named `", node.head.name.name, "`"),
                                node.head.name.span,
                            ),
                        );
                    }
                    current_seen = cons(node.head.name.name, current_seen);
                    ahead = &node.tail;
                },
            }
        }
    }

    /// The patterns for the declared fields, in their order.
    pub(crate) fn analyze_declared_patterns(
        &mut self,
        declared: &List<TypeField<'a>>,
        fields: &List<PatternField<'a>>,
        span: Span,
        fuel: u32,
    ) -> (analyzed: List<Pattern<'a>>)
        ensures
            (final(self)@, analyzed) == old(self)@.analyze_declared_patterns(
                *declared,
                *fields,
                span,
                fuel as nat,
            ),
            old(self)@.leads_to(final(self)@),
            forall|watch: Watch| #[trigger]
                watched(watch) && old(self)@.is_apart(watch)
                    && !pattern_fields_mention(*fields, watch.name)
                    ==> old(self)@.spares(final(self)@, watch),
        decreases fuel, 2nat, *declared,
    {
        let mut ahead: &List<TypeField<'a>> = declared;
        let mut done: Vec<Pattern<'a>> = Vec::new();
        loop
            invariant
                old(self)@.analyze_declared_patterns(
                                *declared,
                                *fields,
                                span,
                                fuel as nat,
                            ) == {
                    let (state, rest) = self@.analyze_declared_patterns(
                                *ahead,
                                *fields,
                                span,
                                fuel as nat,
                            );
                    (state, prepended(done@, rest))
                },
                old(self)@.leads_to(self@),
                forall|watch: Watch| #[trigger]
                    watched(watch) && old(self)@.is_apart(watch)
                        && !pattern_fields_mention(*fields, watch.name)
                        ==> old(self)@.spares(self@, watch),
            decreases *ahead,
        {
            match ahead {
                List::Nil => {
                    return prepend(done, List::Nil);
                },
                List::Cons(node) => {
                    let first = self.analyze_field_pattern(fields, node.head, span, fuel);
                    done.push(first);
                    ahead = &node.tail;
                },
            }
        }
    }

    /// The pattern for a declared field: the last one of that name counts.
    pub(crate) fn analyze_field_pattern(
        &mut self,
        fields: &List<PatternField<'a>>,
        declared: TypeField<'a>,
        span: Span,
        fuel: u32,
    ) -> (analyzed: Pattern<'a>)
        ensures
            (final(self)@, analyzed) == old(self)@.analyze_field_pattern(
                *fields,
                declared,
                span,
                fuel as nat,
            ),
            old(self)@.leads_to(final(self)@),
            forall|watch: Watch| #[trigger]
                watched(watch) && old(self)@.is_apart(watch)
                    && !pattern_fields_mention(*fields, watch.name)
                    ==> old(self)@.spares(final(self)@, watch),
        decreases fuel, 1nat, *fields,
    {
        let mut ahead: &List<PatternField<'a>> = fields;
        loop
            invariant
                old(self)@.analyze_field_pattern(
                    *fields,
                    declared,
                    span,
                    fuel as nat,
                ) == self@.analyze_field_pattern(
                    *ahead,
                    declared,
                    span,
                    fuel as nat,
                ),
                old(self)@.leads_to(self@),
                forall|watch: Watch| #[trigger]
                    watched(watch) && old(self)@.is_apart(watch)
                        && !pattern_fields_mention(*fields, watch.name)
                        ==> old(self)@.spares(self@, watch),
                forall|watch: Watch| #[trigger]
                    watched(watch) && !pattern_fields_mention(*fields, watch.name)
                        ==> !pattern_fields_mention(*ahead, watch.name),
            decreases *ahead,
        {
            match ahead {
                List::Nil => {
                    self.report(
                        error(
                            "E3122",
                            words3("missing pattern for field `", declared.name, "`"),
                            span,
                        ),
                    );
                    return Pattern { kind: PatternKind::Wildcard, ty: declared.ty, span };
                },
                List::Cons(node) => {
                    if same(node.head.name.name, declared.name)
                    && !has_pattern(&node.tail, declared.name) {
                        return self.analyze_pattern_within(&node.head.pattern, declared.ty, fuel);
                    } else {
                        ahead = &node.tail;
                    }
                },
            }
        }
    }

    /// Whether a path of two names starts with the name of a type.
    pub(crate) fn is_qualified_by(&self, path: &Path<'a>, ty: Type) -> (answer: bool)
        ensures
            answer == self@.is_qualified_by(*path, ty),
    {
        reveal(State::is_qualified_by);
        match path_pair(path) {
            None => true,
            Some((owner, _)) => match self.types.definition(ty) {
                None => false,
                Some(definition) => match &definition.name {
                    Some(name) => reads(name, owner.name),
                    None => false,
                },
            },
        }
    }

    /// The variant that a path in a pattern names.
    pub(crate) fn resolve_pattern_variant(
        &mut self,
        expected: Type,
        path: &Path<'a>,
    ) -> (variant: Option<(u32, EnumVariantFields<'a>)>)
        ensures
            (final(self)@, variant) == old(self)@.resolve_pattern_variant(expected, *path),
            old(self)@.leads_to(final(self)@),
            old(self)@.stays(final(self)@),
            variant is None ==> final(self)@.troubled() || path.segments is Nil,
    {
        reveal(State::resolve_pattern_variant);
        if !is_enum_type(expected) {
            self.report(
                error(
                    "E3134",
                    frame("enum pattern is not valid for `", &expected.text(), "`"),
                    path.span,
                ),
            );
            return None;
        }
        match last_segment(&path.segments) {
            None => None,
            Some(name) => if path.segments.count() > 2 {
                self.report(
                    error(
                        "E3134",
                        frame("invalid enum pattern path `", &path.display(), "`"),
                        path.span,
                    ),
                );
                None
            } else if !self.is_qualified_by(path, expected) {
                self.report(
                    error(
                        "E3134",
                        cons(
                            Piece::Words("`"),
                            joined(
                                &path.display(),
                                frame("` is not a variant of `", &expected.text(), "`"),
                            ),
                        ),
                        path.span,
                    ),
                );
                None
            } else {
                match self.enum_variant(expected, name.name) {
                    Some(variant) => Some(variant),
                    None => {
                        self.report(
                            error(
                                "E3134",
                                frame("enum variant `", &path.display(), "` does not exist"),
                                path.span,
                            ),
                        );
                        None
                    },
                }
            },
        }
    }
}

} // verus!

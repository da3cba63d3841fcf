//! Names that stand for values.

use crate::analyzer::borrowing::known_is_found;
use crate::analyzer::sparing::{watched, Watch};
use crate::mention::path_mentions;
use crate::analyzer::{Analyzer, Binding, Frame, Signature, State, StaticSymbol};
use crate::analyzer::knowledge::{know, spec_know};
use crate::ast::{self, lone_name, path_pair, single_path_name, two_names, FloatLiteral, Path};
use crate::generics::{bound, find};
use crate::hir::{invalid_composite_expression, typed, Expression, ExpressionKind, LocalId};
use crate::list::{share, List};
use crate::numbers::integer_positive_maximum;
use crate::rendering::form_renders;
use crate::span::{advised, error, helped, Span};
use crate::syntax::{function_path_name, function_symbol};
use crate::text::{frame, framed, number, same, words, Text};
use crate::types::Type;
use crate::typing::{sound, sound_anywhere, sound_entry_is_found, sound_if_any, Scene};
use vstd::prelude::*;

verus! {

broadcast use {
    crate::analyzer::growth::group_led,
    crate::analyzer::numbering::group_numbered,
    crate::analyzer::sparing::group_spared,
    crate::registry::growth::group_grown,
    crate::rendering::group_rendered,
    crate::span::group_kept,
    crate::typing::group_sound,
};

/// Whether a path is `None`.
#[verifier::opaque]
pub open spec fn spec_is_none_path<'a>(path: Path<'a>) -> bool {
    match lone_name(path) {
        Some(name) => name@ == "None"@,
        None => false,
    }
}

/// Whether a path is `None`.
pub(crate) fn is_none_path<'a>(path: &Path<'a>) -> (answer: bool)
    ensures
        answer == spec_is_none_path(*path),
{
    reveal(spec_is_none_path);
    match single_path_name(path) {
        Some(name) => same(name, "None"),
        None => false,
    }
}

impl<'a> State<'a> {
    /// An integer where a type is expected.
    #[verifier::opaque]
    pub open spec fn analyze_integer_literal(
        self,
        value: u128,
        span: Span,
        expected: Option<Type>,
    ) -> (Self, Expression<'a>) {
        let ty = match expected {
            Some(expected) => if expected.is_integer() {
                expected
            } else {
                Type::I32
            },
            None => Type::I32,
        };
        let maximum: u128 = integer_positive_maximum(ty);
        if value <= maximum {
            (self, typed(ExpressionKind::Integer(value), ty, span))
        } else {
            let s = self.report(
                advised(
                    "E3104",
                    framed("integer literal does not fit in `", ty.text(), "`"),
                    framed("use a value no greater than ", number(maximum), ""),
                    span,
                ),
            );
            (s, typed(ExpressionKind::Integer(0), ty, span))
        }
    }

    /// A floating-point number where a type is expected.
    #[verifier::opaque]
    pub open spec fn analyze_float_literal(
        self,
        literal: FloatLiteral,
        span: Span,
        expected: Option<Type>,
    ) -> (Self, Expression<'a>) {
        let is_single = match expected {
            Some(Type::F32) => true,
            _ => false,
        };
        if !is_single {
            (self, typed(ExpressionKind::Float64(literal.bits), Type::F64, span))
        } else {
            match literal.single {
                Some(single) => (self, typed(ExpressionKind::Float32(single), Type::F32, span)),
                None => {
                    let s = self.report(
                        error("E3104", words("floating-point literal does not fit in `f32`"), span),
                    );
                    (s, typed(ExpressionKind::Float32(0), Type::F32, span))
                },
            }
        }
    }

    /// A path where a type is expected.
    #[verifier::opaque]
    pub open spec fn analyze_path(
        self,
        path: Path<'a>,
        expected: Option<Type>,
    ) -> (Self, Expression<'a>) {
        match self.lookup_path(path) {
            Some(binding) => self.analyze_local_path(binding, path.span),
            None => match self.static_at(path) {
                Some(value) => self.analyze_static_path(value, path, expected),
                None => match self.analyze_const_path(path, expected) {
                    (s, Some(constant)) => (s, constant),
                    (s, None) => s.analyze_variant_path(path, expected),
                },
            },
        }
    }

    /// The static that a path names.
    #[verifier::opaque]
    pub open spec fn static_at(self, path: Path<'a>) -> Option<StaticSymbol> {
        match lone_name(path) {
            Some(name) => self.static_of(name),
            None => None,
        }
    }

    /// The variant without payload of an expected `Option` or `Result`.
    #[verifier::opaque]
    pub open spec fn expected_variant(
        self,
        path: Path<'a>,
        expected: Option<Type>,
    ) -> Option<(u32, Type)> {
        match expected {
            None => None,
            Some(expected) => match lone_name(path) {
                None => None,
                Some(name) => if self.intrinsic(expected).is_some() {
                    match self.unit_variant(expected, name) {
                        Some(variant) => Some((variant, expected)),
                        None => None,
                    }
                } else {
                    None
                },
            },
        }
    }

    /// The variant without payload that a path of two names stands for.
    #[verifier::opaque]
    pub open spec fn qualified_variant(self, path: Path<'a>) -> Option<(u32, Type)> {
        match two_names(path) {
            None => None,
            Some((owner, name)) => match self.named_enum(owner.name) {
                None => None,
                Some(ty) => match self.unit_variant(ty, name.name) {
                    Some(variant) => Some((variant, ty)),
                    None => None,
                },
            },
        }
    }

    /// A path that stands for a variant without payload or a function.
    #[verifier::opaque]
    pub open spec fn analyze_variant_path(
        self,
        path: Path<'a>,
        expected: Option<Type>,
    ) -> (Self, Expression<'a>) {
        match self.expected_variant(path, expected) {
            Some((variant, ty)) => (
                self,
                typed(ExpressionKind::Enum { variant, fields: List::Nil }, ty, path.span),
            ),
            None => if spec_is_none_path(path) {
                let s = self.report(
                    helped(
                        "E3139",
                        words("`None` requires an expected `Option<T>` type"),
                        "add an `Option<T>` type annotation or use `None` in a typed context",
                        path.span,
                    ),
                );
                (s, invalid_composite_expression(path.span))
            } else {
                match self.qualified_variant(path) {
                    Some((variant, ty)) => (
                        self,
                        typed(ExpressionKind::Enum { variant, fields: List::Nil }, ty, path.span),
                    ),
                    None => self.analyze_function_path(path, expected),
                }
            },
        }
    }

    /// The name and the signature of the function that a path stands for.
    #[verifier::opaque]
    pub open spec fn function_at(self, path: Path<'a>) -> Option<(Text<'a>, Signature)> {
        match function_symbol(path) {
            None => None,
            Some(name) => match self.signature_of(name) {
                None => None,
                Some(signature) => Some((name, signature)),
            },
        }
    }

    /// A path that stands for a function.
    #[verifier::opaque]
    pub open spec fn analyze_function_path(
        self,
        path: Path<'a>,
        expected: Option<Type>,
    ) -> (Self, Expression<'a>) {
        match self.function_at(path) {
            Some((name, signature)) => {
                let s = self.validate_function_access(path, path.span, name, signature);
                let (s, interned) = s.intern_function(
                    signature.parameter_types,
                    signature.return_type,
                    path.span,
                );
                let ty = match interned {
                    Some(ty) => ty,
                    None => Type::Unit,
                };
                let s = s.require_expected(expected, ty, path.span, "function value");
                (s, typed(ExpressionKind::Function(signature.id), ty, path.span))
            },
            None => {
                let s = self.report(
                    helped(
                        "E3102",
                        framed("cannot resolve value `", path.display(), "`"),
                        "declare a local binding before using it",
                        path.span,
                    ),
                );
                (s, invalid_composite_expression(path.span))
            },
        }
    }

    /// Whether a path of two names starts with a type of another module.
    #[verifier::opaque]
    pub open spec fn has_external_owner(self, path: Path<'a>) -> bool {
        match two_names(path) {
            None => false,
            Some((owner, _)) => match self.named_type(owner.name) {
                Some(ty) => self.type_is_external(ty),
                None => false,
            },
        }
    }

    /// A function must be visible, and a foreign one must stand in `unsafe`.
    #[verifier::opaque]
    pub open spec fn validate_function_access(
        self,
        path: Path<'a>,
        span: Span,
        resolved_name: Text<'a>,
        signature: Signature,
    ) -> Self {
        let s = if signature.requires_unsafe && self.frame.unsafe_depth == 0 {
            let s = self.report(
                helped(
                    "E5002",
                    framed(
                        "native function `",
                        resolved_name,
                        "` can only be called inside `unsafe`",
                    ),
                    "review the binding contract and wrap the call in `unsafe { ... }`",
                    span,
                ),
            );
            s
        } else {
            self
        };
        if !signature.is_public && s.has_external_owner(path) {
            let s = s.report(
                helped(
                    "E4005",
                    framed("associated function `", resolved_name, "` is private"),
                    "mark the associated function `pub`",
                    path.span,
                ),
            );
            s
        } else {
            s
        }
    }

    /// The value of a static.
    #[verifier::opaque]
    pub open spec fn analyze_static_path(
        self,
        value: StaticSymbol,
        path: Path<'a>,
        expected: Option<Type>,
    ) -> (Self, Expression<'a>) {
        let s = self.require_static_access(value, path.span);
        let s = if s.frame.consuming_value && !s.types.is_copy(value.ty) {
            let s = s.report(
                helped(
                    "E3144",
                    framed("cannot move a value out of static `", path.display(), "`"),
                    "borrow the static value or copy one of its `Copy` fields",
                    path.span,
                ),
            );
            s
        } else {
            s
        };
        let s = s.require_expected(expected, value.ty, path.span, "static value");
        (s, typed(ExpressionKind::Static(value.id), value.ty, path.span))
    }

    /// A mutable static must stand in `unsafe`.
    #[verifier::opaque]
    pub open spec fn require_static_access(self, value: StaticSymbol, span: Span) -> Self {
        if value.mutable && self.frame.unsafe_depth == 0 {
            let s = self.report(
                helped(
                    "E3156",
                    words("mutable static storage can only be accessed inside `unsafe`"),
                    "wrap the access in `unsafe { ... }` or use atomics, locks, or an encapsulated synchronization API",
                    span,
                ),
            );
            s
        } else {
            self
        }
    }

    /// The value of a local variable.
    #[verifier::opaque]
    pub open spec fn analyze_local_path(
        self,
        binding: Binding,
        span: Span,
    ) -> (Self, Expression<'a>) {
        let s = self.require_local_available(binding, span, self.frame.field_base_depth == 0);
        let s = if s.borrow_state(binding.local).mutable {
            let s = s.report(
                helped(
                    "E3138",
                    words("cannot read a value while it is mutably borrowed"),
                    "read through the mutable reference instead",
                    span,
                ),
            );
            s
        } else {
            s
        };
        let s = s.use_local(binding, span);
        (s, typed(ExpressionKind::Local(binding.local), binding.ty, span))
    }

    /// A local variable is used: by a deferred action, or by moving it.
    #[verifier::opaque]
    pub open spec fn use_local(self, binding: Binding, span: Span) -> Self {
        let implicit_reborrow = self.frame.reborrow_argument
            && self.types.is_mutable_view(binding.ty);
        let consuming = self.frame.consuming_value && !implicit_reborrow;
        if !self.types.is_copy(binding.ty) {
            if self.frame.defer_depth > 0 {
                let s = self.record_deferred_use(binding.local, span, consuming);
                s
            } else if consuming {
                let s = self.move_unborrowed(binding.local, span);
                s
            } else {
                self
            }
        } else {
            self
        }
    }

    /// A local variable is moved. It must not be borrowed.
    #[verifier::opaque]
    pub open spec fn move_unborrowed(self, local: LocalId, span: Span) -> Self {
        let state = self.borrow_state(local);
        let s = if state.mutable || state.shared != 0 {
            let s = self.report(
                helped(
                    "E3138",
                    words("cannot move a value while it is borrowed"),
                    "let the reference scope end before moving the value",
                    span,
                ),
            );
            s
        } else {
            self
        };
        match s.require_not_reserved_by_defer(local, span) {
            (s, true) => {
                let s = State {
                    frame: Frame {
                        moved_locals: spec_know(s.frame.moved_locals, local, span),
                        ..s.frame
                    },
                    ..s
                };
                s
            },
            (s, false) => s,
        }
    }

    /// The declared constant of that name.
    #[verifier::opaque]
    pub open spec fn constant_of(self, name: &str) -> Option<Expression<'a>> {
        match bound(self.types.constants, name@) {
            Some(constant) => Some(constant),
            None => None,
        }
    }

    /// The value of a generic parameter that stands for a number.
    #[verifier::opaque]
    pub open spec fn generic_constant(self, name: &str) -> Option<u64> {
        match bound(self.frame.environment.constants, name@) {
            Some(value) => Some(value),
            None => None,
        }
    }

    /// A path that stands for a constant.
    #[verifier::opaque]
    pub open spec fn analyze_const_path(
        self,
        path: Path<'a>,
        expected: Option<Type>,
    ) -> (Self, Option<Expression<'a>>) {
        match lone_name(path) {
            None => (self, None),
            Some(name) => match self.generic_constant(name) {
                Some(value) => {
                    let wanted = match expected {
                        Some(expected) => Some(expected),
                        None => Some(Type::Usize),
                    };
                    let (s, literal) = self.analyze_integer_literal(
                        value as u128,
                        path.span,
                        wanted,
                    );
                    (s, Some(literal))
                },
                None => match self.constant_of(name) {
                    None => (self, None),
                    Some(constant) => {
                        let s = self.require_expected(
                            expected,
                            constant.ty,
                            path.span,
                            "constant value",
                        );
                        (
                            s,
                            Some(
                                Expression {
                                    kind: constant.kind,
                                    ty: constant.ty,
                                    span: path.span,
                                },
                            ),
                        )
                    },
                },
            },
        }
    }
}

impl<'a> Analyzer<'a> {
    /// An integer where a type is expected.
    pub(crate) fn analyze_integer_literal(
        &mut self,
        value: u128,
        span: Span,
        expected: Option<Type>,
    ) -> (analyzed: Expression<'a>)
        ensures
            (final(self)@, analyzed) == old(self)@.analyze_integer_literal(value, span, expected),
            old(self)@.leads_to(final(self)@),
            old(self)@.stays(final(self)@),
            forall|scene: Scene| #[trigger]
                final(self)@.admits(scene) && old(self)@.prepared()
                    ==> final(self)@.troubled() || sound(analyzed, scene),
            final(self)@.troubled() || *analyzed.kind == ExpressionKind::Integer(value),
    {
        reveal(State::analyze_integer_literal);
        let ty = match expected {
            Some(expected) => if expected.is_integer() {
                expected
            } else {
                Type::I32
            },
            None => Type::I32,
        };
        let maximum: u128 = integer_positive_maximum(ty);
        if value <= maximum {
            return typed(ExpressionKind::Integer(value), ty, span);
        }
        self.report(
            advised(
                "E3104",
                frame("integer literal does not fit in `", &ty.text(), "`"),
                frame("use a value no greater than ", &number(maximum), ""),
                span,
            ),
        );
        typed(ExpressionKind::Integer(0), ty, span)
    }

    /// A floating-point number where a type is expected.
    pub(crate) fn analyze_float_literal(
        &mut self,
        literal: FloatLiteral,
        span: Span,
        expected: Option<Type>,
    ) -> (analyzed: Expression<'a>)
        ensures
            (final(self)@, analyzed) == old(self)@.analyze_float_literal(literal, span, expected),
            old(self)@.leads_to(final(self)@),
            old(self)@.stays(final(self)@),
            forall|scene: Scene| #[trigger]
                final(self)@.admits(scene) && old(self)@.prepared()
                    ==> final(self)@.troubled() || sound(analyzed, scene),
            final(self)@.troubled() || form_renders(ast::ExpressionKind::Float(literal), analyzed),
    {
        reveal(State::analyze_float_literal);
        let is_single = match expected {
            Some(Type::F32) => true,
            _ => false,
        };
        if !is_single {
            return typed(ExpressionKind::Float64(literal.bits), Type::F64, span);
        }
        match literal.single {
            Some(single) => typed(ExpressionKind::Float32(single), Type::F32, span),
            None => {
                self.report(
                    error("E3104", words("floating-point literal does not fit in `f32`"), span),
                );
                typed(ExpressionKind::Float32(0), Type::F32, span)
            },
        }
    }

    /// A path where a type is expected.
    pub(crate) fn analyze_path(
        &mut self,
        path: &Path<'a>,
        expected: Option<Type>,
    ) -> (analyzed: Expression<'a>)
        ensures
            (final(self)@, analyzed) == old(self)@.analyze_path(*path, expected),
            old(self)@.leads_to(final(self)@),
            forall|watch: Watch| #[trigger]
                watched(watch) && old(self)@.is_apart(watch) && !path_mentions(*path, watch.name)
                    ==> old(self)@.spares(final(self)@, watch),
            forall|scene: Scene| #[trigger]
                final(self)@.admits(scene) && old(self)@.prepared()
                    ==> final(self)@.troubled() || sound(analyzed, scene),
    {
        reveal(State::analyze_path);
        match self.lookup_path(path) {
            Some(binding) => self.analyze_local_path(binding, path.span),
            None => match self.static_at(path) {
                Some(value) => self.analyze_static_path(value, path, expected),
                None => match self.analyze_const_path(path, expected) {
                    Some(constant) => constant,
                    None => self.analyze_variant_path(path, expected),
                },
            },
        }
    }

    /// The static that a path names.
    pub(crate) fn static_at(&self, path: &Path<'a>) -> (value: Option<StaticSymbol>)
        ensures
            value == self@.static_at(*path),
    {
        reveal(State::static_at);
        match single_path_name(path) {
            Some(name) => self.static_of(name),
            None => None,
        }
    }

    /// The variant without payload of an expected `Option` or `Result`.
    pub(crate) fn expected_variant(
        &self,
        path: &Path<'a>,
        expected: Option<Type>,
    ) -> (variant: Option<(u32, Type)>)
        ensures
            variant == self@.expected_variant(*path, expected),
    {
        reveal(State::expected_variant);
        match expected {
            None => None,
            Some(expected) => match single_path_name(path) {
                None => None,
                Some(name) => if self.intrinsic(expected).is_some() {
                    match self.unit_variant(expected, name) {
                        Some(variant) => Some((variant, expected)),
                        None => None,
                    }
                } else {
                    None
                },
            },
        }
    }

    /// The variant without payload that a path of two names stands for.
    pub(crate) fn qualified_variant(&self, path: &Path<'a>) -> (variant: Option<(u32, Type)>)
        ensures
            variant == self@.qualified_variant(*path),
    {
        reveal(State::qualified_variant);
        match path_pair(path) {
            None => None,
            Some((owner, name)) => match self.named_enum(owner.name) {
                None => None,
                Some(ty) => match self.unit_variant(ty, name.name) {
                    Some(variant) => Some((variant, ty)),
                    None => None,
                },
            },
        }
    }

    /// A path that stands for a variant without payload or a function.
    pub(crate) fn analyze_variant_path(
        &mut self,
        path: &Path<'a>,
        expected: Option<Type>,
    ) -> (analyzed: Expression<'a>)
        ensures
            (final(self)@, analyzed) == old(self)@.analyze_variant_path(*path, expected),
            old(self)@.leads_to(final(self)@),
            old(self)@.stays(final(self)@),
            forall|scene: Scene| #[trigger]
                final(self)@.admits(scene) && old(self)@.prepared()
                    ==> final(self)@.troubled() || sound(analyzed, scene),
    {
        reveal(State::analyze_variant_path);
        match self.expected_variant(path, expected) {
            Some((variant, ty)) => typed(
                ExpressionKind::Enum { variant, fields: List::Nil },
                ty,
                path.span,
            ),
            None => if is_none_path(path) {
                self.report(
                    helped(
                        "E3139",
                        words("`None` requires an expected `Option<T>` type"),
                        "add an `Option<T>` type annotation or use `None` in a typed context",
                        path.span,
                    ),
                );
                invalid_composite_expression(path.span)
            } else {
                match self.qualified_variant(path) {
                    Some((variant, ty)) => typed(
                        ExpressionKind::Enum { variant, fields: List::Nil },
                        ty,
                        path.span,
                    ),
                    None => self.analyze_function_path(path, expected),
                }
            },
        }
    }

    /// The name and the signature of the function that a path stands for.
    pub(crate) fn function_at(&self, path: &Path<'a>) -> (function: Option<(Text<'a>, Signature)>)
        ensures
            function == self@.function_at(*path),
    {
        reveal(State::function_at);
        match function_path_name(path) {
            None => None,
            Some(name) => match self.signature_of(&name) {
                None => None,
                Some(signature) => Some((name, signature)),
            },
        }
    }

    /// A path that stands for a function.
    pub(crate) fn analyze_function_path(
        &mut self,
        path: &Path<'a>,
        expected: Option<Type>,
    ) -> (analyzed: Expression<'a>)
        ensures
            (final(self)@, analyzed) == old(self)@.analyze_function_path(*path, expected),
            old(self)@.leads_to(final(self)@),
            old(self)@.stays(final(self)@),
            forall|scene: Scene| #[trigger]
                final(self)@.admits(scene) && old(self)@.prepared()
                    ==> final(self)@.troubled() || sound(analyzed, scene),
    {
        reveal(State::analyze_function_path);
        match self.function_at(path) {
            Some((name, signature)) => {
                self.validate_function_access(path, path.span, &name, &signature);
                let interned = self.intern_function(
                    signature.parameter_types.share(),
                    signature.return_type,
                    path.span,
                );
                let ty = match interned {
                    Some(ty) => ty,
                    None => Type::Unit,
                };
                self.require_expected(expected, ty, path.span, "function value");
                typed(ExpressionKind::Function(signature.id), ty, path.span)
            },
            None => {
                self.report(
                    helped(
                        "E3102",
                        frame("cannot resolve value `", &path.display(), "`"),
                        "declare a local binding before using it",
                        path.span,
                    ),
                );
                invalid_composite_expression(path.span)
            },
        }
    }

    /// Whether a path of two names starts with a type of another module.
    pub(crate) fn has_external_owner(&self, path: &Path<'a>) -> (answer: bool)
        ensures
            answer == self@.has_external_owner(*path),
    {
        reveal(State::has_external_owner);
        match path_pair(path) {
            None => false,
            Some((owner, _)) => match self.named_type(owner.name) {
                Some(ty) => self.type_is_external(ty),
                None => false,
            },
        }
    }

    /// A function must be visible, and a foreign one must stand in `unsafe`.
    pub(crate) fn validate_function_access(
        &mut self,
        path: &Path<'a>,
        span: Span,
        resolved_name: &Text<'a>,
        signature: &Signature,
    )
        ensures
            final(self)@ == old(self)@.validate_function_access(
                *path,
                span,
                *resolved_name,
                *signature,
            ),
            old(self)@.leads_to(final(self)@),
            old(self)@.stays(final(self)@),
    {
        reveal(State::validate_function_access);
        if signature.requires_unsafe && self.frame.unsafe_depth == 0 {
            self.report(
                helped(
                    "E5002",
                    frame(
                        "native function `",
                        resolved_name,
                        "` can only be called inside `unsafe`",
                    ),
                    "review the binding contract and wrap the call in `unsafe { ... }`",
                    span,
                ),
            );
        }
        if !signature.is_public && self.has_external_owner(path) {
            self.report(
                helped(
                    "E4005",
                    frame("associated function `", resolved_name, "` is private"),
                    "mark the associated function `pub`",
                    path.span,
                ),
            );
        }
    }

    /// The value of a static.
    pub(crate) fn analyze_static_path(
        &mut self,
        value: StaticSymbol,
        path: &Path<'a>,
        expected: Option<Type>,
    ) -> (analyzed: Expression<'a>)
        ensures
            (final(self)@, analyzed) == old(self)@.analyze_static_path(value, *path, expected),
            old(self)@.leads_to(final(self)@),
            old(self)@.stays(final(self)@),
            forall|scene: Scene| #[trigger]
                final(self)@.admits(scene) && old(self)@.prepared()
                    ==> final(self)@.troubled() || sound(analyzed, scene),
    {
        reveal(State::analyze_static_path);
        self.require_static_access(value, path.span);
        if self.frame.consuming_value && !self.types.is_copy(value.ty) {
            self.report(
                helped(
                    "E3144",
                    frame("cannot move a value out of static `", &path.display(), "`"),
                    "borrow the static value or copy one of its `Copy` fields",
                    path.span,
                ),
            );
        }
        self.require_expected(expected, value.ty, path.span, "static value");
        typed(ExpressionKind::Static(value.id), value.ty, path.span)
    }

    /// A mutable static must stand in `unsafe`.
    pub(crate) fn require_static_access(&mut self, value: StaticSymbol, span: Span)
        ensures
            final(self)@ == old(self)@.require_static_access(value, span),
            old(self)@.leads_to(final(self)@),
            old(self)@.stays(final(self)@),
    {
        reveal(State::require_static_access);
        if value.mutable && self.frame.unsafe_depth == 0 {
            self.report(
                helped(
                    "E3156",
                    words("mutable static storage can only be accessed inside `unsafe`"),
                    "wrap the access in `unsafe { ... }` or use atomics, locks, or an encapsulated synchronization API",
                    span,
                ),
            );
        }
    }

    /// The value of a local variable.
    pub(crate) fn analyze_local_path(
        &mut self,
        binding: Binding,
        span: Span,
    ) -> (analyzed: Expression<'a>)
        ensures
            (final(self)@, analyzed) == old(self)@.analyze_local_path(binding, span),
            old(self)@.leads_to(final(self)@),
            forall|watch: Watch| #[trigger]
                watched(watch) && old(self)@.is_apart(watch) && binding.local != watch.local
                    ==> old(self)@.spares(final(self)@, watch),
            forall|scene: Scene| #[trigger]
                final(self)@.admits(scene) && old(self)@.prepared()
                    ==> final(self)@.troubled() || sound(analyzed, scene),
    {
        reveal(State::analyze_local_path);
        self.require_local_available(binding, span, self.frame.field_base_depth == 0);
        if self.borrow_state(binding.local).mutable {
            self.report(
                helped(
                    "E3138",
                    words("cannot read a value while it is mutably borrowed"),
                    "read through the mutable reference instead",
                    span,
                ),
            );
        }
        self.use_local(binding, span);
        typed(ExpressionKind::Local(binding.local), binding.ty, span)
    }

    /// A local variable is used: by a deferred action, or by moving it.
    pub(crate) fn use_local(&mut self, binding: Binding, span: Span)
        ensures
            final(self)@ == old(self)@.use_local(binding, span),
            old(self)@.leads_to(final(self)@),
            forall|watch: Watch| #[trigger]
                watched(watch) && old(self)@.is_apart(watch) && binding.local != watch.local
                    ==> old(self)@.spares(final(self)@, watch),
    {
        reveal(State::use_local);
        let implicit_reborrow = self.frame.reborrow_argument
            && self.types.is_mutable_view(binding.ty);
        let consuming = self.frame.consuming_value && !implicit_reborrow;
        if !self.types.is_copy(binding.ty) {
            if self.frame.defer_depth > 0 {
                self.record_deferred_use(binding.local, span, consuming);
            } else if consuming {
                self.move_unborrowed(binding.local, span);
            }
        }
    }

    /// A local variable is moved. It must not be borrowed.
    pub(crate) fn move_unborrowed(&mut self, local: LocalId, span: Span)
        ensures
            final(self)@ == old(self)@.move_unborrowed(local, span),
            old(self)@.leads_to(final(self)@),
            forall|watch: Watch| #[trigger]
                watched(watch) && old(self)@.is_apart(watch) && local != watch.local
                    ==> old(self)@.spares(final(self)@, watch),
    {
        reveal(State::move_unborrowed);
        reveal(State::leads_to);
        let state = self.borrow_state(local);
        if state.mutable || state.shared != 0 {
            self.report(
                helped(
                    "E3138",
                    words("cannot move a value while it is borrowed"),
                    "let the reference scope end before moving the value",
                    span,
                ),
            );
        }
        if self.require_not_reserved_by_defer(local, span) {
            let ghost before = self@;
            self.frame.moved_locals = know(&self.frame.moved_locals, local, span);
            assert forall|watch: Watch| #[trigger]
                watched(watch) && before.is_apart(watch) && local
                    != watch.local implies before.spares(self@, watch) by {
                reveal(State::is_apart);
                reveal(State::spares);
                known_is_found(before.frame.moved_locals, local, span, watch.local);
            }
        }
    }

    /// The declared constant of that name.
    pub(crate) fn constant_of(&self, name: &str) -> (constant: Option<Expression<'a>>)
        ensures
            constant == self@.constant_of(name),
            forall|scene: Scene| #[trigger]
                self@.admits(scene) && self@.prepared() ==> sound_if_any(constant, scene),
    {
        reveal(State::constant_of);
        reveal(State::prepared);
        proof {
            if self@.prepared() && bound(self@.types.constants, name@) is Some {
                sound_entry_is_found(self@.types.constants, name@);
            }
        }
        match find(&self.types.constants, name) {
            Some(constant) => Some(constant.share()),
            None => None,
        }
    }

    /// The value of a generic parameter that stands for a number.
    pub(crate) fn generic_constant(&self, name: &str) -> (value: Option<u64>)
        ensures
            value == self@.generic_constant(name),
    {
        reveal(State::generic_constant);
        match find(&self.frame.environment.constants, name) {
            Some(value) => Some(*value),
            None => None,
        }
    }

    /// A path that stands for a constant.
    pub(crate) fn analyze_const_path(
        &mut self,
        path: &Path<'a>,
        expected: Option<Type>,
    ) -> (analyzed: Option<Expression<'a>>)
        ensures
            (final(self)@, analyzed) == old(self)@.analyze_const_path(*path, expected),
            old(self)@.leads_to(final(self)@),
            old(self)@.stays(final(self)@),
            forall|scene: Scene| #[trigger]
                final(self)@.admits(scene) && old(self)@.prepared()
                    ==> final(self)@.troubled() || sound_if_any(analyzed, scene),
    {
        reveal(State::analyze_const_path);
        match single_path_name(path) {
            None => None,
            Some(name) => match self.generic_constant(name) {
                Some(value) => {
                    let wanted = match expected {
                        Some(expected) => Some(expected),
                        None => Some(Type::Usize),
                    };
                    let literal = self.analyze_integer_literal(value as u128, path.span, wanted);
                    Some(literal)
                },
                None => match self.constant_of(name) {
                    None => None,
                    Some(constant) => {
                        self.require_expected(expected, constant.ty, path.span, "constant value");
                        proof {
                            sound_anywhere(constant, path.span);
                        }
                        Some(
                            Expression {
                                kind: share(&constant.kind),
                                ty: constant.ty,
                                span: path.span,
                            },
                        )
                    },
                },
            },
        }
    }
}

} // verus!

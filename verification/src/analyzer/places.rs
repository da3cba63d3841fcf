//! Places: what can be assigned to and borrowed.

use crate::analyzer::laws::{named_place_is_kept, spared_variable_is_assigned, variable};
use crate::analyzer::sparing::{watched, Watch};
use crate::mention::{index_mentions, mentions, path_mentions};
use crate::analyzer::{Analyzer, Binding, PlaceAvailability, State, StaticSymbol};
use crate::ast::{self, lone_name, single_path_name, Path, TypeName};
use crate::hir::{
    invalid_composite_expression, typed, AssignmentOperator, Expression, ExpressionKind, LocalId,
    Place, PlaceKind,
};
use crate::list::{append, cons, List};
use crate::numbers::is_valid_cast;
use crate::rendering::{form_renders, place_renders, renders_by_form, stores, stores_the_same};
use crate::span::{advised, error, helped, Span};
use crate::syntax::{assignment_root, assignment_root_path};
use crate::text::{frame, framed, joined, words, words3, Piece};
use crate::types::Type;
use crate::typing::{
    sound, sound_expression_has_sound_parts, sound_place, sound_place_if_any, Scene,
};
use vstd::prelude::*;

verus! {

broadcast use {
    crate::analyzer::growth::group_led,
    crate::analyzer::numbering::group_numbered,
    crate::analyzer::sparing::group_spared,
    crate::registry::growth::group_grown,
    crate::rendering::group_rendered,
    crate::span::group_kept,
    crate::typing::group_sound,
};

/// The place of a field access.
#[verifier::opaque]
pub open spec fn spec_field_place_of<'a>(analyzed: Expression<'a>) -> Option<Place<'a>> {
    match *analyzed.kind {
        ExpressionKind::Field { base, field } => Some(
            Place { kind: PlaceKind::Field { base, field }, ty: analyzed.ty, span: analyzed.span },
        ),
        _ => None,
    }
}

/// The place of a field access.
pub(crate) fn field_place_of<'a>(analyzed: &Expression<'a>) -> (place: Option<Place<'a>>)
    ensures
        match place {
            Some(found) => !(found.kind is Local),
            None => true,
        },
        place == spec_field_place_of(*analyzed),
        forall|scene: Scene|
            sound(*analyzed, scene) ==> #[trigger] sound_place_if_any(place, scene),
{
    reveal(spec_field_place_of);
    proof {
        sound_expression_has_sound_parts(*analyzed);
    }
    match &*analyzed.kind {
        ExpressionKind::Field { base, field } => Some(
            Place {
                kind: PlaceKind::Field { base: base.share(), field: *field },
                ty: analyzed.ty,
                span: analyzed.span,
            },
        ),
        _ => None,
    }
}

/// The place of an access by index.
#[verifier::opaque]
pub open spec fn spec_index_place_of<'a>(analyzed: Expression<'a>) -> Option<Place<'a>> {
    match *analyzed.kind {
        ExpressionKind::Index { base, index } => Some(
            Place { kind: PlaceKind::Index { base, index }, ty: analyzed.ty, span: analyzed.span },
        ),
        _ => None,
    }
}

/// The place of an access by index.
pub(crate) fn index_place_of<'a>(analyzed: &Expression<'a>) -> (place: Option<Place<'a>>)
    ensures
        match place {
            Some(found) => !(found.kind is Local),
            None => true,
        },
        place == spec_index_place_of(*analyzed),
        match *analyzed.kind {
            ExpressionKind::Index { base, index } => place is Some && place->0.kind
                == (PlaceKind::Index { base, index }),
            _ => place is None,
        },
        forall|scene: Scene|
            sound(*analyzed, scene) ==> #[trigger] sound_place_if_any(place, scene),
{
    reveal(spec_index_place_of);
    proof {
        sound_expression_has_sound_parts(*analyzed);
    }
    match &*analyzed.kind {
        ExpressionKind::Index { base, index } => Some(
            Place {
                kind: PlaceKind::Index { base: base.share(), index: index.share() },
                ty: analyzed.ty,
                span: analyzed.span,
            },
        ),
        _ => None,
    }
}

/// The place that a pointer leads to.
#[verifier::opaque]
pub open spec fn spec_pointer_place_of<'a>(analyzed: Expression<'a>) -> Option<Place<'a>> {
    match *analyzed.kind {
        ExpressionKind::Dereference(pointer) => Some(
            Place {
                kind: PlaceKind::Dereference { pointer },
                ty: analyzed.ty,
                span: analyzed.span,
            },
        ),
        _ => None,
    }
}

/// The place that a pointer leads to.
pub(crate) fn pointer_place_of<'a>(analyzed: &Expression<'a>) -> (place: Option<Place<'a>>)
    ensures
        match place {
            Some(found) => !(found.kind is Local),
            None => true,
        },
        place == spec_pointer_place_of(*analyzed),
        forall|scene: Scene|
            sound(*analyzed, scene) ==> #[trigger] sound_place_if_any(place, scene),
{
    reveal(spec_pointer_place_of);
    proof {
        sound_expression_has_sound_parts(*analyzed);
    }
    match &*analyzed.kind {
        ExpressionKind::Dereference(pointer) => Some(
            Place {
                kind: PlaceKind::Dereference { pointer: pointer.share() },
                ty: analyzed.ty,
                span: analyzed.span,
            },
        ),
        _ => None,
    }
}

/// Whether an expression dereferences another.
#[verifier::opaque]
pub open spec fn spec_dereferenced_operand<'a>(
    expression: ast::Expression<'a>,
) -> Option<ast::Expression<'a>> {
    match *expression.kind {
        ast::ExpressionKind::Unary { operator, operand } => if operator == ast::UnaryOperator::Dereference {
            Some(operand)
        } else {
            None
        },
        _ => None,
    }
}

/// Whether an expression dereferences another.
pub(crate) fn dereferenced_operand<'a>(
    expression: &ast::Expression<'a>,
) -> (operand: Option<ast::Expression<'a>>)
    ensures
        operand == spec_dereferenced_operand(*expression),
        forall|watch: Watch| #[trigger]
            watched(watch) && !mentions(*expression, watch.name) ==> match operand {
                Some(found) => !mentions(found, watch.name),
                None => true,
            },
{
    reveal(spec_dereferenced_operand);
    match &*expression.kind {
        ast::ExpressionKind::Unary { operator, operand } => if *operator == ast::UnaryOperator::Dereference {
            Some(operand.share())
        } else {
            None
        },
        _ => None,
    }
}

/// The path that an expression starts from.
#[verifier::opaque]
pub open spec fn spec_root_path<'a>(expression: ast::Expression<'a>) -> Option<Path<'a>> {
    assignment_root(expression)
}

/// The path that an expression starts from.
pub(crate) fn root_path<'a>(expression: &ast::Expression<'a>) -> (path: Option<Path<'a>>)
    ensures
        path == spec_root_path(*expression),
{
    reveal(spec_root_path);
    assignment_root_path(expression)
}

/// The typed operator of an assignment.
#[verifier::opaque]
pub open spec fn spec_typed_assignment(operator: ast::AssignmentOperator) -> AssignmentOperator {
    match operator {
        ast::AssignmentOperator::Assign => AssignmentOperator::Assign,
        ast::AssignmentOperator::Add => AssignmentOperator::Add,
        ast::AssignmentOperator::Subtract => AssignmentOperator::Subtract,
        ast::AssignmentOperator::Multiply => AssignmentOperator::Multiply,
        ast::AssignmentOperator::Divide => AssignmentOperator::Divide,
        ast::AssignmentOperator::Remainder => AssignmentOperator::Remainder,
        ast::AssignmentOperator::BitAnd => AssignmentOperator::BitAnd,
        ast::AssignmentOperator::BitXor => AssignmentOperator::BitXor,
        ast::AssignmentOperator::BitOr => AssignmentOperator::BitOr,
        ast::AssignmentOperator::ShiftLeft => AssignmentOperator::ShiftLeft,
        ast::AssignmentOperator::ShiftRight => AssignmentOperator::ShiftRight,
    }
}

/// The typed operator of an assignment.
pub(crate) fn typed_assignment(
    operator: ast::AssignmentOperator,
) -> (typed_operator: AssignmentOperator)
    ensures
        typed_operator == spec_typed_assignment(operator),
        stores_the_same(operator, typed_operator),
{
    reveal(spec_typed_assignment);
    reveal(stores_the_same);
    match operator {
        ast::AssignmentOperator::Assign => AssignmentOperator::Assign,
        ast::AssignmentOperator::Add => AssignmentOperator::Add,
        ast::AssignmentOperator::Subtract => AssignmentOperator::Subtract,
        ast::AssignmentOperator::Multiply => AssignmentOperator::Multiply,
        ast::AssignmentOperator::Divide => AssignmentOperator::Divide,
        ast::AssignmentOperator::Remainder => AssignmentOperator::Remainder,
        ast::AssignmentOperator::BitAnd => AssignmentOperator::BitAnd,
        ast::AssignmentOperator::BitXor => AssignmentOperator::BitXor,
        ast::AssignmentOperator::BitOr => AssignmentOperator::BitOr,
        ast::AssignmentOperator::ShiftLeft => AssignmentOperator::ShiftLeft,
        ast::AssignmentOperator::ShiftRight => AssignmentOperator::ShiftRight,
    }
}

/// Whether an assignment operator is defined for a type.
#[verifier::opaque]
pub open spec fn spec_is_assignable(operator: AssignmentOperator, ty: Type) -> bool {
    match operator {
        AssignmentOperator::Assign => true,
        AssignmentOperator::Add => ty.is_numeric(),
        AssignmentOperator::Subtract => ty.is_numeric(),
        AssignmentOperator::Multiply => ty.is_numeric(),
        AssignmentOperator::Divide => ty.is_numeric(),
        AssignmentOperator::Remainder => ty.is_integer(),
        AssignmentOperator::BitAnd => ty.is_integer(),
        AssignmentOperator::BitXor => ty.is_integer(),
        AssignmentOperator::BitOr => ty.is_integer(),
        AssignmentOperator::ShiftLeft => ty.is_integer(),
        AssignmentOperator::ShiftRight => ty.is_integer(),
    }
}

/// Whether an assignment operator is defined for a type.
pub(crate) fn is_assignable(operator: AssignmentOperator, ty: Type) -> (answer: bool)
    ensures
        answer == spec_is_assignable(operator, ty),
{
    reveal(spec_is_assignable);
    match operator {
        AssignmentOperator::Assign => true,
        AssignmentOperator::Add => ty.is_numeric(),
        AssignmentOperator::Subtract => ty.is_numeric(),
        AssignmentOperator::Multiply => ty.is_numeric(),
        AssignmentOperator::Divide => ty.is_numeric(),
        AssignmentOperator::Remainder => ty.is_integer(),
        AssignmentOperator::BitAnd => ty.is_integer(),
        AssignmentOperator::BitXor => ty.is_integer(),
        AssignmentOperator::BitOr => ty.is_integer(),
        AssignmentOperator::ShiftLeft => ty.is_integer(),
        AssignmentOperator::ShiftRight => ty.is_integer(),
    }
}

/// Whether a place that is assigned to may have been moved.
#[verifier::opaque]
pub open spec fn spec_availability_for(operator: ast::AssignmentOperator) -> PlaceAvailability {
    if operator == ast::AssignmentOperator::Assign {
        PlaceAvailability::AllowReinitialization
    } else {
        PlaceAvailability::InitializedOnly
    }
}

/// Whether a place that is assigned to may have been moved.
pub(crate) fn availability_for(
    operator: ast::AssignmentOperator,
) -> (availability: PlaceAvailability)
    ensures
        availability == spec_availability_for(operator),
{
    reveal(spec_availability_for);
    if operator == ast::AssignmentOperator::Assign {
        PlaceAvailability::AllowReinitialization
    } else {
        PlaceAvailability::InitializedOnly
    }
}

impl<'a> State<'a> {
    /// The type of a place, as far as it is known without checking it.
    #[verifier::opaque]
    pub open spec fn place_expression_type(self, expression: ast::Expression<'a>) -> Option<Type>
        decreases expression,
    {
        match *expression.kind {
            ast::ExpressionKind::Path(path) => self.path_place_type(path),
            ast::ExpressionKind::Field(field) => match self.place_expression_type(field.base) {
                None => None,
                Some(base) => match self.selected_field(self.unreferenced(base), field.field) {
                    Some((_, ty, _)) => Some(ty),
                    None => None,
                },
            },
            ast::ExpressionKind::Index(index) => if index.indices.count() == 1 {
                match self.place_expression_type(index.base) {
                    None => None,
                    Some(base) => self.stored_element(base),
                }
            } else {
                None
            },
            ast::ExpressionKind::Unary { operator, operand } => if operator == ast::UnaryOperator::Dereference {
                match self.place_expression_type(operand) {
                    None => None,
                    Some(pointer) => match self.types.pointer_shape(pointer) {
                        Some((target, _, _)) => Some(target),
                        None => None,
                    },
                }
            } else {
                None
            },
            _ => None,
        }
    }

    /// The type of the variable or static that a path names.
    #[verifier::opaque]
    pub open spec fn path_place_type(self, path: Path<'a>) -> Option<Type> {
        match self.lookup_path(path) {
            Some(binding) => Some(binding.ty),
            None => match self.static_at(path) {
                Some(value) => Some(value.ty),
                None => None,
            },
        }
    }

    /// What a reference leads to; any other type stays.
    #[verifier::opaque]
    pub open spec fn unreferenced(self, ty: Type) -> Type {
        match self.types.pointer_shape(ty) {
            Some((target, _, false)) => target,
            _ => ty,
        }
    }

    /// The element of an array or a slice.
    #[verifier::opaque]
    pub open spec fn stored_element(self, ty: Type) -> Option<Type> {
        match self.types.array_shape(ty) {
            Some((element, _)) => Some(element),
            None => match self.types.slice_shape(ty) {
                Some((element, _)) => Some(element),
                None => None,
            },
        }
    }

    /// A place that can be assigned to or borrowed.
    pub open spec fn analyze_place(
        self,
        expression: ast::Expression<'a>,
        fuel: nat,
    ) -> (Self, Option<Place<'a>>)
        decreases fuel, 2nat, List::<Type>::Nil,
    {
        match *expression.kind {
            ast::ExpressionKind::Path(path) => self.analyze_path_place(path),
            ast::ExpressionKind::Field(_) => {
                let (s, analyzed) = self.analyze_expression_non_consuming(expression, fuel);
                (s, spec_field_place_of(analyzed))
            },
            ast::ExpressionKind::Index(_) => {
                let (s, analyzed) = self.analyze_expression_non_consuming(expression, fuel);
                (s, spec_index_place_of(analyzed))
            },
            ast::ExpressionKind::Unary { operator, .. } => if operator == ast::UnaryOperator::Dereference {
                let (s, analyzed) = self.analyze_expression_non_consuming(expression, fuel);
                (s, spec_pointer_place_of(analyzed))
            } else {
                self.reject_place(expression)
            },
            _ => self.reject_place(expression),
        }
    }

    /// An expression that is no place.
    #[verifier::opaque]
    pub open spec fn reject_place(
        self,
        expression: ast::Expression<'a>,
    ) -> (Self, Option<Place<'a>>) {
        let s = self.report(
            helped(
                "E3108",
                words("assignment target must be a local, field, or array element"),
                "assign to `name`, `value.field`, or `values[index]`",
                expression.span,
            ),
        );
        (s, None)
    }

    /// The place of a variable or a static.
    #[verifier::opaque]
    pub open spec fn analyze_path_place(self, path: Path<'a>) -> (Self, Option<Place<'a>>) {
        match self.lookup_path(path) {
            Some(binding) => (
                self,
                Some(
                    Place {
                        kind: PlaceKind::Local(binding.local),
                        ty: binding.ty,
                        span: path.span,
                    },
                ),
            ),
            None => match self.static_at(path) {
                Some(value) => {
                    let s = self.require_static_access(value, path.span);
                    (
                        s,
                        Some(
                            Place {
                                kind: PlaceKind::Static(value.id),
                                ty: value.ty,
                                span: path.span,
                            },
                        ),
                    )
                },
                None => {
                    let s = self.report(
                        error(
                            "E3102",
                            framed("cannot resolve binding `", path.display(), "`"),
                            path.span,
                        ),
                    );
                    (s, None)
                },
            },
        }
    }

    /// What is assigned to or borrowed mutably must be mutable.
    pub open spec fn require_mutable_place(self, expression: ast::Expression<'a>, fuel: nat) -> Self
        decreases fuel, 2nat, List::<Type>::Nil,
    {
        match spec_dereferenced_operand(expression) {
            Some(operand) => {
                let (s, pointer) = self.analyze_expression_non_consuming(operand, fuel);
                let s = s.require_mutable_pointer(pointer.ty, expression.span);
                s
            },
            None => if !self.is_indirectly_mutable(expression)
                && !self.is_behind_mutable_reference(expression) {
                let s = self.require_mutable_root(expression);
                s
            } else {
                self
            },
        }
    }

    /// What a pointer leads to must be mutable.
    #[verifier::opaque]
    pub open spec fn require_mutable_pointer(self, ty: Type, span: Span) -> Self {
        match self.pointer_shape(ty) {
            None => self,
            Some((_, mutable, _)) => if !mutable {
                let s = self.report(
                    error(
                        "E3107",
                        words("cannot assign through an immutable reference or pointer"),
                        span,
                    ),
                );
                s
            } else {
                self
            },
        }
    }

    /// Whether an element is reached through a mutable slice or pointer.
    #[verifier::opaque]
    pub open spec fn is_indirectly_mutable(self, expression: ast::Expression<'a>) -> bool {
        match *expression.kind {
            ast::ExpressionKind::Index(index) => match self.place_expression_type(index.base) {
                None => false,
                Some(ty) => (match self.types.slice_shape(ty) {
                    Some((_, mutable)) => mutable,
                    None => false,
                })
                    || (match self.types.pointer_shape(ty) {
                        Some((_, mutable, _)) => mutable,
                        None => false,
                    }),
            },
            _ => false,
        }
    }

    /// Whether a part is reached through a variable that is a mutable reference.
    #[verifier::opaque]
    pub open spec fn is_behind_mutable_reference(self, expression: ast::Expression<'a>) -> bool {
        let is_part = match *expression.kind {
            ast::ExpressionKind::Field(_) => true,
            ast::ExpressionKind::Index(_) => true,
            _ => false,
        };
        is_part
            && (match self.root_binding(expression) {
                None => false,
                Some(binding) => match self.types.pointer_shape(binding.ty) {
                    Some((_, mutable, raw)) => mutable && !raw,
                    None => false,
                },
            })
    }

    /// The variable or static that a place starts from must be mutable.
    #[verifier::opaque]
    pub open spec fn require_mutable_root(self, expression: ast::Expression<'a>) -> Self {
        match spec_root_path(expression) {
            None => self.report(
                error(
                    "E3108",
                    words("assignment target is not rooted in a local binding"),
                    expression.span,
                ),
            ),
            Some(path) => match lone_name(path) {
                None => self,
                Some(name) => match self.static_of(name) {
                    Some(value) => self.require_mutable_static(value, name, path.span),
                    None => match self.lookup(name) {
                        Some(binding) => self.require_mutable_binding(binding, name, path.span),
                        None => self,
                    },
                },
            },
        }
    }

    /// A static must be mutable.
    #[verifier::opaque]
    pub open spec fn require_mutable_static(
        self,
        value: StaticSymbol,
        name: &'a str,
        span: Span,
    ) -> Self {
        if !value.mutable {
            let s = self.report(
                advised(
                    "E3107",
                    words3("cannot assign through immutable static `", name, "`"),
                    words3("declare it as `static mut ", name, "` and access it in `unsafe`"),
                    span,
                ),
            );
            s
        } else {
            self
        }
    }

    /// A local variable must be mutable, and not borrowed.
    #[verifier::opaque]
    pub open spec fn require_mutable_binding(
        self,
        binding: Binding,
        name: &'a str,
        span: Span,
    ) -> Self {
        let state = self.borrow_state(binding.local);
        if state.mutable || state.shared != 0 {
            let s = self.report(
                helped(
                    "E3138",
                    words3("cannot mutate `", name, "` while it is borrowed"),
                    "end the reference's scope before mutating the original binding",
                    span,
                ),
            );
            s
        } else if !binding.mutable {
            let s = self.report(
                advised(
                    "E3107",
                    words3("cannot assign through immutable binding `", name, "`"),
                    words3("declare it as `let mut ", name, "`"),
                    span,
                ),
            );
            s
        } else {
            self
        }
    }

    /// The element access that goes through a method when it is assigned to.
    #[verifier::opaque]
    pub open spec fn assigned_index(
        self,
        target: ast::Expression<'a>,
    ) -> Option<ast::IndexExpression<'a>> {
        match *target.kind {
            ast::ExpressionKind::Index(index) => if self.supports_index_method(
                index.base,
                "set_index",
            ) {
                Some(
                    ast::IndexExpression {
                        base: index.base,
                        indices: index.indices,
                        span: index.span,
                    },
                )
            } else {
                None
            },
            _ => None,
        }
    }

    /// An assignment.
    pub open spec fn analyze_assignment(
        self,
        operator: ast::AssignmentOperator,
        target: ast::Expression<'a>,
        value: ast::Expression<'a>,
        span: Span,
        fuel: nat,
    ) -> (Self, Expression<'a>)
        decreases fuel, 16nat, List::<Type>::Nil,
    {
        match self.assigned_index(target) {
            Some(index) => if operator != ast::AssignmentOperator::Assign {
                let s = self.report(
                    helped(
                        "E3125",
                        words("compound tensor indexing assignment is not supported"),
                        "read the element, compute the value, then assign it with `=`",
                        span,
                    ),
                );
                let (s, _ignored) = s.analyze_expression_expected(value, None, fuel);
                (s, invalid_composite_expression(span))
            } else {
                self.analyze_index_method_call(index, "set_index", Some(value), fuel)
            },
            None => self.analyze_place_assignment(operator, target, value, span, fuel),
        }
    }

    /// An assignment to a place.
    pub open spec fn analyze_place_assignment(
        self,
        operator: ast::AssignmentOperator,
        target: ast::Expression<'a>,
        value: ast::Expression<'a>,
        span: Span,
        fuel: nat,
    ) -> (Self, Expression<'a>)
        decreases fuel, 3nat, List::<Type>::Nil,
    {
        let availability = self.frame.place_availability;
        let s = self.set_availability(spec_availability_for(operator));
        let (s, place) = s.analyze_place(target, fuel);
        let s = s.set_availability(availability);
        match place {
            None => {
                let (s, _ignored) = s.analyze_expression_expected(value, None, fuel);
                (s, invalid_composite_expression(span))
            },
            Some(place) => {
                let s = s.require_mutable_place(target, fuel);
                let (s, stored) = s.analyze_expression_expected(value, Some(place.ty), fuel);
                s.assign(spec_typed_assignment(operator), place, target, stored, span)
            },
        }
    }

    /// A value is assigned to a place.
    #[verifier::opaque]
    pub open spec fn assign(
        self,
        operator: AssignmentOperator,
        target: Place<'a>,
        source: ast::Expression<'a>,
        value: Expression<'a>,
        span: Span,
    ) -> (Self, Expression<'a>) {
        let s = self.update_target(operator, target, source);
        let s = s.require_type(target.ty, value.ty, value.span, "assignment value");
        let s = if !spec_is_assignable(operator, target.ty) {
            let s = s.invalid_operator("compound assignment", target.ty, span);
            s
        } else {
            s
        };
        (s, typed(ExpressionKind::Assign { target, operator, value }, Type::Unit, span))
    }

    /// What is assigned to is there again; what is updated must be there.
    #[verifier::opaque]
    pub open spec fn update_target(
        self,
        operator: AssignmentOperator,
        target: Place<'a>,
        source: ast::Expression<'a>,
    ) -> Self {
        match target.kind {
            PlaceKind::Local(local) => self.update_local(operator, local, target.ty, target.span),
            _ => if operator == AssignmentOperator::Assign {
                let s = self.restore_part(source, target.span);
                s
            } else {
                self
            },
        }
    }

    /// A local variable is assigned to or updated.
    #[verifier::opaque]
    pub open spec fn update_local(
        self,
        operator: AssignmentOperator,
        local: LocalId,
        ty: Type,
        span: Span,
    ) -> Self {
        let (s, free) = self.require_not_reserved_by_defer(local, span);
        if operator == AssignmentOperator::Assign {
            if free {
                let s = s.restore_local(local);
                s
            } else {
                s
            }
        } else {
            let s = s.require_local_available(Binding { local, ty, mutable: true }, span, true);
            s
        }
    }

    /// A part of a local variable is assigned to.
    #[verifier::opaque]
    pub open spec fn restore_part(self, source: ast::Expression<'a>, span: Span) -> Self {
        match self.field_place(source) {
            None => self,
            Some(place) => match self.require_not_reserved_by_defer(place.local, span) {
                (s, true) => {
                    let s = s.restore_field(place);
                    s
                },
                (s, false) => s,
            },
        }
    }

    /// A conversion.
    pub open spec fn analyze_cast(
        self,
        value: ast::Expression<'a>,
        target: TypeName<'a>,
        span: Span,
        fuel: nat,
    ) -> (Self, Expression<'a>)
        decreases fuel, 1nat, List::<Type>::Nil,
    {
        let (s, target) = self.resolve_cast_target(target);
        let (s, value) = s.analyze_expression_expected(value, None, fuel);
        let s = s.check_cast(value.ty, target, span);
        (s, typed(ExpressionKind::Cast { value, target }, target, span))
    }

    /// The type that a value is converted to.
    #[verifier::opaque]
    pub open spec fn resolve_cast_target(self, target: TypeName<'a>) -> (Self, Type) {
        match self.resolve_type(target) {
            (s, Some(ty)) => (s, ty),
            (s, None) => (s, Type::Unit),
        }
    }

    /// A conversion must be defined, and one to a function pointer must stand in
    /// `unsafe`.
    #[verifier::opaque]
    pub open spec fn check_cast(self, source: Type, target: Type, span: Span) -> Self {
        let is_function = match target {
            Type::Function(_) => true,
            _ => false,
        };
        let s = if is_function && source != target && source != Type::Never
            && self.frame.unsafe_depth == 0 {
            let s = self.report(
                helped(
                    "E5002",
                    words("casting an address to a function pointer requires `unsafe`"),
                    "validate the loaded symbol and perform the cast inside `unsafe { ... }`",
                    span,
                ),
            );
            s
        } else {
            self
        };
        if source != Type::Never && !is_valid_cast(source, target) {
            let s = s.report(
                helped(
                    "E3113",
                    cons(
                        Piece::Words("cannot cast `"),
                        append(
                            s.types.reflection_type_name(source),
                            framed("` to `", s.types.reflection_type_name(target), "`"),
                        ),
                    ),
                    "use `as` only for integer, floating-point, or character-to-integer conversions",
                    span,
                ),
            );
            s
        } else {
            s
        }
    }
}

impl<'a> Analyzer<'a> {
    /// The type of a place, as far as it is known without checking it.
    pub(crate) fn place_expression_type(
        &self,
        expression: &ast::Expression<'a>,
    ) -> (ty: Option<Type>)
        ensures
            ty == self@.place_expression_type(*expression),
        decreases *expression,
    {
        reveal(State::place_expression_type);
        match &*expression.kind {
            ast::ExpressionKind::Path(path) => self.path_place_type(path),
            ast::ExpressionKind::Field(field) => match self.place_expression_type(&field.base) {
                None => None,
                Some(base) => match self.selected_field(self.unreferenced(base), &field.field) {
                    Some((_, ty, _)) => Some(ty),
                    None => None,
                },
            },
            ast::ExpressionKind::Index(index) => if index.indices.count() == 1 {
                match self.place_expression_type(&index.base) {
                    None => None,
                    Some(base) => self.stored_element(base),
                }
            } else {
                None
            },
            ast::ExpressionKind::Unary { operator, operand } => if *operator == ast::UnaryOperator::Dereference {
                match self.place_expression_type(operand) {
                    None => None,
                    Some(pointer) => match self.types.pointer_shape(pointer) {
                        Some((target, _, _)) => Some(target),
                        None => None,
                    },
                }
            } else {
                None
            },
            _ => None,
        }
    }

    /// The type of the variable or static that a path names.
    pub(crate) fn path_place_type(&self, path: &Path<'a>) -> (ty: Option<Type>)
        ensures
            ty == self@.path_place_type(*path),
    {
        reveal(State::path_place_type);
        match self.lookup_path(path) {
            Some(binding) => Some(binding.ty),
            None => match self.static_at(path) {
                Some(value) => Some(value.ty),
                None => None,
            },
        }
    }

    /// What a reference leads to; any other type stays.
    pub(crate) fn unreferenced(&self, ty: Type) -> (target: Type)
        ensures
            target == self@.unreferenced(ty),
    {
        reveal(State::unreferenced);
        match self.types.pointer_shape(ty) {
            Some((target, _, false)) => target,
            _ => ty,
        }
    }

    /// The element of an array or a slice.
    pub(crate) fn stored_element(&self, ty: Type) -> (element: Option<Type>)
        ensures
            element == self@.stored_element(ty),
    {
        reveal(State::stored_element);
        match self.types.array_shape(ty) {
            Some((element, _)) => Some(element),
            None => match self.types.slice_shape(ty) {
                Some((element, _)) => Some(element),
                None => None,
            },
        }
    }

    /// A place that can be assigned to or borrowed.
    pub(crate) fn analyze_place(
        &mut self,
        expression: &ast::Expression<'a>,
        fuel: u32,
    ) -> (place: Option<Place<'a>>)
        ensures
            (final(self)@, place) == old(self)@.analyze_place(*expression, fuel as nat),
            old(self)@.leads_to(final(self)@),
            forall|watch: Watch| #[trigger]
                watched(watch) && old(self)@.is_apart(watch) && !mentions(*expression, watch.name)
                    ==> old(self)@.spares(final(self)@, watch) && match place {
                    Some(found) => found.kind != PlaceKind::<'a>::Local(watch.local),
                    None => true,
                },
            forall|scene: Scene| #[trigger]
                final(self)@.admits(scene) && old(self)@.prepared()
                    ==> final(self)@.troubled() || sound_place_if_any(place, scene),
            final(self)@.troubled() || match place {
                Some(place) => place_renders(*expression.kind, place),
                None => *expression.kind is Index,
            },
        decreases fuel, 2nat, List::<Type>::Nil,
    {
        match &*expression.kind {
            ast::ExpressionKind::Path(path) => self.analyze_path_place(path),
            ast::ExpressionKind::Field(_) => {
                let analyzed = self.analyze_expression_non_consuming(expression, fuel);
                proof {
                    renders_by_form(*expression, analyzed);
                    reveal(spec_field_place_of);
                }
                field_place_of(&analyzed)
            },
            ast::ExpressionKind::Index(_) => {
                let analyzed = self.analyze_expression_non_consuming(expression, fuel);
                proof {
                    reveal(spec_index_place_of);
                }
                index_place_of(&analyzed)
            },
            ast::ExpressionKind::Unary { operator, .. } => if *operator == ast::UnaryOperator::Dereference {
                let analyzed = self.analyze_expression_non_consuming(expression, fuel);
                proof {
                    renders_by_form(*expression, analyzed);
                    reveal(spec_pointer_place_of);
                }
                pointer_place_of(&analyzed)
            } else {
                self.reject_place(expression)
            },
            _ => self.reject_place(expression),
        }
    }

    /// An expression that is no place.
    pub(crate) fn reject_place(
        &mut self,
        expression: &ast::Expression<'a>,
    ) -> (place: Option<Place<'a>>)
        ensures
            (final(self)@, place) == old(self)@.reject_place(*expression),
            old(self)@.leads_to(final(self)@),
            old(self)@.stays(final(self)@),
            place is None,
            forall|scene: Scene| #[trigger]
                final(self)@.admits(scene) && old(self)@.prepared()
                    ==> final(self)@.troubled() || sound_place_if_any(place, scene),
            final(self)@.troubled(),
    {
        reveal(State::reject_place);
        self.report(
            helped(
                "E3108",
                words("assignment target must be a local, field, or array element"),
                "assign to `name`, `value.field`, or `values[index]`",
                expression.span,
            ),
        );
        None
    }

    /// The place of a variable or a static.
    pub(crate) fn analyze_path_place(&mut self, path: &Path<'a>) -> (place: Option<Place<'a>>)
        ensures
            (final(self)@, place) == old(self)@.analyze_path_place(*path),
            old(self)@.leads_to(final(self)@),
            old(self)@.stays(final(self)@),
            forall|watch: Watch| #[trigger]
                watched(watch) && old(self)@.is_apart(watch) && !path_mentions(*path, watch.name)
                    ==> match place {
                    Some(found) => found.kind != PlaceKind::<'a>::Local(watch.local),
                    None => true,
                },
            forall|scene: Scene| #[trigger]
                final(self)@.admits(scene) && old(self)@.prepared()
                    ==> final(self)@.troubled() || sound_place_if_any(place, scene),
            final(self)@.troubled() || match place {
                Some(place) => place.kind is Local || place.kind is Static,
                None => false,
            },
    {
        reveal(State::analyze_path_place);
        match self.lookup_path(path) {
            Some(binding) => Some(
                Place { kind: PlaceKind::Local(binding.local), ty: binding.ty, span: path.span },
            ),
            None => match self.static_at(path) {
                Some(value) => {
                    self.require_static_access(value, path.span);
                    Some(Place { kind: PlaceKind::Static(value.id), ty: value.ty, span: path.span })
                },
                None => {
                    self.report(
                        error(
                            "E3102",
                            frame("cannot resolve binding `", &path.display(), "`"),
                            path.span,
                        ),
                    );
                    None
                },
            },
        }
    }

    /// What is assigned to or borrowed mutably must be mutable.
    pub(crate) fn require_mutable_place(&mut self, expression: &ast::Expression<'a>, fuel: u32)
        ensures
            final(self)@ == old(self)@.require_mutable_place(*expression, fuel as nat),
            old(self)@.leads_to(final(self)@),
            forall|watch: Watch| #[trigger]
                watched(watch) && old(self)@.is_apart(watch) && !mentions(*expression, watch.name)
                    ==> old(self)@.spares(final(self)@, watch),
        decreases fuel, 2nat, List::<Type>::Nil,
    {
        match dereferenced_operand(expression) {
            Some(operand) => {
                let pointer = self.analyze_expression_non_consuming(&operand, fuel);
                self.require_mutable_pointer(pointer.ty, expression.span);
            },
            None => if !self.is_indirectly_mutable(expression)
                && !self.is_behind_mutable_reference(expression) {
                self.require_mutable_root(expression);
            },
        }
    }

    /// What a pointer leads to must be mutable.
    pub(crate) fn require_mutable_pointer(&mut self, ty: Type, span: Span)
        ensures
            final(self)@ == old(self)@.require_mutable_pointer(ty, span),
            old(self)@.leads_to(final(self)@),
            old(self)@.stays(final(self)@),
    {
        reveal(State::require_mutable_pointer);
        match self.pointer_shape(ty) {
            None => {
            },
            Some((_, mutable, _)) => if !mutable {
                self.report(
                    error(
                        "E3107",
                        words("cannot assign through an immutable reference or pointer"),
                        span,
                    ),
                );
            },
        }
    }

    /// Whether an element is reached through a mutable slice or pointer.
    pub(crate) fn is_indirectly_mutable(&self, expression: &ast::Expression<'a>) -> (answer: bool)
        ensures
            answer == self@.is_indirectly_mutable(*expression),
    {
        reveal(State::is_indirectly_mutable);
        match &*expression.kind {
            ast::ExpressionKind::Index(index) => match self.place_expression_type(&index.base) {
                None => false,
                Some(ty) => (match self.types.slice_shape(ty) {
                    Some((_, mutable)) => mutable,
                    None => false,
                })
                    || (match self.types.pointer_shape(ty) {
                        Some((_, mutable, _)) => mutable,
                        None => false,
                    }),
            },
            _ => false,
        }
    }

    /// Whether a part is reached through a variable that is a mutable reference.
    pub(crate) fn is_behind_mutable_reference(
        &self,
        expression: &ast::Expression<'a>,
    ) -> (answer: bool)
        ensures
            answer == self@.is_behind_mutable_reference(*expression),
    {
        reveal(State::is_behind_mutable_reference);
        let is_part = match &*expression.kind {
            ast::ExpressionKind::Field(_) => true,
            ast::ExpressionKind::Index(_) => true,
            _ => false,
        };
        is_part
            && (match self.root_binding(expression) {
                None => false,
                Some(binding) => match self.types.pointer_shape(binding.ty) {
                    Some((_, mutable, raw)) => mutable && !raw,
                    None => false,
                },
            })
    }

    /// The variable or static that a place starts from must be mutable.
    pub(crate) fn require_mutable_root(&mut self, expression: &ast::Expression<'a>)
        ensures
            final(self)@ == old(self)@.require_mutable_root(*expression),
            old(self)@.leads_to(final(self)@),
            old(self)@.stays(final(self)@),
    {
        reveal(State::require_mutable_root);
        match root_path(expression) {
            None => self.report(
                error(
                    "E3108",
                    words("assignment target is not rooted in a local binding"),
                    expression.span,
                ),
            ),
            Some(path) => match single_path_name(&path) {
                None => {
                },
                Some(name) => match self.static_of(name) {
                    Some(value) => self.require_mutable_static(value, name, path.span),
                    None => match self.lookup(name) {
                        Some(binding) => self.require_mutable_binding(binding, name, path.span),
                        None => {
                        },
                    },
                },
            },
        }
    }

    /// A static must be mutable.
    pub(crate) fn require_mutable_static(&mut self, value: StaticSymbol, name: &'a str, span: Span)
        ensures
            final(self)@ == old(self)@.require_mutable_static(value, name, span),
            old(self)@.leads_to(final(self)@),
            old(self)@.stays(final(self)@),
    {
        reveal(State::require_mutable_static);
        if !value.mutable {
            self.report(
                advised(
                    "E3107",
                    words3("cannot assign through immutable static `", name, "`"),
                    words3("declare it as `static mut ", name, "` and access it in `unsafe`"),
                    span,
                ),
            );
        }
    }

    /// A local variable must be mutable, and not borrowed.
    pub(crate) fn require_mutable_binding(&mut self, binding: Binding, name: &'a str, span: Span)
        ensures
            final(self)@ == old(self)@.require_mutable_binding(binding, name, span),
            old(self)@.leads_to(final(self)@),
            old(self)@.stays(final(self)@),
    {
        reveal(State::require_mutable_binding);
        let state = self.borrow_state(binding.local);
        if state.mutable || state.shared != 0 {
            self.report(
                helped(
                    "E3138",
                    words3("cannot mutate `", name, "` while it is borrowed"),
                    "end the reference's scope before mutating the original binding",
                    span,
                ),
            );
        } else if !binding.mutable {
            self.report(
                advised(
                    "E3107",
                    words3("cannot assign through immutable binding `", name, "`"),
                    words3("declare it as `let mut ", name, "`"),
                    span,
                ),
            );
        }
    }

    /// The element access that goes through a method when it is assigned to.
    pub(crate) fn assigned_index(
        &self,
        target: &ast::Expression<'a>,
    ) -> (index: Option<ast::IndexExpression<'a>>)
        ensures
            index == self@.assigned_index(*target),
            forall|watch: Watch| #[trigger]
                watched(watch) && !mentions(*target, watch.name) ==> match index {
                    Some(found) => !index_mentions(found, watch.name),
                    None => true,
                },
            index is Some ==> *target.kind is Index,
    {
        reveal(State::assigned_index);
        match &*target.kind {
            ast::ExpressionKind::Index(index) => if self.supports_index_method(
                &index.base,
                "set_index",
            ) {
                Some(
                    ast::IndexExpression {
                        base: index.base.share(),
                        indices: index.indices.share(),
                        span: index.span,
                    },
                )
            } else {
                None
            },
            _ => None,
        }
    }

    /// An assignment.
    pub(crate) fn analyze_assignment(
        &mut self,
        operator: ast::AssignmentOperator,
        target: &ast::Expression<'a>,
        value: &ast::Expression<'a>,
        span: Span,
        fuel: u32,
    ) -> (analyzed: Expression<'a>)
        ensures
            (final(self)@, analyzed) == old(self)@.analyze_assignment(
                operator,
                *target,
                *value,
                span,
                fuel as nat,
            ),
            old(self)@.leads_to(final(self)@),
            forall|binding: Binding| #[trigger]
                old(self)@.names_free(*target, binding) && !mentions(
                    *value,
                    variable(*target, binding).name,
                ) ==> old(self)@.assigns(
                    operator,
                    binding,
                    *value,
                    fuel as nat,
                    final(self)@,
                    analyzed,
                ),
            forall|watch: Watch| #[trigger]
                watched(watch) && old(self)@.is_apart(watch) && !mentions(*target, watch.name)
                    && !mentions(*value, watch.name)
                    ==> old(self)@.spares(final(self)@, watch),
            forall|scene: Scene| #[trigger]
                final(self)@.admits(scene) && old(self)@.prepared()
                    ==> final(self)@.troubled() || sound(analyzed, scene),
            final(self)@.troubled() || form_renders(
                ast::ExpressionKind::Assignment { operator, target: *target, value: *value },
                analyzed,
            ),
        decreases fuel, 16nat, List::<Type>::Nil,
    {
        assert forall|binding: Binding| #[trigger]
            self@.names_free(*target, binding) implies self@.assigned_index(*target) is None && (
        self@.spares(
            self@.analyze_expression_expected(*value, Some(binding.ty), fuel as nat).0,
            variable(*target, binding),
        ) ==> {
            let (after, assignment) = self@.analyze_assignment(
                operator,
                *target,
                *value,
                span,
                fuel as nat,
            );
            self@.assigns(operator, binding, *value, fuel as nat, after, assignment)
        }) by {
            named_place_is_kept(self@, operator, *target, binding, fuel as nat);
            if self@.spares(
                self@.analyze_expression_expected(*value, Some(binding.ty), fuel as nat).0,
                variable(*target, binding),
            ) {
                spared_variable_is_assigned(
                    self@,
                    operator,
                    *target,
                    binding,
                    *value,
                    span,
                    fuel as nat,
                );
            }
        }
        match self.assigned_index(target) {
            Some(index) => if operator != ast::AssignmentOperator::Assign {
                self.report(
                    helped(
                        "E3125",
                        words("compound tensor indexing assignment is not supported"),
                        "read the element, compute the value, then assign it with `=`",
                        span,
                    ),
                );
                self.analyze_expression_expected(value, None, fuel);
                invalid_composite_expression(span)
            } else {
                self.analyze_index_method_call(&index, "set_index", &Some(value.share()), fuel)
            },
            None => self.analyze_place_assignment(operator, target, value, span, fuel),
        }
    }

    /// An assignment to a place.
    pub(crate) fn analyze_place_assignment(
        &mut self,
        operator: ast::AssignmentOperator,
        target: &ast::Expression<'a>,
        value: &ast::Expression<'a>,
        span: Span,
        fuel: u32,
    ) -> (analyzed: Expression<'a>)
        ensures
            (final(self)@, analyzed) == old(self)@.analyze_place_assignment(
                operator,
                *target,
                *value,
                span,
                fuel as nat,
            ),
            old(self)@.leads_to(final(self)@),
            forall|binding: Binding| #[trigger]
                old(self)@.names_free(*target, binding) && !mentions(
                    *value,
                    variable(*target, binding).name,
                ) ==> old(self)@.spares(
                    old(self)@.analyze_expression_expected(
                        *value,
                        Some(binding.ty),
                        fuel as nat,
                    ).0,
                    variable(*target, binding),
                ),
            forall|watch: Watch| #[trigger]
                watched(watch) && old(self)@.is_apart(watch) && !mentions(*target, watch.name)
                    && !mentions(*value, watch.name)
                    ==> old(self)@.spares(final(self)@, watch),
            forall|scene: Scene| #[trigger]
                final(self)@.admits(scene) && old(self)@.prepared()
                    ==> final(self)@.troubled() || sound(analyzed, scene),
            final(self)@.troubled() || stores(operator, *target, *value, analyzed),
        decreases fuel, 3nat, List::<Type>::Nil,
    {
        assert forall|binding: Binding| #[trigger]
            self@.names_free(*target, binding) implies watched(variable(*target, binding)) && {
            let ready = self@.set_availability(spec_availability_for(operator));
            let (found, place) = ready.analyze_place(*target, fuel as nat);
            &&& found.set_availability(self@.frame.place_availability) == self@
            &&& self@.require_mutable_place(*target, fuel as nat) == self@
            &&& place is Some
            &&& place->0.ty == binding.ty
        } by {
            reveal(watched);
            named_place_is_kept(self@, operator, *target, binding, fuel as nat);
        }
        let availability = self.frame.place_availability;
        self.set_availability(availability_for(operator));
        let place = self.analyze_place(target, fuel);
        self.set_availability(availability);
        match place {
            None => {
                self.analyze_expression_expected(value, None, fuel);
                invalid_composite_expression(span)
            },
            Some(place) => {
                self.require_mutable_place(target, fuel);
                let stored = self.analyze_expression_expected(value, Some(place.ty), fuel);
                self.assign(typed_assignment(operator), place, target, stored, span)
            },
        }
    }

    /// A value is assigned to a place.
    pub(crate) fn assign(
        &mut self,
        operator: AssignmentOperator,
        target: Place<'a>,
        source: &ast::Expression<'a>,
        value: Expression<'a>,
        span: Span,
    ) -> (analyzed: Expression<'a>)
        ensures
            (final(self)@, analyzed) == old(self)@.assign(operator, target, *source, value, span),
            old(self)@.leads_to(final(self)@),
            forall|watch: Watch| #[trigger]
                watched(watch) && old(self)@.is_apart(watch) && !mentions(*source, watch.name)
                    && target.kind != PlaceKind::<'a>::Local(watch.local)
                    ==> old(self)@.spares(final(self)@, watch),
            forall|scene: Scene| #[trigger]
                final(self)@.admits(scene) && old(self)@.prepared() && sound_place(target, scene)
                    && sound(value, scene)
                    ==> final(self)@.troubled() || sound(analyzed, scene),
            *analyzed.kind == (ExpressionKind::Assign { target, operator, value }),
    {
        reveal(State::assign);
        self.update_target(operator, &target, source);
        self.require_type(target.ty, value.ty, value.span, "assignment value");
        if !is_assignable(operator, target.ty) {
            self.invalid_operator("compound assignment", target.ty, span);
        }
        typed(ExpressionKind::Assign { target, operator, value }, Type::Unit, span)
    }

    /// What is assigned to is there again; what is updated must be there.
    pub(crate) fn update_target(
        &mut self,
        operator: AssignmentOperator,
        target: &Place<'a>,
        source: &ast::Expression<'a>,
    )
        ensures
            final(self)@ == old(self)@.update_target(operator, *target, *source),
            old(self)@.leads_to(final(self)@),
            forall|watch: Watch| #[trigger]
                watched(watch) && old(self)@.is_apart(watch) && !mentions(*source, watch.name)
                    && target.kind != PlaceKind::<'a>::Local(watch.local)
                    ==> old(self)@.spares(final(self)@, watch),
    {
        reveal(State::update_target);
        match &target.kind {
            PlaceKind::Local(local) => self.update_local(operator, *local, target.ty, target.span),
            _ => if operator == AssignmentOperator::Assign {
                self.restore_part(source, target.span);
            },
        }
    }

    /// A local variable is assigned to or updated.
    pub(crate) fn update_local(
        &mut self,
        operator: AssignmentOperator,
        local: LocalId,
        ty: Type,
        span: Span,
    )
        ensures
            final(self)@ == old(self)@.update_local(operator, local, ty, span),
            old(self)@.leads_to(final(self)@),
            forall|watch: Watch| #[trigger]
                watched(watch) && old(self)@.is_apart(watch) && local != watch.local
                    ==> old(self)@.spares(final(self)@, watch),
    {
        reveal(State::update_local);
        let free = self.require_not_reserved_by_defer(local, span);
        if operator == AssignmentOperator::Assign {
            if free {
                self.restore_local(local);
            }
        } else {
            self.require_local_available(Binding { local, ty, mutable: true }, span, true);
        }
    }

    /// A part of a local variable is assigned to.
    pub(crate) fn restore_part(&mut self, source: &ast::Expression<'a>, span: Span)
        ensures
            final(self)@ == old(self)@.restore_part(*source, span),
            old(self)@.leads_to(final(self)@),
            forall|watch: Watch| #[trigger]
                watched(watch) && old(self)@.is_apart(watch) && !mentions(*source, watch.name)
                    ==> old(self)@.spares(final(self)@, watch),
    {
        reveal(State::restore_part);
        match self.field_place(source) {
            None => {
            },
            Some(place) => if self.require_not_reserved_by_defer(place.local, span) {
                self.restore_field(&place);
            },
        }
    }

    /// A conversion.
    pub(crate) fn analyze_cast(
        &mut self,
        value: &ast::Expression<'a>,
        target: &TypeName<'a>,
        span: Span,
        fuel: u32,
    ) -> (analyzed: Expression<'a>)
        ensures
            (final(self)@, analyzed) == old(self)@.analyze_cast(*value, *target, span, fuel as nat),
            old(self)@.leads_to(final(self)@),
            forall|watch: Watch| #[trigger]
                watched(watch) && old(self)@.is_apart(watch) && !mentions(*value, watch.name)
                    ==> old(self)@.spares(final(self)@, watch),
            forall|scene: Scene| #[trigger]
                final(self)@.admits(scene) && old(self)@.prepared()
                    ==> final(self)@.troubled() || sound(analyzed, scene),
            final(self)@.troubled() || form_renders(
                ast::ExpressionKind::Cast { value: *value, target: *target },
                analyzed,
            ),
        decreases fuel, 1nat, List::<Type>::Nil,
    {
        let target = self.resolve_cast_target(target);
        let value = self.analyze_expression_expected(value, None, fuel);
        self.check_cast(value.ty, target, span);
        typed(ExpressionKind::Cast { value, target }, target, span)
    }

    /// The type that a value is converted to.
    pub(crate) fn resolve_cast_target(&mut self, target: &TypeName<'a>) -> (ty: Type)
        ensures
            (final(self)@, ty) == old(self)@.resolve_cast_target(*target),
            old(self)@.leads_to(final(self)@),
            old(self)@.stays(final(self)@),
    {
        reveal(State::resolve_cast_target);
        match self.resolve_type(target) {
            Some(ty) => ty,
            None => Type::Unit,
        }
    }

    /// A conversion must be defined, and one to a function pointer must stand in
    /// `unsafe`.
    pub(crate) fn check_cast(&mut self, source: Type, target: Type, span: Span)
        ensures
            final(self)@ == old(self)@.check_cast(source, target, span),
            old(self)@.leads_to(final(self)@),
            old(self)@.stays(final(self)@),
            source is Never || is_valid_cast(source, target) || final(self)@.troubled(),
    {
        reveal(State::check_cast);
        let is_function = match target {
            Type::Function(_) => true,
            _ => false,
        };
        if is_function && source != target && source != Type::Never
            && self.frame.unsafe_depth == 0 {
            self.report(
                helped(
                    "E5002",
                    words("casting an address to a function pointer requires `unsafe`"),
                    "validate the loaded symbol and perform the cast inside `unsafe { ... }`",
                    span,
                ),
            );
        }
        if source != Type::Never && !is_valid_cast(source, target) {
            self.report(
                helped(
                    "E3113",
                    cons(
                        Piece::Words("cannot cast `"),
                        joined(
                            &self.types.reflection_type_name(source),
                            frame("` to `", &self.types.reflection_type_name(target), "`"),
                        ),
                    ),
                    "use `as` only for integer, floating-point, or character-to-integer conversions",
                    span,
                ),
            );
        }
    }
}

} // verus!

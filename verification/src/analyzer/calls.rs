//! Calls of functions and constructors.

use crate::analyzer::sparing::{watched, Watch};
use crate::mention::{any_mentions, call_mentions, mentions};
use crate::analyzer::{Analyzer, GenericFunctionTemplate, Signature, State};
use crate::analyzer::instances::{parameters_from, spec_parameters_from};
use crate::ast::{
    self, lone_name, path_pair, single_path_name, two_names, CallExpression, FieldName, Identifier,
    Parameter, Path, TypeNameKind,
};
use crate::generics::{type_is_bound, type_pattern_is_bound, Environment};
use crate::hir::{
    invalid_composite_expression, typed, AssertionMode, EnumVariantFields, Expression,
    ExpressionKind, FunctionId,
};
use crate::list::{append, cons, counts_are_lengths, prepend, prepended, single, List};
use crate::registry::IntrinsicType;
use crate::rendering::{all_render, form_renders, passes, renders};
use crate::span::{advised, error, helped, Span};
use crate::syntax::{assertion_mode, function_path_name, function_symbol, named_assertion};
use crate::text::{frame, framed, joined, same, words, words3, words5, Piece, Text};
use crate::types::Type;
use crate::typing::{all_sound, carries, each_fits, sound, sound_if_any, takes, Scene};
use vstd::prelude::*;

verus! {

broadcast use {
    crate::analyzer::growth::group_led,
    crate::analyzer::numbering::group_numbered,
    crate::analyzer::sparing::group_spared,
    crate::list::pushed_comes_first,
    crate::registry::growth::group_grown,
    crate::rendering::group_rendered,
    crate::span::group_kept,
    crate::typing::group_sound,
};

/// The constructors that the language itself knows: `Some`, `Ok` and `Err`.
#[derive(Clone, Copy, PartialEq, Eq, Structural, Debug)]
pub enum Constructor {
    Present,
    Success,
    Failure,
}

/// Whether a path is `panic`.
#[verifier::opaque]
pub open spec fn spec_is_panic_path<'a>(path: Path<'a>) -> bool {
    match lone_name(path) {
        Some(name) => name@ == "panic"@,
        None => false,
    }
}

/// Whether a path is `panic`.
pub(crate) fn is_panic_path<'a>(path: &Path<'a>) -> (answer: bool)
    ensures
        answer == spec_is_panic_path(*path),
{
    reveal(spec_is_panic_path);
    match single_path_name(path) {
        Some(name) => same(name, "panic"),
        None => false,
    }
}

/// The assertion that a path names.
#[verifier::opaque]
pub open spec fn spec_assertion_at<'a>(path: Path<'a>) -> Option<AssertionMode> {
    named_assertion(path)
}

/// The assertion that a path names.
pub(crate) fn assertion_at<'a>(path: &Path<'a>) -> (mode: Option<AssertionMode>)
    ensures
        mode == spec_assertion_at(*path),
{
    reveal(spec_assertion_at);
    assertion_mode(path)
}

/// The argument at a position.
#[verifier::opaque]
pub open spec fn spec_argument_at<'a>(
    arguments: List<ast::Expression<'a>>,
    position: u64,
) -> Option<ast::Expression<'a>>
    decreases arguments,
{
    match arguments {
        List::Nil => None,
        List::Cons(node) => if position == 0 {
            Some(node.head)
        } else {
            spec_argument_at(node.tail, position.saturating_sub(1))
        },
    }
}

/// The argument at a position is the one that stands there.
pub proof fn arguments_are_found(arguments: List<ast::Expression>, position: u64)
    ensures
        spec_argument_at(arguments, position) == (if position < arguments@.len() {
            Some(arguments@[position as int])
        } else {
            None
        }),
    decreases arguments,
{
    reveal(spec_argument_at);
    if arguments is Cons {
        assert(arguments@ =~= seq![arguments.first()] + arguments.rest()@);
        if position > 0 {
            arguments_are_found(arguments.rest(), (position - 1) as u64);
        }
    }
}

/// The argument at a position.
pub(crate) fn argument_at<'a>(
    arguments: &List<ast::Expression<'a>>,
    position: u64,
) -> (argument: Option<ast::Expression<'a>>)
    ensures
        argument == spec_argument_at(*arguments, position),
        forall|watch: Watch| #[trigger]
            watched(watch) && !any_mentions(*arguments, watch.name) ==> match argument {
                Some(found) => !mentions(found, watch.name),
                None => true,
            },
{
    let mut ahead: &List<ast::Expression<'a>> = arguments;
    let mut current_position: u64 = position;
    loop
        invariant
            spec_argument_at(*arguments, position) == spec_argument_at(*ahead, current_position),
            forall|watch: Watch| #[trigger]
                watched(watch) && !any_mentions(*arguments, watch.name) ==> !any_mentions(
                    *ahead,
                    watch.name,
                ),
        decreases *ahead,
    {
        reveal(spec_argument_at);
        match ahead {
            List::Nil => {
                return None;
            },
            List::Cons(node) => {
                if current_position == 0 {
                    return Some(node.head.share());
                } else {
                    current_position = current_position.saturating_sub(1);
                    ahead = &node.tail;
                }
            },
        }
    }
}

/// The arguments behind the first ones.
#[verifier::opaque]
pub open spec fn spec_arguments_from<'a>(
    arguments: List<ast::Expression<'a>>,
    start: u64,
) -> List<ast::Expression<'a>>
    decreases arguments,
{
    match arguments {
        List::Nil => List::Nil,
        List::Cons(node) => if start == 0 {
            arguments
        } else {
            spec_arguments_from(node.tail, start.saturating_sub(1))
        },
    }
}

/// The arguments behind the first ones.
pub(crate) fn arguments_from<'a>(
    arguments: &List<ast::Expression<'a>>,
    start: u64,
) -> (rest: List<ast::Expression<'a>>)
    ensures
        rest == spec_arguments_from(*arguments, start),
        forall|watch: Watch| #[trigger]
            watched(watch) && !any_mentions(*arguments, watch.name) ==> !any_mentions(
                rest,
                watch.name,
            ),
{
    let mut ahead: &List<ast::Expression<'a>> = arguments;
    let mut current_start: u64 = start;
    loop
        invariant
            spec_arguments_from(*arguments, start) == spec_arguments_from(*ahead, current_start),
            forall|watch: Watch| #[trigger]
                watched(watch) && !any_mentions(*arguments, watch.name) ==> !any_mentions(
                    *ahead,
                    watch.name,
                ),
        decreases *ahead,
    {
        reveal(spec_arguments_from);
        match ahead {
            List::Nil => {
                return List::Nil;
            },
            List::Cons(node) => {
                if current_start == 0 {
                    return ahead.share();
                } else {
                    current_start = current_start.saturating_sub(1);
                    ahead = &node.tail;
                }
            },
        }
    }
}

/// What is known of a function value.
#[verifier::opaque]
pub open spec fn spec_value_signature(parameter_types: List<Type>, return_type: Type) -> Signature {
    Signature {
        id: FunctionId(u32::MAX),
        parameter_types,
        return_type,
        requires_unsafe: false,
        is_public: true,
    }
}

/// What is known of a function value.
pub(crate) fn value_signature(
    parameter_types: List<Type>,
    return_type: Type,
) -> (signature: Signature)
    ensures
        signature == spec_value_signature(parameter_types, return_type),
{
    reveal(spec_value_signature);
    Signature {
        id: FunctionId(u32::MAX),
        parameter_types,
        return_type,
        requires_unsafe: false,
        is_public: true,
    }
}

/// The first of the types.
#[verifier::opaque]
pub open spec fn spec_first_type(types: List<Type>) -> Option<Type> {
    match types {
        List::Nil => None,
        List::Cons(node) => Some(node.head),
    }
}

/// The first of the types.
pub(crate) fn first_type(types: &List<Type>) -> (ty: Option<Type>)
    ensures
        ty == spec_first_type(*types),
{
    reveal(spec_first_type);
    match types {
        List::Nil => None,
        List::Cons(node) => Some(node.head),
    }
}

/// The types behind the first.
#[verifier::opaque]
pub open spec fn spec_rest_types(types: List<Type>) -> List<Type> {
    match types {
        List::Nil => List::Nil,
        List::Cons(node) => node.tail,
    }
}

/// The types behind the first.
pub(crate) fn rest_types(types: &List<Type>) -> (rest: List<Type>)
    ensures
        rest == spec_rest_types(*types),
{
    reveal(spec_rest_types);
    match types {
        List::Nil => List::Nil,
        List::Cons(node) => node.tail.share(),
    }
}

/// The message of a call with too many or too few arguments.
#[verifier::opaque]
pub open spec fn spec_call_count<'a>(name: Text<'a>, required: u64, found: u64) -> Text<'a> {
    cons(
        Piece::Words("function `"),
        append(
            name,
            cons(
                Piece::Words("` expects "),
                cons(
                    Piece::Number(required as u128),
                    cons(
                        Piece::Words(" argument(s), but "),
                        cons(Piece::Number(found as u128), words(" were provided")),
                    ),
                ),
            ),
        ),
    )
}

/// The message of a call with too many or too few arguments.
pub(crate) fn call_count<'a>(name: &Text<'a>, required: u64, found: u64) -> (message: Text<'a>)
    ensures
        message == spec_call_count(*name, required, found),
{
    reveal(spec_call_count);
    cons(
        Piece::Words("function `"),
        joined(
            name,
            cons(
                Piece::Words("` expects "),
                cons(
                    Piece::Number(required as u128),
                    cons(
                        Piece::Words(" argument(s), but "),
                        cons(Piece::Number(found as u128), words(" were provided")),
                    ),
                ),
            ),
        ),
    )
}

/// The constructor that a path names.
#[verifier::opaque]
pub open spec fn spec_constructor_at<'a>(path: Path<'a>) -> Option<(&'a str, Constructor)> {
    match lone_name(path) {
        None => None,
        Some(name) => if name@ == "Some"@ {
            Some((name, Constructor::Present))
        } else if name@ == "Ok"@ {
            Some((name, Constructor::Success))
        } else if name@ == "Err"@ {
            Some((name, Constructor::Failure))
        } else {
            None
        },
    }
}

/// The constructor that a path names.
pub(crate) fn constructor_at<'a>(path: &Path<'a>) -> (constructor: Option<(&'a str, Constructor)>)
    ensures
        constructor == spec_constructor_at(*path),
{
    reveal(spec_constructor_at);
    match single_path_name(path) {
        None => None,
        Some(name) => if same(name, "Some") {
            Some((name, Constructor::Present))
        } else if same(name, "Ok") {
            Some((name, Constructor::Success))
        } else if same(name, "Err") {
            Some((name, Constructor::Failure))
        } else {
            None
        },
    }
}

/// Whether the first parameter is a mutable reference.
#[verifier::opaque]
pub open spec fn spec_takes_mutable_reference<'a>(parameters: List<Parameter<'a>>) -> bool {
    match parameters {
        List::Nil => false,
        List::Cons(node) => match *node.head.ty.kind {
            TypeNameKind::Reference { mutable, .. } => mutable,
            _ => false,
        },
    }
}

/// Whether the first parameter is a mutable reference.
pub(crate) fn takes_mutable_reference<'a>(parameters: &List<Parameter<'a>>) -> (answer: bool)
    ensures
        answer == spec_takes_mutable_reference(*parameters),
{
    reveal(spec_takes_mutable_reference);
    match parameters {
        List::Nil => false,
        List::Cons(node) => match &*node.head.ty.kind {
            TypeNameKind::Reference { mutable, .. } => *mutable,
            _ => false,
        },
    }
}

/// The parameters behind the first.
#[verifier::opaque]
pub open spec fn spec_rest_parameters<'a>(parameters: List<Parameter<'a>>) -> List<Parameter<'a>> {
    match parameters {
        List::Nil => List::Nil,
        List::Cons(node) => node.tail,
    }
}

/// The parameters behind the first.
pub(crate) fn rest_parameters<'a>(parameters: &List<Parameter<'a>>) -> (rest: List<Parameter<'a>>)
    ensures
        rest == spec_rest_parameters(*parameters),
{
    reveal(spec_rest_parameters);
    match parameters {
        List::Nil => List::Nil,
        List::Cons(node) => node.tail.share(),
    }
}

impl<'a> State<'a> {
    /// A call that another one stands for.
    pub open spec fn analyze_call_within(
        self,
        call: CallExpression<'a>,
        expected: Option<Type>,
        fuel: nat,
    ) -> (Self, Expression<'a>)
        decreases fuel, 0nat, List::<Type>::Nil,
    {
        if fuel == 0 {
            let s = self.report(error("E3999", words("this call is nested too deeply"), call.span));
            (s, invalid_composite_expression(call.span))
        } else {
            self.analyze_call(call, expected, (fuel - 1) as nat)
        }
    }

    /// A call, by what is called.
    pub open spec fn analyze_call(
        self,
        call: CallExpression<'a>,
        expected: Option<Type>,
        fuel: nat,
    ) -> (Self, Expression<'a>)
        decreases fuel, 15nat, List::<Type>::Nil,
    {
        match *call.callee.kind {
            ast::ExpressionKind::Field(field) => match field.field {
                FieldName::Named(_) => self.analyze_method_call(call, field, expected, fuel),
                FieldName::TupleIndex { .. } => self.analyze_indirect_call(call, fuel),
            },
            ast::ExpressionKind::Path(path) => if self.lookup_path(path).is_some() {
                self.analyze_indirect_call(call, fuel)
            } else {
                self.analyze_path_call(call, path, expected, fuel)
            },
            _ => self.analyze_indirect_call(call, fuel),
        }
    }

    /// A call of what a path names.
    pub open spec fn analyze_path_call(
        self,
        call: CallExpression<'a>,
        path: Path<'a>,
        expected: Option<Type>,
        fuel: nat,
    ) -> (Self, Expression<'a>)
        decreases fuel, 8nat, List::<Type>::Nil,
    {
        match self.analyze_default_call(call, path, fuel) {
            (s, Some(value)) => (s, value),
            (s, None) => if spec_is_panic_path(path) {
                s.analyze_panic_call(call, path, fuel)
            } else {
                match spec_assertion_at(path) {
                    Some(mode) => s.analyze_assert_call(call, path, mode, fuel),
                    None => s.analyze_known_call(call, path, expected, fuel),
                }
            },
        }
    }

    /// The enum and the variant that a path of two names stands for.
    #[verifier::opaque]
    pub open spec fn called_variant(
        self,
        path: Path<'a>,
    ) -> Option<(Type, u32, EnumVariantFields<'a>)> {
        match two_names(path) {
            None => None,
            Some((owner, name)) => match self.named_enum(owner.name) {
                None => None,
                Some(ty) => match self.enum_variant(ty, name.name) {
                    None => None,
                    Some((variant, fields)) => Some((ty, variant, fields)),
                },
            },
        }
    }

    /// A call of something that the runtime or the program knows.
    pub open spec fn analyze_known_call(
        self,
        call: CallExpression<'a>,
        path: Path<'a>,
        expected: Option<Type>,
        fuel: nat,
    ) -> (Self, Expression<'a>)
        decreases fuel, 7nat, List::<Type>::Nil,
    {
        match self.analyze_runtime_intrinsic_call(call, path, expected, fuel) {
            (s, Some(value)) => (s, value),
            (s, None) => match s.analyze_intrinsic_call(call, path, expected, fuel) {
                (s, Some(value)) => (s, value),
                (s, None) => match s.called_variant(path) {
                    Some((ty, variant, fields)) => s.analyze_enum_tuple_call(
                        call,
                        path,
                        ty,
                        variant,
                        fields,
                        fuel,
                    ),
                    None => s.analyze_function_call(call, path, expected, fuel),
                },
            },
        }
    }

    /// The value of the argument at a position.
    pub open spec fn analyze_argument(
        self,
        call: CallExpression<'a>,
        position: u64,
        expected: Option<Type>,
        fuel: nat,
    ) -> (Self, Expression<'a>)
        decreases fuel, 1nat, List::<Type>::Nil,
    {
        match spec_argument_at(call.arguments, position) {
            None => (self, invalid_composite_expression(call.span)),
            Some(argument) => self.analyze_expression_expected(argument, expected, fuel),
        }
    }

    /// The arguments behind the first ones, for their problems alone.
    pub open spec fn analyze_extra(self, call: CallExpression<'a>, start: u64, fuel: nat) -> Self
        decreases fuel, 2nat, List::<Type>::Nil,
    {
        let extra = spec_arguments_from(call.arguments, start);
        let s = self.analyze_discarded(extra, fuel);
        s
    }

    /// A call must have that many arguments.
    #[verifier::opaque]
    pub open spec fn require_arity(
        self,
        call: CallExpression<'a>,
        path: Path<'a>,
        expected: u64,
    ) -> Self {
        if call.arguments.count() != expected {
            let s = self.report(
                error(
                    "E3105",
                    cons(
                        Piece::Words("constructor `"),
                        append(
                            path.display(),
                            cons(
                                Piece::Words("` expects "),
                                cons(
                                    Piece::Number(expected as u128),
                                    cons(
                                        Piece::Words(" argument(s), but "),
                                        cons(
                                            Piece::Number(call.arguments.count() as u128),
                                            words(" were provided"),
                                        ),
                                    ),
                                ),
                            ),
                        ),
                    ),
                    call.span,
                ),
            );
            s
        } else {
            self
        }
    }

    /// A call of a function value.
    pub open spec fn analyze_indirect_call(
        self,
        call: CallExpression<'a>,
        fuel: nat,
    ) -> (Self, Expression<'a>)
        decreases fuel, 4nat, List::<Type>::Nil,
    {
        let s = if !call.generic_arguments.is_empty() {
            let s = self.report(
                helped(
                    "E6004",
                    words("function values do not accept explicit generic arguments"),
                    "remove the arguments between `<` and `>`",
                    call.span,
                ),
            );
            s
        } else {
            self
        };
        let (s, callee) = s.analyze_expression_expected(call.callee, None, fuel);
        match s.function_shape(callee.ty) {
            None => {
                let s = s.analyze_discarded(call.arguments, fuel);
                let s = s.report(
                    helped(
                        "E3106",
                        framed("value of type `", callee.ty.text(), "` is not callable"),
                        "call a function path or a value with type `fn(...) -> ...`",
                        call.callee.span,
                    ),
                );
                (s, invalid_composite_expression(call.span))
            },
            Some((parameter_types, return_type)) => {
                let signature = spec_value_signature(parameter_types, return_type);
                let (s, arguments) = s.analyze_typed_call_arguments(
                    call.arguments,
                    signature,
                    fuel,
                );
                let s = s.validate_call_arguments(
                    words("function value"),
                    call.span,
                    signature,
                    arguments,
                );
                (
                    s,
                    typed(
                        ExpressionKind::IndirectCall { callee, arguments },
                        return_type,
                        call.span,
                    ),
                )
            },
        }
    }

    /// The arguments of a call. Where the result holds a reference, borrows last.
    pub open spec fn analyze_typed_call_arguments(
        self,
        arguments: List<ast::Expression<'a>>,
        signature: Signature,
        fuel: nat,
    ) -> (Self, List<Expression<'a>>)
        decreases fuel, 3nat, List::<Type>::Nil,
    {
        let persistent = self.frame.persistent_borrow;
        let s = self.set_persistent(persistent || self.types.is_scoped(signature.return_type));
        let (s, values) = s.analyze_typed_arguments(arguments, signature.parameter_types, fuel);
        let s = s.set_persistent(persistent);
        (s, values)
    }

    /// Arguments for parameters of the types.
    pub open spec fn analyze_typed_arguments(
        self,
        arguments: List<ast::Expression<'a>>,
        types: List<Type>,
        fuel: nat,
    ) -> (Self, List<Expression<'a>>)
        decreases fuel, 2nat, arguments,
    {
        match arguments {
            List::Nil => (self, List::Nil),
            List::Cons(node) => {
                let (s, first) = self.analyze_lent_argument(
                    node.head,
                    spec_first_type(types),
                    fuel,
                );
                let (s, rest) = s.analyze_typed_arguments(node.tail, spec_rest_types(types), fuel);
                (s, cons(first, rest))
            },
        }
    }

    /// Whether a mutable reference is expected.
    #[verifier::opaque]
    pub open spec fn expects_mutable_view(self, expected: Option<Type>) -> bool {
        match expected {
            Some(expected) => self.types.is_mutable_view(expected),
            None => false,
        }
    }

    /// An argument. A mutable reference is lent on.
    pub open spec fn analyze_lent_argument(
        self,
        argument: ast::Expression<'a>,
        expected: Option<Type>,
        fuel: nat,
    ) -> (Self, Expression<'a>)
        decreases fuel, 1nat, List::<Type>::Nil,
    {
        let reborrow = self.frame.reborrow_argument;
        let s = self.set_reborrow(self.expects_mutable_view(expected));
        let (s, value) = s.analyze_expression_expected(argument, expected, fuel);
        let s = s.set_reborrow(reborrow);
        (s, value)
    }

    /// Arguments must have the types of the parameters.
    #[verifier::opaque]
    pub open spec fn validate_call_arguments(
        self,
        name: Text<'a>,
        span: Span,
        signature: Signature,
        arguments: List<Expression<'a>>,
    ) -> Self {
        let s = if arguments.count() != signature.parameter_types.count() {
            let s = self.report(
                error(
                    "E3105",
                    spec_call_count(name, signature.parameter_types.count(), arguments.count()),
                    span,
                ),
            );
            s
        } else {
            self
        };
        let s = s.require_types(arguments, signature.parameter_types, "function argument");
        s
    }

    /// Values must have the types in turn.
    #[verifier::opaque]
    pub open spec fn require_types(
        self,
        values: List<Expression<'a>>,
        types: List<Type>,
        role: &'a str,
    ) -> Self
        decreases values,
    {
        match values {
            List::Nil => self,
            List::Cons(value) => match types {
                List::Nil => self,
                List::Cons(ty) => {
                    let s = self.require_type(ty.head, value.head.ty, value.head.span, role);
                    let s = s.require_types(value.tail, ty.tail, role);
                    s
                },
            },
        }
    }

    /// The type whose default value a path asks for.
    #[verifier::opaque]
    pub open spec fn defaulted_type(self, path: Path<'a>) -> Option<(Identifier<'a>, Type)> {
        match two_names(path) {
            None => None,
            Some((owner, method)) => if method.name@ == "default"@ {
                match self.named_type(owner.name) {
                    None => None,
                    Some(ty) => if self.types.meets(ty, "Default"@) {
                        Some((owner, ty))
                    } else {
                        None
                    },
                }
            } else {
                None
            },
        }
    }

    /// The default value of a type.
    pub open spec fn analyze_default_call(
        self,
        call: CallExpression<'a>,
        path: Path<'a>,
        fuel: nat,
    ) -> (Self, Option<Expression<'a>>)
        decreases fuel, 2nat, List::<Type>::Nil,
    {
        match self.defaulted_type(path) {
            None => (self, None),
            Some((owner, ty)) => {
                let s = if !call.arguments.is_empty() || !call.generic_arguments.is_empty() {
                    let s = self.report(
                        advised(
                            "E7007",
                            words("derived `default` does not accept arguments"),
                            words3("write `", owner.name, "::default()`"),
                            call.span,
                        ),
                    );
                    s
                } else {
                    self
                };
                let s = s.analyze_discarded(call.arguments, fuel);
                let (s, value) = s.default_or_problem(owner.name, ty, call.span);
                (s, Some(value))
            },
        }
    }

    /// The default value of a type, if it can be constructed.
    #[verifier::opaque]
    pub open spec fn default_or_problem(
        self,
        owner: &'a str,
        ty: Type,
        span: Span,
    ) -> (Self, Expression<'a>) {
        match self.types.default_expression(ty, span) {
            Some(value) => (self, value),
            None => {
                let s = self.report(
                    helped(
                        "E7007",
                        words3("cannot construct the derived default for `", owner, "`"),
                        "ensure every stored field has a deterministic default",
                        span,
                    ),
                );
                (s, invalid_composite_expression(span))
            },
        }
    }

    /// A `panic`.
    pub open spec fn analyze_panic_call(
        self,
        call: CallExpression<'a>,
        path: Path<'a>,
        fuel: nat,
    ) -> (Self, Expression<'a>)
        decreases fuel, 3nat, List::<Type>::Nil,
    {
        let s = self.require_arity(call, path, 1);
        let (s, message) = s.analyze_argument(call, 0, Some(Type::Str), fuel);
        let s = s.require_type(Type::Str, message.ty, message.span, "panic message");
        let s = s.analyze_extra(call, 1, fuel);
        (s, typed(ExpressionKind::Panic { message }, Type::Never, call.span))
    }

    /// An assertion takes a condition and perhaps a message.
    #[verifier::opaque]
    pub open spec fn require_assertion_arity(self, call: CallExpression<'a>, path: Path<'a>) -> Self {
        let count: u64 = call.arguments.count();
        if count != 1 && count != 2 {
            let s = self.report(
                advised(
                    "E6004",
                    cons(
                        Piece::Words("intrinsic `"),
                        append(
                            path.display(),
                            cons(
                                Piece::Words(
                                    "` expects one condition and an optional message, but ",
                                ),
                                cons(
                                    Piece::Number(count as u128),
                                    words(" argument(s) were provided"),
                                ),
                            ),
                        ),
                    ),
                    cons(
                        Piece::Words("write `"),
                        append(
                            path.display(),
                            cons(
                                Piece::Words("(condition)` or `"),
                                append(path.display(), words("(condition, message)`")),
                            ),
                        ),
                    ),
                    call.span,
                ),
            );
            s
        } else {
            self
        }
    }

    /// The message of an assertion.
    pub open spec fn analyze_assertion_message(
        self,
        call: CallExpression<'a>,
        fuel: nat,
    ) -> (Self, Expression<'a>)
        decreases fuel, 1nat, List::<Type>::Nil,
    {
        match spec_argument_at(call.arguments, 1) {
            None => (
                self,
                typed(ExpressionKind::String(words("assertion failed")), Type::Str, call.span),
            ),
            Some(argument) => self.analyze_expression_expected(argument, Some(Type::Str), fuel),
        }
    }

    /// An assertion.
    pub open spec fn analyze_assert_call(
        self,
        call: CallExpression<'a>,
        path: Path<'a>,
        mode: AssertionMode,
        fuel: nat,
    ) -> (Self, Expression<'a>)
        decreases fuel, 3nat, List::<Type>::Nil,
    {
        let s = self.require_assertion_arity(call, path);
        let (s, condition) = s.analyze_argument(call, 0, Some(Type::Bool), fuel);
        let s = s.require_type(Type::Bool, condition.ty, condition.span, "assertion condition");
        let (s, message) = s.analyze_assertion_message(call, fuel);
        let s = s.require_type(Type::Str, message.ty, message.span, "assertion message");
        let s = s.analyze_extra(call, 2, fuel);
        (s, typed(ExpressionKind::Assert { mode, condition, message }, Type::Unit, call.span))
    }

    /// The variant and its payload that a constructor makes of an expected type.
    #[verifier::opaque]
    pub open spec fn constructed(
        self,
        constructor: Constructor,
        expected: Option<Type>,
    ) -> Option<(Type, u32, Type)> {
        match expected {
            None => None,
            Some(ty) => match self.types.intrinsic(ty) {
                None => None,
                Some(IntrinsicType::Option { value }) => match constructor {
                    Constructor::Present => Some((ty, 0, value)),
                    _ => None,
                },
                Some(IntrinsicType::Result { success, error }) => match constructor {
                    Constructor::Present => None,
                    Constructor::Success => Some((ty, 0, success)),
                    Constructor::Failure => Some((ty, 1, error)),
                },
            },
        }
    }

    /// Whether an `Option` or a `Result` is expected.
    #[verifier::opaque]
    pub open spec fn expects_intrinsic(self, expected: Option<Type>) -> bool {
        match expected {
            Some(expected) => self.types.intrinsic(expected).is_some(),
            None => false,
        }
    }

    /// `Some`, `Ok` or `Err`.
    pub open spec fn analyze_intrinsic_call(
        self,
        call: CallExpression<'a>,
        path: Path<'a>,
        expected: Option<Type>,
        fuel: nat,
    ) -> (Self, Option<Expression<'a>>)
        decreases fuel, 3nat, List::<Type>::Nil,
    {
        match spec_constructor_at(path) {
            None => (self, None),
            Some((name, constructor)) => match self.constructed(constructor, expected) {
                Some((ty, variant, field_type)) => {
                    let (s, value) = self.analyze_intrinsic_constructor(
                        call,
                        path,
                        ty,
                        variant,
                        field_type,
                        fuel,
                    );
                    (s, Some(value))
                },
                None => if constructor == Constructor::Present
                    && !self.expects_intrinsic(expected) {
                    let (s, value) = self.infer_option_constructor(call, path, fuel);
                    (s, Some(value))
                } else {
                    let s = self.analyze_discarded(call.arguments, fuel);
                    let s = s.report(
                        helped(
                            "E3139",
                            words5(
                                "`",
                                name,
                                "` requires an expected ",
                                if constructor == Constructor::Present {
                                    "`Option<T>`"
                                } else {
                                    "`Result<T, E>`"
                                },
                                " type",
                            ),
                            "add a result type annotation or use the constructor in a typed context",
                            call.span,
                        ),
                    );
                    (s, Some(invalid_composite_expression(call.span)))
                },
            },
        }
    }

    /// `Some` without an expected type.
    pub open spec fn infer_option_constructor(
        self,
        call: CallExpression<'a>,
        path: Path<'a>,
        fuel: nat,
    ) -> (Self, Expression<'a>)
        decreases fuel, 2nat, List::<Type>::Nil,
    {
        let s = self.require_arity(call, path, 1);
        match call.arguments {
            List::Nil => (s, invalid_composite_expression(call.span)),
            List::Cons(node) => {
                let (s, field) = s.analyze_expression_expected(node.head, None, fuel);
                let s = s.analyze_discarded(node.tail, fuel);
                s.wrap_in_option(field, call.span)
            },
        }
    }

    /// A value as an optional value.
    #[verifier::opaque]
    pub open spec fn wrap_in_option(
        self,
        field: Expression<'a>,
        span: Span,
    ) -> (Self, Expression<'a>) {
        match self.intern_option(field.ty, span) {
            (s, None) => (s, invalid_composite_expression(span)),
            (s, Some(ty)) => (
                s,
                typed(ExpressionKind::Enum { variant: 0, fields: single(field) }, ty, span),
            ),
        }
    }

    /// A constructor with an expected type.
    pub open spec fn analyze_intrinsic_constructor(
        self,
        call: CallExpression<'a>,
        path: Path<'a>,
        ty: Type,
        variant: u32,
        field_type: Type,
        fuel: nat,
    ) -> (Self, Expression<'a>)
        decreases fuel, 2nat, List::<Type>::Nil,
    {
        let s = self.require_arity(call, path, 1);
        let (s, fields) = s.analyze_arguments(call.arguments, single(field_type), fuel);
        let s = s.require_types(fields, single(field_type), "constructor argument");
        (s, typed(ExpressionKind::Enum { variant, fields }, ty, call.span))
    }

    /// Arguments that should have the types in turn.
    pub open spec fn analyze_arguments(
        self,
        arguments: List<ast::Expression<'a>>,
        types: List<Type>,
        fuel: nat,
    ) -> (Self, List<Expression<'a>>)
        decreases fuel, 1nat, arguments,
    {
        match arguments {
            List::Nil => (self, List::Nil),
            List::Cons(node) => {
                let (s, first) = self.analyze_expression_expected(
                    node.head,
                    spec_first_type(types),
                    fuel,
                );
                let (s, rest) = s.analyze_arguments(node.tail, spec_rest_types(types), fuel);
                (s, cons(first, rest))
            },
        }
    }

    /// Whether a failure of a type can be passed on by a function.
    #[verifier::opaque]
    pub open spec fn propagates(self, intrinsic: IntrinsicType) -> bool {
        match self.types.intrinsic(self.frame.signature.return_type) {
            None => false,
            Some(IntrinsicType::Option { .. }) => match intrinsic {
                IntrinsicType::Option { .. } => true,
                IntrinsicType::Result { .. } => false,
            },
            Some(IntrinsicType::Result { error, .. }) => match intrinsic {
                IntrinsicType::Option { .. } => false,
                IntrinsicType::Result { error: failure, .. } => failure == error,
            },
        }
    }

    /// `?` behind a value.
    pub open spec fn analyze_try(
        self,
        value: ast::Expression<'a>,
        span: Span,
        fuel: nat,
    ) -> (Self, Expression<'a>)
        decreases fuel, 1nat, List::<Type>::Nil,
    {
        let s = self.reject_deferred_control_flow("`?`", span);
        let return_type = s.frame.signature.return_type;
        let (s, value) = s.analyze_expression_expected(value, Some(return_type), fuel);
        s.propagate_failure(value, return_type, span)
    }

    /// The success of a value; its failure is passed on.
    #[verifier::opaque]
    pub open spec fn propagate_failure(
        self,
        value: Expression<'a>,
        return_type: Type,
        span: Span,
    ) -> (Self, Expression<'a>) {
        match self.intrinsic(value.ty) {
            None => {
                let s = self.report(
                    helped(
                        "E3140",
                        framed(
                            "`?` requires `Option<T>` or `Result<T, E>`, found `",
                            value.ty.text(),
                            "`",
                        ),
                        "apply `?` only to an optional or fallible expression",
                        span,
                    ),
                );
                (s, invalid_composite_expression(span))
            },
            Some(intrinsic) => {
                let s = if !self.propagates(intrinsic) {
                    let s = self.report(
                        helped(
                            "E3140",
                            cons(
                                Piece::Words("`?` cannot propagate `"),
                                append(
                                    value.ty.text(),
                                    framed(
                                        "` from a function returning `",
                                        return_type.text(),
                                        "`",
                                    ),
                                ),
                            ),
                            "use the same Option or Result type as the function return type",
                            span,
                        ),
                    );
                    s
                } else {
                    self
                };
                let (output_type, failure_type) = match intrinsic {
                    IntrinsicType::Option { value: output } => (output, None),
                    IntrinsicType::Result { success, error } => (success, Some(error)),
                };
                (
                    s,
                    typed(
                        ExpressionKind::Try {
                            value,
                            success_variant: 0,
                            output_type,
                            failure_variant: 1,
                            failure_type,
                            return_type,
                        },
                        output_type,
                        span,
                    ),
                )
            },
        }
    }

    /// A variant with positional payload.
    pub open spec fn analyze_enum_tuple_call(
        self,
        call: CallExpression<'a>,
        path: Path<'a>,
        ty: Type,
        variant: u32,
        payload: EnumVariantFields<'a>,
        fuel: nat,
    ) -> (Self, Expression<'a>)
        decreases fuel, 2nat, List::<Type>::Nil,
    {
        match payload {
            EnumVariantFields::Tuple(types) => {
                let s = self.require_variant_arity(call, path, types);
                let (s, fields) = s.analyze_arguments(call.arguments, types, fuel);
                let s = s.require_types(fields, types, "variant argument");
                (s, typed(ExpressionKind::Enum { variant, fields }, ty, call.span))
            },
            _ => {
                let s = self.report(
                    error(
                        "E3119",
                        framed("enum variant `", path.display(), "` is not tuple-like"),
                        path.span,
                    ),
                );
                (s, invalid_composite_expression(call.span))
            },
        }
    }

    /// A variant must have as many arguments as its payload has parts.
    #[verifier::opaque]
    pub open spec fn require_variant_arity(
        self,
        call: CallExpression<'a>,
        path: Path<'a>,
        types: List<Type>,
    ) -> Self {
        if types.count() != call.arguments.count() {
            let s = self.report(
                error(
                    "E3105",
                    cons(
                        Piece::Words("variant `"),
                        append(
                            path.display(),
                            cons(
                                Piece::Words("` expects "),
                                cons(
                                    Piece::Number(types.count() as u128),
                                    cons(
                                        Piece::Words(" argument(s), but "),
                                        cons(
                                            Piece::Number(call.arguments.count() as u128),
                                            words(" were provided"),
                                        ),
                                    ),
                                ),
                            ),
                        ),
                    ),
                    call.span,
                ),
            );
            s
        } else {
            self
        }
    }

    /// The full name of the function that a path names.
    #[verifier::opaque]
    pub open spec fn resolve_function_path(self, path: Path<'a>) -> (Self, Option<Text<'a>>) {
        match function_symbol(path) {
            Some(name) => (self, Some(name)),
            None => {
                let s = self.report(
                    helped(
                        "E3106",
                        framed("qualified call `", path.display(), "` requires module resolution"),
                        "module paths must resolve to one canonical symbol before typing",
                        path.span,
                    ),
                );
                (s, None)
            },
        }
    }

    /// A call of a function by its name.
    pub open spec fn analyze_function_call(
        self,
        call: CallExpression<'a>,
        path: Path<'a>,
        expected: Option<Type>,
        fuel: nat,
    ) -> (Self, Expression<'a>)
        decreases fuel, 5nat, List::<Type>::Nil,
    {
        match self.resolve_function_path(path) {
            (s, None) => (s, invalid_composite_expression(call.span)),
            (s, Some(name)) => match s.signature_of(name) {
                Some(signature) => s.analyze_plain_call(call, path, name, signature, fuel),
                None => match s.template_of(name) {
                    Some(template) => s.analyze_generic_function_call(
                        call,
                        name,
                        template,
                        expected,
                        fuel,
                    ),
                    None => {
                        let s = s.report(
                            error(
                                "E3106",
                                framed("cannot resolve function `", path.display(), "`"),
                                path.span,
                            ),
                        );
                        (s, invalid_composite_expression(call.span))
                    },
                },
            },
        }
    }

    /// A call of a function that is not generic.
    pub open spec fn analyze_plain_call(
        self,
        call: CallExpression<'a>,
        path: Path<'a>,
        name: Text<'a>,
        signature: Signature,
        fuel: nat,
    ) -> (Self, Expression<'a>)
        decreases fuel, 4nat, List::<Type>::Nil,
    {
        let s = self.check_plain_call(call, path, name, signature);
        let (s, arguments) = s.analyze_typed_call_arguments(call.arguments, signature, fuel);
        let s = s.validate_call_arguments(name, call.span, signature, arguments);
        (
            s,
            typed(
                ExpressionKind::Call { function: signature.id, arguments },
                signature.return_type,
                call.span,
            ),
        )
    }

    /// A function that is not generic takes no generic arguments.
    #[verifier::opaque]
    pub open spec fn check_plain_call(
        self,
        call: CallExpression<'a>,
        path: Path<'a>,
        name: Text<'a>,
        signature: Signature,
    ) -> Self {
        let s = if !call.generic_arguments.is_empty() {
            let s = self.report(
                helped(
                    "E6004",
                    framed("function `", name, "` is not generic"),
                    "remove the arguments between `<` and `>`",
                    call.span,
                ),
            );
            s
        } else {
            self
        };
        let s = s.validate_function_access(path, call.span, name, signature);
        s
    }

    /// What the expected result says of generic parameters.
    #[verifier::opaque]
    pub open spec fn infer_from_result(
        self,
        template: GenericFunctionTemplate<'a>,
        expected: Option<Type>,
        environment: Environment<'a>,
    ) -> Environment<'a> {
        match template.function.return_type {
            None => environment,
            Some(written) => match expected {
                None => environment,
                Some(expected) => {
                    let (environment, _agrees) = self.types.infer(
                        written,
                        expected,
                        template.parameters,
                        environment,
                    );
                    environment
                },
            },
        }
    }

    /// The bindings of generic parameters before the arguments are checked.
    #[verifier::opaque]
    pub open spec fn begin_generic_call(
        self,
        call: CallExpression<'a>,
        name: Text<'a>,
        template: GenericFunctionTemplate<'a>,
        expected: Option<Type>,
    ) -> (Self, Environment<'a>) {
        let outer = self.types.base_environment();
        let explicit = spec_parameters_from(template.parameters, template.explicit_parameter_start);
        let (s, environment) = self.bind_explicit_generic_arguments(
            call.generic_arguments,
            explicit,
            outer,
            call.span,
        );
        let environment = s.infer_from_result(template, expected, environment);
        let s = if call.arguments.count() != template.function.parameters.count() {
            let s = s.report(
                error(
                    "E3105",
                    spec_call_count(
                        name,
                        template.function.parameters.count(),
                        call.arguments.count(),
                    ),
                    call.span,
                ),
            );
            s
        } else {
            s
        };
        (s, environment)
    }

    /// Whether the result of a generic function may hold a reference.
    #[verifier::opaque]
    pub open spec fn may_return_scoped(self, template: GenericFunctionTemplate<'a>) -> bool {
        match template.function.return_type {
            Some(written) => self.types.may_be_scoped(written),
            None => false,
        }
    }

    /// A call of a generic function.
    pub open spec fn analyze_generic_function_call(
        self,
        call: CallExpression<'a>,
        name: Text<'a>,
        template: GenericFunctionTemplate<'a>,
        expected: Option<Type>,
        fuel: nat,
    ) -> (Self, Expression<'a>)
        decreases fuel, 3nat, List::<Type>::Nil,
    {
        let (s, environment) = self.begin_generic_call(call, name, template, expected);
        let persistent = s.frame.persistent_borrow;
        let s = s.set_persistent(persistent || s.may_return_scoped(template));
        let (s, (arguments, environment)) = s.infer_generic_call_arguments(
            call.arguments,
            template.function.parameters,
            1,
            name,
            template,
            environment,
            fuel,
        );
        let s = s.set_persistent(persistent);
        s.finish_generic_call(call, name, template, environment, arguments)
    }

    /// The instance of a generic function that a call needs.
    #[verifier::opaque]
    pub open spec fn finish_generic_call(
        self,
        call: CallExpression<'a>,
        name: Text<'a>,
        template: GenericFunctionTemplate<'a>,
        environment: Environment<'a>,
        arguments: List<Expression<'a>>,
    ) -> (Self, Expression<'a>) {
        match self.complete_generic_environment(
            template.parameters,
            template.where_predicates,
            environment,
            template.function.span,
        ) {
            (s, None) => (s, invalid_composite_expression(call.span)),
            (s, Some((environment, values))) => match s.instantiate_generic_function(
                template,
                values,
                environment,
                call.span,
            ) {
                (s, None) => (s, invalid_composite_expression(call.span)),
                (s, Some(signature)) => {
                    let s = s.validate_call_arguments(name, call.span, signature, arguments);
                    (
                        s,
                        typed(
                            ExpressionKind::Call { function: signature.id, arguments },
                            signature.return_type,
                            call.span,
                        ),
                    )
                },
            },
        }
    }

    /// The type that a parameter of a generic function has so far.
    #[verifier::opaque]
    pub open spec fn expected_parameter_type(
        self,
        parameters: List<Parameter<'a>>,
        template: GenericFunctionTemplate<'a>,
        environment: Environment<'a>,
    ) -> (Self, Option<Type>) {
        match parameters {
            List::Nil => (self, None),
            List::Cons(node) => if type_is_bound(node.head.ty, template.parameters, environment) {
                self.resolve_type_in(node.head.ty, environment)
            } else {
                (self, None)
            },
        }
    }

    /// The arguments of a generic call, and the bindings that they make. The
    /// arguments are counted from `position`.
    pub open spec fn infer_generic_call_arguments(
        self,
        arguments: List<ast::Expression<'a>>,
        parameters: List<Parameter<'a>>,
        position: u64,
        name: Text<'a>,
        template: GenericFunctionTemplate<'a>,
        environment: Environment<'a>,
        fuel: nat,
    ) -> (Self, (List<Expression<'a>>, Environment<'a>))
        decreases fuel, 2nat, arguments,
    {
        match arguments {
            List::Nil => (self, (List::Nil, environment)),
            List::Cons(node) => {
                let (s, expected) = self.expected_parameter_type(parameters, template, environment);
                let (s, value) = s.analyze_generic_argument(
                    node.head,
                    expected,
                    spec_takes_mutable_reference(parameters),
                    fuel,
                );
                let (s, environment) = s.infer_from_argument(
                    parameters,
                    value.ty,
                    position,
                    name,
                    template,
                    environment,
                    node.head.span,
                );
                let (s, (rest, environment)) = s.infer_generic_call_arguments(
                    node.tail,
                    spec_rest_parameters(parameters),
                    position.saturating_add(1),
                    name,
                    template,
                    environment,
                    fuel,
                );
                (s, (cons(value, rest), environment))
            },
        }
    }

    /// An argument of a generic call. A mutable reference is lent on.
    pub open spec fn analyze_generic_argument(
        self,
        argument: ast::Expression<'a>,
        expected: Option<Type>,
        takes_mutable: bool,
        fuel: nat,
    ) -> (Self, Expression<'a>)
        decreases fuel, 1nat, List::<Type>::Nil,
    {
        let reborrow = self.frame.reborrow_argument;
        let s = self.set_reborrow(takes_mutable || self.expects_mutable_view(expected));
        let (s, value) = s.analyze_expression_expected(argument, expected, fuel);
        let s = s.set_reborrow(reborrow);
        (s, value)
    }

    /// What an argument says of generic parameters.
    #[verifier::opaque]
    pub open spec fn infer_from_argument(
        self,
        parameters: List<Parameter<'a>>,
        ty: Type,
        position: u64,
        name: Text<'a>,
        template: GenericFunctionTemplate<'a>,
        environment: Environment<'a>,
        span: Span,
    ) -> (Self, Environment<'a>) {
        match parameters {
            List::Nil => (self, environment),
            List::Cons(node) => {
                let (environment, agrees) = self.types.infer(
                    node.head.ty,
                    ty,
                    template.parameters,
                    environment,
                );
                let s = if !agrees {
                    let s = self.report(
                        helped(
                            "E6004",
                            cons(
                                Piece::Words("argument "),
                                cons(
                                    Piece::Number(position as u128),
                                    framed(
                                        " does not match the generic parameter pattern `",
                                        name,
                                        "`",
                                    ),
                                ),
                            ),
                            "use one consistent concrete type for each generic parameter",
                            span,
                        ),
                    );
                    s
                } else {
                    self
                };
                (s, environment)
            },
        }
    }
}

impl<'a> Analyzer<'a> {
    /// A call that another one stands for.
    pub(crate) fn analyze_call_within(
        &mut self,
        call: &CallExpression<'a>,
        expected: Option<Type>,
        fuel: u32,
    ) -> (analyzed: Expression<'a>)
        ensures
            (final(self)@, analyzed) == old(self)@.analyze_call_within(
                *call,
                expected,
                fuel as nat,
            ),
            old(self)@.leads_to(final(self)@),
            forall|watch: Watch| #[trigger]
                watched(watch) && old(self)@.is_apart(watch) && !call_mentions(*call, watch.name)
                    ==> old(self)@.spares(final(self)@, watch),
            forall|scene: Scene| #[trigger]
                final(self)@.admits(scene) && old(self)@.prepared()
                    ==> final(self)@.troubled() || sound(analyzed, scene),
            final(self)@.troubled() || form_renders(ast::ExpressionKind::Call(*call), analyzed),
        decreases fuel, 0nat, List::<Type>::Nil,
    {
        if fuel == 0 {
            self.report(error("E3999", words("this call is nested too deeply"), call.span));
            return invalid_composite_expression(call.span);
        }
        self.analyze_call(call, expected, fuel - 1)
    }

    /// A call, by what is called.
    pub(crate) fn analyze_call(
        &mut self,
        call: &CallExpression<'a>,
        expected: Option<Type>,
        fuel: u32,
    ) -> (analyzed: Expression<'a>)
        ensures
            (final(self)@, analyzed) == old(self)@.analyze_call(*call, expected, fuel as nat),
            old(self)@.leads_to(final(self)@),
            forall|watch: Watch| #[trigger]
                watched(watch) && old(self)@.is_apart(watch) && !call_mentions(*call, watch.name)
                    ==> old(self)@.spares(final(self)@, watch),
            forall|scene: Scene| #[trigger]
                final(self)@.admits(scene) && old(self)@.prepared()
                    ==> final(self)@.troubled() || sound(analyzed, scene),
            final(self)@.troubled() || form_renders(ast::ExpressionKind::Call(*call), analyzed),
        decreases fuel, 15nat, List::<Type>::Nil,
    {
        match &*call.callee.kind {
            ast::ExpressionKind::Field(field) => match &field.field {
                FieldName::Named(_) => self.analyze_method_call(call, field, expected, fuel),
                FieldName::TupleIndex { .. } => self.analyze_indirect_call(call, fuel),
            },
            ast::ExpressionKind::Path(path) => if self.lookup_path(path).is_some() {
                self.analyze_indirect_call(call, fuel)
            } else {
                self.analyze_path_call(call, path, expected, fuel)
            },
            _ => self.analyze_indirect_call(call, fuel),
        }
    }

    /// A call of what a path names.
    pub(crate) fn analyze_path_call(
        &mut self,
        call: &CallExpression<'a>,
        path: &Path<'a>,
        expected: Option<Type>,
        fuel: u32,
    ) -> (analyzed: Expression<'a>)
        ensures
            (final(self)@, analyzed) == old(self)@.analyze_path_call(
                *call,
                *path,
                expected,
                fuel as nat,
            ),
            old(self)@.leads_to(final(self)@),
            forall|watch: Watch| #[trigger]
                watched(watch) && old(self)@.is_apart(watch) && !call_mentions(*call, watch.name)
                    ==> old(self)@.spares(final(self)@, watch),
            forall|scene: Scene| #[trigger]
                final(self)@.admits(scene) && old(self)@.prepared()
                    ==> final(self)@.troubled() || sound(analyzed, scene),
        decreases fuel, 8nat, List::<Type>::Nil,
    {
        match self.analyze_default_call(call, path, fuel) {
            Some(value) => value,
            None => if is_panic_path(path) {
                self.analyze_panic_call(call, path, fuel)
            } else {
                match assertion_at(path) {
                    Some(mode) => self.analyze_assert_call(call, path, mode, fuel),
                    None => self.analyze_known_call(call, path, expected, fuel),
                }
            },
        }
    }

    /// The enum and the variant that a path of two names stands for.
    pub(crate) fn called_variant(
        &self,
        path: &Path<'a>,
    ) -> (variant: Option<(Type, u32, EnumVariantFields<'a>)>)
        ensures
            variant == self@.called_variant(*path),
    {
        reveal(State::called_variant);
        match path_pair(path) {
            None => None,
            Some((owner, name)) => match self.named_enum(owner.name) {
                None => None,
                Some(ty) => match self.enum_variant(ty, name.name) {
                    None => None,
                    Some((variant, fields)) => Some((ty, variant, fields)),
                },
            },
        }
    }

    /// A call of something that the runtime or the program knows.
    pub(crate) fn analyze_known_call(
        &mut self,
        call: &CallExpression<'a>,
        path: &Path<'a>,
        expected: Option<Type>,
        fuel: u32,
    ) -> (analyzed: Expression<'a>)
        ensures
            (final(self)@, analyzed) == old(self)@.analyze_known_call(
                *call,
                *path,
                expected,
                fuel as nat,
            ),
            old(self)@.leads_to(final(self)@),
            forall|watch: Watch| #[trigger]
                watched(watch) && old(self)@.is_apart(watch) && !call_mentions(*call, watch.name)
                    ==> old(self)@.spares(final(self)@, watch),
            forall|scene: Scene| #[trigger]
                final(self)@.admits(scene) && old(self)@.prepared()
                    ==> final(self)@.troubled() || sound(analyzed, scene),
        decreases fuel, 7nat, List::<Type>::Nil,
    {
        match self.analyze_runtime_intrinsic_call(call, path, expected, fuel) {
            Some(value) => value,
            None => match self.analyze_intrinsic_call(call, path, expected, fuel) {
                Some(value) => value,
                None => match self.called_variant(path) {
                    Some((ty, variant, fields)) => self.analyze_enum_tuple_call(
                        call,
                        path,
                        ty,
                        variant,
                        &fields,
                        fuel,
                    ),
                    None => self.analyze_function_call(call, path, expected, fuel),
                },
            },
        }
    }

    /// The value of the argument at a position.
    pub(crate) fn analyze_argument(
        &mut self,
        call: &CallExpression<'a>,
        position: u64,
        expected: Option<Type>,
        fuel: u32,
    ) -> (value: Expression<'a>)
        ensures
            (final(self)@, value) == old(self)@.analyze_argument(
                *call,
                position,
                expected,
                fuel as nat,
            ),
            old(self)@.leads_to(final(self)@),
            forall|watch: Watch| #[trigger]
                watched(watch) && old(self)@.is_apart(watch) && !call_mentions(*call, watch.name)
                    ==> old(self)@.spares(final(self)@, watch),
            forall|scene: Scene| #[trigger]
                final(self)@.admits(scene) && old(self)@.prepared()
                    ==> final(self)@.troubled() || sound(value, scene),
            final(self)@.troubled() || (position < call.arguments@.len() ==> renders(
                call.arguments@[position as int],
                value,
            )),
        decreases fuel, 1nat, List::<Type>::Nil,
    {
        proof {
            arguments_are_found(call.arguments, position);
        }
        match argument_at(&call.arguments, position) {
            None => invalid_composite_expression(call.span),
            Some(argument) => self.analyze_expression_expected(&argument, expected, fuel),
        }
    }

    /// The arguments behind the first ones, for their problems alone.
    pub(crate) fn analyze_extra(&mut self, call: &CallExpression<'a>, start: u64, fuel: u32)
        ensures
            final(self)@ == old(self)@.analyze_extra(*call, start, fuel as nat),
            old(self)@.leads_to(final(self)@),
            forall|watch: Watch| #[trigger]
                watched(watch) && old(self)@.is_apart(watch) && !call_mentions(*call, watch.name)
                    ==> old(self)@.spares(final(self)@, watch),
        decreases fuel, 2nat, List::<Type>::Nil,
    {
        let extra = arguments_from(&call.arguments, start);
        self.analyze_discarded(&extra, fuel);
    }

    /// A call must have that many arguments.
    pub(crate) fn require_arity(
        &mut self,
        call: &CallExpression<'a>,
        path: &Path<'a>,
        expected: u64,
    )
        ensures
            final(self)@ == old(self)@.require_arity(*call, *path, expected),
            old(self)@.leads_to(final(self)@),
            old(self)@.stays(final(self)@),
            final(self)@.troubled() || expected == u64::MAX || call.arguments@.len() == expected,
    {
        reveal(State::require_arity);
        proof {
            counts_are_lengths(call.arguments);
        }
        if call.arguments.count() != expected {
            self.report(
                error(
                    "E3105",
                    cons(
                        Piece::Words("constructor `"),
                        joined(
                            &path.display(),
                            cons(
                                Piece::Words("` expects "),
                                cons(
                                    Piece::Number(expected as u128),
                                    cons(
                                        Piece::Words(" argument(s), but "),
                                        cons(
                                            Piece::Number(call.arguments.count() as u128),
                                            words(" were provided"),
                                        ),
                                    ),
                                ),
                            ),
                        ),
                    ),
                    call.span,
                ),
            );
        }
    }

    /// A call of a function value.
    pub(crate) fn analyze_indirect_call(
        &mut self,
        call: &CallExpression<'a>,
        fuel: u32,
    ) -> (analyzed: Expression<'a>)
        ensures
            (final(self)@, analyzed) == old(self)@.analyze_indirect_call(*call, fuel as nat),
            old(self)@.leads_to(final(self)@),
            forall|watch: Watch| #[trigger]
                watched(watch) && old(self)@.is_apart(watch) && !call_mentions(*call, watch.name)
                    ==> old(self)@.spares(final(self)@, watch),
            forall|scene: Scene| #[trigger]
                final(self)@.admits(scene) && old(self)@.prepared()
                    ==> final(self)@.troubled() || sound(analyzed, scene),
            final(self)@.troubled() || passes(*call, analyzed),
        decreases fuel, 4nat, List::<Type>::Nil,
    {
        if !call.generic_arguments.is_empty() {
            self.report(
                helped(
                    "E6004",
                    words("function values do not accept explicit generic arguments"),
                    "remove the arguments between `<` and `>`",
                    call.span,
                ),
            );
        }
        let callee = self.analyze_expression_expected(&call.callee, None, fuel);
        match self.function_shape(callee.ty) {
            None => {
                self.analyze_discarded(&call.arguments, fuel);
                self.report(
                    helped(
                        "E3106",
                        frame("value of type `", &callee.ty.text(), "` is not callable"),
                        "call a function path or a value with type `fn(...) -> ...`",
                        call.callee.span,
                    ),
                );
                invalid_composite_expression(call.span)
            },
            Some((parameter_types, return_type)) => {
                let signature = value_signature(parameter_types, return_type);
                let arguments = self.analyze_typed_call_arguments(
                    &call.arguments,
                    &signature,
                    fuel,
                );
                self.validate_call_arguments(
                    &words("function value"),
                    call.span,
                    &signature,
                    &arguments,
                );
                typed(ExpressionKind::IndirectCall { callee, arguments }, return_type, call.span)
            },
        }
    }

    /// The arguments of a call. Where the result holds a reference, borrows last.
    pub(crate) fn analyze_typed_call_arguments(
        &mut self,
        arguments: &List<ast::Expression<'a>>,
        signature: &Signature,
        fuel: u32,
    ) -> (values: List<Expression<'a>>)
        ensures
            (final(self)@, values) == old(self)@.analyze_typed_call_arguments(
                *arguments,
                *signature,
                fuel as nat,
            ),
            old(self)@.leads_to(final(self)@),
            forall|watch: Watch| #[trigger]
                watched(watch) && old(self)@.is_apart(watch)
                    && !any_mentions(*arguments, watch.name)
                    ==> old(self)@.spares(final(self)@, watch),
            forall|scene: Scene| #[trigger]
                final(self)@.admits(scene) && old(self)@.prepared()
                    ==> final(self)@.troubled() || all_sound(values, scene),
            final(self)@.troubled() || all_render(*arguments, values),
        decreases fuel, 3nat, List::<Type>::Nil,
    {
        let persistent = self.frame.persistent_borrow;
        self.set_persistent(persistent || self.types.is_scoped(signature.return_type));
        let values = self.analyze_typed_arguments(arguments, &signature.parameter_types, fuel);
        self.set_persistent(persistent);
        values
    }

    /// Arguments for parameters of the types.
    pub(crate) fn analyze_typed_arguments(
        &mut self,
        arguments: &List<ast::Expression<'a>>,
        types: &List<Type>,
        fuel: u32,
    ) -> (values: List<Expression<'a>>)
        ensures
            (final(self)@, values) == old(self)@.analyze_typed_arguments(
                *arguments,
                *types,
                fuel as nat,
            ),
            old(self)@.leads_to(final(self)@),
            forall|watch: Watch| #[trigger]
                watched(watch) && old(self)@.is_apart(watch)
                    && !any_mentions(*arguments, watch.name)
                    ==> old(self)@.spares(final(self)@, watch),
            forall|scene: Scene| #[trigger]
                final(self)@.admits(scene) && old(self)@.prepared()
                    ==> final(self)@.troubled() || all_sound(values, scene),
            final(self)@.troubled() || all_render(*arguments, values),
        decreases fuel, 2nat, *arguments,
    {
        let mut ahead: &List<ast::Expression<'a>> = arguments;
        let mut current_types: List<Type> = types.share();
        let mut done: Vec<Expression<'a>> = Vec::new();
        loop
            invariant
                old(self)@.analyze_typed_arguments(
                                *arguments,
                                *types,
                                fuel as nat,
                            ) == {
                    let (state, rest) = self@.analyze_typed_arguments(
                                *ahead,
                                current_types,
                                fuel as nat,
                            );
                    (state, prepended(done@, rest))
                },
                old(self)@.leads_to(self@),
                forall|watch: Watch| #[trigger]
                    watched(watch) && old(self)@.is_apart(watch)
                        && !any_mentions(*arguments, watch.name)
                        ==> old(self)@.spares(self@, watch),
                forall|watch: Watch| #[trigger]
                    watched(watch) && !any_mentions(*arguments, watch.name)
                        ==> !any_mentions(*ahead, watch.name),
                forall|scene: Scene| #[trigger]
                    self@.admits(scene) && old(self)@.prepared()
                    ==> self@.troubled() || all_sound(prepended(done@, List::Nil), scene),
                self@.troubled() || forall|rest: List<Expression<'a>>|
                    all_render(*ahead, rest) ==> all_render(*arguments, #[trigger] prepended(done@, rest)),
            decreases *ahead,
        {
            match ahead {
                List::Nil => {
                    return prepend(done, List::Nil);
                },
                List::Cons(node) => {
                    let first = self.analyze_lent_argument(
                        &node.head,
                        first_type(&current_types),
                        fuel,
                    );
                    done.push(first);
                    current_types = rest_types(&current_types);
                    ahead = &node.tail;
                },
            }
        }
    }

    /// Whether a mutable reference is expected.
    pub(crate) fn expects_mutable_view(&self, expected: Option<Type>) -> (answer: bool)
        ensures
            answer == self@.expects_mutable_view(expected),
    {
        reveal(State::expects_mutable_view);
        match expected {
            Some(expected) => self.types.is_mutable_view(expected),
            None => false,
        }
    }

    /// An argument. A mutable reference is lent on.
    pub(crate) fn analyze_lent_argument(
        &mut self,
        argument: &ast::Expression<'a>,
        expected: Option<Type>,
        fuel: u32,
    ) -> (value: Expression<'a>)
        ensures
            (final(self)@, value) == old(self)@.analyze_lent_argument(
                *argument,
                expected,
                fuel as nat,
            ),
            old(self)@.leads_to(final(self)@),
            forall|watch: Watch| #[trigger]
                watched(watch) && old(self)@.is_apart(watch) && !mentions(*argument, watch.name)
                    ==> old(self)@.spares(final(self)@, watch),
            forall|scene: Scene| #[trigger]
                final(self)@.admits(scene) && old(self)@.prepared()
                    ==> final(self)@.troubled() || sound(value, scene),
            final(self)@.troubled() || renders(*argument, value),
        decreases fuel, 1nat, List::<Type>::Nil,
    {
        let reborrow = self.frame.reborrow_argument;
        self.set_reborrow(self.expects_mutable_view(expected));
        let value = self.analyze_expression_expected(argument, expected, fuel);
        self.set_reborrow(reborrow);
        value
    }

    /// Arguments must have the types of the parameters.
    pub(crate) fn validate_call_arguments(
        &mut self,
        name: &Text<'a>,
        span: Span,
        signature: &Signature,
        arguments: &List<Expression<'a>>,
    )
        ensures
            final(self)@ == old(self)@.validate_call_arguments(*name, span, *signature, *arguments),
            old(self)@.leads_to(final(self)@),
            old(self)@.stays(final(self)@),
            final(self)@.troubled() || takes(signature.parameter_types, *arguments),
    {
        reveal(State::validate_call_arguments);
        if arguments.count() != signature.parameter_types.count() {
            self.report(
                error(
                    "E3105",
                    call_count(name, signature.parameter_types.count(), arguments.count()),
                    span,
                ),
            );
        }
        self.require_types(arguments, &signature.parameter_types, "function argument");
    }

    /// Values must have the types in turn.
    pub(crate) fn require_types(
        &mut self,
        values: &List<Expression<'a>>,
        types: &List<Type>,
        role: &'a str,
    )
        ensures
            final(self)@ == old(self)@.require_types(*values, *types, role),
            old(self)@.leads_to(final(self)@),
            old(self)@.stays(final(self)@),
            final(self)@.troubled() || each_fits(*values, *types),
    {
        let mut ahead: &List<Expression<'a>> = values;
        let mut current_types: &List<Type> = types;
        loop
            invariant
                old(self)@.require_types(*values, *types, role) == self@.require_types(
                    *ahead,
                    *current_types,
                    role,
                ),
                old(self)@.leads_to(self@),
                old(self)@.stays(self@),
                self@.troubled() || (each_fits(*ahead, *current_types) ==> each_fits(
                    *values,
                    *types,
                )),
            decreases *ahead,
        {
            reveal(each_fits);
            reveal(State::require_types);
            match ahead {
                List::Nil => {
                    return ;
                },
                List::Cons(value) => {
                    match current_types {
                        List::Nil => {
                            return ;
                        },
                        List::Cons(ty) => {
                            self.require_type(ty.head, value.head.ty, value.head.span, role);
                            current_types = &ty.tail;
                            ahead = &value.tail;
                        },
                    }
                },
            }
        }
    }

    /// The type whose default value a path asks for.
    pub(crate) fn defaulted_type(&self, path: &Path<'a>) -> (ty: Option<(Identifier<'a>, Type)>)
        ensures
            ty == self@.defaulted_type(*path),
    {
        reveal(State::defaulted_type);
        match path_pair(path) {
            None => None,
            Some((owner, method)) => if same(method.name, "default") {
                match self.named_type(owner.name) {
                    None => None,
                    Some(ty) => if self.types.satisfies_trait(ty, "Default") {
                        Some((owner, ty))
                    } else {
                        None
                    },
                }
            } else {
                None
            },
        }
    }

    /// The default value of a type.
    pub(crate) fn analyze_default_call(
        &mut self,
        call: &CallExpression<'a>,
        path: &Path<'a>,
        fuel: u32,
    ) -> (analyzed: Option<Expression<'a>>)
        ensures
            (final(self)@, analyzed) == old(self)@.analyze_default_call(*call, *path, fuel as nat),
            old(self)@.leads_to(final(self)@),
            forall|watch: Watch| #[trigger]
                watched(watch) && old(self)@.is_apart(watch) && !call_mentions(*call, watch.name)
                    ==> old(self)@.spares(final(self)@, watch),
            forall|scene: Scene| #[trigger]
                final(self)@.admits(scene) && old(self)@.prepared()
                    ==> final(self)@.troubled() || sound_if_any(analyzed, scene),
        decreases fuel, 2nat, List::<Type>::Nil,
    {
        match self.defaulted_type(path) {
            None => None,
            Some((owner, ty)) => {
                if !call.arguments.is_empty() || !call.generic_arguments.is_empty() {
                    self.report(
                        advised(
                            "E7007",
                            words("derived `default` does not accept arguments"),
                            words3("write `", owner.name, "::default()`"),
                            call.span,
                        ),
                    );
                }
                self.analyze_discarded(&call.arguments, fuel);
                let value = self.default_or_problem(owner.name, ty, call.span);
                Some(value)
            },
        }
    }

    /// The default value of a type, if it can be constructed.
    pub(crate) fn default_or_problem(
        &mut self,
        owner: &'a str,
        ty: Type,
        span: Span,
    ) -> (value: Expression<'a>)
        ensures
            (final(self)@, value) == old(self)@.default_or_problem(owner, ty, span),
            old(self)@.leads_to(final(self)@),
            old(self)@.stays(final(self)@),
            forall|scene: Scene| #[trigger]
                final(self)@.admits(scene) && old(self)@.prepared()
                    ==> final(self)@.troubled() || sound(value, scene),
    {
        reveal(State::default_or_problem);
        match self.types.default_expression(ty, span) {
            Some(value) => value,
            None => {
                self.report(
                    helped(
                        "E7007",
                        words3("cannot construct the derived default for `", owner, "`"),
                        "ensure every stored field has a deterministic default",
                        span,
                    ),
                );
                invalid_composite_expression(span)
            },
        }
    }

    /// A `panic`.
    pub(crate) fn analyze_panic_call(
        &mut self,
        call: &CallExpression<'a>,
        path: &Path<'a>,
        fuel: u32,
    ) -> (analyzed: Expression<'a>)
        ensures
            (final(self)@, analyzed) == old(self)@.analyze_panic_call(*call, *path, fuel as nat),
            old(self)@.leads_to(final(self)@),
            forall|watch: Watch| #[trigger]
                watched(watch) && old(self)@.is_apart(watch) && !call_mentions(*call, watch.name)
                    ==> old(self)@.spares(final(self)@, watch),
            forall|scene: Scene| #[trigger]
                final(self)@.admits(scene) && old(self)@.prepared()
                    ==> final(self)@.troubled() || sound(analyzed, scene),
            final(self)@.troubled() || passes(*call, analyzed),
        decreases fuel, 3nat, List::<Type>::Nil,
    {
        self.require_arity(call, path, 1);
        let message = self.analyze_argument(call, 0, Some(Type::Str), fuel);
        self.require_type(Type::Str, message.ty, message.span, "panic message");
        self.analyze_extra(call, 1, fuel);
        typed(ExpressionKind::Panic { message }, Type::Never, call.span)
    }

    /// An assertion takes a condition and perhaps a message.
    pub(crate) fn require_assertion_arity(&mut self, call: &CallExpression<'a>, path: &Path<'a>)
        ensures
            final(self)@ == old(self)@.require_assertion_arity(*call, *path),
            old(self)@.leads_to(final(self)@),
            old(self)@.stays(final(self)@),
            final(self)@.troubled() || call.arguments@.len() > 0,
    {
        reveal(State::require_assertion_arity);
        let count: u64 = call.arguments.count();
        if count != 1 && count != 2 {
            self.report(
                advised(
                    "E6004",
                    cons(
                        Piece::Words("intrinsic `"),
                        joined(
                            &path.display(),
                            cons(
                                Piece::Words(
                                    "` expects one condition and an optional message, but ",
                                ),
                                cons(
                                    Piece::Number(count as u128),
                                    words(" argument(s) were provided"),
                                ),
                            ),
                        ),
                    ),
                    cons(
                        Piece::Words("write `"),
                        joined(
                            &path.display(),
                            cons(
                                Piece::Words("(condition)` or `"),
                                joined(&path.display(), words("(condition, message)`")),
                            ),
                        ),
                    ),
                    call.span,
                ),
            );
        }
    }

    /// The message of an assertion.
    pub(crate) fn analyze_assertion_message(
        &mut self,
        call: &CallExpression<'a>,
        fuel: u32,
    ) -> (message: Expression<'a>)
        ensures
            (final(self)@, message) == old(self)@.analyze_assertion_message(*call, fuel as nat),
            old(self)@.leads_to(final(self)@),
            forall|watch: Watch| #[trigger]
                watched(watch) && old(self)@.is_apart(watch) && !call_mentions(*call, watch.name)
                    ==> old(self)@.spares(final(self)@, watch),
            forall|scene: Scene| #[trigger]
                final(self)@.admits(scene) && old(self)@.prepared()
                    ==> final(self)@.troubled() || sound(message, scene),
            final(self)@.troubled() || (1 < call.arguments@.len() ==> renders(
                call.arguments@[1],
                message,
            )),
        decreases fuel, 1nat, List::<Type>::Nil,
    {
        proof {
            arguments_are_found(call.arguments, 1);
        }
        match argument_at(&call.arguments, 1) {
            None => typed(ExpressionKind::String(words("assertion failed")), Type::Str, call.span),
            Some(argument) => self.analyze_expression_expected(&argument, Some(Type::Str), fuel),
        }
    }

    /// An assertion.
    pub(crate) fn analyze_assert_call(
        &mut self,
        call: &CallExpression<'a>,
        path: &Path<'a>,
        mode: AssertionMode,
        fuel: u32,
    ) -> (analyzed: Expression<'a>)
        ensures
            (final(self)@, analyzed) == old(self)@.analyze_assert_call(
                *call,
                *path,
                mode,
                fuel as nat,
            ),
            old(self)@.leads_to(final(self)@),
            forall|watch: Watch| #[trigger]
                watched(watch) && old(self)@.is_apart(watch) && !call_mentions(*call, watch.name)
                    ==> old(self)@.spares(final(self)@, watch),
            forall|scene: Scene| #[trigger]
                final(self)@.admits(scene) && old(self)@.prepared()
                    ==> final(self)@.troubled() || sound(analyzed, scene),
            final(self)@.troubled() || passes(*call, analyzed),
            *analyzed.kind is Assert && (*analyzed.kind)->Assert_mode == mode,
        decreases fuel, 3nat, List::<Type>::Nil,
    {
        self.require_assertion_arity(call, path);
        let condition = self.analyze_argument(call, 0, Some(Type::Bool), fuel);
        self.require_type(Type::Bool, condition.ty, condition.span, "assertion condition");
        let message = self.analyze_assertion_message(call, fuel);
        self.require_type(Type::Str, message.ty, message.span, "assertion message");
        self.analyze_extra(call, 2, fuel);
        typed(ExpressionKind::Assert { mode, condition, message }, Type::Unit, call.span)
    }

    /// The variant and its payload that a constructor makes of an expected type.
    pub(crate) fn constructed(
        &self,
        constructor: Constructor,
        expected: Option<Type>,
    ) -> (variant: Option<(Type, u32, Type)>)
        ensures
            variant == self@.constructed(constructor, expected),
    {
        reveal(State::constructed);
        match expected {
            None => None,
            Some(ty) => match self.types.intrinsic(ty) {
                None => None,
                Some(IntrinsicType::Option { value }) => match constructor {
                    Constructor::Present => Some((ty, 0, value)),
                    _ => None,
                },
                Some(IntrinsicType::Result { success, error }) => match constructor {
                    Constructor::Present => None,
                    Constructor::Success => Some((ty, 0, success)),
                    Constructor::Failure => Some((ty, 1, error)),
                },
            },
        }
    }

    /// Whether an `Option` or a `Result` is expected.
    pub(crate) fn expects_intrinsic(&self, expected: Option<Type>) -> (answer: bool)
        ensures
            answer == self@.expects_intrinsic(expected),
    {
        reveal(State::expects_intrinsic);
        match expected {
            Some(expected) => self.types.intrinsic(expected).is_some(),
            None => false,
        }
    }

    /// `Some`, `Ok` or `Err`.
    pub(crate) fn analyze_intrinsic_call(
        &mut self,
        call: &CallExpression<'a>,
        path: &Path<'a>,
        expected: Option<Type>,
        fuel: u32,
    ) -> (analyzed: Option<Expression<'a>>)
        ensures
            (final(self)@, analyzed) == old(self)@.analyze_intrinsic_call(
                *call,
                *path,
                expected,
                fuel as nat,
            ),
            old(self)@.leads_to(final(self)@),
            forall|watch: Watch| #[trigger]
                watched(watch) && old(self)@.is_apart(watch) && !call_mentions(*call, watch.name)
                    ==> old(self)@.spares(final(self)@, watch),
            forall|scene: Scene| #[trigger]
                final(self)@.admits(scene) && old(self)@.prepared()
                    ==> final(self)@.troubled() || sound_if_any(analyzed, scene),
            final(self)@.troubled() || match analyzed {
                Some(value) => *value.kind is Unit || passes(*call, value),
                None => true,
            },
        decreases fuel, 3nat, List::<Type>::Nil,
    {
        match constructor_at(path) {
            None => None,
            Some((name, constructor)) => match self.constructed(constructor, expected) {
                Some((ty, variant, field_type)) => {
                    let value = self.analyze_intrinsic_constructor(
                        call,
                        path,
                        ty,
                        variant,
                        field_type,
                        fuel,
                    );
                    Some(value)
                },
                None => if constructor == Constructor::Present
                    && !self.expects_intrinsic(expected) {
                    let value = self.infer_option_constructor(call, path, fuel);
                    Some(value)
                } else {
                    self.analyze_discarded(&call.arguments, fuel);
                    self.report(
                        helped(
                            "E3139",
                            words5(
                                "`",
                                name,
                                "` requires an expected ",
                                if constructor == Constructor::Present {
                                    "`Option<T>`"
                                } else {
                                    "`Result<T, E>`"
                                },
                                " type",
                            ),
                            "add a result type annotation or use the constructor in a typed context",
                            call.span,
                        ),
                    );
                    Some(invalid_composite_expression(call.span))
                },
            },
        }
    }

    /// `Some` without an expected type.
    pub(crate) fn infer_option_constructor(
        &mut self,
        call: &CallExpression<'a>,
        path: &Path<'a>,
        fuel: u32,
    ) -> (analyzed: Expression<'a>)
        ensures
            (final(self)@, analyzed) == old(self)@.infer_option_constructor(
                *call,
                *path,
                fuel as nat,
            ),
            old(self)@.leads_to(final(self)@),
            forall|watch: Watch| #[trigger]
                watched(watch) && old(self)@.is_apart(watch) && !call_mentions(*call, watch.name)
                    ==> old(self)@.spares(final(self)@, watch),
            forall|scene: Scene| #[trigger]
                final(self)@.admits(scene) && old(self)@.prepared()
                    ==> final(self)@.troubled() || sound(analyzed, scene),
            final(self)@.troubled() || *analyzed.kind is Unit || passes(*call, analyzed),
        decreases fuel, 2nat, List::<Type>::Nil,
    {
        self.require_arity(call, path, 1);
        match &call.arguments {
            List::Nil => invalid_composite_expression(call.span),
            List::Cons(node) => {
                let field = self.analyze_expression_expected(&node.head, None, fuel);
                self.analyze_discarded(&node.tail, fuel);
                proof {
                    assert(call.arguments@ =~= seq![node.head] + node.tail@);
                    assert(node.tail is Cons ==> node.tail@.len() > 0);
                    assert(single(field) == cons(field, List::Nil));
                    if !self@.troubled() {
                        assert(all_render(call.arguments, cons(field, List::Nil)));
                    }
                }
                self.wrap_in_option(field, call.span)
            },
        }
    }

    /// A value as an optional value.
    pub(crate) fn wrap_in_option(
        &mut self,
        field: Expression<'a>,
        span: Span,
    ) -> (analyzed: Expression<'a>)
        ensures
            (final(self)@, analyzed) == old(self)@.wrap_in_option(field, span),
            old(self)@.leads_to(final(self)@),
            old(self)@.stays(final(self)@),
            forall|scene: Scene| #[trigger]
                final(self)@.admits(scene) && old(self)@.prepared() && sound(field, scene)
                    ==> final(self)@.troubled() || sound(analyzed, scene),
            *analyzed.kind is Unit || *analyzed.kind == (ExpressionKind::Enum {
                variant: 0,
                fields: single(field),
            }),
    {
        reveal(State::wrap_in_option);
        match self.intern_option(field.ty, span) {
            None => invalid_composite_expression(span),
            Some(ty) => typed(ExpressionKind::Enum { variant: 0, fields: single(field) }, ty, span),
        }
    }

    /// A constructor with an expected type.
    pub(crate) fn analyze_intrinsic_constructor(
        &mut self,
        call: &CallExpression<'a>,
        path: &Path<'a>,
        ty: Type,
        variant: u32,
        field_type: Type,
        fuel: u32,
    ) -> (analyzed: Expression<'a>)
        ensures
            (final(self)@, analyzed) == old(self)@.analyze_intrinsic_constructor(
                *call,
                *path,
                ty,
                variant,
                field_type,
                fuel as nat,
            ),
            old(self)@.leads_to(final(self)@),
            forall|watch: Watch| #[trigger]
                watched(watch) && old(self)@.is_apart(watch) && !call_mentions(*call, watch.name)
                    ==> old(self)@.spares(final(self)@, watch),
            forall|scene: Scene| #[trigger]
                final(self)@.admits(scene) && old(self)@.prepared()
                    ==> final(self)@.troubled() || sound(analyzed, scene),
            final(self)@.troubled() || carries(analyzed, single(field_type)),
            final(self)@.troubled() || passes(*call, analyzed),
            *analyzed.kind is Enum && (*analyzed.kind)->Enum_variant == variant,
        decreases fuel, 2nat, List::<Type>::Nil,
    {
        self.require_arity(call, path, 1);
        let fields = self.analyze_arguments(&call.arguments, &single(field_type), fuel);
        self.require_types(&fields, &single(field_type), "constructor argument");
        typed(ExpressionKind::Enum { variant, fields }, ty, call.span)
    }

    /// Arguments that should have the types in turn.
    pub(crate) fn analyze_arguments(
        &mut self,
        arguments: &List<ast::Expression<'a>>,
        types: &List<Type>,
        fuel: u32,
    ) -> (values: List<Expression<'a>>)
        ensures
            (final(self)@, values) == old(self)@.analyze_arguments(*arguments, *types, fuel as nat),
            old(self)@.leads_to(final(self)@),
            forall|watch: Watch| #[trigger]
                watched(watch) && old(self)@.is_apart(watch)
                    && !any_mentions(*arguments, watch.name)
                    ==> old(self)@.spares(final(self)@, watch),
            forall|scene: Scene| #[trigger]
                final(self)@.admits(scene) && old(self)@.prepared()
                    ==> final(self)@.troubled() || all_sound(values, scene),
            final(self)@.troubled() || all_render(*arguments, values),
        decreases fuel, 1nat, *arguments,
    {
        let mut ahead: &List<ast::Expression<'a>> = arguments;
        let mut current_types: List<Type> = types.share();
        let mut done: Vec<Expression<'a>> = Vec::new();
        loop
            invariant
                old(self)@.analyze_arguments(*arguments, *types, fuel as nat) == {
                    let (state, rest) = self@.analyze_arguments(*ahead, current_types, fuel as nat);
                    (state, prepended(done@, rest))
                },
                old(self)@.leads_to(self@),
                forall|watch: Watch| #[trigger]
                    watched(watch) && old(self)@.is_apart(watch)
                        && !any_mentions(*arguments, watch.name)
                        ==> old(self)@.spares(self@, watch),
                forall|watch: Watch| #[trigger]
                    watched(watch) && !any_mentions(*arguments, watch.name)
                        ==> !any_mentions(*ahead, watch.name),
                forall|scene: Scene| #[trigger]
                    self@.admits(scene) && old(self)@.prepared()
                    ==> self@.troubled() || all_sound(prepended(done@, List::Nil), scene),
                self@.troubled() || forall|rest: List<Expression<'a>>|
                    all_render(*ahead, rest) ==> all_render(*arguments, #[trigger] prepended(done@, rest)),
            decreases *ahead,
        {
            match ahead {
                List::Nil => {
                    return prepend(done, List::Nil);
                },
                List::Cons(node) => {
                    let first = self.analyze_expression_expected(
                        &node.head,
                        first_type(&current_types),
                        fuel,
                    );
                    done.push(first);
                    current_types = rest_types(&current_types);
                    ahead = &node.tail;
                },
            }
        }
    }

    /// Whether a failure of a type can be passed on by a function.
    pub(crate) fn propagates(&self, intrinsic: IntrinsicType) -> (answer: bool)
        ensures
            answer == self@.propagates(intrinsic),
    {
        reveal(State::propagates);
        match self.types.intrinsic(self.frame.signature.return_type) {
            None => false,
            Some(IntrinsicType::Option { .. }) => match intrinsic {
                IntrinsicType::Option { .. } => true,
                IntrinsicType::Result { .. } => false,
            },
            Some(IntrinsicType::Result { error, .. }) => match intrinsic {
                IntrinsicType::Option { .. } => false,
                IntrinsicType::Result { error: failure, .. } => failure == error,
            },
        }
    }

    /// `?` behind a value.
    pub(crate) fn analyze_try(
        &mut self,
        value: &ast::Expression<'a>,
        span: Span,
        fuel: u32,
    ) -> (analyzed: Expression<'a>)
        ensures
            (final(self)@, analyzed) == old(self)@.analyze_try(*value, span, fuel as nat),
            old(self)@.leads_to(final(self)@),
            forall|watch: Watch| #[trigger]
                watched(watch) && old(self)@.is_apart(watch) && !mentions(*value, watch.name)
                    ==> old(self)@.spares(final(self)@, watch),
            forall|scene: Scene| #[trigger]
                final(self)@.admits(scene) && old(self)@.prepared()
                    ==> final(self)@.troubled() || sound(analyzed, scene),
            final(self)@.troubled() || form_renders(ast::ExpressionKind::Try(*value), analyzed),
        decreases fuel, 1nat, List::<Type>::Nil,
    {
        self.reject_deferred_control_flow("`?`", span);
        reveal(State::output);
        let return_type = self.frame.signature.return_type;
        let value = self.analyze_expression_expected(value, Some(return_type), fuel);
        self.propagate_failure(value, return_type, span)
    }

    /// The success of a value; its failure is passed on.
    pub(crate) fn propagate_failure(
        &mut self,
        value: Expression<'a>,
        return_type: Type,
        span: Span,
    ) -> (analyzed: Expression<'a>)
        ensures
            (final(self)@, analyzed) == old(self)@.propagate_failure(value, return_type, span),
            old(self)@.leads_to(final(self)@),
            old(self)@.stays(final(self)@),
            forall|scene: Scene| #[trigger]
                final(self)@.admits(scene) && old(self)@.prepared() && sound(value, scene)
                    && return_type == scene.output
                    ==> final(self)@.troubled() || sound(analyzed, scene),
            final(self)@.troubled() || match *analyzed.kind {
                ExpressionKind::Try { value: tried, .. } => tried == value,
                _ => false,
            },
    {
        reveal(State::propagate_failure);
        match self.intrinsic(value.ty) {
            None => {
                self.report(
                    helped(
                        "E3140",
                        frame(
                            "`?` requires `Option<T>` or `Result<T, E>`, found `",
                            &value.ty.text(),
                            "`",
                        ),
                        "apply `?` only to an optional or fallible expression",
                        span,
                    ),
                );
                invalid_composite_expression(span)
            },
            Some(intrinsic) => {
                if !self.propagates(intrinsic) {
                    self.report(
                        helped(
                            "E3140",
                            cons(
                                Piece::Words("`?` cannot propagate `"),
                                joined(
                                    &value.ty.text(),
                                    frame(
                                        "` from a function returning `",
                                        &return_type.text(),
                                        "`",
                                    ),
                                ),
                            ),
                            "use the same Option or Result type as the function return type",
                            span,
                        ),
                    );
                }
                let (output_type, failure_type) = match intrinsic {
                    IntrinsicType::Option { value: output } => (output, None),
                    IntrinsicType::Result { success, error } => (success, Some(error)),
                };
                typed(
                    ExpressionKind::Try {
                        value,
                        success_variant: 0,
                        output_type,
                        failure_variant: 1,
                        failure_type,
                        return_type,
                    },
                    output_type,
                    span,
                )
            },
        }
    }

    /// A variant with positional payload.
    pub(crate) fn analyze_enum_tuple_call(
        &mut self,
        call: &CallExpression<'a>,
        path: &Path<'a>,
        ty: Type,
        variant: u32,
        payload: &EnumVariantFields<'a>,
        fuel: u32,
    ) -> (analyzed: Expression<'a>)
        ensures
            (final(self)@, analyzed) == old(self)@.analyze_enum_tuple_call(
                *call,
                *path,
                ty,
                variant,
                *payload,
                fuel as nat,
            ),
            old(self)@.leads_to(final(self)@),
            forall|watch: Watch| #[trigger]
                watched(watch) && old(self)@.is_apart(watch) && !call_mentions(*call, watch.name)
                    ==> old(self)@.spares(final(self)@, watch),
            forall|scene: Scene| #[trigger]
                final(self)@.admits(scene) && old(self)@.prepared()
                    ==> final(self)@.troubled() || sound(analyzed, scene),
            final(self)@.troubled() || match *payload {
                EnumVariantFields::Tuple(types) => carries(analyzed, types),
                _ => true,
            },
            final(self)@.troubled() || passes(*call, analyzed),
            final(self)@.troubled() || (*analyzed.kind is Enum && (*analyzed.kind)->Enum_variant == variant),
        decreases fuel, 2nat, List::<Type>::Nil,
    {
        match payload {
            EnumVariantFields::Tuple(types) => {
                self.require_variant_arity(call, path, types);
                let fields = self.analyze_arguments(&call.arguments, types, fuel);
                self.require_types(&fields, types, "variant argument");
                typed(ExpressionKind::Enum { variant, fields }, ty, call.span)
            },
            _ => {
                self.report(
                    error(
                        "E3119",
                        frame("enum variant `", &path.display(), "` is not tuple-like"),
                        path.span,
                    ),
                );
                invalid_composite_expression(call.span)
            },
        }
    }

    /// A variant must have as many arguments as its payload has parts.
    pub(crate) fn require_variant_arity(
        &mut self,
        call: &CallExpression<'a>,
        path: &Path<'a>,
        types: &List<Type>,
    )
        ensures
            final(self)@ == old(self)@.require_variant_arity(*call, *path, *types),
            old(self)@.leads_to(final(self)@),
            old(self)@.stays(final(self)@),
    {
        reveal(State::require_variant_arity);
        if types.count() != call.arguments.count() {
            self.report(
                error(
                    "E3105",
                    cons(
                        Piece::Words("variant `"),
                        joined(
                            &path.display(),
                            cons(
                                Piece::Words("` expects "),
                                cons(
                                    Piece::Number(types.count() as u128),
                                    cons(
                                        Piece::Words(" argument(s), but "),
                                        cons(
                                            Piece::Number(call.arguments.count() as u128),
                                            words(" were provided"),
                                        ),
                                    ),
                                ),
                            ),
                        ),
                    ),
                    call.span,
                ),
            );
        }
    }

    /// The full name of the function that a path names.
    pub(crate) fn resolve_function_path(&mut self, path: &Path<'a>) -> (name: Option<Text<'a>>)
        ensures
            (final(self)@, name) == old(self)@.resolve_function_path(*path),
            old(self)@.leads_to(final(self)@),
            old(self)@.stays(final(self)@),
    {
        reveal(State::resolve_function_path);
        match function_path_name(path) {
            Some(name) => Some(name),
            None => {
                self.report(
                    helped(
                        "E3106",
                        frame("qualified call `", &path.display(), "` requires module resolution"),
                        "module paths must resolve to one canonical symbol before typing",
                        path.span,
                    ),
                );
                None
            },
        }
    }

    /// A call of a function by its name.
    pub(crate) fn analyze_function_call(
        &mut self,
        call: &CallExpression<'a>,
        path: &Path<'a>,
        expected: Option<Type>,
        fuel: u32,
    ) -> (analyzed: Expression<'a>)
        ensures
            (final(self)@, analyzed) == old(self)@.analyze_function_call(
                *call,
                *path,
                expected,
                fuel as nat,
            ),
            old(self)@.leads_to(final(self)@),
            forall|watch: Watch| #[trigger]
                watched(watch) && old(self)@.is_apart(watch) && !call_mentions(*call, watch.name)
                    ==> old(self)@.spares(final(self)@, watch),
            forall|scene: Scene| #[trigger]
                final(self)@.admits(scene) && old(self)@.prepared()
                    ==> final(self)@.troubled() || sound(analyzed, scene),
            final(self)@.troubled() || *analyzed.kind is Unit || passes(*call, analyzed),
        decreases fuel, 5nat, List::<Type>::Nil,
    {
        match self.resolve_function_path(path) {
            None => invalid_composite_expression(call.span),
            Some(name) => match self.signature_of(&name) {
                Some(signature) => self.analyze_plain_call(call, path, &name, &signature, fuel),
                None => match self.template_of(&name) {
                    Some(template) => self.analyze_generic_function_call(
                        call,
                        &name,
                        &template,
                        expected,
                        fuel,
                    ),
                    None => {
                        self.report(
                            error(
                                "E3106",
                                frame("cannot resolve function `", &path.display(), "`"),
                                path.span,
                            ),
                        );
                        invalid_composite_expression(call.span)
                    },
                },
            },
        }
    }

    /// A call of a function that is not generic.
    pub(crate) fn analyze_plain_call(
        &mut self,
        call: &CallExpression<'a>,
        path: &Path<'a>,
        name: &Text<'a>,
        signature: &Signature,
        fuel: u32,
    ) -> (analyzed: Expression<'a>)
        ensures
            (final(self)@, analyzed) == old(self)@.analyze_plain_call(
                *call,
                *path,
                *name,
                *signature,
                fuel as nat,
            ),
            old(self)@.leads_to(final(self)@),
            forall|watch: Watch| #[trigger]
                watched(watch) && old(self)@.is_apart(watch) && !call_mentions(*call, watch.name)
                    ==> old(self)@.spares(final(self)@, watch),
            forall|scene: Scene| #[trigger]
                final(self)@.admits(scene) && old(self)@.prepared() && scene.callees.contains(
                    *signature,
                ) ==> final(self)@.troubled() || sound(analyzed, scene),
            final(self)@.troubled() || match *analyzed.kind {
                ExpressionKind::Call { function, arguments } => function == signature.id && all_render(
                    call.arguments,
                    arguments,
                ),
                _ => false,
            },
        decreases fuel, 4nat, List::<Type>::Nil,
    {
        self.check_plain_call(call, path, name, signature);
        let arguments = self.analyze_typed_call_arguments(&call.arguments, signature, fuel);
        self.validate_call_arguments(name, call.span, signature, &arguments);
        typed(
            ExpressionKind::Call { function: signature.id, arguments },
            signature.return_type,
            call.span,
        )
    }

    /// A function that is not generic takes no generic arguments.
    pub(crate) fn check_plain_call(
        &mut self,
        call: &CallExpression<'a>,
        path: &Path<'a>,
        name: &Text<'a>,
        signature: &Signature,
    )
        ensures
            final(self)@ == old(self)@.check_plain_call(*call, *path, *name, *signature),
            old(self)@.leads_to(final(self)@),
            old(self)@.stays(final(self)@),
    {
        reveal(State::check_plain_call);
        if !call.generic_arguments.is_empty() {
            self.report(
                helped(
                    "E6004",
                    frame("function `", name, "` is not generic"),
                    "remove the arguments between `<` and `>`",
                    call.span,
                ),
            );
        }
        self.validate_function_access(path, call.span, name, signature);
    }

    /// What the expected result says of generic parameters.
    pub(crate) fn infer_from_result(
        &self,
        template: &GenericFunctionTemplate<'a>,
        expected: Option<Type>,
        environment: Environment<'a>,
    ) -> (bindings: Environment<'a>)
        ensures
            bindings == self@.infer_from_result(*template, expected, environment),
    {
        reveal(State::infer_from_result);
        match &template.function.return_type {
            None => environment,
            Some(written) => match expected {
                None => environment,
                Some(expected) => {
                    let (environment, _agrees) = self.types.infer(
                        written,
                        expected,
                        &template.parameters,
                        environment,
                    );
                    environment
                },
            },
        }
    }

    /// The bindings of generic parameters before the arguments are checked.
    pub(crate) fn begin_generic_call(
        &mut self,
        call: &CallExpression<'a>,
        name: &Text<'a>,
        template: &GenericFunctionTemplate<'a>,
        expected: Option<Type>,
    ) -> (bindings: Environment<'a>)
        ensures
            (final(self)@, bindings) == old(self)@.begin_generic_call(
                *call,
                *name,
                *template,
                expected,
            ),
            old(self)@.leads_to(final(self)@),
            old(self)@.stays(final(self)@),
    {
        reveal(State::begin_generic_call);
        let outer = self.types.base_environment();
        let explicit = parameters_from(&template.parameters, template.explicit_parameter_start);
        let environment = self.bind_explicit_generic_arguments(
            &call.generic_arguments,
            &explicit,
            outer,
            call.span,
        );
        let environment = self.infer_from_result(template, expected, environment);
        if call.arguments.count() != template.function.parameters.count() {
            self.report(
                error(
                    "E3105",
                    call_count(name, template.function.parameters.count(), call.arguments.count()),
                    call.span,
                ),
            );
        }
        environment
    }

    /// Whether the result of a generic function may hold a reference.
    pub(crate) fn may_return_scoped(&self, template: &GenericFunctionTemplate<'a>) -> (answer: bool)
        ensures
            answer == self@.may_return_scoped(*template),
    {
        reveal(State::may_return_scoped);
        match &template.function.return_type {
            Some(written) => self.types.type_name_may_be_scoped(written),
            None => false,
        }
    }

    /// A call of a generic function.
    pub(crate) fn analyze_generic_function_call(
        &mut self,
        call: &CallExpression<'a>,
        name: &Text<'a>,
        template: &GenericFunctionTemplate<'a>,
        expected: Option<Type>,
        fuel: u32,
    ) -> (analyzed: Expression<'a>)
        ensures
            (final(self)@, analyzed) == old(self)@.analyze_generic_function_call(
                *call,
                *name,
                *template,
                expected,
                fuel as nat,
            ),
            old(self)@.leads_to(final(self)@),
            forall|watch: Watch| #[trigger]
                watched(watch) && old(self)@.is_apart(watch) && !any_mentions(
                    call.arguments,
                    watch.name,
                ) ==> old(self)@.spares(final(self)@, watch),
            forall|scene: Scene| #[trigger]
                final(self)@.admits(scene) && old(self)@.prepared()
                    ==> final(self)@.troubled() || sound(analyzed, scene),
            final(self)@.troubled() || *analyzed.kind is Unit || passes(*call, analyzed),
        decreases fuel, 3nat, List::<Type>::Nil,
    {
        let environment = self.begin_generic_call(call, name, template, expected);
        let persistent = self.frame.persistent_borrow;
        self.set_persistent(persistent || self.may_return_scoped(template));
        let (arguments, environment) = self.infer_generic_call_arguments(
            &call.arguments,
            &template.function.parameters,
            1,
            name,
            template,
            environment,
            fuel,
        );
        self.set_persistent(persistent);
        self.finish_generic_call(call, name, template, environment, arguments)
    }

    /// The instance of a generic function that a call needs.
    pub(crate) fn finish_generic_call(
        &mut self,
        call: &CallExpression<'a>,
        name: &Text<'a>,
        template: &GenericFunctionTemplate<'a>,
        environment: Environment<'a>,
        arguments: List<Expression<'a>>,
    ) -> (analyzed: Expression<'a>)
        ensures
            (final(self)@, analyzed) == old(self)@.finish_generic_call(
                *call,
                *name,
                *template,
                environment,
                arguments,
            ),
            old(self)@.leads_to(final(self)@),
            old(self)@.stays(final(self)@),
            forall|scene: Scene| #[trigger]
                final(self)@.admits(scene) && old(self)@.prepared() && all_sound(arguments, scene)
                    ==> final(self)@.troubled() || sound(analyzed, scene),
            *analyzed.kind is Unit || (*analyzed.kind is Call && (*analyzed.kind)->Call_arguments == arguments),
    {
        reveal(State::finish_generic_call);
        match self.complete_generic_environment(
            &template.parameters,
            &template.where_predicates,
            environment,
            template.function.span,
        ) {
            None => invalid_composite_expression(call.span),
            Some((environment, values)) => match self.instantiate_generic_function(
                template,
                values,
                &environment,
                call.span,
            ) {
                None => invalid_composite_expression(call.span),
                Some(signature) => {
                    self.validate_call_arguments(name, call.span, &signature, &arguments);
                    let analyzed = typed(
                        ExpressionKind::Call { function: signature.id, arguments },
                        signature.return_type,
                        call.span,
                    );
                    analyzed
                },
            },
        }
    }

    /// The type that a parameter of a generic function has so far.
    pub(crate) fn expected_parameter_type(
        &mut self,
        parameters: &List<Parameter<'a>>,
        template: &GenericFunctionTemplate<'a>,
        environment: &Environment<'a>,
    ) -> (ty: Option<Type>)
        ensures
            (final(self)@, ty) == old(self)@.expected_parameter_type(
                *parameters,
                *template,
                *environment,
            ),
            old(self)@.leads_to(final(self)@),
            old(self)@.stays(final(self)@),
    {
        reveal(State::expected_parameter_type);
        match parameters {
            List::Nil => None,
            List::Cons(node) => if type_pattern_is_bound(
                &node.head.ty,
                &template.parameters,
                environment,
            ) {
                self.resolve_type_in(&node.head.ty, environment)
            } else {
                None
            },
        }
    }

    /// The arguments of a generic call, and the bindings that they make. The
    /// arguments are counted from `position`.
    pub(crate) fn infer_generic_call_arguments(
        &mut self,
        arguments: &List<ast::Expression<'a>>,
        parameters: &List<Parameter<'a>>,
        position: u64,
        name: &Text<'a>,
        template: &GenericFunctionTemplate<'a>,
        environment: Environment<'a>,
        fuel: u32,
    ) -> (values: (List<Expression<'a>>, Environment<'a>))
        ensures
            (final(self)@, values) == old(self)@.infer_generic_call_arguments(
                *arguments,
                *parameters,
                position,
                *name,
                *template,
                environment,
                fuel as nat,
            ),
            old(self)@.leads_to(final(self)@),
            forall|watch: Watch| #[trigger]
                watched(watch) && old(self)@.is_apart(watch)
                    && !any_mentions(*arguments, watch.name)
                    ==> old(self)@.spares(final(self)@, watch),
            forall|scene: Scene| #[trigger]
                final(self)@.admits(scene) && old(self)@.prepared()
                    ==> final(self)@.troubled() || all_sound(values.0, scene),
            final(self)@.troubled() || all_render(*arguments, values.0),
        decreases fuel, 2nat, *arguments,
    {
        let mut ahead: &List<ast::Expression<'a>> = arguments;
        let mut current_parameters: List<Parameter<'a>> = parameters.share();
        let mut current_position: u64 = position;
        let mut bindings: Environment<'a> = environment;
        let mut done: Vec<Expression<'a>> = Vec::new();
        loop
            invariant
                old(self)@.infer_generic_call_arguments(
                    *arguments,
                    *parameters,
                    position,
                    *name,
                    *template,
                    environment,
                    fuel as nat,
                ) == {
                    let (state, (rest, inferred)) = self@.infer_generic_call_arguments(
                        *ahead,
                        current_parameters,
                        current_position,
                        *name,
                        *template,
                        bindings,
                        fuel as nat,
                    );
                    (state, (prepended(done@, rest), inferred))
                },
                old(self)@.leads_to(self@),
                forall|watch: Watch| #[trigger]
                    watched(watch) && old(self)@.is_apart(watch)
                        && !any_mentions(*arguments, watch.name)
                        ==> old(self)@.spares(self@, watch),
                forall|watch: Watch| #[trigger]
                    watched(watch) && !any_mentions(*arguments, watch.name)
                        ==> !any_mentions(*ahead, watch.name),
                forall|scene: Scene| #[trigger]
                    self@.admits(scene) && old(self)@.prepared()
                        ==> self@.troubled() || all_sound(
                        prepended(done@, List::Nil),
                        scene,
                    ),
                self@.troubled() || forall|rest: List<Expression<'a>>|
                    all_render(*ahead, rest) ==> all_render(*arguments, #[trigger] prepended(done@, rest)),
            decreases *ahead,
        {
            match ahead {
                List::Nil => {
                    return (prepend(done, List::Nil), bindings);
                },
                List::Cons(node) => {
                    let expected = self.expected_parameter_type(
                        &current_parameters,
                        template,
                        &bindings,
                    );
                    let value = self.analyze_generic_argument(
                        &node.head,
                        expected,
                        takes_mutable_reference(&current_parameters),
                        fuel,
                    );
                    bindings = self.infer_from_argument(
                        &current_parameters,
                        value.ty,
                        current_position,
                        name,
                        template,
                        bindings,
                        node.head.span,
                    );
                    done.push(value);
                    current_parameters = rest_parameters(&current_parameters);
                    current_position = current_position.saturating_add(1);
                    ahead = &node.tail;
                },
            }
        }
    }

    /// An argument of a generic call. A mutable reference is lent on.
    pub(crate) fn analyze_generic_argument(
        &mut self,
        argument: &ast::Expression<'a>,
        expected: Option<Type>,
        takes_mutable: bool,
        fuel: u32,
    ) -> (value: Expression<'a>)
        ensures
            (final(self)@, value) == old(self)@.analyze_generic_argument(
                *argument,
                expected,
                takes_mutable,
                fuel as nat,
            ),
            old(self)@.leads_to(final(self)@),
            forall|watch: Watch| #[trigger]
                watched(watch) && old(self)@.is_apart(watch) && !mentions(*argument, watch.name)
                    ==> old(self)@.spares(final(self)@, watch),
            forall|scene: Scene| #[trigger]
                final(self)@.admits(scene) && old(self)@.prepared()
                    ==> final(self)@.troubled() || sound(value, scene),
            final(self)@.troubled() || renders(*argument, value),
        decreases fuel, 1nat, List::<Type>::Nil,
    {
        let reborrow = self.frame.reborrow_argument;
        self.set_reborrow(takes_mutable || self.expects_mutable_view(expected));
        let value = self.analyze_expression_expected(argument, expected, fuel);
        self.set_reborrow(reborrow);
        value
    }

    /// What an argument says of generic parameters.
    pub(crate) fn infer_from_argument(
        &mut self,
        parameters: &List<Parameter<'a>>,
        ty: Type,
        position: u64,
        name: &Text<'a>,
        template: &GenericFunctionTemplate<'a>,
        environment: Environment<'a>,
        span: Span,
    ) -> (bindings: Environment<'a>)
        ensures
            (final(self)@, bindings) == old(self)@.infer_from_argument(
                *parameters,
                ty,
                position,
                *name,
                *template,
                environment,
                span,
            ),
            old(self)@.leads_to(final(self)@),
            old(self)@.stays(final(self)@),
    {
        reveal(State::infer_from_argument);
        match parameters {
            List::Nil => environment,
            List::Cons(node) => {
                let (environment, agrees) = self.types.infer(
                    &node.head.ty,
                    ty,
                    &template.parameters,
                    environment,
                );
                if !agrees {
                    self.report(
                        helped(
                            "E6004",
                            cons(
                                Piece::Words("argument "),
                                cons(
                                    Piece::Number(position as u128),
                                    frame(
                                        " does not match the generic parameter pattern `",
                                        name,
                                        "`",
                                    ),
                                ),
                            ),
                            "use one consistent concrete type for each generic parameter",
                            span,
                        ),
                    );
                }
                environment
            },
        }
    }
}

} // verus!

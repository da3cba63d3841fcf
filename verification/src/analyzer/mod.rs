//! Name resolution and type checking.
//!
//! An analyzer collects the declarations of a compilation unit and then walks
//! through the bodies of its functions, one by one. It holds the types and
//! symbols of the unit, and the frame of the function that it is in: its
//! scopes, loops, borrows and moves.

use crate::ast::{
    self, Attribute, GenericArgument, GenericParameter, StructField, TypeName, WherePredicate,
};
use crate::attributes::{
    function_attribute_problems, type_attribute_problems, validate_function_attributes,
    validate_type_attributes,
};
use crate::comptime::Value;
use crate::generics::{
    array_length, parameter_problems, validate_generic_parameter_names, Entry, Environment,
    GenericValue,
};
use crate::hir::{
    EnumVariant, Expression, FunctionId, LocalId, Statement, StaticId, TypeDefinitionKind,
    TypeField,
};
use crate::list::{share, List};
use crate::purity::{function_impurities, validate_comptime_function};
use crate::registry::{GenericTypeTemplate, LIMIT, TypeRegistry, Types};
use crate::registry::capability::derives_checked;
use crate::registry::naming::{
    argument_values, arguments_bound, bounds_checked, declared, fields_resolved, length_resolved,
    resolved, variants_resolved,
};
use crate::span::{Diagnostic, Span};
use crate::text::{characters, reads, show, Text};
use crate::types::{Type, TypeId};
use crate::typing::always_sound_if_any;
use std::rc::Rc;
use vstd::prelude::*;

pub mod accepting;
pub mod binding;
pub mod borrowing;
pub mod branching;
pub mod calling;
pub mod calls;
pub mod checks;
pub mod completing;
pub mod coverage;
pub mod cycles;
pub mod declarations;
pub mod escaping;
pub mod expressions;
pub mod fitting;
pub mod frame;
pub mod functions;
pub mod growth;
pub mod instances;
pub mod intrinsics;
pub mod knowledge;
pub mod laws;
pub mod lending;
pub mod matching;
pub mod methods;
pub mod numbering;
pub mod paths;
pub mod patterns;
pub mod places;
pub mod program;
pub mod reports;
pub mod resolving;
pub mod sparing;
pub mod statements;
pub mod temporaries;

verus! {

broadcast use crate::analyzer::numbering::group_numbered;

/// What callers know of a function.
pub struct Signature {
    pub id: FunctionId,
    pub parameter_types: List<Type>,
    pub return_type: Type,
    pub requires_unsafe: bool,
    pub is_public: bool,
}

impl Signature {
    pub fn share(&self) -> (shared: Self)
        ensures
            shared == *self,
    {
        Signature {
            id: self.id,
            parameter_types: self.parameter_types.share(),
            return_type: self.return_type,
            requires_unsafe: self.requires_unsafe,
            is_public: self.is_public,
        }
    }
}

/// What functions know of a static.
#[derive(Clone, Copy)]
pub struct StaticSymbol {
    pub id: StaticId,
    pub mutable: bool,
    pub ty: Type,
}

/// A function with generic parameters.
pub struct GenericFunctionTemplate<'a> {
    pub function: Rc<ast::Function<'a>>,
    pub parameters: List<GenericParameter<'a>>,
    pub where_predicates: List<WherePredicate<'a>>,
    pub resolved_name: Text<'a>,
    /// A symbol of the module that declares the function.
    pub home: Text<'a>,
    /// The number of leading parameters that belong to the type of a method.
    pub explicit_parameter_start: u64,
    pub is_public: bool,
}

impl<'a> GenericFunctionTemplate<'a> {
    pub fn share(&self) -> (shared: Self)
        ensures
            shared == *self,
    {
        GenericFunctionTemplate {
            function: share(&self.function),
            parameters: self.parameters.share(),
            where_predicates: self.where_predicates.share(),
            resolved_name: self.resolved_name.share(),
            home: self.home.share(),
            explicit_parameter_start: self.explicit_parameter_start,
            is_public: self.is_public,
        }
    }
}

/// A generic function with arguments for its parameters.
pub struct FunctionInstance<'a> {
    pub resolved_name: Text<'a>,
    pub arguments: List<GenericValue>,
    pub pack_lengths: List<u64>,
    pub signature: Signature,
}

/// A function whose body is still to be checked.
pub struct PendingFunction<'a> {
    pub function: Rc<ast::Function<'a>>,
    pub resolved_name: Text<'a>,
    pub signature: Signature,
    pub environment: Environment<'a>,
    pub home: Text<'a>,
}

impl<'a> PendingFunction<'a> {
    pub fn share(&self) -> (shared: Self)
        ensures
            shared == *self,
    {
        PendingFunction {
            function: share(&self.function),
            resolved_name: self.resolved_name.share(),
            signature: self.signature.share(),
            environment: self.environment.share(),
            home: self.home.share(),
        }
    }
}

/// A name in full and what it stands for.
pub struct Symbol<'a, V> {
    pub name: Text<'a>,
    pub value: V,
}

/// What a name in full stands for: the first entry of that name counts.
#[verifier::opaque]
pub open spec fn symbol<'a, V>(symbols: List<Symbol<'a, V>>, name: Text<'a>) -> Option<V>
    decreases symbols,
{
    match symbols {
        List::Nil => None,
        List::Cons(node) => if characters(node.head.name) == characters(name) {
            Some(node.head.value)
        } else {
            symbol(node.tail, name)
        },
    }
}

fn find_shown<'e, 'a, V>(
    symbols: &'e List<Symbol<'a, V>>,
    shown: &str,
    Ghost(name): Ghost<Text<'a>>,
) -> (value: Option<&'e V>)
    requires
        shown@ == characters(name),
    ensures
        match value {
            Some(value) => symbol(*symbols, name) == Some(*value),
            None => symbol(*symbols, name) is None,
        },
{
    let mut ahead: &'e List<Symbol<'a, V>> = symbols;
    loop
        invariant
            shown@ == characters(name),
            symbol(*symbols, name) == symbol(*ahead, name),
        decreases *ahead,
    {
        reveal(symbol);
        match ahead {
            List::Nil => {
                return None;
            },
            List::Cons(node) => {
                if reads(&node.head.name, shown) {
                    return Some(&node.head.value);
                }
                ahead = &node.tail;
            },
        }
    }
}

/// What a name in full stands for: the first entry of that name counts.
pub fn find_symbol<'e, 'a, V>(symbols: &'e List<Symbol<'a, V>>, name: &Text<'a>) -> (value: Option<
    &'e V,
>)
    ensures
        match value {
            Some(value) => symbol(*symbols, *name) == Some(*value),
            None => symbol(*symbols, *name) is None,
        },
{
    let shown = show(name);
    find_shown(symbols, shown.as_str(), Ghost(*name))
}

/// The functions and statics of a compilation unit.
pub struct Symbols<'a> {
    pub signatures: List<Symbol<'a, Signature>>,
    pub statics: List<Entry<'a, StaticSymbol>>,
    pub templates: List<Symbol<'a, GenericFunctionTemplate<'a>>>,
    pub instances: List<FunctionInstance<'a>>,
    pub pending: List<PendingFunction<'a>>,
    pub next_id: u32,
}

/// A local variable.
#[derive(Clone, Copy)]
pub struct Binding {
    pub local: LocalId,
    pub ty: Type,
    pub mutable: bool,
}

/// Whether the statement behind the current one can be reached.
#[derive(Clone, Copy, PartialEq, Eq, Structural, Debug)]
pub enum Flow {
    Continues,
    Stops,
}

#[derive(Clone, Copy, PartialEq, Eq, Structural, Debug)]
pub enum LoopKind {
    Statement,
    Expression,
}

/// A loop around the current expression.
#[derive(Clone, Copy)]
pub struct LoopContext {
    pub kind: LoopKind,
    pub expected: Option<Type>,
    pub break_type: Option<Type>,
}

/// The references to a local variable that are alive.
#[derive(Clone, Copy)]
pub struct BorrowState {
    pub shared: u32,
    pub mutable: bool,
}

/// The use of a local variable by a deferred action.
#[derive(Clone, Copy)]
pub struct DeferredUse {
    pub span: Span,
    pub consuming: bool,
}

/// One step into an aggregate.
pub enum FieldProjection<'a> {
    Named(&'a str),
    Tuple(u32),
}

impl<'a> Clone for FieldProjection<'a> {
    fn clone(&self) -> (copy: Self)
        ensures
            copy == *self,
    {
        *self
    }
}

impl<'a> Copy for FieldProjection<'a> {

}

/// A part of a local variable.
pub struct MovedField<'a> {
    pub local: LocalId,
    pub projections: List<FieldProjection<'a>>,
}

/// A part of a local variable that has been moved, and where.
pub struct FieldMove<'a> {
    pub field: MovedField<'a>,
    pub at: Span,
}

/// A local variable and what is known of it.
pub struct Known<V> {
    pub local: LocalId,
    pub value: V,
}

/// A mutable or shared borrow of a local variable.
#[derive(Clone, Copy)]
pub struct Borrow {
    pub local: LocalId,
    pub mutable: bool,
}

/// The local variable that the value of an expression refers to.
#[derive(Clone, Copy)]
pub struct ExpressionRoot {
    pub span: Span,
    pub root: LocalId,
}

/// Whether a place may be assigned to again after it has been moved.
#[derive(Clone, Copy, PartialEq, Eq, Structural, Debug)]
pub enum PlaceAvailability {
    InitializedOnly,
    AllowReinitialization,
}

/// The function that is being checked. The innermost scope and loop come
/// first.
pub struct Frame<'a> {
    pub signature: Signature,
    pub environment: Environment<'a>,
    /// A symbol of the module that declares the function.
    pub home: Text<'a>,
    pub scopes: List<List<Entry<'a, Binding>>>,
    pub next_local: u32,
    pub loops: List<LoopContext>,
    pub unsafe_depth: u64,
    pub parameter_count: u32,
    pub borrow_states: List<Known<BorrowState>>,
    pub scoped_roots: List<Known<LocalId>>,
    pub expression_roots: List<ExpressionRoot>,
    pub borrow_scopes: List<List<Borrow>>,
    pub persistent_borrow: bool,
    pub defer_depth: u64,
    pub moved_locals: List<Known<Span>>,
    pub moved_fields: List<FieldMove<'a>>,
    pub deferred_uses: List<Known<DeferredUse>>,
    pub deferred_use_scopes: List<List<LocalId>>,
    pub consuming_value: bool,
    pub reborrow_argument: bool,
    pub field_base_depth: u64,
    pub place_availability: PlaceAvailability,
}

/// The state of an analyzer.
pub struct State<'a> {
    pub types: Types<'a>,
    pub symbols: Symbols<'a>,
    pub frame: Frame<'a>,
}

/// Checks a compilation unit.
pub struct Analyzer<'a> {
    pub types: TypeRegistry<'a>,
    pub symbols: Symbols<'a>,
    pub frame: Frame<'a>,
}

impl<'a> View for Analyzer<'a> {
    type V = State<'a>;

    open spec fn view(&self) -> State<'a> {
        State { types: self.types@, symbols: self.symbols, frame: self.frame }
    }
}

impl<'a> State<'a> {
    /// A problem is reported.
    #[verifier::opaque]
    pub open spec fn report(self, problem: Diagnostic<'a>) -> Self {
        State { types: self.types.report(problem), ..self }
    }

    /// The type of tuples of these elements.
    #[verifier::opaque]
    pub open spec fn intern_tuple(self, elements: List<Type>, span: Span) -> (Self, Option<Type>) {
        let (types, result) = self.types.tuple(elements, span);
        (State { types, ..self }, result)
    }

    /// The type of arrays of a length.
    #[verifier::opaque]
    pub open spec fn intern_array(
        self,
        element: Type,
        length: u64,
        span: Span,
    ) -> (Self, Option<Type>) {
        let (types, result) = self.types.array(element, length, span);
        (State { types, ..self }, result)
    }

    /// The type of references.
    #[verifier::opaque]
    pub open spec fn intern_reference(
        self,
        target: Type,
        mutable: bool,
        span: Span,
    ) -> (Self, Option<Type>) {
        let (types, result) = self.types.reference(target, mutable, span);
        (State { types, ..self }, result)
    }

    /// The type of raw pointers.
    #[verifier::opaque]
    pub open spec fn intern_raw_pointer(
        self,
        target: Type,
        mutable: bool,
        span: Span,
    ) -> (Self, Option<Type>) {
        let (types, result) = self.types.raw_pointer(target, mutable, span);
        (State { types, ..self }, result)
    }

    /// The type of slices.
    #[verifier::opaque]
    pub open spec fn intern_slice(
        self,
        element: Type,
        mutable: bool,
        span: Span,
    ) -> (Self, Option<Type>) {
        let (types, result) = self.types.slice(element, mutable, span);
        (State { types, ..self }, result)
    }

    /// The type of functions.
    #[verifier::opaque]
    pub open spec fn intern_function(
        self,
        parameters: List<Type>,
        return_type: Type,
        span: Span,
    ) -> (Self, Option<Type>) {
        let (types, result) = self.types.function(parameters, return_type, span);
        (State { types, ..self }, result)
    }

    /// The type of optional values.
    #[verifier::opaque]
    pub open spec fn intern_option(self, value: Type, span: Span) -> (Self, Option<Type>) {
        let (types, result) = self.types.option(value, span);
        (State { types, ..self }, result)
    }

    /// The type of results.
    #[verifier::opaque]
    pub open spec fn intern_result(
        self,
        success: Type,
        error: Type,
        span: Span,
    ) -> (Self, Option<Type>) {
        let (types, result) = self.types.result(success, error, span);
        (State { types, ..self }, result)
    }

    /// The type of iterators over the characters of a string.
    #[verifier::opaque]
    pub open spec fn intern_chars(self, span: Span) -> (Self, Option<Type>) {
        let (types, result) = self.types.characters_iterator(span);
        (State { types, ..self }, result)
    }

    /// The type that a written type stands for in this function.
    #[verifier::opaque]
    pub open spec fn resolve_type(self, written: TypeName<'a>) -> (Self, Option<Type>) {
        let (types, result) = resolved(self.types, written, self.frame.environment, LIMIT as nat);
        (State { types, ..self }, result)
    }

    /// The type that a written type stands for where generic parameters are bound.
    #[verifier::opaque]
    pub open spec fn resolve_type_in(
        self,
        written: TypeName<'a>,
        environment: Environment<'a>,
    ) -> (Self, Option<Type>) {
        let (types, result) = resolved(self.types, written, environment, LIMIT as nat);
        (State { types, ..self }, result)
    }

    /// The value of an array length in this function.
    #[verifier::opaque]
    pub open spec fn array_length(self, expression: ast::Expression<'a>) -> (Self, Option<u64>) {
        let (types, result) = length_resolved(self.types, expression, self.frame.environment);
        (State { types, ..self }, result)
    }

    /// Whether the bounds of a generic declaration hold.
    #[verifier::opaque]
    pub open spec fn validate_bounds(
        self,
        parameters: List<GenericParameter<'a>>,
        predicates: List<WherePredicate<'a>>,
        environment: Environment<'a>,
        span: Span,
    ) -> (Self, bool) {
        let (types, result) = bounds_checked(
            self.types,
            parameters,
            predicates,
            environment,
            span,
            LIMIT as nat,
        );
        (State { types, ..self }, result)
    }

    /// The value of an array length where generic parameters are bound.
    #[verifier::opaque]
    pub open spec fn array_length_in(
        self,
        expression: ast::Expression<'a>,
        environment: Environment<'a>,
    ) -> (Self, Option<u64>) {
        let (types, result) = length_resolved(self.types, expression, environment);
        (State { types, ..self }, result)
    }

    /// The values of generic arguments in this function.
    #[verifier::opaque]
    pub open spec fn resolve_argument_values(
        self,
        arguments: List<GenericArgument<'a>>,
    ) -> (Self, Option<List<GenericValue>>) {
        let (types, result) = argument_values(
            self.types,
            arguments,
            self.frame.environment,
            LIMIT as nat,
        );
        (State { types, ..self }, result)
    }

    /// What is wrong with the annotations of a function is reported.
    #[verifier::opaque]
    pub open spec fn check_function_attributes(self, function: ast::Function<'a>) -> Self {
        let problems = function_attribute_problems(self.types.problems, function);
        State { types: Types { problems, ..self.types }, ..self }
    }

    /// What a function may not do at compile time is reported.
    #[verifier::opaque]
    pub open spec fn check_comptime_function(
        self,
        function: ast::Function<'a>,
        functions: List<&'a str>,
    ) -> Self {
        let problems = function_impurities(self.types.problems, function, functions);
        State { types: Types { problems, ..self.types }, ..self }
    }

    /// What is wrong with the annotations of a type is reported.
    #[verifier::opaque]
    pub open spec fn check_type_attributes(
        self,
        attributes: List<Attribute<'a>>,
        is_enum: bool,
    ) -> Self {
        let problems = type_attribute_problems(self.types.problems, attributes, is_enum);
        State { types: Types { problems, ..self.types }, ..self }
    }

    /// What is wrong with generic parameters is reported.
    #[verifier::opaque]
    pub open spec fn check_generic_parameters(self, parameters: List<GenericParameter<'a>>) -> Self {
        let problems = parameter_problems(self.types.problems, parameters, List::Nil, false);
        State { types: Types { problems, ..self.types }, ..self }
    }

    /// A definition for a struct or enum, to be filled in later.
    #[verifier::opaque]
    pub open spec fn define_type(
        self,
        name: Text<'a>,
        template: GenericTypeTemplate<'a>,
    ) -> (Self, Option<TypeId>) {
        let (types, result) = declared(self.types, name, template);
        (State { types, ..self }, result)
    }

    /// A definition is filled in.
    #[verifier::opaque]
    pub open spec fn fill_type(self, id: TypeId, kind: TypeDefinitionKind<'a>) -> Self {
        State { types: self.types.with_kind(id, kind), ..self }
    }

    /// The fields of a declaration.
    #[verifier::opaque]
    pub open spec fn resolve_fields(
        self,
        fields: List<StructField<'a>>,
    ) -> (Self, List<TypeField<'a>>) {
        let (types, result) = fields_resolved(
            self.types,
            fields,
            self.frame.environment,
            List::Nil,
            LIMIT as nat,
        );
        (State { types, ..self }, result)
    }

    /// The variants of a declaration.
    #[verifier::opaque]
    pub open spec fn resolve_variants(
        self,
        variants: List<ast::EnumVariant<'a>>,
    ) -> (Self, List<EnumVariant<'a>>) {
        let (types, result) = variants_resolved(
            self.types,
            variants,
            self.frame.environment,
            List::Nil,
            LIMIT as nat,
        );
        (State { types, ..self }, result)
    }

    /// The values of generic parameters and the bindings that they make.
    #[verifier::opaque]
    pub open spec fn bind_generic_arguments(
        self,
        parameters: List<GenericParameter<'a>>,
        arguments: List<GenericArgument<'a>>,
        environment: Environment<'a>,
        span: Span,
    ) -> (Self, Option<(List<GenericValue>, Environment<'a>)>) {
        let (types, result) = arguments_bound(
            self.types,
            parameters,
            arguments,
            environment,
            span,
            LIMIT as nat,
        );
        (State { types, ..self }, result)
    }

    /// What a type derives but may not derive is reported.
    #[verifier::opaque]
    pub open spec fn check_derives(self, ty: Type) -> Self {
        State { types: derives_checked(self.types, ty), ..self }
    }

    /// The typed expression for a value.
    #[verifier::opaque]
    pub open spec fn lower_value(
        self,
        value: Value<'a>,
        ty: Type,
        span: Span,
    ) -> (Self, Option<Expression<'a>>) {
        let (types, result) = self.types.lower_compiletime_value(value, ty, span);
        (State { types, ..self }, result)
    }

    /// The type that a written type stands for. No problem is kept.
    #[verifier::opaque]
    pub open spec fn resolve_quietly(
        self,
        written: TypeName<'a>,
    ) -> (Self, (Option<Type>, Option<Text<'a>>)) {
        let (types, result) = self.types.resolved_quietly(written, self.frame.environment);
        (State { types, ..self }, result)
    }
}

impl<'a> Analyzer<'a> {
    /// A problem is reported.
    pub(crate) fn report(&mut self, problem: Diagnostic<'a>)
        ensures
            final(self)@ == old(self)@.report(problem),
            old(self)@.leads_to(final(self)@),
            old(self)@.stays(final(self)@),
            final(self)@.troubled(),
    {
        reveal(State::leads_to);
        reveal(State::stays);
        reveal(State::troubled);
        reveal(State::report);
        self.types.report(problem);
    }

    /// The type of tuples of these elements.
    pub(crate) fn intern_tuple(
        &mut self,
        elements: List<Type>,
        span: Span,
    ) -> (result: Option<Type>)
        ensures
            (final(self)@, result) == old(self)@.intern_tuple(elements, span),
            old(self)@.leads_to(final(self)@),
            old(self)@.stays(final(self)@),
    {
        reveal(State::leads_to);
        reveal(State::stays);
        reveal(State::intern_tuple);
        self.types.intern_tuple(elements, span)
    }

    /// The type of arrays of a length.
    pub(crate) fn intern_array(
        &mut self,
        element: Type,
        length: u64,
        span: Span,
    ) -> (result: Option<Type>)
        ensures
            (final(self)@, result) == old(self)@.intern_array(element, length, span),
            old(self)@.leads_to(final(self)@),
            old(self)@.stays(final(self)@),
    {
        reveal(State::leads_to);
        reveal(State::stays);
        reveal(State::intern_array);
        self.types.intern_array(element, length, span)
    }

    /// The type of references.
    pub(crate) fn intern_reference(
        &mut self,
        target: Type,
        mutable: bool,
        span: Span,
    ) -> (result: Option<Type>)
        ensures
            (final(self)@, result) == old(self)@.intern_reference(target, mutable, span),
            old(self)@.leads_to(final(self)@),
            old(self)@.stays(final(self)@),
    {
        reveal(State::leads_to);
        reveal(State::stays);
        reveal(State::intern_reference);
        self.types.intern_reference(target, mutable, span)
    }

    /// The type of raw pointers.
    pub(crate) fn intern_raw_pointer(
        &mut self,
        target: Type,
        mutable: bool,
        span: Span,
    ) -> (result: Option<Type>)
        ensures
            (final(self)@, result) == old(self)@.intern_raw_pointer(target, mutable, span),
            old(self)@.leads_to(final(self)@),
            old(self)@.stays(final(self)@),
    {
        reveal(State::leads_to);
        reveal(State::stays);
        reveal(State::intern_raw_pointer);
        self.types.intern_raw_pointer(target, mutable, span)
    }

    /// The type of slices.
    pub(crate) fn intern_slice(
        &mut self,
        element: Type,
        mutable: bool,
        span: Span,
    ) -> (result: Option<Type>)
        ensures
            (final(self)@, result) == old(self)@.intern_slice(element, mutable, span),
            old(self)@.leads_to(final(self)@),
            old(self)@.stays(final(self)@),
    {
        reveal(State::leads_to);
        reveal(State::stays);
        reveal(State::intern_slice);
        self.types.intern_slice(element, mutable, span)
    }

    /// The type of functions.
    pub(crate) fn intern_function(
        &mut self,
        parameters: List<Type>,
        return_type: Type,
        span: Span,
    ) -> (result: Option<Type>)
        ensures
            (final(self)@, result) == old(self)@.intern_function(parameters, return_type, span),
            old(self)@.leads_to(final(self)@),
            old(self)@.stays(final(self)@),
    {
        reveal(State::leads_to);
        reveal(State::stays);
        reveal(State::intern_function);
        self.types.intern_function(parameters, return_type, span)
    }

    /// The type of optional values.
    pub(crate) fn intern_option(&mut self, value: Type, span: Span) -> (result: Option<Type>)
        ensures
            (final(self)@, result) == old(self)@.intern_option(value, span),
            old(self)@.leads_to(final(self)@),
            old(self)@.stays(final(self)@),
    {
        reveal(State::leads_to);
        reveal(State::stays);
        reveal(State::intern_option);
        self.types.intern_option(value, span)
    }

    /// The type of results.
    pub(crate) fn intern_result(
        &mut self,
        success: Type,
        error: Type,
        span: Span,
    ) -> (result: Option<Type>)
        ensures
            (final(self)@, result) == old(self)@.intern_result(success, error, span),
            old(self)@.leads_to(final(self)@),
    {
        reveal(State::leads_to);
        reveal(State::intern_result);
        self.types.intern_result(success, error, span)
    }

    /// The type of iterators over the characters of a string.
    pub(crate) fn intern_chars(&mut self, span: Span) -> (result: Option<Type>)
        ensures
            (final(self)@, result) == old(self)@.intern_chars(span),
            old(self)@.leads_to(final(self)@),
            old(self)@.stays(final(self)@),
    {
        reveal(State::leads_to);
        reveal(State::stays);
        reveal(State::intern_chars);
        self.types.intern_chars(span)
    }

    /// The type that a written type stands for in this function.
    pub(crate) fn resolve_type(&mut self, written: &TypeName<'a>) -> (result: Option<Type>)
        ensures
            (final(self)@, result) == old(self)@.resolve_type(*written),
            old(self)@.leads_to(final(self)@),
            old(self)@.stays(final(self)@),
    {
        reveal(State::leads_to);
        reveal(State::stays);
        reveal(State::resolve_type);
        self.types.resolve_type_name_in(written, &self.frame.environment)
    }

    /// The type that a written type stands for where generic parameters are bound.
    pub(crate) fn resolve_type_in(
        &mut self,
        written: &TypeName<'a>,
        environment: &Environment<'a>,
    ) -> (result: Option<Type>)
        ensures
            (final(self)@, result) == old(self)@.resolve_type_in(*written, *environment),
            old(self)@.leads_to(final(self)@),
            old(self)@.stays(final(self)@),
    {
        reveal(State::leads_to);
        reveal(State::stays);
        reveal(State::resolve_type_in);
        self.types.resolve_type_name_in(written, environment)
    }

    /// The value of an array length in this function.
    pub(crate) fn array_length(&mut self, expression: &ast::Expression<'a>) -> (result: Option<u64>)
        ensures
            (final(self)@, result) == old(self)@.array_length(*expression),
            old(self)@.leads_to(final(self)@),
            old(self)@.stays(final(self)@),
    {
        reveal(State::leads_to);
        reveal(State::stays);
        reveal(State::array_length);
        self.types.resolve_length(expression, &self.frame.environment)
    }

    /// Whether the bounds of a generic declaration hold.
    pub(crate) fn validate_bounds(
        &mut self,
        parameters: &List<GenericParameter<'a>>,
        predicates: &List<WherePredicate<'a>>,
        environment: &Environment<'a>,
        span: Span,
    ) -> (result: bool)
        ensures
            (final(self)@, result) == old(self)@.validate_bounds(
                *parameters,
                *predicates,
                *environment,
                span,
            ),
            old(self)@.leads_to(final(self)@),
            old(self)@.stays(final(self)@),
    {
        reveal(State::leads_to);
        reveal(State::stays);
        reveal(State::validate_bounds);
        self.types.validate_bounds(parameters, predicates, environment, span)
    }

    /// The value of an array length where generic parameters are bound.
    pub(crate) fn array_length_in(
        &mut self,
        expression: &ast::Expression<'a>,
        environment: &Environment<'a>,
    ) -> (result: Option<u64>)
        ensures
            (final(self)@, result) == old(self)@.array_length_in(*expression, *environment),
            old(self)@.leads_to(final(self)@),
            old(self)@.stays(final(self)@),
    {
        reveal(State::leads_to);
        reveal(State::stays);
        reveal(State::array_length_in);
        self.types.resolve_length(expression, environment)
    }

    /// The values of generic arguments in this function.
    pub(crate) fn resolve_argument_values(
        &mut self,
        arguments: &List<GenericArgument<'a>>,
    ) -> (result: Option<List<GenericValue>>)
        ensures
            (final(self)@, result) == old(self)@.resolve_argument_values(*arguments),
            old(self)@.leads_to(final(self)@),
            old(self)@.stays(final(self)@),
    {
        reveal(State::leads_to);
        reveal(State::stays);
        reveal(State::resolve_argument_values);
        self.types.resolve_argument_values(arguments, &self.frame.environment)
    }

    /// What is wrong with the annotations of a function is reported.
    pub(crate) fn check_function_attributes(&mut self, function: &ast::Function<'a>)
        ensures
            final(self)@ == old(self)@.check_function_attributes(*function),
            old(self)@.leads_to(final(self)@),
    {
        reveal(State::leads_to);
        reveal(State::check_function_attributes);
        reveal(Types::grows_into);
        validate_function_attributes(function, &mut self.types.problems);
    }

    /// What a function may not do at compile time is reported.
    pub(crate) fn check_comptime_function(
        &mut self,
        function: &ast::Function<'a>,
        functions: &List<&'a str>,
    )
        ensures
            final(self)@ == old(self)@.check_comptime_function(*function, *functions),
            old(self)@.leads_to(final(self)@),
    {
        reveal(State::leads_to);
        reveal(State::check_comptime_function);
        reveal(Types::grows_into);
        validate_comptime_function(function, functions, &mut self.types.problems);
    }

    /// What is wrong with the annotations of a type is reported.
    pub(crate) fn check_type_attributes(&mut self, attributes: &List<Attribute<'a>>, is_enum: bool)
        ensures
            final(self)@ == old(self)@.check_type_attributes(*attributes, is_enum),
            old(self)@.leads_to(final(self)@),
    {
        reveal(State::leads_to);
        reveal(State::check_type_attributes);
        reveal(Types::grows_into);
        validate_type_attributes(attributes, is_enum, &mut self.types.problems);
    }

    /// What is wrong with generic parameters is reported.
    pub(crate) fn check_generic_parameters(&mut self, parameters: &List<GenericParameter<'a>>)
        ensures
            final(self)@ == old(self)@.check_generic_parameters(*parameters),
            old(self)@.leads_to(final(self)@),
    {
        reveal(State::leads_to);
        reveal(State::check_generic_parameters);
        reveal(Types::grows_into);
        validate_generic_parameter_names(parameters, &mut self.types.problems);
    }

    /// A definition for a struct or enum, to be filled in later.
    pub(crate) fn define_type(
        &mut self,
        name: Text<'a>,
        template: &GenericTypeTemplate<'a>,
    ) -> (result: Option<TypeId>)
        ensures
            (final(self)@, result) == old(self)@.define_type(name, *template),
            old(self)@.leads_to(final(self)@),
    {
        reveal(State::leads_to);
        reveal(State::define_type);
        self.types.declare(name, template)
    }

    /// A definition is filled in.
    pub(crate) fn fill_type(&mut self, id: TypeId, kind: TypeDefinitionKind<'a>)
        ensures
            final(self)@ == old(self)@.fill_type(id, kind),
            old(self)@.leads_to(final(self)@),
    {
        reveal(State::leads_to);
        reveal(State::fill_type);
        self.types.set_kind(id, kind);
    }

    /// The fields of a declaration.
    pub(crate) fn resolve_fields(
        &mut self,
        fields: &List<StructField<'a>>,
    ) -> (result: List<TypeField<'a>>)
        ensures
            (final(self)@, result) == old(self)@.resolve_fields(*fields),
            old(self)@.leads_to(final(self)@),
    {
        reveal(State::leads_to);
        reveal(State::resolve_fields);
        self.types.resolve_fields_in(fields, &self.frame.environment)
    }

    /// The variants of a declaration.
    pub(crate) fn resolve_variants(
        &mut self,
        variants: &List<ast::EnumVariant<'a>>,
    ) -> (result: List<EnumVariant<'a>>)
        ensures
            (final(self)@, result) == old(self)@.resolve_variants(*variants),
            old(self)@.leads_to(final(self)@),
    {
        reveal(State::leads_to);
        reveal(State::resolve_variants);
        self.types.resolve_variants_in(variants, &self.frame.environment)
    }

    /// The values of generic parameters and the bindings that they make.
    pub(crate) fn bind_generic_arguments(
        &mut self,
        parameters: &List<GenericParameter<'a>>,
        arguments: &List<GenericArgument<'a>>,
        environment: &Environment<'a>,
        span: Span,
    ) -> (result: Option<(List<GenericValue>, Environment<'a>)>)
        ensures
            (final(self)@, result) == old(self)@.bind_generic_arguments(
                *parameters,
                *arguments,
                *environment,
                span,
            ),
            old(self)@.leads_to(final(self)@),
    {
        reveal(State::leads_to);
        reveal(State::bind_generic_arguments);
        self.types.bind_generic_arguments(parameters, arguments, environment, span)
    }

    /// What a type derives but may not derive is reported.
    pub(crate) fn check_derives(&mut self, ty: Type)
        ensures
            final(self)@ == old(self)@.check_derives(ty),
            old(self)@.leads_to(final(self)@),
    {
        reveal(State::leads_to);
        reveal(State::check_derives);
        self.types.validate_type_derives(ty);
    }

    /// The typed expression for a value.
    pub(crate) fn lower_value(
        &mut self,
        value: &Value<'a>,
        ty: Type,
        span: Span,
    ) -> (result: Option<Expression<'a>>)
        ensures
            (final(self)@, result) == old(self)@.lower_value(*value, ty, span),
            old(self)@.leads_to(final(self)@),
            always_sound_if_any(result),
            result is Some ==> result->0.ty == ty,
    {
        reveal(State::leads_to);
        reveal(State::lower_value);
        self.types.lower_compiletime_value(value, ty, span)
    }

    /// The type that a written type stands for. No problem is kept.
    pub(crate) fn resolve_quietly(
        &mut self,
        written: &TypeName<'a>,
    ) -> (result: (Option<Type>, Option<Text<'a>>))
        ensures
            (final(self)@, result) == old(self)@.resolve_quietly(*written),
            old(self)@.leads_to(final(self)@),
    {
        reveal(State::leads_to);
        reveal(State::resolve_quietly);
        self.types.resolved_quietly(written, &self.frame.environment)
    }
}

} // verus!

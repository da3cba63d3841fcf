//! Questions about types and values that every part of the analyzer asks.

use crate::analyzer::growth::is_declared;
use crate::analyzer::{
    find_symbol, symbol, Analyzer, GenericFunctionTemplate, Signature, State, StaticSymbol, Symbol,
};
use crate::ast::FieldName;
use crate::generics::{bound, find, GenericValue};
use crate::hir::{EnumVariant, EnumVariantFields, Expression, TypeDefinitionKind, TypeField};
use crate::list::{append, cons, prepend, prepended, List};
use crate::registry::IntrinsicType;
use crate::span::{error, helped, Span};
use crate::syntax::{member, member_symbol, module_identity, symbol_module_identity};
use crate::text::{characters, frame, framed, joined, same, show, words, Piece, Text};
use crate::types::Type;
use vstd::prelude::*;

verus! {

broadcast use {
    crate::analyzer::growth::group_led,
    crate::analyzer::numbering::group_numbered,
    crate::analyzer::sparing::group_spared,
    crate::list::pushed_comes_first,
    crate::registry::growth::group_grown,
    crate::span::group_kept,
};

/// Whether a symbol belongs to the module of another. Without a symbol, the
/// other must belong to no module.
#[verifier::opaque]
pub open spec fn in_module_of<'a>(symbol: Option<Text<'a>>, home: Text<'a>) -> bool {
    (match symbol {
        Some(symbol) => module_identity(characters(symbol)),
        None => None,
    }) == module_identity(characters(home))
}

/// Whether a symbol belongs to the module of another. Without a symbol, the
/// other must belong to no module.
pub fn shares_module<'a>(symbol: &Option<Text<'a>>, home: &Text<'a>) -> (answer: bool)
    ensures
        answer == in_module_of(*symbol, *home),
{
    reveal(in_module_of);
    let home = show(home);
    let expected = symbol_module_identity(home.as_str());
    match symbol {
        None => expected.is_none(),
        Some(symbol) => {
            let shown = show(symbol);
            match symbol_module_identity(shown.as_str()) {
                None => expected.is_none(),
                Some(actual) => match expected {
                    None => false,
                    Some(expected) => same(actual, expected),
                },
            }
        },
    }
}

/// Whether a symbol belongs to the module of that name.
#[verifier::opaque]
pub open spec fn in_named_module<'a>(symbol: Text<'a>, name: &str) -> bool {
    module_identity(characters(symbol)) == Some(name@)
}

/// Whether a symbol belongs to the module of that name.
pub fn is_in_module<'a>(symbol: &Text<'a>, name: &str) -> (answer: bool)
    ensures
        answer == in_named_module(*symbol, name),
{
    reveal(in_named_module);
    let shown = show(symbol);
    match symbol_module_identity(shown.as_str()) {
        Some(module) => same(module, name),
        None => false,
    }
}

/// Whether a type is a tuple.
#[verifier::opaque]
pub open spec fn spec_is_tuple_type(ty: Type) -> bool {
    match ty {
        Type::Tuple(_) => true,
        _ => false,
    }
}

/// Whether a type is a tuple.
pub(crate) fn is_tuple_type(ty: Type) -> (answer: bool)
    ensures
        answer == spec_is_tuple_type(ty),
{
    reveal(spec_is_tuple_type);
    match ty {
        Type::Tuple(_) => true,
        _ => false,
    }
}

/// Whether a type is an array.
#[verifier::opaque]
pub open spec fn spec_is_array_type(ty: Type) -> bool {
    match ty {
        Type::Array(_) => true,
        _ => false,
    }
}

/// Whether a type is an array.
pub(crate) fn is_array_type(ty: Type) -> (answer: bool)
    ensures
        answer == spec_is_array_type(ty),
{
    reveal(spec_is_array_type);
    match ty {
        Type::Array(_) => true,
        _ => false,
    }
}

/// Whether a type is a struct.
#[verifier::opaque]
pub open spec fn spec_is_struct_type(ty: Type) -> bool {
    match ty {
        Type::Struct(_) => true,
        _ => false,
    }
}

/// Whether a type is a struct.
pub(crate) fn is_struct_type(ty: Type) -> (answer: bool)
    ensures
        answer == spec_is_struct_type(ty),
{
    reveal(spec_is_struct_type);
    match ty {
        Type::Struct(_) => true,
        _ => false,
    }
}

/// Whether a type is an enum.
#[verifier::opaque]
pub open spec fn spec_is_enum_type(ty: Type) -> bool {
    match ty {
        Type::Enum(_) => true,
        _ => false,
    }
}

/// Whether a type is an enum.
pub(crate) fn is_enum_type(ty: Type) -> (answer: bool)
    ensures
        answer == spec_is_enum_type(ty),
{
    reveal(spec_is_enum_type);
    match ty {
        Type::Enum(_) => true,
        _ => false,
    }
}

/// The types of expressions.
#[verifier::opaque]
pub open spec fn spec_types_of<'a>(expressions: List<Expression<'a>>) -> List<Type>
    decreases expressions,
{
    match expressions {
        List::Nil => List::Nil,
        List::Cons(node) => cons(node.head.ty, spec_types_of(node.tail)),
    }
}

/// The types of expressions.
pub(crate) fn types_of<'a>(expressions: &List<Expression<'a>>) -> (types: List<Type>)
    ensures
        types == spec_types_of(*expressions),
{
    let mut ahead: &List<Expression<'a>> = expressions;
    let mut done: Vec<Type> = Vec::new();
    loop
        invariant
            spec_types_of(*expressions) == prepended(done@, spec_types_of(*ahead)),
        decreases *ahead,
    {
        reveal(spec_types_of);
        match ahead {
            List::Nil => {
                return prepend(done, List::Nil);
            },
            List::Cons(node) => {
                done.push(node.head.ty);
                ahead = &node.tail;
            },
        }
    }
}

/// The position and the payload of the variant of that name.
#[verifier::opaque]
pub open spec fn spec_find_variant<'a>(
    variants: List<EnumVariant<'a>>,
    name: &str,
    position: u32,
) -> Option<(u32, EnumVariantFields<'a>)>
    decreases variants,
{
    match variants {
        List::Nil => None,
        List::Cons(node) => if node.head.name@ == name@ {
            Some((position, node.head.fields))
        } else {
            spec_find_variant(node.tail, name, position.saturating_add(1))
        },
    }
}

/// The position and the payload of the variant of that name.
pub(crate) fn find_variant<'a>(
    variants: &List<EnumVariant<'a>>,
    name: &str,
    position: u32,
) -> (variant: Option<(u32, EnumVariantFields<'a>)>)
    ensures
        variant == spec_find_variant(*variants, name, position),
{
    let mut ahead: &List<EnumVariant<'a>> = variants;
    let mut current_position: u32 = position;
    loop
        invariant
            spec_find_variant(*variants, name, position) == spec_find_variant(
                *ahead,
                name,
                current_position,
            ),
        decreases *ahead,
    {
        reveal(spec_find_variant);
        match ahead {
            List::Nil => {
                return None;
            },
            List::Cons(node) => {
                if same(node.head.name, name) {
                    return Some((current_position, node.head.fields.share()));
                } else {
                    current_position = current_position.saturating_add(1);
                    ahead = &node.tail;
                }
            },
        }
    }
}

/// Whether any of the fields is private.
#[verifier::opaque]
pub open spec fn spec_any_private<'a>(fields: List<TypeField<'a>>) -> bool
    decreases fields,
{
    match fields {
        List::Nil => false,
        List::Cons(node) => !node.head.is_public || spec_any_private(node.tail),
    }
}

/// Whether any of the fields is private.
pub(crate) fn any_private<'a>(fields: &List<TypeField<'a>>) -> (answer: bool)
    ensures
        answer == spec_any_private(*fields),
{
    let mut ahead: &List<TypeField<'a>> = fields;
    loop
        invariant
            spec_any_private(*fields) == spec_any_private(*ahead),
        decreases *ahead,
    {
        reveal(spec_any_private);
        match ahead {
            List::Nil => {
                return false;
            },
            List::Cons(node) => {
                if !node.head.is_public {
                    return true;
                }
                ahead = &node.tail;
            },
        }
    }
}

/// The position, the type and the visibility of the field of that name.
#[verifier::opaque]
pub open spec fn spec_find_field<'a>(
    fields: List<TypeField<'a>>,
    name: &str,
    position: u32,
) -> Option<(u32, Type, bool)>
    decreases fields,
{
    match fields {
        List::Nil => None,
        List::Cons(node) => if node.head.name@ == name@ {
            Some((position, node.head.ty, node.head.is_public))
        } else {
            spec_find_field(node.tail, name, position.saturating_add(1))
        },
    }
}

/// The position, the type and the visibility of the field of that name.
pub(crate) fn find_field<'a>(
    fields: &List<TypeField<'a>>,
    name: &str,
    position: u32,
) -> (field: Option<(u32, Type, bool)>)
    ensures
        field == spec_find_field(*fields, name, position),
{
    let mut ahead: &List<TypeField<'a>> = fields;
    let mut current_position: u32 = position;
    loop
        invariant
            spec_find_field(*fields, name, position) == spec_find_field(
                *ahead,
                name,
                current_position,
            ),
        decreases *ahead,
    {
        reveal(spec_find_field);
        match ahead {
            List::Nil => {
                return None;
            },
            List::Cons(node) => {
                if same(node.head.name, name) {
                    return Some((current_position, node.head.ty, node.head.is_public));
                } else {
                    current_position = current_position.saturating_add(1);
                    ahead = &node.tail;
                }
            },
        }
    }
}

/// Whether there is a field of that name.
#[verifier::opaque]
pub open spec fn spec_has_field<'a>(fields: List<TypeField<'a>>, name: &str) -> bool
    decreases fields,
{
    match fields {
        List::Nil => false,
        List::Cons(node) => node.head.name@ == name@ || spec_has_field(node.tail, name),
    }
}

/// Whether there is a field of that name.
pub(crate) fn has_field<'a>(fields: &List<TypeField<'a>>, name: &str) -> (answer: bool)
    ensures
        answer == spec_has_field(*fields, name),
{
    let mut ahead: &List<TypeField<'a>> = fields;
    loop
        invariant
            spec_has_field(*fields, name) == spec_has_field(*ahead, name),
        decreases *ahead,
    {
        reveal(spec_has_field);
        match ahead {
            List::Nil => {
                return false;
            },
            List::Cons(node) => {
                if same(node.head.name, name) {
                    return true;
                }
                ahead = &node.tail;
            },
        }
    }
}

/// The type at a position.
#[verifier::opaque]
pub open spec fn spec_element_at(types: List<Type>, position: u64) -> Option<Type>
    decreases types,
{
    match types {
        List::Nil => None,
        List::Cons(node) => if position == 0 {
            Some(node.head)
        } else {
            spec_element_at(node.tail, position.saturating_sub(1))
        },
    }
}

/// The type at a position.
pub(crate) fn element_at(types: &List<Type>, position: u64) -> (ty: Option<Type>)
    ensures
        ty == spec_element_at(*types, position),
{
    let mut ahead: &List<Type> = types;
    let mut current_position: u64 = position;
    loop
        invariant
            spec_element_at(*types, position) == spec_element_at(*ahead, current_position),
        decreases *ahead,
    {
        reveal(spec_element_at);
        match ahead {
            List::Nil => {
                return None;
            },
            List::Cons(node) => {
                if current_position == 0 {
                    return Some(node.head);
                } else {
                    current_position = current_position.saturating_sub(1);
                    ahead = &node.tail;
                }
            },
        }
    }
}

proof fn found_is_listed<'a>(symbols: List<Symbol<'a, Signature>>, name: Text<'a>)
    ensures
        symbol(symbols, name) is Some ==> is_declared(symbols, symbol(symbols, name)->0),
    decreases symbols,
{
    reveal(is_declared);
    reveal(symbol);
    match symbols {
        List::Nil => {},
        List::Cons(_) => {
            found_is_listed(symbols.rest(), name);
        },
    }
}

impl<'a> State<'a> {
    /// A value does not have the type that its place requires.
    #[verifier::opaque]
    pub open spec fn type_mismatch(
        self,
        expected: Type,
        actual: Type,
        span: Span,
        role: &'a str,
    ) -> Self {
        let s = self.report(
            error(
                "E3103",
                cons(
                    Piece::Words(role),
                    cons(
                        Piece::Words(" requires `"),
                        append(expected.text(), framed("`, found `", actual.text(), "`")),
                    ),
                ),
                span,
            ),
        );
        s
    }

    /// A value must have the type that its place requires.
    #[verifier::opaque]
    pub open spec fn require_type(
        self,
        expected: Type,
        actual: Type,
        span: Span,
        role: &'a str,
    ) -> Self {
        if !expected.accepts(actual) {
            let s = self.type_mismatch(expected, actual, span, role);
            s
        } else {
            self
        }
    }

    /// A value must have the type that its place requires, if it requires one.
    #[verifier::opaque]
    pub open spec fn require_expected(
        self,
        expected: Option<Type>,
        actual: Type,
        span: Span,
        role: &'a str,
    ) -> Self {
        match expected {
            Some(expected) => self.require_type(expected, actual, span, role),
            None => self,
        }
    }

    /// An operator cannot be applied to a type.
    #[verifier::opaque]
    pub open spec fn invalid_operator(self, role: &'a str, ty: Type, span: Span) -> Self {
        let s = self.report(
            helped(
                "E3112",
                cons(Piece::Words(role), framed(" is not defined for `", ty.text(), "`")),
                "use an operator supported by this operand type",
                span,
            ),
        );
        s
    }

    /// The type of a value that comes from one of two branches.
    #[verifier::opaque]
    pub open spec fn unify_branch_types(self, left: Type, right: Type, span: Span) -> (Self, Type) {
        if left == Type::Never {
            (self, right)
        } else if right == Type::Never || left == right {
            (self, left)
        } else {
            let s = self.type_mismatch(left, right, span, "`if` branches");
            (s, Type::Unit)
        }
    }

    /// What a reference or a pointer leads to, whether it is mutable, and whether
    /// it is raw.
    #[verifier::opaque]
    pub open spec fn pointer_shape(self, ty: Type) -> Option<(Type, bool, bool)> {
        self.types.pointer_shape(ty)
    }

    /// The element of a slice, and whether it is mutable.
    #[verifier::opaque]
    pub open spec fn slice_shape(self, ty: Type) -> Option<(Type, bool)> {
        self.types.slice_shape(ty)
    }

    /// The parameters and the result of a function type.
    #[verifier::opaque]
    pub open spec fn function_shape(self, ty: Type) -> Option<(List<Type>, Type)> {
        self.types.function_shape(ty)
    }

    /// The element and the length of an array.
    #[verifier::opaque]
    pub open spec fn array_shape(self, ty: Type) -> Option<(Type, u64)> {
        self.types.array_shape(ty)
    }

    /// The elements of a tuple.
    #[verifier::opaque]
    pub open spec fn tuple_elements(self, ty: Type) -> Option<List<Type>> {
        self.types.tuple_shape(ty)
    }

    /// The fields of a struct.
    #[verifier::opaque]
    pub open spec fn struct_fields(self, ty: Type) -> List<TypeField<'a>> {
        self.types.struct_fields(ty)
    }

    /// What the language itself knows of a type.
    #[verifier::opaque]
    pub open spec fn intrinsic(self, ty: Type) -> Option<IntrinsicType> {
        self.types.intrinsic(ty)
    }

    /// The generic type and the arguments that a type was made of.
    #[verifier::opaque]
    pub open spec fn generic_instance(self, ty: Type) -> Option<(&'a str, List<GenericValue>)> {
        self.types.generic_instance(ty)
    }

    /// Whether a type was made of the generic type of that name.
    #[verifier::opaque]
    pub open spec fn is_instance_of(self, ty: Type, name: &str) -> bool {
        match self.types.generic_instance(ty) {
            Some((base_name, _)) => base_name@ == name@,
            None => false,
        }
    }

    /// The type of that name.
    #[verifier::opaque]
    pub open spec fn named_type(self, name: &str) -> Option<Type> {
        match bound(self.types.names, name@) {
            Some(ty) => Some(ty),
            None => None,
        }
    }

    /// The enum of that name.
    #[verifier::opaque]
    pub open spec fn named_enum(self, name: &str) -> Option<Type> {
        match self.named_type(name) {
            Some(ty) => if spec_is_enum_type(ty) {
                Some(ty)
            } else {
                None
            },
            None => None,
        }
    }

    /// What can be reached by an index in values of a type.
    #[verifier::opaque]
    pub open spec fn indexed_element(self, ty: Type) -> Option<Type> {
        match self.types.array_shape(ty) {
            Some((element, _)) => Some(element),
            None => match self.types.slice_shape(ty) {
                Some((element, _)) => Some(element),
                None => match self.types.pointer_shape(ty) {
                    Some((target, _, _)) => match self.types.array_shape(target) {
                        Some((element, _)) => Some(element),
                        None => None,
                    },
                    None => None,
                },
            },
        }
    }

    /// The variants of an enum.
    #[verifier::opaque]
    pub open spec fn enum_variants(self, ty: Type) -> Option<List<EnumVariant<'a>>> {
        match self.types.shape(ty) {
            Some(TypeDefinitionKind::Enum { variants }) => Some(variants),
            _ => None,
        }
    }

    /// The position and the payload of a variant.
    #[verifier::opaque]
    pub open spec fn enum_variant(
        self,
        ty: Type,
        name: &str,
    ) -> Option<(u32, EnumVariantFields<'a>)> {
        match self.enum_variants(ty) {
            Some(variants) => spec_find_variant(variants, name, 0),
            None => None,
        }
    }

    /// The position of a variant without payload.
    #[verifier::opaque]
    pub open spec fn unit_variant(self, ty: Type, name: &str) -> Option<u32> {
        match self.enum_variant(ty, name) {
            Some((variant, EnumVariantFields::Unit)) => Some(variant),
            _ => None,
        }
    }

    /// Whether a type is declared in another module.
    #[verifier::opaque]
    pub open spec fn type_is_external(self, ty: Type) -> bool {
        match self.types.definition(ty) {
            Some(definition) => !in_module_of(definition.name, self.frame.home),
            None => !in_module_of(None, self.frame.home),
        }
    }

    /// A type of another module must not be constructed through its private
    /// fields.
    #[verifier::opaque]
    pub open spec fn reject_external_private_construction(
        self,
        ty: Type,
        fields: List<TypeField<'a>>,
        span: Span,
    ) -> Self {
        if self.type_is_external(ty) && spec_any_private(fields) {
            let s = self.report(
                helped(
                    "E4005",
                    words("cannot construct an external aggregate with private fields"),
                    "use a public constructor function from the defining module",
                    span,
                ),
            );
            s
        } else {
            self
        }
    }

    /// The field of an aggregate that a name selects: its position, its type and
    /// its visibility.
    #[verifier::opaque]
    pub open spec fn selected_field(
        self,
        ty: Type,
        field: FieldName<'a>,
    ) -> Option<(u32, Type, bool)> {
        match field {
            FieldName::Named(name) => if spec_is_struct_type(ty) {
                spec_find_field(self.types.struct_fields(ty), name.name, 0)
            } else {
                None
            },
            FieldName::TupleIndex { index, .. } => if spec_is_tuple_type(ty) {
                match self.types.tuple_shape(ty) {
                    Some(elements) => match spec_element_at(elements, index as u64) {
                        Some(element) => Some((index, element, true)),
                        None => None,
                    },
                    None => None,
                }
            } else {
                None
            },
        }
    }

    /// What callers know of the function of that name.
    #[verifier::opaque]
    pub open spec fn signature_of(self, name: Text<'a>) -> Option<Signature> {
        match symbol(self.symbols.signatures, name) {
            Some(signature) => Some(signature),
            None => None,
        }
    }

    /// The generic function of that name.
    #[verifier::opaque]
    pub open spec fn template_of(self, name: Text<'a>) -> Option<GenericFunctionTemplate<'a>> {
        match symbol(self.symbols.templates, name) {
            Some(template) => Some(template),
            None => None,
        }
    }

    /// Whether there is a function of that name.
    #[verifier::opaque]
    pub open spec fn has_signature(self, name: Text<'a>) -> bool {
        symbol(self.symbols.signatures, name).is_some()
    }

    /// Whether there is a generic function of that name.
    #[verifier::opaque]
    pub open spec fn has_template(self, name: Text<'a>) -> bool {
        symbol(self.symbols.templates, name).is_some()
    }

    /// The static of that name.
    #[verifier::opaque]
    pub open spec fn static_of(self, name: &str) -> Option<StaticSymbol> {
        match bound(self.symbols.statics, name@) {
            Some(value) => Some(value),
            None => None,
        }
    }

    /// Whether values of a type have a method of that name.
    #[verifier::opaque]
    pub open spec fn has_method(self, ty: Type, method: &'a str) -> bool {
        match self.types.nominal_name(ty) {
            None => false,
            Some(owner) => self.has_signature(member(owner, method))
                || (match self.types.generic_instance(ty) {
                    Some((base_name, _)) => self.has_template(member(words(base_name), method)),
                    None => self.has_template(member(owner, method)),
                }),
        }
    }
}

impl<'a> Analyzer<'a> {
    /// A value does not have the type that its place requires.
    pub(crate) fn type_mismatch(&mut self, expected: Type, actual: Type, span: Span, role: &'a str)
        ensures
            final(self)@ == old(self)@.type_mismatch(expected, actual, span, role),
            old(self)@.leads_to(final(self)@),
            old(self)@.stays(final(self)@),
            final(self)@.troubled(),
    {
        reveal(State::type_mismatch);
        self.report(
            error(
                "E3103",
                cons(
                    Piece::Words(role),
                    cons(
                        Piece::Words(" requires `"),
                        joined(&expected.text(), frame("`, found `", &actual.text(), "`")),
                    ),
                ),
                span,
            ),
        );
    }

    /// A value must have the type that its place requires.
    pub(crate) fn require_type(&mut self, expected: Type, actual: Type, span: Span, role: &'a str)
        ensures
            final(self)@ == old(self)@.require_type(expected, actual, span, role),
            old(self)@.leads_to(final(self)@),
            old(self)@.stays(final(self)@),
            expected.accepts(actual) || final(self)@.troubled(),
    {
        reveal(State::require_type);
        if !expected.accepts(actual) {
            self.type_mismatch(expected, actual, span, role);
        }
    }

    /// A value must have the type that its place requires, if it requires one.
    pub(crate) fn require_expected(
        &mut self,
        expected: Option<Type>,
        actual: Type,
        span: Span,
        role: &'a str,
    )
        ensures
            final(self)@ == old(self)@.require_expected(expected, actual, span, role),
            old(self)@.leads_to(final(self)@),
            old(self)@.stays(final(self)@),
            (match expected {
                Some(expected) => expected.accepts(actual),
                None => true,
            }) || final(self)@.troubled(),
    {
        reveal(State::require_expected);
        match expected {
            Some(expected) => self.require_type(expected, actual, span, role),
            None => {
            },
        }
    }

    /// An operator cannot be applied to a type.
    pub(crate) fn invalid_operator(&mut self, role: &'a str, ty: Type, span: Span)
        ensures
            final(self)@ == old(self)@.invalid_operator(role, ty, span),
            old(self)@.leads_to(final(self)@),
            old(self)@.stays(final(self)@),
            final(self)@.troubled(),
    {
        reveal(State::invalid_operator);
        self.report(
            helped(
                "E3112",
                cons(Piece::Words(role), frame(" is not defined for `", &ty.text(), "`")),
                "use an operator supported by this operand type",
                span,
            ),
        );
    }

    /// The type of a value that comes from one of two branches.
    pub(crate) fn unify_branch_types(&mut self, left: Type, right: Type, span: Span) -> (ty: Type)
        ensures
            (final(self)@, ty) == old(self)@.unify_branch_types(left, right, span),
            old(self)@.leads_to(final(self)@),
            old(self)@.stays(final(self)@),
            (ty.accepts(left) && ty.accepts(right)) || final(self)@.troubled(),
    {
        reveal(State::unify_branch_types);
        if left == Type::Never {
            return right;
        }
        if right == Type::Never || left == right {
            return left;
        }
        self.type_mismatch(left, right, span, "`if` branches");
        Type::Unit
    }

    /// What a reference or a pointer leads to, whether it is mutable, and whether
    /// it is raw.
    pub(crate) fn pointer_shape(&self, ty: Type) -> (shape: Option<(Type, bool, bool)>)
        ensures
            shape == self@.pointer_shape(ty),
    {
        reveal(State::pointer_shape);
        self.types.pointer_shape(ty)
    }

    /// The element of a slice, and whether it is mutable.
    pub(crate) fn slice_shape(&self, ty: Type) -> (shape: Option<(Type, bool)>)
        ensures
            shape == self@.slice_shape(ty),
    {
        reveal(State::slice_shape);
        self.types.slice_shape(ty)
    }

    /// The parameters and the result of a function type.
    pub(crate) fn function_shape(&self, ty: Type) -> (shape: Option<(List<Type>, Type)>)
        ensures
            shape == self@.function_shape(ty),
    {
        reveal(State::function_shape);
        self.types.function_shape(ty)
    }

    /// The element and the length of an array.
    pub(crate) fn array_shape(&self, ty: Type) -> (shape: Option<(Type, u64)>)
        ensures
            shape == self@.array_shape(ty),
    {
        reveal(State::array_shape);
        self.types.array_shape(ty)
    }

    /// The elements of a tuple.
    pub(crate) fn tuple_elements(&self, ty: Type) -> (elements: Option<List<Type>>)
        ensures
            elements == self@.tuple_elements(ty),
    {
        reveal(State::tuple_elements);
        self.types.tuple_shape(ty)
    }

    /// The fields of a struct.
    pub(crate) fn struct_fields(&self, ty: Type) -> (fields: List<TypeField<'a>>)
        ensures
            fields == self@.struct_fields(ty),
    {
        reveal(State::struct_fields);
        self.types.struct_fields(ty)
    }

    /// What the language itself knows of a type.
    pub(crate) fn intrinsic(&self, ty: Type) -> (intrinsic: Option<IntrinsicType>)
        ensures
            intrinsic == self@.intrinsic(ty),
    {
        reveal(State::intrinsic);
        self.types.intrinsic(ty)
    }

    /// The generic type and the arguments that a type was made of.
    pub(crate) fn generic_instance(
        &self,
        ty: Type,
    ) -> (instance: Option<(&'a str, List<GenericValue>)>)
        ensures
            instance == self@.generic_instance(ty),
    {
        reveal(State::generic_instance);
        self.types.generic_instance(ty)
    }

    /// Whether a type was made of the generic type of that name.
    pub(crate) fn is_instance_of(&self, ty: Type, name: &str) -> (answer: bool)
        ensures
            answer == self@.is_instance_of(ty, name),
    {
        reveal(State::is_instance_of);
        match self.types.generic_instance(ty) {
            Some((base_name, _)) => same(base_name, name),
            None => false,
        }
    }

    /// The type of that name.
    pub(crate) fn named_type(&self, name: &str) -> (ty: Option<Type>)
        ensures
            ty == self@.named_type(name),
    {
        reveal(State::named_type);
        match find(&self.types.names, name) {
            Some(ty) => Some(*ty),
            None => None,
        }
    }

    /// The enum of that name.
    pub(crate) fn named_enum(&self, name: &str) -> (ty: Option<Type>)
        ensures
            ty == self@.named_enum(name),
    {
        reveal(State::named_enum);
        match self.named_type(name) {
            Some(ty) => if is_enum_type(ty) {
                Some(ty)
            } else {
                None
            },
            None => None,
        }
    }

    /// What can be reached by an index in values of a type.
    pub(crate) fn indexed_element(&self, ty: Type) -> (element: Option<Type>)
        ensures
            element == self@.indexed_element(ty),
    {
        reveal(State::indexed_element);
        match self.types.array_shape(ty) {
            Some((element, _)) => Some(element),
            None => match self.types.slice_shape(ty) {
                Some((element, _)) => Some(element),
                None => match self.types.pointer_shape(ty) {
                    Some((target, _, _)) => match self.types.array_shape(target) {
                        Some((element, _)) => Some(element),
                        None => None,
                    },
                    None => None,
                },
            },
        }
    }

    /// The variants of an enum.
    pub(crate) fn enum_variants(&self, ty: Type) -> (variants: Option<List<EnumVariant<'a>>>)
        ensures
            variants == self@.enum_variants(ty),
    {
        reveal(State::enum_variants);
        match self.types.shape(ty) {
            Some(TypeDefinitionKind::Enum { variants }) => Some(variants),
            _ => None,
        }
    }

    /// The position and the payload of a variant.
    pub(crate) fn enum_variant(
        &self,
        ty: Type,
        name: &str,
    ) -> (variant: Option<(u32, EnumVariantFields<'a>)>)
        ensures
            variant == self@.enum_variant(ty, name),
    {
        reveal(State::enum_variant);
        match self.enum_variants(ty) {
            Some(variants) => find_variant(&variants, name, 0),
            None => None,
        }
    }

    /// The position of a variant without payload.
    pub(crate) fn unit_variant(&self, ty: Type, name: &str) -> (variant: Option<u32>)
        ensures
            variant == self@.unit_variant(ty, name),
    {
        reveal(State::unit_variant);
        match self.enum_variant(ty, name) {
            Some((variant, EnumVariantFields::Unit)) => Some(variant),
            _ => None,
        }
    }

    /// Whether a type is declared in another module.
    pub(crate) fn type_is_external(&self, ty: Type) -> (answer: bool)
        ensures
            answer == self@.type_is_external(ty),
    {
        reveal(State::type_is_external);
        match self.types.definition(ty) {
            Some(definition) => !shares_module(&definition.name, &self.frame.home),
            None => !shares_module(&None, &self.frame.home),
        }
    }

    /// A type of another module must not be constructed through its private
    /// fields.
    pub(crate) fn reject_external_private_construction(
        &mut self,
        ty: Type,
        fields: &List<TypeField<'a>>,
        span: Span,
    )
        ensures
            final(self)@ == old(self)@.reject_external_private_construction(ty, *fields, span),
            old(self)@.leads_to(final(self)@),
            old(self)@.stays(final(self)@),
    {
        reveal(State::reject_external_private_construction);
        if self.type_is_external(ty) && any_private(fields) {
            self.report(
                helped(
                    "E4005",
                    words("cannot construct an external aggregate with private fields"),
                    "use a public constructor function from the defining module",
                    span,
                ),
            );
        }
    }

    /// The field of an aggregate that a name selects: its position, its type and
    /// its visibility.
    pub(crate) fn selected_field(
        &self,
        ty: Type,
        field: &FieldName<'a>,
    ) -> (selection: Option<(u32, Type, bool)>)
        ensures
            selection == self@.selected_field(ty, *field),
    {
        reveal(State::selected_field);
        match field {
            FieldName::Named(name) => if is_struct_type(ty) {
                find_field(&self.types.struct_fields(ty), name.name, 0)
            } else {
                None
            },
            FieldName::TupleIndex { index, .. } => if is_tuple_type(ty) {
                match self.types.tuple_shape(ty) {
                    Some(elements) => match element_at(&elements, *index as u64) {
                        Some(element) => Some((*index, element, true)),
                        None => None,
                    },
                    None => None,
                }
            } else {
                None
            },
        }
    }

    /// What callers know of the function of that name.
    pub(crate) fn signature_of(&self, name: &Text<'a>) -> (signature: Option<Signature>)
        ensures
            signature == self@.signature_of(*name),
            signature is Some ==> self@.knows(signature->0),
    {
        proof {
            reveal(State::knows);
            found_is_listed(self.symbols.signatures, *name);
        }
        reveal(State::signature_of);
        match find_symbol(&self.symbols.signatures, name) {
            Some(signature) => Some(signature.share()),
            None => None,
        }
    }

    /// The generic function of that name.
    pub(crate) fn template_of(
        &self,
        name: &Text<'a>,
    ) -> (template: Option<GenericFunctionTemplate<'a>>)
        ensures
            template == self@.template_of(*name),
    {
        reveal(State::template_of);
        match find_symbol(&self.symbols.templates, name) {
            Some(template) => Some(template.share()),
            None => None,
        }
    }

    /// Whether there is a function of that name.
    pub(crate) fn has_signature(&self, name: &Text<'a>) -> (answer: bool)
        ensures
            answer == self@.has_signature(*name),
    {
        reveal(State::has_signature);
        find_symbol(&self.symbols.signatures, name).is_some()
    }

    /// Whether there is a generic function of that name.
    pub(crate) fn has_template(&self, name: &Text<'a>) -> (answer: bool)
        ensures
            answer == self@.has_template(*name),
    {
        reveal(State::has_template);
        find_symbol(&self.symbols.templates, name).is_some()
    }

    /// The static of that name.
    pub(crate) fn static_of(&self, name: &str) -> (value: Option<StaticSymbol>)
        ensures
            value == self@.static_of(name),
    {
        reveal(State::static_of);
        match find(&self.symbols.statics, name) {
            Some(value) => Some(*value),
            None => None,
        }
    }

    /// Whether values of a type have a method of that name.
    pub(crate) fn has_method(&self, ty: Type, method: &'a str) -> (answer: bool)
        ensures
            answer == self@.has_method(ty, method),
    {
        reveal(State::has_method);
        match self.types.nominal_name(ty) {
            None => false,
            Some(owner) => self.has_signature(&member_symbol(&owner, method))
                || (match self.types.generic_instance(ty) {
                    Some((base_name, _)) => self.has_template(
                        &member_symbol(&words(base_name), method),
                    ),
                    None => self.has_template(&member_symbol(&owner, method)),
                }),
        }
    }
}

} // verus!

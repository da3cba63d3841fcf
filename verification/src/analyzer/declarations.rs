//! The declarations of a program: types, traits, implementations, signatures
//! and statics.

use crate::analyzer::{
    Analyzer, GenericFunctionTemplate, Signature, State, StaticSymbol, Symbol, Symbols,
};
use crate::analyzer::calling::{announces, declared_types_are_as_many, joined_announce};
use crate::analyzer::growth::is_declared;
use crate::ast::{
    self, lone_name, single_path_name, Attribute, AttributeArgument, ConstantDeclaration,
    EnumDeclaration, GenericArgument, GenericParameter, Identifier, ImplDeclaration, Item,
    Parameter, Path, StaticDeclaration, StructDeclaration, TraitDeclaration, TraitMethod,
    TypeAlias, TypeName, TypeNameKind, WherePredicate,
};
use crate::attributes::{derivable, derived_trait};
use crate::comptime::{Evaluated, Initializer, Value};
use crate::generics::{bound, find, with, Entry, Environment};
use crate::hir::{Expression, FunctionId, Static, StaticId, TypeDefinitionKind};
use crate::list::{append, cons, prepend, prepended, prepended_concatenates, share, single, List};
use crate::registry::{GenericTypeTemplate, TraitImplementation, Types};
use crate::span::{error, helped, origin, Diagnostic, Span};
use crate::syntax::{
    constructor_name, is_builtin_trait, member, member_symbol, names_builtin_trait,
    receiver_shapes_match, receivers_agree, type_constructor_name, type_key, type_pattern_key,
};
use crate::text::{
    characters, frame, framed, is_listed, listed, reads_alike, same, words, words3, Piece, Text,
};
use crate::types::{named_primitive, primitive_type, Type, TypeId};
use crate::typing::{always_sound, more_entries_are_sound, sound_entries};
use std::rc::Rc;
use vstd::prelude::*;

verus! {

broadcast use {
    crate::analyzer::growth::group_led,
    crate::analyzer::numbering::group_numbered,
    crate::analyzer::sparing::group_spared,
    crate::list::pushed_comes_first,
    crate::registry::growth::group_grown,
    crate::span::group_kept,
};

/// A function of a program that is not generic.
#[allow(inconsistent_fields)]
pub enum Declaration<'a> {
    Source { function: Rc<ast::Function<'a>>, resolved_name: Text<'a>, signature: Signature },
    Foreign { function: Rc<ast::ForeignFunction<'a>>, signature: Signature },
}

impl<'a> Declaration<'a> {
    pub fn share(&self) -> (shared: Self)
        ensures
            shared == *self,
    {
        match self {
            Declaration::Source { function, resolved_name, signature } => Declaration::Source {
                function: share(function),
                resolved_name: resolved_name.share(),
                signature: signature.share(),
            },
            Declaration::Foreign { function, signature } => Declaration::Foreign {
                function: share(function),
                signature: signature.share(),
            },
        }
    }
}

/// Declarations come behind those that are done.
proof fn extended_announce<'a>(
    front: Seq<Declaration<'a>>,
    list: List<Declaration<'a>>,
    signature: Signature,
)
    ensures
        announces(prepended(front, append(list, List::Nil)), signature) == (announces(
            prepended(front, List::Nil),
            signature,
        ) || announces(list, signature)),
    decreases front.len(),
{
    prepended_announce(front, append(list, List::Nil), signature);
    prepended_announce(front, List::Nil, signature);
    joined_announce(list, List::Nil, signature);
    reveal(announces);
}

proof fn prepended_announce<'a>(
    front: Seq<Declaration<'a>>,
    rest: List<Declaration<'a>>,
    signature: Signature,
)
    ensures
        announces(prepended(front, rest), signature) == (announces(rest, signature) || exists|
            i: int,
        |
            0 <= i < front.len() && (#[trigger] front[i]).signature() == signature
                && front[i].is_complete()),
    decreases front.len(),
{
    reveal(announces);
    if front.len() > 0 {
        let last = front.last();
        let shorter = front.drop_last();
        assert(prepended(front, rest) == prepended(shorter, cons(last, rest)));
        prepended_announce(shorter, cons(last, rest), signature);
        assert(announces(cons(last, rest), signature) == ((last.signature() == signature
            && last.is_complete()) || announces(rest, signature)));
        assert(front[front.len() - 1] == last);
        assert forall|i: int| 0 <= i < shorter.len() implies shorter[i] == #[trigger] front[i] by {}
    }
}

fn extend_declarations<'a>(done: &mut Vec<Declaration<'a>>, list: &List<Declaration<'a>>)
    ensures
        forall|rest: List<Declaration<'a>>| #[trigger]
            prepended(final(done)@, rest) == prepended(old(done)@, append(*list, rest)),
{
    let mut ahead: &List<Declaration<'a>> = list;
    loop
        invariant
            forall|rest: List<Declaration<'a>>| #[trigger]
                prepended(done@, append(*ahead, rest)) == prepended(
                    old(done)@,
                    append(*list, rest),
                ),
        decreases *ahead,
    {
        match ahead {
            List::Nil => {
                assert forall|rest: List<Declaration<'a>>| #[trigger]
                    prepended(done@, rest) == prepended(old(done)@, append(*list, rest)) by {
                    assert(append(*ahead, rest) == rest);
                }
                return ;
            },
            List::Cons(node) => {
                let ghost before = done@;
                done.push(node.head.share());
                proof {
                    assert forall|rest: List<Declaration<'a>>| #[trigger]
                        prepended(done@, append(node.tail, rest)) == prepended(
                            old(done)@,
                            append(*list, rest),
                        ) by {
                        assert(append(*ahead, rest) == cons(node.head, append(node.tail, rest)));
                        assert(prepended(before, append(*ahead, rest)) == prepended(
                            old(done)@,
                            append(*list, rest),
                        ));
                    }
                }
                ahead = &node.tail;
            },
        }
    }
}

/// The names of the functions that run at compile time.
#[verifier::opaque]
pub open spec fn spec_comptime_names<'a>(items: List<Item<'a>>) -> List<&'a str>
    decreases items,
{
    match items {
        List::Nil => List::Nil,
        List::Cons(node) => match node.head {
            Item::Function(function) => if function.is_comptime {
                cons(function.name.name, spec_comptime_names(node.tail))
            } else {
                spec_comptime_names(node.tail)
            },
            _ => spec_comptime_names(node.tail),
        },
    }
}

/// The names of the functions that run at compile time.
pub(crate) fn comptime_names<'a>(items: &List<Item<'a>>) -> (names: List<&'a str>)
    ensures
        names == spec_comptime_names(*items),
{
    let mut ahead: &List<Item<'a>> = items;
    let mut done: Vec<&'a str> = Vec::new();
    loop
        invariant
            spec_comptime_names(*items) == prepended(done@, spec_comptime_names(*ahead)),
        decreases *ahead,
    {
        reveal(spec_comptime_names);
        match ahead {
            List::Nil => {
                return prepend(done, List::Nil);
            },
            List::Cons(node) => {
                match &node.head {
                    Item::Function(function) => {
                        if function.is_comptime {
                            done.push(function.name.name);
                            ahead = &node.tail;
                        } else {
                            ahead = &node.tail;
                        }
                    },
                    _ => {
                        ahead = &node.tail;
                    },
                }
            },
        }
    }
}

/// Where a declaration stands.
#[verifier::opaque]
pub open spec fn spec_template_span<'a>(template: GenericTypeTemplate<'a>) -> Span {
    match template {
        GenericTypeTemplate::Struct(declaration) => declaration.span,
        GenericTypeTemplate::Enum(declaration) => declaration.span,
    }
}

/// Where a declaration stands.
pub(crate) fn template_span<'a>(template: &GenericTypeTemplate<'a>) -> (span: Span)
    ensures
        span == spec_template_span(*template),
{
    reveal(spec_template_span);
    match template {
        GenericTypeTemplate::Struct(declaration) => declaration.span,
        GenericTypeTemplate::Enum(declaration) => declaration.span,
    }
}

/// The generic parameters of a declaration.
#[verifier::opaque]
pub open spec fn spec_template_parameters<'a>(
    template: GenericTypeTemplate<'a>,
) -> List<GenericParameter<'a>> {
    match template {
        GenericTypeTemplate::Struct(declaration) => declaration.generic_parameters,
        GenericTypeTemplate::Enum(declaration) => declaration.generic_parameters,
    }
}

/// The generic parameters of a declaration.
pub(crate) fn template_parameters<'a>(
    template: &GenericTypeTemplate<'a>,
) -> (parameters: List<GenericParameter<'a>>)
    ensures
        parameters == spec_template_parameters(*template),
{
    reveal(spec_template_parameters);
    match template {
        GenericTypeTemplate::Struct(declaration) => declaration.generic_parameters.share(),
        GenericTypeTemplate::Enum(declaration) => declaration.generic_parameters.share(),
    }
}

/// The number of generic arguments of a trait.
#[verifier::opaque]
pub open spec fn spec_argument_count<'a>(written: TypeName<'a>) -> u64 {
    match *written.kind {
        TypeNameKind::Generic { arguments, .. } => arguments.count(),
        _ => 0,
    }
}

/// The number of generic arguments of a trait.
pub(crate) fn argument_count<'a>(written: &TypeName<'a>) -> (count: u64)
    ensures
        count == spec_argument_count(*written),
{
    reveal(spec_argument_count);
    match &*written.kind {
        TypeNameKind::Generic { arguments, .. } => arguments.count(),
        _ => 0,
    }
}

/// The number of generic parameters of a trait.
#[verifier::opaque]
pub open spec fn spec_parameter_count<'a>(declaration: Option<Rc<TraitDeclaration<'a>>>) -> u64 {
    match declaration {
        Some(declaration) => declaration.generic_parameters.count(),
        None => 0,
    }
}

/// The number of generic parameters of a trait.
pub(crate) fn parameter_count<'a>(declaration: &Option<Rc<TraitDeclaration<'a>>>) -> (count: u64)
    ensures
        count == spec_parameter_count(*declaration),
{
    reveal(spec_parameter_count);
    match declaration {
        Some(declaration) => declaration.generic_parameters.count(),
        None => 0,
    }
}

/// Whether a trait is implemented for a type that is written the same way.
#[verifier::opaque]
pub open spec fn spec_is_implemented<'a>(
    implementations: List<TraitImplementation<'a>>,
    name: &str,
    key: Text<'a>,
) -> bool
    decreases implementations,
{
    match implementations {
        List::Nil => false,
        List::Cons(node) => (
            node.head.trait_name@ == name@
                && characters(type_key(node.head.target)) == characters(key)
        ) || spec_is_implemented(node.tail, name, key),
    }
}

/// Whether a trait is implemented for a type that is written the same way.
pub(crate) fn is_implemented<'a>(
    implementations: &List<TraitImplementation<'a>>,
    name: &str,
    key: &Text<'a>,
) -> (answer: bool)
    ensures
        answer == spec_is_implemented(*implementations, name, *key),
{
    let mut ahead: &List<TraitImplementation<'a>> = implementations;
    loop
        invariant
            spec_is_implemented(*implementations, name, *key) == spec_is_implemented(
                *ahead,
                name,
                *key,
            ),
        decreases *ahead,
    {
        reveal(spec_is_implemented);
        match ahead {
            List::Nil => {
                return false;
            },
            List::Cons(node) => {
                if same(node.head.trait_name, name)
                && reads_alike(&type_pattern_key(&node.head.target), key) {
                    return true;
                }
                ahead = &node.tail;
            },
        }
    }
}

/// The method of that name.
#[verifier::opaque]
pub open spec fn spec_find_method<'a>(
    methods: List<Rc<ast::Function<'a>>>,
    name: &str,
) -> Option<Rc<ast::Function<'a>>>
    decreases methods,
{
    match methods {
        List::Nil => None,
        List::Cons(node) => if node.head.name.name@ == name@ {
            Some(node.head)
        } else {
            spec_find_method(node.tail, name)
        },
    }
}

/// The method of that name.
pub(crate) fn find_method<'a>(
    methods: &List<Rc<ast::Function<'a>>>,
    name: &str,
) -> (method: Option<Rc<ast::Function<'a>>>)
    ensures
        method == spec_find_method(*methods, name),
{
    let mut ahead: &List<Rc<ast::Function<'a>>> = methods;
    loop
        invariant
            spec_find_method(*methods, name) == spec_find_method(*ahead, name),
        decreases *ahead,
    {
        reveal(spec_find_method);
        match ahead {
            List::Nil => {
                return None;
            },
            List::Cons(node) => {
                if same(node.head.name.name, name) {
                    return Some(share(&node.head));
                } else {
                    ahead = &node.tail;
                }
            },
        }
    }
}

/// Whether a trait has a method of that name.
#[verifier::opaque]
pub open spec fn spec_requires_method<'a>(methods: List<TraitMethod<'a>>, name: &str) -> bool
    decreases methods,
{
    match methods {
        List::Nil => false,
        List::Cons(node) => node.head.name.name@ == name@ || spec_requires_method(node.tail, name),
    }
}

/// Whether a trait has a method of that name.
pub(crate) fn requires_method<'a>(methods: &List<TraitMethod<'a>>, name: &str) -> (answer: bool)
    ensures
        answer == spec_requires_method(*methods, name),
{
    let mut ahead: &List<TraitMethod<'a>> = methods;
    loop
        invariant
            spec_requires_method(*methods, name) == spec_requires_method(*ahead, name),
        decreases *ahead,
    {
        reveal(spec_requires_method);
        match ahead {
            List::Nil => {
                return false;
            },
            List::Cons(node) => {
                if same(node.head.name.name, name) {
                    return true;
                }
                ahead = &node.tail;
            },
        }
    }
}

/// Whether methods take their receivers the same way.
#[verifier::opaque]
pub open spec fn spec_receivers_match<'a>(
    required: List<Parameter<'a>>,
    provided: List<Parameter<'a>>,
) -> bool {
    match required {
        List::Nil => provided.is_empty(),
        List::Cons(first) => match provided {
            List::Nil => false,
            List::Cons(second) => receivers_agree(
                Some(*first.head.ty.kind),
                Some(*second.head.ty.kind),
            ),
        },
    }
}

/// Whether methods take their receivers the same way.
pub(crate) fn receivers_match<'a>(
    required: &List<Parameter<'a>>,
    provided: &List<Parameter<'a>>,
) -> (answer: bool)
    ensures
        answer == spec_receivers_match(*required, *provided),
{
    reveal(spec_receivers_match);
    match required {
        List::Nil => provided.is_empty(),
        List::Cons(first) => match provided {
            List::Nil => false,
            List::Cons(second) => receiver_shapes_match(
                Some(&*first.head.ty.kind),
                Some(&*second.head.ty.kind),
            ),
        },
    }
}

/// Whether a method has the shape that a trait wants: as many parameters and
/// generic parameters, and a return type where the trait has one.
#[verifier::opaque]
pub open spec fn spec_has_shape_of<'a>(
    required: TraitMethod<'a>,
    provided: ast::Function<'a>,
) -> bool {
    provided.parameters.count() == required.parameters.count()
        && provided.generic_parameters.count() == required.generic_parameters.count()
        && provided.return_type.is_some() == required.return_type.is_some()
}

/// Whether a method has the shape that a trait wants: as many parameters and
/// generic parameters, and a return type where the trait has one.
pub(crate) fn has_shape_of<'a>(
    required: &TraitMethod<'a>,
    provided: &ast::Function<'a>,
) -> (answer: bool)
    ensures
        answer == spec_has_shape_of(*required, *provided),
{
    reveal(spec_has_shape_of);
    provided.parameters.count() == required.parameters.count()
        && provided.generic_parameters.count() == required.generic_parameters.count()
        && provided.return_type.is_some() == required.return_type.is_some()
}

/// Where the return type of a function stands.
#[verifier::opaque]
pub open spec fn spec_return_span<'a>(written: Option<TypeName<'a>>, otherwise: Span) -> Span {
    match written {
        Some(written) => written.span,
        None => otherwise,
    }
}

/// Where the return type of a function stands.
pub(crate) fn return_span<'a>(written: &Option<TypeName<'a>>, otherwise: Span) -> (span: Span)
    ensures
        span == spec_return_span(*written, otherwise),
{
    reveal(spec_return_span);
    match written {
        Some(written) => written.span,
        None => otherwise,
    }
}

/// The first parameters.
#[verifier::opaque]
pub open spec fn spec_leading<'a>(
    parameters: List<GenericParameter<'a>>,
    count: u64,
) -> List<GenericParameter<'a>>
    decreases parameters,
{
    match parameters {
        List::Nil => List::Nil,
        List::Cons(node) => if count == 0 {
            List::Nil
        } else {
            cons(node.head, spec_leading(node.tail, count.saturating_sub(1)))
        },
    }
}

/// The first parameters.
pub(crate) fn leading<'a>(
    parameters: &List<GenericParameter<'a>>,
    count: u64,
) -> (taken: List<GenericParameter<'a>>)
    ensures
        taken == spec_leading(*parameters, count),
{
    let mut ahead: &List<GenericParameter<'a>> = parameters;
    let mut current_count: u64 = count;
    let mut done: Vec<GenericParameter<'a>> = Vec::new();
    loop
        invariant
            spec_leading(*parameters, count) == prepended(
                done@,
                spec_leading(*ahead, current_count),
            ),
        decreases *ahead,
    {
        reveal(spec_leading);
        match ahead {
            List::Nil => {
                return prepend(done, List::Nil);
            },
            List::Cons(node) => {
                if current_count == 0 {
                    return prepend(done, List::Nil);
                } else {
                    done.push(node.head.share());
                    current_count = current_count.saturating_sub(1);
                    ahead = &node.tail;
                }
            },
        }
    }
}

/// The parameters behind the first.
#[verifier::opaque]
pub open spec fn spec_trailing<'a>(
    parameters: List<GenericParameter<'a>>,
    count: u64,
) -> List<GenericParameter<'a>>
    decreases parameters,
{
    match parameters {
        List::Nil => List::Nil,
        List::Cons(node) => if count == 0 {
            parameters
        } else {
            spec_trailing(node.tail, count.saturating_sub(1))
        },
    }
}

/// The parameters behind the first.
pub(crate) fn trailing<'a>(
    parameters: &List<GenericParameter<'a>>,
    count: u64,
) -> (left: List<GenericParameter<'a>>)
    ensures
        left == spec_trailing(*parameters, count),
{
    let mut ahead: &List<GenericParameter<'a>> = parameters;
    let mut current_count: u64 = count;
    loop
        invariant
            spec_trailing(*parameters, count) == spec_trailing(*ahead, current_count),
        decreases *ahead,
    {
        reveal(spec_trailing);
        match ahead {
            List::Nil => {
                return List::Nil;
            },
            List::Cons(node) => {
                if current_count == 0 {
                    return ahead.share();
                } else {
                    current_count = current_count.saturating_sub(1);
                    ahead = &node.tail;
                }
            },
        }
    }
}

/// Whether any method is generic.
#[verifier::opaque]
pub open spec fn spec_any_generic<'a>(methods: List<Rc<ast::Function<'a>>>) -> bool
    decreases methods,
{
    match methods {
        List::Nil => false,
        List::Cons(node) => !node.head.generic_parameters.is_empty() || spec_any_generic(node.tail),
    }
}

/// Whether any method is generic.
pub(crate) fn any_generic<'a>(methods: &List<Rc<ast::Function<'a>>>) -> (answer: bool)
    ensures
        answer == spec_any_generic(*methods),
{
    let mut ahead: &List<Rc<ast::Function<'a>>> = methods;
    loop
        invariant
            spec_any_generic(*methods) == spec_any_generic(*ahead),
        decreases *ahead,
    {
        reveal(spec_any_generic);
        match ahead {
            List::Nil => {
                return false;
            },
            List::Cons(node) => {
                if !node.head.generic_parameters.is_empty() {
                    return true;
                }
                ahead = &node.tail;
            },
        }
    }
}

/// The parameters of both in a row.
#[verifier::opaque]
pub open spec fn spec_joined_parameters<'a>(
    first: List<GenericParameter<'a>>,
    second: List<GenericParameter<'a>>,
) -> List<GenericParameter<'a>>
    decreases first,
{
    match first {
        List::Nil => second,
        List::Cons(node) => cons(node.head, spec_joined_parameters(node.tail, second)),
    }
}

/// The parameters of both in a row.
pub(crate) fn joined_parameters<'a>(
    first: &List<GenericParameter<'a>>,
    second: List<GenericParameter<'a>>,
) -> (parameters: List<GenericParameter<'a>>)
    ensures
        parameters == spec_joined_parameters(*first, second),
{
    let mut ahead: &List<GenericParameter<'a>> = first;
    let mut done: Vec<GenericParameter<'a>> = Vec::new();
    loop
        invariant
            spec_joined_parameters(*first, second) == prepended(
                done@,
                spec_joined_parameters(*ahead, second),
            ),
        decreases *ahead,
    {
        reveal(spec_joined_parameters);
        match ahead {
            List::Nil => {
                return prepend(done, second);
            },
            List::Cons(node) => {
                done.push(node.head.share());
                ahead = &node.tail;
            },
        }
    }
}

/// The bounds of both in a row.
#[verifier::opaque]
pub open spec fn spec_joined_predicates<'a>(
    first: List<WherePredicate<'a>>,
    second: List<WherePredicate<'a>>,
) -> List<WherePredicate<'a>>
    decreases first,
{
    match first {
        List::Nil => second,
        List::Cons(node) => cons(node.head, spec_joined_predicates(node.tail, second)),
    }
}

/// The bounds of both in a row.
pub(crate) fn joined_predicates<'a>(
    first: &List<WherePredicate<'a>>,
    second: List<WherePredicate<'a>>,
) -> (predicates: List<WherePredicate<'a>>)
    ensures
        predicates == spec_joined_predicates(*first, second),
{
    let mut ahead: &List<WherePredicate<'a>> = first;
    let mut done: Vec<WherePredicate<'a>> = Vec::new();
    loop
        invariant
            spec_joined_predicates(*first, second) == prepended(
                done@,
                spec_joined_predicates(*ahead, second),
            ),
        decreases *ahead,
    {
        reveal(spec_joined_predicates);
        match ahead {
            List::Nil => {
                return prepend(done, second);
            },
            List::Cons(node) => {
                done.push(node.head.share());
                ahead = &node.tail;
            },
        }
    }
}

/// What was computed for the initializers behind the first.
#[verifier::opaque]
pub open spec fn spec_without_first<'a>(
    initializers: List<Initializer<'a>>,
) -> List<Initializer<'a>> {
    match initializers {
        List::Nil => List::Nil,
        List::Cons(node) => node.tail,
    }
}

/// What was computed for the initializers behind the first.
pub(crate) fn without_first<'a>(
    initializers: &List<Initializer<'a>>,
) -> (rest: List<Initializer<'a>>)
    ensures
        rest == spec_without_first(*initializers),
{
    reveal(spec_without_first);
    match initializers {
        List::Nil => List::Nil,
        List::Cons(node) => node.tail.share(),
    }
}

/// The constants that are natural numbers.
#[verifier::opaque]
pub open spec fn spec_natural_constants<'a>(
    constants: List<Entry<'a, Evaluated<'a>>>,
) -> List<Entry<'a, u64>>
    decreases constants,
{
    match constants {
        List::Nil => List::Nil,
        List::Cons(node) => match node.head.value.value {
            Value::Integer { negative, magnitude } => if magnitude <= u64::MAX as u128
                && (!negative || magnitude == 0) {
                with(node.head.name, magnitude as u64, spec_natural_constants(node.tail))
            } else {
                spec_natural_constants(node.tail)
            },
            _ => spec_natural_constants(node.tail),
        },
    }
}

/// The constants that are natural numbers.
pub(crate) fn natural_constants<'a>(
    constants: &List<Entry<'a, Evaluated<'a>>>,
) -> (naturals: List<Entry<'a, u64>>)
    ensures
        naturals == spec_natural_constants(*constants),
{
    let mut ahead: &List<Entry<'a, Evaluated<'a>>> = constants;
    let mut done: Vec<Entry<'a, u64>> = Vec::new();
    loop
        invariant
            spec_natural_constants(*constants) == prepended(done@, spec_natural_constants(*ahead)),
        decreases *ahead,
    {
        reveal(spec_natural_constants);
        match ahead {
            List::Nil => {
                return prepend(done, List::Nil);
            },
            List::Cons(node) => {
                match &node.head.value.value {
                    Value::Integer { negative, magnitude } => {
                        if *magnitude <= u64::MAX as u128
                        && (!*negative || *magnitude == 0) {
                            done.push(Entry { name: node.head.name, value: *magnitude as u64 });
                            ahead = &node.tail;
                        } else {
                            ahead = &node.tail;
                        }
                    },
                    _ => {
                        ahead = &node.tail;
                    },
                }
            },
        }
    }
}

/// Whether a static has a value of its type that fits together.
pub open spec fn is_static_typed(value: Static) -> bool {
    value.initializer.ty == value.ty && always_sound(value.initializer)
}

/// Whether statics have values of their types that fit together.
pub open spec fn are_statics_typed(statics: Seq<Static>) -> bool {
    forall|i: int| 0 <= i < statics.len() ==> is_static_typed(#[trigger] statics[i])
}

/// Whether statics bear the numbers of their positions.
pub open spec fn are_statics_numbered(statics: Seq<Static>) -> bool {
    forall|i: int| 0 <= i < statics.len() ==> (#[trigger] statics[i]).id.0 == i
}

proof fn pushed_statics_are_numbered<'a>(front: Seq<Static<'a>>, last: Static<'a>)
    requires
        last.id.0 == front.len(),
        are_statics_numbered(prepended(front, List::Nil)@),
    ensures
        are_statics_numbered(prepended(front.push(last), List::Nil)@),
{
    prepended_concatenates(front, List::Nil);
    prepended_concatenates(front.push(last), List::Nil);
    assert(prepended(front, List::Nil)@ =~= front);
    assert(prepended(front.push(last), List::Nil)@ =~= front.push(last));
}

proof fn pushed_statics_are_typed<'a>(front: Seq<Static<'a>>, last: Static<'a>)
    requires
        is_static_typed(last),
        are_statics_typed(prepended(front, List::Nil)@),
    ensures
        are_statics_typed(prepended(front.push(last), List::Nil)@),
{
    prepended_concatenates(front, List::Nil);
    prepended_concatenates(front.push(last), List::Nil);
    let statics = prepended(front.push(last), List::Nil)@;
    assert(statics =~= front.push(last));
    assert(prepended(front, List::Nil)@ =~= front);
}

impl<'a> State<'a> {
    /// What is wrong with the annotations of methods.
    #[verifier::opaque]
    pub open spec fn validate_method_attributes(self, methods: List<Rc<ast::Function<'a>>>) -> Self
        decreases methods,
    {
        match methods {
            List::Nil => self,
            List::Cons(node) => {
                let s = self.check_function_attributes(*node.head);
                let s = s.validate_method_attributes(node.tail);
                s
            },
        }
    }

    /// What is wrong with the annotations of a declaration.
    #[verifier::opaque]
    pub open spec fn validate_item_attributes(
        self,
        item: Item<'a>,
        functions: List<&'a str>,
    ) -> Self {
        match item {
            Item::Function(function) => {
                let s = self.check_function_attributes(*function);
                if function.is_comptime {
                    let s = s.check_comptime_function(*function, functions);
                    s
                } else {
                    s
                }
            },
            Item::Struct(declaration) => self.check_type_attributes(declaration.attributes, false),
            Item::Enum(declaration) => self.check_type_attributes(declaration.attributes, true),
            Item::Impl(implementation) => self.validate_method_attributes(implementation.methods),
            _ => self,
        }
    }

    /// What is wrong with the annotations of declarations.
    #[verifier::opaque]
    pub open spec fn validate_each_attributes(
        self,
        items: List<Item<'a>>,
        functions: List<&'a str>,
    ) -> Self
        decreases items,
    {
        match items {
            List::Nil => self,
            List::Cons(node) => {
                let s = self.validate_item_attributes(node.head, functions);
                let s = s.validate_each_attributes(node.tail, functions);
                s
            },
        }
    }

    /// What is wrong with the annotations of a program, and with the bodies of its
    /// functions that run at compile time.
    #[verifier::opaque]
    pub open spec fn validate_attributes(self, items: List<Item<'a>>) -> Self {
        let functions = spec_comptime_names(items);
        let s = self.validate_each_attributes(items, functions);
        s
    }

    /// Whether a name stands for a type.
    #[verifier::opaque]
    pub open spec fn is_type_name(self, name: &str) -> bool {
        named_primitive(self.types.platform, name@).is_some()
            || bound(self.types.names, name@).is_some()
            || bound(self.types.generic_templates, name@).is_some()
    }

    /// A type that is declared a second time.
    #[verifier::opaque]
    pub open spec fn reject_repeated_type(self, name: &'a str, span: Span, help: &'a str) -> Self {
        let s = self.report(
            helped("E3008", words3("type `", name, "` is declared more than once"), help, span),
        );
        s
    }

    /// A name stands for a type from now on.
    #[verifier::opaque]
    pub open spec fn name_type(self, name: &'a str, ty: Type) -> Self {
        let s = State {
            types: Types { names: with(name, ty, self.types.names), ..self.types },
            ..self
        };
        s
    }

    /// A generic type is declared.
    #[verifier::opaque]
    pub open spec fn add_template(self, name: &'a str, template: GenericTypeTemplate<'a>) -> Self {
        let s = self.check_generic_parameters(spec_template_parameters(template));
        let s = s.remember_template(name, template);
        s
    }

    /// A generic type is remembered.
    #[verifier::opaque]
    pub open spec fn remember_template(
        self,
        name: &'a str,
        template: GenericTypeTemplate<'a>,
    ) -> Self {
        let s = State {
            types: Types {
                generic_templates: with(name, template, self.types.generic_templates),
                ..self.types
            },
            ..self
        };
        s
    }

    /// A struct or enum without generic parameters gets a type, which is filled in
    /// later.
    #[verifier::opaque]
    pub open spec fn add_type(self, name: &'a str, template: GenericTypeTemplate<'a>) -> Self {
        match self.define_type(words(name), template) {
            (s, None) => s.report(
                error(
                    "E3999",
                    words("this compilation unit contains too many types"),
                    spec_template_span(template),
                ),
            ),
            (s, Some(id)) => match template {
                GenericTypeTemplate::Struct(_) => s.name_type(name, Type::Struct(id)),
                GenericTypeTemplate::Enum(_) => s.name_type(name, Type::Enum(id)),
            },
        }
    }

    /// A struct or enum is declared.
    #[verifier::opaque]
    pub open spec fn collect_type_header(
        self,
        name: &'a str,
        template: GenericTypeTemplate<'a>,
    ) -> Self {
        if self.is_type_name(name) {
            let s = self.reject_repeated_type(
                name,
                spec_template_span(template),
                "give each type a unique name",
            );
            s
        } else if spec_template_parameters(template).is_empty() {
            let s = self.add_type(name, template);
            s
        } else {
            let s = self.add_template(name, template);
            s
        }
    }

    /// The structs and enums are declared.
    #[verifier::opaque]
    pub open spec fn collect_type_headers(self, items: List<Item<'a>>) -> Self
        decreases items,
    {
        match items {
            List::Nil => self,
            List::Cons(node) => {
                let s = match node.head {
                    Item::Struct(declaration) => self.collect_type_header(
                        declaration.name.name,
                        GenericTypeTemplate::Struct(declaration),
                    ),
                    Item::Enum(declaration) => self.collect_type_header(
                        declaration.name.name,
                        GenericTypeTemplate::Enum(declaration),
                    ),
                    _ => self,
                };
                let s = s.collect_type_headers(node.tail);
                s
            },
        }
    }

    /// The aliases whose names are not taken.
    #[verifier::opaque]
    pub open spec fn new_aliases(
        self,
        items: List<Item<'a>>,
        seen: List<&'a str>,
    ) -> (Self, List<Rc<TypeAlias<'a>>>)
        decreases items,
    {
        match items {
            List::Nil => (self, List::Nil),
            List::Cons(node) => match node.head {
                Item::TypeAlias(declaration) => if self.is_type_name(declaration.name.name)
                    || listed(seen, declaration.name.name@) {
                    let s = self.reject_repeated_type(
                        declaration.name.name,
                        declaration.name.span,
                        "give each type alias a unique name",
                    );
                    s.new_aliases(node.tail, seen)
                } else {
                    let (s, rest) = self.new_aliases(node.tail, cons(declaration.name.name, seen));
                    (s, cons(declaration, rest))
                },
                _ => self.new_aliases(node.tail, seen),
            },
        }
    }

    /// The aliases whose targets are still unknown after each has been tried once.
    #[verifier::opaque]
    pub open spec fn try_aliases(
        self,
        pending: List<Rc<TypeAlias<'a>>>,
    ) -> (Self, List<Rc<TypeAlias<'a>>>)
        decreases pending,
    {
        match pending {
            List::Nil => (self, List::Nil),
            List::Cons(node) => match self.resolve_quietly(node.head.target) {
                (s, (Some(target), _)) => {
                    let s = s.name_type(node.head.name.name, target);
                    s.try_aliases(node.tail)
                },
                (s, (None, _)) => {
                    let (s, rest) = s.try_aliases(node.tail);
                    (s, cons(node.head, rest))
                },
            },
        }
    }

    /// Why the targets of aliases are unknown.
    #[verifier::opaque]
    pub open spec fn report_aliases(self, unresolved: List<Rc<TypeAlias<'a>>>) -> Self
        decreases unresolved,
    {
        match unresolved {
            List::Nil => self,
            List::Cons(node) => {
                let (s, _ignored) = self.resolve_type(node.head.target);
                let s = s.report_aliases(node.tail);
                s
            },
        }
    }

    /// Aliases are tried until a round settles none of them. There are at most as
    /// many rounds as aliases.
    #[verifier::opaque]
    pub open spec fn settle_aliases(
        self,
        pending: List<Rc<TypeAlias<'a>>>,
        rounds: List<Rc<TypeAlias<'a>>>,
    ) -> Self
        decreases rounds,
    {
        match rounds {
            List::Nil => self,
            List::Cons(node) => if !pending.is_empty() {
                let (s, unresolved) = self.try_aliases(pending);
                if unresolved.count() == pending.count() {
                    let s = s.report_aliases(unresolved);
                    s
                } else {
                    let s = s.settle_aliases(unresolved, node.tail);
                    s
                }
            } else {
                self
            },
        }
    }

    /// The aliases are declared, in whatever order they refer to one another.
    #[verifier::opaque]
    pub open spec fn collect_type_aliases(self, items: List<Item<'a>>) -> Self {
        let (s, pending) = self.new_aliases(items, List::Nil);
        let s = s.settle_aliases(pending, pending);
        s
    }

    /// What is wrong with the methods of a trait.
    #[verifier::opaque]
    pub open spec fn check_trait_methods(
        self,
        methods: List<TraitMethod<'a>>,
        seen: List<&'a str>,
    ) -> Self
        decreases methods,
    {
        match methods {
            List::Nil => self,
            List::Cons(node) => {
                let s = self.check_generic_parameters(node.head.generic_parameters);
                let s = if listed(seen, node.head.name.name@) {
                    let s = s.report(
                        error(
                            "E6010",
                            words3(
                                "trait method `",
                                node.head.name.name,
                                "` is declared more than once",
                            ),
                            node.head.name.span,
                        ),
                    );
                    s
                } else {
                    s
                };
                let s = s.check_trait_methods(node.tail, cons(node.head.name.name, seen));
                s
            },
        }
    }

    /// A trait is remembered.
    #[verifier::opaque]
    pub open spec fn remember_trait(self, declaration: Rc<TraitDeclaration<'a>>) -> Self {
        let s = State {
            types: Types {
                traits: with(declaration.name.name, declaration, self.types.traits),
                ..self.types
            },
            ..self
        };
        s
    }

    /// A trait is declared.
    #[verifier::opaque]
    pub open spec fn collect_trait_header(self, declaration: Rc<TraitDeclaration<'a>>) -> Self {
        if self.is_type_name(declaration.name.name)
            || bound(self.types.traits, declaration.name.name@).is_some() {
            let s = self.report(
                helped(
                    "E6010",
                    words3("trait `", declaration.name.name, "` is declared more than once"),
                    "give each trait a unique name",
                    declaration.name.span,
                ),
            );
            s
        } else {
            let s = self.check_generic_parameters(declaration.generic_parameters);
            let s = s.check_trait_methods(declaration.methods, List::Nil);
            let s = s.remember_trait(declaration);
            s
        }
    }

    /// The traits are declared.
    #[verifier::opaque]
    pub open spec fn collect_traits(self, items: List<Item<'a>>) -> Self
        decreases items,
    {
        match items {
            List::Nil => self,
            List::Cons(node) => {
                let s = match node.head {
                    Item::Trait(declaration) => self.collect_trait_header(declaration),
                    _ => self,
                };
                let s = s.collect_traits(node.tail);
                s
            },
        }
    }

    /// The traits that a trait extends must be declared.
    #[verifier::opaque]
    pub open spec fn check_supertraits(self, supertraits: List<Path<'a>>) -> Self
        decreases supertraits,
    {
        match supertraits {
            List::Nil => self,
            List::Cons(node) => {
                let s = match lone_name(node.head) {
                    None => self.report(
                        error(
                            "E6010",
                            words("supertrait must resolve to one declared trait"),
                            node.head.span,
                        ),
                    ),
                    Some(name) => if !names_builtin_trait(name@)
                        && bound(self.types.traits, name@).is_none() {
                        let s = self.report(
                            error(
                                "E6010",
                                words3("unknown supertrait `", name, "`"),
                                node.head.span,
                            ),
                        );
                        s
                    } else {
                        self
                    },
                };
                let s = s.check_supertraits(node.tail);
                s
            },
        }
    }

    /// The traits that traits extend must be declared.
    #[verifier::opaque]
    pub open spec fn check_every_supertrait(
        self,
        traits: List<Entry<'a, Rc<TraitDeclaration<'a>>>>,
    ) -> Self
        decreases traits,
    {
        match traits {
            List::Nil => self,
            List::Cons(node) => {
                let s = self.check_supertraits(node.head.value.supertraits);
                let s = s.check_every_supertrait(node.tail);
                s
            },
        }
    }

    /// The traits are declared.
    #[verifier::opaque]
    pub open spec fn collect_trait_headers(self, items: List<Item<'a>>) -> Self {
        let s = self.collect_traits(items);
        let traits = s.types.traits;
        let s = s.check_every_supertrait(traits);
        s
    }

    /// A derived trait must be a marker.
    #[verifier::opaque]
    pub open spec fn check_marker(
        self,
        name: Identifier<'a>,
        declaration: TraitDeclaration<'a>,
    ) -> Self {
        let s = if !declaration.generic_parameters.is_empty() {
            let s = self.report(
                helped(
                    "E7004",
                    words3("generic trait `", name.name, "` cannot be derived"),
                    "marker derives must name a trait without generic parameters",
                    name.span,
                ),
            );
            s
        } else {
            self
        };
        if !declaration.methods.is_empty() {
            let s = s.report(
                helped(
                    "E7004",
                    words3("trait `", name.name, "` is not a marker trait"),
                    "implement traits with methods explicitly; marker derives may not generate behavior",
                    name.span,
                ),
            );
            s
        } else {
            s
        }
    }

    /// A derived trait must be known.
    #[verifier::opaque]
    pub open spec fn check_derive_name(self, name: Identifier<'a>) -> Self {
        if derivable(name.name@).is_none() {
            match bound(self.types.traits, name.name@) {
                None => self.report(
                    helped(
                        "E7004",
                        words3("unknown derive `", name.name, "`"),
                        "import a zero-method marker trait or use a built-in structural derive",
                        name.span,
                    ),
                ),
                Some(declaration) => {
                    let declaration = declaration;
                    let s = self.check_marker(name, *declaration);
                    s
                },
            }
        } else {
            self
        }
    }

    /// Derived traits must be known.
    #[verifier::opaque]
    pub open spec fn check_derive_names(self, arguments: List<AttributeArgument<'a>>) -> Self
        decreases arguments,
    {
        match arguments {
            List::Nil => self,
            List::Cons(node) => {
                let s = match node.head {
                    AttributeArgument::Identifier(name) => self.check_derive_name(name),
                    AttributeArgument::Integer(_) => self,
                };
                let s = s.check_derive_names(node.tail);
                s
            },
        }
    }

    /// Derived traits must be known.
    #[verifier::opaque]
    pub open spec fn check_derive_attributes(self, attributes: List<Attribute<'a>>) -> Self
        decreases attributes,
    {
        match attributes {
            List::Nil => self,
            List::Cons(node) => {
                let s = if node.head.name.name@ == "derive"@ {
                    let s = self.check_derive_names(node.head.arguments);
                    s
                } else {
                    self
                };
                let s = s.check_derive_attributes(node.tail);
                s
            },
        }
    }

    /// Derived traits must be known.
    #[verifier::opaque]
    pub open spec fn validate_derived_marker_traits(self, items: List<Item<'a>>) -> Self
        decreases items,
    {
        match items {
            List::Nil => self,
            List::Cons(node) => {
                let s = match node.head {
                    Item::Struct(declaration) => self.check_derive_attributes(
                        declaration.attributes,
                    ),
                    Item::Enum(declaration) => self.check_derive_attributes(declaration.attributes),
                    _ => self,
                };
                let s = s.validate_derived_marker_traits(node.tail);
                s
            },
        }
    }

    /// The number of a declared type, where that declaration made it.
    #[verifier::opaque]
    pub open spec fn own_definition(self, name: &str, span: Span) -> Option<(Type, TypeId)> {
        match self.named_type(name) {
            None => None,
            Some(ty) => match ty.id() {
                None => None,
                Some(id) => match self.types.definition(ty) {
                    None => None,
                    Some(definition) => if definition.span == span {
                        Some((ty, id))
                    } else {
                        None
                    },
                },
            },
        }
    }

    /// The fields of a struct are filled in.
    #[verifier::opaque]
    pub open spec fn resolve_struct_definition(self, declaration: StructDeclaration<'a>) -> Self {
        if declaration.generic_parameters.is_empty() {
            match self.own_definition(declaration.name.name, declaration.span) {
                Some((Type::Struct(_), id)) => {
                    let (s, fields) = self.resolve_fields(declaration.fields);
                    let s = s.fill_type(id, TypeDefinitionKind::Struct { fields });
                    s
                },
                _ => self,
            }
        } else {
            self
        }
    }

    /// The variants of an enum are filled in.
    #[verifier::opaque]
    pub open spec fn resolve_enum_definition(self, declaration: EnumDeclaration<'a>) -> Self {
        if declaration.generic_parameters.is_empty() {
            match self.own_definition(declaration.name.name, declaration.span) {
                Some((Type::Enum(_), id)) => {
                    let (s, variants) = self.resolve_variants(declaration.variants);
                    let s = s.fill_type(id, TypeDefinitionKind::Enum { variants });
                    s
                },
                _ => self,
            }
        } else {
            self
        }
    }

    /// The structs and enums are filled in.
    #[verifier::opaque]
    pub open spec fn resolve_type_definitions(self, items: List<Item<'a>>) -> Self
        decreases items,
    {
        match items {
            List::Nil => self,
            List::Cons(node) => {
                let s = match node.head {
                    Item::Struct(declaration) => self.resolve_struct_definition(*declaration),
                    Item::Enum(declaration) => self.resolve_enum_definition(*declaration),
                    _ => self,
                };
                let s = s.resolve_type_definitions(node.tail);
                s
            },
        }
    }

    /// The declaration of a trait.
    #[verifier::opaque]
    pub open spec fn trait_of(self, name: &str) -> Option<Rc<TraitDeclaration<'a>>> {
        match bound(self.types.traits, name@) {
            Some(declaration) => Some(declaration),
            None => None,
        }
    }

    /// A trait must be given as many arguments as it has parameters.
    #[verifier::opaque]
    pub open spec fn check_trait_arguments(
        self,
        name: &'a str,
        written: TypeName<'a>,
        declaration: Option<Rc<TraitDeclaration<'a>>>,
    ) -> Self {
        let provided: u64 = spec_argument_count(written);
        let expected: u64 = spec_parameter_count(declaration);
        if provided != expected {
            let s = self.report(
                error(
                    "E6011",
                    cons(
                        Piece::Words("trait `"),
                        cons(
                            Piece::Words(name),
                            cons(
                                Piece::Words("` expects "),
                                cons(
                                    Piece::Number(expected as u128),
                                    cons(
                                        Piece::Words(" generic argument(s), but "),
                                        cons(
                                            Piece::Number(provided as u128),
                                            words(" were provided"),
                                        ),
                                    ),
                                ),
                            ),
                        ),
                    ),
                    written.span,
                ),
            );
            s
        } else {
            self
        }
    }

    /// An implementation is remembered.
    #[verifier::opaque]
    pub open spec fn remember_implementation(
        self,
        name: &'a str,
        implementation: ImplDeclaration<'a>,
    ) -> Self {
        let entry = TraitImplementation {
            trait_name: name,
            target: implementation.target,
            parameters: implementation.generic_parameters,
            where_predicates: implementation.where_predicates,
        };
        let s = State {
            types: Types {
                trait_implementations: cons(entry, self.types.trait_implementations),
                ..self.types
            },
            ..self
        };
        s
    }

    /// What is wrong with the methods of an implementation.
    #[verifier::opaque]
    pub open spec fn check_implemented_methods(
        self,
        name: &'a str,
        declaration: Option<Rc<TraitDeclaration<'a>>>,
        implementation: ImplDeclaration<'a>,
    ) -> Self {
        match declaration {
            Some(declaration) => self.validate_trait_methods(*declaration, implementation),
            None => if !implementation.methods.is_empty() {
                let s = self.report(
                    error(
                        "E6013",
                        words3("built-in marker trait `", name, "` does not declare methods"),
                        implementation.span,
                    ),
                );
                s
            } else {
                self
            },
        }
    }

    /// An implementation of a trait is declared.
    #[verifier::opaque]
    pub open spec fn collect_known_implementation(
        self,
        name: &'a str,
        written: TypeName<'a>,
        declaration: Option<Rc<TraitDeclaration<'a>>>,
        implementation: ImplDeclaration<'a>,
    ) -> Self {
        let s = self.check_trait_arguments(name, written, declaration);
        let key = type_key(implementation.target);
        if spec_is_implemented(s.types.trait_implementations, name, key) {
            let s = s.report(
                helped(
                    "E6012",
                    cons(
                        Piece::Words("trait `"),
                        cons(
                            Piece::Words(name),
                            framed("` is implemented more than once for `", key, "`"),
                        ),
                    ),
                    "keep one coherent implementation for each trait and target",
                    implementation.span,
                ),
            );
            s
        } else {
            let s = s.check_implemented_methods(name, declaration, implementation);
            let s = s.remember_implementation(name, implementation);
            s
        }
    }

    /// An implementation of a trait is declared.
    #[verifier::opaque]
    pub open spec fn collect_trait_implementation(
        self,
        written: TypeName<'a>,
        implementation: ImplDeclaration<'a>,
    ) -> Self {
        match constructor_name(written) {
            None => self.report(
                error(
                    "E6011",
                    words("implemented trait must use a nominal trait path"),
                    written.span,
                ),
            ),
            Some(name) => {
                let declaration = self.trait_of(name);
                if declaration.is_none() && !names_builtin_trait(name@) {
                    let s = self.report(
                        error("E6011", words3("unknown trait `", name, "`"), written.span),
                    );
                    s
                } else {
                    let s = self.collect_known_implementation(
                        name,
                        written,
                        declaration,
                        implementation,
                    );
                    s
                }
            },
        }
    }

    /// The implementations of traits are declared.
    #[verifier::opaque]
    pub open spec fn collect_trait_implementations(self, items: List<Item<'a>>) -> Self
        decreases items,
    {
        match items {
            List::Nil => self,
            List::Cons(node) => {
                let s = match node.head {
                    Item::Impl(implementation) => match implementation.trait_type {
                        Some(written) => self.collect_trait_implementation(
                            written,
                            *implementation,
                        ),
                        None => self,
                    },
                    _ => self,
                };
                let s = s.collect_trait_implementations(node.tail);
                s
            },
        }
    }

    /// The bindings of a trait that a type without generic parameters implements.
    #[verifier::opaque]
    pub open spec fn concrete_trait_environment(
        self,
        declaration: TraitDeclaration<'a>,
        implementation: ImplDeclaration<'a>,
    ) -> (Self, Option<Environment<'a>>) {
        match self.resolve_type(implementation.target) {
            (s, None) => (s, None),
            (s, Some(target)) => {
                let environment = s.types.base_environment().with_type("Self", target);
                match implementation.trait_type {
                    None => (s, None),
                    Some(written) => s.bind_trait_arguments(declaration, written, environment),
                }
            },
        }
    }

    /// The bindings of a trait by its arguments.
    #[verifier::opaque]
    pub open spec fn bind_trait_arguments(
        self,
        declaration: TraitDeclaration<'a>,
        written: TypeName<'a>,
        environment: Environment<'a>,
    ) -> (Self, Option<Environment<'a>>) {
        match *written.kind {
            TypeNameKind::Path(_) => self.bind_arguments_of(
                declaration,
                List::Nil,
                environment,
                written.span,
            ),
            TypeNameKind::Generic { arguments, .. } => self.bind_arguments_of(
                declaration,
                arguments,
                environment,
                written.span,
            ),
            _ => (self, None),
        }
    }

    /// The bindings of a trait by its arguments.
    #[verifier::opaque]
    pub open spec fn bind_arguments_of(
        self,
        declaration: TraitDeclaration<'a>,
        arguments: List<GenericArgument<'a>>,
        environment: Environment<'a>,
        span: Span,
    ) -> (Self, Option<Environment<'a>>) {
        match self.bind_generic_arguments(
            declaration.generic_parameters,
            arguments,
            environment,
            span,
        ) {
            (s, Some((_, bindings))) => (s, Some(bindings)),
            (s, None) => (s, None),
        }
    }

    /// A method must agree with its trait.
    #[verifier::opaque]
    pub open spec fn check_provided_method(
        self,
        declaration: TraitDeclaration<'a>,
        required: TraitMethod<'a>,
        provided: ast::Function<'a>,
        environment: Option<Environment<'a>>,
    ) -> Self {
        let s = if !spec_has_shape_of(required, provided) {
            let s = self.report(
                helped(
                    "E6013",
                    words3("method `", required.name.name, "` does not match its trait signature"),
                    "match the trait parameter, generic, and return-type shape",
                    provided.span,
                ),
            );
            s
        } else {
            self
        };
        let s = if !spec_receivers_match(required.parameters, provided.parameters) {
            let s = s.report(
                error(
                    "E6013",
                    words3(
                        "method `",
                        required.name.name,
                        "` uses a different receiver than the trait",
                    ),
                    provided.span,
                ),
            );
            s
        } else {
            s
        };
        if required.generic_parameters.is_empty() && provided.generic_parameters.is_empty() {
            match environment {
                Some(environment) => s.validate_concrete_trait_method_signature(
                    declaration,
                    required,
                    provided,
                    environment,
                ),
                None => s,
            }
        } else {
            s
        }
    }

    /// Every method of a trait must be there, and agree with the trait.
    #[verifier::opaque]
    pub open spec fn check_required_methods(
        self,
        declaration: TraitDeclaration<'a>,
        methods: List<TraitMethod<'a>>,
        implementation: ImplDeclaration<'a>,
        environment: Option<Environment<'a>>,
    ) -> Self
        decreases methods,
    {
        match methods {
            List::Nil => self,
            List::Cons(node) => {
                let s = match spec_find_method(implementation.methods, node.head.name.name) {
                    None => self.report(
                        error(
                            "E6013",
                            cons(
                                Piece::Words("implementation of `"),
                                cons(
                                    Piece::Words(declaration.name.name),
                                    words3("` is missing method `", node.head.name.name, "`"),
                                ),
                            ),
                            implementation.span,
                        ),
                    ),
                    Some(provided) => self.check_provided_method(
                        declaration,
                        node.head,
                        *provided,
                        environment,
                    ),
                };
                let s = s.check_required_methods(
                    declaration,
                    node.tail,
                    implementation,
                    environment,
                );
                s
            },
        }
    }

    /// Every method of an implementation must belong to the trait.
    #[verifier::opaque]
    pub open spec fn check_foreign_methods(
        self,
        declaration: TraitDeclaration<'a>,
        methods: List<Rc<ast::Function<'a>>>,
    ) -> Self
        decreases methods,
    {
        match methods {
            List::Nil => self,
            List::Cons(node) => {
                let s = if !spec_requires_method(declaration.methods, node.head.name.name) {
                    let s = self.report(
                        error(
                            "E6013",
                            cons(
                                Piece::Words("method `"),
                                cons(
                                    Piece::Words(node.head.name.name),
                                    words3("` is not part of trait `", declaration.name.name, "`"),
                                ),
                            ),
                            node.head.name.span,
                        ),
                    );
                    s
                } else {
                    self
                };
                let s = s.check_foreign_methods(declaration, node.tail);
                s
            },
        }
    }

    /// The methods of an implementation must be those of the trait.
    #[verifier::opaque]
    pub open spec fn validate_trait_methods(
        self,
        declaration: TraitDeclaration<'a>,
        implementation: ImplDeclaration<'a>,
    ) -> Self {
        let (s, environment) = if implementation.generic_parameters.is_empty() {
            self.concrete_trait_environment(declaration, implementation)
        } else {
            (self, None)
        };
        let s = s.check_required_methods(
            declaration,
            declaration.methods,
            implementation,
            environment,
        );
        let s = s.check_foreign_methods(declaration, implementation.methods);
        s
    }

    /// Parameters of a method must have the types that the trait wants.
    #[verifier::opaque]
    pub open spec fn check_parameter_types(
        self,
        trait_name: &'a str,
        method: &'a str,
        required: List<Parameter<'a>>,
        provided: List<Parameter<'a>>,
        environment: Environment<'a>,
    ) -> Self
        decreases required,
    {
        match required {
            List::Nil => self,
            List::Cons(first) => match provided {
                List::Nil => self,
                List::Cons(second) => {
                    let (s, required_type) = self.resolve_type_in(first.head.ty, environment);
                    let (s, provided_type) = s.resolve_type_in(second.head.ty, environment);
                    let s = if required_type != provided_type {
                        let s = s.report(
                            error(
                                "E6013",
                                cons(
                                    Piece::Words("parameter `"),
                                    cons(
                                        Piece::Words(second.head.name.name),
                                        cons(
                                            Piece::Words("` of method `"),
                                            cons(
                                                Piece::Words(method),
                                                words3("` does not match trait `", trait_name, "`"),
                                            ),
                                        ),
                                    ),
                                ),
                                second.head.ty.span,
                            ),
                        );
                        s
                    } else {
                        s
                    };
                    let s = s.check_parameter_types(
                        trait_name,
                        method,
                        first.tail,
                        second.tail,
                        environment,
                    );
                    s
                },
            },
        }
    }

    /// The type that a method returns, where it can be resolved.
    #[verifier::opaque]
    pub open spec fn written_return_type(
        self,
        written: Option<TypeName<'a>>,
        environment: Environment<'a>,
    ) -> (Self, Option<Type>) {
        match written {
            None => (self, Some(Type::Unit)),
            Some(written) => self.resolve_type_in(written, environment),
        }
    }

    /// A method must have the types that the trait wants.
    #[verifier::opaque]
    pub open spec fn validate_concrete_trait_method_signature(
        self,
        declaration: TraitDeclaration<'a>,
        required: TraitMethod<'a>,
        provided: ast::Function<'a>,
        environment: Environment<'a>,
    ) -> Self {
        let s = self.check_parameter_types(
            declaration.name.name,
            provided.name.name,
            required.parameters,
            provided.parameters,
            environment,
        );
        let (s, required_return) = s.written_return_type(required.return_type, environment);
        let (s, provided_return) = s.written_return_type(provided.return_type, environment);
        if required_return != provided_return {
            let s = s.report(
                error(
                    "E6013",
                    cons(
                        Piece::Words("return type of method `"),
                        cons(
                            Piece::Words(provided.name.name),
                            words3("` does not match trait `", declaration.name.name, "`"),
                        ),
                    ),
                    spec_return_span(provided.return_type, provided.span),
                ),
            );
            s
        } else {
            s
        }
    }

    /// The types of parameters.
    #[verifier::opaque]
    pub open spec fn resolve_signature_types(
        self,
        parameters: List<Parameter<'a>>,
    ) -> (Self, List<Type>)
        decreases parameters,
    {
        match parameters {
            List::Nil => (self, List::Nil),
            List::Cons(node) => {
                let (s, first) = self.resolve_type(node.head.ty);
                let (s, rest) = s.resolve_signature_types(node.tail);
                (
                    s,
                    cons(
                        match first {
                            Some(ty) => ty,
                            None => Type::Unit,
                        },
                        rest,
                    ),
                )
            },
        }
    }

    /// The type of what a function returns.
    #[verifier::opaque]
    pub open spec fn resolve_signature_return(self, written: Option<TypeName<'a>>) -> (Self, Type) {
        match written {
            None => (self, Type::Unit),
            Some(written) => match self.resolve_type(written) {
                (s, Some(ty)) => (s, ty),
                (s, None) => (s, Type::Unit),
            },
        }
    }

    /// A function that is declared a second time.
    #[verifier::opaque]
    pub open spec fn reject_repeated_function(self, name: Text<'a>, span: Span) -> Self {
        let s = self.report(
            helped(
                "E3004",
                framed("function `", name, "` is declared more than once"),
                "rename or remove one of the declarations",
                span,
            ),
        );
        s
    }

    /// The signature of a function, where its name is not taken.
    #[verifier::opaque]
    pub open spec fn build_signature(
        self,
        count: u64,
        name: Text<'a>,
        name_span: Span,
        parameters: List<Parameter<'a>>,
        return_type: Option<TypeName<'a>>,
        span: Span,
        requires_unsafe: bool,
        is_public: bool,
    ) -> (Self, Option<Signature>) {
        if self.has_signature(name) || self.has_template(name) {
            let s = self.reject_repeated_function(name, name_span);
            (s, None)
        } else if count > u32::MAX as u64 {
            let s = self.report(
                error("E3999", words("this compilation unit contains too many functions"), span),
            );
            (s, None)
        } else {
            let (s, parameter_types) = self.resolve_signature_types(parameters);
            let (s, return_type) = s.resolve_signature_return(return_type);
            (
                s,
                Some(
                    Signature {
                        id: FunctionId(count as u32),
                        parameter_types,
                        return_type,
                        requires_unsafe,
                        is_public,
                    },
                ),
            )
        }
    }

    /// A signature is remembered.
    #[verifier::opaque]
    pub open spec fn remember_signature(self, name: Text<'a>, signature: Signature) -> Self {
        let s = State {
            symbols: Symbols {
                signatures: cons(Symbol { name, value: signature }, self.symbols.signatures),
                ..self.symbols
            },
            ..self
        };
        s
    }

    /// A function is declared.
    #[verifier::opaque]
    pub open spec fn collect_source_declaration(
        self,
        function: Rc<ast::Function<'a>>,
        name: Text<'a>,
        is_public: bool,
        count: u64,
    ) -> (Self, List<Declaration<'a>>) {
        if function.generic_parameters.is_empty() {
            match self.build_signature(
                count,
                name,
                function.name.span,
                function.parameters,
                function.return_type,
                function.span,
                false,
                is_public,
            ) {
                (s, None) => (s, List::Nil),
                (s, Some(signature)) => {
                    let s = s.remember_signature(name, signature);
                    (s, single(Declaration::Source { function, resolved_name: name, signature }))
                },
            }
        } else {
            let s = self.register_generic_function_template(
                function,
                function.generic_parameters,
                function.where_predicates,
                name,
                0,
                is_public,
            );
            (s, List::Nil)
        }
    }

    /// What is wrong with the generic parameters of a function or a method.
    #[verifier::opaque]
    pub open spec fn check_split_parameters(
        self,
        parameters: List<GenericParameter<'a>>,
        start: u64,
    ) -> Self {
        if start == 0 {
            let s = self.check_generic_parameters(parameters);
            s
        } else {
            let s = self.check_generic_parameters(spec_leading(parameters, start));
            let s = s.check_generic_parameters(spec_trailing(parameters, start));
            s
        }
    }

    /// A generic function is remembered.
    #[verifier::opaque]
    pub open spec fn remember_function_template(self, template: GenericFunctionTemplate<'a>) -> Self {
        let s = State {
            symbols: Symbols {
                templates: cons(
                    Symbol { name: template.resolved_name, value: template },
                    self.symbols.templates,
                ),
                ..self.symbols
            },
            ..self
        };
        s
    }

    /// A generic function is declared.
    #[verifier::opaque]
    pub open spec fn register_generic_function_template(
        self,
        function: Rc<ast::Function<'a>>,
        parameters: List<GenericParameter<'a>>,
        where_predicates: List<WherePredicate<'a>>,
        name: Text<'a>,
        start: u64,
        is_public: bool,
    ) -> Self {
        let s = self.check_split_parameters(parameters, start);
        if s.has_signature(name) || s.has_template(name) {
            let s = s.reject_repeated_function(name, function.name.span);
            s
        } else {
            let s = s.remember_function_template(
                GenericFunctionTemplate {
                    function,
                    parameters,
                    where_predicates,
                    home: name,
                    resolved_name: name,
                    explicit_parameter_start: start,
                    is_public,
                },
            );
            s
        }
    }

    /// A function of another language is declared.
    #[verifier::opaque]
    pub open spec fn collect_foreign_declaration(
        self,
        function: Rc<ast::ForeignFunction<'a>>,
        count: u64,
    ) -> (Self, List<Declaration<'a>>) {
        let name = words(function.name.name);
        match self.build_signature(
            count,
            name,
            function.name.span,
            function.parameters,
            function.return_type,
            function.span,
            true,
            function.is_public,
        ) {
            (s, None) => (s, List::Nil),
            (s, Some(signature)) => {
                let s = s.validate_foreign_signature(*function, signature);
                let s = s.remember_signature(name, signature);
                (s, single(Declaration::Foreign { function, signature }))
            },
        }
    }

    /// Parameters of a function of another language must have types that it knows.
    #[verifier::opaque]
    pub open spec fn check_foreign_parameters(
        self,
        parameters: List<Parameter<'a>>,
        types: List<Type>,
    ) -> Self
        decreases parameters,
    {
        match parameters {
            List::Nil => self,
            List::Cons(node) => match types {
                List::Nil => self,
                List::Cons(ty) => {
                    let s = if !self.types.is_foreign_value(ty.head) {
                        let s = self.report(
                            helped(
                                "E5001",
                                framed(
                                    "type `",
                                    ty.head.text(),
                                    "` is not ABI-safe in an extern parameter",
                                ),
                                "use C-compatible scalars, cstr, raw pointers, or an ABI-safe `@repr(C)` struct",
                                node.head.ty.span,
                            ),
                        );
                        s
                    } else {
                        self
                    };
                    let s = s.check_foreign_parameters(node.tail, ty.tail);
                    s
                },
            },
        }
    }

    /// A function of another language must have types that it knows.
    #[verifier::opaque]
    pub open spec fn validate_foreign_signature(
        self,
        function: ast::ForeignFunction<'a>,
        signature: Signature,
    ) -> Self {
        let s = self.check_foreign_parameters(function.parameters, signature.parameter_types);
        if !s.types.is_foreign_return(signature.return_type) {
            let s = s.report(
                helped(
                    "E5001",
                    framed(
                        "type `",
                        signature.return_type.text(),
                        "` is not ABI-safe as an extern return value",
                    ),
                    "use `()`, a C-compatible scalar, cstr, a raw pointer, or an ABI-safe `@repr(C)` struct",
                    spec_return_span(function.return_type, function.span),
                ),
            );
            s
        } else {
            s
        }
    }

    /// The methods of a generic implementation are declared.
    #[verifier::opaque]
    pub open spec fn register_methods(
        self,
        owner: &'a str,
        implementation: ImplDeclaration<'a>,
        methods: List<Rc<ast::Function<'a>>>,
    ) -> Self
        decreases methods,
    {
        match methods {
            List::Nil => self,
            List::Cons(node) => {
                let s = if !node.head.is_comptime {
                    let s = self.register_generic_function_template(
                        node.head,
                        spec_joined_parameters(
                            implementation.generic_parameters,
                            node.head.generic_parameters,
                        ),
                        spec_joined_predicates(
                            implementation.where_predicates,
                            node.head.where_predicates,
                        ),
                        member(words(owner), node.head.name.name),
                        implementation.generic_parameters.count(),
                        node.head.is_public || implementation.trait_type.is_some(),
                    );
                    s
                } else {
                    self
                };
                let s = s.register_methods(owner, implementation, node.tail);
                s
            },
        }
    }

    /// The methods of a generic implementation are declared.
    #[verifier::opaque]
    pub open spec fn collect_generic_implementation(
        self,
        implementation: ImplDeclaration<'a>,
    ) -> Self {
        match constructor_name(implementation.target) {
            None => self.report(
                error(
                    "E6001",
                    words("generic impl requires a single nominal target type"),
                    implementation.target.span,
                ),
            ),
            Some(owner) => if bound(self.types.generic_templates, owner@).is_none()
                && bound(self.types.names, owner@).is_none() {
                let s = self.report(
                    error(
                        "E6001",
                        words3("cannot implement methods for unknown type `", owner, "`"),
                        implementation.target.span,
                    ),
                );
                s
            } else {
                let s = self.check_generic_parameters(implementation.generic_parameters);
                let s = s.register_methods(owner, implementation, implementation.methods);
                s
            },
        }
    }

    /// The methods of an implementation are declared.
    #[verifier::opaque]
    pub open spec fn collect_methods(
        self,
        owner: Text<'a>,
        implementation: ImplDeclaration<'a>,
        methods: List<Rc<ast::Function<'a>>>,
        count: u64,
    ) -> (Self, List<Declaration<'a>>)
        decreases methods,
    {
        match methods {
            List::Nil => (self, List::Nil),
            List::Cons(node) => if node.head.is_comptime {
                self.collect_methods(owner, implementation, node.tail, count)
            } else {
                let (s, first) = self.collect_source_declaration(
                    node.head,
                    member(owner, node.head.name.name),
                    node.head.is_public || implementation.trait_type.is_some(),
                    count,
                );
                let (s, rest) = s.collect_methods(
                    owner,
                    implementation,
                    node.tail,
                    count.saturating_add(first.count()),
                );
                (s, append(first, rest))
            },
        }
    }

    /// The name of the type that methods belong to.
    #[verifier::opaque]
    pub open spec fn owner_name(self, ty: Type) -> Option<Text<'a>> {
        match self.types.definition(ty) {
            Some(definition) => match definition.name {
                Some(name) => Some(name),
                None => None,
            },
            None => None,
        }
    }

    /// The methods of an implementation for a type without parameters.
    #[verifier::opaque]
    pub open spec fn collect_concrete_implementation(
        self,
        implementation: ImplDeclaration<'a>,
        count: u64,
    ) -> (Self, List<Declaration<'a>>) {
        match self.resolve_type(implementation.target) {
            (s, None) => (s, List::Nil),
            (s, Some(target)) => match s.owner_name(target) {
                None => {
                    let s = s.report(
                        helped(
                            "E6001",
                            words("inherent impl requires a named struct or enum"),
                            "implement methods on a declared nominal type",
                            implementation.target.span,
                        ),
                    );
                    (s, List::Nil)
                },
                Some(owner) => s.collect_methods(
                    owner,
                    implementation,
                    implementation.methods,
                    count,
                ),
            },
        }
    }

    /// The methods of an implementation are declared.
    #[verifier::opaque]
    pub open spec fn collect_impl_declarations(
        self,
        implementation: ImplDeclaration<'a>,
        count: u64,
    ) -> (Self, List<Declaration<'a>>) {
        if !implementation.generic_parameters.is_empty()
            || spec_any_generic(implementation.methods) {
            let s = self.collect_generic_implementation(implementation);
            (s, List::Nil)
        } else {
            self.collect_concrete_implementation(implementation, count)
        }
    }

    /// The functions that a declaration brings.
    #[verifier::opaque]
    pub open spec fn collect_declaration(
        self,
        item: Item<'a>,
        count: u64,
    ) -> (Self, List<Declaration<'a>>) {
        match item {
            Item::Function(function) => if function.is_comptime {
                (self, List::Nil)
            } else {
                self.collect_source_declaration(
                    function,
                    words(function.name.name),
                    function.is_public,
                    count,
                )
            },
            Item::ForeignFunction(function) => self.collect_foreign_declaration(function, count),
            Item::Impl(implementation) => self.collect_impl_declarations(*implementation, count),
            _ => (self, List::Nil),
        }
    }

    /// The functions of a program that are not generic, numbered from `count` on.
    #[verifier::opaque]
    pub open spec fn collect_declarations(
        self,
        items: List<Item<'a>>,
        count: u64,
    ) -> (Self, List<Declaration<'a>>)
        decreases items,
    {
        match items {
            List::Nil => (self, List::Nil),
            List::Cons(node) => {
                let (s, first) = self.collect_declaration(node.head, count);
                let (s, rest) = s.collect_declarations(
                    node.tail,
                    count.saturating_add(first.count()),
                );
                (s, append(first, rest))
            },
        }
    }

    /// The function that a program starts with.
    #[verifier::opaque]
    pub open spec fn validate_entry(self) -> (Self, Option<FunctionId>) {
        match self.signature_of(words("main")) {
            None => {
                let s = self.report(
                    helped(
                        "E3001",
                        words("program requires a `main` function"),
                        "add `fn main() -> i32 { ... }`",
                        origin(),
                    ),
                );
                (s, None)
            },
            Some(main) => {
                let s = self.check_entry(main);
                (s, Some(main.id))
            },
        }
    }

    /// What is wrong with the function that a program starts with.
    #[verifier::opaque]
    pub open spec fn check_entry(self, main: Signature) -> Self {
        let s = if main.requires_unsafe {
            let s = self.report(
                helped(
                    "E3001",
                    words("`main` must have a Reimer function body"),
                    "declare `fn main() -> i32 { ... }`",
                    origin(),
                ),
            );
            s
        } else {
            self
        };
        let s = if !main.parameter_types.is_empty() {
            let s = s.report(error("E3002", words("`main` cannot accept parameters"), origin()));
            s
        } else {
            s
        };
        if main.return_type != Type::I32 {
            let s = s.report(
                helped(
                    "E3003",
                    words("`main` must return `i32`"),
                    "declare `fn main() -> i32`",
                    origin(),
                ),
            );
            s
        } else {
            s
        }
    }

    /// Problems are reported in their order.
    #[verifier::opaque]
    pub open spec fn report_all(self, problems: List<Diagnostic<'a>>) -> Self
        decreases problems,
    {
        match problems {
            List::Nil => self,
            List::Cons(node) => {
                let s = self.report(node.head);
                let s = s.report_all(node.tail);
                s
            },
        }
    }

    /// A name stands for a constant from now on.
    #[verifier::opaque]
    pub open spec fn name_constant(self, name: &'a str, value: Expression<'a>) -> Self {
        let s = State {
            types: Types { constants: with(name, value, self.types.constants), ..self.types },
            ..self
        };
        s
    }

    /// A constant gets the value that was computed for it.
    #[verifier::opaque]
    pub open spec fn define_constant(
        self,
        declaration: ConstantDeclaration<'a>,
        evaluated: Evaluated<'a>,
    ) -> Self {
        match self.resolve_type(declaration.ty) {
            (s, None) => s,
            (s, Some(ty)) => match s.lower_value(evaluated.value, ty, evaluated.span) {
                (s, None) => s,
                (s, Some(value)) => s.name_constant(declaration.name.name, value),
            },
        }
    }

    /// A constant is declared.
    #[verifier::opaque]
    pub open spec fn collect_constant(
        self,
        declaration: ConstantDeclaration<'a>,
        seen: List<&'a str>,
        constants: List<Entry<'a, Evaluated<'a>>>,
    ) -> Self {
        if listed(seen, declaration.name.name@) {
            let s = self.report(
                helped(
                    "E7007",
                    words3("constant `", declaration.name.name, "` is declared more than once"),
                    "give each compile-time constant a unique name",
                    declaration.name.span,
                ),
            );
            s
        } else {
            match bound(constants, declaration.name.name@) {
                Some(evaluated) => self.define_constant(declaration, evaluated),
                None => self,
            }
        }
    }

    /// The constants are declared.
    #[verifier::opaque]
    pub open spec fn collect_constants(
        self,
        items: List<Item<'a>>,
        seen: List<&'a str>,
        constants: List<Entry<'a, Evaluated<'a>>>,
    ) -> Self
        decreases items,
    {
        match items {
            List::Nil => self,
            List::Cons(node) => match node.head {
                Item::Constant(declaration) => {
                    let s = self.collect_constant(*declaration, seen, constants);
                    let s = s.collect_constants(
                        node.tail,
                        cons(declaration.name.name, seen),
                        constants,
                    );
                    s
                },
                _ => self.collect_constants(node.tail, seen, constants),
            },
        }
    }

    /// Whether a name stands for a value.
    #[verifier::opaque]
    pub open spec fn is_value_name(self, name: &'a str) -> bool {
        bound(self.symbols.statics, name@).is_some() || bound(self.types.constants, name@).is_some()
            || self.has_signature(words(name)) || self.has_template(words(name))
    }

    /// The type of a static that may be declared.
    #[verifier::opaque]
    pub open spec fn static_type(self, declaration: StaticDeclaration<'a>) -> (Self, Option<Type>) {
        if self.is_value_name(declaration.name.name) {
            let s = self.report(
                helped(
                    "E3155",
                    words3(
                        "static `",
                        declaration.name.name,
                        "` conflicts with another value declaration",
                    ),
                    "give the static a unique name",
                    declaration.name.span,
                ),
            );
            (s, None)
        } else {
            match self.resolve_type(declaration.ty) {
                (s, None) => (s, None),
                (s, Some(ty)) => if s.types.supports_static_storage(ty) {
                    (s, Some(ty))
                } else {
                    let s = s.report(
                        helped(
                            "E3155",
                            framed("type `", ty.text(), "` cannot be stored in a static"),
                            "use an owned scalar or aggregate without references, slices, strings, raw pointers, or function values",
                            declaration.ty.span,
                        ),
                    );
                    (s, None)
                },
            }
        }
    }

    /// A static is remembered.
    #[verifier::opaque]
    pub open spec fn remember_static(self, name: &'a str, value: StaticSymbol) -> Self {
        let s = State {
            symbols: Symbols { statics: with(name, value, self.symbols.statics), ..self.symbols },
            ..self
        };
        s
    }

    /// A static gets its value.
    #[verifier::opaque]
    pub open spec fn add_static(
        self,
        declaration: StaticDeclaration<'a>,
        ty: Type,
        initializer: Expression<'a>,
    ) -> (Self, Option<Static<'a>>) {
        let count: u64 = self.symbols.statics.count();
        if count > u32::MAX as u64 {
            let s = self.report(
                error(
                    "E3999",
                    words("this compilation unit contains too many statics"),
                    declaration.span,
                ),
            );
            (s, None)
        } else {
            let id = StaticId(count as u32);
            let s = self.remember_static(
                declaration.name.name,
                StaticSymbol { id, mutable: declaration.mutable, ty },
            );
            (
                s,
                Some(
                    Static {
                        id,
                        name: declaration.name.name,
                        is_public: declaration.is_public,
                        mutable: declaration.mutable,
                        ty,
                        initializer,
                        documentation: None,
                        span: declaration.span,
                    },
                ),
            )
        }
    }

    /// A static gets the value that was computed for its initializer.
    #[verifier::opaque]
    pub open spec fn define_static(
        self,
        declaration: StaticDeclaration<'a>,
        ty: Type,
        initializer: Initializer<'a>,
    ) -> (Self, Option<Static<'a>>) {
        let s = self.report_all(initializer.problems);
        match initializer.value {
            None => (s, None),
            Some(evaluated) => match s.lower_value(evaluated.value, ty, evaluated.span) {
                (s, None) => (s, None),
                (s, Some(value)) => s.add_static(declaration, ty, value),
            },
        }
    }

    /// A static is declared, with what was computed for its initializer.
    #[verifier::opaque]
    pub open spec fn collect_static(
        self,
        declaration: StaticDeclaration<'a>,
        initializer: Initializer<'a>,
    ) -> (Self, Option<Static<'a>>) {
        match self.static_type(declaration) {
            (s, None) => (s, None),
            (s, Some(ty)) => s.define_static(declaration, ty, initializer),
        }
    }

    /// The statics are declared, with what was computed for each initializer in
    /// the order of the declarations.
    #[verifier::opaque]
    pub open spec fn collect_statics(
        self,
        items: List<Item<'a>>,
        initializers: List<Initializer<'a>>,
    ) -> (Self, List<Static<'a>>)
        decreases items,
    {
        match items {
            List::Nil => (self, List::Nil),
            List::Cons(node) => match node.head {
                Item::Static(declaration) => {
                    let (s, first) = match initializers {
                        List::Nil => self.collect_static(
                            *declaration,
                            Initializer { value: None, problems: List::Nil },
                        ),
                        List::Cons(computed) => self.collect_static(*declaration, computed.head),
                    };
                    let (s, rest) = s.collect_statics(node.tail, spec_without_first(initializers));
                    (
                        s,
                        match first {
                            Some(first) => cons(first, rest),
                            None => rest,
                        },
                    )
                },
                _ => self.collect_statics(node.tail, initializers),
            },
        }
    }
}

impl<'a> Analyzer<'a> {
    /// What is wrong with the annotations of methods.
    pub(crate) fn validate_method_attributes(&mut self, methods: &List<Rc<ast::Function<'a>>>)
        ensures
            final(self)@ == old(self)@.validate_method_attributes(*methods),
            old(self)@.leads_to(final(self)@),
    {
        let mut ahead: &List<Rc<ast::Function<'a>>> = methods;
        loop
            invariant
                old(self)@.validate_method_attributes(*methods) == self@.validate_method_attributes(
                    *ahead,
                ),
                old(self)@.leads_to(self@),
            decreases *ahead,
        {
            reveal(State::validate_method_attributes);
            match ahead {
                List::Nil => {
                    return ;
                },
                List::Cons(node) => {
                    self.check_function_attributes(&*node.head);
                    ahead = &node.tail;
                },
            }
        }
    }

    /// What is wrong with the annotations of a declaration.
    pub(crate) fn validate_item_attributes(&mut self, item: &Item<'a>, functions: &List<&'a str>)
        ensures
            final(self)@ == old(self)@.validate_item_attributes(*item, *functions),
            old(self)@.leads_to(final(self)@),
    {
        reveal(State::validate_item_attributes);
        match item {
            Item::Function(function) => {
                self.check_function_attributes(&*function);
                if function.is_comptime {
                    self.check_comptime_function(&*function, functions);
                }
            },
            Item::Struct(declaration) => self.check_type_attributes(&declaration.attributes, false),
            Item::Enum(declaration) => self.check_type_attributes(&declaration.attributes, true),
            Item::Impl(implementation) => self.validate_method_attributes(&implementation.methods),
            _ => {
            },
        }
    }

    /// What is wrong with the annotations of declarations.
    pub(crate) fn validate_each_attributes(
        &mut self,
        items: &List<Item<'a>>,
        functions: &List<&'a str>,
    )
        ensures
            final(self)@ == old(self)@.validate_each_attributes(*items, *functions),
            old(self)@.leads_to(final(self)@),
    {
        let mut ahead: &List<Item<'a>> = items;
        loop
            invariant
                old(self)@.validate_each_attributes(
                    *items,
                    *functions,
                ) == self@.validate_each_attributes(
                    *ahead,
                    *functions,
                ),
                old(self)@.leads_to(self@),
            decreases *ahead,
        {
            reveal(State::validate_each_attributes);
            match ahead {
                List::Nil => {
                    return ;
                },
                List::Cons(node) => {
                    self.validate_item_attributes(&node.head, functions);
                    ahead = &node.tail;
                },
            }
        }
    }

    /// What is wrong with the annotations of a program, and with the bodies of its
    /// functions that run at compile time.
    pub(crate) fn validate_attributes(&mut self, items: &List<Item<'a>>)
        ensures
            final(self)@ == old(self)@.validate_attributes(*items),
            old(self)@.leads_to(final(self)@),
    {
        reveal(State::validate_attributes);
        let functions = comptime_names(items);
        self.validate_each_attributes(items, &functions);
    }

    /// Whether a name stands for a type.
    pub(crate) fn is_type_name(&self, name: &str) -> (answer: bool)
        ensures
            answer == self@.is_type_name(name),
    {
        reveal(State::is_type_name);
        primitive_type(self.types.platform, name).is_some()
            || find(&self.types.names, name).is_some()
            || find(&self.types.generic_templates, name).is_some()
    }

    /// A type that is declared a second time.
    pub(crate) fn reject_repeated_type(&mut self, name: &'a str, span: Span, help: &'a str)
        ensures
            final(self)@ == old(self)@.reject_repeated_type(name, span, help),
            old(self)@.leads_to(final(self)@),
    {
        reveal(State::reject_repeated_type);
        self.report(
            helped("E3008", words3("type `", name, "` is declared more than once"), help, span),
        );
    }

    /// A name stands for a type from now on.
    pub(crate) fn name_type(&mut self, name: &'a str, ty: Type)
        ensures
            final(self)@ == old(self)@.name_type(name, ty),
            old(self)@.leads_to(final(self)@),
    {
        reveal(State::name_type);
        reveal(State::leads_to);
        reveal(Types::grows_into);
        self.types.names = with(name, ty, self.types.names.share());
    }

    /// A generic type is declared.
    pub(crate) fn add_template(&mut self, name: &'a str, template: GenericTypeTemplate<'a>)
        ensures
            final(self)@ == old(self)@.add_template(name, template),
            old(self)@.leads_to(final(self)@),
    {
        reveal(State::add_template);
        self.check_generic_parameters(&template_parameters(&template));
        self.remember_template(name, template);
    }

    /// A generic type is remembered.
    pub(crate) fn remember_template(&mut self, name: &'a str, template: GenericTypeTemplate<'a>)
        ensures
            final(self)@ == old(self)@.remember_template(name, template),
            old(self)@.leads_to(final(self)@),
    {
        reveal(State::remember_template);
        reveal(State::leads_to);
        reveal(Types::grows_into);
        self.types.generic_templates = with(name, template, self.types.generic_templates.share());
    }

    /// A struct or enum without generic parameters gets a type, which is filled in
    /// later.
    pub(crate) fn add_type(&mut self, name: &'a str, template: &GenericTypeTemplate<'a>)
        ensures
            final(self)@ == old(self)@.add_type(name, *template),
            old(self)@.leads_to(final(self)@),
    {
        reveal(State::add_type);
        match self.define_type(words(name), template) {
            None => self.report(
                error(
                    "E3999",
                    words("this compilation unit contains too many types"),
                    template_span(template),
                ),
            ),
            Some(id) => match template {
                GenericTypeTemplate::Struct(_) => self.name_type(name, Type::Struct(id)),
                GenericTypeTemplate::Enum(_) => self.name_type(name, Type::Enum(id)),
            },
        }
    }

    /// A struct or enum is declared.
    pub(crate) fn collect_type_header(&mut self, name: &'a str, template: GenericTypeTemplate<'a>)
        ensures
            final(self)@ == old(self)@.collect_type_header(name, template),
            old(self)@.leads_to(final(self)@),
    {
        reveal(State::collect_type_header);
        if self.is_type_name(name) {
            self.reject_repeated_type(
                name,
                template_span(&template),
                "give each type a unique name",
            );
        } else if template_parameters(&template).is_empty() {
            self.add_type(name, &template);
        } else {
            self.add_template(name, template);
        }
    }

    /// The structs and enums are declared.
    pub(crate) fn collect_type_headers(&mut self, items: &List<Item<'a>>)
        ensures
            final(self)@ == old(self)@.collect_type_headers(*items),
            old(self)@.leads_to(final(self)@),
    {
        let mut ahead: &List<Item<'a>> = items;
        loop
            invariant
                old(self)@.collect_type_headers(*items) == self@.collect_type_headers(*ahead),
                old(self)@.leads_to(self@),
            decreases *ahead,
        {
            reveal(State::collect_type_headers);
            match ahead {
                List::Nil => {
                    return ;
                },
                List::Cons(node) => {
                    match &node.head {
                        Item::Struct(declaration) => self.collect_type_header(
                            declaration.name.name,
                            GenericTypeTemplate::Struct(share(declaration)),
                        ),
                        Item::Enum(declaration) => self.collect_type_header(
                            declaration.name.name,
                            GenericTypeTemplate::Enum(share(declaration)),
                        ),
                        _ => {
                        },
                    }
                    ahead = &node.tail;
                },
            }
        }
    }

    /// The aliases whose names are not taken.
    pub(crate) fn new_aliases(
        &mut self,
        items: &List<Item<'a>>,
        seen: List<&'a str>,
    ) -> (aliases: List<Rc<TypeAlias<'a>>>)
        ensures
            (final(self)@, aliases) == old(self)@.new_aliases(*items, seen),
            old(self)@.leads_to(final(self)@),
    {
        let mut ahead: &List<Item<'a>> = items;
        let mut current_seen: List<&'a str> = seen;
        let mut done: Vec<Rc<TypeAlias<'a>>> = Vec::new();
        loop
            invariant
                old(self)@.new_aliases(*items, seen) == {
                    let (state, rest) = self@.new_aliases(*ahead, current_seen);
                    (state, prepended(done@, rest))
                },
                old(self)@.leads_to(self@),
            decreases *ahead,
        {
            reveal(State::new_aliases);
            match ahead {
                List::Nil => {
                    return prepend(done, List::Nil);
                },
                List::Cons(node) => {
                    match &node.head {
                        Item::TypeAlias(declaration) => {
                            if self.is_type_name(declaration.name.name)
                            || is_listed(&current_seen, declaration.name.name) {
                                self.reject_repeated_type(
                                    declaration.name.name,
                                    declaration.name.span,
                                    "give each type alias a unique name",
                                );
                                ahead = &node.tail;
                            } else {
                                done.push(share(declaration));
                                current_seen = cons(declaration.name.name, current_seen);
                                ahead = &node.tail;
                            }
                        },
                        _ => {
                            ahead = &node.tail;
                        },
                    }
                },
            }
        }
    }

    /// The aliases whose targets are still unknown after each has been tried once.
    pub(crate) fn try_aliases(
        &mut self,
        pending: &List<Rc<TypeAlias<'a>>>,
    ) -> (unresolved: List<Rc<TypeAlias<'a>>>)
        ensures
            (final(self)@, unresolved) == old(self)@.try_aliases(*pending),
            old(self)@.leads_to(final(self)@),
    {
        let mut ahead: &List<Rc<TypeAlias<'a>>> = pending;
        let mut done: Vec<Rc<TypeAlias<'a>>> = Vec::new();
        loop
            invariant
                old(self)@.try_aliases(*pending) == {
                    let (state, rest) = self@.try_aliases(*ahead);
                    (state, prepended(done@, rest))
                },
                old(self)@.leads_to(self@),
            decreases *ahead,
        {
            reveal(State::try_aliases);
            match ahead {
                List::Nil => {
                    return prepend(done, List::Nil);
                },
                List::Cons(node) => {
                    match self.resolve_quietly(&node.head.target) {
                        (Some(target), _) => {
                            self.name_type(node.head.name.name, target);
                            ahead = &node.tail;
                        },
                        (None, _) => {
                            done.push(share(&node.head));
                            ahead = &node.tail;
                        },
                    }
                },
            }
        }
    }

    /// Why the targets of aliases are unknown.
    pub(crate) fn report_aliases(&mut self, unresolved: &List<Rc<TypeAlias<'a>>>)
        ensures
            final(self)@ == old(self)@.report_aliases(*unresolved),
            old(self)@.leads_to(final(self)@),
    {
        let mut ahead: &List<Rc<TypeAlias<'a>>> = unresolved;
        loop
            invariant
                old(self)@.report_aliases(*unresolved) == self@.report_aliases(*ahead),
                old(self)@.leads_to(self@),
            decreases *ahead,
        {
            reveal(State::report_aliases);
            match ahead {
                List::Nil => {
                    return ;
                },
                List::Cons(node) => {
                    self.resolve_type(&node.head.target);
                    ahead = &node.tail;
                },
            }
        }
    }

    /// Aliases are tried until a round settles none of them. There are at most as
    /// many rounds as aliases.
    pub(crate) fn settle_aliases(
        &mut self,
        pending: &List<Rc<TypeAlias<'a>>>,
        rounds: &List<Rc<TypeAlias<'a>>>,
    )
        ensures
            final(self)@ == old(self)@.settle_aliases(*pending, *rounds),
            old(self)@.leads_to(final(self)@),
    {
        let mut ahead: &List<Rc<TypeAlias<'a>>> = rounds;
        let mut current_pending: List<Rc<TypeAlias<'a>>> = pending.share();
        loop
            invariant
                old(self)@.settle_aliases(*pending, *rounds) == self@.settle_aliases(
                    current_pending,
                    *ahead,
                ),
                old(self)@.leads_to(self@),
            decreases *ahead,
        {
            reveal(State::settle_aliases);
            match ahead {
                List::Nil => {
                    return ;
                },
                List::Cons(node) => {
                    if !current_pending.is_empty() {
                        let unresolved = self.try_aliases(&current_pending);
                        if unresolved.count() == current_pending.count() {
                            self.report_aliases(&unresolved);
                            return ;
                        } else {
                            current_pending = unresolved;
                            ahead = &node.tail;
                        }
                    } else {
                        return ;
                    }
                },
            }
        }
    }

    /// The aliases are declared, in whatever order they refer to one another.
    pub(crate) fn collect_type_aliases(&mut self, items: &List<Item<'a>>)
        ensures
            final(self)@ == old(self)@.collect_type_aliases(*items),
            old(self)@.leads_to(final(self)@),
    {
        reveal(State::collect_type_aliases);
        let pending = self.new_aliases(items, List::Nil);
        self.settle_aliases(&pending, &pending);
    }

    /// What is wrong with the methods of a trait.
    pub(crate) fn check_trait_methods(
        &mut self,
        methods: &List<TraitMethod<'a>>,
        seen: List<&'a str>,
    )
        ensures
            final(self)@ == old(self)@.check_trait_methods(*methods, seen),
            old(self)@.leads_to(final(self)@),
    {
        let mut ahead: &List<TraitMethod<'a>> = methods;
        let mut current_seen: List<&'a str> = seen;
        loop
            invariant
                old(self)@.check_trait_methods(*methods, seen) == self@.check_trait_methods(
                    *ahead,
                    current_seen,
                ),
                old(self)@.leads_to(self@),
            decreases *ahead,
        {
            reveal(State::check_trait_methods);
            match ahead {
                List::Nil => {
                    return ;
                },
                List::Cons(node) => {
                    self.check_generic_parameters(&node.head.generic_parameters);
                    if is_listed(&current_seen, node.head.name.name) {
                        self.report(
                            error(
                                "E6010",
                                words3(
                                    "trait method `",
                                    node.head.name.name,
                                    "` is declared more than once",
                                ),
                                node.head.name.span,
                            ),
                        );
                    }
                    current_seen = cons(node.head.name.name, current_seen);
                    ahead = &node.tail;
                },
            }
        }
    }

    /// A trait is remembered.
    pub(crate) fn remember_trait(&mut self, declaration: &Rc<TraitDeclaration<'a>>)
        ensures
            final(self)@ == old(self)@.remember_trait(*declaration),
            old(self)@.leads_to(final(self)@),
    {
        reveal(State::remember_trait);
        reveal(State::leads_to);
        reveal(Types::grows_into);
        self.types.traits = with(
            declaration.name.name,
            share(declaration),
            self.types.traits.share(),
        );
    }

    /// A trait is declared.
    pub(crate) fn collect_trait_header(&mut self, declaration: &Rc<TraitDeclaration<'a>>)
        ensures
            final(self)@ == old(self)@.collect_trait_header(*declaration),
            old(self)@.leads_to(final(self)@),
    {
        reveal(State::collect_trait_header);
        if self.is_type_name(declaration.name.name)
            || find(&self.types.traits, declaration.name.name).is_some() {
            self.report(
                helped(
                    "E6010",
                    words3("trait `", declaration.name.name, "` is declared more than once"),
                    "give each trait a unique name",
                    declaration.name.span,
                ),
            );
        } else {
            self.check_generic_parameters(&declaration.generic_parameters);
            self.check_trait_methods(&declaration.methods, List::Nil);
            self.remember_trait(declaration);
        }
    }

    /// The traits are declared.
    pub(crate) fn collect_traits(&mut self, items: &List<Item<'a>>)
        ensures
            final(self)@ == old(self)@.collect_traits(*items),
            old(self)@.leads_to(final(self)@),
    {
        let mut ahead: &List<Item<'a>> = items;
        loop
            invariant
                old(self)@.collect_traits(*items) == self@.collect_traits(*ahead),
                old(self)@.leads_to(self@),
            decreases *ahead,
        {
            reveal(State::collect_traits);
            match ahead {
                List::Nil => {
                    return ;
                },
                List::Cons(node) => {
                    match &node.head {
                        Item::Trait(declaration) => self.collect_trait_header(declaration),
                        _ => {
                        },
                    }
                    ahead = &node.tail;
                },
            }
        }
    }

    /// The traits that a trait extends must be declared.
    pub(crate) fn check_supertraits(&mut self, supertraits: &List<Path<'a>>)
        ensures
            final(self)@ == old(self)@.check_supertraits(*supertraits),
            old(self)@.leads_to(final(self)@),
    {
        let mut ahead: &List<Path<'a>> = supertraits;
        loop
            invariant
                old(self)@.check_supertraits(*supertraits) == self@.check_supertraits(*ahead),
                old(self)@.leads_to(self@),
            decreases *ahead,
        {
            reveal(State::check_supertraits);
            match ahead {
                List::Nil => {
                    return ;
                },
                List::Cons(node) => {
                    match single_path_name(&node.head) {
                        None => self.report(
                            error(
                                "E6010",
                                words("supertrait must resolve to one declared trait"),
                                node.head.span,
                            ),
                        ),
                        Some(name) => if !is_builtin_trait(name)
                            && find(&self.types.traits, name).is_none() {
                            self.report(
                                error(
                                    "E6010",
                                    words3("unknown supertrait `", name, "`"),
                                    node.head.span,
                                ),
                            );
                        },
                    }
                    ahead = &node.tail;
                },
            }
        }
    }

    /// The traits that traits extend must be declared.
    pub(crate) fn check_every_supertrait(
        &mut self,
        traits: &List<Entry<'a, Rc<TraitDeclaration<'a>>>>,
    )
        ensures
            final(self)@ == old(self)@.check_every_supertrait(*traits),
            old(self)@.leads_to(final(self)@),
    {
        let mut ahead: &List<Entry<'a, Rc<TraitDeclaration<'a>>>> = traits;
        loop
            invariant
                old(self)@.check_every_supertrait(*traits) == self@.check_every_supertrait(*ahead),
                old(self)@.leads_to(self@),
            decreases *ahead,
        {
            reveal(State::check_every_supertrait);
            match ahead {
                List::Nil => {
                    return ;
                },
                List::Cons(node) => {
                    self.check_supertraits(&node.head.value.supertraits);
                    ahead = &node.tail;
                },
            }
        }
    }

    /// The traits are declared.
    pub(crate) fn collect_trait_headers(&mut self, items: &List<Item<'a>>)
        ensures
            final(self)@ == old(self)@.collect_trait_headers(*items),
            old(self)@.leads_to(final(self)@),
    {
        reveal(State::collect_trait_headers);
        self.collect_traits(items);
        let traits = self.types.traits.share();
        self.check_every_supertrait(&traits);
    }

    /// A derived trait must be a marker.
    pub(crate) fn check_marker(&mut self, name: Identifier<'a>, declaration: &TraitDeclaration<'a>)
        ensures
            final(self)@ == old(self)@.check_marker(name, *declaration),
            old(self)@.leads_to(final(self)@),
    {
        reveal(State::check_marker);
        if !declaration.generic_parameters.is_empty() {
            self.report(
                helped(
                    "E7004",
                    words3("generic trait `", name.name, "` cannot be derived"),
                    "marker derives must name a trait without generic parameters",
                    name.span,
                ),
            );
        }
        if !declaration.methods.is_empty() {
            self.report(
                helped(
                    "E7004",
                    words3("trait `", name.name, "` is not a marker trait"),
                    "implement traits with methods explicitly; marker derives may not generate behavior",
                    name.span,
                ),
            );
        }
    }

    /// A derived trait must be known.
    pub(crate) fn check_derive_name(&mut self, name: Identifier<'a>)
        ensures
            final(self)@ == old(self)@.check_derive_name(name),
            old(self)@.leads_to(final(self)@),
    {
        reveal(State::check_derive_name);
        if derived_trait(name.name).is_none() {
            match find(&self.types.traits, name.name) {
                None => self.report(
                    helped(
                        "E7004",
                        words3("unknown derive `", name.name, "`"),
                        "import a zero-method marker trait or use a built-in structural derive",
                        name.span,
                    ),
                ),
                Some(declaration) => {
                    let declaration = share(declaration);
                    self.check_marker(name, &*declaration);
                },
            }
        }
    }

    /// Derived traits must be known.
    pub(crate) fn check_derive_names(&mut self, arguments: &List<AttributeArgument<'a>>)
        ensures
            final(self)@ == old(self)@.check_derive_names(*arguments),
            old(self)@.leads_to(final(self)@),
    {
        let mut ahead: &List<AttributeArgument<'a>> = arguments;
        loop
            invariant
                old(self)@.check_derive_names(*arguments) == self@.check_derive_names(*ahead),
                old(self)@.leads_to(self@),
            decreases *ahead,
        {
            reveal(State::check_derive_names);
            match ahead {
                List::Nil => {
                    return ;
                },
                List::Cons(node) => {
                    match &node.head {
                        AttributeArgument::Identifier(name) => self.check_derive_name(*name),
                        AttributeArgument::Integer(_) => {
                        },
                    }
                    ahead = &node.tail;
                },
            }
        }
    }

    /// Derived traits must be known.
    pub(crate) fn check_derive_attributes(&mut self, attributes: &List<Attribute<'a>>)
        ensures
            final(self)@ == old(self)@.check_derive_attributes(*attributes),
            old(self)@.leads_to(final(self)@),
    {
        let mut ahead: &List<Attribute<'a>> = attributes;
        loop
            invariant
                old(self)@.check_derive_attributes(*attributes) == self@.check_derive_attributes(
                    *ahead,
                ),
                old(self)@.leads_to(self@),
            decreases *ahead,
        {
            reveal(State::check_derive_attributes);
            match ahead {
                List::Nil => {
                    return ;
                },
                List::Cons(node) => {
                    if same(node.head.name.name, "derive") {
                        self.check_derive_names(&node.head.arguments);
                    }
                    ahead = &node.tail;
                },
            }
        }
    }

    /// Derived traits must be known.
    pub(crate) fn validate_derived_marker_traits(&mut self, items: &List<Item<'a>>)
        ensures
            final(self)@ == old(self)@.validate_derived_marker_traits(*items),
            old(self)@.leads_to(final(self)@),
    {
        let mut ahead: &List<Item<'a>> = items;
        loop
            invariant
                old(self)@.validate_derived_marker_traits(
                    *items,
                ) == self@.validate_derived_marker_traits(
                    *ahead,
                ),
                old(self)@.leads_to(self@),
            decreases *ahead,
        {
            reveal(State::validate_derived_marker_traits);
            match ahead {
                List::Nil => {
                    return ;
                },
                List::Cons(node) => {
                    match &node.head {
                        Item::Struct(declaration) => self.check_derive_attributes(
                            &declaration.attributes,
                        ),
                        Item::Enum(declaration) => self.check_derive_attributes(
                            &declaration.attributes,
                        ),
                        _ => {
                        },
                    }
                    ahead = &node.tail;
                },
            }
        }
    }

    /// The number of a declared type, where that declaration made it.
    pub(crate) fn own_definition(&self, name: &str, span: Span) -> (id: Option<(Type, TypeId)>)
        ensures
            id == self@.own_definition(name, span),
    {
        reveal(State::own_definition);
        match self.named_type(name) {
            None => None,
            Some(ty) => match ty.id() {
                None => None,
                Some(id) => match self.types.definition(ty) {
                    None => None,
                    Some(definition) => if definition.span == span {
                        Some((ty, id))
                    } else {
                        None
                    },
                },
            },
        }
    }

    /// The fields of a struct are filled in.
    pub(crate) fn resolve_struct_definition(&mut self, declaration: &StructDeclaration<'a>)
        ensures
            final(self)@ == old(self)@.resolve_struct_definition(*declaration),
            old(self)@.leads_to(final(self)@),
    {
        reveal(State::resolve_struct_definition);
        if declaration.generic_parameters.is_empty() {
            match self.own_definition(declaration.name.name, declaration.span) {
                Some((Type::Struct(_), id)) => {
                    let fields = self.resolve_fields(&declaration.fields);
                    self.fill_type(id, TypeDefinitionKind::Struct { fields });
                },
                _ => {
                },
            }
        }
    }

    /// The variants of an enum are filled in.
    pub(crate) fn resolve_enum_definition(&mut self, declaration: &EnumDeclaration<'a>)
        ensures
            final(self)@ == old(self)@.resolve_enum_definition(*declaration),
            old(self)@.leads_to(final(self)@),
    {
        reveal(State::resolve_enum_definition);
        if declaration.generic_parameters.is_empty() {
            match self.own_definition(declaration.name.name, declaration.span) {
                Some((Type::Enum(_), id)) => {
                    let variants = self.resolve_variants(&declaration.variants);
                    self.fill_type(id, TypeDefinitionKind::Enum { variants });
                },
                _ => {
                },
            }
        }
    }

    /// The structs and enums are filled in.
    pub(crate) fn resolve_type_definitions(&mut self, items: &List<Item<'a>>)
        ensures
            final(self)@ == old(self)@.resolve_type_definitions(*items),
            old(self)@.leads_to(final(self)@),
    {
        let mut ahead: &List<Item<'a>> = items;
        loop
            invariant
                old(self)@.resolve_type_definitions(*items) == self@.resolve_type_definitions(
                    *ahead,
                ),
                old(self)@.leads_to(self@),
            decreases *ahead,
        {
            reveal(State::resolve_type_definitions);
            match ahead {
                List::Nil => {
                    return ;
                },
                List::Cons(node) => {
                    match &node.head {
                        Item::Struct(declaration) => self.resolve_struct_definition(&*declaration),
                        Item::Enum(declaration) => self.resolve_enum_definition(&*declaration),
                        _ => {
                        },
                    }
                    ahead = &node.tail;
                },
            }
        }
    }

    /// The declaration of a trait.
    pub(crate) fn trait_of(&self, name: &str) -> (declaration: Option<Rc<TraitDeclaration<'a>>>)
        ensures
            declaration == self@.trait_of(name),
    {
        reveal(State::trait_of);
        match find(&self.types.traits, name) {
            Some(declaration) => Some(share(declaration)),
            None => None,
        }
    }

    /// A trait must be given as many arguments as it has parameters.
    pub(crate) fn check_trait_arguments(
        &mut self,
        name: &'a str,
        written: &TypeName<'a>,
        declaration: &Option<Rc<TraitDeclaration<'a>>>,
    )
        ensures
            final(self)@ == old(self)@.check_trait_arguments(name, *written, *declaration),
            old(self)@.leads_to(final(self)@),
    {
        reveal(State::check_trait_arguments);
        let provided: u64 = argument_count(written);
        let expected: u64 = parameter_count(declaration);
        if provided != expected {
            self.report(
                error(
                    "E6011",
                    cons(
                        Piece::Words("trait `"),
                        cons(
                            Piece::Words(name),
                            cons(
                                Piece::Words("` expects "),
                                cons(
                                    Piece::Number(expected as u128),
                                    cons(
                                        Piece::Words(" generic argument(s), but "),
                                        cons(
                                            Piece::Number(provided as u128),
                                            words(" were provided"),
                                        ),
                                    ),
                                ),
                            ),
                        ),
                    ),
                    written.span,
                ),
            );
        }
    }

    /// An implementation is remembered.
    pub(crate) fn remember_implementation(
        &mut self,
        name: &'a str,
        implementation: &ImplDeclaration<'a>,
    )
        ensures
            final(self)@ == old(self)@.remember_implementation(name, *implementation),
            old(self)@.leads_to(final(self)@),
    {
        reveal(State::remember_implementation);
        reveal(State::leads_to);
        reveal(Types::grows_into);
        let entry = TraitImplementation {
            trait_name: name,
            target: implementation.target.share(),
            parameters: implementation.generic_parameters.share(),
            where_predicates: implementation.where_predicates.share(),
        };
        self.types.trait_implementations = cons(entry, self.types.trait_implementations.share());
    }

    /// What is wrong with the methods of an implementation.
    pub(crate) fn check_implemented_methods(
        &mut self,
        name: &'a str,
        declaration: &Option<Rc<TraitDeclaration<'a>>>,
        implementation: &ImplDeclaration<'a>,
    )
        ensures
            final(self)@ == old(self)@.check_implemented_methods(
                name,
                *declaration,
                *implementation,
            ),
            old(self)@.leads_to(final(self)@),
    {
        reveal(State::check_implemented_methods);
        match declaration {
            Some(declaration) => self.validate_trait_methods(&*declaration, implementation),
            None => if !implementation.methods.is_empty() {
                self.report(
                    error(
                        "E6013",
                        words3("built-in marker trait `", name, "` does not declare methods"),
                        implementation.span,
                    ),
                );
            },
        }
    }

    /// An implementation of a trait is declared.
    pub(crate) fn collect_known_implementation(
        &mut self,
        name: &'a str,
        written: &TypeName<'a>,
        declaration: &Option<Rc<TraitDeclaration<'a>>>,
        implementation: &ImplDeclaration<'a>,
    )
        ensures
            final(self)@ == old(self)@.collect_known_implementation(
                name,
                *written,
                *declaration,
                *implementation,
            ),
            old(self)@.leads_to(final(self)@),
    {
        reveal(State::collect_known_implementation);
        self.check_trait_arguments(name, written, declaration);
        let key = type_pattern_key(&implementation.target);
        if is_implemented(&self.types.trait_implementations, name, &key) {
            self.report(
                helped(
                    "E6012",
                    cons(
                        Piece::Words("trait `"),
                        cons(
                            Piece::Words(name),
                            frame("` is implemented more than once for `", &key, "`"),
                        ),
                    ),
                    "keep one coherent implementation for each trait and target",
                    implementation.span,
                ),
            );
        } else {
            self.check_implemented_methods(name, declaration, implementation);
            self.remember_implementation(name, implementation);
        }
    }

    /// An implementation of a trait is declared.
    pub(crate) fn collect_trait_implementation(
        &mut self,
        written: &TypeName<'a>,
        implementation: &ImplDeclaration<'a>,
    )
        ensures
            final(self)@ == old(self)@.collect_trait_implementation(*written, *implementation),
            old(self)@.leads_to(final(self)@),
    {
        reveal(State::collect_trait_implementation);
        match type_constructor_name(written) {
            None => self.report(
                error(
                    "E6011",
                    words("implemented trait must use a nominal trait path"),
                    written.span,
                ),
            ),
            Some(name) => {
                let declaration = self.trait_of(name);
                if declaration.is_none() && !is_builtin_trait(name) {
                    self.report(error("E6011", words3("unknown trait `", name, "`"), written.span));
                } else {
                    self.collect_known_implementation(name, written, &declaration, implementation);
                }
            },
        }
    }

    /// The implementations of traits are declared.
    pub(crate) fn collect_trait_implementations(&mut self, items: &List<Item<'a>>)
        ensures
            final(self)@ == old(self)@.collect_trait_implementations(*items),
            old(self)@.leads_to(final(self)@),
    {
        let mut ahead: &List<Item<'a>> = items;
        loop
            invariant
                old(self)@.collect_trait_implementations(
                    *items,
                ) == self@.collect_trait_implementations(
                    *ahead,
                ),
                old(self)@.leads_to(self@),
            decreases *ahead,
        {
            reveal(State::collect_trait_implementations);
            match ahead {
                List::Nil => {
                    return ;
                },
                List::Cons(node) => {
                    match &node.head {
                        Item::Impl(implementation) => match &implementation.trait_type {
                            Some(written) => self.collect_trait_implementation(
                                written,
                                &*implementation,
                            ),
                            None => {
                            },
                        },
                        _ => {
                        },
                    }
                    ahead = &node.tail;
                },
            }
        }
    }

    /// The bindings of a trait that a type without generic parameters implements.
    pub(crate) fn concrete_trait_environment(
        &mut self,
        declaration: &TraitDeclaration<'a>,
        implementation: &ImplDeclaration<'a>,
    ) -> (environment: Option<Environment<'a>>)
        ensures
            (final(self)@, environment) == old(self)@.concrete_trait_environment(
                *declaration,
                *implementation,
            ),
            old(self)@.leads_to(final(self)@),
    {
        reveal(State::concrete_trait_environment);
        match self.resolve_type(&implementation.target) {
            None => None,
            Some(target) => {
                let environment = self.types.base_environment().and_type("Self", target);
                match &implementation.trait_type {
                    None => None,
                    Some(written) => self.bind_trait_arguments(declaration, written, &environment),
                }
            },
        }
    }

    /// The bindings of a trait by its arguments.
    pub(crate) fn bind_trait_arguments(
        &mut self,
        declaration: &TraitDeclaration<'a>,
        written: &TypeName<'a>,
        environment: &Environment<'a>,
    ) -> (bindings: Option<Environment<'a>>)
        ensures
            (final(self)@, bindings) == old(self)@.bind_trait_arguments(
                *declaration,
                *written,
                *environment,
            ),
            old(self)@.leads_to(final(self)@),
    {
        reveal(State::bind_trait_arguments);
        match &*written.kind {
            TypeNameKind::Path(_) => self.bind_arguments_of(
                declaration,
                &List::Nil,
                environment,
                written.span,
            ),
            TypeNameKind::Generic { arguments, .. } => self.bind_arguments_of(
                declaration,
                arguments,
                environment,
                written.span,
            ),
            _ => None,
        }
    }

    /// The bindings of a trait by its arguments.
    pub(crate) fn bind_arguments_of(
        &mut self,
        declaration: &TraitDeclaration<'a>,
        arguments: &List<GenericArgument<'a>>,
        environment: &Environment<'a>,
        span: Span,
    ) -> (bindings: Option<Environment<'a>>)
        ensures
            (final(self)@, bindings) == old(self)@.bind_arguments_of(
                *declaration,
                *arguments,
                *environment,
                span,
            ),
            old(self)@.leads_to(final(self)@),
    {
        reveal(State::bind_arguments_of);
        match self.bind_generic_arguments(
            &declaration.generic_parameters,
            arguments,
            environment,
            span,
        ) {
            Some((_, bindings)) => Some(bindings),
            None => None,
        }
    }

    /// A method must agree with its trait.
    pub(crate) fn check_provided_method(
        &mut self,
        declaration: &TraitDeclaration<'a>,
        required: &TraitMethod<'a>,
        provided: &ast::Function<'a>,
        environment: &Option<Environment<'a>>,
    )
        ensures
            final(self)@ == old(self)@.check_provided_method(
                *declaration,
                *required,
                *provided,
                *environment,
            ),
            old(self)@.leads_to(final(self)@),
    {
        reveal(State::check_provided_method);
        if !has_shape_of(required, provided) {
            self.report(
                helped(
                    "E6013",
                    words3("method `", required.name.name, "` does not match its trait signature"),
                    "match the trait parameter, generic, and return-type shape",
                    provided.span,
                ),
            );
        }
        if !receivers_match(&required.parameters, &provided.parameters) {
            self.report(
                error(
                    "E6013",
                    words3(
                        "method `",
                        required.name.name,
                        "` uses a different receiver than the trait",
                    ),
                    provided.span,
                ),
            );
        }
        if required.generic_parameters.is_empty() && provided.generic_parameters.is_empty() {
            match environment {
                Some(environment) => self.validate_concrete_trait_method_signature(
                    declaration,
                    required,
                    provided,
                    environment,
                ),
                None => {
                },
            }
        }
    }

    /// Every method of a trait must be there, and agree with the trait.
    pub(crate) fn check_required_methods(
        &mut self,
        declaration: &TraitDeclaration<'a>,
        methods: &List<TraitMethod<'a>>,
        implementation: &ImplDeclaration<'a>,
        environment: &Option<Environment<'a>>,
    )
        ensures
            final(self)@ == old(self)@.check_required_methods(
                *declaration,
                *methods,
                *implementation,
                *environment,
            ),
            old(self)@.leads_to(final(self)@),
    {
        let mut ahead: &List<TraitMethod<'a>> = methods;
        loop
            invariant
                old(self)@.check_required_methods(
                    *declaration,
                    *methods,
                    *implementation,
                    *environment,
                ) == self@.check_required_methods(
                    *declaration,
                    *ahead,
                    *implementation,
                    *environment,
                ),
                old(self)@.leads_to(self@),
            decreases *ahead,
        {
            reveal(State::check_required_methods);
            match ahead {
                List::Nil => {
                    return ;
                },
                List::Cons(node) => {
                    match find_method(&implementation.methods, node.head.name.name) {
                        None => self.report(
                            error(
                                "E6013",
                                cons(
                                    Piece::Words("implementation of `"),
                                    cons(
                                        Piece::Words(declaration.name.name),
                                        words3("` is missing method `", node.head.name.name, "`"),
                                    ),
                                ),
                                implementation.span,
                            ),
                        ),
                        Some(provided) => self.check_provided_method(
                            declaration,
                            &node.head,
                            &*provided,
                            environment,
                        ),
                    }
                    ahead = &node.tail;
                },
            }
        }
    }

    /// Every method of an implementation must belong to the trait.
    pub(crate) fn check_foreign_methods(
        &mut self,
        declaration: &TraitDeclaration<'a>,
        methods: &List<Rc<ast::Function<'a>>>,
    )
        ensures
            final(self)@ == old(self)@.check_foreign_methods(*declaration, *methods),
            old(self)@.leads_to(final(self)@),
    {
        let mut ahead: &List<Rc<ast::Function<'a>>> = methods;
        loop
            invariant
                old(self)@.check_foreign_methods(
                    *declaration,
                    *methods,
                ) == self@.check_foreign_methods(
                    *declaration,
                    *ahead,
                ),
                old(self)@.leads_to(self@),
            decreases *ahead,
        {
            reveal(State::check_foreign_methods);
            match ahead {
                List::Nil => {
                    return ;
                },
                List::Cons(node) => {
                    if !requires_method(&declaration.methods, node.head.name.name) {
                        self.report(
                            error(
                                "E6013",
                                cons(
                                    Piece::Words("method `"),
                                    cons(
                                        Piece::Words(node.head.name.name),
                                        words3(
                                            "` is not part of trait `",
                                            declaration.name.name,
                                            "`",
                                        ),
                                    ),
                                ),
                                node.head.name.span,
                            ),
                        );
                    }
                    ahead = &node.tail;
                },
            }
        }
    }

    /// The methods of an implementation must be those of the trait.
    pub(crate) fn validate_trait_methods(
        &mut self,
        declaration: &TraitDeclaration<'a>,
        implementation: &ImplDeclaration<'a>,
    )
        ensures
            final(self)@ == old(self)@.validate_trait_methods(*declaration, *implementation),
            old(self)@.leads_to(final(self)@),
    {
        reveal(State::validate_trait_methods);
        let environment = if implementation.generic_parameters.is_empty() {
            self.concrete_trait_environment(declaration, implementation)
        } else {
            None
        };
        self.check_required_methods(
            declaration,
            &declaration.methods,
            implementation,
            &environment,
        );
        self.check_foreign_methods(declaration, &implementation.methods);
    }

    /// Parameters of a method must have the types that the trait wants.
    pub(crate) fn check_parameter_types(
        &mut self,
        trait_name: &'a str,
        method: &'a str,
        required: &List<Parameter<'a>>,
        provided: &List<Parameter<'a>>,
        environment: &Environment<'a>,
    )
        ensures
            final(self)@ == old(self)@.check_parameter_types(
                trait_name,
                method,
                *required,
                *provided,
                *environment,
            ),
            old(self)@.leads_to(final(self)@),
    {
        let mut ahead: &List<Parameter<'a>> = required;
        let mut current_provided: &List<Parameter<'a>> = provided;
        loop
            invariant
                old(self)@.check_parameter_types(
                    trait_name,
                    method,
                    *required,
                    *provided,
                    *environment,
                ) == self@.check_parameter_types(
                    trait_name,
                    method,
                    *ahead,
                    *current_provided,
                    *environment,
                ),
                old(self)@.leads_to(self@),
            decreases *ahead,
        {
            reveal(State::check_parameter_types);
            match ahead {
                List::Nil => {
                    return ;
                },
                List::Cons(first) => {
                    match current_provided {
                        List::Nil => {
                            return ;
                        },
                        List::Cons(second) => {
                            let required_type = self.resolve_type_in(&first.head.ty, environment);
                            let provided_type = self.resolve_type_in(&second.head.ty, environment);
                            if required_type != provided_type {
                                self.report(
                                    error(
                                        "E6013",
                                        cons(
                                            Piece::Words("parameter `"),
                                            cons(
                                                Piece::Words(second.head.name.name),
                                                cons(
                                                    Piece::Words("` of method `"),
                                                    cons(
                                                        Piece::Words(method),
                                                        words3(
                                                            "` does not match trait `",
                                                            trait_name,
                                                            "`",
                                                        ),
                                                    ),
                                                ),
                                            ),
                                        ),
                                        second.head.ty.span,
                                    ),
                                );
                            }
                            current_provided = &second.tail;
                            ahead = &first.tail;
                        },
                    }
                },
            }
        }
    }

    /// The type that a method returns, where it can be resolved.
    pub(crate) fn written_return_type(
        &mut self,
        written: &Option<TypeName<'a>>,
        environment: &Environment<'a>,
    ) -> (ty: Option<Type>)
        ensures
            (final(self)@, ty) == old(self)@.written_return_type(*written, *environment),
            old(self)@.leads_to(final(self)@),
    {
        reveal(State::written_return_type);
        match written {
            None => Some(Type::Unit),
            Some(written) => self.resolve_type_in(written, environment),
        }
    }

    /// A method must have the types that the trait wants.
    pub(crate) fn validate_concrete_trait_method_signature(
        &mut self,
        declaration: &TraitDeclaration<'a>,
        required: &TraitMethod<'a>,
        provided: &ast::Function<'a>,
        environment: &Environment<'a>,
    )
        ensures
            final(self)@ == old(self)@.validate_concrete_trait_method_signature(
                *declaration,
                *required,
                *provided,
                *environment,
            ),
            old(self)@.leads_to(final(self)@),
    {
        reveal(State::validate_concrete_trait_method_signature);
        self.check_parameter_types(
            declaration.name.name,
            provided.name.name,
            &required.parameters,
            &provided.parameters,
            environment,
        );
        let required_return = self.written_return_type(&required.return_type, environment);
        let provided_return = self.written_return_type(&provided.return_type, environment);
        if required_return != provided_return {
            self.report(
                error(
                    "E6013",
                    cons(
                        Piece::Words("return type of method `"),
                        cons(
                            Piece::Words(provided.name.name),
                            words3("` does not match trait `", declaration.name.name, "`"),
                        ),
                    ),
                    return_span(&provided.return_type, provided.span),
                ),
            );
        }
    }

    /// The types of parameters.
    pub(crate) fn resolve_signature_types(
        &mut self,
        parameters: &List<Parameter<'a>>,
    ) -> (types: List<Type>)
        ensures
            (final(self)@, types) == old(self)@.resolve_signature_types(*parameters),
            old(self)@.leads_to(final(self)@),
    {
        let mut ahead: &List<Parameter<'a>> = parameters;
        let mut done: Vec<Type> = Vec::new();
        loop
            invariant
                old(self)@.resolve_signature_types(*parameters) == {
                    let (state, rest) = self@.resolve_signature_types(*ahead);
                    (state, prepended(done@, rest))
                },
                old(self)@.leads_to(self@),
            decreases *ahead,
        {
            reveal(State::resolve_signature_types);
            match ahead {
                List::Nil => {
                    return prepend(done, List::Nil);
                },
                List::Cons(node) => {
                    let first = self.resolve_type(&node.head.ty);
                    done.push(match first {
                        Some(ty) => ty,
                        None => Type::Unit,
                    });
                    ahead = &node.tail;
                },
            }
        }
    }

    /// The type of what a function returns.
    pub(crate) fn resolve_signature_return(&mut self, written: &Option<TypeName<'a>>) -> (ty: Type)
        ensures
            (final(self)@, ty) == old(self)@.resolve_signature_return(*written),
            old(self)@.leads_to(final(self)@),
    {
        reveal(State::resolve_signature_return);
        match written {
            None => Type::Unit,
            Some(written) => match self.resolve_type(written) {
                Some(ty) => ty,
                None => Type::Unit,
            },
        }
    }

    /// A function that is declared a second time.
    pub(crate) fn reject_repeated_function(&mut self, name: &Text<'a>, span: Span)
        ensures
            final(self)@ == old(self)@.reject_repeated_function(*name, span),
            old(self)@.leads_to(final(self)@),
    {
        reveal(State::reject_repeated_function);
        self.report(
            helped(
                "E3004",
                frame("function `", name, "` is declared more than once"),
                "rename or remove one of the declarations",
                span,
            ),
        );
    }

    /// The signature of a function, where its name is not taken.
    pub(crate) fn build_signature(
        &mut self,
        count: u64,
        name: &Text<'a>,
        name_span: Span,
        parameters: &List<Parameter<'a>>,
        return_type: &Option<TypeName<'a>>,
        span: Span,
        requires_unsafe: bool,
        is_public: bool,
    ) -> (signature: Option<Signature>)
        ensures
            (final(self)@, signature) == old(self)@.build_signature(
                count,
                *name,
                name_span,
                *parameters,
                *return_type,
                span,
                requires_unsafe,
                is_public,
            ),
            old(self)@.leads_to(final(self)@),
            signature is Some ==> signature->0.parameter_types@.len() == parameters@.len(),
    {
        reveal(State::build_signature);
        if self.has_signature(name) || self.has_template(name) {
            self.reject_repeated_function(name, name_span);
            None
        } else if count > u32::MAX as u64 {
            self.report(
                error("E3999", words("this compilation unit contains too many functions"), span),
            );
            None
        } else {
            proof {
                declared_types_are_as_many(self@, *parameters);
            }
            let parameter_types = self.resolve_signature_types(parameters);
            let return_type = self.resolve_signature_return(return_type);
            Some(
                Signature {
                    id: FunctionId(count as u32),
                    parameter_types,
                    return_type,
                    requires_unsafe,
                    is_public,
                },
            )
        }
    }

    /// A signature is remembered.
    pub(crate) fn remember_signature(&mut self, name: &Text<'a>, signature: &Signature)
        ensures
            final(self)@ == old(self)@.remember_signature(*name, *signature),
            old(self)@.reaches(final(self)@),
            old(self)@.symbols.statics == final(self)@.symbols.statics,
    {
        reveal(State::remember_signature);
        reveal(State::reaches);
        self.symbols.signatures = cons(
            Symbol { name: name.share(), value: signature.share() },
            self.symbols.signatures.share(),
        );
    }

    /// A function is declared.
    pub(crate) fn collect_source_declaration(
        &mut self,
        function: &Rc<ast::Function<'a>>,
        name: Text<'a>,
        is_public: bool,
        count: u64,
    ) -> (declared: List<Declaration<'a>>)
        ensures
            (final(self)@, declared) == old(self)@.collect_source_declaration(
                *function,
                name,
                is_public,
                count,
            ),
            old(self)@.reaches(final(self)@),
            old(self)@.symbols.statics == final(self)@.symbols.statics,
            forall|signature: Signature| #[trigger]
                is_declared(final(self)@.symbols.signatures, signature) ==> is_declared(
                    old(self)@.symbols.signatures,
                    signature,
                ) || announces(declared, signature),
    {
        reveal(State::collect_source_declaration);
        reveal(State::leads_to);
        reveal(State::remember_signature);
        reveal(is_declared);
        reveal(announces);
        if function.generic_parameters.is_empty() {
            match self.build_signature(
                count,
                &name,
                function.name.span,
                &function.parameters,
                &function.return_type,
                function.span,
                false,
                is_public,
            ) {
                None => List::Nil,
                Some(signature) => {
                    self.remember_signature(&name, &signature);
                    single(
                        Declaration::Source {
                            function: share(function),
                            resolved_name: name,
                            signature,
                        },
                    )
                },
            }
        } else {
            self.register_generic_function_template(
                function,
                function.generic_parameters.share(),
                function.where_predicates.share(),
                name,
                0,
                is_public,
            );
            List::Nil
        }
    }

    /// What is wrong with the generic parameters of a function or a method.
    pub(crate) fn check_split_parameters(
        &mut self,
        parameters: &List<GenericParameter<'a>>,
        start: u64,
    )
        ensures
            final(self)@ == old(self)@.check_split_parameters(*parameters, start),
            old(self)@.leads_to(final(self)@),
    {
        reveal(State::check_split_parameters);
        if start == 0 {
            self.check_generic_parameters(parameters);
        } else {
            self.check_generic_parameters(&leading(parameters, start));
            self.check_generic_parameters(&trailing(parameters, start));
        }
    }

    /// A generic function is remembered.
    pub(crate) fn remember_function_template(&mut self, template: GenericFunctionTemplate<'a>)
        ensures
            final(self)@ == old(self)@.remember_function_template(template),
            old(self)@.leads_to(final(self)@),
    {
        reveal(State::remember_function_template);
        reveal(State::leads_to);
        self.symbols.templates = cons(
            Symbol { name: template.resolved_name.share(), value: template },
            self.symbols.templates.share(),
        );
    }

    /// A generic function is declared.
    pub(crate) fn register_generic_function_template(
        &mut self,
        function: &Rc<ast::Function<'a>>,
        parameters: List<GenericParameter<'a>>,
        where_predicates: List<WherePredicate<'a>>,
        name: Text<'a>,
        start: u64,
        is_public: bool,
    )
        ensures
            final(self)@ == old(self)@.register_generic_function_template(
                *function,
                parameters,
                where_predicates,
                name,
                start,
                is_public,
            ),
            old(self)@.leads_to(final(self)@),
    {
        reveal(State::register_generic_function_template);
        self.check_split_parameters(&parameters, start);
        if self.has_signature(&name) || self.has_template(&name) {
            self.reject_repeated_function(&name, function.name.span);
        } else {
            self.remember_function_template(
                GenericFunctionTemplate {
                    function: share(function),
                    parameters,
                    where_predicates,
                    home: name.share(),
                    resolved_name: name,
                    explicit_parameter_start: start,
                    is_public,
                },
            );
        }
    }

    /// A function of another language is declared.
    pub(crate) fn collect_foreign_declaration(
        &mut self,
        function: &Rc<ast::ForeignFunction<'a>>,
        count: u64,
    ) -> (declared: List<Declaration<'a>>)
        ensures
            (final(self)@, declared) == old(self)@.collect_foreign_declaration(*function, count),
            old(self)@.reaches(final(self)@),
            old(self)@.symbols.statics == final(self)@.symbols.statics,
            forall|signature: Signature| #[trigger]
                is_declared(final(self)@.symbols.signatures, signature) ==> is_declared(
                    old(self)@.symbols.signatures,
                    signature,
                ) || announces(declared, signature),
    {
        reveal(State::collect_foreign_declaration);
        reveal(State::leads_to);
        reveal(State::remember_signature);
        reveal(is_declared);
        reveal(announces);
        let name = words(function.name.name);
        match self.build_signature(
            count,
            &name,
            function.name.span,
            &function.parameters,
            &function.return_type,
            function.span,
            true,
            function.is_public,
        ) {
            None => List::Nil,
            Some(signature) => {
                self.validate_foreign_signature(&*function, &signature);
                self.remember_signature(&name, &signature);
                single(Declaration::Foreign { function: share(function), signature })
            },
        }
    }

    /// Parameters of a function of another language must have types that it knows.
    pub(crate) fn check_foreign_parameters(
        &mut self,
        parameters: &List<Parameter<'a>>,
        types: &List<Type>,
    )
        ensures
            final(self)@ == old(self)@.check_foreign_parameters(*parameters, *types),
            old(self)@.leads_to(final(self)@),
    {
        let mut ahead: &List<Parameter<'a>> = parameters;
        let mut current_types: &List<Type> = types;
        loop
            invariant
                old(self)@.check_foreign_parameters(
                    *parameters,
                    *types,
                ) == self@.check_foreign_parameters(
                    *ahead,
                    *current_types,
                ),
                old(self)@.leads_to(self@),
            decreases *ahead,
        {
            reveal(State::check_foreign_parameters);
            match ahead {
                List::Nil => {
                    return ;
                },
                List::Cons(node) => {
                    match current_types {
                        List::Nil => {
                            return ;
                        },
                        List::Cons(ty) => {
                            if !self.types.is_ffi_safe_foreign_value(ty.head) {
                                self.report(
                                    helped(
                                        "E5001",
                                        frame(
                                            "type `",
                                            &ty.head.text(),
                                            "` is not ABI-safe in an extern parameter",
                                        ),
                                        "use C-compatible scalars, cstr, raw pointers, or an ABI-safe `@repr(C)` struct",
                                        node.head.ty.span,
                                    ),
                                );
                            }
                            current_types = &ty.tail;
                            ahead = &node.tail;
                        },
                    }
                },
            }
        }
    }

    /// A function of another language must have types that it knows.
    pub(crate) fn validate_foreign_signature(
        &mut self,
        function: &ast::ForeignFunction<'a>,
        signature: &Signature,
    )
        ensures
            final(self)@ == old(self)@.validate_foreign_signature(*function, *signature),
            old(self)@.leads_to(final(self)@),
    {
        reveal(State::validate_foreign_signature);
        self.check_foreign_parameters(&function.parameters, &signature.parameter_types);
        if !self.types.is_ffi_safe_return_type(signature.return_type) {
            self.report(
                helped(
                    "E5001",
                    frame(
                        "type `",
                        &signature.return_type.text(),
                        "` is not ABI-safe as an extern return value",
                    ),
                    "use `()`, a C-compatible scalar, cstr, a raw pointer, or an ABI-safe `@repr(C)` struct",
                    return_span(&function.return_type, function.span),
                ),
            );
        }
    }

    /// The methods of a generic implementation are declared.
    pub(crate) fn register_methods(
        &mut self,
        owner: &'a str,
        implementation: &ImplDeclaration<'a>,
        methods: &List<Rc<ast::Function<'a>>>,
    )
        ensures
            final(self)@ == old(self)@.register_methods(owner, *implementation, *methods),
            old(self)@.leads_to(final(self)@),
    {
        let mut ahead: &List<Rc<ast::Function<'a>>> = methods;
        loop
            invariant
                old(self)@.register_methods(
                    owner,
                    *implementation,
                    *methods,
                ) == self@.register_methods(
                    owner,
                    *implementation,
                    *ahead,
                ),
                old(self)@.leads_to(self@),
            decreases *ahead,
        {
            reveal(State::register_methods);
            match ahead {
                List::Nil => {
                    return ;
                },
                List::Cons(node) => {
                    if !node.head.is_comptime {
                        self.register_generic_function_template(
                            &node.head,
                            joined_parameters(
                                &implementation.generic_parameters,
                                node.head.generic_parameters.share(),
                            ),
                            joined_predicates(
                                &implementation.where_predicates,
                                node.head.where_predicates.share(),
                            ),
                            member_symbol(&words(owner), node.head.name.name),
                            implementation.generic_parameters.count(),
                            node.head.is_public || implementation.trait_type.is_some(),
                        );
                    }
                    ahead = &node.tail;
                },
            }
        }
    }

    /// The methods of a generic implementation are declared.
    pub(crate) fn collect_generic_implementation(&mut self, implementation: &ImplDeclaration<'a>)
        ensures
            final(self)@ == old(self)@.collect_generic_implementation(*implementation),
            old(self)@.leads_to(final(self)@),
    {
        reveal(State::collect_generic_implementation);
        match type_constructor_name(&implementation.target) {
            None => self.report(
                error(
                    "E6001",
                    words("generic impl requires a single nominal target type"),
                    implementation.target.span,
                ),
            ),
            Some(owner) => if find(&self.types.generic_templates, owner).is_none()
                && find(&self.types.names, owner).is_none() {
                self.report(
                    error(
                        "E6001",
                        words3("cannot implement methods for unknown type `", owner, "`"),
                        implementation.target.span,
                    ),
                );
            } else {
                self.check_generic_parameters(&implementation.generic_parameters);
                self.register_methods(owner, implementation, &implementation.methods);
            },
        }
    }

    /// The methods of an implementation are declared.
    pub(crate) fn collect_methods(
        &mut self,
        owner: &Text<'a>,
        implementation: &ImplDeclaration<'a>,
        methods: &List<Rc<ast::Function<'a>>>,
        count: u64,
    ) -> (declared: List<Declaration<'a>>)
        ensures
            (final(self)@, declared) == old(self)@.collect_methods(
                *owner,
                *implementation,
                *methods,
                count,
            ),
            old(self)@.reaches(final(self)@),
            old(self)@.symbols.statics == final(self)@.symbols.statics,
            forall|signature: Signature| #[trigger]
                is_declared(final(self)@.symbols.signatures, signature) ==> is_declared(
                    old(self)@.symbols.signatures,
                    signature,
                ) || announces(declared, signature),
    {
        let mut ahead: &List<Rc<ast::Function<'a>>> = methods;
        let mut current_count: u64 = count;
        let mut done: Vec<Declaration<'a>> = Vec::new();
        loop
            invariant
                old(self)@.collect_methods(*owner, *implementation, *methods, count) == {
                    let (state, rest) = self@.collect_methods(
                        *owner,
                        *implementation,
                        *ahead,
                        current_count,
                    );
                    (state, prepended(done@, rest))
                },
                old(self)@.reaches(self@),
                old(self)@.symbols.statics == self@.symbols.statics,
                forall|signature: Signature| #[trigger]
                    is_declared(self@.symbols.signatures, signature) ==> is_declared(
                        old(self)@.symbols.signatures,
                        signature,
                    ) || announces(prepended(done@, List::Nil), signature),
            decreases *ahead,
        {
            reveal(State::collect_methods);
            match ahead {
                List::Nil => {
                    return prepend(done, List::Nil);
                },
                List::Cons(node) => {
                    if !node.head.is_comptime {
                        let first = self.collect_source_declaration(
                            &node.head,
                            member_symbol(owner, node.head.name.name),
                            node.head.is_public || implementation.trait_type.is_some(),
                            current_count,
                        );
                        current_count = current_count.saturating_add(first.count());
                        let ghost before = done@;
                    extend_declarations(&mut done, &first);
                    assert forall|signature: Signature|
                        announces(prepended(before, List::Nil), signature) || announces(
                            first,
                            signature,
                        ) implies #[trigger] announces(prepended(done@, List::Nil), signature) by {
                        extended_announce(before, first, signature);
                    }
                    }
                    ahead = &node.tail;
                },
            }
        }
    }

    /// The name of the type that methods belong to.
    pub(crate) fn owner_name(&self, ty: Type) -> (name: Option<Text<'a>>)
        ensures
            name == self@.owner_name(ty),
    {
        reveal(State::owner_name);
        match self.types.definition(ty) {
            Some(definition) => match &definition.name {
                Some(name) => Some(name.share()),
                None => None,
            },
            None => None,
        }
    }

    /// The methods of an implementation for a type without parameters.
    pub(crate) fn collect_concrete_implementation(
        &mut self,
        implementation: &ImplDeclaration<'a>,
        count: u64,
    ) -> (declared: List<Declaration<'a>>)
        ensures
            (final(self)@, declared) == old(self)@.collect_concrete_implementation(
                *implementation,
                count,
            ),
            old(self)@.reaches(final(self)@),
            old(self)@.symbols.statics == final(self)@.symbols.statics,
            forall|signature: Signature| #[trigger]
                is_declared(final(self)@.symbols.signatures, signature) ==> is_declared(
                    old(self)@.symbols.signatures,
                    signature,
                ) || announces(declared, signature),
    {
        reveal(State::collect_concrete_implementation);
        reveal(State::leads_to);
        match self.resolve_type(&implementation.target) {
            None => List::Nil,
            Some(target) => match self.owner_name(target) {
                None => {
                    self.report(
                        helped(
                            "E6001",
                            words("inherent impl requires a named struct or enum"),
                            "implement methods on a declared nominal type",
                            implementation.target.span,
                        ),
                    );
                    List::Nil
                },
                Some(owner) => self.collect_methods(
                    &owner,
                    implementation,
                    &implementation.methods,
                    count,
                ),
            },
        }
    }

    /// The methods of an implementation are declared.
    pub(crate) fn collect_impl_declarations(
        &mut self,
        implementation: &ImplDeclaration<'a>,
        count: u64,
    ) -> (declared: List<Declaration<'a>>)
        ensures
            (final(self)@, declared) == old(self)@.collect_impl_declarations(
                *implementation,
                count,
            ),
            old(self)@.reaches(final(self)@),
            old(self)@.symbols.statics == final(self)@.symbols.statics,
            forall|signature: Signature| #[trigger]
                is_declared(final(self)@.symbols.signatures, signature) ==> is_declared(
                    old(self)@.symbols.signatures,
                    signature,
                ) || announces(declared, signature),
    {
        reveal(State::collect_impl_declarations);
        reveal(State::leads_to);
        if !implementation.generic_parameters.is_empty() || any_generic(&implementation.methods) {
            self.collect_generic_implementation(implementation);
            List::Nil
        } else {
            self.collect_concrete_implementation(implementation, count)
        }
    }

    /// The functions that a declaration brings.
    pub(crate) fn collect_declaration(
        &mut self,
        item: &Item<'a>,
        count: u64,
    ) -> (declared: List<Declaration<'a>>)
        ensures
            (final(self)@, declared) == old(self)@.collect_declaration(*item, count),
            old(self)@.reaches(final(self)@),
            old(self)@.symbols.statics == final(self)@.symbols.statics,
            forall|signature: Signature| #[trigger]
                is_declared(final(self)@.symbols.signatures, signature) ==> is_declared(
                    old(self)@.symbols.signatures,
                    signature,
                ) || announces(declared, signature),
    {
        reveal(State::collect_declaration);
        reveal(State::leads_to);
        match item {
            Item::Function(function) => if function.is_comptime {
                List::Nil
            } else {
                self.collect_source_declaration(
                    function,
                    words(function.name.name),
                    function.is_public,
                    count,
                )
            },
            Item::ForeignFunction(function) => self.collect_foreign_declaration(function, count),
            Item::Impl(implementation) => self.collect_impl_declarations(&*implementation, count),
            _ => List::Nil,
        }
    }

    /// The functions of a program that are not generic, numbered from `count` on.
    pub(crate) fn collect_declarations(
        &mut self,
        items: &List<Item<'a>>,
        count: u64,
    ) -> (declared: List<Declaration<'a>>)
        ensures
            (final(self)@, declared) == old(self)@.collect_declarations(*items, count),
            old(self)@.reaches(final(self)@),
            old(self)@.symbols.statics == final(self)@.symbols.statics,
            forall|signature: Signature| #[trigger]
                is_declared(final(self)@.symbols.signatures, signature) ==> is_declared(
                    old(self)@.symbols.signatures,
                    signature,
                ) || announces(declared, signature),
    {
        let mut ahead: &List<Item<'a>> = items;
        let mut current_count: u64 = count;
        let mut done: Vec<Declaration<'a>> = Vec::new();
        loop
            invariant
                old(self)@.collect_declarations(*items, count) == {
                    let (state, rest) = self@.collect_declarations(*ahead, current_count);
                    (state, prepended(done@, rest))
                },
                old(self)@.reaches(self@),
                old(self)@.symbols.statics == self@.symbols.statics,
                forall|signature: Signature| #[trigger]
                    is_declared(self@.symbols.signatures, signature) ==> is_declared(
                        old(self)@.symbols.signatures,
                        signature,
                    ) || announces(prepended(done@, List::Nil), signature),
            decreases *ahead,
        {
            reveal(State::collect_declarations);
            match ahead {
                List::Nil => {
                    return prepend(done, List::Nil);
                },
                List::Cons(node) => {
                    let first = self.collect_declaration(&node.head, current_count);
                    current_count = current_count.saturating_add(first.count());
                    let ghost before = done@;
                    extend_declarations(&mut done, &first);
                    assert forall|signature: Signature|
                        announces(prepended(before, List::Nil), signature) || announces(
                            first,
                            signature,
                        ) implies #[trigger] announces(prepended(done@, List::Nil), signature) by {
                        extended_announce(before, first, signature);
                    }
                    ahead = &node.tail;
                },
            }
        }
    }

    /// The function that a program starts with.
    pub(crate) fn validate_entry(&mut self) -> (entry: Option<FunctionId>)
        ensures
            (final(self)@, entry) == old(self)@.validate_entry(),
            old(self)@.leads_to(final(self)@),
    {
        reveal(State::validate_entry);
        match self.signature_of(&words("main")) {
            None => {
                self.report(
                    helped(
                        "E3001",
                        words("program requires a `main` function"),
                        "add `fn main() -> i32 { ... }`",
                        origin(),
                    ),
                );
                None
            },
            Some(main) => {
                self.check_entry(&main);
                Some(main.id)
            },
        }
    }

    /// What is wrong with the function that a program starts with.
    pub(crate) fn check_entry(&mut self, main: &Signature)
        ensures
            final(self)@ == old(self)@.check_entry(*main),
            old(self)@.leads_to(final(self)@),
    {
        reveal(State::check_entry);
        if main.requires_unsafe {
            self.report(
                helped(
                    "E3001",
                    words("`main` must have a Reimer function body"),
                    "declare `fn main() -> i32 { ... }`",
                    origin(),
                ),
            );
        }
        if !main.parameter_types.is_empty() {
            self.report(error("E3002", words("`main` cannot accept parameters"), origin()));
        }
        if main.return_type != Type::I32 {
            self.report(
                helped(
                    "E3003",
                    words("`main` must return `i32`"),
                    "declare `fn main() -> i32`",
                    origin(),
                ),
            );
        }
    }

    /// Problems are reported in their order.
    pub(crate) fn report_all(&mut self, problems: &List<Diagnostic<'a>>)
        ensures
            final(self)@ == old(self)@.report_all(*problems),
            old(self)@.leads_to(final(self)@),
    {
        let mut ahead: &List<Diagnostic<'a>> = problems;
        loop
            invariant
                old(self)@.report_all(*problems) == self@.report_all(*ahead),
                old(self)@.leads_to(self@),
            decreases *ahead,
        {
            reveal(State::report_all);
            match ahead {
                List::Nil => {
                    return ;
                },
                List::Cons(node) => {
                    self.report(node.head.share());
                    ahead = &node.tail;
                },
            }
        }
    }

    /// A name stands for a constant from now on.
    pub(crate) fn name_constant(&mut self, name: &'a str, value: Expression<'a>)
        requires
            always_sound(value),
        ensures
            final(self)@ == old(self)@.name_constant(name, value),
            old(self)@.leads_to(final(self)@),
    {
        reveal(State::name_constant);
        reveal(State::leads_to);
        reveal(Types::grows_into);
        proof {
            if sound_entries(self@.types.constants) {
                more_entries_are_sound(name, value, self@.types.constants);
            }
        }
        self.types.constants = with(name, value, self.types.constants.share());
    }

    /// A constant gets the value that was computed for it.
    pub(crate) fn define_constant(
        &mut self,
        declaration: &ConstantDeclaration<'a>,
        evaluated: &Evaluated<'a>,
    )
        ensures
            final(self)@ == old(self)@.define_constant(*declaration, *evaluated),
            old(self)@.leads_to(final(self)@),
    {
        reveal(State::define_constant);
        match self.resolve_type(&declaration.ty) {
            None => {
            },
            Some(ty) => match self.lower_value(&evaluated.value, ty, evaluated.span) {
                None => {
                },
                Some(value) => self.name_constant(declaration.name.name, value),
            },
        }
    }

    /// A constant is declared.
    pub(crate) fn collect_constant(
        &mut self,
        declaration: &ConstantDeclaration<'a>,
        seen: &List<&'a str>,
        constants: &List<Entry<'a, Evaluated<'a>>>,
    )
        ensures
            final(self)@ == old(self)@.collect_constant(*declaration, *seen, *constants),
            old(self)@.leads_to(final(self)@),
    {
        reveal(State::collect_constant);
        if is_listed(seen, declaration.name.name) {
            self.report(
                helped(
                    "E7007",
                    words3("constant `", declaration.name.name, "` is declared more than once"),
                    "give each compile-time constant a unique name",
                    declaration.name.span,
                ),
            );
        } else {
            match find(constants, declaration.name.name) {
                Some(evaluated) => self.define_constant(declaration, evaluated),
                None => {
                },
            }
        }
    }

    /// The constants are declared.
    pub(crate) fn collect_constants(
        &mut self,
        items: &List<Item<'a>>,
        seen: List<&'a str>,
        constants: &List<Entry<'a, Evaluated<'a>>>,
    )
        ensures
            final(self)@ == old(self)@.collect_constants(*items, seen, *constants),
            old(self)@.leads_to(final(self)@),
    {
        let mut ahead: &List<Item<'a>> = items;
        let mut current_seen: List<&'a str> = seen;
        loop
            invariant
                old(self)@.collect_constants(*items, seen, *constants) == self@.collect_constants(
                    *ahead,
                    current_seen,
                    *constants,
                ),
                old(self)@.leads_to(self@),
            decreases *ahead,
        {
            reveal(State::collect_constants);
            match ahead {
                List::Nil => {
                    return ;
                },
                List::Cons(node) => {
                    match &node.head {
                        Item::Constant(declaration) => {
                            self.collect_constant(&*declaration, &current_seen, constants);
                            current_seen = cons(declaration.name.name, current_seen);
                            ahead = &node.tail;
                        },
                        _ => {
                            ahead = &node.tail;
                        },
                    }
                },
            }
        }
    }

    /// Whether a name stands for a value.
    pub(crate) fn is_value_name(&self, name: &'a str) -> (answer: bool)
        ensures
            answer == self@.is_value_name(name),
    {
        reveal(State::is_value_name);
        find(&self.symbols.statics, name).is_some() || find(&self.types.constants, name).is_some()
            || self.has_signature(&words(name)) || self.has_template(&words(name))
    }

    /// The type of a static that may be declared.
    pub(crate) fn static_type(&mut self, declaration: &StaticDeclaration<'a>) -> (ty: Option<Type>)
        ensures
            (final(self)@, ty) == old(self)@.static_type(*declaration),
            old(self)@.leads_to(final(self)@),
    {
        reveal(State::static_type);
        if self.is_value_name(declaration.name.name) {
            self.report(
                helped(
                    "E3155",
                    words3(
                        "static `",
                        declaration.name.name,
                        "` conflicts with another value declaration",
                    ),
                    "give the static a unique name",
                    declaration.name.span,
                ),
            );
            return None;
        }
        match self.resolve_type(&declaration.ty) {
            None => None,
            Some(ty) => if self.types.supports_static_storage(ty) {
                Some(ty)
            } else {
                self.report(
                    helped(
                        "E3155",
                        frame("type `", &ty.text(), "` cannot be stored in a static"),
                        "use an owned scalar or aggregate without references, slices, strings, raw pointers, or function values",
                        declaration.ty.span,
                    ),
                );
                None
            },
        }
    }

    /// A static is remembered.
    pub(crate) fn remember_static(&mut self, name: &'a str, value: StaticSymbol)
        ensures
            final(self)@ == old(self)@.remember_static(name, value),
            old(self)@.reaches(final(self)@),
            old(self)@.symbols.signatures == final(self)@.symbols.signatures,
    {
        reveal(State::remember_static);
        reveal(State::reaches);
        self.symbols.statics = with(name, value, self.symbols.statics.share());
    }

    /// A static gets its value.
    pub(crate) fn add_static(
        &mut self,
        declaration: &StaticDeclaration<'a>,
        ty: Type,
        initializer: Expression<'a>,
    ) -> (declared: Option<Static<'a>>)
        requires
            always_sound(initializer),
            initializer.ty == ty,
        ensures
            (final(self)@, declared) == old(self)@.add_static(*declaration, ty, initializer),
            old(self)@.reaches(final(self)@),
            old(self)@.symbols.signatures == final(self)@.symbols.signatures,
            match declared {
                Some(value) => {
                    &&& value.id.0 == old(self)@.symbols.statics.count()
                    &&& final(self)@.symbols.statics.count() == old(self)@.symbols.statics.count() + 1
                },
                None => final(self)@.symbols.statics == old(self)@.symbols.statics,
            },
            declared is Some ==> is_static_typed(declared->0),
    {
        reveal(State::add_static);
        reveal(State::remember_static);
        reveal(State::leads_to);
        let count: u64 = self.symbols.statics.count();
        if count > u32::MAX as u64 {
            self.report(
                error(
                    "E3999",
                    words("this compilation unit contains too many statics"),
                    declaration.span,
                ),
            );
            None
        } else {
            let id = StaticId(count as u32);
            self.remember_static(
                declaration.name.name,
                StaticSymbol { id, mutable: declaration.mutable, ty },
            );
            Some(
                Static {
                    id,
                    name: declaration.name.name,
                    is_public: declaration.is_public,
                    mutable: declaration.mutable,
                    ty,
                    initializer,
                    documentation: None,
                    span: declaration.span,
                },
            )
        }
    }

    /// A static gets the value that was computed for its initializer.
    pub(crate) fn define_static(
        &mut self,
        declaration: &StaticDeclaration<'a>,
        ty: Type,
        initializer: &Initializer<'a>,
    ) -> (declared: Option<Static<'a>>)
        ensures
            (final(self)@, declared) == old(self)@.define_static(*declaration, ty, *initializer),
            old(self)@.reaches(final(self)@),
            old(self)@.symbols.signatures == final(self)@.symbols.signatures,
            match declared {
                Some(value) => {
                    &&& value.id.0 == old(self)@.symbols.statics.count()
                    &&& final(self)@.symbols.statics.count() == old(self)@.symbols.statics.count() + 1
                },
                None => final(self)@.symbols.statics == old(self)@.symbols.statics,
            },
            declared is Some ==> is_static_typed(declared->0),
    {
        reveal(State::define_static);
        reveal(State::leads_to);
        self.report_all(&initializer.problems);
        match &initializer.value {
            None => None,
            Some(evaluated) => match self.lower_value(&evaluated.value, ty, evaluated.span) {
                None => None,
                Some(value) => self.add_static(declaration, ty, value),
            },
        }
    }

    /// A static is declared, with what was computed for its initializer.
    pub(crate) fn collect_static(
        &mut self,
        declaration: &StaticDeclaration<'a>,
        initializer: &Initializer<'a>,
    ) -> (declared: Option<Static<'a>>)
        ensures
            (final(self)@, declared) == old(self)@.collect_static(*declaration, *initializer),
            old(self)@.reaches(final(self)@),
            old(self)@.symbols.signatures == final(self)@.symbols.signatures,
            match declared {
                Some(value) => {
                    &&& value.id.0 == old(self)@.symbols.statics.count()
                    &&& final(self)@.symbols.statics.count() == old(self)@.symbols.statics.count() + 1
                },
                None => final(self)@.symbols.statics == old(self)@.symbols.statics,
            },
            declared is Some ==> is_static_typed(declared->0),
    {
        reveal(State::collect_static);
        reveal(State::leads_to);
        match self.static_type(declaration) {
            None => None,
            Some(ty) => self.define_static(declaration, ty, initializer),
        }
    }

    /// The statics are declared, with what was computed for each initializer in
    /// the order of the declarations.
    pub(crate) fn collect_statics(
        &mut self,
        items: &List<Item<'a>>,
        initializers: &List<Initializer<'a>>,
    ) -> (declared: List<Static<'a>>)
        ensures
            (final(self)@, declared) == old(self)@.collect_statics(*items, *initializers),
            old(self)@.reaches(final(self)@),
            old(self)@.symbols.signatures == final(self)@.symbols.signatures,
            old(self)@.symbols.statics is Nil ==> are_statics_numbered(declared@),
            are_statics_typed(declared@),
    {
        let mut ahead: &List<Item<'a>> = items;
        let mut current_initializers: List<Initializer<'a>> = initializers.share();
        let mut done: Vec<Static<'a>> = Vec::new();
        loop
            invariant
                old(self)@.collect_statics(*items, *initializers) == {
                    let (state, rest) = self@.collect_statics(*ahead, current_initializers);
                    (state, prepended(done@, rest))
                },
                old(self)@.reaches(self@),
                old(self)@.symbols.signatures == self@.symbols.signatures,
                old(self)@.symbols.statics is Nil ==> self@.symbols.statics.count() == done@.len()
                    && are_statics_numbered(prepended(done@, List::Nil)@),
                are_statics_typed(prepended(done@, List::Nil)@),
            decreases *ahead,
        {
            reveal(State::collect_statics);
            match ahead {
                List::Nil => {
                    return prepend(done, List::Nil);
                },
                List::Cons(node) => {
                    match &node.head {
                        Item::Static(declaration) => {
                            let first = match &current_initializers {
                                List::Nil => self.collect_static(
                                    &*declaration,
                                    &Initializer { value: None, problems: List::Nil },
                                ),
                                List::Cons(computed) => self.collect_static(
                                    &*declaration,
                                    &computed.head,
                                ),
                            };
                            current_initializers = without_first(&current_initializers);
                            match first {
                                Some(first) => {
                                    proof {
                                        pushed_statics_are_typed(done@, first);
                                        if are_statics_numbered(prepended(done@, List::Nil)@)
                                            && first.id.0 == done@.len() {
                                            pushed_statics_are_numbered(done@, first);
                                        }
                                    }
                                    done.push(first);
                                },
                                None => {
                                },
                            }
                        },
                        _ => {
                        },
                    }
                    ahead = &node.tail;
                },
            }
        }
    }
}

} // verus!

//! Finding out what generic parameters stand for.
//!
//! A written type is held against an actual one. Each generic parameter in the
//! written type is bound to what stands in its place, and everything else has
//! to agree.

use crate::ast::{
    lone_name, single_path_name, GenericArgument, GenericParameter, TypeName, TypeNameKind,
};
use crate::generics::{
    bind_const_argument, bind_type_argument, bind_type_pack_argument, bound, const_bound,
    const_inferred, declares_const, declares_type, find, generic_const_parameter,
    generic_type_parameter, infer_const_pattern, pack_bound, type_bound, Entry, Environment,
    GenericValue,
};
use crate::list::{cons, prepend, prepended, prepended_if_any, List};
use crate::registry::{IntrinsicType, TypeRegistry, Types};
use crate::text::same;
use crate::types::{named_primitive, primitive_type, Type};
use vstd::prelude::*;

verus! {

broadcast use crate::list::pushed_comes_first;

/// The entries without those of a name.
pub open spec fn without<V>(entries: List<Entry<V>>, name: Seq<char>) -> List<Entry<V>>
    decreases entries,
{
    match entries {
        List::Nil => List::Nil,
        List::Cons(node) => if node.head.name@ == name {
            without(node.tail, name)
        } else {
            cons(node.head, without(node.tail, name))
        },
    }
}

fn drop_entries<'a>(entries: &List<Entry<'a, Type>>, name: &str) -> (kept: List<Entry<'a, Type>>)
    ensures
        kept == without(*entries, name@),
{
    let mut ahead: &List<Entry<'a, Type>> = entries;
    let mut done: Vec<Entry<'a, Type>> = Vec::new();
    loop
        invariant
            without(*entries, name@) == prepended(done@, without(*ahead, name@)),
        decreases *ahead,
    {
        match ahead {
            List::Nil => {
                return prepend(done, List::Nil);
            },
            List::Cons(node) => {
                if same(node.head.name, name) {
                    ahead = &node.tail;
                } else {
                    done.push(Entry { name: node.head.name, value: node.head.value });
                    ahead = &node.tail;
                }
            },
        }
    }
}

/// The list behind its first elements.
pub open spec fn skipped<T>(list: List<T>, count: nat) -> List<T>
    decreases count,
{
    if count == 0 {
        list
    } else {
        match list {
            List::Nil => List::Nil,
            List::Cons(node) => skipped(node.tail, (count - 1) as nat),
        }
    }
}

fn skip<T>(list: &List<T>, count: u64) -> (rest: &List<T>)
    ensures
        *rest == skipped(*list, count as nat),
{
    let mut ahead: &List<T> = list;
    let mut left: u64 = count;
    loop
        invariant
            skipped(*list, count as nat) == skipped(*ahead, left as nat),
        decreases *ahead,
    {
        match ahead {
            List::Nil => {
                return ahead;
            },
            List::Cons(node) => {
                if left == 0 {
                    return ahead;
                }
                left = left - 1;
                ahead = &node.tail;
            },
        }
    }
}

/// The number of pack expansions among written types.
pub open spec fn expansions(patterns: List<TypeName>) -> nat
    decreases patterns,
{
    match patterns {
        List::Nil => 0,
        List::Cons(node) => (if *node.head.kind is PackExpansion {
            1nat
        } else {
            0nat
        }) + expansions(node.tail),
    }
}

/// Zero, one, or more pack expansions, the last counted as two.
fn count_expansions(patterns: &List<TypeName>) -> (count: u8)
    ensures
        count == (if expansions(*patterns) > 2 {
            2nat
        } else {
            expansions(*patterns)
        }),
{
    let mut ahead: &List<TypeName> = patterns;
    let mut count: u8 = 0;
    loop
        invariant
            count <= 2,
            (if expansions(*patterns) > 2 {
                2nat
            } else {
                expansions(*patterns)
            }) == (if count + expansions(*ahead) > 2 {
                2nat
            } else {
                (count + expansions(*ahead)) as nat
            }),
        decreases *ahead,
    {
        match ahead {
            List::Nil => {
                return count;
            },
            List::Cons(node) => {
                let here = match &*node.head.kind {
                    TypeNameKind::PackExpansion { .. } => true,
                    _ => false,
                };
                if here && count < 2 {
                    count = count + 1;
                }
                ahead = &node.tail;
            },
        }
    }
}

/// The number of pack expansions among generic arguments.
pub open spec fn pack_arguments(patterns: List<GenericArgument>) -> nat
    decreases patterns,
{
    match patterns {
        List::Nil => 0,
        List::Cons(node) => (if node.head is Pack {
            1nat
        } else {
            0nat
        }) + pack_arguments(node.tail),
    }
}

/// Zero, one, or more pack expansions, the last counted as two.
fn count_pack_arguments(patterns: &List<GenericArgument>) -> (count: u8)
    ensures
        count == (if pack_arguments(*patterns) > 2 {
            2nat
        } else {
            pack_arguments(*patterns)
        }),
{
    let mut ahead: &List<GenericArgument> = patterns;
    let mut count: u8 = 0;
    loop
        invariant
            count <= 2,
            (if pack_arguments(*patterns) > 2 {
                2nat
            } else {
                pack_arguments(*patterns)
            }) == (if count + pack_arguments(*ahead) > 2 {
                2nat
            } else {
                (count + pack_arguments(*ahead)) as nat
            }),
        decreases *ahead,
    {
        match ahead {
            List::Nil => {
                return count;
            },
            List::Cons(node) => {
                let here = match &node.head {
                    GenericArgument::Pack { .. } => true,
                    _ => false,
                };
                if here && count < 2 {
                    count = count + 1;
                }
                ahead = &node.tail;
            },
        }
    }
}

impl<'a> Types<'a> {
    /// The type of a name: what it is bound to, else the primitive type, else
    /// the declared type.
    pub open spec fn named(self, environment: Environment<'a>, name: Seq<char>) -> Option<Type> {
        match bound(environment.types, name) {
            Some(ty) => Some(ty),
            None => match named_primitive(self.platform, name) {
                Some(ty) => Some(ty),
                None => bound(self.names, name),
            },
        }
    }
}

/// Holds a written type against an actual one: the bindings then, and whether
/// the two agree.
pub open spec fn inferred<'a>(
    types: Types<'a>,
    pattern: TypeName<'a>,
    actual: Type,
    parameters: List<GenericParameter<'a>>,
    environment: Environment<'a>,
) -> (Environment<'a>, bool)
    decreases pattern, 0nat,
{
    match *pattern.kind {
        TypeNameKind::Function { parameters: patterns, return_type } => match types.function_shape(
            actual,
        ) {
            None => (environment, false),
            Some((actual_parameters, actual_return)) => {
                let (environment, agrees) = sequence_inferred(
                    types,
                    patterns,
                    actual_parameters,
                    parameters,
                    environment,
                );
                if agrees {
                    inferred(types, return_type, actual_return, parameters, environment)
                } else {
                    (environment, false)
                }
            },
        },
        TypeNameKind::Unit => (environment, actual is Unit),
        TypeNameKind::Path(path) => match lone_name(path) {
            None => (environment, false),
            Some(name) => if declares_type(parameters, name@) {
                type_bound(environment, name, actual)
            } else {
                (environment, types.named(environment, name@) == Some(actual))
            },
        },
        TypeNameKind::Reference { mutable, target } => match *target.kind {
            TypeNameKind::Slice(element) => match types.slice_shape(actual) {
                Some((actual_element, actual_mutable)) if mutable == actual_mutable => inferred(
                    types,
                    element,
                    actual_element,
                    parameters,
                    environment,
                ),
                _ => (environment, false),
            },
            _ => match types.pointer_shape(actual) {
                Some((actual_target, actual_mutable, raw)) if !raw && mutable == actual_mutable =>
                inferred(types, target, actual_target, parameters, environment),
                _ => (environment, false),
            },
        },
        TypeNameKind::RawPointer { mutable, target } => match types.pointer_shape(actual) {
            Some((actual_target, actual_mutable, raw)) if raw && mutable == actual_mutable =>
            inferred(types, target, actual_target, parameters, environment),
            _ => (environment, false),
        },
        TypeNameKind::Slice(element) => match types.slice_shape(actual) {
            Some((actual_element, _)) => inferred(
                types,
                element,
                actual_element,
                parameters,
                environment,
            ),
            None => (environment, false),
        },
        TypeNameKind::Tuple(elements) => match types.tuple_shape(actual) {
            Some(actual_elements) => sequence_inferred(
                types,
                elements,
                actual_elements,
                parameters,
                environment,
            ),
            None => (environment, false),
        },
        TypeNameKind::Array { element, length } => match types.array_shape(actual) {
            Some((actual_element, actual_length)) => {
                let (environment, agrees) = inferred(
                    types,
                    element,
                    actual_element,
                    parameters,
                    environment,
                );
                if agrees {
                    const_inferred(length, actual_length, parameters, environment)
                } else {
                    (environment, false)
                }
            },
            None => (environment, false),
        },
        TypeNameKind::Generic { path, arguments } => match lone_name(path) {
            None => (environment, false),
            Some(name) => if name@ == "Option"@ {
                match (types.intrinsic(actual), arguments) {
                    (Some(IntrinsicType::Option { value }), List::Cons(node)) => match node.head {
                        GenericArgument::Type(argument) if node.tail is Nil => inferred(
                            types,
                            argument,
                            value,
                            parameters,
                            environment,
                        ),
                        _ => (environment, false),
                    },
                    _ => (environment, false),
                }
            } else if name@ == "Result"@ {
                match (types.intrinsic(actual), arguments) {
                    (Some(IntrinsicType::Result { success, error }), List::Cons(first)) =>
                    match (first.head, first.tail) {
                        (GenericArgument::Type(success_pattern), List::Cons(second)) =>
                        match second.head {
                            GenericArgument::Type(error_pattern) if second.tail is Nil => {
                                let (environment, agrees) = inferred(
                                    types,
                                    success_pattern,
                                    success,
                                    parameters,
                                    environment,
                                );
                                if agrees {
                                    inferred(types, error_pattern, error, parameters, environment)
                                } else {
                                    (environment, false)
                                }
                            },
                            _ => (environment, false),
                        },
                        _ => (environment, false),
                    },
                    _ => (environment, false),
                }
            } else {
                match types.generic_instance(actual) {
                    Some((base_name, values)) if base_name@ == name@ => arguments_inferred(
                        types,
                        arguments,
                        values,
                        parameters,
                        environment,
                    ),
                    _ => (environment, false),
                }
            },
        },
        TypeNameKind::PackExpansion { .. } => (environment, false),
    }
}

/// Holds written types against actual ones. At most one pack expansion may
/// stand among them; it takes what the others leave.
pub open spec fn sequence_inferred<'a>(
    types: Types<'a>,
    patterns: List<TypeName<'a>>,
    actual: List<Type>,
    parameters: List<GenericParameter<'a>>,
    environment: Environment<'a>,
) -> (Environment<'a>, bool)
    decreases patterns, 1nat,
{
    let expansions = expansions(patterns);
    if expansions == 0 && patterns.count() == actual.count() {
        pairs_inferred(types, patterns, actual, 0, parameters, environment)
    } else if expansions == 1 && patterns.count() - 1 <= actual.count() {
        pairs_inferred(
            types,
            patterns,
            actual,
            (actual.count() - (patterns.count() - 1)) as nat,
            parameters,
            environment,
        )
    } else {
        (environment, false)
    }
}

/// Holds written types against actual ones in order; a pack expansion takes
/// `pack` of them.
pub open spec fn pairs_inferred<'a>(
    types: Types<'a>,
    patterns: List<TypeName<'a>>,
    actual: List<Type>,
    pack: nat,
    parameters: List<GenericParameter<'a>>,
    environment: Environment<'a>,
) -> (Environment<'a>, bool)
    decreases patterns, 0nat,
{
    match patterns {
        List::Nil => (environment, true),
        List::Cons(node) => match *node.head.kind {
            TypeNameKind::PackExpansion { pack: name, template } => {
                let found = match template {
                    Some(template) => templates_inferred(
                        types,
                        template,
                        name.name@,
                        actual,
                        pack,
                        parameters,
                        environment,
                    ),
                    None => Some(first_types(actual, pack)),
                };
                match found {
                    None => (environment, false),
                    Some(found) => {
                        let (environment, agrees) = pack_bound(environment, name.name, found);
                        if agrees {
                            pairs_inferred(
                                types,
                                node.tail,
                                skipped(actual, pack),
                                pack,
                                parameters,
                                environment,
                            )
                        } else {
                            (environment, false)
                        }
                    },
                }
            },
            _ => match actual {
                List::Nil => (environment, true),
                List::Cons(first) => {
                    let (environment, agrees) = inferred(
                        types,
                        node.head,
                        first.head,
                        parameters,
                        environment,
                    );
                    if agrees {
                        pairs_inferred(
                            types,
                            node.tail,
                            first.tail,
                            pack,
                            parameters,
                            environment,
                        )
                    } else {
                        (environment, false)
                    }
                },
            },
        },
    }
}

/// What the name of a pack stands for in each of the first types, by the
/// template of its expansion.
pub open spec fn templates_inferred<'a>(
    types: Types<'a>,
    template: TypeName<'a>,
    name: Seq<char>,
    actual: List<Type>,
    count: nat,
    parameters: List<GenericParameter<'a>>,
    environment: Environment<'a>,
) -> Option<List<Type>>
    decreases template, count + 1,
{
    if count == 0 {
        Some(List::Nil)
    } else {
        match actual {
            List::Nil => Some(List::Nil),
            List::Cons(node) => {
                let inner = Environment {
                    types: without(environment.types, name),
                    ..environment
                };
                let (inner, agrees) = inferred(types, template, node.head, parameters, inner);
                match bound(inner.types, name) {
                    Some(found) if agrees => match templates_inferred(
                        types,
                        template,
                        name,
                        node.tail,
                        (count - 1) as nat,
                        parameters,
                        environment,
                    ) {
                        Some(rest) => Some(cons(found, rest)),
                        None => None,
                    },
                    _ => None,
                }
            },
        }
    }
}

/// The first types of a list.
pub open spec fn first_types(types: List<Type>, count: nat) -> List<Type>
    decreases count,
{
    if count == 0 {
        List::Nil
    } else {
        match types {
            List::Nil => List::Nil,
            List::Cons(node) => cons(node.head, first_types(node.tail, (count - 1) as nat)),
        }
    }
}

/// Holds generic arguments against actual ones, as `sequence_inferred` does
/// with types.
pub open spec fn arguments_inferred<'a>(
    types: Types<'a>,
    patterns: List<GenericArgument<'a>>,
    actual: List<GenericValue>,
    parameters: List<GenericParameter<'a>>,
    environment: Environment<'a>,
) -> (Environment<'a>, bool)
    decreases patterns, 1nat,
{
    let expansions = pack_arguments(patterns);
    if expansions == 0 && patterns.count() == actual.count() {
        argument_pairs_inferred(types, patterns, actual, 0, parameters, environment)
    } else if expansions == 1 && patterns.count() - 1 <= actual.count() {
        argument_pairs_inferred(
            types,
            patterns,
            actual,
            (actual.count() - (patterns.count() - 1)) as nat,
            parameters,
            environment,
        )
    } else {
        (environment, false)
    }
}

/// Holds generic arguments against actual ones in order; a pack expansion
/// takes `pack` of them.
pub open spec fn argument_pairs_inferred<'a>(
    types: Types<'a>,
    patterns: List<GenericArgument<'a>>,
    actual: List<GenericValue>,
    pack: nat,
    parameters: List<GenericParameter<'a>>,
    environment: Environment<'a>,
) -> (Environment<'a>, bool)
    decreases patterns, 0nat,
{
    match patterns {
        List::Nil => (environment, true),
        List::Cons(node) => match node.head {
            GenericArgument::Pack { pack: name, template, .. } => {
                let found = match first_type_values(actual, pack) {
                    None => None,
                    Some(pack_types) => match template {
                        Some(template) => templates_inferred(
                            types,
                            template,
                            name.name@,
                            pack_types,
                            pack,
                            parameters,
                            environment,
                        ),
                        None => Some(pack_types),
                    },
                };
                match found {
                    None => (environment, false),
                    Some(found) => {
                        let (environment, agrees) = pack_bound(environment, name.name, found);
                        if agrees {
                            argument_pairs_inferred(
                                types,
                                node.tail,
                                skipped(actual, pack),
                                pack,
                                parameters,
                                environment,
                            )
                        } else {
                            (environment, false)
                        }
                    },
                }
            },
            _ => match actual {
                List::Nil => (environment, true),
                List::Cons(first) => {
                    let (environment, agrees) = argument_inferred(
                        types,
                        node.head,
                        first.head,
                        parameters,
                        environment,
                    );
                    if agrees {
                        argument_pairs_inferred(
                            types,
                            node.tail,
                            first.tail,
                            pack,
                            parameters,
                            environment,
                        )
                    } else {
                        (environment, false)
                    }
                },
            },
        },
    }
}

/// The first values of a list, if all of them are types.
pub open spec fn first_type_values(values: List<GenericValue>, count: nat) -> Option<List<Type>>
    decreases count,
{
    if count == 0 {
        Some(List::Nil)
    } else {
        match values {
            List::Nil => Some(List::Nil),
            List::Cons(node) => match (
                node.head,
                first_type_values(node.tail, (count - 1) as nat),
            ) {
                (GenericValue::Type(ty), Some(rest)) => Some(cons(ty, rest)),
                _ => None,
            },
        }
    }
}

/// Holds one generic argument against an actual one.
pub open spec fn argument_inferred<'a>(
    types: Types<'a>,
    argument: GenericArgument<'a>,
    actual: GenericValue,
    parameters: List<GenericParameter<'a>>,
    environment: Environment<'a>,
) -> (Environment<'a>, bool)
    decreases argument, 0nat,
{
    match (argument, actual) {
        (GenericArgument::Type(pattern), GenericValue::Type(actual)) => inferred(
            types,
            pattern,
            actual,
            parameters,
            environment,
        ),
        (GenericArgument::Const(pattern), GenericValue::Const(actual)) => const_inferred(
            pattern,
            actual,
            parameters,
            environment,
        ),
        (GenericArgument::Type(pattern), GenericValue::Const(actual)) => match *pattern.kind {
            TypeNameKind::Path(path) if lone_name(path) is Some && declares_const(
                parameters,
                lone_name(path)->0@,
            ) => const_bound(environment, lone_name(path)->0, actual),
            _ => (environment, false),
        },
        _ => (environment, false),
    }
}

fn first_of_types(types: &List<Type>, count: u64) -> (first: List<Type>)
    ensures
        first == first_types(*types, count as nat),
{
    let mut ahead: &List<Type> = types;
    let mut left: u64 = count;
    let mut done: Vec<Type> = Vec::new();
    loop
        invariant
            first_types(*types, count as nat) == prepended(
                done@,
                first_types(*ahead, left as nat),
            ),
        decreases *ahead,
    {
        match ahead {
            List::Nil => {
                return prepend(done, List::Nil);
            },
            List::Cons(node) => {
                if left == 0 {
                    return prepend(done, List::Nil);
                }
                done.push(node.head);
                left = left - 1;
                ahead = &node.tail;
            },
        }
    }
}

fn first_of_values(values: &List<GenericValue>, count: u64) -> (first: Option<List<Type>>)
    ensures
        first == first_type_values(*values, count as nat),
{
    let mut ahead: &List<GenericValue> = values;
    let mut left: u64 = count;
    let mut done: Vec<Type> = Vec::new();
    loop
        invariant
            first_type_values(*values, count as nat) == prepended_if_any(
                done@,
                first_type_values(*ahead, left as nat),
            ),
        decreases *ahead,
    {
        match ahead {
            List::Nil => {
                return Some(prepend(done, List::Nil));
            },
            List::Cons(node) => {
                if left == 0 {
                    return Some(prepend(done, List::Nil));
                }
                match node.head {
                    GenericValue::Type(ty) => {
                        done.push(ty);
                        left = left - 1;
                        ahead = &node.tail;
                    },
                    GenericValue::Const(_) => {
                        return None;
                    },
                }
            },
        }
    }
}

impl<'a> Types<'a> {
    /// The bindings under which a written type stands for an actual one, and
    /// whether there are any.
    #[verifier::opaque]
    pub open spec fn infer(
        self,
        pattern: TypeName<'a>,
        actual: Type,
        parameters: List<GenericParameter<'a>>,
        environment: Environment<'a>,
    ) -> (Environment<'a>, bool) {
        inferred(self, pattern, actual, parameters, environment)
    }
}

impl<'a> TypeRegistry<'a> {
    /// The type of a name: what it is bound to, else the primitive type, else
    /// the declared type.
    pub fn find_named(&self, environment: &Environment<'a>, name: &str) -> (ty: Option<Type>)
        ensures
            ty == self@.named(*environment, name@),
    {
        if let Some(ty) = find(&environment.types, name) {
            return Some(*ty);
        }
        if let Some(ty) = primitive_type(self.platform, name) {
            return Some(ty);
        }
        match find(&self.names, name) {
            Some(ty) => Some(*ty),
            None => None,
        }
    }

    /// The bindings under which a written type stands for an actual one, and
    /// whether there are any.
    pub fn infer(
        &self,
        pattern: &TypeName<'a>,
        actual: Type,
        parameters: &List<GenericParameter<'a>>,
        environment: Environment<'a>,
    ) -> (result: (Environment<'a>, bool))
        ensures
            result == self@.infer(*pattern, actual, *parameters, environment),
    {
        reveal(Types::infer);
        let mut bindings = environment;
        let agrees = self.infer_type_pattern(pattern, actual, parameters, &mut bindings);
        (bindings, agrees)
    }

    /// Holds a written type against an actual one, and binds the generic
    /// parameters in it.
    pub fn infer_type_pattern(
        &self,
        pattern: &TypeName<'a>,
        actual: Type,
        parameters: &List<GenericParameter<'a>>,
        environment: &mut Environment<'a>,
    ) -> (agrees: bool)
        ensures
            (*final(environment), agrees) == inferred(
                self@,
                *pattern,
                actual,
                *parameters,
                *old(environment),
            ),
        decreases *pattern, 0nat,
    {
        match &*pattern.kind {
            TypeNameKind::Function { parameters: patterns, return_type } => {
                match self.function_shape(actual) {
                    None => false,
                    Some((actual_parameters, actual_return)) => self.infer_type_sequence(
                        patterns,
                        &actual_parameters,
                        parameters,
                        environment,
                    ) && self.infer_type_pattern(
                        return_type,
                        actual_return,
                        parameters,
                        environment,
                    ),
                }
            },
            TypeNameKind::Unit => actual == Type::Unit,
            TypeNameKind::Path(path) => match single_path_name(path) {
                None => false,
                Some(name) => if generic_type_parameter(parameters, name) {
                    bind_type_argument(environment, name, actual)
                } else {
                    match self.find_named(environment, name) {
                        Some(expected) => expected == actual,
                        None => false,
                    }
                },
            },
            TypeNameKind::Reference { mutable, target } => match &*target.kind {
                TypeNameKind::Slice(element) => match self.slice_shape(actual) {
                    Some((actual_element, actual_mutable)) => *mutable == actual_mutable
                        && self.infer_type_pattern(
                        element,
                        actual_element,
                        parameters,
                        environment,
                    ),
                    None => false,
                },
                _ => match self.pointer_shape(actual) {
                    Some((actual_target, actual_mutable, raw)) => !raw && *mutable == actual_mutable
                        && self.infer_type_pattern(target, actual_target, parameters, environment),
                    None => false,
                },
            },
            TypeNameKind::RawPointer { mutable, target } => match self.pointer_shape(actual) {
                Some((actual_target, actual_mutable, raw)) => raw && *mutable == actual_mutable
                    && self.infer_type_pattern(target, actual_target, parameters, environment),
                None => false,
            },
            TypeNameKind::Slice(element) => match self.slice_shape(actual) {
                Some((actual_element, _)) => self.infer_type_pattern(
                    element,
                    actual_element,
                    parameters,
                    environment,
                ),
                None => false,
            },
            TypeNameKind::Tuple(elements) => match self.tuple_shape(actual) {
                Some(actual_elements) => self.infer_type_sequence(
                    elements,
                    &actual_elements,
                    parameters,
                    environment,
                ),
                None => false,
            },
            TypeNameKind::Array { element, length } => match self.array_shape(actual) {
                Some((actual_element, actual_length)) => self.infer_type_pattern(
                    element,
                    actual_element,
                    parameters,
                    environment,
                ) && infer_const_pattern(length, actual_length, parameters, environment),
                None => false,
            },
            TypeNameKind::Generic { path, arguments } => match single_path_name(path) {
                None => false,
                Some(name) => if same(name, "Option") {
                    match (self.intrinsic(actual), arguments) {
                        (Some(IntrinsicType::Option { value }), List::Cons(node)) =>
                        match &node.head {
                            GenericArgument::Type(argument) => node.tail.is_empty()
                                && self.infer_type_pattern(
                                argument,
                                value,
                                parameters,
                                environment,
                            ),
                            _ => false,
                        },
                        _ => false,
                    }
                } else if same(name, "Result") {
                    match (self.intrinsic(actual), arguments) {
                        (Some(IntrinsicType::Result { success, error }), List::Cons(first)) =>
                        match (&first.head, &first.tail) {
                            (GenericArgument::Type(success_pattern), List::Cons(second)) =>
                            match &second.head {
                                GenericArgument::Type(error_pattern) => second.tail.is_empty()
                                    && self.infer_type_pattern(
                                    success_pattern,
                                    success,
                                    parameters,
                                    environment,
                                ) && self.infer_type_pattern(
                                    error_pattern,
                                    error,
                                    parameters,
                                    environment,
                                ),
                                _ => false,
                            },
                            _ => false,
                        },
                        _ => false,
                    }
                } else {
                    match self.generic_instance(actual) {
                        Some((base_name, values)) => same(base_name, name)
                            && self.infer_generic_argument_sequence(
                            arguments,
                            &values,
                            parameters,
                            environment,
                        ),
                        None => false,
                    }
                },
            },
            TypeNameKind::PackExpansion { .. } => false,
        }
    }

    /// Holds written types against actual ones.
    pub fn infer_type_sequence(
        &self,
        patterns: &List<TypeName<'a>>,
        actual: &List<Type>,
        parameters: &List<GenericParameter<'a>>,
        environment: &mut Environment<'a>,
    ) -> (agrees: bool)
        ensures
            (*final(environment), agrees) == sequence_inferred(
                self@,
                *patterns,
                *actual,
                *parameters,
                *old(environment),
            ),
        decreases *patterns, 1nat,
    {
        let expansions: u8 = count_expansions(patterns);
        let written: u64 = patterns.count();
        let given: u64 = actual.count();
        if expansions == 0 {
            written == given && self.infer_type_pairs(patterns, actual, 0, parameters, environment)
        } else if expansions == 1 && (written == 0 || written - 1 <= given) {
            proof {
                assert(written > 0);
            }
            self.infer_type_pairs(
                patterns,
                actual,
                given - (written - 1),
                parameters,
                environment,
            )
        } else {
            false
        }
    }

    fn infer_type_pairs(
        &self,
        patterns: &List<TypeName<'a>>,
        actual: &List<Type>,
        pack: u64,
        parameters: &List<GenericParameter<'a>>,
        environment: &mut Environment<'a>,
    ) -> (agrees: bool)
        ensures
            (*final(environment), agrees) == pairs_inferred(
                self@,
                *patterns,
                *actual,
                pack as nat,
                *parameters,
                *old(environment),
            ),
        decreases *patterns, 0nat,
    {
        let mut ahead: &List<TypeName<'a>> = patterns;
        let mut current_actual: &List<Type> = actual;
        loop
            invariant
                pairs_inferred(
                    self@,
                    *patterns,
                    *actual,
                    pack as nat,
                    *parameters,
                    *old(environment),
                ) == pairs_inferred(
                    self@,
                    *ahead,
                    *current_actual,
                    pack as nat,
                    *parameters,
                    *environment,
                ),
                *ahead == *patterns || decreases_to!(*patterns => *ahead),
            decreases *ahead,
        {
            match ahead {
                List::Nil => {
                    return true;
                },
                List::Cons(node) => {
                    match &*node.head.kind {
                        TypeNameKind::PackExpansion { pack: name, template } => {
                            let found = match template {
                                Some(template) => self.infer_templates(
                                    template,
                                    name.name,
                                    current_actual,
                                    pack,
                                    parameters,
                                    environment,
                                ),
                                None => Some(first_of_types(current_actual, pack)),
                            };
                            match found {
                                None => {
                                    return false;
                                },
                                Some(found) => {
                                    if !bind_type_pack_argument(environment, name.name, found) {
                                        return false;
                                    }
                                    current_actual = skip(current_actual, pack);
                                    ahead = &node.tail;
                                },
                            }
                        },
                        _ => {
                            match current_actual {
                                List::Nil => {
                                    return true;
                                },
                                List::Cons(first) => {
                                    if !self.infer_type_pattern(
                                        &node.head,
                                        first.head,
                                        parameters,
                                        environment,
                                    ) {
                                        return false;
                                    }
                                    current_actual = &first.tail;
                                    ahead = &node.tail;
                                },
                            }
                        },
                    }
                },
            }
        }
    }

    fn infer_templates(
        &self,
        template: &TypeName<'a>,
        name: &str,
        actual: &List<Type>,
        count: u64,
        parameters: &List<GenericParameter<'a>>,
        environment: &Environment<'a>,
    ) -> (found: Option<List<Type>>)
        ensures
            found == templates_inferred(
                self@,
                *template,
                name@,
                *actual,
                count as nat,
                *parameters,
                *environment,
            ),
        decreases *template, count + 1,
    {
        let mut ahead: &List<Type> = actual;
        let mut left: u64 = count;
        let mut done: Vec<Type> = Vec::new();
        loop
            invariant
                left <= count,
                templates_inferred(
                    self@,
                    *template,
                    name@,
                    *actual,
                    count as nat,
                    *parameters,
                    *environment,
                ) == prepended_if_any(
                    done@,
                    templates_inferred(
                        self@,
                        *template,
                        name@,
                        *ahead,
                        left as nat,
                        *parameters,
                        *environment,
                    ),
                ),
            decreases *ahead,
        {
            match ahead {
                List::Nil => {
                    return Some(prepend(done, List::Nil));
                },
                List::Cons(node) => {
                    if left == 0 {
                        return Some(prepend(done, List::Nil));
                    }
                    let mut inner = Environment {
                        types: drop_entries(&environment.types, name),
                        type_packs: environment.type_packs.share(),
                        constants: environment.constants.share(),
                    };
                    if !self.infer_type_pattern(template, node.head, parameters, &mut inner) {
                        return None;
                    }
                    match find(&inner.types, name) {
                        Some(found) => {
                            done.push(*found);
                            left = left - 1;
                            ahead = &node.tail;
                        },
                        None => {
                            return None;
                        },
                    }
                },
            }
        }
    }

    fn infer_generic_argument_sequence(
        &self,
        patterns: &List<GenericArgument<'a>>,
        actual: &List<GenericValue>,
        parameters: &List<GenericParameter<'a>>,
        environment: &mut Environment<'a>,
    ) -> (agrees: bool)
        ensures
            (*final(environment), agrees) == arguments_inferred(
                self@,
                *patterns,
                *actual,
                *parameters,
                *old(environment),
            ),
        decreases *patterns, 1nat,
    {
        let expansions: u8 = count_pack_arguments(patterns);
        let written: u64 = patterns.count();
        let given: u64 = actual.count();
        if expansions == 0 {
            written == given && self.infer_argument_pairs(
                patterns,
                actual,
                0,
                parameters,
                environment,
            )
        } else if expansions == 1 && (written == 0 || written - 1 <= given) {
            proof {
                assert(written > 0);
            }
            self.infer_argument_pairs(
                patterns,
                actual,
                given - (written - 1),
                parameters,
                environment,
            )
        } else {
            false
        }
    }

    fn infer_argument_pairs(
        &self,
        patterns: &List<GenericArgument<'a>>,
        actual: &List<GenericValue>,
        pack: u64,
        parameters: &List<GenericParameter<'a>>,
        environment: &mut Environment<'a>,
    ) -> (agrees: bool)
        ensures
            (*final(environment), agrees) == argument_pairs_inferred(
                self@,
                *patterns,
                *actual,
                pack as nat,
                *parameters,
                *old(environment),
            ),
        decreases *patterns, 0nat,
    {
        let mut ahead: &List<GenericArgument<'a>> = patterns;
        let mut current_actual: &List<GenericValue> = actual;
        loop
            invariant
                argument_pairs_inferred(
                    self@,
                    *patterns,
                    *actual,
                    pack as nat,
                    *parameters,
                    *old(environment),
                ) == argument_pairs_inferred(
                    self@,
                    *ahead,
                    *current_actual,
                    pack as nat,
                    *parameters,
                    *environment,
                ),
                *ahead == *patterns || decreases_to!(*patterns => *ahead),
            decreases *ahead,
        {
            match ahead {
                List::Nil => {
                    return true;
                },
                List::Cons(node) => {
                    match &node.head {
                        GenericArgument::Pack { pack: name, template, .. } => {
                            let found = match first_of_values(current_actual, pack) {
                                None => None,
                                Some(pack_types) => match template {
                                    Some(template) => self.infer_templates(
                                        template,
                                        name.name,
                                        &pack_types,
                                        pack,
                                        parameters,
                                        environment,
                                    ),
                                    None => Some(pack_types),
                                },
                            };
                            match found {
                                None => {
                                    return false;
                                },
                                Some(found) => {
                                    if !bind_type_pack_argument(environment, name.name, found) {
                                        return false;
                                    }
                                    current_actual = skip(current_actual, pack);
                                    ahead = &node.tail;
                                },
                            }
                        },
                        _ => {
                            match current_actual {
                                List::Nil => {
                                    return true;
                                },
                                List::Cons(first) => {
                                    if !self.infer_generic_argument(
                                        &node.head,
                                        first.head,
                                        parameters,
                                        environment,
                                    ) {
                                        return false;
                                    }
                                    current_actual = &first.tail;
                                    ahead = &node.tail;
                                },
                            }
                        },
                    }
                },
            }
        }
    }

    fn infer_generic_argument(
        &self,
        argument: &GenericArgument<'a>,
        actual: GenericValue,
        parameters: &List<GenericParameter<'a>>,
        environment: &mut Environment<'a>,
    ) -> (agrees: bool)
        ensures
            (*final(environment), agrees) == argument_inferred(
                self@,
                *argument,
                actual,
                *parameters,
                *old(environment),
            ),
        decreases *argument, 0nat,
    {
        match (argument, actual) {
            (GenericArgument::Type(pattern), GenericValue::Type(actual)) => {
                self.infer_type_pattern(pattern, actual, parameters, environment)
            },
            (GenericArgument::Const(pattern), GenericValue::Const(actual)) => infer_const_pattern(
                pattern,
                actual,
                parameters,
                environment,
            ),
            (GenericArgument::Type(pattern), GenericValue::Const(actual)) => match &*pattern.kind {
                TypeNameKind::Path(path) => match single_path_name(path) {
                    Some(name) => generic_const_parameter(parameters, name) && bind_const_argument(
                        environment,
                        name,
                        actual,
                    ),
                    None => false,
                },
                _ => false,
            },
            _ => false,
        }
    }
}

} // verus!

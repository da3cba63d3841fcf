//! Instances of generic functions.

use crate::analyzer::calling::instance_types_are_as_many;
use crate::analyzer::growth::{awaits, is_instance};
use crate::analyzer::numbering::instance_bears_next;
use crate::analyzer::{
    Analyzer, FunctionInstance, GenericFunctionTemplate, PendingFunction, Signature, State,
    Symbols,
};
use crate::ast::{self, GenericArgument, GenericParameter, Parameter, TypeName, WherePredicate};
use crate::generics::{bound, find, same_values, Environment, GenericValue};
use crate::hir::FunctionId;
use crate::list::{append, cons, extend, prepend, prepended, share, single, List};
use crate::registry::capability::{as_type_values, type_values};
use crate::registry::naming::{collect_only_types, only_types};
use crate::span::{error, helped, Span};
use crate::text::{characters, joined, number, reads_alike, words, words3, Piece, Text};
use crate::types::Type;
use vstd::prelude::*;

verus! {

broadcast use {
    crate::analyzer::growth::group_led,
    crate::analyzer::numbering::group_numbered,
    crate::analyzer::sparing::group_spared,
    crate::list::pushed_comes_first,
    crate::registry::growth::group_grown,
    crate::span::group_kept,
};

/// The parameters behind the first ones.
#[verifier::opaque]
pub open spec fn spec_parameters_from<'a>(
    parameters: List<GenericParameter<'a>>,
    start: u64,
) -> List<GenericParameter<'a>>
    decreases parameters,
{
    match parameters {
        List::Nil => List::Nil,
        List::Cons(node) => if start == 0 {
            parameters
        } else {
            spec_parameters_from(node.tail, start.saturating_sub(1))
        },
    }
}

/// The parameters behind the first ones.
pub(crate) fn parameters_from<'a>(
    parameters: &List<GenericParameter<'a>>,
    start: u64,
) -> (rest: List<GenericParameter<'a>>)
    ensures
        rest == spec_parameters_from(*parameters, start),
{
    let mut ahead: &List<GenericParameter<'a>> = parameters;
    let mut current_start: u64 = start;
    loop
        invariant
            spec_parameters_from(*parameters, start) == spec_parameters_from(*ahead, current_start),
        decreases *ahead,
    {
        reveal(spec_parameters_from);
        match ahead {
            List::Nil => {
                return List::Nil;
            },
            List::Cons(node) => {
                if current_start == 0 {
                    return ahead.share();
                } else {
                    current_start = current_start.saturating_sub(1);
                    ahead = &node.tail;
                }
            },
        }
    }
}

/// Whether a pack is among the parameters.
#[verifier::opaque]
pub open spec fn spec_includes_pack<'a>(parameters: List<GenericParameter<'a>>) -> bool
    decreases parameters,
{
    match parameters {
        List::Nil => false,
        List::Cons(node) => (match node.head {
            GenericParameter::TypePack { .. } => true,
            _ => false,
        }) || spec_includes_pack(node.tail),
    }
}

/// Whether a pack is among the parameters.
pub(crate) fn includes_pack<'a>(parameters: &List<GenericParameter<'a>>) -> (answer: bool)
    ensures
        answer == spec_includes_pack(*parameters),
{
    let mut ahead: &List<GenericParameter<'a>> = parameters;
    loop
        invariant
            spec_includes_pack(*parameters) == spec_includes_pack(*ahead),
        decreases *ahead,
    {
        reveal(spec_includes_pack);
        match ahead {
            List::Nil => {
                return false;
            },
            List::Cons(node) => {
                if match &node.head {
                    GenericParameter::TypePack { .. } => true,
                    _ => false,
                } {
                    return true;
                }
                ahead = &node.tail;
            },
        }
    }
}

/// The type that a parameter stands for.
#[verifier::opaque]
pub open spec fn spec_bound_type<'a>(environment: Environment<'a>, name: &str) -> Option<Type> {
    match bound(environment.types, name@) {
        Some(ty) => Some(ty),
        None => None,
    }
}

/// The type that a parameter stands for.
pub(crate) fn bound_type<'a>(environment: &Environment<'a>, name: &str) -> (ty: Option<Type>)
    ensures
        ty == spec_bound_type(*environment, name),
{
    reveal(spec_bound_type);
    match find(&environment.types, name) {
        Some(ty) => Some(*ty),
        None => None,
    }
}

/// The types that a pack stands for.
#[verifier::opaque]
pub open spec fn spec_bound_pack<'a>(environment: Environment<'a>, name: &str) -> Option<List<Type>> {
    match bound(environment.type_packs, name@) {
        Some(types) => Some(types),
        None => None,
    }
}

/// The types that a pack stands for.
pub(crate) fn bound_pack<'a>(
    environment: &Environment<'a>,
    name: &str,
) -> (types: Option<List<Type>>)
    ensures
        types == spec_bound_pack(*environment, name),
{
    reveal(spec_bound_pack);
    match find(&environment.type_packs, name) {
        Some(types) => Some(types.share()),
        None => None,
    }
}

/// The number that a parameter stands for.
#[verifier::opaque]
pub open spec fn spec_bound_constant<'a>(environment: Environment<'a>, name: &str) -> Option<u64> {
    match bound(environment.constants, name@) {
        Some(value) => Some(value),
        None => None,
    }
}

/// The number that a parameter stands for.
pub(crate) fn bound_constant<'a>(environment: &Environment<'a>, name: &str) -> (value: Option<u64>)
    ensures
        value == spec_bound_constant(*environment, name),
{
    reveal(spec_bound_constant);
    match find(&environment.constants, name) {
        Some(value) => Some(*value),
        None => None,
    }
}

/// The lengths of the packs of a generic function.
#[verifier::opaque]
pub open spec fn spec_pack_lengths<'a>(
    parameters: List<GenericParameter<'a>>,
    environment: Environment<'a>,
) -> List<u64>
    decreases parameters,
{
    match parameters {
        List::Nil => List::Nil,
        List::Cons(node) => match node.head {
            GenericParameter::TypePack { name, .. } => cons(
                match bound(environment.type_packs, name.name@) {
                    Some(types) => types.count(),
                    None => 0,
                },
                spec_pack_lengths(node.tail, environment),
            ),
            _ => spec_pack_lengths(node.tail, environment),
        },
    }
}

/// The lengths of the packs of a generic function.
pub(crate) fn pack_lengths<'a>(
    parameters: &List<GenericParameter<'a>>,
    environment: &Environment<'a>,
) -> (lengths: List<u64>)
    ensures
        lengths == spec_pack_lengths(*parameters, *environment),
{
    let mut ahead: &List<GenericParameter<'a>> = parameters;
    let mut done: Vec<u64> = Vec::new();
    loop
        invariant
            spec_pack_lengths(*parameters, *environment) == prepended(
                done@,
                spec_pack_lengths(*ahead, *environment),
            ),
        decreases *ahead,
    {
        reveal(spec_pack_lengths);
        match ahead {
            List::Nil => {
                return prepend(done, List::Nil);
            },
            List::Cons(node) => {
                match &node.head {
                    GenericParameter::TypePack { name, .. } => {
                        done.push(match find(&environment.type_packs, name.name) {
                            Some(types) => types.count(),
                            None => 0,
                        });
                        ahead = &node.tail;
                    },
                    _ => {
                        ahead = &node.tail;
                    },
                }
            },
        }
    }
}

/// Whether two lists of numbers are the same.
#[verifier::opaque]
pub open spec fn spec_same_numbers(left: List<u64>, right: List<u64>) -> bool
    decreases left,
{
    match left {
        List::Nil => right.is_empty(),
        List::Cons(first) => match right {
            List::Nil => false,
            List::Cons(second) => first.head == second.head
                && spec_same_numbers(first.tail, second.tail),
        },
    }
}

/// Whether two lists of numbers are the same.
pub(crate) fn same_numbers(left: &List<u64>, right: &List<u64>) -> (answer: bool)
    ensures
        answer == spec_same_numbers(*left, *right),
{
    let mut ahead: &List<u64> = left;
    let mut current_right: &List<u64> = right;
    loop
        invariant
            spec_same_numbers(*left, *right) == spec_same_numbers(*ahead, *current_right),
        decreases *ahead,
    {
        reveal(spec_same_numbers);
        match ahead {
            List::Nil => {
                return current_right.is_empty();
            },
            List::Cons(first) => {
                match current_right {
                    List::Nil => {
                        return false;
                    },
                    List::Cons(second) => {
                        if !(first.head == second.head) {
                            return false;
                        }
                        current_right = &second.tail;
                        ahead = &first.tail;
                    },
                }
            },
        }
    }
}

/// The signature of an instance that has been made before.
#[verifier::opaque]
pub open spec fn spec_find_function_instance<'a>(
    instances: List<FunctionInstance<'a>>,
    name: Text<'a>,
    arguments: List<GenericValue>,
    lengths: List<u64>,
) -> Option<Signature>
    decreases instances,
{
    match instances {
        List::Nil => None,
        List::Cons(node) => if node.head.arguments == arguments
            && spec_same_numbers(node.head.pack_lengths, lengths)
            && characters(node.head.resolved_name) == characters(name) {
            Some(node.head.signature)
        } else {
            spec_find_function_instance(node.tail, name, arguments, lengths)
        },
    }
}

proof fn found_is_instance<'a>(
    instances: List<FunctionInstance<'a>>,
    name: Text<'a>,
    arguments: List<GenericValue>,
    lengths: List<u64>,
)
    ensures
        match spec_find_function_instance(instances, name, arguments, lengths) {
            Some(signature) => is_instance(instances, signature),
            None => true,
        },
    decreases instances,
{
    reveal(spec_find_function_instance);
    reveal(is_instance);
    match instances {
        List::Nil => {},
        List::Cons(_) => {
            found_is_instance(instances.rest(), name, arguments, lengths);
        },
    }
}

/// The signature of an instance that has been made before.
pub(crate) fn find_function_instance<'a>(
    instances: &List<FunctionInstance<'a>>,
    name: &Text<'a>,
    arguments: &List<GenericValue>,
    lengths: &List<u64>,
) -> (signature: Option<Signature>)
    ensures
        signature == spec_find_function_instance(*instances, *name, *arguments, *lengths),
{
    let mut ahead: &List<FunctionInstance<'a>> = instances;
    loop
        invariant
            spec_find_function_instance(
                *instances,
                *name,
                *arguments,
                *lengths,
            ) == spec_find_function_instance(
                *ahead,
                *name,
                *arguments,
                *lengths,
            ),
        decreases *ahead,
    {
        reveal(spec_find_function_instance);
        match ahead {
            List::Nil => {
                return None;
            },
            List::Cons(node) => {
                if same_values(&node.head.arguments, arguments)
                && same_numbers(&node.head.pack_lengths, lengths)
                && reads_alike(&node.head.resolved_name, name) {
                    return Some(node.head.signature.share());
                } else {
                    ahead = &node.tail;
                }
            },
        }
    }
}

impl<'a> State<'a> {
    /// Generic arguments of a call bind the leading parameters.
    #[verifier::opaque]
    pub open spec fn bind_explicit_generic_arguments(
        self,
        arguments: List<GenericArgument<'a>>,
        parameters: List<GenericParameter<'a>>,
        environment: Environment<'a>,
        span: Span,
    ) -> (Self, Environment<'a>) {
        let s = if !spec_includes_pack(parameters) && arguments.count() > parameters.count() {
            let s = self.report(
                helped(
                    "E6004",
                    cons(
                        Piece::Words("generic call provides "),
                        cons(
                            Piece::Number(arguments.count() as u128),
                            cons(
                                Piece::Words(" argument(s), but at most "),
                                cons(
                                    Piece::Number(parameters.count() as u128),
                                    words(" are accepted"),
                                ),
                            ),
                        ),
                    ),
                    "remove the extra generic arguments",
                    span,
                ),
            );
            s
        } else {
            self
        };
        match s.resolve_argument_values(arguments) {
            (s, None) => (s, environment),
            (s, Some(values)) => s.bind_values(
                parameters,
                values,
                arguments.is_empty(),
                environment,
                span,
            ),
        }
    }

    /// Values bind parameters in turn. A pack takes all values that are left,
    /// unless none was written.
    #[verifier::opaque]
    pub open spec fn bind_values(
        self,
        parameters: List<GenericParameter<'a>>,
        values: List<GenericValue>,
        implicit: bool,
        environment: Environment<'a>,
        span: Span,
    ) -> (Self, Environment<'a>)
        decreases parameters,
    {
        match parameters {
            List::Nil => (self, environment),
            List::Cons(node) => match node.head {
                GenericParameter::Type { name, .. } => match values {
                    List::Nil => (self, environment),
                    List::Cons(value) => match value.head {
                        GenericValue::Type(ty) => self.bind_values(
                            node.tail,
                            value.tail,
                            implicit,
                            environment.with_type(name.name, ty),
                            span,
                        ),
                        GenericValue::Const(_) => {
                            let s = self.report(
                                helped(
                                    "E6004",
                                    words("expected a type generic argument"),
                                    "provide a type name at this position",
                                    span,
                                ),
                            );
                            s.bind_values(node.tail, values, implicit, environment, span)
                        },
                    },
                },
                GenericParameter::TypePack { name, .. } => if values.is_empty() && implicit {
                    self.bind_values(node.tail, values, implicit, environment, span)
                } else {
                    match only_types(values) {
                        None => {
                            let s = self.report(
                                helped(
                                    "E6020",
                                    words3("type pack `", name.name, "` received a const argument"),
                                    "type packs accept only type arguments",
                                    span,
                                ),
                            );
                            (s, environment)
                        },
                        Some(types) => self.bind_values(
                            node.tail,
                            List::Nil,
                            implicit,
                            environment.with_pack(name.name, types),
                            span,
                        ),
                    }
                },
                GenericParameter::Const { name, .. } => match values {
                    List::Nil => (self, environment),
                    List::Cons(value) => match value.head {
                        GenericValue::Const(constant) => self.bind_values(
                            node.tail,
                            value.tail,
                            implicit,
                            environment.with_constant(name.name, constant),
                            span,
                        ),
                        GenericValue::Type(_) => {
                            let s = self.report(
                                helped(
                                    "E6004",
                                    words("expected a const generic argument"),
                                    "provide an integer expression at this position",
                                    span,
                                ),
                            );
                            s.bind_values(node.tail, values, implicit, environment, span)
                        },
                    },
                },
            },
        }
    }

    /// The values of all parameters, by what has been bound and then the defaults,
    /// if every parameter has one and the bounds hold.
    #[verifier::opaque]
    pub open spec fn complete_generic_environment(
        self,
        parameters: List<GenericParameter<'a>>,
        predicates: List<WherePredicate<'a>>,
        environment: Environment<'a>,
        span: Span,
    ) -> (Self, Option<(Environment<'a>, List<GenericValue>)>) {
        let (s, (environment, values, complete)) = self.complete_parameters(
            parameters,
            environment,
            span,
        );
        if !complete {
            (s, None)
        } else {
            match s.validate_bounds(parameters, predicates, environment, span) {
                (s, true) => (s, Some((environment, values))),
                (s, false) => (s, None),
            }
        }
    }

    /// The values of parameters in turn, and whether every one has a value.
    #[verifier::opaque]
    pub open spec fn complete_parameters(
        self,
        parameters: List<GenericParameter<'a>>,
        environment: Environment<'a>,
        span: Span,
    ) -> (Self, (Environment<'a>, List<GenericValue>, bool))
        decreases parameters,
    {
        match parameters {
            List::Nil => (self, (environment, List::Nil, true)),
            List::Cons(node) => {
                let (s, (environment, first, found)) = self.complete_parameter(
                    node.head,
                    environment,
                    span,
                );
                let (s, (environment, rest, complete)) = s.complete_parameters(
                    node.tail,
                    environment,
                    span,
                );
                (s, (environment, append(first, rest), found && complete))
            },
        }
    }

    /// The values of one parameter.
    #[verifier::opaque]
    pub open spec fn complete_parameter(
        self,
        parameter: GenericParameter<'a>,
        environment: Environment<'a>,
        span: Span,
    ) -> (Self, (Environment<'a>, List<GenericValue>, bool)) {
        match parameter {
            GenericParameter::Type { name, default, .. } => self.complete_type(
                name.name,
                default,
                environment,
                span,
            ),
            GenericParameter::TypePack { name, .. } => self.complete_pack(
                name.name,
                environment,
                span,
            ),
            GenericParameter::Const { name, ty, default, .. } => self.complete_constant(
                name.name,
                ty,
                default,
                environment,
                span,
            ),
        }
    }

    /// The value of a parameter that stands for a type.
    #[verifier::opaque]
    pub open spec fn complete_type(
        self,
        name: &'a str,
        default: Option<TypeName<'a>>,
        environment: Environment<'a>,
        span: Span,
    ) -> (Self, (Environment<'a>, List<GenericValue>, bool)) {
        let (s, known) = match spec_bound_type(environment, name) {
            Some(ty) => (self, Some(ty)),
            None => match default {
                Some(default) => self.resolve_type_in(default, environment),
                None => (self, None),
            },
        };
        match known {
            Some(ty) => (
                s,
                (environment.with_type(name, ty), single(GenericValue::Type(ty)), true),
            ),
            None => {
                let s = s.report(
                    helped(
                        "E6004",
                        words3("cannot infer generic type parameter `", name, "`"),
                        "use the parameter in an argument or provide an expected return type",
                        span,
                    ),
                );
                (s, (environment, List::Nil, false))
            },
        }
    }

    /// The values of a parameter that stands for a pack of types.
    #[verifier::opaque]
    pub open spec fn complete_pack(
        self,
        name: &'a str,
        environment: Environment<'a>,
        span: Span,
    ) -> (Self, (Environment<'a>, List<GenericValue>, bool)) {
        match spec_bound_pack(environment, name) {
            Some(types) => (self, (environment, type_values(types), true)),
            None => {
                let s = self.report(
                    helped(
                        "E6020",
                        words3("cannot infer generic type pack `", name, "`"),
                        "use the pack in a tuple parameter or provide explicit type arguments",
                        span,
                    ),
                );
                (s, (environment, List::Nil, false))
            },
        }
    }

    /// A parameter that stands for a number must have an integer type.
    #[verifier::opaque]
    pub open spec fn require_constant_type(
        self,
        name: &'a str,
        written: TypeName<'a>,
        environment: Environment<'a>,
    ) -> (Self, bool) {
        match self.resolve_type_in(written, environment) {
            (s, None) => (s, true),
            (s, Some(ty)) => if ty.is_integer() {
                (s, true)
            } else {
                let s = s.report(
                    error(
                        "E6005",
                        words3("const parameter `", name, "` must use an integer type"),
                        written.span,
                    ),
                );
                (s, false)
            },
        }
    }

    /// The value of a parameter that stands for a number.
    #[verifier::opaque]
    pub open spec fn complete_constant(
        self,
        name: &'a str,
        written: TypeName<'a>,
        default: Option<ast::Expression<'a>>,
        environment: Environment<'a>,
        span: Span,
    ) -> (Self, (Environment<'a>, List<GenericValue>, bool)) {
        let (s, valid) = self.require_constant_type(name, written, environment);
        let (s, known) = match spec_bound_constant(environment, name) {
            Some(value) => (s, Some(value)),
            None => match default {
                Some(default) => s.array_length_in(default, environment),
                None => (s, None),
            },
        };
        match known {
            Some(value) => (
                s,
                (environment.with_constant(name, value), single(GenericValue::Const(value)), valid),
            ),
            None => {
                let s = s.report(
                    helped(
                        "E6004",
                        words3("cannot infer const generic parameter `", name, "`"),
                        "use the const parameter in an array or generic argument",
                        span,
                    ),
                );
                (s, (environment, List::Nil, false))
            },
        }
    }

    /// The types of parameters.
    #[verifier::opaque]
    pub open spec fn resolve_parameter_types(
        self,
        parameters: List<Parameter<'a>>,
        environment: Environment<'a>,
    ) -> (Self, List<Type>)
        decreases parameters,
    {
        match parameters {
            List::Nil => (self, List::Nil),
            List::Cons(node) => {
                let (s, first) = self.resolve_or_unit(node.head.ty, environment);
                let (s, rest) = s.resolve_parameter_types(node.tail, environment);
                (s, cons(first, rest))
            },
        }
    }

    /// A type, or nothing where it cannot be resolved.
    #[verifier::opaque]
    pub open spec fn resolve_or_unit(
        self,
        written: TypeName<'a>,
        environment: Environment<'a>,
    ) -> (Self, Type) {
        match self.resolve_type_in(written, environment) {
            (s, Some(ty)) => (s, ty),
            (s, None) => (s, Type::Unit),
        }
    }

    /// The type of what a function returns.
    #[verifier::opaque]
    pub open spec fn resolve_return_type(
        self,
        written: Option<TypeName<'a>>,
        environment: Environment<'a>,
    ) -> (Self, Type) {
        match written {
            Some(written) => self.resolve_or_unit(written, environment),
            None => (self, Type::Unit),
        }
    }

    /// A number for a new function.
    #[verifier::opaque]
    pub open spec fn next_function_id(self, span: Span) -> (Self, Option<FunctionId>) {
        let id = FunctionId(self.symbols.next_id);
        match self.symbols.next_id.checked_add(1) {
            Some(next) => {
                let s = State { symbols: Symbols { next_id: next, ..self.symbols }, ..self };
                (s, Some(id))
            },
            None => {
                let s = self.report(
                    error(
                        "E3999",
                        words("this compilation unit contains too many function instances"),
                        span,
                    ),
                );
                (s, None)
            },
        }
    }

    /// The signature of a generic function with values for its parameters. A new
    /// instance is left to be checked later.
    #[verifier::opaque]
    pub open spec fn instantiate_generic_function(
        self,
        template: GenericFunctionTemplate<'a>,
        values: List<GenericValue>,
        environment: Environment<'a>,
        span: Span,
    ) -> (Self, Option<Signature>) {
        let lengths = spec_pack_lengths(template.parameters, environment);
        match spec_find_function_instance(
            self.symbols.instances,
            template.resolved_name,
            values,
            lengths,
        ) {
            Some(signature) => (self, Some(signature)),
            None => {
                let (s, parameter_types) = self.resolve_parameter_types(
                    template.function.parameters,
                    environment,
                );
                let (s, return_type) = s.resolve_return_type(
                    template.function.return_type,
                    environment,
                );
                match s.next_function_id(span) {
                    (s, None) => (s, None),
                    (s, Some(id)) => {
                        let signature = Signature {
                            id,
                            parameter_types,
                            return_type,
                            requires_unsafe: false,
                            is_public: template.is_public,
                        };
                        let s = s.remember_instance(
                            template,
                            values,
                            lengths,
                            environment,
                            signature,
                        );
                        (s, Some(signature))
                    },
                }
            },
        }
    }

    /// A new instance of a generic function is remembered and left to be checked.
    #[verifier::opaque]
    pub open spec fn remember_instance(
        self,
        template: GenericFunctionTemplate<'a>,
        arguments: List<GenericValue>,
        lengths: List<u64>,
        environment: Environment<'a>,
        signature: Signature,
    ) -> Self {
        let instance = FunctionInstance {
            resolved_name: template.resolved_name,
            arguments,
            pack_lengths: lengths,
            signature,
        };
        let pending = PendingFunction {
            function: template.function,
            resolved_name: append(
                template.resolved_name,
                cons(Piece::Words("$instance$"), number(signature.id.0 as u128)),
            ),
            signature,
            environment,
            home: template.home,
        };
        let s = State {
            symbols: Symbols { instances: cons(instance, self.symbols.instances), ..self.symbols },
            ..self
        };
        let s = State {
            symbols: Symbols { pending: cons(pending, s.symbols.pending), ..s.symbols },
            ..s
        };
        s
    }
}

impl<'a> Analyzer<'a> {
    /// Generic arguments of a call bind the leading parameters.
    pub(crate) fn bind_explicit_generic_arguments(
        &mut self,
        arguments: &List<GenericArgument<'a>>,
        parameters: &List<GenericParameter<'a>>,
        environment: Environment<'a>,
        span: Span,
    ) -> (bindings: Environment<'a>)
        ensures
            (final(self)@, bindings) == old(self)@.bind_explicit_generic_arguments(
                *arguments,
                *parameters,
                environment,
                span,
            ),
            old(self)@.leads_to(final(self)@),
            old(self)@.stays(final(self)@),
    {
        reveal(State::bind_explicit_generic_arguments);
        if !includes_pack(parameters) && arguments.count() > parameters.count() {
            self.report(
                helped(
                    "E6004",
                    cons(
                        Piece::Words("generic call provides "),
                        cons(
                            Piece::Number(arguments.count() as u128),
                            cons(
                                Piece::Words(" argument(s), but at most "),
                                cons(
                                    Piece::Number(parameters.count() as u128),
                                    words(" are accepted"),
                                ),
                            ),
                        ),
                    ),
                    "remove the extra generic arguments",
                    span,
                ),
            );
        }
        match self.resolve_argument_values(arguments) {
            None => environment,
            Some(values) => self.bind_values(
                parameters,
                &values,
                arguments.is_empty(),
                environment,
                span,
            ),
        }
    }

    /// Values bind parameters in turn. A pack takes all values that are left,
    /// unless none was written.
    pub(crate) fn bind_values(
        &mut self,
        parameters: &List<GenericParameter<'a>>,
        values: &List<GenericValue>,
        implicit: bool,
        environment: Environment<'a>,
        span: Span,
    ) -> (bindings: Environment<'a>)
        ensures
            (final(self)@, bindings) == old(self)@.bind_values(
                *parameters,
                *values,
                implicit,
                environment,
                span,
            ),
            old(self)@.leads_to(final(self)@),
            old(self)@.stays(final(self)@),
    {
        let mut ahead: &List<GenericParameter<'a>> = parameters;
        let mut current_values: &List<GenericValue> = values;
        let mut current_environment: Environment<'a> = environment;
        loop
            invariant
                old(self)@.bind_values(
                    *parameters,
                    *values,
                    implicit,
                    environment,
                    span,
                ) == self@.bind_values(
                    *ahead,
                    *current_values,
                    implicit,
                    current_environment,
                    span,
                ),
                old(self)@.leads_to(self@),
                old(self)@.stays(self@),
            decreases *ahead,
        {
            reveal(State::bind_values);
            match ahead {
                List::Nil => {
                    return current_environment;
                },
                List::Cons(node) => {
                    match &node.head {
                        GenericParameter::Type { name, .. } => {
                            match current_values {
                                List::Nil => {
                                    return current_environment;
                                },
                                List::Cons(value) => {
                                    match value.head {
                                        GenericValue::Type(ty) => {
                                            let next_values: &List<GenericValue> = &value.tail;
                                            let next_environment: Environment<'a> = current_environment.and_type(
                                                name.name,
                                                ty,
                                            );
                                            current_values = next_values;
                                            current_environment = next_environment;
                                            ahead = &node.tail;
                                        },
                                        GenericValue::Const(_) => {
                                            self.report(
                                                helped(
                                                    "E6004",
                                                    words("expected a type generic argument"),
                                                    "provide a type name at this position",
                                                    span,
                                                ),
                                            );
                                            ahead = &node.tail;
                                        },
                                    }
                                },
                            }
                        },
                        GenericParameter::TypePack { name, .. } => {
                            if current_values.is_empty() && implicit {
                                ahead = &node.tail;
                            } else {
                                match collect_only_types(current_values) {
                                    None => {
                                        self.report(
                                            helped(
                                                "E6020",
                                                words3(
                                                    "type pack `",
                                                    name.name,
                                                    "` received a const argument",
                                                ),
                                                "type packs accept only type arguments",
                                                span,
                                            ),
                                        );
                                        return current_environment;
                                    },
                                    Some(types) => {
                                        let next_values: &List<GenericValue> = &List::Nil;
                                        let next_environment: Environment<'a> = current_environment.and_pack(
                                            name.name,
                                            types,
                                        );
                                        current_values = next_values;
                                        current_environment = next_environment;
                                        ahead = &node.tail;
                                    },
                                }
                            }
                        },
                        GenericParameter::Const { name, .. } => {
                            match current_values {
                                List::Nil => {
                                    return current_environment;
                                },
                                List::Cons(value) => {
                                    match value.head {
                                        GenericValue::Const(constant) => {
                                            let next_values: &List<GenericValue> = &value.tail;
                                            let next_environment: Environment<'a> = current_environment.and_constant(
                                                name.name,
                                                constant,
                                            );
                                            current_values = next_values;
                                            current_environment = next_environment;
                                            ahead = &node.tail;
                                        },
                                        GenericValue::Type(_) => {
                                            self.report(
                                                helped(
                                                    "E6004",
                                                    words("expected a const generic argument"),
                                                    "provide an integer expression at this position",
                                                    span,
                                                ),
                                            );
                                            ahead = &node.tail;
                                        },
                                    }
                                },
                            }
                        },
                    }
                },
            }
        }
    }

    /// The values of all parameters, by what has been bound and then the defaults,
    /// if every parameter has one and the bounds hold.
    pub(crate) fn complete_generic_environment(
        &mut self,
        parameters: &List<GenericParameter<'a>>,
        predicates: &List<WherePredicate<'a>>,
        environment: Environment<'a>,
        span: Span,
    ) -> (completion: Option<(Environment<'a>, List<GenericValue>)>)
        ensures
            (final(self)@, completion) == old(self)@.complete_generic_environment(
                *parameters,
                *predicates,
                environment,
                span,
            ),
            old(self)@.leads_to(final(self)@),
            old(self)@.stays(final(self)@),
    {
        reveal(State::complete_generic_environment);
        let (environment, values, complete) = self.complete_parameters(
            parameters,
            environment,
            span,
        );
        if !complete {
            return None;
        }
        if self.validate_bounds(parameters, predicates, &environment, span) {
            Some((environment, values))
        } else {
            None
        }
    }

    /// The values of parameters in turn, and whether every one has a value.
    pub(crate) fn complete_parameters(
        &mut self,
        parameters: &List<GenericParameter<'a>>,
        environment: Environment<'a>,
        span: Span,
    ) -> (completion: (Environment<'a>, List<GenericValue>, bool))
        ensures
            (final(self)@, completion) == old(self)@.complete_parameters(
                *parameters,
                environment,
                span,
            ),
            old(self)@.leads_to(final(self)@),
            old(self)@.stays(final(self)@),
    {
        let mut ahead: &List<GenericParameter<'a>> = parameters;
        let mut bindings: Environment<'a> = environment;
        let mut done: Vec<GenericValue> = Vec::new();
        let mut complete: bool = true;
        loop
            invariant
                old(self)@.complete_parameters(*parameters, environment, span) == {
                    let (state, (last, rest, found)) = self@.complete_parameters(
                        *ahead,
                        bindings,
                        span,
                    );
                    (state, (last, prepended(done@, rest), complete && found))
                },
                old(self)@.leads_to(self@),
                old(self)@.stays(self@),
            decreases *ahead,
        {
            reveal(State::complete_parameters);
            match ahead {
                List::Nil => {
                    return (bindings, prepend(done, List::Nil), complete);
                },
                List::Cons(node) => {
                    let (next, first, found) = self.complete_parameter(&node.head, bindings, span);
                    extend(&mut done, &first);
                    bindings = next;
                    complete = complete && found;
                    ahead = &node.tail;
                },
            }
        }
    }

    /// The values of one parameter.
    pub(crate) fn complete_parameter(
        &mut self,
        parameter: &GenericParameter<'a>,
        environment: Environment<'a>,
        span: Span,
    ) -> (completion: (Environment<'a>, List<GenericValue>, bool))
        ensures
            (final(self)@, completion) == old(self)@.complete_parameter(
                *parameter,
                environment,
                span,
            ),
            old(self)@.leads_to(final(self)@),
            old(self)@.stays(final(self)@),
    {
        reveal(State::complete_parameter);
        match parameter {
            GenericParameter::Type { name, default, .. } => self.complete_type(
                name.name,
                default,
                environment,
                span,
            ),
            GenericParameter::TypePack { name, .. } => self.complete_pack(
                name.name,
                environment,
                span,
            ),
            GenericParameter::Const { name, ty, default, .. } => self.complete_constant(
                name.name,
                ty,
                default,
                environment,
                span,
            ),
        }
    }

    /// The value of a parameter that stands for a type.
    pub(crate) fn complete_type(
        &mut self,
        name: &'a str,
        default: &Option<TypeName<'a>>,
        environment: Environment<'a>,
        span: Span,
    ) -> (completion: (Environment<'a>, List<GenericValue>, bool))
        ensures
            (final(self)@, completion) == old(self)@.complete_type(
                name,
                *default,
                environment,
                span,
            ),
            old(self)@.leads_to(final(self)@),
            old(self)@.stays(final(self)@),
    {
        reveal(State::complete_type);
        let known = match bound_type(&environment, name) {
            Some(ty) => Some(ty),
            None => match default {
                Some(default) => self.resolve_type_in(default, &environment),
                None => None,
            },
        };
        match known {
            Some(ty) => (environment.and_type(name, ty), single(GenericValue::Type(ty)), true),
            None => {
                self.report(
                    helped(
                        "E6004",
                        words3("cannot infer generic type parameter `", name, "`"),
                        "use the parameter in an argument or provide an expected return type",
                        span,
                    ),
                );
                (environment, List::Nil, false)
            },
        }
    }

    /// The values of a parameter that stands for a pack of types.
    pub(crate) fn complete_pack(
        &mut self,
        name: &'a str,
        environment: Environment<'a>,
        span: Span,
    ) -> (completion: (Environment<'a>, List<GenericValue>, bool))
        ensures
            (final(self)@, completion) == old(self)@.complete_pack(name, environment, span),
            old(self)@.leads_to(final(self)@),
            old(self)@.stays(final(self)@),
    {
        reveal(State::complete_pack);
        match bound_pack(&environment, name) {
            Some(types) => (environment, as_type_values(&types), true),
            None => {
                self.report(
                    helped(
                        "E6020",
                        words3("cannot infer generic type pack `", name, "`"),
                        "use the pack in a tuple parameter or provide explicit type arguments",
                        span,
                    ),
                );
                (environment, List::Nil, false)
            },
        }
    }

    /// A parameter that stands for a number must have an integer type.
    pub(crate) fn require_constant_type(
        &mut self,
        name: &'a str,
        written: &TypeName<'a>,
        environment: &Environment<'a>,
    ) -> (valid: bool)
        ensures
            (final(self)@, valid) == old(self)@.require_constant_type(name, *written, *environment),
            old(self)@.leads_to(final(self)@),
            old(self)@.stays(final(self)@),
    {
        reveal(State::require_constant_type);
        match self.resolve_type_in(written, environment) {
            None => true,
            Some(ty) => if ty.is_integer() {
                true
            } else {
                self.report(
                    error(
                        "E6005",
                        words3("const parameter `", name, "` must use an integer type"),
                        written.span,
                    ),
                );
                false
            },
        }
    }

    /// The value of a parameter that stands for a number.
    pub(crate) fn complete_constant(
        &mut self,
        name: &'a str,
        written: &TypeName<'a>,
        default: &Option<ast::Expression<'a>>,
        environment: Environment<'a>,
        span: Span,
    ) -> (completion: (Environment<'a>, List<GenericValue>, bool))
        ensures
            (final(self)@, completion) == old(self)@.complete_constant(
                name,
                *written,
                *default,
                environment,
                span,
            ),
            old(self)@.leads_to(final(self)@),
            old(self)@.stays(final(self)@),
    {
        reveal(State::complete_constant);
        let valid = self.require_constant_type(name, written, &environment);
        let known = match bound_constant(&environment, name) {
            Some(value) => Some(value),
            None => match default {
                Some(default) => self.array_length_in(default, &environment),
                None => None,
            },
        };
        match known {
            Some(value) => (
                environment.and_constant(name, value),
                single(GenericValue::Const(value)),
                valid,
            ),
            None => {
                self.report(
                    helped(
                        "E6004",
                        words3("cannot infer const generic parameter `", name, "`"),
                        "use the const parameter in an array or generic argument",
                        span,
                    ),
                );
                (environment, List::Nil, false)
            },
        }
    }

    /// The types of parameters.
    pub(crate) fn resolve_parameter_types(
        &mut self,
        parameters: &List<Parameter<'a>>,
        environment: &Environment<'a>,
    ) -> (types: List<Type>)
        ensures
            (final(self)@, types) == old(self)@.resolve_parameter_types(*parameters, *environment),
            old(self)@.leads_to(final(self)@),
            old(self)@.stays(final(self)@),
    {
        let mut ahead: &List<Parameter<'a>> = parameters;
        let mut done: Vec<Type> = Vec::new();
        loop
            invariant
                old(self)@.resolve_parameter_types(*parameters, *environment) == {
                    let (state, rest) = self@.resolve_parameter_types(*ahead, *environment);
                    (state, prepended(done@, rest))
                },
                old(self)@.leads_to(self@),
                old(self)@.stays(self@),
            decreases *ahead,
        {
            reveal(State::resolve_parameter_types);
            match ahead {
                List::Nil => {
                    return prepend(done, List::Nil);
                },
                List::Cons(node) => {
                    let first = self.resolve_or_unit(&node.head.ty, environment);
                    done.push(first);
                    ahead = &node.tail;
                },
            }
        }
    }

    /// A type, or nothing where it cannot be resolved.
    pub(crate) fn resolve_or_unit(
        &mut self,
        written: &TypeName<'a>,
        environment: &Environment<'a>,
    ) -> (ty: Type)
        ensures
            (final(self)@, ty) == old(self)@.resolve_or_unit(*written, *environment),
            old(self)@.leads_to(final(self)@),
            old(self)@.stays(final(self)@),
    {
        reveal(State::resolve_or_unit);
        match self.resolve_type_in(written, environment) {
            Some(ty) => ty,
            None => Type::Unit,
        }
    }

    /// The type of what a function returns.
    pub(crate) fn resolve_return_type(
        &mut self,
        written: &Option<TypeName<'a>>,
        environment: &Environment<'a>,
    ) -> (ty: Type)
        ensures
            (final(self)@, ty) == old(self)@.resolve_return_type(*written, *environment),
            old(self)@.leads_to(final(self)@),
            old(self)@.stays(final(self)@),
    {
        reveal(State::resolve_return_type);
        match written {
            Some(written) => self.resolve_or_unit(written, environment),
            None => Type::Unit,
        }
    }

    /// A number for a new function.
    pub(crate) fn next_function_id(&mut self, span: Span) -> (id: Option<FunctionId>)
        ensures
            (final(self)@, id) == old(self)@.next_function_id(span),
            id is None ==> old(self)@.leads_to(final(self)@),
            old(self)@.stays(final(self)@),
    {
        reveal(State::next_function_id);
        reveal(State::stays);
        let id = FunctionId(self.symbols.next_id);
        match self.symbols.next_id.checked_add(1) {
            Some(next) => {
                self.symbols.next_id = next;
                Some(id)
            },
            None => {
                self.report(
                    error(
                        "E3999",
                        words("this compilation unit contains too many function instances"),
                        span,
                    ),
                );
                None
            },
        }
    }

    /// The signature of a generic function with values for its parameters. A new
    /// instance is left to be checked later.
    pub(crate) fn instantiate_generic_function(
        &mut self,
        template: &GenericFunctionTemplate<'a>,
        values: List<GenericValue>,
        environment: &Environment<'a>,
        span: Span,
    ) -> (signature: Option<Signature>)
        ensures
            (final(self)@, signature) == old(self)@.instantiate_generic_function(
                *template,
                values,
                *environment,
                span,
            ),
            old(self)@.leads_to(final(self)@),
            old(self)@.stays(final(self)@),
            signature is Some ==> final(self)@.knows(signature->0),
    {
        reveal(State::instantiate_generic_function);
        reveal(State::knows);
        let lengths = pack_lengths(&template.parameters, environment);
        match find_function_instance(
            &self.symbols.instances,
            &template.resolved_name,
            &values,
            &lengths,
        ) {
            Some(signature) => {
                proof {
                    found_is_instance(
                        self.symbols.instances,
                        template.resolved_name,
                        values,
                        lengths,
                    );
                }
                Some(signature)
            },
            None => {
                let parameter_types = self.resolve_parameter_types(
                    &template.function.parameters,
                    environment,
                );
                let return_type = self.resolve_return_type(
                    &template.function.return_type,
                    environment,
                );
                let ghost before = self@;
                match self.next_function_id(span) {
                    None => None,
                    Some(id) => {
                        let signature = Signature {
                            id,
                            parameter_types,
                            return_type,
                            requires_unsafe: false,
                            is_public: template.is_public,
                        };
                        self.remember_instance(template, values, lengths, environment, &signature);
                        proof {
                            reveal(State::next_function_id);
                            reveal(State::remember_instance);
                            instance_bears_next(before, self@, self@.symbols.pending.first());
                            reveal(is_instance);
                            reveal(awaits);
                            instance_types_are_as_many(
                                old(self)@,
                                self@.symbols.pending.first().parameters(),
                                *environment,
                            );
                            assert(before.leads_to(self@)) by {
                                reveal(State::leads_to);
                            }
                            assert(before.stays(self@)) by {
                                reveal(State::stays);
                            }
                        }
                        Some(signature)
                    },
                }
            },
        }
    }

    /// A new instance of a generic function is remembered and left to be checked.
    pub(crate) fn remember_instance(
        &mut self,
        template: &GenericFunctionTemplate<'a>,
        arguments: List<GenericValue>,
        lengths: List<u64>,
        environment: &Environment<'a>,
        signature: &Signature,
    )
        ensures
            final(self)@ == old(self)@.remember_instance(
                *template,
                arguments,
                lengths,
                *environment,
                *signature,
            ),
    {
        reveal(State::remember_instance);
        let instance = FunctionInstance {
            resolved_name: template.resolved_name.share(),
            arguments,
            pack_lengths: lengths,
            signature: signature.share(),
        };
        let pending = PendingFunction {
            function: share(&template.function),
            resolved_name: joined(
                &template.resolved_name,
                cons(Piece::Words("$instance$"), number(signature.id.0 as u128)),
            ),
            signature: signature.share(),
            environment: environment.share(),
            home: template.home.share(),
        };
        self.symbols.instances = cons(instance, self.symbols.instances.share());
        self.symbols.pending = cons(pending, self.symbols.pending.share());
    }
}

} // verus!

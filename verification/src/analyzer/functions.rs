//! The functions of a program, one by one.

use crate::analyzer::calling::{awaited_are_provided, joined_provide, provides, reversed_await};
use crate::analyzer::escaping::{checked_values_are_let_out, lets_out};
use crate::analyzer::growth::{awaits, is_instance};
use crate::analyzer::{
    Analyzer, Binding, Frame, PendingFunction, PlaceAvailability, Signature, State, Symbols,
};
use crate::analyzer::declarations::Declaration;
use crate::analyzer::numbering::{
    bearing, goes_on, none_waits, numbered_between, once, round_bears,
};
use crate::ast::{self, Parameter};
use crate::attributes::{asked_of_function, function_attributes};
use crate::generics::Environment;
use crate::hir::{self, Block, ForeignFunction, Function, FunctionId, LocalId};
use crate::list::{
    append, cons, leads_through, nodes, prepend, prepended, prepended_concatenates, single, List,
    Node,
};
use crate::registry::LIMIT;
use crate::rendering::block_renders;
use crate::span::{advised, helped};
use crate::text::{frame, framed, joined, words3, Piece, Text};
use crate::types::Type;
use crate::typing::{sound_block, Scene};
use vstd::prelude::*;

verus! {

broadcast use {
    crate::analyzer::growth::group_led,
    crate::analyzer::numbering::group_numbered,
    crate::analyzer::sparing::group_spared,
    crate::list::pushed_comes_first,
    crate::registry::growth::group_grown,
    crate::span::group_kept,
    crate::typing::group_sound,
};

/// The frame of a function before its parameters are bound.
#[verifier::opaque]
pub open spec fn spec_function_frame<'a>(
    signature: Signature,
    environment: Environment<'a>,
    home: Text<'a>,
) -> Frame<'a> {
    Frame {
        signature,
        environment,
        home,
        scopes: single(List::Nil),
        next_local: 0,
        loops: List::Nil,
        unsafe_depth: 0,
        parameter_count: 0,
        borrow_states: List::Nil,
        scoped_roots: List::Nil,
        expression_roots: List::Nil,
        borrow_scopes: single(List::Nil),
        persistent_borrow: false,
        defer_depth: 0,
        moved_locals: List::Nil,
        moved_fields: List::Nil,
        deferred_uses: List::Nil,
        deferred_use_scopes: single(List::Nil),
        consuming_value: true,
        reborrow_argument: false,
        field_base_depth: 0,
        place_availability: PlaceAvailability::InitializedOnly,
    }
}

/// The frame of a function before its parameters are bound.
pub(crate) fn function_frame<'a>(
    signature: &Signature,
    environment: &Environment<'a>,
    home: &Text<'a>,
) -> (frame: Frame<'a>)
    ensures
        frame == spec_function_frame(*signature, *environment, *home),
{
    reveal(spec_function_frame);
    Frame {
        signature: signature.share(),
        environment: environment.share(),
        home: home.share(),
        scopes: single(List::Nil),
        next_local: 0,
        loops: List::Nil,
        unsafe_depth: 0,
        parameter_count: 0,
        borrow_states: List::Nil,
        scoped_roots: List::Nil,
        expression_roots: List::Nil,
        borrow_scopes: single(List::Nil),
        persistent_borrow: false,
        defer_depth: 0,
        moved_locals: List::Nil,
        moved_fields: List::Nil,
        deferred_uses: List::Nil,
        deferred_use_scopes: single(List::Nil),
        consuming_value: true,
        reborrow_argument: false,
        field_base_depth: 0,
        place_availability: PlaceAvailability::InitializedOnly,
    }
}

/// The parameters of a function of another language, numbered from `position`
/// on.
#[verifier::opaque]
pub open spec fn spec_foreign_parameters<'a>(
    parameters: List<Parameter<'a>>,
    types: List<Type>,
    position: u32,
) -> List<hir::Parameter<'a>>
    decreases parameters,
{
    match parameters {
        List::Nil => List::Nil,
        List::Cons(node) => match types {
            List::Nil => List::Nil,
            List::Cons(ty) => cons(
                hir::Parameter {
                    local: LocalId(position),
                    name: node.head.name.name,
                    ty: ty.head,
                    span: node.head.span,
                },
                spec_foreign_parameters(node.tail, ty.tail, position.saturating_add(1)),
            ),
        },
    }
}

/// The parameters of a function of another language, numbered from `position`
/// on.
pub(crate) fn foreign_parameters<'a>(
    parameters: &List<Parameter<'a>>,
    types: &List<Type>,
    position: u32,
) -> (bound: List<hir::Parameter<'a>>)
    ensures
        bound == spec_foreign_parameters(*parameters, *types, position),
{
    let mut ahead: &List<Parameter<'a>> = parameters;
    let mut current_types: &List<Type> = types;
    let mut current_position: u32 = position;
    let mut done: Vec<hir::Parameter<'a>> = Vec::new();
    loop
        invariant
            spec_foreign_parameters(*parameters, *types, position) == prepended(
                done@,
                spec_foreign_parameters(*ahead, *current_types, current_position),
            ),
        decreases *ahead,
    {
        reveal(spec_foreign_parameters);
        match ahead {
            List::Nil => {
                return prepend(done, List::Nil);
            },
            List::Cons(node) => {
                match current_types {
                    List::Nil => {
                        return prepend(done, List::Nil);
                    },
                    List::Cons(ty) => {
                        done.push(hir::Parameter {
                            local: LocalId(current_position),
                            name: node.head.name.name,
                            ty: ty.head,
                            span: node.head.span,
                        });
                        let next_types: &List<Type> = &ty.tail;
                        let next_position: u32 = current_position.saturating_add(1);
                        current_types = next_types;
                        current_position = next_position;
                        ahead = &node.tail;
                    },
                }
            },
        }
    }
}

/// A function of another language.
#[verifier::opaque]
pub open spec fn spec_foreign_function<'a>(
    function: ast::ForeignFunction<'a>,
    signature: Signature,
) -> ForeignFunction<'a> {
    ForeignFunction {
        id: signature.id,
        name: function.name.name,
        symbol: function.symbol,
        link: function.link,
        is_public: function.is_public,
        abi: function.abi,
        parameters: spec_foreign_parameters(function.parameters, signature.parameter_types, 0),
        return_type: signature.return_type,
        span: function.span,
    }
}

/// A function of another language.
pub(crate) fn foreign_function<'a>(
    function: &ast::ForeignFunction<'a>,
    signature: &Signature,
) -> (declared: ForeignFunction<'a>)
    ensures
        declared == spec_foreign_function(*function, *signature),
{
    reveal(spec_foreign_function);
    ForeignFunction {
        id: signature.id,
        name: function.name.name,
        symbol: function.symbol,
        link: function.link,
        is_public: function.is_public,
        abi: function.abi,
        parameters: foreign_parameters(&function.parameters, &signature.parameter_types, 0),
        return_type: signature.return_type,
        span: function.span,
    }
}

/// The functions of other languages.
#[verifier::opaque]
pub open spec fn spec_foreign_functions<'a>(
    declarations: List<Declaration<'a>>,
) -> List<ForeignFunction<'a>>
    decreases declarations,
{
    match declarations {
        List::Nil => List::Nil,
        List::Cons(node) => match node.head {
            Declaration::Foreign { function, signature } => cons(
                spec_foreign_function(*function, signature),
                spec_foreign_functions(node.tail),
            ),
            Declaration::Source { .. } => spec_foreign_functions(node.tail),
        },
    }
}

/// The functions of other languages.
pub(crate) fn foreign_functions<'a>(
    declarations: &List<Declaration<'a>>,
) -> (functions: List<ForeignFunction<'a>>)
    ensures
        functions == spec_foreign_functions(*declarations),
{
    let mut ahead: &List<Declaration<'a>> = declarations;
    let mut done: Vec<ForeignFunction<'a>> = Vec::new();
    loop
        invariant
            spec_foreign_functions(*declarations) == prepended(
                done@,
                spec_foreign_functions(*ahead),
            ),
        decreases *ahead,
    {
        reveal(spec_foreign_functions);
        match ahead {
            List::Nil => {
                return prepend(done, List::Nil);
            },
            List::Cons(node) => {
                match &node.head {
                    Declaration::Foreign { function, signature } => {
                        done.push(foreign_function(&*function, signature));
                        ahead = &node.tail;
                    },
                    Declaration::Source { .. } => {
                        ahead = &node.tail;
                    },
                }
            },
        }
    }
}

/// The instances of generic functions that wait, the oldest first.
#[verifier::opaque]
pub open spec fn spec_oldest_first<'a>(
    pending: List<PendingFunction<'a>>,
    behind: List<PendingFunction<'a>>,
) -> List<PendingFunction<'a>>
    decreases pending,
{
    match pending {
        List::Nil => behind,
        List::Cons(node) => spec_oldest_first(node.tail, cons(node.head, behind)),
    }
}

/// The instances of generic functions that wait, the oldest first.
pub(crate) fn oldest_first<'a>(
    pending: &List<PendingFunction<'a>>,
    behind: List<PendingFunction<'a>>,
) -> (ordered: List<PendingFunction<'a>>)
    ensures
        ordered == spec_oldest_first(*pending, behind),
{
    let mut ahead: &List<PendingFunction<'a>> = pending;
    let mut current_behind: List<PendingFunction<'a>> = behind;
    loop
        invariant
            spec_oldest_first(*pending, behind) == spec_oldest_first(*ahead, current_behind),
        decreases *ahead,
    {
        reveal(spec_oldest_first);
        match ahead {
            List::Nil => {
                return current_behind;
            },
            List::Cons(node) => {
                current_behind = cons(node.head.share(), current_behind);
                ahead = &node.tail;
            },
        }
    }
}

/// Whether the body of a function fits together and produces what the function
/// returns, where only these functions can be called.
pub open spec fn is_typed(function: Function, callees: Set<Signature>) -> bool {
    &&& function.return_type.accepts(function.body.ty)
    &&& sound_block(function.body, (Scene { output: function.return_type, callees }))
}

/// Whether the bodies of functions fit together and produce what the functions
/// return, where only these functions can be called.
pub open spec fn are_typed(functions: Seq<Function>, callees: Set<Signature>) -> bool {
    forall|i: int| 0 <= i < functions.len() ==> is_typed(#[trigger] functions[i], callees)
}

proof fn pushed_stay_typed<'a>(
    front: Seq<Function<'a>>,
    last: Function<'a>,
    callees: Set<Signature>,
)
    requires
        is_typed(last, callees),
        are_typed(prepended(front, List::Nil)@, callees),
    ensures
        are_typed(prepended(front.push(last), List::Nil)@, callees),
{
    prepended_concatenates(front, List::Nil);
    prepended_concatenates(front.push(last), List::Nil);
    assert(prepended(front.push(last), List::Nil)@ =~= front.push(last));
    assert(prepended(front, List::Nil)@ =~= front);
}

proof fn longer_stay_typed<'a>(
    first: Function<'a>,
    rest: List<Function<'a>>,
    callees: Set<Signature>,
)
    requires
        is_typed(first, callees),
        are_typed(rest@, callees),
    ensures
        are_typed(cons(first, rest)@, callees),
{
    let functions = cons(first, rest)@;
    assert(functions =~= seq![first] + rest@);
    assert forall|i: int| 0 <= i < functions.len() implies is_typed(#[trigger] functions[i], callees) by {
        if i > 0 {
            assert(functions[i] == rest@[i - 1]);
        }
    }
}

proof fn joined_stay_typed<'a>(
    first: List<Function<'a>>,
    second: List<Function<'a>>,
    callees: Set<Signature>,
)
    requires
        are_typed(first@, callees),
        are_typed(second@, callees),
    ensures
        are_typed(spec_joined_functions(first, second)@, callees),
    decreases first,
{
    reveal(spec_joined_functions);
    reveal(spec_copy_function);
    match first {
        List::Nil => {},
        List::Cons(_) => {
            assert(first@ =~= seq![first.first()] + first.rest()@);
            assert(first@[0] == first.first());
            assert forall|i: int| 0 <= i < first.rest()@.len() implies is_typed(
                #[trigger] first.rest()@[i],
                callees,
            ) by {
                assert(first@[i + 1] == first.rest()@[i]);
            }
            joined_stay_typed(first.rest(), second, callees);
            longer_stay_typed(
                first.first(),
                spec_joined_functions(first.rest(), second),
                callees,
            );
        },
    }
}

/// The functions of both in a row.
#[verifier::opaque]
pub open spec fn spec_joined_functions<'a>(
    first: List<Function<'a>>,
    second: List<Function<'a>>,
) -> List<Function<'a>>
    decreases first,
{
    match first {
        List::Nil => second,
        List::Cons(node) => cons(
            spec_copy_function(node.head),
            spec_joined_functions(node.tail, second),
        ),
    }
}

/// The functions of both in a row.
pub(crate) fn joined_functions<'a>(
    first: &List<Function<'a>>,
    second: List<Function<'a>>,
) -> (functions: List<Function<'a>>)
    ensures
        functions == spec_joined_functions(*first, second),
{
    let mut ahead: &List<Function<'a>> = first;
    let mut done: Vec<Function<'a>> = Vec::new();
    loop
        invariant
            spec_joined_functions(*first, second) == prepended(
                done@,
                spec_joined_functions(*ahead, second),
            ),
        decreases *ahead,
    {
        reveal(spec_joined_functions);
        match ahead {
            List::Nil => {
                return prepend(done, second);
            },
            List::Cons(node) => {
                done.push(copy_function(&node.head));
                ahead = &node.tail;
            },
        }
    }
}

/// The functions of several rounds, in the order of the rounds, and others
/// behind them.
pub open spec fn gathered<'a>(
    rounds: Seq<List<Function<'a>>>,
    rest: List<Function<'a>>,
) -> List<Function<'a>>
    decreases rounds.len(),
{
    if rounds.len() == 0 {
        rest
    } else {
        gathered(rounds.drop_last(), spec_joined_functions(rounds.last(), rest))
    }
}

/// Whether the functions of each round fit together.
pub open spec fn are_rounds_typed(
    rounds: Seq<List<Function>>,
    callees: Set<Signature>,
) -> bool {
    forall|i: int| 0 <= i < rounds.len() ==> are_typed(#[trigger] rounds[i]@, callees)
}

/// Whether one of the rounds has the function that callers know by a signature.
pub open spec fn provided_in(rounds: Seq<List<Function>>, signature: Signature) -> bool {
    exists|k: int| 0 <= k < rounds.len() && provides(#[trigger] rounds[k]@, signature)
}

/// The functions of several rounds, in the order of the rounds.
fn gather<'a>(rounds: Vec<List<Function<'a>>>) -> (functions: List<Function<'a>>)
    ensures
        functions == gathered(rounds@, List::Nil),
        forall|callees: Set<Signature>| #[trigger]
            are_rounds_typed(rounds@, callees) ==> are_typed(functions@, callees),
        forall|signature: Signature| #[trigger]
            provided_in(rounds@, signature) ==> provides(functions@, signature),
{
    let mut left: Vec<List<Function<'a>>> = rounds;
    let mut functions: List<Function<'a>> = List::Nil;
    loop
        invariant
            gathered(rounds@, List::Nil) == gathered(left@, functions),
            forall|callees: Set<Signature>| #[trigger]
                are_rounds_typed(rounds@, callees) ==> are_rounds_typed(left@, callees)
                    && are_typed(functions@, callees),
            forall|signature: Signature| #[trigger]
                provided_in(rounds@, signature) ==> provided_in(left@, signature) || provides(
                    functions@,
                    signature,
                ),
        decreases left@.len(),
    {
        let ghost before = left@;
        match left.pop() {
            None => {
                return functions;
            },
            Some(last) => {
                proof {
                    assert forall|callees: Set<Signature>| #[trigger]
                        are_rounds_typed(rounds@, callees) implies are_rounds_typed(left@, callees)
                        && are_typed(spec_joined_functions(last, functions)@, callees) by {
                        assert(before[before.len() - 1] == last);
                        assert forall|i: int| 0 <= i < left@.len() implies are_typed(
                            #[trigger] left@[i]@,
                            callees,
                        ) by {
                            assert(left@[i] == before[i]);
                        }
                        joined_stay_typed(last, functions, callees);
                    }
                    assert forall|signature: Signature| #[trigger]
                        provided_in(rounds@, signature) implies provided_in(left@, signature)
                        || provides(spec_joined_functions(last, functions)@, signature) by {
                        if provides(functions@, signature) || provides(last@, signature) {
                            joined_provide(last, functions, signature);
                        } else {
                            let k = choose|k: int|
                                0 <= k < before.len() && provides(
                                    #[trigger] before[k]@,
                                    signature,
                                );
                            assert(before[before.len() - 1] == last);
                            assert(left@[k] == before[k]);
                        }
                    }
                }
                functions = joined_functions(&last, functions);
            },
        }
    }
}

/// A function again.
#[verifier::opaque]
pub open spec fn spec_copy_function<'a>(function: Function<'a>) -> Function<'a> {
    Function {
        id: function.id,
        name: function.name,
        is_public: function.is_public,
        attributes: function.attributes,
        parameters: function.parameters,
        return_type: function.return_type,
        body: function.body,
        span: function.span,
    }
}

/// A function again.
pub(crate) fn copy_function<'a>(function: &Function<'a>) -> (copy: Function<'a>)
    ensures
        copy == spec_copy_function(*function),
{
    reveal(spec_copy_function);
    Function {
        id: function.id,
        name: function.name.share(),
        is_public: function.is_public,
        attributes: function.attributes,
        parameters: function.parameters.share(),
        return_type: function.return_type,
        body: function.body.share(),
        span: function.span,
    }
}

/// A function among functions that are in the order of their numbers.
#[verifier::opaque]
pub open spec fn spec_inserted<'a>(
    function: Function<'a>,
    functions: List<Function<'a>>,
) -> List<Function<'a>>
    decreases functions,
{
    match functions {
        List::Nil => single(function),
        List::Cons(node) => if function.id.0 <= node.head.id.0 {
            cons(function, functions)
        } else {
            cons(spec_copy_function(node.head), spec_inserted(function, node.tail))
        },
    }
}

/// A function among functions that are in the order of their numbers.
pub(crate) fn inserted<'a>(
    function: Function<'a>,
    functions: &List<Function<'a>>,
) -> (more: List<Function<'a>>)
    ensures
        more == spec_inserted(function, *functions),
{
    let mut ahead: &List<Function<'a>> = functions;
    let mut done: Vec<Function<'a>> = Vec::new();
    loop
        invariant
            spec_inserted(function, *functions) == prepended(
                done@,
                spec_inserted(function, *ahead),
            ),
        decreases *ahead,
    {
        reveal(spec_inserted);
        match ahead {
            List::Nil => {
                return prepend(done, single(function));
            },
            List::Cons(node) => {
                if function.id.0 <= node.head.id.0 {
                    return prepend(done, cons(function, ahead.share()));
                } else {
                    done.push(copy_function(&node.head));
                    ahead = &node.tail;
                }
            },
        }
    }
}

/// The functions in the order of their numbers.
#[verifier::opaque]
pub open spec fn spec_by_number<'a>(functions: List<Function<'a>>) -> List<Function<'a>>
    decreases functions,
{
    match functions {
        List::Nil => List::Nil,
        List::Cons(node) => spec_inserted(spec_copy_function(node.head), spec_by_number(node.tail)),
    }
}

/// The functions in the order of their numbers.
pub(crate) fn by_number<'a>(functions: &List<Function<'a>>) -> (ordered: List<Function<'a>>)
    ensures
        ordered == spec_by_number(*functions),
{
    let mut left: Vec<&Node<Function<'a>>> = nodes(functions);
    let mut ordered: List<Function<'a>> = List::Nil;
    let ghost mut end: List<Function<'a>> = List::Nil;
    proof {
        reveal(spec_by_number);
    }
    loop
        invariant
            leads_through(*functions, left@, end),
            ordered == spec_by_number(end),
        decreases left@.len(),
    {
        reveal(spec_by_number);
        match left.pop() {
            None => {
                return ordered;
            },
            Some(node) => {
                ordered = inserted(copy_function(&node.head), &ordered);
                proof {
                    end = cons(node.head, end);
                }
            },
        }
    }
}

/// The numbers of the functions that are tests.
#[verifier::opaque]
pub open spec fn spec_test_functions<'a>(functions: List<Function<'a>>) -> List<FunctionId>
    decreases functions,
{
    match functions {
        List::Nil => List::Nil,
        List::Cons(node) => if node.head.attributes.test {
            cons(node.head.id, spec_test_functions(node.tail))
        } else {
            spec_test_functions(node.tail)
        },
    }
}

/// The numbers of the functions that are tests.
pub(crate) fn test_functions<'a>(functions: &List<Function<'a>>) -> (tests: List<FunctionId>)
    ensures
        tests == spec_test_functions(*functions),
{
    let mut ahead: &List<Function<'a>> = functions;
    let mut done: Vec<FunctionId> = Vec::new();
    loop
        invariant
            spec_test_functions(*functions) == prepended(done@, spec_test_functions(*ahead)),
        decreases *ahead,
    {
        reveal(spec_test_functions);
        match ahead {
            List::Nil => {
                return prepend(done, List::Nil);
            },
            List::Cons(node) => {
                if node.head.attributes.test {
                    done.push(node.head.id);
                    ahead = &node.tail;
                } else {
                    ahead = &node.tail;
                }
            },
        }
    }
}

impl<'a> State<'a> {
    /// The analyzer turns to a function.
    #[verifier::opaque]
    pub open spec fn enter_function(
        self,
        signature: Signature,
        environment: Environment<'a>,
        home: Text<'a>,
    ) -> Self {
        let s = State { frame: spec_function_frame(signature, environment, home), ..self };
        s
    }

    /// A parameter is bound.
    #[verifier::opaque]
    pub open spec fn bind_parameter(
        self,
        parameter: Parameter<'a>,
        ty: Type,
    ) -> (Self, hir::Parameter<'a>) {
        let (s, local) = self.new_local(parameter.span);
        let s = if s.is_declared_here(parameter.name.name) {
            let s = s.report(
                helped(
                    "E3101",
                    words3("parameter `", parameter.name.name, "` is declared more than once"),
                    "give each parameter a unique name",
                    parameter.name.span,
                ),
            );
            s
        } else {
            s
        };
        let s = s.declare(parameter.name.name, Binding { local, ty, mutable: false });
        (s, hir::Parameter { local, name: parameter.name.name, ty, span: parameter.span })
    }

    /// Parameters are bound.
    #[verifier::opaque]
    pub open spec fn bind_parameters(
        self,
        parameters: List<Parameter<'a>>,
        types: List<Type>,
    ) -> (Self, List<hir::Parameter<'a>>)
        decreases parameters,
    {
        match parameters {
            List::Nil => (self, List::Nil),
            List::Cons(node) => match types {
                List::Nil => (self, List::Nil),
                List::Cons(ty) => {
                    let (s, first) = self.bind_parameter(node.head, ty.head);
                    let (s, rest) = s.bind_parameters(node.tail, ty.tail);
                    (s, cons(first, rest))
                },
            },
        }
    }

    /// The local variables so far are the parameters.
    #[verifier::opaque]
    pub open spec fn close_parameters(self) -> Self {
        let s = State {
            frame: Frame { parameter_count: self.frame.next_local, ..self.frame },
            ..self
        };
        s
    }

    /// The body of a function must produce what the function returns.
    #[verifier::opaque]
    pub open spec fn check_body(
        self,
        function: ast::Function<'a>,
        expected: Type,
        actual: Type,
    ) -> Self {
        if !expected.accepts(actual) {
            let s = self.report(
                advised(
                    "E3111",
                    cons(
                        Piece::Words("function `"),
                        cons(
                            Piece::Words(function.name.name),
                            cons(
                                Piece::Words("` returns `"),
                                append(
                                    expected.text(),
                                    framed("`, but its body produces `", actual.text(), "`"),
                                ),
                            ),
                        ),
                    ),
                    framed("return a `", expected.text(), "` value on every reachable path"),
                    function.body.span,
                ),
            );
            s
        } else {
            self
        }
    }

    /// The body of a function.
    #[verifier::opaque]
    pub open spec fn analyze_body(
        self,
        function: ast::Function<'a>,
        expected: Type,
    ) -> (Self, Block<'a>) {
        let (s, body) = self.analyze_block(function.body, Some(expected), LIMIT as nat);
        let s = match function.body.tail {
            Some(tail) => s.validate_scoped_return(tail, tail.span),
            None => s,
        };
        let s = s.check_body(function, expected, body.ty);
        (s, body)
    }

    /// A function that the analyzer has turned to.
    #[verifier::opaque]
    pub open spec fn analyze_entered(
        self,
        function: ast::Function<'a>,
        name: Text<'a>,
        signature: Signature,
    ) -> (Self, Function<'a>) {
        let (s, parameters) = self.bind_parameters(function.parameters, signature.parameter_types);
        let s = s.close_parameters();
        let (s, body) = s.analyze_body(function, signature.return_type);
        (
            s,
            Function {
                id: signature.id,
                name,
                is_public: signature.is_public,
                attributes: asked_of_function(function.attributes),
                parameters,
                return_type: signature.return_type,
                body,
                span: function.span,
            },
        )
    }

    /// A function with bindings for its generic parameters.
    #[verifier::opaque]
    pub open spec fn analyze_function(
        self,
        function: ast::Function<'a>,
        name: Text<'a>,
        signature: Signature,
        environment: Environment<'a>,
        home: Text<'a>,
    ) -> (Self, Function<'a>) {
        let s = self.enter_function(signature, environment, home);
        s.analyze_entered(function, name, signature)
    }

    /// The functions with bodies.
    #[verifier::opaque]
    pub open spec fn analyze_sources(
        self,
        declarations: List<Declaration<'a>>,
    ) -> (Self, List<Function<'a>>)
        decreases declarations,
    {
        match declarations {
            List::Nil => (self, List::Nil),
            List::Cons(node) => match node.head {
                Declaration::Source { function, resolved_name, signature } => {
                    let environment = self.types.base_environment();
                    let (s, first) = self.analyze_function(
                        *function,
                        resolved_name,
                        signature,
                        environment,
                        resolved_name,
                    );
                    let (s, rest) = s.analyze_sources(node.tail);
                    (s, cons(first, rest))
                },
                Declaration::Foreign { .. } => self.analyze_sources(node.tail),
            },
        }
    }

    /// No instance waits any more.
    #[verifier::opaque]
    pub open spec fn clear_pending(self) -> Self {
        let s = State { symbols: Symbols { pending: List::Nil, ..self.symbols }, ..self };
        s
    }

    /// Instances of generic functions.
    #[verifier::opaque]
    pub open spec fn analyze_instances(
        self,
        instances: List<PendingFunction<'a>>,
    ) -> (Self, List<Function<'a>>)
        decreases instances,
    {
        match instances {
            List::Nil => (self, List::Nil),
            List::Cons(node) => {
                let (s, first) = self.analyze_function(
                    *node.head.function,
                    node.head.resolved_name,
                    node.head.signature,
                    node.head.environment,
                    node.head.home,
                );
                let (s, rest) = s.analyze_instances(node.tail);
                (s, cons(first, rest))
            },
        }
    }

    /// The instances of generic functions that wait, and those that they ask for in
    /// turn. Each round takes those that wait. The numbers of functions bound the
    /// rounds.
    pub open spec fn analyze_pending(self, fuel: nat) -> (Self, List<Function<'a>>)
        decreases fuel, 0nat, List::<Type>::Nil,
    {
        if fuel == 0 || self.symbols.pending.is_empty() {
            (self, List::Nil)
        } else {
            let waiting = spec_oldest_first(self.symbols.pending, List::Nil);
            let s = self.clear_pending();
            let (s, first) = s.analyze_instances(waiting);
            let (s, rest) = s.analyze_pending((fuel - 1) as nat);
            (s, spec_joined_functions(first, rest))
        }
    }

    /// The functions of a program: those with bodies, and those of other languages.
    #[verifier::opaque]
    pub open spec fn analyze_declarations(
        self,
        declarations: List<Declaration<'a>>,
    ) -> (Self, List<Function<'a>>) {
        let (s, sources) = self.analyze_sources(declarations);
        let (s, instances) = s.analyze_pending(LIMIT as nat);
        (s, spec_joined_functions(sources, instances))
    }
}

impl<'a> Analyzer<'a> {
    /// The analyzer turns to a function.
    pub(crate) fn enter_function(
        &mut self,
        signature: &Signature,
        environment: &Environment<'a>,
        home: &Text<'a>,
    )
        ensures
            final(self)@ == old(self)@.enter_function(*signature, *environment, *home),
            old(self)@.reaches(final(self)@),
            old(self)@.numbers_on(final(self)@),
            old(self)@.works_on(final(self)@),
            final(self)@.output() == signature.return_type,
    {
        reveal(State::enter_function);
        reveal(State::works_on);
        reveal(State::output);
        reveal(spec_function_frame);
        proof {
            self@.entered_function_leads(*signature, *environment, *home);
        }
        self.frame = function_frame(signature, environment, home);
    }

    /// A parameter is bound.
    pub(crate) fn bind_parameter(
        &mut self,
        parameter: &Parameter<'a>,
        ty: Type,
    ) -> (bound: hir::Parameter<'a>)
        ensures
            (final(self)@, bound) == old(self)@.bind_parameter(*parameter, ty),
            old(self)@.leads_to(final(self)@),
    {
        reveal(State::bind_parameter);
        let local = self.new_local(parameter.span);
        if self.is_declared_here(parameter.name.name) {
            self.report(
                helped(
                    "E3101",
                    words3("parameter `", parameter.name.name, "` is declared more than once"),
                    "give each parameter a unique name",
                    parameter.name.span,
                ),
            );
        }
        self.declare(parameter.name.name, Binding { local, ty, mutable: false });
        hir::Parameter { local, name: parameter.name.name, ty, span: parameter.span }
    }

    /// Parameters are bound.
    pub(crate) fn bind_parameters(
        &mut self,
        parameters: &List<Parameter<'a>>,
        types: &List<Type>,
    ) -> (bound: List<hir::Parameter<'a>>)
        ensures
            (final(self)@, bound) == old(self)@.bind_parameters(*parameters, *types),
            old(self)@.leads_to(final(self)@),
    {
        let mut ahead: &List<Parameter<'a>> = parameters;
        let mut current_types: &List<Type> = types;
        let mut done: Vec<hir::Parameter<'a>> = Vec::new();
        loop
            invariant
                old(self)@.bind_parameters(*parameters, *types) == {
                    let (state, rest) = self@.bind_parameters(*ahead, *current_types);
                    (state, prepended(done@, rest))
                },
                old(self)@.leads_to(self@),
            decreases *ahead,
        {
            reveal(State::bind_parameters);
            match ahead {
                List::Nil => {
                    return prepend(done, List::Nil);
                },
                List::Cons(node) => {
                    match current_types {
                        List::Nil => {
                            return prepend(done, List::Nil);
                        },
                        List::Cons(ty) => {
                            let first = self.bind_parameter(&node.head, ty.head);
                            done.push(first);
                            current_types = &ty.tail;
                            ahead = &node.tail;
                        },
                    }
                },
            }
        }
    }

    /// The local variables so far are the parameters.
    pub(crate) fn close_parameters(&mut self)
        ensures
            final(self)@ == old(self)@.close_parameters(),
            old(self)@.leads_to(final(self)@),
    {
        reveal(State::close_parameters);
        reveal(State::leads_to);
        self.frame.parameter_count = self.frame.next_local;
    }

    /// The body of a function must produce what the function returns.
    pub(crate) fn check_body(&mut self, function: &ast::Function<'a>, expected: Type, actual: Type)
        ensures
            final(self)@ == old(self)@.check_body(*function, expected, actual),
            old(self)@.leads_to(final(self)@),
            expected.accepts(actual) || final(self)@.troubled(),
    {
        reveal(State::check_body);
        reveal(State::report);
        if !expected.accepts(actual) {
            self.report(
                advised(
                    "E3111",
                    cons(
                        Piece::Words("function `"),
                        cons(
                            Piece::Words(function.name.name),
                            cons(
                                Piece::Words("` returns `"),
                                joined(
                                    &expected.text(),
                                    frame("`, but its body produces `", &actual.text(), "`"),
                                ),
                            ),
                        ),
                    ),
                    frame("return a `", &expected.text(), "` value on every reachable path"),
                    function.body.span,
                ),
            );
        }
    }

    /// The body of a function.
    pub(crate) fn analyze_body(
        &mut self,
        function: &ast::Function<'a>,
        expected: Type,
    ) -> (body: Block<'a>)
        ensures
            (final(self)@, body) == old(self)@.analyze_body(*function, expected),
            old(self)@.leads_to(final(self)@),
            expected.accepts(body.ty) || final(self)@.troubled(),
            forall|scene: Scene| #[trigger]
                final(self)@.admits(scene) && old(self)@.prepared()
                    ==> final(self)@.troubled() || sound_block(body, scene),
            lets_out(
                old(self)@.analyze_block(function.body, Some(expected), LIMIT as nat).0,
                final(self)@,
                function.body.tail,
            ),
            final(self)@.troubled() || block_renders(function.body, body),
    {
        reveal(State::analyze_body);
        let body = self.analyze_block(&function.body, Some(expected), LIMIT);
        let ghost ended = self@;
        match &function.body.tail {
            Some(tail) => self.validate_scoped_return(tail, tail.span),
            None => {
            },
        }
        self.check_body(function, expected, body.ty);
        proof {
            checked_values_are_let_out(
                ended,
                self@,
                function.body.tail,
                match &function.body.tail {
                    Some(tail) => tail.span,
                    None => function.span,
                },
            );
        }
        body
    }

    /// A function that the analyzer has turned to.
    pub(crate) fn analyze_entered(
        &mut self,
        function: &ast::Function<'a>,
        name: &Text<'a>,
        signature: &Signature,
    ) -> (analyzed: Function<'a>)
        ensures
            (final(self)@, analyzed) == old(self)@.analyze_entered(*function, *name, *signature),
            old(self)@.leads_to(final(self)@),
            forall|callees: Set<Signature>| #[trigger]
                final(self)@.calls_among(callees) && old(self)@.prepared() && old(self)@.output()
                    == signature.return_type
                    ==> is_typed(analyzed, callees) || final(self)@.troubled(),
            final(self)@.troubled() || block_renders(function.body, analyzed.body),
    {
        reveal(State::analyze_entered);
        let parameters = self.bind_parameters(&function.parameters, &signature.parameter_types);
        self.close_parameters();
        let body = self.analyze_body(function, signature.return_type);
        assert forall|callees: Set<Signature>| #[trigger] self@.calls_among(callees) implies self@.admits(
            (Scene { output: self@.output(), callees }),
        ) by {
            reveal(State::admits);
        }
        Function {
            id: signature.id,
            name: name.share(),
            is_public: signature.is_public,
            attributes: function_attributes(function),
            parameters,
            return_type: signature.return_type,
            body,
            span: function.span,
        }
    }

    /// A function with bindings for its generic parameters.
    pub(crate) fn analyze_function(
        &mut self,
        function: &ast::Function<'a>,
        name: &Text<'a>,
        signature: &Signature,
        environment: &Environment<'a>,
        home: &Text<'a>,
    ) -> (analyzed: Function<'a>)
        ensures
            (final(self)@, analyzed) == old(self)@.analyze_function(
                *function,
                *name,
                *signature,
                *environment,
                *home,
            ),
            old(self)@.reaches(final(self)@),
            old(self)@.numbers_on(final(self)@),
            old(self)@.works_on(final(self)@),
            forall|callees: Set<Signature>| #[trigger]
                final(self)@.calls_among(callees) && old(self)@.prepared()
                    ==> is_typed(analyzed, callees) || final(self)@.troubled(),
            final(self)@.troubled() || block_renders(function.body, analyzed.body),
    {
        reveal(State::analyze_function);
        self.enter_function(signature, environment, home);
        self.analyze_entered(function, name, signature)
    }

    /// The functions with bodies.
    pub(crate) fn analyze_sources(
        &mut self,
        declarations: &List<Declaration<'a>>,
    ) -> (functions: List<Function<'a>>)
        ensures
            (final(self)@, functions) == old(self)@.analyze_sources(*declarations),
            old(self)@.reaches(final(self)@),
            old(self)@.numbers_on(final(self)@),
            old(self)@.works_on(final(self)@),
            forall|callees: Set<Signature>| #[trigger]
                final(self)@.calls_among(callees) && old(self)@.prepared()
                    ==> are_typed(functions@, callees) || final(self)@.troubled(),
    {
        let mut ahead: &List<Declaration<'a>> = declarations;
        let mut done: Vec<Function<'a>> = Vec::new();
        loop
            invariant
                old(self)@.analyze_sources(*declarations) == {
                    let (state, rest) = self@.analyze_sources(*ahead);
                    (state, prepended(done@, rest))
                },
                old(self)@.reaches(self@),
                old(self)@.numbers_on(self@),
                old(self)@.works_on(self@),
                forall|callees: Set<Signature>| #[trigger]
                    self@.calls_among(callees) && old(self)@.prepared() ==> are_typed(
                        prepended(done@, List::Nil)@,
                        callees,
                    ) || self@.troubled(),
            decreases *ahead,
        {
            reveal(State::analyze_sources);
            match ahead {
                List::Nil => {
                    return prepend(done, List::Nil);
                },
                List::Cons(node) => {
                    match &node.head {
                        Declaration::Source { function, resolved_name, signature } => {
                            let environment = self.types.base_environment();
                            let first = self.analyze_function(
                                &*function,
                                resolved_name,
                                signature,
                                &environment,
                                resolved_name,
                            );
                            proof {
                                assert forall|callees: Set<Signature>|
                                    is_typed(first, callees) && #[trigger] are_typed(
                                        prepended(done@, List::Nil)@,
                                        callees,
                                    ) implies are_typed(prepended(done@.push(first), List::Nil)@, callees) by {
                                    pushed_stay_typed(done@, first, callees);
                                }
                            }
                            done.push(first);
                        },
                        Declaration::Foreign { .. } => {
                        },
                    }
                    ahead = &node.tail;
                },
            }
        }
    }

    /// No instance waits any more.
    pub(crate) fn clear_pending(&mut self)
        ensures
            final(self)@ == old(self)@.clear_pending(),
            old(self)@.reaches(final(self)@),
            old(self)@.recalls(final(self)@),
    {
        reveal(State::clear_pending);
        reveal(State::reaches);
        reveal(State::recalls);
        self.symbols.pending = List::Nil;
    }

    /// Instances of generic functions.
    pub(crate) fn analyze_instances(
        &mut self,
        instances: &List<PendingFunction<'a>>,
    ) -> (functions: List<Function<'a>>)
        ensures
            (final(self)@, functions) == old(self)@.analyze_instances(*instances),
            old(self)@.reaches(final(self)@),
            old(self)@.numbers_on(final(self)@),
            old(self)@.works_on(final(self)@),
            forall|callees: Set<Signature>| #[trigger]
                final(self)@.calls_among(callees) && old(self)@.prepared()
                    ==> are_typed(functions@, callees) || final(self)@.troubled(),
    {
        let mut ahead: &List<PendingFunction<'a>> = instances;
        let mut done: Vec<Function<'a>> = Vec::new();
        loop
            invariant
                old(self)@.analyze_instances(*instances) == {
                    let (state, rest) = self@.analyze_instances(*ahead);
                    (state, prepended(done@, rest))
                },
                old(self)@.reaches(self@),
                old(self)@.numbers_on(self@),
                old(self)@.works_on(self@),
                forall|callees: Set<Signature>| #[trigger]
                    self@.calls_among(callees) && old(self)@.prepared() ==> are_typed(
                        prepended(done@, List::Nil)@,
                        callees,
                    ) || self@.troubled(),
            decreases *ahead,
        {
            reveal(State::analyze_instances);
            match ahead {
                List::Nil => {
                    return prepend(done, List::Nil);
                },
                List::Cons(node) => {
                    let first = self.analyze_function(
                        &*node.head.function,
                        &node.head.resolved_name,
                        &node.head.signature,
                        &node.head.environment,
                        &node.head.home,
                    );
                    proof {
                        assert forall|callees: Set<Signature>|
                            is_typed(first, callees) && #[trigger] are_typed(
                                prepended(done@, List::Nil)@,
                                callees,
                            ) implies are_typed(
                            prepended(done@.push(first), List::Nil)@,
                            callees,
                        ) by {
                            pushed_stay_typed(done@, first, callees);
                        }
                    }
                    done.push(first);
                    ahead = &node.tail;
                },
            }
        }
    }

    /// The instances of generic functions that wait, and those that they ask for in
    /// turn. Each round takes those that wait. The numbers of functions bound the
    /// rounds.
    pub(crate) fn analyze_pending(&mut self, fuel: u32) -> (functions: List<Function<'a>>)
        ensures
            (final(self)@, functions) == old(self)@.analyze_pending(fuel as nat),
            old(self)@.reaches(final(self)@),
            old(self)@.recalls(final(self)@),
            old(self)@.all_wait() && old(self)@.is_numbered() && 0 <= old(self)@.oldest_number()
                && fuel == LIMIT ==> forall|signature: Signature| #[trigger]
                is_instance(final(self)@.symbols.instances, signature) ==> provides(
                    functions@,
                    signature,
                ),
            forall|callees: Set<Signature>| #[trigger]
                final(self)@.calls_among(callees) && old(self)@.prepared()
                    ==> are_typed(functions@, callees) || final(self)@.troubled(),
            old(self)@.is_numbered() ==> exists|end: int|
                old(self)@.oldest_number() <= end <= u32::MAX && numbered_between(
                    functions,
                    old(self)@.oldest_number(),
                    end,
                ),
    {
        let mut rounds: Vec<List<Function<'a>>> = Vec::new();
        let mut left: u32 = fuel;
        proof {
            reveal(State::all_wait);
        }
        while left > 0 && !self.symbols.pending.is_empty()
            invariant
                old(self)@.analyze_pending(fuel as nat) == {
                    let (state, rest) = self@.analyze_pending(left as nat);
                    (state, gathered(rounds@, rest))
                },
                old(self)@.reaches(self@),
                old(self)@.recalls(self@),
                left <= fuel,
                old(self)@.all_wait() ==> forall|signature: Signature| #[trigger]
                    is_instance(self@.symbols.instances, signature) ==> provided_in(
                        rounds@,
                        signature,
                    ) || awaits(self@.symbols.pending, signature),
                forall|callees: Set<Signature>| #[trigger]
                    self@.calls_among(callees) && old(self)@.prepared() ==> are_rounds_typed(
                        rounds@,
                        callees,
                    ) || self@.troubled(),
                old(self)@.is_numbered() ==> {
                    &&& self@.is_numbered()
                    &&& old(self)@.oldest_number() + (fuel - left) <= self@.oldest_number()
                    &&& forall|rest: List<Function<'a>>, number: int| #[trigger]
                        bearing(gathered(rounds@, rest), number) == once(
                            old(self)@.oldest_number(),
                            self@.oldest_number(),
                            number,
                        ) + bearing(rest, number)
                },
            decreases left,
        {
            let ghost earlier = self@;
            let waiting = oldest_first(&self.symbols.pending, List::Nil);
            self.clear_pending();
            let ghost cleared = self@;
            proof {
                reveal(State::clear_pending);
                none_waits(cleared);
            }
            let first = self.analyze_instances(&waiting);
            let ghost before = rounds@;
            rounds.push(first);
            proof {
                assert(rounds@.drop_last() =~= before);
                if old(self)@.all_wait() {
                    assert forall|signature: Signature| #[trigger]
                        is_instance(self@.symbols.instances, signature) implies provided_in(
                        rounds@,
                        signature,
                    ) || awaits(self@.symbols.pending, signature) by {
                        reveal(State::works_on);
                        if !awaits(self@.symbols.pending, signature) {
                            assert(is_instance(earlier.symbols.instances, signature));
                            reversed_await(earlier.symbols.pending, List::Nil, signature);
                            if awaits(waiting, signature) {
                                awaited_are_provided(cleared, waiting, signature);
                                assert(rounds@[before.len() as int] == first);
                            } else {
                                reveal(awaits);
                                let k = choose|k: int|
                                    0 <= k < before.len() && provides(
                                        #[trigger] before[k]@,
                                        signature,
                                    );
                                assert(rounds@[k] == before[k]);
                            }
                        }
                    }
                }
                if old(self)@.is_numbered() {
                    reveal(goes_on);
                    round_bears(earlier, cleared, before, old(self)@.oldest_number());
                }
                assert forall|callees: Set<Signature>|
                    are_typed(first@, callees) && #[trigger] are_rounds_typed(
                        before,
                        callees,
                    ) implies are_rounds_typed(rounds@, callees) by {
                    assert forall|i: int| 0 <= i < rounds@.len() implies are_typed(
                        #[trigger] rounds@[i]@,
                        callees,
                    ) by {
                        if i < before.len() {
                            assert(rounds@[i] == before[i]);
                        }
                    }
                }
            }
            left = left - 1;
        }
        proof {
            if old(self)@.is_numbered() {
                assert(numbered_between(
                    gathered(rounds@, List::Nil),
                    old(self)@.oldest_number(),
                    self@.oldest_number(),
                ));
            }
        }
        proof {
            if old(self)@.all_wait() && old(self)@.is_numbered() && 0
                <= old(self)@.oldest_number() && fuel == LIMIT {
                assert(self@.symbols.pending is Nil);
                reveal(awaits);
            }
        }
        gather(rounds)
    }

    /// The functions of a program: those with bodies, and those of other languages.
    pub(crate) fn analyze_declarations(
        &mut self,
        declarations: &List<Declaration<'a>>,
    ) -> (functions: List<Function<'a>>)
        ensures
            (final(self)@, functions) == old(self)@.analyze_declarations(*declarations),
            old(self)@.reaches(final(self)@),
            old(self)@.recalls(final(self)@),
            old(self)@.all_wait() && old(self)@.is_numbered() && 0 <= old(self)@.oldest_number()
                ==> forall|signature: Signature| #[trigger]
                is_instance(final(self)@.symbols.instances, signature) ==> provides(
                    functions@,
                    signature,
                ),
            forall|callees: Set<Signature>| #[trigger]
                final(self)@.calls_among(callees) && old(self)@.prepared()
                    ==> are_typed(functions@, callees) || final(self)@.troubled(),
            old(self)@.is_numbered() ==> exists|instances: List<Function<'a>>, end: int|
                {
                    &&& functions == #[trigger] spec_joined_functions(
                        old(self)@.analyze_sources(*declarations).1,
                        instances,
                    )
                    &&& old(self)@.oldest_number() <= end <= u32::MAX
                    &&& #[trigger] numbered_between(instances, old(self)@.oldest_number(), end)
                },
    {
        reveal(State::analyze_declarations);
        let sources = self.analyze_sources(declarations);
        let ghost between = self@;
        let instances = self.analyze_pending(LIMIT);
        proof {
            reveal(goes_on);
            assert forall|signature: Signature| #[trigger]
                provides(instances@, signature) implies provides(
                spec_joined_functions(sources, instances)@,
                signature,
            ) by {
                joined_provide(sources, instances, signature);
            }
            if old(self)@.is_numbered() {
                let end = choose|end: int|
                    between.oldest_number() <= end <= u32::MAX && numbered_between(
                        instances,
                        between.oldest_number(),
                        end,
                    );
                assert(numbered_between(instances, old(self)@.oldest_number(), end));
                assert(spec_joined_functions(
                    old(self)@.analyze_sources(*declarations).1,
                    instances,
                ) == spec_joined_functions(sources, instances));
            }
            assert forall|callees: Set<Signature>|
                are_typed(sources@, callees) && #[trigger] are_typed(
                    instances@,
                    callees,
                ) implies are_typed(spec_joined_functions(sources, instances)@, callees) by {
                joined_stay_typed(sources, instances, callees);
            }
        }
        joined_functions(&sources, instances)
    }
}

} // verus!

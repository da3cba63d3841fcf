//! What may leave a function that returns references.

use crate::analyzer::frame::{
    spec_find_visible, spec_follow_roots, spec_outermost, spec_scoped_name,
};
use crate::analyzer::knowledge::spec_find_known;
use crate::analyzer::paths::spec_is_none_path;
use crate::analyzer::{Binding, State};
use crate::ast::{self, lone_name, Path};
use crate::generics::{bound, Entry};
use crate::hir::LocalId;
use crate::list::{cons, List};
use crate::registry::{IntrinsicType, LIMIT};
use crate::span::Span;
use crate::syntax::{scoped_root_path, view_root};
use crate::text::listed;
use crate::types::Type;
use vstd::prelude::*;

verus! {

/// Whether a path is a single name.
pub open spec fn is_called(path: Path, name: Seq<char>) -> bool {
    path.segments@.len() == 1 && path.segments@[0].name@ == name
}

/// Whether a name is that of an entry.
pub open spec fn is_entered<V>(entries: Seq<Entry<V>>, name: Seq<char>) -> bool {
    exists|i: int| 0 <= i < entries.len() && (#[trigger] entries[i]).name@ == name
}

/// Whether the entry at a position is that of a variable, and no earlier entry
/// of its name hides it.
pub open spec fn is_shown(scope: Seq<Entry<Binding>>, local: LocalId, at: int) -> bool {
    &&& 0 <= at < scope.len()
    &&& scope[at].value.local == local
    &&& forall|i: int| 0 <= i < at ==> (#[trigger] scope[i]).name@ != scope[at].name@
}

impl<'a> State<'a> {
    /// Whether values of a type hold references.
    pub open spec fn holds_references(self, ty: Type) -> bool {
        self.types.is_scoped(ty)
    }

    /// Whether the value of an expression holds no reference, though values of
    /// the type that the function returns can: `None`, or a constructor around a
    /// value that holds none.
    pub open spec fn holds_nothing(self, expression: ast::Expression<'a>) -> bool {
        match *expression.kind {
            ast::ExpressionKind::Path(path) => is_called(path, "None"@),
            ast::ExpressionKind::Call(call) => match *call.callee.kind {
                ast::ExpressionKind::Path(path) => match self.types.intrinsic(
                    self.frame.signature.return_type,
                ) {
                    Some(IntrinsicType::Option { value }) => is_called(path, "Some"@)
                        && !self.holds_references(value),
                    Some(IntrinsicType::Result { success, error }) => (is_called(path, "Ok"@)
                        && !self.holds_references(success)) || (is_called(path, "Err"@)
                        && !self.holds_references(error)),
                    None => false,
                },
                _ => false,
            },
            _ => false,
        }
    }

    /// Whether an expression borrows from a static.
    pub open spec fn borrows_from_static(self, expression: ast::Expression<'a>) -> bool {
        match scoped_root_path(expression) {
            Some(path) => path.segments@.len() == 1 && is_entered(
                self.symbols.statics@,
                path.segments@[0].name@,
            ),
            None => false,
        }
    }

    /// Whether the value of an expression refers to a local variable: one that
    /// is on record for it, or else the one that the variable it starts from
    /// refers to in the end.
    pub open spec fn refers_to(self, expression: ast::Expression<'a>, local: LocalId) -> bool {
        match self.expression_root(expression.span) {
            Some(root) => root == local,
            None => match scoped_root_path(expression) {
                Some(path) => match lone_name(path) {
                    Some(name) => match self.lookup(name) {
                        Some(binding) => self.scoped_root(binding.local) == local,
                        None => false,
                    },
                    None => false,
                },
                None => false,
            },
        }
    }

    /// Whether the first parameter is the only one that holds references.
    pub open spec fn takes_references_first(self) -> bool {
        let types = self.frame.signature.parameter_types@;
        &&& types.len() > 0
        &&& self.holds_references(types[0])
        &&& forall|i: int| 0 < i < types.len() ==> !self.holds_references(#[trigger] types[i])
    }

    /// Whether a local variable is a parameter, and holds references.
    pub open spec fn is_scoped_entry(self, local: LocalId) -> bool {
        &&& local.0 < self.frame.parameter_count
        &&& self.frame.scopes@.len() > 0
        &&& exists|at: int| #[trigger]
            is_shown(self.frame.scopes@.last()@, local, at) && self.holds_references(
                self.frame.scopes@.last()@[at].value.ty,
            ) && forall|i: int|
                0 <= i < at ==> !#[trigger] is_shown(self.frame.scopes@.last()@, local, i)
    }

    /// Whether an expression borrows from the one parameter that holds
    /// references.
    pub open spec fn borrows_from_parameter(self, expression: ast::Expression<'a>) -> bool {
        &&& self.takes_references_first()
        &&& exists|local: LocalId| #[trigger]
            self.refers_to(expression, local) && self.is_scoped_entry(local)
    }

    /// Whether a value may leave the function.
    pub open spec fn may_leave(self, expression: ast::Expression<'a>) -> bool {
        self.holds_nothing(expression) || self.borrows_from_static(expression)
            || self.borrows_from_parameter(expression)
    }

    /// Whether each value that an expression can have may leave the function: in
    /// each arm, and in each branch.
    pub open spec fn all_may_leave(self, expression: ast::Expression<'a>) -> bool
        decreases expression,
    {
        match *expression.kind {
            ast::ExpressionKind::Match { arms, .. } => self.arms_may_leave(arms),
            ast::ExpressionKind::If { then_branch, else_branch, .. } => {
                &&& match then_branch.tail {
                    Some(tail) => self.all_may_leave(tail),
                    None => true,
                }
                &&& match else_branch {
                    Some(other) => self.all_may_leave(other),
                    None => true,
                }
            },
            ast::ExpressionKind::Block(block) => match block.tail {
                Some(tail) => self.all_may_leave(tail),
                None => true,
            },
            _ => self.may_leave(expression),
        }
    }

    /// Whether each value that arms can have may leave the function.
    pub open spec fn arms_may_leave(self, arms: List<ast::MatchArm<'a>>) -> bool
        decreases arms,
    {
        match arms {
            List::Nil => true,
            List::Cons(node) => self.all_may_leave(node.head.body) && self.arms_may_leave(
                node.tail,
            ),
        }
    }
}

/// Whether branches stand in branches no deeper than a number.
pub open spec fn is_shallow(expression: ast::Expression, depth: nat) -> bool
    decreases expression,
{
    depth > 0 && match *expression.kind {
        ast::ExpressionKind::Match { arms, .. } => arms_are_shallow(arms, (depth - 1) as nat),
        ast::ExpressionKind::If { then_branch, else_branch, .. } => {
            &&& match then_branch.tail {
                Some(tail) => is_shallow(tail, (depth - 1) as nat),
                None => true,
            }
            &&& match else_branch {
                Some(other) => is_shallow(other, (depth - 1) as nat),
                None => true,
            }
        },
        ast::ExpressionKind::Block(block) => match block.tail {
            Some(tail) => is_shallow(tail, (depth - 1) as nat),
            None => true,
        },
        _ => true,
    }
}

/// Whether the branches in arms stand no deeper than a number.
pub open spec fn arms_are_shallow(arms: List<ast::MatchArm>, depth: nat) -> bool
    decreases arms,
{
    match arms {
        List::Nil => true,
        List::Cons(node) => is_shallow(node.head.body, depth) && arms_are_shallow(
            node.tail,
            depth,
        ),
    }
}

/// Whether nothing has happened, or a problem has been reported.
pub open spec fn only_objects<'a>(before: State<'a>, after: State<'a>) -> bool {
    after == before || before.types.problems.len() < after.types.problems.len()
}

/// Whether what leaves a function may leave it, unless a problem is added.
pub open spec fn lets_out<'a>(
    before: State<'a>,
    after: State<'a>,
    value: Option<ast::Expression<'a>>,
) -> bool {
    before.types.problems.len() == after.types.problems.len() && before.holds_references(
        before.frame.signature.return_type,
    ) ==> match value {
        Some(value) => before.all_may_leave(value),
        None => true,
    }
}

/// Problems stay on the way.
pub proof fn problems_stay<'a>(before: State<'a>, after: State<'a>)
    requires
        before.leads_to(after),
    ensures
        before.types.problems.len() <= after.types.problems.len(),
{
    reveal(State::leads_to);
    reveal(crate::registry::Types::grows_into);
    reveal(crate::span::kept);
}

/// What is checked before it leaves, with problems that stay, is let out only if
/// it may leave.
pub proof fn checked_values_are_let_out<'a>(
    before: State<'a>,
    after: State<'a>,
    value: Option<ast::Expression<'a>>,
    span: Span,
)
    requires
        match value {
            Some(value) => before.validate_scoped_return(value, span).leads_to(after),
            None => true,
        },
    ensures
        lets_out(before, after, value),
{
    if let Some(value) = value {
        problems_stay(before.validate_scoped_return(value, span), after);
        if before.holds_references(before.frame.signature.return_type) {
            what_leaves_may_leave(before, value, span);
        }
    }
}

proof fn lone_names_are_names(path: Path)
    ensures
        match lone_name(path) {
            Some(name) => path.segments@.len() == 1 && path.segments@[0].name == name,
            None => path.segments@.len() != 1,
        },
{
    if path.segments is Cons {
        assert(path.segments@ =~= seq![path.segments.first()] + path.segments.rest()@);
        if path.segments.rest() is Cons {
            assert(path.segments.rest()@.len() > 0);
        }
    }
}

proof fn bound_names_are_entered<'a, V>(entries: List<Entry<'a, V>>, name: Seq<char>)
    ensures
        bound(entries, name) is Some == is_entered(entries@, name),
    decreases entries,
{
    if entries is Cons {
        bound_names_are_entered(entries.rest(), name);
        assert(entries@ =~= seq![entries.first()] + entries.rest()@);
        if entries.first().name@ == name {
            assert(entries@[0].name@ == name);
        } else if is_entered(entries.rest()@, name) {
            let i = choose|i: int|
                0 <= i < entries.rest()@.len() && (#[trigger] entries.rest()@[i]).name@ == name;
            assert(entries@[i + 1].name@ == name);
        } else if is_entered(entries@, name) {
            let i = choose|i: int|
                0 <= i < entries@.len() && (#[trigger] entries@[i]).name@ == name;
            assert(entries.rest()@[i - 1].name@ == name);
        }
    }
}

proof fn outermost_is_last<'a>(scopes: List<List<Entry<'a, Binding>>>)
    ensures
        spec_outermost(scopes) == (if scopes@.len() > 0 {
            scopes@.last()
        } else {
            List::Nil
        }),
    decreases scopes,
{
    reveal(spec_outermost);
    if scopes is Cons {
        outermost_is_last(scopes.rest());
        assert(scopes@ =~= seq![scopes.first()] + scopes.rest()@);
        if scopes.rest() is Cons {
            assert(scopes.rest()@.len() > 0);
        }
    }
}

/// Whether an entry is shown where some names are hidden.
spec fn is_open(
    scope: Seq<Entry<Binding>>,
    local: LocalId,
    hidden: List<&str>,
    at: int,
) -> bool {
    is_shown(scope, local, at) && !listed(hidden, scope[at].name@)
}

proof fn visible_entry_is_first<'a>(
    scope: List<Entry<'a, Binding>>,
    local: LocalId,
    hidden: List<&'a str>,
)
    ensures
        match spec_find_visible(scope, local, hidden) {
            Some(binding) => exists|at: int| #[trigger]
                is_open(scope@, local, hidden, at) && scope@[at].value == binding && forall|i: int|
                    0 <= i < at ==> !#[trigger] is_open(scope@, local, hidden, i),
            None => forall|at: int| !#[trigger] is_open(scope@, local, hidden, at),
        },
    decreases scope,
{
    reveal(spec_find_visible);
    if scope is Cons {
        let first = scope.first();
        let rest = scope.rest();
        assert(scope@ =~= seq![first] + rest@);
        assert(scope@[0] == first);
        if first.value.local == local && !listed(hidden, first.name@) {
            assert(is_open(scope@, local, hidden, 0));
        } else {
            let more = cons(first.name, hidden);
            visible_entry_is_first(rest, local, more);
            assert(!is_open(scope@, local, hidden, 0));
            assert forall|at: int| 0 < at implies #[trigger] is_open(scope@, local, hidden, at)
                == is_open(rest@, local, more, at - 1) by {
                if at < scope@.len() {
                    assert(scope@[at] == rest@[at - 1]);
                    assert(listed(more, scope@[at].name@) == (first.name@ == scope@[at].name@
                        || listed(hidden, scope@[at].name@)));
                    if is_open(scope@, local, hidden, at) {
                        assert(scope@[0].name@ != scope@[at].name@);
                        assert forall|i: int| 0 <= i < at - 1 implies (
                        #[trigger] rest@[i]).name@ != rest@[at - 1].name@ by {
                            assert(scope@[i + 1].name@ != scope@[at].name@);
                        }
                    }
                    if is_open(rest@, local, more, at - 1) {
                        assert forall|i: int| 0 <= i < at implies (
                        #[trigger] scope@[i]).name@ != scope@[at].name@ by {
                            if i > 0 {
                                assert(rest@[i - 1].name@ != rest@[at - 1].name@);
                            }
                        }
                    }
                }
            }
            match spec_find_visible(rest, local, more) {
                Some(binding) => {
                    let at = choose|at: int| #[trigger]
                        is_open(rest@, local, more, at) && rest@[at].value == binding && forall|
                            i: int,
                        |
                            0 <= i < at ==> !#[trigger] is_open(rest@, local, more, i);
                    assert(is_open(scope@, local, hidden, at + 1) == is_open(
                        rest@,
                        local,
                        more,
                        at,
                    ));
                    assert(scope@[at + 1] == rest@[at]);
                    assert forall|i: int| 0 <= i < at + 1 implies !#[trigger] is_open(
                        scope@,
                        local,
                        hidden,
                        i,
                    ) by {
                        if i > 0 {
                            assert(!is_open(rest@, local, more, i - 1));
                        }
                    }
                },
                None => {
                    assert forall|at: int| !#[trigger] is_open(scope@, local, hidden, at) by {
                        if at > 0 {
                            assert(!is_open(rest@, local, more, at - 1));
                        }
                    }
                },
            }
        }
    }
}

proof fn no_type_is_counted<'a>(state: State<'a>, list: List<Type>)
    ensures
        state.count_scoped(list) == 0 <==> forall|i: int|
            0 <= i < list@.len() ==> !state.holds_references(#[trigger] list@[i]),
    decreases list,
{
    reveal(State::count_scoped);
    if list is Cons {
        no_type_is_counted(state, list.rest());
        assert(list@ =~= seq![list.first()] + list.rest()@);
        assert(list@[0] == list.first());
        if state.count_scoped(list) == 0 {
            assert forall|i: int| 0 <= i < list@.len() implies !state.holds_references(
                #[trigger] list@[i],
            ) by {
                if i > 0 {
                    assert(list@[i] == list.rest()@[i - 1]);
                }
            }
        }
        if forall|i: int| 0 <= i < list@.len() ==> !state.holds_references(#[trigger] list@[i]) {
            assert forall|i: int| 0 <= i < list.rest()@.len() implies !state.holds_references(
                #[trigger] list.rest()@[i],
            ) by {
                assert(list@[i + 1] == list.rest()@[i]);
            }
        }
    }
}

proof fn one_source_is_first<'a>(state: State<'a>)
    ensures
        state.has_one_scoped_source() == state.takes_references_first(),
{
    reveal(State::has_one_scoped_source);
    reveal(State::count_scoped);
    let types = state.frame.signature.parameter_types;
    if types is Cons {
        no_type_is_counted(state, types.rest());
        assert(types@ =~= seq![types.first()] + types.rest()@);
        assert(types@[0] == types.first());
        if state.has_one_scoped_source() {
            assert forall|i: int| 0 < i < types@.len() implies !state.holds_references(
                #[trigger] types@[i],
            ) by {
                assert(types@[i] == types.rest()@[i - 1]);
            }
        }
        if state.takes_references_first() {
            assert forall|i: int| 0 <= i < types.rest()@.len() implies !state.holds_references(
                #[trigger] types.rest()@[i],
            ) by {
                assert(types@[i + 1] == types.rest()@[i]);
            }
        }
    }
}

proof fn parameters_are_entries<'a>(state: State<'a>, local: LocalId)
    ensures
        state.is_scoped_parameter(local) == state.is_scoped_entry(local),
{
    reveal(State::is_scoped_parameter);
    outermost_is_last(state.frame.scopes);
    let scope = spec_outermost(state.frame.scopes);
    visible_entry_is_first(scope, local, List::Nil);
    assert forall|at: int| #[trigger] is_open(scope@, local, List::Nil, at) == is_shown(
        scope@,
        local,
        at,
    ) by {}
    if local.0 < state.frame.parameter_count {
        match spec_find_visible(scope, local, List::Nil) {
            Some(binding) => {
                let at = choose|at: int| #[trigger]
                    is_open(scope@, local, List::Nil, at) && scope@[at].value == binding && forall|
                        i: int,
                    |
                        0 <= i < at ==> !#[trigger] is_open(scope@, local, List::Nil, i);
                assert(is_shown(scope@, local, at));
                assert forall|i: int| 0 <= i < at implies !#[trigger] is_shown(
                    scope@,
                    local,
                    i,
                ) by {
                    assert(!is_open(scope@, local, List::Nil, i));
                }
                if state.is_scoped_entry(local) {
                    let other = choose|other: int| #[trigger]
                        is_shown(scope@, local, other) && state.holds_references(
                            scope@[other].value.ty,
                        ) && forall|i: int|
                            0 <= i < other ==> !#[trigger] is_shown(scope@, local, i);
                    assert(other == at);
                }
            },
            None => {
                assert forall|at: int| !#[trigger] is_shown(scope@, local, at) by {
                    assert(!is_open(scope@, local, List::Nil, at));
                }
            },
        }
    }
}

/// A value is let out of a function exactly where it holds no reference, or
/// borrows from a static or from the parameter.
proof fn leaf_is_checked<'a>(state: State<'a>, expression: ast::Expression<'a>, span: Span)
    ensures
        ({
            let after = if !state.scoped_return_is_empty(expression)
                && !state.is_rooted_in_static(expression) {
                state.validate_return_source(expression, span)
            } else {
                state
            };
            only_objects(state, after) && (after == state <==> state.may_leave(expression))
        }),
{
    reveal(State::report);
    reveal(State::scoped_return_is_empty);
    reveal(State::wraps_unscoped);
    reveal(State::intrinsic);
    reveal(spec_is_none_path);
    reveal(State::is_rooted_in_static);
    reveal(State::is_static);
    reveal(spec_scoped_name);
    reveal(State::validate_return_source);
    reveal(State::is_rooted_in_parameter);
    reveal(State::scoped_source_local);
    one_source_is_first(state);
    match &*expression.kind {
        ast::ExpressionKind::Path(path) => lone_names_are_names(*path),
        ast::ExpressionKind::Call(call) => match &*call.callee.kind {
            ast::ExpressionKind::Path(path) => lone_names_are_names(*path),
            _ => {},
        },
        _ => {},
    }
    assert(state.scoped_return_is_empty(expression) == state.holds_nothing(expression));
    if let Some(path) = scoped_root_path(expression) {
        lone_names_are_names(path);
        if let Some(name) = lone_name(path) {
            bound_names_are_entered(state.symbols.statics, name@);
        }
    }
    assert(state.is_rooted_in_static(expression) == state.borrows_from_static(expression));
    let root = match state.expression_root(expression.span) {
        Some(root) => Some(root),
        None => state.scoped_source_local(expression),
    };
    if let Some(local) = root {
        parameters_are_entries(state, local);
        assert(state.refers_to(expression, local));
        assert forall|other: LocalId| #[trigger] state.refers_to(expression, other) implies other
            == local by {}
    }
    assert(state.is_rooted_in_parameter(expression) && state.has_one_scoped_source()
        <==> state.borrows_from_parameter(expression));
}

proof fn returned_value_is_checked<'a>(
    state: State<'a>,
    expression: ast::Expression<'a>,
    span: Span,
    fuel: nat,
)
    requires
        state.holds_references(state.frame.signature.return_type),
    ensures
        only_objects(state, state.validate_return_within(expression, span, fuel)),
        state.validate_return_within(expression, span, fuel) == state ==> state.all_may_leave(
            expression,
        ),
        state.all_may_leave(expression) && is_shallow(expression, fuel)
            ==> state.validate_return_within(expression, span, fuel) == state,
    decreases fuel, 0nat, List::<Type>::Nil,
{
    reveal(State::report);
    if fuel > 0 {
        returned_form_is_checked(state, expression, span, (fuel - 1) as nat);
    }
}

proof fn returned_form_is_checked<'a>(
    state: State<'a>,
    expression: ast::Expression<'a>,
    span: Span,
    fuel: nat,
)
    requires
        state.holds_references(state.frame.signature.return_type),
    ensures
        only_objects(state, state.validate_return_form(expression, span, fuel)),
        state.validate_return_form(expression, span, fuel) == state ==> state.all_may_leave(
            expression,
        ),
        state.all_may_leave(expression) && is_shallow(expression, fuel + 1)
            ==> state.validate_return_form(expression, span, fuel) == state,
    decreases fuel, 2nat, List::<Type>::Nil,
{
    match &*expression.kind {
        ast::ExpressionKind::Match { arms, .. } => {
            returned_arms_are_checked(state, *arms, fuel);
        },
        ast::ExpressionKind::If { then_branch, else_branch, .. } => {
            returned_branch_is_checked(state, then_branch.tail, fuel);
            let after = state.validate_returned_branch(then_branch.tail, fuel);
            if after == state {
                returned_branch_is_checked(state, *else_branch, fuel);
            } else {
                branches_only_object(after, *else_branch, fuel);
            }
        },
        ast::ExpressionKind::Block(block) => {
            returned_branch_is_checked(state, block.tail, fuel);
        },
        _ => {
            leaf_is_checked(state, expression, span);
        },
    }
}

proof fn returned_arms_are_checked<'a>(
    state: State<'a>,
    arms: List<ast::MatchArm<'a>>,
    fuel: nat,
)
    requires
        state.holds_references(state.frame.signature.return_type),
    ensures
        only_objects(state, state.validate_returned_arms(arms, fuel)),
        state.validate_returned_arms(arms, fuel) == state ==> state.arms_may_leave(arms),
        state.arms_may_leave(arms) && arms_are_shallow(arms, fuel) ==> state.validate_returned_arms(
            arms,
            fuel,
        ) == state,
    decreases fuel, 1nat, arms,
{
    if arms is Cons {
        let first = arms.first();
        returned_value_is_checked(state, first.body, first.span, fuel);
        empty_values_may_leave(state, first.body);
        let after = if !state.scoped_return_is_empty(first.body) {
            state.validate_return_within(first.body, first.span, fuel)
        } else {
            state
        };
        if after == state {
            returned_arms_are_checked(state, arms.rest(), fuel);
        } else {
            arms_only_object(after, arms.rest(), fuel);
        }
    }
}

proof fn returned_branch_is_checked<'a>(
    state: State<'a>,
    branch: Option<ast::Expression<'a>>,
    fuel: nat,
)
    requires
        state.holds_references(state.frame.signature.return_type),
    ensures
        only_objects(state, state.validate_returned_branch(branch, fuel)),
        match branch {
            Some(value) => {
                &&& state.validate_returned_branch(branch, fuel) == state ==> state.all_may_leave(
                    value,
                )
                &&& state.all_may_leave(value) && is_shallow(value, fuel)
                    ==> state.validate_returned_branch(branch, fuel) == state
            },
            None => state.validate_returned_branch(branch, fuel) == state,
        },
    decreases fuel, 1nat, List::<Type>::Nil,
{
    if let Some(value) = branch {
        returned_value_is_checked(state, value, value.span, fuel);
        empty_values_may_leave(state, value);
    }
}

proof fn empty_values_may_leave<'a>(state: State<'a>, expression: ast::Expression<'a>)
    ensures
        state.scoped_return_is_empty(expression) ==> state.all_may_leave(expression),
{
    reveal(State::scoped_return_is_empty);
    if state.scoped_return_is_empty(expression) {
        leaf_is_checked(state, expression, expression.span);
    }
}

proof fn value_only_objects<'a>(
    state: State<'a>,
    expression: ast::Expression<'a>,
    span: Span,
    fuel: nat,
)
    ensures
        only_objects(state, state.validate_return_within(expression, span, fuel)),
    decreases fuel, 0nat, List::<Type>::Nil,
{
    reveal(State::report);
    reveal(State::validate_return_source);
    if fuel > 0 && state.holds_references(state.frame.signature.return_type) {
        match &*expression.kind {
            ast::ExpressionKind::Match { arms, .. } => {
                arms_only_object(state, *arms, (fuel - 1) as nat);
            },
            ast::ExpressionKind::If { then_branch, else_branch, .. } => {
                branches_only_object(state, then_branch.tail, (fuel - 1) as nat);
                branches_only_object(
                    state.validate_returned_branch(then_branch.tail, (fuel - 1) as nat),
                    *else_branch,
                    (fuel - 1) as nat,
                );
            },
            ast::ExpressionKind::Block(block) => {
                branches_only_object(state, block.tail, (fuel - 1) as nat);
            },
            _ => {},
        }
    }
}

proof fn arms_only_object<'a>(state: State<'a>, arms: List<ast::MatchArm<'a>>, fuel: nat)
    ensures
        only_objects(state, state.validate_returned_arms(arms, fuel)),
    decreases fuel, 1nat, arms,
{
    if arms is Cons {
        let first = arms.first();
        value_only_objects(state, first.body, first.span, fuel);
        let after = if !state.scoped_return_is_empty(first.body) {
            state.validate_return_within(first.body, first.span, fuel)
        } else {
            state
        };
        arms_only_object(after, arms.rest(), fuel);
    }
}

proof fn branches_only_object<'a>(
    state: State<'a>,
    branch: Option<ast::Expression<'a>>,
    fuel: nat,
)
    ensures
        only_objects(state, state.validate_returned_branch(branch, fuel)),
    decreases fuel, 1nat, List::<Type>::Nil,
{
    if let Some(value) = branch {
        value_only_objects(state, value, value.span, fuel);
    }
}

/// In a function that returns references, a value is let out only if each value
/// that it can have may leave: one that holds no reference, borrows from a
/// static, or borrows from the first parameter, which is the only one that holds
/// references. Any other is reported.
pub proof fn what_leaves_may_leave<'a>(
    state: State<'a>,
    expression: ast::Expression<'a>,
    span: Span,
)
    requires
        state.holds_references(state.frame.signature.return_type),
    ensures
        only_objects(state, state.validate_scoped_return(expression, span)),
        state.validate_scoped_return(expression, span) == state ==> state.all_may_leave(expression),
        state.all_may_leave(expression) && is_shallow(expression, LIMIT as nat)
            ==> state.validate_scoped_return(expression, span) == state,
{
    reveal(State::validate_scoped_return);
    returned_value_is_checked(state, expression, span, LIMIT as nat);
}

/// What a `return` statement gives back is held to the same.
pub proof fn what_is_returned_may_leave<'a>(
    state: State<'a>,
    value: ast::Expression<'a>,
    span: Span,
)
    requires
        state.holds_references(state.frame.signature.return_type),
    ensures
        only_objects(state, state.validate_optional_return(Some(value), span)),
        state.validate_optional_return(Some(value), span) == state ==> state.all_may_leave(value),
        state.all_may_leave(value) && is_shallow(value, LIMIT as nat)
            ==> state.validate_optional_return(Some(value), span) == state,
{
    reveal(State::validate_optional_return);
    what_leaves_may_leave(state, value, span);
}

/// Checking what leaves a function changes nothing but the problems.
pub proof fn checks_of_what_leaves_only_object<'a>(
    state: State<'a>,
    value: Option<ast::Expression<'a>>,
    span: Span,
)
    ensures
        only_objects(state, state.validate_optional_return(value, span)),
        match value {
            Some(value) => only_objects(state, state.validate_scoped_return(value, span)),
            None => true,
        },
{
    reveal(State::validate_optional_return);
    reveal(State::validate_scoped_return);
    if let Some(value) = value {
        value_only_objects(state, value, span, LIMIT as nat);
    }
}

/// A borrow of a variable that the function itself declares cannot be returned:
/// where the variable refers to nothing else, is not a parameter and has not the
/// name of a static, a problem is reported.
pub proof fn borrows_of_variables_do_not_leave<'a>(
    state: State<'a>,
    value: ast::Expression<'a>,
    borrowed: ast::Expression<'a>,
    path: Path<'a>,
    span: Span,
)
    requires
        state.holds_references(state.frame.signature.return_type),
        *value.kind is Unary,
        (*value.kind)->Unary_operator is Borrow || (*value.kind)->Unary_operator is BorrowMut,
        (*value.kind)->Unary_operand == borrowed,
        view_root(borrowed) == Some(path),
        lone_name(path) is Some,
        !is_entered(state.symbols.statics@, path.segments@[0].name@),
        state.expression_root(value.span) is None,
        match state.lookup(lone_name(path)->0) {
            Some(binding) => binding.local.0 >= state.frame.parameter_count && spec_find_known(
                state.frame.scoped_roots,
                binding.local,
            ) is None,
            None => true,
        },
    ensures
        state.types.problems.len() < state.validate_optional_return(
            Some(value),
            span,
        ).types.problems.len(),
{
    reveal(spec_follow_roots);
    reveal(State::scoped_root);
    what_is_returned_may_leave(state, value, span);
    assert(scoped_root_path(value) == Some(path));
    assert(!state.borrows_from_parameter(value)) by {
        if state.borrows_from_parameter(value) {
            let local = choose|local: LocalId| #[trigger]
                state.refers_to(value, local) && state.is_scoped_entry(local);
            assert(local.0 < state.frame.parameter_count);
        }
    }
    assert(!state.may_leave(value));
}

/// A borrow of a part of something borrows from what that borrows from.
pub proof fn parts_are_borrowed_from_the_whole<'a>(
    whole: ast::Expression<'a>,
    part: ast::Expression<'a>,
)
    requires
        match *part.kind {
            ast::ExpressionKind::Field(field) => field.base == whole,
            ast::ExpressionKind::Index(index) => index.base == whole,
            ast::ExpressionKind::Cast { value, .. } => value == whole,
            _ => false,
        },
    ensures
        view_root(part) == view_root(whole),
{
}

} // verus!

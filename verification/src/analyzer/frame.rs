//! What is known while a function is being checked: scopes, loops, borrows and
//! moves.

use crate::analyzer::borrowing::{forgotten_is_lost, known_is_found};
use crate::analyzer::{
    Analyzer, Binding, Borrow, BorrowState, DeferredUse, ExpressionRoot, FieldMove,
    FieldProjection, Frame, Known, LoopContext, LoopKind, MovedField, PlaceAvailability, State,
};
use crate::analyzer::knowledge::{
    find_known, forget, forget_all, know, release, spec_find_known, spec_forget, spec_forget_all,
    spec_know, spec_release,
};
use crate::analyzer::sparing::{
    found_in_scope_is_apart, reservations, scopes_are_apart, watched, Watch,
};
use crate::ast::{
    lone_name, single_path_name, Expression, ExpressionKind, FieldExpression, FieldName, Path,
};
use crate::generics::{bound, find, with, Entry, Environment};
use crate::hir::LocalId;
use crate::list::{cons, prepend, prepended, single, List};
use crate::mention::{
    any_mentions, call_mentions, field_mentions, index_mentions, mentions, path_mentions,
};
use crate::span::{advised, error, helped, Span};
use crate::syntax::{assignment_root, assignment_root_path, scoped_return_root, scoped_root_path};
use crate::text::{frame, framed, is_listed, listed, number, same, words, words3, Piece};
use crate::types::Type;
use vstd::prelude::*;

verus! {

broadcast use {
    crate::analyzer::growth::group_led,
    crate::analyzer::numbering::group_numbered,
    crate::analyzer::sparing::group_spared,
    crate::list::pushed_comes_first,
    crate::registry::growth::group_grown,
    crate::span::group_kept,
};

/// The local variable of that name in the innermost scope that has one.
#[verifier::opaque]
pub open spec fn spec_find_binding<'a>(
    scopes: List<List<Entry<'a, Binding>>>,
    name: &str,
) -> Option<Binding>
    decreases scopes,
{
    match scopes {
        List::Nil => None,
        List::Cons(node) => match bound(node.head, name@) {
            Some(binding) => Some(binding),
            None => spec_find_binding(node.tail, name),
        },
    }
}

proof fn found_binding_is_apart<'a>(
    scopes: List<List<Entry<'a, Binding>>>,
    name: &str,
    watch: Watch,
)
    requires
        scopes_are_apart(scopes, watch),
        name@ != watch.name,
    ensures
        match spec_find_binding(scopes, name) {
            Some(binding) => binding.local != watch.local,
            None => true,
        },
    decreases scopes,
{
    reveal(spec_find_binding);
    reveal(scopes_are_apart);
    match scopes {
        List::Nil => {},
        List::Cons(_) => {
            found_in_scope_is_apart(scopes.first(), name@, watch);
            found_binding_is_apart(scopes.rest(), name, watch);
        },
    }
}

/// The local variable of that name in the innermost scope that has one.
pub(crate) fn find_binding<'a>(
    scopes: &List<List<Entry<'a, Binding>>>,
    name: &str,
) -> (binding: Option<Binding>)
    ensures
        binding == spec_find_binding(*scopes, name),
{
    let mut ahead: &List<List<Entry<'a, Binding>>> = scopes;
    loop
        invariant
            spec_find_binding(*scopes, name) == spec_find_binding(*ahead, name),
        decreases *ahead,
    {
        reveal(spec_find_binding);
        match ahead {
            List::Nil => {
                return None;
            },
            List::Cons(node) => {
                match find(&node.head, name) {
                    Some(binding) => {
                        return Some(*binding);
                    },
                    None => {
                        ahead = &node.tail;
                    },
                }
            },
        }
    }
}

/// The outermost scope.
#[verifier::opaque]
pub open spec fn spec_outermost<'a>(
    scopes: List<List<Entry<'a, Binding>>>,
) -> List<Entry<'a, Binding>>
    decreases scopes,
{
    match scopes {
        List::Nil => List::Nil,
        List::Cons(node) => if node.tail.is_empty() {
            node.head
        } else {
            spec_outermost(node.tail)
        },
    }
}

/// The outermost scope.
pub(crate) fn outermost<'a>(
    scopes: &List<List<Entry<'a, Binding>>>,
) -> (scope: List<Entry<'a, Binding>>)
    ensures
        scope == spec_outermost(*scopes),
{
    let mut ahead: &List<List<Entry<'a, Binding>>> = scopes;
    loop
        invariant
            spec_outermost(*scopes) == spec_outermost(*ahead),
        decreases *ahead,
    {
        reveal(spec_outermost);
        match ahead {
            List::Nil => {
                return List::Nil;
            },
            List::Cons(node) => {
                if node.tail.is_empty() {
                    return node.head.share();
                } else {
                    ahead = &node.tail;
                }
            },
        }
    }
}

/// The variable of a scope that stands for a local variable. Variables that
/// another one hides do not count.
#[verifier::opaque]
pub open spec fn spec_find_visible<'a>(
    scope: List<Entry<'a, Binding>>,
    local: LocalId,
    hidden: List<&'a str>,
) -> Option<Binding>
    decreases scope,
{
    match scope {
        List::Nil => None,
        List::Cons(node) => if node.head.value.local == local && !listed(hidden, node.head.name@) {
            Some(node.head.value)
        } else {
            spec_find_visible(node.tail, local, cons(node.head.name, hidden))
        },
    }
}

/// The variable of a scope that stands for a local variable. Variables that
/// another one hides do not count.
pub(crate) fn find_visible<'a>(
    scope: &List<Entry<'a, Binding>>,
    local: LocalId,
    hidden: List<&'a str>,
) -> (binding: Option<Binding>)
    ensures
        binding == spec_find_visible(*scope, local, hidden),
{
    let mut ahead: &List<Entry<'a, Binding>> = scope;
    let mut current_hidden: List<&'a str> = hidden;
    loop
        invariant
            spec_find_visible(*scope, local, hidden) == spec_find_visible(
                *ahead,
                local,
                current_hidden,
            ),
        decreases *ahead,
    {
        reveal(spec_find_visible);
        match ahead {
            List::Nil => {
                return None;
            },
            List::Cons(node) => {
                if node.head.value.local == local
                && !is_listed(&current_hidden, node.head.name) {
                    return Some(node.head.value);
                } else {
                    current_hidden = cons(node.head.name, current_hidden);
                    ahead = &node.tail;
                }
            },
        }
    }
}

/// The name that an expression starts from.
#[verifier::opaque]
pub open spec fn spec_root_name<'a>(expression: Expression<'a>) -> Option<&'a str> {
    match assignment_root(expression) {
        Some(path) => lone_name(path),
        None => None,
    }
}

proof fn root_is_mentioned<'a>(expression: Expression<'a>, name: Seq<char>)
    requires
        !mentions(expression, name),
    ensures
        match spec_root_name(expression) {
            Some(found) => found@ != name,
            None => true,
        },
        match assignment_root(expression) {
            Some(path) => !path_mentions(path, name),
            None => true,
        },
    decreases expression,
{
    reveal(spec_root_name);
    match *expression.kind {
        ExpressionKind::Field(field) => {
            assert(field_mentions(field, name) == mentions(field.base, name));
            root_is_mentioned(field.base, name);
        },
        ExpressionKind::Index(index) => {
            assert(index_mentions(index, name) == (mentions(index.base, name) || any_mentions(
                index.indices,
                name,
            )));
            root_is_mentioned(index.base, name);
        },
        ExpressionKind::Call(call) => {
            match *call.callee.kind {
                ExpressionKind::Field(field) => {
                    assert(call_mentions(call, name) == (mentions(call.callee, name)
                        || any_mentions(call.arguments, name)));
                    assert(mentions(call.callee, name) == field_mentions(field, name));
                    assert(field_mentions(field, name) == mentions(field.base, name));
                    root_is_mentioned(field.base, name);
                },
                _ => {},
            }
        },
        _ => {},
    }
}

/// The name that an expression starts from.
pub(crate) fn root_name<'a>(expression: &Expression<'a>) -> (name: Option<&'a str>)
    ensures
        name == spec_root_name(*expression),
{
    reveal(spec_root_name);
    match assignment_root_path(expression) {
        Some(path) => single_path_name(&path),
        None => None,
    }
}

/// The name that a returned reference starts from.
#[verifier::opaque]
pub open spec fn spec_scoped_name<'a>(expression: Expression<'a>) -> Option<&'a str> {
    match scoped_root_path(expression) {
        Some(path) => lone_name(path),
        None => None,
    }
}

/// The name that a returned reference starts from.
pub(crate) fn scoped_name<'a>(expression: &Expression<'a>) -> (name: Option<&'a str>)
    ensures
        name == spec_scoped_name(*expression),
{
    reveal(spec_scoped_name);
    match scoped_return_root(expression) {
        Some(path) => single_path_name(&path),
        None => None,
    }
}

/// The local variable that a reference leads to in the end. Each step is taken
/// once.
#[verifier::opaque]
pub open spec fn spec_follow_roots(
    roots: List<Known<LocalId>>,
    local: LocalId,
    steps: List<Known<LocalId>>,
) -> LocalId
    decreases steps,
{
    match steps {
        List::Nil => local,
        List::Cons(node) => match spec_find_known(roots, local) {
            None => local,
            Some(root) => if root == local {
                local
            } else {
                spec_follow_roots(roots, root, node.tail)
            },
        },
    }
}

/// The local variable that a reference leads to in the end. Each step is taken
/// once.
pub(crate) fn follow_roots(
    roots: &List<Known<LocalId>>,
    local: LocalId,
    steps: &List<Known<LocalId>>,
) -> (root: LocalId)
    ensures
        root == spec_follow_roots(*roots, local, *steps),
{
    let mut ahead: &List<Known<LocalId>> = steps;
    let mut current_local: LocalId = local;
    loop
        invariant
            spec_follow_roots(*roots, local, *steps) == spec_follow_roots(
                *roots,
                current_local,
                *ahead,
            ),
        decreases *ahead,
    {
        reveal(spec_follow_roots);
        match ahead {
            List::Nil => {
                return current_local;
            },
            List::Cons(node) => {
                match find_known(roots, current_local) {
                    None => {
                        return current_local;
                    },
                    Some(root) => {
                        if root == current_local {
                            return current_local;
                        } else {
                            current_local = root;
                            ahead = &node.tail;
                        }
                    },
                }
            },
        }
    }
}

/// The variable that an expression refers to, if any: the newest entry counts.
#[verifier::opaque]
pub open spec fn spec_find_root(roots: List<ExpressionRoot>, span: Span) -> Option<LocalId>
    decreases roots,
{
    match roots {
        List::Nil => None,
        List::Cons(node) => if node.head.span == span {
            Some(node.head.root)
        } else {
            spec_find_root(node.tail, span)
        },
    }
}

/// The variable that an expression refers to, if any: the newest entry counts.
pub(crate) fn find_root(roots: &List<ExpressionRoot>, span: Span) -> (root: Option<LocalId>)
    ensures
        root == spec_find_root(*roots, span),
{
    let mut ahead: &List<ExpressionRoot> = roots;
    loop
        invariant
            spec_find_root(*roots, span) == spec_find_root(*ahead, span),
        decreases *ahead,
    {
        reveal(spec_find_root);
        match ahead {
            List::Nil => {
                return None;
            },
            List::Cons(node) => {
                if node.head.span == span {
                    return Some(node.head.root);
                } else {
                    ahead = &node.tail;
                }
            },
        }
    }
}

/// Whether two steps into an aggregate are the same.
#[verifier::opaque]
pub open spec fn spec_same_projection<'a>(
    left: FieldProjection<'a>,
    right: FieldProjection<'a>,
) -> bool {
    match left {
        FieldProjection::Named(left) => match right {
            FieldProjection::Named(right) => left@ == right@,
            FieldProjection::Tuple(_) => false,
        },
        FieldProjection::Tuple(left) => match right {
            FieldProjection::Named(_) => false,
            FieldProjection::Tuple(right) => left == right,
        },
    }
}

/// Whether two steps into an aggregate are the same.
pub(crate) fn same_projection<'a>(
    left: &FieldProjection<'a>,
    right: &FieldProjection<'a>,
) -> (answer: bool)
    ensures
        answer == spec_same_projection(*left, *right),
{
    reveal(spec_same_projection);
    match left {
        FieldProjection::Named(left) => match right {
            FieldProjection::Named(right) => same(left, right),
            FieldProjection::Tuple(_) => false,
        },
        FieldProjection::Tuple(left) => match right {
            FieldProjection::Named(_) => false,
            FieldProjection::Tuple(right) => *left == *right,
        },
    }
}

/// Whether the steps start with others.
#[verifier::opaque]
pub open spec fn spec_starts_with<'a>(
    steps: List<FieldProjection<'a>>,
    prefix: List<FieldProjection<'a>>,
) -> bool
    decreases prefix,
{
    match prefix {
        List::Nil => true,
        List::Cons(expected) => match steps {
            List::Nil => false,
            List::Cons(step) => spec_same_projection(step.head, expected.head)
                && spec_starts_with(step.tail, expected.tail),
        },
    }
}

/// Whether the steps start with others.
pub(crate) fn starts_with<'a>(
    steps: &List<FieldProjection<'a>>,
    prefix: &List<FieldProjection<'a>>,
) -> (answer: bool)
    ensures
        answer == spec_starts_with(*steps, *prefix),
{
    let mut ahead: &List<FieldProjection<'a>> = prefix;
    let mut current_steps: &List<FieldProjection<'a>> = steps;
    loop
        invariant
            spec_starts_with(*steps, *prefix) == spec_starts_with(*current_steps, *ahead),
        decreases *ahead,
    {
        reveal(spec_starts_with);
        match ahead {
            List::Nil => {
                return true;
            },
            List::Cons(expected) => {
                match current_steps {
                    List::Nil => {
                        return false;
                    },
                    List::Cons(step) => {
                        if !same_projection(&step.head, &expected.head) {
                            return false;
                        }
                        current_steps = &step.tail;
                        ahead = &expected.tail;
                    },
                }
            },
        }
    }
}

/// Where a part of a local variable was moved.
#[verifier::opaque]
pub open spec fn spec_find_field_move<'a>(
    moves: List<FieldMove<'a>>,
    local: LocalId,
) -> Option<Span>
    decreases moves,
{
    match moves {
        List::Nil => None,
        List::Cons(node) => if node.head.field.local == local {
            Some(node.head.at)
        } else {
            spec_find_field_move(node.tail, local)
        },
    }
}

/// Where a part of a local variable was moved.
pub(crate) fn find_field_move<'a>(moves: &List<FieldMove<'a>>, local: LocalId) -> (at: Option<Span>)
    ensures
        at == spec_find_field_move(*moves, local),
{
    let mut ahead: &List<FieldMove<'a>> = moves;
    loop
        invariant
            spec_find_field_move(*moves, local) == spec_find_field_move(*ahead, local),
        decreases *ahead,
    {
        reveal(spec_find_field_move);
        match ahead {
            List::Nil => {
                return None;
            },
            List::Cons(node) => {
                if node.head.field.local == local {
                    return Some(node.head.at);
                } else {
                    ahead = &node.tail;
                }
            },
        }
    }
}

/// Whether a move makes a part of a local variable unavailable.
#[verifier::opaque]
pub open spec fn spec_overlaps<'a>(
    moved: MovedField<'a>,
    place: MovedField<'a>,
    allow_reinitialization: bool,
) -> bool {
    if moved.local != place.local {
        false
    } else {
        let moved_is_parent = spec_starts_with(place.projections, moved.projections);
        let requested_is_parent = spec_starts_with(moved.projections, place.projections);
        if allow_reinitialization {
            moved_is_parent && !requested_is_parent
        } else {
            moved_is_parent || requested_is_parent
        }
    }
}

/// Whether a move makes a part of a local variable unavailable.
pub(crate) fn overlaps<'a>(
    moved: &MovedField<'a>,
    place: &MovedField<'a>,
    allow_reinitialization: bool,
) -> (answer: bool)
    ensures
        answer == spec_overlaps(*moved, *place, allow_reinitialization),
{
    reveal(spec_overlaps);
    if moved.local != place.local {
        return false;
    }
    let moved_is_parent = starts_with(&place.projections, &moved.projections);
    let requested_is_parent = starts_with(&moved.projections, &place.projections);
    if allow_reinitialization {
        moved_is_parent && !requested_is_parent
    } else {
        moved_is_parent || requested_is_parent
    }
}

/// Where a move made a part of a local variable unavailable.
#[verifier::opaque]
pub open spec fn spec_find_overlap<'a>(
    moves: List<FieldMove<'a>>,
    place: MovedField<'a>,
    allow_reinitialization: bool,
) -> Option<Span>
    decreases moves,
{
    match moves {
        List::Nil => None,
        List::Cons(node) => if spec_overlaps(node.head.field, place, allow_reinitialization) {
            Some(node.head.at)
        } else {
            spec_find_overlap(node.tail, place, allow_reinitialization)
        },
    }
}

/// Where a move made a part of a local variable unavailable.
pub(crate) fn find_overlap<'a>(
    moves: &List<FieldMove<'a>>,
    place: &MovedField<'a>,
    allow_reinitialization: bool,
) -> (at: Option<Span>)
    ensures
        at == spec_find_overlap(*moves, *place, allow_reinitialization),
{
    let mut ahead: &List<FieldMove<'a>> = moves;
    loop
        invariant
            spec_find_overlap(*moves, *place, allow_reinitialization) == spec_find_overlap(
                *ahead,
                *place,
                allow_reinitialization,
            ),
        decreases *ahead,
    {
        reveal(spec_find_overlap);
        match ahead {
            List::Nil => {
                return None;
            },
            List::Cons(node) => {
                if overlaps(&node.head.field, place, allow_reinitialization) {
                    return Some(node.head.at);
                } else {
                    ahead = &node.tail;
                }
            },
        }
    }
}

/// The same part of a local variable.
#[verifier::opaque]
pub open spec fn spec_copy_field<'a>(field: MovedField<'a>) -> MovedField<'a> {
    MovedField { local: field.local, projections: field.projections }
}

/// The same part of a local variable.
pub(crate) fn copy_field<'a>(field: &MovedField<'a>) -> (copy: MovedField<'a>)
    ensures
        copy == spec_copy_field(*field),
{
    reveal(spec_copy_field);
    MovedField { local: field.local, projections: field.projections.share() }
}

/// The moves that are left when a part of a local variable is assigned to.
#[verifier::opaque]
pub open spec fn spec_without_parts<'a>(
    moves: List<FieldMove<'a>>,
    place: MovedField<'a>,
) -> List<FieldMove<'a>>
    decreases moves,
{
    match moves {
        List::Nil => List::Nil,
        List::Cons(node) => if node.head.field.local == place.local
            && spec_starts_with(node.head.field.projections, place.projections) {
            spec_without_parts(node.tail, place)
        } else {
            cons(
                FieldMove { field: spec_copy_field(node.head.field), at: node.head.at },
                spec_without_parts(node.tail, place),
            )
        },
    }
}

/// The moves that are left when a part of a local variable is assigned to.
pub(crate) fn without_parts<'a>(
    moves: &List<FieldMove<'a>>,
    place: &MovedField<'a>,
) -> (kept: List<FieldMove<'a>>)
    ensures
        kept == spec_without_parts(*moves, *place),
{
    let mut ahead: &List<FieldMove<'a>> = moves;
    let mut done: Vec<FieldMove<'a>> = Vec::new();
    loop
        invariant
            spec_without_parts(*moves, *place) == prepended(
                done@,
                spec_without_parts(*ahead, *place),
            ),
        decreases *ahead,
    {
        reveal(spec_without_parts);
        match ahead {
            List::Nil => {
                return prepend(done, List::Nil);
            },
            List::Cons(node) => {
                if node.head.field.local == place.local
                && starts_with(&node.head.field.projections, &place.projections) {
                    ahead = &node.tail;
                } else {
                    done.push(FieldMove { field: copy_field(&node.head.field), at: node.head.at });
                    ahead = &node.tail;
                }
            },
        }
    }
}

/// The moves that are left when a local variable is assigned to.
#[verifier::opaque]
pub open spec fn spec_without_fields_of<'a>(
    moves: List<FieldMove<'a>>,
    local: LocalId,
) -> List<FieldMove<'a>>
    decreases moves,
{
    match moves {
        List::Nil => List::Nil,
        List::Cons(node) => if node.head.field.local == local {
            spec_without_fields_of(node.tail, local)
        } else {
            cons(
                FieldMove { field: spec_copy_field(node.head.field), at: node.head.at },
                spec_without_fields_of(node.tail, local),
            )
        },
    }
}

/// The moves that are left when a local variable is assigned to.
pub(crate) fn without_fields_of<'a>(
    moves: &List<FieldMove<'a>>,
    local: LocalId,
) -> (kept: List<FieldMove<'a>>)
    ensures
        kept == spec_without_fields_of(*moves, local),
{
    let mut ahead: &List<FieldMove<'a>> = moves;
    let mut done: Vec<FieldMove<'a>> = Vec::new();
    loop
        invariant
            spec_without_fields_of(*moves, local) == prepended(
                done@,
                spec_without_fields_of(*ahead, local),
            ),
        decreases *ahead,
    {
        reveal(spec_without_fields_of);
        match ahead {
            List::Nil => {
                return prepend(done, List::Nil);
            },
            List::Cons(node) => {
                if node.head.field.local == local {
                    ahead = &node.tail;
                } else {
                    done.push(FieldMove { field: copy_field(&node.head.field), at: node.head.at });
                    ahead = &node.tail;
                }
            },
        }
    }
}

/// The step that a field name takes.
#[verifier::opaque]
pub open spec fn spec_projection<'a>(field: FieldName<'a>) -> FieldProjection<'a> {
    match field {
        FieldName::Named(name) => FieldProjection::Named(name.name),
        FieldName::TupleIndex { index, .. } => FieldProjection::Tuple(index),
    }
}

/// The step that a field name takes.
pub(crate) fn projection<'a>(field: &FieldName<'a>) -> (step: FieldProjection<'a>)
    ensures
        step == spec_projection(*field),
{
    reveal(spec_projection);
    match field {
        FieldName::Named(name) => FieldProjection::Named(name.name),
        FieldName::TupleIndex { index, .. } => FieldProjection::Tuple(*index),
    }
}

/// The steps with one more behind them.
#[verifier::opaque]
pub open spec fn spec_extended<'a>(
    steps: List<FieldProjection<'a>>,
    last: FieldProjection<'a>,
) -> List<FieldProjection<'a>>
    decreases steps,
{
    match steps {
        List::Nil => single(last),
        List::Cons(node) => cons(node.head, spec_extended(node.tail, last)),
    }
}

/// The steps with one more behind them.
pub(crate) fn extended<'a>(
    steps: &List<FieldProjection<'a>>,
    last: FieldProjection<'a>,
) -> (more: List<FieldProjection<'a>>)
    ensures
        more == spec_extended(*steps, last),
{
    let mut ahead: &List<FieldProjection<'a>> = steps;
    let mut done: Vec<FieldProjection<'a>> = Vec::new();
    loop
        invariant
            spec_extended(*steps, last) == prepended(done@, spec_extended(*ahead, last)),
        decreases *ahead,
    {
        reveal(spec_extended);
        match ahead {
            List::Nil => {
                return prepend(done, single(last));
            },
            List::Cons(node) => {
                done.push(node.head);
                ahead = &node.tail;
            },
        }
    }
}

impl<'a> State<'a> {
    /// The local variable of that name.
    #[verifier::opaque]
    pub open spec fn lookup(self, name: &str) -> Option<Binding> {
        spec_find_binding(self.frame.scopes, name)
    }

    /// The local variable that a path names.
    #[verifier::opaque]
    pub open spec fn lookup_path(self, path: Path<'a>) -> Option<Binding> {
        match lone_name(path) {
            Some(name) => self.lookup(name),
            None => None,
        }
    }

    /// The local variable that an expression starts from.
    #[verifier::opaque]
    pub open spec fn root_binding(self, expression: Expression<'a>) -> Option<Binding> {
        match assignment_root(expression) {
            Some(path) => self.lookup_path(path),
            None => None,
        }
    }

    /// Whether a name stands for a static.
    #[verifier::opaque]
    pub open spec fn is_static(self, name: &str) -> bool {
        bound(self.symbols.statics, name@).is_some()
    }

    /// Whether the innermost scope has a variable of that name.
    #[verifier::opaque]
    pub open spec fn is_declared_here(self, name: &str) -> bool {
        match self.frame.scopes {
            List::Nil => false,
            List::Cons(node) => bound(node.head, name@).is_some(),
        }
    }

    /// A variable is added to the innermost scope.
    #[verifier::opaque]
    pub open spec fn declare(self, name: &'a str, binding: Binding) -> Self {
        match self.frame.scopes {
            List::Nil => self,
            List::Cons(node) => {
                let s = State {
                    frame: Frame {
                        scopes: cons(with(name, binding, node.head), node.tail),
                        ..self.frame
                    },
                    ..self
                };
                s
            },
        }
    }

    /// A new scope begins.
    #[verifier::opaque]
    pub open spec fn push_scope(self) -> Self {
        let s = State {
            frame: Frame { scopes: cons(List::Nil, self.frame.scopes), ..self.frame },
            ..self
        };
        let s = State {
            frame: Frame { borrow_scopes: cons(List::Nil, s.frame.borrow_scopes), ..s.frame },
            ..s
        };
        let s = State {
            frame: Frame {
                deferred_use_scopes: cons(List::Nil, s.frame.deferred_use_scopes),
                ..s.frame
            },
            ..s
        };
        s
    }

    /// The deferred uses of the innermost scope end.
    #[verifier::opaque]
    pub open spec fn end_deferred_uses(self) -> Self {
        let (uses, scopes) = match self.frame.deferred_use_scopes {
            List::Nil => (self.frame.deferred_uses, List::Nil),
            List::Cons(node) => (spec_forget_all(self.frame.deferred_uses, node.head), node.tail),
        };
        let s = State { frame: Frame { deferred_uses: uses, ..self.frame }, ..self };
        let s = State { frame: Frame { deferred_use_scopes: scopes, ..s.frame }, ..s };
        s
    }

    /// The borrows of the innermost scope end.
    #[verifier::opaque]
    pub open spec fn end_borrows(self) -> Self {
        let (states, scopes) = match self.frame.borrow_scopes {
            List::Nil => (self.frame.borrow_states, List::Nil),
            List::Cons(node) => (spec_release(self.frame.borrow_states, node.head), node.tail),
        };
        let s = State { frame: Frame { borrow_states: states, ..self.frame }, ..self };
        let s = State { frame: Frame { borrow_scopes: scopes, ..s.frame }, ..s };
        s
    }

    /// The innermost scope ends.
    #[verifier::opaque]
    pub open spec fn pop_scope(self) -> Self {
        let s = self.end_deferred_uses();
        let s = s.end_borrows();
        let scopes = match s.frame.scopes {
            List::Nil => List::Nil,
            List::Cons(node) => node.tail,
        };
        let s = State { frame: Frame { scopes, ..s.frame }, ..s };
        s
    }

    /// A local variable is created.
    #[verifier::opaque]
    pub open spec fn new_local(self, span: Span) -> (Self, LocalId) {
        let local = LocalId(self.frame.next_local);
        match self.frame.next_local.checked_add(1) {
            Some(next) => {
                let s = State { frame: Frame { next_local: next, ..self.frame }, ..self };
                (s, local)
            },
            None => {
                let s = self.report(
                    error("E3999", words("function contains too many local bindings"), span),
                );
                (s, local)
            },
        }
    }

    /// Whether values are consumed from now on.
    #[verifier::opaque]
    pub open spec fn set_consuming(self, consuming: bool) -> Self {
        let s = State { frame: Frame { consuming_value: consuming, ..self.frame }, ..self };
        s
    }

    /// Whether borrows outlive their expression from now on.
    #[verifier::opaque]
    pub open spec fn set_persistent(self, persistent: bool) -> Self {
        let s = State { frame: Frame { persistent_borrow: persistent, ..self.frame }, ..self };
        s
    }

    /// Whether a mutable reference is lent on from now on.
    #[verifier::opaque]
    pub open spec fn set_reborrow(self, reborrow: bool) -> Self {
        let s = State { frame: Frame { reborrow_argument: reborrow, ..self.frame }, ..self };
        s
    }

    /// Whether places may be assigned to again from now on.
    #[verifier::opaque]
    pub open spec fn set_availability(self, availability: PlaceAvailability) -> Self {
        let s = State { frame: Frame { place_availability: availability, ..self.frame }, ..self };
        s
    }

    /// A deferred action begins.
    #[verifier::opaque]
    pub open spec fn enter_defer(self) -> Self {
        let s = State {
            frame: Frame { defer_depth: self.frame.defer_depth.saturating_add(1), ..self.frame },
            ..self
        };
        s
    }

    /// A deferred action ends.
    #[verifier::opaque]
    pub open spec fn leave_defer(self) -> Self {
        let s = State {
            frame: Frame { defer_depth: self.frame.defer_depth.saturating_sub(1), ..self.frame },
            ..self
        };
        s
    }

    /// An `unsafe` block begins.
    #[verifier::opaque]
    pub open spec fn enter_unsafe(self) -> Self {
        let s = State {
            frame: Frame { unsafe_depth: self.frame.unsafe_depth.saturating_add(1), ..self.frame },
            ..self
        };
        s
    }

    /// An `unsafe` block ends.
    #[verifier::opaque]
    pub open spec fn leave_unsafe(self) -> Self {
        let s = State {
            frame: Frame { unsafe_depth: self.frame.unsafe_depth.saturating_sub(1), ..self.frame },
            ..self
        };
        s
    }

    /// The aggregate of a field access begins.
    #[verifier::opaque]
    pub open spec fn enter_field_base(self) -> Self {
        let s = State {
            frame: Frame {
                field_base_depth: self.frame.field_base_depth.saturating_add(1),
                ..self.frame
            },
            ..self
        };
        s
    }

    /// The aggregate of a field access ends.
    #[verifier::opaque]
    pub open spec fn leave_field_base(self) -> Self {
        let s = State {
            frame: Frame {
                field_base_depth: self.frame.field_base_depth.saturating_sub(1),
                ..self.frame
            },
            ..self
        };
        s
    }

    /// A loop begins.
    #[verifier::opaque]
    pub open spec fn push_loop(self, kind: LoopKind, expected: Option<Type>) -> Self {
        let s = State {
            frame: Frame {
                loops: cons(LoopContext { kind, expected, break_type: None }, self.frame.loops),
                ..self.frame
            },
            ..self
        };
        s
    }

    /// The innermost loop.
    #[verifier::opaque]
    pub open spec fn innermost_loop(self) -> Option<LoopContext> {
        match self.frame.loops {
            List::Nil => None,
            List::Cons(node) => Some(node.head),
        }
    }

    /// The innermost loop ends.
    #[verifier::opaque]
    pub open spec fn pop_loop(self) -> Self {
        let loops = match self.frame.loops {
            List::Nil => List::Nil,
            List::Cons(node) => node.tail,
        };
        let s = State { frame: Frame { loops, ..self.frame }, ..self };
        s
    }

    /// The type of the values that the innermost loop is left with.
    #[verifier::opaque]
    pub open spec fn set_break_type(self, ty: Type) -> Self {
        let loops = match self.frame.loops {
            List::Nil => List::Nil,
            List::Cons(node) => cons(
                LoopContext {
                    kind: node.head.kind,
                    expected: node.head.expected,
                    break_type: Some(ty),
                },
                node.tail,
            ),
        };
        let s = State { frame: Frame { loops, ..self.frame }, ..self };
        s
    }

    /// What the generic parameters of the function stand for.
    #[verifier::opaque]
    pub open spec fn set_environment(self, environment: Environment<'a>) -> Self {
        let s = State { frame: Frame { environment, ..self.frame }, ..self };
        s
    }

    /// What has been moved.
    #[verifier::opaque]
    pub open spec fn set_moves(self, locals: List<Known<Span>>, fields: List<FieldMove<'a>>) -> Self {
        let s = State { frame: Frame { moved_locals: locals, ..self.frame }, ..self };
        let s = State { frame: Frame { moved_fields: fields, ..s.frame }, ..s };
        s
    }

    /// The local variable that a reference leads to in the end.
    #[verifier::opaque]
    pub open spec fn scoped_root(self, local: LocalId) -> LocalId {
        spec_follow_roots(self.frame.scoped_roots, local, self.frame.scoped_roots)
    }

    /// The local variable that the value of an expression refers to.
    #[verifier::opaque]
    pub open spec fn scoped_source_local(self, expression: Expression<'a>) -> Option<LocalId> {
        match spec_scoped_name(expression) {
            None => None,
            Some(name) => match self.lookup(name) {
                None => None,
                Some(binding) => Some(self.scoped_root(binding.local)),
            },
        }
    }

    /// A local variable refers to another.
    #[verifier::opaque]
    pub open spec fn set_scoped_root(self, local: LocalId, root: LocalId) -> Self {
        let s = State {
            frame: Frame {
                scoped_roots: spec_know(self.frame.scoped_roots, local, root),
                ..self.frame
            },
            ..self
        };
        s
    }

    /// The value of an expression refers to a local variable.
    #[verifier::opaque]
    pub open spec fn set_expression_root(self, span: Span, root: LocalId) -> Self {
        let s = State {
            frame: Frame {
                expression_roots: cons(ExpressionRoot { span, root }, self.frame.expression_roots),
                ..self.frame
            },
            ..self
        };
        s
    }

    /// The variable that the expression at a place refers to.
    #[verifier::opaque]
    pub open spec fn expression_root(self, span: Span) -> Option<LocalId> {
        spec_find_root(self.frame.expression_roots, span)
    }

    /// The use of a value that has been moved is reported.
    #[verifier::opaque]
    pub open spec fn report_moved(self, moved_at: Span, span: Span) -> Self {
        let s = self.report(
            advised(
                "E3143",
                words("use of a value after it was moved"),
                framed(
                    "the earlier consuming use starts at source byte ",
                    number(moved_at.start as u128),
                    "; borrow the value or create a new owned value",
                ),
                span,
            ),
        );
        s
    }

    /// A local variable must not have been moved, nor a part of it where that
    /// counts.
    #[verifier::opaque]
    pub open spec fn require_local_available(
        self,
        binding: Binding,
        span: Span,
        include_partial_moves: bool,
    ) -> Self {
        match spec_find_known(self.frame.moved_locals, binding.local) {
            Some(moved_at) => self.report_moved(moved_at, span),
            None => if include_partial_moves {
                match spec_find_field_move(self.frame.moved_fields, binding.local) {
                    Some(moved_at) => self.report_moved(moved_at, span),
                    None => self,
                }
            } else {
                self
            },
        }
    }

    /// A deferred action uses a local variable.
    #[verifier::opaque]
    pub open spec fn record_deferred_use(self, local: LocalId, span: Span, consuming: bool) -> Self {
        match spec_find_known(self.frame.deferred_uses, local) {
            Some(existing) => if consuming {
                let s = self.report(
                    advised(
                        "E3147",
                        words(
                            "deferred action would consume a value needed by another deferred action",
                        ),
                        framed(
                            "the earlier deferred use starts at source byte ",
                            number(existing.span.start as u128),
                            "; register the consuming cleanup first",
                        ),
                        span,
                    ),
                );
                s
            } else {
                self
            },
            None => self.reserve(local, span, consuming),
        }
    }

    /// A local variable is reserved until the innermost scope ends.
    #[verifier::opaque]
    pub open spec fn reserve(self, local: LocalId, span: Span, consuming: bool) -> Self {
        let scopes = match self.frame.deferred_use_scopes {
            List::Nil => List::Nil,
            List::Cons(node) => cons(cons(local, node.head), node.tail),
        };
        let s = State {
            frame: Frame {
                deferred_uses: spec_know(
                    self.frame.deferred_uses,
                    local,
                    DeferredUse { span, consuming },
                ),
                ..self.frame
            },
            ..self
        };
        let s = State { frame: Frame { deferred_use_scopes: scopes, ..s.frame }, ..s };
        s
    }

    /// A local variable must not be reserved by a deferred action.
    #[verifier::opaque]
    pub open spec fn require_not_reserved_by_defer(self, local: LocalId, span: Span) -> (Self, bool) {
        match spec_find_known(self.frame.deferred_uses, local) {
            None => (self, true),
            Some(deferred) => {
                let s = self.report(
                    advised(
                        "E3147",
                        words("cannot invalidate a value that is reserved by a deferred action"),
                        cons(
                            Piece::Words("the deferred "),
                            cons(
                                Piece::Words(
                                    if deferred.consuming {
                                        "cleanup"
                                    } else {
                                        "use"
                                    },
                                ),
                                framed(
                                    " starts at source byte ",
                                    number(deferred.span.start as u128),
                                    "; borrow the value until the scope exits",
                                ),
                            ),
                        ),
                        span,
                    ),
                );
                (s, false)
            },
        }
    }

    /// A local variable is moved, unless a deferred action keeps it.
    #[verifier::opaque]
    pub open spec fn move_local(self, local: LocalId, span: Span) -> Self {
        if self.frame.defer_depth > 0 {
            let s = self.record_deferred_use(local, span, true);
            s
        } else {
            match self.require_not_reserved_by_defer(local, span) {
                (s, true) => {
                    let s = State {
                        frame: Frame {
                            moved_locals: spec_know(s.frame.moved_locals, local, span),
                            ..s.frame
                        },
                        ..s
                    };
                    s
                },
                (s, false) => s,
            }
        }
    }

    /// The value that an expression starts from is consumed.
    #[verifier::opaque]
    pub open spec fn consume_expression_root(
        self,
        expression: Expression<'a>,
        ty: Type,
        span: Span,
    ) -> Self {
        if self.types.is_copy(ty) {
            self
        } else {
            match spec_root_name(expression) {
                None => self,
                Some(name) => if self.is_static(name) {
                    let s = self.report(
                        helped(
                            "E3144",
                            words3("cannot move a value out of static `", name, "`"),
                            "borrow the static value or copy one of its `Copy` fields",
                            span,
                        ),
                    );
                    s
                } else {
                    match self.lookup(name) {
                        None => self,
                        Some(binding) => {
                            let s = self.require_local_available(binding, span, true);
                            let s = s.move_local(binding.local, span);
                            s
                        },
                    }
                },
            }
        }
    }

    /// The part of a local variable that an expression names.
    #[verifier::opaque]
    pub open spec fn field_place(self, expression: Expression<'a>) -> Option<MovedField<'a>>
        decreases expression,
    {
        match *expression.kind {
            ExpressionKind::Path(path) => match self.lookup_path(path) {
                Some(binding) => Some(MovedField { local: binding.local, projections: List::Nil }),
                None => None,
            },
            ExpressionKind::Field(field) => match self.field_place(field.base) {
                Some(place) => Some(
                    MovedField {
                        local: place.local,
                        projections: spec_extended(place.projections, spec_projection(field.field)),
                    },
                ),
                None => None,
            },
            _ => None,
        }
    }

    /// The part of a local variable that a field access names.
    #[verifier::opaque]
    pub open spec fn moved_field_from_field(
        self,
        field: FieldExpression<'a>,
    ) -> Option<MovedField<'a>> {
        match self.field_place(field.base) {
            Some(place) => Some(
                MovedField {
                    local: place.local,
                    projections: spec_extended(place.projections, spec_projection(field.field)),
                },
            ),
            None => None,
        }
    }

    /// A part of a local variable must not have been moved.
    #[verifier::opaque]
    pub open spec fn require_field_available(
        self,
        place: MovedField<'a>,
        span: Span,
        allow_reinitialization: bool,
    ) -> Self {
        match spec_find_known(self.frame.moved_locals, place.local) {
            Some(moved_at) => self.report_moved(moved_at, span),
            None => match spec_find_overlap(
                self.frame.moved_fields,
                place,
                allow_reinitialization,
            ) {
                Some(moved_at) => self.report_moved(moved_at, span),
                None => self,
            },
        }
    }

    /// A part of a local variable is consumed.
    #[verifier::opaque]
    pub open spec fn consume_field(self, place: MovedField<'a>, ty: Type, span: Span) -> Self {
        let s = self.require_field_available(place, span, false);
        if s.types.is_copy(ty) {
            s
        } else if s.frame.defer_depth > 0 {
            let s = s.record_deferred_use(place.local, span, true);
            s
        } else {
            match s.require_not_reserved_by_defer(place.local, span) {
                (s, true) => {
                    let s = State {
                        frame: Frame {
                            moved_fields: cons(
                                FieldMove { field: spec_copy_field(place), at: span },
                                s.frame.moved_fields,
                            ),
                            ..s.frame
                        },
                        ..s
                    };
                    s
                },
                (s, false) => s,
            }
        }
    }

    /// A part of a local variable is assigned to.
    #[verifier::opaque]
    pub open spec fn restore_field(self, place: MovedField<'a>) -> Self {
        let s = State {
            frame: Frame {
                moved_fields: spec_without_parts(self.frame.moved_fields, place),
                ..self.frame
            },
            ..self
        };
        s
    }

    /// A local variable is assigned to.
    #[verifier::opaque]
    pub open spec fn restore_local(self, local: LocalId) -> Self {
        let s = State {
            frame: Frame {
                moved_locals: spec_forget(self.frame.moved_locals, local),
                ..self.frame
            },
            ..self
        };
        let s = State {
            frame: Frame {
                moved_fields: spec_without_fields_of(s.frame.moved_fields, local),
                ..s.frame
            },
            ..s
        };
        s
    }

    /// The local variable that an expression starts from must not have been moved.
    #[verifier::opaque]
    pub open spec fn require_expression_root_available(
        self,
        expression: Expression<'a>,
        span: Span,
    ) -> Self {
        match self.root_binding(expression) {
            None => self,
            Some(binding) => self.require_local_available(binding, span, true),
        }
    }

    /// The borrows of a local variable that are alive.
    #[verifier::opaque]
    pub open spec fn borrow_state(self, local: LocalId) -> BorrowState {
        match spec_find_known(self.frame.borrow_states, local) {
            Some(state) => state,
            None => BorrowState { shared: 0, mutable: false },
        }
    }

    /// A borrow that lasts until the innermost scope ends.
    #[verifier::opaque]
    pub open spec fn record_borrow(self, local: LocalId, mutable: bool) -> Self {
        let state = self.borrow_state(local);
        let more = if mutable {
            BorrowState { shared: state.shared, mutable: true }
        } else {
            BorrowState { shared: state.shared.saturating_add(1), mutable: state.mutable }
        };
        let scopes = match self.frame.borrow_scopes {
            List::Nil => List::Nil,
            List::Cons(node) => cons(cons(Borrow { local, mutable }, node.head), node.tail),
        };
        let s = State {
            frame: Frame {
                borrow_states: spec_know(self.frame.borrow_states, local, more),
                ..self.frame
            },
            ..self
        };
        let s = State { frame: Frame { borrow_scopes: scopes, ..s.frame }, ..s };
        s
    }

    /// A borrow must not conflict with those that are alive.
    #[verifier::opaque]
    pub open spec fn check_and_record_borrow(
        self,
        operand: Expression<'a>,
        mutable: bool,
        span: Span,
    ) -> Self {
        match self.root_binding(operand) {
            None => self,
            Some(binding) => {
                let state = self.borrow_state(binding.local);
                let conflicts = if mutable {
                    state.mutable || state.shared != 0
                } else {
                    state.mutable
                };
                if conflicts {
                    let s = self.report(
                        helped(
                            "E3138",
                            words("borrow conflicts with an active scoped borrow"),
                            "end the earlier reference's scope before borrowing again",
                            span,
                        ),
                    );
                    s
                } else if self.frame.persistent_borrow {
                    let s = self.record_borrow(binding.local, mutable);
                    s
                } else {
                    self
                }
            },
        }
    }
}

impl<'a> Analyzer<'a> {
    /// The local variable of that name.
    pub(crate) fn lookup(&self, name: &str) -> (binding: Option<Binding>)
        ensures
            binding == self@.lookup(name),
            forall|watch: Watch| #[trigger]
                watched(watch) && self@.is_apart(watch) && name@ != watch.name ==> match binding {
                    Some(found) => found.local != watch.local,
                    None => true,
                },
    {
        reveal(State::lookup);
        assert forall|watch: Watch| #[trigger]
            watched(watch) && self@.is_apart(watch) && name@ != watch.name implies match
            spec_find_binding(self.frame.scopes, name) {
            Some(found) => found.local != watch.local,
            None => true,
        } by {
            reveal(State::is_apart);
            found_binding_is_apart(self.frame.scopes, name, watch);
        }
        find_binding(&self.frame.scopes, name)
    }

    /// The local variable that a path names.
    pub(crate) fn lookup_path(&self, path: &Path<'a>) -> (binding: Option<Binding>)
        ensures
            binding == self@.lookup_path(*path),
            forall|watch: Watch| #[trigger]
                watched(watch) && self@.is_apart(watch) && !path_mentions(*path, watch.name)
                    ==> match binding {
                    Some(found) => found.local != watch.local,
                    None => true,
                },
    {
        reveal(State::lookup_path);
        match single_path_name(path) {
            Some(name) => self.lookup(name),
            None => None,
        }
    }

    /// The local variable that an expression starts from.
    pub(crate) fn root_binding(&self, expression: &Expression<'a>) -> (binding: Option<Binding>)
        ensures
            binding == self@.root_binding(*expression),
    {
        reveal(State::root_binding);
        match assignment_root_path(expression) {
            Some(path) => self.lookup_path(&path),
            None => None,
        }
    }

    /// Whether a name stands for a static.
    pub(crate) fn is_static(&self, name: &str) -> (answer: bool)
        ensures
            answer == self@.is_static(name),
    {
        reveal(State::is_static);
        find(&self.symbols.statics, name).is_some()
    }

    /// Whether the innermost scope has a variable of that name.
    pub(crate) fn is_declared_here(&self, name: &str) -> (answer: bool)
        ensures
            answer == self@.is_declared_here(name),
    {
        reveal(State::is_declared_here);
        match &self.frame.scopes {
            List::Nil => false,
            List::Cons(node) => find(&node.head, name).is_some(),
        }
    }

    /// A variable is added to the innermost scope.
    pub(crate) fn declare(&mut self, name: &'a str, binding: Binding)
        ensures
            final(self)@ == old(self)@.declare(name, binding),
            old(self)@.leads_to(final(self)@),
            forall|watch: Watch| #[trigger]
                watched(watch) && old(self)@.is_apart(watch) && binding.local != watch.local
                    ==> old(self)@.spares(final(self)@, watch),
    {
        assert forall|watch: Watch| #[trigger]
            watched(watch) && self@.is_apart(watch) && binding.local
                != watch.local implies self@.spares(self@.declare(name, binding), watch) by {
            reveal(State::declare);
            reveal(State::is_apart);
            reveal(State::spares);
            reveal(scopes_are_apart);
        }
        reveal(State::declare);
        reveal(State::leads_to);
        match &self.frame.scopes {
            List::Nil => {
            },
            List::Cons(node) => {
                self.frame.scopes = cons(with(name, binding, node.head.share()), node.tail.share());
            },
        }
    }

    /// A new scope begins.
    pub(crate) fn push_scope(&mut self)
        ensures
            final(self)@ == old(self)@.push_scope(),
            old(self)@.leads_to(final(self)@),
            old(self)@.enters(final(self)@),
    {
        reveal(State::enters);
        reveal(State::push_scope);
        reveal(State::leads_to);
        self.frame.scopes = cons(List::Nil, self.frame.scopes.share());
        self.frame.borrow_scopes = cons(List::Nil, self.frame.borrow_scopes.share());
        self.frame.deferred_use_scopes = cons(List::Nil, self.frame.deferred_use_scopes.share());
    }

    /// The deferred uses of the innermost scope end.
    pub(crate) fn end_deferred_uses(&mut self)
        ensures
            final(self)@ == old(self)@.end_deferred_uses(),
            old(self)@.leads_to(final(self)@),
    {
        reveal(State::end_deferred_uses);
        reveal(State::leads_to);
        let (uses, scopes) = match &self.frame.deferred_use_scopes {
            List::Nil => (self.frame.deferred_uses.share(), List::Nil),
            List::Cons(node) => (
                forget_all(&self.frame.deferred_uses, &node.head),
                node.tail.share(),
            ),
        };
        self.frame.deferred_uses = uses;
        self.frame.deferred_use_scopes = scopes;
    }

    /// The borrows of the innermost scope end.
    pub(crate) fn end_borrows(&mut self)
        ensures
            final(self)@ == old(self)@.end_borrows(),
            old(self)@.leads_to(final(self)@),
            old(self)@.stays(final(self)@),
    {
        reveal(State::end_borrows);
        proof {
            self@.ended_borrows_lead();
        }
        let (states, scopes) = match &self.frame.borrow_scopes {
            List::Nil => (self.frame.borrow_states.share(), List::Nil),
            List::Cons(node) => (release(&self.frame.borrow_states, &node.head), node.tail.share()),
        };
        self.frame.borrow_states = states;
        self.frame.borrow_scopes = scopes;
    }

    /// The innermost scope ends.
    pub(crate) fn pop_scope(&mut self)
        ensures
            final(self)@ == old(self)@.pop_scope(),
            old(self)@.leads_to(final(self)@),
            old(self)@.leaves(final(self)@),
    {
        reveal(State::leaves);
        reveal(State::stays);
        reveal(State::end_deferred_uses);
        reveal(State::pop_scope);
        reveal(State::leads_to);
        self.end_deferred_uses();
        self.end_borrows();
        let scopes = match &self.frame.scopes {
            List::Nil => List::Nil,
            List::Cons(node) => node.tail.share(),
        };
        self.frame.scopes = scopes;
    }

    /// A local variable is created.
    pub(crate) fn new_local(&mut self, span: Span) -> (local: LocalId)
        ensures
            (final(self)@, local) == old(self)@.new_local(span),
            old(self)@.leads_to(final(self)@),
            forall|watch: Watch| #[trigger]
                watched(watch) && old(self)@.is_apart(watch) ==> old(self)@.spares(
                    final(self)@,
                    watch,
                ) && local != watch.local,
    {
        assert forall|watch: Watch| #[trigger]
            watched(watch) && self@.is_apart(watch) implies self@.spares(
            self@.new_local(span).0,
            watch,
        ) && self@.new_local(span).1 != watch.local by {
            reveal(State::new_local);
            reveal(State::report);
            reveal(State::is_apart);
            reveal(State::spares);
        }
        reveal(State::new_local);
        reveal(State::leads_to);
        let local = LocalId(self.frame.next_local);
        match self.frame.next_local.checked_add(1) {
            Some(next) => {
                self.frame.next_local = next;
                local
            },
            None => {
                self.report(
                    error("E3999", words("function contains too many local bindings"), span),
                );
                local
            },
        }
    }

    /// Whether values are consumed from now on.
    pub(crate) fn set_consuming(&mut self, consuming: bool)
        ensures
            final(self)@ == old(self)@.set_consuming(consuming),
            old(self)@.leads_to(final(self)@),
            old(self)@.stays(final(self)@),
    {
        reveal(State::set_consuming);
        reveal(State::leads_to);
        reveal(State::stays);
        self.frame.consuming_value = consuming;
    }

    /// Whether borrows outlive their expression from now on.
    pub(crate) fn set_persistent(&mut self, persistent: bool)
        ensures
            final(self)@ == old(self)@.set_persistent(persistent),
            old(self)@.leads_to(final(self)@),
            old(self)@.stays(final(self)@),
    {
        reveal(State::set_persistent);
        reveal(State::leads_to);
        reveal(State::stays);
        self.frame.persistent_borrow = persistent;
    }

    /// Whether a mutable reference is lent on from now on.
    pub(crate) fn set_reborrow(&mut self, reborrow: bool)
        ensures
            final(self)@ == old(self)@.set_reborrow(reborrow),
            old(self)@.leads_to(final(self)@),
            old(self)@.stays(final(self)@),
    {
        reveal(State::set_reborrow);
        reveal(State::leads_to);
        reveal(State::stays);
        self.frame.reborrow_argument = reborrow;
    }

    /// Whether places may be assigned to again from now on.
    pub(crate) fn set_availability(&mut self, availability: PlaceAvailability)
        ensures
            final(self)@ == old(self)@.set_availability(availability),
            old(self)@.leads_to(final(self)@),
            old(self)@.stays(final(self)@),
    {
        reveal(State::set_availability);
        reveal(State::leads_to);
        reveal(State::stays);
        self.frame.place_availability = availability;
    }

    /// A deferred action begins.
    pub(crate) fn enter_defer(&mut self)
        ensures
            final(self)@ == old(self)@.enter_defer(),
            old(self)@.leads_to(final(self)@),
            old(self)@.stays(final(self)@),
    {
        reveal(State::enter_defer);
        reveal(State::leads_to);
        reveal(State::stays);
        self.frame.defer_depth = self.frame.defer_depth.saturating_add(1);
    }

    /// A deferred action ends.
    pub(crate) fn leave_defer(&mut self)
        ensures
            final(self)@ == old(self)@.leave_defer(),
            old(self)@.leads_to(final(self)@),
            old(self)@.stays(final(self)@),
    {
        reveal(State::leave_defer);
        reveal(State::leads_to);
        reveal(State::stays);
        self.frame.defer_depth = self.frame.defer_depth.saturating_sub(1);
    }

    /// An `unsafe` block begins.
    pub(crate) fn enter_unsafe(&mut self)
        ensures
            final(self)@ == old(self)@.enter_unsafe(),
            old(self)@.leads_to(final(self)@),
            old(self)@.stays(final(self)@),
    {
        reveal(State::enter_unsafe);
        reveal(State::leads_to);
        reveal(State::stays);
        self.frame.unsafe_depth = self.frame.unsafe_depth.saturating_add(1);
    }

    /// An `unsafe` block ends.
    pub(crate) fn leave_unsafe(&mut self)
        ensures
            final(self)@ == old(self)@.leave_unsafe(),
            old(self)@.leads_to(final(self)@),
            old(self)@.stays(final(self)@),
    {
        reveal(State::leave_unsafe);
        reveal(State::leads_to);
        reveal(State::stays);
        self.frame.unsafe_depth = self.frame.unsafe_depth.saturating_sub(1);
    }

    /// The aggregate of a field access begins.
    pub(crate) fn enter_field_base(&mut self)
        ensures
            final(self)@ == old(self)@.enter_field_base(),
            old(self)@.leads_to(final(self)@),
            old(self)@.stays(final(self)@),
    {
        reveal(State::enter_field_base);
        reveal(State::leads_to);
        reveal(State::stays);
        self.frame.field_base_depth = self.frame.field_base_depth.saturating_add(1);
    }

    /// The aggregate of a field access ends.
    pub(crate) fn leave_field_base(&mut self)
        ensures
            final(self)@ == old(self)@.leave_field_base(),
            old(self)@.leads_to(final(self)@),
            old(self)@.stays(final(self)@),
    {
        reveal(State::leave_field_base);
        reveal(State::leads_to);
        reveal(State::stays);
        self.frame.field_base_depth = self.frame.field_base_depth.saturating_sub(1);
    }

    /// A loop begins.
    pub(crate) fn push_loop(&mut self, kind: LoopKind, expected: Option<Type>)
        ensures
            final(self)@ == old(self)@.push_loop(kind, expected),
            old(self)@.leads_to(final(self)@),
            old(self)@.stays(final(self)@),
    {
        reveal(State::push_loop);
        reveal(State::leads_to);
        reveal(State::stays);
        self.frame.loops = cons(
            LoopContext { kind, expected, break_type: None },
            self.frame.loops.share(),
        );
    }

    /// The innermost loop.
    pub(crate) fn innermost_loop(&self) -> (context: Option<LoopContext>)
        ensures
            context == self@.innermost_loop(),
    {
        reveal(State::innermost_loop);
        match &self.frame.loops {
            List::Nil => None,
            List::Cons(node) => Some(node.head),
        }
    }

    /// The innermost loop ends.
    pub(crate) fn pop_loop(&mut self)
        ensures
            final(self)@ == old(self)@.pop_loop(),
            old(self)@.leads_to(final(self)@),
            old(self)@.stays(final(self)@),
    {
        reveal(State::pop_loop);
        reveal(State::leads_to);
        reveal(State::stays);
        let loops = match &self.frame.loops {
            List::Nil => List::Nil,
            List::Cons(node) => node.tail.share(),
        };
        self.frame.loops = loops;
    }

    /// The type of the values that the innermost loop is left with.
    pub(crate) fn set_break_type(&mut self, ty: Type)
        ensures
            final(self)@ == old(self)@.set_break_type(ty),
            old(self)@.leads_to(final(self)@),
            old(self)@.stays(final(self)@),
    {
        reveal(State::set_break_type);
        reveal(State::leads_to);
        reveal(State::stays);
        let loops = match &self.frame.loops {
            List::Nil => List::Nil,
            List::Cons(node) => cons(
                LoopContext {
                    kind: node.head.kind,
                    expected: node.head.expected,
                    break_type: Some(ty),
                },
                node.tail.share(),
            ),
        };
        self.frame.loops = loops;
    }

    /// What the generic parameters of the function stand for.
    pub(crate) fn set_environment(&mut self, environment: Environment<'a>)
        ensures
            final(self)@ == old(self)@.set_environment(environment),
            old(self)@.leads_to(final(self)@),
            old(self)@.stays(final(self)@),
    {
        reveal(State::set_environment);
        reveal(State::leads_to);
        reveal(State::stays);
        self.frame.environment = environment;
    }

    /// What has been moved.
    pub(crate) fn set_moves(&mut self, locals: List<Known<Span>>, fields: List<FieldMove<'a>>)
        ensures
            final(self)@ == old(self)@.set_moves(locals, fields),
            old(self)@.leads_to(final(self)@),
            old(self)@.takes_moves(locals, final(self)@),
    {
        reveal(State::takes_moves);
        reveal(State::set_moves);
        reveal(State::leads_to);
        self.frame.moved_locals = locals;
        self.frame.moved_fields = fields;
    }

    /// The local variable that a reference leads to in the end.
    pub(crate) fn scoped_root(&self, local: LocalId) -> (root: LocalId)
        ensures
            root == self@.scoped_root(local),
    {
        reveal(State::scoped_root);
        follow_roots(&self.frame.scoped_roots, local, &self.frame.scoped_roots)
    }

    /// The local variable that the value of an expression refers to.
    pub(crate) fn scoped_source_local(&self, expression: &Expression<'a>) -> (root: Option<LocalId>)
        ensures
            root == self@.scoped_source_local(*expression),
    {
        reveal(State::scoped_source_local);
        match scoped_name(expression) {
            None => None,
            Some(name) => match self.lookup(name) {
                None => None,
                Some(binding) => Some(self.scoped_root(binding.local)),
            },
        }
    }

    /// A local variable refers to another.
    pub(crate) fn set_scoped_root(&mut self, local: LocalId, root: LocalId)
        ensures
            final(self)@ == old(self)@.set_scoped_root(local, root),
            old(self)@.leads_to(final(self)@),
            old(self)@.stays(final(self)@),
    {
        reveal(State::set_scoped_root);
        reveal(State::leads_to);
        reveal(State::stays);
        self.frame.scoped_roots = know(&self.frame.scoped_roots, local, root);
    }

    /// The value of an expression refers to a local variable.
    pub(crate) fn set_expression_root(&mut self, span: Span, root: LocalId)
        ensures
            final(self)@ == old(self)@.set_expression_root(span, root),
            old(self)@.leads_to(final(self)@),
            old(self)@.stays(final(self)@),
    {
        reveal(State::set_expression_root);
        reveal(State::leads_to);
        reveal(State::stays);
        self.frame.expression_roots = cons(
            ExpressionRoot { span, root },
            self.frame.expression_roots.share(),
        );
    }

    /// The variable that the expression at a place refers to.
    pub(crate) fn expression_root(&self, span: Span) -> (root: Option<LocalId>)
        ensures
            root == self@.expression_root(span),
    {
        reveal(State::expression_root);
        find_root(&self.frame.expression_roots, span)
    }

    /// The use of a value that has been moved is reported.
    pub(crate) fn report_moved(&mut self, moved_at: Span, span: Span)
        ensures
            final(self)@ == old(self)@.report_moved(moved_at, span),
            old(self)@.leads_to(final(self)@),
            old(self)@.stays(final(self)@),
    {
        reveal(State::report_moved);
        self.report(
            advised(
                "E3143",
                words("use of a value after it was moved"),
                frame(
                    "the earlier consuming use starts at source byte ",
                    &number(moved_at.start as u128),
                    "; borrow the value or create a new owned value",
                ),
                span,
            ),
        );
    }

    /// A local variable must not have been moved, nor a part of it where that
    /// counts.
    pub(crate) fn require_local_available(
        &mut self,
        binding: Binding,
        span: Span,
        include_partial_moves: bool,
    )
        ensures
            final(self)@ == old(self)@.require_local_available(
                binding,
                span,
                include_partial_moves,
            ),
            old(self)@.leads_to(final(self)@),
            old(self)@.stays(final(self)@),
    {
        reveal(State::require_local_available);
        match find_known(&self.frame.moved_locals, binding.local) {
            Some(moved_at) => self.report_moved(moved_at, span),
            None => if include_partial_moves {
                match find_field_move(&self.frame.moved_fields, binding.local) {
                    Some(moved_at) => self.report_moved(moved_at, span),
                    None => {
                    },
                }
            },
        }
    }

    /// A deferred action uses a local variable.
    pub(crate) fn record_deferred_use(&mut self, local: LocalId, span: Span, consuming: bool)
        ensures
            final(self)@ == old(self)@.record_deferred_use(local, span, consuming),
            old(self)@.leads_to(final(self)@),
            forall|watch: Watch| #[trigger]
                watched(watch) && old(self)@.is_apart(watch) && local != watch.local
                    ==> old(self)@.spares(final(self)@, watch),
    {
        reveal(State::record_deferred_use);
        match find_known(&self.frame.deferred_uses, local) {
            Some(existing) => if consuming {
                self.report(
                    advised(
                        "E3147",
                        words(
                            "deferred action would consume a value needed by another deferred action",
                        ),
                        frame(
                            "the earlier deferred use starts at source byte ",
                            &number(existing.span.start as u128),
                            "; register the consuming cleanup first",
                        ),
                        span,
                    ),
                );
            },
            None => self.reserve(local, span, consuming),
        }
    }

    /// A local variable is reserved until the innermost scope ends.
    pub(crate) fn reserve(&mut self, local: LocalId, span: Span, consuming: bool)
        ensures
            final(self)@ == old(self)@.reserve(local, span, consuming),
            old(self)@.leads_to(final(self)@),
            forall|watch: Watch| #[trigger]
                watched(watch) && old(self)@.is_apart(watch) && local != watch.local
                    ==> old(self)@.spares(final(self)@, watch),
    {
        assert forall|watch: Watch| #[trigger]
            watched(watch) && self@.is_apart(watch) && local
                != watch.local implies self@.spares(self@.reserve(local, span, consuming), watch) by {
            reveal(State::reserve);
            reveal(State::is_apart);
            reveal(State::spares);
            reveal(reservations);
            known_is_found(
                self.frame.deferred_uses,
                local,
                DeferredUse { span, consuming },
                watch.local,
            );
        }
        reveal(State::reserve);
        reveal(State::leads_to);
        let scopes = match &self.frame.deferred_use_scopes {
            List::Nil => List::Nil,
            List::Cons(node) => cons(cons(local, node.head.share()), node.tail.share()),
        };
        self.frame.deferred_uses = know(
            &self.frame.deferred_uses,
            local,
            DeferredUse { span, consuming },
        );
        self.frame.deferred_use_scopes = scopes;
    }

    /// A local variable must not be reserved by a deferred action.
    pub(crate) fn require_not_reserved_by_defer(
        &mut self,
        local: LocalId,
        span: Span,
    ) -> (free: bool)
        ensures
            (final(self)@, free) == old(self)@.require_not_reserved_by_defer(local, span),
            old(self)@.leads_to(final(self)@),
            old(self)@.stays(final(self)@),
    {
        reveal(State::require_not_reserved_by_defer);
        match find_known(&self.frame.deferred_uses, local) {
            None => true,
            Some(deferred) => {
                self.report(
                    advised(
                        "E3147",
                        words("cannot invalidate a value that is reserved by a deferred action"),
                        cons(
                            Piece::Words("the deferred "),
                            cons(
                                Piece::Words(
                                    if deferred.consuming {
                                        "cleanup"
                                    } else {
                                        "use"
                                    },
                                ),
                                frame(
                                    " starts at source byte ",
                                    &number(deferred.span.start as u128),
                                    "; borrow the value until the scope exits",
                                ),
                            ),
                        ),
                        span,
                    ),
                );
                false
            },
        }
    }

    /// A local variable is moved, unless a deferred action keeps it.
    pub(crate) fn move_local(&mut self, local: LocalId, span: Span)
        ensures
            final(self)@ == old(self)@.move_local(local, span),
            old(self)@.leads_to(final(self)@),
            forall|watch: Watch| #[trigger]
                watched(watch) && old(self)@.is_apart(watch) && local != watch.local
                    ==> old(self)@.spares(final(self)@, watch),
    {
        reveal(State::move_local);
        reveal(State::leads_to);
        if self.frame.defer_depth > 0 {
            self.record_deferred_use(local, span, true);
        } else if self.require_not_reserved_by_defer(local, span) {
            let ghost before = self@;
            self.frame.moved_locals = know(&self.frame.moved_locals, local, span);
            assert forall|watch: Watch| #[trigger]
                watched(watch) && before.is_apart(watch) && local
                    != watch.local implies before.spares(self@, watch) by {
                reveal(State::is_apart);
                reveal(State::spares);
                known_is_found(before.frame.moved_locals, local, span, watch.local);
            }
        }
    }

    /// The value that an expression starts from is consumed.
    pub(crate) fn consume_expression_root(
        &mut self,
        expression: &Expression<'a>,
        ty: Type,
        span: Span,
    )
        ensures
            final(self)@ == old(self)@.consume_expression_root(*expression, ty, span),
            old(self)@.leads_to(final(self)@),
            forall|watch: Watch| #[trigger]
                watched(watch) && old(self)@.is_apart(watch) && !mentions(*expression, watch.name)
                    ==> old(self)@.spares(final(self)@, watch),
    {
        reveal(State::consume_expression_root);
        assert forall|watch: Watch| #[trigger]
            watched(watch) && !mentions(*expression, watch.name) implies spec_root_name(*expression)
            is None || spec_root_name(*expression)->0@ != watch.name by {
            root_is_mentioned(*expression, watch.name);
        }
        if self.types.is_copy(ty) {
            return;
        }
        match root_name(expression) {
            None => {
            },
            Some(name) => if self.is_static(name) {
                self.report(
                    helped(
                        "E3144",
                        words3("cannot move a value out of static `", name, "`"),
                        "borrow the static value or copy one of its `Copy` fields",
                        span,
                    ),
                );
            } else {
                match self.lookup(name) {
                    None => {
                    },
                    Some(binding) => {
                        self.require_local_available(binding, span, true);
                        self.move_local(binding.local, span);
                    },
                }
            },
        }
    }

    /// The part of a local variable that an expression names.
    pub(crate) fn field_place(&self, expression: &Expression<'a>) -> (place: Option<MovedField<'a>>)
        ensures
            place == self@.field_place(*expression),
            forall|watch: Watch| #[trigger]
                watched(watch) && self@.is_apart(watch) && !mentions(*expression, watch.name)
                    ==> match place {
                    Some(found) => found.local != watch.local,
                    None => true,
                },
        decreases *expression,
    {
        reveal(State::field_place);
        match &*expression.kind {
            ExpressionKind::Path(path) => match self.lookup_path(path) {
                Some(binding) => Some(MovedField { local: binding.local, projections: List::Nil }),
                None => None,
            },
            ExpressionKind::Field(field) => {
                assert forall|watch: Watch| #[trigger]
                    watched(watch) && !mentions(*expression, watch.name) implies !mentions(
                    field.base,
                    watch.name,
                ) by {
                    assert(field_mentions(*field, watch.name) == mentions(field.base, watch.name));
                }
                match self.field_place(&field.base) {
                    Some(place) => Some(
                        MovedField {
                            local: place.local,
                            projections: extended(&place.projections, projection(&field.field)),
                        },
                    ),
                    None => None,
                }
            },
            _ => None,
        }
    }

    /// The part of a local variable that a field access names.
    pub(crate) fn moved_field_from_field(
        &self,
        field: &FieldExpression<'a>,
    ) -> (place: Option<MovedField<'a>>)
        ensures
            place == self@.moved_field_from_field(*field),
            forall|watch: Watch| #[trigger]
                watched(watch) && self@.is_apart(watch) && !field_mentions(*field, watch.name)
                    ==> match place {
                    Some(found) => found.local != watch.local,
                    None => true,
                },
    {
        reveal(State::moved_field_from_field);
        match self.field_place(&field.base) {
            Some(place) => Some(
                MovedField {
                    local: place.local,
                    projections: extended(&place.projections, projection(&field.field)),
                },
            ),
            None => None,
        }
    }

    /// A part of a local variable must not have been moved.
    pub(crate) fn require_field_available(
        &mut self,
        place: &MovedField<'a>,
        span: Span,
        allow_reinitialization: bool,
    )
        ensures
            final(self)@ == old(self)@.require_field_available(
                *place,
                span,
                allow_reinitialization,
            ),
            old(self)@.leads_to(final(self)@),
            old(self)@.stays(final(self)@),
    {
        reveal(State::require_field_available);
        match find_known(&self.frame.moved_locals, place.local) {
            Some(moved_at) => self.report_moved(moved_at, span),
            None => match find_overlap(&self.frame.moved_fields, place, allow_reinitialization) {
                Some(moved_at) => self.report_moved(moved_at, span),
                None => {
                },
            },
        }
    }

    /// A part of a local variable is consumed.
    pub(crate) fn consume_field(&mut self, place: &MovedField<'a>, ty: Type, span: Span)
        ensures
            final(self)@ == old(self)@.consume_field(*place, ty, span),
            old(self)@.leads_to(final(self)@),
            forall|watch: Watch| #[trigger]
                watched(watch) && old(self)@.is_apart(watch) && place.local != watch.local
                    ==> old(self)@.spares(final(self)@, watch),
    {
        reveal(State::consume_field);
        reveal(State::leads_to);
        self.require_field_available(place, span, false);
        if self.types.is_copy(ty) {
            return;
        }
        if self.frame.defer_depth > 0 {
            self.record_deferred_use(place.local, span, true);
        } else if self.require_not_reserved_by_defer(place.local, span) {
            let ghost before = self@;
            self.frame.moved_fields = cons(
                FieldMove { field: copy_field(place), at: span },
                self.frame.moved_fields.share(),
            );
            assert forall|watch: Watch| #[trigger]
                watched(watch) && before.is_apart(watch) implies before.spares(self@, watch) by {
                reveal(State::is_apart);
                reveal(State::spares);
            }
        }
    }

    /// A part of a local variable is assigned to.
    pub(crate) fn restore_field(&mut self, place: &MovedField<'a>)
        ensures
            final(self)@ == old(self)@.restore_field(*place),
            old(self)@.leads_to(final(self)@),
            forall|watch: Watch| #[trigger]
                watched(watch) && old(self)@.is_apart(watch) && place.local != watch.local
                    ==> old(self)@.spares(final(self)@, watch),
    {
        reveal(State::restore_field);
        reveal(State::leads_to);
        reveal(State::is_apart);
        reveal(State::spares);
        self.frame.moved_fields = without_parts(&self.frame.moved_fields, place);
    }

    /// A local variable is assigned to.
    pub(crate) fn restore_local(&mut self, local: LocalId)
        ensures
            final(self)@ == old(self)@.restore_local(local),
            old(self)@.leads_to(final(self)@),
            forall|watch: Watch| #[trigger]
                watched(watch) && old(self)@.is_apart(watch) && local != watch.local
                    ==> old(self)@.spares(final(self)@, watch),
    {
        reveal(State::restore_local);
        reveal(State::leads_to);
        assert forall|watch: Watch| #[trigger]
            watched(watch) && self@.is_apart(watch) && local
                != watch.local implies self@.spares(self@.restore_local(local), watch) by {
            reveal(State::is_apart);
            reveal(State::spares);
            forgotten_is_lost(self.frame.moved_locals, local, watch.local);
        }
        self.frame.moved_locals = forget(&self.frame.moved_locals, local);
        self.frame.moved_fields = without_fields_of(&self.frame.moved_fields, local);
    }

    /// The local variable that an expression starts from must not have been moved.
    pub(crate) fn require_expression_root_available(
        &mut self,
        expression: &Expression<'a>,
        span: Span,
    )
        ensures
            final(self)@ == old(self)@.require_expression_root_available(*expression, span),
            old(self)@.leads_to(final(self)@),
            old(self)@.stays(final(self)@),
    {
        reveal(State::require_expression_root_available);
        match self.root_binding(expression) {
            None => {
            },
            Some(binding) => self.require_local_available(binding, span, true),
        }
    }

    /// The borrows of a local variable that are alive.
    pub(crate) fn borrow_state(&self, local: LocalId) -> (state: BorrowState)
        ensures
            state == self@.borrow_state(local),
    {
        reveal(State::borrow_state);
        match find_known(&self.frame.borrow_states, local) {
            Some(state) => state,
            None => BorrowState { shared: 0, mutable: false },
        }
    }

    /// A borrow that lasts until the innermost scope ends.
    pub(crate) fn record_borrow(&mut self, local: LocalId, mutable: bool)
        ensures
            final(self)@ == old(self)@.record_borrow(local, mutable),
    {
        reveal(State::record_borrow);
        let state = self.borrow_state(local);
        let more = if mutable {
            BorrowState { shared: state.shared, mutable: true }
        } else {
            BorrowState { shared: state.shared.saturating_add(1), mutable: state.mutable }
        };
        let scopes = match &self.frame.borrow_scopes {
            List::Nil => List::Nil,
            List::Cons(node) => cons(
                cons(Borrow { local, mutable }, node.head.share()),
                node.tail.share(),
            ),
        };
        self.frame.borrow_states = know(&self.frame.borrow_states, local, more);
        self.frame.borrow_scopes = scopes;
    }

    /// A borrow must not conflict with those that are alive.
    pub(crate) fn check_and_record_borrow(
        &mut self,
        operand: &Expression<'a>,
        mutable: bool,
        span: Span,
    )
        ensures
            final(self)@ == old(self)@.check_and_record_borrow(*operand, mutable, span),
            old(self)@.leads_to(final(self)@),
            old(self)@.stays(final(self)@),
    {
        reveal(State::check_and_record_borrow);
        proof {
            self@.checked_borrow_leads(*operand, mutable, span);
        }
        match self.root_binding(operand) {
            None => {
            },
            Some(binding) => {
                let state = self.borrow_state(binding.local);
                let conflicts = if mutable {
                    state.mutable || state.shared != 0
                } else {
                    state.mutable
                };
                if conflicts {
                    self.report(
                        helped(
                            "E3138",
                            words("borrow conflicts with an active scoped borrow"),
                            "end the earlier reference's scope before borrowing again",
                            span,
                        ),
                    );
                } else if self.frame.persistent_borrow {
                    self.record_borrow(binding.local, mutable);
                }
            },
        }
    }
}

} // verus!

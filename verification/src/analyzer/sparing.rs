//! What becomes of a variable that is not mentioned.

use crate::analyzer::borrowing::forgotten_is_lost;
use crate::analyzer::knowledge::{spec_find_known, spec_forget, spec_forget_all};
use crate::analyzer::{Binding, DeferredUse, Known, State};
use crate::generics::{bound, Entry};
use crate::hir::LocalId;
use crate::list::{cons, List};
use crate::span::Span;
use vstd::prelude::*;

verus! {

/// A variable that is watched: its name and its number.
pub struct Watch {
    pub name: Seq<char>,
    pub local: LocalId,
}

/// Says of a variable that it is watched.
#[verifier::opaque]
pub open spec fn watched(watch: Watch) -> bool {
    true
}

/// Whether a scope has no other name for a variable.
pub open spec fn scope_is_apart<'a>(scope: List<Entry<'a, Binding>>, watch: Watch) -> bool
    decreases scope,
{
    match scope {
        List::Nil => true,
        List::Cons(node) => (node.head.name@ == watch.name || node.head.value.local != watch.local)
            && scope_is_apart(node.tail, watch),
    }
}

/// Whether scopes have no other name for a variable.
#[verifier::opaque]
pub open spec fn scopes_are_apart<'a>(
    scopes: List<List<Entry<'a, Binding>>>,
    watch: Watch,
) -> bool
    decreases scopes,
{
    match scopes {
        List::Nil => true,
        List::Cons(node) => scope_is_apart(node.head, watch) && scopes_are_apart(node.tail, watch),
    }
}

/// Whether a local variable is listed.
pub open spec fn lists_local(locals: List<LocalId>, local: LocalId) -> bool
    decreases locals,
{
    match locals {
        List::Nil => false,
        List::Cons(node) => node.head == local || lists_local(node.tail, local),
    }
}

/// The scopes whose deferred actions reserve a local variable.
#[verifier::opaque]
pub open spec fn reservations(scopes: List<List<LocalId>>, local: LocalId) -> List<bool>
    decreases scopes,
{
    match scopes {
        List::Nil => List::Nil,
        List::Cons(node) => cons(
            lists_local(node.head, local),
            reservations(node.tail, local),
        ),
    }
}

/// Where a variable has been moved, and how deferred actions use it.
pub struct Trace {
    pub moved: Option<Span>,
    pub deferred: Option<DeferredUse>,
    pub reserved: List<bool>,
}

impl<'a> State<'a> {
    /// Whether a variable is declared and has one name only.
    #[verifier::opaque]
    pub open spec fn is_apart(self, watch: Watch) -> bool {
        watch.local.0 < self.frame.next_local && scopes_are_apart(self.frame.scopes, watch)
    }

    /// Where a variable has been moved, and how deferred actions use it.
    pub open spec fn trace(self, local: LocalId) -> Trace {
        Trace {
            moved: spec_find_known(self.frame.moved_locals, local),
            deferred: spec_find_known(self.frame.deferred_uses, local),
            reserved: reservations(self.frame.deferred_use_scopes, local),
        }
    }

    /// Whether a variable has one name later, and its moves and deferred uses stay
    /// as they are.
    #[verifier::opaque]
    pub open spec fn spares(self, later: State<'a>, watch: Watch) -> bool {
        later.is_apart(watch) && self.trace(watch.local) == later.trace(watch.local)
    }

    /// Whether no variable is declared, moved, or used by a deferred action.
    #[verifier::opaque]
    pub open spec fn stays(self, later: State<'a>) -> bool {
        &&& self.frame.scopes == later.frame.scopes
        &&& self.frame.next_local == later.frame.next_local
        &&& self.frame.moved_locals == later.frame.moved_locals
        &&& self.frame.moved_fields == later.frame.moved_fields
        &&& self.frame.deferred_uses == later.frame.deferred_uses
        &&& self.frame.deferred_use_scopes == later.frame.deferred_use_scopes
    }
}

impl<'a> State<'a> {
    /// Whether a scope begins.
    #[verifier::opaque]
    pub open spec fn enters(self, later: State<'a>) -> bool {
        &&& later.frame.scopes == cons(List::Nil, self.frame.scopes)
        &&& later.frame.next_local == self.frame.next_local
        &&& later.frame.moved_locals == self.frame.moved_locals
        &&& later.frame.deferred_uses == self.frame.deferred_uses
        &&& later.frame.deferred_use_scopes == cons(List::Nil, self.frame.deferred_use_scopes)
    }

    /// Whether a scope ends.
    #[verifier::opaque]
    pub open spec fn leaves(self, later: State<'a>) -> bool {
        &&& later.frame.next_local == self.frame.next_local
        &&& later.frame.moved_locals == self.frame.moved_locals
        &&& match self.frame.scopes {
            List::Nil => later.frame.scopes is Nil,
            List::Cons(node) => later.frame.scopes == node.tail,
        }
        &&& match self.frame.deferred_use_scopes {
            List::Nil => later.frame.deferred_uses == self.frame.deferred_uses
                && later.frame.deferred_use_scopes is Nil,
            List::Cons(node) => {
                &&& later.frame.deferred_uses == spec_forget_all(
                    self.frame.deferred_uses,
                    node.head,
                )
                &&& later.frame.deferred_use_scopes == node.tail
            },
        }
    }

    /// Whether other moves count.
    #[verifier::opaque]
    pub open spec fn takes_moves(self, moved: List<Known<Span>>, later: State<'a>) -> bool {
        &&& later.frame.scopes == self.frame.scopes
        &&& later.frame.next_local == self.frame.next_local
        &&& later.frame.moved_locals == moved
        &&& later.frame.deferred_uses == self.frame.deferred_uses
        &&& later.frame.deferred_use_scopes == self.frame.deferred_use_scopes
    }

    /// Whether other moves count, too.
    #[verifier::opaque]
    pub open spec fn adds_moves(self, moved: List<Known<Span>>, later: State<'a>) -> bool {
        &&& later.frame.scopes == self.frame.scopes
        &&& later.frame.next_local == self.frame.next_local
        &&& later.frame.deferred_uses == self.frame.deferred_uses
        &&& later.frame.deferred_use_scopes == self.frame.deferred_use_scopes
        &&& forall|local: LocalId| #[trigger]
            spec_find_known(later.frame.moved_locals, local) == match spec_find_known(
                self.frame.moved_locals,
                local,
            ) {
                Some(value) => Some(value),
                None => spec_find_known(moved, local),
            }
    }
}

/// Nothing happens to variables where nothing happens.
pub broadcast proof fn stays_in_place<'a>(before: State<'a>, after: State<'a>)
    requires
        before == after,
    ensures
        #[trigger] before.stays(after),
{
    reveal(State::stays);
}

/// Nothing happens to variables step by step.
pub broadcast proof fn stays_step_by_step<'a>(
    first: State<'a>,
    second: State<'a>,
    third: State<'a>,
)
    requires
        #[trigger] first.stays(second),
        #[trigger] second.stays(third),
    ensures
        first.stays(third),
{
    reveal(State::stays);
}

/// Where nothing happens to variables, each is spared.
pub broadcast proof fn staying_spares<'a>(before: State<'a>, after: State<'a>, watch: Watch)
    requires
        #[trigger] before.stays(after),
        #[trigger] before.is_apart(watch),
    ensures
        before.spares(after, watch),
{
    reveal(State::stays);
    reveal(State::spares);
    reveal(State::is_apart);
}

/// A variable is spared step by step.
pub broadcast proof fn spares_step_by_step<'a>(
    first: State<'a>,
    second: State<'a>,
    third: State<'a>,
    watch: Watch,
)
    requires
        #[trigger] first.spares(second, watch),
        #[trigger] second.spares(third, watch),
    ensures
        first.spares(third, watch),
{
    reveal(State::spares);
}

/// A variable is spared where nothing happens.
pub broadcast proof fn spares_in_place<'a>(before: State<'a>, after: State<'a>, watch: Watch)
    requires
        before == after,
        before.is_apart(watch),
    ensures
        #[trigger] before.spares(after, watch),
{
    reveal(State::spares);
}

/// A variable that is spared still has one name.
pub broadcast proof fn spared_is_apart<'a>(before: State<'a>, after: State<'a>, watch: Watch)
    requires
        #[trigger] before.spares(after, watch),
    ensures
        after.is_apart(watch),
{
    reveal(State::spares);
}

/// A variable is apart in a new scope.
pub broadcast proof fn entered_is_apart<'a>(before: State<'a>, after: State<'a>, watch: Watch)
    requires
        #[trigger] before.enters(after),
        #[trigger] before.is_apart(watch),
    ensures
        after.is_apart(watch),
{
    reveal(State::enters);
    reveal(State::is_apart);
    reveal(scopes_are_apart);
}

/// A variable that is spared inside a scope is spared by the scope.
pub broadcast proof fn scopes_spare<'a>(
    outside: State<'a>,
    entered: State<'a>,
    inside: State<'a>,
    left: State<'a>,
    watch: Watch,
)
    requires
        #[trigger] outside.enters(entered),
        #[trigger] entered.spares(inside, watch),
        #[trigger] inside.leaves(left),
    ensures
        outside.spares(left, watch),
{
    reveal(State::spares);
    reveal(State::enters);
    reveal(State::leaves);
    reveal(State::is_apart);
    reveal(scopes_are_apart);
    reveal(reservations);
    match inside.frame.deferred_use_scopes {
        List::Nil => {},
        List::Cons(_) => {
            let reserved = inside.frame.deferred_use_scopes.first();
            assert(!lists_local(reserved, watch.local));
            unlisted_is_not_forgotten(inside.frame.deferred_uses, reserved, watch.local);
        },
    }
}

proof fn unlisted_is_not_forgotten<V: Copy>(
    entries: List<Known<V>>,
    locals: List<LocalId>,
    local: LocalId,
)
    requires
        !lists_local(locals, local),
    ensures
        spec_find_known(spec_forget_all(entries, locals), local) == spec_find_known(entries, local),
    decreases locals,
{
    reveal(spec_forget_all);
    match locals {
        List::Nil => {},
        List::Cons(_) => {
            forgotten_is_lost(entries, locals.first(), local);
            unlisted_is_not_forgotten(
                spec_forget(entries, locals.first()),
                locals.rest(),
                local,
            );
        },
    }
}

/// A variable that a branch spares is spared where the moves from before the
/// branch count again.
pub broadcast proof fn restored_moves_spare<'a>(
    earlier: State<'a>,
    now: State<'a>,
    moved: List<Known<Span>>,
    after: State<'a>,
    watch: Watch,
)
    requires
        #[trigger] earlier.spares(now, watch),
        #[trigger] now.takes_moves(moved, after),
        spec_find_known(moved, watch.local) == spec_find_known(
            earlier.frame.moved_locals,
            watch.local,
        ),
    ensures
        earlier.spares(after, watch),
{
    reveal(State::spares);
    reveal(State::is_apart);
    reveal(State::takes_moves);
}

/// A variable that two branches spare is spared where both meet.
pub broadcast proof fn merged_moves_spare<'a>(
    earlier: State<'a>,
    other: State<'a>,
    now: State<'a>,
    moved: List<Known<Span>>,
    after: State<'a>,
    watch: Watch,
)
    requires
        #[trigger] earlier.spares(other, watch),
        #[trigger] earlier.spares(now, watch),
        #[trigger] now.adds_moves(moved, after),
        moved == other.frame.moved_locals,
    ensures
        earlier.spares(after, watch),
{
    reveal(State::spares);
    reveal(State::is_apart);
    reveal(State::adds_moves);
}

/// What is found in a scope under another name is another variable.
pub proof fn found_in_scope_is_apart<'a>(
    scope: List<Entry<'a, Binding>>,
    name: Seq<char>,
    watch: Watch,
)
    requires
        scope_is_apart(scope, watch),
        name != watch.name,
    ensures
        match bound(scope, name) {
            Some(binding) => binding.local != watch.local,
            None => true,
        },
    decreases scope,
{
    match scope {
        List::Nil => {},
        List::Cons(_) => {
            found_in_scope_is_apart(scope.rest(), name, watch);
        },
    }
}

pub broadcast group group_spared {
    stays_in_place,
    stays_step_by_step,
    staying_spares,
    spares_step_by_step,
    spares_in_place,
    spared_is_apart,
    entered_is_apart,
    scopes_spare,
    restored_moves_spare,
    merged_moves_spare,
}

} // verus!

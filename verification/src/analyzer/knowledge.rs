//! What is known of local variables.

use crate::analyzer::{Borrow, BorrowState, Known};
use crate::hir::LocalId;
use crate::list::{cons, prepend, prepended, List};
use vstd::prelude::*;

verus! {

broadcast use crate::list::pushed_comes_first;

/// What is known of a local variable: the first entry counts.
#[verifier::opaque]
pub open spec fn spec_find_known<V: Copy>(entries: List<Known<V>>, local: LocalId) -> Option<V>
    decreases entries,
{
    match entries {
        List::Nil => None,
        List::Cons(node) => if node.head.local == local {
            Some(node.head.value)
        } else {
            spec_find_known(node.tail, local)
        },
    }
}

/// What is known of a local variable: the first entry counts.
pub(crate) fn find_known<V: Copy>(entries: &List<Known<V>>, local: LocalId) -> (value: Option<V>)
    ensures
        value == spec_find_known(*entries, local),
{
    let mut ahead: &List<Known<V>> = entries;
    loop
        invariant
            spec_find_known(*entries, local) == spec_find_known(*ahead, local),
        decreases *ahead,
    {
        reveal(spec_find_known);
        match ahead {
            List::Nil => {
                return None;
            },
            List::Cons(node) => {
                if node.head.local == local {
                    return Some(node.head.value);
                } else {
                    ahead = &node.tail;
                }
            },
        }
    }
}

/// What is known, without what is known of a local variable.
#[verifier::opaque]
pub open spec fn spec_forget<V: Copy>(entries: List<Known<V>>, local: LocalId) -> List<Known<V>>
    decreases entries,
{
    match entries {
        List::Nil => List::Nil,
        List::Cons(node) => if node.head.local == local {
            spec_forget(node.tail, local)
        } else {
            cons(
                Known { local: node.head.local, value: node.head.value },
                spec_forget(node.tail, local),
            )
        },
    }
}

/// What is known, without what is known of a local variable.
pub(crate) fn forget<V: Copy>(entries: &List<Known<V>>, local: LocalId) -> (kept: List<Known<V>>)
    ensures
        kept == spec_forget(*entries, local),
{
    let mut ahead: &List<Known<V>> = entries;
    let mut done: Vec<Known<V>> = Vec::new();
    loop
        invariant
            spec_forget(*entries, local) == prepended(done@, spec_forget(*ahead, local)),
        decreases *ahead,
    {
        reveal(spec_forget);
        match ahead {
            List::Nil => {
                return prepend(done, List::Nil);
            },
            List::Cons(node) => {
                if node.head.local == local {
                    ahead = &node.tail;
                } else {
                    done.push(Known { local: node.head.local, value: node.head.value });
                    ahead = &node.tail;
                }
            },
        }
    }
}

/// What is known, with the newest of a local variable.
#[verifier::opaque]
pub open spec fn spec_know<V: Copy>(
    entries: List<Known<V>>,
    local: LocalId,
    value: V,
) -> List<Known<V>> {
    cons(Known { local, value }, spec_forget(entries, local))
}

/// What is known, with the newest of a local variable.
pub(crate) fn know<V: Copy>(
    entries: &List<Known<V>>,
    local: LocalId,
    value: V,
) -> (more: List<Known<V>>)
    ensures
        more == spec_know(*entries, local, value),
{
    reveal(spec_know);
    cons(Known { local, value }, forget(entries, local))
}

/// What is known, without what is known of some local variables.
#[verifier::opaque]
pub open spec fn spec_forget_all<V: Copy>(
    entries: List<Known<V>>,
    locals: List<LocalId>,
) -> List<Known<V>>
    decreases locals,
{
    match locals {
        List::Nil => entries,
        List::Cons(node) => spec_forget_all(spec_forget(entries, node.head), node.tail),
    }
}

/// What is known, without what is known of some local variables.
pub(crate) fn forget_all<V: Copy>(
    entries: &List<Known<V>>,
    locals: &List<LocalId>,
) -> (kept: List<Known<V>>)
    ensures
        kept == spec_forget_all(*entries, *locals),
{
    let mut ahead: &List<LocalId> = locals;
    let mut current_entries: List<Known<V>> = entries.share();
    loop
        invariant
            spec_forget_all(*entries, *locals) == spec_forget_all(current_entries, *ahead),
        decreases *ahead,
    {
        reveal(spec_forget_all);
        match ahead {
            List::Nil => {
                return current_entries;
            },
            List::Cons(node) => {
                current_entries = forget(&current_entries, node.head);
                ahead = &node.tail;
            },
        }
    }
}

/// The borrows that are left when some of them end.
#[verifier::opaque]
pub open spec fn spec_release(
    states: List<Known<BorrowState>>,
    borrows: List<Borrow>,
) -> List<Known<BorrowState>>
    decreases borrows,
{
    match borrows {
        List::Nil => states,
        List::Cons(node) => match spec_find_known(states, node.head.local) {
            None => spec_release(states, node.tail),
            Some(state) => {
                let left = if node.head.mutable {
                    BorrowState { shared: state.shared, mutable: false }
                } else {
                    BorrowState { shared: state.shared.saturating_sub(1), mutable: state.mutable }
                };
                if left.shared == 0 && !left.mutable {
                    spec_release(spec_forget(states, node.head.local), node.tail)
                } else {
                    spec_release(spec_know(states, node.head.local, left), node.tail)
                }
            },
        },
    }
}

/// The borrows that are left when some of them end.
pub(crate) fn release(
    states: &List<Known<BorrowState>>,
    borrows: &List<Borrow>,
) -> (left: List<Known<BorrowState>>)
    ensures
        left == spec_release(*states, *borrows),
{
    let mut ahead: &List<Borrow> = borrows;
    let mut current_states: List<Known<BorrowState>> = states.share();
    loop
        invariant
            spec_release(*states, *borrows) == spec_release(current_states, *ahead),
        decreases *ahead,
    {
        reveal(spec_release);
        match ahead {
            List::Nil => {
                return current_states;
            },
            List::Cons(node) => {
                match find_known(&current_states, node.head.local) {
                    None => {
                        ahead = &node.tail;
                    },
                    Some(state) => {
                        let left = if node.head.mutable {
                            BorrowState { shared: state.shared, mutable: false }
                        } else {
                            BorrowState { shared: state.shared.saturating_sub(1), mutable: state.mutable }
                        };
                        if left.shared == 0 && !left.mutable {
                            current_states = forget(&current_states, node.head.local);
                            ahead = &node.tail;
                        } else {
                            current_states = know(&current_states, node.head.local, left);
                            ahead = &node.tail;
                        }
                    },
                }
            },
        }
    }
}

} // verus!

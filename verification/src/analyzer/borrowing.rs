//! Borrows stay exclusive.

use crate::analyzer::functions::spec_function_frame;
use crate::analyzer::growth::exclusive;
use crate::analyzer::knowledge::{spec_find_known, spec_forget, spec_know, spec_release};
use crate::analyzer::{Borrow, BorrowState, Known, Signature, State};
use crate::ast::Expression;
use crate::generics::Environment;
use crate::hir::LocalId;
use crate::list::List;
use crate::span::Span;
use crate::text::Text;
use vstd::prelude::*;

verus! {

broadcast use {
    crate::analyzer::numbering::group_numbered,
    crate::registry::growth::group_grown,
    crate::span::group_kept,
};

impl<'a> State<'a> {
    /// A borrow that is checked keeps mutable borrows exclusive.
    pub proof fn checked_borrow_leads(self, operand: Expression<'a>, mutable: bool, span: Span)
        ensures
            self.leads_to(self.check_and_record_borrow(operand, mutable, span)),
            self.stays(self.check_and_record_borrow(operand, mutable, span)),
    {
        reveal(State::leads_to);
        reveal(State::stays);
        reveal(State::check_and_record_borrow);
        reveal(State::record_borrow);
        reveal(State::borrow_state);
        reveal(State::report);
        let later = self.check_and_record_borrow(operand, mutable, span);
        assert(self.types.grows_into(later.types)) by {
            reveal(crate::registry::Types::grows_into);
        }
        if exclusive(self.frame.borrow_states) {
            assert forall|local: LocalId|
                match #[trigger] spec_find_known(later.frame.borrow_states, local) {
                    Some(state) => !(state.mutable && state.shared > 0),
                    None => true,
                } by {
                let before = spec_find_known(self.frame.borrow_states, local);
                match self.root_binding(operand) {
                    Some(binding) => {
                        let old_state = spec_find_known(self.frame.borrow_states, binding.local);
                        let state = self.borrow_state(binding.local);
                        let more = if mutable {
                            BorrowState { shared: state.shared, mutable: true }
                        } else {
                            BorrowState {
                                shared: state.shared.saturating_add(1),
                                mutable: state.mutable,
                            }
                        };
                        known_is_found(self.frame.borrow_states, binding.local, more, local);
                    },
                    None => {},
                }
            }
        }
    }

    /// Borrows that end keep mutable borrows exclusive.
    pub proof fn ended_borrows_lead(self)
        ensures
            self.leads_to(self.end_borrows()),
            self.stays(self.end_borrows()),
    {
        reveal(State::leads_to);
        reveal(State::stays);
        reveal(State::end_borrows);
        match self.frame.borrow_scopes {
            List::Nil => {},
            List::Cons(_) => {
                if exclusive(self.frame.borrow_states) {
                    released_borrows_are_exclusive(
                        self.frame.borrow_states,
                        self.frame.borrow_scopes.first(),
                    );
                }
            },
        }
    }

    /// Nothing is borrowed where a function begins.
    pub proof fn entered_function_leads(
        self,
        signature: Signature,
        environment: Environment<'a>,
        home: Text<'a>,
    )
        ensures
            self.reaches(self.enter_function(signature, environment, home)),
    {
        reveal(State::reaches);
        reveal(State::enter_function);
        reveal(spec_function_frame);
        reveal(spec_find_known);
    }
}

/// What is known of a local variable after something new is known of one.
pub proof fn known_is_found<V: Copy>(
    entries: List<Known<V>>,
    local: LocalId,
    value: V,
    asked: LocalId,
)
    ensures
        spec_find_known(spec_know(entries, local, value), asked) == if asked == local {
            Some(value)
        } else {
            spec_find_known(entries, asked)
        },
{
    reveal(spec_know);
    reveal(spec_find_known);
    forgotten_is_lost(entries, local, asked);
}

/// What is known of a local variable after one of them is forgotten.
pub proof fn forgotten_is_lost<V: Copy>(entries: List<Known<V>>, local: LocalId, asked: LocalId)
    ensures
        spec_find_known(spec_forget(entries, local), asked) == if asked == local {
            None
        } else {
            spec_find_known(entries, asked)
        },
    decreases entries,
{
    reveal(spec_forget);
    reveal(spec_find_known);
    match entries {
        List::Nil => {},
        List::Cons(_) => {
            forgotten_is_lost(entries.rest(), local, asked);
        },
    }
}

/// Borrows that end leave mutable borrows exclusive.
pub proof fn released_borrows_are_exclusive(
    states: List<Known<BorrowState>>,
    borrows: List<Borrow>,
)
    requires
        exclusive(states),
    ensures
        exclusive(spec_release(states, borrows)),
    decreases borrows,
{
    reveal(spec_release);
    match borrows {
        List::Nil => {},
        List::Cons(_) => {
            let borrow = borrows.first();
            match spec_find_known(states, borrow.local) {
                None => {
                    released_borrows_are_exclusive(states, borrows.rest());
                },
                Some(state) => {
                    let left = if borrow.mutable {
                        BorrowState { shared: state.shared, mutable: false }
                    } else {
                        BorrowState {
                            shared: state.shared.saturating_sub(1),
                            mutable: state.mutable,
                        }
                    };
                    let after = if left.shared == 0 && !left.mutable {
                        spec_forget(states, borrow.local)
                    } else {
                        spec_know(states, borrow.local, left)
                    };
                    assert forall|local: LocalId|
                        match #[trigger] spec_find_known(after, local) {
                            Some(state) => !(state.mutable && state.shared > 0),
                            None => true,
                        } by {
                        let before = spec_find_known(states, local);
                        if left.shared == 0 && !left.mutable {
                            forgotten_is_lost(states, borrow.local, local);
                        } else {
                            known_is_found(states, borrow.local, left, local);
                        }
                    }
                    released_borrows_are_exclusive(after, borrows.rest());
                },
            }
        },
    }
}

} // verus!

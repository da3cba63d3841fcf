//! What every step of an analyzer keeps.

use crate::analyzer::knowledge::spec_find_known;
use crate::analyzer::{
    BorrowState, FunctionInstance, Known, PendingFunction, Signature, State, Symbol, Symbols,
};
use crate::ast::Parameter;
use crate::hir::LocalId;
use crate::list::List;
use crate::registry::Types;
use crate::span::kept;
use crate::types::Type;
use crate::typing::{sound_entries, Scene};
use vstd::prelude::*;

verus! {

broadcast use {
    crate::analyzer::numbering::group_numbered,
    crate::registry::growth::group_grown,
    crate::span::group_kept,
};

/// Whether no local variable is borrowed mutably and otherwise at the same
/// time.
pub open spec fn exclusive(states: List<Known<BorrowState>>) -> bool {
    forall|local: LocalId|
        match #[trigger] spec_find_known(states, local) {
            Some(state) => !(state.mutable && state.shared > 0),
            None => true,
        }
}

/// Whether a signature is listed with a name.
#[verifier::opaque]
pub open spec fn is_declared<'a>(symbols: List<Symbol<'a, Signature>>, signature: Signature) -> bool
    decreases symbols,
{
    match symbols {
        List::Nil => false,
        List::Cons(node) => node.head.value == signature || is_declared(node.tail, signature),
    }
}

/// Whether a signature is that of an instance of a generic function.
#[verifier::opaque]
pub open spec fn is_instance<'a>(
    instances: List<FunctionInstance<'a>>,
    signature: Signature,
) -> bool
    decreases instances,
{
    match instances {
        List::Nil => false,
        List::Cons(node) => node.head.signature == signature || is_instance(node.tail, signature),
    }
}

impl<'a> PendingFunction<'a> {
    /// The parameters of the function.
    pub open spec fn parameters(self) -> List<Parameter<'a>> {
        self.function.parameters
    }

    /// Whether the signature has a type for each parameter.
    pub open spec fn is_complete(self) -> bool {
        self.parameters()@.len() == self.signature.parameter_types@.len()
    }
}

/// Whether a signature is that of an instance which waits to be checked.
#[verifier::opaque]
pub open spec fn awaits<'a>(pending: List<PendingFunction<'a>>, signature: Signature) -> bool
    decreases pending,
{
    match pending {
        List::Nil => false,
        List::Cons(node) => (node.head.signature == signature && node.head.is_complete())
            || awaits(node.tail, signature),
    }
}

/// Whether the functions to call are the same but for new instances.
pub open spec fn remembers<'a>(before: Symbols<'a>, after: Symbols<'a>) -> bool {
    &&& before.signatures == after.signatures
    &&& forall|signature: Signature| #[trigger]
        is_instance(before.instances, signature) ==> is_instance(after.instances, signature)
}

/// Whether new instances wait to be checked, and those that wait go on waiting.
pub open spec fn leaves_waiting<'a>(before: Symbols<'a>, after: Symbols<'a>) -> bool {
    &&& forall|signature: Signature| #[trigger]
        is_instance(after.instances, signature) ==> is_instance(before.instances, signature)
            || awaits(after.pending, signature)
    &&& forall|signature: Signature| #[trigger]
        awaits(before.pending, signature) ==> awaits(after.pending, signature)
}

impl<'a> State<'a> {
    /// Whether a function can be called.
    #[verifier::opaque]
    pub open spec fn knows(self, signature: Signature) -> bool {
        is_declared(self.symbols.signatures, signature) || is_instance(
            self.symbols.instances,
            signature,
        )
    }

    /// Whether there are no other functions to call than these.
    #[verifier::opaque]
    pub open spec fn calls_among(self, callees: Set<Signature>) -> bool {
        forall|signature: Signature| #[trigger]
            self.knows(signature) ==> callees.contains(signature)
    }

    /// Whether what is known in this state can be used where expressions fit into
    /// a scene.
    #[verifier::opaque]
    pub open spec fn admits(self, scene: Scene) -> bool {
        scene.output == self.output() && self.calls_among(scene.callees)
    }

    /// Whether a problem has been met.
    #[verifier::opaque]
    pub open spec fn troubled(self) -> bool {
        self.types.problems.len() > 0
    }

    /// Whether the values of the constants fit together.
    #[verifier::opaque]
    pub open spec fn prepared(self) -> bool {
        sound_entries(self.types.constants)
    }

    /// The type of what the present function returns.
    #[verifier::opaque]
    pub open spec fn output(self) -> Type {
        self.frame.signature.return_type
    }

    /// Whether an analyzer can get from this state to a later one: no problem
    /// is dropped, every type keeps its definition, mutable borrows stay
    /// exclusive, and constants stay sound.
    #[verifier::opaque]
    pub open spec fn reaches(self, later: State<'a>) -> bool {
        &&& self.types.grows_into(later.types)
        &&& exclusive(self.frame.borrow_states) ==> exclusive(later.frame.borrow_states)
    }

    /// Whether all instances wait to be checked.
    #[verifier::opaque]
    pub open spec fn all_wait(self) -> bool {
        forall|signature: Signature| #[trigger]
            is_instance(self.symbols.instances, signature) ==> awaits(
                self.symbols.pending,
                signature,
            )
    }

    /// Whether later the same functions can be called, and new instances.
    #[verifier::opaque]
    pub open spec fn recalls(self, later: State<'a>) -> bool {
        remembers(self.symbols, later.symbols)
    }

    /// Whether later new instances wait to be checked.
    #[verifier::opaque]
    pub open spec fn works_on(self, later: State<'a>) -> bool {
        remembers(self.symbols, later.symbols) && leaves_waiting(self.symbols, later.symbols)
    }

    /// Whether an analyzer can get from this state to a later one in the same
    /// function. Its instances of generic functions are numbered one after
    /// another.
    #[verifier::opaque]
    pub open spec fn leads_to(self, later: State<'a>) -> bool {
        &&& self.types.grows_into(later.types)
        &&& exclusive(self.frame.borrow_states) ==> exclusive(later.frame.borrow_states)
        &&& self.frame.signature.return_type == later.frame.signature.return_type
        &&& self.numbers_on(later)
        &&& remembers(self.symbols, later.symbols)
        &&& leaves_waiting(self.symbols, later.symbols)
        &&& self.symbols.statics == later.symbols.statics
    }
}

/// An analyzer that does nothing stays where it is.
pub broadcast proof fn leads_nowhere<'a>(before: State<'a>, after: State<'a>)
    requires
        before == after,
    ensures
        #[trigger] before.leads_to(after),
{
    reveal(State::leads_to);
}

/// An analyzer gets where it gets step by step.
pub broadcast proof fn leads_step_by_step<'a>(
    first: State<'a>,
    second: State<'a>,
    third: State<'a>,
)
    requires
        #[trigger] first.leads_to(second),
        #[trigger] second.leads_to(third),
    ensures
        first.leads_to(third),
{
    reveal(State::leads_to);
}

/// An analyzer stays in its function.
pub broadcast proof fn function_stays<'a>(before: State<'a>, after: State<'a>)
    requires
        #[trigger] before.leads_to(after),
    ensures
        before.reaches(after),
        before.output() == after.output(),
        before.numbers_on(after),
        before.works_on(after),
{
    reveal(State::leads_to);
    reveal(State::reaches);
    reveal(State::output);
    reveal(State::works_on);
}

/// Where nothing happens nothing new waits.
pub broadcast proof fn works_in_place<'a>(before: State<'a>, after: State<'a>)
    requires
        before == after,
    ensures
        #[trigger] before.works_on(after),
{
    reveal(State::works_on);
}

/// Instances wait for as long as work goes on.
pub broadcast proof fn all_go_on_waiting<'a>(before: State<'a>, after: State<'a>)
    requires
        #[trigger] before.works_on(after),
        before.all_wait(),
    ensures
        after.all_wait(),
{
    reveal(State::works_on);
    reveal(State::all_wait);
}

/// Work goes on step by step.
pub broadcast proof fn works_step_by_step<'a>(
    first: State<'a>,
    second: State<'a>,
    third: State<'a>,
)
    requires
        #[trigger] first.works_on(second),
        #[trigger] second.works_on(third),
    ensures
        first.works_on(third),
{
    reveal(State::works_on);
}

/// Where work goes on nothing is forgotten.
pub broadcast proof fn work_recalls<'a>(before: State<'a>, after: State<'a>)
    requires
        #[trigger] before.works_on(after),
    ensures
        before.recalls(after),
{
    reveal(State::works_on);
    reveal(State::recalls);
}

/// Nothing is forgotten step by step.
pub broadcast proof fn recalls_step_by_step<'a>(
    first: State<'a>,
    second: State<'a>,
    third: State<'a>,
)
    requires
        #[trigger] first.recalls(second),
        #[trigger] second.recalls(third),
    ensures
        first.recalls(third),
{
    reveal(State::recalls);
}

/// Nothing is forgotten where nothing happens.
pub broadcast proof fn recalls_in_place<'a>(before: State<'a>, after: State<'a>)
    requires
        before == after,
    ensures
        #[trigger] before.recalls(after),
{
    reveal(State::recalls);
}

/// An analyzer that does nothing stays where it is.
pub broadcast proof fn reaches_nowhere<'a>(before: State<'a>, after: State<'a>)
    requires
        before == after,
    ensures
        #[trigger] before.reaches(after),
{
    reveal(State::reaches);
}

/// An analyzer gets where it gets step by step.
pub broadcast proof fn reaches_step_by_step<'a>(
    first: State<'a>,
    second: State<'a>,
    third: State<'a>,
)
    requires
        #[trigger] first.reaches(second),
        #[trigger] second.reaches(third),
    ensures
        first.reaches(third),
{
    reveal(State::reaches);
}

/// A problem that has been met is not forgotten.
pub broadcast proof fn trouble_stays<'a>(before: State<'a>, after: State<'a>)
    requires
        #[trigger] before.reaches(after),
        before.troubled(),
    ensures
        after.troubled(),
{
    reveal(State::reaches);
    reveal(State::troubled);
    reveal(Types::grows_into);
    reveal(kept);
}

/// Constants stay sound.
pub broadcast proof fn constants_stay_sound<'a>(before: State<'a>, after: State<'a>)
    requires
        #[trigger] before.reaches(after),
        before.prepared(),
    ensures
        after.prepared(),
{
    reveal(State::reaches);
    reveal(State::prepared);
    reveal(Types::grows_into);
}

/// What can be used later can be used now.
pub broadcast proof fn scenes_are_admitted<'a>(before: State<'a>, after: State<'a>, scene: Scene)
    requires
        #[trigger] before.leads_to(after),
        #[trigger] after.admits(scene),
    ensures
        before.admits(scene),
{
    reveal(State::leads_to);
    reveal(State::admits);
    reveal(State::calls_among);
    reveal(State::output);
    reveal(State::recalls);
    callees_stay(before, after, scene.callees);
}

/// What can be called later can be called now.
pub broadcast proof fn callees_stay<'a>(
    before: State<'a>,
    after: State<'a>,
    callees: Set<Signature>,
)
    requires
        #[trigger] before.recalls(after),
        #[trigger] after.calls_among(callees),
    ensures
        before.calls_among(callees),
{
    reveal(State::calls_among);
    assert forall|signature: Signature| #[trigger] before.knows(signature) implies callees.contains(
        signature,
    ) by {
        reveal(State::recalls);
        reveal(State::knows);
        assert(after.knows(signature));
    }
}

/// What is known can be called.
pub broadcast proof fn known_can_be_called<'a>(
    state: State<'a>,
    signature: Signature,
    scene: Scene,
)
    requires
        #[trigger] state.admits(scene),
        #[trigger] state.knows(signature),
    ensures
        scene.callees.contains(signature),
{
    reveal(State::admits);
    reveal(State::calls_among);
}

/// A scene is that of the present function.
pub broadcast proof fn admitted_output<'a>(state: State<'a>, scene: Scene)
    requires
        #[trigger] state.admits(scene),
    ensures
        scene.output == state.output(),
{
    reveal(State::admits);
}

pub broadcast group group_led {
    works_in_place,
    all_go_on_waiting,
    works_step_by_step,
    work_recalls,
    recalls_step_by_step,
    recalls_in_place,
    scenes_are_admitted,
    callees_stay,
    known_can_be_called,
    admitted_output,
    leads_nowhere,
    leads_step_by_step,
    function_stays,
    reaches_nowhere,
    reaches_step_by_step,
    trouble_stays,
    constants_stay_sound,
}

} // verus!

//! The numbers that functions bear.

use crate::analyzer::declarations::Declaration;
use crate::analyzer::functions::{
    gathered, spec_by_number, spec_copy_function, spec_foreign_function, spec_foreign_functions,
    spec_inserted, spec_joined_functions, spec_oldest_first,
};
use crate::analyzer::laws::numbered_from;
use crate::analyzer::{PendingFunction, State};
use crate::hir::{ForeignFunction, Function};
use crate::list::{cons, List};
use vstd::prelude::*;

verus! {

/// How many of the functions bear a number.
pub open spec fn bearing(functions: List<Function>, number: int) -> nat
    decreases functions,
{
    match functions {
        List::Nil => 0,
        List::Cons(node) => bearing(node.tail, number) + if node.head.id.0 == number {
            1nat
        } else {
            0
        },
    }
}

/// How many of the functions of other languages bear a number.
pub open spec fn foreign_bearing(functions: List<ForeignFunction>, number: int) -> nat
    decreases functions,
{
    match functions {
        List::Nil => 0,
        List::Cons(node) => foreign_bearing(node.tail, number) + if node.head.id.0 == number {
            1nat
        } else {
            0
        },
    }
}

/// How many of the instances that wait bear a number.
pub open spec fn waiting(pending: List<PendingFunction>, number: int) -> nat
    decreases pending,
{
    match pending {
        List::Nil => 0,
        List::Cons(node) => waiting(node.tail, number) + if node.head.signature.id.0 == number {
            1nat
        } else {
            0
        },
    }
}

/// One for the numbers from `first` up to `end`, which is left out, and nothing
/// for any other.
pub open spec fn once(first: int, end: int, number: int) -> nat {
    if first <= number < end {
        1
    } else {
        0
    }
}

/// Whether functions bear the numbers from `first` up to `end`, each once.
pub open spec fn numbered_between(functions: List<Function>, first: int, end: int) -> bool {
    forall|number: int| #[trigger] bearing(functions, number) == once(first, end, number)
}

/// Whether functions and those of other languages together bear the numbers
/// from zero up to `end`, each once.
pub open spec fn numbered_together(
    functions: List<Function>,
    foreign_functions: List<ForeignFunction>,
    end: int,
) -> bool {
    forall|number: int|
        #![trigger bearing(functions, number)]
        #![trigger foreign_bearing(foreign_functions, number)]
        bearing(functions, number) + foreign_bearing(foreign_functions, number) == once(
            0,
            end,
            number,
        )
}

/// Whether functions and those of other languages together bear the numbers
/// from zero up to some other, each once.
pub open spec fn each_numbered_once(
    functions: List<Function>,
    foreign_functions: List<ForeignFunction>,
) -> bool {
    exists|end: int| numbered_together(functions, foreign_functions, end)
}

/// Whether the instances that wait bear the last of the numbers that have been
/// given, each once.
#[verifier::opaque]
pub open spec fn evenly_numbered(pending: List<PendingFunction>, next: u32) -> bool {
    &&& pending@.len() <= next
    &&& forall|number: int| #[trigger]
        waiting(pending, number) == once(next - pending@.len(), next as int, number)
}

impl<'a> State<'a> {
    /// The number of the instance that has waited longest, or the next number
    /// if none waits.
    pub open spec fn oldest_number(self) -> int {
        self.symbols.next_id - self.symbols.pending@.len()
    }

    /// Whether the instances that wait bear the last of the numbers that have
    /// been given, each once.
    pub open spec fn is_numbered(self) -> bool {
        evenly_numbered(self.symbols.pending, self.symbols.next_id)
    }

    /// Whether later instances bear the numbers that follow.
    pub open spec fn numbers_on(self, later: State<'a>) -> bool {
        goes_on(
            self.symbols.pending,
            self.symbols.next_id,
            later.symbols.pending,
            later.symbols.next_id,
        )
    }
}

/// Whether later instances bear the numbers that follow.
#[verifier::opaque]
pub open spec fn goes_on(
    pending: List<PendingFunction>,
    next: u32,
    later: List<PendingFunction>,
    later_next: u32,
) -> bool {
    evenly_numbered(pending, next) ==> evenly_numbered(later, later_next) && later_next
        - later@.len() == next - pending@.len()
}

/// Without new instances no number is given.
pub broadcast proof fn numbers_stay<'a>(
    pending: List<PendingFunction<'a>>,
    next: u32,
    later: List<PendingFunction<'a>>,
    later_next: u32,
)
    requires
        pending == later,
        next == later_next,
    ensures
        #[trigger] goes_on(pending, next, later, later_next),
{
    reveal(goes_on);
}

/// Numbers are given one after another.
pub broadcast proof fn numbers_follow<'a>(
    first: List<PendingFunction<'a>>,
    first_next: u32,
    second: List<PendingFunction<'a>>,
    second_next: u32,
    third: List<PendingFunction<'a>>,
    third_next: u32,
)
    requires
        #[trigger] goes_on(first, first_next, second, second_next),
        #[trigger] goes_on(second, second_next, third, third_next),
    ensures
        goes_on(first, first_next, third, third_next),
{
    reveal(goes_on);
}

pub broadcast group group_numbered {
    numbers_stay,
    numbers_follow,
}

/// A new instance bears the next number.
pub proof fn instance_bears_next<'a>(
    before: State<'a>,
    after: State<'a>,
    pending: PendingFunction<'a>,
)
    requires
        before.symbols.next_id < u32::MAX,
        after.symbols.next_id == before.symbols.next_id + 1,
        after.symbols.pending == cons(pending, before.symbols.pending),
        pending.signature.id.0 == before.symbols.next_id,
    ensures
        before.numbers_on(after),
{
    reveal(goes_on);
    reveal(evenly_numbered);
    assert(after.symbols.pending@ =~= seq![pending] + before.symbols.pending@);
    if before.is_numbered() {
        assert forall|number: int| #[trigger]
            waiting(after.symbols.pending, number) == once(
                after.symbols.next_id - after.symbols.pending@.len(),
                after.symbols.next_id as int,
                number,
            ) by {
            assert(waiting(before.symbols.pending, number) == once(
                before.symbols.next_id - before.symbols.pending@.len(),
                before.symbols.next_id as int,
                number,
            ));
        }
    }
}

/// Where no instance waits, the next one bears the next number.
pub proof fn none_waits<'a>(state: State<'a>)
    requires
        state.symbols.pending is Nil,
    ensures
        state.is_numbered(),
        state.oldest_number() == state.symbols.next_id,
{
    reveal(evenly_numbered);
}

proof fn reversed_wait<'a>(
    pending: List<PendingFunction<'a>>,
    behind: List<PendingFunction<'a>>,
    number: int,
)
    ensures
        waiting(spec_oldest_first(pending, behind), number) == waiting(pending, number) + waiting(
            behind,
            number,
        ),
    decreases pending,
{
    reveal(spec_oldest_first);
    match pending {
        List::Nil => {},
        List::Cons(_) => {
            reversed_wait(pending.rest(), cons(pending.first(), behind), number);
        },
    }
}

impl<'a> State<'a> {
    /// The state after an instance is checked.
    spec fn checked_instance(self, instance: PendingFunction<'a>) -> Self {
        self.analyze_function(
            *instance.function,
            instance.resolved_name,
            instance.signature,
            instance.environment,
            instance.home,
        ).0
    }
}

proof fn instances_bear<'a>(state: State<'a>, instances: List<PendingFunction<'a>>, number: int)
    ensures
        bearing(state.analyze_instances(instances).1, number) == waiting(instances, number),
    decreases instances,
{
    reveal(State::analyze_instances);
    reveal(State::analyze_function);
    reveal(State::analyze_entered);
    match instances {
        List::Nil => {},
        List::Cons(_) => {
            let waits = instances.first();
            let next = state.checked_instance(waits);
            instances_bear(next, instances.rest(), number);
        },
    }
}

proof fn joined_bear<'a>(first: List<Function<'a>>, second: List<Function<'a>>, number: int)
    ensures
        bearing(spec_joined_functions(first, second), number) == bearing(first, number) + bearing(
            second,
            number,
        ),
    decreases first,
{
    reveal(spec_joined_functions);
    reveal(spec_copy_function);
    match first {
        List::Nil => {},
        List::Cons(_) => {
            joined_bear(first.rest(), second, number);
        },
    }
}

/// The instances that wait bear their numbers once they are checked.
pub proof fn round_bears<'a>(
    before: State<'a>,
    state: State<'a>,
    rounds: Seq<List<Function<'a>>>,
    first: int,
)
    requires
        before.is_numbered(),
        forall|rest: List<Function<'a>>, number: int| #[trigger]
            bearing(gathered(rounds, rest), number) == once(first, before.oldest_number(), number)
                + bearing(rest, number),
        first <= before.oldest_number(),
    ensures
        ({
            let checked = state.analyze_instances(
                spec_oldest_first(before.symbols.pending, List::Nil),
            ).1;
            forall|rest: List<Function<'a>>, number: int| #[trigger]
                bearing(gathered(rounds.push(checked), rest), number) == once(
                    first,
                    before.symbols.next_id as int,
                    number,
                ) + bearing(rest, number)
        }),
{
    reveal(evenly_numbered);
    let waits = spec_oldest_first(before.symbols.pending, List::Nil);
    let checked = state.analyze_instances(waits).1;
    assert forall|rest: List<Function<'a>>, number: int| #[trigger]
        bearing(gathered(rounds.push(checked), rest), number) == once(
            first,
            before.symbols.next_id as int,
            number,
        ) + bearing(rest, number) by {
        assert(rounds.push(checked).drop_last() =~= rounds);
        assert(gathered(rounds.push(checked), rest) == gathered(
            rounds,
            spec_joined_functions(checked, rest),
        ));
        joined_bear(checked, rest, number);
        instances_bear(state, waits, number);
        reversed_wait(before.symbols.pending, List::Nil, number);
        assert(waiting(before.symbols.pending, number) == once(
            before.oldest_number(),
            before.symbols.next_id as int,
            number,
        ));
    }
}

proof fn inserted_bear<'a>(function: Function<'a>, functions: List<Function<'a>>, number: int)
    ensures
        bearing(spec_inserted(function, functions), number) == bearing(
            cons(function, functions),
            number,
        ),
    decreases functions,
{
    reveal(spec_inserted);
    reveal(spec_copy_function);
    reveal_with_fuel(bearing, 3);
    match functions {
        List::Nil => {
            assert(spec_inserted(function, functions) == cons(function, functions));
        },
        List::Cons(_) => {
            inserted_bear(function, functions.rest(), number);
        },
    }
}

proof fn ordered_bear<'a>(functions: List<Function<'a>>, number: int)
    ensures
        bearing(spec_by_number(functions), number) == bearing(functions, number),
    decreases functions,
{
    reveal(spec_by_number);
    reveal(spec_copy_function);
    match functions {
        List::Nil => {},
        List::Cons(_) => {
            ordered_bear(functions.rest(), number);
            inserted_bear(functions.first(), spec_by_number(functions.rest()), number);
        },
    }
}

proof fn declared_bear<'a>(
    state: State<'a>,
    declarations: List<Declaration<'a>>,
    count: u64,
    number: int,
)
    requires
        numbered_from(declarations@, count),
    ensures
        bearing(state.analyze_sources(declarations).1, number) + foreign_bearing(
            spec_foreign_functions(declarations),
            number,
        ) == once(count as int, count + declarations@.len(), number),
    decreases declarations,
{
    reveal(State::analyze_sources);
    reveal(State::analyze_function);
    reveal(State::analyze_entered);
    reveal(spec_foreign_functions);
    reveal(spec_foreign_function);
    match declarations {
        List::Nil => {},
        List::Cons(_) => {
            let declared = declarations.first();
            let rest = declarations.rest();
            assert(declarations@ =~= seq![declared] + rest@);
            assert(declarations@[0].number() == count);
            assert forall|i: int| 0 <= i < rest@.len() implies (
            #[trigger] rest@[i]).number() == count + 1 + i by {
                assert(declarations@[i + 1] == rest@[i]);
            }
            if rest@.len() > 0 {
                assert(rest@[0].number() == count + 1);
            }
            let next = state.checked_declaration(declared).0;
            if count < u64::MAX {
                declared_bear(next, rest, (count + 1) as u64, number);
            } else {
                assert(rest@.len() == 0);
                assert(rest is Nil);
            }
        },
    }
}

/// Declared functions and instances of generic functions bear the numbers from
/// zero up, each once, where the instances are numbered behind the declared
/// functions.
pub proof fn numbers_are_given_once<'a>(
    state: State<'a>,
    declarations: List<Declaration<'a>>,
    instances: List<Function<'a>>,
    end: int,
)
    requires
        numbered_from(declarations@, 0),
        numbered_between(instances, declarations@.len() as int, end),
    ensures
        ({
            let sources = state.analyze_sources(declarations).1;
            let functions = spec_by_number(spec_joined_functions(sources, instances));
            let foreign_functions = spec_foreign_functions(declarations);
            numbered_together(
                functions,
                foreign_functions,
                if end > declarations@.len() {
                    end
                } else {
                    declarations@.len() as int
                },
            )
        }),
{
    let sources = state.analyze_sources(declarations).1;
    let all = spec_joined_functions(sources, instances);
    let last = if end > declarations@.len() {
        end
    } else {
        declarations@.len() as int
    };
    assert forall|number: int|
        bearing(spec_by_number(all), number) + foreign_bearing(
            spec_foreign_functions(declarations),
            number,
        ) == once(0, last, number) by {
        ordered_bear(all, number);
        joined_bear(sources, instances, number);
        declared_bear(state, declarations, 0, number);
        assert(bearing(instances, number) == once(declarations@.len() as int, end, number));
    }
}

} // verus!

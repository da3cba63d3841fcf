//! Types that contain themselves.

use crate::analyzer::{Analyzer, State};
use crate::hir::{EnumVariant, EnumVariantFields, TypeDefinition, TypeDefinitionKind, TypeField};
use crate::list::{cons, leads_through, nodes, prepend, prepended, single, List, Node};
use crate::registry::LIMIT;
use crate::span::{helped, Diagnostic};
use crate::text::{frame, framed, words};
use crate::types::{Type, TypeId};
use vstd::prelude::*;

verus! {

broadcast use {
    crate::analyzer::growth::group_led,
    crate::analyzer::numbering::group_numbered,
    crate::analyzer::sparing::group_spared,
    crate::list::pushed_comes_first,
    crate::registry::growth::group_grown,
    crate::span::group_kept,
};

/// How far the search for cycles has come with a type.
#[derive(Clone, Copy, PartialEq, Eq, Structural, Debug)]
pub enum Visit {
    New,
    /// The search is on its way through the parts of the type.
    Open,
    Done,
}

/// The first type on the way from `id` that leads back to a type on the way,
/// and how far the search has come then.
pub open spec fn cycle_from(
    definitions: Seq<TypeDefinition>,
    visits: Seq<Visit>,
    id: TypeId,
    fuel: nat,
) -> (Seq<Visit>, Option<TypeId>)
    decreases fuel, 0nat, List::<TypeId>::Nil,
{
    if fuel == 0 || id.0 >= visits.len() || id.0 >= definitions.len() {
        (visits, None)
    } else if visits[id.0 as int] == Visit::Open {
        (visits, Some(id))
    } else if visits[id.0 as int] == Visit::Done {
        (visits, None)
    } else {
        match cycle_among(
            definitions,
            visits.update(id.0 as int, Visit::Open),
            spec_composite_children(definitions[id.0 as int].kind),
            (fuel - 1) as nat,
        ) {
            (visits, Some(cyclic)) => (visits, Some(cyclic)),
            (visits, None) => (visits.update(id.0 as int, Visit::Done), None),
        }
    }
}

/// The first type on the way from any of `children` that leads back to a type
/// on the way, and how far the search has come then.
pub open spec fn cycle_among(
    definitions: Seq<TypeDefinition>,
    visits: Seq<Visit>,
    children: List<TypeId>,
    fuel: nat,
) -> (Seq<Visit>, Option<TypeId>)
    decreases fuel, 1nat, children,
{
    match children {
        List::Nil => (visits, None),
        List::Cons(node) => match cycle_from(definitions, visits, node.head, fuel) {
            (visits, Some(cyclic)) => (visits, Some(cyclic)),
            (visits, None) => cycle_among(definitions, visits, node.tail, fuel),
        },
    }
}

/// The first type on the way from `id` that leads back to a type on the way.
fn find_type_cycle<'a>(
    definitions: &Vec<TypeDefinition<'a>>,
    visits: &mut Vec<Visit>,
    id: TypeId,
    fuel: u32,
) -> (cyclic: Option<TypeId>)
    ensures
        (final(visits)@, cyclic) == cycle_from(definitions@, old(visits)@, id, fuel as nat),
    decreases fuel, 0nat, List::<TypeId>::Nil,
{
    let index: usize = id.0 as usize;
    if fuel == 0 || index >= visits.len() || index >= definitions.len() {
        return None;
    }
    if visits[index] == Visit::Open {
        return Some(id);
    }
    if visits[index] == Visit::Done {
        return None;
    }
    visits.set(index, Visit::Open);
    let children = composite_children(&definitions[index].kind);
    match find_cycle_among(definitions, visits, &children, fuel - 1) {
        Some(cyclic) => Some(cyclic),
        None => {
            proof {
                cycles_keep_length(
                    definitions@,
                    old(visits)@.update(index as int, Visit::Open),
                    children,
                    (fuel - 1) as nat,
                );
            }
            visits.set(index, Visit::Done);
            None
        },
    }
}

/// The first type on the way from any of `children` that leads back to a type
/// on the way.
fn find_cycle_among<'a>(
    definitions: &Vec<TypeDefinition<'a>>,
    visits: &mut Vec<Visit>,
    children: &List<TypeId>,
    fuel: u32,
) -> (cyclic: Option<TypeId>)
    ensures
        (final(visits)@, cyclic) == cycle_among(definitions@, old(visits)@, *children, fuel as nat),
    decreases fuel, 1nat, *children,
{
    let mut ahead: &List<TypeId> = children;
    loop
        invariant
            cycle_among(definitions@, old(visits)@, *children, fuel as nat) == cycle_among(
                definitions@,
                visits@,
                *ahead,
                fuel as nat,
            ),
        decreases *ahead,
    {
        match ahead {
            List::Nil => {
                return None;
            },
            List::Cons(node) => {
                match find_type_cycle(definitions, visits, node.head, fuel) {
                    Some(cyclic) => {
                        return Some(cyclic);
                    },
                    None => {
                        ahead = &node.tail;
                    },
                }
            },
        }
    }
}

/// The search keeps one entry for each type.
proof fn cycle_keeps_length(
    definitions: Seq<TypeDefinition>,
    visits: Seq<Visit>,
    id: TypeId,
    fuel: nat,
)
    ensures
        cycle_from(definitions, visits, id, fuel).0.len() == visits.len(),
    decreases fuel, 0nat, List::<TypeId>::Nil,
{
    if !(fuel == 0 || id.0 >= visits.len() || id.0 >= definitions.len()) {
        if visits[id.0 as int] == Visit::New {
            cycles_keep_length(
                definitions,
                visits.update(id.0 as int, Visit::Open),
                spec_composite_children(definitions[id.0 as int].kind),
                (fuel - 1) as nat,
            );
        }
    }
}

/// The search keeps one entry for each type.
proof fn cycles_keep_length(
    definitions: Seq<TypeDefinition>,
    visits: Seq<Visit>,
    children: List<TypeId>,
    fuel: nat,
)
    ensures
        cycle_among(definitions, visits, children, fuel).0.len() == visits.len(),
    decreases fuel, 1nat, children,
{
    match children {
        List::Nil => {},
        List::Cons(_) => {
            cycle_keeps_length(definitions, visits, children.first(), fuel);
            cycles_keep_length(
                definitions,
                cycle_from(definitions, visits, children.first(), fuel).0,
                children.rest(),
                fuel,
            );
        },
    }
}

/// The problem of a type that contains itself.
pub open spec fn cycle_problem<'a>(definition: TypeDefinition<'a>) -> Diagnostic<'a> {
    helped(
        "E3012",
        framed(
            "type `",
            match definition.name {
                Some(name) => name,
                None => words("structural type"),
            },
            "` contains itself by value",
        ),
        "break the cycle with an owning handle or raw pointer",
        definition.span,
    )
}

impl<'a> State<'a> {
    /// The state with the problems of types that contain themselves, from a
    /// position on.
    pub open spec fn cycles_reported(self, visits: Seq<Visit>, index: nat) -> Self
        decreases visits.len() - index,
    {
        if index >= visits.len() || index > u32::MAX {
            self
        } else if visits[index as int] != Visit::New {
            self.cycles_reported(visits, index + 1)
        } else {
            let (more, cyclic) = cycle_from(
                self.types.definitions,
                visits,
                TypeId(index as u32),
                LIMIT as nat,
            );
            let s = match cyclic {
                Some(id) => if id.0 < self.types.definitions.len() {
                    self.report(cycle_problem(self.types.definitions[id.0 as int]))
                } else {
                    self
                },
                None => self,
            };
            if more.len() == visits.len() {
                s.cycles_reported(more, index + 1)
            } else {
                s
            }
        }
    }

    /// The state with the problems of types that contain themselves.
    #[verifier::opaque]
    pub open spec fn validate_type_cycles(self) -> Self {
        self.cycles_reported(
            Seq::new(self.types.definitions.len(), |i: int| Visit::New),
            0,
        )
    }
}

fn unvisited(count: usize) -> (visits: Vec<Visit>)
    ensures
        visits@ == Seq::new(count as nat, |i: int| Visit::New),
{
    let mut visits: Vec<Visit> = Vec::new();
    while visits.len() < count
        invariant
            visits@.len() <= count,
            visits@ == Seq::new(visits@.len(), |i: int| Visit::New),
        decreases count - visits@.len(),
    {
        visits.push(Visit::New);
        assert(visits@ =~= Seq::new(visits@.len(), |i: int| Visit::New));
    }
    visits
}

impl<'a> Analyzer<'a> {
    fn report_cycle(&mut self, id: TypeId)
        ensures
            old(self)@.leads_to(final(self)@),
            final(self)@ == (if id.0 < old(self)@.types.definitions.len() {
                old(self)@.report(cycle_problem(old(self)@.types.definitions[id.0 as int]))
            } else {
                old(self)@
            }),
    {
        let index: usize = id.0 as usize;
        if index < self.types.definitions.len() {
            let definition = &self.types.definitions[index];
            let message = match &definition.name {
                Some(name) => frame("type `", name, "` contains itself by value"),
                None => frame("type `", &words("structural type"), "` contains itself by value"),
            };
            let problem = helped(
                "E3012",
                message,
                "break the cycle with an owning handle or raw pointer",
                definition.span,
            );
            self.report(problem);
        }
    }

    /// Reports the types that contain themselves.
    pub(crate) fn validate_type_cycles(&mut self)
        ensures
            final(self)@ == old(self)@.validate_type_cycles(),
            old(self)@.leads_to(final(self)@),
    {
        reveal(State::validate_type_cycles);
        let count: usize = self.types.definitions.len();
        let mut visits = unvisited(count);
        let mut index: usize = 0;
        while index < count && index as u64 <= u32::MAX as u64
            invariant
                index <= count,
                index <= u32::MAX + 1,
                visits@.len() == count,
                count == self@.types.definitions.len(),
                old(self)@.leads_to(self@),
                self@.cycles_reported(visits@, index as nat) == old(self)@.cycles_reported(
                    Seq::new(old(self)@.types.definitions.len(), |i: int| Visit::New),
                    0,
                ),
            decreases count - index,
        {
            if visits[index] == Visit::New {
                let ghost before = visits@;
                proof {
                    cycle_keeps_length(
                        self@.types.definitions,
                        before,
                        TypeId(index as u32),
                        LIMIT as nat,
                    );
                    reveal(State::report);
                }
                let cyclic = find_type_cycle(
                    &self.types.definitions,
                    &mut visits,
                    TypeId(index as u32),
                    LIMIT,
                );
                if let Some(id) = cyclic {
                    self.report_cycle(id);
                }
            }
            index = index + 1;
        }
    }
}

/// Whether a type holds another by value.
pub open spec fn holds(definitions: Seq<TypeDefinition>, outer: TypeId, inner: TypeId) -> bool {
    &&& outer.0 < definitions.len()
    &&& inner.0 < definitions.len()
    &&& spec_composite_children(definitions[outer.0 as int].kind)@.contains(inner)
}

/// Whether the type at a position of a chain holds the next one by value.
pub open spec fn linked(definitions: Seq<TypeDefinition>, chain: Seq<TypeId>, i: int) -> bool {
    holds(definitions, chain[i], chain[i + 1])
}

/// Whether each type of a chain holds the next one by value.
pub open spec fn is_chain(definitions: Seq<TypeDefinition>, chain: Seq<TypeId>) -> bool {
    forall|i: int| 0 <= i < chain.len() - 1 ==> #[trigger] linked(definitions, chain, i)
}

/// Whether a type contains itself by value, at whatever depth.
pub open spec fn contains_itself(definitions: Seq<TypeDefinition>, id: TypeId) -> bool {
    exists|chain: Seq<TypeId>| #[trigger]
        is_chain(definitions, chain) && chain.len() >= 2 && chain[0] == id && chain.last() == id
}

/// Whether types that are done hold only types that are done.
spec fn settled(definitions: Seq<TypeDefinition>, visits: Seq<Visit>) -> bool {
    forall|outer: TypeId, inner: TypeId| #[trigger]
        holds(definitions, outer, inner) && visits[outer.0 as int] == Visit::Done
            ==> visits[inner.0 as int] == Visit::Done
}

/// Whether no type that is done contains itself.
spec fn sober(definitions: Seq<TypeDefinition>, visits: Seq<Visit>) -> bool {
    forall|id: TypeId|
        id.0 < visits.len() && visits[id.0 as int] == Visit::Done ==> !#[trigger] contains_itself(
            definitions,
            id,
        )
}

/// The number of types that the search has not met.
spec fn count_new(visits: Seq<Visit>) -> nat
    decreases visits.len(),
{
    if visits.len() == 0 {
        0
    } else {
        count_new(visits.drop_last()) + (if visits.last() == Visit::New {
            1nat
        } else {
            0nat
        })
    }
}

proof fn fewer_new(before: Seq<Visit>, after: Seq<Visit>)
    requires
        before.len() == after.len(),
        forall|i: int| 0 <= i < after.len() && after[i] == Visit::New ==> before[i] == Visit::New,
    ensures
        count_new(after) <= count_new(before),
    decreases before.len(),
{
    if before.len() > 0 {
        fewer_new(before.drop_last(), after.drop_last());
    }
}

proof fn one_fewer_new(visits: Seq<Visit>, at: int, visit: Visit)
    requires
        0 <= at < visits.len(),
        visits[at] == Visit::New,
        visit != Visit::New,
    ensures
        count_new(visits.update(at, visit)) + 1 == count_new(visits),
    decreases visits.len(),
{
    let after = visits.update(at, visit);
    if at == visits.len() - 1 {
        assert(after.drop_last() =~= visits.drop_last());
    } else {
        one_fewer_new(visits.drop_last(), at, visit);
        assert(after.drop_last() =~= visits.drop_last().update(at, visit));
    }
}

proof fn new_are_counted(visits: Seq<Visit>)
    ensures
        count_new(visits) <= visits.len(),
    decreases visits.len(),
{
    if visits.len() > 0 {
        new_are_counted(visits.drop_last());
    }
}

/// What a search that finds nothing leaves behind.
spec fn moved_on(before: Seq<Visit>, after: Seq<Visit>) -> bool {
    &&& before.len() == after.len()
    &&& forall|i: int|
        #![trigger after[i]]
        0 <= i < after.len() ==> {
            &&& before[i] != Visit::New ==> after[i] == before[i]
            &&& before[i] == Visit::New ==> after[i] != Visit::Open
        }
}

proof fn quiet_search_moves_on(
    definitions: Seq<TypeDefinition>,
    visits: Seq<Visit>,
    id: TypeId,
    fuel: nat,
)
    requires
        cycle_from(definitions, visits, id, fuel).1 is None,
    ensures
        moved_on(visits, cycle_from(definitions, visits, id, fuel).0),
    decreases fuel, 0nat, List::<TypeId>::Nil,
{
    if !(fuel == 0 || id.0 >= visits.len() || id.0 >= definitions.len()) {
        if visits[id.0 as int] == Visit::New {
            let open = visits.update(id.0 as int, Visit::Open);
            let children = spec_composite_children(definitions[id.0 as int].kind);
            quiet_searches_move_on(definitions, open, children, (fuel - 1) as nat);
            let after = cycle_among(definitions, open, children, (fuel - 1) as nat).0;
            assert forall|i: int|
                #![trigger after.update(id.0 as int, Visit::Done)[i]]
                0 <= i < after.len() implies {
                let last = after.update(id.0 as int, Visit::Done);
                &&& visits[i] != Visit::New ==> last[i] == visits[i]
                &&& visits[i] == Visit::New ==> last[i] != Visit::Open
            } by {
                assert(open[i] == if i == id.0 { Visit::Open } else { visits[i] });
                assert(after[i] == after[i]);
            }
        }
    }
}

proof fn quiet_searches_move_on(
    definitions: Seq<TypeDefinition>,
    visits: Seq<Visit>,
    children: List<TypeId>,
    fuel: nat,
)
    requires
        cycle_among(definitions, visits, children, fuel).1 is None,
    ensures
        moved_on(visits, cycle_among(definitions, visits, children, fuel).0),
    decreases fuel, 1nat, children,
{
    match children {
        List::Nil => {},
        List::Cons(_) => {
            quiet_search_moves_on(definitions, visits, children.first(), fuel);
            let next = cycle_from(definitions, visits, children.first(), fuel).0;
            quiet_searches_move_on(definitions, next, children.rest(), fuel);
            let after = cycle_among(definitions, next, children.rest(), fuel).0;
            assert forall|i: int| #![trigger after[i]] 0 <= i < after.len() implies {
                &&& visits[i] != Visit::New ==> after[i] == visits[i]
                &&& visits[i] == Visit::New ==> after[i] != Visit::Open
            } by {
                assert(next[i] == next[i]);
            }
        },
    }
}

/// A chain that starts at a type that is done stays among such types.
proof fn chain_stays_done(
    definitions: Seq<TypeDefinition>,
    visits: Seq<Visit>,
    chain: Seq<TypeId>,
    i: int,
)
    requires
        settled(definitions, visits),
        is_chain(definitions, chain),
        0 <= i < chain.len(),
        visits[chain[0].0 as int] == Visit::Done,
    ensures
        visits[chain[i].0 as int] == Visit::Done,
    decreases i,
{
    if i > 0 {
        chain_stays_done(definitions, visits, chain, i - 1);
        assert(linked(definitions, chain, i - 1));
    }
}

/// A type whose parts are done does not contain itself.
proof fn finished_type_is_sober(
    definitions: Seq<TypeDefinition>,
    visits: Seq<Visit>,
    id: TypeId,
)
    requires
        settled(definitions, visits),
        id.0 < visits.len(),
        visits[id.0 as int] != Visit::Done,
        forall|inner: TypeId| #[trigger]
            holds(definitions, id, inner) ==> visits[inner.0 as int] == Visit::Done,
    ensures
        !contains_itself(definitions, id),
{
    if contains_itself(definitions, id) {
        let chain = choose|chain: Seq<TypeId>| #[trigger]
            is_chain(definitions, chain) && chain.len() >= 2 && chain[0] == id && chain.last()
                == id;
        assert(linked(definitions, chain, 0));
        let behind = chain.skip(1);
        assert forall|i: int| 0 <= i < behind.len() - 1 implies #[trigger] linked(
            definitions,
            behind,
            i,
        ) by {
            assert(linked(definitions, chain, i + 1));
        }
        assert(behind[0] == chain[1]);
        chain_stays_done(definitions, visits, behind, behind.len() - 1);
        assert(behind[behind.len() - 1] == chain.last());
    }
}

proof fn quiet_search_is_complete(
    definitions: Seq<TypeDefinition>,
    visits: Seq<Visit>,
    id: TypeId,
    fuel: nat,
)
    requires
        visits.len() == definitions.len(),
        settled(definitions, visits),
        sober(definitions, visits),
        fuel > count_new(visits),
        cycle_from(definitions, visits, id, fuel).1 is None,
    ensures
        ({
            let after = cycle_from(definitions, visits, id, fuel).0;
            &&& settled(definitions, after)
            &&& sober(definitions, after)
            &&& id.0 < visits.len() ==> after[id.0 as int] == Visit::Done
        }),
    decreases fuel, 0nat, List::<TypeId>::Nil,
{
    if id.0 < visits.len() && visits[id.0 as int] == Visit::New {
        let at = id.0 as int;
        let open = visits.update(at, Visit::Open);
        let children = spec_composite_children(definitions[at].kind);
        one_fewer_new(visits, at, Visit::Open);
        assert(settled(definitions, open));
        assert(sober(definitions, open)) by {
            assert forall|other: TypeId|
                other.0 < open.len() && open[other.0 as int] == Visit::Done implies
                !#[trigger] contains_itself(definitions, other) by {
                assert(visits[other.0 as int] == Visit::Done);
            }
        }
        quiet_searches_are_complete(definitions, open, children, (fuel - 1) as nat);
        quiet_searches_move_on(definitions, open, children, (fuel - 1) as nat);
        let after = cycle_among(definitions, open, children, (fuel - 1) as nat).0;
        assert(after[at] == Visit::Open);
        finished_type_is_sober(definitions, after, id);
        let last = after.update(at, Visit::Done);
        assert(settled(definitions, last));
        assert forall|other: TypeId|
            other.0 < last.len() && last[other.0 as int] == Visit::Done implies
            !#[trigger] contains_itself(definitions, other) by {
            if other.0 != id.0 {
                assert(after[other.0 as int] == Visit::Done);
            } else {
                assert(other == id);
            }
        }
    }
}

proof fn quiet_searches_are_complete(
    definitions: Seq<TypeDefinition>,
    visits: Seq<Visit>,
    children: List<TypeId>,
    fuel: nat,
)
    requires
        visits.len() == definitions.len(),
        settled(definitions, visits),
        sober(definitions, visits),
        fuel > count_new(visits),
        cycle_among(definitions, visits, children, fuel).1 is None,
    ensures
        ({
            let after = cycle_among(definitions, visits, children, fuel).0;
            &&& settled(definitions, after)
            &&& sober(definitions, after)
            &&& forall|inner: TypeId|
                inner.0 < visits.len() && #[trigger] children@.contains(inner)
                    ==> after[inner.0 as int] == Visit::Done
        }),
    decreases fuel, 1nat, children,
{
    match children {
        List::Nil => {},
        List::Cons(_) => {
            let first = children.first();
            let rest = children.rest();
            quiet_search_is_complete(definitions, visits, first, fuel);
            quiet_search_moves_on(definitions, visits, first, fuel);
            let next = cycle_from(definitions, visits, first, fuel).0;
            assert forall|i: int|
                0 <= i < next.len() && next[i] == Visit::New implies visits[i] == Visit::New by {
                assert(next[i] == next[i]);
            }
            fewer_new(visits, next);
            quiet_searches_are_complete(definitions, next, rest, fuel);
            quiet_searches_move_on(definitions, next, rest, fuel);
            let after = cycle_among(definitions, next, rest, fuel).0;
            assert forall|inner: TypeId|
                inner.0 < visits.len() && #[trigger] children@.contains(inner) implies
                after[inner.0 as int] == Visit::Done by {
                let k = children@.index_of(inner);
                assert(children@ =~= seq![first] + rest@);
                if inner == first {
                    assert(next[inner.0 as int] == Visit::Done);
                } else {
                    assert(rest@[k - 1] == inner);
                    assert(rest@.contains(inner));
                }
            }
        },
    }
}

/// A type that the search meets again on its way contains itself.
proof fn loud_search_is_right(
    definitions: Seq<TypeDefinition>,
    visits: Seq<Visit>,
    id: TypeId,
    fuel: nat,
    way: Seq<TypeId>,
)
    requires
        cycle_from(definitions, visits, id, fuel).1 is Some,
        is_chain(definitions, way.push(id)),
        forall|other: TypeId|
            other.0 < visits.len() && #[trigger] visits[other.0 as int] == Visit::Open
                ==> way.contains(other),
    ensures
        contains_itself(definitions, cycle_from(definitions, visits, id, fuel).1->0),
    decreases fuel, 0nat, List::<TypeId>::Nil,
{
    let at = id.0 as int;
    if visits[at] == Visit::Open {
        assert(way.contains(id));
        let k = way.index_of(id);
        let whole = way.push(id);
        let chain = whole.skip(k);
        assert forall|i: int| 0 <= i < chain.len() - 1 implies #[trigger] linked(
            definitions,
            chain,
            i,
        ) by {
            assert(linked(definitions, whole, k + i));
        }
        assert(is_chain(definitions, chain));
        assert(chain[0] == id && chain.last() == id && chain.len() >= 2);
    } else {
        let open = visits.update(at, Visit::Open);
        let children = spec_composite_children(definitions[at].kind);
        let more = way.push(id);
        assert forall|other: TypeId|
            other.0 < open.len() && #[trigger] open[other.0 as int] == Visit::Open implies
            more.contains(other) by {
            if other.0 == id.0 {
                assert(more[more.len() - 1] == other);
            } else {
                assert(visits[other.0 as int] == Visit::Open);
                let k = way.index_of(other);
                assert(more[k] == other);
            }
        }
        loud_searches_are_right(definitions, open, id, children, children, (fuel - 1) as nat, more);
    }
}

proof fn loud_searches_are_right(
    definitions: Seq<TypeDefinition>,
    visits: Seq<Visit>,
    id: TypeId,
    whole: List<TypeId>,
    children: List<TypeId>,
    fuel: nat,
    way: Seq<TypeId>,
)
    requires
        cycle_among(definitions, visits, children, fuel).1 is Some,
        id.0 < definitions.len(),
        whole == spec_composite_children(definitions[id.0 as int].kind),
        forall|inner: TypeId| #[trigger] children@.contains(inner) ==> whole@.contains(inner),
        is_chain(definitions, way),
        way.len() > 0,
        way.last() == id,
        forall|other: TypeId|
            other.0 < visits.len() && #[trigger] visits[other.0 as int] == Visit::Open
                ==> way.contains(other),
    ensures
        contains_itself(definitions, cycle_among(definitions, visits, children, fuel).1->0),
    decreases fuel, 1nat, children,
{
    let first = children.first();
    let rest = children.rest();
    assert(children@ =~= seq![first] + rest@);
    assert(children@[0] == first);
    assert(children@.contains(first));
    let (next, found) = cycle_from(definitions, visits, first, fuel);
    if found is Some {
        let more = way.push(first);
        assert forall|i: int| 0 <= i < more.len() - 1 implies #[trigger] linked(
            definitions,
            more,
            i,
        ) by {
            if i < way.len() - 1 {
                assert(linked(definitions, way, i));
            } else {
                assert(holds(definitions, id, first));
            }
        }
        loud_search_is_right(definitions, visits, first, fuel, way);
    } else {
        quiet_search_moves_on(definitions, visits, first, fuel);
        assert forall|other: TypeId|
            other.0 < next.len() && #[trigger] next[other.0 as int] == Visit::Open implies
            way.contains(other) by {
            assert(visits[other.0 as int] == Visit::Open);
        }
        assert forall|inner: TypeId| #[trigger] rest@.contains(inner) implies whole@.contains(
            inner,
        ) by {
            let k = rest@.index_of(inner);
            assert(children@[k + 1] == inner);
            assert(children@.contains(inner));
        }
        loud_searches_are_right(definitions, next, id, whole, rest, fuel, way);
    }
}

/// Whether no type is on the way, and those before a position are done.
spec fn between_searches(visits: Seq<Visit>, index: nat) -> bool {
    &&& forall|i: int| 0 <= i < visits.len() ==> #[trigger] visits[i] != Visit::Open
    &&& forall|i: int| 0 <= i < index && i < visits.len() ==> #[trigger] visits[i] == Visit::Done
}

impl<'a> State<'a> {
    proof fn cycle_reports_add_up(self, visits: Seq<Visit>, index: nat)
        ensures
            self.types.problems.is_prefix_of(self.cycles_reported(visits, index).types.problems),
        decreases visits.len() - index,
    {
        reveal(State::report);
        if index >= visits.len() || index > u32::MAX {
        } else if visits[index as int] != Visit::New {
            self.cycle_reports_add_up(visits, index + 1);
        } else {
            let (more, cyclic) = cycle_from(
                self.types.definitions,
                visits,
                TypeId(index as u32),
                LIMIT as nat,
            );
            let s = match cyclic {
                Some(id) => if id.0 < self.types.definitions.len() {
                    self.report(cycle_problem(self.types.definitions[id.0 as int]))
                } else {
                    self
                },
                None => self,
            };
            if more.len() == visits.len() {
                s.cycle_reports_add_up(more, index + 1);
            }
        }
    }

    /// The search from a position on reports something if and only if some
    /// type contains itself.
    proof fn search_decides(self, visits: Seq<Visit>, index: nat)
        requires
            visits.len() == self.types.definitions.len(),
            self.types.definitions.len() < u32::MAX,
            settled(self.types.definitions, visits),
            sober(self.types.definitions, visits),
            between_searches(visits, index),
        ensures
            (self.cycles_reported(visits, index).types.problems.len() > self.types.problems.len())
                == (exists|id: TypeId| contains_itself(self.types.definitions, id)),
            self.cycles_reported(visits, index).types.problems.len() > self.types.problems.len()
                ==> self.is_cycle_problem(
                self.cycles_reported(
                    visits,
                    index,
                ).types.problems[self.types.problems.len() as int],
            ),
        decreases visits.len() - index,
    {
        let definitions = self.types.definitions;
        if index >= visits.len() {
            assert forall|id: TypeId| !contains_itself(definitions, id) by {
                if contains_itself(definitions, id) {
                    let chain = choose|chain: Seq<TypeId>| #[trigger]
                        is_chain(definitions, chain) && chain.len() >= 2 && chain[0] == id
                            && chain.last() == id;
                    assert(linked(definitions, chain, 0));
                    assert(visits[id.0 as int] == Visit::Done);
                }
            }
        } else if visits[index as int] != Visit::New {
            self.search_decides(visits, index + 1);
        } else {
            let id = TypeId(index as u32);
            let (more, cyclic) = cycle_from(definitions, visits, id, LIMIT as nat);
            cycle_keeps_length(definitions, visits, id, LIMIT as nat);
            match cyclic {
                Some(found) => {
                    assert(is_chain(definitions, Seq::<TypeId>::empty().push(id)));
                    loud_search_is_right(
                        definitions,
                        visits,
                        id,
                        LIMIT as nat,
                        Seq::<TypeId>::empty(),
                    );
                    assert(contains_itself(definitions, found));
                    let chain = choose|chain: Seq<TypeId>| #[trigger]
                        is_chain(definitions, chain) && chain.len() >= 2 && chain[0] == found
                            && chain.last() == found;
                    assert(linked(definitions, chain, 0));
                    let problem = cycle_problem(definitions[found.0 as int]);
                    let s = self.report(problem);
                    reveal(State::report);
                    s.cycle_reports_add_up(more, index + 1);
                    let all = s.cycles_reported(more, index + 1).types.problems;
                    assert(s.types.problems == all.take(s.types.problems.len() as int));
                    let at = self.types.problems.len() as int;
                    assert(s.types.problems =~= self.types.problems.push(problem));
                    assert(all.take(at + 1)[at] == problem);
                    assert(self.is_cycle_problem(problem));
                },
                None => {
                    new_are_counted(visits);
                    quiet_search_is_complete(definitions, visits, id, LIMIT as nat);
                    quiet_search_moves_on(definitions, visits, id, LIMIT as nat);
                    assert forall|i: int| 0 <= i < more.len() implies #[trigger] more[i]
                        != Visit::Open by {
                        assert(visits[i] != Visit::Open);
                    }
                    assert forall|i: int| 0 <= i < index + 1 && i < more.len() implies
                        #[trigger] more[i] == Visit::Done by {
                        if i < index {
                            assert(visits[i] == Visit::Done);
                        }
                    }
                    self.search_decides(more, index + 1);
                },
            }
        }
    }

    /// Whether a problem is that of a type that contains itself.
    pub open spec fn is_cycle_problem(self, problem: Diagnostic<'a>) -> bool {
        exists|id: TypeId| #[trigger]
            contains_itself(self.types.definitions, id) && id.0 < self.types.definitions.len()
                && problem == cycle_problem(self.types.definitions[id.0 as int])
    }

    /// Types that contain themselves by value do not go unnoticed: a problem is
    /// added if and only if there is such a type, and the first one that is
    /// added is that of such a type.
    ///
    /// Later ones may name a type that only leads to one that is known to
    /// contain itself.
    pub proof fn recursive_types_are_reported(self)
        requires
            self.types.definitions.len() < u32::MAX,
        ensures
            (self.validate_type_cycles().types.problems.len() > self.types.problems.len()) == (
            exists|id: TypeId| contains_itself(self.types.definitions, id)),
            self.validate_type_cycles().types.problems.len() > self.types.problems.len()
                ==> self.is_cycle_problem(
                self.validate_type_cycles().types.problems[self.types.problems.len() as int],
            ),
    {
        reveal(State::validate_type_cycles);
        let visits = Seq::new(self.types.definitions.len(), |i: int| Visit::New);
        self.search_decides(visits, 0);
    }
}

/// The types that make up a list of types, in front of others.
#[verifier::opaque]
pub open spec fn spec_type_ids(types: List<Type>, behind: List<TypeId>) -> List<TypeId>
    decreases types,
{
    match types {
        List::Nil => behind,
        List::Cons(node) => match node.head.id() {
            Some(id) => cons(id, spec_type_ids(node.tail, behind)),
            None => spec_type_ids(node.tail, behind),
        },
    }
}

/// The types that make up a list of types, in front of others.
pub(crate) fn type_ids(types: &List<Type>, behind: List<TypeId>) -> (ids: List<TypeId>)
    ensures
        ids == spec_type_ids(*types, behind),
{
    let mut ahead: &List<Type> = types;
    let mut done: Vec<TypeId> = Vec::new();
    loop
        invariant
            spec_type_ids(*types, behind) == prepended(done@, spec_type_ids(*ahead, behind)),
        decreases *ahead,
    {
        reveal(spec_type_ids);
        match ahead {
            List::Nil => {
                return prepend(done, behind);
            },
            List::Cons(node) => {
                match node.head.id() {
                    Some(id) => {
                        done.push(id);
                        ahead = &node.tail;
                    },
                    None => {
                        ahead = &node.tail;
                    },
                }
            },
        }
    }
}

/// The types that make up fields, in front of others.
#[verifier::opaque]
pub open spec fn spec_field_ids<'a>(
    fields: List<TypeField<'a>>,
    behind: List<TypeId>,
) -> List<TypeId>
    decreases fields,
{
    match fields {
        List::Nil => behind,
        List::Cons(node) => match node.head.ty.id() {
            Some(id) => cons(id, spec_field_ids(node.tail, behind)),
            None => spec_field_ids(node.tail, behind),
        },
    }
}

/// The types that make up fields, in front of others.
pub(crate) fn field_ids<'a>(
    fields: &List<TypeField<'a>>,
    behind: List<TypeId>,
) -> (ids: List<TypeId>)
    ensures
        ids == spec_field_ids(*fields, behind),
{
    let mut ahead: &List<TypeField<'a>> = fields;
    let mut done: Vec<TypeId> = Vec::new();
    loop
        invariant
            spec_field_ids(*fields, behind) == prepended(done@, spec_field_ids(*ahead, behind)),
        decreases *ahead,
    {
        reveal(spec_field_ids);
        match ahead {
            List::Nil => {
                return prepend(done, behind);
            },
            List::Cons(node) => {
                match node.head.ty.id() {
                    Some(id) => {
                        done.push(id);
                        ahead = &node.tail;
                    },
                    None => {
                        ahead = &node.tail;
                    },
                }
            },
        }
    }
}

/// The types that make up variants.
#[verifier::opaque]
pub open spec fn spec_variant_ids<'a>(variants: List<EnumVariant<'a>>) -> List<TypeId>
    decreases variants,
{
    match variants {
        List::Nil => List::Nil,
        List::Cons(node) => match node.head.fields {
            EnumVariantFields::Unit => spec_variant_ids(node.tail),
            EnumVariantFields::Tuple(types) => spec_type_ids(types, spec_variant_ids(node.tail)),
            EnumVariantFields::Struct(fields) => spec_field_ids(
                fields,
                spec_variant_ids(node.tail),
            ),
        },
    }
}

/// The types that make up variants.
pub(crate) fn variant_ids<'a>(variants: &List<EnumVariant<'a>>) -> (ids: List<TypeId>)
    ensures
        ids == spec_variant_ids(*variants),
{
    let mut left: Vec<&Node<EnumVariant<'a>>> = nodes(variants);
    let mut ids: List<TypeId> = List::Nil;
    let ghost mut end: List<EnumVariant<'a>> = List::Nil;
    proof {
        reveal(spec_variant_ids);
    }
    loop
        invariant
            leads_through(*variants, left@, end),
            ids == spec_variant_ids(end),
        decreases left@.len(),
    {
        reveal(spec_variant_ids);
        match left.pop() {
            None => {
                return ids;
            },
            Some(node) => {
                ids =
                match &node.head.fields {
                    EnumVariantFields::Unit => ids,
                    EnumVariantFields::Tuple(types) => type_ids(types, ids),
                    EnumVariantFields::Struct(fields) => field_ids(fields, ids),
                };
                proof {
                    end = cons(node.head, end);
                }
            },
        }
    }
}

/// The types that a type contains by value.
#[verifier::opaque]
pub open spec fn spec_composite_children<'a>(kind: TypeDefinitionKind<'a>) -> List<TypeId> {
    match kind {
        TypeDefinitionKind::Struct { fields } => spec_field_ids(fields, List::Nil),
        TypeDefinitionKind::Enum { variants } => spec_variant_ids(variants),
        TypeDefinitionKind::Tuple { elements } => spec_type_ids(elements, List::Nil),
        TypeDefinitionKind::Array { element, .. } => match element.id() {
            Some(id) => single(id),
            None => List::Nil,
        },
        _ => List::Nil,
    }
}

/// The types that a type contains by value.
pub(crate) fn composite_children<'a>(kind: &TypeDefinitionKind<'a>) -> (ids: List<TypeId>)
    ensures
        ids == spec_composite_children(*kind),
{
    reveal(spec_composite_children);
    match kind {
        TypeDefinitionKind::Struct { fields } => field_ids(fields, List::Nil),
        TypeDefinitionKind::Enum { variants } => variant_ids(variants),
        TypeDefinitionKind::Tuple { elements } => type_ids(elements, List::Nil),
        TypeDefinitionKind::Array { element, .. } => match element.id() {
            Some(id) => single(id),
            None => List::Nil,
        },
        _ => List::Nil,
    }
}

} // verus!

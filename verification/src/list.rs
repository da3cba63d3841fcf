//! Immutable lists whose tails are shared.
//!
//! Syntax trees and typed programs are built from these lists, so that a part
//! of a tree can be reused in another tree without copying it.

use std::rc::Rc;
use vstd::prelude::*;

verus! {

/// An immutable list.
pub enum List<T> {
    Nil,
    Cons(Rc<Node<T>>),
}

/// The first element of a list and the list behind it.
pub struct Node<T> {
    pub head: T,
    pub tail: List<T>,
}

/// Another pointer to the value behind `pointer`.
///
/// This is the standard library's `Rc::clone`, which hands out one more pointer
/// to the same allocation: both pointers lead to the same value.
#[verifier::external_body]
pub(crate) fn share<T>(pointer: &Rc<T>) -> (shared: Rc<T>)
    ensures
        shared == *pointer,
{
    pointer.clone()
}

/// The value behind `pointer`, if no other pointer leads to it.
///
/// This is the standard library's `Rc::into_inner`, which gives up one pointer
/// and hands out the value where it was the last one. It does not unwind.
#[verifier::external_body]
fn last_value<T>(pointer: Rc<T>) -> (value: Option<T>)
    ensures
        value is Some ==> value->0 == pointer,
    opens_invariants none
    no_unwind
{
    Rc::into_inner(pointer)
}

impl<T> Drop for Node<T> {
    /// Takes the list behind the node apart node by node, as far as nothing else
    /// shares them.
    fn drop(&mut self)
        opens_invariants none
        no_unwind
    {
        let mut rest: List<T> = List::Nil;
        std::mem::swap(&mut self.tail, &mut rest);
        loop
            decreases rest,
        {
            match rest {
                List::Nil => {
                    return ;
                },
                List::Cons(pointer) => match last_value(pointer) {
                    None => {
                        return ;
                    },
                    Some(mut node) => {
                        let mut next: List<T> = List::Nil;
                        std::mem::swap(&mut node.tail, &mut next);
                        rest = next;
                    },
                },
            }
        }
    }
}

/// The list with `head` in front of `tail`.
pub open spec fn spec_cons<T>(head: T, tail: List<T>) -> List<T> {
    List::Cons(Rc::new(Node { head, tail }))
}

/// The list with `head` in front of `tail`.
#[verifier::when_used_as_spec(spec_cons)]
pub fn cons<T>(head: T, tail: List<T>) -> (list: List<T>)
    ensures
        list == spec_cons(head, tail),
{
    List::Cons(Rc::new(Node { head, tail }))
}

/// The elements of `first` followed by those of `second`.
pub open spec fn append<T>(first: List<T>, second: List<T>) -> List<T>
    decreases first,
{
    match first {
        List::Nil => second,
        List::Cons(node) => cons(node.head, append(node.tail, second)),
    }
}

/// A list of one element.
pub open spec fn spec_single<T>(head: T) -> List<T> {
    cons(head, List::Nil)
}

/// A list of one element.
#[verifier::when_used_as_spec(spec_single)]
pub fn single<T>(head: T) -> (list: List<T>)
    ensures
        list == spec_single(head),
{
    cons(head, List::Nil)
}

/// The list with the elements of `front`, in order, in front of `rest`.
pub open spec fn prepended<T>(front: Seq<T>, rest: List<T>) -> List<T>
    decreases front.len(),
{
    if front.len() == 0 {
        rest
    } else {
        prepended(front.drop_last(), cons(front.last(), rest))
    }
}

/// The list with the elements of `front` in front of `rest`, if there is one.
pub open spec fn prepended_if_any<T>(front: Seq<T>, rest: Option<List<T>>) -> Option<List<T>> {
    match rest {
        Some(rest) => Some(prepended(front, rest)),
        None => None,
    }
}

/// The last element in front of a list is its first element.
pub broadcast proof fn pushed_comes_first<T>(front: Seq<T>, last: T, rest: List<T>)
    ensures
        #[trigger] prepended(front.push(last), rest) == prepended(front, cons(last, rest)),
{
    assert(front.push(last).drop_last() =~= front);
}

/// The elements in front of a list come before those of the list.
pub proof fn prepended_concatenates<T>(front: Seq<T>, rest: List<T>)
    ensures
        prepended(front, rest)@ == front + rest@,
    decreases front.len(),
{
    if front.len() == 0 {
        assert(front + rest@ =~= rest@);
    } else {
        prepended_concatenates(front.drop_last(), cons(front.last(), rest));
        assert(cons(front.last(), rest)@ == seq![front.last()] + rest@);
        assert(front.drop_last() + (seq![front.last()] + rest@) =~= front + rest@);
    }
}

/// The list with the elements of `front`, in order, in front of `rest`.
pub fn prepend<T>(front: Vec<T>, rest: List<T>) -> (list: List<T>)
    ensures
        list == prepended(front@, rest),
{
    let mut left: Vec<T> = front;
    let mut list: List<T> = rest;
    loop
        invariant
            prepended(front@, rest) == prepended(left@, list),
        decreases left@.len(),
    {
        match left.pop() {
            None => {
                return list;
            },
            Some(last) => {
                list = cons(last, list);
            },
        }
    }
}

/// Whether `nodes` are the nodes of `list`, in order, up to `end`.
pub open spec fn leads_through<T>(list: List<T>, nodes: Seq<&Node<T>>, end: List<T>) -> bool
    decreases nodes.len(),
{
    if nodes.len() == 0 {
        list == end
    } else {
        nodes.last().tail == end && leads_through(
            list,
            nodes.drop_last(),
            cons(nodes.last().head, end),
        )
    }
}

/// The nodes of a list, in order.
pub(crate) fn nodes<T>(list: &List<T>) -> (nodes: Vec<&Node<T>>)
    ensures
        leads_through(*list, nodes@, List::Nil),
{
    let mut ahead: &List<T> = list;
    let mut nodes: Vec<&Node<T>> = Vec::new();
    loop
        invariant
            leads_through(*list, nodes@, *ahead),
        decreases *ahead,
    {
        match ahead {
            List::Nil => {
                return nodes;
            },
            List::Cons(node) => {
                let ghost before = nodes@;
                nodes.push(&**node);
                assert(nodes@.drop_last() =~= before);
                ahead = &node.tail;
            },
        }
    }
}

/// The elements of a list come behind those that are done.
pub(crate) fn extend<T: Copy>(done: &mut Vec<T>, list: &List<T>)
    ensures
        forall|rest: List<T>| #[trigger]
            prepended(final(done)@, rest) == prepended(old(done)@, append(*list, rest)),
{
    let mut ahead: &List<T> = list;
    loop
        invariant
            forall|rest: List<T>| #[trigger]
                prepended(done@, append(*ahead, rest)) == prepended(
                    old(done)@,
                    append(*list, rest),
                ),
        decreases *ahead,
    {
        match ahead {
            List::Nil => {
                assert forall|rest: List<T>| #[trigger]
                    prepended(done@, rest) == prepended(old(done)@, append(*list, rest)) by {
                    assert(append(*ahead, rest) == rest);
                }
                return ;
            },
            List::Cons(node) => {
                let ghost before = done@;
                done.push(node.head);
                proof {
                    assert forall|rest: List<T>| #[trigger]
                        prepended(done@, append(node.tail, rest)) == prepended(
                            old(done)@,
                            append(*list, rest),
                        ) by {
                        assert(append(*ahead, rest) == cons(node.head, append(node.tail, rest)));
                        pushed_comes_first(before, node.head, append(node.tail, rest));
                        assert(prepended(before, append(*ahead, rest)) == prepended(
                            old(done)@,
                            append(*list, rest),
                        ));
                    }
                }
                ahead = &node.tail;
            },
        }
    }
}

/// A list that can be counted has as many elements as the count says.
pub proof fn counts_are_lengths<T>(list: List<T>)
    ensures
        list.spec_count() == (if list@.len() < u64::MAX {
            list@.len() as u64
        } else {
            u64::MAX
        }),
    decreases list,
{
    if list is Cons {
        counts_are_lengths(list.rest());
        assert(list@ =~= seq![list.first()] + list.rest()@);
    }
}

impl<T> List<T> {
    /// The first element.
    pub open spec fn first(self) -> T {
        self->Cons_0.head
    }

    /// The elements behind the first.
    pub open spec fn rest(self) -> List<T> {
        self->Cons_0.tail
    }

    /// The elements in order.
    pub open spec fn view(self) -> Seq<T>
        decreases self,
    {
        match self {
            List::Nil => Seq::empty(),
            List::Cons(node) => seq![node.head] + node.tail.view(),
        }
    }

    /// The number of elements, or the largest representable number if there
    /// are more.
    pub open spec fn spec_count(&self) -> u64
        decreases *self,
    {
        match *self {
            List::Nil => 0,
            List::Cons(node) => {
                let rest = node.tail.spec_count();
                if rest == u64::MAX {
                    rest
                } else {
                    (rest + 1) as u64
                }
            },
        }
    }

    /// The number of elements, or the largest representable number if there
    /// are more.
    #[verifier::when_used_as_spec(spec_count)]
    pub fn count(&self) -> (count: u64)
        ensures
            count == self.spec_count(),
    {
        let mut rest: &List<T> = self;
        let mut count: u64 = 0;
        loop
            invariant
                self.spec_count() == count.saturating_add(rest.spec_count()),
            decreases *rest,
        {
            match rest {
                List::Nil => {
                    return count;
                },
                List::Cons(node) => {
                    rest = &node.tail;
                    count = count.saturating_add(1);
                },
            }
        }
    }

    /// Whether the list has no element.
    pub open spec fn spec_is_empty(&self) -> bool {
        *self is Nil
    }

    /// Whether the list has no element.
    #[verifier::when_used_as_spec(spec_is_empty)]
    pub fn is_empty(&self) -> (empty: bool)
        ensures
            empty == self.spec_is_empty(),
    {
        match self {
            List::Nil => true,
            List::Cons(_) => false,
        }
    }

    /// The same list again.
    pub fn share(&self) -> (shared: List<T>)
        ensures
            shared == *self,
    {
        match self {
            List::Nil => List::Nil,
            List::Cons(node) => List::Cons(share(node)),
        }
    }

    /// A list of the elements of a vector, in order.
    pub fn from_vec(elements: Vec<T>) -> (list: List<T>)
        ensures
            list@ == elements@,
    {
        let ghost whole = elements@;
        let mut elements = elements;
        let mut list: List<T> = List::Nil;
        assert(whole =~= elements@ + list@);
        while elements.len() > 0
            invariant
                whole == elements@ + list@,
            decreases elements@.len(),
        {
            let ghost before = elements@;
            let ghost tail = list@;
            if let Some(last) = elements.pop() {
                list = cons(last, list);
                assert(list@ == seq![last] + tail);
                assert(before =~= elements@ + seq![last]);
                assert(whole =~= elements@ + list@);
            }
        }
        assert(whole =~= list@);
        list
    }
}

/// Elements of an appended list come in order.
pub proof fn append_concatenates<T>(first: List<T>, second: List<T>)
    ensures
        append(first, second)@ == first@ + second@,
    decreases first,
{
    match first {
        List::Nil => {
            assert(first@ + second@ =~= second@);
        },
        List::Cons(_) => {
            append_concatenates(first.rest(), second);
            assert(append(first, second)@ =~= first@ + second@);
        },
    }
}

} // verus!

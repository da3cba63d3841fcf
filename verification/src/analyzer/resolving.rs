//! What names stand for.

use crate::analyzer::checks::{
    spec_element_at, spec_find_field, spec_is_struct_type, spec_is_tuple_type,
};
use crate::analyzer::escaping::is_entered;
use crate::analyzer::frame::spec_find_binding;
use crate::analyzer::{Binding, State};
use crate::ast::{lone_name, FieldName, Path};
use crate::generics::{bound, Entry};
use crate::hir::{ExpressionKind, TypeField};
use crate::list::List;
use crate::types::Type;
use vstd::prelude::*;

verus! {

/// Whether the first entry of a name has a value.
pub open spec fn is_newest<V>(entries: Seq<Entry<V>>, name: Seq<char>, value: V) -> bool {
    exists|i: int| #[trigger]
        is_newest_at(entries, name, i) && entries[i].value == value
}

/// Whether an entry is the first of a name.
pub open spec fn is_newest_at<V>(entries: Seq<Entry<V>>, name: Seq<char>, at: int) -> bool {
    &&& 0 <= at < entries.len()
    &&& entries[at].name@ == name
    &&& forall|i: int| 0 <= i < at ==> (#[trigger] entries[i]).name@ != name
}

proof fn bound_is_newest<'a, V>(entries: List<Entry<'a, V>>, name: Seq<char>)
    ensures
        match bound(entries, name) {
            Some(value) => is_newest(entries@, name, value),
            None => !is_entered(entries@, name),
        },
    decreases entries,
{
    if entries is Cons {
        bound_is_newest(entries.rest(), name);
        assert(entries@ =~= seq![entries.first()] + entries.rest()@);
        assert(entries@[0] == entries.first());
        if entries.first().name@ == name {
            assert(is_newest_at(entries@, name, 0));
        } else {
            assert forall|i: int| 0 < i < entries@.len() implies #[trigger] entries@[i]
                == entries.rest()@[i - 1] by {}
            match bound(entries.rest(), name) {
                Some(value) => {
                    let at = choose|at: int| #[trigger]
                        is_newest_at(entries.rest()@, name, at) && entries.rest()@[at].value
                            == value;
                    assert forall|i: int| 0 <= i < at + 1 implies (#[trigger] entries@[i]).name@
                        != name by {
                        if i > 0 {
                            assert(entries.rest()@[i - 1].name@ != name);
                        }
                    }
                    assert(is_newest_at(entries@, name, at + 1));
                },
                None => {
                    assert forall|i: int| 0 <= i < entries@.len() implies (
                    #[trigger] entries@[i]).name@ != name by {
                        if i > 0 {
                            assert(entries.rest()@[i - 1].name@ != name);
                        }
                    }
                },
            }
        }
    }
}

/// Whether a name stands for a variable of the scope at a depth, and for none of
/// the scopes inside it.
pub open spec fn is_innermost<'a>(
    scopes: Seq<List<Entry<'a, Binding>>>,
    name: Seq<char>,
    binding: Binding,
    depth: int,
) -> bool {
    &&& 0 <= depth < scopes.len()
    &&& is_newest(scopes[depth]@, name, binding)
    &&& forall|i: int| 0 <= i < depth ==> !is_entered((#[trigger] scopes[i])@, name)
}

proof fn found_is_innermost<'a>(scopes: List<List<Entry<'a, Binding>>>, name: &str)
    ensures
        match spec_find_binding(scopes, name) {
            Some(binding) => exists|depth: int| #[trigger]
                is_innermost(scopes@, name@, binding, depth),
            None => forall|i: int|
                0 <= i < scopes@.len() ==> !is_entered((#[trigger] scopes@[i])@, name@),
        },
    decreases scopes,
{
    reveal(spec_find_binding);
    if scopes is Cons {
        found_is_innermost(scopes.rest(), name);
        bound_is_newest(scopes.first(), name@);
        assert(scopes@ =~= seq![scopes.first()] + scopes.rest()@);
        assert(scopes@[0] == scopes.first());
        assert forall|i: int| 0 < i < scopes@.len() implies #[trigger] scopes@[i]
            == scopes.rest()@[i - 1] by {}
        match bound(scopes.first(), name@) {
            Some(binding) => {
                assert(is_innermost(scopes@, name@, binding, 0));
            },
            None => match spec_find_binding(scopes.rest(), name) {
                Some(binding) => {
                    let depth = choose|depth: int| #[trigger]
                        is_innermost(scopes.rest()@, name@, binding, depth);
                    assert forall|i: int| 0 <= i < depth + 1 implies !is_entered(
                        (#[trigger] scopes@[i])@,
                        name@,
                    ) by {
                        if i > 0 {
                            assert(!is_entered(scopes.rest()@[i - 1]@, name@));
                        }
                    }
                    assert(scopes@[depth + 1] == scopes.rest()@[depth]);
                    assert(is_innermost(scopes@, name@, binding, depth + 1));
                },
                None => {
                    assert forall|i: int| 0 <= i < scopes@.len() implies !is_entered(
                        (#[trigger] scopes@[i])@,
                        name@,
                    ) by {
                        if i > 0 {
                            assert(!is_entered(scopes.rest()@[i - 1]@, name@));
                        }
                    }
                },
            },
        }
    }
}

/// A name stands for the newest variable of the innermost scope that has one of
/// that name, and for none if no scope has one.
pub proof fn names_stand_for_innermost_variables<'a>(state: State<'a>, name: &str)
    ensures
        match state.lookup(name) {
            Some(binding) => exists|depth: int| #[trigger]
                is_innermost(state.frame.scopes@, name@, binding, depth),
            None => forall|i: int|
                0 <= i < state.frame.scopes@.len() ==> !is_entered(
                    (#[trigger] state.frame.scopes@[i])@,
                    name@,
                ),
        },
{
    reveal(State::lookup);
    found_is_innermost(state.frame.scopes, name);
}

/// A path of one name is the variable of that name, else the static of that name.
pub proof fn paths_are_variables_first<'a>(
    state: State<'a>,
    path: Path<'a>,
    expected: Option<Type>,
)
    requires
        lone_name(path) is Some,
    ensures
        match state.lookup(lone_name(path)->0) {
            Some(binding) => {
                let value = state.analyze_path(path, expected).1;
                *value.kind == ExpressionKind::Local(binding.local) && value.ty == binding.ty
            },
            None => match bound(state.symbols.statics, lone_name(path)->0@) {
                Some(held) => {
                    let value = state.analyze_path(path, expected).1;
                    *value.kind == ExpressionKind::Static(held.id) && value.ty == held.ty
                },
                None => true,
            },
        },
{
    reveal(State::analyze_path);
    reveal(State::lookup_path);
    reveal(State::analyze_local_path);
    reveal(State::static_at);
    reveal(State::static_of);
    reveal(State::analyze_static_path);
}

/// Whether the field at a position is the first of a name.
pub open spec fn is_field(fields: Seq<TypeField>, position: u32, name: Seq<char>) -> bool {
    &&& position < fields.len()
    &&& fields[position as int].name@ == name
    &&& forall|i: int| 0 <= i < position ==> (#[trigger] fields[i]).name@ != name
}

proof fn field_is_found<'a>(fields: List<TypeField<'a>>, name: &str, from: u32)
    requires
        from + fields@.len() <= u32::MAX,
    ensures
        match spec_find_field(fields, name, from) {
            Some((position, ty, is_public)) => from <= position && is_field(
                fields@,
                (position - from) as u32,
                name@,
            ) && ty == fields@[position - from].ty && is_public == fields@[position
                - from].is_public,
            None => forall|i: int|
                0 <= i < fields@.len() ==> (#[trigger] fields@[i]).name@ != name@,
        },
    decreases fields,
{
    reveal(spec_find_field);
    if fields is Cons {
        assert(fields@ =~= seq![fields.first()] + fields.rest()@);
        assert(fields@[0] == fields.first());
        if fields.first().name@ != name@ {
            field_is_found(fields.rest(), name, from.saturating_add(1));
            assert forall|i: int| 0 < i < fields@.len() implies #[trigger] fields@[i]
                == fields.rest()@[i - 1] by {}
            if let Some((position, _, _)) = spec_find_field(fields, name, from) {
                assert forall|i: int| 0 <= i < position - from implies (
                #[trigger] fields@[i]).name@ != name@ by {
                    if i > 0 {
                        assert(fields.rest()@[i - 1].name@ != name@);
                    }
                }
            } else {
                assert forall|i: int| 0 <= i < fields@.len() implies (
                #[trigger] fields@[i]).name@ != name@ by {
                    if i > 0 {
                        assert(fields.rest()@[i - 1].name@ != name@);
                    }
                }
            }
        }
    }
}

proof fn element_is_found(types: List<Type>, position: u64)
    ensures
        spec_element_at(types, position) == (if position < types@.len() {
            Some(types@[position as int])
        } else {
            None
        }),
    decreases types,
{
    reveal(spec_element_at);
    if types is Cons {
        assert(types@ =~= seq![types.first()] + types.rest()@);
        if position > 0 {
            element_is_found(types.rest(), (position - 1) as u64);
        }
    }
}

/// A field of a struct is selected by its name, and an element of a tuple by its
/// position; each has the type that is declared for it.
pub proof fn fields_are_selected_by_name<'a>(state: State<'a>, ty: Type, field: FieldName<'a>)
    requires
        state.types.struct_fields(ty)@.len() <= u32::MAX,
    ensures
        match field {
            FieldName::Named(name) => {
                let fields = state.types.struct_fields(ty)@;
                match state.selected_field(ty, field) {
                    Some((position, found, is_public)) => ty is Struct && is_field(
                        fields,
                        position,
                        name.name@,
                    ) && found == fields[position as int].ty && is_public
                        == fields[position as int].is_public,
                    None => !(ty is Struct) || forall|i: int|
                        0 <= i < fields.len() ==> (#[trigger] fields[i]).name@ != name.name@,
                }
            },
            FieldName::TupleIndex { index, .. } => match state.types.tuple_shape(ty) {
                Some(elements) if ty is Tuple => state.selected_field(ty, field) == (if index
                    < elements@.len() {
                    Some((index, elements@[index as int], true))
                } else {
                    None
                }),
                _ => state.selected_field(ty, field) is None,
            },
        },
{
    reveal(State::selected_field);
    reveal(spec_is_struct_type);
    reveal(spec_is_tuple_type);
    match field {
        FieldName::Named(name) => {
            field_is_found(state.types.struct_fields(ty), name.name, 0);
        },
        FieldName::TupleIndex { index, .. } => {
            if let Some(elements) = state.types.tuple_shape(ty) {
                element_is_found(elements, index as u64);
            }
        },
    }
}

} // verus!

//! That aggregates name every field once, and no other.

use crate::analyzer::checks::{spec_has_field, spec_is_enum_type};
use crate::analyzer::matching::{
    countable, has_variant, is_silent, last_name_is_last, only_adds_problems, paths_name_variants,
    variants_are_found_by_name, variants_in,
};
use crate::analyzer::patterns::spec_last_segment;
use crate::analyzer::State;
use crate::ast::{FieldInitializer, Path, PatternField};
use crate::hir::TypeField;
use crate::list::{cons, counts_are_lengths, List};
use crate::span::{error, Span};
use crate::text::{characters, listed, words3};
use crate::types::Type;
use vstd::prelude::*;

verus! {

/// Whether no two of the names are the same.
pub open spec fn are_distinct(names: Seq<Seq<char>>) -> bool {
    forall|i: int, j: int| 0 <= i < j < names.len() ==> #[trigger] names[i] != #[trigger] names[j]
}

/// The names that values are given to.
pub open spec fn given_names(initializers: Seq<FieldInitializer>) -> Seq<Seq<char>> {
    Seq::new(initializers.len(), |i: int| initializers[i].name.name@)
}

/// The names that patterns are written for.
pub open spec fn written_names(fields: Seq<PatternField>) -> Seq<Seq<char>> {
    Seq::new(fields.len(), |i: int| fields[i].name.name@)
}

/// The names of declared fields.
pub open spec fn declared_names(fields: Seq<TypeField>) -> Seq<Seq<char>> {
    Seq::new(fields.len(), |i: int| fields[i].name@)
}

/// Whether none of the names is among others, and no two are the same.
spec fn are_new(names: Seq<Seq<char>>, seen: List<&str>) -> bool {
    &&& are_distinct(names)
    &&& forall|i: int| 0 <= i < names.len() ==> !listed(seen, #[trigger] names[i])
}

proof fn new_names_split(names: Seq<Seq<char>>, first: &str, rest: Seq<Seq<char>>, seen: List<&str>)
    requires
        names =~= seq![first@] + rest,
    ensures
        are_new(names, seen) == (!listed(seen, first@) && are_new(rest, cons(first, seen))),
{
    assert(names[0] == first@);
    assert forall|i: int| 0 <= i < rest.len() implies #[trigger] rest[i] == names[i + 1] by {}
    assert forall|name: Seq<char>| #[trigger] listed(cons(first, seen), name) == (first@ == name
        || listed(seen, name)) by {}
    if are_new(names, seen) {
        assert(!listed(seen, names[0]));
        assert forall|i: int, j: int| 0 <= i < j < rest.len() implies #[trigger] rest[i]
            != #[trigger] rest[j] by {
            assert(names[i + 1] != names[j + 1]);
        }
        assert forall|i: int| 0 <= i < rest.len() implies !listed(
            cons(first, seen),
            #[trigger] rest[i],
        ) by {
            assert(names[0] != names[i + 1]);
            assert(!listed(seen, names[i + 1]));
        }
    }
    if !listed(seen, first@) && are_new(rest, cons(first, seen)) {
        assert forall|i: int| 0 <= i < names.len() implies !listed(seen, #[trigger] names[i]) by {
            if i > 0 {
                assert(!listed(cons(first, seen), rest[i - 1]));
            }
        }
        assert forall|i: int, j: int| 0 <= i < j < names.len() implies #[trigger] names[i]
            != #[trigger] names[j] by {
            assert(!listed(cons(first, seen), rest[j - 1]));
            if i > 0 {
                assert(rest[i - 1] != rest[j - 1]);
            }
        }
    }
}

proof fn repetitions_are_reported<'a>(
    state: State<'a>,
    initializers: List<FieldInitializer<'a>>,
    seen: List<&'a str>,
)
    ensures
        ({
            let after = state.check_repeated_initializers(initializers, seen);
            &&& only_adds_problems(state, after)
            &&& is_silent(state, after) <==> are_new(given_names(initializers@), seen)
            &&& is_silent(state, after) ==> after == state
        }),
    decreases initializers,
{
    reveal(State::check_repeated_initializers);
    reveal(State::report);
    if initializers is Cons {
        let first = initializers.first();
        let name = first.name.name;
        let told = if listed(seen, name@) {
            state.report(
                error(
                    "E3120",
                    words3("field `", name, "` is initialized more than once"),
                    first.name.span,
                ),
            )
        } else {
            state
        };
        repetitions_are_reported(told, initializers.rest(), cons(name, seen));
        assert(initializers@ =~= seq![first] + initializers.rest()@);
        assert(given_names(initializers@) =~= seq![name@] + given_names(initializers.rest()@));
        new_names_split(
            given_names(initializers@),
            name,
            given_names(initializers.rest()@),
            seen,
        );
    }
}

/// A field that is given a value twice is reported, and nothing else is.
pub proof fn fields_are_given_once<'a>(
    state: State<'a>,
    initializers: List<FieldInitializer<'a>>,
)
    ensures
        is_silent(state, state.check_repeated_initializers(initializers, List::Nil))
            <==> are_distinct(given_names(initializers@)),
{
    repetitions_are_reported(state, initializers, List::Nil);
}

proof fn declared_fields_are_found(fields: List<TypeField>, name: &str)
    ensures
        spec_has_field(fields, name) == declared_names(fields@).contains(name@),
    decreases fields,
{
    reveal(spec_has_field);
    if fields is Cons {
        declared_fields_are_found(fields.rest(), name);
        assert(fields@ =~= seq![fields.first()] + fields.rest()@);
        let names = declared_names(fields@);
        let rest = declared_names(fields.rest()@);
        assert(names =~= seq![fields.first().name@] + rest);
        assert(names[0] == fields.first().name@);
        if rest.contains(name@) {
            let i = choose|i: int| 0 <= i < rest.len() && rest[i] == name@;
            assert(names[i + 1] == name@);
        }
        if names.contains(name@) && fields.first().name@ != name@ {
            let i = choose|i: int| 0 <= i < names.len() && names[i] == name@;
            assert(rest[i - 1] == name@);
        }
    }
}

/// A value for a field that is not declared is reported, and nothing else is.
pub proof fn only_declared_fields_are_given<'a>(
    state: State<'a>,
    initializers: List<FieldInitializer<'a>>,
    declared: List<TypeField<'a>>,
)
    ensures
        ({
            let after = state.check_unknown_initializers(initializers, declared);
            &&& only_adds_problems(state, after)
            &&& is_silent(state, after) <==> forall|i: int|
                0 <= i < initializers@.len() ==> declared_names(declared@).contains(
                    (#[trigger] initializers@[i]).name.name@,
                )
        }),
    decreases initializers,
{
    reveal(State::check_unknown_initializers);
    reveal(State::report);
    if initializers is Cons {
        let first = initializers.first();
        let name = first.name.name;
        declared_fields_are_found(declared, name);
        let told = if !spec_has_field(declared, name) {
            state.report(error("E3121", words3("unknown field `", name, "`"), first.name.span))
        } else {
            state
        };
        only_declared_fields_are_given(told, initializers.rest(), declared);
        assert(initializers@ =~= seq![first] + initializers.rest()@);
        assert(initializers@[0] == first);
        let after = state.check_unknown_initializers(initializers, declared);
        if is_silent(state, after) {
            assert forall|i: int| 0 <= i < initializers@.len() implies declared_names(
                declared@,
            ).contains((#[trigger] initializers@[i]).name.name@) by {
                if i > 0 {
                    assert(initializers@[i] == initializers.rest()@[i - 1]);
                }
            }
        }
        if forall|i: int|
            0 <= i < initializers@.len() ==> declared_names(declared@).contains(
                (#[trigger] initializers@[i]).name.name@,
            ) {
            assert forall|i: int| 0 <= i < initializers.rest()@.len() implies declared_names(
                declared@,
            ).contains((#[trigger] initializers.rest()@[i]).name.name@) by {
                assert(initializers@[i + 1] == initializers.rest()@[i]);
            }
        }
    }
}

/// A pattern must have as many parts as what it is held against; where it has
/// not, a problem is reported, and only there.
pub proof fn parts_are_counted<'a>(
    state: State<'a>,
    types: List<Type>,
    found: u64,
    before: &'a str,
    parts: &'a str,
    span: Span,
)
    requires
        types@.len() < u64::MAX,
    ensures
        ({
            let after = state.require_part_count(types, found, before, parts, span);
            &&& found == types@.len() ==> after == state
            &&& found != types@.len() ==> after.types.problems.len()
                == state.types.problems.len() + 1
        }),
{
    reveal(State::require_part_count);
    reveal(State::report);
    counts_are_lengths(types);
}

/// A pattern of named fields that leaves out a declared field is reported.
pub proof fn every_field_is_matched<'a>(
    state: State<'a>,
    declared: TypeField<'a>,
    fields: List<PatternField<'a>>,
    span: Span,
    fuel: nat,
)
    requires
        !written_names(fields@).contains(declared.name@),
    ensures
        state.types.problems.len() < state.analyze_field_pattern(
            fields,
            declared,
            span,
            fuel,
        ).0.types.problems.len(),
    decreases fields,
{
    reveal(State::report);
    if fields is Cons {
        assert(fields@ =~= seq![fields.first()] + fields.rest()@);
        let names = written_names(fields@);
        let rest = written_names(fields.rest()@);
        assert(names =~= seq![fields.first().name.name@] + rest);
        assert(names[0] == fields.first().name.name@);
        assert(fields.first().name.name@ != declared.name@);
        if rest.contains(declared.name@) {
            let i = choose|i: int| 0 <= i < rest.len() && rest[i] == declared.name@;
            assert(names[i + 1] == declared.name@);
        }
        every_field_is_matched(state, declared, fields.rest(), span, fuel);
    }
}

/// Whether a path names a variant of a type: by its name alone, or by the name of
/// the type and its own.
pub open spec fn names_variant<'a>(state: State<'a>, ty: Type, path: Path<'a>) -> bool {
    &&& ty is Enum
    &&& 1 <= path.segments@.len() <= 2
    &&& path.segments@.len() == 2 ==> match state.types.definition(ty) {
        Some(definition) => match definition.name {
            Some(name) => characters(name) == path.segments@[0].name@,
            None => false,
        },
        None => false,
    }
    &&& has_variant(variants_in(state.types.definitions, ty)@, path.segments@.last().name@)
}

/// A path in a pattern is accepted exactly where it names a variant of the type
/// that the pattern is held against.
pub proof fn paths_are_accepted_where_they_name_a_variant<'a>(
    state: State<'a>,
    ty: Type,
    path: Path<'a>,
)
    requires
        countable(state.types.definitions),
        0 < path.segments@.len() < u64::MAX,
    ensures
        ({
            let (after, found) = state.resolve_pattern_variant(ty, path);
            &&& found is Some <==> names_variant(state, ty, path)
            &&& found is Some ==> after == state
            &&& found is None ==> after.types.problems.len() == state.types.problems.len() + 1
        }),
{
    reveal(State::resolve_pattern_variant);
    reveal(State::is_qualified_by);
    reveal(State::report);
    reveal(spec_is_enum_type);
    counts_are_lengths(path.segments);
    paths_name_variants(state, ty, path);
    let segments = path.segments;
    assert(segments is Cons);
    assert(segments@ =~= seq![segments.first()] + segments.rest()@);
    if segments.rest() is Cons {
        assert(segments.rest()@ =~= seq![segments.rest().first()] + segments.rest().rest()@);
        if segments.rest().rest() is Cons {
            assert(segments.rest().rest()@.len() > 0);
        }
    }
    if let Some(name) = spec_last_segment(segments) {
        variants_are_found_by_name(state, ty, name.name);
        last_name_is_last(segments);
        if let Some((position, _)) = state.enum_variant(ty, name.name) {
            let variants = variants_in(state.types.definitions, ty)@;
            assert(variants[position as int].name@ == name.name@);
        }
    } else {
        last_name_is_last(segments);
    }
}

} // verus!

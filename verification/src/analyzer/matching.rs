//! That a typed pattern matches the values that the written pattern matches.

use crate::analyzer::checks::spec_find_variant;
use crate::analyzer::coverage::{admits, all_admit, Datum};
use crate::analyzer::patterns::{spec_has_pattern, spec_last_segment};
use crate::analyzer::State;
use crate::ast::{self, Identifier, Path, PatternField};
use crate::hir::{
    EnumVariant, EnumVariantFields, Pattern, PatternKind, TypeDefinition, TypeDefinitionKind,
    TypeField,
};
use crate::list::List;
use crate::numbers::{integer_minimum_magnitude, integer_positive_maximum};
use crate::rendering::written_number;
use crate::span::Span;
use crate::text::listed;
use crate::types::Type;
use vstd::prelude::*;

verus! {

/// The variants of a type.
pub open spec fn variants_in<'a>(
    definitions: Seq<TypeDefinition<'a>>,
    ty: Type,
) -> List<EnumVariant<'a>> {
    match ty.id() {
        Some(id) => if id.0 < definitions.len() {
            match definitions[id.0 as int].kind {
                TypeDefinitionKind::Enum { variants } => variants,
                _ => List::Nil,
            }
        } else {
            List::Nil
        },
        None => List::Nil,
    }
}

/// The types of the elements of a tuple.
pub open spec fn elements_in<'a>(
    definitions: Seq<TypeDefinition<'a>>,
    ty: Type,
) -> List<Type> {
    match ty.id() {
        Some(id) => if id.0 < definitions.len() {
            match definitions[id.0 as int].kind {
                TypeDefinitionKind::Tuple { elements } => elements,
                _ => List::Nil,
            }
        } else {
            List::Nil
        },
        None => List::Nil,
    }
}

/// Whether the variants of each type can be numbered.
pub open spec fn countable(definitions: Seq<TypeDefinition>) -> bool {
    forall|i: int|
        0 <= i < definitions.len() ==> match (#[trigger] definitions[i]).kind {
            TypeDefinitionKind::Enum { variants } => variants@.len() <= u32::MAX,
            _ => true,
        }
}

/// Whether one of the variants has a name.
pub open spec fn has_variant(variants: Seq<EnumVariant>, name: Seq<char>) -> bool {
    exists|i: int| 0 <= i < variants.len() && (#[trigger] variants[i]).name@ == name
}

/// Whether the variant at a position is the one of a name: the first that has
/// it.
pub open spec fn is_variant(variants: Seq<EnumVariant>, position: u32, name: Seq<char>) -> bool {
    &&& position < variants.len()
    &&& variants[position as int].name@ == name
    &&& forall|i: int| 0 <= i < position ==> (#[trigger] variants[i]).name@ != name
}

/// The first of the types that parts have in turn.
pub open spec fn type_of_first(types: List<Type>) -> Type {
    match types {
        List::Nil => Type::Unit,
        List::Cons(node) => node.head,
    }
}

/// The types that the parts behind the first have.
pub open spec fn types_of_rest(types: List<Type>) -> List<Type> {
    match types {
        List::Nil => List::Nil,
        List::Cons(node) => node.tail,
    }
}

/// Whether a written pattern matches a value of a type. A number matches that
/// number and no other, a name that is not one of a variant matches every value,
/// and a variant matches by its name. The last name of a path is the one of the
/// variant.
pub open spec fn matches<'a>(
    definitions: Seq<TypeDefinition<'a>>,
    pattern: ast::Pattern<'a>,
    ty: Type,
    value: Datum,
) -> bool
    decreases pattern, 0nat, List::<TypeField<'a>>::Nil,
{
    let variants = variants_in(definitions, ty)@;
    match *pattern.kind {
        ast::PatternKind::Wildcard => true,
        ast::PatternKind::Identifier { mutable, name } => if !mutable && has_variant(
            variants,
            name.name@,
        ) {
            value is Variant && is_variant(variants, value->position, name.name@)
                && value->fields is Nil
        } else {
            true
        },
        ast::PatternKind::Integer { value: number, negative } => value == Datum::Number(
            written_number(number, negative),
        ),
        ast::PatternKind::Float(literal) => if ty == Type::F32 {
            value == Datum::Single(literal.single)
        } else {
            value == Datum::Double(literal.bits)
        },
        ast::PatternKind::Character(character) => value == Datum::Character(character),
        ast::PatternKind::Boolean(truth) => value == Datum::Truth(truth),
        ast::PatternKind::Tuple(elements) => value is Tuple && all_match(
            definitions,
            elements,
            elements_in(definitions, ty),
            value->Tuple_0,
        ),
        ast::PatternKind::Path(path) => path.segments is Nil || (value is Variant && is_variant(
            variants,
            value->position,
            path.segments@.last().name@,
        ) && value->fields is Nil),
        ast::PatternKind::EnumTuple { path, fields } => path.segments is Nil || (value is Variant
            && is_variant(variants, value->position, path.segments@.last().name@) && all_match(
            definitions,
            fields,
            variants[value->position as int].fields->Tuple_0,
            value->fields,
        )),
        ast::PatternKind::EnumStruct { path, fields } => path.segments is Nil || (value is Variant
            && is_variant(variants, value->position, path.segments@.last().name@) && fields_match(
            definitions,
            fields,
            variants[value->position as int].fields->Struct_0,
            value->fields,
        )),
    }
}

/// Whether written patterns match values one by one.
pub open spec fn all_match<'a>(
    definitions: Seq<TypeDefinition<'a>>,
    patterns: List<ast::Pattern<'a>>,
    types: List<Type>,
    values: List<Datum>,
) -> bool
    decreases patterns, 0nat, List::<TypeField<'a>>::Nil,
{
    match patterns {
        List::Nil => values is Nil,
        List::Cons(node) => values is Cons && matches(
            definitions,
            node.head,
            type_of_first(types),
            values.first(),
        ) && all_match(definitions, node.tail, types_of_rest(types), values.rest()),
    }
}

/// Whether the values of declared fields match what is written for their names.
pub open spec fn fields_match<'a>(
    definitions: Seq<TypeDefinition<'a>>,
    fields: List<PatternField<'a>>,
    declared: List<TypeField<'a>>,
    values: List<Datum>,
) -> bool
    decreases fields, 1nat, declared,
{
    match declared {
        List::Nil => values is Nil,
        List::Cons(node) => values is Cons && field_matches(
            definitions,
            fields,
            node.head.name@,
            node.head.ty,
            values.first(),
        ) && fields_match(definitions, fields, node.tail, values.rest()),
    }
}

/// Whether a value matches each pattern that is written for a name.
pub open spec fn field_matches<'a>(
    definitions: Seq<TypeDefinition<'a>>,
    fields: List<PatternField<'a>>,
    name: Seq<char>,
    ty: Type,
    value: Datum,
) -> bool
    decreases fields, 0nat, List::<TypeField<'a>>::Nil,
{
    match fields {
        List::Nil => true,
        List::Cons(node) => (node.head.name.name@ == name ==> matches(
            definitions,
            node.head.pattern,
            ty,
            value,
        )) && field_matches(definitions, node.tail, name, ty, value),
    }
}

/// Whether no types come to be, and problems are at most added.
pub open spec fn only_adds_problems<'a>(before: State<'a>, after: State<'a>) -> bool {
    &&& after.types.definitions == before.types.definitions
    &&& before.types.problems.len() <= after.types.problems.len()
}

/// Whether no problem is added.
pub open spec fn is_silent<'a>(before: State<'a>, after: State<'a>) -> bool {
    before.types.problems.len() == after.types.problems.len()
}

/// Whether a typed pattern matches the values that a written one matches.
pub open spec fn matches_the_same<'a>(
    definitions: Seq<TypeDefinition<'a>>,
    pattern: ast::Pattern<'a>,
    ty: Type,
    analyzed: Pattern<'a>,
) -> bool {
    forall|value: Datum| #[trigger]
        admits(analyzed, value) == matches(definitions, pattern, ty, value)
}

/// Whether typed patterns match the values that written ones match.
pub open spec fn all_match_the_same<'a>(
    definitions: Seq<TypeDefinition<'a>>,
    patterns: List<ast::Pattern<'a>>,
    types: List<Type>,
    analyzed: List<Pattern<'a>>,
) -> bool {
    forall|values: List<Datum>| #[trigger]
        all_admit(analyzed, values) == all_match(definitions, patterns, types, values)
}

proof fn variant_is_found<'a>(variants: List<EnumVariant<'a>>, name: &str, from: u32)
    requires
        from + variants@.len() <= u32::MAX,
    ensures
        match spec_find_variant(variants, name, from) {
            Some((position, fields)) => from <= position && is_variant(
                variants@,
                (position - from) as u32,
                name@,
            ) && fields == variants@[position - from].fields,
            None => !has_variant(variants@, name@),
        },
    decreases variants,
{
    reveal(spec_find_variant);
    if variants is Cons {
        assert(variants@ =~= seq![variants.first()] + variants.rest()@);
        assert(variants@[0] == variants.first());
        if variants.first().name@ != name@ {
            variant_is_found(variants.rest(), name, from.saturating_add(1));
            assert forall|i: int| 0 < i < variants@.len() implies #[trigger] variants@[i]
                == variants.rest()@[i - 1] by {}
            if let Some((position, _)) = spec_find_variant(variants, name, from) {
                assert forall|i: int| 0 <= i < position - from implies (
                #[trigger] variants@[i]).name@ != name@ by {
                    if i > 0 {
                        assert(variants@[i] == variants.rest()@[i - 1]);
                    }
                }
            } else {
                assert forall|i: int| 0 <= i < variants@.len() implies (
                #[trigger] variants@[i]).name@ != name@ by {
                    if i > 0 {
                        assert(variants@[i] == variants.rest()@[i - 1]);
                    }
                }
            }
        }
    }
}

/// The variant that a type is found to have under a name is the first of that
/// name, and one is found if there is one.
pub proof fn variants_are_found_by_name<'a>(state: State<'a>, ty: Type, name: &str)
    requires
        countable(state.types.definitions),
    ensures
        match state.enum_variant(ty, name) {
            Some((position, fields)) => {
                let variants = variants_in(state.types.definitions, ty)@;
                is_variant(variants, position, name@) && fields
                    == variants[position as int].fields
            },
            None => !has_variant(variants_in(state.types.definitions, ty)@, name@),
        },
{
    reveal(State::enum_variant);
    reveal(State::enum_variants);
    let variants = variants_in(state.types.definitions, ty);
    if let Some(id) = ty.id() {
        if id.0 < state.types.definitions.len() {
            assert(state.types.definitions[id.0 as int].kind is Enum ==> variants@.len()
                <= u32::MAX);
        }
    }
    variant_is_found(variants, name, 0);
}

/// No two variants have the same place: one that is a variant of a name is the
/// only one.
proof fn named_variants_are_one(
    variants: Seq<EnumVariant>,
    first: u32,
    second: u32,
    name: Seq<char>,
)
    requires
        is_variant(variants, first, name),
        is_variant(variants, second, name),
    ensures
        first == second,
{
    if first < second {
        assert(variants[first as int].name@ != name);
    }
    if second < first {
        assert(variants[second as int].name@ != name);
    }
}

/// The last name of a path is the last of its names.
pub proof fn last_name_is_last<'a>(segments: List<Identifier<'a>>)
    ensures
        match spec_last_segment(segments) {
            Some(name) => segments is Cons && name == segments@.last(),
            None => segments is Nil,
        },
    decreases segments,
{
    reveal(spec_last_segment);
    if segments is Cons {
        assert(segments@ =~= seq![segments.first()] + segments.rest()@);
        last_name_is_last(segments.rest());
        if segments.rest() is Cons {
            assert(segments.rest()@.len() > 0);
        }
    }
}

/// A path in a pattern names the variant of its last name.
pub proof fn paths_name_variants<'a>(state: State<'a>, ty: Type, path: Path<'a>)
    requires
        countable(state.types.definitions),
    ensures
        only_adds_problems(state, state.resolve_pattern_variant(ty, path).0),
        match state.resolve_pattern_variant(ty, path) {
            (after, Some((position, fields))) => {
                let variants = variants_in(state.types.definitions, ty)@;
                &&& after == state
                &&& path.segments is Cons
                &&& is_variant(variants, position, path.segments@.last().name@)
                &&& fields == variants[position as int].fields
            },
            (after, None) => is_silent(state, after) ==> path.segments is Nil && after == state,
        },
{
    reveal(State::resolve_pattern_variant);
    reveal(State::report);
    last_name_is_last(path.segments);
    if let Some(name) = spec_last_segment(path.segments) {
        variants_are_found_by_name(state, ty, name.name);
    }
}

/// An integer in a pattern stands for the number that is written, and for no
/// other: for its two's complement where it is negated. Where no problem is
/// reported, two patterns of one type are the same only if they are written with
/// the same number.
pub proof fn integer_patterns_match_their_number<'a>(
    state: State<'a>,
    value: u128,
    negative: bool,
    ty: Type,
    span: Span,
)
    ensures
        only_adds_problems(state, state.analyze_pattern_integer(value, negative, ty, span).0),
        is_silent(state, state.analyze_pattern_integer(value, negative, ty, span).0)
            ==> forall|seen: Datum, place: Span|
            #[trigger] admits(
                Pattern {
                    kind: state.analyze_pattern_integer(value, negative, ty, span).1,
                    ty,
                    span: place,
                },
                seen,
            ) == (seen == Datum::Number(written_number(value, negative))),
        is_silent(state, state.analyze_pattern_integer(value, negative, ty, span).0)
            <==> ty.is_integer() && (if negative {
            ty.is_signed_integer() && value <= integer_minimum_magnitude(ty)
        } else {
            value <= integer_positive_maximum(ty)
        }),
{
    reveal(State::analyze_pattern_integer);
    reveal(State::report);
}

/// Integers that are written differently are different patterns.
pub proof fn integer_patterns_stay_apart<'a>(
    state: State<'a>,
    first: (u128, bool),
    second: (u128, bool),
    ty: Type,
    span: Span,
)
    requires
        is_silent(state, state.analyze_pattern_integer(first.0, first.1, ty, span).0),
        is_silent(state, state.analyze_pattern_integer(second.0, second.1, ty, span).0),
        state.analyze_pattern_integer(first.0, first.1, ty, span).1
            == state.analyze_pattern_integer(second.0, second.1, ty, span).1,
    ensures
        written_number(first.0, first.1) == written_number(second.0, second.1),
{
    integer_patterns_match_their_number(state, first.0, first.1, ty, span);
    integer_patterns_match_their_number(state, second.0, second.1, ty, span);
    let pattern = Pattern {
        kind: state.analyze_pattern_integer(first.0, first.1, ty, span).1,
        ty,
        span,
    };
    let seen = Datum::Number(written_number(first.0, first.1));
    assert(admits(pattern, seen));
}

/// A typed pattern matches the values that the written pattern matches, unless a
/// problem is reported.
pub proof fn typed_patterns_match_the_same<'a>(
    state: State<'a>,
    pattern: ast::Pattern<'a>,
    ty: Type,
)
    requires
        countable(state.types.definitions),
    ensures
        only_adds_problems(state, state.analyze_pattern(pattern, ty).0),
        is_silent(state, state.analyze_pattern(pattern, ty).0) ==> matches_the_same(
            state.types.definitions,
            pattern,
            ty,
            state.analyze_pattern(pattern, ty).1,
        ),
{
    reveal(State::analyze_pattern);
    pattern_matches_the_same(state, pattern, ty, crate::registry::LIMIT as nat);
}

proof fn pattern_matches_the_same<'a>(
    state: State<'a>,
    pattern: ast::Pattern<'a>,
    ty: Type,
    fuel: nat,
)
    requires
        countable(state.types.definitions),
    ensures
        only_adds_problems(state, state.analyze_pattern_within(pattern, ty, fuel).0),
        is_silent(state, state.analyze_pattern_within(pattern, ty, fuel).0) ==> matches_the_same(
            state.types.definitions,
            pattern,
            ty,
            state.analyze_pattern_within(pattern, ty, fuel).1,
        ),
    decreases fuel, 0nat, List::<TypeField<'a>>::Nil,
{
    reveal(State::report);
    if fuel > 0 {
        form_matches_the_same(state, pattern, ty, (fuel - 1) as nat);
    }
}

spec fn path_of(pattern: ast::Pattern) -> Path {
    match *pattern.kind {
        ast::PatternKind::Path(path) => path,
        ast::PatternKind::EnumTuple { path, .. } => path,
        ast::PatternKind::EnumStruct { path, .. } => path,
        _ => arbitrary(),
    }
}

spec fn fields_of(pattern: ast::Pattern) -> List<ast::Pattern> {
    match *pattern.kind {
        ast::PatternKind::Tuple(elements) => elements,
        ast::PatternKind::EnumTuple { fields, .. } => fields,
        _ => List::Nil,
    }
}

#[verifier::rlimit(40)]
proof fn form_matches_the_same<'a>(
    state: State<'a>,
    pattern: ast::Pattern<'a>,
    ty: Type,
    fuel: nat,
)
    requires
        countable(state.types.definitions),
    ensures
        only_adds_problems(state, state.analyze_pattern_form(pattern, ty, fuel).0),
        is_silent(state, state.analyze_pattern_form(pattern, ty, fuel).0) ==> matches_the_same(
            state.types.definitions,
            pattern,
            ty,
            Pattern {
                kind: state.analyze_pattern_form(pattern, ty, fuel).1,
                ty,
                span: pattern.span,
            },
        ),
    decreases fuel, 5nat, List::<TypeField<'a>>::Nil,
{
    reveal(State::report);
    match &*pattern.kind {
        ast::PatternKind::Wildcard => {},
        ast::PatternKind::Identifier { mutable, name } => {
            reveal(State::analyze_identifier_pattern);
            reveal(State::bind_pattern_variable);
            reveal(State::new_local);
            reveal(State::declare);
            variants_are_found_by_name(state, ty, name.name);
            let variants = variants_in(state.types.definitions, ty)@;
            if let Some((position, fields)) = state.enum_variant(ty, name.name) {
                assert(has_variant(variants, name.name@)) by {
                    assert(variants[position as int].name@ == name.name@);
                }
                assert forall|value: Datum|
                    value is Variant && #[trigger] is_variant(
                        variants,
                        value->position,
                        name.name@,
                    ) implies value->position == position by {
                    named_variants_are_one(variants, value->position, position, name.name@);
                }
            }
        },
        ast::PatternKind::Integer { value, negative } => {
            integer_patterns_match_their_number(state, *value, *negative, ty, pattern.span);
        },
        ast::PatternKind::Float(_) => {
            reveal(State::analyze_pattern_float);
        },
        ast::PatternKind::Character(_) => {
            reveal(State::require_type);
            reveal(State::type_mismatch);
        },
        ast::PatternKind::Boolean(_) => {
            reveal(State::require_type);
            reveal(State::type_mismatch);
        },
        ast::PatternKind::Tuple(_) => {
            tuple_matches_the_same(state, pattern, ty, fuel);
        },
        ast::PatternKind::Path(_) => {
            let path = path_of(pattern);
            reveal(State::analyze_unit_variant_pattern);
            paths_name_variants(state, ty, path);
            let variants = variants_in(state.types.definitions, ty)@;
            if let (_, Some((position, _))) = state.resolve_pattern_variant(ty, path) {
                assert forall|value: Datum|
                    value is Variant && #[trigger] is_variant(
                        variants,
                        value->position,
                        path.segments@.last().name@,
                    ) implies value->position == position by {
                    named_variants_are_one(
                        variants,
                        value->position,
                        position,
                        path.segments@.last().name@,
                    );
                }
            }
        },
        ast::PatternKind::EnumTuple { .. } => {
            enum_tuple_matches_the_same(state, pattern, ty, fuel);
        },
        ast::PatternKind::EnumStruct { .. } => {
            enum_struct_matches_the_same(state, pattern, ty, fuel);
        },
    }
}

proof fn tuple_matches_the_same<'a>(
    state: State<'a>,
    pattern: ast::Pattern<'a>,
    ty: Type,
    fuel: nat,
)
    requires
        countable(state.types.definitions),
        *pattern.kind is Tuple,
    ensures
        only_adds_problems(state, state.analyze_pattern_form(pattern, ty, fuel).0),
        is_silent(state, state.analyze_pattern_form(pattern, ty, fuel).0) ==> matches_the_same(
            state.types.definitions,
            pattern,
            ty,
            Pattern {
                kind: state.analyze_pattern_form(pattern, ty, fuel).1,
                ty,
                span: pattern.span,
            },
        ),
    decreases fuel, 4nat, List::<TypeField<'a>>::Nil,
{
    reveal(State::report);
    reveal(State::tuple_elements);
    reveal(State::require_part_count);
    let elements = fields_of(pattern);
    if let Some(types) = state.tuple_elements(ty) {
        let counted = state.require_part_count(
            types,
            elements.count(),
            "tuple pattern requires ",
            " element(s), found ",
            pattern.span,
        );
        all_match_what_is_written(counted, elements, types, fuel);
        let (last, patterns) = counted.analyze_patterns(elements, types, fuel);
        if is_silent(state, last) {
            let analyzed = Pattern {
                kind: state.analyze_pattern_form(pattern, ty, fuel).1,
                ty,
                span: pattern.span,
            };
            assert(analyzed.kind == PatternKind::Tuple(patterns));
            assert forall|value: Datum| #[trigger]
                admits(analyzed, value) == matches(
                    state.types.definitions,
                    pattern,
                    ty,
                    value,
                ) by {
                assert(all_admit(patterns, value->Tuple_0) == all_match(
                    state.types.definitions,
                    elements,
                    types,
                    value->Tuple_0,
                ));
            }
        }
    }
}

proof fn enum_tuple_matches_the_same<'a>(
    state: State<'a>,
    pattern: ast::Pattern<'a>,
    ty: Type,
    fuel: nat,
)
    requires
        countable(state.types.definitions),
        *pattern.kind is EnumTuple,
    ensures
        only_adds_problems(state, state.analyze_pattern_form(pattern, ty, fuel).0),
        is_silent(state, state.analyze_pattern_form(pattern, ty, fuel).0) ==> matches_the_same(
            state.types.definitions,
            pattern,
            ty,
            Pattern {
                kind: state.analyze_pattern_form(pattern, ty, fuel).1,
                ty,
                span: pattern.span,
            },
        ),
    decreases fuel, 4nat, List::<TypeField<'a>>::Nil,
{
    reveal(State::report);
    reveal(State::require_part_count);
    let fields = fields_of(pattern);
    let path = path_of(pattern);
    paths_name_variants(state, ty, path);
    let variants = variants_in(state.types.definitions, ty)@;
    if let (_, Some((position, payload))) = state.resolve_pattern_variant(ty, path) {
        if let EnumVariantFields::Tuple(types) = payload {
            let counted = state.require_part_count(
                types,
                fields.count(),
                "variant pattern requires ",
                " field(s), found ",
                pattern.span,
            );
            all_match_what_is_written(counted, fields, types, fuel);
            let (last, patterns) = counted.analyze_patterns(fields, types, fuel);
            if is_silent(state, last) {
                let analyzed = Pattern {
                    kind: state.analyze_pattern_form(pattern, ty, fuel).1,
                    ty,
                    span: pattern.span,
                };
                let name = path.segments@.last().name@;
                assert(analyzed.kind == PatternKind::Enum { variant: position, fields: patterns });
                assert forall|value: Datum| #[trigger]
                    admits(analyzed, value) == matches(
                        state.types.definitions,
                        pattern,
                        ty,
                        value,
                    ) by {
                    assert(all_admit(patterns, value->fields) == all_match(
                        state.types.definitions,
                        fields,
                        types,
                        value->fields,
                    ));
                    if value is Variant && is_variant(variants, value->position, name) {
                        named_variants_are_one(variants, value->position, position, name);
                    }
                }
            }
        }
    }
}

proof fn all_match_what_is_written<'a>(
    state: State<'a>,
    patterns: List<ast::Pattern<'a>>,
    types: List<Type>,
    fuel: nat,
)
    requires
        countable(state.types.definitions),
    ensures
        only_adds_problems(state, state.analyze_patterns(patterns, types, fuel).0),
        is_silent(state, state.analyze_patterns(patterns, types, fuel).0) ==> all_match_the_same(
            state.types.definitions,
            patterns,
            types,
            state.analyze_patterns(patterns, types, fuel).1,
        ),
    decreases fuel, 1nat, patterns,
{
    if patterns is Cons {
        let (after, first) = state.analyze_pattern_within(
            patterns.first(),
            type_of_first(types),
            fuel,
        );
        pattern_matches_the_same(state, patterns.first(), type_of_first(types), fuel);
        all_match_what_is_written(after, patterns.rest(), types_of_rest(types), fuel);
        let (last, rest) = after.analyze_patterns(patterns.rest(), types_of_rest(types), fuel);
        let analyzed = state.analyze_patterns(patterns, types, fuel).1;
        assert(analyzed.first() == first && analyzed.rest() == rest);
        if is_silent(state, last) {
            assert forall|values: List<Datum>| #[trigger]
                all_admit(analyzed, values) == all_match(
                    state.types.definitions,
                    patterns,
                    types,
                    values,
                ) by {
                if values is Cons {
                    assert(admits(first, values.first()) == matches(
                        state.types.definitions,
                        patterns.first(),
                        type_of_first(types),
                        values.first(),
                    ));
                    assert(all_admit(rest, values.rest()) == all_match(
                        state.types.definitions,
                        patterns.rest(),
                        types_of_rest(types),
                        values.rest(),
                    ));
                }
            }
        }
    }
}

/// Whether no name is written twice.
spec fn written_once(fields: List<PatternField>) -> bool
    decreases fields,
{
    match fields {
        List::Nil => true,
        List::Cons(node) => !has_name(node.tail, node.head.name.name@) && written_once(node.tail),
    }
}

/// Whether a name is written.
spec fn has_name(fields: List<PatternField>, name: Seq<char>) -> bool
    decreases fields,
{
    match fields {
        List::Nil => false,
        List::Cons(node) => node.head.name.name@ == name || has_name(node.tail, name),
    }
}

proof fn repeated_names_are_reported<'a>(
    state: State<'a>,
    fields: List<PatternField<'a>>,
    declared: List<TypeField<'a>>,
    seen: List<&'a str>,
)
    ensures
        only_adds_problems(state, state.check_field_names(fields, declared, seen)),
        is_silent(state, state.check_field_names(fields, declared, seen)) ==> written_once(fields)
            && forall|name: Seq<char>| listed(seen, name) ==> !#[trigger] has_name(fields, name),
    decreases fields,
{
    reveal(State::check_field_names);
    reveal(State::report);
    if fields is Cons {
        let name = fields.first().name.name;
        let told = if listed(seen, name@) {
            state.report(
                crate::span::error(
                    "E3132",
                    crate::text::words3("pattern field `", name, "` is specified more than once"),
                    fields.first().span,
                ),
            )
        } else {
            state
        };
        let told = if !crate::analyzer::checks::spec_has_field(declared, name) {
            told.report(
                crate::span::error(
                    "E3121",
                    crate::text::words3("variant has no field named `", name, "`"),
                    fields.first().name.span,
                ),
            )
        } else {
            told
        };
        repeated_names_are_reported(
            told,
            fields.rest(),
            declared,
            crate::list::cons(name, seen),
        );
        if is_silent(state, state.check_field_names(fields, declared, seen)) {
            assert(listed(crate::list::cons(name, seen), name@));
            assert(!has_name(fields.rest(), name@));
            assert forall|other: Seq<char>| listed(seen, other) implies !#[trigger] has_name(
                fields,
                other,
            ) by {
                assert(listed(crate::list::cons(name, seen), other));
                assert(!has_name(fields.rest(), other));
            }
        }
    }
}

proof fn enum_struct_matches_the_same<'a>(
    state: State<'a>,
    pattern: ast::Pattern<'a>,
    ty: Type,
    fuel: nat,
)
    requires
        countable(state.types.definitions),
        *pattern.kind is EnumStruct,
    ensures
        only_adds_problems(state, state.analyze_pattern_form(pattern, ty, fuel).0),
        is_silent(state, state.analyze_pattern_form(pattern, ty, fuel).0) ==> matches_the_same(
            state.types.definitions,
            pattern,
            ty,
            Pattern {
                kind: state.analyze_pattern_form(pattern, ty, fuel).1,
                ty,
                span: pattern.span,
            },
        ),
    decreases fuel, 4nat, List::<TypeField<'a>>::Nil,
{
    reveal(State::report);
    reveal(State::check_pattern_fields);
    let fields = named_fields_of(pattern);
    let path = path_of(pattern);
    paths_name_variants(state, ty, path);
    let variants = variants_in(state.types.definitions, ty)@;
    if let (_, Some((position, payload))) = state.resolve_pattern_variant(ty, path) {
        if let EnumVariantFields::Struct(declared) = payload {
            let checked = state.check_pattern_fields(fields, declared, ty, pattern.span);
            let (last, analyzed) = checked.analyze_declared_patterns(
                declared,
                fields,
                pattern.span,
                fuel,
            );
            fields_are_checked(state, fields, declared, ty, pattern.span);
            fields_match_what_is_written(checked, declared, fields, pattern.span, fuel);
            if is_silent(state, last) {
                let whole = Pattern {
                    kind: state.analyze_pattern_form(pattern, ty, fuel).1,
                    ty,
                    span: pattern.span,
                };
                let name = path.segments@.last().name@;
                assert(whole.kind == PatternKind::Enum { variant: position, fields: analyzed });
                assert forall|value: Datum| #[trigger]
                    admits(whole, value) == matches(
                        state.types.definitions,
                        pattern,
                        ty,
                        value,
                    ) by {
                    assert(all_admit(analyzed, value->fields) == fields_match(
                        state.types.definitions,
                        fields,
                        declared,
                        value->fields,
                    ));
                    if value is Variant && is_variant(variants, value->position, name) {
                        named_variants_are_one(variants, value->position, position, name);
                    }
                }
            }
        }
    }
}

spec fn named_fields_of(pattern: ast::Pattern) -> List<PatternField> {
    match *pattern.kind {
        ast::PatternKind::EnumStruct { fields, .. } => fields,
        _ => List::Nil,
    }
}

proof fn fields_are_checked<'a>(
    state: State<'a>,
    fields: List<PatternField<'a>>,
    declared: List<TypeField<'a>>,
    ty: Type,
    span: Span,
)
    ensures
        only_adds_problems(state, state.check_pattern_fields(fields, declared, ty, span)),
        is_silent(state, state.check_pattern_fields(fields, declared, ty, span)) ==> written_once(
            fields,
        ),
{
    reveal(State::check_pattern_fields);
    reveal(State::report);
    repeated_names_are_reported(state, fields, declared, List::Nil);
    repeated_names_are_reported(
        state.report(
            crate::span::helped(
                "E4005",
                crate::text::words("enum payload field is private to its defining module"),
                "match the variant without naming private fields",
                span,
            ),
        ),
        fields,
        declared,
        List::Nil,
    );
}

proof fn fields_match_what_is_written<'a>(
    state: State<'a>,
    declared: List<TypeField<'a>>,
    fields: List<PatternField<'a>>,
    span: Span,
    fuel: nat,
)
    requires
        countable(state.types.definitions),
    ensures
        ({
            let (after, analyzed) = state.analyze_declared_patterns(declared, fields, span, fuel);
            &&& only_adds_problems(state, after)
            &&& is_silent(state, after) && written_once(fields) ==> forall|values: List<Datum>|
                #[trigger] all_admit(analyzed, values) == fields_match(
                    state.types.definitions,
                    fields,
                    declared,
                    values,
                )
        }),
    decreases fuel, 3nat, declared,
{
    if declared is Cons {
        let (after, first) = state.analyze_field_pattern(fields, declared.first(), span, fuel);
        field_matches_what_is_written(state, fields, declared.first(), span, fuel);
        fields_match_what_is_written(after, declared.rest(), fields, span, fuel);
        let (last, rest) = after.analyze_declared_patterns(declared.rest(), fields, span, fuel);
        let analyzed = state.analyze_declared_patterns(declared, fields, span, fuel).1;
        assert(analyzed.first() == first && analyzed.rest() == rest);
        if is_silent(state, last) && written_once(fields) {
            assert forall|values: List<Datum>| #[trigger]
                all_admit(analyzed, values) == fields_match(
                    state.types.definitions,
                    fields,
                    declared,
                    values,
                ) by {
                if values is Cons {
                    assert(admits(first, values.first()) == field_matches(
                        state.types.definitions,
                        fields,
                        declared.first().name@,
                        declared.first().ty,
                        values.first(),
                    ));
                    assert(all_admit(rest, values.rest()) == fields_match(
                        state.types.definitions,
                        fields,
                        declared.rest(),
                        values.rest(),
                    ));
                }
            }
        }
    }
}

proof fn unwritten_names_match<'a>(
    definitions: Seq<TypeDefinition<'a>>,
    fields: List<PatternField<'a>>,
    name: Seq<char>,
    ty: Type,
    value: Datum,
)
    requires
        !has_name(fields, name),
    ensures
        field_matches(definitions, fields, name, ty, value),
    decreases fields,
{
    if fields is Cons {
        unwritten_names_match(definitions, fields.rest(), name, ty, value);
    }
}

proof fn patterns_are_named(fields: List<PatternField>, name: &str)
    ensures
        spec_has_pattern(fields, name) == has_name(fields, name@),
    decreases fields,
{
    reveal(spec_has_pattern);
    if fields is Cons {
        patterns_are_named(fields.rest(), name);
    }
}

proof fn field_matches_what_is_written<'a>(
    state: State<'a>,
    fields: List<PatternField<'a>>,
    declared: TypeField<'a>,
    span: Span,
    fuel: nat,
)
    requires
        countable(state.types.definitions),
    ensures
        ({
            let (after, analyzed) = state.analyze_field_pattern(fields, declared, span, fuel);
            &&& only_adds_problems(state, after)
            &&& is_silent(state, after) && written_once(fields) ==> forall|value: Datum|
                #[trigger] admits(analyzed, value) == field_matches(
                    state.types.definitions,
                    fields,
                    declared.name@,
                    declared.ty,
                    value,
                )
        }),
    decreases fuel, 2nat, fields,
{
    reveal(State::report);
    if fields is Cons {
        patterns_are_named(fields.rest(), declared.name);
        let first = fields.first();
        if first.name.name@ == declared.name@ && !spec_has_pattern(fields.rest(), declared.name) {
            pattern_matches_the_same(state, first.pattern, declared.ty, fuel);
            let (after, analyzed) = state.analyze_pattern_within(
                first.pattern,
                declared.ty,
                fuel,
            );
            assert forall|value: Datum| is_silent(state, after) implies #[trigger] admits(
                analyzed,
                value,
            ) == field_matches(
                state.types.definitions,
                fields,
                declared.name@,
                declared.ty,
                value,
            ) by {
                assert(admits(analyzed, value) == matches(
                    state.types.definitions,
                    first.pattern,
                    declared.ty,
                    value,
                ));
                unwritten_names_match(
                    state.types.definitions,
                    fields.rest(),
                    declared.name@,
                    declared.ty,
                    value,
                );
            }
        } else {
            field_matches_what_is_written(state, fields.rest(), declared, span, fuel);
            let (after, analyzed) = state.analyze_field_pattern(
                fields.rest(),
                declared,
                span,
                fuel,
            );
            assert forall|value: Datum|
                is_silent(state, after) && written_once(fields) implies #[trigger] admits(
                analyzed,
                value,
            ) == field_matches(
                state.types.definitions,
                fields,
                declared.name@,
                declared.ty,
                value,
            ) by {
                assert(admits(analyzed, value) == field_matches(
                    state.types.definitions,
                    fields.rest(),
                    declared.name@,
                    declared.ty,
                    value,
                ));
            }
        }
    }
}

} // verus!

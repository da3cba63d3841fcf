//! What the arms of a `match` cover.

use crate::analyzer::patterns::{
    spec_any_irrefutable, spec_covers_boolean, spec_covers_variant, spec_covers_variants,
};
use crate::analyzer::State;
use crate::hir::{all_irrefutable, irrefutable, EnumVariant, MatchArm, Pattern, PatternKind};
use crate::list::{cons, List};
use crate::types::Type;
use vstd::prelude::*;

verus! {

/// A value as patterns see it.
pub enum Datum {
    Truth(bool),
    Number(int),
    Character(char),
    /// A floating-point number of single precision, by its bits.
    Single(u32),
    /// A floating-point number of double precision, by its bits.
    Double(u64),
    Tuple(List<Datum>),
    Variant { position: u32, fields: List<Datum> },
    /// A value that no literal stands for.
    Other,
}

/// The number of a type that bits stand for: in two's complement where the type
/// has negative numbers.
pub open spec fn number_of(bits: u128, ty: Type) -> int {
    if ty.is_signed_integer() && bits >= 0x8000_0000_0000_0000_0000_0000_0000_0000 {
        bits - 0x1_0000_0000_0000_0000_0000_0000_0000_0000
    } else {
        bits as int
    }
}

/// Whether a pattern is one for values of the shape of a value.
pub open spec fn fits(pattern: Pattern, value: Datum) -> bool
    decreases pattern,
{
    match pattern.kind {
        PatternKind::Tuple(patterns) => value is Tuple && all_fit(patterns, value->Tuple_0),
        PatternKind::Boolean(_) => value is Truth,
        PatternKind::Enum { variant, fields } => value is Variant && (value->position == variant
            ==> all_fit(fields, value->fields)),
        _ => true,
    }
}

/// Whether patterns are ones for values of the shapes of values, one by one.
pub open spec fn all_fit(patterns: List<Pattern>, values: List<Datum>) -> bool
    decreases patterns,
{
    match patterns {
        List::Nil => values is Nil,
        List::Cons(node) => values is Cons && fits(node.head, values.first()) && all_fit(
            node.tail,
            values.rest(),
        ),
    }
}

/// Whether a pattern matches a value.
pub open spec fn admits(pattern: Pattern, value: Datum) -> bool
    decreases pattern,
{
    match pattern.kind {
        PatternKind::Wildcard => true,
        PatternKind::Binding { .. } => true,
        PatternKind::Boolean(truth) => value == Datum::Truth(truth),
        PatternKind::Integer(bits) => value == Datum::Number(number_of(bits, pattern.ty)),
        PatternKind::Character(character) => value == Datum::Character(character),
        PatternKind::Float32(bits) => value == Datum::Single(bits),
        PatternKind::Float64(bits) => value == Datum::Double(bits),
        PatternKind::Tuple(patterns) => value is Tuple && all_admit(patterns, value->Tuple_0),
        PatternKind::Enum { variant, fields } => value is Variant && value->position == variant
            && all_admit(fields, value->fields),
    }
}

/// Whether patterns match values, one by one.
pub open spec fn all_admit(patterns: List<Pattern>, values: List<Datum>) -> bool
    decreases patterns,
{
    match patterns {
        List::Nil => values is Nil,
        List::Cons(node) => values is Cons && admits(node.head, values.first()) && all_admit(
            node.tail,
            values.rest(),
        ),
    }
}

/// A pattern that cannot be refuted matches every value of its shape.
pub proof fn irrefutable_patterns_admit_everything(pattern: Pattern, value: Datum)
    requires
        irrefutable(pattern),
        fits(pattern, value),
    ensures
        admits(pattern, value),
    decreases pattern,
{
    match pattern.kind {
        PatternKind::Tuple(patterns) => {
            all_admit_everything(pattern.kind->Tuple_0, value->Tuple_0);
        },
        _ => {},
    }
}

proof fn all_admit_everything(patterns: List<Pattern>, values: List<Datum>)
    requires
        all_irrefutable(patterns),
        all_fit(patterns, values),
    ensures
        all_admit(patterns, values),
    decreases patterns,
{
    match patterns {
        List::Nil => {},
        List::Cons(_) => {
            irrefutable_patterns_admit_everything(patterns.first(), values.first());
            all_admit_everything(patterns.rest(), values.rest());
        },
    }
}

/// A value that a pattern is one for.
proof fn fitting_value(pattern: Pattern) -> (value: Datum)
    ensures
        fits(pattern, value),
    decreases pattern,
{
    match pattern.kind {
        PatternKind::Tuple(patterns) => Datum::Tuple(fitting_values(patterns)),
        PatternKind::Boolean(_) => Datum::Truth(true),
        PatternKind::Enum { variant, .. } => Datum::Variant {
            position: another_position(variant),
            fields: List::Nil,
        },
        _ => Datum::Other,
    }
}

/// Values that patterns are ones for.
proof fn fitting_values(patterns: List<Pattern>) -> (values: List<Datum>)
    ensures
        all_fit(patterns, values),
    decreases patterns,
{
    match patterns {
        List::Nil => List::Nil,
        List::Cons(_) => {
            let first = fitting_value(patterns.first());
            let rest = fitting_values(patterns.rest());
            cons(first, rest)
        },
    }
}

spec fn another_position(position: u32) -> u32 {
    if position == 0 {
        1
    } else {
        0
    }
}

/// A pattern that can be refuted misses some value of its shape.
pub proof fn refutable_patterns_miss_something(pattern: Pattern) -> (value: Datum)
    requires
        !irrefutable(pattern),
    ensures
        fits(pattern, value),
        !admits(pattern, value),
    decreases pattern,
{
    match pattern.kind {
        PatternKind::Tuple(patterns) => Datum::Tuple(some_miss_something(patterns)),
        PatternKind::Boolean(truth) => Datum::Truth(!truth),
        PatternKind::Enum { variant, .. } => Datum::Variant {
            position: another_position(variant),
            fields: List::Nil,
        },
        _ => Datum::Other,
    }
}

proof fn some_miss_something(patterns: List<Pattern>) -> (values: List<Datum>)
    requires
        !all_irrefutable(patterns),
    ensures
        all_fit(patterns, values),
        !all_admit(patterns, values),
    decreases patterns,
{
    match patterns {
        List::Nil => List::Nil,
        List::Cons(_) => if irrefutable(patterns.first()) {
            let first = fitting_value(patterns.first());
            let rest = some_miss_something(patterns.rest());
            cons(first, rest)
        } else {
            let first = refutable_patterns_miss_something(patterns.first());
            let rest = fitting_values(patterns.rest());
            cons(first, rest)
        },
    }
}

impl<'a> State<'a> {
    /// Whether a value is one of a type, as far as the patterns of a `match`
    /// look.
    pub open spec fn is_value(self, ty: Type, value: Datum) -> bool {
        match ty {
            Type::Never => false,
            Type::Bool => value is Truth,
            Type::Enum(_) => match self.enum_variants(ty) {
                Some(variants) => value is Variant && value->position < variants@.len(),
                None => false,
            },
            _ => true,
        }
    }
}

/// Whether an arm without a guard matches a value.
pub open spec fn is_covered(arms: Seq<MatchArm>, value: Datum) -> bool {
    exists|i: int|
        0 <= i < arms.len() && arms[i].guard is None && admits(
            (#[trigger] arms[i]).pattern,
            value,
        )
}

/// Whether the patterns of arms are ones for values of the shape of a value.
pub open spec fn arms_fit(arms: Seq<MatchArm>, value: Datum) -> bool {
    forall|i: int| 0 <= i < arms.len() ==> fits((#[trigger] arms[i]).pattern, value)
}

proof fn first_arm_covers<'a>(arms: List<MatchArm<'a>>, value: Datum)
    requires
        arms is Cons,
        arms.first().guard is None,
        admits(arms.first().pattern, value),
    ensures
        is_covered(arms@, value),
{
    assert(arms@ =~= seq![arms.first()] + arms.rest()@);
    assert(arms@[0] == arms.first());
}

proof fn later_arms_cover<'a>(arms: List<MatchArm<'a>>, value: Datum)
    requires
        arms is Cons,
        is_covered(arms.rest()@, value),
    ensures
        is_covered(arms@, value),
{
    assert(arms@ =~= seq![arms.first()] + arms.rest()@);
    let i = choose|i: int|
        0 <= i < arms.rest()@.len() && arms.rest()@[i].guard is None && admits(
            (#[trigger] arms.rest()@[i]).pattern,
            value,
        );
    assert(arms@[i + 1] == arms.rest()@[i]);
}

proof fn arms_split<'a>(arms: List<MatchArm<'a>>, value: Datum)
    requires
        arms is Cons,
        arms_fit(arms@, value),
    ensures
        fits(arms.first().pattern, value),
        arms_fit(arms.rest()@, value),
{
    assert(arms@ =~= seq![arms.first()] + arms.rest()@);
    assert(arms@[0] == arms.first());
    assert forall|i: int| 0 <= i < arms.rest()@.len() implies fits(
        (#[trigger] arms.rest()@[i]).pattern,
        value,
    ) by {
        assert(arms@[i + 1] == arms.rest()@[i]);
    }
}

proof fn catch_all_covers<'a>(arms: List<MatchArm<'a>>, value: Datum)
    requires
        spec_any_irrefutable(arms),
        arms_fit(arms@, value),
    ensures
        is_covered(arms@, value),
    decreases arms,
{
    reveal(spec_any_irrefutable);
    arms_split(arms, value);
    if arms.first().guard is None && irrefutable(arms.first().pattern) {
        irrefutable_patterns_admit_everything(arms.first().pattern, value);
        first_arm_covers(arms, value);
    } else {
        catch_all_covers(arms.rest(), value);
        later_arms_cover(arms, value);
    }
}

proof fn truth_is_covered<'a>(arms: List<MatchArm<'a>>, truth: bool)
    requires
        spec_covers_boolean(arms, truth),
    ensures
        is_covered(arms@, Datum::Truth(truth)),
    decreases arms,
{
    reveal(spec_covers_boolean);
    let first = arms.first();
    if first.guard is None && first.pattern.kind == PatternKind::Boolean(truth) {
        first_arm_covers(arms, Datum::Truth(truth));
    } else {
        truth_is_covered(arms.rest(), truth);
        later_arms_cover(arms, Datum::Truth(truth));
    }
}

proof fn variant_is_covered<'a>(arms: List<MatchArm<'a>>, value: Datum)
    requires
        value is Variant,
        spec_covers_variant(arms, value->position),
        arms_fit(arms@, value),
    ensures
        is_covered(arms@, value),
    decreases arms,
{
    reveal(spec_covers_variant);
    arms_split(arms, value);
    let first = arms.first();
    if first.guard is None && first.pattern.kind is Enum && first.pattern.kind->variant
        == value->position && all_irrefutable(first.pattern.kind->Enum_fields) {
        all_admit_everything(first.pattern.kind->Enum_fields, value->fields);
        first_arm_covers(arms, value);
    } else {
        variant_is_covered(arms.rest(), value);
        later_arms_cover(arms, value);
    }
}

proof fn each_variant_is_covered<'a>(
    arms: List<MatchArm<'a>>,
    variants: List<EnumVariant<'a>>,
    from: u32,
    position: u32,
)
    requires
        spec_covers_variants(arms, variants, from),
        from <= position < from + variants@.len(),
    ensures
        spec_covers_variant(arms, position),
    decreases variants,
{
    reveal(spec_covers_variants);
    assert(variants is Cons);
    assert(variants@ =~= seq![variants.first()] + variants.rest()@);
    if from < position {
        each_variant_is_covered(arms, variants.rest(), from.saturating_add(1), position);
    }
}

/// A `match` that is taken to be exhaustive leaves no value of its type out:
/// whatever the value, an arm without a guard matches it.
pub proof fn exhaustive_matches_leave_nothing_out<'a>(
    state: State<'a>,
    ty: Type,
    arms: List<MatchArm<'a>>,
    value: Datum,
)
    requires
        state.match_is_exhaustive(ty, arms),
        state.is_value(ty, value),
        arms_fit(arms@, value),
    ensures
        is_covered(arms@, value),
{
    reveal(State::match_is_exhaustive);
    if spec_any_irrefutable(arms) {
        catch_all_covers(arms, value);
    } else {
        match ty {
            Type::Bool => {
                truth_is_covered(arms, value->Truth_0);
            },
            Type::Enum(_) => {
                let variants = state.enum_variants(ty)->0;
                each_variant_is_covered(arms, variants, 0, value->position);
                variant_is_covered(arms, value);
            },
            _ => {},
        }
    }
}

} // verus!

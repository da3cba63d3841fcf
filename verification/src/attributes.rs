//! Annotations such as `@derive(Copy)` and what they ask for.

use crate::ast::{Attribute, AttributeArgument, Function, IntegerLiteral, TypeNameKind};
use crate::hir::{DerivedTrait, FunctionAttributes};
use crate::list::{append, cons, prepend, prepended, single, List};
use crate::span::{advised, helped, kept, Diagnostic};
use crate::text::{is_listed, listed, same, words, words3, Piece, Text};
use vstd::prelude::*;

verus! {

broadcast use {
    crate::list::pushed_comes_first,
    crate::span::group_kept,
};

/// Whether an annotation's arguments are the one identifier `argument`.
pub open spec fn only_identifier(arguments: List<AttributeArgument>, argument: Seq<char>) -> bool {
    match arguments {
        List::Cons(node) => node.tail is Nil && match node.head {
            AttributeArgument::Identifier(value) => value.name@ == argument,
            AttributeArgument::Integer(_) => false,
        },
        List::Nil => false,
    }
}

fn is_only_identifier(arguments: &List<AttributeArgument>, argument: &str) -> (answer: bool)
    ensures
        answer == only_identifier(*arguments, argument@),
{
    match arguments {
        List::Cons(node) => node.tail.is_empty() && match &node.head {
            AttributeArgument::Identifier(value) => same(value.name, argument),
            AttributeArgument::Integer(_) => false,
        },
        List::Nil => false,
    }
}

/// The one integer argument of an annotation.
pub open spec fn only_integer(arguments: List<AttributeArgument>) -> Option<IntegerLiteral> {
    match arguments {
        List::Cons(node) => match node.head {
            AttributeArgument::Integer(value) if node.tail is Nil => Some(value),
            _ => None,
        },
        List::Nil => None,
    }
}

fn single_integer(arguments: &List<AttributeArgument>) -> (value: Option<IntegerLiteral>)
    ensures
        value == only_integer(*arguments),
{
    match arguments {
        List::Cons(node) => match &node.head {
            AttributeArgument::Integer(value) => if node.tail.is_empty() {
                Some(*value)
            } else {
                None
            },
            _ => None,
        },
        List::Nil => None,
    }
}

/// Whether an annotation `@name(argument)` is among the attributes.
pub open spec fn annotated_with(
    attributes: List<Attribute>,
    name: Seq<char>,
    argument: Seq<char>,
) -> bool
    decreases attributes,
{
    match attributes {
        List::Nil => false,
        List::Cons(node) => (node.head.name.name@ == name && only_identifier(
            node.head.arguments,
            argument,
        )) || annotated_with(node.tail, name, argument),
    }
}

/// Whether an annotation `@name(argument)` is among the attributes.
pub fn has_identifier_attribute(
    attributes: &List<Attribute>,
    name: &str,
    argument: &str,
) -> (answer: bool)
    ensures
        answer == annotated_with(*attributes, name@, argument@),
{
    let mut ahead: &List<Attribute> = attributes;
    loop
        invariant
            annotated_with(*attributes, name@, argument@) == annotated_with(
                *ahead,
                name@,
                argument@,
            ),
        decreases *ahead,
    {
        match ahead {
            List::Nil => {
                return false;
            },
            List::Cons(node) => {
                if same(node.head.name.name, name) && is_only_identifier(
                    &node.head.arguments,
                    argument,
                ) {
                    return true;
                }
                ahead = &node.tail;
            },
        }
    }
}

/// Whether an annotation `@name` without arguments is among the attributes.
pub open spec fn marked(attributes: List<Attribute>, name: Seq<char>) -> bool
    decreases attributes,
{
    match attributes {
        List::Nil => false,
        List::Cons(node) => (node.head.name.name@ == name && node.head.arguments is Nil)
            || marked(node.tail, name),
    }
}

/// Whether an annotation `@name` without arguments is among the attributes.
pub fn has_marker_attribute(attributes: &List<Attribute>, name: &str) -> (answer: bool)
    ensures
        answer == marked(*attributes, name@),
{
    let mut ahead: &List<Attribute> = attributes;
    loop
        invariant
            marked(*attributes, name@) == marked(*ahead, name@),
        decreases *ahead,
    {
        match ahead {
            List::Nil => {
                return false;
            },
            List::Cons(node) => {
                if same(node.head.name.name, name) && node.head.arguments.is_empty() {
                    return true;
                }
                ahead = &node.tail;
            },
        }
    }
}

/// The alignment that the first usable `@align` asks for.
pub open spec fn alignment_request(attributes: List<Attribute>) -> Option<u32>
    decreases attributes,
{
    match attributes {
        List::Nil => None,
        List::Cons(node) => match only_integer(node.head.arguments) {
            Some(value) if node.head.name.name@ == "align"@ && value.value <= u32::MAX => Some(
                value.value as u32,
            ),
            _ => alignment_request(node.tail),
        },
    }
}

/// The alignment that the first usable `@align` asks for.
pub fn requested_alignment(attributes: &List<Attribute>) -> (alignment: Option<u32>)
    ensures
        alignment == alignment_request(*attributes),
{
    let mut ahead: &List<Attribute> = attributes;
    loop
        invariant
            alignment_request(*attributes) == alignment_request(*ahead),
        decreases *ahead,
    {
        match ahead {
            List::Nil => {
                return None;
            },
            List::Cons(node) => {
                if same(node.head.name.name, "align") {
                    if let Some(value) = single_integer(&node.head.arguments) {
                        if value.value <= u32::MAX as u128 {
                            return Some(value.value as u32);
                        }
                    }
                }
                ahead = &node.tail;
            },
        }
    }
}

/// The derivable trait of a name.
pub open spec fn derivable(name: Seq<char>) -> Option<DerivedTrait> {
    if name == "Copy"@ {
        Some(DerivedTrait::Copy)
    } else if name == "Clone"@ {
        Some(DerivedTrait::Clone)
    } else if name == "Debug"@ {
        Some(DerivedTrait::Debug)
    } else if name == "Eq"@ {
        Some(DerivedTrait::Eq)
    } else if name == "Hash"@ {
        Some(DerivedTrait::Hash)
    } else if name == "Default"@ {
        Some(DerivedTrait::Default)
    } else if name == "Pod"@ {
        Some(DerivedTrait::Pod)
    } else {
        None
    }
}

/// The derivable trait of a name.
pub fn derived_trait(name: &str) -> (derived: Option<DerivedTrait>)
    ensures
        derived == derivable(name@),
{
    if same(name, "Copy") {
        Some(DerivedTrait::Copy)
    } else if same(name, "Clone") {
        Some(DerivedTrait::Clone)
    } else if same(name, "Debug") {
        Some(DerivedTrait::Debug)
    } else if same(name, "Eq") {
        Some(DerivedTrait::Eq)
    } else if same(name, "Hash") {
        Some(DerivedTrait::Hash)
    } else if same(name, "Default") {
        Some(DerivedTrait::Default)
    } else if same(name, "Pod") {
        Some(DerivedTrait::Pod)
    } else {
        None
    }
}

/// Whether a trait is among the derived ones.
pub open spec fn derives_trait(derives: List<DerivedTrait>, derived: DerivedTrait) -> bool
    decreases derives,
{
    match derives {
        List::Nil => false,
        List::Cons(node) => node.head == derived || derives_trait(node.tail, derived),
    }
}

/// Whether a trait is among the derived ones.
pub fn contains_trait(derives: &List<DerivedTrait>, derived: DerivedTrait) -> (answer: bool)
    ensures
        answer == derives_trait(*derives, derived),
{
    let mut ahead: &List<DerivedTrait> = derives;
    loop
        invariant
            derives_trait(*derives, derived) == derives_trait(*ahead, derived),
        decreases *ahead,
    {
        match ahead {
            List::Nil => {
                return false;
            },
            List::Cons(node) => {
                if node.head == derived {
                    return true;
                }
                ahead = &node.tail;
            },
        }
    }
}

/// The list with the trait behind it, unless it is there already.
pub open spec fn with_trait(derives: List<DerivedTrait>, derived: DerivedTrait) -> List<
    DerivedTrait,
> {
    if derives_trait(derives, derived) {
        derives
    } else {
        append(derives, single(derived))
    }
}

fn append_trait(derives: &List<DerivedTrait>, derived: DerivedTrait) -> (longer: List<
    DerivedTrait,
>)
    ensures
        longer == append(*derives, single(derived)),
{
    let mut ahead: &List<DerivedTrait> = derives;
    let mut done: Vec<
    DerivedTrait,
> = Vec::new();
    loop
        invariant
            append(*derives, single(derived)) == prepended(done@, append(*ahead, single(derived))),
        decreases *ahead,
    {
        match ahead {
            List::Nil => {
                return prepend(done, single(derived));
            },
            List::Cons(node) => {
                done.push(node.head);
                ahead = &node.tail;
            },
        }
    }
}

fn and_trait(derives: List<DerivedTrait>, derived: DerivedTrait) -> (longer: List<DerivedTrait>)
    ensures
        longer == with_trait(derives, derived),
{
    if contains_trait(&derives, derived) {
        derives
    } else {
        append_trait(&derives, derived)
    }
}

/// The traits found so far with those that the arguments of one `@derive`
/// name, each once.
pub open spec fn traits_of_arguments(
    found: List<DerivedTrait>,
    arguments: List<AttributeArgument>,
) -> List<DerivedTrait>
    decreases arguments,
{
    match arguments {
        List::Nil => found,
        List::Cons(node) => traits_of_arguments(
            match node.head {
                AttributeArgument::Identifier(name) => match derivable(name.name@) {
                    Some(derived) => with_trait(found, derived),
                    None => found,
                },
                AttributeArgument::Integer(_) => found,
            },
            node.tail,
        ),
    }
}

fn collect_argument_traits(
    found: List<DerivedTrait>,
    arguments: &List<AttributeArgument>,
) -> (derives: List<DerivedTrait>)
    ensures
        derives == traits_of_arguments(found, *arguments),
{
    let mut ahead: &List<AttributeArgument> = arguments;
    let mut derives: List<DerivedTrait> = found;
    loop
        invariant
            traits_of_arguments(found, *arguments) == traits_of_arguments(derives, *ahead),
        decreases *ahead,
    {
        match ahead {
            List::Nil => {
                return derives;
            },
            List::Cons(node) => {
                derives = match &node.head {
                    AttributeArgument::Identifier(name) => match derived_trait(name.name) {
                        Some(derived) => and_trait(derives, derived),
                        None => derives,
                    },
                    AttributeArgument::Integer(_) => derives,
                };
                ahead = &node.tail;
            },
        }
    }
}

/// The traits found so far with those that every `@derive` names.
pub open spec fn traits_of_attributes(
    found: List<DerivedTrait>,
    attributes: List<Attribute>,
) -> List<DerivedTrait>
    decreases attributes,
{
    match attributes {
        List::Nil => found,
        List::Cons(node) => traits_of_attributes(
            if node.head.name.name@ == "derive"@ {
                traits_of_arguments(found, node.head.arguments)
            } else {
                found
            },
            node.tail,
        ),
    }
}

fn collect_attribute_traits(
    found: List<DerivedTrait>,
    attributes: &List<Attribute>,
) -> (derives: List<DerivedTrait>)
    ensures
        derives == traits_of_attributes(found, *attributes),
{
    let mut ahead: &List<Attribute> = attributes;
    let mut derives: List<DerivedTrait> = found;
    loop
        invariant
            traits_of_attributes(found, *attributes) == traits_of_attributes(derives, *ahead),
        decreases *ahead,
    {
        match ahead {
            List::Nil => {
                return derives;
            },
            List::Cons(node) => {
                derives = if same(node.head.name.name, "derive") {
                    collect_argument_traits(derives, &node.head.arguments)
                } else {
                    derives
                };
                ahead = &node.tail;
            },
        }
    }
}

/// The derived traits of a type: those that its annotations name, with `Clone`
/// where there is `Copy`, and both where there is `Pod`.
pub open spec fn derived_by(attributes: List<Attribute>) -> List<DerivedTrait> {
    let named = traits_of_attributes(List::Nil, attributes);
    let copied = if derives_trait(named, DerivedTrait::Copy) {
        with_trait(named, DerivedTrait::Clone)
    } else {
        named
    };
    if derives_trait(copied, DerivedTrait::Pod) && !derives_trait(copied, DerivedTrait::Copy) {
        with_trait(append(copied, single(DerivedTrait::Copy)), DerivedTrait::Clone)
    } else {
        copied
    }
}

/// The derived traits of a type: those that its annotations name, with `Clone`
/// where there is `Copy`, and both where there is `Pod`.
pub fn derived_traits(attributes: &List<Attribute>) -> (derives: List<DerivedTrait>)
    ensures
        derives == derived_by(*attributes),
{
    let named = collect_attribute_traits(List::Nil, attributes);
    let copied = if contains_trait(&named, DerivedTrait::Copy) {
        and_trait(named, DerivedTrait::Clone)
    } else {
        named
    };
    if contains_trait(&copied, DerivedTrait::Pod) && !contains_trait(&copied, DerivedTrait::Copy) {
        and_trait(append_trait(&copied, DerivedTrait::Copy), DerivedTrait::Clone)
    } else {
        copied
    }
}

proof fn lemma_added_trait_is_there(
    derives: List<DerivedTrait>,
    added: DerivedTrait,
    other: DerivedTrait,
)
    ensures
        derives_trait(append(derives, single(added)), other) == (other == added || derives_trait(
            derives,
            other,
        )),
    decreases derives,
{
    match derives {
        List::Nil => {
            reveal_with_fuel(derives_trait, 3);
        },
        List::Cons(_) => {
            lemma_added_trait_is_there(derives.rest(), added, other);
        },
    }
}

/// A type that derives `Copy` derives `Clone`, and one that derives `Pod`
/// derives both.
pub proof fn derived_copies_are_clones(attributes: List<Attribute>)
    ensures
        derives_trait(derived_by(attributes), DerivedTrait::Copy) ==> derives_trait(
            derived_by(attributes),
            DerivedTrait::Clone,
        ),
        derives_trait(derived_by(attributes), DerivedTrait::Pod) ==> derives_trait(
            derived_by(attributes),
            DerivedTrait::Copy,
        ),
{
    let named = traits_of_attributes(List::Nil, attributes);
    lemma_added_trait_is_there(named, DerivedTrait::Clone, DerivedTrait::Clone);
    lemma_added_trait_is_there(named, DerivedTrait::Clone, DerivedTrait::Copy);
    lemma_added_trait_is_there(named, DerivedTrait::Clone, DerivedTrait::Pod);
    let copied = if derives_trait(named, DerivedTrait::Copy) {
        with_trait(named, DerivedTrait::Clone)
    } else {
        named
    };
    lemma_added_trait_is_there(copied, DerivedTrait::Copy, DerivedTrait::Copy);
    lemma_added_trait_is_there(copied, DerivedTrait::Copy, DerivedTrait::Clone);
    let both = append(copied, single(DerivedTrait::Copy));
    lemma_added_trait_is_there(both, DerivedTrait::Clone, DerivedTrait::Clone);
    lemma_added_trait_is_there(both, DerivedTrait::Clone, DerivedTrait::Copy);
}

/// The names found so far with those of an argument list that are no
/// derivable traits, each once and in order.
pub open spec fn markers_of_arguments<'a>(
    found: List<&'a str>,
    arguments: List<AttributeArgument<'a>>,
) -> List<&'a str>
    decreases arguments,
{
    match arguments {
        List::Nil => found,
        List::Cons(node) => markers_of_arguments(
            match node.head {
                AttributeArgument::Identifier(name) => if derivable(name.name@) is None && !listed(
                    found,
                    name.name@,
                ) {
                    append(found, single(name.name))
                } else {
                    found
                },
                AttributeArgument::Integer(_) => found,
            },
            node.tail,
        ),
    }
}

fn append_name<'a>(names: &List<&'a str>, name: &'a str) -> (longer: List<&'a str>)
    ensures
        longer == append(*names, single(name)),
{
    let mut ahead: &List<&'a str> = names;
    let mut done: Vec<&'a str> = Vec::new();
    loop
        invariant
            append(*names, single(name)) == prepended(done@, append(*ahead, single(name))),
        decreases *ahead,
    {
        match ahead {
            List::Nil => {
                return prepend(done, single(name));
            },
            List::Cons(node) => {
                done.push(node.head);
                ahead = &node.tail;
            },
        }
    }
}

fn collect_argument_markers<'a>(
    found: List<&'a str>,
    arguments: &List<AttributeArgument<'a>>,
) -> (markers: List<&'a str>)
    ensures
        markers == markers_of_arguments(found, *arguments),
{
    let mut ahead: &List<AttributeArgument<'a>> = arguments;
    let mut markers: List<&'a str> = found;
    loop
        invariant
            markers_of_arguments(found, *arguments) == markers_of_arguments(markers, *ahead),
        decreases *ahead,
    {
        match ahead {
            List::Nil => {
                return markers;
            },
            List::Cons(node) => {
                markers = match &node.head {
                    AttributeArgument::Identifier(name) => if derived_trait(name.name).is_none()
                        && !is_listed(&markers, name.name) {
                        append_name(&markers, name.name)
                    } else {
                        markers
                    },
                    AttributeArgument::Integer(_) => markers,
                };
                ahead = &node.tail;
            },
        }
    }
}

/// The names found so far with those that every `@derive` names beside the
/// derivable traits.
pub open spec fn markers_of_attributes<'a>(
    found: List<&'a str>,
    attributes: List<Attribute<'a>>,
) -> List<&'a str>
    decreases attributes,
{
    match attributes {
        List::Nil => found,
        List::Cons(node) => markers_of_attributes(
            if node.head.name.name@ == "derive"@ {
                markers_of_arguments(found, node.head.arguments)
            } else {
                found
            },
            node.tail,
        ),
    }
}

fn collect_attribute_markers<'a>(
    found: List<&'a str>,
    attributes: &List<Attribute<'a>>,
) -> (markers: List<&'a str>)
    ensures
        markers == markers_of_attributes(found, *attributes),
{
    let mut ahead: &List<Attribute<'a>> = attributes;
    let mut markers: List<&'a str> = found;
    loop
        invariant
            markers_of_attributes(found, *attributes) == markers_of_attributes(markers, *ahead),
        decreases *ahead,
    {
        match ahead {
            List::Nil => {
                return markers;
            },
            List::Cons(node) => {
                markers = if same(node.head.name.name, "derive") {
                    collect_argument_markers(markers, &node.head.arguments)
                } else {
                    markers
                };
                ahead = &node.tail;
            },
        }
    }
}

/// The names of the marker traits that a type derives.
pub fn derived_marker_traits<'a>(attributes: &List<Attribute<'a>>) -> (markers: List<&'a str>)
    ensures
        markers == markers_of_attributes(List::Nil, *attributes),
{
    collect_attribute_markers(List::Nil, attributes)
}

/// What the annotations of a function ask for.
pub open spec fn asked_of_function(attributes: List<Attribute>) -> FunctionAttributes {
    FunctionAttributes {
        inline: marked(attributes, "inline"@),
        must_use: marked(attributes, "must_use"@),
        test: marked(attributes, "test"@),
    }
}

/// What the annotations of a function ask for.
pub fn function_attributes(function: &Function) -> (attributes: FunctionAttributes)
    ensures
        attributes == asked_of_function(function.attributes),
{
    FunctionAttributes {
        inline: has_marker_attribute(&function.attributes, "inline"),
        must_use: has_marker_attribute(&function.attributes, "must_use"),
        test: has_marker_attribute(&function.attributes, "test"),
    }
}

/// Names with commas between them.
pub open spec fn names_text<'a>(names: List<&'a str>) -> Text<'a>
    decreases names,
{
    match names {
        List::Nil => List::Nil,
        List::Cons(node) => if node.tail is Nil {
            words(node.head)
        } else {
            cons(Piece::Words(node.head), cons(Piece::Words(", "), names_text(node.tail)))
        },
    }
}

/// Names with commas between them.
pub fn show_names<'a>(names: &List<&'a str>) -> (text: Text<'a>)
    ensures
        text == names_text(*names),
{
    let mut ahead: &List<&'a str> = names;
    let mut done: Vec<Piece<'a>> = Vec::new();
    loop
        invariant
            names_text(*names) == prepended(done@, names_text(*ahead)),
        decreases *ahead,
    {
        match ahead {
            List::Nil => {
                return prepend(done, List::Nil);
            },
            List::Cons(node) => {
                if node.tail.is_empty() {
                    return prepend(done, words(node.head));
                }
                done.push(Piece::Words(node.head));
                done.push(Piece::Words(", "));
                ahead = &node.tail;
            },
        }
    }
}

/// The problems so far with those of unknown and repeated annotations.
pub open spec fn attribute_name_problems<'a>(
    problems: Seq<Diagnostic<'a>>,
    attributes: List<Attribute<'a>>,
    allowed: List<&'a str>,
    seen: List<&'a str>,
) -> Seq<Diagnostic<'a>>
    decreases attributes,
{
    match attributes {
        List::Nil => problems,
        List::Cons(node) => {
            let attribute = node.head;
            let problems = if !listed(allowed, attribute.name.name@) {
                problems.push(
                    advised(
                        "E7001",
                        words3("unknown attribute `@", attribute.name.name, "`"),
                        cons(
                            Piece::Words("supported attributes here: "),
                            names_text(allowed),
                        ),
                        attribute.span,
                    ),
                )
            } else {
                problems
            };
            let problems = if listed(seen, attribute.name.name@) {
                problems.push(
                    helped(
                        "E7001",
                        words3("attribute `@", attribute.name.name, "` is repeated"),
                        "keep one occurrence of each attribute",
                        attribute.span,
                    ),
                )
            } else {
                problems
            };
            attribute_name_problems(
                problems,
                node.tail,
                allowed,
                cons(attribute.name.name, seen),
            )
        },
    }
}

fn validate_attribute_names<'a>(
    attributes: &List<Attribute<'a>>,
    allowed: &List<&'a str>,
    seen: List<&'a str>,
    problems: &mut Vec<Diagnostic<'a>>,
)
    ensures
        final(problems)@ == attribute_name_problems(old(problems)@, *attributes, *allowed, seen),
        kept(old(problems)@, final(problems)@),
{
    let mut ahead: &List<Attribute<'a>> = attributes;
    let mut current_seen: List<&'a str> = seen;
    loop
        invariant
            attribute_name_problems(
                old(problems)@,
                *attributes,
                *allowed,
                seen,
            ) == attribute_name_problems(
                problems@,
                *ahead,
                *allowed,
                current_seen,
            ),
            kept(old(problems)@, problems@),
        decreases *ahead,
    {
        match ahead {
            List::Nil => {
                return ;
            },
            List::Cons(node) => {
                let attribute = &node.head;
                if !is_listed(allowed, attribute.name.name) {
                    problems.push(
                        advised(
                            "E7001",
                            words3("unknown attribute `@", attribute.name.name, "`"),
                            cons(
                                Piece::Words("supported attributes here: "),
                                show_names(allowed),
                            ),
                            attribute.span,
                        ),
                    );
                }
                if is_listed(&current_seen, attribute.name.name) {
                    problems.push(
                        helped(
                            "E7001",
                            words3("attribute `@", attribute.name.name, "` is repeated"),
                            "keep one occurrence of each attribute",
                            attribute.span,
                        ),
                    );
                }
                current_seen = cons(attribute.name.name, current_seen);
                ahead = &node.tail;
            },
        }
    }
}

/// The annotations that a function can have.
pub open spec fn function_annotations<'a>() -> List<&'a str> {
    cons("inline", cons("test", single("must_use")))
}

/// The annotations that a type can have.
pub open spec fn type_annotations<'a>() -> List<&'a str> {
    cons("repr", cons("derive", cons("align", single("must_use"))))
}

/// The problems so far with those of function annotations that have arguments.
pub open spec fn marker_argument_problems<'a>(
    problems: Seq<Diagnostic<'a>>,
    attributes: List<Attribute<'a>>,
) -> Seq<Diagnostic<'a>>
    decreases attributes,
{
    match attributes {
        List::Nil => problems,
        List::Cons(node) => {
            let name = node.head.name.name;
            let problems = if (name@ == "inline"@ || name@ == "test"@ || name@ == "must_use"@)
                && !(node.head.arguments is Nil) {
                problems.push(
                    advised(
                        "E7001",
                        words3("`@", name, "` does not accept arguments"),
                        words3("write `@", name, "`"),
                        node.head.span,
                    ),
                )
            } else {
                problems
            };
            marker_argument_problems(problems, node.tail)
        },
    }
}

fn check_marker_arguments<'a>(
    attributes: &List<Attribute<'a>>,
    problems: &mut Vec<Diagnostic<'a>>,
)
    ensures
        final(problems)@ == marker_argument_problems(old(problems)@, *attributes),
        kept(old(problems)@, final(problems)@),
{
    let mut ahead: &List<Attribute<'a>> = attributes;
    loop
        invariant
            marker_argument_problems(old(problems)@, *attributes) == marker_argument_problems(
                problems@,
                *ahead,
            ),
            kept(old(problems)@, problems@),
        decreases *ahead,
    {
        match ahead {
            List::Nil => {
                return ;
            },
            List::Cons(node) => {
                let name = node.head.name.name;
                if (same(name, "inline") || same(name, "test") || same(name, "must_use"))
                    && !node.head.arguments.is_empty() {
                    problems.push(
                        advised(
                            "E7001",
                            words3("`@", name, "` does not accept arguments"),
                            words3("write `@", name, "`"),
                            node.head.span,
                        ),
                    );
                }
                ahead = &node.tail;
            },
        }
    }
}

/// The problems so far with those of a `@test` function that is no test.
pub open spec fn test_problems<'a>(
    problems: Seq<Diagnostic<'a>>,
    function: Function<'a>,
) -> Seq<Diagnostic<'a>> {
    let problems = if function.is_comptime {
        problems.push(
            helped(
                "E7002",
                words("`@test` cannot be combined with `comptime fn`"),
                "make the function a runtime test or remove `@test`",
                function.span,
            ),
        )
    } else {
        problems
    };
    let problems = if !(function.generic_parameters is Nil) || !(function.parameters is Nil) {
        problems.push(
            helped(
                "E7002",
                words("`@test` functions cannot have generic or value parameters"),
                "move test data into the function body",
                function.span,
            ),
        )
    } else {
        problems
    };
    match function.return_type {
        Some(ty) if !(*ty.kind is Unit) => problems.push(
            helped(
                "E7002",
                words("`@test` functions must return `()`"),
                "remove the return annotation or write `-> ()`",
                ty.span,
            ),
        ),
        _ => problems,
    }
}

fn check_test<'a>(function: &Function<'a>, problems: &mut Vec<Diagnostic<'a>>)
    ensures
        final(problems)@ == test_problems(old(problems)@, *function),
        kept(old(problems)@, final(problems)@),
{
    if function.is_comptime {
        problems.push(
            helped(
                "E7002",
                words("`@test` cannot be combined with `comptime fn`"),
                "make the function a runtime test or remove `@test`",
                function.span,
            ),
        );
    }
    if !function.generic_parameters.is_empty() || !function.parameters.is_empty() {
        problems.push(
            helped(
                "E7002",
                words("`@test` functions cannot have generic or value parameters"),
                "move test data into the function body",
                function.span,
            ),
        );
    }
    if let Some(ty) = &function.return_type {
        let returns_unit = match &*ty.kind {
            TypeNameKind::Unit => true,
            _ => false,
        };
        if !returns_unit {
            problems.push(
                helped(
                    "E7002",
                    words("`@test` functions must return `()`"),
                    "remove the return annotation or write `-> ()`",
                    ty.span,
                ),
            );
        }
    }
}

/// The problems so far with those of a function's annotations.
pub open spec fn function_attribute_problems<'a>(
    problems: Seq<Diagnostic<'a>>,
    function: Function<'a>,
) -> Seq<Diagnostic<'a>> {
    let problems = attribute_name_problems(
        problems,
        function.attributes,
        function_annotations(),
        List::Nil,
    );
    let problems = marker_argument_problems(problems, function.attributes);
    let problems = if marked(function.attributes, "test"@) {
        test_problems(problems, function)
    } else {
        problems
    };
    if function.is_comptime && marked(function.attributes, "inline"@) {
        problems.push(
            helped(
                "E7002",
                words("`@inline` has no meaning on a `comptime fn`"),
                "remove `@inline` from the compile-time function",
                function.span,
            ),
        )
    } else {
        problems
    }
}

/// Reports what is wrong with a function's annotations.
pub fn validate_function_attributes<'a>(
    function: &Function<'a>,
    problems: &mut Vec<Diagnostic<'a>>,
)
    ensures
        final(problems)@ == function_attribute_problems(old(problems)@, *function),
        kept(old(problems)@, final(problems)@),
{
    let allowed = cons("inline", cons("test", single("must_use")));
    validate_attribute_names(&function.attributes, &allowed, List::Nil, problems);
    check_marker_arguments(&function.attributes, problems);
    if has_marker_attribute(&function.attributes, "test") {
        check_test(function, problems);
    }
    if function.is_comptime && has_marker_attribute(&function.attributes, "inline") {
        problems.push(
            helped(
                "E7002",
                words("`@inline` has no meaning on a `comptime fn`"),
                "remove `@inline` from the compile-time function",
                function.span,
            ),
        );
    }
}

/// The problems so far with those of the names in one `@derive`.
pub open spec fn derive_name_problems<'a>(
    problems: Seq<Diagnostic<'a>>,
    arguments: List<AttributeArgument<'a>>,
    seen: List<&'a str>,
) -> Seq<Diagnostic<'a>>
    decreases arguments,
{
    match arguments {
        List::Nil => problems,
        List::Cons(node) => match node.head {
            AttributeArgument::Integer(value) => derive_name_problems(
                problems.push(
                    helped(
                        "E7004",
                        words("derive names must be identifiers"),
                        "choose a built-in structural derive or an imported zero-method marker trait",
                        value.span,
                    ),
                ),
                node.tail,
                seen,
            ),
            AttributeArgument::Identifier(name) => derive_name_problems(
                if listed(seen, name.name@) {
                    problems.push(
                        helped(
                            "E7004",
                            words3("derive `", name.name, "` is repeated"),
                            "list each derive once",
                            name.span,
                        ),
                    )
                } else {
                    problems
                },
                node.tail,
                cons(name.name, seen),
            ),
        },
    }
}

fn check_derive_names<'a>(
    arguments: &List<AttributeArgument<'a>>,
    seen: List<&'a str>,
    problems: &mut Vec<Diagnostic<'a>>,
)
    ensures
        final(problems)@ == derive_name_problems(old(problems)@, *arguments, seen),
        kept(old(problems)@, final(problems)@),
{
    let mut ahead: &List<AttributeArgument<'a>> = arguments;
    let mut current_seen: List<&'a str> = seen;
    loop
        invariant
            derive_name_problems(old(problems)@, *arguments, seen) == derive_name_problems(
                problems@,
                *ahead,
                current_seen,
            ),
            kept(old(problems)@, problems@),
        decreases *ahead,
    {
        match ahead {
            List::Nil => {
                return ;
            },
            List::Cons(node) => {
                match &node.head {
                    AttributeArgument::Integer(value) => {
                        problems.push(
                            helped(
                                "E7004",
                                words("derive names must be identifiers"),
                                "choose a built-in structural derive or an imported zero-method marker trait",
                                value.span,
                            ),
                        );
                        ahead = &node.tail;
                    },
                    AttributeArgument::Identifier(name) => {
                        if is_listed(&current_seen, name.name) {
                            problems.push(
                                helped(
                                    "E7004",
                                    words3("derive `", name.name, "` is repeated"),
                                    "list each derive once",
                                    name.span,
                                ),
                            );
                        }
                        current_seen = cons(name.name, current_seen);
                        ahead = &node.tail;
                    },
                }
            },
        }
    }
}

/// The problems so far with those of one `@derive`.
pub open spec fn derive_problems<'a>(
    problems: Seq<Diagnostic<'a>>,
    attribute: Attribute<'a>,
) -> Seq<Diagnostic<'a>> {
    if attribute.arguments is Nil {
        problems.push(
            helped(
                "E7004",
                words("`@derive` needs at least one trait"),
                "choose a built-in structural derive or an imported zero-method marker trait",
                attribute.span,
            ),
        )
    } else {
        derive_name_problems(problems, attribute.arguments, List::Nil)
    }
}

fn validate_derive_attribute<'a>(attribute: &Attribute<'a>, problems: &mut Vec<Diagnostic<'a>>)
    ensures
        final(problems)@ == derive_problems(old(problems)@, *attribute),
        kept(old(problems)@, final(problems)@),
{
    if attribute.arguments.is_empty() {
        problems.push(
            helped(
                "E7004",
                words("`@derive` needs at least one trait"),
                "choose a built-in structural derive or an imported zero-method marker trait",
                attribute.span,
            ),
        );
        return;
    }
    check_derive_names(&attribute.arguments, List::Nil, problems);
}

/// The largest alignment that can be asked for.
pub const LARGEST_ALIGNMENT: u32 = 536_870_912;

/// Whether an alignment can be asked for: a power of two up to the largest.
pub open spec fn usable_alignment(alignment: u32) -> bool {
    alignment != 0 && alignment & ((alignment - 1) as u32) == 0 && alignment <= LARGEST_ALIGNMENT
}

/// The problems so far with those of one `@align`.
pub open spec fn align_problems<'a>(
    problems: Seq<Diagnostic<'a>>,
    attribute: Attribute<'a>,
) -> Seq<Diagnostic<'a>> {
    match only_integer(attribute.arguments) {
        None => problems.push(
            helped(
                "E7005",
                words("`@align` expects exactly one integer"),
                "write a power of two such as `@align(16)`",
                attribute.span,
            ),
        ),
        Some(value) => if value.value > u32::MAX {
            problems.push(
                helped(
                    "E7005",
                    words("requested alignment is too large"),
                    "use a power of two no larger than 536870912",
                    value.span,
                ),
            )
        } else if !usable_alignment(value.value as u32) {
            problems.push(
                helped(
                    "E7005",
                    words("alignment must be a power of two no larger than 536870912"),
                    "use 1, 2, 4, 8, 16, or another supported power of two",
                    value.span,
                ),
            )
        } else {
            problems
        },
    }
}

fn validate_align_attribute<'a>(attribute: &Attribute<'a>, problems: &mut Vec<Diagnostic<'a>>)
    ensures
        final(problems)@ == align_problems(old(problems)@, *attribute),
        kept(old(problems)@, final(problems)@),
{
    let value = match single_integer(&attribute.arguments) {
        Some(value) => value,
        None => {
            problems.push(
                helped(
                    "E7005",
                    words("`@align` expects exactly one integer"),
                    "write a power of two such as `@align(16)`",
                    attribute.span,
                ),
            );
            return;
        },
    };
    if value.value > u32::MAX as u128 {
        problems.push(
            helped(
                "E7005",
                words("requested alignment is too large"),
                "use a power of two no larger than 536870912",
                value.span,
            ),
        );
        return;
    }
    let alignment: u32 = value.value as u32;
    if alignment == 0 || alignment & (alignment - 1) != 0 || alignment > LARGEST_ALIGNMENT {
        problems.push(
            helped(
                "E7005",
                words("alignment must be a power of two no larger than 536870912"),
                "use 1, 2, 4, 8, 16, or another supported power of two",
                value.span,
            ),
        );
    }
}

/// The problems so far with those of one annotation of a type.
pub open spec fn type_attribute_problem<'a>(
    problems: Seq<Diagnostic<'a>>,
    attribute: Attribute<'a>,
    is_enum: bool,
) -> Seq<Diagnostic<'a>> {
    let name = attribute.name.name@;
    if name == "repr"@ {
        let problems = if is_enum {
            problems.push(
                helped(
                    "E7003",
                    words("`@repr(C)` is currently valid only on structs"),
                    "wrap the enum in a C-representation struct at the FFI boundary",
                    attribute.span,
                ),
            )
        } else {
            problems
        };
        if !only_identifier(attribute.arguments, "C"@) {
            problems.push(
                helped(
                    "E7003",
                    words("`@repr` expects the single representation `C`"),
                    "write `@repr(C)`",
                    attribute.span,
                ),
            )
        } else {
            problems
        }
    } else if name == "derive"@ {
        derive_problems(problems, attribute)
    } else if name == "align"@ {
        align_problems(problems, attribute)
    } else if name == "must_use"@ && !(attribute.arguments is Nil) {
        problems.push(
            helped(
                "E7001",
                words("`@must_use` does not accept arguments"),
                "write `@must_use`",
                attribute.span,
            ),
        )
    } else {
        problems
    }
}

fn check_type_attribute<'a>(
    attribute: &Attribute<'a>,
    is_enum: bool,
    problems: &mut Vec<Diagnostic<'a>>,
)
    ensures
        final(problems)@ == type_attribute_problem(old(problems)@, *attribute, is_enum),
        kept(old(problems)@, final(problems)@),
{
    let name = attribute.name.name;
    if same(name, "repr") {
        if is_enum {
            problems.push(
                helped(
                    "E7003",
                    words("`@repr(C)` is currently valid only on structs"),
                    "wrap the enum in a C-representation struct at the FFI boundary",
                    attribute.span,
                ),
            );
        }
        if !is_only_identifier(&attribute.arguments, "C") {
            problems.push(
                helped(
                    "E7003",
                    words("`@repr` expects the single representation `C`"),
                    "write `@repr(C)`",
                    attribute.span,
                ),
            );
        }
    } else if same(name, "derive") {
        validate_derive_attribute(attribute, problems);
    } else if same(name, "align") {
        validate_align_attribute(attribute, problems);
    } else if same(name, "must_use") && !attribute.arguments.is_empty() {
        problems.push(
            helped(
                "E7001",
                words("`@must_use` does not accept arguments"),
                "write `@must_use`",
                attribute.span,
            ),
        );
    }
}

/// The problems so far with those of each annotation of a type.
pub open spec fn each_type_attribute_problem<'a>(
    problems: Seq<Diagnostic<'a>>,
    attributes: List<Attribute<'a>>,
    is_enum: bool,
) -> Seq<Diagnostic<'a>>
    decreases attributes,
{
    match attributes {
        List::Nil => problems,
        List::Cons(node) => each_type_attribute_problem(
            type_attribute_problem(problems, node.head, is_enum),
            node.tail,
            is_enum,
        ),
    }
}

fn check_type_attributes<'a>(
    attributes: &List<Attribute<'a>>,
    is_enum: bool,
    problems: &mut Vec<Diagnostic<'a>>,
)
    ensures
        final(problems)@ == each_type_attribute_problem(old(problems)@, *attributes, is_enum),
        kept(old(problems)@, final(problems)@),
{
    let mut ahead: &List<Attribute<'a>> = attributes;
    loop
        invariant
            each_type_attribute_problem(
                old(problems)@,
                *attributes,
                is_enum,
            ) == each_type_attribute_problem(
                problems@,
                *ahead,
                is_enum,
            ),
            kept(old(problems)@, problems@),
        decreases *ahead,
    {
        match ahead {
            List::Nil => {
                return ;
            },
            List::Cons(node) => {
                check_type_attribute(&node.head, is_enum, problems);
                ahead = &node.tail;
            },
        }
    }
}

/// The problems so far with those of a type's annotations.
pub open spec fn type_attribute_problems<'a>(
    problems: Seq<Diagnostic<'a>>,
    attributes: List<Attribute<'a>>,
    is_enum: bool,
) -> Seq<Diagnostic<'a>> {
    each_type_attribute_problem(
        attribute_name_problems(problems, attributes, type_annotations(), List::Nil),
        attributes,
        is_enum,
    )
}

/// Reports what is wrong with a type's annotations.
pub fn validate_type_attributes<'a>(
    attributes: &List<Attribute<'a>>,
    is_enum: bool,
    problems: &mut Vec<Diagnostic<'a>>,
)
    ensures
        final(problems)@ == type_attribute_problems(old(problems)@, *attributes, is_enum),
        kept(old(problems)@, final(problems)@),
{
    let allowed = cons("repr", cons("derive", cons("align", single("must_use"))));
    validate_attribute_names(attributes, &allowed, List::Nil, problems);
    check_type_attributes(attributes, is_enum, problems);
}

} // verus!

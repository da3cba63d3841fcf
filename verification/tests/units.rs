//! The smaller parts of the analyzer.

use reimer::ast::{
    Attribute, AttributeArgument, GenericArgument, Identifier, Path, TypeName, TypeNameKind,
};
use reimer::attributes::{contains_trait, derived_marker_traits, derived_traits};
use reimer::comptime::Value;
use reimer::generics::{find, with};
use reimer::hir::{DerivedTrait, TypeDefinitionKind};
use reimer::list::{cons, prepend, single, List};
use reimer::numbers::{
    integer_minimum_magnitude, integer_positive_maximum, is_valid_cast, string_format_method,
};
use reimer::registry::reflection::{measured, Answer};
use reimer::registry::TypeRegistry;
use reimer::span::Span;
use reimer::text::{
    frame, has_nul, joined, number, precedes, reads, reads_alike, same, show, words, words3, Piece,
};
use reimer::types::{Platform, Type};
use std::rc::Rc;

fn at(start: usize) -> Span {
    Span { start, end: start + 1 }
}

fn registry() -> TypeRegistry<'static> {
    TypeRegistry::new(Platform { char_is_unsigned: false, long_is_narrow: false }, List::Nil)
}

#[test]
fn texts_read_as_their_pieces_in_a_row() {
    let text = joined(&words3("a", "b", "c"), joined(&number(42), words("d")));
    assert_eq!(show(&text), "abc42d");
    assert!(reads(&text, "abc42d"));
    assert!(!reads(&text, "abc42"));
    assert!(reads_alike(&words3("a", "b", "c"), &words("abc")));
    assert!(!reads_alike(&words("ab"), &words("abc")));
    assert_eq!(show(&frame("`", &text, "`")), "`abc42d`");
    assert_eq!(show(&number(u128::MAX)), "340282366920938463463374607431768211455");
    assert!(has_nul(&words("a\0b")));
    assert!(!has_nul(&words("ab")));
}

#[test]
fn names_are_compared_by_their_characters() {
    assert!(same("name", "name"));
    assert!(!same("name", "names"));
    assert!(precedes("a", "b"));
    assert!(precedes("a", "aa"));
    assert!(!precedes("a", "a"));
    assert!(precedes("Z", "a"));
}

#[test]
fn newest_entries_are_found_first() {
    let entries = with("a", 1, with("b", 2, List::Nil));
    assert_eq!(find(&entries, "a"), Some(&1));
    let more = with("a", 3, entries);
    assert_eq!(find(&more, "a"), Some(&3));
    assert_eq!(find(&more, "b"), Some(&2));
    assert_eq!(find(&more, "c"), None);
}

#[test]
fn integers_have_the_ranges_of_their_types() {
    assert_eq!(integer_positive_maximum(Type::I8), 127);
    assert_eq!(integer_positive_maximum(Type::U8), 255);
    assert_eq!(integer_positive_maximum(Type::U64), u64::MAX as u128);
    assert_eq!(integer_minimum_magnitude(Type::I8), 128);
    assert_eq!(integer_minimum_magnitude(Type::I64), 1u128 << 63);
    assert_eq!(integer_minimum_magnitude(Type::Bool), 0);
}

#[test]
fn scalars_are_cast_to_scalars() {
    assert!(is_valid_cast(Type::I32, Type::F64));
    assert!(is_valid_cast(Type::I32, Type::I32));
    assert!(!is_valid_cast(Type::Str, Type::I32));
    assert_eq!(string_format_method(Type::I32), Some("push_i32"));
    assert_eq!(string_format_method(Type::Unit), None);
}

#[test]
fn composite_types_are_registered_once() {
    let mut types = registry();
    let pair = types.intern_tuple(cons(Type::I32, single(Type::Bool)), at(0)).unwrap();
    let values = types.intern_array(Type::I32, 3, at(1)).unwrap();
    assert_eq!(types.intern_tuple(cons(Type::I32, single(Type::Bool)), at(2)), Some(pair));
    assert_eq!(types.intern_array(Type::I32, 3, at(3)), Some(values));
    assert_ne!(types.intern_array(Type::I32, 4, at(4)), Some(values));
    let shared = types.intern_reference(values, false, at(5)).unwrap();
    assert_ne!(types.intern_reference(values, true, at(6)), Some(shared));
    assert_eq!(types.definition(pair).unwrap().span, at(0));
    assert!(matches!(
        types.definition(values).unwrap().kind,
        TypeDefinitionKind::Array { element: Type::I32, length: 3 }
    ));
    assert!(types.definition(Type::I32).is_none());
}

fn derive(name: &'static str) -> List<Attribute<'static>> {
    let identifier = |name: &'static str| Identifier { name, span: at(0) };
    single(Attribute {
        name: identifier("derive"),
        arguments: single(AttributeArgument::Identifier(identifier(name))),
        span: at(0),
    })
}

#[test]
fn derived_copies_are_derived_clones() {
    let pod = derived_traits(&derive("Pod"));
    assert!(contains_trait(&pod, DerivedTrait::Pod));
    assert!(contains_trait(&pod, DerivedTrait::Copy));
    assert!(contains_trait(&pod, DerivedTrait::Clone));
    let copy = derived_traits(&derive("Copy"));
    assert!(contains_trait(&copy, DerivedTrait::Clone));
    assert!(!contains_trait(&copy, DerivedTrait::Pod));
    let clone = derived_traits(&derive("Clone"));
    assert!(!contains_trait(&clone, DerivedTrait::Copy));
    assert!(derived_traits(&List::Nil).is_empty());
    assert!(derived_marker_traits(&List::Nil).is_empty());
}

#[test]
fn lists_are_counted_and_shared() {
    let numbers = List::from_vec(vec![1, 2, 3]);
    assert_eq!(numbers.count(), 3);
    assert!(!numbers.is_empty());
    assert_eq!(numbers.share().count(), 3);
    assert_eq!(List::<u8>::Nil.count(), 0);
}

#[test]
fn long_lists_need_no_deep_stack() {
    let numbers = List::from_vec((0..1_000_000_u32).collect());
    assert_eq!(numbers.count(), 1_000_000);
    let shared = numbers.share();
    drop(numbers);
    assert_eq!(shared.count(), 1_000_000);
    let text = joined(&List::from_vec((0..200_000_u128).map(|_| words_piece()).collect()), words("!"));
    assert_eq!(show(&text).len(), 200_001);
    assert_eq!(prepend(vec![1, 2], single(3)).count(), 3);
}

fn words_piece() -> Piece<'static> {
    Piece::Words("a")
}

#[test]
fn written_types_stand_for_one_type() {
    let mut types = registry();
    let environment = types.base_environment();
    let GenericArgument::Type(element) = named("i32") else { unreachable!() };
    let GenericArgument::Type(other) = named("bool") else { unreachable!() };
    let pair = TypeName {
        kind: Rc::new(TypeNameKind::Tuple(cons(element, single(other)))),
        span: at(0),
    };
    let kind = Rc::new(TypeNameKind::Reference { mutable: false, target: pair });
    let written = TypeName { kind, span: at(1) };
    let first = types.resolve_type_name_in(&written, &environment);
    let known = types.definitions.len();
    assert!(first.is_some());
    assert_eq!(types.resolve_type_name_in(&written, &environment), first);
    assert_eq!(types.definitions.len(), known);
    assert!(types.definitions.iter().all(|definition| definition.documentation.is_none()));
}

fn path(names: Vec<&'static str>) -> Path<'static> {
    let segments = names.into_iter().map(|name| Identifier { name, span: at(0) });
    Path { segments: List::from_vec(segments.collect()), span: at(0) }
}

fn named(name: &'static str) -> GenericArgument<'static> {
    let kind = Rc::new(TypeNameKind::Path(path(vec![name])));
    GenericArgument::Type(TypeName { kind, span: at(0) })
}

fn ask(question: Vec<&'static str>, argument: &'static str) -> Answer<'static> {
    registry().reflect(&path(question), &single(named(argument)), &List::Nil)
}

#[test]
fn questions_about_types_are_answered() {
    match ask(vec!["meta", "name"], "i32") {
        Answer::Value(Value::String(name)) => assert_eq!(show(&name), "i32"),
        _ => panic!("the type should have a name"),
    }
    assert!(matches!(
        ask(vec!["align_of"], "u64"),
        Answer::Measure { ty: Type::U64, alignment: true }
    ));
    assert!(matches!(
        ask(vec!["size_of"], "u64"),
        Answer::Measure { ty: Type::U64, alignment: false }
    ));
    assert!(matches!(ask(vec!["unknown"], "i32"), Answer::NotFound));
    match ask(vec!["meta", "fields"], "i32") {
        Answer::Error { message, .. } => {
            assert_eq!(show(&message), "type `i32` does not have fields")
        }
        _ => panic!("a number should have no fields"),
    }
    match ask(vec!["meta", "name"], "Missing") {
        Answer::Error { message, .. } => assert_eq!(show(&message), "unknown type `Missing`"),
        _ => panic!("the type should be unknown"),
    }
}

#[test]
fn measures_come_from_layouts() {
    let magnitude = |answer: Answer<'static>| match answer {
        Answer::Value(Value::Integer { negative: false, magnitude }) => magnitude,
        _ => panic!("the type should have a measure"),
    };
    assert_eq!(magnitude(measured(false, Ok((12, 4)))), 12);
    assert_eq!(magnitude(measured(true, Ok((12, 4)))), 4);
    match measured(true, Err("the layout is infinite")) {
        Answer::Error { message, help } => {
            assert_eq!(show(&message), "the layout is infinite");
            assert_eq!(help, "use a finite type with a valid native layout");
        }
        _ => panic!("the type should have no measure"),
    }
}

#[test]
fn composite_types_are_as_capable_as_their_parts() {
    let mut types = registry();
    let pointer = types.intern_raw_pointer(Type::U8, false, at(0)).unwrap();
    let plain = types.intern_tuple(cons(Type::I32, single(Type::Bool)), at(1)).unwrap();
    let mixed = types.intern_tuple(cons(Type::I32, single(pointer)), at(2)).unwrap();
    assert!(types.is_default_capable(plain));
    assert!(!types.is_default_capable(mixed));
    assert!(types.is_debug_capable(plain));
    assert!(types.is_equality_capable(plain));
    assert!(types.is_equality_capable(Type::I32));
    assert!(!types.is_pod_capable(Type::Bool));
}

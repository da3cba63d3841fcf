//! What a program can ask about its types at compile time.

use crate::ast::{GenericArgument, Path, TraitDeclaration, TypeName};
use crate::comptime::{Property, Value};
use crate::generics::{Entry, Environment};
use crate::hir::{EnumVariant, TypeDefinitionKind, TypeField};
use crate::list::{append, cons, extend, prepend, prepended, single, List};
use crate::registry::naming::{only_type_argument, one_type_argument, resolved};
use crate::registry::{TypeRegistry, Types, LIMIT};
use crate::span::Diagnostic;
use crate::text::{
    characters, frame, framed, joined, number, precedes, reads, same, words, Piece, Text,
};
use crate::types::Type;
use std::rc::Rc;
use vstd::prelude::*;

verus! {

broadcast use {
    crate::list::pushed_comes_first,
    crate::registry::growth::group_grown,
    crate::span::group_kept,
};

/// What can be asked about a type.
#[derive(Clone, Copy, PartialEq, Eq, Structural, Debug)]
pub enum Question {
    SizeOf,
    AlignOf,
    Name,
    Fields,
    Variants,
    Traits,
}

/// The answer to a question about a type.
#[allow(inconsistent_fields)]
pub enum Answer<'a> {
    /// The path does not name a question.
    NotFound,
    Error { message: Text<'a>, help: &'a str },
    Value(Value<'a>),
    /// The answer is the size of the type, or its alignment.
    Measure { ty: Type, alignment: bool },
}

impl<'a> Types<'a> {
    /// The type that a written type stands for, and the first problem that
    /// was met where it stands for none. No problem is kept.
    #[verifier::opaque]
    pub open spec fn resolved_quietly(
        self,
        written: TypeName<'a>,
        environment: Environment<'a>,
    ) -> (Self, (Option<Type>, Option<Text<'a>>)) {
        let (types, ty) = resolved(
            Types { problems: Seq::empty(), ..self },
            written,
            environment,
            LIMIT as nat,
        );
        let problem = if types.problems.len() > 0 {
            Some(types.problems[0].message)
        } else {
            None
        };
        (Types { problems: self.problems, ..types }, (ty, problem))
    }
}

impl<'a> TypeRegistry<'a> {
    /// The type that a written type stands for, and the first problem that
    /// was met where it stands for none. No problem is kept.
    pub fn resolved_quietly(
        &mut self,
        written: &TypeName<'a>,
        environment: &Environment<'a>,
    ) -> (result: (Option<Type>, Option<Text<'a>>))
        ensures
            (final(self)@, result) == old(self)@.resolved_quietly(*written, *environment),
            old(self)@.grows_into(final(self)@),
    {
        reveal(Types::grows_into);
        reveal(Types::resolved_quietly);
        let mut problems: Vec<Diagnostic<'a>> = Vec::new();
        std::mem::swap(&mut self.problems, &mut problems);
        assert(self.problems@ =~= Seq::empty());
        let ty = self.resolve_type_name_in(written, environment);
        let problem = if self.problems.len() > 0 {
            Some(self.problems[0].message.share())
        } else {
            None
        };
        self.problems = problems;
        (ty, problem)
    }
}

/// The record of a field: its name and the name of its type.
pub open spec fn spec_reflection_entry<'a>(name: Text<'a>, ty: Text<'a>) -> Value<'a> {
    Value::Record(
        cons(
            Property { name: "name", value: Value::String(name) },
            single(Property { name: "type", value: Value::String(ty) }),
        ),
    )
}

pub(crate) fn reflection_entry<'a>(name: Text<'a>, ty: Text<'a>) -> (entry: Value<'a>)
    ensures
        entry == spec_reflection_entry(name, ty),
{
    Value::Record(
        cons(
            Property { name: "name", value: Value::String(name) },
            single(Property { name: "type", value: Value::String(ty) }),
        ),
    )
}

/// The texts with commas between them.
pub open spec fn spec_separated<'a>(texts: List<Text<'a>>) -> Text<'a>
    decreases texts,
{
    match texts {
        List::Nil => List::Nil,
        List::Cons(node) => if node.tail.is_empty() {
            node.head
        } else {
            append(node.head, cons(Piece::Words(", "), spec_separated(node.tail)))
        },
    }
}

pub(crate) fn separated<'a>(texts: &List<Text<'a>>) -> (text: Text<'a>)
    ensures
        text == spec_separated(*texts),
{
    let mut ahead: &List<Text<'a>> = texts;
    let mut done: Vec<Piece<'a>> = Vec::new();
    loop
        invariant
            spec_separated(*texts) == prepended(done@, spec_separated(*ahead)),
        decreases *ahead,
    {
        match ahead {
            List::Nil => {
                return prepend(done, List::Nil);
            },
            List::Cons(node) => {
                if node.tail.is_empty() {
                    return prepend(done, node.head.share());
                }
                extend(&mut done, &node.head);
                done.push(Piece::Words(", "));
                ahead = &node.tail;
            },
        }
    }
}

/// The question that a path asks.
pub open spec fn spec_question_of<'a>(path: Path<'a>) -> Option<Question> {
    let name = path.display();
    if characters(name) == "size_of"@ {
        Some(Question::SizeOf)
    } else if characters(name) == "align_of"@ {
        Some(Question::AlignOf)
    } else if characters(name) == "meta::name"@ {
        Some(Question::Name)
    } else if characters(name) == "fields"@ || characters(name) == "meta::fields"@ {
        Some(Question::Fields)
    } else if characters(name) == "variants"@ || characters(name) == "meta::variants"@ {
        Some(Question::Variants)
    } else if characters(name) == "meta::traits"@ {
        Some(Question::Traits)
    } else {
        None
    }
}

pub(crate) fn question_of<'a>(path: &Path<'a>) -> (question: Option<Question>)
    ensures
        question == spec_question_of(*path),
{
    let name = path.display();
    if reads(&name, "size_of") {
        Some(Question::SizeOf)
    } else if reads(&name, "align_of") {
        Some(Question::AlignOf)
    } else if reads(&name, "meta::name") {
        Some(Question::Name)
    } else if reads(&name, "fields") || reads(&name, "meta::fields") {
        Some(Question::Fields)
    } else if reads(&name, "variants") || reads(&name, "meta::variants") {
        Some(Question::Variants)
    } else if reads(&name, "meta::traits") {
        Some(Question::Traits)
    } else {
        None
    }
}

/// The answer to a question about the size or the alignment of a type, by its
/// size and alignment or the reason why it has none.
pub open spec fn spec_measured<'a>(
    alignment: bool,
    layout: Result<(u32, u32), &'a str>,
) -> Answer<'a> {
    match layout {
        Ok((size, align)) => Answer::Value(
            Value::Integer {
                negative: false,
                magnitude: if alignment {
                    align as u128
                } else {
                    size as u128
                },
            },
        ),
        Err(message) => Answer::Error {
            message: words(message),
            help: "use a finite type with a valid native layout",
        },
    }
}

/// The answer to a question about the size or the alignment of a type, by its
/// size and alignment or the reason why it has none.
pub fn measured<'a>(alignment: bool, layout: Result<(u32, u32), &'a str>) -> (answer: Answer<'a>)
    ensures
        answer == spec_measured(alignment, layout),
{
    match layout {
        Ok((size, align)) => Answer::Value(
            Value::Integer {
                negative: false,
                magnitude: if alignment {
                    align as u128
                } else {
                    size as u128
                },
            },
        ),
        Err(message) => Answer::Error {
            message: words(message),
            help: "use a finite type with a valid native layout",
        },
    }
}

/// The names of variants.
pub open spec fn spec_variant_names<'a>(variants: List<EnumVariant<'a>>) -> List<Value<'a>>
    decreases variants,
{
    match variants {
        List::Nil => List::Nil,
        List::Cons(node) => cons(
            Value::String(words(node.head.name)),
            spec_variant_names(node.tail),
        ),
    }
}

pub(crate) fn variant_names<'a>(variants: &List<EnumVariant<'a>>) -> (names: List<Value<'a>>)
    ensures
        names == spec_variant_names(*variants),
{
    let mut ahead: &List<EnumVariant<'a>> = variants;
    let mut done: Vec<Value<'a>> = Vec::new();
    loop
        invariant
            spec_variant_names(*variants) == prepended(done@, spec_variant_names(*ahead)),
        decreases *ahead,
    {
        match ahead {
            List::Nil => {
                return prepend(done, List::Nil);
            },
            List::Cons(node) => {
                done.push(Value::String(words(node.head.name)));
                ahead = &node.tail;
            },
        }
    }
}

/// The names with one more, in alphabetical order and without repetition.
pub open spec fn spec_insert_name<'a>(names: List<&'a str>, name: &'a str) -> List<&'a str>
    decreases names,
{
    match names {
        List::Nil => single(name),
        List::Cons(node) => if node.head@ == name@ {
            names
        } else if precedes(name, node.head) {
            cons(name, names)
        } else {
            cons(node.head, spec_insert_name(node.tail, name))
        },
    }
}

pub(crate) fn insert_name<'a>(names: &List<&'a str>, name: &'a str) -> (result: List<&'a str>)
    ensures
        result == spec_insert_name(*names, name),
{
    let mut ahead: &List<&'a str> = names;
    let mut done: Vec<&'a str> = Vec::new();
    loop
        invariant
            spec_insert_name(*names, name) == prepended(done@, spec_insert_name(*ahead, name)),
        decreases *ahead,
    {
        match ahead {
            List::Nil => {
                return prepend(done, single(name));
            },
            List::Cons(node) => {
                if same(node.head, name) {
                    return prepend(done, ahead.share());
                } else {
                    if precedes(name, node.head) {
                        return prepend(done, cons(name, ahead.share()));
                    } else {
                        done.push(node.head);
                        ahead = &node.tail;
                    }
                }
            },
        }
    }
}

/// The names with those of declared traits, in alphabetical order and without
/// repetition.
pub open spec fn spec_insert_traits<'a>(
    names: List<&'a str>,
    traits: List<Entry<'a, Rc<TraitDeclaration<'a>>>>,
) -> List<&'a str>
    decreases traits,
{
    match traits {
        List::Nil => names,
        List::Cons(node) => spec_insert_traits(spec_insert_name(names, node.head.name), node.tail),
    }
}

pub(crate) fn insert_traits<'a>(
    names: List<&'a str>,
    traits: &List<Entry<'a, Rc<TraitDeclaration<'a>>>>,
) -> (result: List<&'a str>)
    ensures
        result == spec_insert_traits(names, *traits),
{
    let mut ahead: &List<Entry<'a, Rc<TraitDeclaration<'a>>>> = traits;
    let mut current_names: List<&'a str> = names;
    loop
        invariant
            spec_insert_traits(names, *traits) == spec_insert_traits(current_names, *ahead),
        decreases *ahead,
    {
        match ahead {
            List::Nil => {
                return current_names;
            },
            List::Cons(node) => {
                current_names = insert_name(&current_names, node.head.name);
                ahead = &node.tail;
            },
        }
    }
}

/// The traits that a type may satisfy, in alphabetical order.
pub open spec fn spec_candidates<'a>(
    traits: List<Entry<'a, Rc<TraitDeclaration<'a>>>>,
) -> List<&'a str> {
    spec_insert_traits(
        cons(
            "Clone",
            cons(
                "Copy",
                cons(
                    "Debug",
                    cons(
                        "Default",
                        cons(
                            "Eq",
                            cons(
                                "Hash",
                                cons("Ordered", cons("Pod", cons("Send", single("Sync")))),
                            ),
                        ),
                    ),
                ),
            ),
        ),
        traits,
    )
}

pub(crate) fn candidates<'a>(
    traits: &List<Entry<'a, Rc<TraitDeclaration<'a>>>>,
) -> (names: List<&'a str>)
    ensures
        names == spec_candidates(*traits),
{
    insert_traits(
        cons(
            "Clone",
            cons(
                "Copy",
                cons(
                    "Debug",
                    cons(
                        "Default",
                        cons(
                            "Eq",
                            cons(
                                "Hash",
                                cons("Ordered", cons("Pod", cons("Send", single("Sync")))),
                            ),
                        ),
                    ),
                ),
            ),
        ),
        traits,
    )
}

impl<'a> Types<'a> {
    /// The name of a type in full.
    #[verifier::opaque]
    pub open spec fn reflection_type_name(self, ty: Type) -> Text<'a> {
        self.name_within(ty, LIMIT as nat)
    }

    /// The name of a type, with types within types named no deeper than `fuel`.
    pub open spec fn name_within(self, ty: Type, fuel: nat) -> Text<'a>
        decreases fuel, 0nat, List::<Type>::Nil,
    {
        if fuel == 0 {
            ty.text()
        } else {
            match self.definition(ty) {
                None => ty.text(),
                Some(definition) => match definition.name {
                    Some(name) => name,
                    None => self.name_shape(definition.kind, (fuel - 1) as nat),
                },
            }
        }
    }

    /// The name of an unnamed type.
    pub open spec fn name_shape(self, kind: TypeDefinitionKind<'a>, fuel: nat) -> Text<'a>
        decreases fuel, 2nat, List::<Type>::Nil,
    {
        match kind {
            TypeDefinitionKind::Tuple { elements } => framed(
                "(",
                spec_separated(self.names_within(elements, fuel)),
                ")",
            ),
            TypeDefinitionKind::Array { element, length } => framed(
                "[",
                append(
                    self.name_within(element, fuel),
                    cons(Piece::Words("; "), number(length as u128)),
                ),
                "]",
            ),
            TypeDefinitionKind::Reference { target, mutable } => cons(
                Piece::Words(
                    if mutable {
                        "&mut "
                    } else {
                        "&"
                    },
                ),
                self.name_within(target, fuel),
            ),
            TypeDefinitionKind::RawPointer { target, mutable } => cons(
                Piece::Words(
                    if mutable {
                        "*mut "
                    } else {
                        "*const "
                    },
                ),
                self.name_within(target, fuel),
            ),
            TypeDefinitionKind::Slice { element, mutable } => framed(
                if mutable {
                    "&mut ["
                } else {
                    "&["
                },
                self.name_within(element, fuel),
                "]",
            ),
            TypeDefinitionKind::Function { parameters, return_type } => framed(
                "fn(",
                append(
                    spec_separated(self.names_within(parameters, fuel)),
                    cons(Piece::Words(") -> "), self.name_within(return_type, fuel)),
                ),
                "",
            ),
            TypeDefinitionKind::Struct { .. } => words("struct"),
            TypeDefinitionKind::Enum { .. } => words("enum"),
        }
    }

    /// The names of types.
    pub open spec fn names_within(self, list: List<Type>, fuel: nat) -> List<Text<'a>>
        decreases fuel, 1nat, list,
    {
        match list {
            List::Nil => List::Nil,
            List::Cons(node) => cons(
                self.name_within(node.head, fuel),
                self.names_within(node.tail, fuel),
            ),
        }
    }

    /// The bindings of a compile-time call, each resolved with those before it.
    #[verifier::opaque]
    pub open spec fn bind_reflected(
        self,
        bindings: List<Entry<'a, TypeName<'a>>>,
        environment: Environment<'a>,
        problem: Option<Text<'a>>,
    ) -> (Self, (Environment<'a>, Option<Text<'a>>))
        decreases bindings,
    {
        match bindings {
            List::Nil => (self, (environment, problem)),
            List::Cons(node) => {
                let (s, (ty, found)) = self.resolved_quietly(node.head.value, environment);
                let problem = match problem {
                    Some(problem) => Some(problem),
                    None => found,
                };
                match ty {
                    Some(ty) => s.bind_reflected(
                        node.tail,
                        environment.with_type(node.head.name, ty),
                        problem,
                    ),
                    None => s.bind_reflected(node.tail, environment, problem),
                }
            },
        }
    }

    /// The answer to a question that a compile-time call asks.
    #[verifier::opaque]
    pub open spec fn reflect(
        self,
        path: Path<'a>,
        arguments: List<GenericArgument<'a>>,
        bindings: List<Entry<'a, TypeName<'a>>>,
    ) -> (Self, Answer<'a>) {
        match spec_question_of(path) {
            None => (self, Answer::NotFound),
            Some(question) => match one_type_argument(arguments) {
                None => (
                    self,
                    Answer::Error {
                        message: framed("`", path.display(), "` expects exactly one type argument"),
                        help: "write the reflection call as `name<Type>()`",
                    },
                ),
                Some(requested) => {
                    let outer = self.base_environment();
                    let (s, (environment, earlier)) = self.bind_reflected(bindings, outer, None);
                    let (s, (ty, found)) = s.resolved_quietly(requested, environment);
                    (
                        s,
                        match ty {
                            Some(ty) => s.answer(question, ty),
                            None => Answer::Error {
                                message: match earlier {
                                    Some(message) => message,
                                    None => match found {
                                        Some(message) => message,
                                        None => words("reflection type could not be resolved"),
                                    },
                                },
                                help: "use a concrete type known at this compile-time call site",
                            },
                        },
                    )
                },
            },
        }
    }

    /// The answer to a question about a type.
    #[verifier::opaque]
    pub open spec fn answer(self, question: Question, ty: Type) -> Answer<'a> {
        match question {
            Question::SizeOf => Answer::Measure { ty, alignment: false },
            Question::AlignOf => Answer::Measure { ty, alignment: true },
            Question::Name => Answer::Value(Value::String(self.reflection_type_name(ty))),
            Question::Fields => self.reflect_fields(ty),
            Question::Variants => self.reflect_variants(ty),
            Question::Traits => Answer::Value(
                Value::Array(self.satisfied(ty, spec_candidates(self.traits))),
            ),
        }
    }

    /// The records of fields.
    #[verifier::opaque]
    pub open spec fn field_entries(self, fields: List<TypeField<'a>>) -> List<Value<'a>>
        decreases fields,
    {
        match fields {
            List::Nil => List::Nil,
            List::Cons(node) => cons(
                spec_reflection_entry(words(node.head.name), self.reflection_type_name(node.head.ty)),
                self.field_entries(node.tail),
            ),
        }
    }

    /// The records of the elements of a tuple, which are named by their position.
    #[verifier::opaque]
    pub open spec fn element_entries(self, elements: List<Type>, position: u64) -> List<Value<'a>>
        decreases elements,
    {
        match elements {
            List::Nil => List::Nil,
            List::Cons(node) => cons(
                spec_reflection_entry(number(position as u128), self.reflection_type_name(node.head)),
                self.element_entries(node.tail, position.saturating_add(1)),
            ),
        }
    }

    /// The fields of a struct or a tuple.
    #[verifier::opaque]
    pub open spec fn reflect_fields(self, ty: Type) -> Answer<'a> {
        match self.shape(ty) {
            Some(TypeDefinitionKind::Struct { fields }) => Answer::Value(
                Value::Array(self.field_entries(fields)),
            ),
            Some(TypeDefinitionKind::Tuple { elements }) => Answer::Value(
                Value::Array(self.element_entries(elements, 0)),
            ),
            _ => Answer::Error {
                message: framed("type `", self.reflection_type_name(ty), "` does not have fields"),
                help: "use `meta::fields` with a struct or tuple type",
            },
        }
    }

    /// The variants of an enum.
    #[verifier::opaque]
    pub open spec fn reflect_variants(self, ty: Type) -> Answer<'a> {
        match self.shape(ty) {
            Some(TypeDefinitionKind::Enum { variants }) => Answer::Value(
                Value::Array(spec_variant_names(variants)),
            ),
            _ => Answer::Error {
                message: framed(
                    "type `",
                    self.reflection_type_name(ty),
                    "` does not have enum variants",
                ),
                help: "use `meta::variants` with an enum type",
            },
        }
    }

    /// The names of those traits that a type satisfies.
    #[verifier::opaque]
    pub open spec fn satisfied(self, ty: Type, names: List<&'a str>) -> List<Value<'a>>
        decreases names,
    {
        match names {
            List::Nil => List::Nil,
            List::Cons(node) => if self.meets(ty, node.head@) {
                cons(Value::String(words(node.head)), self.satisfied(ty, node.tail))
            } else {
                self.satisfied(ty, node.tail)
            },
        }
    }
}

impl<'a> TypeRegistry<'a> {
    /// The name of a type in full.
    pub fn reflection_type_name(&self, ty: Type) -> (name: Text<'a>)
        ensures
            name == self@.reflection_type_name(ty),
    {
        reveal(Types::reflection_type_name);
        self.name_within(ty, LIMIT)
    }

    pub(crate) fn name_within(&self, ty: Type, fuel: u32) -> (name: Text<'a>)
        ensures
            name == self@.name_within(ty, fuel as nat),
        decreases fuel, 0nat, List::<Type>::Nil,
    {
        if fuel == 0 {
            return ty.text();
        }
        match self.definition(ty) {
            None => ty.text(),
            Some(definition) => match &definition.name {
                Some(name) => name.share(),
                None => self.name_shape(&definition.kind, fuel - 1),
            },
        }
    }

    pub(crate) fn name_shape(&self, kind: &TypeDefinitionKind<'a>, fuel: u32) -> (name: Text<'a>)
        ensures
            name == self@.name_shape(*kind, fuel as nat),
        decreases fuel, 2nat, List::<Type>::Nil,
    {
        match kind {
            TypeDefinitionKind::Tuple { elements } => frame(
                "(",
                &separated(&self.names_within(elements, fuel)),
                ")",
            ),
            TypeDefinitionKind::Array { element, length } => frame(
                "[",
                &joined(
                    &self.name_within(*element, fuel),
                    cons(Piece::Words("; "), number(*length as u128)),
                ),
                "]",
            ),
            TypeDefinitionKind::Reference { target, mutable } => cons(
                Piece::Words(
                    if *mutable {
                        "&mut "
                    } else {
                        "&"
                    },
                ),
                self.name_within(*target, fuel),
            ),
            TypeDefinitionKind::RawPointer { target, mutable } => cons(
                Piece::Words(
                    if *mutable {
                        "*mut "
                    } else {
                        "*const "
                    },
                ),
                self.name_within(*target, fuel),
            ),
            TypeDefinitionKind::Slice { element, mutable } => frame(
                if *mutable {
                    "&mut ["
                } else {
                    "&["
                },
                &self.name_within(*element, fuel),
                "]",
            ),
            TypeDefinitionKind::Function { parameters, return_type } => frame(
                "fn(",
                &joined(
                    &separated(&self.names_within(parameters, fuel)),
                    cons(Piece::Words(") -> "), self.name_within(*return_type, fuel)),
                ),
                "",
            ),
            TypeDefinitionKind::Struct { .. } => words("struct"),
            TypeDefinitionKind::Enum { .. } => words("enum"),
        }
    }

    pub(crate) fn names_within(&self, list: &List<Type>, fuel: u32) -> (names: List<Text<'a>>)
        ensures
            names == self@.names_within(*list, fuel as nat),
        decreases fuel, 1nat, *list,
    {
        let mut ahead: &List<Type> = list;
        let mut done: Vec<Text<'a>> = Vec::new();
        loop
            invariant
                self@.names_within(*list, fuel as nat) == prepended(
                    done@,
                    self@.names_within(*ahead, fuel as nat),
                ),
            decreases *ahead,
        {
            match ahead {
                List::Nil => {
                    return prepend(done, List::Nil);
                },
                List::Cons(node) => {
                    done.push(self.name_within(node.head, fuel));
                    ahead = &node.tail;
                },
            }
        }
    }

    pub(crate) fn bind_reflected(
        &mut self,
        bindings: &List<Entry<'a, TypeName<'a>>>,
        environment: &Environment<'a>,
        problem: Option<Text<'a>>,
    ) -> (result: (Environment<'a>, Option<Text<'a>>))
        ensures
            (final(self)@, result) == old(self)@.bind_reflected(*bindings, *environment, problem),
            old(self)@.grows_into(final(self)@),
    {
        let mut ahead: &List<Entry<'a, TypeName<'a>>> = bindings;
        let mut current_environment: Environment<'a> = environment.share();
        let mut current_problem: Option<Text<'a>> = problem;
        loop
            invariant
                old(self)@.bind_reflected(*bindings, *environment, problem) == self@.bind_reflected(
                    *ahead,
                    current_environment,
                    current_problem,
                ),
                old(self)@.grows_into(self@),
            decreases *ahead,
        {
            reveal(Types::bind_reflected);
            match ahead {
                List::Nil => {
                    return (current_environment, current_problem);
                },
                List::Cons(node) => {
                    let (ty, found) = self.resolved_quietly(&node.head.value, &current_environment);
                    current_problem = match current_problem {
                        Some(problem) => Some(problem),
                        None => found,
                    };
                    match ty {
                        Some(ty) => {
                            current_environment = current_environment.and_type(node.head.name, ty);
                            ahead = &node.tail;
                        },
                        None => {
                            ahead = &node.tail;
                        },
                    }
                },
            }
        }
    }

    /// The answer to a question that a compile-time call asks.
    pub fn reflect(
        &mut self,
        path: &Path<'a>,
        arguments: &List<GenericArgument<'a>>,
        bindings: &List<Entry<'a, TypeName<'a>>>,
    ) -> (answer: Answer<'a>)
        ensures
            (final(self)@, answer) == old(self)@.reflect(*path, *arguments, *bindings),
            old(self)@.grows_into(final(self)@),
    {
        reveal(Types::reflect);
        match question_of(path) {
            None => Answer::NotFound,
            Some(question) => match only_type_argument(arguments) {
                None => Answer::Error {
                    message: frame("`", &path.display(), "` expects exactly one type argument"),
                    help: "write the reflection call as `name<Type>()`",
                },
                Some(requested) => {
                    let outer = self.base_environment();
                    let (environment, earlier) = self.bind_reflected(bindings, &outer, None);
                    let (ty, found) = self.resolved_quietly(requested, &environment);
                    match ty {
                        Some(ty) => self.answer(question, ty),
                        None => Answer::Error {
                            message: match earlier {
                                Some(message) => message,
                                None => match found {
                                    Some(message) => message,
                                    None => words("reflection type could not be resolved"),
                                },
                            },
                            help: "use a concrete type known at this compile-time call site",
                        },
                    }
                },
            },
        }
    }

    /// The answer to a question about a type.
    pub fn answer(&self, question: Question, ty: Type) -> (answer: Answer<'a>)
        ensures
            answer == self@.answer(question, ty),
    {
        reveal(Types::answer);
        match question {
            Question::SizeOf => Answer::Measure { ty, alignment: false },
            Question::AlignOf => Answer::Measure { ty, alignment: true },
            Question::Name => Answer::Value(Value::String(self.reflection_type_name(ty))),
            Question::Fields => self.reflect_fields(ty),
            Question::Variants => self.reflect_variants(ty),
            Question::Traits => Answer::Value(
                Value::Array(self.satisfied(ty, &candidates(&self.traits))),
            ),
        }
    }

    pub(crate) fn field_entries(&self, fields: &List<TypeField<'a>>) -> (entries: List<Value<'a>>)
        ensures
            entries == self@.field_entries(*fields),
    {
        let mut ahead: &List<TypeField<'a>> = fields;
        let mut done: Vec<Value<'a>> = Vec::new();
        loop
            invariant
                self@.field_entries(*fields) == prepended(done@, self@.field_entries(*ahead)),
            decreases *ahead,
        {
            reveal(Types::field_entries);
            match ahead {
                List::Nil => {
                    return prepend(done, List::Nil);
                },
                List::Cons(node) => {
                    done.push(
                        reflection_entry(
                            words(node.head.name),
                            self.reflection_type_name(node.head.ty),
                        ),
                    );
                    ahead = &node.tail;
                },
            }
        }
    }

    pub(crate) fn element_entries(
        &self,
        elements: &List<Type>,
        position: u64,
    ) -> (entries: List<Value<'a>>)
        ensures
            entries == self@.element_entries(*elements, position),
    {
        let mut ahead: &List<Type> = elements;
        let mut current_position: u64 = position;
        let mut done: Vec<Value<'a>> = Vec::new();
        loop
            invariant
                self@.element_entries(*elements, position) == prepended(
                    done@,
                    self@.element_entries(*ahead, current_position),
                ),
            decreases *ahead,
        {
            reveal(Types::element_entries);
            match ahead {
                List::Nil => {
                    return prepend(done, List::Nil);
                },
                List::Cons(node) => {
                    done.push(
                        reflection_entry(
                            number(current_position as u128),
                            self.reflection_type_name(node.head),
                        ),
                    );
                    current_position = current_position.saturating_add(1);
                    ahead = &node.tail;
                },
            }
        }
    }

    pub(crate) fn reflect_fields(&self, ty: Type) -> (answer: Answer<'a>)
        ensures
            answer == self@.reflect_fields(ty),
    {
        reveal(Types::reflect_fields);
        match self.shape(ty) {
            Some(TypeDefinitionKind::Struct { fields }) => Answer::Value(
                Value::Array(self.field_entries(&fields)),
            ),
            Some(TypeDefinitionKind::Tuple { elements }) => Answer::Value(
                Value::Array(self.element_entries(&elements, 0)),
            ),
            _ => Answer::Error {
                message: frame("type `", &self.reflection_type_name(ty), "` does not have fields"),
                help: "use `meta::fields` with a struct or tuple type",
            },
        }
    }

    pub(crate) fn reflect_variants(&self, ty: Type) -> (answer: Answer<'a>)
        ensures
            answer == self@.reflect_variants(ty),
    {
        reveal(Types::reflect_variants);
        match self.shape(ty) {
            Some(TypeDefinitionKind::Enum { variants }) => Answer::Value(
                Value::Array(variant_names(&variants)),
            ),
            _ => Answer::Error {
                message: frame(
                    "type `",
                    &self.reflection_type_name(ty),
                    "` does not have enum variants",
                ),
                help: "use `meta::variants` with an enum type",
            },
        }
    }

    pub(crate) fn satisfied(&self, ty: Type, names: &List<&'a str>) -> (traits: List<Value<'a>>)
        ensures
            traits == self@.satisfied(ty, *names),
    {
        let mut ahead: &List<&'a str> = names;
        let mut done: Vec<Value<'a>> = Vec::new();
        loop
            invariant
                self@.satisfied(ty, *names) == prepended(done@, self@.satisfied(ty, *ahead)),
            decreases *ahead,
        {
            reveal(Types::satisfied);
            match ahead {
                List::Nil => {
                    return prepend(done, List::Nil);
                },
                List::Cons(node) => {
                    if self.satisfies_trait(ty, node.head) {
                        done.push(Value::String(words(node.head)));
                        ahead = &node.tail;
                    } else {
                        ahead = &node.tail;
                    }
                },
            }
        }
    }
}

} // verus!

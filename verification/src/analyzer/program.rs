//! A program from its declarations to its functions.

use crate::analyzer::{Analyzer, Signature, State, Symbols};
use crate::analyzer::calling::{
    callees_of, declared_are_provided, joined_provide, ordered_provide, provides,
};
use crate::analyzer::declarations::{
    are_statics_numbered, are_statics_typed, natural_constants, spec_natural_constants,
};
use crate::analyzer::functions::{
    are_typed, by_number, foreign_functions, function_frame, spec_by_number,
    spec_foreign_functions, spec_function_frame, spec_joined_functions, spec_test_functions,
    test_functions,
};
use crate::analyzer::growth::{is_declared, is_instance};
use crate::analyzer::laws::{
    few_are_numbered, foreign_functions_are_ordered, foreign_in_number_order,
    functions_are_numbered, functions_are_ordered, in_number_order, ordered_stay_typed,
    right_entry_is_not_reported,
};
use crate::analyzer::numbering::{
    bearing, each_numbered_once, goes_on, none_waits, numbered_between, numbers_are_given_once,
    once,
};
use crate::analyzer::reports::{covering, covers, in_order, lists, Report};
use crate::ast::Program;
use crate::comptime::{Evaluated, Evaluation, Initializer};
use crate::generics::Entry;
use crate::hir::{
    self, ForeignFunction, Function, FunctionId, Static, TypeDefinition, TypeDefinitionKind,
};
use crate::list::{cons, List};
use crate::registry::{TypeLayout, TypeRegistry, Types};
use crate::registry::growth::numbered;
use crate::span::{kept, Diagnostic};
use crate::types::{Platform, Type};
use crate::typing::sound_entries;
use vstd::prelude::*;

verus! {

broadcast use {
    crate::analyzer::growth::group_led,
    crate::analyzer::numbering::group_numbered,
    crate::analyzer::sparing::group_spared,
    crate::registry::growth::group_grown,
    crate::span::group_kept,
};

/// The functions and statics of a checked program.
pub struct Checked<'a> {
    /// In the order of their numbers.
    pub functions: List<Function<'a>>,
    pub foreign_functions: List<ForeignFunction<'a>>,
    pub statics: List<Static<'a>>,
    pub entry: Option<FunctionId>,
}

/// The structs and enums among definitions, from a position on.
pub open spec fn nominal_types(definitions: Seq<TypeDefinition>, from: nat) -> List<Type>
    decreases definitions.len() - from,
{
    if from >= definitions.len() {
        List::Nil
    } else {
        let rest = nominal_types(definitions, from + 1);
        match definitions[from as int].kind {
            TypeDefinitionKind::Struct { .. } => cons(
                Type::Struct(definitions[from as int].id),
                rest,
            ),
            TypeDefinitionKind::Enum { .. } => cons(Type::Enum(definitions[from as int].id), rest),
            _ => rest,
        }
    }
}

fn collect_nominal_types<'a>(definitions: &Vec<TypeDefinition<'a>>) -> (types: List<Type>)
    ensures
        types == nominal_types(definitions@, 0),
{
    let mut types: List<Type> = List::Nil;
    let mut index: usize = definitions.len();
    while index > 0
        invariant
            index <= definitions@.len(),
            types == nominal_types(definitions@, index as nat),
        decreases index,
    {
        index = index - 1;
        match &definitions[index].kind {
            TypeDefinitionKind::Struct { .. } => {
                types = cons(Type::Struct(definitions[index].id), types);
            },
            TypeDefinitionKind::Enum { .. } => {
                types = cons(Type::Enum(definitions[index].id), types);
            },
            _ => {},
        }
    }
    types
}

impl<'a> State<'a> {
    /// The structs and enums that are defined.
    #[verifier::opaque]
    pub open spec fn every_nominal_type(self) -> List<Type> {
        nominal_types(self.types.definitions, 0)
    }

    /// The state before anything is declared, where some constants are known.
    pub open spec fn fresh(
        platform: Platform,
        layouts: List<TypeLayout>,
        preliminary: List<Entry<'a, Evaluated<'a>>>,
    ) -> Self {
        let types = Types {
            platform,
            layouts,
            problems: Seq::empty(),
            names: List::Nil,
            structural: List::Nil,
            definitions: Seq::empty(),
            chars: None,
            intrinsics: List::Nil,
            generic_templates: List::Nil,
            generic_instances: List::Nil,
            traits: List::Nil,
            trait_implementations: List::Nil,
            constants: List::Nil,
            constant_integers: spec_natural_constants(preliminary),
        };
        State {
            types,
            symbols: Symbols {
                signatures: List::Nil,
                statics: List::Nil,
                templates: List::Nil,
                instances: List::Nil,
                pending: List::Nil,
                next_id: 0,
            },
            frame: spec_function_frame(spec_no_signature(), types.base_environment(), List::Nil),
        }
    }

    /// The constants of a program get the values that were computed for them.
    #[verifier::opaque]
    pub open spec fn define_constants(self, program: Program<'a>, evaluation: Evaluation<'a>) -> Self {
        self.report_all(evaluation.problems).collect_constants(
            program.items,
            List::Nil,
            evaluation.constants,
        )
    }

    /// A program is checked from its declarations to its functions.
    #[verifier::opaque]
    pub open spec fn check(
        self,
        program: Program<'a>,
        evaluation: Evaluation<'a>,
        require_entry: bool,
    ) -> (Self, Checked<'a>) {
        self.declare_types(program).define_constants(program, evaluation).complete(
            program,
            evaluation.statics,
            require_entry,
        )
    }

    /// The functions and statics of a program are checked.
    #[verifier::opaque]
    pub open spec fn complete(
        self,
        program: Program<'a>,
        initializers: List<Initializer<'a>>,
        require_entry: bool,
    ) -> (Self, Checked<'a>) {
        let (s, declarations) = self.collect_declarations(program.items, 0);
        let (s, statics) = s.collect_statics(program.items, initializers);
        let s = s.number_instances(declarations.count());
        let (s, entry) = if require_entry {
            s.validate_entry()
        } else {
            (s, None)
        };
        let (s, functions) = s.analyze_declarations(declarations);
        (
            s,
            Checked {
                functions: spec_by_number(functions),
                foreign_functions: spec_foreign_functions(declarations),
                statics,
                entry,
            },
        )
    }

    /// Whether a result is what follows from a checked program: the program
    /// where there is no problem, and else the problems in order.
    pub open spec fn concludes(
        self,
        checked: Checked<'a>,
        result: Result<hir::Program<'a>, Vec<Report<'a>>>,
    ) -> bool {
        match result {
            Ok(program) => {
                &&& self.types.problems.len() == 0
                &&& program.types@ == self.types.definitions
                &&& program.functions == checked.functions
                &&& program.foreign_functions == checked.foreign_functions
                &&& program.statics == checked.statics
                &&& program.entry == checked.entry
                &&& program.tests == spec_test_functions(checked.functions)
            },
            Err(reports) => {
                &&& self.types.problems.len() > 0
                &&& lists(self.types.problems, reports@)
            },
        }
    }
}

impl<'a> State<'a> {
    /// Problems are reported in their order, behind those that are there.
    pub proof fn reports_are_added(self, problems: List<Diagnostic<'a>>)
        ensures
            self.report_all(problems).types.problems == self.types.problems + problems@,
        decreases problems,
    {
        reveal(State::report_all);
        reveal(State::report);
        match problems {
            List::Nil => {
                assert(self.types.problems + problems@ =~= self.types.problems);
            },
            List::Cons(_) => {
                let more = self.report(problems.first());
                more.reports_are_added(problems.rest());
                assert(self.types.problems + problems@ =~= more.types.problems
                    + problems.rest()@);
            },
        }
    }
}

impl<'a> Analyzer<'a> {
    /// The structs and enums that are defined.
    pub(crate) fn every_nominal_type(&self) -> (types: List<Type>)
        ensures
            types == self@.every_nominal_type(),
    {
        reveal(State::every_nominal_type);
        collect_nominal_types(&self.types.definitions)
    }

    /// An analyzer before anything is declared, where some constants are known.
    pub fn new(
        platform: Platform,
        layouts: List<TypeLayout>,
        preliminary: &List<Entry<'a, Evaluated<'a>>>,
    ) -> (analyzer: Self)
        ensures
            analyzer@ == State::fresh(platform, layouts, *preliminary),
            analyzer@.prepared(),
    {
        reveal(State::prepared);
        reveal(sound_entries);
        let mut types = TypeRegistry::new(platform, layouts);
        types.constant_integers = natural_constants(preliminary);
        let environment = types.base_environment();
        let frame = function_frame(&no_signature(), &environment, &List::Nil);
        let symbols = Symbols {
            signatures: List::Nil,
            statics: List::Nil,
            templates: List::Nil,
            instances: List::Nil,
            pending: List::Nil,
            next_id: 0,
        };
        Analyzer { types, symbols, frame }
    }

    /// The constants of a program get the values that were computed for them.
    /// What went wrong while they were computed is reported.
    pub fn define_constants(&mut self, program: &Program<'a>, evaluation: &Evaluation<'a>)
        ensures
            final(self)@ == old(self)@.define_constants(*program, *evaluation),
            old(self)@.leads_to(final(self)@),
            evaluation.problems is Cons ==> final(self)@.types.problems.len() > 0,
    {
        reveal(State::define_constants);
        self.report_all(&evaluation.problems);
        proof {
            old(self)@.reports_are_added(evaluation.problems);
            if evaluation.problems is Cons {
                assert(evaluation.problems@.len() > 0);
            }
            reveal(State::reaches);
            reveal(Types::grows_into);
            reveal(kept);
        }
        self.collect_constants(&program.items, List::Nil, &evaluation.constants);
    }

    /// The functions and statics of a program are checked.
    pub fn complete(
        &mut self,
        program: &Program<'a>,
        initializers: &List<Initializer<'a>>,
        require_entry: bool,
    ) -> (checked: Checked<'a>)
        ensures
            (final(self)@, checked) == old(self)@.complete(*program, *initializers, require_entry),
            old(self)@.reaches(final(self)@),
            in_number_order(checked.functions@),
            each_numbered_once(checked.functions, checked.foreign_functions),
            foreign_in_number_order(checked.foreign_functions@),
            are_statics_typed(checked.statics@),
            old(self)@.symbols.statics is Nil ==> are_statics_numbered(checked.statics@),
            old(self)@.prepared() && old(self)@.symbols.signatures is Nil ==> are_typed(
                checked.functions@,
                callees_of(checked.functions@, checked.foreign_functions@),
            ) || final(self)@.troubled(),
            require_entry ==> checked.entry is Some || final(self)@.types.problems.len() > 0,
            !require_entry ==> checked.entry is None,
            require_entry && !old(self)@.collected(*program, *initializers).can_start()
                ==> final(self)@.types.problems.len() > 0,
    {
        proof {
            reveal(State::complete);
            reveal(State::reaches);
            reveal(State::leads_to);
            reveal(Types::grows_into);
            reveal(kept);
        }
        let declarations = self.collect_declarations(&program.items, 0);
        let statics = self.collect_statics(&program.items, initializers);
        self.number_instances(declarations.count());
        proof {
            reveal(State::number_instances);
            reveal(goes_on);
            none_waits(self@);
        }
        let entry = if require_entry {
            proof {
                right_entry_is_not_reported(self@);
            }
            self.validate_entry()
        } else {
            None
        };
        let ghost ready = self@;
        let functions = self.analyze_declarations(&declarations);
        proof {
            functions_are_ordered(functions);
            functions_are_numbered(old(self)@, program.items, 0);
            few_are_numbered(declarations, 0);
            assert(ready.is_numbered());
            let sources = ready.analyze_sources(declarations).1;
            let (instances, end) = choose|instances: List<Function<'a>>, end: int|
                {
                    &&& functions == #[trigger] spec_joined_functions(sources, instances)
                    &&& ready.oldest_number() <= end <= u32::MAX
                    &&& #[trigger] numbered_between(instances, ready.oldest_number(), end)
                };
            let last = if declarations@.len() <= u32::MAX {
                end
            } else {
                declarations@.len() as int
            };
            assert(numbered_between(instances, declarations@.len() as int, last)) by {
                assert forall|number: int| #[trigger]
                    bearing(instances, number) == once(
                        declarations@.len() as int,
                        last,
                        number,
                    ) by {}
            }
            numbers_are_given_once(ready, declarations, instances, last);
            foreign_functions_are_ordered(declarations, 0);
            if old(self)@.symbols.signatures is Nil {
                let callees = callees_of(
                    spec_by_number(functions)@,
                    spec_foreign_functions(declarations)@,
                );
                assert(ready.all_wait()) by {
                    reveal(State::works_on);
                    reveal(State::all_wait);
                    reveal(is_instance);
                }
                assert(self@.calls_among(callees)) by {
                    reveal(State::calls_among);
                    assert forall|signature: Signature| #[trigger]
                        self@.knows(signature) implies callees.contains(signature) by {
                        reveal(State::knows);
                        reveal(State::recalls);
                        reveal(State::works_on);
                        reveal(is_declared);
                        if is_declared(self@.symbols.signatures, signature) {
                            declared_are_provided(ready, declarations, signature);
                            if provides(sources@, signature) {
                                joined_provide(sources, instances, signature);
                            }
                        }
                        if provides(functions@, signature) {
                            ordered_provide(functions, signature);
                        }
                    }
                }
            }
            assert forall|callees: Set<Signature>| #[trigger] are_typed(
                functions@,
                callees,
            ) implies are_typed(spec_by_number(functions)@, callees) by {
                ordered_stay_typed(functions, callees);
            }
        }
        Checked {
            functions: by_number(&functions),
            foreign_functions: foreign_functions(&declarations),
            statics,
            entry,
        }
    }

    /// A program is checked from its declarations to its functions.
    pub fn check(
        &mut self,
        program: &Program<'a>,
        evaluation: &Evaluation<'a>,
        require_entry: bool,
    ) -> (checked: Checked<'a>)
        ensures
            (final(self)@, checked) == old(self)@.check(*program, *evaluation, require_entry),
            old(self)@.reaches(final(self)@),
            evaluation.problems is Cons ==> final(self)@.types.problems.len() > 0,
            in_number_order(checked.functions@),
            each_numbered_once(checked.functions, checked.foreign_functions),
            foreign_in_number_order(checked.foreign_functions@),
            are_statics_typed(checked.statics@),
            old(self)@.symbols.statics is Nil ==> are_statics_numbered(checked.statics@),
            old(self)@.prepared() && old(self)@.symbols.signatures is Nil ==> are_typed(
                checked.functions@,
                callees_of(checked.functions@, checked.foreign_functions@),
            ) || final(self)@.troubled(),
            require_entry ==> checked.entry is Some || final(self)@.types.problems.len() > 0,
            !require_entry ==> checked.entry is None,
    {
        reveal(State::check);
        self.declare_types(program);
        self.define_constants(program, evaluation);
        proof {
            reveal(State::leads_to);
            reveal(State::reaches);
            reveal(Types::grows_into);
            reveal(kept);
        }
        self.complete(program, &evaluation.statics, require_entry)
    }

    /// The checked program where there is no problem, and else the problems in
    /// order.
    pub fn conclude(self, checked: Checked<'a>) -> (result: Result<
        hir::Program<'a>,
        Vec<Report<'a>>,
    >)
        ensures
            self@.concludes(checked, result),
    {
        let Analyzer { types, .. } = self;
        let TypeRegistry { definitions, problems, .. } = types;
        if problems.len() > 0 {
            return Err(in_order(&problems));
        }
        let tests = test_functions(&checked.functions);
        let Checked { functions, foreign_functions, statics, entry } = checked;
        Ok(
            hir::Program {
                types: definitions,
                functions,
                foreign_functions,
                statics,
                entry,
                tests,
            },
        )
    }
}

/// Checks a program that is to be run. It must have a function to start with.
pub fn resolve<'a>(
    program: &Program<'a>,
    platform: Platform,
    layouts: List<TypeLayout>,
    evaluation: &Evaluation<'a>,
) -> (result: Result<hir::Program<'a>, Vec<Report<'a>>>)
    ensures
        ({
            let (state, checked) = State::fresh(platform, layouts, evaluation.preliminary).check(
                *program,
                *evaluation,
                true,
            );
            state.concludes(checked, result)
        }),
        match result {
            Ok(program) => {
                &&& evaluation.problems is Nil
                &&& numbered(program.types@)
                &&& in_number_order(program.functions@)
                &&& each_numbered_once(program.functions, program.foreign_functions)
                &&& foreign_in_number_order(program.foreign_functions@)
                &&& are_typed(
                    program.functions@,
                    callees_of(program.functions@, program.foreign_functions@),
                )
                &&& are_statics_typed(program.statics@)
                &&& are_statics_numbered(program.statics@)
                &&& program.entry is Some
            },
            Err(reports) => reports@.len() > 0,
        },
{
    proof {
        reveal(State::reaches);
        reveal(State::troubled);
        reveal(Types::grows_into);
        reveal(covering);
    }
    let mut analyzer = Analyzer::new(platform, layouts, &evaluation.preliminary);
    let checked = analyzer.check(program, evaluation, true);
    let ghost problems = analyzer@.types.problems;
    assert(numbered(analyzer@.types.definitions));
    let result = analyzer.conclude(checked);
    proof {
        if let Err(reports) = &result {
            assert(covers(reports@, problems[0]));
        }
    }
    result
}

/// Checks a program that others use. It needs no function to start with.
pub fn resolve_library<'a>(
    program: &Program<'a>,
    platform: Platform,
    layouts: List<TypeLayout>,
    evaluation: &Evaluation<'a>,
) -> (result: Result<hir::Program<'a>, Vec<Report<'a>>>)
    ensures
        ({
            let (state, checked) = State::fresh(platform, layouts, evaluation.preliminary).check(
                *program,
                *evaluation,
                false,
            );
            state.concludes(checked, result)
        }),
        match result {
            Ok(program) => {
                &&& evaluation.problems is Nil
                &&& numbered(program.types@)
                &&& in_number_order(program.functions@)
                &&& each_numbered_once(program.functions, program.foreign_functions)
                &&& foreign_in_number_order(program.foreign_functions@)
                &&& are_typed(
                    program.functions@,
                    callees_of(program.functions@, program.foreign_functions@),
                )
                &&& are_statics_typed(program.statics@)
                &&& are_statics_numbered(program.statics@)
                &&& program.entry is None
            },
            Err(reports) => reports@.len() > 0,
        },
{
    proof {
        reveal(State::reaches);
        reveal(State::troubled);
        reveal(Types::grows_into);
        reveal(covering);
    }
    let mut analyzer = Analyzer::new(platform, layouts, &evaluation.preliminary);
    let checked = analyzer.check(program, evaluation, false);
    let ghost problems = analyzer@.types.problems;
    assert(numbered(analyzer@.types.definitions));
    let result = analyzer.conclude(checked);
    proof {
        if let Err(reports) = &result {
            assert(covers(reports@, problems[0]));
        }
    }
    result
}

/// The signature outside of any function.
#[verifier::opaque]
pub open spec fn spec_no_signature() -> Signature {
    Signature {
        id: FunctionId(0),
        parameter_types: List::Nil,
        return_type: Type::Unit,
        requires_unsafe: false,
        is_public: false,
    }
}

/// The signature outside of any function.
pub(crate) fn no_signature() -> (signature: Signature)
    ensures
        signature == spec_no_signature(),
{
    reveal(spec_no_signature);
    Signature {
        id: FunctionId(0),
        parameter_types: List::Nil,
        return_type: Type::Unit,
        requires_unsafe: false,
        is_public: false,
    }
}

impl<'a> State<'a> {
    /// What types derive but may not derive is reported.
    #[verifier::opaque]
    pub open spec fn check_each_derive(self, types: List<Type>) -> Self
        decreases types,
    {
        match types {
            List::Nil => self,
            List::Cons(node) => {
                let s = self.check_derives(node.head);
                let s = s.check_each_derive(node.tail);
                s
            },
        }
    }

    /// What types derive but may not derive is reported.
    #[verifier::opaque]
    pub open spec fn validate_derived_traits(self) -> Self {
        let types = self.every_nominal_type();
        let s = self.check_each_derive(types);
        s
    }

    /// The types and traits of a program are declared. Questions about them can be
    /// answered from now on.
    #[verifier::opaque]
    pub open spec fn declare_types(self, program: Program<'a>) -> Self {
        let s = self.validate_attributes(program.items);
        let s = s.collect_type_headers(program.items);
        let s = s.collect_type_aliases(program.items);
        let s = s.collect_trait_headers(program.items);
        let s = s.validate_derived_marker_traits(program.items);
        let s = s.resolve_type_definitions(program.items);
        let s = s.validate_type_cycles();
        let s = s.validate_derived_traits();
        let s = s.collect_trait_implementations(program.items);
        s
    }

    /// Instances of generic functions are numbered behind the functions that are
    /// not generic. None of them has been made yet.
    #[verifier::opaque]
    pub open spec fn number_instances(self, count: u64) -> Self {
        let s = State {
            symbols: Symbols {
                next_id: if count > u32::MAX as u64 {
                    u32::MAX
                } else {
                    count as u32
                },
                instances: List::Nil,
                pending: List::Nil,
                ..self.symbols
            },
            ..self
        };
        s
    }
}

impl<'a> Analyzer<'a> {
    /// What types derive but may not derive is reported.
    pub(crate) fn check_each_derive(&mut self, types: &List<Type>)
        ensures
            final(self)@ == old(self)@.check_each_derive(*types),
            old(self)@.leads_to(final(self)@),
    {
        let mut ahead: &List<Type> = types;
        loop
            invariant
                old(self)@.check_each_derive(*types) == self@.check_each_derive(*ahead),
                old(self)@.leads_to(self@),
            decreases *ahead,
        {
            reveal(State::check_each_derive);
            match ahead {
                List::Nil => {
                    return ;
                },
                List::Cons(node) => {
                    self.check_derives(node.head);
                    ahead = &node.tail;
                },
            }
        }
    }

    /// What types derive but may not derive is reported.
    pub(crate) fn validate_derived_traits(&mut self)
        ensures
            final(self)@ == old(self)@.validate_derived_traits(),
            old(self)@.leads_to(final(self)@),
    {
        reveal(State::validate_derived_traits);
        let types = self.every_nominal_type();
        self.check_each_derive(&types);
    }

    /// The types and traits of a program are declared. Questions about them can be
    /// answered from now on.
    pub fn declare_types(&mut self, program: &Program<'a>)
        ensures
            final(self)@ == old(self)@.declare_types(*program),
            old(self)@.leads_to(final(self)@),
    {
        reveal(State::declare_types);
        self.validate_attributes(&program.items);
        self.collect_type_headers(&program.items);
        self.collect_type_aliases(&program.items);
        self.collect_trait_headers(&program.items);
        self.validate_derived_marker_traits(&program.items);
        self.resolve_type_definitions(&program.items);
        self.validate_type_cycles();
        self.validate_derived_traits();
        self.collect_trait_implementations(&program.items);
    }

    /// Instances of generic functions are numbered behind the functions that are
    /// not generic. None of them has been made yet.
    pub(crate) fn number_instances(&mut self, count: u64)
        ensures
            final(self)@ == old(self)@.number_instances(count),
            old(self)@.reaches(final(self)@),
    {
        reveal(State::number_instances);
        reveal(State::reaches);
        self.symbols.next_id = if count > u32::MAX as u64 {
            u32::MAX
        } else {
            count as u32
        };
        self.symbols.instances = List::Nil;
        self.symbols.pending = List::Nil;
    }
}

} // verus!

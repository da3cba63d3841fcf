//! What new variables are, and what is known of them.

use crate::analyzer::borrowing::known_is_found;
use crate::analyzer::frame::spec_find_binding;
use crate::analyzer::knowledge::spec_find_known;
use crate::analyzer::statements::{spec_block_type, spec_flow_of, spec_optional_type, spec_then_flow};
use crate::analyzer::{Binding, Flow, GenericFunctionTemplate, State};
use crate::ast::{self, Identifier, Parameter};
use crate::generics::Environment;
use crate::hir::{Expression, LocalId, Pattern, PatternKind, Statement};
use crate::list::List;
use crate::registry::agreeing::{agrees, binds_on, what_is_inferred_agrees};
use crate::registry::Types;
use crate::span::Span;
use crate::text::Text;
use crate::types::Type;
use vstd::prelude::*;

verus! {

// Variables.

/// A `let` makes its name stand for a new variable of the type that is written,
/// or else of the type of its value. It can be changed exactly if it says `mut`,
/// and no other name means anything else. A problem is reported exactly where the
/// value is not of the type that is written.
pub proof fn let_binds_its_name<'a>(
    state: State<'a>,
    name: Identifier<'a>,
    mutable: bool,
    written: Option<Type>,
    source: ast::Expression<'a>,
    initializer: Expression<'a>,
    span: Span,
    asked: &str,
)
    requires
        state.frame.scopes is Cons,
        state.frame.next_local < u32::MAX,
    ensures
        ({
            let (after, (statement, flow)) = state.bind_initialized(
                name,
                mutable,
                written,
                source,
                initializer,
                span,
            );
            let ty = match written {
                Some(ty) => ty,
                None => initializer.ty,
            };
            let local = LocalId(state.frame.next_local);
            &&& statement == (Statement::Let {
                local,
                name: name.name,
                mutable,
                ty,
                initializer,
                span,
            })
            &&& after.lookup(asked) == (if asked@ == name.name@ {
                Some(Binding { local, ty, mutable })
            } else {
                state.lookup(asked)
            })
            &&& after.frame.next_local == state.frame.next_local + 1
            &&& flow is Stops <==> initializer.ty is Never
            &&& after.types.problems.len() == state.types.problems.len() + (if ty.accepts(
                initializer.ty,
            ) {
                0int
            } else {
                1int
            })
        }),
{
    reveal(State::bind_initialized);
    reveal(State::require_expected);
    reveal(State::require_type);
    reveal(State::type_mismatch);
    reveal(State::report);
    reveal(State::new_local);
    reveal(State::inherit_root);
    reveal(State::set_scoped_root);
    reveal(State::declare);
    reveal(State::lookup);
    reveal(spec_find_binding);
    reveal(spec_flow_of);
}

/// A name in a pattern stands for a new variable of the type that the pattern is
/// held against.
pub proof fn patterns_bind_their_names<'a>(
    state: State<'a>,
    mutable: bool,
    name: Identifier<'a>,
    ty: Type,
    asked: &str,
)
    requires
        state.frame.scopes is Cons,
        state.frame.next_local < u32::MAX,
    ensures
        ({
            let (after, kind) = state.bind_pattern_variable(mutable, name, ty);
            let local = LocalId(state.frame.next_local);
            &&& kind == (PatternKind::Binding { local, name: name.name, mutable })
            &&& after.lookup(asked) == (if asked@ == name.name@ {
                Some(Binding { local, ty, mutable })
            } else {
                state.lookup(asked)
            })
            &&& after.frame.next_local == state.frame.next_local + 1
            &&& after.types.problems.len() == state.types.problems.len() + (if state.is_declared_here(
                name.name,
            ) {
                1int
            } else {
                0int
            })
        }),
{
    reveal(State::bind_pattern_variable);
    reveal(State::report);
    reveal(State::new_local);
    reveal(State::declare);
    reveal(State::is_declared_here);
    reveal(State::lookup);
    reveal(spec_find_binding);
}

// What variables of a pattern refer to.

/// Whether a pattern binds a variable to a value that holds references.
pub open spec fn binds_references<'a>(
    types: Types<'a>,
    pattern: Pattern<'a>,
    local: LocalId,
) -> bool
    decreases pattern,
{
    match pattern.kind {
        PatternKind::Binding { local: bound, .. } => bound == local && types.is_scoped(pattern.ty),
        PatternKind::Tuple(elements) => some_bind_references(types, elements, local),
        PatternKind::Enum { fields, .. } => some_bind_references(types, fields, local),
        _ => false,
    }
}

/// Whether one of the patterns binds a variable to a value that holds references.
pub open spec fn some_bind_references<'a>(
    types: Types<'a>,
    patterns: List<Pattern<'a>>,
    local: LocalId,
) -> bool
    decreases patterns,
{
    match patterns {
        List::Nil => false,
        List::Cons(node) => binds_references(types, node.head, local) || some_bind_references(
            types,
            node.tail,
            local,
        ),
    }
}

/// The variables of a pattern that hold references refer to what the value that
/// it is held against refers to; of no other variable anything new is known.
pub proof fn variables_of_patterns_refer_to_the_value<'a>(
    state: State<'a>,
    pattern: Pattern<'a>,
    root: LocalId,
    local: LocalId,
)
    ensures
        ({
            let after = state.record_pattern_scoped_roots(pattern, root);
            &&& after.types == state.types
            &&& spec_find_known(after.frame.scoped_roots, local) == (if binds_references(
                state.types,
                pattern,
                local,
            ) {
                Some(root)
            } else {
                spec_find_known(state.frame.scoped_roots, local)
            })
        }),
    decreases pattern,
{
    reveal(State::record_pattern_scoped_roots);
    reveal(State::record_scoped_roots);
    reveal(State::set_scoped_root);
    match pattern.kind {
        PatternKind::Binding { local: bound, .. } => {
            known_is_found(state.frame.scoped_roots, bound, root, local);
        },
        PatternKind::Tuple(elements) => {
            variables_of_all_refer_to_the_value(state, elements, root, local);
        },
        PatternKind::Enum { fields, .. } => {
            variables_of_all_refer_to_the_value(state, fields, root, local);
        },
        _ => {},
    }
}

proof fn variables_of_all_refer_to_the_value<'a>(
    state: State<'a>,
    patterns: List<Pattern<'a>>,
    root: LocalId,
    local: LocalId,
)
    ensures
        ({
            let after = state.record_scoped_roots(patterns, root);
            &&& after.types == state.types
            &&& spec_find_known(after.frame.scoped_roots, local) == (if some_bind_references(
                state.types,
                patterns,
                local,
            ) {
                Some(root)
            } else {
                spec_find_known(state.frame.scoped_roots, local)
            })
        }),
    decreases patterns,
{
    reveal(State::record_scoped_roots);
    reveal(State::record_pattern_scoped_roots);
    if patterns is Cons {
        variables_of_patterns_refer_to_the_value(state, patterns.first(), root, local);
        variables_of_all_refer_to_the_value(
            state.record_pattern_scoped_roots(patterns.first(), root),
            patterns.rest(),
            root,
            local,
        );
    }
}

// Flow.

/// What follows is not reached behind a value that is never there, nor behind a
/// statement that stops; a block that stops has no value, and any other has the
/// value of its last expression.
pub proof fn stopped_blocks_have_no_value<'a>(
    ty: Type,
    first: Flow,
    rest: Flow,
    tail: Option<Expression<'a>>,
)
    ensures
        spec_flow_of(ty) is Stops <==> ty is Never,
        spec_then_flow(first, rest) is Stops <==> first is Stops || rest is Stops,
        spec_block_type(Flow::Stops, tail) is Never,
        spec_block_type(Flow::Continues, tail) == (match tail {
            Some(tail) => tail.ty,
            None => Type::Unit,
        }),
{
    reveal(spec_flow_of);
    reveal(spec_then_flow);
    reveal(spec_block_type);
    reveal(spec_optional_type);
}

/// Two branches have the type that both have, or that of the one that is left at
/// its end. Where they differ, a problem is reported, and only there.
pub proof fn branches_agree<'a>(state: State<'a>, left: Type, right: Type, span: Span)
    ensures
        ({
            let (after, ty) = state.unify_branch_types(left, right, span);
            if left is Never || right is Never || left == right {
                after == state && ty.accepts(left) && ty.accepts(right) && (ty == left || ty
                    == right)
            } else {
                after.types.problems.len() == state.types.problems.len() + 1
            }
        }),
{
    reveal(State::unify_branch_types);
    reveal(State::type_mismatch);
    reveal(State::report);
}

// Arguments of generic functions.

/// An argument of a generic function is held against the type of its parameter:
/// where they agree, the parameter stands for the type of the argument under the
/// bindings that are found, and bindings that were there are kept. Where they do
/// not, a problem is reported, and only there.
pub proof fn arguments_bind_parameters<'a>(
    state: State<'a>,
    parameters: List<Parameter<'a>>,
    ty: Type,
    position: u64,
    name: Text<'a>,
    template: GenericFunctionTemplate<'a>,
    environment: Environment<'a>,
    span: Span,
)
    requires
        parameters is Cons,
    ensures
        ({
            let (after, found) = state.infer_from_argument(
                parameters,
                ty,
                position,
                name,
                template,
                environment,
                span,
            );
            &&& binds_on(environment, found, template.parameters)
            &&& after.types.problems.len() == state.types.problems.len() ==> after == state
                && agrees(
                state.types,
                parameters.first().ty,
                ty,
                template.parameters,
                found,
            )
            &&& after.types.problems.len() != state.types.problems.len()
                ==> after.types.problems.len() == state.types.problems.len() + 1
        }),
{
    reveal(State::infer_from_argument);
    reveal(Types::infer);
    reveal(State::report);
    what_is_inferred_agrees(
        state.types,
        parameters.first().ty,
        ty,
        template.parameters,
        environment,
    );
}

} // verus!

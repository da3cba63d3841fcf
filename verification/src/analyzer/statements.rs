//! Blocks and statements.

use crate::analyzer::escaping::{checked_values_are_let_out, lets_out, problems_stay};
use crate::analyzer::sparing::{watched, Watch};
use crate::mention::{
    block_mentions, mentions, optional_mentions, pattern_mentions, statement_mentions,
    statements_mention,
};
use crate::analyzer::{Analyzer, Binding, Flow, LoopKind, State};
use crate::analyzer::frame::{
    find_visible, outermost, scoped_name, spec_find_visible, spec_outermost, spec_scoped_name,
};
use crate::analyzer::paths::{is_none_path, spec_is_none_path};
use crate::ast::{self, lone_name, single_path_name, Identifier, Path, TypeName};
use crate::hir::{
    self, invalid_composite_expression, irrefutable, pattern_is_irrefutable, Block, Expression,
    ForIteration, LocalId, Statement,
};
use crate::list::{cons, prepend, prepended, List};
use crate::registry::{IntrinsicType, LIMIT};
use crate::rendering::{
    block_renders, optional_renders, pattern_renders, statement_renders, statements_render,
};
use crate::span::{error, helped, Span};
use crate::syntax::{initializer_stores_borrow, stores_borrow};
use crate::text::{frame, framed, same, words, words2};
use crate::types::Type;
use crate::typing::{sound, sound_block, sound_if_any, sound_statement, sound_statements, Scene};
use vstd::prelude::*;

verus! {

broadcast use {
    crate::analyzer::growth::group_led,
    crate::analyzer::numbering::group_numbered,
    crate::analyzer::sparing::group_spared,
    crate::list::pushed_comes_first,
    crate::registry::growth::group_grown,
    crate::rendering::group_rendered,
    crate::span::group_kept,
    crate::typing::group_sound,
};

/// The statement of an expression, and whether it ends.
#[verifier::opaque]
pub open spec fn spec_expression_statement<'a>(analyzed: Expression<'a>) -> (Statement<'a>, Flow) {
    let flow = spec_flow_of(analyzed.ty);
    (Statement::Expression(analyzed), flow)
}

/// The statement of an expression, and whether it ends.
pub(crate) fn expression_statement<'a>(analyzed: Expression<'a>) -> (result: (Statement<'a>, Flow))
    ensures
        result == spec_expression_statement(analyzed),
        forall|scene: Scene|
            sound(analyzed, scene) ==> #[trigger] sound_statement(result.0, scene),
        result.0 == Statement::Expression(analyzed),
{
    reveal(spec_expression_statement);
    let flow = flow_of(analyzed.ty);
    (Statement::Expression(analyzed), flow)
}

/// Whether what follows a value of a type can be reached.
#[verifier::opaque]
pub open spec fn spec_flow_of(ty: Type) -> Flow {
    if ty == Type::Never {
        Flow::Stops
    } else {
        Flow::Continues
    }
}

/// Whether what follows a value of a type can be reached.
pub(crate) fn flow_of(ty: Type) -> (flow: Flow)
    ensures
        flow == spec_flow_of(ty),
{
    reveal(spec_flow_of);
    if ty == Type::Never {
        Flow::Stops
    } else {
        Flow::Continues
    }
}

/// The flow of a statement and of those behind it.
#[verifier::opaque]
pub open spec fn spec_then_flow(first: Flow, rest: Flow) -> Flow {
    if first == Flow::Stops {
        Flow::Stops
    } else {
        rest
    }
}

/// The flow of a statement and of those behind it.
pub(crate) fn then_flow(first: Flow, rest: Flow) -> (flow: Flow)
    ensures
        flow == spec_then_flow(first, rest),
{
    reveal(spec_then_flow);
    if first == Flow::Stops {
        Flow::Stops
    } else {
        rest
    }
}

/// The type of an optional value: without one, there is nothing.
#[verifier::opaque]
pub open spec fn spec_optional_type<'a>(value: Option<Expression<'a>>) -> Type {
    match value {
        Some(value) => value.ty,
        None => Type::Unit,
    }
}

/// The type of an optional value: without one, there is nothing.
pub(crate) fn optional_type<'a>(value: &Option<Expression<'a>>) -> (ty: Type)
    ensures
        ty == spec_optional_type(*value),
{
    reveal(spec_optional_type);
    match value {
        Some(value) => value.ty,
        None => Type::Unit,
    }
}

/// The type of a block.
#[verifier::opaque]
pub open spec fn spec_block_type<'a>(flow: Flow, tail: Option<Expression<'a>>) -> Type {
    if flow == Flow::Stops {
        Type::Never
    } else {
        spec_optional_type(tail)
    }
}

/// The type of a block.
pub(crate) fn block_type<'a>(flow: Flow, tail: &Option<Expression<'a>>) -> (ty: Type)
    ensures
        ty == spec_block_type(flow, *tail),
{
    reveal(spec_block_type);
    if flow == Flow::Stops {
        Type::Never
    } else {
        optional_type(tail)
    }
}

/// Whether an initializer keeps a borrow.
#[verifier::opaque]
pub open spec fn spec_keeps_borrow<'a>(initializer: ast::Expression<'a>) -> bool {
    stores_borrow(initializer)
}

/// Whether an initializer keeps a borrow.
pub(crate) fn keeps_borrow<'a>(initializer: &ast::Expression<'a>) -> (answer: bool)
    ensures
        answer == spec_keeps_borrow(*initializer),
{
    reveal(spec_keeps_borrow);
    initializer_stores_borrow(initializer)
}

impl<'a> State<'a> {
    /// A block whose value should have a type.
    pub open spec fn analyze_block(
        self,
        block: ast::Block<'a>,
        expected_tail: Option<Type>,
        fuel: nat,
    ) -> (Self, Block<'a>)
        decreases fuel, 0nat, List::<Type>::Nil,
    {
        if fuel == 0 {
            let s = self.report(
                error("E3999", words("this block is nested too deeply"), block.span),
            );
            (s, Block { statements: List::Nil, tail: None, ty: Type::Unit, span: block.span })
        } else {
            self.analyze_block_form(block, expected_tail, (fuel - 1) as nat)
        }
    }

    /// A block, in a scope of its own.
    pub open spec fn analyze_block_form(
        self,
        block: ast::Block<'a>,
        expected_tail: Option<Type>,
        fuel: nat,
    ) -> (Self, Block<'a>)
        decreases fuel, 5nat, List::<Type>::Nil,
    {
        let s = self.push_scope();
        let (s, (statements, flow)) = s.analyze_statements(block.statements, fuel);
        let (s, tail) = s.analyze_optional(block.tail, expected_tail, fuel);
        let s = s.pop_scope();
        let ty = spec_block_type(flow, tail);
        (s, Block { statements, tail, ty, span: block.span })
    }

    /// An optional expression.
    pub open spec fn analyze_optional(
        self,
        expression: Option<ast::Expression<'a>>,
        expected: Option<Type>,
        fuel: nat,
    ) -> (Self, Option<Expression<'a>>)
        decreases fuel, 1nat, List::<Type>::Nil,
    {
        match expression {
            None => (self, None),
            Some(expression) => {
                let (s, analyzed) = self.analyze_expression_expected(expression, expected, fuel);
                (s, Some(analyzed))
            },
        }
    }

    /// Statements in turn.
    pub open spec fn analyze_statements(
        self,
        statements: List<ast::Statement<'a>>,
        fuel: nat,
    ) -> (Self, (List<Statement<'a>>, Flow))
        decreases fuel, 4nat, statements,
    {
        match statements {
            List::Nil => (self, (List::Nil, Flow::Continues)),
            List::Cons(node) => {
                let (s, (first, flow)) = self.analyze_statement(node.head, fuel);
                let (s, (rest, rest_flow)) = s.analyze_statements(node.tail, fuel);
                (s, (cons(first, rest), spec_then_flow(flow, rest_flow)))
            },
        }
    }

    /// A statement.
    pub open spec fn analyze_statement(
        self,
        statement: ast::Statement<'a>,
        fuel: nat,
    ) -> (Self, (Statement<'a>, Flow))
        decreases fuel, 3nat, List::<Type>::Nil,
    {
        match statement {
            ast::Statement::Let { name, mutable, ty, initializer, span } => self.analyze_let_statement(
                name,
                mutable,
                ty,
                initializer,
                span,
                fuel,
            ),
            ast::Statement::Expression(expression) => {
                let (s, analyzed) = self.analyze_expression_expected(expression, None, fuel);
                (s, spec_expression_statement(analyzed))
            },
            ast::Statement::Defer { action, span } => self.analyze_defer_statement(
                action,
                span,
                fuel,
            ),
            ast::Statement::Return { value, span } => self.analyze_return_statement(
                value,
                span,
                fuel,
            ),
            ast::Statement::While { condition, body, span } => self.analyze_while_statement(
                condition,
                body,
                span,
                fuel,
            ),
            ast::Statement::For { pattern, iterable, body, span } => self.analyze_for_statement(
                pattern,
                iterable,
                body,
                span,
                fuel,
            ),
            ast::Statement::Break { value, span } => self.analyze_break_statement(
                value,
                span,
                fuel,
            ),
            ast::Statement::Continue(span) => self.analyze_continue_statement(span),
        }
    }

    /// A deferred action.
    pub open spec fn analyze_defer_statement(
        self,
        action: ast::Expression<'a>,
        span: Span,
        fuel: nat,
    ) -> (Self, (Statement<'a>, Flow))
        decreases fuel, 1nat, List::<Type>::Nil,
    {
        let s = self.enter_defer();
        let (s, action) = s.analyze_expression_expected(action, Some(Type::Unit), fuel);
        let s = s.leave_defer();
        let s = s.require_type(Type::Unit, action.ty, action.span, "deferred action");
        (s, (Statement::Defer { action, span }, Flow::Continues))
    }

    /// A `return`.
    pub open spec fn analyze_return_statement(
        self,
        value: Option<ast::Expression<'a>>,
        span: Span,
        fuel: nat,
    ) -> (Self, (Statement<'a>, Flow))
        decreases fuel, 2nat, List::<Type>::Nil,
    {
        let s = self.reject_deferred_control_flow("`return`", span);
        let s = s.validate_optional_return(value, span);
        let return_type = s.frame.signature.return_type;
        let (s, value) = s.analyze_optional(value, Some(return_type), fuel);
        let s = s.require_type(return_type, spec_optional_type(value), span, "return value");
        (s, (Statement::Return { value, span }, Flow::Stops))
    }

    /// A returned reference must not outlive what it refers to.
    #[verifier::opaque]
    pub open spec fn validate_optional_return(
        self,
        value: Option<ast::Expression<'a>>,
        span: Span,
    ) -> Self {
        match value {
            Some(value) => self.validate_scoped_return(value, span),
            None => self,
        }
    }

    /// A `break`.
    pub open spec fn analyze_break_statement(
        self,
        value: Option<ast::Expression<'a>>,
        span: Span,
        fuel: nat,
    ) -> (Self, (Statement<'a>, Flow))
        decreases fuel, 2nat, List::<Type>::Nil,
    {
        let s = self.reject_deferred_control_flow("`break`", span);
        let expected = match s.innermost_loop() {
            Some(context) => context.expected,
            None => None,
        };
        let (s, value) = s.analyze_optional(value, expected, fuel);
        let s = s.record_break_type(spec_optional_type(value), span);
        (s, (Statement::Break { value, span }, Flow::Stops))
    }

    /// A `continue`.
    #[verifier::opaque]
    pub open spec fn analyze_continue_statement(self, span: Span) -> (Self, (Statement<'a>, Flow)) {
        let s = self.reject_deferred_control_flow("`continue`", span);
        let s = if s.innermost_loop().is_none() {
            let s = s.report(
                error("E3110", words("`continue` can only be used inside a loop"), span),
            );
            s
        } else {
            s
        };
        (s, (Statement::Continue(span), Flow::Stops))
    }

    /// A deferred action must not transfer control.
    #[verifier::opaque]
    pub open spec fn reject_deferred_control_flow(self, operation: &'a str, span: Span) -> Self {
        if self.frame.defer_depth > 0 {
            let s = self.report(
                helped(
                    "E3142",
                    words2(operation, " cannot transfer control from a deferred action"),
                    "move the control-flow operation outside the `defer` action",
                    span,
                ),
            );
            s
        } else {
            self
        }
    }

    /// An optional type, resolved.
    #[verifier::opaque]
    pub open spec fn resolve_optional_type(
        self,
        written: Option<TypeName<'a>>,
    ) -> (Self, Option<Type>) {
        match written {
            Some(written) => self.resolve_type(written),
            None => (self, None),
        }
    }

    /// A variable with its initializer.
    pub open spec fn analyze_let_statement(
        self,
        name: Identifier<'a>,
        mutable: bool,
        written: Option<TypeName<'a>>,
        initializer: ast::Expression<'a>,
        span: Span,
        fuel: nat,
    ) -> (Self, (Statement<'a>, Flow))
        decreases fuel, 1nat, List::<Type>::Nil,
    {
        let (s, declared_type) = self.resolve_optional_type(written);
        let persistent = s.frame.persistent_borrow;
        let s = s.set_persistent(spec_keeps_borrow(initializer));
        let (s, value) = s.analyze_expression_expected(initializer, declared_type, fuel);
        let s = s.set_persistent(persistent);
        s.bind_initialized(name, mutable, declared_type, initializer, value, span)
    }

    /// A variable is bound to its initial value.
    #[verifier::opaque]
    pub open spec fn bind_initialized(
        self,
        name: Identifier<'a>,
        mutable: bool,
        declared_type: Option<Type>,
        source: ast::Expression<'a>,
        initializer: Expression<'a>,
        span: Span,
    ) -> (Self, (Statement<'a>, Flow)) {
        let ty = match declared_type {
            Some(ty) => ty,
            None => initializer.ty,
        };
        let s = self.require_expected(
            declared_type,
            initializer.ty,
            source.span,
            "binding initializer",
        );
        let (s, local) = s.new_local(name.span);
        let s = s.inherit_root(local, ty, source);
        let s = s.declare(name.name, Binding { local, ty, mutable });
        let flow = spec_flow_of(initializer.ty);
        (s, (Statement::Let { local, name: name.name, mutable, ty, initializer, span }, flow))
    }

    /// A variable that holds a reference leads to where its initializer leads.
    #[verifier::opaque]
    pub open spec fn inherit_root(
        self,
        local: LocalId,
        ty: Type,
        source: ast::Expression<'a>,
    ) -> Self {
        if self.types.is_scoped(ty) {
            match self.scoped_source_local(source) {
                Some(root) => self.set_scoped_root(local, root),
                None => self,
            }
        } else {
            self
        }
    }

    /// The value of an expression that holds a reference leads to a variable.
    #[verifier::opaque]
    pub open spec fn record_root(self, source: ast::Expression<'a>, ty: Type) -> Self {
        if self.types.is_scoped(ty) {
            match self.scoped_source_local(source) {
                Some(root) => self.set_expression_root(source.span, root),
                None => self,
            }
        } else {
            self
        }
    }

    /// A `while`.
    pub open spec fn analyze_while_statement(
        self,
        condition: ast::Expression<'a>,
        body: ast::Block<'a>,
        span: Span,
        fuel: nat,
    ) -> (Self, (Statement<'a>, Flow))
        decreases fuel, 1nat, List::<Type>::Nil,
    {
        let (s, analyzed) = self.analyze_expression_expected(condition, Some(Type::Bool), fuel);
        let s = s.require_type(Type::Bool, analyzed.ty, condition.span, "while condition");
        let s = s.push_loop(LoopKind::Statement, Some(Type::Unit));
        let (s, body) = s.analyze_block(body, None, fuel);
        let s = s.pop_loop();
        (s, (Statement::While { condition: analyzed, body, span }, Flow::Continues))
    }

    /// What a `for` binds its pattern to, and how it goes on.
    #[verifier::opaque]
    pub open spec fn iteration_of(self, ty: Type) -> Option<(Type, ForIteration)> {
        match self.indexed_element(ty) {
            Some(element) => Some((element, ForIteration::Indexed)),
            None => if self.types.is_chars(ty) {
                Some((Type::Char, ForIteration::Chars))
            } else {
                None
            },
        }
    }

    /// A `for`.
    pub open spec fn analyze_for_statement(
        self,
        pattern: ast::Pattern<'a>,
        iterable: ast::Expression<'a>,
        body: ast::Block<'a>,
        span: Span,
        fuel: nat,
    ) -> (Self, (Statement<'a>, Flow))
        decreases fuel, 1nat, List::<Type>::Nil,
    {
        let (s, analyzed) = self.analyze_expression_expected(iterable, None, fuel);
        match s.iteration_of(analyzed.ty) {
            None => {
                let s = s.report(
                    helped(
                        "E3130",
                        framed("`for` cannot iterate over `", analyzed.ty.text(), "`"),
                        "iteration requires an array, array reference, slice, or `str.chars()` iterator",
                        iterable.span,
                    ),
                );
                (s, (Statement::Expression(invalid_composite_expression(span)), Flow::Continues))
            },
            Some((element_type, iteration)) => {
                let s = s.push_scope();
                let (s, bound_pattern) = s.analyze_irrefutable_pattern(pattern, element_type);
                let s = s.push_loop(LoopKind::Statement, Some(Type::Unit));
                let (s, body) = s.analyze_block(body, None, fuel);
                let s = s.pop_loop();
                let s = s.pop_scope();
                (
                    s,
                    (
                        Statement::For {
                            pattern: bound_pattern,
                            element_type,
                            iteration,
                            iterable: analyzed,
                            body,
                            span,
                        },
                        Flow::Continues,
                    ),
                )
            },
        }
    }

    /// A pattern that must match every value of a type.
    #[verifier::opaque]
    pub open spec fn analyze_irrefutable_pattern(
        self,
        pattern: ast::Pattern<'a>,
        expected: Type,
    ) -> (Self, hir::Pattern<'a>) {
        let (s, analyzed) = self.analyze_pattern(pattern, expected);
        let s = if !irrefutable(analyzed) {
            let s = s.report(
                helped(
                    "E3131",
                    words("`for` requires an irrefutable pattern"),
                    "use bindings, `_`, or tuple patterns containing only those forms",
                    pattern.span,
                ),
            );
            s
        } else {
            s
        };
        (s, analyzed)
    }

    /// The innermost loop is left with a value of a type.
    #[verifier::opaque]
    pub open spec fn record_break_type(self, actual: Type, span: Span) -> Self {
        match self.innermost_loop() {
            None => self.report(
                error("E3109", words("`break` can only be used inside a loop"), span),
            ),
            Some(context) => if context.kind == LoopKind::Statement {
                if actual != Type::Never && actual != Type::Unit {
                    let s = self.type_mismatch(Type::Unit, actual, span, "statement loop break");
                    s
                } else {
                    self
                }
            } else {
                let s = self.record_break_value(context.expected, context.break_type, actual, span);
                s
            },
        }
    }

    /// A `loop` is left with a value of a type.
    #[verifier::opaque]
    pub open spec fn record_break_value(
        self,
        expected: Option<Type>,
        break_type: Option<Type>,
        actual: Type,
        span: Span,
    ) -> Self {
        let wanted = match expected {
            Some(expected) => Some(expected),
            None => break_type,
        };
        let accepted = match wanted {
            Some(wanted) => wanted.accepts(actual),
            None => true,
        };
        if !accepted {
            let s = self.require_expected(wanted, actual, span, "loop break value");
            s
        } else if actual != Type::Never && break_type.is_none() {
            let s = self.set_break_type(actual);
            s
        } else {
            self
        }
    }

    /// The number of types that hold a reference.
    #[verifier::opaque]
    pub open spec fn count_scoped(self, list: List<Type>) -> u64
        decreases list,
    {
        match list {
            List::Nil => 0,
            List::Cons(node) => if self.types.is_scoped(node.head) {
                self.count_scoped(node.tail).saturating_add(1)
            } else {
                self.count_scoped(node.tail)
            },
        }
    }

    /// Whether a returned expression holds no reference after all.
    #[verifier::opaque]
    pub open spec fn scoped_return_is_empty(self, expression: ast::Expression<'a>) -> bool {
        match *expression.kind {
            ast::ExpressionKind::Path(path) => spec_is_none_path(path),
            ast::ExpressionKind::Call(call) => match *call.callee.kind {
                ast::ExpressionKind::Path(path) => self.wraps_unscoped(path),
                _ => false,
            },
            _ => false,
        }
    }

    /// Whether a constructor of the result wraps a value that holds no reference.
    #[verifier::opaque]
    pub open spec fn wraps_unscoped(self, path: Path<'a>) -> bool {
        match lone_name(path) {
            None => false,
            Some(name) => match self.intrinsic(self.frame.signature.return_type) {
                Some(IntrinsicType::Option { value }) => name@ == "Some"@
                    && !self.types.is_scoped(value),
                Some(IntrinsicType::Result { success, error }) => (
                    name@ == "Ok"@ && !self.types.is_scoped(success)
                ) || (name@ == "Err"@ && !self.types.is_scoped(error)),
                None => false,
            },
        }
    }

    /// Whether the function takes exactly one value that holds a reference, as its
    /// first parameter.
    #[verifier::opaque]
    pub open spec fn has_one_scoped_source(self) -> bool {
        self.count_scoped(self.frame.signature.parameter_types) == 1
            && (match self.frame.signature.parameter_types {
                List::Nil => false,
                List::Cons(node) => self.types.is_scoped(node.head),
            })
    }

    /// Whether a local variable is a parameter that holds a reference.
    #[verifier::opaque]
    pub open spec fn is_scoped_parameter(self, root: LocalId) -> bool {
        root.0 < self.frame.parameter_count
            && (match spec_find_visible(spec_outermost(self.frame.scopes), root, List::Nil) {
                Some(candidate) => self.types.is_scoped(candidate.ty),
                None => false,
            })
    }

    /// Whether what an expression refers to outlives the function.
    #[verifier::opaque]
    pub open spec fn is_rooted_in_parameter(self, expression: ast::Expression<'a>) -> bool {
        let root = match self.expression_root(expression.span) {
            Some(root) => Some(root),
            None => self.scoped_source_local(expression),
        };
        match root {
            Some(root) => self.is_scoped_parameter(root),
            None => false,
        }
    }

    /// Whether an expression refers to a static.
    #[verifier::opaque]
    pub open spec fn is_rooted_in_static(self, expression: ast::Expression<'a>) -> bool {
        match spec_scoped_name(expression) {
            Some(name) => self.is_static(name),
            None => false,
        }
    }

    /// A returned expression must not outlive what it refers to.
    #[verifier::opaque]
    pub open spec fn validate_scoped_return(
        self,
        expression: ast::Expression<'a>,
        span: Span,
    ) -> Self {
        let s = self.validate_return_within(expression, span, LIMIT as nat);
        s
    }

    /// A returned expression, followed into it no deeper than `fuel`.
    pub open spec fn validate_return_within(
        self,
        expression: ast::Expression<'a>,
        span: Span,
        fuel: nat,
    ) -> Self
        decreases fuel, 0nat, List::<Type>::Nil,
    {
        if fuel == 0 {
            let s = self.report(
                error("E3999", words("this expression is nested too deeply"), span),
            );
            s
        } else if self.types.is_scoped(self.frame.signature.return_type) {
            let s = self.validate_return_form(expression, span, (fuel - 1) as nat);
            s
        } else {
            self
        }
    }

    /// A returned expression, by its form: each of its branches is returned.
    pub open spec fn validate_return_form(
        self,
        expression: ast::Expression<'a>,
        span: Span,
        fuel: nat,
    ) -> Self
        decreases fuel, 2nat, List::<Type>::Nil,
    {
        match *expression.kind {
            ast::ExpressionKind::Match { arms, .. } => self.validate_returned_arms(arms, fuel),
            ast::ExpressionKind::If { then_branch, else_branch, .. } => {
                let s = self.validate_returned_branch(then_branch.tail, fuel);
                let s = s.validate_returned_branch(else_branch, fuel);
                s
            },
            ast::ExpressionKind::Block(block) => self.validate_returned_branch(block.tail, fuel),
            _ => if !self.scoped_return_is_empty(expression)
                && !self.is_rooted_in_static(expression) {
                let s = self.validate_return_source(expression, span);
                s
            } else {
                self
            },
        }
    }

    /// The arms of a returned `match`.
    pub open spec fn validate_returned_arms(self, arms: List<ast::MatchArm<'a>>, fuel: nat) -> Self
        decreases fuel, 1nat, arms,
    {
        match arms {
            List::Nil => self,
            List::Cons(node) => {
                let s = if !self.scoped_return_is_empty(node.head.body) {
                    let s = self.validate_return_within(node.head.body, node.head.span, fuel);
                    s
                } else {
                    self
                };
                let s = s.validate_returned_arms(node.tail, fuel);
                s
            },
        }
    }

    /// A branch of a returned expression.
    pub open spec fn validate_returned_branch(
        self,
        branch: Option<ast::Expression<'a>>,
        fuel: nat,
    ) -> Self
        decreases fuel, 1nat, List::<Type>::Nil,
    {
        match branch {
            None => self,
            Some(branch) => if !self.scoped_return_is_empty(branch) {
                let s = self.validate_return_within(branch, branch.span, fuel);
                s
            } else {
                self
            },
        }
    }

    /// What a returned expression refers to must be the first parameter.
    #[verifier::opaque]
    pub open spec fn validate_return_source(
        self,
        expression: ast::Expression<'a>,
        span: Span,
    ) -> Self {
        if !self.has_one_scoped_source() {
            let s = self.report(
                helped(
                    "E3137",
                    words(
                        "a scoped return requires exactly one scoped source as its first parameter",
                    ),
                    "place the owner or borrowed source first and return owned data when multiple lifetimes are involved",
                    span,
                ),
            );
            s
        } else if !self.is_rooted_in_parameter(expression) {
            let s = self.report(
                helped(
                    "E3137",
                    words("a scoped reference or view cannot escape this function"),
                    "return data rooted in the first scoped parameter or return owned data",
                    span,
                ),
            );
            s
        } else {
            self
        }
    }
}

impl<'a> Analyzer<'a> {
    /// A block whose value should have a type.
    pub(crate) fn analyze_block(
        &mut self,
        block: &ast::Block<'a>,
        expected_tail: Option<Type>,
        fuel: u32,
    ) -> (analyzed: Block<'a>)
        ensures
            (final(self)@, analyzed) == old(self)@.analyze_block(
                *block,
                expected_tail,
                fuel as nat,
            ),
            old(self)@.leads_to(final(self)@),
            forall|watch: Watch| #[trigger]
                watched(watch) && old(self)@.is_apart(watch)
                    && !block_mentions(*block, watch.name)
                    ==> old(self)@.spares(final(self)@, watch),
            forall|scene: Scene| #[trigger]
                final(self)@.admits(scene) && old(self)@.prepared()
                    ==> final(self)@.troubled() || sound_block(analyzed, scene),
            final(self)@.troubled() || block_renders(*block, analyzed),
        decreases fuel, 0nat, List::<Type>::Nil,
    {
        if fuel == 0 {
            self.report(error("E3999", words("this block is nested too deeply"), block.span));
            return Block { statements: List::Nil, tail: None, ty: Type::Unit, span: block.span };
        }
        self.analyze_block_form(block, expected_tail, fuel - 1)
    }

    /// A block, in a scope of its own.
    pub(crate) fn analyze_block_form(
        &mut self,
        block: &ast::Block<'a>,
        expected_tail: Option<Type>,
        fuel: u32,
    ) -> (analyzed: Block<'a>)
        ensures
            (final(self)@, analyzed) == old(self)@.analyze_block_form(
                *block,
                expected_tail,
                fuel as nat,
            ),
            old(self)@.leads_to(final(self)@),
            forall|watch: Watch| #[trigger]
                watched(watch) && old(self)@.is_apart(watch)
                    && !block_mentions(*block, watch.name)
                    ==> old(self)@.spares(final(self)@, watch),
            forall|scene: Scene| #[trigger]
                final(self)@.admits(scene) && old(self)@.prepared()
                    ==> final(self)@.troubled() || sound_block(analyzed, scene),
            final(self)@.troubled() || block_renders(*block, analyzed),
        decreases fuel, 5nat, List::<Type>::Nil,
    {
        reveal(spec_block_type);
        reveal(spec_optional_type);
        self.push_scope();
        let (statements, flow) = self.analyze_statements(&block.statements, fuel);
        let tail = self.analyze_optional(&block.tail, expected_tail, fuel);
        self.pop_scope();
        let ty = block_type(flow, &tail);
        Block { statements, tail, ty, span: block.span }
    }

    /// An optional expression.
    pub(crate) fn analyze_optional(
        &mut self,
        expression: &Option<ast::Expression<'a>>,
        expected: Option<Type>,
        fuel: u32,
    ) -> (analyzed: Option<Expression<'a>>)
        ensures
            (final(self)@, analyzed) == old(self)@.analyze_optional(
                *expression,
                expected,
                fuel as nat,
            ),
            old(self)@.leads_to(final(self)@),
            forall|watch: Watch| #[trigger]
                watched(watch) && old(self)@.is_apart(watch)
                    && !optional_mentions(*expression, watch.name)
                    ==> old(self)@.spares(final(self)@, watch),
            forall|scene: Scene| #[trigger]
                final(self)@.admits(scene) && old(self)@.prepared()
                    ==> final(self)@.troubled() || sound_if_any(analyzed, scene),
            final(self)@.troubled() || optional_renders(*expression, analyzed),
        decreases fuel, 1nat, List::<Type>::Nil,
    {
        match expression {
            None => None,
            Some(expression) => {
                let analyzed = self.analyze_expression_expected(expression, expected, fuel);
                Some(analyzed)
            },
        }
    }

    /// Statements in turn.
    pub(crate) fn analyze_statements(
        &mut self,
        statements: &List<ast::Statement<'a>>,
        fuel: u32,
    ) -> (analyzed: (List<Statement<'a>>, Flow))
        ensures
            (final(self)@, analyzed) == old(self)@.analyze_statements(*statements, fuel as nat),
            old(self)@.leads_to(final(self)@),
            forall|watch: Watch| #[trigger]
                watched(watch) && old(self)@.is_apart(watch)
                    && !statements_mention(*statements, watch.name)
                    ==> old(self)@.spares(final(self)@, watch),
            forall|scene: Scene| #[trigger]
                final(self)@.admits(scene) && old(self)@.prepared()
                    ==> final(self)@.troubled() || sound_statements(analyzed.0, scene),
            final(self)@.troubled() || statements_render(*statements, analyzed.0),
        decreases fuel, 4nat, *statements,
    {
        let mut ahead: &List<ast::Statement<'a>> = statements;
        let mut flow: Flow = Flow::Continues;
        let mut done: Vec<Statement<'a>> = Vec::new();
        proof {
            reveal(spec_then_flow);
        }
        loop
            invariant
                old(self)@.analyze_statements(*statements, fuel as nat) == {
                    let (state, (rest, rest_flow)) = self@.analyze_statements(*ahead, fuel as nat);
                    (state, (prepended(done@, rest), spec_then_flow(flow, rest_flow)))
                },
                old(self)@.leads_to(self@),
                forall|watch: Watch| #[trigger]
                    watched(watch) && old(self)@.is_apart(watch)
                        && !statements_mention(*statements, watch.name)
                        ==> old(self)@.spares(self@, watch),
                forall|watch: Watch| #[trigger]
                    watched(watch) && !statements_mention(*statements, watch.name)
                        ==> !statements_mention(*ahead, watch.name),
                forall|scene: Scene| #[trigger]
                    self@.admits(scene) && old(self)@.prepared()
                        ==> self@.troubled() || sound_statements(
                        prepended(done@, List::Nil),
                        scene,
                    ),
                self@.troubled() || forall|rest: List<Statement<'a>>|
                    statements_render(*ahead, rest) ==> statements_render(
                        *statements,
                        #[trigger] prepended(done@, rest),
                    ),
            decreases *ahead,
        {
            reveal(spec_then_flow);
            match ahead {
                List::Nil => {
                    return (prepend(done, List::Nil), flow);
                },
                List::Cons(node) => {
                    let (first, first_flow) = self.analyze_statement(&node.head, fuel);
                    done.push(first);
                    flow = then_flow(flow, first_flow);
                    ahead = &node.tail;
                },
            }
        }
    }

    /// A statement.
    pub(crate) fn analyze_statement(
        &mut self,
        statement: &ast::Statement<'a>,
        fuel: u32,
    ) -> (analyzed: (Statement<'a>, Flow))
        ensures
            (final(self)@, analyzed) == old(self)@.analyze_statement(*statement, fuel as nat),
            old(self)@.leads_to(final(self)@),
            forall|watch: Watch| #[trigger]
                watched(watch) && old(self)@.is_apart(watch)
                    && !statement_mentions(*statement, watch.name)
                    ==> old(self)@.spares(final(self)@, watch),
            forall|scene: Scene| #[trigger]
                final(self)@.admits(scene) && old(self)@.prepared()
                    ==> final(self)@.troubled() || sound_statement(analyzed.0, scene),
            final(self)@.troubled() || statement_renders(*statement, analyzed.0),
            match *statement {
                ast::Statement::Return { value, .. } => lets_out(old(self)@, final(self)@, value),
                _ => true,
            },
        decreases fuel, 3nat, List::<Type>::Nil,
    {
        match statement {
            ast::Statement::Let { name, mutable, ty, initializer, span } => self.analyze_let_statement(
                *name,
                *mutable,
                ty,
                initializer,
                *span,
                fuel,
            ),
            ast::Statement::Expression(expression) => {
                let analyzed = self.analyze_expression_expected(expression, None, fuel);
                expression_statement(analyzed)
            },
            ast::Statement::Defer { action, span } => self.analyze_defer_statement(
                action,
                *span,
                fuel,
            ),
            ast::Statement::Return { value, span } => self.analyze_return_statement(
                value,
                *span,
                fuel,
            ),
            ast::Statement::While { condition, body, span } => self.analyze_while_statement(
                condition,
                body,
                *span,
                fuel,
            ),
            ast::Statement::For { pattern, iterable, body, span } => self.analyze_for_statement(
                pattern,
                iterable,
                body,
                *span,
                fuel,
            ),
            ast::Statement::Break { value, span } => self.analyze_break_statement(
                value,
                *span,
                fuel,
            ),
            ast::Statement::Continue(span) => self.analyze_continue_statement(*span),
        }
    }

    /// A deferred action.
    pub(crate) fn analyze_defer_statement(
        &mut self,
        action: &ast::Expression<'a>,
        span: Span,
        fuel: u32,
    ) -> (analyzed: (Statement<'a>, Flow))
        ensures
            (final(self)@, analyzed) == old(self)@.analyze_defer_statement(
                *action,
                span,
                fuel as nat,
            ),
            old(self)@.leads_to(final(self)@),
            forall|watch: Watch| #[trigger]
                watched(watch) && old(self)@.is_apart(watch) && !mentions(*action, watch.name)
                    ==> old(self)@.spares(final(self)@, watch),
            forall|scene: Scene| #[trigger]
                final(self)@.admits(scene) && old(self)@.prepared()
                    ==> final(self)@.troubled() || sound_statement(analyzed.0, scene),
            final(self)@.troubled() || statement_renders(
                ast::Statement::Defer { action: *action, span },
                analyzed.0,
            ),
        decreases fuel, 1nat, List::<Type>::Nil,
    {
        self.enter_defer();
        let action = self.analyze_expression_expected(action, Some(Type::Unit), fuel);
        self.leave_defer();
        self.require_type(Type::Unit, action.ty, action.span, "deferred action");
        (Statement::Defer { action, span }, Flow::Continues)
    }

    /// A `return`.
    pub(crate) fn analyze_return_statement(
        &mut self,
        value: &Option<ast::Expression<'a>>,
        span: Span,
        fuel: u32,
    ) -> (analyzed: (Statement<'a>, Flow))
        ensures
            (final(self)@, analyzed) == old(self)@.analyze_return_statement(
                *value,
                span,
                fuel as nat,
            ),
            old(self)@.leads_to(final(self)@),
            forall|watch: Watch| #[trigger]
                watched(watch) && old(self)@.is_apart(watch)
                    && !optional_mentions(*value, watch.name)
                    ==> old(self)@.spares(final(self)@, watch),
            forall|scene: Scene| #[trigger]
                final(self)@.admits(scene) && old(self)@.prepared()
                    ==> final(self)@.troubled() || sound_statement(analyzed.0, scene),
            final(self)@.troubled() || statement_renders(
                ast::Statement::Return { value: *value, span },
                analyzed.0,
            ),
            lets_out(old(self)@, final(self)@, *value),
        decreases fuel, 2nat, List::<Type>::Nil,
    {
        reveal(State::output);
        reveal(spec_optional_type);
        self.reject_deferred_control_flow("`return`", span);
        let ghost allowed = self@;
        self.validate_optional_return(value, span);
        let ghost checked = self@;
        let return_type = self.frame.signature.return_type;
        let analyzed = self.analyze_optional(value, Some(return_type), fuel);
        self.require_type(return_type, optional_type(&analyzed), span, "return value");
        proof {
            problems_stay(old(self)@, allowed);
            problems_stay(allowed, checked);
            problems_stay(checked, self@);
        }
        (Statement::Return { value: analyzed, span }, Flow::Stops)
    }

    /// A returned reference must not outlive what it refers to.
    pub(crate) fn validate_optional_return(
        &mut self,
        value: &Option<ast::Expression<'a>>,
        span: Span,
    )
        ensures
            final(self)@ == old(self)@.validate_optional_return(*value, span),
            old(self)@.leads_to(final(self)@),
            old(self)@.stays(final(self)@),
            lets_out(old(self)@, final(self)@, *value),
    {
        reveal(State::validate_optional_return);
        match value {
            Some(value) => self.validate_scoped_return(value, span),
            None => {
            },
        }
        proof {
            checked_values_are_let_out(old(self)@, self@, *value, span);
        }
    }

    /// A `break`.
    pub(crate) fn analyze_break_statement(
        &mut self,
        value: &Option<ast::Expression<'a>>,
        span: Span,
        fuel: u32,
    ) -> (analyzed: (Statement<'a>, Flow))
        ensures
            (final(self)@, analyzed) == old(self)@.analyze_break_statement(
                *value,
                span,
                fuel as nat,
            ),
            old(self)@.leads_to(final(self)@),
            forall|watch: Watch| #[trigger]
                watched(watch) && old(self)@.is_apart(watch)
                    && !optional_mentions(*value, watch.name)
                    ==> old(self)@.spares(final(self)@, watch),
            forall|scene: Scene| #[trigger]
                final(self)@.admits(scene) && old(self)@.prepared()
                    ==> final(self)@.troubled() || sound_statement(analyzed.0, scene),
            final(self)@.troubled() || statement_renders(
                ast::Statement::Break { value: *value, span },
                analyzed.0,
            ),
        decreases fuel, 2nat, List::<Type>::Nil,
    {
        self.reject_deferred_control_flow("`break`", span);
        let expected = match self.innermost_loop() {
            Some(context) => context.expected,
            None => None,
        };
        let value = self.analyze_optional(value, expected, fuel);
        self.record_break_type(optional_type(&value), span);
        (Statement::Break { value, span }, Flow::Stops)
    }

    /// A `continue`.
    pub(crate) fn analyze_continue_statement(
        &mut self,
        span: Span,
    ) -> (analyzed: (Statement<'a>, Flow))
        ensures
            (final(self)@, analyzed) == old(self)@.analyze_continue_statement(span),
            old(self)@.leads_to(final(self)@),
            old(self)@.stays(final(self)@),
            forall|scene: Scene| #[trigger]
                final(self)@.admits(scene) && old(self)@.prepared()
                    ==> final(self)@.troubled() || sound_statement(analyzed.0, scene),
            analyzed.0 is Continue,
    {
        reveal(State::analyze_continue_statement);
        self.reject_deferred_control_flow("`continue`", span);
        if self.innermost_loop().is_none() {
            self.report(error("E3110", words("`continue` can only be used inside a loop"), span));
        }
        (Statement::Continue(span), Flow::Stops)
    }

    /// A deferred action must not transfer control.
    pub(crate) fn reject_deferred_control_flow(&mut self, operation: &'a str, span: Span)
        ensures
            final(self)@ == old(self)@.reject_deferred_control_flow(operation, span),
            old(self)@.leads_to(final(self)@),
            old(self)@.stays(final(self)@),
            final(self)@ == old(self)@ || old(self)@.types.problems.len()
                < final(self)@.types.problems.len(),
    {
        reveal(State::reject_deferred_control_flow);
        reveal(State::report);
        if self.frame.defer_depth > 0 {
            self.report(
                helped(
                    "E3142",
                    words2(operation, " cannot transfer control from a deferred action"),
                    "move the control-flow operation outside the `defer` action",
                    span,
                ),
            );
        }
    }

    /// An optional type, resolved.
    pub(crate) fn resolve_optional_type(
        &mut self,
        written: &Option<TypeName<'a>>,
    ) -> (ty: Option<Type>)
        ensures
            (final(self)@, ty) == old(self)@.resolve_optional_type(*written),
            old(self)@.leads_to(final(self)@),
            old(self)@.stays(final(self)@),
    {
        reveal(State::resolve_optional_type);
        match written {
            Some(written) => self.resolve_type(written),
            None => None,
        }
    }

    /// A variable with its initializer.
    pub(crate) fn analyze_let_statement(
        &mut self,
        name: Identifier<'a>,
        mutable: bool,
        written: &Option<TypeName<'a>>,
        initializer: &ast::Expression<'a>,
        span: Span,
        fuel: u32,
    ) -> (analyzed: (Statement<'a>, Flow))
        ensures
            (final(self)@, analyzed) == old(self)@.analyze_let_statement(
                name,
                mutable,
                *written,
                *initializer,
                span,
                fuel as nat,
            ),
            old(self)@.leads_to(final(self)@),
            forall|watch: Watch| #[trigger]
                watched(watch) && old(self)@.is_apart(watch) && name.name@ != watch.name
                    && !mentions(*initializer, watch.name)
                    ==> old(self)@.spares(final(self)@, watch),
            forall|scene: Scene| #[trigger]
                final(self)@.admits(scene) && old(self)@.prepared()
                    ==> final(self)@.troubled() || sound_statement(analyzed.0, scene),
            final(self)@.troubled() || statement_renders(
                ast::Statement::Let { name, mutable, ty: *written, initializer: *initializer, span },
                analyzed.0,
            ),
        decreases fuel, 1nat, List::<Type>::Nil,
    {
        let declared_type = self.resolve_optional_type(written);
        let persistent = self.frame.persistent_borrow;
        self.set_persistent(keeps_borrow(initializer));
        let value = self.analyze_expression_expected(initializer, declared_type, fuel);
        self.set_persistent(persistent);
        self.bind_initialized(name, mutable, declared_type, initializer, value, span)
    }

    /// A variable is bound to its initial value.
    pub(crate) fn bind_initialized(
        &mut self,
        name: Identifier<'a>,
        mutable: bool,
        declared_type: Option<Type>,
        source: &ast::Expression<'a>,
        initializer: Expression<'a>,
        span: Span,
    ) -> (analyzed: (Statement<'a>, Flow))
        ensures
            (final(self)@, analyzed) == old(self)@.bind_initialized(
                name,
                mutable,
                declared_type,
                *source,
                initializer,
                span,
            ),
            old(self)@.leads_to(final(self)@),
            forall|watch: Watch| #[trigger]
                watched(watch) && old(self)@.is_apart(watch) && name.name@ != watch.name
                    && !mentions(*source, watch.name)
                    ==> old(self)@.spares(final(self)@, watch),
            forall|scene: Scene| #[trigger]
                final(self)@.admits(scene) && old(self)@.prepared() && sound(initializer, scene)
                    ==> final(self)@.troubled() || sound_statement(analyzed.0, scene),
            match analyzed.0 {
                Statement::Let { name: bound, mutable: changeable, initializer: value, .. } => bound
                    == name.name && changeable == mutable && value == initializer,
                _ => false,
            },
    {
        reveal(State::bind_initialized);
        let ty = match declared_type {
            Some(ty) => ty,
            None => initializer.ty,
        };
        self.require_expected(declared_type, initializer.ty, source.span, "binding initializer");
        let local = self.new_local(name.span);
        self.inherit_root(local, ty, source);
        self.declare(name.name, Binding { local, ty, mutable });
        let flow = flow_of(initializer.ty);
        (Statement::Let { local, name: name.name, mutable, ty, initializer, span }, flow)
    }

    /// A variable that holds a reference leads to where its initializer leads.
    pub(crate) fn inherit_root(&mut self, local: LocalId, ty: Type, source: &ast::Expression<'a>)
        ensures
            final(self)@ == old(self)@.inherit_root(local, ty, *source),
            old(self)@.leads_to(final(self)@),
            old(self)@.stays(final(self)@),
    {
        reveal(State::inherit_root);
        if self.types.is_scoped(ty) {
            match self.scoped_source_local(source) {
                Some(root) => self.set_scoped_root(local, root),
                None => {
                },
            }
        }
    }

    /// The value of an expression that holds a reference leads to a variable.
    pub(crate) fn record_root(&mut self, source: &ast::Expression<'a>, ty: Type)
        ensures
            final(self)@ == old(self)@.record_root(*source, ty),
            old(self)@.leads_to(final(self)@),
            old(self)@.stays(final(self)@),
    {
        reveal(State::record_root);
        if self.types.is_scoped(ty) {
            match self.scoped_source_local(source) {
                Some(root) => self.set_expression_root(source.span, root),
                None => {
                },
            }
        }
    }

    /// A `while`.
    pub(crate) fn analyze_while_statement(
        &mut self,
        condition: &ast::Expression<'a>,
        body: &ast::Block<'a>,
        span: Span,
        fuel: u32,
    ) -> (analyzed: (Statement<'a>, Flow))
        ensures
            (final(self)@, analyzed) == old(self)@.analyze_while_statement(
                *condition,
                *body,
                span,
                fuel as nat,
            ),
            old(self)@.leads_to(final(self)@),
            forall|watch: Watch| #[trigger]
                watched(watch) && old(self)@.is_apart(watch) && !mentions(*condition, watch.name)
                    && !block_mentions(*body, watch.name)
                    ==> old(self)@.spares(final(self)@, watch),
            forall|scene: Scene| #[trigger]
                final(self)@.admits(scene) && old(self)@.prepared()
                    ==> final(self)@.troubled() || sound_statement(analyzed.0, scene),
            final(self)@.troubled() || statement_renders(
                ast::Statement::While { condition: *condition, body: *body, span },
                analyzed.0,
            ),
        decreases fuel, 1nat, List::<Type>::Nil,
    {
        let analyzed = self.analyze_expression_expected(condition, Some(Type::Bool), fuel);
        self.require_type(Type::Bool, analyzed.ty, condition.span, "while condition");
        self.push_loop(LoopKind::Statement, Some(Type::Unit));
        let body = self.analyze_block(body, None, fuel);
        self.pop_loop();
        (Statement::While { condition: analyzed, body, span }, Flow::Continues)
    }

    /// What a `for` binds its pattern to, and how it goes on.
    pub(crate) fn iteration_of(&self, ty: Type) -> (iteration: Option<(Type, ForIteration)>)
        ensures
            iteration == self@.iteration_of(ty),
    {
        reveal(State::iteration_of);
        match self.indexed_element(ty) {
            Some(element) => Some((element, ForIteration::Indexed)),
            None => if self.types.is_chars(ty) {
                Some((Type::Char, ForIteration::Chars))
            } else {
                None
            },
        }
    }

    /// A `for`.
    pub(crate) fn analyze_for_statement(
        &mut self,
        pattern: &ast::Pattern<'a>,
        iterable: &ast::Expression<'a>,
        body: &ast::Block<'a>,
        span: Span,
        fuel: u32,
    ) -> (analyzed: (Statement<'a>, Flow))
        ensures
            (final(self)@, analyzed) == old(self)@.analyze_for_statement(
                *pattern,
                *iterable,
                *body,
                span,
                fuel as nat,
            ),
            old(self)@.leads_to(final(self)@),
            forall|watch: Watch| #[trigger]
                watched(watch) && old(self)@.is_apart(watch)
                    && !pattern_mentions(*pattern, watch.name) && !mentions(*iterable, watch.name)
                    && !block_mentions(*body, watch.name)
                    ==> old(self)@.spares(final(self)@, watch),
            forall|scene: Scene| #[trigger]
                final(self)@.admits(scene) && old(self)@.prepared()
                    ==> final(self)@.troubled() || sound_statement(analyzed.0, scene),
            final(self)@.troubled() || statement_renders(
                ast::Statement::For { pattern: *pattern, iterable: *iterable, body: *body, span },
                analyzed.0,
            ),
        decreases fuel, 1nat, List::<Type>::Nil,
    {
        let analyzed = self.analyze_expression_expected(iterable, None, fuel);
        match self.iteration_of(analyzed.ty) {
            None => {
                self.report(
                    helped(
                        "E3130",
                        frame("`for` cannot iterate over `", &analyzed.ty.text(), "`"),
                        "iteration requires an array, array reference, slice, or `str.chars()` iterator",
                        iterable.span,
                    ),
                );
                (Statement::Expression(invalid_composite_expression(span)), Flow::Continues)
            },
            Some((element_type, iteration)) => {
                self.push_scope();
                let bound_pattern = self.analyze_irrefutable_pattern(pattern, element_type);
                self.push_loop(LoopKind::Statement, Some(Type::Unit));
                let body = self.analyze_block(body, None, fuel);
                self.pop_loop();
                self.pop_scope();
                (
                    Statement::For {
                        pattern: bound_pattern,
                        element_type,
                        iteration,
                        iterable: analyzed,
                        body,
                        span,
                    },
                    Flow::Continues,
                )
            },
        }
    }

    /// A pattern that must match every value of a type.
    pub(crate) fn analyze_irrefutable_pattern(
        &mut self,
        pattern: &ast::Pattern<'a>,
        expected: Type,
    ) -> (analyzed: hir::Pattern<'a>)
        ensures
            (final(self)@, analyzed) == old(self)@.analyze_irrefutable_pattern(*pattern, expected),
            old(self)@.leads_to(final(self)@),
            forall|watch: Watch| #[trigger]
                watched(watch) && old(self)@.is_apart(watch)
                    && !pattern_mentions(*pattern, watch.name)
                    ==> old(self)@.spares(final(self)@, watch),
            final(self)@.troubled() || pattern_renders(*pattern, analyzed),
    {
        reveal(State::analyze_irrefutable_pattern);
        let analyzed = self.analyze_pattern(pattern, expected);
        if !pattern_is_irrefutable(&analyzed) {
            self.report(
                helped(
                    "E3131",
                    words("`for` requires an irrefutable pattern"),
                    "use bindings, `_`, or tuple patterns containing only those forms",
                    pattern.span,
                ),
            );
        }
        analyzed
    }

    /// The innermost loop is left with a value of a type.
    pub(crate) fn record_break_type(&mut self, actual: Type, span: Span)
        ensures
            final(self)@ == old(self)@.record_break_type(actual, span),
            old(self)@.leads_to(final(self)@),
            old(self)@.stays(final(self)@),
    {
        reveal(State::record_break_type);
        match self.innermost_loop() {
            None => self.report(
                error("E3109", words("`break` can only be used inside a loop"), span),
            ),
            Some(context) => if context.kind == LoopKind::Statement {
                if actual != Type::Never && actual != Type::Unit {
                    self.type_mismatch(Type::Unit, actual, span, "statement loop break");
                }
            } else {
                self.record_break_value(context.expected, context.break_type, actual, span);
            },
        }
    }

    /// A `loop` is left with a value of a type.
    pub(crate) fn record_break_value(
        &mut self,
        expected: Option<Type>,
        break_type: Option<Type>,
        actual: Type,
        span: Span,
    )
        ensures
            final(self)@ == old(self)@.record_break_value(expected, break_type, actual, span),
            old(self)@.leads_to(final(self)@),
            old(self)@.stays(final(self)@),
    {
        reveal(State::record_break_value);
        let wanted = match expected {
            Some(expected) => Some(expected),
            None => break_type,
        };
        let accepted = match wanted {
            Some(wanted) => wanted.accepts(actual),
            None => true,
        };
        if !accepted {
            self.require_expected(wanted, actual, span, "loop break value");
        } else if actual != Type::Never && break_type.is_none() {
            self.set_break_type(actual);
        }
    }

    /// The number of types that hold a reference.
    pub(crate) fn count_scoped(&self, list: &List<Type>) -> (count: u64)
        ensures
            count == self@.count_scoped(*list),
    {
        let mut ahead: &List<Type> = list;
        let mut count: u64 = 0;
        loop
            invariant
                self@.count_scoped(*list) == count.saturating_add(self@.count_scoped(*ahead)),
            decreases *ahead,
        {
            reveal(State::count_scoped);
            match ahead {
                List::Nil => {
                    return count;
                },
                List::Cons(node) => {
                    if self.types.is_scoped(node.head) {
                        count = count.saturating_add(1);
                    }
                    ahead = &node.tail;
                },
            }
        }
    }

    /// Whether a returned expression holds no reference after all.
    pub(crate) fn scoped_return_is_empty(&self, expression: &ast::Expression<'a>) -> (answer: bool)
        ensures
            answer == self@.scoped_return_is_empty(*expression),
    {
        reveal(State::scoped_return_is_empty);
        match &*expression.kind {
            ast::ExpressionKind::Path(path) => is_none_path(path),
            ast::ExpressionKind::Call(call) => match &*call.callee.kind {
                ast::ExpressionKind::Path(path) => self.wraps_unscoped(path),
                _ => false,
            },
            _ => false,
        }
    }

    /// Whether a constructor of the result wraps a value that holds no reference.
    pub(crate) fn wraps_unscoped(&self, path: &Path<'a>) -> (answer: bool)
        ensures
            answer == self@.wraps_unscoped(*path),
    {
        reveal(State::wraps_unscoped);
        match single_path_name(path) {
            None => false,
            Some(name) => match self.intrinsic(self.frame.signature.return_type) {
                Some(IntrinsicType::Option { value }) => same(name, "Some")
                    && !self.types.is_scoped(value),
                Some(IntrinsicType::Result { success, error }) => (
                    same(name, "Ok") && !self.types.is_scoped(success)
                ) || (same(name, "Err") && !self.types.is_scoped(error)),
                None => false,
            },
        }
    }

    /// Whether the function takes exactly one value that holds a reference, as its
    /// first parameter.
    pub(crate) fn has_one_scoped_source(&self) -> (answer: bool)
        ensures
            answer == self@.has_one_scoped_source(),
    {
        reveal(State::has_one_scoped_source);
        self.count_scoped(&self.frame.signature.parameter_types) == 1
            && (match &self.frame.signature.parameter_types {
                List::Nil => false,
                List::Cons(node) => self.types.is_scoped(node.head),
            })
    }

    /// Whether a local variable is a parameter that holds a reference.
    pub(crate) fn is_scoped_parameter(&self, root: LocalId) -> (answer: bool)
        ensures
            answer == self@.is_scoped_parameter(root),
    {
        reveal(State::is_scoped_parameter);
        root.0 < self.frame.parameter_count
            && (match find_visible(&outermost(&self.frame.scopes), root, List::Nil) {
                Some(candidate) => self.types.is_scoped(candidate.ty),
                None => false,
            })
    }

    /// Whether what an expression refers to outlives the function.
    pub(crate) fn is_rooted_in_parameter(&self, expression: &ast::Expression<'a>) -> (answer: bool)
        ensures
            answer == self@.is_rooted_in_parameter(*expression),
    {
        reveal(State::is_rooted_in_parameter);
        let root = match self.expression_root(expression.span) {
            Some(root) => Some(root),
            None => self.scoped_source_local(expression),
        };
        match root {
            Some(root) => self.is_scoped_parameter(root),
            None => false,
        }
    }

    /// Whether an expression refers to a static.
    pub(crate) fn is_rooted_in_static(&self, expression: &ast::Expression<'a>) -> (answer: bool)
        ensures
            answer == self@.is_rooted_in_static(*expression),
    {
        reveal(State::is_rooted_in_static);
        match scoped_name(expression) {
            Some(name) => self.is_static(name),
            None => false,
        }
    }

    /// A returned expression must not outlive what it refers to.
    pub(crate) fn validate_scoped_return(&mut self, expression: &ast::Expression<'a>, span: Span)
        ensures
            final(self)@ == old(self)@.validate_scoped_return(*expression, span),
            old(self)@.leads_to(final(self)@),
            old(self)@.stays(final(self)@),
    {
        reveal(State::validate_scoped_return);
        self.validate_return_within(expression, span, LIMIT);
    }

    /// A returned expression, followed into it no deeper than `fuel`.
    pub(crate) fn validate_return_within(
        &mut self,
        expression: &ast::Expression<'a>,
        span: Span,
        fuel: u32,
    )
        ensures
            final(self)@ == old(self)@.validate_return_within(*expression, span, fuel as nat),
            old(self)@.leads_to(final(self)@),
            old(self)@.stays(final(self)@),
        decreases fuel, 0nat, List::<Type>::Nil,
    {
        if fuel == 0 {
            self.report(error("E3999", words("this expression is nested too deeply"), span));
        } else if self.types.is_scoped(self.frame.signature.return_type) {
            self.validate_return_form(expression, span, fuel - 1);
        }
    }

    /// A returned expression, by its form: each of its branches is returned.
    pub(crate) fn validate_return_form(
        &mut self,
        expression: &ast::Expression<'a>,
        span: Span,
        fuel: u32,
    )
        ensures
            final(self)@ == old(self)@.validate_return_form(*expression, span, fuel as nat),
            old(self)@.leads_to(final(self)@),
            old(self)@.stays(final(self)@),
        decreases fuel, 2nat, List::<Type>::Nil,
    {
        match &*expression.kind {
            ast::ExpressionKind::Match { arms, .. } => self.validate_returned_arms(arms, fuel),
            ast::ExpressionKind::If { then_branch, else_branch, .. } => {
                self.validate_returned_branch(&then_branch.tail, fuel);
                self.validate_returned_branch(else_branch, fuel);
            },
            ast::ExpressionKind::Block(block) => self.validate_returned_branch(&block.tail, fuel),
            _ => if !self.scoped_return_is_empty(expression)
                && !self.is_rooted_in_static(expression) {
                self.validate_return_source(expression, span);
            },
        }
    }

    /// The arms of a returned `match`.
    pub(crate) fn validate_returned_arms(&mut self, arms: &List<ast::MatchArm<'a>>, fuel: u32)
        ensures
            final(self)@ == old(self)@.validate_returned_arms(*arms, fuel as nat),
            old(self)@.leads_to(final(self)@),
            old(self)@.stays(final(self)@),
        decreases fuel, 1nat, *arms,
    {
        let mut ahead: &List<ast::MatchArm<'a>> = arms;
        loop
            invariant
                old(self)@.validate_returned_arms(
                    *arms,
                    fuel as nat,
                ) == self@.validate_returned_arms(
                    *ahead,
                    fuel as nat,
                ),
                old(self)@.leads_to(self@),
                old(self)@.stays(self@),
            decreases *ahead,
        {
            match ahead {
                List::Nil => {
                    return ;
                },
                List::Cons(node) => {
                    if !self.scoped_return_is_empty(&node.head.body) {
                        self.validate_return_within(&node.head.body, node.head.span, fuel);
                    }
                    ahead = &node.tail;
                },
            }
        }
    }

    /// A branch of a returned expression.
    pub(crate) fn validate_returned_branch(
        &mut self,
        branch: &Option<ast::Expression<'a>>,
        fuel: u32,
    )
        ensures
            final(self)@ == old(self)@.validate_returned_branch(*branch, fuel as nat),
            old(self)@.leads_to(final(self)@),
            old(self)@.stays(final(self)@),
        decreases fuel, 1nat, List::<Type>::Nil,
    {
        match branch {
            None => {
            },
            Some(branch) => if !self.scoped_return_is_empty(branch) {
                self.validate_return_within(branch, branch.span, fuel);
            },
        }
    }

    /// What a returned expression refers to must be the first parameter.
    pub(crate) fn validate_return_source(&mut self, expression: &ast::Expression<'a>, span: Span)
        ensures
            final(self)@ == old(self)@.validate_return_source(*expression, span),
            old(self)@.leads_to(final(self)@),
            old(self)@.stays(final(self)@),
    {
        reveal(State::validate_return_source);
        if !self.has_one_scoped_source() {
            self.report(
                helped(
                    "E3137",
                    words(
                        "a scoped return requires exactly one scoped source as its first parameter",
                    ),
                    "place the owner or borrowed source first and return owned data when multiple lifetimes are involved",
                    span,
                ),
            );
        } else if !self.is_rooted_in_parameter(expression) {
            self.report(
                helped(
                    "E3137",
                    words("a scoped reference or view cannot escape this function"),
                    "return data rooted in the first scoped parameter or return owned data",
                    span,
                ),
            );
        }
    }
}

} // verus!

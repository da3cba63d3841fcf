//! The types of values that have no place yet.

use crate::analyzer::{Analyzer, GenericFunctionTemplate, Signature, State};
use crate::analyzer::instances::{parameters_from, spec_parameters_from};
use crate::ast::{
    self, CallExpression, FieldExpression, FieldName, GenericParameter, Identifier, Parameter,
    Path, TypeName, TypeNameKind,
};
use crate::generics::Environment;
use crate::list::{cons, prepend, prepended_if_any, List};
use crate::registry::{LIMIT, Types};
use crate::span::Span;
use crate::syntax::{member, member_symbol};
use crate::text::{words, Text};
use crate::types::Type;
use vstd::prelude::*;

verus! {

broadcast use {
    crate::analyzer::growth::group_led,
    crate::analyzer::numbering::group_numbered,
    crate::analyzer::sparing::group_spared,
    crate::list::pushed_comes_first,
    crate::registry::growth::group_grown,
    crate::span::group_kept,
};

impl<'a> State<'a> {
    /// The number of problems so far.
    #[verifier::opaque]
    pub open spec fn problem_count(self) -> usize {
        self.types.problems.len() as usize
    }

    /// The problems behind the first ones are dropped.
    #[verifier::opaque]
    pub open spec fn drop_problems(self, count: usize) -> Self {
        State {
            types: Types {
                problems: if count <= self.types.problems.len() {
                    self.types.problems.take(count as int)
                } else {
                    self.types.problems
                },
                ..self.types
            },
            ..self
        }
    }
}

impl<'a> Analyzer<'a> {
    /// The number of problems so far.
    pub(crate) fn problem_count(&self) -> (count: usize)
        ensures
            count == self@.problem_count(),
            count == self@.types.problems.len(),
    {
        reveal(State::problem_count);
        self.types.problems.len()
    }

    /// The problems behind the first ones are dropped. Those that were there
    /// before stay.
    pub(crate) fn drop_problems(&mut self, count: usize)
        ensures
            final(self)@ == old(self)@.drop_problems(count),
            forall|earlier: State<'a>| #[trigger]
                earlier.leads_to(old(self)@) && earlier.types.problems.len() <= count
                    ==> earlier.leads_to(final(self)@),
            old(self)@.stays(final(self)@),
    {
        reveal(State::stays);
        reveal(State::drop_problems);
        self.types.problems.truncate(count);
        assert(self@.types.problems =~= old(self)@.drop_problems(count).types.problems);
        proof {
            reveal(State::leads_to);
            reveal(Types::grows_into);
            reveal(crate::span::kept);
        }
    }
}

impl<'a> State<'a> {
    /// The type of the value that a call gives, as far as it is known without
    /// checking it.
    #[verifier::opaque]
    pub open spec fn temporary_method_receiver_type(
        self,
        expression: ast::Expression<'a>,
    ) -> (Self, Option<Type>) {
        self.temporary_receiver_within(expression, LIMIT as nat)
    }

    /// The type of the value that a call gives, followed into it no deeper than
    /// `fuel`.
    pub open spec fn temporary_receiver_within(
        self,
        expression: ast::Expression<'a>,
        fuel: nat,
    ) -> (Self, Option<Type>)
        decreases fuel, 0nat, List::<Type>::Nil,
    {
        if fuel == 0 {
            (self, None)
        } else {
            self.temporary_receiver_form(expression, (fuel - 1) as nat)
        }
    }

    /// The type of the value that a call gives, by what is called.
    pub open spec fn temporary_receiver_form(
        self,
        expression: ast::Expression<'a>,
        fuel: nat,
    ) -> (Self, Option<Type>)
        decreases fuel, 7nat, List::<Type>::Nil,
    {
        match *expression.kind {
            ast::ExpressionKind::Call(call) => match *call.callee.kind {
                ast::ExpressionKind::Path(path) => (self, self.called_type(path)),
                ast::ExpressionKind::Field(field) => self.temporary_method_type(call, field, fuel),
                _ => (self, None),
            },
            _ => (self, None),
        }
    }

    /// The type of what the function that a path names returns.
    #[verifier::opaque]
    pub open spec fn called_type(self, path: Path<'a>) -> Option<Type> {
        match self.function_at(path) {
            Some((_, signature)) => Some(signature.return_type),
            None => None,
        }
    }

    /// The type of what a method returns.
    pub open spec fn temporary_method_type(
        self,
        call: CallExpression<'a>,
        field: FieldExpression<'a>,
        fuel: nat,
    ) -> (Self, Option<Type>)
        decreases fuel, 6nat, List::<Type>::Nil,
    {
        let known = self.place_expression_type(field.base);
        let (s, receiver) = match known {
            Some(ty) => (self, Some(ty)),
            None => self.temporary_receiver_within(field.base, fuel),
        };
        match receiver {
            None => (s, None),
            Some(receiver) => match field.field {
                FieldName::Named(method) => s.temporary_named_method(call, method, receiver, fuel),
                FieldName::TupleIndex { .. } => (s, None),
            },
        }
    }

    /// The type of what the method of that name returns.
    pub open spec fn temporary_named_method(
        self,
        call: CallExpression<'a>,
        method: Identifier<'a>,
        receiver: Type,
        fuel: nat,
    ) -> (Self, Option<Type>)
        decreases fuel, 5nat, List::<Type>::Nil,
    {
        match self.types.nominal_name(receiver) {
            None => (self, None),
            Some(owner) => {
                let name = member(owner, method.name);
                match self.signature_of(name) {
                    Some(signature) => (self, Some(signature.return_type)),
                    None => self.temporary_generic_method_return_type(
                        call,
                        method,
                        receiver,
                        name,
                        fuel,
                    ),
                }
            },
        }
    }

    /// The generic method of that name, and its name in full.
    #[verifier::opaque]
    pub open spec fn method_template(
        self,
        receiver: Type,
        method: &'a str,
        resolved_name: Text<'a>,
    ) -> Option<(Text<'a>, GenericFunctionTemplate<'a>)> {
        let name = match self.types.generic_instance(self.unreferenced(receiver)) {
            Some((base_name, _)) => member(words(base_name), method),
            None => resolved_name,
        };
        match self.template_of(name) {
            Some(template) => Some((name, template)),
            None => None,
        }
    }

    /// The type of what a generic method returns. Where it cannot be found out,
    /// no problem is kept.
    pub open spec fn temporary_generic_method_return_type(
        self,
        call: CallExpression<'a>,
        method: Identifier<'a>,
        receiver: Type,
        resolved_name: Text<'a>,
        fuel: nat,
    ) -> (Self, Option<Type>)
        decreases fuel, 4nat, List::<Type>::Nil,
    {
        match self.method_template(receiver, method.name, resolved_name) {
            None => (self, None),
            Some((_, template)) => {
                let count = self.problem_count();
                match self.infer_temporary_generic_method_signature(
                    call,
                    receiver,
                    template,
                    fuel,
                ) {
                    (s, Some(signature)) => (s, Some(signature.return_type)),
                    (s, None) => {
                        let s = s.drop_problems(count);
                        (s, None)
                    },
                }
            },
        }
    }

    /// The type that a receiver has as an argument.
    #[verifier::opaque]
    pub open spec fn receiver_argument_type(
        self,
        written: TypeName<'a>,
        receiver: Type,
        span: Span,
    ) -> (Self, Option<Type>) {
        match *written.kind {
            TypeNameKind::Reference { mutable, .. } => match self.pointer_shape(receiver) {
                Some((target, actual_mutable, false)) => if actual_mutable && !mutable {
                    self.intern_reference(target, false, span)
                } else {
                    (self, Some(receiver))
                },
                _ => self.intern_reference(receiver, mutable, span),
            },
            _ => (self, Some(receiver)),
        }
    }

    /// The signature of a generic method, by the types of its arguments.
    pub open spec fn infer_temporary_generic_method_signature(
        self,
        call: CallExpression<'a>,
        receiver: Type,
        template: GenericFunctionTemplate<'a>,
        fuel: nat,
    ) -> (Self, Option<Signature>)
        decreases fuel, 3nat, List::<Type>::Nil,
    {
        match template.function.parameters {
            List::Nil => (self, None),
            List::Cons(node) => match self.receiver_argument_type(
                node.head.ty,
                receiver,
                call.span,
            ) {
                (s, None) => (s, None),
                (s, Some(first)) => match s.temporary_types(call.arguments, fuel) {
                    (s, None) => (s, None),
                    (s, Some(rest)) => s.infer_signature(call, template, cons(first, rest)),
                },
            },
        }
    }

    /// The types of arguments, if all of them are known.
    pub open spec fn temporary_types(
        self,
        arguments: List<ast::Expression<'a>>,
        fuel: nat,
    ) -> (Self, Option<List<Type>>)
        decreases fuel, 2nat, arguments,
    {
        match arguments {
            List::Nil => (self, Some(List::Nil)),
            List::Cons(node) => match self.temporary_expression_type(node.head, fuel) {
                (s, None) => (s, None),
                (s, Some(first)) => match s.temporary_types(node.tail, fuel) {
                    (s, None) => (s, None),
                    (s, Some(rest)) => (s, Some(cons(first, rest))),
                },
            },
        }
    }

    /// The type of an expression, as far as it is known without checking it.
    pub open spec fn temporary_expression_type(
        self,
        expression: ast::Expression<'a>,
        fuel: nat,
    ) -> (Self, Option<Type>)
        decreases fuel, 1nat, List::<Type>::Nil,
    {
        match self.place_expression_type(expression) {
            Some(ty) => (self, Some(ty)),
            None => match *expression.kind {
                ast::ExpressionKind::Call(_) => self.temporary_receiver_within(expression, fuel),
                ast::ExpressionKind::Path(path) => self.function_type_at(path),
                _ => (self, None),
            },
        }
    }

    /// The type of the function that a path names.
    #[verifier::opaque]
    pub open spec fn function_type_at(self, path: Path<'a>) -> (Self, Option<Type>) {
        match self.function_at(path) {
            None => (self, None),
            Some((_, signature)) => self.intern_function(
                signature.parameter_types,
                signature.return_type,
                path.span,
            ),
        }
    }

    /// The bindings under which parameters take arguments of the types.
    #[verifier::opaque]
    pub open spec fn infer_parameters(
        self,
        parameters: List<Parameter<'a>>,
        types: List<Type>,
        generic_parameters: List<GenericParameter<'a>>,
        environment: Environment<'a>,
    ) -> Option<Environment<'a>>
        decreases parameters,
    {
        match parameters {
            List::Nil => Some(environment),
            List::Cons(parameter) => match types {
                List::Nil => Some(environment),
                List::Cons(ty) => {
                    let (environment, agrees) = self.types.infer(
                        parameter.head.ty,
                        ty.head,
                        generic_parameters,
                        environment,
                    );
                    if agrees {
                        self.infer_parameters(
                            parameter.tail,
                            ty.tail,
                            generic_parameters,
                            environment,
                        )
                    } else {
                        None
                    }
                },
            },
        }
    }

    /// The signature of a generic function for arguments of the types.
    #[verifier::opaque]
    pub open spec fn infer_signature(
        self,
        call: CallExpression<'a>,
        template: GenericFunctionTemplate<'a>,
        types: List<Type>,
    ) -> (Self, Option<Signature>) {
        if types.count() != template.function.parameters.count() {
            (self, None)
        } else {
            let outer = self.types.base_environment();
            let explicit = spec_parameters_from(
                template.parameters,
                template.explicit_parameter_start,
            );
            let (s, environment) = self.bind_explicit_generic_arguments(
                call.generic_arguments,
                explicit,
                outer,
                call.span,
            );
            match s.infer_parameters(
                template.function.parameters,
                types,
                template.parameters,
                environment,
            ) {
                None => (s, None),
                Some(environment) => match s.complete_generic_environment(
                    template.parameters,
                    template.where_predicates,
                    environment,
                    call.span,
                ) {
                    (s, None) => (s, None),
                    (s, Some((environment, values))) => s.instantiate_generic_function(
                        template,
                        values,
                        environment,
                        call.span,
                    ),
                },
            }
        }
    }
}

impl<'a> Analyzer<'a> {
    /// The type of the value that a call gives, as far as it is known without
    /// checking it.
    pub(crate) fn temporary_method_receiver_type(
        &mut self,
        expression: &ast::Expression<'a>,
    ) -> (ty: Option<Type>)
        ensures
            (final(self)@, ty) == old(self)@.temporary_method_receiver_type(*expression),
            old(self)@.leads_to(final(self)@),
            old(self)@.stays(final(self)@),
    {
        reveal(State::temporary_method_receiver_type);
        self.temporary_receiver_within(expression, LIMIT)
    }

    /// The type of the value that a call gives, followed into it no deeper than
    /// `fuel`.
    pub(crate) fn temporary_receiver_within(
        &mut self,
        expression: &ast::Expression<'a>,
        fuel: u32,
    ) -> (ty: Option<Type>)
        ensures
            (final(self)@, ty) == old(self)@.temporary_receiver_within(*expression, fuel as nat),
            old(self)@.leads_to(final(self)@),
            old(self)@.stays(final(self)@),
        decreases fuel, 0nat, List::<Type>::Nil,
    {
        if fuel == 0 {
            return None;
        }
        self.temporary_receiver_form(expression, fuel - 1)
    }

    /// The type of the value that a call gives, by what is called.
    pub(crate) fn temporary_receiver_form(
        &mut self,
        expression: &ast::Expression<'a>,
        fuel: u32,
    ) -> (ty: Option<Type>)
        ensures
            (final(self)@, ty) == old(self)@.temporary_receiver_form(*expression, fuel as nat),
            old(self)@.leads_to(final(self)@),
            old(self)@.stays(final(self)@),
        decreases fuel, 7nat, List::<Type>::Nil,
    {
        match &*expression.kind {
            ast::ExpressionKind::Call(call) => match &*call.callee.kind {
                ast::ExpressionKind::Path(path) => self.called_type(path),
                ast::ExpressionKind::Field(field) => self.temporary_method_type(call, field, fuel),
                _ => None,
            },
            _ => None,
        }
    }

    /// The type of what the function that a path names returns.
    pub(crate) fn called_type(&self, path: &Path<'a>) -> (ty: Option<Type>)
        ensures
            ty == self@.called_type(*path),
    {
        reveal(State::called_type);
        match self.function_at(path) {
            Some((_, signature)) => Some(signature.return_type),
            None => None,
        }
    }

    /// The type of what a method returns.
    pub(crate) fn temporary_method_type(
        &mut self,
        call: &CallExpression<'a>,
        field: &FieldExpression<'a>,
        fuel: u32,
    ) -> (ty: Option<Type>)
        ensures
            (final(self)@, ty) == old(self)@.temporary_method_type(*call, *field, fuel as nat),
            old(self)@.leads_to(final(self)@),
            old(self)@.stays(final(self)@),
        decreases fuel, 6nat, List::<Type>::Nil,
    {
        let known = self.place_expression_type(&field.base);
        let receiver = match known {
            Some(ty) => Some(ty),
            None => self.temporary_receiver_within(&field.base, fuel),
        };
        match receiver {
            None => None,
            Some(receiver) => match &field.field {
                FieldName::Named(method) => self.temporary_named_method(
                    call,
                    *method,
                    receiver,
                    fuel,
                ),
                FieldName::TupleIndex { .. } => None,
            },
        }
    }

    /// The type of what the method of that name returns.
    pub(crate) fn temporary_named_method(
        &mut self,
        call: &CallExpression<'a>,
        method: Identifier<'a>,
        receiver: Type,
        fuel: u32,
    ) -> (ty: Option<Type>)
        ensures
            (final(self)@, ty) == old(self)@.temporary_named_method(
                *call,
                method,
                receiver,
                fuel as nat,
            ),
            old(self)@.leads_to(final(self)@),
            old(self)@.stays(final(self)@),
        decreases fuel, 5nat, List::<Type>::Nil,
    {
        match self.types.nominal_name(receiver) {
            None => None,
            Some(owner) => {
                let name = member_symbol(&owner, method.name);
                match self.signature_of(&name) {
                    Some(signature) => Some(signature.return_type),
                    None => self.temporary_generic_method_return_type(
                        call,
                        method,
                        receiver,
                        &name,
                        fuel,
                    ),
                }
            },
        }
    }

    /// The generic method of that name, and its name in full.
    pub(crate) fn method_template(
        &self,
        receiver: Type,
        method: &'a str,
        resolved_name: &Text<'a>,
    ) -> (template: Option<(Text<'a>, GenericFunctionTemplate<'a>)>)
        ensures
            template == self@.method_template(receiver, method, *resolved_name),
    {
        reveal(State::method_template);
        let name = match self.types.generic_instance(self.unreferenced(receiver)) {
            Some((base_name, _)) => member_symbol(&words(base_name), method),
            None => resolved_name.share(),
        };
        match self.template_of(&name) {
            Some(template) => Some((name, template)),
            None => None,
        }
    }

    /// The type of what a generic method returns. Where it cannot be found out,
    /// no problem is kept.
    pub(crate) fn temporary_generic_method_return_type(
        &mut self,
        call: &CallExpression<'a>,
        method: Identifier<'a>,
        receiver: Type,
        resolved_name: &Text<'a>,
        fuel: u32,
    ) -> (ty: Option<Type>)
        ensures
            (final(self)@, ty) == old(self)@.temporary_generic_method_return_type(
                *call,
                method,
                receiver,
                *resolved_name,
                fuel as nat,
            ),
            old(self)@.leads_to(final(self)@),
            old(self)@.stays(final(self)@),
        decreases fuel, 4nat, List::<Type>::Nil,
    {
        match self.method_template(receiver, method.name, resolved_name) {
            None => None,
            Some((_, template)) => {
                let count = self.problem_count();
                match self.infer_temporary_generic_method_signature(
                    call,
                    receiver,
                    &template,
                    fuel,
                ) {
                    Some(signature) => Some(signature.return_type),
                    None => {
                        self.drop_problems(count);
                        None
                    },
                }
            },
        }
    }

    /// The type that a receiver has as an argument.
    pub(crate) fn receiver_argument_type(
        &mut self,
        written: &TypeName<'a>,
        receiver: Type,
        span: Span,
    ) -> (ty: Option<Type>)
        ensures
            (final(self)@, ty) == old(self)@.receiver_argument_type(*written, receiver, span),
            old(self)@.leads_to(final(self)@),
            old(self)@.stays(final(self)@),
    {
        reveal(State::receiver_argument_type);
        match &*written.kind {
            TypeNameKind::Reference { mutable, .. } => match self.pointer_shape(receiver) {
                Some((target, actual_mutable, false)) => if actual_mutable && !*mutable {
                    self.intern_reference(target, false, span)
                } else {
                    Some(receiver)
                },
                _ => self.intern_reference(receiver, *mutable, span),
            },
            _ => Some(receiver),
        }
    }

    /// The signature of a generic method, by the types of its arguments.
    pub(crate) fn infer_temporary_generic_method_signature(
        &mut self,
        call: &CallExpression<'a>,
        receiver: Type,
        template: &GenericFunctionTemplate<'a>,
        fuel: u32,
    ) -> (signature: Option<Signature>)
        ensures
            (final(self)@, signature) == old(self)@.infer_temporary_generic_method_signature(
                *call,
                receiver,
                *template,
                fuel as nat,
            ),
            old(self)@.leads_to(final(self)@),
            old(self)@.stays(final(self)@),
        decreases fuel, 3nat, List::<Type>::Nil,
    {
        match &template.function.parameters {
            List::Nil => None,
            List::Cons(node) => match self.receiver_argument_type(
                &node.head.ty,
                receiver,
                call.span,
            ) {
                None => None,
                Some(first) => match self.temporary_types(&call.arguments, fuel) {
                    None => None,
                    Some(rest) => self.infer_signature(call, template, &cons(first, rest)),
                },
            },
        }
    }

    /// The types of arguments, if all of them are known.
    pub(crate) fn temporary_types(
        &mut self,
        arguments: &List<ast::Expression<'a>>,
        fuel: u32,
    ) -> (types: Option<List<Type>>)
        ensures
            (final(self)@, types) == old(self)@.temporary_types(*arguments, fuel as nat),
            old(self)@.leads_to(final(self)@),
            old(self)@.stays(final(self)@),
        decreases fuel, 2nat, *arguments,
    {
        let mut ahead: &List<ast::Expression<'a>> = arguments;
        let mut done: Vec<Type> = Vec::new();
        loop
            invariant
                old(self)@.temporary_types(*arguments, fuel as nat) == {
                    let (state, rest) = self@.temporary_types(*ahead, fuel as nat);
                    (state, prepended_if_any(done@, rest))
                },
                old(self)@.leads_to(self@),
                old(self)@.stays(self@),
            decreases *ahead,
        {
            match ahead {
                List::Nil => {
                    return Some(prepend(done, List::Nil));
                },
                List::Cons(node) => {
                    match self.temporary_expression_type(&node.head, fuel) {
                        None => {
                            return None;
                        },
                        Some(first) => {
                            done.push(first);
                            ahead = &node.tail;
                        },
                    }
                },
            }
        }
    }

    /// The type of an expression, as far as it is known without checking it.
    pub(crate) fn temporary_expression_type(
        &mut self,
        expression: &ast::Expression<'a>,
        fuel: u32,
    ) -> (ty: Option<Type>)
        ensures
            (final(self)@, ty) == old(self)@.temporary_expression_type(*expression, fuel as nat),
            old(self)@.leads_to(final(self)@),
            old(self)@.stays(final(self)@),
        decreases fuel, 1nat, List::<Type>::Nil,
    {
        match self.place_expression_type(expression) {
            Some(ty) => Some(ty),
            None => match &*expression.kind {
                ast::ExpressionKind::Call(_) => self.temporary_receiver_within(expression, fuel),
                ast::ExpressionKind::Path(path) => self.function_type_at(path),
                _ => None,
            },
        }
    }

    /// The type of the function that a path names.
    pub(crate) fn function_type_at(&mut self, path: &Path<'a>) -> (ty: Option<Type>)
        ensures
            (final(self)@, ty) == old(self)@.function_type_at(*path),
            old(self)@.leads_to(final(self)@),
            old(self)@.stays(final(self)@),
    {
        reveal(State::function_type_at);
        match self.function_at(path) {
            None => None,
            Some((_, signature)) => self.intern_function(
                signature.parameter_types,
                signature.return_type,
                path.span,
            ),
        }
    }

    /// The bindings under which parameters take arguments of the types.
    pub(crate) fn infer_parameters(
        &self,
        parameters: &List<Parameter<'a>>,
        types: &List<Type>,
        generic_parameters: &List<GenericParameter<'a>>,
        environment: Environment<'a>,
    ) -> (bindings: Option<Environment<'a>>)
        ensures
            bindings == self@.infer_parameters(
                *parameters,
                *types,
                *generic_parameters,
                environment,
            ),
    {
        let mut ahead: &List<Parameter<'a>> = parameters;
        let mut current_types: &List<Type> = types;
        let mut bindings: Environment<'a> = environment;
        loop
            invariant
                self@.infer_parameters(
                    *parameters,
                    *types,
                    *generic_parameters,
                    environment,
                ) == self@.infer_parameters(
                    *ahead,
                    *current_types,
                    *generic_parameters,
                    bindings,
                ),
            decreases *ahead,
        {
            reveal(State::infer_parameters);
            match ahead {
                List::Nil => {
                    return Some(bindings);
                },
                List::Cons(parameter) => {
                    match current_types {
                        List::Nil => {
                            return Some(bindings);
                        },
                        List::Cons(ty) => {
                            let (extended, agrees) = self.types.infer(
                                &parameter.head.ty,
                                ty.head,
                                generic_parameters,
                                bindings,
                            );
                            if agrees {
                                bindings = extended;
                                current_types = &ty.tail;
                                ahead = &parameter.tail;
                            } else {
                                return None;
                            }
                        },
                    }
                },
            }
        }
    }

    /// The signature of a generic function for arguments of the types.
    pub(crate) fn infer_signature(
        &mut self,
        call: &CallExpression<'a>,
        template: &GenericFunctionTemplate<'a>,
        types: &List<Type>,
    ) -> (signature: Option<Signature>)
        ensures
            (final(self)@, signature) == old(self)@.infer_signature(*call, *template, *types),
            old(self)@.leads_to(final(self)@),
            old(self)@.stays(final(self)@),
    {
        reveal(State::infer_signature);
        if types.count() != template.function.parameters.count() {
            return None;
        }
        let outer = self.types.base_environment();
        let explicit = parameters_from(&template.parameters, template.explicit_parameter_start);
        let environment = self.bind_explicit_generic_arguments(
            &call.generic_arguments,
            &explicit,
            outer,
            call.span,
        );
        match self.infer_parameters(
            &template.function.parameters,
            types,
            &template.parameters,
            environment,
        ) {
            None => None,
            Some(environment) => match self.complete_generic_environment(
                &template.parameters,
                &template.where_predicates,
                environment,
                call.span,
            ) {
                None => None,
                Some((environment, values)) => self.instantiate_generic_function(
                    template,
                    values,
                    &environment,
                    call.span,
                ),
            },
        }
    }
}

} // verus!

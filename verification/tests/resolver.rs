//! Whole programs, written as source text, through the analyzer.

use reimer::analyzer::reports::Report;
use reimer::ast::{
    AssignmentOperator, Attribute, AttributeArgument, BinaryOperator, Block, CallExpression,
    ConstantDeclaration, EnumDeclaration, EnumVariant, EnumVariantPayload, Expression,
    ExpressionKind, FieldExpression, FieldInitializer, FieldName, FloatLiteral, FloatPattern,
    ForeignFunction, FormattedStringFragment, Function, GenericArgument, GenericParameter,
    Identifier, ImplDeclaration, IndexExpression, IntegerLiteral, Item, MatchArm, Parameter, Path,
    Pattern, PatternField, PatternKind, Program, Statement, StaticDeclaration, StructDeclaration,
    StructField, TraitDeclaration, TraitMethod, TypeAlias, TypeName, TypeNameKind, UnaryOperator,
    WherePredicate,
};
use reimer::comptime::{Evaluated, Evaluation, Initializer, Property, Value};
use reimer::generics::Entry;
use reimer::hir;
use reimer::list::List;
use reimer::registry::capability::STANDARD_STRING_TYPE;
use reimer::registry::{TypeLayout, TypeRegistry};
use reimer::span::Span;
use reimer::text::{show, words, Text};
use reimer::types::{Platform, Type, TypeId};
use reimer::{resolve, resolve_library};
use std::rc::Rc;

// A lexer and parser for the fixtures.

#[derive(Clone, Copy, Debug, PartialEq)]
enum Kind {
    Word,
    Integer,
    Float,
    Text,
    NativeText,
    Format,
    Character,
    Symbol,
    End,
}

#[derive(Clone, Copy, Debug)]
struct Token {
    kind: Kind,
    text: &'static str,
    span: Span,
}

const SYMBOLS: [&str; 34] = [
    "...", "<<=", ">>=", "::", "->", "=>", "==", "!=", "<=", ">=", "&&", "||", "+=", "-=", "*=",
    "/=", "%=", "<<", "(", ")", "{", "}", "[", "]", "<", ">", ",", ";", ":", ".", "?", "@", "=",
    "!",
];

fn keep(text: &str) -> &'static str {
    Box::leak(text.to_owned().into_boxed_str())
}

fn lex(source: &'static str) -> Vec<Token> {
    let bytes = source.as_bytes();
    let mut tokens = Vec::new();
    let mut at = 0;
    while at < bytes.len() {
        let byte = bytes[at];
        if byte.is_ascii_whitespace() {
            at += 1;
            continue;
        }
        let start = at;
        let token = |kind: Kind, text: &'static str, end: usize| Token {
            kind,
            text,
            span: Span { start, end },
        };
        let prefixed = (byte == b'c' || byte == b'f') && bytes.get(at + 1) == Some(&b'"');
        if byte == b'"' || prefixed {
            let open = if prefixed { at + 2 } else { at + 1 };
            let mut end = open;
            while bytes[end] != b'"' {
                end += 1;
            }
            let kind = match byte {
                b'c' => Kind::NativeText,
                b'f' => Kind::Format,
                _ => Kind::Text,
            };
            tokens.push(token(kind, &source[open..end], end + 1));
            at = end + 1;
        } else if byte == b'\'' {
            let mut end = at + 1;
            while bytes[end] != b'\'' {
                end += 1;
            }
            tokens.push(token(Kind::Character, &source[at + 1..end], end + 1));
            at = end + 1;
        } else if byte.is_ascii_digit() {
            let mut end = at;
            while end < bytes.len() && (bytes[end].is_ascii_digit() || bytes[end] == b'_') {
                end += 1;
            }
            let mut kind = Kind::Integer;
            let behind_dot = tokens.last().is_some_and(|last: &Token| last.text == ".");
            if !behind_dot
                && end + 1 < bytes.len()
                && bytes[end] == b'.'
                && bytes[end + 1].is_ascii_digit()
            {
                kind = Kind::Float;
                end += 1;
                while end < bytes.len() && bytes[end].is_ascii_digit() {
                    end += 1;
                }
            }
            tokens.push(token(kind, &source[at..end], end));
            at = end;
        } else if byte.is_ascii_alphabetic() || byte == b'_' {
            let mut end = at;
            while end < bytes.len() && (bytes[end].is_ascii_alphanumeric() || bytes[end] == b'_' || bytes[end] == b'$') {
                end += 1;
            }
            tokens.push(token(Kind::Word, &source[at..end], end));
            at = end;
        } else {
            let rest = &source[at..];
            let known = SYMBOLS.iter().find(|symbol| rest.starts_with(**symbol));
            let length = known.map_or(1, |symbol| symbol.len());
            tokens.push(token(Kind::Symbol, &source[at..at + length], at + length));
            at += length;
        }
    }
    let end = Span { start: source.len(), end: source.len() };
    tokens.push(Token { kind: Kind::End, text: "", span: end });
    tokens
}

fn list<T>(elements: Vec<T>) -> List<T> {
    List::from_vec(elements)
}

struct Parser {
    tokens: Vec<Token>,
    at: usize,
    structs: bool,
}

impl Parser {
    fn peek(&self) -> Token {
        self.tokens[self.at]
    }

    fn ahead(&self, count: usize) -> &'static str {
        self.tokens.get(self.at + count).map_or("", |token| token.text)
    }

    fn is(&self, text: &str) -> bool {
        let token = self.peek();
        (token.kind == Kind::Word || token.kind == Kind::Symbol) && token.text == text
    }

    fn next(&mut self) -> Token {
        let token = self.peek();
        self.at += 1;
        token
    }

    fn accept(&mut self, text: &str) -> bool {
        let found = self.is(text);
        if found {
            self.at += 1;
        }
        found
    }

    fn expect(&mut self, text: &str) -> Token {
        assert!(self.is(text), "expected `{text}`, found {:?}", self.peek());
        self.next()
    }

    fn start(&self) -> usize {
        self.peek().span.start
    }

    fn since(&self, start: usize) -> Span {
        Span { start, end: self.tokens[self.at - 1].span.end }
    }

    fn identifier(&mut self) -> Identifier<'static> {
        let token = self.next();
        assert_eq!(token.kind, Kind::Word, "expected a name, found {token:?}");
        Identifier { name: token.text, span: token.span }
    }

    fn path(&mut self) -> Path<'static> {
        let start = self.start();
        let mut segments = vec![self.identifier()];
        while self.accept("::") {
            segments.push(self.identifier());
        }
        Path { segments: list(segments), span: self.since(start) }
    }

    fn separated<T>(&mut self, close: &str, mut one: impl FnMut(&mut Parser) -> T) -> Vec<T> {
        let mut elements = Vec::new();
        while !self.is(close) {
            elements.push(one(self));
            if !self.accept(",") {
                break;
            }
        }
        self.expect(close);
        elements
    }

    // Types.

    fn make_type(&self, kind: TypeNameKind<'static>, start: usize) -> TypeName<'static> {
        TypeName { kind: Rc::new(kind), span: self.since(start) }
    }

    fn written_type(&mut self) -> TypeName<'static> {
        let start = self.start();
        let kind = if self.accept("&&") {
            let target = self.written_type();
            let inner = self.make_type(TypeNameKind::Reference { mutable: false, target }, start + 1);
            TypeNameKind::Reference { mutable: false, target: inner }
        } else if self.accept("&") {
            let mutable = self.accept("mut");
            let target = self.written_type();
            TypeNameKind::Reference { mutable, target }
        } else if self.accept("*") {
            let mutable = self.next().text == "mut";
            let target = self.written_type();
            TypeNameKind::RawPointer { mutable, target }
        } else if self.accept("[") {
            let element = self.written_type();
            let kind = if self.accept(";") {
                let length = self.expression();
                TypeNameKind::Array { element, length }
            } else {
                TypeNameKind::Slice(element)
            };
            self.expect("]");
            kind
        } else if self.accept("(") {
            let mut comma = false;
            let mut elements = Vec::new();
            while !self.is(")") {
                elements.push(self.written_type());
                comma = self.accept(",");
                if !comma {
                    break;
                }
            }
            self.expect(")");
            let expands = elements.len() == 1
                && matches!(&*elements[0].kind, TypeNameKind::PackExpansion { .. });
            if elements.is_empty() {
                TypeNameKind::Unit
            } else if elements.len() == 1 && !comma && !expands {
                return elements.remove(0);
            } else {
                TypeNameKind::Tuple(list(elements))
            }
        } else if self.accept("...") {
            let pack = self.identifier();
            let template = if self.accept("=>") { Some(self.written_type()) } else { None };
            TypeNameKind::PackExpansion { pack, template }
        } else if self.accept("fn") {
            self.expect("(");
            let parameters = self.separated(")", Parser::written_type);
            let return_type = if self.accept("->") {
                self.written_type()
            } else {
                self.make_type(TypeNameKind::Unit, start)
            };
            TypeNameKind::Function { parameters: list(parameters), return_type }
        } else {
            let path = self.path();
            if self.is("<") {
                let arguments = self.generic_arguments();
                TypeNameKind::Generic { path, arguments: list(arguments) }
            } else {
                TypeNameKind::Path(path)
            }
        };
        self.make_type(kind, start)
    }

    fn close_angle(&mut self) {
        self.expect(">");
    }

    fn generic_arguments(&mut self) -> Vec<GenericArgument<'static>> {
        self.expect("<");
        let mut arguments = Vec::new();
        while !self.is(">") {
            let start = self.start();
            if self.accept("...") {
                let pack = self.identifier();
                let template = if self.accept("=>") { Some(self.written_type()) } else { None };
                arguments.push(GenericArgument::Pack { pack, template, span: self.since(start) });
            } else if self.peek().kind == Kind::Integer || self.is("{") {
                let value = self.primary();
                arguments.push(GenericArgument::Const(value));
            } else {
                arguments.push(GenericArgument::Type(self.written_type()));
            }
            if !self.accept(",") {
                break;
            }
        }
        self.close_angle();
        arguments
    }

    // The generic arguments of a call, where there are any.
    fn call_arguments(&mut self) -> Vec<GenericArgument<'static>> {
        if !self.is("<") {
            return Vec::new();
        }
        let mut depth = 0;
        let mut index = self.at;
        loop {
            let token = self.tokens[index];
            match token.text {
                "<" => depth += 1,
                ">" => {
                    depth -= 1;
                    if depth == 0 {
                        break;
                    }
                }
                "," | "::" | "&" | "mut" | "[" | "]" | "(" | ")" | "..." | "*" | "const" => {}
                _ if token.kind == Kind::Word || token.kind == Kind::Integer => {}
                _ => return Vec::new(),
            }
            index += 1;
        }
        if self.tokens[index + 1].text == "(" {
            self.generic_arguments()
        } else {
            Vec::new()
        }
    }

    // Expressions.

    fn make(&self, kind: ExpressionKind<'static>, start: usize) -> Expression<'static> {
        Expression { kind: Rc::new(kind), span: self.since(start) }
    }

    fn without_structs(&mut self) -> Expression<'static> {
        let allowed = self.structs;
        self.structs = false;
        let expression = self.expression();
        self.structs = allowed;
        expression
    }

    fn with_structs<T>(&mut self, parse: impl FnOnce(&mut Parser) -> T) -> T {
        let allowed = self.structs;
        self.structs = true;
        let parsed = parse(self);
        self.structs = allowed;
        parsed
    }

    fn expression(&mut self) -> Expression<'static> {
        let start = self.start();
        let left = self.binary(0);
        self.assignment(left, start)
    }

    fn assignment(&mut self, left: Expression<'static>, start: usize) -> Expression<'static> {
        let operator = match self.peek().text {
            "=" => AssignmentOperator::Assign,
            "+=" => AssignmentOperator::Add,
            "-=" => AssignmentOperator::Subtract,
            "*=" => AssignmentOperator::Multiply,
            "/=" => AssignmentOperator::Divide,
            "%=" => AssignmentOperator::Remainder,
            "<<=" => AssignmentOperator::ShiftLeft,
            ">>=" => AssignmentOperator::ShiftRight,
            _ => return left,
        };
        if self.peek().kind != Kind::Symbol {
            return left;
        }
        self.next();
        let value = self.expression();
        self.make(ExpressionKind::Assignment { operator, target: left, value }, start)
    }

    fn operator(&self) -> Option<(BinaryOperator, u8, usize)> {
        if self.peek().kind != Kind::Symbol {
            return None;
        }
        let found = match self.peek().text {
            "||" => (BinaryOperator::Or, 1, 1),
            "&&" => (BinaryOperator::And, 2, 1),
            "==" => (BinaryOperator::Equal, 3, 1),
            "!=" => (BinaryOperator::NotEqual, 3, 1),
            "<" => (BinaryOperator::Less, 4, 1),
            "<=" => (BinaryOperator::LessEqual, 4, 1),
            ">" if self.ahead(1) == ">" => (BinaryOperator::ShiftRight, 8, 2),
            ">" => (BinaryOperator::Greater, 4, 1),
            ">=" => (BinaryOperator::GreaterEqual, 4, 1),
            "|" => (BinaryOperator::BitOr, 5, 1),
            "^" => (BinaryOperator::BitXor, 6, 1),
            "&" => (BinaryOperator::BitAnd, 7, 1),
            "<<" => (BinaryOperator::ShiftLeft, 8, 1),
            "+" => (BinaryOperator::Add, 9, 1),
            "-" => (BinaryOperator::Subtract, 9, 1),
            "*" => (BinaryOperator::Multiply, 10, 1),
            "/" => (BinaryOperator::Divide, 10, 1),
            "%" => (BinaryOperator::Remainder, 10, 1),
            _ => return None,
        };
        Some(found)
    }

    fn binary(&mut self, least: u8) -> Expression<'static> {
        let start = self.start();
        let left = self.cast();
        self.binary_after(left, start, least)
    }

    fn binary_after(
        &mut self,
        left: Expression<'static>,
        start: usize,
        least: u8,
    ) -> Expression<'static> {
        let mut left = left;
        while let Some((operator, level, tokens)) = self.operator() {
            if level < least.max(1) {
                break;
            }
            self.at += tokens;
            let right = self.binary(level + 1);
            left = self.make(ExpressionKind::Binary { operator, left, right }, start);
        }
        left
    }

    fn cast(&mut self) -> Expression<'static> {
        let start = self.start();
        let value = self.unary();
        self.cast_after(value, start)
    }

    fn cast_after(&mut self, value: Expression<'static>, start: usize) -> Expression<'static> {
        let mut value = value;
        while self.accept("as") {
            let target = self.written_type();
            value = self.make(ExpressionKind::Cast { value, target }, start);
        }
        value
    }

    fn unary(&mut self) -> Expression<'static> {
        let start = self.start();
        let operator = if self.accept("-") {
            UnaryOperator::Negate
        } else if self.accept("!") {
            UnaryOperator::Not
        } else if self.accept("*") {
            UnaryOperator::Dereference
        } else if self.accept("&") {
            if self.accept("mut") {
                UnaryOperator::BorrowMut
            } else {
                UnaryOperator::Borrow
            }
        } else {
            let primary = self.primary();
            return self.postfix(primary, start);
        };
        let operand = self.unary();
        self.make(ExpressionKind::Unary { operator, operand }, start)
    }

    fn postfix(&mut self, base: Expression<'static>, start: usize) -> Expression<'static> {
        let mut base = base;
        loop {
            if self.accept("?") {
                base = self.make(ExpressionKind::Try(base), start);
            } else if self.accept("[") {
                let indices = self.with_structs(|parser| parser.separated("]", Parser::expression));
                let span = self.since(start);
                let index = IndexExpression { base, indices: list(indices), span };
                base = self.make(ExpressionKind::Index(index), start);
            } else if self.accept(".") {
                let token = self.next();
                let field = if token.kind == Kind::Integer {
                    let index = token.text.parse().expect("tuple index");
                    FieldName::TupleIndex { index, span: token.span }
                } else {
                    FieldName::Named(Identifier { name: token.text, span: token.span })
                };
                let span = self.since(start);
                base = self.make(ExpressionKind::Field(FieldExpression { base, field, span }), start);
            } else {
                let arguments = self.call_arguments();
                if arguments.is_empty() && !self.is("(") {
                    return base;
                }
                self.expect("(");
                let values = self.with_structs(|parser| parser.separated(")", Parser::expression));
                let call = CallExpression {
                    callee: base,
                    generic_arguments: list(arguments),
                    arguments: list(values),
                    span: self.since(start),
                };
                base = self.make(ExpressionKind::Call(call), start);
            }
        }
    }

    fn condition(&mut self) -> Expression<'static> {
        let start = self.start();
        self.expect("if");
        let condition = self.without_structs();
        let then_branch = self.block();
        let else_branch = if self.accept("else") {
            Some(if self.is("if") {
                self.condition()
            } else {
                let start = self.start();
                let block = self.block();
                self.make(ExpressionKind::Block(block), start)
            })
        } else {
            None
        };
        self.make(ExpressionKind::If { condition, then_branch, else_branch }, start)
    }

    fn choice(&mut self) -> Expression<'static> {
        let start = self.start();
        self.expect("match");
        let scrutinee = self.without_structs();
        self.expect("{");
        let mut arms = Vec::new();
        while !self.accept("}") {
            let start = self.start();
            let pattern = self.pattern();
            let guard = if self.accept("if") { Some(self.expression()) } else { None };
            self.expect("=>");
            let body = self.with_structs(Parser::expression);
            self.accept(",");
            arms.push(MatchArm { pattern, guard, body, span: self.since(start) });
        }
        self.make(ExpressionKind::Match { scrutinee, arms: list(arms) }, start)
    }

    fn block_like(&mut self) -> Option<Expression<'static>> {
        let start = self.start();
        let expression = if self.is("if") {
            self.condition()
        } else if self.is("match") {
            self.choice()
        } else if self.accept("loop") {
            let block = self.block();
            self.make(ExpressionKind::Loop(block), start)
        } else if self.accept("unsafe") {
            let block = self.block();
            self.make(ExpressionKind::Unsafe(block), start)
        } else if self.is("{") {
            let block = self.block();
            self.make(ExpressionKind::Block(block), start)
        } else {
            return None;
        };
        Some(expression)
    }

    fn primary(&mut self) -> Expression<'static> {
        if let Some(expression) = self.block_like() {
            return expression;
        }
        let start = self.start();
        let token = self.peek();
        let kind = match token.kind {
            Kind::Integer => {
                self.next();
                ExpressionKind::Integer(token.text.replace('_', "").parse().expect("integer"))
            }
            Kind::Float => {
                self.next();
                ExpressionKind::Float(float(token.text))
            }
            Kind::Text => {
                self.next();
                ExpressionKind::String(token.text)
            }
            Kind::NativeText => {
                self.next();
                ExpressionKind::CString(token.text)
            }
            Kind::Format => {
                self.next();
                ExpressionKind::FormattedString(list(fragments(token)))
            }
            Kind::Character => {
                self.next();
                ExpressionKind::Character(token.text.chars().next().expect("character"))
            }
            Kind::Word if token.text == "true" || token.text == "false" => {
                self.next();
                ExpressionKind::Boolean(token.text == "true")
            }
            Kind::Word => {
                let path = self.path();
                if self.structs && self.is("{") {
                    self.next();
                    let fields = self.separated("}", |parser| {
                        let name = parser.identifier();
                        parser.expect(":");
                        FieldInitializer { name, value: parser.with_structs(Parser::expression) }
                    });
                    ExpressionKind::Struct { path, fields: list(fields) }
                } else {
                    ExpressionKind::Path(path)
                }
            }
            _ if self.accept("[") => self.with_structs(Parser::array),
            _ if self.accept("(") => return self.with_structs(|parser| parser.tuple(start)),
            _ => panic!("unexpected {token:?}"),
        };
        self.make(kind, start)
    }

    fn array(&mut self) -> ExpressionKind<'static> {
        if self.accept("]") {
            return ExpressionKind::ArrayList(List::Nil);
        }
        let first = self.expression();
        if self.accept(";") {
            let length = self.expression();
            self.expect("]");
            return ExpressionKind::ArrayRepeat { value: first, length };
        }
        let mut elements = vec![first];
        if self.accept(",") {
            elements.extend(self.separated("]", Parser::expression));
        } else {
            self.expect("]");
        }
        ExpressionKind::ArrayList(list(elements))
    }

    fn tuple(&mut self, start: usize) -> Expression<'static> {
        let mut comma = false;
        let mut elements = Vec::new();
        while !self.is(")") {
            let start = self.start();
            elements.push(if self.accept("...") {
                let pack = self.identifier();
                self.expect("=>");
                let template = self.expression();
                self.make(ExpressionKind::PackExpansion { pack, template }, start)
            } else {
                self.expression()
            });
            comma = self.accept(",");
            if !comma {
                break;
            }
        }
        self.expect(")");
        if elements.is_empty() {
            self.make(ExpressionKind::Unit, start)
        } else if elements.len() == 1 && !comma {
            elements.remove(0)
        } else {
            self.make(ExpressionKind::Tuple(list(elements)), start)
        }
    }

    // Patterns.

    fn pattern(&mut self) -> Pattern<'static> {
        let start = self.start();
        let token = self.peek();
        let kind = if self.accept("_") {
            PatternKind::Wildcard
        } else if self.accept("(") {
            PatternKind::Tuple(list(self.separated(")", Parser::pattern)))
        } else if self.accept("-") {
            let value = self.next();
            if value.kind == Kind::Float {
                PatternKind::Float(float_pattern(-value.text.parse::<f64>().expect("float")))
            } else {
                PatternKind::Integer {
                    value: value.text.parse().expect("integer"),
                    negative: true,
                }
            }
        } else if token.kind == Kind::Integer {
            self.next();
            PatternKind::Integer { value: token.text.parse().expect("integer"), negative: false }
        } else if token.kind == Kind::Float {
            self.next();
            PatternKind::Float(float_pattern(token.text.parse().expect("float")))
        } else if token.kind == Kind::Character {
            self.next();
            PatternKind::Character(token.text.chars().next().expect("character"))
        } else if self.is("true") || self.is("false") {
            PatternKind::Boolean(self.next().text == "true")
        } else if self.accept("mut") {
            PatternKind::Identifier { mutable: true, name: self.identifier() }
        } else if self.ahead(1) == "::" || self.ahead(1) == "(" || self.ahead(1) == "{" {
            let path = self.path();
            if self.accept("(") {
                let fields = self.separated(")", Parser::pattern);
                PatternKind::EnumTuple { path, fields: list(fields) }
            } else if self.accept("{") {
                let fields = self.separated("}", |parser| {
                    let start = parser.start();
                    let name = parser.identifier();
                    let pattern = if parser.accept(":") {
                        parser.pattern()
                    } else {
                        let kind = PatternKind::Identifier { mutable: false, name };
                        Pattern { kind: Rc::new(kind), span: name.span }
                    };
                    PatternField { name, pattern, span: parser.since(start) }
                });
                PatternKind::EnumStruct { path, fields: list(fields) }
            } else {
                PatternKind::Path(path)
            }
        } else {
            PatternKind::Identifier { mutable: false, name: self.identifier() }
        };
        Pattern { kind: Rc::new(kind), span: self.since(start) }
    }

    // Statements.

    fn block(&mut self) -> Block<'static> {
        let start = self.start();
        self.expect("{");
        let parsed = self.with_structs(|parser| {
            let mut statements = Vec::new();
            let mut tail = None;
            while !parser.is("}") {
                match parser.statement() {
                    Ok(statement) => statements.push(statement),
                    Err(expression) => tail = Some(expression),
                }
            }
            (statements, tail)
        });
        self.expect("}");
        Block { statements: list(parsed.0), tail: parsed.1, span: self.since(start) }
    }

    fn optional_value(&mut self) -> Option<Expression<'static>> {
        let value = if self.is(";") { None } else { Some(self.expression()) };
        self.expect(";");
        value
    }

    fn statement(&mut self) -> Result<Statement<'static>, Expression<'static>> {
        let start = self.start();
        let statement = if self.accept("let") {
            let mutable = self.accept("mut");
            let name = self.identifier();
            let ty = if self.accept(":") { Some(self.written_type()) } else { None };
            self.expect("=");
            let initializer = self.expression();
            self.expect(";");
            Statement::Let { name, mutable, ty, initializer, span: self.since(start) }
        } else if self.accept("defer") {
            let action = self.expression();
            self.accept(";");
            Statement::Defer { action, span: self.since(start) }
        } else if self.accept("return") {
            let value = self.optional_value();
            Statement::Return { value, span: self.since(start) }
        } else if self.accept("break") {
            let value = self.optional_value();
            Statement::Break { value, span: self.since(start) }
        } else if self.accept("continue") {
            self.expect(";");
            Statement::Continue(self.since(start))
        } else if self.accept("while") {
            let condition = self.without_structs();
            let body = self.block();
            Statement::While { condition, body, span: self.since(start) }
        } else if self.accept("for") {
            let pattern = self.pattern();
            self.expect("in");
            let iterable = self.without_structs();
            let body = self.block();
            Statement::For { pattern, iterable, body, span: self.since(start) }
        } else if let Some(expression) = self.block_like() {
            let expression = if self.is(".") || self.is("?") || self.is("as") {
                let expression = self.postfix(expression, start);
                let expression = self.cast_after(expression, start);
                self.binary_after(expression, start, 0)
            } else {
                expression
            };
            if self.is("}") {
                return Err(expression);
            }
            self.accept(";");
            Statement::Expression(expression)
        } else {
            let expression = self.expression();
            if !self.accept(";") {
                return Err(expression);
            }
            Statement::Expression(expression)
        };
        Ok(statement)
    }

    // Declarations.

    fn generic_parameters(&mut self) -> Vec<GenericParameter<'static>> {
        if !self.accept("<") {
            return Vec::new();
        }
        self.separated(">", |parser| {
            let start = parser.start();
            if parser.accept("...") {
                let name = parser.identifier();
                let bounds = parser.bounds();
                GenericParameter::TypePack { name, bounds, span: parser.since(start) }
            } else if parser.accept("const") {
                let name = parser.identifier();
                parser.expect(":");
                let ty = parser.written_type();
                let default = if parser.accept("=") { Some(parser.primary()) } else { None };
                GenericParameter::Const { name, ty, default, span: parser.since(start) }
            } else {
                let name = parser.identifier();
                let bounds = parser.bounds();
                let default = if parser.accept("=") { Some(parser.written_type()) } else { None };
                GenericParameter::Type { name, bounds, default, span: parser.since(start) }
            }
        })
    }

    fn bounds(&mut self) -> List<Path<'static>> {
        let mut bounds = Vec::new();
        if self.accept(":") {
            bounds.push(self.path());
            while self.accept("+") {
                bounds.push(self.path());
            }
        }
        list(bounds)
    }

    fn where_predicates(&mut self) -> List<WherePredicate<'static>> {
        let mut predicates = Vec::new();
        if self.accept("where") {
            while !self.is("{") && !self.is(";") {
                let start = self.start();
                let ty = self.written_type();
                let bounds = self.bounds();
                predicates.push(WherePredicate { ty, bounds, span: self.since(start) });
                if !self.accept(",") {
                    break;
                }
            }
        }
        list(predicates)
    }

    fn parameters(&mut self, owner: Option<&TypeName<'static>>) -> List<Parameter<'static>> {
        self.expect("(");
        let parameters = self.separated(")", |parser| {
            let start = parser.start();
            let by_reference = parser.is("&") && (parser.ahead(1) == "self" || parser.ahead(2) == "self");
            if by_reference || parser.is("self") && parser.ahead(1) != ":" {
                let borrowed = parser.accept("&");
                let mutable = parser.accept("mut");
                let name = parser.identifier();
                let span = parser.since(start);
                let target = match owner {
                    Some(owner) => TypeName { kind: owner.kind.clone(), span },
                    None => {
                        let own = Identifier { name: "Self", span };
                        let path = Path { segments: list(vec![own]), span };
                        TypeName { kind: Rc::new(TypeNameKind::Path(path)), span }
                    }
                };
                let ty = if borrowed {
                    let kind = TypeNameKind::Reference { mutable, target };
                    TypeName { kind: Rc::new(kind), span }
                } else {
                    target
                };
                Parameter { name, ty, span }
            } else {
                let name = parser.identifier();
                parser.expect(":");
                let ty = parser.written_type();
                Parameter { name, ty, span: parser.since(start) }
            }
        });
        list(parameters)
    }

    fn return_type(&mut self) -> Option<TypeName<'static>> {
        if self.accept("->") {
            Some(self.written_type())
        } else {
            None
        }
    }

    fn function(
        &mut self,
        attributes: Vec<Attribute<'static>>,
        is_public: bool,
        owner: Option<&TypeName<'static>>,
    ) -> Function<'static> {
        let start = self.start();
        let is_comptime = self.accept("comptime");
        self.expect("fn");
        let name = self.identifier();
        let generic_parameters = list(self.generic_parameters());
        let parameters = self.parameters(owner);
        let return_type = self.return_type();
        let where_predicates = self.where_predicates();
        let body = self.block();
        Function {
            attributes: list(attributes),
            name,
            is_public,
            is_comptime,
            generic_parameters,
            where_predicates,
            parameters,
            return_type,
            body,
            span: self.since(start),
        }
    }

    fn foreign(&mut self, link: Option<&'static str>, is_public: bool) -> Item<'static> {
        let start = self.start();
        self.expect("fn");
        let name = self.identifier();
        let parameters = self.parameters(None);
        let return_type = self.return_type();
        self.expect(";");
        Item::ForeignFunction(Rc::new(ForeignFunction {
            name,
            symbol: name.name,
            link,
            abi: "C",
            is_public,
            parameters,
            return_type,
            span: self.since(start),
        }))
    }

    fn attributes(&mut self) -> (Vec<Attribute<'static>>, Option<&'static str>) {
        let mut attributes = Vec::new();
        let mut link = None;
        while self.is("@") {
            let start = self.start();
            self.next();
            let name = self.identifier();
            let mut arguments = Vec::new();
            if self.accept("(") {
                while !self.accept(")") {
                    let token = self.next();
                    match token.kind {
                        Kind::Text => link = Some(token.text),
                        Kind::Integer => arguments.push(AttributeArgument::Integer(IntegerLiteral {
                            value: token.text.parse().expect("integer"),
                            span: token.span,
                        })),
                        _ => arguments.push(AttributeArgument::Identifier(Identifier {
                            name: token.text,
                            span: token.span,
                        })),
                    }
                    self.accept(",");
                }
            }
            if name.name != "link" {
                let arguments = list(arguments);
                attributes.push(Attribute { name, arguments, span: self.since(start) });
            }
        }
        (attributes, link)
    }

    fn struct_fields(&mut self) -> List<StructField<'static>> {
        let fields = self.separated("}", |parser| {
            let start = parser.start();
            let is_public = parser.accept("pub");
            let name = parser.identifier();
            parser.expect(":");
            let ty = parser.written_type();
            StructField { name, is_public, ty, span: parser.since(start) }
        });
        list(fields)
    }

    fn item(&mut self, items: &mut Vec<Item<'static>>) {
        let start = self.start();
        let (attributes, link) = self.attributes();
        let is_public = self.accept("pub");
        if self.is("fn") || self.is("comptime") && self.ahead(1) == "fn" {
            items.push(Item::Function(Rc::new(self.function(attributes, is_public, None))));
        } else if self.accept("comptime") {
            items.push(Item::Comptime(self.block()));
        } else if self.accept("struct") {
            let name = self.identifier();
            let generic_parameters = list(self.generic_parameters());
            let where_predicates = self.where_predicates();
            self.expect("{");
            let fields = self.struct_fields();
            items.push(Item::Struct(Rc::new(StructDeclaration {
                attributes: list(attributes),
                name,
                generic_parameters,
                where_predicates,
                fields,
                span: self.since(start),
            })));
        } else if self.accept("enum") {
            let name = self.identifier();
            let generic_parameters = list(self.generic_parameters());
            let where_predicates = self.where_predicates();
            self.expect("{");
            let variants = self.separated("}", |parser| {
                let start = parser.start();
                let name = parser.identifier();
                let payload = if parser.accept("(") {
                    EnumVariantPayload::Tuple(list(parser.separated(")", Parser::written_type)))
                } else if parser.accept("{") {
                    EnumVariantPayload::Struct(parser.struct_fields())
                } else {
                    EnumVariantPayload::Unit
                };
                EnumVariant { name, payload, span: parser.since(start) }
            });
            items.push(Item::Enum(Rc::new(EnumDeclaration {
                attributes: list(attributes),
                name,
                generic_parameters,
                where_predicates,
                variants: list(variants),
                span: self.since(start),
            })));
        } else if self.accept("type") {
            let name = self.identifier();
            self.expect("=");
            let target = self.written_type();
            self.expect(";");
            let span = self.since(start);
            items.push(Item::TypeAlias(Rc::new(TypeAlias { name, target, span })));
        } else if self.accept("trait") {
            let name = self.identifier();
            let generic_parameters = list(self.generic_parameters());
            let supertraits = self.bounds();
            self.expect("{");
            let mut methods = Vec::new();
            while !self.accept("}") {
                let start = self.start();
                self.expect("fn");
                let name = self.identifier();
                let generic_parameters = list(self.generic_parameters());
                let parameters = self.parameters(None);
                let return_type = self.return_type();
                self.expect(";");
                let span = self.since(start);
                methods.push(TraitMethod { name, generic_parameters, parameters, return_type, span });
            }
            items.push(Item::Trait(Rc::new(TraitDeclaration {
                name,
                generic_parameters,
                supertraits,
                methods: list(methods),
                span: self.since(start),
            })));
        } else if self.accept("impl") {
            let generic_parameters = list(self.generic_parameters());
            let first = self.written_type();
            let (trait_type, target) = if self.accept("for") {
                (Some(first), self.written_type())
            } else {
                (None, first)
            };
            let where_predicates = self.where_predicates();
            self.expect("{");
            let mut methods = Vec::new();
            while !self.accept("}") {
                let (attributes, _) = self.attributes();
                let is_public = self.accept("pub");
                methods.push(Rc::new(self.function(attributes, is_public, Some(&target))));
            }
            items.push(Item::Impl(Rc::new(ImplDeclaration {
                generic_parameters,
                where_predicates,
                trait_type,
                target,
                methods: list(methods),
                span: self.since(start),
            })));
        } else if self.accept("const") {
            let name = self.identifier();
            self.expect(":");
            let ty = self.written_type();
            self.expect("=");
            let value = self.expression();
            self.expect(";");
            let span = self.since(start);
            items.push(Item::Constant(Rc::new(ConstantDeclaration { name, ty, value, span })));
        } else if self.accept("static") {
            let mutable = self.accept("mut");
            let name = self.identifier();
            self.expect(":");
            let ty = self.written_type();
            self.expect("=");
            let value = self.expression();
            self.expect(";");
            items.push(Item::Static(Rc::new(StaticDeclaration {
                name,
                is_public,
                mutable,
                ty,
                value,
                span: self.since(start),
            })));
        } else {
            self.expect(FOREIGN);
            assert_eq!(self.next().text, "C");
            if self.accept("{") {
                while !self.accept("}") {
                    items.push(self.foreign(link, is_public));
                }
            } else {
                items.push(self.foreign(link, is_public));
            }
        }
    }
}

const FOREIGN: &str = "extern";

fn float(text: &str) -> FloatLiteral {
    let value: f64 = text.parse().expect("float");
    let single = value as f32;
    FloatLiteral {
        bits: value.to_bits(),
        single: if single.is_finite() { Some(single.to_bits()) } else { None },
    }
}

fn float_pattern(value: f64) -> FloatPattern {
    let single = value as f32;
    FloatPattern {
        bits: value.to_bits(),
        single: single.to_bits(),
        single_is_finite: single.is_finite(),
    }
}

fn fragments(token: Token) -> Vec<FormattedStringFragment<'static>> {
    let mut found = Vec::new();
    let mut rest = token.text;
    while let Some(open) = rest.find('{') {
        if open > 0 {
            found.push(FormattedStringFragment::Text(&rest[..open], token.span));
        }
        let close = rest.find('}').expect("closing brace");
        let inner = &rest[open + 1..close];
        let (inner, debug) = match inner.strip_suffix(":?") {
            Some(inner) => (inner, true),
            None => (inner, false),
        };
        let mut parser = Parser { tokens: lex(inner), at: 0, structs: true };
        let mut value = parser.expression();
        value.span = token.span;
        found.push(if debug {
            FormattedStringFragment::Debug(value)
        } else {
            FormattedStringFragment::Display(value)
        });
        rest = &rest[close + 1..];
    }
    if !rest.is_empty() {
        found.push(FormattedStringFragment::Text(rest, token.span));
    }
    found
}

fn parse(source: &str) -> Program<'static> {
    let mut parser = Parser { tokens: lex(keep(source)), at: 0, structs: true };
    let mut items = Vec::new();
    while parser.peek().kind != Kind::End {
        parser.item(&mut items);
    }
    Program { items: list(items) }
}

// What the fixtures compute at compile time.

fn elements<T>(list: &List<T>) -> Vec<&T> {
    let mut found = Vec::new();
    let mut rest = list;
    while let List::Cons(node) = rest {
        found.push(&node.head);
        rest = &node.tail;
    }
    found
}

fn integer(value: i128) -> Value<'static> {
    Value::Integer { negative: value < 0, magnitude: value.unsigned_abs() }
}

fn evaluate(expression: &Expression<'static>) -> Option<Value<'static>> {
    match &*expression.kind {
        ExpressionKind::Integer(value) => Some(integer(*value as i128)),
        ExpressionKind::Boolean(value) => Some(Value::Boolean(*value)),
        ExpressionKind::String(value) => Some(Value::String(words(value))),
        ExpressionKind::Binary { operator: BinaryOperator::Add, left, right } => {
            match (evaluate(left)?, evaluate(right)?) {
                (
                    Value::Integer { magnitude: left, .. },
                    Value::Integer { magnitude: right, .. },
                ) => Some(integer((left + right) as i128)),
                _ => None,
            }
        }
        ExpressionKind::Struct { fields, .. } => {
            let mut properties = Vec::new();
            for field in elements(fields) {
                properties.push(Property {
                    name: field.name.name,
                    value: evaluate(&field.value)?,
                });
            }
            Some(Value::Record(list(properties)))
        }
        _ => None,
    }
}

fn evaluated(expression: &Expression<'static>) -> Option<Evaluated<'static>> {
    evaluate(expression).map(|value| Evaluated { value, span: expression.span })
}

fn known(constants: &[(&'static str, i128)]) -> List<Entry<'static, Evaluated<'static>>> {
    let entries = constants.iter().map(|(name, value)| Entry {
        name: *name,
        value: Evaluated { value: integer(*value), span: Span { start: 0, end: 0 } },
    });
    list(entries.collect())
}

fn evaluation(
    program: &Program<'static>,
    constants: &[(&'static str, i128)],
) -> Evaluation<'static> {
    let mut statics = Vec::new();
    for item in elements(&program.items) {
        if let Item::Static(declaration) = item {
            let value = evaluated(&declaration.value);
            statics.push(Initializer { value, problems: List::Nil });
        }
    }
    Evaluation {
        preliminary: known(constants),
        constants: known(constants),
        problems: List::Nil,
        statics: list(statics),
    }
}

fn platform() -> Platform {
    Platform { char_is_unsigned: false, long_is_narrow: false }
}

type Outcome = Result<hir::Program<'static>, Vec<Report<'static>>>;

fn resolve_fixture(source: &str) -> Outcome {
    let program = parse(source);
    resolve(&program, platform(), List::Nil, &evaluation(&program, &[]))
}

fn resolve_with_layout(source: &str, layouts: Vec<TypeLayout>) -> Outcome {
    let program = parse(source);
    resolve(&program, platform(), list(layouts), &evaluation(&program, &[]))
}

fn accepted(outcome: Outcome) -> hir::Program<'static> {
    match outcome {
        Ok(program) => program,
        Err(reports) => {
            for report in &reports {
                println!("{} {} {:?}", report.code, report.message, report.span);
            }
            panic!("the program should be accepted")
        }
    }
}

fn rejected(outcome: Outcome) -> Vec<Report<'static>> {
    match outcome {
        Ok(_) => panic!("the program should be rejected"),
        Err(reports) => {
            for report in &reports {
                println!("{} {} {:?}", report.code, report.message, report.span);
            }
            reports
        }
    }
}

fn shown(name: &Option<Text<'static>>) -> String {
    name.as_ref().map_or(String::new(), show)
}

fn scalar_layout(ty: Type, size: u32) -> TypeLayout {
    TypeLayout { ty, size, align: size, offsets: None }
}

fn pair_layout() -> Vec<TypeLayout> {
    vec![
        TypeLayout {
            ty: Type::Struct(TypeId(0)),
            size: 8,
            align: 4,
            offsets: Some(list(vec![0, 4])),
        },
        scalar_layout(Type::F32, 4),
        scalar_layout(Type::U8, 1),
        scalar_layout(Type::U32, 4),
    ]
}

#[test]
fn resolve_should_type_check_functions_bindings_and_control_flow() {
    let source = "fn add(left: i32, right: i32) -> i32 { left + right }
        fn main() -> i32 {
            let mut value = add(1, 2);
            while value < 5 { value += 1; }
            if value == 5 { 42 } else { 0 }
        }";

    let program = accepted(resolve_fixture(source));

    assert_eq!(elements(&program.functions)[1].body.ty, Type::I32);
}

#[test]
fn resolve_library_should_not_require_main() {
    let syntax = parse("pub fn answer() -> i32 { 42 }");

    let program = accepted(resolve_library(
        &syntax,
        platform(),
        List::Nil,
        &evaluation(&syntax, &[]),
    ));

    assert!(program.entry.is_none());
}

#[test]
fn resolve_should_reject_assignment_to_immutable_binding() {
    let source = "fn main() -> i32 { let value = 1; value = 2; return value; }";

    let diagnostics = rejected(resolve_fixture(source));

    assert!(
        diagnostics
            .iter()
            .any(|diagnostic| diagnostic.code == "E3107")
    );
}

#[test]
fn resolve_should_collect_typed_static_initializers() {
    let source = "static ANSWER: i32 = 40 + 2;
        static mut COUNTER: i32 = 0;
        fn main() -> i32 {
            unsafe { COUNTER = ANSWER; COUNTER }
        }";

    let program = accepted(resolve_fixture(source));

    assert_eq!(elements(&program.statics).len(), 2);
    assert!(!elements(&program.statics)[0].mutable);
    assert!(elements(&program.statics)[1].mutable);
    assert!(matches!(
        &*elements(&program.statics)[0].initializer.kind,
        hir::ExpressionKind::Integer(42)
    ));
}

#[test]
fn resolve_should_allow_references_rooted_in_immutable_statics_to_escape() {
    let source = "static ANSWER: i32 = 42; fn answer_address() -> &i32 { &ANSWER } fn main() -> i32 { *answer_address() }";

    accepted(resolve_fixture(source));
}

#[test]
fn resolve_should_require_unsafe_for_mutable_static_access() {
    let source = "static mut COUNTER: i32 = 0; fn main() -> i32 { COUNTER = 1; COUNTER }";

    let diagnostics = rejected(resolve_fixture(source));

    assert!(
        diagnostics
            .iter()
            .any(|diagnostic| diagnostic.code == "E3156")
    );
}

#[test]
fn resolve_should_reject_assignment_to_immutable_static() {
    let source = "static ANSWER: i32 = 42; fn main() -> i32 { ANSWER = 0; ANSWER }";

    let diagnostics = rejected(resolve_fixture(source));

    assert!(
        diagnostics
            .iter()
            .any(|diagnostic| diagnostic.code == "E3107")
    );
}

#[test]
fn resolve_should_reject_scoped_static_storage() {
    let source = "static MESSAGE: str = \"hello\"; fn main() -> i32 { 0 }";

    let diagnostics = rejected(resolve_fixture(source));

    assert!(
        diagnostics
            .iter()
            .any(|diagnostic| diagnostic.code == "E3155")
    );
}

#[test]
fn resolve_should_reject_moving_non_copy_values_from_statics() {
    let source = "struct Holder { value: i32 }
        static VALUE: Holder = Holder { value: 42 };
        fn main() -> Holder { VALUE }";

    let diagnostics = rejected(resolve_fixture(source));

    assert!(
        diagnostics
            .iter()
            .any(|diagnostic| diagnostic.code == "E3144")
    );
}

#[test]
fn resolve_should_reject_wrong_function_argument_type() {
    let source = "fn identity(value: i32) -> i32 { value } fn main() -> i32 { identity(true) }";

    let diagnostics = rejected(resolve_fixture(source));

    assert!(
        diagnostics
            .iter()
            .any(|diagnostic| diagnostic.code == "E3103")
    );
}

#[test]
fn resolve_should_accept_unit_function_without_return_annotation() {
    let source = "fn visit() { let done = true; } fn main() -> i32 { visit(); 0 }";

    let program = accepted(resolve_fixture(source));

    assert_eq!(elements(&program.functions)[0].return_type, Type::Unit);
}

#[test]
fn resolve_should_reject_qualified_call_until_module_resolution() {
    let source = "fn main() -> i32 { x::y::z(); 0 }";

    let diagnostics = rejected(resolve_fixture(source));

    assert!(
        diagnostics
            .iter()
            .any(|diagnostic| diagnostic.code == "E3106")
    );
}

#[test]
fn resolve_should_accept_minimum_i32_literal() {
    let program =
        accepted(resolve_fixture("fn main() -> i32 { -2147483648 }"));

    let tail = elements(&program.functions)[0]
        .body
        .tail
        .as_ref()
        .expect("fixture has a tail expression");

    assert!(matches!(
        &*tail.kind,
        hir::ExpressionKind::Integer(value) if *value == 1_u128 << 31
    ));
}

#[test]
fn resolve_should_respect_local_shadowing_at_call_sites() {
    let source = "fn answer() -> i32 { 42 }
        fn main() -> i32 { let answer = 1; answer(); 0 }";

    let diagnostics = rejected(resolve_fixture(source));

    assert!(
        diagnostics
            .iter()
            .any(|diagnostic| diagnostic.message.contains("not callable"))
    );
}

#[test]
fn resolve_should_contextually_type_scalar_literals_and_casts() {
    let source = "fn widen(value: u8) -> u64 { value as u64 }
        fn main() -> i32 {
            let byte: u8 = 21;
            let signed: i128 = -170141183460469231731687303715884105728;
            let ratio: f32 = 1.5;
            let scalar: char = 'A';
            if (widen(byte) << 1) == 42 && ratio > 1.0 && scalar as u32 == 65 {
                signed as i32
            } else {
                0
            }
        }";

    let program = accepted(resolve_fixture(source));

    assert_eq!(elements(&elements(&program.functions)[0].parameters)[0].ty, Type::U8);
    assert_eq!(elements(&program.functions)[0].return_type, Type::U64);
}

#[test]
fn resolve_should_type_integer_addition_modes_for_every_integer_type() {
    let mut source = String::new();
    for ty in [
        "i8", "i16", "i32", "i64", "i128", "isize", "u8", "u16", "u32", "u64", "u128", "usize",
    ] {
        source.push_str(&format!(
            "fn exercise_{ty}(value: {ty}) {{
                value.wrapping_add(1);
                value.checked_add(1);
                value.saturating_add(1);
            }}"
        ));
    }
    source.push_str("fn main() -> i32 { 0 }");

    let program = accepted(resolve_fixture(&source));

    assert_eq!(elements(&program.functions).len(), 13);
}

#[test]
fn resolve_should_reject_integer_addition_methods_on_other_types() {
    let diagnostics = rejected(resolve_fixture("fn main() -> i32 { true.checked_add(1); 0 }"));

    assert!(diagnostics.iter().any(|diagnostic| {
        diagnostic.code == "E6002" && diagnostic.message.contains("non-integer")
    }));
}

#[test]
fn resolve_should_reject_wrong_integer_addition_method_arity() {
    let diagnostics =
        rejected(resolve_fixture("fn main() -> i32 { let value: u8 = 1; value.wrapping_add(); 0 }"));

    assert!(diagnostics.iter().any(|diagnostic| {
        diagnostic.code == "E3105" && diagnostic.message.contains("wrapping_add")
    }));
}

#[test]
fn resolve_should_type_recoverable_slice_access() {
    let source = "
        fn read(values: &[i32], index: usize) -> Option<&i32> {
            values.get(index)
        }
        fn update(values: &mut [i32], index: usize) -> Option<&mut i32> {
            values.get_mut(index)
        }
        fn main() -> i32 {
            let mut values: [i32; 2] = [20, 22];
            {
                let slice: &mut [i32] = &mut values;
                match update(slice, 1) {
                    Some(value) => *value,
                    None => 0,
                };
            }
            let slice: &[i32] = &values;
            match read(slice, 0) {
                Some(value) => *value,
                None => 0,
            }
        }";

    accepted(resolve_fixture(source));
}

#[test]
fn resolve_should_reject_get_mut_on_an_immutable_slice() {
    let source = "
        fn invalid(values: &[i32]) -> Option<&mut i32> {
            values.get_mut(0)
        }
        fn main() -> i32 { 0 }";

    let diagnostics = rejected(resolve_fixture(source));

    assert!(diagnostics.iter().any(|diagnostic| {
        diagnostic.code == "E3107" && diagnostic.message.contains("mutable slice")
    }));
}

#[test]
fn resolve_should_reject_wrong_slice_access_arity() {
    let source = "
        fn invalid(values: &[i32]) {
            values.get();
        }
        fn main() -> i32 { 0 }";

    let diagnostics = rejected(resolve_fixture(source));

    assert!(diagnostics.iter().any(|diagnostic| {
        diagnostic.code == "E3105" && diagnostic.message.contains("slice method `get`")
    }));
}

#[test]
fn resolve_should_type_utf8_byte_views_and_character_iteration() {
    let source = "
        fn encoded(text: str) -> &[u8] {
            text.bytes()
        }
        fn main() -> i32 {
            let text: str = \"Aé🦀\";
            let bytes = encoded(text);
            let mut characters = text.chars();
            let first = match characters.next() {
                Some(value) => value,
                None => 'x',
            };
            let second = match characters.next() {
                Some(value) => value,
                None => 'x',
            };
            let mut count: usize = 0;
            for _ in text.chars() {
                count += 1;
            }
            if bytes[0] == 65 && first == 'A' && second == 'é' && count == 3 {
                42
            } else {
                0
            }
        }";

    accepted(resolve_fixture(source));
}

#[test]
fn resolve_should_require_a_mutable_character_iterator() {
    let source = "
        fn main() -> i32 {
            let text: str = \"A\";
            let characters = text.chars();
            characters.next();
            0
        }";

    let diagnostics = rejected(resolve_fixture(source));

    assert!(diagnostics.iter().any(|diagnostic| {
        diagnostic.code == "E3107" && diagnostic.message.contains("characters")
    }));
}

#[test]
fn resolve_should_reject_out_of_range_contextual_integer() {
    let diagnostics = rejected(resolve_fixture("fn main() -> i32 { let byte: u8 = 256; 0 }"));

    assert!(diagnostics.iter().any(|diagnostic| {
        diagnostic.code == "E3104" && diagnostic.message.contains("`u8`")
    }));
}

#[test]
fn resolve_should_reject_implicit_numeric_conversion() {
    let source = "fn main() -> i32 { let small: u8 = 1; let wide: u64 = small; 0 }";

    let diagnostics = rejected(resolve_fixture(source));

    assert!(
        diagnostics
            .iter()
            .any(|diagnostic| diagnostic.code == "E3103")
    );
}

#[test]
fn resolve_should_accept_explicit_float_to_integer_casts() {
    accepted(resolve_fixture(
        "fn main() -> i32 {
            let byte: u8 = 255.9 as u8;
            let signed: i32 = -1.9 as i32;
            byte as i32 + signed
        }",
    ));
}

#[test]
fn resolve_should_type_structs_tuples_arrays_fields_and_indices() {
    let source = "struct Pair { left: i32, right: i32 }
        fn sum(pair: Pair) -> i32 { pair.left + pair.right }
        fn main() -> i32 {
            let pair = Pair { right: 22, left: 20 };
            let values: [i32; 2] = [sum(pair), 0];
            let result: (i32, bool) = (values[0], true);
            result.0
        }";

    let program = accepted(resolve_fixture(source));

    assert_eq!(program.types.len(), 3);
}

#[test]
fn resolve_should_type_repeated_array_initializers() {
    let source = "fn filled<T: Copy, const N: usize>(value: T) -> [T; N] {
        [value; N]
    }
    fn main() -> i32 {
        let values: [i32; 4] = filled<i32, 4>(7);
        values[0] + values[3]
    }";

    let program = accepted(resolve_fixture(source));
    assert!(elements(&program.functions).iter().any(|function| {
        matches!(
            function
                .body
                .tail
                .as_ref()
                .map(|expression| &*expression.kind),
            Some(hir::ExpressionKind::ArrayRepeat { length: 4, .. })
        )
    }));
}

#[test]
fn resolve_should_require_copy_for_repeated_array_elements() {
    let source = "struct Owner { value: i32 }
        fn main() -> i32 {
            let values: [Owner; 2] = [Owner { value: 21 }; 2];
            values[0].value
        }";

    let diagnostics = rejected(resolve_fixture(source));

    assert!(
        diagnostics
            .iter()
            .any(|diagnostic| diagnostic.code == "E3164")
    );
}

#[test]
fn resolve_should_monomorphize_generic_structs_and_const_lengths() {
    let source = "
        struct Buffer<T, const N: usize> { values: [T; N] }
        fn main() -> i32 {
            let buffer: Buffer<i32, 2> = Buffer { values: [20, 22] };
            buffer.values[0] + buffer.values[1]
        }";

    let program = accepted(resolve_fixture(source));

    assert!(program.types.iter().any(|definition| {
        shown(&definition.name) == "Buffer<i32, 2>"
    }));
}

#[test]
fn resolve_should_monomorphize_generic_functions_by_inference() {
    let source = "
        fn identity<T>(value: T) -> T { value }
        fn first<T, const N: usize>(values: [T; N]) -> T { values[0] }
        fn main() -> i32 { identity(first([42, 7])) }
    ";

    let program = accepted(resolve_fixture(source));

    assert_eq!(elements(&program.functions).len(), 3);
    assert!(
        elements(&program.functions).iter()
            .filter(|function| show(&function.name).contains("$instance$"))
            .count()
            == 2
    );
}

#[test]
fn resolve_should_expand_variadic_type_packs_and_mapped_tuple_types() {
    let source = "
        struct Slot<T> { value: T }
        struct Registry<...Types> { slots: (...Types => Slot<Types>) }
        fn forward<...Types>(values: (...Types)) -> (...Types) { values }
        fn main() -> i32 {
            let registry: Registry<i32, bool> = Registry {
                slots: (Slot { value: 42 }, Slot { value: true }),
            };
            let values: (i32, bool) = forward((registry.slots.0.value, true));
            values.0
        }
    ";

    let program = accepted(resolve_fixture(source));

    assert!(program.types.iter().any(|definition| {
        shown(&definition.name) == "Registry<i32, bool>"
    }));
}

#[test]
fn resolve_should_expand_variadic_value_templates() {
    let source = "
        struct Marker<T> { value: i32 }
        fn make_marker<T>() -> Marker<T> { Marker { value: 21 } }
        fn markers<...Types>() -> (...Types => Marker<Types>) {
            (...Types => make_marker<Types>(),)
        }
        fn main() -> i32 {
            let values: (Marker<i32>, Marker<bool>) = markers<i32, bool>();
            values.0.value + values.1.value
        }
    ";

    accepted(resolve_fixture(source));
}

#[test]
fn resolve_should_reject_non_final_type_packs() {
    let diagnostics = rejected(resolve_fixture(
        "struct Invalid<...Types, Tail> { value: Tail }
         fn main() -> i32 { 0 }",
    ));

    assert!(diagnostics.iter().any(|diagnostic| {
        diagnostic.code == "E6020" && diagnostic.message.contains("final")
    }));
}

#[test]
fn resolve_should_reject_ambiguous_type_addressable_tuples() {
    let diagnostics = rejected(resolve_fixture(
        "fn main() -> i32 {
             let values: (i32, i32) = (20, 22);
             values.assert_unique_types();
             0
         }",
    ));

    assert!(diagnostics.iter().any(|diagnostic| {
        diagnostic.code == "E6022" && diagnostic.message.contains("more than once")
    }));
}

#[test]
fn resolve_should_monomorphize_generic_inherent_methods() {
    let source = "
        struct Holder<T> { value: T }
        impl<T> Holder<T> {
            fn new(value: T) -> Holder<T> { Holder { value: value } }
            fn get(&self) -> T { self.value }
        }
        fn main() -> i32 {
            let holder: Holder<i32> = Holder::new(42);
            holder.get()
        }
    ";

    let program = accepted(resolve_fixture(source));

    assert_eq!(elements(&program.functions).len(), 3);
    assert!(
        elements(&program.functions).iter()
            .any(|function| show(&function.name).starts_with("Holder::get$instance$"))
    );
}

#[test]
fn resolve_should_validate_trait_bounds_and_dispatch_statically() {
    let source = "
        trait Measure {
            fn measure(&self) -> i32;
        }
        struct Counter { value: i32 }
        impl Measure for Counter {
            fn measure(&self) -> i32 { self.value }
        }
        fn read<T: Measure>(value: T) -> i32 { value.measure() }
        fn main() -> i32 { read(Counter { value: 42 }) }
    ";

    let program = accepted(resolve_fixture(source));

    assert_eq!(elements(&program.functions).len(), 3);
    assert!(
        elements(&program.functions).iter()
            .any(|function| show(&function.name).starts_with("read$instance$"))
    );
}

#[test]
fn resolve_should_find_generic_methods_through_borrowed_receivers() {
    let source = "
        struct Holder<T> { value: T }
        impl<T> Holder<T> {
            fn new(value: T) -> Holder<T> { Holder { value: value } }
            fn get(&self) -> T { self.value }
            fn set(&mut self, value: T) { self.value = value; }
        }
        fn read(holder: &Holder<i32>) -> i32 { holder.get() }
        fn update(holder: &mut Holder<i32>) {
            let previous = holder.get();
            holder.set(previous + 1);
        }
        fn main() -> i32 {
            let mut holder: Holder<i32> = Holder::new(41);
            update(&mut holder);
            read(&holder)
        }
    ";

    let program = accepted(resolve_fixture(source));

    assert!(
        elements(&program.functions).iter()
            .any(|function| show(&function.name).starts_with("Holder::get$instance$"))
    );
}

#[test]
fn resolve_should_accept_library_defined_marker_derives() {
    let source = "
        trait Component: Copy + Send + Sync {}
        @derive(Copy, Component)
        struct Position { x: f32, y: f32 }
        fn require_component<T: Component>(value: T) -> T { value }
        fn main() -> i32 {
            let position = Position { x: 10.0, y: 20.0 };
            let checked = require_component(position);
            if position.x == checked.x { 42 } else { 0 }
        }
    ";

    let program = accepted(resolve_fixture(source));
    let position = program
        .types
        .iter()
        .find(|definition| shown(&definition.name) == "Position")
        .expect("fixture should define Position");

    assert_eq!(elements(&position.marker_traits), [&"Component"]);
}

#[test]
fn resolve_should_derive_pod_for_padding_free_c_structs() {
    let source = "
        @repr(C)
        @derive(Pod)
        struct Vertex { x: f32, y: f32 }
        fn require_pod<T: Pod>(value: T) -> T { value }
        fn main() -> i32 {
            let vertex = require_pod(Vertex { x: 20.0, y: 22.0 });
            if vertex.x == 20.0 && vertex.y == 22.0 { 0 } else { 1 }
        }
    ";

    let program = accepted(resolve_with_layout(source, pair_layout()));
    let vertex = program
        .types
        .iter()
        .find(|definition| shown(&definition.name) == "Vertex")
        .expect("fixture should define Vertex");

    assert!(elements(&vertex.derives).contains(&&hir::DerivedTrait::Pod));
    assert!(elements(&vertex.derives).contains(&&hir::DerivedTrait::Copy));
}

#[test]
fn resolve_should_reject_pod_when_layout_contains_padding() {
    let source = "
        @repr(C)
        @derive(Pod)
        struct Padded { small: u8, wide: u32 }
        fn main() -> i32 { 0 }
    ";

    let diagnostics = rejected(resolve_with_layout(source, pair_layout()));

    assert!(diagnostics.iter().any(|diagnostic| {
        diagnostic.code == "E7006" && diagnostic.message.contains("Pod")
    }));
}

#[test]
fn resolve_should_reject_unknown_marker_derives() {
    let source = "
        @derive(Missing)
        struct Position { x: f32 }
        fn main() -> i32 { 42 }
    ";

    let diagnostics = rejected(resolve_fixture(source));

    assert!(diagnostics.iter().any(|diagnostic| {
        diagnostic.code == "E7004" && diagnostic.message.contains("unknown derive `Missing`")
    }));
}

#[test]
fn resolve_should_reject_deriving_traits_with_methods() {
    let source = "
        trait Component { fn id(&self) -> u64; }
        @derive(Component)
        struct Position { x: f32 }
        fn main() -> i32 { 42 }
    ";

    let diagnostics =
        rejected(resolve_fixture(source));

    assert!(diagnostics.iter().any(|diagnostic| {
        diagnostic.code == "E7004"
            && diagnostic
                .message
                .contains("`Component` is not a marker trait")
    }));
}

#[test]
fn resolve_should_validate_marker_derive_supertraits() {
    let source = "
        trait Component: Copy {}
        @derive(Component)
        struct Position { x: f32 }
        fn main() -> i32 { 42 }
    ";

    let diagnostics =
        rejected(resolve_fixture(source));

    assert!(diagnostics.iter().any(|diagnostic| {
        diagnostic.code == "E7006"
            && diagnostic
                .message
                .contains("cannot derive `Component` for `Position`")
    }));
}

#[test]
fn resolve_should_reject_unsatisfied_trait_bound() {
    let source = "
        trait Measure { fn measure(&self) -> i32; }
        fn read<T: Measure>(value: T) -> i32 { 42 }
        fn main() -> i32 { read(true) }
    ";

    let diagnostics = rejected(resolve_fixture(source));

    assert!(diagnostics.iter().any(|diagnostic| {
        diagnostic.code == "E6014"
            && diagnostic.message.contains("does not satisfy trait bound")
    }));
}

#[test]
fn resolve_should_apply_explicit_copy_marker_to_move_analysis() {
    let source = "
        struct Pair { left: i32, right: i32 }
        impl Copy for Pair {}
        fn duplicate<T: Copy>(value: T) -> T {
            let other = value;
            value
        }
        fn main() -> i32 {
            let pair = duplicate(Pair { left: 42, right: 7 });
            pair.left
        }
    ";

    let program = accepted(resolve_fixture(source));

    assert_eq!(elements(&program.functions).len(), 2);
}

#[test]
fn resolve_should_reject_trait_method_return_mismatch() {
    let source = "
        trait Measure { fn measure(&self) -> bool; }
        struct Counter { value: i32 }
        impl Measure for Counter {
            fn measure(&self) -> i32 { self.value }
        }
        fn main() -> i32 { 42 }
    ";

    let diagnostics = rejected(resolve_fixture(source));

    assert!(diagnostics.iter().any(|diagnostic| {
        diagnostic.code == "E6013" && diagnostic.message.contains("return type")
    }));
}

#[test]
fn resolve_should_type_all_enum_variant_forms() {
    let source = "enum Value {
            Empty,
            Number(i32),
            Named { value: i32 },
        }
        fn make_number() -> Value { Value::Number(42) }
        fn main() -> i32 {
            let empty = Value::Empty;
            let number = make_number();
            let named = Value::Named { value: 42 };
            42
        }";

    let program = accepted(resolve_fixture(source));

    assert!(matches!(elements(&program.functions)[0].return_type, Type::Enum(_)));
}

#[test]
fn resolve_should_report_missing_and_unknown_struct_fields() {
    let source = "struct Pair { left: i32, right: i32 } fn main() -> i32 {
            let pair = Pair { left: 20, other: 22 };
            0
        }";

    let diagnostics = rejected(resolve_fixture(source));

    assert!(
        diagnostics
            .iter()
            .any(|diagnostic| { matches!(diagnostic.code, "E3121" | "E3122") })
    );
}

#[test]
fn resolve_should_accept_mutable_fields_and_array_elements() {
    let source = "struct Pair { left: i32, right: i32 }
        fn main() -> i32 {
            let mut pair = Pair { left: 18, right: 0 };
            let mut values: [i32; 2] = [11, 0];
            pair.left += 2;
            values[0] *= 2;
            pair.right = values[0];
            pair.left + pair.right
        }";

    accepted(resolve_fixture(source));
}

#[test]
fn resolve_should_reject_field_assignment_through_immutable_binding() {
    let source = "struct Pair { left: i32, right: i32 }
        fn main() -> i32 {
            let pair = Pair { left: 20, right: 22 };
            pair.left = 0;
            pair.left + pair.right
        }";

    let diagnostics = rejected(resolve_fixture(source));

    assert!(
        diagnostics
            .iter()
            .any(|diagnostic| diagnostic.code == "E3107")
    );
}

#[test]
fn resolve_should_reject_recursive_types_stored_by_value() {
    let source = "struct First { next: Second }
        struct Second { next: First }
        fn main() -> i32 { 0 }";

    let diagnostics = rejected(resolve_fixture(source));

    assert!(
        diagnostics
            .iter()
            .any(|diagnostic| diagnostic.code == "E3012")
    );
}

#[test]
fn resolve_should_type_match_loop_for_and_pattern_bindings() {
    let source = "enum Value { Empty, Pair(i32, i32) }
        fn main() -> i32 {
            let values: [i32; 2] = [20, 22];
            let mut sum = 0;
            for value in values { sum += value; }
            let selected = Value::Pair(sum, 0);
            let result = match selected {
                Value::Empty => 0,
                Value::Pair(left, right) if right != 0 => left + right,
                Value::Pair(left, _) => left,
            };
            loop { break result; }
        }";

    let program = accepted(resolve_fixture(source));

    assert_eq!(elements(&program.functions)[0].body.ty, Type::I32);
}

#[test]
fn resolve_should_require_exhaustive_matches() {
    let source = "enum Value { Empty, Number(i32) }
        fn main() -> i32 {
            match Value::Empty {
                Value::Empty => 42,
            }
        }";

    let diagnostics = rejected(resolve_fixture(source));

    assert!(
        diagnostics
            .iter()
            .any(|diagnostic| diagnostic.code == "E3133")
    );
}

#[test]
fn resolve_should_reject_refutable_for_patterns() {
    let source = "fn main() -> i32 {
        for 1 in [1, 2] { }
        42
    }";

    let diagnostics = rejected(resolve_fixture(source));

    assert!(
        diagnostics
            .iter()
            .any(|diagnostic| diagnostic.code == "E3131")
    );
}

#[test]
fn resolve_should_type_references_slices_str_and_raw_pointers() {
    let source = "fn adjust(value: &mut i32) { *value += 2; }
        fn sum(values: &[i32]) -> i32 {
            let mut total = 0;
            for value in values { total += value; }
            total
        }
        fn title_code(title: str) -> i32 { 0 }
        fn main() -> i32 {
            let mut value = 18;
            adjust(&mut value);
            let values: [i32; 2] = [value, 22];
            let view: &[i32] = &values;
            let raw: *mut i32 = &mut value as *mut i32;
            unsafe { *raw -= 2; }
            sum(view) + title_code(\"Reimer\")
        }";

    accepted(resolve_fixture(source));
}

#[test]
fn resolve_should_reject_raw_dereference_outside_unsafe() {
    let source = "fn main() -> i32 {
        let mut value = 42;
        let raw: *mut i32 = &mut value as *mut i32;
        *raw
    }";

    let diagnostics = rejected(resolve_fixture(source));

    assert!(
        diagnostics
            .iter()
            .any(|diagnostic| diagnostic.code == "E3136")
    );
}

#[test]
fn resolve_should_reject_escaping_local_references() {
    let source = "fn invalid() -> &i32 {
            let value = 42;
            &value
        }
        fn main() -> i32 { 42 }";

    let diagnostics = rejected(resolve_fixture(source));

    assert!(
        diagnostics
            .iter()
            .any(|diagnostic| diagnostic.code == "E3137")
    );
}

#[test]
fn resolve_should_track_scoped_aggregate_lifetimes() {
    let source = "
        struct View { data: &i32 }
        fn view(value: &i32) -> View { View { data: value } }
        fn main() -> i32 {
            let value = 42;
            let borrowed = view(&value);
            *borrowed.data
        }";

    accepted(resolve_fixture(source));
}

#[test]
fn resolve_should_keep_scoped_roots_through_match_payload_bindings() {
    let source = "
        fn selected(value: &i32) -> Option<&i32> {
            match Some(value) {
                Some(item) => Some(item),
                None => None,
            }
        }
        fn main() -> i32 {
            let value = 42;
            match selected(&value) {
                Some(item) => *item,
                None => 0,
            }
        }";

    accepted(resolve_fixture(source));
}

#[test]
fn resolve_should_track_scoped_returns_through_locals() {
    let source = "
        struct View { data: &i32 }
        struct Wrapper { view: View }
        fn view(value: &i32) -> View { View { data: value } }
        fn wrap(value: &i32) -> Wrapper {
            let borrowed = view(value);
            Wrapper { view: borrowed }
        }
        fn main() -> i32 {
            let value = 42;
            let wrapped = wrap(&value);
            *wrapped.view.data
        }";

    accepted(resolve_fixture(source));
}

#[test]
fn resolve_should_allow_chained_by_value_methods_on_temporaries() {
    let source = "
        struct Builder { value: i32 }
        impl Builder {
            fn new() -> Builder { Builder { value: 0 } }
            fn with_value(self, value: i32) -> Builder {
                Builder { value: value }
            }
        }
        fn main() -> i32 {
            Builder::new().with_value(42).value
        }";

    accepted(resolve_fixture(source));
}

#[test]
fn resolve_should_reject_local_scoped_returns_through_locals() {
    let source = "
        struct View { data: &i32 }
        fn view(value: &i32) -> View { View { data: value } }
        fn invalid() -> View {
            let value = 42;
            let borrowed = view(&value);
            borrowed
        }
        fn main() -> i32 { 42 }";

    let diagnostics = rejected(resolve_fixture(source));

    assert!(
        diagnostics
            .iter()
            .any(|diagnostic| diagnostic.code == "E3137")
    );
}

#[test]
fn resolve_should_reject_scoped_aggregate_escape() {
    let source = "
        struct View { data: &i32 }
        fn invalid() -> View {
            let value = 42;
            View { data: &value }
        }
        fn main() -> i32 { 42 }";

    let diagnostics = rejected(resolve_fixture(source));

    assert!(
        diagnostics
            .iter()
            .any(|diagnostic| diagnostic.code == "E3137")
    );
}

#[test]
fn resolve_should_keep_owner_borrowed_by_scoped_aggregate() {
    let source = "
        struct View { data: &i32 }
        fn main() -> i32 {
            let mut value = 42;
            let borrowed = View { data: &value };
            value = 0;
            *borrowed.data
        }";

    let diagnostics = rejected(resolve_fixture(source));

    assert!(
        diagnostics
            .iter()
            .any(|diagnostic| diagnostic.code == "E3107" || diagnostic.code == "E3138")
    );
}

#[test]
fn resolve_should_reject_scoped_values_hidden_by_raw_generic_storage() {
    let source = "
        struct View { data: &i32 }
        struct RawOwner<T> { data: *mut T }
        fn consume(value: RawOwner<View>) {}
        fn main() -> i32 { 42 }";

    let diagnostics = rejected(resolve_fixture(source));

    assert!(
        diagnostics
            .iter()
            .any(|diagnostic| diagnostic.code == "E3013")
    );
}

#[test]
fn resolve_should_keep_method_owner_live_for_returned_view() {
    let source = "
        struct Owner { value: i32 }
        struct View { data: &i32 }
        impl Owner {
            fn view(&self) -> View { View { data: &self.value } }
            fn deinit(self) {}
        }
        fn main() -> i32 {
            let owner = Owner { value: 42 };
            let borrowed = owner.view();
            owner.deinit();
            *borrowed.data
        }";

    let diagnostics = rejected(resolve_fixture(source));

    assert!(
        diagnostics
            .iter()
            .any(|diagnostic| diagnostic.code == "E3138")
    );
}

#[test]
fn resolve_should_reject_conflicting_scoped_borrows() {
    let source = "fn main() -> i32 {
        let mut value = 42;
        let shared = &value;
        let exclusive = &mut value;
        *shared
    }";

    let diagnostics = rejected(resolve_fixture(source));

    assert!(
        diagnostics
            .iter()
            .any(|diagnostic| diagnostic.code == "E3138")
    );
}

#[test]
fn resolve_should_type_option_result_and_try() {
    let source = "fn maybe(flag: bool) -> Option<i32> {
            if flag { Some(42) } else { None }
        }
        fn forward(flag: bool) -> Option<i32> {
            let value = maybe(flag)?;
            Some(value)
        }
        fn fallible(flag: bool) -> Result<Option<i32>, i32> {
            if flag { Ok(Some(42)) } else { Err(7) }
        }
        fn main() -> i32 {
            match forward(true) {
                Some(value) => value,
                None => 0,
            }
        }";

    let program = accepted(resolve_fixture(source));

    assert_eq!(elements(&program.functions).len(), 4);
    assert!(matches!(elements(&program.functions)[0].return_type, Type::Enum(_)));
}

#[test]
fn resolve_should_reject_invalid_try_contexts() {
    let source = "fn not_fallible() -> i32 { 42? }
        fn mismatched(value: Option<i32>) -> Result<i32, i32> {
            value?
        }
        fn main() -> i32 { 42 }";

    let diagnostics = rejected(resolve_fixture(source));

    assert!(
        diagnostics
            .iter()
            .filter(|diagnostic| diagnostic.code == "E3140")
            .count()
            >= 2
    );
}

#[test]
fn resolve_should_type_defer_and_panic() {
    let source = "fn record(value: &mut i32, digit: i32) {
            *value = *value * 10 + digit;
        }
        fn cleanup(value: &mut i32, flag: bool) -> Option<i32> {
            defer record(value, 1);
            if flag { Some(42) } else { None?; Some(0) }
        }
        fn choose(flag: bool) -> i32 {
            if flag { 42 } else { panic(\"unreachable\") }
        }
        fn main() -> i32 { choose(true) }";

    accepted(resolve_fixture(source));
}

#[test]
fn resolve_should_type_runtime_and_debug_assertions() {
    let source = "fn main() -> i32 {
            assert(true);
            assert(20 + 22 == 42, \"arithmetic invariant failed\");
            debug_assert(true, \"debug invariant failed\");
            42
        }";

    let program = accepted(resolve_fixture(source));

    assert!(matches!(
        elements(&elements(&program.functions)[0].body.statements)[0],
        hir::Statement::Expression(expression) if matches!(
            &*expression.kind,
            hir::ExpressionKind::Assert { mode: hir::AssertionMode::Always, .. }
        )
    ));
    assert!(matches!(
        elements(&elements(&program.functions)[0].body.statements)[2],
        hir::Statement::Expression(expression) if matches!(
            &*expression.kind,
            hir::ExpressionKind::Assert { mode: hir::AssertionMode::Debug, .. }
        )
    ));
}

#[test]
fn resolve_should_reject_invalid_assertion_arguments() {
    let source = "fn main() -> i32 {
            assert();
            assert(42, \"not a boolean\");
            debug_assert(true, 42);
            0
        }";

    let diagnostics = rejected(resolve_fixture(source));

    assert!(diagnostics.iter().any(|diagnostic| {
        diagnostic.code == "E6004" && diagnostic.message.contains("optional message")
    }));
    assert!(
        diagnostics
            .iter()
            .any(|diagnostic| diagnostic.message.contains("assertion condition"))
    );
    assert!(
        diagnostics
            .iter()
            .any(|diagnostic| diagnostic.message.contains("assertion message"))
    );
}

#[test]
fn resolve_should_allow_borrowing_a_resource_after_registering_its_cleanup() {
    let source = "
        struct Resource { value: i32 }
        fn destroy(resource: Resource) {}
        fn inspect(resource: &Resource) -> i32 { (*resource).value }
        fn main() -> i32 {
            let resource = Resource { value: 42 };
            defer destroy(resource);
            inspect(&resource)
        }";

    let result = resolve_fixture(source);

    assert!(
        result.is_ok(),
        "deferred cleanup should reserve rather than move"
    );
}

#[test]
fn resolve_should_reject_moving_a_resource_reserved_for_cleanup() {
    let source = "
        struct Resource { value: i32 }
        fn destroy(resource: Resource) {}
        fn main() -> i32 {
            let resource = Resource { value: 42 };
            defer destroy(resource);
            let moved = resource;
            moved.value
        }";

    let diagnostics = rejected(resolve_fixture(source));

    assert!(
        diagnostics
            .iter()
            .any(|diagnostic| diagnostic.code == "E3147")
    );
}

#[test]
fn resolve_should_reject_two_deferred_consumers_of_one_resource() {
    let source = "
        struct Resource { value: i32 }
        fn destroy(resource: Resource) {}
        fn main() -> i32 {
            let resource = Resource { value: 42 };
            defer destroy(resource);
            defer destroy(resource);
            42
        }";

    let diagnostics = rejected(resolve_fixture(source));

    assert!(
        diagnostics
            .iter()
            .any(|diagnostic| diagnostic.code == "E3147")
    );
}

#[test]
fn resolve_should_keep_string_view_intrinsics_private_to_standard_wrappers() {
    let source = r#"
        fn main() -> i32 {
            __string_length("private") as i32
        }"#;

    let diagnostics = rejected(resolve_fixture(source));

    assert!(
        diagnostics
            .iter()
            .any(|diagnostic| diagnostic.code == "E3148")
    );
}

#[test]
fn resolve_should_register_c_abi_function_declarations() {
    let source = "
        extern \"C\" fn native_abs(value: i32) -> i32;
        fn main() -> i32 { unsafe { native_abs(-42) } }";

    let program = accepted(resolve_fixture(source));

    assert_eq!(elements(&program.foreign_functions).len(), 1);
}

#[test]
fn resolve_should_allow_type_aliases_to_reference_later_aliases() {
    let source = "
        pub type TaskKind = NativeInt;
        @repr(C) pub struct Task { pub kind: TaskKind }
        pub type NativeInt = c_int;
        fn main() -> i32 { 42 }";

    let program = accepted(resolve_fixture(source));
    let task = program
        .types
        .iter()
        .find(|definition| shown(&definition.name) == "Task")
        .expect("task type should exist");
    let hir::TypeDefinitionKind::Struct { fields } = &task.kind else {
        panic!("task should remain a struct");
    };
    assert_eq!(elements(fields)[0].ty, Type::I32);
}

#[test]
fn resolve_should_erase_target_correct_c_type_aliases() {
    let source = r#"
        pub type CInt = c_int;
        pub type CLong = c_long;
        extern "C" fn inspect(value: CInt, offset: CLong) -> CInt;
        fn main() -> i32 { 42 }
    "#;

    for (long_is_narrow, expected_long) in [(true, Type::I32), (false, Type::I64)] {
        let syntax = parse(source);
        let program = accepted(resolve(
            &syntax,
            Platform { char_is_unsigned: false, long_is_narrow },
            List::Nil,
            &evaluation(&syntax, &[]),
        ));
        let function = elements(&program.foreign_functions)[0];

        assert_eq!(elements(&function.parameters)[0].ty, Type::I32);
        assert_eq!(elements(&function.parameters)[1].ty, expected_long);
        assert_eq!(function.return_type, Type::I32);
    }
}

#[test]
fn resolve_should_type_c_string_literals_for_ffi_calls() {
    let source = r#"
        extern "C" fn string_length(value: cstr) -> usize;
        fn main() -> i32 {
            unsafe { string_length(c"Reimer") as i32 }
        }"#;

    let program = accepted(resolve_fixture(source));

    assert_eq!(elements(&program.functions)[0].body.ty, Type::I32);
}

#[test]
fn resolve_should_reject_escaping_c_string_literals() {
    let source = r#"fn title() -> cstr { c"temporary" } fn main() -> i32 { 42 }"#;

    let diagnostics = rejected(resolve_fixture(source));

    assert!(
        diagnostics
            .iter()
            .any(|diagnostic| diagnostic.code == "E3137")
    );
}

#[test]
fn resolve_should_require_unsafe_for_native_calls() {
    let source = "
        extern \"C\" fn native_abs(value: i32) -> i32;
        fn main() -> i32 { native_abs(-42) }";

    let diagnostics = rejected(resolve_fixture(source));

    assert!(
        diagnostics
            .iter()
            .any(|diagnostic| diagnostic.code == "E5002")
    );
}

#[test]
fn resolve_should_reject_non_abi_safe_external_parameters() {
    let source = "
        extern \"C\" fn native_log(value: str);
        fn main() -> i32 { 42 }";

    let diagnostics = rejected(resolve_fixture(source));

    assert!(
        diagnostics
            .iter()
            .any(|diagnostic| diagnostic.code == "E5001")
    );
}

#[test]
fn resolve_should_accept_abi_safe_c_structs_by_value() {
    let source = "
        @repr(C)
        struct Identifier { bytes: [u8; 16] }
        @repr(C)
        struct Request { identifier: Identifier, count: u32 }
        extern \"C\" {
            fn native_read(request: Request) -> Identifier;
        }
        fn main() -> i32 {
            let request = Request {
                identifier: Identifier {
                    bytes: [0, 0, 0, 0, 0, 0, 0, 0, 0, 0, 0, 0, 0, 0, 0, 0],
                },
                count: 1,
            };
            let identifier = unsafe { native_read(request) };
            identifier.bytes[0] as i32
        }";

    accepted(resolve_fixture(source));
}

#[test]
fn resolve_should_reject_native_structs_by_value_at_ffi_boundaries() {
    let source = "
        struct Native { value: i32 }
        extern \"C\" fn native_read(value: Native) -> Native;
        fn main() -> i32 { 42 }";

    let diagnostics = rejected(resolve_fixture(source));

    assert_eq!(
        diagnostics
            .iter()
            .filter(|diagnostic| diagnostic.code == "E5001")
            .count(),
        2
    );
}

#[test]
fn resolve_should_accept_abi_safe_callbacks_in_external_signatures() {
    let source = "
        extern \"C\" fn native_apply(
            callback: fn(i32) -> i32,
            value: i32,
        ) -> i32;
        fn increment(value: i32) -> i32 { value + 1 }
        fn main() -> i32 {
            unsafe { native_apply(increment, 41) }
        }";

    accepted(resolve_fixture(source));
}

#[test]
fn resolve_should_reject_non_abi_safe_callback_parameters() {
    let source = "
        extern \"C\" fn install(callback: fn(str) -> ());
        fn main() -> i32 { 42 }";

    let diagnostics = rejected(resolve_fixture(source));

    assert!(
        diagnostics
            .iter()
            .any(|diagnostic| diagnostic.code == "E5001")
    );
}

#[test]
fn resolve_should_require_unsafe_for_address_to_function_casts() {
    let source = "
        fn main() -> i32 {
            let address = 1 as usize;
            let callback = address as fn(i32) -> i32;
            callback(41)
        }";

    let diagnostics = rejected(resolve_fixture(source));

    assert!(
        diagnostics
            .iter()
            .any(|diagnostic| diagnostic.code == "E5002")
    );
}

#[test]
fn resolve_should_accept_unsafe_loaded_function_casts() {
    let source = "
        extern \"C\" fn load(name: cstr) -> fn() -> ();
        fn main() -> i32 {
            let loaded = unsafe { load(c\"increment\") };
            let callback = unsafe { loaded as fn(i32) -> i32 };
            callback(41)
        }";

    accepted(resolve_fixture(source));
}

#[test]
fn resolve_should_accept_unsafe_raw_pointer_to_function_casts() {
    let source = "
        type Callback = fn(i32) -> i32;
        fn load(address: *const u8) -> Callback {
            unsafe { address as Callback }
        }
        fn main() -> i32 { 42 }";

    accepted(resolve_fixture(source));
}

#[test]
fn scoped_return_should_follow_owner_through_raw_pointer_casts() {
    let source = "
        struct Text { data: *const c_char }
        impl Text {
            fn as_cstr(&self) -> cstr { self.data as cstr }
        }
        extern \"C\" fn native_title(owner: *const u8) -> *const c_char;
        struct Window { raw: *const u8 }
        impl Window {
            fn title(&self) -> cstr {
                unsafe { native_title(self.raw) } as cstr
            }
        }
        fn main() -> i32 { 42 }";

    accepted(resolve_fixture(source));
}

#[test]
fn invalid_cast_diagnostic_should_render_structural_type_names() {
    let source = "
        fn main() -> i32 {
            let callback = unsafe { true as fn(i32) -> i32 };
            callback(41)
        }";

    let diagnostics = rejected(resolve_fixture(source));
    let diagnostic = diagnostics
        .iter()
        .find(|diagnostic| diagnostic.code == "E3113")
        .expect("invalid cast diagnostic should be emitted");

    assert_eq!(diagnostic.message, "cannot cast `bool` to `fn(i32) -> i32`");
}

#[test]
fn resolve_should_preserve_ffi_layout_and_link_metadata() {
    let source = "
        @repr(C)
        pub struct Vector2 { pub x: f32, pub y: f32 }
        @link(\"raylib\")
        extern \"C\" {
            fn draw(value: *const Vector2, title: cstr) -> bool;
        }
        fn main() -> i32 { 42 }";

    let program = accepted(resolve_fixture(source));

    assert_eq!(
        program.types[0].representation,
        hir::TypeRepresentation::C
    );
    assert_eq!(elements(&program.foreign_functions)[0].link, Some("raylib"));
}

#[test]
fn resolve_should_reject_pointers_to_native_layout_structs_at_ffi_boundary() {
    let source = "
        struct Vector2 { x: f32, y: f32 }
        extern \"C\" fn draw(value: *const Vector2);
        fn main() -> i32 { 42 }";

    let diagnostics = rejected(resolve_fixture(source));

    assert!(
        diagnostics
            .iter()
            .any(|diagnostic| diagnostic.code == "E5001")
    );
}

#[test]
fn resolve_should_reject_control_transfer_from_defer() {
    let source = "fn invalid() -> Option<i32> {
            defer { return Some(0); }
            defer None?;
            Some(42)
        }
        fn main() -> i32 { 42 }";

    let diagnostics = rejected(resolve_fixture(source));

    assert!(
        diagnostics
            .iter()
            .filter(|diagnostic| diagnostic.code == "E3142")
            .count()
            >= 2
    );
}

#[test]
fn resolve_should_reject_use_after_implicit_move() {
    let source = "struct Resource { id: i32 }
        fn consume(resource: Resource) -> i32 { resource.id }
        fn main() -> i32 {
            let first = Resource { id: 20 };
            let second = first;
            let invalid = consume(first);
            consume(second)
        }";

    let diagnostics = rejected(resolve_fixture(source));

    assert!(
        diagnostics
            .iter()
            .any(|diagnostic| diagnostic.code == "E3143")
    );
}

#[test]
fn resolve_should_track_moves_of_independent_struct_fields() {
    let source = "struct Resource { id: i32 }
        struct Pair { first: Resource, second: Resource }
        fn consume(resource: Resource) -> i32 { resource.id }
        fn main() -> i32 {
            let pair = Pair {
                first: Resource { id: 20 },
                second: Resource { id: 22 },
            };
            let first = pair.first;
            consume(pair.second) + consume(first)
        }";

    accepted(resolve_fixture(source));
}

#[test]
fn resolve_should_reject_reusing_a_moved_struct_field() {
    let source = "struct Resource { id: i32 }
        struct Pair { first: Resource, second: Resource }
        fn consume(resource: Resource) -> i32 { resource.id }
        fn main() -> i32 {
            let pair = Pair {
                first: Resource { id: 20 },
                second: Resource { id: 22 },
            };
            let first = pair.first;
            consume(pair.first) + consume(first)
        }";

    let diagnostics = rejected(resolve_fixture(source));

    assert!(
        diagnostics
            .iter()
            .any(|diagnostic| diagnostic.code == "E3143")
    );
}

#[test]
fn resolve_should_allow_reinitializing_a_moved_struct_field() {
    let source = "struct Resource { id: i32 }
        struct Pair { first: Resource, second: Resource }
        fn consume(resource: Resource) -> i32 { resource.id }
        fn main() -> i32 {
            let mut pair = Pair {
                first: Resource { id: 20 },
                second: Resource { id: 22 },
            };
            let first = pair.first;
            pair.first = Resource { id: 21 };
            consume(pair.first) + consume(pair.second) + consume(first)
        }";

    accepted(resolve_fixture(source));
}

#[test]
fn resolve_should_allow_copy_reuse_reinitialization_and_mutable_reborrows() {
    let source = "struct Resource { id: i32 }
        fn consume(resource: Resource) -> i32 { resource.id }
        fn increment(value: &mut i32) { *value += 1; }
        fn main() -> i32 {
            let mut resource = Resource { id: 19 };
            let moved = resource;
            resource = Resource { id: 21 };
            let tuple = (20, 22);
            let tuple_copy = tuple;
            let mut scalar = 18;
            let view = &mut scalar;
            increment(view);
            increment(view);
            consume(moved) + consume(resource) + tuple.0 + tuple_copy.1
        }";

    accepted(resolve_fixture(source));
}

#[test]
fn resolve_should_automatically_reborrow_mutable_method_receivers() {
    let source = "
        struct Counter { value: i32 }
        impl Counter {
            fn increment(&mut self) { self.value += 1; }
        }
        fn increment_twice(counter: &mut Counter) {
            counter.increment();
            counter.increment();
        }
        fn main() -> i32 {
            let mut counter = Counter { value: 40 };
            increment_twice(&mut counter);
            counter.value
        }";

    accepted(resolve_fixture(source));
}

#[test]
fn resolve_should_immutably_reborrow_mutable_method_receivers() {
    let source = "
        struct Counter { value: i32 }
        impl Counter {
            fn read(&self) -> i32 { self.value }
            fn increment(&mut self) { self.value += self.read(); }
        }
        fn read_then_increment(counter: &mut Counter) -> i32 {
            let previous = counter.read();
            counter.increment();
            previous + counter.read()
        }
        fn main() -> i32 {
            let mut counter = Counter { value: 14 };
            read_then_increment(&mut counter)
        }";

    accepted(resolve_fixture(source));
}

#[test]
fn resolve_should_keep_raw_string_construction_private() {
    let source = "fn invalid() -> str {
            __str_from_parts(0 as *const u8, 0)
        }
        fn main() -> i32 { 42 }";

    let diagnostics = rejected(resolve_fixture(source));

    assert!(
        diagnostics
            .iter()
            .any(|diagnostic| diagnostic.code == "E3149")
    );
}

#[test]
fn resolve_should_keep_native_element_stride_private() {
    let source = "fn invalid() -> usize {
            __pointee_stride(0 as usize as *const i32)
        }
        fn main() -> i32 { 42 }";

    let diagnostics = rejected(resolve_fixture(source));

    assert!(
        diagnostics
            .iter()
            .any(|diagnostic| diagnostic.code == "E3150")
    );
}

#[test]
fn resolve_should_keep_structural_hashing_private() {
    let source = "fn invalid() -> u64 {
            __hash_value(42, 7)
        }
        fn main() -> i32 { 42 }";

    let diagnostics = rejected(resolve_fixture(source));

    assert!(
        diagnostics
            .iter()
            .any(|diagnostic| diagnostic.code == "E3150")
    );
}

#[test]
fn resolve_should_keep_raw_slice_construction_private() {
    let source = "fn invalid(data: *const i32) -> &[i32] {
            __slice_from_parts(data, 1)
        }
        fn main() -> i32 { 42 }";

    let diagnostics = rejected(resolve_fixture(source));

    assert!(
        diagnostics
            .iter()
            .any(|diagnostic| diagnostic.code == "E3150")
    );
}

#[test]
fn resolve_should_type_function_values_and_indirect_calls() {
    let source = "
        fn add(left: i32, right: i32) -> i32 { left + right }
        fn apply(callback: fn(i32, i32) -> i32) -> i32 {
            callback(20, 22)
        }
        fn main() -> i32 { apply(add) }";

    let program = accepted(resolve_fixture(source));

    assert!(matches!(
        elements(&elements(&program.functions)[1].parameters)[0].ty,
        Type::Function(_)
    ));
}

#[test]
fn resolve_should_derive_send_for_safe_aggregate_fields() {
    let source = "
        struct Work { value: i32 }
        fn transfer<T: Send>(value: T) -> T { value }
        fn main() -> i32 { transfer(Work { value: 42 }).value }";

    accepted(resolve_fixture(source));
}

#[test]
fn type_registry_should_treat_owned_strings_as_send_and_sync() {
    let span = Span { start: 0, end: 0 };
    let pointer = Type::RawPointer(TypeId(0));
    let string = Type::Struct(TypeId(1));
    let mut types = TypeRegistry::new(platform(), List::Nil);
    types.push_definition(
        None,
        hir::TypeDefinitionKind::RawPointer { target: Type::U8, mutable: true },
        span,
    );
    types.push_definition(
        Some(words(STANDARD_STRING_TYPE)),
        hir::TypeDefinitionKind::Struct {
            fields: list(vec![hir::TypeField {
                name: "data",
                is_public: false,
                ty: pointer,
                span,
            }]),
        },
        span,
    );

    assert!(types.satisfies_trait(string, "Send"));
    assert!(types.satisfies_trait(string, "Sync"));
    assert!(!types.satisfies_trait(pointer, "Send"));
}

#[test]
fn resolve_should_never_derive_send_for_raw_pointers() {
    let source = "
        fn transfer<T: Send>(value: T) -> T { value }
        fn main() -> i32 {
            let pointer = 0 as usize as *const i32;
            let moved = transfer(pointer);
            42
        }";

    let diagnostics = rejected(resolve_fixture(source));

    assert!(
        diagnostics
            .iter()
            .any(|diagnostic| diagnostic.message.contains("Send"))
    );
}

#[test]
fn resolve_should_use_comptime_results_in_const_generics_and_runtime_code() {
    let source = "
        comptime fn doubled(value: usize) -> usize { value * 2 }
        const LENGTH: usize = doubled(2);
        fn identity<T>(value: T) -> T { value }
        fn main() -> i32 {
            let values: [i32; LENGTH] = [10, 10, 10, 12];
            identity<i32>(values[0] + values[1] + values[2] + values[3])
        }";

    let syntax = parse(source);
    let computed = evaluation(&syntax, &[("LENGTH", 4)]);
    accepted(resolve(&syntax, platform(), List::Nil, &computed));
}

#[test]
fn resolve_should_bind_explicit_method_generics_after_impl_generics() {
    let source = "
        struct Holder<T> { value: T }
        impl<T> Holder<T> {
            fn replace<U>(&self, replacement: U) -> U { replacement }
        }
        fn main() -> i32 {
            let holder: Holder<bool> = Holder { value: true };
            holder.replace<i32>(42)
        }";

    accepted(resolve_fixture(source));
}

#[test]
fn resolve_should_reject_runtime_calls_during_comptime_evaluation() {
    let source = "
        fn runtime_value() -> usize { 42 }
        comptime fn invalid() -> usize { runtime_value() }
        const VALUE: usize = invalid();
        fn main() -> i32 { 0 }";

    let diagnostics = rejected(resolve_fixture(source));

    assert!(
        diagnostics
            .iter()
            .any(|diagnostic| diagnostic.code == "E7012")
    );
}

// Each kind of report.

fn reports(source: &str, code: &str, fragment: &str) {
    let found = rejected(resolve_fixture(source));
    assert!(
        found.iter().any(|report| report.code == code && report.message.contains(fragment)),
        "{code} {fragment}"
    );
}

#[test]
fn program_needs_a_right_entry() {
    reports("fn answer() -> i32 { 42 }", "E3001", "program requires a `main` function");
    reports(
        "extern \"C\" fn main() -> i32;",
        "E3001",
        "`main` must have a Reimer function body",
    );
    reports("fn main(value: i32) -> i32 { value }", "E3002", "`main` cannot accept parameters");
    reports("fn main() { }", "E3003", "`main` must return `i32`");
}

#[test]
fn names_are_declared_once() {
    let main = "fn main() -> i32 { 0 }";
    let twice = |declarations: &str| format!("{declarations} {main}");
    reports(
        &twice("fn twin() { } fn twin() { }"),
        "E3004",
        "function `twin` is declared more than once",
    );
    reports(
        &twice("struct Twin { } enum Twin { One }"),
        "E3008",
        "type `Twin` is declared more than once",
    );
    reports(
        &twice("enum Choice { One, One }"),
        "E3009",
        "enum variant `One` is declared more than once",
    );
    reports(
        &twice("struct Pair { left: i32, left: i32 }"),
        "E3010",
        "field `left` is declared more than once",
    );
    reports(
        &twice("fn both(value: i32, value: i32) { }"),
        "E3101",
        "parameter `value` is declared more than once",
    );
    reports(
        &twice("fn both(pair: (i32, i32)) -> i32 { match pair { (same, same) => same } }"),
        "E3132",
        "pattern binding `same` is declared more than once",
    );
    reports(
        &twice("trait Shape { } trait Shape { }"),
        "E6010",
        "trait `Shape` is declared more than once",
    );
    reports(
        &twice("const SIZE: usize = 1; const SIZE: usize = 2;"),
        "E7007",
        "constant `SIZE` is declared more than once",
    );
    reports(
        &twice("fn generic<T, T>(value: T) { }"),
        "E6005",
        "generic parameter `T` is declared more than once",
    );
}

#[test]
fn names_must_be_known() {
    reports("fn main() -> i32 { missing }", "E3102", "cannot resolve value `missing`");
    reports("fn main() -> Missing { 0 }", "E3005", "Missing");
    reports(
        "impl<T> Missing<T> { } fn main() -> i32 { 0 }",
        "E6001",
        "cannot implement methods for unknown type `Missing`",
    );
    reports(
        "impl i32 { } fn main() -> i32 { 0 }",
        "E6001",
        "inherent impl requires a named struct or enum",
    );
    reports(
        "struct One { } impl Missing for One { } fn main() -> i32 { 0 }",
        "E6011",
        "unknown trait `Missing`",
    );
    reports(
        "trait Shape: Missing { } fn main() -> i32 { 0 }",
        "E6010",
        "unknown supertrait `Missing`",
    );
}

#[test]
fn types_must_be_well_formed() {
    let main = "fn main() -> i32 { 0 }";
    reports(&format!("fn view(values: [i32]) {{ }} {main}"), "E3006", "slice types");
    reports(
        &format!("struct Holder<T> {{ value: T }} fn hold(value: Holder<i32, i32>) {{ }} {main}"),
        "E6003",
        "generic type expects",
    );
    reports(
        &format!("fn hold(value: Option<i32, i32>) {{ }} {main}"),
        "E3007",
        "invalid type argument count for `Option`",
    );
    reports(&format!("fn hold(values: [i32; missing]) {{ }} {main}"), "E3011", "array length");
    reports(
        &format!("struct Holder<T = i32, U> {{ value: T, other: U }} {main}"),
        "E6005",
        "required generic parameters cannot follow",
    );
    reports(
        "fn size<const N: bool>() -> i32 { 0 } fn main() -> i32 { size<1>() }",
        "E6005",
        "const parameter `N` must use an integer type",
    );
}

#[test]
fn control_flow_must_stay_in_its_loop() {
    reports("fn main() -> i32 { break; 0 }", "E3109", "`break` can only be used inside a loop");
    reports(
        "fn main() -> i32 { continue; 0 }",
        "E3110",
        "`continue` can only be used inside a loop",
    );
    reports(
        "fn main() -> i32 { for value in 42 { } 0 }",
        "E3130",
        "`for` cannot iterate over `i32`",
    );
}

#[test]
fn operations_must_fit_their_operands() {
    reports("fn main() -> i32 { true + false; 0 }", "E3112", "is not defined for `bool`");
    reports("fn main() -> i32 { *42 }", "E3135", "cannot dereference `i32`");
    reports("fn main() -> i32 { let value = 1; value[0] }", "E3124", "indexing requires");
    reports("fn main() -> i32 { let value = 1; value.missing }", "E3123", "field does not exist");
    reports(
        "fn main() -> i32 { let values = [1, 2]; values[0, 1] }",
        "E3125",
        "array indexing requires exactly one index",
    );
    reports("fn main() -> i32 { 1 = 2; 0 }", "E3108", "assignment target");
    reports(
        "fn add(left: i32, right: i32) -> i32 { left + right } fn main() -> i32 { add(1) }",
        "E3105",
        "function `add` expects 2 argument(s), but 1 were provided",
    );
    reports(
        "fn main() -> i32 { true }",
        "E3111",
        "function `main` returns `i32`, but its body produces `bool`",
    );
    reports("fn main() -> i32 { let pair: (i32, i32) = (1, 2, 3); 0 }", "E3115", "tuple requires");
    reports("fn main() -> i32 { let values: [i32; 2] = [1]; 0 }", "E3116", "array requires");
    reports("fn main() -> i32 { let values = []; 0 }", "E3117", "empty array");
    reports("fn main() -> i32 { let nothing = None; 0 }", "E3139", "`None` requires");
}

#[test]
fn aggregates_must_be_built_from_their_fields() {
    reports(
        "enum Choice { One } fn main() -> i32 { let one = Choice { }; 0 }",
        "E3118",
        "is not a struct type",
    );
    reports(
        "enum Choice { One } fn main() -> i32 { let one = Choice::One(1); 0 }",
        "E3119",
        "is not tuple-like",
    );
    reports(
        "struct One { value: i32 } fn main() -> i32 { let one = One { value: 1, value: 2 }; 0 }",
        "E3120",
        "field `value` is initialized more than once",
    );
    reports(
        "enum Choice { One(i32) }
        fn main() -> i32 { let one = Choice::One(1); match one { Choice::One => 1 } }",
        "E3134",
        "requires a payload pattern",
    );
}

#[test]
fn traits_are_implemented_once() {
    reports(
        "trait Shape { } struct One { } impl Shape for One { } impl Shape for One { }
        fn main() -> i32 { 0 }",
        "E6012",
        "trait `Shape` is implemented more than once for `One`",
    );
}

#[test]
fn fields_are_private_to_their_module() {
    let module = "struct __module_1_a$One { value: i32, pub shown: i32 }
        pub fn __module_1_a$make() -> __module_1_a$One { __module_1_a$One { value: 1, shown: 2 } }";
    reports(
        &format!("{module} fn main() -> i32 {{ let one = __module_1_a$make(); one.value }}"),
        "E4005",
        "field is private to its defining module",
    );
    accepted(resolve_fixture(&format!(
        "{module} fn main() -> i32 {{ let one = __module_1_a$make(); one.shown }}"
    )));
}

// Formatted strings.

const STRINGS: &str = "struct Lost { }
    struct __module_3_std_6_string$String { length: usize }
    trait __module_3_std_6_string$Display { }
    impl __module_3_std_6_string$String {
        pub fn push_str(&mut self, value: str) -> Result<(), Lost> { Ok(()) }
        pub fn push_i32(&mut self, value: i32) -> Result<(), Lost> { Ok(()) }
        pub fn push_format(&mut self, value: str) -> Result<(), Lost> { Ok(()) }
    }
    struct Point { x: i32 }
    fn point() -> Point { Point { x: 1 } }";

fn formatting(statement: &str) -> String {
    format!(
        "{STRINGS} fn append(text: &mut __module_3_std_6_string$String) -> Result<(), Lost> {{
            {statement}
        }} fn main() -> i32 {{ 0 }}"
    )
}

fn last_value<'p>(program: &'p hir::Program<'static>, name: &str) -> &'p hir::ExpressionKind<'static> {
    let functions = elements(&program.functions);
    let function = functions.iter().find(|function| show(&function.name) == name).unwrap();
    &function.body.tail.as_ref().unwrap().kind
}

#[test]
fn formatted_strings_need_a_destination() {
    reports(
        "fn main() -> i32 { let text = f\"{1}\"; 0 }",
        "E3160",
        "formatted string requires a formatting destination",
    );
    reports(&formatting("text.push_format(1)"), "E3160", "`push_format` expects one");
}

#[test]
fn formatted_strings_are_pushed_piece_by_piece() {
    let program = accepted(resolve_fixture(&formatting("text.push_format(f\"a{1}b{2}\")")));

    match last_value(&program, "append") {
        hir::ExpressionKind::FormatPush { calls, .. } => assert_eq!(elements(calls).len(), 4),
        _ => panic!("the pieces should be pushed"),
    }
    let empty = accepted(resolve_fixture(&formatting("text.push_format(f\"\")")));
    match last_value(&empty, "append") {
        hir::ExpressionKind::FormatPush { calls, .. } => assert_eq!(elements(calls).len(), 1),
        _ => panic!("an empty text should be pushed"),
    }
}

#[test]
fn formatted_values_need_a_way_to_be_shown() {
    reports(
        &formatting("let point = Point { x: 1 }; text.push_format(f\"{point}\")"),
        "E3161",
        "type `Point` cannot be interpolated",
    );
    reports(
        &formatting("text.push_format(f\"{true}\")"),
        "E3163",
        "standard formatting method `push_bool` is unavailable",
    );
    let shown = format!(
        "impl __module_3_std_6_string$Display for Point {{ }} {}",
        formatting("text.push_format(f\"{point()}\")")
    );
    let found = rejected(resolve_fixture(&shown));
    assert!(found.iter().any(|report| report.code == "E3162"));
}

// The intrinsics of the standard library.

#[test]
fn private_intrinsics_stay_private() {
    reports(
        "fn main() -> i32 { let value = __allocate_bytes(1, 1); 0 }",
        "E3145",
        "runtime allocator intrinsics are private to `std::alloc`",
    );
    reports(
        "fn main() -> i32 { __deallocate_bytes(1, 1, 1); 0 }",
        "E3146",
        "the raw deallocation intrinsic requires `unsafe`",
    );
    reports(
        "fn work(value: i32) -> i32 { value }
        fn main() -> i32 { let thread = __thread_spawn(work, 1); 0 }",
        "E3151",
        "native thread intrinsics are private to `std::thread`",
    );
    reports(
        "fn work(value: i32) -> i32 { value }
        fn main() -> i32 { let job = __job_submit(0, work, 1); 0 }",
        "E3154",
        "job intrinsics are private to `std::job`",
    );
    reports(
        "fn main() -> i32 { let lock = __mutex_create(1); 0 }",
        "E3151",
        "native thread intrinsics are private to `std::thread`",
    );
}

#[test]
fn threads_are_spawned_by_the_standard_library() {
    let source = |body: &str| format!(
        "enum Lost {{ ResultMismatch, WorkerPanicked, InvalidHandle, SpawnFailed }}
        fn work(value: i32) -> bool {{ value == 1 }}
        fn many(left: i32, right: i32) -> i32 {{ left }}
        fn raw(value: *const i32) -> i32 {{ 0 }}
        fn __module_3_std_6_thread$start() -> Result<usize, Lost> {{ {body} }}
        fn main() -> i32 {{ 0 }}"
    );
    let program = accepted(resolve_fixture(&source("__thread_spawn(work, 1)")));
    match last_value(&program, "__module_3_std_6_thread$start") {
        hir::ExpressionKind::ThreadSpawn { output_type, spawn_failed_variant, .. } => {
            assert_eq!(*output_type, Type::Bool);
            assert_eq!(*spawn_failed_variant, 3);
        }
        _ => panic!("a thread should be spawned"),
    }
    reports(&source("__thread_spawn(1, 1)"), "E3151", "must be a function value, found `i32`");
    reports(&source("__thread_spawn(many, 1)"), "E3151", "exactly one parameter, found 2");
    reports(
        &source("__thread_spawn(raw, 0 as usize as *const i32)"),
        "E3152",
        "does not satisfy `Send`",
    );
    reports(&source("let handle = __thread_spawn(work, 1); Ok(1)"), "E3151", "requires an expected");
}

#[test]
fn values_are_synchronized_by_the_standard_library() {
    let source = |body: &str| format!(
        "enum Lost {{ Open, Closed }} enum Other {{ One }}
        struct Owned {{ value: i32 }}
        fn __module_3_std_6_thread$run() -> i32 {{ {body} }}
        fn __module_3_std_6_thread$send() -> Result<(), Lost> {{ __channel_send(1, 2) }}
        fn __module_3_std_6_thread$receive() -> Result<i32, Lost> {{ __channel_receive(1) }}
        fn main() -> i32 {{ 0 }}"
    );
    let program = accepted(resolve_fixture(&source("__mutex_load(__mutex_create(1))")));
    match last_value(&program, "__module_3_std_6_thread$send") {
        hir::ExpressionKind::ChannelSend { closed_variant, .. } => assert_eq!(*closed_variant, 1),
        _ => panic!("a value should be sent"),
    }
    match last_value(&program, "__module_3_std_6_thread$receive") {
        hir::ExpressionKind::ChannelReceive { value_type, .. } => {
            assert_eq!(*value_type, Type::I32)
        }
        _ => panic!("a value should be received"),
    }
    reports(
        &source("let lock = __mutex_create(0 as usize as *const i32); 0"),
        "E3153",
        "does not satisfy `Send`",
    );
    reports(
        &source("let slot = __thread_local_create(Owned { value: 1 }); 0"),
        "E3153",
        "does not satisfy `Copy`",
    );
    reports(
        &source("let value = __mutex_load(1); 0"),
        "E3153",
        "loading a synchronized value requires an expected result type",
    );
    reports(
        &source("let channel = __channel_create(1, 1); 0"),
        "E3153",
        "channel type probe must be a raw pointer, found `i32`",
    );
    reports(
        &format!(
            "{} fn __module_3_std_6_thread$fail() -> Result<(), Other> {{ __channel_send(1, 2) }}",
            source("0")
        ),
        "E3153",
        "channel errors require a unit variant named `Closed`",
    );
}

#[test]
fn jobs_are_submitted_by_the_standard_library() {
    let source = |body: &str| format!(
        "enum Lost {{
            PoolCreateFailed, SubmitFailed, InvalidHandle, WorkerPanicked, ResultMismatch
        }}
        fn work(value: i32) -> i32 {{ value }}
        fn each(values: &mut [i32]) {{ }}
        fn __module_3_std_3_job$submit() -> Result<usize, Lost> {{ __job_submit(0, work, 1) }}
        fn __module_3_std_3_job$run(values: &mut [i32]) -> Result<(), Lost> {{ {body} }}
        fn main() -> i32 {{ 0 }}"
    );
    let program = accepted(resolve_fixture(&source("__parallel_for_mut(0, values, each, 1)")));
    match last_value(&program, "__module_3_std_3_job$submit") {
        hir::ExpressionKind::JobSubmit { submit_failed_variant, .. } => {
            assert_eq!(*submit_failed_variant, 1)
        }
        _ => panic!("a job should be submitted"),
    }
    reports(
        &source("__parallel_for_mut(0, 1, each, 1)"),
        "E3154",
        "parallel mutable iteration requires `&mut [T]`, found `i32`",
    );
    reports(
        &source("__parallel_for_mut(0, values, work, 1)"),
        "E3154",
        "parallel callback must accept `&mut [T]`, found `i32`",
    );
}

#[test]
fn attributes_must_be_well_formed() {
    let main = "fn main() -> i32 { 0 }";
    reports(&format!("@must_use(1) fn one() {{ }} {main}"), "E7001", "`@must_use`");
    reports(&format!("@inline @inline fn one() {{ }} {main}"), "E7001", "is repeated");
    reports(
        &format!("@test fn one(value: i32) {{ }} {main}"),
        "E7002",
        "cannot have generic or value parameters",
    );
    reports(&format!("@test fn one() -> i32 {{ 1 }} {main}"), "E7002", "must return `()`");
    reports(&format!("@inline comptime fn one() {{ }} {main}"), "E7002", "has no meaning");
    reports(&format!("@repr(D) struct One {{ }} {main}"), "E7003", "single representation `C`");
    reports(&format!("@repr(C) enum One {{ Two }} {main}"), "E7003", "only on structs");
    reports(&format!("@align struct One {{ }} {main}"), "E7005", "exactly one integer");
    reports(&format!("@align(3) struct One {{ }} {main}"), "E7005", "power of two");
}

#[test]
fn value_packs_expand_inside_aggregates() {
    reports(
        "fn main() -> i32 { let values = (...Missing => 1,); 0 }",
        "E6021",
        "unknown type pack `Missing`",
    );
}

#[test]
fn constants_have_their_declared_type() {
    let syntax = parse("const SIZE: bool = true; fn main() -> i32 { 0 }");
    let computed = evaluation(&syntax, &[("SIZE", 1)]);
    let found = rejected(resolve(&syntax, platform(), List::Nil, &computed));
    assert!(found.iter().any(|report| report.code == "E7011"));
}

// What holds of every program.

fn resolve_both(source: &str) -> (hir::Program<'static>, hir::Program<'static>) {
    let syntax = parse(source);
    let library = resolve_library(&syntax, platform(), List::Nil, &evaluation(&syntax, &[]));
    (accepted(resolve_fixture(source)), accepted(library))
}

#[test]
fn scopes_end_with_their_bindings() {
    accepted(resolve_fixture(
        "fn main() -> i32 { let value = 1; { let value = true; if value { } } value }",
    ));
    reports(
        "fn main() -> i32 { { let value = 1; } value }",
        "E3102",
        "cannot resolve value `value`",
    );
}

#[test]
fn assigned_variables_are_available_again() {
    let source = |between: &str| format!(
        "struct Owned {{ value: i32 }}
        fn consume(owned: Owned) -> i32 {{ owned.value }}
        fn main() -> i32 {{
            let mut owned = Owned {{ value: 1 }};
            let first = consume(owned);
            {between}
            consume(owned)
        }}"
    );
    accepted(resolve_fixture(&source("owned = Owned { value: 2 };")));
    let found = rejected(resolve_fixture(&source("")));
    assert_eq!(found.len(), 1);
    assert_eq!(found[0].code, "E3143");
}

#[test]
fn borrows_of_a_variable_do_not_conflict() {
    let source = |left: &str, right: &str| format!(
        "fn main() -> i32 {{
            let mut value = 1;
            let left = {left} value;
            let right = {right} value;
            *left
        }}"
    );
    accepted(resolve_fixture(&source("&", "&")));
    for (left, right) in [("&mut", "&"), ("&", "&mut"), ("&mut", "&mut")] {
        let found = rejected(resolve_fixture(&source(left, right)));
        assert!(found.iter().any(|report| report.code == "E3138"));
    }
}

#[test]
fn matches_cover_every_value() {
    let source = |arms: &str| format!(
        "enum Choice {{ One, Two(bool) }}
        fn pick(choice: Choice) -> i32 {{ match choice {{ {arms} }} }}
        fn main() -> i32 {{ 0 }}"
    );
    accepted(resolve_fixture(&source("Choice::One => 1, _ => 2")));
    accepted(resolve_fixture(&source("Choice::One => 1, Choice::Two(other) => 2")));
    reports(&source("Choice::One => 1"), "E3133", "non-exhaustive match");
    reports(&source("Choice::One => 1, _ if true => 2"), "E3133", "non-exhaustive match");
}

#[test]
fn instances_are_shared_between_calls() {
    let source = "fn same<T>(value: T) -> T { value }
        fn main() -> i32 { if same<bool>(true) { same<i32>(1) } else { same<i32>(2) } }";
    let program = accepted(resolve_fixture(source));
    assert_eq!(elements(&program.functions).len(), 3);
}

#[test]
fn functions_are_numbered_in_order() {
    let source = "fn first<T>(value: T) -> T { value }
        fn second() -> i32 { first<i32>(1) }
        extern \"C\" fn third() -> i32;
        fn main() -> i32 { second() }";
    let (program, library) = resolve_both(source);
    let numbers = |program: &hir::Program<'static>| -> Vec<u32> {
        elements(&program.functions).iter().map(|function| function.id.0).collect()
    };
    assert_eq!(numbers(&program), vec![0, 2, 3]);
    assert_eq!(elements(&program.foreign_functions)[0].id.0, 1);
    assert_eq!(program.entry.map(|entry| entry.0), Some(2));
    assert_eq!(numbers(&library), numbers(&program));
    assert!(library.entry.is_none());
}

#[test]
fn reports_are_ordered_and_unique() {
    let found = rejected(resolve_fixture(
        "fn second() -> i32 { missing }
        fn first() -> Missing { 0 }
        fn main() -> i32 { 0 }",
    ));
    for pair in found.windows(2) {
        assert!(pair[0].span.start <= pair[1].span.start);
        assert!(
            (pair[0].span, pair[0].code, &pair[0].message)
                != (pair[1].span, pair[1].code, &pair[1].message)
        );
    }
    assert_eq!(found[0].code, "E3111");
    assert_eq!(found[1].code, "E3102");
    assert_eq!(found[1].message, "cannot resolve value `missing`");
}

#[test]
fn reports_carry_help() {
    let found = rejected(resolve_fixture("fn answer() -> i32 { 42 }"));
    assert_eq!(found.len(), 1);
    assert_eq!(found[0].help.as_deref(), Some("add `fn main() -> i32 { ... }`"));
}

#[test]
fn types_that_contain_themselves_are_reported() {
    let contains = |inner: &str| format!(
        "struct Left {{ right: Right }} struct Right {{ left: {inner} }} fn main() -> i32 {{ 0 }}"
    );
    let found = rejected(resolve_fixture(&contains("Left")));
    assert!(!found.is_empty());
    accepted(resolve_fixture(&contains("*const Left")));
    rejected(resolve_fixture(&contains("Option<Left>")));
    rejected(resolve_fixture(&contains("[Left; 2]")));
}

#[test]
fn problems_of_the_evaluation_refuse_the_program() {
    let syntax = parse("fn main() -> i32 { 0 }");
    let mut computed = evaluation(&syntax, &[]);
    computed.problems = list(vec![reimer::span::error(
        "E7012",
        words("unknown comptime function"),
        Span { start: 3, end: 7 },
    )]);
    let found = rejected(resolve(&syntax, platform(), List::Nil, &computed));
    assert_eq!(found.len(), 1);
    assert_eq!(found[0].code, "E7012");
    assert_eq!(found[0].span, Span { start: 3, end: 7 });
}

#[test]
fn returned_values_have_the_type_of_the_function() {
    reports(
        "fn main() -> i32 { if true { return false; } 0 }",
        "E3103",
        "return value requires `i32`, found `bool`",
    );
    let program = accepted(resolve_fixture("fn main() -> i32 { if true { return 1; } 0 }"));
    let functions = elements(&program.functions);
    assert_eq!(functions[0].return_type, functions[0].body.ty);
}

#[test]
fn statics_have_values_of_their_types() {
    let program = accepted(resolve_fixture("static LIMIT: u8 = 255; fn main() -> i32 { 0 }"));
    let limit = elements(&program.statics)[0];
    assert_eq!(limit.ty, Type::U8);
    assert_eq!(limit.initializer.ty, Type::U8);
    assert!(matches!(&*limit.initializer.kind, hir::ExpressionKind::Integer(255)));
    reports("static LIMIT: u8 = 256; fn main() -> i32 { 0 }", "E7011", "out-of-range");
}

#[test]
fn literals_have_types_that_hold_them() {
    accepted(resolve_fixture("fn main() -> i32 { let value: u8 = 255; 0 }"));
    accepted(resolve_fixture("fn main() -> i32 { let value: i8 = -128; 0 }"));
    reports(
        "fn main() -> i32 { let value: u8 = 256; 0 }",
        "E3104",
        "integer literal does not fit in `u8`",
    );
    reports(
        "fn main() -> i32 { let value: i8 = -129; 0 }",
        "E3104",
        "negative integer literal does not fit in `i8`",
    );
}

#[test]
fn raw_pointers_are_read_in_unsafe_code() {
    let source = |read: &str| format!(
        "fn main() -> i32 {{ let pointer = 0 as usize as *const i32; {read} }}"
    );
    reports(&source("*pointer"), "E3136", "only be dereferenced inside `unsafe`");
    accepted(resolve_fixture(&source("unsafe { *pointer }")));
}

#[test]
fn updates_of_moved_variables_are_reported() {
    let source = "struct Owned { value: i32 }
        fn consume(owned: Owned) -> i32 { owned.value }
        fn main() -> i32 {
            let mut owned = Owned { value: 1 };
            let first = consume(owned);
            owned += Owned { value: 2 };
            0
        }";
    let found = rejected(resolve_fixture(source));
    assert!(found.iter().any(|report| report.code == "E3143"));
}

#[test]
fn functions_bear_each_number_once() {
    let source = "fn same<T>(value: T) -> T { value }
        extern \"C\" fn native_abs(value: i32) -> i32;
        fn wrap<T>(value: T) -> T { same(value) }
        fn main() -> i32 { let flag = wrap(true); same(wrap(3)) }
        fn last() -> i32 { 0 }";
    let program = accepted(resolve_fixture(source));
    let mut numbers: Vec<u32> =
        elements(&program.functions).iter().map(|function| function.id.0).collect();
    assert!(numbers.windows(2).all(|pair| pair[0] < pair[1]));
    let foreign = elements(&program.foreign_functions);
    assert_eq!(foreign.len(), 1);
    numbers.extend(foreign.iter().map(|function| function.id.0));
    numbers.sort_unstable();
    assert_eq!(numbers, (0..7).collect::<Vec<u32>>());
}

#[test]
fn types_are_reported_where_they_contain_themselves() {
    let source = "struct Outer { inner: Inner }
        struct Inner { next: Inner }
        fn main() -> i32 { 0 }";
    let found = rejected(resolve_fixture(source));
    assert_eq!(found[0].code, "E3012");
    assert!(found[0].message.contains("Inner"));
}

#[test]
fn long_programs_need_no_deep_stack() {
    let values = vec!["1"; 20_000].join(", ");
    let updates = "sum += 1; ".repeat(20_000);
    let source = format!(
        "fn main() -> i32 {{
            let values: [i32; 20000] = [{values}];
            let mut sum = values[0];
            {updates}
            sum
        }}"
    );
    let program = accepted(resolve_fixture(&source));
    let functions = elements(&program.functions);
    assert_eq!(functions[0].body.statements.count(), 20_002);
}

#[test]
fn programs_hold_many_functions() {
    let mut source = String::from("fn main() -> i32 { 0 }\n");
    for index in 0..1_500 {
        source.push_str(&format!("fn helper_{index}() -> i32 {{ {index} }}\n"));
    }
    let program = accepted(resolve_fixture(&source));
    assert_eq!(program.functions.count(), 1_501);
}

#[test]
fn arguments_and_fields_have_the_declared_types() {
    let source = |argument: &str, field: &str, element: &str| format!(
        "struct Pair {{ left: i32, right: bool }}
        enum Choice {{ One(i32), None }}
        fn take(value: i32) -> i32 {{ value }}
        fn main() -> i32 {{
            let pair = Pair {{ left: 1, right: {field} }};
            let values: [i32; 2] = [1, {element}];
            let choice = Choice::One({argument});
            take({argument})
        }}"
    );
    accepted(resolve_fixture(&source("2", "true", "3")));
    assert_eq!(rejected(resolve_fixture(&source("true", "true", "3"))).len(), 2);
    assert_eq!(rejected(resolve_fixture(&source("2", "4", "3"))).len(), 1);
    assert_eq!(rejected(resolve_fixture(&source("2", "true", "false"))).len(), 1);
}

#[test]
fn values_spare_the_variables_they_do_not_mention() {
    let source = |value: &str, operator: &str| format!(
        "struct Owned {{ value: i32 }}
        fn consume(owned: Owned) -> i32 {{ owned.value }}
        fn main() -> i32 {{
            let mut owned = Owned {{ value: 1 }};
            let other = Owned {{ value: 2 }};
            let mut count = consume(owned);
            owned {operator} {value};
            consume(owned) + count
        }}"
    );
    let value = "if count > 0 { other } else { let mut inner = Owned { value: 3 }; inner }";
    accepted(resolve_fixture(&source(value, "=")));
    let found = rejected(resolve_fixture(&source(value, "+=")));
    assert!(found.iter().any(|report| report.code == "E3143"));
    let found = rejected(resolve_fixture(&source("owned", "=")));
    assert!(found.iter().any(|report| report.code == "E3143"));
}

#[test]
fn statics_bear_the_numbers_of_their_positions() {
    let program = accepted(resolve_fixture(
        "static FIRST: i32 = 1; static SECOND: i32 = 2; static THIRD: i32 = 3;
        fn main() -> i32 { FIRST + THIRD }",
    ));
    let numbers: Vec<u32> =
        elements(&program.statics).iter().map(|value| value.id.0).collect();
    assert_eq!(numbers, [0, 1, 2]);
}

#[test]
fn calls_are_of_functions_of_the_program() {
    let program = accepted(resolve_fixture(
        "fn keep<T>(value: T) -> T { value }
        fn twice(value: i32) -> i32 { value * 2 }
        fn main() -> i32 { keep(twice(4)) }",
    ));
    let functions = elements(&program.functions);
    let main = functions.iter().find(|function| show(&function.name) == "main").unwrap();
    let tail = main.body.tail.as_ref().unwrap();
    let hir::ExpressionKind::Call { function, arguments } = &*tail.kind else {
        panic!("a call");
    };
    let instance = functions.iter().find(|known| known.id == *function).unwrap();
    assert_eq!(instance.return_type, tail.ty);
    let parameters = elements(&instance.parameters);
    let arguments = elements(arguments);
    assert_eq!(parameters.len(), arguments.len());
    assert_eq!(parameters[0].ty, arguments[0].ty);
    let hir::ExpressionKind::Call { function, .. } = &*arguments[0].kind else {
        panic!("a call");
    };
    assert!(functions.iter().any(|known| known.id == *function));
}

#[test]
fn nested_instances_are_made_once() {
    let program = accepted(resolve_fixture(
        "struct Inner<T> { value: T }
        struct Outer<T> { inner: Inner<T> }
        fn first(outer: Outer<Inner<i32>>) -> i32 { outer.inner.value.value }
        fn second(outer: Outer<Inner<i32>>) -> i32 { first(outer) }
        fn main() -> i32 {
            let value: Inner<i32> = Inner { value: 7 };
            let inner: Inner<Inner<i32>> = Inner { value: value };
            let outer: Outer<Inner<i32>> = Outer { inner: inner };
            second(outer)
        }",
    ));
    let functions = elements(&program.functions);
    assert_eq!(
        elements(&functions[0].parameters)[0].ty,
        elements(&functions[1].parameters)[0].ty,
    );
}

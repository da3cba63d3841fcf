//! Parsed programs.

use crate::list::{cons, prepend, prepended, share, List};
use crate::span::Span;
use crate::text::{Piece, Text};
use std::rc::Rc;
use vstd::prelude::*;

verus! {

broadcast use crate::list::pushed_comes_first;

/// A name where it stands in the source.
pub struct Identifier<'a> {
    pub name: &'a str,
    pub span: Span,
}

impl<'a> Clone for Identifier<'a> {
    fn clone(&self) -> (copy: Self)
        ensures
            copy == *self,
    {
        *self
    }
}

impl<'a> Copy for Identifier<'a> {

}

/// Names separated by `::`.
pub struct Path<'a> {
    pub segments: List<Identifier<'a>>,
    pub span: Span,
}

/// A type as it is written.
pub struct TypeName<'a> {
    pub kind: Rc<TypeNameKind<'a>>,
    pub span: Span,
}

/// The forms that a written type can take.
pub enum TypeNameKind<'a> {
    Function { parameters: List<TypeName<'a>>, return_type: TypeName<'a> },
    Unit,
    Generic { path: Path<'a>, arguments: List<GenericArgument<'a>> },
    Tuple(List<TypeName<'a>>),
    PackExpansion { pack: Identifier<'a>, template: Option<TypeName<'a>> },
    Array { element: TypeName<'a>, length: Expression<'a> },
    Reference { mutable: bool, target: TypeName<'a> },
    RawPointer { mutable: bool, target: TypeName<'a> },
    Slice(TypeName<'a>),
    Path(Path<'a>),
}

/// An argument between angle brackets.
pub enum GenericArgument<'a> {
    Type(TypeName<'a>),
    Const(Expression<'a>),
    Pack { pack: Identifier<'a>, template: Option<TypeName<'a>>, span: Span },
}

/// A parameter between angle brackets.
#[allow(inconsistent_fields)]
pub enum GenericParameter<'a> {
    Type {
        name: Identifier<'a>,
        bounds: List<Path<'a>>,
        default: Option<TypeName<'a>>,
        span: Span,
    },
    TypePack { name: Identifier<'a>, bounds: List<Path<'a>>, span: Span },
    Const { name: Identifier<'a>, ty: TypeName<'a>, default: Option<Expression<'a>>, span: Span },
}

/// One bound of a `where` clause.
pub struct WherePredicate<'a> {
    pub ty: TypeName<'a>,
    pub bounds: List<Path<'a>>,
    pub span: Span,
}

/// An annotation such as `@derive(Copy)`.
pub struct Attribute<'a> {
    pub name: Identifier<'a>,
    pub arguments: List<AttributeArgument<'a>>,
    pub span: Span,
}

/// An argument of an annotation.
pub enum AttributeArgument<'a> {
    Identifier(Identifier<'a>),
    Integer(IntegerLiteral),
}

/// An unsigned number as it is written.
#[derive(Clone, Copy)]
pub struct IntegerLiteral {
    pub value: u128,
    pub span: Span,
}

/// A floating-point number as it is written: the bits of its value, and the
/// bits of the nearest single-precision value where that is finite.
#[derive(Clone, Copy)]
pub struct FloatLiteral {
    pub bits: u64,
    pub single: Option<u32>,
}

#[derive(Clone, Copy, PartialEq, Eq, Structural, Debug)]
pub enum UnaryOperator {
    Negate,
    Not,
    Borrow,
    BorrowMut,
    Dereference,
}

#[derive(Clone, Copy, PartialEq, Eq, Structural, Debug)]
pub enum BinaryOperator {
    Add,
    Subtract,
    Multiply,
    Divide,
    Remainder,
    BitAnd,
    BitXor,
    BitOr,
    ShiftLeft,
    ShiftRight,
    Equal,
    NotEqual,
    Less,
    LessEqual,
    Greater,
    GreaterEqual,
    And,
    Or,
}

#[derive(Clone, Copy, PartialEq, Eq, Structural, Debug)]
pub enum AssignmentOperator {
    Assign,
    Add,
    Subtract,
    Multiply,
    Divide,
    Remainder,
    BitAnd,
    BitXor,
    BitOr,
    ShiftLeft,
    ShiftRight,
}

/// The name behind a dot.
pub enum FieldName<'a> {
    Named(Identifier<'a>),
    TupleIndex { index: u32, span: Span },
}

/// A part of a formatted string.
pub enum FormattedStringFragment<'a> {
    Text(&'a str, Span),
    Display(Expression<'a>),
    Debug(Expression<'a>),
}

/// `name: value` in an aggregate.
pub struct FieldInitializer<'a> {
    pub name: Identifier<'a>,
    pub value: Expression<'a>,
}

/// An arm of a `match`.
pub struct MatchArm<'a> {
    pub pattern: Pattern<'a>,
    pub guard: Option<Expression<'a>>,
    pub body: Expression<'a>,
    pub span: Span,
}

/// An expression.
pub struct Expression<'a> {
    pub kind: Rc<ExpressionKind<'a>>,
    pub span: Span,
}

/// A call with its parts.
pub struct CallExpression<'a> {
    pub callee: Expression<'a>,
    pub generic_arguments: List<GenericArgument<'a>>,
    pub arguments: List<Expression<'a>>,
    pub span: Span,
}

/// Access to a field or a method.
pub struct FieldExpression<'a> {
    pub base: Expression<'a>,
    pub field: FieldName<'a>,
    pub span: Span,
}

/// Access by index.
pub struct IndexExpression<'a> {
    pub base: Expression<'a>,
    pub indices: List<Expression<'a>>,
    pub span: Span,
}

/// The forms that an expression can take.
#[allow(inconsistent_fields)]
pub enum ExpressionKind<'a> {
    Integer(u128),
    Float(FloatLiteral),
    Character(char),
    String(&'a str),
    CString(&'a str),
    Boolean(bool),
    Unit,
    Path(Path<'a>),
    FormattedString(List<FormattedStringFragment<'a>>),
    Tuple(List<Expression<'a>>),
    PackExpansion { pack: Identifier<'a>, template: Expression<'a> },
    ArrayList(List<Expression<'a>>),
    ArrayRepeat { value: Expression<'a>, length: Expression<'a> },
    Struct { path: Path<'a>, fields: List<FieldInitializer<'a>> },
    Unary { operator: UnaryOperator, operand: Expression<'a> },
    Binary { operator: BinaryOperator, left: Expression<'a>, right: Expression<'a> },
    Call(CallExpression<'a>),
    If {
        condition: Expression<'a>,
        then_branch: Block<'a>,
        else_branch: Option<Expression<'a>>,
    },
    Match { scrutinee: Expression<'a>, arms: List<MatchArm<'a>> },
    Loop(Block<'a>),
    Unsafe(Block<'a>),
    Block(Block<'a>),
    Assignment { operator: AssignmentOperator, target: Expression<'a>, value: Expression<'a> },
    Cast { value: Expression<'a>, target: TypeName<'a> },
    Field(FieldExpression<'a>),
    Index(IndexExpression<'a>),
    Try(Expression<'a>),
}

/// Statements between braces, and the value behind them.
pub struct Block<'a> {
    pub statements: List<Statement<'a>>,
    pub tail: Option<Expression<'a>>,
    pub span: Span,
}

/// A statement.
#[allow(inconsistent_fields)]
pub enum Statement<'a> {
    Let {
        name: Identifier<'a>,
        mutable: bool,
        ty: Option<TypeName<'a>>,
        initializer: Expression<'a>,
        span: Span,
    },
    Expression(Expression<'a>),
    Defer { action: Expression<'a>, span: Span },
    Return { value: Option<Expression<'a>>, span: Span },
    While { condition: Expression<'a>, body: Block<'a>, span: Span },
    For { pattern: Pattern<'a>, iterable: Expression<'a>, body: Block<'a>, span: Span },
    Break { value: Option<Expression<'a>>, span: Span },
    Continue(Span),
}

/// A pattern.
pub struct Pattern<'a> {
    pub kind: Rc<PatternKind<'a>>,
    pub span: Span,
}

/// The forms that a pattern can take.
#[allow(inconsistent_fields)]
pub enum PatternKind<'a> {
    Wildcard,
    Identifier { mutable: bool, name: Identifier<'a> },
    Integer { value: u128, negative: bool },
    Float(FloatPattern),
    Character(char),
    Boolean(bool),
    Tuple(List<Pattern<'a>>),
    Path(Path<'a>),
    EnumTuple { path: Path<'a>, fields: List<Pattern<'a>> },
    EnumStruct { path: Path<'a>, fields: List<PatternField<'a>> },
}

/// A floating-point pattern: the bits of its value with the sign applied, the
/// bits of the nearest single-precision value, and whether that is finite.
#[derive(Clone, Copy)]
pub struct FloatPattern {
    pub bits: u64,
    pub single: u32,
    pub single_is_finite: bool,
}

/// `name: pattern` in a pattern with fields.
pub struct PatternField<'a> {
    pub name: Identifier<'a>,
    pub pattern: Pattern<'a>,
    pub span: Span,
}

/// `name: Type` between the round brackets of a function.
pub struct Parameter<'a> {
    pub name: Identifier<'a>,
    pub ty: TypeName<'a>,
    pub span: Span,
}

/// A function with a body.
pub struct Function<'a> {
    pub attributes: List<Attribute<'a>>,
    pub name: Identifier<'a>,
    pub is_public: bool,
    pub is_comptime: bool,
    pub generic_parameters: List<GenericParameter<'a>>,
    pub where_predicates: List<WherePredicate<'a>>,
    pub parameters: List<Parameter<'a>>,
    pub return_type: Option<TypeName<'a>>,
    pub body: Block<'a>,
    pub span: Span,
}

/// A function of another language.
pub struct ForeignFunction<'a> {
    pub name: Identifier<'a>,
    pub symbol: &'a str,
    pub link: Option<&'a str>,
    pub abi: &'a str,
    pub is_public: bool,
    pub parameters: List<Parameter<'a>>,
    pub return_type: Option<TypeName<'a>>,
    pub span: Span,
}

/// A field of a struct or of a variant.
pub struct StructField<'a> {
    pub name: Identifier<'a>,
    pub is_public: bool,
    pub ty: TypeName<'a>,
    pub span: Span,
}

pub struct StructDeclaration<'a> {
    pub attributes: List<Attribute<'a>>,
    pub name: Identifier<'a>,
    pub generic_parameters: List<GenericParameter<'a>>,
    pub where_predicates: List<WherePredicate<'a>>,
    pub fields: List<StructField<'a>>,
    pub span: Span,
}

/// What a variant carries.
pub enum EnumVariantPayload<'a> {
    Unit,
    Tuple(List<TypeName<'a>>),
    Struct(List<StructField<'a>>),
}

pub struct EnumVariant<'a> {
    pub name: Identifier<'a>,
    pub payload: EnumVariantPayload<'a>,
    pub span: Span,
}

pub struct EnumDeclaration<'a> {
    pub attributes: List<Attribute<'a>>,
    pub name: Identifier<'a>,
    pub generic_parameters: List<GenericParameter<'a>>,
    pub where_predicates: List<WherePredicate<'a>>,
    pub variants: List<EnumVariant<'a>>,
    pub span: Span,
}

pub struct TypeAlias<'a> {
    pub name: Identifier<'a>,
    pub target: TypeName<'a>,
    pub span: Span,
}

/// A method that a trait asks for.
pub struct TraitMethod<'a> {
    pub name: Identifier<'a>,
    pub generic_parameters: List<GenericParameter<'a>>,
    pub parameters: List<Parameter<'a>>,
    pub return_type: Option<TypeName<'a>>,
    pub span: Span,
}

pub struct TraitDeclaration<'a> {
    pub name: Identifier<'a>,
    pub generic_parameters: List<GenericParameter<'a>>,
    pub supertraits: List<Path<'a>>,
    pub methods: List<TraitMethod<'a>>,
    pub span: Span,
}

pub struct ImplDeclaration<'a> {
    pub generic_parameters: List<GenericParameter<'a>>,
    pub where_predicates: List<WherePredicate<'a>>,
    pub trait_type: Option<TypeName<'a>>,
    pub target: TypeName<'a>,
    pub methods: List<Rc<Function<'a>>>,
    pub span: Span,
}

pub struct ConstantDeclaration<'a> {
    pub name: Identifier<'a>,
    pub ty: TypeName<'a>,
    pub value: Expression<'a>,
    pub span: Span,
}

pub struct StaticDeclaration<'a> {
    pub name: Identifier<'a>,
    pub is_public: bool,
    pub mutable: bool,
    pub ty: TypeName<'a>,
    pub value: Expression<'a>,
    pub span: Span,
}

/// A declaration of a program.
pub enum Item<'a> {
    Import(Path<'a>),
    Function(Rc<Function<'a>>),
    ForeignFunction(Rc<ForeignFunction<'a>>),
    Struct(Rc<StructDeclaration<'a>>),
    Enum(Rc<EnumDeclaration<'a>>),
    TypeAlias(Rc<TypeAlias<'a>>),
    Trait(Rc<TraitDeclaration<'a>>),
    Impl(Rc<ImplDeclaration<'a>>),
    Constant(Rc<ConstantDeclaration<'a>>),
    Static(Rc<StaticDeclaration<'a>>),
    Comptime(Block<'a>),
}

/// A parsed compilation unit.
pub struct Program<'a> {
    pub items: List<Item<'a>>,
}

/// The names of a path with `::` between them.
pub open spec fn path_text<'a>(segments: List<Identifier<'a>>) -> Text<'a>
    decreases segments,
{
    match segments {
        List::Nil => List::Nil,
        List::Cons(node) => {
            if node.tail is Nil {
                cons(Piece::Words(node.head.name), List::Nil)
            } else {
                cons(
                    Piece::Words(node.head.name),
                    cons(Piece::Words("::"), path_text(node.tail)),
                )
            }
        },
    }
}

fn show_path<'a>(segments: &List<Identifier<'a>>) -> (text: Text<'a>)
    ensures
        text == path_text(*segments),
{
    let mut ahead: &List<Identifier<'a>> = segments;
    let mut done: Vec<Piece<'a>> = Vec::new();
    loop
        invariant
            path_text(*segments) == prepended(done@, path_text(*ahead)),
        decreases *ahead,
    {
        match ahead {
            List::Nil => {
                return prepend(done, List::Nil);
            },
            List::Cons(node) => {
                if node.tail.is_empty() {
                    return prepend(done, cons(Piece::Words(node.head.name), List::Nil));
                }
                done.push(Piece::Words(node.head.name));
                done.push(Piece::Words("::"));
                ahead = &node.tail;
            },
        }
    }
}

/// The name of a path of one segment.
pub open spec fn lone_name<'a>(path: Path<'a>) -> Option<&'a str> {
    match path.segments {
        List::Cons(node) if node.tail is Nil => Some(node.head.name),
        _ => None,
    }
}

/// The name of a path of one segment.
pub fn single_path_name<'a>(path: &Path<'a>) -> (name: Option<&'a str>)
    ensures
        name == lone_name(*path),
{
    match &path.segments {
        List::Nil => None,
        List::Cons(node) => if node.tail.is_empty() {
            Some(node.head.name)
        } else {
            None
        },
    }
}

/// The two names of a path of two segments.
pub open spec fn two_names<'a>(path: Path<'a>) -> Option<(Identifier<'a>, Identifier<'a>)> {
    match path.segments {
        List::Cons(first) => match first.tail {
            List::Cons(second) if second.tail is Nil => Some((first.head, second.head)),
            _ => None,
        },
        List::Nil => None,
    }
}

/// The two names of a path of two segments.
pub fn path_pair<'a>(path: &Path<'a>) -> (names: Option<(Identifier<'a>, Identifier<'a>)>)
    ensures
        names == two_names(*path),
{
    match &path.segments {
        List::Nil => None,
        List::Cons(first) => match &first.tail {
            List::Nil => None,
            List::Cons(second) => if second.tail.is_empty() {
                Some((first.head, second.head))
            } else {
                None
            },
        },
    }
}

impl<'a> Path<'a> {
    /// The names with `::` between them.
    pub open spec fn spec_display(&self) -> Text<'a> {
        path_text(self.segments)
    }

    /// The names with `::` between them.
    #[verifier::when_used_as_spec(spec_display)]
    pub fn display(&self) -> (text: Text<'a>)
        ensures
            text == path_text(self.segments),
    {
        show_path(&self.segments)
    }

    pub fn share(&self) -> (shared: Self)
        ensures
            shared == *self,
    {
        Path { segments: self.segments.share(), span: self.span }
    }
}

impl<'a> TypeName<'a> {
    pub fn share(&self) -> (shared: Self)
        ensures
            shared == *self,
    {
        TypeName { kind: share(&self.kind), span: self.span }
    }
}

impl<'a> Expression<'a> {
    pub fn share(&self) -> (shared: Self)
        ensures
            shared == *self,
    {
        Expression { kind: share(&self.kind), span: self.span }
    }
}

impl<'a> WherePredicate<'a> {
    pub fn share(&self) -> (shared: Self)
        ensures
            shared == *self,
    {
        WherePredicate { ty: self.ty.share(), bounds: self.bounds.share(), span: self.span }
    }
}

impl<'a> GenericParameter<'a> {
    pub fn share(&self) -> (shared: Self)
        ensures
            shared == *self,
    {
        match self {
            GenericParameter::Type { name, bounds, default, span } => GenericParameter::Type {
                name: *name,
                bounds: bounds.share(),
                default: match default {
                    Some(default) => Some(default.share()),
                    None => None,
                },
                span: *span,
            },
            GenericParameter::TypePack { name, bounds, span } => GenericParameter::TypePack {
                name: *name,
                bounds: bounds.share(),
                span: *span,
            },
            GenericParameter::Const { name, ty, default, span } => GenericParameter::Const {
                name: *name,
                ty: ty.share(),
                default: match default {
                    Some(default) => Some(default.share()),
                    None => None,
                },
                span: *span,
            },
        }
    }

    /// The declared name.
    pub open spec fn spec_name(&self) -> Identifier<'a> {
        match *self {
            GenericParameter::Type { name, .. } => name,
            GenericParameter::TypePack { name, .. } => name,
            GenericParameter::Const { name, .. } => name,
        }
    }

    /// The declared name.
    #[verifier::when_used_as_spec(spec_name)]
    pub fn name(&self) -> (name: Identifier<'a>)
        ensures
            name == self.spec_name(),
    {
        match self {
            GenericParameter::Type { name, .. } => *name,
            GenericParameter::TypePack { name, .. } => *name,
            GenericParameter::Const { name, .. } => *name,
        }
    }

    /// Where the parameter stands.
    pub open spec fn spec_span(&self) -> Span {
        match *self {
            GenericParameter::Type { span, .. } => span,
            GenericParameter::TypePack { span, .. } => span,
            GenericParameter::Const { span, .. } => span,
        }
    }

    /// Where the parameter stands.
    #[verifier::when_used_as_spec(spec_span)]
    pub fn span(&self) -> (span: Span)
        ensures
            span == self.spec_span(),
    {
        match self {
            GenericParameter::Type { span, .. } => *span,
            GenericParameter::TypePack { span, .. } => *span,
            GenericParameter::Const { span, .. } => *span,
        }
    }
}

} // verus!

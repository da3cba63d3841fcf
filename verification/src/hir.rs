//! Typed programs.

use crate::list::{share, List};
use crate::span::Span;
use crate::text::Text;
use crate::types::{Type, TypeId};
use std::rc::Rc;
use vstd::prelude::*;

verus! {

#[derive(Clone, Copy, PartialEq, Eq, Structural, Debug)]
pub struct FunctionId(pub u32);

#[derive(Clone, Copy, PartialEq, Eq, Structural, Debug)]
pub struct StaticId(pub u32);

#[derive(Clone, Copy, PartialEq, Eq, Structural, Debug)]
pub struct LocalId(pub u32);

/// The traits whose behaviour can be derived.
#[derive(Clone, Copy, PartialEq, Eq, Structural, Debug)]
pub enum DerivedTrait {
    Copy,
    Clone,
    Debug,
    Eq,
    Hash,
    Default,
    Pod,
}

#[derive(Clone, Copy, PartialEq, Eq, Structural, Debug)]
pub enum TypeRepresentation {
    Native,
    C,
}

/// A field with its type.
pub struct TypeField<'a> {
    pub name: &'a str,
    pub is_public: bool,
    pub ty: Type,
    pub span: Span,
}

impl<'a> Clone for TypeField<'a> {
    fn clone(&self) -> (copy: Self)
        ensures
            copy == *self,
    {
        *self
    }
}

impl<'a> Copy for TypeField<'a> {

}

/// What a variant carries.
pub enum EnumVariantFields<'a> {
    Unit,
    Tuple(List<Type>),
    Struct(List<TypeField<'a>>),
}

impl<'a> EnumVariantFields<'a> {
    pub fn share(&self) -> (shared: Self)
        ensures
            shared == *self,
    {
        match self {
            EnumVariantFields::Unit => EnumVariantFields::Unit,
            EnumVariantFields::Tuple(types) => EnumVariantFields::Tuple(types.share()),
            EnumVariantFields::Struct(fields) => EnumVariantFields::Struct(fields.share()),
        }
    }
}

pub struct EnumVariant<'a> {
    pub name: &'a str,
    pub fields: EnumVariantFields<'a>,
    pub span: Span,
}

/// The shape of a composite type.
pub enum TypeDefinitionKind<'a> {
    Struct { fields: List<TypeField<'a>> },
    Enum { variants: List<EnumVariant<'a>> },
    Tuple { elements: List<Type> },
    Array { element: Type, length: u64 },
    Reference { target: Type, mutable: bool },
    RawPointer { target: Type, mutable: bool },
    Slice { element: Type, mutable: bool },
    Function { parameters: List<Type>, return_type: Type },
}

impl<'a> TypeDefinitionKind<'a> {
    pub fn share(&self) -> (shared: Self)
        ensures
            shared == *self,
    {
        match self {
            TypeDefinitionKind::Struct { fields } => TypeDefinitionKind::Struct {
                fields: fields.share(),
            },
            TypeDefinitionKind::Enum { variants } => TypeDefinitionKind::Enum {
                variants: variants.share(),
            },
            TypeDefinitionKind::Tuple { elements } => TypeDefinitionKind::Tuple {
                elements: elements.share(),
            },
            TypeDefinitionKind::Array { element, length } => TypeDefinitionKind::Array {
                element: *element,
                length: *length,
            },
            TypeDefinitionKind::Reference { target, mutable } => TypeDefinitionKind::Reference {
                target: *target,
                mutable: *mutable,
            },
            TypeDefinitionKind::RawPointer { target, mutable } => TypeDefinitionKind::RawPointer {
                target: *target,
                mutable: *mutable,
            },
            TypeDefinitionKind::Slice { element, mutable } => TypeDefinitionKind::Slice {
                element: *element,
                mutable: *mutable,
            },
            TypeDefinitionKind::Function { parameters, return_type } =>
            TypeDefinitionKind::Function {
                parameters: parameters.share(),
                return_type: *return_type,
            },
        }
    }
}

/// A composite type.
pub struct TypeDefinition<'a> {
    pub id: TypeId,
    pub name: Option<Text<'a>>,
    pub documentation: Option<Text<'a>>,
    pub kind: TypeDefinitionKind<'a>,
    pub representation: TypeRepresentation,
    pub alignment: Option<u32>,
    pub derives: List<DerivedTrait>,
    pub marker_traits: List<&'a str>,
    pub must_use: bool,
    pub span: Span,
}

#[derive(Clone, Copy, PartialEq, Eq, Structural, Debug)]
pub enum UnaryOperator {
    Negate,
    Not,
}

#[derive(Clone, Copy, PartialEq, Eq, Structural, Debug)]
pub enum BinaryOperator {
    Add,
    Subtract,
    Multiply,
    Divide,
    Remainder,
    BitAnd,
    BitXor,
    BitOr,
    ShiftLeft,
    ShiftRight,
    Equal,
    NotEqual,
    Less,
    LessEqual,
    Greater,
    GreaterEqual,
    And,
    Or,
}

#[derive(Clone, Copy, PartialEq, Eq, Structural, Debug)]
pub enum AssignmentOperator {
    Assign,
    Add,
    Subtract,
    Multiply,
    Divide,
    Remainder,
    BitAnd,
    BitXor,
    BitOr,
    ShiftLeft,
    ShiftRight,
}

#[derive(Clone, Copy, PartialEq, Eq, Structural, Debug)]
pub enum AssertionMode {
    Always,
    Debug,
}

#[derive(Clone, Copy, PartialEq, Eq, Structural, Debug)]
pub enum IntegerAdditionMode {
    Wrapping,
    Checked,
    Saturating,
}

#[derive(Clone, Copy, PartialEq, Eq, Structural, Debug)]
pub enum SynchronizationKind {
    Mutex,
    RwLock,
    ThreadLocal,
}

#[derive(Clone, Copy, PartialEq, Eq, Structural, Debug)]
pub enum ForIteration {
    Indexed,
    Chars,
}

/// An expression with its type.
pub struct Expression<'a> {
    pub kind: Rc<ExpressionKind<'a>>,
    pub ty: Type,
    pub span: Span,
}

impl<'a> Expression<'a> {
    pub fn share(&self) -> (shared: Self)
        ensures
            shared == *self,
    {
        Expression { kind: share(&self.kind), ty: self.ty, span: self.span }
    }
}

/// An expression of the given kind.
pub open spec fn spec_typed<'a>(kind: ExpressionKind<'a>, ty: Type, span: Span) -> Expression<'a> {
    Expression { kind: Rc::new(kind), ty, span }
}

/// An expression of the given kind.
#[verifier::when_used_as_spec(spec_typed)]
pub fn typed<'a>(kind: ExpressionKind<'a>, ty: Type, span: Span) -> (expression: Expression<'a>)
    ensures
        expression == spec_typed(kind, ty, span),
{
    Expression { kind: Rc::new(kind), ty, span }
}

/// The expression that stands for a value that could not be typed.
pub open spec fn spec_invalid_expression<'a>(span: Span) -> Expression<'a> {
    typed(ExpressionKind::Unit, Type::Unit, span)
}

/// The expression that stands for a value that could not be typed.
#[verifier::when_used_as_spec(spec_invalid_expression)]
pub fn invalid_composite_expression<'a>(span: Span) -> (expression: Expression<'a>)
    ensures
        expression == spec_invalid_expression(span),
{
    typed(ExpressionKind::Unit, Type::Unit, span)
}

/// The forms that a typed expression can take.
#[allow(inconsistent_fields)]
pub enum ExpressionKind<'a> {
    Integer(u128),
    Float32(u32),
    Float64(u64),
    Boolean(bool),
    Character(char),
    String(Text<'a>),
    CString(Text<'a>),
    Unit,
    Local(LocalId),
    Static(StaticId),
    Function(FunctionId),
    Tuple(List<Expression<'a>>),
    Array(List<Expression<'a>>),
    ArrayRepeat { value: Expression<'a>, length: u64 },
    Struct(List<Expression<'a>>),
    Enum { variant: u32, fields: List<Expression<'a>> },
    Field { base: Expression<'a>, field: u32 },
    Index { base: Expression<'a>, index: Expression<'a> },
    Unary { operator: UnaryOperator, operand: Expression<'a> },
    Binary { operator: BinaryOperator, left: Expression<'a>, right: Expression<'a> },
    Borrow { place: Place<'a>, mutable: bool, slice_length: Option<u64> },
    Dereference(Expression<'a>),
    Call { function: FunctionId, arguments: List<Expression<'a>> },
    IndirectCall { callee: Expression<'a>, arguments: List<Expression<'a>> },
    If { condition: Expression<'a>, then_branch: Block<'a>, else_branch: Option<Expression<'a>> },
    Match { scrutinee: Expression<'a>, arms: List<MatchArm<'a>> },
    Loop(Block<'a>),
    Block(Block<'a>),
    Assign { target: Place<'a>, operator: AssignmentOperator, value: Expression<'a> },
    Cast { value: Expression<'a>, target: Type },
    Try {
        value: Expression<'a>,
        success_variant: u32,
        output_type: Type,
        failure_variant: u32,
        failure_type: Option<Type>,
        return_type: Type,
    },
    Panic { message: Expression<'a> },
    Assert { mode: AssertionMode, condition: Expression<'a>, message: Expression<'a> },
    IntegerAddition {
        mode: IntegerAdditionMode,
        left: Expression<'a>,
        right: Expression<'a>,
    },
    StringBytes(Expression<'a>),
    StringChars(Expression<'a>),
    StringData(Expression<'a>),
    StringLength(Expression<'a>),
    StringFromParts { data: Expression<'a>, length: Expression<'a> },
    CharsNext { iterator: Place<'a> },
    FormatPush { function: FunctionId, calls: List<Expression<'a>>, success_variant: u32 },
    SliceLength(Expression<'a>),
    SliceGet {
        slice: Expression<'a>,
        index: Expression<'a>,
        reference_type: Type,
        mutable: bool,
    },
    SliceFromParts { data: Expression<'a>, length: Expression<'a> },
    TypeStride { target: Type },
    HashValue { value: Expression<'a>, seed: Expression<'a> },
    AllocateBytes {
        allocator: Expression<'a>,
        length: Expression<'a>,
        allocation_type: Type,
        error_type: Type,
        error_variant: u32,
    },
    DeallocateBytes { allocator: Expression<'a>, data: Expression<'a>, length: Expression<'a> },
    ThreadSpawn {
        callback: Expression<'a>,
        argument: Expression<'a>,
        output_type: Type,
        error_type: Type,
        spawn_failed_variant: u32,
    },
    ThreadScope {
        callback: Expression<'a>,
        argument: Expression<'a>,
        output_type: Type,
        error_type: Type,
        spawn_failed_variant: u32,
        invalid_handle_variant: u32,
        worker_panicked_variant: u32,
        result_mismatch_variant: u32,
    },
    ThreadJoin {
        handle: Expression<'a>,
        output_type: Type,
        error_type: Type,
        invalid_handle_variant: u32,
        worker_panicked_variant: u32,
        result_mismatch_variant: u32,
    },
    SynchronizationCreate { value: Expression<'a>, synchronization: SynchronizationKind },
    SynchronizationLoad {
        handle: Expression<'a>,
        value_type: Type,
        synchronization: SynchronizationKind,
    },
    SynchronizationReplace {
        handle: Expression<'a>,
        value: Expression<'a>,
        synchronization: SynchronizationKind,
    },
    ThreadLocalStore { handle: Expression<'a>, value: Expression<'a> },
    ChannelCreate { probe: Expression<'a>, capacity: Expression<'a>, element_type: Type },
    ChannelSend {
        handle: Expression<'a>,
        value: Expression<'a>,
        error_type: Type,
        closed_variant: u32,
    },
    ChannelReceive {
        handle: Expression<'a>,
        value_type: Type,
        error_type: Type,
        closed_variant: u32,
    },
    JobSubmit {
        pool: Expression<'a>,
        callback: Expression<'a>,
        argument: Expression<'a>,
        output_type: Type,
        error_type: Type,
        submit_failed_variant: u32,
    },
    JobWait {
        handle: Expression<'a>,
        output_type: Type,
        error_type: Type,
        invalid_handle_variant: u32,
        worker_panicked_variant: u32,
        result_mismatch_variant: u32,
    },
    ParallelFor {
        pool: Expression<'a>,
        slice: Expression<'a>,
        chunk_type: Type,
        array_length: Option<u64>,
        callback: Expression<'a>,
        minimum_chunk: Expression<'a>,
        error_type: Type,
        submit_failed_variant: u32,
        worker_panicked_variant: u32,
        result_mismatch_variant: u32,
    },
}

/// Something that can be assigned to or borrowed.
pub struct Place<'a> {
    pub kind: PlaceKind<'a>,
    pub ty: Type,
    pub span: Span,
}

pub enum PlaceKind<'a> {
    Local(LocalId),
    Static(StaticId),
    Field { base: Expression<'a>, field: u32 },
    Index { base: Expression<'a>, index: Expression<'a> },
    Dereference { pointer: Expression<'a> },
}

pub struct Block<'a> {
    pub statements: List<Statement<'a>>,
    pub tail: Option<Expression<'a>>,
    pub ty: Type,
    pub span: Span,
}

impl<'a> Block<'a> {
    pub fn share(&self) -> (shared: Self)
        ensures
            shared == *self,
    {
        Block {
            statements: self.statements.share(),
            tail: match &self.tail {
                Some(tail) => Some(tail.share()),
                None => None,
            },
            ty: self.ty,
            span: self.span,
        }
    }
}

#[allow(inconsistent_fields)]
pub enum Statement<'a> {
    Let {
        local: LocalId,
        name: &'a str,
        mutable: bool,
        ty: Type,
        initializer: Expression<'a>,
        span: Span,
    },
    Expression(Expression<'a>),
    Defer { action: Expression<'a>, span: Span },
    Return { value: Option<Expression<'a>>, span: Span },
    While { condition: Expression<'a>, body: Block<'a>, span: Span },
    For {
        pattern: Pattern<'a>,
        element_type: Type,
        iteration: ForIteration,
        iterable: Expression<'a>,
        body: Block<'a>,
        span: Span,
    },
    Break { value: Option<Expression<'a>>, span: Span },
    Continue(Span),
}

pub struct MatchArm<'a> {
    pub pattern: Pattern<'a>,
    pub guard: Option<Expression<'a>>,
    pub body: Expression<'a>,
    pub span: Span,
}

/// A pattern with the type of the values that it is held against.
pub struct Pattern<'a> {
    pub kind: PatternKind<'a>,
    pub ty: Type,
    pub span: Span,
}

#[allow(inconsistent_fields)]
pub enum PatternKind<'a> {
    Wildcard,
    Binding { local: LocalId, name: &'a str, mutable: bool },
    Integer(u128),
    Float32(u32),
    Float64(u64),
    Character(char),
    Boolean(bool),
    Tuple(List<Pattern<'a>>),
    Enum { variant: u32, fields: List<Pattern<'a>> },
}

pub struct Parameter<'a> {
    pub local: LocalId,
    pub name: &'a str,
    pub ty: Type,
    pub span: Span,
}

#[derive(Clone, Copy, PartialEq, Eq, Structural, Debug)]
pub struct FunctionAttributes {
    pub inline: bool,
    pub must_use: bool,
    pub test: bool,
}

pub struct Function<'a> {
    pub id: FunctionId,
    pub name: Text<'a>,
    pub is_public: bool,
    pub attributes: FunctionAttributes,
    pub parameters: List<Parameter<'a>>,
    pub return_type: Type,
    pub body: Block<'a>,
    pub span: Span,
}

pub struct ForeignFunction<'a> {
    pub id: FunctionId,
    pub name: &'a str,
    pub symbol: &'a str,
    pub link: Option<&'a str>,
    pub is_public: bool,
    pub abi: &'a str,
    pub parameters: List<Parameter<'a>>,
    pub return_type: Type,
    pub span: Span,
}

pub struct Static<'a> {
    pub id: StaticId,
    pub name: &'a str,
    pub is_public: bool,
    pub mutable: bool,
    pub ty: Type,
    pub initializer: Expression<'a>,
    pub documentation: Option<Text<'a>>,
    pub span: Span,
}

/// A program in which every name is resolved and every type is checked.
pub struct Program<'a> {
    pub types: Vec<TypeDefinition<'a>>,
    pub functions: List<Function<'a>>,
    pub foreign_functions: List<ForeignFunction<'a>>,
    pub statics: List<Static<'a>>,
    pub entry: Option<FunctionId>,
    pub tests: List<FunctionId>,
}

/// Whether a pattern matches every value of its type.
pub open spec fn irrefutable(pattern: Pattern) -> bool
    decreases pattern,
{
    match pattern.kind {
        PatternKind::Wildcard => true,
        PatternKind::Binding { .. } => true,
        PatternKind::Tuple(elements) => all_irrefutable(elements),
        _ => false,
    }
}

/// Whether every pattern of a list matches every value of its type.
pub open spec fn all_irrefutable(patterns: List<Pattern>) -> bool
    decreases patterns,
{
    match patterns {
        List::Nil => true,
        List::Cons(node) => irrefutable(node.head) && all_irrefutable(node.tail),
    }
}

/// Whether a pattern matches every value of its type.
pub fn pattern_is_irrefutable(pattern: &Pattern) -> (answer: bool)
    ensures
        answer == irrefutable(*pattern),
    decreases *pattern,
{
    match &pattern.kind {
        PatternKind::Wildcard => true,
        PatternKind::Binding { .. } => true,
        PatternKind::Tuple(elements) => patterns_are_irrefutable(elements),
        _ => false,
    }
}

/// Whether every pattern of a list matches every value of its type.
pub fn patterns_are_irrefutable(patterns: &List<Pattern>) -> (answer: bool)
    ensures
        answer == all_irrefutable(*patterns),
    decreases *patterns,
{
    let mut ahead: &List<Pattern> = patterns;
    loop
        invariant
            all_irrefutable(*patterns) == all_irrefutable(*ahead),
            *ahead == *patterns || decreases_to!(*patterns => *ahead),
        decreases *ahead,
    {
        match ahead {
            List::Nil => {
                return true;
            },
            List::Cons(node) => {
                if !pattern_is_irrefutable(&node.head) {
                    return false;
                }
                ahead = &node.tail;
            },
        }
    }
}

} // verus!

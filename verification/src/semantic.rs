//! A model of the analysed code, holding as plain values what the lints
//! read of the compiler's semantic model: expressions, statements,
//! patterns and what is known of called functions.
use vstd::prelude::*;

verus! {

/// A variable that an expression reads.
#[derive(Debug, Clone, PartialEq, Eq, Structural)]
pub enum VarRef {
    /// A local variable, by its identifier.
    Local(u64),
    /// A parameter or another non-local variable.
    NonLocal,
}

/// A variable bound by a pattern.
#[derive(Debug)]
pub struct PatternVariable {
    /// Identifier of the local variable it binds.
    pub var_id: u64,
    pub name: String,
    /// Short name of the variable's type.
    pub ty_short_name: String,
    /// Whether the compiler reports the variable as unused.
    pub unused: bool,
}

/// A pattern.
#[derive(Debug)]
pub enum Pattern {
    /// An enum variant, by its full path, with its inner pattern if any.
    EnumVariant { variant: String, inner: Option<Box<Pattern>> },
    Variable(PatternVariable),
    Literal,
    StringLiteral,
    Other,
}

/// Which trait function an impl function call resolves to.
#[derive(Debug, Clone, Copy, PartialEq, Eq, Structural)]
pub enum TraitFunction {
    PartialOrdGe,
    PartialOrdLe,
    Add,
    Sub,
    Into,
    TryInto,
    Other,
}

/// A function call with what is known of the called function.
#[derive(Debug)]
pub struct FunctionCall {
    /// Full path of the called function.
    pub full_path: String,
    /// Full path of the trait function it implements (empty if none).
    pub trait_name: String,
    /// Whether the function is an impl function.
    pub is_impl: bool,
    /// The trait function that the impl function implements.
    pub trait_function: TraitFunction,
    /// Name of the function.
    pub function_name: String,
    /// Full path of the concrete impl, when it has one (empty otherwise).
    pub impl_path: String,
    /// Whether the concrete impl lies in the integer module of the corelib.
    pub impl_in_corelib_integer: bool,
    /// Whether the concrete impl is the corelib's `TCopyClone`.
    pub impl_is_t_copy_clone: bool,
    /// Whether the function is the corelib's extern `panic`.
    pub is_extern_panic: bool,
    /// Whether the function is the corelib's `panic_with_byte_array`.
    pub is_panic_with_byte_array: bool,
    /// Whether the call's type is the never type.
    pub returns_never: bool,
    /// The name under which the compiler prints the called function.
    pub debug_name: String,
    pub args: Vec<CallArg>,
    /// The type of each argument.
    pub arg_tys: Vec<Ty>,
}

/// An argument of a call.
#[derive(Debug)]
pub enum CallArg {
    Value(Expr),
    /// A `ref` argument.
    Reference,
}

/// A block: statements and an optional tail expression.
#[derive(Debug)]
pub struct Block {
    pub statements: Vec<Statement>,
    pub tail: Option<Box<Expr>>,
}

/// A statement.
#[derive(Debug)]
pub enum Statement {
    Expr(Expr),
    Let { pattern: Pattern, expr: Expr },
    /// `break`, with its value and whether that value is of unit type.
    Break { value: Option<Expr>, value_is_unit: bool },
    Other,
}

/// A condition of an `if`, with the source text of its expression.
#[derive(Debug)]
pub enum Condition {
    BoolExpr { expr: Expr, text: String },
    Let { expr: Expr, patterns: Vec<Pattern>, text: String },
}

/// An `if` expression.
#[derive(Debug)]
pub struct ExprIf {
    pub conditions: Vec<Condition>,
    pub if_block: Box<Expr>,
    pub else_block: Option<Box<Expr>>,
}

/// An arm of a `match`.
#[derive(Debug)]
pub struct MatchArm {
    pub patterns: Vec<Pattern>,
    pub expression: Expr,
    /// Source text of the arm's expression without surrounding trivia.
    pub expression_text: String,
    /// Number of statements of the arm's expression when it is written as
    /// a block (zero otherwise).
    pub syntax_statement_count: usize,
}

/// A `match` expression.
#[derive(Debug)]
pub struct ExprMatch {
    pub matched: Box<Expr>,
    pub arms: Vec<MatchArm>,
}

/// An expression.
#[derive(Debug)]
pub enum Expr {
    Var(VarRef),
    /// An integer literal, with its value when it fits in `i128`, and the
    /// full name of its type.
    Literal { value: Option<i128>, ty: String },
    StringLiteral(String),
    FunctionCall(FunctionCall),
    Block(Block),
    If(ExprIf),
    Match(ExprMatch),
    /// A `loop`, with its body.
    Loop(Box<Expr>),
    /// An enum variant built from a value, with the variant's full path.
    EnumVariantCtor { variant: String, value: Box<Expr> },
    Tuple(Vec<Expr>),
    /// A fixed-size array written `[value; size]`.
    FixedSizeArrayRepeat(Box<Expr>),
    /// A fixed-size array written item by item.
    FixedSizeArrayItems(Vec<Expr>),
    Snapshot(Box<Expr>),
    /// A desnap `*x`.
    Desnap(Box<Expr>),
    /// A struct built from its members' values.
    StructCtor(Vec<Expr>),
    /// `&&` or `||`.
    LogicalOperator { lhs: Box<Expr>, rhs: Box<Expr> },
    /// A member access; whether it goes through `Deref`.
    MemberAccess { via_deref: bool },
    /// A `while`, with its condition and its body.
    While { condition: Box<Condition>, body: Box<Expr> },
    For(Box<Expr>),
    Other,
}

/// A type, as far as the lints read it.
#[derive(Debug)]
pub enum Ty {
    /// A concrete type: the full path of its generic type and its generic
    /// arguments.
    Concrete { path: String, args: Vec<GenericArg> },
    /// A snapshot `@T`.
    Snapshot(Box<Ty>),
    Other,
}

/// A generic argument of a type.
#[derive(Debug)]
pub enum GenericArg {
    Type(Ty),
    Other,
}

} // verus!

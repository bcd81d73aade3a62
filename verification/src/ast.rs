//! The typed intermediate representation of a function body: types, binding
//! targets, expressions, statements and functions.
//!
//! Names are interned symbols and every leaf is plain copyable data, so the
//! only heap structure in a tree is the tree itself.

use vstd::prelude::*;

verus! {

/// A span of source text: a file and a byte range in it.
#[derive(Clone, Copy, Debug, PartialEq, Eq, Structural)]
pub struct Loc {
    pub file: u64,
    pub start: u32,
    pub end: u32,
}

/// An interned name.
#[derive(Clone, Copy, Debug, PartialEq, Eq, Structural)]
pub struct Symbol {
    pub id: u64,
}

/// A local variable, as written at one place in the source.
#[derive(Clone, Copy, Debug, PartialEq, Eq, Structural)]
pub struct Var {
    pub loc: Loc,
    pub name: Symbol,
}

/// A module, named by the address it is published under and its own name.
#[derive(Clone, Copy, Debug, PartialEq, Eq, Structural)]
pub struct ModuleIdent {
    pub loc: Loc,
    pub address: u64,
    pub module: Symbol,
}

/// The set of abilities a type has, one bit per ability.
#[derive(Clone, Copy, Debug, PartialEq, Eq, Structural)]
pub struct AbilitySet {
    pub bits: u8,
}

/// A type parameter of the enclosing function or struct.
#[derive(Clone, Copy, Debug, PartialEq, Eq, Structural)]
pub struct TParam {
    pub id: u64,
    pub name: Symbol,
    pub abilities: AbilitySet,
}

/// An inference variable that was never resolved.
#[derive(Clone, Copy, Debug, PartialEq, Eq, Structural)]
pub struct TVar {
    pub id: u64,
}

#[derive(Clone, Copy, Debug, PartialEq, Eq, Structural)]
pub enum BuiltinTypeName {
    Address,
    Signer,
    U8,
    U16,
    U32,
    U64,
    U128,
    U256,
    Bool,
    Vector,
    Fun,
}

/// The head of an applied type.
#[derive(Clone, Copy, Debug, PartialEq, Eq, Structural)]
pub enum TypeName {
    /// A tuple of the given arity.
    Multiple(usize),
    Builtin(BuiltinTypeName),
    ModuleType(ModuleIdent, Symbol),
}

/// A type node. Only `Ref` and `Apply` have type nodes below them.
#[derive(Debug, PartialEq, Eq)]
pub struct Type {
    pub loc: Loc,
    pub value: Type_,
}

#[derive(Debug, PartialEq, Eq)]
pub enum Type_ {
    Unit,
    /// A reference, mutable if the flag is set.
    Ref(bool, Box<Type>),
    Param(TParam),
    /// A head applied to type arguments, with the abilities inferred for the
    /// whole, if they have been.
    Apply(Option<AbilitySet>, TypeName, Vec<Type>),
    Var(TVar),
    Anything,
    UnresolvedError,
}

/// One field of a destructuring target: the field's type and where its value
/// goes.
#[derive(Debug, PartialEq, Eq)]
pub struct FieldBinding {
    pub field: Symbol,
    pub ty: Type,
    pub target: LValue,
}

/// A binding target.
#[derive(Debug, PartialEq, Eq)]
pub struct LValue {
    pub loc: Loc,
    pub value: LValue_,
}

#[derive(Debug, PartialEq, Eq)]
pub enum LValue_ {
    Ignore,
    /// A variable, with the type ascribed to it if there is one.
    Var(Var, Option<Box<Type>>),
    /// A struct taken apart by value: type arguments, then fields in
    /// declaration order.
    Unpack(ModuleIdent, Symbol, Vec<Type>, Vec<FieldBinding>),
    /// A struct taken apart through a reference, mutable if the flag is set.
    BorrowUnpack(bool, ModuleIdent, Symbol, Vec<Type>, Vec<FieldBinding>),
}

/// A pattern: binding targets in order.
#[derive(Debug, PartialEq, Eq)]
pub struct LValueList {
    pub loc: Loc,
    pub value: Vec<LValue>,
}

#[derive(Clone, Copy, Debug, PartialEq, Eq, Structural)]
pub enum Value {
    Address(u64),
    U8(u8),
    U16(u16),
    U32(u32),
    U64(u64),
    U128(u128),
    Bool(bool),
}

#[derive(Clone, Copy, Debug, PartialEq, Eq, Structural)]
pub enum UnaryOp {
    Not,
}

#[derive(Clone, Copy, Debug, PartialEq, Eq, Structural)]
pub enum BinOp {
    Add,
    Sub,
    Mul,
    Mod,
    Div,
    BitOr,
    BitAnd,
    Xor,
    Shl,
    Shr,
    And,
    Or,
    Eq,
    Neq,
    Lt,
    Gt,
    Le,
    Ge,
}

#[derive(Clone, Copy, Debug, PartialEq, Eq, Structural)]
pub enum BuiltinFunction {
    MoveTo,
    MoveFrom,
    BorrowGlobal(bool),
    Exists,
    Freeze,
    Assert(bool),
}

/// A call of a module's function. The arguments are one expression, a list
/// where the function takes several.
#[derive(Debug, PartialEq, Eq)]
pub struct ModuleCall {
    pub module: ModuleIdent,
    pub name: Symbol,
    pub type_arguments: Vec<Type>,
    pub arguments: Exp,
    pub parameter_types: Vec<Type>,
}

/// One field of a struct construction: the field's type and its initializer.
#[derive(Debug, PartialEq, Eq)]
pub struct FieldInit {
    pub field: Symbol,
    pub ty: Type,
    pub init: Exp,
}

/// One item of an expression list.
#[derive(Debug, PartialEq, Eq)]
pub enum ExpListItem {
    /// One value, with its type.
    Single(Exp, Box<Type>),
    /// An expression that stands for several values, with their types.
    Splat(Loc, Exp, Vec<Type>),
}

/// An expression node: its inferred type, where it stands, and what it is.
#[derive(Debug, PartialEq, Eq)]
pub struct Exp {
    pub ty: Type,
    pub loc: Loc,
    pub value: UnannotatedExp_,
}

#[derive(Debug, PartialEq, Eq)]
pub enum UnannotatedExp_ {
    Unit { trailing: bool },
    Value(Value),
    Move { from_user: bool, var: Var },
    Copy { from_user: bool, var: Var },
    Use(Var),
    Constant(Option<ModuleIdent>, Symbol),
    ModuleCall(Box<ModuleCall>),
    VarCall(Var, Box<Exp>),
    Builtin(BuiltinFunction, Box<Exp>),
    Vector(Loc, usize, Box<Type>, Box<Exp>),
    Lambda(LValueList, Box<Exp>),
    IfElse(Box<Exp>, Box<Exp>, Box<Exp>),
    While(Box<Exp>, Box<Exp>),
    Loop { has_break: bool, body: Box<Exp> },
    Block(Sequence),
    Assign(LValueList, Vec<Option<Type>>, Box<Exp>),
    Mutate(Box<Exp>, Box<Exp>),
    Return(Box<Exp>),
    Abort(Box<Exp>),
    Break,
    Continue,
    Dereference(Box<Exp>),
    UnaryExp(UnaryOp, Box<Exp>),
    BinopExp(Box<Exp>, BinOp, Box<Type>, Box<Exp>),
    Pack(ModuleIdent, Symbol, Vec<Type>, Vec<FieldInit>),
    ExpList(Vec<ExpListItem>),
    Borrow(bool, Box<Exp>, Symbol),
    TempBorrow(bool, Box<Exp>),
    BorrowLocal(bool, Var),
    Cast(Box<Exp>, Box<Type>),
    Annotate(Box<Exp>, Box<Type>),
    /// A specification block, by its number.
    Spec(u64),
    UnresolvedError,
}

/// A statement.
#[derive(Debug, PartialEq, Eq)]
pub struct SequenceItem {
    pub loc: Loc,
    pub value: SequenceItem_,
}

#[derive(Debug, PartialEq, Eq)]
pub enum SequenceItem_ {
    /// An expression evaluated for its effect or as the block's value.
    Exp(Box<Exp>),
    /// A pattern declared without a value.
    Declare(LValueList),
    /// A pattern bound to a value, with the types expected of the value.
    Bind(LValueList, Vec<Option<Type>>, Box<Exp>),
}

/// The body of a block: statements in source order.
pub type Sequence = Vec<SequenceItem>;

#[derive(Debug, PartialEq, Eq)]
pub struct FunctionSignature {
    pub parameters: Vec<(Var, Type)>,
    pub return_type: Type,
}

#[derive(Debug, PartialEq, Eq)]
pub enum FunctionBody_ {
    Defined(Sequence),
    Native,
}

#[derive(Debug, PartialEq, Eq)]
pub struct FunctionBody {
    pub loc: Loc,
    pub value: FunctionBody_,
}

#[derive(Debug, PartialEq, Eq)]
pub struct Function {
    pub signature: FunctionSignature,
    pub body: FunctionBody,
}

} // verus!

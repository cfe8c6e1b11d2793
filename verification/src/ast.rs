//! Abstract syntax tree for a minimal imperative expression language.
//!
//! The tree is purely structural: each node owns its children, leaves carry
//! plain data, and two trees are equal exactly when their variant tags and all
//! owned fields are recursively equal (the derived `PartialEq`). The derived
//! `Ord` gives the total order used for deterministic test output: variant tag
//! order first, then field order.
use vstd::prelude::*;

verus! {

/// One node of the tree: a closed set of variants, one per language construct.
#[derive(Debug, PartialEq, Eq, PartialOrd, Ord)]
pub enum Ast {
    Add(Add),
    Assign(Assign),
    Block(Block),
    Call(Call),
    Divide(Divide),
    Equal(Equal),
    Function(Function),
    Id(Id),
    If(If),
    Multiply(Multiply),
    Not(Not),
    NotEqual(NotEqual),
    Number(Number),
    Return(Return),
    Subtract(Subtract),
    Var(Var),
    While(While),
}

/// Addition: owns its two operands.
#[derive(Debug, PartialEq, Eq, PartialOrd, Ord)]
pub struct Add {
    pub left: Box<Ast>,
    pub right: Box<Ast>,
}

/// Assignment of a value to an already-declared name.
#[derive(Debug, PartialEq, Eq, PartialOrd, Ord)]
pub struct Assign {
    pub name: String,
    pub value: Box<Ast>,
}

/// A block: an ordered sequence of statements.
#[derive(Debug, PartialEq, Eq, PartialOrd, Ord)]
pub struct Block {
    pub statements: Vec<Ast>,
}

/// A call: a callee name and an ordered sequence of arguments.
#[derive(Debug, PartialEq, Eq, PartialOrd, Ord)]
pub struct Call {
    pub callee: String,
    pub args: Vec<Ast>,
}

/// Division: owns its two operands.
#[derive(Debug, PartialEq, Eq, PartialOrd, Ord)]
pub struct Divide {
    pub left: Box<Ast>,
    pub right: Box<Ast>,
}

/// Equality comparison: owns its two operands.
#[derive(Debug, PartialEq, Eq, PartialOrd, Ord)]
pub struct Equal {
    pub left: Box<Ast>,
    pub right: Box<Ast>,
}

/// A function definition: a name, ordered parameter nodes, and one body node.
#[derive(Debug, PartialEq, Eq, PartialOrd, Ord)]
pub struct Function {
    pub name: String,
    pub parameters: Vec<Ast>,
    pub body: Box<Ast>,
}

/// A name reference.
#[derive(Clone, Debug, PartialEq, Eq, PartialOrd, Ord)]
pub struct Id {
    pub value: String,
}

/// A conditional with exactly three children; an "if" without an "else" is
/// modelled by an explicit empty block as the alternative.
#[derive(Debug, PartialEq, Eq, PartialOrd, Ord)]
pub struct If {
    pub conditional: Box<Ast>,
    pub consequence: Box<Ast>,
    pub alternative: Box<Ast>,
}

/// Multiplication: owns its two operands.
#[derive(Debug, PartialEq, Eq, PartialOrd, Ord)]
pub struct Multiply {
    pub left: Box<Ast>,
    pub right: Box<Ast>,
}

/// Logical negation of a single term.
#[derive(Debug, PartialEq, Eq, PartialOrd, Ord)]
pub struct Not {
    pub term: Box<Ast>,
}

/// Inequality comparison: owns its two operands.
#[derive(Debug, PartialEq, Eq, PartialOrd, Ord)]
pub struct NotEqual {
    pub left: Box<Ast>,
    pub right: Box<Ast>,
}

/// A numeric literal.
#[derive(Clone, Copy, Debug, Default, PartialEq, Eq, PartialOrd, Ord)]
pub struct Number {
    pub value: i64,
}

/// A return statement: owns the returned term.
#[derive(Debug, PartialEq, Eq, PartialOrd, Ord)]
pub struct Return {
    pub term: Box<Ast>,
}

/// Subtraction: owns its two operands.
#[derive(Debug, PartialEq, Eq, PartialOrd, Ord)]
pub struct Subtract {
    pub left: Box<Ast>,
    pub right: Box<Ast>,
}

/// A variable declaration: a name and its initial value.
#[derive(Debug, PartialEq, Eq, PartialOrd, Ord)]
pub struct Var {
    pub name: String,
    pub value: Box<Ast>,
}

/// A while loop: a condition and a body.
#[derive(Debug, PartialEq, Eq, PartialOrd, Ord)]
pub struct While {
    pub conditional: Box<Ast>,
    pub body: Box<Ast>,
}

} // verus!

use vstd::prelude::*;
use crate::types::{ArithOp, CompOp, LogicOp};

verus! {

/// A literal with its source text.
#[derive(Clone, Debug, PartialEq, Eq)]
pub enum Literal {
    Str(String),
    Number(String),
    Bool(bool),
    /// A by-option selector such as `ByOption.Text`.
    ByOption(String),
}

/// A name used as a value.
#[derive(Clone, Debug, PartialEq, Eq)]
pub enum MemberAccess {
    /// A variable: `name`.
    Plain(String),
    /// A value of a package: `pkg:name` (package, name).
    Qualified(String, String),
}

/// The callee of a call, in the shapes the grammar writes it.
#[derive(Clone, Debug, PartialEq, Eq)]
pub enum Callee {
    /// `name(..)`.
    Bare(String),
    /// `value:name(..)` (value, name).
    ValueQualified(String, String),
    /// `pkg:name(..)` (package, name).
    PackageQualified(String, String),
    /// `pkg:value:name(..)` (package, value, name).
    PackageValueQualified(String, String, String),
}

/// An expression as the grammar groups it. A chain holds its first operand
/// and each following operator with the operand to its right, in source
/// order; precedence is not yet applied.
#[derive(Debug, PartialEq, Eq)]
pub enum Expr {
    Literal(Literal),
    Member(MemberAccess),
    Call(Callee, Vec<Expr>),
    Arith(Box<Expr>, Vec<(ArithOp, Expr)>),
    Comp(Box<Expr>, Vec<(CompOp, Expr)>),
    Logic(Box<Expr>, Vec<(LogicOp, Expr)>),
}

/// A top-level statement.
#[derive(Debug, PartialEq, Eq)]
pub enum Statement {
    /// An expression evaluated for its effect.
    Expr(Expr),
    /// `var name = value;`
    VarDeclaration(String, Expr),
    /// `name = value;`
    VarAssignment(String, Expr),
    /// Raw target-language text, passed through unchecked.
    EscapeBlock(String),
    /// A node that is no statement; carries the name of its kind.
    Unrecognized(String),
}

} // verus!

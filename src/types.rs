use vstd::prelude::*;

verus! {

/// The static type of an expression.
#[derive(Clone, Copy, Debug, PartialEq, Eq, Structural)]
pub enum Type {
    Str,
    Number,
    Bool,
    /// Selector that picks how an element is matched (by text, by attribute, ...).
    ByOption,
    /// What the built-in actions return; no operation is defined on it.
    Void,
}

impl Type {
    /// The textual tag of the type, as the function catalog exports it.
    pub open spec fn spec_name(self) -> Seq<char> {
        match self {
            Type::Str => "string"@,
            Type::Number => "number"@,
            Type::Bool => "bool"@,
            Type::ByOption => "byoption"@,
            Type::Void => "void"@,
        }
    }

    /// The textual tag of the type, as the function catalog exports it.
    pub fn name(&self) -> (r: &'static str)
        ensures
            r@ == self.spec_name(),
    {
        match self {
            Type::Str => "string",
            Type::Number => "number",
            Type::Bool => "bool",
            Type::ByOption => "byoption",
            Type::Void => "void",
        }
    }
}

/// Arithmetic operators: `+ - / * % ^`.
#[derive(Clone, Copy, Debug, PartialEq, Eq, Structural)]
pub enum ArithOp {
    Add,
    Sub,
    Div,
    Mul,
    Mod,
    Pow,
}

/// Comparison operators: `!= == >= <= > <`.
#[derive(Clone, Copy, Debug, PartialEq, Eq, Structural)]
pub enum CompOp {
    Ne,
    Eq,
    Ge,
    Le,
    Gt,
    Lt,
}

/// Logical operators: `&& ||`.
#[derive(Clone, Copy, Debug, PartialEq, Eq, Structural)]
pub enum LogicOp {
    And,
    Or,
}

/// A binary operator of any of the three families.
#[derive(Clone, Copy, Debug, PartialEq, Eq, Structural)]
pub enum Operator {
    Arith(ArithOp),
    Comp(CompOp),
    Logic(LogicOp),
}

impl Operator {
    /// How tightly the operator binds within its own family; a higher
    /// value binds tighter.
    pub open spec fn spec_precedence(self) -> u8 {
        match self {
            Operator::Arith(op) => match op {
                ArithOp::Add | ArithOp::Sub => 1,
                ArithOp::Div | ArithOp::Mul | ArithOp::Mod => 2,
                ArithOp::Pow => 3,
            },
            Operator::Comp(op) => match op {
                CompOp::Ne | CompOp::Eq => 1,
                CompOp::Ge | CompOp::Le => 2,
                CompOp::Gt | CompOp::Lt => 3,
            },
            Operator::Logic(_) => 1,
        }
    }

    /// How tightly the operator binds within its own family.
    pub fn precedence(&self) -> (r: u8)
        ensures
            r == self.spec_precedence(),
    {
        match self {
            Operator::Arith(op) => match op {
                ArithOp::Add | ArithOp::Sub => 1,
                ArithOp::Div | ArithOp::Mul | ArithOp::Mod => 2,
                ArithOp::Pow => 3,
            },
            Operator::Comp(op) => match op {
                CompOp::Ne | CompOp::Eq => 1,
                CompOp::Ge | CompOp::Le => 2,
                CompOp::Gt | CompOp::Lt => 3,
            },
            Operator::Logic(_) => 1,
        }
    }
}

/// A language feature that the grammar accepts but the checker does not implement.
#[derive(Clone, Copy, Debug, PartialEq, Eq, Structural)]
pub enum Construct {
    /// `pkg:name` used as a value rather than called.
    QualifiedMember,
    /// A call without a package qualifier.
    LocalFunction,
    /// A call through a value, `pkg:value:name(..)` or `value:name(..)`.
    BuiltinValue,
}

/// Why a program was rejected.
#[derive(Clone, Debug, PartialEq, Eq)]
pub enum CheckError {
    /// The call names a package other than the built-in one.
    UnsupportedPackage(String),
    /// No built-in function has this name: (name, package as written).
    UnknownFunction(String, String),
    /// Wrong number of arguments: (expected, supplied).
    ArityMismatch(usize, usize),
    /// Wrong argument type: (position, expected, supplied).
    ArgTypeMismatch(usize, Type, Type),
    /// The operator is not defined on the left operand's type.
    OperatorTypeIncompatible(Type, Operator),
    /// The two operands must have the same type and do not: (left, right).
    OperandTypeMismatch(Type, Type),
    /// A second declaration of the same variable.
    AlreadyDeclared(String),
    /// Use of a variable that was never declared.
    Undeclared(String),
    /// Assignment of a value of another type: (declared, assigned).
    AssignmentTypeMismatch(Type, Type),
    /// A top-level node that is not a statement; carries its kind.
    UnrecognizedStatement(String),
    /// A reserved language feature.
    UnsupportedConstruct(Construct),
}

impl CheckError {
    /// A copy of the error.
    pub fn duplicate(&self) -> (r: CheckError)
        ensures
            r == *self,
    {
        match self {
            CheckError::UnsupportedPackage(p) => CheckError::UnsupportedPackage(p.clone()),
            CheckError::UnknownFunction(n, p) => CheckError::UnknownFunction(n.clone(), p.clone()),
            CheckError::ArityMismatch(e, a) => CheckError::ArityMismatch(*e, *a),
            CheckError::ArgTypeMismatch(i, e, a) => CheckError::ArgTypeMismatch(*i, *e, *a),
            CheckError::OperatorTypeIncompatible(t, op) => CheckError::OperatorTypeIncompatible(*t, *op),
            CheckError::OperandTypeMismatch(l, r) => CheckError::OperandTypeMismatch(*l, *r),
            CheckError::AlreadyDeclared(n) => CheckError::AlreadyDeclared(n.clone()),
            CheckError::Undeclared(n) => CheckError::Undeclared(n.clone()),
            CheckError::AssignmentTypeMismatch(d, a) => CheckError::AssignmentTypeMismatch(*d, *a),
            CheckError::UnrecognizedStatement(k) => CheckError::UnrecognizedStatement(k.clone()),
            CheckError::UnsupportedConstruct(c) => CheckError::UnsupportedConstruct(*c),
        }
    }
}

/// A copy of a resolution outcome.
pub fn copy_result(r: &Result<Type, CheckError>) -> (o: Result<Type, CheckError>)
    ensures
        o == *r,
{
    match r {
        Ok(t) => Ok(*t),
        Err(e) => Err(e.duplicate()),
    }
}

} // verus!

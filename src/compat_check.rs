use vstd::prelude::*;
use crate::types::{ArithOp, CheckError, CompOp, Operator, Type};

verus! {

/// Which arithmetic operators a type supports: strings only concatenate,
/// numbers support all six.
pub open spec fn arith_op_allowed(t: Type, op: ArithOp) -> bool {
    match t {
        Type::Str => op == ArithOp::Add,
        Type::Number => true,
        _ => false,
    }
}

/// Which comparison operators a type supports: equality for strings and
/// booleans, every comparison for numbers.
pub open spec fn comp_op_allowed(t: Type, op: CompOp) -> bool {
    match t {
        Type::Str | Type::Bool => op == CompOp::Eq || op == CompOp::Ne,
        Type::Number => true,
        _ => false,
    }
}

/// Which right-hand types a left-hand type accepts in arithmetic: the same
/// type, and only for strings, numbers and booleans.
pub open spec fn arith_compatible(lhs: Type, rhs: Type) -> bool {
    match lhs {
        Type::Str | Type::Number | Type::Bool => rhs == lhs,
        _ => false,
    }
}

/// Checks that `rhs` may stand on the right of an arithmetic operator whose
/// left operand has type `lhs`.
pub fn check_type_arithmetic(lhs: Type, rhs: Type) -> (r: Result<(), CheckError>)
    ensures
        r == (if arith_compatible(lhs, rhs) {
            Ok(())
        } else {
            Err(CheckError::OperandTypeMismatch(lhs, rhs))
        }),
{
    let known = match lhs {
        Type::Str | Type::Number | Type::Bool => true,
        _ => false,
    };
    if known && lhs == rhs {
        Ok(())
    } else {
        Err(CheckError::OperandTypeMismatch(lhs, rhs))
    }
}

/// Checks that the arithmetic operator `optype` is defined on type `rhs`.
pub fn check_arithmetic_op(rhs: Type, optype: ArithOp) -> (r: Result<(), CheckError>)
    ensures
        r == (if arith_op_allowed(rhs, optype) {
            Ok(())
        } else {
            Err(CheckError::OperatorTypeIncompatible(rhs, Operator::Arith(optype)))
        }),
{
    let allowed = match rhs {
        Type::Str => match optype {
            ArithOp::Add => true,
            _ => false,
        },
        Type::Number => true,
        _ => false,
    };
    if allowed {
        Ok(())
    } else {
        Err(CheckError::OperatorTypeIncompatible(rhs, Operator::Arith(optype)))
    }
}

/// Checks that the comparison operator `op_type` is defined on type `rhs`.
pub fn check_comparation_op(rhs: Type, op_type: CompOp) -> (r: Result<(), CheckError>)
    ensures
        r == (if comp_op_allowed(rhs, op_type) {
            Ok(())
        } else {
            Err(CheckError::OperatorTypeIncompatible(rhs, Operator::Comp(op_type)))
        }),
{
    let allowed = match rhs {
        Type::Str | Type::Bool => match op_type {
            CompOp::Eq | CompOp::Ne => true,
            _ => false,
        },
        Type::Number => true,
        _ => false,
    };
    if allowed {
        Ok(())
    } else {
        Err(CheckError::OperatorTypeIncompatible(rhs, Operator::Comp(op_type)))
    }
}

} // verus!

use vstd::prelude::*;
use crate::compat_check::{arith_compatible, arith_op_allowed, check_arithmetic_op, check_comparation_op, check_type_arithmetic, comp_op_allowed};
use crate::types::{ArithOp, CheckError, CompOp, Operator, Type};

verus! {

/// Same check as [`check_type_arithmetic`].
pub fn check_type_arith_compat(lhs: Type, rhs: Type) -> (r: Result<(), CheckError>)
    ensures
        r == (if arith_compatible(lhs, rhs) {
            Ok(())
        } else {
            Err(CheckError::OperandTypeMismatch(lhs, rhs))
        }),
{
    check_type_arithmetic(lhs, rhs)
}

/// Same check as [`check_arithmetic_op`].
pub fn check_arith_op_compat(rhs: Type, optype: ArithOp) -> (r: Result<(), CheckError>)
    ensures
        r == (if arith_op_allowed(rhs, optype) {
            Ok(())
        } else {
            Err(CheckError::OperatorTypeIncompatible(rhs, Operator::Arith(optype)))
        }),
{
    check_arithmetic_op(rhs, optype)
}

/// Same check as [`check_comparation_op`].
pub fn check_comp_op_compat(rhs: Type, optype: CompOp) -> (r: Result<(), CheckError>)
    ensures
        r == (if comp_op_allowed(rhs, optype) {
            Ok(())
        } else {
            Err(CheckError::OperatorTypeIncompatible(rhs, Operator::Comp(optype)))
        }),
{
    check_comparation_op(rhs, optype)
}

/// Checks that the two sides of a comparison have the same type.
pub fn check_logic_comp_type(lhs: Type, rhs: Type) -> (r: Result<(), CheckError>)
    ensures
        r == (if lhs == rhs {
            Ok(())
        } else {
            Err(CheckError::OperandTypeMismatch(lhs, rhs))
        }),
{
    if lhs == rhs {
        Ok(())
    } else {
        Err(CheckError::OperandTypeMismatch(lhs, rhs))
    }
}

} // verus!

//! Subtraction: wrapping 64-bit subtraction on numbers.

use vstd::prelude::*;
use crate::data::Data;
use crate::operations::{apply_op, type_op, Operation};
use crate::types::Type;

verus! {

/// The result type of `Sub` on the given operand types.
pub fn typ(lhs: &Type, rhs: &Type) -> (r: Option<Type>)
    ensures
        r == type_op(Operation::Sub, *lhs, *rhs),
{
    match lhs {
        Type::Number => match rhs {
            Type::Number => Some(Type::Number),
            _ => None,
        },
        _ => None,
    }
}

/// The result value of `Sub` on the given operand values.
pub fn op(lhs: &Data, rhs: &Data) -> (r: Option<Data>)
    ensures
        match r {
            Some(d) => apply_op(Operation::Sub, lhs@, rhs@) == Some(d@),
            None => apply_op(Operation::Sub, lhs@, rhs@) is None,
        },
{
    match (lhs, rhs) {
        (Data::Number(a), Data::Number(b)) => Some(Data::Number(a.wrapping_sub(*b))),
        _ => None,
    }
}

} // verus!

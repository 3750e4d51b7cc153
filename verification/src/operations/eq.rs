//! Equality: structural comparison of two strings or two numbers.

use vstd::prelude::*;
use crate::data::Data;
use crate::operations::{apply_op, type_op, Operation};
use crate::types::Type;

verus! {

/// The result type of `Eq` on the given operand types.
pub fn typ(lhs: &Type, rhs: &Type) -> (r: Option<Type>)
    ensures
        r == type_op(Operation::Eq, *lhs, *rhs),
{
    match lhs {
        Type::String => match rhs {
            Type::String => Some(Type::Bool),
            _ => None,
        },
        Type::Number => match rhs {
            Type::Number => Some(Type::Bool),
            _ => None,
        },
        _ => None,
    }
}

/// The result value of `Eq` on the given operand values.
pub fn op(lhs: &Data, rhs: &Data) -> (r: Option<Data>)
    ensures
        match r {
            Some(d) => apply_op(Operation::Eq, lhs@, rhs@) == Some(d@),
            None => apply_op(Operation::Eq, lhs@, rhs@) is None,
        },
{
    match (lhs, rhs) {
        (Data::String(a), Data::String(b)) => Some(Data::Bool(*a == *b)),
        (Data::Number(a), Data::Number(b)) => Some(Data::Bool(*a == *b)),
        _ => None,
    }
}

} // verus!

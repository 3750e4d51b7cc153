//! Addition: concatenation on strings, wrapping 64-bit addition on numbers.

use vstd::prelude::*;
use vstd::string::StringExecFns;
use crate::data::Data;
use crate::operations::{apply_op, type_op, Operation};
use crate::types::Type;

verus! {

/// The result type of `Add` on the given operand types.
pub fn typ(lhs: &Type, rhs: &Type) -> (r: Option<Type>)
    ensures
        r == type_op(Operation::Add, *lhs, *rhs),
{
    match lhs {
        Type::String => match rhs {
            Type::String => Some(Type::String),
            _ => None,
        },
        Type::Number => match rhs {
            Type::Number => Some(Type::Number),
            _ => None,
        },
        _ => None,
    }
}

/// The result value of `Add` on the given operand values.
pub fn op(lhs: &Data, rhs: &Data) -> (r: Option<Data>)
    ensures
        match r {
            Some(d) => apply_op(Operation::Add, lhs@, rhs@) == Some(d@),
            None => apply_op(Operation::Add, lhs@, rhs@) is None,
        },
{
    match (lhs, rhs) {
        (Data::String(a), Data::String(b)) => Some(
            Data::String(a.clone().concat(b.as_str())),
        ),
        (Data::Number(a), Data::Number(b)) => Some(Data::Number(a.wrapping_add(*b))),
        _ => None,
    }
}

} // verus!

//! Division: 64-bit division truncating toward zero; dividing by zero yields
//! zero rather than trapping, and the one overflowing case wraps to itself.

use vstd::prelude::*;
use crate::data::Data;
use crate::operations::{apply_op, type_op, Operation};
use crate::types::Type;

verus! {

/// The result type of `Div` on the given operand types.
pub fn typ(lhs: &Type, rhs: &Type) -> (r: Option<Type>)
    ensures
        r == type_op(Operation::Div, *lhs, *rhs),
{
    match lhs {
        Type::Number => match rhs {
            Type::Number => Some(Type::Number),
            _ => None,
        },
        _ => None,
    }
}

/// The result value of `Div` on the given operand values.
pub fn op(lhs: &Data, rhs: &Data) -> (r: Option<Data>)
    ensures
        match r {
            Some(d) => apply_op(Operation::Div, lhs@, rhs@) == Some(d@),
            None => apply_op(Operation::Div, lhs@, rhs@) is None,
        },
{
    match (lhs, rhs) {
        (Data::Number(a), Data::Number(b)) => {
            let q: i64 = if *b == 0 {
                0
            } else {
                match a.checked_div(*b) {
                    Some(q) => q,
                    None => i64::MIN,
                }
            };
            Some(Data::Number(q))
        },
        _ => None,
    }
}

} // verus!

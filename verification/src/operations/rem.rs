//! Remainder: the 64-bit remainder matching truncating division; a zero
//! divisor yields zero rather than trapping.

use vstd::prelude::*;
use crate::data::Data;
use crate::operations::{apply_op, type_op, Operation};
use crate::types::Type;

verus! {

/// The result type of `Rem` on the given operand types.
pub fn typ(lhs: &Type, rhs: &Type) -> (r: Option<Type>)
    ensures
        r == type_op(Operation::Rem, *lhs, *rhs),
{
    match lhs {
        Type::Number => match rhs {
            Type::Number => Some(Type::Number),
            _ => None,
        },
        _ => None,
    }
}

/// The result value of `Rem` on the given operand values.
pub fn op(lhs: &Data, rhs: &Data) -> (r: Option<Data>)
    ensures
        match r {
            Some(d) => apply_op(Operation::Rem, lhs@, rhs@) == Some(d@),
            None => apply_op(Operation::Rem, lhs@, rhs@) is None,
        },
{
    match (lhs, rhs) {
        (Data::Number(a), Data::Number(b)) => {
            let m: i64 = if *b == 0 {
                0
            } else {
                match a.checked_rem(*b) {
                    Some(m) => m,
                    None => 0,
                }
            };
            Some(Data::Number(m))
        },
        _ => None,
    }
}

} // verus!

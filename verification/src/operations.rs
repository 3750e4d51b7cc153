//! The operator table: the single source of truth for every binary
//! operator's legality and meaning, shared by the type-checking pass and the
//! evaluator so the two never disagree.

use vstd::prelude::*;
use vstd::wrapping::i64_specs;
use crate::data::{Data, DataV};
use crate::errors::ParseErrKind;
use crate::types::Type;

pub mod add;
pub mod div;
pub mod eq;
pub mod gt;
pub mod gte;
pub mod lt;
pub mod lte;
pub mod mul;
pub mod rem;
pub mod sub;

verus! {

/// A binary operator of the language.
#[derive(Clone, Copy, PartialEq, Eq, Structural, Debug)]
pub enum Operation {
    Mul,
    Div,
    Rem,
    Add,
    Sub,
    Eq,
    Gt,
    Gte,
    Lt,
    Lte,
}

/// The static half of the operator table: the result type of `op` on operand
/// types `(lhs, rhs)`, or nothing where the combination is illegal.
///
/// `Add` joins two strings or two numbers; the other arithmetic operators
/// take numbers to a number; `Eq` compares two strings or two numbers; the
/// orderings compare numbers. Nothing else is accepted.
pub open spec fn type_op(op: Operation, lhs: Type, rhs: Type) -> Option<Type> {
    match op {
        Operation::Add => match (lhs, rhs) {
            (Type::String, Type::String) => Some(Type::String),
            (Type::Number, Type::Number) => Some(Type::Number),
            _ => None,
        },
        Operation::Sub | Operation::Mul | Operation::Div | Operation::Rem => match (lhs, rhs) {
            (Type::Number, Type::Number) => Some(Type::Number),
            _ => None,
        },
        Operation::Eq => match (lhs, rhs) {
            (Type::String, Type::String) => Some(Type::Bool),
            (Type::Number, Type::Number) => Some(Type::Bool),
            _ => None,
        },
        Operation::Gt | Operation::Gte | Operation::Lt | Operation::Lte => match (lhs, rhs) {
            (Type::Number, Type::Number) => Some(Type::Bool),
            _ => None,
        },
    }
}

/// The dynamic half of the operator table, over value views: the result of
/// `op` on operand values, or nothing where the combination is illegal.
/// Numbers use 64-bit wrapping arithmetic; division and remainder by zero
/// yield zero rather than trapping.
pub open spec fn apply_op(op: Operation, lhs: DataV, rhs: DataV) -> Option<DataV> {
    match op {
        Operation::Add => match (lhs, rhs) {
            (DataV::Str(a), DataV::Str(b)) => Some(DataV::Str(a + b)),
            (DataV::Num(a), DataV::Num(b)) => Some(DataV::Num(spec_wrap_add(a, b))),
            _ => None,
        },
        Operation::Sub => match (lhs, rhs) {
            (DataV::Num(a), DataV::Num(b)) => Some(DataV::Num(spec_wrap_sub(a, b))),
            _ => None,
        },
        Operation::Mul => match (lhs, rhs) {
            (DataV::Num(a), DataV::Num(b)) => Some(DataV::Num(spec_wrap_mul(a, b))),
            _ => None,
        },
        Operation::Div => match (lhs, rhs) {
            (DataV::Num(a), DataV::Num(b)) => Some(DataV::Num(spec_div(a, b))),
            _ => None,
        },
        Operation::Rem => match (lhs, rhs) {
            (DataV::Num(a), DataV::Num(b)) => Some(DataV::Num(spec_rem(a, b))),
            _ => None,
        },
        Operation::Eq => match (lhs, rhs) {
            (DataV::Str(a), DataV::Str(b)) => Some(DataV::Bool(a == b)),
            (DataV::Num(a), DataV::Num(b)) => Some(DataV::Bool(a == b)),
            _ => None,
        },
        Operation::Gt => match (lhs, rhs) {
            (DataV::Num(a), DataV::Num(b)) => Some(DataV::Bool(a > b)),
            _ => None,
        },
        Operation::Gte => match (lhs, rhs) {
            (DataV::Num(a), DataV::Num(b)) => Some(DataV::Bool(a >= b)),
            _ => None,
        },
        Operation::Lt => match (lhs, rhs) {
            (DataV::Num(a), DataV::Num(b)) => Some(DataV::Bool(a < b)),
            _ => None,
        },
        Operation::Lte => match (lhs, rhs) {
            (DataV::Num(a), DataV::Num(b)) => Some(DataV::Bool(a <= b)),
            _ => None,
        },
    }
}

/// 64-bit addition, wrapping on overflow.
pub open spec fn spec_wrap_add(a: i64, b: i64) -> i64 {
    i64_specs::wrapping_add(a, b)
}

/// 64-bit subtraction, wrapping on overflow.
pub open spec fn spec_wrap_sub(a: i64, b: i64) -> i64 {
    i64_specs::wrapping_sub(a, b)
}

/// 64-bit multiplication, wrapping on overflow.
pub open spec fn spec_wrap_mul(a: i64, b: i64) -> i64 {
    i64_specs::wrapping_mul(a, b)
}

/// 64-bit division, truncating toward zero as machine division rounds;
/// division by zero yields zero, and the one overflowing case wraps to
/// itself.
pub open spec fn spec_div(a: i64, b: i64) -> i64 {
    if b == 0 {
        0
    } else {
        match a.checked_div(b) {
            Some(q) => q,
            None => i64::MIN,
        }
    }
}

/// The remainder matching truncating division: the result takes the sign of
/// the dividend; a zero divisor yields zero, as does the one overflowing
/// case.
pub open spec fn spec_rem(a: i64, b: i64) -> i64 {
    if b == 0 {
        0
    } else {
        match a.checked_rem(b) {
            Some(r) => r,
            None => 0,
        }
    }
}

impl Operation {
    /// The result type of this operator on the given operand types, straight
    /// from the operator table; `None` marks an illegal combination.
    pub fn typ(&self, lhs: &Type, rhs: &Type) -> (r: Option<Type>)
        ensures
            r == type_op(*self, *lhs, *rhs),
    {
        match self {
            Operation::Add => add::typ(lhs, rhs),
            Operation::Sub => sub::typ(lhs, rhs),
            Operation::Mul => mul::typ(lhs, rhs),
            Operation::Div => div::typ(lhs, rhs),
            Operation::Rem => rem::typ(lhs, rhs),
            Operation::Eq => eq::typ(lhs, rhs),
            Operation::Gt => gt::typ(lhs, rhs),
            Operation::Gte => gte::typ(lhs, rhs),
            Operation::Lt => lt::typ(lhs, rhs),
            Operation::Lte => lte::typ(lhs, rhs),
        }
    }

    /// As `typ`, but an illegal combination comes back as the structured
    /// parse error the parser reports, naming the operator and both types.
    /// Succeeds if and only if the operator table accepts the combination.
    pub fn typ_checked(&self, lhs: &Type, rhs: &Type) -> (r: Result<Type, ParseErrKind>)
        ensures
            match r {
                Ok(t) => type_op(*self, *lhs, *rhs) == Some(t),
                Err(e) => type_op(*self, *lhs, *rhs) is None && (e matches
                    ParseErrKind::IncompatibleOperands(op, l, r2) && op == *self && l@
                    == lhs.spec_name() && r2@ == rhs.spec_name()),
            },
    {
        match self.typ(lhs, rhs) {
            Some(t) => Ok(t),
            None => {
                let lhs_name = match lhs.get_name() {
                    Some(n) => n,
                    None => String::new(),
                };
                let rhs_name = match rhs.get_name() {
                    Some(n) => n,
                    None => String::new(),
                };
                Err(ParseErrKind::IncompatibleOperands(*self, lhs_name, rhs_name))
            },
        }
    }

    /// The result value of this operator on the given operand values, straight
    /// from the operator table. `None` marks a combination the type-checking
    /// pass would have rejected — reaching it is the internal-consistency
    /// trap of the two-table design, and every caller turns it into an
    /// aborting fault rather than a user-facing error.
    pub fn op(&self, lhs: &Data, rhs: &Data) -> (r: Option<Data>)
        ensures
            match r {
                Some(d) => apply_op(*self, lhs@, rhs@) == Some(d@),
                None => apply_op(*self, lhs@, rhs@) is None,
            },
    {
        match self {
            Operation::Mul => mul::op(lhs, rhs),
            Operation::Div => div::op(lhs, rhs),
            Operation::Rem => rem::op(lhs, rhs),
            Operation::Add => add::op(lhs, rhs),
            Operation::Sub => sub::op(lhs, rhs),
            Operation::Eq => eq::op(lhs, rhs),
            Operation::Gt => gt::op(lhs, rhs),
            Operation::Gte => gte::op(lhs, rhs),
            Operation::Lt => lt::op(lhs, rhs),
            Operation::Lte => lte::op(lhs, rhs),
        }
    }
}

/// Whether a value (viewed abstractly) belongs to a static type. Only data
/// types classify values; function and placeholder types are matched by their
/// own kinds of value.
pub open spec fn value_has_type(v: DataV, t: Type) -> bool {
    match (v, t) {
        (DataV::Str(_), Type::String) => true,
        (DataV::Num(_), Type::Number) => true,
        (DataV::Bool(_), Type::Bool) => true,
        (DataV::Fn(_), Type::Fn(_)) => true,
        (DataV::Builtin(_), Type::BuiltinFn(_)) => true,
        (DataV::Nil, Type::TempNil) => true,
        _ => false,
    }
}

/// Operator type/value agreement: for every operand pair the static table
/// accepts, the dynamic table succeeds on every pair of values of those
/// types, and its result has exactly the type the static table predicted;
/// and for every pair the static table rejects, the dynamic table rejects
/// the corresponding values too.
pub proof fn lemma_operator_agreement(op: Operation, lt: Type, rt: Type, lv: DataV, rv: DataV)
    requires
        value_has_type(lv, lt),
        value_has_type(rv, rt),
    ensures
        type_op(op, lt, rt) matches Some(t) ==> apply_op(op, lv, rv) matches Some(v)
            && value_has_type(v, t),
        type_op(op, lt, rt) is None ==> apply_op(op, lv, rv) is None,
{
}

} // verus!

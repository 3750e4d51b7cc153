//! A literal expression: a value read directly off a token.

use vstd::prelude::*;
use crate::data::Data;
use crate::expressions::{pure_eval, Expr};
use crate::interpreter::{Fault, Interpreter};

verus! {

/// A literal: its value, owned by the node.
pub struct ExprLiteral {
    pub data: Data,
}

impl ExprLiteral {
    /// A literal node around a value.
    pub fn new(data: Data) -> (r: ExprLiteral)
        ensures
            r.data == data,
    {
        ExprLiteral { data }
    }

    /// Evaluates the literal: a clone of its value, with the evaluator's
    /// state untouched.
    pub fn eval(&self, interp: &mut Interpreter) -> (r: Result<Data, Fault>)
        ensures
            *final(interp) == *old(interp),
            r matches Ok(d) && pure_eval(Expr::Literal(*self), old(interp).memory@) == Some(
                d@,
            ),
    {
        Ok(self.data.clone())
    }
}

} // verus!

//! The unary-operator stub: tokenized, never yet produced by the parser.

use vstd::prelude::*;
use crate::expressions::Expr;

verus! {

/// The one unary operator the tokenizer knows.
pub enum UnaryOp {
    Bang,
}

/// A unary application. The parser never builds one yet; evaluating one is
/// an internal fault.
pub struct ExprUnary {
    pub op: UnaryOp,
    pub value: Box<Expr>,
}

} // verus!

//! A binary expression: an operator and its two operands.

use vstd::prelude::*;
use crate::data::Data;
use crate::errors::{map_err_token, ParseErr, ParseErrKind};
use crate::expressions::{is_pure, pure_eval, type_of_expr, Expr};
use crate::interpreter::{extends, Fault, Interpreter};
use crate::operations::{type_op, Operation};
use crate::parser::Parser;
use crate::tokenizer::token::Token;
use crate::tokenizer::token_type::spec_to_data;
use crate::types::Type;

verus! {

/// An application of a binary operator, built left-associatively.
pub struct ExprBinary {
    pub operation: Operation,
    pub lhs: Box<Expr>,
    pub rhs: Box<Expr>,
}

impl ExprBinary {
    /// A binary node from its operator and operands.
    pub fn new(operation: Operation, lhs: Box<Expr>, rhs: Box<Expr>) -> (r: ExprBinary)
        ensures
            r.operation == operation,
            r.lhs == lhs,
            r.rhs == rhs,
    {
        ExprBinary { operation, lhs, rhs }
    }

    /// The static type of the application: both operands typed, then the
    /// operator table consulted; an illegal pair is the table's error.
    pub fn typ(&self, parser: &Parser) -> (r: Result<Type, ParseErrKind>)
        ensures
            match r {
                Ok(t) => type_of_expr(Expr::Binary(*self), parser.sim_memory@) == Some(t),
                Err(_) => type_of_expr(Expr::Binary(*self), parser.sim_memory@) is None,
            },
        decreases *self,
    {
        let lhs_t = self.lhs.typ(parser)?;
        let rhs_t = self.rhs.typ(parser)?;
        match self.operation.typ_checked(&lhs_t, &rhs_t) {
            Ok(t) => Ok(t),
            Err(e) => Err(e),
        }
    }

    /// Evaluates the application: left operand, then right operand, then
    /// the operator table. An operand pair the table rejects — which the
    /// type-checking pass should have made unreachable — is a fault.
    pub fn eval(&self, interp: &mut Interpreter) -> (r: Result<Data, Fault>)
        requires
            old(interp).memory@.len() >= 1,
        ensures
            final(interp).memory@.len() == old(interp).memory@.len(),
            final(interp).fuel <= old(interp).fuel,
            extends(old(interp).output@, final(interp).output@),
            is_pure(Expr::Binary(*self)) ==> *final(interp) == *old(interp) && (match r {
                Ok(d) => pure_eval(Expr::Binary(*self), old(interp).memory@) == Some(d@),
                Err(_) => pure_eval(Expr::Binary(*self), old(interp).memory@) is None,
            }),
        decreases interp.fuel, *self,
    {
        let lhs = match self.lhs.eval(interp) {
            Ok(d) => d,
            Err(f) => {
                return Err(f);
            },
        };
        let rhs = match self.rhs.eval(interp) {
            Ok(d) => d,
            Err(f) => {
                return Err(f);
            },
        };
        match self.operation.op(&lhs, &rhs) {
            Some(d) => Ok(d),
            None => Err(Fault::IncompatibleOperands),
        }
    }
}

/// Folds one more operator application onto an already-parsed expression:
/// parses the right operand (one primary expression, so composition stays
/// left-associative), checks both sides against the operator table at once,
/// and rejects an illegal pair before anything can run.
pub fn parse(parser: &mut Parser, first_token: &Token, expr: Expr, operation: Operation) -> (r:
    Result<Expr, ParseErr>)
    requires
        old(parser).sim_memory@.len() >= 1,
    ensures
        final(parser).sim_memory@.len() == old(parser).sim_memory@.len(),
        final(parser).collector.spec_tokens() == old(parser).collector.spec_tokens(),
        final(parser).fuel <= old(parser).fuel,
        r is Ok ==> final(parser).fuel < old(parser).fuel,
        r matches Ok(e) ==> e matches Expr::Binary(b) && b.operation == operation && *b.lhs
            == expr,
        ({
            &&& old(parser).fuel >= 2
            &&& type_of_expr(expr, old(parser).sim_memory@) is Some
            &&& old(parser).collector.spec_pos() < old(parser).collector.spec_tokens().len()
            &&& spec_to_data(
                old(parser).collector.spec_tokens()[old(
                    parser,
                ).collector.spec_pos() as int].token,
            ) is Some
        }) ==> (match type_op(
            operation,
            type_of_expr(expr, old(parser).sim_memory@)->0,
            spec_to_data(
                old(parser).collector.spec_tokens()[old(
                    parser,
                ).collector.spec_pos() as int].token,
            )->0.spec_type(),
        ) {
            Some(_) => r is Ok,
            None => r matches Err(pe) && (pe.err_kind matches
                ParseErrKind::IncompatibleOperands(o, _, _) && o == operation) && pe.token_pos
                == first_token.token_pos,
        }),
    decreases parser.fuel,
{
    if !parser.consume_fuel() {
        return Err(parser.budget_err());
    }
    let expr_type = match map_err_token(expr.typ(parser), first_token) {
        Ok(t) => t,
        Err(e) => {
            return Err(e);
        },
    };
    let rhs_token = match parser.advance("expression") {
        Ok(t) => t,
        Err(e) => {
            return Err(e);
        },
    };
    let rhs = match Expr::parse_expr_side(parser, &rhs_token) {
        Ok(e) => e,
        Err(e) => {
            return Err(e);
        },
    };
    let rhs_type = match map_err_token(rhs.typ(parser), &rhs_token) {
        Ok(t) => t,
        Err(e) => {
            return Err(e);
        },
    };
    match operation.typ_checked(&expr_type, &rhs_type) {
        Ok(_) => {},
        Err(k) => {
            return Err(k.from_token(first_token));
        },
    }
    Ok(Expr::Binary(ExprBinary::new(operation, Box::new(expr), Box::new(rhs))))
}

} // verus!

//! An assignment expression: a path target, an operator (plain or
//! compound), and a value.

use vstd::prelude::*;
use crate::data::Data;
use crate::errors::{ParseErr, ParseErrKind};
use crate::expressions::path::spec_mangle;
use crate::expressions::{is_pure, pure_eval, type_of_expr, Expr};
use crate::interpreter::{extends, Fault, Interpreter};
use crate::memory::{mem_assign, mem_lookup};
use crate::operations::{apply_op, Operation};
use crate::parser::Parser;
use crate::tokenizer::token::Token;
use crate::tokenizer::token_type::spec_to_data;
use crate::types::Type;

verus! {

/// The assignment operators: plain rebinding, and add-and-assign.
#[derive(Clone, Copy)]
pub enum AssignOp {
    Eq,
    AddEq,
}

/// An assignment: the operator, the target (an expression that must mangle
/// to a path), and the value expression.
pub struct ExprAssign {
    pub op: AssignOp,
    pub lhs: Box<Expr>,
    pub rhs: Box<Expr>,
}

impl ExprAssign {
    /// An assignment node from its parts.
    pub fn new(op: AssignOp, lhs: Box<Expr>, rhs: Box<Expr>) -> (r: ExprAssign)
        ensures
            r.op == op,
            r.lhs == lhs,
            r.rhs == rhs,
    {
        ExprAssign { op, lhs, rhs }
    }

    /// The static type of the assignment: the target must be a path bound
    /// somewhere; a plain assignment takes the value's type (rebinding is
    /// allowed regardless of the old type), a compound one consults the
    /// operator table on the old and new types.
    pub fn typ(&self, parser: &Parser) -> (r: Result<Type, ParseErrKind>)
        ensures
            match r {
                Ok(t) => type_of_expr(Expr::Assign(*self), parser.sim_memory@) == Some(t),
                Err(_) => type_of_expr(Expr::Assign(*self), parser.sim_memory@) is None,
            },
        decreases *self,
    {
        let mangled = self.lhs.mangle_path()?;
        let old_type = match parser.sim_memory.get(&mangled) {
            Some(t) => t.clone(),
            None => {
                return Err(ParseErrKind::UnknownField(mangled));
            },
        };
        let value_type = self.rhs.typ(parser)?;
        match self.op {
            AssignOp::Eq => Ok(value_type),
            AssignOp::AddEq => match Operation::Add.typ_checked(&old_type, &value_type) {
                Ok(t) => Ok(t),
                Err(e) => Err(e),
            },
        }
    }

    /// Evaluates the assignment. The value is evaluated fully first; only
    /// then, for a compound assignment, is the old value fetched and
    /// combined — so a value expression that itself rewrites the same
    /// binding is read back, not snapshotted. The result lands in the
    /// innermost frame that already binds the name, and is also the
    /// expression's value. For a pure value expression that is the whole
    /// effect: the one binding is rewritten with exactly the value (for a
    /// compound assignment, the old value combined with it through the
    /// operator table), and a name bound nowhere leaves the table whole.
    pub fn eval(&self, interp: &mut Interpreter) -> (r: Result<Data, Fault>)
        requires
            old(interp).memory@.len() >= 1,
        ensures
            final(interp).memory@.len() == old(interp).memory@.len(),
            final(interp).fuel <= old(interp).fuel,
            extends(old(interp).output@, final(interp).output@),
            (*self.lhs is Path && is_pure(*self.rhs)) ==> {
                &&& final(interp).output == old(interp).output
                &&& final(interp).fuel == old(interp).fuel
                &&& ({
                    &&& mem_lookup(
                        old(interp).memory@,
                        spec_mangle((*self.lhs)->Path_0.path@),
                    ) matches Some(b)
                    &&& pure_eval(*self.rhs, old(interp).memory@) matches Some(v)
                    &&& (self.op is AddEq ==> apply_op(Operation::Add, b@, v) is Some)
                }) ==> r is Ok
                &&& match r {
                    Ok(d) => {
                        &&& mem_lookup(old(interp).memory@, spec_mangle((*self.lhs)->Path_0.path@)) is Some
                        &&& final(interp).memory@ == mem_assign(
                            old(interp).memory@,
                            spec_mangle((*self.lhs)->Path_0.path@),
                            d,
                        )
                        &&& match self.op {
                            AssignOp::Eq => pure_eval(*self.rhs, old(interp).memory@)
                                == Some(d@),
                            AssignOp::AddEq => {
                                &&& pure_eval(*self.rhs, old(interp).memory@) matches Some(
                                    v,
                                )
                                &&& apply_op(
                                    Operation::Add,
                                    mem_lookup(
                                        old(interp).memory@,
                                        spec_mangle((*self.lhs)->Path_0.path@),
                                    )->0@,
                                    v,
                                ) == Some(d@)
                            },
                        }
                    },
                    Err(_) => final(interp).memory@ == old(interp).memory@,
                }
            },
        decreases interp.fuel, *self,
    {
        let mangled = match self.lhs.mangle_path() {
            Ok(m) => m,
            Err(_) => {
                return Err(Fault::InvalidAssignTarget);
            },
        };
        let value = match self.rhs.eval(interp) {
            Ok(d) => d,
            Err(f) => {
                return Err(f);
            },
        };
        let data = match self.op {
            AssignOp::Eq => value,
            AssignOp::AddEq => {
                let old_value = match interp.memory.get(&mangled) {
                    Some(v) => v.clone(),
                    None => {
                        return Err(Fault::MissingBinding);
                    },
                };
                match Operation::Add.op(&old_value, &value) {
                    Some(d) => d,
                    None => {
                        return Err(Fault::IncompatibleOperands);
                    },
                }
            },
        };
        let assigned = interp.memory.assign(mangled, data.clone());
        if assigned.is_none() {
            return Err(Fault::MissingBinding);
        }
        Ok(data)
    }
}

/// Folds an assignment onto an already-parsed expression: the target must
/// mangle to a path, the value is a full expression (so `a = b = c` chains),
/// and a compound assignment is checked against the operator table before
/// anything can run.
pub fn parse(parser: &mut Parser, first_token: &Token, expr: Expr, assign_op: AssignOp) -> (r:
    Result<Expr, ParseErr>)
    requires
        old(parser).sim_memory@.len() >= 1,
    ensures
        final(parser).sim_memory@.len() == old(parser).sim_memory@.len(),
        final(parser).collector.spec_tokens() == old(parser).collector.spec_tokens(),
        final(parser).fuel <= old(parser).fuel,
        r is Ok ==> final(parser).fuel < old(parser).fuel,
        r matches Ok(e) ==> e matches Expr::Assign(a) && a.op == assign_op && *a.lhs == expr
            && expr is Path,
        (old(parser).fuel > 0 && !(expr is Path)) ==> (r matches Err(pe) && pe.err_kind
            is InvalidPathUse && pe.token_pos == first_token.token_pos),
        ({
            &&& old(parser).fuel >= 3
            &&& expr is Path
            &&& assign_op is Eq
            &&& type_of_expr(expr, old(parser).sim_memory@) is Some
            &&& old(parser).collector.spec_pos() + 1 < old(
                parser,
            ).collector.spec_tokens().len()
            &&& spec_to_data(
                old(parser).collector.spec_tokens()[old(
                    parser,
                ).collector.spec_pos() as int].token,
            ) is Some
            &&& crate::expressions::ends_expression(
                old(parser).collector.spec_tokens()[old(parser).collector.spec_pos()
                    + 1int].token,
            )
        }) ==> r is Ok,
    decreases parser.fuel,
{
    if !parser.consume_fuel() {
        return Err(parser.budget_err());
    }
    match expr.mangle_path() {
        Ok(_) => {},
        Err(k) => {
            return Err(k.from_token(first_token));
        },
    }
    let expr_type = match expr.typ(parser) {
        Ok(t) => t,
        Err(k) => {
            return Err(k.from_token(first_token));
        },
    };
    let rhs_token = match parser.advance("expression") {
        Ok(t) => t,
        Err(e) => {
            return Err(e);
        },
    };
    let rhs = match Expr::parse_expr(parser, &rhs_token) {
        Ok(e) => e,
        Err(e) => {
            return Err(e);
        },
    };
    let rhs_type = match rhs.typ(parser) {
        Ok(t) => t,
        Err(k) => {
            return Err(k.from_token(&rhs_token));
        },
    };
    match assign_op {
        AssignOp::AddEq => {
            match Operation::Add.typ_checked(&expr_type, &rhs_type) {
                Ok(_) => {},
                Err(k) => {
                    return Err(k.from_token(first_token));
                },
            }
        },
        AssignOp::Eq => {},
    }
    Ok(Expr::Assign(ExprAssign::new(assign_op, Box::new(expr), Box::new(rhs))))
}

} // verus!

//! An if expression: a boolean condition guarding a body, with no else
//! branch and no value.

use vstd::prelude::*;
use crate::data::{Data, DataV};
use crate::errors::{ParseErr, ParseErrKind};
use crate::expressions::block::{is_single_pure_print, single_print_line, ExprBlock};
use crate::expressions::{all_pure_exprs, is_pure, pure_eval, pure_stmts_succeed, Expr};
use crate::interpreter::{extends, Fault, Interpreter};
use crate::parser::Parser;
use crate::tokenizer::token_type::TokenType;
use crate::types::Type;

verus! {

/// A single-armed conditional: its condition and its body.
pub struct ExprIf {
    pub condition_expr: Box<Expr>,
    pub body: ExprBlock,
}

impl ExprIf {
    /// An if node from its parts.
    pub fn new(condition_expr: Box<Expr>, body: ExprBlock) -> (r: ExprIf)
        ensures
            r.condition_expr == condition_expr,
            r.body == body,
    {
        ExprIf { condition_expr, body }
    }

    /// Evaluates the conditional: the condition must come out a boolean (a
    /// non-boolean is a fault the type-checking pass should have made
    /// unreachable); a true one runs the body in a fresh scope, popped on
    /// the way out. No value escapes, and a pure condition that comes out
    /// false leaves the whole state untouched.
    pub fn eval(&self, interp: &mut Interpreter) -> (r: Result<Data, Fault>)
        requires
            old(interp).memory@.len() >= 1,
        ensures
            final(interp).memory@.len() == old(interp).memory@.len(),
            final(interp).fuel <= old(interp).fuel,
            extends(old(interp).output@, final(interp).output@),
            r matches Ok(d) ==> d == Data::TempNil,
            (is_pure(*self.condition_expr) && pure_eval(
                *self.condition_expr,
                old(interp).memory@,
            ) == Some(DataV::Bool(false))) ==> *final(interp) == *old(interp) && r == Result::<
                Data,
                Fault,
            >::Ok(Data::TempNil),
            (is_pure(*self.condition_expr) && pure_eval(
                *self.condition_expr,
                old(interp).memory@,
            ) == Some(DataV::Bool(true)) && all_pure_exprs(self.body.body@)) ==> {
                &&& final(interp).memory@ == old(interp).memory@
                &&& final(interp).output == old(interp).output
                &&& final(interp).fuel == old(interp).fuel
                &&& (r is Ok <==> pure_stmts_succeed(
                    self.body.body@,
                    old(interp).memory@.push(Map::<Seq<char>, Data>::empty()),
                ))
                &&& r is Ok ==> r == Result::<Data, Fault>::Ok(Data::TempNil)
            },
            (is_pure(*self.condition_expr) && pure_eval(
                *self.condition_expr,
                old(interp).memory@,
            ) == Some(DataV::Bool(true)) && is_single_pure_print(
                self.body.body@,
                old(interp).memory@.push(Map::<Seq<char>, Data>::empty()),
            )) ==> {
                &&& final(interp).memory@ == old(interp).memory@
                &&& final(interp).fuel == old(interp).fuel
                &&& match r {
                    Ok(d) => {
                        &&& d == Data::TempNil
                        &&& final(interp).output@.len() == old(interp).output@.len() + 1
                        &&& single_print_line(
                            self.body.body@,
                            old(interp).memory@.push(Map::<Seq<char>, Data>::empty()),
                            final(interp).output@.last()@,
                        )
                    },
                    Err(_) => final(interp).output@ == old(interp).output@,
                }
            },
        decreases interp.fuel, *self,
    {
        let cond = match self.condition_expr.eval(interp) {
            Ok(d) => d,
            Err(f) => {
                return Err(f);
            },
        };
        match cond {
            Data::Bool(v) => {
                if v {
                    interp.memory.push_scope();
                    match self.body.eval(interp) {
                        Ok(_) => {
                            interp.memory.pop_scope();
                        },
                        Err(f) => {
                            interp.memory.pop_scope();
                            return Err(f);
                        },
                    }
                    proof {
                        assert(old(interp).memory@.push(
                            Map::<Seq<char>, Data>::empty(),
                        ).drop_last() =~= old(interp).memory@);
                    }
                }
                Ok(Data::TempNil)
            },
            _ => Err(Fault::ConditionNotBool),
        }
    }
}

/// Parses `if <expr> { <block> }`: the condition must type as a boolean,
/// rejected here otherwise, before anything can run; the body is parsed in
/// a pushed type-level scope, popped afterwards — the same scope shape a
/// true condition re-creates at run time. There is no else branch.
pub fn parse(parser: &mut Parser) -> (r: Result<Expr, ParseErr>)
    requires
        old(parser).sim_memory@.len() >= 1,
    ensures
        final(parser).sim_memory@.len() == old(parser).sim_memory@.len(),
        final(parser).collector.spec_tokens() == old(parser).collector.spec_tokens(),
        final(parser).fuel <= old(parser).fuel,
        r is Ok ==> final(parser).fuel < old(parser).fuel,
        r is Ok ==> r->Ok_0 is If,
        ({
            &&& old(parser).fuel >= 5
            &&& old(parser).collector.spec_pos() + 2 < old(
                parser,
            ).collector.spec_tokens().len()
            &&& old(parser).collector.spec_tokens()[old(
                parser,
            ).collector.spec_pos() as int].token == TokenType::Bool(true)
            &&& old(parser).collector.spec_tokens()[old(parser).collector.spec_pos() + 1int].token
                is LeftCurly
            &&& old(parser).collector.spec_tokens()[old(parser).collector.spec_pos() + 2int].token
                is RightCurly
        }) ==> (r matches Ok(e) && e matches Expr::If(node) && node.body.body@.len() == 0),
        ({
            &&& old(parser).fuel >= 5
            &&& old(parser).collector.spec_pos() + 1 < old(
                parser,
            ).collector.spec_tokens().len()
            &&& old(parser).collector.spec_tokens()[old(
                parser,
            ).collector.spec_pos() as int].token is Number
            &&& old(parser).collector.spec_tokens()[old(parser).collector.spec_pos() + 1int].token
                is LeftCurly
        }) ==> (r matches Err(pe) && pe.err_kind is ConditionNotBool),
    decreases parser.fuel,
{
    if !parser.consume_fuel() {
        return Err(parser.budget_err());
    }
    let cond_token = match parser.advance("expression") {
        Ok(t) => t,
        Err(e) => {
            return Err(e);
        },
    };
    let condition_expr = match Expr::parse_expr(parser, &cond_token) {
        Ok(e) => e,
        Err(e) => {
            return Err(e);
        },
    };
    let cond_type = match condition_expr.typ(parser) {
        Ok(t) => t,
        Err(k) => {
            return Err(k.from_token(&cond_token));
        },
    };
    match cond_type {
        Type::Bool => {},
        other => {
            let found_name = match other.get_name() {
                Some(n) => n,
                None => String::new(),
            };
            return Err(ParseErrKind::ConditionNotBool(found_name).from_token(&cond_token));
        },
    }
    parser.sim_memory.push_scope();
    let body_first = match parser.advance("LeftCurly") {
        Ok(t) => t,
        Err(e) => {
            parser.sim_memory.pop_scope();
            return Err(e);
        },
    };
    let body = match ExprBlock::parse_block(parser, &body_first) {
        Ok(b) => b,
        Err(e) => {
            parser.sim_memory.pop_scope();
            return Err(e);
        },
    };
    parser.sim_memory.pop_scope();
    let if_expr = ExprIf::new(Box::new(condition_expr), body);
    Ok(Expr::If(if_expr))
}

} // verus!

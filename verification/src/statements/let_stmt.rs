//! A variable declaration: `let` binds a name to the value of an
//! initializer in the innermost scope.

use vstd::prelude::*;
use crate::errors::ParseErr;
use crate::expressions::{ends_expression, is_pure, pure_eval, Expr};
use crate::interpreter::{extends, Fault, Interpreter};
use crate::memory::mem_lookup;
use crate::parser::Parser;
use crate::statements::Statement;
use crate::tokenizer::token::Token;
use crate::tokenizer::token_type::{spec_to_data, TokenType};

verus! {

/// A `let` statement: the bound name, its initializer, and whether the
/// binding was marked mutable.
pub struct VariableAssignment {
    pub name: String,
    pub init_value: Expr,
    pub is_mut: bool,
}

impl VariableAssignment {
    /// A declaration from its parts.
    pub fn new(name: String, init_value: Expr, is_mut: bool) -> (r: VariableAssignment)
        ensures
            r.name == name,
            r.init_value == init_value,
            r.is_mut == is_mut,
    {
        VariableAssignment { name, init_value, is_mut }
    }

    /// Executes the declaration: the initializer's value lands under the
    /// name in the innermost frame, shadowing any outer binding. For a pure
    /// initializer that is the whole effect: exactly the one binding is
    /// written, with exactly the initializer's value.
    pub fn exec(&self, interp: &mut Interpreter) -> (r: Result<(), Fault>)
        requires
            old(interp).memory@.len() >= 1,
        ensures
            final(interp).memory@.len() == old(interp).memory@.len(),
            final(interp).fuel <= old(interp).fuel,
            extends(old(interp).output@, final(interp).output@),
            is_pure(self.init_value) ==> {
                &&& final(interp).output == old(interp).output
                &&& final(interp).fuel == old(interp).fuel
                &&& match r {
                    Ok(_) => {
                        &&& final(interp).memory@.last().contains_key(self.name@)
                        &&& Some(final(interp).memory@.last()[self.name@]@) == pure_eval(
                            self.init_value,
                            old(interp).memory@,
                        )
                        &&& final(interp).memory@ == old(interp).memory@.update(
                            old(interp).memory@.len() - 1,
                            old(interp).memory@.last().insert(
                                self.name@,
                                final(interp).memory@.last()[self.name@],
                            ),
                        )
                    },
                    Err(_) => pure_eval(self.init_value, old(interp).memory@) is None
                        && final(interp).memory@ == old(interp).memory@,
                }
            },
        decreases interp.fuel, *self,
    {
        let val = match self.init_value.eval(interp) {
            Ok(v) => v,
            Err(f) => {
                return Err(f);
            },
        };
        interp.memory.insert(self.name.clone(), val);
        Ok(())
    }

    /// Parses `let [mut] <name> = <expr>`: the initializer is parsed and
    /// typed at once, and the name enters the innermost type-level frame
    /// with the initializer's type, so later tokens can already refer to
    /// it.
    pub fn parse(parser: &mut Parser, _first_token: &Token) -> (r: Result<Statement, ParseErr>)
        requires
            old(parser).sim_memory@.len() >= 1,
        ensures
            final(parser).sim_memory@.len() == old(parser).sim_memory@.len(),
            final(parser).collector.spec_tokens() == old(parser).collector.spec_tokens(),
            final(parser).fuel <= old(parser).fuel,
            r is Ok ==> final(parser).fuel < old(parser).fuel,
            r matches Ok(s) ==> s matches Statement::VariableAssignment(v)
                && final(parser).sim_memory@.last().contains_key(v.name@) && mem_lookup(
                final(parser).sim_memory@,
                v.name@,
            ) is Some,
            ({
                &&& old(parser).fuel >= 4
                &&& old(parser).collector.spec_pos() + 3 < old(
                    parser,
                ).collector.spec_tokens().len()
                &&& old(parser).collector.spec_tokens()[old(
                    parser,
                ).collector.spec_pos() as int].token is Identifier
                &&& old(parser).collector.spec_tokens()[old(parser).collector.spec_pos()
                    + 1int].token is Equal
                &&& spec_to_data(
                    old(parser).collector.spec_tokens()[old(parser).collector.spec_pos()
                        + 2int].token,
                ) is Some
                &&& ends_expression(
                    old(parser).collector.spec_tokens()[old(parser).collector.spec_pos()
                        + 3int].token,
                )
            }) ==> (r matches Ok(s) && s matches Statement::VariableAssignment(v) && v.name
                == old(parser).collector.spec_tokens()[old(
                parser,
            ).collector.spec_pos() as int].token->Identifier_0 && final(parser).sim_memory@
                == old(parser).sim_memory@.update(
                old(parser).sim_memory@.len() - 1,
                old(parser).sim_memory@.last().insert(
                    v.name@,
                    spec_to_data(
                        old(parser).collector.spec_tokens()[old(parser).collector.spec_pos()
                            + 2int].token,
                    )->0.spec_type(),
                ),
            )),
        decreases parser.fuel,
    {
        if !parser.consume_fuel() {
            return Err(parser.budget_err());
        }
        let mut next_token = match parser.advance("variable name") {
            Ok(t) => t,
            Err(e) => {
                return Err(e);
            },
        };
        let mut is_mut = false;
        if matches!(next_token.token, TokenType::Mut) {
            is_mut = true;
            next_token = match parser.advance("variable name") {
                Ok(t) => t,
                Err(e) => {
                    return Err(e);
                },
            };
        }
        let name: String = match &next_token.token {
            TokenType::Identifier(n) => n.clone(),
            _ => {
                return Err(parser.unexpected_token(&next_token, "variable name"));
            },
        };
        let eq_token = match parser.advance("Equal") {
            Ok(t) => t,
            Err(e) => {
                return Err(e);
            },
        };
        if !matches!(eq_token.token, TokenType::Equal) {
            return Err(parser.unexpected_token(&eq_token, "Equal"));
        }
        let expr_token = match parser.advance("expression") {
            Ok(t) => t,
            Err(e) => {
                return Err(e);
            },
        };
        let expr = match Expr::parse_expr(parser, &expr_token) {
            Ok(e) => e,
            Err(e) => {
                return Err(e);
            },
        };
        let expr_type = match expr.typ(parser) {
            Ok(t) => t,
            Err(k) => {
                return Err(k.from_token(&expr_token));
            },
        };
        parser.sim_memory.insert(name.clone(), expr_type);
        Ok(Statement::VariableAssignment(VariableAssignment::new(name, expr, is_mut)))
    }
}

} // verus!

//! The statement tree: variable declarations, function declarations, and
//! expression statements.

use vstd::prelude::*;
use std::rc::Rc;
use crate::data::Data;
use crate::errors::{ParseErr, ParseErrKind};
use crate::expressions::{ends_expression, is_pure, pure_eval, Expr};
use crate::interpreter::{extends, Fault, Interpreter};
use crate::memory::mem_lookup;
use crate::parser::Parser;
use crate::tokenizer::token::Token;
use crate::tokenizer::token_type::{spec_to_data, TokenType};
use crate::types::{rc_clone, Type};

pub mod fn_decl;
pub mod let_stmt;

use fn_decl::FunctionDeclaration;
use let_stmt::VariableAssignment;

verus! {

/// A statement. The set is closed: every consumer matches exhaustively.
pub enum Statement {
    VariableAssignment(VariableAssignment),
    FunctionDeclaration(Rc<FunctionDeclaration>),
    Expr(Expr),
}

impl Statement {
    /// Executes the statement: a declaration writes the innermost frame, an
    /// expression statement runs for its effects. The table's depth is
    /// preserved, output only grows, the call budget never increases; a
    /// function declaration binds exactly its name to its function value in
    /// the innermost frame, touching nothing else.
    pub fn exec(&self, interp: &mut Interpreter) -> (r: Result<(), Fault>)
        requires
            old(interp).memory@.len() >= 1,
        ensures
            final(interp).memory@.len() == old(interp).memory@.len(),
            final(interp).fuel <= old(interp).fuel,
            extends(old(interp).output@, final(interp).output@),
            *self matches Statement::FunctionDeclaration(f) ==> {
                &&& r is Ok
                &&& final(interp).memory@ == old(interp).memory@.update(
                    old(interp).memory@.len() - 1,
                    old(interp).memory@.last().insert(f.name@, Data::Fn(f)),
                )
                &&& final(interp).output == old(interp).output
                &&& final(interp).fuel == old(interp).fuel
            },
            (*self is Expr && is_pure((*self)->Expr_0)) ==> {
                &&& *final(interp) == *old(interp)
                &&& (r is Ok <==> pure_eval((*self)->Expr_0, old(interp).memory@) is Some)
            },
            (*self is VariableAssignment && is_pure(
                (*self)->VariableAssignment_0.init_value,
            )) ==> {
                &&& final(interp).output == old(interp).output
                &&& final(interp).fuel == old(interp).fuel
                &&& match r {
                    Ok(_) => {
                        &&& final(interp).memory@.last().contains_key(
                            (*self)->VariableAssignment_0.name@,
                        )
                        &&& Some(
                            final(interp).memory@.last()[(
                            *self)->VariableAssignment_0.name@]@,
                        ) == pure_eval(
                            (*self)->VariableAssignment_0.init_value,
                            old(interp).memory@,
                        )
                        &&& final(interp).memory@ == old(interp).memory@.update(
                            old(interp).memory@.len() - 1,
                            old(interp).memory@.last().insert(
                                (*self)->VariableAssignment_0.name@,
                                final(interp).memory@.last()[(
                                *self)->VariableAssignment_0.name@],
                            ),
                        )
                    },
                    Err(_) => pure_eval(
                        (*self)->VariableAssignment_0.init_value,
                        old(interp).memory@,
                    ) is None && final(interp).memory@ == old(interp).memory@,
                }
            },
        decreases interp.fuel, *self,
    {
        match self {
            Statement::VariableAssignment(var_assign) => var_assign.exec(interp),
            Statement::FunctionDeclaration(func_decl) => {
                interp.memory.insert(
                    func_decl.name.clone(),
                    Data::Fn(rc_clone(func_decl)),
                );
                Ok(())
            },
            Statement::Expr(expr) => {
                match expr.eval(interp) {
                    Ok(_) => Ok(()),
                    Err(f) => Err(f),
                }
            },
        }
    }

    /// Parses one statement from its first token: `let` and `fn` open
    /// declarations, anything else is an expression statement. Every
    /// statement requires a trailing semicolon except the self-delimiting
    /// control blocks: a function declaration, or an expression statement
    /// whose outermost form is a for loop, an if expression, or a bare
    /// block. The type-level table keeps its depth.
    pub fn parse(parser: &mut Parser, first_token: &Token) -> (r: Result<Statement, ParseErr>)
        requires
            old(parser).sim_memory@.len() >= 1,
        ensures
            final(parser).sim_memory@.len() == old(parser).sim_memory@.len(),
            final(parser).collector.spec_tokens() == old(parser).collector.spec_tokens(),
            final(parser).fuel <= old(parser).fuel,
            r is Ok ==> final(parser).fuel < old(parser).fuel,
            r matches Ok(s) ==> {
                ||| {
                    &&& final(parser).collector.spec_pos() >= 1
                    &&& final(parser).collector.spec_pos()
                        <= final(parser).collector.spec_tokens().len()
                    &&& final(parser).collector.spec_tokens()[final(parser).collector.spec_pos() - 1].token is Semicolon
                }
                ||| s is FunctionDeclaration
                ||| (s matches Statement::Expr(e2) && (e2 is For || e2 is If || e2 is Block))
                ||| {
                    &&& s is Expr
                    &&& final(parser).collector.spec_pos()
                        < final(parser).collector.spec_tokens().len()
                    &&& final(parser).collector.spec_tokens()[final(parser).collector.spec_pos() as int].token is RightCurly
                }
            },
            (r is Ok && first_token.token is Let) ==> r->Ok_0 is VariableAssignment
                && final(parser).sim_memory@.last().contains_key(
                (r->Ok_0)->VariableAssignment_0.name@,
            ),
            (r is Ok && first_token.token is Fn) ==> r->Ok_0 is FunctionDeclaration
                && mem_lookup(
                final(parser).sim_memory@,
                (r->Ok_0)->FunctionDeclaration_0.name@,
            ) == Some(Type::Fn((r->Ok_0)->FunctionDeclaration_0.sig)),
            ({
                &&& old(parser).fuel >= 3
                &&& !(first_token.token is Let)
                &&& !(first_token.token is Fn)
                &&& spec_to_data(first_token.token) is Some
                &&& old(parser).collector.spec_pos() < old(
                    parser,
                ).collector.spec_tokens().len()
                &&& old(parser).collector.spec_tokens()[old(
                    parser,
                ).collector.spec_pos() as int].token is Semicolon
            }) ==> (r matches Ok(s) && s matches Statement::Expr(e) && e matches Expr::Literal(
                l,
            ) && Some(l.data) == spec_to_data(first_token.token)),
            ({
                &&& old(parser).fuel >= 3
                &&& !(first_token.token is Let)
                &&& !(first_token.token is Fn)
                &&& spec_to_data(first_token.token) is Some
                &&& old(parser).collector.spec_pos() < old(
                    parser,
                ).collector.spec_tokens().len()
                &&& old(parser).collector.spec_tokens()[old(
                    parser,
                ).collector.spec_pos() as int].token is Identifier
            }) ==> (r matches Err(pe) && (pe.err_kind matches ParseErrKind::UnexpectedToken(
                g,
                exp,
            ) && exp@ == "Semicolon"@)),
        decreases parser.fuel,
    {
        if !parser.consume_fuel() {
            return Err(parser.budget_err());
        }
        let parsed = match first_token.token {
            TokenType::Let => VariableAssignment::parse(parser, first_token),
            TokenType::Fn => FunctionDeclaration::parse(parser, first_token),
            _ => match Expr::parse_expr(parser, first_token) {
                Ok(e) => Ok(Statement::Expr(e)),
                Err(e) => Err(e),
            },
        };
        let stmt = match parsed {
            Ok(s) => s,
            Err(e) => {
                return Err(e);
            },
        };
        let semicolon_token = parser.collector.next();
        match &semicolon_token {
            Some(t) if matches!(t.token, TokenType::Semicolon) => Ok(stmt),
            _ => {
                // Self-delimiting forms need no semicolon, and neither does a
                // block's trailing expression statement: its closing brace
                // ends it. Declarations still demand their semicolon there.
                let trailing_expr = matches!(stmt, Statement::Expr(_)) && (match &semicolon_token {
                    Some(t2) => matches!(t2.token, TokenType::RightCurly),
                    None => false,
                });
                let self_delimiting = trailing_expr || matches!(
                    stmt,
                    Statement::FunctionDeclaration(_) | Statement::Expr(Expr::For(_))
                        | Statement::Expr(Expr::If(_)) | Statement::Expr(Expr::Block(_))
                );
                if self_delimiting {
                    if semicolon_token.is_some() {
                        parser.collector.back();
                    }
                    Ok(stmt)
                } else {
                    match semicolon_token {
                        Some(t) => Err(parser.unexpected_token(&t, "Semicolon")),
                        None => match parser.advance("Semicolon") {
                            Ok(t) => Err(parser.unexpected_token(&t, "Semicolon")),
                            Err(e) => Err(e),
                        },
                    }
                }
            },
        }
    }
}

} // verus!

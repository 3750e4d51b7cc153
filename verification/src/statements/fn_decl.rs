//! A function declaration: a name, a signature, and a body. Executing the
//! declaration binds the name to a function value sharing this node.

use vstd::prelude::*;
use std::rc::Rc;
use crate::errors::ParseErr;
use crate::expressions::block::ExprBlock;
use crate::memory::mem_lookup;
use crate::parser::Parser;
use crate::statements::Statement;
use crate::tokenizer::token::Token;
use crate::tokenizer::token_type::TokenType;
use crate::types::{rc_clone, FnSig, Type};

verus! {

/// A declared function. The signature is shared with the function's static
/// type; the body is a block evaluated per call in a fresh scope.
pub struct FunctionDeclaration {
    pub name: String,
    pub sig: Rc<FnSig>,
    pub body: ExprBlock,
}

impl FunctionDeclaration {
    /// A declaration from its parts.
    pub fn new(name: String, sig: Rc<FnSig>, body: ExprBlock) -> (r: FunctionDeclaration)
        ensures
            r.name == name,
            r.sig == sig,
            r.body == body,
    {
        FunctionDeclaration { name, sig, body }
    }

    /// Parses `fn <name> ( <name> : <Type>, ... ) { <block> }`. The
    /// parameters enter a fresh type-level scope before the body is parsed,
    /// so the body can refer to them; the scope is popped afterwards, and
    /// the function's name enters the enclosing frame with its signature.
    /// The return type is the body's own static type, so checking and
    /// evaluation agree on what a call produces.
    pub fn parse(parser: &mut Parser, _first_token: &Token) -> (r: Result<Statement, ParseErr>)
        requires
            old(parser).sim_memory@.len() >= 1,
        ensures
            final(parser).sim_memory@.len() == old(parser).sim_memory@.len(),
            final(parser).collector.spec_tokens() == old(parser).collector.spec_tokens(),
            final(parser).fuel <= old(parser).fuel,
            r is Ok ==> final(parser).fuel < old(parser).fuel,
            r matches Ok(s) ==> s matches Statement::FunctionDeclaration(f) && mem_lookup(
                final(parser).sim_memory@,
                f.name@,
            ) == Some(Type::Fn(f.sig)),
            ({
                &&& old(parser).fuel >= 6
                &&& old(parser).collector.spec_pos() + 4 < old(
                    parser,
                ).collector.spec_tokens().len()
                &&& old(parser).collector.spec_tokens()[old(
                    parser,
                ).collector.spec_pos() as int].token is Identifier
                &&& old(parser).collector.spec_tokens()[old(parser).collector.spec_pos()
                    + 1int].token is LeftParen
                &&& old(parser).collector.spec_tokens()[old(parser).collector.spec_pos()
                    + 2int].token is RightParen
                &&& old(parser).collector.spec_tokens()[old(parser).collector.spec_pos()
                    + 3int].token is LeftCurly
                &&& old(parser).collector.spec_tokens()[old(parser).collector.spec_pos()
                    + 4int].token is RightCurly
            }) ==> r is Ok,
        decreases parser.fuel,
    {
        if !parser.consume_fuel() {
            return Err(parser.budget_err());
        }
        let name_token = match parser.advance("function name") {
            Ok(t) => t,
            Err(e) => {
                return Err(e);
            },
        };
        let name: String = match &name_token.token {
            TokenType::Identifier(n) => n.clone(),
            _ => {
                return Err(parser.unexpected_token(&name_token, "function name"));
            },
        };
        let paren_token = match parser.advance("LeftParen") {
            Ok(t) => t,
            Err(e) => {
                return Err(e);
            },
        };
        if !matches!(paren_token.token, TokenType::LeftParen) {
            return Err(parser.unexpected_token(&paren_token, "LeftParen"));
        }
        let args = match parse_args(parser) {
            Ok(a) => a,
            Err(e) => {
                return Err(e);
            },
        };
        parser.sim_memory.push_scope();
        let mut i: usize = 0;
        while i < args.len()
            invariant
                parser.sim_memory@.len() == old(parser).sim_memory@.len() + 1,
                parser.collector.spec_tokens() == old(parser).collector.spec_tokens(),
                parser.fuel < old(parser).fuel,
                ({
                    &&& old(parser).fuel >= 6
                    &&& old(parser).collector.spec_pos() + 4 < old(
                        parser,
                    ).collector.spec_tokens().len()
                    &&& old(parser).collector.spec_tokens()[old(
                        parser,
                    ).collector.spec_pos() as int].token is Identifier
                    &&& old(parser).collector.spec_tokens()[old(parser).collector.spec_pos()
                        + 1int].token is LeftParen
                    &&& old(parser).collector.spec_tokens()[old(parser).collector.spec_pos()
                        + 2int].token is RightParen
                    &&& old(parser).collector.spec_tokens()[old(parser).collector.spec_pos()
                        + 3int].token is LeftCurly
                    &&& old(parser).collector.spec_tokens()[old(parser).collector.spec_pos()
                        + 4int].token is RightCurly
                }) ==> {
                    &&& parser.collector.spec_pos() == old(parser).collector.spec_pos() + 3
                    &&& parser.fuel == old(parser).fuel - 3
                },
            decreases args@.len() - i,
        {
            parser.sim_memory.insert(args[i].0.clone(), args[i].1.clone());
            i = i + 1;
        }
        let body_first = match parser.advance("LeftCurly") {
            Ok(t) => t,
            Err(e) => {
                parser.sim_memory.pop_scope();
                return Err(e);
            },
        };
        let body = match ExprBlock::parse_block(parser, &body_first) {
            Ok(b) => b,
            Err(e) => {
                parser.sim_memory.pop_scope();
                return Err(e);
            },
        };
        let return_type: Type = match body.typ(parser) {
            Ok(t) => t,
            Err(k) => {
                parser.sim_memory.pop_scope();
                return Err(k.from_token(&body_first));
            },
        };
        parser.sim_memory.pop_scope();
        let sig = Rc::new(FnSig { args_types: args, return_type });
        let fn_type = Type::Fn(rc_clone(&sig));
        let decl = FunctionDeclaration::new(name.clone(), sig, body);
        parser.sim_memory.insert(name, fn_type);
        Ok(Statement::FunctionDeclaration(Rc::new(decl)))
    }
}

/// Parses the parameter list after the opening parenthesis: names and
/// declared types, comma-separated, closed by the right parenthesis.
fn parse_args(parser: &mut Parser) -> (r: Result<Vec<(String, Type)>, ParseErr>)
    requires
        old(parser).sim_memory@.len() >= 1,
    ensures
        final(parser).sim_memory@.len() == old(parser).sim_memory@.len(),
        final(parser).collector.spec_tokens() == old(parser).collector.spec_tokens(),
        final(parser).fuel <= old(parser).fuel,
        r is Ok ==> final(parser).fuel < old(parser).fuel,
        ({
            &&& old(parser).fuel >= 2
            &&& old(parser).collector.spec_pos() < old(parser).collector.spec_tokens().len()
            &&& old(parser).collector.spec_tokens()[old(
                parser,
            ).collector.spec_pos() as int].token is RightParen
        }) ==> {
            &&& r matches Ok(v) && v@.len() == 0
            &&& final(parser).collector.spec_pos() == old(parser).collector.spec_pos() + 1
            &&& final(parser).sim_memory == old(parser).sim_memory
            &&& final(parser).fuel == old(parser).fuel - 2
        },
    decreases parser.fuel,
{
    if !parser.consume_fuel() {
        return Err(parser.budget_err());
    }
    let mut args: Vec<(String, Type)> = Vec::new();
    loop
        invariant
            parser.sim_memory@.len() == old(parser).sim_memory@.len(),
            old(parser).sim_memory@.len() >= 1,
            parser.collector.spec_tokens() == old(parser).collector.spec_tokens(),
            parser.fuel < old(parser).fuel,
            ({
                &&& old(parser).fuel >= 2
                &&& old(parser).collector.spec_pos() < old(
                    parser,
                ).collector.spec_tokens().len()
                &&& old(parser).collector.spec_tokens()[old(
                    parser,
                ).collector.spec_pos() as int].token is RightParen
            }) ==> {
                &&& args@.len() == 0
                &&& parser.collector.spec_pos() == old(parser).collector.spec_pos()
                &&& parser.sim_memory == old(parser).sim_memory
                &&& parser.fuel == old(parser).fuel - 1
            },
        decreases parser.fuel,
    {
        if !parser.consume_fuel() {
            return Err(parser.budget_err());
        }
        let next_token = match parser.advance("argument or RightParen") {
            Ok(t) => t,
            Err(e) => {
                return Err(e);
            },
        };
        let arg_name: String = match &next_token.token {
            TokenType::Identifier(n) => n.clone(),
            TokenType::RightParen => {
                return Ok(args);
            },
            _ => {
                return Err(parser.unexpected_token(&next_token, "argument or RightParen"));
            },
        };
        let colon_token = match parser.advance("Colon") {
            Ok(t) => t,
            Err(e) => {
                return Err(e);
            },
        };
        if !matches!(colon_token.token, TokenType::Colon) {
            return Err(parser.unexpected_token(&colon_token, "Colon"));
        }
        let type_token = match parser.advance("type") {
            Ok(t) => t,
            Err(e) => {
                return Err(e);
            },
        };
        let arg_type: Type = match &type_token.token {
            TokenType::Identifier(found_name) => match Type::from_name(found_name) {
                Some(t) => t,
                None => {
                    return Err(parser.unexpected_token(&type_token, "type"));
                },
            },
            _ => {
                return Err(parser.unexpected_token(&type_token, "type"));
            },
        };
        args.push((arg_name, arg_type));
        let sep_token = match parser.advance("Comma or RightParen") {
            Ok(t) => t,
            Err(e) => {
                return Err(e);
            },
        };
        match sep_token.token {
            TokenType::Comma => {},
            TokenType::RightParen => {
                return Ok(args);
            },
            _ => {
                return Err(parser.unexpected_token(&sep_token, "Comma or RightParen"));
            },
        }
    }
}

} // verus!

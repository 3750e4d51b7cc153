//! The recursive-descent parser: consumes the token stream, builds the
//! statement tree, and drives the type-level symbol table as it goes, so
//! type errors surface at the earliest possible token.

use vstd::prelude::*;
use vstd::string::StringExecFns;
use crate::errors::{ParseErr, ParseErrKind};
use crate::memory::Memory;
use crate::statements::Statement;
use crate::tokenizer::token::{Token, TokenPos};
use crate::tokenizer::token_type::TokenType;
use crate::types::Type;

pub mod token_collector;

use token_collector::TokenCollector;

verus! {

/// The parser's state: the token cursor, the type-level symbol table, and
/// the budget of parsing steps still allowed.
pub struct Parser {
    pub collector: TokenCollector,
    pub sim_memory: Memory<Type>,
    pub fuel: u64,
}

impl Parser {
    /// A parser over a token stream, with a prepared type-level table and
    /// the given step budget.
    pub fn new(collector: TokenCollector, sim_memory: Memory<Type>, fuel: u64) -> (r: Parser)
        ensures
            r.collector == collector,
            r.sim_memory == sim_memory,
            r.fuel == fuel,
    {
        Parser { collector, sim_memory, fuel }
    }

    /// Takes one step off the parsing budget; a spent budget refuses, and
    /// every recursive descent starts here, so parsing always bottoms out.
    pub fn consume_fuel(&mut self) -> (r: bool)
        ensures
            final(self).collector == old(self).collector,
            final(self).sim_memory == old(self).sim_memory,
            r ==> old(self).fuel > 0 && final(self).fuel == old(self).fuel - 1,
            !r ==> old(self).fuel == 0 && final(self).fuel == 0,
    {
        if self.fuel == 0 {
            false
        } else {
            self.fuel = self.fuel - 1;
            true
        }
    }

    /// The error for a token that fits no rule: what was found and what the
    /// grammar expected.
    pub fn unexpected_token(&self, token: &Token, expected: &str) -> (r: ParseErr)
        ensures
            r.token_pos == token.token_pos,
            r.err_kind matches ParseErrKind::UnexpectedToken(got, exp) && got@
                == token.token.spec_describe() && exp@ == expected@,
    {
        ParseErrKind::UnexpectedToken(
            token.token.describe(),
            String::from_str(expected),
        ).from_token(token)
    }

    /// Consumes and returns the next token; a stream walked past its end —
    /// which the end-of-input token should have prevented — is an
    /// unexpected-token error naming what the grammar wanted.
    pub fn advance(&mut self, expected: &str) -> (r: Result<Token, ParseErr>)
        ensures
            final(self).sim_memory == old(self).sim_memory,
            final(self).fuel == old(self).fuel,
            final(self).collector.spec_tokens() == old(self).collector.spec_tokens(),
            old(self).collector.spec_pos() < old(self).collector.spec_tokens().len() ==> {
                &&& r matches Ok(t) && t == old(self).collector.spec_tokens()[old(
                    self,
                ).collector.spec_pos() as int]
                &&& final(self).collector.spec_pos() == old(self).collector.spec_pos() + 1
            },
            old(self).collector.spec_pos() >= old(self).collector.spec_tokens().len() ==> r
                is Err && final(self).collector.spec_pos() == old(self).collector.spec_pos(),
    {
        match self.collector.next() {
            Some(t) => Ok(t),
            None => {
                let pos = match self.collector.current() {
                    Some(t) => t.token_pos,
                    None => TokenPos::new(0, 0, String::new()),
                };
                Err(
                    ParseErrKind::UnexpectedToken(
                        String::from_str("end of input"),
                        String::from_str(expected),
                    ).to_err(pos),
                )
            },
        }
    }

    /// The error for a spent parsing budget, at the position of the most
    /// recently consumed token.
    pub fn budget_err(&self) -> (r: ParseErr)
        ensures
            r.err_kind is ParseBudgetExhausted,
    {
        let pos = match self.collector.current() {
            Some(t) => t.token_pos,
            None => TokenPos::new(0, 0, String::new()),
        };
        ParseErrKind::ParseBudgetExhausted.to_err(pos)
    }

    /// Parses the whole program: statements until the end-of-input token.
    /// The type-level table ends at the depth it began — every scope the
    /// grammar opens is closed — with the program's global declarations
    /// added to its frames.
    pub fn generate_program(&mut self) -> (r: Result<Vec<Statement>, ParseErr>)
        requires
            old(self).sim_memory@.len() >= 1,
        ensures
            final(self).sim_memory@.len() == old(self).sim_memory@.len(),
            final(self).collector.spec_tokens() == old(self).collector.spec_tokens(),
            final(self).fuel <= old(self).fuel,
            (old(self).collector.spec_pos() < old(self).collector.spec_tokens().len() && old(
                self,
            ).collector.spec_tokens()[old(self).collector.spec_pos() as int].token is Eof)
                ==> {
                &&& r matches Ok(v) && v@.len() == 0
                &&& final(self).sim_memory == old(self).sim_memory
                &&& final(self).fuel == old(self).fuel
            },
            r is Ok ==> {
                ||| {
                    &&& final(self).collector.spec_pos() >= 1
                    &&& final(self).collector.spec_pos() <= final(self).collector.spec_tokens().len()
                    &&& final(self).collector.spec_tokens()[final(self).collector.spec_pos() - 1].token is Eof
                }
                ||| final(self).collector.spec_pos() >= final(self).collector.spec_tokens().len()
            },
    {
        let mut statements: Vec<Statement> = Vec::new();
        loop
            invariant
                self.sim_memory@.len() == old(self).sim_memory@.len(),
                old(self).sim_memory@.len() >= 1,
                self.collector.spec_tokens() == old(self).collector.spec_tokens(),
                self.fuel <= old(self).fuel,
                (old(self).collector.spec_pos() < old(self).collector.spec_tokens().len()
                    && old(self).collector.spec_tokens()[old(
                    self,
                ).collector.spec_pos() as int].token is Eof) ==> statements@.len() == 0
                    && *self == *old(self),
            decreases self.fuel,
        {
            let next = match self.collector.next() {
                Some(t) => t,
                None => {
                    return Ok(statements);
                },
            };
            if matches!(next.token, TokenType::Eof) {
                return Ok(statements);
            }
            let stmt = match Statement::parse(self, &next) {
                Ok(s) => s,
                Err(e) => {
                    return Err(e);
                },
            };
            statements.push(stmt);
        }
    }
}

} // verus!

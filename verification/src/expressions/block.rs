//! A block expression: ordered statements; the value is the final
//! expression-statement's, or nothing.

use vstd::prelude::*;
use crate::data::{Data, DataV};
use crate::errors::{int_str, ParseErr, ParseErrKind};
use crate::expressions::call::is_pure_print;
use crate::expressions::{
    all_pure_exprs, lemma_all_pure_at, lemma_pure_stmts_fail, lemma_pure_stmts_push, pure_eval,
    pure_stmts_succeed, type_of_expr, Expr,
};
use crate::interpreter::{extends, Fault, Interpreter};
use crate::parser::Parser;
use crate::statements::Statement;
use crate::tokenizer::token::Token;
use crate::tokenizer::token_type::TokenType;
use crate::types::Type;

verus! {

/// Whether a statement list is one lone `print` of one pure argument — the
/// case whose whole effect is pinned down through blocks and loops.
pub open spec fn is_single_pure_print(body: Seq<Statement>, m: Seq<Map<Seq<char>, Data>>) -> bool {
    &&& body.len() == 1
    &&& body[0] matches Statement::Expr(e)
    &&& e matches Expr::Call(c)
    &&& is_pure_print(c, m)
}

/// The one line such a statement list prints: its argument's rendering.
pub open spec fn single_print_line(body: Seq<Statement>, m: Seq<Map<Seq<char>, Data>>, line: Seq<
    char,
>) -> bool {
    match pure_eval(body[0]->Expr_0->Call_0.args@[0], m) {
        Some(DataV::Str(s)) => line == s,
        Some(DataV::Num(n)) => line == int_str(n as int),
        _ => false,
    }
}

/// A block: the statements it owns, in order.
pub struct ExprBlock {
    pub body: Vec<Statement>,
}

impl ExprBlock {
    /// A block node around its statements.
    pub fn new(body: Vec<Statement>) -> (r: ExprBlock)
        ensures
            r.body == body,
    {
        ExprBlock { body }
    }

    /// The static type of the block: its final statement's, where that is
    /// an expression statement, else no value.
    pub fn typ(&self, parser: &Parser) -> (r: Result<Type, ParseErrKind>)
        ensures
            match r {
                Ok(t) => type_of_expr(Expr::Block(*self), parser.sim_memory@) == Some(t),
                Err(_) => type_of_expr(Expr::Block(*self), parser.sim_memory@) is None,
            },
        decreases *self,
    {
        if self.body.len() == 0 {
            return Ok(Type::TempNil);
        }
        let last = &self.body[self.body.len() - 1];
        proof {
            assert(decreases_to!(*self => self.body));
            assert(decreases_to!(self.body => self.body@));
            assert(decreases_to!(self.body@ => self.body@.last()));
        }
        match last {
            Statement::Expr(e) => e.typ(parser),
            _ => Ok(Type::TempNil),
        }
    }

    /// Evaluates the block: each statement in order, earlier ones for their
    /// effects only; the value is the final statement's where that is an
    /// expression statement, else no value. A bare block opens no scope of
    /// its own, and an empty one does nothing at all. A block of pure
    /// expression statements leaves the state untouched, succeeds exactly
    /// when each of its expressions evaluates, and yields the last one's
    /// value; a block that is one `print` of one pure argument appends
    /// exactly that line.
    pub fn eval(&self, interp: &mut Interpreter) -> (r: Result<Data, Fault>)
        requires
            old(interp).memory@.len() >= 1,
        ensures
            final(interp).memory@.len() == old(interp).memory@.len(),
            final(interp).fuel <= old(interp).fuel,
            extends(old(interp).output@, final(interp).output@),
            self.body@.len() == 0 ==> *final(interp) == *old(interp) && r == Result::<
                Data,
                Fault,
            >::Ok(Data::TempNil),
            all_pure_exprs(self.body@) ==> {
                &&& *final(interp) == *old(interp)
                &&& match r {
                    Ok(d) => {
                        &&& pure_stmts_succeed(self.body@, old(interp).memory@)
                        &&& if self.body@.len() == 0 {
                            d == Data::TempNil
                        } else {
                            Some(d@) == pure_eval(
                                self.body@.last()->Expr_0,
                                old(interp).memory@,
                            )
                        }
                    },
                    Err(_) => !pure_stmts_succeed(self.body@, old(interp).memory@),
                }
            },
            is_single_pure_print(self.body@, old(interp).memory@) ==> {
                &&& final(interp).memory == old(interp).memory
                &&& final(interp).fuel == old(interp).fuel
                &&& (match pure_eval(self.body@[0]->Expr_0->Call_0.args@[0], old(interp).memory@) {
                    Some(v) => v is Str || v is Num,
                    None => false,
                }) ==> r is Ok
                &&& match r {
                    Ok(d) => {
                        &&& d == Data::TempNil
                        &&& final(interp).output@.len() == old(interp).output@.len() + 1
                        &&& single_print_line(
                            self.body@,
                            old(interp).memory@,
                            final(interp).output@.last()@,
                        )
                    },
                    Err(_) => final(interp).output@ == old(interp).output@,
                }
            },
        decreases interp.fuel, *self,
    {
        if self.body.len() == 0 {
            return Ok(Data::TempNil);
        }
        let mut res: Data = Data::TempNil;
        let mut i: usize = 0;
        while i < self.body.len()
            invariant
                i <= self.body@.len(),
                interp.memory@.len() == old(interp).memory@.len(),
                old(interp).memory@.len() >= 1,
                interp.fuel <= old(interp).fuel,
                extends(old(interp).output@, interp.output@),
                all_pure_exprs(self.body@) ==> {
                    &&& *interp == *old(interp)
                    &&& pure_stmts_succeed(
                        self.body@.subrange(0, i as int),
                        old(interp).memory@,
                    )
                    &&& (i == self.body@.len() && self.body@.len() > 0) ==> Some(res@)
                        == pure_eval(self.body@.last()->Expr_0, old(interp).memory@)
                },
                is_single_pure_print(self.body@, old(interp).memory@) ==> if i == 0 {
                    *interp == *old(interp)
                } else {
                    &&& interp.memory == old(interp).memory
                    &&& interp.fuel == old(interp).fuel
                    &&& interp.output@.len() == old(interp).output@.len() + 1
                    &&& single_print_line(
                        self.body@,
                        old(interp).memory@,
                        interp.output@.last()@,
                    )
                    &&& res == Data::TempNil
                },
            decreases self.body@.len() - i,
        {
            proof {
                assert(decreases_to!(*self => self.body));
                assert(decreases_to!(self.body => self.body@));
                assert(decreases_to!(self.body@ => self.body@[i as int]));
                if all_pure_exprs(self.body@) {
                    lemma_all_pure_at(self.body@, i as int);
                }
            }
            let stmt = &self.body[i];
            let is_last = i == self.body.len() - 1;
            match stmt {
                Statement::Expr(e) => {
                    let v = match e.eval(interp) {
                        Ok(v) => v,
                        Err(f) => {
                            proof {
                                if all_pure_exprs(self.body@) {
                                    lemma_pure_stmts_fail(
                                        self.body@,
                                        old(interp).memory@,
                                        i as int,
                                    );
                                }
                            }
                            return Err(f);
                        },
                    };
                    if is_last {
                        res = v;
                    }
                    proof {
                        if all_pure_exprs(self.body@) {
                            let pre = self.body@.subrange(0, i + 1);
                            assert(pre.drop_last() =~= self.body@.subrange(0, i as int));
                            assert(pre.last() == self.body@[i as int]);
                            lemma_pure_stmts_push(
                                self.body@.subrange(0, i as int),
                                self.body@[i as int],
                                old(interp).memory@,
                            );
                            assert(self.body@.subrange(0, i as int).push(
                                self.body@[i as int],
                            ) =~= pre);
                        }
                    }
                },
                _ => {
                    match stmt.exec(interp) {
                        Ok(_) => {},
                        Err(f) => {
                            return Err(f);
                        },
                    }
                },
            }
            i = i + 1;
        }
        proof {
            if all_pure_exprs(self.body@) {
                assert(self.body@.subrange(0, self.body@.len() as int) =~= self.body@);
            }
        }
        Ok(res)
    }

    /// Parses statements up to the closing brace, after the opening brace
    /// has been consumed.
    fn parse_block_statements(parser: &mut Parser) -> (r: Result<ExprBlock, ParseErr>)
        requires
            old(parser).sim_memory@.len() >= 1,
        ensures
            final(parser).sim_memory@.len() == old(parser).sim_memory@.len(),
            final(parser).collector.spec_tokens() == old(parser).collector.spec_tokens(),
            final(parser).fuel <= old(parser).fuel,
            r is Ok ==> final(parser).fuel < old(parser).fuel,
            ({
                &&& old(parser).fuel >= 1
                &&& old(parser).collector.spec_pos() < old(
                    parser,
                ).collector.spec_tokens().len()
                &&& old(parser).collector.spec_tokens()[old(
                    parser,
                ).collector.spec_pos() as int].token is RightCurly
            }) ==> {
                &&& r matches Ok(b) && b.body@.len() == 0
                &&& final(parser).collector.spec_pos() == old(parser).collector.spec_pos()
                    + 1
                &&& final(parser).sim_memory == old(parser).sim_memory
                &&& final(parser).fuel == old(parser).fuel - 1
            },
        decreases parser.fuel,
    {
        if !parser.consume_fuel() {
            return Err(parser.budget_err());
        }
        let mut body: Vec<Statement> = Vec::new();
        loop
            invariant
                parser.sim_memory@.len() == old(parser).sim_memory@.len(),
                old(parser).sim_memory@.len() >= 1,
                parser.collector.spec_tokens() == old(parser).collector.spec_tokens(),
                parser.fuel < old(parser).fuel,
                ({
                    &&& old(parser).fuel >= 1
                    &&& old(parser).collector.spec_pos() < old(
                        parser,
                    ).collector.spec_tokens().len()
                    &&& old(parser).collector.spec_tokens()[old(
                        parser,
                    ).collector.spec_pos() as int].token is RightCurly
                }) ==> {
                    &&& body@.len() == 0
                    &&& parser.collector.spec_pos() == old(parser).collector.spec_pos()
                    &&& parser.sim_memory == old(parser).sim_memory
                    &&& parser.fuel == old(parser).fuel - 1
                },
            decreases parser.fuel,
        {
            let next_token = match parser.advance("statement or RightCurly") {
                Ok(t) => t,
                Err(e) => {
                    return Err(e);
                },
            };
            if matches!(next_token.token, TokenType::RightCurly) {
                return Ok(ExprBlock::new(body));
            }
            let stmt = match Statement::parse(parser, &next_token) {
                Ok(s) => s,
                Err(e) => {
                    return Err(e);
                },
            };
            body.push(stmt);
        }
    }

    /// Parses a block where the grammar demands one: the opening brace,
    /// then statements to the matching closing brace.
    pub fn parse_block(parser: &mut Parser, first_token: &Token) -> (r: Result<
        ExprBlock,
        ParseErr,
    >)
        requires
            old(parser).sim_memory@.len() >= 1,
        ensures
            final(parser).sim_memory@.len() == old(parser).sim_memory@.len(),
            final(parser).collector.spec_tokens() == old(parser).collector.spec_tokens(),
            final(parser).fuel <= old(parser).fuel,
            r is Ok ==> final(parser).fuel < old(parser).fuel,
            ({
                &&& old(parser).fuel >= 2
                &&& first_token.token is LeftCurly
                &&& old(parser).collector.spec_pos() < old(
                    parser,
                ).collector.spec_tokens().len()
                &&& old(parser).collector.spec_tokens()[old(
                    parser,
                ).collector.spec_pos() as int].token is RightCurly
            }) ==> {
                &&& r matches Ok(b) && b.body@.len() == 0
                &&& final(parser).collector.spec_pos() == old(parser).collector.spec_pos()
                    + 1
                &&& final(parser).sim_memory == old(parser).sim_memory
                &&& final(parser).fuel == old(parser).fuel - 2
            },
        decreases parser.fuel,
    {
        if !parser.consume_fuel() {
            return Err(parser.budget_err());
        }
        match first_token.token {
            TokenType::LeftCurly => ExprBlock::parse_block_statements(parser),
            _ => Err(parser.unexpected_token(first_token, "LeftCurly")),
        }
    }
}

/// Parses a bare block expression, after its opening brace has been
/// consumed. A bare block opens no scope of its own: its declarations land
/// in the enclosing frame, in the type-level table here exactly as in the
/// value-level table when it runs.
pub fn parse(parser: &mut Parser) -> (r: Result<Expr, ParseErr>)
    requires
        old(parser).sim_memory@.len() >= 1,
    ensures
        final(parser).sim_memory@.len() == old(parser).sim_memory@.len(),
        final(parser).collector.spec_tokens() == old(parser).collector.spec_tokens(),
        final(parser).fuel <= old(parser).fuel,
        r is Ok ==> final(parser).fuel < old(parser).fuel,
        r is Ok ==> r->Ok_0 is Block,
    decreases parser.fuel,
{
    if !parser.consume_fuel() {
        return Err(parser.budget_err());
    }
    match ExprBlock::parse_block_statements(parser) {
        Ok(block_expr) => Ok(Expr::Block(block_expr)),
        Err(e) => Err(e),
    }
}

} // verus!

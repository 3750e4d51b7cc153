//! A for-loop expression: a half-open numeric range walked by a loop
//! variable, with a body run once per step in a fresh scope.

use vstd::prelude::*;
use crate::data::{Data, DataV};
use crate::errors::{int_str, ParseErr};
use crate::expressions::block::{is_single_pure_print, single_print_line, ExprBlock};
use crate::expressions::call::is_pure_print;
use crate::expressions::path::spec_mangle;
use crate::expressions::{is_pure, pure_eval, Expr};
use crate::interpreter::{extends, Fault, Interpreter};
use crate::memory::mem_lookup;
use crate::parser::Parser;
use crate::statements::Statement;
use crate::tokenizer::token::Token;
use crate::tokenizer::token_type::TokenType;
use crate::types::Type;

verus! {

/// The table a loop pass runs against: the enclosing table with one fresh
/// frame holding the loop variable's number for this pass.
pub open spec fn loop_frame_mem(
    m: Seq<Map<Seq<char>, Data>>,
    var: Seq<char>,
    i: i64,
) -> Seq<Map<Seq<char>, Data>> {
    m.push(Map::<Seq<char>, Data>::empty().insert(var, Data::Number(i)))
}

/// Whether a loop counts its own variable out loud: pure numeric bounds
/// with a start of at least zero, and a body that is exactly one `print`
/// of the loop variable, the callee being a name other than the loop
/// variable that the enclosing table binds to the `print` built-in.
pub open spec fn is_count_print(f: ExprFor, m: Seq<Map<Seq<char>, Data>>) -> bool {
    &&& is_pure(*f.start_i)
    &&& is_pure(*f.end_i)
    &&& pure_eval(*f.start_i, m) matches Some(sv) && sv matches DataV::Num(s) && s >= 0
    &&& pure_eval(*f.end_i, m) matches Some(ev) && ev is Num
    &&& f.body.body@.len() == 1
    &&& f.body.body@[0] matches Statement::Expr(be) && be matches Expr::Call(c) && {
        &&& *c.path matches Expr::Path(q)
        &&& spec_mangle(q.path@) != f.index_var@
        &&& mem_lookup(m, spec_mangle(q.path@)) matches Some(callee) && callee@
            == DataV::Builtin(crate::builtin::BuiltinFn::Print)
        &&& c.args@.len() == 1
        &&& c.args@[0] matches Expr::Path(p) && p.path@ == seq![f.index_var]
    }
}

/// The number such a loop starts counting from.
pub open spec fn start_num(f: ExprFor, m: Seq<Map<Seq<char>, Data>>) -> i64 {
    pure_eval(*f.start_i, m)->0->Num_0
}

/// The number such a loop stops counting before.
pub open spec fn end_num(f: ExprFor, m: Seq<Map<Seq<char>, Data>>) -> i64 {
    pure_eval(*f.end_i, m)->0->Num_0
}

/// How many passes a range makes: one per number from the start up to,
/// excluding, the end; none when the end does not exceed the start.
pub open spec fn pass_count(s: i64, e: i64) -> int {
    if e <= s {
        0
    } else {
        e - s
    }
}

/// A for loop: its bounds (evaluated once, before the first step), the loop
/// variable's name, and the body.
pub struct ExprFor {
    pub start_i: Box<Expr>,
    pub end_i: Box<Expr>,
    pub index_var: String,
    pub body: ExprBlock,
}

impl ExprFor {
    /// A for-loop node from its parts.
    pub fn new(start_i: Box<Expr>, end_i: Box<Expr>, index_var: String, body: ExprBlock) -> (r:
        ExprFor)
        ensures
            r.start_i == start_i,
            r.end_i == end_i,
            r.index_var == index_var,
            r.body == body,
    {
        ExprFor { start_i, end_i, index_var, body }
    }

    /// Evaluates the loop: both bounds once, up front; then one pass per
    /// number from the start bound up to, excluding, the end bound — the
    /// end bound itself gets no pass. Each pass runs the body in a fresh
    /// scope holding the loop variable, so body locals never leak between
    /// passes. Bounds that are not numbers mean zero passes — defined, if
    /// inelegant; negative bounds are read as zero. No value escapes, and
    /// pure bounds spanning an empty range leave the whole state untouched.
    pub fn eval(&self, interp: &mut Interpreter) -> (r: Result<Data, Fault>)
        requires
            old(interp).memory@.len() >= 1,
        ensures
            final(interp).memory@.len() == old(interp).memory@.len(),
            final(interp).fuel <= old(interp).fuel,
            extends(old(interp).output@, final(interp).output@),
            r matches Ok(d) ==> d == Data::TempNil,
            (is_pure(*self.start_i) && is_pure(*self.end_i) && (match (
                pure_eval(*self.start_i, old(interp).memory@),
                pure_eval(*self.end_i, old(interp).memory@),
            ) {
                (Some(DataV::Num(s)), Some(DataV::Num(e))) => e <= s || e <= 0,
                (Some(v1), Some(v2)) => !(v1 is Num) || !(v2 is Num),
                _ => false,
            })) ==> *final(interp) == *old(interp) && r == Result::<Data, Fault>::Ok(
                Data::TempNil,
            ),
            is_count_print(*self, old(interp).memory@) ==> {
                &&& final(interp).memory@ == old(interp).memory@
                &&& final(interp).fuel == old(interp).fuel
                &&& r == Result::<Data, Fault>::Ok(Data::TempNil)
                &&& final(interp).output@.len() == old(interp).output@.len() + pass_count(
                    start_num(*self, old(interp).memory@),
                    end_num(*self, old(interp).memory@),
                )
                &&& forall|k: int|
                    0 <= k < pass_count(
                        start_num(*self, old(interp).memory@),
                        end_num(*self, old(interp).memory@),
                    ) ==> #[trigger] final(interp).output@[old(interp).output@.len() + k]@
                        == int_str(start_num(*self, old(interp).memory@) + k)
            },
        decreases interp.fuel, *self,
    {
        let start = match self.start_i.eval(interp) {
            Ok(d) => d,
            Err(f) => {
                return Err(f);
            },
        };
        let end = match self.end_i.eval(interp) {
            Ok(d) => d,
            Err(f) => {
                return Err(f);
            },
        };
        match (start, end) {
            (Data::Number(s), Data::Number(e)) => {
                let mut i: i64 = if s < 0 {
                    0
                } else {
                    s
                };
                let stop: i64 = if e < 0 {
                    0
                } else {
                    e
                };
                if stop <= i {
                    return Ok(Data::TempNil);
                }
                while i < stop
                    invariant
                        interp.memory@.len() == old(interp).memory@.len(),
                        old(interp).memory@.len() >= 1,
                        interp.fuel <= old(interp).fuel,
                        extends(old(interp).output@, interp.output@),
                        !(is_pure(*self.start_i) && is_pure(*self.end_i) && (match (
                            pure_eval(*self.start_i, old(interp).memory@),
                            pure_eval(*self.end_i, old(interp).memory@),
                        ) {
                            (Some(DataV::Num(s2)), Some(DataV::Num(e2))) => e2 <= s2 || e2
                                <= 0,
                            (Some(v1), Some(v2)) => !(v1 is Num) || !(v2 is Num),
                            _ => false,
                        })),
                        is_count_print(*self, old(interp).memory@) ==> {
                            &&& stop == end_num(*self, old(interp).memory@)
                            &&& start_num(*self, old(interp).memory@) <= i <= stop
                            &&& interp.memory@ == old(interp).memory@
                            &&& interp.fuel == old(interp).fuel
                            &&& interp.output@.len() == old(interp).output@.len() + (i
                                - start_num(*self, old(interp).memory@))
                            &&& forall|k: int|
                                0 <= k < i - start_num(*self, old(interp).memory@)
                                    ==> #[trigger] interp.output@[old(
                                    interp,
                                ).output@.len() + k]@ == int_str(
                                    start_num(*self, old(interp).memory@) + k,
                                )
                        },
                    decreases stop - i,
                {
                    let ghost pre_pass = *interp;
                    interp.memory.push_scope();
                    interp.memory.insert(self.index_var.clone(), Data::Number(i));
                    proof {
                        assert(decreases_to!(*self => self.body));
                        assert(interp.memory@ =~= loop_frame_mem(
                            pre_pass.memory@,
                            self.index_var@,
                            i,
                        ));
                        assert(loop_frame_mem(
                            pre_pass.memory@,
                            self.index_var@,
                            i,
                        ).drop_last() =~= pre_pass.memory@);
                        if is_count_print(*self, old(interp).memory@) {
                            let m0 = old(interp).memory@;
                            let lm = loop_frame_mem(m0, self.index_var@, i);
                            let c = self.body.body@[0]->Expr_0->Call_0;
                            let q = (*c.path)->Path_0;
                            assert(lm.drop_last() =~= m0);
                            assert(!lm.last().contains_key(spec_mangle(q.path@)));
                            assert(mem_lookup(lm, spec_mangle(q.path@)) == mem_lookup(
                                m0,
                                spec_mangle(q.path@),
                            ));
                            let p = c.args@[0]->Path_0;
                            assert(p.path@ == seq![self.index_var]);
                            assert(p.path@.len() == 1 && p.path@[0] == self.index_var);
                            assert(spec_mangle(p.path@) == self.index_var@);
                            assert(lm.last().contains_key(self.index_var@));
                            assert(pure_eval(c.args@[0], lm) == Some(DataV::Num(i)));
                            assert(is_pure_print(c, lm));
                            assert(is_single_pure_print(self.body.body@, lm));
                        }
                    }
                    let ghost pre_body = *interp;
                    match self.body.eval(interp) {
                        Ok(_) => {
                            interp.memory.pop_scope();
                        },
                        Err(f) => {
                            interp.memory.pop_scope();
                            return Err(f);
                        },
                    }
                    proof {
                        if is_count_print(*self, old(interp).memory@) {
                            let m0 = old(interp).memory@;
                            let s0 = start_num(*self, m0);
                            assert(interp.output@.len() == pre_pass.output@.len() + 1);
                            assert(interp.output@.last()@ == int_str(i as int));
                            assert forall|k: int| 0 <= k < (i + 1) - s0 implies #[trigger] interp.output@[old(
                                interp,
                            ).output@.len() + k]@ == int_str(s0 + k) by {
                                if k < i - s0 {
                                    assert(interp.output@[old(interp).output@.len() + k]
                                        == pre_pass.output@[old(interp).output@.len() + k]);
                                } else {
                                    assert(old(interp).output@.len() + k == interp.output@.len()
                                        - 1);
                                }
                            }
                        }
                    }
                    i = i + 1;
                }
                Ok(Data::TempNil)
            },
            _ => Ok(Data::TempNil),
        }
    }
}

/// Parses `for <name> in <expr> .. <expr> { <block> }`. The loop variable
/// is declared as a number in a pushed type-level scope for the body's
/// parse, popped afterwards — the same scope shape each pass re-creates at
/// run time.
pub fn parse(parser: &mut Parser, _first_token: &Token) -> (r: Result<Expr, ParseErr>)
    requires
        old(parser).sim_memory@.len() >= 1,
    ensures
        final(parser).sim_memory@.len() == old(parser).sim_memory@.len(),
        final(parser).collector.spec_tokens() == old(parser).collector.spec_tokens(),
        final(parser).fuel <= old(parser).fuel,
        r is Ok ==> final(parser).fuel < old(parser).fuel,
        r is Ok ==> r->Ok_0 is For,
        ({
            &&& old(parser).fuel >= 8
            &&& old(parser).collector.spec_pos() + 6 < old(
                parser,
            ).collector.spec_tokens().len()
            &&& old(parser).collector.spec_tokens()[old(
                parser,
            ).collector.spec_pos() as int].token is Identifier
            &&& old(parser).collector.spec_tokens()[old(parser).collector.spec_pos() + 1int].token
                is In
            &&& old(parser).collector.spec_tokens()[old(parser).collector.spec_pos() + 2int].token
                is Number
            &&& old(parser).collector.spec_tokens()[old(parser).collector.spec_pos() + 3int].token
                is Spread
            &&& old(parser).collector.spec_tokens()[old(parser).collector.spec_pos() + 4int].token
                is Number
            &&& old(parser).collector.spec_tokens()[old(parser).collector.spec_pos() + 5int].token
                is LeftCurly
            &&& old(parser).collector.spec_tokens()[old(parser).collector.spec_pos() + 6int].token
                is RightCurly
        }) ==> (r matches Ok(e) && e matches Expr::For(node) && node.body.body@.len() == 0),
    decreases parser.fuel,
{
    if !parser.consume_fuel() {
        return Err(parser.budget_err());
    }
    let var_token = match parser.advance("variable name") {
        Ok(t) => t,
        Err(e) => {
            return Err(e);
        },
    };
    let index_var: String = match &var_token.token {
        TokenType::Identifier(n) => n.clone(),
        _ => {
            return Err(parser.unexpected_token(&var_token, "variable name"));
        },
    };
    let in_token = match parser.advance("In") {
        Ok(t) => t,
        Err(e) => {
            return Err(e);
        },
    };
    if !matches!(in_token.token, TokenType::In) {
        return Err(parser.unexpected_token(&in_token, "In"));
    }
    let start_token = match parser.advance("expression") {
        Ok(t) => t,
        Err(e) => {
            return Err(e);
        },
    };
    let start_expr = match Expr::parse_expr(parser, &start_token) {
        Ok(e) => e,
        Err(e) => {
            return Err(e);
        },
    };
    let spread_token = match parser.advance("Range") {
        Ok(t) => t,
        Err(e) => {
            return Err(e);
        },
    };
    if !matches!(spread_token.token, TokenType::Spread) {
        return Err(parser.unexpected_token(&spread_token, "Range"));
    }
    let end_token = match parser.advance("expression") {
        Ok(t) => t,
        Err(e) => {
            return Err(e);
        },
    };
    let end_expr = match Expr::parse_expr(parser, &end_token) {
        Ok(e) => e,
        Err(e) => {
            return Err(e);
        },
    };
    parser.sim_memory.push_scope();
    parser.sim_memory.insert(index_var.clone(), Type::Number);
    let body_first = match parser.advance("LeftCurly") {
        Ok(t) => t,
        Err(e) => {
            parser.sim_memory.pop_scope();
            return Err(e);
        },
    };
    let body = match ExprBlock::parse_block(parser, &body_first) {
        Ok(b) => b,
        Err(e) => {
            parser.sim_memory.pop_scope();
            return Err(e);
        },
    };
    parser.sim_memory.pop_scope();
    let for_expr = ExprFor::new(Box::new(start_expr), Box::new(end_expr), index_var, body);
    Ok(Expr::For(for_expr))
}

} // verus!

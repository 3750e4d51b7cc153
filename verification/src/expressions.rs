//! The expression tree: a closed union of node kinds, each in its own
//! module, with the spec-level semantics the evaluator is held to.

use vstd::prelude::*;
use vstd::string::StringExecFns;
use crate::data::{Data, DataV};
use crate::errors::{ParseErr, ParseErrKind};
use crate::interpreter::{extends, Fault, Interpreter};
use crate::memory::mem_lookup;
use crate::operations::{apply_op, type_op, Operation};
use crate::parser::Parser;
use crate::statements::Statement;
use crate::tokenizer::token::Token;
use crate::tokenizer::token_type::{spec_to_assign_op, spec_to_data, spec_to_operation, TokenType};
use crate::types::Type;

pub mod assign;
pub mod bang;
pub mod binary;
pub mod block;
pub mod call;
pub mod for_loop;
pub mod if_expr;
pub mod literal;
pub mod path;

use assign::ExprAssign;
use bang::ExprUnary;
use binary::ExprBinary;
use block::ExprBlock;
use call::ExprCall;
use for_loop::ExprFor;
use if_expr::ExprIf;
use literal::ExprLiteral;
use path::ExprPath;

verus! {

/// An expression node. The set is closed: every consumer matches
/// exhaustively.
pub enum Expr {
    Literal(ExprLiteral),
    Binary(ExprBinary),
    Unary(ExprUnary),
    Path(ExprPath),
    Call(ExprCall),
    Assign(ExprAssign),
    Block(ExprBlock),
    For(ExprFor),
    If(ExprIf),
}

/// Whether evaluating an expression can neither touch the symbol table nor
/// produce output: literals, path reads, and operator applications over
/// such expressions.
pub open spec fn is_pure(e: Expr) -> bool
    decreases e,
{
    match e {
        Expr::Literal(_) => true,
        Expr::Path(_) => true,
        Expr::Binary(b) => is_pure(*b.lhs) && is_pure(*b.rhs),
        _ => false,
    }
}

/// The value of a pure expression against a table of values: a literal is
/// itself, a path reads the innermost binding of its mangled name, a binary
/// node applies the operator table; anything that fails — an unbound name,
/// an illegal operand pair — is `None`.
pub open spec fn pure_eval(e: Expr, m: Seq<Map<Seq<char>, Data>>) -> Option<DataV>
    decreases e,
{
    match e {
        Expr::Literal(l) => Some(l.data@),
        Expr::Path(p) => match mem_lookup(m, path::spec_mangle(p.path@)) {
            Some(d) => Some(d@),
            None => None,
        },
        Expr::Binary(b) => match (pure_eval(*b.lhs, m), pure_eval(*b.rhs, m)) {
            (Some(l), Some(r)) => apply_op(b.operation, l, r),
            _ => None,
        },
        _ => None,
    }
}

/// Whether a token continues no expression: not an operator or assignment
/// mark, not a dotted field, not a call's opening parenthesis. The
/// expression loop stops at such a token, pushing it back.
pub open spec fn ends_expression(t: TokenType) -> bool {
    &&& spec_to_operation(t) is None
    &&& spec_to_assign_op(t) is None
    &&& !(t is Dot)
    &&& !(t is LeftParen)
}

/// Whether every statement of a list is a pure expression statement.
pub open spec fn all_pure_exprs(body: Seq<Statement>) -> bool
    decreases body.len(),
{
    body.len() == 0 || ((body[0] matches Statement::Expr(e) && is_pure(e)) && all_pure_exprs(
        body.drop_first(),
    ))
}

/// Whether every expression of a list of pure expression statements
/// evaluates against the given table.
pub open spec fn pure_stmts_succeed(body: Seq<Statement>, m: Seq<Map<Seq<char>, Data>>) -> bool
    decreases body.len(),
{
    body.len() == 0 || (pure_eval(body[0]->Expr_0, m) is Some && pure_stmts_succeed(
        body.drop_first(),
        m,
    ))
}

/// Each member of an all-pure statement list is a pure expression
/// statement.
pub proof fn lemma_all_pure_at(body: Seq<Statement>, i: int)
    requires
        all_pure_exprs(body),
        0 <= i < body.len(),
    ensures
        body[i] matches Statement::Expr(e) && is_pure(e),
    decreases body.len(),
{
    if i > 0 {
        assert(body.drop_first()[i - 1] == body[i]);
        lemma_all_pure_at(body.drop_first(), i - 1);
    }
}

/// A pure statement list succeeds once every member's expression
/// evaluates.
pub proof fn lemma_pure_stmts_all(body: Seq<Statement>, m: Seq<Map<Seq<char>, Data>>)
    requires
        forall|k: int| 0 <= k < body.len() ==> pure_eval(#[trigger] body[k]->Expr_0, m) is Some,
    ensures
        pure_stmts_succeed(body, m),
    decreases body.len(),
{
    if body.len() > 0 {
        let rest = body.drop_first();
        assert forall|k: int| 0 <= k < rest.len() implies pure_eval(
            #[trigger] rest[k]->Expr_0,
            m,
        ) is Some by {
            assert(rest[k] == body[k + 1]);
        }
        lemma_pure_stmts_all(rest, m);
    }
}

/// A pure statement list stays successful when a statement whose
/// expression evaluates is appended.
pub proof fn lemma_pure_stmts_push(s: Seq<Statement>, st: Statement, m: Seq<Map<Seq<char>, Data>>)
    requires
        pure_stmts_succeed(s, m),
        pure_eval(st->Expr_0, m) is Some,
    ensures
        pure_stmts_succeed(s.push(st), m),
    decreases s.len(),
{
    let whole = s.push(st);
    assert(whole[0] == if s.len() == 0 {
        st
    } else {
        s[0]
    });
    if s.len() == 0 {
        assert(whole.drop_first() =~= Seq::<Statement>::empty());
        assert(pure_stmts_succeed(Seq::<Statement>::empty(), m));
    } else {
        assert(whole[0] == s[0]);
        assert(whole.drop_first() =~= s.drop_first().push(st));
        lemma_pure_stmts_push(s.drop_first(), st, m);
    }
}

/// A pure statement list with one failing member fails.
pub proof fn lemma_pure_stmts_fail(body: Seq<Statement>, m: Seq<Map<Seq<char>, Data>>, i: int)
    requires
        0 <= i < body.len(),
        pure_eval(body[i]->Expr_0, m) is None,
    ensures
        !pure_stmts_succeed(body, m),
    decreases body.len(),
{
    if i > 0 {
        assert(body.drop_first()[i - 1] == body[i]);
        lemma_pure_stmts_fail(body.drop_first(), m, i - 1);
    }
}

/// The static type of an expression against a table of types — what the
/// type-checking pass computes without running anything. `None` marks an
/// expression the pass rejects: an unbound name, an illegal operand pair,
/// a callee that is not a function, an assignment to a non-path.
pub open spec fn type_of_expr(e: Expr, tm: Seq<Map<Seq<char>, Type>>) -> Option<Type>
    decreases e,
{
    match e {
        Expr::Literal(l) => Some(l.data.spec_type()),
        Expr::Binary(b) => match (type_of_expr(*b.lhs, tm), type_of_expr(*b.rhs, tm)) {
            (Some(lt), Some(rt)) => type_op(b.operation, lt, rt),
            _ => None,
        },
        Expr::Unary(_) => None,
        Expr::Path(p) => mem_lookup(tm, path::spec_mangle(p.path@)),
        Expr::Call(c) => match type_of_expr(*c.path, tm) {
            Some(Type::Fn(sig)) => if args_typed(c.args@, tm) {
                Some(sig.return_type)
            } else {
                None
            },
            Some(Type::BuiltinFn(_)) => if args_typed(c.args@, tm) {
                Some(Type::TempNil)
            } else {
                None
            },
            _ => None,
        },
        Expr::Assign(a) => if !(*a.lhs is Path) {
            None
        } else {
            match mem_lookup(tm, path::spec_mangle((*a.lhs)->Path_0.path@)) {
                None => None,
                Some(old_t) => match type_of_expr(*a.rhs, tm) {
                    Some(vt) => match a.op {
                        assign::AssignOp::Eq => Some(vt),
                        assign::AssignOp::AddEq => type_op(Operation::Add, old_t, vt),
                    },
                    None => None,
                },
            }
        },
        Expr::Block(bl) => if bl.body@.len() == 0 {
            Some(Type::TempNil)
        } else {
            match bl.body@.last() {
                Statement::Expr(last) => type_of_expr(last, tm),
                _ => Some(Type::TempNil),
            }
        },
        Expr::For(_) => Some(Type::TempNil),
        Expr::If(_) => Some(Type::TempNil),
    }
}

/// Whether the type-checking pass accepts every expression of a list.
pub open spec fn args_typed(args: Seq<Expr>, tm: Seq<Map<Seq<char>, Type>>) -> bool
    decreases args,
{
    if args.len() == 0 {
        true
    } else {
        type_of_expr(args[0], tm) is Some && args_typed(args.drop_first(), tm)
    }
}

/// The kind of an expression node, as diagnostics spell it.
pub open spec fn spec_kind_name(e: Expr) -> Seq<char> {
    match e {
        Expr::Literal(_) => "a literal"@,
        Expr::Binary(_) => "a binary expression"@,
        Expr::Unary(_) => "a unary expression"@,
        Expr::Path(_) => "a path"@,
        Expr::Call(_) => "a call"@,
        Expr::Assign(_) => "an assignment"@,
        Expr::Block(_) => "a block"@,
        Expr::For(_) => "a for loop"@,
        Expr::If(_) => "an if expression"@,
    }
}

impl Expr {
    /// The kind of this node, as diagnostics spell it.
    pub fn kind_name(&self) -> (r: String)
        ensures
            r@ == spec_kind_name(*self),
    {
        match self {
            Expr::Literal(_) => String::from_str("a literal"),
            Expr::Binary(_) => String::from_str("a binary expression"),
            Expr::Unary(_) => String::from_str("a unary expression"),
            Expr::Path(_) => String::from_str("a path"),
            Expr::Call(_) => String::from_str("a call"),
            Expr::Assign(_) => String::from_str("an assignment"),
            Expr::Block(_) => String::from_str("a block"),
            Expr::For(_) => String::from_str("a for loop"),
            Expr::If(_) => String::from_str("an if expression"),
        }
    }

    /// The flat symbol-table key this expression refers to, where it is a
    /// path; anything else cannot stand for a binding.
    pub fn mangle_path(&self) -> (r: Result<String, ParseErrKind>)
        ensures
            match r {
                Ok(s) => *self matches Expr::Path(p) && s@ == path::spec_mangle(p.path@),
                Err(e) => !(*self is Path) && (e matches ParseErrKind::InvalidPathUse(w) && w@
                    == spec_kind_name(*self)),
            },
    {
        match self {
            Expr::Path(p) => Ok(p.mangle()),
            _ => Err(ParseErrKind::InvalidPathUse(self.kind_name())),
        }
    }

    /// Evaluates this expression against the evaluator's state: values flow
    /// out, assignments and declarations write the value-level table, and
    /// `print` appends to the output. The table's depth is preserved, output
    /// only grows, and the call budget never increases; a pure expression
    /// leaves the whole state untouched and returns exactly what
    /// `pure_eval` gives it.
    pub fn eval(&self, interp: &mut Interpreter) -> (r: Result<Data, Fault>)
        requires
            old(interp).memory@.len() >= 1,
        ensures
            final(interp).memory@.len() == old(interp).memory@.len(),
            final(interp).fuel <= old(interp).fuel,
            extends(old(interp).output@, final(interp).output@),
            is_pure(*self) ==> *final(interp) == *old(interp) && (match r {
                Ok(d) => pure_eval(*self, old(interp).memory@) == Some(d@),
                Err(_) => pure_eval(*self, old(interp).memory@) is None,
            }),
            (*self is Call && call::is_pure_print((*self)->Call_0, old(interp).memory@)) ==> {
                &&& final(interp).memory == old(interp).memory
                &&& final(interp).fuel == old(interp).fuel
                &&& (match pure_eval((*self)->Call_0.args@[0], old(interp).memory@) {
                    Some(v) => v is Str || v is Num,
                    None => false,
                }) ==> r is Ok
                &&& match r {
                    Ok(d) => {
                        &&& d == Data::TempNil
                        &&& final(interp).output@.len() == old(interp).output@.len() + 1
                        &&& match pure_eval(
                            (*self)->Call_0.args@[0],
                            old(interp).memory@,
                        ) {
                            Some(DataV::Str(s)) => final(interp).output@.last()@ == s,
                            Some(DataV::Num(n)) => final(interp).output@.last()@
                                == crate::errors::int_str(n as int),
                            _ => false,
                        }
                    },
                    Err(_) => final(interp).output@ == old(interp).output@,
                }
            },
        decreases interp.fuel, *self,
    {
        match self {
            Expr::Literal(l) => l.eval(interp),
            Expr::Binary(b) => b.eval(interp),
            Expr::Unary(_) => Err(Fault::UnsupportedConstruct),
            Expr::Path(p) => p.eval(interp),
            Expr::Call(c) => c.eval(interp),
            Expr::Assign(a) => a.eval(interp),
            Expr::Block(bl) => bl.eval(interp),
            Expr::For(f) => f.eval(interp),
            Expr::If(i) => i.eval(interp),
        }
    }

    /// Parses one primary expression from its first token: a literal, a
    /// known identifier, a for loop, an if expression, a block, or a
    /// parenthesized expression — each first token opens exactly its own
    /// node kind. A literal costs one parsing step and touches nothing
    /// else.
    pub fn parse_expr_side(parser: &mut Parser, first_token: &Token) -> (r: Result<
        Expr,
        ParseErr,
    >)
        requires
            old(parser).sim_memory@.len() >= 1,
        ensures
            final(parser).sim_memory@.len() == old(parser).sim_memory@.len(),
            final(parser).collector.spec_tokens() == old(parser).collector.spec_tokens(),
            final(parser).fuel <= old(parser).fuel,
            r is Ok ==> final(parser).fuel < old(parser).fuel,
            (spec_to_data(first_token.token) is Some && old(parser).fuel > 0) ==> {
                &&& r matches Ok(e) && e matches Expr::Literal(l) && Some(l.data)
                    == spec_to_data(first_token.token)
                &&& final(parser).collector == old(parser).collector
                &&& final(parser).sim_memory == old(parser).sim_memory
                &&& final(parser).fuel == old(parser).fuel - 1
            },
            (r is Ok && first_token.token is For) ==> r->Ok_0 is For,
            (r is Ok && first_token.token is If) ==> r->Ok_0 is If,
            (r is Ok && first_token.token is LeftCurly) ==> r->Ok_0 is Block,
            (r is Ok && first_token.token is Identifier) ==> r->Ok_0 is Path,
        decreases parser.fuel,
    {
        if !parser.consume_fuel() {
            return Err(parser.budget_err());
        }
        if let Some(data) = first_token.token.to_data() {
            return Ok(Expr::Literal(literal::ExprLiteral::new(data)));
        }
        match &first_token.token {
            TokenType::Identifier(field_name) => path::parse(
                parser,
                first_token,
                None,
                field_name,
            ),
            TokenType::For => for_loop::parse(parser, first_token),
            TokenType::If => if_expr::parse(parser),
            TokenType::LeftCurly => block::parse(parser),
            TokenType::LeftParen => {
                let inner_token = match parser.advance("expression") {
                    Ok(t) => t,
                    Err(e) => {
                        return Err(e);
                    },
                };
                let inner = match Expr::parse_expr(parser, &inner_token) {
                    Ok(e) => e,
                    Err(e) => {
                        return Err(e);
                    },
                };
                let close_token = match parser.advance("RightParen") {
                    Ok(t) => t,
                    Err(e) => {
                        return Err(e);
                    },
                };
                if matches!(close_token.token, TokenType::RightParen) {
                    Ok(inner)
                } else {
                    Err(parser.unexpected_token(&close_token, "RightParen"))
                }
            },
            _ => Err(parser.unexpected_token(first_token, "expression")),
        }
    }

    /// Parses a full expression from its first token: one primary
    /// expression, then any run of binary operators, assignments, dotted
    /// fields and call argument lists, each folded in left-associatively —
    /// every operator binds equally, left to right. Stops, with one token
    /// of push-back, at the first token that continues none of these; a
    /// lone literal before such a token is exactly that literal.
    pub fn parse_expr(parser: &mut Parser, first_token: &Token) -> (r: Result<Expr, ParseErr>)
        requires
            old(parser).sim_memory@.len() >= 1,
        ensures
            final(parser).sim_memory@.len() == old(parser).sim_memory@.len(),
            final(parser).collector.spec_tokens() == old(parser).collector.spec_tokens(),
            final(parser).fuel <= old(parser).fuel,
            r is Ok ==> final(parser).fuel < old(parser).fuel,
            ({
                &&& old(parser).fuel >= 2
                &&& spec_to_data(first_token.token) is Some
                &&& old(parser).collector.spec_pos() < old(
                    parser,
                ).collector.spec_tokens().len()
                &&& ends_expression(
                    old(parser).collector.spec_tokens()[old(
                        parser,
                    ).collector.spec_pos() as int].token,
                )
            }) ==> {
                &&& r matches Ok(e) && e matches Expr::Literal(l) && Some(l.data)
                    == spec_to_data(first_token.token)
                &&& final(parser).collector.spec_pos() == old(parser).collector.spec_pos()
                &&& final(parser).sim_memory == old(parser).sim_memory
                &&& final(parser).fuel == old(parser).fuel - 2
            },
        decreases parser.fuel,
    {
        if !parser.consume_fuel() {
            return Err(parser.budget_err());
        }
        let mut expr = match Expr::parse_expr_side(parser, first_token) {
            Ok(e) => e,
            Err(e) => {
                return Err(e);
            },
        };
        loop
            invariant
                parser.sim_memory@.len() == old(parser).sim_memory@.len(),
                old(parser).sim_memory@.len() >= 1,
                parser.collector.spec_tokens() == old(parser).collector.spec_tokens(),
                parser.fuel < old(parser).fuel,
                ({
                    &&& old(parser).fuel >= 2
                    &&& spec_to_data(first_token.token) is Some
                    &&& old(parser).collector.spec_pos() < old(
                        parser,
                    ).collector.spec_tokens().len()
                    &&& ends_expression(
                        old(parser).collector.spec_tokens()[old(
                            parser,
                        ).collector.spec_pos() as int].token,
                    )
                }) ==> {
                    &&& expr matches Expr::Literal(l) && Some(l.data)
                        == spec_to_data(first_token.token)
                    &&& parser.collector.spec_pos() == old(parser).collector.spec_pos()
                    &&& parser.sim_memory == old(parser).sim_memory
                    &&& parser.fuel == old(parser).fuel - 2
                },
            decreases parser.fuel,
        {
            let next_token = match parser.collector.next() {
                Some(t) => t,
                None => {
                    return Ok(expr);
                },
            };
            if let Some(operation) = next_token.token.to_operation() {
                expr = match binary::parse(parser, first_token, expr, operation) {
                    Ok(e) => e,
                    Err(e) => {
                        return Err(e);
                    },
                };
            } else if let Some(assign_op) = next_token.token.to_assign_op() {
                expr = match assign::parse(parser, first_token, expr, assign_op) {
                    Ok(e) => e,
                    Err(e) => {
                        return Err(e);
                    },
                };
            } else {
                match &next_token.token {
                    TokenType::Dot => {
                        let field_token = match parser.advance("field") {
                            Ok(t) => t,
                            Err(e) => {
                                return Err(e);
                            },
                        };
                        let name: String = match &field_token.token {
                            TokenType::Identifier(n) => n.clone(),
                            _ => {
                                return Err(parser.unexpected_token(&field_token, "field"));
                            },
                        };
                        expr = match path::parse(parser, &field_token, Some(expr), &name) {
                            Ok(e) => e,
                            Err(e) => {
                                return Err(e);
                            },
                        };
                    },
                    TokenType::LeftParen => {
                        expr = match call::parse(parser, &next_token, expr) {
                            Ok(e) => e,
                            Err(e) => {
                                return Err(e);
                            },
                        };
                    },
                    _ => {
                        parser.collector.back();
                        return Ok(expr);
                    },
                }
            }
        }
    }

    /// The static type of this expression against the parser's type-level
    /// table. Succeeds exactly where the type-checking pass accepts the
    /// expression, with the type `type_of_expr` gives it.
    pub fn typ(&self, parser: &Parser) -> (r: Result<Type, ParseErrKind>)
        ensures
            match r {
                Ok(t) => type_of_expr(*self, parser.sim_memory@) == Some(t),
                Err(_) => type_of_expr(*self, parser.sim_memory@) is None,
            },
        decreases *self,
    {
        match self {
            Expr::Literal(l) => Ok(l.data.get_type()),
            Expr::Binary(b) => b.typ(parser),
            Expr::Unary(_) => Err(
                ParseErrKind::UnexpectedToken(
                    self.kind_name(),
                    String::from_str("a supported expression"),
                ),
            ),
            Expr::Path(p) => p.typ(parser),
            Expr::Call(c) => c.typ(parser),
            Expr::Assign(a) => a.typ(parser),
            Expr::Block(bl) => bl.typ(parser),
            Expr::For(_) => Ok(Type::TempNil),
            Expr::If(_) => Ok(Type::TempNil),
        }
    }
}

} // verus!

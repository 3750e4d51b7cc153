//! A call expression: a callee and its ordered arguments.

use vstd::prelude::*;
use crate::builtin::BuiltinFn;
use crate::data::{Data, DataV};
use crate::errors::{int_str, ParseErr, ParseErrKind};
use crate::expressions::{
    all_pure_exprs, args_typed, is_pure, pure_eval, pure_stmts_succeed, type_of_expr, Expr,
};
use crate::interpreter::{extends, Fault, Interpreter};
use crate::parser::Parser;
use crate::statements::fn_decl::FunctionDeclaration;
use crate::tokenizer::token::Token;
use crate::tokenizer::token_type::TokenType;
use crate::types::Type;

verus! {

/// Whether a call is a `print` of one pure argument — the case whose whole
/// effect is pinned down: exactly one line appended to the output.
pub open spec fn is_pure_print(c: ExprCall, m: Seq<Map<Seq<char>, Data>>) -> bool {
    &&& is_pure(*c.path)
    &&& pure_eval(*c.path, m) == Some(DataV::Builtin(BuiltinFn::Print))
    &&& c.args@.len() == 1
    &&& is_pure(c.args@[0])
}

/// The function declaration a call's pure callee names.
pub open spec fn callee_decl(c: ExprCall, m: Seq<Map<Seq<char>, Data>>) -> FunctionDeclaration {
    (pure_eval(*c.path, m)->0)->Fn_0
}

/// Whether a parameter list fits a pure argument list: one argument per
/// parameter, distinct parameter names, every argument pure and evaluating.
pub open spec fn params_match_pure_args(
    params: Seq<(String, Type)>,
    args: Seq<Expr>,
    m: Seq<Map<Seq<char>, Data>>,
) -> bool {
    &&& params.len() == args.len()
    &&& forall|j1: int, j2: int|
        0 <= j1 < j2 < params.len() ==> (#[trigger] params[j1].0@) != (#[trigger] params[j2].0@)
    &&& forall|j: int|
        0 <= j < args.len() ==> is_pure(#[trigger] args[j]) && pure_eval(args[j], m) is Some
}

/// Whether a call names (through a pure callee) a function whose body is
/// all pure expression statements, fed one pure argument per parameter,
/// the parameter names distinct — the case whose whole behaviour is pinned
/// down: the body provably runs under exactly the parameter frame.
pub open spec fn is_pure_body_call(c: ExprCall, m: Seq<Map<Seq<char>, Data>>) -> bool {
    &&& is_pure(*c.path)
    &&& pure_eval(*c.path, m) matches Some(pv) && pv matches DataV::Fn(decl) && all_pure_exprs(
        decl.body.body@,
    ) && params_match_pure_args(decl.sig.args_types@, c.args@, m)
}

/// Whether a map is exactly the frame a call pushes: each parameter name
/// bound to a value viewing as its argument's, by position, and no other
/// name bound.
pub open spec fn is_call_frame(
    frame: Map<Seq<char>, Data>,
    params: Seq<(String, Type)>,
    args: Seq<Expr>,
    m: Seq<Map<Seq<char>, Data>>,
) -> bool {
    &&& forall|n: Seq<char>|
        #[trigger] frame.contains_key(n) <==> exists|j: int|
            0 <= j < params.len() && params[j].0@ == n
    &&& forall|j: int|
        0 <= j < params.len() ==> frame.contains_key(#[trigger] params[j].0@) && Some(
            frame[params[j].0@]@,
        ) == pure_eval(args[j], m)
}

/// Whether a frame and a result together witness a pure-body call done
/// right: the frame is the call's parameter frame, and the result is the
/// body's own outcome under it — its final expression's value on success,
/// failure exactly when some body expression fails.
pub open spec fn call_outcome_matches(
    frame: Map<Seq<char>, Data>,
    c: ExprCall,
    m: Seq<Map<Seq<char>, Data>>,
    r: Result<Data, Fault>,
) -> bool {
    &&& is_call_frame(frame, callee_decl(c, m).sig.args_types@, c.args@, m)
    &&& match r {
        Ok(d) => {
            &&& pure_stmts_succeed(callee_decl(c, m).body.body@, m.push(frame))
            &&& if callee_decl(c, m).body.body@.len() == 0 {
                d == Data::TempNil
            } else {
                Some(d@) == pure_eval(
                    callee_decl(c, m).body.body@.last()->Expr_0,
                    m.push(frame),
                )
            }
        },
        Err(_) => !pure_stmts_succeed(callee_decl(c, m).body.body@, m.push(frame)),
    }
}

/// A call: the expression naming the callee, and the argument expressions
/// in order.
pub struct ExprCall {
    pub path: Box<Expr>,
    pub args: Vec<Expr>,
}

impl ExprCall {
    /// A call node from callee and arguments.
    pub fn new(path: Box<Expr>, args: Vec<Expr>) -> (r: ExprCall)
        ensures
            r.path == path,
            r.args == args,
    {
        ExprCall { path, args }
    }

    /// The static type of the call: the callee must type as a function or a
    /// built-in, every argument must type, and the result is the callee's
    /// declared return type (a built-in's own rule for built-ins).
    pub fn typ(&self, parser: &Parser) -> (r: Result<Type, ParseErrKind>)
        ensures
            match r {
                Ok(t) => type_of_expr(Expr::Call(*self), parser.sim_memory@) == Some(t),
                Err(_) => type_of_expr(Expr::Call(*self), parser.sim_memory@) is None,
            },
        decreases *self,
    {
        let fn_type = self.path.typ(parser)?;
        let mut arg_types: Vec<Type> = Vec::new();
        let mut i: usize = 0;
        while i < self.args.len()
            invariant
                i <= self.args@.len(),
                forall|k: int| 0 <= k < i ==> type_of_expr(self.args@[k], parser.sim_memory@)
                    is Some,
            decreases self.args@.len() - i,
        {
            proof {
                assert(decreases_to!(*self => self.args));
                assert(decreases_to!(self.args => self.args@));
                assert(decreases_to!(self.args@ => self.args@[i as int]));
            }
            let arg = &self.args[i];
            match arg.typ(parser) {
                Ok(t) => {
                    arg_types.push(t);
                },
                Err(e) => {
                    proof {
                        lemma_args_typed_at(self.args@, parser.sim_memory@, i as int);
                    }
                    return Err(e);
                },
            }
            i = i + 1;
        }
        proof {
            lemma_args_typed_all(self.args@, parser.sim_memory@);
        }
        match fn_type {
            Type::Fn(sig) => Ok(sig.return_type.clone()),
            Type::BuiltinFn(b) => match b.type_check(&arg_types) {
                Ok(t) => Ok(t),
                Err(e) => Err(e),
            },
            _ => Err(ParseErrKind::NotCallable),
        }
    }

    /// Evaluates the call: the callee, then the arguments left to right. A
    /// user function runs its body in a fresh scope binding each parameter
    /// name to its argument by position, popped on the way out — the body
    /// sees the caller's bindings only beneath that frame; where the body
    /// and the arguments are pure, that is pinned down exactly: the result
    /// is the body's value under the parameter frame, and the frame is
    /// gone afterwards. A built-in dispatches to its native implementation;
    /// a `print` of one pure argument appends exactly that value's
    /// rendering to the output and touches nothing else. Each user call
    /// costs one step of the call budget.
    pub fn eval(&self, interp: &mut Interpreter) -> (r: Result<Data, Fault>)
        requires
            old(interp).memory@.len() >= 1,
        ensures
            final(interp).memory@.len() == old(interp).memory@.len(),
            final(interp).fuel <= old(interp).fuel,
            extends(old(interp).output@, final(interp).output@),
            is_pure_print(*self, old(interp).memory@) ==> {
                &&& final(interp).memory == old(interp).memory
                &&& final(interp).fuel == old(interp).fuel
                &&& (match pure_eval(self.args@[0], old(interp).memory@) {
                    Some(v) => v is Str || v is Num,
                    None => false,
                }) ==> r is Ok
                &&& match r {
                    Ok(d) => {
                        &&& d == Data::TempNil
                        &&& final(interp).output@.len() == old(interp).output@.len() + 1
                        &&& match pure_eval(self.args@[0], old(interp).memory@) {
                            Some(DataV::Str(s)) => final(interp).output@.last()@ == s,
                            Some(DataV::Num(n)) => final(interp).output@.last()@
                                == int_str(n as int),
                            _ => false,
                        }
                    },
                    Err(_) => final(interp).output@ == old(interp).output@,
                }
            },
            ({
                &&& is_pure(*self.path)
                &&& pure_eval(*self.path, old(interp).memory@) matches Some(pv)
                &&& pv matches DataV::Fn(decl)
                &&& all_pure_exprs(decl.body.body@)
                &&& self.args@.len() == 0
                &&& old(interp).fuel > 0
            }) ==> {
                &&& final(interp).memory@ == old(interp).memory@
                &&& final(interp).output == old(interp).output
                &&& final(interp).fuel == old(interp).fuel - 1
                &&& match r {
                    Ok(d) => {
                        &&& pure_stmts_succeed(
                            (pure_eval(
                                *self.path,
                                old(interp).memory@,
                            )->0)->Fn_0.body.body@,
                            old(interp).memory@.push(Map::<Seq<char>, Data>::empty()),
                        )
                        &&& if (pure_eval(
                            *self.path,
                            old(interp).memory@,
                        )->0)->Fn_0.body.body@.len() == 0 {
                            d == Data::TempNil
                        } else {
                            Some(d@) == pure_eval(
                                (pure_eval(
                                    *self.path,
                                    old(interp).memory@,
                                )->0)->Fn_0.body.body@.last()->Expr_0,
                                old(interp).memory@.push(Map::<Seq<char>, Data>::empty()),
                            )
                        }
                    },
                    Err(_) => !pure_stmts_succeed(
                        (pure_eval(*self.path, old(interp).memory@)->0)->Fn_0.body.body@,
                        old(interp).memory@.push(Map::<Seq<char>, Data>::empty()),
                    ),
                }
            },
            (is_pure_body_call(*self, old(interp).memory@) && old(interp).fuel > 0) ==> {
                &&& final(interp).memory@ == old(interp).memory@
                &&& final(interp).output == old(interp).output
                &&& final(interp).fuel == old(interp).fuel - 1
                &&& exists|frame: Map<Seq<char>, Data>| #[trigger] call_outcome_matches(
                    frame,
                    *self,
                    old(interp).memory@,
                    r,
                )
            },
        decreases interp.fuel, *self,
    {
        let fn_data = match self.path.eval(interp) {
            Ok(d) => d,
            Err(f) => {
                return Err(f);
            },
        };
        let mut args: Vec<Data> = Vec::new();
        let mut i: usize = 0;
        while i < self.args.len()
            invariant
                i <= self.args@.len(),
                interp.memory@.len() == old(interp).memory@.len(),
                old(interp).memory@.len() >= 1,
                interp.fuel <= old(interp).fuel,
                extends(old(interp).output@, interp.output@),
                args@.len() == i,
                is_pure_print(*self, old(interp).memory@) ==> {
                    &&& *interp == *old(interp)
                    &&& forall|k: int|
                        0 <= k < i ==> Some(#[trigger] args@[k]@) == pure_eval(
                            self.args@[k],
                            old(interp).memory@,
                        )
                },
                (is_pure(*self.path) && self.args@.len() == 0) ==> *interp == *old(interp),
                is_pure_body_call(*self, old(interp).memory@) ==> {
                    &&& *interp == *old(interp)
                    &&& forall|j: int|
                        0 <= j < i ==> Some(#[trigger] args@[j]@) == pure_eval(
                            self.args@[j],
                            old(interp).memory@,
                        )
                },
            decreases self.args@.len() - i,
        {
            proof {
                assert(decreases_to!(*self => self.args));
                assert(decreases_to!(self.args => self.args@));
                assert(decreases_to!(self.args@ => self.args@[i as int]));
            }
            let arg = &self.args[i];
            match arg.eval(interp) {
                Ok(d) => {
                    args.push(d);
                },
                Err(f) => {
                    return Err(f);
                },
            }
            i = i + 1;
        }
        match fn_data {
            Data::Fn(decl) => {
                let ghost pre_call = *interp;
                if interp.fuel == 0 {
                    return Err(Fault::OutOfFuel);
                }
                interp.fuel = interp.fuel - 1;
                if args.len() > decl.sig.args_types.len() {
                    return Err(Fault::TooManyArguments);
                }
                interp.memory.push_scope();
                proof {
                    assert(interp.memory@.drop_last() =~= pre_call.memory@);
                }
                let mut k: usize = 0;
                while k < args.len()
                    invariant
                        k <= args@.len(),
                        args@.len() <= decl.sig.args_types@.len(),
                        interp.memory@.len() == old(interp).memory@.len() + 1,
                        old(interp).memory@.len() >= 1,
                        interp.fuel < old(interp).fuel,
                        extends(old(interp).output@, interp.output@),
                        args@.len() == 0 ==> {
                            &&& interp.memory@ == pre_call.memory@.push(
                                Map::<Seq<char>, Data>::empty(),
                            )
                            &&& interp.output == pre_call.output
                            &&& interp.fuel == pre_call.fuel - 1
                        },
                        (is_pure_body_call(*self, old(interp).memory@) && old(interp).fuel
                            > 0 && pre_call == *old(interp) && *decl == callee_decl(
                            *self,
                            old(interp).memory@,
                        ) && args@.len() == decl.sig.args_types@.len() && (forall|j: int|
                            0 <= j < args@.len() ==> Some(#[trigger] args@[j]@) == pure_eval(
                                self.args@[j],
                                old(interp).memory@,
                            ))) ==> {
                            &&& interp.memory@.drop_last() == old(interp).memory@
                            &&& interp.output == old(interp).output
                            &&& interp.fuel == old(interp).fuel - 1
                            &&& (forall|n: Seq<char>|
                                #[trigger] interp.memory@.last().contains_key(n)
                                    <==> exists|j: int|
                                    0 <= j < k && decl.sig.args_types@[j].0@ == n)
                            &&& (forall|j: int|
                                0 <= j < k ==> interp.memory@.last().contains_key(
                                    #[trigger] decl.sig.args_types@[j].0@,
                                ) && Some(
                                    interp.memory@.last()[decl.sig.args_types@[j].0@]@,
                                ) == pure_eval(self.args@[j], old(interp).memory@))
                        },
                    decreases args@.len() - k,
                {
                    let ghost pre_bind = interp.memory@;
                    let param_name = decl.sig.args_types[k].0.clone();
                    interp.memory.insert(param_name, args[k].clone());
                    proof {
                        assert(interp.memory@.drop_last() =~= pre_bind.drop_last());
                    }
                    k = k + 1;
                }
                let ghost frame = interp.memory@.last();
                let body_result = decl.body.eval(interp);
                proof {
                    assert(pre_call.memory@.push(
                        Map::<Seq<char>, Data>::empty(),
                    ).drop_last() =~= pre_call.memory@);
                    if is_pure_body_call(*self, old(interp).memory@) && old(interp).fuel
                        > 0 {
                        assert(interp.memory@.drop_last().push(frame) =~= interp.memory@);
                        assert(is_call_frame(
                            frame,
                            callee_decl(*self, old(interp).memory@).sig.args_types@,
                            self.args@,
                            old(interp).memory@,
                        ));
                    }
                }
                match body_result {
                    Ok(v) => {
                        interp.memory.pop_scope();
                        proof {
                            if is_pure_body_call(*self, old(interp).memory@) && old(
                                interp,
                            ).fuel > 0 {
                                assert(old(interp).memory@.push(frame).drop_last()
                                    =~= old(interp).memory@);
                                assert(call_outcome_matches(
                                    frame,
                                    *self,
                                    old(interp).memory@,
                                    Result::<Data, Fault>::Ok(v),
                                ));
                            }
                        }
                        Ok(v)
                    },
                    Err(f) => {
                        interp.memory.pop_scope();
                        proof {
                            if is_pure_body_call(*self, old(interp).memory@) && old(
                                interp,
                            ).fuel > 0 {
                                assert(old(interp).memory@.push(frame).drop_last()
                                    =~= old(interp).memory@);
                                assert(call_outcome_matches(
                                    frame,
                                    *self,
                                    old(interp).memory@,
                                    Result::<Data, Fault>::Err(f),
                                ));
                            }
                        }
                        Err(f)
                    },
                }
            },
            Data::BuiltinFn(b) => b.eval(&args, &mut interp.output),
            _ => Err(Fault::NotCallable),
        }
    }
}

/// Folds a call onto an already-parsed expression: parses the argument
/// list up to the closing parenthesis, then requires the callee to type as
/// a function or a built-in — anything else is not callable, rejected
/// before anything can run.
pub fn parse(parser: &mut Parser, first_token: &Token, expr: Expr) -> (r: Result<Expr, ParseErr>)
    requires
        old(parser).sim_memory@.len() >= 1,
    ensures
        final(parser).sim_memory@.len() == old(parser).sim_memory@.len(),
        final(parser).collector.spec_tokens() == old(parser).collector.spec_tokens(),
        final(parser).fuel <= old(parser).fuel,
        r is Ok ==> final(parser).fuel < old(parser).fuel,
        r matches Ok(e) ==> e matches Expr::Call(node) && *node.path == expr,
        ({
            &&& old(parser).fuel >= 2
            &&& old(parser).collector.spec_pos() < old(parser).collector.spec_tokens().len()
            &&& old(parser).collector.spec_tokens()[old(
                parser,
            ).collector.spec_pos() as int].token is RightParen
            &&& type_of_expr(expr, old(parser).sim_memory@) is Some
        }) ==> (match type_of_expr(expr, old(parser).sim_memory@)->0 {
            Type::Fn(_) => r matches Ok(e) && e matches Expr::Call(node) && node.args@.len()
                == 0,
            Type::BuiltinFn(_) => r matches Ok(e) && e matches Expr::Call(node)
                && node.args@.len() == 0,
            _ => r matches Err(pe) && pe.err_kind is NotCallable && pe.token_pos
                == first_token.token_pos,
        }),
    decreases parser.fuel,
{
    if !parser.consume_fuel() {
        return Err(parser.budget_err());
    }
    let mut args: Vec<Expr> = Vec::new();
    loop
        invariant_except_break
            ({
                &&& old(parser).fuel >= 2
                &&& old(parser).collector.spec_pos() < old(
                    parser,
                ).collector.spec_tokens().len()
                &&& old(parser).collector.spec_tokens()[old(
                    parser,
                ).collector.spec_pos() as int].token is RightParen
            }) ==> {
                &&& args@.len() == 0
                &&& parser.sim_memory == old(parser).sim_memory
                &&& parser.collector.spec_pos() == old(parser).collector.spec_pos()
                &&& parser.fuel == old(parser).fuel - 1
            },
        invariant
            parser.sim_memory@.len() == old(parser).sim_memory@.len(),
            old(parser).sim_memory@.len() >= 1,
            parser.collector.spec_tokens() == old(parser).collector.spec_tokens(),
            parser.fuel < old(parser).fuel,
        ensures
            ({
                &&& old(parser).fuel >= 2
                &&& old(parser).collector.spec_pos() < old(
                    parser,
                ).collector.spec_tokens().len()
                &&& old(parser).collector.spec_tokens()[old(
                    parser,
                ).collector.spec_pos() as int].token is RightParen
            }) ==> {
                &&& args@.len() == 0
                &&& parser.sim_memory == old(parser).sim_memory
            },
        decreases parser.fuel,
    {
        if !parser.consume_fuel() {
            return Err(parser.budget_err());
        }
        let next_token = match parser.advance("argument or RightParen") {
            Ok(t) => t,
            Err(e) => {
                return Err(e);
            },
        };
        if matches!(next_token.token, TokenType::RightParen) {
            break;
        }
        let arg_expr = match Expr::parse_expr(parser, &next_token) {
            Ok(e) => e,
            Err(e) => {
                return Err(e);
            },
        };
        args.push(arg_expr);
        let sep_token = match parser.advance("Comma or RightParen") {
            Ok(t) => t,
            Err(e) => {
                return Err(e);
            },
        };
        match sep_token.token {
            TokenType::Comma => {},
            TokenType::RightParen => {
                break;
            },
            _ => {
                return Err(parser.unexpected_token(&sep_token, "Comma or RightParen"));
            },
        }
    }
    let expr_type = match expr.typ(parser) {
        Ok(t) => t,
        Err(k) => {
            return Err(k.from_token(first_token));
        },
    };
    match expr_type {
        Type::Fn(_) => {},
        Type::BuiltinFn(_) => {},
        _ => {
            return Err(ParseErrKind::NotCallable.from_token(first_token));
        },
    }
    Ok(Expr::Call(ExprCall::new(Box::new(expr), args)))
}

/// An argument list with one untypable member is itself untypable.
proof fn lemma_args_typed_at(args: Seq<Expr>, tm: Seq<Map<Seq<char>, Type>>, i: int)
    requires
        0 <= i < args.len(),
        type_of_expr(args[i], tm) is None,
    ensures
        !args_typed(args, tm),
    decreases args.len(),
{
    if i > 0 {
        assert(args.drop_first()[i - 1] == args[i]);
        lemma_args_typed_at(args.drop_first(), tm, i - 1);
    }
}

/// An argument list whose every member types is typable.
proof fn lemma_args_typed_all(args: Seq<Expr>, tm: Seq<Map<Seq<char>, Type>>)
    requires
        forall|k: int| 0 <= k < args.len() ==> type_of_expr(args[k], tm) is Some,
    ensures
        args_typed(args, tm),
    decreases args.len(),
{
    if args.len() > 0 {
        let rest = args.drop_first();
        assert forall|k: int| 0 <= k < rest.len() implies type_of_expr(rest[k], tm) is Some by {
            assert(rest[k] == args[k + 1]);
        }
        lemma_args_typed_all(rest, tm);
    }
}

} // verus!

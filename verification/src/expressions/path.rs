//! A path expression: an identifier or dotted identifier chain referring to
//! a binding, stored as an ordered list of segments and looked up under one
//! flat mangled key.

use vstd::prelude::*;
use vstd::string::StringExecFns;
use crate::data::Data;
use crate::errors::{push_char, ParseErr, ParseErrKind};
use crate::tokenizer::token::Token;
use crate::expressions::{pure_eval, type_of_expr, Expr};
use crate::interpreter::{Fault, Interpreter};
use crate::memory::mem_lookup;
use crate::parser::Parser;
use crate::types::Type;

verus! {

/// A path: its segments in order, `a.b.c` held as three names.
pub struct ExprPath {
    pub path: Vec<String>,
}

impl ExprPath {
    /// A path node from its segments.
    pub fn new(path: Vec<String>) -> (r: ExprPath)
        ensures
            r.path == path,
    {
        ExprPath { path }
    }

    /// The flat symbol-table key of this path: its segments joined with
    /// dots.
    pub fn mangle(&self) -> (r: String)
        ensures
            r@ == spec_mangle(self.path@),
    {
        let mut s = String::new();
        let mut i: usize = 0;
        while i < self.path.len()
            invariant
                i <= self.path@.len(),
                s@ == spec_mangle(self.path@.subrange(0, i as int)),
            decreases self.path@.len() - i,
        {
            if i > 0 {
                push_char(&mut s, '.');
            }
            s.append(self.path[i].as_str());
            proof {
                let pre = self.path@.subrange(0, i + 1);
                assert(pre.drop_last() =~= self.path@.subrange(0, i as int));
                assert(pre.last() == self.path@[i as int]);
                if i > 0 {
                    assert(s@ =~= spec_mangle(pre));
                } else {
                    assert(s@ =~= spec_mangle(pre));
                }
            }
            i = i + 1;
        }
        proof {
            assert(self.path@.subrange(0, self.path@.len() as int) =~= self.path@);
        }
        s
    }

    /// The static type of the binding this path refers to; a name bound
    /// nowhere is unknown.
    pub fn typ(&self, parser: &Parser) -> (r: Result<Type, ParseErrKind>)
        ensures
            match r {
                Ok(t) => type_of_expr(Expr::Path(*self), parser.sim_memory@) == Some(t),
                Err(_) => type_of_expr(Expr::Path(*self), parser.sim_memory@) is None,
            },
    {
        let mangled = self.mangle();
        match parser.sim_memory.get(&mangled) {
            Some(t) => Ok(t.clone()),
            None => Err(ParseErrKind::UnknownField(mangled)),
        }
    }

    /// Evaluates the path: a clone of the innermost binding of its mangled
    /// name, with the evaluator's state untouched; a name bound nowhere is
    /// a fault the type-checking pass should have made unreachable.
    pub fn eval(&self, interp: &mut Interpreter) -> (r: Result<Data, Fault>)
        ensures
            *final(interp) == *old(interp),
            match r {
                Ok(d) => pure_eval(Expr::Path(*self), old(interp).memory@) == Some(d@),
                Err(f) => pure_eval(Expr::Path(*self), old(interp).memory@) is None && f
                    == Fault::MissingBinding,
            },
    {
        let mangled = self.mangle();
        match interp.memory.get(&mangled) {
            Some(d) => Ok(d.clone()),
            None => Err(Fault::MissingBinding),
        }
    }
}

/// Parses one path step: a bare identifier, or one more dotted segment on
/// an already-parsed path — the new segment list is the old one with the
/// name appended. A name whose mangled key is bound nowhere in the
/// type-level table is rejected here, with the unknown-field error at the
/// identifier's position, before anything can run; a dotted segment on
/// something that is not a path cannot stand for a binding. The table and
/// the cursor come out exactly as they went in.
pub fn parse(parser: &mut Parser, first_token: &Token, base: Option<Expr>, field_name: &String)
    -> (r: Result<Expr, ParseErr>)
    requires
        old(parser).sim_memory@.len() >= 1,
    ensures
        final(parser).sim_memory == old(parser).sim_memory,
        final(parser).collector == old(parser).collector,
        final(parser).fuel <= old(parser).fuel,
        r is Ok ==> final(parser).fuel < old(parser).fuel,
        match r {
            Ok(e) => {
                &&& (base matches Some(b) ==> b is Path)
                &&& e matches Expr::Path(p) && p.path@ == (match base {
                    Some(b2) => b2->Path_0.path@,
                    None => Seq::<String>::empty(),
                }).push(*field_name) && mem_lookup(
                    old(parser).sim_memory@,
                    spec_mangle(p.path@),
                ) is Some
                &&& old(parser).fuel > 0
            },
            Err(pe) => {
                &&& (old(parser).fuel == 0 ==> pe.err_kind is ParseBudgetExhausted)
                &&& (old(parser).fuel > 0 && (match base {
                    Some(b) => !(b is Path),
                    None => false,
                }) ==> pe.err_kind is InvalidPathUse && pe.token_pos
                    == first_token.token_pos)
                &&& (old(parser).fuel > 0 && (match base {
                    Some(b) => b is Path,
                    None => true,
                }) ==> {
                    &&& pe.err_kind matches ParseErrKind::UnknownField(mname)
                    &&& mname@ == spec_mangle(
                        (match base {
                            Some(b2) => b2->Path_0.path@,
                            None => Seq::<String>::empty(),
                        }).push(*field_name),
                    )
                    &&& mem_lookup(
                        old(parser).sim_memory@,
                        spec_mangle(
                            (match base {
                                Some(b2) => b2->Path_0.path@,
                                None => Seq::<String>::empty(),
                            }).push(*field_name),
                        ),
                    ) is None
                    &&& pe.token_pos == first_token.token_pos
                })
            },
        },
    decreases parser.fuel,
{
    if !parser.consume_fuel() {
        return Err(parser.budget_err());
    }
    let mut segments: Vec<String> = match base {
        None => Vec::new(),
        Some(Expr::Path(p)) => p.path,
        Some(other) => {
            return Err(
                ParseErrKind::InvalidPathUse(other.kind_name()).from_token(first_token),
            );
        },
    };
    segments.push(field_name.clone());
    let expr_path = ExprPath::new(segments);
    let mangled = expr_path.mangle();
    if !parser.sim_memory.has(&mangled) {
        return Err(ParseErrKind::UnknownField(mangled).from_token(first_token));
    }
    Ok(Expr::Path(expr_path))
}

/// The mangled key of a segment list: the segments' characters joined with
/// dots; an empty list mangles to the empty key.
pub open spec fn spec_mangle(segs: Seq<String>) -> Seq<char>
    decreases segs.len(),
{
    if segs.len() == 0 {
        Seq::empty()
    } else if segs.len() == 1 {
        segs[0]@
    } else {
        spec_mangle(segs.drop_last()) + seq!['.'] + segs.last()@
    }
}

} // verus!

//! The evaluator's state: the value-level symbol table, the output produced
//! so far, and the evaluation budget.

use vstd::prelude::*;
use vstd::string::StringExecFns;
use crate::data::Data;
use crate::expressions::{
    all_pure_exprs, lemma_all_pure_at, lemma_pure_stmts_fail, lemma_pure_stmts_push,
    pure_stmts_succeed,
};
use crate::memory::Memory;
use crate::parser::token_collector::TokenCollector;
use crate::parser::Parser;
use crate::statements::Statement;
use crate::tokenizer::tokenize;
use crate::types::Type;

verus! {

/// A runtime fault: an internal-consistency failure the type-checking pass
/// should have made unreachable, or an exhausted evaluation budget. Distinct
/// from user-facing parse errors; a program that evaluates one aborts.
#[derive(Clone, Copy, PartialEq, Eq, Structural, Debug)]
pub enum Fault {
    MissingBinding,
    IncompatibleOperands,
    NotCallable,
    ConditionNotBool,
    UnprintableValue,
    MissingArgument,
    TooManyArguments,
    InvalidAssignTarget,
    UnsupportedConstruct,
    OutOfFuel,
}

/// The wording of each fault, as the abort message spells it.
pub open spec fn spec_fault_msg(f: Fault) -> Seq<char> {
    match f {
        Fault::MissingBinding => "variable is not bound"@,
        Fault::IncompatibleOperands => "operands do not fit the operator"@,
        Fault::NotCallable => "value is not callable"@,
        Fault::ConditionNotBool => "condition is not a boolean"@,
        Fault::UnprintableValue => "value cannot be printed"@,
        Fault::MissingArgument => "built-in call is missing its argument"@,
        Fault::TooManyArguments => "call passes more arguments than parameters"@,
        Fault::InvalidAssignTarget => "assignment target is not a path"@,
        Fault::UnsupportedConstruct => "construct is not supported"@,
        Fault::OutOfFuel => "call budget exhausted"@,
    }
}

impl Fault {
    /// The fault in words, for the abort message.
    pub fn describe(&self) -> (r: String)
        ensures
            r@ == spec_fault_msg(*self),
            r@.len() > 0,
    {
        proof {
            reveal_strlit("variable is not bound");
            reveal_strlit("operands do not fit the operator");
            reveal_strlit("value is not callable");
            reveal_strlit("condition is not a boolean");
            reveal_strlit("value cannot be printed");
            reveal_strlit("built-in call is missing its argument");
            reveal_strlit("call passes more arguments than parameters");
            reveal_strlit("assignment target is not a path");
            reveal_strlit("construct is not supported");
            reveal_strlit("call budget exhausted");
        }
        match self {
            Fault::MissingBinding => String::from_str("variable is not bound"),
            Fault::IncompatibleOperands => String::from_str("operands do not fit the operator"),
            Fault::NotCallable => String::from_str("value is not callable"),
            Fault::ConditionNotBool => String::from_str("condition is not a boolean"),
            Fault::UnprintableValue => String::from_str("value cannot be printed"),
            Fault::MissingArgument => String::from_str(
                "built-in call is missing its argument",
            ),
            Fault::TooManyArguments => String::from_str(
                "call passes more arguments than parameters",
            ),
            Fault::InvalidAssignTarget => String::from_str("assignment target is not a path"),
            Fault::UnsupportedConstruct => String::from_str("construct is not supported"),
            Fault::OutOfFuel => String::from_str("call budget exhausted"),
        }
    }
}

/// Whether one output log extends another: everything already printed stays,
/// in order, and new lines only follow it.
pub open spec fn extends(old_out: Seq<String>, new_out: Seq<String>) -> bool {
    old_out.is_prefix_of(new_out)
}

/// The tree-walking evaluator's state: the value-level symbol table, the
/// lines printed so far, and the budget of function calls still allowed.
pub struct Interpreter {
    pub memory: Memory<Data>,
    pub output: Vec<String>,
    pub fuel: u64,
}

impl Interpreter {
    /// An evaluator over a prepared symbol table, with nothing printed yet
    /// and the given call budget.
    pub fn new(memory: Memory<Data>, fuel: u64) -> (r: Interpreter)
        ensures
            r.memory == memory,
            r.output@ == Seq::<String>::empty(),
            r.fuel == fuel,
    {
        let r = Interpreter { memory, output: Vec::new(), fuel };
        proof {
            assert(r.output@ =~= Seq::<String>::empty());
        }
        r
    }

    /// Executes a program: each statement in order, stopping at the first
    /// fault. The symbol table keeps its depth, output only grows, and an
    /// empty program changes nothing.
    pub fn run_program(&mut self, statements: &Vec<Statement>) -> (r: Result<(), Fault>)
        requires
            old(self).memory@.len() >= 1,
        ensures
            final(self).memory@.len() == old(self).memory@.len(),
            final(self).fuel <= old(self).fuel,
            extends(old(self).output@, final(self).output@),
            statements@.len() == 0 ==> *final(self) == *old(self) && r == Result::<
                (),
                Fault,
            >::Ok(()),
            all_pure_exprs(statements@) ==> {
                &&& *final(self) == *old(self)
                &&& (r is Ok <==> pure_stmts_succeed(statements@, old(self).memory@))
            },
            (statements@.len() == 1 && statements@[0] is FunctionDeclaration) ==> {
                &&& r is Ok
                &&& final(self).memory@ == old(self).memory@.update(
                    old(self).memory@.len() - 1,
                    old(self).memory@.last().insert(
                        statements@[0]->FunctionDeclaration_0.name@,
                        Data::Fn(statements@[0]->FunctionDeclaration_0),
                    ),
                )
                &&& final(self).output == old(self).output
                &&& final(self).fuel == old(self).fuel
            },
    {
        if statements.len() == 0 {
            return Ok(());
        }
        let mut i: usize = 0;
        while i < statements.len()
            invariant
                i <= statements@.len(),
                self.memory@.len() == old(self).memory@.len(),
                old(self).memory@.len() >= 1,
                self.fuel <= old(self).fuel,
                extends(old(self).output@, self.output@),
                all_pure_exprs(statements@) ==> {
                    &&& *self == *old(self)
                    &&& pure_stmts_succeed(
                        statements@.subrange(0, i as int),
                        old(self).memory@,
                    )
                },
                (statements@.len() == 1 && statements@[0] is FunctionDeclaration) ==> if i
                    == 0 {
                    *self == *old(self)
                } else {
                    &&& self.memory@ == old(self).memory@.update(
                        old(self).memory@.len() - 1,
                        old(self).memory@.last().insert(
                            statements@[0]->FunctionDeclaration_0.name@,
                            Data::Fn(statements@[0]->FunctionDeclaration_0),
                        ),
                    )
                    &&& self.output == old(self).output
                    &&& self.fuel == old(self).fuel
                },
            decreases statements@.len() - i,
        {
            proof {
                if all_pure_exprs(statements@) {
                    lemma_all_pure_at(statements@, i as int);
                }
            }
            let stmt_result = statements[i].exec(self);
            match stmt_result {
                Ok(_) => {},
                Err(f) => {
                    proof {
                        if all_pure_exprs(statements@) {
                            lemma_pure_stmts_fail(statements@, old(self).memory@, i as int);
                        }
                    }
                    return Err(f);
                },
            }
            proof {
                if all_pure_exprs(statements@) {
                    lemma_pure_stmts_push(
                        statements@.subrange(0, i as int),
                        statements@[i as int],
                        old(self).memory@,
                    );
                    assert(statements@.subrange(0, i as int).push(statements@[i as int])
                        =~= statements@.subrange(0, i + 1));
                }
            }
            i = i + 1;
        }
        proof {
            if all_pure_exprs(statements@) {
                assert(statements@.subrange(0, statements@.len() as int) =~= statements@);
            }
        }
        Ok(())
    }
}

/// Runs one source text through the whole pipeline — tokenize, parse with
/// the type-checking pass against `sim_memory`, evaluate against the
/// evaluator's state — sharing both symbol tables with earlier and later
/// texts, so a prelude's declarations stay visible. A failure anywhere
/// comes back as the rendered diagnostic; the tables keep their depth
/// either way, and output only grows.
pub fn execute_source(
    filename: &String,
    buf: &str,
    sim_memory: &mut Memory<Type>,
    interp: &mut Interpreter,
    parse_fuel: u64,
) -> (r: Result<(), String>)
    requires
        old(sim_memory)@.len() >= 1,
        old(interp).memory@.len() >= 1,
    ensures
        final(sim_memory)@.len() == old(sim_memory)@.len(),
        final(interp).memory@.len() == old(interp).memory@.len(),
        extends(old(interp).output@, final(interp).output@),
        r matches Err(m) ==> m@.len() > 0,
        buf@.len() == 0 ==> {
            &&& r is Ok
            &&& *final(sim_memory) == *old(sim_memory)
            &&& *final(interp) == *old(interp)
        },
{
    let tokens = match tokenize(filename, buf) {
        Ok(t) => t,
        Err(e) => {
            return Err(e.report());
        },
    };
    let collector = TokenCollector::new(tokens);
    let mut sim_taken = Memory::new();
    core::mem::swap(&mut sim_taken, sim_memory);
    let mut parser = Parser::new(collector, sim_taken, parse_fuel);
    let parsed = parser.generate_program();
    core::mem::swap(&mut parser.sim_memory, sim_memory);
    let statements = match parsed {
        Ok(s) => s,
        Err(e) => {
            return Err(e.report());
        },
    };
    match interp.run_program(&statements) {
        Ok(_) => Ok(()),
        Err(f) => Err(f.describe()),
    }
}

} // verus!

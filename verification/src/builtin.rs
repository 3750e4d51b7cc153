//! Built-in functions: native operations identified by reserved name, with a
//! fixed implementation, consulted by the parser and the evaluator alike.

use vstd::prelude::*;
use vstd::string::StringExecFns;
use crate::data::{Data, DataV};
use crate::errors::{int_str, ParseErrKind};
use crate::interpreter::Fault;
use crate::memory::Memory;
use crate::types::Type;

pub mod print;

verus! {

/// The identifier of a built-in function. `print` is the only one.
#[derive(Clone, Copy, PartialEq, Eq, Structural, Debug)]
pub enum BuiltinFn {
    Print,
}

impl BuiltinFn {
    /// Seeds the value-level symbol table with one binding per built-in,
    /// in its global frame.
    pub fn populate_memory(memory: &mut Memory<Data>)
        requires
            old(memory)@.len() >= 1,
        ensures
            final(memory)@.len() == old(memory)@.len(),
            final(memory)@ == old(memory)@.update(
                old(memory)@.len() - 1,
                old(memory)@.last().insert("print"@, Data::BuiltinFn(BuiltinFn::Print)),
            ),
    {
        let name = String::from_str("print");
        memory.insert(name, Data::BuiltinFn(BuiltinFn::Print));
    }

    /// Seeds the type-level symbol table with one binding per built-in,
    /// in its global frame.
    pub fn populate_sim_memory(memory: &mut Memory<Type>)
        requires
            old(memory)@.len() >= 1,
        ensures
            final(memory)@.len() == old(memory)@.len(),
            final(memory)@ == old(memory)@.update(
                old(memory)@.len() - 1,
                old(memory)@.last().insert("print"@, Type::BuiltinFn(BuiltinFn::Print)),
            ),
    {
        let name = String::from_str("print");
        memory.insert(name, Type::BuiltinFn(BuiltinFn::Print));
    }

    /// The static type of a call of this built-in on arguments of the given
    /// types. Mirrors the runtime behaviour: `print` accepts its arguments
    /// unchecked and produces no value.
    pub fn type_check(&self, args: &Vec<Type>) -> (r: Result<Type, ParseErrKind>)
        ensures
            r == Result::<Type, ParseErrKind>::Ok(Type::TempNil),
    {
        match self {
            BuiltinFn::Print => print::type_check(args),
        }
    }

    /// Runs this built-in on already-evaluated arguments; `print` appends
    /// one line to the output, verbatim for a string, in decimal for a
    /// number. What was printed before stays; it fails exactly on a missing
    /// argument or one of another kind, leaving the output untouched.
    pub fn eval(&self, args: &Vec<Data>, output: &mut Vec<String>) -> (r: Result<Data, Fault>)
        ensures
            old(output)@.is_prefix_of(final(output)@),
            match r {
                Ok(d) => {
                    &&& d == Data::TempNil
                    &&& args@.len() >= 1
                    &&& final(output)@.len() == old(output)@.len() + 1
                    &&& match args@[0]@ {
                        DataV::Str(s) => final(output)@.last()@ == s,
                        DataV::Num(n) => final(output)@.last()@ == int_str(n as int),
                        _ => false,
                    }
                },
                Err(f) => {
                    &&& final(output)@ == old(output)@
                    &&& (args@.len() == 0 <==> f == Fault::MissingArgument)
                    &&& (args@.len() >= 1 ==> !(args@[0]@ is Str) && !(args@[0]@ is Num) && f
                        == Fault::UnprintableValue)
                },
            },
    {
        let r = match self {
            BuiltinFn::Print => print::eval(args, output),
        };
        proof {
            if output@.len() == old(output)@.len() {
                assert(output@.subrange(0, old(output)@.len() as int) =~= output@);
            }
        }
        r
    }
}

} // verus!

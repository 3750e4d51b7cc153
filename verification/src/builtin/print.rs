//! The `print` built-in: one argument; a string prints verbatim, a number
//! in its numeric form.

use vstd::prelude::*;
use crate::data::{Data, DataV};
use crate::errors::{int_str, ParseErrKind};
use crate::interpreter::Fault;
use crate::types::Type;

verus! {

/// The static type of a `print` call: no value. Arguments are accepted
/// unchecked here; a value `print` cannot show is a runtime fault.
pub fn type_check(args: &Vec<Type>) -> (r: Result<Type, ParseErrKind>)
    ensures
        r == Result::<Type, ParseErrKind>::Ok(Type::TempNil),
{
    let _ = args.len();
    Ok(Type::TempNil)
}

/// Runs `print`: appends its first argument to the output, verbatim for a
/// string, in decimal for a number. No argument, or an argument of any
/// other kind, is a fault and leaves the output untouched.
pub fn eval(args: &Vec<Data>, output: &mut Vec<String>) -> (r: Result<Data, Fault>)
    ensures
        match r {
            Ok(d) => {
                &&& d == Data::TempNil
                &&& args@.len() >= 1
                &&& final(output)@.len() == old(output)@.len() + 1
                &&& final(output)@.subrange(0, old(output)@.len() as int) == old(output)@
                &&& match args@[0]@ {
                    DataV::Str(s) => final(output)@.last()@ == s,
                    DataV::Num(n) => final(output)@.last()@ == int_str(n as int),
                    _ => false,
                }
            },
            Err(f) => {
                &&& final(output)@ == old(output)@
                &&& (args@.len() == 0 <==> f == Fault::MissingArgument)
                &&& (args@.len() >= 1 ==> !(args@[0]@ is Str) && !(args@[0]@ is Num) && f
                    == Fault::UnprintableValue)
            },
        },
{
    if args.len() == 0 {
        return Err(Fault::MissingArgument);
    }
    let line: String = match &args[0] {
        Data::String(s) => s.clone(),
        Data::Number(n) => crate::errors::fmt_i64(*n),
        _ => {
            return Err(Fault::UnprintableValue);
        },
    };
    output.push(line);
    proof {
        assert(output@.subrange(0, old(output)@.len() as int) =~= old(output)@);
    }
    Ok(Data::TempNil)
}

} // verus!

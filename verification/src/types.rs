//! The static types of the language. Values carry one of these during the
//! parse-time checking pass; structural equality throughout.

use vstd::prelude::*;
use vstd::string::StringExecFns;
use std::rc::Rc;
use crate::builtin::BuiltinFn;

verus! {

/// The signature of a user function: its parameters, in order, each with a
/// name and a type, and its result type. Shared (behind `Rc`) between the
/// function's declaration and its type, so that cloning a `Type` keeps it
/// equal to the original.
#[derive(Debug, PartialEq)]
pub struct FnSig {
    pub args_types: Vec<(String, Type)>,
    pub return_type: Type,
}

/// A static type: one of the three data types, a user function's signature,
/// a built-in function, or the placeholder type of constructs that produce
/// no value yet.
#[derive(Debug, PartialEq)]
pub enum Type {
    String,
    Number,
    Bool,
    Fn(Rc<FnSig>),
    BuiltinFn(BuiltinFn),
    TempNil,
}

impl Clone for Type {
    fn clone(&self) -> (r: Self)
        ensures
            r == *self,
    {
        match self {
            Type::String => Type::String,
            Type::Number => Type::Number,
            Type::Bool => Type::Bool,
            Type::Fn(sig) => Type::Fn(rc_clone(sig)),
            Type::BuiltinFn(b) => Type::BuiltinFn(*b),
            Type::TempNil => Type::TempNil,
        }
    }
}

/// Relies on `Rc::clone`: the result is a handle to the same allocation, so
/// as a value it equals the original.
#[verifier::external_body]
pub fn rc_clone<T>(rc: &Rc<T>) -> (r: Rc<T>)
    ensures
        r == *rc,
{
    Rc::clone(rc)
}

impl Type {
    /// The display name of the type, used in diagnostics.
    pub fn get_name(&self) -> (r: Option<String>)
        ensures
            match r {
                Some(s) => s@ == self.spec_name(),
                None => false,
            },
    {
        match self {
            Type::String => Some(String::from_str("String")),
            Type::Number => Some(String::from_str("Number")),
            Type::Bool => Some(String::from_str("Bool")),
            Type::Fn(_) => Some(String::from_str("Fn")),
            Type::BuiltinFn(_) => Some(String::from_str("Builtin")),
            Type::TempNil => Some(String::from_str("temporary nil val")),
        }
    }

    /// What `get_name` returns, as a sequence of characters.
    pub open spec fn spec_name(self) -> Seq<char> {
        match self {
            Type::String => "String"@,
            Type::Number => "Number"@,
            Type::Bool => "Bool"@,
            Type::Fn(_) => "Fn"@,
            Type::BuiltinFn(_) => "Builtin"@,
            Type::TempNil => "temporary nil val"@,
        }
    }

    /// The type a source program can write in a parameter list: one of the
    /// three data type names. Anything else is unknown.
    pub fn from_name(name: &String) -> (r: Option<Type>)
        ensures
            r == Type::spec_from_name(name@),
    {
        if *name == String::from_str("String") {
            Some(Type::String)
        } else if *name == String::from_str("Number") {
            Some(Type::Number)
        } else if *name == String::from_str("Bool") {
            Some(Type::Bool)
        } else {
            None
        }
    }

    /// What `from_name` returns for a given name.
    pub open spec fn spec_from_name(name: Seq<char>) -> Option<Type> {
        if name == "String"@ {
            Some(Type::String)
        } else if name == "Number"@ {
            Some(Type::Number)
        } else if name == "Bool"@ {
            Some(Type::Bool)
        } else {
            None
        }
    }
}

} // verus!

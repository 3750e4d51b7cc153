//! The runtime values of the language. Values are small and cloned on read;
//! a function value shares its declaration rather than copying it.

use vstd::prelude::*;
use std::rc::Rc;
use crate::builtin::BuiltinFn;
use crate::statements::fn_decl::FunctionDeclaration;
use crate::types::{rc_clone, Type};

verus! {

/// A runtime value: a string, a 64-bit number, a boolean, a user function
/// (sharing its declaration), a built-in function, or the placeholder value
/// of constructs that produce none.
pub enum Data {
    String(String),
    Number(i64),
    Bool(bool),
    Fn(Rc<FunctionDeclaration>),
    BuiltinFn(BuiltinFn),
    TempNil,
}

/// The mathematical shape of a runtime value: strings become character
/// sequences; a function value is identified by its declaration.
pub enum DataV {
    Str(Seq<char>),
    Num(i64),
    Bool(bool),
    Fn(FunctionDeclaration),
    Builtin(BuiltinFn),
    Nil,
}

impl View for Data {
    type V = DataV;

    open spec fn view(&self) -> DataV {
        match self {
            Data::String(s) => DataV::Str(s@),
            Data::Number(n) => DataV::Num(*n),
            Data::Bool(b) => DataV::Bool(*b),
            Data::Fn(d) => DataV::Fn(**d),
            Data::BuiltinFn(b) => DataV::Builtin(*b),
            Data::TempNil => DataV::Nil,
        }
    }
}

impl Clone for Data {
    fn clone(&self) -> (r: Self)
        ensures
            r == *self,
    {
        match self {
            Data::String(s) => Data::String(s.clone()),
            Data::Number(n) => Data::Number(*n),
            Data::Bool(b) => Data::Bool(*b),
            Data::Fn(d) => Data::Fn(rc_clone(d)),
            Data::BuiltinFn(b) => Data::BuiltinFn(*b),
            Data::TempNil => Data::TempNil,
        }
    }
}

impl Data {
    /// The static type this value belongs to.
    pub fn get_type(&self) -> (r: Type)
        ensures
            r == self.spec_type(),
    {
        match self {
            Data::String(_) => Type::String,
            Data::Number(_) => Type::Number,
            Data::Bool(_) => Type::Bool,
            Data::Fn(d) => Type::Fn(rc_clone(&d.sig)),
            Data::BuiltinFn(b) => Type::BuiltinFn(*b),
            Data::TempNil => Type::TempNil,
        }
    }

    /// What `get_type` returns: the type of each kind of value; a function
    /// value carries the signature of its declaration.
    pub open spec fn spec_type(self) -> Type {
        match self {
            Data::String(_) => Type::String,
            Data::Number(_) => Type::Number,
            Data::Bool(_) => Type::Bool,
            Data::Fn(d) => Type::Fn(d.sig),
            Data::BuiltinFn(b) => Type::BuiltinFn(b),
            Data::TempNil => Type::TempNil,
        }
    }
}

} // verus!

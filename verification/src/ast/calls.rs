//! The functions that a call expression may name: a builtin, or a user function with
//! its declared return type.
use crate::ast::builtins::{spec_return_type, BuiltinFn};
use crate::ast::types::DataType;
use vstd::prelude::*;

verus! {

#[derive(Debug)]
pub enum Func {
    Builtin(BuiltinFn),
    User(DataType),
}

impl Func {
    /// The return type of a call with arguments of the given types: a builtin's by its
    /// overload rules, a user function's as declared.
    pub fn return_type(&self, params: &[DataType]) -> (r: Option<DataType>)
        ensures
            r == match *self {
                Func::Builtin(b) => spec_return_type(b, params@),
                Func::User(t) => Some(t),
            },
    {
        match self {
            Func::Builtin(b) => b.return_type(params),
            Func::User(return_type) => Some(return_type.clone()),
        }
    }
}

} // verus!

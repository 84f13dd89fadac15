use crate::ast::func::FnDecl;
use crate::ast::globals::{GlobalConstDecl, GlobalVarDecl};
use crate::ast::structs::StructDecl;
use std::rc::Rc;
use vstd::prelude::*;

verus! {

/// A whole shader: its structure types, constants, global variables and functions.
#[derive(Debug)]
pub struct Module {
    pub structs: Vec<Rc<StructDecl>>,
    pub consts: Vec<GlobalConstDecl>,
    pub vars: Vec<GlobalVarDecl>,
    pub functions: Vec<FnDecl>,
}

} // verus!

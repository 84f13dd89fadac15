//! Structure types of the smaller shader syntax tree.
use crate::simple_ast::types::DataType;
use std::rc::Rc;
use vstd::prelude::*;

verus! {

pub struct StructMember {
    pub name: String,
    pub data_type: DataType,
}

pub struct StructDecl {
    pub name: String,
    pub members: Vec<StructMember>,
}

impl StructDecl {
    pub fn new(name: String, members: Vec<StructMember>) -> (r: Rc<StructDecl>)
        ensures
            r.name == name,
            r.members == members,
    {
        Rc::new(StructDecl { name, members })
    }
}

} // verus!

use crate::ast::builtins::BuiltinValue;
use crate::ast::expr::ExprNode;
use crate::ast::stmt::Statement;
use crate::ast::types::DataType;
use vstd::prelude::*;

verus! {

#[derive(Clone, Copy, Debug, PartialEq, Eq, Structural)]
pub enum ShaderStage {
    Compute,
    Vertex,
    Fragment,
}

#[derive(Debug)]
pub enum FnAttr {
    Stage(ShaderStage),
    WorkgroupSize(Vec<ExprNode>),
    MustUse,
}

#[derive(Clone, Copy, Debug, PartialEq, Eq, Structural)]
pub enum FnIOAttr {
    Builtin(BuiltinValue),
    Invariant,
    Location(u32),
}

#[derive(Debug)]
pub struct FnInput {
    pub attrs: Vec<FnIOAttr>,
    pub name: String,
    pub data_type: DataType,
}

impl FnInput {
    pub fn new(name: String, data_type: DataType) -> (r: Self)
        ensures
            r.attrs@ == Seq::<FnIOAttr>::empty(),
            r.name == name,
            r.data_type == data_type,
    {
        Self { attrs: Vec::new(), name, data_type }
    }
}

#[derive(Debug)]
pub struct FnOutput {
    pub attrs: Vec<FnIOAttr>,
    pub data_type: DataType,
}

impl FnOutput {
    pub fn new(data_type: DataType) -> (r: Self)
        ensures
            r.attrs@ == Seq::<FnIOAttr>::empty(),
            r.data_type == data_type,
    {
        Self { attrs: Vec::new(), data_type }
    }
}

#[derive(Debug)]
pub struct FnDecl {
    pub attrs: Vec<FnAttr>,
    pub name: String,
    pub inputs: Vec<FnInput>,
    pub output: Option<FnOutput>,
    pub body: Vec<Statement>,
}

} // verus!

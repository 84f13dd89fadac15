//! Function declarations of the smaller shader syntax tree.
use crate::simple_ast::types::DataType;
use vstd::prelude::*;

verus! {

#[derive(Clone, Copy, Debug, PartialEq, Eq, Structural)]
pub enum ShaderStage {
    Compute,
    Vertex,
    Fragment,
}

#[derive(Clone, Copy, Debug, PartialEq, Eq, Structural)]
pub enum FnAttr {
    Stage(ShaderStage),
    WorkgroupSize(u32),
}

/// A function input. Inputs have no attributes in this tree.
pub struct FnInput {
    pub name: String,
    pub data_type: DataType,
}

/// A function output. Outputs have no attributes in this tree.
pub struct FnOutput {
    pub data_type: DataType,
}

} // verus!

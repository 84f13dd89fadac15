//! Metadata of a generated shader: the buffers it binds, their types and initial data.
use crate::ast::types::DataType;
use vstd::prelude::*;

verus! {

/// The metadata of a shader: its resources.
pub struct ShaderMetadata {
    pub resources: Vec<Resource>,
}

/// The kind of buffer a resource is.
#[derive(Clone, Copy, Debug, PartialEq, Eq, Structural)]
pub enum ResourceKind {
    StorageBuffer,
    UniformBuffer,
}

/// A buffer bound by a shader: where it is bound, its type, and its initial contents.
pub struct Resource {
    pub kind: ResourceKind,
    pub group: u32,
    pub binding: u32,
    pub description: DataType,
    pub init: Option<Vec<u8>>,
}

} // verus!

//! Verified core of a random WGSL shader generator: the shader syntax tree and its
//! typing rules, constant folding of shader expressions, host-shareable memory layout,
//! control-flow instrumentation and the harness configuration model.

pub mod ast;
pub mod buffer_check;
pub mod concretizer;
pub mod data_race;
pub mod ext;
pub mod flow;
pub mod fuzz;
pub mod generator;
pub mod harness;
pub mod layout;
pub mod metadata;
pub mod preprocessor;
mod rc_spec;
pub mod simple_ast;
pub mod strings;

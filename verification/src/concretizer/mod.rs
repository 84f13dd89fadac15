pub mod value;
pub mod helper;
pub mod eval;
pub mod concretizer;

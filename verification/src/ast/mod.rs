pub mod builtins;
pub mod calls;
pub mod expr;
pub mod func;
pub mod globals;
pub mod module;
pub mod stmt;
pub mod structs;
pub mod types;
pub mod writer;

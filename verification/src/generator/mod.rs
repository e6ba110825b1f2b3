//! Turning a Rust syntax tree into the text of a Rust project.
pub mod rust_ast;
pub mod spec;
pub mod codegen;
pub mod project;
pub mod check;
pub mod laws;

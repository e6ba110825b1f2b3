//! A compiler front end for the Ferrum language: lexing, parsing, use
//! resolution and Rust code generation, with their behaviour proved.
pub mod cargo;
pub mod config;
pub mod generator;
pub mod lexer;
pub mod parser;
pub mod project;
pub mod punctuated;
pub mod scope;
pub mod span;
pub mod target;
pub mod tree;

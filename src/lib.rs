//! A small language of expressions with variables, macros and symbolic
//! differentiation. Parsing executes each statement as it is recognized.

pub mod env;
pub mod grammar;
pub mod lexer;
pub mod node;
pub mod parser;
pub mod text;

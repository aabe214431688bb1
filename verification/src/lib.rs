//! The Mo compiler front end: source locations, tokens, a lexer, a parser and
//! the data types of the abstract syntax tree, each with its contract.

pub mod text;
pub mod span;
pub mod token;
pub mod op;
pub mod error;
pub mod stream;
pub mod lexer_spec;
pub mod lexer;
pub mod line_breaks;
pub mod ast;
pub mod parser_spec;
pub mod parser;
pub mod parser_laws;
pub mod compile;
pub mod debug_utils;
pub mod syntax;
pub mod spelling;
pub mod semantic;

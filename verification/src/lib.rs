//! Front end of a small scripting-language toolchain: a chunk-boundary-safe
//! lexical scanner that turns raw bytes into a token stream, and a
//! recursive-descent parser that turns the token stream into an abstract
//! syntax tree.

pub mod ast;
pub mod lexer;
pub mod token;

//! Front end of a small, line-oriented scripting language: a tokenizer that
//! turns source text into tokens and a recursive-descent parser that turns
//! the tokens into an abstract syntax tree. Both are verified against
//! mathematical models of the token stream and of the grammar.

pub mod token;
pub mod ast;
pub mod lexer;
pub mod locality;
pub mod error;
pub mod grammar;
pub mod balance;
pub mod parser;

//! Front end for a small Java-like language: a regex-driven tokenizer and a
//! resumable recursive-descent parser producing a typed syntax tree.
//!
//! - `token`, `ast`: the tokens and the syntax tree.
//! - `lexer`: source text to tokens.
//! - `buffer`: the tokens of one parse attempt and a cursor into them.
//! - `grammar`, `tree`, `stmt_tree`: the grammar as spec functions, giving
//!   for each production and position the outcome (match and extent, more
//!   input needed, or failure with its message) and the shape of what is built.
//! - `parser`, `statement`, `declaration`: the productions, each proved to
//!   keep the buffer protocol and to agree with the grammar.
use vstd::prelude::*;

pub mod token;
pub mod lexer;
pub mod ast;
pub mod buffer;
pub mod grammar;
pub mod tree;
pub mod stmt_tree;
pub mod parser;
pub mod statement;
pub mod declaration;

verus! {

} // verus!

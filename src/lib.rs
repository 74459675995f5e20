//! A line-oriented calculator engine: a lexer and a recursive-descent parser
//! for arithmetic statements, the tables of built-in names, and an environment
//! of user definitions against which a parsed statement is resolved into an
//! arithmetic term.
//!
//! The numeric work itself is left to the caller: a resolved term holds
//! literals, built-in constants, user values and operations, and the caller
//! reduces it in its number type (`Environment<N>` is generic over it).
pub mod lexer;
pub mod ast;
pub mod parser;
pub mod builtins;
pub mod table;
pub mod evaluator;
pub mod laws;

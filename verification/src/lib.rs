//! The core of a small array language of the K family: a lexer, a
//! recursive-descent parser, the value model, a tree-walking evaluator and
//! the built-in operators and primitives, each with its contract.
//!
//! Text becomes tokens (`lex`), tokens become an expression (`parse`), and an
//! expression becomes a value in an environment (`eval`), which `Kr::print`
//! renders. Binary floating point lies outside what is proved here: the two
//! real families are carried as bit patterns, and whoever calls the library
//! supplies the floating-point unit as a function (`reals`).

pub mod decimal;
pub mod error;
pub mod eval;
pub mod init;
pub mod kr;
pub mod lex;
pub mod operator;
pub mod parse;
pub mod primitive;
pub mod reals;
pub mod text;
pub mod token;

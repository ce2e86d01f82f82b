//! A small expression language: a scanner from text to tokens, a
//! recursive-descent parser from tokens to an expression tree, and a
//! tree-walking evaluator, each verified against a mathematical model.

pub mod error;
pub mod expr;
pub mod grammar;
pub mod grammar_laws;
pub mod interpreter;
pub mod interpreter_laws;
pub mod lexical_laws;
pub mod lexicon;
pub mod parser;
pub mod printer;
pub mod scanner;
pub mod text;
pub mod token;
pub mod value;

//! Syntactic front end for a small scripting language: a backtracking
//! recursive-descent parser that turns a span-tagged token stream into a
//! span-annotated abstract syntax tree, while ranking and merging every
//! diagnostic met along the way so that exactly one error, the most
//! informative one, survives a failed parse.

pub mod span;
pub mod token;
pub mod error;
pub mod ast;
pub mod parse;
pub mod output;
pub mod model;

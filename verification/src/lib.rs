//! Front end of a small statically typed, C-like language: a token cursor,
//! a recursive-descent / precedence-climbing parser that builds an abstract
//! syntax tree, and a type-aware code generator that resolves symbolic types
//! and variable bindings and emits backend instructions.
//!
//! The grammar and the generator are specified by mathematical functions over
//! token sequences and spec-level trees; every executable function is proved
//! to return exactly what its spec function yields.

pub mod generation;
pub mod lexer;
pub mod parser;

//! Compiler front end for a jq-like JSON filter language.
//!
//! The embedder's grammar engine turns source text into a tree of labeled
//! [`syntax::Node`] values; this crate turns that tree into a [`filter::Filter`]
//! abstract syntax tree, resolving operator precedence and associativity,
//! desugaring compound updates, extracting structured paths, and resolving
//! function names by arity.

pub mod error;
pub mod filter;
pub mod laws;
pub mod num;
pub mod ops;
pub mod parse;
pub mod syntax;
pub mod val;

//! The front end of a compiler for an embedded scripting language: tokens,
//! a cursor with lookahead over a token stream, the operations that every
//! syntax node offers, and the resolution of literals and identifiers to
//! their text.
//!
//! Tokens come from a [`lexer::Lexer`] over the text of a source, or from a
//! [`parser::TokenStream`] that a macro built. A [`parser::Parser`] takes
//! them in order; looking ahead takes none. A syntax node is made by
//! [`parse::Parse`], tested for by [`parse::Peek`], written out again by
//! [`macros::ToTokens`], and, where it stands for a text, resolved by
//! [`parse::Resolve`] against a [`sources::ResolveContext`].
//!
//! Every executable function carries a contract over the mathematical
//! model of its arguments. The laws that relate the operations to each
//! other are proof functions: those that every node owes stand in the
//! traits of [`parse`], the others under [`laws`].

pub mod ast;
pub mod error;
pub mod laws;
pub mod lexer;
pub mod macros;
pub mod parse;
pub mod parser;
pub mod sources;
pub mod span;
pub mod token;

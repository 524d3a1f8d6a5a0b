//! What parsing and resolution report when they fail.

use vstd::prelude::*;
use crate::span::Span;
use crate::token::{SyntheticId, Token};

verus! {

/// What a parser was looking for when it met a token of another kind.
#[derive(Clone, Copy, Debug, PartialEq, Eq)]
pub enum Expectation {
    /// A syntax node, by a description for a human reader.
    Description(&'static str),
    /// A keyword, as it is written.
    Keyword(&'static str),
    /// A bracket, as it is written.
    Delimiter(&'static str),
    /// A punctuation mark, as it is written.
    Punctuation(&'static str),
}

impl Expectation {
    /// The words that the expectation carries.
    pub open spec fn text(self) -> &'static str {
        match self {
            Expectation::Description(s) => s,
            Expectation::Keyword(s) => s,
            Expectation::Delimiter(s) => s,
            Expectation::Punctuation(s) => s,
        }
    }

    /// The words that the expectation carries.
    pub fn as_str(self) -> (s: &'static str)
        ensures
            s == self.text(),
    {
        match self {
            Expectation::Description(s) => s,
            Expectation::Keyword(s) => s,
            Expectation::Delimiter(s) => s,
            Expectation::Punctuation(s) => s,
        }
    }
}

/// The kind of node whose synthetic string was not found.
#[derive(Clone, Copy, Debug, PartialEq, Eq, Structural)]
pub enum SyntheticKind {
    Label,
    Ident,
    Number,
}

/// The ways in which parsing and resolution fail.
#[derive(Clone, Copy, Debug, PartialEq, Eq)]
pub enum ErrorKind {
    /// A token was needed and the stream had none left.
    UnexpectedEndOfStream,
    /// A token of the wrong kind stood where a node had to start or go on.
    ExpectedButFound { expected: Expectation, found: Token },
    /// The span of a node does not address text in the source it names.
    BadSlice,
    /// The table of synthetic strings has no entry under this identity.
    BadSyntheticId { kind: SyntheticKind, id: SyntheticId },
}

/// A failure, with the span that it is about.
#[derive(Clone, Copy, Debug, PartialEq, Eq)]
pub struct Error {
    pub span: Span,
    pub kind: ErrorKind,
}

impl Error {
    /// The failure that `found` stood where `expected` was needed.
    pub open spec fn spec_expected(found: Token, expected: Expectation) -> Error {
        Error { span: found.span, kind: ErrorKind::ExpectedButFound { expected, found } }
    }

    /// The failure of kind `kind` at `span`.
    pub fn new(span: Span, kind: ErrorKind) -> (error: Error)
        ensures
            error == (Error { span, kind }),
    {
        Error { span, kind }
    }

    /// The failure that `found` stood where `expected` was needed. Its span
    /// is the span of `found`.
    pub fn expected(found: Token, expected: Expectation) -> (error: Error)
        ensures
            error == Error::spec_expected(found, expected),
    {
        Error { span: found.span, kind: ErrorKind::ExpectedButFound { expected, found } }
    }
}

} // verus!

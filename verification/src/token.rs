//! Tokens: a span and a kind drawn from a closed set.

use vstd::prelude::*;
use crate::span::{SourceId, Span};

verus! {

/// The identity of a string that macro expansion made up. Such a string has
/// no bytes in any source; it lives in the table of synthetic strings.
#[derive(Clone, Copy, Debug, PartialEq, Eq, Structural)]
pub struct SyntheticId(pub usize);

/// A string that is fixed in the compiler itself.
#[derive(Clone, Copy, Debug, PartialEq, Eq, Structural)]
pub enum BuiltIn {
    Template,
    Format,
    BuiltIn,
    Literal,
    Doc,
}

impl BuiltIn {
    /// The text of the constant.
    pub open spec fn text(self) -> Seq<char> {
        match self {
            BuiltIn::Template => "template"@,
            BuiltIn::Format => "formatspec"@,
            BuiltIn::BuiltIn => "builtin"@,
            BuiltIn::Literal => "literal"@,
            BuiltIn::Doc => "doc"@,
        }
    }

    /// The text of the constant. No lookup is involved.
    pub fn as_str(self) -> (text: &'static str)
        ensures
            text@ == self.text(),
    {
        match self {
            BuiltIn::Template => "template",
            BuiltIn::Format => "formatspec",
            BuiltIn::BuiltIn => "builtin",
            BuiltIn::Literal => "literal",
            BuiltIn::Doc => "doc",
        }
    }
}

/// Where the text of a literal or an identifier lives. Exactly one origin is
/// active, and it is fixed when the token is made.
#[derive(Clone, Copy, Debug, PartialEq, Eq, Structural)]
pub enum LitSource {
    /// In the source buffer with this identity, at the token's span.
    Text(SourceId),
    /// In the table of synthetic strings, under this identity.
    Synthetic(SyntheticId),
    /// In the compiler itself.
    BuiltIn(BuiltIn),
}

/// The three pairs of brackets.
#[derive(Clone, Copy, Debug, PartialEq, Eq, Structural)]
pub enum Delimiter {
    Parenthesis,
    Brace,
    Bracket,
}

/// The kind of a token.
#[derive(Clone, Copy, Debug, PartialEq, Eq, Structural)]
pub enum Kind {
    /// The end of the stream. No token of the stream has this kind; it is
    /// what lookahead past the last token reports.
    Eof,
    /// A byte that starts no token.
    Error,
    /// An identifier, `foo`.
    Ident(LitSource),
    /// A label, `'foo`.
    Label(LitSource),
    /// A number, `42`.
    Number(LitSource),
    /// An opening bracket.
    Open(Delimiter),
    /// A closing bracket.
    Close(Delimiter),
    /// `#`
    Pound,
    /// `!`
    Bang,
    /// `:`
    Colon,
    /// `;`
    SemiColon,
    /// `,`
    Comma,
    /// `async`
    Async,
    /// `await`
    Await,
    /// `const`
    Const,
    /// `move`
    Move,
}

/// A token: what was lexed, and where. A token is never changed after it
/// was made; a parser only moves past it.
#[derive(Clone, Copy, Debug, PartialEq, Eq, Structural)]
pub struct Token {
    pub span: Span,
    pub kind: Kind,
}

impl Token {
    /// The token of kind `kind` at `span`.
    pub fn new(span: Span, kind: Kind) -> (token: Token)
        ensures
            token == (Token { span, kind }),
    {
        Token { span, kind }
    }
}

} // verus!

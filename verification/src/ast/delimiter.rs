//! The brackets, each a node of one token.

use vstd::prelude::*;
use crate::error::{Error, Expectation};
use crate::macros::{MacroContext, ToTokens};
use crate::parse::{
    lemma_parse_token_advances, spec_parse_token, spec_peek_token, Node, Parse, Peek, ToAst,
};
use crate::parser::{Cursor, Parser, Peeker, TokenStream};
use crate::span::{Span, Spanned};
use crate::token::{Delimiter, Kind, Token};

verus! {

/// The bracket `{`.
#[derive(Debug, Clone, Copy, PartialEq, Eq, Structural)]
pub struct OpenBrace {
    /// The span of the token.
    pub span: Span,
}

impl DeepView for OpenBrace {
    type V = OpenBrace;

    open spec fn deep_view(&self) -> OpenBrace {
        *self
    }
}

impl Spanned for OpenBrace {
    open spec fn spec_span(&self) -> Span {
        self.span
    }

    fn span(&self) -> (span: Span) {
        self.span
    }
}

impl ToAst for OpenBrace {
    open spec fn accepts(kind: Kind) -> bool {
        kind == Kind::Open(Delimiter::Brace)
    }

    open spec fn expectation() -> Expectation {
        Expectation::Delimiter("{")
    }

    open spec fn from_token(span: Span, kind: Kind) -> OpenBrace {
        OpenBrace { span }
    }

    fn to_ast(span: Span, kind: Kind) -> (node: Result<Self, Error>) {
        match kind {
            Kind::Open(Delimiter::Brace) => Ok(Self { span }),
            _ => Err(Error::expected(Token { span, kind }, Self::into_expectation())),
        }
    }

    fn matches(kind: &Kind) -> (b: bool) {
        matches!(kind, Kind::Open(Delimiter::Brace))
    }

    fn into_expectation() -> (expected: Expectation) {
        Expectation::Delimiter("{")
    }
}

impl Parse for OpenBrace {
    open spec fn spec_parse(c: Cursor) -> (Result<OpenBrace, Error>, Cursor) {
        spec_parse_token::<OpenBrace>(c)
    }

    fn parse(p: &mut Parser<'_>) -> (node: Result<Self, Error>) {
        let t = p.next()?;
        Self::to_ast(t.span, t.kind)
    }

    proof fn lemma_parse_advances(c: Cursor) {
        lemma_parse_token_advances::<OpenBrace>(c);
    }
}

impl Peek for OpenBrace {
    open spec fn spec_peek(c: Cursor) -> bool {
        spec_peek_token::<OpenBrace>(c)
    }

    fn peek(p: &mut Peeker<'_>) -> (b: bool) {
        matches!(p.nth(0), Kind::Open(Delimiter::Brace))
    }
}

impl Node for OpenBrace {
    proof fn lemma_takes_a_token(c: Cursor) {
    }

    proof fn lemma_peek_sound(c: Cursor) {
    }
}

impl ToTokens for OpenBrace {
    open spec fn spec_tokens(&self) -> Seq<Token> {
        seq![Token { span: self.span, kind: Kind::Open(Delimiter::Brace) }]
    }

    fn to_tokens(&self, cx: &mut MacroContext, stream: &mut TokenStream) {
        stream.push(Token { span: self.span, kind: Kind::Open(Delimiter::Brace) });
    }
}

/// The bracket `}`.
#[derive(Debug, Clone, Copy, PartialEq, Eq, Structural)]
pub struct CloseBrace {
    /// The span of the token.
    pub span: Span,
}

impl DeepView for CloseBrace {
    type V = CloseBrace;

    open spec fn deep_view(&self) -> CloseBrace {
        *self
    }
}

impl Spanned for CloseBrace {
    open spec fn spec_span(&self) -> Span {
        self.span
    }

    fn span(&self) -> (span: Span) {
        self.span
    }
}

impl ToAst for CloseBrace {
    open spec fn accepts(kind: Kind) -> bool {
        kind == Kind::Close(Delimiter::Brace)
    }

    open spec fn expectation() -> Expectation {
        Expectation::Delimiter("}")
    }

    open spec fn from_token(span: Span, kind: Kind) -> CloseBrace {
        CloseBrace { span }
    }

    fn to_ast(span: Span, kind: Kind) -> (node: Result<Self, Error>) {
        match kind {
            Kind::Close(Delimiter::Brace) => Ok(Self { span }),
            _ => Err(Error::expected(Token { span, kind }, Self::into_expectation())),
        }
    }

    fn matches(kind: &Kind) -> (b: bool) {
        matches!(kind, Kind::Close(Delimiter::Brace))
    }

    fn into_expectation() -> (expected: Expectation) {
        Expectation::Delimiter("}")
    }
}

impl Parse for CloseBrace {
    open spec fn spec_parse(c: Cursor) -> (Result<CloseBrace, Error>, Cursor) {
        spec_parse_token::<CloseBrace>(c)
    }

    fn parse(p: &mut Parser<'_>) -> (node: Result<Self, Error>) {
        let t = p.next()?;
        Self::to_ast(t.span, t.kind)
    }

    proof fn lemma_parse_advances(c: Cursor) {
        lemma_parse_token_advances::<CloseBrace>(c);
    }
}

impl Peek for CloseBrace {
    open spec fn spec_peek(c: Cursor) -> bool {
        spec_peek_token::<CloseBrace>(c)
    }

    fn peek(p: &mut Peeker<'_>) -> (b: bool) {
        matches!(p.nth(0), Kind::Close(Delimiter::Brace))
    }
}

impl Node for CloseBrace {
    proof fn lemma_takes_a_token(c: Cursor) {
    }

    proof fn lemma_peek_sound(c: Cursor) {
    }
}

impl ToTokens for CloseBrace {
    open spec fn spec_tokens(&self) -> Seq<Token> {
        seq![Token { span: self.span, kind: Kind::Close(Delimiter::Brace) }]
    }

    fn to_tokens(&self, cx: &mut MacroContext, stream: &mut TokenStream) {
        stream.push(Token { span: self.span, kind: Kind::Close(Delimiter::Brace) });
    }
}

/// The bracket `[`.
#[derive(Debug, Clone, Copy, PartialEq, Eq, Structural)]
pub struct OpenBracket {
    /// The span of the token.
    pub span: Span,
}

impl DeepView for OpenBracket {
    type V = OpenBracket;

    open spec fn deep_view(&self) -> OpenBracket {
        *self
    }
}

impl Spanned for OpenBracket {
    open spec fn spec_span(&self) -> Span {
        self.span
    }

    fn span(&self) -> (span: Span) {
        self.span
    }
}

impl ToAst for OpenBracket {
    open spec fn accepts(kind: Kind) -> bool {
        kind == Kind::Open(Delimiter::Bracket)
    }

    open spec fn expectation() -> Expectation {
        Expectation::Delimiter("[")
    }

    open spec fn from_token(span: Span, kind: Kind) -> OpenBracket {
        OpenBracket { span }
    }

    fn to_ast(span: Span, kind: Kind) -> (node: Result<Self, Error>) {
        match kind {
            Kind::Open(Delimiter::Bracket) => Ok(Self { span }),
            _ => Err(Error::expected(Token { span, kind }, Self::into_expectation())),
        }
    }

    fn matches(kind: &Kind) -> (b: bool) {
        matches!(kind, Kind::Open(Delimiter::Bracket))
    }

    fn into_expectation() -> (expected: Expectation) {
        Expectation::Delimiter("[")
    }
}

impl Parse for OpenBracket {
    open spec fn spec_parse(c: Cursor) -> (Result<OpenBracket, Error>, Cursor) {
        spec_parse_token::<OpenBracket>(c)
    }

    fn parse(p: &mut Parser<'_>) -> (node: Result<Self, Error>) {
        let t = p.next()?;
        Self::to_ast(t.span, t.kind)
    }

    proof fn lemma_parse_advances(c: Cursor) {
        lemma_parse_token_advances::<OpenBracket>(c);
    }
}

impl Peek for OpenBracket {
    open spec fn spec_peek(c: Cursor) -> bool {
        spec_peek_token::<OpenBracket>(c)
    }

    fn peek(p: &mut Peeker<'_>) -> (b: bool) {
        matches!(p.nth(0), Kind::Open(Delimiter::Bracket))
    }
}

impl Node for OpenBracket {
    proof fn lemma_takes_a_token(c: Cursor) {
    }

    proof fn lemma_peek_sound(c: Cursor) {
    }
}

impl ToTokens for OpenBracket {
    open spec fn spec_tokens(&self) -> Seq<Token> {
        seq![Token { span: self.span, kind: Kind::Open(Delimiter::Bracket) }]
    }

    fn to_tokens(&self, cx: &mut MacroContext, stream: &mut TokenStream) {
        stream.push(Token { span: self.span, kind: Kind::Open(Delimiter::Bracket) });
    }
}

/// The bracket `]`.
#[derive(Debug, Clone, Copy, PartialEq, Eq, Structural)]
pub struct CloseBracket {
    /// The span of the token.
    pub span: Span,
}

impl DeepView for CloseBracket {
    type V = CloseBracket;

    open spec fn deep_view(&self) -> CloseBracket {
        *self
    }
}

impl Spanned for CloseBracket {
    open spec fn spec_span(&self) -> Span {
        self.span
    }

    fn span(&self) -> (span: Span) {
        self.span
    }
}

impl ToAst for CloseBracket {
    open spec fn accepts(kind: Kind) -> bool {
        kind == Kind::Close(Delimiter::Bracket)
    }

    open spec fn expectation() -> Expectation {
        Expectation::Delimiter("]")
    }

    open spec fn from_token(span: Span, kind: Kind) -> CloseBracket {
        CloseBracket { span }
    }

    fn to_ast(span: Span, kind: Kind) -> (node: Result<Self, Error>) {
        match kind {
            Kind::Close(Delimiter::Bracket) => Ok(Self { span }),
            _ => Err(Error::expected(Token { span, kind }, Self::into_expectation())),
        }
    }

    fn matches(kind: &Kind) -> (b: bool) {
        matches!(kind, Kind::Close(Delimiter::Bracket))
    }

    fn into_expectation() -> (expected: Expectation) {
        Expectation::Delimiter("]")
    }
}

impl Parse for CloseBracket {
    open spec fn spec_parse(c: Cursor) -> (Result<CloseBracket, Error>, Cursor) {
        spec_parse_token::<CloseBracket>(c)
    }

    fn parse(p: &mut Parser<'_>) -> (node: Result<Self, Error>) {
        let t = p.next()?;
        Self::to_ast(t.span, t.kind)
    }

    proof fn lemma_parse_advances(c: Cursor) {
        lemma_parse_token_advances::<CloseBracket>(c);
    }
}

impl Peek for CloseBracket {
    open spec fn spec_peek(c: Cursor) -> bool {
        spec_peek_token::<CloseBracket>(c)
    }

    fn peek(p: &mut Peeker<'_>) -> (b: bool) {
        matches!(p.nth(0), Kind::Close(Delimiter::Bracket))
    }
}

impl Node for CloseBracket {
    proof fn lemma_takes_a_token(c: Cursor) {
    }

    proof fn lemma_peek_sound(c: Cursor) {
    }
}

impl ToTokens for CloseBracket {
    open spec fn spec_tokens(&self) -> Seq<Token> {
        seq![Token { span: self.span, kind: Kind::Close(Delimiter::Bracket) }]
    }

    fn to_tokens(&self, cx: &mut MacroContext, stream: &mut TokenStream) {
        stream.push(Token { span: self.span, kind: Kind::Close(Delimiter::Bracket) });
    }
}

} // verus!

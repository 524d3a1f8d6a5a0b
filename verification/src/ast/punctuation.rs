//! The punctuation marks, each a node of one token.

use vstd::prelude::*;
use crate::error::{Error, Expectation};
use crate::macros::{MacroContext, ToTokens};
use crate::parse::{
    lemma_parse_token_advances, spec_parse_token, spec_peek_token, Node, Parse, Peek, ToAst,
};
use crate::parser::{Cursor, Parser, Peeker, TokenStream};
use crate::span::{Span, Spanned};
use crate::token::{Kind, Token};

verus! {

/// The mark `:`.
#[derive(Debug, Clone, Copy, PartialEq, Eq, Structural)]
pub struct Colon {
    /// The span of the token.
    pub span: Span,
}

impl DeepView for Colon {
    type V = Colon;

    open spec fn deep_view(&self) -> Colon {
        *self
    }
}

impl Spanned for Colon {
    open spec fn spec_span(&self) -> Span {
        self.span
    }

    fn span(&self) -> (span: Span) {
        self.span
    }
}

impl ToAst for Colon {
    open spec fn accepts(kind: Kind) -> bool {
        kind == Kind::Colon
    }

    open spec fn expectation() -> Expectation {
        Expectation::Punctuation(":")
    }

    open spec fn from_token(span: Span, kind: Kind) -> Colon {
        Colon { span }
    }

    fn to_ast(span: Span, kind: Kind) -> (node: Result<Self, Error>) {
        match kind {
            Kind::Colon => Ok(Self { span }),
            _ => Err(Error::expected(Token { span, kind }, Self::into_expectation())),
        }
    }

    fn matches(kind: &Kind) -> (b: bool) {
        matches!(kind, Kind::Colon)
    }

    fn into_expectation() -> (expected: Expectation) {
        Expectation::Punctuation(":")
    }
}

impl Parse for Colon {
    open spec fn spec_parse(c: Cursor) -> (Result<Colon, Error>, Cursor) {
        spec_parse_token::<Colon>(c)
    }

    fn parse(p: &mut Parser<'_>) -> (node: Result<Self, Error>) {
        let t = p.next()?;
        Self::to_ast(t.span, t.kind)
    }

    proof fn lemma_parse_advances(c: Cursor) {
        lemma_parse_token_advances::<Colon>(c);
    }
}

impl Peek for Colon {
    open spec fn spec_peek(c: Cursor) -> bool {
        spec_peek_token::<Colon>(c)
    }

    fn peek(p: &mut Peeker<'_>) -> (b: bool) {
        matches!(p.nth(0), Kind::Colon)
    }
}

impl Node for Colon {
    proof fn lemma_takes_a_token(c: Cursor) {
    }

    proof fn lemma_peek_sound(c: Cursor) {
    }
}

impl ToTokens for Colon {
    open spec fn spec_tokens(&self) -> Seq<Token> {
        seq![Token { span: self.span, kind: Kind::Colon }]
    }

    fn to_tokens(&self, cx: &mut MacroContext, stream: &mut TokenStream) {
        stream.push(Token { span: self.span, kind: Kind::Colon });
    }
}

/// The mark `;`.
#[derive(Debug, Clone, Copy, PartialEq, Eq, Structural)]
pub struct SemiColon {
    /// The span of the token.
    pub span: Span,
}

impl DeepView for SemiColon {
    type V = SemiColon;

    open spec fn deep_view(&self) -> SemiColon {
        *self
    }
}

impl Spanned for SemiColon {
    open spec fn spec_span(&self) -> Span {
        self.span
    }

    fn span(&self) -> (span: Span) {
        self.span
    }
}

impl ToAst for SemiColon {
    open spec fn accepts(kind: Kind) -> bool {
        kind == Kind::SemiColon
    }

    open spec fn expectation() -> Expectation {
        Expectation::Punctuation(";")
    }

    open spec fn from_token(span: Span, kind: Kind) -> SemiColon {
        SemiColon { span }
    }

    fn to_ast(span: Span, kind: Kind) -> (node: Result<Self, Error>) {
        match kind {
            Kind::SemiColon => Ok(Self { span }),
            _ => Err(Error::expected(Token { span, kind }, Self::into_expectation())),
        }
    }

    fn matches(kind: &Kind) -> (b: bool) {
        matches!(kind, Kind::SemiColon)
    }

    fn into_expectation() -> (expected: Expectation) {
        Expectation::Punctuation(";")
    }
}

impl Parse for SemiColon {
    open spec fn spec_parse(c: Cursor) -> (Result<SemiColon, Error>, Cursor) {
        spec_parse_token::<SemiColon>(c)
    }

    fn parse(p: &mut Parser<'_>) -> (node: Result<Self, Error>) {
        let t = p.next()?;
        Self::to_ast(t.span, t.kind)
    }

    proof fn lemma_parse_advances(c: Cursor) {
        lemma_parse_token_advances::<SemiColon>(c);
    }
}

impl Peek for SemiColon {
    open spec fn spec_peek(c: Cursor) -> bool {
        spec_peek_token::<SemiColon>(c)
    }

    fn peek(p: &mut Peeker<'_>) -> (b: bool) {
        matches!(p.nth(0), Kind::SemiColon)
    }
}

impl Node for SemiColon {
    proof fn lemma_takes_a_token(c: Cursor) {
    }

    proof fn lemma_peek_sound(c: Cursor) {
    }
}

impl ToTokens for SemiColon {
    open spec fn spec_tokens(&self) -> Seq<Token> {
        seq![Token { span: self.span, kind: Kind::SemiColon }]
    }

    fn to_tokens(&self, cx: &mut MacroContext, stream: &mut TokenStream) {
        stream.push(Token { span: self.span, kind: Kind::SemiColon });
    }
}

/// The mark `#`.
#[derive(Debug, Clone, Copy, PartialEq, Eq, Structural)]
pub struct Pound {
    /// The span of the token.
    pub span: Span,
}

impl DeepView for Pound {
    type V = Pound;

    open spec fn deep_view(&self) -> Pound {
        *self
    }
}

impl Spanned for Pound {
    open spec fn spec_span(&self) -> Span {
        self.span
    }

    fn span(&self) -> (span: Span) {
        self.span
    }
}

impl ToAst for Pound {
    open spec fn accepts(kind: Kind) -> bool {
        kind == Kind::Pound
    }

    open spec fn expectation() -> Expectation {
        Expectation::Punctuation("#")
    }

    open spec fn from_token(span: Span, kind: Kind) -> Pound {
        Pound { span }
    }

    fn to_ast(span: Span, kind: Kind) -> (node: Result<Self, Error>) {
        match kind {
            Kind::Pound => Ok(Self { span }),
            _ => Err(Error::expected(Token { span, kind }, Self::into_expectation())),
        }
    }

    fn matches(kind: &Kind) -> (b: bool) {
        matches!(kind, Kind::Pound)
    }

    fn into_expectation() -> (expected: Expectation) {
        Expectation::Punctuation("#")
    }
}

impl Parse for Pound {
    open spec fn spec_parse(c: Cursor) -> (Result<Pound, Error>, Cursor) {
        spec_parse_token::<Pound>(c)
    }

    fn parse(p: &mut Parser<'_>) -> (node: Result<Self, Error>) {
        let t = p.next()?;
        Self::to_ast(t.span, t.kind)
    }

    proof fn lemma_parse_advances(c: Cursor) {
        lemma_parse_token_advances::<Pound>(c);
    }
}

impl Peek for Pound {
    open spec fn spec_peek(c: Cursor) -> bool {
        spec_peek_token::<Pound>(c)
    }

    fn peek(p: &mut Peeker<'_>) -> (b: bool) {
        matches!(p.nth(0), Kind::Pound)
    }
}

impl Node for Pound {
    proof fn lemma_takes_a_token(c: Cursor) {
    }

    proof fn lemma_peek_sound(c: Cursor) {
    }
}

impl ToTokens for Pound {
    open spec fn spec_tokens(&self) -> Seq<Token> {
        seq![Token { span: self.span, kind: Kind::Pound }]
    }

    fn to_tokens(&self, cx: &mut MacroContext, stream: &mut TokenStream) {
        stream.push(Token { span: self.span, kind: Kind::Pound });
    }
}

} // verus!

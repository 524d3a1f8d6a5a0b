//! The keywords, each a node of one token.

use vstd::prelude::*;
use crate::error::{Error, Expectation};
use crate::macros::{MacroContext, ToTokens};
use crate::parse::{
    lemma_parse_token_advances, spec_parse_token, spec_peek_token, Node, Parse, Peek, ToAst,
};
use crate::parser::{Cursor, Parser, Peeker, TokenStream};
use crate::span::{Span, Spanned};
use crate::token::{Kind, Token};

verus! {

/// The keyword `async`.
#[derive(Debug, Clone, Copy, PartialEq, Eq, Structural)]
pub struct Async {
    /// The span of the token.
    pub span: Span,
}

impl DeepView for Async {
    type V = Async;

    open spec fn deep_view(&self) -> Async {
        *self
    }
}

impl Spanned for Async {
    open spec fn spec_span(&self) -> Span {
        self.span
    }

    fn span(&self) -> (span: Span) {
        self.span
    }
}

impl ToAst for Async {
    open spec fn accepts(kind: Kind) -> bool {
        kind == Kind::Async
    }

    open spec fn expectation() -> Expectation {
        Expectation::Keyword("async")
    }

    open spec fn from_token(span: Span, kind: Kind) -> Async {
        Async { span }
    }

    fn to_ast(span: Span, kind: Kind) -> (node: Result<Self, Error>) {
        match kind {
            Kind::Async => Ok(Self { span }),
            _ => Err(Error::expected(Token { span, kind }, Self::into_expectation())),
        }
    }

    fn matches(kind: &Kind) -> (b: bool) {
        matches!(kind, Kind::Async)
    }

    fn into_expectation() -> (expected: Expectation) {
        Expectation::Keyword("async")
    }
}

impl Parse for Async {
    open spec fn spec_parse(c: Cursor) -> (Result<Async, Error>, Cursor) {
        spec_parse_token::<Async>(c)
    }

    fn parse(p: &mut Parser<'_>) -> (node: Result<Self, Error>) {
        let t = p.next()?;
        Self::to_ast(t.span, t.kind)
    }

    proof fn lemma_parse_advances(c: Cursor) {
        lemma_parse_token_advances::<Async>(c);
    }
}

impl Peek for Async {
    open spec fn spec_peek(c: Cursor) -> bool {
        spec_peek_token::<Async>(c)
    }

    fn peek(p: &mut Peeker<'_>) -> (b: bool) {
        matches!(p.nth(0), Kind::Async)
    }
}

impl Node for Async {
    proof fn lemma_takes_a_token(c: Cursor) {
    }

    proof fn lemma_peek_sound(c: Cursor) {
    }
}

impl ToTokens for Async {
    open spec fn spec_tokens(&self) -> Seq<Token> {
        seq![Token { span: self.span, kind: Kind::Async }]
    }

    fn to_tokens(&self, cx: &mut MacroContext, stream: &mut TokenStream) {
        stream.push(Token { span: self.span, kind: Kind::Async });
    }
}

/// The keyword `const`.
#[derive(Debug, Clone, Copy, PartialEq, Eq, Structural)]
pub struct Const {
    /// The span of the token.
    pub span: Span,
}

impl DeepView for Const {
    type V = Const;

    open spec fn deep_view(&self) -> Const {
        *self
    }
}

impl Spanned for Const {
    open spec fn spec_span(&self) -> Span {
        self.span
    }

    fn span(&self) -> (span: Span) {
        self.span
    }
}

impl ToAst for Const {
    open spec fn accepts(kind: Kind) -> bool {
        kind == Kind::Const
    }

    open spec fn expectation() -> Expectation {
        Expectation::Keyword("const")
    }

    open spec fn from_token(span: Span, kind: Kind) -> Const {
        Const { span }
    }

    fn to_ast(span: Span, kind: Kind) -> (node: Result<Self, Error>) {
        match kind {
            Kind::Const => Ok(Self { span }),
            _ => Err(Error::expected(Token { span, kind }, Self::into_expectation())),
        }
    }

    fn matches(kind: &Kind) -> (b: bool) {
        matches!(kind, Kind::Const)
    }

    fn into_expectation() -> (expected: Expectation) {
        Expectation::Keyword("const")
    }
}

impl Parse for Const {
    open spec fn spec_parse(c: Cursor) -> (Result<Const, Error>, Cursor) {
        spec_parse_token::<Const>(c)
    }

    fn parse(p: &mut Parser<'_>) -> (node: Result<Self, Error>) {
        let t = p.next()?;
        Self::to_ast(t.span, t.kind)
    }

    proof fn lemma_parse_advances(c: Cursor) {
        lemma_parse_token_advances::<Const>(c);
    }
}

impl Peek for Const {
    open spec fn spec_peek(c: Cursor) -> bool {
        spec_peek_token::<Const>(c)
    }

    fn peek(p: &mut Peeker<'_>) -> (b: bool) {
        matches!(p.nth(0), Kind::Const)
    }
}

impl Node for Const {
    proof fn lemma_takes_a_token(c: Cursor) {
    }

    proof fn lemma_peek_sound(c: Cursor) {
    }
}

impl ToTokens for Const {
    open spec fn spec_tokens(&self) -> Seq<Token> {
        seq![Token { span: self.span, kind: Kind::Const }]
    }

    fn to_tokens(&self, cx: &mut MacroContext, stream: &mut TokenStream) {
        stream.push(Token { span: self.span, kind: Kind::Const });
    }
}

/// The keyword `move`.
#[derive(Debug, Clone, Copy, PartialEq, Eq, Structural)]
pub struct Move {
    /// The span of the token.
    pub span: Span,
}

impl DeepView for Move {
    type V = Move;

    open spec fn deep_view(&self) -> Move {
        *self
    }
}

impl Spanned for Move {
    open spec fn spec_span(&self) -> Span {
        self.span
    }

    fn span(&self) -> (span: Span) {
        self.span
    }
}

impl ToAst for Move {
    open spec fn accepts(kind: Kind) -> bool {
        kind == Kind::Move
    }

    open spec fn expectation() -> Expectation {
        Expectation::Keyword("move")
    }

    open spec fn from_token(span: Span, kind: Kind) -> Move {
        Move { span }
    }

    fn to_ast(span: Span, kind: Kind) -> (node: Result<Self, Error>) {
        match kind {
            Kind::Move => Ok(Self { span }),
            _ => Err(Error::expected(Token { span, kind }, Self::into_expectation())),
        }
    }

    fn matches(kind: &Kind) -> (b: bool) {
        matches!(kind, Kind::Move)
    }

    fn into_expectation() -> (expected: Expectation) {
        Expectation::Keyword("move")
    }
}

impl Parse for Move {
    open spec fn spec_parse(c: Cursor) -> (Result<Move, Error>, Cursor) {
        spec_parse_token::<Move>(c)
    }

    fn parse(p: &mut Parser<'_>) -> (node: Result<Self, Error>) {
        let t = p.next()?;
        Self::to_ast(t.span, t.kind)
    }

    proof fn lemma_parse_advances(c: Cursor) {
        lemma_parse_token_advances::<Move>(c);
    }
}

impl Peek for Move {
    open spec fn spec_peek(c: Cursor) -> bool {
        spec_peek_token::<Move>(c)
    }

    fn peek(p: &mut Peeker<'_>) -> (b: bool) {
        matches!(p.nth(0), Kind::Move)
    }
}

impl Node for Move {
    proof fn lemma_takes_a_token(c: Cursor) {
    }

    proof fn lemma_peek_sound(c: Cursor) {
    }
}

impl ToTokens for Move {
    open spec fn spec_tokens(&self) -> Seq<Token> {
        seq![Token { span: self.span, kind: Kind::Move }]
    }

    fn to_tokens(&self, cx: &mut MacroContext, stream: &mut TokenStream) {
        stream.push(Token { span: self.span, kind: Kind::Move });
    }
}

} // verus!

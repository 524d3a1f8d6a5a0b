//! Number literals.

use vstd::prelude::*;
use crate::error::{Error, Expectation, SyntheticKind};
use crate::macros::{MacroContext, ToTokens};
use crate::parse::{
    lemma_parse_token_advances, spec_parse_token, spec_peek_token, Node, Parse, Peek, Resolve,
    ToAst,
};
use crate::parser::{Cursor, Parser, Peeker, TokenStream};
use crate::sources::{spec_text_of, ResolveContext};
use crate::span::{Span, Spanned};
use crate::token::{Kind, LitSource, Token};

verus! {

/// A number literal, like `42`.
#[derive(Debug, Clone, Copy, PartialEq, Eq, Structural)]
pub struct LitNumber {
    /// The span of the token.
    pub span: Span,
    /// Where the text lives.
    pub source: LitSource,
}

impl DeepView for LitNumber {
    type V = LitNumber;

    open spec fn deep_view(&self) -> LitNumber {
        *self
    }
}

impl Spanned for LitNumber {
    open spec fn spec_span(&self) -> Span {
        self.span
    }

    fn span(&self) -> (span: Span) {
        self.span
    }
}

impl ToAst for LitNumber {
    open spec fn accepts(kind: Kind) -> bool {
        kind is Number
    }

    open spec fn expectation() -> Expectation {
        Expectation::Description("a number")
    }

    open spec fn from_token(span: Span, kind: Kind) -> LitNumber {
        LitNumber { span, source: kind->Number_0 }
    }

    fn to_ast(span: Span, kind: Kind) -> (node: Result<Self, Error>) {
        match kind {
            Kind::Number(source) => Ok(Self { span, source }),
            _ => Err(Error::expected(Token { span, kind }, Self::into_expectation())),
        }
    }

    fn matches(kind: &Kind) -> (b: bool) {
        matches!(kind, Kind::Number(..))
    }

    fn into_expectation() -> (expected: Expectation) {
        Expectation::Description("a number")
    }
}

impl Parse for LitNumber {
    open spec fn spec_parse(c: Cursor) -> (Result<LitNumber, Error>, Cursor) {
        spec_parse_token::<LitNumber>(c)
    }

    fn parse(p: &mut Parser<'_>) -> (node: Result<Self, Error>) {
        let t = p.next()?;
        Self::to_ast(t.span, t.kind)
    }

    proof fn lemma_parse_advances(c: Cursor) {
        lemma_parse_token_advances::<LitNumber>(c);
    }
}

impl Peek for LitNumber {
    open spec fn spec_peek(c: Cursor) -> bool {
        spec_peek_token::<LitNumber>(c)
    }

    fn peek(p: &mut Peeker<'_>) -> (b: bool) {
        matches!(p.nth(0), Kind::Number(..))
    }
}

impl Node for LitNumber {
    proof fn lemma_takes_a_token(c: Cursor) {
    }

    proof fn lemma_peek_sound(c: Cursor) {
    }
}

impl<'a> Resolve<'a> for LitNumber {
    type Output = &'a str;

    /// The digits of the number as they are written.
    open spec fn spec_resolve(&self, sources: Seq<Seq<char>>, storage: Seq<Seq<char>>) -> Result<
        Seq<char>,
        Error,
    > {
        spec_text_of(self.span, self.source, SyntheticKind::Number, sources, storage)
    }

    fn resolve(&self, cx: ResolveContext<'a>) -> (out: Result<&'a str, Error>) {
        cx.text_of(self.span, self.source, SyntheticKind::Number)
    }
}

impl ToTokens for LitNumber {
    open spec fn spec_tokens(&self) -> Seq<Token> {
        seq![Token { span: self.span, kind: Kind::Number(self.source) }]
    }

    fn to_tokens(&self, cx: &mut MacroContext, stream: &mut TokenStream) {
        stream.push(Token { span: self.span, kind: Kind::Number(self.source) });
    }
}

} // verus!

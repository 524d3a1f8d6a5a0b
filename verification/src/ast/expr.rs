//! Expressions, as far as a statement needs them.

use vstd::prelude::*;
use crate::ast::ident::Ident;
use crate::ast::lit_number::LitNumber;
use crate::error::{Error, Expectation};
use crate::macros::{MacroContext, ToTokens};
use crate::parse::{
    lemma_parse_token_advances, spec_parse_token, spec_peek_token, Node, Parse, Peek, ToAst,
};
use crate::parser::{Cursor, Parser, Peeker, TokenStream};
use crate::span::{Span, Spanned};
use crate::token::{Kind, Token};

verus! {

/// An expression of one token: a number or an identifier.
#[derive(Debug, Clone, Copy, PartialEq, Eq, Structural)]
pub enum Expr {
    /// A number, like `42`.
    Number(LitNumber),
    /// An identifier, like `foo`.
    Ident(Ident),
}

impl DeepView for Expr {
    type V = Expr;

    open spec fn deep_view(&self) -> Expr {
        *self
    }
}

impl Spanned for Expr {
    open spec fn spec_span(&self) -> Span {
        match self {
            Expr::Number(number) => number.span,
            Expr::Ident(ident) => ident.span,
        }
    }

    fn span(&self) -> (span: Span) {
        match self {
            Expr::Number(number) => number.span,
            Expr::Ident(ident) => ident.span,
        }
    }
}

impl ToAst for Expr {
    open spec fn accepts(kind: Kind) -> bool {
        kind is Number || kind is Ident
    }

    open spec fn expectation() -> Expectation {
        Expectation::Description("an expression")
    }

    open spec fn from_token(span: Span, kind: Kind) -> Expr {
        if kind is Number {
            Expr::Number(LitNumber { span, source: kind->Number_0 })
        } else {
            Expr::Ident(Ident { span, source: kind->Ident_0 })
        }
    }

    fn to_ast(span: Span, kind: Kind) -> (node: Result<Self, Error>) {
        match kind {
            Kind::Number(source) => Ok(Expr::Number(LitNumber { span, source })),
            Kind::Ident(source) => Ok(Expr::Ident(Ident { span, source })),
            _ => Err(Error::expected(Token { span, kind }, Self::into_expectation())),
        }
    }

    fn matches(kind: &Kind) -> (b: bool) {
        matches!(kind, Kind::Number(..) | Kind::Ident(..))
    }

    fn into_expectation() -> (expected: Expectation) {
        Expectation::Description("an expression")
    }
}

impl Parse for Expr {
    open spec fn spec_parse(c: Cursor) -> (Result<Expr, Error>, Cursor) {
        spec_parse_token::<Expr>(c)
    }

    fn parse(p: &mut Parser<'_>) -> (node: Result<Self, Error>) {
        let t = p.next()?;
        Self::to_ast(t.span, t.kind)
    }

    proof fn lemma_parse_advances(c: Cursor) {
        lemma_parse_token_advances::<Expr>(c);
    }
}

impl Peek for Expr {
    open spec fn spec_peek(c: Cursor) -> bool {
        spec_peek_token::<Expr>(c)
    }

    fn peek(p: &mut Peeker<'_>) -> (b: bool) {
        matches!(p.nth(0), Kind::Number(..) | Kind::Ident(..))
    }
}

impl Node for Expr {
    proof fn lemma_takes_a_token(c: Cursor) {
    }

    proof fn lemma_peek_sound(c: Cursor) {
    }
}

impl ToTokens for Expr {
    open spec fn spec_tokens(&self) -> Seq<Token> {
        match self {
            Expr::Number(number) => number.spec_tokens(),
            Expr::Ident(ident) => ident.spec_tokens(),
        }
    }

    fn to_tokens(&self, cx: &mut MacroContext, stream: &mut TokenStream) {
        match self {
            Expr::Number(number) => number.to_tokens(cx, stream),
            Expr::Ident(ident) => ident.to_tokens(cx, stream),
        }
    }
}

} // verus!

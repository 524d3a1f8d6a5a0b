//! Statements.

use vstd::prelude::*;
use crate::ast::expr::Expr;
use crate::ast::punctuation::SemiColon;
use crate::error::Error;
use crate::macros::{MacroContext, ToTokens};
use crate::parse::{Node, Parse, Peek};
use crate::parser::{Cursor, Parser, Peeker, TokenStream};
use crate::span::{Span, Spanned};
use crate::token::Token;

verus! {

/// A statement: an expression, and the semicolon behind it if there is one.
#[derive(Debug, Clone, Copy, PartialEq, Eq, Structural)]
pub struct Stmt {
    /// The expression.
    pub expr: Expr,
    /// The semicolon that ends the statement.
    pub semi: Option<SemiColon>,
}

impl DeepView for Stmt {
    type V = Stmt;

    open spec fn deep_view(&self) -> Stmt {
        *self
    }
}

impl Spanned for Stmt {
    open spec fn spec_span(&self) -> Span {
        match self.semi {
            Some(semi) => self.expr.spec_span().spec_join(semi.span),
            None => self.expr.spec_span(),
        }
    }

    fn span(&self) -> (span: Span) {
        match self.semi {
            Some(semi) => self.expr.span().join(semi.span),
            None => self.expr.span(),
        }
    }
}

impl Parse for Stmt {
    open spec fn spec_parse(c: Cursor) -> (Result<Stmt, Error>, Cursor) {
        match <(Expr, Option<SemiColon>)>::spec_parse(c) {
            (Ok((expr, semi)), after) => (Ok(Stmt { expr, semi }), after),
            (Err(error), after) => (Err(error), after),
        }
    }

    fn parse(p: &mut Parser<'_>) -> (node: Result<Self, Error>) {
        let expr = p.parse::<Expr>()?;
        let semi = p.parse::<Option<SemiColon>>()?;
        Ok(Stmt { expr, semi })
    }

    proof fn lemma_parse_advances(c: Cursor) {
        <(Expr, Option<SemiColon>)>::lemma_parse_advances(c);
    }
}

impl Peek for Stmt {
    open spec fn spec_peek(c: Cursor) -> bool {
        Expr::spec_peek(c)
    }

    fn peek(p: &mut Peeker<'_>) -> (b: bool) {
        Expr::peek(p)
    }
}

impl Node for Stmt {
    proof fn lemma_takes_a_token(c: Cursor) {
        <(Expr, Option<SemiColon>)>::lemma_takes_a_token(c);
    }

    proof fn lemma_peek_sound(c: Cursor) {
        <(Expr, Option<SemiColon>)>::lemma_peek_sound(c);
    }
}

impl ToTokens for Stmt {
    open spec fn spec_tokens(&self) -> Seq<Token> {
        self.expr.spec_tokens() + self.semi.spec_tokens()
    }

    fn to_tokens(&self, cx: &mut MacroContext, stream: &mut TokenStream) {
        self.expr.to_tokens(cx, stream);
        self.semi.to_tokens(cx, stream);
        assert(stream@ =~= old(stream)@ + self.spec_tokens());
    }
}

} // verus!

//! Attributes.

use vstd::prelude::*;
use crate::ast::delimiter::{CloseBracket, OpenBracket};
use crate::ast::ident::Ident;
use crate::ast::punctuation::Pound;
use crate::error::Error;
use crate::macros::{MacroContext, ToTokens};
use crate::parse::{Node, Parse, Peek};
use crate::parser::{Cursor, Parser, Peeker, TokenStream};
use crate::span::{Span, Spanned};
use crate::token::Token;

verus! {

/// An attribute, like `#[retry]`.
#[derive(Debug, Clone, Copy, PartialEq, Eq, Structural)]
pub struct Attribute {
    /// The `#` that starts the attribute.
    pub hash: Pound,
    /// The opening bracket.
    pub open: OpenBracket,
    /// The name of the attribute.
    pub path: Ident,
    /// The closing bracket.
    pub close: CloseBracket,
}

impl DeepView for Attribute {
    type V = Attribute;

    open spec fn deep_view(&self) -> Attribute {
        *self
    }
}

impl Spanned for Attribute {
    open spec fn spec_span(&self) -> Span {
        self.hash.span.spec_join(self.open.span).spec_join(self.path.span).spec_join(
            self.close.span,
        )
    }

    fn span(&self) -> (span: Span) {
        self.hash.span.join(self.open.span).join(self.path.span).join(self.close.span)
    }
}

impl Parse for Attribute {
    open spec fn spec_parse(c: Cursor) -> (Result<Attribute, Error>, Cursor) {
        match <((Pound, OpenBracket), (Ident, CloseBracket))>::spec_parse(c) {
            (Ok(((hash, open), (path, close))), after) => (
                Ok(Attribute { hash, open, path, close }),
                after,
            ),
            (Err(error), after) => (Err(error), after),
        }
    }

    fn parse(p: &mut Parser<'_>) -> (node: Result<Self, Error>) {
        let hash = p.parse::<Pound>()?;
        let open = p.parse::<OpenBracket>()?;
        let path = p.parse::<Ident>()?;
        let close = p.parse::<CloseBracket>()?;
        Ok(Attribute { hash, open, path, close })
    }

    proof fn lemma_parse_advances(c: Cursor) {
        <((Pound, OpenBracket), (Ident, CloseBracket))>::lemma_parse_advances(c);
    }
}

impl Peek for Attribute {
    open spec fn spec_peek(c: Cursor) -> bool {
        Pound::spec_peek(c)
    }

    fn peek(p: &mut Peeker<'_>) -> (b: bool) {
        Pound::peek(p)
    }
}

impl Node for Attribute {
    proof fn lemma_takes_a_token(c: Cursor) {
        <((Pound, OpenBracket), (Ident, CloseBracket))>::lemma_takes_a_token(c);
    }

    proof fn lemma_peek_sound(c: Cursor) {
        <((Pound, OpenBracket), (Ident, CloseBracket))>::lemma_peek_sound(c);
    }
}

impl ToTokens for Attribute {
    open spec fn spec_tokens(&self) -> Seq<Token> {
        self.hash.spec_tokens() + self.open.spec_tokens() + self.path.spec_tokens()
            + self.close.spec_tokens()
    }

    fn to_tokens(&self, cx: &mut MacroContext, stream: &mut TokenStream) {
        self.hash.to_tokens(cx, stream);
        self.open.to_tokens(cx, stream);
        self.path.to_tokens(cx, stream);
        self.close.to_tokens(cx, stream);
        assert(stream@ =~= old(stream)@ + self.spec_tokens());
    }
}

} // verus!

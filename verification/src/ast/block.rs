//! Blocks.

use vstd::prelude::*;
use crate::ast::delimiter::{CloseBrace, OpenBrace};
use crate::ast::stmt::Stmt;
use crate::error::Error;
use crate::macros::{MacroContext, ToTokens};
use crate::parse::{Node, Parse, Peek};
use crate::parser::{Cursor, Parser, Peeker, TokenStream};
use crate::span::{join_onto, spec_join_onto, OptionSpanned, Span, Spanned};
use crate::token::Token;

verus! {

/// A block, like `{ 42 }`: statements between braces.
#[derive(Debug, Clone, PartialEq, Eq)]
pub struct Block {
    /// The opening brace.
    pub open: OpenBrace,
    /// The statements of the block.
    pub statements: Vec<Stmt>,
    /// The closing brace.
    pub close: CloseBrace,
}

/// The model of a block.
pub struct BlockView {
    pub open: OpenBrace,
    pub statements: Seq<Stmt>,
    pub close: CloseBrace,
}

impl DeepView for Block {
    type V = BlockView;

    open spec fn deep_view(&self) -> BlockView {
        BlockView {
            open: self.open,
            statements: self.statements.deep_view(),
            close: self.close,
        }
    }
}

impl Spanned for Block {
    open spec fn spec_span(&self) -> Span {
        spec_join_onto(
            Some(spec_join_onto(self.statements.spec_option_span(), self.open.span)),
            self.close.span,
        )
    }

    fn span(&self) -> (span: Span) {
        join_onto(Some(join_onto(self.statements.option_span(), self.open.span)), self.close.span)
    }
}

impl Parse for Block {
    open spec fn spec_parse(c: Cursor) -> (Result<BlockView, Error>, Cursor) {
        match <((OpenBrace, Vec<Stmt>), CloseBrace)>::spec_parse(c) {
            (Ok(((open, statements), close)), after) => (
                Ok(BlockView { open, statements, close }),
                after,
            ),
            (Err(error), after) => (Err(error), after),
        }
    }

    fn parse(p: &mut Parser<'_>) -> (node: Result<Self, Error>) {
        let open = p.parse::<OpenBrace>()?;
        let statements = p.parse::<Vec<Stmt>>()?;
        let close = p.parse::<CloseBrace>()?;
        Ok(Block { open, statements, close })
    }

    proof fn lemma_parse_advances(c: Cursor) {
        <((OpenBrace, Vec<Stmt>), CloseBrace)>::lemma_parse_advances(c);
    }
}

impl Node for Block {
    proof fn lemma_takes_a_token(c: Cursor) {
        <((OpenBrace, Vec<Stmt>), CloseBrace)>::lemma_takes_a_token(c);
    }

    proof fn lemma_peek_sound(c: Cursor) {
        <((OpenBrace, Vec<Stmt>), CloseBrace)>::lemma_peek_sound(c);
    }
}

impl Peek for Block {
    open spec fn spec_peek(c: Cursor) -> bool {
        OpenBrace::spec_peek(c)
    }

    fn peek(p: &mut Peeker<'_>) -> (b: bool) {
        OpenBrace::peek(p)
    }
}

impl ToTokens for Block {
    open spec fn spec_tokens(&self) -> Seq<Token> {
        self.open.spec_tokens() + self.statements.spec_tokens() + self.close.spec_tokens()
    }

    fn to_tokens(&self, cx: &mut MacroContext, stream: &mut TokenStream) {
        self.open.to_tokens(cx, stream);
        self.statements.to_tokens(cx, stream);
        self.close.to_tokens(cx, stream);
        assert(stream@ =~= old(stream)@ + self.spec_tokens());
    }
}

} // verus!

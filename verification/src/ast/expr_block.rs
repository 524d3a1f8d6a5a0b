//! Block expressions.

use vstd::prelude::*;
use crate::ast::attribute::Attribute;
use crate::ast::block::{Block, BlockView};
use crate::ast::keyword::{Async, Const, Move};
use crate::ast::label::Label;
use crate::ast::punctuation::Colon;
use crate::error::{Error, Expectation};
use crate::macros::{MacroContext, ToTokens};
use crate::parse::{
    advances, lemma_accepts_first_then, lemma_advances_then, lemma_many_accepts_first,
    lemma_option_accepts_first, Node, Parse, Peek,
};
use crate::parser::{lemma_advance_twice, Cursor, Parser, Peeker, TokenStream};
use crate::span::{
    join_onto, join_option, spec_join_onto, spec_join_option, OptionSpanned, Span, Spanned,
};
use crate::token::{Delimiter, Kind, Token};

verus! {

/// A block expression.
///
/// * `<block>`.
/// * `async <block>`.
/// * `const <block>`.
///
/// Attributes come first, then `async`, then `const`, then `move`, then a
/// label with its colon, then the block. Each of the pieces before the block
/// may be absent, each on its own account: that `move` goes with `async`
/// only is not a matter of this node.
#[derive(Debug, Clone, PartialEq, Eq)]
#[non_exhaustive]
pub struct ExprBlock {
    /// The attributes for the block.
    pub attributes: Vec<Attribute>,
    /// The optional async token.
    pub async_token: Option<Async>,
    /// The optional const token.
    pub const_token: Option<Const>,
    /// The optional move token.
    pub move_token: Option<Move>,
    /// An optional label for the block.
    pub label: Option<(Label, Colon)>,
    /// The block itself.
    pub block: Block,
}

/// The model of a block expression.
pub struct ExprBlockView {
    pub attributes: Seq<Attribute>,
    pub async_token: Option<Async>,
    pub const_token: Option<Const>,
    pub move_token: Option<Move>,
    pub label: Option<(Label, Colon)>,
    pub block: BlockView,
}

impl DeepView for ExprBlock {
    type V = ExprBlockView;

    open spec fn deep_view(&self) -> ExprBlockView {
        ExprBlockView {
            attributes: self.attributes.deep_view(),
            async_token: self.async_token,
            const_token: self.const_token,
            move_token: self.move_token,
            label: self.label,
            block: self.block.deep_view(),
        }
    }
}

impl ExprBlock {
    /// How a block expression is described where another token stands in
    /// the place of its block.
    pub open spec fn expectation() -> Expectation {
        Expectation::Description("block expression")
    }

    /// Parsing the block of a block expression at `c`. The block has to be
    /// there: any other token is taken and reported, with the block
    /// expression as what was expected.
    pub open spec fn spec_parse_block(c: Cursor) -> (Result<BlockView, Error>, Cursor) {
        if Block::spec_peek(c) {
            Block::spec_parse(c)
        } else {
            match c.next() {
                (Ok(found), after) => (
                    Err(Error::spec_expected(found, ExprBlock::expectation())),
                    after,
                ),
                (Err(error), after) => (Err(error), after),
            }
        }
    }

    /// Parsing the block of a block expression only moves forward.
    pub proof fn lemma_parse_block_advances(c: Cursor)
        ensures
            advances(c, ExprBlock::spec_parse_block(c)),
    {
        if Block::spec_peek(c) {
            Block::lemma_parse_advances(c);
        } else {
            lemma_advance_twice(c, 0, 0);
        }
    }

    /// How a block expression is described where another token stands in
    /// the place of its block.
    pub fn into_expectation() -> (expected: Expectation)
        ensures
            expected == ExprBlock::expectation(),
    {
        Expectation::Description("block expression")
    }
}

impl Spanned for ExprBlock {
    /// The join of the spans of the pieces that are present.
    open spec fn spec_span(&self) -> Span {
        spec_join_onto(
            spec_join_option(
                spec_join_option(
                    spec_join_option(
                        spec_join_option(
                            self.attributes.spec_option_span(),
                            self.async_token.spec_option_span(),
                        ),
                        self.const_token.spec_option_span(),
                    ),
                    self.move_token.spec_option_span(),
                ),
                self.label.spec_option_span(),
            ),
            self.block.spec_span(),
        )
    }

    fn span(&self) -> (span: Span) {
        let so_far = self.attributes.option_span();
        let so_far = join_option(so_far, self.async_token.option_span());
        let so_far = join_option(so_far, self.const_token.option_span());
        let so_far = join_option(so_far, self.move_token.option_span());
        let so_far = join_option(so_far, self.label.option_span());
        join_onto(so_far, self.block.span())
    }
}

impl Parse for ExprBlock {
    open spec fn spec_parse(c: Cursor) -> (Result<ExprBlockView, Error>, Cursor) {
        match <(
            (((Vec<Attribute>, Option<Async>), Option<Const>), Option<Move>),
            Option<(Label, Colon)>,
        )>::spec_parse(c) {
            (Ok(((((attributes, async_token), const_token), move_token), label)), mid) => {
                match ExprBlock::spec_parse_block(mid) {
                    (Ok(block), after) => (
                        Ok(
                            ExprBlockView {
                                attributes,
                                async_token,
                                const_token,
                                move_token,
                                label,
                                block,
                            },
                        ),
                        after,
                    ),
                    (Err(error), after) => (Err(error), after),
                }
            },
            (Err(error), after) => (Err(error), after),
        }
    }

    fn parse(p: &mut Parser<'_>) -> (node: Result<Self, Error>) {
        let attributes = p.parse::<Vec<Attribute>>()?;
        let async_token = p.parse::<Option<Async>>()?;
        let const_token = p.parse::<Option<Const>>()?;
        let move_token = p.parse::<Option<Move>>()?;
        let label = p.parse::<Option<(Label, Colon)>>()?;
        if !p.peek::<Block>() {
            let found = p.next()?;
            return Err(Error::expected(found, Self::into_expectation()));
        }
        let block = p.parse::<Block>()?;
        Ok(ExprBlock { attributes, async_token, const_token, move_token, label, block })
    }

    proof fn lemma_parse_advances(c: Cursor) {
        let head = <(
            (((Vec<Attribute>, Option<Async>), Option<Const>), Option<Move>),
            Option<(Label, Colon)>,
        )>::spec_parse(c);
        <(
            (((Vec<Attribute>, Option<Async>), Option<Const>), Option<Move>),
            Option<(Label, Colon)>,
        )>::lemma_parse_advances(c);
        if head.0 is Ok {
            ExprBlock::lemma_parse_block_advances(head.1);
            lemma_advances_then(c, head, ExprBlock::spec_parse_block(head.1));
        }
    }
}

impl Node for ExprBlock {
    proof fn lemma_takes_a_token(c: Cursor) {
        let head = <(
            (((Vec<Attribute>, Option<Async>), Option<Const>), Option<Move>),
            Option<(Label, Colon)>,
        )>::spec_parse(c);
        <(
            (((Vec<Attribute>, Option<Async>), Option<Const>), Option<Move>),
            Option<(Label, Colon)>,
        )>::lemma_parse_advances(c);
        if head.0 is Ok {
            ExprBlock::lemma_parse_block_advances(head.1);
            if Block::spec_peek(head.1) {
                Block::lemma_takes_a_token(head.1);
            }
            lemma_advances_then(c, head, ExprBlock::spec_parse_block(head.1));
        }
    }

    /// Where a block expression could start, one of its pieces takes the
    /// token at the cursor: the pieces before it are absent and take nothing,
    /// and a failure, if there is one, is met behind that token.
    proof fn lemma_peek_sound(c: Cursor) {
        let attributes = <Vec<Attribute>>::spec_parse(c);
        lemma_many_accepts_first::<Attribute>(c, Seq::empty());
        <Vec<Attribute>>::lemma_parse_advances(c);
        if attributes.0 is Ok {
            let async_token = <Option<Async>>::spec_parse(attributes.1);
            lemma_option_accepts_first::<Async>(attributes.1);
            <Option<Async>>::lemma_parse_advances(attributes.1);
            lemma_accepts_first_then(c, attributes, async_token);
            lemma_advances_then(c, attributes, async_token);
            if async_token.0 is Ok {
                let const_token = <Option<Const>>::spec_parse(async_token.1);
                lemma_option_accepts_first::<Const>(async_token.1);
                <Option<Const>>::lemma_parse_advances(async_token.1);
                lemma_accepts_first_then(c, async_token, const_token);
                lemma_advances_then(c, async_token, const_token);
                if const_token.0 is Ok {
                    let move_token = <Option<Move>>::spec_parse(const_token.1);
                    lemma_option_accepts_first::<Move>(const_token.1);
                    <Option<Move>>::lemma_parse_advances(const_token.1);
                    lemma_accepts_first_then(c, const_token, move_token);
                    lemma_advances_then(c, const_token, move_token);
                    if move_token.0 is Ok {
                        let label = <Option<(Label, Colon)>>::spec_parse(move_token.1);
                        lemma_option_accepts_first::<(Label, Colon)>(move_token.1);
                        <Option<(Label, Colon)>>::lemma_parse_advances(move_token.1);
                        lemma_accepts_first_then(c, move_token, label);
                        lemma_advances_then(c, move_token, label);
                        if label.0 is Ok {
                            let block = ExprBlock::spec_parse_block(label.1);
                            ExprBlock::lemma_parse_block_advances(label.1);
                            if c.consumed(label.1) == 0 {
                                assert(c.rest.skip(0) =~= c.rest);
                                assert(attributes.1 == c);
                                assert(async_token.1 == c);
                                assert(const_token.1 == c);
                                assert(move_token.1 == c);
                                assert(label.1 == c);
                                assert(Block::spec_peek(c));
                                Block::lemma_peek_sound(c);
                            }
                            lemma_accepts_first_then(c, label, block);
                        }
                    }
                }
            }
        }
    }
}

impl Peek for ExprBlock {
    open spec fn spec_peek(c: Cursor) -> bool {
        Attribute::spec_peek(c) || Async::spec_peek(c) || Const::spec_peek(c) || Move::spec_peek(
            c,
        ) || Label::spec_peek(c) || Block::spec_peek(c)
    }

    fn peek(p: &mut Peeker<'_>) -> (b: bool) {
        matches!(
            p.nth(0),
            Kind::Pound | Kind::Async | Kind::Const | Kind::Move | Kind::Label(..) | Kind::Open(
                Delimiter::Brace
            )
        )
    }
}

impl ToTokens for ExprBlock {
    open spec fn spec_tokens(&self) -> Seq<Token> {
        self.attributes.spec_tokens() + self.async_token.spec_tokens()
            + self.const_token.spec_tokens() + self.move_token.spec_tokens()
            + self.label.spec_tokens() + self.block.spec_tokens()
    }

    fn to_tokens(&self, cx: &mut MacroContext, stream: &mut TokenStream) {
        self.attributes.to_tokens(cx, stream);
        self.async_token.to_tokens(cx, stream);
        self.const_token.to_tokens(cx, stream);
        self.move_token.to_tokens(cx, stream);
        self.label.to_tokens(cx, stream);
        self.block.to_tokens(cx, stream);
        assert(stream@ =~= old(stream)@ + self.spec_tokens());
    }
}

} // verus!

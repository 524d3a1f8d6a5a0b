//! Parsing a node and writing it out gives back the tokens that were taken.

use vstd::prelude::*;
use crate::ast::attribute::Attribute;
use crate::ast::block::Block;
use crate::ast::delimiter::{CloseBrace, CloseBracket, OpenBrace, OpenBracket};
use crate::ast::expr::Expr;
use crate::ast::expr_block::ExprBlock;
use crate::ast::ident::Ident;
use crate::ast::keyword::{Async, Const, Move};
use crate::ast::label::Label;
use crate::ast::lit_number::LitNumber;
use crate::ast::punctuation::{Colon, Pound, SemiColon};
use crate::ast::stmt::Stmt;
use crate::error::Error;
use crate::laws::round_trip::models;
use crate::macros::{spec_tokens_all, ToTokens};
use crate::parse::{
    lemma_advances_then, lemma_parse_many_advances, spec_parse_many, Node, Parse, Peek,
};
use crate::parser::Cursor;

verus! {

/// A node whose tokens are the inverse of parsing: the node that was parsed
/// at a cursor writes out just the tokens that the parser took, in their
/// order.
pub trait Faithful: Parse + ToTokens {
    proof fn lemma_writes_what_was_taken(c: Cursor, node: Self)
        requires
            Self::spec_parse(c).0 == Ok::<<Self as DeepView>::V, Error>(node.deep_view()),
        ensures
            node.spec_tokens() == c.rest.take(c.consumed(Self::spec_parse(c).1)),
    ;
}

/// A node of one token writes out the token that was taken for it.
impl Faithful for Async {
    proof fn lemma_writes_what_was_taken(c: Cursor, node: Self) {
        assert(node.spec_tokens() =~= c.rest.take(1));
    }
}

impl Faithful for Const {
    proof fn lemma_writes_what_was_taken(c: Cursor, node: Self) {
        assert(node.spec_tokens() =~= c.rest.take(1));
    }
}

impl Faithful for Move {
    proof fn lemma_writes_what_was_taken(c: Cursor, node: Self) {
        assert(node.spec_tokens() =~= c.rest.take(1));
    }
}

impl Faithful for Colon {
    proof fn lemma_writes_what_was_taken(c: Cursor, node: Self) {
        assert(node.spec_tokens() =~= c.rest.take(1));
    }
}

impl Faithful for SemiColon {
    proof fn lemma_writes_what_was_taken(c: Cursor, node: Self) {
        assert(node.spec_tokens() =~= c.rest.take(1));
    }
}

impl Faithful for Pound {
    proof fn lemma_writes_what_was_taken(c: Cursor, node: Self) {
        assert(node.spec_tokens() =~= c.rest.take(1));
    }
}

impl Faithful for OpenBrace {
    proof fn lemma_writes_what_was_taken(c: Cursor, node: Self) {
        assert(node.spec_tokens() =~= c.rest.take(1));
    }
}

impl Faithful for CloseBrace {
    proof fn lemma_writes_what_was_taken(c: Cursor, node: Self) {
        assert(node.spec_tokens() =~= c.rest.take(1));
    }
}

impl Faithful for OpenBracket {
    proof fn lemma_writes_what_was_taken(c: Cursor, node: Self) {
        assert(node.spec_tokens() =~= c.rest.take(1));
    }
}

impl Faithful for CloseBracket {
    proof fn lemma_writes_what_was_taken(c: Cursor, node: Self) {
        assert(node.spec_tokens() =~= c.rest.take(1));
    }
}

impl Faithful for Label {
    proof fn lemma_writes_what_was_taken(c: Cursor, node: Self) {
        assert(node.spec_tokens() =~= c.rest.take(1));
    }
}

impl Faithful for Ident {
    proof fn lemma_writes_what_was_taken(c: Cursor, node: Self) {
        assert(node.spec_tokens() =~= c.rest.take(1));
    }
}

impl Faithful for LitNumber {
    proof fn lemma_writes_what_was_taken(c: Cursor, node: Self) {
        assert(node.spec_tokens() =~= c.rest.take(1));
    }
}

impl Faithful for Expr {
    proof fn lemma_writes_what_was_taken(c: Cursor, node: Self) {
        assert(node.spec_tokens() =~= c.rest.take(1));
    }
}


/// An optional node writes out what was taken for it.
impl<T: Faithful + Peek> Faithful for Option<T> {
    proof fn lemma_writes_what_was_taken(c: Cursor, node: Self) {
        match node {
            Some(inner) => {
                T::lemma_writes_what_was_taken(c, inner);
            },
            None => {
                assert(node.spec_tokens() =~= c.rest.take(0));
            },
        }
    }
}

/// Two nodes in a row write out what was taken for the first, then what was
/// taken for the second.
impl<A: Faithful, B: Faithful> Faithful for (A, B) {
    proof fn lemma_writes_what_was_taken(c: Cursor, node: Self) {
        let first = A::spec_parse(c);
        let second = B::spec_parse(first.1);
        A::lemma_parse_advances(c);
        B::lemma_parse_advances(first.1);
        lemma_advances_then(c, first, second);
        A::lemma_writes_what_was_taken(c, node.0);
        B::lemma_writes_what_was_taken(first.1, node.1);
        assert(node.spec_tokens() =~= c.rest.take(c.consumed(second.1)));
    }
}

/// The nodes that a list has parsed so far stay at its front.
proof fn lemma_many_keeps_done<T: Node>(c: Cursor, done: Seq<T::V>)
    ensures
        spec_parse_many::<T>(c, done).0 matches Ok(all) ==> done.len() <= all.len() && all.take(
            done.len() as int,
        ) == done,
    decreases c.rest.len(),
{
    if T::spec_peek(c) {
        match T::spec_parse(c) {
            (Ok(node), after) => {
                T::lemma_takes_a_token(c);
                lemma_many_keeps_done::<T>(after, done.push(node));
                match spec_parse_many::<T>(c, done).0 {
                    Ok(all) => {
                        assert(all.take(done.len() as int) =~= all.take(done.len() as int + 1).take(
                            done.len() as int,
                        ));
                        assert(done.push(node).take(done.len() as int) =~= done);
                    },
                    Err(_) => {},
                }
            },
            (Err(error), after) => {},
        }
    } else {
        assert(done.take(done.len() as int) =~= done);
    }
}

/// A list of nodes writes out what was taken for it.
proof fn lemma_many_writes_what_was_taken<T: Node + Faithful>(
    c: Cursor,
    done: Seq<T::V>,
    nodes: Seq<T>,
)
    requires
        spec_parse_many::<T>(c, done).0 == Ok::<Seq<T::V>, Error>(done + models(nodes)),
    ensures
        spec_tokens_all(nodes) == c.rest.take(c.consumed(spec_parse_many::<T>(c, done).1)),
    decreases c.rest.len(),
{
    let all = done + models(nodes);
    if T::spec_peek(c) {
        let first = T::spec_parse(c);
        let node = first.0->Ok_0;
        let others = spec_parse_many::<T>(first.1, done.push(node));
        T::lemma_takes_a_token(c);
        T::lemma_parse_advances(c);
        lemma_parse_many_advances::<T>(first.1, done.push(node));
        lemma_advances_then(c, first, others);
        lemma_many_keeps_done::<T>(first.1, done.push(node));
        assert(all.take(done.len() as int + 1)[done.len() as int] == node);
        assert(nodes.len() > 0);
        assert(models(nodes)[0] == node);
        assert(all =~= done.push(node) + models(nodes.skip(1)));
        T::lemma_writes_what_was_taken(c, nodes[0]);
        lemma_many_writes_what_was_taken::<T>(first.1, done.push(node), nodes.skip(1));
        assert(spec_tokens_all(nodes) =~= c.rest.take(c.consumed(others.1)));
    } else {
        assert(models(nodes).len() == 0) by {
            assert(all.len() == done.len());
        }
        assert(spec_tokens_all(nodes) =~= c.rest.take(0));
    }
}

/// A list held in a vector writes out what was taken for it.
impl<T: Node + Faithful> Faithful for Vec<T> {
    proof fn lemma_writes_what_was_taken(c: Cursor, node: Self) {
        assert(Seq::<T::V>::empty() + models(node@) =~= node.deep_view());
        lemma_many_writes_what_was_taken::<T>(c, Seq::empty(), node@);
    }
}

impl Faithful for Stmt {
    proof fn lemma_writes_what_was_taken(c: Cursor, node: Self) {
        <(Expr, Option<SemiColon>)>::lemma_writes_what_was_taken(c, (node.expr, node.semi));
    }
}

impl Faithful for Attribute {
    proof fn lemma_writes_what_was_taken(c: Cursor, node: Self) {
        <((Pound, OpenBracket), (Ident, CloseBracket))>::lemma_writes_what_was_taken(
            c,
            ((node.hash, node.open), (node.path, node.close)),
        );
        let row = ((node.hash, node.open), (node.path, node.close));
        assert(node.spec_tokens() =~= row.spec_tokens());
    }
}

impl Faithful for Block {
    proof fn lemma_writes_what_was_taken(c: Cursor, node: Self) {
        <((OpenBrace, Vec<Stmt>), CloseBrace)>::lemma_writes_what_was_taken(
            c,
            ((node.open, node.statements), node.close),
        );
    }
}

impl Faithful for ExprBlock {
    /// A block expression that was parsed writes out just the tokens that
    /// the parser took for it.
    proof fn lemma_writes_what_was_taken(c: Cursor, node: Self) {
        let head = (
            (((node.attributes, node.async_token), node.const_token), node.move_token),
            node.label,
        );
        let parsed = <(
            (((Vec<Attribute>, Option<Async>), Option<Const>), Option<Move>),
            Option<(Label, Colon)>,
        )>::spec_parse(c);
        <(
            (((Vec<Attribute>, Option<Async>), Option<Const>), Option<Move>),
            Option<(Label, Colon)>,
        )>::lemma_parse_advances(c);
        ExprBlock::lemma_parse_block_advances(parsed.1);
        lemma_advances_then(c, parsed, ExprBlock::spec_parse_block(parsed.1));
        <(
            (((Vec<Attribute>, Option<Async>), Option<Const>), Option<Move>),
            Option<(Label, Colon)>,
        )>::lemma_writes_what_was_taken(c, head);
        Block::lemma_writes_what_was_taken(parsed.1, node.block);
        assert(node.spec_tokens() =~= head.spec_tokens() + node.block.spec_tokens());
        assert(node.spec_tokens() =~= c.rest.take(
            c.consumed(ExprBlock::spec_parse_block(parsed.1).1),
        ));
    }
}

} // verus!

//! Writing a node out as tokens and parsing those tokens gives the node
//! back.

use vstd::prelude::*;
use crate::ast::attribute::Attribute;
use crate::ast::block::Block;
use crate::ast::expr_block::ExprBlock;
use crate::ast::keyword::{Async, Const, Move};
use crate::ast::label::Label;
use crate::ast::punctuation::{Colon, SemiColon};
use crate::ast::stmt::Stmt;
use crate::error::Error;
use crate::macros::{spec_tokens_all, ToTokens};
use crate::parse::{spec_parse_many, Node, Parse, Peek};
use crate::parser::Cursor;
use crate::span::Span;
use crate::token::{Delimiter, Kind, Token};

verus! {

/// Whether the tokens of `node`, with the tokens `tail` behind them, parse
/// back to `node` and leave `tail`.
pub open spec fn round_trips<T: Parse + ToTokens>(node: T, tail: Seq<Token>, end: Span) -> bool {
    T::spec_parse(Cursor { rest: node.spec_tokens() + tail, end }) == (
        Ok::<<T as DeepView>::V, Error>(node.deep_view()),
        Cursor { rest: tail, end },
    )
}

/// The models of the nodes `nodes`.
pub open spec fn models<T: DeepView>(nodes: Seq<T>) -> Seq<T::V> {
    Seq::new(nodes.len(), |i: int| nodes[i].deep_view())
}

/// Whether the node `nodes[i]` of a list, with the rest of the list and then
/// `tail` behind it, could start where it stands and parses back to itself.
pub open spec fn element_round_trips<T: Node + ToTokens>(
    nodes: Seq<T>,
    i: int,
    tail: Seq<Token>,
    end: Span,
) -> bool {
    let rest = spec_tokens_all(nodes.skip(i + 1)) + tail;
    round_trips(nodes[i], rest, end) && T::spec_peek(
        Cursor { rest: nodes[i].spec_tokens() + rest, end },
    )
}

/// Two nodes in a row round-trip where each of them does.
pub proof fn lemma_pair_round_trips<A: Parse + ToTokens, B: Parse + ToTokens>(
    pair: (A, B),
    tail: Seq<Token>,
    end: Span,
)
    requires
        round_trips(pair.0, pair.1.spec_tokens() + tail, end),
        round_trips(pair.1, tail, end),
    ensures
        round_trips(pair, tail, end),
{
    assert(pair.spec_tokens() + tail =~= pair.0.spec_tokens() + (pair.1.spec_tokens() + tail));
}

/// An optional node round-trips where the node, if present, does and could
/// start at its first token, and where, if absent, it could not start at
/// what follows.
pub proof fn lemma_option_round_trips<T: Parse + Peek + ToTokens>(
    node: Option<T>,
    tail: Seq<Token>,
    end: Span,
)
    requires
        match node {
            Some(inner) => round_trips(inner, tail, end) && T::spec_peek(
                Cursor { rest: inner.spec_tokens() + tail, end },
            ),
            None => !T::spec_peek(Cursor { rest: tail, end }),
        },
    ensures
        round_trips(node, tail, end),
{
    if node is None {
        assert(node.spec_tokens() + tail =~= tail);
    }
}

/// A list of nodes round-trips, behind the nodes `done` parsed before it,
/// where each of its nodes does and no further node could start at what
/// follows the list.
pub proof fn lemma_many_round_trips<T: Node + ToTokens>(
    nodes: Seq<T>,
    done: Seq<T::V>,
    tail: Seq<Token>,
    end: Span,
)
    requires
        forall|i: int| 0 <= i < nodes.len() ==> #[trigger] element_round_trips(nodes, i, tail, end),
        !T::spec_peek(Cursor { rest: tail, end }),
    ensures
        spec_parse_many::<T>(Cursor { rest: spec_tokens_all(nodes) + tail, end }, done) == (
            Ok::<Seq<T::V>, Error>(done + models(nodes)),
            Cursor { rest: tail, end },
        ),
    decreases nodes.len(),
{
    if nodes.len() == 0 {
        assert(spec_tokens_all(nodes) + tail =~= tail);
        assert(done + models(nodes) =~= done);
    } else {
        let first = nodes[0];
        let others = nodes.skip(1);
        let rest = spec_tokens_all(others) + tail;
        assert(element_round_trips(nodes, 0, tail, end));
        assert(spec_tokens_all(nodes) + tail =~= first.spec_tokens() + rest);
        assert forall|j: int| 0 <= j < others.len() implies #[trigger] element_round_trips(
            others,
            j,
            tail,
            end,
        ) by {
            assert(element_round_trips(nodes, j + 1, tail, end));
            assert(others.skip(j + 1) =~= nodes.skip(j + 2));
        }
        lemma_many_round_trips::<T>(others, done.push(first.deep_view()), tail, end);
        assert(done.push(first.deep_view()) + models(others) =~= done + models(nodes));
    }
}

/// A list held in a vector round-trips under the same conditions.
pub proof fn lemma_vec_round_trips<T: Node + ToTokens>(
    nodes: Vec<T>,
    tail: Seq<Token>,
    end: Span,
)
    requires
        forall|i: int|
            0 <= i < nodes@.len() ==> #[trigger] element_round_trips(nodes@, i, tail, end),
        !T::spec_peek(Cursor { rest: tail, end }),
    ensures
        round_trips(nodes, tail, end),
{
    lemma_many_round_trips::<T>(nodes@, Seq::empty(), tail, end);
    assert(Seq::<T::V>::empty() + models(nodes@) =~= nodes.deep_view());
}

/// An attribute round-trips, whatever follows it.
pub proof fn lemma_attribute_round_trips(attribute: Attribute, tail: Seq<Token>, end: Span)
    ensures
        round_trips(attribute, tail, end),
        Attribute::spec_peek(Cursor { rest: attribute.spec_tokens() + tail, end }),
{
    let r3 = attribute.close.spec_tokens() + tail;
    let r2 = attribute.path.spec_tokens() + r3;
    let r1 = attribute.open.spec_tokens() + r2;
    let r0 = attribute.hash.spec_tokens() + r1;
    assert(r3.skip(1) =~= tail);
    assert(r2.skip(1) =~= r3);
    assert(r1.skip(1) =~= r2);
    assert(r0.skip(1) =~= r1);
    assert(attribute.spec_tokens() + tail =~= r0);
}

/// A statement round-trips, unless it has no semicolon and one follows it.
pub proof fn lemma_stmt_round_trips(stmt: Stmt, tail: Seq<Token>, end: Span)
    requires
        stmt.semi is None ==> !SemiColon::spec_peek(Cursor { rest: tail, end }),
    ensures
        round_trips(stmt, tail, end),
        Stmt::spec_peek(Cursor { rest: stmt.spec_tokens() + tail, end }),
{
    let r1 = stmt.semi.spec_tokens() + tail;
    let r0 = stmt.expr.spec_tokens() + r1;
    assert(r0.skip(1) =~= r1);
    assert(stmt.spec_tokens() + tail =~= r0);
    match stmt.semi {
        Some(semi) => {
            assert(r1.skip(1) =~= tail);
        },
        None => {
            assert(r1 =~= tail);
        },
    }
}

/// What a list of statements and a closing brace start with: the
/// expression of the first statement, or the brace.
proof fn lemma_statements_start(statements: Seq<Stmt>, rest: Seq<Token>, end: Span)
    requires
        rest.len() > 0,
        rest[0].kind == Kind::Close(Delimiter::Brace),
    ensures
        !SemiColon::spec_peek(Cursor { rest: spec_tokens_all(statements) + rest, end }),
        statements.len() == 0 ==> !Stmt::spec_peek(
            Cursor { rest: spec_tokens_all(statements) + rest, end },
        ),
{
    if statements.len() == 0 {
        assert(spec_tokens_all(statements) + rest =~= rest);
    } else {
        let first = statements[0];
        assert(first.spec_tokens().len() > 0);
        assert((spec_tokens_all(statements) + rest)[0] == first.expr.spec_tokens()[0]);
    }
}

/// A block round-trips, whatever follows it.
pub proof fn lemma_block_round_trips(block: Block, tail: Seq<Token>, end: Span)
    ensures
        round_trips(block, tail, end),
        Block::spec_peek(Cursor { rest: block.spec_tokens() + tail, end }),
{
    let statements = block.statements@;
    let r2 = block.close.spec_tokens() + tail;
    let r1 = block.statements.spec_tokens() + r2;
    let r0 = block.open.spec_tokens() + r1;
    assert(r2.skip(1) =~= tail);
    assert(r0.skip(1) =~= r1);
    assert(block.spec_tokens() + tail =~= r0);
    assert forall|i: int| 0 <= i < statements.len() implies #[trigger] element_round_trips(
        statements,
        i,
        r2,
        end,
    ) by {
        let rest = spec_tokens_all(statements.skip(i + 1)) + r2;
        lemma_statements_start(statements.skip(i + 1), r2, end);
        lemma_stmt_round_trips(statements[i], rest, end);
    }
    lemma_statements_start(Seq::empty(), r2, end);
    assert(spec_tokens_all(Seq::<Stmt>::empty()) + r2 =~= r2);
    lemma_vec_round_trips::<Stmt>(block.statements, r2, end);
    assert(round_trips(block.close, tail, end));
    assert(round_trips(block.open, r1, end));
    lemma_pair_round_trips((block.open, block.statements), r2, end);
    lemma_pair_round_trips(((block.open, block.statements), block.close), tail, end);
    assert(((block.open, block.statements), block.close).spec_tokens() + tail =~= r0);
}

/// An optional `async` round-trips before anything but another `async`.
proof fn lemma_async_round_trips(token: Option<Async>, tail: Seq<Token>, end: Span)
    requires
        tail.len() > 0,
        tail[0].kind != Kind::Async,
    ensures
        round_trips(token, tail, end),
        (token.spec_tokens() + tail).len() > 0,
        (token.spec_tokens() + tail)[0].kind == Kind::Async || (token.spec_tokens() + tail)[0].kind
            == tail[0].kind,
{
    match token {
        Some(inner) => {
            assert((inner.spec_tokens() + tail).skip(1) =~= tail);
        },
        None => {
            assert(token.spec_tokens() + tail =~= tail);
        },
    }
    lemma_option_round_trips(token, tail, end);
}

/// An optional `const` round-trips before anything but another `const`.
proof fn lemma_const_round_trips(token: Option<Const>, tail: Seq<Token>, end: Span)
    requires
        tail.len() > 0,
        tail[0].kind != Kind::Const,
    ensures
        round_trips(token, tail, end),
        (token.spec_tokens() + tail).len() > 0,
        (token.spec_tokens() + tail)[0].kind == Kind::Const || (token.spec_tokens() + tail)[0].kind
            == tail[0].kind,
{
    match token {
        Some(inner) => {
            assert((inner.spec_tokens() + tail).skip(1) =~= tail);
        },
        None => {
            assert(token.spec_tokens() + tail =~= tail);
        },
    }
    lemma_option_round_trips(token, tail, end);
}

/// An optional `move` round-trips before anything but another `move`.
proof fn lemma_move_round_trips(token: Option<Move>, tail: Seq<Token>, end: Span)
    requires
        tail.len() > 0,
        tail[0].kind != Kind::Move,
    ensures
        round_trips(token, tail, end),
        (token.spec_tokens() + tail).len() > 0,
        (token.spec_tokens() + tail)[0].kind == Kind::Move || (token.spec_tokens() + tail)[0].kind
            == tail[0].kind,
{
    match token {
        Some(inner) => {
            assert((inner.spec_tokens() + tail).skip(1) =~= tail);
        },
        None => {
            assert(token.spec_tokens() + tail =~= tail);
        },
    }
    lemma_option_round_trips(token, tail, end);
}

/// An optional label with its colon round-trips before anything but a label.
proof fn lemma_label_colon_round_trips(
    label: Option<(Label, Colon)>,
    tail: Seq<Token>,
    end: Span,
)
    requires
        tail.len() > 0,
        !(tail[0].kind is Label),
    ensures
        round_trips(label, tail, end),
        (label.spec_tokens() + tail).len() > 0,
        (label.spec_tokens() + tail)[0].kind is Label || (label.spec_tokens() + tail)[0].kind
            == tail[0].kind,
{
    match label {
        Some((name, colon)) => {
            let after_name = colon.spec_tokens() + tail;
            assert(after_name.skip(1) =~= tail);
            assert((name.spec_tokens() + after_name).skip(1) =~= after_name);
            lemma_pair_round_trips((name, colon), tail, end);
            assert((name, colon).spec_tokens() + tail =~= name.spec_tokens() + after_name);
        },
        None => {
            assert(label.spec_tokens() + tail =~= tail);
        },
    }
    lemma_option_round_trips(label, tail, end);
}

/// The attributes of a block expression round-trip before anything but a
/// `#`.
proof fn lemma_attributes_round_trip(attributes: Vec<Attribute>, tail: Seq<Token>, end: Span)
    requires
        tail.len() > 0,
        tail[0].kind != Kind::Pound,
    ensures
        round_trips(attributes, tail, end),
{
    assert forall|i: int| 0 <= i < attributes@.len() implies #[trigger] element_round_trips(
        attributes@,
        i,
        tail,
        end,
    ) by {
        lemma_attribute_round_trips(
            attributes@[i],
            spec_tokens_all(attributes@.skip(i + 1)) + tail,
            end,
        );
    }
    lemma_vec_round_trips::<Attribute>(attributes, tail, end);
}

/// The pieces of a block expression that stand before its block round-trip
/// before a block.
proof fn lemma_expr_block_head_round_trips(node: ExprBlock, tail: Seq<Token>, end: Span)
    requires
        tail.len() > 0,
        tail[0].kind == Kind::Open(Delimiter::Brace),
    ensures
        round_trips(
            (
                (((node.attributes, node.async_token), node.const_token), node.move_token),
                node.label,
            ),
            tail,
            end,
        ),
{
    let r4 = node.label.spec_tokens() + tail;
    let r3 = node.move_token.spec_tokens() + r4;
    let r2 = node.const_token.spec_tokens() + r3;
    let r1 = node.async_token.spec_tokens() + r2;
    lemma_label_colon_round_trips(node.label, tail, end);
    lemma_move_round_trips(node.move_token, r4, end);
    lemma_const_round_trips(node.const_token, r3, end);
    lemma_async_round_trips(node.async_token, r2, end);
    lemma_attributes_round_trip(node.attributes, r1, end);
    let up_to_async = (node.attributes, node.async_token);
    let up_to_const = (up_to_async, node.const_token);
    let up_to_move = (up_to_const, node.move_token);
    lemma_pair_round_trips(up_to_async, r2, end);
    lemma_pair_round_trips(up_to_const, r3, end);
    lemma_pair_round_trips(up_to_move, r4, end);
    lemma_pair_round_trips((up_to_move, node.label), tail, end);
}

/// A block expression that is written out as tokens and parsed again is the
/// same block expression, field by field, and the parser has taken just its
/// tokens: this holds of every block expression and whatever follows it.
pub proof fn lemma_expr_block_round_trips(node: ExprBlock, tail: Seq<Token>, end: Span)
    ensures
        round_trips(node, tail, end),
{
    let rest = node.block.spec_tokens() + tail;
    let head = (
        (((node.attributes, node.async_token), node.const_token), node.move_token),
        node.label,
    );
    lemma_block_round_trips(node.block, tail, end);
    lemma_expr_block_head_round_trips(node, rest, end);
    assert(node.spec_tokens() + tail =~= head.spec_tokens() + rest);
}

/// A label that is written out as one token and parsed again is the same
/// label, whatever follows it.
pub proof fn lemma_label_round_trips(label: Label, tail: Seq<Token>, end: Span)
    ensures
        round_trips(label, tail, end),
{
    assert((label.spec_tokens() + tail).skip(1) =~= tail);
}

} // verus!

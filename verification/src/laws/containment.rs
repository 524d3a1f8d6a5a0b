//! The span of a node covers the span of each of its pieces.

use vstd::prelude::*;
use crate::ast::attribute::Attribute;
use crate::ast::block::Block;
use crate::ast::expr_block::ExprBlock;
use crate::ast::stmt::Stmt;
use crate::span::{
    lemma_join_all_contains, spec_join_onto, spec_join_option, OptionSpanned, Span, Spanned,
};

verus! {

/// Joining a span onto the span of the pieces before covers both.
pub proof fn lemma_join_onto_contains(so_far: Option<Span>, next: Span)
    ensures
        spec_join_onto(so_far, next).contains(next),
        so_far matches Some(span) ==> spec_join_onto(so_far, next).contains(span),
{
}

/// Joining the span of a piece that may be absent onto the span of the
/// pieces before covers whichever of the two is there.
pub proof fn lemma_join_option_contains(so_far: Option<Span>, next: Option<Span>)
    ensures
        match spec_join_option(so_far, next) {
            Some(joined) => {
                &&& so_far matches Some(span) ==> joined.contains(span)
                &&& next matches Some(span) ==> joined.contains(span)
            },
            None => so_far is None && next is None,
        },
{
}

/// The span of a list of nodes covers the span of each of its nodes.
pub proof fn lemma_list_span_contains<T: Spanned>(nodes: Vec<T>, i: int)
    requires
        0 <= i < nodes@.len(),
    ensures
        nodes.spec_option_span() matches Some(span) && span.contains(nodes@[i].spec_span()),
{
    lemma_join_all_contains(nodes@.map_values(|node: T| node.spec_span()), i);
}

/// The span of a statement covers its expression and its semicolon.
pub proof fn lemma_stmt_span_contains(stmt: Stmt)
    ensures
        stmt.spec_span().contains(stmt.expr.spec_span()),
        stmt.semi matches Some(semi) ==> stmt.spec_span().contains(semi.span),
{
}

/// The span of an attribute covers each of its four tokens.
pub proof fn lemma_attribute_span_contains(attribute: Attribute)
    ensures
        attribute.spec_span().contains(attribute.hash.span),
        attribute.spec_span().contains(attribute.open.span),
        attribute.spec_span().contains(attribute.path.span),
        attribute.spec_span().contains(attribute.close.span),
{
}

/// The span of a block covers its two braces and each of its statements.
pub proof fn lemma_block_span_contains(block: Block)
    ensures
        block.spec_span().contains(block.open.span),
        block.spec_span().contains(block.close.span),
        forall|i: int|
            0 <= i < block.statements@.len() ==> block.spec_span().contains(
                #[trigger] block.statements@[i].spec_span(),
            ),
{
    assert forall|i: int| 0 <= i < block.statements@.len() implies block.spec_span().contains(
        #[trigger] block.statements@[i].spec_span(),
    ) by {
        lemma_list_span_contains(block.statements, i);
    }
}

/// The span of a block expression covers each piece of it that is present:
/// every attribute, the three keywords, the label and its colon, and the
/// block.
pub proof fn lemma_expr_block_span_contains(node: ExprBlock)
    ensures
        forall|i: int|
            0 <= i < node.attributes@.len() ==> node.spec_span().contains(
                #[trigger] node.attributes@[i].spec_span(),
            ),
        node.async_token matches Some(token) ==> node.spec_span().contains(token.span),
        node.const_token matches Some(token) ==> node.spec_span().contains(token.span),
        node.move_token matches Some(token) ==> node.spec_span().contains(token.span),
        node.label matches Some((label, colon)) ==> node.spec_span().contains(label.span)
            && node.spec_span().contains(colon.span),
        node.spec_span().contains(node.block.spec_span()),
        node.spec_span().contains(node.block.open.span),
        node.spec_span().contains(node.block.close.span),
        forall|i: int|
            0 <= i < node.block.statements@.len() ==> node.spec_span().contains(
                #[trigger] node.block.statements@[i].spec_span(),
            ),
{
    lemma_block_span_contains(node.block);
    let s0 = node.attributes.spec_option_span();
    let s1 = spec_join_option(s0, node.async_token.spec_option_span());
    let s2 = spec_join_option(s1, node.const_token.spec_option_span());
    let s3 = spec_join_option(s2, node.move_token.spec_option_span());
    let s4 = spec_join_option(s3, node.label.spec_option_span());
    lemma_join_option_contains(s0, node.async_token.spec_option_span());
    lemma_join_option_contains(s1, node.const_token.spec_option_span());
    lemma_join_option_contains(s2, node.move_token.spec_option_span());
    lemma_join_option_contains(s3, node.label.spec_option_span());
    lemma_join_onto_contains(s4, node.block.spec_span());
    assert forall|i: int| 0 <= i < node.attributes@.len() implies node.spec_span().contains(
        #[trigger] node.attributes@[i].spec_span(),
    ) by {
        lemma_list_span_contains(node.attributes, i);
    }
}

} // verus!

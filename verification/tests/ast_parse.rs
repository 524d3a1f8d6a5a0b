use std::fmt::Debug;

use rune_ast::ast::{ExprBlock, Label};
use rune_ast::macros::{MacroContext, ToTokens};
use rune_ast::parse::{parse_all, Parse};
use rune_ast::parser::{Parser, TokenStream};
use rune_ast::sources::Storage;
use rune_ast::span::{SourceId, Span};

/// Parses `source` as one node, writes the node out as tokens, parses those
/// tokens again and checks that the same node comes back.
fn rt<T>(source: &str) -> T
where
    T: Parse + ToTokens + PartialEq + Eq + Debug,
{
    let source_id = SourceId(0);
    let ast = parse_all::<T>(source, source_id).expect("first parse");

    let mut cx = MacroContext::new(Span::empty(source_id), Storage::new());
    let mut stream = TokenStream::new();
    ast.to_tokens(&mut cx, &mut stream);

    let mut parser = Parser::from_token_stream(&stream, Span::empty(source_id));
    let again = parser.parse::<T>().expect("second parse");
    parser.eof().expect("second parse to the end");

    assert_eq!(ast, again);
    ast
}

#[test]
fn expr_block_ast_parse() {
    let expr = rt::<ExprBlock>("async {}");
    assert_eq!(expr.block.statements.len(), 0);

    let expr = rt::<ExprBlock>("async move {}");
    assert_eq!(expr.block.statements.len(), 0);

    let expr = rt::<ExprBlock>("const {}");
    assert_eq!(expr.block.statements.len(), 0);

    let expr = rt::<ExprBlock>("async { 42 }");
    assert_eq!(expr.block.statements.len(), 1);

    let expr = rt::<ExprBlock>("'foo: { 42 }");
    assert_eq!(expr.block.statements.len(), 1);
    assert!(expr.label.is_some());

    let expr = rt::<ExprBlock>("#[retry] async { 42 }");
    assert_eq!(expr.block.statements.len(), 1);
    assert_eq!(expr.attributes.len(), 1);
}

#[test]
fn label_ast_parse() {
    rt::<Label>("'foo");
    rt::<Label>("'barify42");
}

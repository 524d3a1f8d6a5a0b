use rune_ast::ast::{ExprBlock, Label};
use rune_ast::error::{Error, ErrorKind, Expectation};
use rune_ast::parse::{parse_all, Resolve, ToAst};
use rune_ast::sources::{ResolveContext, Sources, Storage};
use rune_ast::span::{SourceId, Span};
use rune_ast::token::{Delimiter, Kind, LitSource, Token};

fn block(source: &str) -> ExprBlock {
    parse_all::<ExprBlock>(source, SourceId(0)).expect("a block expression")
}

#[test]
fn label_resolves_to_the_name_behind_the_quote() {
    let mut sources = Sources::new();
    let id = sources.insert("'foo");
    let storage = Storage::new();
    let label = parse_all::<Label>("'foo", id).unwrap();
    assert_eq!(label.span, Span::new(id, 0, 4));
    assert_eq!(label.source, LitSource::Text(id));
    let cx = ResolveContext { sources: &sources, storage: &storage };
    assert_eq!(label.resolve(cx), Ok("foo"));
}

#[test]
fn async_block_without_statements() {
    let expr = block("async {}");
    assert_eq!(expr.async_token.map(|t| t.span), Some(Span::new(SourceId(0), 0, 5)));
    assert!(expr.move_token.is_none());
    assert!(expr.const_token.is_none());
    assert!(expr.label.is_none());
    assert!(expr.attributes.is_empty());
    assert!(expr.block.statements.is_empty());
    assert_eq!(expr.block.open.span, Span::new(SourceId(0), 6, 7));
    assert_eq!(expr.block.close.span, Span::new(SourceId(0), 7, 8));
}

#[test]
fn const_block_without_statements() {
    let expr = block("const {}");
    assert_eq!(expr.const_token.map(|t| t.span), Some(Span::new(SourceId(0), 0, 5)));
    assert!(expr.async_token.is_none());
    assert_eq!(expr.block.statements.len(), 0);
}

#[test]
fn async_block_with_one_statement() {
    let expr = block("async { 42 }");
    assert!(expr.async_token.is_some());
    assert_eq!(expr.block.statements.len(), 1);
    assert!(expr.block.statements[0].semi.is_none());
}

#[test]
fn labelled_block_with_one_statement() {
    let source = "'foo: { 42 }";
    let mut sources = Sources::new();
    let id = sources.insert(source);
    let storage = Storage::new();
    let expr = parse_all::<ExprBlock>(source, id).unwrap();
    assert_eq!(expr.block.statements.len(), 1);

    let (label, colon) = expr.label.expect("a label");
    let foo = Label::to_ast(Span::new(id, 0, 4), Kind::Label(LitSource::Text(id))).unwrap();
    assert_eq!(label, foo);
    assert_eq!(colon.span, Span::new(id, 4, 5));
    let cx = ResolveContext { sources: &sources, storage: &storage };
    assert_eq!(label.resolve(cx), Ok("foo"));
}

#[test]
fn attributed_async_block_with_one_statement() {
    let expr = block("#[retry] async { 42 }");
    assert_eq!(expr.attributes.len(), 1);
    assert_eq!(expr.attributes[0].path.span, Span::new(SourceId(0), 2, 7));
    assert!(expr.async_token.is_some());
    assert_eq!(expr.block.statements.len(), 1);
}

#[test]
fn unknown_leading_keyword_is_reported_in_place_of_the_block() {
    let found = Token::new(Span::new(SourceId(0), 0, 5), Kind::Await);
    let expected = Error::new(
        found.span,
        ErrorKind::ExpectedButFound {
            expected: Expectation::Description("block expression"),
            found,
        },
    );
    assert_eq!(parse_all::<ExprBlock>("await {}", SourceId(0)), Err(expected));
}

#[test]
fn move_is_taken_without_async() {
    let expr = block("move {}");
    assert!(expr.move_token.is_some());
    assert!(expr.async_token.is_none());
}

#[test]
fn async_and_const_are_each_tested_for() {
    let expr = block("async const {}");
    assert!(expr.async_token.is_some());
    assert!(expr.const_token.is_some());

    let found = Token::new(Span::new(SourceId(0), 6, 11), Kind::Async);
    assert_eq!(
        parse_all::<ExprBlock>("const async {}", SourceId(0)),
        Err(Error::expected(found, Expectation::Description("block expression")))
    );
}

#[test]
fn label_needs_its_colon() {
    let found = Token::new(Span::new(SourceId(0), 5, 6), Kind::Open(Delimiter::Brace));
    assert_eq!(
        parse_all::<ExprBlock>("'foo { }", SourceId(0)),
        Err(Error::expected(found, Expectation::Punctuation(":")))
    );
}

#[test]
fn statements_with_and_without_semicolons() {
    let expr = block("{ 1; x 2; }");
    let semis: Vec<bool> = expr.block.statements.iter().map(|s| s.semi.is_some()).collect();
    assert_eq!(semis, vec![true, false, true]);
}

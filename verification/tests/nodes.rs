use rune_ast::ast::{
    Async, Attribute, Block, CloseBrace, CloseBracket, Colon, Const, Expr, Ident, LitNumber, Move,
    OpenBrace, OpenBracket, Pound, SemiColon, Stmt,
};
use rune_ast::error::{Error, Expectation};
use rune_ast::parse::{parse_all, ToAst};
use rune_ast::parser::Parser;
use rune_ast::span::{SourceId, Span, Spanned};
use rune_ast::token::{Delimiter, Kind, LitSource, Token};

#[test]
fn what_each_token_node_expects() {
    assert_eq!(Async::into_expectation(), Expectation::Keyword("async"));
    assert_eq!(Const::into_expectation(), Expectation::Keyword("const"));
    assert_eq!(Move::into_expectation(), Expectation::Keyword("move"));
    assert_eq!(Colon::into_expectation(), Expectation::Punctuation(":"));
    assert_eq!(SemiColon::into_expectation(), Expectation::Punctuation(";"));
    assert_eq!(Pound::into_expectation(), Expectation::Punctuation("#"));
    assert_eq!(OpenBrace::into_expectation(), Expectation::Delimiter("{"));
    assert_eq!(CloseBrace::into_expectation(), Expectation::Delimiter("}"));
    assert_eq!(OpenBracket::into_expectation(), Expectation::Delimiter("["));
    assert_eq!(CloseBracket::into_expectation(), Expectation::Delimiter("]"));
    assert_eq!(Ident::into_expectation(), Expectation::Description("an identifier"));
    assert_eq!(LitNumber::into_expectation(), Expectation::Description("a number"));
    assert_eq!(Expr::into_expectation(), Expectation::Description("an expression"));
    assert_eq!(Expectation::Keyword("async").as_str(), "async");
    assert_eq!(Expectation::Delimiter("{").as_str(), "{");
    assert_eq!(Expectation::Punctuation("#").as_str(), "#");
}

#[test]
fn which_token_makes_which_node() {
    let text = LitSource::Text(SourceId(0));
    let kinds = [
        Kind::Eof,
        Kind::Error,
        Kind::Ident(text),
        Kind::Label(text),
        Kind::Number(text),
        Kind::Open(Delimiter::Parenthesis),
        Kind::Open(Delimiter::Brace),
        Kind::Open(Delimiter::Bracket),
        Kind::Close(Delimiter::Parenthesis),
        Kind::Close(Delimiter::Brace),
        Kind::Close(Delimiter::Bracket),
        Kind::Pound,
        Kind::Bang,
        Kind::Colon,
        Kind::SemiColon,
        Kind::Comma,
        Kind::Async,
        Kind::Await,
        Kind::Const,
        Kind::Move,
    ];
    let span = Span::new(SourceId(0), 1, 2);
    for kind in kinds {
        assert_eq!(Async::matches(&kind), kind == Kind::Async);
        assert_eq!(Const::matches(&kind), kind == Kind::Const);
        assert_eq!(Move::matches(&kind), kind == Kind::Move);
        assert_eq!(Colon::matches(&kind), kind == Kind::Colon);
        assert_eq!(SemiColon::matches(&kind), kind == Kind::SemiColon);
        assert_eq!(Pound::matches(&kind), kind == Kind::Pound);
        assert_eq!(OpenBrace::matches(&kind), kind == Kind::Open(Delimiter::Brace));
        assert_eq!(CloseBrace::matches(&kind), kind == Kind::Close(Delimiter::Brace));
        assert_eq!(OpenBracket::matches(&kind), kind == Kind::Open(Delimiter::Bracket));
        assert_eq!(CloseBracket::matches(&kind), kind == Kind::Close(Delimiter::Bracket));
        assert_eq!(Ident::matches(&kind), kind == Kind::Ident(text));
        assert_eq!(LitNumber::matches(&kind), kind == Kind::Number(text));
        assert_eq!(Expr::matches(&kind), kind == Kind::Number(text) || kind == Kind::Ident(text));

        assert_eq!(Async::to_ast(span, kind).is_ok(), Async::matches(&kind));
        assert_eq!(Pound::to_ast(span, kind).is_ok(), Pound::matches(&kind));
        assert_eq!(OpenBrace::to_ast(span, kind).is_ok(), OpenBrace::matches(&kind));
        assert_eq!(Expr::to_ast(span, kind).is_ok(), Expr::matches(&kind));
    }
    assert_eq!(Async::to_ast(span, Kind::Async), Ok(Async { span }));
    assert_eq!(
        Async::to_ast(span, Kind::Await),
        Err(Error::expected(Token::new(span, Kind::Await), Expectation::Keyword("async")))
    );
    assert_eq!(
        Expr::to_ast(span, Kind::Number(text)),
        Ok(Expr::Number(LitNumber { span, source: text }))
    );
    assert_eq!(
        Expr::to_ast(span, Kind::Ident(text)),
        Ok(Expr::Ident(Ident { span, source: text }))
    );
}

#[test]
fn an_attribute_is_four_tokens() {
    let id = SourceId(0);
    let attribute = parse_all::<Attribute>("#[retry]", id).unwrap();
    assert_eq!(attribute.hash.span, Span::new(id, 0, 1));
    assert_eq!(attribute.open.span, Span::new(id, 1, 2));
    assert_eq!(attribute.path.span, Span::new(id, 2, 7));
    assert_eq!(attribute.close.span, Span::new(id, 7, 8));
    assert_eq!(attribute.span(), Span::new(id, 0, 8));

    let number = Token::new(Span::new(id, 2, 4), Kind::Number(LitSource::Text(id)));
    assert_eq!(
        parse_all::<Attribute>("#[42]", id),
        Err(Error::expected(number, Expectation::Description("an identifier")))
    );
    let brace = Token::new(Span::new(id, 1, 2), Kind::Open(Delimiter::Brace));
    assert_eq!(
        parse_all::<Attribute>("#{x}", id),
        Err(Error::expected(brace, Expectation::Delimiter("[")))
    );
    let comma = Token::new(Span::new(id, 3, 4), Kind::Comma);
    assert_eq!(
        parse_all::<Attribute>("#[x,]", id),
        Err(Error::expected(comma, Expectation::Delimiter("]")))
    );
}

#[test]
fn a_block_holds_statements() {
    let id = SourceId(0);
    let block = parse_all::<Block>("{ a; 7 }", id).unwrap();
    assert_eq!(block.statements.len(), 2);
    let first = Stmt {
        expr: Expr::Ident(Ident { span: Span::new(id, 2, 3), source: LitSource::Text(id) }),
        semi: Some(SemiColon { span: Span::new(id, 3, 4) }),
    };
    let second = Stmt {
        expr: Expr::Number(LitNumber { span: Span::new(id, 5, 6), source: LitSource::Text(id) }),
        semi: None,
    };
    assert_eq!(block.statements, vec![first, second]);
    assert_eq!(first.span(), Span::new(id, 2, 4));
    assert_eq!(second.span(), Span::new(id, 5, 6));

    // What is no statement has to be the closing brace.
    let keyword = Token::new(Span::new(id, 2, 7), Kind::Async);
    assert_eq!(
        parse_all::<Block>("{ async }", id),
        Err(Error::expected(keyword, Expectation::Delimiter("}")))
    );
    let semi = Token::new(Span::new(id, 5, 6), Kind::SemiColon);
    assert_eq!(
        parse_all::<Block>("{ 1; ; }", id),
        Err(Error::expected(semi, Expectation::Delimiter("}")))
    );
    let bracket = Token::new(Span::new(id, 0, 1), Kind::Open(Delimiter::Bracket));
    assert_eq!(
        parse_all::<Block>("[ ]", id),
        Err(Error::expected(bracket, Expectation::Delimiter("{")))
    );
}

#[test]
fn optional_and_repeated_pieces() {
    let id = SourceId(0);
    let mut parser = Parser::new("async async 1 2 3 :", id);
    assert_eq!(parser.parse::<Option<Const>>(), Ok(None));
    assert_eq!(parser.parse::<Option<Async>>(), Ok(Some(Async { span: Span::new(id, 0, 5) })));
    assert_eq!(
        parser.parse::<(Async, LitNumber)>().map(|pair| (pair.0.span, pair.1.span)),
        Ok((Span::new(id, 6, 11), Span::new(id, 12, 13)))
    );
    let statements = parser.parse::<Vec<Stmt>>().unwrap();
    assert_eq!(statements.len(), 2);
    assert_eq!(parser.parse::<Vec<Stmt>>(), Ok(vec![]));
    assert_eq!(parser.parse::<Colon>(), Ok(Colon { span: Span::new(id, 18, 19) }));
    assert!(parser.is_eof());
}

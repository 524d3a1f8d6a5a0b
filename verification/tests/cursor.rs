use rune_ast::ast::{Async, ExprBlock, Label, Move};
use rune_ast::error::{Error, ErrorKind, Expectation};
use rune_ast::parse::parse_all;
use rune_ast::parser::{Parser, TokenStream};
use rune_ast::span::{SourceId, Span};
use rune_ast::token::{Delimiter, Kind, LitSource, Token};

#[test]
fn looking_ahead_takes_nothing() {
    let id = SourceId(0);
    let mut parser = Parser::new("async move { 42 }", id);
    for n in [4usize, 0, 9, 2, 1, 0, 100, 3] {
        parser.nth(n);
    }
    assert_eq!(parser.next(), Ok(Token::new(Span::new(id, 0, 5), Kind::Async)));
    for n in [0usize, 7, 0] {
        parser.nth(n);
    }
    assert!(parser.peek::<Move>());
    assert!(!parser.peek::<Async>());
    assert!(!parser.is_eof());
    assert_eq!(parser.next(), Ok(Token::new(Span::new(id, 6, 10), Kind::Move)));
}

#[test]
fn kinds_ahead_of_the_cursor() {
    let id = SourceId(0);
    let mut parser = Parser::new("async move { 42 }", id);
    assert_eq!(parser.nth(0), Kind::Async);
    assert_eq!(parser.nth(1), Kind::Move);
    assert_eq!(parser.nth(2), Kind::Open(Delimiter::Brace));
    assert_eq!(parser.nth(3), Kind::Number(LitSource::Text(id)));
    assert_eq!(parser.nth(4), Kind::Close(Delimiter::Brace));
    assert_eq!(parser.nth(5), Kind::Eof);
    assert_eq!(parser.nth(usize::MAX), Kind::Eof);
    assert_eq!(parser.nth(0), Kind::Async);
}

#[test]
fn the_end_of_the_stream() {
    let id = SourceId(5);
    let mut parser = Parser::new(" 'a ", id);
    assert!(!parser.is_eof());
    assert!(parser.next().is_ok());
    assert!(parser.is_eof());
    assert_eq!(parser.eof(), Ok(()));
    let end = Error::new(Span::new(id, 4, 4), ErrorKind::UnexpectedEndOfStream);
    assert_eq!(parser.next(), Err(end));
    assert_eq!(parser.next(), Err(end));
    assert_eq!(parser.nth(0), Kind::Eof);
}

#[test]
fn a_block_that_is_not_closed() {
    let id = SourceId(0);
    let end = Error::new(Span::new(id, 7, 7), ErrorKind::UnexpectedEndOfStream);
    assert_eq!(parse_all::<ExprBlock>("async {", id), Err(end));
    assert_eq!(
        parse_all::<Label>("", id),
        Err(Error::new(Span::new(id, 0, 0), ErrorKind::UnexpectedEndOfStream))
    );
}

#[test]
fn tokens_behind_the_node() {
    let id = SourceId(0);
    let found = Token::new(Span::new(id, 3, 5), Kind::Label(LitSource::Text(id)));
    assert_eq!(
        parse_all::<Label>("'a 'b", id),
        Err(Error::expected(found, Expectation::Description("end of input")))
    );
    let mut parser = Parser::new("'a 'b", id);
    assert!(parser.parse::<Label>().is_ok());
    assert_eq!(
        parser.eof(),
        Err(Error::expected(found, Expectation::Description("end of input")))
    );
    // Demanding the end took nothing.
    assert_eq!(parser.next(), Ok(found));
}

#[test]
fn a_parser_over_a_token_stream() {
    let id = SourceId(0);
    let mut stream = TokenStream::new();
    assert_eq!(stream.len(), 0);
    assert_eq!(stream.get(0), None);
    let first = Token::new(Span::new(id, 0, 5), Kind::Async);
    let second = Token::new(Span::new(id, 6, 7), Kind::Colon);
    stream.push(first);
    stream.push(second);
    assert_eq!(stream.len(), 2);
    assert_eq!(stream.get(1), Some(second));
    assert_eq!(stream.get(2), None);

    let end = Span::new(id, 40, 41);
    let mut parser = Parser::from_token_stream(&stream, end);
    assert_eq!(parser.nth(1), Kind::Colon);
    assert_eq!(parser.next(), Ok(first));
    assert_eq!(parser.next(), Ok(second));
    assert_eq!(parser.next(), Err(Error::new(end, ErrorKind::UnexpectedEndOfStream)));
}

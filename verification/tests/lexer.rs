use rune_ast::lexer::{Class, Lexer};
use rune_ast::span::{SourceId, Span};
use rune_ast::token::{Delimiter, Kind, LitSource, Token};

fn lex(text: &str, id: SourceId) -> Vec<Token> {
    let mut lexer = Lexer::new(text, id);
    let mut tokens = Vec::new();
    while let Some(token) = lexer.next() {
        tokens.push(token);
    }
    assert_eq!(lexer.next(), None);
    tokens
}

#[test]
fn tokens_of_a_block_expression() {
    let id = SourceId(3);
    let text = LitSource::Text(id);
    let tokens = lex("#[retry] async { 42 }", id);
    let expected = vec![
        Token::new(Span::new(id, 0, 1), Kind::Pound),
        Token::new(Span::new(id, 1, 2), Kind::Open(Delimiter::Bracket)),
        Token::new(Span::new(id, 2, 7), Kind::Ident(text)),
        Token::new(Span::new(id, 7, 8), Kind::Close(Delimiter::Bracket)),
        Token::new(Span::new(id, 9, 14), Kind::Async),
        Token::new(Span::new(id, 15, 16), Kind::Open(Delimiter::Brace)),
        Token::new(Span::new(id, 17, 19), Kind::Number(text)),
        Token::new(Span::new(id, 20, 21), Kind::Close(Delimiter::Brace)),
    ];
    assert_eq!(tokens, expected);
}

#[test]
fn every_kind_of_token() {
    let id = SourceId(0);
    let text = LitSource::Text(id);
    let kinds: Vec<Kind> = lex("async await const move mover _x1 42 'lbl # ! : ; , ( ) [ ] { }", id)
        .iter()
        .map(|t| t.kind)
        .collect();
    let expected = vec![
        Kind::Async,
        Kind::Await,
        Kind::Const,
        Kind::Move,
        Kind::Ident(text),
        Kind::Ident(text),
        Kind::Number(text),
        Kind::Label(text),
        Kind::Pound,
        Kind::Bang,
        Kind::Colon,
        Kind::SemiColon,
        Kind::Comma,
        Kind::Open(Delimiter::Parenthesis),
        Kind::Close(Delimiter::Parenthesis),
        Kind::Open(Delimiter::Bracket),
        Kind::Close(Delimiter::Bracket),
        Kind::Open(Delimiter::Brace),
        Kind::Close(Delimiter::Brace),
    ];
    assert_eq!(kinds, expected);
}

#[test]
fn bytes_that_start_no_token() {
    let id = SourceId(0);
    assert_eq!(lex("@", id), vec![Token::new(Span::new(id, 0, 1), Kind::Error)]);
    // A quote with no name behind it.
    assert_eq!(
        lex("' a", id),
        vec![
            Token::new(Span::new(id, 0, 1), Kind::Error),
            Token::new(Span::new(id, 2, 3), Kind::Ident(LitSource::Text(id))),
        ]
    );
    // Each byte of a character outside ASCII.
    assert_eq!(
        lex("\u{e9}", id),
        vec![
            Token::new(Span::new(id, 0, 1), Kind::Error),
            Token::new(Span::new(id, 1, 2), Kind::Error),
        ]
    );
}

#[test]
fn whitespace_belongs_to_no_token() {
    let id = SourceId(0);
    assert_eq!(lex("", id), vec![]);
    assert_eq!(lex(" \t\r\n ", id), vec![]);
    assert_eq!(
        lex("\n\t'a\r\n", id),
        vec![Token::new(Span::new(id, 2, 4), Kind::Label(LitSource::Text(id)))]
    );
}

#[test]
fn a_number_ends_where_its_digits_end() {
    let id = SourceId(0);
    assert_eq!(
        lex("42foo", id),
        vec![
            Token::new(Span::new(id, 0, 2), Kind::Number(LitSource::Text(id))),
            Token::new(Span::new(id, 2, 5), Kind::Ident(LitSource::Text(id))),
        ]
    );
}

#[test]
fn classes_of_bytes() {
    assert!(Class::Whitespace.test(b' '));
    assert!(!Class::Whitespace.test(b'a'));
    assert!(Class::Word.test(b'_'));
    assert!(Class::Word.test(b'Z'));
    assert!(Class::Word.test(b'7'));
    assert!(!Class::Word.test(b'\''));
    assert!(Class::Digit.test(b'0'));
    assert!(!Class::Digit.test(b'a'));
}

#[test]
fn the_end_of_the_text() {
    let lexer = Lexer::new("async {", SourceId(2));
    assert_eq!(lexer.end(), Span::new(SourceId(2), 7, 7));
}

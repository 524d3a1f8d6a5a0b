use rune_ast::ast::{Block, ExprBlock, Label};
use rune_ast::error::ErrorKind;
use rune_ast::macros::{MacroContext, ToTokens};
use rune_ast::parse::{parse_all, Parse, Peek};
use rune_ast::parser::{Parser, TokenStream};
use rune_ast::sources::Storage;
use rune_ast::span::{SourceId, Span, Spanned};
use rune_ast::token::Token;

fn tokens_of(source: &str) -> Vec<Token> {
    let mut parser = Parser::new(source, SourceId(0));
    let mut tokens = Vec::new();
    while let Ok(token) = parser.next() {
        tokens.push(token);
    }
    tokens
}

fn written_out<T: ToTokens>(node: &T) -> TokenStream {
    let mut cx = MacroContext::new(Span::empty(SourceId(0)), Storage::new());
    let mut stream = TokenStream::new();
    node.to_tokens(&mut cx, &mut stream);
    stream
}

#[test]
fn a_block_expression_is_written_out_token_for_token() {
    let source = "#[retry] #[other] async const move 'a: { 1; x 2 }";
    let node = parse_all::<ExprBlock>(source, SourceId(0)).unwrap();
    let stream = written_out(&node);
    let expected = tokens_of(source);
    assert_eq!(stream.len(), expected.len());
    for (i, token) in expected.iter().enumerate() {
        assert_eq!(stream.get(i), Some(*token));
    }

    let mut parser = Parser::from_token_stream(&stream, Span::empty(SourceId(0)));
    assert_eq!(parser.parse::<ExprBlock>(), Ok(node));
    assert!(parser.is_eof());
}

#[test]
fn parsing_back_leaves_what_follows() {
    let source = "'a: { 1 } 'b 'c";
    let mut parser = Parser::new(source, SourceId(0));
    let node = parser.parse::<ExprBlock>().unwrap();
    let mut stream = written_out(&node);
    let b = parser.next().unwrap();
    let c = parser.next().unwrap();
    stream.push(b);
    stream.push(c);

    let mut again = Parser::from_token_stream(&stream, Span::empty(SourceId(0)));
    assert_eq!(again.parse::<ExprBlock>(), Ok(node));
    assert_eq!(again.next(), Ok(b));
    assert_eq!(again.parse::<Label>().map(|l| l.span), Ok(c.span));
    assert!(again.is_eof());
}

#[test]
fn where_a_node_could_start_its_first_token_is_not_refused() {
    let sources = [
        "# x",
        "#[x",
        "#[x] y",
        "async 42",
        "async await {}",
        "const",
        "move ; {}",
        "'a {",
        "'a: 'b",
        "{ async }",
        "{ 1 2; ",
        "{ 1; ; }",
        "await {}",
        "42",
        "",
        "{}",
        "#[a] #[b] async const move 'l: { x; }",
    ];
    let mut could_start = 0;
    for source in sources {
        let first = tokens_of(source).first().copied();
        let mut parser = Parser::new(source, SourceId(0));
        let peeked = parser.peek::<ExprBlock>();
        let parsed = parser.parse::<ExprBlock>();
        if peeked {
            could_start += 1;
            if let Err(error) = parsed {
                if let ErrorKind::ExpectedButFound { found, .. } = error.kind {
                    assert_ne!(Some(found), first, "{source}");
                    assert!(found.span.start > first.unwrap().span.start, "{source}");
                }
            }
        } else {
            assert!(parsed.is_err(), "{source}");
        }
    }
    assert_eq!(could_start, 14);
}

#[test]
fn where_a_label_could_start_a_label_is_parsed() {
    for source in ["'a", "'a 'b", "'a:", "a", ":", ""] {
        let mut parser = Parser::new(source, SourceId(0));
        let peeked = parser.peek::<Label>();
        let parsed = parser.parse::<Label>();
        assert_eq!(peeked, parsed.is_ok(), "{source}");
    }
}

#[test]
fn the_span_of_a_block_expression_covers_its_pieces() {
    let source = "  #[retry] #[other] async move 'a: { 1; x }  ";
    let node = parse_all::<ExprBlock>(source, SourceId(0)).unwrap();
    let span = node.span();
    assert_eq!(span, Span::new(SourceId(0), 2, 43));
    let covers = |inner: Span| span.start <= inner.start && inner.end <= span.end;
    for attribute in &node.attributes {
        assert!(covers(attribute.span()));
        assert!(covers(attribute.hash.span));
        assert!(covers(attribute.close.span));
    }
    assert_eq!(node.attributes[1].span(), Span::new(SourceId(0), 11, 19));
    assert!(covers(node.async_token.unwrap().span));
    assert!(covers(node.move_token.unwrap().span));
    let (label, colon) = node.label.unwrap();
    assert!(covers(label.span));
    assert!(covers(colon.span));
    assert_eq!(node.block.span(), Span::new(SourceId(0), 35, 43));
    assert!(covers(node.block.span()));
    for statement in &node.block.statements {
        assert!(covers(statement.span()));
    }
    assert_eq!(node.block.statements[0].span(), Span::new(SourceId(0), 37, 39));
    assert_eq!(node.block.statements[1].span(), Span::new(SourceId(0), 40, 41));
}

#[test]
fn the_span_of_a_plain_block_is_its_braces() {
    let node = parse_all::<ExprBlock>(" {} ", SourceId(0)).unwrap();
    assert_eq!(node.span(), Span::new(SourceId(0), 1, 3));
    let block = parse_all::<Block>("{ 42 }", SourceId(0)).unwrap();
    assert_eq!(block.span(), Span::new(SourceId(0), 0, 6));
}

#[test]
fn peeking_a_block_expression() {
    for (source, expected) in [
        ("#", true),
        ("async", true),
        ("const", true),
        ("move", true),
        ("'a", true),
        ("{", true),
        ("await", false),
        ("}", false),
        ("[", false),
        ("x", false),
        ("42", false),
        (":", false),
        ("", false),
    ] {
        let mut parser = Parser::new(source, SourceId(0));
        assert_eq!(parser.peek::<ExprBlock>(), expected, "{source}");
    }
}

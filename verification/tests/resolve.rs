use rune_ast::ast::{Ident, Label, LitNumber};
use rune_ast::error::{Error, ErrorKind, Expectation, SyntheticKind};
use rune_ast::macros::{MacroContext, ToTokens};
use rune_ast::parse::{parse_all, Resolve, ToAst};
use rune_ast::parser::TokenStream;
use rune_ast::sources::{ResolveContext, Sources, Storage};
use rune_ast::span::{SourceId, Span};
use rune_ast::token::{BuiltIn, Kind, LitSource, SyntheticId, Token};

fn label(span: Span, source: LitSource) -> Label {
    Label::to_ast(span, Kind::Label(source)).unwrap()
}

#[test]
fn resolving_twice_gives_the_same() {
    let mut sources = Sources::new();
    let id = sources.insert("'barify42");
    let mut storage = Storage::new();
    let made_up = storage.insert_str("made");
    let cx = ResolveContext { sources: &sources, storage: &storage };

    let from_text = parse_all::<Label>("'barify42", id).unwrap();
    assert_eq!(from_text.resolve(cx), Ok("barify42"));
    assert_eq!(from_text.resolve(cx), from_text.resolve(cx));

    let synthetic = label(Span::empty(id), LitSource::Synthetic(made_up));
    assert_eq!(synthetic.resolve(cx), Ok("made"));
    assert_eq!(synthetic.resolve(cx), synthetic.resolve(cx));

    let missing = label(Span::empty(id), LitSource::Synthetic(SyntheticId(7)));
    assert!(missing.resolve(cx).is_err());
    assert_eq!(missing.resolve(cx), missing.resolve(cx));
}

#[test]
fn built_in_labels_need_no_lookup() {
    let sources = Sources::new();
    let storage = Storage::new();
    let cx = ResolveContext { sources: &sources, storage: &storage };
    let span = Span::new(SourceId(0), 3, 9);
    assert_eq!(label(span, LitSource::BuiltIn(BuiltIn::Template)).resolve(cx), Ok("template"));
    assert_eq!(label(span, LitSource::BuiltIn(BuiltIn::Format)).resolve(cx), Ok("formatspec"));
    assert_eq!(label(span, LitSource::BuiltIn(BuiltIn::BuiltIn)).resolve(cx), Ok("builtin"));
    assert_eq!(label(span, LitSource::BuiltIn(BuiltIn::Literal)).resolve(cx), Ok("literal"));
    assert_eq!(label(span, LitSource::BuiltIn(BuiltIn::Doc)).resolve(cx), Ok("doc"));
    assert_eq!(BuiltIn::Doc.as_str(), "doc");
}

#[test]
fn a_span_that_addresses_no_text_is_a_bad_slice() {
    let mut sources = Sources::new();
    let id = sources.insert("'foo");
    let other = sources.insert("a\u{e9}b");
    let storage = Storage::new();
    let cx = ResolveContext { sources: &sources, storage: &storage };
    let bad = |span: Span| Err(Error::new(span, ErrorKind::BadSlice));

    // Past the end of the source.
    let span = Span::new(id, 2, 9);
    assert_eq!(label(span, LitSource::Text(id)).resolve(cx), bad(span));
    // A source that does not exist.
    let span = Span::new(SourceId(9), 0, 4);
    assert_eq!(label(span, LitSource::Text(SourceId(9))).resolve(cx), bad(span));
    // A span of another source than the one that the label names.
    let span = Span::new(other, 0, 4);
    assert_eq!(label(span, LitSource::Text(id)).resolve(cx), bad(span));
    // No room for the quote.
    let span = Span::new(id, 2, 2);
    assert_eq!(label(span, LitSource::Text(id)).resolve(cx), bad(span));
    // An end inside a character.
    let span = Span::new(other, 0, 2);
    assert_eq!(label(span, LitSource::Text(other)).resolve(cx), bad(span));
    // A start inside a character.
    let span = Span::new(other, 1, 4);
    assert_eq!(label(span, LitSource::Text(other)).resolve(cx), bad(span));
    // The same source, between characters.
    let span = Span::new(other, 0, 3);
    assert_eq!(label(span, LitSource::Text(other)).resolve(cx), Ok("\u{e9}"));
    let span = Span::new(other, 0, 1);
    assert_eq!(label(span, LitSource::Text(other)).resolve(cx), Ok(""));
}

#[test]
fn a_missing_synthetic_string_is_reported_with_its_identity() {
    let sources = Sources::new();
    let mut storage = Storage::new();
    assert_eq!(storage.insert_str("zero"), SyntheticId(0));
    let cx = ResolveContext { sources: &sources, storage: &storage };
    let span = Span::new(SourceId(0), 1, 2);
    let id = SyntheticId(1);

    let missing = label(span, LitSource::Synthetic(id));
    let kind = ErrorKind::BadSyntheticId { kind: SyntheticKind::Ident, id };
    assert_eq!(missing.resolve(cx), Err(Error::new(span, kind)));

    let ident = Ident::to_ast(span, Kind::Ident(LitSource::Synthetic(id))).unwrap();
    assert_eq!(ident.resolve(cx), Err(Error::new(span, kind)));

    let number = LitNumber::to_ast(span, Kind::Number(LitSource::Synthetic(id))).unwrap();
    let kind = ErrorKind::BadSyntheticId { kind: SyntheticKind::Number, id };
    assert_eq!(number.resolve(cx), Err(Error::new(span, kind)));
}

#[test]
fn identifiers_and_numbers_resolve_to_what_is_written() {
    let mut sources = Sources::new();
    let id = sources.insert("retry 42");
    let storage = Storage::new();
    let cx = ResolveContext { sources: &sources, storage: &storage };
    let ident = Ident::to_ast(Span::new(id, 0, 5), Kind::Ident(LitSource::Text(id))).unwrap();
    let number = LitNumber::to_ast(Span::new(id, 6, 8), Kind::Number(LitSource::Text(id))).unwrap();
    assert_eq!(ident.resolve(cx), Ok("retry"));
    assert_eq!(number.resolve(cx), Ok("42"));
}

#[test]
fn sources_and_strings_by_identity() {
    let mut sources = Sources::new();
    assert_eq!(sources.insert("first"), SourceId(0));
    assert_eq!(sources.insert("second"), SourceId(1));
    assert_eq!(sources.source(SourceId(1), Span::new(SourceId(1), 0, 3)), Some("sec"));
    assert_eq!(sources.source(SourceId(0), Span::new(SourceId(0), 0, 5)), Some("first"));
    assert_eq!(sources.source(SourceId(0), Span::new(SourceId(0), 5, 5)), Some(""));
    assert_eq!(sources.source(SourceId(0), Span::new(SourceId(0), 0, 6)), None);
    assert_eq!(sources.source(SourceId(0), Span::new(SourceId(1), 0, 3)), None);
    assert_eq!(sources.source(SourceId(2), Span::new(SourceId(2), 0, 0)), None);

    let mut storage = Storage::new();
    assert_eq!(storage.get_string(SyntheticId(0)), None);
    assert_eq!(storage.insert_str("a"), SyntheticId(0));
    assert_eq!(storage.insert_str("b"), SyntheticId(1));
    assert_eq!(storage.get_string(SyntheticId(0)), Some("a"));
    assert_eq!(storage.get_string(SyntheticId(1)), Some("b"));
    assert_eq!(storage.get_string(SyntheticId(2)), None);
}

#[test]
fn made_up_labels_resolve_to_their_names() {
    let sources = Sources::new();
    let macro_span = Span::new(SourceId(0), 10, 20);
    let mut cx = MacroContext::new(macro_span, Storage::new());
    assert_eq!(cx.macro_span(), macro_span);
    let foo = cx.label("foo");
    let bar = cx.label("bar");
    let name = cx.ident("name");
    assert_eq!(foo.span, macro_span);
    assert_eq!(foo.source, LitSource::Synthetic(SyntheticId(0)));
    assert_eq!(bar.source, LitSource::Synthetic(SyntheticId(1)));
    assert_eq!(name.source, LitSource::Synthetic(SyntheticId(2)));

    let mut stream = TokenStream::new();
    foo.to_tokens(&mut cx, &mut stream);
    assert_eq!(stream.len(), 1);
    assert_eq!(
        stream.get(0),
        Some(Token::new(macro_span, Kind::Label(LitSource::Synthetic(SyntheticId(0)))))
    );

    {
        let resolve = ResolveContext { sources: &sources, storage: cx.storage() };
        assert_eq!(foo.resolve(resolve), Ok("foo"));
        assert_eq!(bar.resolve(resolve), Ok("bar"));
        assert_eq!(name.resolve(resolve), Ok("name"));
    }
    let storage = cx.into_storage();
    assert_eq!(storage.get_string(SyntheticId(1)), Some("bar"));
}

#[test]
fn a_token_of_another_kind_makes_no_label() {
    let span = Span::new(SourceId(0), 0, 3);
    let kind = Kind::Ident(LitSource::Text(SourceId(0)));
    assert!(!Label::matches(&kind));
    assert!(Label::matches(&Kind::Label(LitSource::BuiltIn(BuiltIn::Doc))));
    assert_eq!(Label::into_expectation(), Expectation::Description("a label"));
    assert_eq!(Label::into_expectation().as_str(), "a label");
    assert_eq!(
        Label::to_ast(span, kind),
        Err(Error::expected(Token::new(span, kind), Expectation::Description("a label")))
    );
    assert_eq!(
        parse_all::<Label>("foo", SourceId(0)),
        Err(Error::expected(Token::new(span, kind), Expectation::Description("a label")))
    );
}

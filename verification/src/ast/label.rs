//! Labels.

use vstd::prelude::*;
use crate::error::{Error, ErrorKind, Expectation, SyntheticKind};
use crate::macros::{MacroContext, ToTokens};
use crate::parse::{
    lemma_parse_token_advances, spec_parse_token, spec_peek_token, Node, Parse, Peek, Resolve,
    ToAst,
};
use crate::parser::{Cursor, Parser, Peeker, TokenStream};
use crate::sources::{string_at, text_at, ResolveContext};
use crate::span::{Span, Spanned};
use crate::token::{Kind, LitSource, Token};

verus! {

/// A label, like `'foo`.
///
/// A label is one token. Its span covers the quote and the name; its source
/// says where the name lives. A macro makes labels up with
/// [`MacroContext::label`].
#[derive(Debug, Clone, Copy, PartialEq, Eq, Structural)]
#[non_exhaustive]
pub struct Label {
    /// The token of the label.
    pub span: Span,
    /// The source of the label.
    pub source: LitSource,
}

impl DeepView for Label {
    type V = Label;

    open spec fn deep_view(&self) -> Label {
        *self
    }
}

impl Spanned for Label {
    open spec fn spec_span(&self) -> Span {
        self.span
    }

    fn span(&self) -> (span: Span) {
        self.span
    }
}

impl ToAst for Label {
    open spec fn accepts(kind: Kind) -> bool {
        kind is Label
    }

    open spec fn expectation() -> Expectation {
        Expectation::Description("a label")
    }

    open spec fn from_token(span: Span, kind: Kind) -> Label {
        Label { span, source: kind->Label_0 }
    }

    fn to_ast(span: Span, kind: Kind) -> (node: Result<Self, Error>) {
        match kind {
            Kind::Label(source) => Ok(Self { span, source }),
            _ => Err(Error::expected(Token { span, kind }, Self::into_expectation())),
        }
    }

    #[inline]
    fn matches(kind: &Kind) -> (b: bool) {
        matches!(kind, Kind::Label(..))
    }

    #[inline]
    fn into_expectation() -> (expected: Expectation) {
        Expectation::Description("a label")
    }
}

impl Parse for Label {
    open spec fn spec_parse(c: Cursor) -> (Result<Label, Error>, Cursor) {
        spec_parse_token::<Label>(c)
    }

    fn parse(p: &mut Parser<'_>) -> (node: Result<Self, Error>) {
        let t = p.next()?;
        Self::to_ast(t.span, t.kind)
    }

    proof fn lemma_parse_advances(c: Cursor) {
        lemma_parse_token_advances::<Label>(c);
    }
}

impl Peek for Label {
    open spec fn spec_peek(c: Cursor) -> bool {
        spec_peek_token::<Label>(c)
    }

    fn peek(p: &mut Peeker<'_>) -> (b: bool) {
        matches!(p.nth(0), Kind::Label(..))
    }
}

impl Node for Label {
    proof fn lemma_takes_a_token(c: Cursor) {
    }

    proof fn lemma_peek_sound(c: Cursor) {
    }
}

impl<'a> Resolve<'a> for Label {
    type Output = &'a str;

    /// The name of the label. A label of a source resolves to the text
    /// behind its quote; a synthetic label and a built-in one carry no quote.
    open spec fn spec_resolve(&self, sources: Seq<Seq<char>>, storage: Seq<Seq<char>>) -> Result<
        Seq<char>,
        Error,
    > {
        match self.source {
            LitSource::Text(source_id) => {
                let name = if self.span.start < self.span.end {
                    text_at(sources, source_id, self.span.spec_trim_start(1))
                } else {
                    None
                };
                match name {
                    Some(ident) => Ok(ident),
                    None => Err(Error { span: self.span, kind: ErrorKind::BadSlice }),
                }
            },
            LitSource::Synthetic(id) => match string_at(storage, id) {
                Some(ident) => Ok(ident),
                None => Err(
                    Error {
                        span: self.span,
                        kind: ErrorKind::BadSyntheticId { kind: SyntheticKind::Ident, id },
                    },
                ),
            },
            LitSource::BuiltIn(builtin) => Ok(builtin.text()),
        }
    }

    fn resolve(&self, cx: ResolveContext<'a>) -> (out: Result<&'a str, Error>) {
        let span = self.span;

        match self.source {
            LitSource::Text(source_id) => {
                if span.start >= span.end {
                    return Err(Error::new(span, ErrorKind::BadSlice));
                }
                match cx.sources.source(source_id, span.trim_start(1)) {
                    Some(ident) => Ok(ident),
                    None => Err(Error::new(span, ErrorKind::BadSlice)),
                }
            },
            LitSource::Synthetic(id) => {
                match cx.storage.get_string(id) {
                    Some(ident) => Ok(ident),
                    None => Err(
                        Error::new(
                            span,
                            ErrorKind::BadSyntheticId { kind: SyntheticKind::Ident, id },
                        ),
                    ),
                }
            },
            LitSource::BuiltIn(builtin) => Ok(builtin.as_str()),
        }
    }
}

impl ToTokens for Label {
    open spec fn spec_tokens(&self) -> Seq<Token> {
        seq![Token { span: self.span, kind: Kind::Label(self.source) }]
    }

    fn to_tokens(&self, cx: &mut MacroContext, stream: &mut TokenStream) {
        stream.push(Token { span: self.span, kind: Kind::Label(self.source) });
    }
}

/// Where a label could start, a label is parsed: both `parse` at that
/// cursor and `to_ast` on the token there succeed.
pub proof fn lemma_label_peek_sound(c: Cursor)
    requires
        Label::spec_peek(c),
    ensures
        Label::spec_parse(c).0 is Ok,
        c.rest.len() > 0,
        Label::accepts(c.rest[0].kind),
{
}

} // verus!

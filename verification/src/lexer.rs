//! The lexer: from the bytes of a source to its tokens, one at a time.

use vstd::prelude::*;
use vstd::string::StringSliceAdditionalSpecFns;
use vstd::utf8::encode_utf8;
use crate::span::{SourceId, Span};
use crate::token::{Delimiter, Kind, LitSource, Token};

verus! {

/// The byte `'`, which starts a label.
pub const QUOTE: u8 = 39;

/// The classes of bytes that the lexer tells apart when it looks for the
/// end of a run.
#[derive(Clone, Copy, Debug, PartialEq, Eq, Structural)]
pub enum Class {
    /// A space, a tab, a line feed or a carriage return.
    Whitespace,
    /// A letter of ASCII, a digit or `_`.
    Word,
    /// A digit.
    Digit,
}

/// Whether `b` can start an identifier: a letter of ASCII or `_`.
pub open spec fn is_word_start(b: u8) -> bool {
    (65 <= b <= 90) || (97 <= b <= 122) || b == 95
}

/// Whether `b` is a digit.
pub open spec fn is_digit(b: u8) -> bool {
    48 <= b <= 57
}

impl Class {
    /// Whether `b` belongs to the class.
    pub open spec fn holds(self, b: u8) -> bool {
        match self {
            Class::Whitespace => b == 32 || b == 9 || b == 10 || b == 13,
            Class::Word => is_word_start(b) || is_digit(b),
            Class::Digit => is_digit(b),
        }
    }

    /// Whether `b` belongs to the class.
    pub fn test(self, b: u8) -> (r: bool)
        ensures
            r == self.holds(b),
    {
        match self {
            Class::Whitespace => b == 32 || b == 9 || b == 10 || b == 13,
            Class::Word => (65 <= b && b <= 90) || (97 <= b && b <= 122) || b == 95 || (48 <= b
                && b <= 57),
            Class::Digit => 48 <= b && b <= 57,
        }
    }
}

/// Where the run of bytes of `class` that starts at `pos` ends: the first
/// position from `pos` on whose byte is not of the class, or the end of
/// `bytes`.
pub open spec fn run_end(bytes: Seq<u8>, pos: int, class: Class) -> int
    decreases bytes.len() - pos,
{
    if 0 <= pos < bytes.len() && class.holds(bytes[pos]) {
        run_end(bytes, pos + 1, class)
    } else {
        pos
    }
}

/// The keyword that `word` spells, if it spells one.
pub open spec fn keyword(word: Seq<u8>) -> Option<Kind> {
    if word == "async".spec_bytes() {
        Some(Kind::Async)
    } else if word == "await".spec_bytes() {
        Some(Kind::Await)
    } else if word == "const".spec_bytes() {
        Some(Kind::Const)
    } else if word == "move".spec_bytes() {
        Some(Kind::Move)
    } else {
        None
    }
}

/// The kind of the token that the single byte `b` makes.
pub open spec fn punctuation(b: u8) -> Kind {
    if b == 35 {
        Kind::Pound
    } else if b == 33 {
        Kind::Bang
    } else if b == 58 {
        Kind::Colon
    } else if b == 59 {
        Kind::SemiColon
    } else if b == 44 {
        Kind::Comma
    } else if b == 40 {
        Kind::Open(Delimiter::Parenthesis)
    } else if b == 41 {
        Kind::Close(Delimiter::Parenthesis)
    } else if b == 91 {
        Kind::Open(Delimiter::Bracket)
    } else if b == 93 {
        Kind::Close(Delimiter::Bracket)
    } else if b == 123 {
        Kind::Open(Delimiter::Brace)
    } else if b == 125 {
        Kind::Close(Delimiter::Brace)
    } else {
        Kind::Error
    }
}

/// Where the token that starts at `pos` ends. A word or a label runs as far
/// as its letters, digits and underscores go, a number as far as its digits;
/// every other token is one byte.
pub open spec fn token_end(bytes: Seq<u8>, pos: int) -> int {
    let b = bytes[pos];
    if is_word_start(b) || b == QUOTE {
        run_end(bytes, pos + 1, Class::Word)
    } else if is_digit(b) {
        run_end(bytes, pos + 1, Class::Digit)
    } else {
        pos + 1
    }
}

/// The kind of the token that starts at `pos`. A quote that no name follows
/// is an error token.
pub open spec fn token_kind(source_id: SourceId, bytes: Seq<u8>, pos: int) -> Kind {
    let b = bytes[pos];
    let end = token_end(bytes, pos);
    if is_word_start(b) {
        match keyword(bytes.subrange(pos, end)) {
            Some(kind) => kind,
            None => Kind::Ident(LitSource::Text(source_id)),
        }
    } else if b == QUOTE {
        if end > pos + 1 {
            Kind::Label(LitSource::Text(source_id))
        } else {
            Kind::Error
        }
    } else if is_digit(b) {
        Kind::Number(LitSource::Text(source_id))
    } else {
        punctuation(b)
    }
}

/// The token that starts at `pos`, a position inside `bytes` whose byte is
/// not whitespace.
pub open spec fn token_at(source_id: SourceId, bytes: Seq<u8>, pos: int) -> Token {
    Token {
        span: Span { source_id, start: pos as usize, end: token_end(bytes, pos) as usize },
        kind: token_kind(source_id, bytes, pos),
    }
}

/// The tokens of `bytes` from `pos` on, in their order. Whitespace separates
/// tokens and belongs to none.
pub open spec fn tokens_from(source_id: SourceId, bytes: Seq<u8>, pos: int) -> Seq<Token>
    decreases bytes.len() - pos,
    via tokens_from_terminates
{
    let start = run_end(bytes, pos, Class::Whitespace);
    if 0 <= pos && start < bytes.len() {
        seq![token_at(source_id, bytes, start)] + tokens_from(
            source_id,
            bytes,
            token_end(bytes, start),
        )
    } else {
        Seq::empty()
    }
}

#[via_fn]
proof fn tokens_from_terminates(source_id: SourceId, bytes: Seq<u8>, pos: int) {
    let start = run_end(bytes, pos, Class::Whitespace);
    if 0 <= pos && start < bytes.len() {
        lemma_run_end_bounds(bytes, pos, Class::Whitespace);
        lemma_token_end_bounds(bytes, start);
    }
}

/// The tokens of the source `source_id` whose text is `text`.
pub open spec fn lex(source_id: SourceId, text: Seq<char>) -> Seq<Token> {
    tokens_from(source_id, encode_utf8(text), 0)
}

/// A run ends at or after its start, and inside the bytes if it starts there.
pub proof fn lemma_run_end_bounds(bytes: Seq<u8>, pos: int, class: Class)
    ensures
        pos <= run_end(bytes, pos, class),
        pos <= bytes.len() ==> run_end(bytes, pos, class) <= bytes.len(),
    decreases bytes.len() - pos,
{
    if 0 <= pos < bytes.len() && class.holds(bytes[pos]) {
        lemma_run_end_bounds(bytes, pos + 1, class);
    }
}

/// A token is not empty and ends inside the bytes.
pub proof fn lemma_token_end_bounds(bytes: Seq<u8>, pos: int)
    requires
        0 <= pos < bytes.len(),
    ensures
        pos < token_end(bytes, pos) <= bytes.len(),
{
    lemma_run_end_bounds(bytes, pos + 1, Class::Word);
    lemma_run_end_bounds(bytes, pos + 1, Class::Digit);
}

/// Whether two slices hold the same bytes.
fn same_bytes(a: &[u8], b: &[u8]) -> (same: bool)
    ensures
        same == (a@ == b@),
{
    if a.len() != b.len() {
        return false;
    }
    let mut i: usize = 0;
    while i < a.len()
        invariant
            a@.len() == b@.len(),
            i <= a@.len(),
            forall|j: int| 0 <= j < i ==> a@[j] == b@[j],
        decreases a@.len() - i,
    {
        if a[i] != b[i] {
            return false;
        }
        i += 1;
    }
    assert(a@ =~= b@);
    true
}

/// The keyword that `word` spells, if it spells one.
fn keyword_of(word: &[u8]) -> (kind: Option<Kind>)
    ensures
        kind == keyword(word@),
{
    if same_bytes(word, "async".as_bytes()) {
        Some(Kind::Async)
    } else if same_bytes(word, "await".as_bytes()) {
        Some(Kind::Await)
    } else if same_bytes(word, "const".as_bytes()) {
        Some(Kind::Const)
    } else if same_bytes(word, "move".as_bytes()) {
        Some(Kind::Move)
    } else {
        None
    }
}

/// The kind of the token that the single byte `b` makes.
fn punctuation_of(b: u8) -> (kind: Kind)
    ensures
        kind == punctuation(b),
{
    if b == 35 {
        Kind::Pound
    } else if b == 33 {
        Kind::Bang
    } else if b == 58 {
        Kind::Colon
    } else if b == 59 {
        Kind::SemiColon
    } else if b == 44 {
        Kind::Comma
    } else if b == 40 {
        Kind::Open(Delimiter::Parenthesis)
    } else if b == 41 {
        Kind::Close(Delimiter::Parenthesis)
    } else if b == 91 {
        Kind::Open(Delimiter::Bracket)
    } else if b == 93 {
        Kind::Close(Delimiter::Bracket)
    } else if b == 123 {
        Kind::Open(Delimiter::Brace)
    } else if b == 125 {
        Kind::Close(Delimiter::Brace)
    } else {
        Kind::Error
    }
}

/// A lexer over the text of one source. It hands out the tokens of the text
/// one by one and never goes back.
pub struct Lexer<'a> {
    source_id: SourceId,
    bytes: &'a [u8],
    cursor: usize,
}

impl<'a> Lexer<'a> {
    #[verifier::type_invariant]
    spec fn inside(self) -> bool {
        self.cursor <= self.bytes@.len()
    }

    /// The tokens that the lexer has yet to hand out.
    pub closed spec fn rest(&self) -> Seq<Token> {
        tokens_from(self.source_id, self.bytes@, self.cursor as int)
    }

    /// The source whose text is lexed.
    pub closed spec fn source(&self) -> SourceId {
        self.source_id
    }

    /// The number of bytes of the text.
    pub closed spec fn text_len(&self) -> int {
        self.bytes@.len() as int
    }

    /// A lexer at the start of `text`, the text of the source `source_id`.
    pub fn new(text: &'a str, source_id: SourceId) -> (lexer: Lexer<'a>)
        ensures
            lexer.rest() == lex(source_id, text@),
            lexer.source() == source_id,
            lexer.text_len() == encode_utf8(text@).len(),
    {
        Lexer { source_id, bytes: text.as_bytes(), cursor: 0 }
    }

    /// The empty span at the end of the text.
    pub fn end(&self) -> (span: Span)
        ensures
            span == Span::spec_point(self.source(), self.text_len() as usize),
    {
        Span::point(self.source_id, self.bytes.len())
    }

    /// Where the run of bytes of `class` from `from` on ends.
    fn scan(&self, from: usize, class: Class) -> (end: usize)
        requires
            from <= self.bytes@.len(),
        ensures
            end == run_end(self.bytes@, from as int, class),
            from <= end <= self.bytes@.len(),
    {
        let mut i = from;
        while i < self.bytes.len() && class.test(self.bytes[i])
            invariant
                from <= i <= self.bytes@.len(),
                run_end(self.bytes@, from as int, class) == run_end(self.bytes@, i as int, class),
            decreases self.bytes@.len() - i,
        {
            i += 1;
        }
        i
    }

    /// Hands out the next token, or nothing once the text is used up.
    pub fn next(&mut self) -> (token: Option<Token>)
        ensures
            final(self).source() == old(self).source(),
            final(self).text_len() == old(self).text_len(),
            match token {
                Some(t) => {
                    &&& old(self).rest().len() > 0
                    &&& t == old(self).rest()[0]
                    &&& final(self).rest() == old(self).rest().skip(1)
                },
                None => old(self).rest().len() == 0 && final(self).rest() == old(self).rest(),
            },
    {
        proof {
            use_type_invariant(&*self);
        }
        let start = self.scan(self.cursor, Class::Whitespace);
        if start >= self.bytes.len() {
            return None;
        }
        let b = self.bytes[start];
        let end: usize;
        let kind: Kind;
        if Class::Word.test(b) && !Class::Digit.test(b) {
            end = self.scan(start + 1, Class::Word);
            kind = match keyword_of(vstd::slice::slice_subrange(self.bytes, start, end)) {
                Some(kind) => kind,
                None => Kind::Ident(LitSource::Text(self.source_id)),
            };
        } else if b == QUOTE {
            end = self.scan(start + 1, Class::Word);
            kind = if end > start + 1 {
                Kind::Label(LitSource::Text(self.source_id))
            } else {
                Kind::Error
            };
        } else if Class::Digit.test(b) {
            end = self.scan(start + 1, Class::Digit);
            kind = Kind::Number(LitSource::Text(self.source_id));
        } else {
            end = start + 1;
            kind = punctuation_of(b);
        }
        let token = Token { span: Span { source_id: self.source_id, start, end }, kind };
        proof {
            assert(token == token_at(self.source_id, self.bytes@, start as int));
            assert(old(self).rest() == seq![token] + tokens_from(
                self.source_id,
                self.bytes@,
                end as int,
            ));
            assert(old(self).rest().skip(1) =~= tokens_from(
                self.source_id,
                self.bytes@,
                end as int,
            ));
        }
        self.cursor = end;
        Some(token)
    }
}

} // verus!

//! The cursor over a token stream: tokens are taken one at a time, in
//! order, and looking ahead takes none.

use vstd::prelude::*;
use vstd::utf8::encode_utf8;
use std::collections::VecDeque;
use crate::error::{Error, ErrorKind, Expectation};
use crate::lexer::{lex, Lexer};
use crate::parse::{model, Parse, Peek};
use crate::span::{SourceId, Span};
use crate::token::{Kind, Token};

verus! {

/// What a cursor stands for: the tokens that are still to come, and the
/// span that is reported when a token is asked for after the last one.
pub struct Cursor {
    pub rest: Seq<Token>,
    pub end: Span,
}

impl Cursor {
    /// The kind of the token `n` places ahead; `Kind::Eof` past the last one.
    pub open spec fn nth(self, n: int) -> Kind {
        if 0 <= n < self.rest.len() {
            self.rest[n].kind
        } else {
            Kind::Eof
        }
    }

    /// The token `n` places ahead, if the stream is that long.
    pub open spec fn tok_at(self, n: int) -> Option<Token> {
        if 0 <= n < self.rest.len() {
            Some(self.rest[n])
        } else {
            None
        }
    }

    /// The cursor `n` tokens further on.
    pub open spec fn advance(self, n: int) -> Cursor {
        Cursor { rest: self.rest.skip(n), end: self.end }
    }

    /// Whether no token is left.
    pub open spec fn is_eof(self) -> bool {
        self.rest.len() == 0
    }

    /// The failure of asking for a token when none is left.
    pub open spec fn end_of_stream(self) -> Error {
        Error { span: self.end, kind: ErrorKind::UnexpectedEndOfStream }
    }

    /// Taking one token: the first of the rest, and the cursor behind it; at
    /// the end of the stream a failure, and the cursor as it was.
    pub open spec fn next(self) -> (Result<Token, Error>, Cursor) {
        if self.rest.len() > 0 {
            (Ok(self.rest[0]), self.advance(1))
        } else {
            (Err(self.end_of_stream()), self)
        }
    }

    /// Demanding the end of the stream: a failure that names the first token
    /// where one is left.
    pub open spec fn eof(self) -> Result<(), Error> {
        if self.rest.len() > 0 {
            Err(Error::spec_expected(self.rest[0], Expectation::Description("end of input")))
        } else {
            Ok(())
        }
    }

    /// How many tokens lie between `self` and the later cursor `after`.
    pub open spec fn consumed(self, after: Cursor) -> int {
        self.rest.len() - after.rest.len()
    }
}

/// Moving on twice is moving on once by the sum.
pub proof fn lemma_advance_twice(c: Cursor, a: int, b: int)
    requires
        0 <= a,
        0 <= b,
        a + b <= c.rest.len(),
    ensures
        c.advance(a).advance(b) == c.advance(a + b),
        c.advance(0) == c,
{
    assert(c.rest.skip(a).skip(b) =~= c.rest.skip(a + b));
    assert(c.rest.skip(0) =~= c.rest);
}

/// An ordered list of tokens, as a node writes itself out and as macro
/// expansion hands it back to a parser.
#[derive(Debug, PartialEq, Eq)]
pub struct TokenStream {
    stream: Vec<Token>,
}

impl View for TokenStream {
    type V = Seq<Token>;

    closed spec fn view(&self) -> Seq<Token> {
        self.stream@
    }
}

impl TokenStream {
    /// The empty stream.
    pub fn new() -> (stream: TokenStream)
        ensures
            stream@ == Seq::<Token>::empty(),
    {
        TokenStream { stream: Vec::new() }
    }

    /// Appends `token`.
    pub fn push(&mut self, token: Token)
        ensures
            final(self)@ == old(self)@.push(token),
    {
        self.stream.push(token);
    }

    /// The number of tokens.
    pub fn len(&self) -> (n: usize)
        ensures
            n == self@.len(),
    {
        self.stream.len()
    }

    /// The token at `index`, if the stream is that long.
    pub fn get(&self, index: usize) -> (token: Option<Token>)
        ensures
            token == (if index < self@.len() {
                Some(self@[index as int])
            } else {
                None
            }),
    {
        if index < self.stream.len() {
            Some(self.stream[index])
        } else {
            None
        }
    }
}

/// Lookahead over a token stream. It reads ahead into a buffer as far as it
/// is asked to look, and what it has read stays in the stream.
pub struct Peeker<'a> {
    lexer: Option<Lexer<'a>>,
    buf: VecDeque<Token>,
    end: Span,
}

impl<'a> View for Peeker<'a> {
    type V = Cursor;

    closed spec fn view(&self) -> Cursor {
        Cursor { rest: self.buf@ + self.unread(), end: self.end }
    }
}

impl<'a> Peeker<'a> {
    /// The tokens that have not been read into the buffer yet.
    closed spec fn unread(&self) -> Seq<Token> {
        match self.lexer {
            Some(lexer) => lexer.rest(),
            None => Seq::empty(),
        }
    }

    /// Reads one more token of the text.
    fn pull(&mut self) -> (token: Option<Token>)
        ensures
            final(self).buf == old(self).buf,
            final(self).end == old(self).end,
            match token {
                Some(t) => {
                    &&& old(self).unread().len() > 0
                    &&& t == old(self).unread()[0]
                    &&& final(self).unread() == old(self).unread().skip(1)
                },
                None => old(self).unread().len() == 0 && final(self).unread() == old(self).unread(),
            },
    {
        match &mut self.lexer {
            Some(lexer) => lexer.next(),
            None => None,
        }
    }

    /// The token `n` places ahead, if the stream is that long. Nothing is
    /// taken from the stream.
    pub fn tok_at(&mut self, n: usize) -> (token: Option<Token>)
        ensures
            final(self)@ == old(self)@,
            token == old(self)@.tok_at(n as int),
    {
        while self.buf.len() <= n
            invariant
                self@ == old(self)@,
            ensures
                self@ == old(self)@,
                self.buf@.len() <= n ==> self.unread().len() == 0,
            decreases n + 1 - self.buf@.len(),
        {
            let ghost before = self.unread();
            match self.pull() {
                Some(token) => {
                    self.buf.push_back(token);
                    assert(self.buf@ + self.unread() =~= old(self)@.rest) by {
                        assert(before =~= seq![token] + before.skip(1));
                    }
                },
                None => {
                    break ;
                },
            }
        }
        if n < self.buf.len() {
            Some(self.buf[n])
        } else {
            None
        }
    }

    /// The kind of the token `n` places ahead, and `Kind::Eof` past the last
    /// token. Nothing is taken from the stream: however often and however far
    /// the peeker looks ahead, the stream stays what it was.
    pub fn nth(&mut self, n: usize) -> (kind: Kind)
        ensures
            final(self)@ == old(self)@,
            kind == old(self)@.nth(n as int),
    {
        match self.tok_at(n) {
            Some(token) => token.kind,
            None => Kind::Eof,
        }
    }
}

/// A parser: the one consumer of a token stream. It takes the tokens in
/// their order and never gives one back.
pub struct Parser<'a> {
    peeker: Peeker<'a>,
}

impl<'a> View for Parser<'a> {
    type V = Cursor;

    closed spec fn view(&self) -> Cursor {
        self.peeker@
    }
}

impl<'a> Parser<'a> {
    /// A parser over the tokens of `text`, the text of the source
    /// `source_id`. The end of the stream is reported at the end of the text.
    pub fn new(text: &'a str, source_id: SourceId) -> (parser: Parser<'a>)
        ensures
            parser@.rest == lex(source_id, text@),
            parser@.end == Span::spec_point(source_id, encode_utf8(text@).len() as usize),
    {
        let lexer = Lexer::new(text, source_id);
        let end = lexer.end();
        let parser = Parser { peeker: Peeker { lexer: Some(lexer), buf: VecDeque::new(), end } };
        assert(parser@.rest =~= lex(source_id, text@));
        parser
    }

    /// A parser over the tokens of `stream`. The end of the stream is
    /// reported at `end`.
    pub fn from_token_stream(stream: &TokenStream, end: Span) -> (parser: Parser<'a>)
        ensures
            parser@ == (Cursor { rest: stream@, end }),
    {
        let mut buf: VecDeque<Token> = VecDeque::new();
        let mut i: usize = 0;
        while i < stream.stream.len()
            invariant
                i <= stream.stream@.len(),
                buf@ == stream.stream@.take(i as int),
            decreases stream.stream@.len() - i,
        {
            buf.push_back(stream.stream[i]);
            i += 1;
            assert(buf@ =~= stream.stream@.take(i as int));
        }
        let parser = Parser { peeker: Peeker { lexer: None, buf, end } };
        assert(parser@.rest =~= stream@);
        parser
    }

    /// Takes the next token and moves past it. At the end of the stream
    /// nothing is taken and the failure is `UnexpectedEndOfStream`.
    pub fn next(&mut self) -> (token: Result<Token, Error>)
        ensures
            (token, final(self)@) == old(self)@.next(),
    {
        if let Some(token) = self.peeker.buf.pop_front() {
            assert(self@.rest =~= old(self)@.rest.skip(1));
            return Ok(token);
        }
        match self.peeker.pull() {
            Some(token) => {
                assert(self@.rest =~= old(self)@.rest.skip(1));
                Ok(token)
            },
            None => {
                assert(self@.rest =~= old(self)@.rest);
                Err(Error::new(self.peeker.end, ErrorKind::UnexpectedEndOfStream))
            },
        }
    }

    /// The kind of the token `n` places ahead, and `Kind::Eof` past the last
    /// token. Nothing is taken from the stream.
    pub fn nth(&mut self, n: usize) -> (kind: Kind)
        ensures
            final(self)@ == old(self)@,
            kind == old(self)@.nth(n as int),
    {
        self.peeker.nth(n)
    }

    /// Parses a node at the cursor.
    pub fn parse<T: Parse>(&mut self) -> (node: Result<T, Error>)
        ensures
            (model(node), final(self)@) == T::spec_parse(old(self)@),
    {
        T::parse(self)
    }

    /// Whether a node could start at the cursor. Nothing is taken from the
    /// stream.
    pub fn peek<T: Peek>(&mut self) -> (b: bool)
        ensures
            final(self)@ == old(self)@,
            b == T::spec_peek(old(self)@),
    {
        T::peek(&mut self.peeker)
    }

    /// Whether no token is left. Nothing is taken from the stream.
    pub fn is_eof(&mut self) -> (at_end: bool)
        ensures
            final(self)@ == old(self)@,
            at_end == old(self)@.is_eof(),
    {
        self.peeker.tok_at(0).is_none()
    }

    /// Demands the end of the stream: fails where a token is left, and names
    /// that token. Nothing is taken from the stream.
    pub fn eof(&mut self) -> (done: Result<(), Error>)
        ensures
            final(self)@ == old(self)@,
            done == old(self)@.eof(),
    {
        match self.peeker.tok_at(0) {
            Some(token) => Err(Error::expected(token, Expectation::Description("end of input"))),
            None => Ok(()),
        }
    }
}

} // verus!

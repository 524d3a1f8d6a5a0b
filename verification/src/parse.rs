//! What every syntax node can do: be made from one token, say whether it
//! could start at the cursor, be parsed, and give the text that it stands
//! for.

use vstd::prelude::*;
use vstd::utf8::encode_utf8;
use crate::error::{Error, ErrorKind, Expectation};
use crate::lexer::lex;
use crate::parser::{lemma_advance_twice, Cursor, Parser, Peeker};
use crate::sources::ResolveContext;
use crate::span::{SourceId, Span};
use crate::token::{Kind, Token};

verus! {

/// A result with its node replaced by the node's model.
pub open spec fn model<T: DeepView>(r: Result<T, Error>) -> Result<T::V, Error> {
    match r {
        Ok(node) => Ok(node.deep_view()),
        Err(error) => Err(error),
    }
}

/// A node that is exactly one token.
pub trait ToAst: Sized {
    /// The kinds of token that make such a node.
    spec fn accepts(kind: Kind) -> bool;

    /// How the node is described where another token stands in its place.
    spec fn expectation() -> Expectation;

    /// The node that the token of kind `kind` at `span` makes, where the
    /// kind is one of those accepted.
    spec fn from_token(span: Span, kind: Kind) -> Self;

    /// Makes the node from one token that is already classified. A token of
    /// another kind is refused, and the failure names that token and what
    /// was expected.
    fn to_ast(span: Span, kind: Kind) -> (node: Result<Self, Error>)
        ensures
            node == (if Self::accepts(kind) {
                Ok(Self::from_token(span, kind))
            } else {
                Err(Error::spec_expected(Token { span, kind }, Self::expectation()))
            }),
    ;

    /// Whether a token of kind `kind` makes such a node.
    fn matches(kind: &Kind) -> (b: bool)
        ensures
            b == Self::accepts(*kind),
    ;

    /// How the node is described where another token stands in its place.
    fn into_expectation() -> (expected: Expectation)
        ensures
            expected == Self::expectation(),
    ;
}

/// Making a one-token node from the token of kind `kind` at `span`.
pub open spec fn spec_to_ast<T: ToAst>(span: Span, kind: Kind) -> Result<T, Error> {
    if T::accepts(kind) {
        Ok(T::from_token(span, kind))
    } else {
        Err(Error::spec_expected(Token { span, kind }, T::expectation()))
    }
}

/// Whether a one-token node could start at `c`.
pub open spec fn spec_peek_token<T: ToAst>(c: Cursor) -> bool {
    T::accepts(c.nth(0))
}

/// Parsing a one-token node at `c`: the next token is taken, whatever its
/// kind, and the node is made from it.
pub open spec fn spec_parse_token<T: ToAst>(c: Cursor) -> (Result<T, Error>, Cursor) {
    match c.next() {
        (Ok(token), after) => (spec_to_ast::<T>(token.span, token.kind), after),
        (Err(error), after) => (Err(error), after),
    }
}

/// Parsing a one-token node takes one token, or none at the end of the
/// stream, and a failure names the token taken.
pub proof fn lemma_parse_token_advances<T: ToAst>(c: Cursor)
    ensures
        advances(c, spec_parse_token::<T>(c)),
{
    lemma_advance_twice(c, 0, 0);
}

/// A test, without commitment, whether a node could start at the cursor.
pub trait Peek {
    /// Whether the node could start at `c`.
    spec fn spec_peek(c: Cursor) -> bool;

    /// Whether the node could start where the peeker stands. It never fails
    /// and takes nothing from the stream.
    fn peek(p: &mut Peeker<'_>) -> (b: bool)
        ensures
            final(p)@ == old(p)@,
            b == Self::spec_peek(old(p)@),
    ;
}

/// Whether `outcome` is the outcome of a parser that started at `c` and only
/// moved forward: it stopped some tokens further on, and where it failed, it
/// failed over the last token that it took, or for want of a token at the
/// end of the stream. The failure is at the span of that token, or at the
/// end.
pub open spec fn advances<V>(c: Cursor, outcome: (Result<V, Error>, Cursor)) -> bool {
    let taken = c.consumed(outcome.1);
    &&& 0 <= taken <= c.rest.len()
    &&& outcome.1 == c.advance(taken)
    &&& match outcome.0 {
        Ok(_) => true,
        Err(error) => match error.kind {
            ErrorKind::ExpectedButFound { found, .. } => {
                &&& taken >= 1
                &&& found == c.rest[taken - 1]
                &&& error.span == found.span
            },
            ErrorKind::UnexpectedEndOfStream => taken == c.rest.len() && error.span == c.end,
            _ => false,
        },
    }
}

/// A parser that goes on where another one stopped with success has, in
/// all, only moved forward.
pub proof fn lemma_advances_then<V, W>(
    c: Cursor,
    first: (Result<V, Error>, Cursor),
    second: (Result<W, Error>, Cursor),
)
    requires
        advances(c, first),
        first.0 is Ok,
        advances(first.1, second),
    ensures
        advances(c, second),
        c.consumed(second.1) == c.consumed(first.1) + first.1.consumed(second.1),
{
    lemma_advance_twice(c, c.consumed(first.1), first.1.consumed(second.1));
}

/// A parser that took nothing has only moved forward.
pub proof fn lemma_advances_not<V>(c: Cursor, node: V)
    ensures
        advances(c, (Ok::<V, Error>(node), c)),
{
    lemma_advance_twice(c, 0, 0);
}

/// A node that is made by taking tokens from a parser.
pub trait Parse: Sized + DeepView {
    /// The outcome of parsing the node at `c`: the model of the node or the
    /// failure, and the cursor where parsing stopped.
    spec fn spec_parse(c: Cursor) -> (Result<Self::V, Error>, Cursor);

    /// Parses the node. Nothing is tried and taken back: the first failure is
    /// the outcome, with the parser left where it was met.
    fn parse(p: &mut Parser<'_>) -> (node: Result<Self, Error>)
        ensures
            (model(node), final(p)@) == Self::spec_parse(old(p)@),
    ;

    /// Parsing only moves forward, and a failure names the last token taken.
    proof fn lemma_parse_advances(c: Cursor)
        ensures
            advances(c, Self::spec_parse(c)),
    ;
}

/// A node that stands for a text, which is looked up only when it is asked
/// for.
pub trait Resolve<'a> {
    /// What the node resolves to.
    type Output: DeepView;

    /// The outcome of resolving the node against the source texts `sources`
    /// and the synthetic strings `storage`.
    spec fn spec_resolve(&self, sources: Seq<Seq<char>>, storage: Seq<Seq<char>>) -> Result<
        <Self::Output as DeepView>::V,
        Error,
    >;

    /// Resolves the node. The context is only read, so that resolving again
    /// in the same context gives the same outcome.
    fn resolve(&self, cx: ResolveContext<'a>) -> (out: Result<Self::Output, Error>)
        ensures
            model(out) == self.spec_resolve(cx.sources@, cx.storage@),
    ;
}

/// An optional node: it is parsed where it could start, and is absent, with
/// nothing taken, where it could not.
impl<T: Parse + Peek> Parse for Option<T> {
    open spec fn spec_parse(c: Cursor) -> (Result<Option<T::V>, Error>, Cursor) {
        if T::spec_peek(c) {
            match T::spec_parse(c) {
                (Ok(node), after) => (Ok(Some(node)), after),
                (Err(error), after) => (Err(error), after),
            }
        } else {
            (Ok(None), c)
        }
    }

    fn parse(p: &mut Parser<'_>) -> (node: Result<Self, Error>) {
        if p.peek::<T>() {
            Ok(Some(p.parse::<T>()?))
        } else {
            Ok(None)
        }
    }

    proof fn lemma_parse_advances(c: Cursor) {
        if T::spec_peek(c) {
            T::lemma_parse_advances(c);
        } else {
            lemma_advances_not(c, None::<T::V>);
        }
    }
}

/// Two nodes in a row: the second is parsed where the first ended.
impl<A: Parse, B: Parse> Parse for (A, B) {
    open spec fn spec_parse(c: Cursor) -> (Result<(A::V, B::V), Error>, Cursor) {
        match A::spec_parse(c) {
            (Ok(first), mid) => match B::spec_parse(mid) {
                (Ok(second), after) => (Ok((first, second)), after),
                (Err(error), after) => (Err(error), after),
            },
            (Err(error), after) => (Err(error), after),
        }
    }

    fn parse(p: &mut Parser<'_>) -> (node: Result<Self, Error>) {
        let first = p.parse::<A>()?;
        let second = p.parse::<B>()?;
        Ok((first, second))
    }

    proof fn lemma_parse_advances(c: Cursor) {
        A::lemma_parse_advances(c);
        if A::spec_parse(c).0 is Ok {
            B::lemma_parse_advances(A::spec_parse(c).1);
            lemma_advances_then(c, A::spec_parse(c), B::spec_parse(A::spec_parse(c).1));
        }
    }
}

/// Two nodes in a row could start where the first could.
impl<A: Peek, B> Peek for (A, B) {
    open spec fn spec_peek(c: Cursor) -> bool {
        A::spec_peek(c)
    }

    fn peek(p: &mut Peeker<'_>) -> (b: bool) {
        A::peek(p)
    }
}

/// Whether `outcome`, the outcome of parsing at `c`, does not reject the
/// token at the cursor: where it is a failure over a token of the wrong
/// kind, at least two tokens were taken, so that the token it names stands
/// behind the cursor.
pub open spec fn accepts_first<V>(c: Cursor, outcome: (Result<V, Error>, Cursor)) -> bool {
    match outcome.0 {
        Ok(_) => true,
        Err(error) => error.kind is ExpectedButFound ==> c.consumed(outcome.1) >= 2,
    }
}

/// A node that can be both tested for and parsed, and for which the two
/// agree.
pub trait Node: Parse + Peek {
    /// Where the node could start and is parsed, it takes at least one
    /// token, so that a list of such nodes ends.
    proof fn lemma_takes_a_token(c: Cursor)
        requires
            Self::spec_peek(c),
            Self::spec_parse(c).0 is Ok,
        ensures
            Self::spec_parse(c).1.rest.len() < c.rest.len(),
    ;

    /// Where the node could start, parsing it does not fail over the token
    /// at the cursor.
    proof fn lemma_peek_sound(c: Cursor)
        requires
            Self::spec_peek(c),
        ensures
            accepts_first(c, Self::spec_parse(c)),
    ;
}

/// Two nodes in a row agree with their test where the first does.
impl<A: Node, B: Parse> Node for (A, B) {
    proof fn lemma_takes_a_token(c: Cursor) {
        A::lemma_takes_a_token(c);
        A::lemma_parse_advances(c);
        B::lemma_parse_advances(A::spec_parse(c).1);
        lemma_advances_then(c, A::spec_parse(c), B::spec_parse(A::spec_parse(c).1));
    }

    proof fn lemma_peek_sound(c: Cursor) {
        A::lemma_peek_sound(c);
        if A::spec_parse(c).0 is Ok {
            A::lemma_takes_a_token(c);
            A::lemma_parse_advances(c);
            B::lemma_parse_advances(A::spec_parse(c).1);
            lemma_advances_then(c, A::spec_parse(c), B::spec_parse(A::spec_parse(c).1));
        }
    }
}

/// An optional node never fails over the token at the cursor, and it takes
/// a token where the node could start.
pub proof fn lemma_option_accepts_first<T: Node>(c: Cursor)
    ensures
        accepts_first(c, <Option<T>>::spec_parse(c)),
        <Option<T>>::spec_parse(c).0 is Ok && T::spec_peek(c) ==> c.consumed(
            <Option<T>>::spec_parse(c).1,
        ) >= 1,
{
    if T::spec_peek(c) {
        T::lemma_peek_sound(c);
        if T::spec_parse(c).0 is Ok {
            T::lemma_takes_a_token(c);
        }
    }
}

/// A list of nodes never fails over the token at the cursor, and it takes a
/// token where a node could start.
pub proof fn lemma_many_accepts_first<T: Node>(c: Cursor, done: Seq<T::V>)
    ensures
        accepts_first(c, spec_parse_many::<T>(c, done)),
        spec_parse_many::<T>(c, done).0 is Ok && T::spec_peek(c) ==> c.consumed(
            spec_parse_many::<T>(c, done).1,
        ) >= 1,
{
    if T::spec_peek(c) {
        T::lemma_peek_sound(c);
        T::lemma_parse_advances(c);
        match T::spec_parse(c) {
            (Ok(node), after) => {
                T::lemma_takes_a_token(c);
                lemma_parse_many_advances::<T>(after, done.push(node));
                lemma_advances_then(
                    c,
                    T::spec_parse(c),
                    spec_parse_many::<T>(after, done.push(node)),
                );
            },
            (Err(error), after) => {},
        }
    }
}

/// A node that goes on where a node before it stopped with success does not
/// reject the token at the cursor, if the node before did not and either took
/// a token or left a cursor at which the second node does not reject the
/// token.
pub proof fn lemma_accepts_first_then<V, W>(
    c: Cursor,
    first: (Result<V, Error>, Cursor),
    second: (Result<W, Error>, Cursor),
)
    requires
        advances(c, first),
        first.0 is Ok,
        advances(first.1, second),
        c.consumed(first.1) >= 1 || accepts_first(first.1, second),
    ensures
        accepts_first(c, second),
{
    lemma_advances_then(c, first, second);
}

/// Parsing nodes at `c` for as long as one could start, behind the nodes
/// `done` that were parsed before.
pub open spec fn spec_parse_many<T: Node>(c: Cursor, done: Seq<T::V>) -> (
    Result<Seq<T::V>, Error>,
    Cursor,
)
    decreases c.rest.len(),
{
    if T::spec_peek(c) {
        match T::spec_parse(c) {
            (Ok(node), after) => {
                proof {
                    T::lemma_takes_a_token(c);
                }
                spec_parse_many::<T>(after, done.push(node))
            },
            (Err(error), after) => (Err(error), after),
        }
    } else {
        (Ok(done), c)
    }
}

/// A list of nodes: one is parsed for as long as one could start.
impl<T: Node> Parse for Vec<T> {
    open spec fn spec_parse(c: Cursor) -> (Result<Seq<T::V>, Error>, Cursor) {
        spec_parse_many::<T>(c, Seq::empty())
    }

    fn parse(p: &mut Parser<'_>) -> (nodes: Result<Self, Error>) {
        let mut nodes: Vec<T> = Vec::new();
        assert(nodes.deep_view() =~= Seq::<T::V>::empty());
        while p.peek::<T>()
            invariant
                spec_parse_many::<T>(old(p)@, Seq::empty()) == spec_parse_many::<T>(
                    p@,
                    nodes.deep_view(),
                ),
            decreases p@.rest.len(),
        {
            let ghost before = p@;
            let ghost done = nodes.deep_view();
            let node = p.parse::<T>()?;
            proof {
                T::lemma_takes_a_token(before);
            }
            nodes.push(node);
            assert(nodes.deep_view() =~= done.push(node.deep_view()));
        }
        Ok(nodes)
    }

    proof fn lemma_parse_advances(c: Cursor) {
        lemma_parse_many_advances::<T>(c, Seq::empty());
    }
}

/// Parsing a list only moves forward.
pub proof fn lemma_parse_many_advances<T: Node>(c: Cursor, done: Seq<T::V>)
    ensures
        advances(c, spec_parse_many::<T>(c, done)),
    decreases c.rest.len(),
{
    if T::spec_peek(c) {
        T::lemma_parse_advances(c);
        match T::spec_parse(c) {
            (Ok(node), after) => {
                T::lemma_takes_a_token(c);
                lemma_parse_many_advances::<T>(after, done.push(node));
                lemma_advances_then(
                    c,
                    T::spec_parse(c),
                    spec_parse_many::<T>(after, done.push(node)),
                );
            },
            (Err(error), after) => {},
        }
    } else {
        lemma_advances_not(c, done);
    }
}

/// Resolution has one outcome: any two outcomes of resolving a node against
/// the same source texts and synthetic strings are the same value or the
/// same failure. Resolving reads its context through shared references, so
/// that a second call meets what the first one met.
pub proof fn lemma_resolve_repeats<'a, T: Resolve<'a>>(
    node: T,
    sources: Seq<Seq<char>>,
    storage: Seq<Seq<char>>,
    first: Result<T::Output, Error>,
    second: Result<T::Output, Error>,
)
    requires
        model(first) == node.spec_resolve(sources, storage),
        model(second) == node.spec_resolve(sources, storage),
    ensures
        model(first) == model(second),
{
}

/// Parsing a node at `c` and then demanding the end of the stream.
pub open spec fn spec_parse_all<T: Parse>(c: Cursor) -> Result<T::V, Error> {
    match T::spec_parse(c) {
        (Ok(node), after) => match after.eof() {
            Ok(_) => Ok(node),
            Err(error) => Err(error),
        },
        (Err(error), _) => Err(error),
    }
}

/// Parses the whole of `text`, the text of the source `source_id`, as one
/// node.
pub fn parse_all<T: Parse>(text: &str, source_id: SourceId) -> (node: Result<T, Error>)
    ensures
        model(node) == spec_parse_all::<T>(
            Cursor {
                rest: lex(source_id, text@),
                end: Span::spec_point(source_id, encode_utf8(text@).len() as usize),
            },
        ),
{
    let mut parser = Parser::new(text, source_id);
    let node = T::parse(&mut parser)?;
    parser.eof()?;
    Ok(node)
}

} // verus!

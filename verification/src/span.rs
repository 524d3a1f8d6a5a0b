//! Byte ranges of a source, each tagged with the source it indexes into.

use vstd::prelude::*;

verus! {

/// The identity of one source buffer.
#[derive(Clone, Copy, Debug, PartialEq, Eq, Structural)]
pub struct SourceId(pub usize);

/// A half-open range of bytes `start..end` in the source `source_id`.
#[derive(Clone, Copy, Debug, PartialEq, Eq, Structural)]
pub struct Span {
    pub source_id: SourceId,
    pub start: usize,
    pub end: usize,
}

impl Span {
    /// The invariant of a span: it does not end before it starts.
    pub open spec fn wf(self) -> bool {
        self.start <= self.end
    }

    /// The number of bytes that the span covers.
    pub open spec fn spec_len(self) -> int {
        self.end - self.start
    }

    /// Whether the byte range of `other` lies inside the byte range of `self`.
    pub open spec fn contains(self, other: Span) -> bool {
        self.start <= other.start && other.end <= self.end
    }

    /// The span `self` without its first `n` bytes.
    pub open spec fn spec_trim_start(self, n: usize) -> Span {
        Span { source_id: self.source_id, start: (self.start + n) as usize, end: self.end }
    }

    /// The span `self` without its last `n` bytes.
    pub open spec fn spec_trim_end(self, n: usize) -> Span {
        Span { source_id: self.source_id, start: self.start, end: (self.end - n) as usize }
    }

    /// The smallest range that covers both `self` and `other`, in the source of `self`.
    pub open spec fn spec_join(self, other: Span) -> Span {
        Span {
            source_id: self.source_id,
            start: if self.start <= other.start { self.start } else { other.start },
            end: if self.end >= other.end { self.end } else { other.end },
        }
    }

    /// The empty span at byte `at`.
    pub open spec fn spec_point(source_id: SourceId, at: usize) -> Span {
        Span { source_id, start: at, end: at }
    }

    /// The empty span where `self` ends.
    pub open spec fn spec_tail(self) -> Span {
        Span { source_id: self.source_id, start: self.end, end: self.end }
    }

    /// The span `start..end` of the source `source_id`.
    pub fn new(source_id: SourceId, start: usize, end: usize) -> (span: Span)
        requires
            start <= end,
        ensures
            span == (Span { source_id, start, end }),
            span.wf(),
    {
        Span { source_id, start, end }
    }

    /// The empty span at byte `at` of the source `source_id`.
    pub fn point(source_id: SourceId, at: usize) -> (span: Span)
        ensures
            span == Span::spec_point(source_id, at),
            span.wf(),
    {
        Span { source_id, start: at, end: at }
    }

    /// The empty span at the start of the source `source_id`.
    pub fn empty(source_id: SourceId) -> (span: Span)
        ensures
            span == Span::spec_point(source_id, 0),
            span.wf(),
    {
        Span { source_id, start: 0, end: 0 }
    }

    /// The number of bytes in the span.
    pub fn len(self) -> (n: usize)
        requires
            self.wf(),
        ensures
            n == self.spec_len(),
    {
        self.end - self.start
    }

    /// Whether the span covers no byte.
    pub fn is_empty(self) -> (b: bool)
        ensures
            b == (self.start == self.end),
    {
        self.start == self.end
    }

    /// Drops the first `n` bytes of the span, as when the sigil that
    /// introduces a label is stripped from its name.
    pub fn trim_start(self, n: usize) -> (span: Span)
        requires
            n <= self.spec_len(),
        ensures
            span == self.spec_trim_start(n),
            span.wf(),
            self.contains(span),
            span.spec_len() == self.spec_len() - n,
    {
        Span { source_id: self.source_id, start: self.start + n, end: self.end }
    }

    /// Drops the last `n` bytes of the span.
    pub fn trim_end(self, n: usize) -> (span: Span)
        requires
            n <= self.spec_len(),
        ensures
            span == self.spec_trim_end(n),
            span.wf(),
            self.contains(span),
            span.spec_len() == self.spec_len() - n,
    {
        Span { source_id: self.source_id, start: self.start, end: self.end - n }
    }

    /// The smallest span that covers both `self` and `other`. It keeps the
    /// source of `self`.
    pub fn join(self, other: Span) -> (span: Span)
        ensures
            span == self.spec_join(other),
            span.contains(self),
            span.contains(other),
            self.wf() || other.wf() ==> span.wf(),
    {
        Span {
            source_id: self.source_id,
            start: if self.start <= other.start { self.start } else { other.start },
            end: if self.end >= other.end { self.end } else { other.end },
        }
    }

    /// The empty span at the end of `self`.
    pub fn tail(self) -> (span: Span)
        ensures
            span == self.spec_tail(),
            span.wf(),
    {
        Span { source_id: self.source_id, start: self.end, end: self.end }
    }
}

/// A node that has a place in the source.
pub trait Spanned {
    /// The span of the node.
    spec fn spec_span(&self) -> Span;

    /// The span of the node.
    fn span(&self) -> (span: Span)
        ensures
            span == self.spec_span(),
    ;
}

/// A piece of a node that may be absent, and then has no place in the
/// source.
pub trait OptionSpanned {
    /// The span of the piece, where it is present.
    spec fn spec_option_span(&self) -> Option<Span>;

    /// The span of the piece, where it is present.
    fn option_span(&self) -> (span: Option<Span>)
        ensures
            span == self.spec_option_span(),
    ;
}

/// The join of the span `so_far` of the pieces before, if any was present,
/// and of `next`.
pub open spec fn spec_join_onto(so_far: Option<Span>, next: Span) -> Span {
    match so_far {
        Some(span) => span.spec_join(next),
        None => next,
    }
}

/// The join of the span `so_far` of the pieces before, if any was present,
/// and of the span `next` of a piece that may be absent.
pub open spec fn spec_join_option(so_far: Option<Span>, next: Option<Span>) -> Option<Span> {
    match next {
        Some(span) => Some(spec_join_onto(so_far, span)),
        None => so_far,
    }
}

/// The join of `spans`, from the first on; nothing where there is no span.
pub open spec fn spec_join_all(spans: Seq<Span>) -> Option<Span>
    decreases spans.len(),
{
    if spans.len() == 0 {
        None
    } else {
        Some(spec_join_onto(spec_join_all(spans.drop_last()), spans.last()))
    }
}

/// The join of the span `so_far` of the pieces before, if any was present,
/// and of `next`.
pub fn join_onto(so_far: Option<Span>, next: Span) -> (span: Span)
    ensures
        span == spec_join_onto(so_far, next),
{
    match so_far {
        Some(span) => span.join(next),
        None => next,
    }
}

/// The join of the span `so_far` of the pieces before, if any was present,
/// and of the span `next` of a piece that may be absent.
pub fn join_option(so_far: Option<Span>, next: Option<Span>) -> (span: Option<Span>)
    ensures
        span == spec_join_option(so_far, next),
{
    match next {
        Some(span) => Some(join_onto(so_far, span)),
        None => so_far,
    }
}

/// An optional node has the span of the node, where it is present.
impl<T: Spanned> OptionSpanned for Option<T> {
    open spec fn spec_option_span(&self) -> Option<Span> {
        match self {
            Some(node) => Some(node.spec_span()),
            None => None,
        }
    }

    fn option_span(&self) -> (span: Option<Span>) {
        match self {
            Some(node) => Some(node.span()),
            None => None,
        }
    }
}

/// A list of nodes has the join of the spans of its nodes, where it has a
/// node.
impl<T: Spanned> OptionSpanned for Vec<T> {
    open spec fn spec_option_span(&self) -> Option<Span> {
        spec_join_all(self@.map_values(|node: T| node.spec_span()))
    }

    fn option_span(&self) -> (span: Option<Span>) {
        let ghost spans = self@.map_values(|node: T| node.spec_span());
        let mut so_far: Option<Span> = None;
        let mut i: usize = 0;
        while i < self.len()
            invariant
                i <= self@.len(),
                spans == self@.map_values(|node: T| node.spec_span()),
                so_far == spec_join_all(spans.take(i as int)),
            decreases self@.len() - i,
        {
            let next = self[i].span();
            proof {
                assert(spans.take(i + 1).drop_last() =~= spans.take(i as int));
            }
            so_far = Some(join_onto(so_far, next));
            i += 1;
        }
        assert(spans.take(i as int) =~= spans);
        so_far
    }
}

/// Two nodes in a row have the join of their spans.
impl<A: Spanned, B: Spanned> Spanned for (A, B) {
    open spec fn spec_span(&self) -> Span {
        self.0.spec_span().spec_join(self.1.spec_span())
    }

    fn span(&self) -> (span: Span) {
        self.0.span().join(self.1.span())
    }
}

/// The join of a list of spans covers each of them.
pub proof fn lemma_join_all_contains(spans: Seq<Span>, i: int)
    requires
        0 <= i < spans.len(),
    ensures
        spec_join_all(spans) is Some,
        spec_join_all(spans)->Some_0.contains(spans[i]),
    decreases spans.len(),
{
    if i < spans.len() - 1 {
        lemma_join_all_contains(spans.drop_last(), i);
    }
}

/// A join covers no more than its two parts need: any span that covers both
/// parts covers their join.
pub proof fn lemma_join_is_least(a: Span, b: Span, cover: Span)
    requires
        cover.contains(a),
        cover.contains(b),
    ensures
        cover.contains(a.spec_join(b)),
{
}

} // verus!

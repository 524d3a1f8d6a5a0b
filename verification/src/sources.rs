//! The two providers that resolution reads: the source buffers and the
//! table of synthetic strings.

use vstd::prelude::*;
use vstd::string::StringSliceAdditionalSpecFns;
use vstd::utf8::{
    decode_utf8, encode_utf8, encode_utf8_decode_utf8, encode_utf8_valid_utf8, is_char_boundary,
    is_char_boundary_iff_not_is_continuation_byte, is_char_boundary_start_end_of_seq, valid_utf8,
    valid_utf8_split,
};
use crate::span::{SourceId, Span};
use crate::error::{Error, ErrorKind, SyntheticKind};
use crate::token::{LitSource, SyntheticId};

verus! {

/// The text that the bytes `start..end` of `text` spell, where both ends
/// fall between two characters of `text`; nothing otherwise.
pub open spec fn slice_text(text: Seq<char>, start: int, end: int) -> Option<Seq<char>> {
    let bytes = encode_utf8(text);
    if 0 <= start <= end <= bytes.len() && is_char_boundary(bytes, start) && is_char_boundary(
        bytes,
        end,
    ) {
        Some(decode_utf8(bytes.subrange(start, end)))
    } else {
        None
    }
}

/// The text that `span` addresses in the source `id` among `texts`: nothing
/// where there is no such source, where the span belongs to another source,
/// or where it does not address text of the source.
pub open spec fn text_at(texts: Seq<Seq<char>>, id: SourceId, span: Span) -> Option<Seq<char>> {
    if id.0 < texts.len() && span.source_id == id {
        slice_text(texts[id.0 as int], span.start as int, span.end as int)
    } else {
        None
    }
}

/// The synthetic string under `id` among `strings`, if there is one.
pub open spec fn string_at(strings: Seq<Seq<char>>, id: SyntheticId) -> Option<Seq<char>> {
    if id.0 < strings.len() {
        Some(strings[id.0 as int])
    } else {
        None
    }
}

/// The text of a literal or an identifier at `span` whose origin is
/// `source`: the text at the span in its source buffer, its synthetic string,
/// or the built-in constant. Where the lookup finds nothing, the failure is
/// at `span`, and a missing synthetic string is reported for a node of kind
/// `kind`.
pub open spec fn spec_text_of(
    span: Span,
    source: LitSource,
    kind: SyntheticKind,
    sources: Seq<Seq<char>>,
    storage: Seq<Seq<char>>,
) -> Result<Seq<char>, Error> {
    match source {
        LitSource::Text(source_id) => match text_at(sources, source_id, span) {
            Some(text) => Ok(text),
            None => Err(Error { span, kind: ErrorKind::BadSlice }),
        },
        LitSource::Synthetic(id) => match string_at(storage, id) {
            Some(text) => Ok(text),
            None => Err(Error { span, kind: ErrorKind::BadSyntheticId { kind, id } }),
        },
        LitSource::BuiltIn(builtin) => Ok(builtin.text()),
    }
}

/// A boundary between characters of a text is also one of each prefix of the
/// text that ends at such a boundary.
proof fn lemma_boundary_in_prefix(bytes: Seq<u8>, start: int, end: int)
    requires
        valid_utf8(bytes),
        0 <= start <= end <= bytes.len(),
        is_char_boundary(bytes, start),
        is_char_boundary(bytes, end),
    ensures
        valid_utf8(bytes.subrange(0, end)),
        is_char_boundary(bytes.subrange(0, end), start),
{
    valid_utf8_split(bytes, end);
    let head = bytes.subrange(0, end);
    if start == end {
        is_char_boundary_start_end_of_seq(head);
    } else {
        is_char_boundary_iff_not_is_continuation_byte(bytes, start);
        is_char_boundary_iff_not_is_continuation_byte(head, start);
    }
}

/// The part of `text` between the bytes `start` and `end`.
fn slice_str<'a>(text: &'a str, start: usize, end: usize) -> (part: Option<&'a str>)
    ensures
        match part {
            Some(t) => slice_text(text@, start as int, end as int) == Some(t@),
            None => slice_text(text@, start as int, end as int) is None,
        },
{
    if start > end || end > text.as_bytes().len() {
        return None;
    }
    if !text.is_char_boundary(start) || !text.is_char_boundary(end) {
        return None;
    }
    proof {
        encode_utf8_valid_utf8(text@);
        lemma_boundary_in_prefix(text.spec_bytes(), start as int, end as int);
    }
    let (head, _) = text.split_at(end);
    let (_, part) = head.split_at(start);
    proof {
        assert(part.spec_bytes() =~= text.spec_bytes().subrange(start as int, end as int));
        encode_utf8_decode_utf8(part@);
    }
    Some(part)
}

/// The source buffers of a compilation, each under its identity.
pub struct Sources {
    texts: Vec<String>,
}

impl View for Sources {
    type V = Seq<Seq<char>>;

    /// The texts of the sources; the source `SourceId(i)` is the `i`-th.
    closed spec fn view(&self) -> Seq<Seq<char>> {
        self.texts@.map_values(|text: String| text@)
    }
}

impl Sources {
    /// No sources.
    pub fn new() -> (sources: Sources)
        ensures
            sources@ == Seq::<Seq<char>>::empty(),
    {
        let sources = Sources { texts: Vec::new() };
        assert(sources@ =~= Seq::<Seq<char>>::empty());
        sources
    }

    /// Adds a source and gives its identity.
    pub fn insert(&mut self, text: &str) -> (id: SourceId)
        ensures
            final(self)@ == old(self)@.push(text@),
            id.0 == old(self)@.len(),
    {
        let id = SourceId(self.texts.len());
        self.texts.push(text.to_owned());
        assert(self@ =~= old(self)@.push(text@));
        id
    }

    /// The text that `span` addresses in the source `id`, if the source
    /// exists, the span is one of that source, and it addresses text of it.
    pub fn source(&self, id: SourceId, span: Span) -> (text: Option<&str>)
        ensures
            match text {
                Some(t) => text_at(self@, id, span) == Some(t@),
                None => text_at(self@, id, span) is None,
            },
    {
        if id.0 >= self.texts.len() || span.source_id.0 != id.0 {
            return None;
        }
        slice_str(self.texts[id.0].as_str(), span.start, span.end)
    }
}

/// The table of the strings that macro expansion made up, each under its
/// identity.
pub struct Storage {
    strings: Vec<String>,
}

impl View for Storage {
    type V = Seq<Seq<char>>;

    /// The strings of the table; the string `SyntheticId(i)` is the `i`-th.
    closed spec fn view(&self) -> Seq<Seq<char>> {
        self.strings@.map_values(|text: String| text@)
    }
}

impl Storage {
    /// An empty table.
    pub fn new() -> (storage: Storage)
        ensures
            storage@ == Seq::<Seq<char>>::empty(),
    {
        let storage = Storage { strings: Vec::new() };
        assert(storage@ =~= Seq::<Seq<char>>::empty());
        storage
    }

    /// Stores `text` under a fresh identity and gives that identity. The
    /// strings stored before keep theirs.
    pub fn insert_str(&mut self, text: &str) -> (id: SyntheticId)
        ensures
            final(self)@ == old(self)@.push(text@),
            id.0 == old(self)@.len(),
    {
        let id = SyntheticId(self.strings.len());
        self.strings.push(text.to_owned());
        assert(self@ =~= old(self)@.push(text@));
        id
    }

    /// The string under `id`, if the table has one.
    pub fn get_string(&self, id: SyntheticId) -> (text: Option<&str>)
        ensures
            match text {
                Some(t) => string_at(self@, id) == Some(t@),
                None => string_at(self@, id) is None,
            },
    {
        if id.0 < self.strings.len() {
            Some(self.strings[id.0].as_str())
        } else {
            None
        }
    }
}

/// What resolution reads. Both providers are only read: resolution changes
/// neither.
#[derive(Clone, Copy)]
pub struct ResolveContext<'a> {
    pub sources: &'a Sources,
    pub storage: &'a Storage,
}

impl<'a> ResolveContext<'a> {
    /// The text of a literal or an identifier at `span` whose origin is
    /// `source`. The one place where the three origins are told apart for a
    /// node whose text is all of its span.
    pub fn text_of(self, span: Span, source: LitSource, kind: SyntheticKind) -> (text: Result<
        &'a str,
        Error,
    >)
        ensures
            match text {
                Ok(t) => spec_text_of(span, source, kind, self.sources@, self.storage@) == Ok::<
                    Seq<char>,
                    Error,
                >(t@),
                Err(e) => spec_text_of(span, source, kind, self.sources@, self.storage@) == Err::<
                    Seq<char>,
                    Error,
                >(e),
            },
    {
        match source {
            LitSource::Text(source_id) => match self.sources.source(source_id, span) {
                Some(text) => Ok(text),
                None => Err(Error::new(span, ErrorKind::BadSlice)),
            },
            LitSource::Synthetic(id) => match self.storage.get_string(id) {
                Some(text) => Ok(text),
                None => Err(Error::new(span, ErrorKind::BadSyntheticId { kind, id })),
            },
            LitSource::BuiltIn(builtin) => Ok(builtin.as_str()),
        }
    }
}

} // verus!

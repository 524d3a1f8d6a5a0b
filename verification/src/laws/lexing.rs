//! What the lexer finds in a text can be resolved against that text.

use vstd::prelude::*;
use vstd::utf8::{
    decode_utf8, encode_utf8, encode_utf8_valid_utf8, is_char_boundary,
    is_char_boundary_iff_not_is_continuation_byte, length_of_first_scalar, pop_first_scalar,
    valid_utf8,
};
use crate::ast::ident::Ident;
use crate::ast::label::Label;
use crate::ast::lit_number::LitNumber;
use crate::error::Error;
use crate::lexer::{
    is_digit, is_word_start, lemma_run_end_bounds, lemma_token_end_bounds, lex, run_end, token_at,
    token_end, token_kind, tokens_from, Class, QUOTE,
};
use crate::parse::{Resolve, ToAst};
use crate::span::SourceId;

verus! {

/// Every byte of a run belongs to the class of the run.
pub proof fn lemma_run_holds(bytes: Seq<u8>, pos: int, class: Class, at: int)
    requires
        0 <= pos <= at < run_end(bytes, pos, class),
    ensures
        at < bytes.len(),
        class.holds(bytes[at]),
    decreases bytes.len() - pos,
{
    if pos < bytes.len() && class.holds(bytes[pos]) && at > pos {
        lemma_run_holds(bytes, pos + 1, class, at);
    }
}

/// A run that ends inside the text ends before a byte that is not of its
/// class.
pub proof fn lemma_run_stops(bytes: Seq<u8>, pos: int, class: Class)
    requires
        0 <= pos,
    ensures
        run_end(bytes, pos, class) < bytes.len() ==> !class.holds(
            bytes[run_end(bytes, pos, class)],
        ),
    decreases bytes.len() - pos,
{
    if pos < bytes.len() && class.holds(bytes[pos]) {
        lemma_run_stops(bytes, pos + 1, class);
    }
}

/// Each token of a text is the token that starts where its span starts; it
/// lies inside the text, behind the position from which the text was lexed,
/// and it is not empty.
pub proof fn lemma_token_lies_at_its_span(source_id: SourceId, bytes: Seq<u8>, pos: int, i: int)
    requires
        0 <= pos,
        bytes.len() <= usize::MAX,
        0 <= i < tokens_from(source_id, bytes, pos).len(),
    ensures
        ({
            let token = tokens_from(source_id, bytes, pos)[i];
            &&& token.span.source_id == source_id
            &&& pos <= token.span.start < token.span.end <= bytes.len()
            &&& token == token_at(source_id, bytes, token.span.start as int)
            &&& !Class::Whitespace.holds(bytes[token.span.start as int])
        }),
    decreases bytes.len() - pos,
{
    let start = run_end(bytes, pos, Class::Whitespace);
    let tokens = tokens_from(source_id, bytes, pos);
    let others = tokens_from(source_id, bytes, token_end(bytes, start));
    lemma_run_end_bounds(bytes, pos, Class::Whitespace);
    lemma_run_stops(bytes, pos, Class::Whitespace);
    lemma_token_end_bounds(bytes, start);
    assert(tokens == seq![token_at(source_id, bytes, start)] + others);
    if i > 0 {
        lemma_token_lies_at_its_span(source_id, bytes, token_end(bytes, start), i - 1);
        assert(tokens[i] == others[i - 1]);
    }
}

/// The tokens of a text stand in the order of the text and do not overlap:
/// a token ends before the next one starts.
pub proof fn lemma_tokens_in_order(
    source_id: SourceId,
    bytes: Seq<u8>,
    pos: int,
    i: int,
    j: int,
)
    requires
        0 <= pos,
        bytes.len() <= usize::MAX,
        0 <= i < j < tokens_from(source_id, bytes, pos).len(),
    ensures
        tokens_from(source_id, bytes, pos)[i].span.end <= tokens_from(
            source_id,
            bytes,
            pos,
        )[j].span.start,
    decreases bytes.len() - pos,
{
    let start = run_end(bytes, pos, Class::Whitespace);
    let tokens = tokens_from(source_id, bytes, pos);
    let others = tokens_from(source_id, bytes, token_end(bytes, start));
    lemma_run_end_bounds(bytes, pos, Class::Whitespace);
    lemma_token_end_bounds(bytes, start);
    assert(tokens == seq![token_at(source_id, bytes, start)] + others);
    assert(tokens[j] == others[j - 1]);
    if i == 0 {
        lemma_token_lies_at_its_span(source_id, bytes, token_end(bytes, start), j - 1);
    } else {
        assert(tokens[i] == others[i - 1]);
        lemma_tokens_in_order(source_id, bytes, token_end(bytes, start), i - 1, j - 1);
    }
}

/// Behind a byte of ASCII that starts a character, the next character
/// starts, or the text ends.
pub proof fn lemma_boundary_behind_ascii(bytes: Seq<u8>, at: int)
    requires
        valid_utf8(bytes),
        0 <= at < bytes.len(),
        is_char_boundary(bytes, at),
        bytes[at] <= 0x7f,
    ensures
        is_char_boundary(bytes, at + 1),
    decreases bytes.len(),
{
    reveal_with_fuel(is_char_boundary, 2);
    if at > 0 {
        let first = length_of_first_scalar(bytes);
        let others = pop_first_scalar(bytes);
        assert(others[at - first] == bytes[at]);
        lemma_boundary_behind_ascii(others, at - first);
    }
}

/// A stretch of a text that starts with a byte of ASCII and ends behind
/// one starts and ends between characters.
proof fn lemma_ascii_ends_are_boundaries(bytes: Seq<u8>, start: int, end: int)
    requires
        valid_utf8(bytes),
        0 <= start < end <= bytes.len(),
        bytes[start] <= 0x7f,
        bytes[end - 1] <= 0x7f,
    ensures
        is_char_boundary(bytes, start),
        is_char_boundary(bytes, end),
{
    is_char_boundary_iff_not_is_continuation_byte(bytes, start);
    is_char_boundary_iff_not_is_continuation_byte(bytes, end - 1);
    lemma_boundary_behind_ascii(bytes, end - 1);
}

/// Every label, identifier and number that the lexer finds in a text
/// resolves against that text: a label to the text behind its quote, an
/// identifier and a number to the text of their span.
pub proof fn lemma_lexed_text_resolves(
    source_id: SourceId,
    text: Seq<char>,
    sources: Seq<Seq<char>>,
    storage: Seq<Seq<char>>,
    i: int,
)
    requires
        source_id.0 < sources.len(),
        sources[source_id.0 as int] == text,
        encode_utf8(text).len() <= usize::MAX,
        0 <= i < lex(source_id, text).len(),
    ensures
        ({
            let token = lex(source_id, text)[i];
            let bytes = encode_utf8(text);
            let start = token.span.start as int;
            let end = token.span.end as int;
            &&& token.kind is Label ==> Label::from_token(token.span, token.kind).spec_resolve(
                sources,
                storage,
            ) == Ok::<Seq<char>, Error>(decode_utf8(bytes.subrange(start + 1, end)))
            &&& token.kind is Ident ==> Ident::from_token(token.span, token.kind).spec_resolve(
                sources,
                storage,
            ) == Ok::<Seq<char>, Error>(decode_utf8(bytes.subrange(start, end)))
            &&& token.kind is Number ==> LitNumber::from_token(
                token.span,
                token.kind,
            ).spec_resolve(sources, storage) == Ok::<Seq<char>, Error>(
                decode_utf8(bytes.subrange(start, end)),
            )
        }),
{
    let token = lex(source_id, text)[i];
    let bytes = encode_utf8(text);
    let start = token.span.start as int;
    let end = token.span.end as int;
    encode_utf8_valid_utf8(text);
    lemma_token_lies_at_its_span(source_id, bytes, 0, i);
    lemma_token_end_bounds(bytes, start);
    let first = bytes[start];
    assert(token.kind == token_kind(source_id, bytes, start));
    assert(end == token_end(bytes, start));
    if token.kind is Number {
        assert(is_digit(first) && !is_word_start(first) && first != QUOTE);
        if end - 1 > start {
            lemma_run_holds(bytes, start + 1, Class::Digit, end - 1);
        }
        lemma_ascii_ends_are_boundaries(bytes, start, end);
    } else if token.kind is Ident {
        assert(is_word_start(first));
        if end - 1 > start {
            lemma_run_holds(bytes, start + 1, Class::Word, end - 1);
        }
        lemma_ascii_ends_are_boundaries(bytes, start, end);
    } else if token.kind is Label {
        assert(first == QUOTE && !is_word_start(first));
        assert(end > start + 1);
        lemma_run_holds(bytes, start + 1, Class::Word, start + 1);
        lemma_run_holds(bytes, start + 1, Class::Word, end - 1);
        lemma_ascii_ends_are_boundaries(bytes, start + 1, end);
    }
}

} // verus!

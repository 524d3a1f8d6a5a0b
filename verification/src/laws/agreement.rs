//! Looking ahead and parsing agree.

use vstd::prelude::*;
use crate::error::ErrorKind;
use crate::parse::Node;
use crate::parser::Cursor;

verus! {

/// Where a node could start, parsing it does not fail over the token at the
/// cursor: a failure over a token of the wrong kind names a token that
/// stands behind the cursor, the last one that the parser took, and carries
/// the span of that token. This holds of every node that can be both tested
/// for and parsed.
pub proof fn lemma_peek_then_parse<T: Node>(c: Cursor)
    requires
        T::spec_peek(c),
    ensures
        match T::spec_parse(c) {
            (Err(error), after) => match error.kind {
                ErrorKind::ExpectedButFound { found, .. } => {
                    let at = c.consumed(after) - 1;
                    &&& 1 <= at < c.rest.len()
                    &&& found == c.rest[at]
                    &&& error.span == found.span
                    &&& after == c.advance(at + 1)
                },
                _ => true,
            },
            (Ok(_), after) => c.consumed(after) >= 1,
        },
{
    T::lemma_peek_sound(c);
    T::lemma_parse_advances(c);
    if T::spec_parse(c).0 is Ok {
        T::lemma_takes_a_token(c);
    }
}

} // verus!

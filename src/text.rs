//! Text tokens held in fixed-length, NUL-terminated byte buffers.
use vstd::prelude::*;
use vstd::utf8::{decode_utf8, valid_utf8};

verus! {

/// The number of bytes before the first NUL of `b`, or its length if it has
/// none.
pub open spec fn text_len(b: Seq<u8>) -> nat
    decreases b.len(),
{
    if b.len() == 0 {
        0
    } else if b[0] == 0 {
        0
    } else {
        1 + text_len(b.drop_first())
    }
}

/// The text that a buffer holds: the bytes before its first NUL, decoded as
/// UTF-8, or `None` where they are not valid UTF-8.
pub open spec fn token_of(b: Seq<u8>) -> Option<Seq<char>> {
    let text = b.take(text_len(b) as int);
    if valid_utf8(text) {
        Some(decode_utf8(text))
    } else {
        None
    }
}

pub(crate) proof fn lemma_text_len(b: Seq<u8>, n: int)
    requires
        0 <= n <= b.len(),
        forall|j: int| 0 <= j < n ==> b[j] != 0,
        n == b.len() || b[n] == 0,
    ensures
        text_len(b) == n,
    decreases n,
{
    if n > 0 {
        assert forall|j: int| 0 <= j < n - 1 implies b.drop_first()[j] != 0 by {
            assert(b.drop_first()[j] == b[j + 1]);
        }
        lemma_text_len(b.drop_first(), n - 1);
    }
}

/// Relies on std::str::from_utf8: `Ok` exactly for valid UTF-8, holding the
/// characters that the bytes encode.
#[verifier::external_body]
pub(crate) fn decode_text<'a>(bytes: &'a [u8]) -> (r: Option<&'a str>)
    ensures
        r is Some <==> valid_utf8(bytes@),
        r matches Some(s) ==> s@ == decode_utf8(bytes@),
{
    std::str::from_utf8(bytes).ok()
}

} // verus!

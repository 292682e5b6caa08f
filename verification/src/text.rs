//! Text as characters and as the bytes of its UTF-8 encoding.

use vstd::prelude::*;
use vstd::utf8::{encode_utf8, valid_utf8};

verus! {

/// A text has at most as many characters as its UTF-8 encoding has bytes.
pub proof fn lemma_chars_fit_in_bytes(t: Seq<char>)
    ensures
        t.len() <= encode_utf8(t).len(),
    decreases t.len(),
{
    if t.len() > 0 {
        lemma_chars_fit_in_bytes(t.drop_first());
    }
}

/// A bound on the number of characters of `text` that costs no pass over
/// it: its length in bytes.
pub(crate) fn char_count_bound(text: &str) -> (bound: usize)
    ensures
        text@.len() <= bound,
{
    proof {
        lemma_chars_fit_in_bytes(text@);
    }
    text.as_bytes().len()
}

/// `String::from_utf8`, which checks that the bytes are valid UTF-8 and then
/// takes them over as they are. Believed of it: it returns a string exactly
/// when the bytes are valid UTF-8, and the string's encoding is those bytes.
#[verifier::external_body]
pub(crate) fn string_from_utf8(bytes: Vec<u8>) -> (text: Option<String>)
    ensures
        text is Some <==> valid_utf8(bytes@),
        text matches Some(s) ==> encode_utf8(s@) == bytes@,
{
    match String::from_utf8(bytes) {
        Ok(s) => Some(s),
        Err(_) => None,
    }
}

} // verus!

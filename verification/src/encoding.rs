//! The size of text in bytes.
//!
//! Text is modelled as a sequence of `char`s; what is handed to another
//! process is its UTF-8 encoding. Sizes are therefore counted on the encoding,
//! never on the characters.

use vstd::prelude::*;
use vstd::utf8::{encode_scalar, encode_utf8};

verus! {

/// Number of bytes that `text` occupies once encoded as UTF-8.
pub open spec fn byte_length(text: Seq<char>) -> nat {
    encode_utf8(text).len()
}

/// Every character is encoded in one to four bytes.
pub proof fn lemma_scalar_width(c: char)
    ensures
        1 <= encode_scalar(c as u32).len() <= 4,
{
}

/// The encoding of a concatenation is the concatenation of the encodings.
pub proof fn lemma_encode_concat(a: Seq<char>, b: Seq<char>)
    ensures
        encode_utf8(a + b) == encode_utf8(a) + encode_utf8(b),
    decreases a.len(),
{
    if a.len() == 0 {
        assert(a + b =~= b);
        assert(encode_utf8(a) + encode_utf8(b) =~= encode_utf8(b));
    } else {
        assert((a + b).drop_first() =~= a.drop_first() + b);
        lemma_encode_concat(a.drop_first(), b);
        assert(encode_utf8(a + b) =~= encode_utf8(a) + encode_utf8(b));
    }
}

/// Byte lengths add up under concatenation.
pub proof fn lemma_byte_length_concat(a: Seq<char>, b: Seq<char>)
    ensures
        byte_length(a + b) == byte_length(a) + byte_length(b),
{
    lemma_encode_concat(a, b);
}

/// A text takes at least one byte per character and at most four.
pub proof fn lemma_byte_length_bounds(text: Seq<char>)
    ensures
        text.len() <= byte_length(text) <= 4 * text.len(),
    decreases text.len(),
{
    if text.len() > 0 {
        lemma_scalar_width(text[0]);
        lemma_byte_length_bounds(text.drop_first());
    }
}

/// A text whose characters are all below U+0080 takes exactly one byte per
/// character; any other text takes more bytes than it has characters.
pub proof fn lemma_byte_length_exceeds_chars(text: Seq<char>)
    ensures
        byte_length(text) == text.len() <==> forall|i: int|
            0 <= i < text.len() ==> (#[trigger] text[i] as u32) < 0x80,
    decreases text.len(),
{
    if text.len() > 0 {
        let rest = text.drop_first();
        lemma_scalar_width(text[0]);
        lemma_byte_length_bounds(rest);
        lemma_byte_length_exceeds_chars(rest);
        if byte_length(text) == text.len() {
            assert forall|i: int| 0 <= i < text.len() implies (#[trigger] text[i] as u32)
                < 0x80 by {
                if i > 0 {
                    assert(text[i] == rest[i - 1]);
                }
            }
        } else if (text[0] as u32) < 0x80 {
            let k: int = choose|k: int| 0 <= k < rest.len() && !((#[trigger] rest[k] as u32) < 0x80);
            assert(text[k + 1] == rest[k]);
        }
    }
}

} // verus!

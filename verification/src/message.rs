//! Text as a C caller reads it: UTF-8 bytes closed by a nul byte.

use vstd::prelude::*;
use vstd::utf8::{
    decode_utf8, encode_scalar, encode_utf8, encode_utf8_decode_utf8, has_width_1_encoding,
    has_width_2_encoding, has_width_3_encoding, char_is_scalar,
};

verus! {

/// The bytes of a C string that holds `text`: its UTF-8 encoding and one
/// closing nul byte.
pub open spec fn nul_terminated(text: Seq<char>) -> Seq<u8> {
    encode_utf8(text).push(0u8)
}

/// Copies `text` into a buffer of its own, closed by a nul byte.
pub fn c_string(text: &str) -> (bytes: Vec<u8>)
    ensures
        bytes@ == nul_terminated(text@),
{
    let mut bytes = text.as_bytes_vec();
    bytes.push(0u8);
    bytes
}

/// Every character takes at least one byte, and no byte of a character other
/// than NUL is zero.
proof fn scalar_bytes(c: char)
    ensures
        encode_scalar(c as u32).len() >= 1,
        c != '\0' ==> forall|i: int|
            0 <= i < encode_scalar(c as u32).len() ==> #[trigger] encode_scalar(c as u32)[i] != 0,
{
    let s = c as u32;
    char_is_scalar(c);
    if c != '\0' {
        assert(s != 0);
        if has_width_1_encoding(s) {
            assert((s & 0x7F) as u8 != 0) by (bit_vector)
                requires
                    s != 0,
                    s <= 0x7F,
            ;
        } else if has_width_2_encoding(s) {
            assert(0xC0 | ((s >> 6) & 0x1F) as u8 != 0) by (bit_vector);
            assert(0x80 | (s & 0x3F) as u8 != 0) by (bit_vector);
        } else if has_width_3_encoding(s) {
            assert(0xE0 | ((s >> 12) & 0x0F) as u8 != 0) by (bit_vector);
            assert(0x80 | ((s >> 6) & 0x3F) as u8 != 0) by (bit_vector);
            assert(0x80 | (s & 0x3F) as u8 != 0) by (bit_vector);
        } else {
            assert(0xF0 | ((s >> 18) & 0x7) as u8 != 0) by (bit_vector);
            assert(0x80 | ((s >> 12) & 0x3F) as u8 != 0) by (bit_vector);
            assert(0x80 | ((s >> 6) & 0x3F) as u8 != 0) by (bit_vector);
            assert(0x80 | (s & 0x3F) as u8 != 0) by (bit_vector);
        }
    }
}

/// The encoding of a text is at least as long as the text.
proof fn encoding_length(text: Seq<char>)
    ensures
        encode_utf8(text).len() >= text.len(),
    decreases text.len(),
{
    if text.len() > 0 {
        scalar_bytes(text[0]);
        encoding_length(text.drop_first());
    }
}

/// The encoding of a text without a NUL character holds no zero byte.
proof fn encoding_without_nul(text: Seq<char>)
    requires
        forall|i: int| 0 <= i < text.len() ==> text[i] != '\0',
    ensures
        forall|j: int| 0 <= j < encode_utf8(text).len() ==> encode_utf8(text)[j] != 0,
    decreases text.len(),
{
    if text.len() > 0 {
        let head = encode_scalar(text[0] as u32);
        let tail = text.drop_first();
        scalar_bytes(text[0]);
        assert forall|i: int| 0 <= i < tail.len() implies tail[i] != '\0' by {
            assert(tail[i] == text[i + 1]);
        }
        encoding_without_nul(tail);
        assert forall|j: int| 0 <= j < encode_utf8(text).len() implies encode_utf8(text)[j]
            != 0 by {
            if j < head.len() {
                assert(encode_utf8(text)[j] == head[j]);
            } else {
                assert(encode_utf8(text)[j] == encode_utf8(tail)[j - head.len()]);
            }
        }
    }
}

/// The shape of a message: the encoded text, then the terminator as its last
/// byte. The message is never empty, and it is longer than its terminator
/// exactly when the text is not empty.
pub proof fn message_shape(text: Seq<char>)
    ensures
        nul_terminated(text).len() == encode_utf8(text).len() + 1,
        nul_terminated(text).last() == 0,
        nul_terminated(text).drop_last() == encode_utf8(text),
        nul_terminated(text).len() > 1 <==> text.len() > 0,
{
    encoding_length(text);
    assert(nul_terminated(text).drop_last() =~= encode_utf8(text));
}

/// A message gives its text back: the bytes before the terminator decode to
/// the text that was put in.
pub proof fn message_reads_back(text: Seq<char>)
    ensures
        decode_utf8(nul_terminated(text).drop_last()) == text,
{
    message_shape(text);
    encode_utf8_decode_utf8(text);
}

/// A text without a NUL character reaches a C reader whole: the terminator is
/// the only zero byte of its message.
pub proof fn message_ends_at_terminator(text: Seq<char>)
    requires
        forall|i: int| 0 <= i < text.len() ==> text[i] != '\0',
    ensures
        forall|j: int|
            0 <= j < nul_terminated(text).len() ==> (nul_terminated(text)[j] == 0 <==> j
                == nul_terminated(text).len() - 1),
{
    encoding_without_nul(text);
}

} // verus!

//! Cutting text that is written in UTF-8 next to its ASCII bytes.
//!
//! The links of documentation are found by their brackets, which are ASCII.
//! A piece of text that starts and ends beside an ASCII byte is text again.
use vstd::prelude::*;
use vstd::utf8::{
    encode_utf8, encode_utf8_valid_utf8, is_ascii_chars, is_ascii_chars_encode_utf8,
    is_char_boundary, is_char_boundary_iff_not_is_continuation_byte,
    is_char_boundary_start_end_of_seq, is_continuation_byte, length_of_first_scalar,
    pop_first_scalar, valid_first_scalar, valid_utf8, valid_utf8_concat, valid_utf8_split,
};

verus! {

/// Whether a byte is ASCII.
pub open spec fn is_ascii_byte(b: u8) -> bool {
    b <= 0x7f
}

/// Whether a place in the text is an end of the text or has an ASCII byte
/// before or behind it.
pub open spec fn beside_ascii(bytes: Seq<u8>, p: int) -> bool {
    &&& 0 <= p <= bytes.len()
    &&& (p == 0 || p == bytes.len() || is_ascii_byte(bytes[p]) || is_ascii_byte(bytes[p - 1]))
}

/// No character of a text is written across a place beside an ASCII byte.
pub proof fn lemma_beside_ascii_is_boundary(bytes: Seq<u8>, p: int)
    requires
        valid_utf8(bytes),
        beside_ascii(bytes, p),
    ensures
        is_char_boundary(bytes, p),
{
    let len = bytes.len() as int;
    if p == 0 || p == len {
        is_char_boundary_start_end_of_seq(bytes);
    } else if is_ascii_byte(bytes[p]) {
        is_char_boundary_iff_not_is_continuation_byte(bytes, p);
    } else {
        is_char_boundary_iff_not_is_continuation_byte(bytes, p - 1);
        valid_utf8_split(bytes, p - 1);
        let s = bytes.subrange(p - 1, len);
        assert(s[0] == bytes[p - 1]);
        assert(valid_first_scalar(s) && valid_utf8(pop_first_scalar(s)));
        assert(length_of_first_scalar(s) == 1);
        let t = pop_first_scalar(s);
        assert(t =~= bytes.subrange(p, len));
        assert(t[0] == bytes[p]);
        assert(valid_first_scalar(t));
        assert(!is_continuation_byte(t[0]));
        is_char_boundary_iff_not_is_continuation_byte(bytes, p);
    }
}

/// The piece of a text between two places beside ASCII bytes is text.
pub proof fn lemma_piece_is_text(bytes: Seq<u8>, p: int, q: int)
    requires
        valid_utf8(bytes),
        p <= q,
        beside_ascii(bytes, p),
        beside_ascii(bytes, q),
    ensures
        valid_utf8(bytes.subrange(p, q)),
{
    lemma_beside_ascii_is_boundary(bytes, p);
    lemma_beside_ascii_is_boundary(bytes, q);
    valid_utf8_split(bytes, q);
    let prefix = bytes.subrange(0, q);
    if p == q || p == 0 {
        is_char_boundary_start_end_of_seq(prefix);
    } else {
        is_char_boundary_iff_not_is_continuation_byte(bytes, p);
        assert(prefix[p] == bytes[p]);
        is_char_boundary_iff_not_is_continuation_byte(prefix, p);
    }
    valid_utf8_split(prefix, p);
    assert(prefix.subrange(p, q) =~= bytes.subrange(p, q));
}

/// A text of ASCII characters is written with one byte for each character.
pub proof fn lemma_ascii_text(chars: Seq<char>)
    requires
        is_ascii_chars(chars),
    ensures
        valid_utf8(Seq::new(chars.len(), |i: int| chars[i] as u8)),
        encode_utf8(chars) == Seq::new(chars.len(), |i: int| chars[i] as u8),
{
    is_ascii_chars_encode_utf8(chars);
    encode_utf8_valid_utf8(chars);
    assert(encode_utf8(chars) =~= Seq::new(chars.len(), |i: int| chars[i] as u8));
}

/// Three texts one after the other are a text.
pub proof fn lemma_three_texts(a: Seq<u8>, b: Seq<u8>, c: Seq<u8>)
    requires
        valid_utf8(a),
        valid_utf8(b),
        valid_utf8(c),
    ensures
        valid_utf8(a + b + c),
{
    valid_utf8_concat(a, b);
    valid_utf8_concat(a + b, c);
}

} // verus!

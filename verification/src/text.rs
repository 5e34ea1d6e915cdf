//! Text over the byte convention: UTF-8 encoding on the way in, lossy
//! decoding on the way out, and the proof that a text whose encoding does
//! not end in a zero byte survives the trailing-zero trimming unchanged.

use vstd::prelude::*;
use vstd::utf8::{
    char_is_scalar,
    char_u32_cast,
    decode_utf8,
    encode_scalar,
    encode_utf8,
    encode_utf8_decode_utf8,
    encode_utf8_valid_utf8,
    has_width_1_encoding,
    is_scalar,
    last_continuation_byte,
    leading_byte_width_1,
    valid_utf8,
};
use crate::region::{lemma_fresh_region_reads_empty, lemma_write_then_read, trim_spec, zero_padded};

verus! {

/// True of the zero character: the one Unicode scalar whose UTF-8 encoding
/// is a single zero byte.
pub open spec fn is_zero_char(c: char) -> bool {
    c as u32 == 0
}

/// Names the character sequence `String::from_utf8_lossy` yields for a byte
/// sequence; it depends on the bytes alone.
pub uninterp spec fn utf8_lossy_of(bytes: Seq<u8>) -> Seq<char>;

/// Relies on `String::from_utf8_lossy`: invalid sequences are replaced with
/// the replacement character, and valid UTF-8 is decoded unchanged.
#[verifier::external_body]
pub(crate) fn decode_lossy(bytes: &[u8]) -> (out: String)
    ensures
        out@ == utf8_lossy_of(bytes@),
        valid_utf8(bytes@) ==> out@ == decode_utf8(bytes@),
{
    String::from_utf8_lossy(bytes).to_string()
}

/// The UTF-8 encoding of a non-zero scalar never ends in a zero byte: a
/// one-byte encoding is the scalar itself, and every continuation byte has
/// its high bit set.
proof fn lemma_encode_scalar_last_nonzero(scalar: u32)
    requires
        is_scalar(scalar),
        scalar != 0,
    ensures
        encode_scalar(scalar).len() > 0,
        encode_scalar(scalar).last() != 0,
{
    if has_width_1_encoding(scalar) {
        assert(encode_scalar(scalar).last() == leading_byte_width_1(scalar));
        assert((scalar & 0x7F) as u8 != 0) by (bit_vector)
            requires
                scalar != 0 && scalar <= 0x7F,
        ;
    } else {
        assert(encode_scalar(scalar).last() == last_continuation_byte(scalar));
        assert((0x80 | (scalar & 0x3F) as u8) != 0) by (bit_vector);
    }
}

/// The UTF-8 encoding of a text whose last character is not the zero
/// character is non-empty and does not end in a zero byte.
pub proof fn lemma_encode_last_nonzero(s: Seq<char>)
    requires
        s.len() > 0,
        !is_zero_char(s.last()),
    ensures
        encode_utf8(s).len() > 0,
        encode_utf8(s).last() != 0,
    decreases s.len(),
{
    char_is_scalar(s[0]);
    let head = encode_scalar(s[0] as u32);
    let tail = encode_utf8(s.drop_first());
    assert(encode_utf8(s) == head + tail);
    assert(head.len() > 0);
    if s.len() == 1 {
        assert(s[0] == s.last());
        assert(s[0] as u32 != 0) by {
            if s[0] as u32 == 0 {
                char_u32_cast(s[0], s[0] as u32);
                assert(is_zero_char(s.last()));
            }
        }
        lemma_encode_scalar_last_nonzero(s[0] as u32);
        assert(tail =~= Seq::<u8>::empty());
        assert((head + tail) =~= head);
    } else {
        assert(s.drop_first().last() == s.last());
        lemma_encode_last_nonzero(s.drop_first());
        assert((head + tail).last() == tail.last());
    }
}

/// Law: a text whose UTF-8 encoding fits in the region and whose last
/// character is not the zero character is returned exactly by a read after
/// a write — the stored region trims back to the encoding, which is valid
/// UTF-8 and decodes to the original text.
pub proof fn lemma_text_round_trip(s: Seq<char>, capacity: nat)
    ensures
        (encode_utf8(s).len() <= capacity && (s.len() == 0 || !is_zero_char(s.last()))) ==> ({
            let stored = zero_padded(encode_utf8(s), capacity);
            &&& trim_spec(stored) == encode_utf8(s)
            &&& valid_utf8(trim_spec(stored))
            &&& decode_utf8(trim_spec(stored)) == s
        }),
{
    if encode_utf8(s).len() <= capacity && (s.len() == 0 || !is_zero_char(s.last())) {
        let bytes = encode_utf8(s);
        if s.len() == 0 {
            assert(bytes =~= Seq::<u8>::empty());
            lemma_fresh_region_reads_empty(capacity);
        } else {
            lemma_encode_last_nonzero(s);
            lemma_write_then_read(bytes, capacity);
        }
        encode_utf8_valid_utf8(s);
        encode_utf8_decode_utf8(s);
    }
}

} // verus!

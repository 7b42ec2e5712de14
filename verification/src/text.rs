//! Text on its way through the engine's C interface: written as the UTF-8
//! bytes of a C string, read back from a buffer up to the terminator.

use crate::cstr::{c_str_bytes, c_str_len, c_str_length, ends_at, with_nul, NUL};
use crate::cstr::{lemma_c_str_len_ends, lemma_ends_at_is_len};
use vstd::prelude::*;
use vstd::slice::slice_subrange;
use vstd::utf8::*;

verus! {

/// The number of characters of `text` before its first NUL character, or all
/// of them where it holds none.
pub open spec fn text_len(text: Seq<char>) -> nat
    decreases text.len(),
{
    if text.len() == 0 || text[0] == '\0' {
        0
    } else {
        1 + text_len(text.drop_first())
    }
}

/// `text` as far as its first NUL character: what a C string can carry of it.
pub open spec fn text_before_nul(text: Seq<char>) -> Seq<char> {
    text.take(text_len(text) as int)
}

/// What `String::from_utf8_lossy` makes of bytes that are not valid UTF-8.
pub uninterp spec fn lossy_text(bytes: Seq<u8>) -> Seq<char>;

/// The text that `bytes` stand for: what they decode to where they are valid
/// UTF-8, and the lossy reading of them where they are not.
pub open spec fn text_of(bytes: Seq<u8>) -> Seq<char> {
    if valid_utf8(bytes) {
        decode_utf8(bytes)
    } else {
        lossy_text(bytes)
    }
}

/// `String::from_utf8_lossy`, with the result taken as an owned string.
/// Trusted: valid UTF-8 comes back as the text it encodes, as the standard
/// library documents; of other bytes only that the result depends on them
/// alone.
#[verifier::external_body]
fn string_from_utf8_lossy(bytes: &[u8]) -> (s: String)
    ensures
        valid_utf8(bytes@) ==> s@ == decode_utf8(bytes@),
        !valid_utf8(bytes@) ==> s@ == lossy_text(bytes@),
{
    String::from_utf8_lossy(bytes).into_owned()
}

/// Copies the C string held in `buf` into an owned string. Reading stops at
/// the first zero byte, or at the end of `buf` where it holds none.
pub fn copy_c_str(buf: &[u8]) -> (s: String)
    ensures
        s@ == text_of(c_str_bytes(buf@)),
{
    let n = c_str_length(buf);
    string_from_utf8_lossy(slice_subrange(buf, 0, n))
}

proof fn lemma_marked_byte_is_not_nul(x: u8)
    by (bit_vector)
    ensures
        0x80u8 | x != 0,
        0xC0u8 | x != 0,
        0xE0u8 | x != 0,
        0xF0u8 | x != 0,
{
}

proof fn lemma_single_byte_is_nul(scalar: u32)
    by (bit_vector)
    requires
        scalar <= 0x7F,
    ensures
        (scalar & 0x7F) as u8 == 0 <==> scalar == 0,
{
}

/// Only the NUL character has the scalar value zero.
proof fn lemma_nul_char(c: char)
    ensures
        c as u32 == 0 <==> c == '\0',
{
    char_u32_cast(c, c as u32);
    char_u32_cast('\0', 0u32);
}

/// No more characters come before the first NUL character than the text has.
pub proof fn lemma_text_len_bound(text: Seq<char>)
    ensures
        text_len(text) <= text.len(),
    decreases text.len(),
{
    if text.len() == 0 || text[0] == '\0' {
    } else {
        lemma_text_len_bound(text.drop_first());
    }
}

/// The encoding of a scalar holds a zero byte only where the scalar is zero,
/// and is then that one byte.
proof fn lemma_encode_scalar_nul(scalar: u32)
    requires
        is_scalar(scalar),
    ensures
        1 <= encode_scalar(scalar).len() <= 4,
        scalar == 0 ==> encode_scalar(scalar) == seq![NUL],
        scalar != 0 ==> !encode_scalar(scalar).contains(NUL),
{
    let s = encode_scalar(scalar);
    if has_width_1_encoding(scalar) {
        lemma_single_byte_is_nul(scalar);
        if scalar == 0 {
            assert(s =~= seq![NUL]);
        } else {
            assert(s[0] != NUL);
        }
    } else {
        lemma_marked_byte_is_not_nul((scalar & 0x3F) as u8);
        lemma_marked_byte_is_not_nul(((scalar >> 6) & 0x3F) as u8);
        lemma_marked_byte_is_not_nul(((scalar >> 12) & 0x3F) as u8);
        lemma_marked_byte_is_not_nul(((scalar >> 6) & 0x1F) as u8);
        lemma_marked_byte_is_not_nul(((scalar >> 12) & 0x0F) as u8);
        lemma_marked_byte_is_not_nul(((scalar >> 18) & 0x7) as u8);
        assert forall|i: int| 0 <= i < s.len() implies s[i] != NUL by {}
    }
}

/// The UTF-8 bytes of a text hold a zero byte exactly where the text holds a
/// NUL character.
pub proof fn lemma_encode_utf8_nul(text: Seq<char>)
    ensures
        encode_utf8(text).contains(NUL) <==> text.contains('\0'),
    decreases text.len(),
{
    if text.len() == 0 {
    } else {
        let head = encode_scalar(text[0] as u32);
        let rest = text.drop_first();
        let tail = encode_utf8(rest);
        let bytes = encode_utf8(text);
        char_is_scalar(text[0]);
        lemma_nul_char(text[0]);
        lemma_encode_scalar_nul(text[0] as u32);
        lemma_encode_utf8_nul(rest);
        if text.contains('\0') {
            let i = choose|i: int| 0 <= i < text.len() && text[i] == '\0';
            if i == 0 {
                assert(bytes[0] == head[0]);
            } else {
                assert(rest[i - 1] == '\0');
                let j = choose|j: int| 0 <= j < tail.len() && tail[j] == NUL;
                assert(bytes[head.len() + j] == tail[j]);
            }
        }
        if bytes.contains(NUL) {
            let j = choose|j: int| 0 <= j < bytes.len() && bytes[j] == NUL;
            if j < head.len() {
                assert(head[j] == NUL);
                assert(head.contains(NUL));
                assert(text[0] == '\0');
            } else {
                assert(tail[j - head.len()] == NUL);
                let i = choose|i: int| 0 <= i < rest.len() && rest[i] == '\0';
                assert(text[i + 1] == '\0');
            }
        }
    }
}

/// A buffer that begins with the C string of a text holds, up to its first
/// zero byte, the UTF-8 bytes of that text as far as its first NUL
/// character.
pub proof fn lemma_c_str_of_text(text: Seq<char>, buf: Seq<u8>)
    requires
        with_nul(encode_utf8(text)).is_prefix_of(buf),
    ensures
        c_str_bytes(buf) == encode_utf8(text_before_nul(text)),
    decreases text.len(),
{
    let bytes = encode_utf8(text);
    assert(forall|i: int| 0 <= i < bytes.len() ==> buf[i] == with_nul(bytes)[i]);
    assert(buf[bytes.len() as int] == with_nul(bytes)[bytes.len() as int]);
    if text.len() == 0 || text[0] == '\0' {
        if text.len() != 0 {
            char_is_scalar(text[0]);
            lemma_nul_char(text[0]);
            lemma_encode_scalar_nul(text[0] as u32);
            assert(bytes[0] == encode_scalar(text[0] as u32)[0]);
        }
        assert(buf[0] == NUL);
        assert(text_before_nul(text) =~= Seq::<char>::empty());
        assert(c_str_bytes(buf) =~= Seq::<u8>::empty());
    } else {
        let head = encode_scalar(text[0] as u32);
        let m = head.len() as int;
        let rest = text.drop_first();
        let tail = encode_utf8(rest);
        let after = buf.skip(m);
        char_is_scalar(text[0]);
        lemma_nul_char(text[0]);
        lemma_encode_scalar_nul(text[0] as u32);
        lemma_text_len_bound(rest);
        assert(with_nul(tail).is_prefix_of(after)) by {
            assert forall|j: int| 0 <= j < with_nul(tail).len() implies after[j] == with_nul(
                tail,
            )[j] by {
                assert(after[j] == buf[m + j]);
                assert(with_nul(bytes)[m + j] == with_nul(tail)[j]);
            }
            assert(with_nul(tail) =~= after.subrange(0, with_nul(tail).len() as int));
        }
        lemma_c_str_of_text(rest, after);
        lemma_c_str_len_ends(after);
        let n = c_str_len(after) as int;
        assert(ends_at(buf, m + n)) by {
            assert forall|i: int| 0 <= i < m + n implies buf[i] != NUL by {
                if i < m {
                    assert(buf[i] == head[i]);
                } else {
                    assert(buf[i] == after[i - m]);
                }
            }
            if m + n < buf.len() {
                assert(buf[m + n] == after[n]);
            }
        }
        lemma_ends_at_is_len(buf, m + n);
        let kept = text_before_nul(text);
        assert(kept.drop_first() =~= text_before_nul(rest));
        assert(kept[0] == text[0]);
        assert(c_str_bytes(buf) =~= head + c_str_bytes(after)) by {
            assert forall|i: int| 0 <= i < m + n implies c_str_bytes(buf)[i] == (head
                + c_str_bytes(after))[i] by {
                if i < m {
                    assert(buf[i] == head[i]);
                } else {
                    assert(buf[i] == after[i - m]);
                }
            }
        }
    }
}

/// Text that was written into a buffer as a C string reads back unchanged as
/// far as its first NUL character; text without one reads back whole.
pub proof fn lemma_text_round_trip(text: Seq<char>, buf: Seq<u8>)
    requires
        with_nul(encode_utf8(text)).is_prefix_of(buf),
    ensures
        text_of(c_str_bytes(buf)) == text_before_nul(text),
        !text.contains('\0') ==> text_of(c_str_bytes(buf)) == text,
{
    lemma_c_str_of_text(text, buf);
    let kept = text_before_nul(text);
    encode_utf8_valid_utf8(kept);
    encode_utf8_decode_utf8(kept);
    if !text.contains('\0') {
        lemma_text_len_whole(text);
        assert(kept =~= text);
    }
}

/// Text without a NUL character is kept whole.
pub proof fn lemma_text_len_whole(text: Seq<char>)
    requires
        !text.contains('\0'),
    ensures
        text_len(text) == text.len(),
    decreases text.len(),
{
    if text.len() == 0 {
    } else {
        assert(text[0] != '\0');
        let rest = text.drop_first();
        assert forall|i: int| 0 <= i < rest.len() implies rest[i] != '\0' by {
            assert(rest[i] == text[i + 1]);
        }
        lemma_text_len_whole(rest);
    }
}

} // verus!

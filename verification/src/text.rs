//! Byte-level helpers for the names and source texts that cross into the
//! backend, which takes them as zero-terminated byte strings.

use vstd::prelude::*;
use vstd::string::StringSliceAdditionalSpecFns;
use vstd::utf8::{encode_scalar, encode_utf8};

verus! {

/// `text` holds the character with code zero, which no zero-terminated string
/// can carry.
pub open spec fn spec_has_nul(text: Seq<char>) -> bool {
    exists|i: int| 0 <= i < text.len() && text[i] == '\0'
}

/// `bytes` holds a zero byte.
pub open spec fn spec_has_zero_byte(bytes: Seq<u8>) -> bool {
    exists|k: int| 0 <= k < bytes.len() && bytes[k] == 0u8
}

/// `position` is the index of the first zero byte of `bytes`.
pub open spec fn spec_is_first_nul(bytes: Seq<u8>, position: int) -> bool {
    &&& 0 <= position < bytes.len()
    &&& bytes[position] == 0u8
    &&& forall|k: int| 0 <= k < position ==> bytes[k] != 0u8
}

/// The UTF-8 encoding of one character holds a zero byte only if the
/// character is the one with code zero, whose encoding is that single byte.
proof fn lemma_scalar_encoding(c: char)
    ensures
        c == '\0' ==> encode_scalar(c as u32) == seq![0u8],
        c != '\0' ==> !spec_has_zero_byte(encode_scalar(c as u32)),
        1 <= encode_scalar(c as u32).len() <= 4,
{
    let v = c as u32;
    assert(v <= 0x7F ==> (((v & 0x7F) as u8 == 0u8) <==> v == 0)) by (bit_vector);
    assert((0xC0u8 | ((v >> 6) & 0x1F) as u8) != 0u8) by (bit_vector);
    assert((0xE0u8 | ((v >> 12) & 0x0F) as u8) != 0u8) by (bit_vector);
    assert((0xF0u8 | ((v >> 18) & 0x7) as u8) != 0u8) by (bit_vector);
    assert((0x80u8 | (v & 0x3F) as u8) != 0u8) by (bit_vector);
    assert((0x80u8 | ((v >> 6) & 0x3F) as u8) != 0u8) by (bit_vector);
    assert((0x80u8 | ((v >> 12) & 0x3F) as u8) != 0u8) by (bit_vector);
    if c == '\0' {
        assert(v == 0);
        assert(encode_scalar(v) =~= seq![0u8]);
    } else {
        assert(v != 0) by {
            vstd::utf8::char_u32_cast(c, v);
            vstd::utf8::char_u32_cast('\0', 0u32);
        }
    }
}

/// A text holds the character with code zero exactly if its UTF-8 encoding
/// holds a zero byte.
pub proof fn lemma_nul_encoding(text: Seq<char>)
    ensures
        spec_has_zero_byte(encode_utf8(text)) <==> spec_has_nul(text),
    decreases text.len(),
{
    if text.len() > 0 {
        let head = encode_scalar(text[0] as u32);
        let rest = text.drop_first();
        let tail = encode_utf8(rest);
        let bytes = encode_utf8(text);
        assert(bytes == head + tail);
        lemma_scalar_encoding(text[0]);
        lemma_nul_encoding(rest);
        if spec_has_zero_byte(bytes) {
            let k = choose|k: int| 0 <= k < bytes.len() && bytes[k] == 0u8;
            if k < head.len() {
                assert(head[k] == 0u8);
                assert(text[0] == '\0');
            } else {
                assert(tail[k - head.len()] == 0u8);
                let i = choose|i: int| 0 <= i < rest.len() && rest[i] == '\0';
                assert(text[i + 1] == '\0');
            }
        }
        if spec_has_nul(text) {
            let i = choose|i: int| 0 <= i < text.len() && text[i] == '\0';
            if i == 0 {
                assert(bytes[0] == 0u8);
            } else {
                assert(rest[i - 1] == '\0');
                let k = choose|k: int| 0 <= k < tail.len() && tail[k] == 0u8;
                assert(bytes[head.len() + k] == 0u8);
            }
        }
    }
}

/// Whether two string slices hold the same text.
pub fn same_text(left: &str, right: &str) -> (same: bool)
    ensures
        same == (left@ == right@),
{
    let a = left.as_bytes();
    let b = right.as_bytes();
    proof {
        vstd::utf8::encode_utf8_decode_utf8(left@);
        vstd::utf8::encode_utf8_decode_utf8(right@);
    }
    if a.len() != b.len() {
        return false;
    }
    let mut i: usize = 0;
    while i < a.len()
        invariant
            i <= a.len(),
            a.len() == b.len(),
            a@ == left.spec_bytes(),
            b@ == right.spec_bytes(),
            forall|k: int| 0 <= k < i ==> a@[k] == b@[k],
        decreases a.len() - i,
    {
        if a[i] != b[i] {
            return false;
        }
        i += 1;
    }
    assert(a@ =~= b@);
    true
}

/// The position of the first zero byte in the UTF-8 encoding of `text`, if
/// the text holds the character with code zero. Such a text cannot be handed
/// to the backend as a zero-terminated string.
pub fn first_nul(text: &str) -> (found: Option<usize>)
    ensures
        found is Some <==> spec_has_nul(text@),
        found matches Some(position) ==> spec_is_first_nul(encode_utf8(text@), position as int),
{
    let bytes = text.as_bytes();
    let mut i: usize = 0;
    proof {
        lemma_nul_encoding(text@);
    }
    while i < bytes.len()
        invariant
            i <= bytes.len(),
            bytes@ == encode_utf8(text@),
            spec_has_zero_byte(encode_utf8(text@)) <==> spec_has_nul(text@),
            forall|k: int| 0 <= k < i ==> bytes@[k] != 0u8,
        decreases bytes.len() - i,
    {
        if bytes[i] == 0 {
            assert(bytes@[i as int] == 0u8);
            return Some(i);
        }
        i += 1;
    }
    None
}

} // verus!

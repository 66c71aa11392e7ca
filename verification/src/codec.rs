//! The buffer codec: text to NUL-terminated bytes for the kernel, and
//! kernel-filled buffers back to text.

use vstd::prelude::*;
use vstd::slice::*;
use vstd::string::*;
use vstd::utf8::*;

use crate::error::KpmError;

verus! {

/// Whether the bytes hold a NUL anywhere.
pub open spec fn has_nul(bytes: Seq<u8>) -> bool {
    exists|i: int| 0 <= i < bytes.len() && bytes[i] == 0u8
}

/// The bytes followed by the terminating NUL.
pub open spec fn c_string(bytes: Seq<u8>) -> Seq<u8> {
    bytes.push(0u8)
}

/// Whether the bytes are a NUL-terminated string: they end in the only NUL
/// they hold.
pub open spec fn is_c_string(bytes: Seq<u8>) -> bool {
    bytes.len() > 0 && bytes.last() == 0u8 && !has_nul(bytes.drop_last())
}

/// The index of the first NUL at or after `from`, or the length of `buffer`
/// if none follows.
pub open spec fn nul_index(buffer: Seq<u8>, from: int) -> int
    decreases buffer.len() - from,
{
    if from < 0 || from >= buffer.len() || buffer[from] == 0u8 {
        from
    } else {
        nul_index(buffer, from + 1)
    }
}

/// The bytes before the first NUL: all of them if there is none.
pub open spec fn until_nul(buffer: Seq<u8>) -> Seq<u8> {
    buffer.take(nul_index(buffer, 0))
}

/// What `String::from_utf8_lossy` makes of bytes that are not well-formed
/// UTF-8: each malformed run gives way to a replacement character.
pub uninterp spec fn lossy_text(bytes: Seq<u8>) -> Seq<char>;

/// The text that bytes stand for: their decoding where they are well-formed
/// UTF-8, the lossy reading otherwise.
pub open spec fn text_of(bytes: Seq<u8>) -> Seq<char> {
    if valid_utf8(bytes) {
        decode_utf8(bytes)
    } else {
        lossy_text(bytes)
    }
}

/// `String::from_utf8_lossy`, made into an owned string. Well-formed UTF-8
/// comes back as the text it encodes, unchanged; of other input only the name
/// of the result is known.
#[verifier::external_body]
fn lossy_string(bytes: &[u8]) -> (r: String)
    ensures
        valid_utf8(bytes@) ==> r@ == decode_utf8(bytes@),
        !valid_utf8(bytes@) ==> r@ == lossy_text(bytes@),
{
    String::from_utf8_lossy(bytes).into_owned()
}

/// `core::str::from_utf8`, made into an owned string: it succeeds exactly on
/// well-formed UTF-8 and gives the text that the bytes encode.
#[verifier::external_body]
pub(crate) fn utf8_text(bytes: &[u8]) -> (r: Option<String>)
    ensures
        r is Some <==> valid_utf8(bytes@),
        r matches Some(text) ==> text@ == decode_utf8(bytes@),
{
    match std::str::from_utf8(bytes) {
        Ok(text) => Some(text.to_owned()),
        Err(_) => None,
    }
}

/// Whether the bytes hold a NUL.
pub fn holds_nul(bytes: &[u8]) -> (r: bool)
    ensures
        r == has_nul(bytes@),
{
    let mut i: usize = 0;
    while i < bytes.len()
        invariant
            i <= bytes.len(),
            forall|j: int| 0 <= j < i ==> bytes@[j] != 0u8,
        decreases bytes.len() - i,
    {
        if bytes[i] == 0 {
            return true;
        }
        i = i + 1;
    }
    false
}

/// Whether the bytes are a NUL-terminated string.
pub fn ends_in_only_nul(bytes: &[u8]) -> (r: bool)
    ensures
        r == is_c_string(bytes@),
{
    let n = bytes.len();
    if n == 0 || bytes[n - 1] != 0 {
        return false;
    }
    let body = slice_subrange(bytes, 0, n - 1);
    assert(body@ == bytes@.drop_last());
    !holds_nul(body)
}

/// Frames bytes as a NUL-terminated string. Bytes that hold a NUL cannot be
/// framed.
pub fn encode_bytes(bytes: &[u8]) -> (r: Result<Vec<u8>, KpmError>)
    ensures
        has_nul(bytes@) ==> r == Err::<Vec<u8>, KpmError>(KpmError::Encoding),
        !has_nul(bytes@) ==> (r matches Ok(out) && out@ == c_string(bytes@)),
{
    let mut out: Vec<u8> = Vec::new();
    let mut i: usize = 0;
    while i < bytes.len()
        invariant
            i <= bytes.len(),
            out@ == bytes@.take(i as int),
            !has_nul(bytes@.take(i as int)),
        decreases bytes.len() - i,
    {
        let b = bytes[i];
        if b == 0 {
            return Err(KpmError::Encoding);
        }
        out.push(b);
        assert(bytes@.take(i + 1) == bytes@.take(i as int).push(b));
        i = i + 1;
    }
    assert(bytes@.take(i as int) == bytes@);
    out.push(0);
    Ok(out)
}

/// Whether the text holds the NUL character.
pub open spec fn has_nul_char(text: Seq<char>) -> bool {
    exists|i: int| 0 <= i < text.len() && text[i] == '\0'
}

/// Encodes a text as the NUL-terminated bytes the kernel reads. A text with
/// an embedded NUL has no such form.
pub fn encode(text: &str) -> (r: Result<Vec<u8>, KpmError>)
    ensures
        has_nul_char(text@) ==> r == Err::<Vec<u8>, KpmError>(KpmError::Encoding),
        !has_nul_char(text@) ==> (r matches Ok(out) && out@ == c_string(encode_utf8(text@))),
{
    proof {
        nul_byte_iff_nul_char(text@);
    }
    encode_bytes(text.as_bytes())
}

/// Reads a kernel-filled buffer as text: the bytes up to the first NUL, with
/// malformed UTF-8 replaced rather than refused.
pub fn buf2str(buf: &[u8]) -> (r: String)
    ensures
        r@ == text_of(until_nul(buf@)),
{
    let mut n: usize = 0;
    while n < buf.len() && buf[n] != 0
        invariant
            n <= buf.len(),
            nul_index(buf@, 0) == nul_index(buf@, n as int),
        decreases buf.len() - n,
    {
        n = n + 1;
    }
    lossy_string(slice_subrange(buf, 0, n))
}

/// The position of the first NUL is within the buffer, no NUL precedes it,
/// and a NUL stands there unless the buffer has run out.
pub proof fn nul_index_is_first(buffer: Seq<u8>, from: int)
    requires
        0 <= from <= buffer.len(),
    ensures
        from <= nul_index(buffer, from) <= buffer.len(),
        forall|j: int| from <= j < nul_index(buffer, from) ==> buffer[j] != 0u8,
        nul_index(buffer, from) < buffer.len() ==> buffer[nul_index(buffer, from)] == 0u8,
    decreases buffer.len() - from,
{
    if from < buffer.len() && buffer[from] != 0u8 {
        nul_index_is_first(buffer, from + 1);
    }
}

/// Bytes without a NUL, once framed, are a NUL-terminated string.
pub proof fn framed_is_c_string(bytes: Seq<u8>)
    requires
        !has_nul(bytes),
    ensures
        is_c_string(c_string(bytes)),
{
    assert(c_string(bytes).drop_last() =~= bytes);
}

/// Framing and reading back are inverse: whatever follows the terminator, the
/// bytes before it are the ones that were framed.
pub proof fn until_nul_of_c_string(bytes: Seq<u8>, rest: Seq<u8>)
    requires
        !has_nul(bytes),
    ensures
        until_nul(c_string(bytes) + rest) == bytes,
{
    let framed = c_string(bytes) + rest;
    nul_index_is_first(framed, 0);
    let n = nul_index(framed, 0);
    assert(framed[bytes.len() as int] == 0u8);
    if n < bytes.len() {
        assert(framed[n] == bytes[n]);
    }
    assert(n == bytes.len());
    assert(framed.take(n) =~= bytes);
}

/// A text without an embedded NUL survives encoding and decoding unchanged.
pub proof fn decode_encode_round_trip(text: Seq<char>)
    requires
        !has_nul_char(text),
    ensures
        text_of(until_nul(c_string(encode_utf8(text)))) == text,
{
    let bytes = encode_utf8(text);
    nul_byte_iff_nul_char(text);
    until_nul_of_c_string(bytes, Seq::empty());
    assert(c_string(bytes) + Seq::<u8>::empty() =~= c_string(bytes));
    encode_utf8_valid_utf8(text);
    encode_utf8_decode_utf8(text);
}

/// The encoding of one character holds a NUL only if the character is NUL.
pub proof fn nul_in_scalar(scalar: u32)
    ensures
        has_nul(encode_scalar(scalar)) <==> scalar == 0,
{
    let bytes = encode_scalar(scalar);
    assert(forall|x: u8| #![auto] 0xC0u8 | x != 0u8) by (bit_vector);
    assert(forall|x: u8| #![auto] 0xE0u8 | x != 0u8) by (bit_vector);
    assert(forall|x: u8| #![auto] 0xF0u8 | x != 0u8) by (bit_vector);
    assert(forall|x: u8| #![auto] 0x80u8 | x != 0u8) by (bit_vector);
    if has_width_1_encoding(scalar) {
        assert(((scalar & 0x7F) as u8 == 0u8) <==> scalar == 0) by (bit_vector)
            requires
                scalar <= 0x7F,
        ;
        assert(bytes[0] == leading_byte_width_1(scalar));
        if scalar == 0 {
            assert(bytes[0] == 0u8);
        }
    }
}

/// The bytes of a text hold a NUL exactly where the text holds the NUL
/// character: no other character is encoded with a zero byte.
pub proof fn nul_byte_iff_nul_char(text: Seq<char>)
    ensures
        has_nul(encode_utf8(text)) <==> has_nul_char(text),
    decreases text.len(),
{
    if text.len() > 0 {
        let first = text[0] as u32;
        let head = encode_scalar(first);
        let rest = text.drop_first();
        let tail = encode_utf8(rest);
        char_is_scalar(text[0]);
        char_u32_cast(text[0], first);
        assert('\0' as u32 == 0u32);
        assert(first == 0 <==> text[0] == '\0') by {
            if first == 0 {
                char_u32_cast('\0', 0u32);
            }
        }
        nul_in_scalar(first);
        nul_byte_iff_nul_char(rest);
        assert(encode_utf8(text) == head + tail);
        if has_nul(head + tail) {
            let at = choose|i: int| 0 <= i < (head + tail).len() && (head + tail)[i] == 0u8;
            if at < head.len() {
                assert(head[at] == 0u8);
                assert(text[0] == '\0');
            } else {
                assert(tail[at - head.len()] == 0u8);
                let i = choose|i: int| 0 <= i < rest.len() && rest[i] == '\0';
                assert(text[i + 1] == '\0');
            }
        }
        if exists|i: int| 0 <= i < text.len() && text[i] == '\0' {
            let i = choose|i: int| 0 <= i < text.len() && text[i] == '\0';
            if i == 0 {
                let at = choose|k: int| 0 <= k < head.len() && head[k] == 0u8;
                assert((head + tail)[at] == 0u8);
            } else {
                assert(rest[i - 1] == '\0');
                let at = choose|k: int| 0 <= k < tail.len() && tail[k] == 0u8;
                assert((head + tail)[head.len() + at] == 0u8);
            }
        }
    }
}

} // verus!

//! Marshaling of text across a C boundary.
//!
//! A native buffer is modelled by the bytes of its allocation: the UTF-8
//! encoding of the text followed by one NUL byte.

use vstd::prelude::*;
use vstd::string::*;
use vstd::utf8::*;

verus! {

/// Why a native buffer could not be turned back into text.
#[derive(Debug, PartialEq, Eq, Clone, Copy)]
pub enum DecodeError {
    /// The bytes before the terminator are not valid UTF-8.
    InvalidEncoding,
}

/// Text that can cross the boundary: it holds no NUL character.
pub open spec fn is_marshalable(text: Seq<char>) -> bool {
    forall|i: int| 0 <= i < text.len() ==> text[i] != '\0'
}

/// A NUL-terminated buffer: the last byte is the only NUL byte.
pub open spec fn is_c_string(bytes: Seq<u8>) -> bool {
    &&& bytes.len() > 0
    &&& bytes.last() == 0u8
    &&& forall|i: int| 0 <= i < bytes.len() - 1 ==> bytes[i] != 0u8
}

/// The native buffer that holds `text`.
pub open spec fn spec_encode(text: Seq<char>) -> Seq<u8> {
    encode_utf8(text).push(0u8)
}

/// The text that a NUL-terminated buffer holds.
pub open spec fn spec_decode(bytes: Seq<u8>) -> Result<Seq<char>, DecodeError> {
    if valid_utf8(bytes.drop_last()) {
        Ok(decode_utf8(bytes.drop_last()))
    } else {
        Err(DecodeError::InvalidEncoding)
    }
}

proof fn lemma_scalar_bytes_nonzero(c: u32)
    by (bit_vector)
    requires
        c != 0,
    ensures
        c <= 0x7F ==> (c & 0x7F) as u8 != 0u8,
        0xC0u8 | ((c >> 6) & 0x1F) as u8 != 0u8,
        0xE0u8 | ((c >> 12) & 0x0F) as u8 != 0u8,
        0xF0u8 | ((c >> 18) & 0x7) as u8 != 0u8,
        0x80u8 | (c & 0x3F) as u8 != 0u8,
        0x80u8 | ((c >> 6) & 0x3F) as u8 != 0u8,
        0x80u8 | ((c >> 12) & 0x3F) as u8 != 0u8,
{
}

/// The UTF-8 encoding of text without a NUL character holds no NUL byte.
pub proof fn lemma_encoding_has_no_nul(text: Seq<char>)
    requires
        is_marshalable(text),
    ensures
        forall|i: int| 0 <= i < encode_utf8(text).len() ==> encode_utf8(text)[i] != 0u8,
    decreases text.len(),
{
    if text.len() > 0 {
        let c = text[0] as u32;
        let head = encode_scalar(c);
        let rest = text.drop_first();
        assert(c != 0) by {
            char_u32_cast(text[0], c);
            char_u32_cast('\0', 0u32);
        }
        lemma_scalar_bytes_nonzero(c);
        assert(is_marshalable(rest)) by {
            assert forall|i: int| 0 <= i < rest.len() implies rest[i] != '\0' by {
                assert(rest[i] == text[i + 1]);
            }
        }
        lemma_encoding_has_no_nul(rest);
        assert(forall|i: int| 0 <= i < head.len() ==> head[i] != 0u8);
        assert(encode_utf8(text) == head + encode_utf8(rest));
    }
}

/// Encoding yields a NUL-terminated buffer.
pub proof fn lemma_encode_is_c_string(text: Seq<char>)
    requires
        is_marshalable(text),
    ensures
        is_c_string(spec_encode(text)),
{
    lemma_encoding_has_no_nul(text);
}

/// Decoding a buffer that was just encoded gives the text back.
pub proof fn lemma_decode_encode(text: Seq<char>)
    ensures
        spec_decode(spec_encode(text)) == Ok::<Seq<char>, DecodeError>(text),
{
    assert(spec_encode(text).drop_last() =~= encode_utf8(text));
    encode_utf8_valid_utf8(text);
    encode_utf8_decode_utf8(text);
}

/// `String::from_utf8`: succeeds exactly on valid UTF-8, and the string then
/// holds the characters that the bytes encode.
#[verifier::external_body]
pub(crate) fn string_from_utf8(bytes: Vec<u8>) -> (text: Option<String>)
    ensures
        text is Some <==> valid_utf8(bytes@),
        text matches Some(s) ==> s@ == decode_utf8(bytes@),
{
    match String::from_utf8(bytes) {
        Ok(s) => Some(s),
        Err(_) => None,
    }
}

/// Whether `text` can cross the boundary.
pub fn can_encode(text: &str) -> (ok: bool)
    ensures
        ok == is_marshalable(text@),
{
    let bytes = text.as_bytes();
    let mut i: usize = 0;
    while i < bytes.len()
        invariant
            i <= bytes.len(),
            bytes@ == encode_utf8(text@),
            forall|j: int| 0 <= j < i ==> bytes@[j] != 0u8,
        decreases bytes.len() - i,
    {
        if bytes[i] == 0 {
            proof {
                if is_marshalable(text@) {
                    lemma_encoding_has_no_nul(text@);
                }
            }
            return false;
        }
        i += 1;
    }
    proof {
        lemma_no_nul_byte_is_marshalable(text@);
    }
    true
}

/// Text whose encoding holds no NUL byte holds no NUL character.
pub proof fn lemma_no_nul_byte_is_marshalable(text: Seq<char>)
    requires
        forall|i: int| 0 <= i < encode_utf8(text).len() ==> encode_utf8(text)[i] != 0u8,
    ensures
        is_marshalable(text),
    decreases text.len(),
{
    if text.len() > 0 {
        let c = text[0] as u32;
        let head = encode_scalar(c);
        let rest = text.drop_first();
        let all = encode_utf8(text);
        assert(all == head + encode_utf8(rest));
        assert(head.len() >= 1);
        assert forall|i: int| 0 <= i < encode_utf8(rest).len() implies encode_utf8(rest)[i]
            != 0u8 by {
            assert(all[head.len() + i] == encode_utf8(rest)[i]);
        }
        lemma_no_nul_byte_is_marshalable(rest);
        assert(text[0] != '\0') by {
            if text[0] == '\0' {
                assert(c == 0);
                assert(head[0] == 0u8) by {
                    lemma_zero_scalar_byte();
                }
                assert(all[0] == head[0]);
            }
        }
        assert forall|i: int| 0 <= i < text.len() implies text[i] != '\0' by {
            if i > 0 {
                assert(text[i] == rest[i - 1]);
            }
        }
    }
}

proof fn lemma_zero_scalar_byte()
    ensures
        encode_scalar(0u32)[0] == 0u8,
{
    assert((0u32 & 0x7F) as u8 == 0u8) by (bit_vector);
}

/// Produces the native buffer for `text`: its UTF-8 bytes and a terminating
/// NUL. The buffer is handed to the receiving side, which releases it.
pub fn encode(text: &str) -> (buffer: Vec<u8>)
    requires
        is_marshalable(text@),
    ensures
        buffer@ == spec_encode(text@),
        is_c_string(buffer@),
{
    let mut buffer = text.as_bytes_vec();
    buffer.push(0u8);
    proof {
        lemma_encode_is_c_string(text@);
    }
    buffer
}

/// Takes a NUL-terminated buffer over and reconstructs the text it holds.
/// Fails with `InvalidEncoding` exactly when the bytes before the terminator
/// are not valid UTF-8.
pub fn decode(buffer: Vec<u8>) -> (text: Result<String, DecodeError>)
    requires
        is_c_string(buffer@),
    ensures
        text is Ok <==> valid_utf8(buffer@.drop_last()),
        text matches Ok(s) ==> spec_decode(buffer@) == Ok::<Seq<char>, DecodeError>(s@),
        text matches Err(e) ==> spec_decode(buffer@) == Err::<Seq<char>, DecodeError>(e),
{
    let mut bytes = buffer;
    let _ = bytes.pop();
    match string_from_utf8(bytes) {
        Some(s) => Ok(s),
        None => Err(DecodeError::InvalidEncoding),
    }
}

} // verus!

//! The boundary marshaller: construction of the result allocation.
//!
//! A successful string result crosses the boundary as a freshly allocated,
//! null-terminated byte buffer whose ownership passes to the caller. The
//! buffer must hold exactly the UTF-8 encoding of the string followed by one
//! terminating zero byte, and no zero byte anywhere before it — otherwise
//! the caller, who finds the end of the text by scanning for the terminator,
//! would read back a different string. A string with an embedded zero byte
//! therefore cannot be represented; building its allocation must fail rather
//! than hand out a buffer that decodes to something else.

use vstd::prelude::*;

use vstd::string::StringSliceAdditionalSpecFns;
use vstd::string::StrSliceExecFns;
use vstd::utf8::{
    char_is_scalar, char_u32_cast, encode_scalar, encode_utf8, encode_utf8_decode_utf8, is_scalar,
};

use crate::guard::{guard_normalize, normalize_verdict, CallOutcome};

verus! {

/// No byte of `bytes` is zero.
pub open spec fn nul_free(bytes: Seq<u8>) -> bool {
    forall|i: int| 0 <= i < bytes.len() ==> bytes[i] != 0
}

/// Whether the text can be carried in a null-terminated buffer: its UTF-8
/// encoding has no embedded zero byte.
pub open spec fn encodable(text: Seq<char>) -> bool {
    nul_free(encode_utf8(text))
}

/// No character of `text` is the NUL character.
pub open spec fn nul_free_text(text: Seq<char>) -> bool {
    forall|i: int| 0 <= i < text.len() ==> text[i] != '\0'
}

/// The contents of the result allocation for the given text: its UTF-8
/// encoding followed by the terminating zero byte.
pub open spec fn allocation_repr(text: Seq<char>) -> Seq<u8> {
    encode_utf8(text).push(0u8)
}

/// Scan the string's UTF-8 bytes for an embedded zero byte.
pub fn is_encodable(text: &str) -> (r: bool)
    ensures
        r == encodable(text@),
{
    let bytes = text.as_bytes();
    let n = bytes.len();
    let mut i: usize = 0;
    while i < n
        invariant
            n == bytes@.len(),
            bytes@ == text.spec_bytes(),
            0 <= i <= n,
            forall|j: int| 0 <= j < i ==> bytes@[j] != 0,
        decreases n - i,
    {
        if bytes[i] == 0 {
            return false;
        }
        i = i + 1;
    }
    true
}

/// Build the result allocation for the given text: a fresh buffer holding
/// the text's UTF-8 bytes and the terminator. Fails exactly when the text
/// has an embedded zero byte, and then hands out no buffer at all.
pub fn encode_allocation(text: &str) -> (r: Option<Vec<u8>>)
    ensures
        r is Some <==> encodable(text@),
        r is Some <==> nul_free_text(text@),
        r matches Some(buffer) ==> buffer@ == allocation_repr(text@),
{
    proof {
        lemma_encodable_text(text@);
    }
    if !is_encodable(text) {
        return None;
    }
    let mut buffer = text.as_bytes_vec();
    buffer.push(0u8);
    Some(buffer)
}

/// The whole computation of the string-returning entry point, from the
/// outcome of its guarded region to the buffer the boundary hands out: a
/// result allocation exactly when the region completed with a string that
/// has no embedded zero byte, and the null sentinel in every other case —
/// abnormal termination, a declined normalization, or an unencodable string.
pub fn marshal_normalize_outcome(outcome: CallOutcome<Option<String>>) -> (r: Option<Vec<u8>>)
    ensures
        r is Some <==> (normalize_verdict(outcome) matches Some(text) && encodable(text)),
        r matches Some(buffer) ==> (normalize_verdict(outcome) matches Some(text) && buffer@
            == allocation_repr(text)),
{
    match guard_normalize(outcome) {
        Some(text) => encode_allocation(text.as_str()),
        None => None,
    }
}

/// The framing law of the allocation: it always ends in the terminator, and
/// for an encodable text the terminator is the first zero byte, so a caller
/// scanning for it reads back exactly the text's UTF-8 encoding.
pub proof fn lemma_allocation_framing(text: Seq<char>)
    ensures
        allocation_repr(text).len() == encode_utf8(text).len() + 1,
        allocation_repr(text).last() == 0u8,
        allocation_repr(text).drop_last() == encode_utf8(text),
        encodable(text) ==> forall|i: int|
            0 <= i < allocation_repr(text).len() - 1 ==> allocation_repr(text)[i] != 0,
{
    assert(allocation_repr(text).drop_last() =~= encode_utf8(text));
}

/// The encoding of a single scalar contains a zero byte exactly when the
/// scalar is zero: the one-byte encoding is the scalar itself, and every
/// byte of a longer encoding carries a set high bit.
proof fn lemma_encode_scalar_nul(scalar: u32)
    requires
        is_scalar(scalar),
    ensures
        scalar != 0 ==> nul_free(encode_scalar(scalar)),
        scalar == 0 ==> encode_scalar(scalar) == seq![0u8],
{
    assert(scalar <= 0x7F && scalar != 0 ==> ((scalar & 0x7F) as u8) != 0) by (bit_vector);
    assert(scalar == 0 ==> ((scalar & 0x7F) as u8) == 0) by (bit_vector);
    assert((0xC0u8 | (((scalar >> 6) & 0x1F) as u8)) != 0) by (bit_vector);
    assert((0xE0u8 | (((scalar >> 12) & 0x0F) as u8)) != 0) by (bit_vector);
    assert((0xF0u8 | (((scalar >> 18) & 0x7) as u8)) != 0) by (bit_vector);
    assert((0x80u8 | ((scalar & 0x3F) as u8)) != 0) by (bit_vector);
    assert((0x80u8 | (((scalar >> 6) & 0x3F) as u8)) != 0) by (bit_vector);
    assert((0x80u8 | (((scalar >> 12) & 0x3F) as u8)) != 0) by (bit_vector);
    if scalar == 0 {
        assert(encode_scalar(scalar) =~= seq![0u8]);
    }
}

/// Encodability read at the character level: the UTF-8 encoding of a text
/// has an embedded zero byte exactly when the text contains the NUL
/// character. So every well-formed text free of NUL gets an allocation, and
/// the check in [`encode_allocation`] rejects nothing else.
pub proof fn lemma_encodable_text(text: Seq<char>)
    ensures
        encodable(text) <==> nul_free_text(text),
    decreases text.len(),
{
    if text.len() == 0 {
    } else {
        let c = text[0];
        let rest = text.drop_first();
        let head = encode_scalar(c as u32);
        char_is_scalar(c);
        lemma_encode_scalar_nul(c as u32);
        lemma_encodable_text(rest);
        assert(encode_utf8(text) == head + encode_utf8(rest));
        assert(1 <= head.len() <= 4);
        // The NUL character is exactly the zero scalar.
        char_u32_cast('\0', '\0' as u32);
        if c as u32 == 0 {
            char_u32_cast(c, 0);
        }
        if encodable(text) {
            assert(encode_utf8(text)[0] == head[0]);
            assert(c as u32 != 0);
            assert(encodable(rest)) by {
                assert forall|i: int|
                    0 <= i < encode_utf8(rest).len() implies encode_utf8(rest)[i] != 0 by {
                    assert(encode_utf8(rest)[i] == encode_utf8(text)[i + head.len()]);
                }
            }
            assert(nul_free_text(text)) by {
                assert forall|i: int| 0 <= i < text.len() implies text[i] != '\0' by {
                    if i > 0 {
                        assert(text[i] == rest[i - 1]);
                    }
                }
            }
        }
        if nul_free_text(text) {
            assert(c != '\0');
            assert(c as u32 != 0);
            assert(nul_free_text(rest)) by {
                assert forall|i: int| 0 <= i < rest.len() implies rest[i] != '\0' by {
                    assert(rest[i] == text[i + 1]);
                }
            }
            assert(encodable(text)) by {
                assert forall|i: int|
                    0 <= i < encode_utf8(text).len() implies encode_utf8(text)[i] != 0 by {
                    if i < head.len() {
                        assert(encode_utf8(text)[i] == head[i]);
                    } else {
                        assert(encode_utf8(text)[i] == encode_utf8(rest)[i - head.len()]);
                    }
                }
            }
        }
    }
}

/// The round-trip law of the allocation: the buffer determines the text.
/// Two texts with the same result allocation are the same text, so decoding
/// the buffer a successful call returned recovers exactly the string the
/// collaborator produced.
pub proof fn lemma_allocation_roundtrip(text1: Seq<char>, text2: Seq<char>)
    requires
        allocation_repr(text1) == allocation_repr(text2),
    ensures
        text1 == text2,
{
    assert(encode_utf8(text1) =~= allocation_repr(text1).drop_last());
    assert(encode_utf8(text2) =~= allocation_repr(text2).drop_last());
    encode_utf8_decode_utf8(text1);
    encode_utf8_decode_utf8(text2);
}

} // verus!

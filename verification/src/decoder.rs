//! The UTF-8 scalar decoder.
//!
//! Decodes the next Unicode scalar value (and the raw bytes it consumed) from
//! an [`IoQueue`], enforcing the rejection rules for surrogates,
//! noncharacters, and disallowed control characters.

use vstd::prelude::*;

use crate::character_encoding::CharacterEncoding;
use crate::io_queue::IoQueue;
use vstd::utf8::codepoint_width_2;
use vstd::utf8::codepoint_width_3;
use vstd::utf8::codepoint_width_4;
use vstd::utf8::is_continuation_byte;
use vstd::utf8::is_leading_byte_width_1;
use vstd::utf8::is_leading_byte_width_2;
use vstd::utf8::is_leading_byte_width_3;
use vstd::utf8::is_leading_byte_width_4;

verus! {

/// Why a decoding step failed.
#[derive(Clone, Copy, Debug, PartialEq, Eq, Structural)]
pub enum DecodingError {
    /// A multi-byte sequence started but the stream ended before completion.
    UnexpectedEof,
    /// The decoded scalar falls in the UTF-16 surrogate range.
    UnexpectedSurrogate,
    /// The decoded scalar is one of the Unicode noncharacters.
    UnexpectedNonCharacter,
    /// The decoded scalar is a C0/C1 control code other than ASCII whitespace.
    UnexpectedControl,
    /// The byte pattern does not match any valid sequence for the encoding.
    InvalidData,
}

/// The decoder for the UTF-8 encoding.
pub struct Utf8Decoder;

/// How many bytes a UTF-8 sequence with this leading byte has; zero for a
/// byte that is no valid leading byte.
pub open spec fn utf8_lead_len(b: u8) -> int {
    if is_leading_byte_width_1(b) {
        1
    } else if is_leading_byte_width_2(b) {
        2
    } else if is_leading_byte_width_3(b) {
        3
    } else if is_leading_byte_width_4(b) {
        4
    } else {
        0
    }
}

/// Whether the code point falls in the UTF-16 surrogate range.
pub open spec fn is_surrogate(cp: u32) -> bool {
    0xD800 <= cp <= 0xDFFF
}

/// Whether the code point is one of the 66 Unicode noncharacters.
pub open spec fn is_noncharacter(cp: u32) -> bool {
    ||| 0xFDD0 <= cp <= 0xFDEF
    ||| (cp <= 0x10FFFF && (cp % 0x10000 == 0xFFFE || cp % 0x10000 == 0xFFFF))
}

/// Whether the code point is a C0/C1 control code other than NUL and the
/// ASCII whitespace controls (tab, line feed, form feed, carriage return).
pub open spec fn is_disallowed_control(cp: u32) -> bool {
    ||| (1 <= cp <= 0x1F && !(cp == 0x09 || cp == 0x0A || cp == 0x0C || cp == 0x0D))
    ||| 0x7F <= cp <= 0x9F
}

/// The rejection rule applied to every decoded code point, in order of
/// precedence; `None` means the code point is accepted.
pub open spec fn classify_code_point(cp: u32) -> Option<DecodingError> {
    if is_surrogate(cp) {
        Some(DecodingError::UnexpectedSurrogate)
    } else if is_noncharacter(cp) {
        Some(DecodingError::UnexpectedNonCharacter)
    } else if is_disallowed_control(cp) {
        Some(DecodingError::UnexpectedControl)
    } else if cp > 0x10FFFF {
        Some(DecodingError::InvalidData)
    } else {
        None
    }
}

/// One decoding step of the UTF-8 decoder on the unconsumed bytes `s`:
/// the outcome (`Ok(None)` at clean end of stream, else the code point and
/// the count of bytes it occupies, or the error), paired with how many bytes
/// the step consumes.
pub open spec fn spec_utf8_step(s: Seq<u8>) -> (Result<Option<(u32, int)>, DecodingError>, int) {
    if s.len() == 0 {
        (Ok(None), 0)
    } else if is_leading_byte_width_1(s[0]) {
        step_outcome(s[0] as u32, 1)
    } else if is_leading_byte_width_2(s[0]) {
        if s.len() < 2 {
            (Err(DecodingError::UnexpectedEof), s.len() as int)
        } else if !is_continuation_byte(s[1]) {
            (Err(DecodingError::InvalidData), 2)
        } else {
            step_outcome(codepoint_width_2(s[0], s[1]), 2)
        }
    } else if is_leading_byte_width_3(s[0]) {
        if s.len() < 2 {
            (Err(DecodingError::UnexpectedEof), s.len() as int)
        } else if !is_continuation_byte(s[1]) {
            (Err(DecodingError::InvalidData), 2)
        } else if s.len() < 3 {
            (Err(DecodingError::UnexpectedEof), s.len() as int)
        } else if !is_continuation_byte(s[2]) {
            (Err(DecodingError::InvalidData), 3)
        } else {
            step_outcome(codepoint_width_3(s[0], s[1], s[2]), 3)
        }
    } else if is_leading_byte_width_4(s[0]) {
        if s.len() < 2 {
            (Err(DecodingError::UnexpectedEof), s.len() as int)
        } else if !is_continuation_byte(s[1]) {
            (Err(DecodingError::InvalidData), 2)
        } else if s.len() < 3 {
            (Err(DecodingError::UnexpectedEof), s.len() as int)
        } else if !is_continuation_byte(s[2]) {
            (Err(DecodingError::InvalidData), 3)
        } else if s.len() < 4 {
            (Err(DecodingError::UnexpectedEof), s.len() as int)
        } else if !is_continuation_byte(s[3]) {
            (Err(DecodingError::InvalidData), 4)
        } else {
            step_outcome(codepoint_width_4(s[0], s[1], s[2], s[3]), 4)
        }
    } else {
        (Err(DecodingError::InvalidData), 1)
    }
}

/// Outcome of a step that assembled code point `cp` from `len` bytes: the
/// code point if it passes the rejection rules, else the rejection error.
pub open spec fn step_outcome(cp: u32, len: int) -> (Result<
    Option<(u32, int)>,
    DecodingError,
>, int) {
    match classify_code_point(cp) {
        Some(e) => (Err(e), len),
        None => (Ok(Some((cp, len))), len),
    }
}

/// Relies on char::from_u32: returns `Some` exactly for Unicode scalar
/// values (below the surrogate range, or above it and at most U+10FFFF),
/// carrying a `char` with that scalar value.
#[verifier::external_body]
fn char_from_u32(v: u32) -> (r: Option<char>)
    ensures
        r matches Some(c) ==> c as u32 == v,
        (v < 0xD800 || (0xE000 <= v && v <= 0x10FFFF)) <==> r is Some,
{
    char::from_u32(v)
}

/// A decoder for one character encoding: pulls the next Unicode scalar value
/// out of a byte cursor.
pub trait Decoder {
    /// The decoding step this decoder computes on given unconsumed bytes:
    /// outcome and count of bytes consumed.
    spec fn spec_step(&self, s: Seq<u8>) -> (Result<Option<(u32, int)>, DecodingError>, int);

    /// Reads the next Unicode scalar value from the given byte cursor,
    /// together with the exact bytes that produced it.
    ///
    /// Does not allow surrogates, noncharacters, or control characters.
    fn decode(&self, io_queue: &mut IoQueue) -> (r: Result<
        Option<(char, Vec<u8>)>,
        DecodingError,
    >)
        requires
            old(io_queue).wf(),
        ensures
            final(io_queue).wf(),
            ({
                let (step, consumed) = self.spec_step(old(io_queue).remaining());
                &&& final(io_queue).remaining() == old(io_queue).remaining().skip(consumed)
                &&& final(io_queue).spec_bytes_read() == old(io_queue).spec_bytes_read()
                    + consumed
                &&& match r {
                    Ok(None) => step == Ok::<Option<(u32, int)>, DecodingError>(None),
                    Ok(Some((c, bytes))) => {
                        &&& step == Ok::<Option<(u32, int)>, DecodingError>(
                            Some((c as u32, bytes@.len() as int)),
                        )
                        &&& bytes@.len() == consumed
                        &&& bytes@ == old(io_queue).remaining().take(consumed)
                    },
                    Err(e) => step == Err::<Option<(u32, int)>, DecodingError>(e),
                }
            }),
    ;
}

impl Decoder for Utf8Decoder {
    open spec fn spec_step(&self, s: Seq<u8>) -> (Result<
        Option<(u32, int)>,
        DecodingError,
    >, int) {
        spec_utf8_step(s)
    }

    fn decode(&self, io_queue: &mut IoQueue) -> (r: Result<
        Option<(char, Vec<u8>)>,
        DecodingError,
    >) {
        proof {
            broadcast use vstd::utf8::utf8_byte_ranges_bitwise;
        }
        let ghost s = io_queue.remaining();
        let first = match io_queue.next_byte() {
            None => {
                return Ok(None);
            },
            Some(b) => b,
        };
        let mut bytes: Vec<u8> = Vec::new();
        bytes.push(first);
        proof {
            assert(bytes@ =~= s.take(1));
        }
        let code_point: u32 = if first & 0x80 == 0x00 {
            first as u32
        } else if first & 0xE0 == 0xC0 {
            let b1 = match io_queue.next_byte() {
                None => {
                    proof {
                        assert(io_queue.remaining() =~= s.skip(1));
                    }
                    return Err(DecodingError::UnexpectedEof);
                },
                Some(c) => c,
            };
            bytes.push(b1);
            proof {
                assert(io_queue.remaining() =~= s.skip(2));
            }
            if b1 & 0xC0 != 0x80 {
                return Err(DecodingError::InvalidData);
            }
            (((first & 0x1F) as u32) << 6) | ((b1 & 0x3F) as u32)
        } else if first & 0xF0 == 0xE0 {
            let b1 = match io_queue.next_byte() {
                None => {
                    proof {
                        assert(io_queue.remaining() =~= s.skip(1));
                    }
                    return Err(DecodingError::UnexpectedEof);
                },
                Some(c) => c,
            };
            bytes.push(b1);
            proof {
                assert(io_queue.remaining() =~= s.skip(2));
            }
            if b1 & 0xC0 != 0x80 {
                return Err(DecodingError::InvalidData);
            }
            let b2 = match io_queue.next_byte() {
                None => {
                    proof {
                        assert(io_queue.remaining() =~= s.skip(2));
                    }
                    return Err(DecodingError::UnexpectedEof);
                },
                Some(c) => c,
            };
            bytes.push(b2);
            proof {
                assert(io_queue.remaining() =~= s.skip(3));
            }
            if b2 & 0xC0 != 0x80 {
                return Err(DecodingError::InvalidData);
            }
            (((first & 0x0F) as u32) << 12) | (((b1 & 0x3F) as u32) << 6) | ((b2 & 0x3F) as u32)
        } else if first & 0xF8 == 0xF0 {
            let b1 = match io_queue.next_byte() {
                None => {
                    proof {
                        assert(io_queue.remaining() =~= s.skip(1));
                    }
                    return Err(DecodingError::UnexpectedEof);
                },
                Some(c) => c,
            };
            bytes.push(b1);
            proof {
                assert(io_queue.remaining() =~= s.skip(2));
            }
            if b1 & 0xC0 != 0x80 {
                return Err(DecodingError::InvalidData);
            }
            let b2 = match io_queue.next_byte() {
                None => {
                    proof {
                        assert(io_queue.remaining() =~= s.skip(2));
                    }
                    return Err(DecodingError::UnexpectedEof);
                },
                Some(c) => c,
            };
            bytes.push(b2);
            proof {
                assert(io_queue.remaining() =~= s.skip(3));
            }
            if b2 & 0xC0 != 0x80 {
                return Err(DecodingError::InvalidData);
            }
            let b3 = match io_queue.next_byte() {
                None => {
                    proof {
                        assert(io_queue.remaining() =~= s.skip(3));
                    }
                    return Err(DecodingError::UnexpectedEof);
                },
                Some(c) => c,
            };
            bytes.push(b3);
            proof {
                assert(io_queue.remaining() =~= s.skip(4));
            }
            if b3 & 0xC0 != 0x80 {
                return Err(DecodingError::InvalidData);
            }
            (((first & 0x07) as u32) << 18) | (((b1 & 0x3F) as u32) << 12) | (((b2
                & 0x3F) as u32) << 6) | ((b3 & 0x3F) as u32)
        } else {
            return Err(DecodingError::InvalidData);
        };
        let ghost consumed = spec_utf8_step(s).1;
        proof {
            assert(bytes@ =~= s.take(consumed));
        }
        if 0xD800 <= code_point && code_point <= 0xDFFF {
            return Err(DecodingError::UnexpectedSurrogate);
        }
        if (0xFDD0 <= code_point && code_point <= 0xFDEF) || (code_point <= 0x10FFFF && (code_point
            % 0x10000 == 0xFFFE || code_point % 0x10000 == 0xFFFF)) {
            return Err(DecodingError::UnexpectedNonCharacter);
        }
        if (1 <= code_point && code_point <= 0x1F && !(code_point == 0x09 || code_point == 0x0A
            || code_point == 0x0C || code_point == 0x0D)) || (0x7F <= code_point && code_point
            <= 0x9F) {
            return Err(DecodingError::UnexpectedControl);
        }
        if code_point > 0x10FFFF {
            return Err(DecodingError::InvalidData);
        }
        match char_from_u32(code_point) {
            Some(c) => Ok(Some((c, bytes))),
            None => {
                proof {
                    assert(false);
                }
                Err(DecodingError::InvalidData)
            },
        }
    }
}

impl CharacterEncoding {
    /// The decoder for this encoding: only UTF-8 has one; every other
    /// registered encoding is reported as unsupported by returning `None`.
    pub fn decoder(&self) -> (r: Option<Utf8Decoder>)
        ensures
            r is Some <==> *self == CharacterEncoding::Utf8,
    {
        match self {
            CharacterEncoding::Utf8 => Some(Utf8Decoder),
            _ => None,
        }
    }
}

/// Decoding is local: the step on any byte sequence equals the step on just
/// the bytes it consumes, so re-decoding the `consumed_bytes` that `decode`
/// hands out, in isolation, yields the same scalar again.
pub proof fn lemma_step_on_consumed_prefix(s: Seq<u8>)
    requires
        spec_utf8_step(s).0 matches Ok(p) && p is Some,
    ensures
        spec_utf8_step(s.take(spec_utf8_step(s).1)) == spec_utf8_step(s),
{
    let n = spec_utf8_step(s).1;
    let t = s.take(n);
    assert(t.len() == n);
    assert forall|i: int| 0 <= i < n implies t[i] == s[i] by {}
}

/// Every well-formed UTF-8 encoding of a scalar value that passes the
/// rejection rules decodes to exactly that scalar, consuming exactly its
/// bytes.
pub proof fn lemma_decode_valid_scalar(s: Seq<u8>)
    requires
        vstd::utf8::valid_first_scalar(s),
        classify_code_point(vstd::utf8::decode_first_scalar(s)) is None,
    ensures
        spec_utf8_step(s) == (
            Ok::<Option<(u32, int)>, DecodingError>(
                Some(
                    (
                        vstd::utf8::decode_first_scalar(s),
                        vstd::utf8::length_of_first_scalar(s),
                    ),
                ),
            ),
            vstd::utf8::length_of_first_scalar(s),
        ),
{
    let b0 = s[0];
    if is_leading_byte_width_1(b0) {
        assert((b0 & 0x7F) == b0) by (bit_vector)
            requires
                b0 <= 0x7F,
        ;
    }
}

/// Round trip through the encoding side: the UTF-8 encoding of any `char`
/// that passes the rejection rules decodes back to exactly that scalar.
pub proof fn lemma_encoded_scalar_decodes(c: char)
    requires
        classify_code_point(c as u32) is None,
    ensures
        spec_utf8_step(vstd::utf8::encode_scalar(c as u32)) == (
            Ok::<Option<(u32, int)>, DecodingError>(
                Some((c as u32, vstd::utf8::encode_scalar(c as u32).len() as int)),
            ),
            vstd::utf8::encode_scalar(c as u32).len() as int,
        ),
{
    let chars = seq![c];
    vstd::utf8::encode_utf8_first_scalar(chars);
    assert(vstd::utf8::encode_utf8(chars) =~= vstd::utf8::encode_scalar(c as u32) + vstd::utf8::encode_utf8(
        chars.drop_first(),
    ));
    assert(vstd::utf8::encode_utf8(chars.drop_first()) =~= Seq::<u8>::empty());
    assert(vstd::utf8::encode_utf8(chars) =~= vstd::utf8::encode_scalar(c as u32));
    lemma_decode_valid_scalar(vstd::utf8::encode_scalar(c as u32));
}

/// A truncated multi-byte sequence whose bytes so far are well formed is
/// reported as `UnexpectedEof`, never as a silently wrong scalar.
pub proof fn lemma_truncated_sequence_is_eof(s: Seq<u8>)
    requires
        s.len() > 0,
        utf8_lead_len(s[0]) >= 2,
        s.len() < utf8_lead_len(s[0]),
        forall|i: int| 1 <= i < s.len() ==> is_continuation_byte(#[trigger] s[i]),
    ensures
        spec_utf8_step(s) == (
            Err::<Option<(u32, int)>, DecodingError>(DecodingError::UnexpectedEof),
            s.len() as int,
        ),
{
}

/// A malformed continuation byte inside a multi-byte sequence is reported as
/// `InvalidData`, consuming the bytes up to and including the bad byte.
pub proof fn lemma_malformed_continuation_is_invalid(s: Seq<u8>, j: int)
    requires
        s.len() > 0,
        utf8_lead_len(s[0]) >= 2,
        1 <= j < utf8_lead_len(s[0]),
        j < s.len(),
        !is_continuation_byte(s[j]),
        forall|i: int| 1 <= i < j ==> is_continuation_byte(#[trigger] s[i]),
    ensures
        spec_utf8_step(s) == (
            Err::<Option<(u32, int)>, DecodingError>(DecodingError::InvalidData),
            j + 1,
        ),
{
}

} // verus!

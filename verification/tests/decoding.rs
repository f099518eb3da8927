//! Tests of the UTF-8 scalar decoder: exact scalars and consumed bytes for
//! valid sequences, re-decoding the consumed bytes in isolation, and the
//! rejection rules for truncated, malformed, and disallowed input.

use html::character_encoding::CharacterEncoding;
use html::decoder::Decoder;
use html::decoder::DecodingError;
use html::decoder::Utf8Decoder;
use html::io_queue::IoQueue;

fn decode_one(bytes: &[u8]) -> Result<Option<(char, Vec<u8>)>, DecodingError> {
    let mut q = IoQueue::new(bytes.to_vec());
    Utf8Decoder.decode(&mut q)
}

#[test]
fn decodes_ascii_exactly() {
    match decode_one(b"Az") {
        Ok(Some((c, consumed))) => {
            assert_eq!(c, 'A');
            assert_eq!(consumed, vec![0x41u8]);
        },
        _ => panic!("expected a scalar"),
    }
}

#[test]
fn decodes_two_byte_sequence_exactly() {
    // U+00E9, LATIN SMALL LETTER E WITH ACUTE
    match decode_one(&[0xC3, 0xA9, 0x41]) {
        Ok(Some((c, consumed))) => {
            assert_eq!(c, '\u{E9}');
            assert_eq!(consumed, vec![0xC3u8, 0xA9u8]);
        },
        _ => panic!("expected a scalar"),
    }
}

#[test]
fn decodes_three_byte_sequence_exactly() {
    // U+20AC, EURO SIGN
    match decode_one(&[0xE2, 0x82, 0xAC]) {
        Ok(Some((c, consumed))) => {
            assert_eq!(c, '\u{20AC}');
            assert_eq!(consumed, vec![0xE2u8, 0x82u8, 0xACu8]);
        },
        _ => panic!("expected a scalar"),
    }
}

#[test]
fn decodes_four_byte_sequence_exactly() {
    // U+1F600, GRINNING FACE
    match decode_one(&[0xF0, 0x9F, 0x98, 0x80]) {
        Ok(Some((c, consumed))) => {
            assert_eq!(c, '\u{1F600}');
            assert_eq!(consumed, vec![0xF0u8, 0x9Fu8, 0x98u8, 0x80u8]);
        },
        _ => panic!("expected a scalar"),
    }
}

#[test]
fn consumed_bytes_redecode_to_the_same_scalar() {
    let inputs: [&[u8]; 4] = [b"A", &[0xC3, 0xA9], &[0xE2, 0x82, 0xAC], &[0xF0, 0x9F, 0x98, 0x80]];
    for input in inputs {
        let mut padded = input.to_vec();
        padded.extend_from_slice(b"tail");
        let mut q = IoQueue::new(padded);
        let (c1, consumed) = match Utf8Decoder.decode(&mut q) {
            Ok(Some(pair)) => pair,
            _ => panic!("expected a scalar"),
        };
        let mut q2 = IoQueue::new(consumed.clone());
        match Utf8Decoder.decode(&mut q2) {
            Ok(Some((c2, consumed2))) => {
                assert_eq!(c1, c2);
                assert_eq!(consumed, consumed2);
            },
            _ => panic!("expected the same scalar again"),
        }
    }
}

#[test]
fn empty_stream_is_clean_end() {
    match decode_one(b"") {
        Ok(None) => {},
        _ => panic!("expected clean end of stream"),
    }
}

#[test]
fn truncated_lead_byte_is_unexpected_eof() {
    assert!(matches!(decode_one(&[0xC3]), Err(DecodingError::UnexpectedEof)));
    assert!(matches!(decode_one(&[0xE2, 0x82]), Err(DecodingError::UnexpectedEof)));
    assert!(matches!(decode_one(&[0xF0, 0x9F, 0x98]), Err(DecodingError::UnexpectedEof)));
}

#[test]
fn malformed_continuation_is_invalid_data() {
    assert!(matches!(decode_one(&[0xC3, 0x41]), Err(DecodingError::InvalidData)));
    assert!(matches!(decode_one(&[0xE2, 0x82, 0x41]), Err(DecodingError::InvalidData)));
    assert!(matches!(decode_one(&[0xF0, 0xFF]), Err(DecodingError::InvalidData)));
    // a lone continuation byte is no valid leading byte
    assert!(matches!(decode_one(&[0x80]), Err(DecodingError::InvalidData)));
    // 0xF8 matches no leading-byte pattern
    assert!(matches!(decode_one(&[0xF8, 0x80]), Err(DecodingError::InvalidData)));
}

#[test]
fn surrogates_are_rejected() {
    // U+D800 as three bytes
    assert!(matches!(decode_one(&[0xED, 0xA0, 0x80]), Err(DecodingError::UnexpectedSurrogate)));
    // U+DFFF
    assert!(matches!(decode_one(&[0xED, 0xBF, 0xBF]), Err(DecodingError::UnexpectedSurrogate)));
}

#[test]
fn noncharacters_are_rejected() {
    // U+FDD0
    assert!(matches!(
        decode_one(&[0xEF, 0xB7, 0x90]),
        Err(DecodingError::UnexpectedNonCharacter)
    ));
    // U+FFFE
    assert!(matches!(
        decode_one(&[0xEF, 0xBF, 0xBE]),
        Err(DecodingError::UnexpectedNonCharacter)
    ));
    // U+10FFFF
    assert!(matches!(
        decode_one(&[0xF4, 0x8F, 0xBF, 0xBF]),
        Err(DecodingError::UnexpectedNonCharacter)
    ));
}

#[test]
fn disallowed_controls_are_rejected() {
    assert!(matches!(decode_one(&[0x01]), Err(DecodingError::UnexpectedControl)));
    assert!(matches!(decode_one(&[0x1B]), Err(DecodingError::UnexpectedControl)));
    // U+0085, a C1 control
    assert!(matches!(decode_one(&[0xC2, 0x85]), Err(DecodingError::UnexpectedControl)));
    // ASCII whitespace controls pass
    assert!(matches!(decode_one(b"\t"), Ok(Some(('\t', _)))));
    assert!(matches!(decode_one(b"\n"), Ok(Some(('\n', _)))));
    assert!(matches!(decode_one(b"\r"), Ok(Some(('\r', _)))));
}

#[test]
fn code_points_beyond_unicode_are_invalid_data() {
    // 0xF7 0xBF 0xBF 0xBF would be 0x1FFFFF
    assert!(matches!(
        decode_one(&[0xF7, 0xBF, 0xBF, 0xBF]),
        Err(DecodingError::InvalidData)
    ));
}

#[test]
fn only_utf8_has_a_decoder() {
    assert!(CharacterEncoding::Utf8.decoder().is_some());
    assert!(CharacterEncoding::Windows1252.decoder().is_none());
    assert!(CharacterEncoding::Utf16LE.decoder().is_none());
    assert!(CharacterEncoding::ShiftJIS.decoder().is_none());
}

#[test]
fn decoder_advances_the_cursor_exactly() {
    let mut q = IoQueue::new(vec![0xC3, 0xA9, 0x41]);
    assert!(Utf8Decoder.decode(&mut q).is_ok());
    assert_eq!(q.peek(), Some(0x41));
    assert_eq!(q.bytes_read(), 2);
}

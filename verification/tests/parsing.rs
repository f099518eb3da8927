//! Tests of encoding resolution, the decoding loops, and re-sniffing.

use html::character_encoding::CharacterEncoding;
use html::error::HtmlParseError;
use html::io_queue::IoQueue;
use html::parser::EncodingConfidence;
use html::parser::HtmlParser;

#[test]
fn bom_yields_utf8_certain_and_is_not_content() {
    let mut bytes = vec![0xEFu8, 0xBB, 0xBF];
    bytes.extend_from_slice(b"hi");
    let mut p = HtmlParser::new(bytes);
    p.resolve_encoding();
    assert_eq!(p.character_encoding(), CharacterEncoding::Utf8);
    assert_eq!(p.encoding_confidence(), EncodingConfidence::Certain);
    // the BOM bytes were consumed by resolution: the first decoded
    // character is document content
    assert_eq!(p.decode_char(), Ok(Some('h')));
    assert_eq!(p.decode_char(), Ok(Some('i')));
    assert_eq!(p.decode_char(), Ok(None));
}

#[test]
fn utf16_boms_are_detected() {
    let mut p = HtmlParser::new(vec![0xFE, 0xFF, 0x00, 0x41]);
    p.resolve_encoding();
    assert_eq!(p.character_encoding(), CharacterEncoding::Utf16BE);
    assert_eq!(p.encoding_confidence(), EncodingConfidence::Certain);

    let mut p = HtmlParser::new(vec![0xFF, 0xFE, 0x41, 0x00]);
    p.resolve_encoding();
    assert_eq!(p.character_encoding(), CharacterEncoding::Utf16LE);
    assert_eq!(p.encoding_confidence(), EncodingConfidence::Certain);
}

#[test]
fn prescan_feeds_resolution_with_tentative_confidence() {
    let mut p = HtmlParser::new(b"<meta charset=\"windows-1251\"> ...".to_vec());
    p.resolve_encoding();
    assert_eq!(p.character_encoding(), CharacterEncoding::Windows1251);
    assert_eq!(p.encoding_confidence(), EncodingConfidence::Tentative);
}

#[test]
fn default_is_utf8_tentative() {
    let mut p = HtmlParser::new(b"plain text".to_vec());
    p.resolve_encoding();
    assert_eq!(p.character_encoding(), CharacterEncoding::Utf8);
    assert_eq!(p.encoding_confidence(), EncodingConfidence::Tentative);
}

#[test]
fn determine_encoding_on_a_cursor() {
    let mut q = IoQueue::new(vec![0xEF, 0xBB, 0xBF, 0x41]);
    let (e, c) = HtmlParser::determine_encoding(&mut q);
    assert_eq!(e, CharacterEncoding::Utf8);
    assert_eq!(c, EncodingConfidence::Certain);
    assert_eq!(q.peek(), Some(0x41));
}

#[test]
fn lossy_decoding_substitutes_replacement_characters() {
    // a truncated two-byte sequence at the end, and a bad continuation
    let mut p = HtmlParser::with_definite_encoding(
        vec![0x41, 0xC3, 0x41, 0xC3],
        CharacterEncoding::Utf8,
    );
    assert_eq!(p.decode_char(), Ok(Some('A')));
    assert_eq!(p.decode_char(), Ok(Some('\u{FFFD}')));
    assert_eq!(p.decode_char(), Ok(Some('\u{FFFD}')));
    assert_eq!(p.decode_char(), Ok(None));
}

#[test]
fn content_validity_errors_are_surfaced() {
    let mut p = HtmlParser::with_definite_encoding(
        vec![0xED, 0xA0, 0x80],
        CharacterEncoding::Utf8,
    );
    assert_eq!(p.decode_char(), Err(HtmlParseError::SurrogateInInputStream));

    let mut p = HtmlParser::with_definite_encoding(
        vec![0xEF, 0xB7, 0x90],
        CharacterEncoding::Utf8,
    );
    assert_eq!(p.decode_char(), Err(HtmlParseError::NoncharacterInInputStream));

    let mut p = HtmlParser::with_definite_encoding(vec![0x07], CharacterEncoding::Utf8);
    assert_eq!(p.decode_char(), Err(HtmlParseError::ControlCharacterInInputStream));
}

#[test]
fn unsupported_encodings_are_reported_not_aborted() {
    let mut p = HtmlParser::with_definite_encoding(
        b"abc".to_vec(),
        CharacterEncoding::ShiftJIS,
    );
    assert_eq!(
        p.decode_char(),
        Err(HtmlParseError::UnsupportedEncoding(CharacterEncoding::ShiftJIS))
    );
}

#[test]
fn try_parse_succeeds_on_clean_utf8() {
    let p = HtmlParser::new(b"<p>ok \xC3\xA9</p>".to_vec());
    let doc = p.try_parse().unwrap();
    assert_eq!(doc.encoding(), CharacterEncoding::Utf8);
}

#[test]
fn try_parse_reports_the_first_validity_error() {
    let p = HtmlParser::new(b"ok\x01".to_vec());
    match p.try_parse() {
        Err(e) => assert_eq!(e, HtmlParseError::ControlCharacterInInputStream),
        Ok(_) => panic!("expected a validity error"),
    }
}

#[test]
fn parse_is_lenient() {
    let p = HtmlParser::new(b"ok\x01\xC3".to_vec());
    let doc = p.parse();
    assert_eq!(doc.encoding(), CharacterEncoding::Utf8);
}

#[test]
fn resniffing_utf16_current_encoding_is_kept() {
    let mut p = HtmlParser::with_definite_encoding(vec![], CharacterEncoding::Utf16BE);
    assert_eq!(p.change_encoding(CharacterEncoding::Windows1252), Ok(()));
    assert_eq!(p.character_encoding(), CharacterEncoding::Utf16BE);
    assert_eq!(p.encoding_confidence(), EncodingConfidence::Certain);
}

#[test]
fn resniffing_substitutes_utf8_for_declared_utf16() {
    // the resolved encoding is windows-1252 with tentative confidence; a
    // later in-document declaration reports UTF-16LE: the resolver must
    // substitute UTF-8, not UTF-16LE, and raise the confidence to certain
    let mut p = HtmlParser::new(b"<meta charset=\"windows-1252\"> x".to_vec());
    p.resolve_encoding();
    assert_eq!(p.character_encoding(), CharacterEncoding::Windows1252);
    assert_eq!(p.encoding_confidence(), EncodingConfidence::Tentative);
    assert_eq!(p.change_encoding(CharacterEncoding::Utf16LE), Ok(()));
    assert_eq!(p.character_encoding(), CharacterEncoding::Utf8);
    assert_eq!(p.encoding_confidence(), EncodingConfidence::Certain);
}

#[test]
fn resniffing_substitutes_windows1252_for_x_user_defined() {
    let mut p = HtmlParser::new(b"plain".to_vec());
    p.resolve_encoding();
    assert_eq!(p.change_encoding(CharacterEncoding::XUserDefined), Ok(()));
    assert_eq!(p.character_encoding(), CharacterEncoding::Windows1252);
    assert_eq!(p.encoding_confidence(), EncodingConfidence::Certain);
}

#[test]
fn resniffing_same_encoding_only_raises_confidence() {
    let mut p = HtmlParser::new(b"plain".to_vec());
    p.resolve_encoding();
    assert_eq!(p.character_encoding(), CharacterEncoding::Utf8);
    assert_eq!(p.change_encoding(CharacterEncoding::Utf8), Ok(()));
    assert_eq!(p.character_encoding(), CharacterEncoding::Utf8);
    assert_eq!(p.encoding_confidence(), EncodingConfidence::Certain);
}

#[test]
fn resniffing_after_decoding_demands_a_restart() {
    let mut p = HtmlParser::with_definite_encoding(b"abc".to_vec(), CharacterEncoding::Utf8);
    assert_eq!(p.decode_char(), Ok(Some('a')));
    let r = p.change_encoding(CharacterEncoding::Windows1251);
    match r {
        Err(restart) => assert_eq!(restart.encoding, CharacterEncoding::Windows1251),
        Ok(()) => panic!("expected a restart signal"),
    }
    // the parser state is unchanged
    assert_eq!(p.character_encoding(), CharacterEncoding::Utf8);
    assert_eq!(p.encoding_confidence(), EncodingConfidence::Certain);
}

//! Tests of the byte cursor and the byte-level pre-scan.

use html::character_encoding::CharacterEncoding;
use html::io_queue::IoQueue;
use html::prescan::HtmlPreScanner;

fn prescan(bytes: &[u8]) -> Option<CharacterEncoding> {
    let mut q = IoQueue::new(bytes.to_vec());
    q.peek_max(1024);
    HtmlPreScanner::new(&q).pre_scan_byte_stream()
}

#[test]
fn cursor_peeks_do_not_lose_bytes() {
    let mut q = IoQueue::new(vec![1, 2, 3, 4, 5]);
    assert_eq!(q.peek_nth(3), Some(4));
    assert_eq!(q.peek(), Some(1));
    assert_eq!(q.peek_nth(4), Some(5));
    assert_eq!(q.peek_nth(5), None);
    assert_eq!(q.next_byte(), Some(1));
    assert_eq!(q.next_byte(), Some(2));
    assert_eq!(q.peek(), Some(3));
    assert_eq!(q.bytes_read(), 2);
    assert!(q.has_next());
    assert!(q.has_next_nth(2));
    assert!(!q.has_next_nth(3));
}

#[test]
fn cursor_peek_arr_is_best_effort() {
    let q = IoQueue::new(vec![9, 8, 7]);
    assert_eq!(q.peek_arr(2), vec![9, 8]);
    assert_eq!(q.peek_arr(5), vec![9, 8, 7]);
    assert_eq!(q.peek_arr(0), Vec::<u8>::new());
}

#[test]
fn cursor_structural_matching() {
    let mut q = IoQueue::new(b"<meta x".to_vec());
    q.peek_max(1024);
    assert_eq!(q.peek_len(), 7);
    assert!(q.contains_bytes(0, b"<meta"));
    assert!(q.contains_bytes(1, b"meta"));
    assert!(!q.contains_bytes(0, b"<mete"));
    assert!(!q.contains_bytes(5, b"xyz"));
    assert!(q.matches_sequence(0, &[vec![0x3C], vec![0x4D, 0x6D]]));
    assert!(!q.matches_sequence(0, &[vec![0x3C], vec![0x4D]]));
}

#[test]
fn utf16_xml_prologues_are_detected() {
    assert_eq!(
        prescan(&[0x3C, 0x00, 0x3F, 0x00, 0x78, 0x00, 0x6D, 0x00]),
        Some(CharacterEncoding::Utf16LE)
    );
    assert_eq!(
        prescan(&[0x00, 0x3C, 0x00, 0x3F, 0x00, 0x78, 0x00, 0x6D]),
        Some(CharacterEncoding::Utf16BE)
    );
}

#[test]
fn comment_contents_never_influence_the_result() {
    // an HTML comment followed by a meta charset: the charset wins, the
    // comment is skipped verbatim
    let bytes = b"<!-- <meta charset=\"utf-8\"> --><meta charset=\"windows-1252\">";
    assert_eq!(prescan(bytes), Some(CharacterEncoding::Windows1252));
}

#[test]
fn meta_charset_attribute_is_found() {
    assert_eq!(
        prescan(b"<meta charset=\"windows-1252\">"),
        Some(CharacterEncoding::Windows1252)
    );
    assert_eq!(prescan(b"<meta charset=utf-8>"), Some(CharacterEncoding::Utf8));
    assert_eq!(prescan(b"<meta charset='koi8-r'>"), Some(CharacterEncoding::KOI8R));
}

#[test]
fn pragma_with_content_charset_is_found() {
    let bytes = b"<meta http-equiv=\"Content-Type\" content=\"text/html; charset=UTF-8\">";
    assert_eq!(prescan(bytes), Some(CharacterEncoding::Utf8));
}

#[test]
fn content_charset_without_pragma_is_skipped() {
    // the same content value, but http-equiv is absent: need-pragma stays
    // unmet, so the scan continues past this tag and finds nothing
    let bytes = b"<meta content=\"text/html; charset=UTF-8\">";
    assert_eq!(prescan(bytes), None);
}

#[test]
fn uppercase_z_opens_a_tag_too() {
    assert_eq!(
        prescan(b"<Zebra y=1><meta charset=\"gbk\">"),
        Some(CharacterEncoding::GBK)
    );
}

#[test]
fn meta_inside_other_tag_attributes_is_not_parsed() {
    // the scan drains attributes of other tags without inspecting them
    let bytes = b"<p data-x=\"<meta charset=utf-8>\"></p><meta charset=\"ibm866\">";
    assert_eq!(prescan(bytes), Some(CharacterEncoding::IBM866));
}

#[test]
fn in_document_utf16_and_x_user_defined_are_normalized() {
    assert_eq!(prescan(b"<meta charset=\"utf-16le\">"), Some(CharacterEncoding::Utf8));
    assert_eq!(prescan(b"<meta charset=\"utf-16be\">"), Some(CharacterEncoding::Utf8));
    assert_eq!(
        prescan(b"<meta charset=\"x-user-defined\">"),
        Some(CharacterEncoding::Windows1252)
    );
}

#[test]
fn duplicate_attributes_keep_the_first_value() {
    let bytes = b"<meta charset=\"ibm866\" charset=\"koi8-r\">";
    assert_eq!(prescan(bytes), Some(CharacterEncoding::IBM866));
}

#[test]
fn unknown_charset_labels_keep_the_scan_going() {
    assert_eq!(prescan(b"<meta charset=\"no-such-encoding\">"), None);
}

#[test]
fn xml_prologue_fallback_is_used() {
    assert_eq!(
        prescan(b"<?xml version=\"1.0\" encoding=\"ISO-8859-2\"?> <x/>"),
        Some(CharacterEncoding::ISO8859_2)
    );
    // UTF-16 from the prologue stands in for UTF-8
    assert_eq!(
        prescan(b"<?xml encoding=\"utf-16\"?> <x/>"),
        Some(CharacterEncoding::Utf8)
    );
}

#[test]
fn empty_and_plain_windows_find_nothing() {
    assert_eq!(prescan(b""), None);
    assert_eq!(prescan(b"just some text, no tags"), None);
    assert_eq!(prescan(b"<p>hello</p>"), None);
}

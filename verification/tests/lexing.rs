//! Tests of the character-level tokenizer.

use html::io_queue::IoQueue;
use html::lexer::LexErrorKind;
use html::lexer::StreamLexer;
use html::lexer::StringLexer;
use html::lexer::Token;
use html::lexer::TokenKind;

fn tokens_of(input: &str) -> Vec<Token> {
    let mut lexer = StringLexer::new(input.to_string());
    let mut out = Vec::new();
    loop {
        match lexer.next_token().expect("lexing failed") {
            None => continue,
            Some(tok) => {
                let eof = matches!(tok.kind, TokenKind::Eof);
                out.push(tok);
                if eof {
                    return out;
                }
            },
        }
    }
}

#[test]
fn doctype_paragraph_text_close_eof() {
    // the full expected stream, in order, with non-overlapping spans
    // covering the whole input
    let toks = tokens_of("<!DOCTYPE html><p>Hi</p>");
    assert_eq!(toks.len(), 5);
    match &toks[0].kind {
        TokenKind::Doctype(name) => assert_eq!(name, "html"),
        _ => panic!("expected a doctype"),
    }
    assert_eq!(toks[0].text, "<!DOCTYPE html>");
    assert_eq!((toks[0].span.start, toks[0].span.end), (0, 15));
    match &toks[1].kind {
        TokenKind::TagOpen(data) => {
            assert_eq!(data.name, "p");
            assert!(data.attributes.is_empty());
        },
        _ => panic!("expected an open tag"),
    }
    assert_eq!((toks[1].span.start, toks[1].span.end), (15, 18));
    match &toks[2].kind {
        TokenKind::Text(text) => assert_eq!(text, "Hi"),
        _ => panic!("expected text"),
    }
    assert_eq!((toks[2].span.start, toks[2].span.end), (18, 20));
    match &toks[3].kind {
        TokenKind::TagClose(name) => assert_eq!(name, "p"),
        _ => panic!("expected a close tag"),
    }
    assert_eq!((toks[3].span.start, toks[3].span.end), (20, 24));
    assert!(matches!(toks[4].kind, TokenKind::Eof));
    assert_eq!((toks[4].span.start, toks[4].span.end), (24, 24));
}

#[test]
fn comments_are_verbatim() {
    let toks = tokens_of("<!-- a < b -->");
    match &toks[0].kind {
        TokenKind::Comment(text) => assert_eq!(text, " a < b "),
        _ => panic!("expected a comment"),
    }
    assert_eq!(toks[0].text, "<!-- a < b -->");
}

#[test]
fn doctype_is_case_insensitive_and_trimmed() {
    let toks = tokens_of("<!doctype HTML  >");
    match &toks[0].kind {
        TokenKind::Doctype(name) => assert_eq!(name, "html"),
        _ => panic!("expected a doctype"),
    }
}

#[test]
fn open_tags_carry_attributes() {
    let toks = tokens_of("<img CLASS=\"Wrapper\" id=x disabled/>");
    match &toks[0].kind {
        TokenKind::TagSelfClose(data) => {
            assert_eq!(data.name, "img");
            assert_eq!(data.attributes.len(), 3);
            assert_eq!(data.attributes[0], ("class".to_string(), "wrapper".to_string()));
            assert_eq!(data.attributes[1], ("id".to_string(), "x".to_string()));
            assert_eq!(data.attributes[2], ("disabled".to_string(), "".to_string()));
        },
        _ => panic!("expected a self-closing tag"),
    }
}

#[test]
fn duplicate_attribute_names_keep_the_first_value() {
    let toks = tokens_of("<a href='one' href='two'>");
    match &toks[0].kind {
        TokenKind::TagOpen(data) => {
            assert_eq!(data.attributes.len(), 1);
            assert_eq!(data.attributes[0], ("href".to_string(), "one".to_string()));
        },
        _ => panic!("expected an open tag"),
    }
}

#[test]
fn close_tag_names_may_be_surrounded_by_whitespace() {
    let toks = tokens_of("</ body >");
    match &toks[0].kind {
        TokenKind::TagClose(name) => assert_eq!(name, "body"),
        _ => panic!("expected a close tag"),
    }
}

#[test]
fn whitespace_between_tokens_is_munched() {
    let toks = tokens_of("  <p>  </p>  ");
    assert!(matches!(&toks[0].kind, TokenKind::TagOpen(_)));
    assert!(matches!(&toks[1].kind, TokenKind::TagClose(_)));
    assert!(matches!(&toks[2].kind, TokenKind::Eof));
}

#[test]
fn text_kind_is_trimmed_but_text_is_raw() {
    // whitespace in front of the run is munched between tokens; trailing
    // whitespace up to the next tag belongs to the raw text but not to the
    // trimmed kind
    let toks = tokens_of("<b>  spaced out  </b>");
    match &toks[1].kind {
        TokenKind::Text(text) => assert_eq!(text, "spaced out"),
        _ => panic!("expected text"),
    }
    assert_eq!(toks[1].text, "spaced out  ");
}

#[test]
fn malformed_doctype_is_a_terminal_error() {
    let mut lexer = StringLexer::new("<!DOCTYPE muhtml>".to_string());
    let e = lexer.next_token().unwrap_err();
    assert_eq!(e.kind, LexErrorKind::MalformedDoctype);
}

#[test]
fn doctype_needs_its_single_space() {
    let mut lexer = StringLexer::new("<!DOCTYPEhtml>".to_string());
    let e = lexer.next_token().unwrap_err();
    assert_eq!(e.kind, LexErrorKind::MalformedDoctype);
}

#[test]
fn illegal_character_in_close_tag_is_a_terminal_error() {
    let mut lexer = StringLexer::new("</bo-dy>".to_string());
    let e = lexer.next_token().unwrap_err();
    assert_eq!(e.kind, LexErrorKind::MalformedTag);
}

#[test]
fn whitespace_inside_a_close_tag_name_is_a_terminal_error() {
    let mut lexer = StringLexer::new("</bo dy>".to_string());
    let e = lexer.next_token().unwrap_err();
    assert_eq!(e.kind, LexErrorKind::MalformedTag);
}

#[test]
fn unterminated_comment_is_a_terminal_error() {
    let mut lexer = StringLexer::new("<!-- never closed".to_string());
    let e = lexer.next_token().unwrap_err();
    assert_eq!(e.kind, LexErrorKind::UnexpectedEndOfInput);
    assert_eq!(e.position, 17);
}

#[test]
fn stream_lexer_reads_bytes_as_characters() {
    let q = IoQueue::new(b"<p>Hi</p>".to_vec());
    let mut lexer = StreamLexer::new(q);
    let tok = lexer.next_token().unwrap().unwrap();
    match tok.kind {
        TokenKind::TagOpen(data) => assert_eq!(data.name, "p"),
        _ => panic!("expected an open tag"),
    }
    let tok = lexer.next_token().unwrap().unwrap();
    match tok.kind {
        TokenKind::Text(text) => assert_eq!(text, "Hi"),
        _ => panic!("expected text"),
    }
}

#[test]
fn eof_token_comes_at_the_end_of_input() {
    let mut lexer = StringLexer::new(String::new());
    let tok = lexer.next_token().unwrap().unwrap();
    assert!(matches!(tok.kind, TokenKind::Eof));
    assert_eq!((tok.span.start, tok.span.end), (0, 0));
}

#[test]
fn trailing_whitespace_yields_no_token_then_eof() {
    let mut lexer = StringLexer::new("   ".to_string());
    assert!(lexer.next_token().unwrap().is_none());
    let tok = lexer.next_token().unwrap().unwrap();
    assert!(matches!(tok.kind, TokenKind::Eof));
    assert_eq!((tok.span.start, tok.span.end), (3, 3));
}

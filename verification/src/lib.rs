//! Early stages of an HTML document ingestion pipeline: character-encoding
//! determination and tokenization, following the WHATWG HTML and Encoding
//! specifications.
//!
//! Raw bytes enter an [`io_queue::IoQueue`]; the parser consults BOM sniffing
//! and the byte-level pre-scan to pick a `(CharacterEncoding, EncodingConfidence)`
//! pair; the UTF-8 scalar decoder pulls Unicode scalar values from the same
//! cursor while rejecting disallowed code points; and the character-level lexer
//! turns decoded text into tokens.

pub mod character_encoding;
pub mod decoder;
pub mod error;
pub mod io_queue;
pub mod lexer;
pub mod parser;
pub mod prescan;

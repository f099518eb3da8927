//! The character-level tokenizer.
//!
//! Turns a stream of already-decoded characters into Doctype, Comment,
//! TagOpen, TagClose, TagSelfClose, Text, and Eof tokens. The character
//! source is either an in-memory string or a streaming byte cursor; both
//! expose the same peeking interface. Malformed input (a doctype that is
//! not `html`, an illegal character in a closing tag, input ending inside a
//! token) is a terminal failure carrying the position it occurred at.

use vstd::prelude::*;

use crate::character_encoding::lower_char;
use crate::character_encoding::lower_seq;
use crate::io_queue::IoQueue;
use crate::prescan::bytes_as_chars;

verus! {

/// A half-open `[start, end)` character-offset range attached to every
/// token for diagnostics.
#[derive(Clone, Copy, Debug, PartialEq, Eq, Structural)]
pub struct Span {
    pub start: usize,
    pub end: usize,
}

impl Span {
    pub fn new(start: usize, end: usize) -> (s: Span)
        ensures
            s == (Span { start, end }),
    {
        Span { start, end }
    }
}

/// A tag name plus its attributes; attribute names are unique within a tag
/// and keep their first value.
#[derive(Debug)]
pub struct TagData {
    pub name: String,
    pub attributes: Vec<(String, String)>,
}

/// The lexical classes of a token.
#[derive(Debug)]
pub enum TokenKind {
    Doctype(String),
    Comment(String),
    TagOpen(TagData),
    TagClose(String),
    TagSelfClose(TagData),
    Text(String),
    Eof,
}

/// A token: its class, the verbatim text it was lexed from, and its span.
#[derive(Debug)]
pub struct Token {
    pub kind: TokenKind,
    pub text: String,
    pub span: Span,
}

impl Token {
    pub fn new(kind: TokenKind, text: String, span: Span) -> (t: Token)
        ensures
            t.kind == kind && t.text == text && t.span == span,
    {
        Token { kind, text, span }
    }
}

/// The mathematical model of a token's class.
pub enum SpecTokenKind {
    Doctype(Seq<char>),
    Comment(Seq<char>),
    TagOpen(Seq<char>, Seq<(Seq<char>, Seq<char>)>),
    TagClose(Seq<char>),
    TagSelfClose(Seq<char>, Seq<(Seq<char>, Seq<char>)>),
    Text(Seq<char>),
    Eof,
}

/// The mathematical model of a token.
pub struct SpecToken {
    pub kind: SpecTokenKind,
    pub text: Seq<char>,
    pub start: int,
    pub end: int,
}

/// The attribute pairs of a tag, as sequences.
pub open spec fn attrs_view(attrs: Seq<(String, String)>) -> Seq<(Seq<char>, Seq<char>)> {
    Seq::new(attrs.len(), |i: int| (attrs[i].0@, attrs[i].1@))
}

impl View for TokenKind {
    type V = SpecTokenKind;

    open spec fn view(&self) -> SpecTokenKind {
        match self {
            TokenKind::Doctype(s) => SpecTokenKind::Doctype(s@),
            TokenKind::Comment(s) => SpecTokenKind::Comment(s@),
            TokenKind::TagOpen(d) => SpecTokenKind::TagOpen(d.name@, attrs_view(d.attributes@)),
            TokenKind::TagClose(s) => SpecTokenKind::TagClose(s@),
            TokenKind::TagSelfClose(d) => SpecTokenKind::TagSelfClose(
                d.name@,
                attrs_view(d.attributes@),
            ),
            TokenKind::Text(s) => SpecTokenKind::Text(s@),
            TokenKind::Eof => SpecTokenKind::Eof,
        }
    }
}

impl View for Token {
    type V = SpecToken;

    open spec fn view(&self) -> SpecToken {
        SpecToken {
            kind: self.kind@,
            text: self.text@,
            start: self.span.start as int,
            end: self.span.end as int,
        }
    }
}

/// Why lexing failed.
#[derive(Clone, Copy, Debug, PartialEq, Eq, Structural)]
pub enum LexErrorKind {
    /// The input ended inside a token.
    UnexpectedEndOfInput,
    /// A doctype without the single space or the name `html`.
    MalformedDoctype,
    /// An illegal character or an empty or spaced name in a tag.
    MalformedTag,
}

/// A terminal lexing failure and the character offset it occurred at.
#[derive(Clone, Copy, Debug, PartialEq, Eq, Structural)]
pub struct LexError {
    pub kind: LexErrorKind,
    pub position: usize,
}

/// The model of a lexing failure, with an unbounded offset.
pub struct SpecLexError {
    pub kind: LexErrorKind,
    pub position: int,
}

/// Unicode whitespace, as the tokenizer skips it between tokens: the
/// characters carrying the White_Space property.
pub open spec fn is_lex_ws(c: char) -> bool {
    let u = c as u32;
    ||| 0x09 <= u <= 0x0D
    ||| u == 0x20
    ||| u == 0x85
    ||| u == 0xA0
    ||| u == 0x1680
    ||| 0x2000 <= u <= 0x200A
    ||| u == 0x2028 || u == 0x2029 || u == 0x202F || u == 0x205F || u == 0x3000
}

/// ASCII whitespace.
pub open spec fn is_ascii_ws(c: char) -> bool {
    let u = c as u32;
    u == 0x20 || u == 0x09 || u == 0x0A || u == 0x0C || u == 0x0D
}

/// An ASCII letter.
pub open spec fn is_ascii_alpha(c: char) -> bool {
    let u = c as u32;
    (0x61 <= u <= 0x7A) || (0x41 <= u <= 0x5A)
}

/// Whether the characters at offset `i` of `t` are exactly `pat`.
pub open spec fn lex_match(t: Seq<char>, i: int, pat: Seq<char>) -> bool {
    i + pat.len() <= t.len() && t.subrange(i, i + pat.len()) == pat
}

/// Whether the characters at offset `i` of `t` are `pat`, ASCII
/// case-insensitively.
pub open spec fn lex_match_nocase(t: Seq<char>, i: int, pat: Seq<char>) -> bool {
    i + pat.len() <= t.len() && lower_seq(t.subrange(i, i + pat.len())) == lower_seq(pat)
}

/// First offset at or after `i` holding no whitespace, or the length.
pub open spec fn skip_lex_ws(t: Seq<char>, i: int) -> int
    decreases t.len() - i,
{
    if i < 0 || i >= t.len() {
        t.len() as int
    } else if is_lex_ws(t[i]) {
        skip_lex_ws(t, i + 1)
    } else {
        i
    }
}

/// First offset at or after `p` where the comment terminator `-->` starts.
pub open spec fn find_comment_end(t: Seq<char>, p: int) -> Option<int>
    decreases t.len() - p,
{
    if p < 0 || p >= t.len() {
        None
    } else if p + 3 <= t.len() && t.subrange(p, p + 3) == seq!['-', '-', '>'] {
        Some(p)
    } else {
        find_comment_end(t, p + 1)
    }
}

/// First offset at or after `p` holding the character `c`.
pub open spec fn find_char(t: Seq<char>, p: int, c: char) -> Option<int>
    decreases t.len() - p,
{
    if p < 0 || p >= t.len() {
        None
    } else if t[p] == c {
        Some(p)
    } else {
        find_char(t, p + 1, c)
    }
}

/// First offset at or after `i` of `s` holding no whitespace.
pub open spec fn first_non_ws(s: Seq<char>, i: int) -> int
    decreases s.len() - i,
{
    if i < 0 || i >= s.len() {
        s.len() as int
    } else if is_lex_ws(s[i]) {
        first_non_ws(s, i + 1)
    } else {
        i
    }
}

/// Last offset at or before `i` of `s` holding no whitespace, or -1.
pub open spec fn last_non_ws(s: Seq<char>, i: int) -> int
    decreases i + 1,
{
    if i < 0 {
        -1
    } else if i >= s.len() {
        last_non_ws(s, s.len() - 1)
    } else if is_lex_ws(s[i]) {
        last_non_ws(s, i - 1)
    } else {
        i
    }
}

/// The sequence with leading and trailing whitespace removed.
pub open spec fn trim_seq(s: Seq<char>) -> Seq<char> {
    let a = first_non_ws(s, 0);
    let b = last_non_ws(s, s.len() - 1);
    if a > b {
        Seq::empty()
    } else {
        s.subrange(a, b + 1)
    }
}

/// The Eof token at position `pos`, with an empty span.
pub open spec fn eof_token(pos: int) -> SpecToken {
    SpecToken { kind: SpecTokenKind::Eof, text: Seq::empty(), start: pos, end: pos }
}

/// The comment token opened at offset `i`: verbatim text up to `-->`.
pub open spec fn spec_comment_tok(t: Seq<char>, pos: int, i: int) -> Result<
    (Option<SpecToken>, int),
    SpecLexError,
> {
    match find_comment_end(t, i + 4) {
        None => Err(SpecLexError { kind: LexErrorKind::UnexpectedEndOfInput, position: pos + t.len() }),
        Some(q) => Ok(
            (
                Some(
                    SpecToken {
                        kind: SpecTokenKind::Comment(t.subrange(i + 4, q)),
                        text: t.subrange(i, q + 3),
                        start: pos + i,
                        end: pos + q + 3,
                    },
                ),
                q + 3,
            ),
        ),
    }
}

/// The doctype token opened at offset `i`: `<!DOCTYPE`, one space, a name
/// that must read `html` after trimming and lower-casing, and `>`.
pub open spec fn spec_doctype_tok(t: Seq<char>, pos: int, i: int) -> Result<
    (Option<SpecToken>, int),
    SpecLexError,
> {
    if i + 9 >= t.len() {
        Err(SpecLexError { kind: LexErrorKind::UnexpectedEndOfInput, position: pos + t.len() })
    } else if t[i + 9] != ' ' {
        Err(SpecLexError { kind: LexErrorKind::MalformedDoctype, position: pos + i + 9 })
    } else {
        match find_char(t, i + 10, '>') {
            None => Err(
                SpecLexError { kind: LexErrorKind::UnexpectedEndOfInput, position: pos + t.len() },
            ),
            Some(q) => {
                if lower_seq(trim_seq(t.subrange(i + 10, q))) != "html"@ {
                    Err(SpecLexError { kind: LexErrorKind::MalformedDoctype, position: pos + q })
                } else {
                    Ok(
                        (
                            Some(
                                SpecToken {
                                    kind: SpecTokenKind::Doctype(
                                        lower_seq(trim_seq(t.subrange(i + 10, q))),
                                    ),
                                    text: t.subrange(i, q + 1),
                                    start: pos + i,
                                    end: pos + q + 1,
                                },
                            ),
                            q + 1,
                        ),
                    )
                }
            },
        }
    }
}

/// Scan of a closing tag's name from offset `p`: the offset of the `>`
/// (`Ok(Some)`), the end of input (`Ok(None)`), or the offset of an illegal
/// character.
pub open spec fn close_scan(t: Seq<char>, p: int) -> Result<Option<int>, int>
    decreases t.len() - p,
{
    if p < 0 || p >= t.len() {
        Ok(None)
    } else if t[p] == '>' {
        Ok(Some(p))
    } else if is_ascii_alpha(t[p]) || is_ascii_ws(t[p]) {
        close_scan(t, p + 1)
    } else {
        Err(p)
    }
}

/// Whether some character of `s` is ASCII whitespace.
pub open spec fn has_ascii_ws(s: Seq<char>) -> bool {
    exists|k: int| 0 <= k < s.len() && is_ascii_ws(#[trigger] s[k])
}

/// The closing-tag token opened at offset `i`: `</`, a name of ASCII
/// letters optionally surrounded by whitespace, and `>`.
pub open spec fn spec_close_tok(t: Seq<char>, pos: int, i: int) -> Result<
    (Option<SpecToken>, int),
    SpecLexError,
> {
    match close_scan(t, i + 2) {
        Err(bad) => Err(SpecLexError { kind: LexErrorKind::MalformedTag, position: pos + bad }),
        Ok(found) => {
            let upto = match found {
                Some(q) => q,
                None => t.len() as int,
            };
            let raw = t.subrange(i + 2, upto);
            if raw.len() == 0 || trim_seq(raw).len() == 0 || has_ascii_ws(trim_seq(raw)) {
                Err(SpecLexError { kind: LexErrorKind::MalformedTag, position: pos + upto })
            } else {
                match found {
                    None => Err(
                        SpecLexError {
                            kind: LexErrorKind::UnexpectedEndOfInput,
                            position: pos + t.len(),
                        },
                    ),
                    Some(q) => Ok(
                        (
                            Some(
                                SpecToken {
                                    kind: SpecTokenKind::TagClose(trim_seq(raw)),
                                    text: t.subrange(i, q + 1),
                                    start: pos + i,
                                    end: pos + q + 1,
                                },
                            ),
                            q + 1,
                        ),
                    ),
                }
            }
        },
    }
}

/// The text token opened at offset `i`: runs until the next `<` or the end
/// of input; its class carries the trimmed text, its text the raw run.
pub open spec fn spec_text_tok(t: Seq<char>, pos: int, i: int) -> Result<
    (Option<SpecToken>, int),
    SpecLexError,
> {
    let upto = match find_char(t, i, '<') {
        Some(q) => q,
        None => t.len() as int,
    };
    Ok(
        (
            Some(
                SpecToken {
                    kind: SpecTokenKind::Text(trim_seq(t.subrange(i, upto))),
                    text: t.subrange(i, upto),
                    start: pos + i,
                    end: pos + upto,
                },
            ),
            upto,
        ),
    )
}

/// First offset at or after `p` holding no ASCII letter.
pub open spec fn alpha_end(t: Seq<char>, p: int) -> int
    decreases t.len() - p,
{
    if p < 0 || p >= t.len() {
        t.len() as int
    } else if is_ascii_alpha(t[p]) {
        alpha_end(t, p + 1)
    } else {
        p
    }
}

/// First offset at or after `i` holding no ASCII whitespace.
pub open spec fn skip_ascii_ws(t: Seq<char>, i: int) -> int
    decreases t.len() - i,
{
    if i < 0 || i >= t.len() {
        t.len() as int
    } else if is_ascii_ws(t[i]) {
        skip_ascii_ws(t, i + 1)
    } else {
        i
    }
}

/// End of an unquoted attribute value: the first ASCII whitespace or `>` at
/// or after `i`, or the length.
pub open spec fn uq_end(t: Seq<char>, i: int) -> int
    decreases t.len() - i,
{
    if i < 0 || i >= t.len() {
        t.len() as int
    } else if is_ascii_ws(t[i]) || t[i] == '>' {
        i
    } else {
        uq_end(t, i + 1)
    }
}

/// Whether an attribute of this name was already collected.
pub open spec fn attrs_have_name(attrs: Seq<(Seq<char>, Seq<char>)>, name: Seq<char>) -> bool {
    exists|k: int| 0 <= k < attrs.len() && (#[trigger] attrs[k]).0 == name
}

/// Attribute value of an open tag, entered after the `=` sign.
pub open spec fn oa_value(t: Seq<char>, pos: int, p: int, name: Seq<char>) -> Result<
    (Seq<char>, Seq<char>, int),
    SpecLexError,
> {
    let j = skip_ascii_ws(t, p);
    if j >= t.len() {
        Err(SpecLexError { kind: LexErrorKind::UnexpectedEndOfInput, position: pos + t.len() })
    } else {
        let c = t[j];
        if c == '"' || c == '\'' {
            match find_char(t, j + 1, c) {
                None => Err(
                    SpecLexError {
                        kind: LexErrorKind::UnexpectedEndOfInput,
                        position: pos + t.len(),
                    },
                ),
                Some(e) => Ok((name, lower_seq(t.subrange(j + 1, e)), e + 1)),
            }
        } else if c == '>' {
            Ok((name, Seq::empty(), j))
        } else {
            Ok((name, lower_seq(t.subrange(j, uq_end(t, j))), uq_end(t, j)))
        }
    }
}

/// Whitespace inside an attribute name of an open tag: the name ends here
/// unless an `=` follows.
pub open spec fn oa_after_ws(t: Seq<char>, pos: int, p: int, acc: Seq<char>) -> Result<
    (Seq<char>, Seq<char>, int),
    SpecLexError,
> {
    let j = skip_ascii_ws(t, p);
    if j >= t.len() {
        Err(SpecLexError { kind: LexErrorKind::UnexpectedEndOfInput, position: pos + t.len() })
    } else if t[j] == '=' {
        oa_value(t, pos, j + 1, acc)
    } else {
        Ok((acc, Seq::empty(), j))
    }
}

/// Attribute name of an open tag, lower-cased while copying.
pub open spec fn oa_name(t: Seq<char>, pos: int, p: int, acc: Seq<char>) -> Result<
    (Seq<char>, Seq<char>, int),
    SpecLexError,
>
    decreases t.len() - p,
{
    if p >= t.len() {
        Err(SpecLexError { kind: LexErrorKind::UnexpectedEndOfInput, position: pos + t.len() })
    } else {
        let c = t[p];
        if c == '=' && acc.len() > 0 {
            oa_value(t, pos, p + 1, acc)
        } else if is_ascii_ws(c) {
            oa_after_ws(t, pos, p, acc)
        } else if c == '/' || c == '>' {
            Ok((acc, Seq::empty(), p))
        } else {
            oa_name(t, pos, p + 1, acc.push(lower_char(c)))
        }
    }
}

/// The attribute loop of an open tag: skips whitespace and stray slashes,
/// ends at `>` or `/>`, and collects distinct attribute names, first value
/// winning. An attribute scan that does not advance is treated as the end
/// of input, which also bounds the loop.
pub open spec fn open_attrs(
    t: Seq<char>,
    pos: int,
    p: int,
    attrs: Seq<(Seq<char>, Seq<char>)>,
) -> Result<(bool, Seq<(Seq<char>, Seq<char>)>, int), SpecLexError>
    decreases t.len() - p,
{
    if p >= t.len() {
        Err(SpecLexError { kind: LexErrorKind::UnexpectedEndOfInput, position: pos + t.len() })
    } else {
        let c = t[p];
        if is_ascii_ws(c) {
            open_attrs(t, pos, p + 1, attrs)
        } else if c == '/' {
            if p + 1 < t.len() && t[p + 1] == '>' {
                Ok((true, attrs, p + 2))
            } else {
                open_attrs(t, pos, p + 1, attrs)
            }
        } else if c == '>' {
            Ok((false, attrs, p + 1))
        } else {
            match oa_name(t, pos, p, Seq::empty()) {
                Err(e) => Err(e),
                Ok((nm, val, p2)) => {
                    if !(p < p2 <= t.len()) {
                        Err(
                            SpecLexError {
                                kind: LexErrorKind::UnexpectedEndOfInput,
                                position: pos + t.len(),
                            },
                        )
                    } else {
                        open_attrs(
                            t,
                            pos,
                            p2,
                            if attrs_have_name(attrs, nm) {
                                attrs
                            } else {
                                attrs.push((nm, val))
                            },
                        )
                    }
                },
            }
        }
    }
}

/// The open or self-closing tag token at offset `i`: `<`, a name of one or
/// more ASCII letters (lower-cased), attributes, and `>` or `/>`.
pub open spec fn spec_open_tok(t: Seq<char>, pos: int, i: int) -> Result<
    (Option<SpecToken>, int),
    SpecLexError,
> {
    let ne = alpha_end(t, i + 1);
    if ne == i + 1 {
        Err(SpecLexError { kind: LexErrorKind::MalformedTag, position: pos + i + 1 })
    } else {
        match open_attrs(t, pos, ne, Seq::empty()) {
            Err(e) => Err(e),
            Ok((self_close, attrs, end)) => Ok(
                (
                    Some(
                        SpecToken {
                            kind: if self_close {
                                SpecTokenKind::TagSelfClose(lower_seq(t.subrange(i + 1, ne)), attrs)
                            } else {
                                SpecTokenKind::TagOpen(lower_seq(t.subrange(i + 1, ne)), attrs)
                            },
                            text: t.subrange(i, end),
                            start: pos + i,
                            end: pos + end,
                        },
                    ),
                    end,
                ),
            ),
        }
    }
}

/// The dispatch loop of the tokenizer at offset `i` of the unconsumed
/// characters: comment, doctype, closing tag, open tag, whitespace munched
/// between tokens, or a text run. `Ok((None, n))` is the case where only
/// whitespace was left: it is munched and no token comes until the next
/// call reports Eof. A whitespace skip that does not advance is treated
/// the same way, which also bounds the loop.
pub open spec fn spec_token_loop(t: Seq<char>, pos: int, i: int) -> Result<
    (Option<SpecToken>, int),
    SpecLexError,
>
    decreases t.len() - i,
{
    if lex_match(t, i, "<!--"@) {
        spec_comment_tok(t, pos, i)
    } else if lex_match_nocase(t, i, "<!DOCTYPE"@) {
        spec_doctype_tok(t, pos, i)
    } else if lex_match(t, i, "</"@) {
        spec_close_tok(t, pos, i)
    } else if lex_match(t, i, "<"@) {
        spec_open_tok(t, pos, i)
    } else if 0 <= i < t.len() && is_lex_ws(t[i]) {
        let j = skip_lex_ws(t, i);
        if j >= t.len() {
            Ok((None, t.len() as int))
        } else if !(i < j <= t.len()) {
            Ok((None, t.len() as int))
        } else {
            spec_token_loop(t, pos, j)
        }
    } else {
        spec_text_tok(t, pos, i)
    }
}

/// What one call of the tokenizer yields on the unconsumed characters `t`
/// at absolute position `pos`: a token and the count of characters it
/// consumes, no token (trailing whitespace munched), or a terminal error.
pub open spec fn spec_next_token(t: Seq<char>, pos: int) -> Result<
    (Option<SpecToken>, int),
    SpecLexError,
> {
    if t.len() == 0 {
        Ok((Some(eof_token(pos)), 0))
    } else {
        spec_token_loop(t, pos, 0)
    }
}

/// A source of decoded characters with arbitrary lookahead: either an
/// in-memory string or a streaming byte cursor.
pub trait Lexer: Sized {
    /// The characters not yet consumed.
    spec fn remaining_chars(&self) -> Seq<char>;

    /// The count of characters consumed so far.
    spec fn spec_position(&self) -> int;

    /// Positions stay within machine bounds.
    spec fn wf(&self) -> bool;

    /// A well-formed lexer's position and remaining input fit the machine.
    proof fn wf_bounds(&self)
        requires
            self.wf(),
        ensures
            0 <= self.spec_position(),
            self.spec_position() + self.remaining_chars().len() <= usize::MAX,
    ;

    /// Consumes and returns the next character.
    fn next_char(&mut self) -> (r: Option<char>)
        requires
            old(self).wf(),
        ensures
            final(self).wf(),
            old(self).remaining_chars().len() == 0 ==> {
                &&& r is None
                &&& final(self).remaining_chars() == old(self).remaining_chars()
                &&& final(self).spec_position() == old(self).spec_position()
            },
            old(self).remaining_chars().len() > 0 ==> {
                &&& r == Some(old(self).remaining_chars()[0])
                &&& final(self).remaining_chars() == old(self).remaining_chars().skip(1)
                &&& final(self).spec_position() == old(self).spec_position() + 1
            },
    ;

    /// Non-consuming lookahead at the next character.
    fn peek_char(&self) -> (r: Option<char>)
        requires
            self.wf(),
        ensures
            r == (if self.remaining_chars().len() > 0 {
                Some(self.remaining_chars()[0])
            } else {
                None::<char>
            }),
    ;

    /// Non-consuming lookahead at the `n`-th next character.
    fn peek_char_nth(&self, n: usize) -> (r: Option<char>)
        requires
            self.wf(),
        ensures
            r == (if n < self.remaining_chars().len() {
                Some(self.remaining_chars()[n as int])
            } else {
                None::<char>
            }),
    ;

    /// The count of characters consumed so far.
    fn get_position(&self) -> (p: usize)
        requires
            self.wf(),
        ensures
            p == self.spec_position(),
            p + self.remaining_chars().len() <= usize::MAX,
    ;
}

/// A lexer over an in-memory string.
pub struct StringLexer {
    chars: Vec<char>,
    position: usize,
}

impl StringLexer {
    pub fn new(input: String) -> (r: StringLexer)
        ensures
            r.wf(),
            r.remaining_chars() == input@,
            r.spec_position() == 0,
    {
        let chars = crate::character_encoding::str_to_chars(input.as_str());
        let r = StringLexer { chars, position: 0 };
        proof {
            assert(r.remaining_chars() =~= input@);
        }
        r
    }
}

impl Lexer for StringLexer {
    closed spec fn remaining_chars(&self) -> Seq<char> {
        self.chars@.skip(self.position as int)
    }

    closed spec fn spec_position(&self) -> int {
        self.position as int
    }

    closed spec fn wf(&self) -> bool {
        self.position <= self.chars@.len()
    }

    proof fn wf_bounds(&self) {
        broadcast use vstd::std_specs::vec::axiom_spec_len;

        assert(vstd::std_specs::vec::spec_vec_len(&self.chars) == self.chars@.len());
    }

    fn next_char(&mut self) -> (r: Option<char>) {
        if self.position < self.chars.len() {
            let c = self.chars[self.position];
            self.position = self.position + 1;
            proof {
                assert(final(self).remaining_chars() =~= old(self).remaining_chars().skip(1));
            }
            Some(c)
        } else {
            proof {
                assert(old(self).remaining_chars().len() == 0);
            }
            None
        }
    }

    fn peek_char(&self) -> (r: Option<char>) {
        if self.position < self.chars.len() {
            Some(self.chars[self.position])
        } else {
            None
        }
    }

    fn peek_char_nth(&self, n: usize) -> (r: Option<char>) {
        if n < self.chars.len() - self.position {
            Some(self.chars[self.position + n])
        } else {
            None
        }
    }

    fn get_position(&self) -> (p: usize) {
        proof {
            broadcast use vstd::std_specs::vec::axiom_spec_len;

            assert(vstd::std_specs::vec::spec_vec_len(&self.chars) == self.chars@.len());
        }
        self.position
    }
}

/// A lexer over a streaming byte cursor, reading each byte as one
/// character.
pub struct StreamLexer {
    input: IoQueue,
    position: usize,
}

impl StreamLexer {
    pub fn new(input: IoQueue) -> (r: StreamLexer)
        requires
            input.wf(),
        ensures
            r.wf(),
            r.remaining_chars() == bytes_as_chars(input.remaining()),
            r.spec_position() == 0,
    {
        proof {
            input.lemma_remaining_bounded();
        }
        StreamLexer { input, position: 0 }
    }
}

impl Lexer for StreamLexer {
    closed spec fn remaining_chars(&self) -> Seq<char> {
        bytes_as_chars(self.input.remaining())
    }

    closed spec fn spec_position(&self) -> int {
        self.position as int
    }

    closed spec fn wf(&self) -> bool {
        self.input.wf() && self.position + self.input.remaining().len() <= usize::MAX
    }

    proof fn wf_bounds(&self) {
    }

    fn next_char(&mut self) -> (r: Option<char>) {
        match self.input.next_byte() {
            Some(b) => {
                self.position = self.position + 1;
                proof {
                    assert(final(self).remaining_chars() =~= old(self).remaining_chars().skip(1));
                }
                Some(b as char)
            },
            None => {
                proof {
                    assert(old(self).remaining_chars().len() == 0);
                }
                None
            },
        }
    }

    fn peek_char(&self) -> (r: Option<char>) {
        match self.input.peek() {
            Some(b) => Some(b as char),
            None => None,
        }
    }

    fn peek_char_nth(&self, n: usize) -> (r: Option<char>) {
        match self.input.peek_nth(n) {
            Some(b) => Some(b as char),
            None => None,
        }
    }

    fn get_position(&self) -> (p: usize) {
        self.position
    }
}

/// Relies on String::push: appends exactly the one character.
#[verifier::external_body]
fn string_push_char(s: &mut String, c: char)
    ensures
        final(s)@ == old(s)@.push(c),
{
    s.push(c);
}

/// Whether the character is Unicode whitespace.
fn is_lex_ws_exec(c: char) -> (r: bool)
    ensures
        r == is_lex_ws(c),
{
    let u = c as u32;
    (0x09 <= u && u <= 0x0D) || u == 0x20 || u == 0x85 || u == 0xA0 || u == 0x1680 || (0x2000 <= u
        && u <= 0x200A) || u == 0x2028 || u == 0x2029 || u == 0x202F || u == 0x205F || u == 0x3000
}

/// Whether the character is ASCII whitespace.
fn is_ascii_ws_exec(c: char) -> (r: bool)
    ensures
        r == is_ascii_ws(c),
{
    let u = c as u32;
    u == 0x20 || u == 0x09 || u == 0x0A || u == 0x0C || u == 0x0D
}

/// Whether the character is an ASCII letter.
fn is_ascii_alpha_exec(c: char) -> (r: bool)
    ensures
        r == is_ascii_alpha(c),
{
    let u = c as u32;
    (0x61 <= u && u <= 0x7A) || (0x41 <= u && u <= 0x5A)
}

/// Builds the string of the characters at offsets `[a, b)` of the
/// unconsumed input.
#[verifier::loop_isolation(false)]
fn peek_string<L: Lexer>(lexer: &L, a: usize, b: usize) -> (r: String)
    requires
        lexer.wf(),
        a <= b <= lexer.remaining_chars().len(),
    ensures
        r@ == lexer.remaining_chars().subrange(a as int, b as int),
{
    let mut out = String::new();
    let mut i: usize = a;
    while i < b
        invariant
            lexer.wf(),
            a <= i <= b <= lexer.remaining_chars().len(),
            out@ == lexer.remaining_chars().subrange(a as int, i as int),
        decreases b - i,
    {
        match lexer.peek_char_nth(i) {
            Some(c) => {
                string_push_char(&mut out, c);
                proof {
                    assert(out@ =~= lexer.remaining_chars().subrange(a as int, i + 1));
                }
            },
            None => {
                proof {
                    assert(false);
                }
            },
        }
        i = i + 1;
    }
    out
}

/// Builds the lower-cased string of the characters at offsets `[a, b)` of
/// the unconsumed input.
#[verifier::loop_isolation(false)]
fn peek_string_lower<L: Lexer>(lexer: &L, a: usize, b: usize) -> (r: String)
    requires
        lexer.wf(),
        a <= b <= lexer.remaining_chars().len(),
    ensures
        r@ == lower_seq(lexer.remaining_chars().subrange(a as int, b as int)),
{
    let mut out = String::new();
    let mut i: usize = a;
    while i < b
        invariant
            lexer.wf(),
            a <= i <= b <= lexer.remaining_chars().len(),
            out@.len() == i - a,
            forall|j: int| #![trigger out@[j]]
                0 <= j < out@.len() ==> out@[j] == lower_char(lexer.remaining_chars()[a + j]),
        decreases b - i,
    {
        match lexer.peek_char_nth(i) {
            Some(c) => {
                string_push_char(&mut out, crate::character_encoding::lower_char_exec(c));
            },
            None => {
                proof {
                    assert(false);
                }
            },
        }
        i = i + 1;
    }
    proof {
        assert(out@ =~= lower_seq(lexer.remaining_chars().subrange(a as int, b as int)));
    }
    out
}

/// Collects the characters at offsets `[a, b)` of the unconsumed input.
#[verifier::loop_isolation(false)]
fn peek_chars<L: Lexer>(lexer: &L, a: usize, b: usize) -> (r: Vec<char>)
    requires
        lexer.wf(),
        a <= b <= lexer.remaining_chars().len(),
    ensures
        r@ == lexer.remaining_chars().subrange(a as int, b as int),
{
    let mut out: Vec<char> = Vec::new();
    let mut i: usize = a;
    while i < b
        invariant
            lexer.wf(),
            a <= i <= b <= lexer.remaining_chars().len(),
            out@ == lexer.remaining_chars().subrange(a as int, i as int),
        decreases b - i,
    {
        match lexer.peek_char_nth(i) {
            Some(c) => {
                out.push(c);
                proof {
                    assert(out@ =~= lexer.remaining_chars().subrange(a as int, i + 1));
                }
            },
            None => {
                proof {
                    assert(false);
                }
            },
        }
        i = i + 1;
    }
    out
}

/// Whether the characters at offset `i` are exactly `pat`.
#[verifier::loop_isolation(false)]
fn lex_match_exec<L: Lexer>(lexer: &L, i: usize, pat: &str) -> (r: bool)
    requires
        lexer.wf(),
        i <= lexer.remaining_chars().len(),
    ensures
        r == lex_match(lexer.remaining_chars(), i as int, pat@),
{
    proof {
        lexer.wf_bounds();
    }
    let ghost t = lexer.remaining_chars();
    let m = pat.unicode_len();
    let mut j: usize = 0;
    let mut p: usize = i;
    while j < m
        invariant
            lexer.wf(),
            m == pat@.len(),
            j <= m,
            p == i + j,
            j == 0 || i + j <= t.len(),
            p <= t.len() || j == 0,
            forall|k: int| #![trigger pat@[k]] 0 <= k < j ==> t[i + k] == pat@[k],
        decreases m - j,
    {
        match lexer.peek_char_nth(p) {
            Some(c) => {
                if c != pat.get_char(j) {
                    proof {
                        assert(i + m <= t.len() ==> t.subrange(i as int, i + m)[j as int] == t[i
                            + j]);
                    }
                    return false;
                }
            },
            None => {
                return false;
            },
        }
        j = j + 1;
        p = p + 1;
    }
    proof {
        if i + m <= t.len() {
            assert(t.subrange(i as int, i + m) =~= pat@);
        }
    }
    true
}

/// Whether the characters at offset `i` are `pat`, ASCII
/// case-insensitively.
#[verifier::loop_isolation(false)]
fn lex_match_nocase_exec<L: Lexer>(lexer: &L, i: usize, pat: &str) -> (r: bool)
    requires
        lexer.wf(),
        i <= lexer.remaining_chars().len(),
    ensures
        r == lex_match_nocase(lexer.remaining_chars(), i as int, pat@),
{
    proof {
        lexer.wf_bounds();
    }
    let ghost t = lexer.remaining_chars();
    let m = pat.unicode_len();
    let mut j: usize = 0;
    let mut p: usize = i;
    while j < m
        invariant
            lexer.wf(),
            m == pat@.len(),
            j <= m,
            p == i + j,
            j == 0 || i + j <= t.len(),
            forall|k: int| #![trigger pat@[k]]
                0 <= k < j ==> lower_char(t[i + k]) == lower_char(pat@[k]),
        decreases m - j,
    {
        match lexer.peek_char_nth(p) {
            Some(c) => {
                let cl = crate::character_encoding::lower_char_exec(c);
                let pl = crate::character_encoding::lower_char_exec(pat.get_char(j));
                if cl != pl {
                    proof {
                        assert(i + m <= t.len() ==> lower_seq(t.subrange(i as int, i + m))[
                            j as int] == lower_char(t[i + j]));
                        assert(lower_seq(pat@)[j as int] == lower_char(pat@[j as int]));
                    }
                    return false;
                }
            },
            None => {
                return false;
            },
        }
        j = j + 1;
        p = p + 1;
    }
    proof {
        if i + m <= t.len() {
            assert(lower_seq(t.subrange(i as int, i + m)) =~= lower_seq(pat@));
        }
    }
    true
}

/// The count of unconsumed characters.
#[verifier::loop_isolation(false)]
fn remaining_len<L: Lexer>(lexer: &L) -> (n: usize)
    requires
        lexer.wf(),
    ensures
        n == lexer.remaining_chars().len(),
{
    proof {
        lexer.wf_bounds();
    }
    let mut n: usize = 0;
    loop
        invariant
            lexer.wf(),
            n <= lexer.remaining_chars().len(),
        decreases lexer.remaining_chars().len() - n,
    {
        match lexer.peek_char_nth(n) {
            Some(_) => {
                n = n + 1;
            },
            None => {
                return n;
            },
        }
    }
}

/// First offset at or after `p` where the comment terminator `-->` starts.
fn find_comment_end_exec<L: Lexer>(lexer: &L, p: usize) -> (r: Option<usize>)
    requires
        lexer.wf(),
        p <= lexer.remaining_chars().len(),
    ensures
        match r {
            None => find_comment_end(lexer.remaining_chars(), p as int) is None,
            Some(q) => find_comment_end(lexer.remaining_chars(), p as int) == Some(q as int) && p
                <= q && q + 3 <= lexer.remaining_chars().len(),
        },
    decreases lexer.remaining_chars().len() - p,
{
    proof {
        lexer.wf_bounds();
    }
    let ghost t = lexer.remaining_chars();
    match lexer.peek_char_nth(p) {
        None => None,
        Some(c0) => {
            let c1 = lexer.peek_char_nth(p + 1);
            let c2 = if c1.is_some() {
                lexer.peek_char_nth(p + 2)
            } else {
                None
            };
            if c0 == '-' && c1 == Some('-') && c2 == Some('>') {
                proof {
                    assert(t.subrange(p as int, p + 3) =~= seq!['-', '-', '>']);
                }
                Some(p)
            } else {
                proof {
                    if p + 3 <= t.len() && t.subrange(p as int, p + 3) == seq!['-', '-', '>'] {
                        assert(t.subrange(p as int, p + 3)[0] == '-');
                        assert(t.subrange(p as int, p + 3)[1] == '-');
                        assert(t.subrange(p as int, p + 3)[2] == '>');
                        assert(false);
                    }
                }
                find_comment_end_exec(lexer, p + 1)
            }
        },
    }
}

/// First offset at or after `p` holding the character `c`.
fn find_char_exec<L: Lexer>(lexer: &L, p: usize, c: char) -> (r: Option<usize>)
    requires
        lexer.wf(),
        p <= lexer.remaining_chars().len(),
    ensures
        match r {
            None => find_char(lexer.remaining_chars(), p as int, c) is None,
            Some(q) => find_char(lexer.remaining_chars(), p as int, c) == Some(q as int) && p <= q
                && q < lexer.remaining_chars().len(),
        },
    decreases lexer.remaining_chars().len() - p,
{
    proof {
        lexer.wf_bounds();
    }
    match lexer.peek_char_nth(p) {
        None => None,
        Some(d) => {
            if d == c {
                Some(p)
            } else {
                find_char_exec(lexer, p + 1, c)
            }
        },
    }
}

/// First offset at or after `i` holding no Unicode whitespace.
fn skip_lex_ws_exec<L: Lexer>(lexer: &L, i: usize) -> (r: usize)
    requires
        lexer.wf(),
        i <= lexer.remaining_chars().len(),
    ensures
        r as int == skip_lex_ws(lexer.remaining_chars(), i as int),
        i <= r <= lexer.remaining_chars().len(),
    decreases lexer.remaining_chars().len() - i,
{
    proof {
        lexer.wf_bounds();
    }
    match lexer.peek_char_nth(i) {
        None => i,
        Some(c) => {
            if is_lex_ws_exec(c) {
                skip_lex_ws_exec(lexer, i + 1)
            } else {
                i
            }
        },
    }
}

/// First offset at or after `i` holding no ASCII whitespace.
fn skip_ascii_ws_exec<L: Lexer>(lexer: &L, i: usize) -> (r: usize)
    requires
        lexer.wf(),
        i <= lexer.remaining_chars().len(),
    ensures
        r as int == skip_ascii_ws(lexer.remaining_chars(), i as int),
        i <= r <= lexer.remaining_chars().len(),
    decreases lexer.remaining_chars().len() - i,
{
    proof {
        lexer.wf_bounds();
    }
    match lexer.peek_char_nth(i) {
        None => i,
        Some(c) => {
            if is_ascii_ws_exec(c) {
                skip_ascii_ws_exec(lexer, i + 1)
            } else {
                i
            }
        },
    }
}

/// First offset at or after `p` holding no ASCII letter.
fn alpha_end_exec<L: Lexer>(lexer: &L, p: usize) -> (r: usize)
    requires
        lexer.wf(),
        p <= lexer.remaining_chars().len(),
    ensures
        r as int == alpha_end(lexer.remaining_chars(), p as int),
        p <= r <= lexer.remaining_chars().len(),
    decreases lexer.remaining_chars().len() - p,
{
    proof {
        lexer.wf_bounds();
    }
    match lexer.peek_char_nth(p) {
        None => p,
        Some(c) => {
            if is_ascii_alpha_exec(c) {
                alpha_end_exec(lexer, p + 1)
            } else {
                p
            }
        },
    }
}

/// End of an unquoted attribute value at or after `i`.
fn uq_end_exec<L: Lexer>(lexer: &L, i: usize) -> (r: usize)
    requires
        lexer.wf(),
        i <= lexer.remaining_chars().len(),
    ensures
        r as int == uq_end(lexer.remaining_chars(), i as int),
        i <= r <= lexer.remaining_chars().len(),
    decreases lexer.remaining_chars().len() - i,
{
    proof {
        lexer.wf_bounds();
    }
    match lexer.peek_char_nth(i) {
        None => i,
        Some(c) => {
            if is_ascii_ws_exec(c) || c == '>' {
                i
            } else {
                uq_end_exec(lexer, i + 1)
            }
        },
    }
}

/// First offset at or after `i` of `v` holding no whitespace.
fn first_non_ws_vec(v: &Vec<char>, i: usize) -> (r: usize)
    requires
        i <= v@.len(),
    ensures
        r as int == first_non_ws(v@, i as int),
        i <= r <= v@.len(),
    decreases v@.len() - i,
{
    if i >= v.len() {
        v.len()
    } else if is_lex_ws_exec(v[i]) {
        first_non_ws_vec(v, i + 1)
    } else {
        i
    }
}

/// One past the last offset of `v` holding no whitespace, or zero.
fn last_non_ws_end_vec(v: &Vec<char>, i: usize) -> (r: usize)
    requires
        i <= v@.len(),
    ensures
        r as int == last_non_ws(v@, i - 1) + 1,
        r <= i,
    decreases i,
{
    if i == 0 {
        0
    } else if is_lex_ws_exec(v[i - 1]) {
        last_non_ws_end_vec(v, i - 1)
    } else {
        i
    }
}

/// The bounds of the trimmed part of `v`: `trim_seq(v@)` is
/// `v@.subrange(r.0, r.1)`.
fn vec_trim_bounds(v: &Vec<char>) -> (r: (usize, usize))
    ensures
        r.0 <= r.1 <= v@.len(),
        trim_seq(v@) == v@.subrange(r.0 as int, r.1 as int),
{
    let a = first_non_ws_vec(v, 0);
    let b = last_non_ws_end_vec(v, v.len());
    if a >= b {
        proof {
            assert(trim_seq(v@) =~= v@.subrange(a as int, a as int));
        }
        (a, a)
    } else {
        (a, b)
    }
}

/// Builds the string of `v[from..to]`.
#[verifier::loop_isolation(false)]
fn chars_to_string(v: &Vec<char>, from: usize, to: usize) -> (r: String)
    requires
        from <= to <= v@.len(),
    ensures
        r@ == v@.subrange(from as int, to as int),
{
    let mut out = String::new();
    let mut i: usize = from;
    while i < to
        invariant
            from <= i <= to <= v@.len(),
            out@ == v@.subrange(from as int, i as int),
        decreases to - i,
    {
        string_push_char(&mut out, v[i]);
        proof {
            assert(out@ =~= v@.subrange(from as int, i + 1));
        }
        i = i + 1;
    }
    out
}

/// Whether `v[from..to]` holds ASCII whitespace.
#[verifier::loop_isolation(false)]
fn range_has_ascii_ws(v: &Vec<char>, from: usize, to: usize) -> (r: bool)
    requires
        from <= to <= v@.len(),
    ensures
        r == has_ascii_ws(v@.subrange(from as int, to as int)),
{
    let ghost sub = v@.subrange(from as int, to as int);
    let mut i: usize = from;
    while i < to
        invariant
            from <= i <= to <= v@.len(),
            forall|k: int| 0 <= k < i - from ==> !is_ascii_ws(#[trigger] sub[k]),
        decreases to - i,
    {
        if is_ascii_ws_exec(v[i]) {
            proof {
                assert(sub[i - from] == v@[i as int]);
            }
            return true;
        }
        i = i + 1;
    }
    false
}

/// The model of an executable lexing failure.
pub open spec fn lex_err_model(e: LexError) -> SpecLexError {
    SpecLexError { kind: e.kind, position: e.position as int }
}

/// How an executable scan result corresponds to its model.
pub open spec fn scan_result_matches(
    r: Result<Option<(Token, usize)>, LexError>,
    g: Result<(Option<SpecToken>, int), SpecLexError>,
    t: Seq<char>,
) -> bool {
    match r {
        Err(e) => g == Err::<(Option<SpecToken>, int), SpecLexError>(lex_err_model(e)),
        Ok(None) => g == Ok::<(Option<SpecToken>, int), SpecLexError>(
            (None::<SpecToken>, t.len() as int),
        ),
        Ok(Some((tok, k))) => g == Ok::<(Option<SpecToken>, int), SpecLexError>(
            (Some(tok@), k as int),
        ) && k <= t.len(),
    }
}

/// Scans a comment token opened at offset `i`.
fn scan_comment<L: Lexer>(lexer: &L, pos: usize, i: usize) -> (r: Result<
    Option<(Token, usize)>,
    LexError,
>)
    requires
        lexer.wf(),
        pos + lexer.remaining_chars().len() <= usize::MAX,
        lex_match(lexer.remaining_chars(), i as int, "<!--"@),
    ensures
        scan_result_matches(r, spec_comment_tok(lexer.remaining_chars(), pos as int, i as int), lexer.remaining_chars()),
{
    let ghost t = lexer.remaining_chars();
    proof {
        reveal_strlit("<!--");
    }
    match find_comment_end_exec(lexer, i + 4) {
        None => Err(
            LexError {
                kind: LexErrorKind::UnexpectedEndOfInput,
                position: pos + remaining_len(lexer),
            },
        ),
        Some(q) => {
            let comment = peek_string(lexer, i + 4, q);
            let text = peek_string(lexer, i, q + 3);
            let tok = Token::new(
                TokenKind::Comment(comment),
                text,
                Span::new(pos + i, pos + q + 3),
            );
            Ok(Some((tok, q + 3)))
        },
    }
}

/// Scans a doctype token opened at offset `i`.
fn scan_doctype<L: Lexer>(lexer: &L, pos: usize, i: usize) -> (r: Result<
    Option<(Token, usize)>,
    LexError,
>)
    requires
        lexer.wf(),
        pos + lexer.remaining_chars().len() <= usize::MAX,
        lex_match_nocase(lexer.remaining_chars(), i as int, "<!DOCTYPE"@),
    ensures
        scan_result_matches(r, spec_doctype_tok(lexer.remaining_chars(), pos as int, i as int), lexer.remaining_chars()),
{
    let ghost t = lexer.remaining_chars();
    proof {
        reveal_strlit("<!DOCTYPE");
    }
    match lexer.peek_char_nth(i + 9) {
        None => Err(
            LexError { kind: LexErrorKind::UnexpectedEndOfInput, position: pos + i + 9 },
        ),
        Some(c) => {
            if c != ' ' {
                Err(LexError { kind: LexErrorKind::MalformedDoctype, position: pos + i + 9 })
            } else {
                match find_char_exec(lexer, i + 10, '>') {
                    None => Err(
                        LexError {
                            kind: LexErrorKind::UnexpectedEndOfInput,
                            position: pos + remaining_len(lexer),
                        },
                    ),
                    Some(q) => {
                        let raw = peek_chars(lexer, i + 10, q);
                        let (a2, b2) = vec_trim_bounds(&raw);
                        let is_html = b2 - a2 == 4 && crate::character_encoding::lower_char_exec(
                            raw[a2],
                        ) == 'h' && crate::character_encoding::lower_char_exec(raw[a2 + 1]) == 't'
                            && crate::character_encoding::lower_char_exec(raw[a2 + 2]) == 'm'
                            && crate::character_encoding::lower_char_exec(raw[a2 + 3]) == 'l';
                        proof {
                            reveal_strlit("html");
                            let trimmed = trim_seq(raw@);
                            if is_html {
                                assert(lower_seq(trimmed) =~= "html"@);
                            } else {
                                if lower_seq(trimmed) == "html"@ {
                                    assert(lower_seq(trimmed).len() == 4);
                                    assert(lower_seq(trimmed)[0] == 'h' && lower_seq(trimmed)[1]
                                        == 't' && lower_seq(trimmed)[2] == 'm' && lower_seq(
                                        trimmed,
                                    )[3] == 'l');
                                    assert(trimmed[0] == raw@[a2 as int] && trimmed[1] == raw@[
                                        a2 + 1] && trimmed[2] == raw@[a2 + 2] && trimmed[3]
                                        == raw@[a2 + 3]);
                                    assert(false);
                                }
                            }
                        }
                        if is_html {
                            let text = peek_string(lexer, i, q + 1);
                            let tok = Token::new(
                                TokenKind::Doctype(String::from_str("html")),
                                text,
                                Span::new(pos + i, pos + q + 1),
                            );
                            Ok(Some((tok, q + 1)))
                        } else {
                            Err(
                                LexError {
                                    kind: LexErrorKind::MalformedDoctype,
                                    position: pos + q,
                                },
                            )
                        }
                    },
                }
            }
        },
    }
}

/// Scan of a closing tag's name from offset `p`.
fn close_scan_exec<L: Lexer>(lexer: &L, p: usize) -> (r: Result<Option<usize>, usize>)
    requires
        lexer.wf(),
        p <= lexer.remaining_chars().len(),
    ensures
        match r {
            Ok(None) => close_scan(lexer.remaining_chars(), p as int) == Ok::<Option<int>, int>(
                None,
            ),
            Ok(Some(q)) => close_scan(lexer.remaining_chars(), p as int) == Ok::<Option<int>, int>(
                Some(q as int),
            ) && p <= q < lexer.remaining_chars().len(),
            Err(b) => close_scan(lexer.remaining_chars(), p as int) == Err::<Option<int>, int>(
                b as int,
            ) && p <= b < lexer.remaining_chars().len(),
        },
    decreases lexer.remaining_chars().len() - p,
{
    proof {
        lexer.wf_bounds();
    }
    match lexer.peek_char_nth(p) {
        None => Ok(None),
        Some(c) => {
            if c == '>' {
                Ok(Some(p))
            } else if is_ascii_alpha_exec(c) || is_ascii_ws_exec(c) {
                close_scan_exec(lexer, p + 1)
            } else {
                Err(p)
            }
        },
    }
}

/// Scans a closing-tag token opened at offset `i`.
fn scan_close<L: Lexer>(lexer: &L, pos: usize, i: usize) -> (r: Result<
    Option<(Token, usize)>,
    LexError,
>)
    requires
        lexer.wf(),
        pos + lexer.remaining_chars().len() <= usize::MAX,
        lex_match(lexer.remaining_chars(), i as int, "</"@),
    ensures
        scan_result_matches(r, spec_close_tok(lexer.remaining_chars(), pos as int, i as int), lexer.remaining_chars()),
{
    let ghost t = lexer.remaining_chars();
    proof {
        reveal_strlit("</");
    }
    match close_scan_exec(lexer, i + 2) {
        Err(bad) => Err(LexError { kind: LexErrorKind::MalformedTag, position: pos + bad }),
        Ok(found) => {
            let upto = match found {
                Some(q) => q,
                None => remaining_len(lexer),
            };
            let raw = peek_chars(lexer, i + 2, upto);
            let (a2, b2) = vec_trim_bounds(&raw);
            if raw.len() == 0 || a2 == b2 || range_has_ascii_ws(&raw, a2, b2) {
                Err(LexError { kind: LexErrorKind::MalformedTag, position: pos + upto })
            } else {
                match found {
                    None => Err(
                        LexError {
                            kind: LexErrorKind::UnexpectedEndOfInput,
                            position: pos + upto,
                        },
                    ),
                    Some(q) => {
                        let name = chars_to_string(&raw, a2, b2);
                        let text = peek_string(lexer, i, q + 1);
                        let tok = Token::new(
                            TokenKind::TagClose(name),
                            text,
                            Span::new(pos + i, pos + q + 1),
                        );
                        Ok(Some((tok, q + 1)))
                    },
                }
            }
        },
    }
}

/// Scans a text token opened at offset `i`.
fn scan_text<L: Lexer>(lexer: &L, pos: usize, i: usize) -> (r: Result<
    Option<(Token, usize)>,
    LexError,
>)
    requires
        lexer.wf(),
        pos + lexer.remaining_chars().len() <= usize::MAX,
        i <= lexer.remaining_chars().len(),
    ensures
        scan_result_matches(r, spec_text_tok(lexer.remaining_chars(), pos as int, i as int), lexer.remaining_chars()),
{
    let upto = match find_char_exec(lexer, i, '<') {
        Some(q) => q,
        None => remaining_len(lexer),
    };
    let raw = peek_chars(lexer, i, upto);
    let (a2, b2) = vec_trim_bounds(&raw);
    let trimmed = chars_to_string(&raw, a2, b2);
    let text = peek_string(lexer, i, upto);
    let tok = Token::new(TokenKind::Text(trimmed), text, Span::new(pos + i, pos + upto));
    Ok(Some((tok, upto)))
}

/// Attribute value of an open tag, entered after the `=` sign.
fn oa_value_exec<L: Lexer>(lexer: &L, pos: usize, p: usize, name: String) -> (r: Result<
    (String, String, usize),
    LexError,
>)
    requires
        lexer.wf(),
        pos + lexer.remaining_chars().len() <= usize::MAX,
        p <= lexer.remaining_chars().len(),
    ensures
        ({
            let g = oa_value(lexer.remaining_chars(), pos as int, p as int, name@);
            match r {
                Err(e) => g == Err::<(Seq<char>, Seq<char>, int), SpecLexError>(lex_err_model(e)),
                Ok((nm, val, np)) => g == Ok::<(Seq<char>, Seq<char>, int), SpecLexError>(
                    (nm@, val@, np as int),
                ) && np <= lexer.remaining_chars().len(),
            }
        }),
{
    let j = skip_ascii_ws_exec(lexer, p);
    match lexer.peek_char_nth(j) {
        None => Err(
            LexError {
                kind: LexErrorKind::UnexpectedEndOfInput,
                position: pos + remaining_len(lexer),
            },
        ),
        Some(c) => {
            if c == '"' || c == '\'' {
                match find_char_exec(lexer, j + 1, c) {
                    None => Err(
                        LexError {
                            kind: LexErrorKind::UnexpectedEndOfInput,
                            position: pos + remaining_len(lexer),
                        },
                    ),
                    Some(e) => {
                        let val = peek_string_lower(lexer, j + 1, e);
                        Ok((name, val, e + 1))
                    },
                }
            } else if c == '>' {
                Ok((name, String::new(), j))
            } else {
                let k = uq_end_exec(lexer, j);
                let val = peek_string_lower(lexer, j, k);
                Ok((name, val, k))
            }
        },
    }
}

/// Whitespace inside an attribute name of an open tag.
fn oa_after_ws_exec<L: Lexer>(lexer: &L, pos: usize, p: usize, acc: String) -> (r: Result<
    (String, String, usize),
    LexError,
>)
    requires
        lexer.wf(),
        pos + lexer.remaining_chars().len() <= usize::MAX,
        p <= lexer.remaining_chars().len(),
    ensures
        ({
            let g = oa_after_ws(lexer.remaining_chars(), pos as int, p as int, acc@);
            match r {
                Err(e) => g == Err::<(Seq<char>, Seq<char>, int), SpecLexError>(lex_err_model(e)),
                Ok((nm, val, np)) => g == Ok::<(Seq<char>, Seq<char>, int), SpecLexError>(
                    (nm@, val@, np as int),
                ) && np <= lexer.remaining_chars().len(),
            }
        }),
{
    let j = skip_ascii_ws_exec(lexer, p);
    match lexer.peek_char_nth(j) {
        None => Err(
            LexError {
                kind: LexErrorKind::UnexpectedEndOfInput,
                position: pos + remaining_len(lexer),
            },
        ),
        Some(c) => {
            if c == '=' {
                oa_value_exec(lexer, pos, j + 1, acc)
            } else {
                Ok((acc, String::new(), j))
            }
        },
    }
}

/// Attribute name of an open tag, lower-cased while copying.
fn oa_name_exec<L: Lexer>(lexer: &L, pos: usize, p: usize, acc: String) -> (r: Result<
    (String, String, usize),
    LexError,
>)
    requires
        lexer.wf(),
        pos + lexer.remaining_chars().len() <= usize::MAX,
        p <= lexer.remaining_chars().len(),
    ensures
        ({
            let g = oa_name(lexer.remaining_chars(), pos as int, p as int, acc@);
            match r {
                Err(e) => g == Err::<(Seq<char>, Seq<char>, int), SpecLexError>(lex_err_model(e)),
                Ok((nm, val, np)) => g == Ok::<(Seq<char>, Seq<char>, int), SpecLexError>(
                    (nm@, val@, np as int),
                ) && np <= lexer.remaining_chars().len(),
            }
        }),
    decreases lexer.remaining_chars().len() - p,
{
    match lexer.peek_char_nth(p) {
        None => Err(
            LexError {
                kind: LexErrorKind::UnexpectedEndOfInput,
                position: pos + remaining_len(lexer),
            },
        ),
        Some(c) => {
            if c == '=' && acc.as_str().unicode_len() > 0 {
                oa_value_exec(lexer, pos, p + 1, acc)
            } else if is_ascii_ws_exec(c) {
                oa_after_ws_exec(lexer, pos, p, acc)
            } else if c == '/' || c == '>' {
                Ok((acc, String::new(), p))
            } else {
                let mut acc2 = acc;
                string_push_char(&mut acc2, crate::character_encoding::lower_char_exec(c));
                oa_name_exec(lexer, pos, p + 1, acc2)
            }
        },
    }
}

/// Whether an attribute of this name was already collected.
#[verifier::loop_isolation(false)]
fn attrs_contain(attrs: &Vec<(String, String)>, name: &String) -> (r: bool)
    ensures
        r == attrs_have_name(attrs_view(attrs@), name@),
{
    let n = attrs.len();
    let mut i: usize = 0;
    while i < n
        invariant
            n == attrs@.len(),
            i <= n,
            forall|k: int| #![trigger attrs@[k]] 0 <= k < i ==> attrs@[k].0@ != name@,
        decreases n - i,
    {
        if attrs[i].0 == *name {
            proof {
                assert(attrs_view(attrs@)[i as int].0 == name@);
            }
            return true;
        }
        i = i + 1;
    }
    proof {
        assert forall|k: int| 0 <= k < attrs_view(attrs@).len() implies (#[trigger] attrs_view(
            attrs@,
        )[k]).0 != name@ by {
            assert(attrs@[k].0@ != name@);
        }
    }
    false
}

/// The attribute loop of an open tag.
fn open_attrs_exec<L: Lexer>(lexer: &L, pos: usize, p: usize, attrs: Vec<(String, String)>) -> (r:
    Result<(bool, Vec<(String, String)>, usize), LexError>)
    requires
        lexer.wf(),
        pos + lexer.remaining_chars().len() <= usize::MAX,
        p <= lexer.remaining_chars().len(),
    ensures
        ({
            let g = open_attrs(lexer.remaining_chars(), pos as int, p as int, attrs_view(attrs@));
            match r {
                Err(e) => g == Err::<(bool, Seq<(Seq<char>, Seq<char>)>, int), SpecLexError>(
                    lex_err_model(e),
                ),
                Ok((sc, a2, end)) => g == Ok::<
                    (bool, Seq<(Seq<char>, Seq<char>)>, int),
                    SpecLexError,
                >((sc, attrs_view(a2@), end as int)) && p <= end
                    <= lexer.remaining_chars().len(),
            }
        }),
    decreases lexer.remaining_chars().len() - p,
{
    proof {
        lexer.wf_bounds();
    }
    match lexer.peek_char_nth(p) {
        None => Err(
            LexError {
                kind: LexErrorKind::UnexpectedEndOfInput,
                position: pos + remaining_len(lexer),
            },
        ),
        Some(c) => {
            if is_ascii_ws_exec(c) {
                open_attrs_exec(lexer, pos, p + 1, attrs)
            } else if c == '/' {
                let next = lexer.peek_char_nth(p + 1);
                if next == Some('>') {
                    Ok((true, attrs, p + 2))
                } else {
                    open_attrs_exec(lexer, pos, p + 1, attrs)
                }
            } else if c == '>' {
                Ok((false, attrs, p + 1))
            } else {
                match oa_name_exec(lexer, pos, p, String::new()) {
                    Err(e) => Err(e),
                    Ok((nm, val, p2)) => {
                        if !(p < p2) {
                            Err(
                                LexError {
                                    kind: LexErrorKind::UnexpectedEndOfInput,
                                    position: pos + remaining_len(lexer),
                                },
                            )
                        } else if attrs_contain(&attrs, &nm) {
                            open_attrs_exec(lexer, pos, p2, attrs)
                        } else {
                            let mut attrs2 = attrs;
                            attrs2.push((nm, val));
                            proof {
                                assert(attrs_view(attrs2@) =~= attrs_view(attrs@).push(
                                    (attrs2@.last().0@, attrs2@.last().1@),
                                ));
                            }
                            open_attrs_exec(lexer, pos, p2, attrs2)
                        }
                    },
                }
            }
        },
    }
}

/// Scans an open or self-closing tag token at offset `i`.
fn scan_open<L: Lexer>(lexer: &L, pos: usize, i: usize) -> (r: Result<
    Option<(Token, usize)>,
    LexError,
>)
    requires
        lexer.wf(),
        pos + lexer.remaining_chars().len() <= usize::MAX,
        lex_match(lexer.remaining_chars(), i as int, "<"@),
    ensures
        scan_result_matches(r, spec_open_tok(lexer.remaining_chars(), pos as int, i as int), lexer.remaining_chars()),
{
    let ghost t = lexer.remaining_chars();
    proof {
        reveal_strlit("<");
    }
    let ne = alpha_end_exec(lexer, i + 1);
    if ne == i + 1 {
        Err(LexError { kind: LexErrorKind::MalformedTag, position: pos + i + 1 })
    } else {
        proof {
            assert(attrs_view(Seq::<(String, String)>::empty()) =~= Seq::<
                (Seq<char>, Seq<char>),
            >::empty());
        }
        match open_attrs_exec(lexer, pos, ne, Vec::new()) {
            Err(e) => Err(e),
            Ok((self_close, attrs, end)) => {
                let name = peek_string_lower(lexer, i + 1, ne);
                let text = peek_string(lexer, i, end);
                let data = TagData { name, attributes: attrs };
                let kind = if self_close {
                    TokenKind::TagSelfClose(data)
                } else {
                    TokenKind::TagOpen(data)
                };
                let tok = Token::new(kind, text, Span::new(pos + i, pos + end));
                Ok(Some((tok, end)))
            },
        }
    }
}

/// The dispatch loop of the tokenizer at offset `i`.
fn scan_token<L: Lexer>(lexer: &L, pos: usize, i: usize) -> (r: Result<
    Option<(Token, usize)>,
    LexError,
>)
    requires
        lexer.wf(),
        pos + lexer.remaining_chars().len() <= usize::MAX,
        i < lexer.remaining_chars().len(),
    ensures
        scan_result_matches(r, spec_token_loop(lexer.remaining_chars(), pos as int, i as int), lexer.remaining_chars()),
    decreases lexer.remaining_chars().len() - i,
{
    proof {
        lexer.wf_bounds();
        reveal_strlit("<!--");
        reveal_strlit("<!DOCTYPE");
        reveal_strlit("</");
        reveal_strlit("<");
    }
    if lex_match_exec(lexer, i, "<!--") {
        scan_comment(lexer, pos, i)
    } else if lex_match_nocase_exec(lexer, i, "<!DOCTYPE") {
        scan_doctype(lexer, pos, i)
    } else if lex_match_exec(lexer, i, "</") {
        scan_close(lexer, pos, i)
    } else if lex_match_exec(lexer, i, "<") {
        scan_open(lexer, pos, i)
    } else {
        let c = match lexer.peek_char_nth(i) {
            Some(c) => c,
            None => {
                proof {
                    assert(false);
                }
                ' '
            },
        };
        if is_lex_ws_exec(c) {
            let j = skip_lex_ws_exec(lexer, i);
            match lexer.peek_char_nth(j) {
                None => Ok(None),
                Some(_) => {
                    if !(i < j) {
                        Ok(None)
                    } else {
                        scan_token(lexer, pos, j)
                    }
                },
            }
        } else {
            scan_text(lexer, pos, i)
        }
    }
}

/// Consumes `k` characters.
#[verifier::loop_isolation(false)]
fn consume_n<L: Lexer>(lexer: &mut L, k: usize)
    requires
        old(lexer).wf(),
        k <= old(lexer).remaining_chars().len(),
    ensures
        final(lexer).wf(),
        final(lexer).remaining_chars() == old(lexer).remaining_chars().skip(k as int),
        final(lexer).spec_position() == old(lexer).spec_position() + k,
{
    let mut i: usize = 0;
    while i < k
        invariant
            lexer.wf(),
            i <= k <= old(lexer).remaining_chars().len(),
            lexer.remaining_chars() == old(lexer).remaining_chars().skip(i as int),
            lexer.spec_position() == old(lexer).spec_position() + i,
        decreases k - i,
    {
        let ghost before = lexer.remaining_chars();
        lexer.next_char();
        proof {
            assert(before.skip(1) =~= old(lexer).remaining_chars().skip(i + 1));
        }
        i = i + 1;
    }
    proof {
        assert(lexer.remaining_chars() =~= old(lexer).remaining_chars().skip(k as int));
    }
}

/// Consumes everything that is left.
#[verifier::loop_isolation(false)]
fn consume_all<L: Lexer>(lexer: &mut L)
    requires
        old(lexer).wf(),
    ensures
        final(lexer).wf(),
        final(lexer).remaining_chars().len() == 0,
        final(lexer).spec_position() == old(lexer).spec_position() + old(
            lexer,
        ).remaining_chars().len(),
    decreases old(lexer).remaining_chars().len(),
{
    loop
        invariant
            lexer.wf(),
            lexer.spec_position() + lexer.remaining_chars().len() == old(lexer).spec_position()
                + old(lexer).remaining_chars().len(),
        decreases lexer.remaining_chars().len(),
    {
        match lexer.next_char() {
            None => {
                return ;
            },
            Some(_) => {},
        }
    }
}

/// Pulls the next token out of the character source: dispatches on
/// lookahead, munches whitespace between tokens, and reports malformed
/// input as a terminal error, leaving the source where it was. At the end
/// of input it yields one Eof token with an empty span; after trailing
/// whitespace it yields nothing until the next call reports Eof.
pub fn next_token<L: Lexer>(lexer: &mut L) -> (r: Result<Option<Token>, LexError>)
    requires
        old(lexer).wf(),
    ensures
        final(lexer).wf(),
        ({
            let g = spec_next_token(old(lexer).remaining_chars(), old(lexer).spec_position());
            match r {
                Err(e) => {
                    &&& g == Err::<(Option<SpecToken>, int), SpecLexError>(lex_err_model(e))
                    &&& final(lexer).remaining_chars() == old(lexer).remaining_chars()
                    &&& final(lexer).spec_position() == old(lexer).spec_position()
                },
                Ok(None) => {
                    &&& g == Ok::<(Option<SpecToken>, int), SpecLexError>(
                        (None::<SpecToken>, old(lexer).remaining_chars().len() as int),
                    )
                    &&& final(lexer).remaining_chars().len() == 0
                    &&& final(lexer).spec_position() == old(lexer).spec_position() + old(
                        lexer,
                    ).remaining_chars().len()
                },
                Ok(Some(tok)) => {
                    let k = final(lexer).spec_position() - old(lexer).spec_position();
                    &&& g == Ok::<(Option<SpecToken>, int), SpecLexError>((Some(tok@), k))
                    &&& final(lexer).remaining_chars() == old(lexer).remaining_chars().skip(k)
                },
            }
        }),
{
    let pos = lexer.get_position();
    match lexer.peek_char() {
        None => {
            let tok = Token::new(TokenKind::Eof, String::new(), Span::new(pos, pos));
            proof {
                assert(old(lexer).remaining_chars().skip(0) =~= old(lexer).remaining_chars());
            }
            return Ok(Some(tok));
        },
        Some(_) => {},
    }
    match scan_token(lexer, pos, 0) {
        Err(e) => Err(e),
        Ok(None) => {
            consume_all(lexer);
            Ok(None)
        },
        Ok(Some((tok, k))) => {
            consume_n(lexer, k);
            Ok(Some(tok))
        },
    }
}

impl StringLexer {
    /// Pulls the next token out of this lexer.
    pub fn next_token(&mut self) -> (r: Result<Option<Token>, LexError>)
        requires
            old(self).wf(),
        ensures
            final(self).wf(),
            ({
                let g = spec_next_token(old(self).remaining_chars(), old(self).spec_position());
                match r {
                    Err(e) => g == Err::<(Option<SpecToken>, int), SpecLexError>(
                        lex_err_model(e),
                    ),
                    Ok(None) => g == Ok::<(Option<SpecToken>, int), SpecLexError>(
                        (None::<SpecToken>, old(self).remaining_chars().len() as int),
                    ),
                    Ok(Some(tok)) => g == Ok::<(Option<SpecToken>, int), SpecLexError>(
                        (
                            Some(tok@),
                            final(self).spec_position() - old(self).spec_position(),
                        ),
                    ),
                }
            }),
    {
        next_token(self)
    }
}

impl StreamLexer {
    /// Pulls the next token out of this lexer.
    pub fn next_token(&mut self) -> (r: Result<Option<Token>, LexError>)
        requires
            old(self).wf(),
        ensures
            final(self).wf(),
            ({
                let g = spec_next_token(old(self).remaining_chars(), old(self).spec_position());
                match r {
                    Err(e) => g == Err::<(Option<SpecToken>, int), SpecLexError>(
                        lex_err_model(e),
                    ),
                    Ok(None) => g == Ok::<(Option<SpecToken>, int), SpecLexError>(
                        (None::<SpecToken>, old(self).remaining_chars().len() as int),
                    ),
                    Ok(Some(tok)) => g == Ok::<(Option<SpecToken>, int), SpecLexError>(
                        (
                            Some(tok@),
                            final(self).spec_position() - old(self).spec_position(),
                        ),
                    ),
                }
            }),
    {
        next_token(self)
    }
}

} // verus!

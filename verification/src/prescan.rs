//! The byte-level pre-scan that inspects the first kilobyte of a document to
//! guess its encoding without decoding it.
//!
//! The scanner walks the raw bytes of the lookahead window for UTF-16 XML
//! prologues, HTML comments, `<meta>` tags carrying a charset, other tags,
//! and finally an XML encoding declaration. Running past the window at any
//! point yields "no encoding found", never an error.

use vstd::prelude::*;

use crate::character_encoding::spec_label_lookup;
use crate::character_encoding::CharacterEncoding;
use crate::character_encoding::parse_label_chars;
use crate::io_queue::IoQueue;

verus! {

/// ASCII whitespace as the pre-scan treats it.
pub open spec fn is_ws(b: u8) -> bool {
    b == 0x09 || b == 0x0A || b == 0x0C || b == 0x0D || b == 0x20
}

/// Whitespace or a solidus, skipped in front of attributes.
pub open spec fn is_ws_or_slash(b: u8) -> bool {
    is_ws(b) || b == 0x2F
}

/// The ASCII letters that open a tag name in the pre-scan.
pub open spec fn is_tag_letter(b: u8) -> bool {
    (0x41 <= b <= 0x5A) || (0x61 <= b <= 0x7A)
}

/// ASCII-lowercases one byte.
pub open spec fn lower_b(b: u8) -> u8 {
    if 0x41 <= b <= 0x5A {
        (b + 0x20) as u8
    } else {
        b
    }
}

/// ASCII-lowercases a byte sequence.
pub open spec fn lower_bytes(s: Seq<u8>) -> Seq<u8> {
    Seq::new(s.len(), |i: int| lower_b(s[i]))
}

/// Reads a byte sequence as characters, one character per byte.
pub open spec fn bytes_as_chars(s: Seq<u8>) -> Seq<char> {
    Seq::new(s.len(), |i: int| s[i] as char)
}

/// Resolves a byte string against the encoding label table.
pub open spec fn label_of_bytes(s: Seq<u8>) -> Option<CharacterEncoding> {
    spec_label_lookup(bytes_as_chars(s))
}

/// The normalization applied to an encoding found inside the document:
/// a document cannot validly declare UTF-16 from inside itself, and
/// `x-user-defined` stands for windows-1252 there.
pub open spec fn normalize_in_document(e: CharacterEncoding) -> CharacterEncoding {
    if e == CharacterEncoding::Utf16BE || e == CharacterEncoding::Utf16LE {
        CharacterEncoding::Utf8
    } else if e == CharacterEncoding::XUserDefined {
        CharacterEncoding::Windows1252
    } else {
        e
    }
}

/// Whether the window holds exactly `pat` at `pos`; `None` when the match
/// would run past the last usable window position.
pub open spec fn win_contains(w: Seq<u8>, pos: int, pat: Seq<u8>) -> Option<bool> {
    if pos + pat.len() > w.len() {
        None
    } else {
        Some(forall|i: int| 0 <= i < pat.len() ==> w[pos + i] == #[trigger] pat[i])
    }
}

/// Whether the window byte at `pos` is `b`; `None` past the window.
pub open spec fn win_byte_is(w: Seq<u8>, pos: int, b: u8) -> Option<bool> {
    if pos + 1 > w.len() {
        None
    } else {
        Some(w[pos] == b)
    }
}

/// The window byte at `pos`, when the position is inside the window.
pub open spec fn win_cur(w: Seq<u8>, pos: int) -> Option<u8> {
    if 0 <= pos < w.len() {
        Some(w[pos])
    } else {
        None
    }
}

/// Position of the start of the next `-->` terminator at or after `p`.
pub open spec fn spec_comment_close(w: Seq<u8>, p: int) -> Option<int>
    decreases w.len() + 2 - p,
{
    if p > w.len() + 1 {
        None
    } else {
        match win_contains(w, p, seq![0x2Du8, 0x2Du8, 0x3Eu8]) {
            None => None,
            Some(true) => Some(p),
            Some(false) => {
                if p > w.len() - 1 {
                    None
                } else {
                    spec_comment_close(w, p + 1)
                }
            },
        }
    }
}

/// First position at or after `p` holding whitespace or `>`.
pub open spec fn spec_skip_to_ws_or_gt(w: Seq<u8>, p: int) -> Option<int>
    decreases w.len() + 2 - p,
{
    if p > w.len() + 1 {
        None
    } else if p + 1 > w.len() {
        None
    } else if is_ws(w[p]) || w[p] == 0x3E {
        Some(p)
    } else {
        spec_skip_to_ws_or_gt(w, p + 1)
    }
}

/// First position at or after `p` holding `>`.
pub open spec fn spec_skip_to_gt(w: Seq<u8>, p: int) -> Option<int>
    decreases w.len() + 2 - p,
{
    if p > w.len() + 1 {
        None
    } else if p + 1 > w.len() {
        None
    } else if w[p] == 0x3E {
        Some(p)
    } else {
        spec_skip_to_gt(w, p + 1)
    }
}

/// First position at or after `p` holding no whitespace.
pub open spec fn spec_skip_ws(w: Seq<u8>, p: int) -> Option<int>
    decreases w.len() + 2 - p,
{
    if p > w.len() + 1 {
        None
    } else if p + 1 > w.len() {
        None
    } else if !is_ws(w[p]) {
        Some(p)
    } else {
        spec_skip_ws(w, p + 1)
    }
}

/// First position at or after `p` holding neither whitespace nor a solidus.
pub open spec fn spec_skip_ws_or_slash(w: Seq<u8>, p: int) -> Option<int>
    decreases w.len() + 2 - p,
{
    if p > w.len() + 1 {
        None
    } else if p + 1 > w.len() {
        None
    } else if !is_ws_or_slash(w[p]) {
        Some(p)
    } else {
        spec_skip_ws_or_slash(w, p + 1)
    }
}

/// Unquoted attribute value, read from `p` until whitespace or `>`.
pub open spec fn ga_unquoted(w: Seq<u8>, p: int, name: Seq<u8>, val: Seq<u8>) -> Option<
    (Option<(Seq<u8>, Seq<u8>)>, int),
>
    decreases w.len() + 2 - p,
{
    if p > w.len() - 1 {
        None
    } else {
        let c = w[p];
        if is_ws(c) || c == 0x3E {
            Some((Some((name, val)), p))
        } else {
            ga_unquoted(w, p + 1, name, val.push(lower_b(c)))
        }
    }
}

/// Quoted attribute value, read from `p` until the opening quote `q` recurs.
pub open spec fn ga_quoted(w: Seq<u8>, p: int, q: u8, name: Seq<u8>, val: Seq<u8>) -> Option<
    (Option<(Seq<u8>, Seq<u8>)>, int),
>
    decreases w.len() + 2 - p,
{
    if p > w.len() - 1 {
        None
    } else {
        let c = w[p];
        if c == q {
            Some((Some((name, val)), p + 1))
        } else {
            ga_quoted(w, p + 1, q, name, val.push(lower_b(c)))
        }
    }
}

/// Attribute value part, entered after the `=` sign.
pub open spec fn ga_value(w: Seq<u8>, p: int, name: Seq<u8>) -> Option<
    (Option<(Seq<u8>, Seq<u8>)>, int),
> {
    if p > w.len() - 1 {
        None
    } else {
        match spec_skip_ws(w, p) {
            None => None,
            Some(p2) => {
                let c = w[p2];
                if c == 0x22 || c == 0x27 {
                    ga_quoted(w, p2 + 1, c, name, Seq::empty())
                } else if c == 0x3E {
                    Some((Some((name, Seq::empty())), p2))
                } else {
                    ga_unquoted(w, p2 + 1, name, Seq::empty().push(lower_b(c)))
                }
            },
        }
    }
}

/// Whitespace seen inside an attribute name: either the name ends here, or
/// an `=` follows and a value comes.
pub open spec fn ga_after_name_ws(w: Seq<u8>, p: int, name: Seq<u8>) -> Option<
    (Option<(Seq<u8>, Seq<u8>)>, int),
> {
    match spec_skip_ws(w, p) {
        None => None,
        Some(p2) => match win_byte_is(w, p2, 0x3D) {
            None => None,
            Some(false) => Some((Some((name, Seq::empty())), p2)),
            Some(true) => ga_value(w, p2 + 1, name),
        },
    }
}

/// Attribute name accumulation, lower-casing while copying.
pub open spec fn ga_name(w: Seq<u8>, p: int, name: Seq<u8>) -> Option<
    (Option<(Seq<u8>, Seq<u8>)>, int),
>
    decreases w.len() + 2 - p,
{
    if p > w.len() - 1 {
        None
    } else {
        let c = w[p];
        if c == 0x3D && name.len() > 0 {
            ga_value(w, p + 1, name)
        } else if is_ws(c) {
            ga_after_name_ws(w, p, name)
        } else if c == 0x2F || c == 0x3E {
            Some((Some((name, Seq::empty())), p))
        } else {
            ga_name(w, p + 1, name.push(lower_b(c)))
        }
    }
}

/// The "get an attribute" sub-algorithm at position `p`: `None` when the
/// window ends first; otherwise the attribute found (or none, at `>`) and
/// the position after it.
pub open spec fn spec_get_attr(w: Seq<u8>, p: int) -> Option<(Option<(Seq<u8>, Seq<u8>)>, int)> {
    match spec_skip_ws_or_slash(w, p) {
        None => None,
        Some(p1) => {
            if p1 > w.len() - 1 {
                None
            } else {
                match win_byte_is(w, p1, 0x3E) {
                    None => None,
                    Some(true) => Some((None, p1)),
                    Some(false) => ga_name(w, p1, Seq::empty()),
                }
            }
        },
    }
}

/// The lowercased bytes of `http-equiv`.
pub open spec fn http_equiv_bytes() -> Seq<u8> {
    seq![0x68u8, 0x74u8, 0x74u8, 0x70u8, 0x2Du8, 0x65u8, 0x71u8, 0x75u8, 0x69u8, 0x76u8]
}

/// The lowercased bytes of `content-type`.
pub open spec fn content_type_bytes() -> Seq<u8> {
    seq![0x63u8, 0x6Fu8, 0x6Eu8, 0x74u8, 0x65u8, 0x6Eu8, 0x74u8, 0x2Du8, 0x74u8, 0x79u8, 0x70u8,
        0x65u8]
}

/// The lowercased bytes of `content`.
pub open spec fn content_bytes() -> Seq<u8> {
    seq![0x63u8, 0x6Fu8, 0x6Eu8, 0x74u8, 0x65u8, 0x6Eu8, 0x74u8]
}

/// The lowercased bytes of `charset`.
pub open spec fn charset_bytes() -> Seq<u8> {
    seq![0x63u8, 0x68u8, 0x61u8, 0x72u8, 0x73u8, 0x65u8, 0x74u8]
}

/// First position at or after `i` where `charset` occurs in `v`.
pub open spec fn find_charset_from(v: Seq<u8>, i: int) -> Option<int>
    decreases v.len() + 1 - i,
{
    if i < 0 || i + 7 > v.len() {
        None
    } else if v.subrange(i, i + 7) == charset_bytes() {
        Some(i)
    } else {
        find_charset_from(v, i + 1)
    }
}

/// First position at or after `i` in `v` holding no whitespace, or the
/// length of `v`.
pub open spec fn skip_ws_in(v: Seq<u8>, i: int) -> int
    decreases v.len() - i,
{
    if i < 0 || i >= v.len() {
        v.len() as int
    } else if is_ws(v[i]) {
        skip_ws_in(v, i + 1)
    } else {
        i
    }
}

/// First position at or after `i` where byte `b` occurs in `v`.
pub open spec fn find_byte_from(v: Seq<u8>, i: int, b: u8) -> Option<int>
    decreases v.len() - i,
{
    if i < 0 || i >= v.len() {
        None
    } else if v[i] == b {
        Some(i)
    } else {
        find_byte_from(v, i + 1, b)
    }
}

/// End of an unquoted charset token: the first whitespace or `;` at or
/// after `i`, or the length of `v`.
pub open spec fn unquoted_end(v: Seq<u8>, i: int) -> int
    decreases v.len() - i,
{
    if i < 0 || i >= v.len() {
        v.len() as int
    } else if is_ws(v[i]) || v[i] == 0x3B {
        i
    } else {
        unquoted_end(v, i + 1)
    }
}

/// Extracts a character encoding from the value of a `content` attribute:
/// locates `charset`, expects `=` after optional whitespace, and reads a
/// quoted or unquoted token after it.
pub open spec fn spec_extract_from_content(v: Seq<u8>, from: int) -> Option<CharacterEncoding>
    decreases v.len() + 1 - from,
{
    match find_charset_from(v, from) {
        None => None,
        Some(i) => {
            let j = skip_ws_in(v, i + 7);
            if j >= v.len() {
                None
            } else if v[j] != 0x3D {
                if j - 1 <= from {
                    None
                } else {
                    spec_extract_from_content(v, j - 1)
                }
            } else {
                let k = skip_ws_in(v, j + 1);
                if k >= v.len() {
                    None
                } else if v[k] == 0x22 || v[k] == 0x27 {
                    match find_byte_from(v, k + 1, v[k]) {
                        None => None,
                        Some(e) => label_of_bytes(v.subrange(k + 1, e)),
                    }
                } else {
                    label_of_bytes(v.subrange(k, unquoted_end(v, k)))
                }
            }
        },
    }
}

/// The `<meta>` attribute loop: collects distinct attribute names and tracks
/// the pragma, the pragma requirement, and the charset found so far. `None`
/// when the window ends first; a scan of an attribute that does not advance
/// is treated the same way, which also bounds the loop.
pub open spec fn spec_meta_attrs(
    w: Seq<u8>,
    p: int,
    names: Seq<Seq<u8>>,
    got_pragma: bool,
    need_pragma: Option<bool>,
    charset: Option<CharacterEncoding>,
) -> Option<(bool, Option<bool>, Option<CharacterEncoding>, int)>
    decreases w.len() + 2 - p,
{
    if p > w.len() + 1 {
        None
    } else {
        match spec_get_attr(w, p) {
            None => None,
            Some((None, p2)) => Some((got_pragma, need_pragma, charset, p2)),
            Some((Some((nm, val)), p2)) => {
                if !(p < p2 <= w.len() + 1) {
                    None
                } else if names.contains(nm) {
                    spec_meta_attrs(w, p2, names, got_pragma, need_pragma, charset)
                } else {
                    let names2 = names.push(nm);
                    if nm == http_equiv_bytes() {
                        spec_meta_attrs(
                            w,
                            p2,
                            names2,
                            got_pragma || val == content_type_bytes(),
                            need_pragma,
                            charset,
                        )
                    } else if nm == content_bytes() {
                        match (spec_extract_from_content(val, 0), charset) {
                            (Some(enc), None) => spec_meta_attrs(
                                w,
                                p2,
                                names2,
                                got_pragma,
                                Some(true),
                                Some(enc),
                            ),
                            _ => spec_meta_attrs(w, p2, names2, got_pragma, need_pragma, charset),
                        }
                    } else if nm == charset_bytes() {
                        spec_meta_attrs(
                            w,
                            p2,
                            names2,
                            got_pragma,
                            Some(false),
                            label_of_bytes(val),
                        )
                    } else {
                        spec_meta_attrs(w, p2, names2, got_pragma, need_pragma, charset)
                    }
                }
            },
        }
    }
}

/// Drains the attributes of a non-`<meta>` tag without inspecting them;
/// an attribute scan that does not advance is treated as window exhaustion,
/// which also bounds the loop.
pub open spec fn spec_drain_attrs(w: Seq<u8>, p: int) -> Option<int>
    decreases w.len() + 2 - p,
{
    if p > w.len() + 1 {
        None
    } else {
        match spec_get_attr(w, p) {
            None => None,
            Some((None, p2)) => Some(p2),
            Some((Some(_), p2)) => {
                if !(p < p2 <= w.len() + 1) {
                    None
                } else {
                    spec_drain_attrs(w, p2)
                }
            },
        }
    }
}

/// Whether the six bytes at `pos` open a `<meta` tag followed by whitespace
/// or a solidus, case-insensitively; `None` past the window.
pub open spec fn spec_meta_head(w: Seq<u8>, pos: int) -> Option<bool> {
    if pos + 6 > w.len() {
        None
    } else {
        Some(w[pos] == 0x3C && lower_b(w[pos + 1]) == 0x6D && lower_b(w[pos + 2]) == 0x65
            && lower_b(w[pos + 3]) == 0x74 && lower_b(w[pos + 4]) == 0x61 && is_ws_or_slash(
            w[pos + 5],
        ))
    }
}

/// Outcome of the `<meta>` branch after its attributes were read.
pub open spec fn spec_meta_result(w: Seq<u8>, pos: int) -> Option<Option<CharacterEncoding>>
    decreases w.len() + 2 - pos, 0int,
{
    match spec_meta_attrs(w, pos + 5, Seq::empty(), false, None, None) {
        None => None,
        Some((got_pragma, need_pragma, charset, pend)) => {
            if !(pos <= pend <= w.len()) {
                None
            } else {
                match need_pragma {
                    None => continue_scan(w, pend),
                    Some(need) => {
                        if need && !got_pragma {
                            continue_scan(w, pend)
                        } else {
                            match charset {
                                None => continue_scan(w, pend),
                                Some(cs) => Some(Some(normalize_in_document(cs))),
                            }
                        }
                    },
                }
            }
        },
    }
}

/// Resumes the main scan loop one byte after `pend`.
pub open spec fn continue_scan(w: Seq<u8>, pend: int) -> Option<Option<CharacterEncoding>>
    decreases w.len() + 1 - pend, 3int,
{
    if pend < 0 || pend > w.len() {
        None
    } else {
        spec_scan(w, pend + 1)
    }
}

/// The main byte-by-byte scan loop of the pre-scan, at position `pos`.
/// `Some(Some(e))` is a `<meta>` hit, `None` means the window was exhausted.
pub open spec fn spec_scan(w: Seq<u8>, pos: int) -> Option<Option<CharacterEncoding>>
    decreases w.len() + 2 - pos, 2int,
{
    if pos < 0 || pos > w.len() - 1 {
        None
    } else {
        match win_contains(w, pos, seq![0x3Cu8, 0x21u8, 0x2Du8, 0x2Du8]) {
            None => None,
            Some(true) => {
                match spec_comment_close(w, pos) {
                    None => None,
                    Some(p) => {
                        if !(pos <= p && p + 2 <= w.len()) {
                            None
                        } else {
                            continue_scan(w, p + 2)
                        }
                    },
                }
            },
            Some(false) => {
                match spec_meta_head(w, pos) {
                    None => None,
                    Some(true) => spec_meta_result(w, pos),
                    Some(false) => spec_scan_tags(w, pos),
                }
            },
        }
    }
}

/// The tag branches of the scan loop: an open or close tag, then the
/// markup-declaration branch, then the single-byte step.
pub open spec fn spec_scan_tags(w: Seq<u8>, pos: int) -> Option<Option<CharacterEncoding>>
    decreases w.len() + 2 - pos, 1int,
{
    let open_head = if pos + 2 > w.len() {
        None
    } else {
        Some(w[pos] == 0x3C && is_tag_letter(w[pos + 1]))
    };
    match open_head {
        None => None,
        Some(open) => {
            let close_head = if pos + 3 > w.len() {
                None
            } else {
                Some(w[pos] == 0x3C && w[pos + 1] == 0x2F && is_tag_letter(w[pos + 2]))
            };
            if open {
                spec_other_tag(w, pos)
            } else {
                match close_head {
                    None => None,
                    Some(true) => spec_other_tag(w, pos),
                    Some(false) => {
                        let special_head = if pos + 2 > w.len() {
                            None
                        } else {
                            Some(w[pos] == 0x3C && (w[pos + 1] == 0x21 || w[pos + 1] == 0x2F
                                || w[pos + 1] == 0x3F))
                        };
                        match special_head {
                            None => None,
                            Some(true) => {
                                match spec_skip_to_gt(w, pos) {
                                    None => None,
                                    Some(p) => {
                                        if !(pos <= p <= w.len()) {
                                            None
                                        } else {
                                            continue_scan(w, p)
                                        }
                                    },
                                }
                            },
                            Some(false) => continue_scan(w, pos),
                        }
                    },
                }
            }
        },
    }
}

/// An open or close tag other than `<meta>`: skip to whitespace or `>`,
/// then drain the attributes.
pub open spec fn spec_other_tag(w: Seq<u8>, pos: int) -> Option<Option<CharacterEncoding>>
    decreases w.len() + 2 - pos, 0int,
{
    match spec_skip_to_ws_or_gt(w, pos) {
        None => None,
        Some(p) => {
            if p > w.len() - 1 {
                None
            } else {
                match spec_drain_attrs(w, p) {
                    None => None,
                    Some(pend) => {
                        if !(pos <= pend <= w.len()) {
                            None
                        } else {
                            continue_scan(w, pend)
                        }
                    },
                }
            }
        },
    }
}

/// The UTF-16 XML-prologue patterns and the main scan loop.
pub open spec fn spec_prescan_main(w: Seq<u8>) -> Option<Option<CharacterEncoding>> {
    match win_contains(w, 0, seq![0x3Cu8, 0x00u8, 0x3Fu8, 0x00u8, 0x78u8, 0x00u8]) {
        None => None,
        Some(true) => Some(Some(CharacterEncoding::Utf16LE)),
        Some(false) => {
            match win_contains(w, 0, seq![0x00u8, 0x3Cu8, 0x00u8, 0x3Fu8, 0x00u8, 0x78u8]) {
                None => None,
                Some(true) => Some(Some(CharacterEncoding::Utf16BE)),
                Some(false) => spec_scan(w, 0),
            }
        },
    }
}

/// First position at or after `p` where `encoding` occurs within the window.
pub open spec fn spec_find_encoding_kw(w: Seq<u8>, p: int) -> Option<int>
    decreases w.len() + 2 - p,
{
    if p > w.len() + 1 {
        None
    } else {
        match win_contains(
            w,
            p,
            seq![0x65u8, 0x6Eu8, 0x63u8, 0x6Fu8, 0x64u8, 0x69u8, 0x6Eu8, 0x67u8],
        ) {
            None => None,
            Some(true) => Some(p),
            Some(false) => spec_find_encoding_kw(w, p + 1),
        }
    }
}

/// First position at or after `p` whose window byte is above 0x20.
pub open spec fn spec_skip_le_space(w: Seq<u8>, p: int) -> Option<int>
    decreases w.len() - p,
{
    if p < 0 || p >= w.len() {
        None
    } else if w[p] > 0x20 {
        Some(p)
    } else {
        spec_skip_le_space(w, p + 1)
    }
}

/// First position in `[p, w.len())` holding byte `b`.
pub open spec fn win_find_byte(w: Seq<u8>, p: int, b: u8) -> Option<int>
    decreases w.len() - p,
{
    if p < 0 || p >= w.len() {
        None
    } else if w[p] == b {
        Some(p)
    } else {
        win_find_byte(w, p + 1, b)
    }
}

/// The XML-prologue fallback: requires the window to start with `<?xml`,
/// locates the `encoding` token, expects `=` and a quoted label, and rejects
/// a token holding a control byte or missing its closing quote.
pub open spec fn spec_xml_encoding(w: Seq<u8>) -> Option<CharacterEncoding> {
    match win_contains(w, 0, seq![0x3Cu8, 0x3Fu8, 0x78u8, 0x6Du8, 0x6Cu8]) {
        None => None,
        Some(false) => None,
        Some(true) => {
            if !(exists|i: int| 0 <= i < w.len() && w[i] == 0x3E) {
                None
            } else {
                match spec_find_encoding_kw(w, 0) {
                    None => None,
                    Some(p) => {
                        match spec_skip_le_space(w, p + 8) {
                            None => None,
                            Some(p2) => {
                                if w[p2] != 0x3D {
                                    None
                                } else {
                                    match spec_skip_le_space(w, p2 + 1) {
                                        None => None,
                                        Some(p3) => spec_xml_quoted(w, p3),
                                    }
                                }
                            },
                        }
                    },
                }
            }
        },
    }
}

/// The quoted label of an XML encoding declaration, starting at the quote.
pub open spec fn spec_xml_quoted(w: Seq<u8>, p3: int) -> Option<CharacterEncoding> {
    let q = w[p3];
    if q != 0x22 && q != 0x27 {
        None
    } else {
        match win_find_byte(w, p3 + 1, q) {
            None => None,
            Some(e) => {
                let tok = w.subrange(p3 + 1, e);
                if exists|i: int| 0 <= i < tok.len() && tok[i] < 0x20 {
                    None
                } else {
                    match label_of_bytes(tok) {
                        None => None,
                        Some(enc) => Some(normalize_in_document(enc)),
                    }
                }
            },
        }
    }
}

/// The whole pre-scan over the window `w`: the byte-pattern scan, then the
/// XML-prologue fallback.
pub open spec fn spec_prescan(w: Seq<u8>) -> Option<CharacterEncoding> {
    if w.len() == 0 {
        None
    } else {
        match spec_prescan_main(w) {
            Some(r) => r,
            None => spec_xml_encoding(w),
        }
    }
}

/// The window the pre-scan looks at: the peeked part of the cursor, capped
/// at 1024 bytes.
pub open spec fn prescan_window(q: IoQueue) -> Seq<u8> {
    q.remaining().take(
        if q.spec_peek_len() <= 1024 {
            q.spec_peek_len() as int
        } else {
            1024
        },
    )
}

/// Compares two byte vectors.
#[verifier::loop_isolation(false)]
fn bytes_eq(a: &Vec<u8>, b: &Vec<u8>) -> (r: bool)
    ensures
        r == (a@ == b@),
{
    if a.len() != b.len() {
        return false;
    }
    let n = a.len();
    let mut i: usize = 0;
    while i < n
        invariant
            n == a@.len(),
            a@.len() == b@.len(),
            i <= n,
            forall|j: int| #![trigger a@[j]] 0 <= j < i ==> a@[j] == b@[j],
        decreases n - i,
    {
        if a[i] != b[i] {
            return false;
        }
        i = i + 1;
    }
    proof {
        assert(a@ =~= b@);
    }
    true
}

/// Whether the bytes spell `http-equiv`.
fn is_bytes_http_equiv(v: &Vec<u8>) -> (r: bool)
    ensures
        r == (v@ == http_equiv_bytes()),
{
    let r = v.len() == 10 && v[0] == 0x68 && v[1] == 0x74 && v[2] == 0x74 && v[3] == 0x70 && v[4]
        == 0x2D && v[5] == 0x65 && v[6] == 0x71 && v[7] == 0x75 && v[8] == 0x69 && v[9] == 0x76;
    proof {
        if r {
            assert(v@ =~= http_equiv_bytes());
        } else {
            assert(v@ != http_equiv_bytes()) by {
                if v@ == http_equiv_bytes() {
                    assert(v@.len() == 10);
                    assert(v@[0] == 0x68 && v@[1] == 0x74 && v@[2] == 0x74 && v@[3] == 0x70
                        && v@[4] == 0x2D && v@[5] == 0x65 && v@[6] == 0x71 && v@[7] == 0x75
                        && v@[8] == 0x69 && v@[9] == 0x76);
                }
            }
        }
    }
    r
}

/// Whether the bytes spell `content-type`.
fn is_bytes_content_type(v: &Vec<u8>) -> (r: bool)
    ensures
        r == (v@ == content_type_bytes()),
{
    let r = v.len() == 12 && v[0] == 0x63 && v[1] == 0x6F && v[2] == 0x6E && v[3] == 0x74 && v[4]
        == 0x65 && v[5] == 0x6E && v[6] == 0x74 && v[7] == 0x2D && v[8] == 0x74 && v[9] == 0x79
        && v[10] == 0x70 && v[11] == 0x65;
    proof {
        if r {
            assert(v@ =~= content_type_bytes());
        } else {
            assert(v@ != content_type_bytes()) by {
                if v@ == content_type_bytes() {
                    assert(v@.len() == 12);
                    assert(v@[0] == 0x63 && v@[1] == 0x6F && v@[2] == 0x6E && v@[3] == 0x74
                        && v@[4] == 0x65 && v@[5] == 0x6E && v@[6] == 0x74 && v@[7] == 0x2D
                        && v@[8] == 0x74 && v@[9] == 0x79 && v@[10] == 0x70 && v@[11] == 0x65);
                }
            }
        }
    }
    r
}

/// Whether the bytes spell `content`.
fn is_bytes_content(v: &Vec<u8>) -> (r: bool)
    ensures
        r == (v@ == content_bytes()),
{
    let r = v.len() == 7 && v[0] == 0x63 && v[1] == 0x6F && v[2] == 0x6E && v[3] == 0x74 && v[4]
        == 0x65 && v[5] == 0x6E && v[6] == 0x74;
    proof {
        if r {
            assert(v@ =~= content_bytes());
        } else {
            assert(v@ != content_bytes()) by {
                if v@ == content_bytes() {
                    assert(v@.len() == 7);
                    assert(v@[0] == 0x63 && v@[1] == 0x6F && v@[2] == 0x6E && v@[3] == 0x74
                        && v@[4] == 0x65 && v@[5] == 0x6E && v@[6] == 0x74);
                }
            }
        }
    }
    r
}

/// Whether the bytes spell `charset`.
fn is_bytes_charset(v: &Vec<u8>) -> (r: bool)
    ensures
        r == (v@ == charset_bytes()),
{
    let r = v.len() == 7 && v[0] == 0x63 && v[1] == 0x68 && v[2] == 0x61 && v[3] == 0x72 && v[4]
        == 0x73 && v[5] == 0x65 && v[6] == 0x74;
    proof {
        if r {
            assert(v@ =~= charset_bytes());
        } else {
            assert(v@ != charset_bytes()) by {
                if v@ == charset_bytes() {
                    assert(v@.len() == 7);
                    assert(v@[0] == 0x63 && v@[1] == 0x68 && v@[2] == 0x61 && v@[3] == 0x72
                        && v@[4] == 0x73 && v@[5] == 0x65 && v@[6] == 0x74);
                }
            }
        }
    }
    r
}

/// ASCII-lowercases one byte.
fn lower_b_exec(b: u8) -> (r: u8)
    ensures
        r == lower_b(b),
{
    if 0x41 <= b && b <= 0x5A {
        b + 0x20
    } else {
        b
    }
}

/// Resolves a byte string against the encoding label table.
#[verifier::loop_isolation(false)]
fn lookup_label_bytes(v: &Vec<u8>) -> (r: Option<CharacterEncoding>)
    ensures
        r == label_of_bytes(v@),
{
    let n = v.len();
    let mut chars: Vec<char> = Vec::new();
    let mut i: usize = 0;
    while i < n
        invariant
            n == v@.len(),
            i <= n,
            chars@.len() == i,
            forall|j: int| #![trigger chars@[j]] 0 <= j < i ==> chars@[j] == v@[j] as char,
        decreases n - i,
    {
        chars.push(v[i] as char);
        i = i + 1;
    }
    proof {
        assert(chars@ =~= bytes_as_chars(v@));
    }
    parse_label_chars(&chars)
}

/// First position at or after `p` holding neither whitespace nor a solidus.
fn skip_ws_or_slash_exec(w: &Vec<u8>, p: usize) -> (r: Option<usize>)
    requires
        w@.len() <= 1024,
        p <= w@.len() + 2,
    ensures
        match r {
            None => spec_skip_ws_or_slash(w@, p as int) is None,
            Some(p2) => spec_skip_ws_or_slash(w@, p as int) == Some(p2 as int) && p <= p2
                && p2 + 1 <= w@.len(),
        },
    decreases w@.len() + 2 - p,
{
    if p + 1 > w.len() {
        None
    } else if !(w[p] == 0x09 || w[p] == 0x0A || w[p] == 0x0C || w[p] == 0x0D || w[p] == 0x20
        || w[p] == 0x2F) {
        Some(p)
    } else {
        skip_ws_or_slash_exec(w, p + 1)
    }
}

/// First position at or after `p` holding no whitespace.
fn skip_ws_exec(w: &Vec<u8>, p: usize) -> (r: Option<usize>)
    requires
        w@.len() <= 1024,
        p <= w@.len() + 2,
    ensures
        match r {
            None => spec_skip_ws(w@, p as int) is None,
            Some(p2) => spec_skip_ws(w@, p as int) == Some(p2 as int) && p <= p2 && p2 + 1
                <= w@.len(),
        },
    decreases w@.len() + 2 - p,
{
    if p + 1 > w.len() {
        None
    } else if !(w[p] == 0x09 || w[p] == 0x0A || w[p] == 0x0C || w[p] == 0x0D || w[p] == 0x20) {
        Some(p)
    } else {
        skip_ws_exec(w, p + 1)
    }
}

/// Unquoted attribute value, read from `p` until whitespace or `>`.
fn ga_unquoted_exec(w: &Vec<u8>, p: usize, name: Vec<u8>, val: Vec<u8>) -> (r: Option<
    (Option<(Vec<u8>, Vec<u8>)>, usize),
>)
    requires
        w@.len() <= 1024,
        p <= w@.len() + 2,
    ensures
        attr_result_matches(r, ga_unquoted(w@, p as int, name@, val@), w@),
    decreases w@.len() + 2 - p,
{
    if p + 1 > w.len() {
        None
    } else {
        let c = w[p];
        if c == 0x09 || c == 0x0A || c == 0x0C || c == 0x0D || c == 0x20 || c == 0x3E {
            Some((Some((name, val)), p))
        } else {
            let mut val2 = val;
            val2.push(lower_b_exec(c));
            ga_unquoted_exec(w, p + 1, name, val2)
        }
    }
}

/// Quoted attribute value, read from `p` until the opening quote `q` recurs.
fn ga_quoted_exec(w: &Vec<u8>, p: usize, q: u8, name: Vec<u8>, val: Vec<u8>) -> (r: Option<
    (Option<(Vec<u8>, Vec<u8>)>, usize),
>)
    requires
        w@.len() <= 1024,
        p <= w@.len() + 2,
    ensures
        attr_result_matches(r, ga_quoted(w@, p as int, q, name@, val@), w@),
    decreases w@.len() + 2 - p,
{
    if p + 1 > w.len() {
        None
    } else {
        let c = w[p];
        if c == q {
            Some((Some((name, val)), p + 1))
        } else {
            let mut val2 = val;
            val2.push(lower_b_exec(c));
            ga_quoted_exec(w, p + 1, q, name, val2)
        }
    }
}

/// How an executable attribute-scan result corresponds to its model, with
/// the position bounds the callers rely on.
pub open spec fn attr_result_matches(
    r: Option<(Option<(Vec<u8>, Vec<u8>)>, usize)>,
    g: Option<(Option<(Seq<u8>, Seq<u8>)>, int)>,
    w: Seq<u8>,
) -> bool {
    match r {
        None => g is None,
        Some((None, p2)) => g == Some((None::<(Seq<u8>, Seq<u8>)>, p2 as int)) && p2 <= w.len()
            + 1,
        Some((Some((nm, val)), p2)) => g == Some((Some((nm@, val@)), p2 as int)) && p2 <= w.len()
            + 1,
    }
}

/// Attribute value part, entered after the `=` sign.
fn ga_value_exec(w: &Vec<u8>, p: usize, name: Vec<u8>) -> (r: Option<
    (Option<(Vec<u8>, Vec<u8>)>, usize),
>)
    requires
        w@.len() <= 1024,
        p <= w@.len() + 2,
    ensures
        attr_result_matches(r, ga_value(w@, p as int, name@), w@),
{
    if p + 1 > w.len() {
        None
    } else {
        match skip_ws_exec(w, p) {
            None => None,
            Some(p2) => {
                let c = w[p2];
                if c == 0x22 || c == 0x27 {
                    ga_quoted_exec(w, p2 + 1, c, name, Vec::new())
                } else if c == 0x3E {
                    Some((Some((name, Vec::new())), p2))
                } else {
                    let mut val: Vec<u8> = Vec::new();
                    val.push(lower_b_exec(c));
                    proof {
                        assert(val@ =~= Seq::<u8>::empty().push(lower_b(w@[p2 as int])));
                    }
                    ga_unquoted_exec(w, p2 + 1, name, val)
                }
            },
        }
    }
}

/// Whitespace seen inside an attribute name: either the name ends here, or
/// an `=` follows and a value comes.
fn ga_after_name_ws_exec(w: &Vec<u8>, p: usize, name: Vec<u8>) -> (r: Option<
    (Option<(Vec<u8>, Vec<u8>)>, usize),
>)
    requires
        w@.len() <= 1024,
        p <= w@.len() + 2,
    ensures
        attr_result_matches(r, ga_after_name_ws(w@, p as int, name@), w@),
{
    match skip_ws_exec(w, p) {
        None => None,
        Some(p2) => {
            if p2 + 1 > w.len() {
                None
            } else if w[p2] != 0x3D {
                Some((Some((name, Vec::new())), p2))
            } else {
                ga_value_exec(w, p2 + 1, name)
            }
        },
    }
}

/// Attribute name accumulation, lower-casing while copying.
fn ga_name_exec(w: &Vec<u8>, p: usize, name: Vec<u8>) -> (r: Option<
    (Option<(Vec<u8>, Vec<u8>)>, usize),
>)
    requires
        w@.len() <= 1024,
        p <= w@.len() + 2,
    ensures
        attr_result_matches(r, ga_name(w@, p as int, name@), w@),
    decreases w@.len() + 2 - p,
{
    if p + 1 > w.len() {
        None
    } else {
        let c = w[p];
        if c == 0x3D && name.len() > 0 {
            ga_value_exec(w, p + 1, name)
        } else if c == 0x09 || c == 0x0A || c == 0x0C || c == 0x0D || c == 0x20 {
            ga_after_name_ws_exec(w, p, name)
        } else if c == 0x2F || c == 0x3E {
            Some((Some((name, Vec::new())), p))
        } else {
            let mut name2 = name;
            name2.push(lower_b_exec(c));
            ga_name_exec(w, p + 1, name2)
        }
    }
}

/// The "get an attribute" sub-algorithm at position `p`.
fn get_attr_exec(w: &Vec<u8>, p: usize) -> (r: Option<(Option<(Vec<u8>, Vec<u8>)>, usize)>)
    requires
        w@.len() <= 1024,
        p <= w@.len() + 2,
    ensures
        attr_result_matches(r, spec_get_attr(w@, p as int), w@),
{
    match skip_ws_or_slash_exec(w, p) {
        None => None,
        Some(p1) => {
            if p1 + 1 > w.len() {
                None
            } else if w[p1] == 0x3E {
                Some((None, p1))
            } else {
                ga_name_exec(w, p1, Vec::new())
            }
        },
    }
}

/// First position at or after `i` where `charset` occurs in `v`.
fn find_charset_from_exec(v: &Vec<u8>, i: usize) -> (r: Option<usize>)
    requires
        i <= v@.len() + 1,
    ensures
        match r {
            None => find_charset_from(v@, i as int) is None,
            Some(p) => find_charset_from(v@, i as int) == Some(p as int) && i <= p && p + 7
                <= v@.len(),
        },
    decreases v@.len() + 1 - i,
{
    if i > v.len() || v.len() - i < 7 {
        None
    } else if v[i] == 0x63 && v[i + 1] == 0x68 && v[i + 2] == 0x61 && v[i + 3] == 0x72 && v[i + 4]
        == 0x73 && v[i + 5] == 0x65 && v[i + 6] == 0x74 {
        proof {
            assert(v@.subrange(i as int, i + 7) =~= charset_bytes());
        }
        Some(i)
    } else {
        proof {
            assert(v@.subrange(i as int, i + 7) != charset_bytes()) by {
                if v@.subrange(i as int, i + 7) == charset_bytes() {
                    assert(v@.subrange(i as int, i + 7)[0] == 0x63 && v@.subrange(
                        i as int,
                        i + 7,
                    )[1] == 0x68 && v@.subrange(i as int, i + 7)[2] == 0x61 && v@.subrange(
                        i as int,
                        i + 7,
                    )[3] == 0x72 && v@.subrange(i as int, i + 7)[4] == 0x73 && v@.subrange(
                        i as int,
                        i + 7,
                    )[5] == 0x65 && v@.subrange(i as int, i + 7)[6] == 0x74);
                }
            }
        }
        find_charset_from_exec(v, i + 1)
    }
}

/// First position at or after `i` in `v` holding no whitespace, or the
/// length of `v`.
fn skip_ws_in_exec(v: &Vec<u8>, i: usize) -> (r: usize)
    requires
        i <= v@.len(),
    ensures
        skip_ws_in(v@, i as int) == r as int,
        i <= r <= v@.len(),
    decreases v@.len() - i,
{
    if i >= v.len() {
        v.len()
    } else if v[i] == 0x09 || v[i] == 0x0A || v[i] == 0x0C || v[i] == 0x0D || v[i] == 0x20 {
        skip_ws_in_exec(v, i + 1)
    } else {
        i
    }
}

/// First position at or after `i` where byte `b` occurs in `v`.
fn find_byte_from_exec(v: &Vec<u8>, i: usize, b: u8) -> (r: Option<usize>)
    requires
        i <= v@.len(),
    ensures
        match r {
            None => find_byte_from(v@, i as int, b) is None,
            Some(p) => find_byte_from(v@, i as int, b) == Some(p as int) && i <= p && p
                < v@.len(),
        },
    decreases v@.len() - i,
{
    if i >= v.len() {
        None
    } else if v[i] == b {
        Some(i)
    } else {
        find_byte_from_exec(v, i + 1, b)
    }
}

/// End of an unquoted charset token at or after `i`.
fn unquoted_end_exec(v: &Vec<u8>, i: usize) -> (r: usize)
    requires
        i <= v@.len(),
    ensures
        unquoted_end(v@, i as int) == r as int,
        i <= r <= v@.len(),
    decreases v@.len() - i,
{
    if i >= v.len() {
        v.len()
    } else if v[i] == 0x09 || v[i] == 0x0A || v[i] == 0x0C || v[i] == 0x0D || v[i] == 0x20 || v[i]
        == 0x3B {
        i
    } else {
        unquoted_end_exec(v, i + 1)
    }
}

/// Copies `v[from..to]` out as a fresh vector.
#[verifier::loop_isolation(false)]
fn copy_range(v: &Vec<u8>, from: usize, to: usize) -> (r: Vec<u8>)
    requires
        from <= to <= v@.len(),
    ensures
        r@ == v@.subrange(from as int, to as int),
{
    let mut out: Vec<u8> = Vec::new();
    let mut i: usize = from;
    while i < to
        invariant
            from <= i <= to <= v@.len(),
            out@.len() == i - from,
            forall|j: int| #![trigger out@[j]] 0 <= j < out@.len() ==> out@[j] == v@[from + j],
        decreases to - i,
    {
        out.push(v[i]);
        i = i + 1;
    }
    proof {
        assert(out@ =~= v@.subrange(from as int, to as int));
    }
    out
}

/// Extracts a character encoding from the value of a `content` attribute.
fn extract_from_content_exec(v: &Vec<u8>, from: usize) -> (r: Option<CharacterEncoding>)
    requires
        from <= v@.len() + 1,
    ensures
        r == spec_extract_from_content(v@, from as int),
    decreases v@.len() + 1 - from,
{
    let vn = v.len();
    match find_charset_from_exec(v, from) {
        None => None,
        Some(i) => {
            let j = skip_ws_in_exec(v, i + 7);
            if j >= vn {
                None
            } else if v[j] != 0x3D {
                if j - 1 <= from {
                    None
                } else {
                    extract_from_content_exec(v, j - 1)
                }
            } else {
                let k = skip_ws_in_exec(v, j + 1);
                if k >= vn {
                    None
                } else if v[k] == 0x22 || v[k] == 0x27 {
                    match find_byte_from_exec(v, k + 1, v[k]) {
                        None => None,
                        Some(e) => {
                            let tok = copy_range(v, k + 1, e);
                            lookup_label_bytes(&tok)
                        },
                    }
                } else {
                    let e = unquoted_end_exec(v, k);
                    let tok = copy_range(v, k, e);
                    lookup_label_bytes(&tok)
                }
            }
        },
    }
}

/// The sequence of views of a vector of byte vectors.
pub open spec fn views_of(names: Seq<Vec<u8>>) -> Seq<Seq<u8>> {
    Seq::new(names.len(), |i: int| names[i]@)
}

/// Whether one of the collected names equals `nm`.
#[verifier::loop_isolation(false)]
fn names_contain(names: &Vec<Vec<u8>>, nm: &Vec<u8>) -> (r: bool)
    ensures
        r == views_of(names@).contains(nm@),
{
    let n = names.len();
    let mut i: usize = 0;
    while i < n
        invariant
            n == names@.len(),
            i <= n,
            forall|j: int| #![trigger names@[j]] 0 <= j < i ==> names@[j]@ != nm@,
        decreases n - i,
    {
        if bytes_eq(&names[i], nm) {
            proof {
                assert(views_of(names@)[i as int] == nm@);
            }
            return true;
        }
        i = i + 1;
    }
    proof {
        assert forall|j: int| 0 <= j < views_of(names@).len() implies views_of(names@)[j]
            != nm@ by {
            assert(names@[j]@ != nm@);
        }
    }
    false
}

/// The `<meta>` attribute loop: collects distinct attribute names and tracks
/// the pragma, the pragma requirement, and the charset found so far.
fn meta_attrs_exec(
    w: &Vec<u8>,
    p: usize,
    names: Vec<Vec<u8>>,
    got_pragma: bool,
    need_pragma: Option<bool>,
    charset: Option<CharacterEncoding>,
) -> (r: Option<(bool, Option<bool>, Option<CharacterEncoding>, usize)>)
    requires
        w@.len() <= 1024,
        p <= w@.len() + 1,
    ensures
        ({
            let g = spec_meta_attrs(
                w@,
                p as int,
                views_of(names@),
                got_pragma,
                need_pragma,
                charset,
            );
            match r {
                None => g is None,
                Some((got2, need2, cs2, p2)) => g == Some((got2, need2, cs2, p2 as int)) && p2
                    <= w@.len() + 1,
            }
        }),
    decreases w@.len() + 2 - p,
{
    match get_attr_exec(w, p) {
        None => None,
        Some((None, p2)) => Some((got_pragma, need_pragma, charset, p2)),
        Some((Some((nm, val)), p2)) => {
            if !(p < p2 && p2 <= w.len() + 1) {
                None
            } else if names_contain(&names, &nm) {
                meta_attrs_exec(w, p2, names, got_pragma, need_pragma, charset)
            } else {
                let mut names2 = names;
                let is_he = is_bytes_http_equiv(&nm);
                let is_ct = is_bytes_content(&nm);
                let is_cs = is_bytes_charset(&nm);
                names2.push(nm);
                proof {
                    assert(views_of(names2@) =~= views_of(names@).push(names2@.last()@));
                }
                if is_he {
                    let got2 = got_pragma || is_bytes_content_type(&val);
                    meta_attrs_exec(w, p2, names2, got2, need_pragma, charset)
                } else if is_ct {
                    let found = extract_from_content_exec(&val, 0);
                    if found.is_some() && charset.is_none() {
                        meta_attrs_exec(w, p2, names2, got_pragma, Some(true), found)
                    } else {
                        meta_attrs_exec(w, p2, names2, got_pragma, need_pragma, charset)
                    }
                } else if is_cs {
                    let cs2 = lookup_label_bytes(&val);
                    meta_attrs_exec(w, p2, names2, got_pragma, Some(false), cs2)
                } else {
                    meta_attrs_exec(w, p2, names2, got_pragma, need_pragma, charset)
                }
            }
        },
    }
}

/// Drains the attributes of a non-`<meta>` tag without inspecting them.
fn drain_attrs_exec(w: &Vec<u8>, p: usize) -> (r: Option<usize>)
    requires
        w@.len() <= 1024,
        p <= w@.len() + 1,
    ensures
        match r {
            None => spec_drain_attrs(w@, p as int) is None,
            Some(p2) => spec_drain_attrs(w@, p as int) == Some(p2 as int) && p2 <= w@.len() + 1,
        },
    decreases w@.len() + 2 - p,
{
    match get_attr_exec(w, p) {
        None => None,
        Some((None, p2)) => Some(p2),
        Some((Some(_), p2)) => {
            if !(p < p2 && p2 <= w.len() + 1) {
                None
            } else {
                drain_attrs_exec(w, p2)
            }
        },
    }
}

/// Resumes the main scan loop one byte after `pend`.
fn continue_scan_exec(w: &Vec<u8>, pend: usize) -> (r: Option<Option<CharacterEncoding>>)
    requires
        w@.len() <= 1024,
    ensures
        r == continue_scan(w@, pend as int),
    decreases w@.len() + 1 - pend, 3int,
{
    if pend > w.len() {
        None
    } else {
        scan_exec(w, pend + 1)
    }
}

/// The main byte-by-byte scan loop of the pre-scan, at position `pos`.
fn scan_exec(w: &Vec<u8>, pos: usize) -> (r: Option<Option<CharacterEncoding>>)
    requires
        w@.len() <= 1024,
        pos <= w@.len() + 1,
    ensures
        r == spec_scan(w@, pos as int),
    decreases w@.len() + 2 - pos, 2int,
{
    if pos + 1 > w.len() {
        None
    } else if pos + 4 > w.len() {
        // the comment opener cannot be tested inside the window
        None
    } else if w[pos] == 0x3C && w[pos + 1] == 0x21 && w[pos + 2] == 0x2D && w[pos + 3] == 0x2D {
        proof {
            assert(win_contains(w@, pos as int, seq![0x3Cu8, 0x21u8, 0x2Du8, 0x2Du8]) == Some(
                true,
            ));
        }
        match comment_close_exec(w, pos) {
            None => None,
            Some(p) => {
                if !(pos <= p && p + 2 <= w.len()) {
                    None
                } else {
                    continue_scan_exec(w, p + 2)
                }
            },
        }
    } else {
        proof {
            assert(win_contains(w@, pos as int, seq![0x3Cu8, 0x21u8, 0x2Du8, 0x2Du8]) == Some(
                false,
            ));
        }
        if pos + 6 > w.len() {
            None
        } else if w[pos] == 0x3C && lower_b_exec(w[pos + 1]) == 0x6D && lower_b_exec(w[pos + 2])
            == 0x65 && lower_b_exec(w[pos + 3]) == 0x74 && lower_b_exec(w[pos + 4]) == 0x61 && (
        w[pos + 5] == 0x09 || w[pos + 5] == 0x0A || w[pos + 5] == 0x0C || w[pos + 5] == 0x0D
            || w[pos + 5] == 0x20 || w[pos + 5] == 0x2F) {
            meta_result_exec(w, pos)
        } else {
            scan_tags_exec(w, pos)
        }
    }
}

/// Outcome of the `<meta>` branch after its attributes were read.
fn meta_result_exec(w: &Vec<u8>, pos: usize) -> (r: Option<Option<CharacterEncoding>>)
    requires
        w@.len() <= 1024,
        pos + 5 <= w@.len() + 1,
    ensures
        r == spec_meta_result(w@, pos as int),
    decreases w@.len() + 2 - pos, 0int,
{
    proof {
        assert(views_of(Seq::<Vec<u8>>::empty()) =~= Seq::<Seq<u8>>::empty());
    }
    match meta_attrs_exec(w, pos + 5, Vec::new(), false, None, None) {
        None => None,
        Some((got_pragma, need_pragma, charset, pend)) => {
            if !(pos <= pend && pend <= w.len()) {
                None
            } else {
                match need_pragma {
                    None => continue_scan_exec(w, pend),
                    Some(need) => {
                        if need && !got_pragma {
                            continue_scan_exec(w, pend)
                        } else {
                            match charset {
                                None => continue_scan_exec(w, pend),
                                Some(cs) => Some(Some(normalize_declared_encoding(cs))),
                            }
                        }
                    },
                }
            }
        },
    }
}

/// The tag branches of the scan loop.
fn scan_tags_exec(w: &Vec<u8>, pos: usize) -> (r: Option<Option<CharacterEncoding>>)
    requires
        w@.len() <= 1024,
        pos + 1 <= w@.len(),
    ensures
        r == spec_scan_tags(w@, pos as int),
    decreases w@.len() + 2 - pos, 1int,
{
    if pos + 2 > w.len() {
        None
    } else if w[pos] == 0x3C && is_tag_letter_exec(w[pos + 1]) {
        other_tag_exec(w, pos)
    } else if pos + 3 > w.len() {
        None
    } else if w[pos] == 0x3C && w[pos + 1] == 0x2F && is_tag_letter_exec(w[pos + 2]) {
        other_tag_exec(w, pos)
    } else if w[pos] == 0x3C && (w[pos + 1] == 0x21 || w[pos + 1] == 0x2F || w[pos + 1] == 0x3F) {
        match skip_to_gt_exec(w, pos) {
            None => None,
            Some(p) => {
                if !(pos <= p && p <= w.len()) {
                    None
                } else {
                    continue_scan_exec(w, p)
                }
            },
        }
    } else {
        continue_scan_exec(w, pos)
    }
}

/// An open or close tag other than `<meta>`.
fn other_tag_exec(w: &Vec<u8>, pos: usize) -> (r: Option<Option<CharacterEncoding>>)
    requires
        w@.len() <= 1024,
        pos + 1 <= w@.len(),
    ensures
        r == spec_other_tag(w@, pos as int),
    decreases w@.len() + 2 - pos, 0int,
{
    match skip_to_ws_or_gt_exec(w, pos) {
        None => None,
        Some(p) => {
            if p + 1 > w.len() {
                None
            } else {
                match drain_attrs_exec(w, p) {
                    None => None,
                    Some(pend) => {
                        if !(pos <= pend && pend <= w.len()) {
                            None
                        } else {
                            continue_scan_exec(w, pend)
                        }
                    },
                }
            }
        },
    }
}

/// Position of the start of the next `-->` terminator at or after `p`.
fn comment_close_exec(w: &Vec<u8>, p: usize) -> (r: Option<usize>)
    requires
        w@.len() <= 1024,
        p <= w@.len() + 1,
    ensures
        match r {
            None => spec_comment_close(w@, p as int) is None,
            Some(p2) => spec_comment_close(w@, p as int) == Some(p2 as int) && p <= p2 && p2 + 3
                <= w@.len(),
        },
    decreases w@.len() + 2 - p,
{
    if p + 3 > w.len() {
        None
    } else if w[p] == 0x2D && w[p + 1] == 0x2D && w[p + 2] == 0x3E {
        proof {
            assert(win_contains(w@, p as int, seq![0x2Du8, 0x2Du8, 0x3Eu8]) == Some(true));
        }
        Some(p)
    } else {
        proof {
            assert(win_contains(w@, p as int, seq![0x2Du8, 0x2Du8, 0x3Eu8]) == Some(false));
        }
        comment_close_exec(w, p + 1)
    }
}

/// First position at or after `p` holding whitespace or `>`.
fn skip_to_ws_or_gt_exec(w: &Vec<u8>, p: usize) -> (r: Option<usize>)
    requires
        w@.len() <= 1024,
        p <= w@.len() + 1,
    ensures
        match r {
            None => spec_skip_to_ws_or_gt(w@, p as int) is None,
            Some(p2) => spec_skip_to_ws_or_gt(w@, p as int) == Some(p2 as int) && p <= p2 && p2
                + 1 <= w@.len(),
        },
    decreases w@.len() + 2 - p,
{
    if p + 1 > w.len() {
        None
    } else if w[p] == 0x09 || w[p] == 0x0A || w[p] == 0x0C || w[p] == 0x0D || w[p] == 0x20 || w[p]
        == 0x3E {
        Some(p)
    } else {
        skip_to_ws_or_gt_exec(w, p + 1)
    }
}

/// First position at or after `p` holding `>`.
fn skip_to_gt_exec(w: &Vec<u8>, p: usize) -> (r: Option<usize>)
    requires
        w@.len() <= 1024,
        p <= w@.len() + 1,
    ensures
        match r {
            None => spec_skip_to_gt(w@, p as int) is None,
            Some(p2) => spec_skip_to_gt(w@, p as int) == Some(p2 as int) && p <= p2 && p2 + 1
                <= w@.len(),
        },
    decreases w@.len() + 2 - p,
{
    if p + 1 > w.len() {
        None
    } else if w[p] == 0x3E {
        Some(p)
    } else {
        skip_to_gt_exec(w, p + 1)
    }
}

/// Whether the byte is one of the ASCII letters that open a tag name.
fn is_tag_letter_exec(b: u8) -> (r: bool)
    ensures
        r == is_tag_letter(b),
{
    (0x41 <= b && b <= 0x5A) || (0x61 <= b && b <= 0x7A)
}

/// The normalization applied to an encoding found inside the document.
pub fn normalize_declared_encoding(e: CharacterEncoding) -> (r: CharacterEncoding)
    ensures
        r == normalize_in_document(e),
{
    match e {
        CharacterEncoding::Utf16BE => CharacterEncoding::Utf8,
        CharacterEncoding::Utf16LE => CharacterEncoding::Utf8,
        CharacterEncoding::XUserDefined => CharacterEncoding::Windows1252,
        other => other,
    }
}

/// First position at or after `p` where `encoding` occurs within the window.
fn find_encoding_kw_exec(w: &Vec<u8>, p: usize) -> (r: Option<usize>)
    requires
        w@.len() <= 1024,
        p <= w@.len() + 1,
    ensures
        match r {
            None => spec_find_encoding_kw(w@, p as int) is None,
            Some(p2) => spec_find_encoding_kw(w@, p as int) == Some(p2 as int) && p <= p2 && p2
                + 8 <= w@.len(),
        },
    decreases w@.len() + 2 - p,
{
    if p + 8 > w.len() {
        None
    } else if w[p] == 0x65 && w[p + 1] == 0x6E && w[p + 2] == 0x63 && w[p + 3] == 0x6F && w[p + 4]
        == 0x64 && w[p + 5] == 0x69 && w[p + 6] == 0x6E && w[p + 7] == 0x67 {
        proof {
            assert(win_contains(
                w@,
                p as int,
                seq![0x65u8, 0x6Eu8, 0x63u8, 0x6Fu8, 0x64u8, 0x69u8, 0x6Eu8, 0x67u8],
            ) == Some(true));
        }
        Some(p)
    } else {
        proof {
            assert(win_contains(
                w@,
                p as int,
                seq![0x65u8, 0x6Eu8, 0x63u8, 0x6Fu8, 0x64u8, 0x69u8, 0x6Eu8, 0x67u8],
            ) == Some(false));
        }
        find_encoding_kw_exec(w, p + 1)
    }
}

/// First position at or after `p` whose window byte is above 0x20.
fn skip_le_space_exec(w: &Vec<u8>, p: usize) -> (r: Option<usize>)
    requires
        p <= w@.len(),
    ensures
        match r {
            None => spec_skip_le_space(w@, p as int) is None,
            Some(p2) => spec_skip_le_space(w@, p as int) == Some(p2 as int) && p <= p2 && p2
                < w@.len(),
        },
    decreases w@.len() - p,
{
    if p >= w.len() {
        None
    } else if w[p] > 0x20 {
        Some(p)
    } else {
        skip_le_space_exec(w, p + 1)
    }
}

/// First position in the window at or after `p` holding byte `b`.
fn win_find_byte_exec(w: &Vec<u8>, p: usize, b: u8) -> (r: Option<usize>)
    requires
        p <= w@.len(),
    ensures
        match r {
            None => win_find_byte(w@, p as int, b) is None,
            Some(p2) => win_find_byte(w@, p as int, b) == Some(p2 as int) && p <= p2 && p2
                < w@.len(),
        },
    decreases w@.len() - p,
{
    if p >= w.len() {
        None
    } else if w[p] == b {
        Some(p)
    } else {
        win_find_byte_exec(w, p + 1, b)
    }
}

/// The quoted label of an XML encoding declaration, starting at the quote.
#[verifier::loop_isolation(false)]
fn xml_quoted_exec(w: &Vec<u8>, p3: usize) -> (r: Option<CharacterEncoding>)
    requires
        w@.len() <= 1024,
        p3 < w@.len(),
    ensures
        r == spec_xml_quoted(w@, p3 as int),
{
    let q = w[p3];
    if q != 0x22 && q != 0x27 {
        None
    } else {
        match win_find_byte_exec(w, p3 + 1, q) {
            None => None,
            Some(e) => {
                let tok = copy_range(w, p3 + 1, e);
                let n = tok.len();
                let mut i: usize = 0;
                while i < n
                    invariant
                        n == tok@.len(),
                        i <= n,
                        forall|j: int| #![trigger tok@[j]] 0 <= j < i ==> tok@[j] >= 0x20,
                    decreases n - i,
                {
                    if tok[i] < 0x20 {
                        return None;
                    }
                    i = i + 1;
                }
                match lookup_label_bytes(&tok) {
                    None => None,
                    Some(enc) => Some(normalize_declared_encoding(enc)),
                }
            },
        }
    }
}

/// The XML-prologue fallback over the window.
#[verifier::loop_isolation(false)]
fn xml_encoding_exec(w: &Vec<u8>) -> (r: Option<CharacterEncoding>)
    requires
        w@.len() <= 1024,
    ensures
        r == spec_xml_encoding(w@),
{
    if 5 > w.len() {
        // `<?xml` cannot be tested inside the window
        return None;
    }
    if !(w[0] == 0x3C && w[1] == 0x3F && w[2] == 0x78 && w[3] == 0x6D && w[4] == 0x6C) {
        proof {
            assert(win_contains(
                w@,
                0,
                seq![0x3Cu8, 0x3Fu8, 0x78u8, 0x6Du8, 0x6Cu8],
            ) == Some(false));
        }
        return None;
    }
    proof {
        assert(win_contains(w@, 0, seq![0x3Cu8, 0x3Fu8, 0x78u8, 0x6Du8, 0x6Cu8]) == Some(true));
    }
    let n = w.len();
    let mut found = false;
    let mut i: usize = 0;
    while i < n
        invariant
            n == w@.len(),
            i <= n,
            found == exists|j: int| 0 <= j < i && w@[j] == 0x3E,
        decreases n - i,
    {
        if w[i] == 0x3E {
            found = true;
        }
        i = i + 1;
    }
    if !found {
        proof {
            assert(!(exists|j: int| 0 <= j < w@.len() && w@[j] == 0x3E));
        }
        return None;
    }
    proof {
        assert(exists|j: int| 0 <= j < w@.len() && w@[j] == 0x3E);
    }
    match find_encoding_kw_exec(w, 0) {
        None => None,
        Some(p) => {
            match skip_le_space_exec(w, p + 8) {
                None => None,
                Some(p2) => {
                    if w[p2] != 0x3D {
                        None
                    } else {
                        match skip_le_space_exec(w, p2 + 1) {
                            None => None,
                            Some(p3) => xml_quoted_exec(w, p3),
                        }
                    }
                },
            }
        },
    }
}

/// The UTF-16 XML-prologue patterns and the main scan loop.
fn prescan_main_exec(w: &Vec<u8>) -> (r: Option<Option<CharacterEncoding>>)
    requires
        w@.len() <= 1024,
        w@.len() >= 1,
    ensures
        r == spec_prescan_main(w@),
{
    if 6 > w.len() {
        return None;
    }
    if w[0] == 0x3C && w[1] == 0x00 && w[2] == 0x3F && w[3] == 0x00 && w[4] == 0x78 && w[5]
        == 0x00 {
        proof {
            assert(win_contains(
                w@,
                0,
                seq![0x3Cu8, 0x00u8, 0x3Fu8, 0x00u8, 0x78u8, 0x00u8],
            ) == Some(true));
        }
        return Some(Some(CharacterEncoding::Utf16LE));
    }
    proof {
        assert(win_contains(w@, 0, seq![0x3Cu8, 0x00u8, 0x3Fu8, 0x00u8, 0x78u8, 0x00u8]) == Some(
            false,
        ));
    }
    if w[0] == 0x00 && w[1] == 0x3C && w[2] == 0x00 && w[3] == 0x3F && w[4] == 0x00 && w[5]
        == 0x78 {
        proof {
            assert(win_contains(
                w@,
                0,
                seq![0x00u8, 0x3Cu8, 0x00u8, 0x3Fu8, 0x00u8, 0x78u8],
            ) == Some(true));
        }
        return Some(Some(CharacterEncoding::Utf16BE));
    }
    proof {
        assert(win_contains(w@, 0, seq![0x00u8, 0x3Cu8, 0x00u8, 0x3Fu8, 0x00u8, 0x78u8]) == Some(
            false,
        ));
    }
    scan_exec(w, 0)
}

/// The whole pre-scan over an explicit window.
pub fn prescan_window_bytes(w: &Vec<u8>) -> (r: Option<CharacterEncoding>)
    requires
        w@.len() <= 1024,
    ensures
        r == spec_prescan(w@),
{
    if w.len() == 0 {
        return None;
    }
    match prescan_main_exec(w) {
        Some(r) => r,
        None => xml_encoding_exec(w),
    }
}

/// Implements the byte-stream pre-scan over the peeked part of a byte
/// cursor, capped at 1024 bytes; the caller is expected to have filled the
/// peek buffer first.
pub struct HtmlPreScanner<'a> {
    byte_stream: &'a IoQueue,
}

impl<'a> HtmlPreScanner<'a> {
    /// The window this scanner looks at.
    pub closed spec fn window(self) -> Seq<u8> {
        prescan_window(*self.byte_stream)
    }

    pub fn new(byte_stream: &'a IoQueue) -> (r: HtmlPreScanner<'a>)
        ensures
            r.window() == prescan_window(*byte_stream),
    {
        HtmlPreScanner { byte_stream }
    }

    /// Runs the pre-scan and reports the encoding it found, if any.
    #[verifier::loop_isolation(false)]
    pub fn pre_scan_byte_stream(self) -> (r: Option<CharacterEncoding>)
        ensures
            r == spec_prescan(self.window()),
    {
        let peeked = self.byte_stream.peek_len();
        let wlen = if peeked <= 1024 {
            peeked
        } else {
            1024
        };
        let mut w: Vec<u8> = Vec::new();
        let mut i: usize = 0;
        proof {
            assert(wlen <= self.byte_stream.remaining().len());
        }
        while i < wlen
            invariant
                wlen <= self.byte_stream.remaining().len(),
                i <= wlen,
                w@ == self.byte_stream.remaining().take(i as int),
            decreases wlen - i,
        {
            match self.byte_stream.peek_nth(i) {
                Some(b) => {
                    w.push(b);
                    proof {
                        assert(w@ =~= self.byte_stream.remaining().take(i + 1));
                    }
                },
                None => {
                    proof {
                        assert(false);
                    }
                },
            }
            i = i + 1;
        }
        proof {
            assert(w@ =~= self.window());
        }
        prescan_window_bytes(&w)
    }
}

} // verus!

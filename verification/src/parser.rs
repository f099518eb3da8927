//! The encoding-resolution orchestration: BOM sniffing, the pre-scan, the
//! default, re-sniffing on an in-document charset declaration, and the
//! decoding loops of the parser.

use vstd::prelude::*;

use crate::character_encoding::CharacterEncoding;
use crate::decoder::spec_utf8_step;
use crate::decoder::Decoder;
use crate::decoder::DecodingError;
use crate::error::HtmlParseError;
use crate::error::HtmlParseResult;
use crate::io_queue::IoQueue;
use crate::prescan::spec_prescan;
use crate::prescan::HtmlPreScanner;

verus! {

/// How authoritative the resolved encoding is.
///
/// `Certain` is sticky once set by a guaranteed signal; `Tentative` may
/// later be upgraded by an in-document charset declaration; `Irrelevant` is
/// reserved for callers that force an encoding.
#[derive(Clone, Copy, Debug, PartialEq, Eq, Structural)]
pub enum EncodingConfidence {
    Tentative,
    Certain,
    Irrelevant,
}

/// A required control-flow exit: the document must be reprocessed from its
/// first byte under the carried encoding.
#[derive(Clone, Copy, Debug, PartialEq, Eq, Structural)]
pub struct EncodingRestart {
    pub encoding: CharacterEncoding,
}

/// The placeholder entity handed to the tree-construction stage: it carries
/// the finally-resolved character encoding.
pub struct Document {
    encoding: CharacterEncoding,
}

impl Document {
    /// The encoding the document was resolved to.
    pub closed spec fn spec_encoding(self) -> CharacterEncoding {
        self.encoding
    }

    /// The encoding the document was resolved to.
    pub fn encoding(&self) -> (e: CharacterEncoding)
        ensures
            e == self.spec_encoding(),
    {
        self.encoding
    }
}

/// The BOM at the front of the stream, if any, with its byte count.
pub open spec fn bom_result(s: Seq<u8>) -> Option<(CharacterEncoding, int)> {
    if s.len() >= 3 && s[0] == 0xEF && s[1] == 0xBB && s[2] == 0xBF {
        Some((CharacterEncoding::Utf8, 3))
    } else if s.len() >= 2 && s[0] == 0xFE && s[1] == 0xFF {
        Some((CharacterEncoding::Utf16BE, 2))
    } else if s.len() >= 2 && s[0] == 0xFF && s[1] == 0xFE {
        Some((CharacterEncoding::Utf16LE, 2))
    } else {
        None
    }
}

/// The encoding sniffing algorithm on the unconsumed bytes `s`: the
/// encoding, its confidence, and how many BOM bytes resolution consumes.
pub open spec fn spec_determine(s: Seq<u8>) -> (CharacterEncoding, EncodingConfidence, int) {
    match bom_result(s) {
        Some((e, n)) => (e, EncodingConfidence::Certain, n),
        None => {
            let w = s.take(
                if s.len() <= 1024 {
                    s.len() as int
                } else {
                    1024
                },
            );
            match spec_prescan(w) {
                Some(e) => (e, EncodingConfidence::Tentative, 0),
                None => (CharacterEncoding::Utf8, EncodingConfidence::Tentative, 0),
            }
        },
    }
}

/// One lossy decoding step on the unconsumed bytes: end of stream, a scalar
/// (invalid data and early end of stream already replaced by U+FFFD), or a
/// content validity error; paired with the bytes the step consumes.
pub open spec fn spec_decode_step(enc: CharacterEncoding, s: Seq<u8>) -> (HtmlParseResult<
    Option<u32>,
>, int) {
    if enc != CharacterEncoding::Utf8 {
        (Err(HtmlParseError::UnsupportedEncoding(enc)), 0)
    } else {
        let (step, consumed) = spec_utf8_step(s);
        match step {
            Ok(None) => (Ok(None), 0),
            Ok(Some((cp, _len))) => (Ok(Some(cp)), consumed),
            Err(DecodingError::InvalidData) => (Ok(Some(0xFFFDu32)), consumed),
            Err(DecodingError::UnexpectedEof) => (Ok(Some(0xFFFDu32)), consumed),
            Err(DecodingError::UnexpectedSurrogate) => (
                Err(HtmlParseError::SurrogateInInputStream),
                consumed,
            ),
            Err(DecodingError::UnexpectedNonCharacter) => (
                Err(HtmlParseError::NoncharacterInInputStream),
                consumed,
            ),
            Err(DecodingError::UnexpectedControl) => (
                Err(HtmlParseError::ControlCharacterInInputStream),
                consumed,
            ),
        }
    }
}

/// What the strict decoding loop reports on the unconsumed bytes: the first
/// content validity error, or success at clean end of stream.
pub open spec fn spec_strict_decode(enc: CharacterEncoding, s: Seq<u8>) -> HtmlParseResult<()>
    decreases s.len(),
{
    let (r, n) = spec_decode_step(enc, s);
    match r {
        Err(e) => Err(e),
        Ok(None) => Ok(()),
        Ok(Some(_)) => {
            if 1 <= n <= s.len() {
                spec_strict_decode(enc, s.skip(n))
            } else {
                Ok(())
            }
        },
    }
}

/// Bounds of the UTF-8 step's consumption: a step on a nonempty stream
/// consumes at least one byte and never more than are there, and only the
/// empty stream reports a clean end.
pub proof fn lemma_utf8_step_bounds(s: Seq<u8>)
    ensures
        0 <= spec_utf8_step(s).1 <= s.len(),
        s.len() > 0 ==> spec_utf8_step(s).1 >= 1,
        (spec_utf8_step(s).0 == Ok::<Option<(u32, int)>, DecodingError>(None)) <==> s.len() == 0,
{
}

/// The HTML parser: holds the byte cursor, the resolved encoding and its
/// confidence, and the log of bytes consumed by decoding so far.
pub struct HtmlParser {
    character_encoding: CharacterEncoding,
    encoding_confidence: EncodingConfidence,
    input_byte_stream: IoQueue,
    read_bytes: Vec<u8>,
}

impl HtmlParser {
    /// The resolved character encoding.
    pub closed spec fn spec_encoding(self) -> CharacterEncoding {
        self.character_encoding
    }

    /// The confidence of the resolved encoding.
    pub closed spec fn spec_confidence(self) -> EncodingConfidence {
        self.encoding_confidence
    }

    /// The unconsumed bytes of the input stream.
    pub closed spec fn stream_remaining(self) -> Seq<u8> {
        self.input_byte_stream.remaining()
    }

    /// The bytes consumed and successfully decoded so far.
    pub closed spec fn consumed_log(self) -> Seq<u8> {
        self.read_bytes@
    }

    /// The cursor is well formed.
    pub closed spec fn wf(self) -> bool {
        self.input_byte_stream.wf()
    }

    pub fn new(input_byte_stream: Vec<u8>) -> (p: HtmlParser)
        ensures
            p.wf(),
            p.spec_encoding() == CharacterEncoding::Utf8,
            p.spec_confidence() == EncodingConfidence::Tentative,
            p.stream_remaining() == input_byte_stream@,
            p.consumed_log() == Seq::<u8>::empty(),
    {
        let p = HtmlParser {
            character_encoding: CharacterEncoding::Utf8,
            encoding_confidence: EncodingConfidence::Tentative,
            input_byte_stream: IoQueue::new(input_byte_stream),
            read_bytes: Vec::new(),
        };
        proof {
            assert(p.read_bytes@ =~= Seq::<u8>::empty());
        }
        p
    }

    /// Parsing with a known character encoding: the caller vouches for the
    /// encoding, so its confidence is certain and resolution is skipped.
    pub fn with_definite_encoding(
        input_byte_stream: Vec<u8>,
        character_encoding: CharacterEncoding,
    ) -> (p: HtmlParser)
        ensures
            p.wf(),
            p.spec_encoding() == character_encoding,
            p.spec_confidence() == EncodingConfidence::Certain,
            p.stream_remaining() == input_byte_stream@,
            p.consumed_log() == Seq::<u8>::empty(),
    {
        let p = HtmlParser {
            character_encoding,
            encoding_confidence: EncodingConfidence::Certain,
            input_byte_stream: IoQueue::new(input_byte_stream),
            read_bytes: Vec::new(),
        };
        proof {
            assert(p.read_bytes@ =~= Seq::<u8>::empty());
        }
        p
    }

    /// The encoding sniffing algorithm: BOM sniffing first (consuming the
    /// BOM, so it is not exposed as document content), then the pre-scan
    /// over the first kilobyte, then the default of UTF-8.
    pub fn determine_encoding(io_queue: &mut IoQueue) -> (r: (
        CharacterEncoding,
        EncodingConfidence,
    ))
        requires
            old(io_queue).wf(),
        ensures
            final(io_queue).wf(),
            ({
                let (e, c, n) = spec_determine(old(io_queue).remaining());
                r == (e, c) && final(io_queue).remaining() == old(io_queue).remaining().skip(n)
            }),
    {
        let b0 = io_queue.peek_nth(0);
        let b1 = io_queue.peek_nth(1);
        let b2 = io_queue.peek_nth(2);
        if b0 == Some(0xEFu8) && b1 == Some(0xBBu8) && b2 == Some(0xBFu8) {
            let ghost s = io_queue.remaining();
            io_queue.next_byte();
            io_queue.next_byte();
            io_queue.next_byte();
            proof {
                assert(io_queue.remaining() =~= s.skip(3));
            }
            return (CharacterEncoding::Utf8, EncodingConfidence::Certain);
        }
        if b0 == Some(0xFEu8) && b1 == Some(0xFFu8) {
            let ghost s = io_queue.remaining();
            io_queue.next_byte();
            io_queue.next_byte();
            proof {
                assert(io_queue.remaining() =~= s.skip(2));
            }
            return (CharacterEncoding::Utf16BE, EncodingConfidence::Certain);
        }
        if b0 == Some(0xFFu8) && b1 == Some(0xFEu8) {
            let ghost s = io_queue.remaining();
            io_queue.next_byte();
            io_queue.next_byte();
            proof {
                assert(io_queue.remaining() =~= s.skip(2));
            }
            return (CharacterEncoding::Utf16LE, EncodingConfidence::Certain);
        }
        io_queue.peek_max(1024);
        proof {
            assert(io_queue.remaining() =~= old(io_queue).remaining());
            assert(io_queue.remaining().skip(0) =~= io_queue.remaining());
        }
        let scanner = HtmlPreScanner::new(io_queue);
        let found = scanner.pre_scan_byte_stream();
        proof {
            io_queue.lemma_peek_len_le_remaining();
            assert(crate::prescan::prescan_window(*io_queue) =~= old(io_queue).remaining().take(
                if old(io_queue).remaining().len() <= 1024 {
                    old(io_queue).remaining().len() as int
                } else {
                    1024
                },
            ));
        }
        match found {
            Some(encoding) => (encoding, EncodingConfidence::Tentative),
            None => (CharacterEncoding::Utf8, EncodingConfidence::Tentative),
        }
    }

    /// Decodes the next character in a lossy manner: invalid or incomplete
    /// byte sequences come back as U+FFFD, while content validity errors
    /// (surrogates, noncharacters, disallowed controls) are reported, as is
    /// an encoding this library has no decoder for. The bytes of every
    /// successfully decoded character are appended to the consumption log.
    pub fn decode_char(&mut self) -> (r: HtmlParseResult<Option<char>>)
        requires
            old(self).wf(),
        ensures
            final(self).wf(),
            final(self).spec_encoding() == old(self).spec_encoding(),
            final(self).spec_confidence() == old(self).spec_confidence(),
            ({
                let (step, n) = spec_decode_step(
                    old(self).spec_encoding(),
                    old(self).stream_remaining(),
                );
                &&& final(self).stream_remaining() == old(self).stream_remaining().skip(n)
                &&& match r {
                    Ok(None) => step == Ok::<Option<u32>, HtmlParseError>(None)
                        && final(self).consumed_log() == old(self).consumed_log(),
                    Ok(Some(c)) => step == Ok::<Option<u32>, HtmlParseError>(Some(c as u32)) && (
                    if spec_utf8_step(old(self).stream_remaining()).0 is Ok {
                        final(self).consumed_log() == old(self).consumed_log() + old(
                            self,
                        ).stream_remaining().take(n)
                    } else {
                        final(self).consumed_log() == old(self).consumed_log()
                    }),
                    Err(e) => step == Err::<Option<u32>, HtmlParseError>(e)
                        && final(self).consumed_log() == old(self).consumed_log(),
                }
            }),
    {
        let decoder = match self.character_encoding.decoder() {
            Some(d) => d,
            None => {
                return Err(HtmlParseError::UnsupportedEncoding(self.character_encoding));
            },
        };
        let decoded = decoder.decode(&mut self.input_byte_stream);
        match decoded {
            Err(DecodingError::InvalidData) => Ok(Some('\u{FFFD}')),
            Err(DecodingError::UnexpectedEof) => Ok(Some('\u{FFFD}')),
            Err(DecodingError::UnexpectedSurrogate) => Err(
                HtmlParseError::SurrogateInInputStream,
            ),
            Err(DecodingError::UnexpectedNonCharacter) => Err(
                HtmlParseError::NoncharacterInInputStream,
            ),
            Err(DecodingError::UnexpectedControl) => Err(
                HtmlParseError::ControlCharacterInInputStream,
            ),
            Ok(None) => Ok(None),
            Ok(Some((character, mut bytes))) => {
                self.read_bytes.append(&mut bytes);
                Ok(Some(character))
            },
        }
    }

    /// The encoding and BOM consumption that resolution will produce for
    /// this parser: what is already set when the confidence is certain,
    /// else the sniffing algorithm's answer on the unconsumed bytes.
    pub open spec fn spec_resolution(self) -> (CharacterEncoding, EncodingConfidence, int) {
        if self.spec_confidence() == EncodingConfidence::Certain {
            (self.spec_encoding(), EncodingConfidence::Certain, 0)
        } else {
            spec_determine(self.stream_remaining())
        }
    }

    /// Runs encoding resolution unless the confidence is already certain,
    /// consuming a BOM if one is present.
    pub fn resolve_encoding(&mut self)
        requires
            old(self).wf(),
        ensures
            final(self).wf(),
            final(self).consumed_log() == old(self).consumed_log(),
            ({
                let (e, c, n) = old(self).spec_resolution();
                &&& final(self).spec_encoding() == e
                &&& final(self).spec_confidence() == c
                &&& final(self).stream_remaining() == old(self).stream_remaining().skip(n)
            }),
    {
        if self.encoding_confidence != EncodingConfidence::Certain {
            let (encoding, confidence) = Self::determine_encoding(&mut self.input_byte_stream);
            self.character_encoding = encoding;
            self.encoding_confidence = confidence;
        } else {
            proof {
                assert(self.stream_remaining() =~= old(self).stream_remaining().skip(0));
            }
        }
    }

    /// The resolved character encoding.
    pub fn character_encoding(&self) -> (e: CharacterEncoding)
        ensures
            e == self.spec_encoding(),
    {
        self.character_encoding
    }

    /// The confidence of the resolved encoding.
    pub fn encoding_confidence(&self) -> (c: EncodingConfidence)
        ensures
            c == self.spec_confidence(),
    {
        self.encoding_confidence
    }

    /// Tries to parse the document, aborting at the first content validity
    /// error: resolves the encoding if it is not yet certain, then decodes
    /// the whole stream strictly.
    #[verifier::loop_isolation(false)]
    pub fn try_parse(self) -> (r: HtmlParseResult<Document>)
        requires
            self.wf(),
        ensures
            ({
                let (enc, c, n) = self.spec_resolution();
                let rest = self.stream_remaining().skip(n);
                match r {
                    Ok(doc) => doc.spec_encoding() == enc && spec_strict_decode(enc, rest)
                        == Ok::<(), HtmlParseError>(()),
                    Err(e) => spec_strict_decode(enc, rest) == Err::<(), HtmlParseError>(e),
                }
            }),
    {
        let mut me = self;
        me.resolve_encoding();
        let ghost enc = me.spec_encoding();
        let ghost start = me.stream_remaining();
        loop
            invariant
                me.wf(),
                me.spec_encoding() == enc,
                spec_strict_decode(enc, me.stream_remaining()) == spec_strict_decode(enc, start),
            decreases me.stream_remaining().len(),
        {
            let ghost s_here = me.stream_remaining();
            proof {
                lemma_utf8_step_bounds(s_here);
            }
            match me.decode_char() {
                Err(e) => {
                    return Err(e);
                },
                Ok(None) => {
                    return Ok(Document { encoding: me.character_encoding });
                },
                Ok(Some(_)) => {},
            }
        }
    }

    /// Parses the document leniently: every decoding failure stands in for
    /// the replacement character, so the token source never sees an
    /// interruption; an encoding without a decoder stops the decoding but
    /// still yields the resolved document entity.
    #[verifier::loop_isolation(false)]
    pub fn parse(self) -> (doc: Document)
        requires
            self.wf(),
        ensures
            doc.spec_encoding() == self.spec_resolution().0,
    {
        let mut me = self;
        me.resolve_encoding();
        let ghost enc = me.spec_encoding();
        loop
            invariant
                me.wf(),
                me.spec_encoding() == enc,
            decreases me.stream_remaining().len(),
        {
            let ghost s_here = me.stream_remaining();
            proof {
                lemma_utf8_step_bounds(s_here);
            }
            match me.decode_char() {
                Err(HtmlParseError::UnsupportedEncoding(_)) => {
                    return Document { encoding: me.character_encoding };
                },
                Err(_) => {},
                Ok(None) => {
                    return Document { encoding: me.character_encoding };
                },
                Ok(Some(_)) => {},
            }
        }
    }

    /// Whether every byte consumed so far decodes identically under the
    /// current and the new encoding. This library decides that only in the
    /// trivial case: when nothing has been consumed yet, the two decode
    /// vacuously alike; any other situation is treated as a difference.
    fn is_encoding_equal(&self, _new_encoding: CharacterEncoding) -> (r: bool)
        ensures
            r == (self.consumed_log().len() == 0),
    {
        self.read_bytes.len() == 0
    }

    /// Changing the encoding while parsing, on a charset declaration found
    /// by the live tokenizer: UTF-16 resolutions are kept and made certain;
    /// a self-declared UTF-16 stands in for UTF-8 and `x-user-defined` for
    /// windows-1252; a declaration matching the current encoding, or one
    /// found before any byte was decoded, is adopted with certain
    /// confidence; anything else demands a full restart under the new
    /// encoding, signalled to the caller.
    pub fn change_encoding(&mut self, new_encoding: CharacterEncoding) -> (r: Result<
        (),
        EncodingRestart,
    >)
        ensures
            final(self).wf() == old(self).wf(),
            final(self).stream_remaining() == old(self).stream_remaining(),
            final(self).consumed_log() == old(self).consumed_log(),
            ({
                let cur = old(self).spec_encoding();
                let newe = crate::prescan::normalize_in_document(new_encoding);
                if cur == CharacterEncoding::Utf16BE || cur == CharacterEncoding::Utf16LE {
                    &&& r == Ok::<(), EncodingRestart>(())
                    &&& final(self).spec_encoding() == cur
                    &&& final(self).spec_confidence() == EncodingConfidence::Certain
                } else if newe == cur || old(self).consumed_log().len() == 0 {
                    &&& r == Ok::<(), EncodingRestart>(())
                    &&& final(self).spec_encoding() == newe
                    &&& final(self).spec_confidence() == EncodingConfidence::Certain
                } else {
                    &&& r == Err::<(), EncodingRestart>(EncodingRestart { encoding: newe })
                    &&& final(self).spec_encoding() == old(self).spec_encoding()
                    &&& final(self).spec_confidence() == old(self).spec_confidence()
                }
            }),
    {
        if self.character_encoding == CharacterEncoding::Utf16BE || self.character_encoding
            == CharacterEncoding::Utf16LE {
            self.encoding_confidence = EncodingConfidence::Certain;
            return Ok(());
        }
        let newe = crate::prescan::normalize_declared_encoding(new_encoding);
        if newe == self.character_encoding {
            self.encoding_confidence = EncodingConfidence::Certain;
            return Ok(());
        }
        if self.is_encoding_equal(newe) {
            self.character_encoding = newe;
            self.encoding_confidence = EncodingConfidence::Certain;
            return Ok(());
        }
        Err(EncodingRestart { encoding: newe })
    }
}

} // verus!

//! The canonical character-encoding registry of the Encoding standard.
//!
//! A closed set of canonical encodings, a case-insensitive label-to-encoding
//! alias table that covers every alias the Encoding standard registers, and
//! the preferred name of each encoding for serialization.

use vstd::prelude::*;

use vstd::string::StrSliceExecFns;
use vstd::string::StringExecFns;

verus! {

/// The canonical character encodings registered by the Encoding standard.
#[derive(Clone, Copy, Debug, PartialEq, Eq, Structural)]
pub enum CharacterEncoding {
    Utf8, IBM866, ISO8859_2, ISO8859_3, ISO8859_4,
    ISO8859_5, ISO8859_6, ISO8859_7, ISO8859_8, ISO8859_8I,
    ISO8859_10, ISO8859_13, ISO8859_14, ISO8859_15, ISO8859_16,
    KOI8R, KOI8U, Macintosh, Windows874, Windows1250,
    Windows1251, Windows1252, Windows1253, Windows1254, Windows1255,
    Windows1256, Windows1257, Windows1258, XMacCyrillic, GBK,
    GB18030, Big5, EucJp, ISO2022Jp, ShiftJIS,
    EucKr, Replacement, Utf16BE, Utf16LE, XUserDefined,
}

/// Failure of label resolution: the label names no registered encoding.
#[derive(Clone, Copy, Debug, PartialEq, Eq, Structural)]
pub struct UnrecognizedLabel;

/// ASCII-lowercases one character.
pub open spec fn lower_char(c: char) -> char {
    if 65 <= c as u32 <= 90 {
        ((c as u32) + 32) as char
    } else {
        c
    }
}

/// ASCII-lowercases a character sequence.
pub open spec fn lower_seq(s: Seq<char>) -> Seq<char> {
    Seq::new(s.len(), |i: int| lower_char(s[i]))
}

/// The lowercased labels that the Encoding standard maps to `Utf8`.
pub open spec fn is_label_utf8(l: Seq<char>) -> bool {
    ||| l == "x-unicode20utf8"@
    ||| l == "utf8"@
    ||| l == "utf-8"@
    ||| l == "unicode20utf8"@
    ||| l == "unicode11utf8"@
    ||| l == "unicode-1-1-utf-8"@
}

/// The lowercased labels that the Encoding standard maps to `IBM866`.
pub open spec fn is_label_ibm866(l: Seq<char>) -> bool {
    ||| l == "ibm866"@
    ||| l == "csibm866"@
    ||| l == "cp866"@
    ||| l == "866"@
}

/// The lowercased labels that the Encoding standard maps to `ISO8859_2`.
pub open spec fn is_label_iso8859_2(l: Seq<char>) -> bool {
    ||| l == "latin2"@
    ||| l == "l2"@
    ||| l == "iso_8859-2:1987"@
    ||| l == "iso_8859-2"@
    ||| l == "iso88592"@
    ||| l == "iso8859-2"@
    ||| l == "iso-ir-101"@
    ||| l == "iso-8859-2"@
    ||| l == "csisolatin2"@
}

/// The lowercased labels that the Encoding standard maps to `ISO8859_3`.
pub open spec fn is_label_iso8859_3(l: Seq<char>) -> bool {
    ||| l == "latin3"@
    ||| l == "l3"@
    ||| l == "iso_8859-3:1988"@
    ||| l == "iso_8859-3"@
    ||| l == "iso88593"@
    ||| l == "iso8859-3"@
    ||| l == "iso-ir-109"@
    ||| l == "iso-8859-3"@
    ||| l == "csisolatin3"@
}

/// The lowercased labels that the Encoding standard maps to `ISO8859_4`.
pub open spec fn is_label_iso8859_4(l: Seq<char>) -> bool {
    ||| l == "latin4"@
    ||| l == "l4"@
    ||| l == "iso_8859-4:1988"@
    ||| l == "iso_8859-4"@
    ||| l == "iso88594"@
    ||| l == "iso8859-4"@
    ||| l == "iso-ir-110"@
    ||| l == "iso-8859-4"@
    ||| l == "csisolatin4"@
}

/// The lowercased labels that the Encoding standard maps to `ISO8859_5`.
pub open spec fn is_label_iso8859_5(l: Seq<char>) -> bool {
    ||| l == "iso_8859-5:1988"@
    ||| l == "iso_8859-5"@
    ||| l == "iso88595"@
    ||| l == "iso8859-5"@
    ||| l == "iso-ir-144"@
    ||| l == "iso-8859-5"@
    ||| l == "cyrillic"@
    ||| l == "csisolatincyrillic"@
}

/// The lowercased labels that the Encoding standard maps to `ISO8859_6`.
pub open spec fn is_label_iso8859_6(l: Seq<char>) -> bool {
    ||| l == "iso_8859-6:1987"@
    ||| l == "iso_8859-6"@
    ||| l == "iso88596"@
    ||| l == "iso8859-6"@
    ||| l == "iso-ir-127"@
    ||| l == "iso-8859-6-i"@
    ||| l == "iso-8859-6-e"@
    ||| l == "iso-8859-6"@
    ||| l == "ecma-114"@
    ||| l == "csisolatinarabic"@
    ||| l == "csiso88596i"@
    ||| l == "csiso88596e"@
    ||| l == "asmo-708"@
    ||| l == "arabic"@
}

/// The lowercased labels that the Encoding standard maps to `ISO8859_7`.
pub open spec fn is_label_iso8859_7(l: Seq<char>) -> bool {
    ||| l == "sun_eu_greek"@
    ||| l == "iso_8859-7:1987"@
    ||| l == "iso_8859-7"@
    ||| l == "iso88597"@
    ||| l == "iso8859-7"@
    ||| l == "iso-ir-126"@
    ||| l == "iso-8859-7"@
    ||| l == "greek8"@
    ||| l == "greek"@
    ||| l == "elot_928"@
    ||| l == "ecma-118"@
    ||| l == "csisolatingreek"@
}

/// The lowercased labels that the Encoding standard maps to `ISO8859_8`.
pub open spec fn is_label_iso8859_8(l: Seq<char>) -> bool {
    ||| l == "visual"@
    ||| l == "iso_8859-8:1988"@
    ||| l == "iso_8859-8"@
    ||| l == "iso88598"@
    ||| l == "iso8859-8"@
    ||| l == "iso-ir-138"@
    ||| l == "iso-8859-8-e"@
    ||| l == "iso-8859-8"@
    ||| l == "hebrew"@
    ||| l == "csisolatinhebrew"@
    ||| l == "csiso88598e"@
}

/// The lowercased labels that the Encoding standard maps to `ISO8859_8I`.
pub open spec fn is_label_iso8859_8_i(l: Seq<char>) -> bool {
    ||| l == "logical"@
    ||| l == "iso-8859-8-i"@
    ||| l == "csiso88598i"@
}

/// The lowercased labels that the Encoding standard maps to `ISO8859_10`.
pub open spec fn is_label_iso8859_10(l: Seq<char>) -> bool {
    ||| l == "latin6"@
    ||| l == "l6"@
    ||| l == "iso885910"@
    ||| l == "iso8859-10"@
    ||| l == "iso-ir-157"@
    ||| l == "iso-8859-10"@
    ||| l == "csisolatin6"@
}

/// The lowercased labels that the Encoding standard maps to `ISO8859_13`.
pub open spec fn is_label_iso8859_13(l: Seq<char>) -> bool {
    ||| l == "iso885913"@
    ||| l == "iso8859-13"@
    ||| l == "iso-8859-13"@
}

/// The lowercased labels that the Encoding standard maps to `ISO8859_14`.
pub open spec fn is_label_iso8859_14(l: Seq<char>) -> bool {
    ||| l == "iso885914"@
    ||| l == "iso8859-14"@
    ||| l == "iso-8859-14"@
}

/// The lowercased labels that the Encoding standard maps to `ISO8859_15`.
pub open spec fn is_label_iso8859_15(l: Seq<char>) -> bool {
    ||| l == "l9"@
    ||| l == "iso_8859-15"@
    ||| l == "iso885915"@
    ||| l == "iso8859-15"@
    ||| l == "iso-8859-15"@
    ||| l == "csisolatin9"@
}

/// The lowercased labels that the Encoding standard maps to `ISO8859_16`.
pub open spec fn is_label_iso8859_16(l: Seq<char>) -> bool {
    l == "iso-8859-16"@
}

/// The lowercased labels that the Encoding standard maps to `KOI8R`.
pub open spec fn is_label_koi8_r(l: Seq<char>) -> bool {
    ||| l == "koi8_r"@
    ||| l == "koi8-r"@
    ||| l == "koi8"@
    ||| l == "koi"@
    ||| l == "cskoi8r"@
}

/// The lowercased labels that the Encoding standard maps to `KOI8U`.
pub open spec fn is_label_koi8_u(l: Seq<char>) -> bool {
    ||| l == "koi8-u"@
    ||| l == "koi8-ru"@
}

/// The lowercased labels that the Encoding standard maps to `Macintosh`.
pub open spec fn is_label_macintosh(l: Seq<char>) -> bool {
    ||| l == "x-mac-roman"@
    ||| l == "macintosh"@
    ||| l == "mac"@
    ||| l == "csmacintosh"@
}

/// The lowercased labels that the Encoding standard maps to `Windows874`.
pub open spec fn is_label_windows874(l: Seq<char>) -> bool {
    ||| l == "windows-874"@
    ||| l == "tis-620"@
    ||| l == "iso885911"@
    ||| l == "iso8859-11"@
    ||| l == "iso-8859-11"@
    ||| l == "dos-874"@
}

/// The lowercased labels that the Encoding standard maps to `Windows1250`.
pub open spec fn is_label_windows1250(l: Seq<char>) -> bool {
    ||| l == "x-cp1250"@
    ||| l == "windows-1250"@
    ||| l == "cp1250"@
}

/// The lowercased labels that the Encoding standard maps to `Windows1251`.
pub open spec fn is_label_windows1251(l: Seq<char>) -> bool {
    ||| l == "x-cp1251"@
    ||| l == "windows-1251"@
    ||| l == "cp1251"@
}

/// The lowercased labels that the Encoding standard maps to `Windows1252`.
pub open spec fn is_label_windows1252(l: Seq<char>) -> bool {
    ||| l == "x-cp1252"@
    ||| l == "windows-1252"@
    ||| l == "us-ascii"@
    ||| l == "latin1"@
    ||| l == "l1"@
    ||| l == "iso_8859-1:1987"@
    ||| l == "iso_8859-1"@
    ||| l == "iso88591"@
    ||| l == "iso8859-1"@
    ||| l == "iso-ir-100"@
    ||| l == "iso-8859-1"@
    ||| l == "ibm819"@
    ||| l == "csisolatin1"@
    ||| l == "cp819"@
    ||| l == "cp1252"@
    ||| l == "ascii"@
    ||| l == "ansi_x3.4-1968"@
}

/// The lowercased labels that the Encoding standard maps to `Windows1253`.
pub open spec fn is_label_windows1253(l: Seq<char>) -> bool {
    ||| l == "x-cp1253"@
    ||| l == "windows-1253"@
    ||| l == "cp1253"@
}

/// The lowercased labels that the Encoding standard maps to `Windows1254`.
pub open spec fn is_label_windows1254(l: Seq<char>) -> bool {
    ||| l == "x-cp1254"@
    ||| l == "windows-1254"@
    ||| l == "latin5"@
    ||| l == "l5"@
    ||| l == "iso_8859-9:1989"@
    ||| l == "iso_8859-9"@
    ||| l == "iso88599"@
    ||| l == "iso8859-9"@
    ||| l == "iso-ir-148"@
    ||| l == "iso-8859-9"@
    ||| l == "csisolatin5"@
    ||| l == "cp1254"@
}

/// The lowercased labels that the Encoding standard maps to `Windows1255`.
pub open spec fn is_label_windows1255(l: Seq<char>) -> bool {
    ||| l == "x-cp1255"@
    ||| l == "windows-1255"@
    ||| l == "cp1255"@
}

/// The lowercased labels that the Encoding standard maps to `Windows1256`.
pub open spec fn is_label_windows1256(l: Seq<char>) -> bool {
    ||| l == "x-cp1256"@
    ||| l == "windows-1256"@
    ||| l == "cp1256"@
}

/// The lowercased labels that the Encoding standard maps to `Windows1257`.
pub open spec fn is_label_windows1257(l: Seq<char>) -> bool {
    ||| l == "x-cp1257"@
    ||| l == "windows-1257"@
    ||| l == "cp1257"@
}

/// The lowercased labels that the Encoding standard maps to `Windows1258`.
pub open spec fn is_label_windows1258(l: Seq<char>) -> bool {
    ||| l == "x-cp1258"@
    ||| l == "windows-1258"@
    ||| l == "cp1258"@
}

/// The lowercased labels that the Encoding standard maps to `XMacCyrillic`.
pub open spec fn is_label_xmac_cyrillic(l: Seq<char>) -> bool {
    ||| l == "x-mac-ukrainian"@
    ||| l == "x-mac-cyrillic"@
}

/// The lowercased labels that the Encoding standard maps to `GBK`.
pub open spec fn is_label_gbk(l: Seq<char>) -> bool {
    ||| l == "x-gbk"@
    ||| l == "iso-ir-58"@
    ||| l == "gbk"@
    ||| l == "gb_2312-80"@
    ||| l == "gb_2312"@
    ||| l == "gb2312"@
    ||| l == "csiso58gb231280"@
    ||| l == "csgb2312"@
    ||| l == "chinese"@
}

/// The lowercased labels that the Encoding standard maps to `GB18030`.
pub open spec fn is_label_gb18030(l: Seq<char>) -> bool {
    l == "gb18030"@
}

/// The lowercased labels that the Encoding standard maps to `Big5`.
pub open spec fn is_label_big5(l: Seq<char>) -> bool {
    ||| l == "x-x-big5"@
    ||| l == "csbig5"@
    ||| l == "cn-big5"@
    ||| l == "big5-hkscs"@
    ||| l == "big5"@
}

/// The lowercased labels that the Encoding standard maps to `EucJp`.
pub open spec fn is_label_euc_jp(l: Seq<char>) -> bool {
    ||| l == "x-euc-jp"@
    ||| l == "euc-jp"@
    ||| l == "cseucpkdfmtjapanese"@
}

/// The lowercased labels that the Encoding standard maps to `ISO2022Jp`.
pub open spec fn is_label_iso2022_jp(l: Seq<char>) -> bool {
    ||| l == "iso-2022-jp"@
    ||| l == "csiso2022jp"@
}

/// The lowercased labels that the Encoding standard maps to `ShiftJIS`.
pub open spec fn is_label_shift_jis(l: Seq<char>) -> bool {
    ||| l == "x-sjis"@
    ||| l == "windows-31j"@
    ||| l == "sjis"@
    ||| l == "shift_jis"@
    ||| l == "shift-jis"@
    ||| l == "ms_kanji"@
    ||| l == "ms932"@
    ||| l == "csshiftjis"@
}

/// The lowercased labels that the Encoding standard maps to `EucKr`.
pub open spec fn is_label_euc_kr(l: Seq<char>) -> bool {
    ||| l == "windows-949"@
    ||| l == "ksc_5601"@
    ||| l == "ksc5601"@
    ||| l == "ks_c_5601-1989"@
    ||| l == "ks_c_5601-1987"@
    ||| l == "korean"@
    ||| l == "iso-ir-149"@
    ||| l == "euc-kr"@
    ||| l == "csksc56011987"@
    ||| l == "cseuckr"@
}

/// The lowercased labels that the Encoding standard maps to `Replacement`.
pub open spec fn is_label_replacement(l: Seq<char>) -> bool {
    ||| l == "replacement"@
    ||| l == "iso-2022-kr"@
    ||| l == "iso-2022-cn-ext"@
    ||| l == "iso-2022-cn"@
    ||| l == "hz-gb-2312"@
    ||| l == "csiso2022kr"@
}

/// The lowercased labels that the Encoding standard maps to `Utf16BE`.
pub open spec fn is_label_utf16_be(l: Seq<char>) -> bool {
    ||| l == "utf-16be"@
    ||| l == "unicodefffe"@
}

/// The lowercased labels that the Encoding standard maps to `Utf16LE`.
pub open spec fn is_label_utf16_le(l: Seq<char>) -> bool {
    ||| l == "utf-16le"@
    ||| l == "utf-16"@
    ||| l == "unicodefeff"@
    ||| l == "unicode"@
    ||| l == "ucs-2"@
    ||| l == "iso-10646-ucs-2"@
    ||| l == "csunicode"@
}

/// The lowercased labels that the Encoding standard maps to `XUserDefined`.
pub open spec fn is_label_xuser_defined(l: Seq<char>) -> bool {
    l == "x-user-defined"@
}

/// Looks an already-lowercased label up in the alias table.
pub open spec fn spec_label_lookup_lowered(l: Seq<char>) -> Option<CharacterEncoding> {
    if is_label_utf8(l) {
        Some(CharacterEncoding::Utf8)
    } else if is_label_ibm866(l) {
        Some(CharacterEncoding::IBM866)
    } else if is_label_iso8859_2(l) {
        Some(CharacterEncoding::ISO8859_2)
    } else if is_label_iso8859_3(l) {
        Some(CharacterEncoding::ISO8859_3)
    } else if is_label_iso8859_4(l) {
        Some(CharacterEncoding::ISO8859_4)
    } else if is_label_iso8859_5(l) {
        Some(CharacterEncoding::ISO8859_5)
    } else if is_label_iso8859_6(l) {
        Some(CharacterEncoding::ISO8859_6)
    } else if is_label_iso8859_7(l) {
        Some(CharacterEncoding::ISO8859_7)
    } else if is_label_iso8859_8(l) {
        Some(CharacterEncoding::ISO8859_8)
    } else if is_label_iso8859_8_i(l) {
        Some(CharacterEncoding::ISO8859_8I)
    } else if is_label_iso8859_10(l) {
        Some(CharacterEncoding::ISO8859_10)
    } else if is_label_iso8859_13(l) {
        Some(CharacterEncoding::ISO8859_13)
    } else if is_label_iso8859_14(l) {
        Some(CharacterEncoding::ISO8859_14)
    } else if is_label_iso8859_15(l) {
        Some(CharacterEncoding::ISO8859_15)
    } else if is_label_iso8859_16(l) {
        Some(CharacterEncoding::ISO8859_16)
    } else if is_label_koi8_r(l) {
        Some(CharacterEncoding::KOI8R)
    } else if is_label_koi8_u(l) {
        Some(CharacterEncoding::KOI8U)
    } else if is_label_macintosh(l) {
        Some(CharacterEncoding::Macintosh)
    } else if is_label_windows874(l) {
        Some(CharacterEncoding::Windows874)
    } else if is_label_windows1250(l) {
        Some(CharacterEncoding::Windows1250)
    } else if is_label_windows1251(l) {
        Some(CharacterEncoding::Windows1251)
    } else if is_label_windows1252(l) {
        Some(CharacterEncoding::Windows1252)
    } else if is_label_windows1253(l) {
        Some(CharacterEncoding::Windows1253)
    } else if is_label_windows1254(l) {
        Some(CharacterEncoding::Windows1254)
    } else if is_label_windows1255(l) {
        Some(CharacterEncoding::Windows1255)
    } else if is_label_windows1256(l) {
        Some(CharacterEncoding::Windows1256)
    } else if is_label_windows1257(l) {
        Some(CharacterEncoding::Windows1257)
    } else if is_label_windows1258(l) {
        Some(CharacterEncoding::Windows1258)
    } else if is_label_xmac_cyrillic(l) {
        Some(CharacterEncoding::XMacCyrillic)
    } else if is_label_gbk(l) {
        Some(CharacterEncoding::GBK)
    } else if is_label_gb18030(l) {
        Some(CharacterEncoding::GB18030)
    } else if is_label_big5(l) {
        Some(CharacterEncoding::Big5)
    } else if is_label_euc_jp(l) {
        Some(CharacterEncoding::EucJp)
    } else if is_label_iso2022_jp(l) {
        Some(CharacterEncoding::ISO2022Jp)
    } else if is_label_shift_jis(l) {
        Some(CharacterEncoding::ShiftJIS)
    } else if is_label_euc_kr(l) {
        Some(CharacterEncoding::EucKr)
    } else if is_label_replacement(l) {
        Some(CharacterEncoding::Replacement)
    } else if is_label_utf16_be(l) {
        Some(CharacterEncoding::Utf16BE)
    } else if is_label_utf16_le(l) {
        Some(CharacterEncoding::Utf16LE)
    } else if is_label_xuser_defined(l) {
        Some(CharacterEncoding::XUserDefined)
    } else {
        None
    }
}

/// Looks a label up in the alias table, case-insensitively.
pub open spec fn spec_label_lookup(s: Seq<char>) -> Option<CharacterEncoding> {
    spec_label_lookup_lowered(lower_seq(s))
}

/// What `CharacterEncoding::parse` returns for a label.
pub open spec fn spec_parse(s: Seq<char>) -> Result<CharacterEncoding, UnrecognizedLabel> {
    match spec_label_lookup(s) {
        Some(e) => Ok(e),
        None => Err(UnrecognizedLabel),
    }
}

/// The preferred name of each canonical encoding.
pub open spec fn spec_canonical_name(e: CharacterEncoding) -> Seq<char> {
    match e {
        CharacterEncoding::XUserDefined => "x-user-defined"@,
        CharacterEncoding::Utf16LE => "UTF-16LE"@,
        CharacterEncoding::Utf16BE => "UTF-16BE"@,
        CharacterEncoding::Replacement => "replacement"@,
        CharacterEncoding::EucKr => "EUC-KR"@,
        CharacterEncoding::ShiftJIS => "Shift_JIS"@,
        CharacterEncoding::ISO2022Jp => "ISO-2022-JP"@,
        CharacterEncoding::EucJp => "EUC-JP"@,
        CharacterEncoding::Big5 => "Big5"@,
        CharacterEncoding::GB18030 => "gb18030"@,
        CharacterEncoding::GBK => "GBK"@,
        CharacterEncoding::XMacCyrillic => "x-mac-cyrillic"@,
        CharacterEncoding::Windows1258 => "windows-1258"@,
        CharacterEncoding::Windows1257 => "windows-1257"@,
        CharacterEncoding::Windows1256 => "windows-1256"@,
        CharacterEncoding::Windows1255 => "windows-1255"@,
        CharacterEncoding::Windows1254 => "windows-1254"@,
        CharacterEncoding::Windows1253 => "windows-1253"@,
        CharacterEncoding::Windows1252 => "windows-1252"@,
        CharacterEncoding::Windows1251 => "windows-1251"@,
        CharacterEncoding::Windows1250 => "windows-1250"@,
        CharacterEncoding::Windows874 => "windows-874"@,
        CharacterEncoding::Macintosh => "macintosh"@,
        CharacterEncoding::KOI8U => "KOI8-U"@,
        CharacterEncoding::KOI8R => "KOI8-R"@,
        CharacterEncoding::ISO8859_16 => "ISO-8859-16"@,
        CharacterEncoding::ISO8859_15 => "ISO-8859-15"@,
        CharacterEncoding::ISO8859_14 => "ISO-8859-14"@,
        CharacterEncoding::ISO8859_13 => "ISO-8859-13"@,
        CharacterEncoding::ISO8859_10 => "ISO-8859-10"@,
        CharacterEncoding::ISO8859_8I => "ISO-8859-8-I"@,
        CharacterEncoding::ISO8859_8 => "ISO-8859-8"@,
        CharacterEncoding::ISO8859_7 => "ISO-8859-7"@,
        CharacterEncoding::ISO8859_6 => "ISO-8859-6"@,
        CharacterEncoding::ISO8859_5 => "ISO-8859-5"@,
        CharacterEncoding::ISO8859_4 => "ISO-8859-4"@,
        CharacterEncoding::ISO8859_3 => "ISO-8859-3"@,
        CharacterEncoding::ISO8859_2 => "ISO-8859-2"@,
        CharacterEncoding::IBM866 => "IBM866"@,
        CharacterEncoding::Utf8 => "UTF-8"@,
    }
}

/// Compares a character vector with a string slice.
#[verifier::loop_isolation(false)]
fn chars_eq_lit(v: &Vec<char>, lit: &str) -> (r: bool)
    ensures
        r == (v@ == lit@),
{
    let n = lit.unicode_len();
    if v.len() != n {
        return false;
    }
    let mut i: usize = 0;
    while i < n
        invariant
            n == lit@.len(),
            v@.len() == n,
            i <= n,
            forall|j: int| #![trigger v@[j]] 0 <= j < i ==> v@[j] == lit@[j],
        decreases n - i,
    {
        if v[i] != lit.get_char(i) {
            return false;
        }
        i = i + 1;
    }
    proof {
        assert(v@ =~= lit@);
    }
    true
}

/// ASCII-lowercases one character.
pub(crate) fn lower_char_exec(c: char) -> (r: char)
    ensures
        r == lower_char(c),
{
    let u = c as u32;
    if 65 <= u && u <= 90 {
        (((u as u8) + 32) as char)
    } else {
        c
    }
}

/// Collects the characters of a string slice.
#[verifier::loop_isolation(false)]
pub fn str_to_chars(s: &str) -> (r: Vec<char>)
    ensures
        r@ == s@,
{
    let n = s.unicode_len();
    let mut v: Vec<char> = Vec::new();
    let mut i: usize = 0;
    while i < n
        invariant
            n == s@.len(),
            i <= n,
            v@ == s@.take(i as int),
        decreases n - i,
    {
        v.push(s.get_char(i));
        proof {
            assert(v@ =~= s@.take(i + 1));
        }
        i = i + 1;
    }
    proof {
        assert(v@ =~= s@);
    }
    v
}

/// ASCII-lowercases a character vector.
#[verifier::loop_isolation(false)]
pub fn lower_chars(v: &Vec<char>) -> (r: Vec<char>)
    ensures
        r@ == lower_seq(v@),
{
    let n = v.len();
    let mut out: Vec<char> = Vec::new();
    let mut i: usize = 0;
    while i < n
        invariant
            n == v@.len(),
            i <= n,
            out@.len() == i,
            forall|j: int| #![trigger out@[j]] 0 <= j < i ==> out@[j] == lower_char(v@[j]),
        decreases n - i,
    {
        out.push(lower_char_exec(v[i]));
        i = i + 1;
    }
    proof {
        assert(out@ =~= lower_seq(v@));
    }
    out
}

/// Whether a lowercased label names `Utf8`.
fn matches_label_utf8(l: &Vec<char>) -> (r: bool)
    ensures
        r == is_label_utf8(l@),
{
    chars_eq_lit(l, "x-unicode20utf8") || chars_eq_lit(l, "utf8") || chars_eq_lit(l, "utf-8") || chars_eq_lit(l, "unicode20utf8") || chars_eq_lit(l, "unicode11utf8") || chars_eq_lit(l, "unicode-1-1-utf-8")
}

/// Whether a lowercased label names `IBM866`.
fn matches_label_ibm866(l: &Vec<char>) -> (r: bool)
    ensures
        r == is_label_ibm866(l@),
{
    chars_eq_lit(l, "ibm866") || chars_eq_lit(l, "csibm866") || chars_eq_lit(l, "cp866") || chars_eq_lit(l, "866")
}

/// Whether a lowercased label names `ISO8859_2`.
fn matches_label_iso8859_2(l: &Vec<char>) -> (r: bool)
    ensures
        r == is_label_iso8859_2(l@),
{
    chars_eq_lit(l, "latin2") || chars_eq_lit(l, "l2") || chars_eq_lit(l, "iso_8859-2:1987") || chars_eq_lit(l, "iso_8859-2") || chars_eq_lit(l, "iso88592") || chars_eq_lit(l, "iso8859-2") || chars_eq_lit(l, "iso-ir-101") || chars_eq_lit(l, "iso-8859-2") || chars_eq_lit(l, "csisolatin2")
}

/// Whether a lowercased label names `ISO8859_3`.
fn matches_label_iso8859_3(l: &Vec<char>) -> (r: bool)
    ensures
        r == is_label_iso8859_3(l@),
{
    chars_eq_lit(l, "latin3") || chars_eq_lit(l, "l3") || chars_eq_lit(l, "iso_8859-3:1988") || chars_eq_lit(l, "iso_8859-3") || chars_eq_lit(l, "iso88593") || chars_eq_lit(l, "iso8859-3") || chars_eq_lit(l, "iso-ir-109") || chars_eq_lit(l, "iso-8859-3") || chars_eq_lit(l, "csisolatin3")
}

/// Whether a lowercased label names `ISO8859_4`.
fn matches_label_iso8859_4(l: &Vec<char>) -> (r: bool)
    ensures
        r == is_label_iso8859_4(l@),
{
    chars_eq_lit(l, "latin4") || chars_eq_lit(l, "l4") || chars_eq_lit(l, "iso_8859-4:1988") || chars_eq_lit(l, "iso_8859-4") || chars_eq_lit(l, "iso88594") || chars_eq_lit(l, "iso8859-4") || chars_eq_lit(l, "iso-ir-110") || chars_eq_lit(l, "iso-8859-4") || chars_eq_lit(l, "csisolatin4")
}

/// Whether a lowercased label names `ISO8859_5`.
fn matches_label_iso8859_5(l: &Vec<char>) -> (r: bool)
    ensures
        r == is_label_iso8859_5(l@),
{
    chars_eq_lit(l, "iso_8859-5:1988") || chars_eq_lit(l, "iso_8859-5") || chars_eq_lit(l, "iso88595") || chars_eq_lit(l, "iso8859-5") || chars_eq_lit(l, "iso-ir-144") || chars_eq_lit(l, "iso-8859-5") || chars_eq_lit(l, "cyrillic") || chars_eq_lit(l, "csisolatincyrillic")
}

/// Whether a lowercased label names `ISO8859_6`.
fn matches_label_iso8859_6(l: &Vec<char>) -> (r: bool)
    ensures
        r == is_label_iso8859_6(l@),
{
    chars_eq_lit(l, "iso_8859-6:1987") || chars_eq_lit(l, "iso_8859-6") || chars_eq_lit(l, "iso88596") || chars_eq_lit(l, "iso8859-6") || chars_eq_lit(l, "iso-ir-127") || chars_eq_lit(l, "iso-8859-6-i") || chars_eq_lit(l, "iso-8859-6-e") || chars_eq_lit(l, "iso-8859-6") || chars_eq_lit(l, "ecma-114") || chars_eq_lit(l, "csisolatinarabic") || chars_eq_lit(l, "csiso88596i") || chars_eq_lit(l, "csiso88596e") || chars_eq_lit(l, "asmo-708") || chars_eq_lit(l, "arabic")
}

/// Whether a lowercased label names `ISO8859_7`.
fn matches_label_iso8859_7(l: &Vec<char>) -> (r: bool)
    ensures
        r == is_label_iso8859_7(l@),
{
    chars_eq_lit(l, "sun_eu_greek") || chars_eq_lit(l, "iso_8859-7:1987") || chars_eq_lit(l, "iso_8859-7") || chars_eq_lit(l, "iso88597") || chars_eq_lit(l, "iso8859-7") || chars_eq_lit(l, "iso-ir-126") || chars_eq_lit(l, "iso-8859-7") || chars_eq_lit(l, "greek8") || chars_eq_lit(l, "greek") || chars_eq_lit(l, "elot_928") || chars_eq_lit(l, "ecma-118") || chars_eq_lit(l, "csisolatingreek")
}

/// Whether a lowercased label names `ISO8859_8`.
fn matches_label_iso8859_8(l: &Vec<char>) -> (r: bool)
    ensures
        r == is_label_iso8859_8(l@),
{
    chars_eq_lit(l, "visual") || chars_eq_lit(l, "iso_8859-8:1988") || chars_eq_lit(l, "iso_8859-8") || chars_eq_lit(l, "iso88598") || chars_eq_lit(l, "iso8859-8") || chars_eq_lit(l, "iso-ir-138") || chars_eq_lit(l, "iso-8859-8-e") || chars_eq_lit(l, "iso-8859-8") || chars_eq_lit(l, "hebrew") || chars_eq_lit(l, "csisolatinhebrew") || chars_eq_lit(l, "csiso88598e")
}

/// Whether a lowercased label names `ISO8859_8I`.
fn matches_label_iso8859_8_i(l: &Vec<char>) -> (r: bool)
    ensures
        r == is_label_iso8859_8_i(l@),
{
    chars_eq_lit(l, "logical") || chars_eq_lit(l, "iso-8859-8-i") || chars_eq_lit(l, "csiso88598i")
}

/// Whether a lowercased label names `ISO8859_10`.
fn matches_label_iso8859_10(l: &Vec<char>) -> (r: bool)
    ensures
        r == is_label_iso8859_10(l@),
{
    chars_eq_lit(l, "latin6") || chars_eq_lit(l, "l6") || chars_eq_lit(l, "iso885910") || chars_eq_lit(l, "iso8859-10") || chars_eq_lit(l, "iso-ir-157") || chars_eq_lit(l, "iso-8859-10") || chars_eq_lit(l, "csisolatin6")
}

/// Whether a lowercased label names `ISO8859_13`.
fn matches_label_iso8859_13(l: &Vec<char>) -> (r: bool)
    ensures
        r == is_label_iso8859_13(l@),
{
    chars_eq_lit(l, "iso885913") || chars_eq_lit(l, "iso8859-13") || chars_eq_lit(l, "iso-8859-13")
}

/// Whether a lowercased label names `ISO8859_14`.
fn matches_label_iso8859_14(l: &Vec<char>) -> (r: bool)
    ensures
        r == is_label_iso8859_14(l@),
{
    chars_eq_lit(l, "iso885914") || chars_eq_lit(l, "iso8859-14") || chars_eq_lit(l, "iso-8859-14")
}

/// Whether a lowercased label names `ISO8859_15`.
fn matches_label_iso8859_15(l: &Vec<char>) -> (r: bool)
    ensures
        r == is_label_iso8859_15(l@),
{
    chars_eq_lit(l, "l9") || chars_eq_lit(l, "iso_8859-15") || chars_eq_lit(l, "iso885915") || chars_eq_lit(l, "iso8859-15") || chars_eq_lit(l, "iso-8859-15") || chars_eq_lit(l, "csisolatin9")
}

/// Whether a lowercased label names `ISO8859_16`.
fn matches_label_iso8859_16(l: &Vec<char>) -> (r: bool)
    ensures
        r == is_label_iso8859_16(l@),
{
    chars_eq_lit(l, "iso-8859-16")
}

/// Whether a lowercased label names `KOI8R`.
fn matches_label_koi8_r(l: &Vec<char>) -> (r: bool)
    ensures
        r == is_label_koi8_r(l@),
{
    chars_eq_lit(l, "koi8_r") || chars_eq_lit(l, "koi8-r") || chars_eq_lit(l, "koi8") || chars_eq_lit(l, "koi") || chars_eq_lit(l, "cskoi8r")
}

/// Whether a lowercased label names `KOI8U`.
fn matches_label_koi8_u(l: &Vec<char>) -> (r: bool)
    ensures
        r == is_label_koi8_u(l@),
{
    chars_eq_lit(l, "koi8-u") || chars_eq_lit(l, "koi8-ru")
}

/// Whether a lowercased label names `Macintosh`.
fn matches_label_macintosh(l: &Vec<char>) -> (r: bool)
    ensures
        r == is_label_macintosh(l@),
{
    chars_eq_lit(l, "x-mac-roman") || chars_eq_lit(l, "macintosh") || chars_eq_lit(l, "mac") || chars_eq_lit(l, "csmacintosh")
}

/// Whether a lowercased label names `Windows874`.
fn matches_label_windows874(l: &Vec<char>) -> (r: bool)
    ensures
        r == is_label_windows874(l@),
{
    chars_eq_lit(l, "windows-874") || chars_eq_lit(l, "tis-620") || chars_eq_lit(l, "iso885911") || chars_eq_lit(l, "iso8859-11") || chars_eq_lit(l, "iso-8859-11") || chars_eq_lit(l, "dos-874")
}

/// Whether a lowercased label names `Windows1250`.
fn matches_label_windows1250(l: &Vec<char>) -> (r: bool)
    ensures
        r == is_label_windows1250(l@),
{
    chars_eq_lit(l, "x-cp1250") || chars_eq_lit(l, "windows-1250") || chars_eq_lit(l, "cp1250")
}

/// Whether a lowercased label names `Windows1251`.
fn matches_label_windows1251(l: &Vec<char>) -> (r: bool)
    ensures
        r == is_label_windows1251(l@),
{
    chars_eq_lit(l, "x-cp1251") || chars_eq_lit(l, "windows-1251") || chars_eq_lit(l, "cp1251")
}

/// Whether a lowercased label names `Windows1252`.
fn matches_label_windows1252(l: &Vec<char>) -> (r: bool)
    ensures
        r == is_label_windows1252(l@),
{
    chars_eq_lit(l, "x-cp1252") || chars_eq_lit(l, "windows-1252") || chars_eq_lit(l, "us-ascii") || chars_eq_lit(l, "latin1") || chars_eq_lit(l, "l1") || chars_eq_lit(l, "iso_8859-1:1987") || chars_eq_lit(l, "iso_8859-1") || chars_eq_lit(l, "iso88591") || chars_eq_lit(l, "iso8859-1") || chars_eq_lit(l, "iso-ir-100") || chars_eq_lit(l, "iso-8859-1") || chars_eq_lit(l, "ibm819") || chars_eq_lit(l, "csisolatin1") || chars_eq_lit(l, "cp819") || chars_eq_lit(l, "cp1252") || chars_eq_lit(l, "ascii") || chars_eq_lit(l, "ansi_x3.4-1968")
}

/// Whether a lowercased label names `Windows1253`.
fn matches_label_windows1253(l: &Vec<char>) -> (r: bool)
    ensures
        r == is_label_windows1253(l@),
{
    chars_eq_lit(l, "x-cp1253") || chars_eq_lit(l, "windows-1253") || chars_eq_lit(l, "cp1253")
}

/// Whether a lowercased label names `Windows1254`.
fn matches_label_windows1254(l: &Vec<char>) -> (r: bool)
    ensures
        r == is_label_windows1254(l@),
{
    chars_eq_lit(l, "x-cp1254") || chars_eq_lit(l, "windows-1254") || chars_eq_lit(l, "latin5") || chars_eq_lit(l, "l5") || chars_eq_lit(l, "iso_8859-9:1989") || chars_eq_lit(l, "iso_8859-9") || chars_eq_lit(l, "iso88599") || chars_eq_lit(l, "iso8859-9") || chars_eq_lit(l, "iso-ir-148") || chars_eq_lit(l, "iso-8859-9") || chars_eq_lit(l, "csisolatin5") || chars_eq_lit(l, "cp1254")
}

/// Whether a lowercased label names `Windows1255`.
fn matches_label_windows1255(l: &Vec<char>) -> (r: bool)
    ensures
        r == is_label_windows1255(l@),
{
    chars_eq_lit(l, "x-cp1255") || chars_eq_lit(l, "windows-1255") || chars_eq_lit(l, "cp1255")
}

/// Whether a lowercased label names `Windows1256`.
fn matches_label_windows1256(l: &Vec<char>) -> (r: bool)
    ensures
        r == is_label_windows1256(l@),
{
    chars_eq_lit(l, "x-cp1256") || chars_eq_lit(l, "windows-1256") || chars_eq_lit(l, "cp1256")
}

/// Whether a lowercased label names `Windows1257`.
fn matches_label_windows1257(l: &Vec<char>) -> (r: bool)
    ensures
        r == is_label_windows1257(l@),
{
    chars_eq_lit(l, "x-cp1257") || chars_eq_lit(l, "windows-1257") || chars_eq_lit(l, "cp1257")
}

/// Whether a lowercased label names `Windows1258`.
fn matches_label_windows1258(l: &Vec<char>) -> (r: bool)
    ensures
        r == is_label_windows1258(l@),
{
    chars_eq_lit(l, "x-cp1258") || chars_eq_lit(l, "windows-1258") || chars_eq_lit(l, "cp1258")
}

/// Whether a lowercased label names `XMacCyrillic`.
fn matches_label_xmac_cyrillic(l: &Vec<char>) -> (r: bool)
    ensures
        r == is_label_xmac_cyrillic(l@),
{
    chars_eq_lit(l, "x-mac-ukrainian") || chars_eq_lit(l, "x-mac-cyrillic")
}

/// Whether a lowercased label names `GBK`.
fn matches_label_gbk(l: &Vec<char>) -> (r: bool)
    ensures
        r == is_label_gbk(l@),
{
    chars_eq_lit(l, "x-gbk") || chars_eq_lit(l, "iso-ir-58") || chars_eq_lit(l, "gbk") || chars_eq_lit(l, "gb_2312-80") || chars_eq_lit(l, "gb_2312") || chars_eq_lit(l, "gb2312") || chars_eq_lit(l, "csiso58gb231280") || chars_eq_lit(l, "csgb2312") || chars_eq_lit(l, "chinese")
}

/// Whether a lowercased label names `GB18030`.
fn matches_label_gb18030(l: &Vec<char>) -> (r: bool)
    ensures
        r == is_label_gb18030(l@),
{
    chars_eq_lit(l, "gb18030")
}

/// Whether a lowercased label names `Big5`.
fn matches_label_big5(l: &Vec<char>) -> (r: bool)
    ensures
        r == is_label_big5(l@),
{
    chars_eq_lit(l, "x-x-big5") || chars_eq_lit(l, "csbig5") || chars_eq_lit(l, "cn-big5") || chars_eq_lit(l, "big5-hkscs") || chars_eq_lit(l, "big5")
}

/// Whether a lowercased label names `EucJp`.
fn matches_label_euc_jp(l: &Vec<char>) -> (r: bool)
    ensures
        r == is_label_euc_jp(l@),
{
    chars_eq_lit(l, "x-euc-jp") || chars_eq_lit(l, "euc-jp") || chars_eq_lit(l, "cseucpkdfmtjapanese")
}

/// Whether a lowercased label names `ISO2022Jp`.
fn matches_label_iso2022_jp(l: &Vec<char>) -> (r: bool)
    ensures
        r == is_label_iso2022_jp(l@),
{
    chars_eq_lit(l, "iso-2022-jp") || chars_eq_lit(l, "csiso2022jp")
}

/// Whether a lowercased label names `ShiftJIS`.
fn matches_label_shift_jis(l: &Vec<char>) -> (r: bool)
    ensures
        r == is_label_shift_jis(l@),
{
    chars_eq_lit(l, "x-sjis") || chars_eq_lit(l, "windows-31j") || chars_eq_lit(l, "sjis") || chars_eq_lit(l, "shift_jis") || chars_eq_lit(l, "shift-jis") || chars_eq_lit(l, "ms_kanji") || chars_eq_lit(l, "ms932") || chars_eq_lit(l, "csshiftjis")
}

/// Whether a lowercased label names `EucKr`.
fn matches_label_euc_kr(l: &Vec<char>) -> (r: bool)
    ensures
        r == is_label_euc_kr(l@),
{
    chars_eq_lit(l, "windows-949") || chars_eq_lit(l, "ksc_5601") || chars_eq_lit(l, "ksc5601") || chars_eq_lit(l, "ks_c_5601-1989") || chars_eq_lit(l, "ks_c_5601-1987") || chars_eq_lit(l, "korean") || chars_eq_lit(l, "iso-ir-149") || chars_eq_lit(l, "euc-kr") || chars_eq_lit(l, "csksc56011987") || chars_eq_lit(l, "cseuckr")
}

/// Whether a lowercased label names `Replacement`.
fn matches_label_replacement(l: &Vec<char>) -> (r: bool)
    ensures
        r == is_label_replacement(l@),
{
    chars_eq_lit(l, "replacement") || chars_eq_lit(l, "iso-2022-kr") || chars_eq_lit(l, "iso-2022-cn-ext") || chars_eq_lit(l, "iso-2022-cn") || chars_eq_lit(l, "hz-gb-2312") || chars_eq_lit(l, "csiso2022kr")
}

/// Whether a lowercased label names `Utf16BE`.
fn matches_label_utf16_be(l: &Vec<char>) -> (r: bool)
    ensures
        r == is_label_utf16_be(l@),
{
    chars_eq_lit(l, "utf-16be") || chars_eq_lit(l, "unicodefffe")
}

/// Whether a lowercased label names `Utf16LE`.
fn matches_label_utf16_le(l: &Vec<char>) -> (r: bool)
    ensures
        r == is_label_utf16_le(l@),
{
    chars_eq_lit(l, "utf-16le") || chars_eq_lit(l, "utf-16") || chars_eq_lit(l, "unicodefeff") || chars_eq_lit(l, "unicode") || chars_eq_lit(l, "ucs-2") || chars_eq_lit(l, "iso-10646-ucs-2") || chars_eq_lit(l, "csunicode")
}

/// Whether a lowercased label names `XUserDefined`.
fn matches_label_xuser_defined(l: &Vec<char>) -> (r: bool)
    ensures
        r == is_label_xuser_defined(l@),
{
    chars_eq_lit(l, "x-user-defined")
}

/// Looks an already-lowercased label up in the alias table.
fn lookup_lowered(l: &Vec<char>) -> (r: Option<CharacterEncoding>)
    ensures
        r == spec_label_lookup_lowered(l@),
{
    if matches_label_utf8(l) {
        Some(CharacterEncoding::Utf8)
    } else if matches_label_ibm866(l) {
        Some(CharacterEncoding::IBM866)
    } else if matches_label_iso8859_2(l) {
        Some(CharacterEncoding::ISO8859_2)
    } else if matches_label_iso8859_3(l) {
        Some(CharacterEncoding::ISO8859_3)
    } else if matches_label_iso8859_4(l) {
        Some(CharacterEncoding::ISO8859_4)
    } else if matches_label_iso8859_5(l) {
        Some(CharacterEncoding::ISO8859_5)
    } else if matches_label_iso8859_6(l) {
        Some(CharacterEncoding::ISO8859_6)
    } else if matches_label_iso8859_7(l) {
        Some(CharacterEncoding::ISO8859_7)
    } else if matches_label_iso8859_8(l) {
        Some(CharacterEncoding::ISO8859_8)
    } else if matches_label_iso8859_8_i(l) {
        Some(CharacterEncoding::ISO8859_8I)
    } else if matches_label_iso8859_10(l) {
        Some(CharacterEncoding::ISO8859_10)
    } else if matches_label_iso8859_13(l) {
        Some(CharacterEncoding::ISO8859_13)
    } else if matches_label_iso8859_14(l) {
        Some(CharacterEncoding::ISO8859_14)
    } else if matches_label_iso8859_15(l) {
        Some(CharacterEncoding::ISO8859_15)
    } else if matches_label_iso8859_16(l) {
        Some(CharacterEncoding::ISO8859_16)
    } else if matches_label_koi8_r(l) {
        Some(CharacterEncoding::KOI8R)
    } else if matches_label_koi8_u(l) {
        Some(CharacterEncoding::KOI8U)
    } else if matches_label_macintosh(l) {
        Some(CharacterEncoding::Macintosh)
    } else if matches_label_windows874(l) {
        Some(CharacterEncoding::Windows874)
    } else if matches_label_windows1250(l) {
        Some(CharacterEncoding::Windows1250)
    } else if matches_label_windows1251(l) {
        Some(CharacterEncoding::Windows1251)
    } else if matches_label_windows1252(l) {
        Some(CharacterEncoding::Windows1252)
    } else if matches_label_windows1253(l) {
        Some(CharacterEncoding::Windows1253)
    } else if matches_label_windows1254(l) {
        Some(CharacterEncoding::Windows1254)
    } else if matches_label_windows1255(l) {
        Some(CharacterEncoding::Windows1255)
    } else if matches_label_windows1256(l) {
        Some(CharacterEncoding::Windows1256)
    } else if matches_label_windows1257(l) {
        Some(CharacterEncoding::Windows1257)
    } else if matches_label_windows1258(l) {
        Some(CharacterEncoding::Windows1258)
    } else if matches_label_xmac_cyrillic(l) {
        Some(CharacterEncoding::XMacCyrillic)
    } else if matches_label_gbk(l) {
        Some(CharacterEncoding::GBK)
    } else if matches_label_gb18030(l) {
        Some(CharacterEncoding::GB18030)
    } else if matches_label_big5(l) {
        Some(CharacterEncoding::Big5)
    } else if matches_label_euc_jp(l) {
        Some(CharacterEncoding::EucJp)
    } else if matches_label_iso2022_jp(l) {
        Some(CharacterEncoding::ISO2022Jp)
    } else if matches_label_shift_jis(l) {
        Some(CharacterEncoding::ShiftJIS)
    } else if matches_label_euc_kr(l) {
        Some(CharacterEncoding::EucKr)
    } else if matches_label_replacement(l) {
        Some(CharacterEncoding::Replacement)
    } else if matches_label_utf16_be(l) {
        Some(CharacterEncoding::Utf16BE)
    } else if matches_label_utf16_le(l) {
        Some(CharacterEncoding::Utf16LE)
    } else if matches_label_xuser_defined(l) {
        Some(CharacterEncoding::XUserDefined)
    } else {
        None
    }
}

/// Looks a label, given as characters, up in the alias table,
/// case-insensitively.
pub fn parse_label_chars(chars: &Vec<char>) -> (r: Option<CharacterEncoding>)
    ensures
        r == spec_label_lookup(chars@),
{
    let low = lower_chars(chars);
    lookup_lowered(&low)
}

impl CharacterEncoding {
    /// Resolves an encoding label, case-insensitively, against the alias
    /// table of the Encoding standard; any other label is rejected.
    pub fn parse(label: &str) -> (r: Result<CharacterEncoding, UnrecognizedLabel>)
        ensures
            r == spec_parse(label@),
    {
        let chars = str_to_chars(label);
        match parse_label_chars(&chars) {
            Some(e) => Ok(e),
            None => Err(UnrecognizedLabel),
        }
    }

    /// The preferred name of this encoding, used for serialization.
    pub fn canonical_name(&self) -> (r: String)
        ensures
            r@ == spec_canonical_name(*self),
    {
        match self {
            CharacterEncoding::XUserDefined => String::from_str("x-user-defined"),
            CharacterEncoding::Utf16LE => String::from_str("UTF-16LE"),
            CharacterEncoding::Utf16BE => String::from_str("UTF-16BE"),
            CharacterEncoding::Replacement => String::from_str("replacement"),
            CharacterEncoding::EucKr => String::from_str("EUC-KR"),
            CharacterEncoding::ShiftJIS => String::from_str("Shift_JIS"),
            CharacterEncoding::ISO2022Jp => String::from_str("ISO-2022-JP"),
            CharacterEncoding::EucJp => String::from_str("EUC-JP"),
            CharacterEncoding::Big5 => String::from_str("Big5"),
            CharacterEncoding::GB18030 => String::from_str("gb18030"),
            CharacterEncoding::GBK => String::from_str("GBK"),
            CharacterEncoding::XMacCyrillic => String::from_str("x-mac-cyrillic"),
            CharacterEncoding::Windows1258 => String::from_str("windows-1258"),
            CharacterEncoding::Windows1257 => String::from_str("windows-1257"),
            CharacterEncoding::Windows1256 => String::from_str("windows-1256"),
            CharacterEncoding::Windows1255 => String::from_str("windows-1255"),
            CharacterEncoding::Windows1254 => String::from_str("windows-1254"),
            CharacterEncoding::Windows1253 => String::from_str("windows-1253"),
            CharacterEncoding::Windows1252 => String::from_str("windows-1252"),
            CharacterEncoding::Windows1251 => String::from_str("windows-1251"),
            CharacterEncoding::Windows1250 => String::from_str("windows-1250"),
            CharacterEncoding::Windows874 => String::from_str("windows-874"),
            CharacterEncoding::Macintosh => String::from_str("macintosh"),
            CharacterEncoding::KOI8U => String::from_str("KOI8-U"),
            CharacterEncoding::KOI8R => String::from_str("KOI8-R"),
            CharacterEncoding::ISO8859_16 => String::from_str("ISO-8859-16"),
            CharacterEncoding::ISO8859_15 => String::from_str("ISO-8859-15"),
            CharacterEncoding::ISO8859_14 => String::from_str("ISO-8859-14"),
            CharacterEncoding::ISO8859_13 => String::from_str("ISO-8859-13"),
            CharacterEncoding::ISO8859_10 => String::from_str("ISO-8859-10"),
            CharacterEncoding::ISO8859_8I => String::from_str("ISO-8859-8-I"),
            CharacterEncoding::ISO8859_8 => String::from_str("ISO-8859-8"),
            CharacterEncoding::ISO8859_7 => String::from_str("ISO-8859-7"),
            CharacterEncoding::ISO8859_6 => String::from_str("ISO-8859-6"),
            CharacterEncoding::ISO8859_5 => String::from_str("ISO-8859-5"),
            CharacterEncoding::ISO8859_4 => String::from_str("ISO-8859-4"),
            CharacterEncoding::ISO8859_3 => String::from_str("ISO-8859-3"),
            CharacterEncoding::ISO8859_2 => String::from_str("ISO-8859-2"),
            CharacterEncoding::IBM866 => String::from_str("IBM866"),
            CharacterEncoding::Utf8 => String::from_str("UTF-8"),
        }
    }
}

impl Default for CharacterEncoding {
    /// The default encoding assumed before resolution runs.
    fn default() -> (r: Self)
        ensures
            r == CharacterEncoding::Utf8,
    {
        CharacterEncoding::Utf8
    }
}

proof fn lemma_round_trip_utf8()
    ensures
        spec_parse(spec_canonical_name(CharacterEncoding::Utf8)) == Ok::<
            CharacterEncoding,
            UnrecognizedLabel,
        >(CharacterEncoding::Utf8),
{
    reveal_strlit("UTF-8");
    reveal_strlit("utf-8");
    assert(lower_seq("UTF-8"@) =~= "utf-8"@);
    assert(is_label_utf8(lower_seq("UTF-8"@)));
}

proof fn lemma_round_trip_ibm866()
    ensures
        spec_parse(spec_canonical_name(CharacterEncoding::IBM866)) == Ok::<
            CharacterEncoding,
            UnrecognizedLabel,
        >(CharacterEncoding::IBM866),
{
    reveal_strlit("IBM866");
    reveal_strlit("ibm866");
    assert(lower_seq("IBM866"@) =~= "ibm866"@);
    reveal_strlit("x-unicode20utf8");
    assert(lower_seq("IBM866"@) != "x-unicode20utf8"@);
    reveal_strlit("utf8");
    assert(lower_seq("IBM866"@) != "utf8"@);
    reveal_strlit("utf-8");
    assert(lower_seq("IBM866"@) != "utf-8"@);
    reveal_strlit("unicode20utf8");
    assert(lower_seq("IBM866"@) != "unicode20utf8"@);
    reveal_strlit("unicode11utf8");
    assert(lower_seq("IBM866"@) != "unicode11utf8"@);
    reveal_strlit("unicode-1-1-utf-8");
    assert(lower_seq("IBM866"@) != "unicode-1-1-utf-8"@);
    assert(is_label_ibm866(lower_seq("IBM866"@)));
}

proof fn lemma_round_trip_iso8859_2()
    ensures
        spec_parse(spec_canonical_name(CharacterEncoding::ISO8859_2)) == Ok::<
            CharacterEncoding,
            UnrecognizedLabel,
        >(CharacterEncoding::ISO8859_2),
{
    reveal_strlit("ISO-8859-2");
    reveal_strlit("iso-8859-2");
    assert(lower_seq("ISO-8859-2"@) =~= "iso-8859-2"@);
    reveal_strlit("x-unicode20utf8");
    assert(lower_seq("ISO-8859-2"@) != "x-unicode20utf8"@);
    reveal_strlit("utf8");
    assert(lower_seq("ISO-8859-2"@) != "utf8"@);
    reveal_strlit("utf-8");
    assert(lower_seq("ISO-8859-2"@) != "utf-8"@);
    reveal_strlit("unicode20utf8");
    assert(lower_seq("ISO-8859-2"@) != "unicode20utf8"@);
    reveal_strlit("unicode11utf8");
    assert(lower_seq("ISO-8859-2"@) != "unicode11utf8"@);
    reveal_strlit("unicode-1-1-utf-8");
    assert(lower_seq("ISO-8859-2"@) != "unicode-1-1-utf-8"@);
    reveal_strlit("ibm866");
    assert(lower_seq("ISO-8859-2"@) != "ibm866"@);
    reveal_strlit("csibm866");
    assert(lower_seq("ISO-8859-2"@) != "csibm866"@);
    reveal_strlit("cp866");
    assert(lower_seq("ISO-8859-2"@) != "cp866"@);
    reveal_strlit("866");
    assert(lower_seq("ISO-8859-2"@) != "866"@);
    assert(is_label_iso8859_2(lower_seq("ISO-8859-2"@)));
}

proof fn lemma_round_trip_iso8859_3()
    ensures
        spec_parse(spec_canonical_name(CharacterEncoding::ISO8859_3)) == Ok::<
            CharacterEncoding,
            UnrecognizedLabel,
        >(CharacterEncoding::ISO8859_3),
{
    reveal_strlit("ISO-8859-3");
    reveal_strlit("iso-8859-3");
    assert(lower_seq("ISO-8859-3"@) =~= "iso-8859-3"@);
    reveal_strlit("x-unicode20utf8");
    assert(lower_seq("ISO-8859-3"@) != "x-unicode20utf8"@);
    reveal_strlit("utf8");
    assert(lower_seq("ISO-8859-3"@) != "utf8"@);
    reveal_strlit("utf-8");
    assert(lower_seq("ISO-8859-3"@) != "utf-8"@);
    reveal_strlit("unicode20utf8");
    assert(lower_seq("ISO-8859-3"@) != "unicode20utf8"@);
    reveal_strlit("unicode11utf8");
    assert(lower_seq("ISO-8859-3"@) != "unicode11utf8"@);
    reveal_strlit("unicode-1-1-utf-8");
    assert(lower_seq("ISO-8859-3"@) != "unicode-1-1-utf-8"@);
    reveal_strlit("ibm866");
    assert(lower_seq("ISO-8859-3"@) != "ibm866"@);
    reveal_strlit("csibm866");
    assert(lower_seq("ISO-8859-3"@) != "csibm866"@);
    reveal_strlit("cp866");
    assert(lower_seq("ISO-8859-3"@) != "cp866"@);
    reveal_strlit("866");
    assert(lower_seq("ISO-8859-3"@) != "866"@);
    reveal_strlit("latin2");
    assert(lower_seq("ISO-8859-3"@) != "latin2"@);
    reveal_strlit("l2");
    assert(lower_seq("ISO-8859-3"@) != "l2"@);
    reveal_strlit("iso_8859-2:1987");
    assert(lower_seq("ISO-8859-3"@) != "iso_8859-2:1987"@);
    reveal_strlit("iso_8859-2");
    assert(lower_seq("ISO-8859-3"@)[3] != "iso_8859-2"@[3]);
    reveal_strlit("iso88592");
    assert(lower_seq("ISO-8859-3"@) != "iso88592"@);
    reveal_strlit("iso8859-2");
    assert(lower_seq("ISO-8859-3"@) != "iso8859-2"@);
    reveal_strlit("iso-ir-101");
    assert(lower_seq("ISO-8859-3"@)[4] != "iso-ir-101"@[4]);
    reveal_strlit("iso-8859-2");
    assert(lower_seq("ISO-8859-3"@)[9] != "iso-8859-2"@[9]);
    reveal_strlit("csisolatin2");
    assert(lower_seq("ISO-8859-3"@) != "csisolatin2"@);
    assert(is_label_iso8859_3(lower_seq("ISO-8859-3"@)));
}

proof fn lemma_round_trip_iso8859_4()
    ensures
        spec_parse(spec_canonical_name(CharacterEncoding::ISO8859_4)) == Ok::<
            CharacterEncoding,
            UnrecognizedLabel,
        >(CharacterEncoding::ISO8859_4),
{
    reveal_strlit("ISO-8859-4");
    reveal_strlit("iso-8859-4");
    assert(lower_seq("ISO-8859-4"@) =~= "iso-8859-4"@);
    reveal_strlit("x-unicode20utf8");
    assert(lower_seq("ISO-8859-4"@) != "x-unicode20utf8"@);
    reveal_strlit("utf8");
    assert(lower_seq("ISO-8859-4"@) != "utf8"@);
    reveal_strlit("utf-8");
    assert(lower_seq("ISO-8859-4"@) != "utf-8"@);
    reveal_strlit("unicode20utf8");
    assert(lower_seq("ISO-8859-4"@) != "unicode20utf8"@);
    reveal_strlit("unicode11utf8");
    assert(lower_seq("ISO-8859-4"@) != "unicode11utf8"@);
    reveal_strlit("unicode-1-1-utf-8");
    assert(lower_seq("ISO-8859-4"@) != "unicode-1-1-utf-8"@);
    reveal_strlit("ibm866");
    assert(lower_seq("ISO-8859-4"@) != "ibm866"@);
    reveal_strlit("csibm866");
    assert(lower_seq("ISO-8859-4"@) != "csibm866"@);
    reveal_strlit("cp866");
    assert(lower_seq("ISO-8859-4"@) != "cp866"@);
    reveal_strlit("866");
    assert(lower_seq("ISO-8859-4"@) != "866"@);
    reveal_strlit("latin2");
    assert(lower_seq("ISO-8859-4"@) != "latin2"@);
    reveal_strlit("l2");
    assert(lower_seq("ISO-8859-4"@) != "l2"@);
    reveal_strlit("iso_8859-2:1987");
    assert(lower_seq("ISO-8859-4"@) != "iso_8859-2:1987"@);
    reveal_strlit("iso_8859-2");
    assert(lower_seq("ISO-8859-4"@)[3] != "iso_8859-2"@[3]);
    reveal_strlit("iso88592");
    assert(lower_seq("ISO-8859-4"@) != "iso88592"@);
    reveal_strlit("iso8859-2");
    assert(lower_seq("ISO-8859-4"@) != "iso8859-2"@);
    reveal_strlit("iso-ir-101");
    assert(lower_seq("ISO-8859-4"@)[4] != "iso-ir-101"@[4]);
    reveal_strlit("iso-8859-2");
    assert(lower_seq("ISO-8859-4"@)[9] != "iso-8859-2"@[9]);
    reveal_strlit("csisolatin2");
    assert(lower_seq("ISO-8859-4"@) != "csisolatin2"@);
    reveal_strlit("latin3");
    assert(lower_seq("ISO-8859-4"@) != "latin3"@);
    reveal_strlit("l3");
    assert(lower_seq("ISO-8859-4"@) != "l3"@);
    reveal_strlit("iso_8859-3:1988");
    assert(lower_seq("ISO-8859-4"@) != "iso_8859-3:1988"@);
    reveal_strlit("iso_8859-3");
    assert(lower_seq("ISO-8859-4"@)[3] != "iso_8859-3"@[3]);
    reveal_strlit("iso88593");
    assert(lower_seq("ISO-8859-4"@) != "iso88593"@);
    reveal_strlit("iso8859-3");
    assert(lower_seq("ISO-8859-4"@) != "iso8859-3"@);
    reveal_strlit("iso-ir-109");
    assert(lower_seq("ISO-8859-4"@)[4] != "iso-ir-109"@[4]);
    reveal_strlit("iso-8859-3");
    assert(lower_seq("ISO-8859-4"@)[9] != "iso-8859-3"@[9]);
    reveal_strlit("csisolatin3");
    assert(lower_seq("ISO-8859-4"@) != "csisolatin3"@);
    assert(is_label_iso8859_4(lower_seq("ISO-8859-4"@)));
}

proof fn lemma_round_trip_iso8859_5()
    ensures
        spec_parse(spec_canonical_name(CharacterEncoding::ISO8859_5)) == Ok::<
            CharacterEncoding,
            UnrecognizedLabel,
        >(CharacterEncoding::ISO8859_5),
{
    reveal_strlit("ISO-8859-5");
    reveal_strlit("iso-8859-5");
    assert(lower_seq("ISO-8859-5"@) =~= "iso-8859-5"@);
    reveal_strlit("x-unicode20utf8");
    assert(lower_seq("ISO-8859-5"@) != "x-unicode20utf8"@);
    reveal_strlit("utf8");
    assert(lower_seq("ISO-8859-5"@) != "utf8"@);
    reveal_strlit("utf-8");
    assert(lower_seq("ISO-8859-5"@) != "utf-8"@);
    reveal_strlit("unicode20utf8");
    assert(lower_seq("ISO-8859-5"@) != "unicode20utf8"@);
    reveal_strlit("unicode11utf8");
    assert(lower_seq("ISO-8859-5"@) != "unicode11utf8"@);
    reveal_strlit("unicode-1-1-utf-8");
    assert(lower_seq("ISO-8859-5"@) != "unicode-1-1-utf-8"@);
    reveal_strlit("ibm866");
    assert(lower_seq("ISO-8859-5"@) != "ibm866"@);
    reveal_strlit("csibm866");
    assert(lower_seq("ISO-8859-5"@) != "csibm866"@);
    reveal_strlit("cp866");
    assert(lower_seq("ISO-8859-5"@) != "cp866"@);
    reveal_strlit("866");
    assert(lower_seq("ISO-8859-5"@) != "866"@);
    reveal_strlit("latin2");
    assert(lower_seq("ISO-8859-5"@) != "latin2"@);
    reveal_strlit("l2");
    assert(lower_seq("ISO-8859-5"@) != "l2"@);
    reveal_strlit("iso_8859-2:1987");
    assert(lower_seq("ISO-8859-5"@) != "iso_8859-2:1987"@);
    reveal_strlit("iso_8859-2");
    assert(lower_seq("ISO-8859-5"@)[3] != "iso_8859-2"@[3]);
    reveal_strlit("iso88592");
    assert(lower_seq("ISO-8859-5"@) != "iso88592"@);
    reveal_strlit("iso8859-2");
    assert(lower_seq("ISO-8859-5"@) != "iso8859-2"@);
    reveal_strlit("iso-ir-101");
    assert(lower_seq("ISO-8859-5"@)[4] != "iso-ir-101"@[4]);
    reveal_strlit("iso-8859-2");
    assert(lower_seq("ISO-8859-5"@)[9] != "iso-8859-2"@[9]);
    reveal_strlit("csisolatin2");
    assert(lower_seq("ISO-8859-5"@) != "csisolatin2"@);
    reveal_strlit("latin3");
    assert(lower_seq("ISO-8859-5"@) != "latin3"@);
    reveal_strlit("l3");
    assert(lower_seq("ISO-8859-5"@) != "l3"@);
    reveal_strlit("iso_8859-3:1988");
    assert(lower_seq("ISO-8859-5"@) != "iso_8859-3:1988"@);
    reveal_strlit("iso_8859-3");
    assert(lower_seq("ISO-8859-5"@)[3] != "iso_8859-3"@[3]);
    reveal_strlit("iso88593");
    assert(lower_seq("ISO-8859-5"@) != "iso88593"@);
    reveal_strlit("iso8859-3");
    assert(lower_seq("ISO-8859-5"@) != "iso8859-3"@);
    reveal_strlit("iso-ir-109");
    assert(lower_seq("ISO-8859-5"@)[4] != "iso-ir-109"@[4]);
    reveal_strlit("iso-8859-3");
    assert(lower_seq("ISO-8859-5"@)[9] != "iso-8859-3"@[9]);
    reveal_strlit("csisolatin3");
    assert(lower_seq("ISO-8859-5"@) != "csisolatin3"@);
    reveal_strlit("latin4");
    assert(lower_seq("ISO-8859-5"@) != "latin4"@);
    reveal_strlit("l4");
    assert(lower_seq("ISO-8859-5"@) != "l4"@);
    reveal_strlit("iso_8859-4:1988");
    assert(lower_seq("ISO-8859-5"@) != "iso_8859-4:1988"@);
    reveal_strlit("iso_8859-4");
    assert(lower_seq("ISO-8859-5"@)[3] != "iso_8859-4"@[3]);
    reveal_strlit("iso88594");
    assert(lower_seq("ISO-8859-5"@) != "iso88594"@);
    reveal_strlit("iso8859-4");
    assert(lower_seq("ISO-8859-5"@) != "iso8859-4"@);
    reveal_strlit("iso-ir-110");
    assert(lower_seq("ISO-8859-5"@)[4] != "iso-ir-110"@[4]);
    reveal_strlit("iso-8859-4");
    assert(lower_seq("ISO-8859-5"@)[9] != "iso-8859-4"@[9]);
    reveal_strlit("csisolatin4");
    assert(lower_seq("ISO-8859-5"@) != "csisolatin4"@);
    assert(is_label_iso8859_5(lower_seq("ISO-8859-5"@)));
}

proof fn lemma_round_trip_iso8859_6()
    ensures
        spec_parse(spec_canonical_name(CharacterEncoding::ISO8859_6)) == Ok::<
            CharacterEncoding,
            UnrecognizedLabel,
        >(CharacterEncoding::ISO8859_6),
{
    reveal_strlit("ISO-8859-6");
    reveal_strlit("iso-8859-6");
    assert(lower_seq("ISO-8859-6"@) =~= "iso-8859-6"@);
    reveal_strlit("x-unicode20utf8");
    assert(lower_seq("ISO-8859-6"@) != "x-unicode20utf8"@);
    reveal_strlit("utf8");
    assert(lower_seq("ISO-8859-6"@) != "utf8"@);
    reveal_strlit("utf-8");
    assert(lower_seq("ISO-8859-6"@) != "utf-8"@);
    reveal_strlit("unicode20utf8");
    assert(lower_seq("ISO-8859-6"@) != "unicode20utf8"@);
    reveal_strlit("unicode11utf8");
    assert(lower_seq("ISO-8859-6"@) != "unicode11utf8"@);
    reveal_strlit("unicode-1-1-utf-8");
    assert(lower_seq("ISO-8859-6"@) != "unicode-1-1-utf-8"@);
    reveal_strlit("ibm866");
    assert(lower_seq("ISO-8859-6"@) != "ibm866"@);
    reveal_strlit("csibm866");
    assert(lower_seq("ISO-8859-6"@) != "csibm866"@);
    reveal_strlit("cp866");
    assert(lower_seq("ISO-8859-6"@) != "cp866"@);
    reveal_strlit("866");
    assert(lower_seq("ISO-8859-6"@) != "866"@);
    reveal_strlit("latin2");
    assert(lower_seq("ISO-8859-6"@) != "latin2"@);
    reveal_strlit("l2");
    assert(lower_seq("ISO-8859-6"@) != "l2"@);
    reveal_strlit("iso_8859-2:1987");
    assert(lower_seq("ISO-8859-6"@) != "iso_8859-2:1987"@);
    reveal_strlit("iso_8859-2");
    assert(lower_seq("ISO-8859-6"@)[3] != "iso_8859-2"@[3]);
    reveal_strlit("iso88592");
    assert(lower_seq("ISO-8859-6"@) != "iso88592"@);
    reveal_strlit("iso8859-2");
    assert(lower_seq("ISO-8859-6"@) != "iso8859-2"@);
    reveal_strlit("iso-ir-101");
    assert(lower_seq("ISO-8859-6"@)[4] != "iso-ir-101"@[4]);
    reveal_strlit("iso-8859-2");
    assert(lower_seq("ISO-8859-6"@)[9] != "iso-8859-2"@[9]);
    reveal_strlit("csisolatin2");
    assert(lower_seq("ISO-8859-6"@) != "csisolatin2"@);
    reveal_strlit("latin3");
    assert(lower_seq("ISO-8859-6"@) != "latin3"@);
    reveal_strlit("l3");
    assert(lower_seq("ISO-8859-6"@) != "l3"@);
    reveal_strlit("iso_8859-3:1988");
    assert(lower_seq("ISO-8859-6"@) != "iso_8859-3:1988"@);
    reveal_strlit("iso_8859-3");
    assert(lower_seq("ISO-8859-6"@)[3] != "iso_8859-3"@[3]);
    reveal_strlit("iso88593");
    assert(lower_seq("ISO-8859-6"@) != "iso88593"@);
    reveal_strlit("iso8859-3");
    assert(lower_seq("ISO-8859-6"@) != "iso8859-3"@);
    reveal_strlit("iso-ir-109");
    assert(lower_seq("ISO-8859-6"@)[4] != "iso-ir-109"@[4]);
    reveal_strlit("iso-8859-3");
    assert(lower_seq("ISO-8859-6"@)[9] != "iso-8859-3"@[9]);
    reveal_strlit("csisolatin3");
    assert(lower_seq("ISO-8859-6"@) != "csisolatin3"@);
    reveal_strlit("latin4");
    assert(lower_seq("ISO-8859-6"@) != "latin4"@);
    reveal_strlit("l4");
    assert(lower_seq("ISO-8859-6"@) != "l4"@);
    reveal_strlit("iso_8859-4:1988");
    assert(lower_seq("ISO-8859-6"@) != "iso_8859-4:1988"@);
    reveal_strlit("iso_8859-4");
    assert(lower_seq("ISO-8859-6"@)[3] != "iso_8859-4"@[3]);
    reveal_strlit("iso88594");
    assert(lower_seq("ISO-8859-6"@) != "iso88594"@);
    reveal_strlit("iso8859-4");
    assert(lower_seq("ISO-8859-6"@) != "iso8859-4"@);
    reveal_strlit("iso-ir-110");
    assert(lower_seq("ISO-8859-6"@)[4] != "iso-ir-110"@[4]);
    reveal_strlit("iso-8859-4");
    assert(lower_seq("ISO-8859-6"@)[9] != "iso-8859-4"@[9]);
    reveal_strlit("csisolatin4");
    assert(lower_seq("ISO-8859-6"@) != "csisolatin4"@);
    reveal_strlit("iso_8859-5:1988");
    assert(lower_seq("ISO-8859-6"@) != "iso_8859-5:1988"@);
    reveal_strlit("iso_8859-5");
    assert(lower_seq("ISO-8859-6"@)[3] != "iso_8859-5"@[3]);
    reveal_strlit("iso88595");
    assert(lower_seq("ISO-8859-6"@) != "iso88595"@);
    reveal_strlit("iso8859-5");
    assert(lower_seq("ISO-8859-6"@) != "iso8859-5"@);
    reveal_strlit("iso-ir-144");
    assert(lower_seq("ISO-8859-6"@)[4] != "iso-ir-144"@[4]);
    reveal_strlit("iso-8859-5");
    assert(lower_seq("ISO-8859-6"@)[9] != "iso-8859-5"@[9]);
    reveal_strlit("cyrillic");
    assert(lower_seq("ISO-8859-6"@) != "cyrillic"@);
    reveal_strlit("csisolatincyrillic");
    assert(lower_seq("ISO-8859-6"@) != "csisolatincyrillic"@);
    assert(is_label_iso8859_6(lower_seq("ISO-8859-6"@)));
}

proof fn lemma_round_trip_iso8859_7()
    ensures
        spec_parse(spec_canonical_name(CharacterEncoding::ISO8859_7)) == Ok::<
            CharacterEncoding,
            UnrecognizedLabel,
        >(CharacterEncoding::ISO8859_7),
{
    reveal_strlit("ISO-8859-7");
    reveal_strlit("iso-8859-7");
    assert(lower_seq("ISO-8859-7"@) =~= "iso-8859-7"@);
    reveal_strlit("x-unicode20utf8");
    assert(lower_seq("ISO-8859-7"@) != "x-unicode20utf8"@);
    reveal_strlit("utf8");
    assert(lower_seq("ISO-8859-7"@) != "utf8"@);
    reveal_strlit("utf-8");
    assert(lower_seq("ISO-8859-7"@) != "utf-8"@);
    reveal_strlit("unicode20utf8");
    assert(lower_seq("ISO-8859-7"@) != "unicode20utf8"@);
    reveal_strlit("unicode11utf8");
    assert(lower_seq("ISO-8859-7"@) != "unicode11utf8"@);
    reveal_strlit("unicode-1-1-utf-8");
    assert(lower_seq("ISO-8859-7"@) != "unicode-1-1-utf-8"@);
    reveal_strlit("ibm866");
    assert(lower_seq("ISO-8859-7"@) != "ibm866"@);
    reveal_strlit("csibm866");
    assert(lower_seq("ISO-8859-7"@) != "csibm866"@);
    reveal_strlit("cp866");
    assert(lower_seq("ISO-8859-7"@) != "cp866"@);
    reveal_strlit("866");
    assert(lower_seq("ISO-8859-7"@) != "866"@);
    reveal_strlit("latin2");
    assert(lower_seq("ISO-8859-7"@) != "latin2"@);
    reveal_strlit("l2");
    assert(lower_seq("ISO-8859-7"@) != "l2"@);
    reveal_strlit("iso_8859-2:1987");
    assert(lower_seq("ISO-8859-7"@) != "iso_8859-2:1987"@);
    reveal_strlit("iso_8859-2");
    assert(lower_seq("ISO-8859-7"@)[3] != "iso_8859-2"@[3]);
    reveal_strlit("iso88592");
    assert(lower_seq("ISO-8859-7"@) != "iso88592"@);
    reveal_strlit("iso8859-2");
    assert(lower_seq("ISO-8859-7"@) != "iso8859-2"@);
    reveal_strlit("iso-ir-101");
    assert(lower_seq("ISO-8859-7"@)[4] != "iso-ir-101"@[4]);
    reveal_strlit("iso-8859-2");
    assert(lower_seq("ISO-8859-7"@)[9] != "iso-8859-2"@[9]);
    reveal_strlit("csisolatin2");
    assert(lower_seq("ISO-8859-7"@) != "csisolatin2"@);
    reveal_strlit("latin3");
    assert(lower_seq("ISO-8859-7"@) != "latin3"@);
    reveal_strlit("l3");
    assert(lower_seq("ISO-8859-7"@) != "l3"@);
    reveal_strlit("iso_8859-3:1988");
    assert(lower_seq("ISO-8859-7"@) != "iso_8859-3:1988"@);
    reveal_strlit("iso_8859-3");
    assert(lower_seq("ISO-8859-7"@)[3] != "iso_8859-3"@[3]);
    reveal_strlit("iso88593");
    assert(lower_seq("ISO-8859-7"@) != "iso88593"@);
    reveal_strlit("iso8859-3");
    assert(lower_seq("ISO-8859-7"@) != "iso8859-3"@);
    reveal_strlit("iso-ir-109");
    assert(lower_seq("ISO-8859-7"@)[4] != "iso-ir-109"@[4]);
    reveal_strlit("iso-8859-3");
    assert(lower_seq("ISO-8859-7"@)[9] != "iso-8859-3"@[9]);
    reveal_strlit("csisolatin3");
    assert(lower_seq("ISO-8859-7"@) != "csisolatin3"@);
    reveal_strlit("latin4");
    assert(lower_seq("ISO-8859-7"@) != "latin4"@);
    reveal_strlit("l4");
    assert(lower_seq("ISO-8859-7"@) != "l4"@);
    reveal_strlit("iso_8859-4:1988");
    assert(lower_seq("ISO-8859-7"@) != "iso_8859-4:1988"@);
    reveal_strlit("iso_8859-4");
    assert(lower_seq("ISO-8859-7"@)[3] != "iso_8859-4"@[3]);
    reveal_strlit("iso88594");
    assert(lower_seq("ISO-8859-7"@) != "iso88594"@);
    reveal_strlit("iso8859-4");
    assert(lower_seq("ISO-8859-7"@) != "iso8859-4"@);
    reveal_strlit("iso-ir-110");
    assert(lower_seq("ISO-8859-7"@)[4] != "iso-ir-110"@[4]);
    reveal_strlit("iso-8859-4");
    assert(lower_seq("ISO-8859-7"@)[9] != "iso-8859-4"@[9]);
    reveal_strlit("csisolatin4");
    assert(lower_seq("ISO-8859-7"@) != "csisolatin4"@);
    reveal_strlit("iso_8859-5:1988");
    assert(lower_seq("ISO-8859-7"@) != "iso_8859-5:1988"@);
    reveal_strlit("iso_8859-5");
    assert(lower_seq("ISO-8859-7"@)[3] != "iso_8859-5"@[3]);
    reveal_strlit("iso88595");
    assert(lower_seq("ISO-8859-7"@) != "iso88595"@);
    reveal_strlit("iso8859-5");
    assert(lower_seq("ISO-8859-7"@) != "iso8859-5"@);
    reveal_strlit("iso-ir-144");
    assert(lower_seq("ISO-8859-7"@)[4] != "iso-ir-144"@[4]);
    reveal_strlit("iso-8859-5");
    assert(lower_seq("ISO-8859-7"@)[9] != "iso-8859-5"@[9]);
    reveal_strlit("cyrillic");
    assert(lower_seq("ISO-8859-7"@) != "cyrillic"@);
    reveal_strlit("csisolatincyrillic");
    assert(lower_seq("ISO-8859-7"@) != "csisolatincyrillic"@);
    reveal_strlit("iso_8859-6:1987");
    assert(lower_seq("ISO-8859-7"@) != "iso_8859-6:1987"@);
    reveal_strlit("iso_8859-6");
    assert(lower_seq("ISO-8859-7"@)[3] != "iso_8859-6"@[3]);
    reveal_strlit("iso88596");
    assert(lower_seq("ISO-8859-7"@) != "iso88596"@);
    reveal_strlit("iso8859-6");
    assert(lower_seq("ISO-8859-7"@) != "iso8859-6"@);
    reveal_strlit("iso-ir-127");
    assert(lower_seq("ISO-8859-7"@)[4] != "iso-ir-127"@[4]);
    reveal_strlit("iso-8859-6-i");
    assert(lower_seq("ISO-8859-7"@) != "iso-8859-6-i"@);
    reveal_strlit("iso-8859-6-e");
    assert(lower_seq("ISO-8859-7"@) != "iso-8859-6-e"@);
    reveal_strlit("iso-8859-6");
    assert(lower_seq("ISO-8859-7"@)[9] != "iso-8859-6"@[9]);
    reveal_strlit("ecma-114");
    assert(lower_seq("ISO-8859-7"@) != "ecma-114"@);
    reveal_strlit("csisolatinarabic");
    assert(lower_seq("ISO-8859-7"@) != "csisolatinarabic"@);
    reveal_strlit("csiso88596i");
    assert(lower_seq("ISO-8859-7"@) != "csiso88596i"@);
    reveal_strlit("csiso88596e");
    assert(lower_seq("ISO-8859-7"@) != "csiso88596e"@);
    reveal_strlit("asmo-708");
    assert(lower_seq("ISO-8859-7"@) != "asmo-708"@);
    reveal_strlit("arabic");
    assert(lower_seq("ISO-8859-7"@) != "arabic"@);
    assert(is_label_iso8859_7(lower_seq("ISO-8859-7"@)));
}

proof fn lemma_round_trip_iso8859_8()
    ensures
        spec_parse(spec_canonical_name(CharacterEncoding::ISO8859_8)) == Ok::<
            CharacterEncoding,
            UnrecognizedLabel,
        >(CharacterEncoding::ISO8859_8),
{
    reveal_strlit("ISO-8859-8");
    reveal_strlit("iso-8859-8");
    assert(lower_seq("ISO-8859-8"@) =~= "iso-8859-8"@);
    reveal_strlit("x-unicode20utf8");
    assert(lower_seq("ISO-8859-8"@) != "x-unicode20utf8"@);
    reveal_strlit("utf8");
    assert(lower_seq("ISO-8859-8"@) != "utf8"@);
    reveal_strlit("utf-8");
    assert(lower_seq("ISO-8859-8"@) != "utf-8"@);
    reveal_strlit("unicode20utf8");
    assert(lower_seq("ISO-8859-8"@) != "unicode20utf8"@);
    reveal_strlit("unicode11utf8");
    assert(lower_seq("ISO-8859-8"@) != "unicode11utf8"@);
    reveal_strlit("unicode-1-1-utf-8");
    assert(lower_seq("ISO-8859-8"@) != "unicode-1-1-utf-8"@);
    reveal_strlit("ibm866");
    assert(lower_seq("ISO-8859-8"@) != "ibm866"@);
    reveal_strlit("csibm866");
    assert(lower_seq("ISO-8859-8"@) != "csibm866"@);
    reveal_strlit("cp866");
    assert(lower_seq("ISO-8859-8"@) != "cp866"@);
    reveal_strlit("866");
    assert(lower_seq("ISO-8859-8"@) != "866"@);
    reveal_strlit("latin2");
    assert(lower_seq("ISO-8859-8"@) != "latin2"@);
    reveal_strlit("l2");
    assert(lower_seq("ISO-8859-8"@) != "l2"@);
    reveal_strlit("iso_8859-2:1987");
    assert(lower_seq("ISO-8859-8"@) != "iso_8859-2:1987"@);
    reveal_strlit("iso_8859-2");
    assert(lower_seq("ISO-8859-8"@)[3] != "iso_8859-2"@[3]);
    reveal_strlit("iso88592");
    assert(lower_seq("ISO-8859-8"@) != "iso88592"@);
    reveal_strlit("iso8859-2");
    assert(lower_seq("ISO-8859-8"@) != "iso8859-2"@);
    reveal_strlit("iso-ir-101");
    assert(lower_seq("ISO-8859-8"@)[4] != "iso-ir-101"@[4]);
    reveal_strlit("iso-8859-2");
    assert(lower_seq("ISO-8859-8"@)[9] != "iso-8859-2"@[9]);
    reveal_strlit("csisolatin2");
    assert(lower_seq("ISO-8859-8"@) != "csisolatin2"@);
    reveal_strlit("latin3");
    assert(lower_seq("ISO-8859-8"@) != "latin3"@);
    reveal_strlit("l3");
    assert(lower_seq("ISO-8859-8"@) != "l3"@);
    reveal_strlit("iso_8859-3:1988");
    assert(lower_seq("ISO-8859-8"@) != "iso_8859-3:1988"@);
    reveal_strlit("iso_8859-3");
    assert(lower_seq("ISO-8859-8"@)[3] != "iso_8859-3"@[3]);
    reveal_strlit("iso88593");
    assert(lower_seq("ISO-8859-8"@) != "iso88593"@);
    reveal_strlit("iso8859-3");
    assert(lower_seq("ISO-8859-8"@) != "iso8859-3"@);
    reveal_strlit("iso-ir-109");
    assert(lower_seq("ISO-8859-8"@)[4] != "iso-ir-109"@[4]);
    reveal_strlit("iso-8859-3");
    assert(lower_seq("ISO-8859-8"@)[9] != "iso-8859-3"@[9]);
    reveal_strlit("csisolatin3");
    assert(lower_seq("ISO-8859-8"@) != "csisolatin3"@);
    reveal_strlit("latin4");
    assert(lower_seq("ISO-8859-8"@) != "latin4"@);
    reveal_strlit("l4");
    assert(lower_seq("ISO-8859-8"@) != "l4"@);
    reveal_strlit("iso_8859-4:1988");
    assert(lower_seq("ISO-8859-8"@) != "iso_8859-4:1988"@);
    reveal_strlit("iso_8859-4");
    assert(lower_seq("ISO-8859-8"@)[3] != "iso_8859-4"@[3]);
    reveal_strlit("iso88594");
    assert(lower_seq("ISO-8859-8"@) != "iso88594"@);
    reveal_strlit("iso8859-4");
    assert(lower_seq("ISO-8859-8"@) != "iso8859-4"@);
    reveal_strlit("iso-ir-110");
    assert(lower_seq("ISO-8859-8"@)[4] != "iso-ir-110"@[4]);
    reveal_strlit("iso-8859-4");
    assert(lower_seq("ISO-8859-8"@)[9] != "iso-8859-4"@[9]);
    reveal_strlit("csisolatin4");
    assert(lower_seq("ISO-8859-8"@) != "csisolatin4"@);
    reveal_strlit("iso_8859-5:1988");
    assert(lower_seq("ISO-8859-8"@) != "iso_8859-5:1988"@);
    reveal_strlit("iso_8859-5");
    assert(lower_seq("ISO-8859-8"@)[3] != "iso_8859-5"@[3]);
    reveal_strlit("iso88595");
    assert(lower_seq("ISO-8859-8"@) != "iso88595"@);
    reveal_strlit("iso8859-5");
    assert(lower_seq("ISO-8859-8"@) != "iso8859-5"@);
    reveal_strlit("iso-ir-144");
    assert(lower_seq("ISO-8859-8"@)[4] != "iso-ir-144"@[4]);
    reveal_strlit("iso-8859-5");
    assert(lower_seq("ISO-8859-8"@)[9] != "iso-8859-5"@[9]);
    reveal_strlit("cyrillic");
    assert(lower_seq("ISO-8859-8"@) != "cyrillic"@);
    reveal_strlit("csisolatincyrillic");
    assert(lower_seq("ISO-8859-8"@) != "csisolatincyrillic"@);
    reveal_strlit("iso_8859-6:1987");
    assert(lower_seq("ISO-8859-8"@) != "iso_8859-6:1987"@);
    reveal_strlit("iso_8859-6");
    assert(lower_seq("ISO-8859-8"@)[3] != "iso_8859-6"@[3]);
    reveal_strlit("iso88596");
    assert(lower_seq("ISO-8859-8"@) != "iso88596"@);
    reveal_strlit("iso8859-6");
    assert(lower_seq("ISO-8859-8"@) != "iso8859-6"@);
    reveal_strlit("iso-ir-127");
    assert(lower_seq("ISO-8859-8"@)[4] != "iso-ir-127"@[4]);
    reveal_strlit("iso-8859-6-i");
    assert(lower_seq("ISO-8859-8"@) != "iso-8859-6-i"@);
    reveal_strlit("iso-8859-6-e");
    assert(lower_seq("ISO-8859-8"@) != "iso-8859-6-e"@);
    reveal_strlit("iso-8859-6");
    assert(lower_seq("ISO-8859-8"@)[9] != "iso-8859-6"@[9]);
    reveal_strlit("ecma-114");
    assert(lower_seq("ISO-8859-8"@) != "ecma-114"@);
    reveal_strlit("csisolatinarabic");
    assert(lower_seq("ISO-8859-8"@) != "csisolatinarabic"@);
    reveal_strlit("csiso88596i");
    assert(lower_seq("ISO-8859-8"@) != "csiso88596i"@);
    reveal_strlit("csiso88596e");
    assert(lower_seq("ISO-8859-8"@) != "csiso88596e"@);
    reveal_strlit("asmo-708");
    assert(lower_seq("ISO-8859-8"@) != "asmo-708"@);
    reveal_strlit("arabic");
    assert(lower_seq("ISO-8859-8"@) != "arabic"@);
    reveal_strlit("sun_eu_greek");
    assert(lower_seq("ISO-8859-8"@) != "sun_eu_greek"@);
    reveal_strlit("iso_8859-7:1987");
    assert(lower_seq("ISO-8859-8"@) != "iso_8859-7:1987"@);
    reveal_strlit("iso_8859-7");
    assert(lower_seq("ISO-8859-8"@)[3] != "iso_8859-7"@[3]);
    reveal_strlit("iso88597");
    assert(lower_seq("ISO-8859-8"@) != "iso88597"@);
    reveal_strlit("iso8859-7");
    assert(lower_seq("ISO-8859-8"@) != "iso8859-7"@);
    reveal_strlit("iso-ir-126");
    assert(lower_seq("ISO-8859-8"@)[4] != "iso-ir-126"@[4]);
    reveal_strlit("iso-8859-7");
    assert(lower_seq("ISO-8859-8"@)[9] != "iso-8859-7"@[9]);
    reveal_strlit("greek8");
    assert(lower_seq("ISO-8859-8"@) != "greek8"@);
    reveal_strlit("greek");
    assert(lower_seq("ISO-8859-8"@) != "greek"@);
    reveal_strlit("elot_928");
    assert(lower_seq("ISO-8859-8"@) != "elot_928"@);
    reveal_strlit("ecma-118");
    assert(lower_seq("ISO-8859-8"@) != "ecma-118"@);
    reveal_strlit("csisolatingreek");
    assert(lower_seq("ISO-8859-8"@) != "csisolatingreek"@);
    assert(is_label_iso8859_8(lower_seq("ISO-8859-8"@)));
}

proof fn lemma_round_trip_iso8859_8_i()
    ensures
        spec_parse(spec_canonical_name(CharacterEncoding::ISO8859_8I)) == Ok::<
            CharacterEncoding,
            UnrecognizedLabel,
        >(CharacterEncoding::ISO8859_8I),
{
    reveal_strlit("ISO-8859-8-I");
    reveal_strlit("iso-8859-8-i");
    assert(lower_seq("ISO-8859-8-I"@) =~= "iso-8859-8-i"@);
    reveal_strlit("x-unicode20utf8");
    assert(lower_seq("ISO-8859-8-I"@) != "x-unicode20utf8"@);
    reveal_strlit("utf8");
    assert(lower_seq("ISO-8859-8-I"@) != "utf8"@);
    reveal_strlit("utf-8");
    assert(lower_seq("ISO-8859-8-I"@) != "utf-8"@);
    reveal_strlit("unicode20utf8");
    assert(lower_seq("ISO-8859-8-I"@) != "unicode20utf8"@);
    reveal_strlit("unicode11utf8");
    assert(lower_seq("ISO-8859-8-I"@) != "unicode11utf8"@);
    reveal_strlit("unicode-1-1-utf-8");
    assert(lower_seq("ISO-8859-8-I"@) != "unicode-1-1-utf-8"@);
    reveal_strlit("ibm866");
    assert(lower_seq("ISO-8859-8-I"@) != "ibm866"@);
    reveal_strlit("csibm866");
    assert(lower_seq("ISO-8859-8-I"@) != "csibm866"@);
    reveal_strlit("cp866");
    assert(lower_seq("ISO-8859-8-I"@) != "cp866"@);
    reveal_strlit("866");
    assert(lower_seq("ISO-8859-8-I"@) != "866"@);
    reveal_strlit("latin2");
    assert(lower_seq("ISO-8859-8-I"@) != "latin2"@);
    reveal_strlit("l2");
    assert(lower_seq("ISO-8859-8-I"@) != "l2"@);
    reveal_strlit("iso_8859-2:1987");
    assert(lower_seq("ISO-8859-8-I"@) != "iso_8859-2:1987"@);
    reveal_strlit("iso_8859-2");
    assert(lower_seq("ISO-8859-8-I"@) != "iso_8859-2"@);
    reveal_strlit("iso88592");
    assert(lower_seq("ISO-8859-8-I"@) != "iso88592"@);
    reveal_strlit("iso8859-2");
    assert(lower_seq("ISO-8859-8-I"@) != "iso8859-2"@);
    reveal_strlit("iso-ir-101");
    assert(lower_seq("ISO-8859-8-I"@) != "iso-ir-101"@);
    reveal_strlit("iso-8859-2");
    assert(lower_seq("ISO-8859-8-I"@) != "iso-8859-2"@);
    reveal_strlit("csisolatin2");
    assert(lower_seq("ISO-8859-8-I"@) != "csisolatin2"@);
    reveal_strlit("latin3");
    assert(lower_seq("ISO-8859-8-I"@) != "latin3"@);
    reveal_strlit("l3");
    assert(lower_seq("ISO-8859-8-I"@) != "l3"@);
    reveal_strlit("iso_8859-3:1988");
    assert(lower_seq("ISO-8859-8-I"@) != "iso_8859-3:1988"@);
    reveal_strlit("iso_8859-3");
    assert(lower_seq("ISO-8859-8-I"@) != "iso_8859-3"@);
    reveal_strlit("iso88593");
    assert(lower_seq("ISO-8859-8-I"@) != "iso88593"@);
    reveal_strlit("iso8859-3");
    assert(lower_seq("ISO-8859-8-I"@) != "iso8859-3"@);
    reveal_strlit("iso-ir-109");
    assert(lower_seq("ISO-8859-8-I"@) != "iso-ir-109"@);
    reveal_strlit("iso-8859-3");
    assert(lower_seq("ISO-8859-8-I"@) != "iso-8859-3"@);
    reveal_strlit("csisolatin3");
    assert(lower_seq("ISO-8859-8-I"@) != "csisolatin3"@);
    reveal_strlit("latin4");
    assert(lower_seq("ISO-8859-8-I"@) != "latin4"@);
    reveal_strlit("l4");
    assert(lower_seq("ISO-8859-8-I"@) != "l4"@);
    reveal_strlit("iso_8859-4:1988");
    assert(lower_seq("ISO-8859-8-I"@) != "iso_8859-4:1988"@);
    reveal_strlit("iso_8859-4");
    assert(lower_seq("ISO-8859-8-I"@) != "iso_8859-4"@);
    reveal_strlit("iso88594");
    assert(lower_seq("ISO-8859-8-I"@) != "iso88594"@);
    reveal_strlit("iso8859-4");
    assert(lower_seq("ISO-8859-8-I"@) != "iso8859-4"@);
    reveal_strlit("iso-ir-110");
    assert(lower_seq("ISO-8859-8-I"@) != "iso-ir-110"@);
    reveal_strlit("iso-8859-4");
    assert(lower_seq("ISO-8859-8-I"@) != "iso-8859-4"@);
    reveal_strlit("csisolatin4");
    assert(lower_seq("ISO-8859-8-I"@) != "csisolatin4"@);
    reveal_strlit("iso_8859-5:1988");
    assert(lower_seq("ISO-8859-8-I"@) != "iso_8859-5:1988"@);
    reveal_strlit("iso_8859-5");
    assert(lower_seq("ISO-8859-8-I"@) != "iso_8859-5"@);
    reveal_strlit("iso88595");
    assert(lower_seq("ISO-8859-8-I"@) != "iso88595"@);
    reveal_strlit("iso8859-5");
    assert(lower_seq("ISO-8859-8-I"@) != "iso8859-5"@);
    reveal_strlit("iso-ir-144");
    assert(lower_seq("ISO-8859-8-I"@) != "iso-ir-144"@);
    reveal_strlit("iso-8859-5");
    assert(lower_seq("ISO-8859-8-I"@) != "iso-8859-5"@);
    reveal_strlit("cyrillic");
    assert(lower_seq("ISO-8859-8-I"@) != "cyrillic"@);
    reveal_strlit("csisolatincyrillic");
    assert(lower_seq("ISO-8859-8-I"@) != "csisolatincyrillic"@);
    reveal_strlit("iso_8859-6:1987");
    assert(lower_seq("ISO-8859-8-I"@) != "iso_8859-6:1987"@);
    reveal_strlit("iso_8859-6");
    assert(lower_seq("ISO-8859-8-I"@) != "iso_8859-6"@);
    reveal_strlit("iso88596");
    assert(lower_seq("ISO-8859-8-I"@) != "iso88596"@);
    reveal_strlit("iso8859-6");
    assert(lower_seq("ISO-8859-8-I"@) != "iso8859-6"@);
    reveal_strlit("iso-ir-127");
    assert(lower_seq("ISO-8859-8-I"@) != "iso-ir-127"@);
    reveal_strlit("iso-8859-6-i");
    assert(lower_seq("ISO-8859-8-I"@)[9] != "iso-8859-6-i"@[9]);
    reveal_strlit("iso-8859-6-e");
    assert(lower_seq("ISO-8859-8-I"@)[9] != "iso-8859-6-e"@[9]);
    reveal_strlit("iso-8859-6");
    assert(lower_seq("ISO-8859-8-I"@) != "iso-8859-6"@);
    reveal_strlit("ecma-114");
    assert(lower_seq("ISO-8859-8-I"@) != "ecma-114"@);
    reveal_strlit("csisolatinarabic");
    assert(lower_seq("ISO-8859-8-I"@) != "csisolatinarabic"@);
    reveal_strlit("csiso88596i");
    assert(lower_seq("ISO-8859-8-I"@) != "csiso88596i"@);
    reveal_strlit("csiso88596e");
    assert(lower_seq("ISO-8859-8-I"@) != "csiso88596e"@);
    reveal_strlit("asmo-708");
    assert(lower_seq("ISO-8859-8-I"@) != "asmo-708"@);
    reveal_strlit("arabic");
    assert(lower_seq("ISO-8859-8-I"@) != "arabic"@);
    reveal_strlit("sun_eu_greek");
    assert(lower_seq("ISO-8859-8-I"@)[0] != "sun_eu_greek"@[0]);
    reveal_strlit("iso_8859-7:1987");
    assert(lower_seq("ISO-8859-8-I"@) != "iso_8859-7:1987"@);
    reveal_strlit("iso_8859-7");
    assert(lower_seq("ISO-8859-8-I"@) != "iso_8859-7"@);
    reveal_strlit("iso88597");
    assert(lower_seq("ISO-8859-8-I"@) != "iso88597"@);
    reveal_strlit("iso8859-7");
    assert(lower_seq("ISO-8859-8-I"@) != "iso8859-7"@);
    reveal_strlit("iso-ir-126");
    assert(lower_seq("ISO-8859-8-I"@) != "iso-ir-126"@);
    reveal_strlit("iso-8859-7");
    assert(lower_seq("ISO-8859-8-I"@) != "iso-8859-7"@);
    reveal_strlit("greek8");
    assert(lower_seq("ISO-8859-8-I"@) != "greek8"@);
    reveal_strlit("greek");
    assert(lower_seq("ISO-8859-8-I"@) != "greek"@);
    reveal_strlit("elot_928");
    assert(lower_seq("ISO-8859-8-I"@) != "elot_928"@);
    reveal_strlit("ecma-118");
    assert(lower_seq("ISO-8859-8-I"@) != "ecma-118"@);
    reveal_strlit("csisolatingreek");
    assert(lower_seq("ISO-8859-8-I"@) != "csisolatingreek"@);
    reveal_strlit("visual");
    assert(lower_seq("ISO-8859-8-I"@) != "visual"@);
    reveal_strlit("iso_8859-8:1988");
    assert(lower_seq("ISO-8859-8-I"@) != "iso_8859-8:1988"@);
    reveal_strlit("iso_8859-8");
    assert(lower_seq("ISO-8859-8-I"@) != "iso_8859-8"@);
    reveal_strlit("iso88598");
    assert(lower_seq("ISO-8859-8-I"@) != "iso88598"@);
    reveal_strlit("iso8859-8");
    assert(lower_seq("ISO-8859-8-I"@) != "iso8859-8"@);
    reveal_strlit("iso-ir-138");
    assert(lower_seq("ISO-8859-8-I"@) != "iso-ir-138"@);
    reveal_strlit("iso-8859-8-e");
    assert(lower_seq("ISO-8859-8-I"@)[11] != "iso-8859-8-e"@[11]);
    reveal_strlit("iso-8859-8");
    assert(lower_seq("ISO-8859-8-I"@) != "iso-8859-8"@);
    reveal_strlit("hebrew");
    assert(lower_seq("ISO-8859-8-I"@) != "hebrew"@);
    reveal_strlit("csisolatinhebrew");
    assert(lower_seq("ISO-8859-8-I"@) != "csisolatinhebrew"@);
    reveal_strlit("csiso88598e");
    assert(lower_seq("ISO-8859-8-I"@) != "csiso88598e"@);
    assert(is_label_iso8859_8_i(lower_seq("ISO-8859-8-I"@)));
}

proof fn lemma_round_trip_iso8859_10()
    ensures
        spec_parse(spec_canonical_name(CharacterEncoding::ISO8859_10)) == Ok::<
            CharacterEncoding,
            UnrecognizedLabel,
        >(CharacterEncoding::ISO8859_10),
{
    reveal_strlit("ISO-8859-10");
    reveal_strlit("iso-8859-10");
    assert(lower_seq("ISO-8859-10"@) =~= "iso-8859-10"@);
    reveal_strlit("x-unicode20utf8");
    assert(lower_seq("ISO-8859-10"@) != "x-unicode20utf8"@);
    reveal_strlit("utf8");
    assert(lower_seq("ISO-8859-10"@) != "utf8"@);
    reveal_strlit("utf-8");
    assert(lower_seq("ISO-8859-10"@) != "utf-8"@);
    reveal_strlit("unicode20utf8");
    assert(lower_seq("ISO-8859-10"@) != "unicode20utf8"@);
    reveal_strlit("unicode11utf8");
    assert(lower_seq("ISO-8859-10"@) != "unicode11utf8"@);
    reveal_strlit("unicode-1-1-utf-8");
    assert(lower_seq("ISO-8859-10"@) != "unicode-1-1-utf-8"@);
    reveal_strlit("ibm866");
    assert(lower_seq("ISO-8859-10"@) != "ibm866"@);
    reveal_strlit("csibm866");
    assert(lower_seq("ISO-8859-10"@) != "csibm866"@);
    reveal_strlit("cp866");
    assert(lower_seq("ISO-8859-10"@) != "cp866"@);
    reveal_strlit("866");
    assert(lower_seq("ISO-8859-10"@) != "866"@);
    reveal_strlit("latin2");
    assert(lower_seq("ISO-8859-10"@) != "latin2"@);
    reveal_strlit("l2");
    assert(lower_seq("ISO-8859-10"@) != "l2"@);
    reveal_strlit("iso_8859-2:1987");
    assert(lower_seq("ISO-8859-10"@) != "iso_8859-2:1987"@);
    reveal_strlit("iso_8859-2");
    assert(lower_seq("ISO-8859-10"@) != "iso_8859-2"@);
    reveal_strlit("iso88592");
    assert(lower_seq("ISO-8859-10"@) != "iso88592"@);
    reveal_strlit("iso8859-2");
    assert(lower_seq("ISO-8859-10"@) != "iso8859-2"@);
    reveal_strlit("iso-ir-101");
    assert(lower_seq("ISO-8859-10"@) != "iso-ir-101"@);
    reveal_strlit("iso-8859-2");
    assert(lower_seq("ISO-8859-10"@) != "iso-8859-2"@);
    reveal_strlit("csisolatin2");
    assert(lower_seq("ISO-8859-10"@)[0] != "csisolatin2"@[0]);
    reveal_strlit("latin3");
    assert(lower_seq("ISO-8859-10"@) != "latin3"@);
    reveal_strlit("l3");
    assert(lower_seq("ISO-8859-10"@) != "l3"@);
    reveal_strlit("iso_8859-3:1988");
    assert(lower_seq("ISO-8859-10"@) != "iso_8859-3:1988"@);
    reveal_strlit("iso_8859-3");
    assert(lower_seq("ISO-8859-10"@) != "iso_8859-3"@);
    reveal_strlit("iso88593");
    assert(lower_seq("ISO-8859-10"@) != "iso88593"@);
    reveal_strlit("iso8859-3");
    assert(lower_seq("ISO-8859-10"@) != "iso8859-3"@);
    reveal_strlit("iso-ir-109");
    assert(lower_seq("ISO-8859-10"@) != "iso-ir-109"@);
    reveal_strlit("iso-8859-3");
    assert(lower_seq("ISO-8859-10"@) != "iso-8859-3"@);
    reveal_strlit("csisolatin3");
    assert(lower_seq("ISO-8859-10"@)[0] != "csisolatin3"@[0]);
    reveal_strlit("latin4");
    assert(lower_seq("ISO-8859-10"@) != "latin4"@);
    reveal_strlit("l4");
    assert(lower_seq("ISO-8859-10"@) != "l4"@);
    reveal_strlit("iso_8859-4:1988");
    assert(lower_seq("ISO-8859-10"@) != "iso_8859-4:1988"@);
    reveal_strlit("iso_8859-4");
    assert(lower_seq("ISO-8859-10"@) != "iso_8859-4"@);
    reveal_strlit("iso88594");
    assert(lower_seq("ISO-8859-10"@) != "iso88594"@);
    reveal_strlit("iso8859-4");
    assert(lower_seq("ISO-8859-10"@) != "iso8859-4"@);
    reveal_strlit("iso-ir-110");
    assert(lower_seq("ISO-8859-10"@) != "iso-ir-110"@);
    reveal_strlit("iso-8859-4");
    assert(lower_seq("ISO-8859-10"@) != "iso-8859-4"@);
    reveal_strlit("csisolatin4");
    assert(lower_seq("ISO-8859-10"@)[0] != "csisolatin4"@[0]);
    reveal_strlit("iso_8859-5:1988");
    assert(lower_seq("ISO-8859-10"@) != "iso_8859-5:1988"@);
    reveal_strlit("iso_8859-5");
    assert(lower_seq("ISO-8859-10"@) != "iso_8859-5"@);
    reveal_strlit("iso88595");
    assert(lower_seq("ISO-8859-10"@) != "iso88595"@);
    reveal_strlit("iso8859-5");
    assert(lower_seq("ISO-8859-10"@) != "iso8859-5"@);
    reveal_strlit("iso-ir-144");
    assert(lower_seq("ISO-8859-10"@) != "iso-ir-144"@);
    reveal_strlit("iso-8859-5");
    assert(lower_seq("ISO-8859-10"@) != "iso-8859-5"@);
    reveal_strlit("cyrillic");
    assert(lower_seq("ISO-8859-10"@) != "cyrillic"@);
    reveal_strlit("csisolatincyrillic");
    assert(lower_seq("ISO-8859-10"@) != "csisolatincyrillic"@);
    reveal_strlit("iso_8859-6:1987");
    assert(lower_seq("ISO-8859-10"@) != "iso_8859-6:1987"@);
    reveal_strlit("iso_8859-6");
    assert(lower_seq("ISO-8859-10"@) != "iso_8859-6"@);
    reveal_strlit("iso88596");
    assert(lower_seq("ISO-8859-10"@) != "iso88596"@);
    reveal_strlit("iso8859-6");
    assert(lower_seq("ISO-8859-10"@) != "iso8859-6"@);
    reveal_strlit("iso-ir-127");
    assert(lower_seq("ISO-8859-10"@) != "iso-ir-127"@);
    reveal_strlit("iso-8859-6-i");
    assert(lower_seq("ISO-8859-10"@) != "iso-8859-6-i"@);
    reveal_strlit("iso-8859-6-e");
    assert(lower_seq("ISO-8859-10"@) != "iso-8859-6-e"@);
    reveal_strlit("iso-8859-6");
    assert(lower_seq("ISO-8859-10"@) != "iso-8859-6"@);
    reveal_strlit("ecma-114");
    assert(lower_seq("ISO-8859-10"@) != "ecma-114"@);
    reveal_strlit("csisolatinarabic");
    assert(lower_seq("ISO-8859-10"@) != "csisolatinarabic"@);
    reveal_strlit("csiso88596i");
    assert(lower_seq("ISO-8859-10"@)[0] != "csiso88596i"@[0]);
    reveal_strlit("csiso88596e");
    assert(lower_seq("ISO-8859-10"@)[0] != "csiso88596e"@[0]);
    reveal_strlit("asmo-708");
    assert(lower_seq("ISO-8859-10"@) != "asmo-708"@);
    reveal_strlit("arabic");
    assert(lower_seq("ISO-8859-10"@) != "arabic"@);
    reveal_strlit("sun_eu_greek");
    assert(lower_seq("ISO-8859-10"@) != "sun_eu_greek"@);
    reveal_strlit("iso_8859-7:1987");
    assert(lower_seq("ISO-8859-10"@) != "iso_8859-7:1987"@);
    reveal_strlit("iso_8859-7");
    assert(lower_seq("ISO-8859-10"@) != "iso_8859-7"@);
    reveal_strlit("iso88597");
    assert(lower_seq("ISO-8859-10"@) != "iso88597"@);
    reveal_strlit("iso8859-7");
    assert(lower_seq("ISO-8859-10"@) != "iso8859-7"@);
    reveal_strlit("iso-ir-126");
    assert(lower_seq("ISO-8859-10"@) != "iso-ir-126"@);
    reveal_strlit("iso-8859-7");
    assert(lower_seq("ISO-8859-10"@) != "iso-8859-7"@);
    reveal_strlit("greek8");
    assert(lower_seq("ISO-8859-10"@) != "greek8"@);
    reveal_strlit("greek");
    assert(lower_seq("ISO-8859-10"@) != "greek"@);
    reveal_strlit("elot_928");
    assert(lower_seq("ISO-8859-10"@) != "elot_928"@);
    reveal_strlit("ecma-118");
    assert(lower_seq("ISO-8859-10"@) != "ecma-118"@);
    reveal_strlit("csisolatingreek");
    assert(lower_seq("ISO-8859-10"@) != "csisolatingreek"@);
    reveal_strlit("visual");
    assert(lower_seq("ISO-8859-10"@) != "visual"@);
    reveal_strlit("iso_8859-8:1988");
    assert(lower_seq("ISO-8859-10"@) != "iso_8859-8:1988"@);
    reveal_strlit("iso_8859-8");
    assert(lower_seq("ISO-8859-10"@) != "iso_8859-8"@);
    reveal_strlit("iso88598");
    assert(lower_seq("ISO-8859-10"@) != "iso88598"@);
    reveal_strlit("iso8859-8");
    assert(lower_seq("ISO-8859-10"@) != "iso8859-8"@);
    reveal_strlit("iso-ir-138");
    assert(lower_seq("ISO-8859-10"@) != "iso-ir-138"@);
    reveal_strlit("iso-8859-8-e");
    assert(lower_seq("ISO-8859-10"@) != "iso-8859-8-e"@);
    reveal_strlit("iso-8859-8");
    assert(lower_seq("ISO-8859-10"@) != "iso-8859-8"@);
    reveal_strlit("hebrew");
    assert(lower_seq("ISO-8859-10"@) != "hebrew"@);
    reveal_strlit("csisolatinhebrew");
    assert(lower_seq("ISO-8859-10"@) != "csisolatinhebrew"@);
    reveal_strlit("csiso88598e");
    assert(lower_seq("ISO-8859-10"@)[0] != "csiso88598e"@[0]);
    reveal_strlit("logical");
    assert(lower_seq("ISO-8859-10"@) != "logical"@);
    reveal_strlit("iso-8859-8-i");
    assert(lower_seq("ISO-8859-10"@) != "iso-8859-8-i"@);
    reveal_strlit("csiso88598i");
    assert(lower_seq("ISO-8859-10"@)[0] != "csiso88598i"@[0]);
    assert(is_label_iso8859_10(lower_seq("ISO-8859-10"@)));
}

proof fn lemma_round_trip_iso8859_13()
    ensures
        spec_parse(spec_canonical_name(CharacterEncoding::ISO8859_13)) == Ok::<
            CharacterEncoding,
            UnrecognizedLabel,
        >(CharacterEncoding::ISO8859_13),
{
    reveal_strlit("ISO-8859-13");
    reveal_strlit("iso-8859-13");
    assert(lower_seq("ISO-8859-13"@) =~= "iso-8859-13"@);
    reveal_strlit("x-unicode20utf8");
    assert(lower_seq("ISO-8859-13"@) != "x-unicode20utf8"@);
    reveal_strlit("utf8");
    assert(lower_seq("ISO-8859-13"@) != "utf8"@);
    reveal_strlit("utf-8");
    assert(lower_seq("ISO-8859-13"@) != "utf-8"@);
    reveal_strlit("unicode20utf8");
    assert(lower_seq("ISO-8859-13"@) != "unicode20utf8"@);
    reveal_strlit("unicode11utf8");
    assert(lower_seq("ISO-8859-13"@) != "unicode11utf8"@);
    reveal_strlit("unicode-1-1-utf-8");
    assert(lower_seq("ISO-8859-13"@) != "unicode-1-1-utf-8"@);
    reveal_strlit("ibm866");
    assert(lower_seq("ISO-8859-13"@) != "ibm866"@);
    reveal_strlit("csibm866");
    assert(lower_seq("ISO-8859-13"@) != "csibm866"@);
    reveal_strlit("cp866");
    assert(lower_seq("ISO-8859-13"@) != "cp866"@);
    reveal_strlit("866");
    assert(lower_seq("ISO-8859-13"@) != "866"@);
    reveal_strlit("latin2");
    assert(lower_seq("ISO-8859-13"@) != "latin2"@);
    reveal_strlit("l2");
    assert(lower_seq("ISO-8859-13"@) != "l2"@);
    reveal_strlit("iso_8859-2:1987");
    assert(lower_seq("ISO-8859-13"@) != "iso_8859-2:1987"@);
    reveal_strlit("iso_8859-2");
    assert(lower_seq("ISO-8859-13"@) != "iso_8859-2"@);
    reveal_strlit("iso88592");
    assert(lower_seq("ISO-8859-13"@) != "iso88592"@);
    reveal_strlit("iso8859-2");
    assert(lower_seq("ISO-8859-13"@) != "iso8859-2"@);
    reveal_strlit("iso-ir-101");
    assert(lower_seq("ISO-8859-13"@) != "iso-ir-101"@);
    reveal_strlit("iso-8859-2");
    assert(lower_seq("ISO-8859-13"@) != "iso-8859-2"@);
    reveal_strlit("csisolatin2");
    assert(lower_seq("ISO-8859-13"@)[0] != "csisolatin2"@[0]);
    reveal_strlit("latin3");
    assert(lower_seq("ISO-8859-13"@) != "latin3"@);
    reveal_strlit("l3");
    assert(lower_seq("ISO-8859-13"@) != "l3"@);
    reveal_strlit("iso_8859-3:1988");
    assert(lower_seq("ISO-8859-13"@) != "iso_8859-3:1988"@);
    reveal_strlit("iso_8859-3");
    assert(lower_seq("ISO-8859-13"@) != "iso_8859-3"@);
    reveal_strlit("iso88593");
    assert(lower_seq("ISO-8859-13"@) != "iso88593"@);
    reveal_strlit("iso8859-3");
    assert(lower_seq("ISO-8859-13"@) != "iso8859-3"@);
    reveal_strlit("iso-ir-109");
    assert(lower_seq("ISO-8859-13"@) != "iso-ir-109"@);
    reveal_strlit("iso-8859-3");
    assert(lower_seq("ISO-8859-13"@) != "iso-8859-3"@);
    reveal_strlit("csisolatin3");
    assert(lower_seq("ISO-8859-13"@)[0] != "csisolatin3"@[0]);
    reveal_strlit("latin4");
    assert(lower_seq("ISO-8859-13"@) != "latin4"@);
    reveal_strlit("l4");
    assert(lower_seq("ISO-8859-13"@) != "l4"@);
    reveal_strlit("iso_8859-4:1988");
    assert(lower_seq("ISO-8859-13"@) != "iso_8859-4:1988"@);
    reveal_strlit("iso_8859-4");
    assert(lower_seq("ISO-8859-13"@) != "iso_8859-4"@);
    reveal_strlit("iso88594");
    assert(lower_seq("ISO-8859-13"@) != "iso88594"@);
    reveal_strlit("iso8859-4");
    assert(lower_seq("ISO-8859-13"@) != "iso8859-4"@);
    reveal_strlit("iso-ir-110");
    assert(lower_seq("ISO-8859-13"@) != "iso-ir-110"@);
    reveal_strlit("iso-8859-4");
    assert(lower_seq("ISO-8859-13"@) != "iso-8859-4"@);
    reveal_strlit("csisolatin4");
    assert(lower_seq("ISO-8859-13"@)[0] != "csisolatin4"@[0]);
    reveal_strlit("iso_8859-5:1988");
    assert(lower_seq("ISO-8859-13"@) != "iso_8859-5:1988"@);
    reveal_strlit("iso_8859-5");
    assert(lower_seq("ISO-8859-13"@) != "iso_8859-5"@);
    reveal_strlit("iso88595");
    assert(lower_seq("ISO-8859-13"@) != "iso88595"@);
    reveal_strlit("iso8859-5");
    assert(lower_seq("ISO-8859-13"@) != "iso8859-5"@);
    reveal_strlit("iso-ir-144");
    assert(lower_seq("ISO-8859-13"@) != "iso-ir-144"@);
    reveal_strlit("iso-8859-5");
    assert(lower_seq("ISO-8859-13"@) != "iso-8859-5"@);
    reveal_strlit("cyrillic");
    assert(lower_seq("ISO-8859-13"@) != "cyrillic"@);
    reveal_strlit("csisolatincyrillic");
    assert(lower_seq("ISO-8859-13"@) != "csisolatincyrillic"@);
    reveal_strlit("iso_8859-6:1987");
    assert(lower_seq("ISO-8859-13"@) != "iso_8859-6:1987"@);
    reveal_strlit("iso_8859-6");
    assert(lower_seq("ISO-8859-13"@) != "iso_8859-6"@);
    reveal_strlit("iso88596");
    assert(lower_seq("ISO-8859-13"@) != "iso88596"@);
    reveal_strlit("iso8859-6");
    assert(lower_seq("ISO-8859-13"@) != "iso8859-6"@);
    reveal_strlit("iso-ir-127");
    assert(lower_seq("ISO-8859-13"@) != "iso-ir-127"@);
    reveal_strlit("iso-8859-6-i");
    assert(lower_seq("ISO-8859-13"@) != "iso-8859-6-i"@);
    reveal_strlit("iso-8859-6-e");
    assert(lower_seq("ISO-8859-13"@) != "iso-8859-6-e"@);
    reveal_strlit("iso-8859-6");
    assert(lower_seq("ISO-8859-13"@) != "iso-8859-6"@);
    reveal_strlit("ecma-114");
    assert(lower_seq("ISO-8859-13"@) != "ecma-114"@);
    reveal_strlit("csisolatinarabic");
    assert(lower_seq("ISO-8859-13"@) != "csisolatinarabic"@);
    reveal_strlit("csiso88596i");
    assert(lower_seq("ISO-8859-13"@)[0] != "csiso88596i"@[0]);
    reveal_strlit("csiso88596e");
    assert(lower_seq("ISO-8859-13"@)[0] != "csiso88596e"@[0]);
    reveal_strlit("asmo-708");
    assert(lower_seq("ISO-8859-13"@) != "asmo-708"@);
    reveal_strlit("arabic");
    assert(lower_seq("ISO-8859-13"@) != "arabic"@);
    reveal_strlit("sun_eu_greek");
    assert(lower_seq("ISO-8859-13"@) != "sun_eu_greek"@);
    reveal_strlit("iso_8859-7:1987");
    assert(lower_seq("ISO-8859-13"@) != "iso_8859-7:1987"@);
    reveal_strlit("iso_8859-7");
    assert(lower_seq("ISO-8859-13"@) != "iso_8859-7"@);
    reveal_strlit("iso88597");
    assert(lower_seq("ISO-8859-13"@) != "iso88597"@);
    reveal_strlit("iso8859-7");
    assert(lower_seq("ISO-8859-13"@) != "iso8859-7"@);
    reveal_strlit("iso-ir-126");
    assert(lower_seq("ISO-8859-13"@) != "iso-ir-126"@);
    reveal_strlit("iso-8859-7");
    assert(lower_seq("ISO-8859-13"@) != "iso-8859-7"@);
    reveal_strlit("greek8");
    assert(lower_seq("ISO-8859-13"@) != "greek8"@);
    reveal_strlit("greek");
    assert(lower_seq("ISO-8859-13"@) != "greek"@);
    reveal_strlit("elot_928");
    assert(lower_seq("ISO-8859-13"@) != "elot_928"@);
    reveal_strlit("ecma-118");
    assert(lower_seq("ISO-8859-13"@) != "ecma-118"@);
    reveal_strlit("csisolatingreek");
    assert(lower_seq("ISO-8859-13"@) != "csisolatingreek"@);
    reveal_strlit("visual");
    assert(lower_seq("ISO-8859-13"@) != "visual"@);
    reveal_strlit("iso_8859-8:1988");
    assert(lower_seq("ISO-8859-13"@) != "iso_8859-8:1988"@);
    reveal_strlit("iso_8859-8");
    assert(lower_seq("ISO-8859-13"@) != "iso_8859-8"@);
    reveal_strlit("iso88598");
    assert(lower_seq("ISO-8859-13"@) != "iso88598"@);
    reveal_strlit("iso8859-8");
    assert(lower_seq("ISO-8859-13"@) != "iso8859-8"@);
    reveal_strlit("iso-ir-138");
    assert(lower_seq("ISO-8859-13"@) != "iso-ir-138"@);
    reveal_strlit("iso-8859-8-e");
    assert(lower_seq("ISO-8859-13"@) != "iso-8859-8-e"@);
    reveal_strlit("iso-8859-8");
    assert(lower_seq("ISO-8859-13"@) != "iso-8859-8"@);
    reveal_strlit("hebrew");
    assert(lower_seq("ISO-8859-13"@) != "hebrew"@);
    reveal_strlit("csisolatinhebrew");
    assert(lower_seq("ISO-8859-13"@) != "csisolatinhebrew"@);
    reveal_strlit("csiso88598e");
    assert(lower_seq("ISO-8859-13"@)[0] != "csiso88598e"@[0]);
    reveal_strlit("logical");
    assert(lower_seq("ISO-8859-13"@) != "logical"@);
    reveal_strlit("iso-8859-8-i");
    assert(lower_seq("ISO-8859-13"@) != "iso-8859-8-i"@);
    reveal_strlit("csiso88598i");
    assert(lower_seq("ISO-8859-13"@)[0] != "csiso88598i"@[0]);
    reveal_strlit("latin6");
    assert(lower_seq("ISO-8859-13"@) != "latin6"@);
    reveal_strlit("l6");
    assert(lower_seq("ISO-8859-13"@) != "l6"@);
    reveal_strlit("iso885910");
    assert(lower_seq("ISO-8859-13"@) != "iso885910"@);
    reveal_strlit("iso8859-10");
    assert(lower_seq("ISO-8859-13"@) != "iso8859-10"@);
    reveal_strlit("iso-ir-157");
    assert(lower_seq("ISO-8859-13"@) != "iso-ir-157"@);
    reveal_strlit("iso-8859-10");
    assert(lower_seq("ISO-8859-13"@)[10] != "iso-8859-10"@[10]);
    reveal_strlit("csisolatin6");
    assert(lower_seq("ISO-8859-13"@)[0] != "csisolatin6"@[0]);
    assert(is_label_iso8859_13(lower_seq("ISO-8859-13"@)));
}

proof fn lemma_round_trip_iso8859_14()
    ensures
        spec_parse(spec_canonical_name(CharacterEncoding::ISO8859_14)) == Ok::<
            CharacterEncoding,
            UnrecognizedLabel,
        >(CharacterEncoding::ISO8859_14),
{
    reveal_strlit("ISO-8859-14");
    reveal_strlit("iso-8859-14");
    assert(lower_seq("ISO-8859-14"@) =~= "iso-8859-14"@);
    reveal_strlit("x-unicode20utf8");
    assert(lower_seq("ISO-8859-14"@) != "x-unicode20utf8"@);
    reveal_strlit("utf8");
    assert(lower_seq("ISO-8859-14"@) != "utf8"@);
    reveal_strlit("utf-8");
    assert(lower_seq("ISO-8859-14"@) != "utf-8"@);
    reveal_strlit("unicode20utf8");
    assert(lower_seq("ISO-8859-14"@) != "unicode20utf8"@);
    reveal_strlit("unicode11utf8");
    assert(lower_seq("ISO-8859-14"@) != "unicode11utf8"@);
    reveal_strlit("unicode-1-1-utf-8");
    assert(lower_seq("ISO-8859-14"@) != "unicode-1-1-utf-8"@);
    reveal_strlit("ibm866");
    assert(lower_seq("ISO-8859-14"@) != "ibm866"@);
    reveal_strlit("csibm866");
    assert(lower_seq("ISO-8859-14"@) != "csibm866"@);
    reveal_strlit("cp866");
    assert(lower_seq("ISO-8859-14"@) != "cp866"@);
    reveal_strlit("866");
    assert(lower_seq("ISO-8859-14"@) != "866"@);
    reveal_strlit("latin2");
    assert(lower_seq("ISO-8859-14"@) != "latin2"@);
    reveal_strlit("l2");
    assert(lower_seq("ISO-8859-14"@) != "l2"@);
    reveal_strlit("iso_8859-2:1987");
    assert(lower_seq("ISO-8859-14"@) != "iso_8859-2:1987"@);
    reveal_strlit("iso_8859-2");
    assert(lower_seq("ISO-8859-14"@) != "iso_8859-2"@);
    reveal_strlit("iso88592");
    assert(lower_seq("ISO-8859-14"@) != "iso88592"@);
    reveal_strlit("iso8859-2");
    assert(lower_seq("ISO-8859-14"@) != "iso8859-2"@);
    reveal_strlit("iso-ir-101");
    assert(lower_seq("ISO-8859-14"@) != "iso-ir-101"@);
    reveal_strlit("iso-8859-2");
    assert(lower_seq("ISO-8859-14"@) != "iso-8859-2"@);
    reveal_strlit("csisolatin2");
    assert(lower_seq("ISO-8859-14"@)[0] != "csisolatin2"@[0]);
    reveal_strlit("latin3");
    assert(lower_seq("ISO-8859-14"@) != "latin3"@);
    reveal_strlit("l3");
    assert(lower_seq("ISO-8859-14"@) != "l3"@);
    reveal_strlit("iso_8859-3:1988");
    assert(lower_seq("ISO-8859-14"@) != "iso_8859-3:1988"@);
    reveal_strlit("iso_8859-3");
    assert(lower_seq("ISO-8859-14"@) != "iso_8859-3"@);
    reveal_strlit("iso88593");
    assert(lower_seq("ISO-8859-14"@) != "iso88593"@);
    reveal_strlit("iso8859-3");
    assert(lower_seq("ISO-8859-14"@) != "iso8859-3"@);
    reveal_strlit("iso-ir-109");
    assert(lower_seq("ISO-8859-14"@) != "iso-ir-109"@);
    reveal_strlit("iso-8859-3");
    assert(lower_seq("ISO-8859-14"@) != "iso-8859-3"@);
    reveal_strlit("csisolatin3");
    assert(lower_seq("ISO-8859-14"@)[0] != "csisolatin3"@[0]);
    reveal_strlit("latin4");
    assert(lower_seq("ISO-8859-14"@) != "latin4"@);
    reveal_strlit("l4");
    assert(lower_seq("ISO-8859-14"@) != "l4"@);
    reveal_strlit("iso_8859-4:1988");
    assert(lower_seq("ISO-8859-14"@) != "iso_8859-4:1988"@);
    reveal_strlit("iso_8859-4");
    assert(lower_seq("ISO-8859-14"@) != "iso_8859-4"@);
    reveal_strlit("iso88594");
    assert(lower_seq("ISO-8859-14"@) != "iso88594"@);
    reveal_strlit("iso8859-4");
    assert(lower_seq("ISO-8859-14"@) != "iso8859-4"@);
    reveal_strlit("iso-ir-110");
    assert(lower_seq("ISO-8859-14"@) != "iso-ir-110"@);
    reveal_strlit("iso-8859-4");
    assert(lower_seq("ISO-8859-14"@) != "iso-8859-4"@);
    reveal_strlit("csisolatin4");
    assert(lower_seq("ISO-8859-14"@)[0] != "csisolatin4"@[0]);
    reveal_strlit("iso_8859-5:1988");
    assert(lower_seq("ISO-8859-14"@) != "iso_8859-5:1988"@);
    reveal_strlit("iso_8859-5");
    assert(lower_seq("ISO-8859-14"@) != "iso_8859-5"@);
    reveal_strlit("iso88595");
    assert(lower_seq("ISO-8859-14"@) != "iso88595"@);
    reveal_strlit("iso8859-5");
    assert(lower_seq("ISO-8859-14"@) != "iso8859-5"@);
    reveal_strlit("iso-ir-144");
    assert(lower_seq("ISO-8859-14"@) != "iso-ir-144"@);
    reveal_strlit("iso-8859-5");
    assert(lower_seq("ISO-8859-14"@) != "iso-8859-5"@);
    reveal_strlit("cyrillic");
    assert(lower_seq("ISO-8859-14"@) != "cyrillic"@);
    reveal_strlit("csisolatincyrillic");
    assert(lower_seq("ISO-8859-14"@) != "csisolatincyrillic"@);
    reveal_strlit("iso_8859-6:1987");
    assert(lower_seq("ISO-8859-14"@) != "iso_8859-6:1987"@);
    reveal_strlit("iso_8859-6");
    assert(lower_seq("ISO-8859-14"@) != "iso_8859-6"@);
    reveal_strlit("iso88596");
    assert(lower_seq("ISO-8859-14"@) != "iso88596"@);
    reveal_strlit("iso8859-6");
    assert(lower_seq("ISO-8859-14"@) != "iso8859-6"@);
    reveal_strlit("iso-ir-127");
    assert(lower_seq("ISO-8859-14"@) != "iso-ir-127"@);
    reveal_strlit("iso-8859-6-i");
    assert(lower_seq("ISO-8859-14"@) != "iso-8859-6-i"@);
    reveal_strlit("iso-8859-6-e");
    assert(lower_seq("ISO-8859-14"@) != "iso-8859-6-e"@);
    reveal_strlit("iso-8859-6");
    assert(lower_seq("ISO-8859-14"@) != "iso-8859-6"@);
    reveal_strlit("ecma-114");
    assert(lower_seq("ISO-8859-14"@) != "ecma-114"@);
    reveal_strlit("csisolatinarabic");
    assert(lower_seq("ISO-8859-14"@) != "csisolatinarabic"@);
    reveal_strlit("csiso88596i");
    assert(lower_seq("ISO-8859-14"@)[0] != "csiso88596i"@[0]);
    reveal_strlit("csiso88596e");
    assert(lower_seq("ISO-8859-14"@)[0] != "csiso88596e"@[0]);
    reveal_strlit("asmo-708");
    assert(lower_seq("ISO-8859-14"@) != "asmo-708"@);
    reveal_strlit("arabic");
    assert(lower_seq("ISO-8859-14"@) != "arabic"@);
    reveal_strlit("sun_eu_greek");
    assert(lower_seq("ISO-8859-14"@) != "sun_eu_greek"@);
    reveal_strlit("iso_8859-7:1987");
    assert(lower_seq("ISO-8859-14"@) != "iso_8859-7:1987"@);
    reveal_strlit("iso_8859-7");
    assert(lower_seq("ISO-8859-14"@) != "iso_8859-7"@);
    reveal_strlit("iso88597");
    assert(lower_seq("ISO-8859-14"@) != "iso88597"@);
    reveal_strlit("iso8859-7");
    assert(lower_seq("ISO-8859-14"@) != "iso8859-7"@);
    reveal_strlit("iso-ir-126");
    assert(lower_seq("ISO-8859-14"@) != "iso-ir-126"@);
    reveal_strlit("iso-8859-7");
    assert(lower_seq("ISO-8859-14"@) != "iso-8859-7"@);
    reveal_strlit("greek8");
    assert(lower_seq("ISO-8859-14"@) != "greek8"@);
    reveal_strlit("greek");
    assert(lower_seq("ISO-8859-14"@) != "greek"@);
    reveal_strlit("elot_928");
    assert(lower_seq("ISO-8859-14"@) != "elot_928"@);
    reveal_strlit("ecma-118");
    assert(lower_seq("ISO-8859-14"@) != "ecma-118"@);
    reveal_strlit("csisolatingreek");
    assert(lower_seq("ISO-8859-14"@) != "csisolatingreek"@);
    reveal_strlit("visual");
    assert(lower_seq("ISO-8859-14"@) != "visual"@);
    reveal_strlit("iso_8859-8:1988");
    assert(lower_seq("ISO-8859-14"@) != "iso_8859-8:1988"@);
    reveal_strlit("iso_8859-8");
    assert(lower_seq("ISO-8859-14"@) != "iso_8859-8"@);
    reveal_strlit("iso88598");
    assert(lower_seq("ISO-8859-14"@) != "iso88598"@);
    reveal_strlit("iso8859-8");
    assert(lower_seq("ISO-8859-14"@) != "iso8859-8"@);
    reveal_strlit("iso-ir-138");
    assert(lower_seq("ISO-8859-14"@) != "iso-ir-138"@);
    reveal_strlit("iso-8859-8-e");
    assert(lower_seq("ISO-8859-14"@) != "iso-8859-8-e"@);
    reveal_strlit("iso-8859-8");
    assert(lower_seq("ISO-8859-14"@) != "iso-8859-8"@);
    reveal_strlit("hebrew");
    assert(lower_seq("ISO-8859-14"@) != "hebrew"@);
    reveal_strlit("csisolatinhebrew");
    assert(lower_seq("ISO-8859-14"@) != "csisolatinhebrew"@);
    reveal_strlit("csiso88598e");
    assert(lower_seq("ISO-8859-14"@)[0] != "csiso88598e"@[0]);
    reveal_strlit("logical");
    assert(lower_seq("ISO-8859-14"@) != "logical"@);
    reveal_strlit("iso-8859-8-i");
    assert(lower_seq("ISO-8859-14"@) != "iso-8859-8-i"@);
    reveal_strlit("csiso88598i");
    assert(lower_seq("ISO-8859-14"@)[0] != "csiso88598i"@[0]);
    reveal_strlit("latin6");
    assert(lower_seq("ISO-8859-14"@) != "latin6"@);
    reveal_strlit("l6");
    assert(lower_seq("ISO-8859-14"@) != "l6"@);
    reveal_strlit("iso885910");
    assert(lower_seq("ISO-8859-14"@) != "iso885910"@);
    reveal_strlit("iso8859-10");
    assert(lower_seq("ISO-8859-14"@) != "iso8859-10"@);
    reveal_strlit("iso-ir-157");
    assert(lower_seq("ISO-8859-14"@) != "iso-ir-157"@);
    reveal_strlit("iso-8859-10");
    assert(lower_seq("ISO-8859-14"@)[10] != "iso-8859-10"@[10]);
    reveal_strlit("csisolatin6");
    assert(lower_seq("ISO-8859-14"@)[0] != "csisolatin6"@[0]);
    reveal_strlit("iso885913");
    assert(lower_seq("ISO-8859-14"@) != "iso885913"@);
    reveal_strlit("iso8859-13");
    assert(lower_seq("ISO-8859-14"@) != "iso8859-13"@);
    reveal_strlit("iso-8859-13");
    assert(lower_seq("ISO-8859-14"@)[10] != "iso-8859-13"@[10]);
    assert(is_label_iso8859_14(lower_seq("ISO-8859-14"@)));
}

proof fn lemma_round_trip_iso8859_15()
    ensures
        spec_parse(spec_canonical_name(CharacterEncoding::ISO8859_15)) == Ok::<
            CharacterEncoding,
            UnrecognizedLabel,
        >(CharacterEncoding::ISO8859_15),
{
    reveal_strlit("ISO-8859-15");
    reveal_strlit("iso-8859-15");
    assert(lower_seq("ISO-8859-15"@) =~= "iso-8859-15"@);
    reveal_strlit("x-unicode20utf8");
    assert(lower_seq("ISO-8859-15"@) != "x-unicode20utf8"@);
    reveal_strlit("utf8");
    assert(lower_seq("ISO-8859-15"@) != "utf8"@);
    reveal_strlit("utf-8");
    assert(lower_seq("ISO-8859-15"@) != "utf-8"@);
    reveal_strlit("unicode20utf8");
    assert(lower_seq("ISO-8859-15"@) != "unicode20utf8"@);
    reveal_strlit("unicode11utf8");
    assert(lower_seq("ISO-8859-15"@) != "unicode11utf8"@);
    reveal_strlit("unicode-1-1-utf-8");
    assert(lower_seq("ISO-8859-15"@) != "unicode-1-1-utf-8"@);
    reveal_strlit("ibm866");
    assert(lower_seq("ISO-8859-15"@) != "ibm866"@);
    reveal_strlit("csibm866");
    assert(lower_seq("ISO-8859-15"@) != "csibm866"@);
    reveal_strlit("cp866");
    assert(lower_seq("ISO-8859-15"@) != "cp866"@);
    reveal_strlit("866");
    assert(lower_seq("ISO-8859-15"@) != "866"@);
    reveal_strlit("latin2");
    assert(lower_seq("ISO-8859-15"@) != "latin2"@);
    reveal_strlit("l2");
    assert(lower_seq("ISO-8859-15"@) != "l2"@);
    reveal_strlit("iso_8859-2:1987");
    assert(lower_seq("ISO-8859-15"@) != "iso_8859-2:1987"@);
    reveal_strlit("iso_8859-2");
    assert(lower_seq("ISO-8859-15"@) != "iso_8859-2"@);
    reveal_strlit("iso88592");
    assert(lower_seq("ISO-8859-15"@) != "iso88592"@);
    reveal_strlit("iso8859-2");
    assert(lower_seq("ISO-8859-15"@) != "iso8859-2"@);
    reveal_strlit("iso-ir-101");
    assert(lower_seq("ISO-8859-15"@) != "iso-ir-101"@);
    reveal_strlit("iso-8859-2");
    assert(lower_seq("ISO-8859-15"@) != "iso-8859-2"@);
    reveal_strlit("csisolatin2");
    assert(lower_seq("ISO-8859-15"@)[0] != "csisolatin2"@[0]);
    reveal_strlit("latin3");
    assert(lower_seq("ISO-8859-15"@) != "latin3"@);
    reveal_strlit("l3");
    assert(lower_seq("ISO-8859-15"@) != "l3"@);
    reveal_strlit("iso_8859-3:1988");
    assert(lower_seq("ISO-8859-15"@) != "iso_8859-3:1988"@);
    reveal_strlit("iso_8859-3");
    assert(lower_seq("ISO-8859-15"@) != "iso_8859-3"@);
    reveal_strlit("iso88593");
    assert(lower_seq("ISO-8859-15"@) != "iso88593"@);
    reveal_strlit("iso8859-3");
    assert(lower_seq("ISO-8859-15"@) != "iso8859-3"@);
    reveal_strlit("iso-ir-109");
    assert(lower_seq("ISO-8859-15"@) != "iso-ir-109"@);
    reveal_strlit("iso-8859-3");
    assert(lower_seq("ISO-8859-15"@) != "iso-8859-3"@);
    reveal_strlit("csisolatin3");
    assert(lower_seq("ISO-8859-15"@)[0] != "csisolatin3"@[0]);
    reveal_strlit("latin4");
    assert(lower_seq("ISO-8859-15"@) != "latin4"@);
    reveal_strlit("l4");
    assert(lower_seq("ISO-8859-15"@) != "l4"@);
    reveal_strlit("iso_8859-4:1988");
    assert(lower_seq("ISO-8859-15"@) != "iso_8859-4:1988"@);
    reveal_strlit("iso_8859-4");
    assert(lower_seq("ISO-8859-15"@) != "iso_8859-4"@);
    reveal_strlit("iso88594");
    assert(lower_seq("ISO-8859-15"@) != "iso88594"@);
    reveal_strlit("iso8859-4");
    assert(lower_seq("ISO-8859-15"@) != "iso8859-4"@);
    reveal_strlit("iso-ir-110");
    assert(lower_seq("ISO-8859-15"@) != "iso-ir-110"@);
    reveal_strlit("iso-8859-4");
    assert(lower_seq("ISO-8859-15"@) != "iso-8859-4"@);
    reveal_strlit("csisolatin4");
    assert(lower_seq("ISO-8859-15"@)[0] != "csisolatin4"@[0]);
    reveal_strlit("iso_8859-5:1988");
    assert(lower_seq("ISO-8859-15"@) != "iso_8859-5:1988"@);
    reveal_strlit("iso_8859-5");
    assert(lower_seq("ISO-8859-15"@) != "iso_8859-5"@);
    reveal_strlit("iso88595");
    assert(lower_seq("ISO-8859-15"@) != "iso88595"@);
    reveal_strlit("iso8859-5");
    assert(lower_seq("ISO-8859-15"@) != "iso8859-5"@);
    reveal_strlit("iso-ir-144");
    assert(lower_seq("ISO-8859-15"@) != "iso-ir-144"@);
    reveal_strlit("iso-8859-5");
    assert(lower_seq("ISO-8859-15"@) != "iso-8859-5"@);
    reveal_strlit("cyrillic");
    assert(lower_seq("ISO-8859-15"@) != "cyrillic"@);
    reveal_strlit("csisolatincyrillic");
    assert(lower_seq("ISO-8859-15"@) != "csisolatincyrillic"@);
    reveal_strlit("iso_8859-6:1987");
    assert(lower_seq("ISO-8859-15"@) != "iso_8859-6:1987"@);
    reveal_strlit("iso_8859-6");
    assert(lower_seq("ISO-8859-15"@) != "iso_8859-6"@);
    reveal_strlit("iso88596");
    assert(lower_seq("ISO-8859-15"@) != "iso88596"@);
    reveal_strlit("iso8859-6");
    assert(lower_seq("ISO-8859-15"@) != "iso8859-6"@);
    reveal_strlit("iso-ir-127");
    assert(lower_seq("ISO-8859-15"@) != "iso-ir-127"@);
    reveal_strlit("iso-8859-6-i");
    assert(lower_seq("ISO-8859-15"@) != "iso-8859-6-i"@);
    reveal_strlit("iso-8859-6-e");
    assert(lower_seq("ISO-8859-15"@) != "iso-8859-6-e"@);
    reveal_strlit("iso-8859-6");
    assert(lower_seq("ISO-8859-15"@) != "iso-8859-6"@);
    reveal_strlit("ecma-114");
    assert(lower_seq("ISO-8859-15"@) != "ecma-114"@);
    reveal_strlit("csisolatinarabic");
    assert(lower_seq("ISO-8859-15"@) != "csisolatinarabic"@);
    reveal_strlit("csiso88596i");
    assert(lower_seq("ISO-8859-15"@)[0] != "csiso88596i"@[0]);
    reveal_strlit("csiso88596e");
    assert(lower_seq("ISO-8859-15"@)[0] != "csiso88596e"@[0]);
    reveal_strlit("asmo-708");
    assert(lower_seq("ISO-8859-15"@) != "asmo-708"@);
    reveal_strlit("arabic");
    assert(lower_seq("ISO-8859-15"@) != "arabic"@);
    reveal_strlit("sun_eu_greek");
    assert(lower_seq("ISO-8859-15"@) != "sun_eu_greek"@);
    reveal_strlit("iso_8859-7:1987");
    assert(lower_seq("ISO-8859-15"@) != "iso_8859-7:1987"@);
    reveal_strlit("iso_8859-7");
    assert(lower_seq("ISO-8859-15"@) != "iso_8859-7"@);
    reveal_strlit("iso88597");
    assert(lower_seq("ISO-8859-15"@) != "iso88597"@);
    reveal_strlit("iso8859-7");
    assert(lower_seq("ISO-8859-15"@) != "iso8859-7"@);
    reveal_strlit("iso-ir-126");
    assert(lower_seq("ISO-8859-15"@) != "iso-ir-126"@);
    reveal_strlit("iso-8859-7");
    assert(lower_seq("ISO-8859-15"@) != "iso-8859-7"@);
    reveal_strlit("greek8");
    assert(lower_seq("ISO-8859-15"@) != "greek8"@);
    reveal_strlit("greek");
    assert(lower_seq("ISO-8859-15"@) != "greek"@);
    reveal_strlit("elot_928");
    assert(lower_seq("ISO-8859-15"@) != "elot_928"@);
    reveal_strlit("ecma-118");
    assert(lower_seq("ISO-8859-15"@) != "ecma-118"@);
    reveal_strlit("csisolatingreek");
    assert(lower_seq("ISO-8859-15"@) != "csisolatingreek"@);
    reveal_strlit("visual");
    assert(lower_seq("ISO-8859-15"@) != "visual"@);
    reveal_strlit("iso_8859-8:1988");
    assert(lower_seq("ISO-8859-15"@) != "iso_8859-8:1988"@);
    reveal_strlit("iso_8859-8");
    assert(lower_seq("ISO-8859-15"@) != "iso_8859-8"@);
    reveal_strlit("iso88598");
    assert(lower_seq("ISO-8859-15"@) != "iso88598"@);
    reveal_strlit("iso8859-8");
    assert(lower_seq("ISO-8859-15"@) != "iso8859-8"@);
    reveal_strlit("iso-ir-138");
    assert(lower_seq("ISO-8859-15"@) != "iso-ir-138"@);
    reveal_strlit("iso-8859-8-e");
    assert(lower_seq("ISO-8859-15"@) != "iso-8859-8-e"@);
    reveal_strlit("iso-8859-8");
    assert(lower_seq("ISO-8859-15"@) != "iso-8859-8"@);
    reveal_strlit("hebrew");
    assert(lower_seq("ISO-8859-15"@) != "hebrew"@);
    reveal_strlit("csisolatinhebrew");
    assert(lower_seq("ISO-8859-15"@) != "csisolatinhebrew"@);
    reveal_strlit("csiso88598e");
    assert(lower_seq("ISO-8859-15"@)[0] != "csiso88598e"@[0]);
    reveal_strlit("logical");
    assert(lower_seq("ISO-8859-15"@) != "logical"@);
    reveal_strlit("iso-8859-8-i");
    assert(lower_seq("ISO-8859-15"@) != "iso-8859-8-i"@);
    reveal_strlit("csiso88598i");
    assert(lower_seq("ISO-8859-15"@)[0] != "csiso88598i"@[0]);
    reveal_strlit("latin6");
    assert(lower_seq("ISO-8859-15"@) != "latin6"@);
    reveal_strlit("l6");
    assert(lower_seq("ISO-8859-15"@) != "l6"@);
    reveal_strlit("iso885910");
    assert(lower_seq("ISO-8859-15"@) != "iso885910"@);
    reveal_strlit("iso8859-10");
    assert(lower_seq("ISO-8859-15"@) != "iso8859-10"@);
    reveal_strlit("iso-ir-157");
    assert(lower_seq("ISO-8859-15"@) != "iso-ir-157"@);
    reveal_strlit("iso-8859-10");
    assert(lower_seq("ISO-8859-15"@)[10] != "iso-8859-10"@[10]);
    reveal_strlit("csisolatin6");
    assert(lower_seq("ISO-8859-15"@)[0] != "csisolatin6"@[0]);
    reveal_strlit("iso885913");
    assert(lower_seq("ISO-8859-15"@) != "iso885913"@);
    reveal_strlit("iso8859-13");
    assert(lower_seq("ISO-8859-15"@) != "iso8859-13"@);
    reveal_strlit("iso-8859-13");
    assert(lower_seq("ISO-8859-15"@)[10] != "iso-8859-13"@[10]);
    reveal_strlit("iso885914");
    assert(lower_seq("ISO-8859-15"@) != "iso885914"@);
    reveal_strlit("iso8859-14");
    assert(lower_seq("ISO-8859-15"@) != "iso8859-14"@);
    reveal_strlit("iso-8859-14");
    assert(lower_seq("ISO-8859-15"@)[10] != "iso-8859-14"@[10]);
    assert(is_label_iso8859_15(lower_seq("ISO-8859-15"@)));
}

proof fn lemma_round_trip_iso8859_16()
    ensures
        spec_parse(spec_canonical_name(CharacterEncoding::ISO8859_16)) == Ok::<
            CharacterEncoding,
            UnrecognizedLabel,
        >(CharacterEncoding::ISO8859_16),
{
    reveal_strlit("ISO-8859-16");
    reveal_strlit("iso-8859-16");
    assert(lower_seq("ISO-8859-16"@) =~= "iso-8859-16"@);
    reveal_strlit("x-unicode20utf8");
    assert(lower_seq("ISO-8859-16"@) != "x-unicode20utf8"@);
    reveal_strlit("utf8");
    assert(lower_seq("ISO-8859-16"@) != "utf8"@);
    reveal_strlit("utf-8");
    assert(lower_seq("ISO-8859-16"@) != "utf-8"@);
    reveal_strlit("unicode20utf8");
    assert(lower_seq("ISO-8859-16"@) != "unicode20utf8"@);
    reveal_strlit("unicode11utf8");
    assert(lower_seq("ISO-8859-16"@) != "unicode11utf8"@);
    reveal_strlit("unicode-1-1-utf-8");
    assert(lower_seq("ISO-8859-16"@) != "unicode-1-1-utf-8"@);
    reveal_strlit("ibm866");
    assert(lower_seq("ISO-8859-16"@) != "ibm866"@);
    reveal_strlit("csibm866");
    assert(lower_seq("ISO-8859-16"@) != "csibm866"@);
    reveal_strlit("cp866");
    assert(lower_seq("ISO-8859-16"@) != "cp866"@);
    reveal_strlit("866");
    assert(lower_seq("ISO-8859-16"@) != "866"@);
    reveal_strlit("latin2");
    assert(lower_seq("ISO-8859-16"@) != "latin2"@);
    reveal_strlit("l2");
    assert(lower_seq("ISO-8859-16"@) != "l2"@);
    reveal_strlit("iso_8859-2:1987");
    assert(lower_seq("ISO-8859-16"@) != "iso_8859-2:1987"@);
    reveal_strlit("iso_8859-2");
    assert(lower_seq("ISO-8859-16"@) != "iso_8859-2"@);
    reveal_strlit("iso88592");
    assert(lower_seq("ISO-8859-16"@) != "iso88592"@);
    reveal_strlit("iso8859-2");
    assert(lower_seq("ISO-8859-16"@) != "iso8859-2"@);
    reveal_strlit("iso-ir-101");
    assert(lower_seq("ISO-8859-16"@) != "iso-ir-101"@);
    reveal_strlit("iso-8859-2");
    assert(lower_seq("ISO-8859-16"@) != "iso-8859-2"@);
    reveal_strlit("csisolatin2");
    assert(lower_seq("ISO-8859-16"@)[0] != "csisolatin2"@[0]);
    reveal_strlit("latin3");
    assert(lower_seq("ISO-8859-16"@) != "latin3"@);
    reveal_strlit("l3");
    assert(lower_seq("ISO-8859-16"@) != "l3"@);
    reveal_strlit("iso_8859-3:1988");
    assert(lower_seq("ISO-8859-16"@) != "iso_8859-3:1988"@);
    reveal_strlit("iso_8859-3");
    assert(lower_seq("ISO-8859-16"@) != "iso_8859-3"@);
    reveal_strlit("iso88593");
    assert(lower_seq("ISO-8859-16"@) != "iso88593"@);
    reveal_strlit("iso8859-3");
    assert(lower_seq("ISO-8859-16"@) != "iso8859-3"@);
    reveal_strlit("iso-ir-109");
    assert(lower_seq("ISO-8859-16"@) != "iso-ir-109"@);
    reveal_strlit("iso-8859-3");
    assert(lower_seq("ISO-8859-16"@) != "iso-8859-3"@);
    reveal_strlit("csisolatin3");
    assert(lower_seq("ISO-8859-16"@)[0] != "csisolatin3"@[0]);
    reveal_strlit("latin4");
    assert(lower_seq("ISO-8859-16"@) != "latin4"@);
    reveal_strlit("l4");
    assert(lower_seq("ISO-8859-16"@) != "l4"@);
    reveal_strlit("iso_8859-4:1988");
    assert(lower_seq("ISO-8859-16"@) != "iso_8859-4:1988"@);
    reveal_strlit("iso_8859-4");
    assert(lower_seq("ISO-8859-16"@) != "iso_8859-4"@);
    reveal_strlit("iso88594");
    assert(lower_seq("ISO-8859-16"@) != "iso88594"@);
    reveal_strlit("iso8859-4");
    assert(lower_seq("ISO-8859-16"@) != "iso8859-4"@);
    reveal_strlit("iso-ir-110");
    assert(lower_seq("ISO-8859-16"@) != "iso-ir-110"@);
    reveal_strlit("iso-8859-4");
    assert(lower_seq("ISO-8859-16"@) != "iso-8859-4"@);
    reveal_strlit("csisolatin4");
    assert(lower_seq("ISO-8859-16"@)[0] != "csisolatin4"@[0]);
    reveal_strlit("iso_8859-5:1988");
    assert(lower_seq("ISO-8859-16"@) != "iso_8859-5:1988"@);
    reveal_strlit("iso_8859-5");
    assert(lower_seq("ISO-8859-16"@) != "iso_8859-5"@);
    reveal_strlit("iso88595");
    assert(lower_seq("ISO-8859-16"@) != "iso88595"@);
    reveal_strlit("iso8859-5");
    assert(lower_seq("ISO-8859-16"@) != "iso8859-5"@);
    reveal_strlit("iso-ir-144");
    assert(lower_seq("ISO-8859-16"@) != "iso-ir-144"@);
    reveal_strlit("iso-8859-5");
    assert(lower_seq("ISO-8859-16"@) != "iso-8859-5"@);
    reveal_strlit("cyrillic");
    assert(lower_seq("ISO-8859-16"@) != "cyrillic"@);
    reveal_strlit("csisolatincyrillic");
    assert(lower_seq("ISO-8859-16"@) != "csisolatincyrillic"@);
    reveal_strlit("iso_8859-6:1987");
    assert(lower_seq("ISO-8859-16"@) != "iso_8859-6:1987"@);
    reveal_strlit("iso_8859-6");
    assert(lower_seq("ISO-8859-16"@) != "iso_8859-6"@);
    reveal_strlit("iso88596");
    assert(lower_seq("ISO-8859-16"@) != "iso88596"@);
    reveal_strlit("iso8859-6");
    assert(lower_seq("ISO-8859-16"@) != "iso8859-6"@);
    reveal_strlit("iso-ir-127");
    assert(lower_seq("ISO-8859-16"@) != "iso-ir-127"@);
    reveal_strlit("iso-8859-6-i");
    assert(lower_seq("ISO-8859-16"@) != "iso-8859-6-i"@);
    reveal_strlit("iso-8859-6-e");
    assert(lower_seq("ISO-8859-16"@) != "iso-8859-6-e"@);
    reveal_strlit("iso-8859-6");
    assert(lower_seq("ISO-8859-16"@) != "iso-8859-6"@);
    reveal_strlit("ecma-114");
    assert(lower_seq("ISO-8859-16"@) != "ecma-114"@);
    reveal_strlit("csisolatinarabic");
    assert(lower_seq("ISO-8859-16"@) != "csisolatinarabic"@);
    reveal_strlit("csiso88596i");
    assert(lower_seq("ISO-8859-16"@)[0] != "csiso88596i"@[0]);
    reveal_strlit("csiso88596e");
    assert(lower_seq("ISO-8859-16"@)[0] != "csiso88596e"@[0]);
    reveal_strlit("asmo-708");
    assert(lower_seq("ISO-8859-16"@) != "asmo-708"@);
    reveal_strlit("arabic");
    assert(lower_seq("ISO-8859-16"@) != "arabic"@);
    reveal_strlit("sun_eu_greek");
    assert(lower_seq("ISO-8859-16"@) != "sun_eu_greek"@);
    reveal_strlit("iso_8859-7:1987");
    assert(lower_seq("ISO-8859-16"@) != "iso_8859-7:1987"@);
    reveal_strlit("iso_8859-7");
    assert(lower_seq("ISO-8859-16"@) != "iso_8859-7"@);
    reveal_strlit("iso88597");
    assert(lower_seq("ISO-8859-16"@) != "iso88597"@);
    reveal_strlit("iso8859-7");
    assert(lower_seq("ISO-8859-16"@) != "iso8859-7"@);
    reveal_strlit("iso-ir-126");
    assert(lower_seq("ISO-8859-16"@) != "iso-ir-126"@);
    reveal_strlit("iso-8859-7");
    assert(lower_seq("ISO-8859-16"@) != "iso-8859-7"@);
    reveal_strlit("greek8");
    assert(lower_seq("ISO-8859-16"@) != "greek8"@);
    reveal_strlit("greek");
    assert(lower_seq("ISO-8859-16"@) != "greek"@);
    reveal_strlit("elot_928");
    assert(lower_seq("ISO-8859-16"@) != "elot_928"@);
    reveal_strlit("ecma-118");
    assert(lower_seq("ISO-8859-16"@) != "ecma-118"@);
    reveal_strlit("csisolatingreek");
    assert(lower_seq("ISO-8859-16"@) != "csisolatingreek"@);
    reveal_strlit("visual");
    assert(lower_seq("ISO-8859-16"@) != "visual"@);
    reveal_strlit("iso_8859-8:1988");
    assert(lower_seq("ISO-8859-16"@) != "iso_8859-8:1988"@);
    reveal_strlit("iso_8859-8");
    assert(lower_seq("ISO-8859-16"@) != "iso_8859-8"@);
    reveal_strlit("iso88598");
    assert(lower_seq("ISO-8859-16"@) != "iso88598"@);
    reveal_strlit("iso8859-8");
    assert(lower_seq("ISO-8859-16"@) != "iso8859-8"@);
    reveal_strlit("iso-ir-138");
    assert(lower_seq("ISO-8859-16"@) != "iso-ir-138"@);
    reveal_strlit("iso-8859-8-e");
    assert(lower_seq("ISO-8859-16"@) != "iso-8859-8-e"@);
    reveal_strlit("iso-8859-8");
    assert(lower_seq("ISO-8859-16"@) != "iso-8859-8"@);
    reveal_strlit("hebrew");
    assert(lower_seq("ISO-8859-16"@) != "hebrew"@);
    reveal_strlit("csisolatinhebrew");
    assert(lower_seq("ISO-8859-16"@) != "csisolatinhebrew"@);
    reveal_strlit("csiso88598e");
    assert(lower_seq("ISO-8859-16"@)[0] != "csiso88598e"@[0]);
    reveal_strlit("logical");
    assert(lower_seq("ISO-8859-16"@) != "logical"@);
    reveal_strlit("iso-8859-8-i");
    assert(lower_seq("ISO-8859-16"@) != "iso-8859-8-i"@);
    reveal_strlit("csiso88598i");
    assert(lower_seq("ISO-8859-16"@)[0] != "csiso88598i"@[0]);
    reveal_strlit("latin6");
    assert(lower_seq("ISO-8859-16"@) != "latin6"@);
    reveal_strlit("l6");
    assert(lower_seq("ISO-8859-16"@) != "l6"@);
    reveal_strlit("iso885910");
    assert(lower_seq("ISO-8859-16"@) != "iso885910"@);
    reveal_strlit("iso8859-10");
    assert(lower_seq("ISO-8859-16"@) != "iso8859-10"@);
    reveal_strlit("iso-ir-157");
    assert(lower_seq("ISO-8859-16"@) != "iso-ir-157"@);
    reveal_strlit("iso-8859-10");
    assert(lower_seq("ISO-8859-16"@)[10] != "iso-8859-10"@[10]);
    reveal_strlit("csisolatin6");
    assert(lower_seq("ISO-8859-16"@)[0] != "csisolatin6"@[0]);
    reveal_strlit("iso885913");
    assert(lower_seq("ISO-8859-16"@) != "iso885913"@);
    reveal_strlit("iso8859-13");
    assert(lower_seq("ISO-8859-16"@) != "iso8859-13"@);
    reveal_strlit("iso-8859-13");
    assert(lower_seq("ISO-8859-16"@)[10] != "iso-8859-13"@[10]);
    reveal_strlit("iso885914");
    assert(lower_seq("ISO-8859-16"@) != "iso885914"@);
    reveal_strlit("iso8859-14");
    assert(lower_seq("ISO-8859-16"@) != "iso8859-14"@);
    reveal_strlit("iso-8859-14");
    assert(lower_seq("ISO-8859-16"@)[10] != "iso-8859-14"@[10]);
    reveal_strlit("l9");
    assert(lower_seq("ISO-8859-16"@) != "l9"@);
    reveal_strlit("iso_8859-15");
    assert(lower_seq("ISO-8859-16"@)[3] != "iso_8859-15"@[3]);
    reveal_strlit("iso885915");
    assert(lower_seq("ISO-8859-16"@) != "iso885915"@);
    reveal_strlit("iso8859-15");
    assert(lower_seq("ISO-8859-16"@) != "iso8859-15"@);
    reveal_strlit("iso-8859-15");
    assert(lower_seq("ISO-8859-16"@)[10] != "iso-8859-15"@[10]);
    reveal_strlit("csisolatin9");
    assert(lower_seq("ISO-8859-16"@)[0] != "csisolatin9"@[0]);
    assert(is_label_iso8859_16(lower_seq("ISO-8859-16"@)));
}

proof fn lemma_round_trip_koi8_r()
    ensures
        spec_parse(spec_canonical_name(CharacterEncoding::KOI8R)) == Ok::<
            CharacterEncoding,
            UnrecognizedLabel,
        >(CharacterEncoding::KOI8R),
{
    reveal_strlit("KOI8-R");
    reveal_strlit("koi8-r");
    assert(lower_seq("KOI8-R"@) =~= "koi8-r"@);
    reveal_strlit("x-unicode20utf8");
    assert(lower_seq("KOI8-R"@) != "x-unicode20utf8"@);
    reveal_strlit("utf8");
    assert(lower_seq("KOI8-R"@) != "utf8"@);
    reveal_strlit("utf-8");
    assert(lower_seq("KOI8-R"@) != "utf-8"@);
    reveal_strlit("unicode20utf8");
    assert(lower_seq("KOI8-R"@) != "unicode20utf8"@);
    reveal_strlit("unicode11utf8");
    assert(lower_seq("KOI8-R"@) != "unicode11utf8"@);
    reveal_strlit("unicode-1-1-utf-8");
    assert(lower_seq("KOI8-R"@) != "unicode-1-1-utf-8"@);
    reveal_strlit("ibm866");
    assert(lower_seq("KOI8-R"@)[0] != "ibm866"@[0]);
    reveal_strlit("csibm866");
    assert(lower_seq("KOI8-R"@) != "csibm866"@);
    reveal_strlit("cp866");
    assert(lower_seq("KOI8-R"@) != "cp866"@);
    reveal_strlit("866");
    assert(lower_seq("KOI8-R"@) != "866"@);
    reveal_strlit("latin2");
    assert(lower_seq("KOI8-R"@)[0] != "latin2"@[0]);
    reveal_strlit("l2");
    assert(lower_seq("KOI8-R"@) != "l2"@);
    reveal_strlit("iso_8859-2:1987");
    assert(lower_seq("KOI8-R"@) != "iso_8859-2:1987"@);
    reveal_strlit("iso_8859-2");
    assert(lower_seq("KOI8-R"@) != "iso_8859-2"@);
    reveal_strlit("iso88592");
    assert(lower_seq("KOI8-R"@) != "iso88592"@);
    reveal_strlit("iso8859-2");
    assert(lower_seq("KOI8-R"@) != "iso8859-2"@);
    reveal_strlit("iso-ir-101");
    assert(lower_seq("KOI8-R"@) != "iso-ir-101"@);
    reveal_strlit("iso-8859-2");
    assert(lower_seq("KOI8-R"@) != "iso-8859-2"@);
    reveal_strlit("csisolatin2");
    assert(lower_seq("KOI8-R"@) != "csisolatin2"@);
    reveal_strlit("latin3");
    assert(lower_seq("KOI8-R"@)[0] != "latin3"@[0]);
    reveal_strlit("l3");
    assert(lower_seq("KOI8-R"@) != "l3"@);
    reveal_strlit("iso_8859-3:1988");
    assert(lower_seq("KOI8-R"@) != "iso_8859-3:1988"@);
    reveal_strlit("iso_8859-3");
    assert(lower_seq("KOI8-R"@) != "iso_8859-3"@);
    reveal_strlit("iso88593");
    assert(lower_seq("KOI8-R"@) != "iso88593"@);
    reveal_strlit("iso8859-3");
    assert(lower_seq("KOI8-R"@) != "iso8859-3"@);
    reveal_strlit("iso-ir-109");
    assert(lower_seq("KOI8-R"@) != "iso-ir-109"@);
    reveal_strlit("iso-8859-3");
    assert(lower_seq("KOI8-R"@) != "iso-8859-3"@);
    reveal_strlit("csisolatin3");
    assert(lower_seq("KOI8-R"@) != "csisolatin3"@);
    reveal_strlit("latin4");
    assert(lower_seq("KOI8-R"@)[0] != "latin4"@[0]);
    reveal_strlit("l4");
    assert(lower_seq("KOI8-R"@) != "l4"@);
    reveal_strlit("iso_8859-4:1988");
    assert(lower_seq("KOI8-R"@) != "iso_8859-4:1988"@);
    reveal_strlit("iso_8859-4");
    assert(lower_seq("KOI8-R"@) != "iso_8859-4"@);
    reveal_strlit("iso88594");
    assert(lower_seq("KOI8-R"@) != "iso88594"@);
    reveal_strlit("iso8859-4");
    assert(lower_seq("KOI8-R"@) != "iso8859-4"@);
    reveal_strlit("iso-ir-110");
    assert(lower_seq("KOI8-R"@) != "iso-ir-110"@);
    reveal_strlit("iso-8859-4");
    assert(lower_seq("KOI8-R"@) != "iso-8859-4"@);
    reveal_strlit("csisolatin4");
    assert(lower_seq("KOI8-R"@) != "csisolatin4"@);
    reveal_strlit("iso_8859-5:1988");
    assert(lower_seq("KOI8-R"@) != "iso_8859-5:1988"@);
    reveal_strlit("iso_8859-5");
    assert(lower_seq("KOI8-R"@) != "iso_8859-5"@);
    reveal_strlit("iso88595");
    assert(lower_seq("KOI8-R"@) != "iso88595"@);
    reveal_strlit("iso8859-5");
    assert(lower_seq("KOI8-R"@) != "iso8859-5"@);
    reveal_strlit("iso-ir-144");
    assert(lower_seq("KOI8-R"@) != "iso-ir-144"@);
    reveal_strlit("iso-8859-5");
    assert(lower_seq("KOI8-R"@) != "iso-8859-5"@);
    reveal_strlit("cyrillic");
    assert(lower_seq("KOI8-R"@) != "cyrillic"@);
    reveal_strlit("csisolatincyrillic");
    assert(lower_seq("KOI8-R"@) != "csisolatincyrillic"@);
    reveal_strlit("iso_8859-6:1987");
    assert(lower_seq("KOI8-R"@) != "iso_8859-6:1987"@);
    reveal_strlit("iso_8859-6");
    assert(lower_seq("KOI8-R"@) != "iso_8859-6"@);
    reveal_strlit("iso88596");
    assert(lower_seq("KOI8-R"@) != "iso88596"@);
    reveal_strlit("iso8859-6");
    assert(lower_seq("KOI8-R"@) != "iso8859-6"@);
    reveal_strlit("iso-ir-127");
    assert(lower_seq("KOI8-R"@) != "iso-ir-127"@);
    reveal_strlit("iso-8859-6-i");
    assert(lower_seq("KOI8-R"@) != "iso-8859-6-i"@);
    reveal_strlit("iso-8859-6-e");
    assert(lower_seq("KOI8-R"@) != "iso-8859-6-e"@);
    reveal_strlit("iso-8859-6");
    assert(lower_seq("KOI8-R"@) != "iso-8859-6"@);
    reveal_strlit("ecma-114");
    assert(lower_seq("KOI8-R"@) != "ecma-114"@);
    reveal_strlit("csisolatinarabic");
    assert(lower_seq("KOI8-R"@) != "csisolatinarabic"@);
    reveal_strlit("csiso88596i");
    assert(lower_seq("KOI8-R"@) != "csiso88596i"@);
    reveal_strlit("csiso88596e");
    assert(lower_seq("KOI8-R"@) != "csiso88596e"@);
    reveal_strlit("asmo-708");
    assert(lower_seq("KOI8-R"@) != "asmo-708"@);
    reveal_strlit("arabic");
    assert(lower_seq("KOI8-R"@)[0] != "arabic"@[0]);
    reveal_strlit("sun_eu_greek");
    assert(lower_seq("KOI8-R"@) != "sun_eu_greek"@);
    reveal_strlit("iso_8859-7:1987");
    assert(lower_seq("KOI8-R"@) != "iso_8859-7:1987"@);
    reveal_strlit("iso_8859-7");
    assert(lower_seq("KOI8-R"@) != "iso_8859-7"@);
    reveal_strlit("iso88597");
    assert(lower_seq("KOI8-R"@) != "iso88597"@);
    reveal_strlit("iso8859-7");
    assert(lower_seq("KOI8-R"@) != "iso8859-7"@);
    reveal_strlit("iso-ir-126");
    assert(lower_seq("KOI8-R"@) != "iso-ir-126"@);
    reveal_strlit("iso-8859-7");
    assert(lower_seq("KOI8-R"@) != "iso-8859-7"@);
    reveal_strlit("greek8");
    assert(lower_seq("KOI8-R"@)[0] != "greek8"@[0]);
    reveal_strlit("greek");
    assert(lower_seq("KOI8-R"@) != "greek"@);
    reveal_strlit("elot_928");
    assert(lower_seq("KOI8-R"@) != "elot_928"@);
    reveal_strlit("ecma-118");
    assert(lower_seq("KOI8-R"@) != "ecma-118"@);
    reveal_strlit("csisolatingreek");
    assert(lower_seq("KOI8-R"@) != "csisolatingreek"@);
    reveal_strlit("visual");
    assert(lower_seq("KOI8-R"@)[0] != "visual"@[0]);
    reveal_strlit("iso_8859-8:1988");
    assert(lower_seq("KOI8-R"@) != "iso_8859-8:1988"@);
    reveal_strlit("iso_8859-8");
    assert(lower_seq("KOI8-R"@) != "iso_8859-8"@);
    reveal_strlit("iso88598");
    assert(lower_seq("KOI8-R"@) != "iso88598"@);
    reveal_strlit("iso8859-8");
    assert(lower_seq("KOI8-R"@) != "iso8859-8"@);
    reveal_strlit("iso-ir-138");
    assert(lower_seq("KOI8-R"@) != "iso-ir-138"@);
    reveal_strlit("iso-8859-8-e");
    assert(lower_seq("KOI8-R"@) != "iso-8859-8-e"@);
    reveal_strlit("iso-8859-8");
    assert(lower_seq("KOI8-R"@) != "iso-8859-8"@);
    reveal_strlit("hebrew");
    assert(lower_seq("KOI8-R"@)[0] != "hebrew"@[0]);
    reveal_strlit("csisolatinhebrew");
    assert(lower_seq("KOI8-R"@) != "csisolatinhebrew"@);
    reveal_strlit("csiso88598e");
    assert(lower_seq("KOI8-R"@) != "csiso88598e"@);
    reveal_strlit("logical");
    assert(lower_seq("KOI8-R"@) != "logical"@);
    reveal_strlit("iso-8859-8-i");
    assert(lower_seq("KOI8-R"@) != "iso-8859-8-i"@);
    reveal_strlit("csiso88598i");
    assert(lower_seq("KOI8-R"@) != "csiso88598i"@);
    reveal_strlit("latin6");
    assert(lower_seq("KOI8-R"@)[0] != "latin6"@[0]);
    reveal_strlit("l6");
    assert(lower_seq("KOI8-R"@) != "l6"@);
    reveal_strlit("iso885910");
    assert(lower_seq("KOI8-R"@) != "iso885910"@);
    reveal_strlit("iso8859-10");
    assert(lower_seq("KOI8-R"@) != "iso8859-10"@);
    reveal_strlit("iso-ir-157");
    assert(lower_seq("KOI8-R"@) != "iso-ir-157"@);
    reveal_strlit("iso-8859-10");
    assert(lower_seq("KOI8-R"@) != "iso-8859-10"@);
    reveal_strlit("csisolatin6");
    assert(lower_seq("KOI8-R"@) != "csisolatin6"@);
    reveal_strlit("iso885913");
    assert(lower_seq("KOI8-R"@) != "iso885913"@);
    reveal_strlit("iso8859-13");
    assert(lower_seq("KOI8-R"@) != "iso8859-13"@);
    reveal_strlit("iso-8859-13");
    assert(lower_seq("KOI8-R"@) != "iso-8859-13"@);
    reveal_strlit("iso885914");
    assert(lower_seq("KOI8-R"@) != "iso885914"@);
    reveal_strlit("iso8859-14");
    assert(lower_seq("KOI8-R"@) != "iso8859-14"@);
    reveal_strlit("iso-8859-14");
    assert(lower_seq("KOI8-R"@) != "iso-8859-14"@);
    reveal_strlit("l9");
    assert(lower_seq("KOI8-R"@) != "l9"@);
    reveal_strlit("iso_8859-15");
    assert(lower_seq("KOI8-R"@) != "iso_8859-15"@);
    reveal_strlit("iso885915");
    assert(lower_seq("KOI8-R"@) != "iso885915"@);
    reveal_strlit("iso8859-15");
    assert(lower_seq("KOI8-R"@) != "iso8859-15"@);
    reveal_strlit("iso-8859-15");
    assert(lower_seq("KOI8-R"@) != "iso-8859-15"@);
    reveal_strlit("csisolatin9");
    assert(lower_seq("KOI8-R"@) != "csisolatin9"@);
    reveal_strlit("iso-8859-16");
    assert(lower_seq("KOI8-R"@) != "iso-8859-16"@);
    assert(is_label_koi8_r(lower_seq("KOI8-R"@)));
}

proof fn lemma_round_trip_koi8_u()
    ensures
        spec_parse(spec_canonical_name(CharacterEncoding::KOI8U)) == Ok::<
            CharacterEncoding,
            UnrecognizedLabel,
        >(CharacterEncoding::KOI8U),
{
    reveal_strlit("KOI8-U");
    reveal_strlit("koi8-u");
    assert(lower_seq("KOI8-U"@) =~= "koi8-u"@);
    reveal_strlit("x-unicode20utf8");
    assert(lower_seq("KOI8-U"@) != "x-unicode20utf8"@);
    reveal_strlit("utf8");
    assert(lower_seq("KOI8-U"@) != "utf8"@);
    reveal_strlit("utf-8");
    assert(lower_seq("KOI8-U"@) != "utf-8"@);
    reveal_strlit("unicode20utf8");
    assert(lower_seq("KOI8-U"@) != "unicode20utf8"@);
    reveal_strlit("unicode11utf8");
    assert(lower_seq("KOI8-U"@) != "unicode11utf8"@);
    reveal_strlit("unicode-1-1-utf-8");
    assert(lower_seq("KOI8-U"@) != "unicode-1-1-utf-8"@);
    reveal_strlit("ibm866");
    assert(lower_seq("KOI8-U"@)[0] != "ibm866"@[0]);
    reveal_strlit("csibm866");
    assert(lower_seq("KOI8-U"@) != "csibm866"@);
    reveal_strlit("cp866");
    assert(lower_seq("KOI8-U"@) != "cp866"@);
    reveal_strlit("866");
    assert(lower_seq("KOI8-U"@) != "866"@);
    reveal_strlit("latin2");
    assert(lower_seq("KOI8-U"@)[0] != "latin2"@[0]);
    reveal_strlit("l2");
    assert(lower_seq("KOI8-U"@) != "l2"@);
    reveal_strlit("iso_8859-2:1987");
    assert(lower_seq("KOI8-U"@) != "iso_8859-2:1987"@);
    reveal_strlit("iso_8859-2");
    assert(lower_seq("KOI8-U"@) != "iso_8859-2"@);
    reveal_strlit("iso88592");
    assert(lower_seq("KOI8-U"@) != "iso88592"@);
    reveal_strlit("iso8859-2");
    assert(lower_seq("KOI8-U"@) != "iso8859-2"@);
    reveal_strlit("iso-ir-101");
    assert(lower_seq("KOI8-U"@) != "iso-ir-101"@);
    reveal_strlit("iso-8859-2");
    assert(lower_seq("KOI8-U"@) != "iso-8859-2"@);
    reveal_strlit("csisolatin2");
    assert(lower_seq("KOI8-U"@) != "csisolatin2"@);
    reveal_strlit("latin3");
    assert(lower_seq("KOI8-U"@)[0] != "latin3"@[0]);
    reveal_strlit("l3");
    assert(lower_seq("KOI8-U"@) != "l3"@);
    reveal_strlit("iso_8859-3:1988");
    assert(lower_seq("KOI8-U"@) != "iso_8859-3:1988"@);
    reveal_strlit("iso_8859-3");
    assert(lower_seq("KOI8-U"@) != "iso_8859-3"@);
    reveal_strlit("iso88593");
    assert(lower_seq("KOI8-U"@) != "iso88593"@);
    reveal_strlit("iso8859-3");
    assert(lower_seq("KOI8-U"@) != "iso8859-3"@);
    reveal_strlit("iso-ir-109");
    assert(lower_seq("KOI8-U"@) != "iso-ir-109"@);
    reveal_strlit("iso-8859-3");
    assert(lower_seq("KOI8-U"@) != "iso-8859-3"@);
    reveal_strlit("csisolatin3");
    assert(lower_seq("KOI8-U"@) != "csisolatin3"@);
    reveal_strlit("latin4");
    assert(lower_seq("KOI8-U"@)[0] != "latin4"@[0]);
    reveal_strlit("l4");
    assert(lower_seq("KOI8-U"@) != "l4"@);
    reveal_strlit("iso_8859-4:1988");
    assert(lower_seq("KOI8-U"@) != "iso_8859-4:1988"@);
    reveal_strlit("iso_8859-4");
    assert(lower_seq("KOI8-U"@) != "iso_8859-4"@);
    reveal_strlit("iso88594");
    assert(lower_seq("KOI8-U"@) != "iso88594"@);
    reveal_strlit("iso8859-4");
    assert(lower_seq("KOI8-U"@) != "iso8859-4"@);
    reveal_strlit("iso-ir-110");
    assert(lower_seq("KOI8-U"@) != "iso-ir-110"@);
    reveal_strlit("iso-8859-4");
    assert(lower_seq("KOI8-U"@) != "iso-8859-4"@);
    reveal_strlit("csisolatin4");
    assert(lower_seq("KOI8-U"@) != "csisolatin4"@);
    reveal_strlit("iso_8859-5:1988");
    assert(lower_seq("KOI8-U"@) != "iso_8859-5:1988"@);
    reveal_strlit("iso_8859-5");
    assert(lower_seq("KOI8-U"@) != "iso_8859-5"@);
    reveal_strlit("iso88595");
    assert(lower_seq("KOI8-U"@) != "iso88595"@);
    reveal_strlit("iso8859-5");
    assert(lower_seq("KOI8-U"@) != "iso8859-5"@);
    reveal_strlit("iso-ir-144");
    assert(lower_seq("KOI8-U"@) != "iso-ir-144"@);
    reveal_strlit("iso-8859-5");
    assert(lower_seq("KOI8-U"@) != "iso-8859-5"@);
    reveal_strlit("cyrillic");
    assert(lower_seq("KOI8-U"@) != "cyrillic"@);
    reveal_strlit("csisolatincyrillic");
    assert(lower_seq("KOI8-U"@) != "csisolatincyrillic"@);
    reveal_strlit("iso_8859-6:1987");
    assert(lower_seq("KOI8-U"@) != "iso_8859-6:1987"@);
    reveal_strlit("iso_8859-6");
    assert(lower_seq("KOI8-U"@) != "iso_8859-6"@);
    reveal_strlit("iso88596");
    assert(lower_seq("KOI8-U"@) != "iso88596"@);
    reveal_strlit("iso8859-6");
    assert(lower_seq("KOI8-U"@) != "iso8859-6"@);
    reveal_strlit("iso-ir-127");
    assert(lower_seq("KOI8-U"@) != "iso-ir-127"@);
    reveal_strlit("iso-8859-6-i");
    assert(lower_seq("KOI8-U"@) != "iso-8859-6-i"@);
    reveal_strlit("iso-8859-6-e");
    assert(lower_seq("KOI8-U"@) != "iso-8859-6-e"@);
    reveal_strlit("iso-8859-6");
    assert(lower_seq("KOI8-U"@) != "iso-8859-6"@);
    reveal_strlit("ecma-114");
    assert(lower_seq("KOI8-U"@) != "ecma-114"@);
    reveal_strlit("csisolatinarabic");
    assert(lower_seq("KOI8-U"@) != "csisolatinarabic"@);
    reveal_strlit("csiso88596i");
    assert(lower_seq("KOI8-U"@) != "csiso88596i"@);
    reveal_strlit("csiso88596e");
    assert(lower_seq("KOI8-U"@) != "csiso88596e"@);
    reveal_strlit("asmo-708");
    assert(lower_seq("KOI8-U"@) != "asmo-708"@);
    reveal_strlit("arabic");
    assert(lower_seq("KOI8-U"@)[0] != "arabic"@[0]);
    reveal_strlit("sun_eu_greek");
    assert(lower_seq("KOI8-U"@) != "sun_eu_greek"@);
    reveal_strlit("iso_8859-7:1987");
    assert(lower_seq("KOI8-U"@) != "iso_8859-7:1987"@);
    reveal_strlit("iso_8859-7");
    assert(lower_seq("KOI8-U"@) != "iso_8859-7"@);
    reveal_strlit("iso88597");
    assert(lower_seq("KOI8-U"@) != "iso88597"@);
    reveal_strlit("iso8859-7");
    assert(lower_seq("KOI8-U"@) != "iso8859-7"@);
    reveal_strlit("iso-ir-126");
    assert(lower_seq("KOI8-U"@) != "iso-ir-126"@);
    reveal_strlit("iso-8859-7");
    assert(lower_seq("KOI8-U"@) != "iso-8859-7"@);
    reveal_strlit("greek8");
    assert(lower_seq("KOI8-U"@)[0] != "greek8"@[0]);
    reveal_strlit("greek");
    assert(lower_seq("KOI8-U"@) != "greek"@);
    reveal_strlit("elot_928");
    assert(lower_seq("KOI8-U"@) != "elot_928"@);
    reveal_strlit("ecma-118");
    assert(lower_seq("KOI8-U"@) != "ecma-118"@);
    reveal_strlit("csisolatingreek");
    assert(lower_seq("KOI8-U"@) != "csisolatingreek"@);
    reveal_strlit("visual");
    assert(lower_seq("KOI8-U"@)[0] != "visual"@[0]);
    reveal_strlit("iso_8859-8:1988");
    assert(lower_seq("KOI8-U"@) != "iso_8859-8:1988"@);
    reveal_strlit("iso_8859-8");
    assert(lower_seq("KOI8-U"@) != "iso_8859-8"@);
    reveal_strlit("iso88598");
    assert(lower_seq("KOI8-U"@) != "iso88598"@);
    reveal_strlit("iso8859-8");
    assert(lower_seq("KOI8-U"@) != "iso8859-8"@);
    reveal_strlit("iso-ir-138");
    assert(lower_seq("KOI8-U"@) != "iso-ir-138"@);
    reveal_strlit("iso-8859-8-e");
    assert(lower_seq("KOI8-U"@) != "iso-8859-8-e"@);
    reveal_strlit("iso-8859-8");
    assert(lower_seq("KOI8-U"@) != "iso-8859-8"@);
    reveal_strlit("hebrew");
    assert(lower_seq("KOI8-U"@)[0] != "hebrew"@[0]);
    reveal_strlit("csisolatinhebrew");
    assert(lower_seq("KOI8-U"@) != "csisolatinhebrew"@);
    reveal_strlit("csiso88598e");
    assert(lower_seq("KOI8-U"@) != "csiso88598e"@);
    reveal_strlit("logical");
    assert(lower_seq("KOI8-U"@) != "logical"@);
    reveal_strlit("iso-8859-8-i");
    assert(lower_seq("KOI8-U"@) != "iso-8859-8-i"@);
    reveal_strlit("csiso88598i");
    assert(lower_seq("KOI8-U"@) != "csiso88598i"@);
    reveal_strlit("latin6");
    assert(lower_seq("KOI8-U"@)[0] != "latin6"@[0]);
    reveal_strlit("l6");
    assert(lower_seq("KOI8-U"@) != "l6"@);
    reveal_strlit("iso885910");
    assert(lower_seq("KOI8-U"@) != "iso885910"@);
    reveal_strlit("iso8859-10");
    assert(lower_seq("KOI8-U"@) != "iso8859-10"@);
    reveal_strlit("iso-ir-157");
    assert(lower_seq("KOI8-U"@) != "iso-ir-157"@);
    reveal_strlit("iso-8859-10");
    assert(lower_seq("KOI8-U"@) != "iso-8859-10"@);
    reveal_strlit("csisolatin6");
    assert(lower_seq("KOI8-U"@) != "csisolatin6"@);
    reveal_strlit("iso885913");
    assert(lower_seq("KOI8-U"@) != "iso885913"@);
    reveal_strlit("iso8859-13");
    assert(lower_seq("KOI8-U"@) != "iso8859-13"@);
    reveal_strlit("iso-8859-13");
    assert(lower_seq("KOI8-U"@) != "iso-8859-13"@);
    reveal_strlit("iso885914");
    assert(lower_seq("KOI8-U"@) != "iso885914"@);
    reveal_strlit("iso8859-14");
    assert(lower_seq("KOI8-U"@) != "iso8859-14"@);
    reveal_strlit("iso-8859-14");
    assert(lower_seq("KOI8-U"@) != "iso-8859-14"@);
    reveal_strlit("l9");
    assert(lower_seq("KOI8-U"@) != "l9"@);
    reveal_strlit("iso_8859-15");
    assert(lower_seq("KOI8-U"@) != "iso_8859-15"@);
    reveal_strlit("iso885915");
    assert(lower_seq("KOI8-U"@) != "iso885915"@);
    reveal_strlit("iso8859-15");
    assert(lower_seq("KOI8-U"@) != "iso8859-15"@);
    reveal_strlit("iso-8859-15");
    assert(lower_seq("KOI8-U"@) != "iso-8859-15"@);
    reveal_strlit("csisolatin9");
    assert(lower_seq("KOI8-U"@) != "csisolatin9"@);
    reveal_strlit("iso-8859-16");
    assert(lower_seq("KOI8-U"@) != "iso-8859-16"@);
    reveal_strlit("koi8_r");
    assert(lower_seq("KOI8-U"@)[4] != "koi8_r"@[4]);
    reveal_strlit("koi8-r");
    assert(lower_seq("KOI8-U"@)[5] != "koi8-r"@[5]);
    reveal_strlit("koi8");
    assert(lower_seq("KOI8-U"@) != "koi8"@);
    reveal_strlit("koi");
    assert(lower_seq("KOI8-U"@) != "koi"@);
    reveal_strlit("cskoi8r");
    assert(lower_seq("KOI8-U"@) != "cskoi8r"@);
    assert(is_label_koi8_u(lower_seq("KOI8-U"@)));
}

proof fn lemma_round_trip_macintosh()
    ensures
        spec_parse(spec_canonical_name(CharacterEncoding::Macintosh)) == Ok::<
            CharacterEncoding,
            UnrecognizedLabel,
        >(CharacterEncoding::Macintosh),
{
    reveal_strlit("macintosh");
    reveal_strlit("macintosh");
    assert(lower_seq("macintosh"@) =~= "macintosh"@);
    reveal_strlit("x-unicode20utf8");
    assert(lower_seq("macintosh"@) != "x-unicode20utf8"@);
    reveal_strlit("utf8");
    assert(lower_seq("macintosh"@) != "utf8"@);
    reveal_strlit("utf-8");
    assert(lower_seq("macintosh"@) != "utf-8"@);
    reveal_strlit("unicode20utf8");
    assert(lower_seq("macintosh"@) != "unicode20utf8"@);
    reveal_strlit("unicode11utf8");
    assert(lower_seq("macintosh"@) != "unicode11utf8"@);
    reveal_strlit("unicode-1-1-utf-8");
    assert(lower_seq("macintosh"@) != "unicode-1-1-utf-8"@);
    reveal_strlit("ibm866");
    assert(lower_seq("macintosh"@) != "ibm866"@);
    reveal_strlit("csibm866");
    assert(lower_seq("macintosh"@) != "csibm866"@);
    reveal_strlit("cp866");
    assert(lower_seq("macintosh"@) != "cp866"@);
    reveal_strlit("866");
    assert(lower_seq("macintosh"@) != "866"@);
    reveal_strlit("latin2");
    assert(lower_seq("macintosh"@) != "latin2"@);
    reveal_strlit("l2");
    assert(lower_seq("macintosh"@) != "l2"@);
    reveal_strlit("iso_8859-2:1987");
    assert(lower_seq("macintosh"@) != "iso_8859-2:1987"@);
    reveal_strlit("iso_8859-2");
    assert(lower_seq("macintosh"@) != "iso_8859-2"@);
    reveal_strlit("iso88592");
    assert(lower_seq("macintosh"@) != "iso88592"@);
    reveal_strlit("iso8859-2");
    assert(lower_seq("macintosh"@)[0] != "iso8859-2"@[0]);
    reveal_strlit("iso-ir-101");
    assert(lower_seq("macintosh"@) != "iso-ir-101"@);
    reveal_strlit("iso-8859-2");
    assert(lower_seq("macintosh"@) != "iso-8859-2"@);
    reveal_strlit("csisolatin2");
    assert(lower_seq("macintosh"@) != "csisolatin2"@);
    reveal_strlit("latin3");
    assert(lower_seq("macintosh"@) != "latin3"@);
    reveal_strlit("l3");
    assert(lower_seq("macintosh"@) != "l3"@);
    reveal_strlit("iso_8859-3:1988");
    assert(lower_seq("macintosh"@) != "iso_8859-3:1988"@);
    reveal_strlit("iso_8859-3");
    assert(lower_seq("macintosh"@) != "iso_8859-3"@);
    reveal_strlit("iso88593");
    assert(lower_seq("macintosh"@) != "iso88593"@);
    reveal_strlit("iso8859-3");
    assert(lower_seq("macintosh"@)[0] != "iso8859-3"@[0]);
    reveal_strlit("iso-ir-109");
    assert(lower_seq("macintosh"@) != "iso-ir-109"@);
    reveal_strlit("iso-8859-3");
    assert(lower_seq("macintosh"@) != "iso-8859-3"@);
    reveal_strlit("csisolatin3");
    assert(lower_seq("macintosh"@) != "csisolatin3"@);
    reveal_strlit("latin4");
    assert(lower_seq("macintosh"@) != "latin4"@);
    reveal_strlit("l4");
    assert(lower_seq("macintosh"@) != "l4"@);
    reveal_strlit("iso_8859-4:1988");
    assert(lower_seq("macintosh"@) != "iso_8859-4:1988"@);
    reveal_strlit("iso_8859-4");
    assert(lower_seq("macintosh"@) != "iso_8859-4"@);
    reveal_strlit("iso88594");
    assert(lower_seq("macintosh"@) != "iso88594"@);
    reveal_strlit("iso8859-4");
    assert(lower_seq("macintosh"@)[0] != "iso8859-4"@[0]);
    reveal_strlit("iso-ir-110");
    assert(lower_seq("macintosh"@) != "iso-ir-110"@);
    reveal_strlit("iso-8859-4");
    assert(lower_seq("macintosh"@) != "iso-8859-4"@);
    reveal_strlit("csisolatin4");
    assert(lower_seq("macintosh"@) != "csisolatin4"@);
    reveal_strlit("iso_8859-5:1988");
    assert(lower_seq("macintosh"@) != "iso_8859-5:1988"@);
    reveal_strlit("iso_8859-5");
    assert(lower_seq("macintosh"@) != "iso_8859-5"@);
    reveal_strlit("iso88595");
    assert(lower_seq("macintosh"@) != "iso88595"@);
    reveal_strlit("iso8859-5");
    assert(lower_seq("macintosh"@)[0] != "iso8859-5"@[0]);
    reveal_strlit("iso-ir-144");
    assert(lower_seq("macintosh"@) != "iso-ir-144"@);
    reveal_strlit("iso-8859-5");
    assert(lower_seq("macintosh"@) != "iso-8859-5"@);
    reveal_strlit("cyrillic");
    assert(lower_seq("macintosh"@) != "cyrillic"@);
    reveal_strlit("csisolatincyrillic");
    assert(lower_seq("macintosh"@) != "csisolatincyrillic"@);
    reveal_strlit("iso_8859-6:1987");
    assert(lower_seq("macintosh"@) != "iso_8859-6:1987"@);
    reveal_strlit("iso_8859-6");
    assert(lower_seq("macintosh"@) != "iso_8859-6"@);
    reveal_strlit("iso88596");
    assert(lower_seq("macintosh"@) != "iso88596"@);
    reveal_strlit("iso8859-6");
    assert(lower_seq("macintosh"@)[0] != "iso8859-6"@[0]);
    reveal_strlit("iso-ir-127");
    assert(lower_seq("macintosh"@) != "iso-ir-127"@);
    reveal_strlit("iso-8859-6-i");
    assert(lower_seq("macintosh"@) != "iso-8859-6-i"@);
    reveal_strlit("iso-8859-6-e");
    assert(lower_seq("macintosh"@) != "iso-8859-6-e"@);
    reveal_strlit("iso-8859-6");
    assert(lower_seq("macintosh"@) != "iso-8859-6"@);
    reveal_strlit("ecma-114");
    assert(lower_seq("macintosh"@) != "ecma-114"@);
    reveal_strlit("csisolatinarabic");
    assert(lower_seq("macintosh"@) != "csisolatinarabic"@);
    reveal_strlit("csiso88596i");
    assert(lower_seq("macintosh"@) != "csiso88596i"@);
    reveal_strlit("csiso88596e");
    assert(lower_seq("macintosh"@) != "csiso88596e"@);
    reveal_strlit("asmo-708");
    assert(lower_seq("macintosh"@) != "asmo-708"@);
    reveal_strlit("arabic");
    assert(lower_seq("macintosh"@) != "arabic"@);
    reveal_strlit("sun_eu_greek");
    assert(lower_seq("macintosh"@) != "sun_eu_greek"@);
    reveal_strlit("iso_8859-7:1987");
    assert(lower_seq("macintosh"@) != "iso_8859-7:1987"@);
    reveal_strlit("iso_8859-7");
    assert(lower_seq("macintosh"@) != "iso_8859-7"@);
    reveal_strlit("iso88597");
    assert(lower_seq("macintosh"@) != "iso88597"@);
    reveal_strlit("iso8859-7");
    assert(lower_seq("macintosh"@)[0] != "iso8859-7"@[0]);
    reveal_strlit("iso-ir-126");
    assert(lower_seq("macintosh"@) != "iso-ir-126"@);
    reveal_strlit("iso-8859-7");
    assert(lower_seq("macintosh"@) != "iso-8859-7"@);
    reveal_strlit("greek8");
    assert(lower_seq("macintosh"@) != "greek8"@);
    reveal_strlit("greek");
    assert(lower_seq("macintosh"@) != "greek"@);
    reveal_strlit("elot_928");
    assert(lower_seq("macintosh"@) != "elot_928"@);
    reveal_strlit("ecma-118");
    assert(lower_seq("macintosh"@) != "ecma-118"@);
    reveal_strlit("csisolatingreek");
    assert(lower_seq("macintosh"@) != "csisolatingreek"@);
    reveal_strlit("visual");
    assert(lower_seq("macintosh"@) != "visual"@);
    reveal_strlit("iso_8859-8:1988");
    assert(lower_seq("macintosh"@) != "iso_8859-8:1988"@);
    reveal_strlit("iso_8859-8");
    assert(lower_seq("macintosh"@) != "iso_8859-8"@);
    reveal_strlit("iso88598");
    assert(lower_seq("macintosh"@) != "iso88598"@);
    reveal_strlit("iso8859-8");
    assert(lower_seq("macintosh"@)[0] != "iso8859-8"@[0]);
    reveal_strlit("iso-ir-138");
    assert(lower_seq("macintosh"@) != "iso-ir-138"@);
    reveal_strlit("iso-8859-8-e");
    assert(lower_seq("macintosh"@) != "iso-8859-8-e"@);
    reveal_strlit("iso-8859-8");
    assert(lower_seq("macintosh"@) != "iso-8859-8"@);
    reveal_strlit("hebrew");
    assert(lower_seq("macintosh"@) != "hebrew"@);
    reveal_strlit("csisolatinhebrew");
    assert(lower_seq("macintosh"@) != "csisolatinhebrew"@);
    reveal_strlit("csiso88598e");
    assert(lower_seq("macintosh"@) != "csiso88598e"@);
    reveal_strlit("logical");
    assert(lower_seq("macintosh"@) != "logical"@);
    reveal_strlit("iso-8859-8-i");
    assert(lower_seq("macintosh"@) != "iso-8859-8-i"@);
    reveal_strlit("csiso88598i");
    assert(lower_seq("macintosh"@) != "csiso88598i"@);
    reveal_strlit("latin6");
    assert(lower_seq("macintosh"@) != "latin6"@);
    reveal_strlit("l6");
    assert(lower_seq("macintosh"@) != "l6"@);
    reveal_strlit("iso885910");
    assert(lower_seq("macintosh"@)[0] != "iso885910"@[0]);
    reveal_strlit("iso8859-10");
    assert(lower_seq("macintosh"@) != "iso8859-10"@);
    reveal_strlit("iso-ir-157");
    assert(lower_seq("macintosh"@) != "iso-ir-157"@);
    reveal_strlit("iso-8859-10");
    assert(lower_seq("macintosh"@) != "iso-8859-10"@);
    reveal_strlit("csisolatin6");
    assert(lower_seq("macintosh"@) != "csisolatin6"@);
    reveal_strlit("iso885913");
    assert(lower_seq("macintosh"@)[0] != "iso885913"@[0]);
    reveal_strlit("iso8859-13");
    assert(lower_seq("macintosh"@) != "iso8859-13"@);
    reveal_strlit("iso-8859-13");
    assert(lower_seq("macintosh"@) != "iso-8859-13"@);
    reveal_strlit("iso885914");
    assert(lower_seq("macintosh"@)[0] != "iso885914"@[0]);
    reveal_strlit("iso8859-14");
    assert(lower_seq("macintosh"@) != "iso8859-14"@);
    reveal_strlit("iso-8859-14");
    assert(lower_seq("macintosh"@) != "iso-8859-14"@);
    reveal_strlit("l9");
    assert(lower_seq("macintosh"@) != "l9"@);
    reveal_strlit("iso_8859-15");
    assert(lower_seq("macintosh"@) != "iso_8859-15"@);
    reveal_strlit("iso885915");
    assert(lower_seq("macintosh"@)[0] != "iso885915"@[0]);
    reveal_strlit("iso8859-15");
    assert(lower_seq("macintosh"@) != "iso8859-15"@);
    reveal_strlit("iso-8859-15");
    assert(lower_seq("macintosh"@) != "iso-8859-15"@);
    reveal_strlit("csisolatin9");
    assert(lower_seq("macintosh"@) != "csisolatin9"@);
    reveal_strlit("iso-8859-16");
    assert(lower_seq("macintosh"@) != "iso-8859-16"@);
    reveal_strlit("koi8_r");
    assert(lower_seq("macintosh"@) != "koi8_r"@);
    reveal_strlit("koi8-r");
    assert(lower_seq("macintosh"@) != "koi8-r"@);
    reveal_strlit("koi8");
    assert(lower_seq("macintosh"@) != "koi8"@);
    reveal_strlit("koi");
    assert(lower_seq("macintosh"@) != "koi"@);
    reveal_strlit("cskoi8r");
    assert(lower_seq("macintosh"@) != "cskoi8r"@);
    reveal_strlit("koi8-u");
    assert(lower_seq("macintosh"@) != "koi8-u"@);
    reveal_strlit("koi8-ru");
    assert(lower_seq("macintosh"@) != "koi8-ru"@);
    assert(is_label_macintosh(lower_seq("macintosh"@)));
}

proof fn lemma_round_trip_windows874()
    ensures
        spec_parse(spec_canonical_name(CharacterEncoding::Windows874)) == Ok::<
            CharacterEncoding,
            UnrecognizedLabel,
        >(CharacterEncoding::Windows874),
{
    reveal_strlit("windows-874");
    reveal_strlit("windows-874");
    assert(lower_seq("windows-874"@) =~= "windows-874"@);
    reveal_strlit("x-unicode20utf8");
    assert(lower_seq("windows-874"@) != "x-unicode20utf8"@);
    reveal_strlit("utf8");
    assert(lower_seq("windows-874"@) != "utf8"@);
    reveal_strlit("utf-8");
    assert(lower_seq("windows-874"@) != "utf-8"@);
    reveal_strlit("unicode20utf8");
    assert(lower_seq("windows-874"@) != "unicode20utf8"@);
    reveal_strlit("unicode11utf8");
    assert(lower_seq("windows-874"@) != "unicode11utf8"@);
    reveal_strlit("unicode-1-1-utf-8");
    assert(lower_seq("windows-874"@) != "unicode-1-1-utf-8"@);
    reveal_strlit("ibm866");
    assert(lower_seq("windows-874"@) != "ibm866"@);
    reveal_strlit("csibm866");
    assert(lower_seq("windows-874"@) != "csibm866"@);
    reveal_strlit("cp866");
    assert(lower_seq("windows-874"@) != "cp866"@);
    reveal_strlit("866");
    assert(lower_seq("windows-874"@) != "866"@);
    reveal_strlit("latin2");
    assert(lower_seq("windows-874"@) != "latin2"@);
    reveal_strlit("l2");
    assert(lower_seq("windows-874"@) != "l2"@);
    reveal_strlit("iso_8859-2:1987");
    assert(lower_seq("windows-874"@) != "iso_8859-2:1987"@);
    reveal_strlit("iso_8859-2");
    assert(lower_seq("windows-874"@) != "iso_8859-2"@);
    reveal_strlit("iso88592");
    assert(lower_seq("windows-874"@) != "iso88592"@);
    reveal_strlit("iso8859-2");
    assert(lower_seq("windows-874"@) != "iso8859-2"@);
    reveal_strlit("iso-ir-101");
    assert(lower_seq("windows-874"@) != "iso-ir-101"@);
    reveal_strlit("iso-8859-2");
    assert(lower_seq("windows-874"@) != "iso-8859-2"@);
    reveal_strlit("csisolatin2");
    assert(lower_seq("windows-874"@)[0] != "csisolatin2"@[0]);
    reveal_strlit("latin3");
    assert(lower_seq("windows-874"@) != "latin3"@);
    reveal_strlit("l3");
    assert(lower_seq("windows-874"@) != "l3"@);
    reveal_strlit("iso_8859-3:1988");
    assert(lower_seq("windows-874"@) != "iso_8859-3:1988"@);
    reveal_strlit("iso_8859-3");
    assert(lower_seq("windows-874"@) != "iso_8859-3"@);
    reveal_strlit("iso88593");
    assert(lower_seq("windows-874"@) != "iso88593"@);
    reveal_strlit("iso8859-3");
    assert(lower_seq("windows-874"@) != "iso8859-3"@);
    reveal_strlit("iso-ir-109");
    assert(lower_seq("windows-874"@) != "iso-ir-109"@);
    reveal_strlit("iso-8859-3");
    assert(lower_seq("windows-874"@) != "iso-8859-3"@);
    reveal_strlit("csisolatin3");
    assert(lower_seq("windows-874"@)[0] != "csisolatin3"@[0]);
    reveal_strlit("latin4");
    assert(lower_seq("windows-874"@) != "latin4"@);
    reveal_strlit("l4");
    assert(lower_seq("windows-874"@) != "l4"@);
    reveal_strlit("iso_8859-4:1988");
    assert(lower_seq("windows-874"@) != "iso_8859-4:1988"@);
    reveal_strlit("iso_8859-4");
    assert(lower_seq("windows-874"@) != "iso_8859-4"@);
    reveal_strlit("iso88594");
    assert(lower_seq("windows-874"@) != "iso88594"@);
    reveal_strlit("iso8859-4");
    assert(lower_seq("windows-874"@) != "iso8859-4"@);
    reveal_strlit("iso-ir-110");
    assert(lower_seq("windows-874"@) != "iso-ir-110"@);
    reveal_strlit("iso-8859-4");
    assert(lower_seq("windows-874"@) != "iso-8859-4"@);
    reveal_strlit("csisolatin4");
    assert(lower_seq("windows-874"@)[0] != "csisolatin4"@[0]);
    reveal_strlit("iso_8859-5:1988");
    assert(lower_seq("windows-874"@) != "iso_8859-5:1988"@);
    reveal_strlit("iso_8859-5");
    assert(lower_seq("windows-874"@) != "iso_8859-5"@);
    reveal_strlit("iso88595");
    assert(lower_seq("windows-874"@) != "iso88595"@);
    reveal_strlit("iso8859-5");
    assert(lower_seq("windows-874"@) != "iso8859-5"@);
    reveal_strlit("iso-ir-144");
    assert(lower_seq("windows-874"@) != "iso-ir-144"@);
    reveal_strlit("iso-8859-5");
    assert(lower_seq("windows-874"@) != "iso-8859-5"@);
    reveal_strlit("cyrillic");
    assert(lower_seq("windows-874"@) != "cyrillic"@);
    reveal_strlit("csisolatincyrillic");
    assert(lower_seq("windows-874"@) != "csisolatincyrillic"@);
    reveal_strlit("iso_8859-6:1987");
    assert(lower_seq("windows-874"@) != "iso_8859-6:1987"@);
    reveal_strlit("iso_8859-6");
    assert(lower_seq("windows-874"@) != "iso_8859-6"@);
    reveal_strlit("iso88596");
    assert(lower_seq("windows-874"@) != "iso88596"@);
    reveal_strlit("iso8859-6");
    assert(lower_seq("windows-874"@) != "iso8859-6"@);
    reveal_strlit("iso-ir-127");
    assert(lower_seq("windows-874"@) != "iso-ir-127"@);
    reveal_strlit("iso-8859-6-i");
    assert(lower_seq("windows-874"@) != "iso-8859-6-i"@);
    reveal_strlit("iso-8859-6-e");
    assert(lower_seq("windows-874"@) != "iso-8859-6-e"@);
    reveal_strlit("iso-8859-6");
    assert(lower_seq("windows-874"@) != "iso-8859-6"@);
    reveal_strlit("ecma-114");
    assert(lower_seq("windows-874"@) != "ecma-114"@);
    reveal_strlit("csisolatinarabic");
    assert(lower_seq("windows-874"@) != "csisolatinarabic"@);
    reveal_strlit("csiso88596i");
    assert(lower_seq("windows-874"@)[0] != "csiso88596i"@[0]);
    reveal_strlit("csiso88596e");
    assert(lower_seq("windows-874"@)[0] != "csiso88596e"@[0]);
    reveal_strlit("asmo-708");
    assert(lower_seq("windows-874"@) != "asmo-708"@);
    reveal_strlit("arabic");
    assert(lower_seq("windows-874"@) != "arabic"@);
    reveal_strlit("sun_eu_greek");
    assert(lower_seq("windows-874"@) != "sun_eu_greek"@);
    reveal_strlit("iso_8859-7:1987");
    assert(lower_seq("windows-874"@) != "iso_8859-7:1987"@);
    reveal_strlit("iso_8859-7");
    assert(lower_seq("windows-874"@) != "iso_8859-7"@);
    reveal_strlit("iso88597");
    assert(lower_seq("windows-874"@) != "iso88597"@);
    reveal_strlit("iso8859-7");
    assert(lower_seq("windows-874"@) != "iso8859-7"@);
    reveal_strlit("iso-ir-126");
    assert(lower_seq("windows-874"@) != "iso-ir-126"@);
    reveal_strlit("iso-8859-7");
    assert(lower_seq("windows-874"@) != "iso-8859-7"@);
    reveal_strlit("greek8");
    assert(lower_seq("windows-874"@) != "greek8"@);
    reveal_strlit("greek");
    assert(lower_seq("windows-874"@) != "greek"@);
    reveal_strlit("elot_928");
    assert(lower_seq("windows-874"@) != "elot_928"@);
    reveal_strlit("ecma-118");
    assert(lower_seq("windows-874"@) != "ecma-118"@);
    reveal_strlit("csisolatingreek");
    assert(lower_seq("windows-874"@) != "csisolatingreek"@);
    reveal_strlit("visual");
    assert(lower_seq("windows-874"@) != "visual"@);
    reveal_strlit("iso_8859-8:1988");
    assert(lower_seq("windows-874"@) != "iso_8859-8:1988"@);
    reveal_strlit("iso_8859-8");
    assert(lower_seq("windows-874"@) != "iso_8859-8"@);
    reveal_strlit("iso88598");
    assert(lower_seq("windows-874"@) != "iso88598"@);
    reveal_strlit("iso8859-8");
    assert(lower_seq("windows-874"@) != "iso8859-8"@);
    reveal_strlit("iso-ir-138");
    assert(lower_seq("windows-874"@) != "iso-ir-138"@);
    reveal_strlit("iso-8859-8-e");
    assert(lower_seq("windows-874"@) != "iso-8859-8-e"@);
    reveal_strlit("iso-8859-8");
    assert(lower_seq("windows-874"@) != "iso-8859-8"@);
    reveal_strlit("hebrew");
    assert(lower_seq("windows-874"@) != "hebrew"@);
    reveal_strlit("csisolatinhebrew");
    assert(lower_seq("windows-874"@) != "csisolatinhebrew"@);
    reveal_strlit("csiso88598e");
    assert(lower_seq("windows-874"@)[0] != "csiso88598e"@[0]);
    reveal_strlit("logical");
    assert(lower_seq("windows-874"@) != "logical"@);
    reveal_strlit("iso-8859-8-i");
    assert(lower_seq("windows-874"@) != "iso-8859-8-i"@);
    reveal_strlit("csiso88598i");
    assert(lower_seq("windows-874"@)[0] != "csiso88598i"@[0]);
    reveal_strlit("latin6");
    assert(lower_seq("windows-874"@) != "latin6"@);
    reveal_strlit("l6");
    assert(lower_seq("windows-874"@) != "l6"@);
    reveal_strlit("iso885910");
    assert(lower_seq("windows-874"@) != "iso885910"@);
    reveal_strlit("iso8859-10");
    assert(lower_seq("windows-874"@) != "iso8859-10"@);
    reveal_strlit("iso-ir-157");
    assert(lower_seq("windows-874"@) != "iso-ir-157"@);
    reveal_strlit("iso-8859-10");
    assert(lower_seq("windows-874"@)[0] != "iso-8859-10"@[0]);
    reveal_strlit("csisolatin6");
    assert(lower_seq("windows-874"@)[0] != "csisolatin6"@[0]);
    reveal_strlit("iso885913");
    assert(lower_seq("windows-874"@) != "iso885913"@);
    reveal_strlit("iso8859-13");
    assert(lower_seq("windows-874"@) != "iso8859-13"@);
    reveal_strlit("iso-8859-13");
    assert(lower_seq("windows-874"@)[0] != "iso-8859-13"@[0]);
    reveal_strlit("iso885914");
    assert(lower_seq("windows-874"@) != "iso885914"@);
    reveal_strlit("iso8859-14");
    assert(lower_seq("windows-874"@) != "iso8859-14"@);
    reveal_strlit("iso-8859-14");
    assert(lower_seq("windows-874"@)[0] != "iso-8859-14"@[0]);
    reveal_strlit("l9");
    assert(lower_seq("windows-874"@) != "l9"@);
    reveal_strlit("iso_8859-15");
    assert(lower_seq("windows-874"@)[0] != "iso_8859-15"@[0]);
    reveal_strlit("iso885915");
    assert(lower_seq("windows-874"@) != "iso885915"@);
    reveal_strlit("iso8859-15");
    assert(lower_seq("windows-874"@) != "iso8859-15"@);
    reveal_strlit("iso-8859-15");
    assert(lower_seq("windows-874"@)[0] != "iso-8859-15"@[0]);
    reveal_strlit("csisolatin9");
    assert(lower_seq("windows-874"@)[0] != "csisolatin9"@[0]);
    reveal_strlit("iso-8859-16");
    assert(lower_seq("windows-874"@)[0] != "iso-8859-16"@[0]);
    reveal_strlit("koi8_r");
    assert(lower_seq("windows-874"@) != "koi8_r"@);
    reveal_strlit("koi8-r");
    assert(lower_seq("windows-874"@) != "koi8-r"@);
    reveal_strlit("koi8");
    assert(lower_seq("windows-874"@) != "koi8"@);
    reveal_strlit("koi");
    assert(lower_seq("windows-874"@) != "koi"@);
    reveal_strlit("cskoi8r");
    assert(lower_seq("windows-874"@) != "cskoi8r"@);
    reveal_strlit("koi8-u");
    assert(lower_seq("windows-874"@) != "koi8-u"@);
    reveal_strlit("koi8-ru");
    assert(lower_seq("windows-874"@) != "koi8-ru"@);
    reveal_strlit("x-mac-roman");
    assert(lower_seq("windows-874"@)[0] != "x-mac-roman"@[0]);
    reveal_strlit("macintosh");
    assert(lower_seq("windows-874"@) != "macintosh"@);
    reveal_strlit("mac");
    assert(lower_seq("windows-874"@) != "mac"@);
    reveal_strlit("csmacintosh");
    assert(lower_seq("windows-874"@)[0] != "csmacintosh"@[0]);
    assert(is_label_windows874(lower_seq("windows-874"@)));
}

proof fn lemma_round_trip_windows1250()
    ensures
        spec_parse(spec_canonical_name(CharacterEncoding::Windows1250)) == Ok::<
            CharacterEncoding,
            UnrecognizedLabel,
        >(CharacterEncoding::Windows1250),
{
    reveal_strlit("windows-1250");
    reveal_strlit("windows-1250");
    assert(lower_seq("windows-1250"@) =~= "windows-1250"@);
    reveal_strlit("x-unicode20utf8");
    assert(lower_seq("windows-1250"@) != "x-unicode20utf8"@);
    reveal_strlit("utf8");
    assert(lower_seq("windows-1250"@) != "utf8"@);
    reveal_strlit("utf-8");
    assert(lower_seq("windows-1250"@) != "utf-8"@);
    reveal_strlit("unicode20utf8");
    assert(lower_seq("windows-1250"@) != "unicode20utf8"@);
    reveal_strlit("unicode11utf8");
    assert(lower_seq("windows-1250"@) != "unicode11utf8"@);
    reveal_strlit("unicode-1-1-utf-8");
    assert(lower_seq("windows-1250"@) != "unicode-1-1-utf-8"@);
    reveal_strlit("ibm866");
    assert(lower_seq("windows-1250"@) != "ibm866"@);
    reveal_strlit("csibm866");
    assert(lower_seq("windows-1250"@) != "csibm866"@);
    reveal_strlit("cp866");
    assert(lower_seq("windows-1250"@) != "cp866"@);
    reveal_strlit("866");
    assert(lower_seq("windows-1250"@) != "866"@);
    reveal_strlit("latin2");
    assert(lower_seq("windows-1250"@) != "latin2"@);
    reveal_strlit("l2");
    assert(lower_seq("windows-1250"@) != "l2"@);
    reveal_strlit("iso_8859-2:1987");
    assert(lower_seq("windows-1250"@) != "iso_8859-2:1987"@);
    reveal_strlit("iso_8859-2");
    assert(lower_seq("windows-1250"@) != "iso_8859-2"@);
    reveal_strlit("iso88592");
    assert(lower_seq("windows-1250"@) != "iso88592"@);
    reveal_strlit("iso8859-2");
    assert(lower_seq("windows-1250"@) != "iso8859-2"@);
    reveal_strlit("iso-ir-101");
    assert(lower_seq("windows-1250"@) != "iso-ir-101"@);
    reveal_strlit("iso-8859-2");
    assert(lower_seq("windows-1250"@) != "iso-8859-2"@);
    reveal_strlit("csisolatin2");
    assert(lower_seq("windows-1250"@) != "csisolatin2"@);
    reveal_strlit("latin3");
    assert(lower_seq("windows-1250"@) != "latin3"@);
    reveal_strlit("l3");
    assert(lower_seq("windows-1250"@) != "l3"@);
    reveal_strlit("iso_8859-3:1988");
    assert(lower_seq("windows-1250"@) != "iso_8859-3:1988"@);
    reveal_strlit("iso_8859-3");
    assert(lower_seq("windows-1250"@) != "iso_8859-3"@);
    reveal_strlit("iso88593");
    assert(lower_seq("windows-1250"@) != "iso88593"@);
    reveal_strlit("iso8859-3");
    assert(lower_seq("windows-1250"@) != "iso8859-3"@);
    reveal_strlit("iso-ir-109");
    assert(lower_seq("windows-1250"@) != "iso-ir-109"@);
    reveal_strlit("iso-8859-3");
    assert(lower_seq("windows-1250"@) != "iso-8859-3"@);
    reveal_strlit("csisolatin3");
    assert(lower_seq("windows-1250"@) != "csisolatin3"@);
    reveal_strlit("latin4");
    assert(lower_seq("windows-1250"@) != "latin4"@);
    reveal_strlit("l4");
    assert(lower_seq("windows-1250"@) != "l4"@);
    reveal_strlit("iso_8859-4:1988");
    assert(lower_seq("windows-1250"@) != "iso_8859-4:1988"@);
    reveal_strlit("iso_8859-4");
    assert(lower_seq("windows-1250"@) != "iso_8859-4"@);
    reveal_strlit("iso88594");
    assert(lower_seq("windows-1250"@) != "iso88594"@);
    reveal_strlit("iso8859-4");
    assert(lower_seq("windows-1250"@) != "iso8859-4"@);
    reveal_strlit("iso-ir-110");
    assert(lower_seq("windows-1250"@) != "iso-ir-110"@);
    reveal_strlit("iso-8859-4");
    assert(lower_seq("windows-1250"@) != "iso-8859-4"@);
    reveal_strlit("csisolatin4");
    assert(lower_seq("windows-1250"@) != "csisolatin4"@);
    reveal_strlit("iso_8859-5:1988");
    assert(lower_seq("windows-1250"@) != "iso_8859-5:1988"@);
    reveal_strlit("iso_8859-5");
    assert(lower_seq("windows-1250"@) != "iso_8859-5"@);
    reveal_strlit("iso88595");
    assert(lower_seq("windows-1250"@) != "iso88595"@);
    reveal_strlit("iso8859-5");
    assert(lower_seq("windows-1250"@) != "iso8859-5"@);
    reveal_strlit("iso-ir-144");
    assert(lower_seq("windows-1250"@) != "iso-ir-144"@);
    reveal_strlit("iso-8859-5");
    assert(lower_seq("windows-1250"@) != "iso-8859-5"@);
    reveal_strlit("cyrillic");
    assert(lower_seq("windows-1250"@) != "cyrillic"@);
    reveal_strlit("csisolatincyrillic");
    assert(lower_seq("windows-1250"@) != "csisolatincyrillic"@);
    reveal_strlit("iso_8859-6:1987");
    assert(lower_seq("windows-1250"@) != "iso_8859-6:1987"@);
    reveal_strlit("iso_8859-6");
    assert(lower_seq("windows-1250"@) != "iso_8859-6"@);
    reveal_strlit("iso88596");
    assert(lower_seq("windows-1250"@) != "iso88596"@);
    reveal_strlit("iso8859-6");
    assert(lower_seq("windows-1250"@) != "iso8859-6"@);
    reveal_strlit("iso-ir-127");
    assert(lower_seq("windows-1250"@) != "iso-ir-127"@);
    reveal_strlit("iso-8859-6-i");
    assert(lower_seq("windows-1250"@)[0] != "iso-8859-6-i"@[0]);
    reveal_strlit("iso-8859-6-e");
    assert(lower_seq("windows-1250"@)[0] != "iso-8859-6-e"@[0]);
    reveal_strlit("iso-8859-6");
    assert(lower_seq("windows-1250"@) != "iso-8859-6"@);
    reveal_strlit("ecma-114");
    assert(lower_seq("windows-1250"@) != "ecma-114"@);
    reveal_strlit("csisolatinarabic");
    assert(lower_seq("windows-1250"@) != "csisolatinarabic"@);
    reveal_strlit("csiso88596i");
    assert(lower_seq("windows-1250"@) != "csiso88596i"@);
    reveal_strlit("csiso88596e");
    assert(lower_seq("windows-1250"@) != "csiso88596e"@);
    reveal_strlit("asmo-708");
    assert(lower_seq("windows-1250"@) != "asmo-708"@);
    reveal_strlit("arabic");
    assert(lower_seq("windows-1250"@) != "arabic"@);
    reveal_strlit("sun_eu_greek");
    assert(lower_seq("windows-1250"@)[0] != "sun_eu_greek"@[0]);
    reveal_strlit("iso_8859-7:1987");
    assert(lower_seq("windows-1250"@) != "iso_8859-7:1987"@);
    reveal_strlit("iso_8859-7");
    assert(lower_seq("windows-1250"@) != "iso_8859-7"@);
    reveal_strlit("iso88597");
    assert(lower_seq("windows-1250"@) != "iso88597"@);
    reveal_strlit("iso8859-7");
    assert(lower_seq("windows-1250"@) != "iso8859-7"@);
    reveal_strlit("iso-ir-126");
    assert(lower_seq("windows-1250"@) != "iso-ir-126"@);
    reveal_strlit("iso-8859-7");
    assert(lower_seq("windows-1250"@) != "iso-8859-7"@);
    reveal_strlit("greek8");
    assert(lower_seq("windows-1250"@) != "greek8"@);
    reveal_strlit("greek");
    assert(lower_seq("windows-1250"@) != "greek"@);
    reveal_strlit("elot_928");
    assert(lower_seq("windows-1250"@) != "elot_928"@);
    reveal_strlit("ecma-118");
    assert(lower_seq("windows-1250"@) != "ecma-118"@);
    reveal_strlit("csisolatingreek");
    assert(lower_seq("windows-1250"@) != "csisolatingreek"@);
    reveal_strlit("visual");
    assert(lower_seq("windows-1250"@) != "visual"@);
    reveal_strlit("iso_8859-8:1988");
    assert(lower_seq("windows-1250"@) != "iso_8859-8:1988"@);
    reveal_strlit("iso_8859-8");
    assert(lower_seq("windows-1250"@) != "iso_8859-8"@);
    reveal_strlit("iso88598");
    assert(lower_seq("windows-1250"@) != "iso88598"@);
    reveal_strlit("iso8859-8");
    assert(lower_seq("windows-1250"@) != "iso8859-8"@);
    reveal_strlit("iso-ir-138");
    assert(lower_seq("windows-1250"@) != "iso-ir-138"@);
    reveal_strlit("iso-8859-8-e");
    assert(lower_seq("windows-1250"@)[0] != "iso-8859-8-e"@[0]);
    reveal_strlit("iso-8859-8");
    assert(lower_seq("windows-1250"@) != "iso-8859-8"@);
    reveal_strlit("hebrew");
    assert(lower_seq("windows-1250"@) != "hebrew"@);
    reveal_strlit("csisolatinhebrew");
    assert(lower_seq("windows-1250"@) != "csisolatinhebrew"@);
    reveal_strlit("csiso88598e");
    assert(lower_seq("windows-1250"@) != "csiso88598e"@);
    reveal_strlit("logical");
    assert(lower_seq("windows-1250"@) != "logical"@);
    reveal_strlit("iso-8859-8-i");
    assert(lower_seq("windows-1250"@)[0] != "iso-8859-8-i"@[0]);
    reveal_strlit("csiso88598i");
    assert(lower_seq("windows-1250"@) != "csiso88598i"@);
    reveal_strlit("latin6");
    assert(lower_seq("windows-1250"@) != "latin6"@);
    reveal_strlit("l6");
    assert(lower_seq("windows-1250"@) != "l6"@);
    reveal_strlit("iso885910");
    assert(lower_seq("windows-1250"@) != "iso885910"@);
    reveal_strlit("iso8859-10");
    assert(lower_seq("windows-1250"@) != "iso8859-10"@);
    reveal_strlit("iso-ir-157");
    assert(lower_seq("windows-1250"@) != "iso-ir-157"@);
    reveal_strlit("iso-8859-10");
    assert(lower_seq("windows-1250"@) != "iso-8859-10"@);
    reveal_strlit("csisolatin6");
    assert(lower_seq("windows-1250"@) != "csisolatin6"@);
    reveal_strlit("iso885913");
    assert(lower_seq("windows-1250"@) != "iso885913"@);
    reveal_strlit("iso8859-13");
    assert(lower_seq("windows-1250"@) != "iso8859-13"@);
    reveal_strlit("iso-8859-13");
    assert(lower_seq("windows-1250"@) != "iso-8859-13"@);
    reveal_strlit("iso885914");
    assert(lower_seq("windows-1250"@) != "iso885914"@);
    reveal_strlit("iso8859-14");
    assert(lower_seq("windows-1250"@) != "iso8859-14"@);
    reveal_strlit("iso-8859-14");
    assert(lower_seq("windows-1250"@) != "iso-8859-14"@);
    reveal_strlit("l9");
    assert(lower_seq("windows-1250"@) != "l9"@);
    reveal_strlit("iso_8859-15");
    assert(lower_seq("windows-1250"@) != "iso_8859-15"@);
    reveal_strlit("iso885915");
    assert(lower_seq("windows-1250"@) != "iso885915"@);
    reveal_strlit("iso8859-15");
    assert(lower_seq("windows-1250"@) != "iso8859-15"@);
    reveal_strlit("iso-8859-15");
    assert(lower_seq("windows-1250"@) != "iso-8859-15"@);
    reveal_strlit("csisolatin9");
    assert(lower_seq("windows-1250"@) != "csisolatin9"@);
    reveal_strlit("iso-8859-16");
    assert(lower_seq("windows-1250"@) != "iso-8859-16"@);
    reveal_strlit("koi8_r");
    assert(lower_seq("windows-1250"@) != "koi8_r"@);
    reveal_strlit("koi8-r");
    assert(lower_seq("windows-1250"@) != "koi8-r"@);
    reveal_strlit("koi8");
    assert(lower_seq("windows-1250"@) != "koi8"@);
    reveal_strlit("koi");
    assert(lower_seq("windows-1250"@) != "koi"@);
    reveal_strlit("cskoi8r");
    assert(lower_seq("windows-1250"@) != "cskoi8r"@);
    reveal_strlit("koi8-u");
    assert(lower_seq("windows-1250"@) != "koi8-u"@);
    reveal_strlit("koi8-ru");
    assert(lower_seq("windows-1250"@) != "koi8-ru"@);
    reveal_strlit("x-mac-roman");
    assert(lower_seq("windows-1250"@) != "x-mac-roman"@);
    reveal_strlit("macintosh");
    assert(lower_seq("windows-1250"@) != "macintosh"@);
    reveal_strlit("mac");
    assert(lower_seq("windows-1250"@) != "mac"@);
    reveal_strlit("csmacintosh");
    assert(lower_seq("windows-1250"@) != "csmacintosh"@);
    reveal_strlit("windows-874");
    assert(lower_seq("windows-1250"@) != "windows-874"@);
    reveal_strlit("tis-620");
    assert(lower_seq("windows-1250"@) != "tis-620"@);
    reveal_strlit("iso885911");
    assert(lower_seq("windows-1250"@) != "iso885911"@);
    reveal_strlit("iso8859-11");
    assert(lower_seq("windows-1250"@) != "iso8859-11"@);
    reveal_strlit("iso-8859-11");
    assert(lower_seq("windows-1250"@) != "iso-8859-11"@);
    reveal_strlit("dos-874");
    assert(lower_seq("windows-1250"@) != "dos-874"@);
    assert(is_label_windows1250(lower_seq("windows-1250"@)));
}

proof fn lemma_round_trip_windows1251()
    ensures
        spec_parse(spec_canonical_name(CharacterEncoding::Windows1251)) == Ok::<
            CharacterEncoding,
            UnrecognizedLabel,
        >(CharacterEncoding::Windows1251),
{
    reveal_strlit("windows-1251");
    reveal_strlit("windows-1251");
    assert(lower_seq("windows-1251"@) =~= "windows-1251"@);
    reveal_strlit("x-unicode20utf8");
    assert(lower_seq("windows-1251"@) != "x-unicode20utf8"@);
    reveal_strlit("utf8");
    assert(lower_seq("windows-1251"@) != "utf8"@);
    reveal_strlit("utf-8");
    assert(lower_seq("windows-1251"@) != "utf-8"@);
    reveal_strlit("unicode20utf8");
    assert(lower_seq("windows-1251"@) != "unicode20utf8"@);
    reveal_strlit("unicode11utf8");
    assert(lower_seq("windows-1251"@) != "unicode11utf8"@);
    reveal_strlit("unicode-1-1-utf-8");
    assert(lower_seq("windows-1251"@) != "unicode-1-1-utf-8"@);
    reveal_strlit("ibm866");
    assert(lower_seq("windows-1251"@) != "ibm866"@);
    reveal_strlit("csibm866");
    assert(lower_seq("windows-1251"@) != "csibm866"@);
    reveal_strlit("cp866");
    assert(lower_seq("windows-1251"@) != "cp866"@);
    reveal_strlit("866");
    assert(lower_seq("windows-1251"@) != "866"@);
    reveal_strlit("latin2");
    assert(lower_seq("windows-1251"@) != "latin2"@);
    reveal_strlit("l2");
    assert(lower_seq("windows-1251"@) != "l2"@);
    reveal_strlit("iso_8859-2:1987");
    assert(lower_seq("windows-1251"@) != "iso_8859-2:1987"@);
    reveal_strlit("iso_8859-2");
    assert(lower_seq("windows-1251"@) != "iso_8859-2"@);
    reveal_strlit("iso88592");
    assert(lower_seq("windows-1251"@) != "iso88592"@);
    reveal_strlit("iso8859-2");
    assert(lower_seq("windows-1251"@) != "iso8859-2"@);
    reveal_strlit("iso-ir-101");
    assert(lower_seq("windows-1251"@) != "iso-ir-101"@);
    reveal_strlit("iso-8859-2");
    assert(lower_seq("windows-1251"@) != "iso-8859-2"@);
    reveal_strlit("csisolatin2");
    assert(lower_seq("windows-1251"@) != "csisolatin2"@);
    reveal_strlit("latin3");
    assert(lower_seq("windows-1251"@) != "latin3"@);
    reveal_strlit("l3");
    assert(lower_seq("windows-1251"@) != "l3"@);
    reveal_strlit("iso_8859-3:1988");
    assert(lower_seq("windows-1251"@) != "iso_8859-3:1988"@);
    reveal_strlit("iso_8859-3");
    assert(lower_seq("windows-1251"@) != "iso_8859-3"@);
    reveal_strlit("iso88593");
    assert(lower_seq("windows-1251"@) != "iso88593"@);
    reveal_strlit("iso8859-3");
    assert(lower_seq("windows-1251"@) != "iso8859-3"@);
    reveal_strlit("iso-ir-109");
    assert(lower_seq("windows-1251"@) != "iso-ir-109"@);
    reveal_strlit("iso-8859-3");
    assert(lower_seq("windows-1251"@) != "iso-8859-3"@);
    reveal_strlit("csisolatin3");
    assert(lower_seq("windows-1251"@) != "csisolatin3"@);
    reveal_strlit("latin4");
    assert(lower_seq("windows-1251"@) != "latin4"@);
    reveal_strlit("l4");
    assert(lower_seq("windows-1251"@) != "l4"@);
    reveal_strlit("iso_8859-4:1988");
    assert(lower_seq("windows-1251"@) != "iso_8859-4:1988"@);
    reveal_strlit("iso_8859-4");
    assert(lower_seq("windows-1251"@) != "iso_8859-4"@);
    reveal_strlit("iso88594");
    assert(lower_seq("windows-1251"@) != "iso88594"@);
    reveal_strlit("iso8859-4");
    assert(lower_seq("windows-1251"@) != "iso8859-4"@);
    reveal_strlit("iso-ir-110");
    assert(lower_seq("windows-1251"@) != "iso-ir-110"@);
    reveal_strlit("iso-8859-4");
    assert(lower_seq("windows-1251"@) != "iso-8859-4"@);
    reveal_strlit("csisolatin4");
    assert(lower_seq("windows-1251"@) != "csisolatin4"@);
    reveal_strlit("iso_8859-5:1988");
    assert(lower_seq("windows-1251"@) != "iso_8859-5:1988"@);
    reveal_strlit("iso_8859-5");
    assert(lower_seq("windows-1251"@) != "iso_8859-5"@);
    reveal_strlit("iso88595");
    assert(lower_seq("windows-1251"@) != "iso88595"@);
    reveal_strlit("iso8859-5");
    assert(lower_seq("windows-1251"@) != "iso8859-5"@);
    reveal_strlit("iso-ir-144");
    assert(lower_seq("windows-1251"@) != "iso-ir-144"@);
    reveal_strlit("iso-8859-5");
    assert(lower_seq("windows-1251"@) != "iso-8859-5"@);
    reveal_strlit("cyrillic");
    assert(lower_seq("windows-1251"@) != "cyrillic"@);
    reveal_strlit("csisolatincyrillic");
    assert(lower_seq("windows-1251"@) != "csisolatincyrillic"@);
    reveal_strlit("iso_8859-6:1987");
    assert(lower_seq("windows-1251"@) != "iso_8859-6:1987"@);
    reveal_strlit("iso_8859-6");
    assert(lower_seq("windows-1251"@) != "iso_8859-6"@);
    reveal_strlit("iso88596");
    assert(lower_seq("windows-1251"@) != "iso88596"@);
    reveal_strlit("iso8859-6");
    assert(lower_seq("windows-1251"@) != "iso8859-6"@);
    reveal_strlit("iso-ir-127");
    assert(lower_seq("windows-1251"@) != "iso-ir-127"@);
    reveal_strlit("iso-8859-6-i");
    assert(lower_seq("windows-1251"@)[0] != "iso-8859-6-i"@[0]);
    reveal_strlit("iso-8859-6-e");
    assert(lower_seq("windows-1251"@)[0] != "iso-8859-6-e"@[0]);
    reveal_strlit("iso-8859-6");
    assert(lower_seq("windows-1251"@) != "iso-8859-6"@);
    reveal_strlit("ecma-114");
    assert(lower_seq("windows-1251"@) != "ecma-114"@);
    reveal_strlit("csisolatinarabic");
    assert(lower_seq("windows-1251"@) != "csisolatinarabic"@);
    reveal_strlit("csiso88596i");
    assert(lower_seq("windows-1251"@) != "csiso88596i"@);
    reveal_strlit("csiso88596e");
    assert(lower_seq("windows-1251"@) != "csiso88596e"@);
    reveal_strlit("asmo-708");
    assert(lower_seq("windows-1251"@) != "asmo-708"@);
    reveal_strlit("arabic");
    assert(lower_seq("windows-1251"@) != "arabic"@);
    reveal_strlit("sun_eu_greek");
    assert(lower_seq("windows-1251"@)[0] != "sun_eu_greek"@[0]);
    reveal_strlit("iso_8859-7:1987");
    assert(lower_seq("windows-1251"@) != "iso_8859-7:1987"@);
    reveal_strlit("iso_8859-7");
    assert(lower_seq("windows-1251"@) != "iso_8859-7"@);
    reveal_strlit("iso88597");
    assert(lower_seq("windows-1251"@) != "iso88597"@);
    reveal_strlit("iso8859-7");
    assert(lower_seq("windows-1251"@) != "iso8859-7"@);
    reveal_strlit("iso-ir-126");
    assert(lower_seq("windows-1251"@) != "iso-ir-126"@);
    reveal_strlit("iso-8859-7");
    assert(lower_seq("windows-1251"@) != "iso-8859-7"@);
    reveal_strlit("greek8");
    assert(lower_seq("windows-1251"@) != "greek8"@);
    reveal_strlit("greek");
    assert(lower_seq("windows-1251"@) != "greek"@);
    reveal_strlit("elot_928");
    assert(lower_seq("windows-1251"@) != "elot_928"@);
    reveal_strlit("ecma-118");
    assert(lower_seq("windows-1251"@) != "ecma-118"@);
    reveal_strlit("csisolatingreek");
    assert(lower_seq("windows-1251"@) != "csisolatingreek"@);
    reveal_strlit("visual");
    assert(lower_seq("windows-1251"@) != "visual"@);
    reveal_strlit("iso_8859-8:1988");
    assert(lower_seq("windows-1251"@) != "iso_8859-8:1988"@);
    reveal_strlit("iso_8859-8");
    assert(lower_seq("windows-1251"@) != "iso_8859-8"@);
    reveal_strlit("iso88598");
    assert(lower_seq("windows-1251"@) != "iso88598"@);
    reveal_strlit("iso8859-8");
    assert(lower_seq("windows-1251"@) != "iso8859-8"@);
    reveal_strlit("iso-ir-138");
    assert(lower_seq("windows-1251"@) != "iso-ir-138"@);
    reveal_strlit("iso-8859-8-e");
    assert(lower_seq("windows-1251"@)[0] != "iso-8859-8-e"@[0]);
    reveal_strlit("iso-8859-8");
    assert(lower_seq("windows-1251"@) != "iso-8859-8"@);
    reveal_strlit("hebrew");
    assert(lower_seq("windows-1251"@) != "hebrew"@);
    reveal_strlit("csisolatinhebrew");
    assert(lower_seq("windows-1251"@) != "csisolatinhebrew"@);
    reveal_strlit("csiso88598e");
    assert(lower_seq("windows-1251"@) != "csiso88598e"@);
    reveal_strlit("logical");
    assert(lower_seq("windows-1251"@) != "logical"@);
    reveal_strlit("iso-8859-8-i");
    assert(lower_seq("windows-1251"@)[0] != "iso-8859-8-i"@[0]);
    reveal_strlit("csiso88598i");
    assert(lower_seq("windows-1251"@) != "csiso88598i"@);
    reveal_strlit("latin6");
    assert(lower_seq("windows-1251"@) != "latin6"@);
    reveal_strlit("l6");
    assert(lower_seq("windows-1251"@) != "l6"@);
    reveal_strlit("iso885910");
    assert(lower_seq("windows-1251"@) != "iso885910"@);
    reveal_strlit("iso8859-10");
    assert(lower_seq("windows-1251"@) != "iso8859-10"@);
    reveal_strlit("iso-ir-157");
    assert(lower_seq("windows-1251"@) != "iso-ir-157"@);
    reveal_strlit("iso-8859-10");
    assert(lower_seq("windows-1251"@) != "iso-8859-10"@);
    reveal_strlit("csisolatin6");
    assert(lower_seq("windows-1251"@) != "csisolatin6"@);
    reveal_strlit("iso885913");
    assert(lower_seq("windows-1251"@) != "iso885913"@);
    reveal_strlit("iso8859-13");
    assert(lower_seq("windows-1251"@) != "iso8859-13"@);
    reveal_strlit("iso-8859-13");
    assert(lower_seq("windows-1251"@) != "iso-8859-13"@);
    reveal_strlit("iso885914");
    assert(lower_seq("windows-1251"@) != "iso885914"@);
    reveal_strlit("iso8859-14");
    assert(lower_seq("windows-1251"@) != "iso8859-14"@);
    reveal_strlit("iso-8859-14");
    assert(lower_seq("windows-1251"@) != "iso-8859-14"@);
    reveal_strlit("l9");
    assert(lower_seq("windows-1251"@) != "l9"@);
    reveal_strlit("iso_8859-15");
    assert(lower_seq("windows-1251"@) != "iso_8859-15"@);
    reveal_strlit("iso885915");
    assert(lower_seq("windows-1251"@) != "iso885915"@);
    reveal_strlit("iso8859-15");
    assert(lower_seq("windows-1251"@) != "iso8859-15"@);
    reveal_strlit("iso-8859-15");
    assert(lower_seq("windows-1251"@) != "iso-8859-15"@);
    reveal_strlit("csisolatin9");
    assert(lower_seq("windows-1251"@) != "csisolatin9"@);
    reveal_strlit("iso-8859-16");
    assert(lower_seq("windows-1251"@) != "iso-8859-16"@);
    reveal_strlit("koi8_r");
    assert(lower_seq("windows-1251"@) != "koi8_r"@);
    reveal_strlit("koi8-r");
    assert(lower_seq("windows-1251"@) != "koi8-r"@);
    reveal_strlit("koi8");
    assert(lower_seq("windows-1251"@) != "koi8"@);
    reveal_strlit("koi");
    assert(lower_seq("windows-1251"@) != "koi"@);
    reveal_strlit("cskoi8r");
    assert(lower_seq("windows-1251"@) != "cskoi8r"@);
    reveal_strlit("koi8-u");
    assert(lower_seq("windows-1251"@) != "koi8-u"@);
    reveal_strlit("koi8-ru");
    assert(lower_seq("windows-1251"@) != "koi8-ru"@);
    reveal_strlit("x-mac-roman");
    assert(lower_seq("windows-1251"@) != "x-mac-roman"@);
    reveal_strlit("macintosh");
    assert(lower_seq("windows-1251"@) != "macintosh"@);
    reveal_strlit("mac");
    assert(lower_seq("windows-1251"@) != "mac"@);
    reveal_strlit("csmacintosh");
    assert(lower_seq("windows-1251"@) != "csmacintosh"@);
    reveal_strlit("windows-874");
    assert(lower_seq("windows-1251"@) != "windows-874"@);
    reveal_strlit("tis-620");
    assert(lower_seq("windows-1251"@) != "tis-620"@);
    reveal_strlit("iso885911");
    assert(lower_seq("windows-1251"@) != "iso885911"@);
    reveal_strlit("iso8859-11");
    assert(lower_seq("windows-1251"@) != "iso8859-11"@);
    reveal_strlit("iso-8859-11");
    assert(lower_seq("windows-1251"@) != "iso-8859-11"@);
    reveal_strlit("dos-874");
    assert(lower_seq("windows-1251"@) != "dos-874"@);
    reveal_strlit("x-cp1250");
    assert(lower_seq("windows-1251"@) != "x-cp1250"@);
    reveal_strlit("windows-1250");
    assert(lower_seq("windows-1251"@)[11] != "windows-1250"@[11]);
    reveal_strlit("cp1250");
    assert(lower_seq("windows-1251"@) != "cp1250"@);
    assert(is_label_windows1251(lower_seq("windows-1251"@)));
}

proof fn lemma_round_trip_windows1252()
    ensures
        spec_parse(spec_canonical_name(CharacterEncoding::Windows1252)) == Ok::<
            CharacterEncoding,
            UnrecognizedLabel,
        >(CharacterEncoding::Windows1252),
{
    reveal_strlit("windows-1252");
    reveal_strlit("windows-1252");
    assert(lower_seq("windows-1252"@) =~= "windows-1252"@);
    reveal_strlit("x-unicode20utf8");
    assert(lower_seq("windows-1252"@) != "x-unicode20utf8"@);
    reveal_strlit("utf8");
    assert(lower_seq("windows-1252"@) != "utf8"@);
    reveal_strlit("utf-8");
    assert(lower_seq("windows-1252"@) != "utf-8"@);
    reveal_strlit("unicode20utf8");
    assert(lower_seq("windows-1252"@) != "unicode20utf8"@);
    reveal_strlit("unicode11utf8");
    assert(lower_seq("windows-1252"@) != "unicode11utf8"@);
    reveal_strlit("unicode-1-1-utf-8");
    assert(lower_seq("windows-1252"@) != "unicode-1-1-utf-8"@);
    reveal_strlit("ibm866");
    assert(lower_seq("windows-1252"@) != "ibm866"@);
    reveal_strlit("csibm866");
    assert(lower_seq("windows-1252"@) != "csibm866"@);
    reveal_strlit("cp866");
    assert(lower_seq("windows-1252"@) != "cp866"@);
    reveal_strlit("866");
    assert(lower_seq("windows-1252"@) != "866"@);
    reveal_strlit("latin2");
    assert(lower_seq("windows-1252"@) != "latin2"@);
    reveal_strlit("l2");
    assert(lower_seq("windows-1252"@) != "l2"@);
    reveal_strlit("iso_8859-2:1987");
    assert(lower_seq("windows-1252"@) != "iso_8859-2:1987"@);
    reveal_strlit("iso_8859-2");
    assert(lower_seq("windows-1252"@) != "iso_8859-2"@);
    reveal_strlit("iso88592");
    assert(lower_seq("windows-1252"@) != "iso88592"@);
    reveal_strlit("iso8859-2");
    assert(lower_seq("windows-1252"@) != "iso8859-2"@);
    reveal_strlit("iso-ir-101");
    assert(lower_seq("windows-1252"@) != "iso-ir-101"@);
    reveal_strlit("iso-8859-2");
    assert(lower_seq("windows-1252"@) != "iso-8859-2"@);
    reveal_strlit("csisolatin2");
    assert(lower_seq("windows-1252"@) != "csisolatin2"@);
    reveal_strlit("latin3");
    assert(lower_seq("windows-1252"@) != "latin3"@);
    reveal_strlit("l3");
    assert(lower_seq("windows-1252"@) != "l3"@);
    reveal_strlit("iso_8859-3:1988");
    assert(lower_seq("windows-1252"@) != "iso_8859-3:1988"@);
    reveal_strlit("iso_8859-3");
    assert(lower_seq("windows-1252"@) != "iso_8859-3"@);
    reveal_strlit("iso88593");
    assert(lower_seq("windows-1252"@) != "iso88593"@);
    reveal_strlit("iso8859-3");
    assert(lower_seq("windows-1252"@) != "iso8859-3"@);
    reveal_strlit("iso-ir-109");
    assert(lower_seq("windows-1252"@) != "iso-ir-109"@);
    reveal_strlit("iso-8859-3");
    assert(lower_seq("windows-1252"@) != "iso-8859-3"@);
    reveal_strlit("csisolatin3");
    assert(lower_seq("windows-1252"@) != "csisolatin3"@);
    reveal_strlit("latin4");
    assert(lower_seq("windows-1252"@) != "latin4"@);
    reveal_strlit("l4");
    assert(lower_seq("windows-1252"@) != "l4"@);
    reveal_strlit("iso_8859-4:1988");
    assert(lower_seq("windows-1252"@) != "iso_8859-4:1988"@);
    reveal_strlit("iso_8859-4");
    assert(lower_seq("windows-1252"@) != "iso_8859-4"@);
    reveal_strlit("iso88594");
    assert(lower_seq("windows-1252"@) != "iso88594"@);
    reveal_strlit("iso8859-4");
    assert(lower_seq("windows-1252"@) != "iso8859-4"@);
    reveal_strlit("iso-ir-110");
    assert(lower_seq("windows-1252"@) != "iso-ir-110"@);
    reveal_strlit("iso-8859-4");
    assert(lower_seq("windows-1252"@) != "iso-8859-4"@);
    reveal_strlit("csisolatin4");
    assert(lower_seq("windows-1252"@) != "csisolatin4"@);
    reveal_strlit("iso_8859-5:1988");
    assert(lower_seq("windows-1252"@) != "iso_8859-5:1988"@);
    reveal_strlit("iso_8859-5");
    assert(lower_seq("windows-1252"@) != "iso_8859-5"@);
    reveal_strlit("iso88595");
    assert(lower_seq("windows-1252"@) != "iso88595"@);
    reveal_strlit("iso8859-5");
    assert(lower_seq("windows-1252"@) != "iso8859-5"@);
    reveal_strlit("iso-ir-144");
    assert(lower_seq("windows-1252"@) != "iso-ir-144"@);
    reveal_strlit("iso-8859-5");
    assert(lower_seq("windows-1252"@) != "iso-8859-5"@);
    reveal_strlit("cyrillic");
    assert(lower_seq("windows-1252"@) != "cyrillic"@);
    reveal_strlit("csisolatincyrillic");
    assert(lower_seq("windows-1252"@) != "csisolatincyrillic"@);
    reveal_strlit("iso_8859-6:1987");
    assert(lower_seq("windows-1252"@) != "iso_8859-6:1987"@);
    reveal_strlit("iso_8859-6");
    assert(lower_seq("windows-1252"@) != "iso_8859-6"@);
    reveal_strlit("iso88596");
    assert(lower_seq("windows-1252"@) != "iso88596"@);
    reveal_strlit("iso8859-6");
    assert(lower_seq("windows-1252"@) != "iso8859-6"@);
    reveal_strlit("iso-ir-127");
    assert(lower_seq("windows-1252"@) != "iso-ir-127"@);
    reveal_strlit("iso-8859-6-i");
    assert(lower_seq("windows-1252"@)[0] != "iso-8859-6-i"@[0]);
    reveal_strlit("iso-8859-6-e");
    assert(lower_seq("windows-1252"@)[0] != "iso-8859-6-e"@[0]);
    reveal_strlit("iso-8859-6");
    assert(lower_seq("windows-1252"@) != "iso-8859-6"@);
    reveal_strlit("ecma-114");
    assert(lower_seq("windows-1252"@) != "ecma-114"@);
    reveal_strlit("csisolatinarabic");
    assert(lower_seq("windows-1252"@) != "csisolatinarabic"@);
    reveal_strlit("csiso88596i");
    assert(lower_seq("windows-1252"@) != "csiso88596i"@);
    reveal_strlit("csiso88596e");
    assert(lower_seq("windows-1252"@) != "csiso88596e"@);
    reveal_strlit("asmo-708");
    assert(lower_seq("windows-1252"@) != "asmo-708"@);
    reveal_strlit("arabic");
    assert(lower_seq("windows-1252"@) != "arabic"@);
    reveal_strlit("sun_eu_greek");
    assert(lower_seq("windows-1252"@)[0] != "sun_eu_greek"@[0]);
    reveal_strlit("iso_8859-7:1987");
    assert(lower_seq("windows-1252"@) != "iso_8859-7:1987"@);
    reveal_strlit("iso_8859-7");
    assert(lower_seq("windows-1252"@) != "iso_8859-7"@);
    reveal_strlit("iso88597");
    assert(lower_seq("windows-1252"@) != "iso88597"@);
    reveal_strlit("iso8859-7");
    assert(lower_seq("windows-1252"@) != "iso8859-7"@);
    reveal_strlit("iso-ir-126");
    assert(lower_seq("windows-1252"@) != "iso-ir-126"@);
    reveal_strlit("iso-8859-7");
    assert(lower_seq("windows-1252"@) != "iso-8859-7"@);
    reveal_strlit("greek8");
    assert(lower_seq("windows-1252"@) != "greek8"@);
    reveal_strlit("greek");
    assert(lower_seq("windows-1252"@) != "greek"@);
    reveal_strlit("elot_928");
    assert(lower_seq("windows-1252"@) != "elot_928"@);
    reveal_strlit("ecma-118");
    assert(lower_seq("windows-1252"@) != "ecma-118"@);
    reveal_strlit("csisolatingreek");
    assert(lower_seq("windows-1252"@) != "csisolatingreek"@);
    reveal_strlit("visual");
    assert(lower_seq("windows-1252"@) != "visual"@);
    reveal_strlit("iso_8859-8:1988");
    assert(lower_seq("windows-1252"@) != "iso_8859-8:1988"@);
    reveal_strlit("iso_8859-8");
    assert(lower_seq("windows-1252"@) != "iso_8859-8"@);
    reveal_strlit("iso88598");
    assert(lower_seq("windows-1252"@) != "iso88598"@);
    reveal_strlit("iso8859-8");
    assert(lower_seq("windows-1252"@) != "iso8859-8"@);
    reveal_strlit("iso-ir-138");
    assert(lower_seq("windows-1252"@) != "iso-ir-138"@);
    reveal_strlit("iso-8859-8-e");
    assert(lower_seq("windows-1252"@)[0] != "iso-8859-8-e"@[0]);
    reveal_strlit("iso-8859-8");
    assert(lower_seq("windows-1252"@) != "iso-8859-8"@);
    reveal_strlit("hebrew");
    assert(lower_seq("windows-1252"@) != "hebrew"@);
    reveal_strlit("csisolatinhebrew");
    assert(lower_seq("windows-1252"@) != "csisolatinhebrew"@);
    reveal_strlit("csiso88598e");
    assert(lower_seq("windows-1252"@) != "csiso88598e"@);
    reveal_strlit("logical");
    assert(lower_seq("windows-1252"@) != "logical"@);
    reveal_strlit("iso-8859-8-i");
    assert(lower_seq("windows-1252"@)[0] != "iso-8859-8-i"@[0]);
    reveal_strlit("csiso88598i");
    assert(lower_seq("windows-1252"@) != "csiso88598i"@);
    reveal_strlit("latin6");
    assert(lower_seq("windows-1252"@) != "latin6"@);
    reveal_strlit("l6");
    assert(lower_seq("windows-1252"@) != "l6"@);
    reveal_strlit("iso885910");
    assert(lower_seq("windows-1252"@) != "iso885910"@);
    reveal_strlit("iso8859-10");
    assert(lower_seq("windows-1252"@) != "iso8859-10"@);
    reveal_strlit("iso-ir-157");
    assert(lower_seq("windows-1252"@) != "iso-ir-157"@);
    reveal_strlit("iso-8859-10");
    assert(lower_seq("windows-1252"@) != "iso-8859-10"@);
    reveal_strlit("csisolatin6");
    assert(lower_seq("windows-1252"@) != "csisolatin6"@);
    reveal_strlit("iso885913");
    assert(lower_seq("windows-1252"@) != "iso885913"@);
    reveal_strlit("iso8859-13");
    assert(lower_seq("windows-1252"@) != "iso8859-13"@);
    reveal_strlit("iso-8859-13");
    assert(lower_seq("windows-1252"@) != "iso-8859-13"@);
    reveal_strlit("iso885914");
    assert(lower_seq("windows-1252"@) != "iso885914"@);
    reveal_strlit("iso8859-14");
    assert(lower_seq("windows-1252"@) != "iso8859-14"@);
    reveal_strlit("iso-8859-14");
    assert(lower_seq("windows-1252"@) != "iso-8859-14"@);
    reveal_strlit("l9");
    assert(lower_seq("windows-1252"@) != "l9"@);
    reveal_strlit("iso_8859-15");
    assert(lower_seq("windows-1252"@) != "iso_8859-15"@);
    reveal_strlit("iso885915");
    assert(lower_seq("windows-1252"@) != "iso885915"@);
    reveal_strlit("iso8859-15");
    assert(lower_seq("windows-1252"@) != "iso8859-15"@);
    reveal_strlit("iso-8859-15");
    assert(lower_seq("windows-1252"@) != "iso-8859-15"@);
    reveal_strlit("csisolatin9");
    assert(lower_seq("windows-1252"@) != "csisolatin9"@);
    reveal_strlit("iso-8859-16");
    assert(lower_seq("windows-1252"@) != "iso-8859-16"@);
    reveal_strlit("koi8_r");
    assert(lower_seq("windows-1252"@) != "koi8_r"@);
    reveal_strlit("koi8-r");
    assert(lower_seq("windows-1252"@) != "koi8-r"@);
    reveal_strlit("koi8");
    assert(lower_seq("windows-1252"@) != "koi8"@);
    reveal_strlit("koi");
    assert(lower_seq("windows-1252"@) != "koi"@);
    reveal_strlit("cskoi8r");
    assert(lower_seq("windows-1252"@) != "cskoi8r"@);
    reveal_strlit("koi8-u");
    assert(lower_seq("windows-1252"@) != "koi8-u"@);
    reveal_strlit("koi8-ru");
    assert(lower_seq("windows-1252"@) != "koi8-ru"@);
    reveal_strlit("x-mac-roman");
    assert(lower_seq("windows-1252"@) != "x-mac-roman"@);
    reveal_strlit("macintosh");
    assert(lower_seq("windows-1252"@) != "macintosh"@);
    reveal_strlit("mac");
    assert(lower_seq("windows-1252"@) != "mac"@);
    reveal_strlit("csmacintosh");
    assert(lower_seq("windows-1252"@) != "csmacintosh"@);
    reveal_strlit("windows-874");
    assert(lower_seq("windows-1252"@) != "windows-874"@);
    reveal_strlit("tis-620");
    assert(lower_seq("windows-1252"@) != "tis-620"@);
    reveal_strlit("iso885911");
    assert(lower_seq("windows-1252"@) != "iso885911"@);
    reveal_strlit("iso8859-11");
    assert(lower_seq("windows-1252"@) != "iso8859-11"@);
    reveal_strlit("iso-8859-11");
    assert(lower_seq("windows-1252"@) != "iso-8859-11"@);
    reveal_strlit("dos-874");
    assert(lower_seq("windows-1252"@) != "dos-874"@);
    reveal_strlit("x-cp1250");
    assert(lower_seq("windows-1252"@) != "x-cp1250"@);
    reveal_strlit("windows-1250");
    assert(lower_seq("windows-1252"@)[11] != "windows-1250"@[11]);
    reveal_strlit("cp1250");
    assert(lower_seq("windows-1252"@) != "cp1250"@);
    reveal_strlit("x-cp1251");
    assert(lower_seq("windows-1252"@) != "x-cp1251"@);
    reveal_strlit("windows-1251");
    assert(lower_seq("windows-1252"@)[11] != "windows-1251"@[11]);
    reveal_strlit("cp1251");
    assert(lower_seq("windows-1252"@) != "cp1251"@);
    assert(is_label_windows1252(lower_seq("windows-1252"@)));
}

proof fn lemma_round_trip_windows1253()
    ensures
        spec_parse(spec_canonical_name(CharacterEncoding::Windows1253)) == Ok::<
            CharacterEncoding,
            UnrecognizedLabel,
        >(CharacterEncoding::Windows1253),
{
    reveal_strlit("windows-1253");
    reveal_strlit("windows-1253");
    assert(lower_seq("windows-1253"@) =~= "windows-1253"@);
    reveal_strlit("x-unicode20utf8");
    assert(lower_seq("windows-1253"@) != "x-unicode20utf8"@);
    reveal_strlit("utf8");
    assert(lower_seq("windows-1253"@) != "utf8"@);
    reveal_strlit("utf-8");
    assert(lower_seq("windows-1253"@) != "utf-8"@);
    reveal_strlit("unicode20utf8");
    assert(lower_seq("windows-1253"@) != "unicode20utf8"@);
    reveal_strlit("unicode11utf8");
    assert(lower_seq("windows-1253"@) != "unicode11utf8"@);
    reveal_strlit("unicode-1-1-utf-8");
    assert(lower_seq("windows-1253"@) != "unicode-1-1-utf-8"@);
    reveal_strlit("ibm866");
    assert(lower_seq("windows-1253"@) != "ibm866"@);
    reveal_strlit("csibm866");
    assert(lower_seq("windows-1253"@) != "csibm866"@);
    reveal_strlit("cp866");
    assert(lower_seq("windows-1253"@) != "cp866"@);
    reveal_strlit("866");
    assert(lower_seq("windows-1253"@) != "866"@);
    reveal_strlit("latin2");
    assert(lower_seq("windows-1253"@) != "latin2"@);
    reveal_strlit("l2");
    assert(lower_seq("windows-1253"@) != "l2"@);
    reveal_strlit("iso_8859-2:1987");
    assert(lower_seq("windows-1253"@) != "iso_8859-2:1987"@);
    reveal_strlit("iso_8859-2");
    assert(lower_seq("windows-1253"@) != "iso_8859-2"@);
    reveal_strlit("iso88592");
    assert(lower_seq("windows-1253"@) != "iso88592"@);
    reveal_strlit("iso8859-2");
    assert(lower_seq("windows-1253"@) != "iso8859-2"@);
    reveal_strlit("iso-ir-101");
    assert(lower_seq("windows-1253"@) != "iso-ir-101"@);
    reveal_strlit("iso-8859-2");
    assert(lower_seq("windows-1253"@) != "iso-8859-2"@);
    reveal_strlit("csisolatin2");
    assert(lower_seq("windows-1253"@) != "csisolatin2"@);
    reveal_strlit("latin3");
    assert(lower_seq("windows-1253"@) != "latin3"@);
    reveal_strlit("l3");
    assert(lower_seq("windows-1253"@) != "l3"@);
    reveal_strlit("iso_8859-3:1988");
    assert(lower_seq("windows-1253"@) != "iso_8859-3:1988"@);
    reveal_strlit("iso_8859-3");
    assert(lower_seq("windows-1253"@) != "iso_8859-3"@);
    reveal_strlit("iso88593");
    assert(lower_seq("windows-1253"@) != "iso88593"@);
    reveal_strlit("iso8859-3");
    assert(lower_seq("windows-1253"@) != "iso8859-3"@);
    reveal_strlit("iso-ir-109");
    assert(lower_seq("windows-1253"@) != "iso-ir-109"@);
    reveal_strlit("iso-8859-3");
    assert(lower_seq("windows-1253"@) != "iso-8859-3"@);
    reveal_strlit("csisolatin3");
    assert(lower_seq("windows-1253"@) != "csisolatin3"@);
    reveal_strlit("latin4");
    assert(lower_seq("windows-1253"@) != "latin4"@);
    reveal_strlit("l4");
    assert(lower_seq("windows-1253"@) != "l4"@);
    reveal_strlit("iso_8859-4:1988");
    assert(lower_seq("windows-1253"@) != "iso_8859-4:1988"@);
    reveal_strlit("iso_8859-4");
    assert(lower_seq("windows-1253"@) != "iso_8859-4"@);
    reveal_strlit("iso88594");
    assert(lower_seq("windows-1253"@) != "iso88594"@);
    reveal_strlit("iso8859-4");
    assert(lower_seq("windows-1253"@) != "iso8859-4"@);
    reveal_strlit("iso-ir-110");
    assert(lower_seq("windows-1253"@) != "iso-ir-110"@);
    reveal_strlit("iso-8859-4");
    assert(lower_seq("windows-1253"@) != "iso-8859-4"@);
    reveal_strlit("csisolatin4");
    assert(lower_seq("windows-1253"@) != "csisolatin4"@);
    reveal_strlit("iso_8859-5:1988");
    assert(lower_seq("windows-1253"@) != "iso_8859-5:1988"@);
    reveal_strlit("iso_8859-5");
    assert(lower_seq("windows-1253"@) != "iso_8859-5"@);
    reveal_strlit("iso88595");
    assert(lower_seq("windows-1253"@) != "iso88595"@);
    reveal_strlit("iso8859-5");
    assert(lower_seq("windows-1253"@) != "iso8859-5"@);
    reveal_strlit("iso-ir-144");
    assert(lower_seq("windows-1253"@) != "iso-ir-144"@);
    reveal_strlit("iso-8859-5");
    assert(lower_seq("windows-1253"@) != "iso-8859-5"@);
    reveal_strlit("cyrillic");
    assert(lower_seq("windows-1253"@) != "cyrillic"@);
    reveal_strlit("csisolatincyrillic");
    assert(lower_seq("windows-1253"@) != "csisolatincyrillic"@);
    reveal_strlit("iso_8859-6:1987");
    assert(lower_seq("windows-1253"@) != "iso_8859-6:1987"@);
    reveal_strlit("iso_8859-6");
    assert(lower_seq("windows-1253"@) != "iso_8859-6"@);
    reveal_strlit("iso88596");
    assert(lower_seq("windows-1253"@) != "iso88596"@);
    reveal_strlit("iso8859-6");
    assert(lower_seq("windows-1253"@) != "iso8859-6"@);
    reveal_strlit("iso-ir-127");
    assert(lower_seq("windows-1253"@) != "iso-ir-127"@);
    reveal_strlit("iso-8859-6-i");
    assert(lower_seq("windows-1253"@)[0] != "iso-8859-6-i"@[0]);
    reveal_strlit("iso-8859-6-e");
    assert(lower_seq("windows-1253"@)[0] != "iso-8859-6-e"@[0]);
    reveal_strlit("iso-8859-6");
    assert(lower_seq("windows-1253"@) != "iso-8859-6"@);
    reveal_strlit("ecma-114");
    assert(lower_seq("windows-1253"@) != "ecma-114"@);
    reveal_strlit("csisolatinarabic");
    assert(lower_seq("windows-1253"@) != "csisolatinarabic"@);
    reveal_strlit("csiso88596i");
    assert(lower_seq("windows-1253"@) != "csiso88596i"@);
    reveal_strlit("csiso88596e");
    assert(lower_seq("windows-1253"@) != "csiso88596e"@);
    reveal_strlit("asmo-708");
    assert(lower_seq("windows-1253"@) != "asmo-708"@);
    reveal_strlit("arabic");
    assert(lower_seq("windows-1253"@) != "arabic"@);
    reveal_strlit("sun_eu_greek");
    assert(lower_seq("windows-1253"@)[0] != "sun_eu_greek"@[0]);
    reveal_strlit("iso_8859-7:1987");
    assert(lower_seq("windows-1253"@) != "iso_8859-7:1987"@);
    reveal_strlit("iso_8859-7");
    assert(lower_seq("windows-1253"@) != "iso_8859-7"@);
    reveal_strlit("iso88597");
    assert(lower_seq("windows-1253"@) != "iso88597"@);
    reveal_strlit("iso8859-7");
    assert(lower_seq("windows-1253"@) != "iso8859-7"@);
    reveal_strlit("iso-ir-126");
    assert(lower_seq("windows-1253"@) != "iso-ir-126"@);
    reveal_strlit("iso-8859-7");
    assert(lower_seq("windows-1253"@) != "iso-8859-7"@);
    reveal_strlit("greek8");
    assert(lower_seq("windows-1253"@) != "greek8"@);
    reveal_strlit("greek");
    assert(lower_seq("windows-1253"@) != "greek"@);
    reveal_strlit("elot_928");
    assert(lower_seq("windows-1253"@) != "elot_928"@);
    reveal_strlit("ecma-118");
    assert(lower_seq("windows-1253"@) != "ecma-118"@);
    reveal_strlit("csisolatingreek");
    assert(lower_seq("windows-1253"@) != "csisolatingreek"@);
    reveal_strlit("visual");
    assert(lower_seq("windows-1253"@) != "visual"@);
    reveal_strlit("iso_8859-8:1988");
    assert(lower_seq("windows-1253"@) != "iso_8859-8:1988"@);
    reveal_strlit("iso_8859-8");
    assert(lower_seq("windows-1253"@) != "iso_8859-8"@);
    reveal_strlit("iso88598");
    assert(lower_seq("windows-1253"@) != "iso88598"@);
    reveal_strlit("iso8859-8");
    assert(lower_seq("windows-1253"@) != "iso8859-8"@);
    reveal_strlit("iso-ir-138");
    assert(lower_seq("windows-1253"@) != "iso-ir-138"@);
    reveal_strlit("iso-8859-8-e");
    assert(lower_seq("windows-1253"@)[0] != "iso-8859-8-e"@[0]);
    reveal_strlit("iso-8859-8");
    assert(lower_seq("windows-1253"@) != "iso-8859-8"@);
    reveal_strlit("hebrew");
    assert(lower_seq("windows-1253"@) != "hebrew"@);
    reveal_strlit("csisolatinhebrew");
    assert(lower_seq("windows-1253"@) != "csisolatinhebrew"@);
    reveal_strlit("csiso88598e");
    assert(lower_seq("windows-1253"@) != "csiso88598e"@);
    reveal_strlit("logical");
    assert(lower_seq("windows-1253"@) != "logical"@);
    reveal_strlit("iso-8859-8-i");
    assert(lower_seq("windows-1253"@)[0] != "iso-8859-8-i"@[0]);
    reveal_strlit("csiso88598i");
    assert(lower_seq("windows-1253"@) != "csiso88598i"@);
    reveal_strlit("latin6");
    assert(lower_seq("windows-1253"@) != "latin6"@);
    reveal_strlit("l6");
    assert(lower_seq("windows-1253"@) != "l6"@);
    reveal_strlit("iso885910");
    assert(lower_seq("windows-1253"@) != "iso885910"@);
    reveal_strlit("iso8859-10");
    assert(lower_seq("windows-1253"@) != "iso8859-10"@);
    reveal_strlit("iso-ir-157");
    assert(lower_seq("windows-1253"@) != "iso-ir-157"@);
    reveal_strlit("iso-8859-10");
    assert(lower_seq("windows-1253"@) != "iso-8859-10"@);
    reveal_strlit("csisolatin6");
    assert(lower_seq("windows-1253"@) != "csisolatin6"@);
    reveal_strlit("iso885913");
    assert(lower_seq("windows-1253"@) != "iso885913"@);
    reveal_strlit("iso8859-13");
    assert(lower_seq("windows-1253"@) != "iso8859-13"@);
    reveal_strlit("iso-8859-13");
    assert(lower_seq("windows-1253"@) != "iso-8859-13"@);
    reveal_strlit("iso885914");
    assert(lower_seq("windows-1253"@) != "iso885914"@);
    reveal_strlit("iso8859-14");
    assert(lower_seq("windows-1253"@) != "iso8859-14"@);
    reveal_strlit("iso-8859-14");
    assert(lower_seq("windows-1253"@) != "iso-8859-14"@);
    reveal_strlit("l9");
    assert(lower_seq("windows-1253"@) != "l9"@);
    reveal_strlit("iso_8859-15");
    assert(lower_seq("windows-1253"@) != "iso_8859-15"@);
    reveal_strlit("iso885915");
    assert(lower_seq("windows-1253"@) != "iso885915"@);
    reveal_strlit("iso8859-15");
    assert(lower_seq("windows-1253"@) != "iso8859-15"@);
    reveal_strlit("iso-8859-15");
    assert(lower_seq("windows-1253"@) != "iso-8859-15"@);
    reveal_strlit("csisolatin9");
    assert(lower_seq("windows-1253"@) != "csisolatin9"@);
    reveal_strlit("iso-8859-16");
    assert(lower_seq("windows-1253"@) != "iso-8859-16"@);
    reveal_strlit("koi8_r");
    assert(lower_seq("windows-1253"@) != "koi8_r"@);
    reveal_strlit("koi8-r");
    assert(lower_seq("windows-1253"@) != "koi8-r"@);
    reveal_strlit("koi8");
    assert(lower_seq("windows-1253"@) != "koi8"@);
    reveal_strlit("koi");
    assert(lower_seq("windows-1253"@) != "koi"@);
    reveal_strlit("cskoi8r");
    assert(lower_seq("windows-1253"@) != "cskoi8r"@);
    reveal_strlit("koi8-u");
    assert(lower_seq("windows-1253"@) != "koi8-u"@);
    reveal_strlit("koi8-ru");
    assert(lower_seq("windows-1253"@) != "koi8-ru"@);
    reveal_strlit("x-mac-roman");
    assert(lower_seq("windows-1253"@) != "x-mac-roman"@);
    reveal_strlit("macintosh");
    assert(lower_seq("windows-1253"@) != "macintosh"@);
    reveal_strlit("mac");
    assert(lower_seq("windows-1253"@) != "mac"@);
    reveal_strlit("csmacintosh");
    assert(lower_seq("windows-1253"@) != "csmacintosh"@);
    reveal_strlit("windows-874");
    assert(lower_seq("windows-1253"@) != "windows-874"@);
    reveal_strlit("tis-620");
    assert(lower_seq("windows-1253"@) != "tis-620"@);
    reveal_strlit("iso885911");
    assert(lower_seq("windows-1253"@) != "iso885911"@);
    reveal_strlit("iso8859-11");
    assert(lower_seq("windows-1253"@) != "iso8859-11"@);
    reveal_strlit("iso-8859-11");
    assert(lower_seq("windows-1253"@) != "iso-8859-11"@);
    reveal_strlit("dos-874");
    assert(lower_seq("windows-1253"@) != "dos-874"@);
    reveal_strlit("x-cp1250");
    assert(lower_seq("windows-1253"@) != "x-cp1250"@);
    reveal_strlit("windows-1250");
    assert(lower_seq("windows-1253"@)[11] != "windows-1250"@[11]);
    reveal_strlit("cp1250");
    assert(lower_seq("windows-1253"@) != "cp1250"@);
    reveal_strlit("x-cp1251");
    assert(lower_seq("windows-1253"@) != "x-cp1251"@);
    reveal_strlit("windows-1251");
    assert(lower_seq("windows-1253"@)[11] != "windows-1251"@[11]);
    reveal_strlit("cp1251");
    assert(lower_seq("windows-1253"@) != "cp1251"@);
    reveal_strlit("x-cp1252");
    assert(lower_seq("windows-1253"@) != "x-cp1252"@);
    reveal_strlit("windows-1252");
    assert(lower_seq("windows-1253"@)[11] != "windows-1252"@[11]);
    reveal_strlit("us-ascii");
    assert(lower_seq("windows-1253"@) != "us-ascii"@);
    reveal_strlit("latin1");
    assert(lower_seq("windows-1253"@) != "latin1"@);
    reveal_strlit("l1");
    assert(lower_seq("windows-1253"@) != "l1"@);
    reveal_strlit("iso_8859-1:1987");
    assert(lower_seq("windows-1253"@) != "iso_8859-1:1987"@);
    reveal_strlit("iso_8859-1");
    assert(lower_seq("windows-1253"@) != "iso_8859-1"@);
    reveal_strlit("iso88591");
    assert(lower_seq("windows-1253"@) != "iso88591"@);
    reveal_strlit("iso8859-1");
    assert(lower_seq("windows-1253"@) != "iso8859-1"@);
    reveal_strlit("iso-ir-100");
    assert(lower_seq("windows-1253"@) != "iso-ir-100"@);
    reveal_strlit("iso-8859-1");
    assert(lower_seq("windows-1253"@) != "iso-8859-1"@);
    reveal_strlit("ibm819");
    assert(lower_seq("windows-1253"@) != "ibm819"@);
    reveal_strlit("csisolatin1");
    assert(lower_seq("windows-1253"@) != "csisolatin1"@);
    reveal_strlit("cp819");
    assert(lower_seq("windows-1253"@) != "cp819"@);
    reveal_strlit("cp1252");
    assert(lower_seq("windows-1253"@) != "cp1252"@);
    reveal_strlit("ascii");
    assert(lower_seq("windows-1253"@) != "ascii"@);
    reveal_strlit("ansi_x3.4-1968");
    assert(lower_seq("windows-1253"@) != "ansi_x3.4-1968"@);
    assert(is_label_windows1253(lower_seq("windows-1253"@)));
}

proof fn lemma_round_trip_windows1254()
    ensures
        spec_parse(spec_canonical_name(CharacterEncoding::Windows1254)) == Ok::<
            CharacterEncoding,
            UnrecognizedLabel,
        >(CharacterEncoding::Windows1254),
{
    reveal_strlit("windows-1254");
    reveal_strlit("windows-1254");
    assert(lower_seq("windows-1254"@) =~= "windows-1254"@);
    reveal_strlit("x-unicode20utf8");
    assert(lower_seq("windows-1254"@) != "x-unicode20utf8"@);
    reveal_strlit("utf8");
    assert(lower_seq("windows-1254"@) != "utf8"@);
    reveal_strlit("utf-8");
    assert(lower_seq("windows-1254"@) != "utf-8"@);
    reveal_strlit("unicode20utf8");
    assert(lower_seq("windows-1254"@) != "unicode20utf8"@);
    reveal_strlit("unicode11utf8");
    assert(lower_seq("windows-1254"@) != "unicode11utf8"@);
    reveal_strlit("unicode-1-1-utf-8");
    assert(lower_seq("windows-1254"@) != "unicode-1-1-utf-8"@);
    reveal_strlit("ibm866");
    assert(lower_seq("windows-1254"@) != "ibm866"@);
    reveal_strlit("csibm866");
    assert(lower_seq("windows-1254"@) != "csibm866"@);
    reveal_strlit("cp866");
    assert(lower_seq("windows-1254"@) != "cp866"@);
    reveal_strlit("866");
    assert(lower_seq("windows-1254"@) != "866"@);
    reveal_strlit("latin2");
    assert(lower_seq("windows-1254"@) != "latin2"@);
    reveal_strlit("l2");
    assert(lower_seq("windows-1254"@) != "l2"@);
    reveal_strlit("iso_8859-2:1987");
    assert(lower_seq("windows-1254"@) != "iso_8859-2:1987"@);
    reveal_strlit("iso_8859-2");
    assert(lower_seq("windows-1254"@) != "iso_8859-2"@);
    reveal_strlit("iso88592");
    assert(lower_seq("windows-1254"@) != "iso88592"@);
    reveal_strlit("iso8859-2");
    assert(lower_seq("windows-1254"@) != "iso8859-2"@);
    reveal_strlit("iso-ir-101");
    assert(lower_seq("windows-1254"@) != "iso-ir-101"@);
    reveal_strlit("iso-8859-2");
    assert(lower_seq("windows-1254"@) != "iso-8859-2"@);
    reveal_strlit("csisolatin2");
    assert(lower_seq("windows-1254"@) != "csisolatin2"@);
    reveal_strlit("latin3");
    assert(lower_seq("windows-1254"@) != "latin3"@);
    reveal_strlit("l3");
    assert(lower_seq("windows-1254"@) != "l3"@);
    reveal_strlit("iso_8859-3:1988");
    assert(lower_seq("windows-1254"@) != "iso_8859-3:1988"@);
    reveal_strlit("iso_8859-3");
    assert(lower_seq("windows-1254"@) != "iso_8859-3"@);
    reveal_strlit("iso88593");
    assert(lower_seq("windows-1254"@) != "iso88593"@);
    reveal_strlit("iso8859-3");
    assert(lower_seq("windows-1254"@) != "iso8859-3"@);
    reveal_strlit("iso-ir-109");
    assert(lower_seq("windows-1254"@) != "iso-ir-109"@);
    reveal_strlit("iso-8859-3");
    assert(lower_seq("windows-1254"@) != "iso-8859-3"@);
    reveal_strlit("csisolatin3");
    assert(lower_seq("windows-1254"@) != "csisolatin3"@);
    reveal_strlit("latin4");
    assert(lower_seq("windows-1254"@) != "latin4"@);
    reveal_strlit("l4");
    assert(lower_seq("windows-1254"@) != "l4"@);
    reveal_strlit("iso_8859-4:1988");
    assert(lower_seq("windows-1254"@) != "iso_8859-4:1988"@);
    reveal_strlit("iso_8859-4");
    assert(lower_seq("windows-1254"@) != "iso_8859-4"@);
    reveal_strlit("iso88594");
    assert(lower_seq("windows-1254"@) != "iso88594"@);
    reveal_strlit("iso8859-4");
    assert(lower_seq("windows-1254"@) != "iso8859-4"@);
    reveal_strlit("iso-ir-110");
    assert(lower_seq("windows-1254"@) != "iso-ir-110"@);
    reveal_strlit("iso-8859-4");
    assert(lower_seq("windows-1254"@) != "iso-8859-4"@);
    reveal_strlit("csisolatin4");
    assert(lower_seq("windows-1254"@) != "csisolatin4"@);
    reveal_strlit("iso_8859-5:1988");
    assert(lower_seq("windows-1254"@) != "iso_8859-5:1988"@);
    reveal_strlit("iso_8859-5");
    assert(lower_seq("windows-1254"@) != "iso_8859-5"@);
    reveal_strlit("iso88595");
    assert(lower_seq("windows-1254"@) != "iso88595"@);
    reveal_strlit("iso8859-5");
    assert(lower_seq("windows-1254"@) != "iso8859-5"@);
    reveal_strlit("iso-ir-144");
    assert(lower_seq("windows-1254"@) != "iso-ir-144"@);
    reveal_strlit("iso-8859-5");
    assert(lower_seq("windows-1254"@) != "iso-8859-5"@);
    reveal_strlit("cyrillic");
    assert(lower_seq("windows-1254"@) != "cyrillic"@);
    reveal_strlit("csisolatincyrillic");
    assert(lower_seq("windows-1254"@) != "csisolatincyrillic"@);
    reveal_strlit("iso_8859-6:1987");
    assert(lower_seq("windows-1254"@) != "iso_8859-6:1987"@);
    reveal_strlit("iso_8859-6");
    assert(lower_seq("windows-1254"@) != "iso_8859-6"@);
    reveal_strlit("iso88596");
    assert(lower_seq("windows-1254"@) != "iso88596"@);
    reveal_strlit("iso8859-6");
    assert(lower_seq("windows-1254"@) != "iso8859-6"@);
    reveal_strlit("iso-ir-127");
    assert(lower_seq("windows-1254"@) != "iso-ir-127"@);
    reveal_strlit("iso-8859-6-i");
    assert(lower_seq("windows-1254"@)[0] != "iso-8859-6-i"@[0]);
    reveal_strlit("iso-8859-6-e");
    assert(lower_seq("windows-1254"@)[0] != "iso-8859-6-e"@[0]);
    reveal_strlit("iso-8859-6");
    assert(lower_seq("windows-1254"@) != "iso-8859-6"@);
    reveal_strlit("ecma-114");
    assert(lower_seq("windows-1254"@) != "ecma-114"@);
    reveal_strlit("csisolatinarabic");
    assert(lower_seq("windows-1254"@) != "csisolatinarabic"@);
    reveal_strlit("csiso88596i");
    assert(lower_seq("windows-1254"@) != "csiso88596i"@);
    reveal_strlit("csiso88596e");
    assert(lower_seq("windows-1254"@) != "csiso88596e"@);
    reveal_strlit("asmo-708");
    assert(lower_seq("windows-1254"@) != "asmo-708"@);
    reveal_strlit("arabic");
    assert(lower_seq("windows-1254"@) != "arabic"@);
    reveal_strlit("sun_eu_greek");
    assert(lower_seq("windows-1254"@)[0] != "sun_eu_greek"@[0]);
    reveal_strlit("iso_8859-7:1987");
    assert(lower_seq("windows-1254"@) != "iso_8859-7:1987"@);
    reveal_strlit("iso_8859-7");
    assert(lower_seq("windows-1254"@) != "iso_8859-7"@);
    reveal_strlit("iso88597");
    assert(lower_seq("windows-1254"@) != "iso88597"@);
    reveal_strlit("iso8859-7");
    assert(lower_seq("windows-1254"@) != "iso8859-7"@);
    reveal_strlit("iso-ir-126");
    assert(lower_seq("windows-1254"@) != "iso-ir-126"@);
    reveal_strlit("iso-8859-7");
    assert(lower_seq("windows-1254"@) != "iso-8859-7"@);
    reveal_strlit("greek8");
    assert(lower_seq("windows-1254"@) != "greek8"@);
    reveal_strlit("greek");
    assert(lower_seq("windows-1254"@) != "greek"@);
    reveal_strlit("elot_928");
    assert(lower_seq("windows-1254"@) != "elot_928"@);
    reveal_strlit("ecma-118");
    assert(lower_seq("windows-1254"@) != "ecma-118"@);
    reveal_strlit("csisolatingreek");
    assert(lower_seq("windows-1254"@) != "csisolatingreek"@);
    reveal_strlit("visual");
    assert(lower_seq("windows-1254"@) != "visual"@);
    reveal_strlit("iso_8859-8:1988");
    assert(lower_seq("windows-1254"@) != "iso_8859-8:1988"@);
    reveal_strlit("iso_8859-8");
    assert(lower_seq("windows-1254"@) != "iso_8859-8"@);
    reveal_strlit("iso88598");
    assert(lower_seq("windows-1254"@) != "iso88598"@);
    reveal_strlit("iso8859-8");
    assert(lower_seq("windows-1254"@) != "iso8859-8"@);
    reveal_strlit("iso-ir-138");
    assert(lower_seq("windows-1254"@) != "iso-ir-138"@);
    reveal_strlit("iso-8859-8-e");
    assert(lower_seq("windows-1254"@)[0] != "iso-8859-8-e"@[0]);
    reveal_strlit("iso-8859-8");
    assert(lower_seq("windows-1254"@) != "iso-8859-8"@);
    reveal_strlit("hebrew");
    assert(lower_seq("windows-1254"@) != "hebrew"@);
    reveal_strlit("csisolatinhebrew");
    assert(lower_seq("windows-1254"@) != "csisolatinhebrew"@);
    reveal_strlit("csiso88598e");
    assert(lower_seq("windows-1254"@) != "csiso88598e"@);
    reveal_strlit("logical");
    assert(lower_seq("windows-1254"@) != "logical"@);
    reveal_strlit("iso-8859-8-i");
    assert(lower_seq("windows-1254"@)[0] != "iso-8859-8-i"@[0]);
    reveal_strlit("csiso88598i");
    assert(lower_seq("windows-1254"@) != "csiso88598i"@);
    reveal_strlit("latin6");
    assert(lower_seq("windows-1254"@) != "latin6"@);
    reveal_strlit("l6");
    assert(lower_seq("windows-1254"@) != "l6"@);
    reveal_strlit("iso885910");
    assert(lower_seq("windows-1254"@) != "iso885910"@);
    reveal_strlit("iso8859-10");
    assert(lower_seq("windows-1254"@) != "iso8859-10"@);
    reveal_strlit("iso-ir-157");
    assert(lower_seq("windows-1254"@) != "iso-ir-157"@);
    reveal_strlit("iso-8859-10");
    assert(lower_seq("windows-1254"@) != "iso-8859-10"@);
    reveal_strlit("csisolatin6");
    assert(lower_seq("windows-1254"@) != "csisolatin6"@);
    reveal_strlit("iso885913");
    assert(lower_seq("windows-1254"@) != "iso885913"@);
    reveal_strlit("iso8859-13");
    assert(lower_seq("windows-1254"@) != "iso8859-13"@);
    reveal_strlit("iso-8859-13");
    assert(lower_seq("windows-1254"@) != "iso-8859-13"@);
    reveal_strlit("iso885914");
    assert(lower_seq("windows-1254"@) != "iso885914"@);
    reveal_strlit("iso8859-14");
    assert(lower_seq("windows-1254"@) != "iso8859-14"@);
    reveal_strlit("iso-8859-14");
    assert(lower_seq("windows-1254"@) != "iso-8859-14"@);
    reveal_strlit("l9");
    assert(lower_seq("windows-1254"@) != "l9"@);
    reveal_strlit("iso_8859-15");
    assert(lower_seq("windows-1254"@) != "iso_8859-15"@);
    reveal_strlit("iso885915");
    assert(lower_seq("windows-1254"@) != "iso885915"@);
    reveal_strlit("iso8859-15");
    assert(lower_seq("windows-1254"@) != "iso8859-15"@);
    reveal_strlit("iso-8859-15");
    assert(lower_seq("windows-1254"@) != "iso-8859-15"@);
    reveal_strlit("csisolatin9");
    assert(lower_seq("windows-1254"@) != "csisolatin9"@);
    reveal_strlit("iso-8859-16");
    assert(lower_seq("windows-1254"@) != "iso-8859-16"@);
    reveal_strlit("koi8_r");
    assert(lower_seq("windows-1254"@) != "koi8_r"@);
    reveal_strlit("koi8-r");
    assert(lower_seq("windows-1254"@) != "koi8-r"@);
    reveal_strlit("koi8");
    assert(lower_seq("windows-1254"@) != "koi8"@);
    reveal_strlit("koi");
    assert(lower_seq("windows-1254"@) != "koi"@);
    reveal_strlit("cskoi8r");
    assert(lower_seq("windows-1254"@) != "cskoi8r"@);
    reveal_strlit("koi8-u");
    assert(lower_seq("windows-1254"@) != "koi8-u"@);
    reveal_strlit("koi8-ru");
    assert(lower_seq("windows-1254"@) != "koi8-ru"@);
    reveal_strlit("x-mac-roman");
    assert(lower_seq("windows-1254"@) != "x-mac-roman"@);
    reveal_strlit("macintosh");
    assert(lower_seq("windows-1254"@) != "macintosh"@);
    reveal_strlit("mac");
    assert(lower_seq("windows-1254"@) != "mac"@);
    reveal_strlit("csmacintosh");
    assert(lower_seq("windows-1254"@) != "csmacintosh"@);
    reveal_strlit("windows-874");
    assert(lower_seq("windows-1254"@) != "windows-874"@);
    reveal_strlit("tis-620");
    assert(lower_seq("windows-1254"@) != "tis-620"@);
    reveal_strlit("iso885911");
    assert(lower_seq("windows-1254"@) != "iso885911"@);
    reveal_strlit("iso8859-11");
    assert(lower_seq("windows-1254"@) != "iso8859-11"@);
    reveal_strlit("iso-8859-11");
    assert(lower_seq("windows-1254"@) != "iso-8859-11"@);
    reveal_strlit("dos-874");
    assert(lower_seq("windows-1254"@) != "dos-874"@);
    reveal_strlit("x-cp1250");
    assert(lower_seq("windows-1254"@) != "x-cp1250"@);
    reveal_strlit("windows-1250");
    assert(lower_seq("windows-1254"@)[11] != "windows-1250"@[11]);
    reveal_strlit("cp1250");
    assert(lower_seq("windows-1254"@) != "cp1250"@);
    reveal_strlit("x-cp1251");
    assert(lower_seq("windows-1254"@) != "x-cp1251"@);
    reveal_strlit("windows-1251");
    assert(lower_seq("windows-1254"@)[11] != "windows-1251"@[11]);
    reveal_strlit("cp1251");
    assert(lower_seq("windows-1254"@) != "cp1251"@);
    reveal_strlit("x-cp1252");
    assert(lower_seq("windows-1254"@) != "x-cp1252"@);
    reveal_strlit("windows-1252");
    assert(lower_seq("windows-1254"@)[11] != "windows-1252"@[11]);
    reveal_strlit("us-ascii");
    assert(lower_seq("windows-1254"@) != "us-ascii"@);
    reveal_strlit("latin1");
    assert(lower_seq("windows-1254"@) != "latin1"@);
    reveal_strlit("l1");
    assert(lower_seq("windows-1254"@) != "l1"@);
    reveal_strlit("iso_8859-1:1987");
    assert(lower_seq("windows-1254"@) != "iso_8859-1:1987"@);
    reveal_strlit("iso_8859-1");
    assert(lower_seq("windows-1254"@) != "iso_8859-1"@);
    reveal_strlit("iso88591");
    assert(lower_seq("windows-1254"@) != "iso88591"@);
    reveal_strlit("iso8859-1");
    assert(lower_seq("windows-1254"@) != "iso8859-1"@);
    reveal_strlit("iso-ir-100");
    assert(lower_seq("windows-1254"@) != "iso-ir-100"@);
    reveal_strlit("iso-8859-1");
    assert(lower_seq("windows-1254"@) != "iso-8859-1"@);
    reveal_strlit("ibm819");
    assert(lower_seq("windows-1254"@) != "ibm819"@);
    reveal_strlit("csisolatin1");
    assert(lower_seq("windows-1254"@) != "csisolatin1"@);
    reveal_strlit("cp819");
    assert(lower_seq("windows-1254"@) != "cp819"@);
    reveal_strlit("cp1252");
    assert(lower_seq("windows-1254"@) != "cp1252"@);
    reveal_strlit("ascii");
    assert(lower_seq("windows-1254"@) != "ascii"@);
    reveal_strlit("ansi_x3.4-1968");
    assert(lower_seq("windows-1254"@) != "ansi_x3.4-1968"@);
    reveal_strlit("x-cp1253");
    assert(lower_seq("windows-1254"@) != "x-cp1253"@);
    reveal_strlit("windows-1253");
    assert(lower_seq("windows-1254"@)[11] != "windows-1253"@[11]);
    reveal_strlit("cp1253");
    assert(lower_seq("windows-1254"@) != "cp1253"@);
    assert(is_label_windows1254(lower_seq("windows-1254"@)));
}

proof fn lemma_round_trip_windows1255()
    ensures
        spec_parse(spec_canonical_name(CharacterEncoding::Windows1255)) == Ok::<
            CharacterEncoding,
            UnrecognizedLabel,
        >(CharacterEncoding::Windows1255),
{
    reveal_strlit("windows-1255");
    reveal_strlit("windows-1255");
    assert(lower_seq("windows-1255"@) =~= "windows-1255"@);
    reveal_strlit("x-unicode20utf8");
    assert(lower_seq("windows-1255"@) != "x-unicode20utf8"@);
    reveal_strlit("utf8");
    assert(lower_seq("windows-1255"@) != "utf8"@);
    reveal_strlit("utf-8");
    assert(lower_seq("windows-1255"@) != "utf-8"@);
    reveal_strlit("unicode20utf8");
    assert(lower_seq("windows-1255"@) != "unicode20utf8"@);
    reveal_strlit("unicode11utf8");
    assert(lower_seq("windows-1255"@) != "unicode11utf8"@);
    reveal_strlit("unicode-1-1-utf-8");
    assert(lower_seq("windows-1255"@) != "unicode-1-1-utf-8"@);
    reveal_strlit("ibm866");
    assert(lower_seq("windows-1255"@) != "ibm866"@);
    reveal_strlit("csibm866");
    assert(lower_seq("windows-1255"@) != "csibm866"@);
    reveal_strlit("cp866");
    assert(lower_seq("windows-1255"@) != "cp866"@);
    reveal_strlit("866");
    assert(lower_seq("windows-1255"@) != "866"@);
    reveal_strlit("latin2");
    assert(lower_seq("windows-1255"@) != "latin2"@);
    reveal_strlit("l2");
    assert(lower_seq("windows-1255"@) != "l2"@);
    reveal_strlit("iso_8859-2:1987");
    assert(lower_seq("windows-1255"@) != "iso_8859-2:1987"@);
    reveal_strlit("iso_8859-2");
    assert(lower_seq("windows-1255"@) != "iso_8859-2"@);
    reveal_strlit("iso88592");
    assert(lower_seq("windows-1255"@) != "iso88592"@);
    reveal_strlit("iso8859-2");
    assert(lower_seq("windows-1255"@) != "iso8859-2"@);
    reveal_strlit("iso-ir-101");
    assert(lower_seq("windows-1255"@) != "iso-ir-101"@);
    reveal_strlit("iso-8859-2");
    assert(lower_seq("windows-1255"@) != "iso-8859-2"@);
    reveal_strlit("csisolatin2");
    assert(lower_seq("windows-1255"@) != "csisolatin2"@);
    reveal_strlit("latin3");
    assert(lower_seq("windows-1255"@) != "latin3"@);
    reveal_strlit("l3");
    assert(lower_seq("windows-1255"@) != "l3"@);
    reveal_strlit("iso_8859-3:1988");
    assert(lower_seq("windows-1255"@) != "iso_8859-3:1988"@);
    reveal_strlit("iso_8859-3");
    assert(lower_seq("windows-1255"@) != "iso_8859-3"@);
    reveal_strlit("iso88593");
    assert(lower_seq("windows-1255"@) != "iso88593"@);
    reveal_strlit("iso8859-3");
    assert(lower_seq("windows-1255"@) != "iso8859-3"@);
    reveal_strlit("iso-ir-109");
    assert(lower_seq("windows-1255"@) != "iso-ir-109"@);
    reveal_strlit("iso-8859-3");
    assert(lower_seq("windows-1255"@) != "iso-8859-3"@);
    reveal_strlit("csisolatin3");
    assert(lower_seq("windows-1255"@) != "csisolatin3"@);
    reveal_strlit("latin4");
    assert(lower_seq("windows-1255"@) != "latin4"@);
    reveal_strlit("l4");
    assert(lower_seq("windows-1255"@) != "l4"@);
    reveal_strlit("iso_8859-4:1988");
    assert(lower_seq("windows-1255"@) != "iso_8859-4:1988"@);
    reveal_strlit("iso_8859-4");
    assert(lower_seq("windows-1255"@) != "iso_8859-4"@);
    reveal_strlit("iso88594");
    assert(lower_seq("windows-1255"@) != "iso88594"@);
    reveal_strlit("iso8859-4");
    assert(lower_seq("windows-1255"@) != "iso8859-4"@);
    reveal_strlit("iso-ir-110");
    assert(lower_seq("windows-1255"@) != "iso-ir-110"@);
    reveal_strlit("iso-8859-4");
    assert(lower_seq("windows-1255"@) != "iso-8859-4"@);
    reveal_strlit("csisolatin4");
    assert(lower_seq("windows-1255"@) != "csisolatin4"@);
    reveal_strlit("iso_8859-5:1988");
    assert(lower_seq("windows-1255"@) != "iso_8859-5:1988"@);
    reveal_strlit("iso_8859-5");
    assert(lower_seq("windows-1255"@) != "iso_8859-5"@);
    reveal_strlit("iso88595");
    assert(lower_seq("windows-1255"@) != "iso88595"@);
    reveal_strlit("iso8859-5");
    assert(lower_seq("windows-1255"@) != "iso8859-5"@);
    reveal_strlit("iso-ir-144");
    assert(lower_seq("windows-1255"@) != "iso-ir-144"@);
    reveal_strlit("iso-8859-5");
    assert(lower_seq("windows-1255"@) != "iso-8859-5"@);
    reveal_strlit("cyrillic");
    assert(lower_seq("windows-1255"@) != "cyrillic"@);
    reveal_strlit("csisolatincyrillic");
    assert(lower_seq("windows-1255"@) != "csisolatincyrillic"@);
    reveal_strlit("iso_8859-6:1987");
    assert(lower_seq("windows-1255"@) != "iso_8859-6:1987"@);
    reveal_strlit("iso_8859-6");
    assert(lower_seq("windows-1255"@) != "iso_8859-6"@);
    reveal_strlit("iso88596");
    assert(lower_seq("windows-1255"@) != "iso88596"@);
    reveal_strlit("iso8859-6");
    assert(lower_seq("windows-1255"@) != "iso8859-6"@);
    reveal_strlit("iso-ir-127");
    assert(lower_seq("windows-1255"@) != "iso-ir-127"@);
    reveal_strlit("iso-8859-6-i");
    assert(lower_seq("windows-1255"@)[0] != "iso-8859-6-i"@[0]);
    reveal_strlit("iso-8859-6-e");
    assert(lower_seq("windows-1255"@)[0] != "iso-8859-6-e"@[0]);
    reveal_strlit("iso-8859-6");
    assert(lower_seq("windows-1255"@) != "iso-8859-6"@);
    reveal_strlit("ecma-114");
    assert(lower_seq("windows-1255"@) != "ecma-114"@);
    reveal_strlit("csisolatinarabic");
    assert(lower_seq("windows-1255"@) != "csisolatinarabic"@);
    reveal_strlit("csiso88596i");
    assert(lower_seq("windows-1255"@) != "csiso88596i"@);
    reveal_strlit("csiso88596e");
    assert(lower_seq("windows-1255"@) != "csiso88596e"@);
    reveal_strlit("asmo-708");
    assert(lower_seq("windows-1255"@) != "asmo-708"@);
    reveal_strlit("arabic");
    assert(lower_seq("windows-1255"@) != "arabic"@);
    reveal_strlit("sun_eu_greek");
    assert(lower_seq("windows-1255"@)[0] != "sun_eu_greek"@[0]);
    reveal_strlit("iso_8859-7:1987");
    assert(lower_seq("windows-1255"@) != "iso_8859-7:1987"@);
    reveal_strlit("iso_8859-7");
    assert(lower_seq("windows-1255"@) != "iso_8859-7"@);
    reveal_strlit("iso88597");
    assert(lower_seq("windows-1255"@) != "iso88597"@);
    reveal_strlit("iso8859-7");
    assert(lower_seq("windows-1255"@) != "iso8859-7"@);
    reveal_strlit("iso-ir-126");
    assert(lower_seq("windows-1255"@) != "iso-ir-126"@);
    reveal_strlit("iso-8859-7");
    assert(lower_seq("windows-1255"@) != "iso-8859-7"@);
    reveal_strlit("greek8");
    assert(lower_seq("windows-1255"@) != "greek8"@);
    reveal_strlit("greek");
    assert(lower_seq("windows-1255"@) != "greek"@);
    reveal_strlit("elot_928");
    assert(lower_seq("windows-1255"@) != "elot_928"@);
    reveal_strlit("ecma-118");
    assert(lower_seq("windows-1255"@) != "ecma-118"@);
    reveal_strlit("csisolatingreek");
    assert(lower_seq("windows-1255"@) != "csisolatingreek"@);
    reveal_strlit("visual");
    assert(lower_seq("windows-1255"@) != "visual"@);
    reveal_strlit("iso_8859-8:1988");
    assert(lower_seq("windows-1255"@) != "iso_8859-8:1988"@);
    reveal_strlit("iso_8859-8");
    assert(lower_seq("windows-1255"@) != "iso_8859-8"@);
    reveal_strlit("iso88598");
    assert(lower_seq("windows-1255"@) != "iso88598"@);
    reveal_strlit("iso8859-8");
    assert(lower_seq("windows-1255"@) != "iso8859-8"@);
    reveal_strlit("iso-ir-138");
    assert(lower_seq("windows-1255"@) != "iso-ir-138"@);
    reveal_strlit("iso-8859-8-e");
    assert(lower_seq("windows-1255"@)[0] != "iso-8859-8-e"@[0]);
    reveal_strlit("iso-8859-8");
    assert(lower_seq("windows-1255"@) != "iso-8859-8"@);
    reveal_strlit("hebrew");
    assert(lower_seq("windows-1255"@) != "hebrew"@);
    reveal_strlit("csisolatinhebrew");
    assert(lower_seq("windows-1255"@) != "csisolatinhebrew"@);
    reveal_strlit("csiso88598e");
    assert(lower_seq("windows-1255"@) != "csiso88598e"@);
    reveal_strlit("logical");
    assert(lower_seq("windows-1255"@) != "logical"@);
    reveal_strlit("iso-8859-8-i");
    assert(lower_seq("windows-1255"@)[0] != "iso-8859-8-i"@[0]);
    reveal_strlit("csiso88598i");
    assert(lower_seq("windows-1255"@) != "csiso88598i"@);
    reveal_strlit("latin6");
    assert(lower_seq("windows-1255"@) != "latin6"@);
    reveal_strlit("l6");
    assert(lower_seq("windows-1255"@) != "l6"@);
    reveal_strlit("iso885910");
    assert(lower_seq("windows-1255"@) != "iso885910"@);
    reveal_strlit("iso8859-10");
    assert(lower_seq("windows-1255"@) != "iso8859-10"@);
    reveal_strlit("iso-ir-157");
    assert(lower_seq("windows-1255"@) != "iso-ir-157"@);
    reveal_strlit("iso-8859-10");
    assert(lower_seq("windows-1255"@) != "iso-8859-10"@);
    reveal_strlit("csisolatin6");
    assert(lower_seq("windows-1255"@) != "csisolatin6"@);
    reveal_strlit("iso885913");
    assert(lower_seq("windows-1255"@) != "iso885913"@);
    reveal_strlit("iso8859-13");
    assert(lower_seq("windows-1255"@) != "iso8859-13"@);
    reveal_strlit("iso-8859-13");
    assert(lower_seq("windows-1255"@) != "iso-8859-13"@);
    reveal_strlit("iso885914");
    assert(lower_seq("windows-1255"@) != "iso885914"@);
    reveal_strlit("iso8859-14");
    assert(lower_seq("windows-1255"@) != "iso8859-14"@);
    reveal_strlit("iso-8859-14");
    assert(lower_seq("windows-1255"@) != "iso-8859-14"@);
    reveal_strlit("l9");
    assert(lower_seq("windows-1255"@) != "l9"@);
    reveal_strlit("iso_8859-15");
    assert(lower_seq("windows-1255"@) != "iso_8859-15"@);
    reveal_strlit("iso885915");
    assert(lower_seq("windows-1255"@) != "iso885915"@);
    reveal_strlit("iso8859-15");
    assert(lower_seq("windows-1255"@) != "iso8859-15"@);
    reveal_strlit("iso-8859-15");
    assert(lower_seq("windows-1255"@) != "iso-8859-15"@);
    reveal_strlit("csisolatin9");
    assert(lower_seq("windows-1255"@) != "csisolatin9"@);
    reveal_strlit("iso-8859-16");
    assert(lower_seq("windows-1255"@) != "iso-8859-16"@);
    reveal_strlit("koi8_r");
    assert(lower_seq("windows-1255"@) != "koi8_r"@);
    reveal_strlit("koi8-r");
    assert(lower_seq("windows-1255"@) != "koi8-r"@);
    reveal_strlit("koi8");
    assert(lower_seq("windows-1255"@) != "koi8"@);
    reveal_strlit("koi");
    assert(lower_seq("windows-1255"@) != "koi"@);
    reveal_strlit("cskoi8r");
    assert(lower_seq("windows-1255"@) != "cskoi8r"@);
    reveal_strlit("koi8-u");
    assert(lower_seq("windows-1255"@) != "koi8-u"@);
    reveal_strlit("koi8-ru");
    assert(lower_seq("windows-1255"@) != "koi8-ru"@);
    reveal_strlit("x-mac-roman");
    assert(lower_seq("windows-1255"@) != "x-mac-roman"@);
    reveal_strlit("macintosh");
    assert(lower_seq("windows-1255"@) != "macintosh"@);
    reveal_strlit("mac");
    assert(lower_seq("windows-1255"@) != "mac"@);
    reveal_strlit("csmacintosh");
    assert(lower_seq("windows-1255"@) != "csmacintosh"@);
    reveal_strlit("windows-874");
    assert(lower_seq("windows-1255"@) != "windows-874"@);
    reveal_strlit("tis-620");
    assert(lower_seq("windows-1255"@) != "tis-620"@);
    reveal_strlit("iso885911");
    assert(lower_seq("windows-1255"@) != "iso885911"@);
    reveal_strlit("iso8859-11");
    assert(lower_seq("windows-1255"@) != "iso8859-11"@);
    reveal_strlit("iso-8859-11");
    assert(lower_seq("windows-1255"@) != "iso-8859-11"@);
    reveal_strlit("dos-874");
    assert(lower_seq("windows-1255"@) != "dos-874"@);
    reveal_strlit("x-cp1250");
    assert(lower_seq("windows-1255"@) != "x-cp1250"@);
    reveal_strlit("windows-1250");
    assert(lower_seq("windows-1255"@)[11] != "windows-1250"@[11]);
    reveal_strlit("cp1250");
    assert(lower_seq("windows-1255"@) != "cp1250"@);
    reveal_strlit("x-cp1251");
    assert(lower_seq("windows-1255"@) != "x-cp1251"@);
    reveal_strlit("windows-1251");
    assert(lower_seq("windows-1255"@)[11] != "windows-1251"@[11]);
    reveal_strlit("cp1251");
    assert(lower_seq("windows-1255"@) != "cp1251"@);
    reveal_strlit("x-cp1252");
    assert(lower_seq("windows-1255"@) != "x-cp1252"@);
    reveal_strlit("windows-1252");
    assert(lower_seq("windows-1255"@)[11] != "windows-1252"@[11]);
    reveal_strlit("us-ascii");
    assert(lower_seq("windows-1255"@) != "us-ascii"@);
    reveal_strlit("latin1");
    assert(lower_seq("windows-1255"@) != "latin1"@);
    reveal_strlit("l1");
    assert(lower_seq("windows-1255"@) != "l1"@);
    reveal_strlit("iso_8859-1:1987");
    assert(lower_seq("windows-1255"@) != "iso_8859-1:1987"@);
    reveal_strlit("iso_8859-1");
    assert(lower_seq("windows-1255"@) != "iso_8859-1"@);
    reveal_strlit("iso88591");
    assert(lower_seq("windows-1255"@) != "iso88591"@);
    reveal_strlit("iso8859-1");
    assert(lower_seq("windows-1255"@) != "iso8859-1"@);
    reveal_strlit("iso-ir-100");
    assert(lower_seq("windows-1255"@) != "iso-ir-100"@);
    reveal_strlit("iso-8859-1");
    assert(lower_seq("windows-1255"@) != "iso-8859-1"@);
    reveal_strlit("ibm819");
    assert(lower_seq("windows-1255"@) != "ibm819"@);
    reveal_strlit("csisolatin1");
    assert(lower_seq("windows-1255"@) != "csisolatin1"@);
    reveal_strlit("cp819");
    assert(lower_seq("windows-1255"@) != "cp819"@);
    reveal_strlit("cp1252");
    assert(lower_seq("windows-1255"@) != "cp1252"@);
    reveal_strlit("ascii");
    assert(lower_seq("windows-1255"@) != "ascii"@);
    reveal_strlit("ansi_x3.4-1968");
    assert(lower_seq("windows-1255"@) != "ansi_x3.4-1968"@);
    reveal_strlit("x-cp1253");
    assert(lower_seq("windows-1255"@) != "x-cp1253"@);
    reveal_strlit("windows-1253");
    assert(lower_seq("windows-1255"@)[11] != "windows-1253"@[11]);
    reveal_strlit("cp1253");
    assert(lower_seq("windows-1255"@) != "cp1253"@);
    reveal_strlit("x-cp1254");
    assert(lower_seq("windows-1255"@) != "x-cp1254"@);
    reveal_strlit("windows-1254");
    assert(lower_seq("windows-1255"@)[11] != "windows-1254"@[11]);
    reveal_strlit("latin5");
    assert(lower_seq("windows-1255"@) != "latin5"@);
    reveal_strlit("l5");
    assert(lower_seq("windows-1255"@) != "l5"@);
    reveal_strlit("iso_8859-9:1989");
    assert(lower_seq("windows-1255"@) != "iso_8859-9:1989"@);
    reveal_strlit("iso_8859-9");
    assert(lower_seq("windows-1255"@) != "iso_8859-9"@);
    reveal_strlit("iso88599");
    assert(lower_seq("windows-1255"@) != "iso88599"@);
    reveal_strlit("iso8859-9");
    assert(lower_seq("windows-1255"@) != "iso8859-9"@);
    reveal_strlit("iso-ir-148");
    assert(lower_seq("windows-1255"@) != "iso-ir-148"@);
    reveal_strlit("iso-8859-9");
    assert(lower_seq("windows-1255"@) != "iso-8859-9"@);
    reveal_strlit("csisolatin5");
    assert(lower_seq("windows-1255"@) != "csisolatin5"@);
    reveal_strlit("cp1254");
    assert(lower_seq("windows-1255"@) != "cp1254"@);
    assert(is_label_windows1255(lower_seq("windows-1255"@)));
}

proof fn lemma_round_trip_windows1256()
    ensures
        spec_parse(spec_canonical_name(CharacterEncoding::Windows1256)) == Ok::<
            CharacterEncoding,
            UnrecognizedLabel,
        >(CharacterEncoding::Windows1256),
{
    reveal_strlit("windows-1256");
    reveal_strlit("windows-1256");
    assert(lower_seq("windows-1256"@) =~= "windows-1256"@);
    reveal_strlit("x-unicode20utf8");
    assert(lower_seq("windows-1256"@) != "x-unicode20utf8"@);
    reveal_strlit("utf8");
    assert(lower_seq("windows-1256"@) != "utf8"@);
    reveal_strlit("utf-8");
    assert(lower_seq("windows-1256"@) != "utf-8"@);
    reveal_strlit("unicode20utf8");
    assert(lower_seq("windows-1256"@) != "unicode20utf8"@);
    reveal_strlit("unicode11utf8");
    assert(lower_seq("windows-1256"@) != "unicode11utf8"@);
    reveal_strlit("unicode-1-1-utf-8");
    assert(lower_seq("windows-1256"@) != "unicode-1-1-utf-8"@);
    reveal_strlit("ibm866");
    assert(lower_seq("windows-1256"@) != "ibm866"@);
    reveal_strlit("csibm866");
    assert(lower_seq("windows-1256"@) != "csibm866"@);
    reveal_strlit("cp866");
    assert(lower_seq("windows-1256"@) != "cp866"@);
    reveal_strlit("866");
    assert(lower_seq("windows-1256"@) != "866"@);
    reveal_strlit("latin2");
    assert(lower_seq("windows-1256"@) != "latin2"@);
    reveal_strlit("l2");
    assert(lower_seq("windows-1256"@) != "l2"@);
    reveal_strlit("iso_8859-2:1987");
    assert(lower_seq("windows-1256"@) != "iso_8859-2:1987"@);
    reveal_strlit("iso_8859-2");
    assert(lower_seq("windows-1256"@) != "iso_8859-2"@);
    reveal_strlit("iso88592");
    assert(lower_seq("windows-1256"@) != "iso88592"@);
    reveal_strlit("iso8859-2");
    assert(lower_seq("windows-1256"@) != "iso8859-2"@);
    reveal_strlit("iso-ir-101");
    assert(lower_seq("windows-1256"@) != "iso-ir-101"@);
    reveal_strlit("iso-8859-2");
    assert(lower_seq("windows-1256"@) != "iso-8859-2"@);
    reveal_strlit("csisolatin2");
    assert(lower_seq("windows-1256"@) != "csisolatin2"@);
    reveal_strlit("latin3");
    assert(lower_seq("windows-1256"@) != "latin3"@);
    reveal_strlit("l3");
    assert(lower_seq("windows-1256"@) != "l3"@);
    reveal_strlit("iso_8859-3:1988");
    assert(lower_seq("windows-1256"@) != "iso_8859-3:1988"@);
    reveal_strlit("iso_8859-3");
    assert(lower_seq("windows-1256"@) != "iso_8859-3"@);
    reveal_strlit("iso88593");
    assert(lower_seq("windows-1256"@) != "iso88593"@);
    reveal_strlit("iso8859-3");
    assert(lower_seq("windows-1256"@) != "iso8859-3"@);
    reveal_strlit("iso-ir-109");
    assert(lower_seq("windows-1256"@) != "iso-ir-109"@);
    reveal_strlit("iso-8859-3");
    assert(lower_seq("windows-1256"@) != "iso-8859-3"@);
    reveal_strlit("csisolatin3");
    assert(lower_seq("windows-1256"@) != "csisolatin3"@);
    reveal_strlit("latin4");
    assert(lower_seq("windows-1256"@) != "latin4"@);
    reveal_strlit("l4");
    assert(lower_seq("windows-1256"@) != "l4"@);
    reveal_strlit("iso_8859-4:1988");
    assert(lower_seq("windows-1256"@) != "iso_8859-4:1988"@);
    reveal_strlit("iso_8859-4");
    assert(lower_seq("windows-1256"@) != "iso_8859-4"@);
    reveal_strlit("iso88594");
    assert(lower_seq("windows-1256"@) != "iso88594"@);
    reveal_strlit("iso8859-4");
    assert(lower_seq("windows-1256"@) != "iso8859-4"@);
    reveal_strlit("iso-ir-110");
    assert(lower_seq("windows-1256"@) != "iso-ir-110"@);
    reveal_strlit("iso-8859-4");
    assert(lower_seq("windows-1256"@) != "iso-8859-4"@);
    reveal_strlit("csisolatin4");
    assert(lower_seq("windows-1256"@) != "csisolatin4"@);
    reveal_strlit("iso_8859-5:1988");
    assert(lower_seq("windows-1256"@) != "iso_8859-5:1988"@);
    reveal_strlit("iso_8859-5");
    assert(lower_seq("windows-1256"@) != "iso_8859-5"@);
    reveal_strlit("iso88595");
    assert(lower_seq("windows-1256"@) != "iso88595"@);
    reveal_strlit("iso8859-5");
    assert(lower_seq("windows-1256"@) != "iso8859-5"@);
    reveal_strlit("iso-ir-144");
    assert(lower_seq("windows-1256"@) != "iso-ir-144"@);
    reveal_strlit("iso-8859-5");
    assert(lower_seq("windows-1256"@) != "iso-8859-5"@);
    reveal_strlit("cyrillic");
    assert(lower_seq("windows-1256"@) != "cyrillic"@);
    reveal_strlit("csisolatincyrillic");
    assert(lower_seq("windows-1256"@) != "csisolatincyrillic"@);
    reveal_strlit("iso_8859-6:1987");
    assert(lower_seq("windows-1256"@) != "iso_8859-6:1987"@);
    reveal_strlit("iso_8859-6");
    assert(lower_seq("windows-1256"@) != "iso_8859-6"@);
    reveal_strlit("iso88596");
    assert(lower_seq("windows-1256"@) != "iso88596"@);
    reveal_strlit("iso8859-6");
    assert(lower_seq("windows-1256"@) != "iso8859-6"@);
    reveal_strlit("iso-ir-127");
    assert(lower_seq("windows-1256"@) != "iso-ir-127"@);
    reveal_strlit("iso-8859-6-i");
    assert(lower_seq("windows-1256"@)[0] != "iso-8859-6-i"@[0]);
    reveal_strlit("iso-8859-6-e");
    assert(lower_seq("windows-1256"@)[0] != "iso-8859-6-e"@[0]);
    reveal_strlit("iso-8859-6");
    assert(lower_seq("windows-1256"@) != "iso-8859-6"@);
    reveal_strlit("ecma-114");
    assert(lower_seq("windows-1256"@) != "ecma-114"@);
    reveal_strlit("csisolatinarabic");
    assert(lower_seq("windows-1256"@) != "csisolatinarabic"@);
    reveal_strlit("csiso88596i");
    assert(lower_seq("windows-1256"@) != "csiso88596i"@);
    reveal_strlit("csiso88596e");
    assert(lower_seq("windows-1256"@) != "csiso88596e"@);
    reveal_strlit("asmo-708");
    assert(lower_seq("windows-1256"@) != "asmo-708"@);
    reveal_strlit("arabic");
    assert(lower_seq("windows-1256"@) != "arabic"@);
    reveal_strlit("sun_eu_greek");
    assert(lower_seq("windows-1256"@)[0] != "sun_eu_greek"@[0]);
    reveal_strlit("iso_8859-7:1987");
    assert(lower_seq("windows-1256"@) != "iso_8859-7:1987"@);
    reveal_strlit("iso_8859-7");
    assert(lower_seq("windows-1256"@) != "iso_8859-7"@);
    reveal_strlit("iso88597");
    assert(lower_seq("windows-1256"@) != "iso88597"@);
    reveal_strlit("iso8859-7");
    assert(lower_seq("windows-1256"@) != "iso8859-7"@);
    reveal_strlit("iso-ir-126");
    assert(lower_seq("windows-1256"@) != "iso-ir-126"@);
    reveal_strlit("iso-8859-7");
    assert(lower_seq("windows-1256"@) != "iso-8859-7"@);
    reveal_strlit("greek8");
    assert(lower_seq("windows-1256"@) != "greek8"@);
    reveal_strlit("greek");
    assert(lower_seq("windows-1256"@) != "greek"@);
    reveal_strlit("elot_928");
    assert(lower_seq("windows-1256"@) != "elot_928"@);
    reveal_strlit("ecma-118");
    assert(lower_seq("windows-1256"@) != "ecma-118"@);
    reveal_strlit("csisolatingreek");
    assert(lower_seq("windows-1256"@) != "csisolatingreek"@);
    reveal_strlit("visual");
    assert(lower_seq("windows-1256"@) != "visual"@);
    reveal_strlit("iso_8859-8:1988");
    assert(lower_seq("windows-1256"@) != "iso_8859-8:1988"@);
    reveal_strlit("iso_8859-8");
    assert(lower_seq("windows-1256"@) != "iso_8859-8"@);
    reveal_strlit("iso88598");
    assert(lower_seq("windows-1256"@) != "iso88598"@);
    reveal_strlit("iso8859-8");
    assert(lower_seq("windows-1256"@) != "iso8859-8"@);
    reveal_strlit("iso-ir-138");
    assert(lower_seq("windows-1256"@) != "iso-ir-138"@);
    reveal_strlit("iso-8859-8-e");
    assert(lower_seq("windows-1256"@)[0] != "iso-8859-8-e"@[0]);
    reveal_strlit("iso-8859-8");
    assert(lower_seq("windows-1256"@) != "iso-8859-8"@);
    reveal_strlit("hebrew");
    assert(lower_seq("windows-1256"@) != "hebrew"@);
    reveal_strlit("csisolatinhebrew");
    assert(lower_seq("windows-1256"@) != "csisolatinhebrew"@);
    reveal_strlit("csiso88598e");
    assert(lower_seq("windows-1256"@) != "csiso88598e"@);
    reveal_strlit("logical");
    assert(lower_seq("windows-1256"@) != "logical"@);
    reveal_strlit("iso-8859-8-i");
    assert(lower_seq("windows-1256"@)[0] != "iso-8859-8-i"@[0]);
    reveal_strlit("csiso88598i");
    assert(lower_seq("windows-1256"@) != "csiso88598i"@);
    reveal_strlit("latin6");
    assert(lower_seq("windows-1256"@) != "latin6"@);
    reveal_strlit("l6");
    assert(lower_seq("windows-1256"@) != "l6"@);
    reveal_strlit("iso885910");
    assert(lower_seq("windows-1256"@) != "iso885910"@);
    reveal_strlit("iso8859-10");
    assert(lower_seq("windows-1256"@) != "iso8859-10"@);
    reveal_strlit("iso-ir-157");
    assert(lower_seq("windows-1256"@) != "iso-ir-157"@);
    reveal_strlit("iso-8859-10");
    assert(lower_seq("windows-1256"@) != "iso-8859-10"@);
    reveal_strlit("csisolatin6");
    assert(lower_seq("windows-1256"@) != "csisolatin6"@);
    reveal_strlit("iso885913");
    assert(lower_seq("windows-1256"@) != "iso885913"@);
    reveal_strlit("iso8859-13");
    assert(lower_seq("windows-1256"@) != "iso8859-13"@);
    reveal_strlit("iso-8859-13");
    assert(lower_seq("windows-1256"@) != "iso-8859-13"@);
    reveal_strlit("iso885914");
    assert(lower_seq("windows-1256"@) != "iso885914"@);
    reveal_strlit("iso8859-14");
    assert(lower_seq("windows-1256"@) != "iso8859-14"@);
    reveal_strlit("iso-8859-14");
    assert(lower_seq("windows-1256"@) != "iso-8859-14"@);
    reveal_strlit("l9");
    assert(lower_seq("windows-1256"@) != "l9"@);
    reveal_strlit("iso_8859-15");
    assert(lower_seq("windows-1256"@) != "iso_8859-15"@);
    reveal_strlit("iso885915");
    assert(lower_seq("windows-1256"@) != "iso885915"@);
    reveal_strlit("iso8859-15");
    assert(lower_seq("windows-1256"@) != "iso8859-15"@);
    reveal_strlit("iso-8859-15");
    assert(lower_seq("windows-1256"@) != "iso-8859-15"@);
    reveal_strlit("csisolatin9");
    assert(lower_seq("windows-1256"@) != "csisolatin9"@);
    reveal_strlit("iso-8859-16");
    assert(lower_seq("windows-1256"@) != "iso-8859-16"@);
    reveal_strlit("koi8_r");
    assert(lower_seq("windows-1256"@) != "koi8_r"@);
    reveal_strlit("koi8-r");
    assert(lower_seq("windows-1256"@) != "koi8-r"@);
    reveal_strlit("koi8");
    assert(lower_seq("windows-1256"@) != "koi8"@);
    reveal_strlit("koi");
    assert(lower_seq("windows-1256"@) != "koi"@);
    reveal_strlit("cskoi8r");
    assert(lower_seq("windows-1256"@) != "cskoi8r"@);
    reveal_strlit("koi8-u");
    assert(lower_seq("windows-1256"@) != "koi8-u"@);
    reveal_strlit("koi8-ru");
    assert(lower_seq("windows-1256"@) != "koi8-ru"@);
    reveal_strlit("x-mac-roman");
    assert(lower_seq("windows-1256"@) != "x-mac-roman"@);
    reveal_strlit("macintosh");
    assert(lower_seq("windows-1256"@) != "macintosh"@);
    reveal_strlit("mac");
    assert(lower_seq("windows-1256"@) != "mac"@);
    reveal_strlit("csmacintosh");
    assert(lower_seq("windows-1256"@) != "csmacintosh"@);
    reveal_strlit("windows-874");
    assert(lower_seq("windows-1256"@) != "windows-874"@);
    reveal_strlit("tis-620");
    assert(lower_seq("windows-1256"@) != "tis-620"@);
    reveal_strlit("iso885911");
    assert(lower_seq("windows-1256"@) != "iso885911"@);
    reveal_strlit("iso8859-11");
    assert(lower_seq("windows-1256"@) != "iso8859-11"@);
    reveal_strlit("iso-8859-11");
    assert(lower_seq("windows-1256"@) != "iso-8859-11"@);
    reveal_strlit("dos-874");
    assert(lower_seq("windows-1256"@) != "dos-874"@);
    reveal_strlit("x-cp1250");
    assert(lower_seq("windows-1256"@) != "x-cp1250"@);
    reveal_strlit("windows-1250");
    assert(lower_seq("windows-1256"@)[11] != "windows-1250"@[11]);
    reveal_strlit("cp1250");
    assert(lower_seq("windows-1256"@) != "cp1250"@);
    reveal_strlit("x-cp1251");
    assert(lower_seq("windows-1256"@) != "x-cp1251"@);
    reveal_strlit("windows-1251");
    assert(lower_seq("windows-1256"@)[11] != "windows-1251"@[11]);
    reveal_strlit("cp1251");
    assert(lower_seq("windows-1256"@) != "cp1251"@);
    reveal_strlit("x-cp1252");
    assert(lower_seq("windows-1256"@) != "x-cp1252"@);
    reveal_strlit("windows-1252");
    assert(lower_seq("windows-1256"@)[11] != "windows-1252"@[11]);
    reveal_strlit("us-ascii");
    assert(lower_seq("windows-1256"@) != "us-ascii"@);
    reveal_strlit("latin1");
    assert(lower_seq("windows-1256"@) != "latin1"@);
    reveal_strlit("l1");
    assert(lower_seq("windows-1256"@) != "l1"@);
    reveal_strlit("iso_8859-1:1987");
    assert(lower_seq("windows-1256"@) != "iso_8859-1:1987"@);
    reveal_strlit("iso_8859-1");
    assert(lower_seq("windows-1256"@) != "iso_8859-1"@);
    reveal_strlit("iso88591");
    assert(lower_seq("windows-1256"@) != "iso88591"@);
    reveal_strlit("iso8859-1");
    assert(lower_seq("windows-1256"@) != "iso8859-1"@);
    reveal_strlit("iso-ir-100");
    assert(lower_seq("windows-1256"@) != "iso-ir-100"@);
    reveal_strlit("iso-8859-1");
    assert(lower_seq("windows-1256"@) != "iso-8859-1"@);
    reveal_strlit("ibm819");
    assert(lower_seq("windows-1256"@) != "ibm819"@);
    reveal_strlit("csisolatin1");
    assert(lower_seq("windows-1256"@) != "csisolatin1"@);
    reveal_strlit("cp819");
    assert(lower_seq("windows-1256"@) != "cp819"@);
    reveal_strlit("cp1252");
    assert(lower_seq("windows-1256"@) != "cp1252"@);
    reveal_strlit("ascii");
    assert(lower_seq("windows-1256"@) != "ascii"@);
    reveal_strlit("ansi_x3.4-1968");
    assert(lower_seq("windows-1256"@) != "ansi_x3.4-1968"@);
    reveal_strlit("x-cp1253");
    assert(lower_seq("windows-1256"@) != "x-cp1253"@);
    reveal_strlit("windows-1253");
    assert(lower_seq("windows-1256"@)[11] != "windows-1253"@[11]);
    reveal_strlit("cp1253");
    assert(lower_seq("windows-1256"@) != "cp1253"@);
    reveal_strlit("x-cp1254");
    assert(lower_seq("windows-1256"@) != "x-cp1254"@);
    reveal_strlit("windows-1254");
    assert(lower_seq("windows-1256"@)[11] != "windows-1254"@[11]);
    reveal_strlit("latin5");
    assert(lower_seq("windows-1256"@) != "latin5"@);
    reveal_strlit("l5");
    assert(lower_seq("windows-1256"@) != "l5"@);
    reveal_strlit("iso_8859-9:1989");
    assert(lower_seq("windows-1256"@) != "iso_8859-9:1989"@);
    reveal_strlit("iso_8859-9");
    assert(lower_seq("windows-1256"@) != "iso_8859-9"@);
    reveal_strlit("iso88599");
    assert(lower_seq("windows-1256"@) != "iso88599"@);
    reveal_strlit("iso8859-9");
    assert(lower_seq("windows-1256"@) != "iso8859-9"@);
    reveal_strlit("iso-ir-148");
    assert(lower_seq("windows-1256"@) != "iso-ir-148"@);
    reveal_strlit("iso-8859-9");
    assert(lower_seq("windows-1256"@) != "iso-8859-9"@);
    reveal_strlit("csisolatin5");
    assert(lower_seq("windows-1256"@) != "csisolatin5"@);
    reveal_strlit("cp1254");
    assert(lower_seq("windows-1256"@) != "cp1254"@);
    reveal_strlit("x-cp1255");
    assert(lower_seq("windows-1256"@) != "x-cp1255"@);
    reveal_strlit("windows-1255");
    assert(lower_seq("windows-1256"@)[11] != "windows-1255"@[11]);
    reveal_strlit("cp1255");
    assert(lower_seq("windows-1256"@) != "cp1255"@);
    assert(is_label_windows1256(lower_seq("windows-1256"@)));
}

proof fn lemma_round_trip_windows1257()
    ensures
        spec_parse(spec_canonical_name(CharacterEncoding::Windows1257)) == Ok::<
            CharacterEncoding,
            UnrecognizedLabel,
        >(CharacterEncoding::Windows1257),
{
    reveal_strlit("windows-1257");
    reveal_strlit("windows-1257");
    assert(lower_seq("windows-1257"@) =~= "windows-1257"@);
    reveal_strlit("x-unicode20utf8");
    assert(lower_seq("windows-1257"@) != "x-unicode20utf8"@);
    reveal_strlit("utf8");
    assert(lower_seq("windows-1257"@) != "utf8"@);
    reveal_strlit("utf-8");
    assert(lower_seq("windows-1257"@) != "utf-8"@);
    reveal_strlit("unicode20utf8");
    assert(lower_seq("windows-1257"@) != "unicode20utf8"@);
    reveal_strlit("unicode11utf8");
    assert(lower_seq("windows-1257"@) != "unicode11utf8"@);
    reveal_strlit("unicode-1-1-utf-8");
    assert(lower_seq("windows-1257"@) != "unicode-1-1-utf-8"@);
    reveal_strlit("ibm866");
    assert(lower_seq("windows-1257"@) != "ibm866"@);
    reveal_strlit("csibm866");
    assert(lower_seq("windows-1257"@) != "csibm866"@);
    reveal_strlit("cp866");
    assert(lower_seq("windows-1257"@) != "cp866"@);
    reveal_strlit("866");
    assert(lower_seq("windows-1257"@) != "866"@);
    reveal_strlit("latin2");
    assert(lower_seq("windows-1257"@) != "latin2"@);
    reveal_strlit("l2");
    assert(lower_seq("windows-1257"@) != "l2"@);
    reveal_strlit("iso_8859-2:1987");
    assert(lower_seq("windows-1257"@) != "iso_8859-2:1987"@);
    reveal_strlit("iso_8859-2");
    assert(lower_seq("windows-1257"@) != "iso_8859-2"@);
    reveal_strlit("iso88592");
    assert(lower_seq("windows-1257"@) != "iso88592"@);
    reveal_strlit("iso8859-2");
    assert(lower_seq("windows-1257"@) != "iso8859-2"@);
    reveal_strlit("iso-ir-101");
    assert(lower_seq("windows-1257"@) != "iso-ir-101"@);
    reveal_strlit("iso-8859-2");
    assert(lower_seq("windows-1257"@) != "iso-8859-2"@);
    reveal_strlit("csisolatin2");
    assert(lower_seq("windows-1257"@) != "csisolatin2"@);
    reveal_strlit("latin3");
    assert(lower_seq("windows-1257"@) != "latin3"@);
    reveal_strlit("l3");
    assert(lower_seq("windows-1257"@) != "l3"@);
    reveal_strlit("iso_8859-3:1988");
    assert(lower_seq("windows-1257"@) != "iso_8859-3:1988"@);
    reveal_strlit("iso_8859-3");
    assert(lower_seq("windows-1257"@) != "iso_8859-3"@);
    reveal_strlit("iso88593");
    assert(lower_seq("windows-1257"@) != "iso88593"@);
    reveal_strlit("iso8859-3");
    assert(lower_seq("windows-1257"@) != "iso8859-3"@);
    reveal_strlit("iso-ir-109");
    assert(lower_seq("windows-1257"@) != "iso-ir-109"@);
    reveal_strlit("iso-8859-3");
    assert(lower_seq("windows-1257"@) != "iso-8859-3"@);
    reveal_strlit("csisolatin3");
    assert(lower_seq("windows-1257"@) != "csisolatin3"@);
    reveal_strlit("latin4");
    assert(lower_seq("windows-1257"@) != "latin4"@);
    reveal_strlit("l4");
    assert(lower_seq("windows-1257"@) != "l4"@);
    reveal_strlit("iso_8859-4:1988");
    assert(lower_seq("windows-1257"@) != "iso_8859-4:1988"@);
    reveal_strlit("iso_8859-4");
    assert(lower_seq("windows-1257"@) != "iso_8859-4"@);
    reveal_strlit("iso88594");
    assert(lower_seq("windows-1257"@) != "iso88594"@);
    reveal_strlit("iso8859-4");
    assert(lower_seq("windows-1257"@) != "iso8859-4"@);
    reveal_strlit("iso-ir-110");
    assert(lower_seq("windows-1257"@) != "iso-ir-110"@);
    reveal_strlit("iso-8859-4");
    assert(lower_seq("windows-1257"@) != "iso-8859-4"@);
    reveal_strlit("csisolatin4");
    assert(lower_seq("windows-1257"@) != "csisolatin4"@);
    reveal_strlit("iso_8859-5:1988");
    assert(lower_seq("windows-1257"@) != "iso_8859-5:1988"@);
    reveal_strlit("iso_8859-5");
    assert(lower_seq("windows-1257"@) != "iso_8859-5"@);
    reveal_strlit("iso88595");
    assert(lower_seq("windows-1257"@) != "iso88595"@);
    reveal_strlit("iso8859-5");
    assert(lower_seq("windows-1257"@) != "iso8859-5"@);
    reveal_strlit("iso-ir-144");
    assert(lower_seq("windows-1257"@) != "iso-ir-144"@);
    reveal_strlit("iso-8859-5");
    assert(lower_seq("windows-1257"@) != "iso-8859-5"@);
    reveal_strlit("cyrillic");
    assert(lower_seq("windows-1257"@) != "cyrillic"@);
    reveal_strlit("csisolatincyrillic");
    assert(lower_seq("windows-1257"@) != "csisolatincyrillic"@);
    reveal_strlit("iso_8859-6:1987");
    assert(lower_seq("windows-1257"@) != "iso_8859-6:1987"@);
    reveal_strlit("iso_8859-6");
    assert(lower_seq("windows-1257"@) != "iso_8859-6"@);
    reveal_strlit("iso88596");
    assert(lower_seq("windows-1257"@) != "iso88596"@);
    reveal_strlit("iso8859-6");
    assert(lower_seq("windows-1257"@) != "iso8859-6"@);
    reveal_strlit("iso-ir-127");
    assert(lower_seq("windows-1257"@) != "iso-ir-127"@);
    reveal_strlit("iso-8859-6-i");
    assert(lower_seq("windows-1257"@)[0] != "iso-8859-6-i"@[0]);
    reveal_strlit("iso-8859-6-e");
    assert(lower_seq("windows-1257"@)[0] != "iso-8859-6-e"@[0]);
    reveal_strlit("iso-8859-6");
    assert(lower_seq("windows-1257"@) != "iso-8859-6"@);
    reveal_strlit("ecma-114");
    assert(lower_seq("windows-1257"@) != "ecma-114"@);
    reveal_strlit("csisolatinarabic");
    assert(lower_seq("windows-1257"@) != "csisolatinarabic"@);
    reveal_strlit("csiso88596i");
    assert(lower_seq("windows-1257"@) != "csiso88596i"@);
    reveal_strlit("csiso88596e");
    assert(lower_seq("windows-1257"@) != "csiso88596e"@);
    reveal_strlit("asmo-708");
    assert(lower_seq("windows-1257"@) != "asmo-708"@);
    reveal_strlit("arabic");
    assert(lower_seq("windows-1257"@) != "arabic"@);
    reveal_strlit("sun_eu_greek");
    assert(lower_seq("windows-1257"@)[0] != "sun_eu_greek"@[0]);
    reveal_strlit("iso_8859-7:1987");
    assert(lower_seq("windows-1257"@) != "iso_8859-7:1987"@);
    reveal_strlit("iso_8859-7");
    assert(lower_seq("windows-1257"@) != "iso_8859-7"@);
    reveal_strlit("iso88597");
    assert(lower_seq("windows-1257"@) != "iso88597"@);
    reveal_strlit("iso8859-7");
    assert(lower_seq("windows-1257"@) != "iso8859-7"@);
    reveal_strlit("iso-ir-126");
    assert(lower_seq("windows-1257"@) != "iso-ir-126"@);
    reveal_strlit("iso-8859-7");
    assert(lower_seq("windows-1257"@) != "iso-8859-7"@);
    reveal_strlit("greek8");
    assert(lower_seq("windows-1257"@) != "greek8"@);
    reveal_strlit("greek");
    assert(lower_seq("windows-1257"@) != "greek"@);
    reveal_strlit("elot_928");
    assert(lower_seq("windows-1257"@) != "elot_928"@);
    reveal_strlit("ecma-118");
    assert(lower_seq("windows-1257"@) != "ecma-118"@);
    reveal_strlit("csisolatingreek");
    assert(lower_seq("windows-1257"@) != "csisolatingreek"@);
    reveal_strlit("visual");
    assert(lower_seq("windows-1257"@) != "visual"@);
    reveal_strlit("iso_8859-8:1988");
    assert(lower_seq("windows-1257"@) != "iso_8859-8:1988"@);
    reveal_strlit("iso_8859-8");
    assert(lower_seq("windows-1257"@) != "iso_8859-8"@);
    reveal_strlit("iso88598");
    assert(lower_seq("windows-1257"@) != "iso88598"@);
    reveal_strlit("iso8859-8");
    assert(lower_seq("windows-1257"@) != "iso8859-8"@);
    reveal_strlit("iso-ir-138");
    assert(lower_seq("windows-1257"@) != "iso-ir-138"@);
    reveal_strlit("iso-8859-8-e");
    assert(lower_seq("windows-1257"@)[0] != "iso-8859-8-e"@[0]);
    reveal_strlit("iso-8859-8");
    assert(lower_seq("windows-1257"@) != "iso-8859-8"@);
    reveal_strlit("hebrew");
    assert(lower_seq("windows-1257"@) != "hebrew"@);
    reveal_strlit("csisolatinhebrew");
    assert(lower_seq("windows-1257"@) != "csisolatinhebrew"@);
    reveal_strlit("csiso88598e");
    assert(lower_seq("windows-1257"@) != "csiso88598e"@);
    reveal_strlit("logical");
    assert(lower_seq("windows-1257"@) != "logical"@);
    reveal_strlit("iso-8859-8-i");
    assert(lower_seq("windows-1257"@)[0] != "iso-8859-8-i"@[0]);
    reveal_strlit("csiso88598i");
    assert(lower_seq("windows-1257"@) != "csiso88598i"@);
    reveal_strlit("latin6");
    assert(lower_seq("windows-1257"@) != "latin6"@);
    reveal_strlit("l6");
    assert(lower_seq("windows-1257"@) != "l6"@);
    reveal_strlit("iso885910");
    assert(lower_seq("windows-1257"@) != "iso885910"@);
    reveal_strlit("iso8859-10");
    assert(lower_seq("windows-1257"@) != "iso8859-10"@);
    reveal_strlit("iso-ir-157");
    assert(lower_seq("windows-1257"@) != "iso-ir-157"@);
    reveal_strlit("iso-8859-10");
    assert(lower_seq("windows-1257"@) != "iso-8859-10"@);
    reveal_strlit("csisolatin6");
    assert(lower_seq("windows-1257"@) != "csisolatin6"@);
    reveal_strlit("iso885913");
    assert(lower_seq("windows-1257"@) != "iso885913"@);
    reveal_strlit("iso8859-13");
    assert(lower_seq("windows-1257"@) != "iso8859-13"@);
    reveal_strlit("iso-8859-13");
    assert(lower_seq("windows-1257"@) != "iso-8859-13"@);
    reveal_strlit("iso885914");
    assert(lower_seq("windows-1257"@) != "iso885914"@);
    reveal_strlit("iso8859-14");
    assert(lower_seq("windows-1257"@) != "iso8859-14"@);
    reveal_strlit("iso-8859-14");
    assert(lower_seq("windows-1257"@) != "iso-8859-14"@);
    reveal_strlit("l9");
    assert(lower_seq("windows-1257"@) != "l9"@);
    reveal_strlit("iso_8859-15");
    assert(lower_seq("windows-1257"@) != "iso_8859-15"@);
    reveal_strlit("iso885915");
    assert(lower_seq("windows-1257"@) != "iso885915"@);
    reveal_strlit("iso8859-15");
    assert(lower_seq("windows-1257"@) != "iso8859-15"@);
    reveal_strlit("iso-8859-15");
    assert(lower_seq("windows-1257"@) != "iso-8859-15"@);
    reveal_strlit("csisolatin9");
    assert(lower_seq("windows-1257"@) != "csisolatin9"@);
    reveal_strlit("iso-8859-16");
    assert(lower_seq("windows-1257"@) != "iso-8859-16"@);
    reveal_strlit("koi8_r");
    assert(lower_seq("windows-1257"@) != "koi8_r"@);
    reveal_strlit("koi8-r");
    assert(lower_seq("windows-1257"@) != "koi8-r"@);
    reveal_strlit("koi8");
    assert(lower_seq("windows-1257"@) != "koi8"@);
    reveal_strlit("koi");
    assert(lower_seq("windows-1257"@) != "koi"@);
    reveal_strlit("cskoi8r");
    assert(lower_seq("windows-1257"@) != "cskoi8r"@);
    reveal_strlit("koi8-u");
    assert(lower_seq("windows-1257"@) != "koi8-u"@);
    reveal_strlit("koi8-ru");
    assert(lower_seq("windows-1257"@) != "koi8-ru"@);
    reveal_strlit("x-mac-roman");
    assert(lower_seq("windows-1257"@) != "x-mac-roman"@);
    reveal_strlit("macintosh");
    assert(lower_seq("windows-1257"@) != "macintosh"@);
    reveal_strlit("mac");
    assert(lower_seq("windows-1257"@) != "mac"@);
    reveal_strlit("csmacintosh");
    assert(lower_seq("windows-1257"@) != "csmacintosh"@);
    reveal_strlit("windows-874");
    assert(lower_seq("windows-1257"@) != "windows-874"@);
    reveal_strlit("tis-620");
    assert(lower_seq("windows-1257"@) != "tis-620"@);
    reveal_strlit("iso885911");
    assert(lower_seq("windows-1257"@) != "iso885911"@);
    reveal_strlit("iso8859-11");
    assert(lower_seq("windows-1257"@) != "iso8859-11"@);
    reveal_strlit("iso-8859-11");
    assert(lower_seq("windows-1257"@) != "iso-8859-11"@);
    reveal_strlit("dos-874");
    assert(lower_seq("windows-1257"@) != "dos-874"@);
    reveal_strlit("x-cp1250");
    assert(lower_seq("windows-1257"@) != "x-cp1250"@);
    reveal_strlit("windows-1250");
    assert(lower_seq("windows-1257"@)[11] != "windows-1250"@[11]);
    reveal_strlit("cp1250");
    assert(lower_seq("windows-1257"@) != "cp1250"@);
    reveal_strlit("x-cp1251");
    assert(lower_seq("windows-1257"@) != "x-cp1251"@);
    reveal_strlit("windows-1251");
    assert(lower_seq("windows-1257"@)[11] != "windows-1251"@[11]);
    reveal_strlit("cp1251");
    assert(lower_seq("windows-1257"@) != "cp1251"@);
    reveal_strlit("x-cp1252");
    assert(lower_seq("windows-1257"@) != "x-cp1252"@);
    reveal_strlit("windows-1252");
    assert(lower_seq("windows-1257"@)[11] != "windows-1252"@[11]);
    reveal_strlit("us-ascii");
    assert(lower_seq("windows-1257"@) != "us-ascii"@);
    reveal_strlit("latin1");
    assert(lower_seq("windows-1257"@) != "latin1"@);
    reveal_strlit("l1");
    assert(lower_seq("windows-1257"@) != "l1"@);
    reveal_strlit("iso_8859-1:1987");
    assert(lower_seq("windows-1257"@) != "iso_8859-1:1987"@);
    reveal_strlit("iso_8859-1");
    assert(lower_seq("windows-1257"@) != "iso_8859-1"@);
    reveal_strlit("iso88591");
    assert(lower_seq("windows-1257"@) != "iso88591"@);
    reveal_strlit("iso8859-1");
    assert(lower_seq("windows-1257"@) != "iso8859-1"@);
    reveal_strlit("iso-ir-100");
    assert(lower_seq("windows-1257"@) != "iso-ir-100"@);
    reveal_strlit("iso-8859-1");
    assert(lower_seq("windows-1257"@) != "iso-8859-1"@);
    reveal_strlit("ibm819");
    assert(lower_seq("windows-1257"@) != "ibm819"@);
    reveal_strlit("csisolatin1");
    assert(lower_seq("windows-1257"@) != "csisolatin1"@);
    reveal_strlit("cp819");
    assert(lower_seq("windows-1257"@) != "cp819"@);
    reveal_strlit("cp1252");
    assert(lower_seq("windows-1257"@) != "cp1252"@);
    reveal_strlit("ascii");
    assert(lower_seq("windows-1257"@) != "ascii"@);
    reveal_strlit("ansi_x3.4-1968");
    assert(lower_seq("windows-1257"@) != "ansi_x3.4-1968"@);
    reveal_strlit("x-cp1253");
    assert(lower_seq("windows-1257"@) != "x-cp1253"@);
    reveal_strlit("windows-1253");
    assert(lower_seq("windows-1257"@)[11] != "windows-1253"@[11]);
    reveal_strlit("cp1253");
    assert(lower_seq("windows-1257"@) != "cp1253"@);
    reveal_strlit("x-cp1254");
    assert(lower_seq("windows-1257"@) != "x-cp1254"@);
    reveal_strlit("windows-1254");
    assert(lower_seq("windows-1257"@)[11] != "windows-1254"@[11]);
    reveal_strlit("latin5");
    assert(lower_seq("windows-1257"@) != "latin5"@);
    reveal_strlit("l5");
    assert(lower_seq("windows-1257"@) != "l5"@);
    reveal_strlit("iso_8859-9:1989");
    assert(lower_seq("windows-1257"@) != "iso_8859-9:1989"@);
    reveal_strlit("iso_8859-9");
    assert(lower_seq("windows-1257"@) != "iso_8859-9"@);
    reveal_strlit("iso88599");
    assert(lower_seq("windows-1257"@) != "iso88599"@);
    reveal_strlit("iso8859-9");
    assert(lower_seq("windows-1257"@) != "iso8859-9"@);
    reveal_strlit("iso-ir-148");
    assert(lower_seq("windows-1257"@) != "iso-ir-148"@);
    reveal_strlit("iso-8859-9");
    assert(lower_seq("windows-1257"@) != "iso-8859-9"@);
    reveal_strlit("csisolatin5");
    assert(lower_seq("windows-1257"@) != "csisolatin5"@);
    reveal_strlit("cp1254");
    assert(lower_seq("windows-1257"@) != "cp1254"@);
    reveal_strlit("x-cp1255");
    assert(lower_seq("windows-1257"@) != "x-cp1255"@);
    reveal_strlit("windows-1255");
    assert(lower_seq("windows-1257"@)[11] != "windows-1255"@[11]);
    reveal_strlit("cp1255");
    assert(lower_seq("windows-1257"@) != "cp1255"@);
    reveal_strlit("x-cp1256");
    assert(lower_seq("windows-1257"@) != "x-cp1256"@);
    reveal_strlit("windows-1256");
    assert(lower_seq("windows-1257"@)[11] != "windows-1256"@[11]);
    reveal_strlit("cp1256");
    assert(lower_seq("windows-1257"@) != "cp1256"@);
    assert(is_label_windows1257(lower_seq("windows-1257"@)));
}

proof fn lemma_round_trip_windows1258()
    ensures
        spec_parse(spec_canonical_name(CharacterEncoding::Windows1258)) == Ok::<
            CharacterEncoding,
            UnrecognizedLabel,
        >(CharacterEncoding::Windows1258),
{
    reveal_strlit("windows-1258");
    reveal_strlit("windows-1258");
    assert(lower_seq("windows-1258"@) =~= "windows-1258"@);
    reveal_strlit("x-unicode20utf8");
    assert(lower_seq("windows-1258"@) != "x-unicode20utf8"@);
    reveal_strlit("utf8");
    assert(lower_seq("windows-1258"@) != "utf8"@);
    reveal_strlit("utf-8");
    assert(lower_seq("windows-1258"@) != "utf-8"@);
    reveal_strlit("unicode20utf8");
    assert(lower_seq("windows-1258"@) != "unicode20utf8"@);
    reveal_strlit("unicode11utf8");
    assert(lower_seq("windows-1258"@) != "unicode11utf8"@);
    reveal_strlit("unicode-1-1-utf-8");
    assert(lower_seq("windows-1258"@) != "unicode-1-1-utf-8"@);
    reveal_strlit("ibm866");
    assert(lower_seq("windows-1258"@) != "ibm866"@);
    reveal_strlit("csibm866");
    assert(lower_seq("windows-1258"@) != "csibm866"@);
    reveal_strlit("cp866");
    assert(lower_seq("windows-1258"@) != "cp866"@);
    reveal_strlit("866");
    assert(lower_seq("windows-1258"@) != "866"@);
    reveal_strlit("latin2");
    assert(lower_seq("windows-1258"@) != "latin2"@);
    reveal_strlit("l2");
    assert(lower_seq("windows-1258"@) != "l2"@);
    reveal_strlit("iso_8859-2:1987");
    assert(lower_seq("windows-1258"@) != "iso_8859-2:1987"@);
    reveal_strlit("iso_8859-2");
    assert(lower_seq("windows-1258"@) != "iso_8859-2"@);
    reveal_strlit("iso88592");
    assert(lower_seq("windows-1258"@) != "iso88592"@);
    reveal_strlit("iso8859-2");
    assert(lower_seq("windows-1258"@) != "iso8859-2"@);
    reveal_strlit("iso-ir-101");
    assert(lower_seq("windows-1258"@) != "iso-ir-101"@);
    reveal_strlit("iso-8859-2");
    assert(lower_seq("windows-1258"@) != "iso-8859-2"@);
    reveal_strlit("csisolatin2");
    assert(lower_seq("windows-1258"@) != "csisolatin2"@);
    reveal_strlit("latin3");
    assert(lower_seq("windows-1258"@) != "latin3"@);
    reveal_strlit("l3");
    assert(lower_seq("windows-1258"@) != "l3"@);
    reveal_strlit("iso_8859-3:1988");
    assert(lower_seq("windows-1258"@) != "iso_8859-3:1988"@);
    reveal_strlit("iso_8859-3");
    assert(lower_seq("windows-1258"@) != "iso_8859-3"@);
    reveal_strlit("iso88593");
    assert(lower_seq("windows-1258"@) != "iso88593"@);
    reveal_strlit("iso8859-3");
    assert(lower_seq("windows-1258"@) != "iso8859-3"@);
    reveal_strlit("iso-ir-109");
    assert(lower_seq("windows-1258"@) != "iso-ir-109"@);
    reveal_strlit("iso-8859-3");
    assert(lower_seq("windows-1258"@) != "iso-8859-3"@);
    reveal_strlit("csisolatin3");
    assert(lower_seq("windows-1258"@) != "csisolatin3"@);
    reveal_strlit("latin4");
    assert(lower_seq("windows-1258"@) != "latin4"@);
    reveal_strlit("l4");
    assert(lower_seq("windows-1258"@) != "l4"@);
    reveal_strlit("iso_8859-4:1988");
    assert(lower_seq("windows-1258"@) != "iso_8859-4:1988"@);
    reveal_strlit("iso_8859-4");
    assert(lower_seq("windows-1258"@) != "iso_8859-4"@);
    reveal_strlit("iso88594");
    assert(lower_seq("windows-1258"@) != "iso88594"@);
    reveal_strlit("iso8859-4");
    assert(lower_seq("windows-1258"@) != "iso8859-4"@);
    reveal_strlit("iso-ir-110");
    assert(lower_seq("windows-1258"@) != "iso-ir-110"@);
    reveal_strlit("iso-8859-4");
    assert(lower_seq("windows-1258"@) != "iso-8859-4"@);
    reveal_strlit("csisolatin4");
    assert(lower_seq("windows-1258"@) != "csisolatin4"@);
    reveal_strlit("iso_8859-5:1988");
    assert(lower_seq("windows-1258"@) != "iso_8859-5:1988"@);
    reveal_strlit("iso_8859-5");
    assert(lower_seq("windows-1258"@) != "iso_8859-5"@);
    reveal_strlit("iso88595");
    assert(lower_seq("windows-1258"@) != "iso88595"@);
    reveal_strlit("iso8859-5");
    assert(lower_seq("windows-1258"@) != "iso8859-5"@);
    reveal_strlit("iso-ir-144");
    assert(lower_seq("windows-1258"@) != "iso-ir-144"@);
    reveal_strlit("iso-8859-5");
    assert(lower_seq("windows-1258"@) != "iso-8859-5"@);
    reveal_strlit("cyrillic");
    assert(lower_seq("windows-1258"@) != "cyrillic"@);
    reveal_strlit("csisolatincyrillic");
    assert(lower_seq("windows-1258"@) != "csisolatincyrillic"@);
    reveal_strlit("iso_8859-6:1987");
    assert(lower_seq("windows-1258"@) != "iso_8859-6:1987"@);
    reveal_strlit("iso_8859-6");
    assert(lower_seq("windows-1258"@) != "iso_8859-6"@);
    reveal_strlit("iso88596");
    assert(lower_seq("windows-1258"@) != "iso88596"@);
    reveal_strlit("iso8859-6");
    assert(lower_seq("windows-1258"@) != "iso8859-6"@);
    reveal_strlit("iso-ir-127");
    assert(lower_seq("windows-1258"@) != "iso-ir-127"@);
    reveal_strlit("iso-8859-6-i");
    assert(lower_seq("windows-1258"@)[0] != "iso-8859-6-i"@[0]);
    reveal_strlit("iso-8859-6-e");
    assert(lower_seq("windows-1258"@)[0] != "iso-8859-6-e"@[0]);
    reveal_strlit("iso-8859-6");
    assert(lower_seq("windows-1258"@) != "iso-8859-6"@);
    reveal_strlit("ecma-114");
    assert(lower_seq("windows-1258"@) != "ecma-114"@);
    reveal_strlit("csisolatinarabic");
    assert(lower_seq("windows-1258"@) != "csisolatinarabic"@);
    reveal_strlit("csiso88596i");
    assert(lower_seq("windows-1258"@) != "csiso88596i"@);
    reveal_strlit("csiso88596e");
    assert(lower_seq("windows-1258"@) != "csiso88596e"@);
    reveal_strlit("asmo-708");
    assert(lower_seq("windows-1258"@) != "asmo-708"@);
    reveal_strlit("arabic");
    assert(lower_seq("windows-1258"@) != "arabic"@);
    reveal_strlit("sun_eu_greek");
    assert(lower_seq("windows-1258"@)[0] != "sun_eu_greek"@[0]);
    reveal_strlit("iso_8859-7:1987");
    assert(lower_seq("windows-1258"@) != "iso_8859-7:1987"@);
    reveal_strlit("iso_8859-7");
    assert(lower_seq("windows-1258"@) != "iso_8859-7"@);
    reveal_strlit("iso88597");
    assert(lower_seq("windows-1258"@) != "iso88597"@);
    reveal_strlit("iso8859-7");
    assert(lower_seq("windows-1258"@) != "iso8859-7"@);
    reveal_strlit("iso-ir-126");
    assert(lower_seq("windows-1258"@) != "iso-ir-126"@);
    reveal_strlit("iso-8859-7");
    assert(lower_seq("windows-1258"@) != "iso-8859-7"@);
    reveal_strlit("greek8");
    assert(lower_seq("windows-1258"@) != "greek8"@);
    reveal_strlit("greek");
    assert(lower_seq("windows-1258"@) != "greek"@);
    reveal_strlit("elot_928");
    assert(lower_seq("windows-1258"@) != "elot_928"@);
    reveal_strlit("ecma-118");
    assert(lower_seq("windows-1258"@) != "ecma-118"@);
    reveal_strlit("csisolatingreek");
    assert(lower_seq("windows-1258"@) != "csisolatingreek"@);
    reveal_strlit("visual");
    assert(lower_seq("windows-1258"@) != "visual"@);
    reveal_strlit("iso_8859-8:1988");
    assert(lower_seq("windows-1258"@) != "iso_8859-8:1988"@);
    reveal_strlit("iso_8859-8");
    assert(lower_seq("windows-1258"@) != "iso_8859-8"@);
    reveal_strlit("iso88598");
    assert(lower_seq("windows-1258"@) != "iso88598"@);
    reveal_strlit("iso8859-8");
    assert(lower_seq("windows-1258"@) != "iso8859-8"@);
    reveal_strlit("iso-ir-138");
    assert(lower_seq("windows-1258"@) != "iso-ir-138"@);
    reveal_strlit("iso-8859-8-e");
    assert(lower_seq("windows-1258"@)[0] != "iso-8859-8-e"@[0]);
    reveal_strlit("iso-8859-8");
    assert(lower_seq("windows-1258"@) != "iso-8859-8"@);
    reveal_strlit("hebrew");
    assert(lower_seq("windows-1258"@) != "hebrew"@);
    reveal_strlit("csisolatinhebrew");
    assert(lower_seq("windows-1258"@) != "csisolatinhebrew"@);
    reveal_strlit("csiso88598e");
    assert(lower_seq("windows-1258"@) != "csiso88598e"@);
    reveal_strlit("logical");
    assert(lower_seq("windows-1258"@) != "logical"@);
    reveal_strlit("iso-8859-8-i");
    assert(lower_seq("windows-1258"@)[0] != "iso-8859-8-i"@[0]);
    reveal_strlit("csiso88598i");
    assert(lower_seq("windows-1258"@) != "csiso88598i"@);
    reveal_strlit("latin6");
    assert(lower_seq("windows-1258"@) != "latin6"@);
    reveal_strlit("l6");
    assert(lower_seq("windows-1258"@) != "l6"@);
    reveal_strlit("iso885910");
    assert(lower_seq("windows-1258"@) != "iso885910"@);
    reveal_strlit("iso8859-10");
    assert(lower_seq("windows-1258"@) != "iso8859-10"@);
    reveal_strlit("iso-ir-157");
    assert(lower_seq("windows-1258"@) != "iso-ir-157"@);
    reveal_strlit("iso-8859-10");
    assert(lower_seq("windows-1258"@) != "iso-8859-10"@);
    reveal_strlit("csisolatin6");
    assert(lower_seq("windows-1258"@) != "csisolatin6"@);
    reveal_strlit("iso885913");
    assert(lower_seq("windows-1258"@) != "iso885913"@);
    reveal_strlit("iso8859-13");
    assert(lower_seq("windows-1258"@) != "iso8859-13"@);
    reveal_strlit("iso-8859-13");
    assert(lower_seq("windows-1258"@) != "iso-8859-13"@);
    reveal_strlit("iso885914");
    assert(lower_seq("windows-1258"@) != "iso885914"@);
    reveal_strlit("iso8859-14");
    assert(lower_seq("windows-1258"@) != "iso8859-14"@);
    reveal_strlit("iso-8859-14");
    assert(lower_seq("windows-1258"@) != "iso-8859-14"@);
    reveal_strlit("l9");
    assert(lower_seq("windows-1258"@) != "l9"@);
    reveal_strlit("iso_8859-15");
    assert(lower_seq("windows-1258"@) != "iso_8859-15"@);
    reveal_strlit("iso885915");
    assert(lower_seq("windows-1258"@) != "iso885915"@);
    reveal_strlit("iso8859-15");
    assert(lower_seq("windows-1258"@) != "iso8859-15"@);
    reveal_strlit("iso-8859-15");
    assert(lower_seq("windows-1258"@) != "iso-8859-15"@);
    reveal_strlit("csisolatin9");
    assert(lower_seq("windows-1258"@) != "csisolatin9"@);
    reveal_strlit("iso-8859-16");
    assert(lower_seq("windows-1258"@) != "iso-8859-16"@);
    reveal_strlit("koi8_r");
    assert(lower_seq("windows-1258"@) != "koi8_r"@);
    reveal_strlit("koi8-r");
    assert(lower_seq("windows-1258"@) != "koi8-r"@);
    reveal_strlit("koi8");
    assert(lower_seq("windows-1258"@) != "koi8"@);
    reveal_strlit("koi");
    assert(lower_seq("windows-1258"@) != "koi"@);
    reveal_strlit("cskoi8r");
    assert(lower_seq("windows-1258"@) != "cskoi8r"@);
    reveal_strlit("koi8-u");
    assert(lower_seq("windows-1258"@) != "koi8-u"@);
    reveal_strlit("koi8-ru");
    assert(lower_seq("windows-1258"@) != "koi8-ru"@);
    reveal_strlit("x-mac-roman");
    assert(lower_seq("windows-1258"@) != "x-mac-roman"@);
    reveal_strlit("macintosh");
    assert(lower_seq("windows-1258"@) != "macintosh"@);
    reveal_strlit("mac");
    assert(lower_seq("windows-1258"@) != "mac"@);
    reveal_strlit("csmacintosh");
    assert(lower_seq("windows-1258"@) != "csmacintosh"@);
    reveal_strlit("windows-874");
    assert(lower_seq("windows-1258"@) != "windows-874"@);
    reveal_strlit("tis-620");
    assert(lower_seq("windows-1258"@) != "tis-620"@);
    reveal_strlit("iso885911");
    assert(lower_seq("windows-1258"@) != "iso885911"@);
    reveal_strlit("iso8859-11");
    assert(lower_seq("windows-1258"@) != "iso8859-11"@);
    reveal_strlit("iso-8859-11");
    assert(lower_seq("windows-1258"@) != "iso-8859-11"@);
    reveal_strlit("dos-874");
    assert(lower_seq("windows-1258"@) != "dos-874"@);
    reveal_strlit("x-cp1250");
    assert(lower_seq("windows-1258"@) != "x-cp1250"@);
    reveal_strlit("windows-1250");
    assert(lower_seq("windows-1258"@)[11] != "windows-1250"@[11]);
    reveal_strlit("cp1250");
    assert(lower_seq("windows-1258"@) != "cp1250"@);
    reveal_strlit("x-cp1251");
    assert(lower_seq("windows-1258"@) != "x-cp1251"@);
    reveal_strlit("windows-1251");
    assert(lower_seq("windows-1258"@)[11] != "windows-1251"@[11]);
    reveal_strlit("cp1251");
    assert(lower_seq("windows-1258"@) != "cp1251"@);
    reveal_strlit("x-cp1252");
    assert(lower_seq("windows-1258"@) != "x-cp1252"@);
    reveal_strlit("windows-1252");
    assert(lower_seq("windows-1258"@)[11] != "windows-1252"@[11]);
    reveal_strlit("us-ascii");
    assert(lower_seq("windows-1258"@) != "us-ascii"@);
    reveal_strlit("latin1");
    assert(lower_seq("windows-1258"@) != "latin1"@);
    reveal_strlit("l1");
    assert(lower_seq("windows-1258"@) != "l1"@);
    reveal_strlit("iso_8859-1:1987");
    assert(lower_seq("windows-1258"@) != "iso_8859-1:1987"@);
    reveal_strlit("iso_8859-1");
    assert(lower_seq("windows-1258"@) != "iso_8859-1"@);
    reveal_strlit("iso88591");
    assert(lower_seq("windows-1258"@) != "iso88591"@);
    reveal_strlit("iso8859-1");
    assert(lower_seq("windows-1258"@) != "iso8859-1"@);
    reveal_strlit("iso-ir-100");
    assert(lower_seq("windows-1258"@) != "iso-ir-100"@);
    reveal_strlit("iso-8859-1");
    assert(lower_seq("windows-1258"@) != "iso-8859-1"@);
    reveal_strlit("ibm819");
    assert(lower_seq("windows-1258"@) != "ibm819"@);
    reveal_strlit("csisolatin1");
    assert(lower_seq("windows-1258"@) != "csisolatin1"@);
    reveal_strlit("cp819");
    assert(lower_seq("windows-1258"@) != "cp819"@);
    reveal_strlit("cp1252");
    assert(lower_seq("windows-1258"@) != "cp1252"@);
    reveal_strlit("ascii");
    assert(lower_seq("windows-1258"@) != "ascii"@);
    reveal_strlit("ansi_x3.4-1968");
    assert(lower_seq("windows-1258"@) != "ansi_x3.4-1968"@);
    reveal_strlit("x-cp1253");
    assert(lower_seq("windows-1258"@) != "x-cp1253"@);
    reveal_strlit("windows-1253");
    assert(lower_seq("windows-1258"@)[11] != "windows-1253"@[11]);
    reveal_strlit("cp1253");
    assert(lower_seq("windows-1258"@) != "cp1253"@);
    reveal_strlit("x-cp1254");
    assert(lower_seq("windows-1258"@) != "x-cp1254"@);
    reveal_strlit("windows-1254");
    assert(lower_seq("windows-1258"@)[11] != "windows-1254"@[11]);
    reveal_strlit("latin5");
    assert(lower_seq("windows-1258"@) != "latin5"@);
    reveal_strlit("l5");
    assert(lower_seq("windows-1258"@) != "l5"@);
    reveal_strlit("iso_8859-9:1989");
    assert(lower_seq("windows-1258"@) != "iso_8859-9:1989"@);
    reveal_strlit("iso_8859-9");
    assert(lower_seq("windows-1258"@) != "iso_8859-9"@);
    reveal_strlit("iso88599");
    assert(lower_seq("windows-1258"@) != "iso88599"@);
    reveal_strlit("iso8859-9");
    assert(lower_seq("windows-1258"@) != "iso8859-9"@);
    reveal_strlit("iso-ir-148");
    assert(lower_seq("windows-1258"@) != "iso-ir-148"@);
    reveal_strlit("iso-8859-9");
    assert(lower_seq("windows-1258"@) != "iso-8859-9"@);
    reveal_strlit("csisolatin5");
    assert(lower_seq("windows-1258"@) != "csisolatin5"@);
    reveal_strlit("cp1254");
    assert(lower_seq("windows-1258"@) != "cp1254"@);
    reveal_strlit("x-cp1255");
    assert(lower_seq("windows-1258"@) != "x-cp1255"@);
    reveal_strlit("windows-1255");
    assert(lower_seq("windows-1258"@)[11] != "windows-1255"@[11]);
    reveal_strlit("cp1255");
    assert(lower_seq("windows-1258"@) != "cp1255"@);
    reveal_strlit("x-cp1256");
    assert(lower_seq("windows-1258"@) != "x-cp1256"@);
    reveal_strlit("windows-1256");
    assert(lower_seq("windows-1258"@)[11] != "windows-1256"@[11]);
    reveal_strlit("cp1256");
    assert(lower_seq("windows-1258"@) != "cp1256"@);
    reveal_strlit("x-cp1257");
    assert(lower_seq("windows-1258"@) != "x-cp1257"@);
    reveal_strlit("windows-1257");
    assert(lower_seq("windows-1258"@)[11] != "windows-1257"@[11]);
    reveal_strlit("cp1257");
    assert(lower_seq("windows-1258"@) != "cp1257"@);
    assert(is_label_windows1258(lower_seq("windows-1258"@)));
}

proof fn lemma_round_trip_xmac_cyrillic()
    ensures
        spec_parse(spec_canonical_name(CharacterEncoding::XMacCyrillic)) == Ok::<
            CharacterEncoding,
            UnrecognizedLabel,
        >(CharacterEncoding::XMacCyrillic),
{
    reveal_strlit("x-mac-cyrillic");
    reveal_strlit("x-mac-cyrillic");
    assert(lower_seq("x-mac-cyrillic"@) =~= "x-mac-cyrillic"@);
    reveal_strlit("x-unicode20utf8");
    assert(lower_seq("x-mac-cyrillic"@) != "x-unicode20utf8"@);
    reveal_strlit("utf8");
    assert(lower_seq("x-mac-cyrillic"@) != "utf8"@);
    reveal_strlit("utf-8");
    assert(lower_seq("x-mac-cyrillic"@) != "utf-8"@);
    reveal_strlit("unicode20utf8");
    assert(lower_seq("x-mac-cyrillic"@) != "unicode20utf8"@);
    reveal_strlit("unicode11utf8");
    assert(lower_seq("x-mac-cyrillic"@) != "unicode11utf8"@);
    reveal_strlit("unicode-1-1-utf-8");
    assert(lower_seq("x-mac-cyrillic"@) != "unicode-1-1-utf-8"@);
    reveal_strlit("ibm866");
    assert(lower_seq("x-mac-cyrillic"@) != "ibm866"@);
    reveal_strlit("csibm866");
    assert(lower_seq("x-mac-cyrillic"@) != "csibm866"@);
    reveal_strlit("cp866");
    assert(lower_seq("x-mac-cyrillic"@) != "cp866"@);
    reveal_strlit("866");
    assert(lower_seq("x-mac-cyrillic"@) != "866"@);
    reveal_strlit("latin2");
    assert(lower_seq("x-mac-cyrillic"@) != "latin2"@);
    reveal_strlit("l2");
    assert(lower_seq("x-mac-cyrillic"@) != "l2"@);
    reveal_strlit("iso_8859-2:1987");
    assert(lower_seq("x-mac-cyrillic"@) != "iso_8859-2:1987"@);
    reveal_strlit("iso_8859-2");
    assert(lower_seq("x-mac-cyrillic"@) != "iso_8859-2"@);
    reveal_strlit("iso88592");
    assert(lower_seq("x-mac-cyrillic"@) != "iso88592"@);
    reveal_strlit("iso8859-2");
    assert(lower_seq("x-mac-cyrillic"@) != "iso8859-2"@);
    reveal_strlit("iso-ir-101");
    assert(lower_seq("x-mac-cyrillic"@) != "iso-ir-101"@);
    reveal_strlit("iso-8859-2");
    assert(lower_seq("x-mac-cyrillic"@) != "iso-8859-2"@);
    reveal_strlit("csisolatin2");
    assert(lower_seq("x-mac-cyrillic"@) != "csisolatin2"@);
    reveal_strlit("latin3");
    assert(lower_seq("x-mac-cyrillic"@) != "latin3"@);
    reveal_strlit("l3");
    assert(lower_seq("x-mac-cyrillic"@) != "l3"@);
    reveal_strlit("iso_8859-3:1988");
    assert(lower_seq("x-mac-cyrillic"@) != "iso_8859-3:1988"@);
    reveal_strlit("iso_8859-3");
    assert(lower_seq("x-mac-cyrillic"@) != "iso_8859-3"@);
    reveal_strlit("iso88593");
    assert(lower_seq("x-mac-cyrillic"@) != "iso88593"@);
    reveal_strlit("iso8859-3");
    assert(lower_seq("x-mac-cyrillic"@) != "iso8859-3"@);
    reveal_strlit("iso-ir-109");
    assert(lower_seq("x-mac-cyrillic"@) != "iso-ir-109"@);
    reveal_strlit("iso-8859-3");
    assert(lower_seq("x-mac-cyrillic"@) != "iso-8859-3"@);
    reveal_strlit("csisolatin3");
    assert(lower_seq("x-mac-cyrillic"@) != "csisolatin3"@);
    reveal_strlit("latin4");
    assert(lower_seq("x-mac-cyrillic"@) != "latin4"@);
    reveal_strlit("l4");
    assert(lower_seq("x-mac-cyrillic"@) != "l4"@);
    reveal_strlit("iso_8859-4:1988");
    assert(lower_seq("x-mac-cyrillic"@) != "iso_8859-4:1988"@);
    reveal_strlit("iso_8859-4");
    assert(lower_seq("x-mac-cyrillic"@) != "iso_8859-4"@);
    reveal_strlit("iso88594");
    assert(lower_seq("x-mac-cyrillic"@) != "iso88594"@);
    reveal_strlit("iso8859-4");
    assert(lower_seq("x-mac-cyrillic"@) != "iso8859-4"@);
    reveal_strlit("iso-ir-110");
    assert(lower_seq("x-mac-cyrillic"@) != "iso-ir-110"@);
    reveal_strlit("iso-8859-4");
    assert(lower_seq("x-mac-cyrillic"@) != "iso-8859-4"@);
    reveal_strlit("csisolatin4");
    assert(lower_seq("x-mac-cyrillic"@) != "csisolatin4"@);
    reveal_strlit("iso_8859-5:1988");
    assert(lower_seq("x-mac-cyrillic"@) != "iso_8859-5:1988"@);
    reveal_strlit("iso_8859-5");
    assert(lower_seq("x-mac-cyrillic"@) != "iso_8859-5"@);
    reveal_strlit("iso88595");
    assert(lower_seq("x-mac-cyrillic"@) != "iso88595"@);
    reveal_strlit("iso8859-5");
    assert(lower_seq("x-mac-cyrillic"@) != "iso8859-5"@);
    reveal_strlit("iso-ir-144");
    assert(lower_seq("x-mac-cyrillic"@) != "iso-ir-144"@);
    reveal_strlit("iso-8859-5");
    assert(lower_seq("x-mac-cyrillic"@) != "iso-8859-5"@);
    reveal_strlit("cyrillic");
    assert(lower_seq("x-mac-cyrillic"@) != "cyrillic"@);
    reveal_strlit("csisolatincyrillic");
    assert(lower_seq("x-mac-cyrillic"@) != "csisolatincyrillic"@);
    reveal_strlit("iso_8859-6:1987");
    assert(lower_seq("x-mac-cyrillic"@) != "iso_8859-6:1987"@);
    reveal_strlit("iso_8859-6");
    assert(lower_seq("x-mac-cyrillic"@) != "iso_8859-6"@);
    reveal_strlit("iso88596");
    assert(lower_seq("x-mac-cyrillic"@) != "iso88596"@);
    reveal_strlit("iso8859-6");
    assert(lower_seq("x-mac-cyrillic"@) != "iso8859-6"@);
    reveal_strlit("iso-ir-127");
    assert(lower_seq("x-mac-cyrillic"@) != "iso-ir-127"@);
    reveal_strlit("iso-8859-6-i");
    assert(lower_seq("x-mac-cyrillic"@) != "iso-8859-6-i"@);
    reveal_strlit("iso-8859-6-e");
    assert(lower_seq("x-mac-cyrillic"@) != "iso-8859-6-e"@);
    reveal_strlit("iso-8859-6");
    assert(lower_seq("x-mac-cyrillic"@) != "iso-8859-6"@);
    reveal_strlit("ecma-114");
    assert(lower_seq("x-mac-cyrillic"@) != "ecma-114"@);
    reveal_strlit("csisolatinarabic");
    assert(lower_seq("x-mac-cyrillic"@) != "csisolatinarabic"@);
    reveal_strlit("csiso88596i");
    assert(lower_seq("x-mac-cyrillic"@) != "csiso88596i"@);
    reveal_strlit("csiso88596e");
    assert(lower_seq("x-mac-cyrillic"@) != "csiso88596e"@);
    reveal_strlit("asmo-708");
    assert(lower_seq("x-mac-cyrillic"@) != "asmo-708"@);
    reveal_strlit("arabic");
    assert(lower_seq("x-mac-cyrillic"@) != "arabic"@);
    reveal_strlit("sun_eu_greek");
    assert(lower_seq("x-mac-cyrillic"@) != "sun_eu_greek"@);
    reveal_strlit("iso_8859-7:1987");
    assert(lower_seq("x-mac-cyrillic"@) != "iso_8859-7:1987"@);
    reveal_strlit("iso_8859-7");
    assert(lower_seq("x-mac-cyrillic"@) != "iso_8859-7"@);
    reveal_strlit("iso88597");
    assert(lower_seq("x-mac-cyrillic"@) != "iso88597"@);
    reveal_strlit("iso8859-7");
    assert(lower_seq("x-mac-cyrillic"@) != "iso8859-7"@);
    reveal_strlit("iso-ir-126");
    assert(lower_seq("x-mac-cyrillic"@) != "iso-ir-126"@);
    reveal_strlit("iso-8859-7");
    assert(lower_seq("x-mac-cyrillic"@) != "iso-8859-7"@);
    reveal_strlit("greek8");
    assert(lower_seq("x-mac-cyrillic"@) != "greek8"@);
    reveal_strlit("greek");
    assert(lower_seq("x-mac-cyrillic"@) != "greek"@);
    reveal_strlit("elot_928");
    assert(lower_seq("x-mac-cyrillic"@) != "elot_928"@);
    reveal_strlit("ecma-118");
    assert(lower_seq("x-mac-cyrillic"@) != "ecma-118"@);
    reveal_strlit("csisolatingreek");
    assert(lower_seq("x-mac-cyrillic"@) != "csisolatingreek"@);
    reveal_strlit("visual");
    assert(lower_seq("x-mac-cyrillic"@) != "visual"@);
    reveal_strlit("iso_8859-8:1988");
    assert(lower_seq("x-mac-cyrillic"@) != "iso_8859-8:1988"@);
    reveal_strlit("iso_8859-8");
    assert(lower_seq("x-mac-cyrillic"@) != "iso_8859-8"@);
    reveal_strlit("iso88598");
    assert(lower_seq("x-mac-cyrillic"@) != "iso88598"@);
    reveal_strlit("iso8859-8");
    assert(lower_seq("x-mac-cyrillic"@) != "iso8859-8"@);
    reveal_strlit("iso-ir-138");
    assert(lower_seq("x-mac-cyrillic"@) != "iso-ir-138"@);
    reveal_strlit("iso-8859-8-e");
    assert(lower_seq("x-mac-cyrillic"@) != "iso-8859-8-e"@);
    reveal_strlit("iso-8859-8");
    assert(lower_seq("x-mac-cyrillic"@) != "iso-8859-8"@);
    reveal_strlit("hebrew");
    assert(lower_seq("x-mac-cyrillic"@) != "hebrew"@);
    reveal_strlit("csisolatinhebrew");
    assert(lower_seq("x-mac-cyrillic"@) != "csisolatinhebrew"@);
    reveal_strlit("csiso88598e");
    assert(lower_seq("x-mac-cyrillic"@) != "csiso88598e"@);
    reveal_strlit("logical");
    assert(lower_seq("x-mac-cyrillic"@) != "logical"@);
    reveal_strlit("iso-8859-8-i");
    assert(lower_seq("x-mac-cyrillic"@) != "iso-8859-8-i"@);
    reveal_strlit("csiso88598i");
    assert(lower_seq("x-mac-cyrillic"@) != "csiso88598i"@);
    reveal_strlit("latin6");
    assert(lower_seq("x-mac-cyrillic"@) != "latin6"@);
    reveal_strlit("l6");
    assert(lower_seq("x-mac-cyrillic"@) != "l6"@);
    reveal_strlit("iso885910");
    assert(lower_seq("x-mac-cyrillic"@) != "iso885910"@);
    reveal_strlit("iso8859-10");
    assert(lower_seq("x-mac-cyrillic"@) != "iso8859-10"@);
    reveal_strlit("iso-ir-157");
    assert(lower_seq("x-mac-cyrillic"@) != "iso-ir-157"@);
    reveal_strlit("iso-8859-10");
    assert(lower_seq("x-mac-cyrillic"@) != "iso-8859-10"@);
    reveal_strlit("csisolatin6");
    assert(lower_seq("x-mac-cyrillic"@) != "csisolatin6"@);
    reveal_strlit("iso885913");
    assert(lower_seq("x-mac-cyrillic"@) != "iso885913"@);
    reveal_strlit("iso8859-13");
    assert(lower_seq("x-mac-cyrillic"@) != "iso8859-13"@);
    reveal_strlit("iso-8859-13");
    assert(lower_seq("x-mac-cyrillic"@) != "iso-8859-13"@);
    reveal_strlit("iso885914");
    assert(lower_seq("x-mac-cyrillic"@) != "iso885914"@);
    reveal_strlit("iso8859-14");
    assert(lower_seq("x-mac-cyrillic"@) != "iso8859-14"@);
    reveal_strlit("iso-8859-14");
    assert(lower_seq("x-mac-cyrillic"@) != "iso-8859-14"@);
    reveal_strlit("l9");
    assert(lower_seq("x-mac-cyrillic"@) != "l9"@);
    reveal_strlit("iso_8859-15");
    assert(lower_seq("x-mac-cyrillic"@) != "iso_8859-15"@);
    reveal_strlit("iso885915");
    assert(lower_seq("x-mac-cyrillic"@) != "iso885915"@);
    reveal_strlit("iso8859-15");
    assert(lower_seq("x-mac-cyrillic"@) != "iso8859-15"@);
    reveal_strlit("iso-8859-15");
    assert(lower_seq("x-mac-cyrillic"@) != "iso-8859-15"@);
    reveal_strlit("csisolatin9");
    assert(lower_seq("x-mac-cyrillic"@) != "csisolatin9"@);
    reveal_strlit("iso-8859-16");
    assert(lower_seq("x-mac-cyrillic"@) != "iso-8859-16"@);
    reveal_strlit("koi8_r");
    assert(lower_seq("x-mac-cyrillic"@) != "koi8_r"@);
    reveal_strlit("koi8-r");
    assert(lower_seq("x-mac-cyrillic"@) != "koi8-r"@);
    reveal_strlit("koi8");
    assert(lower_seq("x-mac-cyrillic"@) != "koi8"@);
    reveal_strlit("koi");
    assert(lower_seq("x-mac-cyrillic"@) != "koi"@);
    reveal_strlit("cskoi8r");
    assert(lower_seq("x-mac-cyrillic"@) != "cskoi8r"@);
    reveal_strlit("koi8-u");
    assert(lower_seq("x-mac-cyrillic"@) != "koi8-u"@);
    reveal_strlit("koi8-ru");
    assert(lower_seq("x-mac-cyrillic"@) != "koi8-ru"@);
    reveal_strlit("x-mac-roman");
    assert(lower_seq("x-mac-cyrillic"@) != "x-mac-roman"@);
    reveal_strlit("macintosh");
    assert(lower_seq("x-mac-cyrillic"@) != "macintosh"@);
    reveal_strlit("mac");
    assert(lower_seq("x-mac-cyrillic"@) != "mac"@);
    reveal_strlit("csmacintosh");
    assert(lower_seq("x-mac-cyrillic"@) != "csmacintosh"@);
    reveal_strlit("windows-874");
    assert(lower_seq("x-mac-cyrillic"@) != "windows-874"@);
    reveal_strlit("tis-620");
    assert(lower_seq("x-mac-cyrillic"@) != "tis-620"@);
    reveal_strlit("iso885911");
    assert(lower_seq("x-mac-cyrillic"@) != "iso885911"@);
    reveal_strlit("iso8859-11");
    assert(lower_seq("x-mac-cyrillic"@) != "iso8859-11"@);
    reveal_strlit("iso-8859-11");
    assert(lower_seq("x-mac-cyrillic"@) != "iso-8859-11"@);
    reveal_strlit("dos-874");
    assert(lower_seq("x-mac-cyrillic"@) != "dos-874"@);
    reveal_strlit("x-cp1250");
    assert(lower_seq("x-mac-cyrillic"@) != "x-cp1250"@);
    reveal_strlit("windows-1250");
    assert(lower_seq("x-mac-cyrillic"@) != "windows-1250"@);
    reveal_strlit("cp1250");
    assert(lower_seq("x-mac-cyrillic"@) != "cp1250"@);
    reveal_strlit("x-cp1251");
    assert(lower_seq("x-mac-cyrillic"@) != "x-cp1251"@);
    reveal_strlit("windows-1251");
    assert(lower_seq("x-mac-cyrillic"@) != "windows-1251"@);
    reveal_strlit("cp1251");
    assert(lower_seq("x-mac-cyrillic"@) != "cp1251"@);
    reveal_strlit("x-cp1252");
    assert(lower_seq("x-mac-cyrillic"@) != "x-cp1252"@);
    reveal_strlit("windows-1252");
    assert(lower_seq("x-mac-cyrillic"@) != "windows-1252"@);
    reveal_strlit("us-ascii");
    assert(lower_seq("x-mac-cyrillic"@) != "us-ascii"@);
    reveal_strlit("latin1");
    assert(lower_seq("x-mac-cyrillic"@) != "latin1"@);
    reveal_strlit("l1");
    assert(lower_seq("x-mac-cyrillic"@) != "l1"@);
    reveal_strlit("iso_8859-1:1987");
    assert(lower_seq("x-mac-cyrillic"@) != "iso_8859-1:1987"@);
    reveal_strlit("iso_8859-1");
    assert(lower_seq("x-mac-cyrillic"@) != "iso_8859-1"@);
    reveal_strlit("iso88591");
    assert(lower_seq("x-mac-cyrillic"@) != "iso88591"@);
    reveal_strlit("iso8859-1");
    assert(lower_seq("x-mac-cyrillic"@) != "iso8859-1"@);
    reveal_strlit("iso-ir-100");
    assert(lower_seq("x-mac-cyrillic"@) != "iso-ir-100"@);
    reveal_strlit("iso-8859-1");
    assert(lower_seq("x-mac-cyrillic"@) != "iso-8859-1"@);
    reveal_strlit("ibm819");
    assert(lower_seq("x-mac-cyrillic"@) != "ibm819"@);
    reveal_strlit("csisolatin1");
    assert(lower_seq("x-mac-cyrillic"@) != "csisolatin1"@);
    reveal_strlit("cp819");
    assert(lower_seq("x-mac-cyrillic"@) != "cp819"@);
    reveal_strlit("cp1252");
    assert(lower_seq("x-mac-cyrillic"@) != "cp1252"@);
    reveal_strlit("ascii");
    assert(lower_seq("x-mac-cyrillic"@) != "ascii"@);
    reveal_strlit("ansi_x3.4-1968");
    assert(lower_seq("x-mac-cyrillic"@)[0] != "ansi_x3.4-1968"@[0]);
    reveal_strlit("x-cp1253");
    assert(lower_seq("x-mac-cyrillic"@) != "x-cp1253"@);
    reveal_strlit("windows-1253");
    assert(lower_seq("x-mac-cyrillic"@) != "windows-1253"@);
    reveal_strlit("cp1253");
    assert(lower_seq("x-mac-cyrillic"@) != "cp1253"@);
    reveal_strlit("x-cp1254");
    assert(lower_seq("x-mac-cyrillic"@) != "x-cp1254"@);
    reveal_strlit("windows-1254");
    assert(lower_seq("x-mac-cyrillic"@) != "windows-1254"@);
    reveal_strlit("latin5");
    assert(lower_seq("x-mac-cyrillic"@) != "latin5"@);
    reveal_strlit("l5");
    assert(lower_seq("x-mac-cyrillic"@) != "l5"@);
    reveal_strlit("iso_8859-9:1989");
    assert(lower_seq("x-mac-cyrillic"@) != "iso_8859-9:1989"@);
    reveal_strlit("iso_8859-9");
    assert(lower_seq("x-mac-cyrillic"@) != "iso_8859-9"@);
    reveal_strlit("iso88599");
    assert(lower_seq("x-mac-cyrillic"@) != "iso88599"@);
    reveal_strlit("iso8859-9");
    assert(lower_seq("x-mac-cyrillic"@) != "iso8859-9"@);
    reveal_strlit("iso-ir-148");
    assert(lower_seq("x-mac-cyrillic"@) != "iso-ir-148"@);
    reveal_strlit("iso-8859-9");
    assert(lower_seq("x-mac-cyrillic"@) != "iso-8859-9"@);
    reveal_strlit("csisolatin5");
    assert(lower_seq("x-mac-cyrillic"@) != "csisolatin5"@);
    reveal_strlit("cp1254");
    assert(lower_seq("x-mac-cyrillic"@) != "cp1254"@);
    reveal_strlit("x-cp1255");
    assert(lower_seq("x-mac-cyrillic"@) != "x-cp1255"@);
    reveal_strlit("windows-1255");
    assert(lower_seq("x-mac-cyrillic"@) != "windows-1255"@);
    reveal_strlit("cp1255");
    assert(lower_seq("x-mac-cyrillic"@) != "cp1255"@);
    reveal_strlit("x-cp1256");
    assert(lower_seq("x-mac-cyrillic"@) != "x-cp1256"@);
    reveal_strlit("windows-1256");
    assert(lower_seq("x-mac-cyrillic"@) != "windows-1256"@);
    reveal_strlit("cp1256");
    assert(lower_seq("x-mac-cyrillic"@) != "cp1256"@);
    reveal_strlit("x-cp1257");
    assert(lower_seq("x-mac-cyrillic"@) != "x-cp1257"@);
    reveal_strlit("windows-1257");
    assert(lower_seq("x-mac-cyrillic"@) != "windows-1257"@);
    reveal_strlit("cp1257");
    assert(lower_seq("x-mac-cyrillic"@) != "cp1257"@);
    reveal_strlit("x-cp1258");
    assert(lower_seq("x-mac-cyrillic"@) != "x-cp1258"@);
    reveal_strlit("windows-1258");
    assert(lower_seq("x-mac-cyrillic"@) != "windows-1258"@);
    reveal_strlit("cp1258");
    assert(lower_seq("x-mac-cyrillic"@) != "cp1258"@);
    assert(is_label_xmac_cyrillic(lower_seq("x-mac-cyrillic"@)));
}

proof fn lemma_round_trip_gbk()
    ensures
        spec_parse(spec_canonical_name(CharacterEncoding::GBK)) == Ok::<
            CharacterEncoding,
            UnrecognizedLabel,
        >(CharacterEncoding::GBK),
{
    reveal_strlit("GBK");
    reveal_strlit("gbk");
    assert(lower_seq("GBK"@) =~= "gbk"@);
    reveal_strlit("x-unicode20utf8");
    assert(lower_seq("GBK"@) != "x-unicode20utf8"@);
    reveal_strlit("utf8");
    assert(lower_seq("GBK"@) != "utf8"@);
    reveal_strlit("utf-8");
    assert(lower_seq("GBK"@) != "utf-8"@);
    reveal_strlit("unicode20utf8");
    assert(lower_seq("GBK"@) != "unicode20utf8"@);
    reveal_strlit("unicode11utf8");
    assert(lower_seq("GBK"@) != "unicode11utf8"@);
    reveal_strlit("unicode-1-1-utf-8");
    assert(lower_seq("GBK"@) != "unicode-1-1-utf-8"@);
    reveal_strlit("ibm866");
    assert(lower_seq("GBK"@) != "ibm866"@);
    reveal_strlit("csibm866");
    assert(lower_seq("GBK"@) != "csibm866"@);
    reveal_strlit("cp866");
    assert(lower_seq("GBK"@) != "cp866"@);
    reveal_strlit("866");
    assert(lower_seq("GBK"@)[0] != "866"@[0]);
    reveal_strlit("latin2");
    assert(lower_seq("GBK"@) != "latin2"@);
    reveal_strlit("l2");
    assert(lower_seq("GBK"@) != "l2"@);
    reveal_strlit("iso_8859-2:1987");
    assert(lower_seq("GBK"@) != "iso_8859-2:1987"@);
    reveal_strlit("iso_8859-2");
    assert(lower_seq("GBK"@) != "iso_8859-2"@);
    reveal_strlit("iso88592");
    assert(lower_seq("GBK"@) != "iso88592"@);
    reveal_strlit("iso8859-2");
    assert(lower_seq("GBK"@) != "iso8859-2"@);
    reveal_strlit("iso-ir-101");
    assert(lower_seq("GBK"@) != "iso-ir-101"@);
    reveal_strlit("iso-8859-2");
    assert(lower_seq("GBK"@) != "iso-8859-2"@);
    reveal_strlit("csisolatin2");
    assert(lower_seq("GBK"@) != "csisolatin2"@);
    reveal_strlit("latin3");
    assert(lower_seq("GBK"@) != "latin3"@);
    reveal_strlit("l3");
    assert(lower_seq("GBK"@) != "l3"@);
    reveal_strlit("iso_8859-3:1988");
    assert(lower_seq("GBK"@) != "iso_8859-3:1988"@);
    reveal_strlit("iso_8859-3");
    assert(lower_seq("GBK"@) != "iso_8859-3"@);
    reveal_strlit("iso88593");
    assert(lower_seq("GBK"@) != "iso88593"@);
    reveal_strlit("iso8859-3");
    assert(lower_seq("GBK"@) != "iso8859-3"@);
    reveal_strlit("iso-ir-109");
    assert(lower_seq("GBK"@) != "iso-ir-109"@);
    reveal_strlit("iso-8859-3");
    assert(lower_seq("GBK"@) != "iso-8859-3"@);
    reveal_strlit("csisolatin3");
    assert(lower_seq("GBK"@) != "csisolatin3"@);
    reveal_strlit("latin4");
    assert(lower_seq("GBK"@) != "latin4"@);
    reveal_strlit("l4");
    assert(lower_seq("GBK"@) != "l4"@);
    reveal_strlit("iso_8859-4:1988");
    assert(lower_seq("GBK"@) != "iso_8859-4:1988"@);
    reveal_strlit("iso_8859-4");
    assert(lower_seq("GBK"@) != "iso_8859-4"@);
    reveal_strlit("iso88594");
    assert(lower_seq("GBK"@) != "iso88594"@);
    reveal_strlit("iso8859-4");
    assert(lower_seq("GBK"@) != "iso8859-4"@);
    reveal_strlit("iso-ir-110");
    assert(lower_seq("GBK"@) != "iso-ir-110"@);
    reveal_strlit("iso-8859-4");
    assert(lower_seq("GBK"@) != "iso-8859-4"@);
    reveal_strlit("csisolatin4");
    assert(lower_seq("GBK"@) != "csisolatin4"@);
    reveal_strlit("iso_8859-5:1988");
    assert(lower_seq("GBK"@) != "iso_8859-5:1988"@);
    reveal_strlit("iso_8859-5");
    assert(lower_seq("GBK"@) != "iso_8859-5"@);
    reveal_strlit("iso88595");
    assert(lower_seq("GBK"@) != "iso88595"@);
    reveal_strlit("iso8859-5");
    assert(lower_seq("GBK"@) != "iso8859-5"@);
    reveal_strlit("iso-ir-144");
    assert(lower_seq("GBK"@) != "iso-ir-144"@);
    reveal_strlit("iso-8859-5");
    assert(lower_seq("GBK"@) != "iso-8859-5"@);
    reveal_strlit("cyrillic");
    assert(lower_seq("GBK"@) != "cyrillic"@);
    reveal_strlit("csisolatincyrillic");
    assert(lower_seq("GBK"@) != "csisolatincyrillic"@);
    reveal_strlit("iso_8859-6:1987");
    assert(lower_seq("GBK"@) != "iso_8859-6:1987"@);
    reveal_strlit("iso_8859-6");
    assert(lower_seq("GBK"@) != "iso_8859-6"@);
    reveal_strlit("iso88596");
    assert(lower_seq("GBK"@) != "iso88596"@);
    reveal_strlit("iso8859-6");
    assert(lower_seq("GBK"@) != "iso8859-6"@);
    reveal_strlit("iso-ir-127");
    assert(lower_seq("GBK"@) != "iso-ir-127"@);
    reveal_strlit("iso-8859-6-i");
    assert(lower_seq("GBK"@) != "iso-8859-6-i"@);
    reveal_strlit("iso-8859-6-e");
    assert(lower_seq("GBK"@) != "iso-8859-6-e"@);
    reveal_strlit("iso-8859-6");
    assert(lower_seq("GBK"@) != "iso-8859-6"@);
    reveal_strlit("ecma-114");
    assert(lower_seq("GBK"@) != "ecma-114"@);
    reveal_strlit("csisolatinarabic");
    assert(lower_seq("GBK"@) != "csisolatinarabic"@);
    reveal_strlit("csiso88596i");
    assert(lower_seq("GBK"@) != "csiso88596i"@);
    reveal_strlit("csiso88596e");
    assert(lower_seq("GBK"@) != "csiso88596e"@);
    reveal_strlit("asmo-708");
    assert(lower_seq("GBK"@) != "asmo-708"@);
    reveal_strlit("arabic");
    assert(lower_seq("GBK"@) != "arabic"@);
    reveal_strlit("sun_eu_greek");
    assert(lower_seq("GBK"@) != "sun_eu_greek"@);
    reveal_strlit("iso_8859-7:1987");
    assert(lower_seq("GBK"@) != "iso_8859-7:1987"@);
    reveal_strlit("iso_8859-7");
    assert(lower_seq("GBK"@) != "iso_8859-7"@);
    reveal_strlit("iso88597");
    assert(lower_seq("GBK"@) != "iso88597"@);
    reveal_strlit("iso8859-7");
    assert(lower_seq("GBK"@) != "iso8859-7"@);
    reveal_strlit("iso-ir-126");
    assert(lower_seq("GBK"@) != "iso-ir-126"@);
    reveal_strlit("iso-8859-7");
    assert(lower_seq("GBK"@) != "iso-8859-7"@);
    reveal_strlit("greek8");
    assert(lower_seq("GBK"@) != "greek8"@);
    reveal_strlit("greek");
    assert(lower_seq("GBK"@) != "greek"@);
    reveal_strlit("elot_928");
    assert(lower_seq("GBK"@) != "elot_928"@);
    reveal_strlit("ecma-118");
    assert(lower_seq("GBK"@) != "ecma-118"@);
    reveal_strlit("csisolatingreek");
    assert(lower_seq("GBK"@) != "csisolatingreek"@);
    reveal_strlit("visual");
    assert(lower_seq("GBK"@) != "visual"@);
    reveal_strlit("iso_8859-8:1988");
    assert(lower_seq("GBK"@) != "iso_8859-8:1988"@);
    reveal_strlit("iso_8859-8");
    assert(lower_seq("GBK"@) != "iso_8859-8"@);
    reveal_strlit("iso88598");
    assert(lower_seq("GBK"@) != "iso88598"@);
    reveal_strlit("iso8859-8");
    assert(lower_seq("GBK"@) != "iso8859-8"@);
    reveal_strlit("iso-ir-138");
    assert(lower_seq("GBK"@) != "iso-ir-138"@);
    reveal_strlit("iso-8859-8-e");
    assert(lower_seq("GBK"@) != "iso-8859-8-e"@);
    reveal_strlit("iso-8859-8");
    assert(lower_seq("GBK"@) != "iso-8859-8"@);
    reveal_strlit("hebrew");
    assert(lower_seq("GBK"@) != "hebrew"@);
    reveal_strlit("csisolatinhebrew");
    assert(lower_seq("GBK"@) != "csisolatinhebrew"@);
    reveal_strlit("csiso88598e");
    assert(lower_seq("GBK"@) != "csiso88598e"@);
    reveal_strlit("logical");
    assert(lower_seq("GBK"@) != "logical"@);
    reveal_strlit("iso-8859-8-i");
    assert(lower_seq("GBK"@) != "iso-8859-8-i"@);
    reveal_strlit("csiso88598i");
    assert(lower_seq("GBK"@) != "csiso88598i"@);
    reveal_strlit("latin6");
    assert(lower_seq("GBK"@) != "latin6"@);
    reveal_strlit("l6");
    assert(lower_seq("GBK"@) != "l6"@);
    reveal_strlit("iso885910");
    assert(lower_seq("GBK"@) != "iso885910"@);
    reveal_strlit("iso8859-10");
    assert(lower_seq("GBK"@) != "iso8859-10"@);
    reveal_strlit("iso-ir-157");
    assert(lower_seq("GBK"@) != "iso-ir-157"@);
    reveal_strlit("iso-8859-10");
    assert(lower_seq("GBK"@) != "iso-8859-10"@);
    reveal_strlit("csisolatin6");
    assert(lower_seq("GBK"@) != "csisolatin6"@);
    reveal_strlit("iso885913");
    assert(lower_seq("GBK"@) != "iso885913"@);
    reveal_strlit("iso8859-13");
    assert(lower_seq("GBK"@) != "iso8859-13"@);
    reveal_strlit("iso-8859-13");
    assert(lower_seq("GBK"@) != "iso-8859-13"@);
    reveal_strlit("iso885914");
    assert(lower_seq("GBK"@) != "iso885914"@);
    reveal_strlit("iso8859-14");
    assert(lower_seq("GBK"@) != "iso8859-14"@);
    reveal_strlit("iso-8859-14");
    assert(lower_seq("GBK"@) != "iso-8859-14"@);
    reveal_strlit("l9");
    assert(lower_seq("GBK"@) != "l9"@);
    reveal_strlit("iso_8859-15");
    assert(lower_seq("GBK"@) != "iso_8859-15"@);
    reveal_strlit("iso885915");
    assert(lower_seq("GBK"@) != "iso885915"@);
    reveal_strlit("iso8859-15");
    assert(lower_seq("GBK"@) != "iso8859-15"@);
    reveal_strlit("iso-8859-15");
    assert(lower_seq("GBK"@) != "iso-8859-15"@);
    reveal_strlit("csisolatin9");
    assert(lower_seq("GBK"@) != "csisolatin9"@);
    reveal_strlit("iso-8859-16");
    assert(lower_seq("GBK"@) != "iso-8859-16"@);
    reveal_strlit("koi8_r");
    assert(lower_seq("GBK"@) != "koi8_r"@);
    reveal_strlit("koi8-r");
    assert(lower_seq("GBK"@) != "koi8-r"@);
    reveal_strlit("koi8");
    assert(lower_seq("GBK"@) != "koi8"@);
    reveal_strlit("koi");
    assert(lower_seq("GBK"@)[0] != "koi"@[0]);
    reveal_strlit("cskoi8r");
    assert(lower_seq("GBK"@) != "cskoi8r"@);
    reveal_strlit("koi8-u");
    assert(lower_seq("GBK"@) != "koi8-u"@);
    reveal_strlit("koi8-ru");
    assert(lower_seq("GBK"@) != "koi8-ru"@);
    reveal_strlit("x-mac-roman");
    assert(lower_seq("GBK"@) != "x-mac-roman"@);
    reveal_strlit("macintosh");
    assert(lower_seq("GBK"@) != "macintosh"@);
    reveal_strlit("mac");
    assert(lower_seq("GBK"@)[0] != "mac"@[0]);
    reveal_strlit("csmacintosh");
    assert(lower_seq("GBK"@) != "csmacintosh"@);
    reveal_strlit("windows-874");
    assert(lower_seq("GBK"@) != "windows-874"@);
    reveal_strlit("tis-620");
    assert(lower_seq("GBK"@) != "tis-620"@);
    reveal_strlit("iso885911");
    assert(lower_seq("GBK"@) != "iso885911"@);
    reveal_strlit("iso8859-11");
    assert(lower_seq("GBK"@) != "iso8859-11"@);
    reveal_strlit("iso-8859-11");
    assert(lower_seq("GBK"@) != "iso-8859-11"@);
    reveal_strlit("dos-874");
    assert(lower_seq("GBK"@) != "dos-874"@);
    reveal_strlit("x-cp1250");
    assert(lower_seq("GBK"@) != "x-cp1250"@);
    reveal_strlit("windows-1250");
    assert(lower_seq("GBK"@) != "windows-1250"@);
    reveal_strlit("cp1250");
    assert(lower_seq("GBK"@) != "cp1250"@);
    reveal_strlit("x-cp1251");
    assert(lower_seq("GBK"@) != "x-cp1251"@);
    reveal_strlit("windows-1251");
    assert(lower_seq("GBK"@) != "windows-1251"@);
    reveal_strlit("cp1251");
    assert(lower_seq("GBK"@) != "cp1251"@);
    reveal_strlit("x-cp1252");
    assert(lower_seq("GBK"@) != "x-cp1252"@);
    reveal_strlit("windows-1252");
    assert(lower_seq("GBK"@) != "windows-1252"@);
    reveal_strlit("us-ascii");
    assert(lower_seq("GBK"@) != "us-ascii"@);
    reveal_strlit("latin1");
    assert(lower_seq("GBK"@) != "latin1"@);
    reveal_strlit("l1");
    assert(lower_seq("GBK"@) != "l1"@);
    reveal_strlit("iso_8859-1:1987");
    assert(lower_seq("GBK"@) != "iso_8859-1:1987"@);
    reveal_strlit("iso_8859-1");
    assert(lower_seq("GBK"@) != "iso_8859-1"@);
    reveal_strlit("iso88591");
    assert(lower_seq("GBK"@) != "iso88591"@);
    reveal_strlit("iso8859-1");
    assert(lower_seq("GBK"@) != "iso8859-1"@);
    reveal_strlit("iso-ir-100");
    assert(lower_seq("GBK"@) != "iso-ir-100"@);
    reveal_strlit("iso-8859-1");
    assert(lower_seq("GBK"@) != "iso-8859-1"@);
    reveal_strlit("ibm819");
    assert(lower_seq("GBK"@) != "ibm819"@);
    reveal_strlit("csisolatin1");
    assert(lower_seq("GBK"@) != "csisolatin1"@);
    reveal_strlit("cp819");
    assert(lower_seq("GBK"@) != "cp819"@);
    reveal_strlit("cp1252");
    assert(lower_seq("GBK"@) != "cp1252"@);
    reveal_strlit("ascii");
    assert(lower_seq("GBK"@) != "ascii"@);
    reveal_strlit("ansi_x3.4-1968");
    assert(lower_seq("GBK"@) != "ansi_x3.4-1968"@);
    reveal_strlit("x-cp1253");
    assert(lower_seq("GBK"@) != "x-cp1253"@);
    reveal_strlit("windows-1253");
    assert(lower_seq("GBK"@) != "windows-1253"@);
    reveal_strlit("cp1253");
    assert(lower_seq("GBK"@) != "cp1253"@);
    reveal_strlit("x-cp1254");
    assert(lower_seq("GBK"@) != "x-cp1254"@);
    reveal_strlit("windows-1254");
    assert(lower_seq("GBK"@) != "windows-1254"@);
    reveal_strlit("latin5");
    assert(lower_seq("GBK"@) != "latin5"@);
    reveal_strlit("l5");
    assert(lower_seq("GBK"@) != "l5"@);
    reveal_strlit("iso_8859-9:1989");
    assert(lower_seq("GBK"@) != "iso_8859-9:1989"@);
    reveal_strlit("iso_8859-9");
    assert(lower_seq("GBK"@) != "iso_8859-9"@);
    reveal_strlit("iso88599");
    assert(lower_seq("GBK"@) != "iso88599"@);
    reveal_strlit("iso8859-9");
    assert(lower_seq("GBK"@) != "iso8859-9"@);
    reveal_strlit("iso-ir-148");
    assert(lower_seq("GBK"@) != "iso-ir-148"@);
    reveal_strlit("iso-8859-9");
    assert(lower_seq("GBK"@) != "iso-8859-9"@);
    reveal_strlit("csisolatin5");
    assert(lower_seq("GBK"@) != "csisolatin5"@);
    reveal_strlit("cp1254");
    assert(lower_seq("GBK"@) != "cp1254"@);
    reveal_strlit("x-cp1255");
    assert(lower_seq("GBK"@) != "x-cp1255"@);
    reveal_strlit("windows-1255");
    assert(lower_seq("GBK"@) != "windows-1255"@);
    reveal_strlit("cp1255");
    assert(lower_seq("GBK"@) != "cp1255"@);
    reveal_strlit("x-cp1256");
    assert(lower_seq("GBK"@) != "x-cp1256"@);
    reveal_strlit("windows-1256");
    assert(lower_seq("GBK"@) != "windows-1256"@);
    reveal_strlit("cp1256");
    assert(lower_seq("GBK"@) != "cp1256"@);
    reveal_strlit("x-cp1257");
    assert(lower_seq("GBK"@) != "x-cp1257"@);
    reveal_strlit("windows-1257");
    assert(lower_seq("GBK"@) != "windows-1257"@);
    reveal_strlit("cp1257");
    assert(lower_seq("GBK"@) != "cp1257"@);
    reveal_strlit("x-cp1258");
    assert(lower_seq("GBK"@) != "x-cp1258"@);
    reveal_strlit("windows-1258");
    assert(lower_seq("GBK"@) != "windows-1258"@);
    reveal_strlit("cp1258");
    assert(lower_seq("GBK"@) != "cp1258"@);
    reveal_strlit("x-mac-ukrainian");
    assert(lower_seq("GBK"@) != "x-mac-ukrainian"@);
    reveal_strlit("x-mac-cyrillic");
    assert(lower_seq("GBK"@) != "x-mac-cyrillic"@);
    assert(is_label_gbk(lower_seq("GBK"@)));
}

proof fn lemma_round_trip_gb18030()
    ensures
        spec_parse(spec_canonical_name(CharacterEncoding::GB18030)) == Ok::<
            CharacterEncoding,
            UnrecognizedLabel,
        >(CharacterEncoding::GB18030),
{
    reveal_strlit("gb18030");
    reveal_strlit("gb18030");
    assert(lower_seq("gb18030"@) =~= "gb18030"@);
    reveal_strlit("x-unicode20utf8");
    assert(lower_seq("gb18030"@) != "x-unicode20utf8"@);
    reveal_strlit("utf8");
    assert(lower_seq("gb18030"@) != "utf8"@);
    reveal_strlit("utf-8");
    assert(lower_seq("gb18030"@) != "utf-8"@);
    reveal_strlit("unicode20utf8");
    assert(lower_seq("gb18030"@) != "unicode20utf8"@);
    reveal_strlit("unicode11utf8");
    assert(lower_seq("gb18030"@) != "unicode11utf8"@);
    reveal_strlit("unicode-1-1-utf-8");
    assert(lower_seq("gb18030"@) != "unicode-1-1-utf-8"@);
    reveal_strlit("ibm866");
    assert(lower_seq("gb18030"@) != "ibm866"@);
    reveal_strlit("csibm866");
    assert(lower_seq("gb18030"@) != "csibm866"@);
    reveal_strlit("cp866");
    assert(lower_seq("gb18030"@) != "cp866"@);
    reveal_strlit("866");
    assert(lower_seq("gb18030"@) != "866"@);
    reveal_strlit("latin2");
    assert(lower_seq("gb18030"@) != "latin2"@);
    reveal_strlit("l2");
    assert(lower_seq("gb18030"@) != "l2"@);
    reveal_strlit("iso_8859-2:1987");
    assert(lower_seq("gb18030"@) != "iso_8859-2:1987"@);
    reveal_strlit("iso_8859-2");
    assert(lower_seq("gb18030"@) != "iso_8859-2"@);
    reveal_strlit("iso88592");
    assert(lower_seq("gb18030"@) != "iso88592"@);
    reveal_strlit("iso8859-2");
    assert(lower_seq("gb18030"@) != "iso8859-2"@);
    reveal_strlit("iso-ir-101");
    assert(lower_seq("gb18030"@) != "iso-ir-101"@);
    reveal_strlit("iso-8859-2");
    assert(lower_seq("gb18030"@) != "iso-8859-2"@);
    reveal_strlit("csisolatin2");
    assert(lower_seq("gb18030"@) != "csisolatin2"@);
    reveal_strlit("latin3");
    assert(lower_seq("gb18030"@) != "latin3"@);
    reveal_strlit("l3");
    assert(lower_seq("gb18030"@) != "l3"@);
    reveal_strlit("iso_8859-3:1988");
    assert(lower_seq("gb18030"@) != "iso_8859-3:1988"@);
    reveal_strlit("iso_8859-3");
    assert(lower_seq("gb18030"@) != "iso_8859-3"@);
    reveal_strlit("iso88593");
    assert(lower_seq("gb18030"@) != "iso88593"@);
    reveal_strlit("iso8859-3");
    assert(lower_seq("gb18030"@) != "iso8859-3"@);
    reveal_strlit("iso-ir-109");
    assert(lower_seq("gb18030"@) != "iso-ir-109"@);
    reveal_strlit("iso-8859-3");
    assert(lower_seq("gb18030"@) != "iso-8859-3"@);
    reveal_strlit("csisolatin3");
    assert(lower_seq("gb18030"@) != "csisolatin3"@);
    reveal_strlit("latin4");
    assert(lower_seq("gb18030"@) != "latin4"@);
    reveal_strlit("l4");
    assert(lower_seq("gb18030"@) != "l4"@);
    reveal_strlit("iso_8859-4:1988");
    assert(lower_seq("gb18030"@) != "iso_8859-4:1988"@);
    reveal_strlit("iso_8859-4");
    assert(lower_seq("gb18030"@) != "iso_8859-4"@);
    reveal_strlit("iso88594");
    assert(lower_seq("gb18030"@) != "iso88594"@);
    reveal_strlit("iso8859-4");
    assert(lower_seq("gb18030"@) != "iso8859-4"@);
    reveal_strlit("iso-ir-110");
    assert(lower_seq("gb18030"@) != "iso-ir-110"@);
    reveal_strlit("iso-8859-4");
    assert(lower_seq("gb18030"@) != "iso-8859-4"@);
    reveal_strlit("csisolatin4");
    assert(lower_seq("gb18030"@) != "csisolatin4"@);
    reveal_strlit("iso_8859-5:1988");
    assert(lower_seq("gb18030"@) != "iso_8859-5:1988"@);
    reveal_strlit("iso_8859-5");
    assert(lower_seq("gb18030"@) != "iso_8859-5"@);
    reveal_strlit("iso88595");
    assert(lower_seq("gb18030"@) != "iso88595"@);
    reveal_strlit("iso8859-5");
    assert(lower_seq("gb18030"@) != "iso8859-5"@);
    reveal_strlit("iso-ir-144");
    assert(lower_seq("gb18030"@) != "iso-ir-144"@);
    reveal_strlit("iso-8859-5");
    assert(lower_seq("gb18030"@) != "iso-8859-5"@);
    reveal_strlit("cyrillic");
    assert(lower_seq("gb18030"@) != "cyrillic"@);
    reveal_strlit("csisolatincyrillic");
    assert(lower_seq("gb18030"@) != "csisolatincyrillic"@);
    reveal_strlit("iso_8859-6:1987");
    assert(lower_seq("gb18030"@) != "iso_8859-6:1987"@);
    reveal_strlit("iso_8859-6");
    assert(lower_seq("gb18030"@) != "iso_8859-6"@);
    reveal_strlit("iso88596");
    assert(lower_seq("gb18030"@) != "iso88596"@);
    reveal_strlit("iso8859-6");
    assert(lower_seq("gb18030"@) != "iso8859-6"@);
    reveal_strlit("iso-ir-127");
    assert(lower_seq("gb18030"@) != "iso-ir-127"@);
    reveal_strlit("iso-8859-6-i");
    assert(lower_seq("gb18030"@) != "iso-8859-6-i"@);
    reveal_strlit("iso-8859-6-e");
    assert(lower_seq("gb18030"@) != "iso-8859-6-e"@);
    reveal_strlit("iso-8859-6");
    assert(lower_seq("gb18030"@) != "iso-8859-6"@);
    reveal_strlit("ecma-114");
    assert(lower_seq("gb18030"@) != "ecma-114"@);
    reveal_strlit("csisolatinarabic");
    assert(lower_seq("gb18030"@) != "csisolatinarabic"@);
    reveal_strlit("csiso88596i");
    assert(lower_seq("gb18030"@) != "csiso88596i"@);
    reveal_strlit("csiso88596e");
    assert(lower_seq("gb18030"@) != "csiso88596e"@);
    reveal_strlit("asmo-708");
    assert(lower_seq("gb18030"@) != "asmo-708"@);
    reveal_strlit("arabic");
    assert(lower_seq("gb18030"@) != "arabic"@);
    reveal_strlit("sun_eu_greek");
    assert(lower_seq("gb18030"@) != "sun_eu_greek"@);
    reveal_strlit("iso_8859-7:1987");
    assert(lower_seq("gb18030"@) != "iso_8859-7:1987"@);
    reveal_strlit("iso_8859-7");
    assert(lower_seq("gb18030"@) != "iso_8859-7"@);
    reveal_strlit("iso88597");
    assert(lower_seq("gb18030"@) != "iso88597"@);
    reveal_strlit("iso8859-7");
    assert(lower_seq("gb18030"@) != "iso8859-7"@);
    reveal_strlit("iso-ir-126");
    assert(lower_seq("gb18030"@) != "iso-ir-126"@);
    reveal_strlit("iso-8859-7");
    assert(lower_seq("gb18030"@) != "iso-8859-7"@);
    reveal_strlit("greek8");
    assert(lower_seq("gb18030"@) != "greek8"@);
    reveal_strlit("greek");
    assert(lower_seq("gb18030"@) != "greek"@);
    reveal_strlit("elot_928");
    assert(lower_seq("gb18030"@) != "elot_928"@);
    reveal_strlit("ecma-118");
    assert(lower_seq("gb18030"@) != "ecma-118"@);
    reveal_strlit("csisolatingreek");
    assert(lower_seq("gb18030"@) != "csisolatingreek"@);
    reveal_strlit("visual");
    assert(lower_seq("gb18030"@) != "visual"@);
    reveal_strlit("iso_8859-8:1988");
    assert(lower_seq("gb18030"@) != "iso_8859-8:1988"@);
    reveal_strlit("iso_8859-8");
    assert(lower_seq("gb18030"@) != "iso_8859-8"@);
    reveal_strlit("iso88598");
    assert(lower_seq("gb18030"@) != "iso88598"@);
    reveal_strlit("iso8859-8");
    assert(lower_seq("gb18030"@) != "iso8859-8"@);
    reveal_strlit("iso-ir-138");
    assert(lower_seq("gb18030"@) != "iso-ir-138"@);
    reveal_strlit("iso-8859-8-e");
    assert(lower_seq("gb18030"@) != "iso-8859-8-e"@);
    reveal_strlit("iso-8859-8");
    assert(lower_seq("gb18030"@) != "iso-8859-8"@);
    reveal_strlit("hebrew");
    assert(lower_seq("gb18030"@) != "hebrew"@);
    reveal_strlit("csisolatinhebrew");
    assert(lower_seq("gb18030"@) != "csisolatinhebrew"@);
    reveal_strlit("csiso88598e");
    assert(lower_seq("gb18030"@) != "csiso88598e"@);
    reveal_strlit("logical");
    assert(lower_seq("gb18030"@)[0] != "logical"@[0]);
    reveal_strlit("iso-8859-8-i");
    assert(lower_seq("gb18030"@) != "iso-8859-8-i"@);
    reveal_strlit("csiso88598i");
    assert(lower_seq("gb18030"@) != "csiso88598i"@);
    reveal_strlit("latin6");
    assert(lower_seq("gb18030"@) != "latin6"@);
    reveal_strlit("l6");
    assert(lower_seq("gb18030"@) != "l6"@);
    reveal_strlit("iso885910");
    assert(lower_seq("gb18030"@) != "iso885910"@);
    reveal_strlit("iso8859-10");
    assert(lower_seq("gb18030"@) != "iso8859-10"@);
    reveal_strlit("iso-ir-157");
    assert(lower_seq("gb18030"@) != "iso-ir-157"@);
    reveal_strlit("iso-8859-10");
    assert(lower_seq("gb18030"@) != "iso-8859-10"@);
    reveal_strlit("csisolatin6");
    assert(lower_seq("gb18030"@) != "csisolatin6"@);
    reveal_strlit("iso885913");
    assert(lower_seq("gb18030"@) != "iso885913"@);
    reveal_strlit("iso8859-13");
    assert(lower_seq("gb18030"@) != "iso8859-13"@);
    reveal_strlit("iso-8859-13");
    assert(lower_seq("gb18030"@) != "iso-8859-13"@);
    reveal_strlit("iso885914");
    assert(lower_seq("gb18030"@) != "iso885914"@);
    reveal_strlit("iso8859-14");
    assert(lower_seq("gb18030"@) != "iso8859-14"@);
    reveal_strlit("iso-8859-14");
    assert(lower_seq("gb18030"@) != "iso-8859-14"@);
    reveal_strlit("l9");
    assert(lower_seq("gb18030"@) != "l9"@);
    reveal_strlit("iso_8859-15");
    assert(lower_seq("gb18030"@) != "iso_8859-15"@);
    reveal_strlit("iso885915");
    assert(lower_seq("gb18030"@) != "iso885915"@);
    reveal_strlit("iso8859-15");
    assert(lower_seq("gb18030"@) != "iso8859-15"@);
    reveal_strlit("iso-8859-15");
    assert(lower_seq("gb18030"@) != "iso-8859-15"@);
    reveal_strlit("csisolatin9");
    assert(lower_seq("gb18030"@) != "csisolatin9"@);
    reveal_strlit("iso-8859-16");
    assert(lower_seq("gb18030"@) != "iso-8859-16"@);
    reveal_strlit("koi8_r");
    assert(lower_seq("gb18030"@) != "koi8_r"@);
    reveal_strlit("koi8-r");
    assert(lower_seq("gb18030"@) != "koi8-r"@);
    reveal_strlit("koi8");
    assert(lower_seq("gb18030"@) != "koi8"@);
    reveal_strlit("koi");
    assert(lower_seq("gb18030"@) != "koi"@);
    reveal_strlit("cskoi8r");
    assert(lower_seq("gb18030"@)[0] != "cskoi8r"@[0]);
    reveal_strlit("koi8-u");
    assert(lower_seq("gb18030"@) != "koi8-u"@);
    reveal_strlit("koi8-ru");
    assert(lower_seq("gb18030"@)[0] != "koi8-ru"@[0]);
    reveal_strlit("x-mac-roman");
    assert(lower_seq("gb18030"@) != "x-mac-roman"@);
    reveal_strlit("macintosh");
    assert(lower_seq("gb18030"@) != "macintosh"@);
    reveal_strlit("mac");
    assert(lower_seq("gb18030"@) != "mac"@);
    reveal_strlit("csmacintosh");
    assert(lower_seq("gb18030"@) != "csmacintosh"@);
    reveal_strlit("windows-874");
    assert(lower_seq("gb18030"@) != "windows-874"@);
    reveal_strlit("tis-620");
    assert(lower_seq("gb18030"@)[0] != "tis-620"@[0]);
    reveal_strlit("iso885911");
    assert(lower_seq("gb18030"@) != "iso885911"@);
    reveal_strlit("iso8859-11");
    assert(lower_seq("gb18030"@) != "iso8859-11"@);
    reveal_strlit("iso-8859-11");
    assert(lower_seq("gb18030"@) != "iso-8859-11"@);
    reveal_strlit("dos-874");
    assert(lower_seq("gb18030"@)[0] != "dos-874"@[0]);
    reveal_strlit("x-cp1250");
    assert(lower_seq("gb18030"@) != "x-cp1250"@);
    reveal_strlit("windows-1250");
    assert(lower_seq("gb18030"@) != "windows-1250"@);
    reveal_strlit("cp1250");
    assert(lower_seq("gb18030"@) != "cp1250"@);
    reveal_strlit("x-cp1251");
    assert(lower_seq("gb18030"@) != "x-cp1251"@);
    reveal_strlit("windows-1251");
    assert(lower_seq("gb18030"@) != "windows-1251"@);
    reveal_strlit("cp1251");
    assert(lower_seq("gb18030"@) != "cp1251"@);
    reveal_strlit("x-cp1252");
    assert(lower_seq("gb18030"@) != "x-cp1252"@);
    reveal_strlit("windows-1252");
    assert(lower_seq("gb18030"@) != "windows-1252"@);
    reveal_strlit("us-ascii");
    assert(lower_seq("gb18030"@) != "us-ascii"@);
    reveal_strlit("latin1");
    assert(lower_seq("gb18030"@) != "latin1"@);
    reveal_strlit("l1");
    assert(lower_seq("gb18030"@) != "l1"@);
    reveal_strlit("iso_8859-1:1987");
    assert(lower_seq("gb18030"@) != "iso_8859-1:1987"@);
    reveal_strlit("iso_8859-1");
    assert(lower_seq("gb18030"@) != "iso_8859-1"@);
    reveal_strlit("iso88591");
    assert(lower_seq("gb18030"@) != "iso88591"@);
    reveal_strlit("iso8859-1");
    assert(lower_seq("gb18030"@) != "iso8859-1"@);
    reveal_strlit("iso-ir-100");
    assert(lower_seq("gb18030"@) != "iso-ir-100"@);
    reveal_strlit("iso-8859-1");
    assert(lower_seq("gb18030"@) != "iso-8859-1"@);
    reveal_strlit("ibm819");
    assert(lower_seq("gb18030"@) != "ibm819"@);
    reveal_strlit("csisolatin1");
    assert(lower_seq("gb18030"@) != "csisolatin1"@);
    reveal_strlit("cp819");
    assert(lower_seq("gb18030"@) != "cp819"@);
    reveal_strlit("cp1252");
    assert(lower_seq("gb18030"@) != "cp1252"@);
    reveal_strlit("ascii");
    assert(lower_seq("gb18030"@) != "ascii"@);
    reveal_strlit("ansi_x3.4-1968");
    assert(lower_seq("gb18030"@) != "ansi_x3.4-1968"@);
    reveal_strlit("x-cp1253");
    assert(lower_seq("gb18030"@) != "x-cp1253"@);
    reveal_strlit("windows-1253");
    assert(lower_seq("gb18030"@) != "windows-1253"@);
    reveal_strlit("cp1253");
    assert(lower_seq("gb18030"@) != "cp1253"@);
    reveal_strlit("x-cp1254");
    assert(lower_seq("gb18030"@) != "x-cp1254"@);
    reveal_strlit("windows-1254");
    assert(lower_seq("gb18030"@) != "windows-1254"@);
    reveal_strlit("latin5");
    assert(lower_seq("gb18030"@) != "latin5"@);
    reveal_strlit("l5");
    assert(lower_seq("gb18030"@) != "l5"@);
    reveal_strlit("iso_8859-9:1989");
    assert(lower_seq("gb18030"@) != "iso_8859-9:1989"@);
    reveal_strlit("iso_8859-9");
    assert(lower_seq("gb18030"@) != "iso_8859-9"@);
    reveal_strlit("iso88599");
    assert(lower_seq("gb18030"@) != "iso88599"@);
    reveal_strlit("iso8859-9");
    assert(lower_seq("gb18030"@) != "iso8859-9"@);
    reveal_strlit("iso-ir-148");
    assert(lower_seq("gb18030"@) != "iso-ir-148"@);
    reveal_strlit("iso-8859-9");
    assert(lower_seq("gb18030"@) != "iso-8859-9"@);
    reveal_strlit("csisolatin5");
    assert(lower_seq("gb18030"@) != "csisolatin5"@);
    reveal_strlit("cp1254");
    assert(lower_seq("gb18030"@) != "cp1254"@);
    reveal_strlit("x-cp1255");
    assert(lower_seq("gb18030"@) != "x-cp1255"@);
    reveal_strlit("windows-1255");
    assert(lower_seq("gb18030"@) != "windows-1255"@);
    reveal_strlit("cp1255");
    assert(lower_seq("gb18030"@) != "cp1255"@);
    reveal_strlit("x-cp1256");
    assert(lower_seq("gb18030"@) != "x-cp1256"@);
    reveal_strlit("windows-1256");
    assert(lower_seq("gb18030"@) != "windows-1256"@);
    reveal_strlit("cp1256");
    assert(lower_seq("gb18030"@) != "cp1256"@);
    reveal_strlit("x-cp1257");
    assert(lower_seq("gb18030"@) != "x-cp1257"@);
    reveal_strlit("windows-1257");
    assert(lower_seq("gb18030"@) != "windows-1257"@);
    reveal_strlit("cp1257");
    assert(lower_seq("gb18030"@) != "cp1257"@);
    reveal_strlit("x-cp1258");
    assert(lower_seq("gb18030"@) != "x-cp1258"@);
    reveal_strlit("windows-1258");
    assert(lower_seq("gb18030"@) != "windows-1258"@);
    reveal_strlit("cp1258");
    assert(lower_seq("gb18030"@) != "cp1258"@);
    reveal_strlit("x-mac-ukrainian");
    assert(lower_seq("gb18030"@) != "x-mac-ukrainian"@);
    reveal_strlit("x-mac-cyrillic");
    assert(lower_seq("gb18030"@) != "x-mac-cyrillic"@);
    reveal_strlit("x-gbk");
    assert(lower_seq("gb18030"@) != "x-gbk"@);
    reveal_strlit("iso-ir-58");
    assert(lower_seq("gb18030"@) != "iso-ir-58"@);
    reveal_strlit("gbk");
    assert(lower_seq("gb18030"@) != "gbk"@);
    reveal_strlit("gb_2312-80");
    assert(lower_seq("gb18030"@) != "gb_2312-80"@);
    reveal_strlit("gb_2312");
    assert(lower_seq("gb18030"@)[2] != "gb_2312"@[2]);
    reveal_strlit("gb2312");
    assert(lower_seq("gb18030"@) != "gb2312"@);
    reveal_strlit("csiso58gb231280");
    assert(lower_seq("gb18030"@) != "csiso58gb231280"@);
    reveal_strlit("csgb2312");
    assert(lower_seq("gb18030"@) != "csgb2312"@);
    reveal_strlit("chinese");
    assert(lower_seq("gb18030"@)[0] != "chinese"@[0]);
    assert(is_label_gb18030(lower_seq("gb18030"@)));
}

proof fn lemma_round_trip_big5()
    ensures
        spec_parse(spec_canonical_name(CharacterEncoding::Big5)) == Ok::<
            CharacterEncoding,
            UnrecognizedLabel,
        >(CharacterEncoding::Big5),
{
    reveal_strlit("Big5");
    reveal_strlit("big5");
    assert(lower_seq("Big5"@) =~= "big5"@);
    reveal_strlit("x-unicode20utf8");
    assert(lower_seq("Big5"@) != "x-unicode20utf8"@);
    reveal_strlit("utf8");
    assert(lower_seq("Big5"@)[0] != "utf8"@[0]);
    reveal_strlit("utf-8");
    assert(lower_seq("Big5"@) != "utf-8"@);
    reveal_strlit("unicode20utf8");
    assert(lower_seq("Big5"@) != "unicode20utf8"@);
    reveal_strlit("unicode11utf8");
    assert(lower_seq("Big5"@) != "unicode11utf8"@);
    reveal_strlit("unicode-1-1-utf-8");
    assert(lower_seq("Big5"@) != "unicode-1-1-utf-8"@);
    reveal_strlit("ibm866");
    assert(lower_seq("Big5"@) != "ibm866"@);
    reveal_strlit("csibm866");
    assert(lower_seq("Big5"@) != "csibm866"@);
    reveal_strlit("cp866");
    assert(lower_seq("Big5"@) != "cp866"@);
    reveal_strlit("866");
    assert(lower_seq("Big5"@) != "866"@);
    reveal_strlit("latin2");
    assert(lower_seq("Big5"@) != "latin2"@);
    reveal_strlit("l2");
    assert(lower_seq("Big5"@) != "l2"@);
    reveal_strlit("iso_8859-2:1987");
    assert(lower_seq("Big5"@) != "iso_8859-2:1987"@);
    reveal_strlit("iso_8859-2");
    assert(lower_seq("Big5"@) != "iso_8859-2"@);
    reveal_strlit("iso88592");
    assert(lower_seq("Big5"@) != "iso88592"@);
    reveal_strlit("iso8859-2");
    assert(lower_seq("Big5"@) != "iso8859-2"@);
    reveal_strlit("iso-ir-101");
    assert(lower_seq("Big5"@) != "iso-ir-101"@);
    reveal_strlit("iso-8859-2");
    assert(lower_seq("Big5"@) != "iso-8859-2"@);
    reveal_strlit("csisolatin2");
    assert(lower_seq("Big5"@) != "csisolatin2"@);
    reveal_strlit("latin3");
    assert(lower_seq("Big5"@) != "latin3"@);
    reveal_strlit("l3");
    assert(lower_seq("Big5"@) != "l3"@);
    reveal_strlit("iso_8859-3:1988");
    assert(lower_seq("Big5"@) != "iso_8859-3:1988"@);
    reveal_strlit("iso_8859-3");
    assert(lower_seq("Big5"@) != "iso_8859-3"@);
    reveal_strlit("iso88593");
    assert(lower_seq("Big5"@) != "iso88593"@);
    reveal_strlit("iso8859-3");
    assert(lower_seq("Big5"@) != "iso8859-3"@);
    reveal_strlit("iso-ir-109");
    assert(lower_seq("Big5"@) != "iso-ir-109"@);
    reveal_strlit("iso-8859-3");
    assert(lower_seq("Big5"@) != "iso-8859-3"@);
    reveal_strlit("csisolatin3");
    assert(lower_seq("Big5"@) != "csisolatin3"@);
    reveal_strlit("latin4");
    assert(lower_seq("Big5"@) != "latin4"@);
    reveal_strlit("l4");
    assert(lower_seq("Big5"@) != "l4"@);
    reveal_strlit("iso_8859-4:1988");
    assert(lower_seq("Big5"@) != "iso_8859-4:1988"@);
    reveal_strlit("iso_8859-4");
    assert(lower_seq("Big5"@) != "iso_8859-4"@);
    reveal_strlit("iso88594");
    assert(lower_seq("Big5"@) != "iso88594"@);
    reveal_strlit("iso8859-4");
    assert(lower_seq("Big5"@) != "iso8859-4"@);
    reveal_strlit("iso-ir-110");
    assert(lower_seq("Big5"@) != "iso-ir-110"@);
    reveal_strlit("iso-8859-4");
    assert(lower_seq("Big5"@) != "iso-8859-4"@);
    reveal_strlit("csisolatin4");
    assert(lower_seq("Big5"@) != "csisolatin4"@);
    reveal_strlit("iso_8859-5:1988");
    assert(lower_seq("Big5"@) != "iso_8859-5:1988"@);
    reveal_strlit("iso_8859-5");
    assert(lower_seq("Big5"@) != "iso_8859-5"@);
    reveal_strlit("iso88595");
    assert(lower_seq("Big5"@) != "iso88595"@);
    reveal_strlit("iso8859-5");
    assert(lower_seq("Big5"@) != "iso8859-5"@);
    reveal_strlit("iso-ir-144");
    assert(lower_seq("Big5"@) != "iso-ir-144"@);
    reveal_strlit("iso-8859-5");
    assert(lower_seq("Big5"@) != "iso-8859-5"@);
    reveal_strlit("cyrillic");
    assert(lower_seq("Big5"@) != "cyrillic"@);
    reveal_strlit("csisolatincyrillic");
    assert(lower_seq("Big5"@) != "csisolatincyrillic"@);
    reveal_strlit("iso_8859-6:1987");
    assert(lower_seq("Big5"@) != "iso_8859-6:1987"@);
    reveal_strlit("iso_8859-6");
    assert(lower_seq("Big5"@) != "iso_8859-6"@);
    reveal_strlit("iso88596");
    assert(lower_seq("Big5"@) != "iso88596"@);
    reveal_strlit("iso8859-6");
    assert(lower_seq("Big5"@) != "iso8859-6"@);
    reveal_strlit("iso-ir-127");
    assert(lower_seq("Big5"@) != "iso-ir-127"@);
    reveal_strlit("iso-8859-6-i");
    assert(lower_seq("Big5"@) != "iso-8859-6-i"@);
    reveal_strlit("iso-8859-6-e");
    assert(lower_seq("Big5"@) != "iso-8859-6-e"@);
    reveal_strlit("iso-8859-6");
    assert(lower_seq("Big5"@) != "iso-8859-6"@);
    reveal_strlit("ecma-114");
    assert(lower_seq("Big5"@) != "ecma-114"@);
    reveal_strlit("csisolatinarabic");
    assert(lower_seq("Big5"@) != "csisolatinarabic"@);
    reveal_strlit("csiso88596i");
    assert(lower_seq("Big5"@) != "csiso88596i"@);
    reveal_strlit("csiso88596e");
    assert(lower_seq("Big5"@) != "csiso88596e"@);
    reveal_strlit("asmo-708");
    assert(lower_seq("Big5"@) != "asmo-708"@);
    reveal_strlit("arabic");
    assert(lower_seq("Big5"@) != "arabic"@);
    reveal_strlit("sun_eu_greek");
    assert(lower_seq("Big5"@) != "sun_eu_greek"@);
    reveal_strlit("iso_8859-7:1987");
    assert(lower_seq("Big5"@) != "iso_8859-7:1987"@);
    reveal_strlit("iso_8859-7");
    assert(lower_seq("Big5"@) != "iso_8859-7"@);
    reveal_strlit("iso88597");
    assert(lower_seq("Big5"@) != "iso88597"@);
    reveal_strlit("iso8859-7");
    assert(lower_seq("Big5"@) != "iso8859-7"@);
    reveal_strlit("iso-ir-126");
    assert(lower_seq("Big5"@) != "iso-ir-126"@);
    reveal_strlit("iso-8859-7");
    assert(lower_seq("Big5"@) != "iso-8859-7"@);
    reveal_strlit("greek8");
    assert(lower_seq("Big5"@) != "greek8"@);
    reveal_strlit("greek");
    assert(lower_seq("Big5"@) != "greek"@);
    reveal_strlit("elot_928");
    assert(lower_seq("Big5"@) != "elot_928"@);
    reveal_strlit("ecma-118");
    assert(lower_seq("Big5"@) != "ecma-118"@);
    reveal_strlit("csisolatingreek");
    assert(lower_seq("Big5"@) != "csisolatingreek"@);
    reveal_strlit("visual");
    assert(lower_seq("Big5"@) != "visual"@);
    reveal_strlit("iso_8859-8:1988");
    assert(lower_seq("Big5"@) != "iso_8859-8:1988"@);
    reveal_strlit("iso_8859-8");
    assert(lower_seq("Big5"@) != "iso_8859-8"@);
    reveal_strlit("iso88598");
    assert(lower_seq("Big5"@) != "iso88598"@);
    reveal_strlit("iso8859-8");
    assert(lower_seq("Big5"@) != "iso8859-8"@);
    reveal_strlit("iso-ir-138");
    assert(lower_seq("Big5"@) != "iso-ir-138"@);
    reveal_strlit("iso-8859-8-e");
    assert(lower_seq("Big5"@) != "iso-8859-8-e"@);
    reveal_strlit("iso-8859-8");
    assert(lower_seq("Big5"@) != "iso-8859-8"@);
    reveal_strlit("hebrew");
    assert(lower_seq("Big5"@) != "hebrew"@);
    reveal_strlit("csisolatinhebrew");
    assert(lower_seq("Big5"@) != "csisolatinhebrew"@);
    reveal_strlit("csiso88598e");
    assert(lower_seq("Big5"@) != "csiso88598e"@);
    reveal_strlit("logical");
    assert(lower_seq("Big5"@) != "logical"@);
    reveal_strlit("iso-8859-8-i");
    assert(lower_seq("Big5"@) != "iso-8859-8-i"@);
    reveal_strlit("csiso88598i");
    assert(lower_seq("Big5"@) != "csiso88598i"@);
    reveal_strlit("latin6");
    assert(lower_seq("Big5"@) != "latin6"@);
    reveal_strlit("l6");
    assert(lower_seq("Big5"@) != "l6"@);
    reveal_strlit("iso885910");
    assert(lower_seq("Big5"@) != "iso885910"@);
    reveal_strlit("iso8859-10");
    assert(lower_seq("Big5"@) != "iso8859-10"@);
    reveal_strlit("iso-ir-157");
    assert(lower_seq("Big5"@) != "iso-ir-157"@);
    reveal_strlit("iso-8859-10");
    assert(lower_seq("Big5"@) != "iso-8859-10"@);
    reveal_strlit("csisolatin6");
    assert(lower_seq("Big5"@) != "csisolatin6"@);
    reveal_strlit("iso885913");
    assert(lower_seq("Big5"@) != "iso885913"@);
    reveal_strlit("iso8859-13");
    assert(lower_seq("Big5"@) != "iso8859-13"@);
    reveal_strlit("iso-8859-13");
    assert(lower_seq("Big5"@) != "iso-8859-13"@);
    reveal_strlit("iso885914");
    assert(lower_seq("Big5"@) != "iso885914"@);
    reveal_strlit("iso8859-14");
    assert(lower_seq("Big5"@) != "iso8859-14"@);
    reveal_strlit("iso-8859-14");
    assert(lower_seq("Big5"@) != "iso-8859-14"@);
    reveal_strlit("l9");
    assert(lower_seq("Big5"@) != "l9"@);
    reveal_strlit("iso_8859-15");
    assert(lower_seq("Big5"@) != "iso_8859-15"@);
    reveal_strlit("iso885915");
    assert(lower_seq("Big5"@) != "iso885915"@);
    reveal_strlit("iso8859-15");
    assert(lower_seq("Big5"@) != "iso8859-15"@);
    reveal_strlit("iso-8859-15");
    assert(lower_seq("Big5"@) != "iso-8859-15"@);
    reveal_strlit("csisolatin9");
    assert(lower_seq("Big5"@) != "csisolatin9"@);
    reveal_strlit("iso-8859-16");
    assert(lower_seq("Big5"@) != "iso-8859-16"@);
    reveal_strlit("koi8_r");
    assert(lower_seq("Big5"@) != "koi8_r"@);
    reveal_strlit("koi8-r");
    assert(lower_seq("Big5"@) != "koi8-r"@);
    reveal_strlit("koi8");
    assert(lower_seq("Big5"@)[0] != "koi8"@[0]);
    reveal_strlit("koi");
    assert(lower_seq("Big5"@) != "koi"@);
    reveal_strlit("cskoi8r");
    assert(lower_seq("Big5"@) != "cskoi8r"@);
    reveal_strlit("koi8-u");
    assert(lower_seq("Big5"@) != "koi8-u"@);
    reveal_strlit("koi8-ru");
    assert(lower_seq("Big5"@) != "koi8-ru"@);
    reveal_strlit("x-mac-roman");
    assert(lower_seq("Big5"@) != "x-mac-roman"@);
    reveal_strlit("macintosh");
    assert(lower_seq("Big5"@) != "macintosh"@);
    reveal_strlit("mac");
    assert(lower_seq("Big5"@) != "mac"@);
    reveal_strlit("csmacintosh");
    assert(lower_seq("Big5"@) != "csmacintosh"@);
    reveal_strlit("windows-874");
    assert(lower_seq("Big5"@) != "windows-874"@);
    reveal_strlit("tis-620");
    assert(lower_seq("Big5"@) != "tis-620"@);
    reveal_strlit("iso885911");
    assert(lower_seq("Big5"@) != "iso885911"@);
    reveal_strlit("iso8859-11");
    assert(lower_seq("Big5"@) != "iso8859-11"@);
    reveal_strlit("iso-8859-11");
    assert(lower_seq("Big5"@) != "iso-8859-11"@);
    reveal_strlit("dos-874");
    assert(lower_seq("Big5"@) != "dos-874"@);
    reveal_strlit("x-cp1250");
    assert(lower_seq("Big5"@) != "x-cp1250"@);
    reveal_strlit("windows-1250");
    assert(lower_seq("Big5"@) != "windows-1250"@);
    reveal_strlit("cp1250");
    assert(lower_seq("Big5"@) != "cp1250"@);
    reveal_strlit("x-cp1251");
    assert(lower_seq("Big5"@) != "x-cp1251"@);
    reveal_strlit("windows-1251");
    assert(lower_seq("Big5"@) != "windows-1251"@);
    reveal_strlit("cp1251");
    assert(lower_seq("Big5"@) != "cp1251"@);
    reveal_strlit("x-cp1252");
    assert(lower_seq("Big5"@) != "x-cp1252"@);
    reveal_strlit("windows-1252");
    assert(lower_seq("Big5"@) != "windows-1252"@);
    reveal_strlit("us-ascii");
    assert(lower_seq("Big5"@) != "us-ascii"@);
    reveal_strlit("latin1");
    assert(lower_seq("Big5"@) != "latin1"@);
    reveal_strlit("l1");
    assert(lower_seq("Big5"@) != "l1"@);
    reveal_strlit("iso_8859-1:1987");
    assert(lower_seq("Big5"@) != "iso_8859-1:1987"@);
    reveal_strlit("iso_8859-1");
    assert(lower_seq("Big5"@) != "iso_8859-1"@);
    reveal_strlit("iso88591");
    assert(lower_seq("Big5"@) != "iso88591"@);
    reveal_strlit("iso8859-1");
    assert(lower_seq("Big5"@) != "iso8859-1"@);
    reveal_strlit("iso-ir-100");
    assert(lower_seq("Big5"@) != "iso-ir-100"@);
    reveal_strlit("iso-8859-1");
    assert(lower_seq("Big5"@) != "iso-8859-1"@);
    reveal_strlit("ibm819");
    assert(lower_seq("Big5"@) != "ibm819"@);
    reveal_strlit("csisolatin1");
    assert(lower_seq("Big5"@) != "csisolatin1"@);
    reveal_strlit("cp819");
    assert(lower_seq("Big5"@) != "cp819"@);
    reveal_strlit("cp1252");
    assert(lower_seq("Big5"@) != "cp1252"@);
    reveal_strlit("ascii");
    assert(lower_seq("Big5"@) != "ascii"@);
    reveal_strlit("ansi_x3.4-1968");
    assert(lower_seq("Big5"@) != "ansi_x3.4-1968"@);
    reveal_strlit("x-cp1253");
    assert(lower_seq("Big5"@) != "x-cp1253"@);
    reveal_strlit("windows-1253");
    assert(lower_seq("Big5"@) != "windows-1253"@);
    reveal_strlit("cp1253");
    assert(lower_seq("Big5"@) != "cp1253"@);
    reveal_strlit("x-cp1254");
    assert(lower_seq("Big5"@) != "x-cp1254"@);
    reveal_strlit("windows-1254");
    assert(lower_seq("Big5"@) != "windows-1254"@);
    reveal_strlit("latin5");
    assert(lower_seq("Big5"@) != "latin5"@);
    reveal_strlit("l5");
    assert(lower_seq("Big5"@) != "l5"@);
    reveal_strlit("iso_8859-9:1989");
    assert(lower_seq("Big5"@) != "iso_8859-9:1989"@);
    reveal_strlit("iso_8859-9");
    assert(lower_seq("Big5"@) != "iso_8859-9"@);
    reveal_strlit("iso88599");
    assert(lower_seq("Big5"@) != "iso88599"@);
    reveal_strlit("iso8859-9");
    assert(lower_seq("Big5"@) != "iso8859-9"@);
    reveal_strlit("iso-ir-148");
    assert(lower_seq("Big5"@) != "iso-ir-148"@);
    reveal_strlit("iso-8859-9");
    assert(lower_seq("Big5"@) != "iso-8859-9"@);
    reveal_strlit("csisolatin5");
    assert(lower_seq("Big5"@) != "csisolatin5"@);
    reveal_strlit("cp1254");
    assert(lower_seq("Big5"@) != "cp1254"@);
    reveal_strlit("x-cp1255");
    assert(lower_seq("Big5"@) != "x-cp1255"@);
    reveal_strlit("windows-1255");
    assert(lower_seq("Big5"@) != "windows-1255"@);
    reveal_strlit("cp1255");
    assert(lower_seq("Big5"@) != "cp1255"@);
    reveal_strlit("x-cp1256");
    assert(lower_seq("Big5"@) != "x-cp1256"@);
    reveal_strlit("windows-1256");
    assert(lower_seq("Big5"@) != "windows-1256"@);
    reveal_strlit("cp1256");
    assert(lower_seq("Big5"@) != "cp1256"@);
    reveal_strlit("x-cp1257");
    assert(lower_seq("Big5"@) != "x-cp1257"@);
    reveal_strlit("windows-1257");
    assert(lower_seq("Big5"@) != "windows-1257"@);
    reveal_strlit("cp1257");
    assert(lower_seq("Big5"@) != "cp1257"@);
    reveal_strlit("x-cp1258");
    assert(lower_seq("Big5"@) != "x-cp1258"@);
    reveal_strlit("windows-1258");
    assert(lower_seq("Big5"@) != "windows-1258"@);
    reveal_strlit("cp1258");
    assert(lower_seq("Big5"@) != "cp1258"@);
    reveal_strlit("x-mac-ukrainian");
    assert(lower_seq("Big5"@) != "x-mac-ukrainian"@);
    reveal_strlit("x-mac-cyrillic");
    assert(lower_seq("Big5"@) != "x-mac-cyrillic"@);
    reveal_strlit("x-gbk");
    assert(lower_seq("Big5"@) != "x-gbk"@);
    reveal_strlit("iso-ir-58");
    assert(lower_seq("Big5"@) != "iso-ir-58"@);
    reveal_strlit("gbk");
    assert(lower_seq("Big5"@) != "gbk"@);
    reveal_strlit("gb_2312-80");
    assert(lower_seq("Big5"@) != "gb_2312-80"@);
    reveal_strlit("gb_2312");
    assert(lower_seq("Big5"@) != "gb_2312"@);
    reveal_strlit("gb2312");
    assert(lower_seq("Big5"@) != "gb2312"@);
    reveal_strlit("csiso58gb231280");
    assert(lower_seq("Big5"@) != "csiso58gb231280"@);
    reveal_strlit("csgb2312");
    assert(lower_seq("Big5"@) != "csgb2312"@);
    reveal_strlit("chinese");
    assert(lower_seq("Big5"@) != "chinese"@);
    reveal_strlit("gb18030");
    assert(lower_seq("Big5"@) != "gb18030"@);
    assert(is_label_big5(lower_seq("Big5"@)));
}

proof fn lemma_round_trip_euc_jp()
    ensures
        spec_parse(spec_canonical_name(CharacterEncoding::EucJp)) == Ok::<
            CharacterEncoding,
            UnrecognizedLabel,
        >(CharacterEncoding::EucJp),
{
    reveal_strlit("EUC-JP");
    reveal_strlit("euc-jp");
    assert(lower_seq("EUC-JP"@) =~= "euc-jp"@);
    reveal_strlit("x-unicode20utf8");
    assert(lower_seq("EUC-JP"@) != "x-unicode20utf8"@);
    reveal_strlit("utf8");
    assert(lower_seq("EUC-JP"@) != "utf8"@);
    reveal_strlit("utf-8");
    assert(lower_seq("EUC-JP"@) != "utf-8"@);
    reveal_strlit("unicode20utf8");
    assert(lower_seq("EUC-JP"@) != "unicode20utf8"@);
    reveal_strlit("unicode11utf8");
    assert(lower_seq("EUC-JP"@) != "unicode11utf8"@);
    reveal_strlit("unicode-1-1-utf-8");
    assert(lower_seq("EUC-JP"@) != "unicode-1-1-utf-8"@);
    reveal_strlit("ibm866");
    assert(lower_seq("EUC-JP"@)[0] != "ibm866"@[0]);
    reveal_strlit("csibm866");
    assert(lower_seq("EUC-JP"@) != "csibm866"@);
    reveal_strlit("cp866");
    assert(lower_seq("EUC-JP"@) != "cp866"@);
    reveal_strlit("866");
    assert(lower_seq("EUC-JP"@) != "866"@);
    reveal_strlit("latin2");
    assert(lower_seq("EUC-JP"@)[0] != "latin2"@[0]);
    reveal_strlit("l2");
    assert(lower_seq("EUC-JP"@) != "l2"@);
    reveal_strlit("iso_8859-2:1987");
    assert(lower_seq("EUC-JP"@) != "iso_8859-2:1987"@);
    reveal_strlit("iso_8859-2");
    assert(lower_seq("EUC-JP"@) != "iso_8859-2"@);
    reveal_strlit("iso88592");
    assert(lower_seq("EUC-JP"@) != "iso88592"@);
    reveal_strlit("iso8859-2");
    assert(lower_seq("EUC-JP"@) != "iso8859-2"@);
    reveal_strlit("iso-ir-101");
    assert(lower_seq("EUC-JP"@) != "iso-ir-101"@);
    reveal_strlit("iso-8859-2");
    assert(lower_seq("EUC-JP"@) != "iso-8859-2"@);
    reveal_strlit("csisolatin2");
    assert(lower_seq("EUC-JP"@) != "csisolatin2"@);
    reveal_strlit("latin3");
    assert(lower_seq("EUC-JP"@)[0] != "latin3"@[0]);
    reveal_strlit("l3");
    assert(lower_seq("EUC-JP"@) != "l3"@);
    reveal_strlit("iso_8859-3:1988");
    assert(lower_seq("EUC-JP"@) != "iso_8859-3:1988"@);
    reveal_strlit("iso_8859-3");
    assert(lower_seq("EUC-JP"@) != "iso_8859-3"@);
    reveal_strlit("iso88593");
    assert(lower_seq("EUC-JP"@) != "iso88593"@);
    reveal_strlit("iso8859-3");
    assert(lower_seq("EUC-JP"@) != "iso8859-3"@);
    reveal_strlit("iso-ir-109");
    assert(lower_seq("EUC-JP"@) != "iso-ir-109"@);
    reveal_strlit("iso-8859-3");
    assert(lower_seq("EUC-JP"@) != "iso-8859-3"@);
    reveal_strlit("csisolatin3");
    assert(lower_seq("EUC-JP"@) != "csisolatin3"@);
    reveal_strlit("latin4");
    assert(lower_seq("EUC-JP"@)[0] != "latin4"@[0]);
    reveal_strlit("l4");
    assert(lower_seq("EUC-JP"@) != "l4"@);
    reveal_strlit("iso_8859-4:1988");
    assert(lower_seq("EUC-JP"@) != "iso_8859-4:1988"@);
    reveal_strlit("iso_8859-4");
    assert(lower_seq("EUC-JP"@) != "iso_8859-4"@);
    reveal_strlit("iso88594");
    assert(lower_seq("EUC-JP"@) != "iso88594"@);
    reveal_strlit("iso8859-4");
    assert(lower_seq("EUC-JP"@) != "iso8859-4"@);
    reveal_strlit("iso-ir-110");
    assert(lower_seq("EUC-JP"@) != "iso-ir-110"@);
    reveal_strlit("iso-8859-4");
    assert(lower_seq("EUC-JP"@) != "iso-8859-4"@);
    reveal_strlit("csisolatin4");
    assert(lower_seq("EUC-JP"@) != "csisolatin4"@);
    reveal_strlit("iso_8859-5:1988");
    assert(lower_seq("EUC-JP"@) != "iso_8859-5:1988"@);
    reveal_strlit("iso_8859-5");
    assert(lower_seq("EUC-JP"@) != "iso_8859-5"@);
    reveal_strlit("iso88595");
    assert(lower_seq("EUC-JP"@) != "iso88595"@);
    reveal_strlit("iso8859-5");
    assert(lower_seq("EUC-JP"@) != "iso8859-5"@);
    reveal_strlit("iso-ir-144");
    assert(lower_seq("EUC-JP"@) != "iso-ir-144"@);
    reveal_strlit("iso-8859-5");
    assert(lower_seq("EUC-JP"@) != "iso-8859-5"@);
    reveal_strlit("cyrillic");
    assert(lower_seq("EUC-JP"@) != "cyrillic"@);
    reveal_strlit("csisolatincyrillic");
    assert(lower_seq("EUC-JP"@) != "csisolatincyrillic"@);
    reveal_strlit("iso_8859-6:1987");
    assert(lower_seq("EUC-JP"@) != "iso_8859-6:1987"@);
    reveal_strlit("iso_8859-6");
    assert(lower_seq("EUC-JP"@) != "iso_8859-6"@);
    reveal_strlit("iso88596");
    assert(lower_seq("EUC-JP"@) != "iso88596"@);
    reveal_strlit("iso8859-6");
    assert(lower_seq("EUC-JP"@) != "iso8859-6"@);
    reveal_strlit("iso-ir-127");
    assert(lower_seq("EUC-JP"@) != "iso-ir-127"@);
    reveal_strlit("iso-8859-6-i");
    assert(lower_seq("EUC-JP"@) != "iso-8859-6-i"@);
    reveal_strlit("iso-8859-6-e");
    assert(lower_seq("EUC-JP"@) != "iso-8859-6-e"@);
    reveal_strlit("iso-8859-6");
    assert(lower_seq("EUC-JP"@) != "iso-8859-6"@);
    reveal_strlit("ecma-114");
    assert(lower_seq("EUC-JP"@) != "ecma-114"@);
    reveal_strlit("csisolatinarabic");
    assert(lower_seq("EUC-JP"@) != "csisolatinarabic"@);
    reveal_strlit("csiso88596i");
    assert(lower_seq("EUC-JP"@) != "csiso88596i"@);
    reveal_strlit("csiso88596e");
    assert(lower_seq("EUC-JP"@) != "csiso88596e"@);
    reveal_strlit("asmo-708");
    assert(lower_seq("EUC-JP"@) != "asmo-708"@);
    reveal_strlit("arabic");
    assert(lower_seq("EUC-JP"@)[0] != "arabic"@[0]);
    reveal_strlit("sun_eu_greek");
    assert(lower_seq("EUC-JP"@) != "sun_eu_greek"@);
    reveal_strlit("iso_8859-7:1987");
    assert(lower_seq("EUC-JP"@) != "iso_8859-7:1987"@);
    reveal_strlit("iso_8859-7");
    assert(lower_seq("EUC-JP"@) != "iso_8859-7"@);
    reveal_strlit("iso88597");
    assert(lower_seq("EUC-JP"@) != "iso88597"@);
    reveal_strlit("iso8859-7");
    assert(lower_seq("EUC-JP"@) != "iso8859-7"@);
    reveal_strlit("iso-ir-126");
    assert(lower_seq("EUC-JP"@) != "iso-ir-126"@);
    reveal_strlit("iso-8859-7");
    assert(lower_seq("EUC-JP"@) != "iso-8859-7"@);
    reveal_strlit("greek8");
    assert(lower_seq("EUC-JP"@)[0] != "greek8"@[0]);
    reveal_strlit("greek");
    assert(lower_seq("EUC-JP"@) != "greek"@);
    reveal_strlit("elot_928");
    assert(lower_seq("EUC-JP"@) != "elot_928"@);
    reveal_strlit("ecma-118");
    assert(lower_seq("EUC-JP"@) != "ecma-118"@);
    reveal_strlit("csisolatingreek");
    assert(lower_seq("EUC-JP"@) != "csisolatingreek"@);
    reveal_strlit("visual");
    assert(lower_seq("EUC-JP"@)[0] != "visual"@[0]);
    reveal_strlit("iso_8859-8:1988");
    assert(lower_seq("EUC-JP"@) != "iso_8859-8:1988"@);
    reveal_strlit("iso_8859-8");
    assert(lower_seq("EUC-JP"@) != "iso_8859-8"@);
    reveal_strlit("iso88598");
    assert(lower_seq("EUC-JP"@) != "iso88598"@);
    reveal_strlit("iso8859-8");
    assert(lower_seq("EUC-JP"@) != "iso8859-8"@);
    reveal_strlit("iso-ir-138");
    assert(lower_seq("EUC-JP"@) != "iso-ir-138"@);
    reveal_strlit("iso-8859-8-e");
    assert(lower_seq("EUC-JP"@) != "iso-8859-8-e"@);
    reveal_strlit("iso-8859-8");
    assert(lower_seq("EUC-JP"@) != "iso-8859-8"@);
    reveal_strlit("hebrew");
    assert(lower_seq("EUC-JP"@)[0] != "hebrew"@[0]);
    reveal_strlit("csisolatinhebrew");
    assert(lower_seq("EUC-JP"@) != "csisolatinhebrew"@);
    reveal_strlit("csiso88598e");
    assert(lower_seq("EUC-JP"@) != "csiso88598e"@);
    reveal_strlit("logical");
    assert(lower_seq("EUC-JP"@) != "logical"@);
    reveal_strlit("iso-8859-8-i");
    assert(lower_seq("EUC-JP"@) != "iso-8859-8-i"@);
    reveal_strlit("csiso88598i");
    assert(lower_seq("EUC-JP"@) != "csiso88598i"@);
    reveal_strlit("latin6");
    assert(lower_seq("EUC-JP"@)[0] != "latin6"@[0]);
    reveal_strlit("l6");
    assert(lower_seq("EUC-JP"@) != "l6"@);
    reveal_strlit("iso885910");
    assert(lower_seq("EUC-JP"@) != "iso885910"@);
    reveal_strlit("iso8859-10");
    assert(lower_seq("EUC-JP"@) != "iso8859-10"@);
    reveal_strlit("iso-ir-157");
    assert(lower_seq("EUC-JP"@) != "iso-ir-157"@);
    reveal_strlit("iso-8859-10");
    assert(lower_seq("EUC-JP"@) != "iso-8859-10"@);
    reveal_strlit("csisolatin6");
    assert(lower_seq("EUC-JP"@) != "csisolatin6"@);
    reveal_strlit("iso885913");
    assert(lower_seq("EUC-JP"@) != "iso885913"@);
    reveal_strlit("iso8859-13");
    assert(lower_seq("EUC-JP"@) != "iso8859-13"@);
    reveal_strlit("iso-8859-13");
    assert(lower_seq("EUC-JP"@) != "iso-8859-13"@);
    reveal_strlit("iso885914");
    assert(lower_seq("EUC-JP"@) != "iso885914"@);
    reveal_strlit("iso8859-14");
    assert(lower_seq("EUC-JP"@) != "iso8859-14"@);
    reveal_strlit("iso-8859-14");
    assert(lower_seq("EUC-JP"@) != "iso-8859-14"@);
    reveal_strlit("l9");
    assert(lower_seq("EUC-JP"@) != "l9"@);
    reveal_strlit("iso_8859-15");
    assert(lower_seq("EUC-JP"@) != "iso_8859-15"@);
    reveal_strlit("iso885915");
    assert(lower_seq("EUC-JP"@) != "iso885915"@);
    reveal_strlit("iso8859-15");
    assert(lower_seq("EUC-JP"@) != "iso8859-15"@);
    reveal_strlit("iso-8859-15");
    assert(lower_seq("EUC-JP"@) != "iso-8859-15"@);
    reveal_strlit("csisolatin9");
    assert(lower_seq("EUC-JP"@) != "csisolatin9"@);
    reveal_strlit("iso-8859-16");
    assert(lower_seq("EUC-JP"@) != "iso-8859-16"@);
    reveal_strlit("koi8_r");
    assert(lower_seq("EUC-JP"@)[0] != "koi8_r"@[0]);
    reveal_strlit("koi8-r");
    assert(lower_seq("EUC-JP"@)[0] != "koi8-r"@[0]);
    reveal_strlit("koi8");
    assert(lower_seq("EUC-JP"@) != "koi8"@);
    reveal_strlit("koi");
    assert(lower_seq("EUC-JP"@) != "koi"@);
    reveal_strlit("cskoi8r");
    assert(lower_seq("EUC-JP"@) != "cskoi8r"@);
    reveal_strlit("koi8-u");
    assert(lower_seq("EUC-JP"@)[0] != "koi8-u"@[0]);
    reveal_strlit("koi8-ru");
    assert(lower_seq("EUC-JP"@) != "koi8-ru"@);
    reveal_strlit("x-mac-roman");
    assert(lower_seq("EUC-JP"@) != "x-mac-roman"@);
    reveal_strlit("macintosh");
    assert(lower_seq("EUC-JP"@) != "macintosh"@);
    reveal_strlit("mac");
    assert(lower_seq("EUC-JP"@) != "mac"@);
    reveal_strlit("csmacintosh");
    assert(lower_seq("EUC-JP"@) != "csmacintosh"@);
    reveal_strlit("windows-874");
    assert(lower_seq("EUC-JP"@) != "windows-874"@);
    reveal_strlit("tis-620");
    assert(lower_seq("EUC-JP"@) != "tis-620"@);
    reveal_strlit("iso885911");
    assert(lower_seq("EUC-JP"@) != "iso885911"@);
    reveal_strlit("iso8859-11");
    assert(lower_seq("EUC-JP"@) != "iso8859-11"@);
    reveal_strlit("iso-8859-11");
    assert(lower_seq("EUC-JP"@) != "iso-8859-11"@);
    reveal_strlit("dos-874");
    assert(lower_seq("EUC-JP"@) != "dos-874"@);
    reveal_strlit("x-cp1250");
    assert(lower_seq("EUC-JP"@) != "x-cp1250"@);
    reveal_strlit("windows-1250");
    assert(lower_seq("EUC-JP"@) != "windows-1250"@);
    reveal_strlit("cp1250");
    assert(lower_seq("EUC-JP"@)[0] != "cp1250"@[0]);
    reveal_strlit("x-cp1251");
    assert(lower_seq("EUC-JP"@) != "x-cp1251"@);
    reveal_strlit("windows-1251");
    assert(lower_seq("EUC-JP"@) != "windows-1251"@);
    reveal_strlit("cp1251");
    assert(lower_seq("EUC-JP"@)[0] != "cp1251"@[0]);
    reveal_strlit("x-cp1252");
    assert(lower_seq("EUC-JP"@) != "x-cp1252"@);
    reveal_strlit("windows-1252");
    assert(lower_seq("EUC-JP"@) != "windows-1252"@);
    reveal_strlit("us-ascii");
    assert(lower_seq("EUC-JP"@) != "us-ascii"@);
    reveal_strlit("latin1");
    assert(lower_seq("EUC-JP"@)[0] != "latin1"@[0]);
    reveal_strlit("l1");
    assert(lower_seq("EUC-JP"@) != "l1"@);
    reveal_strlit("iso_8859-1:1987");
    assert(lower_seq("EUC-JP"@) != "iso_8859-1:1987"@);
    reveal_strlit("iso_8859-1");
    assert(lower_seq("EUC-JP"@) != "iso_8859-1"@);
    reveal_strlit("iso88591");
    assert(lower_seq("EUC-JP"@) != "iso88591"@);
    reveal_strlit("iso8859-1");
    assert(lower_seq("EUC-JP"@) != "iso8859-1"@);
    reveal_strlit("iso-ir-100");
    assert(lower_seq("EUC-JP"@) != "iso-ir-100"@);
    reveal_strlit("iso-8859-1");
    assert(lower_seq("EUC-JP"@) != "iso-8859-1"@);
    reveal_strlit("ibm819");
    assert(lower_seq("EUC-JP"@)[0] != "ibm819"@[0]);
    reveal_strlit("csisolatin1");
    assert(lower_seq("EUC-JP"@) != "csisolatin1"@);
    reveal_strlit("cp819");
    assert(lower_seq("EUC-JP"@) != "cp819"@);
    reveal_strlit("cp1252");
    assert(lower_seq("EUC-JP"@)[0] != "cp1252"@[0]);
    reveal_strlit("ascii");
    assert(lower_seq("EUC-JP"@) != "ascii"@);
    reveal_strlit("ansi_x3.4-1968");
    assert(lower_seq("EUC-JP"@) != "ansi_x3.4-1968"@);
    reveal_strlit("x-cp1253");
    assert(lower_seq("EUC-JP"@) != "x-cp1253"@);
    reveal_strlit("windows-1253");
    assert(lower_seq("EUC-JP"@) != "windows-1253"@);
    reveal_strlit("cp1253");
    assert(lower_seq("EUC-JP"@)[0] != "cp1253"@[0]);
    reveal_strlit("x-cp1254");
    assert(lower_seq("EUC-JP"@) != "x-cp1254"@);
    reveal_strlit("windows-1254");
    assert(lower_seq("EUC-JP"@) != "windows-1254"@);
    reveal_strlit("latin5");
    assert(lower_seq("EUC-JP"@)[0] != "latin5"@[0]);
    reveal_strlit("l5");
    assert(lower_seq("EUC-JP"@) != "l5"@);
    reveal_strlit("iso_8859-9:1989");
    assert(lower_seq("EUC-JP"@) != "iso_8859-9:1989"@);
    reveal_strlit("iso_8859-9");
    assert(lower_seq("EUC-JP"@) != "iso_8859-9"@);
    reveal_strlit("iso88599");
    assert(lower_seq("EUC-JP"@) != "iso88599"@);
    reveal_strlit("iso8859-9");
    assert(lower_seq("EUC-JP"@) != "iso8859-9"@);
    reveal_strlit("iso-ir-148");
    assert(lower_seq("EUC-JP"@) != "iso-ir-148"@);
    reveal_strlit("iso-8859-9");
    assert(lower_seq("EUC-JP"@) != "iso-8859-9"@);
    reveal_strlit("csisolatin5");
    assert(lower_seq("EUC-JP"@) != "csisolatin5"@);
    reveal_strlit("cp1254");
    assert(lower_seq("EUC-JP"@)[0] != "cp1254"@[0]);
    reveal_strlit("x-cp1255");
    assert(lower_seq("EUC-JP"@) != "x-cp1255"@);
    reveal_strlit("windows-1255");
    assert(lower_seq("EUC-JP"@) != "windows-1255"@);
    reveal_strlit("cp1255");
    assert(lower_seq("EUC-JP"@)[0] != "cp1255"@[0]);
    reveal_strlit("x-cp1256");
    assert(lower_seq("EUC-JP"@) != "x-cp1256"@);
    reveal_strlit("windows-1256");
    assert(lower_seq("EUC-JP"@) != "windows-1256"@);
    reveal_strlit("cp1256");
    assert(lower_seq("EUC-JP"@)[0] != "cp1256"@[0]);
    reveal_strlit("x-cp1257");
    assert(lower_seq("EUC-JP"@) != "x-cp1257"@);
    reveal_strlit("windows-1257");
    assert(lower_seq("EUC-JP"@) != "windows-1257"@);
    reveal_strlit("cp1257");
    assert(lower_seq("EUC-JP"@)[0] != "cp1257"@[0]);
    reveal_strlit("x-cp1258");
    assert(lower_seq("EUC-JP"@) != "x-cp1258"@);
    reveal_strlit("windows-1258");
    assert(lower_seq("EUC-JP"@) != "windows-1258"@);
    reveal_strlit("cp1258");
    assert(lower_seq("EUC-JP"@)[0] != "cp1258"@[0]);
    reveal_strlit("x-mac-ukrainian");
    assert(lower_seq("EUC-JP"@) != "x-mac-ukrainian"@);
    reveal_strlit("x-mac-cyrillic");
    assert(lower_seq("EUC-JP"@) != "x-mac-cyrillic"@);
    reveal_strlit("x-gbk");
    assert(lower_seq("EUC-JP"@) != "x-gbk"@);
    reveal_strlit("iso-ir-58");
    assert(lower_seq("EUC-JP"@) != "iso-ir-58"@);
    reveal_strlit("gbk");
    assert(lower_seq("EUC-JP"@) != "gbk"@);
    reveal_strlit("gb_2312-80");
    assert(lower_seq("EUC-JP"@) != "gb_2312-80"@);
    reveal_strlit("gb_2312");
    assert(lower_seq("EUC-JP"@) != "gb_2312"@);
    reveal_strlit("gb2312");
    assert(lower_seq("EUC-JP"@)[0] != "gb2312"@[0]);
    reveal_strlit("csiso58gb231280");
    assert(lower_seq("EUC-JP"@) != "csiso58gb231280"@);
    reveal_strlit("csgb2312");
    assert(lower_seq("EUC-JP"@) != "csgb2312"@);
    reveal_strlit("chinese");
    assert(lower_seq("EUC-JP"@) != "chinese"@);
    reveal_strlit("gb18030");
    assert(lower_seq("EUC-JP"@) != "gb18030"@);
    reveal_strlit("x-x-big5");
    assert(lower_seq("EUC-JP"@) != "x-x-big5"@);
    reveal_strlit("csbig5");
    assert(lower_seq("EUC-JP"@)[0] != "csbig5"@[0]);
    reveal_strlit("cn-big5");
    assert(lower_seq("EUC-JP"@) != "cn-big5"@);
    reveal_strlit("big5-hkscs");
    assert(lower_seq("EUC-JP"@) != "big5-hkscs"@);
    reveal_strlit("big5");
    assert(lower_seq("EUC-JP"@) != "big5"@);
    assert(is_label_euc_jp(lower_seq("EUC-JP"@)));
}

proof fn lemma_round_trip_iso2022_jp()
    ensures
        spec_parse(spec_canonical_name(CharacterEncoding::ISO2022Jp)) == Ok::<
            CharacterEncoding,
            UnrecognizedLabel,
        >(CharacterEncoding::ISO2022Jp),
{
    reveal_strlit("ISO-2022-JP");
    reveal_strlit("iso-2022-jp");
    assert(lower_seq("ISO-2022-JP"@) =~= "iso-2022-jp"@);
    reveal_strlit("x-unicode20utf8");
    assert(lower_seq("ISO-2022-JP"@) != "x-unicode20utf8"@);
    reveal_strlit("utf8");
    assert(lower_seq("ISO-2022-JP"@) != "utf8"@);
    reveal_strlit("utf-8");
    assert(lower_seq("ISO-2022-JP"@) != "utf-8"@);
    reveal_strlit("unicode20utf8");
    assert(lower_seq("ISO-2022-JP"@) != "unicode20utf8"@);
    reveal_strlit("unicode11utf8");
    assert(lower_seq("ISO-2022-JP"@) != "unicode11utf8"@);
    reveal_strlit("unicode-1-1-utf-8");
    assert(lower_seq("ISO-2022-JP"@) != "unicode-1-1-utf-8"@);
    reveal_strlit("ibm866");
    assert(lower_seq("ISO-2022-JP"@) != "ibm866"@);
    reveal_strlit("csibm866");
    assert(lower_seq("ISO-2022-JP"@) != "csibm866"@);
    reveal_strlit("cp866");
    assert(lower_seq("ISO-2022-JP"@) != "cp866"@);
    reveal_strlit("866");
    assert(lower_seq("ISO-2022-JP"@) != "866"@);
    reveal_strlit("latin2");
    assert(lower_seq("ISO-2022-JP"@) != "latin2"@);
    reveal_strlit("l2");
    assert(lower_seq("ISO-2022-JP"@) != "l2"@);
    reveal_strlit("iso_8859-2:1987");
    assert(lower_seq("ISO-2022-JP"@) != "iso_8859-2:1987"@);
    reveal_strlit("iso_8859-2");
    assert(lower_seq("ISO-2022-JP"@) != "iso_8859-2"@);
    reveal_strlit("iso88592");
    assert(lower_seq("ISO-2022-JP"@) != "iso88592"@);
    reveal_strlit("iso8859-2");
    assert(lower_seq("ISO-2022-JP"@) != "iso8859-2"@);
    reveal_strlit("iso-ir-101");
    assert(lower_seq("ISO-2022-JP"@) != "iso-ir-101"@);
    reveal_strlit("iso-8859-2");
    assert(lower_seq("ISO-2022-JP"@) != "iso-8859-2"@);
    reveal_strlit("csisolatin2");
    assert(lower_seq("ISO-2022-JP"@)[0] != "csisolatin2"@[0]);
    reveal_strlit("latin3");
    assert(lower_seq("ISO-2022-JP"@) != "latin3"@);
    reveal_strlit("l3");
    assert(lower_seq("ISO-2022-JP"@) != "l3"@);
    reveal_strlit("iso_8859-3:1988");
    assert(lower_seq("ISO-2022-JP"@) != "iso_8859-3:1988"@);
    reveal_strlit("iso_8859-3");
    assert(lower_seq("ISO-2022-JP"@) != "iso_8859-3"@);
    reveal_strlit("iso88593");
    assert(lower_seq("ISO-2022-JP"@) != "iso88593"@);
    reveal_strlit("iso8859-3");
    assert(lower_seq("ISO-2022-JP"@) != "iso8859-3"@);
    reveal_strlit("iso-ir-109");
    assert(lower_seq("ISO-2022-JP"@) != "iso-ir-109"@);
    reveal_strlit("iso-8859-3");
    assert(lower_seq("ISO-2022-JP"@) != "iso-8859-3"@);
    reveal_strlit("csisolatin3");
    assert(lower_seq("ISO-2022-JP"@)[0] != "csisolatin3"@[0]);
    reveal_strlit("latin4");
    assert(lower_seq("ISO-2022-JP"@) != "latin4"@);
    reveal_strlit("l4");
    assert(lower_seq("ISO-2022-JP"@) != "l4"@);
    reveal_strlit("iso_8859-4:1988");
    assert(lower_seq("ISO-2022-JP"@) != "iso_8859-4:1988"@);
    reveal_strlit("iso_8859-4");
    assert(lower_seq("ISO-2022-JP"@) != "iso_8859-4"@);
    reveal_strlit("iso88594");
    assert(lower_seq("ISO-2022-JP"@) != "iso88594"@);
    reveal_strlit("iso8859-4");
    assert(lower_seq("ISO-2022-JP"@) != "iso8859-4"@);
    reveal_strlit("iso-ir-110");
    assert(lower_seq("ISO-2022-JP"@) != "iso-ir-110"@);
    reveal_strlit("iso-8859-4");
    assert(lower_seq("ISO-2022-JP"@) != "iso-8859-4"@);
    reveal_strlit("csisolatin4");
    assert(lower_seq("ISO-2022-JP"@)[0] != "csisolatin4"@[0]);
    reveal_strlit("iso_8859-5:1988");
    assert(lower_seq("ISO-2022-JP"@) != "iso_8859-5:1988"@);
    reveal_strlit("iso_8859-5");
    assert(lower_seq("ISO-2022-JP"@) != "iso_8859-5"@);
    reveal_strlit("iso88595");
    assert(lower_seq("ISO-2022-JP"@) != "iso88595"@);
    reveal_strlit("iso8859-5");
    assert(lower_seq("ISO-2022-JP"@) != "iso8859-5"@);
    reveal_strlit("iso-ir-144");
    assert(lower_seq("ISO-2022-JP"@) != "iso-ir-144"@);
    reveal_strlit("iso-8859-5");
    assert(lower_seq("ISO-2022-JP"@) != "iso-8859-5"@);
    reveal_strlit("cyrillic");
    assert(lower_seq("ISO-2022-JP"@) != "cyrillic"@);
    reveal_strlit("csisolatincyrillic");
    assert(lower_seq("ISO-2022-JP"@) != "csisolatincyrillic"@);
    reveal_strlit("iso_8859-6:1987");
    assert(lower_seq("ISO-2022-JP"@) != "iso_8859-6:1987"@);
    reveal_strlit("iso_8859-6");
    assert(lower_seq("ISO-2022-JP"@) != "iso_8859-6"@);
    reveal_strlit("iso88596");
    assert(lower_seq("ISO-2022-JP"@) != "iso88596"@);
    reveal_strlit("iso8859-6");
    assert(lower_seq("ISO-2022-JP"@) != "iso8859-6"@);
    reveal_strlit("iso-ir-127");
    assert(lower_seq("ISO-2022-JP"@) != "iso-ir-127"@);
    reveal_strlit("iso-8859-6-i");
    assert(lower_seq("ISO-2022-JP"@) != "iso-8859-6-i"@);
    reveal_strlit("iso-8859-6-e");
    assert(lower_seq("ISO-2022-JP"@) != "iso-8859-6-e"@);
    reveal_strlit("iso-8859-6");
    assert(lower_seq("ISO-2022-JP"@) != "iso-8859-6"@);
    reveal_strlit("ecma-114");
    assert(lower_seq("ISO-2022-JP"@) != "ecma-114"@);
    reveal_strlit("csisolatinarabic");
    assert(lower_seq("ISO-2022-JP"@) != "csisolatinarabic"@);
    reveal_strlit("csiso88596i");
    assert(lower_seq("ISO-2022-JP"@)[0] != "csiso88596i"@[0]);
    reveal_strlit("csiso88596e");
    assert(lower_seq("ISO-2022-JP"@)[0] != "csiso88596e"@[0]);
    reveal_strlit("asmo-708");
    assert(lower_seq("ISO-2022-JP"@) != "asmo-708"@);
    reveal_strlit("arabic");
    assert(lower_seq("ISO-2022-JP"@) != "arabic"@);
    reveal_strlit("sun_eu_greek");
    assert(lower_seq("ISO-2022-JP"@) != "sun_eu_greek"@);
    reveal_strlit("iso_8859-7:1987");
    assert(lower_seq("ISO-2022-JP"@) != "iso_8859-7:1987"@);
    reveal_strlit("iso_8859-7");
    assert(lower_seq("ISO-2022-JP"@) != "iso_8859-7"@);
    reveal_strlit("iso88597");
    assert(lower_seq("ISO-2022-JP"@) != "iso88597"@);
    reveal_strlit("iso8859-7");
    assert(lower_seq("ISO-2022-JP"@) != "iso8859-7"@);
    reveal_strlit("iso-ir-126");
    assert(lower_seq("ISO-2022-JP"@) != "iso-ir-126"@);
    reveal_strlit("iso-8859-7");
    assert(lower_seq("ISO-2022-JP"@) != "iso-8859-7"@);
    reveal_strlit("greek8");
    assert(lower_seq("ISO-2022-JP"@) != "greek8"@);
    reveal_strlit("greek");
    assert(lower_seq("ISO-2022-JP"@) != "greek"@);
    reveal_strlit("elot_928");
    assert(lower_seq("ISO-2022-JP"@) != "elot_928"@);
    reveal_strlit("ecma-118");
    assert(lower_seq("ISO-2022-JP"@) != "ecma-118"@);
    reveal_strlit("csisolatingreek");
    assert(lower_seq("ISO-2022-JP"@) != "csisolatingreek"@);
    reveal_strlit("visual");
    assert(lower_seq("ISO-2022-JP"@) != "visual"@);
    reveal_strlit("iso_8859-8:1988");
    assert(lower_seq("ISO-2022-JP"@) != "iso_8859-8:1988"@);
    reveal_strlit("iso_8859-8");
    assert(lower_seq("ISO-2022-JP"@) != "iso_8859-8"@);
    reveal_strlit("iso88598");
    assert(lower_seq("ISO-2022-JP"@) != "iso88598"@);
    reveal_strlit("iso8859-8");
    assert(lower_seq("ISO-2022-JP"@) != "iso8859-8"@);
    reveal_strlit("iso-ir-138");
    assert(lower_seq("ISO-2022-JP"@) != "iso-ir-138"@);
    reveal_strlit("iso-8859-8-e");
    assert(lower_seq("ISO-2022-JP"@) != "iso-8859-8-e"@);
    reveal_strlit("iso-8859-8");
    assert(lower_seq("ISO-2022-JP"@) != "iso-8859-8"@);
    reveal_strlit("hebrew");
    assert(lower_seq("ISO-2022-JP"@) != "hebrew"@);
    reveal_strlit("csisolatinhebrew");
    assert(lower_seq("ISO-2022-JP"@) != "csisolatinhebrew"@);
    reveal_strlit("csiso88598e");
    assert(lower_seq("ISO-2022-JP"@)[0] != "csiso88598e"@[0]);
    reveal_strlit("logical");
    assert(lower_seq("ISO-2022-JP"@) != "logical"@);
    reveal_strlit("iso-8859-8-i");
    assert(lower_seq("ISO-2022-JP"@) != "iso-8859-8-i"@);
    reveal_strlit("csiso88598i");
    assert(lower_seq("ISO-2022-JP"@)[0] != "csiso88598i"@[0]);
    reveal_strlit("latin6");
    assert(lower_seq("ISO-2022-JP"@) != "latin6"@);
    reveal_strlit("l6");
    assert(lower_seq("ISO-2022-JP"@) != "l6"@);
    reveal_strlit("iso885910");
    assert(lower_seq("ISO-2022-JP"@) != "iso885910"@);
    reveal_strlit("iso8859-10");
    assert(lower_seq("ISO-2022-JP"@) != "iso8859-10"@);
    reveal_strlit("iso-ir-157");
    assert(lower_seq("ISO-2022-JP"@) != "iso-ir-157"@);
    reveal_strlit("iso-8859-10");
    assert(lower_seq("ISO-2022-JP"@)[4] != "iso-8859-10"@[4]);
    reveal_strlit("csisolatin6");
    assert(lower_seq("ISO-2022-JP"@)[0] != "csisolatin6"@[0]);
    reveal_strlit("iso885913");
    assert(lower_seq("ISO-2022-JP"@) != "iso885913"@);
    reveal_strlit("iso8859-13");
    assert(lower_seq("ISO-2022-JP"@) != "iso8859-13"@);
    reveal_strlit("iso-8859-13");
    assert(lower_seq("ISO-2022-JP"@)[4] != "iso-8859-13"@[4]);
    reveal_strlit("iso885914");
    assert(lower_seq("ISO-2022-JP"@) != "iso885914"@);
    reveal_strlit("iso8859-14");
    assert(lower_seq("ISO-2022-JP"@) != "iso8859-14"@);
    reveal_strlit("iso-8859-14");
    assert(lower_seq("ISO-2022-JP"@)[4] != "iso-8859-14"@[4]);
    reveal_strlit("l9");
    assert(lower_seq("ISO-2022-JP"@) != "l9"@);
    reveal_strlit("iso_8859-15");
    assert(lower_seq("ISO-2022-JP"@)[3] != "iso_8859-15"@[3]);
    reveal_strlit("iso885915");
    assert(lower_seq("ISO-2022-JP"@) != "iso885915"@);
    reveal_strlit("iso8859-15");
    assert(lower_seq("ISO-2022-JP"@) != "iso8859-15"@);
    reveal_strlit("iso-8859-15");
    assert(lower_seq("ISO-2022-JP"@)[4] != "iso-8859-15"@[4]);
    reveal_strlit("csisolatin9");
    assert(lower_seq("ISO-2022-JP"@)[0] != "csisolatin9"@[0]);
    reveal_strlit("iso-8859-16");
    assert(lower_seq("ISO-2022-JP"@)[4] != "iso-8859-16"@[4]);
    reveal_strlit("koi8_r");
    assert(lower_seq("ISO-2022-JP"@) != "koi8_r"@);
    reveal_strlit("koi8-r");
    assert(lower_seq("ISO-2022-JP"@) != "koi8-r"@);
    reveal_strlit("koi8");
    assert(lower_seq("ISO-2022-JP"@) != "koi8"@);
    reveal_strlit("koi");
    assert(lower_seq("ISO-2022-JP"@) != "koi"@);
    reveal_strlit("cskoi8r");
    assert(lower_seq("ISO-2022-JP"@) != "cskoi8r"@);
    reveal_strlit("koi8-u");
    assert(lower_seq("ISO-2022-JP"@) != "koi8-u"@);
    reveal_strlit("koi8-ru");
    assert(lower_seq("ISO-2022-JP"@) != "koi8-ru"@);
    reveal_strlit("x-mac-roman");
    assert(lower_seq("ISO-2022-JP"@)[0] != "x-mac-roman"@[0]);
    reveal_strlit("macintosh");
    assert(lower_seq("ISO-2022-JP"@) != "macintosh"@);
    reveal_strlit("mac");
    assert(lower_seq("ISO-2022-JP"@) != "mac"@);
    reveal_strlit("csmacintosh");
    assert(lower_seq("ISO-2022-JP"@)[0] != "csmacintosh"@[0]);
    reveal_strlit("windows-874");
    assert(lower_seq("ISO-2022-JP"@)[0] != "windows-874"@[0]);
    reveal_strlit("tis-620");
    assert(lower_seq("ISO-2022-JP"@) != "tis-620"@);
    reveal_strlit("iso885911");
    assert(lower_seq("ISO-2022-JP"@) != "iso885911"@);
    reveal_strlit("iso8859-11");
    assert(lower_seq("ISO-2022-JP"@) != "iso8859-11"@);
    reveal_strlit("iso-8859-11");
    assert(lower_seq("ISO-2022-JP"@)[4] != "iso-8859-11"@[4]);
    reveal_strlit("dos-874");
    assert(lower_seq("ISO-2022-JP"@) != "dos-874"@);
    reveal_strlit("x-cp1250");
    assert(lower_seq("ISO-2022-JP"@) != "x-cp1250"@);
    reveal_strlit("windows-1250");
    assert(lower_seq("ISO-2022-JP"@) != "windows-1250"@);
    reveal_strlit("cp1250");
    assert(lower_seq("ISO-2022-JP"@) != "cp1250"@);
    reveal_strlit("x-cp1251");
    assert(lower_seq("ISO-2022-JP"@) != "x-cp1251"@);
    reveal_strlit("windows-1251");
    assert(lower_seq("ISO-2022-JP"@) != "windows-1251"@);
    reveal_strlit("cp1251");
    assert(lower_seq("ISO-2022-JP"@) != "cp1251"@);
    reveal_strlit("x-cp1252");
    assert(lower_seq("ISO-2022-JP"@) != "x-cp1252"@);
    reveal_strlit("windows-1252");
    assert(lower_seq("ISO-2022-JP"@) != "windows-1252"@);
    reveal_strlit("us-ascii");
    assert(lower_seq("ISO-2022-JP"@) != "us-ascii"@);
    reveal_strlit("latin1");
    assert(lower_seq("ISO-2022-JP"@) != "latin1"@);
    reveal_strlit("l1");
    assert(lower_seq("ISO-2022-JP"@) != "l1"@);
    reveal_strlit("iso_8859-1:1987");
    assert(lower_seq("ISO-2022-JP"@) != "iso_8859-1:1987"@);
    reveal_strlit("iso_8859-1");
    assert(lower_seq("ISO-2022-JP"@) != "iso_8859-1"@);
    reveal_strlit("iso88591");
    assert(lower_seq("ISO-2022-JP"@) != "iso88591"@);
    reveal_strlit("iso8859-1");
    assert(lower_seq("ISO-2022-JP"@) != "iso8859-1"@);
    reveal_strlit("iso-ir-100");
    assert(lower_seq("ISO-2022-JP"@) != "iso-ir-100"@);
    reveal_strlit("iso-8859-1");
    assert(lower_seq("ISO-2022-JP"@) != "iso-8859-1"@);
    reveal_strlit("ibm819");
    assert(lower_seq("ISO-2022-JP"@) != "ibm819"@);
    reveal_strlit("csisolatin1");
    assert(lower_seq("ISO-2022-JP"@)[0] != "csisolatin1"@[0]);
    reveal_strlit("cp819");
    assert(lower_seq("ISO-2022-JP"@) != "cp819"@);
    reveal_strlit("cp1252");
    assert(lower_seq("ISO-2022-JP"@) != "cp1252"@);
    reveal_strlit("ascii");
    assert(lower_seq("ISO-2022-JP"@) != "ascii"@);
    reveal_strlit("ansi_x3.4-1968");
    assert(lower_seq("ISO-2022-JP"@) != "ansi_x3.4-1968"@);
    reveal_strlit("x-cp1253");
    assert(lower_seq("ISO-2022-JP"@) != "x-cp1253"@);
    reveal_strlit("windows-1253");
    assert(lower_seq("ISO-2022-JP"@) != "windows-1253"@);
    reveal_strlit("cp1253");
    assert(lower_seq("ISO-2022-JP"@) != "cp1253"@);
    reveal_strlit("x-cp1254");
    assert(lower_seq("ISO-2022-JP"@) != "x-cp1254"@);
    reveal_strlit("windows-1254");
    assert(lower_seq("ISO-2022-JP"@) != "windows-1254"@);
    reveal_strlit("latin5");
    assert(lower_seq("ISO-2022-JP"@) != "latin5"@);
    reveal_strlit("l5");
    assert(lower_seq("ISO-2022-JP"@) != "l5"@);
    reveal_strlit("iso_8859-9:1989");
    assert(lower_seq("ISO-2022-JP"@) != "iso_8859-9:1989"@);
    reveal_strlit("iso_8859-9");
    assert(lower_seq("ISO-2022-JP"@) != "iso_8859-9"@);
    reveal_strlit("iso88599");
    assert(lower_seq("ISO-2022-JP"@) != "iso88599"@);
    reveal_strlit("iso8859-9");
    assert(lower_seq("ISO-2022-JP"@) != "iso8859-9"@);
    reveal_strlit("iso-ir-148");
    assert(lower_seq("ISO-2022-JP"@) != "iso-ir-148"@);
    reveal_strlit("iso-8859-9");
    assert(lower_seq("ISO-2022-JP"@) != "iso-8859-9"@);
    reveal_strlit("csisolatin5");
    assert(lower_seq("ISO-2022-JP"@)[0] != "csisolatin5"@[0]);
    reveal_strlit("cp1254");
    assert(lower_seq("ISO-2022-JP"@) != "cp1254"@);
    reveal_strlit("x-cp1255");
    assert(lower_seq("ISO-2022-JP"@) != "x-cp1255"@);
    reveal_strlit("windows-1255");
    assert(lower_seq("ISO-2022-JP"@) != "windows-1255"@);
    reveal_strlit("cp1255");
    assert(lower_seq("ISO-2022-JP"@) != "cp1255"@);
    reveal_strlit("x-cp1256");
    assert(lower_seq("ISO-2022-JP"@) != "x-cp1256"@);
    reveal_strlit("windows-1256");
    assert(lower_seq("ISO-2022-JP"@) != "windows-1256"@);
    reveal_strlit("cp1256");
    assert(lower_seq("ISO-2022-JP"@) != "cp1256"@);
    reveal_strlit("x-cp1257");
    assert(lower_seq("ISO-2022-JP"@) != "x-cp1257"@);
    reveal_strlit("windows-1257");
    assert(lower_seq("ISO-2022-JP"@) != "windows-1257"@);
    reveal_strlit("cp1257");
    assert(lower_seq("ISO-2022-JP"@) != "cp1257"@);
    reveal_strlit("x-cp1258");
    assert(lower_seq("ISO-2022-JP"@) != "x-cp1258"@);
    reveal_strlit("windows-1258");
    assert(lower_seq("ISO-2022-JP"@) != "windows-1258"@);
    reveal_strlit("cp1258");
    assert(lower_seq("ISO-2022-JP"@) != "cp1258"@);
    reveal_strlit("x-mac-ukrainian");
    assert(lower_seq("ISO-2022-JP"@) != "x-mac-ukrainian"@);
    reveal_strlit("x-mac-cyrillic");
    assert(lower_seq("ISO-2022-JP"@) != "x-mac-cyrillic"@);
    reveal_strlit("x-gbk");
    assert(lower_seq("ISO-2022-JP"@) != "x-gbk"@);
    reveal_strlit("iso-ir-58");
    assert(lower_seq("ISO-2022-JP"@) != "iso-ir-58"@);
    reveal_strlit("gbk");
    assert(lower_seq("ISO-2022-JP"@) != "gbk"@);
    reveal_strlit("gb_2312-80");
    assert(lower_seq("ISO-2022-JP"@) != "gb_2312-80"@);
    reveal_strlit("gb_2312");
    assert(lower_seq("ISO-2022-JP"@) != "gb_2312"@);
    reveal_strlit("gb2312");
    assert(lower_seq("ISO-2022-JP"@) != "gb2312"@);
    reveal_strlit("csiso58gb231280");
    assert(lower_seq("ISO-2022-JP"@) != "csiso58gb231280"@);
    reveal_strlit("csgb2312");
    assert(lower_seq("ISO-2022-JP"@) != "csgb2312"@);
    reveal_strlit("chinese");
    assert(lower_seq("ISO-2022-JP"@) != "chinese"@);
    reveal_strlit("gb18030");
    assert(lower_seq("ISO-2022-JP"@) != "gb18030"@);
    reveal_strlit("x-x-big5");
    assert(lower_seq("ISO-2022-JP"@) != "x-x-big5"@);
    reveal_strlit("csbig5");
    assert(lower_seq("ISO-2022-JP"@) != "csbig5"@);
    reveal_strlit("cn-big5");
    assert(lower_seq("ISO-2022-JP"@) != "cn-big5"@);
    reveal_strlit("big5-hkscs");
    assert(lower_seq("ISO-2022-JP"@) != "big5-hkscs"@);
    reveal_strlit("big5");
    assert(lower_seq("ISO-2022-JP"@) != "big5"@);
    reveal_strlit("x-euc-jp");
    assert(lower_seq("ISO-2022-JP"@) != "x-euc-jp"@);
    reveal_strlit("euc-jp");
    assert(lower_seq("ISO-2022-JP"@) != "euc-jp"@);
    reveal_strlit("cseucpkdfmtjapanese");
    assert(lower_seq("ISO-2022-JP"@) != "cseucpkdfmtjapanese"@);
    assert(is_label_iso2022_jp(lower_seq("ISO-2022-JP"@)));
}

proof fn lemma_round_trip_shift_jis()
    ensures
        spec_parse(spec_canonical_name(CharacterEncoding::ShiftJIS)) == Ok::<
            CharacterEncoding,
            UnrecognizedLabel,
        >(CharacterEncoding::ShiftJIS),
{
    reveal_strlit("Shift_JIS");
    reveal_strlit("shift_jis");
    assert(lower_seq("Shift_JIS"@) =~= "shift_jis"@);
    reveal_strlit("x-unicode20utf8");
    assert(lower_seq("Shift_JIS"@) != "x-unicode20utf8"@);
    reveal_strlit("utf8");
    assert(lower_seq("Shift_JIS"@) != "utf8"@);
    reveal_strlit("utf-8");
    assert(lower_seq("Shift_JIS"@) != "utf-8"@);
    reveal_strlit("unicode20utf8");
    assert(lower_seq("Shift_JIS"@) != "unicode20utf8"@);
    reveal_strlit("unicode11utf8");
    assert(lower_seq("Shift_JIS"@) != "unicode11utf8"@);
    reveal_strlit("unicode-1-1-utf-8");
    assert(lower_seq("Shift_JIS"@) != "unicode-1-1-utf-8"@);
    reveal_strlit("ibm866");
    assert(lower_seq("Shift_JIS"@) != "ibm866"@);
    reveal_strlit("csibm866");
    assert(lower_seq("Shift_JIS"@) != "csibm866"@);
    reveal_strlit("cp866");
    assert(lower_seq("Shift_JIS"@) != "cp866"@);
    reveal_strlit("866");
    assert(lower_seq("Shift_JIS"@) != "866"@);
    reveal_strlit("latin2");
    assert(lower_seq("Shift_JIS"@) != "latin2"@);
    reveal_strlit("l2");
    assert(lower_seq("Shift_JIS"@) != "l2"@);
    reveal_strlit("iso_8859-2:1987");
    assert(lower_seq("Shift_JIS"@) != "iso_8859-2:1987"@);
    reveal_strlit("iso_8859-2");
    assert(lower_seq("Shift_JIS"@) != "iso_8859-2"@);
    reveal_strlit("iso88592");
    assert(lower_seq("Shift_JIS"@) != "iso88592"@);
    reveal_strlit("iso8859-2");
    assert(lower_seq("Shift_JIS"@)[0] != "iso8859-2"@[0]);
    reveal_strlit("iso-ir-101");
    assert(lower_seq("Shift_JIS"@) != "iso-ir-101"@);
    reveal_strlit("iso-8859-2");
    assert(lower_seq("Shift_JIS"@) != "iso-8859-2"@);
    reveal_strlit("csisolatin2");
    assert(lower_seq("Shift_JIS"@) != "csisolatin2"@);
    reveal_strlit("latin3");
    assert(lower_seq("Shift_JIS"@) != "latin3"@);
    reveal_strlit("l3");
    assert(lower_seq("Shift_JIS"@) != "l3"@);
    reveal_strlit("iso_8859-3:1988");
    assert(lower_seq("Shift_JIS"@) != "iso_8859-3:1988"@);
    reveal_strlit("iso_8859-3");
    assert(lower_seq("Shift_JIS"@) != "iso_8859-3"@);
    reveal_strlit("iso88593");
    assert(lower_seq("Shift_JIS"@) != "iso88593"@);
    reveal_strlit("iso8859-3");
    assert(lower_seq("Shift_JIS"@)[0] != "iso8859-3"@[0]);
    reveal_strlit("iso-ir-109");
    assert(lower_seq("Shift_JIS"@) != "iso-ir-109"@);
    reveal_strlit("iso-8859-3");
    assert(lower_seq("Shift_JIS"@) != "iso-8859-3"@);
    reveal_strlit("csisolatin3");
    assert(lower_seq("Shift_JIS"@) != "csisolatin3"@);
    reveal_strlit("latin4");
    assert(lower_seq("Shift_JIS"@) != "latin4"@);
    reveal_strlit("l4");
    assert(lower_seq("Shift_JIS"@) != "l4"@);
    reveal_strlit("iso_8859-4:1988");
    assert(lower_seq("Shift_JIS"@) != "iso_8859-4:1988"@);
    reveal_strlit("iso_8859-4");
    assert(lower_seq("Shift_JIS"@) != "iso_8859-4"@);
    reveal_strlit("iso88594");
    assert(lower_seq("Shift_JIS"@) != "iso88594"@);
    reveal_strlit("iso8859-4");
    assert(lower_seq("Shift_JIS"@)[0] != "iso8859-4"@[0]);
    reveal_strlit("iso-ir-110");
    assert(lower_seq("Shift_JIS"@) != "iso-ir-110"@);
    reveal_strlit("iso-8859-4");
    assert(lower_seq("Shift_JIS"@) != "iso-8859-4"@);
    reveal_strlit("csisolatin4");
    assert(lower_seq("Shift_JIS"@) != "csisolatin4"@);
    reveal_strlit("iso_8859-5:1988");
    assert(lower_seq("Shift_JIS"@) != "iso_8859-5:1988"@);
    reveal_strlit("iso_8859-5");
    assert(lower_seq("Shift_JIS"@) != "iso_8859-5"@);
    reveal_strlit("iso88595");
    assert(lower_seq("Shift_JIS"@) != "iso88595"@);
    reveal_strlit("iso8859-5");
    assert(lower_seq("Shift_JIS"@)[0] != "iso8859-5"@[0]);
    reveal_strlit("iso-ir-144");
    assert(lower_seq("Shift_JIS"@) != "iso-ir-144"@);
    reveal_strlit("iso-8859-5");
    assert(lower_seq("Shift_JIS"@) != "iso-8859-5"@);
    reveal_strlit("cyrillic");
    assert(lower_seq("Shift_JIS"@) != "cyrillic"@);
    reveal_strlit("csisolatincyrillic");
    assert(lower_seq("Shift_JIS"@) != "csisolatincyrillic"@);
    reveal_strlit("iso_8859-6:1987");
    assert(lower_seq("Shift_JIS"@) != "iso_8859-6:1987"@);
    reveal_strlit("iso_8859-6");
    assert(lower_seq("Shift_JIS"@) != "iso_8859-6"@);
    reveal_strlit("iso88596");
    assert(lower_seq("Shift_JIS"@) != "iso88596"@);
    reveal_strlit("iso8859-6");
    assert(lower_seq("Shift_JIS"@)[0] != "iso8859-6"@[0]);
    reveal_strlit("iso-ir-127");
    assert(lower_seq("Shift_JIS"@) != "iso-ir-127"@);
    reveal_strlit("iso-8859-6-i");
    assert(lower_seq("Shift_JIS"@) != "iso-8859-6-i"@);
    reveal_strlit("iso-8859-6-e");
    assert(lower_seq("Shift_JIS"@) != "iso-8859-6-e"@);
    reveal_strlit("iso-8859-6");
    assert(lower_seq("Shift_JIS"@) != "iso-8859-6"@);
    reveal_strlit("ecma-114");
    assert(lower_seq("Shift_JIS"@) != "ecma-114"@);
    reveal_strlit("csisolatinarabic");
    assert(lower_seq("Shift_JIS"@) != "csisolatinarabic"@);
    reveal_strlit("csiso88596i");
    assert(lower_seq("Shift_JIS"@) != "csiso88596i"@);
    reveal_strlit("csiso88596e");
    assert(lower_seq("Shift_JIS"@) != "csiso88596e"@);
    reveal_strlit("asmo-708");
    assert(lower_seq("Shift_JIS"@) != "asmo-708"@);
    reveal_strlit("arabic");
    assert(lower_seq("Shift_JIS"@) != "arabic"@);
    reveal_strlit("sun_eu_greek");
    assert(lower_seq("Shift_JIS"@) != "sun_eu_greek"@);
    reveal_strlit("iso_8859-7:1987");
    assert(lower_seq("Shift_JIS"@) != "iso_8859-7:1987"@);
    reveal_strlit("iso_8859-7");
    assert(lower_seq("Shift_JIS"@) != "iso_8859-7"@);
    reveal_strlit("iso88597");
    assert(lower_seq("Shift_JIS"@) != "iso88597"@);
    reveal_strlit("iso8859-7");
    assert(lower_seq("Shift_JIS"@)[0] != "iso8859-7"@[0]);
    reveal_strlit("iso-ir-126");
    assert(lower_seq("Shift_JIS"@) != "iso-ir-126"@);
    reveal_strlit("iso-8859-7");
    assert(lower_seq("Shift_JIS"@) != "iso-8859-7"@);
    reveal_strlit("greek8");
    assert(lower_seq("Shift_JIS"@) != "greek8"@);
    reveal_strlit("greek");
    assert(lower_seq("Shift_JIS"@) != "greek"@);
    reveal_strlit("elot_928");
    assert(lower_seq("Shift_JIS"@) != "elot_928"@);
    reveal_strlit("ecma-118");
    assert(lower_seq("Shift_JIS"@) != "ecma-118"@);
    reveal_strlit("csisolatingreek");
    assert(lower_seq("Shift_JIS"@) != "csisolatingreek"@);
    reveal_strlit("visual");
    assert(lower_seq("Shift_JIS"@) != "visual"@);
    reveal_strlit("iso_8859-8:1988");
    assert(lower_seq("Shift_JIS"@) != "iso_8859-8:1988"@);
    reveal_strlit("iso_8859-8");
    assert(lower_seq("Shift_JIS"@) != "iso_8859-8"@);
    reveal_strlit("iso88598");
    assert(lower_seq("Shift_JIS"@) != "iso88598"@);
    reveal_strlit("iso8859-8");
    assert(lower_seq("Shift_JIS"@)[0] != "iso8859-8"@[0]);
    reveal_strlit("iso-ir-138");
    assert(lower_seq("Shift_JIS"@) != "iso-ir-138"@);
    reveal_strlit("iso-8859-8-e");
    assert(lower_seq("Shift_JIS"@) != "iso-8859-8-e"@);
    reveal_strlit("iso-8859-8");
    assert(lower_seq("Shift_JIS"@) != "iso-8859-8"@);
    reveal_strlit("hebrew");
    assert(lower_seq("Shift_JIS"@) != "hebrew"@);
    reveal_strlit("csisolatinhebrew");
    assert(lower_seq("Shift_JIS"@) != "csisolatinhebrew"@);
    reveal_strlit("csiso88598e");
    assert(lower_seq("Shift_JIS"@) != "csiso88598e"@);
    reveal_strlit("logical");
    assert(lower_seq("Shift_JIS"@) != "logical"@);
    reveal_strlit("iso-8859-8-i");
    assert(lower_seq("Shift_JIS"@) != "iso-8859-8-i"@);
    reveal_strlit("csiso88598i");
    assert(lower_seq("Shift_JIS"@) != "csiso88598i"@);
    reveal_strlit("latin6");
    assert(lower_seq("Shift_JIS"@) != "latin6"@);
    reveal_strlit("l6");
    assert(lower_seq("Shift_JIS"@) != "l6"@);
    reveal_strlit("iso885910");
    assert(lower_seq("Shift_JIS"@)[0] != "iso885910"@[0]);
    reveal_strlit("iso8859-10");
    assert(lower_seq("Shift_JIS"@) != "iso8859-10"@);
    reveal_strlit("iso-ir-157");
    assert(lower_seq("Shift_JIS"@) != "iso-ir-157"@);
    reveal_strlit("iso-8859-10");
    assert(lower_seq("Shift_JIS"@) != "iso-8859-10"@);
    reveal_strlit("csisolatin6");
    assert(lower_seq("Shift_JIS"@) != "csisolatin6"@);
    reveal_strlit("iso885913");
    assert(lower_seq("Shift_JIS"@)[0] != "iso885913"@[0]);
    reveal_strlit("iso8859-13");
    assert(lower_seq("Shift_JIS"@) != "iso8859-13"@);
    reveal_strlit("iso-8859-13");
    assert(lower_seq("Shift_JIS"@) != "iso-8859-13"@);
    reveal_strlit("iso885914");
    assert(lower_seq("Shift_JIS"@)[0] != "iso885914"@[0]);
    reveal_strlit("iso8859-14");
    assert(lower_seq("Shift_JIS"@) != "iso8859-14"@);
    reveal_strlit("iso-8859-14");
    assert(lower_seq("Shift_JIS"@) != "iso-8859-14"@);
    reveal_strlit("l9");
    assert(lower_seq("Shift_JIS"@) != "l9"@);
    reveal_strlit("iso_8859-15");
    assert(lower_seq("Shift_JIS"@) != "iso_8859-15"@);
    reveal_strlit("iso885915");
    assert(lower_seq("Shift_JIS"@)[0] != "iso885915"@[0]);
    reveal_strlit("iso8859-15");
    assert(lower_seq("Shift_JIS"@) != "iso8859-15"@);
    reveal_strlit("iso-8859-15");
    assert(lower_seq("Shift_JIS"@) != "iso-8859-15"@);
    reveal_strlit("csisolatin9");
    assert(lower_seq("Shift_JIS"@) != "csisolatin9"@);
    reveal_strlit("iso-8859-16");
    assert(lower_seq("Shift_JIS"@) != "iso-8859-16"@);
    reveal_strlit("koi8_r");
    assert(lower_seq("Shift_JIS"@) != "koi8_r"@);
    reveal_strlit("koi8-r");
    assert(lower_seq("Shift_JIS"@) != "koi8-r"@);
    reveal_strlit("koi8");
    assert(lower_seq("Shift_JIS"@) != "koi8"@);
    reveal_strlit("koi");
    assert(lower_seq("Shift_JIS"@) != "koi"@);
    reveal_strlit("cskoi8r");
    assert(lower_seq("Shift_JIS"@) != "cskoi8r"@);
    reveal_strlit("koi8-u");
    assert(lower_seq("Shift_JIS"@) != "koi8-u"@);
    reveal_strlit("koi8-ru");
    assert(lower_seq("Shift_JIS"@) != "koi8-ru"@);
    reveal_strlit("x-mac-roman");
    assert(lower_seq("Shift_JIS"@) != "x-mac-roman"@);
    reveal_strlit("macintosh");
    assert(lower_seq("Shift_JIS"@)[0] != "macintosh"@[0]);
    reveal_strlit("mac");
    assert(lower_seq("Shift_JIS"@) != "mac"@);
    reveal_strlit("csmacintosh");
    assert(lower_seq("Shift_JIS"@) != "csmacintosh"@);
    reveal_strlit("windows-874");
    assert(lower_seq("Shift_JIS"@) != "windows-874"@);
    reveal_strlit("tis-620");
    assert(lower_seq("Shift_JIS"@) != "tis-620"@);
    reveal_strlit("iso885911");
    assert(lower_seq("Shift_JIS"@)[0] != "iso885911"@[0]);
    reveal_strlit("iso8859-11");
    assert(lower_seq("Shift_JIS"@) != "iso8859-11"@);
    reveal_strlit("iso-8859-11");
    assert(lower_seq("Shift_JIS"@) != "iso-8859-11"@);
    reveal_strlit("dos-874");
    assert(lower_seq("Shift_JIS"@) != "dos-874"@);
    reveal_strlit("x-cp1250");
    assert(lower_seq("Shift_JIS"@) != "x-cp1250"@);
    reveal_strlit("windows-1250");
    assert(lower_seq("Shift_JIS"@) != "windows-1250"@);
    reveal_strlit("cp1250");
    assert(lower_seq("Shift_JIS"@) != "cp1250"@);
    reveal_strlit("x-cp1251");
    assert(lower_seq("Shift_JIS"@) != "x-cp1251"@);
    reveal_strlit("windows-1251");
    assert(lower_seq("Shift_JIS"@) != "windows-1251"@);
    reveal_strlit("cp1251");
    assert(lower_seq("Shift_JIS"@) != "cp1251"@);
    reveal_strlit("x-cp1252");
    assert(lower_seq("Shift_JIS"@) != "x-cp1252"@);
    reveal_strlit("windows-1252");
    assert(lower_seq("Shift_JIS"@) != "windows-1252"@);
    reveal_strlit("us-ascii");
    assert(lower_seq("Shift_JIS"@) != "us-ascii"@);
    reveal_strlit("latin1");
    assert(lower_seq("Shift_JIS"@) != "latin1"@);
    reveal_strlit("l1");
    assert(lower_seq("Shift_JIS"@) != "l1"@);
    reveal_strlit("iso_8859-1:1987");
    assert(lower_seq("Shift_JIS"@) != "iso_8859-1:1987"@);
    reveal_strlit("iso_8859-1");
    assert(lower_seq("Shift_JIS"@) != "iso_8859-1"@);
    reveal_strlit("iso88591");
    assert(lower_seq("Shift_JIS"@) != "iso88591"@);
    reveal_strlit("iso8859-1");
    assert(lower_seq("Shift_JIS"@)[0] != "iso8859-1"@[0]);
    reveal_strlit("iso-ir-100");
    assert(lower_seq("Shift_JIS"@) != "iso-ir-100"@);
    reveal_strlit("iso-8859-1");
    assert(lower_seq("Shift_JIS"@) != "iso-8859-1"@);
    reveal_strlit("ibm819");
    assert(lower_seq("Shift_JIS"@) != "ibm819"@);
    reveal_strlit("csisolatin1");
    assert(lower_seq("Shift_JIS"@) != "csisolatin1"@);
    reveal_strlit("cp819");
    assert(lower_seq("Shift_JIS"@) != "cp819"@);
    reveal_strlit("cp1252");
    assert(lower_seq("Shift_JIS"@) != "cp1252"@);
    reveal_strlit("ascii");
    assert(lower_seq("Shift_JIS"@) != "ascii"@);
    reveal_strlit("ansi_x3.4-1968");
    assert(lower_seq("Shift_JIS"@) != "ansi_x3.4-1968"@);
    reveal_strlit("x-cp1253");
    assert(lower_seq("Shift_JIS"@) != "x-cp1253"@);
    reveal_strlit("windows-1253");
    assert(lower_seq("Shift_JIS"@) != "windows-1253"@);
    reveal_strlit("cp1253");
    assert(lower_seq("Shift_JIS"@) != "cp1253"@);
    reveal_strlit("x-cp1254");
    assert(lower_seq("Shift_JIS"@) != "x-cp1254"@);
    reveal_strlit("windows-1254");
    assert(lower_seq("Shift_JIS"@) != "windows-1254"@);
    reveal_strlit("latin5");
    assert(lower_seq("Shift_JIS"@) != "latin5"@);
    reveal_strlit("l5");
    assert(lower_seq("Shift_JIS"@) != "l5"@);
    reveal_strlit("iso_8859-9:1989");
    assert(lower_seq("Shift_JIS"@) != "iso_8859-9:1989"@);
    reveal_strlit("iso_8859-9");
    assert(lower_seq("Shift_JIS"@) != "iso_8859-9"@);
    reveal_strlit("iso88599");
    assert(lower_seq("Shift_JIS"@) != "iso88599"@);
    reveal_strlit("iso8859-9");
    assert(lower_seq("Shift_JIS"@)[0] != "iso8859-9"@[0]);
    reveal_strlit("iso-ir-148");
    assert(lower_seq("Shift_JIS"@) != "iso-ir-148"@);
    reveal_strlit("iso-8859-9");
    assert(lower_seq("Shift_JIS"@) != "iso-8859-9"@);
    reveal_strlit("csisolatin5");
    assert(lower_seq("Shift_JIS"@) != "csisolatin5"@);
    reveal_strlit("cp1254");
    assert(lower_seq("Shift_JIS"@) != "cp1254"@);
    reveal_strlit("x-cp1255");
    assert(lower_seq("Shift_JIS"@) != "x-cp1255"@);
    reveal_strlit("windows-1255");
    assert(lower_seq("Shift_JIS"@) != "windows-1255"@);
    reveal_strlit("cp1255");
    assert(lower_seq("Shift_JIS"@) != "cp1255"@);
    reveal_strlit("x-cp1256");
    assert(lower_seq("Shift_JIS"@) != "x-cp1256"@);
    reveal_strlit("windows-1256");
    assert(lower_seq("Shift_JIS"@) != "windows-1256"@);
    reveal_strlit("cp1256");
    assert(lower_seq("Shift_JIS"@) != "cp1256"@);
    reveal_strlit("x-cp1257");
    assert(lower_seq("Shift_JIS"@) != "x-cp1257"@);
    reveal_strlit("windows-1257");
    assert(lower_seq("Shift_JIS"@) != "windows-1257"@);
    reveal_strlit("cp1257");
    assert(lower_seq("Shift_JIS"@) != "cp1257"@);
    reveal_strlit("x-cp1258");
    assert(lower_seq("Shift_JIS"@) != "x-cp1258"@);
    reveal_strlit("windows-1258");
    assert(lower_seq("Shift_JIS"@) != "windows-1258"@);
    reveal_strlit("cp1258");
    assert(lower_seq("Shift_JIS"@) != "cp1258"@);
    reveal_strlit("x-mac-ukrainian");
    assert(lower_seq("Shift_JIS"@) != "x-mac-ukrainian"@);
    reveal_strlit("x-mac-cyrillic");
    assert(lower_seq("Shift_JIS"@) != "x-mac-cyrillic"@);
    reveal_strlit("x-gbk");
    assert(lower_seq("Shift_JIS"@) != "x-gbk"@);
    reveal_strlit("iso-ir-58");
    assert(lower_seq("Shift_JIS"@)[0] != "iso-ir-58"@[0]);
    reveal_strlit("gbk");
    assert(lower_seq("Shift_JIS"@) != "gbk"@);
    reveal_strlit("gb_2312-80");
    assert(lower_seq("Shift_JIS"@) != "gb_2312-80"@);
    reveal_strlit("gb_2312");
    assert(lower_seq("Shift_JIS"@) != "gb_2312"@);
    reveal_strlit("gb2312");
    assert(lower_seq("Shift_JIS"@) != "gb2312"@);
    reveal_strlit("csiso58gb231280");
    assert(lower_seq("Shift_JIS"@) != "csiso58gb231280"@);
    reveal_strlit("csgb2312");
    assert(lower_seq("Shift_JIS"@) != "csgb2312"@);
    reveal_strlit("chinese");
    assert(lower_seq("Shift_JIS"@) != "chinese"@);
    reveal_strlit("gb18030");
    assert(lower_seq("Shift_JIS"@) != "gb18030"@);
    reveal_strlit("x-x-big5");
    assert(lower_seq("Shift_JIS"@) != "x-x-big5"@);
    reveal_strlit("csbig5");
    assert(lower_seq("Shift_JIS"@) != "csbig5"@);
    reveal_strlit("cn-big5");
    assert(lower_seq("Shift_JIS"@) != "cn-big5"@);
    reveal_strlit("big5-hkscs");
    assert(lower_seq("Shift_JIS"@) != "big5-hkscs"@);
    reveal_strlit("big5");
    assert(lower_seq("Shift_JIS"@) != "big5"@);
    reveal_strlit("x-euc-jp");
    assert(lower_seq("Shift_JIS"@) != "x-euc-jp"@);
    reveal_strlit("euc-jp");
    assert(lower_seq("Shift_JIS"@) != "euc-jp"@);
    reveal_strlit("cseucpkdfmtjapanese");
    assert(lower_seq("Shift_JIS"@) != "cseucpkdfmtjapanese"@);
    reveal_strlit("iso-2022-jp");
    assert(lower_seq("Shift_JIS"@) != "iso-2022-jp"@);
    reveal_strlit("csiso2022jp");
    assert(lower_seq("Shift_JIS"@) != "csiso2022jp"@);
    assert(is_label_shift_jis(lower_seq("Shift_JIS"@)));
}

proof fn lemma_round_trip_euc_kr()
    ensures
        spec_parse(spec_canonical_name(CharacterEncoding::EucKr)) == Ok::<
            CharacterEncoding,
            UnrecognizedLabel,
        >(CharacterEncoding::EucKr),
{
    reveal_strlit("EUC-KR");
    reveal_strlit("euc-kr");
    assert(lower_seq("EUC-KR"@) =~= "euc-kr"@);
    reveal_strlit("x-unicode20utf8");
    assert(lower_seq("EUC-KR"@) != "x-unicode20utf8"@);
    reveal_strlit("utf8");
    assert(lower_seq("EUC-KR"@) != "utf8"@);
    reveal_strlit("utf-8");
    assert(lower_seq("EUC-KR"@) != "utf-8"@);
    reveal_strlit("unicode20utf8");
    assert(lower_seq("EUC-KR"@) != "unicode20utf8"@);
    reveal_strlit("unicode11utf8");
    assert(lower_seq("EUC-KR"@) != "unicode11utf8"@);
    reveal_strlit("unicode-1-1-utf-8");
    assert(lower_seq("EUC-KR"@) != "unicode-1-1-utf-8"@);
    reveal_strlit("ibm866");
    assert(lower_seq("EUC-KR"@)[0] != "ibm866"@[0]);
    reveal_strlit("csibm866");
    assert(lower_seq("EUC-KR"@) != "csibm866"@);
    reveal_strlit("cp866");
    assert(lower_seq("EUC-KR"@) != "cp866"@);
    reveal_strlit("866");
    assert(lower_seq("EUC-KR"@) != "866"@);
    reveal_strlit("latin2");
    assert(lower_seq("EUC-KR"@)[0] != "latin2"@[0]);
    reveal_strlit("l2");
    assert(lower_seq("EUC-KR"@) != "l2"@);
    reveal_strlit("iso_8859-2:1987");
    assert(lower_seq("EUC-KR"@) != "iso_8859-2:1987"@);
    reveal_strlit("iso_8859-2");
    assert(lower_seq("EUC-KR"@) != "iso_8859-2"@);
    reveal_strlit("iso88592");
    assert(lower_seq("EUC-KR"@) != "iso88592"@);
    reveal_strlit("iso8859-2");
    assert(lower_seq("EUC-KR"@) != "iso8859-2"@);
    reveal_strlit("iso-ir-101");
    assert(lower_seq("EUC-KR"@) != "iso-ir-101"@);
    reveal_strlit("iso-8859-2");
    assert(lower_seq("EUC-KR"@) != "iso-8859-2"@);
    reveal_strlit("csisolatin2");
    assert(lower_seq("EUC-KR"@) != "csisolatin2"@);
    reveal_strlit("latin3");
    assert(lower_seq("EUC-KR"@)[0] != "latin3"@[0]);
    reveal_strlit("l3");
    assert(lower_seq("EUC-KR"@) != "l3"@);
    reveal_strlit("iso_8859-3:1988");
    assert(lower_seq("EUC-KR"@) != "iso_8859-3:1988"@);
    reveal_strlit("iso_8859-3");
    assert(lower_seq("EUC-KR"@) != "iso_8859-3"@);
    reveal_strlit("iso88593");
    assert(lower_seq("EUC-KR"@) != "iso88593"@);
    reveal_strlit("iso8859-3");
    assert(lower_seq("EUC-KR"@) != "iso8859-3"@);
    reveal_strlit("iso-ir-109");
    assert(lower_seq("EUC-KR"@) != "iso-ir-109"@);
    reveal_strlit("iso-8859-3");
    assert(lower_seq("EUC-KR"@) != "iso-8859-3"@);
    reveal_strlit("csisolatin3");
    assert(lower_seq("EUC-KR"@) != "csisolatin3"@);
    reveal_strlit("latin4");
    assert(lower_seq("EUC-KR"@)[0] != "latin4"@[0]);
    reveal_strlit("l4");
    assert(lower_seq("EUC-KR"@) != "l4"@);
    reveal_strlit("iso_8859-4:1988");
    assert(lower_seq("EUC-KR"@) != "iso_8859-4:1988"@);
    reveal_strlit("iso_8859-4");
    assert(lower_seq("EUC-KR"@) != "iso_8859-4"@);
    reveal_strlit("iso88594");
    assert(lower_seq("EUC-KR"@) != "iso88594"@);
    reveal_strlit("iso8859-4");
    assert(lower_seq("EUC-KR"@) != "iso8859-4"@);
    reveal_strlit("iso-ir-110");
    assert(lower_seq("EUC-KR"@) != "iso-ir-110"@);
    reveal_strlit("iso-8859-4");
    assert(lower_seq("EUC-KR"@) != "iso-8859-4"@);
    reveal_strlit("csisolatin4");
    assert(lower_seq("EUC-KR"@) != "csisolatin4"@);
    reveal_strlit("iso_8859-5:1988");
    assert(lower_seq("EUC-KR"@) != "iso_8859-5:1988"@);
    reveal_strlit("iso_8859-5");
    assert(lower_seq("EUC-KR"@) != "iso_8859-5"@);
    reveal_strlit("iso88595");
    assert(lower_seq("EUC-KR"@) != "iso88595"@);
    reveal_strlit("iso8859-5");
    assert(lower_seq("EUC-KR"@) != "iso8859-5"@);
    reveal_strlit("iso-ir-144");
    assert(lower_seq("EUC-KR"@) != "iso-ir-144"@);
    reveal_strlit("iso-8859-5");
    assert(lower_seq("EUC-KR"@) != "iso-8859-5"@);
    reveal_strlit("cyrillic");
    assert(lower_seq("EUC-KR"@) != "cyrillic"@);
    reveal_strlit("csisolatincyrillic");
    assert(lower_seq("EUC-KR"@) != "csisolatincyrillic"@);
    reveal_strlit("iso_8859-6:1987");
    assert(lower_seq("EUC-KR"@) != "iso_8859-6:1987"@);
    reveal_strlit("iso_8859-6");
    assert(lower_seq("EUC-KR"@) != "iso_8859-6"@);
    reveal_strlit("iso88596");
    assert(lower_seq("EUC-KR"@) != "iso88596"@);
    reveal_strlit("iso8859-6");
    assert(lower_seq("EUC-KR"@) != "iso8859-6"@);
    reveal_strlit("iso-ir-127");
    assert(lower_seq("EUC-KR"@) != "iso-ir-127"@);
    reveal_strlit("iso-8859-6-i");
    assert(lower_seq("EUC-KR"@) != "iso-8859-6-i"@);
    reveal_strlit("iso-8859-6-e");
    assert(lower_seq("EUC-KR"@) != "iso-8859-6-e"@);
    reveal_strlit("iso-8859-6");
    assert(lower_seq("EUC-KR"@) != "iso-8859-6"@);
    reveal_strlit("ecma-114");
    assert(lower_seq("EUC-KR"@) != "ecma-114"@);
    reveal_strlit("csisolatinarabic");
    assert(lower_seq("EUC-KR"@) != "csisolatinarabic"@);
    reveal_strlit("csiso88596i");
    assert(lower_seq("EUC-KR"@) != "csiso88596i"@);
    reveal_strlit("csiso88596e");
    assert(lower_seq("EUC-KR"@) != "csiso88596e"@);
    reveal_strlit("asmo-708");
    assert(lower_seq("EUC-KR"@) != "asmo-708"@);
    reveal_strlit("arabic");
    assert(lower_seq("EUC-KR"@)[0] != "arabic"@[0]);
    reveal_strlit("sun_eu_greek");
    assert(lower_seq("EUC-KR"@) != "sun_eu_greek"@);
    reveal_strlit("iso_8859-7:1987");
    assert(lower_seq("EUC-KR"@) != "iso_8859-7:1987"@);
    reveal_strlit("iso_8859-7");
    assert(lower_seq("EUC-KR"@) != "iso_8859-7"@);
    reveal_strlit("iso88597");
    assert(lower_seq("EUC-KR"@) != "iso88597"@);
    reveal_strlit("iso8859-7");
    assert(lower_seq("EUC-KR"@) != "iso8859-7"@);
    reveal_strlit("iso-ir-126");
    assert(lower_seq("EUC-KR"@) != "iso-ir-126"@);
    reveal_strlit("iso-8859-7");
    assert(lower_seq("EUC-KR"@) != "iso-8859-7"@);
    reveal_strlit("greek8");
    assert(lower_seq("EUC-KR"@)[0] != "greek8"@[0]);
    reveal_strlit("greek");
    assert(lower_seq("EUC-KR"@) != "greek"@);
    reveal_strlit("elot_928");
    assert(lower_seq("EUC-KR"@) != "elot_928"@);
    reveal_strlit("ecma-118");
    assert(lower_seq("EUC-KR"@) != "ecma-118"@);
    reveal_strlit("csisolatingreek");
    assert(lower_seq("EUC-KR"@) != "csisolatingreek"@);
    reveal_strlit("visual");
    assert(lower_seq("EUC-KR"@)[0] != "visual"@[0]);
    reveal_strlit("iso_8859-8:1988");
    assert(lower_seq("EUC-KR"@) != "iso_8859-8:1988"@);
    reveal_strlit("iso_8859-8");
    assert(lower_seq("EUC-KR"@) != "iso_8859-8"@);
    reveal_strlit("iso88598");
    assert(lower_seq("EUC-KR"@) != "iso88598"@);
    reveal_strlit("iso8859-8");
    assert(lower_seq("EUC-KR"@) != "iso8859-8"@);
    reveal_strlit("iso-ir-138");
    assert(lower_seq("EUC-KR"@) != "iso-ir-138"@);
    reveal_strlit("iso-8859-8-e");
    assert(lower_seq("EUC-KR"@) != "iso-8859-8-e"@);
    reveal_strlit("iso-8859-8");
    assert(lower_seq("EUC-KR"@) != "iso-8859-8"@);
    reveal_strlit("hebrew");
    assert(lower_seq("EUC-KR"@)[0] != "hebrew"@[0]);
    reveal_strlit("csisolatinhebrew");
    assert(lower_seq("EUC-KR"@) != "csisolatinhebrew"@);
    reveal_strlit("csiso88598e");
    assert(lower_seq("EUC-KR"@) != "csiso88598e"@);
    reveal_strlit("logical");
    assert(lower_seq("EUC-KR"@) != "logical"@);
    reveal_strlit("iso-8859-8-i");
    assert(lower_seq("EUC-KR"@) != "iso-8859-8-i"@);
    reveal_strlit("csiso88598i");
    assert(lower_seq("EUC-KR"@) != "csiso88598i"@);
    reveal_strlit("latin6");
    assert(lower_seq("EUC-KR"@)[0] != "latin6"@[0]);
    reveal_strlit("l6");
    assert(lower_seq("EUC-KR"@) != "l6"@);
    reveal_strlit("iso885910");
    assert(lower_seq("EUC-KR"@) != "iso885910"@);
    reveal_strlit("iso8859-10");
    assert(lower_seq("EUC-KR"@) != "iso8859-10"@);
    reveal_strlit("iso-ir-157");
    assert(lower_seq("EUC-KR"@) != "iso-ir-157"@);
    reveal_strlit("iso-8859-10");
    assert(lower_seq("EUC-KR"@) != "iso-8859-10"@);
    reveal_strlit("csisolatin6");
    assert(lower_seq("EUC-KR"@) != "csisolatin6"@);
    reveal_strlit("iso885913");
    assert(lower_seq("EUC-KR"@) != "iso885913"@);
    reveal_strlit("iso8859-13");
    assert(lower_seq("EUC-KR"@) != "iso8859-13"@);
    reveal_strlit("iso-8859-13");
    assert(lower_seq("EUC-KR"@) != "iso-8859-13"@);
    reveal_strlit("iso885914");
    assert(lower_seq("EUC-KR"@) != "iso885914"@);
    reveal_strlit("iso8859-14");
    assert(lower_seq("EUC-KR"@) != "iso8859-14"@);
    reveal_strlit("iso-8859-14");
    assert(lower_seq("EUC-KR"@) != "iso-8859-14"@);
    reveal_strlit("l9");
    assert(lower_seq("EUC-KR"@) != "l9"@);
    reveal_strlit("iso_8859-15");
    assert(lower_seq("EUC-KR"@) != "iso_8859-15"@);
    reveal_strlit("iso885915");
    assert(lower_seq("EUC-KR"@) != "iso885915"@);
    reveal_strlit("iso8859-15");
    assert(lower_seq("EUC-KR"@) != "iso8859-15"@);
    reveal_strlit("iso-8859-15");
    assert(lower_seq("EUC-KR"@) != "iso-8859-15"@);
    reveal_strlit("csisolatin9");
    assert(lower_seq("EUC-KR"@) != "csisolatin9"@);
    reveal_strlit("iso-8859-16");
    assert(lower_seq("EUC-KR"@) != "iso-8859-16"@);
    reveal_strlit("koi8_r");
    assert(lower_seq("EUC-KR"@)[0] != "koi8_r"@[0]);
    reveal_strlit("koi8-r");
    assert(lower_seq("EUC-KR"@)[0] != "koi8-r"@[0]);
    reveal_strlit("koi8");
    assert(lower_seq("EUC-KR"@) != "koi8"@);
    reveal_strlit("koi");
    assert(lower_seq("EUC-KR"@) != "koi"@);
    reveal_strlit("cskoi8r");
    assert(lower_seq("EUC-KR"@) != "cskoi8r"@);
    reveal_strlit("koi8-u");
    assert(lower_seq("EUC-KR"@)[0] != "koi8-u"@[0]);
    reveal_strlit("koi8-ru");
    assert(lower_seq("EUC-KR"@) != "koi8-ru"@);
    reveal_strlit("x-mac-roman");
    assert(lower_seq("EUC-KR"@) != "x-mac-roman"@);
    reveal_strlit("macintosh");
    assert(lower_seq("EUC-KR"@) != "macintosh"@);
    reveal_strlit("mac");
    assert(lower_seq("EUC-KR"@) != "mac"@);
    reveal_strlit("csmacintosh");
    assert(lower_seq("EUC-KR"@) != "csmacintosh"@);
    reveal_strlit("windows-874");
    assert(lower_seq("EUC-KR"@) != "windows-874"@);
    reveal_strlit("tis-620");
    assert(lower_seq("EUC-KR"@) != "tis-620"@);
    reveal_strlit("iso885911");
    assert(lower_seq("EUC-KR"@) != "iso885911"@);
    reveal_strlit("iso8859-11");
    assert(lower_seq("EUC-KR"@) != "iso8859-11"@);
    reveal_strlit("iso-8859-11");
    assert(lower_seq("EUC-KR"@) != "iso-8859-11"@);
    reveal_strlit("dos-874");
    assert(lower_seq("EUC-KR"@) != "dos-874"@);
    reveal_strlit("x-cp1250");
    assert(lower_seq("EUC-KR"@) != "x-cp1250"@);
    reveal_strlit("windows-1250");
    assert(lower_seq("EUC-KR"@) != "windows-1250"@);
    reveal_strlit("cp1250");
    assert(lower_seq("EUC-KR"@)[0] != "cp1250"@[0]);
    reveal_strlit("x-cp1251");
    assert(lower_seq("EUC-KR"@) != "x-cp1251"@);
    reveal_strlit("windows-1251");
    assert(lower_seq("EUC-KR"@) != "windows-1251"@);
    reveal_strlit("cp1251");
    assert(lower_seq("EUC-KR"@)[0] != "cp1251"@[0]);
    reveal_strlit("x-cp1252");
    assert(lower_seq("EUC-KR"@) != "x-cp1252"@);
    reveal_strlit("windows-1252");
    assert(lower_seq("EUC-KR"@) != "windows-1252"@);
    reveal_strlit("us-ascii");
    assert(lower_seq("EUC-KR"@) != "us-ascii"@);
    reveal_strlit("latin1");
    assert(lower_seq("EUC-KR"@)[0] != "latin1"@[0]);
    reveal_strlit("l1");
    assert(lower_seq("EUC-KR"@) != "l1"@);
    reveal_strlit("iso_8859-1:1987");
    assert(lower_seq("EUC-KR"@) != "iso_8859-1:1987"@);
    reveal_strlit("iso_8859-1");
    assert(lower_seq("EUC-KR"@) != "iso_8859-1"@);
    reveal_strlit("iso88591");
    assert(lower_seq("EUC-KR"@) != "iso88591"@);
    reveal_strlit("iso8859-1");
    assert(lower_seq("EUC-KR"@) != "iso8859-1"@);
    reveal_strlit("iso-ir-100");
    assert(lower_seq("EUC-KR"@) != "iso-ir-100"@);
    reveal_strlit("iso-8859-1");
    assert(lower_seq("EUC-KR"@) != "iso-8859-1"@);
    reveal_strlit("ibm819");
    assert(lower_seq("EUC-KR"@)[0] != "ibm819"@[0]);
    reveal_strlit("csisolatin1");
    assert(lower_seq("EUC-KR"@) != "csisolatin1"@);
    reveal_strlit("cp819");
    assert(lower_seq("EUC-KR"@) != "cp819"@);
    reveal_strlit("cp1252");
    assert(lower_seq("EUC-KR"@)[0] != "cp1252"@[0]);
    reveal_strlit("ascii");
    assert(lower_seq("EUC-KR"@) != "ascii"@);
    reveal_strlit("ansi_x3.4-1968");
    assert(lower_seq("EUC-KR"@) != "ansi_x3.4-1968"@);
    reveal_strlit("x-cp1253");
    assert(lower_seq("EUC-KR"@) != "x-cp1253"@);
    reveal_strlit("windows-1253");
    assert(lower_seq("EUC-KR"@) != "windows-1253"@);
    reveal_strlit("cp1253");
    assert(lower_seq("EUC-KR"@)[0] != "cp1253"@[0]);
    reveal_strlit("x-cp1254");
    assert(lower_seq("EUC-KR"@) != "x-cp1254"@);
    reveal_strlit("windows-1254");
    assert(lower_seq("EUC-KR"@) != "windows-1254"@);
    reveal_strlit("latin5");
    assert(lower_seq("EUC-KR"@)[0] != "latin5"@[0]);
    reveal_strlit("l5");
    assert(lower_seq("EUC-KR"@) != "l5"@);
    reveal_strlit("iso_8859-9:1989");
    assert(lower_seq("EUC-KR"@) != "iso_8859-9:1989"@);
    reveal_strlit("iso_8859-9");
    assert(lower_seq("EUC-KR"@) != "iso_8859-9"@);
    reveal_strlit("iso88599");
    assert(lower_seq("EUC-KR"@) != "iso88599"@);
    reveal_strlit("iso8859-9");
    assert(lower_seq("EUC-KR"@) != "iso8859-9"@);
    reveal_strlit("iso-ir-148");
    assert(lower_seq("EUC-KR"@) != "iso-ir-148"@);
    reveal_strlit("iso-8859-9");
    assert(lower_seq("EUC-KR"@) != "iso-8859-9"@);
    reveal_strlit("csisolatin5");
    assert(lower_seq("EUC-KR"@) != "csisolatin5"@);
    reveal_strlit("cp1254");
    assert(lower_seq("EUC-KR"@)[0] != "cp1254"@[0]);
    reveal_strlit("x-cp1255");
    assert(lower_seq("EUC-KR"@) != "x-cp1255"@);
    reveal_strlit("windows-1255");
    assert(lower_seq("EUC-KR"@) != "windows-1255"@);
    reveal_strlit("cp1255");
    assert(lower_seq("EUC-KR"@)[0] != "cp1255"@[0]);
    reveal_strlit("x-cp1256");
    assert(lower_seq("EUC-KR"@) != "x-cp1256"@);
    reveal_strlit("windows-1256");
    assert(lower_seq("EUC-KR"@) != "windows-1256"@);
    reveal_strlit("cp1256");
    assert(lower_seq("EUC-KR"@)[0] != "cp1256"@[0]);
    reveal_strlit("x-cp1257");
    assert(lower_seq("EUC-KR"@) != "x-cp1257"@);
    reveal_strlit("windows-1257");
    assert(lower_seq("EUC-KR"@) != "windows-1257"@);
    reveal_strlit("cp1257");
    assert(lower_seq("EUC-KR"@)[0] != "cp1257"@[0]);
    reveal_strlit("x-cp1258");
    assert(lower_seq("EUC-KR"@) != "x-cp1258"@);
    reveal_strlit("windows-1258");
    assert(lower_seq("EUC-KR"@) != "windows-1258"@);
    reveal_strlit("cp1258");
    assert(lower_seq("EUC-KR"@)[0] != "cp1258"@[0]);
    reveal_strlit("x-mac-ukrainian");
    assert(lower_seq("EUC-KR"@) != "x-mac-ukrainian"@);
    reveal_strlit("x-mac-cyrillic");
    assert(lower_seq("EUC-KR"@) != "x-mac-cyrillic"@);
    reveal_strlit("x-gbk");
    assert(lower_seq("EUC-KR"@) != "x-gbk"@);
    reveal_strlit("iso-ir-58");
    assert(lower_seq("EUC-KR"@) != "iso-ir-58"@);
    reveal_strlit("gbk");
    assert(lower_seq("EUC-KR"@) != "gbk"@);
    reveal_strlit("gb_2312-80");
    assert(lower_seq("EUC-KR"@) != "gb_2312-80"@);
    reveal_strlit("gb_2312");
    assert(lower_seq("EUC-KR"@) != "gb_2312"@);
    reveal_strlit("gb2312");
    assert(lower_seq("EUC-KR"@)[0] != "gb2312"@[0]);
    reveal_strlit("csiso58gb231280");
    assert(lower_seq("EUC-KR"@) != "csiso58gb231280"@);
    reveal_strlit("csgb2312");
    assert(lower_seq("EUC-KR"@) != "csgb2312"@);
    reveal_strlit("chinese");
    assert(lower_seq("EUC-KR"@) != "chinese"@);
    reveal_strlit("gb18030");
    assert(lower_seq("EUC-KR"@) != "gb18030"@);
    reveal_strlit("x-x-big5");
    assert(lower_seq("EUC-KR"@) != "x-x-big5"@);
    reveal_strlit("csbig5");
    assert(lower_seq("EUC-KR"@)[0] != "csbig5"@[0]);
    reveal_strlit("cn-big5");
    assert(lower_seq("EUC-KR"@) != "cn-big5"@);
    reveal_strlit("big5-hkscs");
    assert(lower_seq("EUC-KR"@) != "big5-hkscs"@);
    reveal_strlit("big5");
    assert(lower_seq("EUC-KR"@) != "big5"@);
    reveal_strlit("x-euc-jp");
    assert(lower_seq("EUC-KR"@) != "x-euc-jp"@);
    reveal_strlit("euc-jp");
    assert(lower_seq("EUC-KR"@)[4] != "euc-jp"@[4]);
    reveal_strlit("cseucpkdfmtjapanese");
    assert(lower_seq("EUC-KR"@) != "cseucpkdfmtjapanese"@);
    reveal_strlit("iso-2022-jp");
    assert(lower_seq("EUC-KR"@) != "iso-2022-jp"@);
    reveal_strlit("csiso2022jp");
    assert(lower_seq("EUC-KR"@) != "csiso2022jp"@);
    reveal_strlit("x-sjis");
    assert(lower_seq("EUC-KR"@)[0] != "x-sjis"@[0]);
    reveal_strlit("windows-31j");
    assert(lower_seq("EUC-KR"@) != "windows-31j"@);
    reveal_strlit("sjis");
    assert(lower_seq("EUC-KR"@) != "sjis"@);
    reveal_strlit("shift_jis");
    assert(lower_seq("EUC-KR"@) != "shift_jis"@);
    reveal_strlit("shift-jis");
    assert(lower_seq("EUC-KR"@) != "shift-jis"@);
    reveal_strlit("ms_kanji");
    assert(lower_seq("EUC-KR"@) != "ms_kanji"@);
    reveal_strlit("ms932");
    assert(lower_seq("EUC-KR"@) != "ms932"@);
    reveal_strlit("csshiftjis");
    assert(lower_seq("EUC-KR"@) != "csshiftjis"@);
    assert(is_label_euc_kr(lower_seq("EUC-KR"@)));
}

proof fn lemma_round_trip_replacement()
    ensures
        spec_parse(spec_canonical_name(CharacterEncoding::Replacement)) == Ok::<
            CharacterEncoding,
            UnrecognizedLabel,
        >(CharacterEncoding::Replacement),
{
    reveal_strlit("replacement");
    reveal_strlit("replacement");
    assert(lower_seq("replacement"@) =~= "replacement"@);
    reveal_strlit("x-unicode20utf8");
    assert(lower_seq("replacement"@) != "x-unicode20utf8"@);
    reveal_strlit("utf8");
    assert(lower_seq("replacement"@) != "utf8"@);
    reveal_strlit("utf-8");
    assert(lower_seq("replacement"@) != "utf-8"@);
    reveal_strlit("unicode20utf8");
    assert(lower_seq("replacement"@) != "unicode20utf8"@);
    reveal_strlit("unicode11utf8");
    assert(lower_seq("replacement"@) != "unicode11utf8"@);
    reveal_strlit("unicode-1-1-utf-8");
    assert(lower_seq("replacement"@) != "unicode-1-1-utf-8"@);
    reveal_strlit("ibm866");
    assert(lower_seq("replacement"@) != "ibm866"@);
    reveal_strlit("csibm866");
    assert(lower_seq("replacement"@) != "csibm866"@);
    reveal_strlit("cp866");
    assert(lower_seq("replacement"@) != "cp866"@);
    reveal_strlit("866");
    assert(lower_seq("replacement"@) != "866"@);
    reveal_strlit("latin2");
    assert(lower_seq("replacement"@) != "latin2"@);
    reveal_strlit("l2");
    assert(lower_seq("replacement"@) != "l2"@);
    reveal_strlit("iso_8859-2:1987");
    assert(lower_seq("replacement"@) != "iso_8859-2:1987"@);
    reveal_strlit("iso_8859-2");
    assert(lower_seq("replacement"@) != "iso_8859-2"@);
    reveal_strlit("iso88592");
    assert(lower_seq("replacement"@) != "iso88592"@);
    reveal_strlit("iso8859-2");
    assert(lower_seq("replacement"@) != "iso8859-2"@);
    reveal_strlit("iso-ir-101");
    assert(lower_seq("replacement"@) != "iso-ir-101"@);
    reveal_strlit("iso-8859-2");
    assert(lower_seq("replacement"@) != "iso-8859-2"@);
    reveal_strlit("csisolatin2");
    assert(lower_seq("replacement"@)[0] != "csisolatin2"@[0]);
    reveal_strlit("latin3");
    assert(lower_seq("replacement"@) != "latin3"@);
    reveal_strlit("l3");
    assert(lower_seq("replacement"@) != "l3"@);
    reveal_strlit("iso_8859-3:1988");
    assert(lower_seq("replacement"@) != "iso_8859-3:1988"@);
    reveal_strlit("iso_8859-3");
    assert(lower_seq("replacement"@) != "iso_8859-3"@);
    reveal_strlit("iso88593");
    assert(lower_seq("replacement"@) != "iso88593"@);
    reveal_strlit("iso8859-3");
    assert(lower_seq("replacement"@) != "iso8859-3"@);
    reveal_strlit("iso-ir-109");
    assert(lower_seq("replacement"@) != "iso-ir-109"@);
    reveal_strlit("iso-8859-3");
    assert(lower_seq("replacement"@) != "iso-8859-3"@);
    reveal_strlit("csisolatin3");
    assert(lower_seq("replacement"@)[0] != "csisolatin3"@[0]);
    reveal_strlit("latin4");
    assert(lower_seq("replacement"@) != "latin4"@);
    reveal_strlit("l4");
    assert(lower_seq("replacement"@) != "l4"@);
    reveal_strlit("iso_8859-4:1988");
    assert(lower_seq("replacement"@) != "iso_8859-4:1988"@);
    reveal_strlit("iso_8859-4");
    assert(lower_seq("replacement"@) != "iso_8859-4"@);
    reveal_strlit("iso88594");
    assert(lower_seq("replacement"@) != "iso88594"@);
    reveal_strlit("iso8859-4");
    assert(lower_seq("replacement"@) != "iso8859-4"@);
    reveal_strlit("iso-ir-110");
    assert(lower_seq("replacement"@) != "iso-ir-110"@);
    reveal_strlit("iso-8859-4");
    assert(lower_seq("replacement"@) != "iso-8859-4"@);
    reveal_strlit("csisolatin4");
    assert(lower_seq("replacement"@)[0] != "csisolatin4"@[0]);
    reveal_strlit("iso_8859-5:1988");
    assert(lower_seq("replacement"@) != "iso_8859-5:1988"@);
    reveal_strlit("iso_8859-5");
    assert(lower_seq("replacement"@) != "iso_8859-5"@);
    reveal_strlit("iso88595");
    assert(lower_seq("replacement"@) != "iso88595"@);
    reveal_strlit("iso8859-5");
    assert(lower_seq("replacement"@) != "iso8859-5"@);
    reveal_strlit("iso-ir-144");
    assert(lower_seq("replacement"@) != "iso-ir-144"@);
    reveal_strlit("iso-8859-5");
    assert(lower_seq("replacement"@) != "iso-8859-5"@);
    reveal_strlit("cyrillic");
    assert(lower_seq("replacement"@) != "cyrillic"@);
    reveal_strlit("csisolatincyrillic");
    assert(lower_seq("replacement"@) != "csisolatincyrillic"@);
    reveal_strlit("iso_8859-6:1987");
    assert(lower_seq("replacement"@) != "iso_8859-6:1987"@);
    reveal_strlit("iso_8859-6");
    assert(lower_seq("replacement"@) != "iso_8859-6"@);
    reveal_strlit("iso88596");
    assert(lower_seq("replacement"@) != "iso88596"@);
    reveal_strlit("iso8859-6");
    assert(lower_seq("replacement"@) != "iso8859-6"@);
    reveal_strlit("iso-ir-127");
    assert(lower_seq("replacement"@) != "iso-ir-127"@);
    reveal_strlit("iso-8859-6-i");
    assert(lower_seq("replacement"@) != "iso-8859-6-i"@);
    reveal_strlit("iso-8859-6-e");
    assert(lower_seq("replacement"@) != "iso-8859-6-e"@);
    reveal_strlit("iso-8859-6");
    assert(lower_seq("replacement"@) != "iso-8859-6"@);
    reveal_strlit("ecma-114");
    assert(lower_seq("replacement"@) != "ecma-114"@);
    reveal_strlit("csisolatinarabic");
    assert(lower_seq("replacement"@) != "csisolatinarabic"@);
    reveal_strlit("csiso88596i");
    assert(lower_seq("replacement"@)[0] != "csiso88596i"@[0]);
    reveal_strlit("csiso88596e");
    assert(lower_seq("replacement"@)[0] != "csiso88596e"@[0]);
    reveal_strlit("asmo-708");
    assert(lower_seq("replacement"@) != "asmo-708"@);
    reveal_strlit("arabic");
    assert(lower_seq("replacement"@) != "arabic"@);
    reveal_strlit("sun_eu_greek");
    assert(lower_seq("replacement"@) != "sun_eu_greek"@);
    reveal_strlit("iso_8859-7:1987");
    assert(lower_seq("replacement"@) != "iso_8859-7:1987"@);
    reveal_strlit("iso_8859-7");
    assert(lower_seq("replacement"@) != "iso_8859-7"@);
    reveal_strlit("iso88597");
    assert(lower_seq("replacement"@) != "iso88597"@);
    reveal_strlit("iso8859-7");
    assert(lower_seq("replacement"@) != "iso8859-7"@);
    reveal_strlit("iso-ir-126");
    assert(lower_seq("replacement"@) != "iso-ir-126"@);
    reveal_strlit("iso-8859-7");
    assert(lower_seq("replacement"@) != "iso-8859-7"@);
    reveal_strlit("greek8");
    assert(lower_seq("replacement"@) != "greek8"@);
    reveal_strlit("greek");
    assert(lower_seq("replacement"@) != "greek"@);
    reveal_strlit("elot_928");
    assert(lower_seq("replacement"@) != "elot_928"@);
    reveal_strlit("ecma-118");
    assert(lower_seq("replacement"@) != "ecma-118"@);
    reveal_strlit("csisolatingreek");
    assert(lower_seq("replacement"@) != "csisolatingreek"@);
    reveal_strlit("visual");
    assert(lower_seq("replacement"@) != "visual"@);
    reveal_strlit("iso_8859-8:1988");
    assert(lower_seq("replacement"@) != "iso_8859-8:1988"@);
    reveal_strlit("iso_8859-8");
    assert(lower_seq("replacement"@) != "iso_8859-8"@);
    reveal_strlit("iso88598");
    assert(lower_seq("replacement"@) != "iso88598"@);
    reveal_strlit("iso8859-8");
    assert(lower_seq("replacement"@) != "iso8859-8"@);
    reveal_strlit("iso-ir-138");
    assert(lower_seq("replacement"@) != "iso-ir-138"@);
    reveal_strlit("iso-8859-8-e");
    assert(lower_seq("replacement"@) != "iso-8859-8-e"@);
    reveal_strlit("iso-8859-8");
    assert(lower_seq("replacement"@) != "iso-8859-8"@);
    reveal_strlit("hebrew");
    assert(lower_seq("replacement"@) != "hebrew"@);
    reveal_strlit("csisolatinhebrew");
    assert(lower_seq("replacement"@) != "csisolatinhebrew"@);
    reveal_strlit("csiso88598e");
    assert(lower_seq("replacement"@)[0] != "csiso88598e"@[0]);
    reveal_strlit("logical");
    assert(lower_seq("replacement"@) != "logical"@);
    reveal_strlit("iso-8859-8-i");
    assert(lower_seq("replacement"@) != "iso-8859-8-i"@);
    reveal_strlit("csiso88598i");
    assert(lower_seq("replacement"@)[0] != "csiso88598i"@[0]);
    reveal_strlit("latin6");
    assert(lower_seq("replacement"@) != "latin6"@);
    reveal_strlit("l6");
    assert(lower_seq("replacement"@) != "l6"@);
    reveal_strlit("iso885910");
    assert(lower_seq("replacement"@) != "iso885910"@);
    reveal_strlit("iso8859-10");
    assert(lower_seq("replacement"@) != "iso8859-10"@);
    reveal_strlit("iso-ir-157");
    assert(lower_seq("replacement"@) != "iso-ir-157"@);
    reveal_strlit("iso-8859-10");
    assert(lower_seq("replacement"@)[0] != "iso-8859-10"@[0]);
    reveal_strlit("csisolatin6");
    assert(lower_seq("replacement"@)[0] != "csisolatin6"@[0]);
    reveal_strlit("iso885913");
    assert(lower_seq("replacement"@) != "iso885913"@);
    reveal_strlit("iso8859-13");
    assert(lower_seq("replacement"@) != "iso8859-13"@);
    reveal_strlit("iso-8859-13");
    assert(lower_seq("replacement"@)[0] != "iso-8859-13"@[0]);
    reveal_strlit("iso885914");
    assert(lower_seq("replacement"@) != "iso885914"@);
    reveal_strlit("iso8859-14");
    assert(lower_seq("replacement"@) != "iso8859-14"@);
    reveal_strlit("iso-8859-14");
    assert(lower_seq("replacement"@)[0] != "iso-8859-14"@[0]);
    reveal_strlit("l9");
    assert(lower_seq("replacement"@) != "l9"@);
    reveal_strlit("iso_8859-15");
    assert(lower_seq("replacement"@)[0] != "iso_8859-15"@[0]);
    reveal_strlit("iso885915");
    assert(lower_seq("replacement"@) != "iso885915"@);
    reveal_strlit("iso8859-15");
    assert(lower_seq("replacement"@) != "iso8859-15"@);
    reveal_strlit("iso-8859-15");
    assert(lower_seq("replacement"@)[0] != "iso-8859-15"@[0]);
    reveal_strlit("csisolatin9");
    assert(lower_seq("replacement"@)[0] != "csisolatin9"@[0]);
    reveal_strlit("iso-8859-16");
    assert(lower_seq("replacement"@)[0] != "iso-8859-16"@[0]);
    reveal_strlit("koi8_r");
    assert(lower_seq("replacement"@) != "koi8_r"@);
    reveal_strlit("koi8-r");
    assert(lower_seq("replacement"@) != "koi8-r"@);
    reveal_strlit("koi8");
    assert(lower_seq("replacement"@) != "koi8"@);
    reveal_strlit("koi");
    assert(lower_seq("replacement"@) != "koi"@);
    reveal_strlit("cskoi8r");
    assert(lower_seq("replacement"@) != "cskoi8r"@);
    reveal_strlit("koi8-u");
    assert(lower_seq("replacement"@) != "koi8-u"@);
    reveal_strlit("koi8-ru");
    assert(lower_seq("replacement"@) != "koi8-ru"@);
    reveal_strlit("x-mac-roman");
    assert(lower_seq("replacement"@)[0] != "x-mac-roman"@[0]);
    reveal_strlit("macintosh");
    assert(lower_seq("replacement"@) != "macintosh"@);
    reveal_strlit("mac");
    assert(lower_seq("replacement"@) != "mac"@);
    reveal_strlit("csmacintosh");
    assert(lower_seq("replacement"@)[0] != "csmacintosh"@[0]);
    reveal_strlit("windows-874");
    assert(lower_seq("replacement"@)[0] != "windows-874"@[0]);
    reveal_strlit("tis-620");
    assert(lower_seq("replacement"@) != "tis-620"@);
    reveal_strlit("iso885911");
    assert(lower_seq("replacement"@) != "iso885911"@);
    reveal_strlit("iso8859-11");
    assert(lower_seq("replacement"@) != "iso8859-11"@);
    reveal_strlit("iso-8859-11");
    assert(lower_seq("replacement"@)[0] != "iso-8859-11"@[0]);
    reveal_strlit("dos-874");
    assert(lower_seq("replacement"@) != "dos-874"@);
    reveal_strlit("x-cp1250");
    assert(lower_seq("replacement"@) != "x-cp1250"@);
    reveal_strlit("windows-1250");
    assert(lower_seq("replacement"@) != "windows-1250"@);
    reveal_strlit("cp1250");
    assert(lower_seq("replacement"@) != "cp1250"@);
    reveal_strlit("x-cp1251");
    assert(lower_seq("replacement"@) != "x-cp1251"@);
    reveal_strlit("windows-1251");
    assert(lower_seq("replacement"@) != "windows-1251"@);
    reveal_strlit("cp1251");
    assert(lower_seq("replacement"@) != "cp1251"@);
    reveal_strlit("x-cp1252");
    assert(lower_seq("replacement"@) != "x-cp1252"@);
    reveal_strlit("windows-1252");
    assert(lower_seq("replacement"@) != "windows-1252"@);
    reveal_strlit("us-ascii");
    assert(lower_seq("replacement"@) != "us-ascii"@);
    reveal_strlit("latin1");
    assert(lower_seq("replacement"@) != "latin1"@);
    reveal_strlit("l1");
    assert(lower_seq("replacement"@) != "l1"@);
    reveal_strlit("iso_8859-1:1987");
    assert(lower_seq("replacement"@) != "iso_8859-1:1987"@);
    reveal_strlit("iso_8859-1");
    assert(lower_seq("replacement"@) != "iso_8859-1"@);
    reveal_strlit("iso88591");
    assert(lower_seq("replacement"@) != "iso88591"@);
    reveal_strlit("iso8859-1");
    assert(lower_seq("replacement"@) != "iso8859-1"@);
    reveal_strlit("iso-ir-100");
    assert(lower_seq("replacement"@) != "iso-ir-100"@);
    reveal_strlit("iso-8859-1");
    assert(lower_seq("replacement"@) != "iso-8859-1"@);
    reveal_strlit("ibm819");
    assert(lower_seq("replacement"@) != "ibm819"@);
    reveal_strlit("csisolatin1");
    assert(lower_seq("replacement"@)[0] != "csisolatin1"@[0]);
    reveal_strlit("cp819");
    assert(lower_seq("replacement"@) != "cp819"@);
    reveal_strlit("cp1252");
    assert(lower_seq("replacement"@) != "cp1252"@);
    reveal_strlit("ascii");
    assert(lower_seq("replacement"@) != "ascii"@);
    reveal_strlit("ansi_x3.4-1968");
    assert(lower_seq("replacement"@) != "ansi_x3.4-1968"@);
    reveal_strlit("x-cp1253");
    assert(lower_seq("replacement"@) != "x-cp1253"@);
    reveal_strlit("windows-1253");
    assert(lower_seq("replacement"@) != "windows-1253"@);
    reveal_strlit("cp1253");
    assert(lower_seq("replacement"@) != "cp1253"@);
    reveal_strlit("x-cp1254");
    assert(lower_seq("replacement"@) != "x-cp1254"@);
    reveal_strlit("windows-1254");
    assert(lower_seq("replacement"@) != "windows-1254"@);
    reveal_strlit("latin5");
    assert(lower_seq("replacement"@) != "latin5"@);
    reveal_strlit("l5");
    assert(lower_seq("replacement"@) != "l5"@);
    reveal_strlit("iso_8859-9:1989");
    assert(lower_seq("replacement"@) != "iso_8859-9:1989"@);
    reveal_strlit("iso_8859-9");
    assert(lower_seq("replacement"@) != "iso_8859-9"@);
    reveal_strlit("iso88599");
    assert(lower_seq("replacement"@) != "iso88599"@);
    reveal_strlit("iso8859-9");
    assert(lower_seq("replacement"@) != "iso8859-9"@);
    reveal_strlit("iso-ir-148");
    assert(lower_seq("replacement"@) != "iso-ir-148"@);
    reveal_strlit("iso-8859-9");
    assert(lower_seq("replacement"@) != "iso-8859-9"@);
    reveal_strlit("csisolatin5");
    assert(lower_seq("replacement"@)[0] != "csisolatin5"@[0]);
    reveal_strlit("cp1254");
    assert(lower_seq("replacement"@) != "cp1254"@);
    reveal_strlit("x-cp1255");
    assert(lower_seq("replacement"@) != "x-cp1255"@);
    reveal_strlit("windows-1255");
    assert(lower_seq("replacement"@) != "windows-1255"@);
    reveal_strlit("cp1255");
    assert(lower_seq("replacement"@) != "cp1255"@);
    reveal_strlit("x-cp1256");
    assert(lower_seq("replacement"@) != "x-cp1256"@);
    reveal_strlit("windows-1256");
    assert(lower_seq("replacement"@) != "windows-1256"@);
    reveal_strlit("cp1256");
    assert(lower_seq("replacement"@) != "cp1256"@);
    reveal_strlit("x-cp1257");
    assert(lower_seq("replacement"@) != "x-cp1257"@);
    reveal_strlit("windows-1257");
    assert(lower_seq("replacement"@) != "windows-1257"@);
    reveal_strlit("cp1257");
    assert(lower_seq("replacement"@) != "cp1257"@);
    reveal_strlit("x-cp1258");
    assert(lower_seq("replacement"@) != "x-cp1258"@);
    reveal_strlit("windows-1258");
    assert(lower_seq("replacement"@) != "windows-1258"@);
    reveal_strlit("cp1258");
    assert(lower_seq("replacement"@) != "cp1258"@);
    reveal_strlit("x-mac-ukrainian");
    assert(lower_seq("replacement"@) != "x-mac-ukrainian"@);
    reveal_strlit("x-mac-cyrillic");
    assert(lower_seq("replacement"@) != "x-mac-cyrillic"@);
    reveal_strlit("x-gbk");
    assert(lower_seq("replacement"@) != "x-gbk"@);
    reveal_strlit("iso-ir-58");
    assert(lower_seq("replacement"@) != "iso-ir-58"@);
    reveal_strlit("gbk");
    assert(lower_seq("replacement"@) != "gbk"@);
    reveal_strlit("gb_2312-80");
    assert(lower_seq("replacement"@) != "gb_2312-80"@);
    reveal_strlit("gb_2312");
    assert(lower_seq("replacement"@) != "gb_2312"@);
    reveal_strlit("gb2312");
    assert(lower_seq("replacement"@) != "gb2312"@);
    reveal_strlit("csiso58gb231280");
    assert(lower_seq("replacement"@) != "csiso58gb231280"@);
    reveal_strlit("csgb2312");
    assert(lower_seq("replacement"@) != "csgb2312"@);
    reveal_strlit("chinese");
    assert(lower_seq("replacement"@) != "chinese"@);
    reveal_strlit("gb18030");
    assert(lower_seq("replacement"@) != "gb18030"@);
    reveal_strlit("x-x-big5");
    assert(lower_seq("replacement"@) != "x-x-big5"@);
    reveal_strlit("csbig5");
    assert(lower_seq("replacement"@) != "csbig5"@);
    reveal_strlit("cn-big5");
    assert(lower_seq("replacement"@) != "cn-big5"@);
    reveal_strlit("big5-hkscs");
    assert(lower_seq("replacement"@) != "big5-hkscs"@);
    reveal_strlit("big5");
    assert(lower_seq("replacement"@) != "big5"@);
    reveal_strlit("x-euc-jp");
    assert(lower_seq("replacement"@) != "x-euc-jp"@);
    reveal_strlit("euc-jp");
    assert(lower_seq("replacement"@) != "euc-jp"@);
    reveal_strlit("cseucpkdfmtjapanese");
    assert(lower_seq("replacement"@) != "cseucpkdfmtjapanese"@);
    reveal_strlit("iso-2022-jp");
    assert(lower_seq("replacement"@)[0] != "iso-2022-jp"@[0]);
    reveal_strlit("csiso2022jp");
    assert(lower_seq("replacement"@)[0] != "csiso2022jp"@[0]);
    reveal_strlit("x-sjis");
    assert(lower_seq("replacement"@) != "x-sjis"@);
    reveal_strlit("windows-31j");
    assert(lower_seq("replacement"@)[0] != "windows-31j"@[0]);
    reveal_strlit("sjis");
    assert(lower_seq("replacement"@) != "sjis"@);
    reveal_strlit("shift_jis");
    assert(lower_seq("replacement"@) != "shift_jis"@);
    reveal_strlit("shift-jis");
    assert(lower_seq("replacement"@) != "shift-jis"@);
    reveal_strlit("ms_kanji");
    assert(lower_seq("replacement"@) != "ms_kanji"@);
    reveal_strlit("ms932");
    assert(lower_seq("replacement"@) != "ms932"@);
    reveal_strlit("csshiftjis");
    assert(lower_seq("replacement"@) != "csshiftjis"@);
    reveal_strlit("windows-949");
    assert(lower_seq("replacement"@)[0] != "windows-949"@[0]);
    reveal_strlit("ksc_5601");
    assert(lower_seq("replacement"@) != "ksc_5601"@);
    reveal_strlit("ksc5601");
    assert(lower_seq("replacement"@) != "ksc5601"@);
    reveal_strlit("ks_c_5601-1989");
    assert(lower_seq("replacement"@) != "ks_c_5601-1989"@);
    reveal_strlit("ks_c_5601-1987");
    assert(lower_seq("replacement"@) != "ks_c_5601-1987"@);
    reveal_strlit("korean");
    assert(lower_seq("replacement"@) != "korean"@);
    reveal_strlit("iso-ir-149");
    assert(lower_seq("replacement"@) != "iso-ir-149"@);
    reveal_strlit("euc-kr");
    assert(lower_seq("replacement"@) != "euc-kr"@);
    reveal_strlit("csksc56011987");
    assert(lower_seq("replacement"@) != "csksc56011987"@);
    reveal_strlit("cseuckr");
    assert(lower_seq("replacement"@) != "cseuckr"@);
    assert(is_label_replacement(lower_seq("replacement"@)));
}

proof fn lemma_round_trip_utf16_be()
    ensures
        spec_parse(spec_canonical_name(CharacterEncoding::Utf16BE)) == Ok::<
            CharacterEncoding,
            UnrecognizedLabel,
        >(CharacterEncoding::Utf16BE),
{
    reveal_strlit("UTF-16BE");
    reveal_strlit("utf-16be");
    assert(lower_seq("UTF-16BE"@) =~= "utf-16be"@);
    reveal_strlit("x-unicode20utf8");
    assert(lower_seq("UTF-16BE"@) != "x-unicode20utf8"@);
    reveal_strlit("utf8");
    assert(lower_seq("UTF-16BE"@) != "utf8"@);
    reveal_strlit("utf-8");
    assert(lower_seq("UTF-16BE"@) != "utf-8"@);
    reveal_strlit("unicode20utf8");
    assert(lower_seq("UTF-16BE"@) != "unicode20utf8"@);
    reveal_strlit("unicode11utf8");
    assert(lower_seq("UTF-16BE"@) != "unicode11utf8"@);
    reveal_strlit("unicode-1-1-utf-8");
    assert(lower_seq("UTF-16BE"@) != "unicode-1-1-utf-8"@);
    reveal_strlit("ibm866");
    assert(lower_seq("UTF-16BE"@) != "ibm866"@);
    reveal_strlit("csibm866");
    assert(lower_seq("UTF-16BE"@)[0] != "csibm866"@[0]);
    reveal_strlit("cp866");
    assert(lower_seq("UTF-16BE"@) != "cp866"@);
    reveal_strlit("866");
    assert(lower_seq("UTF-16BE"@) != "866"@);
    reveal_strlit("latin2");
    assert(lower_seq("UTF-16BE"@) != "latin2"@);
    reveal_strlit("l2");
    assert(lower_seq("UTF-16BE"@) != "l2"@);
    reveal_strlit("iso_8859-2:1987");
    assert(lower_seq("UTF-16BE"@) != "iso_8859-2:1987"@);
    reveal_strlit("iso_8859-2");
    assert(lower_seq("UTF-16BE"@) != "iso_8859-2"@);
    reveal_strlit("iso88592");
    assert(lower_seq("UTF-16BE"@)[0] != "iso88592"@[0]);
    reveal_strlit("iso8859-2");
    assert(lower_seq("UTF-16BE"@) != "iso8859-2"@);
    reveal_strlit("iso-ir-101");
    assert(lower_seq("UTF-16BE"@) != "iso-ir-101"@);
    reveal_strlit("iso-8859-2");
    assert(lower_seq("UTF-16BE"@) != "iso-8859-2"@);
    reveal_strlit("csisolatin2");
    assert(lower_seq("UTF-16BE"@) != "csisolatin2"@);
    reveal_strlit("latin3");
    assert(lower_seq("UTF-16BE"@) != "latin3"@);
    reveal_strlit("l3");
    assert(lower_seq("UTF-16BE"@) != "l3"@);
    reveal_strlit("iso_8859-3:1988");
    assert(lower_seq("UTF-16BE"@) != "iso_8859-3:1988"@);
    reveal_strlit("iso_8859-3");
    assert(lower_seq("UTF-16BE"@) != "iso_8859-3"@);
    reveal_strlit("iso88593");
    assert(lower_seq("UTF-16BE"@)[0] != "iso88593"@[0]);
    reveal_strlit("iso8859-3");
    assert(lower_seq("UTF-16BE"@) != "iso8859-3"@);
    reveal_strlit("iso-ir-109");
    assert(lower_seq("UTF-16BE"@) != "iso-ir-109"@);
    reveal_strlit("iso-8859-3");
    assert(lower_seq("UTF-16BE"@) != "iso-8859-3"@);
    reveal_strlit("csisolatin3");
    assert(lower_seq("UTF-16BE"@) != "csisolatin3"@);
    reveal_strlit("latin4");
    assert(lower_seq("UTF-16BE"@) != "latin4"@);
    reveal_strlit("l4");
    assert(lower_seq("UTF-16BE"@) != "l4"@);
    reveal_strlit("iso_8859-4:1988");
    assert(lower_seq("UTF-16BE"@) != "iso_8859-4:1988"@);
    reveal_strlit("iso_8859-4");
    assert(lower_seq("UTF-16BE"@) != "iso_8859-4"@);
    reveal_strlit("iso88594");
    assert(lower_seq("UTF-16BE"@)[0] != "iso88594"@[0]);
    reveal_strlit("iso8859-4");
    assert(lower_seq("UTF-16BE"@) != "iso8859-4"@);
    reveal_strlit("iso-ir-110");
    assert(lower_seq("UTF-16BE"@) != "iso-ir-110"@);
    reveal_strlit("iso-8859-4");
    assert(lower_seq("UTF-16BE"@) != "iso-8859-4"@);
    reveal_strlit("csisolatin4");
    assert(lower_seq("UTF-16BE"@) != "csisolatin4"@);
    reveal_strlit("iso_8859-5:1988");
    assert(lower_seq("UTF-16BE"@) != "iso_8859-5:1988"@);
    reveal_strlit("iso_8859-5");
    assert(lower_seq("UTF-16BE"@) != "iso_8859-5"@);
    reveal_strlit("iso88595");
    assert(lower_seq("UTF-16BE"@)[0] != "iso88595"@[0]);
    reveal_strlit("iso8859-5");
    assert(lower_seq("UTF-16BE"@) != "iso8859-5"@);
    reveal_strlit("iso-ir-144");
    assert(lower_seq("UTF-16BE"@) != "iso-ir-144"@);
    reveal_strlit("iso-8859-5");
    assert(lower_seq("UTF-16BE"@) != "iso-8859-5"@);
    reveal_strlit("cyrillic");
    assert(lower_seq("UTF-16BE"@)[0] != "cyrillic"@[0]);
    reveal_strlit("csisolatincyrillic");
    assert(lower_seq("UTF-16BE"@) != "csisolatincyrillic"@);
    reveal_strlit("iso_8859-6:1987");
    assert(lower_seq("UTF-16BE"@) != "iso_8859-6:1987"@);
    reveal_strlit("iso_8859-6");
    assert(lower_seq("UTF-16BE"@) != "iso_8859-6"@);
    reveal_strlit("iso88596");
    assert(lower_seq("UTF-16BE"@)[0] != "iso88596"@[0]);
    reveal_strlit("iso8859-6");
    assert(lower_seq("UTF-16BE"@) != "iso8859-6"@);
    reveal_strlit("iso-ir-127");
    assert(lower_seq("UTF-16BE"@) != "iso-ir-127"@);
    reveal_strlit("iso-8859-6-i");
    assert(lower_seq("UTF-16BE"@) != "iso-8859-6-i"@);
    reveal_strlit("iso-8859-6-e");
    assert(lower_seq("UTF-16BE"@) != "iso-8859-6-e"@);
    reveal_strlit("iso-8859-6");
    assert(lower_seq("UTF-16BE"@) != "iso-8859-6"@);
    reveal_strlit("ecma-114");
    assert(lower_seq("UTF-16BE"@)[0] != "ecma-114"@[0]);
    reveal_strlit("csisolatinarabic");
    assert(lower_seq("UTF-16BE"@) != "csisolatinarabic"@);
    reveal_strlit("csiso88596i");
    assert(lower_seq("UTF-16BE"@) != "csiso88596i"@);
    reveal_strlit("csiso88596e");
    assert(lower_seq("UTF-16BE"@) != "csiso88596e"@);
    reveal_strlit("asmo-708");
    assert(lower_seq("UTF-16BE"@)[0] != "asmo-708"@[0]);
    reveal_strlit("arabic");
    assert(lower_seq("UTF-16BE"@) != "arabic"@);
    reveal_strlit("sun_eu_greek");
    assert(lower_seq("UTF-16BE"@) != "sun_eu_greek"@);
    reveal_strlit("iso_8859-7:1987");
    assert(lower_seq("UTF-16BE"@) != "iso_8859-7:1987"@);
    reveal_strlit("iso_8859-7");
    assert(lower_seq("UTF-16BE"@) != "iso_8859-7"@);
    reveal_strlit("iso88597");
    assert(lower_seq("UTF-16BE"@)[0] != "iso88597"@[0]);
    reveal_strlit("iso8859-7");
    assert(lower_seq("UTF-16BE"@) != "iso8859-7"@);
    reveal_strlit("iso-ir-126");
    assert(lower_seq("UTF-16BE"@) != "iso-ir-126"@);
    reveal_strlit("iso-8859-7");
    assert(lower_seq("UTF-16BE"@) != "iso-8859-7"@);
    reveal_strlit("greek8");
    assert(lower_seq("UTF-16BE"@) != "greek8"@);
    reveal_strlit("greek");
    assert(lower_seq("UTF-16BE"@) != "greek"@);
    reveal_strlit("elot_928");
    assert(lower_seq("UTF-16BE"@)[0] != "elot_928"@[0]);
    reveal_strlit("ecma-118");
    assert(lower_seq("UTF-16BE"@)[0] != "ecma-118"@[0]);
    reveal_strlit("csisolatingreek");
    assert(lower_seq("UTF-16BE"@) != "csisolatingreek"@);
    reveal_strlit("visual");
    assert(lower_seq("UTF-16BE"@) != "visual"@);
    reveal_strlit("iso_8859-8:1988");
    assert(lower_seq("UTF-16BE"@) != "iso_8859-8:1988"@);
    reveal_strlit("iso_8859-8");
    assert(lower_seq("UTF-16BE"@) != "iso_8859-8"@);
    reveal_strlit("iso88598");
    assert(lower_seq("UTF-16BE"@)[0] != "iso88598"@[0]);
    reveal_strlit("iso8859-8");
    assert(lower_seq("UTF-16BE"@) != "iso8859-8"@);
    reveal_strlit("iso-ir-138");
    assert(lower_seq("UTF-16BE"@) != "iso-ir-138"@);
    reveal_strlit("iso-8859-8-e");
    assert(lower_seq("UTF-16BE"@) != "iso-8859-8-e"@);
    reveal_strlit("iso-8859-8");
    assert(lower_seq("UTF-16BE"@) != "iso-8859-8"@);
    reveal_strlit("hebrew");
    assert(lower_seq("UTF-16BE"@) != "hebrew"@);
    reveal_strlit("csisolatinhebrew");
    assert(lower_seq("UTF-16BE"@) != "csisolatinhebrew"@);
    reveal_strlit("csiso88598e");
    assert(lower_seq("UTF-16BE"@) != "csiso88598e"@);
    reveal_strlit("logical");
    assert(lower_seq("UTF-16BE"@) != "logical"@);
    reveal_strlit("iso-8859-8-i");
    assert(lower_seq("UTF-16BE"@) != "iso-8859-8-i"@);
    reveal_strlit("csiso88598i");
    assert(lower_seq("UTF-16BE"@) != "csiso88598i"@);
    reveal_strlit("latin6");
    assert(lower_seq("UTF-16BE"@) != "latin6"@);
    reveal_strlit("l6");
    assert(lower_seq("UTF-16BE"@) != "l6"@);
    reveal_strlit("iso885910");
    assert(lower_seq("UTF-16BE"@) != "iso885910"@);
    reveal_strlit("iso8859-10");
    assert(lower_seq("UTF-16BE"@) != "iso8859-10"@);
    reveal_strlit("iso-ir-157");
    assert(lower_seq("UTF-16BE"@) != "iso-ir-157"@);
    reveal_strlit("iso-8859-10");
    assert(lower_seq("UTF-16BE"@) != "iso-8859-10"@);
    reveal_strlit("csisolatin6");
    assert(lower_seq("UTF-16BE"@) != "csisolatin6"@);
    reveal_strlit("iso885913");
    assert(lower_seq("UTF-16BE"@) != "iso885913"@);
    reveal_strlit("iso8859-13");
    assert(lower_seq("UTF-16BE"@) != "iso8859-13"@);
    reveal_strlit("iso-8859-13");
    assert(lower_seq("UTF-16BE"@) != "iso-8859-13"@);
    reveal_strlit("iso885914");
    assert(lower_seq("UTF-16BE"@) != "iso885914"@);
    reveal_strlit("iso8859-14");
    assert(lower_seq("UTF-16BE"@) != "iso8859-14"@);
    reveal_strlit("iso-8859-14");
    assert(lower_seq("UTF-16BE"@) != "iso-8859-14"@);
    reveal_strlit("l9");
    assert(lower_seq("UTF-16BE"@) != "l9"@);
    reveal_strlit("iso_8859-15");
    assert(lower_seq("UTF-16BE"@) != "iso_8859-15"@);
    reveal_strlit("iso885915");
    assert(lower_seq("UTF-16BE"@) != "iso885915"@);
    reveal_strlit("iso8859-15");
    assert(lower_seq("UTF-16BE"@) != "iso8859-15"@);
    reveal_strlit("iso-8859-15");
    assert(lower_seq("UTF-16BE"@) != "iso-8859-15"@);
    reveal_strlit("csisolatin9");
    assert(lower_seq("UTF-16BE"@) != "csisolatin9"@);
    reveal_strlit("iso-8859-16");
    assert(lower_seq("UTF-16BE"@) != "iso-8859-16"@);
    reveal_strlit("koi8_r");
    assert(lower_seq("UTF-16BE"@) != "koi8_r"@);
    reveal_strlit("koi8-r");
    assert(lower_seq("UTF-16BE"@) != "koi8-r"@);
    reveal_strlit("koi8");
    assert(lower_seq("UTF-16BE"@) != "koi8"@);
    reveal_strlit("koi");
    assert(lower_seq("UTF-16BE"@) != "koi"@);
    reveal_strlit("cskoi8r");
    assert(lower_seq("UTF-16BE"@) != "cskoi8r"@);
    reveal_strlit("koi8-u");
    assert(lower_seq("UTF-16BE"@) != "koi8-u"@);
    reveal_strlit("koi8-ru");
    assert(lower_seq("UTF-16BE"@) != "koi8-ru"@);
    reveal_strlit("x-mac-roman");
    assert(lower_seq("UTF-16BE"@) != "x-mac-roman"@);
    reveal_strlit("macintosh");
    assert(lower_seq("UTF-16BE"@) != "macintosh"@);
    reveal_strlit("mac");
    assert(lower_seq("UTF-16BE"@) != "mac"@);
    reveal_strlit("csmacintosh");
    assert(lower_seq("UTF-16BE"@) != "csmacintosh"@);
    reveal_strlit("windows-874");
    assert(lower_seq("UTF-16BE"@) != "windows-874"@);
    reveal_strlit("tis-620");
    assert(lower_seq("UTF-16BE"@) != "tis-620"@);
    reveal_strlit("iso885911");
    assert(lower_seq("UTF-16BE"@) != "iso885911"@);
    reveal_strlit("iso8859-11");
    assert(lower_seq("UTF-16BE"@) != "iso8859-11"@);
    reveal_strlit("iso-8859-11");
    assert(lower_seq("UTF-16BE"@) != "iso-8859-11"@);
    reveal_strlit("dos-874");
    assert(lower_seq("UTF-16BE"@) != "dos-874"@);
    reveal_strlit("x-cp1250");
    assert(lower_seq("UTF-16BE"@)[0] != "x-cp1250"@[0]);
    reveal_strlit("windows-1250");
    assert(lower_seq("UTF-16BE"@) != "windows-1250"@);
    reveal_strlit("cp1250");
    assert(lower_seq("UTF-16BE"@) != "cp1250"@);
    reveal_strlit("x-cp1251");
    assert(lower_seq("UTF-16BE"@)[0] != "x-cp1251"@[0]);
    reveal_strlit("windows-1251");
    assert(lower_seq("UTF-16BE"@) != "windows-1251"@);
    reveal_strlit("cp1251");
    assert(lower_seq("UTF-16BE"@) != "cp1251"@);
    reveal_strlit("x-cp1252");
    assert(lower_seq("UTF-16BE"@)[0] != "x-cp1252"@[0]);
    reveal_strlit("windows-1252");
    assert(lower_seq("UTF-16BE"@) != "windows-1252"@);
    reveal_strlit("us-ascii");
    assert(lower_seq("UTF-16BE"@)[1] != "us-ascii"@[1]);
    reveal_strlit("latin1");
    assert(lower_seq("UTF-16BE"@) != "latin1"@);
    reveal_strlit("l1");
    assert(lower_seq("UTF-16BE"@) != "l1"@);
    reveal_strlit("iso_8859-1:1987");
    assert(lower_seq("UTF-16BE"@) != "iso_8859-1:1987"@);
    reveal_strlit("iso_8859-1");
    assert(lower_seq("UTF-16BE"@) != "iso_8859-1"@);
    reveal_strlit("iso88591");
    assert(lower_seq("UTF-16BE"@)[0] != "iso88591"@[0]);
    reveal_strlit("iso8859-1");
    assert(lower_seq("UTF-16BE"@) != "iso8859-1"@);
    reveal_strlit("iso-ir-100");
    assert(lower_seq("UTF-16BE"@) != "iso-ir-100"@);
    reveal_strlit("iso-8859-1");
    assert(lower_seq("UTF-16BE"@) != "iso-8859-1"@);
    reveal_strlit("ibm819");
    assert(lower_seq("UTF-16BE"@) != "ibm819"@);
    reveal_strlit("csisolatin1");
    assert(lower_seq("UTF-16BE"@) != "csisolatin1"@);
    reveal_strlit("cp819");
    assert(lower_seq("UTF-16BE"@) != "cp819"@);
    reveal_strlit("cp1252");
    assert(lower_seq("UTF-16BE"@) != "cp1252"@);
    reveal_strlit("ascii");
    assert(lower_seq("UTF-16BE"@) != "ascii"@);
    reveal_strlit("ansi_x3.4-1968");
    assert(lower_seq("UTF-16BE"@) != "ansi_x3.4-1968"@);
    reveal_strlit("x-cp1253");
    assert(lower_seq("UTF-16BE"@)[0] != "x-cp1253"@[0]);
    reveal_strlit("windows-1253");
    assert(lower_seq("UTF-16BE"@) != "windows-1253"@);
    reveal_strlit("cp1253");
    assert(lower_seq("UTF-16BE"@) != "cp1253"@);
    reveal_strlit("x-cp1254");
    assert(lower_seq("UTF-16BE"@)[0] != "x-cp1254"@[0]);
    reveal_strlit("windows-1254");
    assert(lower_seq("UTF-16BE"@) != "windows-1254"@);
    reveal_strlit("latin5");
    assert(lower_seq("UTF-16BE"@) != "latin5"@);
    reveal_strlit("l5");
    assert(lower_seq("UTF-16BE"@) != "l5"@);
    reveal_strlit("iso_8859-9:1989");
    assert(lower_seq("UTF-16BE"@) != "iso_8859-9:1989"@);
    reveal_strlit("iso_8859-9");
    assert(lower_seq("UTF-16BE"@) != "iso_8859-9"@);
    reveal_strlit("iso88599");
    assert(lower_seq("UTF-16BE"@)[0] != "iso88599"@[0]);
    reveal_strlit("iso8859-9");
    assert(lower_seq("UTF-16BE"@) != "iso8859-9"@);
    reveal_strlit("iso-ir-148");
    assert(lower_seq("UTF-16BE"@) != "iso-ir-148"@);
    reveal_strlit("iso-8859-9");
    assert(lower_seq("UTF-16BE"@) != "iso-8859-9"@);
    reveal_strlit("csisolatin5");
    assert(lower_seq("UTF-16BE"@) != "csisolatin5"@);
    reveal_strlit("cp1254");
    assert(lower_seq("UTF-16BE"@) != "cp1254"@);
    reveal_strlit("x-cp1255");
    assert(lower_seq("UTF-16BE"@)[0] != "x-cp1255"@[0]);
    reveal_strlit("windows-1255");
    assert(lower_seq("UTF-16BE"@) != "windows-1255"@);
    reveal_strlit("cp1255");
    assert(lower_seq("UTF-16BE"@) != "cp1255"@);
    reveal_strlit("x-cp1256");
    assert(lower_seq("UTF-16BE"@)[0] != "x-cp1256"@[0]);
    reveal_strlit("windows-1256");
    assert(lower_seq("UTF-16BE"@) != "windows-1256"@);
    reveal_strlit("cp1256");
    assert(lower_seq("UTF-16BE"@) != "cp1256"@);
    reveal_strlit("x-cp1257");
    assert(lower_seq("UTF-16BE"@)[0] != "x-cp1257"@[0]);
    reveal_strlit("windows-1257");
    assert(lower_seq("UTF-16BE"@) != "windows-1257"@);
    reveal_strlit("cp1257");
    assert(lower_seq("UTF-16BE"@) != "cp1257"@);
    reveal_strlit("x-cp1258");
    assert(lower_seq("UTF-16BE"@)[0] != "x-cp1258"@[0]);
    reveal_strlit("windows-1258");
    assert(lower_seq("UTF-16BE"@) != "windows-1258"@);
    reveal_strlit("cp1258");
    assert(lower_seq("UTF-16BE"@) != "cp1258"@);
    reveal_strlit("x-mac-ukrainian");
    assert(lower_seq("UTF-16BE"@) != "x-mac-ukrainian"@);
    reveal_strlit("x-mac-cyrillic");
    assert(lower_seq("UTF-16BE"@) != "x-mac-cyrillic"@);
    reveal_strlit("x-gbk");
    assert(lower_seq("UTF-16BE"@) != "x-gbk"@);
    reveal_strlit("iso-ir-58");
    assert(lower_seq("UTF-16BE"@) != "iso-ir-58"@);
    reveal_strlit("gbk");
    assert(lower_seq("UTF-16BE"@) != "gbk"@);
    reveal_strlit("gb_2312-80");
    assert(lower_seq("UTF-16BE"@) != "gb_2312-80"@);
    reveal_strlit("gb_2312");
    assert(lower_seq("UTF-16BE"@) != "gb_2312"@);
    reveal_strlit("gb2312");
    assert(lower_seq("UTF-16BE"@) != "gb2312"@);
    reveal_strlit("csiso58gb231280");
    assert(lower_seq("UTF-16BE"@) != "csiso58gb231280"@);
    reveal_strlit("csgb2312");
    assert(lower_seq("UTF-16BE"@)[0] != "csgb2312"@[0]);
    reveal_strlit("chinese");
    assert(lower_seq("UTF-16BE"@) != "chinese"@);
    reveal_strlit("gb18030");
    assert(lower_seq("UTF-16BE"@) != "gb18030"@);
    reveal_strlit("x-x-big5");
    assert(lower_seq("UTF-16BE"@)[0] != "x-x-big5"@[0]);
    reveal_strlit("csbig5");
    assert(lower_seq("UTF-16BE"@) != "csbig5"@);
    reveal_strlit("cn-big5");
    assert(lower_seq("UTF-16BE"@) != "cn-big5"@);
    reveal_strlit("big5-hkscs");
    assert(lower_seq("UTF-16BE"@) != "big5-hkscs"@);
    reveal_strlit("big5");
    assert(lower_seq("UTF-16BE"@) != "big5"@);
    reveal_strlit("x-euc-jp");
    assert(lower_seq("UTF-16BE"@)[0] != "x-euc-jp"@[0]);
    reveal_strlit("euc-jp");
    assert(lower_seq("UTF-16BE"@) != "euc-jp"@);
    reveal_strlit("cseucpkdfmtjapanese");
    assert(lower_seq("UTF-16BE"@) != "cseucpkdfmtjapanese"@);
    reveal_strlit("iso-2022-jp");
    assert(lower_seq("UTF-16BE"@) != "iso-2022-jp"@);
    reveal_strlit("csiso2022jp");
    assert(lower_seq("UTF-16BE"@) != "csiso2022jp"@);
    reveal_strlit("x-sjis");
    assert(lower_seq("UTF-16BE"@) != "x-sjis"@);
    reveal_strlit("windows-31j");
    assert(lower_seq("UTF-16BE"@) != "windows-31j"@);
    reveal_strlit("sjis");
    assert(lower_seq("UTF-16BE"@) != "sjis"@);
    reveal_strlit("shift_jis");
    assert(lower_seq("UTF-16BE"@) != "shift_jis"@);
    reveal_strlit("shift-jis");
    assert(lower_seq("UTF-16BE"@) != "shift-jis"@);
    reveal_strlit("ms_kanji");
    assert(lower_seq("UTF-16BE"@)[0] != "ms_kanji"@[0]);
    reveal_strlit("ms932");
    assert(lower_seq("UTF-16BE"@) != "ms932"@);
    reveal_strlit("csshiftjis");
    assert(lower_seq("UTF-16BE"@) != "csshiftjis"@);
    reveal_strlit("windows-949");
    assert(lower_seq("UTF-16BE"@) != "windows-949"@);
    reveal_strlit("ksc_5601");
    assert(lower_seq("UTF-16BE"@)[0] != "ksc_5601"@[0]);
    reveal_strlit("ksc5601");
    assert(lower_seq("UTF-16BE"@) != "ksc5601"@);
    reveal_strlit("ks_c_5601-1989");
    assert(lower_seq("UTF-16BE"@) != "ks_c_5601-1989"@);
    reveal_strlit("ks_c_5601-1987");
    assert(lower_seq("UTF-16BE"@) != "ks_c_5601-1987"@);
    reveal_strlit("korean");
    assert(lower_seq("UTF-16BE"@) != "korean"@);
    reveal_strlit("iso-ir-149");
    assert(lower_seq("UTF-16BE"@) != "iso-ir-149"@);
    reveal_strlit("euc-kr");
    assert(lower_seq("UTF-16BE"@) != "euc-kr"@);
    reveal_strlit("csksc56011987");
    assert(lower_seq("UTF-16BE"@) != "csksc56011987"@);
    reveal_strlit("cseuckr");
    assert(lower_seq("UTF-16BE"@) != "cseuckr"@);
    reveal_strlit("replacement");
    assert(lower_seq("UTF-16BE"@) != "replacement"@);
    reveal_strlit("iso-2022-kr");
    assert(lower_seq("UTF-16BE"@) != "iso-2022-kr"@);
    reveal_strlit("iso-2022-cn-ext");
    assert(lower_seq("UTF-16BE"@) != "iso-2022-cn-ext"@);
    reveal_strlit("iso-2022-cn");
    assert(lower_seq("UTF-16BE"@) != "iso-2022-cn"@);
    reveal_strlit("hz-gb-2312");
    assert(lower_seq("UTF-16BE"@) != "hz-gb-2312"@);
    reveal_strlit("csiso2022kr");
    assert(lower_seq("UTF-16BE"@) != "csiso2022kr"@);
    assert(is_label_utf16_be(lower_seq("UTF-16BE"@)));
}

proof fn lemma_round_trip_utf16_le()
    ensures
        spec_parse(spec_canonical_name(CharacterEncoding::Utf16LE)) == Ok::<
            CharacterEncoding,
            UnrecognizedLabel,
        >(CharacterEncoding::Utf16LE),
{
    reveal_strlit("UTF-16LE");
    reveal_strlit("utf-16le");
    assert(lower_seq("UTF-16LE"@) =~= "utf-16le"@);
    reveal_strlit("x-unicode20utf8");
    assert(lower_seq("UTF-16LE"@) != "x-unicode20utf8"@);
    reveal_strlit("utf8");
    assert(lower_seq("UTF-16LE"@) != "utf8"@);
    reveal_strlit("utf-8");
    assert(lower_seq("UTF-16LE"@) != "utf-8"@);
    reveal_strlit("unicode20utf8");
    assert(lower_seq("UTF-16LE"@) != "unicode20utf8"@);
    reveal_strlit("unicode11utf8");
    assert(lower_seq("UTF-16LE"@) != "unicode11utf8"@);
    reveal_strlit("unicode-1-1-utf-8");
    assert(lower_seq("UTF-16LE"@) != "unicode-1-1-utf-8"@);
    reveal_strlit("ibm866");
    assert(lower_seq("UTF-16LE"@) != "ibm866"@);
    reveal_strlit("csibm866");
    assert(lower_seq("UTF-16LE"@)[0] != "csibm866"@[0]);
    reveal_strlit("cp866");
    assert(lower_seq("UTF-16LE"@) != "cp866"@);
    reveal_strlit("866");
    assert(lower_seq("UTF-16LE"@) != "866"@);
    reveal_strlit("latin2");
    assert(lower_seq("UTF-16LE"@) != "latin2"@);
    reveal_strlit("l2");
    assert(lower_seq("UTF-16LE"@) != "l2"@);
    reveal_strlit("iso_8859-2:1987");
    assert(lower_seq("UTF-16LE"@) != "iso_8859-2:1987"@);
    reveal_strlit("iso_8859-2");
    assert(lower_seq("UTF-16LE"@) != "iso_8859-2"@);
    reveal_strlit("iso88592");
    assert(lower_seq("UTF-16LE"@)[0] != "iso88592"@[0]);
    reveal_strlit("iso8859-2");
    assert(lower_seq("UTF-16LE"@) != "iso8859-2"@);
    reveal_strlit("iso-ir-101");
    assert(lower_seq("UTF-16LE"@) != "iso-ir-101"@);
    reveal_strlit("iso-8859-2");
    assert(lower_seq("UTF-16LE"@) != "iso-8859-2"@);
    reveal_strlit("csisolatin2");
    assert(lower_seq("UTF-16LE"@) != "csisolatin2"@);
    reveal_strlit("latin3");
    assert(lower_seq("UTF-16LE"@) != "latin3"@);
    reveal_strlit("l3");
    assert(lower_seq("UTF-16LE"@) != "l3"@);
    reveal_strlit("iso_8859-3:1988");
    assert(lower_seq("UTF-16LE"@) != "iso_8859-3:1988"@);
    reveal_strlit("iso_8859-3");
    assert(lower_seq("UTF-16LE"@) != "iso_8859-3"@);
    reveal_strlit("iso88593");
    assert(lower_seq("UTF-16LE"@)[0] != "iso88593"@[0]);
    reveal_strlit("iso8859-3");
    assert(lower_seq("UTF-16LE"@) != "iso8859-3"@);
    reveal_strlit("iso-ir-109");
    assert(lower_seq("UTF-16LE"@) != "iso-ir-109"@);
    reveal_strlit("iso-8859-3");
    assert(lower_seq("UTF-16LE"@) != "iso-8859-3"@);
    reveal_strlit("csisolatin3");
    assert(lower_seq("UTF-16LE"@) != "csisolatin3"@);
    reveal_strlit("latin4");
    assert(lower_seq("UTF-16LE"@) != "latin4"@);
    reveal_strlit("l4");
    assert(lower_seq("UTF-16LE"@) != "l4"@);
    reveal_strlit("iso_8859-4:1988");
    assert(lower_seq("UTF-16LE"@) != "iso_8859-4:1988"@);
    reveal_strlit("iso_8859-4");
    assert(lower_seq("UTF-16LE"@) != "iso_8859-4"@);
    reveal_strlit("iso88594");
    assert(lower_seq("UTF-16LE"@)[0] != "iso88594"@[0]);
    reveal_strlit("iso8859-4");
    assert(lower_seq("UTF-16LE"@) != "iso8859-4"@);
    reveal_strlit("iso-ir-110");
    assert(lower_seq("UTF-16LE"@) != "iso-ir-110"@);
    reveal_strlit("iso-8859-4");
    assert(lower_seq("UTF-16LE"@) != "iso-8859-4"@);
    reveal_strlit("csisolatin4");
    assert(lower_seq("UTF-16LE"@) != "csisolatin4"@);
    reveal_strlit("iso_8859-5:1988");
    assert(lower_seq("UTF-16LE"@) != "iso_8859-5:1988"@);
    reveal_strlit("iso_8859-5");
    assert(lower_seq("UTF-16LE"@) != "iso_8859-5"@);
    reveal_strlit("iso88595");
    assert(lower_seq("UTF-16LE"@)[0] != "iso88595"@[0]);
    reveal_strlit("iso8859-5");
    assert(lower_seq("UTF-16LE"@) != "iso8859-5"@);
    reveal_strlit("iso-ir-144");
    assert(lower_seq("UTF-16LE"@) != "iso-ir-144"@);
    reveal_strlit("iso-8859-5");
    assert(lower_seq("UTF-16LE"@) != "iso-8859-5"@);
    reveal_strlit("cyrillic");
    assert(lower_seq("UTF-16LE"@)[0] != "cyrillic"@[0]);
    reveal_strlit("csisolatincyrillic");
    assert(lower_seq("UTF-16LE"@) != "csisolatincyrillic"@);
    reveal_strlit("iso_8859-6:1987");
    assert(lower_seq("UTF-16LE"@) != "iso_8859-6:1987"@);
    reveal_strlit("iso_8859-6");
    assert(lower_seq("UTF-16LE"@) != "iso_8859-6"@);
    reveal_strlit("iso88596");
    assert(lower_seq("UTF-16LE"@)[0] != "iso88596"@[0]);
    reveal_strlit("iso8859-6");
    assert(lower_seq("UTF-16LE"@) != "iso8859-6"@);
    reveal_strlit("iso-ir-127");
    assert(lower_seq("UTF-16LE"@) != "iso-ir-127"@);
    reveal_strlit("iso-8859-6-i");
    assert(lower_seq("UTF-16LE"@) != "iso-8859-6-i"@);
    reveal_strlit("iso-8859-6-e");
    assert(lower_seq("UTF-16LE"@) != "iso-8859-6-e"@);
    reveal_strlit("iso-8859-6");
    assert(lower_seq("UTF-16LE"@) != "iso-8859-6"@);
    reveal_strlit("ecma-114");
    assert(lower_seq("UTF-16LE"@)[0] != "ecma-114"@[0]);
    reveal_strlit("csisolatinarabic");
    assert(lower_seq("UTF-16LE"@) != "csisolatinarabic"@);
    reveal_strlit("csiso88596i");
    assert(lower_seq("UTF-16LE"@) != "csiso88596i"@);
    reveal_strlit("csiso88596e");
    assert(lower_seq("UTF-16LE"@) != "csiso88596e"@);
    reveal_strlit("asmo-708");
    assert(lower_seq("UTF-16LE"@)[0] != "asmo-708"@[0]);
    reveal_strlit("arabic");
    assert(lower_seq("UTF-16LE"@) != "arabic"@);
    reveal_strlit("sun_eu_greek");
    assert(lower_seq("UTF-16LE"@) != "sun_eu_greek"@);
    reveal_strlit("iso_8859-7:1987");
    assert(lower_seq("UTF-16LE"@) != "iso_8859-7:1987"@);
    reveal_strlit("iso_8859-7");
    assert(lower_seq("UTF-16LE"@) != "iso_8859-7"@);
    reveal_strlit("iso88597");
    assert(lower_seq("UTF-16LE"@)[0] != "iso88597"@[0]);
    reveal_strlit("iso8859-7");
    assert(lower_seq("UTF-16LE"@) != "iso8859-7"@);
    reveal_strlit("iso-ir-126");
    assert(lower_seq("UTF-16LE"@) != "iso-ir-126"@);
    reveal_strlit("iso-8859-7");
    assert(lower_seq("UTF-16LE"@) != "iso-8859-7"@);
    reveal_strlit("greek8");
    assert(lower_seq("UTF-16LE"@) != "greek8"@);
    reveal_strlit("greek");
    assert(lower_seq("UTF-16LE"@) != "greek"@);
    reveal_strlit("elot_928");
    assert(lower_seq("UTF-16LE"@)[0] != "elot_928"@[0]);
    reveal_strlit("ecma-118");
    assert(lower_seq("UTF-16LE"@)[0] != "ecma-118"@[0]);
    reveal_strlit("csisolatingreek");
    assert(lower_seq("UTF-16LE"@) != "csisolatingreek"@);
    reveal_strlit("visual");
    assert(lower_seq("UTF-16LE"@) != "visual"@);
    reveal_strlit("iso_8859-8:1988");
    assert(lower_seq("UTF-16LE"@) != "iso_8859-8:1988"@);
    reveal_strlit("iso_8859-8");
    assert(lower_seq("UTF-16LE"@) != "iso_8859-8"@);
    reveal_strlit("iso88598");
    assert(lower_seq("UTF-16LE"@)[0] != "iso88598"@[0]);
    reveal_strlit("iso8859-8");
    assert(lower_seq("UTF-16LE"@) != "iso8859-8"@);
    reveal_strlit("iso-ir-138");
    assert(lower_seq("UTF-16LE"@) != "iso-ir-138"@);
    reveal_strlit("iso-8859-8-e");
    assert(lower_seq("UTF-16LE"@) != "iso-8859-8-e"@);
    reveal_strlit("iso-8859-8");
    assert(lower_seq("UTF-16LE"@) != "iso-8859-8"@);
    reveal_strlit("hebrew");
    assert(lower_seq("UTF-16LE"@) != "hebrew"@);
    reveal_strlit("csisolatinhebrew");
    assert(lower_seq("UTF-16LE"@) != "csisolatinhebrew"@);
    reveal_strlit("csiso88598e");
    assert(lower_seq("UTF-16LE"@) != "csiso88598e"@);
    reveal_strlit("logical");
    assert(lower_seq("UTF-16LE"@) != "logical"@);
    reveal_strlit("iso-8859-8-i");
    assert(lower_seq("UTF-16LE"@) != "iso-8859-8-i"@);
    reveal_strlit("csiso88598i");
    assert(lower_seq("UTF-16LE"@) != "csiso88598i"@);
    reveal_strlit("latin6");
    assert(lower_seq("UTF-16LE"@) != "latin6"@);
    reveal_strlit("l6");
    assert(lower_seq("UTF-16LE"@) != "l6"@);
    reveal_strlit("iso885910");
    assert(lower_seq("UTF-16LE"@) != "iso885910"@);
    reveal_strlit("iso8859-10");
    assert(lower_seq("UTF-16LE"@) != "iso8859-10"@);
    reveal_strlit("iso-ir-157");
    assert(lower_seq("UTF-16LE"@) != "iso-ir-157"@);
    reveal_strlit("iso-8859-10");
    assert(lower_seq("UTF-16LE"@) != "iso-8859-10"@);
    reveal_strlit("csisolatin6");
    assert(lower_seq("UTF-16LE"@) != "csisolatin6"@);
    reveal_strlit("iso885913");
    assert(lower_seq("UTF-16LE"@) != "iso885913"@);
    reveal_strlit("iso8859-13");
    assert(lower_seq("UTF-16LE"@) != "iso8859-13"@);
    reveal_strlit("iso-8859-13");
    assert(lower_seq("UTF-16LE"@) != "iso-8859-13"@);
    reveal_strlit("iso885914");
    assert(lower_seq("UTF-16LE"@) != "iso885914"@);
    reveal_strlit("iso8859-14");
    assert(lower_seq("UTF-16LE"@) != "iso8859-14"@);
    reveal_strlit("iso-8859-14");
    assert(lower_seq("UTF-16LE"@) != "iso-8859-14"@);
    reveal_strlit("l9");
    assert(lower_seq("UTF-16LE"@) != "l9"@);
    reveal_strlit("iso_8859-15");
    assert(lower_seq("UTF-16LE"@) != "iso_8859-15"@);
    reveal_strlit("iso885915");
    assert(lower_seq("UTF-16LE"@) != "iso885915"@);
    reveal_strlit("iso8859-15");
    assert(lower_seq("UTF-16LE"@) != "iso8859-15"@);
    reveal_strlit("iso-8859-15");
    assert(lower_seq("UTF-16LE"@) != "iso-8859-15"@);
    reveal_strlit("csisolatin9");
    assert(lower_seq("UTF-16LE"@) != "csisolatin9"@);
    reveal_strlit("iso-8859-16");
    assert(lower_seq("UTF-16LE"@) != "iso-8859-16"@);
    reveal_strlit("koi8_r");
    assert(lower_seq("UTF-16LE"@) != "koi8_r"@);
    reveal_strlit("koi8-r");
    assert(lower_seq("UTF-16LE"@) != "koi8-r"@);
    reveal_strlit("koi8");
    assert(lower_seq("UTF-16LE"@) != "koi8"@);
    reveal_strlit("koi");
    assert(lower_seq("UTF-16LE"@) != "koi"@);
    reveal_strlit("cskoi8r");
    assert(lower_seq("UTF-16LE"@) != "cskoi8r"@);
    reveal_strlit("koi8-u");
    assert(lower_seq("UTF-16LE"@) != "koi8-u"@);
    reveal_strlit("koi8-ru");
    assert(lower_seq("UTF-16LE"@) != "koi8-ru"@);
    reveal_strlit("x-mac-roman");
    assert(lower_seq("UTF-16LE"@) != "x-mac-roman"@);
    reveal_strlit("macintosh");
    assert(lower_seq("UTF-16LE"@) != "macintosh"@);
    reveal_strlit("mac");
    assert(lower_seq("UTF-16LE"@) != "mac"@);
    reveal_strlit("csmacintosh");
    assert(lower_seq("UTF-16LE"@) != "csmacintosh"@);
    reveal_strlit("windows-874");
    assert(lower_seq("UTF-16LE"@) != "windows-874"@);
    reveal_strlit("tis-620");
    assert(lower_seq("UTF-16LE"@) != "tis-620"@);
    reveal_strlit("iso885911");
    assert(lower_seq("UTF-16LE"@) != "iso885911"@);
    reveal_strlit("iso8859-11");
    assert(lower_seq("UTF-16LE"@) != "iso8859-11"@);
    reveal_strlit("iso-8859-11");
    assert(lower_seq("UTF-16LE"@) != "iso-8859-11"@);
    reveal_strlit("dos-874");
    assert(lower_seq("UTF-16LE"@) != "dos-874"@);
    reveal_strlit("x-cp1250");
    assert(lower_seq("UTF-16LE"@)[0] != "x-cp1250"@[0]);
    reveal_strlit("windows-1250");
    assert(lower_seq("UTF-16LE"@) != "windows-1250"@);
    reveal_strlit("cp1250");
    assert(lower_seq("UTF-16LE"@) != "cp1250"@);
    reveal_strlit("x-cp1251");
    assert(lower_seq("UTF-16LE"@)[0] != "x-cp1251"@[0]);
    reveal_strlit("windows-1251");
    assert(lower_seq("UTF-16LE"@) != "windows-1251"@);
    reveal_strlit("cp1251");
    assert(lower_seq("UTF-16LE"@) != "cp1251"@);
    reveal_strlit("x-cp1252");
    assert(lower_seq("UTF-16LE"@)[0] != "x-cp1252"@[0]);
    reveal_strlit("windows-1252");
    assert(lower_seq("UTF-16LE"@) != "windows-1252"@);
    reveal_strlit("us-ascii");
    assert(lower_seq("UTF-16LE"@)[1] != "us-ascii"@[1]);
    reveal_strlit("latin1");
    assert(lower_seq("UTF-16LE"@) != "latin1"@);
    reveal_strlit("l1");
    assert(lower_seq("UTF-16LE"@) != "l1"@);
    reveal_strlit("iso_8859-1:1987");
    assert(lower_seq("UTF-16LE"@) != "iso_8859-1:1987"@);
    reveal_strlit("iso_8859-1");
    assert(lower_seq("UTF-16LE"@) != "iso_8859-1"@);
    reveal_strlit("iso88591");
    assert(lower_seq("UTF-16LE"@)[0] != "iso88591"@[0]);
    reveal_strlit("iso8859-1");
    assert(lower_seq("UTF-16LE"@) != "iso8859-1"@);
    reveal_strlit("iso-ir-100");
    assert(lower_seq("UTF-16LE"@) != "iso-ir-100"@);
    reveal_strlit("iso-8859-1");
    assert(lower_seq("UTF-16LE"@) != "iso-8859-1"@);
    reveal_strlit("ibm819");
    assert(lower_seq("UTF-16LE"@) != "ibm819"@);
    reveal_strlit("csisolatin1");
    assert(lower_seq("UTF-16LE"@) != "csisolatin1"@);
    reveal_strlit("cp819");
    assert(lower_seq("UTF-16LE"@) != "cp819"@);
    reveal_strlit("cp1252");
    assert(lower_seq("UTF-16LE"@) != "cp1252"@);
    reveal_strlit("ascii");
    assert(lower_seq("UTF-16LE"@) != "ascii"@);
    reveal_strlit("ansi_x3.4-1968");
    assert(lower_seq("UTF-16LE"@) != "ansi_x3.4-1968"@);
    reveal_strlit("x-cp1253");
    assert(lower_seq("UTF-16LE"@)[0] != "x-cp1253"@[0]);
    reveal_strlit("windows-1253");
    assert(lower_seq("UTF-16LE"@) != "windows-1253"@);
    reveal_strlit("cp1253");
    assert(lower_seq("UTF-16LE"@) != "cp1253"@);
    reveal_strlit("x-cp1254");
    assert(lower_seq("UTF-16LE"@)[0] != "x-cp1254"@[0]);
    reveal_strlit("windows-1254");
    assert(lower_seq("UTF-16LE"@) != "windows-1254"@);
    reveal_strlit("latin5");
    assert(lower_seq("UTF-16LE"@) != "latin5"@);
    reveal_strlit("l5");
    assert(lower_seq("UTF-16LE"@) != "l5"@);
    reveal_strlit("iso_8859-9:1989");
    assert(lower_seq("UTF-16LE"@) != "iso_8859-9:1989"@);
    reveal_strlit("iso_8859-9");
    assert(lower_seq("UTF-16LE"@) != "iso_8859-9"@);
    reveal_strlit("iso88599");
    assert(lower_seq("UTF-16LE"@)[0] != "iso88599"@[0]);
    reveal_strlit("iso8859-9");
    assert(lower_seq("UTF-16LE"@) != "iso8859-9"@);
    reveal_strlit("iso-ir-148");
    assert(lower_seq("UTF-16LE"@) != "iso-ir-148"@);
    reveal_strlit("iso-8859-9");
    assert(lower_seq("UTF-16LE"@) != "iso-8859-9"@);
    reveal_strlit("csisolatin5");
    assert(lower_seq("UTF-16LE"@) != "csisolatin5"@);
    reveal_strlit("cp1254");
    assert(lower_seq("UTF-16LE"@) != "cp1254"@);
    reveal_strlit("x-cp1255");
    assert(lower_seq("UTF-16LE"@)[0] != "x-cp1255"@[0]);
    reveal_strlit("windows-1255");
    assert(lower_seq("UTF-16LE"@) != "windows-1255"@);
    reveal_strlit("cp1255");
    assert(lower_seq("UTF-16LE"@) != "cp1255"@);
    reveal_strlit("x-cp1256");
    assert(lower_seq("UTF-16LE"@)[0] != "x-cp1256"@[0]);
    reveal_strlit("windows-1256");
    assert(lower_seq("UTF-16LE"@) != "windows-1256"@);
    reveal_strlit("cp1256");
    assert(lower_seq("UTF-16LE"@) != "cp1256"@);
    reveal_strlit("x-cp1257");
    assert(lower_seq("UTF-16LE"@)[0] != "x-cp1257"@[0]);
    reveal_strlit("windows-1257");
    assert(lower_seq("UTF-16LE"@) != "windows-1257"@);
    reveal_strlit("cp1257");
    assert(lower_seq("UTF-16LE"@) != "cp1257"@);
    reveal_strlit("x-cp1258");
    assert(lower_seq("UTF-16LE"@)[0] != "x-cp1258"@[0]);
    reveal_strlit("windows-1258");
    assert(lower_seq("UTF-16LE"@) != "windows-1258"@);
    reveal_strlit("cp1258");
    assert(lower_seq("UTF-16LE"@) != "cp1258"@);
    reveal_strlit("x-mac-ukrainian");
    assert(lower_seq("UTF-16LE"@) != "x-mac-ukrainian"@);
    reveal_strlit("x-mac-cyrillic");
    assert(lower_seq("UTF-16LE"@) != "x-mac-cyrillic"@);
    reveal_strlit("x-gbk");
    assert(lower_seq("UTF-16LE"@) != "x-gbk"@);
    reveal_strlit("iso-ir-58");
    assert(lower_seq("UTF-16LE"@) != "iso-ir-58"@);
    reveal_strlit("gbk");
    assert(lower_seq("UTF-16LE"@) != "gbk"@);
    reveal_strlit("gb_2312-80");
    assert(lower_seq("UTF-16LE"@) != "gb_2312-80"@);
    reveal_strlit("gb_2312");
    assert(lower_seq("UTF-16LE"@) != "gb_2312"@);
    reveal_strlit("gb2312");
    assert(lower_seq("UTF-16LE"@) != "gb2312"@);
    reveal_strlit("csiso58gb231280");
    assert(lower_seq("UTF-16LE"@) != "csiso58gb231280"@);
    reveal_strlit("csgb2312");
    assert(lower_seq("UTF-16LE"@)[0] != "csgb2312"@[0]);
    reveal_strlit("chinese");
    assert(lower_seq("UTF-16LE"@) != "chinese"@);
    reveal_strlit("gb18030");
    assert(lower_seq("UTF-16LE"@) != "gb18030"@);
    reveal_strlit("x-x-big5");
    assert(lower_seq("UTF-16LE"@)[0] != "x-x-big5"@[0]);
    reveal_strlit("csbig5");
    assert(lower_seq("UTF-16LE"@) != "csbig5"@);
    reveal_strlit("cn-big5");
    assert(lower_seq("UTF-16LE"@) != "cn-big5"@);
    reveal_strlit("big5-hkscs");
    assert(lower_seq("UTF-16LE"@) != "big5-hkscs"@);
    reveal_strlit("big5");
    assert(lower_seq("UTF-16LE"@) != "big5"@);
    reveal_strlit("x-euc-jp");
    assert(lower_seq("UTF-16LE"@)[0] != "x-euc-jp"@[0]);
    reveal_strlit("euc-jp");
    assert(lower_seq("UTF-16LE"@) != "euc-jp"@);
    reveal_strlit("cseucpkdfmtjapanese");
    assert(lower_seq("UTF-16LE"@) != "cseucpkdfmtjapanese"@);
    reveal_strlit("iso-2022-jp");
    assert(lower_seq("UTF-16LE"@) != "iso-2022-jp"@);
    reveal_strlit("csiso2022jp");
    assert(lower_seq("UTF-16LE"@) != "csiso2022jp"@);
    reveal_strlit("x-sjis");
    assert(lower_seq("UTF-16LE"@) != "x-sjis"@);
    reveal_strlit("windows-31j");
    assert(lower_seq("UTF-16LE"@) != "windows-31j"@);
    reveal_strlit("sjis");
    assert(lower_seq("UTF-16LE"@) != "sjis"@);
    reveal_strlit("shift_jis");
    assert(lower_seq("UTF-16LE"@) != "shift_jis"@);
    reveal_strlit("shift-jis");
    assert(lower_seq("UTF-16LE"@) != "shift-jis"@);
    reveal_strlit("ms_kanji");
    assert(lower_seq("UTF-16LE"@)[0] != "ms_kanji"@[0]);
    reveal_strlit("ms932");
    assert(lower_seq("UTF-16LE"@) != "ms932"@);
    reveal_strlit("csshiftjis");
    assert(lower_seq("UTF-16LE"@) != "csshiftjis"@);
    reveal_strlit("windows-949");
    assert(lower_seq("UTF-16LE"@) != "windows-949"@);
    reveal_strlit("ksc_5601");
    assert(lower_seq("UTF-16LE"@)[0] != "ksc_5601"@[0]);
    reveal_strlit("ksc5601");
    assert(lower_seq("UTF-16LE"@) != "ksc5601"@);
    reveal_strlit("ks_c_5601-1989");
    assert(lower_seq("UTF-16LE"@) != "ks_c_5601-1989"@);
    reveal_strlit("ks_c_5601-1987");
    assert(lower_seq("UTF-16LE"@) != "ks_c_5601-1987"@);
    reveal_strlit("korean");
    assert(lower_seq("UTF-16LE"@) != "korean"@);
    reveal_strlit("iso-ir-149");
    assert(lower_seq("UTF-16LE"@) != "iso-ir-149"@);
    reveal_strlit("euc-kr");
    assert(lower_seq("UTF-16LE"@) != "euc-kr"@);
    reveal_strlit("csksc56011987");
    assert(lower_seq("UTF-16LE"@) != "csksc56011987"@);
    reveal_strlit("cseuckr");
    assert(lower_seq("UTF-16LE"@) != "cseuckr"@);
    reveal_strlit("replacement");
    assert(lower_seq("UTF-16LE"@) != "replacement"@);
    reveal_strlit("iso-2022-kr");
    assert(lower_seq("UTF-16LE"@) != "iso-2022-kr"@);
    reveal_strlit("iso-2022-cn-ext");
    assert(lower_seq("UTF-16LE"@) != "iso-2022-cn-ext"@);
    reveal_strlit("iso-2022-cn");
    assert(lower_seq("UTF-16LE"@) != "iso-2022-cn"@);
    reveal_strlit("hz-gb-2312");
    assert(lower_seq("UTF-16LE"@) != "hz-gb-2312"@);
    reveal_strlit("csiso2022kr");
    assert(lower_seq("UTF-16LE"@) != "csiso2022kr"@);
    reveal_strlit("utf-16be");
    assert(lower_seq("UTF-16LE"@)[6] != "utf-16be"@[6]);
    reveal_strlit("unicodefffe");
    assert(lower_seq("UTF-16LE"@) != "unicodefffe"@);
    assert(is_label_utf16_le(lower_seq("UTF-16LE"@)));
}

proof fn lemma_round_trip_xuser_defined()
    ensures
        spec_parse(spec_canonical_name(CharacterEncoding::XUserDefined)) == Ok::<
            CharacterEncoding,
            UnrecognizedLabel,
        >(CharacterEncoding::XUserDefined),
{
    reveal_strlit("x-user-defined");
    reveal_strlit("x-user-defined");
    assert(lower_seq("x-user-defined"@) =~= "x-user-defined"@);
    reveal_strlit("x-unicode20utf8");
    assert(lower_seq("x-user-defined"@) != "x-unicode20utf8"@);
    reveal_strlit("utf8");
    assert(lower_seq("x-user-defined"@) != "utf8"@);
    reveal_strlit("utf-8");
    assert(lower_seq("x-user-defined"@) != "utf-8"@);
    reveal_strlit("unicode20utf8");
    assert(lower_seq("x-user-defined"@) != "unicode20utf8"@);
    reveal_strlit("unicode11utf8");
    assert(lower_seq("x-user-defined"@) != "unicode11utf8"@);
    reveal_strlit("unicode-1-1-utf-8");
    assert(lower_seq("x-user-defined"@) != "unicode-1-1-utf-8"@);
    reveal_strlit("ibm866");
    assert(lower_seq("x-user-defined"@) != "ibm866"@);
    reveal_strlit("csibm866");
    assert(lower_seq("x-user-defined"@) != "csibm866"@);
    reveal_strlit("cp866");
    assert(lower_seq("x-user-defined"@) != "cp866"@);
    reveal_strlit("866");
    assert(lower_seq("x-user-defined"@) != "866"@);
    reveal_strlit("latin2");
    assert(lower_seq("x-user-defined"@) != "latin2"@);
    reveal_strlit("l2");
    assert(lower_seq("x-user-defined"@) != "l2"@);
    reveal_strlit("iso_8859-2:1987");
    assert(lower_seq("x-user-defined"@) != "iso_8859-2:1987"@);
    reveal_strlit("iso_8859-2");
    assert(lower_seq("x-user-defined"@) != "iso_8859-2"@);
    reveal_strlit("iso88592");
    assert(lower_seq("x-user-defined"@) != "iso88592"@);
    reveal_strlit("iso8859-2");
    assert(lower_seq("x-user-defined"@) != "iso8859-2"@);
    reveal_strlit("iso-ir-101");
    assert(lower_seq("x-user-defined"@) != "iso-ir-101"@);
    reveal_strlit("iso-8859-2");
    assert(lower_seq("x-user-defined"@) != "iso-8859-2"@);
    reveal_strlit("csisolatin2");
    assert(lower_seq("x-user-defined"@) != "csisolatin2"@);
    reveal_strlit("latin3");
    assert(lower_seq("x-user-defined"@) != "latin3"@);
    reveal_strlit("l3");
    assert(lower_seq("x-user-defined"@) != "l3"@);
    reveal_strlit("iso_8859-3:1988");
    assert(lower_seq("x-user-defined"@) != "iso_8859-3:1988"@);
    reveal_strlit("iso_8859-3");
    assert(lower_seq("x-user-defined"@) != "iso_8859-3"@);
    reveal_strlit("iso88593");
    assert(lower_seq("x-user-defined"@) != "iso88593"@);
    reveal_strlit("iso8859-3");
    assert(lower_seq("x-user-defined"@) != "iso8859-3"@);
    reveal_strlit("iso-ir-109");
    assert(lower_seq("x-user-defined"@) != "iso-ir-109"@);
    reveal_strlit("iso-8859-3");
    assert(lower_seq("x-user-defined"@) != "iso-8859-3"@);
    reveal_strlit("csisolatin3");
    assert(lower_seq("x-user-defined"@) != "csisolatin3"@);
    reveal_strlit("latin4");
    assert(lower_seq("x-user-defined"@) != "latin4"@);
    reveal_strlit("l4");
    assert(lower_seq("x-user-defined"@) != "l4"@);
    reveal_strlit("iso_8859-4:1988");
    assert(lower_seq("x-user-defined"@) != "iso_8859-4:1988"@);
    reveal_strlit("iso_8859-4");
    assert(lower_seq("x-user-defined"@) != "iso_8859-4"@);
    reveal_strlit("iso88594");
    assert(lower_seq("x-user-defined"@) != "iso88594"@);
    reveal_strlit("iso8859-4");
    assert(lower_seq("x-user-defined"@) != "iso8859-4"@);
    reveal_strlit("iso-ir-110");
    assert(lower_seq("x-user-defined"@) != "iso-ir-110"@);
    reveal_strlit("iso-8859-4");
    assert(lower_seq("x-user-defined"@) != "iso-8859-4"@);
    reveal_strlit("csisolatin4");
    assert(lower_seq("x-user-defined"@) != "csisolatin4"@);
    reveal_strlit("iso_8859-5:1988");
    assert(lower_seq("x-user-defined"@) != "iso_8859-5:1988"@);
    reveal_strlit("iso_8859-5");
    assert(lower_seq("x-user-defined"@) != "iso_8859-5"@);
    reveal_strlit("iso88595");
    assert(lower_seq("x-user-defined"@) != "iso88595"@);
    reveal_strlit("iso8859-5");
    assert(lower_seq("x-user-defined"@) != "iso8859-5"@);
    reveal_strlit("iso-ir-144");
    assert(lower_seq("x-user-defined"@) != "iso-ir-144"@);
    reveal_strlit("iso-8859-5");
    assert(lower_seq("x-user-defined"@) != "iso-8859-5"@);
    reveal_strlit("cyrillic");
    assert(lower_seq("x-user-defined"@) != "cyrillic"@);
    reveal_strlit("csisolatincyrillic");
    assert(lower_seq("x-user-defined"@) != "csisolatincyrillic"@);
    reveal_strlit("iso_8859-6:1987");
    assert(lower_seq("x-user-defined"@) != "iso_8859-6:1987"@);
    reveal_strlit("iso_8859-6");
    assert(lower_seq("x-user-defined"@) != "iso_8859-6"@);
    reveal_strlit("iso88596");
    assert(lower_seq("x-user-defined"@) != "iso88596"@);
    reveal_strlit("iso8859-6");
    assert(lower_seq("x-user-defined"@) != "iso8859-6"@);
    reveal_strlit("iso-ir-127");
    assert(lower_seq("x-user-defined"@) != "iso-ir-127"@);
    reveal_strlit("iso-8859-6-i");
    assert(lower_seq("x-user-defined"@) != "iso-8859-6-i"@);
    reveal_strlit("iso-8859-6-e");
    assert(lower_seq("x-user-defined"@) != "iso-8859-6-e"@);
    reveal_strlit("iso-8859-6");
    assert(lower_seq("x-user-defined"@) != "iso-8859-6"@);
    reveal_strlit("ecma-114");
    assert(lower_seq("x-user-defined"@) != "ecma-114"@);
    reveal_strlit("csisolatinarabic");
    assert(lower_seq("x-user-defined"@) != "csisolatinarabic"@);
    reveal_strlit("csiso88596i");
    assert(lower_seq("x-user-defined"@) != "csiso88596i"@);
    reveal_strlit("csiso88596e");
    assert(lower_seq("x-user-defined"@) != "csiso88596e"@);
    reveal_strlit("asmo-708");
    assert(lower_seq("x-user-defined"@) != "asmo-708"@);
    reveal_strlit("arabic");
    assert(lower_seq("x-user-defined"@) != "arabic"@);
    reveal_strlit("sun_eu_greek");
    assert(lower_seq("x-user-defined"@) != "sun_eu_greek"@);
    reveal_strlit("iso_8859-7:1987");
    assert(lower_seq("x-user-defined"@) != "iso_8859-7:1987"@);
    reveal_strlit("iso_8859-7");
    assert(lower_seq("x-user-defined"@) != "iso_8859-7"@);
    reveal_strlit("iso88597");
    assert(lower_seq("x-user-defined"@) != "iso88597"@);
    reveal_strlit("iso8859-7");
    assert(lower_seq("x-user-defined"@) != "iso8859-7"@);
    reveal_strlit("iso-ir-126");
    assert(lower_seq("x-user-defined"@) != "iso-ir-126"@);
    reveal_strlit("iso-8859-7");
    assert(lower_seq("x-user-defined"@) != "iso-8859-7"@);
    reveal_strlit("greek8");
    assert(lower_seq("x-user-defined"@) != "greek8"@);
    reveal_strlit("greek");
    assert(lower_seq("x-user-defined"@) != "greek"@);
    reveal_strlit("elot_928");
    assert(lower_seq("x-user-defined"@) != "elot_928"@);
    reveal_strlit("ecma-118");
    assert(lower_seq("x-user-defined"@) != "ecma-118"@);
    reveal_strlit("csisolatingreek");
    assert(lower_seq("x-user-defined"@) != "csisolatingreek"@);
    reveal_strlit("visual");
    assert(lower_seq("x-user-defined"@) != "visual"@);
    reveal_strlit("iso_8859-8:1988");
    assert(lower_seq("x-user-defined"@) != "iso_8859-8:1988"@);
    reveal_strlit("iso_8859-8");
    assert(lower_seq("x-user-defined"@) != "iso_8859-8"@);
    reveal_strlit("iso88598");
    assert(lower_seq("x-user-defined"@) != "iso88598"@);
    reveal_strlit("iso8859-8");
    assert(lower_seq("x-user-defined"@) != "iso8859-8"@);
    reveal_strlit("iso-ir-138");
    assert(lower_seq("x-user-defined"@) != "iso-ir-138"@);
    reveal_strlit("iso-8859-8-e");
    assert(lower_seq("x-user-defined"@) != "iso-8859-8-e"@);
    reveal_strlit("iso-8859-8");
    assert(lower_seq("x-user-defined"@) != "iso-8859-8"@);
    reveal_strlit("hebrew");
    assert(lower_seq("x-user-defined"@) != "hebrew"@);
    reveal_strlit("csisolatinhebrew");
    assert(lower_seq("x-user-defined"@) != "csisolatinhebrew"@);
    reveal_strlit("csiso88598e");
    assert(lower_seq("x-user-defined"@) != "csiso88598e"@);
    reveal_strlit("logical");
    assert(lower_seq("x-user-defined"@) != "logical"@);
    reveal_strlit("iso-8859-8-i");
    assert(lower_seq("x-user-defined"@) != "iso-8859-8-i"@);
    reveal_strlit("csiso88598i");
    assert(lower_seq("x-user-defined"@) != "csiso88598i"@);
    reveal_strlit("latin6");
    assert(lower_seq("x-user-defined"@) != "latin6"@);
    reveal_strlit("l6");
    assert(lower_seq("x-user-defined"@) != "l6"@);
    reveal_strlit("iso885910");
    assert(lower_seq("x-user-defined"@) != "iso885910"@);
    reveal_strlit("iso8859-10");
    assert(lower_seq("x-user-defined"@) != "iso8859-10"@);
    reveal_strlit("iso-ir-157");
    assert(lower_seq("x-user-defined"@) != "iso-ir-157"@);
    reveal_strlit("iso-8859-10");
    assert(lower_seq("x-user-defined"@) != "iso-8859-10"@);
    reveal_strlit("csisolatin6");
    assert(lower_seq("x-user-defined"@) != "csisolatin6"@);
    reveal_strlit("iso885913");
    assert(lower_seq("x-user-defined"@) != "iso885913"@);
    reveal_strlit("iso8859-13");
    assert(lower_seq("x-user-defined"@) != "iso8859-13"@);
    reveal_strlit("iso-8859-13");
    assert(lower_seq("x-user-defined"@) != "iso-8859-13"@);
    reveal_strlit("iso885914");
    assert(lower_seq("x-user-defined"@) != "iso885914"@);
    reveal_strlit("iso8859-14");
    assert(lower_seq("x-user-defined"@) != "iso8859-14"@);
    reveal_strlit("iso-8859-14");
    assert(lower_seq("x-user-defined"@) != "iso-8859-14"@);
    reveal_strlit("l9");
    assert(lower_seq("x-user-defined"@) != "l9"@);
    reveal_strlit("iso_8859-15");
    assert(lower_seq("x-user-defined"@) != "iso_8859-15"@);
    reveal_strlit("iso885915");
    assert(lower_seq("x-user-defined"@) != "iso885915"@);
    reveal_strlit("iso8859-15");
    assert(lower_seq("x-user-defined"@) != "iso8859-15"@);
    reveal_strlit("iso-8859-15");
    assert(lower_seq("x-user-defined"@) != "iso-8859-15"@);
    reveal_strlit("csisolatin9");
    assert(lower_seq("x-user-defined"@) != "csisolatin9"@);
    reveal_strlit("iso-8859-16");
    assert(lower_seq("x-user-defined"@) != "iso-8859-16"@);
    reveal_strlit("koi8_r");
    assert(lower_seq("x-user-defined"@) != "koi8_r"@);
    reveal_strlit("koi8-r");
    assert(lower_seq("x-user-defined"@) != "koi8-r"@);
    reveal_strlit("koi8");
    assert(lower_seq("x-user-defined"@) != "koi8"@);
    reveal_strlit("koi");
    assert(lower_seq("x-user-defined"@) != "koi"@);
    reveal_strlit("cskoi8r");
    assert(lower_seq("x-user-defined"@) != "cskoi8r"@);
    reveal_strlit("koi8-u");
    assert(lower_seq("x-user-defined"@) != "koi8-u"@);
    reveal_strlit("koi8-ru");
    assert(lower_seq("x-user-defined"@) != "koi8-ru"@);
    reveal_strlit("x-mac-roman");
    assert(lower_seq("x-user-defined"@) != "x-mac-roman"@);
    reveal_strlit("macintosh");
    assert(lower_seq("x-user-defined"@) != "macintosh"@);
    reveal_strlit("mac");
    assert(lower_seq("x-user-defined"@) != "mac"@);
    reveal_strlit("csmacintosh");
    assert(lower_seq("x-user-defined"@) != "csmacintosh"@);
    reveal_strlit("windows-874");
    assert(lower_seq("x-user-defined"@) != "windows-874"@);
    reveal_strlit("tis-620");
    assert(lower_seq("x-user-defined"@) != "tis-620"@);
    reveal_strlit("iso885911");
    assert(lower_seq("x-user-defined"@) != "iso885911"@);
    reveal_strlit("iso8859-11");
    assert(lower_seq("x-user-defined"@) != "iso8859-11"@);
    reveal_strlit("iso-8859-11");
    assert(lower_seq("x-user-defined"@) != "iso-8859-11"@);
    reveal_strlit("dos-874");
    assert(lower_seq("x-user-defined"@) != "dos-874"@);
    reveal_strlit("x-cp1250");
    assert(lower_seq("x-user-defined"@) != "x-cp1250"@);
    reveal_strlit("windows-1250");
    assert(lower_seq("x-user-defined"@) != "windows-1250"@);
    reveal_strlit("cp1250");
    assert(lower_seq("x-user-defined"@) != "cp1250"@);
    reveal_strlit("x-cp1251");
    assert(lower_seq("x-user-defined"@) != "x-cp1251"@);
    reveal_strlit("windows-1251");
    assert(lower_seq("x-user-defined"@) != "windows-1251"@);
    reveal_strlit("cp1251");
    assert(lower_seq("x-user-defined"@) != "cp1251"@);
    reveal_strlit("x-cp1252");
    assert(lower_seq("x-user-defined"@) != "x-cp1252"@);
    reveal_strlit("windows-1252");
    assert(lower_seq("x-user-defined"@) != "windows-1252"@);
    reveal_strlit("us-ascii");
    assert(lower_seq("x-user-defined"@) != "us-ascii"@);
    reveal_strlit("latin1");
    assert(lower_seq("x-user-defined"@) != "latin1"@);
    reveal_strlit("l1");
    assert(lower_seq("x-user-defined"@) != "l1"@);
    reveal_strlit("iso_8859-1:1987");
    assert(lower_seq("x-user-defined"@) != "iso_8859-1:1987"@);
    reveal_strlit("iso_8859-1");
    assert(lower_seq("x-user-defined"@) != "iso_8859-1"@);
    reveal_strlit("iso88591");
    assert(lower_seq("x-user-defined"@) != "iso88591"@);
    reveal_strlit("iso8859-1");
    assert(lower_seq("x-user-defined"@) != "iso8859-1"@);
    reveal_strlit("iso-ir-100");
    assert(lower_seq("x-user-defined"@) != "iso-ir-100"@);
    reveal_strlit("iso-8859-1");
    assert(lower_seq("x-user-defined"@) != "iso-8859-1"@);
    reveal_strlit("ibm819");
    assert(lower_seq("x-user-defined"@) != "ibm819"@);
    reveal_strlit("csisolatin1");
    assert(lower_seq("x-user-defined"@) != "csisolatin1"@);
    reveal_strlit("cp819");
    assert(lower_seq("x-user-defined"@) != "cp819"@);
    reveal_strlit("cp1252");
    assert(lower_seq("x-user-defined"@) != "cp1252"@);
    reveal_strlit("ascii");
    assert(lower_seq("x-user-defined"@) != "ascii"@);
    reveal_strlit("ansi_x3.4-1968");
    assert(lower_seq("x-user-defined"@)[0] != "ansi_x3.4-1968"@[0]);
    reveal_strlit("x-cp1253");
    assert(lower_seq("x-user-defined"@) != "x-cp1253"@);
    reveal_strlit("windows-1253");
    assert(lower_seq("x-user-defined"@) != "windows-1253"@);
    reveal_strlit("cp1253");
    assert(lower_seq("x-user-defined"@) != "cp1253"@);
    reveal_strlit("x-cp1254");
    assert(lower_seq("x-user-defined"@) != "x-cp1254"@);
    reveal_strlit("windows-1254");
    assert(lower_seq("x-user-defined"@) != "windows-1254"@);
    reveal_strlit("latin5");
    assert(lower_seq("x-user-defined"@) != "latin5"@);
    reveal_strlit("l5");
    assert(lower_seq("x-user-defined"@) != "l5"@);
    reveal_strlit("iso_8859-9:1989");
    assert(lower_seq("x-user-defined"@) != "iso_8859-9:1989"@);
    reveal_strlit("iso_8859-9");
    assert(lower_seq("x-user-defined"@) != "iso_8859-9"@);
    reveal_strlit("iso88599");
    assert(lower_seq("x-user-defined"@) != "iso88599"@);
    reveal_strlit("iso8859-9");
    assert(lower_seq("x-user-defined"@) != "iso8859-9"@);
    reveal_strlit("iso-ir-148");
    assert(lower_seq("x-user-defined"@) != "iso-ir-148"@);
    reveal_strlit("iso-8859-9");
    assert(lower_seq("x-user-defined"@) != "iso-8859-9"@);
    reveal_strlit("csisolatin5");
    assert(lower_seq("x-user-defined"@) != "csisolatin5"@);
    reveal_strlit("cp1254");
    assert(lower_seq("x-user-defined"@) != "cp1254"@);
    reveal_strlit("x-cp1255");
    assert(lower_seq("x-user-defined"@) != "x-cp1255"@);
    reveal_strlit("windows-1255");
    assert(lower_seq("x-user-defined"@) != "windows-1255"@);
    reveal_strlit("cp1255");
    assert(lower_seq("x-user-defined"@) != "cp1255"@);
    reveal_strlit("x-cp1256");
    assert(lower_seq("x-user-defined"@) != "x-cp1256"@);
    reveal_strlit("windows-1256");
    assert(lower_seq("x-user-defined"@) != "windows-1256"@);
    reveal_strlit("cp1256");
    assert(lower_seq("x-user-defined"@) != "cp1256"@);
    reveal_strlit("x-cp1257");
    assert(lower_seq("x-user-defined"@) != "x-cp1257"@);
    reveal_strlit("windows-1257");
    assert(lower_seq("x-user-defined"@) != "windows-1257"@);
    reveal_strlit("cp1257");
    assert(lower_seq("x-user-defined"@) != "cp1257"@);
    reveal_strlit("x-cp1258");
    assert(lower_seq("x-user-defined"@) != "x-cp1258"@);
    reveal_strlit("windows-1258");
    assert(lower_seq("x-user-defined"@) != "windows-1258"@);
    reveal_strlit("cp1258");
    assert(lower_seq("x-user-defined"@) != "cp1258"@);
    reveal_strlit("x-mac-ukrainian");
    assert(lower_seq("x-user-defined"@) != "x-mac-ukrainian"@);
    reveal_strlit("x-mac-cyrillic");
    assert(lower_seq("x-user-defined"@)[2] != "x-mac-cyrillic"@[2]);
    reveal_strlit("x-gbk");
    assert(lower_seq("x-user-defined"@) != "x-gbk"@);
    reveal_strlit("iso-ir-58");
    assert(lower_seq("x-user-defined"@) != "iso-ir-58"@);
    reveal_strlit("gbk");
    assert(lower_seq("x-user-defined"@) != "gbk"@);
    reveal_strlit("gb_2312-80");
    assert(lower_seq("x-user-defined"@) != "gb_2312-80"@);
    reveal_strlit("gb_2312");
    assert(lower_seq("x-user-defined"@) != "gb_2312"@);
    reveal_strlit("gb2312");
    assert(lower_seq("x-user-defined"@) != "gb2312"@);
    reveal_strlit("csiso58gb231280");
    assert(lower_seq("x-user-defined"@) != "csiso58gb231280"@);
    reveal_strlit("csgb2312");
    assert(lower_seq("x-user-defined"@) != "csgb2312"@);
    reveal_strlit("chinese");
    assert(lower_seq("x-user-defined"@) != "chinese"@);
    reveal_strlit("gb18030");
    assert(lower_seq("x-user-defined"@) != "gb18030"@);
    reveal_strlit("x-x-big5");
    assert(lower_seq("x-user-defined"@) != "x-x-big5"@);
    reveal_strlit("csbig5");
    assert(lower_seq("x-user-defined"@) != "csbig5"@);
    reveal_strlit("cn-big5");
    assert(lower_seq("x-user-defined"@) != "cn-big5"@);
    reveal_strlit("big5-hkscs");
    assert(lower_seq("x-user-defined"@) != "big5-hkscs"@);
    reveal_strlit("big5");
    assert(lower_seq("x-user-defined"@) != "big5"@);
    reveal_strlit("x-euc-jp");
    assert(lower_seq("x-user-defined"@) != "x-euc-jp"@);
    reveal_strlit("euc-jp");
    assert(lower_seq("x-user-defined"@) != "euc-jp"@);
    reveal_strlit("cseucpkdfmtjapanese");
    assert(lower_seq("x-user-defined"@) != "cseucpkdfmtjapanese"@);
    reveal_strlit("iso-2022-jp");
    assert(lower_seq("x-user-defined"@) != "iso-2022-jp"@);
    reveal_strlit("csiso2022jp");
    assert(lower_seq("x-user-defined"@) != "csiso2022jp"@);
    reveal_strlit("x-sjis");
    assert(lower_seq("x-user-defined"@) != "x-sjis"@);
    reveal_strlit("windows-31j");
    assert(lower_seq("x-user-defined"@) != "windows-31j"@);
    reveal_strlit("sjis");
    assert(lower_seq("x-user-defined"@) != "sjis"@);
    reveal_strlit("shift_jis");
    assert(lower_seq("x-user-defined"@) != "shift_jis"@);
    reveal_strlit("shift-jis");
    assert(lower_seq("x-user-defined"@) != "shift-jis"@);
    reveal_strlit("ms_kanji");
    assert(lower_seq("x-user-defined"@) != "ms_kanji"@);
    reveal_strlit("ms932");
    assert(lower_seq("x-user-defined"@) != "ms932"@);
    reveal_strlit("csshiftjis");
    assert(lower_seq("x-user-defined"@) != "csshiftjis"@);
    reveal_strlit("windows-949");
    assert(lower_seq("x-user-defined"@) != "windows-949"@);
    reveal_strlit("ksc_5601");
    assert(lower_seq("x-user-defined"@) != "ksc_5601"@);
    reveal_strlit("ksc5601");
    assert(lower_seq("x-user-defined"@) != "ksc5601"@);
    reveal_strlit("ks_c_5601-1989");
    assert(lower_seq("x-user-defined"@)[0] != "ks_c_5601-1989"@[0]);
    reveal_strlit("ks_c_5601-1987");
    assert(lower_seq("x-user-defined"@)[0] != "ks_c_5601-1987"@[0]);
    reveal_strlit("korean");
    assert(lower_seq("x-user-defined"@) != "korean"@);
    reveal_strlit("iso-ir-149");
    assert(lower_seq("x-user-defined"@) != "iso-ir-149"@);
    reveal_strlit("euc-kr");
    assert(lower_seq("x-user-defined"@) != "euc-kr"@);
    reveal_strlit("csksc56011987");
    assert(lower_seq("x-user-defined"@) != "csksc56011987"@);
    reveal_strlit("cseuckr");
    assert(lower_seq("x-user-defined"@) != "cseuckr"@);
    reveal_strlit("replacement");
    assert(lower_seq("x-user-defined"@) != "replacement"@);
    reveal_strlit("iso-2022-kr");
    assert(lower_seq("x-user-defined"@) != "iso-2022-kr"@);
    reveal_strlit("iso-2022-cn-ext");
    assert(lower_seq("x-user-defined"@) != "iso-2022-cn-ext"@);
    reveal_strlit("iso-2022-cn");
    assert(lower_seq("x-user-defined"@) != "iso-2022-cn"@);
    reveal_strlit("hz-gb-2312");
    assert(lower_seq("x-user-defined"@) != "hz-gb-2312"@);
    reveal_strlit("csiso2022kr");
    assert(lower_seq("x-user-defined"@) != "csiso2022kr"@);
    reveal_strlit("utf-16be");
    assert(lower_seq("x-user-defined"@) != "utf-16be"@);
    reveal_strlit("unicodefffe");
    assert(lower_seq("x-user-defined"@) != "unicodefffe"@);
    reveal_strlit("utf-16le");
    assert(lower_seq("x-user-defined"@) != "utf-16le"@);
    reveal_strlit("utf-16");
    assert(lower_seq("x-user-defined"@) != "utf-16"@);
    reveal_strlit("unicodefeff");
    assert(lower_seq("x-user-defined"@) != "unicodefeff"@);
    reveal_strlit("unicode");
    assert(lower_seq("x-user-defined"@) != "unicode"@);
    reveal_strlit("ucs-2");
    assert(lower_seq("x-user-defined"@) != "ucs-2"@);
    reveal_strlit("iso-10646-ucs-2");
    assert(lower_seq("x-user-defined"@) != "iso-10646-ucs-2"@);
    reveal_strlit("csunicode");
    assert(lower_seq("x-user-defined"@) != "csunicode"@);
    assert(is_label_xuser_defined(lower_seq("x-user-defined"@)));
}

/// Label resolution round-trips the preferred names: parsing the canonical
/// name of any encoding, case-insensitively, yields that encoding again.
pub proof fn lemma_canonical_name_round_trip(e: CharacterEncoding)
    ensures
        spec_parse(spec_canonical_name(e)) == Ok::<
            CharacterEncoding,
            UnrecognizedLabel,
        >(e),
{
    match e {
        CharacterEncoding::XUserDefined => lemma_round_trip_xuser_defined(),
        CharacterEncoding::Utf16LE => lemma_round_trip_utf16_le(),
        CharacterEncoding::Utf16BE => lemma_round_trip_utf16_be(),
        CharacterEncoding::Replacement => lemma_round_trip_replacement(),
        CharacterEncoding::EucKr => lemma_round_trip_euc_kr(),
        CharacterEncoding::ShiftJIS => lemma_round_trip_shift_jis(),
        CharacterEncoding::ISO2022Jp => lemma_round_trip_iso2022_jp(),
        CharacterEncoding::EucJp => lemma_round_trip_euc_jp(),
        CharacterEncoding::Big5 => lemma_round_trip_big5(),
        CharacterEncoding::GB18030 => lemma_round_trip_gb18030(),
        CharacterEncoding::GBK => lemma_round_trip_gbk(),
        CharacterEncoding::XMacCyrillic => lemma_round_trip_xmac_cyrillic(),
        CharacterEncoding::Windows1258 => lemma_round_trip_windows1258(),
        CharacterEncoding::Windows1257 => lemma_round_trip_windows1257(),
        CharacterEncoding::Windows1256 => lemma_round_trip_windows1256(),
        CharacterEncoding::Windows1255 => lemma_round_trip_windows1255(),
        CharacterEncoding::Windows1254 => lemma_round_trip_windows1254(),
        CharacterEncoding::Windows1253 => lemma_round_trip_windows1253(),
        CharacterEncoding::Windows1252 => lemma_round_trip_windows1252(),
        CharacterEncoding::Windows1251 => lemma_round_trip_windows1251(),
        CharacterEncoding::Windows1250 => lemma_round_trip_windows1250(),
        CharacterEncoding::Windows874 => lemma_round_trip_windows874(),
        CharacterEncoding::Macintosh => lemma_round_trip_macintosh(),
        CharacterEncoding::KOI8U => lemma_round_trip_koi8_u(),
        CharacterEncoding::KOI8R => lemma_round_trip_koi8_r(),
        CharacterEncoding::ISO8859_16 => lemma_round_trip_iso8859_16(),
        CharacterEncoding::ISO8859_15 => lemma_round_trip_iso8859_15(),
        CharacterEncoding::ISO8859_14 => lemma_round_trip_iso8859_14(),
        CharacterEncoding::ISO8859_13 => lemma_round_trip_iso8859_13(),
        CharacterEncoding::ISO8859_10 => lemma_round_trip_iso8859_10(),
        CharacterEncoding::ISO8859_8I => lemma_round_trip_iso8859_8_i(),
        CharacterEncoding::ISO8859_8 => lemma_round_trip_iso8859_8(),
        CharacterEncoding::ISO8859_7 => lemma_round_trip_iso8859_7(),
        CharacterEncoding::ISO8859_6 => lemma_round_trip_iso8859_6(),
        CharacterEncoding::ISO8859_5 => lemma_round_trip_iso8859_5(),
        CharacterEncoding::ISO8859_4 => lemma_round_trip_iso8859_4(),
        CharacterEncoding::ISO8859_3 => lemma_round_trip_iso8859_3(),
        CharacterEncoding::ISO8859_2 => lemma_round_trip_iso8859_2(),
        CharacterEncoding::IBM866 => lemma_round_trip_ibm866(),
        CharacterEncoding::Utf8 => lemma_round_trip_utf8(),
    }
}

} // verus!

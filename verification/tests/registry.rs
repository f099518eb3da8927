//! Tests of the encoding label registry: every alias of the Encoding
//! standard resolves to its canonical encoding, case-insensitively, and
//! the preferred names round-trip through label resolution.

use html::character_encoding::CharacterEncoding;

#[test]
fn every_documented_label_resolves() {
    assert_eq!(CharacterEncoding::parse("unicode-1-1-utf-8"), Ok(CharacterEncoding::Utf8));
    assert_eq!(CharacterEncoding::parse("unicode11utf8"), Ok(CharacterEncoding::Utf8));
    assert_eq!(CharacterEncoding::parse("unicode20utf8"), Ok(CharacterEncoding::Utf8));
    assert_eq!(CharacterEncoding::parse("utf-8"), Ok(CharacterEncoding::Utf8));
    assert_eq!(CharacterEncoding::parse("utf8"), Ok(CharacterEncoding::Utf8));
    assert_eq!(CharacterEncoding::parse("x-unicode20utf8"), Ok(CharacterEncoding::Utf8));
    assert_eq!(CharacterEncoding::parse("866"), Ok(CharacterEncoding::IBM866));
    assert_eq!(CharacterEncoding::parse("cp866"), Ok(CharacterEncoding::IBM866));
    assert_eq!(CharacterEncoding::parse("csibm866"), Ok(CharacterEncoding::IBM866));
    assert_eq!(CharacterEncoding::parse("ibm866"), Ok(CharacterEncoding::IBM866));
    assert_eq!(CharacterEncoding::parse("csisolatin2"), Ok(CharacterEncoding::ISO8859_2));
    assert_eq!(CharacterEncoding::parse("iso-8859-2"), Ok(CharacterEncoding::ISO8859_2));
    assert_eq!(CharacterEncoding::parse("iso-ir-101"), Ok(CharacterEncoding::ISO8859_2));
    assert_eq!(CharacterEncoding::parse("iso8859-2"), Ok(CharacterEncoding::ISO8859_2));
    assert_eq!(CharacterEncoding::parse("iso88592"), Ok(CharacterEncoding::ISO8859_2));
    assert_eq!(CharacterEncoding::parse("iso_8859-2"), Ok(CharacterEncoding::ISO8859_2));
    assert_eq!(CharacterEncoding::parse("iso_8859-2:1987"), Ok(CharacterEncoding::ISO8859_2));
    assert_eq!(CharacterEncoding::parse("l2"), Ok(CharacterEncoding::ISO8859_2));
    assert_eq!(CharacterEncoding::parse("latin2"), Ok(CharacterEncoding::ISO8859_2));
    assert_eq!(CharacterEncoding::parse("csisolatin3"), Ok(CharacterEncoding::ISO8859_3));
    assert_eq!(CharacterEncoding::parse("iso-8859-3"), Ok(CharacterEncoding::ISO8859_3));
    assert_eq!(CharacterEncoding::parse("iso-ir-109"), Ok(CharacterEncoding::ISO8859_3));
    assert_eq!(CharacterEncoding::parse("iso8859-3"), Ok(CharacterEncoding::ISO8859_3));
    assert_eq!(CharacterEncoding::parse("iso88593"), Ok(CharacterEncoding::ISO8859_3));
    assert_eq!(CharacterEncoding::parse("iso_8859-3"), Ok(CharacterEncoding::ISO8859_3));
    assert_eq!(CharacterEncoding::parse("iso_8859-3:1988"), Ok(CharacterEncoding::ISO8859_3));
    assert_eq!(CharacterEncoding::parse("l3"), Ok(CharacterEncoding::ISO8859_3));
    assert_eq!(CharacterEncoding::parse("latin3"), Ok(CharacterEncoding::ISO8859_3));
    assert_eq!(CharacterEncoding::parse("csisolatin4"), Ok(CharacterEncoding::ISO8859_4));
    assert_eq!(CharacterEncoding::parse("iso-8859-4"), Ok(CharacterEncoding::ISO8859_4));
    assert_eq!(CharacterEncoding::parse("iso-ir-110"), Ok(CharacterEncoding::ISO8859_4));
    assert_eq!(CharacterEncoding::parse("iso8859-4"), Ok(CharacterEncoding::ISO8859_4));
    assert_eq!(CharacterEncoding::parse("iso88594"), Ok(CharacterEncoding::ISO8859_4));
    assert_eq!(CharacterEncoding::parse("iso_8859-4"), Ok(CharacterEncoding::ISO8859_4));
    assert_eq!(CharacterEncoding::parse("iso_8859-4:1988"), Ok(CharacterEncoding::ISO8859_4));
    assert_eq!(CharacterEncoding::parse("l4"), Ok(CharacterEncoding::ISO8859_4));
    assert_eq!(CharacterEncoding::parse("latin4"), Ok(CharacterEncoding::ISO8859_4));
    assert_eq!(CharacterEncoding::parse("csisolatincyrillic"), Ok(CharacterEncoding::ISO8859_5));
    assert_eq!(CharacterEncoding::parse("cyrillic"), Ok(CharacterEncoding::ISO8859_5));
    assert_eq!(CharacterEncoding::parse("iso-8859-5"), Ok(CharacterEncoding::ISO8859_5));
    assert_eq!(CharacterEncoding::parse("iso-ir-144"), Ok(CharacterEncoding::ISO8859_5));
    assert_eq!(CharacterEncoding::parse("iso8859-5"), Ok(CharacterEncoding::ISO8859_5));
    assert_eq!(CharacterEncoding::parse("iso88595"), Ok(CharacterEncoding::ISO8859_5));
    assert_eq!(CharacterEncoding::parse("iso_8859-5"), Ok(CharacterEncoding::ISO8859_5));
    assert_eq!(CharacterEncoding::parse("iso_8859-5:1988"), Ok(CharacterEncoding::ISO8859_5));
    assert_eq!(CharacterEncoding::parse("arabic"), Ok(CharacterEncoding::ISO8859_6));
    assert_eq!(CharacterEncoding::parse("asmo-708"), Ok(CharacterEncoding::ISO8859_6));
    assert_eq!(CharacterEncoding::parse("csiso88596e"), Ok(CharacterEncoding::ISO8859_6));
    assert_eq!(CharacterEncoding::parse("csiso88596i"), Ok(CharacterEncoding::ISO8859_6));
    assert_eq!(CharacterEncoding::parse("csisolatinarabic"), Ok(CharacterEncoding::ISO8859_6));
    assert_eq!(CharacterEncoding::parse("ecma-114"), Ok(CharacterEncoding::ISO8859_6));
    assert_eq!(CharacterEncoding::parse("iso-8859-6"), Ok(CharacterEncoding::ISO8859_6));
    assert_eq!(CharacterEncoding::parse("iso-8859-6-e"), Ok(CharacterEncoding::ISO8859_6));
    assert_eq!(CharacterEncoding::parse("iso-8859-6-i"), Ok(CharacterEncoding::ISO8859_6));
    assert_eq!(CharacterEncoding::parse("iso-ir-127"), Ok(CharacterEncoding::ISO8859_6));
    assert_eq!(CharacterEncoding::parse("iso8859-6"), Ok(CharacterEncoding::ISO8859_6));
    assert_eq!(CharacterEncoding::parse("iso88596"), Ok(CharacterEncoding::ISO8859_6));
    assert_eq!(CharacterEncoding::parse("iso_8859-6"), Ok(CharacterEncoding::ISO8859_6));
    assert_eq!(CharacterEncoding::parse("iso_8859-6:1987"), Ok(CharacterEncoding::ISO8859_6));
    assert_eq!(CharacterEncoding::parse("csisolatingreek"), Ok(CharacterEncoding::ISO8859_7));
    assert_eq!(CharacterEncoding::parse("ecma-118"), Ok(CharacterEncoding::ISO8859_7));
    assert_eq!(CharacterEncoding::parse("elot_928"), Ok(CharacterEncoding::ISO8859_7));
    assert_eq!(CharacterEncoding::parse("greek"), Ok(CharacterEncoding::ISO8859_7));
    assert_eq!(CharacterEncoding::parse("greek8"), Ok(CharacterEncoding::ISO8859_7));
    assert_eq!(CharacterEncoding::parse("iso-8859-7"), Ok(CharacterEncoding::ISO8859_7));
    assert_eq!(CharacterEncoding::parse("iso-ir-126"), Ok(CharacterEncoding::ISO8859_7));
    assert_eq!(CharacterEncoding::parse("iso8859-7"), Ok(CharacterEncoding::ISO8859_7));
    assert_eq!(CharacterEncoding::parse("iso88597"), Ok(CharacterEncoding::ISO8859_7));
    assert_eq!(CharacterEncoding::parse("iso_8859-7"), Ok(CharacterEncoding::ISO8859_7));
    assert_eq!(CharacterEncoding::parse("iso_8859-7:1987"), Ok(CharacterEncoding::ISO8859_7));
    assert_eq!(CharacterEncoding::parse("sun_eu_greek"), Ok(CharacterEncoding::ISO8859_7));
    assert_eq!(CharacterEncoding::parse("csiso88598e"), Ok(CharacterEncoding::ISO8859_8));
    assert_eq!(CharacterEncoding::parse("csisolatinhebrew"), Ok(CharacterEncoding::ISO8859_8));
    assert_eq!(CharacterEncoding::parse("hebrew"), Ok(CharacterEncoding::ISO8859_8));
    assert_eq!(CharacterEncoding::parse("iso-8859-8"), Ok(CharacterEncoding::ISO8859_8));
    assert_eq!(CharacterEncoding::parse("iso-8859-8-e"), Ok(CharacterEncoding::ISO8859_8));
    assert_eq!(CharacterEncoding::parse("iso-ir-138"), Ok(CharacterEncoding::ISO8859_8));
    assert_eq!(CharacterEncoding::parse("iso8859-8"), Ok(CharacterEncoding::ISO8859_8));
    assert_eq!(CharacterEncoding::parse("iso88598"), Ok(CharacterEncoding::ISO8859_8));
    assert_eq!(CharacterEncoding::parse("iso_8859-8"), Ok(CharacterEncoding::ISO8859_8));
    assert_eq!(CharacterEncoding::parse("iso_8859-8:1988"), Ok(CharacterEncoding::ISO8859_8));
    assert_eq!(CharacterEncoding::parse("visual"), Ok(CharacterEncoding::ISO8859_8));
    assert_eq!(CharacterEncoding::parse("csiso88598i"), Ok(CharacterEncoding::ISO8859_8I));
    assert_eq!(CharacterEncoding::parse("iso-8859-8-i"), Ok(CharacterEncoding::ISO8859_8I));
    assert_eq!(CharacterEncoding::parse("logical"), Ok(CharacterEncoding::ISO8859_8I));
    assert_eq!(CharacterEncoding::parse("csisolatin6"), Ok(CharacterEncoding::ISO8859_10));
    assert_eq!(CharacterEncoding::parse("iso-8859-10"), Ok(CharacterEncoding::ISO8859_10));
    assert_eq!(CharacterEncoding::parse("iso-ir-157"), Ok(CharacterEncoding::ISO8859_10));
    assert_eq!(CharacterEncoding::parse("iso8859-10"), Ok(CharacterEncoding::ISO8859_10));
    assert_eq!(CharacterEncoding::parse("iso885910"), Ok(CharacterEncoding::ISO8859_10));
    assert_eq!(CharacterEncoding::parse("l6"), Ok(CharacterEncoding::ISO8859_10));
    assert_eq!(CharacterEncoding::parse("latin6"), Ok(CharacterEncoding::ISO8859_10));
    assert_eq!(CharacterEncoding::parse("iso-8859-13"), Ok(CharacterEncoding::ISO8859_13));
    assert_eq!(CharacterEncoding::parse("iso8859-13"), Ok(CharacterEncoding::ISO8859_13));
    assert_eq!(CharacterEncoding::parse("iso885913"), Ok(CharacterEncoding::ISO8859_13));
    assert_eq!(CharacterEncoding::parse("iso-8859-14"), Ok(CharacterEncoding::ISO8859_14));
    assert_eq!(CharacterEncoding::parse("iso8859-14"), Ok(CharacterEncoding::ISO8859_14));
    assert_eq!(CharacterEncoding::parse("iso885914"), Ok(CharacterEncoding::ISO8859_14));
    assert_eq!(CharacterEncoding::parse("csisolatin9"), Ok(CharacterEncoding::ISO8859_15));
    assert_eq!(CharacterEncoding::parse("iso-8859-15"), Ok(CharacterEncoding::ISO8859_15));
    assert_eq!(CharacterEncoding::parse("iso8859-15"), Ok(CharacterEncoding::ISO8859_15));
    assert_eq!(CharacterEncoding::parse("iso885915"), Ok(CharacterEncoding::ISO8859_15));
    assert_eq!(CharacterEncoding::parse("iso_8859-15"), Ok(CharacterEncoding::ISO8859_15));
    assert_eq!(CharacterEncoding::parse("l9"), Ok(CharacterEncoding::ISO8859_15));
    assert_eq!(CharacterEncoding::parse("iso-8859-16"), Ok(CharacterEncoding::ISO8859_16));
    assert_eq!(CharacterEncoding::parse("cskoi8r"), Ok(CharacterEncoding::KOI8R));
    assert_eq!(CharacterEncoding::parse("koi"), Ok(CharacterEncoding::KOI8R));
    assert_eq!(CharacterEncoding::parse("koi8"), Ok(CharacterEncoding::KOI8R));
    assert_eq!(CharacterEncoding::parse("koi8-r"), Ok(CharacterEncoding::KOI8R));
    assert_eq!(CharacterEncoding::parse("koi8_r"), Ok(CharacterEncoding::KOI8R));
    assert_eq!(CharacterEncoding::parse("koi8-ru"), Ok(CharacterEncoding::KOI8U));
    assert_eq!(CharacterEncoding::parse("koi8-u"), Ok(CharacterEncoding::KOI8U));
    assert_eq!(CharacterEncoding::parse("csmacintosh"), Ok(CharacterEncoding::Macintosh));
    assert_eq!(CharacterEncoding::parse("mac"), Ok(CharacterEncoding::Macintosh));
    assert_eq!(CharacterEncoding::parse("macintosh"), Ok(CharacterEncoding::Macintosh));
    assert_eq!(CharacterEncoding::parse("x-mac-roman"), Ok(CharacterEncoding::Macintosh));
    assert_eq!(CharacterEncoding::parse("dos-874"), Ok(CharacterEncoding::Windows874));
    assert_eq!(CharacterEncoding::parse("iso-8859-11"), Ok(CharacterEncoding::Windows874));
    assert_eq!(CharacterEncoding::parse("iso8859-11"), Ok(CharacterEncoding::Windows874));
    assert_eq!(CharacterEncoding::parse("iso885911"), Ok(CharacterEncoding::Windows874));
    assert_eq!(CharacterEncoding::parse("tis-620"), Ok(CharacterEncoding::Windows874));
    assert_eq!(CharacterEncoding::parse("windows-874"), Ok(CharacterEncoding::Windows874));
    assert_eq!(CharacterEncoding::parse("cp1250"), Ok(CharacterEncoding::Windows1250));
    assert_eq!(CharacterEncoding::parse("windows-1250"), Ok(CharacterEncoding::Windows1250));
    assert_eq!(CharacterEncoding::parse("x-cp1250"), Ok(CharacterEncoding::Windows1250));
    assert_eq!(CharacterEncoding::parse("cp1251"), Ok(CharacterEncoding::Windows1251));
    assert_eq!(CharacterEncoding::parse("windows-1251"), Ok(CharacterEncoding::Windows1251));
    assert_eq!(CharacterEncoding::parse("x-cp1251"), Ok(CharacterEncoding::Windows1251));
    assert_eq!(CharacterEncoding::parse("ansi_x3.4-1968"), Ok(CharacterEncoding::Windows1252));
    assert_eq!(CharacterEncoding::parse("ascii"), Ok(CharacterEncoding::Windows1252));
    assert_eq!(CharacterEncoding::parse("cp1252"), Ok(CharacterEncoding::Windows1252));
    assert_eq!(CharacterEncoding::parse("cp819"), Ok(CharacterEncoding::Windows1252));
    assert_eq!(CharacterEncoding::parse("csisolatin1"), Ok(CharacterEncoding::Windows1252));
    assert_eq!(CharacterEncoding::parse("ibm819"), Ok(CharacterEncoding::Windows1252));
    assert_eq!(CharacterEncoding::parse("iso-8859-1"), Ok(CharacterEncoding::Windows1252));
    assert_eq!(CharacterEncoding::parse("iso-ir-100"), Ok(CharacterEncoding::Windows1252));
    assert_eq!(CharacterEncoding::parse("iso8859-1"), Ok(CharacterEncoding::Windows1252));
    assert_eq!(CharacterEncoding::parse("iso88591"), Ok(CharacterEncoding::Windows1252));
    assert_eq!(CharacterEncoding::parse("iso_8859-1"), Ok(CharacterEncoding::Windows1252));
    assert_eq!(CharacterEncoding::parse("iso_8859-1:1987"), Ok(CharacterEncoding::Windows1252));
    assert_eq!(CharacterEncoding::parse("l1"), Ok(CharacterEncoding::Windows1252));
    assert_eq!(CharacterEncoding::parse("latin1"), Ok(CharacterEncoding::Windows1252));
    assert_eq!(CharacterEncoding::parse("us-ascii"), Ok(CharacterEncoding::Windows1252));
    assert_eq!(CharacterEncoding::parse("windows-1252"), Ok(CharacterEncoding::Windows1252));
    assert_eq!(CharacterEncoding::parse("x-cp1252"), Ok(CharacterEncoding::Windows1252));
    assert_eq!(CharacterEncoding::parse("cp1253"), Ok(CharacterEncoding::Windows1253));
    assert_eq!(CharacterEncoding::parse("windows-1253"), Ok(CharacterEncoding::Windows1253));
    assert_eq!(CharacterEncoding::parse("x-cp1253"), Ok(CharacterEncoding::Windows1253));
    assert_eq!(CharacterEncoding::parse("cp1254"), Ok(CharacterEncoding::Windows1254));
    assert_eq!(CharacterEncoding::parse("csisolatin5"), Ok(CharacterEncoding::Windows1254));
    assert_eq!(CharacterEncoding::parse("iso-8859-9"), Ok(CharacterEncoding::Windows1254));
    assert_eq!(CharacterEncoding::parse("iso-ir-148"), Ok(CharacterEncoding::Windows1254));
    assert_eq!(CharacterEncoding::parse("iso8859-9"), Ok(CharacterEncoding::Windows1254));
    assert_eq!(CharacterEncoding::parse("iso88599"), Ok(CharacterEncoding::Windows1254));
    assert_eq!(CharacterEncoding::parse("iso_8859-9"), Ok(CharacterEncoding::Windows1254));
    assert_eq!(CharacterEncoding::parse("iso_8859-9:1989"), Ok(CharacterEncoding::Windows1254));
    assert_eq!(CharacterEncoding::parse("l5"), Ok(CharacterEncoding::Windows1254));
    assert_eq!(CharacterEncoding::parse("latin5"), Ok(CharacterEncoding::Windows1254));
    assert_eq!(CharacterEncoding::parse("windows-1254"), Ok(CharacterEncoding::Windows1254));
    assert_eq!(CharacterEncoding::parse("x-cp1254"), Ok(CharacterEncoding::Windows1254));
    assert_eq!(CharacterEncoding::parse("cp1255"), Ok(CharacterEncoding::Windows1255));
    assert_eq!(CharacterEncoding::parse("windows-1255"), Ok(CharacterEncoding::Windows1255));
    assert_eq!(CharacterEncoding::parse("x-cp1255"), Ok(CharacterEncoding::Windows1255));
    assert_eq!(CharacterEncoding::parse("cp1256"), Ok(CharacterEncoding::Windows1256));
    assert_eq!(CharacterEncoding::parse("windows-1256"), Ok(CharacterEncoding::Windows1256));
    assert_eq!(CharacterEncoding::parse("x-cp1256"), Ok(CharacterEncoding::Windows1256));
    assert_eq!(CharacterEncoding::parse("cp1257"), Ok(CharacterEncoding::Windows1257));
    assert_eq!(CharacterEncoding::parse("windows-1257"), Ok(CharacterEncoding::Windows1257));
    assert_eq!(CharacterEncoding::parse("x-cp1257"), Ok(CharacterEncoding::Windows1257));
    assert_eq!(CharacterEncoding::parse("cp1258"), Ok(CharacterEncoding::Windows1258));
    assert_eq!(CharacterEncoding::parse("windows-1258"), Ok(CharacterEncoding::Windows1258));
    assert_eq!(CharacterEncoding::parse("x-cp1258"), Ok(CharacterEncoding::Windows1258));
    assert_eq!(CharacterEncoding::parse("x-mac-cyrillic"), Ok(CharacterEncoding::XMacCyrillic));
    assert_eq!(CharacterEncoding::parse("x-mac-ukrainian"), Ok(CharacterEncoding::XMacCyrillic));
    assert_eq!(CharacterEncoding::parse("chinese"), Ok(CharacterEncoding::GBK));
    assert_eq!(CharacterEncoding::parse("csgb2312"), Ok(CharacterEncoding::GBK));
    assert_eq!(CharacterEncoding::parse("csiso58gb231280"), Ok(CharacterEncoding::GBK));
    assert_eq!(CharacterEncoding::parse("gb2312"), Ok(CharacterEncoding::GBK));
    assert_eq!(CharacterEncoding::parse("gb_2312"), Ok(CharacterEncoding::GBK));
    assert_eq!(CharacterEncoding::parse("gb_2312-80"), Ok(CharacterEncoding::GBK));
    assert_eq!(CharacterEncoding::parse("gbk"), Ok(CharacterEncoding::GBK));
    assert_eq!(CharacterEncoding::parse("iso-ir-58"), Ok(CharacterEncoding::GBK));
    assert_eq!(CharacterEncoding::parse("x-gbk"), Ok(CharacterEncoding::GBK));
    assert_eq!(CharacterEncoding::parse("gb18030"), Ok(CharacterEncoding::GB18030));
    assert_eq!(CharacterEncoding::parse("big5"), Ok(CharacterEncoding::Big5));
    assert_eq!(CharacterEncoding::parse("big5-hkscs"), Ok(CharacterEncoding::Big5));
    assert_eq!(CharacterEncoding::parse("cn-big5"), Ok(CharacterEncoding::Big5));
    assert_eq!(CharacterEncoding::parse("csbig5"), Ok(CharacterEncoding::Big5));
    assert_eq!(CharacterEncoding::parse("x-x-big5"), Ok(CharacterEncoding::Big5));
    assert_eq!(CharacterEncoding::parse("cseucpkdfmtjapanese"), Ok(CharacterEncoding::EucJp));
    assert_eq!(CharacterEncoding::parse("euc-jp"), Ok(CharacterEncoding::EucJp));
    assert_eq!(CharacterEncoding::parse("x-euc-jp"), Ok(CharacterEncoding::EucJp));
    assert_eq!(CharacterEncoding::parse("csiso2022jp"), Ok(CharacterEncoding::ISO2022Jp));
    assert_eq!(CharacterEncoding::parse("iso-2022-jp"), Ok(CharacterEncoding::ISO2022Jp));
    assert_eq!(CharacterEncoding::parse("csshiftjis"), Ok(CharacterEncoding::ShiftJIS));
    assert_eq!(CharacterEncoding::parse("ms932"), Ok(CharacterEncoding::ShiftJIS));
    assert_eq!(CharacterEncoding::parse("ms_kanji"), Ok(CharacterEncoding::ShiftJIS));
    assert_eq!(CharacterEncoding::parse("shift-jis"), Ok(CharacterEncoding::ShiftJIS));
    assert_eq!(CharacterEncoding::parse("shift_jis"), Ok(CharacterEncoding::ShiftJIS));
    assert_eq!(CharacterEncoding::parse("sjis"), Ok(CharacterEncoding::ShiftJIS));
    assert_eq!(CharacterEncoding::parse("windows-31j"), Ok(CharacterEncoding::ShiftJIS));
    assert_eq!(CharacterEncoding::parse("x-sjis"), Ok(CharacterEncoding::ShiftJIS));
    assert_eq!(CharacterEncoding::parse("cseuckr"), Ok(CharacterEncoding::EucKr));
    assert_eq!(CharacterEncoding::parse("csksc56011987"), Ok(CharacterEncoding::EucKr));
    assert_eq!(CharacterEncoding::parse("euc-kr"), Ok(CharacterEncoding::EucKr));
    assert_eq!(CharacterEncoding::parse("iso-ir-149"), Ok(CharacterEncoding::EucKr));
    assert_eq!(CharacterEncoding::parse("korean"), Ok(CharacterEncoding::EucKr));
    assert_eq!(CharacterEncoding::parse("ks_c_5601-1987"), Ok(CharacterEncoding::EucKr));
    assert_eq!(CharacterEncoding::parse("ks_c_5601-1989"), Ok(CharacterEncoding::EucKr));
    assert_eq!(CharacterEncoding::parse("ksc5601"), Ok(CharacterEncoding::EucKr));
    assert_eq!(CharacterEncoding::parse("ksc_5601"), Ok(CharacterEncoding::EucKr));
    assert_eq!(CharacterEncoding::parse("windows-949"), Ok(CharacterEncoding::EucKr));
    assert_eq!(CharacterEncoding::parse("csiso2022kr"), Ok(CharacterEncoding::Replacement));
    assert_eq!(CharacterEncoding::parse("hz-gb-2312"), Ok(CharacterEncoding::Replacement));
    assert_eq!(CharacterEncoding::parse("iso-2022-cn"), Ok(CharacterEncoding::Replacement));
    assert_eq!(CharacterEncoding::parse("iso-2022-cn-ext"), Ok(CharacterEncoding::Replacement));
    assert_eq!(CharacterEncoding::parse("iso-2022-kr"), Ok(CharacterEncoding::Replacement));
    assert_eq!(CharacterEncoding::parse("replacement"), Ok(CharacterEncoding::Replacement));
    assert_eq!(CharacterEncoding::parse("unicodefffe"), Ok(CharacterEncoding::Utf16BE));
    assert_eq!(CharacterEncoding::parse("utf-16be"), Ok(CharacterEncoding::Utf16BE));
    assert_eq!(CharacterEncoding::parse("csunicode"), Ok(CharacterEncoding::Utf16LE));
    assert_eq!(CharacterEncoding::parse("iso-10646-ucs-2"), Ok(CharacterEncoding::Utf16LE));
    assert_eq!(CharacterEncoding::parse("ucs-2"), Ok(CharacterEncoding::Utf16LE));
    assert_eq!(CharacterEncoding::parse("unicode"), Ok(CharacterEncoding::Utf16LE));
    assert_eq!(CharacterEncoding::parse("unicodefeff"), Ok(CharacterEncoding::Utf16LE));
    assert_eq!(CharacterEncoding::parse("utf-16"), Ok(CharacterEncoding::Utf16LE));
    assert_eq!(CharacterEncoding::parse("utf-16le"), Ok(CharacterEncoding::Utf16LE));
    assert_eq!(CharacterEncoding::parse("x-user-defined"), Ok(CharacterEncoding::XUserDefined));
}

#[test]
fn labels_resolve_case_insensitively() {
    assert_eq!(CharacterEncoding::parse("UNICODE-1-1-UTF-8"), Ok(CharacterEncoding::Utf8));
    assert_eq!(CharacterEncoding::parse("866"), Ok(CharacterEncoding::IBM866));
    assert_eq!(CharacterEncoding::parse("CSISOLATIN2"), Ok(CharacterEncoding::ISO8859_2));
    assert_eq!(CharacterEncoding::parse("CSISOLATIN3"), Ok(CharacterEncoding::ISO8859_3));
    assert_eq!(CharacterEncoding::parse("CSISOLATIN4"), Ok(CharacterEncoding::ISO8859_4));
    assert_eq!(CharacterEncoding::parse("CSISOLATINCYRILLIC"), Ok(CharacterEncoding::ISO8859_5));
    assert_eq!(CharacterEncoding::parse("ARABIC"), Ok(CharacterEncoding::ISO8859_6));
    assert_eq!(CharacterEncoding::parse("CSISOLATINGREEK"), Ok(CharacterEncoding::ISO8859_7));
    assert_eq!(CharacterEncoding::parse("CSISO88598E"), Ok(CharacterEncoding::ISO8859_8));
    assert_eq!(CharacterEncoding::parse("CSISO88598I"), Ok(CharacterEncoding::ISO8859_8I));
    assert_eq!(CharacterEncoding::parse("CSISOLATIN6"), Ok(CharacterEncoding::ISO8859_10));
    assert_eq!(CharacterEncoding::parse("ISO-8859-13"), Ok(CharacterEncoding::ISO8859_13));
    assert_eq!(CharacterEncoding::parse("ISO-8859-14"), Ok(CharacterEncoding::ISO8859_14));
    assert_eq!(CharacterEncoding::parse("CSISOLATIN9"), Ok(CharacterEncoding::ISO8859_15));
    assert_eq!(CharacterEncoding::parse("ISO-8859-16"), Ok(CharacterEncoding::ISO8859_16));
    assert_eq!(CharacterEncoding::parse("CSKOI8R"), Ok(CharacterEncoding::KOI8R));
    assert_eq!(CharacterEncoding::parse("KOI8-RU"), Ok(CharacterEncoding::KOI8U));
    assert_eq!(CharacterEncoding::parse("CSMACINTOSH"), Ok(CharacterEncoding::Macintosh));
    assert_eq!(CharacterEncoding::parse("DOS-874"), Ok(CharacterEncoding::Windows874));
    assert_eq!(CharacterEncoding::parse("CP1250"), Ok(CharacterEncoding::Windows1250));
    assert_eq!(CharacterEncoding::parse("CP1251"), Ok(CharacterEncoding::Windows1251));
    assert_eq!(CharacterEncoding::parse("ANSI_X3.4-1968"), Ok(CharacterEncoding::Windows1252));
    assert_eq!(CharacterEncoding::parse("CP1253"), Ok(CharacterEncoding::Windows1253));
    assert_eq!(CharacterEncoding::parse("CP1254"), Ok(CharacterEncoding::Windows1254));
    assert_eq!(CharacterEncoding::parse("CP1255"), Ok(CharacterEncoding::Windows1255));
    assert_eq!(CharacterEncoding::parse("CP1256"), Ok(CharacterEncoding::Windows1256));
    assert_eq!(CharacterEncoding::parse("CP1257"), Ok(CharacterEncoding::Windows1257));
    assert_eq!(CharacterEncoding::parse("CP1258"), Ok(CharacterEncoding::Windows1258));
    assert_eq!(CharacterEncoding::parse("X-MAC-CYRILLIC"), Ok(CharacterEncoding::XMacCyrillic));
    assert_eq!(CharacterEncoding::parse("CHINESE"), Ok(CharacterEncoding::GBK));
    assert_eq!(CharacterEncoding::parse("GB18030"), Ok(CharacterEncoding::GB18030));
    assert_eq!(CharacterEncoding::parse("BIG5"), Ok(CharacterEncoding::Big5));
    assert_eq!(CharacterEncoding::parse("CSEUCPKDFMTJAPANESE"), Ok(CharacterEncoding::EucJp));
    assert_eq!(CharacterEncoding::parse("CSISO2022JP"), Ok(CharacterEncoding::ISO2022Jp));
    assert_eq!(CharacterEncoding::parse("CSSHIFTJIS"), Ok(CharacterEncoding::ShiftJIS));
    assert_eq!(CharacterEncoding::parse("CSEUCKR"), Ok(CharacterEncoding::EucKr));
    assert_eq!(CharacterEncoding::parse("CSISO2022KR"), Ok(CharacterEncoding::Replacement));
    assert_eq!(CharacterEncoding::parse("UNICODEFFFE"), Ok(CharacterEncoding::Utf16BE));
    assert_eq!(CharacterEncoding::parse("CSUNICODE"), Ok(CharacterEncoding::Utf16LE));
    assert_eq!(CharacterEncoding::parse("X-USER-DEFINED"), Ok(CharacterEncoding::XUserDefined));
    assert_eq!(CharacterEncoding::parse("Utf-8"), Ok(CharacterEncoding::Utf8));
    assert_eq!(CharacterEncoding::parse("Shift_JIS"), Ok(CharacterEncoding::ShiftJIS));
}

#[test]
fn unknown_labels_are_rejected() {
    assert!(CharacterEncoding::parse("").is_err());
    assert!(CharacterEncoding::parse("utf-9").is_err());
    assert!(CharacterEncoding::parse(" utf-8").is_err());
    assert!(CharacterEncoding::parse("utf-8 ").is_err());
    assert!(CharacterEncoding::parse("unicode-utf8").is_err());
    assert!(CharacterEncoding::parse("latin-1").is_err());
    assert!(CharacterEncoding::parse("windows1252").is_err());
    assert!(CharacterEncoding::parse("x-mac-latin").is_err());
    assert!(CharacterEncoding::parse("charset").is_err());
    assert!(CharacterEncoding::parse("u t f 8").is_err());
}

#[test]
fn canonical_names_are_the_preferred_names() {
    assert_eq!(CharacterEncoding::Utf8.canonical_name(), "UTF-8");
    assert_eq!(CharacterEncoding::IBM866.canonical_name(), "IBM866");
    assert_eq!(CharacterEncoding::ISO8859_2.canonical_name(), "ISO-8859-2");
    assert_eq!(CharacterEncoding::ISO8859_3.canonical_name(), "ISO-8859-3");
    assert_eq!(CharacterEncoding::ISO8859_4.canonical_name(), "ISO-8859-4");
    assert_eq!(CharacterEncoding::ISO8859_5.canonical_name(), "ISO-8859-5");
    assert_eq!(CharacterEncoding::ISO8859_6.canonical_name(), "ISO-8859-6");
    assert_eq!(CharacterEncoding::ISO8859_7.canonical_name(), "ISO-8859-7");
    assert_eq!(CharacterEncoding::ISO8859_8.canonical_name(), "ISO-8859-8");
    assert_eq!(CharacterEncoding::ISO8859_8I.canonical_name(), "ISO-8859-8-I");
    assert_eq!(CharacterEncoding::ISO8859_10.canonical_name(), "ISO-8859-10");
    assert_eq!(CharacterEncoding::ISO8859_13.canonical_name(), "ISO-8859-13");
    assert_eq!(CharacterEncoding::ISO8859_14.canonical_name(), "ISO-8859-14");
    assert_eq!(CharacterEncoding::ISO8859_15.canonical_name(), "ISO-8859-15");
    assert_eq!(CharacterEncoding::ISO8859_16.canonical_name(), "ISO-8859-16");
    assert_eq!(CharacterEncoding::KOI8R.canonical_name(), "KOI8-R");
    assert_eq!(CharacterEncoding::KOI8U.canonical_name(), "KOI8-U");
    assert_eq!(CharacterEncoding::Macintosh.canonical_name(), "macintosh");
    assert_eq!(CharacterEncoding::Windows874.canonical_name(), "windows-874");
    assert_eq!(CharacterEncoding::Windows1250.canonical_name(), "windows-1250");
    assert_eq!(CharacterEncoding::Windows1251.canonical_name(), "windows-1251");
    assert_eq!(CharacterEncoding::Windows1252.canonical_name(), "windows-1252");
    assert_eq!(CharacterEncoding::Windows1253.canonical_name(), "windows-1253");
    assert_eq!(CharacterEncoding::Windows1254.canonical_name(), "windows-1254");
    assert_eq!(CharacterEncoding::Windows1255.canonical_name(), "windows-1255");
    assert_eq!(CharacterEncoding::Windows1256.canonical_name(), "windows-1256");
    assert_eq!(CharacterEncoding::Windows1257.canonical_name(), "windows-1257");
    assert_eq!(CharacterEncoding::Windows1258.canonical_name(), "windows-1258");
    assert_eq!(CharacterEncoding::XMacCyrillic.canonical_name(), "x-mac-cyrillic");
    assert_eq!(CharacterEncoding::GBK.canonical_name(), "GBK");
    assert_eq!(CharacterEncoding::GB18030.canonical_name(), "gb18030");
    assert_eq!(CharacterEncoding::Big5.canonical_name(), "Big5");
    assert_eq!(CharacterEncoding::EucJp.canonical_name(), "EUC-JP");
    assert_eq!(CharacterEncoding::ISO2022Jp.canonical_name(), "ISO-2022-JP");
    assert_eq!(CharacterEncoding::ShiftJIS.canonical_name(), "Shift_JIS");
    assert_eq!(CharacterEncoding::EucKr.canonical_name(), "EUC-KR");
    assert_eq!(CharacterEncoding::Replacement.canonical_name(), "replacement");
    assert_eq!(CharacterEncoding::Utf16BE.canonical_name(), "UTF-16BE");
    assert_eq!(CharacterEncoding::Utf16LE.canonical_name(), "UTF-16LE");
    assert_eq!(CharacterEncoding::XUserDefined.canonical_name(), "x-user-defined");
}

#[test]
fn canonical_names_round_trip_through_parse() {
    let all = [
        CharacterEncoding::Utf8,
        CharacterEncoding::IBM866,
        CharacterEncoding::ISO8859_2,
        CharacterEncoding::ISO8859_3,
        CharacterEncoding::ISO8859_4,
        CharacterEncoding::ISO8859_5,
        CharacterEncoding::ISO8859_6,
        CharacterEncoding::ISO8859_7,
        CharacterEncoding::ISO8859_8,
        CharacterEncoding::ISO8859_8I,
        CharacterEncoding::ISO8859_10,
        CharacterEncoding::ISO8859_13,
        CharacterEncoding::ISO8859_14,
        CharacterEncoding::ISO8859_15,
        CharacterEncoding::ISO8859_16,
        CharacterEncoding::KOI8R,
        CharacterEncoding::KOI8U,
        CharacterEncoding::Macintosh,
        CharacterEncoding::Windows874,
        CharacterEncoding::Windows1250,
        CharacterEncoding::Windows1251,
        CharacterEncoding::Windows1252,
        CharacterEncoding::Windows1253,
        CharacterEncoding::Windows1254,
        CharacterEncoding::Windows1255,
        CharacterEncoding::Windows1256,
        CharacterEncoding::Windows1257,
        CharacterEncoding::Windows1258,
        CharacterEncoding::XMacCyrillic,
        CharacterEncoding::GBK,
        CharacterEncoding::GB18030,
        CharacterEncoding::Big5,
        CharacterEncoding::EucJp,
        CharacterEncoding::ISO2022Jp,
        CharacterEncoding::ShiftJIS,
        CharacterEncoding::EucKr,
        CharacterEncoding::Replacement,
        CharacterEncoding::Utf16BE,
        CharacterEncoding::Utf16LE,
        CharacterEncoding::XUserDefined,
    ];
    for e in all {
        let name = e.canonical_name();
        assert_eq!(CharacterEncoding::parse(&name), Ok(e));
    }
}

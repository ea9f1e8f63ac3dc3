//! Specific Character Set handling: recognizing the (0008,0005) values
//! DICOM defines and decoding element text through the matching codec.

use vstd::prelude::*;

use encoding::Encoding;

verus! {

/// What encoding's US-ASCII codec decodes a byte string to: each byte
/// up to 0x7F is its own character, anything higher is replaced.
pub open spec fn ascii_decoded(b: Seq<u8>) -> Seq<char> {
    Seq::new(b.len(), |i: int| if b[i] <= 0x7F {
        b[i] as char
    } else {
        '\u{FFFD}'
    })
}

/// What encoding's ISO-8859-1 codec decodes a byte string to: every
/// byte is its own code point.
pub open spec fn latin1_decoded(b: Seq<u8>) -> Seq<char> {
    Seq::new(b.len(), |i: int| b[i] as char)
}

/// What encoding's ISO-8859-2 codec decodes a byte string to.
pub uninterp spec fn latin2_decoded(b: Seq<u8>) -> Seq<char>;

/// What encoding's ISO-8859-5 codec decodes a byte string to.
pub uninterp spec fn cyrillic_decoded(b: Seq<u8>) -> Seq<char>;

/// What encoding's UTF-8 codec decodes a byte string to.
pub uninterp spec fn utf8_decoded(b: Seq<u8>) -> Seq<char>;

/// What encoding's GB18030 codec decodes a byte string to.
pub uninterp spec fn gb18030_decoded(b: Seq<u8>) -> Seq<char>;

/// What encoding's windows-1252 codec decodes a byte string to.
pub uninterp spec fn windows1252_decoded(b: Seq<u8>) -> Seq<char>;

/// A character set the core recognizes. `Default` is the windows-1252
/// superset of US-ASCII used when no charset was named; an unrecognized
/// value also falls back to it, flagged as lossy.
#[derive(Clone, Copy, PartialEq, Eq, Structural, Debug)]
pub enum CharSet {
    Default,
    Ascii,
    Iso8859_1,
    Iso8859_2,
    Iso8859_5,
    Utf8,
    Gb18030,
}

/// The (0008,0005) value "ISO_IR 6".
pub open spec fn spec_iso_ir_6() -> Seq<u8> {
    seq![0x49u8, 0x53, 0x4f, 0x5f, 0x49, 0x52, 0x20, 0x36]
}

/// The (0008,0005) value "ISO 2022 IR 6".
pub open spec fn spec_iso_2022_ir_6() -> Seq<u8> {
    seq![0x49u8, 0x53, 0x4f, 0x20, 0x32, 0x30, 0x32, 0x32, 0x20, 0x49, 0x52, 0x20, 0x36]
}

/// The (0008,0005) value "ISO_IR 100".
pub open spec fn spec_iso_ir_100() -> Seq<u8> {
    seq![0x49u8, 0x53, 0x4f, 0x5f, 0x49, 0x52, 0x20, 0x31, 0x30, 0x30]
}

/// The (0008,0005) value "ISO 2022 IR 100".
pub open spec fn spec_iso_2022_ir_100() -> Seq<u8> {
    seq![
        0x49u8, 0x53, 0x4f, 0x20, 0x32, 0x30, 0x32, 0x32, 0x20, 0x49, 0x52, 0x20, 0x31, 0x30,
        0x30,
    ]
}

/// The (0008,0005) value "ISO_IR 101".
pub open spec fn spec_iso_ir_101() -> Seq<u8> {
    seq![0x49u8, 0x53, 0x4f, 0x5f, 0x49, 0x52, 0x20, 0x31, 0x30, 0x31]
}

/// The (0008,0005) value "ISO_IR 144".
pub open spec fn spec_iso_ir_144() -> Seq<u8> {
    seq![0x49u8, 0x53, 0x4f, 0x5f, 0x49, 0x52, 0x20, 0x31, 0x34, 0x34]
}

/// The (0008,0005) value "ISO_IR 192".
pub open spec fn spec_iso_ir_192() -> Seq<u8> {
    seq![0x49u8, 0x53, 0x4f, 0x5f, 0x49, 0x52, 0x20, 0x31, 0x39, 0x32]
}

/// The (0008,0005) value "GB18030".
pub open spec fn spec_gb18030() -> Seq<u8> {
    seq![0x47u8, 0x42, 0x31, 0x38, 0x30, 0x33, 0x30]
}

/// The charset a (0008,0005) value names, or `None` for one the core does
/// not recognize.
pub open spec fn spec_charset_from_value(v: Seq<u8>) -> Option<CharSet> {
    if v.len() == 0 || v == spec_iso_ir_6() || v == spec_iso_2022_ir_6() {
        Some(CharSet::Ascii)
    } else if v == spec_iso_ir_100() || v == spec_iso_2022_ir_100() {
        Some(CharSet::Iso8859_1)
    } else if v == spec_iso_ir_101() {
        Some(CharSet::Iso8859_2)
    } else if v == spec_iso_ir_144() {
        Some(CharSet::Iso8859_5)
    } else if v == spec_iso_ir_192() {
        Some(CharSet::Utf8)
    } else if v == spec_gb18030() {
        Some(CharSet::Gb18030)
    } else {
        None
    }
}

/// Looks up the charset named by a Specific Character Set value, with
/// surrounding whitespace already trimmed. An unrecognized value yields
/// `None`; per the failure rules the caller then keeps the default
/// charset and marks the text lossy.
pub fn charset_from_value(v: &[u8]) -> (r: Option<CharSet>)
    ensures
        r == spec_charset_from_value(v@),
{
    let iso_ir_6: Vec<u8> = vec![0x49u8, 0x53, 0x4f, 0x5f, 0x49, 0x52, 0x20, 0x36];
    let iso_2022_ir_6: Vec<u8> = vec![
        0x49u8, 0x53, 0x4f, 0x20, 0x32, 0x30, 0x32, 0x32, 0x20, 0x49, 0x52, 0x20, 0x36,
    ];
    let iso_ir_100: Vec<u8> = vec![0x49u8, 0x53, 0x4f, 0x5f, 0x49, 0x52, 0x20, 0x31, 0x30, 0x30];
    let iso_2022_ir_100: Vec<u8> = vec![
        0x49u8, 0x53, 0x4f, 0x20, 0x32, 0x30, 0x32, 0x32, 0x20, 0x49, 0x52, 0x20, 0x31, 0x30,
        0x30,
    ];
    let iso_ir_101: Vec<u8> = vec![0x49u8, 0x53, 0x4f, 0x5f, 0x49, 0x52, 0x20, 0x31, 0x30, 0x31];
    let iso_ir_144: Vec<u8> = vec![0x49u8, 0x53, 0x4f, 0x5f, 0x49, 0x52, 0x20, 0x31, 0x34, 0x34];
    let iso_ir_192: Vec<u8> = vec![0x49u8, 0x53, 0x4f, 0x5f, 0x49, 0x52, 0x20, 0x31, 0x39, 0x32];
    let gb18030: Vec<u8> = vec![0x47u8, 0x42, 0x31, 0x38, 0x30, 0x33, 0x30];
    proof {
        assert(iso_ir_6@ =~= spec_iso_ir_6());
        assert(iso_2022_ir_6@ =~= spec_iso_2022_ir_6());
        assert(iso_ir_100@ =~= spec_iso_ir_100());
        assert(iso_2022_ir_100@ =~= spec_iso_2022_ir_100());
        assert(iso_ir_101@ =~= spec_iso_ir_101());
        assert(iso_ir_144@ =~= spec_iso_ir_144());
        assert(iso_ir_192@ =~= spec_iso_ir_192());
        assert(gb18030@ =~= spec_gb18030());
    }
    if v.len() == 0 || crate::bytes::bytes_eq(v, iso_ir_6.as_slice()) || crate::bytes::bytes_eq(
        v,
        iso_2022_ir_6.as_slice(),
    ) {
        Some(CharSet::Ascii)
    } else if crate::bytes::bytes_eq(v, iso_ir_100.as_slice()) || crate::bytes::bytes_eq(
        v,
        iso_2022_ir_100.as_slice(),
    ) {
        Some(CharSet::Iso8859_1)
    } else if crate::bytes::bytes_eq(v, iso_ir_101.as_slice()) {
        Some(CharSet::Iso8859_2)
    } else if crate::bytes::bytes_eq(v, iso_ir_144.as_slice()) {
        Some(CharSet::Iso8859_5)
    } else if crate::bytes::bytes_eq(v, iso_ir_192.as_slice()) {
        Some(CharSet::Utf8)
    } else if crate::bytes::bytes_eq(v, gb18030.as_slice()) {
        Some(CharSet::Gb18030)
    } else {
        None
    }
}


/// Relies on encoding's ASCIIEncoding::decode with the replacement
/// trap, which always continues past errors, so the call never fails:
/// the result is a function of the bytes alone; no bytes give the
/// empty string.
#[verifier::external_body]
fn decode_ascii(b: &Vec<u8>) -> (r: Option<String>)
    ensures
        r is Some,
        r matches Some(s) ==> s@ == ascii_decoded(b@),
        b@.len() == 0 ==> (r matches Some(s) ==> s@.len() == 0),
{
    encoding::all::ASCII.decode(b.as_slice(), encoding::DecoderTrap::Replace).ok()
}

/// Relies on encoding's ISO-8859-1 codec's decode with the replacement
/// trap: the result is a function of the bytes alone.
#[verifier::external_body]
fn decode_latin1(b: &Vec<u8>) -> (r: Option<String>)
    ensures
        r is Some,
        r matches Some(s) ==> s@ == latin1_decoded(b@),
        b@.len() == 0 ==> (r matches Some(s) ==> s@.len() == 0),
{
    encoding::all::ISO_8859_1.decode(b.as_slice(), encoding::DecoderTrap::Replace).ok()
}

/// Relies on encoding's ISO-8859-2 codec's decode with the replacement
/// trap: the result is a function of the bytes alone.
#[verifier::external_body]
fn decode_latin2(b: &Vec<u8>) -> (r: Option<String>)
    ensures
        r is Some,
        r matches Some(s) ==> s@ == latin2_decoded(b@),
        b@.len() == 0 ==> (r matches Some(s) ==> s@.len() == 0),
{
    encoding::all::ISO_8859_2.decode(b.as_slice(), encoding::DecoderTrap::Replace).ok()
}

/// Relies on encoding's ISO-8859-5 codec's decode with the replacement
/// trap: the result is a function of the bytes alone.
#[verifier::external_body]
fn decode_cyrillic(b: &Vec<u8>) -> (r: Option<String>)
    ensures
        r is Some,
        r matches Some(s) ==> s@ == cyrillic_decoded(b@),
        b@.len() == 0 ==> (r matches Some(s) ==> s@.len() == 0),
{
    encoding::all::ISO_8859_5.decode(b.as_slice(), encoding::DecoderTrap::Replace).ok()
}

/// Relies on encoding's UTF8Encoding::decode with the replacement
/// trap: the result is a function of the bytes alone.
#[verifier::external_body]
fn decode_utf8(b: &Vec<u8>) -> (r: Option<String>)
    ensures
        r is Some,
        r matches Some(s) ==> s@ == utf8_decoded(b@),
        b@.len() == 0 ==> (r matches Some(s) ==> s@.len() == 0),
{
    encoding::all::UTF_8.decode(b.as_slice(), encoding::DecoderTrap::Replace).ok()
}

/// Relies on encoding's GB18030 codec's decode with the replacement
/// trap: the result is a function of the bytes alone.
#[verifier::external_body]
fn decode_gb18030(b: &Vec<u8>) -> (r: Option<String>)
    ensures
        r is Some,
        r matches Some(s) ==> s@ == gb18030_decoded(b@),
        b@.len() == 0 ==> (r matches Some(s) ==> s@.len() == 0),
{
    encoding::all::GB18030.decode(b.as_slice(), encoding::DecoderTrap::Replace).ok()
}

/// Relies on encoding's windows-1252 codec's decode with the
/// replacement trap: the result is a function of the bytes alone.
#[verifier::external_body]
fn decode_windows1252(b: &Vec<u8>) -> (r: Option<String>)
    ensures
        r is Some,
        r matches Some(s) ==> s@ == windows1252_decoded(b@),
        b@.len() == 0 ==> (r matches Some(s) ==> s@.len() == 0),
{
    encoding::all::WINDOWS_1252.decode(b.as_slice(), encoding::DecoderTrap::Replace).ok()
}

/// What decoding a byte string under a charset yields.
pub open spec fn spec_decoded(cs: CharSet, b: Seq<u8>) -> Seq<char> {
    match cs {
        CharSet::Default => windows1252_decoded(b),
        CharSet::Ascii => ascii_decoded(b),
        CharSet::Iso8859_1 => latin1_decoded(b),
        CharSet::Iso8859_2 => latin2_decoded(b),
        CharSet::Iso8859_5 => cyrillic_decoded(b),
        CharSet::Utf8 => utf8_decoded(b),
        CharSet::Gb18030 => gb18030_decoded(b),
    }
}

/// Decodes element text under the active charset: with the
/// replacement trap the codecs never fail, so the result is owed and
/// never lossy. (A lossy marking arises earlier, when an unrecognized
/// charset value falls back to the default.)
pub fn decode_text(cs: CharSet, b: &Vec<u8>) -> (r: (String, bool))
    ensures
        !r.1,
        r.0@ == spec_decoded(cs, b@),
{
    let decoded: Option<String> = match cs {
        CharSet::Default => decode_windows1252(b),
        CharSet::Ascii => decode_ascii(b),
        CharSet::Iso8859_1 => decode_latin1(b),
        CharSet::Iso8859_2 => decode_latin2(b),
        CharSet::Iso8859_5 => decode_cyrillic(b),
        CharSet::Utf8 => decode_utf8(b),
        CharSet::Gb18030 => decode_gb18030(b),
    };
    match decoded {
        Some(s) => (s, false),
        None => (String::new(), true),
    }
}

} // verus!

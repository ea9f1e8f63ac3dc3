//! Parsing behavior on literal byte layouts: the file-meta transition,
//! byte-exact re-emission, sequence and item structure, and the value
//! codecs.

use medicom::charset::{charset_from_value, decode_text, CharSet};
use medicom::element::{write_stream, DicomElement, ValueLength};
use medicom::parser::{ParseError, Parser};
use medicom::tree::DicomRoot;
use medicom::ts::{ts_from_uid, TransferSyntax};
use medicom::values::parse_ds_millis;
use medicom::vr::Vr;

/// One explicit-VR little-endian element with a short-form length.
fn elem_short(tag: u32, vr: &[u8; 2], value: &[u8]) -> Vec<u8> {
    let mut b = Vec::new();
    b.extend_from_slice(&((tag >> 16) as u16).to_le_bytes());
    b.extend_from_slice(&((tag & 0xFFFF) as u16).to_le_bytes());
    b.extend_from_slice(vr);
    b.extend_from_slice(&(value.len() as u16).to_le_bytes());
    b.extend_from_slice(value);
    b
}

/// One explicit-VR little-endian element with the padded long form.
fn elem_long(tag: u32, vr: &[u8; 2], value: &[u8]) -> Vec<u8> {
    let mut b = Vec::new();
    b.extend_from_slice(&((tag >> 16) as u16).to_le_bytes());
    b.extend_from_slice(&((tag & 0xFFFF) as u16).to_le_bytes());
    b.extend_from_slice(vr);
    b.extend_from_slice(&[0, 0]);
    b.extend_from_slice(&(value.len() as u32).to_le_bytes());
    b.extend_from_slice(value);
    b
}

/// A tag with a four-byte length and no VR, as delimiters are laid
/// out.
fn delim(tag: u32, len: u32) -> Vec<u8> {
    let mut b = Vec::new();
    b.extend_from_slice(&((tag >> 16) as u16).to_le_bytes());
    b.extend_from_slice(&((tag & 0xFFFF) as u16).to_le_bytes());
    b.extend_from_slice(&len.to_le_bytes());
    b
}

/// A standard file: zero preamble, "DICM", a file-meta group whose
/// group length says exactly how many bytes follow it, and a dataset
/// in explicit-VR little-endian holding PatientName "DOE^JOHN".
fn standard_file() -> Vec<u8> {
    let mut meta = Vec::new();
    meta.extend_from_slice(&elem_short(0x0002_0010, b"UI", b"1.2.840.10008.1.2.1\0"));
    // Pad the group to exactly 0xE2 bytes with one more UI element.
    let filler_len = 0xE2 - meta.len() - 8;
    let filler = vec![0x30u8; filler_len];
    meta.extend_from_slice(&elem_short(0x0002_0012, b"UI", &filler));
    assert_eq!(meta.len(), 0xE2);

    let mut file = vec![0u8; 128];
    file.extend_from_slice(b"DICM");
    file.extend_from_slice(&elem_short(0x0002_0000, b"UL", &0xE2u32.to_le_bytes()));
    file.extend_from_slice(&meta);
    file.extend_from_slice(&elem_short(0x0010_0010, b"PN", b"DOE^JOHN"));
    file
}

#[test]
fn file_meta_transition_and_patient_name() {
    let mut parser = Parser::new(standard_file());
    let elems = parser.read_all().unwrap();
    let pn = elems.iter().find(|e| e.tag == 0x0010_0010).unwrap();
    assert_eq!(pn.vr, Vr::PN);
    assert_eq!(pn.data, b"DOE^JOHN".to_vec());
    assert!(parser.standard_preamble);
    assert_eq!(parser.dataset_ts, TransferSyntax::ExplicitVrLe);
}

#[test]
fn reemitted_stream_is_byte_identical() {
    // Parsing and re-emitting under the same transfer syntax
    // reproduces the source bytes exactly, preamble and prefix
    // included.
    let file = standard_file();
    let mut parser = Parser::new(file.clone());
    let elems = parser.read_all().unwrap();
    let mut out = vec![0u8; 128];
    out.extend_from_slice(b"DICM");
    write_stream(&elems, &mut out);
    assert_eq!(out, file);

    // Reparsing the re-emitted bytes yields the same elements.
    let mut parser2 = Parser::new(out);
    let elems2 = parser2.read_all().unwrap();
    assert_eq!(elems.len(), elems2.len());
    for (a, b) in elems.iter().zip(elems2.iter()) {
        assert_eq!(a.tag, b.tag);
        assert_eq!(a.vr, b.vr);
        assert_eq!(a.data, b.data);
    }
}

/// A bare dataset with one undefined-length sequence holding one
/// undefined-length item with one short element.
fn sq_dataset() -> Vec<u8> {
    let mut b = Vec::new();
    b.extend_from_slice(&elem_long(0x0040_A730, b"SQ", &[]));
    {
        let last = b.len() - 4;
        b[last] = 0xFF;
        b[last + 1] = 0xFF;
        b[last + 2] = 0xFF;
        b[last + 3] = 0xFF;
    }
    b.extend_from_slice(&delim(0xFFFE_E000, 0xFFFF_FFFF));
    b.extend_from_slice(&elem_short(0x0008_0100, b"SH", b"CODE"));
    b.extend_from_slice(&delim(0xFFFE_E00D, 0));
    b.extend_from_slice(&delim(0xFFFE_E0DD, 0));
    b
}

#[test]
fn undefined_length_sequence_builds_one_item() {
    let mut parser = Parser::new_with_ts(sq_dataset(), TransferSyntax::ExplicitVrLe, false);
    let elems = parser.read_all().unwrap();
    let root = DicomRoot::build(TransferSyntax::ExplicitVrLe, CharSet::Default, elems);
    assert_eq!(root.children.len(), 1);
    let sq = &root.children[0];
    assert_eq!(sq.element.tag, 0x0040_A730);
    assert_eq!(sq.element.vr, Vr::SQ);
    assert_eq!(sq.items.len(), 1);
    let item = &sq.items[0];
    assert_eq!(item.children.len(), 1);
    let child = &item.children[0];
    assert_eq!(child.element.tag, 0x0008_0100);
    assert_eq!(child.element.data, b"CODE".to_vec());
}

#[test]
fn flatten_matches_parse_without_delimiters() {
    // Parse, build the tree, flatten: the elements come back in parse
    // order with the delimiters gone.
    let mut parser = Parser::new_with_ts(sq_dataset(), TransferSyntax::ExplicitVrLe, false);
    let elems = parser.read_all().unwrap();
    let expected: Vec<u32> = elems
        .iter()
        .filter(|e| e.tag != 0xFFFE_E00D && e.tag != 0xFFFE_E0DD)
        .map(|e| e.tag)
        .collect();
    let root = DicomRoot::build(TransferSyntax::ExplicitVrLe, CharSet::Default, elems);
    let flat = root.flatten();
    let got: Vec<u32> = flat.iter().map(|e| e.tag).collect();
    assert_eq!(got, expected);
    assert_eq!(got, vec![0x0040_A730, 0xFFFE_E000, 0x0008_0100]);
}

#[test]
fn defined_length_sequence_terminates_at_its_length() {
    // A sequence with a defined length: its one item carries its own
    // length and no delimiters appear; the element after the sequence
    // is read at the top level again.
    let inner = elem_short(0x0008_0100, b"SH", b"CODE");
    let mut item = delim(0xFFFE_E000, inner.len() as u32);
    item.extend_from_slice(&inner);
    let mut b = Vec::new();
    let mut sq_hdr = Vec::new();
    sq_hdr.extend_from_slice(&0x0040u16.to_le_bytes());
    sq_hdr.extend_from_slice(&0xA730u16.to_le_bytes());
    sq_hdr.extend_from_slice(b"SQ");
    sq_hdr.extend_from_slice(&[0, 0]);
    sq_hdr.extend_from_slice(&(item.len() as u32).to_le_bytes());
    b.extend_from_slice(&sq_hdr);
    b.extend_from_slice(&item);
    b.extend_from_slice(&elem_short(0x0010_0020, b"LO", b"42"));
    let mut parser = Parser::new_with_ts(b, TransferSyntax::ExplicitVrLe, false);
    let elems = parser.read_all().unwrap();
    let tags: Vec<u32> = elems.iter().map(|e| e.tag).collect();
    assert_eq!(tags, vec![0x0040_A730, 0xFFFE_E000, 0x0008_0100, 0x0010_0020]);
    assert_eq!(elems[3].sq_path.len(), 0);
}

#[test]
fn slice_description_gathers_attributes() {
    // Rows, columns, bit fields, padding, orientation and window
    // names all land in the slice description.
    let mut b = Vec::new();
    b.extend_from_slice(&elem_short(0x0028_0010, b"US", &2u16.to_le_bytes()));
    b.extend_from_slice(&elem_short(0x0028_0011, b"US", &3u16.to_le_bytes()));
    b.extend_from_slice(&elem_short(0x0028_0100, b"US", &16u16.to_le_bytes()));
    b.extend_from_slice(&elem_short(0x0028_0103, b"US", &1u16.to_le_bytes()));
    b.extend_from_slice(&elem_short(0x0028_0120, b"US", &0x0800u16.to_le_bytes()));
    b.extend_from_slice(&elem_short(0x0020_0037, b"DS", b"1\\0\\0\\0\\1\\0"));
    b.extend_from_slice(&elem_short(0x0028_1050, b"DS", b"40"));
    b.extend_from_slice(&elem_short(0x0028_1051, b"DS", b"80"));
    b.extend_from_slice(&elem_short(0x0028_1055, b"LO", b"SOFT P"));
    let mut parser = Parser::new_with_ts(b, TransferSyntax::ExplicitVrLe, false);
    let info = medicom::pdinfo::PixelDataSliceInfo::process_parser(&mut parser).unwrap();
    assert_eq!(info.rows, 2);
    assert_eq!(info.cols, 3);
    assert_eq!(info.bits_alloc, medicom::pixeldata::BitsAlloc::Sixteen);
    assert_eq!(info.pixel_rep, 1);
    assert_eq!(info.pixel_pad, Some(0x0800));
    assert_eq!(
        info.patient_orientation,
        vec![1_000i64, 0, 0, 0, 1_000, 0]
    );
    assert_eq!(info.win_levels.len(), 1);
    assert_eq!(info.win_levels[0].center, 40_000);
    assert_eq!(info.win_levels[0].width, 80_000);
    assert_eq!(info.win_levels[0].name, b"SOFT P".to_vec());
    assert!(!info.encapsulated);
}

#[test]
fn pixel_data_fragments_concatenate() {
    // Undefined-length PixelData: its items are fragments, each
    // carrying bytes; gathering the slice description concatenates
    // them in order.
    let mut b = Vec::new();
    b.extend_from_slice(&elem_long(0x7FE0_0010, b"OB", &[]));
    {
        let last = b.len() - 4;
        b[last] = 0xFF;
        b[last + 1] = 0xFF;
        b[last + 2] = 0xFF;
        b[last + 3] = 0xFF;
    }
    b.extend_from_slice(&delim(0xFFFE_E000, 2));
    b.extend_from_slice(&[0xAA, 0xBB]);
    b.extend_from_slice(&delim(0xFFFE_E000, 2));
    b.extend_from_slice(&[0xCC, 0xDD]);
    b.extend_from_slice(&delim(0xFFFE_E0DD, 0));
    let mut parser = Parser::new_with_ts(b, TransferSyntax::ExplicitVrLe, false);
    let info = medicom::pdinfo::PixelDataSliceInfo::process_parser(&mut parser).unwrap();
    assert_eq!(info.pd_bytes, vec![0xAA, 0xBB, 0xCC, 0xDD]);
    assert_eq!(info.vr, Vr::OB);
}

#[test]
fn unknown_explicit_vr_is_fatal() {
    let mut b = elem_short(0x0010_0010, b"PN", b"X ");
    b[4] = b'Q';
    b[5] = b'Q';
    let mut parser = Parser::new_with_ts(b, TransferSyntax::ExplicitVrLe, false);
    match parser.read_all() {
        Err(ParseError::UnknownExplicitVr(code)) => {
            assert_eq!(code, (b'Q' as u16) << 8 | b'Q' as u16);
        }
        other => panic!("expected an unknown-VR failure, got {:?}", other.map(|v| v.len())),
    }
    // The stream is permanently ended after the error.
    assert!(parser.next_element().unwrap().is_none());
}

#[test]
fn command_group_tag_rejected_outside_command_sets() {
    let b = elem_short(0x0000_0100, b"US", &[0x30, 0x00]);
    let mut parser = Parser::new_with_ts(b.clone(), TransferSyntax::ExplicitVrLe, false);
    assert_eq!(parser.read_all().unwrap_err(), ParseError::InvalidCommandTag(0x0000_0100));
    let mut parser = Parser::new_with_ts(b, TransferSyntax::ExplicitVrLe, true);
    assert_eq!(parser.read_all().unwrap().len(), 1);
}

#[test]
fn truncated_element_is_unexpected_eof() {
    let mut b = elem_short(0x0010_0010, b"PN", b"DOE^JOHN");
    b.truncate(b.len() - 3);
    let mut parser = Parser::new_with_ts(b, TransferSyntax::ExplicitVrLe, false);
    assert_eq!(parser.read_all().unwrap_err(), ParseError::UnexpectedEof);
}

#[test]
fn nonzero_reserved_bytes_are_rejected() {
    let mut b = elem_long(0x7FE0_0010, b"OB", &[1, 2]);
    b[6] = 0x55;
    let mut parser = Parser::new_with_ts(b, TransferSyntax::ExplicitVrLe, false);
    assert_eq!(parser.read_all().unwrap_err(), ParseError::NonzeroReservedBytes);
}

#[test]
fn stray_delimiters_are_rejected() {
    let b = delim(0xFFFE_E0DD, 0);
    let mut parser = Parser::new_with_ts(b, TransferSyntax::ExplicitVrLe, false);
    assert_eq!(
        parser.read_all().unwrap_err(),
        ParseError::UnexpectedDelimiter(0xFFFE_E0DD)
    );
}

#[test]
fn undefined_length_fragment_is_rejected() {
    // Inside undefined-length PixelData, a fragment item must state
    // its length.
    let mut b = Vec::new();
    b.extend_from_slice(&elem_long(0x7FE0_0010, b"OB", &[]));
    {
        let last = b.len() - 4;
        b[last] = 0xFF;
        b[last + 1] = 0xFF;
        b[last + 2] = 0xFF;
        b[last + 3] = 0xFF;
    }
    b.extend_from_slice(&delim(0xFFFE_E000, 0xFFFF_FFFF));
    let mut parser = Parser::new_with_ts(b, TransferSyntax::ExplicitVrLe, false);
    assert_eq!(
        parser.read_all().unwrap_err(),
        ParseError::InvalidValueLength(0xFFFF_FFFF)
    );
}

#[test]
fn nonzero_preamble_is_accepted() {
    let mut file = vec![0xFFu8; 128];
    file.extend_from_slice(b"DICM");
    file.extend_from_slice(&elem_short(0x0010_0010, b"PN", b"DOE^JOHN"));
    let mut parser = Parser::new(file);
    let elems = parser.read_all().unwrap();
    assert_eq!(elems.len(), 1);
    assert!(parser.standard_preamble);
}

#[test]
fn transfer_syntax_lookup() {
    assert_eq!(ts_from_uid(b"1.2.840.10008.1.2"), Some(TransferSyntax::ImplicitVrLe));
    assert_eq!(ts_from_uid(b"1.2.840.10008.1.2.1"), Some(TransferSyntax::ExplicitVrLe));
    assert_eq!(ts_from_uid(b"1.2.840.10008.1.2.2"), Some(TransferSyntax::ExplicitVrBe));
    assert_eq!(
        ts_from_uid(b"1.2.840.10008.1.2.4.50"),
        Some(TransferSyntax::Encapsulated)
    );
    assert_eq!(ts_from_uid(b"1.2.840.10008.1.2.5"), Some(TransferSyntax::Encapsulated));
    assert_eq!(ts_from_uid(b"1.2.3"), None);
    assert!(TransferSyntax::Encapsulated.encapsulated());
    assert!(!TransferSyntax::ImplicitVrLe.explicit_vr());
    assert!(TransferSyntax::ExplicitVrBe.big_endian());
}

#[test]
fn big_endian_elements_round_trip() {
    // An implicit big-endian element written by the library reads back
    // identically.
    let e = DicomElement {
        tag: 0x0028_0010,
        vr: Vr::US,
        vl: ValueLength::Explicit(2),
        data: vec![0x00, 0x02],
        sq_path: Vec::new(),
        explicit_vr: false,
        big_endian: true,
        cs: CharSet::Default,
        lossy: false,
    };
    let mut bytes = Vec::new();
    medicom::element::write_element(&e, &mut bytes);
    assert_eq!(bytes[..4], [0x00, 0x28, 0x00, 0x10]);
    assert_eq!(bytes[4..8], [0x00, 0x00, 0x00, 0x02]);
}

#[test]
fn decimal_strings_parse_to_thousandths() {
    assert_eq!(parse_ds_millis(b"12.5"), Some(12_500));
    assert_eq!(parse_ds_millis(b"-0.001"), Some(-1));
    assert_eq!(parse_ds_millis(b"+3"), Some(3_000));
    assert_eq!(parse_ds_millis(b"0.0001"), Some(0));
    assert_eq!(parse_ds_millis(b"1e3"), None);
    assert_eq!(parse_ds_millis(b""), None);
    assert_eq!(parse_ds_millis(b"1.2.3"), None);
}

#[test]
fn charset_values_resolve_and_decode() {
    assert_eq!(charset_from_value(b"ISO_IR 100"), Some(CharSet::Iso8859_1));
    assert_eq!(charset_from_value(b"ISO_IR 192"), Some(CharSet::Utf8));
    assert_eq!(charset_from_value(b""), Some(CharSet::Ascii));
    assert_eq!(charset_from_value(b"KOI-8"), None);

    // 0xE9 is e-acute in ISO-8859-1; the codec must transform, not
    // hand bytes back.
    let (s, lossy) = decode_text(CharSet::Iso8859_1, &vec![0x41, 0xE9]);
    assert!(!lossy);
    assert_eq!(s, "A\u{e9}");
    let (s, lossy) = decode_text(CharSet::Utf8, &vec![0xC3, 0xA9]);
    assert!(!lossy);
    assert_eq!(s, "\u{e9}");
    let (s, lossy) = decode_text(CharSet::Ascii, &vec![0x41, 0x42]);
    assert!(!lossy);
    assert_eq!(s, "AB");
    // A non-ASCII byte under the ASCII codec becomes the replacement
    // character; under Latin-1 every byte is its own code point.
    let (s, _) = decode_text(CharSet::Ascii, &vec![0x41, 0x80]);
    assert_eq!(s, "A\u{fffd}");
    let (s, _) = decode_text(CharSet::Iso8859_1, &vec![0xFF]);
    assert_eq!(s, "\u{ff}");
}

#[test]
fn vr_codes_round_trip() {
    assert_eq!(Vr::from_code(0x4F42), Some(Vr::OB));
    assert_eq!(Vr::OB.code(), 0x4F42);
    assert_eq!(Vr::from_code(0x5151), None);
    assert!(Vr::SQ.has_explicit_2byte_pad());
    assert!(!Vr::US.has_explicit_2byte_pad());
    assert!(Vr::PN.is_character_string());
    assert_eq!(Vr::PN.padding(), 0x20);
    assert_eq!(Vr::UI.padding(), 0x00);
}

#[test]
fn repeated_tag_lookup_sees_the_last_occurrence() {
    let mut b = Vec::new();
    b.extend_from_slice(&elem_short(0x0008_103E, b"LO", b"FIRST "));
    b.extend_from_slice(&elem_short(0x0008_103E, b"LO", b"SECOND"));
    let mut parser = Parser::new_with_ts(b, TransferSyntax::ExplicitVrLe, false);
    let elems = parser.read_all().unwrap();
    let root = DicomRoot::build(TransferSyntax::ExplicitVrLe, CharSet::Default, elems);
    assert_eq!(root.children.len(), 2);
    let text = root.get_text_by_tag(0x0008_103E).unwrap();
    assert_eq!(text, b"SECOND".to_vec());
}

//! The streaming element parser: a lazy, non-restartable, finite sequence
//! of elements read byte-exactly from an in-memory dataset, threading the
//! transfer-syntax and charset state the stream itself establishes.

use vstd::prelude::*;

use crate::bytes::{
    copy_range, lemma_byte_pair_split, lemma_tag_split, lemma_u16_bytes_extract,
    lemma_u32_bytes_extract, read_u16, read_u32, u16_at, u16_bytes, u32_at, u32_bytes,
};
use crate::charset::CharSet;
use crate::charset::charset_from_value;
use crate::element::{
    lemma_stream_bytes_push, spec_elem_wire_bytes, spec_header_bytes, spec_header_bytes_parts,
    spec_stream_bytes, spec_vl_from_wire, spec_vl_wire, trim_trailing, DicomElement, TagNode,
    ValueLength,
};
use crate::ts::{ts_from_uid, TransferSyntax};
use crate::tags;
use crate::vr::{spec_has_explicit_2byte_pad, spec_vr_code, spec_vr_from_code, Vr};

verus! {

/// The errors a parse can surface. Exhaustion at an element boundary is
/// not an error: the stream simply ends.
#[derive(Clone, Copy, PartialEq, Eq, Structural, Debug)]
pub enum ParseError {
    /// The source ended mid-element.
    UnexpectedEof,
    /// An explicit VR code not defined by DICOM.
    UnknownExplicitVr(u16),
    /// A command-group tag in a dataset context.
    InvalidCommandTag(u32),
    /// A value length that the surrounding structure forbids, such as an
    /// undefined-length pixel-data fragment.
    InvalidValueLength(u32),
    /// A delimiter tag with no open sequence or item to terminate.
    UnexpectedDelimiter(u32),
    /// Nonzero bytes where the explicit VR form demands two reserved
    /// zero bytes.
    NonzeroReservedBytes,
}

/// Reads the element header that starts at `pos`: the tag, then the VR
/// and value length in the form the transfer syntax prescribes. The
/// header's re-encoding is exactly the bytes consumed.
#[verifier::rlimit(100)]
#[verifier::spinoff_prover]
fn read_header_at(b: &Vec<u8>, pos: usize, explicit_vr: bool, big_endian: bool) -> (r: Result<
    (u32, Vr, ValueLength, usize),
    ParseError,
>)
    requires
        pos < b@.len(),
    ensures
        match r {
            Ok((tag, vr, vl, hdr_end)) => {
                &&& pos < hdr_end <= b@.len()
                &&& spec_header_bytes_parts(tag, vr, vl, explicit_vr, big_endian) == b@.subrange(
                    pos as int,
                    hdr_end as int,
                )
            },
            Err(_) => true,
        },
        match spec_read_header(b@, pos as int, explicit_vr, big_endian) {
            Ok((tag, vr, vl, hdr_end)) => (r matches Ok(h) && h.0 == tag && h.1 == vr && h.2 == vl
                && h.3 as int == hdr_end),
            Err(e) => r == Result::<(u32, Vr, ValueLength, usize), ParseError>::Err(e),
        },
{
    let n: usize = b.len();
    if n - pos < 8 {
        return Err(ParseError::UnexpectedEof);
    }
    let group: u16 = read_u16(b, pos, big_endian);
    let elem_no: u16 = read_u16(b, pos + 2, big_endian);
    let tag: u32 = (group as u32) * 0x1_0000 + (elem_no as u32);
    proof {
        lemma_tag_split(group as int, elem_no as int);
        lemma_u16_bytes_extract(b@, pos as int, big_endian);
        lemma_u16_bytes_extract(b@, pos + 2, big_endian);
    }

    if tags::is_delimiter(tag) || !explicit_vr {
        // Delimiters never carry a VR; the implicit form looks the VR up
        // in the dictionary. Either way a four-byte length follows.
        let vl_w: u32 = read_u32(b, pos + 4, big_endian);
        proof {
            lemma_u32_bytes_extract(b@, pos + 4, big_endian);
        }
        let vl = ValueLength::from_wire(vl_w);
        let vr = if tags::is_delimiter(tag) {
            Vr::UN
        } else {
            tags::implicit_vr_of(tag)
        };
        proof {
            assert(b@.subrange(pos as int, pos + 8) =~= b@.subrange(pos as int, pos + 2)
                + b@.subrange(pos + 2, pos + 4) + b@.subrange(pos + 4, pos + 8));
        }
        return Ok((tag, vr, vl, pos + 8));
    }

    let code: u16 = (b[pos + 4] as u16) * 0x100 + (b[pos + 5] as u16);
    proof {
        lemma_byte_pair_split(b@[pos + 4] as int, b@[pos + 5] as int);
    }
    let vr: Vr = match Vr::from_code(code) {
        Some(found) => found,
        None => {
            return Err(ParseError::UnknownExplicitVr(code));
        },
    };
    if vr.has_explicit_2byte_pad() {
        if n - pos < 12 {
            return Err(ParseError::UnexpectedEof);
        }
        if b[pos + 6] != 0 || b[pos + 7] != 0 {
            return Err(ParseError::NonzeroReservedBytes);
        }
        let vl_w: u32 = read_u32(b, pos + 8, big_endian);
        proof {
            lemma_u32_bytes_extract(b@, pos + 8, big_endian);
        }
        let vl = ValueLength::from_wire(vl_w);
        proof {
            assert(seq![(spec_vr_code(vr) / 0x100) as u8, (spec_vr_code(vr) % 0x100) as u8]
                =~= b@.subrange(pos + 4, pos + 6));
            assert(seq![0u8, 0u8] =~= b@.subrange(pos + 6, pos + 8));
            assert(b@.subrange(pos as int, pos + 12) =~= b@.subrange(pos as int, pos + 2)
                + b@.subrange(pos + 2, pos + 4) + b@.subrange(pos + 4, pos + 6) + b@.subrange(
                pos + 6,
                pos + 8,
            ) + b@.subrange(pos + 8, pos + 12));
            assert(u16_bytes((tag / 0x1_0000) as int, big_endian) == b@.subrange(
                pos as int,
                pos + 2,
            ));
            assert(u16_bytes((tag % 0x1_0000) as int, big_endian) == b@.subrange(
                pos + 2,
                pos + 4,
            ));
            assert(u32_bytes(spec_vl_wire(vl) as int, big_endian) == b@.subrange(
                pos + 8,
                pos + 12,
            ));
            assert(spec_header_bytes_parts(tag, vr, vl, explicit_vr, big_endian) == b@.subrange(
                pos as int,
                pos + 12,
            ));
        }
        Ok((tag, vr, vl, pos + 12))
    } else {
        let vl_w: u16 = read_u16(b, pos + 6, big_endian);
        proof {
            lemma_u16_bytes_extract(b@, pos + 6, big_endian);
        }
        let vl = ValueLength::Explicit(vl_w as u32);
        proof {
            assert(seq![(spec_vr_code(vr) / 0x100) as u8, (spec_vr_code(vr) % 0x100) as u8]
                =~= b@.subrange(pos + 4, pos + 6));
            assert(b@.subrange(pos as int, pos + 8) =~= b@.subrange(pos as int, pos + 2)
                + b@.subrange(pos + 2, pos + 4) + b@.subrange(pos + 4, pos + 6) + b@.subrange(
                pos + 6,
                pos + 8,
            ));
            assert(u16_bytes((tag / 0x1_0000) as int, big_endian) == b@.subrange(
                pos as int,
                pos + 2,
            ));
            assert(u16_bytes((tag % 0x1_0000) as int, big_endian) == b@.subrange(
                pos + 2,
                pos + 4,
            ));
            assert(u16_bytes(spec_vl_wire(vl) as int % 0x1_0000, big_endian) == b@.subrange(
                pos + 6,
                pos + 8,
            ));
            assert(spec_header_bytes_parts(tag, vr, vl, explicit_vr, big_endian) == b@.subrange(
                pos as int,
                pos + 8,
            ));
        }
        Ok((tag, vr, vl, pos + 8))
    }
}

/// Whether an element read with these fields carries its value bytes
/// inline. A sequence, an undefined-length element, or an item outside
/// pixel data holds no bytes of its own: its contents follow as further
/// elements.
pub open spec fn spec_carries_data(tag: u32, vr: Vr, vl: ValueLength, in_pixel_frame: bool) -> bool {
    if tag == tags::ITEM {
        in_pixel_frame
    } else if tags::spec_is_delimiter(tag) {
        false
    } else {
        vr != Vr::SQ && vl != ValueLength::Undefined
    }
}


/// What `read_header_at` returns for a window of the stream: the parsed
/// header fields and the position one past the header, or the exact
/// error. This is the forward statement of the header grammar; the
/// reader is proved to agree with it on every input.
pub open spec fn spec_read_header(b: Seq<u8>, pos: int, explicit_vr: bool, big_endian: bool)
    -> Result<(u32, Vr, ValueLength, int), ParseError> {
    if b.len() - pos < 8 {
        Err(ParseError::UnexpectedEof)
    } else {
        let tag = (u16_at(b, pos, big_endian) * 0x1_0000 + u16_at(b, pos + 2, big_endian)) as u32;
        if tags::spec_is_delimiter(tag) || !explicit_vr {
            let vl = spec_vl_from_wire(u32_at(b, pos + 4, big_endian) as u32);
            let vr = if tags::spec_is_delimiter(tag) {
                Vr::UN
            } else {
                tags::spec_implicit_vr_of(tag)
            };
            Ok((tag, vr, vl, pos + 8))
        } else {
            let code = b[pos + 4] as int * 0x100 + b[pos + 5] as int;
            match spec_vr_from_code(code) {
                None => Err(ParseError::UnknownExplicitVr(code as u16)),
                Some(vr) => if spec_has_explicit_2byte_pad(vr) {
                    if b.len() - pos < 12 {
                        Err(ParseError::UnexpectedEof)
                    } else if b[pos + 6] != 0 || b[pos + 7] != 0 {
                        Err(ParseError::NonzeroReservedBytes)
                    } else {
                        Ok((tag, vr, spec_vl_from_wire(u32_at(b, pos + 8, big_endian) as u32), pos
                            + 12))
                    }
                } else {
                    Ok((tag, vr, ValueLength::Explicit(u16_at(b, pos + 6, big_endian) as u32), pos
                        + 8))
                },
            }
        }
    }
}

/// What `read_element_at` returns: the element's header fields, the
/// bounds of its value bytes, and the position one past the element, or
/// the exact error.
#[verifier::opaque]
pub open spec fn spec_read_element(
    b: Seq<u8>,
    pos: int,
    explicit_vr: bool,
    big_endian: bool,
    in_pixel_frame: bool,
    allow_command_group: bool,
) -> Result<(u32, Vr, ValueLength, int, int), ParseError> {
    match spec_read_header(b, pos, explicit_vr, big_endian) {
        Err(e) => Err(e),
        Ok((tag, vr, vl, hdr_end)) => if tag / 0x1_0000 == 0 && !allow_command_group {
            Err(ParseError::InvalidCommandTag(tag))
        } else if tag == tags::ITEM && in_pixel_frame && vl is Undefined {
            Err(ParseError::InvalidValueLength(0xFFFF_FFFF))
        } else if spec_carries_data(tag, vr, vl, in_pixel_frame) {
            let len = spec_vl_wire(vl) as int;
            if len > b.len() - hdr_end {
                Err(ParseError::UnexpectedEof)
            } else {
                Ok((tag, vr, vl, hdr_end, hdr_end + len))
            }
        } else {
            Ok((tag, vr, vl, hdr_end, hdr_end))
        },
    }
}

/// Reads the single element that starts at `pos`, under the given
/// encoding state. The element's wire bytes are exactly the bytes
/// consumed, which is what makes byte-exact re-emission possible.
#[verifier::rlimit(40)]
pub fn read_element_at(
    b: &Vec<u8>,
    pos: usize,
    explicit_vr: bool,
    big_endian: bool,
    in_pixel_frame: bool,
    allow_command_group: bool,
    sq_path: Vec<TagNode>,
    cs: CharSet,
) -> (r: Result<(DicomElement, usize), ParseError>)
    requires
        pos < b@.len(),
    ensures
        match r {
            Ok((e, np)) => {
                &&& pos < np <= b@.len()
                &&& spec_elem_wire_bytes(e) == b@.subrange(pos as int, np as int)
                &&& e.explicit_vr == explicit_vr
                &&& e.big_endian == big_endian
                &&& e.sq_path@ == sq_path@
                &&& e.cs == cs
                &&& e.data@.len() == 0 || spec_carries_data(e.tag, e.vr, e.vl, in_pixel_frame)
            },
            Err(_) => true,
        },
        match spec_read_element(b@, pos as int, explicit_vr, big_endian, in_pixel_frame,
            allow_command_group) {
            Ok((tag, vr, vl, data_lo, np2)) => (r matches Ok(p) && p.0.tag == tag && p.0.vr == vr
                && p.0.vl == vl && p.1 as int == np2 && p.0.data@ == b@.subrange(data_lo, np2)),
            Err(e) => r == Result::<(DicomElement, usize), ParseError>::Err(e),
        },
{
    proof {
        reveal(spec_read_element);
    }
    let (tag, vr, vl, hdr_end) = match read_header_at(b, pos, explicit_vr, big_endian) {
        Ok(h) => h,
        Err(e) => {
            return Err(e);
        },
    };
    let n: usize = b.len();

    if tag / 0x1_0000 == 0 && !allow_command_group {
        return Err(ParseError::InvalidCommandTag(tag));
    }
    if tag == tags::ITEM && in_pixel_frame && matches!(vl, ValueLength::Undefined) {
        // A pixel-data fragment must state its length.
        return Err(ParseError::InvalidValueLength(0xFFFF_FFFF));
    }

    let carries: bool = if tag == tags::ITEM {
        in_pixel_frame
    } else if tags::is_delimiter(tag) {
        false
    } else {
        !matches!(vr, Vr::SQ) && !matches!(vl, ValueLength::Undefined)
    };

    let mut data: Vec<u8> = Vec::new();
    let mut np: usize = hdr_end;
    if carries {
        let len: u32 = match vl {
            ValueLength::Explicit(l) => l,
            ValueLength::Undefined => 0,
        };
        let len: usize = len as usize;
        if len > n - hdr_end {
            return Err(ParseError::UnexpectedEof);
        }
        data = copy_range(b, hdr_end, hdr_end + len);
        np = hdr_end + len;
    }
    let e = DicomElement {
        tag,
        vr,
        vl,
        data,
        sq_path,
        explicit_vr,
        big_endian,
        cs,
        lossy: false,
    };
    proof {
        assert(spec_header_bytes(e) == b@.subrange(pos as int, hdr_end as int));
        assert(b@.subrange(pos as int, np as int) =~= b@.subrange(pos as int, hdr_end as int)
            + b@.subrange(hdr_end as int, np as int));
    }
    Ok((e, np))
}

/// Whether `err` is a fault the stream can actually show at `pos` when
/// read under this encoding state: either the element read itself fails
/// with `err`, or the element is a delimiter with nothing open to
/// terminate, or its stated extent runs past the end of the stream.
pub open spec fn spec_parse_step_err(
    b: Seq<u8>,
    pos: int,
    explicit_vr: bool,
    big_endian: bool,
    in_pixel_frame: bool,
    allow_command_group: bool,
    err: ParseError,
) -> bool {
    match spec_read_element(b, pos, explicit_vr, big_endian, in_pixel_frame, allow_command_group) {
        Err(e) => e == err,
        Ok((tag, vr, vl, data_lo, np)) => {
            ||| (err == ParseError::UnexpectedDelimiter(tag) && tags::spec_is_delimiter(tag))
            ||| (err is UnexpectedEof && (vl matches ValueLength::Explicit(l) && np + l
                > b.len()))
        },
    }
}

/// Whether `err` has a genuine cause in the parser's stream at its
/// current position, under its current transfer syntax. This ties every
/// reported error to bytes that exhibit it: an implementation could not
/// simply refuse a well-formed stream.
pub open spec fn spec_parse_err_cause(p: Parser, err: ParseError) -> bool {
    let b = p.bytes@;
    let pos = p.pos as int;
    let explicit_vr = p.ts != TransferSyntax::ImplicitVrLe;
    let big_endian = p.ts == TransferSyntax::ExplicitVrBe;
    pos < b.len() && {
        ||| spec_parse_step_err(b, pos, explicit_vr, big_endian, true, p.allow_command_group, err)
        ||| spec_parse_step_err(b, pos, explicit_vr, big_endian, false, p.allow_command_group, err)
    }
}

/// One open sequence or item while parsing: where it ends (or that only
/// a delimiter ends it), and the charset to restore when it closes.
#[derive(Clone, Copy, PartialEq, Eq, Structural, Debug)]
pub struct SqFrame {
    /// The sequence tag and the 1-based number of its current item; 0
    /// before the first item.
    pub node: TagNode,
    /// One past the last byte of this sequence or item; `usize::MAX`
    /// while the length is undefined and a delimiter must end it.
    pub end_pos: usize,
    /// Whether this frame is an item rather than a sequence.
    pub is_item: bool,
    /// The charset active outside this frame.
    pub parent_cs: CharSet,
}

/// Copies a sequence path.
fn clone_nodes(v: &Vec<TagNode>) -> (r: Vec<TagNode>)
    ensures
        r@ == v@,
{
    let mut r: Vec<TagNode> = Vec::new();
    let n: usize = v.len();
    let mut i: usize = 0;
    while i < n
        invariant
            0 <= i <= n,
            n == v@.len(),
            r@ == v@.subrange(0, i as int),
        decreases n - i,
    {
        r.push(v[i]);
        i += 1;
        assert(r@ =~= v@.subrange(0, i as int));
    }
    assert(v@.subrange(0, n as int) =~= v@);
    r
}

/// The streaming parser: consumes an in-memory byte source and produces
/// a lazy, non-restartable, finite sequence of elements. After the first
/// error the stream is permanently ended.
pub struct Parser {
    /// The whole source.
    pub bytes: Vec<u8>,
    /// The current read position; monotonic, the parser never seeks
    /// backward.
    pub pos: usize,
    /// Where the element stream begins: after the 128-byte preamble and
    /// "DICM" prefix when present, else 0.
    pub body_start: usize,
    /// Whether the preamble and "DICM" prefix were present.
    pub standard_preamble: bool,
    /// The transfer syntax governing the current read: explicit-VR
    /// little-endian throughout the file-meta group.
    pub ts: TransferSyntax,
    /// The transfer syntax the dataset is in, from (0002,0010).
    pub dataset_ts: TransferSyntax,
    /// Whether (0002,0010) named a syntax the core does not recognize;
    /// parsing then keeps the explicit-VR little-endian default.
    pub ts_unknown: bool,
    /// The active Specific Character Set.
    pub cs: CharSet,
    /// Whether an unrecognized charset value forced the default.
    pub cs_lossy: bool,
    /// The open sequences and items, innermost last.
    pub frames: Vec<SqFrame>,
    /// The sequence path for emitted elements: one node per open
    /// sequence.
    pub path: Vec<TagNode>,
    /// Whether the parse is still inside the file-meta group.
    pub in_file_meta: bool,
    /// One past the last byte of the file-meta group, from (0002,0000);
    /// `usize::MAX` until that element is seen.
    pub fm_end: usize,
    /// Once set, every further pull yields "end".
    pub iterator_ended: bool,
    /// The error that ended the stream, if one did: the position and
    /// sequence path above keep their values at the failure, as the
    /// parse's diagnostic context.
    pub error: Option<ParseError>,
    /// Whether command-group tags (group 0x0000) are legal, as they are
    /// only in DIMSE command streams.
    pub allow_command_group: bool,
    /// The elements emitted so far, for reasoning only.
    pub emitted: Ghost<Seq<DicomElement>>,
}

impl Parser {
    /// The parser's structural invariant: the wire bytes of everything
    /// emitted are exactly the source bytes between the body start and
    /// the current position.
    pub open spec fn wf(self) -> bool {
        &&& self.body_start <= self.pos <= self.bytes@.len()
        &&& spec_stream_bytes(self.emitted@) == self.bytes@.subrange(
            self.body_start as int,
            self.pos as int,
        )
        &&& self.error is Some ==> self.iterator_ended
    }

    /// Builds a parser over a standard DICOM stream: a 128-byte preamble
    /// and "DICM" prefix if present (the preamble need not be zero), then
    /// the file-meta group in explicit-VR little-endian, then the dataset
    /// in the transfer syntax (0002,0010) names. A stream without the
    /// prefix is treated as a bare dataset from offset 0; without a
    /// file-meta group it is read in explicit-VR little-endian.
    pub fn new(bytes: Vec<u8>) -> (p: Parser)
        ensures
            p.wf(),
            p.emitted@ == Seq::<DicomElement>::empty(),
            p.bytes@ == bytes@,
            p.error is None,
            !p.iterator_ended,
    {
        Parser::new_with_ts(bytes, TransferSyntax::ExplicitVrLe, false)
    }

    /// Builds a parser with a chosen dataset transfer syntax, used for
    /// bare datasets and for DIMSE command sets (which are always
    /// implicit-VR little-endian and may carry command-group tags).
    pub fn new_with_ts(bytes: Vec<u8>, default_ts: TransferSyntax, allow_command_group: bool) -> (p:
        Parser)
        ensures
            p.wf(),
            p.emitted@ == Seq::<DicomElement>::empty(),
            p.bytes@ == bytes@,
            p.error is None,
            !p.iterator_ended,
    {
        let n: usize = bytes.len();
        let mut pos: usize = 0;
        let mut standard: bool = false;
        if n >= 132 && bytes[128] == 0x44 && bytes[129] == 0x49 && bytes[130] == 0x43 && bytes[131]
            == 0x4D {
            pos = 132;
            standard = true;
        }
        let mut in_file_meta: bool = false;
        if pos + 2 <= n {
            let group: u16 = read_u16(&bytes, pos, false);
            if group == 0x0002 {
                in_file_meta = true;
            }
        }
        let ts: TransferSyntax = if in_file_meta {
            TransferSyntax::ExplicitVrLe
        } else {
            default_ts
        };
        let p = Parser {
            bytes,
            pos,
            body_start: pos,
            standard_preamble: standard,
            ts,
            dataset_ts: default_ts,
            ts_unknown: false,
            cs: CharSet::Default,
            cs_lossy: false,
            frames: Vec::new(),
            path: Vec::new(),
            in_file_meta,
            fm_end: usize::MAX,
            iterator_ended: false,
            error: None,
            allow_command_group,
            emitted: Ghost(Seq::empty()),
        };
        assert(p.bytes@.subrange(p.body_start as int, p.pos as int) =~= Seq::<u8>::empty());
        p
    }

    /// Whether the innermost frame has a defined end the parse has
    /// reached, so the frame is finished and pops without consuming
    /// bytes.
    fn has_finished_frame(&self) -> bool {
        if self.frames.len() == 0 {
            return false;
        }
        let f = &self.frames[self.frames.len() - 1];
        f.end_pos != usize::MAX && self.pos >= f.end_pos
    }

    /// Pops every finished defined-length frame, restoring the charset
    /// each one had saved. Consumes no bytes.
    fn pop_finished_frames(&mut self)
        ensures
            final(self).bytes@ == old(self).bytes@,
            final(self).pos == old(self).pos,
            final(self).body_start == old(self).body_start,
            final(self).emitted == old(self).emitted,
            final(self).iterator_ended == old(self).iterator_ended,
            final(self).error == old(self).error,
            final(self).in_file_meta == old(self).in_file_meta,
            final(self).ts == old(self).ts,
            final(self).dataset_ts == old(self).dataset_ts,
            final(self).fm_end == old(self).fm_end,
            final(self).allow_command_group == old(self).allow_command_group,
            old(self).frames@.len() == 0 ==> final(self).cs == old(self).cs,
    {
        while self.has_finished_frame()
            invariant
                self.bytes@ == old(self).bytes@,
                self.pos == old(self).pos,
                self.body_start == old(self).body_start,
                self.emitted == old(self).emitted,
                self.iterator_ended == old(self).iterator_ended,
                self.error == old(self).error,
                self.in_file_meta == old(self).in_file_meta,
                self.ts == old(self).ts,
                self.dataset_ts == old(self).dataset_ts,
                self.fm_end == old(self).fm_end,
                self.allow_command_group == old(self).allow_command_group,
                old(self).frames@.len() == 0 ==> self.cs == old(self).cs && self.frames@
                    == old(self).frames@,
            decreases self.frames@.len(),
        {
            let f: SqFrame = match self.frames.pop() {
                Some(f) => f,
                None => {
                    return ;
                },
            };
            self.cs = f.parent_cs;
            if !f.is_item {
                if self.path.len() > 0 {
                    let _ = self.path.pop();
                }
            }
        }
    }

    /// Whether the next item read belongs to an open undefined-length
    /// PixelData element, making it a fragment that carries bytes.
    fn in_pixel_frame(&self) -> bool {
        if self.frames.len() == 0 {
            return false;
        }
        let f = &self.frames[self.frames.len() - 1];
        !f.is_item && f.node.tag == tags::PIXEL_DATA
    }


    /// Applies the structural bookkeeping one freshly read element
    /// demands: frames, item numbering, the sequence path the element
    /// reports, and the file-meta and charset state it may carry.
    /// Consumes no bytes and emits nothing.
    #[verifier::rlimit(60)]
    fn bookkeep(&mut self, e: DicomElement, np: usize, in_pixel: bool) -> (r: Result<
        DicomElement,
        ParseError,
    >)
        requires
            np <= old(self).bytes@.len(),
        ensures
            final(self).bytes@ == old(self).bytes@,
            final(self).pos == old(self).pos,
            final(self).body_start == old(self).body_start,
            final(self).emitted == old(self).emitted,
            final(self).iterator_ended == old(self).iterator_ended,
            final(self).error == old(self).error,
            final(self).ts == old(self).ts,
            final(self).allow_command_group == old(self).allow_command_group,
            match r {
                Ok(e2) => spec_elem_wire_bytes(e2) == spec_elem_wire_bytes(e) && e2.explicit_vr
                    == e.explicit_vr && e2.big_endian == e.big_endian && e2.cs == e.cs,
                Err(err) => (err == ParseError::UnexpectedDelimiter(e.tag)
                    && tags::spec_is_delimiter(e.tag)) || (err is UnexpectedEof
                    && (e.vl matches ValueLength::Explicit(l) && np + l
                    > old(self).bytes@.len())),
            },
    {
        let mut e = e;
        let ghost e_read = e;
        if e.tag == tags::ITEM {
            let f: SqFrame = match self.frames.pop() {
                Some(f) => f,
                None => {
                    return Err(ParseError::UnexpectedDelimiter(tags::ITEM));
                },
            };
            if f.is_item {
                return Err(ParseError::UnexpectedDelimiter(tags::ITEM));
            }
            let item_no: u32 = if f.node.item < 0xFFFF_FFFF {
                f.node.item + 1
            } else {
                f.node.item
            };
            let bumped = SqFrame {
                node: TagNode { tag: f.node.tag, item: item_no },
                end_pos: f.end_pos,
                is_item: f.is_item,
                parent_cs: f.parent_cs,
            };
            self.frames.push(bumped);
            if self.path.len() > 0 {
                let _ = self.path.pop();
            }
            self.path.push(TagNode { tag: f.node.tag, item: item_no });
            if !in_pixel {
                // A sequence item: its contents follow as elements until
                // the item's end or its delimiter.
                let end: usize = match e.vl {
                    ValueLength::Explicit(l) => {
                        let l: usize = l as usize;
                        if l > self.bytes.len() - np {
                            return Err(ParseError::UnexpectedEof);
                        }
                        np + l
                    },
                    ValueLength::Undefined => usize::MAX,
                };
                self.frames.push(
                    SqFrame {
                        node: TagNode { tag: f.node.tag, item: item_no },
                        end_pos: end,
                        is_item: true,
                        parent_cs: self.cs,
                    },
                );
            }
            e.sq_path = clone_nodes(&self.path);
            assert(spec_elem_wire_bytes(e) == spec_elem_wire_bytes(e_read));
        } else if e.tag == tags::ITEM_DELIMITATION_ITEM {
            let f: SqFrame = match self.frames.pop() {
                Some(f) => f,
                None => {
                    return Err(ParseError::UnexpectedDelimiter(tags::ITEM_DELIMITATION_ITEM));
                },
            };
            if !f.is_item {
                return Err(ParseError::UnexpectedDelimiter(tags::ITEM_DELIMITATION_ITEM));
            }
            self.cs = f.parent_cs;
        } else if e.tag == tags::SEQUENCE_DELIMITATION_ITEM {
            let f: SqFrame = match self.frames.pop() {
                Some(f) => f,
                None => {
                    return Err(ParseError::UnexpectedDelimiter(tags::SEQUENCE_DELIMITATION_ITEM));
                },
            };
            if f.is_item {
                return Err(ParseError::UnexpectedDelimiter(tags::SEQUENCE_DELIMITATION_ITEM));
            }
            self.cs = f.parent_cs;
            if self.path.len() > 0 {
                let _ = self.path.pop();
            }
        } else if matches!(e.vr, Vr::SQ) || matches!(e.vl, ValueLength::Undefined) {
            // A sequence, or an undefined-length element such as
            // encapsulated PixelData: its contents follow as elements.
            let end: usize = match e.vl {
                ValueLength::Explicit(l) => {
                    let l: usize = l as usize;
                    if l > self.bytes.len() - np {
                        return Err(ParseError::UnexpectedEof);
                    }
                    np + l
                },
                ValueLength::Undefined => usize::MAX,
            };
            self.frames.push(
                SqFrame {
                    node: TagNode { tag: e.tag, item: 0 },
                    end_pos: end,
                    is_item: false,
                    parent_cs: self.cs,
                },
            );
            self.path.push(TagNode { tag: e.tag, item: 0 });
        } else {
            // A plain data element: track the state it may carry.
            if self.in_file_meta && e.tag == tags::FILE_META_INFORMATION_GROUP_LENGTH
                && e.data.len() >= 4 {
                let v: u32 = read_u32(&e.data, 0, false);
                let remaining: usize = self.bytes.len() - np;
                let v: usize = v as usize;
                self.fm_end = if v <= remaining {
                    np + v
                } else {
                    self.bytes.len()
                };
            }
            if self.in_file_meta && e.tag == tags::TRANSFER_SYNTAX_UID {
                let trimmed = trim_trailing(e.data.as_slice(), 0x00);
                match ts_from_uid(trimmed.as_slice()) {
                    Some(t) => {
                        self.dataset_ts = t;
                    },
                    None => {
                        self.ts_unknown = true;
                    },
                }
            }
            if e.tag == tags::SPECIFIC_CHARACTER_SET {
                let trimmed = trim_trailing(e.data.as_slice(), 0x20);
                match charset_from_value(trimmed.as_slice()) {
                    Some(c) => {
                        self.cs = c;
                    },
                    None => {
                        self.cs = CharSet::Default;
                        self.cs_lossy = true;
                    },
                }
            }
        }
        Ok(e)
    }

    /// Pulls the next element from the stream. `Ok(None)` is the normal
    /// end: the source was exhausted at an element boundary, or the
    /// stream had already ended. On an error the stream ends permanently;
    /// later pulls yield `Ok(None)`.
    ///
    /// Every byte consumed belongs to exactly one emitted element, and an
    /// emitted element's wire bytes are exactly the bytes it was read
    /// from: that is the invariant `wf` carries and the re-emission
    /// round trip rests on.
    #[verifier::rlimit(100)]
    #[verifier::spinoff_prover]
    pub fn next_element(&mut self) -> (r: Result<Option<DicomElement>, ParseError>)
        requires
            old(self).wf(),
        ensures
            final(self).wf(),
            final(self).bytes@ == old(self).bytes@,
            final(self).body_start == old(self).body_start,
            old(self).pos <= final(self).pos,
            old(self).iterator_ended ==> (r matches Ok(None)) && *final(self) == *old(self),
            old(self).frames@.len() == 0 ==> (match r {
                Ok(Some(e)) => e.cs == old(self).cs,
                _ => true,
            }),
            match r {
                Ok(Some(e)) => final(self).emitted@ == old(self).emitted@.push(e)
                    && final(self).pos > old(self).pos && final(self).error == old(self).error
                    && final(self).iterator_ended == old(self).iterator_ended && e.explicit_vr
                    == (final(self).ts != TransferSyntax::ImplicitVrLe) && e.big_endian == (
                final(self).ts == TransferSyntax::ExplicitVrBe),
                Ok(None) => final(self).emitted@ == old(self).emitted@
                    && final(self).iterator_ended && final(self).error == old(self).error && (
                !old(self).iterator_ended ==> final(self).pos == final(self).bytes@.len()),
                Err(e) => final(self).emitted@ == old(self).emitted@
                    && final(self).iterator_ended && final(self).error == Some(e) && !old(
                self,
                ).iterator_ended && spec_parse_err_cause(*final(self), e),
            },
    {
        if self.iterator_ended {
            return Ok(None);
        }

        // Leaving the file-meta group: switch to the dataset transfer
        // syntax at the byte count (0002,0000) gave, or at the first
        // element whose group is not 0x0002.
        if self.in_file_meta {
            let n: usize = self.bytes.len();
            if self.fm_end != usize::MAX && self.pos >= self.fm_end {
                self.in_file_meta = false;
                self.ts = self.dataset_ts;
            } else if self.fm_end == usize::MAX && n - self.pos >= 2 {
                let group: u16 = read_u16(&self.bytes, self.pos, false);
                if group != 0x0002 {
                    self.in_file_meta = false;
                    self.ts = self.dataset_ts;
                }
            }
        }

        self.pop_finished_frames();

        if self.pos >= self.bytes.len() {
            self.iterator_ended = true;
            return Ok(None);
        }

        let in_pixel: bool = self.in_pixel_frame();
        let path_for_elem: Vec<TagNode> = clone_nodes(&self.path);
        let explicit_vr: bool = self.ts.explicit_vr();
        let big_endian: bool = self.ts.big_endian();
        let read = read_element_at(
            &self.bytes,
            self.pos,
            explicit_vr,
            big_endian,
            in_pixel,
            self.allow_command_group,
            path_for_elem,
            self.cs,
        );
        let (e, np): (DicomElement, usize) = match read {
            Ok(pair) => pair,
            Err(err) => {
                proof {
                    assert(spec_parse_step_err(self.bytes@, self.pos as int, explicit_vr,
                        big_endian, in_pixel, self.allow_command_group, err));
                }
                self.iterator_ended = true;
                self.error = Some(err);
                return Err(err);
            },
        };
        let ghost e_read = e;
        let e = match self.bookkeep(e, np, in_pixel) {
            Ok(e2) => e2,
            Err(err) => {
                proof {
                    assert(spec_read_element(self.bytes@, self.pos as int, explicit_vr, big_endian,
                        in_pixel, self.allow_command_group) matches Ok(t) && t.0 == e_read.tag
                        && t.2 == e_read.vl && t.4 == np as int);
                    assert(spec_parse_step_err(self.bytes@, self.pos as int, explicit_vr,
                        big_endian, in_pixel, self.allow_command_group, err));
                }
                self.iterator_ended = true;
                self.error = Some(err);
                return Err(err);
            },
        };

        proof {
            lemma_stream_bytes_push(self.emitted@, e);
            assert(self.bytes@.subrange(self.body_start as int, np as int) =~= self.bytes@.subrange(
                self.body_start as int,
                self.pos as int,
            ) + self.bytes@.subrange(self.pos as int, np as int));
        }
        let ghost new_emitted = self.emitted@.push(e);
        self.pos = np;
        self.emitted = Ghost(new_emitted);
        Ok(Some(e))
    }

    /// Pulls every remaining element. On success the stream has ended
    /// normally; on an error, elements already pulled are lost with the
    /// stream, as the sequence is not restartable.
    pub fn read_all(&mut self) -> (r: Result<Vec<DicomElement>, ParseError>)
        requires
            old(self).wf(),
        ensures
            final(self).wf(),
            final(self).bytes@ == old(self).bytes@,
            final(self).body_start == old(self).body_start,
            match r {
                Ok(es) => final(self).emitted@ == old(self).emitted@ + es@
                    && final(self).iterator_ended && final(self).error == old(self).error && (
                !old(self).iterator_ended ==> final(self).pos == final(self).bytes@.len()),
                Err(e) => final(self).error == Some(e) && final(self).iterator_ended && old(
                    self,
                ).error is None && spec_parse_err_cause(*final(self), e),
            },
    {
        let mut out: Vec<DicomElement> = Vec::new();
        loop
            invariant
                self.wf(),
                self.bytes@ == old(self).bytes@,
                self.body_start == old(self).body_start,
                self.emitted@ == old(self).emitted@ + out@,
                self.error == old(self).error,
                self.iterator_ended ==> old(self).iterator_ended,
            decreases self.bytes@.len() - self.pos,
        {
            match self.next_element() {
                Ok(Some(e)) => {
                    out.push(e);
                    assert(self.emitted@ =~= old(self).emitted@ + out@);
                },
                Ok(None) => {
                    return Ok(out);
                },
                Err(err) => {
                    return Err(err);
                },
            }
        }
    }
}

/// Re-emitting a parsed element stream under the same transfer syntax
/// reproduces the source bytes exactly: what `Parser::wf` guarantees of
/// the elements pulled so far is precisely what `write_stream` emits, so
/// reparsing the re-emitted bytes yields the same stream.
pub proof fn lemma_reemission_byte_identical(p: Parser, out: Seq<u8>)
    requires
        p.wf(),
        out == spec_stream_bytes(p.emitted@),
    ensures
        out == p.bytes@.subrange(p.body_start as int, p.pos as int),
{
}

} // verus!

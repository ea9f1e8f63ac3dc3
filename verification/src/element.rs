//! DICOM elements and their on-wire form: the header layout decided by
//! the transfer syntax, and byte-exact re-emission.

use vstd::prelude::*;

use crate::bytes::{u16_bytes, u32_bytes, write_u16, write_u32};
use crate::charset::CharSet;
use crate::tags;
use crate::vr::{spec_has_explicit_2byte_pad, spec_vr_code, Vr};

verus! {

/// A value length: a concrete byte count, or the all-ones sentinel that
/// demands delimiter-based termination.
#[derive(Clone, Copy, PartialEq, Eq, Structural, Debug)]
pub enum ValueLength {
    Explicit(u32),
    Undefined,
}

impl ValueLength {
    /// The 32-bit field that carries this length on the wire.
    pub fn wire(&self) -> (r: u32)
        ensures
            r == spec_vl_wire(*self),
    {
        match self {
            ValueLength::Explicit(len) => *len,
            ValueLength::Undefined => 0xFFFF_FFFF,
        }
    }

    /// Reads a length from its 32-bit on-wire field.
    pub fn from_wire(v: u32) -> (r: ValueLength)
        ensures
            r == spec_vl_from_wire(v),
    {
        if v == 0xFFFF_FFFF {
            ValueLength::Undefined
        } else {
            ValueLength::Explicit(v)
        }
    }
}

/// The 32-bit field that carries a length on the wire.
pub open spec fn spec_vl_wire(vl: ValueLength) -> u32 {
    match vl {
        ValueLength::Explicit(len) => len,
        ValueLength::Undefined => 0xFFFF_FFFF,
    }
}

/// The length carried by a 32-bit on-wire field.
pub open spec fn spec_vl_from_wire(v: u32) -> ValueLength {
    if v == 0xFFFF_FFFF {
        ValueLength::Undefined
    } else {
        ValueLength::Explicit(v)
    }
}

/// One step of a location in the element tree: a sequence (or Item) tag,
/// and the 1-based index of the item occurrence, 0 while no item of that
/// sequence has begun.
#[derive(Clone, Copy, PartialEq, Eq, Structural, Debug)]
pub struct TagNode {
    pub tag: u32,
    pub item: u32,
}

/// One parsed element: the tag, VR, on-wire value length, raw value
/// bytes, the sequence path naming where it sits in the tree, and the
/// encoding state it was read under.
#[derive(Clone, Debug)]
pub struct DicomElement {
    pub tag: u32,
    pub vr: Vr,
    pub vl: ValueLength,
    pub data: Vec<u8>,
    pub sq_path: Vec<TagNode>,
    pub explicit_vr: bool,
    pub big_endian: bool,
    pub cs: CharSet,
    /// Whether the charset failed to decode the value exactly.
    pub lossy: bool,
}

/// The bytes of an element's header: tag, then VR and length in the form
/// the transfer syntax prescribes. Delimiter tags never carry a VR and
/// always use a four-byte length.
pub open spec fn spec_header_bytes_parts(
    tag: u32,
    vr: Vr,
    vl: ValueLength,
    explicit_vr: bool,
    big_endian: bool,
) -> Seq<u8> {
    let group = tag / 0x1_0000;
    let elem_no = tag % 0x1_0000;
    let tag_b = u16_bytes(group as int, big_endian) + u16_bytes(elem_no as int, big_endian);
    let vl_w = spec_vl_wire(vl) as int;
    if tags::spec_is_delimiter(tag) || !explicit_vr {
        tag_b + u32_bytes(vl_w, big_endian)
    } else {
        let code = spec_vr_code(vr);
        let vr_b = seq![(code / 0x100) as u8, (code % 0x100) as u8];
        if spec_has_explicit_2byte_pad(vr) {
            tag_b + vr_b + seq![0u8, 0u8] + u32_bytes(vl_w, big_endian)
        } else {
            tag_b + vr_b + u16_bytes(vl_w % 0x1_0000, big_endian)
        }
    }
}

/// The header bytes of an element.
pub open spec fn spec_header_bytes(e: DicomElement) -> Seq<u8> {
    spec_header_bytes_parts(e.tag, e.vr, e.vl, e.explicit_vr, e.big_endian)
}

/// The full on-wire bytes of one element as the stream carries it: the
/// header, then the value bytes the element itself holds. A sequence or
/// an item whose contents were parsed as further elements holds no bytes
/// of its own.
pub open spec fn spec_elem_wire_bytes(e: DicomElement) -> Seq<u8> {
    spec_header_bytes(e) + e.data@
}

/// The wire bytes of a whole element stream, in order.
pub open spec fn spec_stream_bytes(elems: Seq<DicomElement>) -> Seq<u8>
    decreases elems.len(),
{
    if elems.len() == 0 {
        Seq::empty()
    } else {
        spec_elem_wire_bytes(elems[0]) + spec_stream_bytes(elems.drop_first())
    }
}

/// Appends an element's header to `out`, exactly as the element's
/// transfer syntax prescribes.
pub fn write_header(e: &DicomElement, out: &mut Vec<u8>)
    ensures
        final(out)@ == old(out)@ + spec_header_bytes(*e),
{
    let group: u16 = (e.tag / 0x1_0000) as u16;
    let elem_no: u16 = (e.tag % 0x1_0000) as u16;
    write_u16(out, group, e.big_endian);
    write_u16(out, elem_no, e.big_endian);
    let vl_w: u32 = e.vl.wire();
    if tags::is_delimiter(e.tag) || !e.explicit_vr {
        write_u32(out, vl_w, e.big_endian);
    } else {
        let code: u16 = e.vr.code();
        out.push((code / 0x100) as u8);
        out.push((code % 0x100) as u8);
        if e.vr.has_explicit_2byte_pad() {
            out.push(0u8);
            out.push(0u8);
            write_u32(out, vl_w, e.big_endian);
        } else {
            write_u16(out, (vl_w % 0x1_0000) as u16, e.big_endian);
        }
    }
    assert(final(out)@ =~= old(out)@ + spec_header_bytes(*e));
}

/// Appends an element's full wire bytes to `out`: the header, then the
/// value bytes it holds.
pub fn write_element(e: &DicomElement, out: &mut Vec<u8>)
    ensures
        final(out)@ == old(out)@ + spec_elem_wire_bytes(*e),
{
    write_header(e, out);
    let mut i: usize = 0;
    let n: usize = e.data.len();
    while i < n
        invariant
            0 <= i <= n,
            n == e.data@.len(),
            out@ == old(out)@ + spec_header_bytes(*e) + e.data@.subrange(0, i as int),
        decreases n - i,
    {
        out.push(e.data[i]);
        i += 1;
        assert(out@ =~= old(out)@ + spec_header_bytes(*e) + e.data@.subrange(0, i as int));
    }
    assert(e.data@.subrange(0, n as int) =~= e.data@);
}

/// Re-emits a whole element stream: each element's wire bytes, in order.
pub fn write_stream(elems: &Vec<DicomElement>, out: &mut Vec<u8>)
    ensures
        final(out)@ == old(out)@ + spec_stream_bytes(elems@),
{
    let n: usize = elems.len();
    let mut i: usize = 0;
    while i < n
        invariant
            0 <= i <= n,
            n == elems@.len(),
            out@ == old(out)@ + spec_stream_bytes(elems@.subrange(0, i as int)),
        decreases n - i,
    {
        proof {
            lemma_stream_bytes_snoc(elems@, i as int);
        }
        write_element(&elems[i], out);
        i += 1;
    }
    assert(elems@.subrange(0, n as int) =~= elems@);
}

/// Emitting one more element appends exactly that element's wire bytes.
pub proof fn lemma_stream_bytes_push(s: Seq<DicomElement>, e: DicomElement)
    ensures
        spec_stream_bytes(s.push(e)) == spec_stream_bytes(s) + spec_elem_wire_bytes(e),
    decreases s.len(),
{
    if s.len() == 0 {
        assert(s.push(e).drop_first() =~= s);
        assert(spec_stream_bytes(s.push(e)) =~= spec_stream_bytes(s) + spec_elem_wire_bytes(e));
    } else {
        lemma_stream_bytes_push(s.drop_first(), e);
        assert(s.push(e).drop_first() =~= s.drop_first().push(e));
        assert(s.push(e)[0] == s[0]);
        assert(spec_elem_wire_bytes(s[0]) + (spec_stream_bytes(s.drop_first())
            + spec_elem_wire_bytes(e)) =~= (spec_elem_wire_bytes(s[0]) + spec_stream_bytes(
            s.drop_first(),
        )) + spec_elem_wire_bytes(e));
    }
}

/// Extending a stream by one element appends that element's wire bytes.
proof fn lemma_stream_bytes_snoc(elems: Seq<DicomElement>, i: int)
    requires
        0 <= i < elems.len(),
    ensures
        spec_stream_bytes(elems.subrange(0, i + 1)) == spec_stream_bytes(
            elems.subrange(0, i),
        ) + spec_elem_wire_bytes(elems[i]),
    decreases i,
{
    if i == 0 {
        assert(elems.subrange(0, 1).drop_first() =~= elems.subrange(0, 0));
        assert(spec_stream_bytes(elems.subrange(0, 0)) == Seq::<u8>::empty());
        assert(spec_stream_bytes(elems.subrange(0, 1)) =~= spec_elem_wire_bytes(elems[0])
            + spec_stream_bytes(elems.subrange(0, 0)));
        assert(spec_stream_bytes(elems.subrange(0, 1)) =~= spec_stream_bytes(
            elems.subrange(0, 0),
        ) + spec_elem_wire_bytes(elems[0]));
    } else {
        lemma_stream_bytes_snoc(elems.drop_first(), i - 1);
        assert(elems.subrange(0, i + 1).drop_first() =~= elems.drop_first().subrange(0, i));
        assert(elems.subrange(0, i).drop_first() =~= elems.drop_first().subrange(0, i - 1));
        assert(elems.drop_first()[i - 1] == elems[i]);
        assert(spec_stream_bytes(elems.subrange(0, i + 1)) == spec_elem_wire_bytes(elems[0])
            + spec_stream_bytes(elems.drop_first().subrange(0, i)));
        assert(spec_elem_wire_bytes(elems[0]) + (spec_stream_bytes(
            elems.drop_first().subrange(0, i - 1),
        ) + spec_elem_wire_bytes(elems[i])) =~= (spec_elem_wire_bytes(elems[0])
            + spec_stream_bytes(elems.drop_first().subrange(0, i - 1))) + spec_elem_wire_bytes(
            elems[i],
        ));
    }
}

impl DicomElement {
    /// Whether this element holds no value bytes.
    pub fn is_empty(&self) -> (r: bool)
        ensures
            r == (self.data@.len() == 0),
    {
        self.data.len() == 0
    }

    /// Whether this element is the PixelData element.
    pub fn is_pixel_data(&self) -> (r: bool)
        ensures
            r == (self.tag == tags::PIXEL_DATA),
    {
        self.tag == tags::PIXEL_DATA
    }

    /// Whether this element sits inside the PixelData element, as one of
    /// its fragments.
    pub fn is_within_pixel_data(&self) -> (r: bool)
        ensures
            r == (self.sq_path@.len() > 0 && self.sq_path@.last().tag == tags::PIXEL_DATA),
    {
        if self.sq_path.len() == 0 {
            return false;
        }
        self.sq_path[self.sq_path.len() - 1].tag == tags::PIXEL_DATA
    }

    /// Takes this element's value bytes, leaving it empty.
    pub fn take_data(&mut self) -> (r: Vec<u8>)
        ensures
            r@ == old(self).data@,
            final(self).data@.len() == 0,
            final(self).tag == old(self).tag,
            final(self).vr == old(self).vr,
            final(self).vl == old(self).vl,
            final(self).sq_path@ == old(self).sq_path@,
    {
        let mut r: Vec<u8> = Vec::new();
        core::mem::swap(&mut r, &mut self.data);
        r
    }
}

/// The number of trailing bytes equal to `pad` at the end of `b`.
pub open spec fn spec_trimmed_len(b: Seq<u8>, pad: u8) -> int
    decreases b.len(),
{
    if b.len() == 0 {
        0
    } else if b.last() == pad {
        spec_trimmed_len(b.drop_last(), pad)
    } else {
        b.len() as int
    }
}

/// Returns the prefix of `b` with trailing `pad` bytes removed, as string
/// VR padding rules require (trailing space for most texts, trailing NUL
/// for UIDs).
pub fn trim_trailing(b: &[u8], pad: u8) -> (r: Vec<u8>)
    ensures
        r@ == b@.subrange(0, spec_trimmed_len(b@, pad)),
{
    let mut end: usize = b.len();
    assert(b@.subrange(0, end as int) =~= b@);
    while end > 0 && b[end - 1] == pad
        invariant
            0 <= end <= b@.len(),
            spec_trimmed_len(b@, pad) == spec_trimmed_len(b@.subrange(0, end as int), pad),
        decreases end,
    {
        assert(b@.subrange(0, end as int).drop_last() =~= b@.subrange(0, end - 1));
        end -= 1;
    }
    proof {
        if end > 0 {
            assert(b@.subrange(0, end as int).last() == b@[end - 1]);
        }
        assert(spec_trimmed_len(b@.subrange(0, end as int), pad) == end as int);
    }
    let mut r: Vec<u8> = Vec::new();
    let mut i: usize = 0;
    while i < end
        invariant
            0 <= i <= end <= b@.len(),
            r@ == b@.subrange(0, i as int),
        decreases end - i,
    {
        r.push(b[i]);
        i += 1;
        assert(r@ =~= b@.subrange(0, i as int));
    }
    r
}


/// The wire bytes of adjacent stream ranges concatenate.
pub proof fn lemma_stream_bytes_concat(es: Seq<DicomElement>, a: Seq<DicomElement>, b: Seq<
    DicomElement,
>)
    requires
        es == a + b,
    ensures
        spec_stream_bytes(es) == spec_stream_bytes(a) + spec_stream_bytes(b),
    decreases a.len(),
{
    if a.len() == 0 {
        assert(es =~= b);
        assert(spec_stream_bytes(a) =~= Seq::<u8>::empty());
        assert(spec_stream_bytes(a) + spec_stream_bytes(b) =~= spec_stream_bytes(b));
    } else {
        assert(es.len() > 0);
        assert(es[0] == a[0]);
        assert(es.drop_first() =~= a.drop_first() + b);
        lemma_stream_bytes_concat(es.drop_first(), a.drop_first(), b);
        assert(spec_elem_wire_bytes(es[0]) + (spec_stream_bytes(a.drop_first())
            + spec_stream_bytes(b)) =~= (spec_elem_wire_bytes(a[0]) + spec_stream_bytes(
            a.drop_first(),
        )) + spec_stream_bytes(b));
    }
}

/// Every sequence's subtree terminates where its length form says: a
/// sequence with a defined length ends exactly that many bytes after
/// its header, and an undefined-length sequence's subtree ends just
/// past its SequenceDelimitationItem.
pub proof fn lemma_sq_subtree_terminal(es: Seq<DicomElement>, i: int, j: int)
    requires
        0 <= i < j <= es.len(),
        es[i].vr == crate::vr::Vr::SQ,
        match es[i].vl {
            ValueLength::Explicit(l) => spec_stream_bytes(es.subrange(i + 1, j)).len() == l,
            ValueLength::Undefined => j >= i + 2 && es[j - 1].tag
                == tags::SEQUENCE_DELIMITATION_ITEM,
        },
    ensures
        match es[i].vl {
            ValueLength::Explicit(l) => spec_stream_bytes(es.subrange(0, j)).len()
                == spec_stream_bytes(es.subrange(0, i)).len() + spec_elem_wire_bytes(es[i]).len()
                + l,
            ValueLength::Undefined => spec_stream_bytes(es.subrange(0, j)) == spec_stream_bytes(
                es.subrange(0, j - 1),
            ) + spec_elem_wire_bytes(es[j - 1]) && es[j - 1].tag
                == tags::SEQUENCE_DELIMITATION_ITEM,
        },
{
    match es[i].vl {
        ValueLength::Explicit(l) => {
            assert(es.subrange(0, j) =~= es.subrange(0, i) + (seq![es[i]] + es.subrange(i + 1, j)));
            lemma_stream_bytes_concat(
                es.subrange(0, i) + (seq![es[i]] + es.subrange(i + 1, j)),
                es.subrange(0, i),
                seq![es[i]] + es.subrange(i + 1, j),
            );
            lemma_stream_bytes_concat(
                seq![es[i]] + es.subrange(i + 1, j),
                seq![es[i]],
                es.subrange(i + 1, j),
            );
            assert(seq![es[i]].drop_first() =~= Seq::<DicomElement>::empty());
            assert(spec_stream_bytes(Seq::<DicomElement>::empty()) =~= Seq::<u8>::empty());
            assert(seq![es[i]][0] == es[i]);
            assert(spec_stream_bytes(seq![es[i]]) =~= spec_elem_wire_bytes(es[i]));
        },
        ValueLength::Undefined => {
            assert(es.subrange(0, j) =~= es.subrange(0, j - 1) + seq![es[j - 1]]);
            lemma_stream_bytes_concat(
                es.subrange(0, j - 1) + seq![es[j - 1]],
                es.subrange(0, j - 1),
                seq![es[j - 1]],
            );
            assert(seq![es[j - 1]].drop_first() =~= Seq::<DicomElement>::empty());
            assert(spec_stream_bytes(Seq::<DicomElement>::empty()) =~= Seq::<u8>::empty());
            assert(seq![es[j - 1]][0] == es[j - 1]);
            assert(spec_stream_bytes(seq![es[j - 1]]) =~= spec_elem_wire_bytes(es[j - 1]));
        },
    }
}

} // verus!

//! The DICOM Upper Layer PDUs: one byte of type, one reserved byte, a
//! four-byte big-endian length, then the type's payload.

use vstd::prelude::*;

use crate::bytes::{read_u32, u32_at, u32_bytes, write_u32};

verus! {

/// The Upper Layer PDU types.
#[derive(Clone, Copy, PartialEq, Eq, Structural, Debug)]
pub enum PduType {
    AssocRq,
    AssocAc,
    AssocRj,
    PDataTf,
    ReleaseRq,
    ReleaseRp,
    Abort,
}

/// The on-wire code of a PDU type.
pub open spec fn spec_pdu_code(t: PduType) -> u8 {
    match t {
        PduType::AssocRq => 1,
        PduType::AssocAc => 2,
        PduType::AssocRj => 3,
        PduType::PDataTf => 4,
        PduType::ReleaseRq => 5,
        PduType::ReleaseRp => 6,
        PduType::Abort => 7,
    }
}

impl PduType {
    /// The on-wire code of this type.
    pub fn code(&self) -> (r: u8)
        ensures
            r == spec_pdu_code(*self),
    {
        match self {
            PduType::AssocRq => 1,
            PduType::AssocAc => 2,
            PduType::AssocRj => 3,
            PduType::PDataTf => 4,
            PduType::ReleaseRq => 5,
            PduType::ReleaseRp => 6,
            PduType::Abort => 7,
        }
    }

    /// The type a code names, or `None` for one outside the protocol.
    pub fn from_code(code: u8) -> (r: Option<PduType>)
        ensures
            match r {
                Some(t) => spec_pdu_code(t) == code,
                None => code == 0 || code > 7,
            },
    {
        match code {
            1 => Some(PduType::AssocRq),
            2 => Some(PduType::AssocAc),
            3 => Some(PduType::AssocRj),
            4 => Some(PduType::PDataTf),
            5 => Some(PduType::ReleaseRq),
            6 => Some(PduType::ReleaseRp),
            7 => Some(PduType::Abort),
            _ => None,
        }
    }
}

/// An A-ABORT: who ended the association and why.
#[derive(Clone, Copy, PartialEq, Eq, Structural, Debug)]
pub struct Abort {
    pub source: u8,
    pub reason: u8,
}

/// An A-ASSOCIATE-RJ: the rejection's result, source and reason.
#[derive(Clone, Copy, PartialEq, Eq, Structural, Debug)]
pub struct AssocRj {
    pub result: u8,
    pub source: u8,
    pub reason: u8,
}

/// The ten bytes of an A-ABORT.
pub open spec fn spec_abort_bytes(a: Abort) -> Seq<u8> {
    seq![0x07u8, 0, 0, 0, 0, 4, 0, 0, a.source, a.reason]
}

/// The ten bytes of an A-ASSOCIATE-RJ.
pub open spec fn spec_rj_bytes(a: AssocRj) -> Seq<u8> {
    seq![0x03u8, 0, 0, 0, 0, 4, 0, a.result, a.source, a.reason]
}

/// The ten bytes of an A-RELEASE-RQ.
pub open spec fn spec_release_rq_bytes() -> Seq<u8> {
    seq![0x05u8, 0, 0, 0, 0, 4, 0, 0, 0, 0]
}

/// The ten bytes of an A-RELEASE-RP.
pub open spec fn spec_release_rp_bytes() -> Seq<u8> {
    seq![0x06u8, 0, 0, 0, 0, 4, 0, 0, 0, 0]
}

impl Abort {
    /// This PDU's type.
    pub fn pdu_type(&self) -> (r: PduType)
        ensures
            r == PduType::Abort,
    {
        PduType::Abort
    }

    /// Appends this A-ABORT's ten bytes.
    pub fn write(&self, out: &mut Vec<u8>)
        ensures
            final(out)@ == old(out)@ + spec_abort_bytes(*self),
    {
        out.push(0x07);
        out.push(0);
        out.push(0);
        out.push(0);
        out.push(0);
        out.push(4);
        out.push(0);
        out.push(0);
        out.push(self.source);
        out.push(self.reason);
        assert(final(out)@ =~= old(out)@ + spec_abort_bytes(*self));
    }

    /// Builds an A-ABORT.
    pub fn new(source: u8, reason: u8) -> (r: Abort)
        ensures
            r.source == source,
            r.reason == reason,
    {
        Abort { source, reason }
    }

    /// Reads an A-ABORT back from its bytes: accepted exactly when the
    /// bytes are some A-ABORT's encoding, which they then equal.
    pub fn decode(bytes: &Vec<u8>) -> (r: Option<Abort>)
        ensures
            match r {
                Some(a) => bytes@ == spec_abort_bytes(a),
                None => forall|a: Abort| bytes@ != spec_abort_bytes(a),
            },
    {
        if bytes.len() != 10 || bytes[0] != 0x07 || bytes[1] != 0 || bytes[2] != 0 || bytes[3] != 0
            || bytes[4] != 0 || bytes[5] != 4 || bytes[6] != 0 || bytes[7] != 0 {
            proof {
                assert forall|a: Abort| bytes@ != spec_abort_bytes(a) by {
                    assert(spec_abort_bytes(a).len() == 10);
                }
            }
            return None;
        }
        let a = Abort { source: bytes[8], reason: bytes[9] };
        assert(bytes@ =~= spec_abort_bytes(a));
        Some(a)
    }
}

impl AssocRj {
    /// This PDU's type.
    pub fn pdu_type(&self) -> (r: PduType)
        ensures
            r == PduType::AssocRj,
    {
        PduType::AssocRj
    }

    /// Appends this A-ASSOCIATE-RJ's ten bytes.
    pub fn write(&self, out: &mut Vec<u8>)
        ensures
            final(out)@ == old(out)@ + spec_rj_bytes(*self),
    {
        out.push(0x03);
        out.push(0);
        out.push(0);
        out.push(0);
        out.push(0);
        out.push(4);
        out.push(0);
        out.push(self.result);
        out.push(self.source);
        out.push(self.reason);
        assert(final(out)@ =~= old(out)@ + spec_rj_bytes(*self));
    }

    /// Builds an A-ASSOCIATE-RJ.
    pub fn new(result: u8, source: u8, reason: u8) -> (r: AssocRj)
        ensures
            r.result == result,
            r.source == source,
            r.reason == reason,
    {
        AssocRj { result, source, reason }
    }

    /// Reads an A-ASSOCIATE-RJ back from its bytes: accepted exactly
    /// when the bytes are some rejection's encoding, which they then
    /// equal.
    pub fn decode(bytes: &Vec<u8>) -> (r: Option<AssocRj>)
        ensures
            match r {
                Some(a) => bytes@ == spec_rj_bytes(a),
                None => forall|a: AssocRj| bytes@ != spec_rj_bytes(a),
            },
    {
        if bytes.len() != 10 || bytes[0] != 0x03 || bytes[1] != 0 || bytes[2] != 0 || bytes[3] != 0
            || bytes[4] != 0 || bytes[5] != 4 || bytes[6] != 0 {
            proof {
                assert forall|a: AssocRj| bytes@ != spec_rj_bytes(a) by {
                    assert(spec_rj_bytes(a).len() == 10);
                }
            }
            return None;
        }
        let a = AssocRj { result: bytes[7], source: bytes[8], reason: bytes[9] };
        assert(bytes@ =~= spec_rj_bytes(a));
        Some(a)
    }
}

/// Encoding an A-ABORT then reading it back yields the same PDU: the
/// encoding is injective and its decoder inverts it.
pub proof fn lemma_abort_round_trip(a: Abort, b: Abort)
    requires
        spec_abort_bytes(a) == spec_abort_bytes(b),
    ensures
        a == b,
{
    assert(spec_abort_bytes(a)[8] == a.source && spec_abort_bytes(a)[9] == a.reason);
    assert(spec_abort_bytes(b)[8] == b.source && spec_abort_bytes(b)[9] == b.reason);
}

/// Encoding an A-ASSOCIATE-RJ then reading it back yields the same
/// PDU.
pub proof fn lemma_rj_round_trip(a: AssocRj, b: AssocRj)
    requires
        spec_rj_bytes(a) == spec_rj_bytes(b),
    ensures
        a == b,
{
    assert(spec_rj_bytes(a)[7] == a.result);
    assert(spec_rj_bytes(b)[7] == b.result);
}

/// One Presentation Data Value: its context, its message-control
/// header (bit 0: command; bit 1: last fragment), and its bytes.
#[derive(Clone, Debug, PartialEq)]
pub struct Pdv {
    pub ctx_id: u8,
    pub msg_header: u8,
    pub data: Vec<u8>,
}

impl Pdv {
    /// Whether this fragment carries command-set bytes.
    pub fn is_command(&self) -> (r: bool)
        ensures
            r == (self.msg_header % 2 == 1),
    {
        self.msg_header % 2 == 1
    }

    /// Whether this fragment is the last of its message part.
    pub fn is_last(&self) -> (r: bool)
        ensures
            r == ((self.msg_header / 2) % 2 == 1),
    {
        (self.msg_header / 2) % 2 == 1
    }
}

/// The on-wire bytes of one PDV: a four-byte big-endian length counting
/// the context id, header and data, then those.
pub open spec fn spec_pdv_bytes(p: Pdv) -> Seq<u8> {
    u32_bytes(2 + p.data@.len() as int, true) + seq![p.ctx_id, p.msg_header] + p.data@
}

/// The on-wire bytes of a list of PDVs, in order.
pub open spec fn spec_pdvs_bytes(ps: Seq<Pdv>) -> Seq<u8>
    decreases ps.len(),
{
    if ps.len() == 0 {
        Seq::empty()
    } else {
        spec_pdv_bytes(ps[0]) + spec_pdvs_bytes(ps.drop_first())
    }
}

/// A P-DATA-TF: the PDVs it carries.
#[derive(Clone, Debug, PartialEq)]
pub struct PDataTf {
    pub pdvs: Vec<Pdv>,
}

/// The on-wire bytes of a P-DATA-TF.
pub open spec fn spec_pdata_bytes(p: PDataTf) -> Seq<u8> {
    seq![0x04u8, 0] + u32_bytes(spec_pdvs_bytes(p.pdvs@).len() as int, true) + spec_pdvs_bytes(
        p.pdvs@,
    )
}

/// Appending one more PDV appends exactly its bytes.
pub proof fn lemma_pdvs_bytes_push(ps: Seq<Pdv>, p: Pdv)
    ensures
        spec_pdvs_bytes(ps.push(p)) == spec_pdvs_bytes(ps) + spec_pdv_bytes(p),
    decreases ps.len(),
{
    if ps.len() == 0 {
        assert(ps.push(p).drop_first() =~= ps);
        assert(spec_pdvs_bytes(ps.push(p)) =~= spec_pdvs_bytes(ps) + spec_pdv_bytes(p));
    } else {
        lemma_pdvs_bytes_push(ps.drop_first(), p);
        assert(ps.push(p).drop_first() =~= ps.drop_first().push(p));
        assert(ps.push(p)[0] == ps[0]);
        assert(spec_pdv_bytes(ps[0]) + (spec_pdvs_bytes(ps.drop_first()) + spec_pdv_bytes(p)) =~= (
        spec_pdv_bytes(ps[0]) + spec_pdvs_bytes(ps.drop_first())) + spec_pdv_bytes(p));
    }
}

impl PDataTf {
    /// Appends one PDV's bytes.
    fn write_pdv(p: &Pdv, out: &mut Vec<u8>)
        requires
            p.data@.len() + 2 <= u32::MAX,
        ensures
            final(out)@ == old(out)@ + spec_pdv_bytes(*p),
    {
        let len: u32 = (p.data.len() as u32) + 2;
        write_u32(out, len, true);
        out.push(p.ctx_id);
        out.push(p.msg_header);
        let n: usize = p.data.len();
        let mut i: usize = 0;
        while i < n
            invariant
                0 <= i <= n,
                n == p.data@.len(),
                out@ == old(out)@ + u32_bytes(2 + p.data@.len() as int, true) + seq![
                    p.ctx_id,
                    p.msg_header,
                ] + p.data@.subrange(0, i as int),
            decreases n - i,
        {
            out.push(p.data[i]);
            i += 1;
            assert(out@ =~= old(out)@ + u32_bytes(2 + p.data@.len() as int, true) + seq![
                p.ctx_id,
                p.msg_header,
            ] + p.data@.subrange(0, i as int));
        }
        assert(p.data@.subrange(0, n as int) =~= p.data@);
        assert(final(out)@ =~= old(out)@ + spec_pdv_bytes(*p));
    }

    /// Encodes this P-DATA-TF: the payload is every PDV's bytes in
    /// order, behind the six-byte PDU header. Fails exactly when a
    /// fragment or the whole payload outgrows its length field.
    pub fn write(&self, out: &mut Vec<u8>) -> (r: Result<(), ()>)
        ensures
            match r {
                Ok(()) => final(out)@ == old(out)@ + spec_pdata_bytes(*self),
                Err(()) => final(out)@ == old(out)@ && ((exists|i: int|
                    0 <= i < self.pdvs@.len() && (#[trigger] self.pdvs@[i]).data@.len()
                        > 0xFFFF_0000) || spec_pdvs_bytes(self.pdvs@).len() > 0xFFFF_0000),
            },
    {
        let mut payload: Vec<u8> = Vec::new();
        let n: usize = self.pdvs.len();
        let mut i: usize = 0;
        while i < n
            invariant
                0 <= i <= n,
                n == self.pdvs@.len(),
                payload@ == spec_pdvs_bytes(self.pdvs@.subrange(0, i as int)),
            decreases n - i,
        {
            let p = &self.pdvs[i];
            if p.data.len() > 0xFFFF_0000 {
                assert(self.pdvs@[i as int].data@.len() > 0xFFFF_0000);
                return Err(());
            }
            proof {
                assert(self.pdvs@.subrange(0, i + 1).drop_last() =~= self.pdvs@.subrange(
                    0,
                    i as int,
                ));
                lemma_pdvs_bytes_push(self.pdvs@.subrange(0, i as int), self.pdvs@[i as int]);
                assert(self.pdvs@.subrange(0, i as int).push(self.pdvs@[i as int])
                    =~= self.pdvs@.subrange(0, i + 1));
            }
            Self::write_pdv(p, &mut payload);
            i += 1;
        }
        assert(self.pdvs@.subrange(0, n as int) =~= self.pdvs@);
        if payload.len() > 0xFFFF_0000 {
            return Err(());
        }
        assert(spec_pdvs_bytes(self.pdvs@).len() <= 0xFFFF_0000);
        out.push(0x04);
        out.push(0);
        write_u32(out, payload.len() as u32, true);
        let m: usize = payload.len();
        let mut i: usize = 0;
        while i < m
            invariant
                0 <= i <= m,
                m == payload@.len(),
                out@ == old(out)@ + seq![0x04u8, 0u8] + u32_bytes(payload@.len() as int, true)
                    + payload@.subrange(0, i as int),
            decreases m - i,
        {
            out.push(payload[i]);
            i += 1;
            assert(out@ =~= old(out)@ + seq![0x04u8, 0u8] + u32_bytes(payload@.len() as int, true)
                + payload@.subrange(0, i as int));
        }
        assert(payload@.subrange(0, m as int) =~= payload@);
        assert(final(out)@ =~= old(out)@ + spec_pdata_bytes(*self));
        Ok(())
    }

    /// Reads a P-DATA-TF's PDVs back from its payload bytes (the bytes
    /// after the six-byte PDU header): accepted exactly when the
    /// length-prefixed fragments tile the payload, and reading back
    /// what was written yields the same PDVs.
    pub fn parse_pdvs(payload: &Vec<u8>) -> (r: Option<Vec<Pdv>>)
        ensures
            r is Some <==> spec_pdv_scan(payload@),
            match r {
                Some(ps) => spec_pdvs_bytes(ps@) == payload@,
                None => true,
            },
    {
        let mut ps: Vec<Pdv> = Vec::new();
        let mut pos: usize = 0;
        let n: usize = payload.len();
        assert(payload@.skip(0) =~= payload@);
        while pos < n
            invariant
                0 <= pos <= n,
                n == payload@.len(),
                spec_pdvs_bytes(ps@) == payload@.subrange(0, pos as int),
                spec_pdv_scan(payload@) <==> spec_pdv_scan(payload@.skip(pos as int)),
            decreases n - pos,
        {
            let ghost rest = payload@.skip(pos as int);
            proof {
                assert(rest.len() == n - pos);
                if n - pos >= 4 {
                    assert(rest[0] == payload@[pos as int] && rest[1] == payload@[pos + 1]
                        && rest[2] == payload@[pos + 2] && rest[3] == payload@[pos + 3]);
                }
            }
            if n - pos < 6 {
                return None;
            }
            let len: u32 = read_u32(payload, pos, true);
            assert(crate::bytes::u32_at(rest, 0, true) == len);
            if len < 2 {
                return None;
            }
            let dlen: usize = (len - 2) as usize;
            if dlen > n - (pos + 6) {
                return None;
            }
            let ctx_id: u8 = payload[pos + 4];
            let msg_header: u8 = payload[pos + 5];
            let data = crate::bytes::copy_range(payload, pos + 6, pos + 6 + dlen);
            let p = Pdv { ctx_id, msg_header, data };
            let ghost pre = ps@;
            ps.push(p);
            proof {
                lemma_pdvs_bytes_push(pre, p);
                crate::bytes::lemma_u32_bytes_extract(payload@, pos as int, true);
                assert(spec_pdv_bytes(p) =~= payload@.subrange(pos as int, pos + 6 + dlen));
                assert(payload@.subrange(0, pos + 6 + dlen) =~= payload@.subrange(0, pos as int)
                    + payload@.subrange(pos as int, pos + 6 + dlen));
            }
            proof {
                assert(rest.skip(6 + dlen) =~= payload@.skip(pos + 6 + dlen));
            }
            pos = pos + 6 + dlen;
        }
        assert(payload@.subrange(0, n as int) =~= payload@);
        assert(payload@.skip(n as int) =~= Seq::<u8>::empty());
        Some(ps)
    }
}

/// Whether a byte string is a whole sequence of length-prefixed
/// fragments: each declares at least its two fixed bytes and stays
/// within the remainder.
pub open spec fn spec_pdv_scan(b: Seq<u8>) -> bool
    decreases b.len(),
{
    if b.len() == 0 {
        true
    } else if b.len() < 6 {
        false
    } else {
        let len = u32_at(b, 0, true);
        if len < 2 {
            false
        } else if 6 + (len - 2) > b.len() {
            false
        } else {
            spec_pdv_scan(b.skip(6 + (len - 2)))
        }
    }
}

/// Two PDV lists with the same bytes carry the same fragments: the
/// byte form is length-prefixed, so nothing is ambiguous, and a
/// P-DATA-TF decodes back to exactly what was encoded.
pub proof fn lemma_pdvs_bytes_injective(a: Seq<Pdv>, b: Seq<Pdv>)
    requires
        spec_pdvs_bytes(a) == spec_pdvs_bytes(b),
        forall|i: int| 0 <= i < a.len() ==> (#[trigger] a[i]).data@.len() + 2 <= u32::MAX,
        forall|i: int| 0 <= i < b.len() ==> (#[trigger] b[i]).data@.len() + 2 <= u32::MAX,
    ensures
        a.len() == b.len(),
        forall|i: int|
            0 <= i < a.len() ==> (#[trigger] a[i]).ctx_id == b[i].ctx_id && a[i].msg_header == b[
                i].msg_header && a[i].data@ == b[i].data@,
    decreases a.len() + b.len(),
{
    if a.len() == 0 && b.len() == 0 {
    } else if a.len() == 0 || b.len() == 0 {
        assert(spec_pdvs_bytes(a).len() == 0 <==> a.len() == 0) by {
            if a.len() > 0 {
                assert(spec_pdvs_bytes(a).len() >= spec_pdv_bytes(a[0]).len());
            }
        }
        assert(spec_pdvs_bytes(b).len() == 0 <==> b.len() == 0) by {
            if b.len() > 0 {
                assert(spec_pdvs_bytes(b).len() >= spec_pdv_bytes(b[0]).len());
            }
        }
    } else {
        let x = a[0];
        let y = b[0];
        let bytes = spec_pdvs_bytes(a);
        assert(bytes == spec_pdv_bytes(x) + spec_pdvs_bytes(a.drop_first()));
        assert(bytes == spec_pdv_bytes(y) + spec_pdvs_bytes(b.drop_first()));
        crate::bytes::lemma_u32_round_trip(2 + x.data@.len() as int, true);
        crate::bytes::lemma_u32_round_trip(2 + y.data@.len() as int, true);
        assert(u32_at(bytes, 0, true) == 2 + x.data@.len()) by {
            assert(bytes.subrange(0, 4) =~= u32_bytes(2 + x.data@.len() as int, true));
        }
        assert(u32_at(bytes, 0, true) == 2 + y.data@.len()) by {
            assert(bytes.subrange(0, 4) =~= u32_bytes(2 + y.data@.len() as int, true));
        }
        assert(x.data@.len() == y.data@.len());
        let k = spec_pdv_bytes(x).len();
        assert(spec_pdv_bytes(y).len() == k);
        assert(spec_pdv_bytes(x) =~= bytes.subrange(0, k as int));
        assert(spec_pdv_bytes(y) =~= bytes.subrange(0, k as int));
        assert(x.ctx_id == spec_pdv_bytes(x)[4] && x.msg_header == spec_pdv_bytes(x)[5]);
        assert(y.ctx_id == spec_pdv_bytes(y)[4] && y.msg_header == spec_pdv_bytes(y)[5]);
        assert(x.data@ =~= spec_pdv_bytes(x).subrange(6, k as int));
        assert(y.data@ =~= spec_pdv_bytes(y).subrange(6, k as int));
        assert(spec_pdvs_bytes(a.drop_first()) =~= bytes.subrange(k as int, bytes.len() as int));
        assert(spec_pdvs_bytes(b.drop_first()) =~= bytes.subrange(k as int, bytes.len() as int));
        lemma_pdvs_bytes_injective(a.drop_first(), b.drop_first());
        assert(x.data@ == y.data@);
        assert forall|i: int|
            0 <= i < a.len() implies (#[trigger] a[i]).ctx_id == b[i].ctx_id && a[i].msg_header
            == b[i].msg_header && a[i].data@ == b[i].data@ by {
            if i > 0 {
                assert(a[i] == a.drop_first()[i - 1]);
                assert(b[i] == b.drop_first()[i - 1]);
            }
        }
    }
}

} // verus!

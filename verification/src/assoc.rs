//! Association negotiation: the A-ASSOCIATE request and accept PDUs,
//! and the acceptor's choice of one transfer syntax per proposed
//! presentation context.

use vstd::prelude::*;

use crate::bytes::{read_u16, read_u32, u16_bytes, write_u16, write_u32};
use crate::dimse::DimseError;
use crate::pdu::AssocRj;
use crate::bytes::bytes_eq;

verus! {

/// One proposed presentation context: its odd id, the abstract syntax
/// it names, and the transfer syntaxes offered for it, in preference
/// order.
#[derive(Clone, Debug, PartialEq)]
pub struct PresCtxProposed {
    pub id: u8,
    pub abstract_syntax: Vec<u8>,
    pub transfer_syntaxes: Vec<Vec<u8>>,
}

/// One negotiated presentation context: accepted (result 0) with the
/// chosen transfer syntax, or rejected with the DICOM result code.
#[derive(Clone, Debug, PartialEq)]
pub struct PresCtxResult {
    pub id: u8,
    pub result: u8,
    pub transfer_syntax: Vec<u8>,
}

/// The presentation-context result code for an unsupported transfer
/// syntax.
pub const PRES_CTX_TS_NOT_SUPPORTED: u8 = 4;

/// An A-ASSOCIATE-RQ's negotiable content.
#[derive(Clone, Debug, PartialEq)]
pub struct AssocRq {
    pub called_ae: Vec<u8>,
    pub calling_ae: Vec<u8>,
    pub app_ctx: Vec<u8>,
    pub pres_ctxs: Vec<PresCtxProposed>,
    pub max_pdu: u32,
}

/// An A-ASSOCIATE-AC's content: the mirrored application context, one
/// result per proposed context, and the acceptor's receive limit.
#[derive(Clone, Debug, PartialEq)]
pub struct AssocAc {
    pub called_ae: Vec<u8>,
    pub calling_ae: Vec<u8>,
    pub app_ctx: Vec<u8>,
    pub pres_ctxs: Vec<PresCtxResult>,
    pub max_pdu: u32,
}

/// Whether a transfer syntax is among the supported ones.
pub open spec fn spec_ts_supported(supported: Seq<Vec<u8>>, t: Seq<u8>) -> bool {
    exists|k: int| 0 <= k < supported.len() && (#[trigger] supported[k])@ == t
}

/// The index of the first offered transfer syntax that is supported.
pub open spec fn spec_first_supported(offered: Seq<Vec<u8>>, supported: Seq<Vec<u8>>) -> Option<
    int,
>
    decreases offered.len(),
{
    if offered.len() == 0 {
        None
    } else if spec_ts_supported(supported, offered[0]@) {
        Some(0)
    } else {
        match spec_first_supported(offered.drop_first(), supported) {
            Some(i) => Some(i + 1),
            None => None,
        }
    }
}

/// Whether a transfer syntax is among the supported ones.
fn ts_supported(supported: &Vec<Vec<u8>>, t: &Vec<u8>) -> (r: bool)
    ensures
        r == spec_ts_supported(supported@, t@),
{
    let n: usize = supported.len();
    let mut i: usize = 0;
    while i < n
        invariant
            0 <= i <= n,
            n == supported@.len(),
            forall|k: int| 0 <= k < i ==> (#[trigger] supported@[k])@ != t@,
        decreases n - i,
    {
        if bytes_eq(supported[i].as_slice(), t.as_slice()) {
            return true;
        }
        i += 1;
    }
    false
}

/// The first offered transfer syntax that is supported, if any.
fn first_supported(offered: &Vec<Vec<u8>>, supported: &Vec<Vec<u8>>) -> (r: Option<usize>)
    ensures
        match r {
            Some(i) => Some(i as int) == spec_first_supported(offered@, supported@) && i
                < offered@.len(),
            None => spec_first_supported(offered@, supported@) is None,
        },
{
    let n: usize = offered.len();
    let mut i: usize = 0;
    assert(offered@.subrange(0, n as int) =~= offered@);
    while i < n
        invariant
            0 <= i <= n,
            n == offered@.len(),
            spec_first_supported(offered@, supported@) == (match spec_first_supported(
                offered@.subrange(i as int, n as int),
                supported@,
            ) {
                Some(j) => Some(j + i),
                None => None,
            }),
        decreases n - i,
    {
        let ghost rest = offered@.subrange(i as int, n as int);
        assert(rest.drop_first() =~= offered@.subrange(i + 1, n as int));
        if ts_supported(supported, &offered[i]) {
            return Some(i);
        }
        i += 1;
    }
    assert(offered@.subrange(n as int, n as int) =~= Seq::<Vec<u8>>::empty());
    None
}

/// Negotiates every proposed presentation context: each is accepted
/// with the first of its offered transfer syntaxes that the acceptor
/// supports, or rejected as transfer-syntax-not-supported when none
/// is.
pub fn negotiate_pres_ctxs(proposed: &Vec<PresCtxProposed>, supported: &Vec<Vec<u8>>) -> (r: Vec<
    PresCtxResult,
>)
    ensures
        r@.len() == proposed@.len(),
        forall|i: int|
            0 <= i < r@.len() ==> {
                let pc = #[trigger] proposed@[i];
                let res = r@[i];
                &&& res.id == pc.id
                &&& (match spec_first_supported(pc.transfer_syntaxes@, supported@) {
                    Some(j) => res.result == 0 && res.transfer_syntax@ == pc.transfer_syntaxes@[
                        j]@,
                    None => res.result == PRES_CTX_TS_NOT_SUPPORTED,
                })
            },
{
    let n: usize = proposed.len();
    let mut r: Vec<PresCtxResult> = Vec::new();
    let mut i: usize = 0;
    while i < n
        invariant
            0 <= i <= n,
            n == proposed@.len(),
            r@.len() == i,
            forall|k: int|
                0 <= k < i ==> {
                    let pc = #[trigger] proposed@[k];
                    let res = r@[k];
                    &&& res.id == pc.id
                    &&& (match spec_first_supported(pc.transfer_syntaxes@, supported@) {
                        Some(j) => res.result == 0 && res.transfer_syntax@
                            == pc.transfer_syntaxes@[j]@,
                        None => res.result == PRES_CTX_TS_NOT_SUPPORTED,
                    })
                },
        decreases n - i,
    {
        let pc = &proposed[i];
        match first_supported(&pc.transfer_syntaxes, supported) {
            Some(j) => {
                r.push(
                    PresCtxResult {
                        id: pc.id,
                        result: 0,
                        transfer_syntax: crate::bytes::clone_bytes(&pc.transfer_syntaxes[j]),
                    },
                );
            },
            None => {
                r.push(
                    PresCtxResult {
                        id: pc.id,
                        result: PRES_CTX_TS_NOT_SUPPORTED,
                        transfer_syntax: Vec::new(),
                    },
                );
            },
        }
        i += 1;
    }
    r
}

/// Accepts or rejects an association request: a called AE title other
/// than the acceptor's own is rejected (result 2, source 1, reason 7),
/// an empty calling AE title is rejected (result 2, source 1, reason
/// 3); otherwise every context is negotiated and the accept mirrors
/// the application context. The effective send limit is the lesser of
/// the peer's and the local maximum, zero meaning unlimited.
pub fn accept_association(rq: &AssocRq, local_ae: &Vec<u8>, supported: &Vec<Vec<u8>>, local_max_pdu: u32) -> (r:
    Result<AssocAc, AssocRj>)
    ensures
        match r {
            Ok(ac) => {
                &&& rq.called_ae@ == local_ae@
                &&& rq.calling_ae@.len() > 0
                &&& ac.app_ctx@ == rq.app_ctx@
                &&& ac.called_ae@ == rq.called_ae@
                &&& ac.calling_ae@ == rq.calling_ae@
                &&& ac.max_pdu == local_max_pdu
                &&& ac.pres_ctxs@.len() == rq.pres_ctxs@.len()
                &&& forall|i: int|
                    0 <= i < ac.pres_ctxs@.len() ==> {
                        let pc = #[trigger] rq.pres_ctxs@[i];
                        let res = ac.pres_ctxs@[i];
                        &&& res.id == pc.id
                        &&& (match spec_first_supported(pc.transfer_syntaxes@, supported@) {
                            Some(j) => res.result == 0 && res.transfer_syntax@
                                == pc.transfer_syntaxes@[j]@,
                            None => res.result == PRES_CTX_TS_NOT_SUPPORTED,
                        })
                    }
            },
            Err(rj) => {
                &&& rj.result == 2 && rj.source == 1
                &&& (rq.called_ae@ != local_ae@ ==> rj.reason == 7)
                &&& (rq.called_ae@ == local_ae@ ==> rq.calling_ae@.len() == 0 && rj.reason == 3)
            },
        },
{
    if !bytes_eq(rq.called_ae.as_slice(), local_ae.as_slice()) {
        return Err(AssocRj::new(2, 1, 7));
    }
    if rq.calling_ae.len() == 0 {
        return Err(AssocRj::new(2, 1, 3));
    }
    let pres_ctxs = negotiate_pres_ctxs(&rq.pres_ctxs, supported);
    Ok(
        AssocAc {
            called_ae: crate::bytes::clone_bytes(&rq.called_ae),
            calling_ae: crate::bytes::clone_bytes(&rq.calling_ae),
            app_ctx: crate::bytes::clone_bytes(&rq.app_ctx),
            pres_ctxs,
            max_pdu: local_max_pdu,
        },
    )
}

/// The lesser of the peer's and the local PDU limit, zero meaning
/// unlimited.
pub fn effective_max_pdu(peer: u32, local: u32) -> (r: u32)
    ensures
        peer == 0 ==> r == local,
        local == 0 ==> peer != 0 ==> r == peer,
        peer != 0 && local != 0 ==> r == (if peer < local {
            peer
        } else {
            local
        }),
{
    if peer == 0 {
        local
    } else if local == 0 {
        peer
    } else if peer < local {
        peer
    } else {
        local
    }
}

/// An AE title in its fixed sixteen-byte field: truncated or space
/// filled.
pub open spec fn spec_pad_ae(ae: Seq<u8>) -> Seq<u8> {
    Seq::new(16, |i: int| if i < ae.len() {
        ae[i]
    } else {
        0x20u8
    })
}

/// Pads or truncates an AE title to its fixed sixteen bytes, space
/// filled.
pub fn pad_ae(ae: &Vec<u8>) -> (r: Vec<u8>)
    ensures
        r@ == spec_pad_ae(ae@),
{
    let mut r: Vec<u8> = Vec::new();
    let mut i: usize = 0;
    while i < 16
        invariant
            0 <= i <= 16,
            r@.len() == i,
            forall|k: int| 0 <= k < i ==> r@[k] == (if k < ae@.len() {
                ae@[k]
            } else {
                0x20u8
            }),
        decreases 16 - i,
    {
        if i < ae.len() {
            r.push(ae[i]);
        } else {
            r.push(0x20);
        }
        i += 1;
    }
    assert(r@ =~= spec_pad_ae(ae@));
    r
}

/// Appends a whole byte vector.
fn append_bytes(out: &mut Vec<u8>, b: &Vec<u8>)
    ensures
        final(out)@ == old(out)@ + b@,
{
    let n: usize = b.len();
    let mut i: usize = 0;
    while i < n
        invariant
            0 <= i <= n,
            n == b@.len(),
            out@ == old(out)@ + b@.subrange(0, i as int),
        decreases n - i,
    {
        out.push(b[i]);
        i += 1;
        assert(out@ =~= old(out)@ + b@.subrange(0, i as int));
    }
    assert(b@.subrange(0, n as int) =~= b@);
}

/// Appends one variable item: its type code, a reserved byte, a
/// two-byte big-endian length, then the data.
/// The encoded length of a list of offered transfer-syntax sub-items.
pub open spec fn spec_ts_lens(tss: Seq<Vec<u8>>) -> int
    decreases tss.len(),
{
    if tss.len() == 0 {
        0
    } else {
        spec_ts_lens(tss.drop_last()) + 4 + tss.last()@.len() as int
    }
}

/// The encoded length of one proposed presentation-context item body.
pub open spec fn spec_rq_pc_len(pc: PresCtxProposed) -> int {
    8 + pc.abstract_syntax@.len() as int + spec_ts_lens(pc.transfer_syntaxes@)
}

/// The encoded length of the proposed presentation-context items.
pub open spec fn spec_rq_pcs_len(pcs: Seq<PresCtxProposed>) -> int
    decreases pcs.len(),
{
    if pcs.len() == 0 {
        0
    } else {
        spec_rq_pcs_len(pcs.drop_last()) + 4 + spec_rq_pc_len(pcs.last())
    }
}

/// Whether every variable field of an A-ASSOCIATE-RQ fits its
/// two-byte item length: exactly then does encoding succeed.
pub open spec fn spec_rq_encodable(rq: AssocRq) -> bool {
    &&& rq.app_ctx@.len() <= 0xFFFF
    &&& forall|i: int|
        0 <= i < rq.pres_ctxs@.len() ==> {
            let pc = #[trigger] rq.pres_ctxs@[i];
            &&& pc.abstract_syntax@.len() <= 0xFFFF
            &&& (forall|j: int|
                0 <= j < pc.transfer_syntaxes@.len() ==> (
                #[trigger] pc.transfer_syntaxes@[j])@.len() <= 0xFFFF)
            &&& spec_rq_pc_len(pc) <= 0xFFFF
        }
}

/// The payload length an A-ASSOCIATE-RQ encodes to.
pub open spec fn spec_rq_payload_len(rq: AssocRq) -> int {
    84 + rq.app_ctx@.len() as int + spec_rq_pcs_len(rq.pres_ctxs@)
}

/// The encoded length of one presentation-context result item body.
pub open spec fn spec_ac_pc_len(pc: PresCtxResult) -> int {
    8 + pc.transfer_syntax@.len() as int
}

/// The encoded length of the presentation-context result items.
pub open spec fn spec_ac_pcs_len(pcs: Seq<PresCtxResult>) -> int
    decreases pcs.len(),
{
    if pcs.len() == 0 {
        0
    } else {
        spec_ac_pcs_len(pcs.drop_last()) + 4 + spec_ac_pc_len(pcs.last())
    }
}

/// Whether every variable field of an A-ASSOCIATE-AC fits its
/// two-byte item length: exactly then does encoding succeed.
pub open spec fn spec_ac_encodable(ac: AssocAc) -> bool {
    &&& ac.app_ctx@.len() <= 0xFFFF
    &&& forall|i: int|
        0 <= i < ac.pres_ctxs@.len() ==> {
            let pc = #[trigger] ac.pres_ctxs@[i];
            pc.transfer_syntax@.len() <= 0xFFFF && spec_ac_pc_len(pc) <= 0xFFFF
        }
}

/// The payload length an A-ASSOCIATE-AC encodes to.
pub open spec fn spec_ac_payload_len(ac: AssocAc) -> int {
    84 + ac.app_ctx@.len() as int + spec_ac_pcs_len(ac.pres_ctxs@)
}

/// Whether the sub-items filling `lo..hi` are well formed: each has a
/// four-byte header whose stated length stays inside the window.
pub open spec fn spec_subitems_wf(b: Seq<u8>, pos: int, hi: int) -> bool
    decreases hi - pos
        when pos <= hi <= b.len()
{
    if pos >= hi {
        true
    } else if hi - pos < 4 {
        false
    } else {
        let len = crate::bytes::u16_at(b, pos + 2, true);
        &&& len <= hi - pos - 4
        &&& spec_subitems_wf(b, pos + 4 + len, hi)
    }
}

/// The receive limit the sub-items of a user-information body yield: the
/// value of the last maximum-length sub-item, `cur` when none follows.
pub open spec fn spec_user_max(b: Seq<u8>, pos: int, hi: int, cur: int) -> int
    decreases hi - pos
        when pos <= hi <= b.len()
{
    if pos >= hi || hi - pos < 4 {
        cur
    } else {
        let len = crate::bytes::u16_at(b, pos + 2, true);
        if len > hi - pos - 4 {
            cur
        } else {
            let nxt = if b[pos] == 0x51 && len >= 4 {
                crate::bytes::u32_at(b, pos + 4, true)
            } else {
                cur
            };
            spec_user_max(b, pos + 4 + len, hi, nxt)
        }
    }
}

/// Whether an association payload's item list from `pos` on is well
/// formed: each item framed within the stream, every presentation
/// context (`pres_code`) with its four fixed bytes and well-formed
/// sub-items, every user-information body with well-formed sub-items.
/// Decoding succeeds exactly on such a list.
pub open spec fn spec_assoc_items_wf(b: Seq<u8>, pos: int, pres_code: u8) -> bool
    decreases b.len() - pos
        when 0 <= pos <= b.len()
{
    if pos >= b.len() {
        true
    } else if b.len() - pos < 4 {
        false
    } else {
        let code = b[pos];
        let len = crate::bytes::u16_at(b, pos + 2, true);
        &&& len <= b.len() - pos - 4
        &&& (code == pres_code ==> len >= 4 && spec_subitems_wf(b, pos + 8, pos + 4 + len))
        &&& (code == 0x50 ==> spec_subitems_wf(b, pos + 4, pos + 4 + len))
        &&& spec_assoc_items_wf(b, pos + 4 + len, pres_code)
    }
}

/// The body of the last item with the given code, `cur` before any.
pub open spec fn spec_last_item_body(b: Seq<u8>, pos: int, code: u8, cur: Seq<u8>) -> Seq<u8>
    decreases b.len() - pos
        when 0 <= pos <= b.len()
{
    if pos >= b.len() || b.len() - pos < 4 {
        cur
    } else {
        let len = crate::bytes::u16_at(b, pos + 2, true);
        if len > b.len() - pos - 4 {
            cur
        } else {
            let nxt = if b[pos] == code {
                b.subrange(pos + 4, pos + 4 + len)
            } else {
                cur
            };
            spec_last_item_body(b, pos + 4 + len, code, nxt)
        }
    }
}

/// How many items carry the given code.
pub open spec fn spec_item_count(b: Seq<u8>, pos: int, code: u8) -> int
    decreases b.len() - pos
        when 0 <= pos <= b.len()
{
    if pos >= b.len() || b.len() - pos < 4 {
        0
    } else {
        let len = crate::bytes::u16_at(b, pos + 2, true);
        if len > b.len() - pos - 4 {
            0
        } else {
            (if b[pos] == code {
                1int
            } else {
                0int
            }) + spec_item_count(b, pos + 4 + len, code)
        }
    }
}

/// The receive limit a payload's item list yields: the last
/// user-information item decides, and within it the last
/// maximum-length sub-item; zero without either.
pub open spec fn spec_scan_max_pdu(b: Seq<u8>, pos: int, cur: int) -> int
    decreases b.len() - pos
        when 0 <= pos <= b.len()
{
    if pos >= b.len() || b.len() - pos < 4 {
        cur
    } else {
        let len = crate::bytes::u16_at(b, pos + 2, true);
        if len > b.len() - pos - 4 {
            cur
        } else {
            let nxt = if b[pos] == 0x50 {
                spec_user_max(b, pos + 4, pos + 4 + len, 0)
            } else {
                cur
            };
            spec_scan_max_pdu(b, pos + 4 + len, nxt)
        }
    }
}

fn write_item(out: &mut Vec<u8>, code: u8, data: &Vec<u8>) -> (r: Result<(), DimseError>)
    ensures
        r is Ok <==> data@.len() <= 0xFFFF,
        r is Err ==> r == Result::<(), DimseError>::Err(DimseError::General) && final(out)@
            == old(out)@,
        r is Ok ==> final(out)@ == old(out)@ + seq![code, 0u8] + crate::bytes::u16_bytes(
            data@.len() as int,
            true,
        ) + data@,
{
    if data.len() > 0xFFFF {
        return Err(DimseError::General);
    }
    out.push(code);
    out.push(0);
    write_u16(out, data.len() as u16, true);
    append_bytes(out, data);
    assert(final(out)@ =~= old(out)@ + seq![code, 0u8] + crate::bytes::u16_bytes(
        data@.len() as int,
        true,
    ) + data@);
    Ok(())
}

impl AssocRq {
    /// Encodes this A-ASSOCIATE-RQ: the protocol version, the two AE
    /// titles in their fixed fields, the application context item, one
    /// proposed presentation-context item per context (the abstract
    /// syntax, then the offered transfer syntaxes), and the user
    /// information item carrying the receive limit.
    pub fn encode(&self, out: &mut Vec<u8>) -> (r: Result<(), DimseError>)
        ensures
            r is Ok <==> spec_rq_encodable(*self) && spec_rq_payload_len(*self) <= 0xFFFF_0000,
            r is Ok ==> ({
                let base = old(out)@.len() as int;
                &&& final(out)@.len() == base + 6 + spec_rq_payload_len(*self)
                &&& final(out)@.subrange(0, base) == old(out)@
                &&& final(out)@[base] == 1u8
                &&& final(out)@[base + 1] == 0u8
                &&& crate::bytes::u32_at(final(out)@, base + 2, true) == final(out)@.len() - base
                    - 6
                &&& final(out)@.subrange(base + 6, base + 8) == u16_bytes(1, true)
                &&& final(out)@.subrange(base + 10, base + 26) == spec_pad_ae(self.called_ae@)
                &&& final(out)@.subrange(base + 26, base + 42) == spec_pad_ae(self.calling_ae@)
            }),
    {
        let payload = match self.encode_payload() {
            Ok(p) => p,
            Err(e) => {
                return Err(e);
            },
        };
        if payload.len() > 0xFFFF_0000 {
            return Err(DimseError::General);
        }
        out.push(0x01);
        out.push(0);
        write_u32(out, payload.len() as u32, true);
        append_bytes(out, &payload);
        proof {
            let base = old(out)@.len() as int;
            let n = payload@.len() as int;
            assert(final(out)@ =~= old(out)@ + seq![1u8, 0u8] + crate::bytes::u32_bytes(n, true)
                + payload@);
            assert(final(out)@.subrange(0, base) =~= old(out)@);
            assert(final(out)@.subrange(base + 2, base + 6) =~= crate::bytes::u32_bytes(n, true));
            crate::bytes::lemma_u32_round_trip(n, true);
            assert(crate::bytes::u32_at(final(out)@, base + 2, true) == crate::bytes::u32_at(
                crate::bytes::u32_bytes(n, true),
                0,
                true,
            ));
            assert(final(out)@.subrange(base + 6, base + 8) =~= payload@.subrange(0, 2));
            assert(final(out)@.subrange(base + 10, base + 26) =~= payload@.subrange(4, 20));
            assert(final(out)@.subrange(base + 26, base + 42) =~= payload@.subrange(20, 36));
        }
        Ok(())
    }

    /// Encodes the payload after the six-byte PDU header: the protocol
    /// version, then the two AE titles in their fixed fields.
    fn encode_payload(&self) -> (r: Result<Vec<u8>, DimseError>)
        ensures
            r is Ok <==> spec_rq_encodable(*self),
            r matches Ok(p) ==> p@.len() >= 68 && p@.len() == spec_rq_payload_len(*self)
                && p@.subrange(0, 2)
                == u16_bytes(1, true) && p@.subrange(4, 20) == spec_pad_ae(self.called_ae@)
                && p@.subrange(20, 36) == spec_pad_ae(self.calling_ae@),
    {
        let mut p: Vec<u8> = Vec::new();
        write_u16(&mut p, 1, true);
        p.push(0);
        p.push(0);
        let called = pad_ae(&self.called_ae);
        let calling = pad_ae(&self.calling_ae);
        append_bytes(&mut p, &called);
        append_bytes(&mut p, &calling);
        let ghost head = p@;
        let mut i: usize = 0;
        while i < 32
            invariant
                0 <= i <= 32,
                head == u16_bytes(1, true) + seq![0u8, 0u8] + spec_pad_ae(self.called_ae@)
                    + spec_pad_ae(self.calling_ae@),
                p@.len() == head.len() + i,
                p@.subrange(0, head.len() as int) == head,
            decreases 32 - i,
        {
            p.push(0);
            assert(p@.subrange(0, head.len() as int) =~= head);
            i += 1;
        }
        let ghost fixed = p@;
        proof {
            assert(head.len() == 36);
            assert(fixed.len() == 68);
            assert(fixed.subrange(0, 36) == head);
            assert(head.subrange(0, 2) =~= u16_bytes(1, true));
            assert(head.subrange(4, 20) =~= spec_pad_ae(self.called_ae@));
            assert(head.subrange(20, 36) =~= spec_pad_ae(self.calling_ae@));
            assert(fixed.subrange(0, 2) =~= head.subrange(0, 2));
            assert(fixed.subrange(4, 20) =~= head.subrange(4, 20));
            assert(fixed.subrange(20, 36) =~= head.subrange(20, 36));
        }
        match write_item(&mut p, 0x10, &self.app_ctx) {
            Ok(()) => (),
            Err(e) => {
                return Err(e);
            },
        }
        let n: usize = self.pres_ctxs.len();
        let mut ci: usize = 0;
        while ci < n
            invariant
                0 <= ci <= n,
                n == self.pres_ctxs@.len(),
                self.app_ctx@.len() <= 0xFFFF,
                forall|k: int|
                    0 <= k < ci ==> {
                        let pc = #[trigger] self.pres_ctxs@[k];
                        &&& pc.abstract_syntax@.len() <= 0xFFFF
                        &&& (forall|j: int|
                            0 <= j < pc.transfer_syntaxes@.len() ==> (
                            #[trigger] pc.transfer_syntaxes@[j])@.len() <= 0xFFFF)
                        &&& spec_rq_pc_len(pc) <= 0xFFFF
                    },
                p@.len() >= 68,
                p@.len() == 72 + self.app_ctx@.len() + spec_rq_pcs_len(
                    self.pres_ctxs@.subrange(0, ci as int),
                ),
                p@.subrange(0, 68) == fixed,
            decreases n - ci,
        {
            let ghost plen = p@.len();
            let pc = &self.pres_ctxs[ci];
            let mut item: Vec<u8> = Vec::new();
            item.push(pc.id);
            item.push(0);
            item.push(0);
            item.push(0);
            match write_item(&mut item, 0x30, &pc.abstract_syntax) {
                Ok(()) => (),
                Err(e) => {
                    proof {
                        assert(self.pres_ctxs@[ci as int].abstract_syntax@.len() > 0xFFFF);
                        assert(!spec_rq_encodable(*self));
                    }
                    return Err(e);
                },
            }
            let m: usize = pc.transfer_syntaxes.len();
            let mut ti: usize = 0;
            while ti < m
                invariant
                    0 <= ti <= m,
                    m == pc.transfer_syntaxes@.len(),
                    0 <= ci < self.pres_ctxs@.len(),
                    *pc == self.pres_ctxs@[ci as int],
                    pc.abstract_syntax@.len() <= 0xFFFF,
                    forall|j: int|
                        0 <= j < ti ==> (#[trigger] pc.transfer_syntaxes@[j])@.len() <= 0xFFFF,
                    item@.len() == 8 + pc.abstract_syntax@.len() + spec_ts_lens(
                        pc.transfer_syntaxes@.subrange(0, ti as int),
                    ),
                decreases m - ti,
            {
                match write_item(&mut item, 0x40, &pc.transfer_syntaxes[ti]) {
                    Ok(()) => (),
                    Err(e) => {
                        proof {
                            assert(self.pres_ctxs@[ci as int].transfer_syntaxes@[
                                ti as int]@.len() > 0xFFFF);
                            assert(!spec_rq_encodable(*self));
                        }
                        return Err(e);
                    },
                }
                proof {
                    let pre = pc.transfer_syntaxes@.subrange(0, ti as int);
                    let cur = pc.transfer_syntaxes@.subrange(0, ti + 1);
                    assert(cur.drop_last() =~= pre);
                    assert(cur.last() == pc.transfer_syntaxes@[ti as int]);
                }
                ti += 1;
            }
            proof {
                assert(pc.transfer_syntaxes@.subrange(0, m as int) =~= pc.transfer_syntaxes@);
                assert(item@.len() == spec_rq_pc_len(*pc));
            }
            match write_item(&mut p, 0x20, &item) {
                Ok(()) => (),
                Err(e) => {
                    proof {
                        assert(spec_rq_pc_len(self.pres_ctxs@[ci as int]) > 0xFFFF);
                        assert(!spec_rq_encodable(*self));
                    }
                    return Err(e);
                },
            }
            proof {
                let pre = self.pres_ctxs@.subrange(0, ci as int);
                let cur = self.pres_ctxs@.subrange(0, ci + 1);
                assert(cur.drop_last() =~= pre);
                assert(cur.last() == self.pres_ctxs@[ci as int]);
            }
            assert(p@.subrange(0, 68) =~= fixed.subrange(0, 68));
            ci += 1;
        }
        proof {
            assert(self.pres_ctxs@.subrange(0, n as int) =~= self.pres_ctxs@);
        }
        let mut user: Vec<u8> = Vec::new();
        user.push(0x51);
        user.push(0);
        write_u16(&mut user, 4, true);
        write_u32(&mut user, self.max_pdu, true);
        match write_item(&mut p, 0x50, &user) {
            Ok(()) => (),
            Err(e) => {
                return Err(e);
            },
        }
        proof {
            assert(p@.subrange(0, 68) =~= fixed.subrange(0, 68));
            assert(p@.subrange(0, 2) =~= fixed.subrange(0, 2));
            assert(p@.subrange(4, 20) =~= fixed.subrange(4, 20));
            assert(p@.subrange(20, 36) =~= fixed.subrange(20, 36));
        }
        Ok(p)
    }

    /// Reads an A-ASSOCIATE-RQ's negotiable content back from its
    /// payload (the bytes after the six-byte PDU header): the AE
    /// titles come from their fixed fields. Unknown item types are
    /// skipped, as the protocol demands.
    pub fn decode_payload(payload: &Vec<u8>) -> (r: Result<AssocRq, DimseError>)
        ensures
            r is Ok <==> payload@.len() >= 68 && spec_assoc_items_wf(payload@, 68, 0x20),
            r matches Ok(rq) ==> payload@.len() >= 68 && rq.called_ae@ == payload@.subrange(4, 20)
                && rq.calling_ae@ == payload@.subrange(20, 36) && rq.app_ctx@
                == spec_last_item_body(payload@, 68, 0x10, Seq::empty()) && rq.pres_ctxs@.len()
                == spec_item_count(payload@, 68, 0x20) && rq.max_pdu == spec_scan_max_pdu(
                payload@,
                68,
                0,
            ),
    {
        let n: usize = payload.len();
        if n < 68 {
            return Err(DimseError::UnexpectedEof);
        }
        let called = crate::bytes::copy_range(payload, 4, 20);
        let calling = crate::bytes::copy_range(payload, 20, 36);
        let mut rq = AssocRq {
            called_ae: called,
            calling_ae: calling,
            app_ctx: Vec::new(),
            pres_ctxs: Vec::new(),
            max_pdu: 0,
        };
        let mut pos: usize = 68;
        while pos < n
            invariant
                68 <= pos <= n,
                n == payload@.len(),
                rq.called_ae@ == payload@.subrange(4, 20),
                rq.calling_ae@ == payload@.subrange(20, 36),
                spec_assoc_items_wf(payload@, 68, 0x20) == spec_assoc_items_wf(
                    payload@,
                    pos as int,
                    0x20,
                ),
                spec_last_item_body(payload@, 68, 0x10, Seq::empty()) == spec_last_item_body(
                    payload@,
                    pos as int,
                    0x10,
                    rq.app_ctx@,
                ),
                spec_item_count(payload@, 68, 0x20) == rq.pres_ctxs@.len() + spec_item_count(
                    payload@,
                    pos as int,
                    0x20,
                ),
                spec_scan_max_pdu(payload@, 68, 0) == spec_scan_max_pdu(
                    payload@,
                    pos as int,
                    rq.max_pdu as int,
                ),
            decreases n - pos,
        {
            if n - pos < 4 {
                return Err(DimseError::UnexpectedEof);
            }
            let code: u8 = payload[pos];
            let len: u16 = read_u16(payload, pos + 2, true);
            let len: usize = len as usize;
            if len > n - (pos + 4) {
                return Err(DimseError::UnexpectedEof);
            }
            let body_lo: usize = pos + 4;
            let body_hi: usize = body_lo + len;
            if code == 0x10 {
                rq.app_ctx = crate::bytes::copy_range(payload, body_lo, body_hi);
            } else if code == 0x20 {
                match parse_pres_ctx_proposed(payload, body_lo, body_hi) {
                    Ok(pc) => {
                        rq.pres_ctxs.push(pc);
                    },
                    Err(e) => {
                        return Err(e);
                    },
                }
            } else if code == 0x50 {
                match parse_user_info(payload, body_lo, body_hi) {
                    Ok(max) => {
                        rq.max_pdu = max;
                    },
                    Err(e) => {
                        return Err(e);
                    },
                }
            }
            pos = body_hi;
        }
        Ok(rq)
    }
}

/// Reads one proposed presentation-context item body.
fn parse_pres_ctx_proposed(payload: &Vec<u8>, lo: usize, hi: usize) -> (r: Result<
    PresCtxProposed,
    DimseError,
>)
    requires
        lo <= hi <= payload@.len(),
    ensures
        r is Ok <==> hi - lo >= 4 && spec_subitems_wf(payload@, lo + 4, hi as int),
{
    if hi - lo < 4 {
        return Err(DimseError::UnexpectedEof);
    }
    let id: u8 = payload[lo];
    let mut pc = PresCtxProposed { id, abstract_syntax: Vec::new(), transfer_syntaxes: Vec::new() };
    let mut pos: usize = lo + 4;
    while pos < hi
        invariant
            lo + 4 <= pos <= hi <= payload@.len(),
            spec_subitems_wf(payload@, lo + 4, hi as int) == spec_subitems_wf(
                payload@,
                pos as int,
                hi as int,
            ),
        decreases hi - pos,
    {
        if hi - pos < 4 {
            return Err(DimseError::UnexpectedEof);
        }
        let code: u8 = payload[pos];
        let len: u16 = read_u16(payload, pos + 2, true);
        let len: usize = len as usize;
        if len > hi - (pos + 4) {
            return Err(DimseError::UnexpectedEof);
        }
        let body_lo: usize = pos + 4;
        let body_hi: usize = body_lo + len;
        if code == 0x30 {
            pc.abstract_syntax = crate::bytes::copy_range(payload, body_lo, body_hi);
        } else if code == 0x40 {
            pc.transfer_syntaxes.push(crate::bytes::copy_range(payload, body_lo, body_hi));
        }
        pos = body_hi;
    }
    Ok(pc)
}

/// Reads a user-information item body: the maximum-PDU-length
/// sub-item's value; other sub-items are skipped.
fn parse_user_info(payload: &Vec<u8>, lo: usize, hi: usize) -> (r: Result<u32, DimseError>)
    requires
        lo <= hi <= payload@.len(),
    ensures
        r is Ok <==> spec_subitems_wf(payload@, lo as int, hi as int),
        r matches Ok(m) ==> m == spec_user_max(payload@, lo as int, hi as int, 0),
{
    let mut max: u32 = 0;
    let mut pos: usize = lo;
    while pos < hi
        invariant
            lo <= pos <= hi <= payload@.len(),
            spec_subitems_wf(payload@, lo as int, hi as int) == spec_subitems_wf(
                payload@,
                pos as int,
                hi as int,
            ),
            spec_user_max(payload@, lo as int, hi as int, 0) == spec_user_max(
                payload@,
                pos as int,
                hi as int,
                max as int,
            ),
        decreases hi - pos,
    {
        if hi - pos < 4 {
            return Err(DimseError::UnexpectedEof);
        }
        let code: u8 = payload[pos];
        let len: u16 = read_u16(payload, pos + 2, true);
        let len: usize = len as usize;
        if len > hi - (pos + 4) {
            return Err(DimseError::UnexpectedEof);
        }
        let body_lo: usize = pos + 4;
        let body_hi: usize = body_lo + len;
        if code == 0x51 && len >= 4 {
            max = read_u32(payload, body_lo, true);
        }
        pos = body_hi;
    }
    Ok(max)
}

impl AssocAc {
    /// Encodes this A-ASSOCIATE-AC: the mirrored fixed fields, the
    /// application context, one result item per context, and the user
    /// information carrying the acceptor's limit.
    pub fn encode(&self, out: &mut Vec<u8>) -> (r: Result<(), DimseError>)
        ensures
            r is Ok <==> spec_ac_encodable(*self) && spec_ac_payload_len(*self) <= 0xFFFF_0000,
            r is Ok ==> ({
                let base = old(out)@.len() as int;
                &&& final(out)@.len() == base + 6 + spec_ac_payload_len(*self)
                &&& final(out)@.subrange(0, base) == old(out)@
                &&& final(out)@[base] == 2u8
                &&& final(out)@[base + 1] == 0u8
                &&& crate::bytes::u32_at(final(out)@, base + 2, true) == final(out)@.len() - base
                    - 6
                &&& final(out)@.subrange(base + 6, base + 8) == u16_bytes(1, true)
                &&& final(out)@.subrange(base + 10, base + 26) == spec_pad_ae(self.called_ae@)
                &&& final(out)@.subrange(base + 26, base + 42) == spec_pad_ae(self.calling_ae@)
            }),
    {
        let payload = match self.encode_payload() {
            Ok(p) => p,
            Err(e) => {
                return Err(e);
            },
        };
        if payload.len() > 0xFFFF_0000 {
            return Err(DimseError::General);
        }
        out.push(0x02);
        out.push(0);
        write_u32(out, payload.len() as u32, true);
        append_bytes(out, &payload);
        proof {
            let base = old(out)@.len() as int;
            let n = payload@.len() as int;
            assert(final(out)@ =~= old(out)@ + seq![2u8, 0u8] + crate::bytes::u32_bytes(n, true)
                + payload@);
            assert(final(out)@.subrange(0, base) =~= old(out)@);
            assert(final(out)@.subrange(base + 2, base + 6) =~= crate::bytes::u32_bytes(n, true));
            crate::bytes::lemma_u32_round_trip(n, true);
            assert(crate::bytes::u32_at(final(out)@, base + 2, true) == crate::bytes::u32_at(
                crate::bytes::u32_bytes(n, true),
                0,
                true,
            ));
            assert(final(out)@.subrange(base + 6, base + 8) =~= payload@.subrange(0, 2));
            assert(final(out)@.subrange(base + 10, base + 26) =~= payload@.subrange(4, 20));
            assert(final(out)@.subrange(base + 26, base + 42) =~= payload@.subrange(20, 36));
        }
        Ok(())
    }

    /// Encodes the payload after the six-byte PDU header: the protocol
    /// version, then the two AE titles in their fixed fields.
    fn encode_payload(&self) -> (r: Result<Vec<u8>, DimseError>)
        ensures
            r is Ok <==> spec_ac_encodable(*self),
            r matches Ok(p) ==> p@.len() >= 68 && p@.len() == spec_ac_payload_len(*self)
                && p@.subrange(0, 2)
                == u16_bytes(1, true) && p@.subrange(4, 20) == spec_pad_ae(self.called_ae@)
                && p@.subrange(20, 36) == spec_pad_ae(self.calling_ae@),
    {
        let mut p: Vec<u8> = Vec::new();
        write_u16(&mut p, 1, true);
        p.push(0);
        p.push(0);
        let called = pad_ae(&self.called_ae);
        let calling = pad_ae(&self.calling_ae);
        append_bytes(&mut p, &called);
        append_bytes(&mut p, &calling);
        let ghost head = p@;
        let mut i: usize = 0;
        while i < 32
            invariant
                0 <= i <= 32,
                head == u16_bytes(1, true) + seq![0u8, 0u8] + spec_pad_ae(self.called_ae@)
                    + spec_pad_ae(self.calling_ae@),
                p@.len() == head.len() + i,
                p@.subrange(0, head.len() as int) == head,
            decreases 32 - i,
        {
            p.push(0);
            assert(p@.subrange(0, head.len() as int) =~= head);
            i += 1;
        }
        let ghost fixed = p@;
        proof {
            assert(head.len() == 36);
            assert(fixed.len() == 68);
            assert(fixed.subrange(0, 36) == head);
            assert(head.subrange(0, 2) =~= u16_bytes(1, true));
            assert(head.subrange(4, 20) =~= spec_pad_ae(self.called_ae@));
            assert(head.subrange(20, 36) =~= spec_pad_ae(self.calling_ae@));
            assert(fixed.subrange(0, 2) =~= head.subrange(0, 2));
            assert(fixed.subrange(4, 20) =~= head.subrange(4, 20));
            assert(fixed.subrange(20, 36) =~= head.subrange(20, 36));
        }
        match write_item(&mut p, 0x10, &self.app_ctx) {
            Ok(()) => (),
            Err(e) => {
                return Err(e);
            },
        }
        let n: usize = self.pres_ctxs.len();
        let mut ci: usize = 0;
        while ci < n
            invariant
                0 <= ci <= n,
                n == self.pres_ctxs@.len(),
                self.app_ctx@.len() <= 0xFFFF,
                forall|k: int|
                    0 <= k < ci ==> {
                        let pc = #[trigger] self.pres_ctxs@[k];
                        pc.transfer_syntax@.len() <= 0xFFFF && spec_ac_pc_len(pc) <= 0xFFFF
                    },
                p@.len() >= 68,
                p@.len() == 72 + self.app_ctx@.len() + spec_ac_pcs_len(
                    self.pres_ctxs@.subrange(0, ci as int),
                ),
                p@.subrange(0, 68) == fixed,
            decreases n - ci,
        {
            let pc = &self.pres_ctxs[ci];
            let mut item: Vec<u8> = Vec::new();
            item.push(pc.id);
            item.push(0);
            item.push(pc.result);
            item.push(0);
            match write_item(&mut item, 0x40, &pc.transfer_syntax) {
                Ok(()) => (),
                Err(e) => {
                    proof {
                        assert(self.pres_ctxs@[ci as int].transfer_syntax@.len() > 0xFFFF);
                        assert(!spec_ac_encodable(*self));
                    }
                    return Err(e);
                },
            }
            match write_item(&mut p, 0x21, &item) {
                Ok(()) => (),
                Err(e) => {
                    proof {
                        assert(spec_ac_pc_len(self.pres_ctxs@[ci as int]) > 0xFFFF);
                        assert(!spec_ac_encodable(*self));
                    }
                    return Err(e);
                },
            }
            proof {
                let pre = self.pres_ctxs@.subrange(0, ci as int);
                let cur = self.pres_ctxs@.subrange(0, ci + 1);
                assert(cur.drop_last() =~= pre);
                assert(cur.last() == self.pres_ctxs@[ci as int]);
            }
            assert(p@.subrange(0, 68) =~= fixed.subrange(0, 68));
            ci += 1;
        }
        proof {
            assert(self.pres_ctxs@.subrange(0, n as int) =~= self.pres_ctxs@);
        }
        let mut user: Vec<u8> = Vec::new();
        user.push(0x51);
        user.push(0);
        write_u16(&mut user, 4, true);
        write_u32(&mut user, self.max_pdu, true);
        match write_item(&mut p, 0x50, &user) {
            Ok(()) => (),
            Err(e) => {
                return Err(e);
            },
        }
        proof {
            assert(p@.subrange(0, 68) =~= fixed.subrange(0, 68));
            assert(p@.subrange(0, 2) =~= fixed.subrange(0, 2));
            assert(p@.subrange(4, 20) =~= fixed.subrange(4, 20));
            assert(p@.subrange(20, 36) =~= fixed.subrange(20, 36));
        }
        Ok(p)
    }

    /// Reads an A-ASSOCIATE-AC's content back from its payload: the AE
    /// titles come from their fixed fields.
    pub fn decode_payload(payload: &Vec<u8>) -> (r: Result<AssocAc, DimseError>)
        ensures
            r is Ok <==> payload@.len() >= 68 && spec_assoc_items_wf(payload@, 68, 0x21),
            r matches Ok(ac) ==> payload@.len() >= 68 && ac.called_ae@ == payload@.subrange(4, 20)
                && ac.calling_ae@ == payload@.subrange(20, 36) && ac.app_ctx@
                == spec_last_item_body(payload@, 68, 0x10, Seq::empty()) && ac.pres_ctxs@.len()
                == spec_item_count(payload@, 68, 0x21) && ac.max_pdu == spec_scan_max_pdu(
                payload@,
                68,
                0,
            ),
    {
        let n: usize = payload.len();
        if n < 68 {
            return Err(DimseError::UnexpectedEof);
        }
        let called = crate::bytes::copy_range(payload, 4, 20);
        let calling = crate::bytes::copy_range(payload, 20, 36);
        let mut ac = AssocAc {
            called_ae: called,
            calling_ae: calling,
            app_ctx: Vec::new(),
            pres_ctxs: Vec::new(),
            max_pdu: 0,
        };
        let mut pos: usize = 68;
        while pos < n
            invariant
                68 <= pos <= n,
                n == payload@.len(),
                ac.called_ae@ == payload@.subrange(4, 20),
                ac.calling_ae@ == payload@.subrange(20, 36),
                spec_assoc_items_wf(payload@, 68, 0x21) == spec_assoc_items_wf(
                    payload@,
                    pos as int,
                    0x21,
                ),
                spec_last_item_body(payload@, 68, 0x10, Seq::empty()) == spec_last_item_body(
                    payload@,
                    pos as int,
                    0x10,
                    ac.app_ctx@,
                ),
                spec_item_count(payload@, 68, 0x21) == ac.pres_ctxs@.len() + spec_item_count(
                    payload@,
                    pos as int,
                    0x21,
                ),
                spec_scan_max_pdu(payload@, 68, 0) == spec_scan_max_pdu(
                    payload@,
                    pos as int,
                    ac.max_pdu as int,
                ),
            decreases n - pos,
        {
            if n - pos < 4 {
                return Err(DimseError::UnexpectedEof);
            }
            let code: u8 = payload[pos];
            let len: u16 = read_u16(payload, pos + 2, true);
            let len: usize = len as usize;
            if len > n - (pos + 4) {
                return Err(DimseError::UnexpectedEof);
            }
            let body_lo: usize = pos + 4;
            let body_hi: usize = body_lo + len;
            if code == 0x10 {
                ac.app_ctx = crate::bytes::copy_range(payload, body_lo, body_hi);
            } else if code == 0x21 {
                match parse_pres_ctx_result(payload, body_lo, body_hi) {
                    Ok(pc) => {
                        ac.pres_ctxs.push(pc);
                    },
                    Err(e) => {
                        return Err(e);
                    },
                }
            } else if code == 0x50 {
                match parse_user_info(payload, body_lo, body_hi) {
                    Ok(max) => {
                        ac.max_pdu = max;
                    },
                    Err(e) => {
                        return Err(e);
                    },
                }
            }
            pos = body_hi;
        }
        Ok(ac)
    }
}

/// Reads one presentation-context result item body.
fn parse_pres_ctx_result(payload: &Vec<u8>, lo: usize, hi: usize) -> (r: Result<
    PresCtxResult,
    DimseError,
>)
    requires
        lo <= hi <= payload@.len(),
    ensures
        r is Ok <==> hi - lo >= 4 && spec_subitems_wf(payload@, lo + 4, hi as int),
{
    if hi - lo < 4 {
        return Err(DimseError::UnexpectedEof);
    }
    let id: u8 = payload[lo];
    let result: u8 = payload[lo + 2];
    let mut pc = PresCtxResult { id, result, transfer_syntax: Vec::new() };
    let mut pos: usize = lo + 4;
    while pos < hi
        invariant
            lo + 4 <= pos <= hi <= payload@.len(),
            spec_subitems_wf(payload@, lo + 4, hi as int) == spec_subitems_wf(
                payload@,
                pos as int,
                hi as int,
            ),
        decreases hi - pos,
    {
        if hi - pos < 4 {
            return Err(DimseError::UnexpectedEof);
        }
        let code: u8 = payload[pos];
        let len: u16 = read_u16(payload, pos + 2, true);
        let len: usize = len as usize;
        if len > hi - (pos + 4) {
            return Err(DimseError::UnexpectedEof);
        }
        let body_lo: usize = pos + 4;
        let body_hi: usize = body_lo + len;
        if code == 0x40 {
            pc.transfer_syntax = crate::bytes::copy_range(payload, body_lo, body_hi);
        }
        pos = body_hi;
    }
    Ok(pc)
}

} // verus!

//! The DIMSE command builder: command-group datasets in implicit-VR
//! little-endian, for the C-ECHO, C-FIND and C-STORE request and
//! response flow.

use vstd::prelude::*;

use crate::bytes::u16_at;
use crate::charset::CharSet;
use crate::element::{spec_elem_wire_bytes, spec_stream_bytes, write_stream, DicomElement, ValueLength};
use crate::tags;
use crate::vr::Vr;

verus! {

/// Command field values.
pub const C_STORE_RQ: u16 = 0x0001;
pub const C_STORE_RSP: u16 = 0x8001;
pub const C_FIND_RQ: u16 = 0x0020;
pub const C_FIND_RSP: u16 = 0x8020;
pub const C_ECHO_RQ: u16 = 0x0030;
pub const C_ECHO_RSP: u16 = 0x8030;

/// The Command Data Set Type value that says no dataset follows.
pub const NO_DATASET: u16 = 0x0101;

/// The Status value for success.
pub const STATUS_SUCCESS: u16 = 0x0000;

/// The Status value for a pending C-FIND match.
pub const STATUS_PENDING: u16 = 0xFF00;

/// A DIMSE message's command set: the presentation context it arrived
/// or leaves on, and its command-group elements in order.
pub struct CommandMessage {
    pub ctx_id: u8,
    pub elements: Vec<DicomElement>,
}

/// The first element with the given tag, if any.
pub open spec fn spec_find_elem(elems: Seq<DicomElement>, tag: u32) -> Option<DicomElement>
    decreases elems.len(),
{
    if elems.len() == 0 {
        None
    } else if elems[0].tag == tag {
        Some(elems[0])
    } else {
        spec_find_elem(elems.drop_first(), tag)
    }
}

/// The `u16` value of the first element with the given tag, if that
/// element holds one.
pub open spec fn spec_cmd_ushort(elems: Seq<DicomElement>, tag: u32) -> Option<u16> {
    match spec_find_elem(elems, tag) {
        Some(e) => if e.data@.len() >= 2 {
            Some(u16_at(e.data@, 0, e.big_endian) as u16)
        } else {
            None
        },
        None => None,
    }
}

/// A command-group element holding the given bytes, in implicit-VR
/// little-endian as command sets always are.
pub fn cmd_element(tag: u32, vr: Vr, data: Vec<u8>) -> (r: DicomElement)
    requires
        data@.len() <= 0xFFFF_FFFF,
    ensures
        r.tag == tag,
        r.vr == vr,
        r.data@ == data@,
        r.big_endian == false,
        r.explicit_vr == false,
        r.vl == ValueLength::Explicit(data@.len() as u32),
        r.sq_path@.len() == 0,
    {
    let len: u32 = data.len() as u32;
    DicomElement {
        tag,
        vr,
        vl: ValueLength::Explicit(len),
        data,
        sq_path: Vec::new(),
        explicit_vr: false,
        big_endian: false,
        cs: CharSet::Default,
        lossy: false,
    }
}

/// The two little-endian bytes of a US value.
pub fn ushort_data(v: u16) -> (r: Vec<u8>)
    ensures
        r@.len() == 2,
        u16_at(r@, 0, false) == v,
{
    let lo: u8 = (v % 0x100) as u8;
    let hi: u8 = (v / 0x100) as u8;
    let r: Vec<u8> = vec![lo, hi];
    proof {
        crate::bytes::lemma_byte_pair_split(v as int / 0x100, v as int % 0x100);
    }
    r
}

/// A UID value padded with one NUL to an even length.
pub fn uid_data(uid: &Vec<u8>) -> (r: Vec<u8>)
    requires
        uid@.len() < 0xFFFF_0000,
    ensures
        r@.len() % 2 == 0,
        r@.subrange(0, uid@.len() as int) == uid@,
        r@.len() <= uid@.len() + 1,
{
    let mut r = crate::bytes::clone_bytes(uid);
    if r.len() % 2 != 0 {
        r.push(0x00);
    }
    assert(r@.subrange(0, uid@.len() as int) =~= uid@);
    r
}

impl CommandMessage {
    /// The `u16` value of the command element with the given tag.
    pub fn get_ushort(&self, tag: u32) -> (r: Option<u16>)
        ensures
            r == spec_cmd_ushort(self.elements@, tag),
    {
        let n: usize = self.elements.len();
        let mut i: usize = 0;
        assert(self.elements@.subrange(0, n as int) =~= self.elements@);
        while i < n
            invariant
                0 <= i <= n,
                n == self.elements@.len(),
                spec_find_elem(self.elements@, tag) == spec_find_elem(
                    self.elements@.subrange(i as int, n as int),
                    tag,
                ),
            decreases n - i,
        {
            let ghost rest = self.elements@.subrange(i as int, n as int);
            assert(rest.drop_first() =~= self.elements@.subrange(i + 1, n as int));
            if self.elements[i].tag == tag {
                return self.elements[i].parse_ushort();
            }
            i += 1;
        }
        assert(self.elements@.subrange(n as int, n as int) =~= Seq::<DicomElement>::empty());
        None
    }

    /// The value bytes of the command element with the given tag, with
    /// trailing NUL padding removed.
    pub fn get_uid(&self, tag: u32) -> (r: Option<Vec<u8>>)
        ensures
            match r {
                Some(v) => match spec_find_elem(self.elements@, tag) {
                    Some(e) => v@ == e.data@.subrange(
                        0,
                        crate::element::spec_trimmed_len(e.data@, 0x00),
                    ),
                    None => false,
                },
                None => spec_find_elem(self.elements@, tag) is None,
            },
    {
        let n: usize = self.elements.len();
        let mut i: usize = 0;
        assert(self.elements@.subrange(0, n as int) =~= self.elements@);
        while i < n
            invariant
                0 <= i <= n,
                n == self.elements@.len(),
                spec_find_elem(self.elements@, tag) == spec_find_elem(
                    self.elements@.subrange(i as int, n as int),
                    tag,
                ),
            decreases n - i,
        {
            let ghost rest = self.elements@.subrange(i as int, n as int);
            assert(rest.drop_first() =~= self.elements@.subrange(i + 1, n as int));
            if self.elements[i].tag == tag {
                return Some(
                    crate::element::trim_trailing(self.elements[i].data.as_slice(), 0x00),
                );
            }
            i += 1;
        }
        assert(self.elements@.subrange(n as int, n as int) =~= Seq::<DicomElement>::empty());
        None
    }

    /// Encodes this command set into its implicit-VR little-endian
    /// bytes.
    pub fn encode(&self, out: &mut Vec<u8>)
        ensures
            final(out)@ == old(out)@ + spec_stream_bytes(self.elements@),
    {
        write_stream(&self.elements, out);
    }

    /// A C-ECHO request: the verification class, the request command
    /// field, a message id, and no dataset.
    pub fn cecho_rq(ctx_id: u8, msg_id: u16, sop_class_uid: &Vec<u8>) -> (r: CommandMessage)
        requires
            sop_class_uid@.len() < 0xFFFF_0000,
        ensures
            r.ctx_id == ctx_id,
            spec_cmd_ushort(r.elements@, tags::COMMAND_FIELD) == Some(C_ECHO_RQ),
            spec_cmd_ushort(r.elements@, tags::MESSAGE_ID) == Some(msg_id),
            spec_cmd_ushort(r.elements@, tags::COMMAND_DATA_SET_TYPE) == Some(NO_DATASET),
    {
        let mut elements: Vec<DicomElement> = Vec::new();
        elements.push(cmd_element(tags::AFFECTED_SOP_CLASS_UID, Vr::UI, uid_data(sop_class_uid)));
        elements.push(cmd_element(tags::COMMAND_FIELD, Vr::US, ushort_data(C_ECHO_RQ)));
        elements.push(cmd_element(tags::MESSAGE_ID, Vr::US, ushort_data(msg_id)));
        elements.push(
            cmd_element(tags::COMMAND_DATA_SET_TYPE, Vr::US, ushort_data(NO_DATASET)),
        );
        let r = CommandMessage { ctx_id, elements };
        proof {
            reveal_find_four(r.elements@);
        }
        r
    }

    /// A C-ECHO response answering a request: the same affected class,
    /// the response command field, the request's message id echoed as
    /// Message ID Being Responded To, no dataset, and a success status.
    /// Success is owed whenever the request carries the affected class
    /// and a message id; a request missing the class fails on that
    /// first, then one missing the id.
    pub fn cecho_rsp_from_req(req: &CommandMessage) -> (r: Result<CommandMessage, u32>)
        ensures
            match r {
                Ok(rsp) => {
                    &&& spec_find_elem(req.elements@, tags::AFFECTED_SOP_CLASS_UID) is Some
                    &&& spec_cmd_ushort(req.elements@, tags::MESSAGE_ID) is Some
                    &&& rsp.ctx_id == req.ctx_id
                    &&& spec_cmd_ushort(rsp.elements@, tags::COMMAND_FIELD) == Some(C_ECHO_RSP)
                    &&& spec_cmd_ushort(rsp.elements@, tags::MESSAGE_ID_BEING_RESPONDED_TO)
                        == spec_cmd_ushort(req.elements@, tags::MESSAGE_ID)
                    &&& spec_cmd_ushort(rsp.elements@, tags::STATUS) == Some(STATUS_SUCCESS)
                },
                Err(tag) => (tag == tags::AFFECTED_SOP_CLASS_UID && spec_find_elem(
                    req.elements@,
                    tags::AFFECTED_SOP_CLASS_UID,
                ) is None) || (tag == tags::MESSAGE_ID && spec_find_elem(
                    req.elements@,
                    tags::AFFECTED_SOP_CLASS_UID,
                ) is Some && spec_cmd_ushort(req.elements@, tags::MESSAGE_ID) is None),
            },
    {
        let mut sop_class: Vec<u8> = match req.get_uid(tags::AFFECTED_SOP_CLASS_UID) {
            Some(v) => v,
            None => {
                return Err(tags::AFFECTED_SOP_CLASS_UID);
            },
        };
        if sop_class.len() >= 0xFFFF_0000 {
            sop_class = Vec::new();
        }
        let msg_id: u16 = match req.get_ushort(tags::MESSAGE_ID) {
            Some(v) => v,
            None => {
                return Err(tags::MESSAGE_ID);
            },
        };
        let mut elements: Vec<DicomElement> = Vec::new();
        elements.push(cmd_element(tags::AFFECTED_SOP_CLASS_UID, Vr::UI, uid_data(&sop_class)));
        elements.push(cmd_element(tags::COMMAND_FIELD, Vr::US, ushort_data(C_ECHO_RSP)));
        elements.push(
            cmd_element(tags::MESSAGE_ID_BEING_RESPONDED_TO, Vr::US, ushort_data(msg_id)),
        );
        elements.push(
            cmd_element(tags::COMMAND_DATA_SET_TYPE, Vr::US, ushort_data(NO_DATASET)),
        );
        elements.push(cmd_element(tags::STATUS, Vr::US, ushort_data(STATUS_SUCCESS)));
        let r = CommandMessage { ctx_id: req.ctx_id, elements };
        proof {
            reveal_find_five(r.elements@);
        }
        Ok(r)
    }

    /// A C-FIND request: the query model's class, the request command
    /// field, a message id, and an identifier dataset to follow.
    pub fn cfind_rq(ctx_id: u8, msg_id: u16, sop_class_uid: &Vec<u8>) -> (r: CommandMessage)
        requires
            sop_class_uid@.len() < 0xFFFF_0000,
        ensures
            r.ctx_id == ctx_id,
            spec_cmd_ushort(r.elements@, tags::COMMAND_FIELD) == Some(C_FIND_RQ),
            spec_cmd_ushort(r.elements@, tags::MESSAGE_ID) == Some(msg_id),
            spec_cmd_ushort(r.elements@, tags::COMMAND_DATA_SET_TYPE) == Some(0x0102u16),
    {
        let mut elements: Vec<DicomElement> = Vec::new();
        elements.push(cmd_element(tags::AFFECTED_SOP_CLASS_UID, Vr::UI, uid_data(sop_class_uid)));
        elements.push(cmd_element(tags::COMMAND_FIELD, Vr::US, ushort_data(C_FIND_RQ)));
        elements.push(cmd_element(tags::MESSAGE_ID, Vr::US, ushort_data(msg_id)));
        elements.push(cmd_element(tags::PRIORITY, Vr::US, ushort_data(0)));
        elements.push(cmd_element(tags::COMMAND_DATA_SET_TYPE, Vr::US, ushort_data(0x0102)));
        let r = CommandMessage { ctx_id, elements };
        proof {
            reveal_find_five(r.elements@);
        }
        r
    }

    /// A C-FIND pending response's command set: one per match, each
    /// followed by a dataset.
    pub fn cfind_pending_rsp(ctx_id: u8, msg_id: u16, sop_class_uid: &Vec<u8>) -> (r:
        CommandMessage)
        requires
            sop_class_uid@.len() < 0xFFFF_0000,
        ensures
            r.ctx_id == ctx_id,
            spec_cmd_ushort(r.elements@, tags::COMMAND_FIELD) == Some(C_FIND_RSP),
            spec_cmd_ushort(r.elements@, tags::STATUS) == Some(STATUS_PENDING),
            spec_cmd_ushort(r.elements@, tags::COMMAND_DATA_SET_TYPE) == Some(0x0102u16),
    {
        let mut elements: Vec<DicomElement> = Vec::new();
        elements.push(cmd_element(tags::AFFECTED_SOP_CLASS_UID, Vr::UI, uid_data(sop_class_uid)));
        elements.push(cmd_element(tags::COMMAND_FIELD, Vr::US, ushort_data(C_FIND_RSP)));
        elements.push(
            cmd_element(tags::MESSAGE_ID_BEING_RESPONDED_TO, Vr::US, ushort_data(msg_id)),
        );
        elements.push(cmd_element(tags::COMMAND_DATA_SET_TYPE, Vr::US, ushort_data(0x0102)));
        elements.push(cmd_element(tags::STATUS, Vr::US, ushort_data(STATUS_PENDING)));
        let r = CommandMessage { ctx_id, elements };
        proof {
            reveal_find_five(r.elements@);
        }
        r
    }

    /// The C-FIND terminator: a success status and no dataset, always
    /// delivered after the last match.
    pub fn cfind_end_rsp(ctx_id: u8, msg_id: u16, sop_class_uid: &Vec<u8>) -> (r: CommandMessage)
        requires
            sop_class_uid@.len() < 0xFFFF_0000,
        ensures
            r.ctx_id == ctx_id,
            spec_cmd_ushort(r.elements@, tags::COMMAND_FIELD) == Some(C_FIND_RSP),
            spec_cmd_ushort(r.elements@, tags::STATUS) == Some(STATUS_SUCCESS),
            spec_cmd_ushort(r.elements@, tags::COMMAND_DATA_SET_TYPE) == Some(NO_DATASET),
    {
        let mut elements: Vec<DicomElement> = Vec::new();
        elements.push(cmd_element(tags::AFFECTED_SOP_CLASS_UID, Vr::UI, uid_data(sop_class_uid)));
        elements.push(cmd_element(tags::COMMAND_FIELD, Vr::US, ushort_data(C_FIND_RSP)));
        elements.push(
            cmd_element(tags::MESSAGE_ID_BEING_RESPONDED_TO, Vr::US, ushort_data(msg_id)),
        );
        elements.push(cmd_element(tags::COMMAND_DATA_SET_TYPE, Vr::US, ushort_data(NO_DATASET)));
        elements.push(cmd_element(tags::STATUS, Vr::US, ushort_data(STATUS_SUCCESS)));
        let r = CommandMessage { ctx_id, elements };
        proof {
            reveal_find_five(r.elements@);
        }
        r
    }

    /// The full response train a C-FIND producing `n_results` matches
    /// sends on one presentation context: one pending response per
    /// match, then the success terminator, and nothing after it.
    pub fn cfind_rsp_sequence(
        ctx_id: u8,
        msg_id: u16,
        sop_class_uid: &Vec<u8>,
        n_results: usize,
    ) -> (r: Vec<CommandMessage>)
        requires
            sop_class_uid@.len() < 0xFFFF_0000,
            n_results < usize::MAX,
        ensures
            r@.len() == n_results + 1,
            forall|i: int|
                0 <= i < n_results ==> {
                    let m = #[trigger] r@[i];
                    &&& m.ctx_id == ctx_id
                    &&& spec_cmd_ushort(m.elements@, tags::COMMAND_FIELD) == Some(C_FIND_RSP)
                    &&& spec_cmd_ushort(m.elements@, tags::STATUS) == Some(STATUS_PENDING)
                    &&& spec_cmd_ushort(m.elements@, tags::COMMAND_DATA_SET_TYPE) == Some(
                        0x0102u16,
                    )
                },
            ({
                let m = r@.last();
                &&& m.ctx_id == ctx_id
                &&& spec_cmd_ushort(m.elements@, tags::COMMAND_FIELD) == Some(C_FIND_RSP)
                &&& spec_cmd_ushort(m.elements@, tags::STATUS) == Some(STATUS_SUCCESS)
                &&& spec_cmd_ushort(m.elements@, tags::COMMAND_DATA_SET_TYPE) == Some(NO_DATASET)
            }),
    {
        let mut out: Vec<CommandMessage> = Vec::new();
        let mut i: usize = 0;
        while i < n_results
            invariant
                0 <= i <= n_results,
                n_results < usize::MAX,
                sop_class_uid@.len() < 0xFFFF_0000,
                out@.len() == i,
                forall|k: int|
                    0 <= k < i ==> {
                        let m = #[trigger] out@[k];
                        &&& m.ctx_id == ctx_id
                        &&& spec_cmd_ushort(m.elements@, tags::COMMAND_FIELD) == Some(C_FIND_RSP)
                        &&& spec_cmd_ushort(m.elements@, tags::STATUS) == Some(STATUS_PENDING)
                        &&& spec_cmd_ushort(m.elements@, tags::COMMAND_DATA_SET_TYPE) == Some(
                            0x0102u16,
                        )
                    },
            decreases n_results - i,
        {
            out.push(Self::cfind_pending_rsp(ctx_id, msg_id, sop_class_uid));
            i += 1;
        }
        out.push(Self::cfind_end_rsp(ctx_id, msg_id, sop_class_uid));
        out
    }
}

/// Unfolds element lookup over a four-element command set.
proof fn reveal_find_four(elems: Seq<DicomElement>)
    requires
        elems.len() == 4,
    ensures
        forall|t: u32|
            #[trigger] spec_find_elem(elems, t) == (if elems[0].tag == t {
                Some(elems[0])
            } else if elems[1].tag == t {
                Some(elems[1])
            } else if elems[2].tag == t {
                Some(elems[2])
            } else if elems[3].tag == t {
                Some(elems[3])
            } else {
                None
            }),
{
    assert forall|t: u32| true implies #[trigger] spec_find_elem(elems, t) == (if elems[0].tag
        == t {
        Some(elems[0])
    } else if elems[1].tag == t {
        Some(elems[1])
    } else if elems[2].tag == t {
        Some(elems[2])
    } else if elems[3].tag == t {
        Some(elems[3])
    } else {
        None
    }) by {
        let s1 = elems.drop_first();
        let s2 = s1.drop_first();
        let s3 = s2.drop_first();
        let s4 = s3.drop_first();
        assert(s4.len() == 0);
        assert(s1[0] == elems[1] && s2[0] == elems[2] && s3[0] == elems[3]);
        assert(spec_find_elem(s4, t) is None);
        assert(spec_find_elem(s3, t) == (if s3[0].tag == t {
            Some(s3[0])
        } else {
            spec_find_elem(s4, t)
        }));
        assert(spec_find_elem(s2, t) == (if s2[0].tag == t {
            Some(s2[0])
        } else {
            spec_find_elem(s3, t)
        }));
        assert(spec_find_elem(s1, t) == (if s1[0].tag == t {
            Some(s1[0])
        } else {
            spec_find_elem(s2, t)
        }));
    }
}

/// Unfolds element lookup over a five-element command set.
proof fn reveal_find_five(elems: Seq<DicomElement>)
    requires
        elems.len() == 5,
    ensures
        forall|t: u32|
            #[trigger] spec_find_elem(elems, t) == (if elems[0].tag == t {
                Some(elems[0])
            } else if elems[1].tag == t {
                Some(elems[1])
            } else if elems[2].tag == t {
                Some(elems[2])
            } else if elems[3].tag == t {
                Some(elems[3])
            } else if elems[4].tag == t {
                Some(elems[4])
            } else {
                None
            }),
{
    assert forall|t: u32| true implies #[trigger] spec_find_elem(elems, t) == (if elems[0].tag
        == t {
        Some(elems[0])
    } else if elems[1].tag == t {
        Some(elems[1])
    } else if elems[2].tag == t {
        Some(elems[2])
    } else if elems[3].tag == t {
        Some(elems[3])
    } else if elems[4].tag == t {
        Some(elems[4])
    } else {
        None
    }) by {
        let s1 = elems.drop_first();
        let s2 = s1.drop_first();
        let s3 = s2.drop_first();
        let s4 = s3.drop_first();
        let s5 = s4.drop_first();
        assert(s5.len() == 0);
        assert(s1[0] == elems[1] && s2[0] == elems[2] && s3[0] == elems[3] && s4[0] == elems[4]);
        assert(spec_find_elem(s5, t) is None);
        assert(spec_find_elem(s4, t) == (if s4[0].tag == t {
            Some(s4[0])
        } else {
            spec_find_elem(s5, t)
        }));
        assert(spec_find_elem(s3, t) == (if s3[0].tag == t {
            Some(s3[0])
        } else {
            spec_find_elem(s4, t)
        }));
        assert(spec_find_elem(s2, t) == (if s2[0].tag == t {
            Some(s2[0])
        } else {
            spec_find_elem(s3, t)
        }));
        assert(spec_find_elem(s1, t) == (if s1[0].tag == t {
            Some(s1[0])
        } else {
            spec_find_elem(s2, t)
        }));
    }
}


impl CommandMessage {
    /// A C-STORE request: the stored instance's class and instance
    /// UIDs, a priority, and a dataset to follow.
    pub fn cstore_rq(
        ctx_id: u8,
        msg_id: u16,
        sop_class_uid: &Vec<u8>,
        sop_instance_uid: &Vec<u8>,
        priority: u16,
    ) -> (r: CommandMessage)
        requires
            sop_class_uid@.len() < 0xFFFF_0000,
            sop_instance_uid@.len() < 0xFFFF_0000,
        ensures
            r.ctx_id == ctx_id,
            spec_cmd_ushort(r.elements@, tags::COMMAND_FIELD) == Some(C_STORE_RQ),
            spec_cmd_ushort(r.elements@, tags::MESSAGE_ID) == Some(msg_id),
            spec_cmd_ushort(r.elements@, tags::PRIORITY) == Some(priority),
            spec_cmd_ushort(r.elements@, tags::COMMAND_DATA_SET_TYPE) == Some(0x0102u16),
    {
        let mut elements: Vec<DicomElement> = Vec::new();
        elements.push(cmd_element(tags::AFFECTED_SOP_CLASS_UID, Vr::UI, uid_data(sop_class_uid)));
        elements.push(cmd_element(tags::COMMAND_FIELD, Vr::US, ushort_data(C_STORE_RQ)));
        elements.push(cmd_element(tags::MESSAGE_ID, Vr::US, ushort_data(msg_id)));
        elements.push(cmd_element(tags::PRIORITY, Vr::US, ushort_data(priority)));
        elements.push(cmd_element(tags::COMMAND_DATA_SET_TYPE, Vr::US, ushort_data(0x0102)));
        elements.push(
            cmd_element(tags::AFFECTED_SOP_INSTANCE_UID, Vr::UI, uid_data(sop_instance_uid)),
        );
        let r = CommandMessage { ctx_id, elements };
        proof {
            reveal_find_six(r.elements@);
        }
        r
    }

    /// A C-STORE response answering a request: the request's message
    /// id echoed, no dataset, and the given status. Success is owed
    /// whenever the request carries the affected class and a message
    /// id; a request missing the class fails on that first.
    pub fn cstore_rsp_from_req(req: &CommandMessage, status: u16) -> (r: Result<
        CommandMessage,
        u32,
    >)
        ensures
            match r {
                Ok(rsp) => {
                    &&& spec_find_elem(req.elements@, tags::AFFECTED_SOP_CLASS_UID) is Some
                    &&& spec_cmd_ushort(req.elements@, tags::MESSAGE_ID) is Some
                    &&& rsp.ctx_id == req.ctx_id
                    &&& spec_cmd_ushort(rsp.elements@, tags::COMMAND_FIELD) == Some(C_STORE_RSP)
                    &&& spec_cmd_ushort(rsp.elements@, tags::MESSAGE_ID_BEING_RESPONDED_TO)
                        == spec_cmd_ushort(req.elements@, tags::MESSAGE_ID)
                    &&& spec_cmd_ushort(rsp.elements@, tags::STATUS) == Some(status)
                    &&& spec_cmd_ushort(rsp.elements@, tags::COMMAND_DATA_SET_TYPE) == Some(
                        NO_DATASET,
                    )
                },
                Err(tag) => (tag == tags::AFFECTED_SOP_CLASS_UID && spec_find_elem(
                    req.elements@,
                    tags::AFFECTED_SOP_CLASS_UID,
                ) is None) || (tag == tags::MESSAGE_ID && spec_find_elem(
                    req.elements@,
                    tags::AFFECTED_SOP_CLASS_UID,
                ) is Some && spec_cmd_ushort(req.elements@, tags::MESSAGE_ID) is None),
            },
    {
        let mut sop_class: Vec<u8> = match req.get_uid(tags::AFFECTED_SOP_CLASS_UID) {
            Some(v) => v,
            None => {
                return Err(tags::AFFECTED_SOP_CLASS_UID);
            },
        };
        if sop_class.len() >= 0xFFFF_0000 {
            sop_class = Vec::new();
        }
        let msg_id: u16 = match req.get_ushort(tags::MESSAGE_ID) {
            Some(v) => v,
            None => {
                return Err(tags::MESSAGE_ID);
            },
        };
        let mut elements: Vec<DicomElement> = Vec::new();
        elements.push(cmd_element(tags::AFFECTED_SOP_CLASS_UID, Vr::UI, uid_data(&sop_class)));
        elements.push(cmd_element(tags::COMMAND_FIELD, Vr::US, ushort_data(C_STORE_RSP)));
        elements.push(
            cmd_element(tags::MESSAGE_ID_BEING_RESPONDED_TO, Vr::US, ushort_data(msg_id)),
        );
        elements.push(cmd_element(tags::COMMAND_DATA_SET_TYPE, Vr::US, ushort_data(NO_DATASET)));
        elements.push(cmd_element(tags::STATUS, Vr::US, ushort_data(status)));
        let r = CommandMessage { ctx_id: req.ctx_id, elements };
        proof {
            reveal_find_five(r.elements@);
        }
        Ok(r)
    }
}

/// Unfolds element lookup over a six-element command set.
proof fn reveal_find_six(elems: Seq<DicomElement>)
    requires
        elems.len() == 6,
    ensures
        forall|t: u32|
            #[trigger] spec_find_elem(elems, t) == (if elems[0].tag == t {
                Some(elems[0])
            } else if elems[1].tag == t {
                Some(elems[1])
            } else if elems[2].tag == t {
                Some(elems[2])
            } else if elems[3].tag == t {
                Some(elems[3])
            } else if elems[4].tag == t {
                Some(elems[4])
            } else if elems[5].tag == t {
                Some(elems[5])
            } else {
                None
            }),
{
    assert forall|t: u32| true implies #[trigger] spec_find_elem(elems, t) == (if elems[0].tag
        == t {
        Some(elems[0])
    } else if elems[1].tag == t {
        Some(elems[1])
    } else if elems[2].tag == t {
        Some(elems[2])
    } else if elems[3].tag == t {
        Some(elems[3])
    } else if elems[4].tag == t {
        Some(elems[4])
    } else if elems[5].tag == t {
        Some(elems[5])
    } else {
        None
    }) by {
        let s1 = elems.drop_first();
        let s2 = s1.drop_first();
        let s3 = s2.drop_first();
        let s4 = s3.drop_first();
        let s5 = s4.drop_first();
        let s6 = s5.drop_first();
        assert(s6.len() == 0);
        assert(s1[0] == elems[1] && s2[0] == elems[2] && s3[0] == elems[3] && s4[0] == elems[4]
            && s5[0] == elems[5]);
        assert(spec_find_elem(s6, t) is None);
        assert(spec_find_elem(s5, t) == (if s5[0].tag == t {
            Some(s5[0])
        } else {
            spec_find_elem(s6, t)
        }));
        assert(spec_find_elem(s4, t) == (if s4[0].tag == t {
            Some(s4[0])
        } else {
            spec_find_elem(s5, t)
        }));
        assert(spec_find_elem(s3, t) == (if s3[0].tag == t {
            Some(s3[0])
        } else {
            spec_find_elem(s4, t)
        }));
        assert(spec_find_elem(s2, t) == (if s2[0].tag == t {
            Some(s2[0])
        } else {
            spec_find_elem(s3, t)
        }));
        assert(spec_find_elem(s1, t) == (if s1[0].tag == t {
            Some(s1[0])
        } else {
            spec_find_elem(s2, t)
        }));
    }
}


/// Whether an element has the flat command-set form: implicit-VR
/// little-endian, at the top level, its length stated and carried
/// inline.
pub open spec fn spec_cmd_form(e: DicomElement) -> bool {
    &&& !e.explicit_vr
    &&& !e.big_endian
    &&& e.vl == ValueLength::Explicit(e.data@.len() as u32)
    &&& e.data@.len() < 0xFFFF_FFFF
}

/// Building a command set from fields, encoding it, and parsing the
/// bytes back recovers the same fields: the flat implicit-VR form is
/// length-prefixed, so two command sets with the same bytes carry the
/// same tags and values.
#[verifier::rlimit(100)]
#[verifier::spinoff_prover]
pub proof fn lemma_cmd_stream_injective(a: Seq<DicomElement>, b: Seq<DicomElement>)
    requires
        spec_stream_bytes(a) == spec_stream_bytes(b),
        forall|i: int| 0 <= i < a.len() ==> spec_cmd_form(#[trigger] a[i]),
        forall|i: int| 0 <= i < b.len() ==> spec_cmd_form(#[trigger] b[i]),
    ensures
        a.len() == b.len(),
        forall|i: int|
            0 <= i < a.len() ==> (#[trigger] a[i]).tag == b[i].tag && a[i].data@ == b[i].data@,
    decreases a.len() + b.len(),
{
    if a.len() == 0 && b.len() == 0 {
    } else if a.len() == 0 || b.len() == 0 {
        assert(spec_stream_bytes(a).len() == 0 <==> a.len() == 0) by {
            if a.len() > 0 {
                assert(spec_stream_bytes(a).len() >= spec_elem_wire_bytes(a[0]).len());
                assert(spec_elem_wire_bytes(a[0]).len() >= 8);
            }
        }
        assert(spec_stream_bytes(b).len() == 0 <==> b.len() == 0) by {
            if b.len() > 0 {
                assert(spec_stream_bytes(b).len() >= spec_elem_wire_bytes(b[0]).len());
                assert(spec_elem_wire_bytes(b[0]).len() >= 8);
            }
        }
    } else {
        let x = a[0];
        let y = b[0];
        let bytes = spec_stream_bytes(a);
        assert(bytes == spec_elem_wire_bytes(x) + spec_stream_bytes(a.drop_first()));
        assert(bytes == spec_elem_wire_bytes(y) + spec_stream_bytes(b.drop_first()));
        assert(bytes.subrange(0, spec_elem_wire_bytes(x).len() as int) =~= spec_elem_wire_bytes(
            x,
        ));
        assert(bytes.subrange(0, spec_elem_wire_bytes(y).len() as int) =~= spec_elem_wire_bytes(
            y,
        ));
        lemma_cmd_head(bytes, x);
        lemma_cmd_head(bytes, y);
        assert(x.data@.len() == y.data@.len());
        let k = spec_elem_wire_bytes(x).len();
        assert(spec_elem_wire_bytes(y).len() == k);
        assert(x.data@ =~= bytes.subrange(8, k as int));
        assert(y.data@ =~= bytes.subrange(8, k as int));
        assert(spec_stream_bytes(a.drop_first()) =~= bytes.subrange(k as int, bytes.len() as int));
        assert(spec_stream_bytes(b.drop_first()) =~= bytes.subrange(k as int, bytes.len() as int));
        lemma_cmd_stream_injective(a.drop_first(), b.drop_first());
        assert forall|i: int|
            0 <= i < a.len() implies (#[trigger] a[i]).tag == b[i].tag && a[i].data@
            == b[i].data@ by {
            if i > 0 {
                assert(a[i] == a.drop_first()[i - 1]);
                assert(b[i] == b.drop_first()[i - 1]);
            }
        }
    }
}

/// A flat command element's tag and length are read back off the
/// front of any stream it heads.
proof fn lemma_cmd_head(bytes: Seq<u8>, x: DicomElement)
    requires
        spec_cmd_form(x),
        bytes.len() >= spec_elem_wire_bytes(x).len(),
        bytes.subrange(0, spec_elem_wire_bytes(x).len() as int) == spec_elem_wire_bytes(x),
    ensures
        spec_elem_wire_bytes(x).len() == 8 + x.data@.len(),
        x.data@.len() == crate::bytes::u32_at(bytes, 4, false),
        x.tag == crate::bytes::u16_at(bytes, 0, false) * 0x1_0000 + crate::bytes::u16_at(
            bytes,
            2,
            false,
        ),
        x.data@ == bytes.subrange(8, 8 + x.data@.len() as int),
{
    let w = spec_elem_wire_bytes(x);
    let g = (x.tag / 0x1_0000) as int;
    let e = (x.tag % 0x1_0000) as int;
    let len = x.data@.len() as int;
    assert(w =~= crate::bytes::u16_bytes(g, false) + crate::bytes::u16_bytes(e, false)
        + crate::bytes::u32_bytes(len, false) + x.data@);
    assert(w.subrange(0, 2) =~= crate::bytes::u16_bytes(g, false));
    assert(w.subrange(2, 4) =~= crate::bytes::u16_bytes(e, false));
    assert(w.subrange(4, 8) =~= crate::bytes::u32_bytes(len, false));
    crate::bytes::lemma_u16_round_trip(g, false);
    crate::bytes::lemma_u16_round_trip(e, false);
    crate::bytes::lemma_u32_round_trip(len, false);
    assert(bytes.subrange(0, 2) =~= w.subrange(0, 2));
    assert(bytes.subrange(2, 4) =~= w.subrange(2, 4));
    assert(bytes.subrange(4, 8) =~= w.subrange(4, 8));
    assert(crate::bytes::u16_at(bytes, 0, false) == crate::bytes::u16_at(w.subrange(0, 2), 0, false));
    assert(crate::bytes::u16_at(bytes, 2, false) == crate::bytes::u16_at(w.subrange(2, 4), 0, false));
    assert(crate::bytes::u32_at(bytes, 4, false) == crate::bytes::u32_at(w.subrange(4, 8), 0, false));
    assert(x.tag == g * 0x1_0000 + e);
    assert(x.data@ =~= w.subrange(8, 8 + len));
    assert(x.data@ =~= bytes.subrange(8, 8 + len));
}

} // verus!

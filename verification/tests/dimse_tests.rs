//! DIMSE behavior: PDU round trips, association negotiation, the
//! C-ECHO exchange, the C-FIND flow, and the failure responses.

use medicom::assoc::{AssocAc, AssocRq, PresCtxProposed};
use medicom::cfind::{create_dummy_results, group_records, GroupRecord, QueryLevel};
use medicom::commands::{
    CommandMessage, C_ECHO_RQ, C_ECHO_RSP, C_FIND_RSP, NO_DATASET, STATUS_PENDING, STATUS_SUCCESS,
};
use medicom::dimse::{AssocError, AssocRsp, DimseError};
use medicom::parser::Parser;
use medicom::pdu::{Abort, AssocRj, PDataTf, Pdv, PduType};
use medicom::tags;
use medicom::ts::TransferSyntax;

#[test]
fn abort_and_reject_round_trip() {
    let ab = Abort::new(2, 6);
    let mut bytes = Vec::new();
    ab.write(&mut bytes);
    assert_eq!(bytes, vec![0x07, 0, 0, 0, 0, 4, 0, 0, 2, 6]);
    assert_eq!(Abort::decode(&bytes), Some(ab));

    let rj = AssocRj::new(2, 1, 7);
    let mut bytes = Vec::new();
    rj.write(&mut bytes);
    assert_eq!(bytes, vec![0x03, 0, 0, 0, 0, 4, 0, 2, 1, 7]);
    assert_eq!(AssocRj::decode(&bytes), Some(rj));
    assert_eq!(Abort::decode(&bytes), None);
    assert_eq!(rj.pdu_type(), PduType::AssocRj);
}

#[test]
fn pdata_pdvs_round_trip() {
    let p = PDataTf {
        pdvs: vec![
            Pdv { ctx_id: 1, msg_header: 0x03, data: vec![9, 8, 7] },
            Pdv { ctx_id: 1, msg_header: 0x02, data: vec![] },
        ],
    };
    let mut bytes = Vec::new();
    p.write(&mut bytes).unwrap();
    assert_eq!(bytes[0], 0x04);
    let payload = bytes[6..].to_vec();
    let back = PDataTf::parse_pdvs(&payload).unwrap();
    assert_eq!(back, p.pdvs);
    assert!(back[0].is_command());
    assert!(back[0].is_last());
    assert!(!back[1].is_command());
    assert!(back[1].is_last());
}

fn verification_rq() -> AssocRq {
    AssocRq {
        called_ae: b"ARCHIVE ".to_vec(),
        calling_ae: b"SCU".to_vec(),
        app_ctx: b"1.2.840.10008.3.1.1.1".to_vec(),
        pres_ctxs: vec![PresCtxProposed {
            id: 1,
            abstract_syntax: b"1.2.840.10008.1.1".to_vec(),
            transfer_syntaxes: vec![b"1.2.840.10008.1.2".to_vec()],
        }],
        max_pdu: 16384,
    }
}

#[test]
fn assoc_rq_encodes_and_decodes() {
    let rq = verification_rq();
    let mut bytes = Vec::new();
    rq.encode(&mut bytes).unwrap();
    assert_eq!(bytes[0], 0x01);
    let payload = bytes[6..].to_vec();
    let back = AssocRq::decode_payload(&payload).unwrap();
    assert_eq!(back.called_ae, b"ARCHIVE         ".to_vec());
    assert_eq!(back.calling_ae, b"SCU             ".to_vec());
    assert_eq!(back.app_ctx, rq.app_ctx);
    assert_eq!(back.max_pdu, 16384);
    assert_eq!(back.pres_ctxs.len(), 1);
    assert_eq!(back.pres_ctxs[0].id, 1);
    assert_eq!(back.pres_ctxs[0].abstract_syntax, rq.pres_ctxs[0].abstract_syntax);
    assert_eq!(back.pres_ctxs[0].transfer_syntaxes, rq.pres_ctxs[0].transfer_syntaxes);
}

#[test]
fn cecho_exchange_succeeds() {
    // The requester proposes the verification class over implicit-VR
    // little-endian; the acceptor accepts it; a C-ECHO request with
    // message id 1 draws a response echoing that id with a success
    // status.
    let mut rq = verification_rq();
    rq.called_ae = b"ARCHIVE         ".to_vec();
    rq.calling_ae = b"SCU             ".to_vec();
    let mut rq_bytes = Vec::new();
    rq.encode(&mut rq_bytes).unwrap();

    // Acceptor side.
    let rq_seen = AssocRq::decode_payload(&rq_bytes[6..].to_vec()).unwrap();
    let supported = vec![b"1.2.840.10008.1.2".to_vec(), b"1.2.840.10008.1.2.1".to_vec()];
    let local_ae = b"ARCHIVE         ".to_vec();
    let ac = match medicom::assoc::accept_association(&rq_seen, &local_ae, &supported, 16384) {
        Ok(ac) => ac,
        Err(rj) => panic!("unexpected rejection: {:?}", rj),
    };
    assert_eq!(ac.pres_ctxs.len(), 1);
    assert_eq!(ac.pres_ctxs[0].result, 0);
    assert_eq!(ac.pres_ctxs[0].transfer_syntax, b"1.2.840.10008.1.2".to_vec());
    let mut ac_bytes = Vec::new();
    ac.encode(&mut ac_bytes).unwrap();
    let ac_seen = AssocAc::decode_payload(&ac_bytes[6..].to_vec()).unwrap();
    assert_eq!(ac_seen.pres_ctxs[0].result, 0);

    // Requester sends C-ECHO-RQ with MessageID 1 over the accepted
    // context.
    let sop = b"1.2.840.10008.1.1".to_vec();
    let echo_rq = CommandMessage::cecho_rq(1, 1, &sop);
    let mut cmd_bytes = Vec::new();
    echo_rq.encode(&mut cmd_bytes);
    let pdata = PDataTf {
        pdvs: vec![Pdv { ctx_id: 1, msg_header: 0x03, data: cmd_bytes }],
    };
    let mut wire = Vec::new();
    pdata.write(&mut wire).unwrap();

    // Acceptor reassembles the command set and answers.
    let pdvs = PDataTf::parse_pdvs(&wire[6..].to_vec()).unwrap();
    assert!(pdvs[0].is_command() && pdvs[0].is_last());
    let mut parser = Parser::new_with_ts(pdvs[0].data.clone(), TransferSyntax::ImplicitVrLe, true);
    let elems = parser.read_all().unwrap();
    let req = CommandMessage { ctx_id: pdvs[0].ctx_id, elements: elems };
    assert_eq!(req.get_ushort(tags::COMMAND_FIELD), Some(C_ECHO_RQ));
    assert_eq!(req.get_ushort(tags::MESSAGE_ID), Some(1));
    let rsp = CommandMessage::cecho_rsp_from_req(&req).unwrap();
    assert_eq!(rsp.get_ushort(tags::COMMAND_FIELD), Some(C_ECHO_RSP));
    assert_eq!(rsp.get_ushort(tags::MESSAGE_ID_BEING_RESPONDED_TO), Some(1));
    assert_eq!(rsp.get_ushort(tags::STATUS), Some(STATUS_SUCCESS));
    assert_eq!(rsp.get_ushort(tags::COMMAND_DATA_SET_TYPE), Some(NO_DATASET));
}

#[test]
fn command_fields_survive_encode_and_parse() {
    // Building a command set from fields, encoding it, and parsing it
    // back recovers the same fields.
    let sop = b"1.2.840.10008.1.1".to_vec();
    let msg = CommandMessage::cecho_rq(3, 77, &sop);
    let mut bytes = Vec::new();
    msg.encode(&mut bytes);
    let mut parser = Parser::new_with_ts(bytes, TransferSyntax::ImplicitVrLe, true);
    let back = CommandMessage { ctx_id: 3, elements: parser.read_all().unwrap() };
    assert_eq!(back.get_ushort(tags::COMMAND_FIELD), Some(C_ECHO_RQ));
    assert_eq!(back.get_ushort(tags::MESSAGE_ID), Some(77));
    assert_eq!(back.get_ushort(tags::COMMAND_DATA_SET_TYPE), Some(NO_DATASET));
    assert_eq!(back.get_uid(tags::AFFECTED_SOP_CLASS_UID), Some(sop));
}

#[test]
fn mismatched_called_ae_is_rejected() {
    let mut rq = verification_rq();
    rq.called_ae = b"ELSEWHERE       ".to_vec();
    let local_ae = b"ARCHIVE         ".to_vec();
    let supported = vec![b"1.2.840.10008.1.2".to_vec()];
    match medicom::assoc::accept_association(&rq, &local_ae, &supported, 0) {
        Err(rj) => {
            assert_eq!((rj.result, rj.source, rj.reason), (2, 1, 7));
        }
        Ok(_) => panic!("expected a rejection"),
    }
}

#[test]
fn unsupported_transfer_syntax_rejects_the_context() {
    let mut rq = verification_rq();
    rq.called_ae = b"ARCHIVE         ".to_vec();
    rq.pres_ctxs[0].transfer_syntaxes = vec![b"1.2.840.10008.1.2.4.50".to_vec()];
    let local_ae = b"ARCHIVE         ".to_vec();
    let supported = vec![b"1.2.840.10008.1.2".to_vec()];
    let ac = medicom::assoc::accept_association(&rq, &local_ae, &supported, 0).unwrap();
    assert_eq!(ac.pres_ctxs[0].result, 4);
}

#[test]
fn effective_pdu_limit_takes_the_lesser() {
    assert_eq!(medicom::assoc::effective_max_pdu(0, 4096), 4096);
    assert_eq!(medicom::assoc::effective_max_pdu(8192, 0), 8192);
    assert_eq!(medicom::assoc::effective_max_pdu(8192, 4096), 4096);
    assert_eq!(medicom::assoc::effective_max_pdu(2048, 4096), 2048);
}

#[test]
fn assoc_error_writes_its_response() {
    let e = AssocError::ab_unexpected_pdu(DimseError::UnexpectedPdu(PduType::ReleaseRq));
    match e.rsp() {
        Some(AssocRsp::Ab(ab)) => assert_eq!((ab.source, ab.reason), (2, 2)),
        other => panic!("expected an abort response, got {:?}", other),
    }
    let mut out = Vec::new();
    let err = e.write(&mut out).unwrap_err();
    assert_eq!(out, vec![0x07, 0, 0, 0, 0, 4, 0, 0, 2, 2]);
    assert_eq!(err, DimseError::UnexpectedPdu(PduType::ReleaseRq));

    let e = AssocError::rj_called_aet(DimseError::General);
    let mut out = Vec::new();
    let _ = e.write(&mut out);
    assert_eq!(out, vec![0x03, 0, 0, 0, 0, 4, 0, 2, 1, 7]);

    let e = AssocError::error(DimseError::General);
    let mut out = Vec::new();
    let _ = e.write(&mut out);
    assert!(out.is_empty());
}

#[test]
fn cfind_patient_query_returns_one_match_then_terminator() {
    // QueryRetrieveLevel PATIENT with PatientID "477-0101": exactly
    // one record answers, then the success terminator with no dataset.
    let results = create_dummy_results(&b"477-0101".to_vec(), &Vec::new());
    assert_eq!(results.len(), 1);
    assert_eq!(results[0].patient_id, b"477-0101".to_vec());
    assert_eq!(results[0].patient_name, b"SNOW^JON".to_vec());

    let sop = b"1.2.840.10008.5.1.4.1.2.1.1".to_vec();
    let mut responses = Vec::new();
    for _r in &results {
        responses.push(CommandMessage::cfind_pending_rsp(1, 5, &sop));
    }
    responses.push(CommandMessage::cfind_end_rsp(1, 5, &sop));
    assert_eq!(responses.len(), 2);
    assert_eq!(responses[0].get_ushort(tags::STATUS), Some(STATUS_PENDING));
    assert_eq!(responses[0].get_ushort(tags::COMMAND_FIELD), Some(C_FIND_RSP));
    let last = &responses[responses.len() - 1];
    assert_eq!(last.get_ushort(tags::STATUS), Some(STATUS_SUCCESS));
    assert_eq!(last.get_ushort(tags::COMMAND_DATA_SET_TYPE), Some(NO_DATASET));
}

#[test]
fn cfind_request_announces_its_dataset() {
    let sop = b"1.2.840.10008.5.1.4.1.2.1.1".to_vec();
    let rq = CommandMessage::cfind_rq(1, 5, &sop);
    assert_eq!(rq.get_ushort(tags::COMMAND_FIELD), Some(medicom::commands::C_FIND_RQ));
    assert_eq!(rq.get_ushort(tags::MESSAGE_ID), Some(5));
    // A dataset follows: the value is anything but the no-dataset
    // sentinel.
    assert_eq!(rq.get_ushort(tags::COMMAND_DATA_SET_TYPE), Some(0x0102));
}

#[test]
fn cstore_response_echoes_the_request() {
    let sop_class = b"1.2.840.10008.5.1.4.1.1.2".to_vec();
    let sop_inst = b"1.2.3.4.5".to_vec();
    let rq = CommandMessage::cstore_rq(3, 9, &sop_class, &sop_inst, 0);
    assert_eq!(rq.get_ushort(tags::COMMAND_FIELD), Some(medicom::commands::C_STORE_RQ));
    assert_eq!(rq.get_ushort(tags::PRIORITY), Some(0));
    assert_eq!(rq.get_uid(tags::AFFECTED_SOP_INSTANCE_UID), Some(sop_inst));
    let rsp = CommandMessage::cstore_rsp_from_req(&rq, STATUS_SUCCESS).unwrap();
    assert_eq!(rsp.get_ushort(tags::COMMAND_FIELD), Some(medicom::commands::C_STORE_RSP));
    assert_eq!(rsp.get_ushort(tags::MESSAGE_ID_BEING_RESPONDED_TO), Some(9));
    assert_eq!(rsp.get_ushort(tags::STATUS), Some(STATUS_SUCCESS));
}

#[test]
fn cfind_name_query_matches_name_parts() {
    let results = create_dummy_results(&Vec::new(), &b"STARK".to_vec());
    assert_eq!(results.len(), 1);
    assert_eq!(results[0].patient_id, b"477-0183".to_vec());

    let results = create_dummy_results(&b"477".to_vec(), &Vec::new());
    assert_eq!(results.len(), 2);

    let results = create_dummy_results(&Vec::new(), &Vec::new());
    assert_eq!(results.len(), 0);
}

#[test]
fn cfind_response_sequence_ends_with_the_terminator() {
    let uid = b"1.2.840.10008.5.1.4.1.2.1.1".to_vec();
    let msgs = CommandMessage::cfind_rsp_sequence(3, 7, &uid, 2);
    assert_eq!(msgs.len(), 3);
    assert_eq!(msgs[0].get_ushort(tags::STATUS), Some(0xFF00));
    assert_eq!(msgs[1].get_ushort(tags::STATUS), Some(0xFF00));
    assert_eq!(msgs[2].get_ushort(tags::STATUS), Some(0x0000));
    assert_eq!(msgs[2].get_ushort(tags::COMMAND_FIELD), Some(0x8020));
}

#[test]
fn assoc_rq_decode_takes_the_last_user_information_item() {
    let mut rq = verification_rq();
    rq.max_pdu = 4096;
    let mut bytes = Vec::new();
    rq.encode(&mut bytes).unwrap();
    // Append a second user-information item with a different limit:
    // the decoder keeps the last one seen.
    let mut payload = bytes[6..].to_vec();
    payload.extend_from_slice(&[0x50, 0, 0, 8, 0x51, 0, 0, 4, 0, 0, 0x20, 0]);
    let decoded = medicom::assoc::AssocRq::decode_payload(&payload).unwrap();
    assert_eq!(decoded.max_pdu, 0x2000);
}

#[test]
fn truncated_assoc_item_is_rejected() {
    let rq = verification_rq();
    let mut bytes = Vec::new();
    rq.encode(&mut bytes).unwrap();
    let mut payload = bytes[6..].to_vec();
    // An item header whose stated length runs past the end.
    payload.extend_from_slice(&[0x10, 0, 0, 9, 1, 2]);
    assert!(medicom::assoc::AssocRq::decode_payload(&payload).is_err());
}

#[test]
fn records_group_by_the_query_level_key() {
    let recs = vec![
        GroupRecord {
            patient_id: b"P1".to_vec(),
            study_uid: b"S1".to_vec(),
            series_uid: b"A".to_vec(),
        },
        GroupRecord {
            patient_id: b"P2".to_vec(),
            study_uid: b"S2".to_vec(),
            series_uid: b"B".to_vec(),
        },
        GroupRecord {
            patient_id: b"P1".to_vec(),
            study_uid: b"S3".to_vec(),
            series_uid: b"C".to_vec(),
        },
    ];
    let by_patient = group_records(QueryLevel::Patient, recs.clone());
    assert_eq!(by_patient.len(), 2);
    assert_eq!(by_patient[0].0, b"P1".to_vec());
    assert_eq!(by_patient[0].1.len(), 2);
    assert_eq!(by_patient[0].1[1].series_uid, b"C".to_vec());
    assert_eq!(by_patient[1].0, b"P2".to_vec());
    let by_series = group_records(QueryLevel::Series, recs);
    assert_eq!(by_series.len(), 3);
}

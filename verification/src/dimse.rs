//! DIMSE errors: what can go wrong on an association, and the response
//! PDU that accompanies a failure before the connection closes.

use vstd::prelude::*;

use crate::parser::ParseError;
use crate::pdu::{spec_abort_bytes, spec_rj_bytes, Abort, AssocRj, PduType};

verus! {

/// The errors the DIMSE layer surfaces.
#[derive(Clone, Debug, PartialEq)]
pub enum DimseError {
    /// A PDU type code outside the protocol.
    InvalidPduType(u8),
    /// An AE title that is not 16 bytes of printable characters.
    InvalidAeTitle(Vec<u8>),
    /// The byte stream ended inside a PDU.
    UnexpectedEof,
    /// A required command element was absent, named by its tag.
    ElementMissingFromRequest(u32),
    /// A PDU arrived that the association's state cannot accept.
    InvalidPduParseState,
    /// A well-formed PDU of the wrong type.
    UnexpectedPdu(PduType),
    /// The command or dataset bytes failed to parse.
    Parse(ParseError),
    /// A failure with no richer description.
    General,
}

/// The response written before closing on a failure: a rejection
/// during negotiation, an abort after it.
#[derive(Clone, Copy, PartialEq, Eq, Structural, Debug)]
pub enum AssocRsp {
    Rj(AssocRj),
    Ab(Abort),
}

impl AssocRsp {
    /// The PDU type of the response.
    pub fn pdu_type(&self) -> (r: PduType)
        ensures
            *self is Rj ==> r == PduType::AssocRj,
            *self is Ab ==> r == PduType::Abort,
    {
        match self {
            AssocRsp::Rj(rj) => rj.pdu_type(),
            AssocRsp::Ab(ab) => ab.pdu_type(),
        }
    }
}

/// An association failure: the error itself, and the response PDU owed
/// to the peer, if any.
#[derive(Clone, Debug, PartialEq)]
pub struct AssocError {
    pub rsp: Option<AssocRsp>,
    pub err: DimseError,
}

impl AssocError {
    /// The response owed to the peer.
    pub fn rsp(&self) -> (r: &Option<AssocRsp>)
        ensures
            r == &self.rsp,
    {
        &self.rsp
    }

    /// Gives up the underlying error.
    pub fn into_err(self) -> (r: DimseError)
        ensures
            r == self.err,
    {
        self.err
    }

    /// A failure that owes the peer nothing.
    pub fn error(err: DimseError) -> (r: AssocError)
        ensures
            r.rsp is None,
            r.err == err,
    {
        AssocError { rsp: None, err }
    }

    /// A failure answered with an A-ABORT naming no source.
    pub fn ab_failure(err: DimseError) -> (r: AssocError)
        ensures
            r.rsp == Some(AssocRsp::Ab(Abort { source: 0u8, reason: 0u8 })),
            r.err == err,
    {
        AssocError { rsp: Some(AssocRsp::Ab(Abort::new(0, 0))), err }
    }

    /// A failure answered with an A-ABORT for an unexpected PDU.
    pub fn ab_unexpected_pdu(err: DimseError) -> (r: AssocError)
        ensures
            r.rsp == Some(AssocRsp::Ab(Abort { source: 2u8, reason: 2u8 })),
            r.err == err,
    {
        AssocError { rsp: Some(AssocRsp::Ab(Abort::new(2, 2))), err }
    }

    /// A failure answered with an A-ABORT for an invalid PDU.
    pub fn ab_invalid_pdu(err: DimseError) -> (r: AssocError)
        ensures
            r.rsp == Some(AssocRsp::Ab(Abort { source: 2u8, reason: 6u8 })),
            r.err == err,
    {
        AssocError { rsp: Some(AssocRsp::Ab(Abort::new(2, 6))), err }
    }

    /// A rejection with no reason given.
    pub fn rj_failure(err: DimseError) -> (r: AssocError)
        ensures
            r.rsp == Some(AssocRsp::Rj(AssocRj { result: 2u8, source: 1u8, reason: 1u8 })),
            r.err == err,
    {
        AssocError { rsp: Some(AssocRsp::Rj(AssocRj::new(2, 1, 1))), err }
    }

    /// A rejection for an unrecognized calling AE title.
    pub fn rj_calling_aet(err: DimseError) -> (r: AssocError)
        ensures
            r.rsp == Some(AssocRsp::Rj(AssocRj { result: 2u8, source: 1u8, reason: 3u8 })),
            r.err == err,
    {
        AssocError { rsp: Some(AssocRsp::Rj(AssocRj::new(2, 1, 3))), err }
    }

    /// A rejection for an unrecognized called AE title.
    pub fn rj_called_aet(err: DimseError) -> (r: AssocError)
        ensures
            r.rsp == Some(AssocRsp::Rj(AssocRj { result: 2u8, source: 1u8, reason: 7u8 })),
            r.err == err,
    {
        AssocError { rsp: Some(AssocRsp::Rj(AssocRj::new(2, 1, 7))), err }
    }

    /// A rejection for an unsupported application context.
    pub fn rj_unsupported(err: DimseError) -> (r: AssocError)
        ensures
            r.rsp == Some(AssocRsp::Rj(AssocRj { result: 2u8, source: 1u8, reason: 2u8 })),
            r.err == err,
    {
        AssocError { rsp: Some(AssocRsp::Rj(AssocRj::new(2, 1, 2))), err }
    }

    /// Appends this failure's response PDU bytes, if it owes one, and
    /// hands the underlying error back: the caller sends the bytes
    /// best-effort and then closes.
    pub fn write(self, out: &mut Vec<u8>) -> (r: Result<(), DimseError>)
        ensures
            r == Result::<(), DimseError>::Err(self.err),
            final(out)@ == old(out)@ + (match self.rsp {
                Some(AssocRsp::Rj(rj)) => spec_rj_bytes(rj),
                Some(AssocRsp::Ab(ab)) => spec_abort_bytes(ab),
                None => Seq::<u8>::empty(),
            }),
    {
        match &self.rsp {
            Some(AssocRsp::Rj(rj)) => {
                rj.write(out);
            },
            Some(AssocRsp::Ab(ab)) => {
                ab.write(out);
            },
            None => {
                assert(final(out)@ =~= old(out)@ + Seq::<u8>::empty());
            },
        }
        Err(self.err)
    }
}

} // verus!

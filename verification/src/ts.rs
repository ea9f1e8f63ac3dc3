//! Transfer syntaxes: the encoding rules that drive every byte-level
//! decision while parsing a dataset.

use vstd::prelude::*;

verus! {

/// A transfer syntax supported by the core. Encapsulated syntaxes (JPEG
/// family, RLE) are recognized so their element streams still parse, but
/// their compressed pixel data is rejected at decode time.
#[derive(Clone, Copy, PartialEq, Eq, Structural, Debug)]
pub enum TransferSyntax {
    ImplicitVrLe,
    ExplicitVrLe,
    ExplicitVrBe,
    /// An encapsulated syntax: explicit VR, little-endian, compressed
    /// pixel data carried as fragments.
    Encapsulated,
}

impl TransferSyntax {
    /// Whether elements carry their VR on the wire.
    pub fn explicit_vr(&self) -> (r: bool)
        ensures
            r == (*self != TransferSyntax::ImplicitVrLe),
    {
        !matches!(self, TransferSyntax::ImplicitVrLe)
    }

    /// Whether multi-byte values are big-endian.
    pub fn big_endian(&self) -> (r: bool)
        ensures
            r == (*self == TransferSyntax::ExplicitVrBe),
    {
        matches!(self, TransferSyntax::ExplicitVrBe)
    }

    /// Whether pixel data is compressed and carried as fragments.
    pub fn encapsulated(&self) -> (r: bool)
        ensures
            r == (*self == TransferSyntax::Encapsulated),
    {
        matches!(self, TransferSyntax::Encapsulated)
    }
}

/// The UID of the implicit-VR little-endian transfer syntax.
pub open spec fn spec_implicit_vr_le_uid() -> Seq<u8> {
    seq![
        0x31u8, 0x2e, 0x32, 0x2e, 0x38, 0x34, 0x30, 0x2e, 0x31, 0x30, 0x30, 0x30, 0x38, 0x2e,
        0x31, 0x2e, 0x32,
    ]
}

/// The UID bytes of the implicit-VR little-endian transfer syntax.
pub fn implicit_vr_le_uid() -> (r: Vec<u8>)
    ensures
        r@ == spec_implicit_vr_le_uid(),
{
    let r: Vec<u8> = vec![
        0x31u8, 0x2e, 0x32, 0x2e, 0x38, 0x34, 0x30, 0x2e, 0x31, 0x30, 0x30, 0x30, 0x38, 0x2e,
        0x31, 0x2e, 0x32,
    ];
    assert(r@ =~= spec_implicit_vr_le_uid());
    r
}

/// The UID of the explicit-VR little-endian transfer syntax: the implicit
/// UID followed by ".1".
pub open spec fn spec_explicit_vr_le_uid() -> Seq<u8> {
    spec_implicit_vr_le_uid() + seq![0x2eu8, 0x31]
}

/// The UID bytes of the explicit-VR little-endian transfer syntax.
pub fn explicit_vr_le_uid() -> (r: Vec<u8>)
    ensures
        r@ == spec_explicit_vr_le_uid(),
{
    let mut r = implicit_vr_le_uid();
    r.push(0x2e);
    r.push(0x31);
    assert(r@ =~= spec_explicit_vr_le_uid());
    r
}

/// The UID of the explicit-VR big-endian transfer syntax: the implicit
/// UID followed by ".2".
pub open spec fn spec_explicit_vr_be_uid() -> Seq<u8> {
    spec_implicit_vr_le_uid() + seq![0x2eu8, 0x32]
}

/// The UID bytes of the explicit-VR big-endian transfer syntax.
pub fn explicit_vr_be_uid() -> (r: Vec<u8>)
    ensures
        r@ == spec_explicit_vr_be_uid(),
{
    let mut r = implicit_vr_le_uid();
    r.push(0x2e);
    r.push(0x32);
    assert(r@ =~= spec_explicit_vr_be_uid());
    r
}

/// Whether a UID names an encapsulated transfer syntax: the JPEG family
/// ("1.2.840.10008.1.2.4.*") or RLE ("1.2.840.10008.1.2.5").
pub open spec fn spec_is_encapsulated_uid(uid: Seq<u8>) -> bool {
    uid.len() > 18 && uid.subrange(0, 17) == spec_implicit_vr_le_uid() && uid[17] == 0x2eu8 && (
    uid[18] == 0x34u8 || uid[18] == 0x35u8)
}

/// The transfer syntax a UID names, or `None` for one the core does not
/// recognize.
pub open spec fn spec_ts_from_uid(uid: Seq<u8>) -> Option<TransferSyntax> {
    if uid == spec_implicit_vr_le_uid() {
        Some(TransferSyntax::ImplicitVrLe)
    } else if uid == spec_explicit_vr_le_uid() {
        Some(TransferSyntax::ExplicitVrLe)
    } else if uid == spec_explicit_vr_be_uid() {
        Some(TransferSyntax::ExplicitVrBe)
    } else if spec_is_encapsulated_uid(uid) {
        Some(TransferSyntax::Encapsulated)
    } else {
        None
    }
}

/// Looks up the transfer syntax named by a UID value, with any trailing
/// NUL padding already removed.
pub fn ts_from_uid(uid: &[u8]) -> (r: Option<TransferSyntax>)
    ensures
        r == spec_ts_from_uid(uid@),
{
    let implicit = implicit_vr_le_uid();
    if crate::bytes::bytes_eq(uid, implicit.as_slice()) {
        return Some(TransferSyntax::ImplicitVrLe);
    }
    let exp_le = explicit_vr_le_uid();
    if crate::bytes::bytes_eq(uid, exp_le.as_slice()) {
        return Some(TransferSyntax::ExplicitVrLe);
    }
    let exp_be = explicit_vr_be_uid();
    if crate::bytes::bytes_eq(uid, exp_be.as_slice()) {
        return Some(TransferSyntax::ExplicitVrBe);
    }
    if uid.len() > 18 {
        let prefix: &[u8] = vstd::slice::slice_subrange(uid, 0, 17);
        assert(prefix@ =~= uid@.subrange(0, 17));
        if crate::bytes::bytes_eq(prefix, implicit.as_slice()) && uid[17] == 0x2e && (uid[18] == 0x34 || uid[18]
            == 0x35) {
            return Some(TransferSyntax::Encapsulated);
        }
    }
    None
}

} // verus!

//! Pixel-data interpretation: the supported photometric interpretations
//! and bit depths, the errors decoding can surface, and the shifts that
//! carry signed samples into unsigned space.

use vstd::prelude::*;

use crate::parser::ParseError;
use crate::vr::Vr;

verus! {

/// Supported values of Photometric Interpretation. A value outside the
/// supported set is carried as `Unsupported`.
#[derive(Clone, Copy, PartialEq, Eq, Structural, Debug)]
pub enum PhotoInterp {
    Unsupported,
    Rgb,
    Monochrome1,
    Monochrome2,
}

/// The interpretation an element value names.
pub open spec fn spec_photo_interp(v: Seq<u8>) -> PhotoInterp {
    if v == spec_rgb_value() {
        PhotoInterp::Rgb
    } else if v == spec_mono1_value() {
        PhotoInterp::Monochrome1
    } else if v == spec_mono2_value() {
        PhotoInterp::Monochrome2
    } else {
        PhotoInterp::Unsupported
    }
}

impl PhotoInterp {
    /// Whether this interpretation is RGB.
    pub fn is_rgb(&self) -> (r: bool)
        ensures
            r == (*self is Rgb),
    {
        matches!(self, PhotoInterp::Rgb)
    }

    /// Whether this interpretation is one of the supported monochrome
    /// values.
    pub fn is_monochrome(&self) -> (r: bool)
        ensures
            r == (*self is Monochrome1 || *self is Monochrome2),
    {
        matches!(self, PhotoInterp::Monochrome1 | PhotoInterp::Monochrome2)
    }

    /// Reads a Photometric Interpretation from its element value, with
    /// padding already trimmed.
    pub fn from_value(value: &[u8]) -> (r: PhotoInterp)
        ensures
            r == spec_photo_interp(value@),
    {
        let rgb: Vec<u8> = vec![0x52u8, 0x47, 0x42];
        let mono1: Vec<u8> = vec![0x4Du8, 0x4F, 0x4E, 0x4F, 0x43, 0x48, 0x52, 0x4F, 0x4D, 0x45, 0x31];
        let mono2: Vec<u8> = vec![0x4Du8, 0x4F, 0x4E, 0x4F, 0x43, 0x48, 0x52, 0x4F, 0x4D, 0x45, 0x32];
        proof {
            assert(rgb@ =~= spec_rgb_value());
            assert(mono1@ =~= spec_mono1_value());
            assert(mono2@ =~= spec_mono2_value());
        }
        if crate::bytes::bytes_eq(value, rgb.as_slice()) {
            PhotoInterp::Rgb
        } else if crate::bytes::bytes_eq(value, mono1.as_slice()) {
            PhotoInterp::Monochrome1
        } else if crate::bytes::bytes_eq(value, mono2.as_slice()) {
            PhotoInterp::Monochrome2
        } else {
            PhotoInterp::Unsupported
        }
    }
}

/// The element value "RGB".
pub open spec fn spec_rgb_value() -> Seq<u8> {
    seq![0x52u8, 0x47, 0x42]
}

/// The element value "MONOCHROME1".
pub open spec fn spec_mono1_value() -> Seq<u8> {
    seq![0x4Du8, 0x4F, 0x4E, 0x4F, 0x43, 0x48, 0x52, 0x4F, 0x4D, 0x45, 0x31]
}

/// The element value "MONOCHROME2".
pub open spec fn spec_mono2_value() -> Seq<u8> {
    seq![0x4Du8, 0x4F, 0x4E, 0x4F, 0x43, 0x48, 0x52, 0x4F, 0x4D, 0x45, 0x32]
}

/// Supported values of Bits Allocated.
#[derive(Clone, Copy, PartialEq, Eq, Structural, Debug)]
pub enum BitsAlloc {
    Unsupported(u16),
    Eight,
    Sixteen,
    ThirtyTwo,
}

impl BitsAlloc {
    /// Reads Bits Allocated from its element value: 8, 16 and 32 are
    /// supported, anything else is carried as unsupported.
    pub fn from_val(val: u16) -> (r: BitsAlloc)
        ensures
            r == spec_bits_alloc_from(val),
    {
        match val {
            8 => BitsAlloc::Eight,
            16 => BitsAlloc::Sixteen,
            32 => BitsAlloc::ThirtyTwo,
            other => BitsAlloc::Unsupported(other),
        }
    }

    /// The number of bits this value names.
    pub fn val(&self) -> (r: u16)
        ensures
            r == spec_bits_alloc_val(*self),
    {
        match self {
            BitsAlloc::Unsupported(val) => *val,
            BitsAlloc::Eight => 8,
            BitsAlloc::Sixteen => 16,
            BitsAlloc::ThirtyTwo => 32,
        }
    }
}

/// The Bits Allocated value an element value names.
pub open spec fn spec_bits_alloc_from(val: u16) -> BitsAlloc {
    if val == 8 {
        BitsAlloc::Eight
    } else if val == 16 {
        BitsAlloc::Sixteen
    } else if val == 32 {
        BitsAlloc::ThirtyTwo
    } else {
        BitsAlloc::Unsupported(val)
    }
}

/// The number of bits a Bits Allocated value names.
pub open spec fn spec_bits_alloc_val(b: BitsAlloc) -> u16 {
    match b {
        BitsAlloc::Unsupported(val) => val,
        BitsAlloc::Eight => 8,
        BitsAlloc::Sixteen => 16,
        BitsAlloc::ThirtyTwo => 32,
    }
}

/// Why a slice cannot join a volume.
#[derive(Clone, Copy, PartialEq, Eq, Structural, Debug)]
pub enum SliceMismatch {
    SeriesUid,
    Dims,
    Stride,
    Rgb,
    PixelPad,
    Slope,
    Intercept,
    SamplesPerPixel,
    SameZPos,
}

/// The errors loading pixel data can surface. One bad SOP poisons
/// nothing else: a rejected slice leaves its volume valid.
#[derive(Clone, Debug, PartialEq)]
pub enum LoadError {
    NotDicom,
    /// The transfer syntax carries compressed pixel data, which the
    /// core detects and refuses to decode as raw samples.
    Encapsulated,
    MissingPixelData,
    InvalidSize(u16, u16),
    InvalidDims,
    InvalidVr(Vr),
    InvalidBitsAlloc(u16),
    InvalidPhotoInterpSamples(PhotoInterp, u16),
    InvalidPixelSource(usize),
    PixelValueError(i64),
    InconsistentSliceFormat(Vec<u8>, SliceMismatch),
    Parse(ParseError),
}

/// Shift an `i8` value into `u8` space, so `i8::MIN` maps to `u8::MIN`.
pub fn shift_i8(val: i8) -> (r: u8)
    ensures
        r == val + 128,
{
    #[verifier::truncate]
    let r: u8 = (((val as i16) + 1) + (i8::MAX as i16)) as u8;
    r
}

/// Shift an `i16` value into `u16` space, so `i16::MIN` maps to
/// `u16::MIN`.
pub fn shift_i16(val: i16) -> (r: u16)
    ensures
        r == val + 32768,
{
    #[verifier::truncate]
    let r: u16 = (((val as i32) + 1) + (i16::MAX as i32)) as u16;
    r
}

/// Shift an `i32` value into `u32` space, so `i32::MIN` maps to
/// `u32::MIN`.
pub fn shift_i32(val: i32) -> (r: u32)
    ensures
        r == val + 0x8000_0000,
{
    #[verifier::truncate]
    let r: u32 = (((val as i64) + 1) + (i32::MAX as i64)) as u32;
    r
}

/// The shifts carry each signed domain onto the full unsigned range:
/// the least value to zero, zero to the midpoint, the greatest value to
/// the top.
pub proof fn lemma_shift_endpoints()
    ensures
        (i8::MIN + 128) as u8 == 0 && (0 + 128) as u8 == 128 && (i8::MAX + 128) as u8 == 255,
        (i16::MIN + 32768) as u16 == 0 && (0 + 32768) as u16 == 32768 && (i16::MAX + 32768) as u16
            == 65535,
        (i32::MIN + 0x8000_0000) as u32 == 0 && (0 + 0x8000_0000) as u32 == 0x8000_0000 && (i32::MAX
            + 0x8000_0000) as u32 == 0xFFFF_FFFF,
{
}

} // verus!

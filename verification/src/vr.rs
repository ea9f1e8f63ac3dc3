//! Value Representations: the two-letter type codes that govern how an
//! element's value bytes are interpreted and how its length is encoded.

use vstd::prelude::*;

verus! {

/// A DICOM Value Representation.
#[derive(Clone, Copy, PartialEq, Eq, Structural, Debug)]
pub enum Vr {
    AE,
    AS,
    AT,
    CS,
    DA,
    DS,
    DT,
    FD,
    FL,
    IS,
    LO,
    LT,
    OB,
    OD,
    OF,
    OL,
    OW,
    PN,
    SH,
    SL,
    SQ,
    SS,
    ST,
    TM,
    UC,
    UI,
    UL,
    UN,
    UR,
    US,
    UT,
}

/// The on-wire code of a VR: the first ASCII letter in the high byte, the
/// second in the low byte.
#[verifier::opaque]
pub open spec fn spec_vr_code(vr: Vr) -> int {
    match vr {
        Vr::AE => 0x4145,
        Vr::AS => 0x4153,
        Vr::AT => 0x4154,
        Vr::CS => 0x4353,
        Vr::DA => 0x4441,
        Vr::DS => 0x4453,
        Vr::DT => 0x4454,
        Vr::FD => 0x4644,
        Vr::FL => 0x464C,
        Vr::IS => 0x4953,
        Vr::LO => 0x4C4F,
        Vr::LT => 0x4C54,
        Vr::OB => 0x4F42,
        Vr::OD => 0x4F44,
        Vr::OF => 0x4F46,
        Vr::OL => 0x4F4C,
        Vr::OW => 0x4F57,
        Vr::PN => 0x504E,
        Vr::SH => 0x5348,
        Vr::SL => 0x534C,
        Vr::SQ => 0x5351,
        Vr::SS => 0x5353,
        Vr::ST => 0x5354,
        Vr::TM => 0x544D,
        Vr::UC => 0x5543,
        Vr::UI => 0x5549,
        Vr::UL => 0x554C,
        Vr::UN => 0x554E,
        Vr::UR => 0x5552,
        Vr::US => 0x5553,
        Vr::UT => 0x5554,
    }
}

/// The VR whose code is `code`, if any.
#[verifier::opaque]
pub open spec fn spec_vr_from_code(code: int) -> Option<Vr> {
    if code == 0x4145 {
        Some(Vr::AE)
    } else if code == 0x4153 {
        Some(Vr::AS)
    } else if code == 0x4154 {
        Some(Vr::AT)
    } else if code == 0x4353 {
        Some(Vr::CS)
    } else if code == 0x4441 {
        Some(Vr::DA)
    } else if code == 0x4453 {
        Some(Vr::DS)
    } else if code == 0x4454 {
        Some(Vr::DT)
    } else if code == 0x4644 {
        Some(Vr::FD)
    } else if code == 0x464C {
        Some(Vr::FL)
    } else if code == 0x4953 {
        Some(Vr::IS)
    } else if code == 0x4C4F {
        Some(Vr::LO)
    } else if code == 0x4C54 {
        Some(Vr::LT)
    } else if code == 0x4F42 {
        Some(Vr::OB)
    } else if code == 0x4F44 {
        Some(Vr::OD)
    } else if code == 0x4F46 {
        Some(Vr::OF)
    } else if code == 0x4F4C {
        Some(Vr::OL)
    } else if code == 0x4F57 {
        Some(Vr::OW)
    } else if code == 0x504E {
        Some(Vr::PN)
    } else if code == 0x5348 {
        Some(Vr::SH)
    } else if code == 0x534C {
        Some(Vr::SL)
    } else if code == 0x5351 {
        Some(Vr::SQ)
    } else if code == 0x5353 {
        Some(Vr::SS)
    } else if code == 0x5354 {
        Some(Vr::ST)
    } else if code == 0x544D {
        Some(Vr::TM)
    } else if code == 0x5543 {
        Some(Vr::UC)
    } else if code == 0x5549 {
        Some(Vr::UI)
    } else if code == 0x554C {
        Some(Vr::UL)
    } else if code == 0x554E {
        Some(Vr::UN)
    } else if code == 0x5552 {
        Some(Vr::UR)
    } else if code == 0x5553 {
        Some(Vr::US)
    } else if code == 0x5554 {
        Some(Vr::UT)
    } else {
        None
    }
}

/// In the explicit-VR form, these VRs pad the header with two reserved bytes
/// and then use a four-byte value length; all others use a two-byte length.
pub open spec fn spec_has_explicit_2byte_pad(vr: Vr) -> bool {
    vr == Vr::OB || vr == Vr::OW || vr == Vr::OF || vr == Vr::SQ || vr == Vr::UT || vr == Vr::UN
}

impl Vr {
    /// The on-wire two-byte code of this VR.
    pub fn code(&self) -> (r: u16)
        ensures
            r == spec_vr_code(*self),
    {
        proof {
            reveal(spec_vr_code);
        }
        match self {
            Vr::AE => 0x4145,
            Vr::AS => 0x4153,
            Vr::AT => 0x4154,
            Vr::CS => 0x4353,
            Vr::DA => 0x4441,
            Vr::DS => 0x4453,
            Vr::DT => 0x4454,
            Vr::FD => 0x4644,
            Vr::FL => 0x464C,
            Vr::IS => 0x4953,
            Vr::LO => 0x4C4F,
            Vr::LT => 0x4C54,
            Vr::OB => 0x4F42,
            Vr::OD => 0x4F44,
            Vr::OF => 0x4F46,
            Vr::OL => 0x4F4C,
            Vr::OW => 0x4F57,
            Vr::PN => 0x504E,
            Vr::SH => 0x5348,
            Vr::SL => 0x534C,
            Vr::SQ => 0x5351,
            Vr::SS => 0x5353,
            Vr::ST => 0x5354,
            Vr::TM => 0x544D,
            Vr::UC => 0x5543,
            Vr::UI => 0x5549,
            Vr::UL => 0x554C,
            Vr::UN => 0x554E,
            Vr::UR => 0x5552,
            Vr::US => 0x5553,
            Vr::UT => 0x5554,
        }
    }

    /// Looks a VR up by its on-wire code; `None` for an unknown code.
    pub fn from_code(code: u16) -> (r: Option<Vr>)
        ensures
            r == spec_vr_from_code(code as int),
            r is Some ==> spec_vr_code(r->Some_0) == code,
    {
        proof {
            reveal(spec_vr_code);
            reveal(spec_vr_from_code);
        }
        match code {
            0x4145 => Some(Vr::AE),
            0x4153 => Some(Vr::AS),
            0x4154 => Some(Vr::AT),
            0x4353 => Some(Vr::CS),
            0x4441 => Some(Vr::DA),
            0x4453 => Some(Vr::DS),
            0x4454 => Some(Vr::DT),
            0x4644 => Some(Vr::FD),
            0x464C => Some(Vr::FL),
            0x4953 => Some(Vr::IS),
            0x4C4F => Some(Vr::LO),
            0x4C54 => Some(Vr::LT),
            0x4F42 => Some(Vr::OB),
            0x4F44 => Some(Vr::OD),
            0x4F46 => Some(Vr::OF),
            0x4F4C => Some(Vr::OL),
            0x4F57 => Some(Vr::OW),
            0x504E => Some(Vr::PN),
            0x5348 => Some(Vr::SH),
            0x534C => Some(Vr::SL),
            0x5351 => Some(Vr::SQ),
            0x5353 => Some(Vr::SS),
            0x5354 => Some(Vr::ST),
            0x544D => Some(Vr::TM),
            0x5543 => Some(Vr::UC),
            0x5549 => Some(Vr::UI),
            0x554C => Some(Vr::UL),
            0x554E => Some(Vr::UN),
            0x5552 => Some(Vr::UR),
            0x5553 => Some(Vr::US),
            0x5554 => Some(Vr::UT),
            _ => None,
        }
    }

    /// Whether the explicit form pads the header with two reserved bytes and
    /// uses a four-byte value length.
    pub fn has_explicit_2byte_pad(&self) -> (r: bool)
        ensures
            r == spec_has_explicit_2byte_pad(*self),
    {
        matches!(self, Vr::OB | Vr::OW | Vr::OF | Vr::SQ | Vr::UT | Vr::UN)
    }

    /// Whether values of this VR are character strings.
    pub fn is_character_string(&self) -> bool {
        matches!(
            self,
            Vr::AE | Vr::AS | Vr::CS | Vr::DA | Vr::DS | Vr::DT | Vr::IS | Vr::LO | Vr::LT
                | Vr::PN | Vr::SH | Vr::ST | Vr::TM | Vr::UC | Vr::UI | Vr::UR | Vr::UT,
        )
    }

    /// The byte used to pad a value of this VR to an even length: NUL for
    /// UI and the binary VRs, space for the other character strings.
    pub fn padding(&self) -> u8 {
        if matches!(
            self,
            Vr::AE | Vr::AS | Vr::CS | Vr::DA | Vr::DS | Vr::DT | Vr::IS | Vr::LO | Vr::LT
                | Vr::PN | Vr::SH | Vr::ST | Vr::TM | Vr::UC | Vr::UR | Vr::UT,
        ) {
            0x20
        } else {
            0x00
        }
    }
}

} // verus!

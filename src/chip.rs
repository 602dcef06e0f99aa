//! Chip-family and probe-variant codes, each a closed set of one-byte values.
use vstd::prelude::*;

use crate::error::Error;

verus! {

/// The family of the RISC-V target chip, as the probe firmware numbers it.
#[derive(Clone, Copy, Debug, PartialEq, Eq, Structural)]
pub enum RiscvChip {
    /// CH32V103, RISC-V3A series.
    CH32V103,
    /// CH571/CH573, RISC-V3A BLE 4.2 series.
    CH57X,
    /// CH565/CH569, RISC-V3A series.
    CH56X,
    /// CH32V20X, RISC-V4B/V4C series.
    CH32V20X,
    /// CH32V30X, RISC-V4C/V4F series.
    CH32V30X,
    /// CH58X, RISC-V4A BLE 5.3 series.
    CH58X,
    /// CH32V003, RISC-V2A series.
    CH32V003,
    /// RISC-V EC controller.
    CH8571,
    /// CH59X, RISC-V4C BLE 5.4 series.
    CH59X,
    /// CH643, RISC-V4C series with RGB display driver.
    CH643,
    /// CH32X035, RISC-V4C USB-PD series.
    CH32X035,
    /// CH32L103, RISC-V4C low-power series.
    CH32L103,
    /// CH641, RISC-V2A USB-PD series.
    CH641,
}

impl RiscvChip {
    /// The byte that stands for this family on the wire.
    pub open spec fn code(self) -> u8 {
        match self {
            RiscvChip::CH32V103 => 0x01,
            RiscvChip::CH57X => 0x02,
            RiscvChip::CH56X => 0x03,
            RiscvChip::CH32V20X => 0x05,
            RiscvChip::CH32V30X => 0x06,
            RiscvChip::CH58X => 0x07,
            RiscvChip::CH32V003 => 0x09,
            RiscvChip::CH8571 => 0x0a,
            RiscvChip::CH59X => 0x0b,
            RiscvChip::CH643 => 0x0c,
            RiscvChip::CH32X035 => 0x0d,
            RiscvChip::CH32L103 => 0x0e,
            RiscvChip::CH641 => 0x49,
        }
    }

    /// A byte is a chip-family code when some family is numbered by it.
    pub open spec fn is_code(b: u8) -> bool {
        exists|c: RiscvChip| #[trigger] c.code() == b
    }

    /// What decoding a family byte gives.
    pub open spec fn spec_try_from_u8(b: u8) -> Result<RiscvChip, Error> {
        match b {
            0x01 => Ok(RiscvChip::CH32V103),
            0x02 => Ok(RiscvChip::CH57X),
            0x03 => Ok(RiscvChip::CH56X),
            0x05 => Ok(RiscvChip::CH32V20X),
            0x06 => Ok(RiscvChip::CH32V30X),
            0x07 => Ok(RiscvChip::CH58X),
            0x09 => Ok(RiscvChip::CH32V003),
            0x0a => Ok(RiscvChip::CH8571),
            0x0b => Ok(RiscvChip::CH59X),
            0x0c => Ok(RiscvChip::CH643),
            0x0d => Ok(RiscvChip::CH32X035),
            0x0e => Ok(RiscvChip::CH32L103),
            0x49 => Ok(RiscvChip::CH641),
            _ => Err(Error::UnknownDiscriminant(b)),
        }
    }

    /// The wire byte of this family.
    pub fn as_u8(&self) -> (r: u8)
        ensures
            r == self.code(),
    {
        match self {
            RiscvChip::CH32V103 => 0x01,
            RiscvChip::CH57X => 0x02,
            RiscvChip::CH56X => 0x03,
            RiscvChip::CH32V20X => 0x05,
            RiscvChip::CH32V30X => 0x06,
            RiscvChip::CH58X => 0x07,
            RiscvChip::CH32V003 => 0x09,
            RiscvChip::CH8571 => 0x0a,
            RiscvChip::CH59X => 0x0b,
            RiscvChip::CH643 => 0x0c,
            RiscvChip::CH32X035 => 0x0d,
            RiscvChip::CH32L103 => 0x0e,
            RiscvChip::CH641 => 0x49,
        }
    }

    /// Decodes a family byte: `Ok` exactly for the codes of the known families,
    /// each giving the family numbered by it; any other byte is reported back.
    pub fn try_from_u8(b: u8) -> (r: Result<RiscvChip, Error>)
        ensures
            r == Self::spec_try_from_u8(b),
            r is Ok <==> Self::is_code(b),
            r matches Ok(c) ==> c.code() == b,
            !Self::is_code(b) ==> r == Err::<RiscvChip, Error>(Error::UnknownDiscriminant(b)),
    {
        let r = match b {
            0x01 => Ok(RiscvChip::CH32V103),
            0x02 => Ok(RiscvChip::CH57X),
            0x03 => Ok(RiscvChip::CH56X),
            0x05 => Ok(RiscvChip::CH32V20X),
            0x06 => Ok(RiscvChip::CH32V30X),
            0x07 => Ok(RiscvChip::CH58X),
            0x09 => Ok(RiscvChip::CH32V003),
            0x0a => Ok(RiscvChip::CH8571),
            0x0b => Ok(RiscvChip::CH59X),
            0x0c => Ok(RiscvChip::CH643),
            0x0d => Ok(RiscvChip::CH32X035),
            0x0e => Ok(RiscvChip::CH32L103),
            0x49 => Ok(RiscvChip::CH641),
            _ => Err(Error::UnknownDiscriminant(b)),
        };
        proof {
            match r {
                Ok(c) => assert(c.code() == b),
                Err(_) => {
                    assert forall|c: RiscvChip| #[trigger] c.code() != b by {
                        match c {
                            _ => {},
                        }
                    }
                },
            }
        }
        r
    }

    /// Decoding the code of a family gives that family back: each valid byte
    /// stands for exactly one family.
    pub proof fn lemma_code_round_trip(c: RiscvChip)
        ensures
            Self::spec_try_from_u8(c.code()) == Ok::<RiscvChip, Error>(c),
            forall|d: RiscvChip| #[trigger] d.code() == c.code() ==> d == c,
    {
        assert forall|d: RiscvChip| #[trigger] d.code() == c.code() implies d == c by {
            match d {
                _ => {},
            }
        }
    }

    /// The name of this family, as written in its variant.
    pub open spec fn spec_name(self) -> Seq<char> {
        match self {
            RiscvChip::CH32V103 => "CH32V103"@,
            RiscvChip::CH57X => "CH57X"@,
            RiscvChip::CH56X => "CH56X"@,
            RiscvChip::CH32V20X => "CH32V20X"@,
            RiscvChip::CH32V30X => "CH32V30X"@,
            RiscvChip::CH58X => "CH58X"@,
            RiscvChip::CH32V003 => "CH32V003"@,
            RiscvChip::CH8571 => "CH8571"@,
            RiscvChip::CH59X => "CH59X"@,
            RiscvChip::CH643 => "CH643"@,
            RiscvChip::CH32X035 => "CH32X035"@,
            RiscvChip::CH32L103 => "CH32L103"@,
            RiscvChip::CH641 => "CH641"@,
        }
    }

    /// The name of this family, as written in its variant.
    pub fn name(&self) -> (r: &'static str)
        ensures
            r@ == self.spec_name(),
    {
        match self {
            RiscvChip::CH32V103 => "CH32V103",
            RiscvChip::CH57X => "CH57X",
            RiscvChip::CH56X => "CH56X",
            RiscvChip::CH32V20X => "CH32V20X",
            RiscvChip::CH32V30X => "CH32V30X",
            RiscvChip::CH58X => "CH58X",
            RiscvChip::CH32V003 => "CH32V003",
            RiscvChip::CH8571 => "CH8571",
            RiscvChip::CH59X => "CH59X",
            RiscvChip::CH643 => "CH643",
            RiscvChip::CH32X035 => "CH32X035",
            RiscvChip::CH32L103 => "CH32L103",
            RiscvChip::CH641 => "CH641",
        }
    }
}

/// The probe's hardware revision.
#[derive(Clone, Copy, Debug, PartialEq, Eq, Structural)]
pub enum WchLinkVariant {
    /// WCH-Link on a CH549, the earliest revision; it cannot drive RV32EC targets.
    Ch549,
    /// WCH-LinkE on a CH32V305.
    ECh32v305,
    /// WCH-LinkS on a CH32V203.
    SCh32v203,
    /// WCH-LinkW on a CH32V208.
    WCh32v208,
}

impl WchLinkVariant {
    /// The byte that stands for this revision on the wire.
    pub open spec fn code(self) -> u8 {
        match self {
            WchLinkVariant::Ch549 => 1,
            WchLinkVariant::ECh32v305 => 2,
            WchLinkVariant::SCh32v203 => 3,
            WchLinkVariant::WCh32v208 => 5,
        }
    }

    /// A byte is a variant code when some revision is numbered by it.
    pub open spec fn is_code(b: u8) -> bool {
        exists|v: WchLinkVariant| #[trigger] v.code() == b
    }

    /// What decoding a variant byte gives.
    pub open spec fn spec_try_from_u8(b: u8) -> Result<WchLinkVariant, Error> {
        match b {
            1 => Ok(WchLinkVariant::Ch549),
            2 => Ok(WchLinkVariant::ECh32v305),
            3 => Ok(WchLinkVariant::SCh32v203),
            5 => Ok(WchLinkVariant::WCh32v208),
            _ => Err(Error::UnknownDiscriminant(b)),
        }
    }

    /// Decoding the code of a revision gives that revision back: each valid
    /// byte stands for exactly one revision.
    pub proof fn lemma_code_round_trip(v: WchLinkVariant)
        ensures
            Self::spec_try_from_u8(v.code()) == Ok::<WchLinkVariant, Error>(v),
            forall|w: WchLinkVariant| #[trigger] w.code() == v.code() ==> w == v,
    {
        assert forall|w: WchLinkVariant| #[trigger] w.code() == v.code() implies w == v by {
            match w {
                _ => {},
            }
        }
    }

    /// The product name of this revision.
    pub open spec fn spec_name(self) -> Seq<char> {
        match self {
            WchLinkVariant::Ch549 => "WCH-Link-CH549"@,
            WchLinkVariant::ECh32v305 => "WCH-LinkE-CH32V305"@,
            WchLinkVariant::SCh32v203 => "WCH-LinkS-CH32V203"@,
            WchLinkVariant::WCh32v208 => "WCH-LinkW-CH32V208"@,
        }
    }

    /// The wire byte of this revision.
    pub fn as_u8(&self) -> (r: u8)
        ensures
            r == self.code(),
    {
        match self {
            WchLinkVariant::Ch549 => 1,
            WchLinkVariant::ECh32v305 => 2,
            WchLinkVariant::SCh32v203 => 3,
            WchLinkVariant::WCh32v208 => 5,
        }
    }

    /// Decodes a variant byte: `Ok` exactly for the codes of the known
    /// revisions, each giving the revision numbered by it; any other byte is
    /// reported back.
    pub fn try_from_u8(b: u8) -> (r: Result<WchLinkVariant, Error>)
        ensures
            r == Self::spec_try_from_u8(b),
            r is Ok <==> Self::is_code(b),
            r matches Ok(v) ==> v.code() == b,
            !Self::is_code(b) ==> r == Err::<WchLinkVariant, Error>(Error::UnknownDiscriminant(b)),
    {
        let r = match b {
            1 => Ok(WchLinkVariant::Ch549),
            2 => Ok(WchLinkVariant::ECh32v305),
            3 => Ok(WchLinkVariant::SCh32v203),
            5 => Ok(WchLinkVariant::WCh32v208),
            _ => Err(Error::UnknownDiscriminant(b)),
        };
        proof {
            match r {
                Ok(v) => assert(v.code() == b),
                Err(_) => {
                    assert forall|v: WchLinkVariant| #[trigger] v.code() != b by {
                        match v {
                            _ => {},
                        }
                    }
                },
            }
        }
        r
    }

    /// The product name of this revision.
    pub fn name(&self) -> (r: &'static str)
        ensures
            r@ == self.spec_name(),
    {
        match self {
            WchLinkVariant::Ch549 => "WCH-Link-CH549",
            WchLinkVariant::ECh32v305 => "WCH-LinkE-CH32V305",
            WchLinkVariant::SCh32v203 => "WCH-LinkS-CH32V203",
            WchLinkVariant::WCh32v208 => "WCH-LinkW-CH32V208",
        }
    }
}

} // verus!

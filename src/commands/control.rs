//! Probe control commands, command group 0x0d.
use vstd::prelude::*;

use crate::chip::{RiscvChip, WchLinkVariant};
use crate::commands::{Command, Response};
use crate::error::Error;
use crate::text::{decimal_text, hex_text, push_decimal, push_hex};

verus! {

/// Asks for the probe's firmware version and hardware revision (0x0d, 0x01).
#[derive(Clone, Copy, Debug)]
pub struct GetProbeInfo;

impl Command for GetProbeInfo {
    type Response = ProbeInfo;

    const COMMAND_ID: u8 = 0x0d;

    open spec fn spec_payload(&self) -> Seq<u8> {
        seq![0x01]
    }

    fn payload(&self) -> (r: Vec<u8>) {
        let r = vec![0x01];
        assert(r@ =~= seq![0x01u8]);
        r
    }
}

/// The probe's firmware version and hardware revision.
#[derive(Clone, Copy, Debug, PartialEq, Eq, Structural)]
pub struct ProbeInfo {
    pub major_version: u8,
    pub minor_version: u8,
    pub variant: WchLinkVariant,
}

impl ProbeInfo {
    /// The firmware version as (major, minor).
    pub fn version(&self) -> (r: (u8, u8))
        ensures
            r == (self.major_version, self.minor_version),
    {
        (self.major_version, self.minor_version)
    }

    /// The text `WCH-Link v<major>.<minor> (<revision>)`.
    pub open spec fn spec_text(self) -> Seq<char> {
        "WCH-Link v"@ + decimal_text(self.major_version as nat) + "."@ + decimal_text(
            self.minor_version as nat,
        ) + " ("@ + self.variant.spec_name() + ")"@
    }

    /// Renders the probe identity for people to read.
    pub fn to_string(&self) -> (r: String)
        ensures
            r@ == self.spec_text(),
    {
        let mut s = String::new();
        s.append("WCH-Link v");
        push_decimal(&mut s, self.major_version);
        s.append(".");
        push_decimal(&mut s, self.minor_version);
        s.append(" (");
        s.append(self.variant.name());
        s.append(")");
        assert(s@ =~= self.spec_text());
        s
    }
}

impl Response for ProbeInfo {
    /// At least three bytes: major and minor version, then the revision
    /// byte when there are exactly four. Older firmware sends three and
    /// names no revision: that is the earliest one, the CH549.
    open spec fn spec_from_payload(bytes: Seq<u8>) -> Result<ProbeInfo, Error> {
        if bytes.len() < 3 {
            Err(Error::InvalidPayloadLength)
        } else if bytes.len() == 4 {
            match WchLinkVariant::spec_try_from_u8(bytes[2]) {
                Ok(variant) => Ok(
                    ProbeInfo { major_version: bytes[0], minor_version: bytes[1], variant },
                ),
                Err(e) => Err(e),
            }
        } else {
            Ok(
                ProbeInfo {
                    major_version: bytes[0],
                    minor_version: bytes[1],
                    variant: WchLinkVariant::Ch549,
                },
            )
        }
    }

    fn from_payload(bytes: &[u8]) -> (r: Result<ProbeInfo, Error>) {
        if bytes.len() < 3 {
            return Err(Error::InvalidPayloadLength);
        }
        let variant = if bytes.len() == 4 {
            match WchLinkVariant::try_from_u8(bytes[2]) {
                Ok(v) => v,
                Err(e) => return Err(e),
            }
        } else {
            WchLinkVariant::Ch549
        };
        Ok(ProbeInfo { major_version: bytes[0], minor_version: bytes[1], variant })
    }
}

/// Attaches to the target chip and asks for its family and id (0x0d, 0x02).
#[derive(Clone, Copy, Debug)]
pub struct AttachChip;

impl Command for AttachChip {
    type Response = AttachChipResponse;

    const COMMAND_ID: u8 = 0x0d;

    open spec fn spec_payload(&self) -> Seq<u8> {
        seq![0x02]
    }

    fn payload(&self) -> (r: Vec<u8>) {
        let r = vec![0x02];
        assert(r@ =~= seq![0x02u8]);
        r
    }
}

/// The attached chip: its family, the family byte as received, and its id.
///
/// A `chip_id` of zero means that the probe reported no id.
#[derive(Clone, Copy, Debug, PartialEq, Eq, Structural)]
pub struct AttachChipResponse {
    pub chip_family: RiscvChip,
    pub riscvchip: u8,
    pub chip_id: u32,
}

/// The value of four bytes read as a big-endian integer.
pub open spec fn be_u32(b0: u8, b1: u8, b2: u8, b3: u8) -> u32 {
    (b0 as int * 0x1000000 + b1 as int * 0x10000 + b2 as int * 0x100 + b3 as int) as u32
}

fn u32_from_be(b0: u8, b1: u8, b2: u8, b3: u8) -> (r: u32)
    ensures
        r == be_u32(b0, b1, b2, b3),
{
    (b0 as u32) * 0x1000000 + (b1 as u32) * 0x10000 + (b2 as u32) * 0x100 + (b3 as u32)
}

impl AttachChipResponse {
    /// The text for a chip: the family alone when no id was reported, else
    /// the family, the chip's name where it is known, and the id as eight
    /// hexadecimal digits.
    pub open spec fn spec_text(self, chip_name: Option<&str>) -> Seq<char> {
        if self.chip_id == 0 {
            self.chip_family.spec_name()
        } else {
            match chip_name {
                Some(name) => self.chip_family.spec_name() + " ["@ + name@ + "] (ChipID: 0x"@
                    + hex_text(self.chip_id as nat, 8) + ")"@,
                None => self.chip_family.spec_name() + " (ChipID: 0x"@ + hex_text(
                    self.chip_id as nat,
                    8,
                ) + ")"@,
            }
        }
    }

    /// Renders the chip for people to read; `chip_name` is what a lookup of
    /// `chip_id` in a table of chip names gave.
    pub fn describe(&self, chip_name: Option<&str>) -> (r: String)
        ensures
            r@ == self.spec_text(chip_name),
    {
        let mut s = String::new();
        s.append(self.chip_family.name());
        if self.chip_id != 0 {
            match chip_name {
                Some(name) => {
                    s.append(" [");
                    s.append(name);
                    s.append("] (ChipID: 0x");
                },
                None => {
                    s.append(" (ChipID: 0x");
                },
            }
            push_hex(&mut s, self.chip_id, 8);
            s.append(")");
        }
        assert(s@ =~= self.spec_text(chip_name));
        s
    }
}

impl Response for AttachChipResponse {
    /// Exactly five bytes: the family byte, then the chip id, big-endian.
    open spec fn spec_from_payload(bytes: Seq<u8>) -> Result<AttachChipResponse, Error> {
        if bytes.len() != 5 {
            Err(Error::InvalidPayloadLength)
        } else {
            match RiscvChip::spec_try_from_u8(bytes[0]) {
                Ok(chip_family) => Ok(
                    AttachChipResponse {
                        chip_family,
                        riscvchip: bytes[0],
                        chip_id: be_u32(bytes[1], bytes[2], bytes[3], bytes[4]),
                    },
                ),
                Err(e) => Err(e),
            }
        }
    }

    fn from_payload(bytes: &[u8]) -> (r: Result<AttachChipResponse, Error>) {
        if bytes.len() != 5 {
            return Err(Error::InvalidPayloadLength);
        }
        let chip_family = match RiscvChip::try_from_u8(bytes[0]) {
            Ok(c) => c,
            Err(e) => return Err(e),
        };
        Ok(
            AttachChipResponse {
                chip_family,
                riscvchip: bytes[0],
                chip_id: u32_from_be(bytes[1], bytes[2], bytes[3], bytes[4]),
            },
        )
    }
}

/// Erases the target's code flash; only the WCH-LinkE supports it.
#[derive(Clone, Copy, Debug)]
pub enum EraseCodeFlash {
    /// Through the reset pin, which must be wired to the target.
    ByPinRST(RiscvChip),
    /// By cutting the target's power.
    ByPowerOff(RiscvChip),
}

impl Command for EraseCodeFlash {
    type Response = ();

    const COMMAND_ID: u8 = 0x0d;

    /// The sub-command byte, then the family byte. The probe's protocol
    /// notes give the power-off form as a longer frame whose length byte is
    /// wrong; the firmware does not check it, and takes these two bytes.
    open spec fn spec_payload(&self) -> Seq<u8> {
        match *self {
            EraseCodeFlash::ByPinRST(c) => seq![0x08, c.code()],
            EraseCodeFlash::ByPowerOff(c) => seq![0x0f, c.code()],
        }
    }

    fn payload(&self) -> (r: Vec<u8>) {
        let r = match self {
            EraseCodeFlash::ByPinRST(c) => vec![0x08, c.as_u8()],
            EraseCodeFlash::ByPowerOff(c) => vec![0x0f, c.as_u8()],
        };
        assert(r@ =~= self.spec_payload());
        r
    }
}

/// Asks for the ROM/RAM split of the target, a value from 0 to 3 (0x0d, 0x04).
/// Only the CH32V2, CH32V3 and CH56X families have one.
#[derive(Clone, Copy, Debug)]
pub struct GetChipRomRamSplit;

impl Command for GetChipRomRamSplit {
    type Response = u8;

    const COMMAND_ID: u8 = 0x0d;

    open spec fn spec_payload(&self) -> Seq<u8> {
        seq![0x04]
    }

    fn payload(&self) -> (r: Vec<u8>) {
        let r = vec![0x04];
        assert(r@ =~= seq![0x04u8]);
        r
    }
}

/// Sets the ROM/RAM split of the target (0x0d, 0x05). The value, meant to be
/// from 0 to 3, is passed on as it is: the probe judges it.
#[derive(Clone, Copy, Debug)]
pub struct SetChipRomRamSplit(pub u8);

impl Command for SetChipRomRamSplit {
    type Response = ();

    const COMMAND_ID: u8 = 0x0d;

    open spec fn spec_payload(&self) -> Seq<u8> {
        seq![0x05, self.0]
    }

    fn payload(&self) -> (r: Vec<u8>) {
        let r = vec![0x05, self.0];
        assert(r@ =~= self.spec_payload());
        r
    }
}

/// Ends the debug session with the attached chip (0x0d, 0xff).
#[derive(Clone, Copy, Debug)]
pub struct OptEnd;

impl Command for OptEnd {
    type Response = ();

    const COMMAND_ID: u8 = 0x0d;

    open spec fn spec_payload(&self) -> Seq<u8> {
        seq![0xff]
    }

    fn payload(&self) -> (r: Vec<u8>) {
        let r = vec![0xff];
        assert(r@ =~= seq![0xffu8]);
        r
    }
}

/// Switches one of the probe's supply rails.
#[derive(Clone, Copy, Debug)]
pub enum SetPower {
    Enable3V3,
    Disable3V3,
    Enable5V,
    Disable5V,
}

impl Command for SetPower {
    type Response = ();

    const COMMAND_ID: u8 = 0x0d;

    open spec fn spec_payload(&self) -> Seq<u8> {
        match *self {
            SetPower::Enable3V3 => seq![0x09],
            SetPower::Disable3V3 => seq![0x0a],
            SetPower::Enable5V => seq![0x0b],
            SetPower::Disable5V => seq![0x0c],
        }
    }

    fn payload(&self) -> (r: Vec<u8>) {
        let r = match self {
            SetPower::Enable3V3 => vec![0x09],
            SetPower::Disable3V3 => vec![0x0a],
            SetPower::Enable5V => vec![0x0b],
            SetPower::Disable5V => vec![0x0c],
        };
        assert(r@ =~= self.spec_payload());
        r
    }
}

} // verus!

verus! {

/// Decoding the probe identity: under three bytes is too short; three bytes
/// give the default revision; with four, the third byte is the revision, and
/// an unknown one is reported back.
pub proof fn lemma_probe_info_decoding(bytes: Seq<u8>)
    ensures
        bytes.len() < 3 ==> ProbeInfo::spec_from_payload(bytes) == Err::<ProbeInfo, Error>(
            Error::InvalidPayloadLength,
        ),
        bytes.len() == 3 ==> ProbeInfo::spec_from_payload(bytes) == Ok::<ProbeInfo, Error>(
            (ProbeInfo {
                major_version: bytes[0],
                minor_version: bytes[1],
                variant: WchLinkVariant::Ch549,
            }),
        ),
        bytes.len() == 4 && WchLinkVariant::is_code(bytes[2]) ==> ({
            &&& ProbeInfo::spec_from_payload(bytes) matches Ok(p)
            &&& p.major_version == bytes[0]
            &&& p.minor_version == bytes[1]
            &&& p.variant.code() == bytes[2]
        }),
        bytes.len() == 4 && !WchLinkVariant::is_code(bytes[2]) ==> ProbeInfo::spec_from_payload(
            bytes,
        ) == Err::<ProbeInfo, Error>(Error::UnknownDiscriminant(bytes[2])),
{
    if bytes.len() == 4 {
        match WchLinkVariant::spec_try_from_u8(bytes[2]) {
            Ok(v) => {
                assert(v.code() == bytes[2]);
            },
            Err(_) => {
                assert forall|v: WchLinkVariant| #[trigger] v.code() != bytes[2] by {
                    match v {
                        _ => {},
                    }
                }
            },
        }
    }
}

/// Decoding the attach answer: anything but five bytes is refused; otherwise
/// the first byte names the family and is kept as it came, the other four are
/// the chip id, which is zero exactly when they all are.
pub proof fn lemma_attach_decoding(bytes: Seq<u8>)
    ensures
        bytes.len() != 5 ==> AttachChipResponse::spec_from_payload(bytes) == Err::<
            AttachChipResponse,
            Error,
        >(Error::InvalidPayloadLength),
        bytes.len() == 5 && !RiscvChip::is_code(bytes[0]) ==> AttachChipResponse::spec_from_payload(
            bytes,
        ) == Err::<AttachChipResponse, Error>(Error::UnknownDiscriminant(bytes[0])),
        bytes.len() == 5 && RiscvChip::is_code(bytes[0]) ==> ({
            &&& AttachChipResponse::spec_from_payload(bytes) matches Ok(a)
            &&& a.chip_family.code() == bytes[0]
            &&& a.riscvchip == bytes[0]
            &&& a.chip_id as int == bytes[1] as int * 0x1000000 + bytes[2] as int * 0x10000
                + bytes[3] as int * 0x100 + bytes[4] as int
            &&& (a.chip_id == 0 <==> (bytes[1] == 0 && bytes[2] == 0 && bytes[3] == 0
                && bytes[4] == 0))
        }),
{
    if bytes.len() == 5 {
        match RiscvChip::spec_try_from_u8(bytes[0]) {
            Ok(c) => {
                assert(c.code() == bytes[0]);
            },
            Err(_) => {
                assert forall|c: RiscvChip| #[trigger] c.code() != bytes[0] by {
                    match c {
                        _ => {},
                    }
                }
            },
        }
    }
}

} // verus!

use wlink::commands::control::{
    AttachChip, AttachChipResponse, EraseCodeFlash, GetChipRomRamSplit, GetProbeInfo, OptEnd,
    ProbeInfo, SetChipRomRamSplit, SetPower,
};
use wlink::commands::{Command, Response};
use wlink::{Error, RiscvChip, WchLinkVariant};

const CHIP_CODES: [(u8, RiscvChip); 13] = [
    (0x01, RiscvChip::CH32V103),
    (0x02, RiscvChip::CH57X),
    (0x03, RiscvChip::CH56X),
    (0x05, RiscvChip::CH32V20X),
    (0x06, RiscvChip::CH32V30X),
    (0x07, RiscvChip::CH58X),
    (0x09, RiscvChip::CH32V003),
    (0x0a, RiscvChip::CH8571),
    (0x0b, RiscvChip::CH59X),
    (0x0c, RiscvChip::CH643),
    (0x0d, RiscvChip::CH32X035),
    (0x0e, RiscvChip::CH32L103),
    (0x49, RiscvChip::CH641),
];

const VARIANT_CODES: [(u8, WchLinkVariant); 4] = [
    (1, WchLinkVariant::Ch549),
    (2, WchLinkVariant::ECh32v305),
    (3, WchLinkVariant::SCh32v203),
    (5, WchLinkVariant::WCh32v208),
];

#[test]
fn chip_family_parse_every_byte() {
    for b in 0..=255u8 {
        let known = CHIP_CODES.iter().find(|(code, _)| *code == b);
        match known {
            Some((_, chip)) => assert_eq!(RiscvChip::try_from_u8(b), Ok(*chip)),
            None => assert_eq!(RiscvChip::try_from_u8(b), Err(Error::UnknownDiscriminant(b))),
        }
    }
}

#[test]
fn chip_family_code_round_trip() {
    for (code, chip) in CHIP_CODES {
        assert_eq!(chip.as_u8(), code);
        assert_eq!(RiscvChip::try_from_u8(chip.as_u8()), Ok(chip));
    }
}

#[test]
fn probe_variant_parse_every_byte() {
    for b in 0..=255u8 {
        let known = VARIANT_CODES.iter().find(|(code, _)| *code == b);
        match known {
            Some((_, v)) => assert_eq!(WchLinkVariant::try_from_u8(b), Ok(*v)),
            None => {
                assert_eq!(WchLinkVariant::try_from_u8(b), Err(Error::UnknownDiscriminant(b)))
            }
        }
    }
    for (code, v) in VARIANT_CODES {
        assert_eq!(v.as_u8(), code);
    }
}

#[test]
fn probe_info_too_short() {
    assert_eq!(ProbeInfo::from_payload(&[]), Err(Error::InvalidPayloadLength));
    assert_eq!(ProbeInfo::from_payload(&[1]), Err(Error::InvalidPayloadLength));
    assert_eq!(ProbeInfo::from_payload(&[1, 2]), Err(Error::InvalidPayloadLength));
}

#[test]
fn probe_info_three_bytes_defaults_variant() {
    assert_eq!(
        ProbeInfo::from_payload(&[1, 2, 3]),
        Ok(ProbeInfo { major_version: 1, minor_version: 2, variant: WchLinkVariant::Ch549 })
    );
}

#[test]
fn probe_info_four_bytes_reads_variant() {
    assert_eq!(
        ProbeInfo::from_payload(&[1, 2, 2, 0]),
        Ok(ProbeInfo { major_version: 1, minor_version: 2, variant: WchLinkVariant::ECh32v305 })
    );
    assert_eq!(
        ProbeInfo::from_payload(&[1, 2, 5, 9]),
        Ok(ProbeInfo { major_version: 1, minor_version: 2, variant: WchLinkVariant::WCh32v208 })
    );
}

#[test]
fn probe_info_four_bytes_unknown_variant() {
    assert_eq!(ProbeInfo::from_payload(&[1, 2, 4, 0]), Err(Error::UnknownDiscriminant(4)));
    assert_eq!(ProbeInfo::from_payload(&[1, 2, 0xff, 0]), Err(Error::UnknownDiscriminant(0xff)));
}

#[test]
fn probe_info_five_bytes_ignores_variant() {
    assert_eq!(
        ProbeInfo::from_payload(&[3, 4, 0xee, 0xee, 0xee]),
        Ok(ProbeInfo { major_version: 3, minor_version: 4, variant: WchLinkVariant::Ch549 })
    );
}

#[test]
fn probe_info_version() {
    let info = ProbeInfo { major_version: 2, minor_version: 11, variant: WchLinkVariant::ECh32v305 };
    assert_eq!(info.version(), (2, 11));
}

#[test]
fn probe_info_text() {
    let info = ProbeInfo { major_version: 2, minor_version: 11, variant: WchLinkVariant::ECh32v305 };
    assert_eq!(info.to_string(), "WCH-Link v2.11 (WCH-LinkE-CH32V305)");
    let info = ProbeInfo { major_version: 255, minor_version: 0, variant: WchLinkVariant::Ch549 };
    assert_eq!(info.to_string(), "WCH-Link v255.0 (WCH-Link-CH549)");
    let info = ProbeInfo { major_version: 100, minor_version: 9, variant: WchLinkVariant::SCh32v203 };
    assert_eq!(info.to_string(), "WCH-Link v100.9 (WCH-LinkS-CH32V203)");
}

#[test]
fn attach_wrong_length() {
    let buf = [0x09u8; 12];
    for len in 0..12 {
        if len != 5 {
            assert_eq!(AttachChipResponse::from_payload(&buf[..len]), Err(Error::InvalidPayloadLength));
        }
    }
}

#[test]
fn attach_zero_chip_id() {
    assert_eq!(
        AttachChipResponse::from_payload(&[0x09, 0, 0, 0, 0]),
        Ok(AttachChipResponse { chip_family: RiscvChip::CH32V003, riscvchip: 0x09, chip_id: 0 })
    );
}

#[test]
fn attach_big_endian_chip_id() {
    let r = AttachChipResponse::from_payload(&[0x06, 0x01, 0x02, 0x03, 0x04]).unwrap();
    assert_eq!(r.chip_id, 0x01020304);
    assert_eq!(r.chip_family, RiscvChip::CH32V30X);
    assert_eq!(r.riscvchip, 0x06);
    let r = AttachChipResponse::from_payload(&[0x49, 0xff, 0xff, 0xff, 0xff]).unwrap();
    assert_eq!(r.chip_id, 0xffff_ffff);
}

#[test]
fn attach_unknown_family() {
    assert_eq!(
        AttachChipResponse::from_payload(&[0x04, 1, 2, 3, 4]),
        Err(Error::UnknownDiscriminant(0x04))
    );
}

#[test]
fn erase_payloads() {
    assert_eq!(EraseCodeFlash::ByPinRST(RiscvChip::CH32V003).payload(), vec![0x08, 0x09]);
    assert_eq!(EraseCodeFlash::ByPowerOff(RiscvChip::CH32V003).payload(), vec![0x0f, 0x09]);
    for (code, chip) in CHIP_CODES {
        assert_eq!(EraseCodeFlash::ByPinRST(chip).payload(), vec![0x08, code]);
        assert_eq!(EraseCodeFlash::ByPowerOff(chip).payload(), vec![0x0f, code]);
    }
}

#[test]
fn set_power_payloads() {
    assert_eq!(SetPower::Enable3V3.payload(), vec![0x09]);
    assert_eq!(SetPower::Disable3V3.payload(), vec![0x0a]);
    assert_eq!(SetPower::Enable5V.payload(), vec![0x0b]);
    assert_eq!(SetPower::Disable5V.payload(), vec![0x0c]);
}

#[test]
fn fixed_payloads_and_group() {
    assert_eq!(GetProbeInfo.payload(), vec![0x01]);
    assert_eq!(AttachChip.payload(), vec![0x02]);
    assert_eq!(GetChipRomRamSplit.payload(), vec![0x04]);
    assert_eq!(SetChipRomRamSplit(2).payload(), vec![0x05, 2]);
    assert_eq!(SetChipRomRamSplit(7).payload(), vec![0x05, 7]);
    assert_eq!(OptEnd.payload(), vec![0xff]);
    assert_eq!(GetProbeInfo::COMMAND_ID, 0x0d);
    assert_eq!(AttachChip::COMMAND_ID, 0x0d);
    assert_eq!(EraseCodeFlash::COMMAND_ID, 0x0d);
    assert_eq!(GetChipRomRamSplit::COMMAND_ID, 0x0d);
    assert_eq!(SetChipRomRamSplit::COMMAND_ID, 0x0d);
    assert_eq!(OptEnd::COMMAND_ID, 0x0d);
    assert_eq!(SetPower::COMMAND_ID, 0x0d);
}

#[test]
fn attach_text_without_id() {
    let r = AttachChipResponse { chip_family: RiscvChip::CH32V003, riscvchip: 0x09, chip_id: 0 };
    assert_eq!(r.describe(Some("CH32V003F4P6")), "CH32V003");
    assert_eq!(r.describe(None), "CH32V003");
}

#[test]
fn attach_text_with_name() {
    let r = AttachChipResponse { chip_family: RiscvChip::CH32V20X, riscvchip: 0x05, chip_id: 0x1234 };
    assert_eq!(r.describe(Some("CH32V203C8T6")), "CH32V20X [CH32V203C8T6] (ChipID: 0x00001234)");
}

#[test]
fn attach_text_without_name() {
    let r = AttachChipResponse { chip_family: RiscvChip::CH32V20X, riscvchip: 0x05, chip_id: 0x1234 };
    assert_eq!(r.describe(None), "CH32V20X (ChipID: 0x00001234)");
    let r = AttachChipResponse { chip_family: RiscvChip::CH641, riscvchip: 0x49, chip_id: 0xdeadbeef };
    assert_eq!(r.describe(None), "CH641 (ChipID: 0xdeadbeef)");
}

fn round_trip<C: Command>(cmd: &C, expected_payload: &[u8], answer: &[u8]) -> C::Response {
    assert_eq!(cmd.payload(), expected_payload);
    assert_eq!(C::COMMAND_ID, 0x0d);
    C::Response::from_payload(answer).unwrap()
}

#[test]
fn round_trip_fixtures() {
    assert_eq!(
        round_trip(&GetProbeInfo, &[0x01], &[2, 9, 2, 0]),
        ProbeInfo { major_version: 2, minor_version: 9, variant: WchLinkVariant::ECh32v305 }
    );
    assert_eq!(
        round_trip(&GetProbeInfo, &[0x01], &[2, 7, 1]),
        ProbeInfo { major_version: 2, minor_version: 7, variant: WchLinkVariant::Ch549 }
    );
    assert_eq!(
        round_trip(&AttachChip, &[0x02], &[0x09, 0x00, 0x30, 0x05, 0x00]),
        AttachChipResponse { chip_family: RiscvChip::CH32V003, riscvchip: 0x09, chip_id: 0x00300500 }
    );
    assert_eq!(round_trip(&GetChipRomRamSplit, &[0x04], &[0x02]), 2u8);
    round_trip(&SetChipRomRamSplit(3), &[0x05, 0x03], &[]);
    round_trip(&EraseCodeFlash::ByPinRST(RiscvChip::CH32V20X), &[0x08, 0x05], &[]);
    round_trip(&EraseCodeFlash::ByPowerOff(RiscvChip::CH32V20X), &[0x0f, 0x05], &[]);
    round_trip(&OptEnd, &[0xff], &[]);
    round_trip(&SetPower::Enable3V3, &[0x09], &[]);
    round_trip(&SetPower::Disable5V, &[0x0c], &[]);
}

#[test]
fn rom_ram_split_answer_length() {
    assert_eq!(u8::from_payload(&[3]), Ok(3));
    assert_eq!(u8::from_payload(&[7]), Ok(7));
    assert_eq!(u8::from_payload(&[]), Err(Error::InvalidPayloadLength));
    assert_eq!(u8::from_payload(&[1, 2]), Err(Error::InvalidPayloadLength));
    assert_eq!(<()>::from_payload(&[1, 2, 3]), Ok(()));
}

#[test]
fn names() {
    assert_eq!(RiscvChip::CH32X035.name(), "CH32X035");
    assert_eq!(WchLinkVariant::WCh32v208.name(), "WCH-LinkW-CH32V208");
}

use usbd_storage::subclass::scsi::{
    parse_cb, PageControl, ScsiCommand, INQUIRY, MODE_SENSE_10, MODE_SENSE_6, READ_10, READ_16,
    READ_CAPACITY_10, READ_CAPACITY_16, READ_FORMAT_CAPACITIES, REQUEST_SENSE, TEST_UNIT_READY,
    WRITE_10, WRITE_16,
};

#[test]
fn parse_cb_short_inquiry_does_not_panic() {
    // INQUIRY opcode but no operands present.
    assert!(matches!(
        parse_cb(&[INQUIRY]),
        ScsiCommand::Unknown { cmd } if cmd == INQUIRY
    ));
}

#[test]
fn parse_cb_short_read10_does_not_panic() {
    // READ_10 needs bytes up to index 8; give it only the opcode.
    assert!(matches!(
        parse_cb(&[READ_10]),
        ScsiCommand::Unknown { cmd } if cmd == READ_10
    ));
}

#[test]
fn parse_cb_short_read_capacity_16_does_not_panic() {
    // READ_CAPACITY_16 reads cb[10..14]; a 10-byte CDB is too short.
    let cb = [READ_CAPACITY_16, 0, 0, 0, 0, 0, 0, 0, 0, 0];
    assert!(matches!(
        parse_cb(&cb),
        ScsiCommand::Unknown { cmd } if cmd == READ_CAPACITY_16
    ));
}

#[test]
fn parse_cb_short_read16_yields_unknown_not_panic() {
    let cb = [READ_16, 0, 0, 0, 0, 0, 0, 0, 0, 0, 0, 0]; // 12 bytes < 14
    assert!(matches!(
        parse_cb(&cb),
        ScsiCommand::Unknown { cmd } if cmd == READ_16
    ));
}

#[test]
fn parse_cb_short_write16_yields_unknown_not_panic() {
    let cb = [WRITE_16, 0, 0, 0, 0, 0, 0, 0, 0, 0, 0, 0, 0]; // 13 bytes < 14
    assert!(matches!(
        parse_cb(&cb),
        ScsiCommand::Unknown { cmd } if cmd == WRITE_16
    ));
}

#[test]
fn parse_cb_full_read16_parses() {
    // A full 16-byte READ_16: opcode + 8-byte LBA + 4-byte length.
    let mut cb = [0u8; 16];
    cb[0] = READ_16;
    cb[9] = 0x01; // LBA low byte
    cb[13] = 0x08; // transfer length
    match parse_cb(&cb) {
        ScsiCommand::Read { lba, len } => {
            assert_eq!(lba, 1);
            assert_eq!(len, 8);
        }
        other => panic!("expected Read, got {other:?}"),
    }
}

#[test]
fn parse_cb_mode_sense_6_page_control_does_not_panic() {
    // page_control = cb[2] >> 6; all four 2-bit values are valid, and a
    // too-short CDB yields Unknown rather than panicking on an unwrap.
    let cb = [MODE_SENSE_6, 0, 0b1100_0000, 0, 0];
    match parse_cb(&cb) {
        ScsiCommand::ModeSense6 { page_control, .. } => {
            assert!(matches!(page_control, PageControl::SavedValues));
        }
        other => panic!("expected ModeSense6, got {other:?}"),
    }
    assert!(matches!(
        parse_cb(&[MODE_SENSE_6]),
        ScsiCommand::Unknown { cmd } if cmd == MODE_SENSE_6
    ));
}

#[test]
fn commands_without_operands_need_the_code_alone() {
    assert!(matches!(parse_cb(&[TEST_UNIT_READY]), ScsiCommand::TestUnitReady));
    assert!(matches!(parse_cb(&[READ_CAPACITY_10]), ScsiCommand::ReadCapacity10));
}

#[test]
fn inquiry_fields() {
    match parse_cb(&[INQUIRY, 0b1111_1111, 0x80, 0x01, 0x02, 0]) {
        ScsiCommand::Inquiry { evpd, page_code, alloc_len } => {
            assert!(evpd);
            assert_eq!(page_code, 0x80);
            assert_eq!(alloc_len, 0x0102);
        }
        other => panic!("expected Inquiry, got {other:?}"),
    }
    assert!(matches!(
        parse_cb(&[INQUIRY, 0b1111_1110, 0, 0, 36]),
        ScsiCommand::Inquiry { evpd: false, page_code: 0, alloc_len: 36 }
    ));
}

#[test]
fn request_sense_fields() {
    assert!(matches!(
        parse_cb(&[REQUEST_SENSE, 1, 9, 9, 18]),
        ScsiCommand::RequestSense { desc: true, alloc_len: 18 }
    ));
    assert!(matches!(
        parse_cb(&[REQUEST_SENSE, 2, 9, 9, 252]),
        ScsiCommand::RequestSense { desc: false, alloc_len: 252 }
    ));
}

#[test]
fn mode_sense_fields() {
    match parse_cb(&[MODE_SENSE_6, 0b0000_1000, 0b0111_1111, 0xAB, 192]) {
        ScsiCommand::ModeSense6 { dbd, page_control, page_code, subpage_code, alloc_len } => {
            assert!(dbd);
            assert_eq!(page_control, PageControl::ChangeableValues);
            assert_eq!(page_code, 0x3F);
            assert_eq!(subpage_code, 0xAB);
            assert_eq!(alloc_len, 192);
        }
        other => panic!("expected ModeSense6, got {other:?}"),
    }
    match parse_cb(&[MODE_SENSE_10, 0b1111_0111, 0b1000_0001, 2, 0, 0, 0, 0x12, 0x34]) {
        ScsiCommand::ModeSense10 { dbd, page_control, page_code, subpage_code, alloc_len } => {
            assert!(!dbd);
            assert_eq!(page_control, PageControl::DefaultValues);
            assert_eq!(page_code, 1);
            assert_eq!(subpage_code, 2);
            assert_eq!(alloc_len, 0x1234);
        }
        other => panic!("expected ModeSense10, got {other:?}"),
    }
}

#[test]
fn page_control_codes() {
    assert_eq!(PageControl::from_code(0), PageControl::CurrentValues);
    assert_eq!(PageControl::from_code(1), PageControl::ChangeableValues);
    assert_eq!(PageControl::from_code(2), PageControl::DefaultValues);
    assert_eq!(PageControl::from_code(3), PageControl::SavedValues);
    assert_eq!(PageControl::from_code(4), PageControl::CurrentValues);
}

#[test]
fn read_and_write_10_fields() {
    let mut cb = [0u8; 10];
    cb[2] = 0xFF;
    cb[3] = 0x01;
    cb[4] = 0x02;
    cb[5] = 0x03;
    cb[7] = 0x01;
    cb[8] = 0x00;
    cb[0] = READ_10;
    assert!(matches!(
        parse_cb(&cb),
        ScsiCommand::Read { lba: 0xFF01_0203, len: 256 }
    ));
    cb[0] = WRITE_10;
    assert!(matches!(
        parse_cb(&cb),
        ScsiCommand::Write { lba: 0xFF01_0203, len: 256 }
    ));
}

#[test]
fn read_and_write_16_fields() {
    let mut cb = [WRITE_16, 0, 1, 2, 3, 4, 5, 6, 7, 8, 0xA, 0xB, 0xC, 0xD];
    assert!(matches!(
        parse_cb(&cb),
        ScsiCommand::Write { lba: 0x0102_0304_0506_0708, len: 0x0A0B_0C0D }
    ));
    cb[0] = READ_16;
    assert!(matches!(
        parse_cb(&cb),
        ScsiCommand::Read { lba: 0x0102_0304_0506_0708, len: 0x0A0B_0C0D }
    ));
}

#[test]
fn capacity_fields() {
    let mut cb = [0u8; 16];
    cb[0] = READ_CAPACITY_16;
    cb[12] = 1;
    cb[13] = 32;
    assert!(matches!(
        parse_cb(&cb),
        ScsiCommand::ReadCapacity16 { alloc_len: 288 }
    ));
    assert!(matches!(
        parse_cb(&[READ_FORMAT_CAPACITIES, 0, 0, 0, 0, 0, 0, 0, 252]),
        ScsiCommand::ReadFormatCapacities { alloc_len: 252 }
    ));
}

#[test]
fn unsupported_code_is_unknown() {
    assert!(matches!(parse_cb(&[0xFF; 16]), ScsiCommand::Unknown { cmd: 0xFF }));
}

#[test]
fn padding_does_not_matter() {
    let cb = [READ_10, 0, 0, 0, 0, 7, 0, 0, 2];
    let mut padded = cb.to_vec();
    padded.extend_from_slice(&[0xEE; 7]);
    assert!(matches!(parse_cb(&cb), ScsiCommand::Read { lba: 7, len: 2 }));
    assert!(matches!(parse_cb(&padded), ScsiCommand::Read { lba: 7, len: 2 }));
}

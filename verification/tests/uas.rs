use usbd_storage::subclass::scsi::ScsiCommand;
use usbd_storage::transport::uas::{
    build_ready_iu, build_response_iu, build_status_iu, fixed_sense, parse_iu, InsertError,
    IuParse, IuParseError, TagTable, COMMAND_IU_LEN, IU_ID_COMMAND, IU_ID_READ_READY,
    IU_ID_RESPONSE, IU_ID_STATUS, IU_ID_TASK_MGMT, IU_ID_WRITE_READY, RC_INCORRECT_LUN,
    RC_OVERLAPPED_TAG, READY_IU_LEN, UAS_QDEPTH,
};

#[test]
fn test_parse_command_iu_read10_extracts_tag_lun_cdb() {
    // a 32-byte READ(10) Command IU
    // tag = 0x0001, prio_attr = 0, LUN = 0, CDB = READ(10) LBA=0x1234 len=8
    let mut raw = [0u8; 32];
    raw[0] = IU_ID_COMMAND; // IU ID
    raw[1] = 0x00; // reserved
    raw[2] = 0x00; // tag high
    raw[3] = 0x01; // tag low
    raw[4] = 0x00; // prio_attr
    raw[5] = 0x00; // reserved
    raw[6] = 0x00; // len (additional CDB beyond 16 = 0)
    raw[7] = 0x00; // reserved
    // LUN at bytes 8..16: all zero for LUN 0
    // CDB at bytes 16..32: READ(10) = 0x28
    raw[16] = 0x28; // READ(10) op-code
    raw[17] = 0x00; // flags
    raw[18] = 0x00; // LBA [31:24]
    raw[19] = 0x00; // LBA [23:16]
    raw[20] = 0x12; // LBA [15:8]
    raw[21] = 0x34; // LBA [7:0]
    raw[22] = 0x00; // reserved
    raw[23] = 0x00; // transfer length [15:8]
    raw[24] = 0x08; // transfer length [7:0]
    raw[25] = 0x00; // control

    match parse_iu(&raw).unwrap() {
        IuParse::Command(iu) => {
            assert_eq!(iu.tag, 1, "tag should be 1");
            assert_eq!(iu.lun, 0, "lun should be 0");
            assert_eq!(iu.prio_attr, 0, "prio_attr should be 0");
            match iu.parse_kind() {
                ScsiCommand::Read { lba, len } => {
                    assert_eq!(lba, 0x1234u64, "lba should be 0x1234");
                    assert_eq!(len, 8u32, "len should be 8");
                }
                other => panic!("unexpected ScsiCommand: {:?}", other),
            }
        }
        IuParse::TaskMgmt(_) => panic!("expected Command, got TaskMgmt"),
    }
}

#[test]
fn test_parse_iu_short_input_returns_too_short() {
    // one byte short of COMMAND_IU_LEN=32
    let mut raw = [0u8; 31];
    raw[0] = IU_ID_COMMAND;

    let result = parse_iu(&raw);

    assert!(result.is_err(), "expected error for short input");
    match result.unwrap_err() {
        IuParseError::TooShort { expected, actual } => {
            assert_eq!(
                expected, COMMAND_IU_LEN,
                "expected length should be COMMAND_IU_LEN (32)"
            );
            assert_eq!(actual, 31, "actual length should be 31");
        }
        e => panic!("unexpected error variant: {:?}", e),
    }
}

#[test]
fn test_parse_iu_unknown_id_returns_unknown_iu_id() {
    let raw = [0x7Fu8; 32];

    let result = parse_iu(&raw);

    assert!(result.is_err(), "expected error for unknown IU ID");
    match result.unwrap_err() {
        IuParseError::UnknownIuId { id } => {
            assert_eq!(id, 0x7F, "id should be 0x7F");
        }
        e => panic!("unexpected error variant: {:?}", e),
    }
}

#[test]
fn test_tag_is_big_endian_both_ways() {
    let mut raw = [0u8; 32];
    raw[0] = IU_ID_COMMAND;
    raw[2] = 0x01; // tag high byte
    raw[3] = 0x00; // tag low byte

    match parse_iu(&raw).unwrap() {
        IuParse::Command(iu) => {
            assert_eq!(iu.tag, 256, "tag should be 256 (0x0100 big-endian)");
        }
        IuParse::TaskMgmt(_) => panic!("expected Command"),
    }

    let (buf, _used) = build_status_iu(256, 0x00, &[]);

    assert_eq!(buf[2], 0x01, "status IU byte 2 should be 0x01");
    assert_eq!(buf[3], 0x00, "status IU byte 3 should be 0x00");
}

#[test]
fn test_status_iu_good_is_16_bytes() {
    let (buf, used) = build_status_iu(1, 0x00, &[]);

    assert_eq!(used, 16, "GOOD status IU should be 16 bytes");
    assert_eq!(buf[0], IU_ID_STATUS, "byte 0 should be IU_ID_STATUS (0x03)");
    assert_eq!(buf[14], 0, "sense length high byte should be 0");
    assert_eq!(buf[15], 0, "sense length low byte should be 0");
}

#[test]
fn test_status_iu_check_condition_carries_sense() {
    let sense = fixed_sense(0x05, 0x20, 0x00); // sense key 5, ASC 0x20
    assert_eq!(sense.len(), 18, "fixed_sense should produce 18 bytes");

    let (buf, used) = build_status_iu(3, 0x02, &sense);

    assert_eq!(used, 34, "used should be 34 (16 + 18)");
    assert_eq!(
        buf[6], 0x02,
        "SCSI status byte should be CHECK_CONDITION (0x02)"
    );
    let sense_len = u16::from_be_bytes([buf[14], buf[15]]);
    assert_eq!(sense_len, 18, "sense length field should be 18");
    assert_eq!(
        &buf[16..34],
        &sense[..18],
        "sense bytes at offset 16 should match the supplied sense"
    );
}

#[test]
fn test_ready_iu_ids_match_spec() {
    let rrdy = build_ready_iu(true, 5);

    assert_eq!(rrdy.len(), READY_IU_LEN, "RRDY IU should be 4 bytes");
    assert_eq!(rrdy[0], IU_ID_READ_READY, "RRDY byte 0 should be 0x06");
    assert_eq!(rrdy[1], 0x00, "RRDY byte 1 should be reserved (0x00)");
    let rrdy_tag = u16::from_be_bytes([rrdy[2], rrdy[3]]);
    assert_eq!(rrdy_tag, 5, "RRDY tag should be 5");

    let wrdy = build_ready_iu(false, 5);

    assert_eq!(wrdy[0], IU_ID_WRITE_READY, "WRDY byte 0 should be 0x07");
    let wrdy_tag = u16::from_be_bytes([wrdy[2], wrdy[3]]);
    assert_eq!(wrdy_tag, 5, "WRDY tag should be 5");
}

fn make_tur() -> ScsiCommand {
    ScsiCommand::TestUnitReady
}

fn make_read(lba: u32, len: u16) -> ScsiCommand {
    ScsiCommand::Read {
        lba: lba as u64,
        len: u32::from(len),
    }
}

#[test]
fn test_tag_table_fifo_order_and_overlap_rejected() {
    let mut table = TagTable::new();

    table.insert(3, 0, make_tur()).unwrap();
    table.insert(1, 0, make_tur()).unwrap();
    table.insert(2, 0, make_tur()).unwrap();

    let head_tag = table.head().map(|s| s.tag);
    assert_eq!(head_tag, Some(3), "head should be tag 3 (oldest)");

    let err = table.insert(1, 0, make_tur()).unwrap_err();
    assert_eq!(
        err,
        InsertError::Overlapped,
        "duplicate tag should be Overlapped"
    );

    table.complete_head();
    assert_eq!(
        table.head().map(|s| s.tag),
        Some(1),
        "after removing tag 3, head should be tag 1"
    );
    table.complete_head();
    assert_eq!(
        table.head().map(|s| s.tag),
        Some(2),
        "after removing tag 1, head should be tag 2"
    );
    table.complete_head();
    assert!(
        table.is_empty(),
        "table should be empty after 3 complete_head calls"
    );
}

#[test]
fn test_tag_table_full_rejects_33rd_insert() {
    let mut table = TagTable::new();
    for i in 1..=(UAS_QDEPTH as u16) {
        table.insert(i, 0, make_tur()).unwrap();
    }
    assert_eq!(table.len(), UAS_QDEPTH, "table should hold 32 entries");

    let err = table.insert(33, 0, make_tur()).unwrap_err();

    assert_eq!(err, InsertError::Full, "33rd insert should return Full");
}

#[test]
fn test_next_read_after_head_skips_non_reads() {
    let mut table = TagTable::new();
    table.insert(1, 0, make_read(0, 1)).unwrap(); // head: a Read
    table.insert(2, 0, make_tur()).unwrap(); // not a Read
    table.insert(3, 0, make_read(0x5678, 16)).unwrap(); // the prefetch hint

    let hint = table.next_read_after_head();

    assert!(hint.is_some(), "should find a Read after the head");
    let (lba, blocks) = hint.unwrap();
    assert_eq!(lba, 0x5678, "hint lba should be 0x5678");
    assert_eq!(blocks, 16, "hint blocks should be 16");
}

/// The next state of a small pseudo-random generator
fn next_random(state: u32) -> u32 {
    state.wrapping_mul(1_664_525).wrapping_add(1_013_904_223)
}

#[test]
fn proptest_parse_iu_never_panics() {
    let mut state = 1u32;
    for round in 0..2000u32 {
        let len = (round % 65) as usize;
        let mut raw = vec![0u8; len];
        for byte in raw.iter_mut() {
            state = next_random(state);
            *byte = (state >> 24) as u8;
        }
        if len > 0 {
            raw[0] %= 8;
        }
        let _ = parse_iu(&raw);
    }
}

#[test]
fn proptest_status_iu_tag_roundtrip() {
    for tag in 0..=u16::MAX {
        let (buf, _used) = build_status_iu(tag, 0x00, &[]);
        let recovered = u16::from_be_bytes([buf[2], buf[3]]);
        assert_eq!(recovered, tag, "tag should roundtrip through build_status_iu");
    }
}

#[test]
fn proptest_ready_iu_tag_roundtrip() {
    for tag in 0..=u16::MAX {
        for read in [true, false] {
            let iu = build_ready_iu(read, tag);
            let recovered = u16::from_be_bytes([iu[2], iu[3]]);
            assert_eq!(recovered, tag, "tag should roundtrip through build_ready_iu");
        }
    }
}

#[test]
fn task_management_iu_fields() {
    let mut raw = [0u8; 16];
    raw[0] = IU_ID_TASK_MGMT;
    raw[2] = 0x12;
    raw[3] = 0x34;
    raw[4] = 0x08;
    raw[6] = 0x56;
    raw[7] = 0x78;
    match parse_iu(&raw).unwrap() {
        IuParse::TaskMgmt(iu) => {
            assert_eq!(iu.tag, 0x1234);
            assert_eq!(iu.function, 0x08);
            assert_eq!(iu.task_tag, 0x5678);
        }
        IuParse::Command(_) => panic!("expected TaskMgmt, got Command"),
    }
    assert_eq!(
        parse_iu(&raw[..15]).unwrap_err(),
        IuParseError::TooShort { expected: 16, actual: 15 }
    );
}

#[test]
fn foreign_lun_is_no_parse_error() {
    let mut raw = [0u8; 40];
    raw[0] = IU_ID_COMMAND;
    raw[4] = 3;
    raw[8] = 7;
    match parse_iu(&raw).unwrap() {
        IuParse::Command(iu) => {
            assert_eq!(iu.lun, 7);
            assert_eq!(iu.prio_attr, 3);
            assert!(matches!(iu.parse_kind(), ScsiCommand::TestUnitReady));
        }
        IuParse::TaskMgmt(_) => panic!("expected Command, got TaskMgmt"),
    }
}

#[test]
fn empty_packet_is_unknown() {
    assert_eq!(parse_iu(&[]).unwrap_err(), IuParseError::UnknownIuId { id: 0 });
}

#[test]
fn parse_error_messages() {
    assert_eq!(
        IuParseError::TooShort { expected: 32, actual: 7 }.message(),
        "IU too short: expected 32 bytes, got 7"
    );
    assert_eq!(
        IuParseError::TooShort { expected: 16, actual: 0 }.message(),
        "IU too short: expected 16 bytes, got 0"
    );
    assert_eq!(IuParseError::UnknownIuId { id: 0x7F }.message(), "unknown IU ID: 0x7f");
    assert_eq!(IuParseError::UnknownIuId { id: 2 }.message(), "unknown IU ID: 0x02");
}

#[test]
fn insert_error_messages() {
    assert_eq!(InsertError::Overlapped.message(), "overlapped tag: tag already in table");
    assert_eq!(InsertError::Full.message(), "tag table full");
}

#[test]
fn response_iu_bytes() {
    assert_eq!(
        build_response_iu(0x1234, RC_INCORRECT_LUN),
        [IU_ID_RESPONSE, 0, 0x12, 0x34, 0, 0, 0, 0x09]
    );
    assert_eq!(build_response_iu(1, RC_OVERLAPPED_TAG), [0x04, 0, 0, 1, 0, 0, 0, 0x0A]);
}

#[test]
fn fixed_sense_bytes() {
    assert_eq!(
        fixed_sense(0xF5, 0x20, 0x01),
        [0x70, 0, 5, 0, 0, 0, 0, 10, 0, 0, 0, 0, 0x20, 0x01, 0, 0, 0, 0]
    );
}

#[test]
fn status_iu_cuts_long_sense() {
    let sense = [0xAAu8; 40];
    let (buf, used) = build_status_iu(0xBEEF, 0x02, &sense);
    assert_eq!(used, 34);
    assert_eq!(buf[..16], [3, 0, 0xBE, 0xEF, 0, 0, 2, 0, 0, 0, 0, 0, 0, 0, 0, 18]);
    assert_eq!(buf[16..], [0xAA; 18]);
}

#[test]
fn status_iu_carries_short_sense() {
    let (buf, used) = build_status_iu(1, 0x02, &[9, 8, 7]);
    assert_eq!(used, 19);
    assert_eq!(buf[14..20], [0, 3, 9, 8, 7, 0]);
}

#[test]
fn answers_carry_the_tag_of_the_command() {
    let mut raw = [0u8; 32];
    raw[0] = IU_ID_COMMAND;
    raw[2] = 0xCA;
    raw[3] = 0xFE;
    let tag = match parse_iu(&raw).unwrap() {
        IuParse::Command(iu) => iu.tag,
        IuParse::TaskMgmt(_) => panic!("expected Command, got TaskMgmt"),
    };
    assert_eq!(build_ready_iu(true, tag)[2..4], raw[2..4]);
    assert_eq!(build_status_iu(tag, 0, &[]).0[2..4], raw[2..4]);
    assert_eq!(build_response_iu(tag, 0)[2..4], raw[2..4]);
}

#[test]
fn tag_is_free_again_after_completion() {
    let mut table = TagTable::default();
    table.insert(7, 1, make_tur()).unwrap();
    assert_eq!(table.head().map(|s| s.lun), Some(1));
    assert_eq!(table.insert(7, 0, make_tur()).unwrap_err(), InsertError::Overlapped);
    table.complete_head();
    table.insert(7, 2, make_tur()).unwrap();
    assert_eq!(table.head().map(|s| s.lun), Some(2));
}

#[test]
fn full_is_reported_before_overlapped() {
    let mut table = TagTable::new();
    for tag in 0..32 {
        table.insert(tag, 0, make_tur()).unwrap();
    }
    assert_eq!(table.insert(5, 0, make_tur()).unwrap_err(), InsertError::Full);
}

#[test]
fn table_wraps_around() {
    let mut table = TagTable::new();
    for tag in 0..200u16 {
        table.insert(tag, 0, make_tur()).unwrap();
        if table.len() == UAS_QDEPTH {
            assert_eq!(table.head().map(|s| s.tag), Some(tag + 1 - 32));
            table.complete_head();
        }
    }
    for tag in 169..200u16 {
        assert_eq!(table.head().map(|s| s.tag), Some(tag));
        table.complete_head();
    }
    assert!(table.is_empty());
    assert!(table.head().is_none());
    table.complete_head();
    assert_eq!(table.len(), 0);
}

#[test]
fn clear_empties_the_table() {
    let mut table = TagTable::new();
    table.insert(1, 0, make_tur()).unwrap();
    table.insert(2, 0, make_tur()).unwrap();
    table.clear();
    assert_eq!(table.len(), 0);
    assert!(table.head().is_none());
    table.insert(1, 0, make_tur()).unwrap();
    assert_eq!(table.head().map(|s| s.tag), Some(1));
}

#[test]
fn there_is_no_hint_without_a_second_read() {
    let mut table = TagTable::new();
    assert_eq!(table.next_read_after_head(), None);
    table.insert(1, 0, make_read(5, 1)).unwrap();
    assert_eq!(table.next_read_after_head(), None);
    table.insert(2, 0, make_tur()).unwrap();
    assert_eq!(table.next_read_after_head(), None);
}

#[test]
fn hint_cuts_the_upper_bits_of_the_address() {
    let mut table = TagTable::new();
    table.insert(1, 0, make_tur()).unwrap();
    table.insert(2, 0, ScsiCommand::Read { lba: 0x1_2345_6789, len: 0x0001_0000 }).unwrap();
    assert_eq!(table.next_read_after_head(), Some((0x2345_6789, 0x0001_0000)));
}

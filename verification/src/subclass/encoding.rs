//! Command blocks seen from the host: a block that is made of field values decodes to
//! the command with these values

use crate::subclass::scsi::{PageControl, ScsiCommand};
use crate::transport::uas::CommandIu;
use vstd::prelude::*;

verus! {

/// The two bytes of `x`, most significant first
pub open spec fn bytes2(x: u16) -> Seq<u8> {
    seq![(x / 256) as u8, (x % 256) as u8]
}

/// The four bytes of `x`, most significant first
pub open spec fn bytes4(x: u32) -> Seq<u8> {
    seq![
        (x / 16777216) as u8,
        (x / 65536 % 256) as u8,
        (x / 256 % 256) as u8,
        (x % 256) as u8,
    ]
}

/// The eight bytes of `x`, most significant first
pub open spec fn bytes8(x: u64) -> Seq<u8> {
    bytes4((x / 4294967296) as u32) + bytes4((x % 4294967296) as u32)
}

/// The four bytes of a number make the number.
pub proof fn bytes4_make_the_number(x: u32)
    ensures
        crate::endian::be32(bytes4(x)[0], bytes4(x)[1], bytes4(x)[2], bytes4(x)[3]) == x,
{
}

/// A block of the 10-byte form: operation code, flags, a block address, a group number
/// and a block count, then `rest`
pub open spec fn block10(
    opcode: u8,
    flags: u8,
    lba: u32,
    group: u8,
    len: u16,
    rest: Seq<u8>,
) -> Seq<u8> {
    seq![opcode, flags] + bytes4(lba) + seq![group] + bytes2(len) + rest
}

/// A block of the 16-byte form: operation code, flags, a block address and a block
/// count, then `rest`
pub open spec fn block16(opcode: u8, flags: u8, lba: u64, len: u32, rest: Seq<u8>) -> Seq<u8> {
    seq![opcode, flags] + bytes8(lba) + bytes4(len) + rest
}

/// READ(10) and WRITE(10) decode to the block address and the block count that they
/// were made of, whatever the flags, the group number and the bytes behind are.
pub proof fn read_and_write_10_decode_back(
    flags: u8,
    lba: u32,
    group: u8,
    len: u16,
    rest: Seq<u8>,
)
    ensures
        crate::subclass::scsi::decoded(block10(0x28, flags, lba, group, len, rest)) == (
        ScsiCommand::Read { lba: lba as u64, len: len as u32 }),
        crate::subclass::scsi::decoded(block10(0x2A, flags, lba, group, len, rest)) == (
        ScsiCommand::Write { lba: lba as u64, len: len as u32 }),
{
    let read = block10(0x28, flags, lba, group, len, rest);
    let write = block10(0x2A, flags, lba, group, len, rest);
    let a = bytes4(lba);
    let n = bytes2(len);
    assert(read.len() >= 9 && write.len() >= 9);
    assert(read[2] == a[0] && read[3] == a[1] && read[4] == a[2] && read[5] == a[3]);
    assert(read[7] == n[0] && read[8] == n[1]);
    assert(write[2] == a[0] && write[3] == a[1] && write[4] == a[2] && write[5] == a[3]);
    assert(write[7] == n[0] && write[8] == n[1]);
}

/// READ(16) and WRITE(16) decode to the block address and the block count that they
/// were made of.
pub proof fn read_and_write_16_decode_back(flags: u8, lba: u64, len: u32, rest: Seq<u8>)
    ensures
        crate::subclass::scsi::decoded(block16(0x88, flags, lba, len, rest)) == (
        ScsiCommand::Read { lba, len }),
        crate::subclass::scsi::decoded(block16(0x8A, flags, lba, len, rest)) == (
        ScsiCommand::Write { lba, len }),
{
    fields_of_block16(0x88, flags, lba, len, rest);
    fields_of_block16(0x8A, flags, lba, len, rest);
    assert(crate::endian::be64((lba / 4294967296) as u32, (lba % 4294967296) as u32) == lba);
}

/// Where the fields of a block of the 16-byte form stand
proof fn fields_of_block16(opcode: u8, flags: u8, lba: u64, len: u32, rest: Seq<u8>)
    ensures
        ({
            let block = block16(opcode, flags, lba, len, rest);
            &&& block.len() >= 14
            &&& block[0] == opcode
            &&& crate::subclass::scsi::field32(block, 2) == (lba / 4294967296) as u32
            &&& crate::subclass::scsi::field32(block, 6) == (lba % 4294967296) as u32
            &&& crate::subclass::scsi::field32(block, 10) == len
        }),
{
    let block = block16(opcode, flags, lba, len, rest);
    let hi = bytes4((lba / 4294967296) as u32);
    let lo = bytes4((lba % 4294967296) as u32);
    let n = bytes4(len);
    assert(block[2] == hi[0] && block[3] == hi[1] && block[4] == hi[2] && block[5] == hi[3]);
    assert(block[6] == lo[0] && block[7] == lo[1] && block[8] == lo[2] && block[9] == lo[3]);
    assert(block[10] == n[0] && block[11] == n[1] && block[12] == n[2] && block[13] == n[3]);
    bytes4_make_the_number((lba / 4294967296) as u32);
    bytes4_make_the_number((lba % 4294967296) as u32);
    bytes4_make_the_number(len);
}

/// INQUIRY decodes to the EVPD bit, the page code and the allocation length that it was
/// made of; `flags` are the other bits of its second byte.
pub proof fn inquiry_decodes_back(
    evpd: bool,
    flags: u8,
    page_code: u8,
    alloc_len: u16,
    rest: Seq<u8>,
)
    requires
        flags < 128,
    ensures
        ({
            let second = (2 * flags + if evpd {
                1int
            } else {
                0
            }) as u8;
            let block = seq![0x12u8, second, page_code] + bytes2(alloc_len) + rest;
            crate::subclass::scsi::decoded(block) == (ScsiCommand::Inquiry {
                evpd,
                page_code,
                alloc_len,
            })
        }),
{
}

/// REQUEST SENSE decodes to the DESC bit and the allocation length that it was made of.
pub proof fn request_sense_decodes_back(
    desc: bool,
    flags: u8,
    third: u8,
    fourth: u8,
    alloc_len: u8,
    rest: Seq<u8>,
)
    requires
        flags < 128,
    ensures
        ({
            let second = (2 * flags + if desc {
                1int
            } else {
                0
            }) as u8;
            let block = seq![0x03u8, second, third, fourth, alloc_len] + rest;
            crate::subclass::scsi::decoded(block) == (ScsiCommand::RequestSense { desc, alloc_len })
        }),
{
}

/// The two-bit code of a page control
pub open spec fn code_of(page_control: PageControl) -> u8 {
    match page_control {
        PageControl::CurrentValues => 0,
        PageControl::ChangeableValues => 1,
        PageControl::DefaultValues => 2,
        PageControl::SavedValues => 3,
    }
}

/// A page control decodes from its code; a code above 3 means the current values.
pub proof fn page_control_decodes_back(page_control: PageControl, code: u8)
    ensures
        PageControl::of_code(code_of(page_control)) == page_control,
        code > 3 ==> PageControl::of_code(code) == PageControl::CurrentValues,
{
}

/// MODE SENSE(6) and MODE SENSE(10) decode to the DBD bit, the page control, the page
/// code, the subpage code and the allocation length that they were made of; `upper` and
/// `lower` are the other bits of the second byte.
pub proof fn mode_sense_decodes_back(
    dbd: bool,
    upper: u8,
    lower: u8,
    page_control: PageControl,
    page_code: u8,
    subpage_code: u8,
    alloc_len_6: u8,
    alloc_len_10: u16,
    fifth: u8,
    sixth: u8,
    seventh: u8,
    rest: Seq<u8>,
)
    requires
        upper < 16,
        lower < 8,
        page_code < 64,
    ensures
        ({
            let second = (16 * upper + lower + if dbd {
                8int
            } else {
                0
            }) as u8;
            let third = (64 * code_of(page_control) + page_code) as u8;
            let six = seq![0x1Au8, second, third, subpage_code, alloc_len_6] + rest;
            let ten = seq![0x5Au8, second, third, subpage_code, fifth, sixth, seventh] + bytes2(
                alloc_len_10,
            ) + rest;
            &&& crate::subclass::scsi::decoded(six) == (ScsiCommand::ModeSense6 {
                dbd,
                page_control,
                page_code,
                subpage_code,
                alloc_len: alloc_len_6,
            })
            &&& crate::subclass::scsi::decoded(ten) == (ScsiCommand::ModeSense10 {
                dbd,
                page_control,
                page_code,
                subpage_code,
                alloc_len: alloc_len_10,
            })
        }),
{
    let n = bytes2(alloc_len_10);
    let second = (16 * upper + lower + if dbd {
        8int
    } else {
        0
    }) as u8;
    let third = (64 * code_of(page_control) + page_code) as u8;
    assert(third / 64 == code_of(page_control) && third % 64 == page_code);
    assert(second / 8 % 2 == if dbd {
        1int
    } else {
        0
    });
    let ten = seq![0x5Au8, second, third, subpage_code, fifth, sixth, seventh] + n + rest;
    assert(ten[7] == n[0] && ten[8] == n[1]);
}

/// READ CAPACITY(16) and READ FORMAT CAPACITIES decode to the allocation length that
/// they were made of; `middle` is what stands before it.
pub proof fn capacities_decode_back(
    middle_16: Seq<u8>,
    alloc_len_16: u32,
    middle: Seq<u8>,
    alloc_len: u16,
    rest: Seq<u8>,
)
    requires
        middle_16.len() == 9,
        middle.len() == 6,
    ensures
        crate::subclass::scsi::decoded(seq![0x9Eu8] + middle_16 + bytes4(alloc_len_16) + rest) == (
        ScsiCommand::ReadCapacity16 { alloc_len: alloc_len_16 }),
        crate::subclass::scsi::decoded(seq![0x23u8] + middle + bytes2(alloc_len) + rest) == (
        ScsiCommand::ReadFormatCapacities { alloc_len }),
{
    let n = bytes4(alloc_len_16);
    let long = seq![0x9Eu8] + middle_16 + n + rest;
    assert(long[10] == n[0] && long[11] == n[1] && long[12] == n[2] && long[13] == n[3]);
    let k = bytes2(alloc_len);
    let short = seq![0x23u8] + middle + k + rest;
    assert(short[7] == k[0] && short[8] == k[1]);
}

/// TEST UNIT READY and READ CAPACITY(10) decode from their operation codes alone.
pub proof fn commands_without_operands_decode_back(rest: Seq<u8>)
    ensures
        crate::subclass::scsi::decoded(seq![0x00u8] + rest) == ScsiCommand::TestUnitReady,
        crate::subclass::scsi::decoded(seq![0x25u8] + rest) == ScsiCommand::ReadCapacity10,
{
}

/// Which blocks decode to a command: those of the twelve operation codes that are long
/// enough for their operands. Any other block decodes to its operation code.
pub proof fn other_blocks_are_unknown(cb: Seq<u8>)
    requires
        cb.len() > 0,
    ensures
        ({
            let op = cb[0];
            let supported = {
                ||| op == 0x00 || op == 0x25
                ||| (op == 0x12 || op == 0x03 || op == 0x1A) && cb.len() >= 5
                ||| (op == 0x28 || op == 0x2A || op == 0x5A || op == 0x23) && cb.len() >= 9
                ||| (op == 0x9E || op == 0x88 || op == 0x8A) && cb.len() >= 14
            };
            &&& supported ==> !(crate::subclass::scsi::decoded(cb) is Unknown)
            &&& !supported ==> crate::subclass::scsi::decoded(cb) == (ScsiCommand::Unknown {
                cmd: op,
            })
        }),
{
}

/// The command block of a Command IU is decoded whole: an IU that carries a READ(16) or
/// a WRITE(16), padded to 16 bytes, is one for the block address and the block count
/// that the host put into it.
pub proof fn command_iu_carries_the_whole_block(
    tag: u16,
    prio_attr: u8,
    lun_field: Seq<u8>,
    reserved: Seq<u8>,
    rest: Seq<u8>,
    flags: u8,
    lba: u64,
    len: u32,
    padding: Seq<u8>,
    iu: CommandIu,
)
    requires
        lun_field.len() == 8,
        padding.len() == 2,
    ensures
        crate::transport::uas::is_command_iu(
            crate::transport::packets::command_packet(
                tag,
                prio_attr,
                lun_field,
                block16(0x88, flags, lba, len, padding),
                reserved,
                rest,
            ),
            iu,
        ) ==> crate::subclass::scsi::decoded(iu.cdb@) == (ScsiCommand::Read { lba, len }),
        crate::transport::uas::is_command_iu(
            crate::transport::packets::command_packet(
                tag,
                prio_attr,
                lun_field,
                block16(0x8A, flags, lba, len, padding),
                reserved,
                rest,
            ),
            iu,
        ) ==> crate::subclass::scsi::decoded(iu.cdb@) == (ScsiCommand::Write { lba, len }),
{
    let task = crate::transport::uas::TaskMgmtIu { tag, function: 0, task_tag: 0 };
    crate::transport::packets::command_iu_parses_back(
        tag,
        prio_attr,
        lun_field,
        block16(0x88, flags, lba, len, padding),
        reserved,
        rest,
        iu,
        task,
    );
    crate::transport::packets::command_iu_parses_back(
        tag,
        prio_attr,
        lun_field,
        block16(0x8A, flags, lba, len, padding),
        reserved,
        rest,
        iu,
        task,
    );
    read_and_write_16_decode_back(flags, lba, len, padding);
}

} // verus!

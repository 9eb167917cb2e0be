//! The UAS information units seen from the host: what it puts into one comes out of
//! the parser, and what the device builds is read back byte by byte

use crate::transport::uas::{CommandIu, IuParseError, TaskMgmtIu};
use vstd::prelude::*;

verus! {

/// The number that two bytes make, most significant first
pub open spec fn number16(hi: u8, lo: u8) -> int {
    256 * hi + lo
}

/// A Command IU as a host writes it: the fields that the device reads, with `reserved`
/// in the four places between them and `rest` behind the command block
pub open spec fn command_packet(
    tag: u16,
    prio_attr: u8,
    lun_field: Seq<u8>,
    cdb: Seq<u8>,
    reserved: Seq<u8>,
    rest: Seq<u8>,
) -> Seq<u8> {
    seq![
        0x01u8,
        reserved[0],
        (tag / 256) as u8,
        (tag % 256) as u8,
        prio_attr,
        reserved[1],
        reserved[2],
        reserved[3],
    ] + lun_field + cdb + rest
}

/// A Task Management IU as a host writes it
pub open spec fn task_mgmt_packet(
    tag: u16,
    function: u8,
    task_tag: u16,
    reserved: Seq<u8>,
    rest: Seq<u8>,
) -> Seq<u8> {
    seq![
        0x05u8,
        reserved[0],
        (tag / 256) as u8,
        (tag % 256) as u8,
        function,
        reserved[1],
        (task_tag / 256) as u8,
        (task_tag % 256) as u8,
    ] + rest
}

/// A Command IU parses to what the host put into it: its tag, its task attribute, the
/// first byte of its LUN field and all 16 bytes of its command block. It gives no
/// error, and it is nothing else.
pub proof fn command_iu_parses_back(
    tag: u16,
    prio_attr: u8,
    lun_field: Seq<u8>,
    cdb: Seq<u8>,
    reserved: Seq<u8>,
    rest: Seq<u8>,
    iu: CommandIu,
    other: TaskMgmtIu,
)
    requires
        lun_field.len() == 8,
        cdb.len() == 16,
    ensures
        ({
            let raw = command_packet(tag, prio_attr, lun_field, cdb, reserved, rest);
            &&& crate::transport::uas::iu_error(raw) is None
            &&& !crate::transport::uas::is_task_mgmt_iu(raw, other)
            &&& crate::transport::uas::is_command_iu(raw, iu) <==> {
                &&& iu.tag == tag
                &&& iu.prio_attr == prio_attr
                &&& iu.lun == lun_field[0]
                &&& iu.cdb@ == cdb
            }
        }),
{
    let raw = command_packet(tag, prio_attr, lun_field, cdb, reserved, rest);
    assert(raw.len() >= 32);
    assert(raw.subrange(16, 32) =~= cdb);
    assert(raw[2] == (tag / 256) as u8 && raw[3] == (tag % 256) as u8);
    assert(number16((tag / 256) as u8, (tag % 256) as u8) == tag);
    assert(raw[8] == lun_field[0]);
}

/// A Task Management IU parses to the tag, the function and the task tag that the host
/// put into it. It gives no error, and it is nothing else.
pub proof fn task_mgmt_iu_parses_back(
    tag: u16,
    function: u8,
    task_tag: u16,
    reserved: Seq<u8>,
    rest: Seq<u8>,
    iu: TaskMgmtIu,
    other: CommandIu,
)
    requires
        rest.len() >= 8,
    ensures
        ({
            let raw = task_mgmt_packet(tag, function, task_tag, reserved, rest);
            &&& crate::transport::uas::iu_error(raw) is None
            &&& !crate::transport::uas::is_command_iu(raw, other)
            &&& crate::transport::uas::is_task_mgmt_iu(raw, iu) <==> {
                &&& iu.tag == tag
                &&& iu.function == function
                &&& iu.task_tag == task_tag
            }
        }),
{
    assert(number16((tag / 256) as u8, (tag % 256) as u8) == tag);
    assert(number16((task_tag / 256) as u8, (task_tag % 256) as u8) == task_tag);
}

/// A packet that parses holds, at their places, the fields that it parses to.
pub proof fn parsed_ius_are_in_the_packet(raw: Seq<u8>, command: CommandIu, task: TaskMgmtIu)
    ensures
        crate::transport::uas::is_command_iu(raw, command) <==> {
            &&& raw.len() >= 32
            &&& raw[0] == 1
            &&& command.tag == number16(raw[2], raw[3])
            &&& command.prio_attr == raw[4]
            &&& command.lun == raw[8]
            &&& forall|i: int| 0 <= i < 16 ==> command.cdb@[i] == raw[16 + i]
        },
        crate::transport::uas::is_task_mgmt_iu(raw, task) <==> {
            &&& raw.len() >= 16
            &&& raw[0] == 5
            &&& task.tag == number16(raw[2], raw[3])
            &&& task.function == raw[4]
            &&& task.task_tag == number16(raw[6], raw[7])
        },
{
    if raw.len() >= 32 {
        assert(forall|i: int| 0 <= i < 16 ==> raw.subrange(16, 32)[i] == raw[16 + i]);
        if forall|i: int| 0 <= i < 16 ==> command.cdb@[i] == raw[16 + i] {
            assert(command.cdb@ =~= raw.subrange(16, 32));
        }
    }
}

/// Which packets give an error, and which one: a Command IU below 32 bytes and a Task
/// Management IU below 16 are too short, and any other first byte is unknown. An empty
/// packet counts as one with the first byte 0.
pub proof fn packets_that_do_not_parse(raw: Seq<u8>)
    requires
        raw.len() <= usize::MAX,
    ensures
        ({
            let error = crate::transport::uas::iu_error(raw);
            &&& raw.len() == 0 ==> error == Some(IuParseError::UnknownIuId { id: 0 })
            &&& raw.len() > 0 && raw[0] != 1 && raw[0] != 5 ==> error == Some(
                IuParseError::UnknownIuId { id: raw[0] },
            )
            &&& raw.len() > 0 && raw[0] == 1 && raw.len() < 32 ==> error == Some(
                IuParseError::TooShort { expected: 32, actual: raw.len() as usize },
            )
            &&& raw.len() > 0 && raw[0] == 5 && raw.len() < 16 ==> error == Some(
                IuParseError::TooShort { expected: 16, actual: raw.len() as usize },
            )
            &&& raw.len() >= 32 && raw[0] == 1 ==> error is None
            &&& raw.len() >= 16 && raw[0] == 5 ==> error is None
        }),
{
}

/// A Read Ready and a Write Ready IU, byte by byte.
pub proof fn ready_iu_on_the_wire(read: bool, tag: u16)
    ensures
        ({
            let iu = crate::transport::uas::ready_iu(read, tag);
            &&& iu.len() == 4
            &&& read ==> iu[0] == 6
            &&& !read ==> iu[0] == 7
            &&& iu[1] == 0
            &&& number16(iu[2], iu[3]) == tag
        }),
{
}

/// A Response IU, byte by byte.
pub proof fn response_iu_on_the_wire(tag: u16, response_code: u8)
    ensures
        ({
            let iu = crate::transport::uas::response_iu(tag, response_code);
            &&& iu.len() == 8
            &&& iu[0] == 4 && iu[1] == 0
            &&& number16(iu[2], iu[3]) == tag
            &&& iu[4] == 0 && iu[5] == 0 && iu[6] == 0
            &&& iu[7] == response_code
        }),
{
}

/// A Status IU, byte by byte: behind its 16 bytes come the first 18 bytes of the sense
/// data, or all of it if there is less, and bytes 14 and 15 say how much that is.
pub proof fn status_iu_on_the_wire(tag: u16, status: u8, sense: Seq<u8>)
    ensures
        ({
            let iu = crate::transport::uas::status_iu(tag, status, sense);
            let n: nat = if sense.len() <= 18 {
                sense.len()
            } else {
                18
            };
            &&& crate::transport::uas::carried_sense_len(sense) == n
            &&& iu.len() == 16 + n
            &&& iu[0] == 3 && iu[1] == 0
            &&& number16(iu[2], iu[3]) == tag
            &&& iu[4] == 0 && iu[5] == 0
            &&& iu[6] == status
            &&& forall|i: int| 7 <= i < 14 ==> iu[i] == 0
            &&& number16(iu[14], iu[15]) == n
            &&& forall|i: int| 0 <= i < n ==> iu[16 + i] == sense[i]
        }),
{
    let iu = crate::transport::uas::status_iu(tag, status, sense);
    let tag_bytes = crate::endian::be16_bytes(tag);
    assert(iu[2] == tag_bytes[0] && iu[3] == tag_bytes[1]);
    let n = crate::transport::uas::carried_sense_len(sense);
    let len_bytes = crate::endian::be16_bytes(n as u16);
    assert(iu[14] == len_bytes[0] && iu[15] == len_bytes[1]);
    assert(forall|i: int| 7 <= i < 14 ==> iu[i] == 0);
}

/// The errors in words: the lengths in decimal, the first byte in hexadecimal.
pub proof fn parse_errors_in_words(expected: usize, actual: usize, id: u8)
    ensures
        (IuParseError::TooShort { expected, actual }).text() == "IU too short: expected "@
            + crate::text::decimal(expected as nat) + " bytes, got "@ + crate::text::decimal(
            actual as nat,
        ),
        (IuParseError::UnknownIuId { id }).text() == "unknown IU ID: "@ + crate::text::hex_byte(id),
{
}

} // verus!

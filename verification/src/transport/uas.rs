//! UAS (USB Attached SCSI) information units and the table of tagged commands
//!
//! * The codec ([`parse_iu`], [`build_ready_iu`], [`build_status_iu`],
//!   [`build_response_iu`], [`fixed_sense`]) covers the information units (IUs)
//!   of the command and status pipes. It accepts every input.
//! * [`TagTable`] is a FIFO of the commands in flight.
//!
//! At High Speed the host counts a command as complete only when a Status IU
//! for its tag arrives, after the Read Ready or Write Ready IU that let the
//! data phase start.

use crate::endian::{u16_from_be, u16_to_be};
use crate::subclass::scsi::{parse_cb, ScsiCommand};
use crate::text::{push_decimal, push_hex_byte};
use vstd::prelude::*;
use vstd::string::*;

pub use crate::transport::tags::{InsertError, TagSlot, TagTable};

verus! {

/// UAS interface protocol code
pub const TRANSPORT_UAS: u8 = 0x62;

/// Host-side queue depth at High Speed; tags are `1..=UAS_QDEPTH`
pub const UAS_QDEPTH: usize = 32;

/// IU ID of a Command IU (host to device, command pipe)
pub const IU_ID_COMMAND: u8 = 0x01;

/// IU ID of a Status IU (device to host, status pipe)
pub const IU_ID_STATUS: u8 = 0x03;

/// IU ID of a Response IU (device to host, status pipe)
pub const IU_ID_RESPONSE: u8 = 0x04;

/// IU ID of a Task Management IU (host to device, command pipe)
pub const IU_ID_TASK_MGMT: u8 = 0x05;

/// IU ID of a Read Ready IU (device to host, status pipe)
pub const IU_ID_READ_READY: u8 = 0x06;

/// IU ID of a Write Ready IU (device to host, status pipe)
pub const IU_ID_WRITE_READY: u8 = 0x07;

/// Size of a Command IU with a command block of at most 16 bytes
pub const COMMAND_IU_LEN: usize = 32;

/// Size of a Task Management IU
pub const TASK_MGMT_IU_LEN: usize = 16;

/// Size of a Status IU without sense data
pub const STATUS_IU_HDR_LEN: usize = 16;

/// Size of a Response IU
pub const RESPONSE_IU_LEN: usize = 8;

/// Size of a Read Ready or Write Ready IU
pub const READY_IU_LEN: usize = 4;

/// Size of fixed-format sense data; a Status IU carries at most this much
pub const FIXED_SENSE_LEN: usize = 18;

/// Size of a Status IU with full sense data
pub const STATUS_IU_MAX_LEN: usize = 34;

/// Response code: task management function not supported
pub const RC_TMF_NOT_SUPPORTED: u8 = 0x04;

/// Response code: incorrect LUN addressed
pub const RC_INCORRECT_LUN: u8 = 0x09;

/// Response code: overlapped tag attempted
pub const RC_OVERLAPPED_TAG: u8 = 0x0a;

/// A parsed Command IU
///
/// A LUN that the device does not have is no parse error: the caller answers it
/// with a Response IU carrying [`RC_INCORRECT_LUN`].
#[derive(Debug)]
pub struct CommandIu {
    /// Tag
    pub tag: u16,
    /// Task attribute field
    pub prio_attr: u8,
    /// Logical Unit Number: the first byte of the LUN field
    pub lun: u8,
    /// Command block, padded with zeros to 16 bytes
    pub cdb: [u8; 16],
}

impl CommandIu {
    /// Decodes the command block that this IU carries
    pub fn parse_kind(&self) -> (kind: ScsiCommand)
        ensures
            kind == crate::subclass::scsi::decoded(self.cdb@),
    {
        parse_cb(self.cdb.as_slice())
    }
}

/// A parsed Task Management IU
#[derive(Debug)]
pub struct TaskMgmtIu {
    /// Tag of the request itself
    pub tag: u16,
    /// Function code
    pub function: u8,
    /// Tag of the task being managed
    pub task_tag: u16,
}

/// What came over the command pipe
#[derive(Debug)]
pub enum IuParse {
    Command(CommandIu),
    TaskMgmt(TaskMgmtIu),
}

/// Why a command-pipe packet could not be parsed as an IU
#[derive(Copy, Clone, Debug, PartialEq, Eq, Structural)]
pub enum IuParseError {
    /// The packet is shorter than the fixed size of its IU type
    TooShort { expected: usize, actual: usize },
    /// Byte 0 is not an IU ID of the command pipe
    UnknownIuId { id: u8 },
}

impl IuParseError {
    /// The text of [`IuParseError::message`]
    pub open spec fn text(self) -> Seq<char> {
        match self {
            IuParseError::TooShort { expected, actual } => "IU too short: expected "@
                + crate::text::decimal(expected as nat) + " bytes, got "@
                + crate::text::decimal(actual as nat),
            IuParseError::UnknownIuId { id } => "unknown IU ID: "@ + crate::text::hex_byte(id),
        }
    }

    /// The error in words
    pub fn message(&self) -> (s: String)
        ensures
            s@ == self.text(),
    {
        let mut out = String::new();
        match *self {
            IuParseError::TooShort { expected, actual } => {
                out.append("IU too short: expected ");
                push_decimal(&mut out, expected);
                out.append(" bytes, got ");
                push_decimal(&mut out, actual);
            },
            IuParseError::UnknownIuId { id } => {
                out.append("unknown IU ID: ");
                push_hex_byte(&mut out, id);
            },
        }
        assert(out@ =~= self.text());
        out
    }
}

/// The first byte of a packet; an empty packet counts as ID 0
pub open spec fn iu_id(raw: Seq<u8>) -> u8 {
    if raw.len() > 0 {
        raw[0]
    } else {
        0
    }
}

/// Whether `raw` parses as the Command IU `iu`
pub open spec fn is_command_iu(raw: Seq<u8>, iu: CommandIu) -> bool {
    &&& iu_id(raw) == IU_ID_COMMAND
    &&& raw.len() >= COMMAND_IU_LEN
    &&& iu.tag == crate::endian::be16(raw[2], raw[3])
    &&& iu.prio_attr == raw[4]
    &&& iu.lun == raw[8]
    &&& iu.cdb@ == raw.subrange(16, 32)
}

/// Whether `raw` parses as the Task Management IU `iu`
pub open spec fn is_task_mgmt_iu(raw: Seq<u8>, iu: TaskMgmtIu) -> bool {
    &&& iu_id(raw) == IU_ID_TASK_MGMT
    &&& raw.len() >= TASK_MGMT_IU_LEN
    &&& iu.tag == crate::endian::be16(raw[2], raw[3])
    &&& iu.function == raw[4]
    &&& iu.task_tag == crate::endian::be16(raw[6], raw[7])
}

/// The error that the packet `raw` gives, if it gives one
pub open spec fn iu_error(raw: Seq<u8>) -> Option<IuParseError> {
    let id = iu_id(raw);
    if id == IU_ID_COMMAND {
        if raw.len() < COMMAND_IU_LEN {
            Some(IuParseError::TooShort { expected: COMMAND_IU_LEN, actual: raw.len() as usize })
        } else {
            None
        }
    } else if id == IU_ID_TASK_MGMT {
        if raw.len() < TASK_MGMT_IU_LEN {
            Some(IuParseError::TooShort { expected: TASK_MGMT_IU_LEN, actual: raw.len() as usize })
        } else {
            None
        }
    } else {
        Some(IuParseError::UnknownIuId { id })
    }
}

/// Parses a packet received on the command pipe
///
/// # Errors
///
/// * [`IuParseError::TooShort`] if the packet is shorter than its IU type
/// * [`IuParseError::UnknownIuId`] if byte 0 is neither a Command nor a Task Management ID
pub fn parse_iu(raw: &[u8]) -> (r: Result<IuParse, IuParseError>)
    ensures
        match r {
            Ok(IuParse::Command(iu)) => is_command_iu(raw@, iu),
            Ok(IuParse::TaskMgmt(iu)) => is_task_mgmt_iu(raw@, iu),
            Err(e) => iu_error(raw@) == Some(e),
        },
        r is Ok <==> iu_error(raw@) is None,
{
    let len: usize = raw.len();
    let id: u8 = if len > 0 {
        raw[0]
    } else {
        0
    };
    if id == IU_ID_COMMAND {
        if len < COMMAND_IU_LEN {
            return Err(IuParseError::TooShort { expected: COMMAND_IU_LEN, actual: len });
        }
        let cdb: [u8; 16] = [
            raw[16],
            raw[17],
            raw[18],
            raw[19],
            raw[20],
            raw[21],
            raw[22],
            raw[23],
            raw[24],
            raw[25],
            raw[26],
            raw[27],
            raw[28],
            raw[29],
            raw[30],
            raw[31],
        ];
        assert(cdb@ =~= raw@.subrange(16, 32));
        Ok(
            IuParse::Command(
                CommandIu {
                    tag: u16_from_be(raw[2], raw[3]),
                    prio_attr: raw[4],
                    lun: raw[8],
                    cdb,
                },
            ),
        )
    } else if id == IU_ID_TASK_MGMT {
        if len < TASK_MGMT_IU_LEN {
            return Err(IuParseError::TooShort { expected: TASK_MGMT_IU_LEN, actual: len });
        }
        Ok(
            IuParse::TaskMgmt(
                TaskMgmtIu {
                    tag: u16_from_be(raw[2], raw[3]),
                    function: raw[4],
                    task_tag: u16_from_be(raw[6], raw[7]),
                },
            ),
        )
    } else {
        Err(IuParseError::UnknownIuId { id })
    }
}

/// The Read Ready or Write Ready IU for `tag`
pub open spec fn ready_iu(read: bool, tag: u16) -> Seq<u8> {
    seq![
        if read {
            IU_ID_READ_READY
        } else {
            IU_ID_WRITE_READY
        },
        0u8,
    ] + crate::endian::be16_bytes(tag)
}

/// Builds the Read Ready (`read`) or Write Ready IU that lets the data phase of
/// `tag` start
pub fn build_ready_iu(read: bool, tag: u16) -> (iu: [u8; READY_IU_LEN])
    ensures
        iu@ == ready_iu(read, tag),
{
    let id: u8 = if read {
        IU_ID_READ_READY
    } else {
        IU_ID_WRITE_READY
    };
    let tag_bytes = u16_to_be(tag);
    let iu: [u8; READY_IU_LEN] = [id, 0x00, tag_bytes[0], tag_bytes[1]];
    assert(iu@ =~= ready_iu(read, tag));
    iu
}

/// How many bytes of `sense` a Status IU carries
pub open spec fn carried_sense_len(sense: Seq<u8>) -> nat {
    if sense.len() <= FIXED_SENSE_LEN {
        sense.len()
    } else {
        FIXED_SENSE_LEN as nat
    }
}

/// The 16-byte header of the Status IU for `tag` that carries `n` bytes of sense data
pub open spec fn status_iu_header(tag: u16, status: u8, n: nat) -> Seq<u8> {
    seq![IU_ID_STATUS, 0u8] + crate::endian::be16_bytes(tag) + seq![
        0u8,
        0u8,
        status,
        0u8,
        0u8,
        0u8,
        0u8,
        0u8,
        0u8,
        0u8,
    ] + crate::endian::be16_bytes(n as u16)
}

/// The Status IU for `tag` as it goes on the wire: the header and the sense
/// data that it carries
pub open spec fn status_iu(tag: u16, status: u8, sense: Seq<u8>) -> Seq<u8> {
    let n = carried_sense_len(sense);
    status_iu_header(tag, status, n) + sense.take(n as int)
}

/// Builds a Status IU, with or without sense data
///
/// The second result is the number of bytes to send: the header alone for empty
/// sense data, else the header and at most [`FIXED_SENSE_LEN`] bytes of it. The
/// rest of the buffer is zero.
///
/// | Offset | Size | Field |
/// |--------|------|-------|
/// | 0 | 1 | [`IU_ID_STATUS`] |
/// | 2 | 2 | tag (be16) |
/// | 4 | 2 | status qualifier (0) |
/// | 6 | 1 | SCSI status |
/// | 14 | 2 | sense length (be16) |
/// | 16 | n | sense data |
pub fn build_status_iu(tag: u16, status: u8, sense: &[u8]) -> (r: (
    [u8; STATUS_IU_MAX_LEN],
    usize,
))
    ensures
        r.1 == STATUS_IU_HDR_LEN + carried_sense_len(sense@),
        r.0@.take(r.1 as int) == status_iu(tag, status, sense@),
        forall|i: int| r.1 <= i < STATUS_IU_MAX_LEN ==> r.0@[i] == 0,
{
    let mut buf: [u8; STATUS_IU_MAX_LEN] = [0u8; STATUS_IU_MAX_LEN];
    buf[0] = IU_ID_STATUS;
    let tag_bytes = u16_to_be(tag);
    buf[2] = tag_bytes[0];
    buf[3] = tag_bytes[1];
    buf[6] = status;
    let n: usize = if sense.len() <= FIXED_SENSE_LEN {
        sense.len()
    } else {
        FIXED_SENSE_LEN
    };
    let len_bytes = u16_to_be(n as u16);
    buf[14] = len_bytes[0];
    buf[15] = len_bytes[1];
    let ghost header = status_iu_header(tag, status, n as nat);
    assert(buf@.take(16) =~= header);
    assert(forall|j: int| 0 <= j < 16 ==> buf@[j] == buf@.take(16)[j]);
    let mut i: usize = 0;
    while i < n
        invariant
            i <= n <= FIXED_SENSE_LEN,
            n <= sense@.len(),
            buf@.len() == STATUS_IU_MAX_LEN,
            header.len() == STATUS_IU_HDR_LEN,
            forall|j: int| 0 <= j < 16 ==> buf@[j] == header[j],
            forall|j: int| 16 <= j < 16 + i ==> buf@[j] == sense@[j - 16],
            forall|j: int| 16 + i <= j < STATUS_IU_MAX_LEN ==> buf@[j] == 0,
        decreases n - i,
    {
        buf[STATUS_IU_HDR_LEN + i] = sense[i];
        i = i + 1;
    }
    assert(buf@.take(16 + n) =~= status_iu(tag, status, sense@));
    (buf, STATUS_IU_HDR_LEN + n)
}

/// The Response IU for `tag`
pub open spec fn response_iu(tag: u16, response_code: u8) -> Seq<u8> {
    seq![IU_ID_RESPONSE, 0u8] + crate::endian::be16_bytes(tag) + seq![0u8, 0u8, 0u8, response_code]
}

/// Builds a Response IU, the answer to a Task Management IU or to a protocol
/// error such as an incorrect LUN or an overlapped tag
pub fn build_response_iu(tag: u16, response_code: u8) -> (iu: [u8; RESPONSE_IU_LEN])
    ensures
        iu@ == response_iu(tag, response_code),
{
    let tag_bytes = u16_to_be(tag);
    let iu: [u8; RESPONSE_IU_LEN] = [
        IU_ID_RESPONSE,
        0x00,
        tag_bytes[0],
        tag_bytes[1],
        0x00,
        0x00,
        0x00,
        response_code,
    ];
    assert(iu@ =~= response_iu(tag, response_code));
    iu
}

/// Builds fixed-format sense data for a current error
///
/// | Byte | Value |
/// |------|-------|
/// | 0 | 0x70 |
/// | 2 | sense key (bits 3..0) |
/// | 7 | additional sense length = 10 |
/// | 12 | ASC |
/// | 13 | ASCQ |
///
/// All other bytes are zero.
pub fn fixed_sense(key: u8, asc: u8, ascq: u8) -> (sense: [u8; FIXED_SENSE_LEN])
    ensures
        sense@ == seq![
            0x70u8,
            0,
            key % 16,
            0,
            0,
            0,
            0,
            10,
            0,
            0,
            0,
            0,
            asc,
            ascq,
            0,
            0,
            0,
            0,
        ],
{
    let mut sense: [u8; FIXED_SENSE_LEN] = [0u8; FIXED_SENSE_LEN];
    sense[0] = 0x70;
    sense[2] = key % 16;
    sense[7] = 10;
    sense[12] = asc;
    sense[13] = ascq;
    sense
}

/// The host reads from a Status IU the tag and status of the command, the length of
/// the sense data and the sense data. Without sense data it is exactly 16 bytes; it
/// is never more than 34.
pub proof fn status_iu_carries_its_fields(tag: u16, status: u8, sense: Seq<u8>)
    ensures
        ({
            let iu = status_iu(tag, status, sense);
            let n = carried_sense_len(sense);
            &&& iu.len() == STATUS_IU_HDR_LEN + n
            &&& iu.len() <= STATUS_IU_MAX_LEN
            &&& iu.len() == STATUS_IU_HDR_LEN <==> sense.len() == 0
            &&& iu[0] == IU_ID_STATUS
            &&& crate::endian::be16(iu[2], iu[3]) == tag
            &&& iu[6] == status
            &&& crate::endian::be16(iu[14], iu[15]) == n
            &&& iu.skip(STATUS_IU_HDR_LEN as int) == sense.take(n as int)
        }),
{
    let n = carried_sense_len(sense);
    let iu = status_iu(tag, status, sense);
    crate::endian::be16_round_trip(tag);
    crate::endian::be16_round_trip(n as u16);
    assert(iu.skip(16) =~= sense.take(n as int));
}

/// The host reads the tag of the command from a Read Ready, a Write Ready and a
/// Response IU, and from the last one the response code.
pub proof fn ready_and_response_ius_carry_their_fields(read: bool, tag: u16, response_code: u8)
    ensures
        ({
            let ready = ready_iu(read, tag);
            let response = response_iu(tag, response_code);
            &&& ready.len() == READY_IU_LEN
            &&& ready[0] == if read {
                IU_ID_READ_READY
            } else {
                IU_ID_WRITE_READY
            }
            &&& crate::endian::be16(ready[2], ready[3]) == tag
            &&& response.len() == RESPONSE_IU_LEN
            &&& response[0] == IU_ID_RESPONSE
            &&& crate::endian::be16(response[2], response[3]) == tag
            &&& response[7] == response_code
        }),
{
    crate::endian::be16_round_trip(tag);
}

/// The tag bytes of a Command IU come back unchanged in every IU that answers it.
pub proof fn answers_carry_the_tag_of_the_command(
    raw: Seq<u8>,
    iu: CommandIu,
    read: bool,
    status: u8,
    sense: Seq<u8>,
    response_code: u8,
)
    requires
        is_command_iu(raw, iu),
    ensures
        ready_iu(read, iu.tag).subrange(2, 4) == raw.subrange(2, 4),
        status_iu(iu.tag, status, sense).subrange(2, 4) == raw.subrange(2, 4),
        response_iu(iu.tag, response_code).subrange(2, 4) == raw.subrange(2, 4),
{
    crate::endian::be16_bytes_round_trip(raw[2], raw[3]);
    let tag_bytes = seq![raw[2], raw[3]];
    assert(raw.subrange(2, 4) =~= tag_bytes);
    assert(ready_iu(read, iu.tag).subrange(2, 4) =~= tag_bytes);
    assert(status_iu(iu.tag, status, sense).subrange(2, 4) =~= tag_bytes);
    assert(response_iu(iu.tag, response_code).subrange(2, 4) =~= tag_bytes);
}

/// No packet means two things: it is never both a Command IU and a Task Management
/// IU, and a packet that is one of these gives no error.
pub proof fn every_packet_has_one_meaning(raw: Seq<u8>, command: CommandIu, task: TaskMgmtIu)
    ensures
        !(is_command_iu(raw, command) && is_task_mgmt_iu(raw, task)),
        is_command_iu(raw, command) || is_task_mgmt_iu(raw, task) ==> iu_error(raw) is None,
{
}

} // verus!

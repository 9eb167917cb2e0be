//! The Bulk Only Transport seen from outside: what goes over the wire, field by field
//! and byte by byte, for what the host sends and the user does
//!
//! The laws here speak of bytes, numbers and fields. They do not rest on how the state
//! machine is put together.

use crate::transfer::TransferBus;
use crate::transport::cbw::{CbwView, DataDirection};
use crate::transport::model::{
    BulkOnlyError, BulkOnlyTransportResult, BulkOnlyView, NextView, State, StepView, TransferCall,
};
use crate::transport::{CommandStatus, TransportError};
use crate::usb::{Effect, EndpointAddress, Recipient, Request, RequestType, UsbError};
use vstd::prelude::*;

verus! {

/// The number that four bytes make, least significant first
pub open spec fn number(b0: u8, b1: u8, b2: u8, b3: u8) -> int {
    b0 + 256 * b1 + 65536 * b2 + 16777216 * b3
}

/// What a host makes of a CSW: signature, tag, residue and status code
pub open spec fn reads_as_csw(csw: Seq<u8>, tag: u32, residue: u32, code: u8) -> bool {
    &&& csw.len() == 13
    &&& csw[0] == 0x55 && csw[1] == 0x53 && csw[2] == 0x42 && csw[3] == 0x53
    &&& number(csw[4], csw[5], csw[6], csw[7]) == tag
    &&& number(csw[8], csw[9], csw[10], csw[11]) == residue
    &&& csw[12] == code
}

/// Whether `part` is the first `n` bytes of `whole`, or all of it if there are fewer
pub open spec fn starts(part: Seq<u8>, whole: Seq<u8>, n: nat) -> bool {
    &&& part.len() == if n <= whole.len() {
        n
    } else {
        whole.len()
    }
    &&& forall|i: int| 0 <= i < part.len() ==> part[i] == whole[i]
}

/// Whether `step` ends an operation with `result` and does nothing else
pub open spec fn only_ends(step: StepView, result: BulkOnlyTransportResult<()>) -> bool {
    step.effects.len() == 0 && step.next == (NextView::Done { result })
}

/// Whether `step` offers the start of `bytes`, as much as fits a packet, and does
/// nothing else
pub open spec fn only_offers(step: StepView, bytes: Seq<u8>, packet_size: u16) -> bool {
    &&& step.effects.len() == 0
    &&& step.next is WritePacket
    &&& starts(step.next->packet, bytes, packet_size as nat)
}

/// Whether two states have the same configuration
pub open spec fn same_configuration(a: BulkOnlyView, b: BulkOnlyView) -> bool {
    &&& a.capacity == b.capacity
    &&& a.max_lun == b.max_lun
    &&& a.packet_size == b.packet_size
    &&& a.in_ep == b.in_ep
    &&& a.out_ep == b.out_ep
}

/// Whether `t` waits for a command and remembers nothing of an earlier one
pub open spec fn is_blank(t: BulkOnlyView) -> bool {
    &&& t.state == State::Idle
    &&& t.buffered.len() == 0
    &&& t.cbw.tag == 0 && t.cbw.data_transfer_len == 0 && t.cbw.lun == 0
    &&& t.cbw.direction == DataDirection::NotExpected
    &&& t.cbw.block.len() == 0
    &&& t.unread == 0
    &&& t.status is None
}

/// The start of a sequence is what its name says.
pub proof fn prefix_is_the_start(s: Seq<u8>, n: nat)
    ensures
        starts(crate::buffer::prefix(s, n), s, n),
{
}

/// The residue goes down by what was transferred, to zero at least.
pub proof fn residue_goes_down(residue: u32, n: nat)
    ensures
        n <= residue ==> crate::transport::model::residue_left(residue, n) + n == residue,
        n > residue ==> crate::transport::model::residue_left(residue, n) == 0,
{
}

/// The bytes of a CSW mean its tag, its residue and its status: 0 for passed, 1 for
/// failed, 2 for a phase error.
pub proof fn csw_reads_back(tag: u32, residue: u32)
    ensures
        reads_as_csw(
            crate::transport::cbw::csw_bytes(tag, residue, CommandStatus::Passed),
            tag,
            residue,
            0,
        ),
        reads_as_csw(
            crate::transport::cbw::csw_bytes(tag, residue, CommandStatus::Failed),
            tag,
            residue,
            1,
        ),
        reads_as_csw(
            crate::transport::cbw::csw_bytes(tag, residue, CommandStatus::PhaseError),
            tag,
            residue,
            2,
        ),
{
}

/// The states fall into those before, during and after the execution of a command.
pub proof fn states_by_kind(state: State)
    ensures
        state.is_waiting() <==> state == State::Idle || state == State::CommandTransfer,
        state.is_data() <==> state == State::DataTransferToHost || state
            == State::DataTransferFromHost || state == State::DataTransferNoData,
        state.is_status() <==> state == State::StatusTransfer || state
            == State::StatusTransferEpStall,
{
}

/// A new transport is blank, with the given configuration, and is refused for exactly
/// two reasons.
pub proof fn new_transport_is_blank(
    packet_size: u16,
    max_lun: u8,
    capacity: nat,
    in_ep: EndpointAddress,
    out_ep: EndpointAddress,
)
    ensures
        ({
            let t = BulkOnlyView::initial(packet_size, max_lun, capacity, in_ep, out_ep);
            &&& is_blank(t)
            &&& !t.transfer_in_flight && !t.transfer_phase
            &&& t.packet_size == packet_size && t.max_lun == max_lun && t.capacity == capacity
            &&& t.in_ep == in_ep && t.out_ep == out_ep
        }),
        ({
            let refused = crate::transport::bbb::BulkOnly::config_error(
                packet_size,
                max_lun,
                capacity,
            );
            &&& max_lun >= 16 <==> refused == Some(BulkOnlyError::InvalidMaxLun)
            &&& max_lun < 16 && (capacity < 31 || capacity < packet_size) <==> refused == Some(
                BulkOnlyError::BufferTooSmall,
            )
            &&& max_lun < 16 && capacity >= 31 && capacity >= packet_size <==> refused is None
        }),
{
}

/// A reset leaves a blank transport with its configuration and no transfer; so does the
/// end of a status phase, but for the transfers, which are over by then.
pub proof fn reset_transport_is_blank(m: BulkOnlyView)
    ensures
        is_blank(m.after_reset()),
        !m.after_reset().transfer_in_flight && !m.after_reset().transfer_phase,
        same_configuration(m.after_reset(), m),
        is_blank(m.idle()),
        same_configuration(m.idle(), m),
        m.idle().transfer_in_flight == m.transfer_in_flight,
        m.idle().transfer_phase == m.transfer_phase,
{
}

/// Whether 31 bytes are a CBW that the transport takes: signature and a command block
/// of 1 to 16 bytes
pub open spec fn is_cbw(raw: Seq<u8>) -> bool {
    &&& raw.len() == 31
    &&& raw[0] == 0x55 && raw[1] == 0x53 && raw[2] == 0x42 && raw[3] == 0x43
    &&& 1 <= raw[14] <= 16
}

/// Whether `cbw` has the fields that the bytes `raw` of a CBW carry
pub open spec fn has_fields_of(cbw: CbwView, raw: Seq<u8>) -> bool {
    let n = number(raw[8], raw[9], raw[10], raw[11]);
    &&& cbw.tag == number(raw[4], raw[5], raw[6], raw[7])
    &&& cbw.data_transfer_len == n
    &&& n == 0 ==> cbw.direction == DataDirection::NotExpected
    &&& n > 0 && raw[12] >= 128 ==> cbw.direction == DataDirection::In
    &&& n > 0 && raw[12] < 128 ==> cbw.direction == DataDirection::Out
    &&& cbw.lun == raw[13] % 16
    &&& cbw.block.len() == raw[14]
    &&& forall|i: int| 0 <= i < raw[14] ==> cbw.block[i] == raw[15 + i]
}

/// A CBW is taken exactly if it is one, and its fields are those on the wire.
pub proof fn cbw_fields_come_from_the_wire(raw: Seq<u8>)
    ensures
        crate::transport::cbw::parsed_cbw(raw) is Some <==> is_cbw(raw),
        is_cbw(raw) ==> has_fields_of(crate::transport::cbw::parsed_cbw(raw)->0, raw),
{
    let signature = crate::endian::le32_bytes(0x43425355);
    assert(signature =~= seq![0x55u8, 0x53u8, 0x42u8, 0x43u8]);
    if raw.len() == 31 {
        if raw[0] == 0x55 && raw[1] == 0x53 && raw[2] == 0x42 && raw[3] == 0x43 {
            assert(raw.take(4) =~= signature);
        } else {
            assert(raw.take(4)[0] == raw[0] && raw.take(4)[1] == raw[1] && raw.take(4)[2] == raw[2]
                && raw.take(4)[3] == raw[3]);
        }
        let body = raw.skip(4);
        assert forall|i: int| 0 <= i < 27 implies body[i] == raw[4 + i] by {}
    }
}

/// The same of the bytes behind the signature.
pub proof fn cbw_body_fields_come_from_the_wire(body: Seq<u8>)
    ensures
        crate::transport::cbw::parsed_body(body) is Some <==> body.len() == 27 && 1 <= body[10]
            <= 16,
        body.len() == 27 && 1 <= body[10] <= 16 ==> has_fields_of(
            crate::transport::cbw::parsed_body(body)->0,
            seq![0x55u8, 0x53u8, 0x42u8, 0x43u8] + body,
        ),
{
}

/// A wrapper is what its fields say; its command block is cut to its length.
pub proof fn wrapper_is_its_fields(cbw: crate::transport::cbw::CommandBlockWrapper)
    requires
        cbw.block_len <= 16,
    ensures
        cbw.wf(),
        cbw@.tag == cbw.tag,
        cbw@.data_transfer_len == cbw.data_transfer_len,
        cbw@.direction == cbw.direction,
        cbw@.lun == cbw.lun,
        cbw@.block.len() == cbw.block_len,
        forall|i: int| 0 <= i < cbw.block_len ==> cbw@.block[i] == cbw.block@[i],
{
}

/// The bytes of a CBW with given fields are those on the wire.
pub proof fn cbw_bytes_on_the_wire(
    tag: u32,
    n: u32,
    flags: u8,
    lun: u8,
    block: Seq<u8>,
    padding: Seq<u8>,
)
    requires
        1 <= block.len() <= 16,
        block.len() + padding.len() == 16,
    ensures
        ({
            let raw = crate::transport::cbw::cbw_bytes(tag, n, flags, lun, block, padding);
            &&& is_cbw(raw)
            &&& number(raw[4], raw[5], raw[6], raw[7]) == tag
            &&& number(raw[8], raw[9], raw[10], raw[11]) == n
            &&& raw[12] == flags && raw[13] == lun && raw[14] == block.len()
            &&& forall|i: int| 0 <= i < block.len() ==> raw[15 + i] == block[i]
        }),
{
    let raw = crate::transport::cbw::cbw_bytes(tag, n, flags, lun, block, padding);
    let signature = crate::endian::le32_bytes(0x43425355);
    assert(signature =~= seq![0x55u8, 0x53u8, 0x42u8, 0x43u8]);
    let tag_bytes = crate::endian::le32_bytes(tag);
    let len_bytes = crate::endian::le32_bytes(n);
    assert(raw.len() == 31);
    assert(raw[0] == signature[0] && raw[1] == signature[1] && raw[2] == signature[2] && raw[3]
        == signature[3]);
    assert(raw[4] == tag_bytes[0] && raw[5] == tag_bytes[1] && raw[6] == tag_bytes[2] && raw[7]
        == tag_bytes[3]);
    assert(raw[8] == len_bytes[0] && raw[9] == len_bytes[1] && raw[10] == len_bytes[2] && raw[11]
        == len_bytes[3]);
}

/// The packet that completes a CBW starts its data phase: to the host or from it, as
/// announced, with every field of the CBW as it came over the wire. Bytes behind the
/// CBW stay in the buffer.
pub proof fn cbw_starts_its_data_phase(m: BulkOnlyView, packet: Seq<u8>)
    requires
        m.state == State::Idle || m.state == State::CommandTransfer,
        packet.len() > 0,
        m.buffered.len() + packet.len() >= 31,
        is_cbw((m.buffered + packet).take(31)),
    ensures
        ({
            let raw = (m.buffered + packet).take(31);
            let n = number(raw[8], raw[9], raw[10], raw[11]);
            let (t, step) = m.packet_read_step(Ok(packet));
            &&& has_fields_of(t.cbw, raw)
            &&& t.state == if n == 0 {
                State::DataTransferNoData
            } else if raw[12] >= 128 {
                State::DataTransferToHost
            } else {
                State::DataTransferFromHost
            }
            &&& t.unread == if n > 0 && raw[12] < 128 {
                n
            } else {
                0
            }
            &&& t.buffered == (m.buffered + packet).skip(31)
            &&& t.status == m.status
            &&& t.transfer_in_flight == m.transfer_in_flight
            &&& t.transfer_phase == m.transfer_phase
            &&& same_configuration(t, m)
            &&& only_ends(step, Ok(()))
        }),
{
    cbw_fields_come_from_the_wire((m.buffered + packet).take(31));
}

/// A command for `n` bytes to the host, sent as one packet to an idle transport, is
/// executed as it was sent: for all of its `n` bytes, under its tag, with its LUN and
/// its command block. If the user gives it a status at once, the CSW carries its tag, a
/// residue of `n` and the code of that status.
pub proof fn in_command_is_executed_as_sent(
    m: BulkOnlyView,
    tag: u32,
    n: u32,
    flags: u8,
    lun: u8,
    block: Seq<u8>,
    padding: Seq<u8>,
    status: CommandStatus,
)
    requires
        m.state == State::Idle,
        m.buffered.len() == 0,
        n > 0,
        flags >= 128,
        lun < 16,
        1 <= block.len() <= 16,
        block.len() + padding.len() == 16,
    ensures
        ({
            let raw = crate::transport::cbw::cbw_bytes(tag, n, flags, lun, block, padding);
            let t = m.packet_read_step(Ok(raw)).0;
            let (ended, step) = t.with_status(status).checked_end();
            &&& t.state == State::DataTransferToHost
            &&& t.buffered.len() == 0
            &&& t.cbw.tag == tag && t.cbw.data_transfer_len == n && t.cbw.lun == lun
            &&& t.cbw.direction == DataDirection::In
            &&& t.cbw.block == block
            &&& reads_as_csw(ended.buffered, tag, n, code_of(status))
            &&& status == CommandStatus::Passed <==> step.effects.len() == 0
        }),
{
    let raw = crate::transport::cbw::cbw_bytes(tag, n, flags, lun, block, padding);
    cbw_bytes_on_the_wire(tag, n, flags, lun, block, padding);
    assert((m.buffered + raw).take(31) =~= raw);
    cbw_starts_its_data_phase(m, raw);
    let t = m.packet_read_step(Ok(raw)).0;
    assert(t.cbw.block =~= block);
    csw_reads_back(tag, n);
}

/// A command for `n` bytes from the host, sent as one packet to an idle transport, is
/// executed as it was sent. If the user gives it a status at once, the CSW carries its
/// tag, a residue of `n` and the code of that status, and the OUT endpoint is halted.
pub proof fn out_command_is_executed_as_sent(
    m: BulkOnlyView,
    tag: u32,
    n: u32,
    flags: u8,
    lun: u8,
    block: Seq<u8>,
    padding: Seq<u8>,
    status: CommandStatus,
)
    requires
        m.state == State::Idle,
        m.buffered.len() == 0,
        n > 0,
        flags < 128,
        lun < 16,
        1 <= block.len() <= 16,
        block.len() + padding.len() == 16,
    ensures
        ({
            let raw = crate::transport::cbw::cbw_bytes(tag, n, flags, lun, block, padding);
            let t = m.packet_read_step(Ok(raw)).0;
            let (ended, step) = t.with_status(status).checked_end();
            &&& t.state == State::DataTransferFromHost
            &&& t.buffered.len() == 0
            &&& t.cbw.tag == tag && t.cbw.data_transfer_len == n && t.cbw.lun == lun
            &&& t.cbw.direction == DataDirection::Out
            &&& t.cbw.block == block
            &&& t.unread == n
            &&& reads_as_csw(ended.buffered, tag, n, code_of(status))
            &&& step.effects == seq![Effect::StallOut]
        }),
{
    let raw = crate::transport::cbw::cbw_bytes(tag, n, flags, lun, block, padding);
    cbw_bytes_on_the_wire(tag, n, flags, lun, block, padding);
    assert((m.buffered + raw).take(31) =~= raw);
    cbw_starts_its_data_phase(m, raw);
    let t = m.packet_read_step(Ok(raw)).0;
    assert(t.cbw.block =~= block);
    csw_reads_back(tag, n);
}

/// The number on the wire for a status
pub open spec fn code_of(status: CommandStatus) -> u8 {
    match status {
        CommandStatus::Passed => 0,
        CommandStatus::Failed => 1,
        CommandStatus::PhaseError => 2,
    }
}

/// Bytes that do not make a CBW yet are kept; 31 bytes that are no CBW are dropped with
/// all that came with them, and the endpoints are halted and work again.
pub proof fn other_command_bytes(m: BulkOnlyView, packet: Seq<u8>)
    requires
        m.state == State::Idle || m.state == State::CommandTransfer,
        packet.len() > 0,
    ensures
        ({
            let (t, step) = m.packet_read_step(Ok(packet));
            let bytes = m.buffered + packet;
            &&& bytes.len() < 31 ==> {
                &&& t == (BulkOnlyView {
                    state: State::CommandTransfer,
                    buffered: bytes,
                    ..m
                })
                &&& only_ends(step, Ok(()))
            }
            &&& bytes.len() >= 31 && !is_cbw(bytes.take(31)) ==> {
                &&& is_blank(t) && same_configuration(t, m)
                &&& !t.transfer_in_flight && !t.transfer_phase
                &&& step.effects == seq![
                    Effect::StallIn,
                    Effect::StallOut,
                    Effect::UnstallIn,
                    Effect::UnstallOut,
                ]
                &&& step.next == (NextView::Done { result: Ok(()) })
            }
        }),
{
    cbw_fields_come_from_the_wire((m.buffered + packet).take(31));
}

/// Setting a status sets the status and nothing else.
pub proof fn status_is_what_was_set(m: BulkOnlyView, status: CommandStatus)
    ensures
        ({
            let t = m.with_status(status);
            &&& t.status == Some(status)
            &&& t.state == m.state
            &&& t.buffered == m.buffered
            &&& t.cbw == m.cbw
            &&& t.unread == m.unread
            &&& t.transfer_in_flight == m.transfer_in_flight
            &&& t.transfer_phase == m.transfer_phase
            &&& same_configuration(t, m)
        }),
{
}

/// What is left of a state when its data phase has ended: the command and its status,
/// and no transfer
pub open spec fn ends_with(t: BulkOnlyView, m: BulkOnlyView, state: State) -> bool {
    &&& t.state == state
    &&& t.cbw == m.cbw
    &&& t.unread == m.unread
    &&& t.status == m.status
    &&& !t.transfer_in_flight && !t.transfer_phase
    &&& same_configuration(t, m)
}

/// A status that is set in a data phase to the host, with nothing left in the buffer,
/// ends the phase. The CSW carries the tag, what was not sent, and the code of that
/// status. If something was not sent and the command did not pass, the IN endpoint is
/// halted and the CSW is held back; else it is offered.
pub proof fn end_of_phase_to_host(m: BulkOnlyView, status: CommandStatus)
    requires
        m.state == State::DataTransferToHost,
        m.cbw.direction == DataDirection::In,
        m.buffered.len() == 0,
    ensures
        ({
            let halts = m.cbw.data_transfer_len > 0 && (status == CommandStatus::Failed || status
                == CommandStatus::PhaseError);
            let set = m.with_status(status);
            let (t, step) = set.checked_end();
            &&& reads_as_csw(
                t.buffered,
                m.cbw.tag,
                m.cbw.data_transfer_len,
                code_of(status),
            )
            &&& halts ==> {
                &&& ends_with(t, set, State::StatusTransferEpStall)
                &&& step.effects == seq![Effect::StallIn]
                &&& step.next == (NextView::Done { result: Ok(()) })
            }
            &&& !halts ==> {
                &&& ends_with(t, set, State::StatusTransfer)
                &&& only_offers(step, t.buffered, m.packet_size)
            }
        }),
{
    csw_reads_back(m.cbw.tag, m.cbw.data_transfer_len);
}

/// A status that is set in a data phase from the host ends the phase, whatever is in
/// the buffer. The CSW carries the tag, what the user has not read, and the code of that
/// status. If not all bytes were received, the OUT endpoint is halted and the CSW is
/// held back; else it is offered.
pub proof fn end_of_phase_from_host(m: BulkOnlyView, status: CommandStatus)
    requires
        m.state == State::DataTransferFromHost,
        m.cbw.direction == DataDirection::Out,
    ensures
        ({
            let set = m.with_status(status);
            let (t, step) = set.checked_end();
            &&& reads_as_csw(t.buffered, m.cbw.tag, m.unread, code_of(status))
            &&& m.cbw.data_transfer_len > 0 ==> {
                &&& ends_with(t, set, State::StatusTransferEpStall)
                &&& step.effects == seq![Effect::StallOut]
                &&& step.next == (NextView::Done { result: Ok(()) })
            }
            &&& m.cbw.data_transfer_len == 0 ==> {
                &&& ends_with(t, set, State::StatusTransfer)
                &&& only_offers(step, t.buffered, m.packet_size)
            }
        }),
{
    csw_reads_back(m.cbw.tag, m.unread);
}

/// A status that is set for a command without data ends it: the CSW carries the tag, no
/// residue and the code of that status, and is offered.
pub proof fn end_of_command_without_data(m: BulkOnlyView, status: CommandStatus)
    requires
        m.state == State::DataTransferNoData,
        m.cbw.direction == DataDirection::NotExpected,
        m.cbw.data_transfer_len == 0,
    ensures
        ({
            let set = m.with_status(status);
            let (t, step) = set.checked_end();
            &&& reads_as_csw(t.buffered, m.cbw.tag, 0, code_of(status))
            &&& ends_with(t, set, State::StatusTransfer)
            &&& only_offers(step, t.buffered, m.packet_size)
        }),
{
    csw_reads_back(m.cbw.tag, 0);
}

/// A data phase does not end without a status, nor to the host with data left in the
/// buffer; outside a data phase there is nothing to end.
pub proof fn phase_does_not_end_early(m: BulkOnlyView)
    requires
        m.status is None || (m.state == State::DataTransferToHost && m.buffered.len() > 0)
            || m.state == State::Idle || m.state == State::CommandTransfer || m.state
            == State::StatusTransfer || m.state == State::StatusTransferEpStall,
    ensures
        m.checked_end().0 == m,
        only_ends(m.checked_end().1, Ok(())),
{
}

/// Finishing a phase of transfers waits for the one in flight, and otherwise ends the
/// phase if it is to end.
pub proof fn finishing_waits_for_the_transfer(m: BulkOnlyView)
    ensures
        m.transfer_in_flight ==> m.transfer_checked_end().0 == m && only_ends(
            m.transfer_checked_end().1,
            Ok(()),
        ),
        !m.transfer_in_flight ==> m.transfer_checked_end() == m.checked_end(),
{
}

/// Reading asks for one packet while the transport waits for a command, or for data of
/// a command without a status, if the buffer has room for a full packet; without room it
/// is an overflow. A command from the host with a status ends, and in any other state
/// reading does nothing.
pub proof fn reading_asks_for_a_packet(m: BulkOnlyView)
    ensures
        ({
            let (t, step) = m.read_step();
            let wants = m.state == State::Idle || m.state == State::CommandTransfer || (m.state
                == State::DataTransferFromHost && m.status is None);
            let room = m.buffered.len() + m.packet_size <= m.capacity;
            &&& m.takes_packet() <==> wants && room
            &&& wants ==> t == m
            &&& wants && room ==> step.effects.len() == 0 && step.next == (NextView::ReadPacket {
                max_len: m.packet_size as nat,
            })
            &&& wants && !room ==> only_ends(
                step,
                Err(TransportError::Error(BulkOnlyError::IoBufferOverflow)),
            )
            &&& m.state == State::DataTransferFromHost && m.status is Some ==> m.read_step()
                == m.checked_end()
            &&& m.state == State::DataTransferToHost || m.state == State::DataTransferNoData
                || m.state == State::StatusTransfer || m.state == State::StatusTransferEpStall
                ==> t == m && only_ends(step, Ok(()))
        }),
{
}

/// A packet of data from the host is appended to the buffer. Its length is counted off
/// what the host still has to send, and off nothing else.
pub proof fn data_packet_is_appended(m: BulkOnlyView, packet: Seq<u8>)
    requires
        m.state == State::DataTransferFromHost,
        m.status is None,
        0 < packet.len() <= m.packet_size,
    ensures
        ({
            let (t, step) = m.packet_read_step(Ok(packet));
            let d = m.cbw.data_transfer_len;
            &&& t.buffered == m.buffered + packet
            &&& packet.len() <= d ==> t.cbw.data_transfer_len == d - packet.len()
            &&& packet.len() > d ==> t.cbw.data_transfer_len == 0
            &&& t == (BulkOnlyView {
                buffered: t.buffered,
                cbw: CbwView { data_transfer_len: t.cbw.data_transfer_len, ..m.cbw },
                ..m
            })
            &&& only_ends(step, Ok(()))
        }),
{
}

/// An endpoint that fails, or gives or takes nothing, changes nothing; the error is
/// reported, and nothing at all counts as not ready.
pub proof fn failing_endpoint_changes_nothing(m: BulkOnlyView, e: UsbError)
    ensures
        m.packet_read_step(Err(e)).0 == m,
        only_ends(m.packet_read_step(Err(e)).1, Err(TransportError::Usb(e))),
        m.packet_read_step(Ok(Seq::empty())).0 == m,
        only_ends(
            m.packet_read_step(Ok(Seq::empty())).1,
            Err(TransportError::Usb(UsbError::WouldBlock)),
        ),
        m.packet_written_step(Err(e)).0 == m,
        only_ends(m.packet_written_step(Err(e)).1, Err(TransportError::Usb(e))),
        m.packet_written_step(Ok(0)).0 == m,
        only_ends(
            m.packet_written_step(Ok(0)).1,
            Err(TransportError::Usb(UsbError::WouldBlock)),
        ),
{
}

/// Writing offers what is in the buffer, as much as fits a packet: always in the status
/// phase, and in a data phase to the host that goes packet by packet unless a full
/// packet is due and the buffer does not hold one.
pub proof fn writing_offers_a_packet(m: BulkOnlyView)
    ensures
        ({
            let (t, step) = m.write_step();
            let by_packet = m.state == State::DataTransferToHost && !m.transfer_phase;
            let due = m.status is None && m.cbw.data_transfer_len >= m.packet_size
                && m.buffered.len() < m.packet_size;
            &&& m.state == State::StatusTransfer ==> t == m && only_offers(
                step,
                m.buffered,
                m.packet_size,
            )
            &&& by_packet && due ==> t == m && only_ends(
                step,
                Err(TransportError::Error(BulkOnlyError::FullPacketExpected)),
            )
            &&& by_packet && !due && m.buffered.len() > 0 ==> t == m && only_offers(
                step,
                m.buffered,
                m.packet_size,
            )
            &&& by_packet && !due && m.buffered.len() == 0 ==> m.write_step() == m.checked_end()
            &&& m.state == State::DataTransferToHost && m.transfer_phase ==> m.write_step()
                == m.checked_end()
            &&& m.state == State::DataTransferNoData ==> m.write_step() == m.checked_end()
            &&& m.state == State::Idle || m.state == State::CommandTransfer || m.state
                == State::DataTransferFromHost || m.state == State::StatusTransferEpStall ==> t == m
                && only_ends(step, Ok(()))
            &&& m.offers_packet() <==> m.buffered.len() > 0 && (m.state == State::StatusTransfer
                || by_packet)
            &&& starts(m.next_packet(), m.buffered, m.packet_size as nat)
        }),
{
}

/// What the endpoint took of a packet of data leaves the buffer and is counted off what
/// is not sent. With no status, or with data left, that is all.
pub proof fn data_sent_leaves_the_buffer(m: BulkOnlyView, n: usize)
    requires
        m.state == State::DataTransferToHost,
        0 < n <= m.buffered.len(),
        n <= m.packet_size,
        m.status is None || n < m.buffered.len(),
    ensures
        ({
            let (t, step) = m.packet_written_step(Ok(n));
            let d = m.cbw.data_transfer_len;
            &&& t.buffered == m.buffered.skip(n as int)
            &&& n <= d ==> t.cbw.data_transfer_len == d - n
            &&& n > d ==> t.cbw.data_transfer_len == 0
            &&& t == (BulkOnlyView {
                buffered: t.buffered,
                cbw: CbwView { data_transfer_len: t.cbw.data_transfer_len, ..m.cbw },
                ..m
            })
            &&& only_ends(step, Ok(()))
        }),
{
}

/// With a status, the last data that the endpoint takes ends the phase. The CSW carries
/// what is then not sent.
pub proof fn last_data_sent_ends_the_phase(m: BulkOnlyView, status: CommandStatus)
    requires
        m.state == State::DataTransferToHost,
        m.cbw.direction == DataDirection::In,
        0 < m.buffered.len() <= m.packet_size,
        m.status == Some(status),
    ensures
        ({
            let n = m.buffered.len();
            let (t, step) = m.packet_written_step(Ok(n as usize));
            let left: u32 = if n <= m.cbw.data_transfer_len {
                (m.cbw.data_transfer_len - n) as u32
            } else {
                0
            };
            let halts = left > 0 && (status == CommandStatus::Failed || status
                == CommandStatus::PhaseError);
            &&& reads_as_csw(t.buffered, m.cbw.tag, left, code_of(status))
            &&& halts ==> t.state == State::StatusTransferEpStall && step.effects == seq![
                Effect::StallIn,
            ] && step.next == (NextView::Done { result: Ok(()) })
            &&& !halts ==> t.state == State::StatusTransfer && only_offers(
                step,
                t.buffered,
                m.packet_size,
            )
            &&& t.cbw == (CbwView { data_transfer_len: left, ..m.cbw })
            &&& t.status == m.status && t.unread == m.unread
            &&& !t.transfer_in_flight && !t.transfer_phase
            &&& same_configuration(t, m)
        }),
{
    let n = m.buffered.len();
    let left: u32 = if n <= m.cbw.data_transfer_len {
        (m.cbw.data_transfer_len - n) as u32
    } else {
        0
    };
    csw_reads_back(m.cbw.tag, left);
}

/// What the endpoint took of the CSW leaves the buffer; with its last byte the transport
/// is blank.
pub proof fn csw_sent_leaves_the_buffer(m: BulkOnlyView, n: usize)
    requires
        m.state == State::StatusTransfer,
        0 < n <= m.buffered.len(),
    ensures
        ({
            let (t, step) = m.packet_written_step(Ok(n));
            &&& n < m.buffered.len() ==> t == (BulkOnlyView {
                buffered: m.buffered.skip(n as int),
                ..m
            })
            &&& n == m.buffered.len() ==> is_blank(t) && same_configuration(t, m)
                && t.transfer_in_flight == m.transfer_in_flight && t.transfer_phase
                == m.transfer_phase
            &&& only_ends(step, Ok(()))
        }),
{
}

/// When the halt is cleared, both endpoints work again and the buffer is offered from
/// its start.
pub proof fn cleared_halt_offers_the_csw(m: BulkOnlyView)
    ensures
        ({
            let (t, step) = m.halt_cleared_step();
            &&& t == (BulkOnlyView { state: State::StatusTransfer, ..m })
            &&& step.effects == seq![Effect::UnstallIn, Effect::UnstallOut]
            &&& step.next is WritePacket
            &&& starts(step.next->packet, m.buffered, m.packet_size as nat)
        }),
{
}

/// A control request clears the halt exactly if it is CLEAR_FEATURE(ENDPOINT_HALT) to one
/// of the two bulk endpoints while a CSW is held back.
pub proof fn which_request_clears_the_halt(m: BulkOnlyView, req: Request)
    ensures
        m.clears_halt(req) <==> {
            &&& m.state == State::StatusTransferEpStall
            &&& req.request_type == RequestType::Standard
            &&& req.recipient == Recipient::Endpoint
            &&& req.request == 1
            &&& req.value == 0
            &&& req.index % 256 == m.in_ep.0 || req.index % 256 == m.out_ep.0
        },
{
}

/// The class request 0xFE to the interface is answered with the maximum LUN, in any
/// state, and no other request has an answer.
pub proof fn only_max_lun_is_answered(m: BulkOnlyView, req: Request)
    ensures
        m.control_answer(req) is Some <==> req.request_type == RequestType::Class && req.recipient
            == Recipient::Interface && req.request == 0xFE,
        m.control_answer(req) is Some ==> m.control_answer(req) == Some(m.max_lun),
{
}

/// In a data phase from the host a read moves the start of the buffer to the start of
/// the destination, as much as there is and fits, and leaves the rest of both. What was
/// moved is counted off what is unread. In any other state it is refused.
pub proof fn read_moves_the_start_of_the_buffer(m: BulkOnlyView, dst: Seq<u8>)
    requires
        m.buffered.len() <= usize::MAX,
    ensures
        ({
            let (t, after, r) = m.data_read(dst);
            let n: nat = if dst.len() <= m.buffered.len() {
                dst.len()
            } else {
                m.buffered.len()
            };
            &&& m.state == State::DataTransferFromHost ==> {
                &&& r is Ok && r->Ok_0 == n
                &&& after.len() == dst.len()
                &&& forall|i: int| 0 <= i < n ==> after[i] == m.buffered[i]
                &&& forall|i: int| n <= i < dst.len() ==> after[i] == dst[i]
                &&& t.buffered == m.buffered.skip(n as int)
                &&& n <= m.unread ==> t.unread == m.unread - n
                &&& n > m.unread ==> t.unread == 0
                &&& t == (BulkOnlyView { buffered: t.buffered, unread: t.unread, ..m })
            }
            &&& m.state != State::DataTransferFromHost ==> {
                &&& t == m
                &&& after == dst
                &&& r == Err::<usize, TransportError<BulkOnlyError>>(
                    TransportError::Error(BulkOnlyError::InvalidState),
                )
            }
        }),
{
}

/// In a data phase to the host without a status, a write appends the start of the
/// source: as much as there is, as the host still expects and as the buffer has room
/// for. Otherwise it is refused.
pub proof fn write_appends_the_start_of_the_source(m: BulkOnlyView, src: Seq<u8>)
    requires
        m.buffered.len() <= m.capacity <= usize::MAX,
    ensures
        ({
            let (t, r) = m.data_written(src);
            let open = m.state == State::DataTransferToHost && m.status is None;
            let room = m.capacity - m.buffered.len();
            &&& open ==> {
                &&& r is Ok
                &&& r->Ok_0 <= src.len() && r->Ok_0 <= m.cbw.data_transfer_len && r->Ok_0 <= room
                &&& r->Ok_0 == src.len() || r->Ok_0 == m.cbw.data_transfer_len || r->Ok_0 == room
                &&& t == (BulkOnlyView {
                    buffered: m.buffered + src.take(r->Ok_0 as int),
                    ..m
                })
            }
            &&& !open ==> {
                &&& t == m
                &&& r == Err::<usize, TransportError<BulkOnlyError>>(
                    TransportError::Error(BulkOnlyError::InvalidState),
                )
            }
        }),
{
    let (t, r) = m.data_written(src);
    if m.state == State::DataTransferToHost && m.status is None {
        assert(t.buffered =~= m.buffered + src.take(r->Ok_0 as int));
    }
}

/// Writing all of a source appends all of it, or refuses it and changes nothing: for
/// want of room, or outside a data phase to the host without a status.
pub proof fn write_all_appends_the_source(m: BulkOnlyView, src: Seq<u8>)
    requires
        m.buffered.len() <= m.capacity,
    ensures
        ({
            let (t, r) = m.all_data_written(src);
            let open = m.state == State::DataTransferToHost && m.status is None;
            let fits = m.buffered.len() + src.len() <= m.capacity;
            &&& open && fits ==> r is Ok && t == (BulkOnlyView {
                buffered: m.buffered + src,
                ..m
            })
            &&& open && !fits ==> t == m && r == Err::<(), TransportError<BulkOnlyError>>(
                TransportError::Error(BulkOnlyError::IoBufferOverflow),
            )
            &&& !open ==> t == m && r == Err::<(), TransportError<BulkOnlyError>>(
                TransportError::Error(BulkOnlyError::InvalidState),
            )
        }),
{
}

/// A transfer submits the smaller of the user's slice and of what is not transferred
/// yet, on the endpoint of the data phase. While one is in flight the endpoint is polled
/// instead, and outside the data phase nothing is called.
pub proof fn transfers_submit_all_that_is_expected(m: BulkOnlyView, len: usize)
    ensures
        ({
            let d = m.cbw.data_transfer_len;
            let to_host = m.state == State::DataTransferToHost;
            let from_host = m.state == State::DataTransferFromHost;
            &&& to_host && !m.transfer_in_flight && len <= d ==> m.write_call(len as nat) == (
            TransferCall::Submit { ep: m.in_ep, len })
            &&& to_host && !m.transfer_in_flight && len > d ==> m.write_call(len as nat) == (
            TransferCall::Submit { ep: m.in_ep, len: d as usize })
            &&& to_host && m.transfer_in_flight ==> m.write_call(len as nat) == (
            TransferCall::Poll { ep: m.in_ep })
            &&& !to_host ==> m.write_call(len as nat) == TransferCall::Refused
            &&& from_host && !m.transfer_in_flight && len <= d ==> m.read_call(len as nat) == (
            TransferCall::Submit { ep: m.out_ep, len })
            &&& from_host && !m.transfer_in_flight && len > d ==> m.read_call(len as nat) == (
            TransferCall::Submit { ep: m.out_ep, len: d as usize })
            &&& from_host && m.transfer_in_flight ==> m.read_call(len as nat) == (
            TransferCall::Poll { ep: m.out_ep })
            &&& !from_host ==> m.read_call(len as nat) == TransferCall::Refused
            &&& to_host && len <= d ==> m.pipelined_write_call(len as nat) == (
            TransferCall::Submit { ep: m.in_ep, len })
            &&& to_host && len > d ==> m.pipelined_write_call(len as nat) == (
            TransferCall::Submit { ep: m.in_ep, len: d as usize })
            &&& !to_host ==> m.pipelined_write_call(len as nat) == TransferCall::Refused
            &&& to_host ==> m.pipelined_poll_call() == (TransferCall::Poll { ep: m.in_ep })
            &&& !to_host ==> m.pipelined_poll_call() == TransferCall::Refused
        }),
{
}

/// A submitted transfer makes the phase one of transfers; it is in flight if the bus
/// took it. The call reports the error of the bus, or that the transfer is not done.
pub proof fn submitting_changes_two_marks(m: BulkOnlyView, e: UsbError)
    ensures
        m.transfer_submitted(Ok(())).0 == (BulkOnlyView {
            transfer_phase: true,
            transfer_in_flight: true,
            ..m
        }),
        m.transfer_submitted(Ok(())).1 == Err::<usize, TransportError<BulkOnlyError>>(
            TransportError::Usb(UsbError::WouldBlock),
        ),
        m.transfer_submitted(Err(e)).0 == (BulkOnlyView { transfer_phase: true, ..m }),
        m.transfer_submitted(Err(e)).1 == Err::<usize, TransportError<BulkOnlyError>>(
            TransportError::Usb(e),
        ),
        m.pipelined_submitted(Ok(())).0 == (BulkOnlyView { transfer_phase: true, ..m }),
        m.pipelined_submitted(Ok(())).1 is Ok,
        m.pipelined_submitted(Err(e)).0 == (BulkOnlyView { transfer_phase: true, ..m }),
        m.pipelined_submitted(Err(e)).1 == Err::<(), TransportError<BulkOnlyError>>(
            TransportError::Usb(e),
        ),
{
}

/// `a` less `n` modulo 2^32, to zero at least
pub open spec fn counted_off(after: u32, before: u32, n: usize) -> bool {
    let moved = n as int % 0x1_0000_0000;
    &&& moved <= before ==> after == before - moved
    &&& moved > before ==> after == 0
}

/// Polling: a transfer that is not done changes nothing; one that failed is no longer in
/// flight; one that moved `n` bytes is no longer in flight and its bytes are counted off
/// what is not transferred and what is unread. The user gets `n`.
pub proof fn polling_counts_the_transfer_off(m: BulkOnlyView, n: usize, e: UsbError)
    ensures
        m.transfer_polled(None).0 == m,
        m.transfer_polled(None).1 == Err::<usize, TransportError<BulkOnlyError>>(
            TransportError::Usb(UsbError::WouldBlock),
        ),
        m.transfer_polled(Some(Err(e))).0 == (BulkOnlyView { transfer_in_flight: false, ..m }),
        m.transfer_polled(Some(Err(e))).1 == Err::<usize, TransportError<BulkOnlyError>>(
            TransportError::Usb(e),
        ),
        ({
            let (t, r) = m.transfer_polled(Some(Ok(n)));
            &&& r == Ok::<usize, TransportError<BulkOnlyError>>(n)
            &&& !t.transfer_in_flight
            &&& counted_off(t.cbw.data_transfer_len, m.cbw.data_transfer_len, n)
            &&& counted_off(t.unread, m.unread, n)
            &&& t == (BulkOnlyView {
                transfer_in_flight: false,
                cbw: CbwView { data_transfer_len: t.cbw.data_transfer_len, ..m.cbw },
                unread: t.unread,
                ..m
            })
        }),
        m.pipelined_polled(None) == (m, Ok::<Option<usize>, TransportError<BulkOnlyError>>(None)),
        m.pipelined_polled(Some(Err(e))) == (
            m,
            Err::<Option<usize>, TransportError<BulkOnlyError>>(TransportError::Usb(e)),
        ),
        ({
            let (t, r) = m.pipelined_polled(Some(Ok(n)));
            &&& r == Ok::<Option<usize>, TransportError<BulkOnlyError>>(Some(n))
            &&& counted_off(t.cbw.data_transfer_len, m.cbw.data_transfer_len, n)
            &&& t == (BulkOnlyView {
                cbw: CbwView { data_transfer_len: t.cbw.data_transfer_len, ..m.cbw },
                ..m
            })
        }),
{
    assert(n as u32 == n as u64 % 0x1_0000_0000) by (bit_vector);
}

/// Whatever a write by a transfer did, the bus was called as it should: with the start
/// of the source up to what is not transferred yet, on the IN endpoint, or with a poll
/// of that endpoint. Its reply decides on the result.
pub proof fn write_by_transfer_calls_the_bus<B: TransferBus>(
    m: BulkOnlyView,
    bus: &B,
    src: Seq<u8>,
    after: BulkOnlyView,
    r: BulkOnlyTransportResult<usize>,
)
    requires
        m.write_by_transfer(bus, src, after, r),
    ensures
        m.state != State::DataTransferToHost ==> after == m && r == Err::<
            usize,
            TransportError<BulkOnlyError>,
        >(TransportError::Error(BulkOnlyError::InvalidState)),
        m.state == State::DataTransferToHost && !m.transfer_in_flight ==> exists|
            b: &[u8],
            outcome: Result<(), UsbError>,
        |
            {
                &&& starts(b@, src, m.cbw.data_transfer_len as nat)
                &&& #[trigger] call_ensures(B::submit_write, (bus, m.in_ep, b), outcome)
                &&& (after, r) == m.transfer_submitted(outcome)
            },
        m.state == State::DataTransferToHost && m.transfer_in_flight ==> exists|
            outcome: Option<Result<usize, UsbError>>,
        |
            {
                &&& #[trigger] call_ensures(B::poll_transfer, (bus, m.in_ep), outcome)
                &&& (after, r) == m.transfer_polled(outcome)
            },
{
    if m.state == State::DataTransferToHost && !m.transfer_in_flight {
        let len = m.expected_of(src.len());
        let (b, outcome) = choose|b: &[u8], outcome: Result<(), UsbError>|
            {
                &&& b@ == src.take(len as int)
                &&& #[trigger] call_ensures(B::submit_write, (bus, m.in_ep, b), outcome)
                &&& (after, r) == m.transfer_submitted(outcome)
            };
        assert(starts(b@, src, m.cbw.data_transfer_len as nat));
        assert(call_ensures(B::submit_write, (bus, m.in_ep, b), outcome));
    }
}

/// The same of a pipelined write, which submits whether or not a transfer is in flight,
/// and of the poll that retires one.
pub proof fn pipelined_transfers_call_the_bus<B: TransferBus>(
    m: BulkOnlyView,
    bus: &B,
    src: Seq<u8>,
    after: BulkOnlyView,
    written: BulkOnlyTransportResult<()>,
    polled: BulkOnlyTransportResult<Option<usize>>,
)
    ensures
        m.write_pipelined(bus, src, after, written) && m.state != State::DataTransferToHost
            ==> after == m && written == Err::<(), TransportError<BulkOnlyError>>(
            TransportError::Error(BulkOnlyError::InvalidState),
        ),
        m.write_pipelined(bus, src, after, written) && m.state == State::DataTransferToHost
            ==> exists|b: &[u8], outcome: Result<(), UsbError>|
            {
                &&& starts(b@, src, m.cbw.data_transfer_len as nat)
                &&& #[trigger] call_ensures(B::submit_write, (bus, m.in_ep, b), outcome)
                &&& (after, written) == m.pipelined_submitted(outcome)
            },
        m.poll_pipelined(bus, after, polled) && m.state != State::DataTransferToHost ==> after == m
            && polled == Err::<Option<usize>, TransportError<BulkOnlyError>>(
            TransportError::Error(BulkOnlyError::InvalidState),
        ),
        m.poll_pipelined(bus, after, polled) && m.state == State::DataTransferToHost ==> exists|
            outcome: Option<Result<usize, UsbError>>,
        |
            {
                &&& #[trigger] call_ensures(B::poll_transfer, (bus, m.in_ep), outcome)
                &&& (after, polled) == m.pipelined_polled(outcome)
            },
{
    if m.state == State::DataTransferToHost && m.write_pipelined(bus, src, after, written) {
        let len = m.expected_of(src.len());
        let (b, outcome) = choose|b: &[u8], outcome: Result<(), UsbError>|
            {
                &&& b@ == src.take(len as int)
                &&& #[trigger] call_ensures(B::submit_write, (bus, m.in_ep, b), outcome)
                &&& (after, written) == m.pipelined_submitted(outcome)
            };
        assert(starts(b@, src, m.cbw.data_transfer_len as nat));
        assert(call_ensures(B::submit_write, (bus, m.in_ep, b), outcome));
    }
}

/// The user reads by transfers in a data phase from the host that transfers drive, and
/// in no other state.
pub proof fn which_phase_is_read_by_transfers(m: BulkOnlyView)
    ensures
        m.out_transfer_phase() <==> m.state == State::DataTransferFromHost && m.transfer_phase,
{
}

/// A step says what it holds: its effects, and the packet, the length or the result.
pub proof fn steps_say_what_they_hold(step: crate::transport::bbb::Step)
    ensures
        step@.effects == step.effects@,
        match step.next {
            crate::transport::bbb::Next::ReadPacket { max_len } => step@.next == (
            NextView::ReadPacket { max_len: max_len as nat }),
            crate::transport::bbb::Next::WritePacket { packet } => step@.next == (
            NextView::WritePacket { packet: packet@ }),
            crate::transport::bbb::Next::Done { result } => step@.next == (NextView::Done {
                result,
            }),
        },
{
}

} // verus!

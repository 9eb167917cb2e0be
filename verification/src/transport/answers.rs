//! What the operations of the transports answer, from what they are called with
//!
//! Each law speaks of calls: for any arguments, and any outcome that the call has, it
//! says what the outcome is in bytes, numbers and fields.

use crate::subclass::scsi::ScsiCommand;
use crate::transfer::TransferBus;
use crate::transport::bbb::{BulkOnly, CommandBlock, Next, Step};
use crate::transport::cbw::{
    build_csw, CommandBlockWrapper, DataDirection, InvalidCbwError, CSW_LEN,
};
use crate::transport::model::{
    BulkOnlyError, BulkOnlyTransportResult, BulkOnlyView, State, TransferCall,
};
use crate::transport::tags::{InsertError, TagSlot, TagTable};
use crate::transport::uas::{
    build_ready_iu, build_response_iu, build_status_iu, fixed_sense, parse_iu, IuParse,
    IuParseError, FIXED_SENSE_LEN, READY_IU_LEN, RESPONSE_IU_LEN, STATUS_IU_MAX_LEN,
};
use crate::transport::{CommandStatus, TransportError};
use crate::usb::{
    Descriptor, Effect, EndpointAddress, Pipe, Recipient, Request, RequestType, UsbError,
};
use vstd::prelude::*;

verus! {

/// A transport is refused for a maximum LUN above 15, then for a buffer below 31 bytes
/// or below a packet. Else it is made: blank, with what it was given.
pub proof fn new_answers(
    in_ep: EndpointAddress,
    out_ep: EndpointAddress,
    packet_size: u16,
    max_lun: u8,
    buf: Vec<u8>,
    r: Result<BulkOnly, BulkOnlyError>,
)
    requires
        call_ensures(BulkOnly::new, (in_ep, out_ep, packet_size, max_lun, buf), r),
    ensures
        max_lun > 15 ==> r == Err::<BulkOnly, BulkOnlyError>(BulkOnlyError::InvalidMaxLun),
        max_lun <= 15 && (buf@.len() < 31 || buf@.len() < packet_size) ==> r == Err::<
            BulkOnly,
            BulkOnlyError,
        >(BulkOnlyError::BufferTooSmall),
        max_lun <= 15 && buf@.len() >= 31 && buf@.len() >= packet_size ==> {
            &&& r is Ok
            &&& r->Ok_0.wf()
            &&& crate::transport::wire::is_blank(r->Ok_0@)
            &&& r->Ok_0@.in_ep == in_ep && r->Ok_0@.out_ep == out_ep
            &&& r->Ok_0@.packet_size == packet_size && r->Ok_0@.max_lun == max_lun
            &&& r->Ok_0@.capacity == buf@.len()
        },
{
}

/// The packet that is the whole CBW of a command starts its data phase, with the fields
/// that the host wrote into the CBW: its tag, its length, its LUN and its command block,
/// and the direction that its flags say.
pub proof fn packet_read_answers_a_cbw(
    t: &mut BulkOnly,
    packet: &[u8],
    step: Step,
    tag: u32,
    n: u32,
    flags: u8,
    lun: u8,
    block: Seq<u8>,
    padding: Seq<u8>,
)
    requires
        call_ensures(BulkOnly::packet_read, (t, Ok::<&[u8], UsbError>(packet)), step),
        old(t)@.state == State::Idle,
        old(t)@.buffered.len() == 0,
        lun < 16,
        1 <= block.len() <= 16,
        block.len() + padding.len() == 16,
        packet@ == crate::transport::cbw::cbw_bytes(tag, n, flags, lun, block, padding),
    ensures
        n > 0 && flags >= 128 ==> final(t)@.state == State::DataTransferToHost,
        n > 0 && flags < 128 ==> final(t)@.state == State::DataTransferFromHost,
        n == 0 ==> final(t)@.state == State::DataTransferNoData,
        final(t)@.cbw.tag == tag,
        final(t)@.cbw.data_transfer_len == n,
        final(t)@.cbw.lun == lun,
        final(t)@.cbw.block == block,
        n > 0 && flags >= 128 ==> final(t)@.cbw.direction == DataDirection::In,
        n > 0 && flags < 128 ==> final(t)@.cbw.direction == DataDirection::Out,
        n == 0 ==> final(t)@.cbw.direction == DataDirection::NotExpected,
        n > 0 && flags < 128 ==> final(t)@.unread == n,
        final(t)@.buffered.len() == 0,
        final(t)@.status == old(t)@.status,
        step.effects@.len() == 0,
        step.next == (Next::Done { result: Ok(()) }),
{
    let raw = packet@;
    crate::transport::wire::cbw_bytes_on_the_wire(tag, n, flags, lun, block, padding);
    assert((old(t)@.buffered + raw).take(31) =~= raw);
    crate::transport::wire::cbw_starts_its_data_phase(old(t)@, raw);
    assert(final(t)@.cbw.block =~= block);
    crate::transport::wire::steps_say_what_they_hold(step);
}

/// A status that is set is the status, and nothing else changes. If the data phase is to
/// the host and nothing is in the buffer, it then ends with a CSW that has the code of
/// this status, 0 for passed, 1 for failed and 2 for a phase error, behind the tag of
/// the command and all that was not sent.
pub proof fn set_status_answers_to_host(
    t: &mut BulkOnly,
    status: CommandStatus,
    u: &mut BulkOnly,
    step: Step,
)
    requires
        call_ensures(BulkOnly::set_status, (t, status), ()),
        old(u)@ == final(t)@,
        call_ensures(BulkOnly::check_end_data_transfer, (u,), step),
        old(t)@.state == State::DataTransferToHost,
        old(t)@.cbw.direction == DataDirection::In,
        old(t)@.buffered.len() == 0,
    ensures
        final(t)@ == (BulkOnlyView { status: Some(status), ..old(t)@ }),
        crate::transport::wire::reads_as_csw(
            final(u)@.buffered,
            old(t)@.cbw.tag,
            old(t)@.cbw.data_transfer_len,
            match status {
                CommandStatus::Passed => 0,
                CommandStatus::Failed => 1,
                CommandStatus::PhaseError => 2,
            },
        ),
        old(t)@.cbw.data_transfer_len > 0 && status != CommandStatus::Passed ==> step.effects@
            == seq![Effect::StallIn] && final(u)@.state == State::StatusTransferEpStall,
        old(t)@.cbw.data_transfer_len == 0 || status == CommandStatus::Passed
            ==> step.effects@.len() == 0 && final(u)@.state == State::StatusTransfer,
{
    crate::transport::wire::end_of_phase_to_host(old(t)@, status);
    crate::transport::wire::steps_say_what_they_hold(step);
}

/// The same of a data phase from the host, whatever is in the buffer; the CSW has what
/// the user has not read.
pub proof fn set_status_answers_from_host(
    t: &mut BulkOnly,
    status: CommandStatus,
    u: &mut BulkOnly,
    step: Step,
)
    requires
        call_ensures(BulkOnly::set_status, (t, status), ()),
        old(u)@ == final(t)@,
        call_ensures(BulkOnly::check_end_data_transfer, (u,), step),
        old(t)@.state == State::DataTransferFromHost,
        old(t)@.cbw.direction == DataDirection::Out,
    ensures
        final(t)@ == (BulkOnlyView { status: Some(status), ..old(t)@ }),
        crate::transport::wire::reads_as_csw(
            final(u)@.buffered,
            old(t)@.cbw.tag,
            old(t)@.unread,
            match status {
                CommandStatus::Passed => 0,
                CommandStatus::Failed => 1,
                CommandStatus::PhaseError => 2,
            },
        ),
        old(t)@.cbw.data_transfer_len > 0 ==> step.effects@ == seq![Effect::StallOut]
            && final(u)@.state == State::StatusTransferEpStall,
        old(t)@.cbw.data_transfer_len == 0 ==> step.effects@.len() == 0 && final(u)@.state
            == State::StatusTransfer,
{
    crate::transport::wire::end_of_phase_from_host(old(t)@, status);
    crate::transport::wire::steps_say_what_they_hold(step);
}

/// A command for `n` bytes to the host that gets its status before any data is sent is
/// answered with its tag, a residue of `n` and that status; one for `n` bytes from the
/// host that gets it before any data is read as well.
pub proof fn command_without_its_data_answers(
    t: &mut BulkOnly,
    packet: &[u8],
    first: Step,
    u: &mut BulkOnly,
    status: CommandStatus,
    v: &mut BulkOnly,
    last: Step,
    tag: u32,
    n: u32,
    flags: u8,
    lun: u8,
    block: Seq<u8>,
    padding: Seq<u8>,
)
    requires
        call_ensures(BulkOnly::packet_read, (t, Ok::<&[u8], UsbError>(packet)), first),
        old(u)@ == final(t)@,
        call_ensures(BulkOnly::set_status, (u, status), ()),
        old(v)@ == final(u)@,
        call_ensures(BulkOnly::check_end_data_transfer, (v,), last),
        old(t)@.state == State::Idle,
        old(t)@.buffered.len() == 0,
        n > 0,
        lun < 16,
        1 <= block.len() <= 16,
        block.len() + padding.len() == 16,
        packet@ == crate::transport::cbw::cbw_bytes(tag, n, flags, lun, block, padding),
    ensures
        crate::transport::wire::reads_as_csw(
            final(v)@.buffered,
            tag,
            n,
            match status {
                CommandStatus::Passed => 0,
                CommandStatus::Failed => 1,
                CommandStatus::PhaseError => 2,
            },
        ),
{
    packet_read_answers_a_cbw(t, packet, first, tag, n, flags, lun, block, padding);
    if flags >= 128 {
        set_status_answers_to_host(u, status, v, last);
    } else {
        set_status_answers_from_host(u, status, v, last);
    }
}

/// The call on the bus for a slice of `len` bytes: the smaller of `len` and of what is
/// not transferred yet is submitted on the endpoint of the data phase, a transfer in
/// flight is polled instead, and outside the data phase there is none.
pub proof fn transfer_calls_answer(
    t: &BulkOnly,
    len: usize,
    write: TransferCall,
    read: TransferCall,
    pipelined: TransferCall,
    poll: TransferCall,
)
    requires
        call_ensures(BulkOnly::write_transfer_call, (t, len), write),
        call_ensures(BulkOnly::read_transfer_call, (t, len), read),
        call_ensures(BulkOnly::pipelined_write_transfer_call, (t, len), pipelined),
        call_ensures(BulkOnly::pipelined_poll_transfer_call, (t,), poll),
    ensures
        ({
            let left = t@.cbw.data_transfer_len;
            let n: usize = if len <= left {
                len
            } else {
                left as usize
            };
            let to_host = t@.state == State::DataTransferToHost;
            let from_host = t@.state == State::DataTransferFromHost;
            &&& write == if !to_host {
                TransferCall::Refused
            } else if t@.transfer_in_flight {
                TransferCall::Poll { ep: t@.in_ep }
            } else {
                TransferCall::Submit { ep: t@.in_ep, len: n }
            }
            &&& read == if !from_host {
                TransferCall::Refused
            } else if t@.transfer_in_flight {
                TransferCall::Poll { ep: t@.out_ep }
            } else {
                TransferCall::Submit { ep: t@.out_ep, len: n }
            }
            &&& pipelined == if !to_host {
                TransferCall::Refused
            } else {
                TransferCall::Submit { ep: t@.in_ep, len: n }
            }
            &&& poll == if !to_host {
                TransferCall::Refused
            } else {
                TransferCall::Poll { ep: t@.in_ep }
            }
        }),
{
}

/// A write by a transfer in a data phase to the host, with none in flight, hands the bus
/// the start of the user's slice, up to what is not transferred yet, for the IN
/// endpoint.
pub proof fn write_data_transfer_answers<B: TransferBus>(
    t: &mut BulkOnly,
    bus: &B,
    src: &[u8],
    r: BulkOnlyTransportResult<usize>,
)
    requires
        call_ensures(BulkOnly::write_data_transfer::<B>, (t, bus, src), r),
        old(t)@.state == State::DataTransferToHost,
        !old(t)@.transfer_in_flight,
    ensures
        exists|b: &[u8], outcome: Result<(), UsbError>|
            {
                &&& crate::transport::wire::starts(
                    b@,
                    src@,
                    old(t)@.cbw.data_transfer_len as nat,
                )
                &&& #[trigger] call_ensures(B::submit_write, (bus, old(t)@.in_ep, b), outcome)
                &&& final(t)@.transfer_phase
                &&& final(t)@.transfer_in_flight <==> outcome is Ok
                &&& outcome matches Err(e) ==> r == Err::<usize, TransportError<BulkOnlyError>>(
                    TransportError::Usb(e),
                )
                &&& outcome is Ok ==> r == Err::<usize, TransportError<BulkOnlyError>>(
                    TransportError::Usb(UsbError::WouldBlock),
                )
            },
{
    crate::transport::wire::write_by_transfer_calls_the_bus(
        old(t)@,
        bus,
        src@,
        final(t)@,
        r,
    );
    let (b, outcome) = choose|b: &[u8], outcome: Result<(), UsbError>|
        {
            &&& crate::transport::wire::starts(b@, src@, old(t)@.cbw.data_transfer_len as nat)
            &&& #[trigger] call_ensures(B::submit_write, (bus, old(t)@.in_ep, b), outcome)
            &&& (final(t)@, r) == old(t)@.transfer_submitted(outcome)
        };
    assert(call_ensures(B::submit_write, (bus, old(t)@.in_ep, b), outcome));
}

/// A read by a transfer in a data phase from the host, with none in flight, hands the bus
/// the start of the user's slice, up to what is not transferred yet, for the OUT
/// endpoint. What is behind it stays.
pub proof fn read_data_transfer_answers<B: TransferBus>(
    t: &mut BulkOnly,
    bus: &B,
    dst: &mut [u8],
    r: BulkOnlyTransportResult<usize>,
)
    requires
        call_ensures(BulkOnly::read_data_transfer::<B>, (t, bus, dst), r),
        old(t)@.state == State::DataTransferFromHost,
        !old(t)@.transfer_in_flight,
    ensures
        final(dst)@.len() == old(dst)@.len(),
        forall|i: int|
            old(t)@.cbw.data_transfer_len <= i < old(dst)@.len() ==> final(dst)@[i] == old(dst)@[i],
        exists|b: &mut [u8], outcome: Result<(), UsbError>|
            {
                &&& crate::transport::wire::starts(
                    b@,
                    old(dst)@,
                    old(t)@.cbw.data_transfer_len as nat,
                )
                &&& #[trigger] call_ensures(B::submit_read, (bus, old(t)@.out_ep, b), outcome)
                &&& final(t)@.transfer_phase
                &&& final(t)@.transfer_in_flight <==> outcome is Ok
            },
{
    let left = old(t)@.cbw.data_transfer_len;
    let len: usize = if old(dst)@.len() <= left {
        old(dst)@.len() as usize
    } else {
        left as usize
    };
    let (b, outcome) = choose|b: &mut [u8], outcome: Result<(), UsbError>|
        {
            &&& b@ == old(dst)@.take(len as int)
            &&& final(dst)@ == final(b)@ + old(dst)@.skip(len as int)
            &&& #[trigger] call_ensures(B::submit_read, (bus, old(t)@.out_ep, b), outcome)
            &&& (final(t)@, r) == old(t)@.transfer_submitted(outcome)
        };
    assert(crate::transport::wire::starts(b@, old(dst)@, left as nat));
    assert(call_ensures(B::submit_read, (bus, old(t)@.out_ep, b), outcome));
}

/// What a read gives the user: in a data phase from the host the start of the buffer,
/// which then leaves it.
pub proof fn read_data_answers(t: &mut BulkOnly, dst: &mut [u8], r: BulkOnlyTransportResult<usize>)
    requires
        call_ensures(BulkOnly::read_data, (t, dst), r),
        old(t)@.buffered.len() <= usize::MAX,
    ensures
        ({
            let all = old(t)@.buffered;
            let n: nat = if old(dst)@.len() <= all.len() {
                old(dst)@.len()
            } else {
                all.len()
            };
            &&& old(t)@.state == State::DataTransferFromHost ==> {
                &&& r is Ok && r->Ok_0 == n
                &&& final(dst)@.len() == old(dst)@.len()
                &&& forall|i: int| 0 <= i < n ==> final(dst)@[i] == all[i]
                &&& forall|i: int| n <= i < old(dst)@.len() ==> final(dst)@[i] == old(dst)@[i]
                &&& final(t)@.buffered == all.skip(n as int)
            }
            &&& old(t)@.state != State::DataTransferFromHost ==> {
                &&& final(t)@ == old(t)@
                &&& final(dst)@ == old(dst)@
                &&& r == Err::<usize, TransportError<BulkOnlyError>>(
                    TransportError::Error(BulkOnlyError::InvalidState),
                )
            }
        }),
{
    crate::transport::wire::read_moves_the_start_of_the_buffer(old(t)@, old(dst)@);
}

/// What a write takes of the user: in a data phase to the host without a status as much
/// as there is, as the host expects and as there is room for.
pub proof fn write_data_answers(t: &mut BulkOnly, src: &[u8], r: BulkOnlyTransportResult<usize>)
    requires
        call_ensures(BulkOnly::write_data, (t, src), r),
        old(t)@.buffered.len() <= old(t)@.capacity <= usize::MAX,
    ensures
        ({
            let open = old(t)@.state == State::DataTransferToHost && old(t)@.status is None;
            let room = old(t)@.capacity - old(t)@.buffered.len();
            let left = old(t)@.cbw.data_transfer_len;
            &&& open ==> {
                &&& r is Ok
                &&& r->Ok_0 <= src@.len() && r->Ok_0 <= left && r->Ok_0 <= room
                &&& r->Ok_0 == src@.len() || r->Ok_0 == left || r->Ok_0 == room
                &&& final(t)@.buffered == old(t)@.buffered + src@.take(r->Ok_0 as int)
            }
            &&& !open ==> final(t)@ == old(t)@ && r == Err::<usize, TransportError<BulkOnlyError>>(
                TransportError::Error(BulkOnlyError::InvalidState),
            )
        }),
{
    crate::transport::wire::write_appends_the_start_of_the_source(old(t)@, src@);
}

/// Writing all of the user's data takes all of it, or refuses it and changes nothing.
pub proof fn try_write_data_all_answers(
    t: &mut BulkOnly,
    src: &[u8],
    r: BulkOnlyTransportResult<()>,
)
    requires
        call_ensures(BulkOnly::try_write_data_all, (t, src), r),
        old(t)@.buffered.len() <= old(t)@.capacity,
    ensures
        ({
            let open = old(t)@.state == State::DataTransferToHost && old(t)@.status is None;
            let fits = old(t)@.buffered.len() + src@.len() <= old(t)@.capacity;
            &&& open && fits ==> r is Ok && final(t)@ == (BulkOnlyView {
                buffered: old(t)@.buffered + src@,
                ..old(t)@
            })
            &&& open && !fits ==> final(t)@ == old(t)@ && r == Err::<
                (),
                TransportError<BulkOnlyError>,
            >(TransportError::Error(BulkOnlyError::IoBufferOverflow))
            &&& !open ==> final(t)@ == old(t)@ && r == Err::<(), TransportError<BulkOnlyError>>(
                TransportError::Error(BulkOnlyError::InvalidState),
            )
        }),
{
    crate::transport::wire::write_all_appends_the_source(old(t)@, src@);
}

/// Reading asks for a packet while a command or data from the host is due and there is
/// room for a full packet.
pub proof fn read_answers(t: &mut BulkOnly, step: Step)
    requires
        call_ensures(BulkOnly::read, (t,), step),
        old(t)@.status is None,
    ensures
        ({
            let due = old(t)@.state == State::Idle || old(t)@.state == State::CommandTransfer
                || old(t)@.state == State::DataTransferFromHost;
            let room = old(t)@.buffered.len() + old(t)@.packet_size <= old(t)@.capacity;
            &&& final(t)@ == old(t)@
            &&& step.effects@.len() == 0
            &&& due && room ==> step.next == (Next::ReadPacket {
                max_len: old(t)@.packet_size as usize,
            })
            &&& due && !room ==> step.next == (Next::Done {
                result: Err(TransportError::Error(BulkOnlyError::IoBufferOverflow)),
            })
            &&& !due ==> step.next == (Next::Done { result: Ok(()) })
        }),
{
    crate::transport::wire::reading_asks_for_a_packet(old(t)@);
    crate::transport::wire::steps_say_what_they_hold(step);
}

/// A packet of data from the host queues up behind those that are there, and its length
/// is counted off what the host still has to send.
pub proof fn packet_read_answers_data(t: &mut BulkOnly, packet: &[u8], step: Step)
    requires
        call_ensures(BulkOnly::packet_read, (t, Ok::<&[u8], UsbError>(packet)), step),
        old(t)@.state == State::DataTransferFromHost,
        old(t)@.status is None,
        0 < packet@.len() <= old(t)@.packet_size,
    ensures
        final(t)@.buffered == old(t)@.buffered + packet@,
        packet@.len() <= old(t)@.cbw.data_transfer_len ==> final(t)@.cbw.data_transfer_len
            == old(t)@.cbw.data_transfer_len - packet@.len(),
        packet@.len() > old(t)@.cbw.data_transfer_len ==> final(t)@.cbw.data_transfer_len == 0,
        final(t)@.unread == old(t)@.unread,
        final(t)@.state == old(t)@.state,
        final(t)@.status == old(t)@.status,
        final(t)@.cbw.tag == old(t)@.cbw.tag,
        final(t)@.cbw.lun == old(t)@.cbw.lun,
        final(t)@.cbw.block == old(t)@.cbw.block,
        step.effects@.len() == 0,
        step.next == (Next::Done { result: Ok(()) }),
{
    crate::transport::wire::data_packet_is_appended(old(t)@, packet@);
    crate::transport::wire::steps_say_what_they_hold(step);
}

/// Writing offers the start of the buffer, as much as fits a packet: in the status phase,
/// and in a data phase to the host that goes packet by packet unless a full packet is due
/// that is not there yet.
pub proof fn write_answers(t: &mut BulkOnly, step: Step)
    requires
        call_ensures(BulkOnly::write, (t,), step),
        old(t)@.buffered.len() > 0,
        old(t)@.state == State::StatusTransfer || (old(t)@.state == State::DataTransferToHost
            && !old(t)@.transfer_phase),
    ensures
        ({
            let due = old(t)@.state == State::DataTransferToHost && old(t)@.status is None
                && old(t)@.cbw.data_transfer_len >= old(t)@.packet_size && old(t)@.buffered.len()
                < old(t)@.packet_size;
            &&& final(t)@ == old(t)@
            &&& step.effects@.len() == 0
            &&& !due ==> step.next is WritePacket && crate::transport::wire::starts(
                step.next->packet@,
                old(t)@.buffered,
                old(t)@.packet_size as nat,
            )
            &&& due ==> step.next == (Next::Done {
                result: Err(TransportError::Error(BulkOnlyError::FullPacketExpected)),
            })
        }),
{
    crate::transport::wire::writing_offers_a_packet(old(t)@);
    crate::transport::wire::steps_say_what_they_hold(step);
}

/// What the endpoint took of the packet leaves the buffer; data is counted off what is
/// not sent, and with the last byte of the CSW the transport is blank.
pub proof fn packet_written_answers(t: &mut BulkOnly, n: usize, step: Step)
    requires
        call_ensures(BulkOnly::packet_written, (t, Ok::<usize, UsbError>(n)), step),
        0 < n <= old(t)@.buffered.len(),
        n <= old(t)@.packet_size,
    ensures
        old(t)@.state == State::StatusTransfer && n == old(t)@.buffered.len()
            ==> crate::transport::wire::is_blank(final(t)@),
        old(t)@.state == State::StatusTransfer && n < old(t)@.buffered.len() ==> final(t)@ == (
        BulkOnlyView { buffered: old(t)@.buffered.skip(n as int), ..old(t)@ }),
        old(t)@.state == State::DataTransferToHost && old(t)@.status is None ==> {
            &&& final(t)@.state == State::DataTransferToHost
            &&& final(t)@.buffered == old(t)@.buffered.skip(n as int)
            &&& n <= old(t)@.cbw.data_transfer_len ==> final(t)@.cbw.data_transfer_len
                == old(t)@.cbw.data_transfer_len - n
            &&& n > old(t)@.cbw.data_transfer_len ==> final(t)@.cbw.data_transfer_len == 0
        },
{
    if old(t)@.state == State::StatusTransfer {
        crate::transport::wire::csw_sent_leaves_the_buffer(old(t)@, n);
    }
    if old(t)@.state == State::DataTransferToHost && old(t)@.status is None {
        crate::transport::wire::data_sent_leaves_the_buffer(old(t)@, n);
    }
}

/// A transfer that moved `n` bytes is no longer in flight, its bytes are counted off what
/// is not transferred and what is unread, and the user gets `n`.
pub proof fn transfer_polled_answers(
    t: &mut BulkOnly,
    n: usize,
    r: BulkOnlyTransportResult<usize>,
    u: &mut BulkOnly,
    s: BulkOnlyTransportResult<Option<usize>>,
)
    requires
        call_ensures(BulkOnly::transfer_polled, (t, Some(Ok::<usize, UsbError>(n))), r),
        call_ensures(BulkOnly::pipelined_polled, (u, Some(Ok::<usize, UsbError>(n))), s),
    ensures
        r is Ok && r->Ok_0 == n,
        !final(t)@.transfer_in_flight,
        crate::transport::wire::counted_off(
            final(t)@.cbw.data_transfer_len,
            old(t)@.cbw.data_transfer_len,
            n,
        ),
        crate::transport::wire::counted_off(final(t)@.unread, old(t)@.unread, n),
        s is Ok && s->Ok_0 == Some(n),
        crate::transport::wire::counted_off(
            final(u)@.cbw.data_transfer_len,
            old(u)@.cbw.data_transfer_len,
            n,
        ),
{
    crate::transport::wire::polling_counts_the_transfer_off(old(t)@, n, UsbError::WouldBlock);
    crate::transport::wire::polling_counts_the_transfer_off(old(u)@, n, UsbError::WouldBlock);
}

/// The code of a status: 0 for passed, 1 for failed, 2 for a phase error.
pub proof fn code_answers(status: &CommandStatus, code: u8)
    requires
        call_ensures(CommandStatus::code, (status,), code),
    ensures
        code == 0 <==> *status == CommandStatus::Passed,
        code == 1 <==> *status == CommandStatus::Failed,
        code == 2 <==> *status == CommandStatus::PhaseError,
{
}

/// Whether the configuration of a transport is refused, and why.
pub proof fn check_config_answers(
    packet_size: u16,
    max_lun: u8,
    buf_len: usize,
    r: Result<(), BulkOnlyError>,
)
    requires
        call_ensures(BulkOnly::check_config, (packet_size, max_lun, buf_len), r),
    ensures
        max_lun > 15 ==> r == Err::<(), BulkOnlyError>(BulkOnlyError::InvalidMaxLun),
        max_lun <= 15 && (buf_len < 31 || buf_len < packet_size) ==> r == Err::<
            (),
            BulkOnlyError,
        >(BulkOnlyError::BufferTooSmall),
        max_lun <= 15 && buf_len >= 31 && buf_len >= packet_size ==> r is Ok,
{
}

/// The halt is cleared: both endpoints work again and the CSW is offered from its start.
pub proof fn halt_cleared_answers(t: &mut BulkOnly, step: Step)
    requires
        call_ensures(BulkOnly::halt_cleared, (t,), step),
    ensures
        final(t)@ == (BulkOnlyView { state: State::StatusTransfer, ..old(t)@ }),
        step.effects@ == seq![Effect::UnstallIn, Effect::UnstallOut],
        step.next is WritePacket,
        crate::transport::wire::starts(
            step.next->packet@,
            old(t)@.buffered,
            old(t)@.packet_size as nat,
        ),
{
    crate::transport::wire::cleared_halt_offers_the_csw(old(t)@);
    crate::transport::wire::steps_say_what_they_hold(step);
}

/// A pipelined write in a data phase to the host hands the bus the start of the user's
/// slice, up to what is not transferred yet, for the IN endpoint, whether or not another
/// transfer is in flight; the reply of the bus is that of the call. In any other state it
/// is refused.
pub proof fn write_data_transfer_pipelined_answers<B: TransferBus>(
    t: &mut BulkOnly,
    bus: &B,
    src: &[u8],
    r: BulkOnlyTransportResult<()>,
)
    requires
        call_ensures(BulkOnly::write_data_transfer_pipelined::<B>, (t, bus, src), r),
    ensures
        old(t)@.state != State::DataTransferToHost ==> final(t)@ == old(t)@ && r == Err::<
            (),
            TransportError<BulkOnlyError>,
        >(TransportError::Error(BulkOnlyError::InvalidState)),
        old(t)@.state == State::DataTransferToHost ==> exists|
            b: &[u8],
            outcome: Result<(), UsbError>,
        |
            {
                &&& crate::transport::wire::starts(
                    b@,
                    src@,
                    old(t)@.cbw.data_transfer_len as nat,
                )
                &&& #[trigger] call_ensures(B::submit_write, (bus, old(t)@.in_ep, b), outcome)
                &&& final(t)@ == (BulkOnlyView { transfer_phase: true, ..old(t)@ })
                &&& outcome matches Err(e) ==> r == Err::<(), TransportError<BulkOnlyError>>(
                    TransportError::Usb(e),
                )
                &&& outcome is Ok ==> r is Ok
            },
{
    crate::transport::wire::pipelined_transfers_call_the_bus(
        old(t)@,
        bus,
        src@,
        final(t)@,
        r,
        Ok(None),
    );
    if old(t)@.state == State::DataTransferToHost {
        let (b, outcome) = choose|b: &[u8], outcome: Result<(), UsbError>|
            {
                &&& crate::transport::wire::starts(b@, src@, old(t)@.cbw.data_transfer_len as nat)
                &&& #[trigger] call_ensures(B::submit_write, (bus, old(t)@.in_ep, b), outcome)
                &&& (final(t)@, r) == old(t)@.pipelined_submitted(outcome)
            };
        assert(call_ensures(B::submit_write, (bus, old(t)@.in_ep, b), outcome));
    }
}

/// A poll of the pipelined transfers polls the IN endpoint in a data phase to the host:
/// it gives what the bus gives and counts it off. In any other state it is refused.
pub proof fn poll_data_transfer_answers<B: TransferBus>(
    t: &mut BulkOnly,
    bus: &B,
    r: BulkOnlyTransportResult<Option<usize>>,
)
    requires
        call_ensures(BulkOnly::poll_data_transfer::<B>, (t, bus), r),
    ensures
        old(t)@.state != State::DataTransferToHost ==> final(t)@ == old(t)@ && r == Err::<
            Option<usize>,
            TransportError<BulkOnlyError>,
        >(TransportError::Error(BulkOnlyError::InvalidState)),
        old(t)@.state == State::DataTransferToHost ==> exists|
            outcome: Option<Result<usize, UsbError>>,
        |
            {
                &&& #[trigger] call_ensures(B::poll_transfer, (bus, old(t)@.in_ep), outcome)
                &&& match outcome {
                    None => final(t)@ == old(t)@ && r is Ok && r->Ok_0 is None,
                    Some(Err(e)) => final(t)@ == old(t)@ && r == Err::<
                        Option<usize>,
                        TransportError<BulkOnlyError>,
                    >(TransportError::Usb(e)),
                    Some(Ok(n)) => r is Ok && r->Ok_0 == Some(n)
                        && crate::transport::wire::counted_off(
                        final(t)@.cbw.data_transfer_len,
                        old(t)@.cbw.data_transfer_len,
                        n,
                    ),
                }
            },
{
    if old(t)@.state == State::DataTransferToHost {
        let outcome = choose|outcome: Option<Result<usize, UsbError>>|
            {
                &&& #[trigger] call_ensures(B::poll_transfer, (bus, old(t)@.in_ep), outcome)
                &&& (final(t)@, r) == old(t)@.pipelined_polled(outcome)
            };
        if let Some(Ok(n)) = outcome {
            crate::transport::wire::polling_counts_the_transfer_off(
                old(t)@,
                n,
                UsbError::WouldBlock,
            );
        }
        assert(call_ensures(B::poll_transfer, (bus, old(t)@.in_ep), outcome));
    }
}

/// What the transport says of itself: the command block and the LUN once a command is
/// there, whether it has a status, which endpoints it has and whether the user reads by
/// transfers.
pub proof fn observers_answer<'a>(
    t: &'a BulkOnly,
    command: Option<CommandBlock<'a>>,
    has_status: bool,
    endpoints: (EndpointAddress, EndpointAddress),
    by_transfers: bool,
)
    requires
        call_ensures(BulkOnly::get_command, (t,), command),
        call_ensures(BulkOnly::has_status, (t,), has_status),
        call_ensures(BulkOnly::data_endpoints, (t,), endpoints),
        call_ensures(BulkOnly::is_data_transfer_phase, (t,), by_transfers),
    ensures
        command is None <==> t@.state == State::Idle || t@.state == State::CommandTransfer,
        command matches Some(c) ==> c.bytes@ == t@.cbw.block && c.lun == t@.cbw.lun,
        has_status <==> t@.status != None::<CommandStatus>,
        endpoints.0 == t@.in_ep,
        endpoints.1 == t@.out_ep,
        by_transfers <==> t@.state == State::DataTransferFromHost && t@.transfer_phase,
{
}

/// Which control requests the transport answers and accepts.
pub proof fn control_requests_answer(
    t: &BulkOnly,
    req: &Request,
    answer: Option<u8>,
    accepted: bool,
)
    requires
        call_ensures(BulkOnly::control_in, (t, req), answer),
        call_ensures(BulkOnly::control_out, (t, req), accepted),
    ensures
        req.request_type == RequestType::Class && req.recipient == Recipient::Interface
            && req.request == 0xFE ==> answer == Some(t@.max_lun),
        !(req.request_type == RequestType::Class && req.recipient == Recipient::Interface
            && req.request == 0xFE) ==> answer is None,
        accepted <==> {
            &&& t@.state == State::StatusTransferEpStall
            &&& req.request_type == RequestType::Standard
            &&& req.recipient == Recipient::Endpoint
            &&& req.request == 1 && req.value == 0
            &&& req.index % 256 == t@.in_ep.0 || req.index % 256 == t@.out_ep.0
        },
{
    crate::transport::wire::which_request_clears_the_halt(t@, *req);
    crate::transport::wire::only_max_lun_is_answered(t@, *req);
}

/// A reset blanks the transport and clears both halts, IN first.
pub proof fn reset_answers(t: &mut BulkOnly, effects: Vec<Effect>)
    requires
        call_ensures(BulkOnly::reset, (t,), effects),
    ensures
        crate::transport::wire::is_blank(final(t)@),
        crate::transport::wire::same_configuration(final(t)@, old(t)@),
        !final(t)@.transfer_in_flight && !final(t)@.transfer_phase,
        effects@.len() == 2,
        effects@[0] == Effect::UnstallIn,
        effects@[1] == Effect::UnstallOut,
{
    crate::transport::wire::reset_transport_is_blank(old(t)@);
}

/// Finishing a phase of transfers does nothing while a transfer is in flight or without a
/// status.
pub proof fn finish_data_transfer_phase_answers(t: &mut BulkOnly, step: Step)
    requires
        call_ensures(BulkOnly::finish_data_transfer_phase, (t,), step),
        old(t)@.transfer_in_flight || old(t)@.status is None,
    ensures
        final(t)@ == old(t)@,
        step.effects@.len() == 0,
        step.next == (Next::Done { result: Ok(()) }),
{
    crate::transport::wire::steps_say_what_they_hold(step);
}

/// The endpoints of the transport: the data pipe to the host, then the one from it.
pub proof fn endpoint_descriptors_answer(t: &BulkOnly, descriptors: Vec<Descriptor>)
    requires
        call_ensures(BulkOnly::get_endpoint_descriptors, (t,), descriptors),
    ensures
        descriptors@.len() == 2,
        descriptors@[0] == (Descriptor::Endpoint { pipe: Pipe::DataIn }),
        descriptors@[1] == (Descriptor::Endpoint { pipe: Pipe::DataOut }),
{
}

/// The bytes of a CBW that the host made parse to its fields; the block comes with the
/// padding behind it.
pub proof fn from_raw_answers(
    raw: &[u8],
    r: Result<CommandBlockWrapper, InvalidCbwError>,
    tag: u32,
    n: u32,
    flags: u8,
    lun: u8,
    block: Seq<u8>,
    padding: Seq<u8>,
)
    requires
        call_ensures(CommandBlockWrapper::from_raw, (raw,), r),
        lun < 16,
        1 <= block.len() <= 16,
        block.len() + padding.len() == 16,
        raw@ == crate::transport::cbw::cbw_bytes(tag, n, flags, lun, block, padding),
    ensures
        r is Ok,
        r->Ok_0.tag == tag,
        r->Ok_0.data_transfer_len == n,
        r->Ok_0.lun == lun,
        r->Ok_0.block_len == block.len(),
        r->Ok_0.block@ == block + padding,
        r->Ok_0.direction == if n == 0 {
            DataDirection::NotExpected
        } else if flags >= 128 {
            DataDirection::In
        } else {
            DataDirection::Out
        },
{
    crate::transport::wire::cbw_bytes_on_the_wire(tag, n, flags, lun, block, padding);
    crate::transport::wire::cbw_fields_come_from_the_wire(raw@);
    assert(raw@.subrange(15, 31) =~= block + padding);
}

/// A CSW that is built says what it is built of.
pub proof fn build_csw_answers(
    tag: u32,
    residue: u32,
    status: CommandStatus,
    csw: [u8; CSW_LEN],
)
    requires
        call_ensures(build_csw, (tag, residue, status), csw),
    ensures
        crate::transport::wire::reads_as_csw(
            csw@,
            tag,
            residue,
            match status {
                CommandStatus::Passed => 0,
                CommandStatus::Failed => 1,
                CommandStatus::PhaseError => 2,
            },
        ),
{
    crate::transport::wire::csw_reads_back(tag, residue);
}

/// A Command IU that the host made parses to a command with its tag, its task attribute,
/// its LUN and all 16 bytes of its command block, and it is this block that is decoded.
pub proof fn parse_iu_answers_a_command(
    raw: &[u8],
    r: Result<IuParse, IuParseError>,
    tag: u16,
    prio_attr: u8,
    lun_field: Seq<u8>,
    cdb: Seq<u8>,
    reserved: Seq<u8>,
    rest: Seq<u8>,
)
    requires
        call_ensures(parse_iu, (raw,), r),
        lun_field.len() == 8,
        cdb.len() == 16,
        raw@ == crate::transport::packets::command_packet(
            tag,
            prio_attr,
            lun_field,
            cdb,
            reserved,
            rest,
        ),
    ensures
        r is Ok,
        r->Ok_0 is Command,
        r->Ok_0->Command_0.tag == tag,
        r->Ok_0->Command_0.prio_attr == prio_attr,
        r->Ok_0->Command_0.lun == lun_field[0],
        r->Ok_0->Command_0.cdb@ == cdb,
        forall|kind: ScsiCommand|
            #[trigger] call_ensures(
                crate::transport::uas::CommandIu::parse_kind,
                (&r->Ok_0->Command_0,),
                kind,
            ) ==> kind == crate::subclass::scsi::decoded(cdb),
{
    let some_command = r->Ok_0->Command_0;
    let some_task = r->Ok_0->TaskMgmt_0;
    crate::transport::packets::command_iu_parses_back(
        tag,
        prio_attr,
        lun_field,
        cdb,
        reserved,
        rest,
        some_command,
        some_task,
    );
}

/// A Task Management IU that the host made parses to its tag, its function and the tag of
/// the task.
pub proof fn parse_iu_answers_a_task(
    raw: &[u8],
    r: Result<IuParse, IuParseError>,
    tag: u16,
    function: u8,
    task_tag: u16,
    reserved: Seq<u8>,
    rest: Seq<u8>,
)
    requires
        call_ensures(parse_iu, (raw,), r),
        rest.len() >= 8,
        raw@ == crate::transport::packets::task_mgmt_packet(tag, function, task_tag, reserved, rest),
    ensures
        r is Ok,
        r->Ok_0 is TaskMgmt,
        r->Ok_0->TaskMgmt_0.tag == tag,
        r->Ok_0->TaskMgmt_0.function == function,
        r->Ok_0->TaskMgmt_0.task_tag == task_tag,
{
    let some_command = r->Ok_0->Command_0;
    let some_task = r->Ok_0->TaskMgmt_0;
    crate::transport::packets::task_mgmt_iu_parses_back(
        tag,
        function,
        task_tag,
        reserved,
        rest,
        some_task,
        some_command,
    );
}

/// The IUs to the host that are built say what they are built of.
pub proof fn built_ius_answer(
    read: bool,
    tag: u16,
    code: u8,
    status: u8,
    sense: &[u8],
    ready: [u8; READY_IU_LEN],
    response: [u8; RESPONSE_IU_LEN],
    report: ([u8; STATUS_IU_MAX_LEN], usize),
)
    requires
        call_ensures(build_ready_iu, (read, tag), ready),
        call_ensures(build_response_iu, (tag, code), response),
        call_ensures(build_status_iu, (tag, status, sense), report),
    ensures
        ready@.len() == 4,
        ready@[0] == if read {
            6int
        } else {
            7
        },
        ready@[1] == 0,
        crate::transport::packets::number16(ready@[2], ready@[3]) == tag,
        response@.len() == 8,
        response@[0] == 4 && response@[1] == 0,
        crate::transport::packets::number16(response@[2], response@[3]) == tag,
        response@[4] == 0 && response@[5] == 0 && response@[6] == 0 && response@[7] == code,
        ({
            let n: nat = if sense@.len() <= 18 {
                sense@.len()
            } else {
                18
            };
            let iu = report.0@;
            &&& report.1 == 16 + n
            &&& iu.len() == 34
            &&& iu[0] == 3 && iu[1] == 0
            &&& crate::transport::packets::number16(iu[2], iu[3]) == tag
            &&& iu[4] == 0 && iu[5] == 0 && iu[6] == status
            &&& forall|i: int| 7 <= i < 14 ==> iu[i] == 0
            &&& crate::transport::packets::number16(iu[14], iu[15]) == n
            &&& forall|i: int| 0 <= i < n ==> iu[16 + i] == sense@[i]
            &&& forall|i: int| 16 + n <= i < 34 ==> iu[i] == 0
        }),
{
    crate::transport::packets::ready_iu_on_the_wire(read, tag);
    crate::transport::packets::response_iu_on_the_wire(tag, code);
    crate::transport::packets::status_iu_on_the_wire(tag, status, sense@);
    let iu = report.0@;
    let sent = crate::transport::uas::status_iu(tag, status, sense@);
    assert(iu.len() == 34);
    assert forall|i: int| 0 <= i < report.1 implies #[trigger] iu[i] == sent[i] by {
        assert(iu.take(report.1 as int)[i] == iu[i]);
    }
    assert(forall|i: int| 7 <= i < 14 ==> iu[i] == sent[i]);
    let n = crate::transport::uas::carried_sense_len(sense@);
    assert forall|i: int| 0 <= i < n implies #[trigger] iu[16 + i] == sense@[i] by {
        assert(sent[16 + i] == sense@[i]);
    }
}

/// The errors in words, as they are told.
pub proof fn messages_answer(
    parse: &IuParseError,
    parse_text: String,
    insert: &InsertError,
    insert_text: String,
)
    requires
        call_ensures(IuParseError::message, (parse,), parse_text),
        call_ensures(InsertError::message, (insert,), insert_text),
    ensures
        parse_text@ == match *parse {
            IuParseError::TooShort { expected, actual } => "IU too short: expected "@
                + crate::text::decimal(expected as nat) + " bytes, got "@ + crate::text::decimal(
                actual as nat,
            ),
            IuParseError::UnknownIuId { id } => "unknown IU ID: "@ + crate::text::hex_byte(id),
        },
        insert_text@ == match *insert {
            InsertError::Overlapped => "overlapped tag: tag already in table"@,
            InsertError::Full => "tag table full"@,
        },
{
}

/// Fixed-format sense data, byte by byte: 0x70, the lower four bits of the key, ten bytes
/// more behind byte 7, the two codes, and nothing else.
pub proof fn fixed_sense_answers(key: u8, asc: u8, ascq: u8, sense: [u8; FIXED_SENSE_LEN])
    requires
        call_ensures(fixed_sense, (key, asc, ascq), sense),
    ensures
        sense@.len() == 18,
        sense@[0] == 0x70,
        sense@[2] < 16 && (key - sense@[2]) % 16 == 0,
        sense@[7] == 10,
        sense@[12] == asc,
        sense@[13] == ascq,
        forall|i: int|
            0 <= i < 18 && i != 0 && i != 2 && i != 7 && i != 12 && i != 13 ==> sense@[i] == 0,
{
}

/// A command is appended to a table that holds fewer than 32 and none with its tag. A
/// full table refuses it as such, and else one that holds the tag.
pub proof fn insert_answers(
    table: &mut TagTable,
    tag: u16,
    lun: u8,
    kind: ScsiCommand,
    r: Result<(), InsertError>,
)
    requires
        call_ensures(TagTable::insert, (table, tag, lun, kind), r),
        old(table)@.len() <= 32,
    ensures
        ({
            let queue = old(table)@;
            let used = exists|i: int| 0 <= i < queue.len() && (#[trigger] queue[i]).tag == tag;
            &&& queue.len() == 32 ==> r == Err::<(), InsertError>(InsertError::Full)
            &&& queue.len() < 32 && used ==> r == Err::<(), InsertError>(InsertError::Overlapped)
            &&& queue.len() < 32 && !used ==> r is Ok
            &&& r is Err ==> final(table)@ == queue
            &&& r is Ok ==> {
                &&& final(table)@.len() == queue.len() + 1
                &&& final(table)@[queue.len() as int].tag == tag
                &&& final(table)@[queue.len() as int].lun == lun
                &&& final(table)@[queue.len() as int].kind == kind
                &&& forall|i: int| 0 <= i < queue.len() ==> final(table)@[i] == queue[i]
            }
        }),
{
    crate::transport::tags::changes_command_by_command(old(table)@, TagSlot { tag, lun, kind });
}

/// The oldest command is the first one, and completion drops it and no other; clearing
/// drops all. The length is the number of commands.
pub proof fn queue_operations_answer<'a>(
    table: &'a TagTable,
    head: Option<&'a TagSlot>,
    len: usize,
    empty: bool,
    completed: &mut TagTable,
    cleared: &mut TagTable,
)
    requires
        call_ensures(TagTable::head, (table,), head),
        call_ensures(TagTable::len, (table,), len),
        call_ensures(TagTable::is_empty, (table,), empty),
        call_ensures(TagTable::complete_head, (completed,), ()),
        call_ensures(TagTable::clear, (cleared,), ()),
    ensures
        table@.len() == 0 ==> head is None,
        table@.len() > 0 ==> head == Some(&table@[0]),
        len == table@.len(),
        empty <==> table@.len() == 0,
        old(completed)@.len() > 0 ==> final(completed)@ == old(completed)@.skip(1),
        old(completed)@.len() == 0 ==> final(completed)@.len() == 0,
        final(cleared)@.len() == 0,
{
}

/// The hint is the first Read behind the oldest command: its block address, cut to 32
/// bits, and its block count.
pub proof fn next_read_after_head_answers(
    table: &TagTable,
    hint: Option<(u32, u32)>,
    at: int,
    lba: u64,
    len: u32,
)
    requires
        call_ensures(TagTable::next_read_after_head, (table,), hint),
    ensures
        1 <= at < table@.len() && table@[at].kind == (ScsiCommand::Read { lba, len }) && (forall|
            i: int,
        |
            1 <= i < at ==> !((#[trigger] table@[i]).kind is Read)) ==> hint is Some && (hint->0).0
            == lba % 0x1_0000_0000 && (hint->0).1 == len,
        (forall|i: int| 1 <= i < table@.len() ==> !((#[trigger] table@[i]).kind is Read))
            ==> hint is None,
{
    crate::transport::tags::hint_is_the_first_read(table@, 1);
}

} // verus!

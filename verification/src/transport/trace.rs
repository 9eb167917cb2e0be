//! What the Bulk Only Transport promises of whole histories

use crate::transport::cbw::CbwView;
use crate::transport::model::{BulkOnlyError, BulkOnlyView, State};
use crate::transport::{CommandStatus, TransportError};
use crate::usb::{EndpointAddress, UsbError};
use vstd::prelude::*;

verus! {

/// Something that happens to a transport
#[allow(inconsistent_fields)]
pub enum Event {
    /// [`read`](crate::transport::bbb::BulkOnly::read)
    Read,
    /// [`packet_read`](crate::transport::bbb::BulkOnly::packet_read)
    PacketRead { outcome: Result<Seq<u8>, UsbError> },
    /// [`write`](crate::transport::bbb::BulkOnly::write)
    Write,
    /// [`packet_written`](crate::transport::bbb::BulkOnly::packet_written)
    PacketWritten { outcome: Result<usize, UsbError> },
    /// [`check_end_data_transfer`](crate::transport::bbb::BulkOnly::check_end_data_transfer)
    CheckEnd,
    /// [`finish_data_transfer_phase`](crate::transport::bbb::BulkOnly::finish_data_transfer_phase)
    Finish,
    /// [`halt_cleared`](crate::transport::bbb::BulkOnly::halt_cleared)
    HaltCleared,
    /// [`reset`](crate::transport::bbb::BulkOnly::reset)
    Reset,
    /// [`set_status`](crate::transport::bbb::BulkOnly::set_status)
    Status { status: CommandStatus },
    /// [`read_data`](crate::transport::bbb::BulkOnly::read_data)
    DataRead { dst: Seq<u8> },
    /// [`write_data`](crate::transport::bbb::BulkOnly::write_data)
    DataWritten { src: Seq<u8> },
    /// [`try_write_data_all`](crate::transport::bbb::BulkOnly::try_write_data_all)
    AllDataWritten { src: Seq<u8> },
    /// [`transfer_submitted`](crate::transport::bbb::BulkOnly::transfer_submitted)
    TransferSubmitted { outcome: Result<(), UsbError> },
    /// [`transfer_polled`](crate::transport::bbb::BulkOnly::transfer_polled)
    TransferPolled { outcome: Option<Result<usize, UsbError>> },
    /// [`pipelined_submitted`](crate::transport::bbb::BulkOnly::pipelined_submitted)
    PipelinedSubmitted { outcome: Result<(), UsbError> },
    /// [`pipelined_polled`](crate::transport::bbb::BulkOnly::pipelined_polled)
    PipelinedPolled { outcome: Option<Result<usize, UsbError>> },
}

/// Whether `event` can happen to a transport in state `m`
pub open spec fn possible(m: BulkOnlyView, event: Event) -> bool {
    match event {
        Event::PacketRead { outcome } => {
            &&& m.takes_packet()
            &&& outcome matches Ok(packet) ==> packet.len() <= m.packet_size
        },
        Event::PacketWritten { outcome } => {
            &&& m.offers_packet()
            &&& outcome matches Ok(count) ==> count <= m.next_packet().len()
        },
        Event::HaltCleared => m.state == State::StatusTransferEpStall,
        Event::Status { .. } => m.state.is_data(),
        Event::TransferSubmitted { .. } => {
            &&& m.state == State::DataTransferToHost || m.state == State::DataTransferFromHost
            &&& !m.transfer_in_flight
        },
        Event::TransferPolled { .. } => m.transfer_in_flight,
        Event::PipelinedSubmitted { .. } | Event::PipelinedPolled { .. } => m.state
            == State::DataTransferToHost,
        _ => true,
    }
}

/// The state that `event` leads to
pub open spec fn after(m: BulkOnlyView, event: Event) -> BulkOnlyView {
    match event {
        Event::Read => m.read_step().0,
        Event::PacketRead { outcome } => m.packet_read_step(outcome).0,
        Event::Write => m.write_step().0,
        Event::PacketWritten { outcome } => m.packet_written_step(outcome).0,
        Event::CheckEnd => m.checked_end().0,
        Event::Finish => m.transfer_checked_end().0,
        Event::HaltCleared => m.halt_cleared_step().0,
        Event::Reset => m.after_reset(),
        Event::Status { status } => m.with_status(status),
        Event::DataRead { dst } => m.data_read(dst).0,
        Event::DataWritten { src } => m.data_written(src).0,
        Event::AllDataWritten { src } => m.all_data_written(src).0,
        Event::TransferSubmitted { outcome } => m.transfer_submitted(outcome).0,
        Event::TransferPolled { outcome } => m.transfer_polled(outcome).0,
        Event::PipelinedSubmitted { outcome } => m.pipelined_submitted(outcome).0,
        Event::PipelinedPolled { outcome } => m.pipelined_polled(outcome).0,
    }
}

/// The state after all of `events`
pub open spec fn after_all(m: BulkOnlyView, events: Seq<Event>) -> BulkOnlyView
    decreases events.len(),
{
    if events.len() == 0 {
        m
    } else {
        after(after_all(m, events.drop_last()), events.last())
    }
}

/// Whether each of `events` can happen after those before it
pub open spec fn all_possible(m: BulkOnlyView, events: Seq<Event>) -> bool
    decreases events.len(),
{
    events.len() > 0 ==> {
        &&& all_possible(m, events.drop_last())
        &&& possible(after_all(m, events.drop_last()), events.last())
    }
}

/// Whether a command is being executed or reported after each of `events`
pub open spec fn all_in_command(m: BulkOnlyView, events: Seq<Event>) -> bool
    decreases events.len(),
{
    &&& !after_all(m, events).state.is_waiting()
    &&& events.len() > 0 ==> all_in_command(m, events.drop_last())
}

/// No event breaks the invariant
proof fn event_keeps_the_invariant(m: BulkOnlyView, event: Event)
    requires
        m.inv(),
        possible(m, event),
    ensures
        after(m, event).inv(),
{
    crate::transport::laws::driving_keeps_the_invariant(m);
    crate::transport::laws::user_operations_keep_the_invariant(m);
}

/// A transport that was made with valid parameters is consistent at any time,
/// whatever the host, the endpoints and the user do.
pub proof fn every_reachable_state_is_consistent(
    packet_size: u16,
    max_lun: u8,
    capacity: usize,
    in_ep: EndpointAddress,
    out_ep: EndpointAddress,
    events: Seq<Event>,
)
    requires
        crate::transport::bbb::BulkOnly::config_error(packet_size, max_lun, capacity as nat) is None,
        all_possible(
            BulkOnlyView::initial(packet_size, max_lun, capacity as nat, in_ep, out_ep),
            events,
        ),
    ensures
        after_all(
            BulkOnlyView::initial(packet_size, max_lun, capacity as nat, in_ep, out_ep),
            events,
        ).inv(),
    decreases events.len(),
{
    if events.len() > 0 {
        every_reachable_state_is_consistent(
            packet_size,
            max_lun,
            capacity,
            in_ep,
            out_ep,
            events.drop_last(),
        );
        event_keeps_the_invariant(
            after_all(
                BulkOnlyView::initial(packet_size, max_lun, capacity as nat, in_ep, out_ep),
                events.drop_last(),
            ),
            events.last(),
        );
    }
}

/// No event changes which command is being executed
proof fn event_keeps_the_command(m: BulkOnlyView, event: Event)
    requires
        m.inv(),
        possible(m, event),
        !m.state.is_waiting(),
        !after(m, event).state.is_waiting(),
    ensures
        after(m, event).cbw == (CbwView {
            data_transfer_len: after(m, event).cbw.data_transfer_len,
            ..m.cbw
        }),
        after(m, event).residue() <= m.residue(),
        m.state.is_status() ==> {
            &&& after(m, event).state.is_status()
            &&& after(m, event).residue() == m.residue()
            &&& after(m, event).status == m.status
        },
{
}

/// From its CBW to the last byte of its CSW a command keeps its tag, its LUN and its
/// command block, and its residue never grows. Once its data phase is over, nothing
/// changes the residue and the status that the CSW reports.
pub proof fn a_command_keeps_its_identity(m: BulkOnlyView, events: Seq<Event>)
    requires
        m.inv(),
        all_possible(m, events),
        all_in_command(m, events),
    ensures
        ({
            let end = after_all(m, events);
            &&& end.inv()
            &&& end.cbw == (CbwView { data_transfer_len: end.cbw.data_transfer_len, ..m.cbw })
            &&& end.residue() <= m.residue()
            &&& m.state.is_status() ==> end.state.is_status() && end.residue() == m.residue()
                && end.status == m.status
        }),
    decreases events.len(),
{
    if events.len() > 0 {
        let init = events.drop_last();
        a_command_keeps_its_identity(m, init);
        reveal_with_fuel(all_in_command, 2);
        event_keeps_the_invariant(after_all(m, init), events.last());
        event_keeps_the_command(after_all(m, init), events.last());
    }
}

/// No event takes the status of a command away
proof fn event_keeps_the_status(m: BulkOnlyView, event: Event)
    requires
        m.inv(),
        possible(m, event),
        m.status is Some,
        !after(m, event).state.is_waiting(),
    ensures
        after(m, event).status is Some,
{
}

/// Once a command has a status, no data for the host is taken until the command ends,
/// whatever happens in between.
pub proof fn no_data_until_the_command_ends(m: BulkOnlyView, events: Seq<Event>, src: Seq<u8>)
    requires
        m.inv(),
        m.status is Some,
        all_possible(m, events),
        all_in_command(m, events),
    ensures
        ({
            let end = after_all(m, events);
            &&& end.inv()
            &&& end.status is Some
            &&& end.data_written(src) == (
                end,
                Err::<usize, TransportError<BulkOnlyError>>(
                    TransportError::Error(BulkOnlyError::InvalidState),
                ),
            )
            &&& end.all_data_written(src) == (
                end,
                Err::<(), TransportError<BulkOnlyError>>(
                    TransportError::Error(BulkOnlyError::InvalidState),
                ),
            )
        }),
    decreases events.len(),
{
    if events.len() > 0 {
        let init = events.drop_last();
        no_data_until_the_command_ends(m, init, src);
        event_keeps_the_invariant(after_all(m, init), events.last());
        event_keeps_the_status(after_all(m, init), events.last());
    }
}

} // verus!

//! What polling the SCSI subclass promises

use crate::subclass::poll::{Phase, PollNextView, PollStepView, ScsiView};
use crate::transport::cbw::{CbwView, DataDirection, CBW_LEN, CSW_LEN};
use crate::transport::model::{BulkOnlyError, BulkOnlyView, NextView, State, StepView};
use crate::transport::{CommandStatus, TransportError};
use crate::usb::{Effect, UsbError};
use vstd::prelude::*;

verus! {

/// Whether the poll step `step` asks for something that a class in state `m` can be
/// told the outcome of
pub open spec fn answerable(m: ScsiView, step: PollStepView) -> bool {
    match step.next {
        PollNextView::ReadPacket { max_len } => {
            &&& m.is_transferring()
            &&& m.transport.takes_packet()
            &&& max_len == m.transport.packet_size
        },
        PollNextView::WritePacket { packet } => {
            &&& m.is_transferring()
            &&& m.transport.offers_packet()
            &&& packet == m.transport.next_packet()
        },
        PollNextView::Callback { kind, lun } => {
            &&& m.phase == Phase::User
            &&& m.needs_user()
            &&& kind == crate::subclass::scsi::decoded(m.transport.cbw.block)
            &&& lun == m.transport.cbw.lun
        },
        PollNextView::Done { result } => {
            &&& m.phase == Phase::Idle
            &&& result != Err::<(), UsbError>(UsbError::WouldBlock)
        },
    }
}

/// If the transport wants more data, the user has not set a status yet
spec fn wants_data_of_user(t: BulkOnlyView, step: StepView) -> bool {
    step.next == (NextView::Done {
        result: Err(TransportError::Error(BulkOnlyError::FullPacketExpected)),
    }) ==> t.state == State::DataTransferToHost && t.status is None
}

proof fn post_read_can_be_answered(m: ScsiView, t: BulkOnlyView, step: StepView)
    requires
        crate::transport::laws::answerable(t, step),
    ensures
        answerable(m.in_post_read(t, step).0, m.in_post_read(t, step).1),
{
}

proof fn post_write_can_be_answered(m: ScsiView, t: BulkOnlyView, step: StepView)
    requires
        t.inv(),
        crate::transport::laws::answerable(t, step),
        wants_data_of_user(t, step),
    ensures
        answerable(m.in_post_write(t, step).0, m.in_post_write(t, step).1),
{
    let next = ScsiView { transport: t, ..m };
    let (t2, step2) = next.post_read_start();
    crate::transport::laws::steps_can_be_answered(t);
    post_read_can_be_answered(
        next,
        t2,
        StepView { effects: step.effects + step2.effects, ..step2 },
    );
}

proof fn pre_write_can_be_answered(m: ScsiView, t: BulkOnlyView, step: StepView)
    requires
        crate::transport::laws::answerable(t, step),
    ensures
        answerable(m.in_pre_write(t, step).0, m.in_pre_write(t, step).1),
{
}

proof fn pre_read_can_be_answered(m: ScsiView, t: BulkOnlyView, step: StepView)
    requires
        t.inv(),
        crate::transport::laws::answerable(t, step),
    ensures
        answerable(m.in_pre_read(t, step).0, m.in_pre_read(t, step).1),
{
    let (t2, step2) = t.write_step();
    crate::transport::laws::steps_can_be_answered(t);
    pre_write_can_be_answered(
        ScsiView { transport: t, ..m },
        t2,
        StepView { effects: step.effects + step2.effects, ..step2 },
    );
}

proof fn continuation_can_be_answered(m: ScsiView, t: BulkOnlyView, step: StepView)
    requires
        m.is_transferring(),
        t.inv(),
        crate::transport::laws::answerable(t, step),
        wants_data_of_user(t, step),
    ensures
        answerable(m.continued(t, step).0, m.continued(t, step).1),
{
    match m.phase {
        Phase::PreRead => pre_read_can_be_answered(m, t, step),
        Phase::PreWrite => pre_write_can_be_answered(m, t, step),
        Phase::PostWrite => post_write_can_be_answered(m, t, step),
        _ => post_read_can_be_answered(m, t, step),
    }
}

/// Whatever the first step of a poll asks for, the class then takes the outcome. The
/// user is only asked to process a command that has no status yet, and is told which
/// one it is. An error that ends a poll is never [`UsbError::WouldBlock`].
pub proof fn start_of_poll_can_be_answered(m: ScsiView, transfers: bool)
    requires
        m.inv(),
    ensures
        answerable(m.poll_step(transfers).0, m.poll_step(transfers).1),
{
    crate::transport::laws::steps_can_be_answered(m.transport);
    crate::transport::laws::driving_keeps_the_invariant(m.transport);
    let (t, step) = if transfers && m.transport.out_transfer_phase() {
        (m.transport, StepView::done(Ok(())))
    } else {
        m.transport.read_step()
    };
    pre_read_can_be_answered(ScsiView { transfers, ..m }, t, step);
}

/// The same holds of the step that follows a packet from the host.
pub proof fn step_after_read_can_be_answered(m: ScsiView, outcome: Result<Seq<u8>, UsbError>)
    requires
        m.inv(),
        m.is_transferring(),
        m.transport.takes_packet(),
        outcome matches Ok(packet) ==> packet.len() <= m.transport.packet_size,
    ensures
        answerable(m.packet_read_step(outcome).0, m.packet_read_step(outcome).1),
{
    crate::transport::laws::steps_can_be_answered(m.transport);
    crate::transport::laws::driving_keeps_the_invariant(m.transport);
    let (t, step) = m.transport.packet_read_step(outcome);
    continuation_can_be_answered(m, t, step);
}

/// The same holds of the step that follows a packet to the host.
pub proof fn step_after_write_can_be_answered(m: ScsiView, outcome: Result<usize, UsbError>)
    requires
        m.inv(),
        m.is_transferring(),
        m.transport.offers_packet(),
        outcome matches Ok(count) ==> count <= m.transport.next_packet().len(),
    ensures
        answerable(m.packet_written_step(outcome).0, m.packet_written_step(outcome).1),
{
    crate::transport::laws::steps_can_be_answered(m.transport);
    crate::transport::laws::driving_keeps_the_invariant(m.transport);
    let (t, step) = m.transport.packet_written_step(outcome);
    continuation_can_be_answered(m, t, step);
}

/// The same holds of the step that follows the user action.
pub proof fn step_after_user_can_be_answered(m: ScsiView)
    requires
        m.inv(),
        m.phase == Phase::User,
    ensures
        answerable(m.callback_done_step().0, m.callback_done_step().1),
{
    crate::transport::laws::steps_can_be_answered(m.transport);
    crate::transport::laws::driving_keeps_the_invariant(m.transport);
    let (t, step) = m.transport.write_step();
    post_write_can_be_answered(m, t, step);
}

/// A bound on the endpoint operations that a poll needs before it ends or asks the
/// user, when `next` is what it needs now
pub open spec fn operations_left(m: ScsiView, next: PollNextView) -> nat {
    let phases_left: nat = match m.phase {
        Phase::PreRead => 3,
        Phase::PreWrite => 2,
        Phase::PostWrite => 1,
        _ => 0,
    };
    match next {
        PollNextView::ReadPacket { .. } => 3 * phases_left + 3,
        PollNextView::WritePacket { .. } => if m.transport.state == State::StatusTransfer {
            3 * phases_left + 1
        } else {
            3 * phases_left + 2
        },
        _ => 0,
    }
}

/// A poll ends or asks the user after a bounded number of endpoint operations,
/// whatever the endpoints do: every outcome of one leaves fewer of them.
pub proof fn polls_come_to_an_end(
    m: ScsiView,
    read: Result<Seq<u8>, UsbError>,
    written: Result<usize, UsbError>,
)
    requires
        m.inv(),
        m.is_transferring(),
    ensures
        m.transport.takes_packet() ==> operations_left(
            m.packet_read_step(read).0,
            m.packet_read_step(read).1.next,
        ) < operations_left(m, PollNextView::ReadPacket { max_len: 0 }),
        m.transport.offers_packet() ==> operations_left(
            m.packet_written_step(written).0,
            m.packet_written_step(written).1.next,
        ) < operations_left(m, PollNextView::WritePacket { packet: Seq::empty() }),
{
    if m.transport.takes_packet() {
        let (t, step) = m.transport.packet_read_step(read);
        assert(step.next is WritePacket ==> t.state == State::StatusTransfer);
        assert(!(step.next is ReadPacket));
        continuation_comes_to_an_end(m, t, step, 3);
    }
    if m.transport.offers_packet() {
        let (t, step) = m.transport.packet_written_step(written);
        assert(!(step.next is ReadPacket));
        if m.transport.state == State::StatusTransfer {
            assert(step.next is Done);
            continuation_comes_to_an_end(m, t, step, 1);
        } else {
            assert(step.next is WritePacket ==> t.state == State::StatusTransfer);
            continuation_comes_to_an_end(m, t, step, 2);
        }
    }
}

/// A step of the transport that ended, or that needs less than `budget` in the same
/// phase, brings the poll forward
proof fn continuation_comes_to_an_end(m: ScsiView, t: BulkOnlyView, step: StepView, budget: nat)
    requires
        m.is_transferring(),
        1 <= budget <= 3,
        !(step.next is ReadPacket),
        step.next is WritePacket ==> budget > 1 && t.state == State::StatusTransfer,
    ensures
        operations_left(m.continued(t, step).0, m.continued(t, step).1.next) < match m.phase {
            Phase::PreRead => 9 + budget,
            Phase::PreWrite => 6 + budget,
            Phase::PostWrite => 3 + budget,
            _ => budget,
        },
{
}

/// While the user drives the data phase from the host by a transfer, a poll with
/// transfers never reads a packet: none of the host's data ends up in the wrong
/// buffer.
pub proof fn no_packet_is_read_during_a_transfer(m: ScsiView)
    requires
        m.inv(),
        m.transport.out_transfer_phase(),
    ensures
        !(m.poll_step(true).1.next is ReadPacket),
        m.transfers && m.phase == Phase::User ==> !(m.callback_done_step().1.next is ReadPacket),
{
}

/// While a transfer from the host is in flight, a poll with transfers neither ends the
/// data phase nor sends anything, whatever status the user gave the command.
pub proof fn poll_waits_for_the_transfer(m: ScsiView)
    requires
        m.inv(),
        m.transport.out_transfer_phase(),
        m.transport.transfer_in_flight,
    ensures
        m.phase == Phase::User && m.transfers ==> m.callback_done_step() == m.over(
            Seq::empty(),
            Ok(()),
        ),
        m.transport.status is Some ==> m.poll_step(true) == (ScsiView {
            transfers: true,
            ..m
        }).over(Seq::empty(), Ok(())),
{
    assert(Seq::<Effect>::empty() + Seq::<Effect>::empty() =~= Seq::<Effect>::empty());
}

/// A command without a status is handed to the user: no poll ends well before that.
/// Before the user action an outcome of an endpoint leads to the user, to the next
/// endpoint operation or to a genuine USB error.
pub proof fn waiting_command_is_handed_to_the_user(
    m: ScsiView,
    transfers: bool,
    read: Result<Seq<u8>, UsbError>,
    written: Result<usize, UsbError>,
)
    requires
        m.inv(),
        m.needs_user(),
    ensures
        !(m.poll_step(transfers).1.next is Done),
        (m.phase == Phase::PreRead || m.phase == Phase::PreWrite) && m.transport.takes_packet()
            ==> leads_to_user(m.packet_read_step(read).1),
        (m.phase == Phase::PreRead || m.phase == Phase::PreWrite) && m.transport.offers_packet()
            ==> leads_to_user(m.packet_written_step(written).1),
{
}

/// Whether a poll after `step` has not ended, or has ended with an error
pub open spec fn leads_to_user(step: PollStepView) -> bool {
    step.next matches PollNextView::Done { result } ==> result is Err
}

/// A user who leaves the transport short of a full packet is asked for more data, in
/// the same poll and with the same command.
pub proof fn user_is_asked_again_for_a_full_packet(m: ScsiView)
    requires
        m.inv(),
        m.phase == Phase::User,
        m.transport.state == State::DataTransferToHost,
        !m.transport.transfer_phase,
        m.transport.lacks_full_packet(),
    ensures
        m.callback_done_step().0 == m,
        m.callback_done_step().1 == (PollStepView {
            effects: Seq::empty(),
            next: PollNextView::Callback {
                kind: crate::subclass::scsi::decoded(m.transport.cbw.block),
                lun: m.transport.cbw.lun,
            },
        }),
{
}

/// A user whose transfer to the host the bus refused is not asked again in the same
/// poll.
pub proof fn refused_transfer_ends_the_poll(m: ScsiView, e: UsbError)
    requires
        m.inv(),
        m.phase == Phase::User,
        m.transport.accepts_data(),
    ensures
        ({
            let refused = ScsiView { transport: m.transport.transfer_submitted(Err(e)).0, ..m };
            &&& refused.callback_done_step().1 == (PollStepView {
                effects: Seq::empty(),
                next: PollNextView::Done { result: Ok(()) },
            })
            &&& refused.callback_done_step().0.transport == refused.transport
        }),
{
    let refused = ScsiView { transport: m.transport.transfer_submitted(Err(e)).0, ..m };
    assert(Seq::<Effect>::empty() + Seq::<Effect>::empty() =~= Seq::<Effect>::empty());
}

/// A command that the user has given a status is not handed to the user again: a
/// poll only asks for commands without one.
pub proof fn no_user_action_after_the_status(m: ScsiView, transfers: bool)
    requires
        m.inv(),
        m.transport.status is Some,
    ensures
        !(m.poll_step(transfers).1.next is Callback),
{
    start_of_poll_can_be_answered(m, transfers);
}

/// A poll that finds nothing to read or write, and no command, ends without doing
/// anything.
pub proof fn idle_poll_does_nothing(m: ScsiView, transfers: bool)
    requires
        m.inv(),
        m.transport.state == State::Idle,
    ensures
        ({
            let (asked, step) = m.poll_step(transfers);
            let (after, end) = asked.packet_read_step(Err(UsbError::WouldBlock));
            &&& step.next == (PollNextView::ReadPacket {
                max_len: m.transport.packet_size as nat,
            })
            &&& end == (PollStepView {
                effects: Seq::empty(),
                next: PollNextView::Done { result: Ok(()) },
            })
            &&& after == (ScsiView { phase: Phase::Idle, transfers, ..m })
        }),
{
    assert(Seq::<Effect>::empty() + Seq::<Effect>::empty() =~= Seq::<Effect>::empty());
}

/// One poll is enough for a command without data: the CBW is read, the user is asked
/// to process the command block in it, and the CSW with the tag of the CBW and the
/// status that the user gave goes out. The transport is then idle again.
pub proof fn command_without_data_takes_one_poll(
    m: ScsiView,
    transfers: bool,
    raw: Seq<u8>,
    cbw: CbwView,
    status: CommandStatus,
)
    requires
        m.inv(),
        m.transport.state == State::Idle,
        m.transport.packet_size >= CBW_LEN,
        raw.len() == CBW_LEN,
        crate::transport::cbw::parsed_cbw(raw) == Some(cbw),
        cbw.direction == DataDirection::NotExpected,
    ensures
        ({
            let (reading, read) = m.poll_step(transfers);
            let (asking, ask) = reading.packet_read_step(Ok(raw));
            let answered = ScsiView { transport: asking.transport.with_status(status), ..asking };
            let (writing, write) = answered.callback_done_step();
            let (written, after) = writing.packet_written_step(Ok(CSW_LEN));
            &&& read.next is ReadPacket
            &&& ask == (PollStepView {
                effects: Seq::empty(),
                next: PollNextView::Callback {
                    kind: crate::subclass::scsi::decoded(cbw.block),
                    lun: cbw.lun,
                },
            })
            &&& write == (PollStepView {
                effects: Seq::empty(),
                next: PollNextView::WritePacket {
                    packet: crate::transport::cbw::csw_bytes(cbw.tag, 0, status),
                },
            })
            &&& written.transport == m.transport.after_reset()
            &&& after.next is ReadPacket
        }),
{
    let (reading, read) = m.poll_step(transfers);
    assert(reading.transport == m.transport);
    assert(m.transport.buffered + raw =~= raw);
    assert(raw.take(CBW_LEN as int) =~= raw);
    assert(raw.skip(CBW_LEN as int) =~= Seq::empty());
    assert(Seq::<Effect>::empty() + Seq::<Effect>::empty() =~= Seq::<Effect>::empty());
    let (asking, ask) = reading.packet_read_step(Ok(raw));
    let started = (BulkOnlyView { buffered: Seq::empty(), ..m.transport }).started(cbw);
    assert(asking.transport == started);
    let answered = ScsiView { transport: started.with_status(status), ..asking };
    crate::transport::cbw::csw_carries_tag_residue_and_status(cbw.tag, 0, status);
    let (writing, write) = answered.callback_done_step();
    let csw = crate::transport::cbw::csw_bytes(cbw.tag, 0, status);
    assert(writing.transport.buffered == csw);
    assert(csw.skip(CSW_LEN as int) =~= Seq::empty());
    assert(writing.transport.packet_written_step(Ok(CSW_LEN)).0 =~= m.transport.after_reset());
}

} // verus!

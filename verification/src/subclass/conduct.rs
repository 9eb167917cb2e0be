//! The conduct of a poll, case by case: what each outcome of the transport leads to
//!
//! The laws here speak of phases, results and effects. What the transport itself does
//! is the matter of [`crate::transport::wire`].

use crate::subclass::poll::{Phase, PollNextView, PollStepView, ScsiView};
use crate::subclass::scsi::{PollNext, PollStep, Scsi, ScsiCommand};
use crate::subclass::scsi_uas::ScsiUasView;
use crate::subclass::Command;
use crate::transport::bbb::BulkOnly;
use crate::transport::model::{
    BulkOnlyError, BulkOnlyTransportResult, BulkOnlyView, NextView, State, StepView,
};
use crate::transport::TransportError;
use crate::usb::{Descriptor, Effect, InterfaceNumber, Pipe, UsbError};
use vstd::prelude::*;

verus! {

/// Whether a poll goes on after `result`: it is no USB error, or says that the endpoint
/// is not ready
pub open spec fn goes_on(result: BulkOnlyTransportResult<()>) -> bool {
    match result {
        Ok(_) => true,
        Err(TransportError::Error(_)) => true,
        Err(TransportError::Usb(e)) => e == UsbError::WouldBlock,
    }
}

/// Whether the class came from `m` to the end of the poll, with the transport in state `t`
pub open spec fn ends(
    after: (ScsiView, PollStepView),
    m: ScsiView,
    t: BulkOnlyView,
    effects: Seq<Effect>,
    result: Result<(), UsbError>,
) -> bool {
    &&& after.0.phase == Phase::Idle
    &&& after.0.transport == t
    &&& after.0.interface == m.interface
    &&& after.0.transfers == m.transfers
    &&& after.1.effects == effects
    &&& after.1.next == (PollNextView::Done { result })
}

/// Whether the class came from `m` to asking the user, with the transport in state `t`
pub open spec fn asks(
    after: (ScsiView, PollStepView),
    m: ScsiView,
    t: BulkOnlyView,
    effects: Seq<Effect>,
) -> bool {
    &&& after.0.phase == Phase::User
    &&& after.0.transport == t
    &&& after.0.interface == m.interface
    &&& after.0.transfers == m.transfers
    &&& after.1.effects == effects
    &&& after.1.next == (PollNextView::Callback {
        kind: crate::subclass::scsi::decoded(t.cbw.block),
        lun: t.cbw.lun,
    })
}

/// Whether the class came from `m` to the endpoint operation of `step` in `phase`, with
/// the transport in state `t`
pub open spec fn operates(
    after: (ScsiView, PollStepView),
    m: ScsiView,
    t: BulkOnlyView,
    phase: Phase,
    step: StepView,
) -> bool {
    &&& after.0.phase == phase
    &&& after.0.transport == t
    &&& after.0.interface == m.interface
    &&& after.0.transfers == m.transfers
    &&& after.1.effects == step.effects
    &&& step.next matches NextView::ReadPacket { max_len } ==> after.1.next == (
    PollNextView::ReadPacket { max_len })
    &&& step.next matches NextView::WritePacket { packet } ==> after.1.next == (
    PollNextView::WritePacket { packet })
}

/// Of the results of the transport only a USB error other than
/// [`UsbError::WouldBlock`] is one of the poll.
pub proof fn only_usb_errors_end_a_poll<T>(value: T, error: BulkOnlyError, e: UsbError)
    ensures
        crate::subclass::poll::ignored(Ok::<T, TransportError<BulkOnlyError>>(value)) == Ok::<
            (),
            UsbError,
        >(()),
        crate::subclass::poll::ignored(
            Err::<T, TransportError<BulkOnlyError>>(TransportError::Error(error)),
        ) == Ok::<(), UsbError>(()),
        e == UsbError::WouldBlock ==> crate::subclass::poll::ignored(
            Err::<T, TransportError<BulkOnlyError>>(TransportError::Usb(e)),
        ) == Ok::<(), UsbError>(()),
        e != UsbError::WouldBlock ==> crate::subclass::poll::ignored(
            Err::<T, TransportError<BulkOnlyError>>(TransportError::Usb(e)),
        ) == Err::<(), UsbError>(e),
{
}

/// The reading after the user action is the last of a poll: its endpoint operations are
/// passed on, and with its end the poll ends.
pub proof fn conduct_of_the_last_reading(m: ScsiView, t: BulkOnlyView, step: StepView, e: UsbError)
    ensures
        ({
            let after = m.in_post_read(t, step);
            &&& !(step.next is Done) ==> operates(after, m, t, Phase::PostRead, step)
            &&& step.next is Done && goes_on(step.next->result) ==> ends(
                after,
                m,
                t,
                step.effects,
                Ok(()),
            )
            &&& step.next == (NextView::Done { result: Err(TransportError::Usb(e)) }) && e
                != UsbError::WouldBlock ==> ends(after, m, t, step.effects, Err(e))
        }),
{
}

/// The writing before the user action: its endpoint operations are passed on. With its
/// end the user is asked, exactly if there is a command without a status; else the poll
/// ends.
pub proof fn conduct_of_the_first_writing(
    m: ScsiView,
    t: BulkOnlyView,
    step: StepView,
    e: UsbError,
)
    ensures
        ({
            let after = m.in_pre_write(t, step);
            let has_command = t.state != State::Idle && t.state != State::CommandTransfer;
            &&& !(step.next is Done) ==> operates(after, m, t, Phase::PreWrite, step)
            &&& step.next is Done && goes_on(step.next->result) && has_command && t.status is None
                ==> asks(after, m, t, step.effects)
            &&& step.next is Done && goes_on(step.next->result) && !(has_command && t.status
                is None) ==> ends(after, m, t, step.effects, Ok(()))
            &&& step.next == (NextView::Done { result: Err(TransportError::Usb(e)) }) && e
                != UsbError::WouldBlock ==> ends(after, m, t, step.effects, Err(e))
        }),
{
}

/// The reading before the user action: its endpoint operations are passed on. With its
/// end a packet is written, and the effects of both come in this order.
pub proof fn conduct_of_the_first_reading(
    m: ScsiView,
    t: BulkOnlyView,
    step: StepView,
    e: UsbError,
)
    ensures
        ({
            let after = m.in_pre_read(t, step);
            let (written, write) = t.write_step();
            &&& !(step.next is Done) ==> operates(after, m, t, Phase::PreRead, step)
            &&& step.next is Done && goes_on(step.next->result) ==> after == m.in_pre_write(
                written,
                (StepView { effects: step.effects + write.effects, next: write.next }),
            )
            &&& step.next == (NextView::Done { result: Err(TransportError::Usb(e)) }) && e
                != UsbError::WouldBlock ==> ends(after, m, t, step.effects, Err(e))
        }),
{
}

/// The writing after the user action: its endpoint operations are passed on. If it wants
/// a full packet, the user is asked again. Else, with its end, a packet is read; or, in
/// a poll with transfers while the user reads by transfers, the data phase ends if no
/// transfer is in flight.
pub proof fn conduct_of_the_last_writing(m: ScsiView, t: BulkOnlyView, step: StepView, e: UsbError)
    ensures
        ({
            let after = m.in_post_write(t, step);
            let by_transfer = m.transfers && t.state == State::DataTransferFromHost
                && t.transfer_phase;
            let more = Err::<(), TransportError<BulkOnlyError>>(
                TransportError::Error(BulkOnlyError::FullPacketExpected),
            );
            let over = step.next is Done && goes_on(step.next->result) && step.next->result != more;
            let (read, reading) = t.read_step();
            let (ended, ending) = t.checked_end();
            &&& !(step.next is Done) ==> operates(after, m, t, Phase::PostWrite, step)
            &&& step.next == (NextView::Done { result: more }) ==> asks(after, m, t, step.effects)
            &&& over && !by_transfer ==> after == m.in_post_read(
                read,
                (StepView { effects: step.effects + reading.effects, next: reading.next }),
            )
            &&& over && by_transfer && !t.transfer_in_flight ==> after == m.in_post_read(
                ended,
                (StepView { effects: step.effects + ending.effects, next: ending.next }),
            )
            &&& over && by_transfer && t.transfer_in_flight ==> ends(
                after,
                m,
                t,
                step.effects,
                Ok(()),
            )
            &&& step.next == (NextView::Done { result: Err(TransportError::Usb(e)) }) && e
                != UsbError::WouldBlock ==> ends(after, m, t, step.effects, Err(e))
        }),
{
    assert(step.effects + Seq::<Effect>::empty() =~= step.effects);
}

/// A poll starts with reading a packet; a poll with transfers leaves that out while the
/// user reads by transfers.
pub proof fn start_of_a_poll(m: ScsiView)
    ensures
        m.poll_step(false) == (ScsiView { transfers: false, ..m }).in_pre_read(
            m.transport.read_step().0,
            m.transport.read_step().1,
        ),
        !(m.transport.state == State::DataTransferFromHost && m.transport.transfer_phase)
            ==> m.poll_step(true) == (ScsiView { transfers: true, ..m }).in_pre_read(
            m.transport.read_step().0,
            m.transport.read_step().1,
        ),
        m.transport.state == State::DataTransferFromHost && m.transport.transfer_phase
            ==> m.poll_step(true) == (ScsiView { transfers: true, ..m }).in_pre_read(
            m.transport,
            (StepView { effects: Seq::empty(), next: NextView::Done { result: Ok(()) } }),
        ),
{
}

/// The outcome of an endpoint operation goes to the transport, and the poll goes on in
/// the phase that asked for it. After the user action comes a writing.
pub proof fn outcomes_go_to_their_phase(
    m: ScsiView,
    read: Result<Seq<u8>, UsbError>,
    written: Result<usize, UsbError>,
)
    ensures
        m.is_transferring() <==> m.phase == Phase::PreRead || m.phase == Phase::PreWrite || m.phase
            == Phase::PostWrite || m.phase == Phase::PostRead,
        ({
            let (t, step) = m.transport.packet_read_step(read);
            &&& m.phase == Phase::PreRead ==> m.packet_read_step(read) == m.in_pre_read(t, step)
            &&& m.phase == Phase::PreWrite ==> m.packet_read_step(read) == m.in_pre_write(t, step)
            &&& m.phase == Phase::PostWrite ==> m.packet_read_step(read) == m.in_post_write(t, step)
            &&& m.phase == Phase::PostRead ==> m.packet_read_step(read) == m.in_post_read(t, step)
        }),
        ({
            let (t, step) = m.transport.packet_written_step(written);
            &&& m.phase == Phase::PreRead ==> m.packet_written_step(written) == m.in_pre_read(
                t,
                step,
            )
            &&& m.phase == Phase::PreWrite ==> m.packet_written_step(written) == m.in_pre_write(
                t,
                step,
            )
            &&& m.phase == Phase::PostWrite ==> m.packet_written_step(written) == m.in_post_write(
                t,
                step,
            )
            &&& m.phase == Phase::PostRead ==> m.packet_written_step(written) == m.in_post_read(
                t,
                step,
            )
        }),
        m.callback_done_step() == m.in_post_write(
            m.transport.write_step().0,
            m.transport.write_step().1,
        ),
{
}

/// A reset of the bus leaves a blank transport and no poll; the interface stays.
pub proof fn reset_ends_the_poll(m: ScsiView)
    ensures
        crate::transport::wire::is_blank(m.after_reset().transport),
        crate::transport::wire::same_configuration(m.after_reset().transport, m.transport),
        !m.after_reset().transport.transfer_in_flight && !m.after_reset().transport.transfer_phase,
        m.after_reset().phase == Phase::Idle,
        m.after_reset().interface == m.interface,
        m.after_reset().transfers == m.transfers,
{
}

/// A command that comes as one packet reaches the user in the same poll, with the block
/// and the LUN that the host put into it: whatever it asks for and however much data it
/// announces.
pub proof fn command_reaches_the_user(
    m: ScsiView,
    tag: u32,
    n: u32,
    flags: u8,
    lun: u8,
    block: Seq<u8>,
    padding: Seq<u8>,
)
    requires
        m.phase == Phase::PreRead,
        m.transport.state == State::Idle,
        m.transport.buffered.len() == 0,
        m.transport.status is None,
        !m.transport.transfer_phase,
        m.transport.packet_size > 0,
        lun < 16,
        1 <= block.len() <= 16,
        block.len() + padding.len() == 16,
    ensures
        ({
            let raw = crate::transport::cbw::cbw_bytes(tag, n, flags, lun, block, padding);
            let (after, step) = m.packet_read_step(Ok(raw));
            &&& after.phase == Phase::User
            &&& after.transport.cbw.tag == tag
            &&& after.transport.cbw.data_transfer_len == n
            &&& after.transport.cbw.block == block
            &&& step.effects.len() == 0
            &&& step.next == (PollNextView::Callback {
                kind: crate::subclass::scsi::decoded(block),
                lun,
            })
        }),
{
    let raw = crate::transport::cbw::cbw_bytes(tag, n, flags, lun, block, padding);
    crate::transport::wire::cbw_bytes_on_the_wire(tag, n, flags, lun, block, padding);
    assert((m.transport.buffered + raw).take(31) =~= raw);
    crate::transport::wire::cbw_starts_its_data_phase(m.transport, raw);
    let t = m.transport.packet_read_step(Ok(raw)).0;
    assert(t.cbw.block =~= block);
    assert(t.buffered.len() == 0);
    assert(Seq::<Effect>::empty() + Seq::<Effect>::empty() =~= Seq::<Effect>::empty());
}

/// A step of a poll says what it holds.
pub proof fn poll_steps_say_what_they_hold(step: PollStep)
    ensures
        step@.effects == step.effects@,
        match step.next {
            PollNext::ReadPacket { max_len } => step@.next == (PollNextView::ReadPacket {
                max_len: max_len as nat,
            }),
            PollNext::WritePacket { packet } => step@.next == (PollNextView::WritePacket {
                packet: packet@,
            }),
            PollNext::Callback { kind, lun } => step@.next == (PollNextView::Callback {
                kind,
                lun,
            }),
            PollNext::Done { result } => step@.next == (PollNextView::Done { result }),
        },
{
}

/// What the user does with a command concerns the transport alone: the command stays the
/// one it was, and the class goes on waiting for the user.
pub proof fn command_stays_the_same<'a>(
    now: Command<'a, ScsiCommand, Scsi<BulkOnly>>,
    before: Command<'a, ScsiCommand, Scsi<BulkOnly>>,
)
    requires
        now.continues(before),
    ensures
        now.spec_kind() == before.spec_kind(),
        now.spec_lun() == before.spec_lun(),
        now.transport() == (*now.borrowed())@.transport,
        (*now.borrowed()).wf(),
        (*now.borrowed())@.phase == Phase::User,
        (*now.borrowed())@.phase == (*before.borrowed())@.phase,
        (*now.borrowed())@.interface == (*before.borrowed())@.interface,
        (*now.borrowed())@.transfers == (*before.borrowed())@.transfers,
{
}

/// Switching to a setting makes it the active one, blanks the transport, ends the poll,
/// clears both halts and resets the engine; the interface stays.
pub proof fn switch_resets_both_settings(m: ScsiUasView, alt: u8)
    ensures
        m.switched(alt).active_alt == alt,
        crate::transport::wire::is_blank(m.switched(alt).inner.transport),
        crate::transport::wire::same_configuration(
            m.switched(alt).inner.transport,
            m.inner.transport,
        ),
        !m.switched(alt).inner.transport.transfer_in_flight,
        !m.switched(alt).inner.transport.transfer_phase,
        m.switched(alt).inner.phase == Phase::Idle,
        m.switched(alt).inner.interface == m.inner.interface,
        m.switched(alt).inner.transfers == m.inner.transfers,
        crate::subclass::scsi_uas::switch_effects().len() == 3,
        crate::subclass::scsi_uas::switch_effects()[0] == Effect::UnstallIn,
        crate::subclass::scsi_uas::switch_effects()[1] == Effect::UnstallOut,
        crate::subclass::scsi_uas::switch_effects()[2] == Effect::ResetUas,
{
}

/// The descriptors one by one. Setting 0 has the class 0x08, the subclass 0x06, the
/// protocol 0x50 and the two data pipes; setting 1 has the protocol 0x62 and all four
/// pipes, each followed by its number.
pub proof fn descriptors_one_by_one(interface: InterfaceNumber)
    ensures
        ({
            let d = crate::subclass::scsi::bulk_only_descriptors(interface);
            &&& d.len() == 4
            &&& d[0] == (Descriptor::Association {
                first: interface,
                count: 1,
                class: 0x08,
                subclass: 0x06,
                protocol: 0x50,
            })
            &&& d[1] == (Descriptor::Interface {
                number: interface,
                alternate: 0,
                class: 0x08,
                subclass: 0x06,
                protocol: 0x50,
            })
            &&& d[2] == (Descriptor::Endpoint { pipe: Pipe::DataIn })
            &&& d[3] == (Descriptor::Endpoint { pipe: Pipe::DataOut })
        }),
        ({
            let d = crate::subclass::scsi_uas::uas_descriptors(interface);
            &&& d.len() == 9
            &&& d[0] == (Descriptor::Interface {
                number: interface,
                alternate: 1,
                class: 0x08,
                subclass: 0x06,
                protocol: 0x62,
            })
            &&& d[1] == (Descriptor::Endpoint { pipe: Pipe::DataIn })
            &&& d[2] == (Descriptor::PipeUsage { id: 3 })
            &&& d[3] == (Descriptor::Endpoint { pipe: Pipe::DataOut })
            &&& d[4] == (Descriptor::PipeUsage { id: 4 })
            &&& d[5] == (Descriptor::Endpoint { pipe: Pipe::Status })
            &&& d[6] == (Descriptor::PipeUsage { id: 2 })
            &&& d[7] == (Descriptor::Endpoint { pipe: Pipe::Command })
            &&& d[8] == (Descriptor::PipeUsage { id: 1 })
        }),
{
}

} // verus!

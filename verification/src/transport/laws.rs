//! What the Bulk Only Transport promises across operations

use crate::transport::cbw::{CbwView, DataDirection, CBW_LEN, CSW_LEN};
use crate::transport::model::{BulkOnlyError, BulkOnlyView, NextView, State, StepView};
use crate::transport::{CommandStatus, TransportError};
use crate::usb::{Effect, Request, UsbError};
use vstd::prelude::*;

verus! {

/// Every operation that drives the transport keeps the invariant, whatever the
/// endpoints do.
pub proof fn driving_keeps_the_invariant(m: BulkOnlyView)
    requires
        m.inv(),
    ensures
        m.read_step().0.inv(),
        m.write_step().0.inv(),
        m.checked_end().0.inv(),
        m.transfer_checked_end().0.inv(),
        m.after_reset().inv(),
        m.takes_packet() ==> forall|p: Seq<u8>|
            p.len() <= m.packet_size ==> (#[trigger] m.packet_read_step(Ok(p))).0.inv(),
        forall|e: UsbError| (#[trigger] m.packet_read_step(Err(e))).0.inv(),
        m.offers_packet() ==> forall|n: usize|
            n <= m.next_packet().len() ==> (#[trigger] m.packet_written_step(Ok(n))).0.inv(),
        forall|e: UsbError| (#[trigger] m.packet_written_step(Err(e))).0.inv(),
        m.state == State::StatusTransferEpStall ==> m.halt_cleared_step().0.inv(),
{
    ended_keeps_the_invariant(m);
    if m.takes_packet() {
        assert forall|p: Seq<u8>| p.len() <= m.packet_size implies (#[trigger] m.packet_read_step(
            Ok(p),
        )).0.inv() by {
            let filled = BulkOnlyView { buffered: m.buffered + p, ..m };
            if !m.state.is_waiting() {
                ended_keeps_the_invariant(filled.less_residue(p.len() as usize));
            }
        }
    }
    if m.offers_packet() {
        assert forall|n: usize| n <= m.next_packet().len() implies (
        #[trigger] m.packet_written_step(Ok(n))).0.inv() by {
            let sent = BulkOnlyView { buffered: m.buffered.skip(n as int), ..m };
            if m.state == State::StatusTransfer {
                assert(sent.buffered =~= m.csw().skip(CSW_LEN - sent.buffered.len()));
            } else {
                ended_keeps_the_invariant(sent.less_residue(n));
            }
        }
    }
}

/// Ending a data phase keeps the invariant
proof fn ended_keeps_the_invariant(m: BulkOnlyView)
    requires
        m.inv(),
    ensures
        m.is_over() ==> m.ended().0.inv(),
{
    if m.is_over() {
        crate::transport::cbw::csw_carries_tag_residue_and_status(
            m.cbw.tag,
            m.residue(),
            m.status->0,
        );
        assert(m.csw().skip(0) =~= m.csw());
    }
}

/// Every operation of the user on a command keeps the invariant.
pub proof fn user_operations_keep_the_invariant(m: BulkOnlyView)
    requires
        m.inv(),
    ensures
        forall|dst: Seq<u8>| (#[trigger] m.data_read(dst)).0.inv(),
        forall|src: Seq<u8>| (#[trigger] m.data_written(src)).0.inv(),
        forall|src: Seq<u8>| (#[trigger] m.all_data_written(src)).0.inv(),
        m.state.is_data() ==> forall|s: CommandStatus| (#[trigger] m.with_status(s)).inv(),
        m.state == State::DataTransferToHost || m.state == State::DataTransferFromHost ==> forall|
            outcome: Result<(), UsbError>,
        | (#[trigger] m.transfer_submitted(outcome)).0.inv(),
        m.transfer_in_flight ==> forall|outcome: Option<Result<usize, UsbError>>|
            (#[trigger] m.transfer_polled(outcome)).0.inv(),
        m.state == State::DataTransferToHost ==> forall|outcome: Result<(), UsbError>|
            (#[trigger] m.pipelined_submitted(outcome)).0.inv(),
        m.state == State::DataTransferToHost ==> forall|outcome: Option<Result<usize, UsbError>>|
            (#[trigger] m.pipelined_polled(outcome)).0.inv(),
{
}

/// A reset makes a transport as good as new, whatever it was doing.
pub proof fn reset_gives_a_fresh_transport(m: BulkOnlyView)
    ensures
        m.after_reset() == BulkOnlyView::initial(
            m.packet_size,
            m.max_lun,
            m.capacity,
            m.in_ep,
            m.out_ep,
        ),
{
}

/// A step that asks for a packet can be answered: there is room for the packet.
/// A step that offers one offers what comes next in the buffer.
pub proof fn steps_can_be_answered(m: BulkOnlyView)
    requires
        m.inv(),
    ensures
        answerable(m.read_step().0, m.read_step().1),
        answerable(m.write_step().0, m.write_step().1),
        answerable(m.checked_end().0, m.checked_end().1),
        answerable(m.transfer_checked_end().0, m.transfer_checked_end().1),
        m.takes_packet() ==> forall|outcome: Result<Seq<u8>, UsbError>|
            answerable(
                (#[trigger] m.packet_read_step(outcome)).0,
                m.packet_read_step(outcome).1,
            ),
        m.offers_packet() ==> forall|outcome: Result<usize, UsbError>|
            answerable(
                (#[trigger] m.packet_written_step(outcome)).0,
                m.packet_written_step(outcome).1,
            ),
        m.state == State::StatusTransferEpStall ==> answerable(
            m.halt_cleared_step().0,
            m.halt_cleared_step().1,
        ),
{
    assert forall|t: BulkOnlyView| t.is_over() implies answerable(
        #[trigger] t.ended().0,
        t.ended().1,
    ) by {
        crate::transport::cbw::csw_carries_tag_residue_and_status(
            t.cbw.tag,
            t.residue(),
            t.status->0,
        );
    }
}

/// Whether `step` asks for something whose outcome a transport in state `m` takes
pub open spec fn answerable(m: BulkOnlyView, step: StepView) -> bool {
    match step.next {
        NextView::ReadPacket { max_len } => m.takes_packet() && max_len == m.packet_size,
        NextView::WritePacket { packet } => m.offers_packet() && packet == m.next_packet(),
        NextView::Done { .. } => true,
    }
}

/// A passed command that sent the host less than it asked for does not halt
/// anything: the CSW, with the residue, goes out at once.
pub proof fn passed_short_read_does_not_halt(m: BulkOnlyView)
    requires
        m.inv(),
        m.state == State::DataTransferToHost,
        m.buffered.len() == 0,
        m.status == Some(CommandStatus::Passed),
    ensures
        m.checked_end().0.state == State::StatusTransfer,
        m.checked_end().1 == (StepView {
            effects: Seq::empty(),
            next: NextView::WritePacket {
                packet: crate::buffer::prefix(
                    crate::transport::cbw::csw_bytes(
                        m.cbw.tag,
                        m.cbw.data_transfer_len,
                        CommandStatus::Passed,
                    ),
                    m.packet_size as nat,
                ),
            },
        }),
{
}

/// A command that did not pass and sent the host less than it asked for halts the
/// bulk IN endpoint, and its CSW is held back.
pub proof fn failed_short_read_halts_in(m: BulkOnlyView)
    requires
        m.inv(),
        m.state == State::DataTransferToHost,
        m.buffered.len() == 0,
        m.status == Some(CommandStatus::Failed) || m.status == Some(CommandStatus::PhaseError),
        m.cbw.data_transfer_len > 0,
    ensures
        m.checked_end().0.state == State::StatusTransferEpStall,
        m.checked_end().0.buffered == m.csw(),
        m.checked_end().1 == (StepView {
            effects: seq![Effect::StallIn],
            next: NextView::Done { result: Ok(()) },
        }),
{
}

/// A command that ends before all the data that the host has for it was received halts
/// the bulk OUT endpoint, and its CSW is held back.
pub proof fn short_write_halts_out(m: BulkOnlyView)
    requires
        m.inv(),
        m.state == State::DataTransferFromHost,
        m.status is Some,
        m.cbw.data_transfer_len > 0,
    ensures
        m.checked_end().0.state == State::StatusTransferEpStall,
        m.checked_end().0.buffered == m.csw(),
        m.checked_end().1 == (StepView {
            effects: seq![Effect::StallOut],
            next: NextView::Done { result: Ok(()) },
        }),
{
}

/// A data phase to the host never halts the bulk OUT endpoint, one from the host
/// never halts the bulk IN endpoint, and a command without data halts neither.
pub proof fn only_the_data_endpoint_is_halted(m: BulkOnlyView)
    requires
        m.inv(),
    ensures
        m.state == State::DataTransferToHost ==> !m.checked_end().1.effects.contains(
            Effect::StallOut,
        ),
        m.state == State::DataTransferFromHost ==> !m.checked_end().1.effects.contains(
            Effect::StallIn,
        ),
        m.state == State::DataTransferNoData ==> m.checked_end().1.effects.len() == 0,
{
}

/// While an endpoint is halted, neither reading nor writing does anything. When the
/// halt is cleared both endpoints work again and the CSW is sent from its start; the
/// next request to clear a halt is not taken for one that a CSW waits for.
pub proof fn csw_waits_for_the_halt_to_be_cleared(m: BulkOnlyView, req: Request)
    requires
        m.inv(),
        m.state == State::StatusTransferEpStall,
    ensures
        m.read_step() == (m, StepView::done(Ok(()))),
        m.write_step() == (m, StepView::done(Ok(()))),
        m.checked_end() == (m, StepView::done(Ok(()))),
        m.halt_cleared_step().0 == (BulkOnlyView { state: State::StatusTransfer, ..m }),
        m.halt_cleared_step().1 == (StepView {
            effects: seq![Effect::UnstallIn, Effect::UnstallOut],
            next: NextView::WritePacket {
                packet: crate::buffer::prefix(m.csw(), m.packet_size as nat),
            },
        }),
        !(BulkOnlyView { state: State::StatusTransfer, ..m }).clears_halt(req),
{
    assert(m.buffered =~= m.csw());
}

/// The state after the bulk IN endpoint took, packet by packet, as many bytes as
/// `counts` says
pub open spec fn after_writes(m: BulkOnlyView, counts: Seq<usize>) -> BulkOnlyView
    decreases counts.len(),
{
    if counts.len() == 0 {
        m
    } else {
        after_writes(m, counts.drop_last()).packet_written_step(Ok(counts.last())).0
    }
}

/// Whether each of `counts` is a part of the packet that is offered at that point
pub open spec fn are_writes(m: BulkOnlyView, counts: Seq<usize>) -> bool
    decreases counts.len(),
{
    counts.len() > 0 ==> {
        let before = after_writes(m, counts.drop_last());
        &&& are_writes(m, counts.drop_last())
        &&& before.offers_packet()
        &&& 0 < counts.last() <= before.next_packet().len()
    }
}

/// The bytes that went to the host
pub open spec fn bytes_out(m: BulkOnlyView, counts: Seq<usize>) -> Seq<u8>
    decreases counts.len(),
{
    if counts.len() == 0 {
        Seq::empty()
    } else {
        bytes_out(m, counts.drop_last()) + after_writes(
            m,
            counts.drop_last(),
        ).next_packet().take(counts.last() as int)
    }
}

/// The endpoint takes a piece of the CSW
proof fn csw_piece_goes_out(m: BulkOnlyView, n: usize)
    requires
        m.state == State::StatusTransfer,
        0 < n <= m.next_packet().len(),
    ensures
        n <= m.buffered.len(),
        m.next_packet().take(n as int) == m.buffered.take(n as int),
        m.packet_written_step(Ok(n)).0 == (if n == m.buffered.len() {
            m.idle()
        } else {
            BulkOnlyView { buffered: m.buffered.skip(n as int), ..m }
        }),
{
    assert(m.next_packet().take(n as int) =~= m.buffered.take(n as int));
    if n == m.buffered.len() {
        assert((BulkOnlyView { buffered: m.buffered.skip(n as int), ..m }).idle() =~= m.idle());
    }
}

/// In the status phase the host gets what is left of the CSW, in whatever pieces
/// the endpoint takes it, and nothing else. With the last piece the transport is
/// idle again.
pub proof fn csw_goes_out_whole(m: BulkOnlyView, counts: Seq<usize>)
    requires
        m.inv(),
        m.state == State::StatusTransfer,
        are_writes(m, counts),
    ensures
        ({
            let sent = bytes_out(m, counts);
            &&& sent.len() <= m.buffered.len()
            &&& sent == m.buffered.take(sent.len() as int)
            &&& after_writes(m, counts) == (if sent.len() == m.buffered.len() {
                m.idle()
            } else {
                BulkOnlyView { buffered: m.buffered.skip(sent.len() as int), ..m }
            })
        }),
    decreases counts.len(),
{
    if counts.len() == 0 {
        assert(m.buffered.skip(0) =~= m.buffered);
        assert(m.buffered.take(0) =~= Seq::empty());
    } else {
        csw_goes_out_whole(m, counts.drop_last());
        let before = after_writes(m, counts.drop_last());
        let sent = bytes_out(m, counts.drop_last());
        let n = counts.last() as int;
        assert(sent.len() < m.buffered.len());
        let rest = m.buffered.skip(sent.len() as int);
        assert(before == BulkOnlyView { buffered: rest, ..m });
        csw_piece_goes_out(before, counts.last());
        assert(sent + rest.take(n) =~= m.buffered.take(sent.len() + n));
        assert(rest.skip(n) =~= m.buffered.skip(sent.len() + n));
        assert(before.idle() =~= m.idle());
    }
}

/// The state after `n` bytes of the buffer went to the host
pub open spec fn after_sending(m: BulkOnlyView, n: nat) -> BulkOnlyView {
    BulkOnlyView {
        buffered: m.buffered.skip(n as int),
        cbw: CbwView {
            data_transfer_len: crate::transport::model::residue_left(
                m.cbw.data_transfer_len,
                n,
            ),
            ..m.cbw
        },
        ..m
    }
}

/// The endpoint takes a piece of the data for the host
proof fn data_piece_goes_out(m: BulkOnlyView, n: usize)
    requires
        m.state == State::DataTransferToHost,
        0 < n <= m.next_packet().len(),
    ensures
        n <= m.buffered.len(),
        m.next_packet().take(n as int) == m.buffered.take(n as int),
        m.packet_written_step(Ok(n)).0 == (if n == m.buffered.len() && m.status is Some {
            after_sending(m, n as nat).ended().0
        } else {
            after_sending(m, n as nat)
        }),
{
    assert(m.next_packet().take(n as int) =~= m.buffered.take(n as int));
}

/// Sending in two pieces is sending them together
proof fn pieces_join(m: BulkOnlyView, first: nat, second: nat)
    requires
        first + second <= m.buffered.len(),
    ensures
        after_sending(after_sending(m, first), second) == after_sending(m, first + second),
{
    assert(m.buffered.skip(first as int).skip(second as int) =~= m.buffered.skip(
        (first + second) as int,
    ));
}

/// Data for the host goes out in the order in which it was written, and is counted
/// off the residue. Once the command has a status, all that is in the buffer still
/// goes out, packet by packet, and the data phase ends with the last byte of it.
pub proof fn buffered_data_goes_out_before_the_csw(m: BulkOnlyView, counts: Seq<usize>)
    requires
        m.inv(),
        m.state == State::DataTransferToHost,
        !m.transfer_phase,
        are_writes(m, counts),
        bytes_out(m, counts).len() <= m.buffered.len(),
    ensures
        ({
            let sent = bytes_out(m, counts);
            let left = after_sending(m, sent.len());
            &&& sent == m.buffered.take(sent.len() as int)
            &&& after_writes(m, counts) == (if counts.len() > 0 && sent.len() == m.buffered.len()
                && m.status is Some {
                left.ended().0
            } else {
                left
            })
            &&& m.status is Some && sent.len() < m.buffered.len() ==> left.write_step()
                == left.packet_out()
        }),
    decreases counts.len(),
{
    if counts.len() == 0 {
        assert(m.buffered.skip(0) =~= m.buffered);
        assert(m.buffered.take(0) =~= Seq::empty());
        assert(after_writes(m, counts) =~= after_sending(m, 0));
    } else {
        let before = after_writes(m, counts.drop_last());
        let sent = bytes_out(m, counts.drop_last());
        let n = counts.last();
        buffered_data_goes_out_before_the_csw(m, counts.drop_last());
        assert(before == after_sending(m, sent.len()));
        data_piece_goes_out(before, n);
        pieces_join(m, sent.len(), n as nat);
        assert(sent + before.buffered.take(n as int) =~= m.buffered.take(sent.len() + n));
    }
}

/// No short packet goes to the host in the middle of a transfer: while the host
/// expects a full packet or more, and the command has no status, a packet that is
/// written is full.
pub proof fn packets_in_mid_transfer_are_full(m: BulkOnlyView)
    requires
        m.inv(),
        m.state == State::DataTransferToHost,
        m.status is None,
        m.cbw.data_transfer_len >= m.packet_size,
    ensures
        match m.write_step().1.next {
            NextView::WritePacket { packet } => packet.len() == m.packet_size,
            NextView::ReadPacket { .. } => false,
            NextView::Done { result } => m.transfer_phase || m.packet_size == 0 || result == Err::<
                (),
                TransportError<BulkOnlyError>,
            >(TransportError::Error(BulkOnlyError::FullPacketExpected)),
        },
{
}

/// Once a command has its status, no more data for the host can be written.
pub proof fn no_data_after_the_status(m: BulkOnlyView, status: CommandStatus, src: Seq<u8>)
    requires
        m.inv(),
        m.state.is_data(),
    ensures
        m.with_status(status).data_written(src) == (
            m.with_status(status),
            Err::<usize, TransportError<BulkOnlyError>>(
                TransportError::Error(BulkOnlyError::InvalidState),
            ),
        ),
        m.with_status(status).all_data_written(src) == (
            m.with_status(status),
            Err::<(), TransportError<BulkOnlyError>>(
                TransportError::Error(BulkOnlyError::InvalidState),
            ),
        ),
{
}

/// What the host sends in a data phase is read back by the user: the bytes of a
/// packet queue up behind those that are there, and a read with enough room gives all
/// of them. It is the read, not the packet, that counts off the residue.
pub proof fn host_data_is_read_back(m: BulkOnlyView, packet: Seq<u8>, dst: Seq<u8>)
    requires
        m.inv(),
        m.takes_packet(),
        m.state == State::DataTransferFromHost,
        0 < packet.len() <= m.packet_size,
        dst.len() >= m.buffered.len() + packet.len(),
    ensures
        ({
            let (t, step) = m.packet_read_step(Ok(packet));
            let bytes = m.buffered + packet;
            &&& step == StepView::done(Ok(()))
            &&& t.cbw.data_transfer_len == crate::transport::model::residue_left(
                m.cbw.data_transfer_len,
                packet.len(),
            )
            &&& t.residue() == m.residue()
            &&& t.data_read(dst) == (
                (BulkOnlyView { buffered: Seq::empty(), ..t }).less_unread(bytes.len()),
                bytes + dst.skip(bytes.len() as int),
                Ok::<usize, TransportError<BulkOnlyError>>(bytes.len() as usize),
            )
        }),
{
    let (t, step) = m.packet_read_step(Ok(packet));
    let bytes = m.buffered + packet;
    assert(crate::buffer::prefix(t.buffered, dst.len()) =~= bytes);
    assert(t.buffered.skip(bytes.len() as int) =~= Seq::empty());
}

/// What the user writes in a data phase is offered to the host: its first packet
/// comes right behind what is in the buffer.
pub proof fn user_data_is_offered(m: BulkOnlyView, src: Seq<u8>)
    requires
        m.inv(),
        m.accepts_data(),
        !m.transfer_phase,
        0 < src.len() <= m.cbw.data_transfer_len,
        src.len() <= m.room(),
        m.buffered.len() + src.len() >= m.packet_size || m.cbw.data_transfer_len < m.packet_size,
    ensures
        ({
            let (t, r) = m.data_written(src);
            &&& r == Ok::<usize, TransportError<BulkOnlyError>>(src.len() as usize)
            &&& t.write_step().1.next == (NextView::WritePacket {
                packet: crate::buffer::prefix(m.buffered + src, m.packet_size as nat),
            })
        }),
{
    assert(crate::buffer::prefix(
        crate::buffer::prefix(src, m.cbw.data_transfer_len as nat),
        m.room(),
    ) =~= src);
}

/// A CBW that is not valid starts no command: both endpoints are halted and, by the
/// reset that follows, work again, and the transport is as good as new.
pub proof fn invalid_cbw_is_dropped(m: BulkOnlyView, packet: Seq<u8>)
    requires
        m.inv(),
        m.takes_packet(),
        m.state.is_waiting(),
        packet.len() <= m.packet_size,
        m.buffered.len() + packet.len() >= CBW_LEN,
        crate::transport::cbw::parsed_cbw((m.buffered + packet).take(CBW_LEN as int)) is None,
    ensures
        m.packet_read_step(Ok(packet)).0 == m.after_reset(),
        m.packet_read_step(Ok(packet)).1 == (StepView {
            effects: seq![
                Effect::StallIn,
                Effect::StallOut,
                Effect::UnstallIn,
                Effect::UnstallOut,
            ],
            next: NextView::Done { result: Ok(()) },
        }),
{
    if packet.len() == 0 {
        assert(m.buffered.len() < CBW_LEN);
    }
}

/// The state after the host sent `packets` while the transport waits for a command
pub open spec fn after_reads(m: BulkOnlyView, packets: Seq<Seq<u8>>) -> BulkOnlyView
    decreases packets.len(),
{
    if packets.len() == 0 {
        m
    } else {
        after_reads(m, packets.drop_last()).packet_read_step(Ok(packets.last())).0
    }
}

/// The bytes of `packets` one after the other
pub open spec fn joined(packets: Seq<Seq<u8>>) -> Seq<u8>
    decreases packets.len(),
{
    if packets.len() == 0 {
        Seq::empty()
    } else {
        joined(packets.drop_last()) + packets.last()
    }
}

/// A CBW may come in any number of packets: until it is complete its bytes are
/// collected, and it is the collected bytes that are parsed.
pub proof fn cbw_is_collected(m: BulkOnlyView, packets: Seq<Seq<u8>>)
    requires
        m.inv(),
        m.state == State::Idle,
        forall|i: int| 0 <= i < packets.len() ==> (#[trigger] packets[i]).len() > 0,
        packets.len() > 0 ==> joined(packets.drop_last()).len() < CBW_LEN,
    ensures
        after_reads(m, packets) == (if packets.len() == 0 {
            m
        } else {
            (BulkOnlyView { buffered: joined(packets), ..m }).command_bytes_read().0
        }),
        0 < joined(packets).len() < CBW_LEN ==> after_reads(m, packets) == (BulkOnlyView {
            state: State::CommandTransfer,
            buffered: joined(packets),
            ..m
        }),
    decreases packets.len(),
{
    if packets.len() > 0 {
        let init = packets.drop_last();
        assert forall|i: int| 0 <= i < init.len() implies (#[trigger] init[i]).len() > 0 by {
            assert(init[i] == packets[i]);
        }
        if init.len() > 0 {
            assert(joined(init) == joined(init.drop_last()) + init.last());
            assert(init.last() == init[init.len() - 1]);
        }
        assert(packets.last() == packets[packets.len() - 1]);
        cbw_is_collected(m, init);
        assert(m.buffered + joined(packets) =~= joined(packets));
        let before = after_reads(m, init);
        if init.len() == 0 {
            assert(before.buffered + packets.last() =~= joined(packets));
        }
        let filled = BulkOnlyView { buffered: joined(packets), ..m };
        assert(before.packet_read_step(Ok(packets.last())).0
            =~= filled.command_bytes_read().0);
    }
}

/// Whether the transport has room for each of `packets` at that point
pub open spec fn are_reads(m: BulkOnlyView, packets: Seq<Seq<u8>>) -> bool
    decreases packets.len(),
{
    packets.len() > 0 ==> {
        &&& are_reads(m, packets.drop_last())
        &&& after_reads(m, packets.drop_last()).takes_packet()
        &&& 0 < packets.last().len() <= m.packet_size
    }
}

/// In a data phase from the host the packets queue up in the order in which they
/// come. Their bytes are counted off those that the host still has to send; the
/// residue stays, since the user has not read them.
pub proof fn host_data_queues_up(m: BulkOnlyView, packets: Seq<Seq<u8>>)
    requires
        m.inv(),
        m.state == State::DataTransferFromHost,
        m.status is None,
        are_reads(m, packets),
    ensures
        after_reads(m, packets) == (BulkOnlyView {
            buffered: m.buffered + joined(packets),
            cbw: CbwView {
                data_transfer_len: crate::transport::model::residue_left(
                    m.cbw.data_transfer_len,
                    joined(packets).len(),
                ),
                ..m.cbw
            },
            ..m
        }),
    decreases packets.len(),
{
    if packets.len() == 0 {
        assert(m.buffered + joined(packets) =~= m.buffered);
        assert(after_reads(m, packets) =~= m);
    } else {
        host_data_queues_up(m, packets.drop_last());
        let before = after_reads(m, packets.drop_last());
        assert(before.buffered + packets.last() =~= m.buffered + joined(packets));
    }
}

/// A command without data is answered with its own tag, no residue and the status
/// that the user gave it.
pub proof fn command_without_data_is_answered(
    m: BulkOnlyView,
    cbw: CbwView,
    status: CommandStatus,
)
    requires
        m.inv(),
        m.state.is_waiting(),
        cbw.direction == DataDirection::NotExpected,
    ensures
        ({
            let t = m.started(cbw).with_status(status);
            &&& t.write_step().0.state == State::StatusTransfer
            &&& t.write_step().0.buffered == crate::transport::cbw::csw_bytes(cbw.tag, 0, status)
            &&& t.write_step().1 == (StepView {
                effects: Seq::empty(),
                next: NextView::WritePacket {
                    packet: crate::buffer::prefix(
                        crate::transport::cbw::csw_bytes(cbw.tag, 0, status),
                        m.packet_size as nat,
                    ),
                },
            })
        }),
{
}

/// A transfer that the bus refuses leaves the data phase to transfers: writing a
/// packet does nothing, in particular it does not ask for a full packet, until the
/// user submits again.
pub proof fn refused_transfer_keeps_the_phase(m: BulkOnlyView, e: UsbError)
    requires
        m.inv(),
        m.accepts_data(),
        !m.transfer_in_flight,
    ensures
        ({
            let (t, r) = m.transfer_submitted(Err(e));
            &&& r == Err::<usize, TransportError<BulkOnlyError>>(TransportError::Usb(e))
            &&& t.transfer_phase && !t.transfer_in_flight
            &&& t.write_step() == (t, StepView::done(Ok(())))
        }),
        ({
            let (t, r) = m.pipelined_submitted(Err(e));
            &&& r == Err::<(), TransportError<BulkOnlyError>>(TransportError::Usb(e))
            &&& t.write_step() == (t, StepView::done(Ok(())))
        }),
{
}

/// A transfer from the host that the bus refuses leaves the data phase to transfers
/// as well, so that no packet is read before the user submits again.
pub proof fn refused_read_keeps_the_phase(m: BulkOnlyView, e: UsbError)
    requires
        m.inv(),
        m.state == State::DataTransferFromHost,
        !m.transfer_in_flight,
    ensures
        m.transfer_submitted(Err(e)).0.out_transfer_phase(),
        !m.transfer_submitted(Err(e)).0.transfer_in_flight,
        m.transfer_submitted(Err(e)).1 == Err::<usize, TransportError<BulkOnlyError>>(
            TransportError::Usb(e),
        ),
{
}

/// A transfer that the bus took is in flight until a poll retires it. The bytes of a
/// completed one are then counted off the residue, an error leaves the residue as it
/// is, and either way the next call can submit again.
pub proof fn transfer_is_retired_once(m: BulkOnlyView, n: usize, e: UsbError)
    requires
        m.inv(),
        m.state == State::DataTransferToHost || m.state == State::DataTransferFromHost,
        !m.transfer_in_flight,
        n <= u32::MAX,
    ensures
        ({
            let (t, r) = m.transfer_submitted(Ok(()));
            let (waiting, still) = t.transfer_polled(None);
            let (retired, done) = t.transfer_polled(Some(Ok(n)));
            let (broken, error) = t.transfer_polled(Some(Err(e)));
            &&& r == Err::<usize, TransportError<BulkOnlyError>>(
                TransportError::Usb(UsbError::WouldBlock),
            )
            &&& t.transfer_in_flight && t.residue() == m.residue()
            &&& waiting == t && still == r
            &&& done == Ok::<usize, TransportError<BulkOnlyError>>(n)
            &&& !retired.transfer_in_flight && retired.transfer_phase
            &&& retired.residue() == crate::transport::model::residue_left(
                m.residue(),
                n as nat,
            )
            &&& error == Err::<usize, TransportError<BulkOnlyError>>(TransportError::Usb(e))
            &&& !broken.transfer_in_flight && broken.transfer_phase
            &&& broken.residue() == m.residue()
        }),
{
}

/// While a transfer from the host is in flight, neither writing nor finishing the phase
/// ends it, whatever status the command has: the CSW comes after the transfer has moved
/// its data.
pub proof fn transfer_in_flight_is_waited_for(m: BulkOnlyView)
    requires
        m.inv(),
        m.state == State::DataTransferFromHost,
        m.transfer_in_flight,
    ensures
        m.write_step() == (m, StepView::done(Ok(()))),
        m.transfer_checked_end() == (m, StepView::done(Ok(()))),
{
}

/// A data phase to the host that is driven by transfers ends with the status of the
/// command, also if a transfer is in flight: the next write ends it.
pub proof fn status_ends_a_transfer_phase_to_the_host(m: BulkOnlyView)
    requires
        m.inv(),
        m.state == State::DataTransferToHost,
        m.transfer_phase,
        m.status is Some,
        m.buffered.len() == 0,
    ensures
        m.write_step() == m.ended(),
        m.write_step().0.state.is_status(),
        m.write_step().0.buffered == m.csw(),
{
}

/// A command from the host that ends reports as residue what the user has not read,
/// whether it was received or not.
pub proof fn unread_data_is_residue(m: BulkOnlyView)
    requires
        m.inv(),
        m.state == State::DataTransferFromHost,
        m.status is Some,
    ensures
        m.checked_end().0.buffered == crate::transport::cbw::csw_bytes(
            m.cbw.tag,
            m.unread,
            m.status->0,
        ),
        m.checked_end().1.effects.len() == 0 <==> m.cbw.data_transfer_len == 0,
{
}

/// A user who reads nothing leaves the whole residue, however much of the data was
/// received: the CSW carries the length that the host announced.
pub proof fn nothing_read_is_all_residue(
    m: BulkOnlyView,
    cbw: CbwView,
    packets: Seq<Seq<u8>>,
    status: CommandStatus,
)
    requires
        m.inv(),
        m.state.is_waiting(),
        m.started(cbw).inv(),
        cbw.direction == DataDirection::Out,
        are_reads(m.started(cbw), packets),
    ensures
        after_reads(m.started(cbw), packets).with_status(status).read_step().0.buffered
            == crate::transport::cbw::csw_bytes(cbw.tag, cbw.data_transfer_len, status),
{
    host_data_queues_up(m.started(cbw), packets);
}

/// With a host that sends no more than it announced, what the user has not read is
/// what was not received and what is still in the buffer. That is so when a data phase
/// starts with an empty buffer, and packets, reads and transfers keep it so.
pub proof fn unread_is_unreceived_or_buffered(
    m: BulkOnlyView,
    cbw: CbwView,
    packet: Seq<u8>,
    dst: Seq<u8>,
    n: usize,
)
    requires
        m.inv(),
    ensures
        m.state.is_waiting() && m.buffered.len() == 0 && cbw.direction == DataDirection::Out
            ==> all_accounted(m.started(cbw)),
        all_accounted(m) && m.takes_packet() && packet.len() <= m.cbw.data_transfer_len
            && packet.len() <= m.packet_size ==> all_accounted(m.packet_read_step(Ok(packet)).0),
        all_accounted(m) ==> all_accounted(m.data_read(dst).0),
        all_accounted(m) && m.transfer_in_flight && n <= m.cbw.data_transfer_len ==> all_accounted(
            m.transfer_polled(Some(Ok(n))).0,
        ),
{
}

/// In a data phase from the host, all that the user has not read was not received or
/// is in the buffer
pub open spec fn all_accounted(m: BulkOnlyView) -> bool {
    &&& m.state == State::DataTransferFromHost
    &&& m.unread == m.cbw.data_transfer_len + m.buffered.len()
}

/// Nothing of a transfer outlives its data phase.
pub proof fn transfers_end_with_the_data_phase(m: BulkOnlyView)
    requires
        m.inv(),
    ensures
        !m.state.is_data() ==> !m.transfer_in_flight && !m.transfer_phase,
        m.is_over() ==> !m.ended().0.transfer_in_flight && !m.ended().0.transfer_phase,
{
}

} // verus!

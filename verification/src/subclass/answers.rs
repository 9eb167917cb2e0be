//! What the operations of the SCSI subclass answer, from what they are called with
//!
//! Each law speaks of calls: for any arguments, and any outcome that the call has, it
//! says what the outcome is.

use crate::subclass::poll::{Phase, ScsiView};
use crate::subclass::scsi::{
    map_ignore, parse_cb, PageControl, PollNext, PollStep, Scsi, ScsiCommand, ScsiUas,
};
use crate::subclass::Command;
use crate::transport::bbb::{BulkOnly, Step};
use crate::transport::cbw::DataDirection;
use crate::transport::model::{BulkOnlyError, BulkOnlyTransportResult, State};
use crate::transport::{CommandStatus, TransportError};
use crate::usb::{
    pipe_usage_body, Descriptor, Effect, EndpointAddress, InterfaceNumber, Pipe, Recipient,
    Request, RequestType, UsbError,
};
use vstd::prelude::*;

verus! {

/// A block that the host made of a READ or a WRITE, in the form of 10 or of 16 bytes,
/// parses to the block address and the block count that it was made of.
pub proof fn parse_cb_answers_read_and_write(
    cb: &[u8],
    command: ScsiCommand,
    flags: u8,
    group: u8,
    lba: u64,
    len: u32,
    rest: Seq<u8>,
)
    requires
        call_ensures(parse_cb, (cb,), command),
    ensures
        lba < 0x1_0000_0000 && len < 0x1_0000 && cb@ == crate::subclass::encoding::block10(
            0x28,
            flags,
            lba as u32,
            group,
            len as u16,
            rest,
        ) ==> command == (ScsiCommand::Read { lba, len }),
        lba < 0x1_0000_0000 && len < 0x1_0000 && cb@ == crate::subclass::encoding::block10(
            0x2A,
            flags,
            lba as u32,
            group,
            len as u16,
            rest,
        ) ==> command == (ScsiCommand::Write { lba, len }),
        cb@ == crate::subclass::encoding::block16(0x88, flags, lba, len, rest) ==> command == (
        ScsiCommand::Read { lba, len }),
        cb@ == crate::subclass::encoding::block16(0x8A, flags, lba, len, rest) ==> command == (
        ScsiCommand::Write { lba, len }),
{
    crate::subclass::encoding::read_and_write_10_decode_back(
        flags,
        lba as u32,
        group,
        len as u16,
        rest,
    );
    crate::subclass::encoding::read_and_write_16_decode_back(flags, lba, len, rest);
}

/// A page control parses from its two-bit code; a larger code means the current values.
pub proof fn from_code_answers(code: u8, page_control: PageControl)
    requires
        call_ensures(PageControl::from_code, (code,), page_control),
    ensures
        code == 1 ==> page_control == PageControl::ChangeableValues,
        code == 2 ==> page_control == PageControl::DefaultValues,
        code == 3 ==> page_control == PageControl::SavedValues,
        code == 0 || code > 3 ==> page_control == PageControl::CurrentValues,
{
}

/// Of the results of the transport only a USB error other than
/// [`UsbError::WouldBlock`] is passed on.
pub proof fn map_ignore_answers<T>(res: BulkOnlyTransportResult<T>, r: Result<(), UsbError>)
    requires
        call_ensures(map_ignore::<T>, (res,), r),
    ensures
        match res {
            Err(TransportError::Usb(e)) => if e == UsbError::WouldBlock {
                r is Ok
            } else {
                r == Err::<(), UsbError>(e)
            },
            _ => r is Ok,
        },
{
}

/// A class is refused for a maximum LUN above 15, then for a buffer below 31 bytes or
/// below a packet. Else it is made, with a blank transport and no poll going on.
pub proof fn new_answers(
    interface: InterfaceNumber,
    in_ep: EndpointAddress,
    out_ep: EndpointAddress,
    packet_size: u16,
    max_lun: u8,
    buf: Vec<u8>,
    r: Result<Scsi<BulkOnly>, BulkOnlyError>,
)
    requires
        call_ensures(
            Scsi::<BulkOnly>::new,
            (interface, in_ep, out_ep, packet_size, max_lun, buf),
            r,
        ),
    ensures
        max_lun > 15 ==> r == Err::<Scsi<BulkOnly>, BulkOnlyError>(BulkOnlyError::InvalidMaxLun),
        max_lun <= 15 && (buf@.len() < 31 || buf@.len() < packet_size) ==> r == Err::<
            Scsi<BulkOnly>,
            BulkOnlyError,
        >(BulkOnlyError::BufferTooSmall),
        max_lun <= 15 && buf@.len() >= 31 && buf@.len() >= packet_size ==> {
            &&& r is Ok
            &&& r->Ok_0.wf()
            &&& r->Ok_0@.interface == interface
            &&& r->Ok_0@.phase == Phase::Idle
            &&& crate::transport::wire::is_blank(r->Ok_0@.transport)
            &&& r->Ok_0@.transport.in_ep == in_ep && r->Ok_0@.transport.out_ep == out_ep
            &&& r->Ok_0@.transport.packet_size == packet_size
            &&& r->Ok_0@.transport.max_lun == max_lun
            &&& r->Ok_0@.transport.capacity == buf@.len()
        },
{
}

/// A command that comes as one packet to a poll that waits for one is handed to the user
/// at once: what its block decodes to, and its LUN.
pub proof fn packet_read_answers_a_cbw(
    class: &mut Scsi<BulkOnly>,
    packet: &[u8],
    step: PollStep,
    tag: u32,
    n: u32,
    flags: u8,
    lun: u8,
    block: Seq<u8>,
    padding: Seq<u8>,
)
    requires
        call_ensures(Scsi::<BulkOnly>::packet_read, (class, Ok::<&[u8], UsbError>(packet)), step),
        old(class)@.phase == Phase::PreRead,
        old(class)@.transport.state == State::Idle,
        old(class)@.transport.buffered.len() == 0,
        old(class)@.transport.status is None,
        !old(class)@.transport.transfer_phase,
        old(class)@.transport.packet_size > 0,
        lun < 16,
        1 <= block.len() <= 16,
        block.len() + padding.len() == 16,
        packet@ == crate::transport::cbw::cbw_bytes(tag, n, flags, lun, block, padding),
    ensures
        step.effects@.len() == 0,
        step.next == (PollNext::Callback { kind: crate::subclass::scsi::decoded(block), lun }),
        final(class)@.phase == Phase::User,
        final(class)@.transport.cbw.tag == tag,
        final(class)@.transport.cbw.data_transfer_len == n,
        final(class)@.transport.cbw.lun == lun,
        final(class)@.transport.cbw.block == block,
{
    crate::subclass::conduct::command_reaches_the_user(
        old(class)@,
        tag,
        n,
        flags,
        lun,
        block,
        padding,
    );
    crate::subclass::conduct::poll_steps_say_what_they_hold(step);
    crate::transport::wire::cbw_bytes_on_the_wire(tag, n, flags, lun, block, padding);
    assert((old(class)@.transport.buffered + packet@).take(31) =~= packet@);
    crate::transport::wire::cbw_starts_its_data_phase(old(class)@.transport, packet@);
}

/// A poll starts with reading a packet: one is asked for, if there is room for it, while
/// the transport waits for a command or for data of a command without a status. A poll
/// with transfers leaves that out while the user reads by transfers.
pub proof fn polls_answer(
    p: &mut Scsi<BulkOnly>,
    step: PollStep,
    q: &mut Scsi<BulkOnly>,
    transfer_step: PollStep,
)
    requires
        call_ensures(Scsi::<BulkOnly>::poll, (p,), step),
        call_ensures(Scsi::<BulkOnly>::poll_transfer, (q,), transfer_step),
    ensures
        waits_for_packet(old(p)@) ==> {
            &&& step.effects@.len() == 0
            &&& step.next == (PollNext::ReadPacket {
                max_len: old(p)@.transport.packet_size as usize,
            })
            &&& final(p)@ == (ScsiView { phase: Phase::PreRead, transfers: false, ..old(p)@ })
        },
        waits_for_packet(old(q)@) && !(old(q)@.transport.state == State::DataTransferFromHost
            && old(q)@.transport.transfer_phase) ==> {
            &&& transfer_step.effects@.len() == 0
            &&& transfer_step.next == (PollNext::ReadPacket {
                max_len: old(q)@.transport.packet_size as usize,
            })
            &&& final(q)@ == (ScsiView { phase: Phase::PreRead, transfers: true, ..old(q)@ })
        },
        old(q)@.transport.state == State::DataTransferFromHost && old(q)@.transport.transfer_phase
            && old(q)@.transport.status is None ==> {
            &&& transfer_step.effects@.len() == 0
            &&& transfer_step.next == (PollNext::Callback {
                kind: crate::subclass::scsi::decoded(old(q)@.transport.cbw.block),
                lun: old(q)@.transport.cbw.lun,
            })
            &&& final(q)@ == (ScsiView { phase: Phase::User, transfers: true, ..old(q)@ })
        },
{
    crate::subclass::conduct::poll_steps_say_what_they_hold(step);
    crate::subclass::conduct::poll_steps_say_what_they_hold(transfer_step);
    assert(Seq::<Effect>::empty() + Seq::<Effect>::empty() =~= Seq::<Effect>::empty());
}

/// Whether a packet of the host is due and there is room for it
pub open spec fn waits_for_packet(m: ScsiView) -> bool {
    &&& m.transport.buffered.len() + m.transport.packet_size <= m.transport.capacity
    &&& m.transport.state == State::Idle || m.transport.state == State::CommandTransfer || (
    m.transport.state == State::DataTransferFromHost && m.transport.status is None)
}

/// After the user gave a command to the host its status, with all its data sent, its CSW
/// is offered: it has the tag of the command, what was not sent and the code of the
/// status. If something was not sent and the command did not pass, the IN endpoint is
/// halted instead and the CSW is held back.
pub proof fn callback_done_answers(
    class: &mut Scsi<BulkOnly>,
    step: PollStep,
    status: CommandStatus,
)
    requires
        call_ensures(Scsi::<BulkOnly>::callback_done, (class,), step),
        old(class)@.transport.state == State::DataTransferToHost,
        old(class)@.transport.cbw.direction == DataDirection::In,
        old(class)@.transport.buffered.len() == 0,
        old(class)@.transport.status == Some(status),
    ensures
        ({
            let left = old(class)@.transport.cbw.data_transfer_len;
            let code: u8 = match status {
                CommandStatus::Passed => 0,
                CommandStatus::Failed => 1,
                CommandStatus::PhaseError => 2,
            };
            &&& crate::transport::wire::reads_as_csw(
                final(class)@.transport.buffered,
                old(class)@.transport.cbw.tag,
                left,
                code,
            )
            &&& left == 0 || status == CommandStatus::Passed ==> {
                &&& step.effects@.len() == 0
                &&& step.next is WritePacket
                &&& crate::transport::wire::starts(
                    step.next->packet@,
                    final(class)@.transport.buffered,
                    old(class)@.transport.packet_size as nat,
                )
                &&& final(class)@.phase == Phase::PostWrite
            }
            &&& left > 0 && status != CommandStatus::Passed ==> {
                &&& step.effects@ == seq![Effect::StallIn]
                &&& step.next == (PollNext::Done { result: Ok(()) })
                &&& final(class)@.phase == Phase::Idle
            }
        }),
{
    let t = old(class)@.transport;
    assert(t.with_status(status) == t);
    crate::transport::wire::end_of_phase_to_host(t, status);
    crate::transport::wire::writing_offers_a_packet(t);
    crate::subclass::conduct::poll_steps_say_what_they_hold(step);
    assert(seq![Effect::StallIn] + Seq::<Effect>::empty() =~= seq![Effect::StallIn]);
}

/// The command that the user gets is the one that the transport executes.
pub proof fn command_answers<'a>(
    class: &'a mut Scsi<BulkOnly>,
    command: Command<'a, ScsiCommand, Scsi<BulkOnly>>,
)
    requires
        call_ensures(Scsi::<BulkOnly>::command, (class,), command),
    ensures
        command.spec_kind() == crate::subclass::scsi::decoded(old(class)@.transport.cbw.block),
        command.spec_lun() == old(class)@.transport.cbw.lun,
        (*command.borrowed())@ == old(class)@,
        (*final(command.borrowed()))@ == final(class)@,
{
}

/// What the user says of a command becomes its status, and nothing else changes.
pub proof fn verdicts_answer<'a>(
    passed: Command<'a, ScsiCommand, Scsi<BulkOnly>>,
    failed: Command<'a, ScsiCommand, Scsi<BulkOnly>>,
    broken: Command<'a, ScsiCommand, Scsi<BulkOnly>>,
    left: Command<'a, ScsiCommand, Scsi<BulkOnly>>,
)
    requires
        call_ensures(Command::<'a, ScsiCommand, Scsi<BulkOnly>>::pass, (passed,), ()),
        call_ensures(Command::<'a, ScsiCommand, Scsi<BulkOnly>>::fail, (failed,), ()),
        call_ensures(Command::<'a, ScsiCommand, Scsi<BulkOnly>>::fail_phase, (broken,), ()),
        call_ensures(Command::<'a, ScsiCommand, Scsi<BulkOnly>>::leave, (left,), ()),
    ensures
        gets_status((*passed.borrowed())@, (*final(passed.borrowed()))@, CommandStatus::Passed),
        gets_status((*failed.borrowed())@, (*final(failed.borrowed()))@, CommandStatus::Failed),
        gets_status((*broken.borrowed())@, (*final(broken.borrowed()))@, CommandStatus::PhaseError),
        (*final(left.borrowed()))@ == (*left.borrowed())@,
{
}

/// Whether the class came from `before` to `after` by the status alone
pub open spec fn gets_status(
    before: ScsiView,
    after: ScsiView,
    status: CommandStatus,
) -> bool {
    &&& after.transport.status == Some(status)
    &&& after.transport.state == before.transport.state
    &&& after.transport.buffered == before.transport.buffered
    &&& after.transport.cbw == before.transport.cbw
    &&& after.transport.unread == before.transport.unread
    &&& after.transport.transfer_in_flight == before.transport.transfer_in_flight
    &&& after.transport.transfer_phase == before.transport.transfer_phase
    &&& crate::transport::wire::same_configuration(after.transport, before.transport)
    &&& after.phase == before.phase
    &&& after.interface == before.interface
    &&& after.transfers == before.transfers
}

/// A reset of the bus blanks the transport, ends the poll and clears both halts, IN
/// first.
pub proof fn reset_answers(class: &mut Scsi<BulkOnly>, effects: Vec<Effect>)
    requires
        call_ensures(Scsi::<BulkOnly>::reset, (class,), effects),
    ensures
        crate::transport::wire::is_blank(final(class)@.transport),
        final(class)@.phase == Phase::Idle,
        final(class)@.interface == old(class)@.interface,
        effects@.len() == 2,
        effects@[0] == Effect::UnstallIn,
        effects@[1] == Effect::UnstallOut,
{
    crate::subclass::conduct::reset_ends_the_poll(old(class)@);
}

/// When the halt is cleared both endpoints work again and the CSW goes out from its
/// start; the poll is not touched.
pub proof fn halt_cleared_answers(class: &mut Scsi<BulkOnly>, step: Step)
    requires
        call_ensures(Scsi::<BulkOnly>::halt_cleared, (class,), step),
    ensures
        final(class)@.transport.state == State::StatusTransfer,
        final(class)@.transport.buffered == old(class)@.transport.buffered,
        final(class)@.phase == old(class)@.phase,
        final(class)@.interface == old(class)@.interface,
        final(class)@.transfers == old(class)@.transfers,
        step.effects@ == seq![Effect::UnstallIn, Effect::UnstallOut],
        step.next is WritePacket,
        crate::transport::wire::starts(
            step.next->packet@,
            old(class)@.transport.buffered,
            old(class)@.transport.packet_size as nat,
        ),
{
    crate::transport::wire::cleared_halt_offers_the_csw(old(class)@.transport);
    crate::transport::wire::steps_say_what_they_hold(step);
}

/// What the class says of itself and to control requests.
pub proof fn observers_answer(
    class: &Scsi<BulkOnly>,
    req: &Request,
    endpoints: (EndpointAddress, EndpointAddress),
    interface: InterfaceNumber,
    answer: Option<u8>,
    accepted: bool,
    descriptors: Vec<Descriptor>,
)
    requires
        call_ensures(Scsi::<BulkOnly>::data_endpoints, (class,), endpoints),
        call_ensures(Scsi::<BulkOnly>::interface, (class,), interface),
        call_ensures(Scsi::<BulkOnly>::control_in, (class, req), answer),
        call_ensures(Scsi::<BulkOnly>::control_out, (class, req), accepted),
        call_ensures(Scsi::<BulkOnly>::get_configuration_descriptors, (class,), descriptors),
    ensures
        endpoints.0 == class@.transport.in_ep,
        endpoints.1 == class@.transport.out_ep,
        interface == class@.interface,
        answer == if req.request_type == RequestType::Class && req.recipient == Recipient::Interface
            && req.request == 0xFE {
            Some(class@.transport.max_lun)
        } else {
            None
        },
        accepted <==> {
            &&& class@.transport.state == State::StatusTransferEpStall
            &&& req.request_type == RequestType::Standard
            &&& req.recipient == Recipient::Endpoint
            &&& req.request == 1 && req.value == 0
            &&& req.index % 256 == class@.transport.in_ep.0 || req.index % 256
                == class@.transport.out_ep.0
        },
        descriptors@.len() == 4,
        descriptors@[0] == (Descriptor::Association {
            first: class@.interface,
            count: 1,
            class: 0x08,
            subclass: 0x06,
            protocol: 0x50,
        }),
        descriptors@[1] == (Descriptor::Interface {
            number: class@.interface,
            alternate: 0,
            class: 0x08,
            subclass: 0x06,
            protocol: 0x50,
        }),
        descriptors@[2] == (Descriptor::Endpoint { pipe: Pipe::DataIn }),
        descriptors@[3] == (Descriptor::Endpoint { pipe: Pipe::DataOut }),
{
    crate::transport::wire::which_request_clears_the_halt(class@.transport, *req);
    crate::transport::wire::only_max_lun_is_answered(class@.transport, *req);
    crate::subclass::conduct::descriptors_one_by_one(class@.interface);
}

/// The user's reads and writes of a command go to the transport: a read gives the start
/// of what the host sent, a write takes what the host expects and there is room for, and
/// writing all takes all or nothing.
pub proof fn data_operations_answer<'a>(
    r: &mut Command<'a, ScsiCommand, Scsi<BulkOnly>>,
    dst: &mut [u8],
    read: BulkOnlyTransportResult<usize>,
    w: &mut Command<'a, ScsiCommand, Scsi<BulkOnly>>,
    src: &[u8],
    written: BulkOnlyTransportResult<usize>,
)
    requires
        call_ensures(Command::<'a, ScsiCommand, Scsi<BulkOnly>>::read_data, (r, dst), read),
        old(r).transport().state == State::DataTransferFromHost,
        old(r).transport().buffered.len() <= usize::MAX,
        call_ensures(Command::<'a, ScsiCommand, Scsi<BulkOnly>>::write_data, (w, src), written),
        old(w).transport().state == State::DataTransferToHost,
        old(w).transport().status is None,
        old(w).transport().buffered.len() <= old(w).transport().capacity <= usize::MAX,
    ensures
        ({
            let all = old(r).transport().buffered;
            let n: nat = if old(dst)@.len() <= all.len() {
                old(dst)@.len()
            } else {
                all.len()
            };
            &&& read is Ok && read->Ok_0 == n
            &&& forall|i: int| 0 <= i < n ==> final(dst)@[i] == all[i]
            &&& final(r).transport().buffered == all.skip(n as int)
        }),
        ({
            let room = old(w).transport().capacity - old(w).transport().buffered.len();
            let left = old(w).transport().cbw.data_transfer_len;
            &&& written is Ok
            &&& written->Ok_0 <= src@.len() && written->Ok_0 <= left && written->Ok_0 <= room
            &&& written->Ok_0 == src@.len() || written->Ok_0 == left || written->Ok_0 == room
            &&& final(w).transport().buffered == old(w).transport().buffered + src@.take(
                written->Ok_0 as int,
            )
        }),
{
    crate::transport::wire::read_moves_the_start_of_the_buffer(old(r).transport(), old(dst)@);
    crate::transport::wire::write_appends_the_start_of_the_source(old(w).transport(), src@);
}

/// A class with both settings starts in setting 0, with a blank transport, no poll going
/// on and the engine that it was given; it is refused as one with setting 0 alone is.
pub proof fn new_with_both_settings_answers<Engine>(
    interface: InterfaceNumber,
    in_ep: EndpointAddress,
    out_ep: EndpointAddress,
    packet_size: u16,
    max_lun: u8,
    buf: Vec<u8>,
    engine: Engine,
    r: Result<ScsiUas<Engine>, BulkOnlyError>,
)
    requires
        call_ensures(
            ScsiUas::<Engine>::new,
            (interface, in_ep, out_ep, packet_size, max_lun, buf, engine),
            r,
        ),
    ensures
        max_lun > 15 ==> r is Err && r->Err_0 == BulkOnlyError::InvalidMaxLun,
        max_lun <= 15 && (buf@.len() < 31 || buf@.len() < packet_size) ==> r is Err && r->Err_0
            == BulkOnlyError::BufferTooSmall,
        max_lun <= 15 && buf@.len() >= 31 && buf@.len() >= packet_size ==> {
            &&& r is Ok
            &&& r->Ok_0@.active_alt == 0
            &&& r->Ok_0.engine() == engine
            &&& r->Ok_0@.inner.interface == interface
            &&& r->Ok_0@.inner.phase == Phase::Idle
            &&& crate::transport::wire::is_blank(r->Ok_0@.inner.transport)
            &&& r->Ok_0@.inner.transport.in_ep == in_ep
            &&& r->Ok_0@.inner.transport.out_ep == out_ep
            &&& r->Ok_0@.inner.transport.packet_size == packet_size
            &&& r->Ok_0@.inner.transport.max_lun == max_lun
            &&& r->Ok_0@.inner.transport.capacity == buf@.len()
        },
{
}

/// Setting 0 and 1 of its own interface are what a class with both settings can be
/// switched to; any other request changes nothing.
pub proof fn settings_answer<Engine>(
    class: &mut ScsiUas<Engine>,
    interface: InterfaceNumber,
    alternative: u8,
    accepted: Option<Vec<Effect>>,
)
    requires
        call_ensures(
            ScsiUas::<Engine>::set_alt_setting,
            (class, interface, alternative),
            accepted,
        ),
    ensures
        ({
            let fits = interface.0 == old(class)@.inner.interface.0 && (alternative == 0
                || alternative == 1);
            &&& fits <==> accepted is Some
            &&& fits ==> {
                &&& final(class)@.active_alt == alternative
                &&& crate::transport::wire::is_blank(final(class)@.inner.transport)
                &&& final(class)@.inner.phase == Phase::Idle
                &&& final(class)@.inner.interface == interface
                &&& (accepted->0)@ == seq![
                    Effect::UnstallIn,
                    Effect::UnstallOut,
                    Effect::ResetUas,
                ]
            }
            &&& !fits ==> final(class)@ == old(class)@
            &&& final(class).engine() == old(class).engine()
        }),
{
    crate::subclass::conduct::switch_resets_both_settings(old(class)@, alternative);
}

/// The active setting is told for the interface of the class, and for no other. A reset
/// makes it setting 0.
pub proof fn active_setting_answers<Engine>(
    class: &ScsiUas<Engine>,
    interface: InterfaceNumber,
    active: u8,
    told: Option<u8>,
    reset: &mut ScsiUas<Engine>,
    effects: Vec<Effect>,
)
    requires
        call_ensures(ScsiUas::<Engine>::active_alt, (class,), active),
        call_ensures(ScsiUas::<Engine>::get_alt_setting, (class, interface), told),
        call_ensures(ScsiUas::<Engine>::reset, (reset,), effects),
    ensures
        active == class@.active_alt,
        interface.0 == class@.inner.interface.0 ==> told == Some(active),
        interface.0 != class@.inner.interface.0 ==> told is None,
        final(reset)@.active_alt == 0,
        crate::transport::wire::is_blank(final(reset)@.inner.transport),
        final(reset)@.inner.phase == Phase::Idle,
        effects@ == seq![Effect::UnstallIn, Effect::UnstallOut, Effect::ResetUas],
{
    crate::subclass::conduct::switch_resets_both_settings(old(reset)@, 0);
}

/// In setting 1 a poll of the other setting does nothing.
pub proof fn poll_in_the_other_setting_answers<Engine>(class: &mut ScsiUas<Engine>, step: PollStep)
    requires
        call_ensures(ScsiUas::<Engine>::poll_transfer, (class,), step),
        old(class)@.active_alt == 1,
    ensures
        final(class)@ == old(class)@,
        step.effects@.len() == 0,
        step.next == (PollNext::Done { result: Ok(()) }),
{
    crate::subclass::conduct::poll_steps_say_what_they_hold(step);
    assert(final(class)@ =~= old(class)@);
}

/// The descriptors of a class with both settings: those of setting 0, then those of
/// setting 1.
pub proof fn configuration_descriptors_answer<Engine>(
    class: &ScsiUas<Engine>,
    descriptors: Vec<Descriptor>,
)
    requires
        call_ensures(ScsiUas::<Engine>::get_configuration_descriptors, (class,), descriptors),
    ensures
        ({
            let d = descriptors@;
            let number = class@.inner.interface;
            &&& d.len() == 13
            &&& d[0] == (Descriptor::Association {
                first: number,
                count: 1,
                class: 0x08,
                subclass: 0x06,
                protocol: 0x50,
            })
            &&& d[1] == (Descriptor::Interface {
                number,
                alternate: 0,
                class: 0x08,
                subclass: 0x06,
                protocol: 0x50,
            })
            &&& d[2] == (Descriptor::Endpoint { pipe: Pipe::DataIn })
            &&& d[3] == (Descriptor::Endpoint { pipe: Pipe::DataOut })
            &&& d[4] == (Descriptor::Interface {
                number,
                alternate: 1,
                class: 0x08,
                subclass: 0x06,
                protocol: 0x62,
            })
            &&& d[5] == (Descriptor::Endpoint { pipe: Pipe::DataIn })
            &&& d[6] == (Descriptor::PipeUsage { id: 3 })
            &&& d[7] == (Descriptor::Endpoint { pipe: Pipe::DataOut })
            &&& d[8] == (Descriptor::PipeUsage { id: 4 })
            &&& d[9] == (Descriptor::Endpoint { pipe: Pipe::Status })
            &&& d[10] == (Descriptor::PipeUsage { id: 2 })
            &&& d[11] == (Descriptor::Endpoint { pipe: Pipe::Command })
            &&& d[12] == (Descriptor::PipeUsage { id: 1 })
        }),
{
}

/// The body of a pipe usage descriptor is the number of the pipe and a zero.
pub proof fn pipe_usage_body_answers(id: u8, body: [u8; 2])
    requires
        call_ensures(pipe_usage_body, (id,), body),
    ensures
        body@.len() == 2,
        body@[0] == id,
        body@[1] == 0,
{
}

} // verus!

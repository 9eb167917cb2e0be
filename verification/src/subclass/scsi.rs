//! USB SCSI

use crate::endian::{u16_from_be, u32_from_be, u64_from_halves};
use crate::subclass::poll::{Phase, PollNextView, PollStepView, ScsiView};
use crate::subclass::Command;
use crate::transfer::TransferBus;
use crate::transport::bbb::{BulkOnly, Next, Step, TRANSPORT_BBB};
use crate::transport::model::{
    BulkOnlyError, BulkOnlyTransportResult, BulkOnlyView, NextView, State, TransferCall,
};
use crate::transport::{CommandStatus, TransportError};
use crate::usb::{Descriptor, Effect, EndpointAddress, InterfaceNumber, Pipe, Request, UsbError};
use crate::CLASS_MASS_STORAGE;
use vstd::prelude::*;

pub use crate::subclass::scsi_uas::ScsiUas;

verus! {

/// SCSI device subclass code
pub const SUBCLASS_SCSI: u8 = 0x06;

// SPC operation codes
pub const TEST_UNIT_READY: u8 = 0x00;

pub const REQUEST_SENSE: u8 = 0x03;

pub const INQUIRY: u8 = 0x12;

pub const MODE_SENSE_6: u8 = 0x1A;

pub const MODE_SENSE_10: u8 = 0x5A;

// SBC operation codes
pub const READ_10: u8 = 0x28;

pub const READ_16: u8 = 0x88;

pub const READ_CAPACITY_10: u8 = 0x25;

pub const READ_CAPACITY_16: u8 = 0x9E;

pub const WRITE_10: u8 = 0x2A;

pub const WRITE_16: u8 = 0x8A;

// MMC operation codes
pub const READ_FORMAT_CAPACITIES: u8 = 0x23;

/// SCSI command, decoded from a command block by [`parse_cb`]
#[derive(Copy, Clone, Debug)]
#[non_exhaustive]
#[allow(inconsistent_fields)]
pub enum ScsiCommand {
    /// An operation code that is not supported, or a command block too short for its code
    Unknown { cmd: u8 },
    // SPC
    Inquiry { evpd: bool, page_code: u8, alloc_len: u16 },
    TestUnitReady,
    RequestSense { desc: bool, alloc_len: u8 },
    ModeSense6 {
        dbd: bool,
        page_control: PageControl,
        page_code: u8,
        subpage_code: u8,
        alloc_len: u8,
    },
    ModeSense10 {
        dbd: bool,
        page_control: PageControl,
        page_code: u8,
        subpage_code: u8,
        alloc_len: u16,
    },
    // SBC
    ReadCapacity10,
    ReadCapacity16 { alloc_len: u32 },
    Read { lba: u64, len: u32 },
    Write { lba: u64, len: u32 },
    // MMC
    ReadFormatCapacities { alloc_len: u16 },
}

/// Which values of a mode page are asked for
#[derive(Copy, Clone, Debug, PartialEq, Eq, Structural)]
pub enum PageControl {
    CurrentValues,
    ChangeableValues,
    DefaultValues,
    SavedValues,
}

impl PageControl {
    /// The page control that the two-bit code `code` stands for
    pub open spec fn of_code(code: u8) -> PageControl {
        if code == 1 {
            PageControl::ChangeableValues
        } else if code == 2 {
            PageControl::DefaultValues
        } else if code == 3 {
            PageControl::SavedValues
        } else {
            PageControl::CurrentValues
        }
    }

    /// Decodes a two-bit page control code; anything larger means the current values
    pub fn from_code(code: u8) -> (page_control: PageControl)
        ensures
            page_control == PageControl::of_code(code),
    {
        match code {
            1 => PageControl::ChangeableValues,
            2 => PageControl::DefaultValues,
            3 => PageControl::SavedValues,
            _ => PageControl::CurrentValues,
        }
    }
}

/// Bit `n` of `byte`, where `weight` is `2^n`
pub open spec fn has_bit(byte: u8, weight: u8) -> bool {
    byte / weight % 2 == 1
}

/// The 32-bit big-endian field that starts at byte `at`
pub open spec fn field32(cb: Seq<u8>, at: int) -> u32 {
    crate::endian::be32(cb[at], cb[at + 1], cb[at + 2], cb[at + 3])
}

/// The 16-bit big-endian field that starts at byte `at`
pub open spec fn field16(cb: Seq<u8>, at: int) -> u16 {
    crate::endian::be16(cb[at], cb[at + 1])
}

/// The length that a command block with operation code `opcode` must have for
/// all of its operands to be there; nothing for codes that are not supported
pub open spec fn operand_end(opcode: u8) -> Option<nat> {
    if opcode == TEST_UNIT_READY || opcode == READ_CAPACITY_10 {
        Some(1)
    } else if opcode == INQUIRY || opcode == REQUEST_SENSE || opcode == MODE_SENSE_6 {
        Some(5)
    } else if opcode == READ_10 || opcode == WRITE_10 || opcode == MODE_SENSE_10 || opcode
        == READ_FORMAT_CAPACITIES {
        Some(9)
    } else if opcode == READ_CAPACITY_16 || opcode == READ_16 || opcode == WRITE_16 {
        Some(14)
    } else {
        None
    }
}

/// Whether a command block is of a supported kind and long enough for it
pub open spec fn is_known(cb: Seq<u8>) -> bool {
    operand_end(cb[0]) matches Some(end) && cb.len() >= end
}

/// The command that a nonempty command block stands for
pub open spec fn decoded(cb: Seq<u8>) -> ScsiCommand {
    let opcode = cb[0];
    if !is_known(cb) {
        ScsiCommand::Unknown { cmd: opcode }
    } else if opcode == TEST_UNIT_READY {
        ScsiCommand::TestUnitReady
    } else if opcode == INQUIRY {
        ScsiCommand::Inquiry {
            evpd: has_bit(cb[1], 1),
            page_code: cb[2],
            alloc_len: field16(cb, 3),
        }
    } else if opcode == REQUEST_SENSE {
        ScsiCommand::RequestSense { desc: has_bit(cb[1], 1), alloc_len: cb[4] }
    } else if opcode == READ_CAPACITY_10 {
        ScsiCommand::ReadCapacity10
    } else if opcode == READ_CAPACITY_16 {
        ScsiCommand::ReadCapacity16 { alloc_len: field32(cb, 10) }
    } else if opcode == READ_10 {
        ScsiCommand::Read { lba: field32(cb, 2) as u64, len: field16(cb, 7) as u32 }
    } else if opcode == READ_16 {
        ScsiCommand::Read {
            lba: crate::endian::be64(field32(cb, 2), field32(cb, 6)),
            len: field32(cb, 10),
        }
    } else if opcode == WRITE_10 {
        ScsiCommand::Write { lba: field32(cb, 2) as u64, len: field16(cb, 7) as u32 }
    } else if opcode == WRITE_16 {
        ScsiCommand::Write {
            lba: crate::endian::be64(field32(cb, 2), field32(cb, 6)),
            len: field32(cb, 10),
        }
    } else if opcode == MODE_SENSE_6 {
        ScsiCommand::ModeSense6 {
            dbd: has_bit(cb[1], 8),
            page_control: PageControl::of_code(cb[2] / 64),
            page_code: cb[2] % 64,
            subpage_code: cb[3],
            alloc_len: cb[4],
        }
    } else if opcode == MODE_SENSE_10 {
        ScsiCommand::ModeSense10 {
            dbd: has_bit(cb[1], 8),
            page_control: PageControl::of_code(cb[2] / 64),
            page_code: cb[2] % 64,
            subpage_code: cb[3],
            alloc_len: field16(cb, 7),
        }
    } else {
        ScsiCommand::ReadFormatCapacities { alloc_len: field16(cb, 7) }
    }
}

/// A command block that is too short for its operation code, or whose code is not
/// supported, decodes to its code alone; no other block does.
pub proof fn unknown_iff_unsupported_or_short(cb: Seq<u8>)
    requires
        cb.len() > 0,
    ensures
        decoded(cb) is Unknown <==> match operand_end(cb[0]) {
            Some(end) => cb.len() < end,
            None => true,
        },
        decoded(cb) matches ScsiCommand::Unknown { cmd } ==> cmd == cb[0],
{
}

/// Bytes behind the operands do not matter: a command block that is padded decodes
/// to the same command.
pub proof fn padding_does_not_change_the_command(cb: Seq<u8>, padding: Seq<u8>)
    requires
        cb.len() > 0,
        is_known(cb),
    ensures
        decoded(cb + padding) == decoded(cb),
{
}

/// Decodes a command block
///
/// A block that is too short for its operation code is [`ScsiCommand::Unknown`].
pub fn parse_cb(cb: &[u8]) -> (command: ScsiCommand)
    requires
        cb@.len() > 0,
    ensures
        command == decoded(cb@),
{
    let opcode: u8 = cb[0];
    let len: usize = cb.len();
    if opcode == TEST_UNIT_READY {
        ScsiCommand::TestUnitReady
    } else if opcode == INQUIRY && len >= 5 {
        ScsiCommand::Inquiry {
            evpd: cb[1] % 2 == 1,
            page_code: cb[2],
            alloc_len: u16_from_be(cb[3], cb[4]),
        }
    } else if opcode == REQUEST_SENSE && len >= 5 {
        ScsiCommand::RequestSense { desc: cb[1] % 2 == 1, alloc_len: cb[4] }
    } else if opcode == READ_CAPACITY_10 {
        ScsiCommand::ReadCapacity10
    } else if opcode == READ_CAPACITY_16 && len >= 14 {
        ScsiCommand::ReadCapacity16 { alloc_len: u32_from_be(cb[10], cb[11], cb[12], cb[13]) }
    } else if opcode == READ_10 && len >= 9 {
        ScsiCommand::Read {
            lba: u32_from_be(cb[2], cb[3], cb[4], cb[5]) as u64,
            len: u16_from_be(cb[7], cb[8]) as u32,
        }
    } else if opcode == READ_16 && len >= 14 {
        ScsiCommand::Read {
            lba: u64_from_halves(
                u32_from_be(cb[2], cb[3], cb[4], cb[5]),
                u32_from_be(cb[6], cb[7], cb[8], cb[9]),
            ),
            len: u32_from_be(cb[10], cb[11], cb[12], cb[13]),
        }
    } else if opcode == WRITE_10 && len >= 9 {
        ScsiCommand::Write {
            lba: u32_from_be(cb[2], cb[3], cb[4], cb[5]) as u64,
            len: u16_from_be(cb[7], cb[8]) as u32,
        }
    } else if opcode == WRITE_16 && len >= 14 {
        ScsiCommand::Write {
            lba: u64_from_halves(
                u32_from_be(cb[2], cb[3], cb[4], cb[5]),
                u32_from_be(cb[6], cb[7], cb[8], cb[9]),
            ),
            len: u32_from_be(cb[10], cb[11], cb[12], cb[13]),
        }
    } else if opcode == MODE_SENSE_6 && len >= 5 {
        ScsiCommand::ModeSense6 {
            dbd: cb[1] / 8 % 2 == 1,
            page_control: PageControl::from_code(cb[2] / 64),
            page_code: cb[2] % 64,
            subpage_code: cb[3],
            alloc_len: cb[4],
        }
    } else if opcode == MODE_SENSE_10 && len >= 9 {
        ScsiCommand::ModeSense10 {
            dbd: cb[1] / 8 % 2 == 1,
            page_control: PageControl::from_code(cb[2] / 64),
            page_code: cb[2] % 64,
            subpage_code: cb[3],
            alloc_len: u16_from_be(cb[7], cb[8]),
        }
    } else if opcode == READ_FORMAT_CAPACITIES && len >= 9 {
        ScsiCommand::ReadFormatCapacities { alloc_len: u16_from_be(cb[7], cb[8]) }
    } else {
        ScsiCommand::Unknown { cmd: opcode }
    }
}

/// What a poll needs next
pub enum PollNext {
    /// Read one packet of at most `max_len` bytes from the bulk OUT endpoint and
    /// hand the outcome to [`Scsi::packet_read`]
    ReadPacket { max_len: usize },
    /// Write `packet` to the bulk IN endpoint and hand the outcome to
    /// [`Scsi::packet_written`]
    WritePacket { packet: Vec<u8> },
    /// Let the user process the command of [`Scsi::command`], then call
    /// [`Scsi::callback_done`]
    Callback { kind: ScsiCommand, lun: u8 },
    /// Nothing more: the poll has ended
    Done { result: Result<(), UsbError> },
}

/// The effects to perform, in this order, and what the poll needs after them
pub struct PollStep {
    pub effects: Vec<Effect>,
    pub next: PollNext,
}

impl View for PollStep {
    type V = PollStepView;

    open spec fn view(&self) -> PollStepView {
        PollStepView {
            effects: self.effects@,
            next: match self.next {
                PollNext::ReadPacket { max_len } => PollNextView::ReadPacket {
                    max_len: max_len as nat,
                },
                PollNext::WritePacket { packet } => PollNextView::WritePacket { packet: packet@ },
                PollNext::Callback { kind, lun } => PollNextView::Callback { kind, lun },
                PollNext::Done { result } => PollNextView::Done { result },
            },
        }
    }
}

/// Collapses the result of a transport operation: only a USB error other than
/// [`UsbError::WouldBlock`] is passed on, anything else is left to the next poll
pub fn map_ignore<T>(res: BulkOnlyTransportResult<T>) -> (r: Result<(), UsbError>)
    ensures
        r == crate::subclass::poll::ignored(res),
{
    match res {
        Ok(_) | Err(TransportError::Error(_)) => Ok(()),
        Err(TransportError::Usb(e)) => {
            if e == UsbError::WouldBlock {
                Ok(())
            } else {
                Err(e)
            }
        },
    }
}

/// The effects of `first`, and after them those of `second`
fn joined(first: Vec<Effect>, second: Vec<Effect>) -> (all: Vec<Effect>)
    ensures
        all@ == first@ + second@,
{
    let mut all = first;
    let mut rest = second;
    all.append(&mut rest);
    all
}

/// SCSI USB Mass Storage subclass
pub struct Scsi<T> {
    interface: InterfaceNumber,
    pub(crate) transport: T,
    phase: Phase,
    transfers: bool,
}

impl View for Scsi<BulkOnly> {
    type V = ScsiView;

    closed spec fn view(&self) -> ScsiView {
        ScsiView {
            interface: self.interface,
            transport: self.transport@,
            phase: self.phase,
            transfers: self.transfers,
        }
    }
}

/// SCSI subclass implementation with [`BulkOnly`] transport
impl Scsi<BulkOnly> {
    pub closed spec fn wf(self) -> bool {
        &&& self.transport.wf()
        &&& self@.inv()
    }

    /// The invariant of the state machine holds of every consistent class.
    pub proof fn inv_holds(self)
        requires
            self.wf(),
        ensures
            self@.inv(),
    {
    }

    /// Creates an SCSI over Bulk Only Transport instance
    ///
    /// # Arguments
    /// * `interface` - number of the interface of the function
    /// * `in_ep`, `out_ep` - addresses of the bulk endpoints
    /// * `packet_size` - Maximum USB packet size. Allowed values: 8,16,32,64
    /// * `max_lun` - The max index of the Logical Unit
    /// * `buf` - The underlying IO buffer. It is **required** to fit at least a `CBW` and/or a
    ///   single packet. It is **recommended** that buffer fits at least one sector
    ///
    /// # Errors
    /// * [`BulkOnlyError::InvalidMaxLun`]
    /// * [`BulkOnlyError::BufferTooSmall`]
    pub fn new(
        interface: InterfaceNumber,
        in_ep: EndpointAddress,
        out_ep: EndpointAddress,
        packet_size: u16,
        max_lun: u8,
        buf: Vec<u8>,
    ) -> (r: Result<Scsi<BulkOnly>, BulkOnlyError>)
        ensures
            match r {
                Ok(scsi) => {
                    &&& BulkOnly::config_error(packet_size, max_lun, buf@.len()) is None
                    &&& scsi.wf()
                    &&& scsi@ == (ScsiView {
                        interface,
                        transport: BulkOnlyView::initial(
                            packet_size,
                            max_lun,
                            buf@.len(),
                            in_ep,
                            out_ep,
                        ),
                        phase: Phase::Idle,
                        transfers: false,
                    })
                },
                Err(e) => BulkOnly::config_error(packet_size, max_lun, buf@.len()) == Some(e),
            },
    {
        match BulkOnly::new(in_ep, out_ep, packet_size, max_lun, buf) {
            Ok(transport) => {
                proof {
                    transport.inv_holds();
                }
                Ok(Scsi { interface, transport, phase: Phase::Idle, transfers: false })
            },
            Err(e) => Err(e),
        }
    }

    /// Starts to drive the subclass in both directions
    ///
    /// The user may or may not be asked to process a command. Moreover, this may
    /// happen multiple times, if the subclass is unable to proceed further.
    pub fn poll(&mut self) -> (step: PollStep)
        requires
            old(self).wf(),
        ensures
            final(self).wf(),
            (final(self)@, step@) == old(self)@.poll_step(false),
    {
        self.transfers = false;
        let step = self.transport.read();
        self.pre_read(step)
    }

    /// Starts to drive the subclass with zero-copy bulk data phases
    ///
    /// Commands, statuses and small data go packet by packet as in [`Scsi::poll`].
    /// While the user drives the OUT data phase by a transfer, no packet is read: it
    /// would collide with the transfer.
    pub fn poll_transfer(&mut self) -> (step: PollStep)
        requires
            old(self).wf(),
        ensures
            final(self).wf(),
            (final(self)@, step@) == old(self)@.poll_step(true),
    {
        self.transfers = true;
        let step = if self.transport.is_data_transfer_phase() {
            Step::done(Ok(()))
        } else {
            self.transport.read()
        };
        self.pre_read(step)
    }

    /// Takes the outcome of reading the bulk OUT endpoint
    pub fn packet_read(&mut self, outcome: Result<&[u8], UsbError>) -> (step: PollStep)
        requires
            old(self).wf(),
            old(self)@.is_transferring(),
            old(self)@.transport.takes_packet(),
            outcome matches Ok(packet) ==> packet@.len() <= old(self)@.transport.packet_size,
        ensures
            final(self).wf(),
            (final(self)@, step@) == old(self)@.packet_read_step(
                match outcome {
                    Ok(packet) => Ok(packet@),
                    Err(e) => Err(e),
                },
            ),
    {
        let step = self.transport.packet_read(outcome);
        self.go_on(step)
    }

    /// Takes the outcome of writing the offered packet to the bulk IN endpoint
    pub fn packet_written(&mut self, outcome: Result<usize, UsbError>) -> (step: PollStep)
        requires
            old(self).wf(),
            old(self)@.is_transferring(),
            old(self)@.transport.offers_packet(),
            outcome matches Ok(count) ==> count <= old(self)@.transport.next_packet().len(),
        ensures
            final(self).wf(),
            (final(self)@, step@) == old(self)@.packet_written_step(outcome),
    {
        let step = self.transport.packet_written(outcome);
        self.go_on(step)
    }

    /// The user is done with the command, for now or for good
    pub fn callback_done(&mut self) -> (step: PollStep)
        requires
            old(self).wf(),
            old(self)@.phase == Phase::User,
        ensures
            final(self).wf(),
            (final(self)@, step@) == old(self)@.callback_done_step(),
    {
        let step = self.transport.write();
        self.post_write(step)
    }

    /// Goes on with the transport's `step` in the phase that the poll is in
    fn go_on(&mut self, step: Step) -> (poll_step: PollStep)
        requires
            old(self).transport.wf(),
            old(self)@.is_transferring(),
            step@.next != Self::full_packet_expected(),
        ensures
            final(self).wf(),
            (final(self)@, poll_step@) == old(self)@.continued(old(self)@.transport, step@),
    {
        match self.phase {
            Phase::PreRead => self.pre_read(step),
            Phase::PreWrite => self.pre_write(step),
            Phase::PostWrite => self.post_write(step),
            _ => self.post_read(step),
        }
    }

    /// The transport cannot write before it gets more data
    spec fn full_packet_expected() -> NextView {
        NextView::Done { result: Err(TransportError::Error(BulkOnlyError::FullPacketExpected)) }
    }

    /// The transport needs `step` of the reading before the user action
    fn pre_read(&mut self, step: Step) -> (poll_step: PollStep)
        requires
            old(self).transport.wf(),
        ensures
            final(self).wf(),
            (final(self)@, poll_step@) == old(self)@.in_pre_read(old(self)@.transport, step@),
    {
        proof {
            self.transport.inv_holds();
        }
        match step.next {
            Next::Done { result } => match map_ignore(result) {
                Err(e) => self.end(step.effects, Err(e)),
                Ok(()) => {
                    let write_step = self.transport.write();
                    let effects = joined(step.effects, write_step.effects);
                    self.pre_write(Step { effects, next: write_step.next })
                },
            },
            _ => self.pass_on(Phase::PreRead, step),
        }
    }

    /// The transport needs `step` of the writing before the user action
    fn pre_write(&mut self, step: Step) -> (poll_step: PollStep)
        requires
            old(self).transport.wf(),
        ensures
            final(self).wf(),
            (final(self)@, poll_step@) == old(self)@.in_pre_write(old(self)@.transport, step@),
    {
        proof {
            self.transport.inv_holds();
        }
        match step.next {
            Next::Done { result } => match map_ignore(result) {
                Err(e) => self.end(step.effects, Err(e)),
                Ok(()) => {
                    if self.transport.get_command().is_some() && !self.transport.has_status() {
                        self.ask_user(step.effects)
                    } else {
                        self.end(step.effects, Ok(()))
                    }
                },
            },
            _ => self.pass_on(Phase::PreWrite, step),
        }
    }

    /// The transport needs `step` of the writing after the user action
    fn post_write(&mut self, step: Step) -> (poll_step: PollStep)
        requires
            old(self).transport.wf(),
            step@.next == Self::full_packet_expected() ==> old(self)@.transport.state.is_data(),
        ensures
            final(self).wf(),
            (final(self)@, poll_step@) == old(self)@.in_post_write(old(self)@.transport, step@),
    {
        proof {
            self.transport.inv_holds();
        }
        match step.next {
            Next::Done { result } => {
                match result {
                    Err(TransportError::Error(BulkOnlyError::FullPacketExpected)) => {
                        return self.ask_user(step.effects);
                    },
                    _ => {},
                }
                match map_ignore(result) {
                    Err(e) => self.end(step.effects, Err(e)),
                    Ok(()) => {
                        let read_step = if self.transfers
                            && self.transport.is_data_transfer_phase() {
                            self.transport.finish_data_transfer_phase()
                        } else {
                            self.transport.read()
                        };
                        let effects = joined(step.effects, read_step.effects);
                        self.post_read(Step { effects, next: read_step.next })
                    },
                }
            },
            _ => self.pass_on(Phase::PostWrite, step),
        }
    }

    /// The transport needs `step` of the reading after the user action
    fn post_read(&mut self, step: Step) -> (poll_step: PollStep)
        requires
            old(self).transport.wf(),
        ensures
            final(self).wf(),
            (final(self)@, poll_step@) == old(self)@.in_post_read(old(self)@.transport, step@),
    {
        proof {
            self.transport.inv_holds();
        }
        match step.next {
            Next::Done { result } => self.end(step.effects, map_ignore(result)),
            _ => self.pass_on(Phase::PostRead, step),
        }
    }

    /// Passes an endpoint operation of the transport on
    fn pass_on(&mut self, phase: Phase, step: Step) -> (poll_step: PollStep)
        requires
            old(self).transport.wf(),
            phase != Phase::User,
        ensures
            final(self).wf(),
            (final(self)@, poll_step@) == old(self)@.passed_on(
                phase,
                old(self)@.transport,
                step@,
            ),
    {
        proof {
            self.transport.inv_holds();
        }
        self.phase = phase;
        let next = match step.next {
            Next::ReadPacket { max_len } => PollNext::ReadPacket { max_len },
            Next::WritePacket { packet } => PollNext::WritePacket { packet },
            Next::Done { result } => PollNext::Done { result: map_ignore(result) },
        };
        PollStep { effects: step.effects, next }
    }

    /// Asks the user to process the command
    fn ask_user(&mut self, effects: Vec<Effect>) -> (poll_step: PollStep)
        requires
            old(self).transport.wf(),
            old(self)@.transport.state.is_data(),
        ensures
            final(self).wf(),
            (final(self)@, poll_step@) == old(self)@.user_asked(effects@),
    {
        proof {
            self.transport.inv_holds();
        }
        self.phase = Phase::User;
        let (kind, lun): (ScsiCommand, u8) = self.current();
        PollStep { effects, next: PollNext::Callback { kind, lun } }
    }

    /// Ends the poll
    fn end(&mut self, effects: Vec<Effect>, result: Result<(), UsbError>) -> (poll_step: PollStep)
        requires
            old(self).transport.wf(),
        ensures
            final(self).wf(),
            (final(self)@, poll_step@) == old(self)@.over(effects@, result),
    {
        proof {
            self.transport.inv_holds();
        }
        self.phase = Phase::Idle;
        PollStep { effects, next: PollNext::Done { result } }
    }

    /// The command that the user has to process
    pub fn command(&mut self) -> (command: Command<'_, ScsiCommand, Scsi<BulkOnly>>)
        requires
            old(self).wf(),
            old(self)@.phase == Phase::User,
        ensures
            command.wf(),
            *command.borrowed() == *old(self),
            *final(command.borrowed()) == *final(self),
            command.spec_kind() == decoded(old(self)@.transport.cbw.block),
            command.spec_lun() == old(self)@.transport.cbw.lun,
    {
        let (kind, lun): (ScsiCommand, u8) = self.current();
        Command { class: self, kind, lun }
    }

    /// The command that the transport is executing
    fn current(&self) -> (r: (ScsiCommand, u8))
        requires
            self.transport.wf(),
            self@.transport.state.is_data(),
        ensures
            r == (decoded(self@.transport.cbw.block), self@.transport.cbw.lun),
    {
        match self.transport.get_command() {
            Some(block) => (parse_cb(block.bytes), block.lun),
            // there is a command block from the start of the data phase on
            None => vstd::pervasive::unreached(),
        }
    }

    /// The halt of a bulk endpoint was cleared, see [`BulkOnly::halt_cleared`]
    pub fn halt_cleared(&mut self) -> (step: Step)
        requires
            old(self).wf(),
            old(self)@.transport.state == State::StatusTransferEpStall,
        ensures
            final(self).wf(),
            final(self)@ == (ScsiView {
                transport: old(self)@.transport.halt_cleared_step().0,
                ..old(self)@
            }),
            step@ == old(self)@.transport.halt_cleared_step().1,
    {
        let step = self.transport.halt_cleared();
        proof {
            self.transport.inv_holds();
        }
        step
    }

    /// Takes the outcome of writing the CSW that [`Scsi::halt_cleared`] asks for
    pub fn csw_written(&mut self, outcome: Result<usize, UsbError>) -> (step: Step)
        requires
            old(self).wf(),
            old(self)@.transport.state == State::StatusTransfer,
            outcome matches Ok(count) ==> count <= old(self)@.transport.next_packet().len(),
        ensures
            final(self).wf(),
            final(self)@ == (ScsiView {
                transport: old(self)@.transport.packet_written_step(outcome).0,
                ..old(self)@
            }),
            step@ == old(self)@.transport.packet_written_step(outcome).1,
    {
        let step = self.transport.packet_written(outcome);
        proof {
            self.transport.inv_holds();
        }
        step
    }

    /// The descriptors of the function: the interface and its bulk endpoints
    pub fn get_configuration_descriptors(&self) -> (descriptors: Vec<Descriptor>)
        ensures
            descriptors@ == bulk_only_descriptors(self@.interface),
    {
        let mut descriptors: Vec<Descriptor> = Vec::new();
        descriptors.push(
            Descriptor::Association {
                first: self.interface,
                count: 1,
                class: CLASS_MASS_STORAGE,
                subclass: SUBCLASS_SCSI,
                protocol: TRANSPORT_BBB,
            },
        );
        descriptors.push(
            Descriptor::Interface {
                number: self.interface,
                alternate: 0,
                class: CLASS_MASS_STORAGE,
                subclass: SUBCLASS_SCSI,
                protocol: TRANSPORT_BBB,
            },
        );
        let mut endpoints = self.transport.get_endpoint_descriptors();
        descriptors.append(&mut endpoints);
        assert(descriptors@ =~= bulk_only_descriptors(self@.interface));
        descriptors
    }

    /// The bus was reset: the transport is reset as well and any poll is over
    pub fn reset(&mut self) -> (effects: Vec<Effect>)
        requires
            old(self).wf(),
        ensures
            final(self).wf(),
            final(self)@ == old(self)@.after_reset(),
            effects@ == seq![Effect::UnstallIn, Effect::UnstallOut],
    {
        self.phase = Phase::Idle;
        let effects = self.transport.reset();
        proof {
            self.transport.inv_holds();
        }
        effects
    }

    /// Addresses of the data endpoints, bulk IN and bulk OUT
    pub fn data_endpoints(&self) -> (r: (EndpointAddress, EndpointAddress))
        ensures
            r == (self@.transport.in_ep, self@.transport.out_ep),
    {
        self.transport.data_endpoints()
    }

    /// Number of the interface of the function
    pub fn interface(&self) -> (r: InterfaceNumber)
        ensures
            r == self@.interface,
    {
        self.interface
    }

    /// Answers a control request to the host, see [`BulkOnly::control_in`]
    pub fn control_in(&self, req: &Request) -> (answer: Option<u8>)
        ensures
            answer == self@.transport.control_answer(*req),
    {
        self.transport.control_in(req)
    }

    /// Whether to accept a control request from the host, see [`BulkOnly::control_out`]
    pub fn control_out(&self, req: &Request) -> (accept: bool)
        ensures
            accept == self@.transport.clears_halt(*req),
    {
        self.transport.control_out(req)
    }
}

/// SCSI over Bulk Only Transport command
impl<'a> Command<'a, ScsiCommand, Scsi<BulkOnly>> {
    /// State of the transport while the command is being processed
    pub open spec fn transport(self) -> BulkOnlyView {
        (*self.borrowed())@.transport
    }

    /// The class waits for the user to process the command
    pub open spec fn wf(self) -> bool {
        &&& (*self.borrowed()).wf()
        &&& (*self.borrowed())@.phase == Phase::User
    }

    /// This is the command `before`; nothing but the transport changed
    pub open spec fn continues(self, before: Self) -> bool {
        &&& self.wf()
        &&& self.spec_kind() == before.spec_kind()
        &&& self.spec_lun() == before.spec_lun()
        &&& (*self.borrowed())@ == (ScsiView {
            transport: self.transport(),
            ..(*before.borrowed())@
        })
    }

    /// Reads data from the host, see [`BulkOnly::read_data`]
    pub fn read_data(&mut self, dst: &mut [u8]) -> (r: BulkOnlyTransportResult<usize>)
        requires
            old(self).wf(),
        ensures
            final(self).continues(*old(self)),
            *final(final(self).borrowed()) == *final(old(self).borrowed()),
            (final(self).transport(), final(dst)@, r) == old(self).transport().data_read(
                old(dst)@,
            ),
    {
        let r = self.class.transport.read_data(dst);
        proof {
            self.class.transport.inv_holds();
        }
        r
    }

    /// Writes data to the host, see [`BulkOnly::write_data`]
    pub fn write_data(&mut self, src: &[u8]) -> (r: BulkOnlyTransportResult<usize>)
        requires
            old(self).wf(),
        ensures
            final(self).continues(*old(self)),
            *final(final(self).borrowed()) == *final(old(self).borrowed()),
            (final(self).transport(), r) == old(self).transport().data_written(src@),
    {
        let r = self.class.transport.write_data(src);
        proof {
            self.class.transport.inv_holds();
        }
        r
    }

    /// Writes all data to the host or nothing, see [`BulkOnly::try_write_data_all`]
    pub fn try_write_data_all(&mut self, src: &[u8]) -> (r: BulkOnlyTransportResult<()>)
        requires
            old(self).wf(),
        ensures
            final(self).continues(*old(self)),
            *final(final(self).borrowed()) == *final(old(self).borrowed()),
            (final(self).transport(), r) == old(self).transport().all_data_written(src@),
    {
        let r = self.class.transport.try_write_data_all(src);
        proof {
            self.class.transport.inv_holds();
        }
        r
    }

    /// The command passed
    ///
    /// See [`BulkOnly::set_status`] for when the CSW is sent. If the user reads by a
    /// transfer, this comes after the transfer is retired; before, it holds the CSW back
    /// until a reset.
    pub fn pass(self)
        requires
            self.wf(),
        ensures
            (*final(self.borrowed())).wf(),
            (*final(self.borrowed()))@ == (ScsiView {
                transport: self.transport().with_status(CommandStatus::Passed),
                ..(*self.borrowed())@
            }),
    {
        self.class.transport.set_status(CommandStatus::Passed);
    }

    /// The command failed
    ///
    /// See [`BulkOnly::set_status`] for when the CSW is sent. If the user reads by a
    /// transfer, this comes after the transfer is retired; before, it holds the CSW back
    /// until a reset.
    pub fn fail(self)
        requires
            self.wf(),
        ensures
            (*final(self.borrowed())).wf(),
            (*final(self.borrowed()))@ == (ScsiView {
                transport: self.transport().with_status(CommandStatus::Failed),
                ..(*self.borrowed())@
            }),
    {
        self.class.transport.set_status(CommandStatus::Failed);
    }

    /// The command failed with a phase error
    ///
    /// See [`BulkOnly::set_status`] for when the CSW is sent. If the user reads by a
    /// transfer, this comes after the transfer is retired; before, it holds the CSW back
    /// until a reset.
    pub fn fail_phase(self)
        requires
            self.wf(),
        ensures
            (*final(self.borrowed())).wf(),
            (*final(self.borrowed()))@ == (ScsiView {
                transport: self.transport().with_status(CommandStatus::PhaseError),
                ..(*self.borrowed())@
            }),
    {
        self.class.transport.set_status(CommandStatus::PhaseError);
    }

    /// Reads data by a zero-copy transfer, see [`BulkOnly::read_data_transfer`]
    pub fn read_data_transfer<B: TransferBus>(&mut self, bus: &B, dst: &mut [u8]) -> (r:
        BulkOnlyTransportResult<usize>)
        requires
            old(self).wf(),
        ensures
            final(self).continues(*old(self)),
            *final(final(self).borrowed()) == *final(old(self).borrowed()),
            final(dst)@.len() == old(dst)@.len(),
            match old(self).transport().read_call(old(dst)@.len()) {
                TransferCall::Refused => {
                    &&& r == Err::<usize, TransportError<BulkOnlyError>>(
                        TransportError::Error(BulkOnlyError::InvalidState),
                    )
                    &&& final(self).transport() == old(self).transport()
                    &&& final(dst)@ == old(dst)@
                },
                TransferCall::Submit { ep, len } => exists|
                    b: &mut [u8],
                    outcome: Result<(), UsbError>,
                |
                    {
                        &&& b@ == old(dst)@.take(len as int)
                        &&& final(dst)@ == final(b)@ + old(dst)@.skip(len as int)
                        &&& #[trigger] call_ensures(B::submit_read, (bus, ep, b), outcome)
                        &&& (final(self).transport(), r) == old(self).transport().transfer_submitted(outcome)
                    },
                TransferCall::Poll { ep } => {
                    &&& final(dst)@ == old(dst)@
                    &&& exists|outcome: Option<Result<usize, UsbError>>|
                        {
                            &&& #[trigger] call_ensures(B::poll_transfer, (bus, ep), outcome)
                            &&& (final(self).transport(), r) == old(self).transport().transfer_polled(outcome)
                        }
                },
            },
    {
        let r = self.class.transport.read_data_transfer(bus, dst);
        proof {
            self.class.transport.inv_holds();
        }
        r
    }

    /// Writes data by a zero-copy transfer, see [`BulkOnly::write_data_transfer`]
    pub fn write_data_transfer<B: TransferBus>(&mut self, bus: &B, src: &[u8]) -> (r:
        BulkOnlyTransportResult<usize>)
        requires
            old(self).wf(),
        ensures
            final(self).continues(*old(self)),
            *final(final(self).borrowed()) == *final(old(self).borrowed()),
            old(self).transport().write_by_transfer(bus, src@, final(self).transport(), r),
    {
        let r = self.class.transport.write_data_transfer(bus, src);
        proof {
            self.class.transport.inv_holds();
        }
        r
    }

    /// Queues a zero-copy transfer, see [`BulkOnly::write_data_transfer_pipelined`]
    pub fn write_data_transfer_pipelined<B: TransferBus>(&mut self, bus: &B, src: &[u8]) -> (r:
        BulkOnlyTransportResult<()>)
        requires
            old(self).wf(),
        ensures
            final(self).continues(*old(self)),
            *final(final(self).borrowed()) == *final(old(self).borrowed()),
            old(self).transport().write_pipelined(bus, src@, final(self).transport(), r),
    {
        let r = self.class.transport.write_data_transfer_pipelined(bus, src);
        proof {
            self.class.transport.inv_holds();
        }
        r
    }

    /// Retires a queued zero-copy transfer, see [`BulkOnly::poll_data_transfer`]
    pub fn poll_data_transfer<B: TransferBus>(&mut self, bus: &B) -> (r: BulkOnlyTransportResult<
        Option<usize>,
    >)
        requires
            old(self).wf(),
        ensures
            final(self).continues(*old(self)),
            *final(final(self).borrowed()) == *final(old(self).borrowed()),
            old(self).transport().poll_pipelined(bus, final(self).transport(), r),
    {
        let r = self.class.transport.poll_data_transfer(bus);
        proof {
            self.class.transport.inv_holds();
        }
        r
    }
}

/// The descriptors of SCSI over Bulk Only Transport on `interface`
pub open spec fn bulk_only_descriptors(interface: InterfaceNumber) -> Seq<Descriptor> {
    seq![
        Descriptor::Association {
            first: interface,
            count: 1,
            class: CLASS_MASS_STORAGE,
            subclass: SUBCLASS_SCSI,
            protocol: TRANSPORT_BBB,
        },
        Descriptor::Interface {
            number: interface,
            alternate: 0,
            class: CLASS_MASS_STORAGE,
            subclass: SUBCLASS_SCSI,
            protocol: TRANSPORT_BBB,
        },
        Descriptor::Endpoint { pipe: Pipe::DataIn },
        Descriptor::Endpoint { pipe: Pipe::DataOut },
    ]
}

} // verus!

//! The Bulk Only Transport as a state machine
//!
//! [`BulkOnlyView`] is the state. Its methods say, for every event, what the
//! next state is and what has to be done to the endpoints.

use crate::transfer::TransferBus;
use crate::transport::cbw::{CbwView, DataDirection, CBW_LEN, CSW_LEN};
use crate::transport::{CommandStatus, TransportError};
use crate::usb::{
    Effect, EndpointAddress, Recipient, Request, RequestType, UsbError, CLEAR_FEATURE,
    FEATURE_ENDPOINT_HALT,
};
use vstd::prelude::*;

verus! {

/// Class request Get Max LUN
pub const CLASS_SPECIFIC_GET_MAX_LUN: u8 = 0xFE;

/// Bulk Only Transport error
#[derive(Copy, Clone, Debug, PartialEq, Eq, Structural)]
pub enum BulkOnlyError {
    /// Not enough space to fit additional data
    IoBufferOverflow,
    /// The maximum LUN is more than 15
    InvalidMaxLun,
    /// Transport is not in Data Transfer state
    InvalidState,
    /// Data Transfer expects a full packet to be sent next but not enough data available
    FullPacketExpected,
    /// The IO buffer cannot fit a CBW or a single full packet
    BufferTooSmall,
}

/// What a Bulk Only Transport is busy with
#[derive(Copy, Clone, Debug, PartialEq, Eq, Structural)]
pub enum State {
    /// No active transfer
    Idle,
    /// Reading CBW packets
    CommandTransfer,
    /// Writing bytes to the host
    DataTransferToHost,
    /// Reading bytes from the host
    DataTransferFromHost,
    /// Data transfer not expected
    DataTransferNoData,
    /// Writing CSW packets
    StatusTransfer,
    /// CSW deferred until the host clears the halt of the bulk endpoint
    StatusTransferEpStall,
}

impl State {
    /// A command is being executed
    pub open spec fn is_data(self) -> bool {
        ||| self == State::DataTransferToHost
        ||| self == State::DataTransferFromHost
        ||| self == State::DataTransferNoData
    }

    /// No command has been received yet
    pub open spec fn is_waiting(self) -> bool {
        self == State::Idle || self == State::CommandTransfer
    }

    /// The status of a command is being reported
    pub open spec fn is_status(self) -> bool {
        self == State::StatusTransfer || self == State::StatusTransferEpStall
    }
}

/// The one call on the bus that an operation on transfers makes
#[derive(Copy, Clone, Debug, PartialEq, Eq, Structural)]
pub enum TransferCall {
    /// None: the operation is refused in this state
    Refused,
    /// Submit the first `len` bytes of the user's slice on `ep`
    Submit { ep: EndpointAddress, len: usize },
    /// Poll `ep`
    Poll { ep: EndpointAddress },
}

/// Result of a transport operation
pub type BulkOnlyTransportResult<T> = Result<T, TransportError<BulkOnlyError>>;

/// The endpoint operation that a transport needs next
#[verifier::ext_equal]
pub enum NextView {
    /// Read one packet of at most `max_len` bytes from the bulk OUT endpoint
    ReadPacket { max_len: nat },
    /// Write `packet` to the bulk IN endpoint
    WritePacket { packet: Seq<u8> },
    /// Nothing more: the operation has ended
    Done { result: BulkOnlyTransportResult<()> },
}

/// The effects to perform, in this order, and the operation that follows them
#[verifier::ext_equal]
pub struct StepView {
    pub effects: Seq<Effect>,
    pub next: NextView,
}

impl StepView {
    /// The operation has ended and there is nothing to do
    pub open spec fn done(result: BulkOnlyTransportResult<()>) -> StepView {
        StepView { effects: Seq::empty(), next: NextView::Done { result } }
    }
}

/// `residue` after `n` bytes more were transferred
pub open spec fn residue_left(residue: u32, n: nat) -> u32 {
    if residue >= n {
        (residue - n) as u32
    } else {
        0
    }
}

/// State of a Bulk Only Transport
#[verifier::ext_equal]
pub struct BulkOnlyView {
    pub state: State,
    /// Contents of the IO buffer
    pub buffered: Seq<u8>,
    /// Capacity of the IO buffer
    pub capacity: nat,
    /// The current command; its length field counts down to the bytes that were not
    /// transferred
    pub cbw: CbwView,
    /// How much of the data that the host announced for the device the user has not
    /// read yet
    pub unread: u32,
    /// The status of the current command, once it has been set
    pub status: Option<CommandStatus>,
    pub max_lun: u8,
    pub packet_size: u16,
    pub in_ep: EndpointAddress,
    pub out_ep: EndpointAddress,
    /// A submitted zero-copy transfer has not been retired yet
    pub transfer_in_flight: bool,
    /// The data phase is driven by zero-copy transfers
    pub transfer_phase: bool,
}

impl BulkOnlyView {
    /// The residue of the current command: to the host, the bytes that were not sent;
    /// from the host, the bytes that the user has not read, received or not
    pub open spec fn residue(self) -> u32 {
        if self.cbw.direction == DataDirection::Out {
            self.unread
        } else {
            self.cbw.data_transfer_len
        }
    }

    /// The CSW of the current command
    pub open spec fn csw(self) -> Seq<u8>
        recommends
            self.status is Some,
    {
        crate::transport::cbw::csw_bytes(self.cbw.tag, self.residue(), self.status->0)
    }

    /// What holds between any two operations
    pub open spec fn inv(self) -> bool {
        &&& self.buffered.len() <= self.capacity <= usize::MAX
        &&& CBW_LEN <= self.capacity
        &&& self.packet_size <= self.capacity
        &&& self.max_lun <= 0x0F
        &&& self.cbw.lun <= 0x0F
        // a command being executed or reported has a command block
        &&& !self.state.is_waiting() ==> 1 <= self.cbw.block.len() <= 16
        // before a command there is no status and nothing but the start of a CBW
        &&& self.state.is_waiting() ==> self.status is None
        &&& self.state == State::Idle ==> self.buffered.len() == 0
        &&& self.state == State::CommandTransfer ==> 0 < self.buffered.len() < CBW_LEN
        // the direction of the command decides on its data phase
        &&& self.state == State::DataTransferToHost ==> self.cbw.direction == DataDirection::In
        &&& self.state == State::DataTransferFromHost ==> {
            &&& self.cbw.direction == DataDirection::Out
            &&& self.unread <= self.cbw.data_transfer_len + self.buffered.len()
        }
        &&& self.state == State::DataTransferNoData ==> {
            &&& self.cbw.direction == DataDirection::NotExpected
            &&& self.cbw.data_transfer_len == 0
        }
        // after it there is a status, and the buffer holds what is left of the CSW
        &&& self.state.is_status() ==> {
            &&& self.status is Some
            &&& 0 < self.buffered.len() <= CSW_LEN
            &&& self.buffered == self.csw().skip(CSW_LEN - self.buffered.len())
        }
        &&& self.state == State::StatusTransferEpStall ==> self.buffered.len() == CSW_LEN
        // transfers belong to a data phase
        &&& self.transfer_in_flight ==> self.transfer_phase
        &&& self.transfer_phase ==> self.state == State::DataTransferToHost || self.state
            == State::DataTransferFromHost
    }

    /// A transport just made: idle, with an empty buffer
    pub open spec fn initial(
        packet_size: u16,
        max_lun: u8,
        capacity: nat,
        in_ep: EndpointAddress,
        out_ep: EndpointAddress,
    ) -> BulkOnlyView {
        BulkOnlyView {
            state: State::Idle,
            buffered: Seq::empty(),
            capacity,
            cbw: CbwView::none(),
            unread: 0,
            status: None,
            max_lun,
            packet_size,
            in_ep,
            out_ep,
            transfer_in_flight: false,
            transfer_phase: false,
        }
    }

    /// How many bytes more fit the buffer
    pub open spec fn room(self) -> nat {
        (self.capacity - self.buffered.len()) as nat
    }

    /// Whether data for the host can be written
    pub open spec fn accepts_data(self) -> bool {
        self.state == State::DataTransferToHost && self.status is None
    }

    /// Whether zero-copy transfers drive the data phase from the host
    pub open spec fn out_transfer_phase(self) -> bool {
        self.state == State::DataTransferFromHost && self.transfer_phase
    }

    /// The answer to the control request `req`, if it is one for the transport. Of
    /// the class requests only Get Max LUN has an answer.
    pub open spec fn control_answer(self, req: Request) -> Option<u8> {
        if req.request_type == RequestType::Class && req.recipient == Recipient::Interface
            && req.request == CLASS_SPECIFIC_GET_MAX_LUN {
            Some(self.max_lun)
        } else {
            None
        }
    }

    /// Whether `req` clears the halt of a bulk endpoint that a CSW is waiting for
    pub open spec fn clears_halt(self, req: Request) -> bool {
        &&& self.state == State::StatusTransferEpStall
        &&& req.request_type == RequestType::Standard
        &&& req.recipient == Recipient::Endpoint
        &&& req.request == CLEAR_FEATURE
        &&& req.value == FEATURE_ENDPOINT_HALT
        &&& EndpointAddress((req.index % 0x100) as u8) == self.in_ep || EndpointAddress(
            (req.index % 0x100) as u8,
        ) == self.out_ep
    }

    /// Going idle forgets the command, its status and all buffered bytes
    pub open spec fn idle(self) -> BulkOnlyView {
        BulkOnlyView {
            state: State::Idle,
            buffered: Seq::empty(),
            cbw: CbwView::none(),
            unread: 0,
            status: None,
            ..self
        }
    }

    /// A reset ends any transfer as well
    pub open spec fn after_reset(self) -> BulkOnlyView {
        BulkOnlyView { transfer_in_flight: false, transfer_phase: false, ..self.idle() }
    }

    /// `count` bytes more of the data phase were transferred
    pub open spec fn less_residue(self, count: usize) -> BulkOnlyView {
        BulkOnlyView {
            cbw: CbwView {
                data_transfer_len: residue_left(self.cbw.data_transfer_len, count as u32 as nat),
                ..self.cbw
            },
            ..self
        }
    }

    /// The user got `count` bytes more of the data from the host
    pub open spec fn less_unread(self, count: nat) -> BulkOnlyView {
        BulkOnlyView { unread: residue_left(self.unread, count), ..self }
    }

    /// Whether ending the data phase now halts the bulk IN endpoint: bytes to the
    /// host are missing and the command did not pass. A passed command may answer
    /// with less than the host allows for; the short packet ends its transfer.
    pub open spec fn end_halts_in(self) -> bool {
        &&& self.state == State::DataTransferToHost
        &&& self.cbw.data_transfer_len > 0
        &&& self.status != Some(CommandStatus::Passed)
    }

    /// Whether ending the data phase now halts the bulk OUT endpoint: not all
    /// bytes that the host has for the device were taken
    pub open spec fn end_halts_out(self) -> bool {
        &&& self.state == State::DataTransferFromHost
        &&& self.cbw.data_transfer_len > 0
    }

    /// Ends the data phase. The CSW replaces what is in the buffer. With an
    /// endpoint halted it waits for the host to clear the halt; else its first
    /// packet goes out at once.
    pub open spec fn ended(self) -> (BulkOnlyView, StepView) {
        let in_status = BulkOnlyView {
            buffered: self.csw(),
            transfer_in_flight: false,
            transfer_phase: false,
            ..self
        };
        if self.end_halts_in() {
            (
                BulkOnlyView { state: State::StatusTransferEpStall, ..in_status },
                StepView {
                    effects: seq![Effect::StallIn],
                    next: NextView::Done { result: Ok(()) },
                },
            )
        } else if self.end_halts_out() {
            (
                BulkOnlyView { state: State::StatusTransferEpStall, ..in_status },
                StepView {
                    effects: seq![Effect::StallOut],
                    next: NextView::Done { result: Ok(()) },
                },
            )
        } else {
            (
                BulkOnlyView { state: State::StatusTransfer, ..in_status },
                StepView {
                    effects: Seq::empty(),
                    next: NextView::WritePacket {
                        packet: crate::buffer::prefix(self.csw(), self.packet_size as nat),
                    },
                },
            )
        }
    }

    /// Whether the data phase is over: the command has a status and, on the way
    /// to the host, the buffer is empty
    pub open spec fn is_over(self) -> bool {
        &&& self.status is Some
        &&& self.state.is_data()
        &&& self.state == State::DataTransferToHost ==> self.buffered.len() == 0
    }

    /// Ends the data phase if it is over
    pub open spec fn checked_end(self) -> (BulkOnlyView, StepView) {
        if self.is_over() {
            self.ended()
        } else {
            (self, StepView::done(Ok(())))
        }
    }

    /// Ends a data phase driven by transfers if it is over and no transfer is in
    /// flight: the CSW comes after the transfer has moved its data
    pub open spec fn transfer_checked_end(self) -> (BulkOnlyView, StepView) {
        if self.transfer_in_flight {
            (self, StepView::done(Ok(())))
        } else {
            self.checked_end()
        }
    }

    /// Whether a packet from the host can be taken
    pub open spec fn takes_packet(self) -> bool {
        &&& self.buffered.len() + self.packet_size <= self.capacity
        &&& self.state.is_waiting() || (self.state == State::DataTransferFromHost && self.status
            is None)
    }

    /// Starts reading a packet: one is asked for where there is room for it. Once
    /// the command has a status, data from the host is not read any more.
    pub open spec fn read_step(self) -> (BulkOnlyView, StepView) {
        if self.state == State::DataTransferFromHost && self.status is Some {
            self.checked_end()
        } else if self.state.is_waiting() || self.state == State::DataTransferFromHost {
            if self.takes_packet() {
                (
                    self,
                    StepView {
                        effects: Seq::empty(),
                        next: NextView::ReadPacket { max_len: self.packet_size as nat },
                    },
                )
            } else {
                (
                    self,
                    StepView::done(Err(TransportError::Error(BulkOnlyError::IoBufferOverflow))),
                )
            }
        } else {
            (self, StepView::done(Ok(())))
        }
    }

    /// Reads buffered data from the host into a destination that holds `dst`: the
    /// state afterwards, what the destination holds and the result. What was read is
    /// counted off the residue.
    pub open spec fn data_read(self, dst: Seq<u8>) -> (
        BulkOnlyView,
        Seq<u8>,
        BulkOnlyTransportResult<usize>,
    ) {
        if self.state == State::DataTransferFromHost {
            let bytes = crate::buffer::prefix(self.buffered, dst.len());
            (
                (BulkOnlyView {
                    buffered: self.buffered.skip(bytes.len() as int),
                    ..self
                }).less_unread(bytes.len()),
                bytes + dst.skip(bytes.len() as int),
                Ok(bytes.len() as usize),
            )
        } else {
            (self, dst, Err(TransportError::Error(BulkOnlyError::InvalidState)))
        }
    }

    /// Writes as much of `src` as the host expects and the buffer has room for
    pub open spec fn data_written(self, src: Seq<u8>) -> (
        BulkOnlyView,
        BulkOnlyTransportResult<usize>,
    ) {
        if self.accepts_data() {
            let bytes = crate::buffer::prefix(
                crate::buffer::prefix(src, self.cbw.data_transfer_len as nat),
                self.room(),
            );
            (
                BulkOnlyView { buffered: self.buffered + bytes, ..self },
                Ok(bytes.len() as usize),
            )
        } else {
            (self, Err(TransportError::Error(BulkOnlyError::InvalidState)))
        }
    }

    /// Writes all of `src` if the buffer has room for it, else nothing
    pub open spec fn all_data_written(self, src: Seq<u8>) -> (
        BulkOnlyView,
        BulkOnlyTransportResult<()>,
    ) {
        if !self.accepts_data() {
            (self, Err(TransportError::Error(BulkOnlyError::InvalidState)))
        } else if src.len() > self.room() {
            (self, Err(TransportError::Error(BulkOnlyError::IoBufferOverflow)))
        } else {
            (BulkOnlyView { buffered: self.buffered + src, ..self }, Ok(()))
        }
    }

    /// The command got its status
    pub open spec fn with_status(self, status: CommandStatus) -> BulkOnlyView {
        BulkOnlyView { status: Some(status), ..self }
    }

    /// A command arrived: its data phase starts
    pub open spec fn started(self, cbw: CbwView) -> BulkOnlyView {
        match cbw.direction {
            DataDirection::Out => BulkOnlyView {
                state: State::DataTransferFromHost,
                cbw,
                unread: cbw.data_transfer_len,
                ..self
            },
            DataDirection::In => BulkOnlyView {
                state: State::DataTransferToHost,
                cbw,
                unread: 0,
                ..self
            },
            DataDirection::NotExpected => BulkOnlyView {
                state: State::DataTransferNoData,
                cbw: CbwView { data_transfer_len: 0, ..cbw },
                unread: 0,
                ..self
            },
        }
    }

    /// Bytes of a CBW arrived. A whole one starts a command if it is valid, and
    /// resets the transport if it is not.
    pub open spec fn command_bytes_read(self) -> (BulkOnlyView, StepView) {
        if self.buffered.len() < CBW_LEN {
            (BulkOnlyView { state: State::CommandTransfer, ..self }, StepView::done(Ok(())))
        } else {
            let taken = BulkOnlyView { buffered: self.buffered.skip(CBW_LEN as int), ..self };
            match crate::transport::cbw::parsed_cbw(self.buffered.take(CBW_LEN as int)) {
                Some(cbw) => (taken.started(cbw), StepView::done(Ok(()))),
                None => (
                    taken.after_reset(),
                    StepView {
                        effects: seq![
                            Effect::StallIn,
                            Effect::StallOut,
                            Effect::UnstallIn,
                            Effect::UnstallOut,
                        ],
                        next: NextView::Done { result: Ok(()) },
                    },
                ),
            }
        }
    }

    /// The bulk OUT endpoint was read
    pub open spec fn packet_read_step(self, outcome: Result<Seq<u8>, UsbError>) -> (
        BulkOnlyView,
        StepView,
    ) {
        match outcome {
            Err(e) => (self, StepView::done(Err(TransportError::Usb(e)))),
            Ok(packet) => if packet.len() == 0 {
                (self, StepView::done(Err(TransportError::Usb(UsbError::WouldBlock))))
            } else {
                let filled = BulkOnlyView { buffered: self.buffered + packet, ..self };
                if self.state.is_waiting() {
                    filled.command_bytes_read()
                } else {
                    filled.less_residue(packet.len() as usize).checked_end()
                }
            },
        }
    }

    /// The next packet to the host
    pub open spec fn next_packet(self) -> Seq<u8> {
        crate::buffer::prefix(self.buffered, self.packet_size as nat)
    }

    /// Writes the next packet
    pub open spec fn packet_out(self) -> (BulkOnlyView, StepView) {
        (
            self,
            StepView {
                effects: Seq::empty(),
                next: NextView::WritePacket { packet: self.next_packet() },
            },
        )
    }

    /// Whether the next packet to the host has to be a full one and the buffer
    /// does not hold that much. A command that has a status is cut short.
    pub open spec fn lacks_full_packet(self) -> bool {
        &&& self.cbw.data_transfer_len >= self.packet_size
        &&& self.status is None
        &&& self.buffered.len() < self.packet_size
    }

    /// Starts writing a packet. While transfers drive the data phase only its end is
    /// left to check.
    pub open spec fn write_step(self) -> (BulkOnlyView, StepView) {
        if self.state == State::StatusTransfer {
            self.packet_out()
        } else if self.state == State::DataTransferToHost && !self.transfer_phase {
            if self.lacks_full_packet() {
                (
                    self,
                    StepView::done(Err(TransportError::Error(BulkOnlyError::FullPacketExpected))),
                )
            } else if self.buffered.len() > 0 {
                self.packet_out()
            } else {
                self.checked_end()
            }
        } else if self.state == State::DataTransferToHost || self.state
            == State::DataTransferNoData {
            self.checked_end()
        } else {
            (self, StepView::done(Ok(())))
        }
    }

    /// Whether a packet to the host is there to be written
    pub open spec fn offers_packet(self) -> bool {
        &&& self.buffered.len() > 0
        &&& self.state == State::StatusTransfer || (self.state == State::DataTransferToHost
            && !self.transfer_phase)
    }

    /// The bulk IN endpoint took `count` bytes of the packet that was offered
    pub open spec fn packet_written_step(self, outcome: Result<usize, UsbError>) -> (
        BulkOnlyView,
        StepView,
    ) {
        match outcome {
            Err(e) => (self, StepView::done(Err(TransportError::Usb(e)))),
            Ok(count) => if count == 0 {
                (self, StepView::done(Err(TransportError::Usb(UsbError::WouldBlock))))
            } else {
                let sent = BulkOnlyView { buffered: self.buffered.skip(count as int), ..self };
                if self.state == State::StatusTransfer {
                    if sent.buffered.len() == 0 {
                        (sent.idle(), StepView::done(Ok(())))
                    } else {
                        (sent, StepView::done(Ok(())))
                    }
                } else {
                    sent.less_residue(count).checked_end()
                }
            },
        }
    }

    /// The host cleared the halt: the endpoints work again and the CSW goes out
    pub open spec fn halt_cleared_step(self) -> (BulkOnlyView, StepView) {
        let m = BulkOnlyView { state: State::StatusTransfer, ..self };
        (
            m,
            StepView {
                effects: seq![Effect::UnstallIn, Effect::UnstallOut],
                next: NextView::WritePacket { packet: m.next_packet() },
            },
        )
    }

    /// The first zero-copy transfer of a data phase was submitted. The phase
    /// counts as driven by transfers even if the bus refused it.
    pub open spec fn transfer_submitted(self, outcome: Result<(), UsbError>) -> (
        BulkOnlyView,
        BulkOnlyTransportResult<usize>,
    ) {
        match outcome {
            Ok(_) => (
                BulkOnlyView { transfer_phase: true, transfer_in_flight: true, ..self },
                Err(TransportError::Usb(UsbError::WouldBlock)),
            ),
            Err(e) => (
                BulkOnlyView { transfer_phase: true, ..self },
                Err(TransportError::Usb(e)),
            ),
        }
    }

    /// The zero-copy transfer in flight was polled
    pub open spec fn transfer_polled(self, outcome: Option<Result<usize, UsbError>>) -> (
        BulkOnlyView,
        BulkOnlyTransportResult<usize>,
    ) {
        match outcome {
            None => (self, Err(TransportError::Usb(UsbError::WouldBlock))),
            Some(Err(e)) => (
                BulkOnlyView { transfer_in_flight: false, ..self },
                Err(TransportError::Usb(e)),
            ),
            Some(Ok(n)) => (
                BulkOnlyView {
                    transfer_in_flight: false,
                    ..self.less_residue(n).less_unread(n as u32 as nat)
                },
                Ok(n),
            ),
        }
    }

    /// A pipelined zero-copy transfer was submitted
    pub open spec fn pipelined_submitted(self, outcome: Result<(), UsbError>) -> (
        BulkOnlyView,
        BulkOnlyTransportResult<()>,
    ) {
        (
            BulkOnlyView { transfer_phase: true, ..self },
            match outcome {
                Ok(_) => Ok(()),
                Err(e) => Err(TransportError::Usb(e)),
            },
        )
    }

    /// The pipelined zero-copy transfers were polled
    pub open spec fn pipelined_polled(self, outcome: Option<Result<usize, UsbError>>) -> (
        BulkOnlyView,
        BulkOnlyTransportResult<Option<usize>>,
    ) {
        match outcome {
            None => (self, Ok(None)),
            Some(Err(e)) => (self, Err(TransportError::Usb(e))),
            Some(Ok(n)) => (self.less_residue(n), Ok(Some(n))),
        }
    }

    /// How much of a slice of `len` bytes the host still expects
    pub open spec fn expected_of(self, len: nat) -> usize {
        if len <= self.cbw.data_transfer_len {
            len as usize
        } else {
            self.cbw.data_transfer_len as usize
        }
    }

    /// The call on the bus for writing a slice of `len` bytes by a transfer: it is
    /// submitted if none is in flight, else the one in flight is polled
    pub open spec fn write_call(self, len: nat) -> TransferCall {
        if self.state != State::DataTransferToHost {
            TransferCall::Refused
        } else if self.transfer_in_flight {
            TransferCall::Poll { ep: self.in_ep }
        } else {
            TransferCall::Submit { ep: self.in_ep, len: self.expected_of(len) }
        }
    }

    /// The call on the bus for reading into a slice of `len` bytes by a transfer
    pub open spec fn read_call(self, len: nat) -> TransferCall {
        if self.state != State::DataTransferFromHost {
            TransferCall::Refused
        } else if self.transfer_in_flight {
            TransferCall::Poll { ep: self.out_ep }
        } else {
            TransferCall::Submit { ep: self.out_ep, len: self.expected_of(len) }
        }
    }

    /// The call on the bus for writing a slice of `len` bytes by a pipelined transfer
    pub open spec fn pipelined_write_call(self, len: nat) -> TransferCall {
        if self.state != State::DataTransferToHost {
            TransferCall::Refused
        } else {
            TransferCall::Submit { ep: self.in_ep, len: self.expected_of(len) }
        }
    }

    /// The call on the bus for retiring a pipelined transfer
    pub open spec fn pipelined_poll_call(self) -> TransferCall {
        if self.state != State::DataTransferToHost {
            TransferCall::Refused
        } else {
            TransferCall::Poll { ep: self.in_ep }
        }
    }

    /// Whether writing `src` by a transfer on `bus` can lead to `after` with result
    /// `r`: for some outcome of the call that is made on the bus, it does
    pub open spec fn write_by_transfer<B: TransferBus>(
        self,
        bus: &B,
        src: Seq<u8>,
        after: BulkOnlyView,
        r: BulkOnlyTransportResult<usize>,
    ) -> bool {
        match self.write_call(src.len()) {
            TransferCall::Refused => (after, r) == (
                self,
                Err::<usize, TransportError<BulkOnlyError>>(
                    TransportError::Error(BulkOnlyError::InvalidState),
                ),
            ),
            TransferCall::Submit { ep, len } => exists|b: &[u8], outcome: Result<(), UsbError>|
                {
                    &&& b@ == src.take(len as int)
                    &&& #[trigger] call_ensures(B::submit_write, (bus, ep, b), outcome)
                    &&& (after, r) == self.transfer_submitted(outcome)
                },
            TransferCall::Poll { ep } => exists|outcome: Option<Result<usize, UsbError>>|
                {
                    &&& #[trigger] call_ensures(B::poll_transfer, (bus, ep), outcome)
                    &&& (after, r) == self.transfer_polled(outcome)
                },
        }
    }

    /// As [`BulkOnlyView::write_by_transfer`], for a pipelined transfer
    pub open spec fn write_pipelined<B: TransferBus>(
        self,
        bus: &B,
        src: Seq<u8>,
        after: BulkOnlyView,
        r: BulkOnlyTransportResult<()>,
    ) -> bool {
        match self.pipelined_write_call(src.len()) {
            TransferCall::Submit { ep, len } => exists|b: &[u8], outcome: Result<(), UsbError>|
                {
                    &&& b@ == src.take(len as int)
                    &&& #[trigger] call_ensures(B::submit_write, (bus, ep, b), outcome)
                    &&& (after, r) == self.pipelined_submitted(outcome)
                },
            _ => (after, r) == (
                self,
                Err::<(), TransportError<BulkOnlyError>>(
                    TransportError::Error(BulkOnlyError::InvalidState),
                ),
            ),
        }
    }

    /// Whether polling the pipelined transfers on `bus` can lead to `after` with
    /// result `r`
    pub open spec fn poll_pipelined<B: TransferBus>(
        self,
        bus: &B,
        after: BulkOnlyView,
        r: BulkOnlyTransportResult<Option<usize>>,
    ) -> bool {
        match self.pipelined_poll_call() {
            TransferCall::Poll { ep } => exists|outcome: Option<Result<usize, UsbError>>|
                {
                    &&& #[trigger] call_ensures(B::poll_transfer, (bus, ep), outcome)
                    &&& (after, r) == self.pipelined_polled(outcome)
                },
            _ => (after, r) == (
                self,
                Err::<Option<usize>, TransportError<BulkOnlyError>>(
                    TransportError::Error(BulkOnlyError::InvalidState),
                ),
            ),
        }
    }
}

} // verus!

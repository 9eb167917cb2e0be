//! Bulk Only Transport (BBB/BOT)

use crate::buffer::Buffer;
use crate::transfer::TransferBus;
use crate::transport::cbw::{build_csw, CommandBlockWrapper, DataDirection, CBW_LEN};
use crate::transport::model::{BulkOnlyView, NextView, StepView};
use crate::transport::CommandStatus;
use crate::usb::{
    Descriptor, Effect, EndpointAddress, Pipe, Recipient, Request, RequestType, UsbError,
    CLEAR_FEATURE, FEATURE_ENDPOINT_HALT,
};
use vstd::prelude::*;

pub use crate::transport::model::{
    BulkOnlyError, BulkOnlyTransportResult, State, TransferCall, CLASS_SPECIFIC_GET_MAX_LUN,
};
pub use crate::transport::TransportError;

verus! {

/// Bulk Only Transport interface protocol
pub const TRANSPORT_BBB: u8 = 0x50;

/// Raw Command Block bytes
///
/// The `bytes` field is a truncated slice
pub struct CommandBlock<'a> {
    pub bytes: &'a [u8],
    pub lun: u8,
}

/// The endpoint operation that the transport needs next
pub enum Next {
    /// Read one packet of at most `max_len` bytes from the bulk OUT endpoint and
    /// hand the outcome to [`BulkOnly::packet_read`]
    ReadPacket { max_len: usize },
    /// Write `packet` to the bulk IN endpoint and hand the outcome to
    /// [`BulkOnly::packet_written`]
    WritePacket { packet: Vec<u8> },
    /// Nothing more: the operation has ended
    Done { result: BulkOnlyTransportResult<()> },
}

/// The effects to perform, in this order, and the operation that follows them
pub struct Step {
    pub effects: Vec<Effect>,
    pub next: Next,
}

impl View for Step {
    type V = StepView;

    open spec fn view(&self) -> StepView {
        StepView {
            effects: self.effects@,
            next: match self.next {
                Next::ReadPacket { max_len } => NextView::ReadPacket { max_len: max_len as nat },
                Next::WritePacket { packet } => NextView::WritePacket { packet: packet@ },
                Next::Done { result } => NextView::Done { result },
            },
        }
    }
}

impl Step {
    /// The operation has ended and there is nothing to do
    pub fn done(result: BulkOnlyTransportResult<()>) -> (step: Step)
        ensures
            step@ == StepView::done(result),
    {
        let step = Step { effects: Vec::new(), next: Next::Done { result } };
        assert(step@ =~= StepView::done(result));
        step
    }
}

/// Bulk Only Transport
///
/// Expected to be driven via [`BulkOnly::write`] and [`BulkOnly::read`].
/// All data goes through an underlying IO buffer in both directions.
/// During a Data Transfer, data could be read or written via
/// [`BulkOnly::read_data`], [`BulkOnly::write_data`] and
/// [`BulkOnly::try_write_data_all`].
pub struct BulkOnly {
    in_ep: EndpointAddress,
    out_ep: EndpointAddress,
    packet_size: u16,
    buf: Buffer,
    state: State,
    cbw: CommandBlockWrapper,
    /// Bytes that the host announced and the user has not read
    unread: u32,
    cs: Option<CommandStatus>,
    max_lun: u8,
    /// Whether a submitted transfer has not yet been retired
    transfer_in_flight: bool,
    /// Whether the data phase is driven by zero-copy transfers
    transfer_phase: bool,
}

impl View for BulkOnly {
    type V = BulkOnlyView;

    closed spec fn view(&self) -> BulkOnlyView {
        BulkOnlyView {
            state: self.state,
            buffered: self.buf@,
            capacity: self.buf.capacity(),
            cbw: self.cbw@,
            unread: self.unread,
            status: self.cs,
            max_lun: self.max_lun,
            packet_size: self.packet_size,
            in_ep: self.in_ep,
            out_ep: self.out_ep,
            transfer_in_flight: self.transfer_in_flight,
            transfer_phase: self.transfer_phase,
        }
    }
}

impl BulkOnly {
    pub closed spec fn wf(self) -> bool {
        &&& self.buf.wf()
        &&& self.cbw.wf()
        &&& self@.inv()
    }

    /// The invariant of the state machine holds of every consistent transport.
    pub proof fn inv_holds(self)
        requires
            self.wf(),
        ensures
            self@.inv(),
    {
    }

    /// Why a transport cannot be made with these parameters
    pub open spec fn config_error(packet_size: u16, max_lun: u8, buf_len: nat) -> Option<
        BulkOnlyError,
    > {
        if max_lun > 0x0F {
            Some(BulkOnlyError::InvalidMaxLun)
        } else if buf_len < CBW_LEN || buf_len < packet_size {
            Some(BulkOnlyError::BufferTooSmall)
        } else {
            None
        }
    }

    /// Whether a transport can be made with these parameters
    pub fn check_config(packet_size: u16, max_lun: u8, buf_len: usize) -> (r: Result<
        (),
        BulkOnlyError,
    >)
        ensures
            r == (match Self::config_error(packet_size, max_lun, buf_len as nat) {
                Some(e) => Err::<(), BulkOnlyError>(e),
                None => Ok(()),
            }),
    {
        if max_lun > 0x0F {
            return Err(BulkOnlyError::InvalidMaxLun);
        }
        if buf_len < CBW_LEN || buf_len < packet_size as usize {
            return Err(BulkOnlyError::BufferTooSmall);
        }
        Ok(())
    }

    /// Creates a Bulk Only Transport instance
    ///
    /// # Arguments
    /// * `in_ep`, `out_ep` - addresses of the bulk endpoints
    /// * `packet_size` - Maximum USB packet size. Allowed values: 8,16,32,64
    /// * `max_lun` - The max index of the Logical Unit
    /// * `buf` - The underlying IO buffer. It is **required** to fit at least a `CBW` and/or a
    ///   single packet. It is **recommended** that buffer fits at least one `LBA` size
    ///
    /// # Errors
    /// * [`BulkOnlyError::InvalidMaxLun`]
    /// * [`BulkOnlyError::BufferTooSmall`]
    pub fn new(
        in_ep: EndpointAddress,
        out_ep: EndpointAddress,
        packet_size: u16,
        max_lun: u8,
        buf: Vec<u8>,
    ) -> (r: Result<BulkOnly, BulkOnlyError>)
        ensures
            match r {
                Ok(transport) => {
                    &&& Self::config_error(packet_size, max_lun, buf@.len()) is None
                    &&& transport.wf()
                    &&& transport@ == BulkOnlyView::initial(
                        packet_size,
                        max_lun,
                        buf@.len(),
                        in_ep,
                        out_ep,
                    )
                },
                Err(e) => Self::config_error(packet_size, max_lun, buf@.len()) == Some(e),
            },
    {
        match Self::check_config(packet_size, max_lun, buf.len()) {
            Ok(()) => {},
            Err(e) => {
                return Err(e);
            },
        }
        Ok(
            BulkOnly {
                in_ep,
                out_ep,
                packet_size,
                buf: Buffer::new(buf),
                state: State::Idle,
                cbw: CommandBlockWrapper::none(),
                unread: 0,
                cs: None,
                max_lun,
                transfer_in_flight: false,
                transfer_phase: false,
            },
        )
    }

    /// Drives a transport by reading a single packet
    ///
    /// Whoever drives a data phase by transfers skips this as long as
    /// [`BulkOnly::is_data_transfer_phase`] holds.
    pub fn read(&mut self) -> (step: Step)
        requires
            old(self).wf(),
        ensures
            final(self).wf(),
            (final(self)@, step@) == old(self)@.read_step(),
    {
        match self.state {
            State::Idle | State::CommandTransfer => self.ask_packet(),
            State::DataTransferFromHost => {
                if self.status_present() {
                    self.check_end_data_transfer()
                } else {
                    self.ask_packet()
                }
            },
            _ => Step::done(Ok(())),
        }
    }

    /// Asks for a packet from the host if there is room for it
    fn ask_packet(&mut self) -> (step: Step)
        requires
            old(self).wf(),
            old(self)@.state.is_waiting() || (old(self)@.state == State::DataTransferFromHost
                && old(self)@.status is None),
        ensures
            *final(self) == *old(self),
            (final(self)@, step@) == old(self)@.read_step(),
    {
        let size: usize = self.packet_size as usize;
        if self.buf.available_write() < size {
            Step::done(Err(TransportError::Error(BulkOnlyError::IoBufferOverflow)))
        } else {
            let step = Step { effects: Vec::new(), next: Next::ReadPacket { max_len: size } };
            assert(step@ =~= self@.read_step().1);
            step
        }
    }

    /// Takes the outcome of reading the bulk OUT endpoint
    pub fn packet_read(&mut self, outcome: Result<&[u8], UsbError>) -> (step: Step)
        requires
            old(self).wf(),
            old(self)@.takes_packet(),
            outcome matches Ok(packet) ==> packet@.len() <= old(self)@.packet_size,
        ensures
            final(self).wf(),
            (final(self)@, step@) == old(self)@.packet_read_step(
                match outcome {
                    Ok(packet) => Ok(packet@),
                    Err(e) => Err(e),
                },
            ),
    {
        let packet = match outcome {
            Ok(packet) => packet,
            Err(e) => {
                return Step::done(Err(TransportError::Usb(e)));
            },
        };
        if packet.len() == 0 {
            return Step::done(Err(TransportError::Usb(UsbError::WouldBlock)));
        }
        let ghost before = self@;
        let count: usize = self.buf.write(packet);
        assert(packet@.take(count as int) =~= packet@);
        match self.state {
            State::Idle | State::CommandTransfer => self.handle_read_cbw(),
            _ => {
                self.cbw.data_transfer_len =
                self.cbw.data_transfer_len.saturating_sub(count as u32);
                assert(self@ =~= (BulkOnlyView {
                    buffered: before.buffered + packet@,
                    ..before
                }).less_residue(count));
                self.check_end_data_transfer()
            },
        }
    }

    /// Drives a transport by writing a single packet
    pub fn write(&mut self) -> (step: Step)
        requires
            old(self).wf(),
        ensures
            final(self).wf(),
            (final(self)@, step@) == old(self)@.write_step(),
    {
        match self.state {
            State::StatusTransfer => self.offer_packet(),
            State::DataTransferToHost => {
                if self.transfer_phase {
                    // the data bypasses the buffer: only the end of the phase is left to check
                    self.check_end_data_transfer()
                } else {
                    self.handle_write_to_host()
                }
            },
            State::DataTransferNoData => self.check_end_data_transfer(),
            _ => Step::done(Ok(())),
        }
    }

    /// Offers the next packet to the host
    fn offer_packet(&self) -> (step: Step)
        requires
            self.wf(),
        ensures
            step@ == self@.packet_out().1,
    {
        let step = Step {
            effects: Vec::new(),
            next: Next::WritePacket { packet: self.buf.peek(self.packet_size as usize) },
        };
        assert(step@ =~= self@.packet_out().1);
        step
    }

    /// Takes the outcome of writing the offered packet to the bulk IN endpoint
    pub fn packet_written(&mut self, outcome: Result<usize, UsbError>) -> (step: Step)
        requires
            old(self).wf(),
            old(self)@.offers_packet(),
            outcome matches Ok(count) ==> count <= old(self)@.next_packet().len(),
        ensures
            final(self).wf(),
            (final(self)@, step@) == old(self)@.packet_written_step(outcome),
    {
        let count: usize = match outcome {
            Ok(count) => count,
            Err(e) => {
                return Step::done(Err(TransportError::Usb(e)));
            },
        };
        if count == 0 {
            return Step::done(Err(TransportError::Usb(UsbError::WouldBlock)));
        }
        let ghost before = self@;
        self.buf.consume(count);
        match self.state {
            State::StatusTransfer => {
                if self.buf.available_read() == 0 {
                    self.enter_idle();
                } else {
                    assert(self@.buffered =~= self@.csw().skip(13 - self@.buffered.len()));
                }
                Step::done(Ok(()))
            },
            _ => {
                self.cbw.data_transfer_len =
                self.cbw.data_transfer_len.saturating_sub(count as u32);
                assert(self@ =~= (BulkOnlyView {
                    buffered: before.buffered.skip(count as int),
                    ..before
                }).less_residue(count));
                self.check_end_data_transfer()
            },
        }
    }

    /// Sets a `status` of the current command
    ///
    /// This method doesn't try to send a status immediately. However, all further
    /// writes to the IO buffer won't succeed. The transport will try to send all
    /// the contents of the buffer and then `CSW` will be sent.
    ///
    /// In an OUT data phase that is driven by transfers, set it after the transfer is
    /// retired: [`BulkOnly::finish_data_transfer_phase`] does not end the phase before,
    /// and a class that is polled with transfers then holds the `CSW` back until a
    /// reset. In an IN data phase a transfer in flight does not hold it back.
    pub fn set_status(&mut self, status: CommandStatus)
        requires
            old(self).wf(),
            old(self)@.state.is_data(),
        ensures
            final(self).wf(),
            final(self)@ == old(self)@.with_status(status),
    {
        self.cs = Some(status);
    }

    /// Returns a Command Block if present
    pub fn get_command(&self) -> (r: Option<CommandBlock<'_>>)
        requires
            self.wf(),
        ensures
            match r {
                Some(block) => {
                    &&& !self@.state.is_waiting()
                    &&& block.bytes@ == self@.cbw.block
                    &&& 1 <= block.bytes@.len() <= 16
                    &&& block.lun == self@.cbw.lun
                },
                None => self@.state.is_waiting(),
            },
    {
        match self.state {
            State::Idle | State::CommandTransfer => None,
            _ => {
                let bytes = vstd::slice::slice_subrange(
                    self.cbw.block.as_slice(),
                    0,
                    self.cbw.block_len,
                );
                assert(bytes@ =~= self@.cbw.block);
                Some(CommandBlock { bytes, lun: self.cbw.lun })
            },
        }
    }

    /// Reads data from the IO buffer returning the number of bytes actually read
    ///
    /// What is read counts as processed: it is counted off the residue.
    ///
    /// # Arguments
    /// * `dst` - buffer, to read bytes into
    ///
    /// # Errors
    /// Returns [`BulkOnlyError::InvalidState`] if called
    /// during any but OUT Data Transfer state.
    pub fn read_data(&mut self, dst: &mut [u8]) -> (r: BulkOnlyTransportResult<usize>)
        requires
            old(self).wf(),
        ensures
            final(self).wf(),
            (final(self)@, final(dst)@, r) == old(self)@.data_read(old(dst)@),
    {
        match self.state {
            State::DataTransferFromHost => {
                let n: usize = self.buf.read(dst);
                self.unread = if n as u64 <= self.unread as u64 {
                    self.unread - n as u32
                } else {
                    0
                };
                assert(old(self)@.buffered.take(n as int) =~= crate::buffer::prefix(
                    old(self)@.buffered,
                    old(dst)@.len(),
                ));
                Ok(n)
            },
            _ => Err(TransportError::Error(BulkOnlyError::InvalidState)),
        }
    }

    /// Writes data to the IO buffer returning the number of bytes actually written
    ///
    /// # Arguments
    /// * `src` - bytes to write
    ///
    /// # Errors
    /// Returns [`BulkOnlyError::InvalidState`] if called
    /// during any but IN Data Transfer state, or after the status has been set.
    pub fn write_data(&mut self, src: &[u8]) -> (r: BulkOnlyTransportResult<usize>)
        requires
            old(self).wf(),
        ensures
            final(self).wf(),
            (final(self)@, r) == old(self)@.data_written(src@),
    {
        match self.state {
            State::DataTransferToHost => {},
            _ => {
                return Err(TransportError::Error(BulkOnlyError::InvalidState));
            },
        }
        if self.status_present() {
            return Err(TransportError::Error(BulkOnlyError::InvalidState));
        }
        let clamped = self.within_residue(src);
        let n: usize = self.buf.write(clamped);
        assert(clamped@.take(n as int) =~= crate::buffer::prefix(
            crate::buffer::prefix(src@, old(self)@.cbw.data_transfer_len as nat),
            old(self)@.room(),
        ));
        Ok(n)
    }

    /// Tries to write all data from `src` into the IO buffer
    ///
    /// # Errors
    /// * [`BulkOnlyError::IoBufferOverflow`] - if not enough space is available
    /// * [`BulkOnlyError::InvalidState`] - if called during any but IN Data Transfer state, or
    ///   after the status has been set
    pub fn try_write_data_all(&mut self, src: &[u8]) -> (r: BulkOnlyTransportResult<()>)
        requires
            old(self).wf(),
        ensures
            final(self).wf(),
            (final(self)@, r) == old(self)@.all_data_written(src@),
    {
        match self.state {
            State::DataTransferToHost => {},
            _ => {
                return Err(TransportError::Error(BulkOnlyError::InvalidState));
            },
        }
        if self.status_present() {
            return Err(TransportError::Error(BulkOnlyError::InvalidState));
        }
        if src.len() > self.buf.available_write() {
            return Err(TransportError::Error(BulkOnlyError::IoBufferOverflow));
        }
        self.buf.write(src);
        assert(src@.take(src@.len() as int) =~= src@);
        Ok(())
    }

    /// Whether a Command Status has been set
    pub fn has_status(&self) -> (r: bool)
        ensures
            r == self@.status is Some,
    {
        self.status_present()
    }

    fn status_present(&self) -> (r: bool)
        ensures
            r == self@.status is Some,
    {
        self.cs.is_some()
    }

    /// Zero-copy data-IN phase: submits `src` as one transfer on the first call,
    /// polls for its retirement on the next ones
    ///
    /// Returns the byte count once the transfer is retired and counts it off the
    /// residue. No more than the residue is submitted. The caller must leave `src`
    /// alone until then.
    ///
    /// # Errors
    /// * `TransportError::Usb(WouldBlock)` - transfer primed or still in flight
    /// * `TransportError::Error(InvalidState)` - not in the IN data-transfer state
    pub fn write_data_transfer<B: TransferBus>(&mut self, bus: &B, src: &[u8]) -> (r:
        BulkOnlyTransportResult<usize>)
        requires
            old(self).wf(),
        ensures
            final(self).wf(),
            old(self)@.write_by_transfer(bus, src@, final(self)@, r),
    {
        match self.write_transfer_call(src.len()) {
            TransferCall::Refused => Err(TransportError::Error(BulkOnlyError::InvalidState)),
            TransferCall::Submit { ep, len } => {
                let outcome = bus.submit_write(ep, vstd::slice::slice_subrange(src, 0, len));
                self.transfer_submitted(outcome)
            },
            TransferCall::Poll { ep } => {
                let outcome = bus.poll_transfer(ep);
                self.transfer_polled(outcome)
            },
        }
    }

    /// The one call on the bus that [`BulkOnly::write_data_transfer`] makes for a slice
    /// of `len` bytes
    pub fn write_transfer_call(&self, len: usize) -> (call: TransferCall)
        ensures
            call == self@.write_call(len as nat),
    {
        match self.state {
            State::DataTransferToHost => {
                if self.transfer_in_flight {
                    TransferCall::Poll { ep: self.in_ep }
                } else {
                    TransferCall::Submit { ep: self.in_ep, len: self.expected_of(len) }
                }
            },
            _ => TransferCall::Refused,
        }
    }

    /// The one call on the bus that [`BulkOnly::read_data_transfer`] makes for a slice
    /// of `len` bytes
    pub fn read_transfer_call(&self, len: usize) -> (call: TransferCall)
        ensures
            call == self@.read_call(len as nat),
    {
        match self.state {
            State::DataTransferFromHost => {
                if self.transfer_in_flight {
                    TransferCall::Poll { ep: self.out_ep }
                } else {
                    TransferCall::Submit { ep: self.out_ep, len: self.expected_of(len) }
                }
            },
            _ => TransferCall::Refused,
        }
    }

    /// The one call on the bus that [`BulkOnly::write_data_transfer_pipelined`] makes
    /// for a slice of `len` bytes
    pub fn pipelined_write_transfer_call(&self, len: usize) -> (call: TransferCall)
        ensures
            call == self@.pipelined_write_call(len as nat),
    {
        match self.state {
            State::DataTransferToHost => TransferCall::Submit {
                ep: self.in_ep,
                len: self.expected_of(len),
            },
            _ => TransferCall::Refused,
        }
    }

    /// The one call on the bus that [`BulkOnly::poll_data_transfer`] makes
    pub fn pipelined_poll_transfer_call(&self) -> (call: TransferCall)
        ensures
            call == self@.pipelined_poll_call(),
    {
        match self.state {
            State::DataTransferToHost => TransferCall::Poll { ep: self.in_ep },
            _ => TransferCall::Refused,
        }
    }

    /// How much of a slice of `len` bytes the host still expects
    fn expected_of(&self, len: usize) -> (n: usize)
        ensures
            n == self@.expected_of(len as nat),
            n <= len,
    {
        let expected: usize = self.cbw.data_transfer_len as usize;
        if len <= expected {
            len
        } else {
            expected
        }
    }

    /// As much of `src` as the host still expects
    fn within_residue<'a>(&self, src: &'a [u8]) -> (b: &'a [u8])
        ensures
            b@ == crate::buffer::prefix(src@, self@.cbw.data_transfer_len as nat),
    {
        vstd::slice::slice_subrange(src, 0, self.expected_of(src.len()))
    }

    /// Takes the outcome of submitting a transfer of the data phase
    ///
    /// The phase counts as driven by transfers whether the bus took the transfer or
    /// not: on a refusal the next poll tries again, and no packet gets in between.
    pub fn transfer_submitted(&mut self, outcome: Result<(), UsbError>) -> (r:
        BulkOnlyTransportResult<usize>)
        requires
            old(self).wf(),
            old(self)@.state == State::DataTransferToHost || old(self)@.state
                == State::DataTransferFromHost,
            !old(self)@.transfer_in_flight,
        ensures
            final(self).wf(),
            (final(self)@, r) == old(self)@.transfer_submitted(outcome),
    {
        self.transfer_phase = true;
        match outcome {
            Ok(()) => {
                self.transfer_in_flight = true;
                Err(TransportError::Usb(UsbError::WouldBlock))
            },
            Err(e) => Err(TransportError::Usb(e)),
        }
    }

    /// Takes the outcome of polling the transfer in flight
    pub fn transfer_polled(&mut self, outcome: Option<Result<usize, UsbError>>) -> (r:
        BulkOnlyTransportResult<usize>)
        requires
            old(self).wf(),
            old(self)@.transfer_in_flight,
        ensures
            final(self).wf(),
            (final(self)@, r) == old(self)@.transfer_polled(outcome),
    {
        match outcome {
            None => Err(TransportError::Usb(UsbError::WouldBlock)),
            Some(Err(e)) => {
                self.transfer_in_flight = false;
                Err(TransportError::Usb(e))
            },
            Some(Ok(n)) => {
                self.transfer_in_flight = false;
                self.cbw.data_transfer_len = self.cbw.data_transfer_len.saturating_sub(n as u32);
                self.unread = self.unread.saturating_sub(n as u32);
                Ok(n)
            },
        }
    }

    /// Zero-copy data-OUT phase: primes `dst` for one transfer on the first call,
    /// polls for its retirement on the next ones
    ///
    /// Returns the byte count once the transfer is retired and counts it off the
    /// residue. No more than the residue is asked for. The caller must pass the same
    /// `dst` on every call of a data phase and leave it alone in between.
    ///
    /// # Errors
    /// * `TransportError::Usb(WouldBlock)` - transfer primed or still in flight
    /// * `TransportError::Error(InvalidState)` - not in the OUT data-transfer state
    pub fn read_data_transfer<B: TransferBus>(&mut self, bus: &B, dst: &mut [u8]) -> (r:
        BulkOnlyTransportResult<usize>)
        requires
            old(self).wf(),
        ensures
            final(self).wf(),
            final(dst)@.len() == old(dst)@.len(),
            match old(self)@.read_call(old(dst)@.len()) {
                TransferCall::Refused => {
                    &&& r == Err::<usize, TransportError<BulkOnlyError>>(
                        TransportError::Error(BulkOnlyError::InvalidState),
                    )
                    &&& final(self)@ == old(self)@
                    &&& final(dst)@ == old(dst)@
                },
                TransferCall::Submit { ep, len } => exists|
                    b: &mut [u8],
                    outcome: Result<(), UsbError>,
                |
                    {
                        &&& b@ == old(dst)@.take(len as int)
                        &&& final(dst)@ == final(b)@ + old(dst)@.skip(len as int)
                        &&& #[trigger] call_ensures(B::submit_read, (bus, ep, b), outcome)
                        &&& (final(self)@, r) == old(self)@.transfer_submitted(outcome)
                    },
                TransferCall::Poll { ep } => {
                    &&& final(dst)@ == old(dst)@
                    &&& exists|outcome: Option<Result<usize, UsbError>>|
                        {
                            &&& #[trigger] call_ensures(B::poll_transfer, (bus, ep), outcome)
                            &&& (final(self)@, r) == old(self)@.transfer_polled(outcome)
                        }
                },
            },
    {
        match self.read_transfer_call(dst.len()) {
            TransferCall::Refused => Err(TransportError::Error(BulkOnlyError::InvalidState)),
            TransferCall::Submit { ep, len } => {
                let (b, _rest) = dst.split_at_mut(len);
                let outcome = bus.submit_read(ep, b);
                self.transfer_submitted(outcome)
            },
            TransferCall::Poll { ep } => {
                let outcome = bus.poll_transfer(ep);
                self.transfer_polled(outcome)
            },
        }
    }

    /// Submits `src` as an IN transfer without waiting for the one before to retire
    ///
    /// Transfers go in order; no more than the residue is submitted. Completed ones
    /// are to be drained via [`BulkOnly::poll_data_transfer`].
    ///
    /// # Errors
    /// * `TransportError::Usb(WouldBlock)` - queue of the bus full: drain first
    /// * `TransportError::Error(InvalidState)` - not in the IN data-transfer state
    pub fn write_data_transfer_pipelined<B: TransferBus>(&mut self, bus: &B, src: &[u8]) -> (r:
        BulkOnlyTransportResult<()>)
        requires
            old(self).wf(),
        ensures
            final(self).wf(),
            old(self)@.write_pipelined(bus, src@, final(self)@, r),
    {
        match self.pipelined_write_transfer_call(src.len()) {
            TransferCall::Submit { ep, len } => {
                let outcome = bus.submit_write(ep, vstd::slice::slice_subrange(src, 0, len));
                self.pipelined_submitted(outcome)
            },
            _ => Err(TransportError::Error(BulkOnlyError::InvalidState)),
        }
    }

    /// Takes the outcome of submitting a pipelined transfer
    pub fn pipelined_submitted(&mut self, outcome: Result<(), UsbError>) -> (r:
        BulkOnlyTransportResult<()>)
        requires
            old(self).wf(),
            old(self)@.state == State::DataTransferToHost,
        ensures
            final(self).wf(),
            (final(self)@, r) == old(self)@.pipelined_submitted(outcome),
    {
        self.transfer_phase = true;
        match outcome {
            Ok(()) => Ok(()),
            Err(e) => Err(TransportError::Usb(e)),
        }
    }

    /// Retires at most one pipelined IN transfer
    ///
    /// Returns `Ok(Some(n))` when one completed with `n` bytes, which are counted off
    /// the residue, and `Ok(None)` when none has completed yet.
    ///
    /// # Errors
    /// * `TransportError::Usb(_)` - hardware error on the retired transfer
    /// * `TransportError::Error(InvalidState)` - not in the IN data-transfer state
    pub fn poll_data_transfer<B: TransferBus>(&mut self, bus: &B) -> (r: BulkOnlyTransportResult<
        Option<usize>,
    >)
        requires
            old(self).wf(),
        ensures
            final(self).wf(),
            old(self)@.poll_pipelined(bus, final(self)@, r),
    {
        match self.pipelined_poll_transfer_call() {
            TransferCall::Poll { ep } => {
                let outcome = bus.poll_transfer(ep);
                self.pipelined_polled(outcome)
            },
            _ => Err(TransportError::Error(BulkOnlyError::InvalidState)),
        }
    }

    /// Takes the outcome of polling the pipelined transfers
    pub fn pipelined_polled(&mut self, outcome: Option<Result<usize, UsbError>>) -> (r:
        BulkOnlyTransportResult<Option<usize>>)
        requires
            old(self).wf(),
            old(self)@.state == State::DataTransferToHost,
        ensures
            final(self).wf(),
            (final(self)@, r) == old(self)@.pipelined_polled(outcome),
    {
        match outcome {
            None => Ok(None),
            Some(Err(e)) => Err(TransportError::Usb(e)),
            Some(Ok(n)) => {
                self.cbw.data_transfer_len = self.cbw.data_transfer_len.saturating_sub(n as u32);
                Ok(Some(n))
            },
        }
    }

    /// Ends a data phase that is driven by transfers, once the command has a status and
    /// no transfer is in flight
    ///
    /// No packet is read: the transfers have moved all the data. A transfer in flight
    /// has to be retired by the call that submitted it, so the user sets the status
    /// after that.
    pub fn finish_data_transfer_phase(&mut self) -> (step: Step)
        requires
            old(self).wf(),
        ensures
            final(self).wf(),
            (final(self)@, step@) == (if old(self)@.transfer_in_flight {
                (old(self)@, StepView::done(Ok(())))
            } else {
                old(self)@.checked_end()
            }),
    {
        if self.transfer_in_flight {
            Step::done(Ok(()))
        } else {
            self.check_end_data_transfer()
        }
    }

    /// Whether the OUT data phase is driven by zero-copy transfers
    ///
    /// A packet read in such a phase would take the host's data into the wrong
    /// buffer.
    pub fn is_data_transfer_phase(&self) -> (r: bool)
        ensures
            r == self@.out_transfer_phase(),
    {
        match self.state {
            State::DataTransferFromHost => self.transfer_phase,
            _ => false,
        }
    }

    /// Addresses of the data endpoints, bulk IN and bulk OUT
    pub fn data_endpoints(&self) -> (r: (EndpointAddress, EndpointAddress))
        ensures
            r == (self@.in_ep, self@.out_ep),
    {
        (self.in_ep, self.out_ep)
    }

    /// Parses a CBW once enough bytes for it are in the buffer
    fn handle_read_cbw(&mut self) -> (step: Step)
        requires
            old(self).buf.wf(),
            old(self).cbw.wf(),
            old(self)@.state.is_waiting(),
            old(self)@.buffered.len() > 0,
            // all but the amount of buffered bytes is as in any waiting state
            (BulkOnlyView {
                state: State::Idle,
                buffered: Seq::empty(),
                ..old(self)@
            }).inv(),
            old(self)@.buffered.len() <= old(self)@.capacity,
        ensures
            final(self).wf(),
            (final(self)@, step@) == old(self)@.command_bytes_read(),
    {
        if self.buf.available_read() >= CBW_LEN {
            match self.try_parse_cbw() {
                Some(cbw) => {
                    self.start_data_transfer(cbw);
                    Step::done(Ok(()))
                },
                None => {
                    let mut effects: Vec<Effect> = Vec::new();
                    effects.push(Effect::StallIn);
                    effects.push(Effect::StallOut);
                    let mut unstall = self.restart();
                    effects.append(&mut unstall);
                    let step = Step { effects, next: Next::Done { result: Ok(()) } };
                    assert(step@ =~= old(self)@.command_bytes_read().1);
                    step
                },
            }
        } else {
            self.state = State::CommandTransfer;
            Step::done(Ok(()))
        }
    }

    /// Takes a CBW out of the buffer and parses it
    fn try_parse_cbw(&mut self) -> (r: Option<CommandBlockWrapper>)
        requires
            old(self).buf.wf(),
            old(self)@.buffered.len() >= CBW_LEN,
        ensures
            final(self).buf.wf(),
            final(self).cbw == old(self).cbw,
            final(self)@ == (BulkOnlyView {
                buffered: old(self)@.buffered.skip(CBW_LEN as int),
                ..old(self)@
            }),
            match r {
                Some(cbw) => cbw.wf() && crate::transport::cbw::parsed_cbw(
                    old(self)@.buffered.take(CBW_LEN as int),
                ) == Some(cbw@),
                None => crate::transport::cbw::parsed_cbw(
                    old(self)@.buffered.take(CBW_LEN as int),
                ) is None,
            },
    {
        let raw = self.buf.peek(CBW_LEN);
        self.buf.consume(CBW_LEN);
        match CommandBlockWrapper::from_raw(raw.as_slice()) {
            Ok(cbw) => Some(cbw),
            Err(_) => None,
        }
    }

    /// Starts the data phase of a command
    fn start_data_transfer(&mut self, cbw: CommandBlockWrapper)
        requires
            cbw.wf(),
        ensures
            final(self).buf == old(self).buf,
            final(self).cbw.wf(),
            final(self)@ == old(self)@.started(cbw@),
    {
        let mut cbw = cbw;
        self.unread = 0;
        match cbw.direction {
            DataDirection::Out => {
                self.state = State::DataTransferFromHost;
                self.unread = cbw.data_transfer_len;
            },
            DataDirection::In => {
                self.state = State::DataTransferToHost;
            },
            DataDirection::NotExpected => {
                self.state = State::DataTransferNoData;
                cbw.data_transfer_len = 0;
            },
        }
        self.cbw = cbw;
    }

    /// Offers a data packet to the host, a full one unless it is the last
    ///
    /// Some drivers consider a short packet in the middle of a transfer an error.
    fn handle_write_to_host(&mut self) -> (step: Step)
        requires
            old(self).wf(),
            old(self)@.state == State::DataTransferToHost,
            !old(self)@.transfer_phase,
        ensures
            final(self).wf(),
            (final(self)@, step@) == old(self)@.write_step(),
    {
        let max_packet_size: u32 = self.packet_size as u32;
        let full_packet_expected = self.cbw.data_transfer_len >= max_packet_size
            && !self.status_present();
        let full_packet = self.buf.available_read() >= max_packet_size as usize;
        if full_packet || !full_packet_expected {
            if self.buf.available_read() > 0 {
                self.offer_packet()
            } else {
                self.check_end_data_transfer()
            }
        } else {
            Step::done(Err(TransportError::Error(BulkOnlyError::FullPacketExpected)))
        }
    }

    /// Ends the data phase if it is over
    pub fn check_end_data_transfer(&mut self) -> (step: Step)
        requires
            old(self).wf(),
        ensures
            final(self).wf(),
            (final(self)@, step@) == old(self)@.checked_end(),
    {
        match self.cs {
            Some(status) => match self.state {
                State::DataTransferNoData | State::DataTransferFromHost => self.end_data_transfer(
                    status,
                ),
                State::DataTransferToHost => {
                    if self.buf.available_read() == 0 {
                        self.end_data_transfer(status)
                    } else {
                        Step::done(Ok(()))
                    }
                },
                _ => Step::done(Ok(())),
            },
            None => Step::done(Ok(())),
        }
    }

    /// Ends the data phase and puts the CSW into the buffer
    fn end_data_transfer(&mut self, status: CommandStatus) -> (step: Step)
        requires
            old(self).wf(),
            old(self)@.state.is_data(),
            old(self)@.status == Some(status),
        ensures
            final(self).wf(),
            (final(self)@, step@) == old(self)@.ended(),
    {
        let mut effects: Vec<Effect> = Vec::new();
        if self.cbw.data_transfer_len > 0 {
            match self.state {
                State::DataTransferToHost => {
                    if status != CommandStatus::Passed {
                        effects.push(Effect::StallIn);
                    }
                },
                State::DataTransferFromHost => {
                    effects.push(Effect::StallOut);
                },
                _ => {},
            }
        }
        self.transfer_in_flight = false;
        self.transfer_phase = false;
        let residue: u32 = match self.cbw.direction {
            DataDirection::Out => self.unread,
            _ => self.cbw.data_transfer_len,
        };
        let csw = build_csw(self.cbw.tag, residue, status);
        self.buf.clean();
        self.buf.write(csw.as_slice());
        assert(self.buf@ =~= csw@);
        assert(csw@.skip(0) =~= csw@);
        if effects.len() > 0 {
            // hold the CSW until the host clears the endpoint halt
            self.state = State::StatusTransferEpStall;
            let step = Step { effects, next: Next::Done { result: Ok(()) } };
            assert(self@ =~= old(self)@.ended().0);
            assert(step@ =~= old(self)@.ended().1);
            step
        } else {
            self.state = State::StatusTransfer;
            assert(self@ =~= old(self)@.ended().0);
            self.offer_packet()
        }
    }

    /// Goes idle
    fn enter_idle(&mut self)
        ensures
            final(self).buf.wf(),
            final(self).cbw.wf(),
            final(self)@ == old(self)@.idle(),
    {
        self.buf.clean();
        self.cbw = CommandBlockWrapper::none();
        self.unread = 0;
        self.cs = None;
        self.state = State::Idle;
    }

    /// Goes idle, ends any transfer and clears the halts
    fn restart(&mut self) -> (effects: Vec<Effect>)
        ensures
            final(self).buf.wf(),
            final(self).cbw.wf(),
            final(self)@ == old(self)@.after_reset(),
            effects@ == seq![Effect::UnstallIn, Effect::UnstallOut],
    {
        self.transfer_in_flight = false;
        self.transfer_phase = false;
        self.enter_idle();
        let mut effects: Vec<Effect> = Vec::new();
        effects.push(Effect::UnstallIn);
        effects.push(Effect::UnstallOut);
        effects
    }

    /// Resets the transport: it forgets what it was doing and both endpoints work
    pub fn reset(&mut self) -> (effects: Vec<Effect>)
        requires
            old(self).wf(),
        ensures
            final(self).wf(),
            final(self)@ == old(self)@.after_reset(),
            effects@ == seq![Effect::UnstallIn, Effect::UnstallOut],
    {
        self.restart()
    }

    /// The descriptors of the bulk endpoints
    pub fn get_endpoint_descriptors(&self) -> (descriptors: Vec<Descriptor>)
        ensures
            descriptors@ == seq![
                Descriptor::Endpoint { pipe: Pipe::DataIn },
                Descriptor::Endpoint { pipe: Pipe::DataOut },
            ],
    {
        let mut descriptors: Vec<Descriptor> = Vec::new();
        descriptors.push(Descriptor::Endpoint { pipe: Pipe::DataIn });
        descriptors.push(Descriptor::Endpoint { pipe: Pipe::DataOut });
        descriptors
    }

    /// Answers a control request to the host: the byte to send, if the request is
    /// one for this transport
    pub fn control_in(&self, req: &Request) -> (answer: Option<u8>)
        ensures
            answer == self@.control_answer(*req),
    {
        if req.request_type != RequestType::Class || req.recipient != Recipient::Interface {
            return None;
        }
        if req.request == CLASS_SPECIFIC_GET_MAX_LUN {
            Some(self.max_lun)
        } else {
            None
        }
    }

    /// Whether a control request from the host is one to accept: it clears the
    /// halt of a bulk endpoint that a CSW is waiting for
    ///
    /// Either endpoint can be the halted one.
    pub fn control_out(&self, req: &Request) -> (accept: bool)
        ensures
            accept == self@.clears_halt(*req),
    {
        if req.request_type != RequestType::Standard || req.recipient != Recipient::Endpoint
            || req.request != CLEAR_FEATURE || req.value != FEATURE_ENDPOINT_HALT {
            return false;
        }
        let cleared = EndpointAddress((req.index % 0x100) as u8);
        let is_bulk = cleared == self.in_ep || cleared == self.out_ep;
        match self.state {
            State::StatusTransferEpStall => is_bulk,
            _ => false,
        }
    }

    /// The request to clear the halt has been accepted: the CSW goes out
    pub fn halt_cleared(&mut self) -> (step: Step)
        requires
            old(self).wf(),
            old(self)@.state == State::StatusTransferEpStall,
        ensures
            final(self).wf(),
            (final(self)@, step@) == old(self)@.halt_cleared_step(),
    {
        self.state = State::StatusTransfer;
        let mut effects: Vec<Effect> = Vec::new();
        effects.push(Effect::UnstallIn);
        effects.push(Effect::UnstallOut);
        let step = Step {
            effects,
            next: Next::WritePacket { packet: self.buf.peek(self.packet_size as usize) },
        };
        assert(step@ =~= old(self)@.halt_cleared_step().1);
        step
    }
}

} // verus!

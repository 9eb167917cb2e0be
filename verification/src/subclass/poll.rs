//! Polling of the SCSI subclass as a state machine
//!
//! A poll reads a packet, writes one, hands the command to the user if one is
//! waiting, then writes and reads once more. [`ScsiView`] is the state; its
//! methods say for every event what comes next.

use crate::subclass::scsi::ScsiCommand;
use crate::transport::model::{
    BulkOnlyError, BulkOnlyTransportResult, BulkOnlyView, NextView, StepView,
};
use crate::transport::TransportError;
use crate::usb::{Effect, InterfaceNumber, UsbError};
use vstd::prelude::*;

verus! {

/// Where a poll is
#[derive(Copy, Clone, Debug, PartialEq, Eq, Structural)]
pub enum Phase {
    /// No poll is going on
    Idle,
    /// Reading before the user action
    PreRead,
    /// Writing before the user action
    PreWrite,
    /// The user is processing the command
    User,
    /// Writing after the user action
    PostWrite,
    /// Reading after the user action
    PostRead,
}

/// What a poll needs next
#[verifier::ext_equal]
pub enum PollNextView {
    /// Read one packet of at most `max_len` bytes from the bulk OUT endpoint
    ReadPacket { max_len: nat },
    /// Write `packet` to the bulk IN endpoint
    WritePacket { packet: Seq<u8> },
    /// Let the user process a command
    Callback { kind: ScsiCommand, lun: u8 },
    /// Nothing more: the poll has ended
    Done { result: Result<(), UsbError> },
}

/// The effects to perform, in this order, and what the poll needs after them
#[verifier::ext_equal]
pub struct PollStepView {
    pub effects: Seq<Effect>,
    pub next: PollNextView,
}

/// What a poll makes of the result of a transport operation: only a genuine
/// USB error ends it. If the transport was merely not ready or not in the
/// right state, the next poll tries again.
pub open spec fn ignored<T>(result: BulkOnlyTransportResult<T>) -> Result<(), UsbError> {
    match result {
        Err(TransportError::Usb(e)) => if e == UsbError::WouldBlock {
            Ok(())
        } else {
            Err(e)
        },
        _ => Ok(()),
    }
}

/// State of the SCSI subclass over Bulk Only Transport
#[verifier::ext_equal]
pub struct ScsiView {
    pub interface: InterfaceNumber,
    pub transport: BulkOnlyView,
    pub phase: Phase,
    /// The poll leaves the OUT endpoint alone while a zero-copy transfer owns it
    pub transfers: bool,
}

impl ScsiView {
    /// What holds between any two operations
    pub open spec fn inv(self) -> bool {
        &&& self.transport.inv()
        // the user is only asked for commands that wait for their status
        &&& self.phase == Phase::User ==> self.transport.state.is_data()
    }

    /// A reset of the bus resets the transport and ends any poll
    pub open spec fn after_reset(self) -> ScsiView {
        ScsiView { transport: self.transport.after_reset(), phase: Phase::Idle, ..self }
    }

    /// Whether a command waits for the user
    pub open spec fn needs_user(self) -> bool {
        !self.transport.state.is_waiting() && self.transport.status is None
    }

    /// The poll has ended
    pub open spec fn over(self, effects: Seq<Effect>, result: Result<(), UsbError>) -> (
        ScsiView,
        PollStepView,
    ) {
        (
            ScsiView { phase: Phase::Idle, ..self },
            PollStepView { effects, next: PollNextView::Done { result } },
        )
    }

    /// The user has to process the command
    pub open spec fn user_asked(self, effects: Seq<Effect>) -> (ScsiView, PollStepView) {
        (
            ScsiView { phase: Phase::User, ..self },
            PollStepView {
                effects,
                next: PollNextView::Callback {
                    kind: crate::subclass::scsi::decoded(self.transport.cbw.block),
                    lun: self.transport.cbw.lun,
                },
            },
        )
    }

    /// The transport moved on to `t` and needs `step`, which is passed on in the
    /// phase `phase`. Nothing is passed on of an operation that has ended.
    pub open spec fn passed_on(self, phase: Phase, t: BulkOnlyView, step: StepView) -> (
        ScsiView,
        PollStepView,
    ) {
        (
            ScsiView { phase, transport: t, ..self },
            PollStepView {
                effects: step.effects,
                next: match step.next {
                    NextView::ReadPacket { max_len } => PollNextView::ReadPacket { max_len },
                    NextView::WritePacket { packet } => PollNextView::WritePacket { packet },
                    NextView::Done { result } => PollNextView::Done { result: ignored(result) },
                },
            },
        )
    }

    /// The transport did `step` of the reading after the user action
    pub open spec fn in_post_read(self, t: BulkOnlyView, step: StepView) -> (
        ScsiView,
        PollStepView,
    ) {
        match step.next {
            NextView::Done { result } => ScsiView { transport: t, ..self }.over(
                step.effects,
                ignored(result),
            ),
            _ => self.passed_on(Phase::PostRead, t, step),
        }
    }

    /// How the reading after the user action starts. If the user drives the data
    /// phase from the host by transfers, no packet is read; the phase only ends, once
    /// its transfer is retired.
    pub open spec fn post_read_start(self) -> (BulkOnlyView, StepView) {
        if self.transfers && self.transport.out_transfer_phase() {
            self.transport.transfer_checked_end()
        } else {
            self.transport.read_step()
        }
    }

    /// The transport did `step` of the writing after the user action. If it
    /// expects a full packet, the user is asked for more data.
    pub open spec fn in_post_write(self, t: BulkOnlyView, step: StepView) -> (
        ScsiView,
        PollStepView,
    ) {
        match step.next {
            NextView::Done { result } => {
                let m = ScsiView { transport: t, ..self };
                if result == Err::<(), TransportError<BulkOnlyError>>(
                    TransportError::Error(BulkOnlyError::FullPacketExpected),
                ) {
                    m.user_asked(step.effects)
                } else {
                    match ignored(result) {
                        Err(e) => m.over(step.effects, Err(e)),
                        Ok(_) => {
                            let (t2, step2) = m.post_read_start();
                            m.in_post_read(
                                t2,
                                StepView { effects: step.effects + step2.effects, ..step2 },
                            )
                        },
                    }
                }
            },
            _ => self.passed_on(Phase::PostWrite, t, step),
        }
    }

    /// The transport did `step` of the writing before the user action
    pub open spec fn in_pre_write(self, t: BulkOnlyView, step: StepView) -> (
        ScsiView,
        PollStepView,
    ) {
        match step.next {
            NextView::Done { result } => {
                let m = ScsiView { transport: t, ..self };
                match ignored(result) {
                    Err(e) => m.over(step.effects, Err(e)),
                    Ok(_) => if m.needs_user() {
                        m.user_asked(step.effects)
                    } else {
                        m.over(step.effects, Ok(()))
                    },
                }
            },
            _ => self.passed_on(Phase::PreWrite, t, step),
        }
    }

    /// The transport did `step` of the reading before the user action
    pub open spec fn in_pre_read(self, t: BulkOnlyView, step: StepView) -> (
        ScsiView,
        PollStepView,
    ) {
        match step.next {
            NextView::Done { result } => {
                let m = ScsiView { transport: t, ..self };
                match ignored(result) {
                    Err(e) => m.over(step.effects, Err(e)),
                    Ok(_) => {
                        let (t2, step2) = t.write_step();
                        m.in_pre_write(
                            t2,
                            StepView { effects: step.effects + step2.effects, ..step2 },
                        )
                    },
                }
            },
            _ => self.passed_on(Phase::PreRead, t, step),
        }
    }

    /// A poll starts
    pub open spec fn poll_step(self, transfers: bool) -> (ScsiView, PollStepView) {
        let m = ScsiView { transfers, ..self };
        let (t, step) = if transfers && self.transport.out_transfer_phase() {
            (self.transport, StepView::done(Ok(())))
        } else {
            self.transport.read_step()
        };
        m.in_pre_read(t, step)
    }

    /// The transport did `step` in the phase that the poll is in
    pub open spec fn continued(self, t: BulkOnlyView, step: StepView) -> (ScsiView, PollStepView) {
        match self.phase {
            Phase::PreRead => self.in_pre_read(t, step),
            Phase::PreWrite => self.in_pre_write(t, step),
            Phase::PostWrite => self.in_post_write(t, step),
            _ => self.in_post_read(t, step),
        }
    }

    /// Whether the poll waits for the outcome of an endpoint operation
    pub open spec fn is_transferring(self) -> bool {
        self.phase != Phase::Idle && self.phase != Phase::User
    }

    /// The bulk OUT endpoint was read
    pub open spec fn packet_read_step(self, outcome: Result<Seq<u8>, UsbError>) -> (
        ScsiView,
        PollStepView,
    ) {
        let (t, step) = self.transport.packet_read_step(outcome);
        self.continued(t, step)
    }

    /// The bulk IN endpoint was written
    pub open spec fn packet_written_step(self, outcome: Result<usize, UsbError>) -> (
        ScsiView,
        PollStepView,
    ) {
        let (t, step) = self.transport.packet_written_step(outcome);
        self.continued(t, step)
    }

    /// The user is done with the command, for now or for good
    pub open spec fn callback_done_step(self) -> (ScsiView, PollStepView) {
        let (t, step) = self.transport.write_step();
        self.in_post_write(t, step)
    }
}

} // verus!

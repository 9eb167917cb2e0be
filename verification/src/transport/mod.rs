//! USB Mass Storage transports

use crate::usb::UsbError;
use vstd::prelude::*;

pub mod answers;
pub mod bbb;
pub mod calls;
pub mod cbw;
pub mod laws;
pub mod model;
pub mod packets;
pub mod tags;
pub mod trace;
pub mod uas;
pub mod wire;

verus! {

/// The outcome of a command, as the class reports it
#[derive(Copy, Clone, Debug, PartialEq, Eq, Structural)]
pub enum CommandStatus {
    Passed,
    Failed,
    PhaseError,
}

impl CommandStatus {
    /// The code of the status on the wire
    pub open spec fn spec_code(self) -> u8 {
        match self {
            CommandStatus::Passed => 0x00,
            CommandStatus::Failed => 0x01,
            CommandStatus::PhaseError => 0x02,
        }
    }

    /// The code of the status on the wire
    pub fn code(&self) -> (code: u8)
        ensures
            code == self.spec_code(),
    {
        match *self {
            CommandStatus::Passed => 0x00,
            CommandStatus::Failed => 0x01,
            CommandStatus::PhaseError => 0x02,
        }
    }
}

/// Why a transport could not proceed
#[derive(Debug, PartialEq, Eq)]
pub enum TransportError<E> {
    /// The USB stack failed
    Usb(UsbError),
    /// The transport itself failed
    Error(E),
}

} // verus!

//! Zero-copy transfer queue of USB bulk endpoints
//!
//! # Buffer validity
//!
//! [`TransferBus::submit_write`] and [`TransferBus::submit_read`] hand the
//! buffer straight to the DMA engine. **The caller must keep it valid and leave
//! it alone from the moment the call returns until
//! [`TransferBus::poll_transfer`] retires the transfer.**
//!
//! # Order
//!
//! Transfers complete, and are retired, in the order in which they were
//! submitted. Each [`TransferBus::poll_transfer`] retires at most one.

use crate::usb::{EndpointAddress, UsbError};
use vstd::prelude::*;

verus! {

/// A USB bus driver that queues whole transfers per endpoint, without copies
pub trait TransferBus {
    /// Queues an IN transfer (device to host) from `buf`
    ///
    /// Gives [`UsbError::WouldBlock`] if the queue of the endpoint is full.
    fn submit_write(&self, ep: EndpointAddress, buf: &[u8]) -> Result<(), UsbError>;

    /// Queues an OUT transfer (host to device) into `buf`
    ///
    /// Gives [`UsbError::WouldBlock`] if the queue of the endpoint is full. No
    /// implementation can change the length of a slice.
    fn submit_read(&self, ep: EndpointAddress, buf: &mut [u8]) -> (r: Result<(), UsbError>)
        ensures
            final(buf)@.len() == old(buf)@.len(),
    ;

    /// Retires the oldest completed transfer on `ep`
    ///
    /// * `Some(Ok(n))`: it transferred `n` bytes
    /// * `Some(Err(_))`: it ended with a hardware error
    /// * `None`: none has completed yet
    fn poll_transfer(&self, ep: EndpointAddress) -> Option<Result<usize, UsbError>>;
}

} // verus!

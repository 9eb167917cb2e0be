//! Buses that can prime a single large bulk transfer
//!
//! The caller hands a whole buffer to the hardware at once and polls for
//! completion, where the ordinary path would write packet by packet.

use crate::usb::{EndpointAddress, UsbError};
use vstd::prelude::*;

verus! {

/// A USB bus that can prime a single large bulk transfer
pub trait BulkBus {
    /// Primes a bulk IN (device to host) transfer with `buf` and returns the
    /// number of bytes that the controller took
    ///
    /// Gives [`UsbError::WouldBlock`] if a prior transfer is still in flight.
    fn bulk_write(&self, ep: EndpointAddress, buf: &[u8]) -> Result<usize, UsbError>;

    /// Primes a bulk OUT (host to device) transfer into `buf`
    ///
    /// Gives [`UsbError::WouldBlock`] if a prior transfer is still in flight.
    fn bulk_read_prime(&self, ep: EndpointAddress, buf: &mut [u8]) -> Result<(), UsbError>;

    /// The byte count of the transfer on `ep` once it has completed
    fn bulk_poll(&self, ep: EndpointAddress) -> Option<usize>;

    /// Whether the IN endpoint `ep` has no transfer in flight
    ///
    /// A command may end only with the IN ring drained, or the answer to the next
    /// command could overtake the status of this one.
    fn in_ep_drained(&self, ep: EndpointAddress) -> bool;
}

} // verus!

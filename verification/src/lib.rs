//! USB Mass Storage device class: Bulk Only Transport, UAS information units
//! and the SCSI transparent command set.
//!
//! The library decides; it performs no endpoint I/O itself. Every operation
//! that has to touch an endpoint returns a step that names the endpoint
//! operation to perform next, and its outcome is handed back to the library.

pub mod buffer;
pub mod bulk;
pub mod endian;
pub mod subclass;
pub mod text;
pub mod transfer;
pub mod transport;
pub mod usb;

use vstd::prelude::*;

verus! {

/// USB interface class code of Mass Storage devices
pub const CLASS_MASS_STORAGE: u8 = 0x08;

} // verus!

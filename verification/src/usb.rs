//! The USB vocabulary that the class logic reads: errors, addresses, control
//! requests and descriptors, all as plain values

use vstd::prelude::*;

verus! {

/// A USB stack error
#[derive(Copy, Clone, Debug, PartialEq, Eq, Structural)]
pub enum UsbError {
    /// The device is busy or there is no data available
    WouldBlock,
    /// Parsing failed due to invalid input
    ParseError,
    /// A buffer is too short for the data, or the data does not fit its length constraints
    BufferOverflow,
    /// More endpoints were requested than the peripheral supports
    EndpointOverflow,
    /// More packet memory was requested than the peripheral supports
    EndpointMemoryOverflow,
    /// The endpoint address is invalid or already used
    InvalidEndpoint,
    /// The operation is not supported by the device or configuration
    Unsupported,
    /// The operation is not valid in the current state
    InvalidState,
}

/// Endpoint address, direction bit included
#[derive(Copy, Clone, Debug, PartialEq, Eq, Structural)]
pub struct EndpointAddress(pub u8);

/// Interface number within a configuration
#[derive(Copy, Clone, Debug, PartialEq, Eq, Structural)]
pub struct InterfaceNumber(pub u8);

/// Control request type
#[derive(Copy, Clone, Debug, PartialEq, Eq, Structural)]
pub enum RequestType {
    Standard,
    Class,
    Vendor,
    Reserved,
}

/// Control request recipient
#[derive(Copy, Clone, Debug, PartialEq, Eq, Structural)]
pub enum Recipient {
    Device,
    Interface,
    Endpoint,
    Other,
    Reserved,
}

/// The fields of a SETUP packet that a class looks at
#[derive(Copy, Clone, Debug)]
pub struct Request {
    pub request_type: RequestType,
    pub recipient: Recipient,
    pub request: u8,
    pub value: u16,
    pub index: u16,
}

/// Standard control request Clear Feature
pub const CLEAR_FEATURE: u8 = 1;

/// Standard feature Endpoint Halt
pub const FEATURE_ENDPOINT_HALT: u16 = 0;

/// Type of a UAS pipe usage descriptor
pub const PIPE_USAGE: u8 = 0x24;

/// The body of the UAS pipe usage descriptor for the pipe `id`
pub fn pipe_usage_body(id: u8) -> (body: [u8; 2])
    ensures
        body@ == seq![id, 0u8],
{
    [id, 0]
}

/// A pipe of the Mass Storage function
#[derive(Copy, Clone, Debug, PartialEq, Eq, Structural)]
pub enum Pipe {
    /// Bulk IN data pipe, shared by both alternate settings
    DataIn,
    /// Bulk OUT data pipe, shared by both alternate settings
    DataOut,
    /// UAS status pipe (bulk IN)
    Status,
    /// UAS command pipe (bulk OUT)
    Command,
}

/// One descriptor of the configuration, in the order it goes on the wire
#[derive(Copy, Clone, Debug, PartialEq, Eq, Structural)]
pub enum Descriptor {
    /// Interface association over `count` interfaces starting at `first`
    Association { first: InterfaceNumber, count: u8, class: u8, subclass: u8, protocol: u8 },
    /// Interface `number` in alternate setting `alternate`
    Interface { number: InterfaceNumber, alternate: u8, class: u8, subclass: u8, protocol: u8 },
    /// Endpoint of `pipe`
    Endpoint { pipe: Pipe },
    /// UAS pipe usage of the endpoint just before: type [`PIPE_USAGE`] with the body that
    /// [`pipe_usage_body`] gives
    PipeUsage { id: u8 },
}

/// What has to be done to an endpoint, or to the UAS engine, before going on
#[derive(Copy, Clone, Debug, PartialEq, Eq, Structural)]
pub enum Effect {
    /// Halt the bulk IN endpoint
    StallIn,
    /// Halt the bulk OUT endpoint
    StallOut,
    /// Clear the halt of the bulk IN endpoint
    UnstallIn,
    /// Clear the halt of the bulk OUT endpoint
    UnstallOut,
    /// Reset the UAS engine
    ResetUas,
}

} // verus!

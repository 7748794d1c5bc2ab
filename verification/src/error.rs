//! What can go wrong between a caller and the device.

use vstd::prelude::*;
use crate::protocol::Message;

verus! {

/// A failure of the serial line itself.
#[derive(Debug, Clone, PartialEq, Eq)]
pub enum SerialError {
    SerialPortClosed,
    UnhandledMessage(String),
    ErrorReading(String),
}

/// A failure of an operation on the device.
#[derive(Debug, Clone, PartialEq, Eq)]
pub enum Error {
    /// The port could not be opened or was lost; holds the port's own words.
    Disconnect(String),
    /// A record was not JSON, or had the shape of no message; holds the cause.
    ParseError(String),
    NoDevicesFound,
    SerialError(SerialError),
    /// The engine is gone: the command could not be sent, or its reply was
    /// abandoned.
    CommandSendError,
    UnexpectedResponse(Message),
    ConversionError(String),
    /// The device answered a command with a failure.
    CommandError(String, Option<String>),
    /// The device reported a failure that no command was waiting for.
    DeviceError(String, Option<String>),
}

} // verus!

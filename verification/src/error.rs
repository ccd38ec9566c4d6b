//! The error taxonomy: the protocol's status byte and the local transport
//! failures share one type.

use vstd::prelude::*;
use vstd::string::StringExecFns;

verus! {

/// Everything that can go wrong with a request, whether reported by the
/// controller in a reply's status byte or noticed locally.
#[derive(Debug, Clone, Copy, PartialEq, Eq, Structural)]
pub enum Error {
    SocketError,
    BindError,
    NoResponse,
    UnknownCommand,
    NotConnected,
    Failed,
    ConnectFailed,
    AuthenticationFailed,
    NotPaired,
    NoResources,
    Timeout,
    AlreadyConnected,
    Busy,
    Rejected,
    NotSupported,
    InvalidParameters,
    Disconnected,
    NotPowered,
    Canceled,
    InvalidIndex,
    RFKilled,
    AlreadyPaired,
    PermissionDenied,
    UnknownError,
}

impl Error {
    /// The meaning of a status byte: `None` for success, the named kind for
    /// `0x01..=0x14`, and `UnknownError` for every other value.
    pub open spec fn status_kind(status: u8) -> Option<Error> {
        match status {
            0x00 => None,
            0x01 => Some(Error::UnknownCommand),
            0x02 => Some(Error::NotConnected),
            0x03 => Some(Error::Failed),
            0x04 => Some(Error::ConnectFailed),
            0x05 => Some(Error::AuthenticationFailed),
            0x06 => Some(Error::NotPaired),
            0x07 => Some(Error::NoResources),
            0x08 => Some(Error::Timeout),
            0x09 => Some(Error::AlreadyConnected),
            0x0A => Some(Error::Busy),
            0x0B => Some(Error::Rejected),
            0x0C => Some(Error::NotSupported),
            0x0D => Some(Error::InvalidParameters),
            0x0E => Some(Error::Disconnected),
            0x0F => Some(Error::NotPowered),
            0x10 => Some(Error::Canceled),
            0x11 => Some(Error::InvalidIndex),
            0x12 => Some(Error::RFKilled),
            0x13 => Some(Error::AlreadyPaired),
            0x14 => Some(Error::PermissionDenied),
            _ => Some(Error::UnknownError),
        }
    }

    /// Whether the kind is one that only this side of the channel produces.
    pub open spec fn is_local(self) -> bool {
        self is SocketError || self is BindError || self is NoResponse
    }

    /// Maps a reply's status byte to its error kind.
    pub fn from_status(status: u8) -> (kind: Option<Error>)
        ensures
            kind == Error::status_kind(status),
            kind is None <==> status == 0,
            status > 0x14 ==> kind == Some(Error::UnknownError),
            kind matches Some(e) ==> !e.is_local(),
    {
        match status {
            0x00 => None,
            0x01 => Some(Error::UnknownCommand),
            0x02 => Some(Error::NotConnected),
            0x03 => Some(Error::Failed),
            0x04 => Some(Error::ConnectFailed),
            0x05 => Some(Error::AuthenticationFailed),
            0x06 => Some(Error::NotPaired),
            0x07 => Some(Error::NoResources),
            0x08 => Some(Error::Timeout),
            0x09 => Some(Error::AlreadyConnected),
            0x0A => Some(Error::Busy),
            0x0B => Some(Error::Rejected),
            0x0C => Some(Error::NotSupported),
            0x0D => Some(Error::InvalidParameters),
            0x0E => Some(Error::Disconnected),
            0x0F => Some(Error::NotPowered),
            0x10 => Some(Error::Canceled),
            0x11 => Some(Error::InvalidIndex),
            0x12 => Some(Error::RFKilled),
            0x13 => Some(Error::AlreadyPaired),
            0x14 => Some(Error::PermissionDenied),
            _ => Some(Error::UnknownError),
        }
    }

    /// The name of the kind.
    pub open spec fn name(self) -> Seq<char> {
        match self {
            Error::SocketError => "SocketError"@,
            Error::BindError => "BindError"@,
            Error::NoResponse => "NoResponse"@,
            Error::UnknownCommand => "UnknownCommand"@,
            Error::NotConnected => "NotConnected"@,
            Error::Failed => "Failed"@,
            Error::ConnectFailed => "ConnectFailed"@,
            Error::AuthenticationFailed => "AuthenticationFailed"@,
            Error::NotPaired => "NotPaired"@,
            Error::NoResources => "NoResources"@,
            Error::Timeout => "Timeout"@,
            Error::AlreadyConnected => "AlreadyConnected"@,
            Error::Busy => "Busy"@,
            Error::Rejected => "Rejected"@,
            Error::NotSupported => "NotSupported"@,
            Error::InvalidParameters => "InvalidParameters"@,
            Error::Disconnected => "Disconnected"@,
            Error::NotPowered => "NotPowered"@,
            Error::Canceled => "Canceled"@,
            Error::InvalidIndex => "InvalidIndex"@,
            Error::RFKilled => "RFKilled"@,
            Error::AlreadyPaired => "AlreadyPaired"@,
            Error::PermissionDenied => "PermissionDenied"@,
            Error::UnknownError => "UnknownError"@,
        }
    }

    /// What the kind means, in words.
    pub open spec fn meaning(self) -> Seq<char> {
        match self {
            Error::SocketError => "Error opening socket"@,
            Error::BindError => "Error binding to a socket"@,
            Error::NoResponse => "Response has not been stored"@,
            Error::UnknownCommand => "Unknown command"@,
            Error::NotConnected => "Not connected"@,
            Error::Failed => "Failed"@,
            Error::ConnectFailed => "Connect failed"@,
            Error::AuthenticationFailed => "Authentication failed"@,
            Error::NotPaired => "Not paired"@,
            Error::NoResources => "No resources"@,
            Error::Timeout => "Timeout"@,
            Error::AlreadyConnected => "Already connected"@,
            Error::Busy => "Busy"@,
            Error::Rejected => "Rejected"@,
            Error::NotSupported => "Not supported"@,
            Error::InvalidParameters => "Invalid parameters"@,
            Error::Disconnected => "Disconnected"@,
            Error::NotPowered => "Not powered"@,
            Error::Canceled => "Canceled"@,
            Error::InvalidIndex => "Invalid index"@,
            Error::RFKilled => "RF killed"@,
            Error::AlreadyPaired => "Already paired"@,
            Error::PermissionDenied => "Permission denied"@,
            Error::UnknownError => "Unknown error"@,
        }
    }

    /// The name of the kind, as a string slice.
    pub fn as_str(&self) -> (text: &'static str)
        ensures
            text@ == self.name(),
    {
        match self {
            Error::SocketError => "SocketError",
            Error::BindError => "BindError",
            Error::NoResponse => "NoResponse",
            Error::UnknownCommand => "UnknownCommand",
            Error::NotConnected => "NotConnected",
            Error::Failed => "Failed",
            Error::ConnectFailed => "ConnectFailed",
            Error::AuthenticationFailed => "AuthenticationFailed",
            Error::NotPaired => "NotPaired",
            Error::NoResources => "NoResources",
            Error::Timeout => "Timeout",
            Error::AlreadyConnected => "AlreadyConnected",
            Error::Busy => "Busy",
            Error::Rejected => "Rejected",
            Error::NotSupported => "NotSupported",
            Error::InvalidParameters => "InvalidParameters",
            Error::Disconnected => "Disconnected",
            Error::NotPowered => "NotPowered",
            Error::Canceled => "Canceled",
            Error::InvalidIndex => "InvalidIndex",
            Error::RFKilled => "RFKilled",
            Error::AlreadyPaired => "AlreadyPaired",
            Error::PermissionDenied => "PermissionDenied",
            Error::UnknownError => "UnknownError",
        }
    }

    /// The name of the kind: what the error prints as.
    pub fn to_string(&self) -> (text: String)
        ensures
            text@ == self.name(),
    {
        String::from_str(self.as_str())
    }

    /// What the kind means, in words.
    pub fn description(&self) -> (text: &'static str)
        ensures
            text@ == self.meaning(),
    {
        match self {
            Error::SocketError => "Error opening socket",
            Error::BindError => "Error binding to a socket",
            Error::NoResponse => "Response has not been stored",
            Error::UnknownCommand => "Unknown command",
            Error::NotConnected => "Not connected",
            Error::Failed => "Failed",
            Error::ConnectFailed => "Connect failed",
            Error::AuthenticationFailed => "Authentication failed",
            Error::NotPaired => "Not paired",
            Error::NoResources => "No resources",
            Error::Timeout => "Timeout",
            Error::AlreadyConnected => "Already connected",
            Error::Busy => "Busy",
            Error::Rejected => "Rejected",
            Error::NotSupported => "Not supported",
            Error::InvalidParameters => "Invalid parameters",
            Error::Disconnected => "Disconnected",
            Error::NotPowered => "Not powered",
            Error::Canceled => "Canceled",
            Error::InvalidIndex => "Invalid index",
            Error::RFKilled => "RF killed",
            Error::AlreadyPaired => "Already paired",
            Error::PermissionDenied => "Permission denied",
            Error::UnknownError => "Unknown error",
        }
    }
}

} // verus!

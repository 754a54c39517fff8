//! Errors that the library decides, with the kind and message under which a
//! socket reports each of them.
use vstd::prelude::*;

verus! {

/// The category of an error, as the standard library's I/O errors name it.
#[derive(Clone, Copy, Debug, PartialEq, Eq)]
pub enum ErrorKind {
    Unsupported,
    InvalidData,
    InvalidInput,
    NotFound,
    Other,
}

/// An error that the library itself decides.
#[derive(Clone, Copy, Debug, PartialEq, Eq)]
pub enum PktInfoError {
    /// The socket's address family is neither IPv4 nor IPv6.
    Unsupported,
    /// The kernel reports more control data than the buffer holds.
    ControlTooLong,
    /// The sender's address is not an IPv4 or IPv6 socket address.
    InvalidSourceAddress,
    /// The kernel truncated the control data.
    ControlTruncated,
    /// The kernel truncated the datagram.
    PayloadTruncated,
    /// No usable packet-info message came with the datagram.
    NotFound,
    /// A multicast hop limit above 255.
    InvalidHops,
}

impl PktInfoError {
    /// The kind under which this error is reported.
    pub open spec fn spec_kind(&self) -> ErrorKind {
        match self {
            PktInfoError::Unsupported => ErrorKind::Unsupported,
            PktInfoError::ControlTooLong => ErrorKind::InvalidData,
            PktInfoError::InvalidSourceAddress => ErrorKind::InvalidData,
            PktInfoError::ControlTruncated => ErrorKind::Other,
            PktInfoError::PayloadTruncated => ErrorKind::Other,
            PktInfoError::NotFound => ErrorKind::NotFound,
            PktInfoError::InvalidHops => ErrorKind::InvalidInput,
        }
    }

    /// The kind under which this error is reported.
    pub fn kind(&self) -> (k: ErrorKind)
        ensures
            k == self.spec_kind(),
    {
        match self {
            PktInfoError::Unsupported => ErrorKind::Unsupported,
            PktInfoError::ControlTooLong => ErrorKind::InvalidData,
            PktInfoError::InvalidSourceAddress => ErrorKind::InvalidData,
            PktInfoError::ControlTruncated => ErrorKind::Other,
            PktInfoError::PayloadTruncated => ErrorKind::Other,
            PktInfoError::NotFound => ErrorKind::NotFound,
            PktInfoError::InvalidHops => ErrorKind::InvalidInput,
        }
    }

    /// The message that goes with this error; the unsupported family has
    /// none and is reported by its kind alone.
    pub fn message(&self) -> (m: Option<&'static str>)
        ensures
            match self {
                PktInfoError::Unsupported => m is None,
                PktInfoError::ControlTooLong => m matches Some(s) && s@
                    == "Ancillary data length exceeds buffer"@,
                PktInfoError::InvalidSourceAddress => m matches Some(s) && s@
                    == "Invalid source address"@,
                PktInfoError::ControlTruncated => m matches Some(s) && s@
                    == "Ancillary data truncated while reading PKTINFO"@,
                PktInfoError::PayloadTruncated => m matches Some(s) && s@
                    == "Payload truncated while reading UDP datagram"@,
                PktInfoError::NotFound => m matches Some(s) && s@
                    == "Failed to read PKTINFO from socket"@,
                PktInfoError::InvalidHops => m matches Some(s) && s@ == "hops must be in 0..=255"@,
            },
    {
        match self {
            PktInfoError::Unsupported => None,
            PktInfoError::ControlTooLong => Some("Ancillary data length exceeds buffer"),
            PktInfoError::InvalidSourceAddress => Some("Invalid source address"),
            PktInfoError::ControlTruncated => Some("Ancillary data truncated while reading PKTINFO"),
            PktInfoError::PayloadTruncated => Some("Payload truncated while reading UDP datagram"),
            PktInfoError::NotFound => Some("Failed to read PKTINFO from socket"),
            PktInfoError::InvalidHops => Some("hops must be in 0..=255"),
        }
    }
}

} // verus!

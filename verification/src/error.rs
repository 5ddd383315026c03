//! The four kinds of failure a call can meet.

use vstd::prelude::*;

verus! {

/// Negotiation went wrong. It ends the attempt, never the program.
#[derive(Clone, Copy, Debug, PartialEq, Eq, Structural)]
pub enum NegotiationError {
    /// A description or a candidate could not be read.
    Malformed,
    /// The connection had already been closed.
    ConnectionClosed,
    /// An answer was asked for before any offer had been applied.
    NoRemoteDescription,
    /// What was waited for did not come in time.
    Timeout,
}

/// The presence directory could not be reached. This passes: the caller
/// goes on as if nobody were online and asks again later.
#[derive(Clone, Copy, Debug, PartialEq, Eq, Structural)]
pub enum DirectoryError {
    Unreachable,
}

/// The channel failed. The call is over: the peer is taken to have hung up.
#[derive(Clone, Copy, Debug, PartialEq, Eq, Structural)]
pub enum TransportError {
    SendFailed,
    ReceiveFailed,
}

/// The capture device failed. Only the sending side of the call stops.
#[derive(Clone, Copy, Debug, PartialEq, Eq, Structural)]
pub enum DeviceError {
    CaptureFailed,
}

} // verus!

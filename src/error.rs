use vstd::prelude::*;

verus! {

/// Why a request was refused before it reached the request queue.
#[derive(Clone, Copy, Debug, PartialEq, Eq, Structural)]
pub enum InvalidRequest {
    /// A range of zero items was requested.
    CountOfZero,
    /// `start + count - 1` lies past the 16-bit address space: `(start, count)`.
    AddressOverflow(u16, u16),
    /// More items than the request type allows: `(count, max_count)`.
    CountTooBigForType(u16, u16),
}

/// Why a reply could not be turned into a response value.
#[derive(Clone, Copy, Debug, PartialEq, Eq, Structural)]
pub enum ResponseParseError {
    /// A coil state on the wire was neither of the two defined patterns.
    UnknownCoilState(u16),
    /// A write confirmation did not echo the value that was written.
    ReplyEchoMismatch,
}

/// The error of a session call.
#[derive(Clone, Copy, Debug, PartialEq, Eq, Structural)]
pub enum Error {
    /// The request failed validation and was never queued.
    BadRequest(InvalidRequest),
    /// The reply could not be decoded.
    BadResponse(ResponseParseError),
    /// The device answered with an exception code.
    Exception(u8),
    /// No reply arrived within the response timeout.
    ResponseTimeout,
    /// The transport worker could not reach the device.
    NoConnection,
    /// The consumer of the request queue is gone.
    Shutdown,
}

} // verus!

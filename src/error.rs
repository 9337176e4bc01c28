use vstd::prelude::*;

verus! {

/// Errors of the correlation layer.
#[derive(Debug, Clone, Copy, PartialEq, Eq, Structural)]
pub enum FrameError {
    /// A header was asked for with a network-link identifier or a
    /// transaction identifier outside its range.
    InvalidHeaderField,
    /// An inbound frame carries a transaction identifier that no pending
    /// request owns.
    UnmatchedTransaction(u8),
    /// A buffer too short to hold a frame header.
    MissingHeader,
    /// The transport refused an outbound frame.
    TransportWrite,
    /// The request was cancelled before a response arrived.
    Cancelled,
    /// The request's descriptor rejected the response it was given.
    ResponseInterpretation,
}

} // verus!

use vstd::prelude::*;

verus! {

/// How a read from an established channel failed.
#[derive(Clone, Copy, Debug, PartialEq, Eq, Structural)]
pub enum ReadFailure {
    /// The peer reset the underlying connection.
    ConnectionReset,
    /// The peer closed the underlying connection without ending the session.
    UnexpectedEof,
    /// A protocol error, a malformed record, or any other I/O error.
    Other,
}

/// Why the processing of one connection failed.
#[derive(Clone, Copy, Debug, PartialEq, Eq, Structural)]
pub enum FailureReason {
    /// The handshake did not establish a channel.
    Handshake,
    /// The peer went away after part of a frame had arrived.
    ResetMidFrame,
    /// Reading the frame failed for another reason.
    Read,
    /// Writing the echo failed.
    Write,
}

/// The result of processing one connection.
#[derive(Clone, Copy, Debug, PartialEq, Eq, Structural)]
pub enum ConnectionOutcome {
    /// A frame was read and written back.
    Completed,
    /// The peer left before sending any byte of a frame.
    GracefullyClosed,
    /// The connection failed.
    Failed(FailureReason),
}

impl ConnectionOutcome {
    pub open spec fn is_benign_spec(self) -> bool {
        !(self is Failed)
    }

    /// Whether the outcome is a normal end of the connection.
    pub fn is_benign(&self) -> (r: bool)
        ensures
            r == self.is_benign_spec(),
    {
        !matches!(self, ConnectionOutcome::Failed(_))
    }
}

/// The outcome of a failed read, given how many bytes of the current frame
/// had arrived before it.
pub open spec fn read_failure_outcome(kind: ReadFailure, accumulated: nat) -> ConnectionOutcome {
    match kind {
        ReadFailure::ConnectionReset | ReadFailure::UnexpectedEof => if accumulated == 0 {
            ConnectionOutcome::GracefullyClosed
        } else {
            ConnectionOutcome::Failed(FailureReason::ResetMidFrame)
        },
        ReadFailure::Other => ConnectionOutcome::Failed(FailureReason::Read),
    }
}

/// Classifies a failed read: a peer that departs before any byte of the
/// frame arrived is a normal departure; every other failure is an error.
pub fn classify_read_failure(kind: ReadFailure, accumulated: usize) -> (r: ConnectionOutcome)
    ensures
        r == read_failure_outcome(kind, accumulated as nat),
{
    match kind {
        ReadFailure::ConnectionReset | ReadFailure::UnexpectedEof => {
            if accumulated == 0 {
                ConnectionOutcome::GracefullyClosed
            } else {
                ConnectionOutcome::Failed(FailureReason::ResetMidFrame)
            }
        },
        ReadFailure::Other => ConnectionOutcome::Failed(FailureReason::Read),
    }
}

} // verus!

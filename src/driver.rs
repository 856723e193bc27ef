use vstd::prelude::*;
use crate::identity::CertificateError;
use crate::outcome::{ConnectionOutcome, FailureReason};

verus! {

/// A failure that ends the whole service.
#[derive(Debug)]
pub enum ServiceError {
    /// The server identity could not be loaded.
    Identity(CertificateError),
    /// The listening endpoint could not be bound.
    Bind,
    /// Accepting a connection failed.
    Accept,
    /// A connection failed under the serialized strategy.
    Connection(FailureReason),
    /// Any other failure, described in words.
    Other(String),
}

/// A failure of another kind, with its description.
pub fn error(message: String) -> (e: ServiceError)
    ensures
        e matches ServiceError::Other(m) && m@ == message@,
{
    ServiceError::Other(message)
}

/// How connections are driven through handshake and echo.
#[derive(Clone, Copy, Debug, PartialEq, Eq, Structural)]
pub enum Strategy {
    /// One connection is processed to its end before the next is accepted;
    /// a failed connection ends the service.
    Serialized,
    /// Each accepted connection is handed to a unit of work of its own; a
    /// failure stays within that unit.
    Concurrent,
}

/// What the accept loop does next.
#[derive(Debug)]
pub enum DriverAction {
    /// Accept the next connection.
    Accept,
    /// Process the accepted connection in the loop itself.
    Serve,
    /// Hand the accepted connection to a unit of work of its own, and go on
    /// accepting.
    Spawn,
    /// End the service with this error.
    Stop(ServiceError),
}

impl DriverAction {
    /// Whether this action ends the service because a connection failed
    /// for this reason.
    pub open spec fn stops_for_connection(self, reason: FailureReason) -> bool {
        match self {
            DriverAction::Stop(ServiceError::Connection(r)) => r == reason,
            _ => false,
        }
    }
}

impl Strategy {
    /// What follows an attempt to accept a connection.
    pub fn after_accept(self, accepted: bool) -> (a: DriverAction)
        ensures
            !accepted ==> a matches DriverAction::Stop(ServiceError::Accept),
            accepted && self == Strategy::Serialized ==> a matches DriverAction::Serve,
            accepted && self == Strategy::Concurrent ==> a matches DriverAction::Spawn,
    {
        if !accepted {
            DriverAction::Stop(ServiceError::Accept)
        } else {
            match self {
                Strategy::Serialized => DriverAction::Serve,
                Strategy::Concurrent => DriverAction::Spawn,
            }
        }
    }

    /// What follows the end of a connection. Under the serialized strategy a
    /// failed connection ends the service; a benign end never does, and under
    /// the concurrent strategy no outcome of one connection does.
    pub fn after_connection(self, outcome: ConnectionOutcome) -> (a: DriverAction)
        ensures
            self == Strategy::Concurrent ==> a matches DriverAction::Accept,
            outcome.is_benign_spec() ==> a matches DriverAction::Accept,
            self == Strategy::Serialized ==> match outcome {
                ConnectionOutcome::Failed(r) => a.stops_for_connection(r),
                _ => a is Accept,
            },
    {
        match (self, outcome) {
            (Strategy::Serialized, ConnectionOutcome::Failed(r)) => DriverAction::Stop(
                ServiceError::Connection(r),
            ),
            _ => DriverAction::Accept,
        }
    }
}

/// The status with which the process exits: zero after a clean end, one
/// after a fatal error.
pub fn exit_code(result: &Result<(), ServiceError>) -> (code: i32)
    ensures
        result is Ok ==> code == 0,
        result is Err ==> code == 1,
{
    match result {
        Ok(()) => 0,
        Err(_) => 1,
    }
}

} // verus!

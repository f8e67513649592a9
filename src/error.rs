//! Error taxonomy of the protocol engine.
use vstd::prelude::*;

verus! {

/// Every failure that an exchange with the simulator can end in.
#[derive(Debug, Clone, PartialEq, Eq)]
pub enum TraciError {
    /// A transport-level failure (connect, send, receive) or the use of a
    /// closed or absent connection; holds a description of the failure.
    Connection(String),
    /// A structural violation: buffer underrun, malformed UTF-8, an unexpected
    /// echoed command id, a mismatched type tag, an invalid frame length or
    /// result type, or a failed subscribed variable.
    Protocol(String),
    /// The server reported a failure of the command; holds the server's message.
    SimulationError(String),
    /// The server reported that the command is not implemented; holds the
    /// server's message.
    NotImplemented(String),
    /// The simulation has reached its configured end and was closed.
    SimulationEnd,
}

impl TraciError {
    pub open spec fn is_protocol(&self) -> bool {
        self is Protocol
    }

    pub open spec fn is_connection(&self) -> bool {
        self is Connection
    }

    /// A `Protocol` error with the given description.
    pub fn protocol(msg: &str) -> (r: TraciError)
        ensures
            r is Protocol,
    {
        TraciError::Protocol(msg.to_string())
    }

    /// A `Connection` error with the given description.
    pub fn connection(msg: &str) -> (r: TraciError)
        ensures
            r is Connection,
    {
        TraciError::Connection(msg.to_string())
    }
}

} // verus!

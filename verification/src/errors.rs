//! Error types of the service: protocol-level errors reported to the
//! local caller for logging, state-machine errors, and misuse errors
//! returned to the business layer.

use vstd::prelude::*;

verus! {

/// What the embedding application should do with a reported error.
#[derive(Debug, PartialEq, Eq, Structural, Clone, Copy)]
pub enum ErrorAction {
    /// Ignore the error and log it.
    IgnoreAndLog,
}

/// An error reported to the local caller when a client request is
/// malformed, mismatched, or arrives for unknown state. It is logged
/// locally and is never fatal to the service.
#[derive(Debug, PartialEq, Eq)]
pub struct LightningError {
    /// Human-readable description of the error.
    pub err: String,
    /// What the caller should do with the error.
    pub action: ErrorAction,
}

/// An error raised when a state-machine transition is attempted from an
/// invalid state.
#[derive(Debug, PartialEq, Eq)]
pub struct ChannelStateError(pub String);

impl ChannelStateError {
    /// Turns a state error into the error reported to the local caller,
    /// keeping its message.
    pub fn into_lightning_error(self) -> (r: LightningError)
        ensures
            r.err == self.0,
            r.action == ErrorAction::IgnoreAndLog,
    {
        LightningError { err: self.0, action: ErrorAction::IgnoreAndLog }
    }
}

/// An error returned to the business layer when a callback references a
/// request id, order id, or counterparty that does not exist in the
/// store. It is never sent over the wire.
#[derive(Debug, PartialEq, Eq)]
pub enum APIError {
    /// The callback was invoked with arguments that do not match any
    /// recorded state.
    APIMisuseError {
        /// Human-readable description of the misuse.
        err: String,
    },
}

} // verus!

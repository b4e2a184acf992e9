//! Error taxonomy of the routing core.
//!
//! Each error is local to one event or one handler invocation: none of them
//! aborts processing of other events or other handlers.

use vstd::prelude::*;

verus! {

/// The inbound payload was not a well-formed structured event record.
/// The event carrying it is dropped; later events are unaffected.
#[derive(Debug, Clone, PartialEq, Eq, Structural)]
pub struct DecodeError;

/// A pattern handed to registration does not compile as a regular
/// expression. Raised at registration time only, never during dispatch.
#[derive(Debug, Clone, PartialEq, Eq, Structural)]
pub struct InvalidPatternError;

/// The sender of a message could not be resolved in the user directory;
/// dispatch of that one message is abandoned.
#[derive(Debug, Clone)]
pub struct UnknownUserError {
    /// The sender id that the directory did not know.
    pub sender_id: String,
}

/// A handler invocation failed. The failure is recorded at the dispatch
/// boundary and dispatch proceeds to the next registered entry.
#[derive(Debug, Clone)]
pub struct HandlerError {
    /// A description supplied by the failing handler.
    pub message: String,
}

/// A reply could not be delivered by the transport layer. Surfaced to the
/// handler that attempted the send; the core does not retry.
#[derive(Debug, Clone)]
pub struct SendError {
    /// A description supplied by the transport layer.
    pub message: String,
}

} // verus!

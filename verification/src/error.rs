//! Error taxonomy of the adapter.
//!
//! Engine errors pass the engine's signed result code through unchanged.
//! Protocol violations are contract breaches the adapter itself detects;
//! they are never silently ignored.  A timeout means the completion gate
//! was never signaled within the bounded wait, which the engine gave no
//! code for.

use vstd::prelude::*;

verus! {

/// A contract breach detected by the adapter, not reported by the engine.
#[derive(Debug, Clone, Copy, PartialEq, Eq, Structural)]
pub enum ProtocolViolationKind {
    /// A callback fired, or a close was attempted, for a job id the
    /// adapter is not tracking.
    UnknownJobId,
    /// A close was attempted on a job that is not in the `Completed` state.
    CloseBeforeCompletion,
    /// A buffer callback fired for a job whose stream had already closed.
    CallbackAfterCompletion,
    /// A size query reported a total that no whole number of speaker
    /// entries can account for.
    InconsistentReportedSize,
}

/// What a public operation of the adapter can fail with.
#[derive(Debug, Clone, Copy, PartialEq, Eq, Structural)]
pub enum AdapterError {
    /// A non-success result code returned by a native call, with its
    /// numeric meaning preserved.
    Engine(i32),
    /// A programming-invariant failure: fatal to the job, never ignored.
    Protocol(ProtocolViolationKind),
    /// The completion gate was never signaled within the bounded wait.
    Timeout,
}

impl AdapterError {
    /// Whether this error carries an engine result code.
    pub fn is_engine(&self) -> (r: bool)
        ensures
            r == (self is Engine),
    {
        match self {
            AdapterError::Engine(_) => true,
            _ => false,
        }
    }

    /// Whether this error is an adapter-detected protocol violation.
    pub fn is_protocol_violation(&self) -> (r: bool)
        ensures
            r == (self is Protocol),
    {
        match self {
            AdapterError::Protocol(_) => true,
            _ => false,
        }
    }
}

} // verus!

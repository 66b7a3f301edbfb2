//! The errors that the facade reports.
use vstd::prelude::*;
use vstd::std_specs::convert::FromSpecImpl;
use crate::controller::error::ControllerError;

verus! {

/// An error of a state operation.
#[derive(Debug, Copy, Clone, PartialEq, Eq, Structural)]
pub enum StateError {
    /// A controller was asked to start while it was active.
    AlreadyActive,
    /// A controller was asked to stop while it was inactive.
    NotActive,
    /// The session was asked to open while one was running, or after one
    /// was closed.
    SessionAlreadyOpen,
    /// The session was asked to close while none was running.
    SessionNotOpen,
    /// A thread could not be created.
    SpawnFailure,
    /// A controller's interactive loop ended abnormally.
    WorkerCrashed,
    /// The coordination thread is gone: a command could not be sent, or no
    /// reply came.
    ChannelBroken,
    /// A controller index names no slot.
    IndexOutOfRange,
    /// The coordination thread was joined before.
    ThreadHandleMissing,
    /// The coordination thread had panicked when it was joined.
    ThreadJoinPanic,
    /// The reply to a command was not of the kind that the command asks for.
    UnexpectedResponse,
    /// The host started the plugin a second time.
    AlreadyInitialized,
}

/// The facade's name for an error of a controller's worker.
pub open spec fn translated(error: ControllerError) -> StateError {
    match error {
        ControllerError::AlreadyActive => StateError::AlreadyActive,
        ControllerError::NotActive => StateError::NotActive,
        ControllerError::SpawnFailure => StateError::SpawnFailure,
        ControllerError::WorkerCrashed => StateError::WorkerCrashed,
    }
}

impl From<ControllerError> for StateError {
    /// The facade's name for an error of a controller's worker.
    fn from(error: ControllerError) -> (translated: StateError) {
        match error {
            ControllerError::AlreadyActive => StateError::AlreadyActive,
            ControllerError::NotActive => StateError::NotActive,
            ControllerError::SpawnFailure => StateError::SpawnFailure,
            ControllerError::WorkerCrashed => StateError::WorkerCrashed,
        }
    }
}

impl FromSpecImpl<ControllerError> for StateError {
    open spec fn obeys_from_spec() -> bool {
        true
    }

    open spec fn from_spec(error: ControllerError) -> StateError {
        translated(error)
    }
}

} // verus!

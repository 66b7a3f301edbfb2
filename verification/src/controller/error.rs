//! What can go wrong in the life of one controller's worker.
use vstd::prelude::*;

verus! {

/// An error of a controller's worker.
#[derive(Debug, Copy, Clone, PartialEq, Eq, Structural)]
pub enum ControllerError {
    /// The worker was asked to start while it was active.
    AlreadyActive,
    /// The worker was asked to stop, or to publish, while it was inactive.
    NotActive,
    /// No thread could be created for the worker.
    SpawnFailure,
    /// The worker's interactive loop ended abnormally.
    WorkerCrashed,
}

} // verus!

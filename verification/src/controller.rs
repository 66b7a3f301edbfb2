//! The worker of one controller slot.
//!
//! A worker owns the input snapshot of its slot. While it is active an
//! interactive loop runs on a thread of its own and publishes new snapshots;
//! while it is inactive the snapshot stays what it was. Threads are created
//! and joined by the caller, who reports here how that went.
use vstd::prelude::*;
use crate::inputs::Inputs;

pub mod command;
pub mod error;
pub mod manager;

pub use command::{ControllerCommand, ControllerResponse};
pub use error::ControllerError;
pub use manager::{controller_manager, Turn};

verus! {

/// How a piece of work outside the library went: creating a thread, or
/// ending and joining one.
#[derive(Debug, Copy, Clone, PartialEq, Eq, Structural)]
pub enum Outcome {
    /// The work was done.
    Done,
    /// A thread could not be created, or the thread that was joined had
    /// ended abnormally.
    Failed,
}

/// The state of a worker.
pub struct ControllerView {
    /// Whether an interactive loop is attached.
    pub active: bool,
    /// The current snapshot.
    pub inputs: Inputs,
}

impl ControllerView {
    /// A worker as a new slot holds it: inactive, with the neutral snapshot.
    pub open spec fn fresh() -> ControllerView {
        ControllerView { active: false, inputs: Inputs::neutral() }
    }

    /// The worker after a request to start, and the answer to the request.
    /// `spawn` says how creating the thread went; it is not read where the
    /// worker is active already.
    pub open spec fn start(self, spawn: Outcome) -> (ControllerView, Result<(), ControllerError>) {
        if self.active {
            (self, Err(ControllerError::AlreadyActive))
        } else if spawn == Outcome::Failed {
            (self, Err(ControllerError::SpawnFailure))
        } else {
            (ControllerView { active: true, ..self }, Ok(()))
        }
    }

    /// The worker after a request to stop, and the answer to the request.
    /// `exit` says how the loop's thread ended; it is not read where the
    /// worker is inactive already.
    pub open spec fn stop(self, exit: Outcome) -> (ControllerView, Result<(), ControllerError>) {
        if !self.active {
            (self, Err(ControllerError::NotActive))
        } else if exit == Outcome::Failed {
            (ControllerView { active: false, ..self }, Err(ControllerError::WorkerCrashed))
        } else {
            (ControllerView { active: false, ..self }, Ok(()))
        }
    }

    /// The worker after its loop published `snapshot`, and whether the
    /// snapshot was taken. An inactive worker has no loop and keeps what it
    /// holds.
    pub open spec fn write(self, snapshot: Inputs) -> (ControllerView, Result<(), ControllerError>) {
        if self.active {
            (ControllerView { inputs: snapshot, ..self }, Ok(()))
        } else {
            (self, Err(ControllerError::NotActive))
        }
    }
}

/// The worker of one controller slot.
#[derive(Debug, Copy, Clone)]
pub struct Controller {
    active: bool,
    inputs: Inputs,
}

impl View for Controller {
    type V = ControllerView;

    closed spec fn view(&self) -> ControllerView {
        ControllerView { active: self.active, inputs: self.inputs }
    }
}

impl Controller {
    /// An inactive worker that holds the neutral snapshot.
    pub fn new() -> (worker: Controller)
        ensures
            worker@ == ControllerView::fresh(),
    {
        Controller { active: false, inputs: Inputs::default() }
    }

    /// Whether an interactive loop is attached.
    pub fn is_active(&self) -> (active: bool)
        ensures
            active == self@.active,
    {
        self.active
    }

    /// Attaches an interactive loop. The caller creates the loop's thread,
    /// for an inactive worker only, and reports in `spawn` how that went.
    ///
    /// Fails with `AlreadyActive` on an active worker and with
    /// `SpawnFailure` where no thread could be created; the worker is then
    /// unchanged.
    pub fn start(&mut self, spawn: Outcome) -> (result: Result<(), ControllerError>)
        ensures
            (final(self)@, result) == old(self)@.start(spawn),
    {
        if self.active {
            Err(ControllerError::AlreadyActive)
        } else {
            match spawn {
                Outcome::Failed => Err(ControllerError::SpawnFailure),
                Outcome::Done => {
                    self.active = true;
                    Ok(())
                },
            }
        }
    }

    /// Detaches the interactive loop. The caller tells the loop to end and
    /// joins its thread, for an active worker only, and reports in `exit`
    /// how the thread ended. A loop found to have ended by itself is
    /// reported in the same way.
    ///
    /// Fails with `NotActive` on an inactive worker. An active worker
    /// becomes inactive and keeps its snapshot, also where the loop had
    /// crashed, which is reported as `WorkerCrashed`.
    pub fn stop(&mut self, exit: Outcome) -> (result: Result<(), ControllerError>)
        ensures
            (final(self)@, result) == old(self)@.stop(exit),
    {
        if !self.active {
            Err(ControllerError::NotActive)
        } else {
            self.active = false;
            match exit {
                Outcome::Failed => Err(ControllerError::WorkerCrashed),
                Outcome::Done => Ok(()),
            }
        }
    }

    /// A copy of the current snapshot, whether the worker is active or not.
    pub fn read(&self) -> (snapshot: Inputs)
        ensures
            snapshot == self@.inputs,
    {
        self.inputs
    }

    /// Publishes a new snapshot on behalf of the interactive loop. An
    /// inactive worker has no loop: it refuses with `NotActive` and keeps
    /// what it holds.
    pub fn write(&mut self, snapshot: Inputs) -> (result: Result<(), ControllerError>)
        ensures
            (final(self)@, result) == old(self)@.write(snapshot),
    {
        if self.active {
            self.inputs = snapshot;
            Ok(())
        } else {
            Err(ControllerError::NotActive)
        }
    }
}

} // verus!

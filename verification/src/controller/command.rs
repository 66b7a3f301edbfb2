//! The messages between a controller's worker and its owner.
use vstd::prelude::*;

verus! {

/// A command for the worker of one controller.
#[derive(Debug, Copy, Clone, PartialEq, Eq, Structural)]
pub enum ControllerCommand {
    /// Asks for nothing but a response.
    NoOp,
    /// Ends the worker.
    End,
}

/// What a worker answers to a command.
#[derive(Debug, Copy, Clone, PartialEq, Eq, Structural)]
pub enum ControllerResponse {
    /// The command was taken; there is nothing to report.
    NoResponse,
}

} // verus!

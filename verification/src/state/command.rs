//! The messages between the facade and the coordination thread.
//!
//! Every command is answered by exactly one reply, an `Ok` with a response
//! or an `Err`, before the next command is taken.
use vstd::prelude::*;
use crate::inputs::Inputs;

verus! {

/// A command for the coordination thread.
#[derive(Debug, Copy, Clone, PartialEq, Eq, Structural)]
pub enum StateCommand {
    /// Asks for nothing but a reply.
    NoOp,
    /// Ends the coordination loop.
    End,
    /// Opens the interactive session.
    StartSession,
    /// Closes the interactive session.
    EndSession,
    /// Starts the worker of a controller slot.
    InitializeController(usize),
    /// Stops the worker of a controller slot.
    DeleteController(usize),
    /// Asks for the current snapshot of a controller slot.
    GetInputs(usize),
}

/// What the coordination thread answers to a command that succeeded.
#[derive(Debug, Copy, Clone, PartialEq, Eq, Structural)]
pub enum StateResponse {
    /// The command was carried out; there is nothing to report.
    Nothing,
    /// The snapshot that was asked for.
    Inputs(Inputs),
}

} // verus!

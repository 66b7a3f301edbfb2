//! The command loop that runs on a worker's thread, one turn at a time.
//!
//! A turn receives a command, answers it, and decides whether the loop goes
//! on. Receiving and sending are the caller's part; what to answer and when
//! to stop is decided here.
use vstd::prelude::*;
use crate::controller::command::{ControllerCommand, ControllerResponse};

verus! {

/// What one turn of the command loop does.
#[derive(Debug, Copy, Clone, PartialEq, Eq, Structural)]
pub struct Turn {
    /// The response to send.
    pub response: ControllerResponse,
    /// Whether the command asked the loop to end.
    pub last: bool,
}

impl Turn {
    /// Whether the loop takes another turn after this one. It does unless
    /// the command ended it or the response could not be delivered.
    pub open spec fn goes_on(self, delivered: bool) -> bool {
        !self.last && delivered
    }

    /// Decides, once the response was sent, whether the loop takes another
    /// turn. `delivered` says whether the send succeeded.
    pub fn continues(&self, delivered: bool) -> (again: bool)
        ensures
            again == self.goes_on(delivered),
    {
        !self.last && delivered
    }
}

/// The command that a turn acts on: the one received, or `NoOp` where the
/// receive failed.
pub open spec fn command_of(received: Option<ControllerCommand>) -> ControllerCommand {
    match received {
        Some(command) => command,
        None => ControllerCommand::NoOp,
    }
}

/// One turn of a worker's command loop. `received` is what the receive gave,
/// `None` where it failed. Every command is answered with `NoResponse`, and
/// `End` makes the turn the last one.
pub fn controller_manager(received: Option<ControllerCommand>) -> (turn: Turn)
    ensures
        turn.response == ControllerResponse::NoResponse,
        turn.last == (command_of(received) == ControllerCommand::End),
{
    let command = match received {
        Some(command) => command,
        None => ControllerCommand::NoOp,
    };
    match command {
        ControllerCommand::NoOp => Turn { response: ControllerResponse::NoResponse, last: false },
        ControllerCommand::End => Turn { response: ControllerResponse::NoResponse, last: true },
    }
}

} // verus!

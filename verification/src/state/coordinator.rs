//! The coordination thread, one command at a time.
//!
//! The coordination thread owns the interactive session and the table of
//! controller slots. It takes one command, carries it out, and sends one
//! reply, in the order in which the commands were sent. Creating and joining
//! threads and running the session are the caller's part: for each command
//! `required_effect` names the work that it calls for, and `state_manager`
//! takes the command together with the outcome of that work.
use vstd::prelude::*;
use crate::controller::error::ControllerError;
use crate::controller::{ControllerView, Outcome};
use crate::inputs::Inputs;
use crate::state::command::{StateCommand, StateResponse};
use crate::state::error::{translated, StateError};
use crate::state::registry::{activity, marked, ProgramStateUnwrapped};
use crate::CONTROLLER_COUNT;

verus! {

/// The life of the interactive session.
#[derive(Debug, Copy, Clone, PartialEq, Eq, Structural)]
pub enum SessionState {
    /// No session was opened yet.
    NotStarted,
    /// The session is open.
    Running,
    /// The session was closed. It cannot be opened again.
    Stopped,
}

/// Work outside the library that a command calls for.
#[derive(Debug, Copy, Clone, PartialEq, Eq, Structural)]
pub enum Effect {
    /// Create the session's runtime and enter its run loop on a thread of
    /// its own.
    OpenSession,
    /// Tell the session's runtime to quit.
    CloseSession,
    /// Create the thread of a slot's interactive loop.
    StartWorker(usize),
    /// Tell a slot's interactive loop to end, and join its thread.
    StopWorker(usize),
}

/// The state of the coordination thread.
pub struct CoordinatorView {
    /// The life of the interactive session.
    pub session: SessionState,
    /// The workers of the controller slots, by index.
    pub controllers: Seq<ControllerView>,
    /// Whether the coordination loop goes on.
    pub running: bool,
}

/// An answer without a value, under the facade's names for errors.
pub open spec fn facade_result(result: Result<(), ControllerError>) -> Result<(), StateError> {
    match result {
        Ok(_) => Ok(()),
        Err(error) => Err(translated(error)),
    }
}

/// The reply that carries an answer without a value.
pub open spec fn plain_reply(result: Result<(), StateError>) -> Result<StateResponse, StateError> {
    match result {
        Ok(_) => Ok(StateResponse::Nothing),
        Err(error) => Err(error),
    }
}

/// The reply that carries a snapshot.
pub open spec fn inputs_reply(result: Result<Inputs, StateError>) -> Result<
    StateResponse,
    StateError,
> {
    match result {
        Ok(inputs) => Ok(StateResponse::Inputs(inputs)),
        Err(error) => Err(error),
    }
}

impl CoordinatorView {
    /// Whether there is one worker for each slot.
    pub open spec fn well_formed(self) -> bool {
        self.controllers.len() == CONTROLLER_COUNT
    }

    /// The state in which a coordination thread begins: no session yet,
    /// every worker inactive with the neutral snapshot, the loop going on.
    pub open spec fn fresh() -> CoordinatorView {
        CoordinatorView {
            session: SessionState::NotStarted,
            controllers: Seq::new(CONTROLLER_COUNT as nat, |i: int| ControllerView::fresh()),
            running: true,
        }
    }

    /// Opening the session. It opens from `NotStarted` only, and only if
    /// its thread could be created, which `spawn` tells.
    pub open spec fn start_session(self, spawn: Outcome) -> (
        CoordinatorView,
        Result<(), StateError>,
    ) {
        if self.session != SessionState::NotStarted {
            (self, Err(StateError::SessionAlreadyOpen))
        } else if spawn == Outcome::Failed {
            (self, Err(StateError::SpawnFailure))
        } else {
            (CoordinatorView { session: SessionState::Running, ..self }, Ok(()))
        }
    }

    /// Closing the session. Only a running session can be closed.
    pub open spec fn end_session(self) -> (CoordinatorView, Result<(), StateError>) {
        if self.session == SessionState::Running {
            (CoordinatorView { session: SessionState::Stopped, ..self }, Ok(()))
        } else {
            (self, Err(StateError::SessionNotOpen))
        }
    }

    /// Starting the worker of slot `control`. An index that names no slot
    /// is refused before any worker is looked at.
    pub open spec fn start_controller(self, control: usize, spawn: Outcome) -> (
        CoordinatorView,
        Result<(), StateError>,
    ) {
        if control >= CONTROLLER_COUNT {
            (self, Err(StateError::IndexOutOfRange))
        } else {
            let (worker, result) = self.controllers[control as int].start(spawn);
            (
                CoordinatorView {
                    controllers: self.controllers.update(control as int, worker),
                    ..self
                },
                facade_result(result),
            )
        }
    }

    /// Stopping the worker of slot `control`.
    pub open spec fn stop_controller(self, control: usize, exit: Outcome) -> (
        CoordinatorView,
        Result<(), StateError>,
    ) {
        if control >= CONTROLLER_COUNT {
            (self, Err(StateError::IndexOutOfRange))
        } else {
            let (worker, result) = self.controllers[control as int].stop(exit);
            (
                CoordinatorView {
                    controllers: self.controllers.update(control as int, worker),
                    ..self
                },
                facade_result(result),
            )
        }
    }

    /// The current snapshot of slot `control`.
    pub open spec fn get_inputs(self, control: usize) -> Result<Inputs, StateError> {
        if control >= CONTROLLER_COUNT {
            Err(StateError::IndexOutOfRange)
        } else {
            Ok(self.controllers[control as int].inputs)
        }
    }

    /// A snapshot published by the interactive loop of slot `control`.
    pub open spec fn publish(self, control: usize, snapshot: Inputs) -> (
        CoordinatorView,
        Result<(), StateError>,
    ) {
        if control >= CONTROLLER_COUNT {
            (self, Err(StateError::IndexOutOfRange))
        } else {
            let (worker, result) = self.controllers[control as int].write(snapshot);
            (
                CoordinatorView {
                    controllers: self.controllers.update(control as int, worker),
                    ..self
                },
                facade_result(result),
            )
        }
    }

    /// Ending the coordination loop. A session that is running is closed
    /// with it.
    pub open spec fn end(self) -> CoordinatorView {
        CoordinatorView { session: self.end_session().0.session, running: false, ..self }
    }

    /// The work outside the library that `command` calls for in this state,
    /// if any. Where there is none the command is answered at once.
    pub open spec fn effect(self, command: StateCommand) -> Option<Effect> {
        match command {
            StateCommand::NoOp => None,
            StateCommand::End | StateCommand::EndSession => if self.session
                == SessionState::Running {
                Some(Effect::CloseSession)
            } else {
                None
            },
            StateCommand::StartSession => if self.session == SessionState::NotStarted {
                Some(Effect::OpenSession)
            } else {
                None
            },
            StateCommand::InitializeController(control) => if control < CONTROLLER_COUNT
                && !self.controllers[control as int].active {
                Some(Effect::StartWorker(control))
            } else {
                None
            },
            StateCommand::DeleteController(control) => if control < CONTROLLER_COUNT
                && self.controllers[control as int].active {
                Some(Effect::StopWorker(control))
            } else {
                None
            },
            StateCommand::GetInputs(_) => None,
        }
    }

    /// The state after `command`, and the reply to it. `outcome` tells how
    /// the work went that the command calls for.
    pub open spec fn step(self, command: StateCommand, outcome: Outcome) -> (
        CoordinatorView,
        Result<StateResponse, StateError>,
    ) {
        match command {
            StateCommand::NoOp => (self, Ok(StateResponse::Nothing)),
            StateCommand::End => (self.end(), Ok(StateResponse::Nothing)),
            StateCommand::StartSession => (
                self.start_session(outcome).0,
                plain_reply(self.start_session(outcome).1),
            ),
            StateCommand::EndSession => (self.end_session().0, plain_reply(self.end_session().1)),
            StateCommand::InitializeController(control) => (
                self.start_controller(control, outcome).0,
                plain_reply(self.start_controller(control, outcome).1),
            ),
            StateCommand::DeleteController(control) => (
                self.stop_controller(control, outcome).0,
                plain_reply(self.stop_controller(control, outcome).1),
            ),
            StateCommand::GetInputs(control) => (self, inputs_reply(self.get_inputs(control))),
        }
    }
}

/// What the coordination thread owns: the session's state and the table of
/// controller slots.
pub struct Coordinator {
    session: SessionState,
    controllers: ProgramStateUnwrapped,
    running: bool,
}

impl View for Coordinator {
    type V = CoordinatorView;

    closed spec fn view(&self) -> CoordinatorView {
        CoordinatorView {
            session: self.session,
            controllers: self.controllers@,
            running: self.running,
        }
    }
}

impl Coordinator {
    /// Every coordinator has one worker for each slot.
    pub proof fn lemma_well_formed(&self)
        ensures
            self@.well_formed(),
    {
        self.controllers.lemma_len();
    }

    /// A coordinator at the start of its thread.
    pub fn new() -> (state: Coordinator)
        ensures
            state@ == CoordinatorView::fresh(),
    {
        Coordinator {
            session: SessionState::NotStarted,
            controllers: ProgramStateUnwrapped::new(),
            running: true,
        }
    }

    /// Whether the coordination loop goes on. It does until an `End`
    /// command was taken.
    pub fn is_running(&self) -> (running: bool)
        ensures
            running == self@.running,
    {
        self.running
    }

    /// The life of the interactive session.
    pub fn session(&self) -> (session: SessionState)
        ensures
            session == self@.session,
    {
        self.session
    }

    /// The slots whose worker is active, in ascending order: the workers
    /// whose threads are still to be ended when the coordination thread
    /// ends.
    pub fn active_slots(&self) -> (slots: Vec<usize>)
        ensures
            slots@ == marked(activity(self@.controllers), CONTROLLER_COUNT as int),
    {
        self.controllers.active_slots()
    }

    /// The work that the caller has to do before it hands `command` to
    /// `state_manager`, if any.
    pub fn required_effect(&self, command: StateCommand) -> (effect: Option<Effect>)
        ensures
            effect == self@.effect(command),
    {
        proof {
            self.controllers.lemma_len();
        }
        match command {
            StateCommand::NoOp => None,
            StateCommand::End | StateCommand::EndSession => match self.session {
                SessionState::Running => Some(Effect::CloseSession),
                _ => None,
            },
            StateCommand::StartSession => match self.session {
                SessionState::NotStarted => Some(Effect::OpenSession),
                _ => None,
            },
            StateCommand::InitializeController(control) => {
                if control < CONTROLLER_COUNT && !self.controllers.is_active(control) {
                    Some(Effect::StartWorker(control))
                } else {
                    None
                }
            },
            StateCommand::DeleteController(control) => {
                if control < CONTROLLER_COUNT && self.controllers.is_active(control) {
                    Some(Effect::StopWorker(control))
                } else {
                    None
                }
            },
            StateCommand::GetInputs(_) => None,
        }
    }

    /// Opens the session. The caller creates the session's thread, from
    /// `NotStarted` only, and reports in `spawn` how that went.
    ///
    /// Fails with `SessionAlreadyOpen` unless the session is `NotStarted`,
    /// and with `SpawnFailure` where the thread could not be created.
    pub fn start_qt(&mut self, spawn: Outcome) -> (reply: Result<StateResponse, StateError>)
        ensures
            final(self)@ == old(self)@.start_session(spawn).0,
            reply == plain_reply(old(self)@.start_session(spawn).1),
    {
        match self.session {
            SessionState::NotStarted => match spawn {
                Outcome::Failed => Err(StateError::SpawnFailure),
                Outcome::Done => {
                    self.session = SessionState::Running;
                    Ok(StateResponse::Nothing)
                },
            },
            _ => Err(StateError::SessionAlreadyOpen),
        }
    }

    /// Closes the session. The caller tells the session's runtime to quit,
    /// for a running session only.
    ///
    /// Fails with `SessionNotOpen` unless the session is `Running`.
    pub fn terminate_qt(&mut self) -> (reply: Result<StateResponse, StateError>)
        ensures
            final(self)@ == old(self)@.end_session().0,
            reply == plain_reply(old(self)@.end_session().1),
    {
        match self.session {
            SessionState::Running => {
                self.session = SessionState::Stopped;
                Ok(StateResponse::Nothing)
            },
            _ => Err(StateError::SessionNotOpen),
        }
    }

    /// Takes a snapshot that the interactive loop of slot `control`
    /// published.
    ///
    /// Fails with `IndexOutOfRange` where `control` names no slot and with
    /// `NotActive` where the slot's worker is inactive; nothing changes
    /// then.
    pub fn publish(&mut self, control: usize, snapshot: Inputs) -> (result: Result<
        (),
        StateError,
    >)
        ensures
            final(self)@ == old(self)@.publish(control, snapshot).0,
            result == old(self)@.publish(control, snapshot).1,
    {
        proof {
            self.controllers.lemma_len();
        }
        if control >= CONTROLLER_COUNT {
            return Err(StateError::IndexOutOfRange);
        }
        match self.controllers.write(control, snapshot) {
            Ok(_) => Ok(()),
            Err(error) => Err(StateError::from(error)),
        }
    }
}

/// One turn of the coordination thread: carries out `command` and gives the
/// reply to send. `outcome` tells how the work went that
/// `required_effect` named for the command; it is not read where that was
/// none.
///
/// The commands on a controller are answered with `IndexOutOfRange` where
/// the index names no slot, before the table is reached. A worker's error
/// comes back under the facade's name for it.
pub fn state_manager(state: &mut Coordinator, command: StateCommand, outcome: Outcome) -> (reply:
    Result<StateResponse, StateError>)
    ensures
        (final(state)@, reply) == old(state)@.step(command, outcome),
{
    proof {
        state.controllers.lemma_len();
    }
    match command {
        StateCommand::NoOp => Ok(StateResponse::Nothing),
        StateCommand::End => {
            state.running = false;
            let _ = state.terminate_qt();
            Ok(StateResponse::Nothing)
        },
        StateCommand::StartSession => state.start_qt(outcome),
        StateCommand::EndSession => state.terminate_qt(),
        StateCommand::InitializeController(control) => {
            if control >= CONTROLLER_COUNT {
                return Err(StateError::IndexOutOfRange);
            }
            match state.controllers.start(control, outcome) {
                Ok(_) => Ok(StateResponse::Nothing),
                Err(error) => Err(StateError::from(error)),
            }
        },
        StateCommand::DeleteController(control) => {
            if control >= CONTROLLER_COUNT {
                return Err(StateError::IndexOutOfRange);
            }
            match state.controllers.stop(control, outcome) {
                Ok(_) => Ok(StateResponse::Nothing),
                Err(error) => Err(StateError::from(error)),
            }
        },
        StateCommand::GetInputs(control) => {
            if control >= CONTROLLER_COUNT {
                return Err(StateError::IndexOutOfRange);
            }
            Ok(StateResponse::Inputs(state.controllers.read(control)))
        },
    }
}

} // verus!

//! The facade of the bridge and the coordination thread behind it.
//!
//! The facade is the caller's side of the command channel. For each of its
//! operations it names the command to send; the reply, or the news that the
//! channel is broken, is read by `acknowledge` or `read_inputs`. Sending,
//! receiving and joining the coordination thread are the caller's part.
use vstd::prelude::*;
use crate::controller::Outcome;
use crate::inputs::Inputs;
use crate::CONTROLLER_COUNT;

pub mod command;
pub mod coordinator;
pub mod error;
pub mod laws;
pub mod registry;

pub use command::{StateCommand, StateResponse};
pub use coordinator::{state_manager, Coordinator, CoordinatorView, Effect, SessionState};
pub use error::StateError;
pub use registry::{marked, ProgramStateUnwrapped};

verus! {

/// What a command is answered with.
pub type Reply = Result<StateResponse, StateError>;

/// The result of an operation that asks for no value, from what came back
/// for its command. `None` stands for a broken channel: the command could
/// not be sent, or no reply came.
pub open spec fn acknowledged(delivery: Option<Reply>) -> Result<(), StateError> {
    match delivery {
        None => Err(StateError::ChannelBroken),
        Some(Ok(_)) => Ok(()),
        Some(Err(error)) => Err(error),
    }
}

/// The result of asking for a snapshot, from what came back for the
/// command.
pub open spec fn delivered_inputs(delivery: Option<Reply>) -> Result<Inputs, StateError> {
    match delivery {
        None => Err(StateError::ChannelBroken),
        Some(Ok(StateResponse::Inputs(inputs))) => Ok(inputs),
        Some(Ok(_)) => Err(StateError::UnexpectedResponse),
        Some(Err(error)) => Err(error),
    }
}

/// Reads what came back for a command that asks for no value. Any response
/// is a success, an error of the coordination thread is handed on, and a
/// broken channel is `ChannelBroken`.
pub fn acknowledge(delivery: Option<Reply>) -> (result: Result<(), StateError>)
    ensures
        result == acknowledged(delivery),
{
    match delivery {
        None => Err(StateError::ChannelBroken),
        Some(Ok(_)) => Ok(()),
        Some(Err(error)) => Err(error),
    }
}

/// Reads what came back for `GetInputs`. A response without a snapshot is
/// `UnexpectedResponse`, an error of the coordination thread is handed on,
/// and a broken channel is `ChannelBroken`.
pub fn read_inputs(delivery: Option<Reply>) -> (result: Result<Inputs, StateError>)
    ensures
        result == delivered_inputs(delivery),
{
    match delivery {
        None => Err(StateError::ChannelBroken),
        Some(Ok(StateResponse::Inputs(inputs))) => Ok(inputs),
        Some(Ok(_)) => Err(StateError::UnexpectedResponse),
        Some(Err(error)) => Err(error),
    }
}

/// How far a shutdown has come: what the caller reports to `end`.
#[derive(Debug, Copy, Clone, PartialEq, Eq)]
pub enum EndProgress {
    /// Nothing was done yet.
    Begin,
    /// This command was sent, and this came back for it.
    Answered(StateCommand, Option<Reply>),
    /// The coordination thread was joined, and ended like this.
    Joined(Outcome),
}

/// What a shutdown asks of the caller next.
#[derive(Debug, Copy, Clone, PartialEq, Eq)]
pub enum EndStep {
    /// Send this command and report what came back.
    Send(StateCommand),
    /// Join the coordination thread and report how it ended.
    Join,
    /// The shutdown is over, with this result.
    Finished(Result<(), StateError>),
}

/// The next step of a shutdown.
///
/// A shutdown first asks the session to close and goes on whatever the
/// answer is. It then ends the coordination loop; if that fails, the
/// shutdown fails in the same way. Last it joins the thread. Without a
/// thread to join it fails at once with `ThreadHandleMissing`.
pub open spec fn end_step(has_handle: bool, progress: EndProgress) -> EndStep {
    if !has_handle {
        EndStep::Finished(Err(StateError::ThreadHandleMissing))
    } else {
        match progress {
            EndProgress::Begin => EndStep::Send(StateCommand::EndSession),
            EndProgress::Answered(StateCommand::EndSession, _) => EndStep::Send(StateCommand::End),
            EndProgress::Answered(_, delivery) => match acknowledged(delivery) {
                Ok(_) => EndStep::Join,
                Err(error) => EndStep::Finished(Err(error)),
            },
            EndProgress::Joined(Outcome::Done) => EndStep::Finished(Ok(())),
            EndProgress::Joined(Outcome::Failed) => EndStep::Finished(
                Err(StateError::ThreadJoinPanic),
            ),
        }
    }
}

/// The state of the facade.
pub struct FacadeView {
    /// Whether the host has started the plugin.
    pub initialized: bool,
    /// Whether the host has a ROM open.
    pub romopen: bool,
    /// Whether the coordination thread is still to be joined.
    pub handle: bool,
}

/// The commands that start the workers of the slots that `present` marks,
/// in ascending order of the slots.
pub open spec fn start_commands(present: Seq<bool>) -> Seq<StateCommand> {
    marked(present, CONTROLLER_COUNT as int).map_values(
        |control: usize| StateCommand::InitializeController(control),
    )
}

/// The commands that stop the workers of all slots, in ascending order.
pub open spec fn stop_commands() -> Seq<StateCommand> {
    Seq::new(CONTROLLER_COUNT as nat, |i: int| StateCommand::DeleteController(i as usize))
}

impl FacadeView {
    /// The facade after the host asked to start the plugin, and the answer.
    /// The plugin starts once.
    pub open spec fn startup(self) -> (FacadeView, Result<(), StateError>) {
        if self.initialized {
            (self, Err(StateError::AlreadyInitialized))
        } else {
            (FacadeView { initialized: true, ..self }, Ok(()))
        }
    }
}

/// The facade: the caller's side of the bridge.
#[derive(Debug)]
pub struct Tasinput2State {
    is_initialized: bool,
    romopen: bool,
    handle: bool,
}

impl View for Tasinput2State {
    type V = FacadeView;

    closed spec fn view(&self) -> FacadeView {
        FacadeView { initialized: self.is_initialized, romopen: self.romopen, handle: self.handle }
    }
}

impl Tasinput2State {
    /// The facade of a coordination thread that was just created: not yet
    /// started by the host, no ROM open, the thread still to be joined.
    pub fn new() -> (state: Tasinput2State)
        ensures
            state@ == (FacadeView { initialized: false, romopen: false, handle: true }),
    {
        Tasinput2State { is_initialized: false, romopen: false, handle: true }
    }

    /// Whether the host has started the plugin.
    pub fn is_initialized(&self) -> (initialized: bool)
        ensures
            initialized == self@.initialized,
    {
        self.is_initialized
    }

    /// Whether the host has a ROM open.
    pub fn is_rom_open(&self) -> (open: bool)
        ensures
            open == self@.romopen,
    {
        self.romopen
    }

    /// Whether the coordination thread is still to be joined.
    pub fn has_handle(&self) -> (handle: bool)
        ensures
            handle == self@.handle,
    {
        self.handle
    }

    /// The host starts the plugin. A second start is refused with
    /// `AlreadyInitialized` and changes nothing.
    pub fn startup(&mut self) -> (result: Result<(), StateError>)
        ensures
            (final(self)@, result) == old(self)@.startup(),
    {
        if self.is_initialized {
            Err(StateError::AlreadyInitialized)
        } else {
            self.is_initialized = true;
            Ok(())
        }
    }

    /// The host opens a ROM with the controllers that `present` marks. Gives
    /// the commands to send: one start for each marked slot, in ascending
    /// order.
    pub fn rom_open(&mut self, present: &[bool; CONTROLLER_COUNT]) -> (commands: Vec<StateCommand>)
        ensures
            final(self)@ == (FacadeView { romopen: true, ..old(self)@ }),
            commands@ == start_commands(present@),
    {
        self.romopen = true;
        let mut commands: Vec<StateCommand> = Vec::new();
        let mut control: usize = 0;
        while control < CONTROLLER_COUNT
            invariant
                control <= CONTROLLER_COUNT,
                commands@ == marked(present@, control as int).map_values(
                    |control: usize| StateCommand::InitializeController(control),
                ),
            decreases CONTROLLER_COUNT - control,
        {
            if present[control] {
                commands.push(StateCommand::InitializeController(control));
            }
            control = control + 1;
        }
        commands
    }

    /// The host closes the ROM. Gives the commands to send: one stop for
    /// every slot, so that no worker stays active. A slot whose worker is
    /// inactive answers `NotActive`, which is no fault here.
    pub fn rom_closed(&mut self) -> (commands: Vec<StateCommand>)
        ensures
            final(self)@ == (FacadeView { romopen: false, ..old(self)@ }),
            commands@ == stop_commands(),
    {
        self.romopen = false;
        let mut commands: Vec<StateCommand> = Vec::new();
        let mut control: usize = 0;
        while control < CONTROLLER_COUNT
            invariant
                control <= CONTROLLER_COUNT,
                commands@.len() == control,
                forall|i: int|
                    0 <= i < control ==> commands@[i] == StateCommand::DeleteController(
                        i as usize,
                    ),
            decreases CONTROLLER_COUNT - control,
        {
            commands.push(StateCommand::DeleteController(control));
            control = control + 1;
        }
        commands
    }

    /// The command that opens the interactive session.
    pub fn start_qt(&self) -> (command: StateCommand)
        ensures
            command == StateCommand::StartSession,
    {
        StateCommand::StartSession
    }

    /// The command that closes the interactive session.
    pub fn end_qt(&self) -> (command: StateCommand)
        ensures
            command == StateCommand::EndSession,
    {
        StateCommand::EndSession
    }

    /// The command that starts the worker of slot `control`.
    pub fn start_controller(&self, control: usize) -> (command: StateCommand)
        ensures
            command == StateCommand::InitializeController(control),
    {
        StateCommand::InitializeController(control)
    }

    /// The command that stops the worker of slot `control`.
    pub fn stop_controller(&self, control: usize) -> (command: StateCommand)
        ensures
            command == StateCommand::DeleteController(control),
    {
        StateCommand::DeleteController(control)
    }

    /// The command that asks for the snapshot of slot `control`. Its reply
    /// is read by `read_inputs`.
    pub fn get_inputs(&self, control: usize) -> (command: StateCommand)
        ensures
            command == StateCommand::GetInputs(control),
    {
        StateCommand::GetInputs(control)
    }

    /// One step of the orderly shutdown. The caller begins with
    /// `EndProgress::Begin`, does what the step asks, reports it, and goes
    /// on until the step is `Finished`.
    ///
    /// Once the thread was joined the facade has no thread any more, so a
    /// second shutdown ends at once with `ThreadHandleMissing`.
    pub fn end(&mut self, progress: EndProgress) -> (step: EndStep)
        ensures
            step == end_step(old(self)@.handle, progress),
            final(self)@ == (FacadeView {
                handle: old(self)@.handle && !(progress is Joined),
                ..old(self)@
            }),
    {
        if !self.handle {
            return EndStep::Finished(Err(StateError::ThreadHandleMissing));
        }
        match progress {
            EndProgress::Begin => EndStep::Send(StateCommand::EndSession),
            EndProgress::Answered(StateCommand::EndSession, _) => EndStep::Send(StateCommand::End),
            EndProgress::Answered(_, delivery) => match acknowledge(delivery) {
                Ok(_) => EndStep::Join,
                Err(error) => EndStep::Finished(Err(error)),
            },
            EndProgress::Joined(outcome) => {
                self.handle = false;
                match outcome {
                    Outcome::Done => EndStep::Finished(Ok(())),
                    Outcome::Failed => EndStep::Finished(Err(StateError::ThreadJoinPanic)),
                }
            },
        }
    }
}

} // verus!

//! What holds of the bridge over whole runs of commands.
//!
//! The laws speak of the coordination thread's state and of the results
//! that the facade reads from its replies over a channel that works.
use vstd::prelude::*;
use crate::controller::{ControllerView, Outcome};
use crate::inputs::Inputs;
use crate::state::command::StateCommand;
use crate::state::coordinator::{CoordinatorView, SessionState};
use crate::state::error::StateError;
use crate::state::{acknowledged, delivered_inputs, stop_commands};
use crate::CONTROLLER_COUNT;

verus! {

/// Something that reaches the coordination thread.
pub enum Event {
    /// A command, with the outcome of the work outside the library that it
    /// calls for.
    Command(StateCommand, Outcome),
    /// A snapshot published by the interactive loop of a slot.
    Published(usize, Inputs),
}

impl CoordinatorView {
    /// The state after one event.
    pub open spec fn after(self, event: Event) -> CoordinatorView {
        match event {
            Event::Command(command, outcome) => self.step(command, outcome).0,
            Event::Published(control, snapshot) => self.publish(control, snapshot).0,
        }
    }

    /// The state after a run of events, taken in order.
    pub open spec fn after_all(self, events: Seq<Event>) -> CoordinatorView
        decreases events.len(),
    {
        if events.len() == 0 {
            self
        } else {
            self.after_all(events.drop_last()).after(events.last())
        }
    }
}

/// Whether `event` is a command to start the worker of slot `control` for
/// which a thread was created.
pub open spec fn starts(event: Event, control: usize) -> bool {
    event matches Event::Command(StateCommand::InitializeController(slot), Outcome::Done) && slot
        == control
}

/// The stop commands for all slots as events, with the outcome of each.
pub open spec fn stop_events(outcomes: Seq<Outcome>) -> Seq<Event> {
    Seq::new(CONTROLLER_COUNT as nat, |i: int| Event::Command(stop_commands()[i], outcomes[i]))
}

/// Every event leaves one worker for each slot.
pub proof fn lemma_after_well_formed(state: CoordinatorView, event: Event)
    requires
        state.well_formed(),
    ensures
        state.after(event).well_formed(),
{
}

/// What the facade reads from the reply to each command is the result of
/// the operation that the command stands for.
pub proof fn lemma_replies_carry_results(state: CoordinatorView, control: usize, outcome: Outcome)
    ensures
        acknowledged(Some(state.step(StateCommand::StartSession, outcome).1))
            == state.start_session(outcome).1,
        acknowledged(Some(state.step(StateCommand::EndSession, outcome).1))
            == state.end_session().1,
        acknowledged(Some(state.step(StateCommand::InitializeController(control), outcome).1))
            == state.start_controller(control, outcome).1,
        acknowledged(Some(state.step(StateCommand::DeleteController(control), outcome).1))
            == state.stop_controller(control, outcome).1,
        delivered_inputs(Some(state.step(StateCommand::GetInputs(control), outcome).1))
            == state.get_inputs(control),
        acknowledged(Some(state.step(StateCommand::End, outcome).1)) == Ok::<(), StateError>(()),
        acknowledged(Some(state.step(StateCommand::NoOp, outcome).1)) == Ok::<(), StateError>(()),
{
}

/// The outcome of outside work is not read where a command calls for none.
pub proof fn lemma_outcome_unread(
    state: CoordinatorView,
    command: StateCommand,
    first: Outcome,
    second: Outcome,
)
    requires
        state.effect(command) is None,
    ensures
        state.step(command, first) == state.step(command, second),
{
}

/// A request on one slot leaves every other slot as it is, and the session
/// too.
pub proof fn lemma_other_slots_untouched(
    state: CoordinatorView,
    control: usize,
    other: usize,
    outcome: Outcome,
    snapshot: Inputs,
)
    requires
        state.well_formed(),
        other < CONTROLLER_COUNT,
        other != control,
    ensures
        state.start_controller(control, outcome).0.controllers[other as int]
            == state.controllers[other as int],
        state.stop_controller(control, outcome).0.controllers[other as int]
            == state.controllers[other as int],
        state.publish(control, snapshot).0.controllers[other as int]
            == state.controllers[other as int],
        state.start_controller(control, outcome).0.session == state.session,
        state.stop_controller(control, outcome).0.session == state.session,
        state.publish(control, snapshot).0.session == state.session,
{
}

/// After a controller was started with success, stopping it succeeds where
/// its loop ends cleanly, and makes it inactive in any case; a second stop
/// then fails with `NotActive`.
pub proof fn lemma_started_stops_once(
    state: CoordinatorView,
    control: usize,
    spawn: Outcome,
    exit: Outcome,
    again: Outcome,
)
    requires
        state.well_formed(),
        state.start_controller(control, spawn).1 is Ok,
    ensures
        ({
            let started = state.start_controller(control, spawn).0;
            let stopped = started.stop_controller(control, exit).0;
            &&& started.stop_controller(control, Outcome::Done).1 == Ok::<(), StateError>(())
            &&& started.stop_controller(control, Outcome::Failed).1 == Err::<(), StateError>(
                StateError::WorkerCrashed,
            )
            &&& !stopped.controllers[control as int].active
            &&& stopped.stop_controller(control, again) == (
                stopped,
                Err::<(), StateError>(StateError::NotActive),
            )
        }),
{
    let started = state.start_controller(control, spawn).0;
    let stopped = started.stop_controller(control, exit).0;
    assert(stopped.controllers.update(control as int, stopped.controllers[control as int])
        =~= stopped.controllers);
}

/// Starting a controller a second time, with no stop in between, fails with
/// `AlreadyActive` and changes nothing: the first worker stays active.
pub proof fn lemma_second_start_refused(
    state: CoordinatorView,
    control: usize,
    spawn: Outcome,
    again: Outcome,
)
    requires
        state.well_formed(),
        state.start_controller(control, spawn).1 is Ok,
    ensures
        ({
            let started = state.start_controller(control, spawn).0;
            &&& started.controllers[control as int].active
            &&& started.start_controller(control, again) == (
                started,
                Err::<(), StateError>(StateError::AlreadyActive),
            )
        }),
{
    let started = state.start_controller(control, spawn).0;
    assert(started.controllers.update(control as int, started.controllers[control as int])
        =~= started.controllers);
}

/// A slot whose worker was never started holds the neutral snapshot and is
/// inactive, whatever else has reached the coordination thread: commands
/// for other slots, snapshots published for any slot, session commands, and
/// requests to start this slot for which no thread could be created.
pub proof fn lemma_never_started_is_neutral(events: Seq<Event>, control: usize)
    requires
        control < CONTROLLER_COUNT,
        forall|k: int| 0 <= k < events.len() ==> !starts(#[trigger] events[k], control),
    ensures
        CoordinatorView::fresh().after_all(events).well_formed(),
        CoordinatorView::fresh().after_all(events).controllers[control as int]
            == ControllerView::fresh(),
        CoordinatorView::fresh().after_all(events).get_inputs(control) == Ok::<
            Inputs,
            StateError,
        >(Inputs::neutral()),
    decreases events.len(),
{
    if events.len() > 0 {
        let earlier = events.drop_last();
        assert forall|k: int| 0 <= k < earlier.len() implies !starts(
            #[trigger] earlier[k],
            control,
        ) by {
            assert(earlier[k] == events[k]);
        }
        lemma_never_started_is_neutral(earlier, control);
        assert(!starts(events[events.len() - 1], control));
    }
}

/// Stopping a controller keeps its snapshot: what was read before the stop
/// is read after it.
pub proof fn lemma_stop_keeps_inputs(state: CoordinatorView, control: usize, exit: Outcome)
    requires
        state.well_formed(),
    ensures
        state.stop_controller(control, exit).0.get_inputs(control) == state.get_inputs(control),
{
}

/// A snapshot published by the loop of an active worker is what is read
/// next, and an inactive worker keeps what it holds.
pub proof fn lemma_read_after_publish(state: CoordinatorView, control: usize, snapshot: Inputs)
    requires
        state.well_formed(),
        control < CONTROLLER_COUNT,
    ensures
        state.controllers[control as int].active ==> state.publish(control, snapshot).0.get_inputs(
            control,
        ) == Ok::<Inputs, StateError>(snapshot),
        !state.controllers[control as int].active ==> state.publish(control, snapshot) == (
            state,
            Err::<(), StateError>(StateError::NotActive),
        ),
{
    if !state.controllers[control as int].active {
        assert(state.controllers.update(control as int, state.controllers[control as int])
            =~= state.controllers);
    }
}

/// Reading a snapshot calls for no work outside the library and changes
/// nothing, whatever the index and whether the worker is active or not.
pub proof fn lemma_reads_need_no_work(state: CoordinatorView, control: usize, outcome: Outcome)
    ensures
        state.effect(StateCommand::GetInputs(control)) is None,
        state.step(StateCommand::GetInputs(control), outcome).0 == state,
        control < CONTROLLER_COUNT ==> state.get_inputs(control) is Ok,
{
}

/// Closing the session while none is running fails with `SessionNotOpen`,
/// calls for no work outside the library, and changes nothing.
pub proof fn lemma_close_needs_session(state: CoordinatorView, outcome: Outcome)
    requires
        state.session != SessionState::Running,
    ensures
        state.end_session() == (state, Err::<(), StateError>(StateError::SessionNotOpen)),
        state.effect(StateCommand::EndSession) is None,
        state.step(StateCommand::EndSession, outcome).0 == state,
        CoordinatorView::fresh().session != SessionState::Running,
{
}

/// The session opens at most once: while it runs and after it was closed,
/// a request to open it fails with `SessionAlreadyOpen`, and no event makes
/// a closed session run again.
pub proof fn lemma_session_opens_once(state: CoordinatorView, spawn: Outcome, event: Event)
    ensures
        state.session != SessionState::NotStarted ==> state.start_session(spawn) == (
            state,
            Err::<(), StateError>(StateError::SessionAlreadyOpen),
        ),
        state.session == SessionState::Stopped ==> state.after(event).session
            == SessionState::Stopped,
        state.start_session(spawn).1 is Ok ==> state.start_session(spawn).0.session
            == SessionState::Running,
{
}

/// The coordination loop ends with `End` and with nothing else, and does
/// not start again.
pub proof fn lemma_loop_ends_with_end(state: CoordinatorView, event: Event)
    ensures
        state.after(event).running == (state.running && !(event matches Event::Command(
            StateCommand::End,
            _,
        ))),
        state.end().session != SessionState::Running,
{
}

/// After the stop commands for all slots were taken, no worker is active,
/// however the loops ended.
pub proof fn lemma_stop_commands_stop_all(state: CoordinatorView, outcomes: Seq<Outcome>)
    requires
        state.well_formed(),
        outcomes.len() == CONTROLLER_COUNT,
    ensures
        forall|i: int|
            0 <= i < CONTROLLER_COUNT ==> !(#[trigger] state.after_all(
                stop_events(outcomes),
            ).controllers[i]).active,
{
    let events = stop_events(outcomes);
    lemma_stops_prefix(state, events, CONTROLLER_COUNT as int);
    assert(events.subrange(0, CONTROLLER_COUNT as int) =~= events);
}

/// After the first `count` stop commands, the workers of the first `count`
/// slots are inactive.
proof fn lemma_stops_prefix(state: CoordinatorView, events: Seq<Event>, count: int)
    requires
        state.well_formed(),
        0 <= count <= CONTROLLER_COUNT,
        events.len() == CONTROLLER_COUNT,
        forall|i: int|
            0 <= i < CONTROLLER_COUNT ==> (#[trigger] events[i] matches Event::Command(
                StateCommand::DeleteController(slot),
                _,
            ) && slot == i),
    ensures
        state.after_all(events.subrange(0, count)).well_formed(),
        forall|i: int|
            0 <= i < count ==> !(#[trigger] state.after_all(
                events.subrange(0, count),
            ).controllers[i]).active,
    decreases count,
{
    let prefix = events.subrange(0, count);
    if count > 0 {
        lemma_stops_prefix(state, events, count - 1);
        assert(prefix.drop_last() =~= events.subrange(0, count - 1));
        assert(prefix.last() == events[count - 1]);
    }
}

} // verus!

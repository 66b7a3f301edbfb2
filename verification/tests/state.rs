use tasinput2::state::{
    acknowledge, read_inputs, state_manager, Coordinator, Effect, EndProgress, EndStep,
    ProgramStateUnwrapped, SessionState, StateCommand, StateError, StateResponse,
    Tasinput2State,
};
use tasinput2::{ControllerError, Inputs, Outcome, CONTROLLER_COUNT};

fn pressed_a() -> Inputs {
    Inputs { a: true, x: 42, ..Inputs::default() }
}

fn start_controller(state: &mut Coordinator, control: usize) -> Result<(), StateError> {
    let command = Tasinput2State::new().start_controller(control);
    acknowledge(Some(state_manager(state, command, Outcome::Done)))
}

fn stop_controller(state: &mut Coordinator, control: usize) -> Result<(), StateError> {
    let command = Tasinput2State::new().stop_controller(control);
    acknowledge(Some(state_manager(state, command, Outcome::Done)))
}

fn get_inputs(state: &mut Coordinator, control: usize) -> Result<Inputs, StateError> {
    let command = Tasinput2State::new().get_inputs(control);
    read_inputs(Some(state_manager(state, command, Outcome::Done)))
}

#[test]
fn a_new_table_holds_inactive_neutral_workers() {
    let table = ProgramStateUnwrapped::new();
    for index in 0..CONTROLLER_COUNT {
        assert!(!table.is_active(index));
        assert_eq!(table.read(index), Inputs::default());
    }
    assert_eq!(table.active_slots(), Vec::<usize>::new());
}

#[test]
fn the_table_routes_requests_to_one_slot() {
    let mut table = ProgramStateUnwrapped::new();
    assert_eq!(table.start(2, Outcome::Done), Ok(()));
    assert_eq!(table.start(2, Outcome::Done), Err(ControllerError::AlreadyActive));
    assert_eq!(table.write(2, pressed_a()), Ok(()));
    assert_eq!(table.write(1, pressed_a()), Err(ControllerError::NotActive));
    assert_eq!(table.read(2), pressed_a());
    assert_eq!(table.read(1), Inputs::default());
    assert_eq!(table.start(0, Outcome::Done), Ok(()));
    assert_eq!(table.active_slots(), vec![0, 2]);
    assert_eq!(table.stop(2, Outcome::Failed), Err(ControllerError::WorkerCrashed));
    assert_eq!(table.stop(3, Outcome::Done), Err(ControllerError::NotActive));
    assert_eq!(table.active_slots(), vec![0]);
    assert_eq!(table.read(2), pressed_a());
}

#[test]
fn a_started_controller_stops_once() {
    for control in 0..CONTROLLER_COUNT {
        let mut state = Coordinator::new();
        assert_eq!(start_controller(&mut state, control), Ok(()));
        assert_eq!(stop_controller(&mut state, control), Ok(()));
        assert_eq!(stop_controller(&mut state, control), Err(StateError::NotActive));
    }
}

#[test]
fn the_coordinator_lists_its_active_workers() {
    let mut state = Coordinator::new();
    assert_eq!(state.active_slots(), Vec::<usize>::new());
    assert_eq!(start_controller(&mut state, 3), Ok(()));
    assert_eq!(start_controller(&mut state, 1), Ok(()));
    assert_eq!(state.active_slots(), vec![1, 3]);
    assert_eq!(stop_controller(&mut state, 1), Ok(()));
    assert_eq!(state.active_slots(), vec![3]);
}

#[test]
fn a_second_start_is_refused_and_the_worker_stays() {
    let mut state = Coordinator::new();
    assert_eq!(start_controller(&mut state, 1), Ok(()));
    assert_eq!(start_controller(&mut state, 1), Err(StateError::AlreadyActive));
    assert_eq!(state.required_effect(StateCommand::DeleteController(1)), Some(Effect::StopWorker(1)));
    assert_eq!(stop_controller(&mut state, 1), Ok(()));
}

#[test]
fn a_never_started_slot_gives_the_default_snapshot() {
    let mut state = Coordinator::new();
    assert_eq!(start_controller(&mut state, 0), Ok(()));
    assert_eq!(state.publish(0, pressed_a()), Ok(()));
    for control in 1..CONTROLLER_COUNT {
        assert_eq!(get_inputs(&mut state, control), Ok(Inputs::default()));
    }
}

#[test]
fn inputs_survive_the_stop_of_their_controller() {
    let mut state = Coordinator::new();
    let facade = Tasinput2State::new();
    assert_eq!(state.required_effect(facade.start_qt()), Some(Effect::OpenSession));
    assert_eq!(acknowledge(Some(state_manager(&mut state, facade.start_qt(), Outcome::Done))), Ok(()));
    assert_eq!(state.session(), SessionState::Running);
    assert_eq!(start_controller(&mut state, 0), Ok(()));
    assert_eq!(state.publish(0, pressed_a()), Ok(()));
    let read = get_inputs(&mut state, 0);
    assert_eq!(read, Ok(pressed_a()));
    assert_eq!(read.unwrap().to_value(), 0x002A_0080);
    assert_eq!(stop_controller(&mut state, 0), Ok(()));
    assert_eq!(get_inputs(&mut state, 0), Ok(pressed_a()));
}

#[test]
fn closing_a_session_that_was_never_opened_fails() {
    let mut state = Coordinator::new();
    let command = Tasinput2State::new().end_qt();
    assert_eq!(command, StateCommand::EndSession);
    assert_eq!(state.required_effect(command), None);
    assert_eq!(
        acknowledge(Some(state_manager(&mut state, command, Outcome::Done))),
        Err(StateError::SessionNotOpen)
    );
    assert_eq!(state.session(), SessionState::NotStarted);
    assert!(state.is_running());
}

#[test]
fn the_session_opens_once_and_closes_once() {
    let mut state = Coordinator::new();
    assert_eq!(state.start_qt(Outcome::Done), Ok(StateResponse::Nothing));
    assert_eq!(state.start_qt(Outcome::Done), Err(StateError::SessionAlreadyOpen));
    assert_eq!(state.required_effect(StateCommand::StartSession), None);
    assert_eq!(state.required_effect(StateCommand::EndSession), Some(Effect::CloseSession));
    assert_eq!(state.terminate_qt(), Ok(StateResponse::Nothing));
    assert_eq!(state.session(), SessionState::Stopped);
    assert_eq!(state.terminate_qt(), Err(StateError::SessionNotOpen));
    assert_eq!(state.start_qt(Outcome::Done), Err(StateError::SessionAlreadyOpen));
    assert_eq!(state.session(), SessionState::Stopped);
}

#[test]
fn a_session_whose_thread_cannot_be_created_stays_unopened() {
    let mut state = Coordinator::new();
    assert_eq!(
        state_manager(&mut state, StateCommand::StartSession, Outcome::Failed),
        Err(StateError::SpawnFailure)
    );
    assert_eq!(state.session(), SessionState::NotStarted);
    assert_eq!(
        state_manager(&mut state, StateCommand::StartSession, Outcome::Done),
        Ok(StateResponse::Nothing)
    );
    assert_eq!(state.session(), SessionState::Running);
}

#[test]
fn controllers_need_no_session() {
    let mut state = Coordinator::new();
    assert_eq!(state.session(), SessionState::NotStarted);
    assert_eq!(start_controller(&mut state, 3), Ok(()));
    assert_eq!(stop_controller(&mut state, 3), Ok(()));
}

#[test]
fn a_worker_error_comes_back_under_the_facade_name() {
    assert_eq!(StateError::from(ControllerError::AlreadyActive), StateError::AlreadyActive);
    assert_eq!(StateError::from(ControllerError::NotActive), StateError::NotActive);
    assert_eq!(StateError::from(ControllerError::SpawnFailure), StateError::SpawnFailure);
    assert_eq!(StateError::from(ControllerError::WorkerCrashed), StateError::WorkerCrashed);
    let mut state = Coordinator::new();
    assert_eq!(
        state_manager(&mut state, StateCommand::InitializeController(0), Outcome::Failed),
        Err(StateError::SpawnFailure)
    );
    assert_eq!(start_controller(&mut state, 0), Ok(()));
    assert_eq!(
        state_manager(&mut state, StateCommand::DeleteController(0), Outcome::Failed),
        Err(StateError::WorkerCrashed)
    );
    assert_eq!(state.required_effect(StateCommand::DeleteController(0)), None);
    assert_eq!(start_controller(&mut state, 0), Ok(()));
}

#[test]
fn an_index_beyond_the_slots_is_refused() {
    let mut state = Coordinator::new();
    let beyond = CONTROLLER_COUNT;
    assert_eq!(start_controller(&mut state, beyond), Err(StateError::IndexOutOfRange));
    assert_eq!(stop_controller(&mut state, beyond), Err(StateError::IndexOutOfRange));
    assert_eq!(get_inputs(&mut state, usize::MAX), Err(StateError::IndexOutOfRange));
    assert_eq!(state.publish(beyond, pressed_a()), Err(StateError::IndexOutOfRange));
    assert_eq!(state.required_effect(StateCommand::InitializeController(beyond)), None);
}

#[test]
fn publish_needs_an_active_worker() {
    let mut state = Coordinator::new();
    assert_eq!(state.publish(2, pressed_a()), Err(StateError::NotActive));
    assert_eq!(get_inputs(&mut state, 2), Ok(Inputs::default()));
}

#[test]
fn no_op_changes_nothing() {
    let mut state = Coordinator::new();
    assert_eq!(state.required_effect(StateCommand::NoOp), None);
    assert_eq!(state_manager(&mut state, StateCommand::NoOp, Outcome::Failed), Ok(StateResponse::Nothing));
    assert!(state.is_running());
    assert_eq!(state.session(), SessionState::NotStarted);
}

#[test]
fn end_stops_the_loop_and_closes_a_running_session() {
    let mut state = Coordinator::new();
    assert_eq!(state.start_qt(Outcome::Done), Ok(StateResponse::Nothing));
    assert_eq!(state.required_effect(StateCommand::End), Some(Effect::CloseSession));
    assert_eq!(state_manager(&mut state, StateCommand::End, Outcome::Done), Ok(StateResponse::Nothing));
    assert!(!state.is_running());
    assert_eq!(state.session(), SessionState::Stopped);

    let mut idle = Coordinator::new();
    assert_eq!(idle.required_effect(StateCommand::End), None);
    assert_eq!(state_manager(&mut idle, StateCommand::End, Outcome::Done), Ok(StateResponse::Nothing));
    assert!(!idle.is_running());
    assert_eq!(idle.session(), SessionState::NotStarted);
}

#[test]
fn acknowledge_reads_each_kind_of_delivery() {
    assert_eq!(acknowledge(None), Err(StateError::ChannelBroken));
    assert_eq!(acknowledge(Some(Ok(StateResponse::Nothing))), Ok(()));
    assert_eq!(acknowledge(Some(Ok(StateResponse::Inputs(pressed_a())))), Ok(()));
    assert_eq!(acknowledge(Some(Err(StateError::NotActive))), Err(StateError::NotActive));
}

#[test]
fn read_inputs_reads_each_kind_of_delivery() {
    assert_eq!(read_inputs(None), Err(StateError::ChannelBroken));
    assert_eq!(read_inputs(Some(Ok(StateResponse::Inputs(pressed_a())))), Ok(pressed_a()));
    assert_eq!(read_inputs(Some(Ok(StateResponse::Nothing))), Err(StateError::UnexpectedResponse));
    assert_eq!(
        read_inputs(Some(Err(StateError::IndexOutOfRange))),
        Err(StateError::IndexOutOfRange)
    );
}

#[test]
fn the_facade_names_the_command_of_each_operation() {
    let facade = Tasinput2State::new();
    assert_eq!(facade.start_qt(), StateCommand::StartSession);
    assert_eq!(facade.end_qt(), StateCommand::EndSession);
    assert_eq!(facade.start_controller(2), StateCommand::InitializeController(2));
    assert_eq!(facade.stop_controller(3), StateCommand::DeleteController(3));
    assert_eq!(facade.get_inputs(1), StateCommand::GetInputs(1));
}

#[test]
fn an_orderly_shutdown_takes_three_steps() {
    let mut facade = Tasinput2State::new();
    assert!(facade.has_handle());
    assert_eq!(facade.end(EndProgress::Begin), EndStep::Send(StateCommand::EndSession));
    let refused = Some(Err(StateError::SessionNotOpen));
    assert_eq!(
        facade.end(EndProgress::Answered(StateCommand::EndSession, refused)),
        EndStep::Send(StateCommand::End)
    );
    let done = Some(Ok(StateResponse::Nothing));
    assert_eq!(facade.end(EndProgress::Answered(StateCommand::End, done)), EndStep::Join);
    assert!(facade.has_handle());
    assert_eq!(facade.end(EndProgress::Joined(Outcome::Done)), EndStep::Finished(Ok(())));
    assert!(!facade.has_handle());
}

#[test]
fn a_second_shutdown_misses_the_thread_handle() {
    let mut facade = Tasinput2State::new();
    assert_eq!(facade.end(EndProgress::Joined(Outcome::Done)), EndStep::Finished(Ok(())));
    assert_eq!(
        facade.end(EndProgress::Begin),
        EndStep::Finished(Err(StateError::ThreadHandleMissing))
    );
    assert_eq!(
        facade.end(EndProgress::Joined(Outcome::Done)),
        EndStep::Finished(Err(StateError::ThreadHandleMissing))
    );
}

#[test]
fn a_shutdown_over_a_broken_channel_fails_before_the_join() {
    let mut facade = Tasinput2State::new();
    assert_eq!(
        facade.end(EndProgress::Answered(StateCommand::EndSession, None)),
        EndStep::Send(StateCommand::End)
    );
    assert_eq!(
        facade.end(EndProgress::Answered(StateCommand::End, None)),
        EndStep::Finished(Err(StateError::ChannelBroken))
    );
    assert!(facade.has_handle());
}

#[test]
fn a_panicked_coordination_thread_is_reported_by_the_join() {
    let mut facade = Tasinput2State::new();
    assert_eq!(
        facade.end(EndProgress::Joined(Outcome::Failed)),
        EndStep::Finished(Err(StateError::ThreadJoinPanic))
    );
    assert!(!facade.has_handle());
}

#[test]
fn startup_is_refused_the_second_time() {
    let mut facade = Tasinput2State::new();
    assert!(!facade.is_initialized());
    assert_eq!(facade.startup(), Ok(()));
    assert!(facade.is_initialized());
    assert_eq!(facade.startup(), Err(StateError::AlreadyInitialized));
    assert!(facade.is_initialized());
}

#[test]
fn rom_open_starts_the_present_controllers() {
    let mut facade = Tasinput2State::new();
    assert!(!facade.is_rom_open());
    let commands = facade.rom_open(&[true, false, true, false]);
    assert!(facade.is_rom_open());
    assert_eq!(
        commands,
        vec![StateCommand::InitializeController(0), StateCommand::InitializeController(2)]
    );
    assert_eq!(facade.rom_open(&[false, false, false, false]), Vec::<StateCommand>::new());
}

#[test]
fn rom_closed_leaves_no_worker_active() {
    let mut facade = Tasinput2State::new();
    let mut state = Coordinator::new();
    for command in facade.rom_open(&[true, true, false, true]) {
        assert_eq!(acknowledge(Some(state_manager(&mut state, command, Outcome::Done))), Ok(()));
    }
    let commands = facade.rom_closed();
    assert!(!facade.is_rom_open());
    assert_eq!(
        commands,
        vec![
            StateCommand::DeleteController(0),
            StateCommand::DeleteController(1),
            StateCommand::DeleteController(2),
            StateCommand::DeleteController(3),
        ]
    );
    let mut replies = Vec::new();
    for command in commands {
        replies.push(state_manager(&mut state, command, Outcome::Done));
    }
    assert_eq!(
        replies,
        vec![
            Ok(StateResponse::Nothing),
            Ok(StateResponse::Nothing),
            Err(StateError::NotActive),
            Ok(StateResponse::Nothing),
        ]
    );
    for control in 0..CONTROLLER_COUNT {
        assert_eq!(state.required_effect(StateCommand::DeleteController(control)), None);
    }
}

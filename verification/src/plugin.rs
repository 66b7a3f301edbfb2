//! What the entry points for the host decide.
//!
//! The host calls with plain C values. The conversions of those values, and
//! of the replies on the way back, are decided here; the calls themselves
//! are made by the caller.
use vstd::prelude::*;
use crate::inputs::{bit_at, Buttons, Inputs};
use crate::state::error::StateError;
use crate::state::{delivered_inputs, read_inputs, Reply};
use crate::CONTROLLER_COUNT;

verus! {

/// The slot that the host's controller number names, if it names one.
pub open spec fn slot(controller_num: i32) -> Option<usize> {
    if 0 <= controller_num < CONTROLLER_COUNT {
        Some(controller_num as usize)
    } else {
        None
    }
}

/// The record for the host from what came back for `GetInputs`.
pub open spec fn keys(delivery: Option<Reply>) -> Result<Buttons, StateError> {
    match delivered_inputs(delivery) {
        Ok(inputs) => Ok(inputs.canonical()),
        Err(error) => Err(error),
    }
}

/// What the host is told about a call that gives no value.
#[derive(Debug, Copy, Clone, PartialEq, Eq, Structural)]
pub enum HostStatus {
    /// The call succeeded.
    Success,
    /// The plugin was not started, or was shut down before.
    NotInit,
    /// The plugin was started before.
    AlreadyInit,
    /// The call failed for a reason that the host cannot mend.
    SystemFail,
}

/// The host's status for the result of an operation. A second start is
/// `AlreadyInit`, a shutdown without a coordination thread is `NotInit`,
/// and every other error is a system failure.
pub open spec fn status(result: Result<(), StateError>) -> HostStatus {
    match result {
        Ok(_) => HostStatus::Success,
        Err(StateError::AlreadyInitialized) => HostStatus::AlreadyInit,
        Err(StateError::ThreadHandleMissing) => HostStatus::NotInit,
        Err(_) => HostStatus::SystemFail,
    }
}

/// Names the result of an operation as the host does.
pub fn host_status(result: Result<(), StateError>) -> (told: HostStatus)
    ensures
        told == status(result),
{
    match result {
        Ok(_) => HostStatus::Success,
        Err(StateError::AlreadyInitialized) => HostStatus::AlreadyInit,
        Err(StateError::ThreadHandleMissing) => HostStatus::NotInit,
        Err(_) => HostStatus::SystemFail,
    }
}

/// Checks the controller number that the host passed. A number below zero
/// or beyond the last slot names no slot, and nothing is asked of the
/// bridge for it.
pub fn slot_of(controller_num: i32) -> (found: Option<usize>)
    ensures
        found == slot(controller_num),
{
    if 0 <= controller_num && controller_num < 4 {
        Some(controller_num as usize)
    } else {
        None
    }
}

/// Reads what came back for `GetInputs` and names the snapshot as the host
/// does. An error is handed on, and the host's record is then left as it
/// is.
pub fn get_keys(delivery: Option<Reply>) -> (record: Result<Buttons, StateError>)
    ensures
        record == keys(delivery),
        record matches Ok(buttons) ==> buttons.well_formed(),
{
    match read_inputs(delivery) {
        Ok(inputs) => Ok(inputs.to_canonical()),
        Err(error) => Err(error),
    }
}

/// The slots that a mask of controllers marks: slot `i` is present exactly
/// if bit `i` of the mask is set. Bits beyond the last slot are not read.
pub fn present_controllers(mask: u8) -> (present: [bool; CONTROLLER_COUNT])
    ensures
        forall|i: int| 0 <= i < CONTROLLER_COUNT ==> present[i] == bit_at(mask as u32, i as u8),
{
    let present = [mask & 1 != 0, mask & 2 != 0, mask & 4 != 0, mask & 8 != 0];
    proof {
        reveal(bit_at);
        let wide = mask as u32;
        assert((mask & 1 != 0) == ((wide >> 0u8) & 1 == 1) && (mask & 2 != 0) == ((wide >> 1u8) & 1
            == 1) && (mask & 4 != 0) == ((wide >> 2u8) & 1 == 1) && (mask & 8 != 0) == ((wide >> 3u8)
            & 1 == 1)) by (bit_vector)
            requires
                wide == mask as u32,
        ;
    }
    present
}

} // verus!

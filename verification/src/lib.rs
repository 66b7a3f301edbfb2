//! The state bridge between a host that polls controller inputs and the
//! interactive sessions that edit them.
use vstd::prelude::*;

pub mod controller;
pub mod inputs;
pub mod plugin;
pub mod state;

pub use controller::{Controller, ControllerCommand, ControllerError, ControllerResponse, Outcome};
pub use inputs::{Buttons, Directional, DirectionalType, Inputs};

verus! {

/// Number of controller slots.
pub const CONTROLLER_COUNT: usize = 4;

} // verus!

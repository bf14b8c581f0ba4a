//! Board control and acquisition engine of the avionics boards: the GPIO
//! register model, the converter driver protocol, the acquisition
//! scheduler, the board state machine, the heartbeat supervisor, telemetry
//! framing, and the log and lookup containers of the ground tools.
use vstd::prelude::*;

pub mod gpio;
pub mod controllers;
pub mod command;
pub mod adc;
pub mod scheduler;
pub mod heartbeat;
pub mod state;
pub mod telemetry;
pub mod logging;
pub mod tui_data;
pub mod pinout;
pub mod comm;

verus! {

} // verus!

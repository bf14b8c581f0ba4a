//! Records exchanged with the flight computer and the ground station.
use vstd::prelude::*;

verus! {

/// Which computer drives a board.
#[derive(Debug, Clone, Copy, PartialEq, Eq, Structural)]
pub enum Computer {
    /// The flight computer.
    Flight,
    /// The ground computer.
    Ground,
}

/// An operator script, run by the flight computer as soon as it arrives,
/// except the one named "abort", which is stored for later.
#[derive(Debug, Clone, PartialEq, Eq)]
pub struct Sequence {
    pub name: String,
    pub script: String,
}

/// A script that the flight computer runs when its condition holds.
#[derive(Debug, Clone, PartialEq, Eq)]
pub struct Trigger {
    pub name: String,
    pub condition: String,
    pub script: String,
    pub active: bool,
}

} // verus!

//! What the library knows of the host timer: its state and the commands it takes.
use vstd::prelude::*;

verus! {

/// The host timer's state, queried once per tick.
#[derive(Clone, Copy, Debug, PartialEq, Eq, Structural)]
pub enum TimerState {
    NotRunning,
    Running,
    Paused,
    Ended,
}

/// A command for the host timer.
#[derive(Clone, Copy, Debug, PartialEq, Eq, Structural)]
pub enum TimerCommand {
    PauseGameTime,
    ResumeGameTime,
    Split,
    Start,
    Reset,
}

} // verus!

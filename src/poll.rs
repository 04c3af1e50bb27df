//! The connection lifecycle that a tick runs through.
use vstd::prelude::*;

use crate::timer::TimerCommand;

verus! {

/// What the caller found out about the game process this tick, with `R` the
/// reads of the watched values.
pub enum Event<R> {
    /// The process was attached; its module's base address.
    Attached(u64),
    /// No process: attaching failed, or the attached process has exited.
    Detached,
    /// The process is alive; what was read from it.
    Observed(R),
}

/// What a tick came to.
#[derive(Debug, PartialEq, Eq)]
pub enum Outcome {
    /// A fresh connection was set up.
    Connected,
    /// There is no connection.
    Disconnected,
    /// A required value could not be read: nothing was decided this tick.
    Unreadable,
    /// The commands to hand to the timer, in order.
    Commands(Vec<TimerCommand>),
}

} // verus!

//! Persona 4 Golden: load removal from a single loading indicator.
use vstd::prelude::*;

use crate::poll::{Event, Outcome};
use crate::timer::TimerCommand;
use crate::watcher::{fresh, refreshed, Pair, Variable};

verus! {

/// The loading indicator's value while the game is not loading.
pub const NOT_LOADING: i16 = 1;

/// The offset from the module's base of the loading indicator.
pub const LOADING_OFFSET: u32 = 0x49DC372;

/// Every watched value of one game process.
pub struct State {
    pub loading: Variable<i16>,
}

/// The pairs of one tick.
pub struct Variables {
    pub loading: Pair<i16>,
}

/// The game is loading.
pub open spec fn is_loading(v: Variables) -> bool {
    v.loading.current != NOT_LOADING
}

/// Pause game time while loading, resume it otherwise.
pub open spec fn load_commands(v: Variables) -> Seq<TimerCommand> {
    if is_loading(v) {
        seq![TimerCommand::PauseGameTime]
    } else {
        seq![TimerCommand::ResumeGameTime]
    }
}

/// The watchers of `s` are set up at `base` with nothing observed yet, the
/// loading indicator at `LOADING_OFFSET`, 0x49DC372.
pub open spec fn state_fresh(s: State, base: u64) -> bool {
    fresh(s.loading, base) && s.loading.address_path@ == seq![0x49DC372u32]
}

impl State {
    /// The watchers of a process whose module lies at `base_address`.
    pub fn setup(base_address: u64) -> (r: State)
        ensures
            state_fresh(r, base_address),
    {
        let path: Vec<u32> = vec![LOADING_OFFSET];
        assert(path@ =~= seq![LOADING_OFFSET]);
        State { loading: Variable::new(base_address, path) }
    }

    /// Refreshes the watchers from one tick's read of the loading indicator.
    /// Returns the tick's pairs where it was read, and `None` otherwise.
    pub fn update(&mut self, loading: Option<i16>) -> (r: Option<Variables>)
        ensures
            refreshed(old(self).loading, final(self).loading, loading),
            r is Some <==> loading is Some,
            r matches Some(v) ==> final(self).loading.pair == Some(v.loading),
    {
        match self.loading.update(loading) {
            Some(p) => Some(Variables { loading: p }),
            None => None,
        }
    }
}

/// Pauses game time while the game loads and resumes it otherwise.
pub fn handle_load(vars: &Variables, commands: &mut Vec<TimerCommand>)
    ensures
        final(commands)@ == old(commands)@ + load_commands(*vars),
{
    if vars.loading.current != NOT_LOADING {
        commands.push(TimerCommand::PauseGameTime);
    } else {
        commands.push(TimerCommand::ResumeGameTime);
    }
}

/// What a connection holds: the watchers of the attached process.
pub struct Game {
    pub state: State,
}

/// One tick. An attached process gets fresh watchers; a lost one drops the
/// connection. Where the process is alive, the loading indicator is
/// refreshed from its read; where it could not be read the tick ends there,
/// and otherwise the load state gives the timer's command. A lost process
/// issues no command: game time is not paused on exit, the tick only drops
/// the connection.
pub fn update(game: &mut Option<Game>, event: Event<Option<i16>>) -> (r: Outcome)
    ensures
        match event {
            Event::Attached(base) => r is Connected && match *final(game) {
                Some(g) => state_fresh(g.state, base),
                None => false,
            },
            Event::Detached => r is Disconnected && *final(game) is None,
            Event::Observed(loading) => match (*old(game), *final(game)) {
                (None, None) => r is Disconnected,
                (Some(g), Some(h)) => {
                    &&& refreshed(g.state.loading, h.state.loading, loading)
                    &&& match (loading, r) {
                        (None, Outcome::Unreadable) => true,
                        (Some(_), Outcome::Commands(commands)) => match h.state.loading.pair {
                            Some(p) => commands@ == load_commands(Variables { loading: p }),
                            None => false,
                        },
                        _ => false,
                    }
                },
                _ => false,
            },
        },
{
    match event {
        Event::Attached(base) => {
            *game = Some(Game { state: State::setup(base) });
            Outcome::Connected
        },
        Event::Detached => {
            *game = None;
            Outcome::Disconnected
        },
        Event::Observed(loading) => match game {
            None => Outcome::Disconnected,
            Some(g) => {
                let vars = match g.state.update(loading) {
                    Some(v) => v,
                    None => return Outcome::Unreadable,
                };
                let mut commands: Vec<TimerCommand> = Vec::new();
                handle_load(&vars, &mut commands);
                Outcome::Commands(commands)
            },
        },
    }
}

} // verus!

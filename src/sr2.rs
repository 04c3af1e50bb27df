//! Saints Row 2: load removal, progress splits, and start and reset on cutscenes.
use vstd::prelude::*;

use crate::poll::{Event, Outcome};
use crate::session::{get_current_cutscene, set_current_cutscene, SessionMemory};
use crate::text::{decode_text, lemma_text_len, token_of};
use crate::timer::{TimerCommand, TimerState};
use crate::watcher::{fresh, refreshed, Pair, Variable};

verus! {

/// The cutscene that opens a new game: the timer starts when the start flag
/// is raised while it is the last cutscene seen.
pub const START_MARKER: &'static str = "TSSP01-01.cscx";

/// The cutscene that ends a run attempt: the timer resets while it is the
/// last cutscene seen.
pub const RESET_MARKER: &'static str = "TSSP-INTRO2.cscx";

/// The value of the start flag once a new game has begun.
pub const START_FLAG_RAISED: i32 = 1;

/// The completion percentage of a finished game.
pub const FULL_COMPLETION: i32 = 100;

/// The number of progress counters that are watched.
pub const PROGRESS_COUNTERS: usize = 21;

/// The index of each progress counter in `State::progress` and
/// `Variables::progress`.
pub const MISSIONS: usize = 0;
pub const STRONGHOLDS: usize = 1;
pub const TAGS: usize = 2;
pub const CDS: usize = 3;
pub const JUMPS: usize = 4;
pub const BARNSTORMING: usize = 5;
pub const CHOP_SHOP: usize = 6;
pub const CROWD_CONTROL: usize = 7;
pub const DERBY: usize = 8;
pub const ESCORT: usize = 9;
pub const FIGHT_CLUB: usize = 10;
pub const FUZZ: usize = 11;
pub const HELI_ASSAULT: usize = 12;
pub const HITMAN: usize = 13;
pub const FRAUD: usize = 14;
pub const MAYHEM: usize = 15;
pub const RACES: usize = 16;
pub const SEPTIC: usize = 17;
pub const SNATCH: usize = 18;
pub const TRAFFICKING: usize = 19;
pub const TRAIL_BLAZING: usize = 20;

/// Every watched value of one game process.
pub struct State {
    /// The name of the cutscene playing; it may be unreadable at times.
    pub cutscene: Variable<[u8; 255]>,
    pub start_flag: Variable<i32>,
    pub completion: Variable<i32>,
    pub cutscene_load: Variable<i32>,
    pub save_load: Variable<i8>,
    /// The progress counters, at the indices `MISSIONS` to `TRAIL_BLAZING`.
    pub progress: Vec<Variable<i32>>,
}

/// The outcome of reading each watched value once: `None` where a read failed.
pub struct Readings {
    pub cutscene: Option<[u8; 255]>,
    pub start_flag: Option<i32>,
    pub completion: Option<i32>,
    pub cutscene_load: Option<i32>,
    pub save_load: Option<i8>,
    pub progress: Vec<Option<i32>>,
}

/// The pairs of one tick. The cutscene is `None` where it could not be read
/// this tick.
pub struct Variables {
    pub cutscene: Option<Pair<[u8; 255]>>,
    pub start_flag: Pair<i32>,
    pub completion: Pair<i32>,
    pub cutscene_load: Pair<i32>,
    pub save_load: Pair<i8>,
    pub progress: Vec<Pair<i32>>,
}

/// Every required value was read, for each of `n` progress counters.
pub open spec fn all_required_read(r: Readings, n: nat) -> bool {
    &&& r.start_flag is Some
    &&& r.completion is Some
    &&& r.cutscene_load is Some
    &&& r.save_load is Some
    &&& r.progress.len() == n
    &&& forall|i: int| 0 <= i < n ==> (#[trigger] r.progress@[i]) is Some
}

/// `v` holds the pairs of `s` after a refresh in which the cutscene read gave
/// `cutscene`.
pub open spec fn observed(v: Variables, s: State, cutscene: Option<[u8; 255]>) -> bool {
    &&& v.cutscene == (if cutscene is Some { s.cutscene.pair } else { None })
    &&& s.start_flag.pair == Some(v.start_flag)
    &&& s.completion.pair == Some(v.completion)
    &&& s.cutscene_load.pair == Some(v.cutscene_load)
    &&& s.save_load.pair == Some(v.save_load)
    &&& v.progress.len() == s.progress.len()
    &&& forall|i: int|
        0 <= i < v.progress.len() ==> s.progress@[i].pair == Some(#[trigger] v.progress@[i])
}

/// A counter went up by exactly one.
pub open spec fn stepped_up(p: Pair<i32>) -> bool {
    p.current as int == p.old as int + 1
}

/// The completion percentage has just become full.
pub open spec fn completed(p: Pair<i32>) -> bool {
    p.current == FULL_COMPLETION && p.current != p.old
}

/// The start flag has just been raised.
pub open spec fn flag_raised(p: Pair<i32>) -> bool {
    p.current == START_FLAG_RAISED && p.current != p.old
}

/// The game is loading: a cutscene or a save is being loaded.
pub open spec fn is_loading(v: Variables) -> bool {
    v.cutscene_load.current == 0 || v.save_load.current == 0
}

/// Pause game time while loading, resume it otherwise.
pub open spec fn load_commands(v: Variables) -> Seq<TimerCommand> {
    if is_loading(v) {
        seq![TimerCommand::PauseGameTime]
    } else {
        seq![TimerCommand::ResumeGameTime]
    }
}

/// One split where any counter went up by exactly one, and one more where
/// the game has just been completed.
pub open spec fn split_commands(v: Variables) -> Seq<TimerCommand> {
    let progress = if exists|i: int| 0 <= i < v.progress.len() && stepped_up(#[trigger] v.progress@[i]) {
        seq![TimerCommand::Split]
    } else {
        Seq::empty()
    };
    let completion = if completed(v.completion) {
        seq![TimerCommand::Split]
    } else {
        Seq::empty()
    };
    progress + completion
}

/// A start where the start flag has just been raised while the opening
/// cutscene is the last one seen.
pub open spec fn start_commands(v: Variables, token: Seq<char>) -> Seq<TimerCommand> {
    if token == START_MARKER@ && flag_raised(v.start_flag) {
        seq![TimerCommand::Start]
    } else {
        Seq::empty()
    }
}

/// A reset while the closing cutscene is the last one seen.
pub open spec fn reset_commands(token: Seq<char>) -> Seq<TimerCommand> {
    if token == RESET_MARKER@ {
        seq![TimerCommand::Reset]
    } else {
        Seq::empty()
    }
}

/// The commands of one observed tick: the load state always, the splits and
/// the reset while the timer runs, the start while it does not.
pub open spec fn tick_commands(v: Variables, token: Seq<char>, timer: TimerState) -> Seq<TimerCommand> {
    load_commands(v) + (if timer == TimerState::Running {
        split_commands(v)
    } else {
        Seq::empty()
    }) + (if timer == TimerState::NotRunning {
        start_commands(v, token)
    } else {
        Seq::empty()
    }) + (if timer == TimerState::Running {
        reset_commands(token)
    } else {
        Seq::empty()
    })
}

/// The token kept after a tick whose cutscene pair is `cutscene`: the text
/// read this tick where there is some, else the token kept before.
pub open spec fn next_token(token: Seq<char>, cutscene: Option<Pair<[u8; 255]>>) -> Seq<char> {
    match cutscene {
        Some(p) => match token_of(p.current@) {
            Some(t) => if t.len() > 0 { t } else { token },
            None => token,
        },
        None => token,
    }
}

/// The offset from the module's base of each progress counter, by index:
/// `progress_offsets()[MISSIONS]` is the missions counter's, and so on.
pub open spec fn progress_offsets() -> Seq<u32> {
    seq![
        0x1053384u32,
        0x10533C8u32,
        0x10535E8u32,
        0x27C7150u32,
        0x10535A4u32,
        0x1053670u32,
        0x10536B4u32,
        0x10537C4u32,
        0x1053890u32,
        0x10539A0u32,
        0x1053A28u32,
        0x1053AB0u32,
        0x1053B38u32,
        0x10536F8u32,
        0x1053D14u32,
        0x1053E68u32,
        0x1055760u32,
        0x1053F34u32,
        0x1054000u32,
        0x1053918u32,
        0x1053C04u32,
    ]
}

/// Every watcher of `s` is set up at `base` with nothing observed yet, at
/// its own offset, and there is one for each progress counter.
pub open spec fn state_fresh(s: State, base: u64) -> bool {
    &&& fresh(s.cutscene, base)
    &&& fresh(s.start_flag, base)
    &&& fresh(s.completion, base)
    &&& fresh(s.cutscene_load, base)
    &&& fresh(s.save_load, base)
    &&& s.cutscene.address_path@ == seq![0x02127D10u32, 0x4u32, 0x0u32]
    &&& s.start_flag.address_path@ == seq![0x1F870A0u32]
    &&& s.completion.address_path@ == seq![0x1052C58u32]
    &&& s.cutscene_load.address_path@ == seq![0xA9D670u32]
    &&& s.save_load.address_path@ == seq![0xA8EB88u32]
    &&& s.progress.len() == PROGRESS_COUNTERS
    &&& forall|i: int| 0 <= i < s.progress.len() ==> fresh(#[trigger] s.progress@[i], base)
    &&& forall|i: int|
        0 <= i < s.progress.len() ==> (#[trigger] s.progress@[i]).address_path@ == seq![
            progress_offsets()[i],
        ]
}

/// What a refresh with `readings` does to the watchers: the cutscene moves on
/// with its own read; the required values all move on where every one of
/// them was read, and none of them does otherwise.
pub open spec fn state_refreshed(before: State, after: State, readings: Readings) -> bool {
    let ok = all_required_read(readings, before.progress.len() as nat);
    &&& refreshed(before.cutscene, after.cutscene, readings.cutscene)
    &&& refreshed(before.start_flag, after.start_flag, if ok { readings.start_flag } else { None })
    &&& refreshed(before.completion, after.completion, if ok { readings.completion } else { None })
    &&& refreshed(before.cutscene_load, after.cutscene_load, if ok { readings.cutscene_load } else { None })
    &&& refreshed(before.save_load, after.save_load, if ok { readings.save_load } else { None })
    &&& after.progress.len() == before.progress.len()
    &&& forall|i: int|
        0 <= i < before.progress.len() ==> refreshed(
            before.progress@[i],
            #[trigger] after.progress@[i],
            if ok { readings.progress@[i] } else { None },
        )
}

impl State {
    /// The watchers of a process whose module lies at `base_address`.
    pub fn setup(base_address: u64) -> (r: State)
        ensures
            state_fresh(r, base_address),
    {
        let offsets: Vec<u32> = vec![
            0x1053384, 0x10533C8, 0x10535E8, 0x27C7150, 0x10535A4, 0x1053670, 0x10536B4,
            0x10537C4, 0x1053890, 0x10539A0, 0x1053A28, 0x1053AB0, 0x1053B38, 0x10536F8,
            0x1053D14, 0x1053E68, 0x1055760, 0x1053F34, 0x1054000, 0x1053918, 0x1053C04,
        ];
        assert(offsets@ =~= progress_offsets());
        let mut progress: Vec<Variable<i32>> = Vec::new();
        let mut i: usize = 0;
        while i < offsets.len()
            invariant
                offsets.len() == PROGRESS_COUNTERS,
                i <= offsets.len(),
                offsets@ == progress_offsets(),
                progress.len() == i,
                forall|j: int| 0 <= j < i ==> fresh(#[trigger] progress@[j], base_address),
                forall|j: int|
                    0 <= j < i ==> (#[trigger] progress@[j]).address_path@ == seq![
                        progress_offsets()[j],
                    ],
            decreases offsets.len() - i,
        {
            let path = vec![offsets[i]];
            assert(path@ =~= seq![progress_offsets()[i as int]]);
            progress.push(Variable::new(base_address, path));
            i = i + 1;
        }
        let cutscene_path: Vec<u32> = vec![0x02127D10, 0x4, 0x0];
        let start_flag_path: Vec<u32> = vec![0x1F870A0];
        let completion_path: Vec<u32> = vec![0x1052C58];
        let cutscene_load_path: Vec<u32> = vec![0xA9D670];
        let save_load_path: Vec<u32> = vec![0xA8EB88];
        assert(cutscene_path@ =~= seq![0x02127D10u32, 0x4u32, 0x0u32]);
        assert(start_flag_path@ =~= seq![0x1F870A0u32]);
        assert(completion_path@ =~= seq![0x1052C58u32]);
        assert(cutscene_load_path@ =~= seq![0xA9D670u32]);
        assert(save_load_path@ =~= seq![0xA8EB88u32]);
        State {
            cutscene: Variable::new(base_address, cutscene_path),
            start_flag: Variable::new(base_address, start_flag_path),
            completion: Variable::new(base_address, completion_path),
            cutscene_load: Variable::new(base_address, cutscene_load_path),
            save_load: Variable::new(base_address, save_load_path),
            progress,
        }
    }

    /// Refreshes every watcher from one tick's reads. Returns the tick's pairs
    /// where every required value was read, and `None` otherwise; a missing
    /// cutscene is no failure.
    pub fn update(&mut self, readings: &Readings) -> (r: Option<Variables>)
        ensures
            state_refreshed(*old(self), *final(self), *readings),
            r is Some <==> all_required_read(*readings, old(self).progress.len() as nat),
            r matches Some(v) ==> observed(v, *final(self), readings.cutscene),
    {
        let cutscene = self.cutscene.update(readings.cutscene);
        if !readings.complete(self.progress.len()) {
            return None;
        }
        let start_flag = match self.start_flag.update(readings.start_flag) {
            Some(p) => p,
            None => return None,
        };
        let completion = match self.completion.update(readings.completion) {
            Some(p) => p,
            None => return None,
        };
        let cutscene_load = match self.cutscene_load.update(readings.cutscene_load) {
            Some(p) => p,
            None => return None,
        };
        let save_load = match self.save_load.update(readings.save_load) {
            Some(p) => p,
            None => return None,
        };
        let progress = refresh_all(&mut self.progress, &readings.progress);
        Some(Variables { cutscene, start_flag, completion, cutscene_load, save_load, progress })
    }
}

impl Readings {
    /// Every required value was read, for each of `n` progress counters.
    pub fn complete(&self, n: usize) -> (r: bool)
        ensures
            r == all_required_read(*self, n as nat),
    {
        if self.start_flag.is_none() || self.completion.is_none() || self.cutscene_load.is_none()
            || self.save_load.is_none() || self.progress.len() != n {
            return false;
        }
        let mut i: usize = 0;
        while i < n
            invariant
                n == self.progress.len(),
                i <= n,
                forall|j: int| 0 <= j < i ==> (#[trigger] self.progress@[j]) is Some,
            decreases n - i,
        {
            if self.progress[i].is_none() {
                return false;
            }
            i = i + 1;
        }
        true
    }
}

/// Refreshes each watcher with the read of the same index, all of which
/// succeeded, and returns the new pairs.
fn refresh_all(watchers: &mut Vec<Variable<i32>>, reads: &Vec<Option<i32>>) -> (r: Vec<Pair<i32>>)
    requires
        reads.len() == old(watchers).len(),
        forall|j: int| 0 <= j < reads.len() ==> (#[trigger] reads@[j]) is Some,
    ensures
        final(watchers).len() == old(watchers).len(),
        r.len() == old(watchers).len(),
        forall|j: int|
            0 <= j < reads.len() ==> refreshed(old(watchers)@[j], #[trigger] final(watchers)@[j], reads@[j]),
        forall|j: int| 0 <= j < r.len() ==> final(watchers)@[j].pair == Some(#[trigger] r@[j]),
{
    let n = watchers.len();
    let ghost before = watchers@;
    let mut pairs: Vec<Pair<i32>> = Vec::new();
    let mut k: usize = 0;
    while k < n
        invariant
            n == watchers.len(),
            n == before.len(),
            n == reads.len(),
            before == old(watchers)@,
            k <= n,
            pairs.len() == k,
            forall|j: int| 0 <= j < n ==> (#[trigger] reads@[j]) is Some,
            forall|j: int| 0 <= j < k ==> refreshed(before[j], #[trigger] watchers@[j], reads@[j]),
            forall|j: int| 0 <= j < k ==> watchers@[j].pair == Some(#[trigger] pairs@[j]),
            forall|j: int| k <= j < n ==> #[trigger] watchers@[j] == before[j],
        decreases n - k,
    {
        let p = match watchers[k].update(reads[k]) {
            Some(p) => p,
            None => return pairs,
        };
        pairs.push(p);
        k = k + 1;
    }
    pairs
}

impl Variables {
    /// The text before the first NUL of `var`, or `None` where it is not
    /// valid UTF-8.
    pub fn get_as_string<'a>(var: &'a [u8]) -> (r: Option<&'a str>)
        ensures
            match r {
                Some(s) => token_of(var@) == Some(s@),
                None => token_of(var@) is None,
            },
    {
        let mut n: usize = 0;
        while n < var.len() && var[n] != 0
            invariant
                0 <= n <= var@.len(),
                forall|j: int| 0 <= j < n ==> var@[j] != 0,
            decreases var@.len() - n,
        {
            n = n + 1;
        }
        proof {
            lemma_text_len(var@, n as int);
        }
        let text = vstd::slice::slice_subrange(var, 0, n);
        assert(text@ == var@.take(n as int));
        decode_text(text)
    }
}

/// Pauses game time while the game loads and resumes it otherwise.
pub fn handle_load(vars: &Variables, commands: &mut Vec<TimerCommand>)
    ensures
        final(commands)@ == old(commands)@ + load_commands(*vars),
{
    if vars.cutscene_load.current == 0 || vars.save_load.current == 0 {
        commands.push(TimerCommand::PauseGameTime);
    } else {
        commands.push(TimerCommand::ResumeGameTime);
    }
}

/// Splits once where any progress counter went up by exactly one, and once
/// more where the game has just been completed.
pub fn handle_split(vars: &Variables, commands: &mut Vec<TimerCommand>)
    ensures
        final(commands)@ == old(commands)@ + split_commands(*vars),
{
    let mut stepped = false;
    let mut i: usize = 0;
    while i < vars.progress.len()
        invariant
            i <= vars.progress.len(),
            stepped == exists|j: int| 0 <= j < i && stepped_up(#[trigger] vars.progress@[j]),
        decreases vars.progress.len() - i,
    {
        let p = vars.progress[i];
        if p.current as i64 == p.old as i64 + 1 {
            stepped = true;
        }
        i = i + 1;
    }
    if stepped {
        commands.push(TimerCommand::Split);
    }
    if vars.completion.current == FULL_COMPLETION && vars.completion.current != vars.completion.old {
        commands.push(TimerCommand::Split);
    }
    assert(final(commands)@ =~= old(commands)@ + split_commands(*vars));
}

/// Starts the timer where the start flag has just been raised while the
/// opening cutscene is the last one seen.
pub fn handle_start(vars: &Variables, memory: &mut SessionMemory, commands: &mut Vec<TimerCommand>)
    ensures
        final(memory).token() == old(memory).token(),
        final(commands)@ == old(commands)@ + start_commands(*vars, old(memory).token()),
{
    let cutscene = get_current_cutscene(memory);
    if cutscene == START_MARKER.to_owned() {
        if vars.start_flag.current == START_FLAG_RAISED && vars.start_flag.current != vars.start_flag.old {
            commands.push(TimerCommand::Start);
        }
    }
    assert(final(commands)@ =~= old(commands)@ + start_commands(*vars, old(memory).token()));
}

/// Resets the timer while the closing cutscene is the last one seen.
pub fn handle_reset(memory: &mut SessionMemory, commands: &mut Vec<TimerCommand>)
    ensures
        final(memory).token() == old(memory).token(),
        final(commands)@ == old(commands)@ + reset_commands(old(memory).token()),
{
    let cutscene = get_current_cutscene(memory);
    if cutscene == RESET_MARKER.to_owned() {
        commands.push(TimerCommand::Reset);
    }
    assert(final(commands)@ =~= old(commands)@ + reset_commands(old(memory).token()));
}

/// What a connection holds: the watchers of the attached process and the
/// session's memory.
pub struct Game {
    pub state: State,
    pub memory: SessionMemory,
}

/// Keeps the cutscene text of this tick where it could be read and is not
/// empty.
fn remember_cutscene(vars: &Variables, memory: &mut SessionMemory)
    ensures
        final(memory).token() == next_token(old(memory).token(), vars.cutscene),
{
    if let Some(cutscene) = vars.cutscene {
        if let Some(text) = Variables::get_as_string(cutscene.current.as_slice()) {
            if !text.is_empty() {
                set_current_cutscene(memory, text.to_owned());
            }
        }
    }
}

/// One tick. An attached process gets fresh watchers and memory; a lost one
/// drops the connection. Where the process is alive, the watchers are
/// refreshed from its reads; where a required value could not be read the
/// tick ends there, and otherwise the cutscene is remembered and the rules
/// give the timer's commands.
pub fn update(game: &mut Option<Game>, event: Event<Readings>, timer: TimerState) -> (r: Outcome)
    ensures
        match event {
            Event::Attached(base) => r is Connected && match *final(game) {
                Some(g) => state_fresh(g.state, base) && g.memory.token() == Seq::<char>::empty(),
                None => false,
            },
            Event::Detached => r is Disconnected && *final(game) is None,
            Event::Observed(readings) => match (*old(game), *final(game)) {
                (None, None) => r is Disconnected,
                (Some(g), Some(h)) => {
                    &&& state_refreshed(g.state, h.state, readings)
                    &&& if all_required_read(readings, g.state.progress.len() as nat) {
                        match r {
                            Outcome::Commands(commands) => exists|v: Variables|
                                {
                                    &&& #[trigger] observed(v, h.state, readings.cutscene)
                                    &&& h.memory.token() == next_token(g.memory.token(), v.cutscene)
                                    &&& commands@ == tick_commands(v, h.memory.token(), timer)
                                },
                            _ => false,
                        }
                    } else {
                        r is Unreadable && h.memory.token() == g.memory.token()
                    }
                },
                _ => false,
            },
        },
{
    match event {
        Event::Attached(base) => {
            *game = Some(Game { state: State::setup(base), memory: SessionMemory::new() });
            Outcome::Connected
        },
        Event::Detached => {
            *game = None;
            Outcome::Disconnected
        },
        Event::Observed(readings) => match game {
            None => Outcome::Disconnected,
            Some(g) => {
                let vars = match g.state.update(&readings) {
                    Some(v) => v,
                    None => return Outcome::Unreadable,
                };
                remember_cutscene(&vars, &mut g.memory);
                let mut commands: Vec<TimerCommand> = Vec::new();
                handle_load(&vars, &mut commands);
                if timer == TimerState::Running {
                    handle_split(&vars, &mut commands);
                }
                if timer == TimerState::NotRunning {
                    handle_start(&vars, &mut g.memory, &mut commands);
                }
                if timer == TimerState::Running {
                    handle_reset(&mut g.memory, &mut commands);
                }
                assert(commands@ =~= tick_commands(vars, g.memory.token(), timer));
                Outcome::Commands(commands)
            },
        },
    }
}

/// A counter splits only on a step of exactly one: not on a jump of two or
/// more, not on a decrease, not where it stays.
pub proof fn law_split_on_single_step(old_count: i32, new_count: i32)
    ensures
        stepped_up(Pair { old: old_count, current: new_count }) <==> new_count as int
            == old_count as int + 1,
        new_count as int >= old_count as int + 2 ==> !stepped_up(
            Pair { old: old_count, current: new_count },
        ),
        new_count <= old_count ==> !stepped_up(Pair { old: old_count, current: new_count }),
{
}

/// A completion percentage that stays where it was gives no split, full or
/// not; one that has just become full does.
pub proof fn law_completion_split_once(before: i32, after: i32)
    ensures
        !completed(Pair { old: after, current: after }),
        completed(Pair { old: before, current: after }) <==> (after == FULL_COMPLETION && before
            != FULL_COMPLETION),
{
}

/// The start is edge-triggered: a start flag that was already raised on the
/// tick before starts nothing, whatever the last cutscene.
pub proof fn law_start_on_raise_only(v: Variables, token: Seq<char>)
    requires
        v.start_flag.old == v.start_flag.current,
    ensures
        start_commands(v, token) == Seq::<TimerCommand>::empty(),
{
}

/// While the timer runs and the closing cutscene is the last one seen, every
/// observed tick ends with a reset.
pub proof fn law_reset_every_running_tick(v: Variables, token: Seq<char>)
    requires
        token == RESET_MARKER@,
    ensures
        tick_commands(v, token, TimerState::Running).last() == TimerCommand::Reset,
{
}

/// The watchers that `State::setup` gives each read a path of their own: no
/// two of the 26 paths are the same.
pub proof fn law_setup_paths_distinct(s: State, base: u64)
    requires
        state_fresh(s, base),
    ensures
        forall|i: int, j: int|
            0 <= i < j < s.progress.len() ==> (#[trigger] s.progress@[i]).address_path@
                != (#[trigger] s.progress@[j]).address_path@,
        forall|i: int|
            0 <= i < s.progress.len() ==> {
                let p = (#[trigger] s.progress@[i]).address_path@;
                &&& p != s.cutscene.address_path@
                &&& p != s.start_flag.address_path@
                &&& p != s.completion.address_path@
                &&& p != s.cutscene_load.address_path@
                &&& p != s.save_load.address_path@
            },
        s.cutscene.address_path@ != s.start_flag.address_path@,
        s.cutscene.address_path@ != s.completion.address_path@,
        s.cutscene.address_path@ != s.cutscene_load.address_path@,
        s.cutscene.address_path@ != s.save_load.address_path@,
        s.start_flag.address_path@ != s.completion.address_path@,
        s.start_flag.address_path@ != s.cutscene_load.address_path@,
        s.start_flag.address_path@ != s.save_load.address_path@,
        s.completion.address_path@ != s.cutscene_load.address_path@,
        s.completion.address_path@ != s.save_load.address_path@,
        s.cutscene_load.address_path@ != s.save_load.address_path@,
{
    assert forall|i: int, j: int|
        0 <= i < j < s.progress.len() implies (#[trigger] s.progress@[i]).address_path@
            != (#[trigger] s.progress@[j]).address_path@ by {
        assert(s.progress@[i].address_path@[0] != s.progress@[j].address_path@[0]);
    }
    assert forall|i: int| 0 <= i < s.progress.len() implies {
        let p = (#[trigger] s.progress@[i]).address_path@;
        &&& p != s.cutscene.address_path@
        &&& p != s.start_flag.address_path@
        &&& p != s.completion.address_path@
        &&& p != s.cutscene_load.address_path@
        &&& p != s.save_load.address_path@
    } by {
        let p = s.progress@[i].address_path@;
        assert(p.len() == 1);
        assert(p[0] != 0x1F870A0u32 && p[0] != 0x1052C58u32 && p[0] != 0xA9D670u32 && p[0] != 0xA8EB88u32);
        assert(s.start_flag.address_path@[0] == 0x1F870A0u32);
        assert(s.completion.address_path@[0] == 0x1052C58u32);
        assert(s.cutscene_load.address_path@[0] == 0xA9D670u32);
        assert(s.save_load.address_path@[0] == 0xA8EB88u32);
    }
    assert(s.start_flag.address_path@[0] != s.completion.address_path@[0]);
    assert(s.start_flag.address_path@[0] != s.cutscene_load.address_path@[0]);
    assert(s.start_flag.address_path@[0] != s.save_load.address_path@[0]);
    assert(s.completion.address_path@[0] != s.cutscene_load.address_path@[0]);
    assert(s.completion.address_path@[0] != s.save_load.address_path@[0]);
    assert(s.cutscene_load.address_path@[0] != s.save_load.address_path@[0]);
}

} // verus!

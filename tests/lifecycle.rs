use autosplit::p4g;
use autosplit::poll::{Event, Outcome};
use autosplit::session::get_current_cutscene;
use autosplit::sr2::{
    self, Readings, State, BARNSTORMING, CDS, CHOP_SHOP, CROWD_CONTROL, DERBY, ESCORT, FIGHT_CLUB,
    FRAUD, FUZZ, HELI_ASSAULT, HITMAN, JUMPS, MAYHEM, MISSIONS, PROGRESS_COUNTERS, RACES, SEPTIC,
    SNATCH, STRONGHOLDS, TAGS, TRAFFICKING, TRAIL_BLAZING,
};
use autosplit::timer::{TimerCommand, TimerState};

const BASE: u64 = 0x0040_0000;

fn token_buffer(text: &str) -> [u8; 255] {
    let mut buf = [0u8; 255];
    buf[..text.len()].copy_from_slice(text.as_bytes());
    buf
}

fn readings(cutscene: Option<&str>, start_flag: i32, completion: i32, counter: i32) -> Readings {
    let mut progress = vec![Some(0); PROGRESS_COUNTERS];
    progress[0] = Some(counter);
    Readings {
        cutscene: cutscene.map(token_buffer),
        start_flag: Some(start_flag),
        completion: Some(completion),
        cutscene_load: Some(1),
        save_load: Some(1),
        progress,
    }
}

#[test]
fn p4g_attach_then_not_loading_only_resumes() {
    let mut game: Option<p4g::Game> = None;
    assert_eq!(p4g::update(&mut game, Event::Attached(BASE)), Outcome::Connected);
    assert!(game.is_some());
    let out = p4g::update(&mut game, Event::Observed(Some(1)));
    assert_eq!(out, Outcome::Commands(vec![TimerCommand::ResumeGameTime]));
}

#[test]
fn p4g_loading_pauses() {
    let mut game: Option<p4g::Game> = None;
    p4g::update(&mut game, Event::Attached(BASE));
    let out = p4g::update(&mut game, Event::Observed(Some(0)));
    assert_eq!(out, Outcome::Commands(vec![TimerCommand::PauseGameTime]));
    let out = p4g::update(&mut game, Event::Observed(Some(2)));
    assert_eq!(out, Outcome::Commands(vec![TimerCommand::PauseGameTime]));
}

#[test]
fn p4g_unreadable_indicator_issues_nothing() {
    let mut game: Option<p4g::Game> = None;
    p4g::update(&mut game, Event::Attached(BASE));
    p4g::update(&mut game, Event::Observed(Some(0)));
    assert_eq!(p4g::update(&mut game, Event::Observed(None)), Outcome::Unreadable);
    let pair = game.as_ref().unwrap().state.loading.pair.unwrap();
    assert_eq!((pair.old, pair.current), (0, 0));
}

#[test]
fn p4g_lost_process_tears_down_and_reattaches() {
    let mut game: Option<p4g::Game> = None;
    p4g::update(&mut game, Event::Attached(BASE));
    p4g::update(&mut game, Event::Observed(Some(0)));
    assert_eq!(p4g::update(&mut game, Event::Detached), Outcome::Disconnected);
    assert!(game.is_none());
    assert_eq!(p4g::update(&mut game, Event::Observed(Some(1))), Outcome::Disconnected);
    assert!(game.is_none());
    assert_eq!(p4g::update(&mut game, Event::Attached(BASE)), Outcome::Connected);
    assert!(game.as_ref().unwrap().state.loading.pair.is_none());
}

#[test]
fn sr2_attach_sets_up_fresh_watchers() {
    let mut game: Option<sr2::Game> = None;
    assert_eq!(sr2::update(&mut game, Event::Attached(BASE), TimerState::NotRunning), Outcome::Connected);
    let g = game.as_mut().unwrap();
    assert_eq!(g.state.progress.len(), PROGRESS_COUNTERS);
    assert!(g.state.start_flag.pair.is_none());
    assert_eq!(g.state.cutscene.address_path, vec![0x02127D10, 0x4, 0x0]);
    assert_eq!(g.state.start_flag.base_address, BASE);
    assert_eq!(get_current_cutscene(&mut g.memory), "");
}

#[test]
fn sr2_not_loading_and_not_running_only_resumes() {
    let mut game: Option<sr2::Game> = None;
    sr2::update(&mut game, Event::Attached(BASE), TimerState::NotRunning);
    let out = sr2::update(&mut game, Event::Observed(readings(None, 0, 0, 0)), TimerState::NotRunning);
    assert_eq!(out, Outcome::Commands(vec![TimerCommand::ResumeGameTime]));
}

#[test]
fn sr2_start_after_opening_cutscene_and_raised_flag() {
    let mut game: Option<sr2::Game> = None;
    sr2::update(&mut game, Event::Attached(BASE), TimerState::NotRunning);
    let out = sr2::update(&mut game, Event::Observed(readings(Some("TSSP01-01.cscx"), 0, 0, 0)), TimerState::NotRunning);
    assert_eq!(out, Outcome::Commands(vec![TimerCommand::ResumeGameTime]));
    // the cutscene buffer empties; the remembered token stays
    let out = sr2::update(&mut game, Event::Observed(readings(Some(""), 1, 0, 0)), TimerState::NotRunning);
    assert_eq!(out, Outcome::Commands(vec![TimerCommand::ResumeGameTime, TimerCommand::Start]));
    let out = sr2::update(&mut game, Event::Observed(readings(None, 1, 0, 0)), TimerState::NotRunning);
    assert_eq!(out, Outcome::Commands(vec![TimerCommand::ResumeGameTime]));
}

#[test]
fn sr2_running_splits_and_resets() {
    let mut game: Option<sr2::Game> = None;
    sr2::update(&mut game, Event::Attached(BASE), TimerState::Running);
    sr2::update(&mut game, Event::Observed(readings(None, 1, 99, 4)), TimerState::Running);
    let out = sr2::update(&mut game, Event::Observed(readings(None, 1, 100, 5)), TimerState::Running);
    assert_eq!(out, Outcome::Commands(vec![TimerCommand::ResumeGameTime, TimerCommand::Split, TimerCommand::Split]));
    let out = sr2::update(&mut game, Event::Observed(readings(Some("TSSP-INTRO2.cscx"), 1, 100, 5)), TimerState::Running);
    assert_eq!(out, Outcome::Commands(vec![TimerCommand::ResumeGameTime, TimerCommand::Reset]));
    let out = sr2::update(&mut game, Event::Observed(readings(None, 1, 100, 5)), TimerState::Running);
    assert_eq!(out, Outcome::Commands(vec![TimerCommand::ResumeGameTime, TimerCommand::Reset]));
}

#[test]
fn sr2_unreadable_required_value_discards_the_tick() {
    let mut game: Option<sr2::Game> = None;
    sr2::update(&mut game, Event::Attached(BASE), TimerState::Running);
    sr2::update(&mut game, Event::Observed(readings(None, 0, 0, 4)), TimerState::Running);
    let mut r = readings(Some("TSSP-INTRO2.cscx"), 0, 0, 5);
    r.progress[3] = None;
    assert_eq!(sr2::update(&mut game, Event::Observed(r), TimerState::Running), Outcome::Unreadable);
    let g = game.as_mut().unwrap();
    let p = g.state.progress[0].pair.unwrap();
    assert_eq!((p.old, p.current), (4, 4));
    assert_eq!(get_current_cutscene(&mut g.memory), "");
    // the step from 4 to 5 is still seen on the next readable tick
    let out = sr2::update(&mut game, Event::Observed(readings(None, 0, 0, 5)), TimerState::Running);
    assert_eq!(out, Outcome::Commands(vec![TimerCommand::ResumeGameTime, TimerCommand::Split]));
}

#[test]
fn sr2_wrong_number_of_counter_reads_is_unreadable() {
    let mut game: Option<sr2::Game> = None;
    sr2::update(&mut game, Event::Attached(BASE), TimerState::Running);
    let mut r = readings(None, 0, 0, 0);
    r.progress.pop();
    assert_eq!(sr2::update(&mut game, Event::Observed(r), TimerState::Running), Outcome::Unreadable);
}

#[test]
fn sr2_invalid_cutscene_text_is_ignored() {
    let mut game: Option<sr2::Game> = None;
    sr2::update(&mut game, Event::Attached(BASE), TimerState::Running);
    sr2::update(&mut game, Event::Observed(readings(Some("A.cscx"), 0, 0, 0)), TimerState::Running);
    let mut r = readings(None, 0, 0, 0);
    let mut buf = token_buffer("TSSP-INTRO2.cscx");
    buf[1] = 0xFF;
    r.cutscene = Some(buf);
    let out = sr2::update(&mut game, Event::Observed(r), TimerState::Running);
    assert_eq!(out, Outcome::Commands(vec![TimerCommand::ResumeGameTime]));
    assert_eq!(get_current_cutscene(&mut game.as_mut().unwrap().memory), "A.cscx");
}

#[test]
fn sr2_lost_process_tears_down_and_reattaches() {
    let mut game: Option<sr2::Game> = None;
    sr2::update(&mut game, Event::Attached(BASE), TimerState::Running);
    sr2::update(&mut game, Event::Observed(readings(Some("TSSP-INTRO2.cscx"), 0, 0, 0)), TimerState::Running);
    assert_eq!(sr2::update(&mut game, Event::Detached, TimerState::Running), Outcome::Disconnected);
    assert!(game.is_none());
    assert_eq!(sr2::update(&mut game, Event::Detached, TimerState::Running), Outcome::Disconnected);
    assert_eq!(sr2::update(&mut game, Event::Attached(BASE), TimerState::Running), Outcome::Connected);
    let out = sr2::update(&mut game, Event::Observed(readings(None, 0, 0, 0)), TimerState::Running);
    assert_eq!(out, Outcome::Commands(vec![TimerCommand::ResumeGameTime]));
}

#[test]
fn sr2_setup_reads_each_value_at_its_offset() {
    let s = State::setup(BASE);
    assert_eq!(s.cutscene.address_path, vec![0x02127D10, 0x4, 0x0]);
    assert_eq!(s.start_flag.address_path, vec![0x1F870A0]);
    assert_eq!(s.completion.address_path, vec![0x1052C58]);
    assert_eq!(s.cutscene_load.address_path, vec![0xA9D670]);
    assert_eq!(s.save_load.address_path, vec![0xA8EB88]);
    let expected = [
        (MISSIONS, 0x1053384),
        (STRONGHOLDS, 0x10533C8),
        (TAGS, 0x10535E8),
        (CDS, 0x27C7150),
        (JUMPS, 0x10535A4),
        (BARNSTORMING, 0x1053670),
        (CHOP_SHOP, 0x10536B4),
        (CROWD_CONTROL, 0x10537C4),
        (DERBY, 0x1053890),
        (ESCORT, 0x10539A0),
        (FIGHT_CLUB, 0x1053A28),
        (FUZZ, 0x1053AB0),
        (HELI_ASSAULT, 0x1053B38),
        (HITMAN, 0x10536F8),
        (FRAUD, 0x1053D14),
        (MAYHEM, 0x1053E68),
        (RACES, 0x1055760),
        (SEPTIC, 0x1053F34),
        (SNATCH, 0x1054000),
        (TRAFFICKING, 0x1053918),
        (TRAIL_BLAZING, 0x1053C04),
    ];
    assert_eq!(s.progress.len(), expected.len());
    for (index, offset) in expected {
        assert_eq!(s.progress[index].address_path, vec![offset]);
        assert_eq!(s.progress[index].base_address, BASE);
        assert!(s.progress[index].pair.is_none());
    }
}

#[test]
fn p4g_attach_watches_the_loading_indicator() {
    let mut game: Option<p4g::Game> = None;
    p4g::update(&mut game, Event::Attached(BASE));
    let loading = &game.as_ref().unwrap().state.loading;
    assert_eq!(loading.address_path, vec![0x49DC372]);
    assert_eq!(loading.base_address, BASE);
    assert!(loading.pair.is_none());
}

use std::time::{Duration, Instant};
use sulphate_runtime::clock::{Clock, ClockMethods, Simple};
use sulphate_runtime::interruption::{Effect, Interruption, Outcome};
use sulphate_runtime::server::{create_server_local, Drained, Phase, Server};
use sulphate_runtime::units::InGameTime;
use sulphate_runtime::watcher::ServerWatcher;

fn at(subunits: i128) -> InGameTime {
    InGameTime { subunits }
}

fn update(id: u32, control: char) -> Interruption<u32, char> {
    Interruption::PlayerUpdate { id, control }
}

fn apply(id: u32, control: char) -> Effect<u32, char> {
    Effect::ApplyControl { id, control }
}

/// A clock for tests that advances by one in-game second at each reading
/// and counts the calls of its hooks.
struct Stepping {
    shown: i128,
    finished: Vec<InGameTime>,
    ended: u32,
}

impl ClockMethods for Stepping {
    fn in_game(&mut self, _now: Instant) -> InGameTime {
        self.shown += 1_000_000_000;
        at(self.shown)
    }

    fn minimum_wait(&mut self, _now: InGameTime, _until: InGameTime) -> Duration {
        Duration::new(0, 0)
    }

    fn finished_cycle(&mut self, _now: Instant, in_game: InGameTime) {
        self.finished.push(in_game);
    }

    fn end_cycles(&mut self) {
        self.ended += 1;
    }
}

#[test]
fn player_update_asks_for_its_control() {
    let outcome = update(7, 'w').update();
    assert_eq!(outcome, Outcome { effect: apply(7, 'w'), stop: false });
}

#[test]
fn kill_server_stops_and_changes_nothing() {
    let outcome = Interruption::<u32, char>::KillServer.update();
    assert_eq!(outcome.effect, Effect::Nothing);
    assert!(outcome.stop);
}

#[test]
fn new_server_is_running() {
    let server = Server::new(Clock(Simple::new(at(5))), at(5));
    assert!(server.is_running());
    assert_eq!(server.in_game_time(), at(5));
    assert_eq!(server.clock().0.last_time, at(5));
}

#[test]
fn created_server_shares_its_clock() {
    let now = Instant::now();
    let (server, mut clock) = create_server_local(now);
    assert!(server.is_running());
    assert_eq!(server.in_game_time(), InGameTime::default());
    assert_eq!(clock.0.start_instant, Some(now));
    assert_eq!(clock.0.last_time, InGameTime::default());
    assert_eq!(server.clock().0.start_instant, Some(now));
    assert_eq!(server.clock().0.last_time, InGameTime::default());
    assert!(clock.in_game(now).subunits >= InGameTime::default().subunits);
    assert!(clock.in_game(Instant::now()).subunits >= InGameTime::default().subunits);
    assert_eq!(clock.in_game(now + Duration::new(1, 0)), at(1_000_000_000));
}

#[test]
fn wait_has_no_limit_without_a_scheduled_event() {
    let mut server = Server::new(Clock(Simple::new(at(0))), at(0));
    assert_eq!(server.wait_for_next(None), None);
    assert!(server.is_running());
}

#[test]
fn wait_lasts_until_the_next_event() {
    let mut server = Server::new(Clock(Simple::new(at(0))), at(250));
    assert_eq!(server.wait_for_next(Some(at(1_000_000_250))), Some(Duration::new(1, 0)));
    assert_eq!(server.wait_for_next(Some(at(251))), Some(Duration::new(0, 1)));
    assert_eq!(server.in_game_time(), at(250));
}

#[test]
fn due_event_gives_no_wait() {
    let mut server = Server::new(Clock(Simple::new(at(0))), at(250));
    assert_eq!(server.wait_for_next(Some(at(250))), Some(Duration::new(0, 0)));
    assert_eq!(server.wait_for_next(Some(at(-3))), Some(Duration::new(0, 0)));
}

#[test]
fn interruptions_take_effect_in_arrival_order() {
    let mut server = Server::new(Clock(Simple::new(at(0))), at(0));
    let pending = vec![update(1, 'a'), update(2, 'b'), update(1, 'c'), update(3, 'd')];
    let drained = server.absorb(pending, false);
    assert_eq!(
        drained,
        Drained {
            effects: vec![apply(1, 'a'), apply(2, 'b'), apply(1, 'c'), apply(3, 'd')],
            stop: false,
        }
    );
    assert!(server.is_running());
    assert_eq!(server.in_game_time(), at(0));
}

#[test]
fn empty_drain_lets_the_server_go_on() {
    let mut server = Server::new(Clock(Simple::new(at(0))), at(0));
    let drained = server.absorb(Vec::<Interruption<u32, char>>::new(), false);
    assert_eq!(drained.effects, vec![]);
    assert!(!drained.stop);
    assert!(server.is_running());
}

#[test]
fn termination_stops_the_server_naturally() {
    let mut watcher = ServerWatcher::new();
    let mut server = Server::new(Clock(Simple::new(at(0))), at(0));
    let drained = server.absorb(vec![Interruption::<u32, char>::KillServer], false);
    assert_eq!(drained.effects, vec![Effect::Nothing]);
    assert!(drained.stop);
    assert!(!server.is_running());
    watcher.mark_natural();
    assert_eq!(watcher.report(), "Server closed without panicking");
}

#[test]
fn termination_among_updates_applies_all_of_them() {
    let mut server = Server::new(Clock(Simple::new(at(0))), at(0));
    let pending = vec![update(1, 'a'), Interruption::KillServer, update(2, 'b')];
    let drained = server.absorb(pending, false);
    assert_eq!(drained.effects, vec![apply(1, 'a'), Effect::Nothing, apply(2, 'b')]);
    assert!(drained.stop);
    assert!(!server.is_running());
}

#[test]
fn lost_senders_stop_the_server_naturally() {
    let mut watcher = ServerWatcher::new();
    let mut server = Server::new(Clock(Simple::new(at(0))), at(0));
    let drained = server.absorb(vec![update(4, 'x')], true);
    assert_eq!(drained.effects, vec![apply(4, 'x')]);
    assert!(drained.stop);
    assert!(!server.is_running());
    watcher.mark_natural();
    assert!(watcher.natural);
    assert_eq!(watcher.report(), "Server closed without panicking");
}

#[test]
fn advance_reads_the_clock() {
    let t0 = Instant::now();
    let (mut server, _clock) = create_server_local(t0);
    let t1 = t0 + Duration::new(2, 7);
    assert_eq!(server.advance(t1), at(2_000_000_007));
    assert_eq!(server.in_game_time(), at(2_000_000_007));
    assert!(server.is_running());
    server.finished_cycle(t1);
    assert_eq!(server.in_game_time(), at(2_000_000_007));
    assert_eq!(
        server.wait_for_next(Some(at(3_000_000_000))),
        Some(Duration::new(0, 999_999_993))
    );
}

#[test]
fn server_runs_on_a_clock_of_another_kind() {
    let clock = Stepping { shown: 0, finished: Vec::new(), ended: 0 };
    let mut server = Server::new(clock, at(0));
    let now = Instant::now();
    assert_eq!(server.wait_for_next(Some(at(5_000_000_000))), Some(Duration::new(0, 0)));
    let drained = server.absorb(vec![update(1, 'a')], false);
    assert!(!drained.stop);
    assert_eq!(server.clock().ended, 0);
    assert_eq!(server.advance(now), at(1_000_000_000));
    server.finished_cycle(now);
    assert_eq!(server.advance(now), at(2_000_000_000));
    server.finished_cycle(now);
    assert_eq!(server.clock().finished, vec![at(1_000_000_000), at(2_000_000_000)]);
    let drained = server.absorb(vec![Interruption::<u32, char>::KillServer], false);
    assert!(drained.stop);
    assert_eq!(server.clock().ended, 1);
    assert_eq!(server.in_game_time(), at(2_000_000_000));
    assert!(!server.is_running());
}

#[test]
fn phases_are_told_apart() {
    assert_ne!(Phase::Running, Phase::Stopped);
}

#[test]
fn unmarked_watcher_reports_a_fault() {
    let watcher = ServerWatcher::new();
    assert!(!watcher.natural);
    assert_eq!(watcher.report(), "Server panicked!");
}

#[test]
fn marked_watcher_reports_a_clean_shutdown() {
    let mut watcher = ServerWatcher::new();
    watcher.mark_natural();
    assert!(watcher.natural);
    assert_eq!(watcher.report(), "Server closed without panicking");
}

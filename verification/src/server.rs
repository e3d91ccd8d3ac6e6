//! The decisions of the server's scheduling cycle.
//!
//! The server thread owns the world, the queue of scheduled events and the
//! receiving end of the interruption channel. One cycle waits for the next
//! scheduled event or an interruption, drains the interruptions that have
//! arrived, and, unless it has to stop, advances in-game time and lets the
//! queue run the events that are due. The waiting, the world and the queue
//! belong to the thread; what to wait for, what to apply and when to stop is
//! decided here.

use crate::clock::{Clock, ClockMethods, Simple};
use crate::interruption::{any_stops, effects_of, Effect, Interruption};
use crate::units::InGameTime;
use crate::wall::total_nanos;
use std::time::{Duration, Instant};
use vstd::prelude::*;

verus! {

/// Where a server stands: it runs until it is stopped, and stays stopped.
#[derive(Clone, Copy, Debug, PartialEq, Eq, Structural)]
pub enum Phase {
    Running,
    Stopped,
}

/// What one drain of the interruption channel asks of the server thread.
#[derive(Debug, PartialEq, Eq)]
pub struct Drained<Id, Control> {
    /// What to do to the world, in this order, before anything else.
    pub effects: Vec<Effect<Id, Control>>,
    /// Whether the thread returns once the effects have been applied.
    pub stop: bool,
}

/// A stop is found among the first `i + 1` interruptions of a batch if it is
/// found among the first `i` or the one after them is a stop.
proof fn stop_found_by_next<Id, Control>(batch: Seq<Interruption<Id, Control>>, i: int)
    requires
        0 <= i < batch.len(),
    ensures
        any_stops(batch.take(i + 1)) == (any_stops(batch.take(i)) || batch[i].stops()),
{
    let shorter = batch.take(i);
    let longer = batch.take(i + 1);
    if any_stops(shorter) {
        let j = choose|j: int| 0 <= j < shorter.len() && (#[trigger] shorter[j]).stops();
        assert(longer[j].stops());
    }
    if batch[i].stops() {
        assert(longer[i].stops());
    }
    if any_stops(longer) {
        let j = choose|j: int| 0 <= j < longer.len() && (#[trigger] longer[j]).stops();
        if j < i {
            assert(shorter[j].stops());
        }
    }
}

/// The scheduling state of a server: its clock, its phase, and the in-game
/// time up to which the scheduled events have been run.
pub struct Server<K: ClockMethods> {
    clock: K,
    phase: Phase,
    in_game: InGameTime,
}

impl<K: ClockMethods> Server<K> {
    /// The server's clock.
    pub closed spec fn clock_state(&self) -> K {
        self.clock
    }

    /// The server's phase.
    pub closed spec fn phase(&self) -> Phase {
        self.phase
    }

    /// The in-game time that the server has advanced to.
    pub closed spec fn reached(&self) -> InGameTime {
        self.in_game
    }

    /// A running server with the given clock that has advanced to
    /// `initial_time`.
    pub fn new(clock: K, initial_time: InGameTime) -> (r: Self)
        ensures
            r.clock_state() == clock,
            r.phase() == Phase::Running,
            r.reached() == initial_time,
    {
        Server { clock, phase: Phase::Running, in_game: initial_time }
    }

    /// Whether the server is still running.
    pub fn is_running(&self) -> (r: bool)
        ensures
            r == (self.phase() == Phase::Running),
    {
        self.phase == Phase::Running
    }

    /// The in-game time that the server has advanced to.
    pub fn in_game_time(&self) -> (r: InGameTime)
        ensures
            r == self.reached(),
    {
        self.in_game
    }

    /// The server's clock.
    pub fn clock(&self) -> (r: &K)
        ensures
            *r == self.clock_state(),
    {
        &self.clock
    }

    /// How long the thread may block on the interruption channel: at most
    /// the wait that the clock gives from the in-game time reached until the
    /// next scheduled event, and without a limit when no event is scheduled.
    /// An event that is already due gives no wait at all.
    pub fn wait_for_next(&mut self, next_event: Option<InGameTime>) -> (r: Option<Duration>)
        requires
            old(self).phase() == Phase::Running,
        ensures
            final(self).phase() == Phase::Running,
            final(self).reached() == old(self).reached(),
            next_event is None ==> r is None,
            next_event is None ==> final(self).clock_state() == old(self).clock_state(),
            next_event is Some ==> r is Some,
            next_event matches Some(until) ==> old(self).clock_state().waits(
                old(self).reached(),
                until,
                r.unwrap(),
                &final(self).clock_state(),
            ),
            next_event matches Some(until) && until@ <= old(self).reached()@ ==> total_nanos(
                r.unwrap(),
            ) == 0,
    {
        match next_event {
            Some(until) => Some(self.clock.minimum_wait(self.in_game, until)),
            None => None,
        }
    }

    /// Takes the interruptions that have arrived, in the order of their
    /// arrival, and whether every sender is gone. Each interruption gives
    /// its effect, in the same order. The server stops if one of them asks
    /// for it or if no sender is left; the clock is then told that the
    /// cycles have ended.
    pub fn absorb<Id, Control>(
        &mut self,
        pending: Vec<Interruption<Id, Control>>,
        senders_gone: bool,
    ) -> (r: Drained<Id, Control>)
        requires
            old(self).phase() == Phase::Running,
        ensures
            r.effects@ == effects_of(pending@),
            r.stop == (senders_gone || any_stops(pending@)),
            final(self).reached() == old(self).reached(),
            r.stop ==> final(self).phase() == Phase::Stopped,
            r.stop ==> old(self).clock_state().ends(&final(self).clock_state()),
            !r.stop ==> final(self).phase() == Phase::Running,
            !r.stop ==> final(self).clock_state() == old(self).clock_state(),
    {
        let ghost batch = pending@;
        let mut effects: Vec<Effect<Id, Control>> = Vec::new();
        let mut stop = senders_gone;
        for interruption in it: pending
            invariant
                effects@ == effects_of(batch.take(it.index() as int)),
                stop == (senders_gone || any_stops(batch.take(it.index() as int))),
                it.seq() == batch,
        {
            proof {
                stop_found_by_next(batch, it.index() as int);
            }
            let outcome = interruption.update();
            effects.push(outcome.effect);
            stop = stop || outcome.stop;
        }
        assert(batch.take(batch.len() as int) == batch);
        if stop {
            self.clock.end_cycles();
            self.phase = Phase::Stopped;
        }
        Drained { effects, stop }
    }

    /// Advances in-game time to what the clock shows at `now`. The thread
    /// then lets the queue run the events that are due at that time.
    pub fn advance(&mut self, now: Instant) -> (r: InGameTime)
        requires
            old(self).phase() == Phase::Running,
        ensures
            old(self).clock_state().reads(now, r, &final(self).clock_state()),
            final(self).reached() == r,
            final(self).phase() == Phase::Running,
    {
        let in_game = self.clock.in_game(now);
        self.in_game = in_game;
        in_game
    }

    /// Ends a cycle: tells the clock the instant of the cycle and the
    /// in-game time that it advanced to.
    pub fn finished_cycle(&mut self, now: Instant)
        requires
            old(self).phase() == Phase::Running,
        ensures
            old(self).clock_state().finishes(now, old(self).reached(), &final(self).clock_state()),
            final(self).reached() == old(self).reached(),
            final(self).phase() == Phase::Running,
    {
        self.clock.finished_cycle(now, self.in_game);
    }
}

/// The scheduling state and the clock of a server that comes to life at the
/// wall-clock instant `now`: the clock shows the origin of in-game time at
/// `now` and runs from there, the server is running, holds a copy of the
/// clock and has advanced to the origin. The clock that is handed out never
/// shows a time before the origin.
pub fn create_server_local(now: Instant) -> (r: (Server<Clock>, Clock))
    ensures
        r.1.0.start_instant == Some(now),
        r.1.0.last_time@ == 0,
        r.0.clock_state() == r.1,
        r.0.phase() == Phase::Running,
        r.0.reached()@ == 0,
        forall|at: Instant| #[trigger] r.1.0.time_at(at) >= 0,
{
    let initial_time = InGameTime::default();
    let mut clock = Clock(Simple::new(initial_time));
    clock.0.start(now);
    let server = Server::new(clock.clone(), initial_time);
    (server, clock)
}

} // verus!

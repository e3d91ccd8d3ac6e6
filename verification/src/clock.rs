//! The clock that maps wall-clock instants to in-game time.
//!
//! A clock is created paused at an initial in-game time. While it runs,
//! in-game time advances with wall-clock time from the instant of the last
//! start; while it is stopped, in-game time stands still.

use crate::conversion::{
    duration_in_game, duration_real_time, in_game_round_trip, in_game_subunits, lasts,
    wall_nanos, wall_seconds, MAX_WALL_SUBUNITS,
};
use crate::units::{saturate, InGameDuration, InGameTime};
use crate::wall::{span_between, total_nanos};
use std::time::{Duration, Instant};
use vstd::prelude::*;

verus! {

/// Sub-units of in-game time that pass in the wall-clock time from `earlier`
/// to `later`: none from an instant to itself, and none when `earlier` is
/// the later of the two.
pub open spec fn span_subunits(later: Instant, earlier: Instant) -> int {
    if later == earlier {
        0
    } else {
        total_nanos(span_between(later, earlier))
    }
}

/// Nanoseconds of wall-clock time to wait in in-game time `now` until
/// in-game time `until` can be reached: nothing when `until` has been
/// reached, and never more than a wall-clock duration can express.
pub open spec fn wait_nanos(now: int, until: int) -> int {
    if until <= now {
        0
    } else if until - now > MAX_WALL_SUBUNITS {
        MAX_WALL_SUBUNITS as int
    } else {
        until - now
    }
}

/// The state of a clock: the instant of the last start, if it is running,
/// and the in-game time at that instant or, if it is stopped, at the stop.
#[derive(Clone, Copy)]
pub struct Simple {
    pub start_instant: Option<Instant>,
    pub last_time: InGameTime,
}

impl Simple {
    /// Sub-units of in-game time that passed since the last start as of
    /// `now`. Time only passes while the clock runs.
    pub open spec fn elapsed_subunits(&self, now: Instant) -> int {
        match self.start_instant {
            Some(start) => span_subunits(now, start),
            None => 0,
        }
    }

    /// The in-game time that the clock shows at the wall-clock instant `now`.
    pub open spec fn time_at(&self, now: Instant) -> int {
        saturate(self.last_time@ + self.elapsed_subunits(now))
    }

    /// The clock after a stop at `now`: it stands at the time it showed.
    pub open spec fn stopped(&self, now: Instant) -> Simple {
        Simple { start_instant: None, last_time: InGameTime { subunits: self.time_at(now) as i128 } }
    }

    /// The clock after a start at `now`: it runs from the time it showed.
    pub open spec fn started(&self, now: Instant) -> Simple {
        Simple {
            start_instant: Some(now),
            last_time: InGameTime { subunits: self.time_at(now) as i128 },
        }
    }

    /// A stopped clock that shows `start_time`.
    pub fn new(start_time: InGameTime) -> (r: Simple)
        ensures
            r.start_instant is None,
            r.last_time == start_time,
    {
        Simple { start_instant: None, last_time: start_time }
    }

    /// The wall-clock time that passed since the last start as of `now`.
    pub fn elapsed_as_of(&self, now: Instant) -> (r: Duration)
        ensures
            total_nanos(r) == self.elapsed_subunits(now),
            self.start_instant matches Some(start) ==> r == span_between(now, start),
    {
        if let Some(start) = self.start_instant {
            now.saturating_duration_since(start)
        } else {
            Duration::new(0, 0)
        }
    }

    /// The in-game time at the wall-clock instant `now`.
    pub fn time(&self, now: Instant) -> (r: InGameTime)
        ensures
            r@ == self.time_at(now),
    {
        let elapsed = self.elapsed_as_of(now);
        self.last_time.advanced_by(duration_in_game(elapsed))
    }

    /// Freezes in-game time at its value at `now`.
    pub fn stop(&mut self, now: Instant)
        ensures
            *final(self) == old(self).stopped(now),
    {
        self.last_time = self.time(now);
        self.start_instant = None;
    }

    /// Lets in-game time run on from `now`, starting at its value at `now`.
    pub fn start(&mut self, now: Instant)
        ensures
            *final(self) == old(self).started(now),
    {
        self.stop(now);
        self.start_instant = Some(now);
    }
}

/// The server's clock: the state of a simple clock behind the operations
/// that the scheduling cycle calls.
#[derive(Clone, Copy)]
pub struct Clock(pub Simple);

/// What the scheduling cycle asks of a clock. Every operation may change the
/// clock, so that a clock other than the wall-clock one can keep books of its
/// own: each implementation says, in the relation that belongs to an
/// operation, which answers the operation may give in a state and which
/// state it may leave.
pub trait ClockMethods: Sized {
    /// `in_game` at `now` may answer `answer` and leave `after`. Unless an
    /// implementation says more, every answer and every state may come.
    open spec fn reads(&self, now: Instant, answer: InGameTime, after: &Self) -> bool {
        true
    }

    /// `minimum_wait` from `now` until `until` may answer `answer` and leave
    /// `after`.
    open spec fn waits(
        &self,
        now: InGameTime,
        until: InGameTime,
        answer: Duration,
        after: &Self,
    ) -> bool {
        true
    }

    /// `finished_cycle` at `now` and `in_game` may leave `after`.
    open spec fn finishes(&self, now: Instant, in_game: InGameTime, after: &Self) -> bool {
        true
    }

    /// `end_cycles` may leave `after`.
    open spec fn ends(&self, after: &Self) -> bool {
        true
    }

    /// The in-game time at the wall-clock instant `now`.
    fn in_game(&mut self, now: Instant) -> (r: InGameTime)
        ensures
            old(self).reads(now, r, final(self)),
    ;

    /// The least wall-clock time to wait in in-game time `now` before
    /// in-game time `until` can be reached: nothing once it has been reached.
    fn minimum_wait(&mut self, now: InGameTime, until: InGameTime) -> (r: Duration)
        ensures
            old(self).waits(now, until, r, final(self)),
            until@ <= now@ ==> total_nanos(r) == 0,
    ;

    /// Told after each scheduling cycle, with the instant and the in-game
    /// time that the cycle advanced to.
    fn finished_cycle(&mut self, now: Instant, in_game: InGameTime)
        ensures
            old(self).finishes(now, in_game, final(self)),
    ;

    /// Told once, when the scheduling cycles have come to their end.
    fn end_cycles(&mut self)
        ensures
            old(self).ends(final(self)),
    ;
}

impl ClockMethods for Clock {
    /// Reading the clock answers its time at `now` and leaves it unchanged.
    open spec fn reads(&self, now: Instant, answer: InGameTime, after: &Self) -> bool {
        &&& answer@ == self.0.time_at(now)
        &&& *after == *self
    }

    /// The wait is the in-game time still to pass, as wall-clock time, and
    /// asking for it leaves the clock unchanged.
    open spec fn waits(
        &self,
        now: InGameTime,
        until: InGameTime,
        answer: Duration,
        after: &Self,
    ) -> bool {
        &&& lasts(answer, wait_nanos(now@, until@))
        &&& *after == *self
    }

    /// The end of a cycle leaves the clock unchanged.
    open spec fn finishes(&self, now: Instant, in_game: InGameTime, after: &Self) -> bool {
        *after == *self
    }

    /// The end of all cycles leaves the clock unchanged.
    open spec fn ends(&self, after: &Self) -> bool {
        *after == *self
    }

    fn in_game(&mut self, now: Instant) -> (r: InGameTime) {
        self.0.time(now)
    }

    fn minimum_wait(&mut self, now: InGameTime, until: InGameTime) -> (r: Duration) {
        let ahead: InGameDuration = until.since(now);
        if ahead.subunits <= 0 {
            Duration::new(0, 0)
        } else if ahead.subunits > MAX_WALL_SUBUNITS {
            duration_real_time(InGameDuration { subunits: MAX_WALL_SUBUNITS })
        } else {
            duration_real_time(ahead)
        }
    }

    fn finished_cycle(&mut self, _now: Instant, _in_game: InGameTime) {
    }

    fn end_cycles(&mut self) {
    }
}

/// While a clock is stopped, it shows the in-game time at which it was
/// stopped at every wall-clock instant.
pub proof fn stopped_clock_stands_still(clock: Simple, t1: Instant, t2: Instant)
    requires
        clock.start_instant is None,
    ensures
        clock.time_at(t1) == clock.last_time@,
        clock.time_at(t1) == clock.time_at(t2),
{
}

/// A clock started at `t0` shows at `t1` the in-game time of its start plus
/// the in-game time that passes in the wall-clock time from `t0` to `t1`, as
/// long as that sum can be represented.
pub proof fn running_clock_follows_wall_time(clock: Simple, t0: Instant, t1: Instant)
    requires
        clock.start_instant == Some(t0),
        clock.last_time@ + span_subunits(t1, t0) <= i128::MAX,
    ensures
        clock.time_at(t0) == clock.last_time@,
        clock.time_at(t1) - clock.time_at(t0) == span_subunits(t1, t0),
{
}

/// Starting a clock that was started at the same instant changes nothing,
/// and a started clock shows at the instant of its start what it showed
/// there before.
pub proof fn start_keeps_the_time(clock: Simple, now: Instant)
    ensures
        clock.started(now).time_at(now) == clock.time_at(now),
        clock.started(now).started(now) == clock.started(now),
        clock.stopped(now).time_at(now) == clock.time_at(now),
{
}

/// In-game time does not decrease within a run: a running clock shows no
/// earlier time at an instant that is further from its start.
pub proof fn running_clock_is_monotonic(clock: Simple, t0: Instant, t1: Instant, t2: Instant)
    requires
        clock.start_instant == Some(t0),
        span_subunits(t1, t0) <= span_subunits(t2, t0),
    ensures
        clock.time_at(t1) <= clock.time_at(t2),
{
}

/// A clock never shows less than the in-game time of its last start or stop.
pub proof fn clock_never_runs_backwards(clock: Simple, now: Instant)
    ensures
        clock.time_at(now) >= clock.last_time@,
{
}

/// The wait until a later in-game time, taken back to in-game time, is the
/// in-game time still to pass, as long as a wall-clock duration can express
/// it; there is no wait for a time that has been reached.
pub proof fn wait_covers_time_ahead(now: int, until: int)
    ensures
        0 <= wait_nanos(now, until) <= MAX_WALL_SUBUNITS,
        until <= now ==> wait_nanos(now, until) == 0,
        now <= until && until - now <= MAX_WALL_SUBUNITS ==> in_game_subunits(
            wall_seconds(wait_nanos(now, until)),
            wall_nanos(wait_nanos(now, until)),
        ) == until - now,
{
    in_game_round_trip(wait_nanos(now, until));
}

} // verus!

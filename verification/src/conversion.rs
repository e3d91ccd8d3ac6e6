//! Conversion between wall-clock durations and in-game durations.
//!
//! A wall-clock second is an in-game second and a nanosecond is a sub-unit,
//! so the whole seconds and the sub-second part are converted independently
//! and summed, and nothing is rounded in either direction.

use crate::units::{InGameDuration, SUBUNITS_PER_SECOND};
use crate::wall::{fraction_nanos, total_nanos, whole_seconds};
use std::time::Duration;
use vstd::prelude::*;

verus! {

/// The largest in-game duration that a wall-clock duration can express:
/// `u64::MAX` seconds and 999,999,999 nanoseconds.
pub const MAX_WALL_SUBUNITS: i128 = 18_446_744_073_709_551_615_999_999_999;

/// Sub-units of the in-game duration that stands for `secs` whole seconds
/// and `nanos` nanoseconds of wall-clock time.
pub open spec fn in_game_subunits(secs: int, nanos: int) -> int {
    secs * SUBUNITS_PER_SECOND + nanos
}

/// Whole wall-clock seconds in an in-game duration of `subunits`.
pub open spec fn wall_seconds(subunits: int) -> int {
    subunits / (SUBUNITS_PER_SECOND as int)
}

/// Nanoseconds below the whole second in an in-game duration of `subunits`.
pub open spec fn wall_nanos(subunits: int) -> int {
    subunits % (SUBUNITS_PER_SECOND as int)
}

/// Whether a wall-clock duration is the one of `nanos` nanoseconds.
pub open spec fn lasts(d: Duration, nanos: int) -> bool {
    &&& whole_seconds(d) == wall_seconds(nanos)
    &&& fraction_nanos(d) == wall_nanos(nanos)
}

/// The in-game duration that passes in a wall-clock duration.
pub fn duration_in_game(duration: Duration) -> (r: InGameDuration)
    ensures
        r@ == in_game_subunits(whole_seconds(duration) as int, fraction_nanos(duration) as int),
        r@ == total_nanos(duration),
        0 <= r@ <= MAX_WALL_SUBUNITS,
        wall_seconds(r@) == whole_seconds(duration),
        wall_nanos(r@) == fraction_nanos(duration),
{
    let seconds: u64 = duration.as_secs();
    let nanos: u32 = duration.subsec_nanos();
    proof {
        wall_round_trip(seconds, nanos);
    }
    let time_s: i128 = (seconds as i128) * SUBUNITS_PER_SECOND;
    let time_n: i128 = nanos as i128;
    InGameDuration { subunits: time_s + time_n }
}

/// The wall-clock duration in which a non-negative in-game duration passes.
/// The duration must be one that a wall-clock duration can express.
pub fn duration_real_time(duration: InGameDuration) -> (r: Duration)
    requires
        0 <= duration@ <= MAX_WALL_SUBUNITS,
    ensures
        lasts(r, duration@),
        total_nanos(r) == duration@,
{
    let time_s: i128 = duration.subunits / SUBUNITS_PER_SECOND;
    let time_n: i128 = duration.subunits % SUBUNITS_PER_SECOND;
    Duration::new(time_s as u64, time_n as u32)
}

/// Converting a wall-clock duration to in-game time and back gives the same
/// seconds and nanoseconds: nothing is lost on the way.
pub proof fn wall_round_trip(secs: u64, nanos: u32)
    requires
        nanos < SUBUNITS_PER_SECOND,
    ensures
        0 <= in_game_subunits(secs as int, nanos as int) <= MAX_WALL_SUBUNITS,
        wall_seconds(in_game_subunits(secs as int, nanos as int)) == secs,
        wall_nanos(in_game_subunits(secs as int, nanos as int)) == nanos,
{
}

/// Converting a non-negative in-game duration to wall-clock time and back
/// gives the same count of sub-units.
pub proof fn in_game_round_trip(subunits: int)
    requires
        0 <= subunits,
    ensures
        0 <= wall_nanos(subunits) < SUBUNITS_PER_SECOND,
        0 <= wall_seconds(subunits),
        in_game_subunits(wall_seconds(subunits), wall_nanos(subunits)) == subunits,
{
}

} // verus!

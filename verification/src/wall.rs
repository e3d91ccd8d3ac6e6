//! Wall-clock time as the standard library gives it.
//!
//! `Duration` and `Instant` are opaque to the verifier. This module names
//! what their accessors return and states, without proof, what the standard
//! library documents of the few functions that the clock calls.

use std::time::{Duration, Instant};
use vstd::prelude::*;

verus! {

/// Nanoseconds in one second of wall-clock time.
pub const NANOS_PER_SECOND: u32 = 1_000_000_000;

/// `std::time::Instant`, declared so that it can stand in signatures and
/// fields. Nothing is known of what an instant holds.
#[verifier::external_type_specification]
#[verifier::external_body]
pub struct ExInstant(Instant);

/// The whole seconds of a duration: what `Duration::as_secs` returns.
pub uninterp spec fn whole_seconds(d: Duration) -> u64;

/// The part of a duration below one second, in nanoseconds: what
/// `Duration::subsec_nanos` returns.
pub uninterp spec fn fraction_nanos(d: Duration) -> u32;

/// The time that passed from `earlier` to `later`: what
/// `Instant::saturating_duration_since` returns.
pub uninterp spec fn span_between(later: Instant, earlier: Instant) -> Duration;

/// A duration as a count of nanoseconds.
pub open spec fn total_nanos(d: Duration) -> int {
    whole_seconds(d) * NANOS_PER_SECOND + fraction_nanos(d)
}

/// `Duration::as_secs`: the number of whole seconds in the duration.
/// Trusted: the result is the duration's whole seconds by name.
pub assume_specification[ Duration::as_secs ](d: &Duration) -> (secs: u64)
    ensures
        secs == whole_seconds(*d),
;

/// `Duration::subsec_nanos`: the fractional part of the duration in
/// nanoseconds. Trusted: the result is that part by name, and, as the
/// standard library documents, it is always below one billion.
pub assume_specification[ Duration::subsec_nanos ](d: &Duration) -> (nanos: u32)
    ensures
        nanos == fraction_nanos(*d),
        nanos < NANOS_PER_SECOND,
;

/// `Duration::new`: a duration from whole seconds and nanoseconds. The
/// standard library carries nanoseconds of a second or more over into the
/// seconds and panics when that overflows; such input is left out here.
/// Trusted: without a carry the two accessors return the two arguments.
pub assume_specification[ Duration::new ](secs: u64, nanos: u32) -> (d: Duration)
    requires
        nanos < NANOS_PER_SECOND,
    ensures
        whole_seconds(d) == secs,
        fraction_nanos(d) == nanos,
;

/// `Instant::saturating_duration_since`: the time elapsed from `earlier` to
/// `now`, or a zero duration when `earlier` is the later of the two.
/// Trusted: the result is that span by name, and it is zero from an instant
/// to itself.
pub assume_specification[ Instant::saturating_duration_since ](
    now: &Instant,
    earlier: Instant,
) -> (d: Duration)
    ensures
        d == span_between(*now, earlier),
        *now == earlier ==> total_nanos(d) == 0,
;

} // verus!

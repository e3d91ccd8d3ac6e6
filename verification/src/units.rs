//! In-game time as fixed-point numbers.
//!
//! One in-game second is divided into one billion sub-units, the precision
//! of a wall-clock nanosecond. A value is a signed count of sub-units, so
//! whole seconds and the sub-second part are tracked exactly and no drift
//! accumulates over a long run.

use vstd::prelude::*;

verus! {

/// Number of sub-units in one in-game second.
pub const SUBUNITS_PER_SECOND: i128 = 1_000_000_000;

/// `x` pulled into the range of sub-unit counts that a value can hold.
pub open spec fn saturate(x: int) -> int {
    if x < i128::MIN {
        i128::MIN as int
    } else if x > i128::MAX {
        i128::MAX as int
    } else {
        x
    }
}

/// A span of in-game time, positive or negative.
#[derive(Clone, Copy, Debug, PartialEq, Eq, Structural)]
pub struct InGameDuration {
    pub subunits: i128,
}

/// A point in in-game time, counted from the simulation's origin.
#[derive(Clone, Copy, Debug, PartialEq, Eq, Structural)]
pub struct InGameTime {
    pub subunits: i128,
}

impl View for InGameDuration {
    type V = int;

    /// The span as a count of sub-units.
    open spec fn view(&self) -> int {
        self.subunits as int
    }
}

impl View for InGameTime {
    type V = int;

    /// The point as a count of sub-units since the origin.
    open spec fn view(&self) -> int {
        self.subunits as int
    }
}

impl InGameDuration {
    /// The empty span.
    pub fn zero() -> (r: InGameDuration)
        ensures
            r@ == 0,
    {
        InGameDuration { subunits: 0 }
    }

    /// A span of `seconds` whole in-game seconds.
    pub fn from_seconds(seconds: i32) -> (r: InGameDuration)
        ensures
            r@ == seconds * SUBUNITS_PER_SECOND,
    {
        InGameDuration { subunits: (seconds as i128) * SUBUNITS_PER_SECOND }
    }
}

impl Default for InGameTime {
    /// The simulation's origin.
    fn default() -> (r: InGameTime)
        ensures
            r@ == 0,
    {
        InGameTime { subunits: 0 }
    }
}

impl InGameTime {
    /// The point `by` after this one. The result stops at the ends of the
    /// representable range instead of wrapping.
    pub fn advanced_by(self, by: InGameDuration) -> (r: InGameTime)
        ensures
            r@ == saturate(self@ + by@),
    {
        match self.subunits.checked_add(by.subunits) {
            Some(subunits) => InGameTime { subunits },
            None => if by.subunits > 0 {
                InGameTime { subunits: i128::MAX }
            } else {
                InGameTime { subunits: i128::MIN }
            },
        }
    }

    /// The span from `earlier` to this point, negative when `earlier` is in
    /// fact later. The result stops at the ends of the representable range.
    pub fn since(self, earlier: InGameTime) -> (r: InGameDuration)
        ensures
            r@ == saturate(self@ - earlier@),
    {
        match self.subunits.checked_sub(earlier.subunits) {
            Some(subunits) => InGameDuration { subunits },
            None => if earlier.subunits < 0 {
                InGameDuration { subunits: i128::MAX }
            } else {
                InGameDuration { subunits: i128::MIN }
            },
        }
    }
}

} // verus!

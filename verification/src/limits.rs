//! Clamping of an angular value to a configured degree range.
use vstd::prelude::*;

verus! {

/// A degree range used for clamping camera angles: `(min, max)`, both
/// fixed-point degrees.
#[derive(Clone, Copy, PartialEq, Eq, Structural, Debug)]
pub struct RotationLimits {
    pub min_degrees: i64,
    pub max_degrees: i64,
}

impl RotationLimits {
    /// What `clamp` returns: the lower bound wins first, so a misconfigured
    /// range with `min_degrees > max_degrees` sends values below `min_degrees`
    /// to `min_degrees` and everything else to `max_degrees`.
    pub open spec fn clamp_spec(self, value: int) -> int {
        if value < self.min_degrees {
            self.min_degrees as int
        } else if value > self.max_degrees {
            self.max_degrees as int
        } else {
            value
        }
    }

    /// Clamps an angle to this range, checking the lower bound first.
    pub fn clamp(&self, value: i64) -> (r: i64)
        ensures
            r == self.clamp_spec(value as int),
            self.min_degrees <= self.max_degrees ==> self.min_degrees <= r <= self.max_degrees,
    {
        if value < self.min_degrees {
            return self.min_degrees;
        }
        if value > self.max_degrees {
            return self.max_degrees;
        }
        value
    }
}

} // verus!

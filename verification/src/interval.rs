//! Bounded range of valid ray parameters for one intersection query.

use vstd::prelude::*;

verus! {

/// A closed pair of fixed-point ray parameters, `min <= max`, both within
/// `PARAM_LIMIT`.  A parameter counts as inside only strictly between the
/// endpoints: the exclusive test keeps a ray from re-intersecting the surface
/// it just left (the endpoint `min` sits exactly at the ray's current
/// origin offset).
#[derive(Clone, Copy, Debug, PartialEq, Eq, Structural)]
pub struct Interval {
    pub min: i64,
    pub max: i64,
}

impl Interval {
    /// The endpoints are ordered and within the range the intersection
    /// arithmetic supports.
    pub open spec fn wf(self) -> bool {
        -crate::PARAM_LIMIT <= self.min <= self.max <= crate::PARAM_LIMIT
    }

    /// `t` lies strictly between the endpoints.
    pub open spec fn spec_surrounds(self, t: int) -> bool {
        self.min < t < self.max
    }

    pub fn new(min: i64, max: i64) -> (i: Interval)
        requires
            -crate::PARAM_LIMIT <= min <= max <= crate::PARAM_LIMIT,
        ensures
            i == (Interval { min, max }),
            i.wf(),
    {
        Interval { min, max }
    }

    /// Strict-exclusive containment: true iff `min < t < max`.
    pub fn surrounds(&self, t: i64) -> (r: bool)
        ensures
            r == self.spec_surrounds(t as int),
    {
        self.min < t && t < self.max
    }
}

} // verus!

use vstd::prelude::*;

verus! {

/// Number of fixed-point units in one radian. Angles are stored in hundredths
/// of a radian so that every pose constant of the choreography is an exact
/// integer.
pub const UNITS_PER_RADIAN: i64 = 100;

/// Largest component magnitude the animation accepts. It is far above any
/// pose the choreography ever produces, yet small enough that the
/// interpolation arithmetic provably never overflows an `i64`.
pub const COMPONENT_BOUND: i64 = 1_000_000_000;

/// Euler-style rotation angles around the three axes, in fixed-point units of
/// 1/100 radian.
#[derive(Clone, Copy, Debug, PartialEq, Eq, Structural)]
pub struct RotationVector {
    pub x: i64,
    pub y: i64,
    pub z: i64,
}

impl RotationVector {
    /// All three components are within the magnitude bound.
    pub open spec fn in_bounds(self) -> bool {
        &&& -COMPONENT_BOUND <= self.x <= COMPONENT_BOUND
        &&& -COMPONENT_BOUND <= self.y <= COMPONENT_BOUND
        &&& -COMPONENT_BOUND <= self.z <= COMPONENT_BOUND
    }

    pub fn new(x: i64, y: i64, z: i64) -> (r: Self)
        ensures
            r == (RotationVector { x, y, z }),
    {
        RotationVector { x, y, z }
    }
}

/// Squared Euclidean magnitude of the vector with the given components.
pub open spec fn sq_mag(x: int, y: int, z: int) -> int {
    x * x + y * y + z * z
}

/// `v` lies between `a` and `b`, whichever way round they are ordered.
pub open spec fn lies_between(a: int, b: int, v: int) -> bool {
    if a <= b {
        a <= v <= b
    } else {
        b <= v <= a
    }
}

} // verus!

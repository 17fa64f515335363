//! Fixed-point scalars and vectors.
//!
//! Every scalar quantity of the controller is an `i64` count of thousandths
//! of its unit: metres, metres per second, degrees, or a plain ratio.

use vstd::prelude::*;

verus! {

/// How many counts make one whole unit.
pub const SCALE: i64 = 1000;

/// A vector of three fixed-point components.
#[derive(Clone, Copy, Debug, PartialEq, Eq, Structural)]
pub struct Vec3 {
    pub x: i64,
    pub y: i64,
    pub z: i64,
}

impl Vec3 {
    /// The vector with the given components.
    pub fn new(x: i64, y: i64, z: i64) -> (v: Self)
        ensures
            v == (Vec3 { x, y, z }),
    {
        Vec3 { x, y, z }
    }
}

/// One unit along the vertical axis.
pub fn up_vector() -> (v: Vec3)
    ensures
        v == (Vec3 { x: 0, y: SCALE, z: 0 }),
{
    Vec3 { x: 0, y: SCALE, z: 0 }
}

} // verus!

verus! {

/// The largest size of a component for which the vector arithmetic of this
/// crate stays within the machine's integers: a thousand million whole units.
pub const MAX_COORDINATE: i64 = 1_000_000_000_000;

impl Vec3 {
    /// No component is larger in size than [`MAX_COORDINATE`].
    pub open spec fn bounded(self) -> bool {
        &&& -MAX_COORDINATE <= self.x <= MAX_COORDINATE
        &&& -MAX_COORDINATE <= self.y <= MAX_COORDINATE
        &&& -MAX_COORDINATE <= self.z <= MAX_COORDINATE
    }

    /// Whether no component is larger in size than [`MAX_COORDINATE`].
    pub fn is_bounded(&self) -> (b: bool)
        ensures
            b == self.bounded(),
    {
        -MAX_COORDINATE <= self.x && self.x <= MAX_COORDINATE && -MAX_COORDINATE <= self.y
            && self.y <= MAX_COORDINATE && -MAX_COORDINATE <= self.z && self.z <= MAX_COORDINATE
    }
}

/// The square of the distance between `a` and `b`.
pub open spec fn dist_sq(a: Vec3, b: Vec3) -> int {
    (b.x - a.x) * (b.x - a.x) + (b.y - a.y) * (b.y - a.y) + (b.z - a.z) * (b.z - a.z)
}

} // verus!

//! Points and directions in space, as triples of scalars.

use vstd::prelude::*;
use crate::scalar::Scalar;

verus! {

/// Three scalars: a point, or a direction. The crate carries such triples
/// from where they are computed into a hit record and never looks inside.
#[derive(Clone, Copy, Debug)]
pub struct Vec3 {
    pub x: Scalar,
    pub y: Scalar,
    pub z: Scalar,
}

impl Vec3 {
    /// The triple `(x, y, z)`.
    pub fn new(x: Scalar, y: Scalar, z: Scalar) -> (v: Vec3)
        ensures
            v.x == x,
            v.y == y,
            v.z == z,
    {
        Vec3 { x, y, z }
    }
}

} // verus!

//! What a shape reports when a ray meets it.

use vstd::prelude::*;
use crate::scalar::Scalar;
use crate::vector::Vec3;

verus! {

/// One intersection of a ray with a surface.
///
/// `t` is the ray parameter of the intersection, `position` the point of the
/// ray at `t`, `normal` the outward unit normal of the surface there, and
/// `material` the material of the surface, borrowed from the shape that was
/// hit. A hit is made for one query and never changed.
pub struct Hit<'a, M> {
    pub t: Scalar,
    pub position: Vec3,
    pub normal: Vec3,
    pub material: &'a M,
}

impl<'a, M> Hit<'a, M> {
    /// The hit made of the four given parts.
    pub fn new(t: Scalar, position: Vec3, normal: Vec3, material: &'a M) -> (hit: Hit<'a, M>)
        ensures
            hit.t == t,
            hit.position == position,
            hit.normal == normal,
            hit.material == material,
    {
        Hit { t, position, normal, material }
    }
}

} // verus!

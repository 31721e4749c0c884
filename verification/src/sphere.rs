//! The sphere, and the search for the nearest intersection of a ray with it.
//!
//! A ray `origin + t * direction` meets the sphere of centre `c` and radius
//! `r` where `a t^2 + 2 b t + c' = 0`, with `a = direction . direction`,
//! `b = (origin - c) . direction` and `c' = (origin - c) . (origin - c) - r^2`.
//! The arithmetic is floating-point and is done by the caller. What is decided
//! from its results is decided here: whether the discriminant admits roots,
//! whether a root lies in the caller's parameter interval, and which of the
//! two roots is reported.

use vstd::prelude::*;
use crate::drawable::Hit;
use crate::scalar::Scalar;
use crate::vector::Vec3;

verus! {

/// A sphere with the material of its surface.
pub struct Sphere<M> {
    pub center: Vec3,
    pub radius: Scalar,
    pub material: M,
}

impl<M> Sphere<M> {
    /// A sphere is proper when its radius is a number above zero. Nothing in
    /// this crate depends on it: a search on an improper sphere decides on
    /// whatever numbers the caller computed from it.
    pub open spec fn well_formed(&self) -> bool {
        self.radius.positive()
    }

    /// The sphere with the given centre, radius and material. No argument is
    /// refused; the sphere is proper exactly when `radius > 0`.
    pub fn new(center: Vec3, radius: Scalar, material: M) -> (sphere: Sphere<M>)
        ensures
            sphere.center == center,
            sphere.radius == radius,
            sphere.material == material,
            sphere.well_formed() == radius.positive(),
    {
        Sphere { center, radius, material }
    }

    /// The record of a hit on this sphere at ray parameter `t`: it carries
    /// `t`, the position and the normal as given, and borrows this sphere's
    /// material.
    pub fn hit_at(&self, t: Scalar, position: Vec3, normal: Vec3) -> (hit: Hit<'_, M>)
        ensures
            hit.t == t,
            hit.position == position,
            hit.normal == normal,
            *hit.material == self.material,
    {
        Hit::new(t, position, normal, &self.material)
    }
}

/// How far a search has come.
#[derive(Clone, Copy, Debug)]
pub enum Stage {
    /// The discriminant `b^2 - a c'` is wanted.
    Discriminant,
    /// The discriminant was above zero. The nearer root,
    /// `(-b - sqrt(discriminant)) / a`, is wanted.
    NearRoot,
    /// The nearer root was outside the interval. The farther root,
    /// `(-b + sqrt(discriminant)) / a`, is wanted.
    FarRoot,
    /// Finished: the ray hits the sphere at this parameter.
    Hit(Scalar),
    /// Finished: no intersection lies inside the interval.
    Miss,
}

/// The search for the nearest intersection whose parameter lies strictly
/// between `t_min` and `t_max`.
///
/// The caller supplies, one at a time, the number that `stage` names, and
/// stops when the stage is `Hit` or `Miss`. It is asked for a root only when
/// the root can still decide the outcome: for none when the discriminant is
/// not above zero, and for the farther root only when the nearer one was
/// refused.
#[derive(Clone, Copy, Debug)]
pub struct Search {
    pub t_min: Scalar,
    pub t_max: Scalar,
    pub stage: Stage,
}

/// The parameter that a ray-sphere test reports, given the discriminant and
/// the two roots in ascending order: nothing unless the discriminant is above
/// zero; else the nearer root if it lies strictly inside the interval; else
/// the farther root if that one does; else nothing. A discriminant of exactly
/// zero, a ray that only touches the sphere, reports nothing.
pub open spec fn nearest_valid_root(
    discriminant: Scalar,
    near: Scalar,
    far: Scalar,
    t_min: Scalar,
    t_max: Scalar,
) -> Option<Scalar> {
    if !discriminant.positive() {
        None
    } else if near.strictly_between(t_min, t_max) {
        Some(near)
    } else if far.strictly_between(t_min, t_max) {
        Some(far)
    } else {
        None
    }
}

impl Search {
    /// The search over `(t_min, t_max)` to which nothing was supplied yet.
    pub open spec fn start(t_min: Scalar, t_max: Scalar) -> Search {
        Search { t_min, t_max, stage: Stage::Discriminant }
    }

    /// A search is sound when a hit it has settled on lies inside its
    /// interval.
    pub open spec fn well_formed(self) -> bool {
        self.stage matches Stage::Hit(t) ==> t.strictly_between(self.t_min, self.t_max)
    }

    /// Whether the search has ended, in a hit or a miss.
    pub open spec fn finished(self) -> bool {
        self.stage is Hit || self.stage is Miss
    }

    /// What the search has found: the parameter of the hit, if it ended in
    /// one.
    pub open spec fn found(self) -> Option<Scalar> {
        match self.stage {
            Stage::Hit(t) => Some(t),
            _ => None,
        }
    }

    /// The search after `value` was supplied for what its stage wanted. A
    /// finished search stays as it is.
    pub open spec fn after(self, value: Scalar) -> Search {
        let inside = value.strictly_between(self.t_min, self.t_max);
        let stage = match self.stage {
            Stage::Discriminant => if value.positive() {
                Stage::NearRoot
            } else {
                Stage::Miss
            },
            Stage::NearRoot => if inside {
                Stage::Hit(value)
            } else {
                Stage::FarRoot
            },
            Stage::FarRoot => if inside {
                Stage::Hit(value)
            } else {
                Stage::Miss
            },
            Stage::Hit(t) => Stage::Hit(t),
            Stage::Miss => Stage::Miss,
        };
        Search { t_min: self.t_min, t_max: self.t_max, stage }
    }

    /// A fresh search over the open interval `(t_min, t_max)`. It wants the
    /// discriminant.
    pub fn new(t_min: Scalar, t_max: Scalar) -> (search: Search)
        ensures
            search == Search::start(t_min, t_max),
            search.well_formed(),
    {
        Search { t_min, t_max, stage: Stage::Discriminant }
    }

    /// Takes the number that the stage wanted and moves on.
    pub fn supply(self, value: Scalar) -> (next: Search)
        ensures
            next == self.after(value),
            self.well_formed() ==> next.well_formed(),
    {
        let stage = match self.stage {
            Stage::Discriminant => {
                if value.is_positive() {
                    Stage::NearRoot
                } else {
                    Stage::Miss
                }
            },
            Stage::NearRoot => {
                if value.is_strictly_between(self.t_min, self.t_max) {
                    Stage::Hit(value)
                } else {
                    Stage::FarRoot
                }
            },
            Stage::FarRoot => {
                if value.is_strictly_between(self.t_min, self.t_max) {
                    Stage::Hit(value)
                } else {
                    Stage::Miss
                }
            },
            Stage::Hit(t) => Stage::Hit(t),
            Stage::Miss => Stage::Miss,
        };
        Search { t_min: self.t_min, t_max: self.t_max, stage }
    }

    /// Whether the search has ended.
    pub fn is_finished(&self) -> (done: bool)
        ensures
            done == self.finished(),
    {
        match self.stage {
            Stage::Hit(_) => true,
            Stage::Miss => true,
            _ => false,
        }
    }

    /// The parameter of the hit, if the search ended in one.
    pub fn outcome(&self) -> (t: Option<Scalar>)
        ensures
            t == self.found(),
    {
        match self.stage {
            Stage::Hit(t) => Some(t),
            _ => None,
        }
    }
}

/// A search that is given the discriminant, then the nearer root, then the
/// farther root, ends with what `nearest_valid_root` names. It has ended
/// after the discriminant alone when that is not above zero, and after the
/// nearer root when that lies inside the interval, so a caller that stops
/// at the first finished stage computes no root in vain.
pub proof fn lemma_search_finds_nearest_valid_root(
    discriminant: Scalar,
    near: Scalar,
    far: Scalar,
    t_min: Scalar,
    t_max: Scalar,
)
    ensures
        ({
            let first = Search::start(t_min, t_max).after(discriminant);
            let second = first.after(near);
            let third = second.after(far);
            &&& third.finished()
            &&& third.found() == nearest_valid_root(discriminant, near, far, t_min, t_max)
            &&& first.finished() == !discriminant.positive()
            &&& second.finished() == (!discriminant.positive() || near.strictly_between(
                t_min,
                t_max,
            ))
            &&& first.finished() ==> third == first
            &&& second.finished() ==> third == second
        }),
{
}

/// Where the discriminant is not above zero, the ray misses or only touches
/// the sphere, nothing is reported, whatever the interval and whatever stands
/// in place of the roots.
pub proof fn lemma_no_hit_without_roots(
    discriminant: Scalar,
    near: Scalar,
    far: Scalar,
    t_min: Scalar,
    t_max: Scalar,
)
    requires
        !discriminant.positive(),
    ensures
        nearest_valid_root(discriminant, near, far, t_min, t_max) is None,
{
}

/// Where both roots lie outside the interval nothing is reported, although
/// the line of the ray meets the sphere.
pub proof fn lemma_no_hit_outside_interval(
    discriminant: Scalar,
    near: Scalar,
    far: Scalar,
    t_min: Scalar,
    t_max: Scalar,
)
    requires
        !near.strictly_between(t_min, t_max),
        !far.strictly_between(t_min, t_max),
    ensures
        nearest_valid_root(discriminant, near, far, t_min, t_max) is None,
{
}

/// A root that equals an end of the interval is refused: the search passes
/// from the nearer root on to the farther one, and from the farther one to a
/// miss.
pub proof fn lemma_root_on_boundary_is_refused(search: Search, root: Scalar)
    requires
        root.same_value(search.t_min) || root.same_value(search.t_max),
    ensures
        !root.strictly_between(search.t_min, search.t_max),
        search.stage is NearRoot ==> search.after(root).stage is FarRoot,
        search.stage is FarRoot ==> search.after(root).stage is Miss,
{
}

/// The smaller of two numbers: the second where it is below the first, else
/// the first.
pub open spec fn smaller(a: Scalar, b: Scalar) -> Scalar {
    if b.less_than(a) {
        b
    } else {
        a
    }
}

/// Where both roots lie inside the interval, the smaller one is reported. The
/// roots are taken in ascending order, `near` not above `far`, as the
/// quadratic formula yields them.
pub proof fn lemma_nearer_root_wins(
    discriminant: Scalar,
    near: Scalar,
    far: Scalar,
    t_min: Scalar,
    t_max: Scalar,
)
    requires
        discriminant.positive(),
        near.strictly_between(t_min, t_max),
        far.strictly_between(t_min, t_max),
        !far.less_than(near),
    ensures
        nearest_valid_root(discriminant, near, far, t_min, t_max) == Some(smaller(near, far)),
        smaller(near, far) == near,
{
}

/// What is reported is the least parameter among the roots inside the
/// interval: it is one of the two roots, it lies inside, and no root inside
/// is below it. Nothing is reported only where no root lies inside. The
/// roots are taken in ascending order.
pub proof fn lemma_reports_least_valid_root(
    discriminant: Scalar,
    near: Scalar,
    far: Scalar,
    t_min: Scalar,
    t_max: Scalar,
)
    requires
        discriminant.positive(),
        !far.less_than(near),
    ensures
        match nearest_valid_root(discriminant, near, far, t_min, t_max) {
            Some(t) => {
                &&& t == near || t == far
                &&& t.strictly_between(t_min, t_max)
                &&& near.strictly_between(t_min, t_max) ==> !near.less_than(t)
                &&& far.strictly_between(t_min, t_max) ==> !far.less_than(t)
            },
            None => !near.strictly_between(t_min, t_max) && !far.strictly_between(t_min, t_max),
        },
{
}

} // verus!

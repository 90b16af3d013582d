use crate::engine::hittables::hittable::answers;
use crate::engine::hittables::hittable::HitRecord;
use crate::vectors::scalar::Scalar;
use crate::vectors::vector::Point;
use crate::vectors::vector::Vector;
use vstd::prelude::*;

verus! {

/// A ball of one material.
pub struct Sphere<M> {
    pub center: Point,
    pub radius: Scalar,
    pub material: M,
}

impl<M> Sphere<M> {
    /// A sphere is well formed when its radius is a positive number.
    pub open spec fn well_formed(self) -> bool {
        (Scalar { bits: 0 }).below(self.radius)
    }

    /// A sphere around `center` with a positive radius.
    pub fn new(center: Point, radius: Scalar, material: M) -> (sphere: Sphere<M>)
        requires
            (Scalar { bits: 0 }).below(radius),
        ensures
            sphere == (Sphere { center, radius, material }),
            sphere.well_formed(),
    {
        Sphere { center, radius, material }
    }

    /// The record of a hit at the parameter `t`, where the ray is at `point`.
    /// `outward_normal` is `(point - center) / radius` and `facing` the dot
    /// product of the ray's direction with it.
    pub fn hit_at<'a>(&'a self, point: Point, t: Scalar, outward_normal: Vector, facing: Scalar) -> (record:
        HitRecord<'a, M>)
        ensures
            record.point == point,
            record.t == t,
            record.material == &self.material,
            record.oriented(outward_normal, facing),
    {
        HitRecord::from_ray(point, t, outward_normal, facing, &self.material)
    }
}

/// The parameters at which a ray crosses the surface, from the quadratic
/// that the crossing solves: none where the discriminant is negative,
/// else the two roots.
pub open spec fn roots(discriminant: Scalar, near_root: Scalar, far_root: Scalar) -> Set<Scalar> {
    if discriminant.below(Scalar { bits: 0 }) {
        Set::empty()
    } else {
        Set::empty().insert(near_root).insert(far_root)
    }
}

/// The root that counts as the hit: the near one where it lies strictly
/// inside `(t_min, t_max)`, else the far one where that does, else none.
pub open spec fn root_within(
    discriminant: Scalar,
    near_root: Scalar,
    far_root: Scalar,
    t_min: Scalar,
    t_max: Scalar,
) -> Option<Scalar> {
    if discriminant.below(Scalar { bits: 0 }) {
        None
    } else if near_root.strictly_between(t_min, t_max) {
        Some(near_root)
    } else if far_root.strictly_between(t_min, t_max) {
        Some(far_root)
    } else {
        None
    }
}

/// Picks the parameter of the hit. With `a`, `half_b` and `c` the
/// coefficients of the quadratic, `discriminant` is `half_b² - a·c`,
/// `near_root` is `(-half_b - √discriminant) / a` and `far_root` is
/// `(-half_b + √discriminant) / a`.
pub fn nearest_root(
    discriminant: Scalar,
    near_root: Scalar,
    far_root: Scalar,
    t_min: Scalar,
    t_max: Scalar,
) -> (root: Option<Scalar>)
    ensures
        root == root_within(discriminant, near_root, far_root, t_min, t_max),
{
    if discriminant.lt(Scalar::zero()) {
        return None;
    }
    // Find the nearest root that lies in the mentioned range
    if t_min.lt(near_root) && near_root.lt(t_max) {
        return Some(near_root);
    }
    if t_min.lt(far_root) && far_root.lt(t_max) {
        return Some(far_root);
    }
    None
}

/// A sphere that reports the root which `nearest_root` picks answers as a
/// hittable object must: with the nearest of its crossings inside the
/// interval, and with none only where none lies inside. This needs the roots
/// in their order, which the quadratic gives them for every ray with a
/// direction.
pub proof fn lemma_nearest_root_is_nearest(
    discriminant: Scalar,
    near_root: Scalar,
    far_root: Scalar,
    t_min: Scalar,
    t_max: Scalar,
)
    requires
        !far_root.below(near_root),
    ensures
        answers(
            roots(discriminant, near_root, far_root),
            t_min,
            t_max,
            root_within(discriminant, near_root, far_root, t_min, t_max),
        ),
{
}

} // verus!

use crate::engine::ray::Ray;
use crate::vectors::scalar::Scalar;
use crate::vectors::vector::Point;
use crate::vectors::vector::Vector;
use vstd::prelude::*;

verus! {

/// Includes information about where a ray hits a hittable object.
pub struct HitRecord<'a, M> {
    pub point: Point,
    pub normal: Vector,
    pub material: &'a M,
    pub t: Scalar,
    pub front_face: bool,
}

impl<'a, M> HitRecord<'a, M> {
    /// Whether the record describes a surface with the given outward normal,
    /// struck by a ray whose direction has the dot product `facing` with that
    /// normal: the front face is struck iff the two point against each other,
    /// and the recorded normal always opposes the ray.
    pub open spec fn oriented(self, outward_normal: Vector, facing: Scalar) -> bool {
        &&& self.front_face == facing.below(Scalar { bits: 0 })
        &&& self.normal == if self.front_face {
            outward_normal
        } else {
            outward_normal.reversed()
        }
    }

    pub fn new(point: Point, normal: Vector, material: &'a M, t: Scalar, front_face: bool) -> (record:
        HitRecord<'a, M>)
        ensures
            record == (HitRecord { point, normal, material, t, front_face }),
    {
        HitRecord { point, normal, material, t, front_face }
    }

    /// The record of a ray meeting a surface at `point`, its parameter `t`
    /// along the ray. `outward_normal` is the surface's unit normal there and
    /// `facing` the dot product of the ray's direction with it.
    pub fn from_ray(
        point: Point,
        t: Scalar,
        outward_normal: Vector,
        facing: Scalar,
        material: &'a M,
    ) -> (record: HitRecord<'a, M>)
        ensures
            record.point == point,
            record.t == t,
            record.material == material,
            record.oriented(outward_normal, facing),
    {
        let front_face = facing.lt(Scalar::zero());
        let normal = if front_face {
            outward_normal
        } else {
            outward_normal.neg()
        };
        HitRecord::new(point, normal, material, t, front_face)
    }
}

/// Whether `t` is the nearest of `crossings` strictly inside `(t_min, t_max)`.
pub open spec fn nearest_within(crossings: Set<Scalar>, t_min: Scalar, t_max: Scalar, t: Scalar) -> bool {
    &&& crossings.contains(t)
    &&& t.strictly_between(t_min, t_max)
    &&& forall|c: Scalar| #[trigger]
        crossings.contains(c) && c.strictly_between(t_min, t_max) ==> !c.below(t)
}

/// Whether none of `crossings` lies strictly inside `(t_min, t_max)`.
pub open spec fn none_within(crossings: Set<Scalar>, t_min: Scalar, t_max: Scalar) -> bool {
    forall|c: Scalar| #[trigger] crossings.contains(c) ==> !c.strictly_between(t_min, t_max)
}

/// Whether `answer` is what a search of `crossings` inside `(t_min, t_max)`
/// must give: the nearest crossing inside, and nothing only where no
/// crossing lies inside.
pub open spec fn answers(crossings: Set<Scalar>, t_min: Scalar, t_max: Scalar, answer: Option<Scalar>) -> bool {
    match answer {
        Some(t) => nearest_within(crossings, t_min, t_max, t),
        None => none_within(crossings, t_min, t_max),
    }
}

/// The parameter of the hit that `result` records, if it records one.
pub open spec fn parameter_of<M>(result: Option<HitRecord<M>>) -> Option<Scalar> {
    match result {
        Some(record) => Some(record.t),
        None => None,
    }
}

/// Should be implemented by types which represent hittable objects.
/// For example: sphere, cube, etc...
pub trait Hittable {
    /// What the surfaces of this object are made of.
    type Material;

    /// The parameters at which `ray` meets the surface of this object. It is
    /// decided by the object and the ray alone. An implementation written
    /// outside verified code cannot spell it out and leaves it as it stands
    /// here; what its `hit` owes is then owed for the true crossings.
    open spec fn crossings(&self, ray: Ray) -> Set<Scalar> {
        let unspecified = arbitrary::<spec_fn(&Self, Ray) -> Set<Scalar>>();
        unspecified(self, ray)
    }

    /// What is recorded of the hit where `ray` crosses the surface at the
    /// parameter `t`. Like the crossings it is decided by the object and the
    /// ray alone, and left as it stands here by an implementation written
    /// outside verified code.
    open spec fn record_at<'a>(&'a self, ray: Ray, t: Scalar) -> HitRecord<'a, Self::Material> {
        let unspecified = arbitrary::<spec_fn(&Self, Ray, Scalar) -> HitRecord<'a, Self::Material>>();
        unspecified(self, ray, t)
    }

    /// Tests `ray` against the object over the open interval `(t_min,
    /// t_max)` of its parameter. The answer is the nearest crossing inside
    /// the interval, with what is recorded of it, and no hit only where no
    /// crossing lies inside.
    fn hit<'a>(&'a self, ray: &Ray, t_min: Scalar, t_max: Scalar) -> (r: Option<
        HitRecord<'a, Self::Material>,
    >)
        ensures
            answers(self.crossings(*ray), t_min, t_max, parameter_of(r)),
            r matches Some(record) ==> record == self.record_at(*ray, record.t),
    ;
}

} // verus!

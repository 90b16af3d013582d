use crate::consts::MIN_HIT_DISTANCE;
use crate::engine::hittables::hittable::none_within;
use crate::engine::hittables::hittable::Hittable;
use crate::engine::materials::material::Material;
use crate::engine::materials::material::ScatterResult;
use crate::engine::ray::Ray;
use crate::vectors::color::Color;
use crate::vectors::scalar::Scalar;
use crate::vectors::scalar::INFINITY_BITS;
use vstd::prelude::*;

verus! {

/// What becomes of a ray at its next meeting with the world.
pub enum Bounce {
    /// It meets nothing and reaches the background.
    Escaped,
    /// It meets a surface that swallows it.
    Absorbed,
    /// It meets a surface that sends it on.
    Scattered(ScatterResult),
}

impl Bounce {
    /// What becomes of a ray that met a surface, from the answer of the
    /// material there: it is sent on with that answer, or absorbed where
    /// there is none.
    pub fn at_surface(scatter_result: Option<ScatterResult>) -> (outcome: Bounce)
        ensures
            outcome == match scatter_result {
                Some(result) => Bounce::Scattered(result),
                None => Bounce::Absorbed,
            },
    {
        match scatter_result {
            Some(result) => Bounce::Scattered(result),
            None => Bounce::Absorbed,
        }
    }
}

/// How a light path ends.
pub enum PathEnd {
    /// The recursion budget ran out: the path carries no light.
    Exhausted,
    /// A surface swallowed the ray: the path carries no light.
    Absorbed,
    /// The ray left the scene: the path carries the light of the background
    /// in the direction of this ray.
    Escaped(Ray),
}

/// The path of a ray through the scene. The light that it carries is the
/// light at its end, dampened by every attenuation on the way: the product
/// of the attenuations and the color of the end.
pub struct LightPath {
    /// The attenuation of each surface that sent the ray on, in the order
    /// in which the ray met them.
    pub attenuations: Vec<Color>,
    pub end: PathEnd,
}

impl LightPath {
    /// Whether the path carries no light, whatever the background is.
    pub open spec fn is_black(self) -> bool {
        !(self.end is Escaped)
    }
}

/// Whether `ray` meets nothing of `world` farther than the guard distance
/// from its origin.
pub open spec fn misses<W: Hittable>(world: &W, ray: Ray) -> bool {
    none_within(world.crossings(ray), Scalar { bits: MIN_HIT_DISTANCE }, Scalar { bits: INFINITY_BITS })
}

/// Follows `ray` to its next meeting with `world`. A surface counts only
/// beyond the guard distance. Whether a surface that is met sends the ray on
/// is for its material to decide.
pub fn bounce<W: Hittable>(ray: &Ray, world: &W) -> (outcome: Bounce) where W::Material: Material
    ensures
        outcome is Escaped <==> misses(world, *ray),
{
    let record = world.hit(ray, Scalar::new(MIN_HIT_DISTANCE), Scalar::infinity());
    match record {
        Some(record) => {
            proof {
                assert(world.crossings(*ray).contains(record.t));
            }
            Bounce::at_surface(record.material.scatter(ray, &record))
        },
        None => Bounce::Escaped,
    }
}

/// A light path as far as it has been followed.
pub struct Walk {
    /// The attenuation of each surface that sent the ray on so far.
    pub attenuations: Vec<Color>,
    /// The ray to follow next.
    pub ray: Ray,
    /// How many more surfaces the path may meet.
    pub remaining: usize,
}

impl Walk {
    /// How the walk ends on `outcome`, if it does. The budget comes first: a
    /// walk without any ends exhausted, whatever the outcome.
    pub open spec fn end_on(self, outcome: Bounce) -> Option<PathEnd> {
        if self.remaining == 0 {
            Some(PathEnd::Exhausted)
        } else {
            match outcome {
                Bounce::Escaped => Some(PathEnd::Escaped(self.ray)),
                Bounce::Absorbed => Some(PathEnd::Absorbed),
                Bounce::Scattered(_) => None,
            }
        }
    }

    /// The walk that starts with `ray` and may meet `depth` surfaces.
    pub fn new(ray: Ray, depth: usize) -> (walk: Walk)
        ensures
            walk.attenuations@ == Seq::<Color>::empty(),
            walk.ray == ray,
            walk.remaining == depth,
    {
        Walk { attenuations: Vec::new(), ray, remaining: depth }
    }

    /// Takes what became of the ray of the walk. Where that ends the walk,
    /// the end is returned and the walk stays as it is. Where a surface sent
    /// the ray on, the walk goes on with the scattered ray: it notes the
    /// attenuation and has one surface less to meet.
    pub fn step(&mut self, outcome: Bounce) -> (end: Option<PathEnd>)
        ensures
            end == old(self).end_on(outcome),
            end is Some ==> {
                &&& final(self).attenuations@ == old(self).attenuations@
                &&& final(self).ray == old(self).ray
                &&& final(self).remaining == old(self).remaining
            },
            end is None ==> (outcome matches Bounce::Scattered(scatter_result) && {
                &&& final(self).attenuations@ == old(self).attenuations@.push(scatter_result.attenuation)
                &&& final(self).ray == scatter_result.scattered
                &&& final(self).remaining == old(self).remaining - 1
            }),
    {
        if self.remaining == 0 {
            return Some(PathEnd::Exhausted);
        }
        match outcome {
            Bounce::Escaped => Some(PathEnd::Escaped(self.ray)),
            Bounce::Absorbed => Some(PathEnd::Absorbed),
            Bounce::Scattered(scatter_result) => {
                self.attenuations.push(scatter_result.attenuation);
                self.ray = scatter_result.scattered;
                self.remaining -= 1;
                None
            },
        }
    }
}

/// Follows `ray` through `world` for at most `depth` meetings with a surface.
///
/// The budget is looked at before the world is: with a depth of 0 nothing is
/// asked of the world and the path is black. A path that uses up its budget
/// is black as well, as is one that a surface absorbs. A ray that meets
/// nothing escapes, and the path ends with that ray.
pub fn ray_color<W: Hittable>(ray: &Ray, world: &W, depth: usize) -> (path: LightPath) where
    W::Material: Material,

    ensures
        path.attenuations@.len() <= depth,
        path.end is Exhausted <==> path.attenuations@.len() == depth,
        depth == 0 ==> path.is_black(),
        path.end matches PathEnd::Escaped(last) ==> misses(world, last) && (path.attenuations@.len() == 0
            ==> last == *ray),
        depth > 0 && misses(world, *ray) ==> path.attenuations@.len() == 0 && path.end == PathEnd::Escaped(
            *ray,
        ),
{
    let mut walk = Walk::new(*ray, depth);
    while walk.remaining > 0
        invariant
            walk.attenuations@.len() + walk.remaining == depth,
            walk.attenuations@.len() == 0 ==> walk.ray == *ray,
            misses(world, *ray) ==> walk.attenuations@.len() == 0,
        decreases walk.remaining,
    {
        let outcome = bounce(&walk.ray, world);
        match walk.step(outcome) {
            Some(end) => {
                return LightPath { attenuations: walk.attenuations, end };
            },
            None => {},
        }
    }
    LightPath { attenuations: walk.attenuations, end: PathEnd::Exhausted }
}

} // verus!

use crate::consts::NEAR_ZERO_THRESHOLD;
use crate::engine::hittables::hittable::HitRecord;
use crate::engine::materials::material::ScatterResult;
use crate::engine::ray::Ray;
use crate::vectors::color::Color;
use crate::vectors::scalar::Scalar;
use crate::vectors::scalar::ONE_BITS;
use crate::vectors::vector::Vector;
use vstd::prelude::*;

verus! {

/// A diffuse surface: light leaves it in a random direction around the
/// normal, tinted by the albedo.
#[derive(Clone, Copy, Debug)]
pub struct Lambertian {
    pub albedo: Color,
}

impl Lambertian {
    /// Whether a vector of the given length is too short to give a direction.
    pub open spec fn degenerate(length: Scalar) -> bool {
        length.below(Scalar { bits: NEAR_ZERO_THRESHOLD })
    }

    /// The direction in which light leaves: the candidate, unless it is too
    /// short, in which case the normal takes its place.
    pub open spec fn direction(normal: Vector, candidate: Vector, candidate_length: Scalar) -> Vector {
        if Self::degenerate(candidate_length) {
            normal
        } else {
            candidate
        }
    }

    /// The length of the direction that `direction` gives, from the lengths of
    /// the two vectors it chooses between.
    pub open spec fn direction_length(normal_length: Scalar, candidate_length: Scalar) -> Scalar {
        if Self::degenerate(candidate_length) {
            normal_length
        } else {
            candidate_length
        }
    }

    pub fn new(albedo: Color) -> (material: Lambertian)
        ensures
            material.albedo == albedo,
    {
        Lambertian { albedo }
    }

    /// Scatters the light that arrived at `hit_record`. `candidate` is the
    /// sum of the normal there and a random unit vector, and
    /// `candidate_length` its length. Never absorbs.
    pub fn scatter_with<M>(
        &self,
        hit_record: &HitRecord<M>,
        candidate: Vector,
        candidate_length: Scalar,
    ) -> (result: Option<ScatterResult>)
        ensures
            result == Some(
                ScatterResult {
                    scattered: Ray {
                        origin: hit_record.point,
                        direction: Self::direction(hit_record.normal, candidate, candidate_length),
                    },
                    attenuation: self.albedo,
                },
            ),
    {
        let mut scatter_direction = candidate;
        if candidate_length.lt(Scalar::new(NEAR_ZERO_THRESHOLD)) {
            scatter_direction = hit_record.normal;
        }
        let scattered = Ray::new(hit_record.point, scatter_direction);
        let attenuation = self.albedo;
        Some(ScatterResult::new(scattered, attenuation))
    }
}

/// A diffuse surface never sends light along a degenerate direction. The
/// chosen direction is as long as the candidate where the candidate is kept
/// and as long as the normal where the normal takes its place; that length is
/// never under the threshold when the normal's is not, and a unit normal's
/// is not.
pub proof fn lemma_direction_not_degenerate(normal_length: Scalar, candidate_length: Scalar)
    ensures
        !Lambertian::degenerate(Scalar { bits: ONE_BITS }),
        !Lambertian::degenerate(normal_length) ==> !Lambertian::degenerate(
            Lambertian::direction_length(normal_length, candidate_length),
        ),
{
}

} // verus!

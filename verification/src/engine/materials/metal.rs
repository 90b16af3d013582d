use crate::engine::hittables::hittable::HitRecord;
use crate::engine::materials::material::ScatterResult;
use crate::engine::ray::Ray;
use crate::vectors::color::Color;
use crate::vectors::scalar::Scalar;
use crate::vectors::scalar::ONE_BITS;
use crate::vectors::vector::Vector;
use vstd::prelude::*;

verus! {

/// A mirror, roughened by `fuzz`: the perturbation of the mirror direction
/// is drawn from a sphere of that radius.
#[derive(Clone, Copy, Debug)]
pub struct Metal {
    pub albedo: Color,
    pub fuzz: Scalar,
}

impl Metal {
    /// A metal is well formed when its fuzz lies in [0, 1].
    pub open spec fn well_formed(self) -> bool {
        !self.fuzz.nan() && 0 <= self.fuzz.rank() <= ONE_BITS
    }

    /// Whether light that would leave with the given clearance, the dot
    /// product of its direction and the surface normal, does leave: only
    /// where it stays on the outward side of the surface.
    pub open spec fn leaves(clearance: Scalar) -> bool {
        (Scalar { bits: 0 }).below(clearance)
    }

    /// A metal of the given tint, with a fuzz from 0 to 1.
    pub fn new(albedo: Color, fuzz: Scalar) -> (material: Metal)
        requires
            !fuzz.nan(),
            0 <= fuzz.rank() <= ONE_BITS,
        ensures
            material == (Metal { albedo, fuzz }),
            material.well_formed(),
    {
        Metal { albedo, fuzz }
    }

    /// Scatters the light that arrived at `hit_record`. `reflected` is the
    /// mirror direction with the fuzz added, and `clearance` its dot product
    /// with the normal there. The light is absorbed where it would leave
    /// into the surface.
    pub fn scatter_with<M>(&self, hit_record: &HitRecord<M>, reflected: Vector, clearance: Scalar) -> (result:
        Option<ScatterResult>)
        ensures
            result == if Self::leaves(clearance) {
                Some(
                    ScatterResult {
                        scattered: Ray { origin: hit_record.point, direction: reflected },
                        attenuation: self.albedo,
                    },
                )
            } else {
                None
            },
    {
        let scattered = Ray::new(hit_record.point, reflected);
        let attenuation = self.albedo;
        if clearance.gt(Scalar::zero()) {
            return Some(ScatterResult::new(scattered, attenuation));
        }
        None
    }
}

} // verus!

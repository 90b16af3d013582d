use crate::engine::hittables::hittable::HitRecord;
use crate::engine::materials::material::ScatterResult;
use crate::engine::ray::Ray;
use crate::vectors::color::Color;
use crate::vectors::scalar::Scalar;
use crate::vectors::scalar::ONE_BITS;
use crate::vectors::vector::Vector;
use vstd::prelude::*;

verus! {

/// A transparent surface such as glass or water: it bends part of the
/// light and mirrors the rest.
#[derive(Clone, Copy, Debug)]
pub struct Dielectric {
    pub refraction_index: Scalar,
}

impl Dielectric {
    /// Whether the light is mirrored rather than bent. `sine_ratio` is the
    /// refraction ratio times the sine of the angle of incidence: above 1
    /// Snell's law has no solution and the light must be mirrored. Otherwise
    /// it is mirrored with the probability `reflectance`, decided by `draw`,
    /// a number drawn uniformly from [0, 1).
    pub open spec fn reflects(sine_ratio: Scalar, reflectance: Scalar, draw: Scalar) -> bool {
        (Scalar { bits: ONE_BITS }).below(sine_ratio) || draw.below(reflectance)
    }

    /// The cosine of the angle of incidence as it is used: never above 1, and
    /// 1 where the dot product that gave it is no number, so that the sine
    /// computed from it is a number.
    pub open spec fn capped(cosine: Scalar) -> Scalar {
        if cosine.below(Scalar { bits: ONE_BITS }) {
            cosine
        } else {
            Scalar { bits: ONE_BITS }
        }
    }

    pub fn new(refraction_index: Scalar) -> (material: Dielectric)
        ensures
            material.refraction_index == refraction_index,
    {
        Dielectric { refraction_index }
    }

    /// The ratio of the refraction indices on the two sides of the surface,
    /// in the order in which the ray meets them. `into_material` is the index
    /// of air divided by that of the material, the ratio for a ray that
    /// enters through the front face; a ray that leaves sees the material's
    /// own index.
    pub fn get_refraction_ratio<M>(&self, hit_record: &HitRecord<M>, into_material: Scalar) -> (ratio: Scalar)
        ensures
            ratio == if hit_record.front_face {
                into_material
            } else {
                self.refraction_index
            },
    {
        if hit_record.front_face {
            return into_material;
        }
        self.refraction_index
    }

    /// The cosine of the angle of incidence. `cosine` is the dot product of
    /// the reversed unit direction of the ray and the normal; rounding may
    /// have carried it above 1, where no angle has its cosine.
    pub fn cos_theta(cosine: Scalar) -> (result: Scalar)
        ensures
            result == Self::capped(cosine),
    {
        if cosine.lt(Scalar::one()) {
            cosine
        } else {
            Scalar::one()
        }
    }

    /// Scatters the light that arrived at `hit_record`, along `reflected`
    /// where `reflects` holds of the three numbers and along `refracted`
    /// where it does not. Never absorbs and never tints: the attenuation is
    /// white.
    pub fn scatter_with<M>(
        &self,
        hit_record: &HitRecord<M>,
        sine_ratio: Scalar,
        reflectance: Scalar,
        draw: Scalar,
        reflected: Vector,
        refracted: Vector,
    ) -> (result: Option<ScatterResult>)
        ensures
            result == Some(
                ScatterResult {
                    scattered: Ray {
                        origin: hit_record.point,
                        direction: if Self::reflects(sine_ratio, reflectance, draw) {
                            reflected
                        } else {
                            refracted
                        },
                    },
                    attenuation: Color::white(),
                },
            ),
    {
        let attenuation = Color::white();
        let cannot_refract = sine_ratio.gt(Scalar::one());
        let direction;
        if cannot_refract || reflectance.gt(draw) {
            direction = reflected;
        } else {
            direction = refracted;
        }
        let result = ScatterResult::new(Ray::new(hit_record.point, direction), attenuation);
        Some(result)
    }
}

} // verus!

use crate::engine::hittables::hittable::HitRecord;
use crate::engine::ray::Ray;
use crate::vectors::color::Color;
use vstd::prelude::*;

verus! {

/// What leaves a surface: the outgoing ray, and how much of each channel of
/// the light that later arrives along it is passed on.
#[derive(Clone, Copy, Debug)]
pub struct ScatterResult {
    pub scattered: Ray,
    pub attenuation: Color,
}

impl ScatterResult {
    pub fn new(scattered: Ray, attenuation: Color) -> (result: ScatterResult)
        ensures
            result == (ScatterResult { scattered, attenuation }),
    {
        ScatterResult { scattered, attenuation }
    }
}

/// Should be implemented by types which represent surface materials.
///
/// The materials of this library hold the rules of scattering and none of
/// its arithmetic: an implementation computes the directions and draws the
/// random numbers, and hands them to the `scatter_with` of its material.
pub trait Material: Sized {
    /// Turns the ray that arrived at `hit_record` into the ray that leaves
    /// it, or into nothing where the surface swallows the light. The answer
    /// may depend on chance.
    fn scatter(&self, ray: &Ray, hit_record: &HitRecord<Self>) -> Option<ScatterResult>;
}

} // verus!

//! Surface materials and what they make of an incoming ray.
use vstd::prelude::*;
use crate::color::Color;
use crate::ray::Ray;

pub mod lambertian;
pub mod metal;
pub mod dielectric;

pub use lambertian::Lambertian;
pub use metal::Metal;
pub use dielectric::{Dielectric, Refraction};

verus! {

/// The outcome of a scattering: the ray that leaves the surface, and the color
/// that whatever light comes back along it is multiplied by.
#[derive(Clone, Copy, Debug, PartialEq, Eq, Structural)]
pub struct MaterialRayInteraction {
    pub attenuation: Color,
    pub scattered: Ray,
}

impl MaterialRayInteraction {
    pub fn new(attenuation: Color, scattered: Ray) -> (r: MaterialRayInteraction)
        ensures
            r == (MaterialRayInteraction { attenuation, scattered }),
    {
        MaterialRayInteraction { attenuation, scattered }
    }

    pub fn attenuation(&self) -> (r: Color)
        ensures
            r == self.attenuation,
    {
        self.attenuation
    }

    pub fn scattered(&self) -> (r: Ray)
        ensures
            r == self.scattered,
    {
        self.scattered
    }
}

/// The material of a surface: one of the three kinds.
#[derive(Clone, Copy, Debug, PartialEq, Eq, Structural)]
pub enum Material {
    Lambertian(Lambertian),
    Metal(Metal),
    Dielectric(Dielectric),
}

} // verus!

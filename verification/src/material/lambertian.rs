//! The diffuse material.
use vstd::prelude::*;
use crate::color::Color;
use crate::hit::HitRecord;
use crate::material::MaterialRayInteraction;
use crate::ray::Ray;
use crate::vec::Vec3;

verus! {

/// A diffuse surface: it scatters every ray and tints it by its albedo.
#[derive(Clone, Copy, Debug, PartialEq, Eq, Structural)]
pub struct Lambertian {
    albedo: Color,
}

impl Lambertian {
    pub closed spec fn albedo_spec(&self) -> Color {
        self.albedo
    }

    /// The direction that a scattering takes: the candidate, or the normal in its
    /// place when the candidate is near zero.
    pub open spec fn direction(normal: Vec3, candidate: Vec3) -> Vec3 {
        if candidate.near_zero() {
            normal
        } else {
            candidate
        }
    }

    pub fn new(color: Color) -> (r: Lambertian)
        ensures
            r.albedo() == color,
    {
        Lambertian { albedo: color }
    }

    #[verifier::when_used_as_spec(albedo_spec)]
    pub fn albedo(&self) -> (r: Color)
        ensures
            r == self.albedo(),
    {
        self.albedo
    }

    /// Scatters at `hit_record`. `candidate` is the sum of the hit's normal and a
    /// random unit vector, as the caller drew and added them.
    ///
    /// The ray that leaves starts at the hit point and never has a direction that
    /// is near zero while the normal itself is not.
    pub fn scatter(&self, hit_record: &HitRecord, candidate: Vec3) -> (r: Option<
        MaterialRayInteraction,
    >)
        ensures
            r == Some(
                MaterialRayInteraction {
                    attenuation: self.albedo(),
                    scattered: Ray {
                        origin: hit_record.p,
                        direction: Lambertian::direction(hit_record.normal, candidate),
                    },
                },
            ),
            !hit_record.normal.near_zero() ==> !r.unwrap().scattered.direction.near_zero(),
    {
        let mut scatter_direction = candidate;
        if scatter_direction.near_zero() {
            scatter_direction = hit_record.normal;
        }
        Some(MaterialRayInteraction::new(self.albedo, Ray::new(hit_record.p, scatter_direction)))
    }
}

} // verus!

//! The refractive material.
use vstd::prelude::*;
use crate::color::white;
use crate::hit::HitRecord;
use crate::material::MaterialRayInteraction;
use crate::ray::Ray;
use crate::scalar::Scalar;
use crate::vec::Vec3;

verus! {

/// A clear surface, such as glass, with its index of refraction.
#[derive(Clone, Copy, Debug, PartialEq, Eq, Structural)]
pub struct Dielectric {
    ir: Scalar,
}

/// What the caller has worked out of one ray at a dielectric surface.
///
/// With `ratio` the refraction ratio and `theta` the angle between the ray and
/// the normal: `bend` is `ratio * sin(theta)`, `reflectance` is Schlick's
/// approximation for `cos(theta)` and `ratio`, `draw` is a uniform random number
/// from zero up to one, `reflected` is the unit direction mirrored about the
/// normal and `refracted` is the unit direction bent by Snell's law.
#[derive(Clone, Copy, Debug, PartialEq, Eq, Structural)]
pub struct Refraction {
    pub bend: Scalar,
    pub reflectance: Scalar,
    pub draw: Scalar,
    pub reflected: Vec3,
    pub refracted: Vec3,
}

impl Refraction {
    /// Whether the ray is mirrored: when it cannot be refracted at all, `bend`
    /// being above one, or when the reflectance is above the random draw.
    pub open spec fn reflects(&self) -> bool {
        self.bend.gt(Scalar::one()) || self.reflectance.gt(self.draw)
    }

    /// The direction that the ray leaves in.
    pub open spec fn direction(&self) -> Vec3 {
        if self.reflects() {
            self.reflected
        } else {
            self.refracted
        }
    }
}

impl Dielectric {
    pub closed spec fn refractive_index_spec(&self) -> Scalar {
        self.ir
    }

    pub fn new(index_of_refraction: Scalar) -> (r: Dielectric)
        ensures
            r.refractive_index() == index_of_refraction,
    {
        Dielectric { ir: index_of_refraction }
    }

    #[verifier::when_used_as_spec(refractive_index_spec)]
    pub fn refractive_index(&self) -> (r: Scalar)
        ensures
            r == self.refractive_index(),
    {
        self.ir
    }

    /// The ratio of the refractive indices that a ray meets: `reciprocal`, which
    /// is one over the index, when it enters through the front face, and the
    /// index itself when it leaves from inside.
    pub fn refraction_ratio(&self, front_face: bool, reciprocal: Scalar) -> (r: Scalar)
        ensures
            r == if front_face {
                reciprocal
            } else {
                self.refractive_index()
            },
    {
        if front_face {
            reciprocal
        } else {
            self.ir
        }
    }

    /// Scatters at `hit_record`, always: mirrored or refracted as
    /// [`Refraction::reflects`] says, and without any loss of light.
    pub fn scatter(&self, hit_record: &HitRecord, refraction: &Refraction) -> (r: Option<
        MaterialRayInteraction,
    >)
        ensures
            r == Some(
                MaterialRayInteraction {
                    attenuation: Vec3::ones(),
                    scattered: Ray { origin: hit_record.p, direction: refraction.direction() },
                },
            ),
    {
        let cannot_refract: bool = refraction.bend.gt(Scalar::one());
        let direction: Vec3 = if cannot_refract || refraction.reflectance.gt(refraction.draw) {
            refraction.reflected
        } else {
            refraction.refracted
        };
        Some(MaterialRayInteraction::new(white(), Ray::new(hit_record.p, direction)))
    }
}

} // verus!

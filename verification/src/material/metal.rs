//! The reflective material.
use vstd::prelude::*;
use crate::color::Color;
use crate::hit::HitRecord;
use crate::material::MaterialRayInteraction;
use crate::ray::Ray;
use crate::scalar::Scalar;
use crate::vec::Vec3;

verus! {

/// A mirror-like surface with an albedo and a fuzz that blurs the reflection.
#[derive(Clone, Copy, Debug, PartialEq, Eq, Structural)]
pub struct Metal {
    albedo: Color,
    fuzz: Scalar,
}

impl Metal {
    pub closed spec fn albedo_spec(&self) -> Color {
        self.albedo
    }

    pub closed spec fn fuzz_spec(&self) -> Scalar {
        self.fuzz
    }

    /// The fuzz that a metal keeps of the one it is given: zero for one below
    /// zero, that one while it lies below one, else one.
    pub open spec fn capped(fuzz: Scalar) -> Scalar {
        if fuzz.lt(Scalar::zero()) {
            Scalar::zero()
        } else if fuzz.lt(Scalar::one()) {
            fuzz
        } else {
            Scalar::one()
        }
    }

    /// A metal of the given color. The fuzz is brought into the range from zero
    /// to one, and a NaN becomes one.
    pub fn new(color: Color, fuzz: Scalar) -> (r: Metal)
        ensures
            r.albedo() == color,
            r.fuzz() == Metal::capped(fuzz),
            Scalar::zero().le(r.fuzz()),
            r.fuzz().le(Scalar::one()),
            Scalar::zero().le(fuzz) && fuzz.le(Scalar::one()) ==> r.fuzz() == fuzz,
    {
        let kept: Scalar = if fuzz.lt(Scalar::zero()) {
            Scalar::zero()
        } else if fuzz.lt(Scalar::one()) {
            fuzz
        } else {
            Scalar::one()
        };
        Metal { albedo: color, fuzz: kept }
    }

    #[verifier::when_used_as_spec(albedo_spec)]
    pub fn albedo(&self) -> (r: Color)
        ensures
            r == self.albedo(),
    {
        self.albedo
    }

    #[verifier::when_used_as_spec(fuzz_spec)]
    pub fn fuzz(&self) -> (r: Scalar)
        ensures
            r == self.fuzz(),
    {
        self.fuzz
    }

    /// Scatters or absorbs at `hit_record`. `perturbed` is the incoming direction
    /// reflected about the hit's normal, plus the fuzz times a random unit vector;
    /// `facing` is the dot product of `perturbed` and the normal.
    ///
    /// The ray is scattered along `perturbed` exactly when `facing` is above zero,
    /// and absorbed otherwise.
    pub fn scatter(&self, hit_record: &HitRecord, perturbed: Vec3, facing: Scalar) -> (r: Option<
        MaterialRayInteraction,
    >)
        ensures
            r == if facing.gt(Scalar::zero()) {
                Some(
                    MaterialRayInteraction {
                        attenuation: self.albedo(),
                        scattered: Ray { origin: hit_record.p, direction: perturbed },
                    },
                )
            } else {
                None
            },
    {
        let scattered: Ray = Ray::new(hit_record.p, perturbed);
        if facing.gt(Scalar::zero()) {
            Some(MaterialRayInteraction::new(self.albedo, scattered))
        } else {
            None
        }
    }
}

} // verus!

//! Triples of scalars: points, directions and colors.
use vstd::prelude::*;
use crate::scalar::Scalar;

verus! {

/// The bit pattern of the threshold under which a component counts as near zero:
/// ten to the power of minus eight.
pub const NEAR_ZERO_BITS: u64 = 0x3e45_798e_e230_8c3a;

/// Three scalars, used alike as a point, a direction and a color.
#[derive(Clone, Copy, Debug, PartialEq, Eq, Structural)]
pub struct Vec3 {
    pub x: Scalar,
    pub y: Scalar,
    pub z: Scalar,
}

pub type Point3 = Vec3;

/// What `clamp` makes of one component: `min` unless the component is at least
/// `min`, then `max` unless that is at most `max`.
pub open spec fn clamp_component(c: Scalar, min: Scalar, max: Scalar) -> Scalar {
    let low = if c.ge(min) { c } else { min };
    if low.le(max) { low } else { max }
}

impl Vec3 {
    pub open spec fn zeros_spec() -> Vec3 {
        Vec3 { x: Scalar::zero_spec(), y: Scalar::zero_spec(), z: Scalar::zero_spec() }
    }

    pub open spec fn ones_spec() -> Vec3 {
        Vec3 { x: Scalar::one_spec(), y: Scalar::one_spec(), z: Scalar::one_spec() }
    }

    /// The vector with each component negated.
    pub open spec fn neg_spec(self) -> Vec3 {
        Vec3 { x: self.x.neg(), y: self.y.neg(), z: self.z.neg() }
    }

    /// The vector with each component clamped by [`clamp_component`].
    pub open spec fn clamp_spec(self, min: Scalar, max: Scalar) -> Vec3 {
        Vec3 {
            x: clamp_component(self.x, min, max),
            y: clamp_component(self.y, min, max),
            z: clamp_component(self.z, min, max),
        }
    }

    /// Whether every component lies below the threshold. The components are
    /// compared as they are, not by their absolute values, so a vector with three
    /// large negative components is near zero in this sense.
    pub open spec fn near_zero_spec(self) -> bool {
        let threshold = Scalar { bits: NEAR_ZERO_BITS };
        self.x.lt(threshold) && self.y.lt(threshold) && self.z.lt(threshold)
    }

    /// What becomes of a candidate drawn from the cube around the unit sphere:
    /// it is kept when its length is below one, and otherwise it is thrown away.
    pub open spec fn kept_in_unit_sphere(candidate: Vec3, length: Scalar) -> Option<Vec3> {
        if length.lt(Scalar::one()) {
            Some(candidate)
        } else {
            None
        }
    }

    /// The vector or its opposite, whichever lies on the side of a normal, given
    /// `facing`, the dot product of the vector and that normal: the vector itself
    /// when `facing` is above zero.
    pub open spec fn toward(on_unit_sphere: Vec3, facing: Scalar) -> Vec3 {
        if facing.gt(Scalar::zero()) {
            on_unit_sphere
        } else {
            on_unit_sphere.neg()
        }
    }

    pub fn new(x: Scalar, y: Scalar, z: Scalar) -> (r: Vec3)
        ensures
            r == (Vec3 { x, y, z }),
    {
        Vec3 { x, y, z }
    }

    /// The vector of three zeros.
    #[verifier::when_used_as_spec(zeros_spec)]
    pub fn zeros() -> (r: Vec3)
        ensures
            r == Vec3::zeros_spec(),
    {
        Vec3 { x: Scalar::zero(), y: Scalar::zero(), z: Scalar::zero() }
    }

    /// The vector of three ones.
    #[verifier::when_used_as_spec(ones_spec)]
    pub fn ones() -> (r: Vec3)
        ensures
            r == Vec3::ones_spec(),
    {
        Vec3 { x: Scalar::one(), y: Scalar::one(), z: Scalar::one() }
    }

    /// The opposite vector.
    #[verifier::when_used_as_spec(neg_spec)]
    pub fn neg(self) -> (r: Vec3)
        ensures
            r == self.neg_spec(),
    {
        Vec3 { x: self.x.neg(), y: self.y.neg(), z: self.z.neg() }
    }

    /// Each component brought into `[min, max]`. A NaN component becomes `min`.
    /// With bounds that are numbers and in order, every component of the result
    /// lies within them, and a component that already did is left as it was.
    #[verifier::when_used_as_spec(clamp_spec)]
    pub fn clamp(self, min: Scalar, max: Scalar) -> (r: Vec3)
        ensures
            r == self.clamp_spec(min, max),
            min.le(max) ==> min.le(r.x) && r.x.le(max) && min.le(r.y) && r.y.le(max) && min.le(
                r.z,
            ) && r.z.le(max),
            min.le(self.x) && self.x.le(max) ==> r.x == self.x,
            min.le(self.y) && self.y.le(max) ==> r.y == self.y,
            min.le(self.z) && self.z.le(max) ==> r.z == self.z,
    {
        let x: Scalar = if self.x.ge(min) { self.x } else { min };
        let y: Scalar = if self.y.ge(min) { self.y } else { min };
        let z: Scalar = if self.z.ge(min) { self.z } else { min };
        Vec3 {
            x: if x.le(max) { x } else { max },
            y: if y.le(max) { y } else { max },
            z: if z.le(max) { z } else { max },
        }
    }

    /// One round of sampling a point inside the unit sphere by rejection.
    /// `candidate` is a random vector with each component from minus one up to
    /// one, and `length` is its length. The caller draws again until a candidate
    /// is kept; a point of the unit disk is drawn the same way, from candidates
    /// that vary in two components only.
    pub fn random_in_unit_sphere(candidate: Vec3, length: Scalar) -> (r: Option<Vec3>)
        ensures
            r == Vec3::kept_in_unit_sphere(candidate, length),
            r is Some <==> length.lt(Scalar::one()),
    {
        if length.lt(Scalar::one()) {
            Some(candidate)
        } else {
            None
        }
    }

    /// A random unit vector turned to the side of a normal. `on_unit_sphere` is
    /// the random vector and `facing` its dot product with the normal.
    pub fn random_on_hemisphere(on_unit_sphere: Vec3, facing: Scalar) -> (r: Vec3)
        ensures
            r == Vec3::toward(on_unit_sphere, facing),
    {
        if facing.gt(Scalar::zero()) {
            on_unit_sphere
        } else {
            on_unit_sphere.neg()
        }
    }

    /// Whether the vector is too short to serve as a direction.
    #[verifier::when_used_as_spec(near_zero_spec)]
    pub fn near_zero(self) -> (r: bool)
        ensures
            r == self.near_zero_spec(),
    {
        let threshold = Scalar::from_bits(NEAR_ZERO_BITS);
        self.x.lt(threshold) && self.y.lt(threshold) && self.z.lt(threshold)
    }
}

} // verus!

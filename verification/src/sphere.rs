//! The sphere, and how it answers a ray.
use vstd::prelude::*;
use crate::hit::{accepted, HitRecord, Hitable};
use crate::material::Material;
use crate::scalar::Scalar;
use crate::vec::{Point3, Vec3};

verus! {

/// A sphere. A negative radius turns its surface inside out, which makes the
/// hollow of a glass bubble.
#[derive(Clone, Copy, Debug, PartialEq, Eq, Structural)]
pub struct Sphere {
    center: Point3,
    radius: Scalar,
    material: Material,
}

/// One point where a ray's line meets a sphere's surface, as the caller has
/// measured it: the ray parameter `t`, the point `p` at that parameter, the
/// `outward_normal` there (the point less the center, over the radius), and
/// `facing`, the dot product of the ray's direction and that normal.
#[derive(Clone, Copy, Debug, PartialEq, Eq, Structural)]
pub struct Contact {
    pub t: Scalar,
    pub p: Point3,
    pub outward_normal: Vec3,
    pub facing: Scalar,
}

/// What the caller has measured of one ray against one sphere: the discriminant
/// of the quadratic `|origin + t * direction - center|^2 = radius^2`, and the
/// contacts at its smaller and its larger root.
#[derive(Clone, Copy, Debug, PartialEq, Eq, Structural)]
pub struct Crossing {
    pub discriminant: Scalar,
    pub near: Contact,
    pub far: Contact,
}

impl Contact {
    /// Whether the ray meets the surface from outside: its direction runs
    /// against the outward normal.
    pub open spec fn front_face(&self) -> bool {
        self.facing.lt(Scalar::zero())
    }

    /// The normal turned against the ray.
    pub open spec fn normal(&self) -> Vec3 {
        if self.front_face() {
            self.outward_normal
        } else {
            self.outward_normal.neg()
        }
    }

    /// `facing` as it stands for the turned normal: negated along with it.
    pub open spec fn turned_facing(&self) -> Scalar {
        if self.front_face() {
            self.facing
        } else {
            self.facing.neg()
        }
    }
}

impl Crossing {
    /// Whether, wherever the discriminant admits roots, they are numbers and the
    /// near one is not above the far one.
    pub open spec fn in_order(&self) -> bool {
        !self.discriminant.lt(Scalar::zero()) ==> self.near.t.le(self.far.t)
    }

    /// The contact that counts as the hit within `[t_min, t_max]`: none under a
    /// negative discriminant, else the near one if its parameter is accepted,
    /// else the far one if its is.
    pub open spec fn choose_contact(&self, t_min: Scalar, t_max: Scalar) -> Option<Contact> {
        if self.discriminant.lt(Scalar::zero()) {
            None
        } else if accepted(self.near.t, t_min, t_max) {
            Some(self.near)
        } else if accepted(self.far.t, t_min, t_max) {
            Some(self.far)
        } else {
            None
        }
    }
}

impl Sphere {
    pub closed spec fn center_spec(&self) -> Point3 {
        self.center
    }

    pub closed spec fn radius_spec(&self) -> Scalar {
        self.radius
    }

    pub closed spec fn material_spec(&self) -> Material {
        self.material
    }

    /// The record of a hit at `contact`.
    pub open spec fn record(&self, contact: Contact) -> HitRecord {
        HitRecord {
            p: contact.p,
            normal: contact.normal(),
            t: contact.t,
            front_face: contact.front_face(),
            material: self.material(),
        }
    }

    pub fn new(center: Point3, radius: Scalar, material: Material) -> (r: Sphere)
        ensures
            r.center() == center,
            r.radius() == radius,
            r.material() == material,
    {
        Sphere { center, radius, material }
    }

    #[verifier::when_used_as_spec(center_spec)]
    pub fn center(&self) -> (r: Point3)
        ensures
            r == self.center(),
    {
        self.center
    }

    #[verifier::when_used_as_spec(radius_spec)]
    pub fn radius(&self) -> (r: Scalar)
        ensures
            r == self.radius(),
    {
        self.radius
    }

    #[verifier::when_used_as_spec(material_spec)]
    pub fn material(&self) -> (r: Material)
        ensures
            r == self.material(),
    {
        self.material
    }
}

impl Hitable for Sphere {
    type Probe = Crossing;

    /// Every crossing is taken as it is: nothing is asked of what it holds.
    open spec fn fits(&self, probe: &Crossing) -> bool {
        true
    }

    open spec fn hit_spec(&self, probe: &Crossing, ray_tmin: Scalar, ray_tmax: Scalar) -> Option<
        HitRecord,
    > {
        match probe.choose_contact(ray_tmin, ray_tmax) {
            Some(contact) => Some(self.record(contact)),
            None => None,
        }
    }

    /// The hit of a ray on this sphere within `[ray_tmin, ray_tmax]`, from the
    /// ray's crossing of it.
    ///
    /// There is a hit exactly when the discriminant is not below zero and one of
    /// the two roots is taken for the interval; the near root goes first. The
    /// record holds that contact's point and parameter, this sphere's material,
    /// and the contact's outward normal, negated if the ray came from inside.
    fn hit(&self, probe: &Crossing, ray_tmin: Scalar, ray_tmax: Scalar) -> (r: Option<HitRecord>) {
        if probe.discriminant.lt(Scalar::zero()) {
            return None;
        }
        let mut contact: Contact = probe.near;
        if contact.t.lt(ray_tmin) || contact.t.gt(ray_tmax) {
            contact = probe.far;
            if contact.t.lt(ray_tmin) || contact.t.gt(ray_tmax) {
                return None;
            }
        }
        let hit_front_face: bool = contact.facing.lt(Scalar::zero());
        let hit_normal: Vec3 = if hit_front_face {
            contact.outward_normal
        } else {
            contact.outward_normal.neg()
        };
        Some(
            HitRecord {
                p: contact.p,
                normal: hit_normal,
                t: contact.t,
                front_face: hit_front_face,
                material: self.material,
            },
        )
    }

    proof fn lemma_hit_accepted(&self, probe: &Crossing, ray_tmin: Scalar, ray_tmax: Scalar) {
    }
}

/// The normal of a hit never runs along the ray: `facing`, negated whenever the
/// normal is, is not above zero. And the normal is the outward one or its
/// opposite, so the two have components of the same magnitudes.
pub proof fn lemma_normal_against_ray(contact: Contact)
    ensures
        !contact.turned_facing().gt(Scalar::zero()),
        contact.normal() == contact.outward_normal || contact.normal()
            == contact.outward_normal.neg(),
        contact.normal().x.magnitude() == contact.outward_normal.x.magnitude(),
        contact.normal().y.magnitude() == contact.outward_normal.y.magnitude(),
        contact.normal().z.magnitude() == contact.outward_normal.z.magnitude(),
{
}

} // verus!

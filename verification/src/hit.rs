//! Hit records, the protocol of things that a ray can hit, and the scene as an
//! ordered list of such things.
use vstd::prelude::*;
use crate::material::Material;
use crate::scalar::Scalar;
use crate::sphere::{Crossing, Sphere};
use crate::vec::{Point3, Vec3};

verus! {

/// Where a ray met a surface.
///
/// `normal` is the surface normal turned against the incoming ray, `t` the ray
/// parameter of the meeting point `p`, and `front_face` says whether the ray came
/// from the side that the outward normal points to.
#[derive(Clone, Copy, Debug, PartialEq, Eq, Structural)]
pub struct HitRecord {
    pub p: Point3,
    pub normal: Vec3,
    pub t: Scalar,
    pub front_face: bool,
    pub material: Material,
}

/// Whether a ray parameter is taken for the interval `[t_min, t_max]`: it is
/// unless it compares below `t_min` or above `t_max`. A NaN compares neither way
/// and is taken.
pub open spec fn accepted(t: Scalar, t_min: Scalar, t_max: Scalar) -> bool {
    !(t.lt(t_min) || t.gt(t_max))
}

/// Something that a ray can hit.
///
/// A ray is put to it as a `Probe`: what the caller has measured of the ray
/// against this thing. The answer depends on nothing else, and the parameter of a
/// hit is always one that is taken for the interval asked for.
pub trait Hitable {
    type Probe;

    /// Whether `probe` is a probe of this thing.
    spec fn fits(&self, probe: &Self::Probe) -> bool;

    /// What `hit` returns.
    spec fn hit_spec(&self, probe: &Self::Probe, ray_tmin: Scalar, ray_tmax: Scalar) -> Option<
        HitRecord,
    >;

    /// The hit of the probed ray within `[ray_tmin, ray_tmax]`, if there is one.
    fn hit(&self, probe: &Self::Probe, ray_tmin: Scalar, ray_tmax: Scalar) -> (r: Option<
        HitRecord,
    >)
        requires
            self.fits(probe),
        ensures
            r == self.hit_spec(probe, ray_tmin, ray_tmax),
            r matches Some(h) ==> accepted(h.t, ray_tmin, ray_tmax),
    ;

    /// The parameter of a hit is taken for the interval.
    proof fn lemma_hit_accepted(&self, probe: &Self::Probe, ray_tmin: Scalar, ray_tmax: Scalar)
        requires
            self.fits(probe),
        ensures
            self.hit_spec(probe, ray_tmin, ray_tmax) matches Some(h) ==> accepted(
                h.t,
                ray_tmin,
                ray_tmax,
            ),
    ;
}

/// The scene: things to hit, in the order in which they were put in.
pub struct HitableList<H: Hitable> {
    objects: Vec<H>,
}

impl<H: Hitable> View for HitableList<H> {
    type V = Seq<H>;

    closed spec fn view(&self) -> Seq<H> {
        self.objects@
    }
}

/// The upper bound that the next object is asked with: the parameter of the
/// hit found so far, or `t_max` while there is none.
pub open spec fn bound_after(found: Option<HitRecord>, t_max: Scalar) -> Scalar {
    match found {
        Some(h) => h.t,
        None => t_max,
    }
}

/// The hit that is kept of the one found so far and the next object's answer:
/// the answer only if it is the first or strictly closer.
pub open spec fn nearer(found: Option<HitRecord>, answer: Option<HitRecord>) -> Option<HitRecord> {
    match (found, answer) {
        (_, None) => found,
        (None, Some(_)) => answer,
        (Some(f), Some(a)) => if a.t.lt(f.t) {
            answer
        } else {
            found
        },
    }
}

/// The hit that stands after the first `n` objects have been asked, each with
/// its own probe and with the bound that the objects before it left.
pub open spec fn scan<H: Hitable>(
    objects: Seq<H>,
    probes: Seq<H::Probe>,
    t_min: Scalar,
    t_max: Scalar,
    n: nat,
) -> Option<HitRecord>
    decreases n,
{
    if n == 0 {
        None
    } else {
        let found = scan(objects, probes, t_min, t_max, (n - 1) as nat);
        nearer(
            found,
            objects[n - 1].hit_spec(&probes[n - 1], t_min, bound_after(found, t_max)),
        )
    }
}

/// Whether `probes` holds one fitting probe for each of `objects`, in their
/// order.
pub open spec fn all_fit<H: Hitable>(objects: Seq<H>, probes: Seq<H::Probe>) -> bool {
    &&& probes.len() == objects.len()
    &&& forall|i: int| 0 <= i < objects.len() ==> (#[trigger] objects[i]).fits(&probes[i])
}

/// What object `i` answers when it is asked by itself, with the whole interval.
pub open spec fn alone<H: Hitable>(
    objects: Seq<H>,
    probes: Seq<H::Probe>,
    t_min: Scalar,
    t_max: Scalar,
    i: int,
) -> Option<HitRecord> {
    objects[i].hit_spec(&probes[i], t_min, t_max)
}

impl<H: Hitable> HitableList<H> {
    pub fn new(objects: Vec<H>) -> (r: HitableList<H>)
        ensures
            r@ == objects@,
    {
        HitableList { objects }
    }

    /// Puts `object` behind the objects that are there.
    pub fn add(&mut self, object: H)
        ensures
            final(self)@ == old(self)@.push(object),
    {
        self.objects.push(object);
    }

    /// The number of objects.
    pub fn len(&self) -> (r: usize)
        ensures
            r == self@.len(),
    {
        self.objects.len()
    }

    /// The object at `index`.
    pub fn get(&self, index: usize) -> (r: Option<&H>)
        ensures
            r == if index < self@.len() {
                Some(&self@[index as int])
            } else {
                None
            },
    {
        if index < self.objects.len() {
            Some(&self.objects[index])
        } else {
            None
        }
    }
}

impl<H: Hitable> Hitable for HitableList<H> {
    /// One probe for each object, in the objects' order.
    type Probe = Vec<H::Probe>;

    open spec fn fits(&self, probe: &Vec<H::Probe>) -> bool {
        all_fit(self@, probe@)
    }

    open spec fn hit_spec(&self, probe: &Vec<H::Probe>, ray_tmin: Scalar, ray_tmax: Scalar) -> Option<
        HitRecord,
    > {
        scan(self@, probe@, ray_tmin, ray_tmax, self@.len())
    }

    /// The nearest hit of the probed ray within `[ray_tmin, ray_tmax]`.
    ///
    /// The objects are asked in order, each with the parameter of the hit found so
    /// far as its upper bound, and an answer replaces that hit only if it is
    /// strictly closer: of two hits at the same parameter the earlier object's
    /// stays. For a list of spheres see [`lemma_scene_hit_is_nearest`].
    fn hit(&self, probe: &Vec<H::Probe>, ray_tmin: Scalar, ray_tmax: Scalar) -> (r: Option<
        HitRecord,
    >) {
        let mut hit_anything: Option<HitRecord> = None;
        let mut closest_so_far: Scalar = ray_tmax;
        let mut i: usize = 0;
        while i < self.objects.len()
            invariant
                i <= self.objects@.len(),
                all_fit(self.objects@, probe@),
                hit_anything == scan(self.objects@, probe@, ray_tmin, ray_tmax, i as nat),
                closest_so_far == bound_after(hit_anything, ray_tmax),
                hit_anything matches Some(h) ==> accepted(h.t, ray_tmin, ray_tmax),
            decreases self.objects@.len() - i,
        {
            assert(self.objects@[i as int].fits(&probe@[i as int]));
            if let Some(hit) = self.objects[i].hit(&probe[i], ray_tmin, closest_so_far) {
                let closer: bool = match hit_anything {
                    None => true,
                    Some(found) => hit.t.lt(found.t),
                };
                if closer {
                    closest_so_far = hit.t;
                    hit_anything = Some(hit);
                }
            }
            i += 1;
        }
        hit_anything
    }

    proof fn lemma_hit_accepted(&self, probe: &Vec<H::Probe>, ray_tmin: Scalar, ray_tmax: Scalar) {
        lemma_scan_accepted(self@, probe@, ray_tmin, ray_tmax, self@.len());
    }
}

/// The parameter of the hit that stands after `n` objects is taken for the
/// interval that the scan was asked for.
pub proof fn lemma_scan_accepted<H: Hitable>(
    objects: Seq<H>,
    probes: Seq<H::Probe>,
    t_min: Scalar,
    t_max: Scalar,
    n: nat,
)
    requires
        n <= objects.len(),
        all_fit(objects, probes),
    ensures
        scan(objects, probes, t_min, t_max, n) matches Some(h) ==> accepted(h.t, t_min, t_max),
    decreases n,
{
    if n > 0 {
        lemma_scan_accepted(objects, probes, t_min, t_max, (n - 1) as nat);
        let found = scan(objects, probes, t_min, t_max, (n - 1) as nat);
        assert(objects[n - 1].fits(&probes[n - 1]));
        objects[n - 1].lemma_hit_accepted(&probes[n - 1], t_min, bound_after(found, t_max));
    }
}

/// Whether the first `n` crossings hold their roots in order.
pub open spec fn all_in_order(crossings: Seq<Crossing>, n: nat) -> bool {
    forall|i: int| 0 <= i < n ==> (#[trigger] crossings[i]).in_order()
}

/// A scene of spheres hits the nearest of the hits that its spheres have by
/// themselves, and of several nearest ones the first.
///
/// Given an upper bound that is a number, and crossings whose roots are numbers
/// with the near one not above the far one: the scene misses exactly when every
/// sphere misses when asked alone; and when it hits, the index returned is that
/// of a sphere whose own hit this is, no other sphere's own hit is closer, and
/// every earlier sphere's own hit is strictly farther.
pub proof fn lemma_scene_hit_is_nearest(
    objects: Seq<Sphere>,
    crossings: Seq<Crossing>,
    t_min: Scalar,
    t_max: Scalar,
    n: nat,
) -> (j: int)
    requires
        n <= objects.len(),
        n <= crossings.len(),
        !t_max.is_nan(),
        all_in_order(crossings, n),
    ensures
        scan(objects, crossings, t_min, t_max, n) is None <==> forall|i: int|
            0 <= i < n ==> #[trigger] alone(objects, crossings, t_min, t_max, i) is None,
        scan(objects, crossings, t_min, t_max, n) matches Some(h) ==> {
            &&& 0 <= j < n
            &&& alone(objects, crossings, t_min, t_max, j) == Some(h)
            &&& !h.t.is_nan()
            &&& h.t.le(t_max)
            &&& forall|i: int|
                0 <= i < n ==> (#[trigger] alone(objects, crossings, t_min, t_max, i) matches Some(
                    g,
                ) ==> h.t.le(g.t))
            &&& forall|i: int|
                0 <= i < j ==> (#[trigger] alone(objects, crossings, t_min, t_max, i) matches Some(
                    g,
                ) ==> h.t.lt(g.t))
        },
    decreases n,
{
    if n == 0 {
        0
    } else {
        let k = lemma_scene_hit_is_nearest(objects, crossings, t_min, t_max, (n - 1) as nat);
        let found = scan(objects, crossings, t_min, t_max, (n - 1) as nat);
        assert(crossings[n - 1].in_order());
        if scan(objects, crossings, t_min, t_max, n) == found && found is Some {
            k
        } else {
            n - 1
        }
    }
}

} // verus!

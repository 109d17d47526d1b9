//! The camera: its geometry, the course of a path, and the finished image.
use vstd::prelude::*;
use crate::canvas::{canvas_height, canvas_samples, canvas_width, into_raw, new_canvas, put_pixel};
use crate::color::Color;
use crate::hit::{HitRecord, Hitable};
use crate::material::MaterialRayInteraction;
use crate::scalar::Scalar;
use crate::vec::{Point3, Vec3};

verus! {

/// The bit pattern of the smallest ray parameter at which a path looks for a
/// hit, one thousandth: a ray that leaves a surface does not find that surface
/// again through a rounding error.
pub const HIT_MIN_BITS: u64 = 0x3f50_624d_d2f1_a9fc;

/// The bit pattern of the largest value that a finished channel may have, 999
/// thousandths: times 256 it still stays below 256.
pub const CHANNEL_MAX_BITS: u64 = 0x3fef_f7ce_d916_872b;

/// The geometry that the caller has derived for a camera from where it stands
/// and what it looks at.
///
/// `u`, `v` and `w` are the unit vectors to the camera's right, upwards, and
/// against its view. `pixel00_loc` is the center of the pixel in the top left
/// corner of the focus plane, `pixel_delta_u` and `pixel_delta_v` lead from a
/// pixel to its right and its lower neighbor, and `defocus_disk_u` and
/// `defocus_disk_v` span the disk that rays start from.
#[derive(Clone, Copy, Debug, PartialEq, Eq, Structural)]
pub struct Frame {
    pub u: Vec3,
    pub v: Vec3,
    pub w: Vec3,
    pub pixel00_loc: Point3,
    pub pixel_delta_u: Vec3,
    pub pixel_delta_v: Vec3,
    pub defocus_disk_u: Vec3,
    pub defocus_disk_v: Vec3,
}

/// A camera: the size of its image, how it samples, and its geometry. None of
/// it changes after `new`.
#[derive(Clone, Copy, Debug, PartialEq, Eq, Structural)]
pub struct Camera {
    image_width: u32,
    image_height: u32,
    aspect_ratio: Scalar,
    vfov: Scalar,
    center: Point3,
    samples_per_pixel: u32,
    max_depth: u32,
    defocus_angle: Scalar,
    frame: Frame,
}

/// The light that a path ends with.
#[derive(Clone, Copy, Debug, PartialEq, Eq, Structural)]
pub enum Shade {
    /// The path was cut off after its last allowed bounce.
    White,
    /// A surface absorbed the ray.
    Black,
    /// The ray left the scene, into the background gradient.
    Background,
}

/// What became of a ray that was sent into the scene.
#[derive(Clone, Copy, Debug, PartialEq, Eq, Structural)]
pub enum Encounter {
    /// It hit nothing.
    Missed,
    /// It hit a surface that absorbed it.
    Absorbed,
    /// It hit a surface that scattered it: the path goes on with the scattered
    /// ray, and its light is multiplied by the attenuation.
    Scattered,
}

impl Encounter {
    /// What became of a ray, given the hit that the scene answered with and what
    /// the material at that hit made of the ray: without a hit the ray missed,
    /// whatever the second argument holds; with a hit it was scattered if the
    /// material gave an interaction, and absorbed if it gave none.
    pub open spec fn of_spec(
        hit: Option<HitRecord>,
        scattering: Option<MaterialRayInteraction>,
    ) -> Encounter {
        match hit {
            None => Encounter::Missed,
            Some(_) => match scattering {
                None => Encounter::Absorbed,
                Some(_) => Encounter::Scattered,
            },
        }
    }

    pub fn of(hit: &Option<HitRecord>, scattering: &Option<MaterialRayInteraction>) -> (r:
        Encounter)
        ensures
            r == Encounter::of_spec(*hit, *scattering),
            r is Missed <==> hit is None,
            r is Absorbed <==> hit is Some && scattering is None,
            r is Scattered <==> hit is Some && scattering is Some,
    {
        match hit {
            None => Encounter::Missed,
            Some(_) => match scattering {
                None => Encounter::Absorbed,
                Some(_) => Encounter::Scattered,
            },
        }
    }
}

/// The state of a path: still under way, with the number of rays it may yet
/// send, or finished. A path under way sends at least one ray: a depth of zero
/// there counts as one.
#[derive(Clone, Copy, Debug, PartialEq, Eq, Structural)]
pub enum Path {
    Tracing { depth: u32 },
    Finished(Shade),
}

impl Path {
    /// A path that may send `depth` rays: with none it is finished at once, in
    /// white.
    pub open spec fn start_spec(depth: u32) -> Path {
        if depth == 0 {
            Path::Finished(Shade::White)
        } else {
            Path::Tracing { depth }
        }
    }

    /// The state after the ray that a path under way has sent met `encounter`.
    /// A finished path stays as it is.
    pub open spec fn next_spec(self, encounter: Encounter) -> Path {
        match self {
            Path::Finished(_) => self,
            Path::Tracing { depth } => match encounter {
                Encounter::Missed => Path::Finished(Shade::Background),
                Encounter::Absorbed => Path::Finished(Shade::Black),
                Encounter::Scattered => if depth <= 1 {
                    Path::Finished(Shade::White)
                } else {
                    Path::Tracing { depth: (depth - 1) as u32 }
                },
            },
        }
    }

    /// The state after a whole run of encounters, one ray after the other.
    pub open spec fn run(self, encounters: Seq<Encounter>) -> Path
        decreases encounters.len(),
    {
        if encounters.len() == 0 {
            self
        } else {
            self.next_spec(encounters[0]).run(encounters.drop_first())
        }
    }

    /// The number of rays that the path may yet send: none once it is finished,
    /// and at least one while it is under way.
    pub open spec fn rays_left(self) -> nat {
        match self {
            Path::Finished(_) => 0,
            Path::Tracing { depth } => if depth == 0 {
                1
            } else {
                depth as nat
            },
        }
    }

    #[verifier::when_used_as_spec(start_spec)]
    pub fn start(depth: u32) -> (r: Path)
        ensures
            r == Path::start_spec(depth),
            depth == 0 ==> r == Path::Finished(Shade::White),
    {
        if depth == 0 {
            Path::Finished(Shade::White)
        } else {
            Path::Tracing { depth }
        }
    }

    /// Takes one step. A miss ends the path in the background, an absorption in
    /// black; a scattering leaves it one ray less, and ends it in white when
    /// that was its last.
    #[verifier::when_used_as_spec(next_spec)]
    pub fn next(self, encounter: Encounter) -> (r: Path)
        ensures
            r == self.next_spec(encounter),
            self is Tracing && encounter is Missed ==> r == Path::Finished(Shade::Background),
            r.rays_left() <= self.rays_left(),
            self is Tracing ==> r.rays_left() < self.rays_left(),
    {
        match self {
            Path::Finished(_) => self,
            Path::Tracing { depth } => match encounter {
                Encounter::Missed => Path::Finished(Shade::Background),
                Encounter::Absorbed => Path::Finished(Shade::Black),
                Encounter::Scattered => Path::start(if depth == 0 { 0 } else { depth - 1 }),
            },
        }
    }
}

/// A path is finished once it has sent as many rays as its depth allows,
/// whatever they met.
pub proof fn lemma_path_ends(path: Path, encounters: Seq<Encounter>)
    requires
        encounters.len() >= path.rays_left(),
    ensures
        path.run(encounters) is Finished,
    decreases encounters.len(),
{
    if encounters.len() > 0 {
        lemma_path_ends(path.next(encounters[0]), encounters.drop_first());
    }
}

/// A path of depth zero is white, whatever is in the scene: it sends no ray.
pub proof fn lemma_no_depth_is_white(encounters: Seq<Encounter>)
    ensures
        Path::start(0).run(encounters) == Path::Finished(Shade::White),
    decreases encounters.len(),
{
    if encounters.len() > 0 {
        lemma_no_depth_is_white(encounters.drop_first());
    }
}

/// A path whose first ray misses ends in the background, and so does one that
/// misses after any number of scatterings that its depth allows.
pub proof fn lemma_miss_is_background(depth: u32, scatterings: nat, rest: Seq<Encounter>)
    requires
        scatterings < depth,
    ensures
        Path::start(depth).run(
            Seq::new(scatterings, |i: int| Encounter::Scattered).push(Encounter::Missed) + rest,
        ) == Path::Finished(Shade::Background),
    decreases scatterings,
{
    let run = Seq::new(scatterings, |i: int| Encounter::Scattered).push(Encounter::Missed) + rest;
    if scatterings == 0 {
        assert(run.drop_first() =~= rest);
        lemma_finished_stays(Shade::Background, rest);
    } else {
        let shorter = Seq::new((scatterings - 1) as nat, |i: int| Encounter::Scattered).push(
            Encounter::Missed,
        ) + rest;
        assert(run.drop_first() =~= shorter);
        lemma_miss_is_background((depth - 1) as u32, (scatterings - 1) as nat, rest);
    }
}

/// A finished path stays finished, in the same shade.
pub proof fn lemma_finished_stays(shade: Shade, encounters: Seq<Encounter>)
    ensures
        Path::Finished(shade).run(encounters) == Path::Finished(shade),
    decreases encounters.len(),
{
    if encounters.len() > 0 {
        lemma_finished_stays(shade, encounters.drop_first());
    }
}

/// The samples of an image whose pixels are `pixels`: each pixel's red, green
/// and blue, one pixel after the other.
pub open spec fn flattened(pixels: Seq<[u8; 3]>) -> Seq<u8> {
    Seq::new(3 * pixels.len(), |i: int| pixels[i / 3][i % 3])
}

impl Camera {
    pub closed spec fn image_width_spec(&self) -> u32 {
        self.image_width
    }

    pub closed spec fn image_height_spec(&self) -> u32 {
        self.image_height
    }

    pub closed spec fn aspect_ratio_spec(&self) -> Scalar {
        self.aspect_ratio
    }

    pub closed spec fn vfov_spec(&self) -> Scalar {
        self.vfov
    }

    pub closed spec fn center_spec(&self) -> Point3 {
        self.center
    }

    pub closed spec fn samples_per_pixel_spec(&self) -> u32 {
        self.samples_per_pixel
    }

    pub closed spec fn max_depth_spec(&self) -> u32 {
        self.max_depth
    }

    pub closed spec fn defocus_angle_spec(&self) -> Scalar {
        self.defocus_angle
    }

    pub closed spec fn frame_spec(&self) -> Frame {
        self.frame
    }

    /// The number of rows of an image, given the width over the aspect ratio cut
    /// to a whole number: that number, but at least one.
    pub open spec fn rows_spec(quotient: u32) -> u32 {
        if quotient < 1 {
            1
        } else {
            quotient
        }
    }

    #[verifier::when_used_as_spec(rows_spec)]
    pub fn rows(quotient: u32) -> (r: u32)
        ensures
            r == Camera::rows_spec(quotient),
            r >= 1,
    {
        if quotient < 1 {
            1
        } else {
            quotient
        }
    }

    /// A camera at `look_from`. `quotient` is the image width over the aspect
    /// ratio, cut to a whole number, and `frame` is the geometry derived for an
    /// image of `Camera::rows(quotient)` rows.
    pub fn new(
        image_width: u32,
        quotient: u32,
        aspect_ratio: Scalar,
        vfov: Scalar,
        samples_per_pixel: u32,
        max_depth: u32,
        look_from: Point3,
        defocus_angle: Scalar,
        frame: Frame,
    ) -> (r: Camera)
        ensures
            r.image_width() == image_width,
            r.image_height() == Camera::rows(quotient),
            r.image_height() >= 1,
            r.aspect_ratio() == aspect_ratio,
            r.vfov() == vfov,
            r.samples_per_pixel() == samples_per_pixel,
            r.max_depth() == max_depth,
            r.center() == look_from,
            r.defocus_angle() == defocus_angle,
            r.frame() == frame,
    {
        Camera {
            image_width,
            image_height: Camera::rows(quotient),
            aspect_ratio,
            vfov,
            center: look_from,
            samples_per_pixel,
            max_depth,
            defocus_angle,
            frame,
        }
    }

    #[verifier::when_used_as_spec(image_width_spec)]
    pub fn image_width(&self) -> (r: u32)
        ensures
            r == self.image_width(),
    {
        self.image_width
    }

    #[verifier::when_used_as_spec(image_height_spec)]
    pub fn image_height(&self) -> (r: u32)
        ensures
            r == self.image_height(),
    {
        self.image_height
    }

    #[verifier::when_used_as_spec(aspect_ratio_spec)]
    pub fn aspect_ratio(&self) -> (r: Scalar)
        ensures
            r == self.aspect_ratio(),
    {
        self.aspect_ratio
    }

    #[verifier::when_used_as_spec(vfov_spec)]
    pub fn vfov(&self) -> (r: Scalar)
        ensures
            r == self.vfov(),
    {
        self.vfov
    }

    #[verifier::when_used_as_spec(center_spec)]
    pub fn center(&self) -> (r: Point3)
        ensures
            r == self.center(),
    {
        self.center
    }

    #[verifier::when_used_as_spec(samples_per_pixel_spec)]
    pub fn samples_per_pixel(&self) -> (r: u32)
        ensures
            r == self.samples_per_pixel(),
    {
        self.samples_per_pixel
    }

    #[verifier::when_used_as_spec(max_depth_spec)]
    pub fn max_depth(&self) -> (r: u32)
        ensures
            r == self.max_depth(),
    {
        self.max_depth
    }

    #[verifier::when_used_as_spec(defocus_angle_spec)]
    pub fn defocus_angle(&self) -> (r: Scalar)
        ensures
            r == self.defocus_angle(),
    {
        self.defocus_angle
    }

    #[verifier::when_used_as_spec(frame_spec)]
    pub fn frame(&self) -> (r: Frame)
        ensures
            r == self.frame(),
    {
        self.frame
    }

    /// Whether the rays of this camera start on the defocus disk, so that a
    /// random point of the disk has to be drawn for each: they do when the
    /// defocus angle is above zero.
    pub fn uses_defocus_disk(&self) -> (r: bool)
        ensures
            r == self.defocus_angle().gt(Scalar::zero()),
    {
        self.defocus_angle.gt(Scalar::zero())
    }

    /// Where a ray of this camera starts: at `disk_sample`, a random point of the
    /// defocus disk, when the defocus angle is above zero, and at the camera's
    /// center otherwise. Where [`Camera::uses_defocus_disk`] is false the sample
    /// is not looked at, and any point does in its place.
    pub fn ray_origin(&self, disk_sample: Point3) -> (r: Point3)
        ensures
            r == if self.defocus_angle().gt(Scalar::zero()) {
                disk_sample
            } else {
                self.center()
            },
    {
        if self.defocus_angle.gt(Scalar::zero()) {
            disk_sample
        } else {
            self.center
        }
    }

    /// The path of one sample of this camera, before its first ray.
    pub fn trace(&self) -> (r: Path)
        ensures
            r == Path::start(self.max_depth()),
            self.max_depth() == 0 ==> r == Path::Finished(Shade::White),
    {
        Path::start(self.max_depth)
    }

    /// The nearest hit that a path's ray has in `world`: the hit from one
    /// thousandth up to infinity. `probe` is what the caller has measured of the
    /// ray against `world`.
    pub fn nearest_hit<H: Hitable>(world: &H, probe: &H::Probe) -> (r: Option<HitRecord>)
        requires
            world.fits(probe),
        ensures
            r == world.hit_spec(probe, Scalar { bits: HIT_MIN_BITS }, Scalar::infinity()),
            r matches Some(h) ==> !h.t.lt(Scalar { bits: HIT_MIN_BITS }),
    {
        world.hit(probe, Scalar::from_bits(HIT_MIN_BITS), Scalar::infinity())
    }

    /// The last step of a pixel's color before it is cut to 8 bits: each channel
    /// brought into the range from zero to 999 thousandths.
    pub fn clamp_channels(color: Color) -> (r: Color)
        ensures
            r == color.clamp(Scalar::zero(), Scalar { bits: CHANNEL_MAX_BITS }),
    {
        color.clamp(Scalar::zero(), Scalar::from_bits(CHANNEL_MAX_BITS))
    }

    /// The samples of the finished image. `pixels` holds the 8-bit color of each
    /// pixel, row by row from the top and within a row from the left.
    ///
    /// The image is built in an `image::RgbImage` of this camera's size, pixel by
    /// pixel, and its samples are handed out: three for each pixel, in the order
    /// of `pixels`.
    pub fn render(&self, pixels: &Vec<[u8; 3]>) -> (samples: Vec<u8>)
        requires
            pixels@.len() == self.image_width() * self.image_height(),
            3 * self.image_width() * self.image_height() <= isize::MAX,
        ensures
            samples@ == flattened(pixels@),
    {
        let width: u32 = self.image_width;
        let height: u32 = self.image_height;
        let mut img = new_canvas(width, height);
        proof {
            assert(3 * width * height == 3 * (width * height)) by (nonlinear_arith);
        }
        let mut y: u32 = 0;
        while y < height
            invariant
                y <= height,
                pixels@.len() == width * height,
                3 * (width * height) <= isize::MAX,
                canvas_width(img) == width,
                canvas_height(img) == height,
                canvas_samples(img).len() == 3 * pixels@.len(),
                forall|i: int|
                    0 <= i < 3 * (y * width) ==> canvas_samples(img)[i] == pixels@[i / 3][i % 3],
            decreases height - y,
        {
            let mut x: u32 = 0;
            while x < width
                invariant
                    x <= width,
                    y < height,
                    pixels@.len() == width * height,
                    3 * (width * height) <= isize::MAX,
                    canvas_width(img) == width,
                    canvas_height(img) == height,
                    canvas_samples(img).len() == 3 * pixels@.len(),
                    forall|i: int|
                        0 <= i < 3 * (y * width + x) ==> canvas_samples(img)[i] == pixels@[i / 3][i
                            % 3],
                decreases width - x,
            {
                proof {
                    lemma_pixel_in_image(width as int, height as int, x as int, y as int);
                }
                let k: usize = (y as usize) * (width as usize) + (x as usize);
                let pixel: [u8; 3] = pixels[k];
                put_pixel(&mut img, x, y, pixel);
                x += 1;
            }
            proof {
                assert(3 * (y * width + width) == 3 * ((y + 1) * width)) by (nonlinear_arith);
            }
            y += 1;
        }
        let samples = into_raw(img);
        proof {
            assert(3 * (height * width) == 3 * pixels@.len()) by (nonlinear_arith)
                requires
                    pixels@.len() == width * height,
            ;
            assert(samples@ =~= flattened(pixels@));
        }
        samples
    }
}

/// The pixel in column `x` of row `y` has its place among the `width * height`
/// pixels of an image.
proof fn lemma_pixel_in_image(width: int, height: int, x: int, y: int)
    requires
        0 <= x < width,
        0 <= y < height,
    ensures
        0 <= y * width,
        0 <= y * width + x < width * height,
{
    assert(0 <= y * width) by (nonlinear_arith)
        requires
            0 <= y,
            0 <= width,
    ;
    assert(y * width + width <= width * height) by (nonlinear_arith)
        requires
            y + 1 <= height,
            0 <= width,
    ;
}

} // verus!

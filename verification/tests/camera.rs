use path_tracer::camera::{
    Camera, Encounter, Frame, Path, Shade, CHANNEL_MAX_BITS, HIT_MIN_BITS,
};
use path_tracer::hit::{HitRecord, Hitable, HitableList};
use path_tracer::material::MaterialRayInteraction;
use path_tracer::ray::Ray;
use path_tracer::material::{Lambertian, Material};
use path_tracer::scalar::Scalar;
use path_tracer::sphere::{Contact, Crossing, Sphere};
use path_tracer::vec::Vec3;

fn s(x: f64) -> Scalar {
    Scalar::from_bits(x.to_bits())
}

fn v(x: f64, y: f64, z: f64) -> Vec3 {
    Vec3::new(s(x), s(y), s(z))
}

fn frame() -> Frame {
    Frame {
        u: v(1.0, 0.0, 0.0),
        v: v(0.0, 1.0, 0.0),
        w: v(0.0, 0.0, 1.0),
        pixel00_loc: v(-1.5, 0.75, -1.0),
        pixel_delta_u: v(0.01, 0.0, 0.0),
        pixel_delta_v: v(0.0, -0.01, 0.0),
        defocus_disk_u: v(0.1, 0.0, 0.0),
        defocus_disk_v: v(0.0, 0.1, 0.0),
    }
}

fn camera(width: u32, quotient: u32, max_depth: u32, defocus_angle: f64) -> Camera {
    Camera::new(
        width,
        quotient,
        s(16.0 / 9.0),
        s(20.0),
        100,
        max_depth,
        v(13.0, 2.0, 3.0),
        s(defocus_angle),
        frame(),
    )
}

#[test]
fn camera_constants_are_the_numbers_they_name() {
    assert_eq!(HIT_MIN_BITS, 0.001f64.to_bits());
    assert_eq!(CHANNEL_MAX_BITS, 0.999f64.to_bits());
}

#[test]
fn image_has_at_least_one_row() {
    assert_eq!(Camera::rows(0), 1);
    assert_eq!(Camera::rows(1), 1);
    assert_eq!(Camera::rows(2), 2);
    assert_eq!(Camera::rows(675), 675);
    assert_eq!(Camera::rows(u32::MAX), u32::MAX);
}

#[test]
fn new_keeps_what_it_is_given() {
    let c = camera(1200, 675, 50, 0.6);
    assert_eq!(c.image_width(), 1200);
    assert_eq!(c.image_height(), 675);
    assert_eq!(c.aspect_ratio(), s(16.0 / 9.0));
    assert_eq!(c.vfov(), s(20.0));
    assert_eq!(c.samples_per_pixel(), 100);
    assert_eq!(c.max_depth(), 50);
    assert_eq!(c.center(), v(13.0, 2.0, 3.0));
    assert_eq!(c.defocus_angle(), s(0.6));
    assert_eq!(c.frame(), frame());
}

#[test]
fn a_very_wide_image_still_has_a_row() {
    let c = camera(3, 0, 50, 0.0);
    assert_eq!(c.image_width(), 3);
    assert_eq!(c.image_height(), 1);
}

#[test]
fn rays_start_at_the_center_without_defocus() {
    let sample = v(13.1, 2.05, 3.0);
    assert_eq!(camera(4, 2, 5, 0.0).ray_origin(sample), v(13.0, 2.0, 3.0));
    assert_eq!(camera(4, 2, 5, -0.0).ray_origin(sample), v(13.0, 2.0, 3.0));
    assert_eq!(camera(4, 2, 5, -1.0).ray_origin(sample), v(13.0, 2.0, 3.0));
    assert_eq!(camera(4, 2, 5, f64::NAN).ray_origin(sample), v(13.0, 2.0, 3.0));
}

#[test]
fn rays_start_on_the_disk_with_defocus() {
    let sample = v(13.1, 2.05, 3.0);
    assert_eq!(camera(4, 2, 5, 0.6).ray_origin(sample), sample);
    assert_eq!(camera(4, 2, 5, 5.0e-324).ray_origin(sample), sample);
}

#[test]
fn path_of_depth_zero_is_white_at_once() {
    assert_eq!(Path::start(0), Path::Finished(Shade::White));
    assert_eq!(camera(4, 2, 0, 0.0).trace(), Path::Finished(Shade::White));
    assert_eq!(Path::start(0).next(Encounter::Missed), Path::Finished(Shade::White));
    assert_eq!(Path::start(0).next(Encounter::Absorbed), Path::Finished(Shade::White));
}

#[test]
fn path_with_depth_is_under_way() {
    assert_eq!(Path::start(1), Path::Tracing { depth: 1 });
    assert_eq!(camera(4, 2, 50, 0.0).trace(), Path::Tracing { depth: 50 });
}

#[test]
fn a_miss_ends_in_the_background() {
    assert_eq!(Path::start(1).next(Encounter::Missed), Path::Finished(Shade::Background));
    assert_eq!(Path::start(50).next(Encounter::Missed), Path::Finished(Shade::Background));
    let after_two = Path::start(3).next(Encounter::Scattered).next(Encounter::Scattered);
    assert_eq!(after_two.next(Encounter::Missed), Path::Finished(Shade::Background));
}

#[test]
fn an_absorption_ends_in_black() {
    assert_eq!(Path::start(1).next(Encounter::Absorbed), Path::Finished(Shade::Black));
    let after_one = Path::start(3).next(Encounter::Scattered);
    assert_eq!(after_one.next(Encounter::Absorbed), Path::Finished(Shade::Black));
}

#[test]
fn scatterings_use_up_the_depth() {
    let mut path = Path::start(3);
    path = path.next(Encounter::Scattered);
    assert_eq!(path, Path::Tracing { depth: 2 });
    path = path.next(Encounter::Scattered);
    assert_eq!(path, Path::Tracing { depth: 1 });
    path = path.next(Encounter::Scattered);
    assert_eq!(path, Path::Finished(Shade::White));
}

#[test]
fn a_path_ends_within_its_depth() {
    let kinds = [Encounter::Missed, Encounter::Absorbed, Encounter::Scattered];
    for depth in 0..6u32 {
        for code in 0..729u32 {
            let mut path = Path::start(depth);
            let mut c = code;
            for _ in 0..depth {
                path = path.next(kinds[(c % 3) as usize]);
                c /= 3;
            }
            assert!(matches!(path, Path::Finished(_)));
        }
    }
}

#[test]
fn a_finished_path_stays_as_it_is() {
    for shade in [Shade::White, Shade::Black, Shade::Background] {
        for e in [Encounter::Missed, Encounter::Absorbed, Encounter::Scattered] {
            assert_eq!(Path::Finished(shade).next(e), Path::Finished(shade));
        }
    }
}

#[test]
fn a_path_under_way_at_depth_zero_sends_one_ray() {
    let odd = Path::Tracing { depth: 0 };
    assert_eq!(odd.next(Encounter::Scattered), Path::Finished(Shade::White));
    assert_eq!(odd.next(Encounter::Missed), Path::Finished(Shade::Background));
}

fn roots(near: f64, far: f64) -> Crossing {
    let at = |t: f64| Contact {
        t: s(t),
        p: v(0.0, 0.0, -t),
        outward_normal: v(0.0, 0.0, 1.0),
        facing: s(-1.0),
    };
    Crossing { discriminant: s(1.0), near: at(near), far: at(far) }
}

#[test]
fn nearest_hit_starts_at_one_thousandth() {
    let matte = Material::Lambertian(Lambertian::new(v(0.5, 0.5, 0.5)));
    let world = HitableList::new(vec![Sphere::new(v(0.0, 0.0, -1.0), s(0.5), matte)]);
    let below = Camera::nearest_hit(&world, &vec![roots(0.0009, 1.0)]).unwrap();
    assert_eq!(below.t, s(1.0));
    let at = Camera::nearest_hit(&world, &vec![roots(0.001, 1.0)]).unwrap();
    assert_eq!(at.t, s(0.001));
    let upper = Camera::nearest_hit(&world, &vec![roots(-1.0, f64::INFINITY)]).unwrap();
    assert_eq!(upper.t, s(f64::INFINITY));
    assert!(Camera::nearest_hit(&world, &vec![roots(-2.0, -1.0)]).is_none());
    assert!(Camera::nearest_hit(&world, &vec![roots(-2.0, 0.0)]).is_none());
    let ball = Sphere::new(v(0.0, 0.0, -1.0), s(0.5), matte);
    assert_eq!(Camera::nearest_hit(&ball, &roots(0.0009, 1.0)).unwrap().t, s(1.0));
    assert_eq!(
        Camera::nearest_hit(&ball, &roots(0.5, 1.0)),
        ball.hit(&roots(0.5, 1.0), s(0.001), s(f64::INFINITY))
    );
}

#[test]
fn channels_are_clamped_below_one() {
    assert_eq!(Camera::clamp_channels(v(-0.5, 0.5, 1.5)), v(0.0, 0.5, 0.999));
    assert_eq!(Camera::clamp_channels(v(1.0, 0.999, 0.0)), v(0.999, 0.999, 0.0));
    assert_eq!(Camera::clamp_channels(v(f64::NAN, f64::INFINITY, -0.0)), v(0.0, 0.999, -0.0));
}

#[test]
fn white_is_cut_to_255() {
    let c = Camera::clamp_channels(Vec3::ones());
    let x = f64::from_bits(c.x.to_bits());
    assert_eq!((x * 255.99) as u8, 255);
}

#[test]
fn render_lays_the_pixels_out_row_by_row() {
    let c = camera(3, 2, 5, 0.0);
    let pixels: Vec<[u8; 3]> = vec![
        [1, 2, 3],
        [4, 5, 6],
        [7, 8, 9],
        [10, 11, 12],
        [13, 14, 15],
        [16, 17, 18],
    ];
    let samples = c.render(&pixels);
    let expected: Vec<u8> = (1..=18).collect();
    assert_eq!(samples, expected);
    let img = image::RgbImage::from_raw(3, 2, samples).unwrap();
    assert_eq!(img.get_pixel(0, 0).0, [1, 2, 3]);
    assert_eq!(img.get_pixel(2, 0).0, [7, 8, 9]);
    assert_eq!(img.get_pixel(0, 1).0, [10, 11, 12]);
    assert_eq!(img.get_pixel(2, 1).0, [16, 17, 18]);
}

#[test]
fn render_of_a_single_row() {
    let c = camera(2, 0, 5, 0.0);
    let samples = c.render(&vec![[255, 0, 7], [0, 255, 9]]);
    assert_eq!(samples, vec![255, 0, 7, 0, 255, 9]);
}

#[test]
fn render_of_an_image_without_columns_is_empty() {
    let c = camera(0, 0, 5, 0.0);
    assert_eq!(c.image_height(), 1);
    assert_eq!(c.render(&vec![]), Vec::<u8>::new());
}

#[test]
fn render_of_a_white_image_at_depth_zero() {
    let c = camera(4, 3, 0, 0.0);
    assert_eq!(c.trace(), Path::Finished(Shade::White));
    let white = Camera::clamp_channels(Vec3::ones());
    let q = |a: Scalar| (f64::from_bits(a.to_bits()) * 255.99) as u8;
    let pixels = vec![[q(white.x), q(white.y), q(white.z)]; 12];
    let samples = c.render(&pixels);
    assert_eq!(samples.len(), 36);
    assert!(samples.iter().all(|b| *b == 255));
}

#[test]
fn defocus_disk_is_used_above_zero_only() {
    assert!(camera(4, 2, 5, 0.6).uses_defocus_disk());
    assert!(camera(4, 2, 5, 5.0e-324).uses_defocus_disk());
    assert!(camera(4, 2, 5, f64::INFINITY).uses_defocus_disk());
    assert!(!camera(4, 2, 5, 0.0).uses_defocus_disk());
    assert!(!camera(4, 2, 5, -0.0).uses_defocus_disk());
    assert!(!camera(4, 2, 5, -10.0).uses_defocus_disk());
    assert!(!camera(4, 2, 5, f64::NAN).uses_defocus_disk());
}

#[test]
fn origin_without_defocus_does_not_depend_on_the_sample() {
    let c = camera(4, 2, 5, 0.0);
    assert!(!c.uses_defocus_disk());
    assert_eq!(c.ray_origin(v(1.0, 1.0, 1.0)), c.center());
    assert_eq!(c.ray_origin(v(f64::NAN, 0.0, -7.0)), c.center());
    assert_eq!(c.ray_origin(c.center()), c.center());
}

fn some_hit() -> HitRecord {
    HitRecord {
        p: v(0.0, 0.0, -0.5),
        normal: v(0.0, 0.0, 1.0),
        t: s(0.5),
        front_face: true,
        material: Material::Lambertian(Lambertian::new(v(0.5, 0.5, 0.5))),
    }
}

fn some_scattering() -> MaterialRayInteraction {
    MaterialRayInteraction::new(
        v(0.5, 0.5, 0.5),
        Ray::new(v(0.0, 0.0, -0.5), v(0.1, 0.2, 1.0)),
    )
}

#[test]
fn encounter_without_a_hit_is_a_miss() {
    assert_eq!(Encounter::of(&None, &None), Encounter::Missed);
    assert_eq!(Encounter::of(&None, &Some(some_scattering())), Encounter::Missed);
}

#[test]
fn encounter_with_a_hit_and_no_scattering_is_an_absorption() {
    assert_eq!(Encounter::of(&Some(some_hit()), &None), Encounter::Absorbed);
}

#[test]
fn encounter_with_a_hit_and_a_scattering_is_a_scattering() {
    assert_eq!(Encounter::of(&Some(some_hit()), &Some(some_scattering())), Encounter::Scattered);
}

#[test]
fn path_follows_what_the_ray_met() {
    let path = Path::start(2);
    let scattered = path.next(Encounter::of(&Some(some_hit()), &Some(some_scattering())));
    assert_eq!(scattered, Path::Tracing { depth: 1 });
    assert_eq!(
        scattered.next(Encounter::of(&Some(some_hit()), &None)),
        Path::Finished(Shade::Black)
    );
    assert_eq!(scattered.next(Encounter::of(&None, &None)), Path::Finished(Shade::Background));
}

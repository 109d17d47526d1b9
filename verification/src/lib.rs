//! The decision core of a sphere path tracer.
//!
//! Every number is a binary64 value carried by its bit pattern ([`scalar::Scalar`]).
//! The crate compares, selects and re-signs such values exactly, and proves what it
//! decides with them: which root of a sphere's quadratic is the hit, which sphere of
//! a scene is nearest, whether a material scatters or absorbs, when a path ends and
//! with which shade, and where each finished pixel lands in the image. Whatever
//! needs rounding arithmetic is measured by the caller and handed in as scalars.
pub mod scalar;

pub mod vec;
pub mod ray;
pub mod color;
pub mod material;
pub mod hit;
pub mod sphere;
pub mod canvas;
pub mod camera;

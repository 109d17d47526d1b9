//! The image that a render fills, kept in the `image` crate's buffer.
use vstd::prelude::*;

verus! {

/// An image of 8-bit red, green and blue samples: an `image::RgbImage`.
///
/// The buffer's own type is bounded by a trait of its crate, which the verifier
/// cannot name, so the buffer stands behind this struct and the verifier sees
/// nothing of it but the three functions below.
#[verifier::external_body]
pub struct Canvas {
    buffer: image::RgbImage,
}

/// The number of columns of a canvas.
pub uninterp spec fn canvas_width(canvas: Canvas) -> nat;

/// The number of rows of a canvas.
pub uninterp spec fn canvas_height(canvas: Canvas) -> nat;

/// The samples of a canvas: three for each pixel, red, green and blue, the
/// pixels row by row from the top and within a row from the left.
pub uninterp spec fn canvas_samples(canvas: Canvas) -> Seq<u8>;

/// Where the first sample of the pixel in column `x` of row `y` stands among
/// the samples of an image that is `width` columns wide.
pub open spec fn sample_index(width: int, x: int, y: int) -> int {
    3 * (y * width + x)
}

/// `image::ImageBuffer::new`: an image of the given size in which every sample
/// is zero. It panics when the samples would outgrow a vector, which the
/// precondition rules out.
#[verifier::external_body]
pub(crate) fn new_canvas(width: u32, height: u32) -> (canvas: Canvas)
    requires
        3 * width * height <= isize::MAX,
    ensures
        canvas_width(canvas) == width,
        canvas_height(canvas) == height,
        canvas_samples(canvas).len() == 3 * width * height,
        forall|i: int| 0 <= i < 3 * width * height ==> canvas_samples(canvas)[i] == 0,
{
    Canvas { buffer: image::ImageBuffer::new(width, height) }
}

/// `image::ImageBuffer::put_pixel`: the three samples of the pixel at `(x, y)`
/// become `rgb`, and nothing else changes. It panics on a place outside the
/// image, which the precondition rules out.
#[verifier::external_body]
pub(crate) fn put_pixel(canvas: &mut Canvas, x: u32, y: u32, rgb: [u8; 3])
    requires
        x < canvas_width(*old(canvas)),
        y < canvas_height(*old(canvas)),
    ensures
        canvas_width(*final(canvas)) == canvas_width(*old(canvas)),
        canvas_height(*final(canvas)) == canvas_height(*old(canvas)),
        canvas_samples(*final(canvas)) == canvas_samples(*old(canvas)).update(
            sample_index(canvas_width(*old(canvas)) as int, x as int, y as int),
            rgb[0],
        ).update(
            sample_index(canvas_width(*old(canvas)) as int, x as int, y as int) + 1,
            rgb[1],
        ).update(
            sample_index(canvas_width(*old(canvas)) as int, x as int, y as int) + 2,
            rgb[2],
        ),
{
    canvas.buffer.put_pixel(x, y, image::Rgb(rgb))
}

/// `image::ImageBuffer::into_raw`: the vector that holds the samples.
#[verifier::external_body]
pub(crate) fn into_raw(canvas: Canvas) -> (raw: Vec<u8>)
    ensures
        raw@ == canvas_samples(canvas),
{
    canvas.buffer.into_raw()
}

} // verus!

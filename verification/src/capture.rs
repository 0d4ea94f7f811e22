//! Copies of the pixels of a view, arranged by the `image` crate.

use crate::pixel::{read_pixel, PixelWindow};
use vstd::prelude::*;

verus! {

/// A copy of a rectangle of pixels: `width * height * 4` bytes, row after
/// row, four bytes per pixel. This is the layout of an
/// `image::ImageBuffer<image::Rgba<u8>, Vec<u8>>`, which can be made from the
/// three parts without copying.
pub struct Capture {
    width: u32,
    height: u32,
    samples: Vec<u8>,
}

impl View for Capture {
    type V = Seq<u8>;

    /// The bytes of the copy.
    closed spec fn view(&self) -> Seq<u8> {
        self.samples@
    }
}

impl Capture {
    #[verifier::type_invariant]
    spec fn inv(&self) -> bool {
        self.wf()
    }

    pub closed spec fn spec_width(&self) -> u32 {
        self.width
    }

    pub closed spec fn spec_height(&self) -> u32 {
        self.height
    }

    /// The copy is exactly as long as its grid needs.
    pub open spec fn wf(&self) -> bool {
        self@.len() == self.spec_width() * self.spec_height() * 4
    }

    /// Whether `(x, y)` names a pixel of the copy.
    pub open spec fn in_bounds(&self, x: int, y: int) -> bool {
        0 <= x < self.spec_width() && 0 <= y < self.spec_height()
    }

    /// The four bytes of pixel `(x, y)`.
    pub open spec fn pixel(&self, x: int, y: int) -> Seq<u8> {
        read_pixel(self@, self.spec_width() as int, x, y)
    }

    /// The width of the copy in pixels.
    #[verifier::when_used_as_spec(spec_width)]
    pub fn width(&self) -> (width: u32)
        ensures
            width == self.spec_width(),
    {
        self.width
    }

    /// The height of the copy in pixels.
    #[verifier::when_used_as_spec(spec_height)]
    pub fn height(&self) -> (height: u32)
        ensures
            height == self.spec_height(),
    {
        self.height
    }

    /// The bytes of the copy.
    pub fn into_raw(self) -> (samples: Vec<u8>)
        ensures
            samples@ == self@,
            samples@.len() == self.spec_width() * self.spec_height() * 4,
    {
        proof {
            use_type_invariant(&self);
        }
        self.samples
    }
}

/// Calls `image::ImageBuffer::from_fn` with a function that reads pixel
/// `(x, y)` of `window`, and takes the samples of the image with `into_raw`.
///
/// `from_fn` makes a buffer of `width * height * 4` samples, which must not be
/// more than a vector can hold, and fills in each pixel `(x, y)` with
/// `x < width` and `y < height`, and no other, from the function. The buffer
/// is row-major, four samples per pixel, which is the layout that
/// `pixel_offset` describes. Verus takes this contract on trust.
#[verifier::external_body]
fn image_from_fn(window: &PixelWindow, width: u32, height: u32) -> (samples: Vec<u8>)
    requires
        width <= window.spec_width(),
        height <= window.spec_height(),
        width * height * 4 <= isize::MAX,
    ensures
        samples@.len() == width * height * 4,
        forall|x: int, y: int|
            0 <= x < width && 0 <= y < height ==> #[trigger] read_pixel(
                samples@,
                width as int,
                x,
                y,
            ) == window.pixel(x, y),
{
    image::ImageBuffer::from_fn(
        width,
        height,
        |x, y| image::Rgba(window.get_pixel_unchecked(x, y)),
    ).into_raw()
}

impl<'a> PixelWindow<'a> {
    /// Copies the pixels of the view into a `Capture`, all but the last
    /// column and the last row: the copy is `width - 1` by `height - 1`
    /// pixels, and its pixel `(x, y)` is pixel `(x, y)` of the view.
    pub fn capture_to_image(&self) -> (capture: Capture)
        requires
            self.spec_width() >= 1,
            self.spec_height() >= 1,
            (self.spec_width() - 1) * (self.spec_height() - 1) * 4 <= isize::MAX,
        ensures
            capture.wf(),
            capture.spec_width() == self.spec_width() - 1,
            capture.spec_height() == self.spec_height() - 1,
            forall|x: int, y: int|
                capture.in_bounds(x, y) ==> #[trigger] capture.pixel(x, y) == self.pixel(x, y),
    {
        let width = self.width() - 1;
        let height = self.height() - 1;
        let samples = image_from_fn(self, width, height);
        Capture { width, height, samples }
    }
}

} // verus!

//! A decoded frame: an RGB pixel buffer with 8-bit channels.

use vstd::prelude::*;

verus! {

/// An image of `width x height` pixels, stored row by row, three bytes
/// (red, green, blue) per pixel.
#[derive(Clone, Debug)]
pub struct Frame {
    pub width: u32,
    pub height: u32,
    pub data: Vec<u8>,
}

/// Index of the first byte of pixel `(x, y)` in a frame of width `w`.
pub open spec fn pixel_offset(w: int, x: int, y: int) -> int {
    3 * (y * w + x)
}

/// A frame as mathematical values.
pub struct FrameView {
    pub width: u32,
    pub height: u32,
    pub data: Seq<u8>,
}

impl FrameView {
    /// The buffer holds exactly three bytes per pixel.
    pub open spec fn wf(&self) -> bool {
        self.data.len() == 3 * (self.width as int) * (self.height as int)
    }

    /// The color of pixel `(x, y)`.
    pub open spec fn spec_rgb(&self, x: int, y: int) -> (u8, u8, u8) {
        let i = pixel_offset(self.width as int, x, y);
        (self.data[i], self.data[i + 1], self.data[i + 2])
    }
}

impl View for Frame {
    type V = FrameView;

    open spec fn view(&self) -> FrameView {
        FrameView { width: self.width, height: self.height, data: self.data@ }
    }
}

impl Frame {
    /// The buffer holds exactly three bytes per pixel.
    pub open spec fn wf(&self) -> bool {
        self@.wf()
    }

    /// A frame over `data`, or `None` when `data` does not hold exactly three
    /// bytes per pixel.
    pub fn new(width: u32, height: u32, data: Vec<u8>) -> (r: Option<Frame>)
        ensures
            r is Some <==> data@.len() == 3 * (width as int) * (height as int),
            r matches Some(f) ==> f.width == width && f.height == height && f.data@ == data@,
    {
        let len = data.len();
        proof {
            assert((width as int) * (height as int) <= u32::MAX * u32::MAX) by (nonlinear_arith)
                requires
                    width <= u32::MAX,
                    height <= u32::MAX,
            ;
            assert(3 * (width as int) * (height as int) == 3 * ((width as int) * (height as int)))
                by (nonlinear_arith);
        }
        let pixels = width as u64 * height as u64;
        if len % 3 == 0 && (len / 3) as u64 == pixels {
            Some(Frame { width, height, data })
        } else {
            None
        }
    }

    pub fn width(&self) -> (r: u32)
        ensures
            r == self.width,
    {
        self.width
    }

    pub fn height(&self) -> (r: u32)
        ensures
            r == self.height,
    {
        self.height
    }

    /// The color of pixel `(x, y)`.
    pub fn rgb(&self, x: u32, y: u32) -> (r: (u8, u8, u8))
        requires
            self.wf(),
            x < self.width,
            y < self.height,
        ensures
            r == self@.spec_rgb(x as int, y as int),
    {
        let n = self.data.len();
        proof {
            lemma_pixel_in_bounds(self.width as int, self.height as int, x as int, y as int);
            assert(0 <= (y as int) * (self.width as int) <= (y as int) * (self.width as int) + x) by (nonlinear_arith)
                requires
                    0 <= y,
                    0 <= x,
                    0 <= self.width,
            ;
        }
        let i = 3 * (y as usize * self.width as usize + x as usize);
        (self.data[i], self.data[i + 1], self.data[i + 2])
    }
}

/// The pixels that the `image` crate's nearest-neighbour resize makes of a
/// `width x height` RGB buffer at `new_width x new_height`.
pub uninterp spec fn resized_nearest(
    data: Seq<u8>,
    width: u32,
    height: u32,
    new_width: u32,
    new_height: u32,
) -> Seq<u8>;

/// Relies on `image::imageops::resize` with `FilterType::Nearest` on an RGB
/// buffer (and on `ImageBuffer::from_raw`, which accepts a buffer of exactly
/// three bytes per pixel): the result is `new_width x new_height`, and a
/// non-empty image resized to its own size is copied unchanged. The image
/// crate allocates a 16-byte-per-pixel intermediate of `width x new_height`,
/// hence the size bounds.
#[verifier::external_body]
pub(crate) fn resize_nearest(image: &Frame, new_width: u32, new_height: u32) -> (r: Frame)
    requires
        image.wf(),
        16 * (image.width as int) * (new_height as int) <= isize::MAX,
        16 * (new_width as int) * (new_height as int) <= isize::MAX,
    ensures
        r.width == new_width,
        r.height == new_height,
        r.wf(),
        r.data@ == resized_nearest(image.data@, image.width, image.height, new_width, new_height),
        (image.width > 0 && image.height > 0 && new_width == image.width && new_height
            == image.height) ==> r.data@ == image.data@,
{
    let src = image::RgbImage::from_raw(image.width, image.height, image.data.clone()).unwrap();
    let out = image::imageops::resize(&src, new_width, new_height, image::imageops::FilterType::Nearest);
    Frame { width: out.width(), height: out.height(), data: out.into_raw() }
}

/// The size and pixels that the `image` crate's aspect-preserving
/// nearest-neighbour resize makes of a `width x height` RGB buffer for the
/// bounds `new_width x new_height`.
pub uninterp spec fn fitted_nearest(
    data: Seq<u8>,
    width: u32,
    height: u32,
    new_width: u32,
    new_height: u32,
) -> (u32, u32, Seq<u8>);

/// Relies on `DynamicImage::resize` with `FilterType::Nearest` on an RGB
/// image: the aspect ratio is kept, an image asked for its own size is
/// returned as a copy, and otherwise each side is the rounded scaled side
/// (at least 1, and within the bounds where these are positive), after which
/// the image is resampled as by `resize_exact`. The size bounds cover the
/// 16-byte-per-pixel intermediate of `resize_exact`.
#[verifier::external_body]
pub(crate) fn resize_to_fit(image: &Frame, new_width: u32, new_height: u32) -> (r: Frame)
    requires
        image.wf(),
        16 * (image.width as int + 1) * (new_height as int + 1) <= isize::MAX,
        16 * (new_width as int + 1) * (new_height as int + 1) <= isize::MAX,
    ensures
        r.wf(),
        (r.width, r.height, r.data@) == fitted_nearest(
            image.data@,
            image.width,
            image.height,
            new_width,
            new_height,
        ),
        (new_width == image.width && new_height == image.height) ==> r@ == image@,
{
    let src = image::RgbImage::from_raw(image.width, image.height, image.data.clone()).unwrap();
    let out = image::DynamicImage::ImageRgb8(src).resize(new_width, new_height, image::imageops::FilterType::Nearest);
    let out = out.into_rgb8();
    Frame { width: out.width(), height: out.height(), data: out.into_raw() }
}

/// The three bytes of a pixel inside a `w x h` frame lie inside its buffer.
pub proof fn lemma_pixel_in_bounds(w: int, h: int, x: int, y: int)
    requires
        0 <= x < w,
        0 <= y < h,
    ensures
        0 <= y * w + x < w * h,
        0 <= pixel_offset(w, x, y),
        pixel_offset(w, x, y) + 2 < 3 * w * h,
{
    assert(y * w + x < w * h) by (nonlinear_arith)
        requires
            0 <= x < w,
            0 <= y < h,
    ;
    assert(0 <= y * w) by (nonlinear_arith)
        requires
            0 <= y,
            0 <= w,
    ;
    assert(3 * w * h == 3 * (w * h)) by (nonlinear_arith);
}

} // verus!

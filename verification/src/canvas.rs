//! Pixel surfaces that text is composited onto.

use vstd::prelude::*;
use crate::pixel::Blend;
use crate::pixel::Rgba;

verus! {

/// A rectangular surface of pixels, addressed by column and row from its
/// top-left corner.
pub trait Canvas: Sized {
    /// The kind of pixel the surface holds.
    type Pixel: Blend;

    /// The number of columns.
    spec fn spec_width(&self) -> nat;

    /// The number of rows.
    spec fn spec_height(&self) -> nat;

    /// The pixel at column `x` of row `y`; meaningful inside the surface.
    spec fn spec_pixel(&self, x: int, y: int) -> Self::Pixel;

    /// The number of columns.
    fn width(&self) -> (w: u32)
        ensures
            w == self.spec_width(),
    ;

    /// The number of rows.
    fn height(&self) -> (h: u32)
        ensures
            h == self.spec_height(),
    ;

    /// Reads the pixel at column `x` of row `y`.
    fn get_pixel(&self, x: u32, y: u32) -> (p: Self::Pixel)
        requires
            x < self.spec_width(),
            y < self.spec_height(),
        ensures
            p == self.spec_pixel(x as int, y as int),
    ;

    /// Replaces the pixel at column `x` of row `y` and leaves every other
    /// pixel and the dimensions as they were.
    fn put_pixel(&mut self, x: u32, y: u32, pixel: Self::Pixel)
        requires
            x < old(self).spec_width(),
            y < old(self).spec_height(),
        ensures
            final(self).spec_width() == old(self).spec_width(),
            final(self).spec_height() == old(self).spec_height(),
            final(self).spec_pixel(x as int, y as int) == pixel,
            forall|i: int, j: int|
                0 <= i < old(self).spec_width() && 0 <= j < old(self).spec_height() && (i != x
                    || j != y) ==> #[trigger] final(self).spec_pixel(i, j) == old(
                    self,
                ).spec_pixel(i, j),
    ;

    /// A fresh surface of the same dimensions that holds the same pixels.
    fn duplicate(&self) -> (copy: Self)
        ensures
            copy.spec_width() == self.spec_width(),
            copy.spec_height() == self.spec_height(),
            forall|i: int, j: int|
                0 <= i < self.spec_width() && 0 <= j < self.spec_height()
                    ==> #[trigger] copy.spec_pixel(i, j) == self.spec_pixel(i, j),
    ;
}

/// Whether two surfaces have the same dimensions and hold the same pixels.
pub open spec fn same_picture<C: Canvas>(a: &C, b: &C) -> bool {
    &&& a.spec_width() == b.spec_width()
    &&& a.spec_height() == b.spec_height()
    &&& forall|i: int, j: int|
        0 <= i < a.spec_width() && 0 <= j < a.spec_height() ==> #[trigger] a.spec_pixel(i, j)
            == b.spec_pixel(i, j)
}

/// An image buffer of four eight-bit channels per pixel, kept by the `image`
/// crate.
#[verifier::external_body]
pub struct RgbaCanvas {
    inner: image::RgbaImage,
}

/// The number of columns of the buffer.
pub uninterp spec fn canvas_width(canvas: RgbaCanvas) -> nat;

/// The number of rows of the buffer.
pub uninterp spec fn canvas_height(canvas: RgbaCanvas) -> nat;

/// The pixels of the buffer, keyed by column and row.
pub uninterp spec fn canvas_pixels(canvas: RgbaCanvas) -> Map<(int, int), Rgba>;

/// The largest number of channel values a canvas made here may hold: what a
/// vector of bytes can hold on every platform.
pub const MAX_SAMPLES: u64 = 0x7fff_ffff;

impl RgbaCanvas {
    /// `ImageBuffer::from_pixel`: a buffer of the given dimensions in which
    /// every pixel is `pixel`. The `requires` keeps the sample count inside
    /// what a vector can hold, where the outside function would panic.
    #[verifier::external_body]
    fn raw_from_pixel(width: u32, height: u32, pixel: Rgba) -> (canvas: RgbaCanvas)
        requires
            width * height * 4 <= MAX_SAMPLES,
        ensures
            canvas_width(canvas) == width,
            canvas_height(canvas) == height,
            forall|i: int, j: int|
                0 <= i < width && 0 <= j < height ==> #[trigger] canvas_pixels(canvas)[(i, j)]
                    == pixel,
    {
        let p = image::Rgba([pixel.red, pixel.green, pixel.blue, pixel.alpha]);
        RgbaCanvas { inner: image::RgbaImage::from_pixel(width, height, p) }
    }

    /// `ImageBuffer::width`: the number of columns.
    #[verifier::external_body]
    fn raw_width(&self) -> (w: u32)
        ensures
            w == canvas_width(*self),
    {
        self.inner.width()
    }

    /// `ImageBuffer::height`: the number of rows.
    #[verifier::external_body]
    fn raw_height(&self) -> (h: u32)
        ensures
            h == canvas_height(*self),
    {
        self.inner.height()
    }

    /// `ImageBuffer::get_pixel`: the pixel stored at `(x, y)`. The outside
    /// function panics outside the buffer, which the `requires` leaves out.
    #[verifier::external_body]
    fn raw_get_pixel(&self, x: u32, y: u32) -> (p: Rgba)
        requires
            x < canvas_width(*self),
            y < canvas_height(*self),
        ensures
            p == canvas_pixels(*self)[(x as int, y as int)],
    {
        let p = self.inner.get_pixel(x, y);
        Rgba { red: p.0[0], green: p.0[1], blue: p.0[2], alpha: p.0[3] }
    }

    /// `ImageBuffer::put_pixel`: stores `pixel` at `(x, y)` and changes
    /// nothing else. The outside function panics outside the buffer, which
    /// the `requires` leaves out.
    #[verifier::external_body]
    fn raw_put_pixel(&mut self, x: u32, y: u32, pixel: Rgba)
        requires
            x < canvas_width(*old(self)),
            y < canvas_height(*old(self)),
        ensures
            canvas_width(*final(self)) == canvas_width(*old(self)),
            canvas_height(*final(self)) == canvas_height(*old(self)),
            canvas_pixels(*final(self)) == canvas_pixels(*old(self)).insert(
                (x as int, y as int),
                pixel,
            ),
    {
        let p = image::Rgba([pixel.red, pixel.green, pixel.blue, pixel.alpha]);
        self.inner.put_pixel(x, y, p)
    }

    /// `ImageBuffer::clone`: a buffer with the same dimensions and pixels.
    #[verifier::external_body]
    fn raw_clone(&self) -> (copy: RgbaCanvas)
        ensures
            canvas_width(copy) == canvas_width(*self),
            canvas_height(copy) == canvas_height(*self),
            canvas_pixels(copy) == canvas_pixels(*self),
    {
        RgbaCanvas { inner: self.inner.clone() }
    }

    /// A canvas of the given dimensions filled with `pixel`, or `None` where
    /// it would hold more than `MAX_SAMPLES` channel values.
    pub fn filled(width: u32, height: u32, pixel: Rgba) -> (made: Option<RgbaCanvas>)
        ensures
            made.is_some() <==> width * height * 4 <= MAX_SAMPLES,
            made matches Some(canvas) ==> {
                &&& canvas.spec_width() == width
                &&& canvas.spec_height() == height
                &&& forall|i: int, j: int|
                    0 <= i < width && 0 <= j < height ==> #[trigger] canvas.spec_pixel(i, j)
                        == pixel
            },
    {
        assert(0 <= width * height <= 0xffff_ffff * 0xffff_ffff) by (nonlinear_arith)
            requires
                0 <= width <= 0xffff_ffff,
                0 <= height <= 0xffff_ffff,
        ;
        let area: u64 = width as u64 * height as u64;
        if area <= MAX_SAMPLES / 4 {
            Some(RgbaCanvas::raw_from_pixel(width, height, pixel))
        } else {
            None
        }
    }
}

impl Canvas for RgbaCanvas {
    type Pixel = Rgba;

    open spec fn spec_width(&self) -> nat {
        canvas_width(*self)
    }

    open spec fn spec_height(&self) -> nat {
        canvas_height(*self)
    }

    open spec fn spec_pixel(&self, x: int, y: int) -> Rgba {
        canvas_pixels(*self)[(x, y)]
    }

    fn width(&self) -> (w: u32) {
        self.raw_width()
    }

    fn height(&self) -> (h: u32) {
        self.raw_height()
    }

    fn get_pixel(&self, x: u32, y: u32) -> (p: Rgba) {
        self.raw_get_pixel(x, y)
    }

    fn put_pixel(&mut self, x: u32, y: u32, pixel: Rgba) {
        self.raw_put_pixel(x, y, pixel)
    }

    fn duplicate(&self) -> (copy: RgbaCanvas) {
        self.raw_clone()
    }
}

} // verus!

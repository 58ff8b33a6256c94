//! Compositing glyphs onto a canvas.
//!
//! A glyph drawn at an origin touches the canvas pixels that its box holds
//! once the box is moved by the origin; what falls outside the canvas is left
//! out. Each touched pixel becomes the blend of what it held with the text
//! colour, weighted by the glyph's coverage of it.

use vstd::prelude::*;
use crate::canvas::Canvas;
use crate::glyph::Glyph;
use crate::pixel::Blend;

verus! {

impl Glyph {
    /// What a pixel holds after this glyph is drawn in `color`, where the
    /// pixel held `pixel` and lies `dx` columns to the right of and `dy`
    /// rows below the origin of the text.
    pub open spec fn stamp<P: Blend>(self, pixel: P, color: P, dx: int, dy: int) -> P {
        match self.bounding_box {
            Some(bb) => if self.covers(dx - bb.min_x, dy - bb.min_y) {
                pixel.blended(color, self.coverage_at(dx - bb.min_x, dy - bb.min_y))
            } else {
                pixel
            },
            None => pixel,
        }
    }

    /// Whether the glyph's box holds the pixel `dx` columns to the right of
    /// and `dy` rows below the origin of the text.
    pub open spec fn touches(self, dx: int, dy: int) -> bool {
        match self.bounding_box {
            Some(bb) => self.covers(dx - bb.min_x, dy - bb.min_y),
            None => false,
        }
    }

    /// Whether the glyph covers any of the pixel `dx` columns to the right
    /// of and `dy` rows below the origin of the text: the pixel lies in the
    /// glyph's box and its coverage is not 0.
    pub open spec fn marks(self, dx: int, dy: int) -> bool {
        match self.bounding_box {
            Some(bb) => self.touches(dx, dy) && self.coverage_at(dx - bb.min_x, dy - bb.min_y)
                != 0,
            None => false,
        }
    }
}

/// What a pixel holds after `glyphs` are drawn in `color` one after the
/// other, where the pixel held `pixel` and lies `dx` columns to the right of
/// and `dy` rows below the origin of the text.
pub open spec fn pixel_after<P: Blend>(
    glyphs: Seq<Glyph>,
    pixel: P,
    color: P,
    dx: int,
    dy: int,
) -> P
    decreases glyphs.len(),
{
    if glyphs.len() == 0 {
        pixel
    } else {
        glyphs.last().stamp(pixel_after(glyphs.drop_last(), pixel, color, dx, dy), color, dx, dy)
    }
}

/// Whether `after` is `before` with `glyphs` drawn onto it in `color` with
/// the origin of the text at column `x` of row `y`: the same dimensions, and
/// every pixel as the glyphs leave it.
pub open spec fn drawn_from<C: Canvas>(
    after: &C,
    before: &C,
    glyphs: Seq<Glyph>,
    color: C::Pixel,
    x: int,
    y: int,
) -> bool {
    &&& after.spec_width() == before.spec_width()
    &&& after.spec_height() == before.spec_height()
    &&& forall|i: int, j: int|
        0 <= i < before.spec_width() && 0 <= j < before.spec_height()
            ==> #[trigger] after.spec_pixel(i, j) == pixel_after(
            glyphs,
            before.spec_pixel(i, j),
            color,
            i - x,
            j - y,
        )
}

/// Whether the pixel at column `lx` of row `ly` of a glyph's box comes
/// before the pixel at column `col` of row `row` when the box is walked row
/// by row.
spec fn walked(lx: int, ly: int, col: int, row: int) -> bool {
    ly < row || (ly == row && lx < col)
}

/// Draws one glyph onto the canvas in `color`, with the origin of the text
/// at column `x` of row `y`.
fn draw_glyph<C: Canvas>(canvas: &mut C, color: C::Pixel, x: i64, y: i64, glyph: &Glyph)
    ensures
        final(canvas).spec_width() == old(canvas).spec_width(),
        final(canvas).spec_height() == old(canvas).spec_height(),
        forall|i: int, j: int|
            0 <= i < old(canvas).spec_width() && 0 <= j < old(canvas).spec_height()
                ==> #[trigger] final(canvas).spec_pixel(i, j) == glyph.stamp(
                old(canvas).spec_pixel(i, j),
                color,
                i - x,
                j - y,
            ),
{
    let bb = match glyph.bounding_box {
        Some(bb) => bb,
        None => {
            return ;
        },
    };
    let columns = bb.width();
    let rows = bb.height();
    let width = canvas.width();
    let height = canvas.height();
    let ghost before = *canvas;
    let mut ly: u32 = 0;
    while ly < rows
        invariant
            glyph.bounding_box == Some(bb),
            columns == bb.spec_width(),
            rows == bb.spec_height(),
            ly <= rows,
            width == before.spec_width(),
            height == before.spec_height(),
            canvas.spec_width() == before.spec_width(),
            canvas.spec_height() == before.spec_height(),
            forall|i: int, j: int|
                0 <= i < before.spec_width() && 0 <= j < before.spec_height()
                    ==> #[trigger] canvas.spec_pixel(i, j) == (if walked(
                    i - x - bb.min_x,
                    j - y - bb.min_y,
                    0,
                    ly as int,
                ) {
                    glyph.stamp(before.spec_pixel(i, j), color, i - x, j - y)
                } else {
                    before.spec_pixel(i, j)
                }),
        decreases rows - ly,
    {
        let mut lx: u32 = 0;
        while lx < columns
            invariant
                glyph.bounding_box == Some(bb),
                columns == bb.spec_width(),
                rows == bb.spec_height(),
                ly < rows,
                lx <= columns,
                width == before.spec_width(),
                height == before.spec_height(),
                canvas.spec_width() == before.spec_width(),
                canvas.spec_height() == before.spec_height(),
                forall|i: int, j: int|
                    0 <= i < before.spec_width() && 0 <= j < before.spec_height()
                        ==> #[trigger] canvas.spec_pixel(i, j) == (if walked(
                        i - x - bb.min_x,
                        j - y - bb.min_y,
                        lx as int,
                        ly as int,
                    ) {
                        glyph.stamp(before.spec_pixel(i, j), color, i - x, j - y)
                    } else {
                        before.spec_pixel(i, j)
                    }),
            decreases columns - lx,
        {
            let image_x: i128 = lx as i128 + bb.min_x as i128 + x as i128;
            let image_y: i128 = ly as i128 + bb.min_y as i128 + y as i128;
            if 0 <= image_x && image_x < width as i128 && 0 <= image_y && image_y < height as i128 {
                let pixel = canvas.get_pixel(image_x as u32, image_y as u32);
                let weighted_color = pixel.blend(color, glyph.coverage(lx, ly));
                canvas.put_pixel(image_x as u32, image_y as u32, weighted_color);
            }
            lx += 1;
        }
        ly += 1;
    }
}

/// Draws `glyphs` onto the canvas in `color`, one after the other, with the
/// origin of the text at column `x` of row `y`. Pixels of a glyph that fall
/// outside the canvas are left out; the rest of the glyph is still drawn.
pub fn composite<C: Canvas>(canvas: &mut C, color: C::Pixel, x: i64, y: i64, glyphs: &[Glyph])
    ensures
        drawn_from(final(canvas), old(canvas), glyphs@, color, x as int, y as int),
{
    let ghost before = *canvas;
    let mut n: usize = 0;
    while n < glyphs.len()
        invariant
            n <= glyphs.len(),
            drawn_from(canvas, &before, glyphs@.take(n as int), color, x as int, y as int),
        decreases glyphs.len() - n,
    {
        assert(glyphs@.take(n + 1).drop_last() == glyphs@.take(n as int));
        draw_glyph(canvas, color, x, y, &glyphs[n]);
        n += 1;
    }
    assert(glyphs@.take(n as int) == glyphs@);
}

} // verus!

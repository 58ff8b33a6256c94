//! Drawing text: single runs of glyphs at a point or anchored in a
//! rectangle, and several runs side by side.

use vstd::prelude::*;
use crate::canvas::Canvas;
use crate::compose::composite;
use crate::compose::drawn_from;
use crate::compose::pixel_after;
use crate::glyph::Glyph;
use crate::glyph::GlyphString;
use crate::glyph::run_height;
use crate::glyph::run_width;
use crate::pixel::Blend;
use crate::position::Position;
use crate::position::anchor;
use crate::position::find_text_area_coordinates;
use crate::laws::lemma_runs_follow_each_other;
use crate::laws::lemma_unmarked_pixel_kept;
use crate::rect::Rect;

verus! {

/// Draws coloured text on a canvas in place, with the origin of the text at
/// column `x` of row `y`. The glyphs are drawn as they were laid out: a line
/// break among them starts no new line.
pub fn draw_text_mut<C: Canvas>(
    canvas: &mut C,
    color: C::Pixel,
    x: i32,
    y: i32,
    glyphs: &[Glyph],
)
    ensures
        drawn_from(final(canvas), old(canvas), glyphs@, color, x as int, y as int),
{
    composite(canvas, color, x as i64, y as i64, glyphs)
}

/// Draws coloured text on a copy of `image` and returns the copy; `image`
/// itself stays as it is.
pub fn draw_text<C: Canvas>(
    image: &C,
    color: C::Pixel,
    x: i32,
    y: i32,
    glyphs: &[Glyph],
) -> (out: C)
    ensures
        drawn_from(&out, image, glyphs@, color, x as int, y as int),
{
    let mut out = image.duplicate();
    composite(&mut out, color, x as i64, y as i64, glyphs);
    out
}

impl GlyphString {
    /// Draws this run onto `image` with the origin of the text at column `x`
    /// of row `y`.
    pub fn draw_mut<C: Canvas>(&self, image: &mut C, color: C::Pixel, x: u32, y: u32)
        ensures
            drawn_from(final(image), old(image), self@, color, x as int, y as int),
    {
        composite(image, color, x as i64, y as i64, self.glyphs())
    }

    /// Draws this run onto a copy of `image` with the origin of the text at
    /// column `x` of row `y`, and returns the copy.
    pub fn draw<C: Canvas>(&self, image: &C, color: C::Pixel, x: u32, y: u32) -> (out: C)
        ensures
            drawn_from(&out, image, self@, color, x as int, y as int),
    {
        let mut out = image.duplicate();
        self.draw_mut(&mut out, color, x, y);
        out
    }

    /// Draws this run onto `image` inside `rectangle` at `position`: the
    /// origin of the text is the corner at which an area as wide and as high
    /// as the run is anchored.
    pub fn draw_positioned_mut<C: Canvas>(
        &self,
        image: &mut C,
        color: C::Pixel,
        position: &Position,
        rectangle: &Rect,
    )
        ensures
            drawn_from(
                final(image),
                old(image),
                self@,
                color,
                anchor(*position, *rectangle, run_width(self@), run_height(self@)).0,
                anchor(*position, *rectangle, run_width(self@), run_height(self@)).1,
            ),
    {
        let width = self.width();
        let height = self.height();
        let (x, y) = find_text_area_coordinates(position, rectangle, width, height);
        composite(image, color, x, y, self.glyphs())
    }

    /// Draws this run onto a copy of `image` inside `rectangle` at
    /// `position`, and returns the copy.
    pub fn draw_positioned<C: Canvas>(
        &self,
        image: &C,
        color: C::Pixel,
        position: &Position,
        rectangle: &Rect,
    ) -> (out: C)
        ensures
            drawn_from(
                &out,
                image,
                self@,
                color,
                anchor(*position, *rectangle, run_width(self@), run_height(self@)).0,
                anchor(*position, *rectangle, run_width(self@), run_height(self@)).1,
            ),
    {
        let mut out = image.duplicate();
        self.draw_positioned_mut(&mut out, color, position, rectangle);
        out
    }
}

/// The widths of `runs` together, in pixels.
pub open spec fn widths_sum(runs: Seq<Seq<Glyph>>) -> int
    decreases runs.len(),
{
    if runs.len() == 0 {
        0
    } else {
        widths_sum(runs.drop_last()) + run_width(runs.last())
    }
}

/// The width in pixels of runs laid side by side: their widths together,
/// and no more than a `u32` holds.
pub open spec fn block_width(runs: Seq<Seq<Glyph>>) -> int {
    if widths_sum(runs) <= u32::MAX {
        widths_sum(runs)
    } else {
        u32::MAX as int
    }
}

/// The height in pixels of runs laid side by side: that of the highest of
/// them, and 0 where there is none.
pub open spec fn block_height(runs: Seq<Seq<Glyph>>) -> int
    decreases runs.len(),
{
    if runs.len() == 0 {
        0
    } else {
        let rest = block_height(runs.drop_last());
        if run_height(runs.last()) > rest {
            run_height(runs.last())
        } else {
            rest
        }
    }
}

/// How far to the right of the block's origin run number `k` starts: the
/// widths of the runs before it together.
pub open spec fn run_offset(runs: Seq<Seq<Glyph>>, k: int) -> int {
    widths_sum(runs.take(k))
}

/// What a pixel holds after the first `n` of `runs` are drawn side by side,
/// each in the colour of `colors` that has its number, where the pixel held
/// `pixel` and lies `dx` columns to the right of and `dy` rows below the
/// origin of the block.
pub open spec fn pixel_after_runs<P: Blend>(
    runs: Seq<Seq<Glyph>>,
    colors: Seq<P>,
    n: nat,
    pixel: P,
    dx: int,
    dy: int,
) -> P
    decreases n,
{
    if n == 0 {
        pixel
    } else {
        pixel_after(
            runs[n - 1],
            pixel_after_runs(runs, colors, (n - 1) as nat, pixel, dx, dy),
            colors[n - 1],
            dx - run_offset(runs, n - 1),
            dy,
        )
    }
}

/// The number of runs that are drawn where `runs` runs meet `colors`
/// colours: a run without a colour is not drawn, and a colour without a run
/// is not used.
pub open spec fn paired(runs: int, colors: int) -> nat {
    if runs <= colors {
        runs as nat
    } else {
        colors as nat
    }
}

/// Several runs of glyphs that are drawn side by side as one block, each in
/// a colour of its own.
pub struct GlyphStrings<'a>(pub &'a [&'a GlyphString]);

impl<'a> View for GlyphStrings<'a> {
    type V = Seq<Seq<Glyph>>;

    open spec fn view(&self) -> Seq<Seq<Glyph>> {
        Seq::new(self.0@.len(), |k: int| self.0@[k]@)
    }
}

impl<'a> GlyphStrings<'a> {
    /// The block of the given runs, from left to right.
    pub fn new(glyph_strings: &'a [&'a GlyphString]) -> (block: GlyphStrings<'a>)
        ensures
            block.0@ == glyph_strings@,
    {
        GlyphStrings(glyph_strings)
    }

    /// Draws the runs onto `image` inside `rectangle` at `position`, from
    /// left to right, each in the colour of `colors` that has its number.
    /// The block is anchored as a whole, and each run starts where the run
    /// before it ends. Where there are more runs than colours the runs
    /// without a colour are not drawn.
    pub fn draw_positioned_mut<C: Canvas>(
        &self,
        image: &mut C,
        colors: &[C::Pixel],
        position: &Position,
        rectangle: &Rect,
    )
        ensures
            final(image).spec_width() == old(image).spec_width(),
            final(image).spec_height() == old(image).spec_height(),
            forall|i: int, j: int|
                0 <= i < old(image).spec_width() && 0 <= j < old(image).spec_height()
                    ==> #[trigger] final(image).spec_pixel(i, j) == pixel_after_runs(
                    self@,
                    colors@,
                    paired(self@.len() as int, colors@.len() as int),
                    old(image).spec_pixel(i, j),
                    i - anchor(*position, *rectangle, block_width(self@), block_height(self@)).0,
                    j - anchor(*position, *rectangle, block_width(self@), block_height(self@)).1,
                ),
    {
        let width = self.width();
        let height = self.height();
        let (x, y) = find_text_area_coordinates(position, rectangle, width, height);
        let count = if self.0.len() <= colors.len() {
            self.0.len()
        } else {
            colors.len()
        };
        // No box begins more than 2^31 columns to the left of its origin, so
        // a run whose origin lies that far past the right edge touches nothing.
        let reach: i128 = image.width() as i128 + 0x8000_0000;
        let ghost before = *image;
        let ghost runs = self@;
        let mut cursor: i128 = x as i128;
        let mut k: usize = 0;
        while k < count
            invariant
                runs == self@,
                k <= count,
                reach == before.spec_width() + 0x8000_0000,
                reach <= 0x1_8000_0000,
                count == paired(runs.len() as int, colors@.len() as int),
                cursor == x + run_offset(runs, k as int),
                0 <= run_offset(runs, k as int) <= k * 0xffff_ffff,
                image.spec_width() == before.spec_width(),
                image.spec_height() == before.spec_height(),
                forall|i: int, j: int|
                    0 <= i < before.spec_width() && 0 <= j < before.spec_height()
                        ==> #[trigger] image.spec_pixel(i, j) == pixel_after_runs(
                        runs,
                        colors@,
                        k as nat,
                        before.spec_pixel(i, j),
                        i - x,
                        j - y,
                    ),
            decreases count - k,
        {
            let string = self.0[k];
            let color = colors[k];
            proof {
                lemma_runs_follow_each_other(runs, k as int);
                assert(runs[k as int] == string@);
            }
            let ghost drawn = *image;
            if cursor < reach {
                composite(image, color, cursor as i64, y, string.glyphs());
            } else {
                assert forall|i: int, j: int|
                    0 <= i < before.spec_width() && 0 <= j < before.spec_height() implies pixel_after(
                    string@,
                    #[trigger] drawn.spec_pixel(i, j),
                    color,
                    i - cursor,
                    j - y,
                ) == drawn.spec_pixel(i, j) by {
                    assert forall|g: int| 0 <= g < string@.len() implies !(
                    #[trigger] string@[g]).marks(i - cursor, j - y) by {}
                    lemma_unmarked_pixel_kept(
                        string@,
                        drawn.spec_pixel(i, j),
                        color,
                        i - cursor,
                        j - y,
                    );
                }
            }
            cursor = cursor + string.width() as i128;
            k += 1;
        }
    }

    /// Finds out how much vertical space the runs need when drawn: as much
    /// as the highest of them.
    pub fn height(&self) -> (h: u32)
        ensures
            h == block_height(self@),
    {
        let ghost runs = self@;
        let mut highest: u32 = 0;
        let mut k: usize = 0;
        while k < self.0.len()
            invariant
                runs == self@,
                k <= self.0.len(),
                highest == block_height(runs.take(k as int)),
            decreases self.0.len() - k,
        {
            assert(runs.take(k + 1).drop_last() == runs.take(k as int));
            let h = self.0[k].height();
            if h > highest {
                highest = h;
            }
            k += 1;
        }
        assert(runs.take(k as int) == runs);
        highest
    }

    /// Finds out how much horizontal space the runs need when drawn: as
    /// much as all of them together.
    pub fn width(&self) -> (w: u32)
        ensures
            w == block_width(self@),
    {
        let ghost runs = self@;
        let mut total: u128 = 0;
        let mut k: usize = 0;
        while k < self.0.len()
            invariant
                runs == self@,
                k <= self.0.len(),
                total == run_offset(runs, k as int),
                total <= k * 0xffff_ffff,
            decreases self.0.len() - k,
        {
            proof {
                lemma_runs_follow_each_other(runs, k as int);
            }
            total = total + self.0[k].width() as u128;
            k += 1;
        }
        assert(runs.take(k as int) == runs);
        if total <= 0xffff_ffff {
            total as u32
        } else {
            u32::MAX
        }
    }
}

} // verus!

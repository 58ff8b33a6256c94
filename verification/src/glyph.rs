//! Rasterised glyphs and runs of them.
//!
//! A glyph arrives here already shaped and rasterised: a box on the pixel
//! grid, one coverage weight for each pixel of the box, and the metrics of
//! its font. Lengths that a font gives in fractions of a pixel are counted
//! in 64ths of a pixel.

use vstd::prelude::*;

verus! {

/// The number of metric units in one pixel.
pub const UNITS_PER_PIXEL: u32 = 64;

/// The padding added to the width of every run of glyphs.
pub const RUN_PADDING: u32 = 2;

/// The box of pixels that a glyph touches, relative to the origin of the
/// text: the columns from `min_x` up to, and not including, `max_x`, and the
/// rows from `min_y` up to, and not including, `max_y`.
#[derive(Clone, Copy, Debug, PartialEq, Eq, Structural)]
pub struct BoundingBox {
    pub min_x: i32,
    pub min_y: i32,
    pub max_x: i32,
    pub max_y: i32,
}

impl BoundingBox {
    /// The number of columns of the box; none where `max_x` is below `min_x`.
    pub open spec fn spec_width(self) -> int {
        if self.max_x > self.min_x {
            self.max_x - self.min_x
        } else {
            0
        }
    }

    /// The number of rows of the box; none where `max_y` is below `min_y`.
    pub open spec fn spec_height(self) -> int {
        if self.max_y > self.min_y {
            self.max_y - self.min_y
        } else {
            0
        }
    }

    /// The number of columns of the box.
    pub fn width(&self) -> (w: u32)
        ensures
            w == self.spec_width(),
    {
        if self.max_x > self.min_x {
            (self.max_x as i64 - self.min_x as i64) as u32
        } else {
            0
        }
    }

    /// The number of rows of the box.
    pub fn height(&self) -> (h: u32)
        ensures
            h == self.spec_height(),
    {
        if self.max_y > self.min_y {
            (self.max_y as i64 - self.min_y as i64) as u32
        } else {
            0
        }
    }
}

/// One rasterised character.
#[derive(Clone, Debug)]
pub struct Glyph {
    /// The pixels the glyph touches; `None` for a glyph without a shape,
    /// such as a space.
    pub bounding_box: Option<BoundingBox>,
    /// The coverage of each pixel of the box, row by row from the top, each
    /// row from the left: 0 is untouched, 255 fully covered.
    pub coverage: Vec<u8>,
    /// How far the glyph moves the cursor to the right, in 64ths of a pixel.
    pub advance_width: u32,
    /// How far the glyph's font reaches above the baseline, in 64ths of a
    /// pixel.
    pub ascent: i32,
    /// How far the glyph's font reaches below the baseline, in 64ths of a
    /// pixel: negative where it does reach below.
    pub descent: i32,
}

impl Glyph {
    /// A glyph without a shape, which only moves the cursor.
    pub fn blank(advance_width: u32, ascent: i32, descent: i32) -> (g: Glyph)
        ensures
            g.bounding_box.is_none(),
            g.coverage@ == Seq::<u8>::empty(),
            g.advance_width == advance_width,
            g.ascent == ascent,
            g.descent == descent,
    {
        Glyph { bounding_box: None, coverage: Vec::new(), advance_width, ascent, descent }
    }

    /// A glyph with the given box and the coverage of its pixels.
    pub fn rasterized(
        bounding_box: BoundingBox,
        coverage: Vec<u8>,
        advance_width: u32,
        ascent: i32,
        descent: i32,
    ) -> (g: Glyph)
        ensures
            g.bounding_box == Some(bounding_box),
            g.coverage@ == coverage@,
            g.advance_width == advance_width,
            g.ascent == ascent,
            g.descent == descent,
    {
        Glyph { bounding_box: Some(bounding_box), coverage, advance_width, ascent, descent }
    }

    /// Whether the glyph's box holds the pixel at column `lx` of row `ly`,
    /// both counted from the box's top-left corner.
    pub open spec fn covers(self, lx: int, ly: int) -> bool {
        match self.bounding_box {
            Some(bb) => 0 <= lx < bb.spec_width() && 0 <= ly < bb.spec_height(),
            None => false,
        }
    }

    /// The coverage of the pixel at column `lx` of row `ly` of the glyph's
    /// box. A pixel outside the box, or one for which `coverage` holds no
    /// entry, is untouched.
    pub open spec fn coverage_at(self, lx: int, ly: int) -> u8 {
        match self.bounding_box {
            Some(bb) => {
                let at = ly * bb.spec_width() + lx;
                if self.covers(lx, ly) && at < self.coverage@.len() {
                    self.coverage@[at]
                } else {
                    0
                }
            },
            None => 0,
        }
    }

    /// Reads the coverage of the pixel at column `lx` of row `ly` of the
    /// glyph's box.
    pub fn coverage(&self, lx: u32, ly: u32) -> (c: u8)
        ensures
            c == self.coverage_at(lx as int, ly as int),
    {
        match self.bounding_box {
            Some(bb) => {
                let w = bb.width();
                let h = bb.height();
                if lx < w && ly < h {
                    assert(0 <= ly * w <= 0xffff_ffff * 0xffff_ffff) by (nonlinear_arith)
                        requires
                            0 <= ly <= 0xffff_ffff,
                            0 <= w <= 0xffff_ffff,
                    ;
                    let at: u64 = ly as u64 * w as u64 + lx as u64;
                    if at < self.coverage.len() as u64 {
                        self.coverage[at as usize]
                    } else {
                        0
                    }
                } else {
                    0
                }
            },
            None => 0,
        }
    }
}

/// The largest of 0 and the right edges of the boxes of `glyphs`.
pub open spec fn extent_x(glyphs: Seq<Glyph>) -> int
    decreases glyphs.len(),
{
    if glyphs.len() == 0 {
        0
    } else {
        let rest = extent_x(glyphs.drop_last());
        match glyphs.last().bounding_box {
            Some(bb) => if bb.max_x > rest {
                bb.max_x as int
            } else {
                rest
            },
            None => rest,
        }
    }
}

/// The largest of 0 and the bottom edges of the boxes of `glyphs`.
pub open spec fn extent_y(glyphs: Seq<Glyph>) -> int
    decreases glyphs.len(),
{
    if glyphs.len() == 0 {
        0
    } else {
        let rest = extent_y(glyphs.drop_last());
        match glyphs.last().bounding_box {
            Some(bb) => if bb.max_y > rest {
                bb.max_y as int
            } else {
                rest
            },
            None => rest,
        }
    }
}

/// The width and height of the tight box around laid-out glyphs: how far
/// their boxes reach to the right of and below the origin of the text.
/// Glyphs without a shape do not count, and text without any shape has size
/// `(0, 0)`.
pub fn text_size(glyphs: &[Glyph]) -> (size: (i32, i32))
    ensures
        size.0 == extent_x(glyphs@),
        size.1 == extent_y(glyphs@),
{
    let mut w: i32 = 0;
    let mut h: i32 = 0;
    let mut i: usize = 0;
    while i < glyphs.len()
        invariant
            i <= glyphs.len(),
            w == extent_x(glyphs@.take(i as int)),
            h == extent_y(glyphs@.take(i as int)),
        decreases glyphs.len() - i,
    {
        assert(glyphs@.take(i + 1).drop_last() == glyphs@.take(i as int));
        if let Some(bb) = glyphs[i].bounding_box {
            if bb.max_x > w {
                w = bb.max_x;
            }
            if bb.max_y > h {
                h = bb.max_y;
            }
        }
        i += 1;
    }
    assert(glyphs@.take(i as int) == glyphs@);
    (w, h)
}

/// The sum of the advance widths of `glyphs`, in 64ths of a pixel.
pub open spec fn total_advance(glyphs: Seq<Glyph>) -> nat
    decreases glyphs.len(),
{
    if glyphs.len() == 0 {
        0
    } else {
        total_advance(glyphs.drop_last()) + glyphs.last().advance_width as nat
    }
}

/// The width of a run of `glyphs` in pixels: the whole pixels of their
/// advance widths together and two pixels of padding, and no more than a
/// `u32` holds.
pub open spec fn run_width(glyphs: Seq<Glyph>) -> int {
    let exact: int = RUN_PADDING + total_advance(glyphs) as int / (UNITS_PER_PIXEL as int);
    if exact <= u32::MAX {
        exact
    } else {
        u32::MAX as int
    }
}

/// The height in pixels of a line of a font with the given ascent and
/// descent in 64ths of a pixel: eleven tenths of their distance, rounded to
/// the nearest pixel, halves up; 0 where the ascent does not lie above the
/// descent.
pub open spec fn line_height(ascent: int, descent: int) -> int {
    if ascent > descent {
        ((ascent - descent) * 11 + 320) / 640
    } else {
        0
    }
}

/// The height of a run of `glyphs` in pixels: the line height of the font of
/// the first glyph, and 0 for an empty run.
pub open spec fn run_height(glyphs: Seq<Glyph>) -> int {
    if glyphs.len() == 0 {
        0
    } else {
        line_height(glyphs[0].ascent as int, glyphs[0].descent as int)
    }
}

/// An arrangement of glyphs which can be drawn onto a canvas, and which
/// knows how much room it takes.
#[derive(Clone, Debug)]
pub struct GlyphString {
    glyphs: Vec<Glyph>,
}

impl View for GlyphString {
    type V = Seq<Glyph>;

    closed spec fn view(&self) -> Seq<Glyph> {
        self.glyphs@
    }
}

impl GlyphString {
    /// The run of the given glyphs, in their order.
    pub fn new(glyphs: Vec<Glyph>) -> (run: GlyphString)
        ensures
            run@ == glyphs@,
    {
        GlyphString { glyphs }
    }

    /// The glyphs of the run, in their order.
    pub fn glyphs(&self) -> (glyphs: &[Glyph])
        ensures
            glyphs@ == self@,
    {
        self.glyphs.as_slice()
    }

    /// Finds out how much horizontal space this run needs when drawn.
    pub fn width(&self) -> (w: u32)
        ensures
            w == run_width(self@),
    {
        let mut total: u128 = 0;
        let mut i: usize = 0;
        while i < self.glyphs.len()
            invariant
                i <= self.glyphs.len(),
                total == total_advance(self.glyphs@.take(i as int)),
                total <= i * 0xffff_ffff,
            decreases self.glyphs.len() - i,
        {
            assert(self.glyphs@.take(i + 1).drop_last() == self.glyphs@.take(i as int));
            total = total + self.glyphs[i].advance_width as u128;
            i += 1;
        }
        assert(self.glyphs@.take(i as int) == self.glyphs@);
        let pixels: u128 = total / UNITS_PER_PIXEL as u128;
        if pixels <= (u32::MAX - RUN_PADDING) as u128 {
            pixels as u32 + RUN_PADDING
        } else {
            u32::MAX
        }
    }

    /// Finds out how much vertical space this run needs when drawn.
    pub fn height(&self) -> (h: u32)
        ensures
            h == run_height(self@),
    {
        if self.glyphs.len() == 0 {
            0
        } else {
            let ascent: i64 = self.glyphs[0].ascent as i64;
            let descent: i64 = self.glyphs[0].descent as i64;
            if ascent > descent {
                (((ascent - descent) * 11 + 320) / 640) as u32
            } else {
                0
            }
        }
    }
}

} // verus!

//! What holds of drawing whatever the glyphs, the colours and the canvas.

use vstd::prelude::*;
use crate::canvas::Canvas;
use crate::canvas::same_picture;
use crate::compose::drawn_from;
use crate::compose::pixel_after;
use crate::glyph::Glyph;
use crate::glyph::extent_x;
use crate::glyph::extent_y;
use crate::glyph::run_height;
use crate::glyph::run_width;
use crate::text::block_height;
use crate::text::block_width;
use crate::text::run_offset;
use crate::text::widths_sum;
use crate::pixel::Blend;
use crate::position::Position;
use crate::position::anchor;
use crate::position::centered;
use crate::position::slide;
use crate::rect::Rect;

verus! {

impl Glyph {
    /// Whether the glyph, drawn with the origin of the text at column `x` of
    /// row `y`, lies wholly outside a canvas of the given size: it has no
    /// shape, or its box, moved by the origin, ends before the canvas begins
    /// or begins after the canvas ends.
    pub open spec fn misses(self, x: int, y: int, width: int, height: int) -> bool {
        match self.bounding_box {
            Some(bb) => bb.max_x + x <= 0 || bb.min_x + x >= width || bb.max_y + y <= 0 || bb.min_y
                + y >= height,
            None => true,
        }
    }
}

/// A pixel that none of the glyphs covers, be it outside their boxes or
/// inside one with a coverage of 0, holds after the drawing what it held
/// before.
pub proof fn lemma_unmarked_pixel_kept<P: Blend>(
    glyphs: Seq<Glyph>,
    pixel: P,
    color: P,
    dx: int,
    dy: int,
)
    requires
        forall|k: int| 0 <= k < glyphs.len() ==> !(#[trigger] glyphs[k]).marks(dx, dy),
    ensures
        pixel_after(glyphs, pixel, color, dx, dy) == pixel,
    decreases glyphs.len(),
{
    if glyphs.len() > 0 {
        let rest = glyphs.drop_last();
        assert forall|k: int| 0 <= k < rest.len() implies !(#[trigger] rest[k]).marks(dx, dy) by {
            assert(rest[k] == glyphs[k]);
        }
        lemma_unmarked_pixel_kept(rest, pixel, color, dx, dy);
        assert(!glyphs[glyphs.len() - 1].marks(dx, dy));
        pixel.lemma_blend_extremes(color);
    }
}

/// A pixel that only one glyph touches, and that this glyph covers fully,
/// holds the text colour after the drawing.
pub proof fn lemma_fully_covered_pixel_takes_colour<P: Blend>(
    glyph: Glyph,
    pixel: P,
    color: P,
    dx: int,
    dy: int,
)
    requires
        glyph.touches(dx, dy),
        glyph.coverage_at(
            dx - glyph.bounding_box.unwrap().min_x,
            dy - glyph.bounding_box.unwrap().min_y,
        ) == 255,
    ensures
        pixel_after(seq![glyph], pixel, color, dx, dy) == color,
{
    let glyphs = seq![glyph];
    assert(glyphs.drop_last().len() == 0);
    assert(glyphs.last() == glyph);
    assert(pixel_after(glyphs.drop_last(), pixel, color, dx, dy) == pixel);
    pixel.lemma_blend_extremes(color);
}

/// Drawing leaves every pixel of the canvas that none of the glyphs covers
/// as it was.
pub proof fn lemma_draw_keeps_outside<C: Canvas>(
    after: &C,
    before: &C,
    glyphs: Seq<Glyph>,
    color: C::Pixel,
    x: int,
    y: int,
    i: int,
    j: int,
)
    requires
        drawn_from(after, before, glyphs, color, x, y),
        0 <= i < before.spec_width(),
        0 <= j < before.spec_height(),
        forall|k: int| 0 <= k < glyphs.len() ==> !(#[trigger] glyphs[k]).marks(i - x, j - y),
    ensures
        after.spec_pixel(i, j) == before.spec_pixel(i, j),
{
    lemma_unmarked_pixel_kept(glyphs, before.spec_pixel(i, j), color, i - x, j - y);
}

/// Two drawings of the same glyphs in the same colour at the same origin,
/// both made from the same picture, give the same picture: drawing in place
/// and drawing on a copy do not differ.
pub proof fn lemma_draws_agree<C: Canvas>(
    first: &C,
    second: &C,
    before: &C,
    glyphs: Seq<Glyph>,
    color: C::Pixel,
    x: int,
    y: int,
)
    requires
        drawn_from(first, before, glyphs, color, x, y),
        drawn_from(second, before, glyphs, color, x, y),
    ensures
        same_picture(first, second),
{
}

/// Drawing glyphs that all lie wholly outside the canvas changes no pixel.
pub proof fn lemma_offscreen_draw_changes_nothing<C: Canvas>(
    after: &C,
    before: &C,
    glyphs: Seq<Glyph>,
    color: C::Pixel,
    x: int,
    y: int,
)
    requires
        drawn_from(after, before, glyphs, color, x, y),
        forall|k: int|
            0 <= k < glyphs.len() ==> (#[trigger] glyphs[k]).misses(
                x,
                y,
                before.spec_width() as int,
                before.spec_height() as int,
            ),
    ensures
        same_picture(after, before),
{
    assert forall|i: int, j: int|
        0 <= i < before.spec_width() && 0 <= j < before.spec_height() implies #[trigger] after.spec_pixel(
        i,
        j,
    ) == before.spec_pixel(i, j) by {
        assert forall|k: int| 0 <= k < glyphs.len() implies !(#[trigger] glyphs[k]).marks(
            i - x,
            j - y,
        ) by {
            assert(glyphs[k].misses(x, y, before.spec_width() as int, before.spec_height() as int));
        }
        lemma_draw_keeps_outside(after, before, glyphs, color, x, y, i, j);
    }
}

/// The size of text reaches as far as every box of its glyphs and no
/// further: no box ends past it, and in each direction it is 0 or the end
/// of one of the boxes.
pub proof fn lemma_text_size_is_tight(glyphs: Seq<Glyph>)
    ensures
        extent_x(glyphs) >= 0,
        extent_y(glyphs) >= 0,
        forall|k: int|
            0 <= k < glyphs.len() ==> match (#[trigger] glyphs[k]).bounding_box {
                Some(bb) => bb.max_x <= extent_x(glyphs) && bb.max_y <= extent_y(glyphs),
                None => true,
            },
        extent_x(glyphs) == 0 || exists|k: int|
            0 <= k < glyphs.len() && (#[trigger] glyphs[k]).bounding_box.is_some()
                && glyphs[k].bounding_box.unwrap().max_x == extent_x(glyphs),
        extent_y(glyphs) == 0 || exists|k: int|
            0 <= k < glyphs.len() && (#[trigger] glyphs[k]).bounding_box.is_some()
                && glyphs[k].bounding_box.unwrap().max_y == extent_y(glyphs),
    decreases glyphs.len(),
{
    if glyphs.len() > 0 {
        let rest = glyphs.drop_last();
        let last = glyphs.len() - 1;
        lemma_text_size_is_tight(rest);
        assert forall|k: int| 0 <= k < glyphs.len() implies match (#[trigger] glyphs[k]).bounding_box {
            Some(bb) => bb.max_x <= extent_x(glyphs) && bb.max_y <= extent_y(glyphs),
            None => true,
        } by {
            if k < last {
                assert(rest[k] == glyphs[k]);
            }
        }
        if extent_x(glyphs) != 0 {
            if extent_x(glyphs) == extent_x(rest) {
                let k = choose|k: int|
                    0 <= k < rest.len() && (#[trigger] rest[k]).bounding_box.is_some()
                        && rest[k].bounding_box.unwrap().max_x == extent_x(rest);
                assert(glyphs[k] == rest[k]);
            } else {
                assert(glyphs[last].bounding_box.unwrap().max_x == extent_x(glyphs));
            }
        }
        if extent_y(glyphs) != 0 {
            if extent_y(glyphs) == extent_y(rest) {
                let k = choose|k: int|
                    0 <= k < rest.len() && (#[trigger] rest[k]).bounding_box.is_some()
                        && rest[k].bounding_box.unwrap().max_y == extent_y(rest);
                assert(glyphs[k] == rest[k]);
            } else {
                assert(glyphs[last].bounding_box.unwrap().max_y == extent_y(glyphs));
            }
        }
    }
}

/// The width of a block of runs is the sum of the widths of its runs,
/// wherever that sum is a number a `u32` holds.
pub proof fn lemma_block_width_is_sum(runs: Seq<Seq<Glyph>>)
    requires
        widths_sum(runs) <= u32::MAX,
    ensures
        block_width(runs) == widths_sum(runs),
{
}

/// The sum of the widths of no runs is 0, and each further run adds its own
/// width to it.
pub proof fn lemma_widths_sum_adds(runs: Seq<Seq<Glyph>>, run: Seq<Glyph>)
    ensures
        widths_sum(Seq::<Seq<Glyph>>::empty()) == 0,
        widths_sum(runs.push(run)) == widths_sum(runs) + run_width(run),
{
    assert(runs.push(run).drop_last() == runs);
}

/// The height of a block of runs is the largest of the heights of its runs:
/// no run is higher, and a block that holds a run is as high as one of
/// them.
pub proof fn lemma_block_height_is_max(runs: Seq<Seq<Glyph>>)
    ensures
        forall|k: int| 0 <= k < runs.len() ==> run_height(#[trigger] runs[k]) <= block_height(runs),
        runs.len() == 0 ==> block_height(runs) == 0,
        runs.len() > 0 ==> exists|k: int|
            0 <= k < runs.len() && run_height(#[trigger] runs[k]) == block_height(runs),
    decreases runs.len(),
{
    if runs.len() > 0 {
        let rest = runs.drop_last();
        let last = runs.len() - 1;
        lemma_block_height_is_max(rest);
        assert forall|k: int| 0 <= k < runs.len() implies run_height(#[trigger] runs[k])
            <= block_height(runs) by {
            if k < last {
                assert(rest[k] == runs[k]);
            }
        }
        if block_height(runs) == run_height(runs[last]) {
        } else {
            let k = choose|k: int|
                0 <= k < rest.len() && run_height(#[trigger] rest[k]) == block_height(rest);
            assert(runs[k] == rest[k]);
        }
    }
}

/// The first run of a block starts at the block's origin, and every other
/// run starts where the run before it ends: at that run's start and its
/// width.
pub proof fn lemma_runs_follow_each_other(runs: Seq<Seq<Glyph>>, k: int)
    requires
        0 <= k < runs.len(),
    ensures
        run_offset(runs, 0) == 0,
        run_offset(runs, k + 1) == run_offset(runs, k) + run_width(runs[k]),
{
    assert(runs.take(k + 1).drop_last() == runs.take(k));
}

impl Position {
    /// Whether every edge position of the anchor lies on its edge, between
    /// the edge's start and its end.
    pub open spec fn on_edge(self) -> bool {
        match self {
            Position::HorizontalTop(e) => e.0 <= 100,
            Position::HorizontalCenter(e) => e.0 <= 100,
            Position::HorizontalBottom(e) => e.0 <= 100,
            Position::VerticalLeft(e) => e.0 <= 100,
            Position::VerticalCenter(e) => e.0 <= 100,
            Position::VerticalRight(e) => e.0 <= 100,
            Position::Any(h, v) => h.0 <= 100 && v.0 <= 100,
        }
    }
}

/// Content that fits on an edge stays on it while it slides from the start
/// of the edge to its end: at 0 percent it lies at the start, at 100
/// percent it ends where the edge ends, and in between it lies in between.
pub proof fn lemma_slide_stays_on_edge(rect_len: int, content_len: int, edge: int)
    requires
        0 <= content_len <= rect_len,
        0 <= edge <= 100,
    ensures
        0 <= slide(rect_len, content_len, edge) <= rect_len - content_len,
        slide(rect_len, content_len, 0) == 0,
        slide(rect_len, content_len, 100) == rect_len - content_len,
{
    let free = rect_len - content_len;
    assert(0 <= free * edge <= free * 100) by (nonlinear_arith)
        requires
            0 <= free,
            0 <= edge <= 100,
    ;
}

/// Centred content has the same space on both of its sides, or one unit
/// more after it than before it where the space is odd.
pub proof fn lemma_centered_pads_evenly(rect_len: int, content_len: int)
    ensures
        centered(rect_len, content_len) == slide(rect_len, content_len, 50),
        0 <= (rect_len - content_len - centered(rect_len, content_len)) - centered(
            rect_len,
            content_len,
        ) <= 1,
{
    let free = rect_len - content_len;
    assert((free * 50) / 100 == free / 2) by {
        assert(free * 50 == (free / 2) * 100 + (free % 2) * 50) by (nonlinear_arith);
    }
}

/// Content that fits into the rectangle, anchored at positions on the
/// edges, lies inside the rectangle.
pub proof fn lemma_anchor_inside(position: Position, rectangle: Rect, width: int, height: int)
    requires
        0 <= width <= rectangle.width,
        0 <= height <= rectangle.height,
        position.on_edge(),
    ensures
        rectangle.left <= anchor(position, rectangle, width, height).0,
        anchor(position, rectangle, width, height).0 + width <= rectangle.spec_right(),
        rectangle.top <= anchor(position, rectangle, width, height).1,
        anchor(position, rectangle, width, height).1 + height <= rectangle.spec_bottom(),
{
    let e = match position {
        Position::HorizontalTop(e) => e,
        Position::HorizontalCenter(e) => e,
        Position::HorizontalBottom(e) => e,
        Position::VerticalLeft(e) => e,
        Position::VerticalCenter(e) => e,
        Position::VerticalRight(e) => e,
        Position::Any(h, v) => h,
    };
    let v = match position {
        Position::Any(h, v) => v,
        _ => e,
    };
    lemma_slide_stays_on_edge(rectangle.width as int, width, e.0 as int);
    lemma_slide_stays_on_edge(rectangle.height as int, height, v.0 as int);
}

} // verus!

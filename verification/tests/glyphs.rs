use glyph_draw::glyph::text_size;
use glyph_draw::glyph::BoundingBox;
use glyph_draw::glyph::Glyph;
use glyph_draw::glyph::GlyphString;
use glyph_draw::pixel::Blend;
use glyph_draw::pixel::Rgba;
use glyph_draw::text::GlyphStrings;

fn boxed(min_x: i32, min_y: i32, max_x: i32, max_y: i32) -> Glyph {
    let bb = BoundingBox { min_x, min_y, max_x, max_y };
    let n = (bb.width() as usize) * (bb.height() as usize);
    Glyph::rasterized(bb, vec![255; n], 640, 640, -160)
}

fn run_of_width(pixels: u32) -> GlyphString {
    GlyphString::new(vec![Glyph::blank((pixels - 2) * 64, 640, -160)])
}

#[test]
fn blend_keeps_pixel_at_no_coverage() {
    for p in [0u8, 1, 17, 128, 254, 255] {
        for c in [0u8, 1, 99, 200, 255] {
            assert_eq!(p.blend(c, 0), p);
        }
    }
    let p = Rgba::new(1, 2, 3, 4);
    let c = Rgba::new(250, 0, 128, 255);
    assert_eq!(p.blend(c, 0), p);
}

#[test]
fn blend_gives_colour_at_full_coverage() {
    for p in [0u8, 1, 17, 128, 254, 255] {
        for c in [0u8, 1, 99, 200, 255] {
            assert_eq!(p.blend(c, 255), c);
        }
    }
    let p = Rgba::new(1, 2, 3, 4);
    let c = Rgba::new(250, 0, 128, 255);
    assert_eq!(p.blend(c, 255), c);
}

#[test]
fn blend_mixes_in_proportion() {
    // (10 * 127 + 200 * 128) / 255 = 105.37
    assert_eq!(10u8.blend(200, 128), 105);
    // (200 * 127 + 10 * 128) / 255 = 104.63
    assert_eq!(200u8.blend(10, 128), 104);
    // (0 * 254 + 255 * 1) / 255 = 1
    assert_eq!(0u8.blend(255, 1), 1);
    // (255 * 1 + 0 * 254) / 255 = 1
    assert_eq!(255u8.blend(0, 254), 1);
    assert_eq!(
        Rgba::new(10, 200, 0, 255).blend(Rgba::new(200, 10, 255, 0), 128),
        Rgba::new(105, 104, 128, 127)
    );
}

#[test]
fn blend_stays_between_its_operands() {
    for k in 0..=255u8 {
        let m = 40u8.blend(90, k);
        assert!(40 <= m && m <= 90);
        let n = 90u8.blend(40, k);
        assert!(40 <= n && n <= 90);
    }
}

#[test]
fn bounding_box_size() {
    let bb = BoundingBox { min_x: -2, min_y: 3, max_x: 5, max_y: 4 };
    assert_eq!(bb.width(), 7);
    assert_eq!(bb.height(), 1);
    let inverted = BoundingBox { min_x: 5, min_y: 5, max_x: 2, max_y: 5 };
    assert_eq!(inverted.width(), 0);
    assert_eq!(inverted.height(), 0);
    let widest = BoundingBox { min_x: i32::MIN, min_y: 0, max_x: i32::MAX, max_y: 1 };
    assert_eq!(widest.width(), u32::MAX);
}

#[test]
fn glyph_coverage_by_row_and_column() {
    let bb = BoundingBox { min_x: 0, min_y: 0, max_x: 3, max_y: 2 };
    let g = Glyph::rasterized(bb, vec![1, 2, 3, 4, 5, 6], 0, 0, 0);
    assert_eq!(g.coverage(0, 0), 1);
    assert_eq!(g.coverage(2, 0), 3);
    assert_eq!(g.coverage(0, 1), 4);
    assert_eq!(g.coverage(2, 1), 6);
    assert_eq!(g.coverage(3, 0), 0);
    assert_eq!(g.coverage(0, 2), 0);
}

#[test]
fn glyph_coverage_missing_entries_are_untouched() {
    let bb = BoundingBox { min_x: 0, min_y: 0, max_x: 2, max_y: 2 };
    let g = Glyph::rasterized(bb, vec![9, 8, 7], 0, 0, 0);
    assert_eq!(g.coverage(0, 1), 7);
    assert_eq!(g.coverage(1, 1), 0);
    assert_eq!(Glyph::blank(64, 0, 0).coverage(0, 0), 0);
}

#[test]
fn text_size_of_nothing() {
    assert_eq!(text_size(&[]), (0, 0));
    assert_eq!(text_size(&[Glyph::blank(640, 640, -160)]), (0, 0));
}

#[test]
fn text_size_is_the_furthest_corner() {
    let glyphs = vec![
        boxed(0, 2, 7, 12),
        Glyph::blank(320, 640, -160),
        boxed(10, -1, 16, 9),
        boxed(17, 4, 20, 15),
    ];
    assert_eq!(text_size(&glyphs), (20, 15));
}

#[test]
fn text_size_is_never_negative() {
    let glyphs = vec![boxed(-9, -8, -3, -2)];
    assert_eq!(text_size(&glyphs), (0, 0));
}

#[test]
fn run_width_is_advance_and_padding() {
    let run = GlyphString::new(vec![
        Glyph::blank(640, 640, -160),
        Glyph::blank(320, 640, -160),
        boxed(0, 0, 3, 3),
    ]);
    // 10 + 5 + 10 pixels and 2 of padding
    assert_eq!(run.width(), 27);
}

#[test]
fn run_width_drops_the_fraction_of_the_sum() {
    // 3 * 0.5 pixels = 1.5 pixels
    let run = GlyphString::new(vec![
        Glyph::blank(32, 0, 0),
        Glyph::blank(32, 0, 0),
        Glyph::blank(32, 0, 0),
    ]);
    assert_eq!(run.width(), 3);
}

#[test]
fn run_width_of_empty_run_is_the_padding() {
    assert_eq!(GlyphString::new(vec![]).width(), 2);
}

#[test]
fn run_width_stops_at_the_largest_number() {
    let mut glyphs = Vec::new();
    for _ in 0..65 {
        glyphs.push(Glyph::blank(u32::MAX, 0, 0));
    }
    assert_eq!(GlyphString::new(glyphs).width(), u32::MAX);
}

#[test]
fn run_height_is_eleven_tenths_of_the_line() {
    // ascent 10, descent -2.5: 12.5 * 1.1 = 13.75
    let run = GlyphString::new(vec![Glyph::blank(0, 640, -160)]);
    assert_eq!(run.height(), 14);
    // ascent 10, descent 0: 11
    let run = GlyphString::new(vec![Glyph::blank(0, 640, 0)]);
    assert_eq!(run.height(), 11);
    // ascent 3, descent -1: 4.4
    let run = GlyphString::new(vec![Glyph::blank(0, 192, -64)]);
    assert_eq!(run.height(), 4);
    // ascent 5, descent 0: 5.5, and halves go up
    let run = GlyphString::new(vec![Glyph::blank(0, 320, 0)]);
    assert_eq!(run.height(), 6);
}

#[test]
fn run_height_goes_by_the_first_glyph() {
    let run = GlyphString::new(vec![Glyph::blank(0, 640, 0), Glyph::blank(0, 6400, 0)]);
    assert_eq!(run.height(), 11);
}

#[test]
fn run_height_of_empty_run_is_zero() {
    assert_eq!(GlyphString::new(vec![]).height(), 0);
}

#[test]
fn run_height_without_room_is_zero() {
    let run = GlyphString::new(vec![Glyph::blank(0, -64, 64)]);
    assert_eq!(run.height(), 0);
    let run = GlyphString::new(vec![Glyph::blank(0, 64, 64)]);
    assert_eq!(run.height(), 0);
}

#[test]
fn run_height_at_the_limits() {
    let run = GlyphString::new(vec![Glyph::blank(0, i32::MAX, i32::MIN)]);
    assert_eq!(run.height(), ((4294967295u64 * 11 + 320) / 640) as u32);
}

#[test]
fn run_keeps_its_glyphs() {
    let run = GlyphString::new(vec![boxed(0, 0, 2, 2), Glyph::blank(64, 1, 2)]);
    assert_eq!(run.glyphs().len(), 2);
    assert_eq!(run.glyphs()[0].bounding_box, Some(BoundingBox { min_x: 0, min_y: 0, max_x: 2, max_y: 2 }));
    assert_eq!(run.glyphs()[1].bounding_box, None);
    assert_eq!(run.glyphs()[1].advance_width, 64);
}

#[test]
fn block_width_is_sum_of_run_widths() {
    let a = run_of_width(10);
    let b = run_of_width(15);
    let c = run_of_width(12);
    assert_eq!((a.width(), b.width(), c.width()), (10, 15, 12));
    let runs = [&a, &b, &c];
    assert_eq!(GlyphStrings::new(&runs).width(), 37);
    assert_eq!(GlyphStrings::new(&runs[..1]).width(), 10);
}

#[test]
fn block_height_is_highest_run() {
    let a = GlyphString::new(vec![Glyph::blank(0, 640, 0)]);
    let b = GlyphString::new(vec![Glyph::blank(0, 1280, 0)]);
    let c = GlyphString::new(vec![]);
    assert_eq!((a.height(), b.height(), c.height()), (11, 22, 0));
    let runs = [&a, &b, &c];
    assert_eq!(GlyphStrings::new(&runs).height(), 22);
    let runs = [&c, &a];
    assert_eq!(GlyphStrings::new(&runs).height(), 11);
}

#[test]
fn block_of_no_runs_has_no_size() {
    let block = GlyphStrings::new(&[]);
    assert_eq!(block.width(), 0);
    assert_eq!(block.height(), 0);
}

#[test]
fn block_width_stops_at_the_largest_number() {
    let mut glyphs = Vec::new();
    for _ in 0..65 {
        glyphs.push(Glyph::blank(u32::MAX, 0, 0));
    }
    let wide = GlyphString::new(glyphs);
    let runs = [&wide, &wide];
    assert_eq!(GlyphStrings::new(&runs).width(), u32::MAX);
}

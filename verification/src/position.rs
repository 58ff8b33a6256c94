//! Anchoring a block of content inside a rectangle.
//!
//! One axis of the content is pinned to an edge of the rectangle or centred
//! in it; along the other the content slides by a percentage of the space the
//! rectangle leaves free. All of it is signed arithmetic: content larger than
//! the rectangle leaves a negative space, and the content then reaches out of
//! the rectangle instead of wrapping around.

use vstd::prelude::*;
use crate::rect::Rect;

verus! {

/// The relative position of a point on an edge, in whole percent of the
/// edge's length: 0 is its start (left or top), 50 its centre and 100 its
/// end (right or bottom). Values above 100 carry on past the end.
#[derive(Clone, Copy, Debug, PartialEq, Eq, Structural)]
pub struct EdgePosition(pub u32);

impl EdgePosition {
    /// The left-most point of a horizontal edge.
    pub fn left() -> (e: EdgePosition)
        ensures
            e == EdgePosition(0),
    {
        EdgePosition(0)
    }

    /// The top-most point of a vertical edge.
    pub fn top() -> (e: EdgePosition)
        ensures
            e == EdgePosition(0),
    {
        EdgePosition(0)
    }

    /// The centre point of a horizontal or vertical edge.
    pub fn center() -> (e: EdgePosition)
        ensures
            e == EdgePosition(50),
    {
        EdgePosition(50)
    }

    /// The right-most point of a horizontal edge.
    pub fn right() -> (e: EdgePosition)
        ensures
            e == EdgePosition(100),
    {
        EdgePosition(100)
    }

    /// The bottom-most point of a vertical edge.
    pub fn bottom() -> (e: EdgePosition)
        ensures
            e == EdgePosition(100),
    {
        EdgePosition(100)
    }
}

impl From<u32> for EdgePosition {
    fn from(from: u32) -> (e: EdgePosition) {
        EdgePosition(from)
    }
}

impl vstd::std_specs::convert::FromSpecImpl<u32> for EdgePosition {
    open spec fn obeys_from_spec() -> bool {
        true
    }

    open spec fn from_spec(from: u32) -> EdgePosition {
        EdgePosition(from)
    }
}

/// Where content is anchored inside a rectangle.
#[derive(Clone, Copy, Debug, PartialEq, Eq, Structural)]
pub enum Position {
    /// Against the top edge, sliding along it.
    HorizontalTop(EdgePosition),
    /// Half way between the top and the bottom edge, sliding horizontally.
    HorizontalCenter(EdgePosition),
    /// Against the bottom edge, sliding along it.
    HorizontalBottom(EdgePosition),
    /// Against the left edge, sliding along it.
    VerticalLeft(EdgePosition),
    /// Half way between the left and the right edge, sliding vertically.
    VerticalCenter(EdgePosition),
    /// Against the right edge, sliding along it.
    VerticalRight(EdgePosition),
    /// Sliding along both axes: first the horizontal position, then the
    /// vertical one.
    Any(EdgePosition, EdgePosition),
}

/// How far content of length `content_len` lies from the start of an edge of
/// length `rect_len` when it sits at `edge` percent of the space left free:
/// that share of the space, rounded down.
pub open spec fn slide(rect_len: int, content_len: int, edge: int) -> int {
    ((rect_len - content_len) * edge) / 100
}

/// Half of the space that content of length `content_len` leaves free on an
/// edge of length `rect_len`, rounded down.
pub open spec fn centered(rect_len: int, content_len: int) -> int {
    (rect_len - content_len) / 2
}

/// The column at which content `width` wide starts when it slides to `edge`
/// along the width of `rectangle`.
pub open spec fn slide_x(rectangle: Rect, width: int, edge: EdgePosition) -> int {
    rectangle.left + slide(rectangle.width as int, width, edge.0 as int)
}

/// The row at which content `height` high starts when it slides to `edge`
/// along the height of `rectangle`.
pub open spec fn slide_y(rectangle: Rect, height: int, edge: EdgePosition) -> int {
    rectangle.top + slide(rectangle.height as int, height, edge.0 as int)
}

/// The top-left corner of content of the given size anchored at `position`
/// inside `rectangle`, as column and row.
pub open spec fn anchor(position: Position, rectangle: Rect, width: int, height: int) -> (
    int,
    int,
) {
    match position {
        Position::HorizontalTop(e) => (slide_x(rectangle, width, e), rectangle.top as int),
        Position::HorizontalCenter(e) => (
            slide_x(rectangle, width, e),
            rectangle.top + centered(rectangle.height as int, height),
        ),
        Position::HorizontalBottom(e) => (
            slide_x(rectangle, width, e),
            rectangle.spec_bottom() - height,
        ),
        Position::VerticalLeft(e) => (rectangle.left as int, slide_y(rectangle, height, e)),
        Position::VerticalCenter(e) => (
            rectangle.left + centered(rectangle.width as int, width),
            slide_y(rectangle, height, e),
        ),
        Position::VerticalRight(e) => (
            rectangle.spec_right() - width,
            slide_y(rectangle, height, e),
        ),
        Position::Any(h, v) => (slide_x(rectangle, width, h), slide_y(rectangle, height, v)),
    }
}

/// The quotient of `-magnitude` by `divisor`, rounded down.
fn floor_div_negated(magnitude: u64, divisor: u64) -> (q: i64)
    requires
        divisor == 2 || divisor == 100,
    ensures
        q == (-(magnitude as int)) / (divisor as int),
{
    let whole: u64 = magnitude / divisor;
    let rest: u64 = magnitude % divisor;
    if rest == 0 {
        -(whole as i64)
    } else {
        -(whole as i64) - 1
    }
}

/// Finds the distance of content from the start of one edge of a rectangle.
/// `rectangle_size` is the length of the rectangle along that edge,
/// `content_size` the length of the content, and `relative_position` shares
/// out the space between them.
pub fn calculate_center(
    rectangle_size: u32,
    content_size: u32,
    relative_position: &EdgePosition,
) -> (offset: i64)
    ensures
        offset == slide(rectangle_size as int, content_size as int, relative_position.0 as int),
        -0x0400_0000_0000_0000 < offset < 0x0400_0000_0000_0000,
{
    let edge: u64 = relative_position.0 as u64;
    if rectangle_size >= content_size {
        let free: u64 = (rectangle_size - content_size) as u64;
        assert(0 <= free * edge <= 0xffff_ffff * 0xffff_ffff) by (nonlinear_arith)
            requires
                0 <= free <= 0xffff_ffff,
                0 <= edge <= 0xffff_ffff,
        ;
        ((free * edge) / 100) as i64
    } else {
        let excess: u64 = (content_size - rectangle_size) as u64;
        assert(0 <= excess * edge <= 0xffff_ffff * 0xffff_ffff) by (nonlinear_arith)
            requires
                0 <= excess <= 0xffff_ffff,
                0 <= edge <= 0xffff_ffff,
        ;
        assert((rectangle_size - content_size) * edge == -(excess * edge)) by (nonlinear_arith)
            requires
                excess == content_size - rectangle_size,
        ;
        floor_div_negated(excess * edge, 100)
    }
}

/// Finds half of the space that content leaves free on one edge of a
/// rectangle.
fn center_offset(rectangle_size: u32, content_size: u32) -> (offset: i64)
    ensures
        offset == centered(rectangle_size as int, content_size as int),
{
    if rectangle_size >= content_size {
        ((rectangle_size - content_size) / 2) as i64
    } else {
        floor_div_negated((content_size - rectangle_size) as u64, 2)
    }
}

/// Finds the top-left corner of a text area of the given size anchored at
/// `position` inside `rectangle`.
pub fn find_text_area_coordinates(
    position: &Position,
    rectangle: &Rect,
    width: u32,
    height: u32,
) -> (corner: (i64, i64))
    ensures
        corner.0 == anchor(*position, *rectangle, width as int, height as int).0,
        corner.1 == anchor(*position, *rectangle, width as int, height as int).1,
{
    match position {
        Position::HorizontalCenter(edge_position) => (
            rectangle.left() as i64 + calculate_center(rectangle.width(), width, edge_position),
            rectangle.top() as i64 + center_offset(rectangle.height(), height),
        ),
        Position::HorizontalBottom(edge_position) => (
            rectangle.left() as i64 + calculate_center(rectangle.width(), width, edge_position),
            rectangle.bottom() - height as i64,
        ),
        Position::HorizontalTop(edge_position) => (
            rectangle.left() as i64 + calculate_center(rectangle.width(), width, edge_position),
            rectangle.top() as i64,
        ),
        Position::VerticalCenter(edge_position) => (
            rectangle.left() as i64 + center_offset(rectangle.width(), width),
            rectangle.top() as i64 + calculate_center(rectangle.height(), height, edge_position),
        ),
        Position::VerticalRight(edge_position) => (
            rectangle.right() - width as i64,
            rectangle.top() as i64 + calculate_center(rectangle.height(), height, edge_position),
        ),
        Position::VerticalLeft(edge_position) => (
            rectangle.left() as i64,
            rectangle.top() as i64 + calculate_center(rectangle.height(), height, edge_position),
        ),
        Position::Any(horizontal_edge, vertical_edge) => (
            rectangle.left() as i64 + calculate_center(rectangle.width(), width, horizontal_edge),
            rectangle.top() as i64 + calculate_center(rectangle.height(), height, vertical_edge),
        ),
    }
}

} // verus!

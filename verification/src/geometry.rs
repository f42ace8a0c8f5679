//! Canvas geometry in fixed point.
//!
//! Every coordinate and length on the canvas is an integer count of
//! hundredths of a logical pixel: the point `(1.25 px, 3 px)` is
//! `Point { x: 125, y: 300 }`.
use vstd::prelude::*;

verus! {

/// Number of coordinate units in one logical pixel.
pub const UNITS_PER_PIXEL: i32 = 100;

/// A brush only records a new sample once the pointer has moved more than
/// 1.5 px away from the last one: 150 units, squared.
pub const MIN_BRUSH_STEP_SQUARED: u128 = 22500;

/// Horizontal margin between the canvas edge and the artboard (40 px).
pub const ARTBOARD_PADDING_X: i32 = 4000;

/// Vertical margin between the canvas edge and the artboard (32 px).
pub const ARTBOARD_PADDING_Y: i32 = 3200;

/// A position on the canvas, in hundredths of a pixel.
#[derive(Clone, Copy, Debug, PartialEq, Eq, Structural)]
pub struct Point {
    pub x: i32,
    pub y: i32,
}

/// An axis-aligned rectangle: its top-left corner and its size.
#[derive(Clone, Copy, Debug, PartialEq, Eq, Structural)]
pub struct Bounds {
    pub x: i32,
    pub y: i32,
    pub width: u32,
    pub height: u32,
}

pub open spec fn min_int(a: int, b: int) -> int {
    if a <= b { a } else { b }
}

pub open spec fn max_int(a: int, b: int) -> int {
    if a >= b { a } else { b }
}

pub open spec fn abs_int(a: int) -> int {
    if a >= 0 { a } else { -a }
}

/// The squared Euclidean distance between two points.
pub open spec fn dist_sq(a: Point, b: Point) -> int {
    (a.x - b.x) * (a.x - b.x) + (a.y - b.y) * (a.y - b.y)
}

/// Whether `b` lies more than 1.5 px away from `a`.
pub open spec fn far_apart(a: Point, b: Point) -> bool {
    dist_sq(a, b) > MIN_BRUSH_STEP_SQUARED
}

/// The rectangle spanned by two opposite corners, at least 1 px wide and tall.
pub open spec fn spec_rectangle_from_points(start: Point, end: Point) -> Bounds {
    Bounds {
        x: min_int(start.x as int, end.x as int) as i32,
        y: min_int(start.y as int, end.y as int) as i32,
        width: max_int(abs_int(start.x - end.x), UNITS_PER_PIXEL as int) as u32,
        height: max_int(abs_int(start.y - end.y), UNITS_PER_PIXEL as int) as u32,
    }
}

/// Whether `p` lies in `rect`, edges included.
pub open spec fn spec_rectangle_contains(rect: Bounds, p: Point) -> bool {
    &&& rect.x <= p.x
    &&& p.x <= rect.x + rect.width
    &&& rect.y <= p.y
    &&& p.y <= rect.y + rect.height
}

/// The drawing area inside a canvas of the given size: inset by the
/// paddings and never smaller than 1 px in either direction.
pub open spec fn spec_artboard_bounds(canvas_width: i32, canvas_height: i32) -> Bounds {
    Bounds {
        x: ARTBOARD_PADDING_X,
        y: ARTBOARD_PADDING_Y,
        width: max_int(canvas_width - 2 * ARTBOARD_PADDING_X, UNITS_PER_PIXEL as int) as u32,
        height: max_int(canvas_height - 2 * ARTBOARD_PADDING_Y, UNITS_PER_PIXEL as int) as u32,
    }
}

proof fn lemma_square_bound(d: int)
    requires
        -0x1_0000_0000 < d < 0x1_0000_0000,
    ensures
        0 <= d * d <= 0x1_0000_0000 * 0x1_0000_0000,
{
    assert(0 <= d * d <= 0x1_0000_0000 * 0x1_0000_0000) by (nonlinear_arith)
        requires
            -0x1_0000_0000 < d < 0x1_0000_0000,
    ;
}

/// The squared distance between `a` and `b`, in squared units.
pub fn squared_distance(a: Point, b: Point) -> (d: u128)
    ensures
        d == dist_sq(a, b),
{
    let dx: i128 = a.x as i128 - b.x as i128;
    let dy: i128 = a.y as i128 - b.y as i128;
    proof {
        lemma_square_bound(dx as int);
        lemma_square_bound(dy as int);
    }
    let sum: i128 = dx * dx + dy * dy;
    sum as u128
}

/// Whether the pointer has moved far enough from `last` to record `next`.
pub fn moved_far_enough(last: Point, next: Point) -> (r: bool)
    ensures
        r == far_apart(last, next),
{
    squared_distance(last, next) > MIN_BRUSH_STEP_SQUARED
}

fn distance_along(a: i32, b: i32) -> (d: u32)
    ensures
        d == abs_int(a - b),
{
    let diff: i64 = a as i64 - b as i64;
    if diff >= 0 {
        diff as u32
    } else {
        (-diff) as u32
    }
}

/// The rectangle with opposite corners `start` and `end`; a side shorter
/// than 1 px is widened to 1 px.
pub fn rectangle_from_points(start: Point, end: Point) -> (r: Bounds)
    ensures
        r == spec_rectangle_from_points(start, end),
{
    let x = if start.x <= end.x { start.x } else { end.x };
    let y = if start.y <= end.y { start.y } else { end.y };
    let dx = distance_along(start.x, end.x);
    let dy = distance_along(start.y, end.y);
    let width: u32 = if dx >= 100 { dx } else { 100 };
    let height: u32 = if dy >= 100 { dy } else { 100 };
    Bounds { x, y, width, height }
}

/// Whether `point` lies inside `rect`, its edges included.
pub fn rectangle_contains(rect: Bounds, point: Point) -> (r: bool)
    ensures
        r == spec_rectangle_contains(rect, point),
{
    let right: i64 = rect.x as i64 + rect.width as i64;
    let bottom: i64 = rect.y as i64 + rect.height as i64;
    rect.x <= point.x && (point.x as i64) <= right && rect.y <= point.y && (point.y as i64)
        <= bottom
}

fn inset_length(length: i32, padding: i32) -> (r: u32)
    requires
        0 <= padding <= 100_000,
    ensures
        r == max_int(length - 2 * padding, UNITS_PER_PIXEL as int),
{
    let inner: i64 = length as i64 - 2 * padding as i64;
    if inner >= 100 {
        inner as u32
    } else {
        100
    }
}

/// The artboard inside a canvas of `canvas_width` by `canvas_height` units.
pub fn artboard_bounds(canvas_width: i32, canvas_height: i32) -> (r: Bounds)
    ensures
        r == spec_artboard_bounds(canvas_width, canvas_height),
{
    Bounds {
        x: ARTBOARD_PADDING_X,
        y: ARTBOARD_PADDING_Y,
        width: inset_length(canvas_width, ARTBOARD_PADDING_X),
        height: inset_length(canvas_height, ARTBOARD_PADDING_Y),
    }
}

/// Number of columns of the artboard's guide grid.
pub const GRID_COLUMNS: u32 = 12;

/// Number of rows of the artboard's guide grid.
pub const GRID_ROWS: u32 = 10;

/// The position of the `i`-th of `count` equal divisions of a span of
/// `length` starting at `start`, rounded down.
pub open spec fn grid_offset(start: int, length: int, count: int, i: int) -> int {
    start + length * i / count
}

/// The positions of the inner lines that cut the span of `length` starting
/// at `start` into `count` equal parts, in increasing order.
pub fn grid_lines(start: i32, length: u32, count: u32) -> (r: Vec<i64>)
    requires
        count > 0,
    ensures
        r@.len() == count - 1,
        forall|k: int|
            0 <= k < r@.len() ==> #[trigger] r@[k] == grid_offset(
                start as int,
                length as int,
                count as int,
                k + 1,
            ),
{
    let mut r: Vec<i64> = Vec::new();
    let mut i: u32 = 1;
    while i < count
        invariant
            1 <= i <= count,
            r@.len() == i - 1,
            forall|k: int|
                0 <= k < r@.len() ==> #[trigger] r@[k] == grid_offset(
                    start as int,
                    length as int,
                    count as int,
                    k + 1,
                ),
        decreases count - i,
    {
        proof {
            assert(0 <= length * i <= length * count) by (nonlinear_arith)
                requires
                    i <= count,
            ;
            assert(length * count <= 0xffff_ffff * 0xffff_ffff) by (nonlinear_arith)
                requires
                    length <= 0xffff_ffff,
                    count <= 0xffff_ffff,
            ;
            assert((length as int) * (i as int) / (count as int) <= length as int) by (nonlinear_arith)
                requires
                    0 <= (length as int) * (i as int) <= (length as int) * (count as int),
                    count > 0,
            ;
        }
        let offset: u64 = (length as u64) * (i as u64) / (count as u64);
        r.push(start as i64 + offset as i64);
        i = i + 1;
    }
    r
}

} // verus!

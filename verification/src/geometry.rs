//! Coordinate mapping: the recognition engine reports each text line as a
//! quadrilateral in the normalized unit square (origin bottom-left, y up).
//! This module converts such a quadrilateral into an axis-aligned bounding
//! box in pixel space (origin top-left, y down).
//!
//! Normalized coordinates are fixed-point rationals: a coordinate `n`
//! stands for `n / NORM_DENOM` in the unit interval.

use vstd::prelude::*;
use vstd::arithmetic::div_mod::{lemma_div_by_multiple, lemma_div_is_ordered, lemma_div_pos_is_pos};
use vstd::arithmetic::mul::{lemma_mul_inequality, lemma_mul_nonnegative};

verus! {

/// Denominator of the fixed-point normalized coordinates.
pub const NORM_DENOM: u64 = 1_000_000;

/// One corner of an engine observation, in normalized unit-square space
/// (origin bottom-left, y increasing upward), scaled by `NORM_DENOM`.
#[derive(Clone, Copy, PartialEq, Eq, Structural, Debug)]
pub struct NormPoint {
    pub x: u64,
    pub y: u64,
}

impl NormPoint {
    /// Both coordinates lie in the unit interval.
    pub open spec fn valid(self) -> bool {
        self.x <= NORM_DENOM && self.y <= NORM_DENOM
    }
}

/// The four corners of one observed text region, in normalized space.
#[derive(Clone, Copy, PartialEq, Eq, Structural, Debug)]
pub struct NormQuad {
    pub top_left: NormPoint,
    pub top_right: NormPoint,
    pub bottom_right: NormPoint,
    pub bottom_left: NormPoint,
}

impl NormQuad {
    pub open spec fn valid(self) -> bool {
        self.top_left.valid() && self.top_right.valid() && self.bottom_right.valid()
            && self.bottom_left.valid()
    }
}

/// Axis-aligned rectangle in pixel space, origin top-left, y increasing
/// downward. `x` and `y` are the minimum corner after the transform.
#[derive(Clone, Copy, PartialEq, Eq, Structural, Debug)]
pub struct BoundingBox {
    pub x: u64,
    pub y: u64,
    pub w: u64,
    pub h: u64,
}

/// Horizontal pixel coordinate of a normalized x coordinate.
pub open spec fn spec_px(nx: u64, width: u32) -> int {
    (nx * width) / (NORM_DENOM as int)
}

/// Vertical pixel coordinate of a normalized y coordinate: the vertical
/// axis is flipped, `pixel_y = (1 - normalized_y) * height`.
pub open spec fn spec_py(ny: u64, height: u32) -> int {
    ((NORM_DENOM - ny) * height) / (NORM_DENOM as int)
}

pub open spec fn min4(a: int, b: int, c: int, d: int) -> int {
    let ab = if a <= b { a } else { b };
    let cd = if c <= d { c } else { d };
    if ab <= cd { ab } else { cd }
}

pub open spec fn max4(a: int, b: int, c: int, d: int) -> int {
    let ab = if a >= b { a } else { b };
    let cd = if c >= d { c } else { d };
    if ab >= cd { ab } else { cd }
}

/// The bounding box of the four transformed corners of `q`.
pub open spec fn spec_map_box(q: NormQuad, width: u32, height: u32) -> BoundingBox {
    let x0 = spec_px(q.top_left.x, width);
    let x1 = spec_px(q.top_right.x, width);
    let x2 = spec_px(q.bottom_right.x, width);
    let x3 = spec_px(q.bottom_left.x, width);
    let y0 = spec_py(q.top_left.y, height);
    let y1 = spec_py(q.top_right.y, height);
    let y2 = spec_py(q.bottom_right.y, height);
    let y3 = spec_py(q.bottom_left.y, height);
    BoundingBox {
        x: min4(x0, x1, x2, x3) as u64,
        y: min4(y0, y1, y2, y3) as u64,
        w: (max4(x0, x1, x2, x3) - min4(x0, x1, x2, x3)) as u64,
        h: (max4(y0, y1, y2, y3) - min4(y0, y1, y2, y3)) as u64,
    }
}

fn min4_u64(a: u64, b: u64, c: u64, d: u64) -> (r: u64)
    ensures
        r as int == min4(a as int, b as int, c as int, d as int),
{
    let ab: u64 = if a <= b { a } else { b };
    let cd: u64 = if c <= d { c } else { d };
    if ab <= cd { ab } else { cd }
}

fn max4_u64(a: u64, b: u64, c: u64, d: u64) -> (r: u64)
    ensures
        r as int == max4(a as int, b as int, c as int, d as int),
{
    let ab: u64 = if a >= b { a } else { b };
    let cd: u64 = if c >= d { c } else { d };
    if ab >= cd { ab } else { cd }
}

/// A normalized x coordinate lands between 0 and the image width.
pub proof fn lemma_px_bounds(nx: u64, width: u32)
    requires
        nx <= NORM_DENOM,
    ensures
        0 <= spec_px(nx, width) <= width,
        nx * width <= NORM_DENOM * width,
{
    lemma_mul_nonnegative(nx as int, width as int);
    lemma_mul_inequality(nx as int, NORM_DENOM as int, width as int);
    lemma_div_pos_is_pos(nx as int * width as int, NORM_DENOM as int);
    lemma_div_is_ordered(
        nx as int * width as int,
        NORM_DENOM as int * width as int,
        NORM_DENOM as int,
    );
    lemma_div_by_multiple(width as int, NORM_DENOM as int);
    assert(NORM_DENOM as int * width as int == width as int * NORM_DENOM as int);
}

/// A normalized y coordinate lands between 0 and the image height.
pub proof fn lemma_py_bounds(ny: u64, height: u32)
    requires
        ny <= NORM_DENOM,
    ensures
        0 <= spec_py(ny, height) <= height,
        (NORM_DENOM - ny) * height <= NORM_DENOM * height,
{
    lemma_mul_nonnegative(NORM_DENOM - ny as int, height as int);
    lemma_mul_inequality(NORM_DENOM - ny as int, NORM_DENOM as int, height as int);
    lemma_div_pos_is_pos((NORM_DENOM - ny as int) * height as int, NORM_DENOM as int);
    lemma_div_is_ordered(
        (NORM_DENOM - ny as int) * height as int,
        NORM_DENOM as int * height as int,
        NORM_DENOM as int,
    );
    lemma_div_by_multiple(height as int, NORM_DENOM as int);
    assert(NORM_DENOM as int * height as int == height as int * NORM_DENOM as int);
}

/// Pixel x of one normalized x coordinate; never exceeds the image width.
fn pixel_x(nx: u64, width: u32) -> (r: u64)
    requires
        nx <= NORM_DENOM,
    ensures
        r as int == spec_px(nx, width),
        r <= width,
{
    proof {
        lemma_px_bounds(nx, width);
    }
    (nx * (width as u64)) / NORM_DENOM
}

/// Pixel y of one normalized y coordinate, with the vertical flip; never
/// exceeds the image height.
fn pixel_y(ny: u64, height: u32) -> (r: u64)
    requires
        ny <= NORM_DENOM,
    ensures
        r as int == spec_py(ny, height),
        r <= height,
{
    let flipped: u64 = NORM_DENOM - ny;
    proof {
        lemma_py_bounds(ny, height);
    }
    (flipped * (height as u64)) / NORM_DENOM
}

/// Maps the four normalized corners of one observation to the enclosing
/// axis-aligned pixel-space box. The box always lies inside the image:
/// `x + w <= width` and `y + h <= height`.
pub fn map_quad_to_box(q: &NormQuad, width: u32, height: u32) -> (r: BoundingBox)
    requires
        q.valid(),
    ensures
        r == spec_map_box(*q, width, height),
        r.x + r.w <= width,
        r.y + r.h <= height,
{
    let x0 = pixel_x(q.top_left.x, width);
    let x1 = pixel_x(q.top_right.x, width);
    let x2 = pixel_x(q.bottom_right.x, width);
    let x3 = pixel_x(q.bottom_left.x, width);
    let y0 = pixel_y(q.top_left.y, height);
    let y1 = pixel_y(q.top_right.y, height);
    let y2 = pixel_y(q.bottom_right.y, height);
    let y3 = pixel_y(q.bottom_left.y, height);
    let min_x = min4_u64(x0, x1, x2, x3);
    let max_x = max4_u64(x0, x1, x2, x3);
    let min_y = min4_u64(y0, y1, y2, y3);
    let max_y = max4_u64(y0, y1, y2, y3);
    BoundingBox { x: min_x, y: min_y, w: max_x - min_x, h: max_y - min_y }
}

/// The mapped box of a valid quadrilateral lies inside the image: both
/// offsets are non-negative, `x + w <= width`, and `y + h <= height`.
pub proof fn lemma_box_inside_image(q: NormQuad, width: u32, height: u32)
    requires
        q.valid(),
    ensures
        spec_map_box(q, width, height).x + spec_map_box(q, width, height).w <= width,
        spec_map_box(q, width, height).y + spec_map_box(q, width, height).h <= height,
{
    lemma_px_bounds(q.top_left.x, width);
    lemma_px_bounds(q.top_right.x, width);
    lemma_px_bounds(q.bottom_right.x, width);
    lemma_px_bounds(q.bottom_left.x, width);
    lemma_py_bounds(q.top_left.y, height);
    lemma_py_bounds(q.top_right.y, height);
    lemma_py_bounds(q.bottom_right.y, height);
    lemma_py_bounds(q.bottom_left.y, height);
}

/// The quadrilateral that spans the whole normalized unit square.
pub open spec fn unit_quad() -> NormQuad {
    NormQuad {
        top_left: NormPoint { x: 0, y: NORM_DENOM },
        top_right: NormPoint { x: NORM_DENOM, y: NORM_DENOM },
        bottom_right: NormPoint { x: NORM_DENOM, y: 0 },
        bottom_left: NormPoint { x: 0, y: 0 },
    }
}

/// An observation spanning the whole unit square maps to the whole image:
/// the transform flips the vertical axis, so the normalized bottom-left
/// origin lands at the pixel-space top-left origin and the box is exactly
/// `(0, 0, width, height)`.
pub proof fn lemma_unit_square_spans_image(width: u32, height: u32)
    ensures
        spec_map_box(unit_quad(), width, height) == (BoundingBox {
            x: 0,
            y: 0,
            w: width as u64,
            h: height as u64,
        }),
{
    lemma_div_by_multiple(width as int, NORM_DENOM as int);
    lemma_div_by_multiple(height as int, NORM_DENOM as int);
    assert(NORM_DENOM as int * width as int == width as int * NORM_DENOM as int);
    assert(NORM_DENOM as int * height as int == height as int * NORM_DENOM as int);
    assert((0 * width as int) / (NORM_DENOM as int) == 0);
    assert((0 * height as int) / (NORM_DENOM as int) == 0);
}

} // verus!
